//! The two tables as the store's statements see them, and what follows for
//! whoever stores and reads through these statements.
//!
//! `Tables::connection_id` is what `SELECT_CONNECTION_ID` finds,
//! `Tables::resolve` the lookup followed by `INSERT_CONNECTION` where it
//! found nothing, `Tables::insert_message` is `INSERT_MESSAGE`, and
//! `Tables::read` the reader's query followed by the cut into a page. The
//! engine that runs the statements is outside this library: what is proved
//! below is proved of the tables described here, for as long as rows come
//! into them through these statements only.

use vstd::prelude::*;

use crate::client::MessageView;
use crate::persistence::codec::StoredView;
use crate::persistence::paging::{
    all_pages, lemma_page_at_the_boundary, lemma_pagination_is_complete, messages_of,
    newest_first, page,
};

verus! {

/// A row of `mqtt_connections`.
pub struct ConnectionRecord {
    pub id: i64,
    pub client_id: Seq<char>,
    pub url: Seq<char>,
    pub deleted: bool,
}

/// A row of `mqtt_messages`.
pub struct MessageRecord {
    pub id: i64,
    pub connection_id: i64,
    pub message: MessageView,
}

impl MessageRecord {
    /// The row without the connection it belongs to.
    pub open spec fn stored(self) -> StoredView {
        StoredView { id: self.id, message: self.message }
    }
}

/// Ids grow along the rows.
pub open spec fn oldest_first(rows: Seq<MessageRecord>) -> bool {
    forall|i: int, j: int| 0 <= i < j < rows.len() ==> rows[i].id < rows[j].id
}

/// Both tables, each with its rows in the order in which they were inserted.
pub struct Tables {
    pub connections: Seq<ConnectionRecord>,
    pub messages: Seq<MessageRecord>,
}

impl Tables {
    /// The tables of a new database.
    pub open spec fn empty() -> Tables {
        Tables { connections: Seq::empty(), messages: Seq::empty() }
    }

    /// Some connection row has this id.
    pub open spec fn has_connection(self, id: i64) -> bool {
        exists|i: int| 0 <= i < self.connections.len() && #[trigger] self.connections[i].id == id
    }

    /// What the schema and the order of insertion give: ids grow along each
    /// table, no two connections share client id and URL, and every message
    /// belongs to a connection.
    pub open spec fn well_formed(self) -> bool {
        &&& forall|i: int, j: int|
            0 <= i < j < self.connections.len() ==> self.connections[i].id
                < self.connections[j].id
        &&& forall|i: int, j: int|
            0 <= i < j < self.connections.len() ==> !(self.connections[i].client_id
                == self.connections[j].client_id && self.connections[i].url
                == self.connections[j].url)
        &&& oldest_first(self.messages)
        &&& forall|i: int|
            0 <= i < self.messages.len() ==> self.has_connection(
                #[trigger] self.messages[i].connection_id,
            )
    }

    /// The id that the next connection row gets: one more than the last,
    /// and 1 in an empty table.
    pub open spec fn next_connection_id(self) -> int {
        if self.connections.len() == 0 {
            1
        } else {
            self.connections.last().id + 1
        }
    }

    /// The id that the next message row gets: one more than the last, and 1
    /// in an empty table.
    pub open spec fn next_message_id(self) -> int {
        if self.messages.len() == 0 {
            1
        } else {
            self.messages.last().id + 1
        }
    }

    /// The connection row at `i` has this client id and URL.
    pub open spec fn names(self, i: int, client_id: Seq<char>, url: Seq<char>) -> bool {
        &&& 0 <= i < self.connections.len()
        &&& self.connections[i].client_id == client_id
        &&& self.connections[i].url == url
    }

    /// The id of the connection with this client id and URL, if there is
    /// one.
    pub open spec fn connection_id(self, client_id: Seq<char>, url: Seq<char>) -> Option<i64> {
        if exists|i: int| self.names(i, client_id, url) {
            Some(self.connections[choose|i: int| self.names(i, client_id, url)].id)
        } else {
            None
        }
    }

    /// `count` messages can be stored for this client id and URL before
    /// either table runs out of ids.
    pub open spec fn can_store(self, client_id: Seq<char>, url: Seq<char>, count: int) -> bool {
        &&& self.connection_id(client_id, url) is None ==> self.next_connection_id() <= i64::MAX
        &&& self.next_message_id() + count - 1 <= i64::MAX
    }

    /// Resolving a connection: its id where it is known, with the tables
    /// unchanged; else a new row for it, not deleted, and the id of that
    /// row. The last component tells whether a row was inserted.
    pub open spec fn resolve(self, client_id: Seq<char>, url: Seq<char>) -> (Tables, i64, bool) {
        match self.connection_id(client_id, url) {
            Some(id) => (self, id, false),
            None => {
                let id = self.next_connection_id() as i64;
                let record = ConnectionRecord { id, client_id, url, deleted: false };
                (
                    Tables { connections: self.connections.push(record), messages: self.messages },
                    id,
                    true,
                )
            },
        }
    }

    /// A new message row for the connection with this id.
    pub open spec fn insert_message(self, connection_id: i64, message: MessageView) -> Tables {
        let id = self.next_message_id() as i64;
        Tables {
            connections: self.connections,
            messages: self.messages.push(MessageRecord { id, connection_id, message }),
        }
    }

    /// Storing a message: the connection is resolved, then the message
    /// inserted under its id.
    pub open spec fn store_message(
        self,
        client_id: Seq<char>,
        url: Seq<char>,
        message: MessageView,
    ) -> Tables {
        let resolved = self.resolve(client_id, url);
        resolved.0.insert_message(resolved.1, message)
    }

    /// Storing several messages for one connection, one after the other.
    pub open spec fn store_messages(
        self,
        client_id: Seq<char>,
        url: Seq<char>,
        messages: Seq<MessageView>,
    ) -> Tables
        decreases messages.len(),
    {
        if messages.len() == 0 {
            self
        } else {
            self.store_messages(client_id, url, messages.drop_last()).store_message(
                client_id,
                url,
                messages.last(),
            )
        }
    }

    /// The message rows of the connection with this id, oldest first.
    pub open spec fn rows_of(self, connection_id: i64) -> Seq<MessageRecord> {
        self.messages.filter(|m: MessageRecord| m.connection_id == connection_id)
    }

    /// The messages of the connection with this client id and URL, newest
    /// first; none where the connection is unknown.
    pub open spec fn history(self, client_id: Seq<char>, url: Seq<char>) -> Seq<StoredView> {
        match self.connection_id(client_id, url) {
            None => Seq::empty(),
            Some(id) => self.rows_of(id).map_values(|m: MessageRecord| m.stored()).reverse(),
        }
    }

    /// One read of the messages of a connection.
    pub open spec fn read(
        self,
        client_id: Seq<char>,
        url: Seq<char>,
        cursor: Option<i64>,
        limit: int,
    ) -> (Seq<MessageView>, Option<i64>) {
        page(self.history(client_id, url), cursor, limit)
    }

    /// Everything that reading the messages of a connection page after page
    /// returns, from no cursor until no cursor is returned.
    pub open spec fn read_all(self, client_id: Seq<char>, url: Seq<char>, limit: int) -> Seq<
        MessageView,
    > {
        all_pages(self.history(client_id, url), None, limit)
    }
}

/// The id of a connection row is the id that its client id and URL resolve
/// to.
pub proof fn lemma_connection_id_of_row(tables: Tables, i: int)
    requires
        tables.well_formed(),
        0 <= i < tables.connections.len(),
    ensures
        tables.connection_id(tables.connections[i].client_id, tables.connections[i].url) == Some(
            tables.connections[i].id,
        ),
{
    let row = tables.connections[i];
    assert(tables.names(i, row.client_id, row.url));
    let j = choose|j: int| tables.names(j, row.client_id, row.url);
    if j < i {
        assert(!(tables.connections[j].client_id == tables.connections[i].client_id
            && tables.connections[j].url == tables.connections[i].url));
    }
    if i < j {
        assert(!(tables.connections[i].client_id == tables.connections[j].client_id
            && tables.connections[i].url == tables.connections[j].url));
    }
}

/// The id of a known connection is the id of one of the rows.
pub proof fn lemma_known_connection_has_a_row(tables: Tables, client_id: Seq<char>, url: Seq<char>)
    requires
        tables.connection_id(client_id, url) is Some,
    ensures
        tables.has_connection(tables.connection_id(client_id, url)->Some_0),
{
    let at = choose|at: int| tables.names(at, client_id, url);
    assert(tables.connections[at].id == tables.connection_id(client_id, url)->Some_0);
}

/// Every connection row has an id below the id that the next row gets.
pub proof fn lemma_next_connection_id_is_fresh(tables: Tables, i: int)
    requires
        tables.well_formed(),
        0 <= i < tables.connections.len(),
    ensures
        tables.connections[i].id < tables.next_connection_id(),
{
    let n = tables.connections.len() as int;
    if i < n - 1 {
        assert(tables.connections[i].id < tables.connections[n - 1].id);
    }
}

/// Well-formed tables with the same connection rows resolve every client
/// id and URL to the same id.
pub proof fn lemma_same_connections_same_ids(
    first: Tables,
    second: Tables,
    client_id: Seq<char>,
    url: Seq<char>,
)
    requires
        first.well_formed(),
        second.well_formed(),
        first.connections == second.connections,
    ensures
        first.connection_id(client_id, url) == second.connection_id(client_id, url),
{
    if exists|i: int| first.names(i, client_id, url) {
        let i = choose|i: int| first.names(i, client_id, url);
        assert(second.names(i, client_id, url));
        lemma_connection_id_of_row(first, i);
        lemma_connection_id_of_row(second, i);
    } else {
        assert forall|i: int| !second.names(i, client_id, url) by {
            assert(!first.names(i, client_id, url));
        }
    }
}

/// Resolving keeps the tables well formed and the messages as they are. It
/// inserts a row exactly where the connection was unknown, and the id
/// returned is the id that the connection resolves to from then on.
pub proof fn lemma_resolve_keeps_well_formed(tables: Tables, client_id: Seq<char>, url: Seq<char>)
    requires
        tables.well_formed(),
        tables.connection_id(client_id, url) is None ==> tables.next_connection_id() <= i64::MAX,
    ensures
        tables.resolve(client_id, url).0.well_formed(),
        tables.resolve(client_id, url).2 <==> tables.connection_id(client_id, url) is None,
        tables.resolve(client_id, url).0.connection_id(client_id, url) == Some(
            tables.resolve(client_id, url).1,
        ),
        tables.resolve(client_id, url).0.messages == tables.messages,
{
    let resolved = tables.resolve(client_id, url);
    let after = resolved.0;
    if tables.connection_id(client_id, url) is None {
        let n = tables.connections.len() as int;
        assert(after.connections[n].id == resolved.1);
        assert forall|i: int, j: int| 0 <= i < j < after.connections.len() implies after.connections[i].id
            < after.connections[j].id by {
            if j == n {
                lemma_next_connection_id_is_fresh(tables, i);
            }
        }
        assert forall|i: int, j: int| 0 <= i < j < after.connections.len() implies !(
        after.connections[i].client_id == after.connections[j].client_id
            && after.connections[i].url == after.connections[j].url) by {
            if j == n {
                assert(!tables.names(i, client_id, url));
            }
        }
        assert forall|i: int| 0 <= i < after.messages.len() implies after.has_connection(
            #[trigger] after.messages[i].connection_id,
        ) by {
            let id = tables.messages[i].connection_id;
            assert(tables.has_connection(id));
            let c = choose|c: int|
                0 <= c < tables.connections.len() && #[trigger] tables.connections[c].id == id;
            assert(after.connections[c].id == id);
        }
        lemma_connection_id_of_row(after, n);
    } else {
        let i = choose|i: int| tables.names(i, client_id, url);
        lemma_connection_id_of_row(tables, i);
    }
}

/// Inserting a message for a connection that exists keeps the tables well
/// formed.
pub proof fn lemma_insert_keeps_well_formed(
    tables: Tables,
    connection_id: i64,
    message: MessageView,
)
    requires
        tables.well_formed(),
        tables.next_message_id() <= i64::MAX,
        tables.has_connection(connection_id),
    ensures
        tables.insert_message(connection_id, message).well_formed(),
{
    let after = tables.insert_message(connection_id, message);
    let n = tables.messages.len() as int;
    assert forall|i: int, j: int| 0 <= i < j < after.messages.len() implies after.messages[i].id
        < after.messages[j].id by {
        if j == n && i < n - 1 {
            assert(tables.messages[i].id < tables.messages[n - 1].id);
        }
    }
    assert forall|i: int| 0 <= i < after.messages.len() implies after.has_connection(
        #[trigger] after.messages[i].connection_id,
    ) by {
        let id = after.messages[i].connection_id;
        if i < n {
            assert(tables.has_connection(tables.messages[i].connection_id));
        }
        let c = choose|c: int|
            0 <= c < tables.connections.len() && #[trigger] tables.connections[c].id == id;
        assert(after.connections[c].id == id);
    }
}

/// The rows of one connection, picked from rows along which ids grow, have
/// growing ids too.
pub proof fn lemma_rows_of_connection(rows: Seq<MessageRecord>, connection_id: i64)
    requires
        oldest_first(rows),
    ensures
        ({
            let picked = rows.filter(|m: MessageRecord| m.connection_id == connection_id);
            &&& oldest_first(picked)
            &&& forall|i: int|
                0 <= i < picked.len() ==> (#[trigger] picked[i]).id <= rows.last().id
        }),
    decreases rows.len(),
{
    reveal(Seq::filter);
    if rows.len() > 0 {
        let front = rows.drop_last();
        assert forall|i: int, j: int| 0 <= i < j < front.len() implies front[i].id
            < front[j].id by {
            assert(front[i] == rows[i] && front[j] == rows[j]);
        }
        lemma_rows_of_connection(front, connection_id);
        if front.len() > 0 {
            assert(front.last() == rows[front.len() - 1]);
            assert(front.last().id < rows.last().id);
        }
    }
}

/// Every row picked for a connection is one of the rows, and belongs to
/// that connection.
pub proof fn lemma_picked_row_is_a_row(rows: Seq<MessageRecord>, connection_id: i64, i: int)
    requires
        0 <= i < rows.filter(|m: MessageRecord| m.connection_id == connection_id).len(),
    ensures
        ({
            let picked = rows.filter(|m: MessageRecord| m.connection_id == connection_id);
            &&& picked[i].connection_id == connection_id
            &&& exists|at: int| 0 <= at < rows.len() && rows[at] == picked[i]
        }),
    decreases rows.len(),
{
    reveal(Seq::filter);
    let in_connection = |m: MessageRecord| m.connection_id == connection_id;
    let picked = rows.filter(in_connection);
    if rows.len() > 0 {
        let front = rows.drop_last();
        if i < front.filter(in_connection).len() {
            lemma_picked_row_is_a_row(front, connection_id, i);
            let at = choose|at: int|
                0 <= at < front.len() && front[at] == front.filter(in_connection)[i];
            assert(rows[at] == picked[i]);
        } else {
            assert(rows[rows.len() - 1] == picked[i]);
        }
    }
}

/// The history of a connection comes newest first.
pub proof fn lemma_history_is_newest_first(tables: Tables, client_id: Seq<char>, url: Seq<char>)
    requires
        tables.well_formed(),
    ensures
        newest_first(tables.history(client_id, url)),
{
    match tables.connection_id(client_id, url) {
        None => {},
        Some(id) => {
            lemma_rows_of_connection(tables.messages, id);
            let picked = tables.rows_of(id);
            let history = tables.history(client_id, url);
            assert forall|i: int, j: int| 0 <= i < j < history.len() implies history[i].id
                > history[j].id by {
                assert(history[i] == picked[picked.len() - 1 - i].stored());
                assert(history[j] == picked[picked.len() - 1 - j].stored());
            }
        },
    }
}

/// A connection that is unknown has no messages, and gets none by being
/// resolved.
pub proof fn lemma_new_connection_has_no_messages(
    tables: Tables,
    client_id: Seq<char>,
    url: Seq<char>,
)
    requires
        tables.well_formed(),
        tables.connection_id(client_id, url) is None,
        tables.next_connection_id() <= i64::MAX,
    ensures
        tables.rows_of(tables.resolve(client_id, url).1).len() == 0,
{
    let id = tables.resolve(client_id, url).1;
    let rows = tables.rows_of(id);
    if rows.len() > 0 {
        lemma_picked_row_is_a_row(tables.messages, id, 0);
        let at = choose|at: int| 0 <= at < tables.messages.len() && tables.messages[at] == rows[0];
        assert(tables.has_connection(tables.messages[at].connection_id));
        let c = choose|c: int|
            0 <= c < tables.connections.len() && #[trigger] tables.connections[c].id == id;
        lemma_next_connection_id_is_fresh(tables, c);
    }
}

/// A stored message becomes the newest of its connection: it stands first
/// in the history, under the id that the next message row gets, before
/// what was there. The tables stay well formed.
pub proof fn lemma_stored_message_is_newest(
    tables: Tables,
    client_id: Seq<char>,
    url: Seq<char>,
    message: MessageView,
)
    requires
        tables.well_formed(),
        tables.can_store(client_id, url, 1),
    ensures
        ({
            let after = tables.store_message(client_id, url, message);
            let newest = StoredView { id: tables.next_message_id() as i64, message };
            &&& after.well_formed()
            &&& after.next_message_id() == tables.next_message_id() + 1
            &&& after.connection_id(client_id, url) is Some
            &&& after.history(client_id, url) == seq![newest] + tables.history(client_id, url)
        }),
{
    reveal(Seq::filter);
    lemma_resolve_keeps_well_formed(tables, client_id, url);
    let resolved = tables.resolve(client_id, url);
    let id = resolved.1;
    let after = tables.store_message(client_id, url, message);
    lemma_known_connection_has_a_row(resolved.0, client_id, url);
    lemma_insert_keeps_well_formed(resolved.0, id, message);
    lemma_same_connections_same_ids(resolved.0, after, client_id, url);
    let in_connection = |m: MessageRecord| m.connection_id == id;
    let stored = |m: MessageRecord| m.stored();
    assert(after.messages.drop_last() =~= tables.messages);
    let before_rows = tables.messages.filter(in_connection);
    assert(after.rows_of(id) == before_rows.push(after.messages.last()));
    let newest = StoredView { id: tables.next_message_id() as i64, message };
    assert(after.history(client_id, url) =~= seq![newest] + before_rows.map_values(
        stored,
    ).reverse());
    if tables.connection_id(client_id, url) is None {
        lemma_new_connection_has_no_messages(tables, client_id, url);
        assert(before_rows.map_values(stored).reverse() =~= Seq::<StoredView>::empty());
    }
}

/// Connections are isolated: storing a message for one connection leaves
/// the history of every other connection, and so every read of it, as it
/// was.
pub proof fn lemma_connections_are_isolated(
    tables: Tables,
    client_id: Seq<char>,
    url: Seq<char>,
    message: MessageView,
    other_client_id: Seq<char>,
    other_url: Seq<char>,
)
    requires
        tables.well_formed(),
        tables.can_store(client_id, url, 1),
        !(client_id == other_client_id && url == other_url),
    ensures
        ({
            let after = tables.store_message(client_id, url, message);
            &&& after.history(other_client_id, other_url) == tables.history(
                other_client_id,
                other_url,
            )
            &&& forall|cursor: Option<i64>, limit: int| #[trigger]
                after.read(other_client_id, other_url, cursor, limit) == tables.read(
                    other_client_id,
                    other_url,
                    cursor,
                    limit,
                )
        }),
{
    reveal(Seq::filter);
    lemma_resolve_keeps_well_formed(tables, client_id, url);
    let resolved = tables.resolve(client_id, url);
    let id = resolved.1;
    let after = tables.store_message(client_id, url, message);
    lemma_known_connection_has_a_row(resolved.0, client_id, url);
    lemma_insert_keeps_well_formed(resolved.0, id, message);
    lemma_same_connections_same_ids(resolved.0, after, other_client_id, other_url);
    // Resolving one connection does not change what the other resolves to.
    assert(resolved.0.connection_id(other_client_id, other_url) == tables.connection_id(
        other_client_id,
        other_url,
    )) by {
        if exists|i: int| tables.names(i, other_client_id, other_url) {
            let i = choose|i: int| tables.names(i, other_client_id, other_url);
            assert(resolved.0.names(i, other_client_id, other_url));
            lemma_connection_id_of_row(tables, i);
            lemma_connection_id_of_row(resolved.0, i);
        } else {
            assert forall|i: int| !resolved.0.names(i, other_client_id, other_url) by {
                if i < tables.connections.len() {
                    assert(!tables.names(i, other_client_id, other_url));
                }
            }
        }
    }
    match tables.connection_id(other_client_id, other_url) {
        None => {},
        Some(other_id) => {
            // Two connections have two ids.
            let known = resolved.0;
            let here = choose|i: int| known.names(i, client_id, url);
            let there = choose|i: int| known.names(i, other_client_id, other_url);
            lemma_connection_id_of_row(known, here);
            lemma_connection_id_of_row(known, there);
            if here < there {
                assert(known.connections[here].id < known.connections[there].id);
            } else {
                assert(known.connections[there].id < known.connections[here].id);
            }
            assert(id != other_id);
            assert(after.messages.drop_last() =~= tables.messages);
            assert(after.rows_of(other_id) == tables.rows_of(other_id));
        },
    }
}

/// Messages stored one after the other for a connection stand in its
/// history in the reverse of that order, before what was there.
pub proof fn lemma_stored_messages_are_newest(
    tables: Tables,
    client_id: Seq<char>,
    url: Seq<char>,
    messages: Seq<MessageView>,
)
    requires
        tables.well_formed(),
        tables.can_store(client_id, url, messages.len() as int),
    ensures
        ({
            let after = tables.store_messages(client_id, url, messages);
            &&& after.well_formed()
            &&& after.next_message_id() == tables.next_message_id() + messages.len()
            &&& messages.len() > 0 ==> after.connection_id(client_id, url) is Some
            &&& messages_of(after.history(client_id, url)) == messages.reverse() + messages_of(
                tables.history(client_id, url),
            )
        }),
    decreases messages.len(),
{
    let after = tables.store_messages(client_id, url, messages);
    if messages.len() == 0 {
        assert(messages.reverse() + messages_of(tables.history(client_id, url)) =~= messages_of(
            tables.history(client_id, url),
        ));
    } else {
        let front = messages.drop_last();
        let middle = tables.store_messages(client_id, url, front);
        lemma_stored_messages_are_newest(tables, client_id, url, front);
        if front.len() == 0 {
            assert(middle == tables);
        }
        lemma_stored_message_is_newest(middle, client_id, url, messages.last());
        let newest = StoredView { id: middle.next_message_id() as i64, message: messages.last() };
        assert(messages_of(seq![newest] + middle.history(client_id, url)) =~= seq![
            messages.last(),
        ] + messages_of(middle.history(client_id, url)));
        assert(messages.reverse() =~= seq![messages.last()] + front.reverse());
        assert(seq![messages.last()] + (front.reverse() + messages_of(
            tables.history(client_id, url),
        )) =~= messages.reverse() + messages_of(tables.history(client_id, url)));
    }
}

/// Every message of a connection is read: reading page after page returns
/// the messages of the connection exactly once each, from newest to oldest,
/// whatever the limit, 0 and -1 left aside.
pub proof fn lemma_every_message_is_read(
    tables: Tables,
    client_id: Seq<char>,
    url: Seq<char>,
    limit: int,
)
    requires
        tables.well_formed(),
        1 <= limit || limit <= -2,
    ensures
        tables.read_all(client_id, url, limit) == messages_of(tables.history(client_id, url)),
{
    lemma_history_is_newest_first(tables, client_id, url);
    lemma_pagination_is_complete(tables.history(client_id, url), limit);
}

/// What was stored is read back: after messages were stored one after the
/// other for a connection without messages, reading page after page
/// returns exactly these messages, the last stored first, whatever the
/// limit, 0 and -1 left aside.
pub proof fn lemma_stored_messages_are_read_back(
    tables: Tables,
    client_id: Seq<char>,
    url: Seq<char>,
    messages: Seq<MessageView>,
    limit: int,
)
    requires
        tables.well_formed(),
        tables.can_store(client_id, url, messages.len() as int),
        tables.history(client_id, url).len() == 0,
        1 <= limit || limit <= -2,
    ensures
        tables.store_messages(client_id, url, messages).read_all(client_id, url, limit)
            == messages.reverse(),
{
    lemma_stored_messages_are_newest(tables, client_id, url, messages);
    lemma_every_message_is_read(
        tables.store_messages(client_id, url, messages),
        client_id,
        url,
        limit,
    );
    assert(messages.reverse() + messages_of(tables.history(client_id, url))
        =~= messages.reverse());
}

/// The boundary of pagination: a first read whose limit is the number of
/// messages of the connection returns all of them and no cursor; with a
/// limit of one less, it returns all but the oldest, and the id of the
/// oldest as the cursor.
pub proof fn lemma_read_at_the_boundary(tables: Tables, client_id: Seq<char>, url: Seq<char>)
    ensures
        ({
            let history = tables.history(client_id, url);
            let count = history.len() as int;
            &&& tables.read(client_id, url, None, count) == (messages_of(history), None::<i64>)
            &&& count >= 1 ==> tables.read(client_id, url, None, count - 1) == (
                messages_of(history.drop_last()),
                Some(history.last().id),
            )
        }),
{
    lemma_page_at_the_boundary(tables.history(client_id, url));
}

/// Resolution is idempotent: resolving the same client id and URL a second
/// time returns the id of the first time, inserts nothing and changes
/// nothing.
pub proof fn lemma_resolution_is_idempotent(tables: Tables, client_id: Seq<char>, url: Seq<char>)
    requires
        tables.well_formed(),
        tables.connection_id(client_id, url) is None ==> tables.next_connection_id() <= i64::MAX,
    ensures
        ({
            let first = tables.resolve(client_id, url);
            let second = first.0.resolve(client_id, url);
            second == (first.0, first.1, false)
        }),
{
    lemma_resolve_keeps_well_formed(tables, client_id, url);
}

} // verus!
