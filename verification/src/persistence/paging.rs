//! Cutting what a query returned into a page and the cursor for the next one.

use vstd::prelude::*;

use crate::client::{MQTTyClientMessage, MessageView};
use crate::persistence::codec::{
    decode_rows, decoded_row, decoded_rows, lemma_decoded_rows_pointwise, qos_of_level,
    version_of_tag, MessageRow, RowView, StoredMessage, StoredView,
};
use crate::persistence::error::{ConversionError, ConversionFault};

verus! {

/// The messages of the stored messages, in their order.
pub open spec fn messages_of(rows: Seq<StoredView>) -> Seq<MessageView> {
    rows.map_values(|stored: StoredView| stored.message)
}

/// The page cut from rows that were fetched newest first, one more than
/// `limit` of them where that many exist: the first `limit` messages, and the
/// id of the row after them as the cursor of the next page. Where no row
/// comes after them, and for a negative `limit`, all the messages and no
/// cursor.
pub open spec fn page_of(rows: Seq<StoredView>, limit: int) -> (Seq<MessageView>, Option<i64>) {
    if 0 <= limit < rows.len() {
        (messages_of(rows.take(limit)), Some(rows[limit].id))
    } else {
        (messages_of(rows), None)
    }
}

/// A page holds at most `limit` messages, and exactly `limit` where a cursor
/// comes with it.
pub proof fn lemma_page_is_bounded(rows: Seq<StoredView>, limit: int)
    ensures
        0 <= limit ==> page_of(rows, limit).0.len() <= limit,
        page_of(rows, limit).1 is Some ==> page_of(rows, limit).0.len() == limit,
        page_of(rows, limit).1 is Some <==> 0 <= limit < rows.len(),
{
}

/// The number of rows to ask for where `limit` messages are wanted: one
/// more, which tells whether another page follows.
pub fn fetch_size(limit: i64) -> (n: i64)
    requires
        limit < i64::MAX,
    ensures
        n == limit + 1,
{
    limit + 1
}

/// Cuts fetched rows into a page of at most `limit` messages and the cursor
/// of the next page.
pub fn split_page(rows: Vec<StoredMessage>, limit: i64) -> (page: (
    Vec<MQTTyClientMessage>,
    Option<i64>,
))
    ensures
        (page.0.deep_view(), page.1) == page_of(rows.deep_view(), limit as int),
{
    let mut rows = rows;
    let mut next_cursor: Option<i64> = None;
    if limit >= 0 && (limit as u64) < (rows.len() as u64) {
        let keep = limit as usize;
        next_cursor = Some(rows[keep].id);
        rows.truncate(keep);
    }
    let ghost kept = rows.deep_view();
    let mut messages: Vec<MQTTyClientMessage> = Vec::new();
    for stored in it: rows.into_iter()
        invariant
            kept == rows.deep_view(),
            it.seq() == rows@,
            messages.deep_view() == messages_of(kept.take(it.index() as int)),
    {
        let ghost i = it.index() as int;
        messages.push(stored.message);
        assert(messages_of(kept.take(i + 1)) =~= messages_of(kept.take(i)).push(kept[i].message));
    }
    (messages, next_cursor)
}

/// The page that fetched rows stand for, or the fault of the first row that
/// stands for no message.
pub open spec fn page_of_rows(rows: Seq<RowView>, limit: int) -> Result<
    (Seq<MessageView>, Option<i64>),
    ConversionFault,
> {
    match decoded_rows(rows) {
        Ok(stored) => Ok(page_of(stored, limit)),
        Err(fault) => Err(fault),
    }
}

/// A page is read only from rows that all stand for messages: one stored
/// level or version outside the known ones fails the read.
pub proof fn lemma_page_refuses_unknown_codes(rows: Seq<RowView>, limit: int, i: int)
    requires
        0 <= i < rows.len(),
        qos_of_level(rows[i].columns.qos as int) is None || version_of_tag(
            rows[i].columns.version,
        ) is None,
    ensures
        page_of_rows(rows, limit) is Err,
{
    lemma_decoded_rows_pointwise(rows);
}

/// Turns fetched rows into a page of at most `limit` messages and the cursor
/// of the next page. A row that stands for no message fails the whole page.
pub fn read_page(rows: Vec<MessageRow>, limit: i64) -> (r: Result<
    (Vec<MQTTyClientMessage>, Option<i64>),
    ConversionError,
>)
    ensures
        match r {
            Ok(page) => page_of_rows(rows.deep_view(), limit as int) == Ok::<_, ConversionFault>(
                (page.0.deep_view(), page.1),
            ),
            Err(e) => page_of_rows(rows.deep_view(), limit as int) == Err::<
                (Seq<MessageView>, Option<i64>),
                _,
            >(e@),
        },
{
    match decode_rows(rows) {
        Ok(stored) => Ok(split_page(stored, limit)),
        Err(e) => Err(e),
    }
}

/// The rows come newest first: ids fall strictly from each row to the next.
pub open spec fn newest_first(rows: Seq<StoredView>) -> bool {
    forall|i: int, j: int| 0 <= i < j < rows.len() ==> rows[i].id > rows[j].id
}

/// The rows that a cursor leaves in reach: those whose id is at most the
/// cursor, or all of them where there is no cursor.
pub open spec fn at_or_below(rows: Seq<StoredView>, cursor: Option<i64>) -> Seq<StoredView> {
    match cursor {
        None => rows,
        Some(id) => rows.filter(|row: StoredView| row.id <= id),
    }
}

/// What the reader's query yields from the messages of a connection, given
/// newest first: the rows in reach of the cursor, the first `count` of them
/// where there are more, and all of them for a negative `count`.
pub open spec fn selected(history: Seq<StoredView>, cursor: Option<i64>, count: int) -> Seq<
    StoredView,
> {
    let reachable = at_or_below(history, cursor);
    if 0 <= count < reachable.len() {
        reachable.take(count)
    } else {
        reachable
    }
}

/// One read: the page cut from the `limit + 1` rows that the query yields.
pub open spec fn page(history: Seq<StoredView>, cursor: Option<i64>, limit: int) -> (
    Seq<MessageView>,
    Option<i64>,
) {
    page_of(selected(history, cursor, limit + 1), limit)
}

/// What a cursor leaves in reach of rows given newest first is the rows
/// from some position on: the position is returned.
pub proof fn lemma_reach_is_a_suffix(history: Seq<StoredView>, cursor: Option<i64>) -> (k: int)
    requires
        newest_first(history),
    ensures
        0 <= k <= history.len(),
        at_or_below(history, cursor) == history.skip(k),
        cursor is None ==> k == 0,
        cursor matches Some(id) ==> forall|j: int|
            0 <= j < history.len() ==> (j < k <==> #[trigger] history[j].id > id),
    decreases history.len(),
{
    match cursor {
        None => 0,
        Some(id) => {
            reveal(Seq::filter);
            if history.len() == 0 {
                0
            } else {
                let front = history.drop_last();
                assert forall|i: int, j: int| 0 <= i < j < front.len() implies front[i].id
                    > front[j].id by {}
                let k_front = lemma_reach_is_a_suffix(front, cursor);
                assert forall|j: int| 0 <= j < front.len() implies front[j] == history[j] by {}
                if history.last().id <= id {
                    // The last row is in reach, behind what was in reach before it.
                    k_front
                } else {
                    // No row is in reach: every row before the last has a greater id.
                    history.len() as int
                }
            }
        },
    }
}

/// The cursor that is the id of a row leaves in reach that row and the
/// rows after it.
pub proof fn lemma_reach_of_a_row(history: Seq<StoredView>, k: int)
    requires
        newest_first(history),
        0 <= k < history.len(),
    ensures
        at_or_below(history, Some(history[k].id)) == history.skip(k),
{
    let found = lemma_reach_is_a_suffix(history, Some(history[k].id));
    if found < k {
        assert(history[found].id > history[k].id);
    }
}

/// One read with the rows from position `k` on in reach returns the next
/// `limit` messages and the id of the row after them, or what is left and no
/// cursor.
pub proof fn lemma_page_from_position(
    history: Seq<StoredView>,
    cursor: Option<i64>,
    limit: int,
    k: int,
)
    requires
        0 <= k <= history.len(),
        at_or_below(history, cursor) == history.skip(k),
        0 <= limit,
    ensures
        k + limit < history.len() ==> page(history, cursor, limit) == (
            messages_of(history.subrange(k, k + limit)),
            Some(history[k + limit].id),
        ),
        k + limit >= history.len() ==> page(history, cursor, limit) == (
            messages_of(history.skip(k)),
            None::<i64>,
        ),
{
}

/// While a read returns a cursor, that cursor leaves fewer rows in reach
/// than the one it was called with.
pub proof fn lemma_next_cursor_advances(
    history: Seq<StoredView>,
    cursor: Option<i64>,
    limit: int,
)
    requires
        newest_first(history),
        1 <= limit,
        page(history, cursor, limit).1 is Some,
    ensures
        at_or_below(history, page(history, cursor, limit).1).len() < at_or_below(
            history,
            cursor,
        ).len(),
{
    let k = lemma_reach_is_a_suffix(history, cursor);
    lemma_page_from_position(history, cursor, limit, k);
    lemma_reach_of_a_row(history, k + limit);
}

/// Everything that reading page after page returns, from `cursor` on: each
/// read goes on from the cursor that the one before returned, and the last
/// read is the one that returns no cursor. With a limit of 0 every read
/// returns the cursor it was given, and reading does not end.
pub open spec fn all_pages(history: Seq<StoredView>, cursor: Option<i64>, limit: int) -> Seq<
    MessageView,
>
    decreases at_or_below(history, cursor).len(),
    when newest_first(history) && limit != 0
{
    let current = page(history, cursor, limit);
    match current.1 {
        None => current.0,
        Some(next) => {
            proof {
                lemma_next_cursor_advances(history, cursor, limit);
            }
            current.0 + all_pages(history, Some(next), limit)
        },
    }
}

/// Reading page after page with the rows from position `k` on in reach
/// returns the messages of exactly these rows, in their order.
pub proof fn lemma_pages_cover_the_reach(
    history: Seq<StoredView>,
    cursor: Option<i64>,
    limit: int,
    k: int,
)
    requires
        newest_first(history),
        1 <= limit || limit <= -2,
        0 <= k <= history.len(),
        at_or_below(history, cursor) == history.skip(k),
    ensures
        all_pages(history, cursor, limit) == messages_of(history.skip(k)),
    decreases history.len() - k,
{
    if 1 <= limit {
        lemma_page_from_position(history, cursor, limit, k);
        if k + limit < history.len() {
            let next = Some(history[k + limit].id);
            lemma_reach_of_a_row(history, k + limit);
            lemma_pages_cover_the_reach(history, next, limit, k + limit);
        }
    }
}

/// Pagination is complete: reading page after page from no cursor until no
/// cursor is returned yields every message of the connection exactly once,
/// from newest to oldest. This holds for every limit but 0, with which
/// reading does not end, and -1, with which no row is asked for; a limit
/// below -1 bounds nothing, and the first read returns everything.
pub proof fn lemma_pagination_is_complete(history: Seq<StoredView>, limit: int)
    requires
        newest_first(history),
        1 <= limit || limit <= -2,
    ensures
        all_pages(history, None, limit) == messages_of(history),
{
    assert(history.skip(0) =~= history);
    lemma_pages_cover_the_reach(history, None, limit, 0);
}

/// The boundary of pagination: a first read with the number of messages as
/// its limit returns all of them and no cursor; with one less, it returns
/// all but the oldest, and the id of the oldest as the cursor.
pub proof fn lemma_page_at_the_boundary(history: Seq<StoredView>)
    ensures
        page(history, None, history.len() as int) == (messages_of(history), None::<i64>),
        history.len() >= 1 ==> page(history, None, history.len() - 1) == (
            messages_of(history.drop_last()),
            Some(history.last().id),
        ),
{
}

} // verus!
