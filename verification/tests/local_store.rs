use std::path::PathBuf;

use mqtty::client::{
    MQTTyClientConnection, MQTTyClientMessage, MQTTyClientQos, MQTTyClientVersion,
};
use mqtty::persistence::error::{ConversionError, StoreError};
use mqtty::persistence::local_store::{
    data_dir_or_error, engine_result, resolve_found, resolve_inserted, MQTTyLocalStore,
};

fn memory_store() -> MQTTyLocalStore {
    MQTTyLocalStore::open(&PathBuf::from(":memory:")).expect("an in-memory database opens")
}

/// A store on a named in-memory database, and a second connection to the same database.
fn shared_store(name: &str) -> (MQTTyLocalStore, rusqlite::Connection) {
    let uri = format!("file:{name}?mode=memory&cache=shared");
    let store = MQTTyLocalStore::open(&PathBuf::from(&uri)).expect("the shared database opens");
    let raw = rusqlite::Connection::open(&uri).expect("the second connection opens");
    (store, raw)
}

fn connection(client_id: &str, url: &str) -> MQTTyClientConnection {
    MQTTyClientConnection {
        client_id: client_id.to_string(),
        url: url.to_string(),
        ..Default::default()
    }
}

fn message(topic: &str, body: &[u8]) -> MQTTyClientMessage {
    let mut m = MQTTyClientMessage::new();
    m.set_topic(topic.to_string());
    m.set_timestamp("2025-01-02T03:04:05+00:00".to_string());
    m.set_body(body);
    m
}

fn numbered(n: u8) -> MQTTyClientMessage {
    message("numbers", &[n])
}

/// Reads page after page until no cursor comes back; returns the pages and the number of reads.
fn read_all(
    store: &MQTTyLocalStore,
    conn: &MQTTyClientConnection,
    limit: i64,
) -> Vec<Vec<MQTTyClientMessage>> {
    let mut pages = Vec::new();
    let mut cursor = None;
    loop {
        let (page, next) = store
            .get_recent_messages_for_connection(conn, cursor, limit)
            .expect("the read succeeds");
        pages.push(page);
        match next {
            Some(id) => cursor = Some(id),
            None => return pages,
        }
        assert!(pages.len() < 1000, "the cursor does not move on");
    }
}

fn bodies(page: &[MQTTyClientMessage]) -> Vec<u8> {
    page.iter().map(|m| m.body()[0]).collect()
}

#[test]
fn resolving_twice_gives_the_same_id() {
    let store = memory_store();
    let conn = connection("client-a", "tcp://localhost:1883");
    let (first, created_first) = store.get_or_insert_connection(&conn).unwrap();
    let (second, created_second) = store.get_or_insert_connection(&conn).unwrap();
    assert!(created_first);
    assert!(!created_second);
    assert_eq!(first, second);
    assert_eq!(first, 1);
}

#[test]
fn connections_differ_by_client_id_or_url() {
    let store = memory_store();
    let (a, _) = store.get_or_insert_connection(&connection("a", "tcp://x")).unwrap();
    let (b, created_b) = store.get_or_insert_connection(&connection("b", "tcp://x")).unwrap();
    let (c, created_c) = store.get_or_insert_connection(&connection("a", "tcp://y")).unwrap();
    assert!(created_b && created_c);
    assert_eq!((a, b, c), (1, 2, 3));
    // Name, credentials and flags take no part in the identity.
    let mut renamed = connection("a", "tcp://x");
    renamed.name = "kitchen".to_string();
    renamed.username = Some("user".to_string());
    renamed.clean_start = true;
    assert_eq!(store.get_or_insert_connection(&renamed).unwrap(), (a, false));
}

#[test]
fn storing_resolves_the_connection() {
    let store = memory_store();
    let conn = connection("client-a", "tcp://localhost:1883");
    store.store_message(&conn, &numbered(1)).unwrap();
    assert_eq!(store.get_or_insert_connection(&conn).unwrap(), (1, false));
}

#[test]
fn stored_message_is_read_back_with_every_field() {
    let store = memory_store();
    let conn = connection("client-a", "tcp://localhost:1883");
    let mut m = message("sensors/kitchen", b"\x00\x01binary\xff");
    m.set_qos(MQTTyClientQos::Qos2);
    m.set_mqtt_version(MQTTyClientVersion::V5);
    m.set_retained(true);
    m.set_content_type(Some("application/json".to_string()));
    m.set_user_properties(&[
        ("k\"ey".to_string(), "v\\alue\n".to_string()),
        ("k\"ey".to_string(), "second".to_string()),
    ]);
    store.store_message(&conn, &m).unwrap();
    let (page, next) = store.get_recent_messages_for_connection(&conn, None, 10).unwrap();
    assert_eq!(next, None);
    assert_eq!(page, vec![m]);
    let got = &page[0];
    assert_eq!(got.topic(), "sensors/kitchen");
    assert_eq!(got.timestamp(), "2025-01-02T03:04:05+00:00");
    assert_eq!(got.qos(), MQTTyClientQos::Qos2);
    assert_eq!(got.mqtt_version(), MQTTyClientVersion::V5);
    assert!(got.retained());
    assert_eq!(got.content_type(), Some("application/json".to_string()));
    assert_eq!(got.user_properties().len(), 2);
    assert_eq!(got.body(), b"\x00\x01binary\xff".to_vec());
}

#[test]
fn default_message_is_read_back() {
    let store = memory_store();
    let conn = connection("", "");
    store.store_message(&conn, &MQTTyClientMessage::new()).unwrap();
    let (page, next) = store.get_recent_messages_for_connection(&conn, None, 1).unwrap();
    assert_eq!(next, None);
    assert_eq!(page, vec![MQTTyClientMessage::new()]);
}

#[test]
fn the_columns_hold_level_tag_and_json() {
    let (store, raw) = shared_store("columns");
    let conn = connection("client-a", "tcp://localhost:1883");
    let mut m = message("t", b"payload");
    m.set_qos(MQTTyClientQos::Qos1);
    m.set_mqtt_version(MQTTyClientVersion::V3X);
    m.set_user_properties(&[("a".to_string(), "b".to_string())]);
    store.store_message(&conn, &m).unwrap();
    store.store_message(&conn, &MQTTyClientMessage::new()).unwrap();
    let row: (i64, i64, String, bool, Option<String>, String, Vec<u8>) = raw
        .query_row(
            "SELECT connection_id, qos, version, retained, content_type, user_properties, body \
             FROM mqtt_messages WHERE id = 1",
            (),
            |r| Ok((r.get(0)?, r.get(1)?, r.get(2)?, r.get(3)?, r.get(4)?, r.get(5)?, r.get(6)?)),
        )
        .unwrap();
    assert_eq!(
        row,
        (1, 1, "3.x".to_string(), false, None, "[[\"a\",\"b\"]]".to_string(), b"payload".to_vec())
    );
    let empty: String = raw
        .query_row("SELECT user_properties FROM mqtt_messages WHERE id = 2", (), |r| r.get(0))
        .unwrap();
    assert_eq!(empty, "[]");
    let deleted: bool = raw
        .query_row("SELECT deleted FROM mqtt_connections WHERE id = 1", (), |r| r.get(0))
        .unwrap();
    assert!(!deleted);
}

#[test]
fn pages_chain_through_all_messages() {
    let store = memory_store();
    let conn = connection("client-a", "tcp://localhost:1883");
    for n in 1..=7 {
        store.store_message(&conn, &numbered(n)).unwrap();
    }
    let pages = read_all(&store, &conn, 3);
    assert_eq!(pages.len(), 3);
    assert_eq!(bodies(&pages[0]), vec![7, 6, 5]);
    assert_eq!(bodies(&pages[1]), vec![4, 3, 2]);
    assert_eq!(bodies(&pages[2]), vec![1]);

    let one_by_one = read_all(&store, &conn, 1);
    assert_eq!(one_by_one.len(), 7);
    let flat: Vec<u8> = one_by_one.iter().flat_map(|p| bodies(p)).collect();
    assert_eq!(flat, vec![7, 6, 5, 4, 3, 2, 1]);

    let at_once = read_all(&store, &conn, 100);
    assert_eq!(at_once.len(), 1);
    assert_eq!(bodies(&at_once[0]), vec![7, 6, 5, 4, 3, 2, 1]);
}

#[test]
fn page_size_dividing_the_count_ends_without_an_empty_page() {
    let store = memory_store();
    let conn = connection("client-a", "tcp://localhost:1883");
    for n in 1..=6 {
        store.store_message(&conn, &numbered(n)).unwrap();
    }
    let pages = read_all(&store, &conn, 3);
    assert_eq!(pages.len(), 2);
    assert_eq!(bodies(&pages[0]), vec![6, 5, 4]);
    assert_eq!(bodies(&pages[1]), vec![3, 2, 1]);
}

#[test]
fn limit_equal_to_the_count_returns_everything() {
    let store = memory_store();
    let conn = connection("client-a", "tcp://localhost:1883");
    for n in 1..=4 {
        store.store_message(&conn, &numbered(n)).unwrap();
    }
    let (page, next) = store.get_recent_messages_for_connection(&conn, None, 4).unwrap();
    assert_eq!(bodies(&page), vec![4, 3, 2, 1]);
    assert_eq!(next, None);
}

#[test]
fn limit_one_below_the_count_points_at_the_oldest() {
    let store = memory_store();
    let conn = connection("client-a", "tcp://localhost:1883");
    for n in 1..=4 {
        store.store_message(&conn, &numbered(n)).unwrap();
    }
    let (page, next) = store.get_recent_messages_for_connection(&conn, None, 3).unwrap();
    assert_eq!(bodies(&page), vec![4, 3, 2]);
    assert_eq!(next, Some(1));
    let (rest, end) = store.get_recent_messages_for_connection(&conn, next, 3).unwrap();
    assert_eq!(bodies(&rest), vec![1]);
    assert_eq!(end, None);
}

#[test]
fn the_cursor_row_is_the_first_of_its_page() {
    let store = memory_store();
    let conn = connection("client-a", "tcp://localhost:1883");
    for n in 1..=5 {
        store.store_message(&conn, &numbered(n)).unwrap();
    }
    let (page, next) = store.get_recent_messages_for_connection(&conn, Some(3), 2).unwrap();
    assert_eq!(bodies(&page), vec![3, 2]);
    assert_eq!(next, Some(1));
    // A cursor above every id leaves everything in reach, one below every id nothing.
    let (all, _) = store.get_recent_messages_for_connection(&conn, Some(1000), 10).unwrap();
    assert_eq!(bodies(&all), vec![5, 4, 3, 2, 1]);
    let (none, end) = store.get_recent_messages_for_connection(&conn, Some(0), 10).unwrap();
    assert!(none.is_empty());
    assert_eq!(end, None);
}

#[test]
fn limit_zero_returns_no_message_and_the_newest_as_cursor() {
    let store = memory_store();
    let conn = connection("client-a", "tcp://localhost:1883");
    for n in 1..=3 {
        store.store_message(&conn, &numbered(n)).unwrap();
    }
    let (page, next) = store.get_recent_messages_for_connection(&conn, None, 0).unwrap();
    assert!(page.is_empty());
    assert_eq!(next, Some(3));
    let (again, same) = store.get_recent_messages_for_connection(&conn, next, 0).unwrap();
    assert!(again.is_empty());
    assert_eq!(same, Some(3));
}

#[test]
fn negative_limits() {
    let store = memory_store();
    let conn = connection("client-a", "tcp://localhost:1883");
    for n in 1..=3 {
        store.store_message(&conn, &numbered(n)).unwrap();
    }
    let (page, next) = store.get_recent_messages_for_connection(&conn, None, -1).unwrap();
    assert!(page.is_empty());
    assert_eq!(next, None);
    let (page, next) = store.get_recent_messages_for_connection(&conn, None, -2).unwrap();
    assert_eq!(bodies(&page), vec![3, 2, 1]);
    assert_eq!(next, None);
}

#[test]
fn an_empty_or_unknown_connection_reads_nothing() {
    let store = memory_store();
    let known = connection("client-a", "tcp://localhost:1883");
    store.get_or_insert_connection(&known).unwrap();
    for conn in [known, connection("nobody", "tcp://nowhere")] {
        let (page, next) = store.get_recent_messages_for_connection(&conn, None, 5).unwrap();
        assert!(page.is_empty());
        assert_eq!(next, None);
    }
    // Reading does not create the connection.
    assert_eq!(
        store.get_or_insert_connection(&connection("nobody", "tcp://nowhere")).unwrap(),
        (2, true)
    );
}

#[test]
fn connections_do_not_see_each_others_messages() {
    let store = memory_store();
    let a = connection("client-a", "tcp://localhost:1883");
    let b = connection("client-b", "tcp://localhost:1883");
    store.store_message(&a, &message("shared/topic", &[1])).unwrap();
    store.store_message(&b, &message("shared/topic", &[2])).unwrap();
    store.store_message(&a, &message("shared/topic", &[3])).unwrap();
    store.store_message(&b, &message("shared/topic", &[4])).unwrap();
    store.store_message(&a, &message("shared/topic", &[5])).unwrap();
    let of_a: Vec<u8> = read_all(&store, &a, 2).iter().flat_map(|p| bodies(p)).collect();
    let of_b: Vec<u8> = read_all(&store, &b, 2).iter().flat_map(|p| bodies(p)).collect();
    assert_eq!(of_a, vec![5, 3, 1]);
    assert_eq!(of_b, vec![4, 2]);
    // A cursor taken from one connection does not open the other's rows.
    let (page, next) = store.get_recent_messages_for_connection(&b, Some(5), 10).unwrap();
    assert_eq!(bodies(&page), vec![4, 2]);
    assert_eq!(next, None);
}

#[test]
fn opening_again_keeps_what_is_stored() {
    let (store, _keep) = shared_store("reopen");
    let conn = connection("client-a", "tcp://localhost:1883");
    store.store_message(&conn, &numbered(9)).unwrap();
    let (again, _) = shared_store("reopen");
    let (page, next) = again.get_recent_messages_for_connection(&conn, None, 5).unwrap();
    assert_eq!(bodies(&page), vec![9]);
    assert_eq!(next, None);
    assert_eq!(again.get_or_insert_connection(&conn).unwrap(), (1, false));
}

fn insert_raw_row(raw: &rusqlite::Connection, qos: i64, version: &str, properties: &str) {
    raw.execute(
        "INSERT INTO mqtt_messages (connection_id, timestamp, topic, qos, version, retained, \
         content_type, user_properties, body) VALUES (1, 'now', 't', ?1, ?2, 0, NULL, ?3, x'00')",
        (qos, version, properties),
    )
    .unwrap();
}

#[test]
fn unknown_qos_in_a_row_is_a_conversion_error() {
    let (store, raw) = shared_store("bad_qos");
    let conn = connection("client-a", "tcp://localhost:1883");
    store.get_or_insert_connection(&conn).unwrap();
    insert_raw_row(&raw, 3, "5", "[]");
    match store.get_recent_messages_for_connection(&conn, None, 5) {
        Err(StoreError::Conversion(ConversionError::InvalidQos(3))) => {}
        other => panic!("expected a refused level, got {other:?}"),
    }
}

#[test]
fn negative_qos_in_a_row_is_a_conversion_error() {
    let (store, raw) = shared_store("negative_qos");
    let conn = connection("client-a", "tcp://localhost:1883");
    store.get_or_insert_connection(&conn).unwrap();
    insert_raw_row(&raw, -1, "3.x", "[]");
    match store.get_recent_messages_for_connection(&conn, None, 5) {
        Err(StoreError::Conversion(ConversionError::InvalidQos(-1))) => {}
        other => panic!("expected a refused level, got {other:?}"),
    }
}

#[test]
fn unknown_version_in_a_row_is_a_conversion_error() {
    let (store, raw) = shared_store("bad_version");
    let conn = connection("client-a", "tcp://localhost:1883");
    store.get_or_insert_connection(&conn).unwrap();
    insert_raw_row(&raw, 0, "v5", "[]");
    match store.get_recent_messages_for_connection(&conn, None, 5) {
        Err(StoreError::Conversion(ConversionError::InvalidVersion(tag))) => {
            assert_eq!(tag, "v5")
        }
        other => panic!("expected a refused version, got {other:?}"),
    }
}

#[test]
fn malformed_user_properties_in_a_row_is_a_conversion_error() {
    let (store, raw) = shared_store("bad_json");
    let conn = connection("client-a", "tcp://localhost:1883");
    store.get_or_insert_connection(&conn).unwrap();
    insert_raw_row(&raw, 0, "5", "{\"a\":1}");
    match store.get_recent_messages_for_connection(&conn, None, 5) {
        Err(StoreError::Conversion(e @ ConversionError::InvalidUserProperties(_))) => {
            assert_eq!(e.column(), 7)
        }
        other => panic!("expected refused user properties, got {other:?}"),
    }
}

#[test]
fn a_bad_row_beyond_the_fetched_ones_does_no_harm() {
    let (store, raw) = shared_store("old_bad_row");
    let conn = connection("client-a", "tcp://localhost:1883");
    store.get_or_insert_connection(&conn).unwrap();
    insert_raw_row(&raw, 9, "5", "[]");
    store.store_message(&conn, &numbered(2)).unwrap();
    store.store_message(&conn, &numbered(3)).unwrap();
    // Rows 3 and 2 are fetched for a limit of 1; row 1 is not.
    let (page, next) = store.get_recent_messages_for_connection(&conn, None, 1).unwrap();
    assert_eq!(bodies(&page), vec![3]);
    assert_eq!(next, Some(2));
    // The next read fetches rows 2 and 1.
    assert!(matches!(
        store.get_recent_messages_for_connection(&conn, next, 1),
        Err(StoreError::Conversion(ConversionError::InvalidQos(9)))
    ));
}

#[test]
fn a_column_of_the_wrong_type_is_an_engine_error() {
    let (store, raw) = shared_store("wrong_type");
    let conn = connection("client-a", "tcp://localhost:1883");
    store.get_or_insert_connection(&conn).unwrap();
    raw.execute(
        "INSERT INTO mqtt_messages (connection_id, timestamp, topic, qos, version, retained, \
         content_type, user_properties, body) VALUES (1, 'now', 't', 'high', '5', 0, NULL, '[]', x'')",
        (),
    )
    .unwrap();
    assert!(matches!(
        store.get_recent_messages_for_connection(&conn, None, 5),
        Err(StoreError::Sqlite(_))
    ));
}

#[test]
fn a_database_that_cannot_be_opened_is_an_engine_error() {
    let missing = PathBuf::from("/nonexistent-directory-for-this-test/messages.db");
    assert!(matches!(MQTTyLocalStore::open(&missing), Err(StoreError::Sqlite(_))));
}

#[test]
fn the_database_file_is_named_messages_db() {
    match MQTTyLocalStore::get_db_path() {
        Ok(path) => {
            assert_eq!(path.file_name().and_then(|n| n.to_str()), Some("messages.db"));
            assert!(path.parent().is_some_and(|dir| dir.ends_with("mqtty")));
        }
        Err(e) => assert!(matches!(e, StoreError::NoProjectDir)),
    }
}

#[test]
fn the_engine_s_answer_is_handed_on() {
    assert_eq!(engine_result(Ok(7)).unwrap(), 7);
    assert_eq!(engine_result(Ok(Some("row".to_string()))).unwrap(), Some("row".to_string()));
    match engine_result::<i64>(Err(rusqlite::Error::QueryReturnedNoRows)) {
        Err(StoreError::Sqlite(rusqlite::Error::QueryReturnedNoRows)) => {}
        other => panic!("expected the engine's error, got {other:?}"),
    }
    match engine_result::<()>(Err(rusqlite::Error::InvalidColumnIndex(4))) {
        Err(StoreError::Sqlite(rusqlite::Error::InvalidColumnIndex(4))) => {}
        other => panic!("expected the engine's error, got {other:?}"),
    }
}

#[test]
fn a_missing_data_directory_is_an_error_of_its_own() {
    assert!(matches!(data_dir_or_error(None), Err(StoreError::NoProjectDir)));
    let dir = PathBuf::from("/home/alice/.local/share/mqtty");
    assert_eq!(data_dir_or_error(Some(dir.clone())).unwrap(), dir);
}

#[test]
fn the_resolver_s_answers() {
    assert_eq!(resolve_found(Some(12)), Some((12, false)));
    assert_eq!(resolve_found(Some(-1)), Some((-1, false)));
    assert_eq!(resolve_found(None), None);
    assert_eq!(resolve_inserted(12), (12, true));
    assert_eq!(resolve_inserted(i64::MAX), (i64::MAX, true));
}

#[test]
fn user_properties_survive_the_store() {
    let lists: Vec<Vec<(&str, &str)>> = vec![
        vec![],
        vec![("key", "value")],
        vec![("b", "2"), ("a", "1"), ("b", "2"), ("b", "3"), ("", "")],
        vec![("quote\"back\\slash", "line\nbreak\ttab\r"), ("\u{0}\u{1f}\u{7f}", "/")],
        vec![("ключ", "値"), ("emoji", "\u{1F600}"), ("\u{2028}", "\u{FFFF}")],
        vec![("[[\"a\",\"b\"]]", "{\"nested\":true}"), ("'", "\\u0041")],
    ];
    let store = memory_store();
    let conn = connection("client-a", "tcp://localhost:1883");
    for list in lists {
        let properties: Vec<(String, String)> =
            list.iter().map(|(k, v)| (k.to_string(), v.to_string())).collect();
        let mut m = message("t", b"x");
        m.set_user_properties(&properties);
        store.store_message(&conn, &m).unwrap();
        let (page, _) = store.get_recent_messages_for_connection(&conn, None, 1).unwrap();
        assert_eq!(page.len(), 1);
        assert_eq!(page[0].user_properties(), properties);
    }
}

#[test]
fn storing_fails_only_with_the_engine() {
    let (store, raw) = shared_store("no_table");
    let conn = connection("client-a", "tcp://localhost:1883");
    store.get_or_insert_connection(&conn).unwrap();
    raw.execute_batch("DROP TABLE mqtt_messages").unwrap();
    assert!(matches!(store.store_message(&conn, &numbered(1)), Err(StoreError::Sqlite(_))));
}
