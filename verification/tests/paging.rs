use mqtty::client::MQTTyClientMessage;
use mqtty::persistence::codec::{MessageColumns, MessageRow, StoredMessage};
use mqtty::persistence::error::ConversionError;
use mqtty::persistence::paging::{fetch_size, read_page, split_page};

fn stored(id: i64) -> StoredMessage {
    let mut message = MQTTyClientMessage::new();
    message.set_topic(format!("topic/{id}"));
    StoredMessage { id, message }
}

fn newest_first(ids: &[i64]) -> Vec<StoredMessage> {
    ids.iter().map(|id| stored(*id)).collect()
}

fn topics(page: &[MQTTyClientMessage]) -> Vec<String> {
    page.iter().map(|m| m.topic()).collect()
}

fn row(id: i64, qos: i64) -> MessageRow {
    MessageRow {
        id,
        columns: MessageColumns {
            timestamp: String::new(),
            topic: format!("topic/{id}"),
            qos,
            version: "5".to_string(),
            retained: false,
            content_type: None,
            user_properties: Some("[]".to_string()),
            body: vec![],
        },
    }
}

#[test]
fn one_more_row_is_asked_for() {
    assert_eq!(fetch_size(0), 1);
    assert_eq!(fetch_size(5), 6);
    assert_eq!(fetch_size(-1), 0);
    assert_eq!(fetch_size(i64::MAX - 1), i64::MAX);
    assert_eq!(fetch_size(i64::MIN), i64::MIN + 1);
}

#[test]
fn fewer_rows_than_the_limit_end_the_paging() {
    let (page, next) = split_page(newest_first(&[9, 7]), 3);
    assert_eq!(topics(&page), vec!["topic/9", "topic/7"]);
    assert_eq!(next, None);
}

#[test]
fn exactly_limit_rows_end_the_paging() {
    let (page, next) = split_page(newest_first(&[9, 7, 4]), 3);
    assert_eq!(topics(&page), vec!["topic/9", "topic/7", "topic/4"]);
    assert_eq!(next, None);
}

#[test]
fn the_extra_row_becomes_the_cursor() {
    let (page, next) = split_page(newest_first(&[9, 7, 4, 2]), 3);
    assert_eq!(topics(&page), vec!["topic/9", "topic/7", "topic/4"]);
    assert_eq!(next, Some(2));
}

#[test]
fn no_row_gives_an_empty_last_page() {
    for limit in [-3, -1, 0, 1, 10] {
        let (page, next) = split_page(vec![], limit);
        assert!(page.is_empty());
        assert_eq!(next, None);
    }
}

#[test]
fn limit_zero_keeps_nothing_and_points_at_the_first_row() {
    let (page, next) = split_page(newest_first(&[5]), 0);
    assert!(page.is_empty());
    assert_eq!(next, Some(5));
}

#[test]
fn a_negative_limit_keeps_every_row() {
    let (page, next) = split_page(newest_first(&[5, 3, 1]), -2);
    assert_eq!(topics(&page), vec!["topic/5", "topic/3", "topic/1"]);
    assert_eq!(next, None);
    let (page, next) = split_page(newest_first(&[5, 3, 1]), i64::MIN);
    assert_eq!(page.len(), 3);
    assert_eq!(next, None);
}

#[test]
fn never_more_messages_than_the_limit() {
    let (page, next) = split_page(newest_first(&[9, 8, 7, 6, 5]), 2);
    assert_eq!(topics(&page), vec!["topic/9", "topic/8"]);
    assert_eq!(next, Some(7));
}

#[test]
fn a_huge_limit_keeps_every_row() {
    let (page, next) = split_page(newest_first(&[2, 1]), i64::MAX);
    assert_eq!(page.len(), 2);
    assert_eq!(next, None);
}

#[test]
fn rows_become_a_page() {
    let (page, next) = read_page(vec![row(8, 0), row(6, 1), row(5, 2)], 2).unwrap();
    assert_eq!(topics(&page), vec!["topic/8", "topic/6"]);
    assert_eq!(next, Some(5));
}

#[test]
fn a_bad_row_fails_the_page_even_where_it_would_be_cut_off() {
    match read_page(vec![row(8, 0), row(6, 1), row(5, 12)], 2) {
        Err(ConversionError::InvalidQos(12)) => {}
        other => panic!("expected a refused level, got {other:?}"),
    }
}
