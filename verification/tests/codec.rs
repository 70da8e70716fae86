use mqtty::client::{MQTTyClientMessage, MQTTyClientQos, MQTTyClientVersion};
use mqtty::persistence::codec::{
    decode_columns, decode_row, decode_rows, encode_message, parse_user_properties,
    qos_from_level, qos_to_level, serialize_user_properties, version_from_tag, version_to_tag,
    MessageColumns, MessageRow, StoredMessage,
};
use mqtty::persistence::error::{ConversionError, StoreError};

fn pairs(list: &[(&str, &str)]) -> Vec<(String, String)> {
    list.iter().map(|(k, v)| (k.to_string(), v.to_string())).collect()
}

fn columns(qos: i64, version: &str, properties: Option<&str>) -> MessageColumns {
    MessageColumns {
        timestamp: "2025-01-02T03:04:05+00:00".to_string(),
        topic: "a/b".to_string(),
        qos,
        version: version.to_string(),
        retained: true,
        content_type: Some("text/plain".to_string()),
        user_properties: properties.map(|p| p.to_string()),
        body: vec![1, 2, 3],
    }
}

#[test]
fn levels_are_zero_one_two() {
    assert_eq!(qos_to_level(MQTTyClientQos::Qos0), 0);
    assert_eq!(qos_to_level(MQTTyClientQos::Qos1), 1);
    assert_eq!(qos_to_level(MQTTyClientQos::Qos2), 2);
    assert_eq!(qos_from_level(0).unwrap(), MQTTyClientQos::Qos0);
    assert_eq!(qos_from_level(1).unwrap(), MQTTyClientQos::Qos1);
    assert_eq!(qos_from_level(2).unwrap(), MQTTyClientQos::Qos2);
}

#[test]
fn other_levels_are_refused() {
    for level in [-1, 3, 4, i64::MIN, i64::MAX] {
        match qos_from_level(level) {
            Err(ConversionError::InvalidQos(n)) => assert_eq!(n, level),
            other => panic!("level {level} gave {other:?}"),
        }
    }
    assert_eq!(qos_from_level(7).unwrap_err().column(), 3);
}

#[test]
fn tags_are_three_x_and_five() {
    assert_eq!(version_to_tag(MQTTyClientVersion::V3X), "3.x");
    assert_eq!(version_to_tag(MQTTyClientVersion::V5), "5");
    assert_eq!(version_from_tag("3.x".to_string()).unwrap(), MQTTyClientVersion::V3X);
    assert_eq!(version_from_tag("5".to_string()).unwrap(), MQTTyClientVersion::V5);
}

#[test]
fn other_tags_are_refused() {
    for tag in ["", "3", "v3", "v5", "3.X", "5 ", "3.x5", "5.0"] {
        match version_from_tag(tag.to_string()) {
            Err(ConversionError::InvalidVersion(t)) => assert_eq!(t, tag),
            other => panic!("tag {tag:?} gave {other:?}"),
        }
    }
    assert_eq!(version_from_tag("4".to_string()).unwrap_err().column(), 4);
}

#[test]
fn user_properties_are_written_as_an_array_of_pairs() {
    assert_eq!(serialize_user_properties(&pairs(&[])).unwrap(), "[]");
    assert_eq!(serialize_user_properties(&pairs(&[("a", "b")])).unwrap(), "[[\"a\",\"b\"]]");
    assert_eq!(
        serialize_user_properties(&pairs(&[("a", "b"), ("a", ""), ("q\"", "\n")])).unwrap(),
        "[[\"a\",\"b\"],[\"a\",\"\"],[\"q\\\"\",\"\\n\"]]"
    );
}

#[test]
fn user_properties_are_read_from_an_array_of_pairs() {
    assert_eq!(parse_user_properties(&None).unwrap(), pairs(&[]));
    assert_eq!(parse_user_properties(&Some("[]".to_string())).unwrap(), pairs(&[]));
    assert_eq!(
        parse_user_properties(&Some(" [ [\"k\", \"v\"], [\"\\u0041\", \"\"] ] ".to_string()))
            .unwrap(),
        pairs(&[("k", "v"), ("A", "")])
    );
}

#[test]
fn other_texts_are_refused_as_user_properties() {
    for text in ["", "[", "{}", "[[\"a\"]]", "[[\"a\",\"b\",\"c\"]]", "[[\"a\",1]]", "null", "[] x"]
    {
        match parse_user_properties(&Some(text.to_string())) {
            Err(e @ ConversionError::InvalidUserProperties(_)) => assert_eq!(e.column(), 7),
            other => panic!("text {text:?} gave {other:?}"),
        }
    }
}

#[test]
fn user_properties_survive_writing_and_reading() {
    let lists = [
        pairs(&[]),
        pairs(&[("key", "value")]),
        pairs(&[("b", "2"), ("a", "1"), ("b", "2"), ("", "")]),
        pairs(&[("quote\"back\\slash", "line\nbreak\ttab\r"), ("\u{0}\u{1f}\u{7f}", "/")]),
        pairs(&[("ключ", "値"), ("emoji", "\u{1F600}"), ("\u{2028}", "\u{FFFF}")]),
        pairs(&[("[[\"a\",\"b\"]]", "{\"nested\":true}")]),
    ];
    for list in lists {
        let text = serialize_user_properties(&list).unwrap();
        assert_eq!(parse_user_properties(&Some(text)).unwrap(), list);
    }
}

#[test]
fn a_message_is_laid_out_in_columns() {
    let mut m = MQTTyClientMessage::new();
    m.set_timestamp("2025-01-02T03:04:05+00:00".to_string());
    m.set_topic("a/b".to_string());
    m.set_qos(MQTTyClientQos::Qos2);
    m.set_mqtt_version(MQTTyClientVersion::V5);
    m.set_retained(true);
    m.set_content_type(Some("text/plain".to_string()));
    m.set_user_properties(&pairs(&[("k", "v")]));
    m.set_body(&[1, 2, 3]);
    let expected = columns(2, "5", Some("[[\"k\",\"v\"]]"));
    assert_eq!(encode_message(&m).unwrap(), expected);
    assert_eq!(decode_columns(expected).unwrap(), m);
}

#[test]
fn the_default_message_is_laid_out_in_columns() {
    let expected = MessageColumns {
        timestamp: String::new(),
        topic: String::new(),
        qos: 0,
        version: "3.x".to_string(),
        retained: false,
        content_type: None,
        user_properties: Some("[]".to_string()),
        body: vec![],
    };
    assert_eq!(encode_message(&MQTTyClientMessage::new()).unwrap(), expected);
    assert_eq!(decode_columns(expected).unwrap(), MQTTyClientMessage::new());
}

#[test]
fn missing_user_properties_read_as_none() {
    let m = decode_columns(columns(0, "3.x", None)).unwrap();
    assert!(m.user_properties().is_empty());
    assert_eq!(m.qos(), MQTTyClientQos::Qos0);
    assert_eq!(m.mqtt_version(), MQTTyClientVersion::V3X);
    assert!(m.retained());
    assert_eq!(m.topic(), "a/b");
    assert_eq!(m.body(), vec![1, 2, 3]);
}

#[test]
fn the_first_bad_column_is_reported() {
    assert!(matches!(
        decode_columns(columns(5, "nine", Some("{"))),
        Err(ConversionError::InvalidQos(5))
    ));
    assert!(matches!(
        decode_columns(columns(1, "nine", Some("{"))),
        Err(ConversionError::InvalidVersion(_))
    ));
    assert!(matches!(
        decode_columns(columns(1, "5", Some("{"))),
        Err(ConversionError::InvalidUserProperties(_))
    ));
}

#[test]
fn a_row_keeps_its_id() {
    let row = MessageRow { id: 42, columns: columns(1, "5", Some("[]")) };
    let stored = decode_row(row).unwrap();
    assert_eq!(stored.id, 42);
    assert_eq!(stored.message.qos(), MQTTyClientQos::Qos1);
    assert_eq!(stored.message.mqtt_version(), MQTTyClientVersion::V5);
}

#[test]
fn rows_are_read_in_order_up_to_the_first_bad_one() {
    let good = |id: i64| MessageRow { id, columns: columns(0, "5", Some("[]")) };
    let stored: Vec<StoredMessage> = decode_rows(vec![good(3), good(2), good(1)]).unwrap();
    assert_eq!(stored.iter().map(|s| s.id).collect::<Vec<_>>(), vec![3, 2, 1]);
    assert!(decode_rows(vec![]).unwrap().is_empty());
    let rows = vec![
        good(4),
        MessageRow { id: 3, columns: columns(0, "bad", Some("[]")) },
        MessageRow { id: 2, columns: columns(8, "5", Some("[]")) },
        good(1),
    ];
    assert!(matches!(decode_rows(rows), Err(ConversionError::InvalidVersion(_))));
}

#[test]
fn writing_never_fails_on_string_pairs() {
    let list = pairs(&[("\u{10FFFF}", "\u{0}")]);
    assert!(!matches!(serialize_user_properties(&list), Err(StoreError::SerdeJson(_))));
}
