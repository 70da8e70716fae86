use mqtty::client::{MQTTyClientQos, MQTTyClientVersion};
use mqtty::utils::{
    date_time_language, get_accent_color_as_hex, locale_posix_to_bcp47, mqtt_version_from_state,
    mqtt_version_to_state, qos_from_state, qos_to_state, AccentColor,
};

#[test]
fn version_states() {
    assert_eq!(mqtt_version_to_state(MQTTyClientVersion::V3X), "v3");
    assert_eq!(mqtt_version_to_state(MQTTyClientVersion::V5), "v5");
    assert_eq!(mqtt_version_from_state("v3"), Some(MQTTyClientVersion::V3X));
    assert_eq!(mqtt_version_from_state("v5"), Some(MQTTyClientVersion::V5));
    for other in ["", "3.x", "5", "V3", "v4", "v3 "] {
        assert_eq!(mqtt_version_from_state(other), None);
    }
}

#[test]
fn qos_states() {
    assert_eq!(qos_to_state(MQTTyClientQos::Qos0), "qos_0");
    assert_eq!(qos_to_state(MQTTyClientQos::Qos1), "qos_1");
    assert_eq!(qos_to_state(MQTTyClientQos::Qos2), "qos_2");
    assert_eq!(qos_from_state("qos_0"), Some(MQTTyClientQos::Qos0));
    assert_eq!(qos_from_state("qos_1"), Some(MQTTyClientQos::Qos1));
    assert_eq!(qos_from_state("qos_2"), Some(MQTTyClientQos::Qos2));
    for other in ["", "0", "qos_3", "QOS_0", "qos0"] {
        assert_eq!(qos_from_state(other), None);
    }
}

#[test]
fn accent_colours() {
    let expected = [
        (AccentColor::Blue, "#3584e4"),
        (AccentColor::Teal, "#2190a4"),
        (AccentColor::Green, "#3a944a"),
        (AccentColor::Yellow, "#c88800"),
        (AccentColor::Orange, "#ed5b00"),
        (AccentColor::Red, "#e62d42"),
        (AccentColor::Pink, "#d56199"),
        (AccentColor::Purple, "#9141ac"),
        (AccentColor::Slate, "#6f8396"),
    ];
    for (color, hex) in expected {
        assert_eq!(get_accent_color_as_hex(true, color), hex);
        assert_eq!(get_accent_color_as_hex(false, color), "#9141ac");
    }
}

#[test]
fn posix_locales_become_language_tags() {
    let expected = [
        ("en_US.UTF-8", "en-US"),
        ("en_US", "en-US"),
        ("en", "en"),
        ("C", "C"),
        ("de_DE@euro", "de-DE"),
        ("sr_RS.UTF-8@latin", "sr-RS"),
        ("ca@valencia", "ca"),
        ("es.ISO-8859-1", "es"),
        ("zh_Hant_TW", "zh-Hant"),
        ("pt_BR.utf8@x.y_z", "pt-BR"),
        ("fr@a.b", "fr"),
        ("", ""),
        ("_", "-"),
        ("nb_", "nb-"),
        ("_NO", "-NO"),
        (".UTF-8", ""),
        ("日本_語.x", "日本-語"),
    ];
    for (posix, tag) in expected {
        assert_eq!(locale_posix_to_bcp47(posix), Some(tag.to_string()), "for {posix:?}");
    }
}

#[test]
fn dates_are_formatted_in_english_without_a_catalogue() {
    assert_eq!(date_time_language("", Some("es_VE.UTF-8")), Some("en".to_string()));
    assert_eq!(date_time_language("", None), Some("en".to_string()));
}

#[test]
fn dates_are_formatted_in_the_language_of_the_locale() {
    let header = "Project-Id-Version: MQTTy\n";
    assert_eq!(date_time_language(header, Some("es_VE.UTF-8")), Some("es-VE".to_string()));
    assert_eq!(date_time_language(header, None), None);
}
