//! Names and texts that the user interface and the client agree on.

use vstd::prelude::*;
use vstd::string::*;

use crate::client::{MQTTyClientQos, MQTTyClientVersion};

verus! {

/// The state of the `mqtt-version` action that stands for a version.
pub open spec fn version_state(version: MQTTyClientVersion) -> Seq<char> {
    match version {
        MQTTyClientVersion::V3X => "v3"@,
        MQTTyClientVersion::V5 => "v5"@,
    }
}

/// The state of the `qos` action that stands for a level.
pub open spec fn qos_state(qos: MQTTyClientQos) -> Seq<char> {
    match qos {
        MQTTyClientQos::Qos0 => "qos_0"@,
        MQTTyClientQos::Qos1 => "qos_1"@,
        MQTTyClientQos::Qos2 => "qos_2"@,
    }
}

/// The state of the `mqtt-version` action for `version`.
pub fn mqtt_version_to_state(version: MQTTyClientVersion) -> (state: &'static str)
    ensures
        state@ == version_state(version),
{
    match version {
        MQTTyClientVersion::V3X => "v3",
        MQTTyClientVersion::V5 => "v5",
    }
}

/// The version that a state of the `mqtt-version` action stands for; `None`
/// for a state that stands for none.
pub fn mqtt_version_from_state(state: &str) -> (version: Option<MQTTyClientVersion>)
    ensures
        match version {
            Some(v) => state@ == version_state(v),
            None => forall|v: MQTTyClientVersion| state@ != version_state(v),
        },
{
    proof {
        reveal_strlit("v3");
        reveal_strlit("v5");
    }
    let given = String::from_str(state);
    if given == String::from_str("v3") {
        Some(MQTTyClientVersion::V3X)
    } else if given == String::from_str("v5") {
        Some(MQTTyClientVersion::V5)
    } else {
        None
    }
}

/// The state of the `qos` action for `qos`.
pub fn qos_to_state(qos: MQTTyClientQos) -> (state: &'static str)
    ensures
        state@ == qos_state(qos),
{
    match qos {
        MQTTyClientQos::Qos0 => "qos_0",
        MQTTyClientQos::Qos1 => "qos_1",
        MQTTyClientQos::Qos2 => "qos_2",
    }
}

/// The level that a state of the `qos` action stands for; `None` for a
/// state that stands for none.
pub fn qos_from_state(state: &str) -> (qos: Option<MQTTyClientQos>)
    ensures
        match qos {
            Some(q) => state@ == qos_state(q),
            None => forall|q: MQTTyClientQos| state@ != qos_state(q),
        },
{
    let given = String::from_str(state);
    if given == String::from_str("qos_0") {
        Some(MQTTyClientQos::Qos0)
    } else if given == String::from_str("qos_1") {
        Some(MQTTyClientQos::Qos1)
    } else if given == String::from_str("qos_2") {
        Some(MQTTyClientQos::Qos2)
    } else {
        None
    }
}

/// Each version and each level has a state of its own.
pub proof fn lemma_states_are_distinct()
    ensures
        version_state(MQTTyClientVersion::V3X) != version_state(MQTTyClientVersion::V5),
        qos_state(MQTTyClientQos::Qos0) != qos_state(MQTTyClientQos::Qos1),
        qos_state(MQTTyClientQos::Qos0) != qos_state(MQTTyClientQos::Qos2),
        qos_state(MQTTyClientQos::Qos1) != qos_state(MQTTyClientQos::Qos2),
{
    reveal_strlit("v3");
    reveal_strlit("v5");
    reveal_strlit("qos_0");
    reveal_strlit("qos_1");
    reveal_strlit("qos_2");
    assert("v3"@[1] != "v5"@[1]);
    assert("qos_0"@[4] != "qos_1"@[4]);
    assert("qos_0"@[4] != "qos_2"@[4]);
    assert("qos_1"@[4] != "qos_2"@[4]);
}

/// The accent colours that a desktop can ask applications to use.
#[derive(Clone, Copy, Debug, PartialEq, Eq, Structural)]
pub enum AccentColor {
    Blue,
    Teal,
    Green,
    Yellow,
    Orange,
    Red,
    Pink,
    Purple,
    Slate,
}

/// The colour of an accent as `#rrggbb`.
pub open spec fn accent_hex(color: AccentColor) -> Seq<char> {
    match color {
        AccentColor::Blue => "#3584e4"@,
        AccentColor::Teal => "#2190a4"@,
        AccentColor::Green => "#3a944a"@,
        AccentColor::Yellow => "#c88800"@,
        AccentColor::Orange => "#ed5b00"@,
        AccentColor::Red => "#e62d42"@,
        AccentColor::Pink => "#d56199"@,
        AccentColor::Purple => "#9141ac"@,
        AccentColor::Slate => "#6f8396"@,
    }
}

/// The accent to draw with: the system's where it supports accents, else
/// purple.
pub open spec fn accent_in_use(system_supports_accents: bool, system_accent: AccentColor)
    -> AccentColor {
    if system_supports_accents {
        system_accent
    } else {
        AccentColor::Purple
    }
}

/// The accent colour to draw with, as `#rrggbb`: the system's accent where
/// the system supports accents, else purple.
pub fn get_accent_color_as_hex(system_supports_accents: bool, system_accent: AccentColor) -> (hex:
    &'static str)
    ensures
        hex@ == accent_hex(accent_in_use(system_supports_accents, system_accent)),
{
    let color = if system_supports_accents {
        system_accent
    } else {
        AccentColor::Purple
    };
    match color {
        AccentColor::Blue => "#3584e4",
        AccentColor::Teal => "#2190a4",
        AccentColor::Green => "#3a944a",
        AccentColor::Yellow => "#c88800",
        AccentColor::Orange => "#ed5b00",
        AccentColor::Red => "#e62d42",
        AccentColor::Pink => "#d56199",
        AccentColor::Purple => "#9141ac",
        AccentColor::Slate => "#6f8396",
    }
}

/// The number of characters before the first `stop` in `text`, or the
/// length of `text` where `stop` does not occur.
pub open spec fn position_of(text: Seq<char>, stop: char) -> int
    decreases text.len(),
{
    if text.len() == 0 || text[0] == stop {
        0
    } else {
        1 + position_of(text.skip(1), stop)
    }
}

/// The part of `text` before the first `stop`, or all of it.
pub open spec fn before(text: Seq<char>, stop: char) -> Seq<char> {
    text.take(position_of(text, stop))
}

/// The part of `text` after the first `stop`, if `stop` occurs.
pub open spec fn after(text: Seq<char>, stop: char) -> Option<Seq<char>> {
    if position_of(text, stop) < text.len() {
        Some(text.skip(position_of(text, stop) + 1))
    } else {
        None
    }
}

/// A position is the position of the first `stop` exactly if no `stop`
/// comes before it and either one stands there or the text ends there.
pub proof fn lemma_position_of(text: Seq<char>, stop: char, at: int)
    requires
        0 <= at <= text.len(),
        forall|i: int| 0 <= i < at ==> text[i] != stop,
        at < text.len() ==> text[at] == stop,
    ensures
        position_of(text, stop) == at,
    decreases at,
{
    if at > 0 {
        let rest = text.skip(1);
        assert forall|i: int| 0 <= i < at - 1 implies rest[i] != stop by {}
        lemma_position_of(rest, stop, at - 1);
    }
}

/// The BCP 47 tag of a POSIX locale name `language[_REGION][.codeset][@modifier]`:
/// codeset and modifier are dropped, and the region joined to the
/// language by a hyphen.
pub open spec fn bcp47_of_posix(posix: Seq<char>) -> Seq<char> {
    let main_part = before(before(posix, '.'), '@');
    let language = before(main_part, '_');
    match after(main_part, '_') {
        Some(rest) => language + seq!['-'] + before(rest, '_'),
        None => language,
    }
}

/// Counts the characters of `text` from `from` up to the first `stop`.
fn find_from(text: &str, from: usize, stop: char) -> (at: usize)
    requires
        from <= text@.len(),
    ensures
        from <= at <= text@.len(),
        at - from == position_of(text@.skip(from as int), stop),
{
    let length = text.unicode_len();
    let mut at = from;
    while at < length && text.get_char(at) != stop
        invariant
            length == text@.len(),
            from <= at <= length,
            forall|i: int| from <= i < at ==> text@[i] != stop,
        decreases length - at,
    {
        at += 1;
    }
    proof {
        let rest = text@.skip(from as int);
        assert forall|i: int| 0 <= i < at - from implies rest[i] != stop by {}
        lemma_position_of(rest, stop, at - from);
    }
    at
}

/// Turns a POSIX locale name into a BCP 47 language tag.
pub fn locale_posix_to_bcp47(posix: &str) -> (tag: Option<String>)
    ensures
        tag matches Some(t) && t@ == bcp47_of_posix(posix@),
{
    let ghost whole = posix@;
    assert(whole.skip(0) =~= whole);
    let dot = find_from(posix, 0, '.');
    let without_codeset = posix.substring_char(0, dot);
    assert(without_codeset@.skip(0) =~= without_codeset@);
    let at_sign = find_from(without_codeset, 0, '@');
    let main_part = without_codeset.substring_char(0, at_sign);
    assert(main_part@.skip(0) =~= main_part@);
    let underscore = find_from(main_part, 0, '_');
    let language = main_part.substring_char(0, underscore);
    let length = main_part.unicode_len();
    if underscore < length {
        let end = find_from(main_part, underscore + 1, '_');
        let region = main_part.substring_char(underscore + 1, end);
        let mut tag = String::from_str(language);
        tag.append("-");
        tag.append(region);
        proof {
            reveal_strlit("-");
        }
        Some(tag)
    } else {
        Some(String::from_str(language))
    }
}

/// The language to format dates in: English where no message catalogue is
/// loaded, which an empty catalogue header tells, and else the language of
/// the current locale. `None` where a catalogue is loaded and the current
/// locale is unknown.
pub open spec fn language_of(header: Seq<char>, current_locale: Option<Seq<char>>) -> Option<
    Seq<char>,
> {
    if header.len() == 0 {
        Some(bcp47_of_posix("en"@))
    } else {
        match current_locale {
            Some(locale) => Some(bcp47_of_posix(locale)),
            None => None,
        }
    }
}

/// The BCP 47 tag of the language to format dates in.
pub fn date_time_language(header: &str, current_locale: Option<&str>) -> (tag: Option<String>)
    ensures
        match tag {
            Some(t) => language_of(
                header@,
                match current_locale {
                    Some(l) => Some(l@),
                    None => None,
                },
            ) == Some(t@),
            None => header@.len() > 0 && current_locale is None,
        },
{
    if header.unicode_len() == 0 {
        locale_posix_to_bcp47("en")
    } else {
        match current_locale {
            Some(locale) => locale_posix_to_bcp47(locale),
            None => None,
        }
    }
}

} // verus!
