//! How a message is laid out in the columns of a `mqtt_messages` row, and how
//! it is read back from them.

use vstd::prelude::*;
use vstd::string::*;

use crate::client::{
    text_of, MQTTyClientMessage, MQTTyClientQos, MQTTyClientVersion, MessageView,
};
use crate::persistence::error::{ConversionError, ConversionFault, StoreError};

verus! {

/// The integer stored for a quality-of-service level.
pub open spec fn qos_level(qos: MQTTyClientQos) -> int {
    match qos {
        MQTTyClientQos::Qos0 => 0,
        MQTTyClientQos::Qos1 => 1,
        MQTTyClientQos::Qos2 => 2,
    }
}

/// The level that a stored integer stands for, if any.
pub open spec fn qos_of_level(level: int) -> Option<MQTTyClientQos> {
    if level == 0 {
        Some(MQTTyClientQos::Qos0)
    } else if level == 1 {
        Some(MQTTyClientQos::Qos1)
    } else if level == 2 {
        Some(MQTTyClientQos::Qos2)
    } else {
        None
    }
}

/// The text stored for a protocol version.
pub open spec fn version_tag(version: MQTTyClientVersion) -> Seq<char> {
    match version {
        MQTTyClientVersion::V3X => seq!['3', '.', 'x'],
        MQTTyClientVersion::V5 => seq!['5'],
    }
}

/// The version that a stored text stands for, if any.
pub open spec fn version_of_tag(tag: Seq<char>) -> Option<MQTTyClientVersion> {
    if tag == version_tag(MQTTyClientVersion::V3X) {
        Some(MQTTyClientVersion::V3X)
    } else if tag == version_tag(MQTTyClientVersion::V5) {
        Some(MQTTyClientVersion::V5)
    } else {
        None
    }
}

/// Every level is read back from the integer stored for it, and an integer
/// stands for a level only if it is the one stored for that level.
pub proof fn lemma_qos_levels_correspond(qos: MQTTyClientQos, level: int)
    ensures
        qos_of_level(qos_level(qos)) == Some(qos),
        qos_of_level(level) == Some(qos) <==> level == qos_level(qos),
        qos_of_level(level) is Some <==> 0 <= level <= 2,
{
}

/// Every version is read back from the text stored for it, and a text stands
/// for a version only if it is the one stored for that version.
pub proof fn lemma_version_tags_correspond(version: MQTTyClientVersion, tag: Seq<char>)
    ensures
        version_of_tag(version_tag(version)) == Some(version),
        version_of_tag(tag) == Some(version) <==> tag == version_tag(version),
{
}

/// The integer stored for `qos`.
pub fn qos_to_level(qos: MQTTyClientQos) -> (level: i64)
    ensures
        level == qos_level(qos),
{
    match qos {
        MQTTyClientQos::Qos0 => 0,
        MQTTyClientQos::Qos1 => 1,
        MQTTyClientQos::Qos2 => 2,
    }
}

/// Reads a stored level back; anything but 0, 1 and 2 is refused.
pub fn qos_from_level(level: i64) -> (r: Result<MQTTyClientQos, ConversionError>)
    ensures
        match r {
            Ok(qos) => qos_of_level(level as int) == Some(qos),
            Err(e) => qos_of_level(level as int) is None && e@ == ConversionFault::InvalidQos(
                level,
            ),
        },
{
    if level == 0 {
        Ok(MQTTyClientQos::Qos0)
    } else if level == 1 {
        Ok(MQTTyClientQos::Qos1)
    } else if level == 2 {
        Ok(MQTTyClientQos::Qos2)
    } else {
        Err(ConversionError::InvalidQos(level))
    }
}

/// The text stored for `version`.
pub fn version_to_tag(version: MQTTyClientVersion) -> (tag: String)
    ensures
        tag@ == version_tag(version),
{
    proof {
        reveal_strlit("3.x");
        reveal_strlit("5");
    }
    match version {
        MQTTyClientVersion::V3X => String::from_str("3.x"),
        MQTTyClientVersion::V5 => String::from_str("5"),
    }
}

/// Reads a stored version back; anything but `3.x` and `5` is refused.
pub fn version_from_tag(tag: String) -> (r: Result<MQTTyClientVersion, ConversionError>)
    ensures
        match r {
            Ok(version) => version_of_tag(tag@) == Some(version),
            Err(e) => version_of_tag(tag@) is None && e@ == ConversionFault::InvalidVersion(
                tag@,
            ),
        },
{
    let three = version_to_tag(MQTTyClientVersion::V3X);
    let five = version_to_tag(MQTTyClientVersion::V5);
    if tag == three {
        Ok(MQTTyClientVersion::V3X)
    } else if tag == five {
        Ok(MQTTyClientVersion::V5)
    } else {
        Err(ConversionError::InvalidVersion(tag))
    }
}

/// What `serde_json::to_string` writes for a list of string pairs.
pub uninterp spec fn json_text_of_pairs(pairs: Seq<(Seq<char>, Seq<char>)>) -> Seq<char>;

/// What `serde_json::from_str` reads out of a text as a list of string pairs,
/// or `None` where it refuses the text.
pub uninterp spec fn pairs_of_json_text(text: Seq<char>) -> Option<Seq<(Seq<char>, Seq<char>)>>;

/// Calls `serde_json::to_string` on the pairs. The text that comes back is
/// taken to depend on the pairs alone. The call is taken to succeed: writing
/// a list, a pair or a string fails only where the writer underneath fails,
/// and `to_string` writes into a byte vector, which does not.
#[verifier::external_body]
fn pairs_to_json(pairs: &Vec<(String, String)>) -> (r: Result<String, serde_json::Error>)
    ensures
        r is Ok,
        r matches Ok(text) ==> text@ == json_text_of_pairs(pairs.deep_view()),
{
    serde_json::to_string(pairs)
}

/// Calls `serde_json::from_str` for a list of string pairs. Whether the text
/// is accepted, and the pairs read from it, are taken to depend on the text
/// alone.
#[verifier::external_body]
fn pairs_from_json(text: &str) -> (r: Result<Vec<(String, String)>, serde_json::Error>)
    ensures
        match r {
            Ok(pairs) => pairs_of_json_text(text@) == Some(pairs.deep_view()),
            Err(_) => pairs_of_json_text(text@) is None,
        },
{
    serde_json::from_str(text)
}

/// The columns of a message row other than its keys.
#[derive(Debug, PartialEq, Eq)]
pub struct MessageColumns {
    pub timestamp: String,
    pub topic: String,
    pub qos: i64,
    pub version: String,
    pub retained: bool,
    pub content_type: Option<String>,
    pub user_properties: Option<String>,
    pub body: Vec<u8>,
}

/// What the columns hold, as contracts speak of it.
pub struct ColumnsView {
    pub timestamp: Seq<char>,
    pub topic: Seq<char>,
    pub qos: i64,
    pub version: Seq<char>,
    pub retained: bool,
    pub content_type: Option<Seq<char>>,
    pub user_properties: Option<Seq<char>>,
    pub body: Seq<u8>,
}

impl View for MessageColumns {
    type V = ColumnsView;

    open spec fn view(&self) -> ColumnsView {
        ColumnsView {
            timestamp: self.timestamp@,
            topic: self.topic@,
            qos: self.qos,
            version: self.version@,
            retained: self.retained,
            content_type: text_of(self.content_type),
            user_properties: text_of(self.user_properties),
            body: self.body@,
        }
    }
}

/// The columns written for a message whose user properties have been put
/// into the text `properties`.
pub open spec fn columns_of(message: MessageView, properties: Seq<char>) -> ColumnsView {
    ColumnsView {
        timestamp: message.timestamp,
        topic: message.topic,
        qos: qos_level(message.qos) as i64,
        version: version_tag(message.mqtt_version),
        retained: message.retained,
        content_type: message.content_type,
        user_properties: Some(properties),
        body: message.body,
    }
}

/// The columns written for a message.
pub open spec fn encoded(message: MessageView) -> ColumnsView {
    columns_of(message, json_text_of_pairs(message.user_properties))
}

/// The user properties that a stored text stands for. A missing text stands
/// for the empty list.
pub open spec fn properties_of(text: Option<Seq<char>>) -> Result<
    Seq<(Seq<char>, Seq<char>)>,
    ConversionFault,
> {
    match text {
        None => Ok(Seq::empty()),
        Some(t) => match pairs_of_json_text(t) {
            Some(pairs) => Ok(pairs),
            None => Err(ConversionFault::InvalidUserProperties),
        },
    }
}

/// The message that the columns stand for, or the first column, in the
/// order of the SELECT list, that stands for nothing.
pub open spec fn decoded(columns: ColumnsView) -> Result<MessageView, ConversionFault> {
    match qos_of_level(columns.qos as int) {
        None => Err(ConversionFault::InvalidQos(columns.qos)),
        Some(qos) => match version_of_tag(columns.version) {
            None => Err(ConversionFault::InvalidVersion(columns.version)),
            Some(version) => match properties_of(columns.user_properties) {
                Err(fault) => Err(fault),
                Ok(pairs) => Ok(
                    MessageView {
                        topic: columns.topic,
                        qos: qos,
                        mqtt_version: version,
                        retained: columns.retained,
                        content_type: columns.content_type,
                        timestamp: columns.timestamp,
                        user_properties: pairs,
                        body: columns.body,
                    },
                ),
            },
        },
    }
}

/// Unknown codes are refused: columns whose level is none of 0, 1 and 2
/// stand for no message, whatever else they hold, and neither do columns
/// whose version is neither `3.x` nor `5`. No level or version is put in
/// their place.
pub proof fn lemma_unknown_codes_are_refused(columns: ColumnsView)
    ensures
        !(0 <= columns.qos <= 2) ==> decoded(columns) == Err::<MessageView, _>(
            ConversionFault::InvalidQos(columns.qos),
        ),
        0 <= columns.qos <= 2 && columns.version != version_tag(MQTTyClientVersion::V3X)
            && columns.version != version_tag(MQTTyClientVersion::V5) ==> decoded(columns)
            == Err::<MessageView, _>(ConversionFault::InvalidVersion(columns.version)),
        decoded(columns) matches Ok(message) ==> qos_level(message.qos) == columns.qos
            && version_tag(message.mqtt_version) == columns.version,
{
}

/// What is written is read back: the columns written for a message stand
/// for that very message, provided that the text written for its user
/// properties is read back as these properties.
pub proof fn lemma_columns_read_back(message: MessageView)
    requires
        pairs_of_json_text(json_text_of_pairs(message.user_properties)) == Some(
            message.user_properties,
        ),
    ensures
        decoded(encoded(message)) == Ok::<_, ConversionFault>(message),
{
    lemma_qos_levels_correspond(message.qos, 0);
    lemma_version_tags_correspond(message.mqtt_version, Seq::empty());
}

/// Writes the pairs as a JSON array of two-element arrays. This succeeds
/// for every list.
pub fn serialize_user_properties(pairs: &Vec<(String, String)>) -> (r: Result<String, StoreError>)
    ensures
        r matches Ok(text) && text@ == json_text_of_pairs(pairs.deep_view()),
{
    match pairs_to_json(pairs) {
        Ok(text) => Ok(text),
        Err(e) => Err(StoreError::SerdeJson(e)),
    }
}

/// Reads the pairs back from a stored text; a missing text gives no pairs, a
/// text that is no JSON list of string pairs is refused.
pub fn parse_user_properties(text: &Option<String>) -> (r: Result<
    Vec<(String, String)>,
    ConversionError,
>)
    ensures
        match r {
            Ok(pairs) => properties_of(text_of(*text)) == Ok::<_, ConversionFault>(
                pairs.deep_view(),
            ),
            Err(e) => e@ == ConversionFault::InvalidUserProperties && properties_of(
                text_of(*text),
            ) == Err::<Seq<(Seq<char>, Seq<char>)>, _>(e@),
        },
{
    match text {
        None => {
            let pairs: Vec<(String, String)> = Vec::new();
            assert(pairs.deep_view() =~= Seq::empty());
            Ok(pairs)
        },
        Some(t) => match pairs_from_json(t.as_str()) {
            Ok(pairs) => Ok(pairs),
            Err(e) => Err(ConversionError::InvalidUserProperties(e)),
        },
    }
}

/// Lays a message out in columns: the level as an integer, the version as
/// its tag, the user properties as JSON text, everything else as it is. This
/// succeeds for every message.
pub fn encode_message(message: &MQTTyClientMessage) -> (r: Result<MessageColumns, StoreError>)
    ensures
        r matches Ok(columns) && columns@ == encoded(message@),
{
    let pairs = message.user_properties();
    let properties = match serialize_user_properties(&pairs) {
        Ok(text) => text,
        Err(e) => {
            return Err(e);
        },
    };
    Ok(
        MessageColumns {
            timestamp: message.timestamp(),
            topic: message.topic(),
            qos: qos_to_level(message.qos()),
            version: version_to_tag(message.mqtt_version()),
            retained: message.retained(),
            content_type: message.content_type(),
            user_properties: Some(properties),
            body: message.body(),
        },
    )
}

/// Reads a message back from its columns. The level and the version are
/// checked first, in this order, then the user properties.
pub fn decode_columns(columns: MessageColumns) -> (r: Result<MQTTyClientMessage, ConversionError>)
    ensures
        match r {
            Ok(message) => decoded(columns@) == Ok::<_, ConversionFault>(message@),
            Err(e) => decoded(columns@) == Err::<MessageView, _>(e@),
        },
{
    let qos = match qos_from_level(columns.qos) {
        Ok(qos) => qos,
        Err(e) => {
            return Err(e);
        },
    };
    let version = match version_from_tag(columns.version) {
        Ok(version) => version,
        Err(e) => {
            return Err(e);
        },
    };
    let pairs = match parse_user_properties(&columns.user_properties) {
        Ok(pairs) => pairs,
        Err(e) => {
            return Err(e);
        },
    };
    let mut message = MQTTyClientMessage::new();
    message.set_timestamp(columns.timestamp);
    message.set_topic(columns.topic);
    message.set_qos(qos);
    message.set_mqtt_version(version);
    message.set_retained(columns.retained);
    message.set_content_type(columns.content_type);
    message.set_user_properties(pairs.as_slice());
    message.set_body(columns.body.as_slice());
    Ok(message)
}

/// A row as the reader's SELECT hands it over: its id, then its columns.
#[derive(Debug, PartialEq, Eq)]
pub struct MessageRow {
    pub id: i64,
    pub columns: MessageColumns,
}

/// What a row holds, as contracts speak of it.
pub struct RowView {
    pub id: i64,
    pub columns: ColumnsView,
}

impl View for MessageRow {
    type V = RowView;

    open spec fn view(&self) -> RowView {
        RowView { id: self.id, columns: self.columns@ }
    }
}

impl DeepView for MessageRow {
    type V = RowView;

    open spec fn deep_view(&self) -> RowView {
        self@
    }
}

/// A message together with the id of the row that holds it.
#[derive(Debug, PartialEq, Eq)]
pub struct StoredMessage {
    pub id: i64,
    pub message: MQTTyClientMessage,
}

/// A stored message, as contracts speak of it.
pub struct StoredView {
    pub id: i64,
    pub message: MessageView,
}

impl View for StoredMessage {
    type V = StoredView;

    open spec fn view(&self) -> StoredView {
        StoredView { id: self.id, message: self.message@ }
    }
}

impl DeepView for StoredMessage {
    type V = StoredView;

    open spec fn deep_view(&self) -> StoredView {
        self@
    }
}

/// The stored message that a row stands for.
pub open spec fn decoded_row(row: RowView) -> Result<StoredView, ConversionFault> {
    match decoded(row.columns) {
        Ok(message) => Ok(StoredView { id: row.id, message: message }),
        Err(fault) => Err(fault),
    }
}

/// The stored messages that the rows stand for, in their order, or the
/// fault of the first row that stands for none.
pub open spec fn decoded_rows(rows: Seq<RowView>) -> Result<Seq<StoredView>, ConversionFault>
    decreases rows.len(),
{
    if rows.len() == 0 {
        Ok(Seq::empty())
    } else {
        match decoded_rows(rows.drop_last()) {
            Err(fault) => Err(fault),
            Ok(front) => match decoded_row(rows.last()) {
                Err(fault) => Err(fault),
                Ok(stored) => Ok(front.push(stored)),
            },
        }
    }
}

/// A fault among the first rows is the fault of the whole list.
pub proof fn lemma_fault_persists(rows: Seq<RowView>, n: int)
    requires
        0 <= n <= rows.len(),
        decoded_rows(rows.take(n)) is Err,
    ensures
        decoded_rows(rows) == decoded_rows(rows.take(n)),
    decreases rows.len() - n,
{
    if n < rows.len() {
        assert(rows.take(n + 1).drop_last() =~= rows.take(n));
        lemma_fault_persists(rows, n + 1);
    } else {
        assert(rows.take(n) =~= rows);
    }
}

/// Where every row stands for a message, there is one message for each
/// row, under the row's id; one row that stands for none fails them all.
pub proof fn lemma_decoded_rows_pointwise(rows: Seq<RowView>)
    ensures
        decoded_rows(rows) is Ok <==> forall|i: int|
            0 <= i < rows.len() ==> decoded_row(#[trigger] rows[i]) is Ok,
        decoded_rows(rows) matches Ok(stored) ==> stored.len() == rows.len() && forall|i: int|
            0 <= i < rows.len() ==> decoded_row(#[trigger] rows[i]) == Ok::<_, ConversionFault>(
                stored[i],
            ),
    decreases rows.len(),
{
    if rows.len() > 0 {
        let front = rows.drop_last();
        lemma_decoded_rows_pointwise(front);
        assert forall|i: int| 0 <= i < front.len() implies front[i] == rows[i] by {}
        if decoded_rows(rows) is Ok {
            assert forall|i: int| 0 <= i < rows.len() implies decoded_row(#[trigger] rows[i])
                == Ok::<_, ConversionFault>(decoded_rows(rows)->Ok_0[i]) by {}
        }
        if forall|i: int| 0 <= i < rows.len() ==> decoded_row(#[trigger] rows[i]) is Ok {
            assert forall|i: int| 0 <= i < front.len() implies decoded_row(
                #[trigger] front[i],
            ) is Ok by {}
        }
    }
}

/// Reads a stored message back from a row.
pub fn decode_row(row: MessageRow) -> (r: Result<StoredMessage, ConversionError>)
    ensures
        match r {
            Ok(stored) => decoded_row(row@) == Ok::<_, ConversionFault>(stored@),
            Err(e) => decoded_row(row@) == Err::<StoredView, _>(e@),
        },
{
    let id = row.id;
    match decode_columns(row.columns) {
        Ok(message) => Ok(StoredMessage { id, message }),
        Err(e) => Err(e),
    }
}

/// Reads the stored messages back from the rows, in their order, and stops
/// at the first row that stands for none.
pub fn decode_rows(rows: Vec<MessageRow>) -> (r: Result<Vec<StoredMessage>, ConversionError>)
    ensures
        match r {
            Ok(stored) => decoded_rows(rows.deep_view()) == Ok::<_, ConversionFault>(
                stored.deep_view(),
            ),
            Err(e) => decoded_rows(rows.deep_view()) == Err::<Seq<StoredView>, _>(e@),
        },
{
    let ghost all = rows.deep_view();
    let mut stored: Vec<StoredMessage> = Vec::new();
    assert(stored.deep_view() =~= Seq::empty());
    for row in it: rows.into_iter()
        invariant
            all == rows.deep_view(),
            it.seq() == rows@,
            decoded_rows(all.take(it.index() as int)) == Ok::<_, ConversionFault>(
                stored.deep_view(),
            ),
    {
        let ghost i = it.index() as int;
        assert(all.take(i + 1).drop_last() =~= all.take(i));
        match decode_row(row) {
            Ok(message) => {
                let ghost before = stored.deep_view();
                stored.push(message);
                assert(stored.deep_view() =~= before.push(message@));
            },
            Err(e) => {
                proof {
                    lemma_fault_persists(all, i + 1);
                }
                return Err(e);
            },
        }
    }
    assert(all.take(rows.len() as int) =~= all);
    Ok(stored)
}

} // verus!
