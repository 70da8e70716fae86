//! The content types a message body can be edited as.

use vstd::prelude::*;

verus! {

/// How the body of a message to publish is written and shown.
#[derive(Clone, Copy, Debug, PartialEq, Eq, Structural)]
pub enum MQTTyContentType {
    /// No content type is announced.
    Unspecified,
    Json,
    Xml,
    Raw,
}

/// The catalogue context in which the names of content types are looked
/// up.
pub const LABEL_CONTEXT: &'static str = "body content type";

impl Default for MQTTyContentType {
    fn default() -> (c: Self)
        ensures
            c == MQTTyContentType::Unspecified,
    {
        MQTTyContentType::Unspecified
    }
}

impl MQTTyContentType {
    /// Every content type once, in the order in which they are offered.
    pub open spec fn all() -> Seq<MQTTyContentType> {
        seq![
            MQTTyContentType::Unspecified,
            MQTTyContentType::Json,
            MQTTyContentType::Xml,
            MQTTyContentType::Raw,
        ]
    }

    /// The English name of the content type, which is what gets looked up
    /// in the message catalogue under `LABEL_CONTEXT`.
    pub open spec fn spec_label(self) -> Seq<char> {
        match self {
            MQTTyContentType::Unspecified => "(none)"@,
            MQTTyContentType::Json => "JSON"@,
            MQTTyContentType::Xml => "XML"@,
            MQTTyContentType::Raw => "Raw"@,
        }
    }

    /// The English name of the content type.
    pub fn label(&self) -> (label: &'static str)
        ensures
            label@ == self.spec_label(),
    {
        match self {
            MQTTyContentType::Unspecified => "(none)",
            MQTTyContentType::Json => "JSON",
            MQTTyContentType::Xml => "XML",
            MQTTyContentType::Raw => "Raw",
        }
    }

    /// Every content type once, in the order in which they are offered.
    pub fn listed() -> (list: &'static [MQTTyContentType])
        ensures
            list@ == Self::all(),
    {
        let list: &'static [MQTTyContentType] = &[
            MQTTyContentType::Unspecified,
            MQTTyContentType::Json,
            MQTTyContentType::Xml,
            MQTTyContentType::Raw,
        ];
        list
    }
}

/// Each content type is listed, and listed once.
pub proof fn lemma_listed_is_complete(content_type: MQTTyContentType)
    ensures
        MQTTyContentType::all().contains(content_type),
        MQTTyContentType::all().no_duplicates(),
{
    let all = MQTTyContentType::all();
    match content_type {
        MQTTyContentType::Unspecified => assert(all[0] == content_type),
        MQTTyContentType::Json => assert(all[1] == content_type),
        MQTTyContentType::Xml => assert(all[2] == content_type),
        MQTTyContentType::Raw => assert(all[3] == content_type),
    }
}

} // verus!
