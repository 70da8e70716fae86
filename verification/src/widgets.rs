//! What the views show and send, worked out from plain values: the message
//! that the publish view sends, what a connection row shows after its
//! switch was turned, and how the wildcards of a topic filter are set off.

use vstd::prelude::*;
use vstd::string::*;

use crate::client::{MQTTyClientMessage, MQTTyClientQos, MQTTyClientVersion, MessageView};
use crate::content_type::MQTTyContentType;

verus! {

/// What the publish view sends. A body is sent only where a content type is
/// chosen; the content type and the user properties only with version 5,
/// which alone can carry them.
pub open spec fn composed(
    mqtt_version: MQTTyClientVersion,
    topic: Seq<char>,
    qos: MQTTyClientQos,
    content_type: MQTTyContentType,
    mime_type: Option<Seq<char>>,
    body: Seq<u8>,
    user_properties: Seq<(Seq<char>, Seq<char>)>,
) -> MessageView {
    let is_v5 = mqtt_version == MQTTyClientVersion::V5;
    MessageView {
        topic: topic,
        qos: qos,
        mqtt_version: mqtt_version,
        retained: false,
        content_type: if is_v5 {
            mime_type
        } else {
            None
        },
        timestamp: Seq::empty(),
        user_properties: if is_v5 {
            user_properties
        } else {
            Seq::empty()
        },
        body: if content_type != MQTTyContentType::Unspecified {
            body
        } else {
            Seq::empty()
        },
    }
}

/// Puts together the message that the publish view sends.
pub fn compose_message(
    mqtt_version: MQTTyClientVersion,
    topic: String,
    qos: MQTTyClientQos,
    content_type: MQTTyContentType,
    mime_type: Option<String>,
    body: &[u8],
    user_properties: &[(String, String)],
) -> (message: MQTTyClientMessage)
    ensures
        message@ == composed(
            mqtt_version,
            topic@,
            qos,
            content_type,
            match mime_type {
                Some(t) => Some(t@),
                None => None,
            },
            body@,
            user_properties.deep_view(),
        ),
{
    let mut message = MQTTyClientMessage::new();
    message.set_topic(topic);
    message.set_qos(qos);
    if content_type != MQTTyContentType::Unspecified {
        message.set_body(body);
    }
    message.set_mqtt_version(mqtt_version);
    if mqtt_version == MQTTyClientVersion::V5 {
        message.set_content_type(mime_type);
        message.set_user_properties(user_properties);
    }
    message
}

/// The stack page of a list view: the list where it has entries, the
/// placeholder where it has none.
pub fn list_page(entries: usize) -> (has_entries: bool)
    ensures
        has_entries == (entries != 0),
{
    entries != 0
}

/// A connection can be saved once it has a name and a URL.
pub fn is_valid_connection(name: &str, url: &str) -> (valid: bool)
    ensures
        valid == (name@.len() > 0 && url@.len() > 0),
{
    name.unicode_len() > 0 && url.unicode_len() > 0
}

/// A subscription can be saved once it has a topic filter.
pub fn is_valid_subscription(topic: &str) -> (valid: bool)
    ensures
        valid == (topic@.len() > 0),
{
    topic.unicode_len() > 0
}

/// What the indicator of a connection row shows.
#[derive(Clone, Copy, Debug, PartialEq, Eq, Structural)]
pub enum IndicatorState {
    Disabled,
    Success,
    Error,
}

impl IndicatorState {
    /// The name of the state, which is also the name of its style class.
    pub open spec fn spec_name(self) -> Seq<char> {
        match self {
            IndicatorState::Disabled => "disabled"@,
            IndicatorState::Success => "success"@,
            IndicatorState::Error => "error"@,
        }
    }

    /// The name of the state.
    pub fn name(&self) -> (name: &'static str)
        ensures
            name@ == self.spec_name(),
    {
        match self {
            IndicatorState::Disabled => "disabled",
            IndicatorState::Success => "success",
            IndicatorState::Error => "error",
        }
    }
}

/// What a connection row shows once its switch has been followed: the
/// indicator, and the tooltip if there is one.
#[derive(Debug, PartialEq, Eq)]
pub struct ConnectionFeedback {
    pub indicator: IndicatorState,
    pub tooltip: Option<String>,
}

/// What comes before the reason in the tooltip of a failed connection.
pub const CONNECT_ERROR_PREFIX: &'static str = "There was an error while connecting: ";

/// What is shown after closing the connection, however that went: the
/// indicator is off, and there is no tooltip.
pub fn feedback_after_disconnect() -> (feedback: ConnectionFeedback)
    ensures
        feedback.indicator == IndicatorState::Disabled,
        feedback.tooltip is None,
{
    ConnectionFeedback { indicator: IndicatorState::Disabled, tooltip: None }
}

/// What is shown after trying to open the connection: success without a
/// tooltip, or an error with the reason as the tooltip.
pub fn feedback_after_connect(outcome: &Result<(), String>) -> (feedback: ConnectionFeedback)
    ensures
        match *outcome {
            Ok(_) => feedback.indicator == IndicatorState::Success && feedback.tooltip is None,
            Err(reason) => {
                &&& feedback.indicator == IndicatorState::Error
                &&& feedback.tooltip matches Some(text)
                &&& text@ == CONNECT_ERROR_PREFIX@ + reason@
            },
        },
{
    match outcome {
        Ok(_) => ConnectionFeedback { indicator: IndicatorState::Success, tooltip: None },
        Err(reason) => {
            let mut text = String::from_str(CONNECT_ERROR_PREFIX);
            text.append(reason.as_str());
            ConnectionFeedback { indicator: IndicatorState::Error, tooltip: Some(text) }
        },
    }
}

/// `text` with `replacement` in the place of every `target`.
pub open spec fn replaced(text: Seq<char>, target: char, replacement: Seq<char>) -> Seq<char>
    decreases text.len(),
{
    if text.len() == 0 {
        Seq::empty()
    } else {
        replaced(text.drop_last(), target, replacement) + if text.last() == target {
            replacement
        } else {
            seq![text.last()]
        }
    }
}

/// Puts `replacement` in the place of every `target` in `text`.
pub fn replace_char(text: &str, target: char, replacement: &str) -> (result: String)
    ensures
        result@ == replaced(text@, target, replacement@),
{
    let length = text.unicode_len();
    let mut result = String::new();
    let mut i: usize = 0;
    while i < length
        invariant
            length == text@.len(),
            i <= length,
            result@ == replaced(text@.take(i as int), target, replacement@),
        decreases length - i,
    {
        proof {
            assert(text@.take(i + 1).drop_last() =~= text@.take(i as int));
        }
        if text.get_char(i) == target {
            result.append(replacement);
        } else {
            let single = text.substring_char(i, i + 1);
            result.append(single);
        }
        i += 1;
    }
    assert(text@.take(length as int) =~= text@);
    result
}

/// The opening tag that sets a wildcard off: bold, in the given colour.
pub open spec fn wildcard_tag(color: Seq<char>) -> Seq<char> {
    "<span foreground='"@ + color + "' weight='bold'>"@
}

/// The markup of a topic filter whose text has been escaped for markup:
/// every `#`, and then every `+`, is wrapped into a span that sets it off.
pub open spec fn highlighted(escaped_topic: Seq<char>, color: Seq<char>) -> Seq<char> {
    let tag = wildcard_tag(color);
    replaced(
        replaced(escaped_topic, '#', tag + "#</span>"@),
        '+',
        tag + "+</span>"@,
    )
}

/// Sets the wildcards `#` and `+` of a topic filter off in markup. The
/// topic is expected with its markup characters escaped, the colour as
/// `#rrggbb`.
pub fn highlight_wildcards(escaped_topic: &str, color: &str) -> (markup: String)
    ensures
        markup@ == highlighted(escaped_topic@, color@),
{
    let mut tag = String::from_str("<span foreground='");
    tag.append(color);
    tag.append("' weight='bold'>");
    let mut multi_level = tag.clone();
    multi_level.append("#</span>");
    let mut single_level = tag;
    single_level.append("+</span>");
    let first = replace_char(escaped_topic, '#', multi_level.as_str());
    replace_char(first.as_str(), '+', single_level.as_str())
}

/// The decimal digit of a number below ten.
pub open spec fn digit(n: int) -> char {
    seq!['0', '1', '2', '3', '4', '5', '6', '7', '8', '9'][n]
}

/// A number in decimal, without leading zeros.
pub open spec fn decimal(n: nat) -> Seq<char>
    decreases n,
{
    if n < 10 {
        seq![digit(n as int)]
    } else {
        decimal(n / 10).push(digit((n % 10) as int))
    }
}

fn digit_text(n: usize) -> (text: &'static str)
    requires
        n < 10,
    ensures
        text@ == seq![digit(n as int)],
{
    proof {
        reveal_strlit("0");
        reveal_strlit("1");
        reveal_strlit("2");
        reveal_strlit("3");
        reveal_strlit("4");
        reveal_strlit("5");
        reveal_strlit("6");
        reveal_strlit("7");
        reveal_strlit("8");
        reveal_strlit("9");
    }
    let text = if n == 0 {
        "0"
    } else if n == 1 {
        "1"
    } else if n == 2 {
        "2"
    } else if n == 3 {
        "3"
    } else if n == 4 {
        "4"
    } else if n == 5 {
        "5"
    } else if n == 6 {
        "6"
    } else if n == 7 {
        "7"
    } else if n == 8 {
        "8"
    } else {
        "9"
    };
    text
}

/// Writes a number in decimal.
pub fn decimal_text(n: usize) -> (text: String)
    ensures
        text@ == decimal(n as nat),
    decreases n,
{
    if n < 10 {
        String::from_str(digit_text(n))
    } else {
        let mut text = decimal_text(n / 10);
        text.append(digit_text(n % 10));
        text
    }
}

/// A byte is one of the wildcards `+` and `#`.
pub open spec fn is_wildcard(byte: u8) -> bool {
    byte == 0x2b || byte == 0x23
}

/// The two attributes that set off the byte at `at`: bold, and the colour.
pub open spec fn attributes_at(at: nat, color: Seq<char>) -> Seq<char> {
    let range = decimal(at) + " "@ + decimal(at + 1);
    range + " weight bold,"@ + range + " foreground "@ + color
}

/// The attribute list that sets off every wildcard among the first `upto`
/// bytes of a topic filter: the attributes of each, in the order of the
/// wildcards, separated by commas.
pub open spec fn wildcard_attributes_upto(topic: Seq<u8>, upto: nat, color: Seq<char>) -> Seq<
    char,
>
    decreases upto,
{
    if upto == 0 {
        Seq::empty()
    } else {
        let before = wildcard_attributes_upto(topic, (upto - 1) as nat, color);
        if is_wildcard(topic[upto - 1]) {
            if before.len() == 0 {
                attributes_at((upto - 1) as nat, color)
            } else {
                before + ","@ + attributes_at((upto - 1) as nat, color)
            }
        } else {
            before
        }
    }
}

fn append_attributes(attributes: &mut String, at: usize, color: &str)
    requires
        at < usize::MAX,
    ensures
        final(attributes)@ == old(attributes)@ + attributes_at(at as nat, color@),
{
    let start = decimal_text(at);
    let end = decimal_text(at + 1);
    attributes.append(start.as_str());
    attributes.append(" ");
    attributes.append(end.as_str());
    attributes.append(" weight bold,");
    attributes.append(start.as_str());
    attributes.append(" ");
    attributes.append(end.as_str());
    attributes.append(" foreground ");
    attributes.append(color);
}

/// The attribute list that sets off the wildcards of a topic filter in an
/// entry: bold and coloured, each wildcard by its position in bytes.
pub fn wildcard_attributes(topic: &str, color: &str) -> (attributes: String)
    ensures
        attributes@ == wildcard_attributes_upto(
            topic.spec_bytes(),
            topic.spec_bytes().len(),
            color@,
        ),
{
    let bytes = topic.as_bytes();
    let mut attributes = String::new();
    let mut i: usize = 0;
    while i < bytes.len()
        invariant
            bytes@ == topic.spec_bytes(),
            i <= bytes.len(),
            attributes@ == wildcard_attributes_upto(bytes@, i as nat, color@),
        decreases bytes.len() - i,
    {
        if bytes[i] == 0x2b || bytes[i] == 0x23 {
            if attributes.as_str().unicode_len() > 0 {
                attributes.append(",");
            }
            append_attributes(&mut attributes, i, color);
        }
        i += 1;
    }
    attributes
}

/// The name of the page of the main window that holds the publish view.
pub const PUBLISH_VIEW: &'static str = "publish";

/// The name of the page of the main window that holds the subscriptions
/// view.
pub const SUBSCRIPTIONS_VIEW: &'static str = "subscriptions";

/// Which actions of the main window can be activated.
#[derive(Clone, Copy, Debug, PartialEq, Eq, Structural)]
pub struct EnabledActions {
    pub publish_send: bool,
    pub publish_new_tab: bool,
    pub publish_delete_tab: bool,
    pub subscriptions_new_connection: bool,
}

/// The actions that can be activated while the page `visible_view` is shown
/// and the publish view has `n_tabs` tabs: a new tab can be opened in the
/// publish view, a tab sent or closed where there is one, and a connection
/// added anywhere else.
pub fn enabled_actions(visible_view: &str, n_tabs: i32) -> (enabled: EnabledActions)
    ensures
        enabled == ({
            let in_publish_view = visible_view@ == PUBLISH_VIEW@;
            EnabledActions {
                publish_send: in_publish_view && n_tabs != 0,
                publish_new_tab: in_publish_view,
                publish_delete_tab: in_publish_view && n_tabs != 0,
                subscriptions_new_connection: !in_publish_view,
            }
        }),
{
    let in_publish_view = String::from_str(visible_view) == String::from_str(PUBLISH_VIEW);
    EnabledActions {
        publish_send: in_publish_view && n_tabs != 0,
        publish_new_tab: in_publish_view,
        publish_delete_tab: in_publish_view && n_tabs != 0,
        subscriptions_new_connection: !in_publish_view,
    }
}

/// What the window says once a message has, or has not, been published.
#[derive(Debug, PartialEq, Eq)]
pub struct PublishToast {
    /// The English title, with `{}` where `argument` goes.
    pub title: &'static str,
    /// The topic, or the reason of the failure.
    pub argument: String,
    pub icon_name: &'static str,
    /// The icon is drawn in the colour of success.
    pub success: bool,
    /// Seconds until the toast goes away.
    pub timeout: u32,
}

/// The toast shown after publishing to `topic`.
pub fn publish_toast(outcome: &Result<(), String>, topic: &str) -> (toast: PublishToast)
    ensures
        toast.timeout == 3,
        match *outcome {
            Ok(_) => {
                &&& toast.title@ == "Message published to topic {}"@
                &&& toast.argument@ == topic@
                &&& toast.icon_name@ == "object-select-symbolic"@
                &&& toast.success
            },
            Err(reason) => {
                &&& toast.title@ == "Error while publishing: {}"@
                &&& toast.argument@ == reason@
                &&& toast.icon_name@ == "network-error-symbolic"@
                &&& !toast.success
            },
        },
{
    match outcome {
        Ok(_) => PublishToast {
            title: "Message published to topic {}",
            argument: String::from_str(topic),
            icon_name: "object-select-symbolic",
            success: true,
            timeout: 3,
        },
        Err(reason) => PublishToast {
            title: "Error while publishing: {}",
            argument: reason.clone(),
            icon_name: "network-error-symbolic",
            success: false,
            timeout: 3,
        },
    }
}

/// What the subscriptions view does when a connection row is activated, or
/// is about to be changed or removed.
#[derive(Clone, Copy, Debug, PartialEq, Eq, Structural)]
pub struct ConnectionActivation {
    /// The content pane is closed.
    pub hide_content: bool,
    /// The overview kept for the connection is dropped.
    pub forget_overview: bool,
    /// The overview of the connection is shown in the content pane, and
    /// made first where none is kept.
    pub show_overview: bool,
}

/// A row that changes loses its overview, and closes the content pane if it
/// is the selected one. Activating the selected row closes the content pane;
/// activating another shows that row's overview.
pub fn connection_activated(changed: bool, selected: bool) -> (activation: ConnectionActivation)
    ensures
        activation == (ConnectionActivation {
            hide_content: selected,
            forget_overview: changed,
            show_overview: !changed && !selected,
        }),
{
    if changed {
        ConnectionActivation { hide_content: selected, forget_overview: true, show_overview: false }
    } else if selected {
        ConnectionActivation { hide_content: true, forget_overview: false, show_overview: false }
    } else {
        ConnectionActivation { hide_content: false, forget_overview: false, show_overview: true }
    }
}

/// A press that is not the first of its sequence is claimed, and so kept
/// from the window.
pub fn claims_repeated_press(n_presses: i32) -> (claimed: bool)
    ensures
        claimed == (n_presses > 1),
{
    n_presses > 1
}

/// The number of the secondary mouse button.
pub const SECONDARY_BUTTON: u32 = 3;

/// Whether the header of the publish view keeps a press or drag from the
/// window: everything outside tabs and buttons, and on a button the
/// secondary button and drags.
pub fn claims_gesture_in_publish_view(
    on_tab: bool,
    on_button: bool,
    current_button: u32,
    is_drag: bool,
) -> (claimed: bool)
    ensures
        claimed == ((!on_tab && !on_button) || (on_button && (current_button == SECONDARY_BUTTON
            || is_drag))),
{
    (!on_tab && !on_button) || (on_button && (current_button == SECONDARY_BUTTON || is_drag))
}

/// Whether the header of the subscriptions view keeps a press or drag from
/// the window: everything outside buttons, the secondary button, and drags.
pub fn claims_gesture_in_subscriptions_view(on_button: bool, current_button: u32, is_drag: bool)
    -> (claimed: bool)
    ensures
        claimed == (!on_button || current_button == SECONDARY_BUTTON || is_drag),
{
    !on_button || current_button == SECONDARY_BUTTON || is_drag
}

} // verus!
