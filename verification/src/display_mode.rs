//! The two layouts of the views, and what follows from them for a widget.

use vstd::prelude::*;
use vstd::string::*;

verus! {

/// Hints the layout of a widget: wide as on a desktop, or narrow as on a
/// phone.
#[derive(Clone, Copy, Debug, PartialEq, Eq, Structural)]
pub enum MQTTyDisplayMode {
    Desktop,
    Mobile,
}

impl Default for MQTTyDisplayMode {
    fn default() -> (mode: Self)
        ensures
            mode == MQTTyDisplayMode::Desktop,
    {
        MQTTyDisplayMode::Desktop
    }
}

impl MQTTyDisplayMode {
    /// The short name of the mode in style sheets and settings.
    pub open spec fn spec_nick(self) -> Seq<char> {
        match self {
            MQTTyDisplayMode::Desktop => "desktop"@,
            MQTTyDisplayMode::Mobile => "mobile"@,
        }
    }

    /// The short name of the mode.
    pub fn nick(&self) -> (nick: &'static str)
        ensures
            nick@ == self.spec_nick(),
    {
        match self {
            MQTTyDisplayMode::Desktop => "desktop",
            MQTTyDisplayMode::Mobile => "mobile",
        }
    }

    /// The mode with this short name, if there is one.
    pub fn from_nick(nick: &str) -> (mode: Option<MQTTyDisplayMode>)
        ensures
            match mode {
                Some(m) => nick@ == m.spec_nick(),
                None => forall|m: MQTTyDisplayMode| nick@ != m.spec_nick(),
            },
    {
        let given = String::from_str(nick);
        if given == String::from_str("desktop") {
            Some(MQTTyDisplayMode::Desktop)
        } else if given == String::from_str("mobile") {
            Some(MQTTyDisplayMode::Mobile)
        } else {
            None
        }
    }
}

/// The direction in which a box lays out its children.
#[derive(Clone, Copy, Debug, PartialEq, Eq, Structural)]
pub enum Orientation {
    Horizontal,
    Vertical,
}

/// When a scrolled area shows its scroll bar.
#[derive(Clone, Copy, Debug, PartialEq, Eq, Structural)]
pub enum ScrollPolicy {
    Automatic,
    Never,
}

/// Side by side on a desktop, one below the other on a phone.
pub fn display_mode_to_orientation(display_mode: MQTTyDisplayMode) -> (orientation: Orientation)
    ensures
        orientation == match display_mode {
            MQTTyDisplayMode::Desktop => Orientation::Horizontal,
            MQTTyDisplayMode::Mobile => Orientation::Vertical,
        },
{
    match display_mode {
        MQTTyDisplayMode::Desktop => Orientation::Horizontal,
        MQTTyDisplayMode::Mobile => Orientation::Vertical,
    }
}

/// A scroll bar of its own on a desktop, none on a phone, where the page
/// scrolls as a whole.
pub fn display_mode_to_vscroll_policy(display_mode: MQTTyDisplayMode) -> (policy: ScrollPolicy)
    ensures
        policy == match display_mode {
            MQTTyDisplayMode::Desktop => ScrollPolicy::Automatic,
            MQTTyDisplayMode::Mobile => ScrollPolicy::Never,
        },
{
    match display_mode {
        MQTTyDisplayMode::Desktop => ScrollPolicy::Automatic,
        MQTTyDisplayMode::Mobile => ScrollPolicy::Never,
    }
}

/// The split view shows one pane only while it has no content to show, and
/// always on a phone.
pub fn split_view_collapsed(display_mode: MQTTyDisplayMode, show_content: bool) -> (collapsed:
    bool)
    ensures
        collapsed == (!show_content || display_mode == MQTTyDisplayMode::Mobile),
{
    !show_content || display_mode == MQTTyDisplayMode::Mobile
}

} // verus!
