//! The data the pipeline works on: one window's state, one window-manager
//! event, and the classification of an event's raw change string.

use vstd::prelude::*;

verus! {

/// One window's identity and focus flag at a point in time.
#[derive(Debug, Clone, PartialEq)]
pub struct WindowState {
    /// Opaque identifier the window manager assigned to the window.
    pub id: String,
    /// Display title, if the window has one.
    pub name: Option<String>,
    /// Whether the window manager reports this window as focused.
    pub focused: bool,
}

/// The kinds of change a window-manager notification can carry, as far as
/// the pipeline cares: a focus change, a title change, or anything else.
#[derive(Debug, Clone, Copy, PartialEq, Eq, Structural)]
pub enum ChangeKind {
    Focus,
    Title,
    Other,
}

/// One notification from the window manager's event stream.
#[derive(Debug, Clone, PartialEq)]
pub struct WindowEvent {
    pub change_kind: ChangeKind,
    pub window: WindowState,
}

/// Classification of a raw change string: `"focus"` and `"title"` are the
/// two kinds the pipeline reacts to; every other string counts as `Other`.
pub open spec fn spec_change_kind(change: Seq<char>) -> ChangeKind {
    if change == "focus"@ {
        ChangeKind::Focus
    } else if change == "title"@ {
        ChangeKind::Title
    } else {
        ChangeKind::Other
    }
}

/// Classifies the raw change string of a window-manager notification.
pub fn change_kind_of(change: &str) -> (kind: ChangeKind)
    ensures
        kind == spec_change_kind(change@),
{
    let owned: String = change.to_owned();
    if owned == "focus".to_owned() {
        ChangeKind::Focus
    } else if owned == "title".to_owned() {
        ChangeKind::Title
    } else {
        ChangeKind::Other
    }
}

/// The text shown for a window: its title when it has one, else the string
/// form of its identifier.
pub open spec fn spec_label(window: WindowState) -> Seq<char> {
    match window.name {
        Some(name) => name@,
        None => window.id@,
    }
}

/// Picks the display text for a window.
pub fn display_label(window: &WindowState) -> (label: &str)
    ensures
        label@ == spec_label(*window),
{
    match &window.name {
        Some(name) => name.as_str(),
        None => window.id.as_str(),
    }
}

} // verus!
