//! The focus filter: the pure decision whether one window-manager event
//! represents a focus-relevant change, and if so, which state it carries.

use vstd::prelude::*;

use crate::window::{spec_change_kind, ChangeKind, WindowEvent, WindowState};

verus! {

/// The filter's decision for one event.
///
/// A focus event is authoritative and always carries its window, whatever
/// the window's own `focused` flag says. A title event carries its window
/// only when that window is focused, so a retitled background window never
/// overwrites the displayed state. Every other event is dropped. The
/// decision is total and depends on the current event alone.
pub open spec fn spec_should_emit(event: WindowEvent) -> Option<WindowState> {
    match event.change_kind {
        ChangeKind::Focus => Some(event.window),
        ChangeKind::Title => if event.window.focused {
            Some(event.window)
        } else {
            None
        },
        ChangeKind::Other => None,
    }
}

/// Decides whether `event` is a focus-relevant change and hands out the
/// resulting window state if it is.
pub fn should_emit(event: WindowEvent) -> (emitted: Option<WindowState>)
    ensures
        emitted == spec_should_emit(event),
{
    match event.change_kind {
        ChangeKind::Focus => Some(event.window),
        ChangeKind::Title => {
            if event.window.focused {
                Some(event.window)
            } else {
                None
            }
        },
        ChangeKind::Other => None,
    }
}

/// A focus event always emits its window, regardless of the window's own
/// `focused` flag.
pub proof fn lemma_focus_always_emits(event: WindowEvent)
    requires
        event.change_kind is Focus,
    ensures
        spec_should_emit(event) == Some(event.window),
{
}

/// A title event emits its window if and only if that window is focused,
/// and emits nothing otherwise.
pub proof fn lemma_title_emits_iff_focused(event: WindowEvent)
    requires
        event.change_kind is Title,
    ensures
        event.window.focused ==> spec_should_emit(event) == Some(event.window),
        !event.window.focused ==> spec_should_emit(event) == None::<WindowState>,
        (spec_should_emit(event) == Some(event.window)) <==> event.window.focused,
{
}

/// An event of any other kind never emits.
pub proof fn lemma_other_never_emits(event: WindowEvent)
    requires
        event.change_kind is Other,
    ensures
        spec_should_emit(event) == None::<WindowState>,
{
}

/// A raw change string that is neither `"focus"` nor `"title"` — any
/// unknown value included — classifies as `Other` and never emits.
pub proof fn lemma_unknown_change_never_emits(change: Seq<char>, window: WindowState)
    requires
        change != "focus"@,
        change != "title"@,
    ensures
        spec_should_emit((WindowEvent { change_kind: spec_change_kind(change), window })) == None::<WindowState>,
{
}

} // verus!
