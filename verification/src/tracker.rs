//! The focus tracker: reconciling the initial snapshot and fixing the exact
//! ordered sequence of states a run of the pipeline forwards to the bridge.
//!
//! The worker loop itself performs blocking IPC calls and channel sends and
//! runs outside the library; every decision it takes is made here. The
//! sequence of events a run consumed is finite once the event source has
//! terminated, and `delivered` fixes the forwarded output for it.

use vstd::prelude::*;

use crate::filter::spec_should_emit;
use crate::filter::should_emit;
use crate::window::{WindowEvent, WindowState};

verus! {

/// The first window of the snapshot whose `focused` flag is set, if any.
/// The window manager should report at most one; if it reports several,
/// the first encountered wins by policy.
pub open spec fn first_focused(snapshot: Seq<WindowState>) -> Option<WindowState>
    decreases snapshot.len(),
{
    if snapshot.len() == 0 {
        None
    } else if snapshot[0].focused {
        Some(snapshot[0])
    } else {
        first_focused(snapshot.drop_first())
    }
}

/// What the snapshot contributes to the output: the focused window as a
/// one-element sequence, or nothing.
pub open spec fn seed(snapshot: Seq<WindowState>) -> Seq<WindowState> {
    match first_focused(snapshot) {
        Some(window) => seq![window],
        None => Seq::empty(),
    }
}

/// The states the filter lets through, in arrival order: each accepted
/// event contributes exactly one state, each rejected event none.
pub open spec fn emitted(events: Seq<WindowEvent>) -> Seq<WindowState>
    decreases events.len(),
{
    if events.len() == 0 {
        Seq::empty()
    } else {
        match spec_should_emit(events[0]) {
            Some(window) => seq![window] + emitted(events.drop_first()),
            None => emitted(events.drop_first()),
        }
    }
}

/// Everything one run of the pipeline forwards through the bridge, in
/// order: the snapshot's focused window first, if any, then the filtered
/// live events in arrival order.
pub open spec fn delivered(snapshot: Seq<WindowState>, events: Seq<WindowEvent>) -> Seq<WindowState> {
    seed(snapshot) + emitted(events)
}

/// Scans the snapshot for the first focused window.
pub fn initial_focused(snapshot: Vec<WindowState>) -> (found: Option<WindowState>)
    ensures
        found == first_focused(snapshot@),
{
    let mut rest = snapshot;
    let ghost orig: Seq<WindowState> = rest@;
    while rest.len() > 0
        invariant
            orig == snapshot@,
            first_focused(orig) == first_focused(rest@),
        decreases rest.len(),
    {
        let ghost prev: Seq<WindowState> = rest@;
        let window = rest.remove(0);
        if window.focused {
            proof {
                assert(first_focused(prev) == Some(prev[0]));
            }
            return Some(window);
        }
        proof {
            assert(prev.remove(0) =~= prev.drop_first());
        }
    }
    None
}

/// Runs the whole pipeline on a finished stream: seeds the output with the
/// snapshot's focused window, then filters the events in arrival order.
/// The output is exactly `delivered`, nothing more and nothing reordered.
pub fn process_events(snapshot: Vec<WindowState>, events: Vec<WindowEvent>) -> (out: Vec<WindowState>)
    ensures
        out@ == delivered(snapshot@, events@),
{
    let ghost snap0: Seq<WindowState> = snapshot@;
    let ghost evs0: Seq<WindowEvent> = events@;
    let mut out: Vec<WindowState> = Vec::new();
    match initial_focused(snapshot) {
        Some(window) => {
            out.push(window);
            proof {
                assert(out@ =~= seed(snap0));
            }
        },
        None => {
            proof {
                assert(out@ =~= seed(snap0));
            }
        },
    }
    let mut rest = events;
    while rest.len() > 0
        invariant
            out@ + emitted(rest@) == delivered(snap0, evs0),
        decreases rest.len(),
    {
        let ghost prev: Seq<WindowEvent> = rest@;
        let ghost out_before: Seq<WindowState> = out@;
        let event = rest.remove(0);
        proof {
            assert(prev.remove(0) =~= prev.drop_first());
        }
        match should_emit(event) {
            Some(window) => {
                out.push(window);
                proof {
                    assert(out@ + emitted(rest@) =~= out_before + (seq![window] + emitted(rest@)));
                }
            },
            None => {},
        }
    }
    proof {
        assert(emitted(rest@) =~= Seq::<WindowState>::empty());
        assert(out@ + emitted(rest@) =~= out@);
    }
    out
}

/// When position `at` holds the first focused window of the snapshot, the
/// scan finds exactly that entry.
proof fn lemma_first_focused_at(snapshot: Seq<WindowState>, at: int)
    requires
        0 <= at < snapshot.len(),
        snapshot[at].focused,
        forall|j: int| 0 <= j < at ==> !snapshot[j].focused,
    ensures
        first_focused(snapshot) == Some(snapshot[at]),
    decreases at,
{
    if at > 0 {
        assert(!snapshot[0].focused);
        assert forall|j: int| 0 <= j < at - 1 implies !snapshot.drop_first()[j].focused by {
            assert(!snapshot[j + 1].focused);
        }
        lemma_first_focused_at(snapshot.drop_first(), at - 1);
        assert(snapshot.drop_first()[at - 1] == snapshot[at]);
    }
}

/// When no window of the snapshot is focused, the scan finds nothing.
proof fn lemma_first_focused_none(snapshot: Seq<WindowState>)
    requires
        forall|j: int| 0 <= j < snapshot.len() ==> !snapshot[j].focused,
    ensures
        first_focused(snapshot) == None::<WindowState>,
    decreases snapshot.len(),
{
    if snapshot.len() > 0 {
        assert(!snapshot[0].focused);
        assert forall|j: int| 0 <= j < snapshot.drop_first().len() implies !snapshot.drop_first()[j].focused by {
            assert(!snapshot[j + 1].focused);
        }
        lemma_first_focused_none(snapshot.drop_first());
    }
}

/// When the snapshot holds exactly one focused entry, the very first value
/// a run delivers is that entry, before anything the live stream yields.
pub proof fn lemma_single_focused_delivered_first(
    snapshot: Seq<WindowState>,
    events: Seq<WindowEvent>,
    at: int,
)
    requires
        0 <= at < snapshot.len(),
        snapshot[at].focused,
        forall|j: int| 0 <= j < snapshot.len() && j != at ==> !snapshot[j].focused,
    ensures
        delivered(snapshot, events).len() >= 1,
        delivered(snapshot, events)[0] == snapshot[at],
{
    lemma_first_focused_at(snapshot, at);
}

/// When the snapshot holds no focused window, nothing is seeded: whatever a
/// run delivers comes from the live stream alone.
pub proof fn lemma_no_focused_no_seed(snapshot: Seq<WindowState>, events: Seq<WindowEvent>)
    requires
        forall|j: int| 0 <= j < snapshot.len() ==> !snapshot[j].focused,
    ensures
        delivered(snapshot, events) == emitted(events),
{
    lemma_first_focused_none(snapshot);
    assert(seed(snapshot) + emitted(events) =~= emitted(events));
}

/// The filtered output of a stream splits exactly as the stream does:
/// everything the earlier events contribute precedes everything the later
/// events contribute, so delivery order always matches production order.
pub proof fn lemma_emitted_append(earlier: Seq<WindowEvent>, later: Seq<WindowEvent>)
    ensures
        emitted(earlier + later) == emitted(earlier) + emitted(later),
    decreases earlier.len(),
{
    if earlier.len() == 0 {
        assert(earlier + later =~= later);
        assert(emitted(earlier) + emitted(later) =~= emitted(later));
    } else {
        assert((earlier + later).len() > 0);
        assert((earlier + later)[0] == earlier[0]);
        assert((earlier + later).drop_first() =~= earlier.drop_first() + later);
        lemma_emitted_append(earlier.drop_first(), later);
        match spec_should_emit(earlier[0]) {
            Some(window) => {
                assert(seq![window] + (emitted(earlier.drop_first()) + emitted(later)) =~= (
                seq![window] + emitted(earlier.drop_first())) + emitted(later));
            },
            None => {},
        }
    }
}

/// A run on a longer stream first delivers exactly what it delivers on the
/// shorter one: nothing a later event contributes is ever reordered before
/// an earlier delivery.
pub proof fn lemma_delivery_order(
    snapshot: Seq<WindowState>,
    earlier: Seq<WindowEvent>,
    later: Seq<WindowEvent>,
)
    ensures
        delivered(snapshot, earlier + later) == delivered(snapshot, earlier) + emitted(later),
{
    lemma_emitted_append(earlier, later);
    assert(seed(snapshot) + (emitted(earlier) + emitted(later)) =~= (seed(snapshot) + emitted(
    earlier)) + emitted(later));
}

/// Each event yields at most one delivery: once the event source has
/// terminated after finitely many events, a run's output is fixed and
/// bounded by the snapshot's seed plus one state per event.
pub proof fn lemma_at_most_one_per_event(snapshot: Seq<WindowState>, events: Seq<WindowEvent>)
    ensures
        emitted(events).len() <= events.len(),
        delivered(snapshot, events).len() <= seed(snapshot).len() + events.len(),
    decreases events.len(),
{
    if events.len() > 0 {
        lemma_at_most_one_per_event(snapshot, events.drop_first());
    }
}

} // verus!
