use focused::tracker::{initial_focused, process_events};
use focused::window::{ChangeKind, WindowEvent, WindowState};

fn window(id: &str, name: Option<&str>, focused: bool) -> WindowState {
    WindowState { id: id.to_string(), name: name.map(|n| n.to_string()), focused }
}

fn focus(w: WindowState) -> WindowEvent {
    WindowEvent { change_kind: ChangeKind::Focus, window: w }
}

fn title(w: WindowState) -> WindowEvent {
    WindowEvent { change_kind: ChangeKind::Title, window: w }
}

#[test]
fn snapshot_seed_is_delivered_first() {
    let snapshot = vec![
        window("3", Some("mail"), false),
        window("7", Some("editor"), true),
        window("9", None, false),
    ];
    let events = vec![focus(window("9", None, true))];
    let out = process_events(snapshot, events);
    assert_eq!(out.len(), 2);
    assert_eq!(out[0], window("7", Some("editor"), true));
    assert_eq!(out[1], window("9", None, true));
}

#[test]
fn snapshot_without_focus_seeds_nothing() {
    let snapshot = vec![window("1", None, false), window("2", None, false)];
    let events = vec![title(window("2", Some("logs"), true))];
    let out = process_events(snapshot, events);
    assert_eq!(out, vec![window("2", Some("logs"), true)]);
}

#[test]
fn empty_snapshot_and_stream_deliver_nothing() {
    let out = process_events(Vec::new(), Vec::new());
    assert!(out.is_empty());
}

#[test]
fn scenario_sequence_in_order() {
    let a = window("a", Some("files"), true);
    let b = window("b", Some("music"), false);
    let c = window("c", Some("shell"), false);
    let c_focused = window("c", Some("shell"), true);
    let events = vec![
        focus(a.clone()),
        title(b),
        focus(c.clone()),
        title(c_focused.clone()),
    ];
    let out = process_events(Vec::new(), events);
    assert_eq!(out, vec![a, c, c_focused]);
}

#[test]
fn initial_focused_finds_single_entry() {
    let snapshot = vec![
        window("1", None, false),
        window("7", Some("editor"), true),
        window("2", None, false),
    ];
    assert_eq!(initial_focused(snapshot), Some(window("7", Some("editor"), true)));
}

#[test]
fn initial_focused_first_of_several_wins() {
    let snapshot = vec![
        window("4", Some("left"), true),
        window("5", Some("right"), true),
    ];
    assert_eq!(initial_focused(snapshot), Some(window("4", Some("left"), true)));
}

#[test]
fn initial_focused_none_when_nothing_focused() {
    let snapshot = vec![window("1", None, false), window("2", None, false)];
    assert_eq!(initial_focused(snapshot), None);
}

#[test]
fn stream_end_fixes_output() {
    let seedling = window("7", Some("editor"), true);
    let snapshot = vec![seedling.clone()];
    let out = process_events(snapshot, Vec::new());
    assert_eq!(out, vec![seedling]);
}

#[test]
fn identical_consecutive_states_not_deduplicated() {
    let w = window("8", Some("same"), true);
    let events = vec![title(w.clone()), title(w.clone())];
    let out = process_events(Vec::new(), events);
    assert_eq!(out, vec![w.clone(), w]);
}

#[test]
fn split_stream_keeps_production_order() {
    let a = window("a", None, true);
    let b = window("b", None, true);
    let c = window("c", None, true);
    let first_batch = vec![focus(a.clone()), focus(b.clone())];
    let second_batch = vec![focus(c.clone())];
    let mut whole = first_batch.clone();
    whole.extend(second_batch.clone());
    let out_whole = process_events(Vec::new(), whole);
    let mut out_split = process_events(Vec::new(), first_batch);
    out_split.extend(process_events(Vec::new(), second_batch));
    assert_eq!(out_whole, out_split);
    assert_eq!(out_whole, vec![a, b, c]);
}
