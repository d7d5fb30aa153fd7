use drone::notes::{holds_reserved, lift, NOTE_CLOSE, NOTE_OPEN};
use drone::ports::port_list;
use drone::usage::UsageTrace;
use std::collections::BTreeSet;

fn sorted(mut names: Vec<String>) -> Vec<String> {
    names.sort();
    names
}

#[test]
fn a_new_trace_is_empty() {
    let trace = UsageTrace::new();
    assert!(trace.is_empty());
    assert_eq!(trace.len(), 0);
    assert_eq!(trace.snapshot(), Vec::<String>::new());
}

#[test]
fn after_clearing_the_snapshot_is_empty() {
    let mut trace = UsageTrace::new();
    trace.record("x");
    trace.record("y");
    trace.clear();
    assert!(trace.is_empty());
    assert_eq!(trace.snapshot(), Vec::<String>::new());
    assert!(!trace.contains("x"));
}

#[test]
fn the_snapshot_holds_what_was_recorded_and_nothing_else() {
    let mut trace = UsageTrace::new();
    trace.record("x");
    trace.record("y");
    assert_eq!(sorted(trace.snapshot()), vec!["x", "y"]);
    assert!(trace.contains("x"));
    assert!(trace.contains("y"));
    assert!(!trace.contains("z"));
    assert_eq!(trace.len(), 2);
}

#[test]
fn the_order_of_recording_leaves_no_mark() {
    let mut first = UsageTrace::new();
    first.record("x");
    first.record("y");
    let mut second = UsageTrace::new();
    second.record("y");
    second.record("x");
    assert_eq!(sorted(first.snapshot()), sorted(second.snapshot()));
}

#[test]
fn a_name_recorded_twice_counts_once() {
    let mut trace = UsageTrace::new();
    trace.record("x");
    trace.record("x");
    trace.record_all(&vec!["x".to_string(), "y".to_string(), "y".to_string()]);
    assert_eq!(trace.len(), 2);
    assert_eq!(sorted(trace.snapshot()), vec!["x", "y"]);
}

#[test]
fn record_all_adds_to_what_is_held() {
    let mut trace = UsageTrace::new();
    trace.record("a");
    trace.record_all(&vec!["b".to_string(), "c".to_string()]);
    assert_eq!(sorted(trace.snapshot()), vec!["a", "b", "c"]);
    trace.record_all(&Vec::new());
    assert_eq!(trace.len(), 3);
}

#[test]
fn notes_are_lifted_out_of_the_text() {
    let raw = format!("a{}x{}b{}y.z{}c", NOTE_OPEN, NOTE_CLOSE, NOTE_OPEN, NOTE_CLOSE);
    let lifted = lift(&raw);
    assert_eq!(lifted.text, "abc");
    assert_eq!(lifted.names, vec!["x", "y.z"]);
}

#[test]
fn text_without_notes_is_kept_as_it_is() {
    let lifted = lift("plain text\nwith lines\n");
    assert_eq!(lifted.text, "plain text\nwith lines\n");
    assert!(lifted.names.is_empty());
    let empty = lift("");
    assert_eq!(empty.text, "");
    assert!(empty.names.is_empty());
}

#[test]
fn a_close_outside_a_note_is_text() {
    let raw = format!("a{}b", NOTE_CLOSE);
    let lifted = lift(&raw);
    assert_eq!(lifted.text, raw);
    assert!(lifted.names.is_empty());
}

#[test]
fn an_open_note_runs_to_the_end() {
    let raw = format!("a{}x", NOTE_OPEN);
    let lifted = lift(&raw);
    assert_eq!(lifted.text, "a");
    assert_eq!(lifted.names, vec!["x"]);
}

#[test]
fn an_open_inside_a_note_belongs_to_the_name() {
    let raw = format!("{}x{}y{}", NOTE_OPEN, NOTE_OPEN, NOTE_CLOSE);
    let lifted = lift(&raw);
    assert_eq!(lifted.text, "");
    assert_eq!(lifted.names, vec![format!("x{}y", NOTE_OPEN)]);
}

#[test]
fn an_empty_note_has_an_empty_name() {
    let raw = format!("{}{}", NOTE_OPEN, NOTE_CLOSE);
    let lifted = lift(&raw);
    assert_eq!(lifted.text, "");
    assert_eq!(lifted.names, vec![""]);
}

#[test]
fn ports_are_listed_in_ascending_order() {
    let mut ports = BTreeSet::new();
    for port in [31, 0, 7, 1, 7] {
        ports.insert(port);
    }
    assert_eq!(port_list(&ports), vec![0, 1, 7, 31]);
    assert_eq!(port_list(&BTreeSet::new()), Vec::<u32>::new());
}

#[test]
fn note_characters_are_found_in_a_text() {
    assert!(holds_reserved("\u{1}"));
    assert!(holds_reserved("abc\u{2}"));
    assert!(holds_reserved("a\u{1}b\u{2}c"));
    assert!(!holds_reserved(""));
    assert!(!holds_reserved("abc\u{3}\n\t"));
}
