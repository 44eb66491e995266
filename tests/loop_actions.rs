use kafka_consumer::{next_action, replay, AbortReason, LoopAction, LoopEvent};

fn message(text: &str) -> LoopEvent {
    LoopEvent::Message { payload: Some(text.as_bytes().to_vec()) }
}

fn absent() -> LoopEvent {
    LoopEvent::Message { payload: None }
}

fn error(detail: &str) -> LoopEvent {
    LoopEvent::DeliveryError { detail: detail.to_string() }
}

#[test]
fn payload_is_printed_as_text() {
    match next_action(&message("héllo")) {
        LoopAction::PrintAndCommit { line } => assert_eq!(line, "héllo"),
        _ => panic!("expected a line"),
    }
}

#[test]
fn empty_payload_prints_an_empty_line() {
    match next_action(&message("")) {
        LoopAction::PrintAndCommit { line } => assert_eq!(line, ""),
        _ => panic!("expected a line"),
    }
}

#[test]
fn absent_payload_continues() {
    assert!(matches!(next_action(&absent()), LoopAction::Continue));
}

#[test]
fn no_message_continues() {
    assert!(matches!(next_action(&LoopEvent::NoMessage), LoopAction::Continue));
}

#[test]
fn delivery_error_warns() {
    match next_action(&error("broker down")) {
        LoopAction::Warn { detail } => assert_eq!(detail, "broker down"),
        _ => panic!("expected a warning"),
    }
}

#[test]
fn invalid_utf8_aborts() {
    let e = LoopEvent::Message { payload: Some(vec![0x68, 0xff, 0x69]) };
    assert!(matches!(next_action(&e), LoopAction::Abort { reason: AbortReason::InvalidUtf8 }));
    let surrogate = LoopEvent::Message { payload: Some(vec![0xed, 0xa0, 0x80]) };
    assert!(matches!(next_action(&surrogate), LoopAction::Abort { reason: AbortReason::InvalidUtf8 }));
}

#[test]
fn refused_commit_aborts() {
    let e = LoopEvent::CommitRefused { detail: "queue full".to_string() };
    match next_action(&e) {
        LoopAction::Abort { reason: AbortReason::CommitRefused { detail } } => assert_eq!(detail, "queue full"),
        _ => panic!("expected an abort"),
    }
}

#[test]
fn hello_absent_world() {
    let t = replay(&vec![message("hello"), absent(), message("world")]);
    assert_eq!(t.lines, vec!["hello".to_string(), "world".to_string()]);
    assert!(t.warnings.is_empty());
    assert!(t.abort.is_none());
}

#[test]
fn lines_follow_delivery_order() {
    let t = replay(&vec![message("c"), message("a"), LoopEvent::NoMessage, message("b")]);
    assert_eq!(t.lines, vec!["c".to_string(), "a".to_string(), "b".to_string()]);
}

#[test]
fn absent_payloads_print_nothing() {
    let t = replay(&vec![absent(), absent()]);
    assert!(t.lines.is_empty());
    assert!(t.warnings.is_empty());
    assert!(t.abort.is_none());
}

#[test]
fn errors_are_logged_and_later_messages_kept() {
    let t = replay(&vec![message("one"), error("e1"), error("e2"), message("two")]);
    assert_eq!(t.lines, vec!["one".to_string(), "two".to_string()]);
    assert_eq!(t.warnings, vec!["e1".to_string(), "e2".to_string()]);
    assert!(t.abort.is_none());
}

#[test]
fn nothing_happens_after_a_stop() {
    let bad = LoopEvent::Message { payload: Some(vec![0xc0, 0x80]) };
    let t = replay(&vec![message("first"), bad, message("second"), error("late")]);
    assert_eq!(t.lines, vec!["first".to_string()]);
    assert!(t.warnings.is_empty());
    assert!(matches!(t.abort, Some(AbortReason::InvalidUtf8)));
}

#[test]
fn empty_run_has_no_output() {
    let t = replay(&Vec::new());
    assert!(t.lines.is_empty());
    assert!(t.warnings.is_empty());
    assert!(t.abort.is_none());
}
