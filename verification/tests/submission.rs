use native_ui::submission::{
    on_close_requested, on_submit, Reaction, SubmissionState, MAIN_WINDOW, NO_SELECTION,
};

#[test]
fn new_state_is_pending() {
    let state = SubmissionState::new();
    assert!(!state.is_reported());
}

#[test]
fn try_set_succeeds_once() {
    let mut state = SubmissionState::new();
    assert!(state.try_set());
    assert!(state.is_reported());
    assert!(!state.try_set());
    assert!(!state.try_set());
    assert!(state.is_reported());
}

#[test]
fn constants_have_their_exact_text() {
    assert_eq!(MAIN_WINDOW, "main");
    assert_eq!(NO_SELECTION, "{\"choice\":null,\"index\":-1,\"custom_input\":null}");
    assert_eq!(NO_SELECTION.len(), 46);
}

#[test]
fn first_submission_is_written_unchanged() {
    let mut state = SubmissionState::new();
    let reaction: Reaction = on_submit(&mut state, "{\"choice\":\"b\",\"index\":1,\"custom_input\":null}");
    assert_eq!(
        reaction.line,
        Some(String::from("{\"choice\":\"b\",\"index\":1,\"custom_input\":null}"))
    );
    assert!(reaction.close_main_window);
    assert!(state.is_reported());
}

#[test]
fn second_submission_is_dropped() {
    let mut state = SubmissionState::new();
    let first = on_submit(&mut state, "first");
    let second = on_submit(&mut state, "second");
    assert_eq!(first.line, Some(String::from("first")));
    assert_eq!(second.line, None);
    assert!(second.close_main_window);
    assert!(state.is_reported());
}

#[test]
fn submission_is_not_validated_or_trimmed() {
    let mut state = SubmissionState::new();
    let reaction = on_submit(&mut state, "  not json \u{e9}\n");
    assert_eq!(reaction.line, Some(String::from("  not json \u{e9}\n")));
}

#[test]
fn empty_submission_still_claims_the_latch() {
    let mut state = SubmissionState::new();
    let reaction = on_submit(&mut state, "");
    assert_eq!(reaction.line, Some(String::new()));
    assert!(state.is_reported());
    assert_eq!(on_close_requested(&mut state, "main").line, None);
}

#[test]
fn closing_main_window_while_pending_reports_no_selection() {
    let mut state = SubmissionState::new();
    let reaction = on_close_requested(&mut state, "main");
    assert_eq!(
        reaction.line,
        Some(String::from("{\"choice\":null,\"index\":-1,\"custom_input\":null}"))
    );
    assert!(!reaction.close_main_window);
    assert!(state.is_reported());
}

#[test]
fn closing_main_window_twice_reports_once() {
    let mut state = SubmissionState::new();
    let first = on_close_requested(&mut state, MAIN_WINDOW);
    let second = on_close_requested(&mut state, MAIN_WINDOW);
    assert_eq!(first.line, Some(String::from(NO_SELECTION)));
    assert_eq!(second.line, None);
    assert!(state.is_reported());
}

#[test]
fn closing_after_submission_writes_nothing() {
    let mut state = SubmissionState::new();
    let submitted = on_submit(&mut state, "picked");
    let closed = on_close_requested(&mut state, "main");
    assert_eq!(submitted.line, Some(String::from("picked")));
    assert_eq!(closed.line, None);
    assert!(!closed.close_main_window);
}

#[test]
fn submission_after_close_writes_nothing() {
    let mut state = SubmissionState::new();
    let closed = on_close_requested(&mut state, "main");
    let submitted = on_submit(&mut state, "too late");
    assert_eq!(closed.line, Some(String::from(NO_SELECTION)));
    assert_eq!(submitted.line, None);
    assert!(submitted.close_main_window);
}

#[test]
fn closing_another_window_leaves_the_latch_pending() {
    let mut state = SubmissionState::new();
    let reaction = on_close_requested(&mut state, "settings");
    assert_eq!(reaction.line, None);
    assert!(!reaction.close_main_window);
    assert!(!state.is_reported());
    let later = on_submit(&mut state, "still counts");
    assert_eq!(later.line, Some(String::from("still counts")));
}

#[test]
fn window_label_is_compared_exactly() {
    let labels = ["", "Main", "main ", " main", "mai", "main2", "MAIN"];
    for label in labels {
        let mut state = SubmissionState::new();
        let reaction = on_close_requested(&mut state, label);
        assert_eq!(reaction.line, None);
        assert!(!state.is_reported());
    }
}

#[test]
fn a_run_writes_one_line_whatever_arrives() {
    let mut state = SubmissionState::new();
    let mut lines: Vec<String> = Vec::new();
    let events = [
        (false, "side"),
        (true, "one"),
        (false, "main"),
        (true, "two"),
        (false, "main"),
        (true, "three"),
        (false, "side"),
    ];
    for (is_submission, text) in events {
        let reaction = if is_submission {
            on_submit(&mut state, text)
        } else {
            on_close_requested(&mut state, text)
        };
        if let Some(line) = reaction.line {
            lines.push(line);
        }
    }
    assert_eq!(lines, vec![String::from("one")]);
    assert!(state.is_reported());
}

#[test]
fn a_run_closed_first_writes_only_the_no_selection_line() {
    let mut state = SubmissionState::new();
    let mut lines: Vec<String> = Vec::new();
    let events = [(false, "main"), (true, "one"), (false, "main"), (true, "two")];
    for (is_submission, text) in events {
        let reaction = if is_submission {
            on_submit(&mut state, text)
        } else {
            on_close_requested(&mut state, text)
        };
        if let Some(line) = reaction.line {
            lines.push(line);
        }
    }
    assert_eq!(lines, vec![String::from(NO_SELECTION)]);
}

#[test]
fn a_run_without_reporting_events_writes_nothing() {
    let mut state = SubmissionState::new();
    let mut written: usize = 0;
    for label in ["side", "about", "side"] {
        if on_close_requested(&mut state, label).line.is_some() {
            written += 1;
        }
    }
    assert_eq!(written, 0);
    assert!(!state.is_reported());
}
