use murack_sync::command_state::{
    begin_choice, cancel_choice, choice_button_label, deliver_choice, finish, try_start,
    CommandState, BUSY_MESSAGE,
};
use murack_sync::console::{Console, MessageType};
use murack_sync::cui::{answer_allowed, pending_choice};

#[test]
fn start_from_idle_runs() {
    let mut state = CommandState::NotRunning;
    let mut console = Console::default();
    let started = try_start(&mut state, &mut console);
    assert!(started);
    assert!(matches!(state, CommandState::Running));
    assert_eq!(console.len(), 0);
}

#[test]
fn start_while_running_is_rejected_with_one_error_line() {
    let mut state = CommandState::Running;
    let mut console = Console::default();
    let started = try_start(&mut state, &mut console);
    assert!(!started);
    assert!(matches!(state, CommandState::Running));
    assert_eq!(console.len(), 1);
    assert_eq!(console.message_at(0).message_type, MessageType::Error);
    assert_eq!(console.message_at(0).text, BUSY_MESSAGE);
}

#[test]
fn start_while_awaiting_choice_is_rejected_and_choice_unaffected() {
    let mut state = CommandState::Choice {
        available_choices: vec!['1', '0', '-'],
        message: String::from("how to resolve?"),
    };
    let mut console = Console::default();
    let started = try_start(&mut state, &mut console);
    assert!(!started);
    assert_eq!(console.len(), 1);
    assert_eq!(console.message_at(0).message_type, MessageType::Error);
    assert_eq!(console.message_at(0).text, BUSY_MESSAGE);
    // The pending choice is exactly as it was.
    match &state {
        CommandState::Choice { available_choices, message } => {
            assert_eq!(available_choices, &vec!['1', '0', '-']);
            assert_eq!(message, "how to resolve?");
        }
        _ => panic!("state changed"),
    }
}

#[test]
fn repeated_rejected_starts_append_one_line_each() {
    let mut state = CommandState::Running;
    let mut console = Console::default();
    assert!(!try_start(&mut state, &mut console));
    assert!(!try_start(&mut state, &mut console));
    assert!(!try_start(&mut state, &mut console));
    assert_eq!(console.len(), 3);
}

#[test]
fn choice_round_trip_returns_the_delivered_answer() {
    let mut state = CommandState::Running;
    begin_choice(&mut state, vec!['y', 'n'], String::from("continue?"));
    match &state {
        CommandState::Choice { available_choices, message } => {
            assert_eq!(available_choices, &vec!['y', 'n']);
            assert_eq!(message, "continue?");
        }
        _ => panic!("choice was not published"),
    }
    let delivered = deliver_choice(&mut state, 'y');
    assert_eq!(delivered, 'y');
    assert!(matches!(state, CommandState::Running));
}

#[test]
fn abandoned_choice_stays_pending_and_blocks_starts() {
    let mut state = CommandState::Running;
    let mut console = Console::default();
    begin_choice(&mut state, vec!['y', 'n'], String::from("continue?"));
    // Nobody ever answers: the state stays a pending choice, and no other
    // command may start.
    assert!(!try_start(&mut state, &mut console));
    assert!(matches!(state, CommandState::Choice { .. }));
    assert_eq!(console.len(), 1);
}

#[test]
fn cancelled_choice_resumes_running() {
    let mut state = CommandState::Running;
    begin_choice(&mut state, vec!['y', 'n'], String::from("continue?"));
    cancel_choice(&mut state);
    assert!(matches!(state, CommandState::Running));
}

#[test]
fn finish_success_returns_to_idle_silently() {
    let mut state = CommandState::Running;
    let mut console = Console::default();
    finish(&mut state, &mut console, Ok(()));
    assert!(matches!(state, CommandState::NotRunning));
    assert_eq!(console.len(), 0);
}

#[test]
fn finish_failure_reports_one_error_line() {
    let mut state = CommandState::Running;
    let mut console = Console::default();
    console.add_log(String::from("working"));
    finish(&mut state, &mut console, Err(String::from("disk full")));
    assert!(matches!(state, CommandState::NotRunning));
    assert_eq!(console.len(), 2);
    assert_eq!(console.message_at(1).message_type, MessageType::Error);
    assert_eq!(console.message_at(1).text, "disk full");
}

#[test]
fn choice_button_labels_cover_the_canonical_set() {
    assert_eq!(choice_button_label('1'), Some("1: PCからDBへ上書き"));
    assert_eq!(choice_button_label('2'), Some("2: DBからPCへ上書き"));
    assert_eq!(choice_button_label('0'), Some("0: 解決せずに次へ"));
    assert_eq!(choice_button_label('-'), Some("-: 解決処理を中止"));
    assert_eq!(choice_button_label('y'), None);
}

#[test]
fn only_offered_answers_are_allowed() {
    let state = CommandState::Choice {
        available_choices: vec!['1', '0', '-'],
        message: String::from("pick one"),
    };
    assert!(answer_allowed(&state, '1'));
    assert!(answer_allowed(&state, '0'));
    assert!(answer_allowed(&state, '-'));
    assert!(!answer_allowed(&state, '2'));
    assert!(!answer_allowed(&CommandState::Running, '1'));
    assert!(!answer_allowed(&CommandState::NotRunning, '1'));
}

#[test]
fn pending_choice_reports_a_published_choice() {
    let state = CommandState::Choice {
        available_choices: vec!['1', '0'],
        message: String::from("pick one"),
    };
    let snapshot = pending_choice(&state);
    assert!(snapshot.waiting_for_input);
    assert_eq!(snapshot.available_choices, vec!['1', '0']);
    assert_eq!(snapshot.message, "pick one");
    assert!(snapshot.selected_choice.is_none());
}

#[test]
fn pending_choice_is_empty_outside_a_choice() {
    let snapshot = pending_choice(&CommandState::Running);
    assert!(!snapshot.waiting_for_input);
    assert!(snapshot.available_choices.is_empty());
    assert_eq!(snapshot.message, "");
    assert!(snapshot.selected_choice.is_none());
}
