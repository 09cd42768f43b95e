use murack_sync::command_state::CommandState;
use murack_sync::console::{Console, MessageType};
use murack_sync::cui::{CuiError, ScriptedCui};
use murack_sync::decimal::decimal_string;
use murack_sync::reconcile::{confirm_continue, reconcile, report_count};

fn three_discrepancies() -> Vec<String> {
    vec![
        String::from("track A differs"),
        String::from("track B differs"),
        String::from("track C differs"),
    ]
}

#[test]
fn abort_on_first_prompt_processes_nothing_else() {
    let discrepancies = three_discrepancies();
    let mut cui = ScriptedCui::new(Console::default(), CommandState::Running, vec!['-']);
    let r = reconcile(&mut cui, &discrepancies);
    let rep = r.expect("abort is a success");
    assert!(rep.aborted);
    assert!(rep.decisions.is_empty());
    // Exactly one prompt was issued and one context line emitted.
    assert_eq!(cui.next_answer, 1);
    assert_eq!(cui.console.len(), 1);
    assert_eq!(cui.console.message_at(0).text, "track A differs");
    assert!(matches!(cui.state, CommandState::Running));
}

#[test]
fn full_run_records_one_decision_per_discrepancy() {
    let discrepancies = three_discrepancies();
    let mut cui = ScriptedCui::new(Console::default(), CommandState::Running, vec!['1', '0', '1']);
    let r = reconcile(&mut cui, &discrepancies);
    let rep = r.expect("run succeeds");
    assert!(!rep.aborted);
    assert_eq!(rep.decisions, vec!['1', '0', '1']);
    assert_eq!(cui.console.len(), 3);
    assert_eq!(cui.console.message_at(0).text, "track A differs");
    assert_eq!(cui.console.message_at(1).text, "track B differs");
    assert_eq!(cui.console.message_at(2).text, "track C differs");
    assert_eq!(cui.console.message_at(2).message_type, MessageType::Log);
}

#[test]
fn abort_midway_keeps_earlier_decisions() {
    let discrepancies = three_discrepancies();
    let mut cui = ScriptedCui::new(Console::default(), CommandState::Running, vec!['0', '-']);
    let r = reconcile(&mut cui, &discrepancies);
    let rep = r.expect("abort is a success");
    assert!(rep.aborted);
    assert_eq!(rep.decisions, vec!['0']);
    assert_eq!(cui.console.len(), 2);
}

#[test]
fn empty_discrepancy_list_asks_nothing() {
    let discrepancies: Vec<String> = Vec::new();
    let mut cui = ScriptedCui::new(Console::default(), CommandState::Running, Vec::new());
    let r = reconcile(&mut cui, &discrepancies);
    let rep = r.expect("run succeeds");
    assert!(!rep.aborted);
    assert!(rep.decisions.is_empty());
    assert_eq!(cui.console.len(), 0);
    assert_eq!(cui.next_answer, 0);
}

#[test]
fn prompt_failure_propagates_as_the_command_failure() {
    let discrepancies = three_discrepancies();
    // The script runs dry after the first answer: the second prompt fails.
    let mut cui = ScriptedCui::new(Console::default(), CommandState::Running, vec!['1']);
    let r = reconcile(&mut cui, &discrepancies);
    assert_eq!(r.map(|rep| rep.aborted), Err(CuiError::ChannelClosed));
    // The failing prompt's context line was already emitted.
    assert_eq!(cui.console.len(), 2);
}

#[test]
fn invalid_scripted_answer_fails_the_run() {
    let discrepancies = three_discrepancies();
    let mut cui = ScriptedCui::new(Console::default(), CommandState::Running, vec!['x']);
    let r = reconcile(&mut cui, &discrepancies);
    assert_eq!(r.map(|rep| rep.aborted), Err(CuiError::InvalidAnswer));
}

#[test]
fn declined_confirmation_logs_start_and_aborted() {
    let mut cui = ScriptedCui::new(Console::default(), CommandState::Running, vec!['n']);
    let r = confirm_continue(&mut cui);
    assert_eq!(r, Ok(false));
    assert_eq!(cui.console.len(), 2);
    assert_eq!(cui.console.message_at(0).text, "start");
    assert_eq!(cui.console.message_at(1).text, "aborted");
}

#[test]
fn decimal_rendering_has_no_leading_zeroes() {
    assert_eq!(decimal_string(0), "0");
    assert_eq!(decimal_string(7), "7");
    assert_eq!(decimal_string(10), "10");
    assert_eq!(decimal_string(305), "305");
    assert_eq!(decimal_string(1000), "1000");
}

#[test]
fn count_report_lands_in_the_console() {
    let mut cui = ScriptedCui::new(Console::default(), CommandState::Running, Vec::new());
    report_count(&mut cui, 3);
    assert_eq!(cui.console.len(), 1);
    assert_eq!(cui.console.message_at(0).message_type, MessageType::Log);
    assert_eq!(cui.console.message_at(0).text, "3 件の齟齬が見つかりました");
}

#[test]
fn accepted_confirmation_logs_only_start() {
    let mut cui = ScriptedCui::new(Console::default(), CommandState::Running, vec!['y']);
    let r = confirm_continue(&mut cui);
    assert_eq!(r, Ok(true));
    assert_eq!(cui.console.len(), 1);
    assert_eq!(cui.console.message_at(0).text, "start");
}
