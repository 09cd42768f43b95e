//! The command execution state machine and its transitions.
//!
//! Exactly one shared instance of [`CommandState`] describes what the system
//! is doing right now. The dispatcher owns the `NotRunning -> Running ->
//! NotRunning` transitions; the prompt protocol owns `Running -> Choice ->
//! Running`. The callers hold the state behind a lock and release it before
//! blocking, so every transition here is a plain read-modify-write.

use crate::console::{Console, MessageType};
use vstd::prelude::*;

verus! {

/// What the system is doing right now.
///
/// `Choice` carries the prompt shown to the operator and the set of valid
/// single-character answers. The one-shot responder that delivers the answer
/// lives beside the state, with the caller that blocks on it.
pub enum CommandState {
    /// No command executing.
    NotRunning,
    /// A command's algorithm is executing and not blocked on a choice.
    Running,
    /// The algorithm is blocked until the operator picks one of
    /// `available_choices`.
    Choice { available_choices: Vec<char>, message: String },
}

/// The allowed transitions of the state machine. Anything else is a broken
/// single-flight invariant, a programming error the transition functions
/// rule out by precondition rather than perform.
pub open spec fn step_allowed(pre: CommandState, post: CommandState) -> bool {
    ||| (pre is NotRunning && post is Running)  // dispatcher starts a command
    ||| (pre is Running && post matches CommandState::Choice { .. })  // worker asks a choice
    ||| (pre matches CommandState::Choice { .. } && post is Running)  // delivery resumes the worker
    ||| (pre is Running && post is NotRunning)  // dispatcher observes completion
}

/// A pending choice can be left only by resuming the worker: no allowed
/// transition takes `Choice` anywhere but `Running`. In particular the
/// machine can never pass from a pending choice to `NotRunning`, where a
/// second command could be admitted.
pub proof fn lemma_choice_resumes_only_to_running(pre: CommandState, post: CommandState)
    requires
        pre matches CommandState::Choice { .. },
        step_allowed(pre, post),
    ensures
        post is Running,
{
}

/// The error line reported when a start is attempted while a command is
/// already active.
pub const BUSY_MESSAGE: &'static str = "already running";

/// Single-flight start: from `NotRunning` the state becomes `Running` and the
/// caller may launch the worker; from any other state the attempt is rejected,
/// the state is unchanged, and exactly one error line lands in the console.
pub fn try_start(state: &mut CommandState, console: &mut Console) -> (started: bool)
    ensures
        started == (*old(state) is NotRunning),
        started ==> step_allowed(*old(state), *final(state)),
        started ==> *final(state) is Running && *final(console) == *old(console),
        !started ==> {
            &&& *final(state) == *old(state)
            &&& final(console).full_history() == old(console).full_history().push(
                (MessageType::Error, BUSY_MESSAGE@),
            )
            &&& old(console).wf() ==> final(console).wf()
        },
{
    match state {
        CommandState::NotRunning => {
            *state = CommandState::Running;
            true
        },
        _ => {
            console.add_error(BUSY_MESSAGE.to_owned());
            false
        },
    }
}

/// Publishes a pending choice for the UI. Only the prompt protocol performs
/// this transition, and only from `Running`.
pub fn begin_choice(state: &mut CommandState, available_choices: Vec<char>, message: String)
    requires
        *old(state) is Running,
    ensures
        *final(state) == (CommandState::Choice { available_choices, message }),
        step_allowed(*old(state), *final(state)),
{
    *state = CommandState::Choice { available_choices, message };
}

/// Delivers the operator's answer and resumes the worker: the state returns
/// to `Running` (never `NotRunning`) and the answer comes back unchanged.
/// Delivery and resumption are atomic with respect to the state.
pub fn deliver_choice(state: &mut CommandState, answer: char) -> (r: char)
    requires
        *old(state) matches CommandState::Choice { available_choices, .. }
            && available_choices@.contains(answer),
    ensures
        *final(state) == CommandState::Running,
        step_allowed(*old(state), *final(state)),
        r == answer,
{
    *state = CommandState::Running;
    answer
}

/// Abandons a pending choice whose responder was torn down before an answer
/// arrived: the worker resumes with `Running` and reports the failure itself.
pub fn cancel_choice(state: &mut CommandState)
    requires
        *old(state) matches CommandState::Choice { .. },
    ensures
        *final(state) == CommandState::Running,
        step_allowed(*old(state), *final(state)),
{
    *state = CommandState::Running;
}

/// Dispatcher epilogue once the worker's execution handle completes: the
/// state returns to `NotRunning`, and a failure becomes exactly one error
/// line in the console, never a crash.
pub fn finish(state: &mut CommandState, console: &mut Console, result: Result<(), String>)
    requires
        *old(state) is Running,
    ensures
        *final(state) == CommandState::NotRunning,
        step_allowed(*old(state), *final(state)),
        match result {
            Ok(_) => *final(console) == *old(console),
            Err(message) => {
                &&& final(console).full_history() == old(console).full_history().push(
                    (MessageType::Error, message@),
                )
                &&& old(console).wf() ==> final(console).wf()
            },
        },
{
    *state = CommandState::NotRunning;
    if let Err(message) = result {
        console.add_error(message);
    }
}

/// The label the UI puts on the button for a reconciliation choice; `None`
/// for a character outside the canonical set, which the UI labels itself.
pub fn choice_button_label(choice: char) -> (label: Option<&'static str>)
    ensures
        match label {
            Some(text) => {
                &&& choice == '1' ==> text@ == "1: PCからDBへ上書き"@
                &&& choice == '2' ==> text@ == "2: DBからPCへ上書き"@
                &&& choice == '0' ==> text@ == "0: 解決せずに次へ"@
                &&& choice == '-' ==> text@ == "-: 解決処理を中止"@
            },
            None => true,
        },
        label is Some <==> (choice == '1' || choice == '2' || choice == '0' || choice == '-'),
{
    match choice {
        '1' => Some("1: PCからDBへ上書き"),
        '2' => Some("2: DBからPCへ上書き"),
        '0' => Some("0: 解決せずに次へ"),
        '-' => Some("-: 解決処理を中止"),
        _ => None,
    }
}

} // verus!
