//! The interactive prompt protocol: the capability surface a domain
//! algorithm uses to emit lines and to request operator choices, together
//! with a single-threaded client that drives the state machine against a
//! scripted operator.

use crate::command_state::{begin_choice, cancel_choice, deliver_choice, CommandState};
use crate::console::{Console, MessageType};
use vstd::prelude::*;

verus! {

/// Failure of the prompt protocol, typed so the algorithm can propagate it
/// upward as the command's overall failure instead of panicking.
#[derive(Clone, Copy, Debug, PartialEq, Eq, Structural)]
pub enum CuiError {
    /// The response channel was torn down before an answer arrived.
    ChannelClosed,
    /// The delivered answer is not a member of the allowed set.
    InvalidAnswer,
}

impl CuiError {
    /// Human-readable description, for a console error line.
    pub fn message(&self) -> (text: &'static str)
        ensures
            *self is ChannelClosed ==> text@ == "選択肢の応答チャンネルが閉じられました"@,
            *self is InvalidAnswer ==> text@ == "選択肢にない回答が届きました"@,
    {
        match self {
            CuiError::ChannelClosed => "選択肢の応答チャンネルが閉じられました",
            CuiError::InvalidAnswer => "選択肢にない回答が届きました",
        }
    }
}

/// What the UI shows for the current frame: whether a choice is pending,
/// and if so the allowed answers and the prompt. `selected_choice` is where
/// a renderer records the operator's click before delivering it.
pub struct ChoiceState {
    pub available_choices: Vec<char>,
    pub selected_choice: Option<char>,
    pub waiting_for_input: bool,
    pub message: String,
}

impl Default for ChoiceState {
    /// No pending choice, nothing selected.
    fn default() -> (c: ChoiceState)
        ensures
            c.available_choices@ == Seq::<char>::empty(),
            c.selected_choice is None,
            !c.waiting_for_input,
            c.message@ == Seq::<char>::empty(),
    {
        ChoiceState {
            available_choices: Vec::new(),
            selected_choice: None,
            waiting_for_input: false,
            message: String::new(),
        }
    }
}

/// The read-only snapshot of the command state that a renderer needs for one
/// frame: a pending choice is reported with its answers and prompt.
pub fn pending_choice(state: &CommandState) -> (c: ChoiceState)
    ensures
        c.waiting_for_input == (*state matches CommandState::Choice { .. }),
        c.selected_choice is None,
        match *state {
            CommandState::Choice { available_choices, message } => {
                &&& c.available_choices@ == available_choices@
                &&& c.message@ == message@
            },
            _ => {
                &&& c.available_choices@ == Seq::<char>::empty()
                &&& c.message@ == Seq::<char>::empty()
            },
        },
{
    match state {
        CommandState::Choice { available_choices, message } => ChoiceState {
            available_choices: vstd::slice::slice_to_vec(available_choices.as_slice()),
            selected_choice: None,
            waiting_for_input: true,
            message: message.clone(),
        },
        _ => ChoiceState::default(),
    }
}

/// Whether delivering `answer` is valid right now: a choice is pending and
/// `answer` is one of its allowed characters. The UI guards every delivery
/// with this, so only members of the allowed set ever reach the responder.
pub fn answer_allowed(state: &CommandState, answer: char) -> (r: bool)
    ensures
        r == (*state matches CommandState::Choice { available_choices, .. }
            && available_choices@.contains(answer)),
{
    match state {
        CommandState::Choice { available_choices, .. } => contains_char(
            available_choices.as_slice(),
            answer,
        ),
        _ => false,
    }
}

/// The capability surface a domain algorithm runs against: emit log and
/// error lines, and suspend on an operator choice. The two spec functions
/// model everything observable through the surface.
pub trait SimpleCui {
    /// Model: every line emitted so far, oldest first.
    spec fn log_history(&self) -> Seq<(MessageType, Seq<char>)>;

    /// Model: every answer delivered so far, oldest first.
    spec fn answers(&self) -> Seq<char>;

    /// Emits a log line; always succeeds and never blocks.
    fn out_log(&mut self, message: &str)
        ensures
            final(self).log_history() == old(self).log_history().push(
                (MessageType::Log, message@),
            ),
            final(self).answers() == old(self).answers(),
    ;

    /// Emits an error line; always succeeds and never blocks.
    fn out_error(&mut self, message: &str)
        ensures
            final(self).log_history() == old(self).log_history().push(
                (MessageType::Error, message@),
            ),
            final(self).answers() == old(self).answers(),
    ;

    /// Suspends until the operator picks one of `cases`; the returned
    /// character is guaranteed to be a member of `cases`. Fails with a typed
    /// error, never a panic, if no answer can arrive.
    fn input_case(&mut self, cases: &[char], message: &str) -> (r: Result<char, CuiError>)
        ensures
            final(self).log_history() == old(self).log_history(),
            match r {
                Ok(choice) => cases@.contains(choice) && final(self).answers() == old(
                    self,
                ).answers().push(choice),
                Err(_) => final(self).answers() == old(self).answers(),
            },
    ;
}

/// Whether `cases` holds `c`.
fn contains_char(cases: &[char], c: char) -> (r: bool)
    ensures
        r == cases@.contains(c),
{
    let mut i: usize = 0;
    while i < cases.len()
        invariant
            i <= cases@.len(),
            forall|j: int| 0 <= j < i ==> cases@[j] != c,
        decreases cases@.len() - i,
    {
        if *vstd::slice::slice_index_get(cases, i) == c {
            return true;
        }
        i = i + 1;
    }
    false
}

/// A prompt client whose operator is a script: it owns the console and the
/// command state for a single-threaded run and answers every choice with the
/// next scripted character. Each `input_case` call drives the state through
/// the full `Running -> Choice -> Running` round trip.
pub struct ScriptedCui {
    pub console: Console,
    pub state: CommandState,
    pub script: Vec<char>,
    pub next_answer: usize,
    pub answered: Ghost<Seq<char>>,
}

impl ScriptedCui {
    /// Takes ownership of the shared pieces for a single-threaded run.
    pub fn new(console: Console, state: CommandState, script: Vec<char>) -> (cui: ScriptedCui)
        ensures
            cui.console == console,
            cui.state == state,
            cui.script == script,
            cui.next_answer == 0,
            cui.answered@ == Seq::<char>::empty(),
    {
        ScriptedCui { console, state, script, next_answer: 0, answered: Ghost(Seq::empty()) }
    }

    /// Hands the console and the state back once the run is over.
    pub fn into_parts(self) -> (r: (Console, CommandState))
        ensures
            r.0 == self.console,
            r.1 == self.state,
    {
        (self.console, self.state)
    }
}

impl SimpleCui for ScriptedCui {
    open spec fn log_history(&self) -> Seq<(MessageType, Seq<char>)> {
        self.console.full_history()
    }

    open spec fn answers(&self) -> Seq<char> {
        self.answered@
    }

    fn out_log(&mut self, message: &str)
        ensures
            final(self).state == old(self).state,
            final(self).script == old(self).script,
            final(self).next_answer == old(self).next_answer,
            old(self).console.wf() ==> final(self).console.wf(),
    {
        self.console.add_log(message.to_owned());
    }

    fn out_error(&mut self, message: &str)
        ensures
            final(self).state == old(self).state,
            final(self).script == old(self).script,
            final(self).next_answer == old(self).next_answer,
            old(self).console.wf() ==> final(self).console.wf(),
    {
        self.console.add_error(message.to_owned());
    }

    /// Choice round trip against the script: from `Running` the state is
    /// published as `Choice`, the next scripted answer is delivered, and the
    /// state is `Running` again — never `NotRunning` in between, and the
    /// answer comes back exactly as delivered.
    fn input_case(&mut self, cases: &[char], message: &str) -> (r: Result<char, CuiError>)
        ensures
            final(self).console == old(self).console,
            final(self).script == old(self).script,
            old(self).state is Running ==> {
                let i = old(self).next_answer as int;
                &&& final(self).state == CommandState::Running
                &&& (i < old(self).script@.len() && cases@.contains(old(self).script@[i]) ==> r
                    == Ok::<char, CuiError>(old(self).script@[i]))
                &&& (i < old(self).script@.len() && !cases@.contains(old(self).script@[i]) ==> r
                    == Err::<char, CuiError>(CuiError::InvalidAnswer))
                &&& (i >= old(self).script@.len() ==> r == Err::<char, CuiError>(
                    CuiError::ChannelClosed,
                ))
                &&& final(self).next_answer as int == (if i < old(self).script@.len() {
                    i + 1
                } else {
                    i
                })
            },
            !(old(self).state is Running) ==> *final(self) == *old(self) && r == Err::<
                char,
                CuiError,
            >(CuiError::ChannelClosed),
    {
        match &self.state {
            CommandState::Running => {},
            _ => {
                return Err(CuiError::ChannelClosed);
            },
        }
        let choices = vstd::slice::slice_to_vec(cases);
        begin_choice(&mut self.state, choices, message.to_owned());
        if self.next_answer < self.script.len() {
            let answer = self.script[self.next_answer];
            self.next_answer = self.next_answer + 1;
            if contains_char(cases, answer) {
                let delivered = deliver_choice(&mut self.state, answer);
                self.answered = Ghost(self.answered@.push(delivered));
                Ok(delivered)
            } else {
                // A real UI offers buttons only for allowed characters; a
                // scripted answer outside the set abandons the rendezvous.
                cancel_choice(&mut self.state);
                Err(CuiError::InvalidAnswer)
            }
        } else {
            // Script exhausted: nobody will ever answer, as when the process
            // tears down the responder.
            cancel_choice(&mut self.state);
            Err(CuiError::ChannelClosed)
        }
    }
}

} // verus!
