//! The session controller: a finite-state machine that collects user text,
//! delegates conversion to a backend, and arbitrates what happens next —
//! run the command, edit it, ask again, or cancel.
//!
//! The machine itself is pure: each transition is an ordinary function from
//! the current state and one event to the next state and, at most, one
//! side effect the caller is asked to perform. All input, output and
//! process spawning stay outside.

use vstd::pervasive::unreached;
use vstd::prelude::*;

use crate::converter::ConversionError;
use crate::converter::Detail;
use crate::executor::outcome_of_exit;
use crate::executor::ExecutionError;

verus! {

/// The phase a session is in.
#[derive(Clone, Debug)]
pub enum Status {
    /// Transient start phase; carries the one-time greeting.
    Begin(String),
    /// Expecting the next user utterance.
    WaitingText,
    /// A conversion result is stored and awaits the user's decision.
    WaitingUserChoice,
    /// Terminal; the interactive loop exits.
    End,
}

/// What the user may do with a freshly converted command.
#[derive(Clone, Copy, Debug, PartialEq, Eq, Structural)]
pub enum UserChoice {
    ExecuteCommand,
    EditAndRunCommand,
    AskAnotherQuestion,
    Cancel,
}

impl UserChoice {
    /// The menu line shown for this choice.
    pub fn label(&self) -> (r: &'static str)
        ensures
            self is ExecuteCommand ==> r@ == "Execute the command directly."@,
            self is EditAndRunCommand ==> r@ == "Edit and run the command."@,
            self is AskAnotherQuestion ==> r@ == "Ask another question."@,
            self is Cancel ==> r@ == "Cancel."@,
    {
        match self {
            UserChoice::ExecuteCommand => "Execute the command directly.",
            UserChoice::EditAndRunCommand => "Edit and run the command.",
            UserChoice::AskAnotherQuestion => "Ask another question.",
            UserChoice::Cancel => "Cancel.",
        }
    }
}

/// A side effect the session asks its caller to perform after a decision.
#[derive(Clone, Debug)]
pub enum CommandRequest {
    /// Run this command now.
    Run(String),
    /// Let the user edit a command, starting from this initial value, then
    /// run whatever was submitted.
    Edit(String),
}

/// A reserved input token that ends the session immediately.
pub open spec fn is_quit(text: Seq<char>) -> bool {
    text == "quit"@ || text == "exit"@
}

/// Runtime check for `is_quit`.
pub fn is_quit_keyword(text: &str) -> (b: bool)
    ensures
        b == is_quit(text@),
{
    let t = text.to_owned();
    t == "quit".to_owned() || t == "exit".to_owned()
}

/// One interactive run from greeting to terminal state: the current phase
/// plus the last produced detail, if any.
#[derive(Clone, Debug)]
pub struct Session {
    pub status: Status,
    pub last_detail: Option<Detail>,
}

/// What one user utterance does to the session: a quit keyword ends it at
/// once; any other text leaves it waiting and requests a conversion. The
/// second component says whether the converter is to be invoked.
pub open spec fn step_text(s: Session, question: Seq<char>) -> (Session, bool) {
    if is_quit(question) {
        (Session { status: Status::End, ..s }, false)
    } else {
        (s, true)
    }
}

/// What folding one conversion outcome into the session yields: a valid
/// detail is stored for the user's decision; a failure — or a detail that
/// breaks the detail invariants — is dropped and the session waits for
/// text again.
pub open spec fn step_conversion(s: Session, outcome: Result<Detail, ConversionError>) -> Session {
    match outcome {
        Ok(d) => if d.valid() {
            Session { status: Status::WaitingUserChoice, last_detail: Some(d) }
        } else {
            Session { status: Status::WaitingText, last_detail: None }
        },
        Err(_) => Session { status: Status::WaitingText, last_detail: None },
    }
}

/// What one user decision over the stored detail yields: execute hands out
/// the stored command to run; edit hands it out as the initial editable
/// value; ask-another clears the detail and waits for text; cancel ends the
/// session.
pub open spec fn step_choice(s: Session, choice: UserChoice) -> (Session, Option<CommandRequest>) {
    match choice {
        UserChoice::ExecuteCommand => (s, Some(CommandRequest::Run(s.last_detail->0.command))),
        UserChoice::EditAndRunCommand => (
            s,
            Some(CommandRequest::Edit(s.last_detail->0.command)),
        ),
        UserChoice::AskAnotherQuestion => (
            Session { status: Status::WaitingText, last_detail: None },
            None,
        ),
        UserChoice::Cancel => (Session { status: Status::End, ..s }, None),
    }
}

/// What the outcome of one execution attempt does to the session: success
/// ends it; a failure is recoverable, so the stored detail is dropped and
/// the session waits for text again.
pub open spec fn step_execution(s: Session, outcome: Result<(), ExecutionError>) -> Session {
    match outcome {
        Ok(_) => Session { status: Status::End, ..s },
        Err(_) => Session { status: Status::WaitingText, last_detail: None },
    }
}

impl Session {
    /// Every stored detail is well-formed, and the choice phase is never
    /// entered without one.
    pub open spec fn inv(self) -> bool {
        &&& (self.last_detail matches Some(d) ==> d.valid())
        &&& (self.status is WaitingUserChoice ==> self.last_detail is Some)
    }

    /// A fresh session, about to print its greeting.
    pub fn new() -> (s: Session)
        ensures
            s.status matches Status::Begin(g) && g@ == "Convert your text to shell commands"@,
            s.last_detail is None,
            s.inv(),
    {
        Session {
            status: Status::Begin("Convert your text to shell commands".to_owned()),
            last_detail: None,
        }
    }

    /// Leaves the start phase: hands out the greeting to print and moves on
    /// to waiting for text.
    pub fn greet(&mut self) -> (greeting: String)
        requires
            old(self).inv(),
            old(self).status is Begin,
        ensures
            final(self).inv(),
            final(self).status is WaitingText,
            final(self).last_detail == old(self).last_detail,
            old(self).status matches Status::Begin(g) ==> greeting@ == g@,
    {
        let greeting = match &self.status {
            Status::Begin(g) => g.clone(),
            _ => unreached(),
        };
        self.status = Status::WaitingText;
        greeting
    }

    /// Handle one user utterance while waiting for text. Returns whether a
    /// conversion is requested, so that a quit keyword never reaches the
    /// converter.
    pub fn submit_text(&mut self, question: &str) -> (convert_requested: bool)
        requires
            old(self).inv(),
            old(self).status is WaitingText,
        ensures
            final(self).inv(),
            (*final(self), convert_requested) == step_text(*old(self), question@),
    {
        if is_quit_keyword(question) {
            self.status = Status::End;
            false
        } else {
            true
        }
    }

    /// Fold one conversion outcome into the session. Returns whether a
    /// detail was stored, i.e. whether the user is now to choose.
    pub fn record_conversion(&mut self, outcome: Result<Detail, ConversionError>) -> (stored: bool)
        requires
            old(self).inv(),
            old(self).status is WaitingText,
        ensures
            final(self).inv(),
            *final(self) == step_conversion(*old(self), outcome),
            stored == (final(self).status is WaitingUserChoice),
    {
        match outcome {
            Ok(d) => {
                if d.is_valid() {
                    self.status = Status::WaitingUserChoice;
                    self.last_detail = Some(d);
                    true
                } else {
                    self.status = Status::WaitingText;
                    self.last_detail = None;
                    false
                }
            },
            Err(_) => {
                self.status = Status::WaitingText;
                self.last_detail = None;
                false
            },
        }
    }

    /// Arbitrate one user decision over the stored detail.
    pub fn decide(&mut self, choice: UserChoice) -> (r: Option<CommandRequest>)
        requires
            old(self).inv(),
            old(self).status is WaitingUserChoice,
        ensures
            final(self).inv(),
            (*final(self), r) == step_choice(*old(self), choice),
    {
        match choice {
            UserChoice::ExecuteCommand => {
                let command = match &self.last_detail {
                    Some(d) => d.command.clone(),
                    None => unreached(),
                };
                Some(CommandRequest::Run(command))
            },
            UserChoice::EditAndRunCommand => {
                let command = match &self.last_detail {
                    Some(d) => d.command.clone(),
                    None => unreached(),
                };
                Some(CommandRequest::Edit(command))
            },
            UserChoice::AskAnotherQuestion => {
                self.status = Status::WaitingText;
                self.last_detail = None;
                None
            },
            UserChoice::Cancel => {
                self.status = Status::End;
                None
            },
        }
    }

    /// Fold the outcome of one execution attempt back into the session.
    pub fn record_execution(&mut self, outcome: Result<(), ExecutionError>)
        requires
            old(self).inv(),
            old(self).status is WaitingUserChoice,
        ensures
            final(self).inv(),
            *final(self) == step_execution(*old(self), outcome),
    {
        match outcome {
            Ok(_) => {
                self.status = Status::End;
            },
            Err(_) => {
                self.status = Status::WaitingText;
                self.last_detail = None;
            },
        }
    }
}

/// A quit keyword entered while waiting for text ends the session directly,
/// without requesting a conversion.
pub proof fn lemma_quit_ends_without_converting(s: Session, question: Seq<char>)
    requires
        s.status is WaitingText,
        is_quit(question),
    ensures
        step_text(s, question).0.status is End,
        !step_text(s, question).1,
{
}

/// A session that satisfies its invariant never holds a detail that breaks
/// the detail invariants: at least one description, non-empty command.
pub proof fn lemma_stored_detail_valid(s: Session)
    requires
        s.inv(),
    ensures
        s.last_detail matches Some(d) ==> d.valid(),
{
}

/// An execution that exited with status zero drives the session to its
/// terminal state.
pub proof fn lemma_zero_exit_ends_session(s: Session, code: Option<i32>)
    requires
        code == Some(0i32),
    ensures
        step_execution(s, outcome_of_exit(code)).status is End,
{
}

/// An execution that exited with a non-zero status returns the session to
/// waiting for text and clears the stored detail.
pub proof fn lemma_nonzero_exit_recovers(s: Session, code: i32)
    requires
        code != 0,
    ensures
        step_execution(s, outcome_of_exit(Some(code))).status is WaitingText,
        step_execution(s, outcome_of_exit(Some(code))).last_detail is None,
{
}

/// Editing starts from exactly the stored command, and submitting that
/// initial value unchanged requests exactly the run that direct execution
/// requests, from the same session state.
pub proof fn lemma_edit_unchanged_is_execute(s: Session)
    requires
        s.inv(),
        s.status is WaitingUserChoice,
    ensures
        step_choice(s, UserChoice::EditAndRunCommand).0 == step_choice(
            s,
            UserChoice::ExecuteCommand,
        ).0,
        step_choice(s, UserChoice::EditAndRunCommand).1 matches Some(
            CommandRequest::Edit(initial),
        ) && step_choice(s, UserChoice::ExecuteCommand).1 == Some(CommandRequest::Run(initial)),
{
}

/// Asking another question clears the stored detail and returns to waiting
/// for text, without requesting any command run.
pub proof fn lemma_ask_another_clears(s: Session)
    requires
        s.inv(),
        s.status is WaitingUserChoice,
    ensures
        step_choice(s, UserChoice::AskAnotherQuestion).0.status is WaitingText,
        step_choice(s, UserChoice::AskAnotherQuestion).0.last_detail is None,
        step_choice(s, UserChoice::AskAnotherQuestion).1 is None,
{
}

/// No execution failure is fatal: whether the process exited non-zero or
/// could not be spawned at all, the session recovers to waiting for text
/// with the stored detail cleared.
pub proof fn lemma_execution_failure_recovers(s: Session, e: ExecutionError)
    ensures
        step_execution(s, Err(e)).status is WaitingText,
        step_execution(s, Err(e)).last_detail is None,
{
}

/// No conversion outcome is fatal: folding it into the session leaves the
/// session waiting, never ended.
pub proof fn lemma_conversion_never_ends_session(
    s: Session,
    outcome: Result<Detail, ConversionError>,
)
    ensures
        !(step_conversion(s, outcome).status is End),
{
}

} // verus!
