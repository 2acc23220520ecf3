//! One step of the interactive loop: what a classified line does to the
//! session, and what the loop performs next.
use vstd::prelude::*;
use chatgpt::types::{ChatMessage, Role};
use crate::input::{Command, Input};
use crate::session::{appended, cleared, Session, SessionView};

verus! {

/// What the loop performs after a line has been handled.
#[derive(Clone, Copy, Debug, PartialEq, Eq, Structural)]
pub enum Action {
    /// Send the session, whose last turn is the new message, and relay the reply.
    Send,
    /// Say goodbye and end the loop.
    Exit,
    /// Clear the terminal.
    ClearScreen,
    /// Print every turn of the session.
    ShowHistory,
    /// Print the system prompt.
    ShowPrompt,
    /// Print the usage message.
    ShowHelp,
    /// Ask again for a non-empty message.
    Reprompt,
}

/// What handling a line makes of the session, and the action that follows.
pub open spec fn step(v: SessionView, input: Input) -> (
    SessionView,
    Action,
) {
    match input {
        Input::Message(m) => if m@.len() == 0 {
            (v, Action::Reprompt)
        } else {
            (appended(v, (Role::User, m@)), Action::Send)
        },
        Input::Command(Command::Exit) => (v, Action::Exit),
        Input::Command(Command::Clear) => (cleared(v), Action::ClearScreen),
        Input::Command(Command::History) => (v, Action::ShowHistory),
        Input::Command(Command::PrintPrompt) => (v, Action::ShowPrompt),
        Input::Command(Command::Help) => (v, Action::ShowHelp),
        Input::Invalid => (v, Action::Reprompt),
    }
}

/// Handles one classified line: a non-empty message is appended as a user
/// turn to be sent, a clear resets the history, and everything else leaves
/// the session as it was.
pub fn dispatch(session: &mut Session, input: Input) -> (r: Action)
    requires
        old(session).wf(),
    ensures
        final(session).wf(),
        (final(session)@, r) == step(old(session)@, input),
{
    match input {
        Input::Message(m) => {
            if m.as_str().unicode_len() == 0 {
                Action::Reprompt
            } else {
                session.push_turn(ChatMessage { role: Role::User, content: m });
                Action::Send
            }
        },
        Input::Command(Command::Exit) => Action::Exit,
        Input::Command(Command::Clear) => {
            session.clear();
            Action::ClearScreen
        },
        Input::Command(Command::History) => Action::ShowHistory,
        Input::Command(Command::PrintPrompt) => Action::ShowPrompt,
        Input::Command(Command::Help) => Action::ShowHelp,
        Input::Invalid => Action::Reprompt,
    }
}

/// Only a non-empty message and a clear change the session; a blank or
/// empty line and the read-only commands leave it exactly as it was.
pub proof fn lemma_only_messages_and_clear_change(v: SessionView, input: Input)
    ensures
        !(input is Message) && input != Input::Command(Command::Clear) ==> step(v, input).0 == v,
        input is Message ==> (step(v, input).0 == v <==> input->Message_0@.len() == 0),
{
    if let Input::Message(m) = input {
        if m@.len() > 0 {
            assert(step(v, input).0.turns.len() == v.turns.len() + 1);
        }
    }
}

} // verus!
