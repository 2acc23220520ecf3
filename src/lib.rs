//! A terminal chat session: classifying typed lines, keeping the turn
//! history seeded by a system prompt, and relaying streamed reply fragments.
use vstd::prelude::*;

pub mod chat;
pub mod input;
pub mod relay;
pub mod repl;
pub mod session;

pub use input::{classify, Command, Input};
pub use relay::{append_response, fragment_text, fragments_in_order, single_shot_history, Relay};
pub use repl::{dispatch, Action};
pub use session::{label, render_turn, Session};

verus! {

} // verus!
