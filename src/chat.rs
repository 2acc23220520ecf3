//! The chat service's turn and fragment types, and how a fragment stream
//! is assembled into messages.
use vstd::prelude::*;
use chatgpt::types::{ChatMessage, ResponseChunk, Role};

verus! {

/// chatgpt's `Role`, declared with its variants as the crate defines them.
#[verifier::external_type_specification]
pub struct ExRole(chatgpt::types::Role);

/// chatgpt's `ChatMessage`, declared with its public fields `role` and
/// `content` (the `functions` feature, which adds a third, is not enabled).
#[verifier::external_type_specification]
pub struct ExChatMessage(chatgpt::types::ChatMessage);

/// chatgpt's `ResponseChunk`, declared with its variants and their fields.
#[verifier::external_type_specification]
pub struct ExResponseChunk(chatgpt::types::ResponseChunk);

/// A turn as a role and its text.
pub open spec fn turn_view(m: ChatMessage) -> (Role, Seq<char>) {
    (m.role, m.content@)
}

/// The turns of a history, each as a role and its text.
pub open spec fn turns_view(s: Seq<ChatMessage>) -> Seq<(Role, Seq<char>)> {
    s.map_values(|m: ChatMessage| turn_view(m))
}

/// How many replies a fragment sequence has opened.
pub open spec fn begun(s: Seq<ResponseChunk>) -> nat
    decreases s.len(),
{
    if s.len() == 0 {
        0
    } else {
        let n = begun(s.drop_last());
        match s.last() {
            ResponseChunk::BeginResponse { .. } => n + 1,
            _ => n,
        }
    }
}

/// Each content fragment belongs to a reply opened before it.
pub open spec fn chunks_in_order(s: Seq<ResponseChunk>) -> bool {
    forall|i: int|
        0 <= i < s.len() ==> match #[trigger] s[i] {
            ResponseChunk::Content { response_index, .. } => response_index < begun(s.take(i)),
            _ => true,
        }
}

/// The messages that a fragment sequence makes: each opening fragment starts
/// an empty message of its role, each content fragment appends its text to the
/// message of its index, and the other fragments change nothing.
pub open spec fn assembled(s: Seq<ResponseChunk>) -> Seq<(Role, Seq<char>)>
    decreases s.len(),
{
    if s.len() == 0 {
        seq![]
    } else {
        let prev = assembled(s.drop_last());
        match s.last() {
            ResponseChunk::Content { delta, response_index } => if response_index < prev.len() {
                prev.update(
                    response_index as int,
                    (prev[response_index as int].0, prev[response_index as int].1 + delta@),
                )
            } else {
                prev
            },
            ResponseChunk::BeginResponse { role, .. } => prev.push((role, seq![])),
            _ => prev,
        }
    }
}

/// Relies on `ChatMessage::from_response_chunks`, which folds the fragments
/// into messages as `assembled` states; it panics on a content fragment whose
/// reply was not opened before it.
pub assume_specification[ chatgpt::types::ChatMessage::from_response_chunks ](
    chunks: Vec<ResponseChunk>,
) -> (r: Vec<ChatMessage>)
    requires
        chunks_in_order(chunks@),
    ensures
        turns_view(r@) == assembled(chunks@),
;

/// As many messages are assembled as replies were opened.
pub proof fn lemma_assembled_len(s: Seq<ResponseChunk>)
    ensures
        assembled(s).len() == begun(s),
    decreases s.len(),
{
    if s.len() > 0 {
        lemma_assembled_len(s.drop_last());
    }
}

} // verus!
