//! Relaying a streamed reply: what each fragment shows, and the turn that the
//! whole stream adds to the session.
use vstd::prelude::*;
use chatgpt::types::{ChatMessage, ResponseChunk, Role};
use crate::chat::{assembled, begun, chunks_in_order, lemma_assembled_len, turns_view};
use crate::session::{appended, Session};

verus! {

/// The text a fragment puts on screen: its piece of content, if it has one.
pub open spec fn shown(c: ResponseChunk) -> Seq<char> {
    match c {
        ResponseChunk::Content { delta, .. } => delta@,
        _ => seq![],
    }
}

/// The text a fragment sequence puts on screen, in arrival order.
pub open spec fn shown_all(s: Seq<ResponseChunk>) -> Seq<char>
    decreases s.len(),
{
    if s.len() == 0 {
        seq![]
    } else {
        shown_all(s.drop_last()) + shown(s.last())
    }
}

/// The text to print for a fragment: its piece of content, or nothing for a
/// fragment that only marks structure.
pub fn fragment_text(chunk: &ResponseChunk) -> (r: Option<String>)
    ensures
        r is Some <==> chunk is Content,
        r is Some ==> r->0@ == shown(*chunk),
{
    match chunk {
        ResponseChunk::Content { delta, .. } => Some(delta.clone()),
        _ => None,
    }
}

/// The fragments received so far from one streamed reply.
pub struct Relay {
    received: Vec<ResponseChunk>,
}

impl View for Relay {
    type V = Seq<ResponseChunk>;

    closed spec fn view(&self) -> Seq<ResponseChunk> {
        self.received@
    }
}

impl Relay {
    /// A relay that has received nothing.
    pub fn new() -> (r: Relay)
        ensures
            r@ == Seq::<ResponseChunk>::empty(),
    {
        Relay { received: Vec::new() }
    }

    /// Records the next fragment and returns the text to print for it; what
    /// has been printed is then the content of all fragments, in order.
    pub fn receive(&mut self, chunk: ResponseChunk) -> (r: Option<String>)
        ensures
            final(self)@ == old(self)@.push(chunk),
            r is Some <==> chunk is Content,
            r is Some ==> r->0@ == shown(chunk),
            shown_all(final(self)@) == shown_all(old(self)@) + shown(chunk),
    {
        let r = fragment_text(&chunk);
        self.received.push(chunk);
        proof {
            assert(self@.drop_last() =~= old(self)@);
        }
        r
    }

    /// The fragments received, in arrival order.
    pub fn into_fragments(self) -> (r: Vec<ResponseChunk>)
        ensures
            r@ == self@,
    {
        self.received
    }
}

/// Whether every content fragment belongs to a reply opened before it.
pub fn fragments_in_order(chunks: &Vec<ResponseChunk>) -> (r: bool)
    ensures
        r == chunks_in_order(chunks@),
{
    let mut opened: usize = 0;
    let mut i: usize = 0;
    while i < chunks.len()
        invariant
            i <= chunks@.len(),
            opened == begun(chunks@.take(i as int)),
            opened <= i,
            forall|j: int|
                0 <= j < i ==> match #[trigger] chunks@[j] {
                    ResponseChunk::Content { response_index, .. } => response_index < begun(
                        chunks@.take(j),
                    ),
                    _ => true,
                },
        decreases chunks@.len() - i,
    {
        assert(chunks@.take(i + 1).drop_last() =~= chunks@.take(i as int));
        match &chunks[i] {
            ResponseChunk::Content { response_index, .. } => {
                if *response_index >= opened {
                    return false;
                }
            },
            ResponseChunk::BeginResponse { .. } => {
                opened = opened + 1;
            },
            _ => {},
        }
        i = i + 1;
    }
    assert(chunks@.take(i as int) =~= chunks@);
    true
}

/// Adds the reply that a finished stream makes to the session: the first
/// message that the fragments assemble. A stream that opens no reply, or has
/// content for a reply it did not open, adds nothing.
pub fn append_response(session: &mut Session, output: Vec<ResponseChunk>) -> (r: bool)
    requires
        old(session).wf(),
    ensures
        final(session).wf(),
        r == (chunks_in_order(output@) && begun(output@) > 0),
        r ==> final(session)@ == appended(old(session)@, assembled(output@)[0]),
        !r ==> final(session)@ == old(session)@,
{
    if !fragments_in_order(&output) {
        return false;
    }
    proof {
        lemma_assembled_len(output@);
    }
    let ghost chunks = output@;
    let mut messages = ChatMessage::from_response_chunks(output);
    if messages.len() == 0 {
        return false;
    }
    proof {
        assert(turns_view(messages@)[0] == assembled(chunks)[0]);
    }
    let first = messages.remove(0);
    session.push_turn(first);
    true
}

/// A single reply: one opening fragment first, no other, and all content
/// for the reply it opened.
pub open spec fn single_reply(s: Seq<ResponseChunk>) -> bool {
    &&& s.len() > 0
    &&& s[0] is BeginResponse
    &&& forall|i: int| 0 < i < s.len() ==> !(#[trigger] s[i] is BeginResponse)
    &&& forall|i: int|
        0 <= i < s.len() ==> match #[trigger] s[i] {
            ResponseChunk::Content { response_index, .. } => response_index == 0,
            _ => true,
        }
}

/// The role that opens a sequence, if it opens with a reply.
pub open spec fn opening_role(s: Seq<ResponseChunk>) -> Role {
    match s[0] {
        ResponseChunk::BeginResponse { role, .. } => role,
        _ => Role::Assistant,
    }
}

/// A stream of a single reply assembles into one message: the opening role
/// with every piece of content concatenated in arrival order, which is also
/// exactly the text that was printed.
pub proof fn lemma_single_reply_concatenates(s: Seq<ResponseChunk>)
    requires
        single_reply(s),
    ensures
        chunks_in_order(s),
        assembled(s) == seq![(opening_role(s), shown_all(s))],
    decreases s.len(),
{
    if s.len() == 1 {
        assert(s.drop_last() =~= Seq::<ResponseChunk>::empty());
        assert(shown_all(s.drop_last()) =~= Seq::<char>::empty());
        assert(shown(s.last()) =~= Seq::<char>::empty());
        assert(shown_all(s) =~= Seq::<char>::empty());
        assert(assembled(s.drop_last()) =~= Seq::<(Role, Seq<char>)>::empty());
        assert(assembled(s) =~= seq![(opening_role(s), shown_all(s))]);
        assert(s.take(0) =~= Seq::<ResponseChunk>::empty());
    } else {
        let p = s.drop_last();
        assert(p[0] == s[0]);
        assert forall|i: int| 0 < i < p.len() implies !(#[trigger] p[i] is BeginResponse) by {
            assert(p[i] == s[i]);
        }
        assert forall|i: int| 0 <= i < p.len() implies match #[trigger] p[i] {
            ResponseChunk::Content { response_index, .. } => response_index == 0,
            _ => true,
        } by {
            assert(p[i] == s[i]);
        }
        lemma_single_reply_concatenates(p);
        let last = s[s.len() - 1];
        assert(!(last is BeginResponse));
        assert(opening_role(p) == opening_role(s));
        assert(shown_all(s) == shown_all(p) + shown(last));
        match last {
            ResponseChunk::Content { delta, response_index } => {
                assert(response_index == 0);
                assert(assembled(s) == assembled(p).update(
                    0,
                    (assembled(p)[0].0, assembled(p)[0].1 + delta@),
                ));
            },
            _ => {
                assert(shown(last) =~= Seq::<char>::empty());
                assert(assembled(s) == assembled(p));
            },
        }
        assert(assembled(s) =~= seq![(opening_role(s), shown_all(s))]);
        assert forall|i: int| 0 <= i < s.len() implies match #[trigger] s[i] {
            ResponseChunk::Content { response_index, .. } => response_index < begun(s.take(i)),
            _ => true,
        } by {
            if i < p.len() {
                assert(s.take(i) =~= p.take(i));
                assert(p[i] == s[i]);
            } else {
                lemma_begun_opened(s, i);
            }
        }
    }
}

proof fn lemma_begun_opened(s: Seq<ResponseChunk>, i: int)
    requires
        0 < i <= s.len(),
        s[0] is BeginResponse,
    ensures
        begun(s.take(i)) >= 1,
    decreases i,
{
    if i == 1 {
        assert(s.take(1).drop_last() =~= Seq::<ResponseChunk>::empty());
    } else {
        assert(s.take(i).drop_last() =~= s.take(i - 1));
        lemma_begun_opened(s, i - 1);
    }
}

/// The history that one message is sent with outside a session: the system
/// prompt, then the message.
pub fn single_shot_history(system_prompt: String, message: String) -> (r: Vec<ChatMessage>)
    ensures
        turns_view(r@) == seq![(Role::System, system_prompt@), (Role::User, message@)],
{
    let mut r: Vec<ChatMessage> = Vec::new();
    r.push(ChatMessage { role: Role::System, content: system_prompt });
    r.push(ChatMessage { role: Role::User, content: message });
    proof {
        assert(turns_view(r@) =~= seq![(Role::System, system_prompt@), (Role::User, message@)]);
    }
    r
}

} // verus!
