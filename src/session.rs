//! The conversation history of one run, seeded by the system prompt.
use vstd::prelude::*;
use chatgpt::types::{ChatMessage, Role};
use crate::chat::{turn_view, turns_view};

verus! {

/// A session as its system prompt and its turns.
pub struct SessionView {
    pub prompt: Seq<char>,
    pub turns: Seq<(Role, Seq<char>)>,
}

/// The session that a clear leaves: the system prompt alone.
pub open spec fn cleared(v: SessionView) -> SessionView {
    SessionView { prompt: v.prompt, turns: seq![(Role::System, v.prompt)] }
}

/// The session with one more turn at its end.
pub open spec fn appended(v: SessionView, t: (Role, Seq<char>)) -> SessionView {
    SessionView { prompt: v.prompt, turns: v.turns.push(t) }
}

/// The name a role is shown under.
pub open spec fn role_label(r: Role) -> Seq<char> {
    match r {
        Role::System => seq!['s', 'y', 's', 't', 'e', 'm'],
        Role::Assistant => seq!['a', 's', 's', 'i', 's', 't', 'a', 'n', 't'],
        Role::User => seq!['u', 's', 'e', 'r'],
        Role::Function => seq!['f', 'u', 'n', 'c', 't', 'i', 'o', 'n'],
    }
}

/// One turn as a line: its role, a colon and a space, then its text.
pub open spec fn rendered(t: (Role, Seq<char>)) -> Seq<char> {
    role_label(t.0) + seq![':', ' '] + t.1
}

/// The lines that show a history, one per turn, in order.
pub open spec fn rendered_all(turns: Seq<(Role, Seq<char>)>) -> Seq<Seq<char>> {
    turns.map_values(|t: (Role, Seq<char>)| rendered(t))
}

/// The name a role is shown under.
pub fn label(r: Role) -> (s: &'static str)
    ensures
        s@ == role_label(r),
{
    proof {
        reveal_strlit("system");
        reveal_strlit("assistant");
        reveal_strlit("user");
        reveal_strlit("function");
        assert("system"@ =~= seq!['s', 'y', 's', 't', 'e', 'm']);
        assert("assistant"@ =~= seq!['a', 's', 's', 'i', 's', 't', 'a', 'n', 't']);
        assert("user"@ =~= seq!['u', 's', 'e', 'r']);
        assert("function"@ =~= seq!['f', 'u', 'n', 'c', 't', 'i', 'o', 'n']);
    }
    match r {
        Role::System => "system",
        Role::Assistant => "assistant",
        Role::User => "user",
        Role::Function => "function",
    }
}

/// One turn as a line.
pub fn render_turn(m: &ChatMessage) -> (s: String)
    ensures
        s@ == rendered(turn_view(*m)),
{
    proof {
        reveal_strlit(": ");
        assert(": "@ =~= seq![':', ' ']);
    }
    let mut s = String::new();
    s.append(label(m.role));
    s.append(": ");
    s.append(m.content.as_str());
    proof {
        assert(s@ =~= rendered(turn_view(*m)));
    }
    s
}

/// The ordered turns of one run, the first of which is the system prompt.
pub struct Session {
    system_prompt: String,
    history: Vec<ChatMessage>,
}

impl View for Session {
    type V = SessionView;

    closed spec fn view(&self) -> SessionView {
        SessionView { prompt: self.system_prompt@, turns: turns_view(self.history@) }
    }
}

impl Session {
    /// The first turn is the system prompt.
    pub open spec fn wf(&self) -> bool {
        self@.turns.len() >= 1 && self@.turns[0] == (Role::System, self@.prompt)
    }

    proof fn lemma_view(&self)
        ensures
            self@.prompt == self.system_prompt@,
            self@.turns == turns_view(self.history@),
    {
    }

    /// A session holding the system prompt alone.
    pub fn new(system_prompt: String) -> (r: Session)
        ensures
            r.wf(),
            r@.prompt == system_prompt@,
            r@.turns == seq![(Role::System, system_prompt@)],
    {
        let first = ChatMessage { role: Role::System, content: system_prompt.clone() };
        let mut history: Vec<ChatMessage> = Vec::new();
        history.push(first);
        let r = Session { system_prompt, history };
        proof {
            r.lemma_view();
            assert(r@.turns =~= seq![(Role::System, system_prompt@)]);
        }
        r
    }

    /// Resets the history to the system prompt alone.
    pub fn clear(&mut self)
        ensures
            final(self)@ == cleared(old(self)@),
            final(self).wf(),
    {
        let first = ChatMessage { role: Role::System, content: self.system_prompt.clone() };
        let mut history: Vec<ChatMessage> = Vec::new();
        history.push(first);
        self.history = history;
        proof {
            self.lemma_view();
            assert(self@.turns =~= seq![(Role::System, self@.prompt)]);
        }
    }

    /// Appends a turn at the end of the history.
    pub fn push_turn(&mut self, turn: ChatMessage)
        requires
            old(self).wf(),
        ensures
            final(self)@ == appended(old(self)@, turn_view(turn)),
            final(self).wf(),
    {
        proof {
            self.lemma_view();
        }
        self.history.push(turn);
        proof {
            self.lemma_view();
            assert(self@.turns =~= old(self)@.turns.push(turn_view(turn)));
        }
    }

    /// The turns, in the order they were appended.
    pub fn turns(&self) -> (r: &Vec<ChatMessage>)
        ensures
            turns_view(r@) == self@.turns,
    {
        proof {
            self.lemma_view();
        }
        &self.history
    }

    /// The history as lines, one per turn, in the order the turns were appended.
    pub fn history_lines(&self) -> (r: Vec<String>)
        ensures
            r@.map_values(|l: String| l@) == rendered_all(self@.turns),
    {
        proof {
            self.lemma_view();
        }
        let mut r: Vec<String> = Vec::new();
        let mut i: usize = 0;
        while i < self.history.len()
            invariant
                i <= self.history@.len(),
                r@.len() == i,
                forall|k: int|
                    0 <= k < i ==> (#[trigger] r@[k])@ == rendered(turn_view(self.history@[k])),
            decreases self.history@.len() - i,
        {
            r.push(render_turn(&self.history[i]));
            i = i + 1;
        }
        proof {
            assert(r@.map_values(|l: String| l@) =~= rendered_all(self@.turns));
        }
        r
    }

    /// The system prompt the session was started with.
    pub fn system_prompt(&self) -> (r: &String)
        ensures
            r@ == self@.prompt,
    {
        proof {
            self.lemma_view();
        }
        &self.system_prompt
    }
}

/// Clearing leaves exactly the system prompt, and clearing again changes
/// nothing.
pub proof fn lemma_clear_resets(v: SessionView)
    ensures
        cleared(v).turns.len() == 1,
        cleared(v).turns[0] == (Role::System, v.prompt),
        cleared(v).prompt == v.prompt,
        cleared(cleared(v)) == cleared(v),
{
}

/// The lines that show a history keep every turn, in order: appending a
/// turn adds exactly its line at the end and leaves the earlier lines as they
/// were.
pub proof fn lemma_history_keeps_turns(v: SessionView, t: (Role, Seq<char>))
    ensures
        rendered_all(appended(v, t).turns) == rendered_all(v.turns).push(rendered(t)),
        rendered_all(v.turns).len() == v.turns.len(),
        forall|i: int|
            0 <= i < v.turns.len() ==> #[trigger] rendered_all(v.turns)[i] == rendered(
                v.turns[i],
            ),
{
    assert(rendered_all(appended(v, t).turns) =~= rendered_all(v.turns).push(rendered(t)));
}

} // verus!
