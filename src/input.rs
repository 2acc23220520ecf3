//! Classification of a typed line into a message, a meta-command, or nothing.
use vstd::prelude::*;

verus! {

/// Holds, for a character outside ASCII, whether Unicode's `White_Space`
/// property includes it.
pub uninterp spec fn unicode_space(c: char) -> bool;

/// Whitespace as Unicode's `White_Space` property defines it: in the ASCII
/// range exactly tab, line feed, vertical tab, form feed, carriage return and
/// space.
pub open spec fn is_space(c: char) -> bool {
    if (c as u32) < 0x80 {
        ('\t' <= c && c <= '\r') || c == ' '
    } else {
        unicode_space(c)
    }
}

/// The text with its leading whitespace removed.
pub open spec fn trim_start(s: Seq<char>) -> Seq<char>
    decreases s.len(),
{
    if s.len() > 0 && is_space(s[0]) {
        trim_start(s.drop_first())
    } else {
        s
    }
}

/// The text with its trailing whitespace removed.
pub open spec fn trim_end(s: Seq<char>) -> Seq<char>
    decreases s.len(),
{
    if s.len() > 0 && is_space(s.last()) {
        trim_end(s.drop_last())
    } else {
        s
    }
}

/// The text with whitespace removed at both ends.
pub open spec fn trimmed(s: Seq<char>) -> Seq<char> {
    trim_end(trim_start(s))
}

/// Relies on `str::trim`: leading and trailing `White_Space` characters are removed.
#[verifier::external_body]
fn trim_text(s: &str) -> (r: &str)
    ensures
        r@ == trimmed(s@),
        r@.len() > 0 ==> !unicode_space(r@[0]) || (r@[0] as u32) < 0x80,
{
    s.trim()
}

/// A meta-command of the interactive session.
#[derive(Clone, Copy, Debug, PartialEq, Eq, Structural)]
pub enum Command {
    Exit,
    Clear,
    History,
    PrintPrompt,
    Help,
}

/// What one typed line asks for.
#[derive(Debug, PartialEq, Eq)]
pub enum Input {
    Message(String),
    Command(Command),
    Invalid,
}

/// The fixed alias table: the command that a trimmed line names, if any.
pub open spec fn command_of(t: Seq<char>) -> Option<Command> {
    if t == seq!['e', 'x', 'i', 't'] || t == seq!['q', 'u', 'i', 't'] || t == seq!['/', 'q']
        || t == seq!['/', 'x'] {
        Some(Command::Exit)
    } else if t == seq!['c', 'l', 'e', 'a', 'r'] || t == seq!['/', 'c'] {
        Some(Command::Clear)
    } else if t == seq!['h', 'i', 's', 't', 'o', 'r', 'y'] || t == seq!['/', 'h'] {
        Some(Command::History)
    } else if t == seq!['p', 'r', 'o', 'm', 'p', 't'] || t == seq!['/', 'p'] {
        Some(Command::PrintPrompt)
    } else if t == seq!['h', 'e', 'l', 'p'] || t == seq!['?'] || t == seq!['/'] {
        Some(Command::Help)
    } else {
        None
    }
}

/// What a line classifies as: nothing when blank, a command when its trimmed
/// text is an alias, else a message of the trimmed text.
pub open spec fn classified(line: Seq<char>, r: Input) -> bool {
    let t = trimmed(line);
    match r {
        Input::Invalid => t.len() == 0,
        Input::Command(c) => t.len() > 0 && command_of(t) == Some(c),
        Input::Message(m) => t.len() > 0 && command_of(t).is_none() && m@ == t,
    }
}

proof fn lemma_trim_start_blank(s: Seq<char>)
    requires
        forall|i: int| 0 <= i < s.len() ==> is_space(#[trigger] s[i]),
    ensures
        trim_start(s).len() == 0,
    decreases s.len(),
{
    if s.len() > 0 {
        assert forall|i: int| 0 <= i < s.drop_first().len() implies is_space(
            #[trigger] s.drop_first()[i],
        ) by {
            assert(s.drop_first()[i] == s[i + 1]);
        }
        lemma_trim_start_blank(s.drop_first());
    }
}

/// A line made only of whitespace, the empty line among them, classifies
/// as invalid and as nothing else.
pub proof fn lemma_blank_line_is_invalid(line: Seq<char>)
    requires
        forall|i: int| 0 <= i < line.len() ==> is_space(#[trigger] line[i]),
    ensures
        trimmed(line).len() == 0,
        forall|r: Input| classified(line, r) <==> r == Input::Invalid,
{
    lemma_trim_start_blank(line);
}

fn same_text(a: &str, b: &str) -> (r: bool)
    ensures
        r == (a@ == b@),
{
    let x = a.to_owned();
    let y = b.to_owned();
    x == y
}

/// Classifies a raw line: trims it, then matches it exactly against the
/// alias table.
pub fn classify(line: &str) -> (r: Input)
    ensures
        classified(line@, r),
{
    let t = trim_text(line);
    proof {
        reveal_strlit("exit");
        assert("exit"@ =~= seq!['e', 'x', 'i', 't']);
        reveal_strlit("quit");
        assert("quit"@ =~= seq!['q', 'u', 'i', 't']);
        reveal_strlit("/q");
        assert("/q"@ =~= seq!['/', 'q']);
        reveal_strlit("/x");
        assert("/x"@ =~= seq!['/', 'x']);
        reveal_strlit("clear");
        assert("clear"@ =~= seq!['c', 'l', 'e', 'a', 'r']);
        reveal_strlit("/c");
        assert("/c"@ =~= seq!['/', 'c']);
        reveal_strlit("history");
        assert("history"@ =~= seq!['h', 'i', 's', 't', 'o', 'r', 'y']);
        reveal_strlit("/h");
        assert("/h"@ =~= seq!['/', 'h']);
        reveal_strlit("prompt");
        assert("prompt"@ =~= seq!['p', 'r', 'o', 'm', 'p', 't']);
        reveal_strlit("/p");
        assert("/p"@ =~= seq!['/', 'p']);
        reveal_strlit("help");
        assert("help"@ =~= seq!['h', 'e', 'l', 'p']);
        reveal_strlit("?");
        assert("?"@ =~= seq!['?']);
        reveal_strlit("/");
        assert("/"@ =~= seq!['/']);
    }
    if t.unicode_len() == 0 {
        Input::Invalid
    } else if same_text(t, "exit") || same_text(t, "quit") || same_text(t, "/q") || same_text(t, "/x") {
        Input::Command(Command::Exit)
    } else if same_text(t, "clear") || same_text(t, "/c") {
        Input::Command(Command::Clear)
    } else if same_text(t, "history") || same_text(t, "/h") {
        Input::Command(Command::History)
    } else if same_text(t, "prompt") || same_text(t, "/p") {
        Input::Command(Command::PrintPrompt)
    } else if same_text(t, "help") || same_text(t, "?") || same_text(t, "/") {
        Input::Command(Command::Help)
    } else {
        Input::Message(t.to_owned())
    }
}

} // verus!
