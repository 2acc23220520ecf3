use chat_session::{
    append_response, classify, dispatch, fragment_text, fragments_in_order, label, render_turn,
    single_shot_history, Action, Command, Input, Relay, Session,
};
use chatgpt::types::{ChatMessage, ResponseChunk, Role};

fn msg(role: Role, content: &str) -> ChatMessage {
    ChatMessage { role, content: content.to_string() }
}

fn begin() -> ResponseChunk {
    ResponseChunk::BeginResponse { role: Role::Assistant, response_index: 0 }
}

fn content(delta: &str, response_index: usize) -> ResponseChunk {
    ResponseChunk::Content { delta: delta.to_string(), response_index }
}

#[test]
fn every_alias_maps_to_its_command() {
    let table = [
        ("exit", Command::Exit),
        ("quit", Command::Exit),
        ("/q", Command::Exit),
        ("/x", Command::Exit),
        ("clear", Command::Clear),
        ("/c", Command::Clear),
        ("history", Command::History),
        ("/h", Command::History),
        ("prompt", Command::PrintPrompt),
        ("/p", Command::PrintPrompt),
        ("help", Command::Help),
        ("?", Command::Help),
        ("/", Command::Help),
    ];
    for (alias, command) in table {
        assert_eq!(classify(alias), Input::Command(command));
        assert_eq!(classify(&format!("  {}\n", alias)), Input::Command(command));
    }
}

#[test]
fn other_text_is_a_trimmed_message() {
    assert_eq!(classify("  hello world \n"), Input::Message("hello world".to_string()));
    assert_eq!(classify("Exit"), Input::Message("Exit".to_string()));
    assert_eq!(classify("/hx"), Input::Message("/hx".to_string()));
    assert_eq!(classify("exit now"), Input::Message("exit now".to_string()));
    assert_eq!(classify("\u{3000}hi\u{3000}"), Input::Message("hi".to_string()));
}

#[test]
fn blank_lines_are_invalid() {
    assert_eq!(classify(""), Input::Invalid);
    assert_eq!(classify("   "), Input::Invalid);
    assert_eq!(classify("\t\r\n"), Input::Invalid);
    assert_eq!(classify("\u{3000}\u{a0}"), Input::Invalid);
}

#[test]
fn new_session_holds_the_prompt() {
    let s = Session::new("You are terse.".to_string());
    assert_eq!(s.turns(), &vec![msg(Role::System, "You are terse.")]);
    assert_eq!(s.system_prompt(), "You are terse.");
}

#[test]
fn clear_keeps_only_the_prompt_and_is_idempotent() {
    let mut s = Session::new("P".to_string());
    s.push_turn(msg(Role::User, "a"));
    s.push_turn(msg(Role::Assistant, "b"));
    assert_eq!(dispatch(&mut s, Input::Command(Command::Clear)), Action::ClearScreen);
    assert_eq!(s.turns(), &vec![msg(Role::System, "P")]);
    s.clear();
    assert_eq!(s.turns(), &vec![msg(Role::System, "P")]);
    assert_eq!(s.system_prompt(), "P");
}

#[test]
fn history_lines_follow_every_append() {
    let mut s = Session::new("P".to_string());
    assert_eq!(s.history_lines(), vec!["system: P".to_string()]);
    s.push_turn(msg(Role::User, "hi"));
    s.push_turn(msg(Role::Assistant, "hello"));
    s.push_turn(msg(Role::User, "bye"));
    assert_eq!(
        s.history_lines(),
        vec![
            "system: P".to_string(),
            "user: hi".to_string(),
            "assistant: hello".to_string(),
            "user: bye".to_string(),
        ]
    );
    assert_eq!(s.history_lines().concat(), "system: Puser: hiassistant: hellouser: bye");
}

#[test]
fn terse_prompt_reply_is_relayed_and_recorded() {
    let mut s = Session::new("You are terse.".to_string());
    assert_eq!(dispatch(&mut s, classify("Hi")), Action::Send);
    let mut relay = Relay::new();
    let mut printed = String::new();
    let stream = vec![begin(), content("Hel", 0), content("lo!", 0), ResponseChunk::CloseResponse { response_index: 0 }, ResponseChunk::Done];
    for chunk in stream {
        if let Some(text) = relay.receive(chunk) {
            printed.push_str(&text);
        }
    }
    assert_eq!(printed, "Hello!");
    assert!(append_response(&mut s, relay.into_fragments()));
    assert_eq!(
        s.turns(),
        &vec![
            msg(Role::System, "You are terse."),
            msg(Role::User, "Hi"),
            msg(Role::Assistant, "Hello!"),
        ]
    );
}

#[test]
fn empty_message_appends_nothing() {
    let mut s = Session::new("P".to_string());
    assert_eq!(dispatch(&mut s, Input::Message(String::new())), Action::Reprompt);
    assert_eq!(s.turns().len(), 1);
    assert_eq!(dispatch(&mut s, classify("   ")), Action::Reprompt);
    assert_eq!(s.turns(), &vec![msg(Role::System, "P")]);
}

#[test]
fn history_command_shows_three_turns() {
    let mut s = Session::new("sys".to_string());
    s.push_turn(msg(Role::User, "q"));
    s.push_turn(msg(Role::Assistant, "a"));
    let before = s.turns().clone();
    assert_eq!(dispatch(&mut s, classify("/h")), Action::ShowHistory);
    assert_eq!(s.turns(), &before);
    assert_eq!(
        s.history_lines(),
        vec!["system: sys".to_string(), "user: q".to_string(), "assistant: a".to_string()]
    );
}

#[test]
fn read_only_commands_leave_the_session() {
    let mut s = Session::new("sys".to_string());
    s.push_turn(msg(Role::User, "q"));
    let before = s.turns().clone();
    assert_eq!(dispatch(&mut s, Input::Command(Command::Exit)), Action::Exit);
    assert_eq!(dispatch(&mut s, Input::Command(Command::PrintPrompt)), Action::ShowPrompt);
    assert_eq!(dispatch(&mut s, Input::Command(Command::Help)), Action::ShowHelp);
    assert_eq!(dispatch(&mut s, Input::Invalid), Action::Reprompt);
    assert_eq!(s.turns(), &before);
}

#[test]
fn message_is_appended_as_user_turn() {
    let mut s = Session::new("sys".to_string());
    assert_eq!(dispatch(&mut s, Input::Message("hello".to_string())), Action::Send);
    assert_eq!(s.turns(), &vec![msg(Role::System, "sys"), msg(Role::User, "hello")]);
}

#[test]
fn only_content_fragments_are_printed() {
    assert_eq!(fragment_text(&content("abc", 0)), Some("abc".to_string()));
    assert_eq!(fragment_text(&begin()), None);
    assert_eq!(fragment_text(&ResponseChunk::CloseResponse { response_index: 0 }), None);
    assert_eq!(fragment_text(&ResponseChunk::Done), None);
}

#[test]
fn relay_keeps_every_fragment_in_order() {
    let mut relay = Relay::new();
    assert_eq!(relay.receive(begin()), None);
    assert_eq!(relay.receive(content("x", 0)), Some("x".to_string()));
    assert_eq!(relay.receive(ResponseChunk::Done), None);
    assert_eq!(relay.into_fragments(), vec![begin(), content("x", 0), ResponseChunk::Done]);
}

#[test]
fn fragment_order_is_checked() {
    assert!(fragments_in_order(&vec![]));
    assert!(fragments_in_order(&vec![begin(), content("a", 0)]));
    assert!(!fragments_in_order(&vec![content("a", 0), begin()]));
    assert!(!fragments_in_order(&vec![begin(), content("a", 1)]));
}

#[test]
fn stream_without_reply_appends_nothing() {
    let mut s = Session::new("sys".to_string());
    assert!(!append_response(&mut s, vec![]));
    assert!(!append_response(&mut s, vec![ResponseChunk::Done]));
    assert!(!append_response(&mut s, vec![content("a", 0), begin()]));
    assert_eq!(s.turns().len(), 1);
}

#[test]
fn first_of_several_replies_is_kept() {
    let mut s = Session::new("sys".to_string());
    let two = ResponseChunk::BeginResponse { role: Role::Assistant, response_index: 1 };
    let stream = vec![begin(), two, content("A", 0), content("B", 1), content("C", 0)];
    assert!(append_response(&mut s, stream));
    assert_eq!(s.turns()[1], msg(Role::Assistant, "AC"));
}

#[test]
fn single_shot_has_prompt_then_message() {
    assert_eq!(
        single_shot_history("S".to_string(), "M".to_string()),
        vec![msg(Role::System, "S"), msg(Role::User, "M")]
    );
}

#[test]
fn turns_render_with_their_roles() {
    assert_eq!(label(Role::System), "system");
    assert_eq!(label(Role::Assistant), "assistant");
    assert_eq!(label(Role::User), "user");
    assert_eq!(label(Role::Function), "function");
    assert_eq!(render_turn(&msg(Role::User, "x y")), "user: x y");
}
