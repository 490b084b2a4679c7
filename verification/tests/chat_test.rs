use binggpt::answer::AnswerStream;
use binggpt::chat::{
    AnswerProgress, answer_plain_text, answer_text, is_final_update, suggestions_update, text_update, ChatSession,
};
use binggpt::conversation::{conversation_from_fields, ChatError, Conversation};
use binggpt::msg::{fill_args, frame, protocol_message, SPLIT_CHAR};
use binggpt::text::{i32_to_string, same_text, trim, u64_to_string};

fn conversation(id: i32) -> Conversation {
    Conversation {
        client_id: "client".to_string(),
        conversation_id: "conv".to_string(),
        conversation_signature: "sig".to_string(),
        invocation_id: id,
    }
}

#[test]
fn trim_and_compare() {
    assert_eq!(trim("  a b \t\n"), "a b");
    assert_eq!(trim("\u{a0}x\u{2003}"), "x");
    assert_eq!(trim("   "), "");
    assert!(same_text("abc", "abc"));
    assert!(!same_text("abc", "abd"));
    assert!(!same_text("ab", "abc"));
}

#[test]
fn decimal_strings() {
    assert_eq!(u64_to_string(0), "0");
    assert_eq!(u64_to_string(1234567890), "1234567890");
    assert_eq!(i32_to_string(-42), "-42");
    assert_eq!(i32_to_string(i32::MIN), "-2147483648");
    assert_eq!(i32_to_string(i32::MAX), "2147483647");
}

#[test]
fn fill_args_first_message() {
    let a = fill_args("hello", &conversation(0));
    assert_eq!(a.arguments.len(), 1);
    let arg = &a.arguments[0];
    assert_eq!(arg.source, "cib");
    assert_eq!(
        arg.options_sets,
        vec!["deepleo", "enable_debug_commands", "disable_emoji_spoken_text", "enablemm"]
    );
    assert!(arg.is_start_of_session);
    assert_eq!(arg.message.author, "user");
    assert_eq!(arg.message.input_method, "Keyboard");
    assert_eq!(arg.message.text, "hello");
    assert_eq!(arg.message.message_type, "Chat");
    assert_eq!(arg.conversation_signature, "sig");
    assert_eq!(arg.participant.id, "client");
    assert_eq!(arg.conversation_id, "conv");
    assert_eq!(a.invocation_id, "0");
    assert_eq!(a.target, "chat");
    assert_eq!(a.type_, 4);
}

#[test]
fn session_counts_messages() {
    let mut s = ChatSession::new(conversation(0), "~/c.json");
    assert_eq!(s.cookie_path(), "~/c.json");
    assert!(fill_args("a", s.conversation()).arguments[0].is_start_of_session);
    s.message_sent();
    let second = fill_args("b", s.conversation());
    assert!(!second.arguments[0].is_start_of_session);
    assert_eq!(second.invocation_id, "1");
    assert_eq!(s.conversation().invocation_id, 1);
}

#[test]
fn frames_end_with_separator() {
    assert_eq!(frame("{}"), "{}\u{1e}");
    assert_eq!(SPLIT_CHAR, '\u{1e}');
    assert_eq!(protocol_message(), "{\"protocol\": \"json\", \"version\": 1}\u{1e}");
}

#[test]
fn conversation_from_response() {
    let ok = r#"{"conversationId":"c1","clientId":"k1","conversationSignature":"s1","result":{"value":"Success","message":null}}"#;
    let c = Conversation::from_response(ok).unwrap();
    assert_eq!(c.conversation_id, "c1");
    assert_eq!(c.client_id, "k1");
    assert_eq!(c.conversation_signature, "s1");
    assert_eq!(c.invocation_id, 0);
    let bad = r#"{"result":{"value":"UnauthorizedRequest","message":"Sorry, you need to login first."}}"#;
    match Conversation::from_response(bad) {
        Err(ChatError::Refused(m)) => assert_eq!(m, "Sorry, you need to login first."),
        other => panic!("unexpected {:?}", other),
    }
}

#[test]
fn conversation_from_given_fields() {
    let c = conversation_from_fields("Success", "a".into(), "b".into(), "c".into(), "m".into()).unwrap();
    assert_eq!(c.client_id, "a");
    assert_eq!(c.invocation_id, 0);
    match conversation_from_fields("success", "a".into(), "b".into(), "c".into(), "m".into()) {
        Err(e) => assert_eq!(e.message(), "m"),
        Ok(_) => panic!("expected a refusal"),
    }
}

#[test]
fn answer_updates() {
    let update = r#"{"type":1,"target":"update","arguments":[{"messages":[{"text":"Hi there","adaptiveCards":[{"type":"AdaptiveCard","body":[{"type":"TextBlock","text":"Hi **there**"}]}]}]}]}"#;
    assert_eq!(answer_text(update).unwrap(), "Hi **there**");
    assert_eq!(answer_plain_text(update).unwrap(), "Hi there");
    let other = r#"{"type":6}"#;
    assert!(answer_text(other).is_none());
    assert!(answer_plain_text(other).is_none());
    assert_eq!(text_update(1, "x".into()).unwrap(), "x");
    assert!(text_update(2, "x".into()).is_none());
    assert!(is_final_update(2));
    assert!(!is_final_update(1));
}

#[test]
fn suggestions_decided_from_fields() {
    let r = suggestions_update(2, "Success", "".into(), vec!["a".into(), "b".into()]).unwrap();
    assert_eq!(r.unwrap(), vec!["a", "b"]);
    match suggestions_update(2, "Throttled", "too many".into(), vec![]) {
        Err(e) => assert_eq!(e.message(), "Error: Throttled: too many"),
        Ok(_) => panic!("expected throttling"),
    }
    assert!(suggestions_update(1, "Throttled", "m".into(), vec![]).unwrap().is_none());
}

#[test]
fn suggestions_are_given_once() {
    let fin = r#"{"type":2,"item":{"messages":[{"text":"q"},{"text":"a","suggestedResponses":[{"text":"Tell me more"},{"text":"Thanks"}]}],"result":{"value":"Success"}}}"#;
    let mut s = ChatSession::new(conversation(1), "p");
    assert!(!s.is_done());
    assert!(s.recv_suggesteds().unwrap().is_none());
    assert_eq!(s.recv_raw_json(fin.to_string()), fin);
    assert!(s.is_done());
    assert_eq!(s.recv_suggesteds().unwrap().unwrap(), vec!["Tell me more", "Thanks"]);
    assert!(!s.is_done());
    assert!(s.recv_suggesteds().unwrap().is_none());
}

#[test]
fn throttled_update_keeps_reporting() {
    let fin = r#"{"type":2,"item":{"result":{"value":"Throttled","message":"Request is throttled."}}}"#;
    let mut s = ChatSession::new(conversation(1), "p");
    s.recv_raw_json(fin.to_string());
    for _ in 0..2 {
        match s.recv_suggesteds() {
            Err(e) => assert_eq!(e.message(), "Error: Throttled: Request is throttled."),
            Ok(_) => panic!("expected throttling"),
        }
    }
    s.clear_cache();
    assert!(!s.is_done());
}

#[test]
fn session_recv_text() {
    let mut s = ChatSession::new(conversation(0), "p");
    let update = r#"{"type":1,"arguments":[{"messages":[{"text":"plain","adaptiveCards":[{"body":[{"text":"card"}]}]}]}]}"#;
    assert_eq!(s.recv_text(update.to_string()).unwrap(), "card");
    assert_eq!(s.recv_text_only(update.to_string()).unwrap(), "plain");
    assert!(!s.is_done());
}

#[test]
fn answer_stream_prints_new_part() {
    let mut st = AnswerStream::new();
    assert_eq!(st.on_text("Hel").unwrap(), "Hel");
    assert!(st.on_text("").is_none());
    assert_eq!(st.on_text("Hello, wörld").unwrap(), "lo, wörld");
    assert_eq!(st.on_text("Hello, wörld!").unwrap(), "!");
    assert_eq!(st.on_text("Hi").unwrap(), "");
    assert_eq!(st.on_text("Hi🚀 x").unwrap(), "🚀 x");
}

#[test]
fn messages_are_numbered_in_order() {
    let mut s = ChatSession::new(conversation(0), "p");
    for j in 0..12 {
        let a = s.message(&format!("m{}", j));
        assert_eq!(a.invocation_id, j.to_string());
        assert_eq!(a.arguments[0].is_start_of_session, j == 0);
        assert_eq!(a.arguments[0].message.text, format!("m{}", j));
        assert_eq!(a.arguments[0].conversation_id, "conv");
        s.message_sent();
    }
    assert_eq!(s.conversation().invocation_id, 12);
}

#[test]
fn reset_moves_to_new_conversation() {
    let mut s = ChatSession::new(conversation(5), "p");
    s.recv_raw_json(r#"{"type":2}"#.to_string());
    let mut fresh = conversation(0);
    fresh.conversation_id = "fresh".to_string();
    s.set_conversation(fresh);
    assert_eq!(s.conversation().conversation_id, "fresh");
    assert!(s.message("x").arguments[0].is_start_of_session);
    assert!(s.is_done());
    s.clear_cache();
    assert!(!s.is_done());
}

#[test]
fn answer_progress_goes_on_until_final_update() {
    let mut s = ChatSession::new(conversation(1), "p");
    assert!(matches!(s.answer_progress().unwrap(), AnswerProgress::Pending));
    s.recv_raw_json(r#"{"type":1,"arguments":[]}"#.to_string());
    assert!(matches!(s.answer_progress().unwrap(), AnswerProgress::Pending));
    let fin = r#"{"type":2,"item":{"messages":[{"text":"q"},{"text":"a"}],"result":{"value":"Success"}}}"#;
    s.recv_raw_json(fin.to_string());
    match s.answer_progress().unwrap() {
        AnswerProgress::Finished(t) => assert!(t.is_empty()),
        p => panic!("unexpected {:?}", p),
    }
    assert!(matches!(s.answer_progress().unwrap(), AnswerProgress::Pending));
    let throttled = r#"{"type":2,"item":{"result":{"value":"Throttled","message":"slow down"}}}"#;
    s.recv_raw_json(throttled.to_string());
    match s.answer_progress() {
        Err(e) => assert_eq!(e.message(), "Error: Throttled: slow down"),
        Ok(p) => panic!("unexpected {:?}", p),
    }
}
