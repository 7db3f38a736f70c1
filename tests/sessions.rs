use devzat_plugin::command::{CommandAction, CommandInput, CommandPhase};
use devzat_plugin::error::ClientError;
use devzat_plugin::listener::{ListenerAction, ListenerInput, ListenerPhase, ListenerSession};
use devzat_plugin::types::{CmdDef, CmdInvocation, Event, Listener, Message, MiddlewareResponse};
use devzat_plugin::client::Client;
use devzat_plugin::command::CommandSession;

fn event(n: &str) -> Event {
    Event { room: "#main".to_string(), from: "alice".to_string(), msg: n.to_string() }
}

fn listener(middleware: Option<bool>) -> Listener {
    Listener { middleware, once: None, regex: None }
}

#[test]
fn handler_sees_each_event_once_in_order() {
    let mut s = ListenerSession::new(listener(None));
    assert_eq!(s.step(ListenerInput::Registered), ListenerAction::ReadNext);
    let mut seen = Vec::new();
    for n in ["a", "b", "c"] {
        match s.step(ListenerInput::Received(event(n))) {
            ListenerAction::Invoke(e) => seen.push(e.msg),
            other => panic!("unexpected {:?}", other),
        }
        assert_eq!(s.step(ListenerInput::HandlerReturned(None)), ListenerAction::ReadNext);
    }
    assert_eq!(seen, vec!["a".to_string(), "b".to_string(), "c".to_string()]);
    assert_eq!(s.step(ListenerInput::StreamEnded), ListenerAction::Finish(Ok(())));
    assert!(s.is_closed());
}

#[test]
fn registration_comes_before_any_event() {
    let s = ListenerSession::new(listener(Some(true)));
    assert_eq!(s.phase(), ListenerPhase::Registering);
    assert!(!s.accepts(&ListenerInput::Received(event("x"))));
    assert!(s.accepts(&ListenerInput::Registered));
}

#[test]
fn middleware_reply_is_written_before_next_read() {
    let mut s = ListenerSession::new(listener(Some(true)));
    s.step(ListenerInput::Registered);
    s.step(ListenerInput::Received(event("hello")));
    let a = s.step(ListenerInput::HandlerReturned(Some("HELLO".to_string())));
    assert_eq!(a, ListenerAction::Respond(MiddlewareResponse { msg: Some("HELLO".to_string()) }));
    assert!(!s.accepts(&ListenerInput::Received(event("next"))));
    assert_eq!(s.step(ListenerInput::ResponseWritten), ListenerAction::ReadNext);
    assert!(s.accepts(&ListenerInput::Received(event("next"))));
}

#[test]
fn middleware_without_replacement_writes_nothing() {
    let mut s = ListenerSession::new(listener(Some(true)));
    s.step(ListenerInput::Registered);
    s.step(ListenerInput::Received(event("hello")));
    assert_eq!(s.step(ListenerInput::HandlerReturned(None)), ListenerAction::ReadNext);
    assert_eq!(s.phase(), ListenerPhase::Streaming);
}

#[test]
fn replacement_from_plain_listener_is_misuse() {
    for m in [None, Some(false)] {
        let mut s = ListenerSession::new(listener(m));
        s.step(ListenerInput::Registered);
        s.step(ListenerInput::Received(event("hello")));
        let a = s.step(ListenerInput::HandlerReturned(Some("x".to_string())));
        assert_eq!(a, ListenerAction::Finish(Err(ClientError::ProtocolMisuse)));
        assert!(s.is_closed());
        assert!(!s.accepts(&ListenerInput::Received(event("later"))));
    }
}

#[test]
fn handler_failure_does_not_close_listener() {
    let mut s = ListenerSession::new(listener(None));
    s.step(ListenerInput::Registered);
    s.step(ListenerInput::Received(event("a")));
    let a = s.step(ListenerInput::HandlerFailed("boom".to_string()));
    assert_eq!(a, ListenerAction::ReportThenReadNext(ClientError::Application("boom".to_string())));
    assert!(s.accepts(&ListenerInput::Received(event("b"))));
}

#[test]
fn broken_stream_closes_listener_with_transport_error() {
    let mut s = ListenerSession::new(listener(None));
    s.step(ListenerInput::Registered);
    let a = s.step(ListenerInput::Failed(ClientError::Transport("reset".to_string())));
    assert_eq!(a, ListenerAction::Finish(Err(ClientError::Transport("reset".to_string()))));
    assert!(s.is_closed());
}

#[test]
fn greet_command_sends_one_reply() {
    let client = Client::new("http://127.0.0.1:5556".to_string(), "dvz.token".to_string()).unwrap();
    let mut s = client.register_cmd(
        "greet".to_string(),
        "Greet someone.".to_string(),
        "<name>".to_string(),
    );
    assert_eq!(
        *s.def(),
        CmdDef {
            name: "greet".to_string(),
            info: "Greet someone.".to_string(),
            args_info: "<name>".to_string(),
        }
    );
    assert_eq!(s.step(CommandInput::Registered), CommandAction::ReadNext);
    let inv = CmdInvocation { room: "#main".to_string(), from: "bob".to_string(), args: "World".to_string() };
    let mut sends = Vec::new();
    let reply = match s.step(CommandInput::Received(inv)) {
        CommandAction::Invoke(i) => format!("Hello {}!", i.args),
        other => panic!("unexpected {:?}", other),
    };
    if let CommandAction::Send(m) = s.step(CommandInput::HandlerReturned(reply)) {
        sends.push(m);
    }
    assert_eq!(s.step(CommandInput::ReplySent), CommandAction::ReadNext);
    assert_eq!(s.step(CommandInput::StreamEnded), CommandAction::Finish(Ok(())));
    assert_eq!(
        sends,
        vec![Message {
            room: "#main".to_string(),
            from: None,
            msg: "Hello World!".to_string(),
            ephemeral_to: None,
        }]
    );
}

#[test]
fn rejected_credential_on_registration_is_auth_error() {
    let mut s = CommandSession::new(CmdDef {
        name: "greet".to_string(),
        info: String::new(),
        args_info: String::new(),
    });
    let e = ClientError::from_status(&tonic::Status::unauthenticated("bad token"));
    assert_eq!(s.step(CommandInput::Failed(e)), CommandAction::Finish(Err(ClientError::Auth("bad token".to_string()))));
    assert!(s.is_closed());
    let mut l = ListenerSession::new(listener(None));
    let e = ClientError::from_status(&tonic::Status::unauthenticated("no"));
    assert_eq!(l.step(ListenerInput::Failed(e)), ListenerAction::Finish(Err(ClientError::Auth("no".to_string()))));
}

#[test]
fn failed_reply_keeps_command_session_running() {
    let mut s = CommandSession::new(CmdDef {
        name: "x".to_string(),
        info: String::new(),
        args_info: String::new(),
    });
    s.step(CommandInput::Registered);
    s.step(CommandInput::Received(CmdInvocation {
        room: "#dev".to_string(),
        from: "bob".to_string(),
        args: String::new(),
    }));
    s.step(CommandInput::HandlerReturned("ok".to_string()));
    assert_eq!(s.phase(), CommandPhase::Replying);
    let a = s.step(CommandInput::ReplyFailed("closed".to_string()));
    assert_eq!(a, CommandAction::ReportThenReadNext(ClientError::Application("closed".to_string())));
    assert_eq!(s.phase(), CommandPhase::Streaming);
}
