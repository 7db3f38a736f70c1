use devzat_plugin::auth::{AuthInterceptor, CallKind};
use devzat_plugin::client::Client;
use devzat_plugin::error::ClientError;
use devzat_plugin::types::Message;

#[test]
fn header_is_identical_for_unary_and_streaming_calls() {
    let client = Client::new("https://devzat.hackclub.com:5556".to_string(), "dvz.token@hello.world1234".to_string()).unwrap();
    let unary = client.auth.attach(CallKind::Unary);
    let streaming = client.auth.attach(CallKind::Streaming);
    assert_eq!(unary, streaming);
    assert_eq!(unary.0, "authorization");
    assert_eq!(unary.1, "Bearer dvz.token@hello.world1234");
}

#[test]
fn token_outside_ascii_is_rejected() {
    assert!(matches!(AuthInterceptor::new("tök".to_string()), Err(ClientError::Auth(_))));
    assert!(matches!(AuthInterceptor::new("a\nb".to_string()), Err(ClientError::Auth(_))));
    assert!(matches!(AuthInterceptor::new("a\u{7f}".to_string()), Err(ClientError::Auth(_))));
    assert!(AuthInterceptor::new("with\ttab and space".to_string()).is_ok());
    assert!(AuthInterceptor::new(String::new()).is_ok());
}

#[test]
fn bad_host_is_a_connection_error() {
    let r = Client::new("not a uri".to_string(), "t".to_string());
    assert!(matches!(r, Err(ClientError::Connection(_))));
    let r = Client::new("http://localhost:1".to_string(), "t\u{1}".to_string());
    assert!(matches!(r, Err(ClientError::Auth(_))));
}

#[test]
fn absent_fields_stay_absent() {
    let client = Client::new("http://localhost:5556".to_string(), "t".to_string()).unwrap();
    let m = client.send_message("#main".to_string(), None, "hi".to_string(), None);
    assert_eq!(m, Message { room: "#main".to_string(), from: None, msg: "hi".to_string(), ephemeral_to: None });
    let m = client.send_message("#main".to_string(), Some(String::new()), "hi".to_string(), Some("bob".to_string()));
    assert_eq!(m.from, Some(String::new()));
    assert_eq!(m.ephemeral_to, Some("bob".to_string()));
}

#[test]
fn closed_channel_gives_an_error() {
    let e = ClientError::from_status(&tonic::Status::unavailable("connection closed"));
    assert_eq!(e, ClientError::Connection("connection closed".to_string()));
    let e = ClientError::from_status(&tonic::Status::cancelled("stream reset"));
    assert_eq!(e, ClientError::Transport("stream reset".to_string()));
    let e = ClientError::from_status(&tonic::Status::unauthenticated("bad token"));
    assert_eq!(e, ClientError::Auth("bad token".to_string()));
}

#[test]
fn status_codes_are_classified() {
    assert_eq!(ClientError::from_status_parts(16, "a".to_string()), ClientError::Auth("a".to_string()));
    assert_eq!(ClientError::from_status_parts(14, "b".to_string()), ClientError::Connection("b".to_string()));
    assert_eq!(ClientError::from_status_parts(0, "c".to_string()), ClientError::Transport("c".to_string()));
    assert_eq!(ClientError::ProtocolMisuse.describe(), "listener returned a message but is not a middleware");
}
