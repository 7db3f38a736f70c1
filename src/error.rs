//! Errors reported by the client and its sessions.

use vstd::prelude::*;

verus! {

/// gRPC status code `Unavailable`.
pub const CODE_UNAVAILABLE: i32 = 14;

/// gRPC status code `Unauthenticated`.
pub const CODE_UNAUTHENTICATED: i32 = 16;

#[derive(Clone, Debug, PartialEq, Eq)]
pub enum ClientError {
    /// The host could not be dialled or the address is not a valid URI.
    Connection(String),
    /// The credential is malformed or the host rejected it.
    Auth(String),
    /// A call or a stream broke after it was set up.
    Transport(String),
    /// A listener that is not a middleware returned a replacement message.
    ProtocolMisuse,
    /// The plugin's own handling of one event or invocation failed.
    Application(String),
}

/// The error that a failed call with gRPC status `code` stands for.
pub open spec fn status_error(code: int, message: String) -> ClientError {
    if code == CODE_UNAUTHENTICATED {
        ClientError::Auth(message)
    } else if code == CODE_UNAVAILABLE {
        ClientError::Connection(message)
    } else {
        ClientError::Transport(message)
    }
}

pub open spec fn error_text(e: ClientError) -> Seq<char> {
    match e {
        ClientError::Connection(m) => m@,
        ClientError::Auth(m) => m@,
        ClientError::Transport(m) => m@,
        ClientError::ProtocolMisuse => "listener returned a message but is not a middleware"@,
        ClientError::Application(m) => m@,
    }
}

impl ClientError {
    /// Classifies a failed call by its gRPC status code.
    pub fn from_status_parts(code: i32, message: String) -> (r: ClientError)
        ensures
            r == status_error(code as int, message),
    {
        if code == CODE_UNAUTHENTICATED {
            ClientError::Auth(message)
        } else if code == CODE_UNAVAILABLE {
            ClientError::Connection(message)
        } else {
            ClientError::Transport(message)
        }
    }

    /// Classifies the status with which a call failed.
    pub fn from_status(status: &tonic::Status) -> (r: ClientError)
        ensures
            exists|m: String|
                m@ == status_message_of(*status) && r == #[trigger] status_error(
                    status_code_of(*status),
                    m,
                ),
            status_code_of(*status) != CODE_UNAUTHENTICATED ==> (r is Connection || r is Transport),
    {
        let code = status_code(status);
        let message = status_message(status);
        ClientError::from_status_parts(code, message)
    }

    /// A short description of the error: its message, or a fixed text for
    /// `ProtocolMisuse`.
    pub fn describe(&self) -> (r: String)
        ensures
            r@ == error_text(*self),
    {
        proof {
            reveal_strlit("listener returned a message but is not a middleware");
        }
        match self {
            ClientError::Connection(m) => m.clone(),
            ClientError::Auth(m) => m.clone(),
            ClientError::Transport(m) => m.clone(),
            ClientError::ProtocolMisuse => "listener returned a message but is not a middleware".to_owned(),
            ClientError::Application(m) => m.clone(),
        }
    }
}

#[verifier::external_type_specification]
#[verifier::external_body]
pub struct ExStatus(tonic::Status);

/// The gRPC code that a status carries.
pub uninterp spec fn status_code_of(status: tonic::Status) -> int;

/// The text that a status carries.
pub uninterp spec fn status_message_of(status: tonic::Status) -> Seq<char>;

/// Relies on tonic::Status::code: the code is one of the seventeen gRPC codes,
/// numbered 0 to 16 by tonic::Code's discriminants, and depends on the status
/// alone.
#[verifier::external_body]
fn status_code(status: &tonic::Status) -> (r: i32)
    ensures
        0 <= r <= 16,
        r as int == status_code_of(*status),
{
    status.code() as i32
}

/// Relies on tonic::Status::message for the status's text, which depends on
/// the status alone.
#[verifier::external_body]
fn status_message(status: &tonic::Status) -> (r: String)
    ensures
        r@ == status_message_of(*status),
{
    status.message().to_owned()
}

} // verus!
