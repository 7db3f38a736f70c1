//! The client facade: configuration of the channel, and the requests and
//! sessions that its three operations start with.

use vstd::prelude::*;
use crate::auth::{valid_token, AuthInterceptor};
use crate::command::{CommandPhase, CommandSession};
use crate::error::ClientError;
use crate::listener::{ListenerPhase, ListenerSession};
use crate::types::{CmdDef, Listener, Message};

verus! {

#[verifier::external_type_specification]
#[verifier::external_body]
pub struct ExEndpoint(tonic::transport::Endpoint);

#[verifier::external_type_specification]
#[verifier::external_body]
pub struct ExInvalidUri(tonic::codegen::http::uri::InvalidUri);

/// Whether the host address parses as a URI.
pub uninterp spec fn uri_accepts(host: Seq<char>) -> bool;

/// Relies on tonic::transport::Channel::from_shared, which parses the address
/// as a URI and fails exactly when it does not parse.
#[verifier::external_body]
fn endpoint_from(host: String) -> (r: Result<tonic::transport::Endpoint, tonic::codegen::http::uri::InvalidUri>)
    ensures
        r is Ok <==> uri_accepts(host@),
{
    tonic::transport::Channel::from_shared(host)
}

/// A plugin's connection settings: where the host is, and the credential that
/// goes with every call.
pub struct Client {
    pub endpoint: tonic::transport::Endpoint,
    pub auth: AuthInterceptor,
}

impl Client {
    /// Checks the address and the token. An address that is not a URI is a
    /// `Connection` error; otherwise a token that cannot stand in an ASCII
    /// header is an `Auth` error.
    pub fn new(host: String, token: String) -> (r: Result<Client, ClientError>)
        ensures
            r is Ok <==> uri_accepts(host@) && valid_token(token@),
            r is Ok ==> r->Ok_0.auth.wf() && r->Ok_0.auth.token() == token@,
            !uri_accepts(host@) ==> r is Err && r->Err_0 is Connection,
            uri_accepts(host@) && !valid_token(token@) ==> r is Err && r->Err_0 is Auth,
    {
        let endpoint = match endpoint_from(host) {
            Ok(e) => e,
            Err(_) => {
                return Err(ClientError::Connection("host address is not a valid URI".to_owned()));
            },
        };
        let auth = match AuthInterceptor::new(token) {
            Ok(a) => a,
            Err(e) => {
                return Err(e);
            },
        };
        Ok(Client { endpoint, auth })
    }

    /// The request of a send: optional fields stay absent when they are
    /// absent, and are never replaced by an empty string.
    pub fn send_message(
        &self,
        room: String,
        from: Option<String>,
        msg: String,
        ephemeral_to: Option<String>,
    ) -> (r: Message)
        ensures
            r == (Message { room, from, msg, ephemeral_to }),
    {
        Message { room, from, msg, ephemeral_to }
    }

    /// A new listener session for `listener`.
    pub fn register_listener(&self, listener: Listener) -> (r: ListenerSession)
        ensures
            r.subscription() == listener,
            r.current_phase() == ListenerPhase::Registering,
    {
        ListenerSession::new(listener)
    }

    /// A new command session for the command `name`.
    pub fn register_cmd(&self, name: String, info: String, args_info: String) -> (r: CommandSession)
        ensures
            r.command() == (CmdDef { name, info, args_info }),
            r.current_phase() == CommandPhase::Registering,
    {
        CommandSession::new(CmdDef { name, info, args_info })
    }
}

} // verus!
