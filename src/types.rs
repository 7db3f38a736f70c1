//! Plain data exchanged with the chat host.

use vstd::prelude::*;

verus! {

/// A chat message to be sent through the host.
///
/// `from == None` sends as the plugin's own identity; `ephemeral_to == Some(u)`
/// makes the message visible to user `u` only.
#[derive(Clone, Debug, PartialEq, Eq)]
pub struct Message {
    pub room: String,
    pub from: Option<String>,
    pub msg: String,
    pub ephemeral_to: Option<String>,
}

/// What a listener subscription asks of the host.
#[derive(Clone, Debug, PartialEq, Eq)]
pub struct Listener {
    pub middleware: Option<bool>,
    pub once: Option<bool>,
    pub regex: Option<String>,
}

impl Listener {
    /// A listener may rewrite messages only when `middleware` is set to `true`.
    pub open spec fn is_middleware(&self) -> bool {
        self.middleware == Some(true)
    }

    pub fn middleware(&self) -> (r: bool)
        ensures
            r == self.is_middleware(),
    {
        match self.middleware {
            Some(b) => b,
            None => false,
        }
    }
}

/// A chat event delivered to a listener.
#[derive(Clone, Debug, PartialEq, Eq)]
pub struct Event {
    pub room: String,
    pub from: String,
    pub msg: String,
}

/// The reply of a middleware listener to one event.
#[derive(Clone, Debug, PartialEq, Eq)]
pub struct MiddlewareResponse {
    pub msg: Option<String>,
}

/// A command as registered with the host.
#[derive(Clone, Debug, PartialEq, Eq)]
pub struct CmdDef {
    pub name: String,
    pub info: String,
    pub args_info: String,
}

/// One request from the host to run a registered command.
#[derive(Clone, Debug, PartialEq, Eq)]
pub struct CmdInvocation {
    pub room: String,
    pub from: String,
    pub args: String,
}

} // verus!
