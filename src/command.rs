//! The command session: one subscription for one named command.
//!
//! Each invocation runs the handler once, and its reply is sent back to the
//! invocation's room as a plain message from the plugin.

use vstd::prelude::*;
use crate::error::ClientError;
use crate::types::{CmdDef, CmdInvocation, Message};

verus! {

#[derive(Clone, Copy, Debug, PartialEq, Eq)]
pub enum CommandPhase {
    /// The command has not been registered yet.
    Registering,
    /// Waiting for the next invocation.
    Streaming,
    /// The handler is running on the last invocation.
    Dispatching,
    /// The reply is being sent.
    Replying,
    /// The session is over.
    Closed,
}

/// What happened since the last action.
#[derive(Clone, Debug, PartialEq, Eq)]
pub enum CommandInput {
    /// The registration call was made.
    Registered,
    /// An invocation arrived on the stream.
    Received(CmdInvocation),
    /// The handler finished with its reply.
    HandlerReturned(String),
    /// The reply was sent.
    ReplySent,
    /// Sending the reply failed.
    ReplyFailed(String),
    /// The host closed the stream.
    StreamEnded,
    /// The call or the stream failed, with the error its status stands for.
    Failed(ClientError),
}

/// What the owner of the stream is to do next.
#[derive(Debug, PartialEq, Eq)]
pub enum CommandAction {
    /// Read the next invocation.
    ReadNext,
    /// Run the handler on this invocation.
    Invoke(CmdInvocation),
    /// Send this message.
    Send(Message),
    /// Report this error, then read the next invocation.
    ReportThenReadNext(ClientError),
    /// The session ends with this result.
    Finish(Result<(), ClientError>),
}

/// The message that carries a command's reply back to the room it came from.
pub open spec fn reply_message(room: String, reply: String) -> Message {
    Message { room, from: None, msg: reply, ephemeral_to: None }
}

/// Whether `input` may come in `phase`.
pub open spec fn command_accepts(phase: CommandPhase, input: CommandInput) -> bool {
    match phase {
        CommandPhase::Registering => input is Registered || input is StreamEnded
            || input is Failed,
        CommandPhase::Streaming => input is Received || input is StreamEnded
            || input is Failed,
        CommandPhase::Dispatching => input is HandlerReturned,
        CommandPhase::Replying => input is ReplySent || input is ReplyFailed,
        CommandPhase::Closed => false,
    }
}

/// The next phase, the room of the invocation in hand, and the action, for an
/// input that the phase accepts.
pub open spec fn command_next(phase: CommandPhase, room: String, input: CommandInput) -> (
    CommandPhase,
    String,
    CommandAction,
) {
    match input {
        CommandInput::Registered => (CommandPhase::Streaming, room, CommandAction::ReadNext),
        CommandInput::Received(inv) => (
            CommandPhase::Dispatching,
            inv.room,
            CommandAction::Invoke(inv),
        ),
        CommandInput::HandlerReturned(reply) => (
            CommandPhase::Replying,
            room,
            CommandAction::Send(reply_message(room, reply)),
        ),
        CommandInput::ReplySent => (CommandPhase::Streaming, room, CommandAction::ReadNext),
        CommandInput::ReplyFailed(m) => (
            CommandPhase::Streaming,
            room,
            CommandAction::ReportThenReadNext(ClientError::Application(m)),
        ),
        CommandInput::StreamEnded => (CommandPhase::Closed, room, CommandAction::Finish(Ok(()))),
        CommandInput::Failed(e) => (CommandPhase::Closed, room, CommandAction::Finish(Err(e))),
    }
}

pub struct CommandSession {
    def: CmdDef,
    phase: CommandPhase,
    /// The room of the invocation being handled.
    room: String,
}

impl CommandSession {
    /// The command that the session registers.
    pub closed spec fn command(&self) -> CmdDef {
        self.def
    }

    pub closed spec fn current_phase(&self) -> CommandPhase {
        self.phase
    }

    /// The room of the invocation being handled.
    pub closed spec fn room_in_hand(&self) -> String {
        self.room
    }

    pub fn def(&self) -> (r: &CmdDef)
        ensures
            *r == self.command(),
    {
        &self.def
    }

    pub fn phase(&self) -> (r: CommandPhase)
        ensures
            r == self.current_phase(),
    {
        self.phase
    }

    /// A session for `def`, before the command is registered.
    pub fn new(def: CmdDef) -> (r: CommandSession)
        ensures
            r.command() == def,
            r.current_phase() == CommandPhase::Registering,
    {
        CommandSession { def, phase: CommandPhase::Registering, room: String::new() }
    }

    pub fn accepts(&self, input: &CommandInput) -> (r: bool)
        ensures
            r == command_accepts(self.current_phase(), *input),
    {
        match self.phase {
            CommandPhase::Registering => match input {
                CommandInput::Registered => true,
                CommandInput::StreamEnded => true,
                CommandInput::Failed(_) => true,
                _ => false,
            },
            CommandPhase::Streaming => match input {
                CommandInput::Received(_) => true,
                CommandInput::StreamEnded => true,
                CommandInput::Failed(_) => true,
                _ => false,
            },
            CommandPhase::Dispatching => match input {
                CommandInput::HandlerReturned(_) => true,
                _ => false,
            },
            CommandPhase::Replying => match input {
                CommandInput::ReplySent => true,
                CommandInput::ReplyFailed(_) => true,
                _ => false,
            },
            CommandPhase::Closed => false,
        }
    }

    pub fn is_closed(&self) -> (r: bool)
        ensures
            r == (self.current_phase() == CommandPhase::Closed),
    {
        match self.phase {
            CommandPhase::Closed => true,
            _ => false,
        }
    }

    /// Takes one input and says what to do next.
    pub fn step(&mut self, input: CommandInput) -> (r: CommandAction)
        requires
            command_accepts(old(self).current_phase(), input),
        ensures
            final(self).command() == old(self).command(),
            (final(self).current_phase(), final(self).room_in_hand(), r) == command_next(
                old(self).current_phase(),
                old(self).room_in_hand(),
                input,
            ),
    {
        match input {
            CommandInput::Registered => {
                self.phase = CommandPhase::Streaming;
                CommandAction::ReadNext
            },
            CommandInput::Received(inv) => {
                self.phase = CommandPhase::Dispatching;
                self.room = inv.room.clone();
                CommandAction::Invoke(inv)
            },
            CommandInput::HandlerReturned(reply) => {
                self.phase = CommandPhase::Replying;
                CommandAction::Send(
                    Message { room: self.room.clone(), from: None, msg: reply, ephemeral_to: None },
                )
            },
            CommandInput::ReplySent => {
                self.phase = CommandPhase::Streaming;
                CommandAction::ReadNext
            },
            CommandInput::ReplyFailed(m) => {
                self.phase = CommandPhase::Streaming;
                CommandAction::ReportThenReadNext(ClientError::Application(m))
            },
            CommandInput::StreamEnded => {
                self.phase = CommandPhase::Closed;
                CommandAction::Finish(Ok(()))
            },
            CommandInput::Failed(e) => {
                self.phase = CommandPhase::Closed;
                CommandAction::Finish(Err(e))
            },
        }
    }
}

/// An invocation whose handler replies is answered by exactly one message, to
/// the invocation's room, from the plugin itself and visible to everyone.
pub proof fn lemma_reply_goes_to_invoking_room(room: String, inv: CmdInvocation, reply: String)
    ensures
        ({
            let (p1, r1, a1) = command_next(CommandPhase::Streaming, room, CommandInput::Received(inv));
            let (p2, r2, a2) = command_next(p1, r1, CommandInput::HandlerReturned(reply));
            &&& a1 == CommandAction::Invoke(inv)
            &&& command_accepts(p1, CommandInput::HandlerReturned(reply))
            &&& a2 == CommandAction::Send(reply_message(inv.room, reply))
            &&& p2 == CommandPhase::Replying
        }),
{
}

/// A failed registration or stream ends the session with the error of the
/// failure itself: a credential the host rejects ends it with `Auth`.
pub proof fn lemma_failure_ends_with_its_error(phase: CommandPhase, room: String, e: ClientError)
    requires
        phase == CommandPhase::Registering || phase == CommandPhase::Streaming,
    ensures
        command_accepts(phase, CommandInput::Failed(e)),
        command_next(phase, room, CommandInput::Failed(e)) == (
            CommandPhase::Closed,
            room,
            CommandAction::Finish(Err(e)),
        ),
{
}

/// Whether every input of `inputs` is accepted in turn, starting in `phase`
/// with `room` in hand.
pub open spec fn command_accepts_all(phase: CommandPhase, room: String, inputs: Seq<CommandInput>) -> bool
    decreases inputs.len(),
{
    inputs.len() == 0 || ({
        let (p, r, _) = command_next(phase, room, inputs[0]);
        command_accepts(phase, inputs[0]) && command_accepts_all(p, r, inputs.drop_first())
    })
}

/// The actions that answer `inputs`, starting in `phase` with `room` in hand.
pub open spec fn command_run(phase: CommandPhase, room: String, inputs: Seq<CommandInput>) -> Seq<
    CommandAction,
>
    decreases inputs.len(),
{
    if inputs.len() == 0 {
        Seq::empty()
    } else {
        let (p, r, a) = command_next(phase, room, inputs[0]);
        seq![a] + command_run(p, r, inputs.drop_first())
    }
}

/// The replies that the handler gave, each addressed to the room of the
/// invocation received last before it.
pub open spec fn replies(room: String, inputs: Seq<CommandInput>) -> Seq<Message>
    decreases inputs.len(),
{
    if inputs.len() == 0 {
        Seq::empty()
    } else {
        match inputs[0] {
            CommandInput::Received(inv) => replies(inv.room, inputs.drop_first()),
            CommandInput::HandlerReturned(reply) => seq![reply_message(room, reply)] + replies(
                room,
                inputs.drop_first(),
            ),
            _ => replies(room, inputs.drop_first()),
        }
    }
}

/// The messages that the session asks to send, in order.
pub open spec fn sent(actions: Seq<CommandAction>) -> Seq<Message>
    decreases actions.len(),
{
    if actions.len() == 0 {
        Seq::empty()
    } else {
        let rest = sent(actions.drop_first());
        match actions[0] {
            CommandAction::Send(m) => seq![m] + rest,
            _ => rest,
        }
    }
}

/// Over any run of a command session, exactly one message is sent per reply
/// of the handler, in order, to the room of the invocation it answers, from
/// the plugin itself and visible to everyone.
pub proof fn lemma_one_message_per_reply(phase: CommandPhase, room: String, inputs: Seq<CommandInput>)
    requires
        command_accepts_all(phase, room, inputs),
    ensures
        sent(command_run(phase, room, inputs)) == replies(room, inputs),
    decreases inputs.len(),
{
    if inputs.len() > 0 {
        let (p, r, a) = command_next(phase, room, inputs[0]);
        let rest = command_run(p, r, inputs.drop_first());
        lemma_one_message_per_reply(p, r, inputs.drop_first());
        let run = command_run(phase, room, inputs);
        assert(run == seq![a] + rest);
        assert(run.drop_first() == rest);
    }
}

} // verus!
