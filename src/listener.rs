//! The listener session: one subscription to the host's chat events.
//!
//! The session decides; the code that owns the stream performs each action
//! and feeds back what happened, one input at a time.

use vstd::prelude::*;
use crate::error::ClientError;
use crate::types::{Event, Listener, MiddlewareResponse};

verus! {

#[derive(Clone, Copy, Debug, PartialEq, Eq)]
pub enum ListenerPhase {
    /// The frame carrying the listener's spec has not been written yet.
    Registering,
    /// Waiting for the next event.
    Streaming,
    /// The handler is running on the last event.
    Dispatching,
    /// A middleware response is being written.
    Responding,
    /// The session is over.
    Closed,
}

/// What happened since the last action.
#[derive(Clone, Debug, PartialEq, Eq)]
pub enum ListenerInput {
    /// The registration frame was written.
    Registered,
    /// An event arrived on the stream.
    Received(Event),
    /// The handler finished with an optional replacement message.
    HandlerReturned(Option<String>),
    /// The handler itself failed.
    HandlerFailed(String),
    /// The middleware response was written.
    ResponseWritten,
    /// The host closed the stream.
    StreamEnded,
    /// The call or the stream failed, with the error its status stands for.
    Failed(ClientError),
}

/// What the owner of the stream is to do next.
#[derive(Debug, PartialEq, Eq)]
pub enum ListenerAction {
    /// Read the next event.
    ReadNext,
    /// Run the handler on this event.
    Invoke(Event),
    /// Write this response on the stream.
    Respond(MiddlewareResponse),
    /// Report this error, then read the next event.
    ReportThenReadNext(ClientError),
    /// The session ends with this result.
    Finish(Result<(), ClientError>),
}

/// Whether `input` may come in `phase`.
pub open spec fn listener_accepts(phase: ListenerPhase, input: ListenerInput) -> bool {
    match phase {
        ListenerPhase::Registering => input is Registered || input is StreamEnded
            || input is Failed,
        ListenerPhase::Streaming => input is Received || input is StreamEnded
            || input is Failed,
        ListenerPhase::Dispatching => input is HandlerReturned || input is HandlerFailed,
        ListenerPhase::Responding => input is ResponseWritten || input is Failed,
        ListenerPhase::Closed => false,
    }
}

/// The next phase and the action, for an input that the phase accepts.
pub open spec fn listener_next(middleware: bool, phase: ListenerPhase, input: ListenerInput) -> (
    ListenerPhase,
    ListenerAction,
) {
    match input {
        ListenerInput::Registered => (ListenerPhase::Streaming, ListenerAction::ReadNext),
        ListenerInput::Received(e) => (ListenerPhase::Dispatching, ListenerAction::Invoke(e)),
        ListenerInput::HandlerReturned(None) => (ListenerPhase::Streaming, ListenerAction::ReadNext),
        ListenerInput::HandlerReturned(Some(m)) => if middleware {
            (
                ListenerPhase::Responding,
                ListenerAction::Respond(MiddlewareResponse { msg: Some(m) }),
            )
        } else {
            (ListenerPhase::Closed, ListenerAction::Finish(Err(ClientError::ProtocolMisuse)))
        },
        ListenerInput::HandlerFailed(m) => (
            ListenerPhase::Streaming,
            ListenerAction::ReportThenReadNext(ClientError::Application(m)),
        ),
        ListenerInput::ResponseWritten => (ListenerPhase::Streaming, ListenerAction::ReadNext),
        ListenerInput::StreamEnded => (ListenerPhase::Closed, ListenerAction::Finish(Ok(()))),
        ListenerInput::Failed(e) => (ListenerPhase::Closed, ListenerAction::Finish(Err(e))),
    }
}

/// Whether every input of `inputs` is accepted in turn, starting in `phase`.
pub open spec fn listener_accepts_all(
    middleware: bool,
    phase: ListenerPhase,
    inputs: Seq<ListenerInput>,
) -> bool
    decreases inputs.len(),
{
    inputs.len() == 0 || (listener_accepts(phase, inputs[0]) && listener_accepts_all(
        middleware,
        listener_next(middleware, phase, inputs[0]).0,
        inputs.drop_first(),
    ))
}

/// The actions that answer `inputs`, starting in `phase`.
pub open spec fn listener_run(middleware: bool, phase: ListenerPhase, inputs: Seq<ListenerInput>) -> Seq<
    ListenerAction,
>
    decreases inputs.len(),
{
    if inputs.len() == 0 {
        Seq::empty()
    } else {
        let (p, a) = listener_next(middleware, phase, inputs[0]);
        seq![a] + listener_run(middleware, p, inputs.drop_first())
    }
}

/// The events delivered by the stream, in order.
pub open spec fn delivered(inputs: Seq<ListenerInput>) -> Seq<Event>
    decreases inputs.len(),
{
    if inputs.len() == 0 {
        Seq::empty()
    } else {
        let rest = delivered(inputs.drop_first());
        match inputs[0] {
            ListenerInput::Received(e) => seq![e] + rest,
            _ => rest,
        }
    }
}

/// The events handed to the handler, in order.
pub open spec fn invoked(actions: Seq<ListenerAction>) -> Seq<Event>
    decreases actions.len(),
{
    if actions.len() == 0 {
        Seq::empty()
    } else {
        let rest = invoked(actions.drop_first());
        match actions[0] {
            ListenerAction::Invoke(e) => seq![e] + rest,
            _ => rest,
        }
    }
}

pub struct ListenerSession {
    listener: Listener,
    phase: ListenerPhase,
}

impl ListenerSession {
    /// The spec that the session was registered with.
    pub closed spec fn subscription(&self) -> Listener {
        self.listener
    }

    pub closed spec fn current_phase(&self) -> ListenerPhase {
        self.phase
    }

    pub fn listener(&self) -> (r: &Listener)
        ensures
            *r == self.subscription(),
    {
        &self.listener
    }

    pub fn phase(&self) -> (r: ListenerPhase)
        ensures
            r == self.current_phase(),
    {
        self.phase
    }

    /// A session for `listener`, before its registration frame is written.
    pub fn new(listener: Listener) -> (r: ListenerSession)
        ensures
            r.subscription() == listener,
            r.current_phase() == ListenerPhase::Registering,
    {
        ListenerSession { listener, phase: ListenerPhase::Registering }
    }

    pub fn accepts(&self, input: &ListenerInput) -> (r: bool)
        ensures
            r == listener_accepts(self.current_phase(), *input),
    {
        match self.phase {
            ListenerPhase::Registering => match input {
                ListenerInput::Registered => true,
                ListenerInput::StreamEnded => true,
                ListenerInput::Failed(_) => true,
                _ => false,
            },
            ListenerPhase::Streaming => match input {
                ListenerInput::Received(_) => true,
                ListenerInput::StreamEnded => true,
                ListenerInput::Failed(_) => true,
                _ => false,
            },
            ListenerPhase::Dispatching => match input {
                ListenerInput::HandlerReturned(_) => true,
                ListenerInput::HandlerFailed(_) => true,
                _ => false,
            },
            ListenerPhase::Responding => match input {
                ListenerInput::ResponseWritten => true,
                ListenerInput::Failed(_) => true,
                _ => false,
            },
            ListenerPhase::Closed => false,
        }
    }

    pub fn is_closed(&self) -> (r: bool)
        ensures
            r == (self.current_phase() == ListenerPhase::Closed),
    {
        match self.phase {
            ListenerPhase::Closed => true,
            _ => false,
        }
    }

    /// Takes one input and says what to do next.
    pub fn step(&mut self, input: ListenerInput) -> (r: ListenerAction)
        requires
            listener_accepts(old(self).current_phase(), input),
        ensures
            final(self).subscription() == old(self).subscription(),
            (final(self).current_phase(), r) == listener_next(
                old(self).subscription().is_middleware(),
                old(self).current_phase(),
                input,
            ),
    {
        let middleware = self.listener.middleware();
        let (phase, action) = match input {
            ListenerInput::Registered => (ListenerPhase::Streaming, ListenerAction::ReadNext),
            ListenerInput::Received(e) => (ListenerPhase::Dispatching, ListenerAction::Invoke(e)),
            ListenerInput::HandlerReturned(None) => (
                ListenerPhase::Streaming,
                ListenerAction::ReadNext,
            ),
            ListenerInput::HandlerReturned(Some(m)) => if middleware {
                (
                    ListenerPhase::Responding,
                    ListenerAction::Respond(MiddlewareResponse { msg: Some(m) }),
                )
            } else {
                (ListenerPhase::Closed, ListenerAction::Finish(Err(ClientError::ProtocolMisuse)))
            },
            ListenerInput::HandlerFailed(m) => (
                ListenerPhase::Streaming,
                ListenerAction::ReportThenReadNext(ClientError::Application(m)),
            ),
            ListenerInput::ResponseWritten => (ListenerPhase::Streaming, ListenerAction::ReadNext),
            ListenerInput::StreamEnded => (ListenerPhase::Closed, ListenerAction::Finish(Ok(()))),
            ListenerInput::Failed(e) => (ListenerPhase::Closed, ListenerAction::Finish(Err(e))),
        };
        self.phase = phase;
        action
    }
}

/// Over any run of a session, the handler is invoked exactly once on each
/// delivered event, in the order of delivery.
pub proof fn lemma_handler_sees_events_in_order(
    middleware: bool,
    phase: ListenerPhase,
    inputs: Seq<ListenerInput>,
)
    requires
        listener_accepts_all(middleware, phase, inputs),
    ensures
        invoked(listener_run(middleware, phase, inputs)) == delivered(inputs),
    decreases inputs.len(),
{
    if inputs.len() > 0 {
        let (p, a) = listener_next(middleware, phase, inputs[0]);
        let rest = listener_run(middleware, p, inputs.drop_first());
        lemma_handler_sees_events_in_order(middleware, p, inputs.drop_first());
        let run = listener_run(middleware, phase, inputs);
        assert(run == seq![a] + rest);
        assert(run.drop_first() == rest);
    }
}

/// A failed registration or stream ends the session with the error of the
/// failure itself: a credential the host rejects ends it with `Auth`.
pub proof fn lemma_failure_ends_with_its_error(middleware: bool, phase: ListenerPhase, e: ClientError)
    requires
        phase == ListenerPhase::Registering || phase == ListenerPhase::Streaming
            || phase == ListenerPhase::Responding,
    ensures
        listener_accepts(phase, ListenerInput::Failed(e)),
        listener_next(middleware, phase, ListenerInput::Failed(e)) == (
            ListenerPhase::Closed,
            ListenerAction::Finish(Err(e)),
        ),
{
}

/// A middleware handler's replacement is written as the very next frame, and
/// no event can be read until that write is done.
pub proof fn lemma_middleware_response_before_next_read(m: String, e: Event)
    ensures
        listener_next(true, ListenerPhase::Dispatching, ListenerInput::HandlerReturned(Some(m)))
            == (
            ListenerPhase::Responding,
            ListenerAction::Respond(MiddlewareResponse { msg: Some(m) }),
        ),
        !listener_accepts(ListenerPhase::Responding, ListenerInput::Received(e)),
{
}

/// A replacement returned by a listener that is not a middleware ends the
/// session with `ProtocolMisuse`, and nothing is read after that.
pub proof fn lemma_misuse_closes_session(m: String, rest: Seq<ListenerInput>)
    ensures
        listener_next(false, ListenerPhase::Dispatching, ListenerInput::HandlerReturned(Some(m)))
            == (ListenerPhase::Closed, ListenerAction::Finish(Err(ClientError::ProtocolMisuse))),
        listener_accepts_all(false, ListenerPhase::Closed, rest) ==> rest.len() == 0,
        listener_accepts_all(false, ListenerPhase::Closed, rest) ==> delivered(rest).len() == 0,
{
}

} // verus!
