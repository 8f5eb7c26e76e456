//! The routing tables of the dispatcher: which callback a request, a signal
//! or a timer task stands for, and which source a token names. These are the
//! dispatcher's decisions, apart from the calls that carry them out.

use vstd::prelude::*;
use crate::api::{EndpointRequest, EndpointSpec, Event, IoError, Message, SocketRequest};
use crate::dispatcher::{Context, Schedulable};
use crate::ids::{EndpointId, Token, BUS_TOKEN, CHANNEL_TOKEN, TIMER_TOKEN};
use crate::network::Socket;

verus! {

/// One callback of a socket, with its arguments.
#[derive(Clone, Debug, PartialEq, Eq)]
pub enum SocketCall {
    Connect(String),
    Bind(String),
    Send(Message),
    Recv,
    Close,
    ClosePipe(EndpointId),
    CloseAcceptor(EndpointId),
    PipeOpened(EndpointId),
    SendReady(EndpointId),
    SendAck(EndpointId),
    RecvReady(EndpointId),
    RecvAck(EndpointId, Message),
    PipeError(EndpointId, IoError),
    PipeAccepted(EndpointId, EndpointId),
    AcceptorError(EndpointId, IoError),
    SendTimeout,
    RecvTimeout,
    TimerTick(Schedulable),
    Reconnect(EndpointId, EndpointSpec),
    Rebind(EndpointId, EndpointSpec),
    DevicePlugged,
}

/// The source that a token names.
#[derive(Clone, Copy, Debug, PartialEq, Eq, Structural)]
pub enum Source {
    Channel,
    Bus,
    Timer,
    Endpoint(EndpointId),
}

/// What becomes of an event that a pipe reported.
#[derive(Clone, Debug, PartialEq, Eq)]
pub enum PipeRoute {
    /// The pipe's socket gets this callback.
    Deliver(SocketCall),
    /// The pipe leaves the collection; no socket is called.
    Remove,
    /// The event means nothing on a pipe.
    Ignore,
}

/// What becomes of an event that an acceptor reported.
#[derive(Debug, PartialEq, Eq)]
pub enum AcceptorRoute<P> {
    /// The acceptor's socket gets this callback.
    Deliver(SocketCall),
    /// Each pipe joins the collection; the socket hears of each.
    Accept(Vec<P>),
    /// The event means nothing on an acceptor.
    Ignore,
}

/// What becomes of an event that a socket raised.
#[derive(Clone, Copy, Debug, PartialEq, Eq, Structural)]
pub enum SocketRoute {
    /// The device that links the socket hears that it can receive.
    Notify,
    /// The socket leaves the session.
    Remove,
    /// The event means nothing on a socket.
    Ignore,
}

/// The source of `token`: one of the three reserved tokens, or else the
/// endpoint whose identifier the token is.
pub open spec fn source_of(token: Token) -> Source {
    if token.0 == CHANNEL_TOKEN {
        Source::Channel
    } else if token.0 == BUS_TOKEN {
        Source::Bus
    } else if token.0 == TIMER_TOKEN {
        Source::Timer
    } else {
        Source::Endpoint(EndpointId(token.0))
    }
}

/// The callback that a socket request stands for.
pub open spec fn call_of_request(request: SocketRequest) -> SocketCall {
    match request {
        SocketRequest::Connect(url) => SocketCall::Connect(url),
        SocketRequest::Bind(url) => SocketCall::Bind(url),
        SocketRequest::Send(msg) => SocketCall::Send(msg),
        SocketRequest::Recv => SocketCall::Recv,
        SocketRequest::Close => SocketCall::Close,
    }
}

/// The callback that an endpoint request stands for: the socket closes the
/// pipe where `remote` is set, the acceptor otherwise.
pub open spec fn call_of_endpoint_request(eid: EndpointId, request: EndpointRequest) -> SocketCall {
    match request {
        EndpointRequest::Close(remote) => if remote {
            SocketCall::ClosePipe(eid)
        } else {
            SocketCall::CloseAcceptor(eid)
        },
    }
}

/// The callback that a fired task stands for: reconnect, rebind and the two
/// timeouts have one of their own, every other kind is a plain timer tick.
pub open spec fn call_of_task(task: Schedulable) -> SocketCall {
    match task {
        Schedulable::Reconnect(eid, spec) => SocketCall::Reconnect(eid, spec),
        Schedulable::Rebind(eid, spec) => SocketCall::Rebind(eid, spec),
        Schedulable::SendTimeout => SocketCall::SendTimeout,
        Schedulable::RecvTimeout => SocketCall::RecvTimeout,
        other => SocketCall::TimerTick(other),
    }
}

/// The route of an event of pipe `eid`.
pub open spec fn route_of_pipe_event<P>(eid: EndpointId, evt: Event<P>) -> PipeRoute {
    match evt {
        Event::Opened => PipeRoute::Deliver(SocketCall::PipeOpened(eid)),
        Event::CanSend => PipeRoute::Deliver(SocketCall::SendReady(eid)),
        Event::Sent => PipeRoute::Deliver(SocketCall::SendAck(eid)),
        Event::CanRecv => PipeRoute::Deliver(SocketCall::RecvReady(eid)),
        Event::Received(msg) => PipeRoute::Deliver(SocketCall::RecvAck(eid, msg)),
        Event::Error(err) => PipeRoute::Deliver(SocketCall::PipeError(eid, err)),
        Event::Closed => PipeRoute::Remove,
        Event::Accepted(_) => PipeRoute::Ignore,
    }
}

/// The route of an event of acceptor `aid`.
pub open spec fn route_of_acceptor_event<P>(aid: EndpointId, evt: Event<P>) -> AcceptorRoute<P> {
    match evt {
        Event::Error(err) => AcceptorRoute::Deliver(SocketCall::AcceptorError(aid, err)),
        Event::Accepted(pipes) => AcceptorRoute::Accept(pipes),
        _ => AcceptorRoute::Ignore,
    }
}

/// The route of an event that a socket raised.
pub open spec fn route_of_socket_event<P>(evt: Event<P>) -> SocketRoute {
    match evt {
        Event::CanRecv => SocketRoute::Notify,
        Event::Closed => SocketRoute::Remove,
        _ => SocketRoute::Ignore,
    }
}

pub fn token_source(token: Token) -> (source: Source)
    ensures
        source == source_of(token),
{
    if token.0 == CHANNEL_TOKEN {
        Source::Channel
    } else if token.0 == BUS_TOKEN {
        Source::Bus
    } else if token.0 == TIMER_TOKEN {
        Source::Timer
    } else {
        Source::Endpoint(EndpointId(token.0))
    }
}

pub fn request_call(request: SocketRequest) -> (call: SocketCall)
    ensures
        call == call_of_request(request),
{
    match request {
        SocketRequest::Connect(url) => SocketCall::Connect(url),
        SocketRequest::Bind(url) => SocketCall::Bind(url),
        SocketRequest::Send(msg) => SocketCall::Send(msg),
        SocketRequest::Recv => SocketCall::Recv,
        SocketRequest::Close => SocketCall::Close,
    }
}

pub fn endpoint_request_call(eid: EndpointId, request: EndpointRequest) -> (call: SocketCall)
    ensures
        call == call_of_endpoint_request(eid, request),
{
    match request {
        EndpointRequest::Close(remote) => if remote {
            SocketCall::ClosePipe(eid)
        } else {
            SocketCall::CloseAcceptor(eid)
        },
    }
}

pub fn task_call(task: Schedulable) -> (call: SocketCall)
    ensures
        call == call_of_task(task),
{
    match task {
        Schedulable::Reconnect(eid, spec) => SocketCall::Reconnect(eid, spec),
        Schedulable::Rebind(eid, spec) => SocketCall::Rebind(eid, spec),
        Schedulable::SendTimeout => SocketCall::SendTimeout,
        Schedulable::RecvTimeout => SocketCall::RecvTimeout,
        other => SocketCall::TimerTick(other),
    }
}

pub fn pipe_event_route<P>(eid: EndpointId, evt: Event<P>) -> (route: PipeRoute)
    ensures
        route == route_of_pipe_event(eid, evt),
{
    match evt {
        Event::Opened => PipeRoute::Deliver(SocketCall::PipeOpened(eid)),
        Event::CanSend => PipeRoute::Deliver(SocketCall::SendReady(eid)),
        Event::Sent => PipeRoute::Deliver(SocketCall::SendAck(eid)),
        Event::CanRecv => PipeRoute::Deliver(SocketCall::RecvReady(eid)),
        Event::Received(msg) => PipeRoute::Deliver(SocketCall::RecvAck(eid, msg)),
        Event::Error(err) => PipeRoute::Deliver(SocketCall::PipeError(eid, err)),
        Event::Closed => PipeRoute::Remove,
        Event::Accepted(_) => PipeRoute::Ignore,
    }
}

pub fn acceptor_event_route<P>(aid: EndpointId, evt: Event<P>) -> (route: AcceptorRoute<P>)
    ensures
        route == route_of_acceptor_event(aid, evt),
{
    match evt {
        Event::Error(err) => AcceptorRoute::Deliver(SocketCall::AcceptorError(aid, err)),
        Event::Accepted(pipes) => AcceptorRoute::Accept(pipes),
        _ => AcceptorRoute::Ignore,
    }
}

pub fn socket_event_route<P>(evt: Event<P>) -> (route: SocketRoute)
    ensures
        route == route_of_socket_event(evt),
{
    match evt {
        Event::CanRecv => SocketRoute::Notify,
        Event::Closed => SocketRoute::Remove,
        _ => SocketRoute::Ignore,
    }
}

/// Makes the one call on `socket` that `call` names, with `call`'s arguments
/// and the context given: the socket and the context end as the socket's
/// `reacts` says of that call, and nothing else is done to either.
pub fn deliver<P, S: Socket<P>, C: Context<P>>(socket: &mut S, ctx: &mut C, call: SocketCall)
    ensures
        old(socket).reacts(*old(ctx), call, final(socket), *final(ctx)),
{
    match call {
        SocketCall::Connect(url) => socket.connect(ctx, url),
        SocketCall::Bind(url) => socket.bind(ctx, url),
        SocketCall::Send(msg) => socket.send(ctx, msg),
        SocketCall::Recv => socket.recv(ctx),
        SocketCall::Close => socket.close(ctx),
        SocketCall::ClosePipe(eid) => socket.close_pipe(ctx, eid),
        SocketCall::CloseAcceptor(eid) => socket.close_acceptor(ctx, eid),
        SocketCall::PipeOpened(eid) => socket.on_pipe_opened(ctx, eid),
        SocketCall::SendReady(eid) => socket.on_send_ready(ctx, eid),
        SocketCall::SendAck(eid) => socket.on_send_ack(ctx, eid),
        SocketCall::RecvReady(eid) => socket.on_recv_ready(ctx, eid),
        SocketCall::RecvAck(eid, msg) => socket.on_recv_ack(ctx, eid, msg),
        SocketCall::PipeError(eid, err) => socket.on_pipe_error(ctx, eid, err),
        SocketCall::PipeAccepted(aid, eid) => socket.on_pipe_accepted(ctx, aid, eid),
        SocketCall::AcceptorError(aid, err) => socket.on_acceptor_error(ctx, aid, err),
        SocketCall::SendTimeout => socket.on_send_timeout(ctx),
        SocketCall::RecvTimeout => socket.on_recv_timeout(ctx),
        SocketCall::TimerTick(task) => socket.on_timer_tick(ctx, task),
        SocketCall::Reconnect(eid, spec) => socket.reconnect(ctx, eid, spec),
        SocketCall::Rebind(eid, spec) => socket.rebind(ctx, eid, spec),
        SocketCall::DevicePlugged => socket.on_device_plugged(ctx),
    }
}

} // verus!
