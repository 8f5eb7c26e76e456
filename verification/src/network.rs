//! The collaborators of the reactor: what it calls on sockets, devices,
//! endpoints and transports. How they behave is theirs; the reactor promises
//! only which of these calls it makes, and when.

use vstd::prelude::*;
use crate::api::{Command, EndpointSpec, IoError, Message, Signal};
use crate::bus::EventLoopBus;
use crate::dispatcher::{Context, Schedulable};
use crate::routing::SocketCall;
use crate::event_loop::EventLoop;
use crate::ids::{EndpointId, Ready, SocketId};

verus! {

/// Names an endpoint to itself: its own identifier, under which its source
/// is registered and its events are posted, and the socket it belongs to.
#[derive(Clone, Copy, Debug, PartialEq, Eq, Structural)]
pub struct Place {
    pub socket: SocketId,
    pub endpoint: EndpointId,
}

/// What an endpoint is lent for one callback: the loop, and the signals on
/// the bus, oldest first.
pub struct Lent<R, P> {
    pub el: EventLoop<R>,
    pub signals: Seq<Signal<P>>,
}

/// The loop `el` and the signals `signals`, as lent to an endpoint.
pub open spec fn lent<R, P>(el: EventLoop<R>, signals: Seq<Signal<P>>) -> Lent<R, P> {
    Lent { el, signals }
}

/// The place of endpoint `endpoint` of socket `socket`.
pub open spec fn place_of(socket: SocketId, endpoint: EndpointId) -> Place {
    Place { socket, endpoint }
}

/// A bidirectional message channel to one peer. `R` is the poller that the
/// pipe registers its source with.
pub trait Pipe<R>: Sized {
    /// Whether a pipe in state `self`, lent the loop and the bus as `lent`
    /// has them, may be in state `after`, and leave them as `left` has them,
    /// once it was told that its source is ready. A pipe says here what that
    /// does; one that says nothing of itself leaves this as it is, which
    /// admits every outcome.
    open spec fn readied(&self, lent: Lent<R, Self>, at: Place, events: Ready, after: &Self, left: Lent<R, Self>) -> bool {
        true
    }

    /// Whether a pipe in state `self` may be in state `after` once it has
    /// processed `cmd`; as `readied`, it admits every outcome unless the pipe
    /// says more.
    open spec fn processed(&self, lent: Lent<R, Self>, at: Place, cmd: Command, after: &Self, left: Lent<R, Self>) -> bool {
        true
    }

    /// The pipe's source is ready.
    fn ready(&mut self, el: &mut EventLoop<R>, bus: &mut EventLoopBus<Signal<Self>>, at: Place, events: Ready)
        ensures
            old(self).readied(lent(*old(el), old(bus)@), at, events, final(self), lent(*final(el), final(bus)@)),
    ;

    /// The pipe's socket asks for something.
    fn process(&mut self, el: &mut EventLoop<R>, bus: &mut EventLoopBus<Signal<Self>>, at: Place, cmd: Command)
        ensures
            old(self).processed(lent(*old(el), old(bus)@), at, cmd, final(self), lent(*final(el), final(bus)@)),
    ;
}

/// A listening endpoint, which yields pipes of type `P`.
pub trait Acceptor<R, P>: Sized {
    /// Whether an acceptor in state `self`, lent the loop and the bus as
    /// `lent` has them, may be in state `after`, and leave them as `left` has
    /// them, once it was told that its source is ready; it admits every
    /// outcome unless the acceptor says more.
    open spec fn readied(&self, lent: Lent<R, P>, at: Place, events: Ready, after: &Self, left: Lent<R, P>) -> bool {
        true
    }

    /// Whether an acceptor in state `self` may be in state `after` once it
    /// has processed `cmd`; it admits every outcome unless the acceptor says
    /// more.
    open spec fn processed(&self, lent: Lent<R, P>, at: Place, cmd: Command, after: &Self, left: Lent<R, P>) -> bool {
        true
    }

    /// The acceptor's source is ready.
    fn ready(&mut self, el: &mut EventLoop<R>, bus: &mut EventLoopBus<Signal<P>>, at: Place, events: Ready)
        ensures
            old(self).readied(lent(*old(el), old(bus)@), at, events, final(self), lent(*final(el), final(bus)@)),
    ;

    /// The acceptor's socket asks for something.
    fn process(&mut self, el: &mut EventLoop<R>, bus: &mut EventLoopBus<Signal<P>>, at: Place, cmd: Command)
        ensures
            old(self).processed(lent(*old(el), old(bus)@), at, cmd, final(self), lent(*final(el), final(bus)@)),
    ;
}

/// Creates the endpoints of one scheme.
pub trait Transport<P, A>: Sized {
    /// Whether `outcome` may be what the transport makes of a connect to
    /// `url`; it admits every outcome unless the transport says more.
    open spec fn connects(&self, url: Seq<char>, outcome: Result<P, IoError>) -> bool {
        true
    }

    /// Whether `outcome` may be what the transport makes of a bind to `url`;
    /// it admits every outcome unless the transport says more.
    open spec fn binds(&self, url: Seq<char>, outcome: Result<A, IoError>) -> bool {
        true
    }

    /// An outbound endpoint for `url`.
    fn connect(&self, url: &str) -> (outcome: Result<P, IoError>)
        ensures
            self.connects(url@, outcome),
    ;

    /// A listener for `url`.
    fn bind(&self, url: &str) -> (outcome: Result<A, IoError>)
        ensures
            self.binds(url@, outcome),
    ;
}

/// A pairing of two sockets for forwarding in either direction.
pub trait Device: Sized {
    /// Whether a device in state `self` may be in state `after` once it has
    /// done one forwarding sweep; it admits every state unless the device
    /// says more.
    open spec fn swept(&self, after: &Self) -> bool {
        true
    }

    /// Whether a device in state `self` may be in state `after` once it was
    /// told that socket `sid` can receive; it admits every state unless the
    /// device says more.
    open spec fn notified(&self, sid: SocketId, after: &Self) -> bool {
        true
    }

    /// Whether `device` may be the device made to link `left` and `right`;
    /// it admits every device unless the device says more.
    open spec fn linked(left: SocketId, right: SocketId, device: &Self) -> bool {
        true
    }

    fn link(left: SocketId, right: SocketId) -> (device: Self)
        ensures
            Self::linked(left, right, &device),
    ;

    /// One forwarding sweep.
    fn check(&mut self)
        ensures
            old(self).swept(final(self)),
    ;

    fn on_socket_can_recv(&mut self, sid: SocketId)
        ensures
            old(self).notified(sid, final(self)),
    ;
}

/// A socket state machine. Each callback gets the context of its own socket
/// for the time of the call.
pub trait Socket<P>: Sized {
    /// What a socket is constructed from.
    type Ctor;

    /// Whether a socket in state `self`, lent the context `ctx`, may be in
    /// state `after`, and leave the context as `left`, once it has got the
    /// callback `call`. A socket says here what each callback does, to itself
    /// and through its context; one that says nothing of itself leaves this
    /// as it is, which admits every outcome.
    open spec fn reacts<C: Context<P>>(&self, ctx: C, call: SocketCall, after: &Self, left: C) -> bool {
        true
    }

    /// Whether `socket` may be the socket made from `ctor` under identifier
    /// `id`; it admits every socket unless the socket says more.
    open spec fn created(ctor: Self::Ctor, id: SocketId, socket: &Self) -> bool {
        true
    }

    fn create(ctor: Self::Ctor, id: SocketId) -> (socket: Self)
        ensures
            Self::created(ctor, id, &socket),
    ;

    fn connect<C: Context<P>>(&mut self, ctx: &mut C, url: String)
        ensures
            old(self).reacts(*old(ctx), SocketCall::Connect(url), final(self), *final(ctx)),
    ;

    fn bind<C: Context<P>>(&mut self, ctx: &mut C, url: String)
        ensures
            old(self).reacts(*old(ctx), SocketCall::Bind(url), final(self), *final(ctx)),
    ;

    fn send<C: Context<P>>(&mut self, ctx: &mut C, msg: Message)
        ensures
            old(self).reacts(*old(ctx), SocketCall::Send(msg), final(self), *final(ctx)),
    ;

    fn recv<C: Context<P>>(&mut self, ctx: &mut C)
        ensures
            old(self).reacts(*old(ctx), SocketCall::Recv, final(self), *final(ctx)),
    ;

    fn close<C: Context<P>>(&mut self, ctx: &mut C)
        ensures
            old(self).reacts(*old(ctx), SocketCall::Close, final(self), *final(ctx)),
    ;

    fn close_pipe<C: Context<P>>(&mut self, ctx: &mut C, eid: EndpointId)
        ensures
            old(self).reacts(*old(ctx), SocketCall::ClosePipe(eid), final(self), *final(ctx)),
    ;

    fn close_acceptor<C: Context<P>>(&mut self, ctx: &mut C, eid: EndpointId)
        ensures
            old(self).reacts(*old(ctx), SocketCall::CloseAcceptor(eid), final(self), *final(ctx)),
    ;

    fn on_pipe_opened<C: Context<P>>(&mut self, ctx: &mut C, eid: EndpointId)
        ensures
            old(self).reacts(*old(ctx), SocketCall::PipeOpened(eid), final(self), *final(ctx)),
    ;

    fn on_send_ready<C: Context<P>>(&mut self, ctx: &mut C, eid: EndpointId)
        ensures
            old(self).reacts(*old(ctx), SocketCall::SendReady(eid), final(self), *final(ctx)),
    ;

    fn on_send_ack<C: Context<P>>(&mut self, ctx: &mut C, eid: EndpointId)
        ensures
            old(self).reacts(*old(ctx), SocketCall::SendAck(eid), final(self), *final(ctx)),
    ;

    fn on_recv_ready<C: Context<P>>(&mut self, ctx: &mut C, eid: EndpointId)
        ensures
            old(self).reacts(*old(ctx), SocketCall::RecvReady(eid), final(self), *final(ctx)),
    ;

    fn on_recv_ack<C: Context<P>>(&mut self, ctx: &mut C, eid: EndpointId, msg: Message)
        ensures
            old(self).reacts(*old(ctx), SocketCall::RecvAck(eid, msg), final(self), *final(ctx)),
    ;

    fn on_pipe_error<C: Context<P>>(&mut self, ctx: &mut C, eid: EndpointId, err: IoError)
        ensures
            old(self).reacts(*old(ctx), SocketCall::PipeError(eid, err), final(self), *final(ctx)),
    ;

    fn on_pipe_accepted<C: Context<P>>(&mut self, ctx: &mut C, aid: EndpointId, eid: EndpointId)
        ensures
            old(self).reacts(*old(ctx), SocketCall::PipeAccepted(aid, eid), final(self), *final(ctx)),
    ;

    fn on_acceptor_error<C: Context<P>>(&mut self, ctx: &mut C, aid: EndpointId, err: IoError)
        ensures
            old(self).reacts(*old(ctx), SocketCall::AcceptorError(aid, err), final(self), *final(ctx)),
    ;

    fn on_send_timeout<C: Context<P>>(&mut self, ctx: &mut C)
        ensures
            old(self).reacts(*old(ctx), SocketCall::SendTimeout, final(self), *final(ctx)),
    ;

    fn on_recv_timeout<C: Context<P>>(&mut self, ctx: &mut C)
        ensures
            old(self).reacts(*old(ctx), SocketCall::RecvTimeout, final(self), *final(ctx)),
    ;

    fn on_timer_tick<C: Context<P>>(&mut self, ctx: &mut C, task: Schedulable)
        ensures
            old(self).reacts(*old(ctx), SocketCall::TimerTick(task), final(self), *final(ctx)),
    ;

    fn reconnect<C: Context<P>>(&mut self, ctx: &mut C, eid: EndpointId, spec: EndpointSpec)
        ensures
            old(self).reacts(*old(ctx), SocketCall::Reconnect(eid, spec), final(self), *final(ctx)),
    ;

    fn rebind<C: Context<P>>(&mut self, ctx: &mut C, eid: EndpointId, spec: EndpointSpec)
        ensures
            old(self).reacts(*old(ctx), SocketCall::Rebind(eid, spec), final(self), *final(ctx)),
    ;

    fn on_device_plugged<C: Context<P>>(&mut self, ctx: &mut C)
        ensures
            old(self).reacts(*old(ctx), SocketCall::DevicePlugged, final(self), *final(ctx)),
    ;
}

} // verus!
