//! The context of a socket callback: the only way by which a socket reaches
//! the bus, the endpoints, the schedule and the timer. The reactor holds it
//! and lends it to one callback at a time, for exactly the time of the call.

use vstd::prelude::*;
use crate::api::{Command, EndpointSpec, Event, IoError, Message, Signal, Task};
use crate::bus::EventLoopBus;
use crate::dispatcher::{Context, Network, Schedulable, Scheduled, Scheduler};
use crate::endpoints::EndpointCollection;
use crate::ids::{EndpointId, SocketId};
use crate::network::Transport;
use crate::schedule::{Schedule, Wheel};

verus! {

/// What a callback of socket `socket_id` may use: the bus, the endpoints, the
/// schedule and the timer of the reactor. A callback gets it by `&mut` and so
/// keeps no way into the reactor beyond its own return.
pub struct SocketEventLoopContext<P, A, T> {
    /// The socket whose callback the context is lent to.
    pub socket_id: SocketId,
    /// The signals deferred out of callbacks.
    pub bus: EventLoopBus<Signal<P>>,
    pub endpoints: EndpointCollection<P, A, T>,
    pub schedule: Schedule,
    /// The timing wheel; its entries carry the handles of `schedule`.
    pub timer: Wheel,
}

/// The signal by which a socket asks an endpoint of its own for something:
/// addressed to the pipe `eid` where `remote` holds, to the acceptor otherwise.
pub open spec fn endpoint_cmd<P>(sid: SocketId, eid: EndpointId, remote: bool, cmd: Command) -> Signal<P> {
    if remote {
        Signal::PipeCmd(sid, eid, cmd)
    } else {
        Signal::AcceptorCmd(sid, eid, cmd)
    }
}

impl<P, A, T> SocketEventLoopContext<P, A, T> {
    /// The same context, lent to socket `sid`.
    pub open spec fn lent_to(self, sid: SocketId) -> Self {
        SocketEventLoopContext { socket_id: sid, ..self }
    }

    /// A context around the parts of a reactor, lent to no socket yet.
    pub fn new(bus: EventLoopBus<Signal<P>>, endpoints: EndpointCollection<P, A, T>, schedule: Schedule, timer: Wheel) -> (ctx: Self)
        ensures
            ctx.bus == bus,
            ctx.endpoints == endpoints,
            ctx.schedule == schedule,
            ctx.timer == timer,
    {
        SocketEventLoopContext { socket_id: SocketId(0), bus, endpoints, schedule, timer }
    }

    /// Posts `signal` to the bus, behind what is queued there.
    pub fn post(&mut self, signal: Signal<P>)
        ensures
            final(self).bus@ == old(self).bus@.push(signal),
            final(self).socket_id == old(self).socket_id,
            final(self).endpoints == old(self).endpoints,
            final(self).schedule == old(self).schedule,
            final(self).timer == old(self).timer,
    {
        self.bus.send(signal);
    }

    /// Posts `cmd` for endpoint `eid` of this socket: for the pipe where
    /// `remote` holds, for the acceptor otherwise.
    pub fn command(&mut self, eid: EndpointId, remote: bool, cmd: Command)
        ensures
            final(self).bus@ == old(self).bus@.push(endpoint_cmd(old(self).socket_id, eid, remote, cmd)),
            final(self).socket_id == old(self).socket_id,
            final(self).endpoints == old(self).endpoints,
            final(self).schedule == old(self).schedule,
            final(self).timer == old(self).timer,
    {
        if remote {
            self.post(Signal::PipeCmd(self.socket_id, eid, cmd));
        } else {
            self.post(Signal::AcceptorCmd(self.socket_id, eid, cmd));
        }
    }
}

impl<P, A, T> Scheduler for SocketEventLoopContext<P, A, T> {
    /// Schedules `Task::Socket` of this socket with `schedulable`, as
    /// `Schedule::schedule` says.
    fn schedule(&mut self, schedulable: Schedulable, delay_ms: u64) -> (result: Result<Scheduled, IoError>)
        ensures
            old(self).schedule.scheduled(
                old(self).timer,
                final(self).schedule,
                final(self).timer,
                Task::Socket(old(self).socket_id, schedulable),
                result,
            ),
            old(self).schedule.tracks(old(self).timer) ==> final(self).schedule.tracks(final(self).timer),
            final(self).socket_id == old(self).socket_id,
            final(self).bus == old(self).bus,
            final(self).endpoints == old(self).endpoints,
    {
        let task = Task::Socket(self.socket_id, schedulable);
        self.schedule.schedule(&mut self.timer, task, delay_ms)
    }

    /// Cancels `scheduled`, as `Schedule::cancel` says.
    fn cancel(&mut self, scheduled: Scheduled)
        ensures
            old(self).schedule.cancelled(old(self).timer, final(self).schedule, final(self).timer, scheduled),
            old(self).schedule.tracks(old(self).timer) ==> final(self).schedule.tracks(final(self).timer),
            final(self).socket_id == old(self).socket_id,
            final(self).bus == old(self).bus,
            final(self).endpoints == old(self).endpoints,
    {
        self.schedule.cancel(&mut self.timer, scheduled);
    }
}

impl<P, A, T: Transport<P, A>> Network for SocketEventLoopContext<P, A, T> {
    /// Creates a pipe of this socket for `spec`, as
    /// `EndpointCollection::connect` says.
    fn connect(&mut self, spec: &EndpointSpec) -> (result: Result<EndpointId, IoError>)
        ensures
            old(self).endpoints.connected(final(self).endpoints, old(self).socket_id, spec.url@, result),
            final(self).socket_id == old(self).socket_id,
            final(self).bus == old(self).bus,
            final(self).schedule == old(self).schedule,
            final(self).timer == old(self).timer,
    {
        self.endpoints.connect(self.socket_id, spec)
    }

    /// Puts a new pipe for `spec` in the place of pipe `eid`, as
    /// `EndpointCollection::reconnect` says.
    fn reconnect(&mut self, eid: EndpointId, spec: &EndpointSpec) -> (result: Result<(), IoError>)
        ensures
            old(self).endpoints.reconnected(final(self).endpoints, old(self).socket_id, eid, spec.url@, result),
            final(self).socket_id == old(self).socket_id,
            final(self).bus == old(self).bus,
            final(self).schedule == old(self).schedule,
            final(self).timer == old(self).timer,
    {
        self.endpoints.reconnect(self.socket_id, eid, spec)
    }

    /// Creates an acceptor of this socket for `spec`, as
    /// `EndpointCollection::bind` says.
    fn bind(&mut self, spec: &EndpointSpec) -> (result: Result<EndpointId, IoError>)
        ensures
            old(self).endpoints.bound(final(self).endpoints, old(self).socket_id, spec.url@, result),
            final(self).socket_id == old(self).socket_id,
            final(self).bus == old(self).bus,
            final(self).schedule == old(self).schedule,
            final(self).timer == old(self).timer,
    {
        self.endpoints.bind(self.socket_id, spec)
    }

    /// Puts a new acceptor for `spec` in the place of acceptor `eid`, as
    /// `EndpointCollection::rebind` says.
    fn rebind(&mut self, eid: EndpointId, spec: &EndpointSpec) -> (result: Result<(), IoError>)
        ensures
            old(self).endpoints.rebound(final(self).endpoints, old(self).socket_id, eid, spec.url@, result),
            final(self).socket_id == old(self).socket_id,
            final(self).bus == old(self).bus,
            final(self).schedule == old(self).schedule,
            final(self).timer == old(self).timer,
    {
        self.endpoints.rebind(self.socket_id, eid, spec)
    }

    /// Asks endpoint `eid` to open: posts `Command::Open` for it.
    fn open(&mut self, eid: EndpointId, remote: bool)
        ensures
            final(self).bus@ == old(self).bus@.push(endpoint_cmd(old(self).socket_id, eid, remote, Command::Open)),
            final(self).socket_id == old(self).socket_id,
            final(self).endpoints == old(self).endpoints,
            final(self).schedule == old(self).schedule,
            final(self).timer == old(self).timer,
    {
        self.command(eid, remote, Command::Open);
    }

    /// Asks endpoint `eid` to close: posts `Command::Close` for it.
    fn close(&mut self, eid: EndpointId, remote: bool)
        ensures
            final(self).bus@ == old(self).bus@.push(endpoint_cmd(old(self).socket_id, eid, remote, Command::Close)),
            final(self).socket_id == old(self).socket_id,
            final(self).endpoints == old(self).endpoints,
            final(self).schedule == old(self).schedule,
            final(self).timer == old(self).timer,
    {
        self.command(eid, remote, Command::Close);
    }

    /// Asks pipe `eid` to send `msg`: posts `Command::Send` for it.
    fn send(&mut self, eid: EndpointId, msg: Message)
        ensures
            final(self).bus@ == old(self).bus@.push(Signal::PipeCmd(old(self).socket_id, eid, Command::Send(msg))),
            final(self).socket_id == old(self).socket_id,
            final(self).endpoints == old(self).endpoints,
            final(self).schedule == old(self).schedule,
            final(self).timer == old(self).timer,
    {
        self.command(eid, true, Command::Send(msg));
    }

    /// Asks pipe `eid` to receive: posts `Command::Recv` for it.
    fn recv(&mut self, eid: EndpointId)
        ensures
            final(self).bus@ == old(self).bus@.push(Signal::PipeCmd(old(self).socket_id, eid, Command::Recv)),
            final(self).socket_id == old(self).socket_id,
            final(self).endpoints == old(self).endpoints,
            final(self).schedule == old(self).schedule,
            final(self).timer == old(self).timer,
    {
        self.command(eid, true, Command::Recv);
    }
}

impl<P, A, T: Transport<P, A>> Context<P> for SocketEventLoopContext<P, A, T> {
    /// Posts `SocketEvt` of this socket with `evt` to the bus.
    fn raise(&mut self, evt: Event<P>)
        ensures
            final(self).bus@ == old(self).bus@.push(Signal::SocketEvt(old(self).socket_id, evt)),
            final(self).socket_id == old(self).socket_id,
            final(self).endpoints == old(self).endpoints,
            final(self).schedule == old(self).schedule,
            final(self).timer == old(self).timer,
    {
        self.post(Signal::SocketEvt(self.socket_id, evt));
    }
}

} // verus!
