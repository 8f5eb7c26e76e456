//! The dispatcher: demultiplexes tokens and routes requests, signals and
//! timer ticks to the sockets, endpoints and devices that own them.

use vstd::prelude::*;
use crate::api::{Command, DeviceRequest, EndpointRequest, EndpointSpec, Event, IoError, Message, Request, SessionRequest, Signal, SocketRequest, Task};
use crate::bus::EventLoopBus;
use crate::context::SocketEventLoopContext;
use crate::endpoints::{first_of_each, EndpointCollection};
use crate::event_loop::{EventHandler, EventLoop};
use crate::ids::{DeviceId, EndpointId, Ready, Sequence, SocketId, Token, ID_LIMIT};
use crate::network::{lent, place_of, Acceptor, Device, Pipe, Socket, Transport};
use crate::routing::{acceptor_event_route, call_of_endpoint_request, call_of_request, call_of_task, deliver, endpoint_request_call, pipe_event_route, request_call, route_of_acceptor_event, route_of_pipe_event, route_of_socket_event, socket_event_route, source_of, task_call, token_source, AcceptorRoute, PipeRoute, SocketCall, SocketRoute, Source};
use crate::schedule::{new_timer, Due, Schedule, Wheel, TICK_MS, WHEEL_SLOTS};
use crate::timer::no_entries;
use crate::session::{first_device, lemma_first_device, lemma_no_device, DeviceEntry, Session};

verus! {

/// Handle of a scheduled task. Handles grow strictly with each task scheduled
/// and are never used again.
#[derive(Clone, Copy, Debug, PartialEq, Eq, Structural, Hash)]
pub struct Scheduled(pub usize);

impl From<usize> for Scheduled {
    fn from(value: usize) -> (scheduled: Scheduled) {
        Scheduled(value)
    }
}

impl vstd::std_specs::convert::FromSpecImpl<usize> for Scheduled {
    open spec fn obeys_from_spec() -> bool {
        true
    }

    open spec fn from_spec(value: usize) -> Scheduled {
        Scheduled(value)
    }
}

impl Into<usize> for Scheduled {
    fn into(self) -> (value: usize) {
        self.0
    }
}

impl vstd::std_specs::convert::IntoSpecImpl<usize> for Scheduled {
    open spec fn obeys_into_spec() -> bool {
        true
    }

    open spec fn into_spec(self) -> usize {
        self.0
    }
}

impl<'x> Into<usize> for &'x Scheduled {
    fn into(self) -> (value: usize) {
        self.0
    }
}

impl<'x> vstd::std_specs::convert::IntoSpecImpl<usize> for &'x Scheduled {
    open spec fn obeys_into_spec() -> bool {
        true
    }

    open spec fn into_spec(self) -> usize {
        self.0
    }
}

/// The kinds of delayed task.
#[derive(Clone, Debug, PartialEq, Eq)]
pub enum Schedulable {
    Reconnect(EndpointId, EndpointSpec),
    Rebind(EndpointId, EndpointSpec),
    SendTimeout,
    RecvTimeout,
    ReqResend,
    SurveyCancel,
}

/// What a drain did: how many items it took from its source, and whether it
/// saw the source empty at its end.
#[derive(Clone, Copy, Debug, PartialEq, Eq, Structural)]
pub struct Drain {
    pub taken: usize,
    pub empty: bool,
}

/// The tasks of a batch in the order in which they are delivered: from the
/// back of the batch to its front.
pub open spec fn delivery_order(batch: Seq<Due>) -> Seq<Task> {
    Seq::new(batch.len(), |i: int| batch[batch.len() - 1 - i].task)
}

/// The reactor's state: the request intake, the session, and the context
/// that callbacks are lent, which holds the signal bus, the endpoints, the
/// schedule and the timer.
pub struct Dispatcher<S: Socket<P>, D, P, A, T> {
    /// The requests taken over from the user API and not yet processed.
    pub channel: EventLoopBus<Request<S::Ctor>>,
    pub sockets: Session<S, D>,
    pub context: SocketEventLoopContext<P, A, T>,
}

impl<S: Socket<P>, D: Device, P, A, T: Transport<P, A>> Dispatcher<S, D, P, A, T> {
    /// Nothing that the reactor holds differs between `self` and `after`.
    pub open spec fn quiet(&self, after: &Self) -> bool {
        &&& after.channel@ == self.channel@
        &&& after.context.bus@ == self.context.bus@
        &&& self.context.timer.agrees(&after.context.timer)
        &&& self.sockets.agrees(&after.sockets)
        &&& self.context.endpoints.agrees(&after.context.endpoints)
        &&& self.context.schedule.agrees(&after.context.schedule)
    }

    /// What callbacks of the sockets in `touched` cannot reach: the request
    /// intake, which sockets live, every other socket, the devices and the
    /// replies.
    pub open spec fn kept(&self, after: &Self, touched: Set<usize>) -> bool {
        &&& after.channel@ == self.channel@
        &&& self.sockets.kept(&after.sockets, touched)
    }

    /// The outcome of making the callback `call` on socket `sid`: the socket,
    /// lent the reactor's context for itself, has reacted to that call; the
    /// context is as the callback left it, and what the callback cannot reach
    /// is kept. Without such a socket nothing has changed.
    pub open spec fn applied(&self, after: &Self, sid: SocketId, call: SocketCall) -> bool {
        if self.sockets.sockets().contains_key(sid.0) {
            &&& self.kept(after, set![sid.0])
            &&& self.sockets.sockets()[sid.0].reacts(
                self.context.lent_to(sid),
                call,
                &after.sockets.sockets()[sid.0],
                after.context,
            )
        } else {
            self.quiet(after)
        }
    }

    /// What only the endpoint collection, and within it only endpoint `eid`,
    /// differs in.
    pub open spec fn apart_from_endpoint(&self, after: &Self, eid: EndpointId) -> bool {
        &&& after.channel@ == self.channel@
        &&& self.context.timer.agrees(&after.context.timer)
        &&& self.sockets.agrees(&after.sockets)
        &&& self.context.schedule.agrees(&after.context.schedule)
        &&& after.context.endpoints.next_id() == self.context.endpoints.next_id()
        &&& after.context.endpoints.transports() == self.context.endpoints.transports()
        &&& after.context.endpoints.pipes().dom() == self.context.endpoints.pipes().dom()
        &&& after.context.endpoints.acceptors().dom() == self.context.endpoints.acceptors().dom()
        &&& forall|id: usize| #![trigger after.context.endpoints.pipes()[id]]
            id != eid.0 && self.context.endpoints.pipes().contains_key(id) ==> after.context.endpoints.pipes()[id] == self.context.endpoints.pipes()[id]
        &&& forall|id: usize| #![trigger after.context.endpoints.acceptors()[id]]
            id != eid.0 && self.context.endpoints.acceptors().contains_key(id) ==> after.context.endpoints.acceptors()[id] == self.context.endpoints.acceptors()[id]
        &&& self.context.endpoints.pipes().contains_key(eid.0) ==> after.context.endpoints.pipes()[eid.0].0 == self.context.endpoints.pipes()[eid.0].0
        &&& self.context.endpoints.acceptors().contains_key(eid.0) ==> after.context.endpoints.acceptors()[eid.0].0 == self.context.endpoints.acceptors()[eid.0].0
    }

    /// The outcome of a callback on the first device that meets `wanted`:
    /// that device has gone from its state to another as `how` says, and
    /// nothing else differs. Without such a device nothing has changed.
    pub open spec fn device_called(&self, after: &Self, wanted: spec_fn(DeviceEntry<D>) -> bool, how: spec_fn(D, D) -> bool) -> bool {
        &&& after.channel@ == self.channel@
        &&& after.context.bus@ == self.context.bus@
        &&& self.context.timer.agrees(&after.context.timer)
        &&& self.context.endpoints.agrees(&after.context.endpoints)
        &&& self.context.schedule.agrees(&after.context.schedule)
        &&& after.sockets.sockets() == self.sockets.sockets()
        &&& after.sockets.replies() == self.sockets.replies()
        &&& match first_device(self.sockets.devices(), wanted) {
            Some(i) => {
                &&& after.sockets.devices().len() == self.sockets.devices().len()
                &&& after.sockets.devices() == self.sockets.devices().update(
                    i,
                    self.sockets.devices()[i].with(after.sockets.devices()[i].device),
                )
                &&& how(self.sockets.devices()[i].device, after.sockets.devices()[i].device)
            },
            None => after.sockets.devices() == self.sockets.devices(),
        }
    }

    /// The outcome of asking device `id` for one forwarding sweep.
    pub open spec fn device_swept(&self, after: &Self, id: DeviceId) -> bool {
        self.device_called(after, |e: DeviceEntry<D>| e.id == id, |a: D, b: D| a.swept(&b))
    }

    /// The outcome of telling the device that links socket `sid` that the
    /// socket can receive.
    pub open spec fn device_notified(&self, after: &Self, sid: SocketId) -> bool {
        self.device_called(after, |e: DeviceEntry<D>| e.links(sid), |a: D, b: D| a.notified(sid, &b))
    }

    /// Only the pipe `eid` has left: all else is as it was.
    pub open spec fn pipe_removed(&self, after: &Self, eid: EndpointId) -> bool {
        &&& after.channel@ == self.channel@
        &&& after.context.bus@ == self.context.bus@
        &&& self.context.timer.agrees(&after.context.timer)
        &&& self.sockets.agrees(&after.sockets)
        &&& self.context.schedule.agrees(&after.context.schedule)
        &&& after.context.endpoints.pipes() == self.context.endpoints.pipes().remove(eid.0)
        &&& after.context.endpoints.acceptors() == self.context.endpoints.acceptors()
        &&& after.context.endpoints.next_id() == self.context.endpoints.next_id()
        &&& after.context.endpoints.transports() == self.context.endpoints.transports()
    }

    /// Only the socket `sid` has left: all else is as it was.
    pub open spec fn socket_removed(&self, after: &Self, sid: SocketId) -> bool {
        &&& after.channel@ == self.channel@
        &&& after.context.bus@ == self.context.bus@
        &&& self.context.timer.agrees(&after.context.timer)
        &&& self.context.endpoints.agrees(&after.context.endpoints)
        &&& self.context.schedule.agrees(&after.context.schedule)
        &&& after.sockets.sockets() == self.sockets.sockets().remove(sid.0)
        &&& after.sockets.devices() == self.sockets.devices()
        &&& after.sockets.replies() == self.sockets.replies()
    }

    /// The reactor after `pipe` has joined the collection as a pipe of socket
    /// `sid` under the next identifier: all else is as in `self`.
    pub open spec fn pipe_inserted(&self, after: &Self, sid: SocketId, pipe: P) -> bool {
        &&& after.channel@ == self.channel@
        &&& after.context.bus@ == self.context.bus@
        &&& self.context.timer.agrees(&after.context.timer)
        &&& self.sockets.agrees(&after.sockets)
        &&& self.context.schedule.agrees(&after.context.schedule)
        &&& !self.context.endpoints.contains(self.context.endpoints.next_id())
        &&& after.context.endpoints.pipes() == self.context.endpoints.pipes().insert(self.context.endpoints.next_id(), (sid, pipe))
        &&& after.context.endpoints.acceptors() == self.context.endpoints.acceptors()
        &&& after.context.endpoints.transports() == self.context.endpoints.transports()
        &&& after.context.endpoints.next_id() == self.context.endpoints.next_id() + 1
    }

    /// One step of taking accepted pipes in: `pipe` joins the collection
    /// under the next identifier, then socket `sid` hears of it from
    /// acceptor `aid`. Where no identifier is left, the pipe is dropped and
    /// nothing changes.
    pub open spec fn pipe_accepted(&self, after: &Self, sid: SocketId, aid: EndpointId, pipe: P) -> bool {
        if self.context.endpoints.next_id() < ID_LIMIT {
            exists|mid: Self| #[trigger]
                self.pipe_inserted(&mid, sid, pipe) && mid.applied(
                    after,
                    sid,
                    SocketCall::PipeAccepted(aid, EndpointId(self.context.endpoints.next_id())),
                )
        } else {
            self.quiet(after)
        }
    }

    /// The outcome of taking in the pipes that acceptor `aid` of socket `sid`
    /// accepted: one step for each, front to back.
    pub open spec fn pipes_accepted(&self, after: &Self, sid: SocketId, aid: EndpointId, accepted: Seq<P>) -> bool
        decreases accepted.len(),
    {
        if accepted.len() == 0 {
            self.quiet(after)
        } else {
            exists|mid: Self|
                self.pipes_accepted(&mid, sid, aid, accepted.drop_last()) && #[trigger] mid.pipe_accepted(
                    after,
                    sid,
                    aid,
                    accepted.last(),
                )
        }
    }

    /// The outcome of telling pipe `eid` that its source is ready: the pipe
    /// has gone from its state to another as its `readied` says, and only the
    /// pipe and the bus can differ. Without such a pipe nothing has changed.
    pub open spec fn pipe_readied<R>(&self, el: EventLoop<R>, after: &Self, el_after: EventLoop<R>, eid: EndpointId, events: Ready) -> bool where P: Pipe<R> {
        if self.context.endpoints.pipes().contains_key(eid.0) {
            &&& self.apart_from_endpoint(after, eid)
            &&& self.context.endpoints.pipes()[eid.0].1.readied(
                lent(el, self.context.bus@),
                place_of(self.context.endpoints.pipes()[eid.0].0, eid),
                events,
                &after.context.endpoints.pipes()[eid.0].1,
                lent(el_after, after.context.bus@),
            )
        } else {
            self.quiet(after) && el_after == el
        }
    }

    /// The outcome of handing `cmd` to pipe `eid`: the pipe has gone from its
    /// state to another as its `processed` says, and only the pipe and the
    /// bus can differ. Without such a pipe nothing has changed.
    pub open spec fn pipe_commanded<R>(&self, el: EventLoop<R>, after: &Self, el_after: EventLoop<R>, eid: EndpointId, cmd: Command) -> bool where P: Pipe<R> {
        if self.context.endpoints.pipes().contains_key(eid.0) {
            &&& self.apart_from_endpoint(after, eid)
            &&& self.context.endpoints.pipes()[eid.0].1.processed(
                lent(el, self.context.bus@),
                place_of(self.context.endpoints.pipes()[eid.0].0, eid),
                cmd,
                &after.context.endpoints.pipes()[eid.0].1,
                lent(el_after, after.context.bus@),
            )
        } else {
            self.quiet(after) && el_after == el
        }
    }

    /// The outcome of telling acceptor `eid` that its source is ready; as
    /// `pipe_readied`.
    pub open spec fn acceptor_readied<R>(&self, el: EventLoop<R>, after: &Self, el_after: EventLoop<R>, eid: EndpointId, events: Ready) -> bool where A: Acceptor<R, P> {
        if self.context.endpoints.acceptors().contains_key(eid.0) {
            &&& self.apart_from_endpoint(after, eid)
            &&& self.context.endpoints.acceptors()[eid.0].1.readied(
                lent(el, self.context.bus@),
                place_of(self.context.endpoints.acceptors()[eid.0].0, eid),
                events,
                &after.context.endpoints.acceptors()[eid.0].1,
                lent(el_after, after.context.bus@),
            )
        } else {
            self.quiet(after) && el_after == el
        }
    }

    /// The outcome of handing `cmd` to acceptor `eid`; as `pipe_commanded`.
    pub open spec fn acceptor_commanded<R>(&self, el: EventLoop<R>, after: &Self, el_after: EventLoop<R>, eid: EndpointId, cmd: Command) -> bool where A: Acceptor<R, P> {
        if self.context.endpoints.acceptors().contains_key(eid.0) {
            &&& self.apart_from_endpoint(after, eid)
            &&& self.context.endpoints.acceptors()[eid.0].1.processed(
                lent(el, self.context.bus@),
                place_of(self.context.endpoints.acceptors()[eid.0].0, eid),
                cmd,
                &after.context.endpoints.acceptors()[eid.0].1,
                lent(el_after, after.context.bus@),
            )
        } else {
            self.quiet(after) && el_after == el
        }
    }

    /// The outcome of a readiness event of endpoint `eid`: the pipe of that
    /// identifier is told, or else the acceptor; without either nothing has
    /// changed.
    pub open spec fn io_processed<R>(&self, el: EventLoop<R>, after: &Self, el_after: EventLoop<R>, eid: EndpointId, events: Ready) -> bool where P: Pipe<R>, A: Acceptor<R, P> {
        if self.context.endpoints.pipes().contains_key(eid.0) {
            self.pipe_readied(el, after, el_after, eid, events)
        } else {
            self.acceptor_readied(el, after, el_after, eid, events)
        }
    }

    /// The outcome of an event of pipe `eid` of socket `sid`. An event of a
    /// pipe that has left the collection is late, and dropped.
    pub open spec fn pipe_evt_processed(&self, after: &Self, sid: SocketId, eid: EndpointId, evt: Event<P>) -> bool {
        if !self.context.endpoints.pipes().contains_key(eid.0) {
            self.quiet(after)
        } else {
            match route_of_pipe_event(eid, evt) {
                PipeRoute::Deliver(call) => self.applied(after, sid, call),
                PipeRoute::Remove => self.pipe_removed(after, eid),
                PipeRoute::Ignore => self.quiet(after),
            }
        }
    }

    /// The outcome of an event of acceptor `aid` of socket `sid`. An event of
    /// an acceptor that has left the collection, or for a socket that has
    /// left the session, is late, and dropped.
    pub open spec fn acceptor_evt_processed(&self, after: &Self, sid: SocketId, aid: EndpointId, evt: Event<P>) -> bool {
        if !self.context.endpoints.acceptors().contains_key(aid.0) || !self.sockets.sockets().contains_key(sid.0) {
            self.quiet(after)
        } else {
            match route_of_acceptor_event(aid, evt) {
                AcceptorRoute::Deliver(call) => self.applied(after, sid, call),
                AcceptorRoute::Accept(pipes) => self.pipes_accepted(after, sid, aid, pipes@),
                AcceptorRoute::Ignore => self.quiet(after),
            }
        }
    }

    /// The outcome of an event that socket `sid` raised. An event of a socket
    /// that has left the session is late, and dropped.
    pub open spec fn socket_evt_processed(&self, after: &Self, sid: SocketId, evt: Event<P>) -> bool {
        if !self.sockets.sockets().contains_key(sid.0) {
            self.quiet(after)
        } else {
            match route_of_socket_event(evt) {
                SocketRoute::Notify => self.device_notified(after, sid),
                SocketRoute::Remove => self.socket_removed(after, sid),
                SocketRoute::Ignore => self.quiet(after),
            }
        }
    }

    /// Whether the endpoint or the socket that `signal` is about is gone: the
    /// pipe or the acceptor of a command or an event, the socket of an
    /// acceptor's event, the socket of an event that a socket raised.
    pub open spec fn target_gone(&self, signal: Signal<P>) -> bool {
        match signal {
            Signal::PipeCmd(_, eid, _) => !self.context.endpoints.pipes().contains_key(eid.0),
            Signal::AcceptorCmd(_, eid, _) => !self.context.endpoints.acceptors().contains_key(eid.0),
            Signal::PipeEvt(_, eid, _) => !self.context.endpoints.pipes().contains_key(eid.0),
            Signal::AcceptorEvt(sid, aid, _) => !self.context.endpoints.acceptors().contains_key(aid.0)
                || !self.sockets.sockets().contains_key(sid.0),
            Signal::SocketEvt(sid, _) => !self.sockets.sockets().contains_key(sid.0),
        }
    }

    /// Removed-target safety: a signal about an endpoint or a socket that is
    /// gone changes nothing, neither in the reactor nor in the loop. The same
    /// holds of a pipe's event for a socket that is gone, unless the event
    /// closes the pipe, which then leaves.
    pub proof fn lemma_removed_target<R>(&self, el: EventLoop<R>, after: &Self, el_after: EventLoop<R>, signal: Signal<P>)
        where
            P: Pipe<R>,
            A: Acceptor<R, P>,
        requires
            self.signal_processed(el, after, el_after, signal),
        ensures
            self.target_gone(signal) ==> self.quiet(after) && el_after == el,
            signal matches Signal::PipeEvt(sid, eid, evt) && !self.sockets.sockets().contains_key(sid.0)
                && route_of_pipe_event(eid, evt) is Deliver ==> self.quiet(after) && el_after == el,
    {
    }

    /// The outcome of one signal from the bus, which has left the bus before.
    /// A signal for an endpoint or a socket that is gone changes nothing.
    pub open spec fn signal_processed<R>(&self, el: EventLoop<R>, after: &Self, el_after: EventLoop<R>, signal: Signal<P>) -> bool where P: Pipe<R>, A: Acceptor<R, P> {
        match signal {
            Signal::PipeCmd(_, eid, cmd) => self.pipe_commanded(el, after, el_after, eid, cmd),
            Signal::AcceptorCmd(_, eid, cmd) => self.acceptor_commanded(el, after, el_after, eid, cmd),
            Signal::PipeEvt(sid, eid, evt) => el_after == el && if evt is Accepted {
                self.quiet(after)
            } else {
                self.pipe_evt_processed(after, sid, eid, evt)
            },
            Signal::AcceptorEvt(sid, aid, evt) => self.acceptor_evt_processed(after, sid, aid, evt) && el_after == el,
            Signal::SocketEvt(sid, evt) => self.socket_evt_processed(after, sid, evt) && el_after == el,
        }
    }

    /// The reactor after a device that links `left` and `right` is recorded
    /// under the next identifier of the shared sequence, which moves on, or
    /// after the reply that no identifier was left for it: all else is as in
    /// `self`.
    pub open spec fn device_recorded(&self, after: &Self, left: SocketId, right: SocketId) -> bool {
        &&& after.channel@ == self.channel@
        &&& after.context.bus@ == self.context.bus@
        &&& self.context.timer.agrees(&after.context.timer)
        &&& self.context.schedule.agrees(&after.context.schedule)
        &&& after.context.endpoints.pipes() == self.context.endpoints.pipes()
        &&& after.context.endpoints.acceptors() == self.context.endpoints.acceptors()
        &&& after.context.endpoints.transports() == self.context.endpoints.transports()
        &&& after.context.endpoints.next_id() == self.next_after_draw()
        &&& self.sockets.device_added(&after.sockets, self.drawn(), left, right)
    }

    /// The outcome of a request to create a device that links `left` and
    /// `right`: first `left`, then `right` hears that a device is plugged,
    /// then the device is recorded.
    pub open spec fn device_created(&self, after: &Self, left: SocketId, right: SocketId) -> bool {
        exists|first: Self, second: Self| #[trigger]
            self.applied(&first, left, SocketCall::DevicePlugged) && #[trigger] first.applied(
                &second,
                right,
                SocketCall::DevicePlugged,
            ) && #[trigger] second.device_recorded(after, left, right)
    }

    /// The identifier that a socket or a device created now gets: the next
    /// one of the sequence that the session shares with the endpoints, if
    /// one is left.
    pub open spec fn drawn(&self) -> Option<usize> {
        if self.context.endpoints.next_id() < ID_LIMIT {
            Some(self.context.endpoints.next_id())
        } else {
            None
        }
    }

    /// The next identifier once one was drawn for a socket or a device.
    pub open spec fn next_after_draw(&self) -> int {
        if self.context.endpoints.next_id() < ID_LIMIT {
            self.context.endpoints.next_id() + 1
        } else {
            self.context.endpoints.next_id() as int
        }
    }

    /// The outcome of a request to create a socket: it is created under the
    /// next identifier of the shared sequence, which moves on.
    pub open spec fn socket_created(&self, after: &Self, ctor: S::Ctor) -> bool {
        &&& after.channel@ == self.channel@
        &&& after.context.bus@ == self.context.bus@
        &&& self.context.timer.agrees(&after.context.timer)
        &&& self.context.schedule.agrees(&after.context.schedule)
        &&& after.context.endpoints.pipes() == self.context.endpoints.pipes()
        &&& after.context.endpoints.acceptors() == self.context.endpoints.acceptors()
        &&& after.context.endpoints.transports() == self.context.endpoints.transports()
        &&& after.context.endpoints.next_id() == self.next_after_draw()
        &&& self.sockets.socket_added::<P>(&after.sockets, self.drawn(), ctor)
    }

    /// The outcome of one request from the intake, which has left the intake
    /// before. A shutdown clears the loop's running flag and changes nothing
    /// else; every other request leaves the loop alone.
    pub open spec fn request_processed<R>(&self, el: EventLoop<R>, after: &Self, el_after: EventLoop<R>, request: Request<S::Ctor>) -> bool {
        match request {
            Request::Session(SessionRequest::CreateSocket(ctor)) => self.socket_created(after, ctor) && el_after == el,
            Request::Session(SessionRequest::CreateDevice(left, right)) => self.device_created(after, left, right) && el_after == el,
            Request::Session(SessionRequest::Shutdown) => self.quiet(after) && !el_after.running() && el_after.poller() == el.poller(),
            Request::Socket(id, request) => self.applied(after, id, call_of_request(request)) && el_after == el,
            Request::Endpoint(sid, eid, request) => self.applied(after, sid, call_of_endpoint_request(eid, request))
                && el_after == el,
            Request::Device(id, _) => self.device_swept(after, id) && el_after == el,
        }
    }

    /// Shutdown liveness: once a shutdown request is processed, the loop's
    /// running flag is down and nothing else has changed; a run, which polls
    /// only while the flag is up, ends before its next poll.
    pub proof fn lemma_shutdown_stops<R>(&self, el: EventLoop<R>, after: &Self, el_after: EventLoop<R>)
        requires
            self.request_processed(el, after, el_after, Request::Session(SessionRequest::Shutdown)),
        ensures
            !el_after.running(),
            el_after.poller() == el.poller(),
            self.quiet(after),
    {
    }

    /// The reactor after the oldest request has left the intake and before
    /// anything is done with it: all else is as in `self`.
    pub open spec fn without_request(&self, popped: &Self) -> bool {
        &&& self.channel@.len() > 0
        &&& popped.channel@ == self.channel@.skip(1)
        &&& popped.context.bus@ == self.context.bus@
        &&& self.context.timer.agrees(&popped.context.timer)
        &&& self.sockets.agrees(&popped.sockets)
        &&& self.context.endpoints.agrees(&popped.context.endpoints)
        &&& self.context.schedule.agrees(&popped.context.schedule)
    }

    /// The reactor after the oldest signal has left the bus and before
    /// anything is done with it: all else is as in `self`.
    pub open spec fn without_signal(&self, popped: &Self) -> bool {
        &&& self.context.bus@.len() > 0
        &&& popped.context.bus@ == self.context.bus@.skip(1)
        &&& popped.channel@ == self.channel@
        &&& self.context.timer.agrees(&popped.context.timer)
        &&& self.sockets.agrees(&popped.sockets)
        &&& self.context.endpoints.agrees(&popped.context.endpoints)
        &&& self.context.schedule.agrees(&popped.context.schedule)
    }

    /// One step of a channel drain: the oldest request is taken from the
    /// intake and processed to completion.
    pub open spec fn request_taken<R>(&self, el: EventLoop<R>, after: &Self, el_after: EventLoop<R>) -> bool {
        exists|popped: Self| #[trigger]
            self.without_request(&popped) && popped.request_processed(el, after, el_after, self.channel@[0])
    }

    /// One step of a bus drain: the oldest signal is taken from the bus and
    /// processed to completion. What its handlers post waits behind what is
    /// on the bus already.
    pub open spec fn signal_taken<R>(&self, el: EventLoop<R>, after: &Self, el_after: EventLoop<R>) -> bool where P: Pipe<R>, A: Acceptor<R, P> {
        exists|popped: Self| #[trigger]
            self.without_signal(&popped) && popped.signal_processed(el, after, el_after, self.context.bus@[0])
    }

    /// `count` steps of a channel drain, one after the other.
    pub open spec fn requests_taken<R>(&self, el: EventLoop<R>, after: &Self, el_after: EventLoop<R>, count: nat) -> bool
        decreases count,
    {
        if count == 0 {
            self.quiet(after) && el_after == el
        } else {
            exists|mid: Self, el_mid: EventLoop<R>|
                self.requests_taken(el, &mid, el_mid, (count - 1) as nat) && #[trigger] mid.request_taken(el_mid, after, el_after)
        }
    }

    /// `count` steps of a bus drain, one after the other.
    pub open spec fn signals_taken<R>(&self, el: EventLoop<R>, after: &Self, el_after: EventLoop<R>, count: nat) -> bool where P: Pipe<R>, A: Acceptor<R, P>
        decreases count,
    {
        if count == 0 {
            self.quiet(after) && el_after == el
        } else {
            exists|mid: Self, el_mid: EventLoop<R>|
                self.signals_taken(el, &mid, el_mid, (count - 1) as nat) && #[trigger] mid.signal_taken(el_mid, after, el_after)
        }
    }

    /// The reactor after `Schedule::expire` has collected `batch` within
    /// `budget` polls: all but the schedule and the wheel is as in `self`.
    pub open spec fn timer_expired(&self, after: &Self, batch: Seq<Due>, drained: bool, budget: usize) -> bool {
        &&& self.context.schedule.expired(self.context.timer, &after.context.schedule, after.context.timer, batch, drained, budget)
        &&& after.channel@ == self.channel@
        &&& after.context.bus@ == self.context.bus@
        &&& self.sockets.agrees(&after.sockets)
        &&& self.context.endpoints.agrees(&after.context.endpoints)
    }

    /// How handling one readiness event of `token` within `budget` relates
    /// the reactor and the loop before (`self`, `el`) to both after and to
    /// what the drain reports: the request channel, the bus and the timer
    /// are drained, any other token is an endpoint's, which is told.
    pub open spec fn handled<R>(&self, el: EventLoop<R>, after: &Self, el_after: EventLoop<R>, token: Token, events: Ready, budget: usize, drain: Drain) -> bool where P: Pipe<R>, A: Acceptor<R, P> {
        match source_of(token) {
            Source::Channel => {
                &&& drain.taken == (if budget <= self.channel@.len() { budget as int } else { self.channel@.len() as int })
                &&& drain.empty == (budget > self.channel@.len())
                &&& after.channel@ == self.channel@.skip(drain.taken as int)
                &&& self.requests_taken(el, after, el_after, drain.taken as nat)
            },
            Source::Bus => {
                &&& drain.taken <= budget
                &&& drain.empty ==> after.context.bus@.len() == 0
                &&& !drain.empty ==> drain.taken == budget
                &&& after.channel@ == self.channel@
                &&& self.signals_taken(el, after, el_after, drain.taken as nat)
            },
            Source::Timer => {
                &&& drain.taken <= budget
                &&& exists|mid: Self, batch: Seq<Due>| #[trigger]
                    self.timer_expired(&mid, batch, drain.empty, budget) && batch.len() == drain.taken
                        && mid.tasks_delivered(after, delivery_order(batch))
                &&& self.kept(after, Set::full())
                &&& budget == 0 ==> !drain.empty && self.quiet(after)
                &&& el_after == el
            },
            Source::Endpoint(eid) => {
                &&& drain.empty
                &&& drain.taken == (if self.context.endpoints.contains(eid.0) { 1int } else { 0int })
                &&& self.io_processed(el, after, el_after, eid, events)
            },
        }
    }

    /// The task has gone to its socket.
    pub open spec fn task_delivered(&self, after: &Self, task: Task) -> bool {
        task matches Task::Socket(sid, schedulable) && self.applied(after, sid, call_of_task(schedulable))
    }

    /// The tasks of `tasks` have gone to their sockets, one after the other.
    pub open spec fn tasks_delivered(&self, after: &Self, tasks: Seq<Task>) -> bool
        decreases tasks.len(),
    {
        if tasks.len() == 0 {
            self.quiet(after)
        } else {
            exists|mid: Self|
                self.tasks_delivered(&mid, tasks.drop_last()) && #[trigger] mid.task_delivered(after, tasks.last())
        }
    }
}

impl<S: Socket<P>, D: Device, P, A, T: Transport<P, A>> Dispatcher<S, D, P, A, T> {
    /// A reactor without sockets, devices, endpoints or tasks, around the
    /// given transports. Sockets, devices, pipes and acceptors all draw their
    /// identifiers from one sequence, which the endpoint collection holds and
    /// which starts at 1; the handles of scheduled tasks come from a sequence
    /// of their own. The wheel has ticks of 25 ms and 1024 slots; the
    /// schedule admits `TIMER_CAPACITY` pending tasks.
    pub fn new(transports: Vec<(String, T)>) -> (dispatcher: Self)
        ensures
            dispatcher.channel@.len() == 0,
            dispatcher.context.bus@.len() == 0,
            dispatcher.sockets.sockets() == Map::<usize, S>::empty(),
            dispatcher.sockets.devices() == Seq::<DeviceEntry<D>>::empty(),
            dispatcher.sockets.replies().len() == 0,
            dispatcher.context.endpoints.pipes() == Map::<usize, (SocketId, P)>::empty(),
            dispatcher.context.endpoints.acceptors() == Map::<usize, (SocketId, A)>::empty(),
            dispatcher.context.endpoints.transports() == first_of_each(transports@),
            dispatcher.context.endpoints.next_id() == 1,
            dispatcher.context.schedule.tasks() == Map::<usize, Task>::empty(),
            dispatcher.context.schedule.next_handle() == 1,
            dispatcher.context.schedule.tracks(dispatcher.context.timer),
            dispatcher.context.timer.entries() == no_entries(),
            dispatcher.context.timer.tick_ms() == TICK_MS,
            dispatcher.context.timer.slots() == WHEEL_SLOTS,
    {
        Dispatcher {
            channel: EventLoopBus::new(),
            sockets: Session::new(),
            context: SocketEventLoopContext::new(
                EventLoopBus::new(),
                EndpointCollection::new(Sequence::new(), transports),
                Schedule::new(Sequence::new()),
                new_timer(),
            ),
        }
    }

    /// Takes a request over from the user API: it waits in the intake, behind
    /// the requests already there, until the channel is next drained.
    pub fn submit(&mut self, request: Request<S::Ctor>)
        ensures
            final(self).channel@ == old(self).channel@.push(request),
            final(self).context.bus@ == old(self).context.bus@,
            old(self).context.timer.agrees(&final(self).context.timer),
            old(self).sockets.agrees(&final(self).sockets),
            old(self).context.endpoints.agrees(&final(self).context.endpoints),
            old(self).context.schedule.agrees(&final(self).context.schedule),
    {
        self.channel.send(request);
    }

    /// Makes the callback `call` on socket `id`, lending it the reactor's
    /// context for this one call. Without such a socket nothing happens. With
    /// it, the socket is out of the session for the time of the call, so that
    /// nothing else reaches it, and goes back afterwards.
    pub fn apply_on_socket(&mut self, id: SocketId, call: SocketCall) -> (found: bool)
        ensures
            found == old(self).sockets.sockets().contains_key(id.0),
            old(self).applied(final(self), id, call),
    {
        match self.sockets.take_socket(id) {
            Some(socket) => {
                let mut socket = socket;
                // While the callback runs the session does not hold the socket:
                // nothing but the callback itself can reach it.
                assert(!self.sockets.sockets().contains_key(id.0));
                self.context.socket_id = id;
                deliver(&mut socket, &mut self.context, call);
                self.sockets.restore_socket(id, socket);
                proof {
                    assert(final(self).sockets.sockets().dom() =~= old(self).sockets.sockets().dom());
                }
                true
            },
            None => {
                proof {
                    assert(final(self).sockets.sockets() =~= old(self).sockets.sockets());
                }
                false
            },
        }
    }

    /// Lets device `id` do one forwarding sweep; nothing happens without such
    /// a device.
    pub fn apply_on_device(&mut self, id: DeviceId)
        ensures
            old(self).device_swept(final(self), id),
    {
        let index = self.sockets.check_device(id);
        proof {
            let wanted = |e: DeviceEntry<D>| e.id == id;
            match index {
                Some(i) => lemma_first_device(old(self).sockets.devices(), wanted, i as int),
                None => lemma_no_device(old(self).sockets.devices(), wanted),
            }
        }
    }

    /// Tells the device that links socket `id` that the socket can receive;
    /// nothing happens without such a device.
    pub fn apply_on_device_link(&mut self, id: SocketId)
        ensures
            old(self).device_notified(final(self), id),
    {
        let index = self.sockets.notify_can_recv(id);
        proof {
            let wanted = |e: DeviceEntry<D>| e.links(id);
            match index {
                Some(i) => lemma_first_device(old(self).sockets.devices(), wanted, i as int),
                None => lemma_no_device(old(self).sockets.devices(), wanted),
            }
        }
    }

    /// A request to socket `id`: the socket gets the callback that
    /// `call_of_request` names.
    pub fn process_socket_request(&mut self, id: SocketId, request: SocketRequest)
        ensures
            old(self).applied(final(self), id, call_of_request(request)),
    {
        let call = request_call(request);
        self.apply_on_socket(id, call);
    }

    /// A request about endpoint `eid` of socket `sid`: the socket gets the
    /// callback that `call_of_endpoint_request` names.
    pub fn process_endpoint_request(&mut self, sid: SocketId, eid: EndpointId, request: EndpointRequest)
        ensures
            old(self).applied(final(self), sid, call_of_endpoint_request(eid, request)),
    {
        let call = endpoint_request_call(eid, request);
        self.apply_on_socket(sid, call);
    }

    /// A request to device `id`: the device does one forwarding sweep.
    pub fn process_device_request(&mut self, id: DeviceId, request: DeviceRequest)
        ensures
            old(self).device_swept(final(self), id),
    {
        match request {
            DeviceRequest::Check => self.apply_on_device(id),
        }
    }

    /// A fired task of socket `sid`: the socket gets the callback that
    /// `call_of_task` names.
    pub fn process_socket_task(&mut self, sid: SocketId, task: Schedulable)
        ensures
            old(self).applied(final(self), sid, call_of_task(task)),
    {
        let call = task_call(task);
        self.apply_on_socket(sid, call);
    }

    /// What the timer delivered goes to the socket that it names.
    pub fn process_tick(&mut self, task: Task)
        ensures
            old(self).task_delivered(final(self), task),
    {
        match task {
            Task::Socket(sid, schedulable) => self.process_socket_task(sid, schedulable),
        }
    }

    /// A command for pipe `eid`: the pipe processes it, if it is still there.
    pub fn process_pipe_cmd<R>(&mut self, el: &mut EventLoop<R>, eid: EndpointId, cmd: Command) -> (found: bool)
        where P: Pipe<R>
        ensures
            found == old(self).context.endpoints.pipes().contains_key(eid.0),
            old(self).pipe_commanded(*old(el), final(self), *final(el), eid, cmd),
    {
        let found = self.context.endpoints.pipe_process(eid, el, &mut self.context.bus, cmd);
        proof {
            assert(final(self).context.endpoints.pipes().dom() =~= old(self).context.endpoints.pipes().dom());
        }
        found
    }

    /// A command for acceptor `eid`: the acceptor processes it, if it is
    /// still there.
    pub fn process_acceptor_cmd<R>(&mut self, el: &mut EventLoop<R>, eid: EndpointId, cmd: Command) -> (found: bool)
        where A: Acceptor<R, P>
        ensures
            found == old(self).context.endpoints.acceptors().contains_key(eid.0),
            old(self).acceptor_commanded(*old(el), final(self), *final(el), eid, cmd),
    {
        let found = self.context.endpoints.acceptor_process(eid, el, &mut self.context.bus, cmd);
        proof {
            assert(final(self).context.endpoints.acceptors().dom() =~= old(self).context.endpoints.acceptors().dom());
        }
        found
    }

    /// A readiness event of an endpoint: the token is the identifier of a
    /// pipe, or else of an acceptor, which is told; or of neither, and the
    /// event is dropped. Returns whether an endpoint was told.
    pub fn process_io<R>(&mut self, el: &mut EventLoop<R>, token: Token, events: Ready) -> (found: bool)
        where P: Pipe<R>, A: Acceptor<R, P>
        ensures
            found == old(self).context.endpoints.contains(token.0),
            old(self).io_processed(*old(el), final(self), *final(el), EndpointId(token.0), events),
    {
        let eid = EndpointId(token.0);
        if self.context.endpoints.pipe_ready(eid, el, &mut self.context.bus, events) {
            proof {
                assert(final(self).context.endpoints.pipes().dom() =~= old(self).context.endpoints.pipes().dom());
            }
            return true;
        }
        let found = self.context.endpoints.acceptor_ready(eid, el, &mut self.context.bus, events);
        proof {
            assert(final(self).context.endpoints.acceptors().dom() =~= old(self).context.endpoints.acceptors().dom());
        }
        found
    }

    /// An event of pipe `eid`: the socket `sid` gets its callback, or the
    /// pipe leaves, as `route_of_pipe_event` says. Where the pipe has left
    /// before, the event is dropped.
    pub fn process_pipe_evt(&mut self, sid: SocketId, eid: EndpointId, evt: Event<P>)
        requires
            evt !is Accepted,
        ensures
            old(self).pipe_evt_processed(final(self), sid, eid, evt),
            final(self).channel@ == old(self).channel@,
    {
        if !self.context.endpoints.contains_pipe(eid) {
            return ;
        }
        match pipe_event_route(eid, evt) {
            PipeRoute::Deliver(call) => {
                self.apply_on_socket(sid, call);
            },
            PipeRoute::Remove => self.context.endpoints.remove_pipe(eid),
            PipeRoute::Ignore => {},
        }
    }

    /// An event of acceptor `aid`: the socket `sid` hears of an error, or the
    /// accepted pipes are taken in, as `route_of_acceptor_event` says. Where
    /// the acceptor has left before, the event is dropped.
    pub fn process_acceptor_evt(&mut self, sid: SocketId, aid: EndpointId, evt: Event<P>)
        ensures
            old(self).acceptor_evt_processed(final(self), sid, aid, evt),
            final(self).channel@ == old(self).channel@,
    {
        if !self.context.endpoints.contains_acceptor(aid) || !self.sockets.contains_socket(sid) {
            return ;
        }
        match acceptor_event_route(aid, evt) {
            AcceptorRoute::Deliver(call) => {
                self.apply_on_socket(sid, call);
            },
            AcceptorRoute::Accept(pipes) => self.accept_pipes(sid, aid, pipes),
            AcceptorRoute::Ignore => {},
        }
    }

    /// Takes in the pipes that acceptor `aid` of socket `sid` accepted, in
    /// their order: each gets the next identifier, and the socket hears of it
    /// before the next pipe is taken in. A pipe for which no identifier is
    /// left is dropped.
    pub fn accept_pipes(&mut self, sid: SocketId, aid: EndpointId, pipes: Vec<P>)
        ensures
            old(self).pipes_accepted(final(self), sid, aid, pipes@),
            final(self).channel@ == old(self).channel@,
    {
        let mut rest = pipes;
        let ghost accepted = pipes@;
        proof {
            assert(accepted.take(0) =~= Seq::<P>::empty());
        }
        while rest.len() > 0
            invariant
                rest@.len() <= accepted.len(),
                rest@ == accepted.skip(accepted.len() - rest@.len()),
                self.channel@ == old(self).channel@,
                old(self).pipes_accepted(self, sid, aid, accepted.take(accepted.len() - rest@.len())),
            decreases rest@.len(),
        {
            let ghost done = accepted.len() - rest@.len();
            let ghost start = *self;
            let pipe = rest.remove(0);
            proof {
                assert(pipe == accepted[done]);
                assert(rest@ =~= accepted.skip(done + 1));
                use_type_invariant(&self.context.endpoints);
                self.context.endpoints.lemma_tokens();
            }
            match self.context.endpoints.insert_pipe(sid, pipe) {
                Some(pipe_id) => {
                    let ghost mid = *self;
                    self.apply_on_socket(sid, SocketCall::PipeAccepted(aid, pipe_id));
                    proof {
                        assert(start.pipe_inserted(&mid, sid, pipe));
                    }
                },
                None => {},
            }
            proof {
                let next = accepted.take(done + 1);
                assert(next.last() == pipe);
                assert(next.drop_last() =~= accepted.take(done));
                assert(start.pipe_accepted(self, sid, aid, next.last()));
                assert(old(self).pipes_accepted(&start, sid, aid, next.drop_last()));
                assert(old(self).pipes_accepted(self, sid, aid, next));
            }
        }
        proof {
            assert(accepted.take(accepted.len() as int) =~= accepted);
        }
    }

    /// An event that socket `sid` raised: the device that links it hears that
    /// it can receive, or the socket leaves the session, as
    /// `route_of_socket_event` says. Where the socket has left before, the
    /// event is dropped.
    pub fn process_socket_evt(&mut self, sid: SocketId, evt: Event<P>)
        ensures
            old(self).socket_evt_processed(final(self), sid, evt),
            final(self).channel@ == old(self).channel@,
    {
        if !self.sockets.contains_socket(sid) {
            return ;
        }
        match socket_event_route(evt) {
            SocketRoute::Notify => self.apply_on_device_link(sid),
            SocketRoute::Remove => self.sockets.remove_socket(sid),
            SocketRoute::Ignore => {},
        }
    }

    /// One signal from the bus goes to the endpoint or the socket that it
    /// names.
    pub fn process_signal<R>(&mut self, el: &mut EventLoop<R>, signal: Signal<P>)
        where P: Pipe<R>, A: Acceptor<R, P>
        ensures
            old(self).signal_processed(*old(el), final(self), *final(el), signal),
            final(self).channel@ == old(self).channel@,
    {
        match signal {
            Signal::PipeCmd(_, eid, cmd) => {
                self.process_pipe_cmd(el, eid, cmd);
            },
            Signal::AcceptorCmd(_, eid, cmd) => {
                self.process_acceptor_cmd(el, eid, cmd);
            },
            Signal::PipeEvt(sid, eid, evt) => {
                // A pipe accepts nothing: such an event is an error of its
                // sender, and is dropped before it reaches the routing.
                if !matches!(evt, Event::Accepted(_)) {
                    self.process_pipe_evt(sid, eid, evt);
                }
            },
            Signal::AcceptorEvt(sid, aid, evt) => self.process_acceptor_evt(sid, aid, evt),
            Signal::SocketEvt(sid, evt) => self.process_socket_evt(sid, evt),
        }
    }

    /// A request to the session: a socket or a device is created, or the loop
    /// is told to shut down.
    pub fn process_session_request<R>(&mut self, el: &mut EventLoop<R>, request: SessionRequest<S::Ctor>)
        ensures
            old(self).request_processed(*old(el), final(self), *final(el), Request::Session(request)),
            final(self).channel@ == old(self).channel@,
    {
        match request {
            SessionRequest::CreateSocket(ctor) => {
                let drawn = self.context.endpoints.draw();
                self.sockets.add_socket::<P>(drawn, ctor);
            },
            SessionRequest::CreateDevice(left, right) => {
                self.apply_on_socket(left, SocketCall::DevicePlugged);
                let ghost first = *self;
                self.apply_on_socket(right, SocketCall::DevicePlugged);
                let ghost second = *self;
                let drawn = self.context.endpoints.draw();
                self.sockets.add_device(drawn, left, right);
                proof {
                    assert(old(self).applied(&first, left, SocketCall::DevicePlugged));
                    assert(first.applied(&second, right, SocketCall::DevicePlugged));
                    assert(second.device_recorded(self, left, right));
                }
            },
            SessionRequest::Shutdown => el.shutdown(),
        }
    }

    /// One request from the intake goes to the session, the socket or the
    /// device that it names.
    pub fn process_request<R>(&mut self, el: &mut EventLoop<R>, request: Request<S::Ctor>)
        ensures
            old(self).request_processed(*old(el), final(self), *final(el), request),
            final(self).channel@ == old(self).channel@,
    {
        match request {
            Request::Session(req) => self.process_session_request(el, req),
            Request::Socket(id, req) => self.process_socket_request(id, req),
            Request::Endpoint(sid, eid, req) => self.process_endpoint_request(sid, eid, req),
            Request::Device(id, req) => self.process_device_request(id, req),
        }
    }

    /// Drains the request intake, oldest request first, each processed to
    /// completion before the next is taken. At most `budget` requests are
    /// taken.
    pub fn process_channel<R>(&mut self, el: &mut EventLoop<R>, budget: usize) -> (drain: Drain)
        ensures
            drain.taken == (if budget <= old(self).channel@.len() { budget as int } else { old(self).channel@.len() as int }),
            drain.empty == (budget > old(self).channel@.len()),
            final(self).channel@ == old(self).channel@.skip(drain.taken as int),
            old(self).requests_taken(*old(el), final(self), *final(el), drain.taken as nat),
    {
        let mut taken: usize = 0;
        proof {
            assert(old(self).channel@.skip(0) =~= old(self).channel@);
        }
        while taken < budget
            invariant
                taken <= budget,
                taken <= old(self).channel@.len(),
                self.channel@ == old(self).channel@.skip(taken as int),
                old(self).requests_taken(*old(el), self, *el, taken as nat),
            decreases budget - taken,
        {
            if self.channel.is_empty() {
                return Drain { taken, empty: true };
            }
            let ghost mid = *self;
            let ghost el_mid = *el;
            match self.channel.recv() {
                None => {},
                Some(request) => {
                    let ghost popped = *self;
                    self.process_request(el, request);
                    proof {
                        assert(mid.without_request(&popped));
                        assert(mid.request_taken(el_mid, self, *el));
                        assert(old(self).requests_taken(*old(el), &mid, el_mid, ((taken + 1) - 1) as nat));
                        assert(old(self).requests_taken(*old(el), self, *el, (taken + 1) as nat));
                        assert(self.channel@ =~= old(self).channel@.skip(taken + 1));
                    }
                },
            }
            taken += 1;
        }
        Drain { taken, empty: false }
    }

    /// Drains the signal bus, oldest signal first, with the signals that
    /// handlers post meanwhile behind those already there. At most `budget`
    /// signals are taken.
    pub fn process_bus<R>(&mut self, el: &mut EventLoop<R>, budget: usize) -> (drain: Drain)
        where P: Pipe<R>, A: Acceptor<R, P>
        ensures
            drain.taken <= budget,
            drain.empty ==> final(self).context.bus@.len() == 0,
            !drain.empty ==> drain.taken == budget,
            final(self).channel@ == old(self).channel@,
            old(self).signals_taken(*old(el), final(self), *final(el), drain.taken as nat),
    {
        let mut taken: usize = 0;
        while taken < budget
            invariant
                taken <= budget,
                self.channel@ == old(self).channel@,
                old(self).signals_taken(*old(el), self, *el, taken as nat),
            decreases budget - taken,
        {
            if self.context.bus.is_empty() {
                return Drain { taken, empty: true };
            }
            let ghost mid = *self;
            let ghost el_mid = *el;
            match self.context.bus.recv() {
                None => {},
                Some(signal) => {
                    let ghost popped = *self;
                    self.process_signal(el, signal);
                    proof {
                        assert(mid.without_signal(&popped));
                        assert(mid.signal_taken(el_mid, self, *el));
                        assert(old(self).signals_taken(*old(el), &mid, el_mid, ((taken + 1) - 1) as nat));
                        assert(old(self).signals_taken(*old(el), self, *el, (taken + 1) as nat));
                    }
                },
            }
            taken += 1;
        }
        Drain { taken, empty: false }
    }

    /// Hands the tasks of a batch to their sockets, from the back of the
    /// batch to its front: in the order in which they were scheduled, where
    /// the batch is one of `Schedule::expire`.
    pub fn deliver_due(&mut self, batch: Vec<Due>)
        ensures
            old(self).tasks_delivered(final(self), delivery_order(batch@)),
            old(self).kept(final(self), Set::full()),
    {
        let mut rest = batch;
        let ghost order = delivery_order(batch@);
        proof {
            assert(order.take(0) =~= Seq::<Task>::empty());
        }
        while rest.len() > 0
            invariant
                rest@.len() <= batch@.len(),
                rest@ == batch@.take(rest@.len() as int),
                order == delivery_order(batch@),
                old(self).tasks_delivered(self, order.take(batch@.len() - rest@.len())),
                old(self).kept(self, Set::full()),
            decreases rest@.len(),
        {
            let ghost mid = *self;
            let ghost done = batch@.len() - rest@.len();
            match rest.pop() {
                Some(due) => {
                    self.process_tick(due.task);
                    proof {
                        let next = order.take(done + 1);
                        assert(next.last() == due.task);
                        assert(next.drop_last() =~= order.take(done));
                        assert(old(self).tasks_delivered(&mid, next.drop_last()));
                        assert(mid.task_delivered(self, next.last()));
                        assert(old(self).tasks_delivered(self, next));
                        assert(rest@ =~= batch@.take(rest@.len() as int));
                    }
                },
                None => {},
            }
        }
        proof {
            assert(order.take(batch@.len() as int) =~= order);
        }
    }

    /// Drains the timer: the tasks that are due are collected within `budget`
    /// polls of the wheel, as `Schedule::expire` says, then each goes to its
    /// socket, as `deliver_due` says.
    pub fn process_timer(&mut self, budget: usize) -> (drain: Drain)
        ensures
            drain.taken <= budget,
            exists|mid: Self, batch: Seq<Due>| #[trigger]
                old(self).timer_expired(&mid, batch, drain.empty, budget) && batch.len() == drain.taken
                    && mid.tasks_delivered(final(self), delivery_order(batch)),
            old(self).kept(final(self), Set::full()),
            budget == 0 ==> !drain.empty && old(self).quiet(final(self)),
    {
        let (batch, drained) = self.context.schedule.expire(&mut self.context.timer, budget);
        let taken = batch.len();
        let ghost mid = *self;
        let ghost collected = batch@;
        proof {
            if budget == 0 {
                assert(self.context.schedule.tasks() =~= old(self).context.schedule.tasks());
                assert(delivery_order(batch@) =~= Seq::<Task>::empty());
            }
        }
        self.deliver_due(batch);
        let drain = Drain { taken, empty: drained };
        proof {
            assert(old(self).timer_expired(&mid, collected, drain.empty, budget));
            assert(collected.len() == drain.taken);
            assert(mid.tasks_delivered(self, delivery_order(collected)));
        }
        drain
    }

    /// Routes one readiness event by its token: the request channel, the bus
    /// and the timer are drained within `budget`; any other token is an
    /// endpoint's, which is told. The result tells whether the source was
    /// seen empty, so that nothing of it waits for a readiness event that an
    /// edge-triggered poller will not repeat.
    pub fn handle<R>(&mut self, el: &mut EventLoop<R>, token: Token, events: Ready, budget: usize) -> (drain: Drain)
        where P: Pipe<R>, A: Acceptor<R, P>
        ensures
            old(self).handled(*old(el), final(self), *final(el), token, events, budget, drain),
    {
        match token_source(token) {
            Source::Channel => self.process_channel(el, budget),
            Source::Bus => self.process_bus(el, budget),
            Source::Timer => self.process_timer(budget),
            Source::Endpoint(_) => {
                if self.process_io(el, token, events) {
                    Drain { taken: 1, empty: true }
                } else {
                    Drain { taken: 0, empty: true }
                }
            },
        }
    }
}

impl<R, S: Socket<P>, D: Device, P: Pipe<R>, A: Acceptor<R, P>, T: Transport<P, A>> EventHandler<R> for Dispatcher<S, D, P, A, T> {
    /// Handling an event is `Dispatcher::handle` with the widest budget.
    open spec fn handles(&self, el: EventLoop<R>, token: Token, events: Ready, after: &Self, el_after: EventLoop<R>) -> bool {
        exists|drain: Drain| #[trigger] self.handled(el, after, el_after, token, events, usize::MAX, drain)
    }

    /// Handles one readiness event; a source is drained as far as the widest
    /// budget reaches.
    fn handle(&mut self, el: &mut EventLoop<R>, token: Token, events: Ready) {
        let drain = Dispatcher::handle(self, el, token, events, usize::MAX);
        proof {
            assert(old(self).handled(*old(el), self, *el, token, events, usize::MAX, drain));
        }
    }
}

/// Schedules and cancels the delayed tasks of one socket.
pub trait Scheduler {
    /// Enqueues `schedulable` to fire after `delay_ms` milliseconds.
    fn schedule(&mut self, schedulable: Schedulable, delay_ms: u64) -> Result<Scheduled, IoError>;

    /// Withdraws a task; a no-op where it has fired or was cancelled.
    fn cancel(&mut self, scheduled: Scheduled);
}

/// Creates, opens and closes the endpoints of one socket, and defers what is
/// asked of them to the bus.
pub trait Network {
    fn connect(&mut self, spec: &EndpointSpec) -> Result<EndpointId, IoError>;

    fn reconnect(&mut self, eid: EndpointId, spec: &EndpointSpec) -> Result<(), IoError>;

    fn bind(&mut self, spec: &EndpointSpec) -> Result<EndpointId, IoError>;

    fn rebind(&mut self, eid: EndpointId, spec: &EndpointSpec) -> Result<(), IoError>;

    fn open(&mut self, eid: EndpointId, remote: bool);

    fn close(&mut self, eid: EndpointId, remote: bool);

    fn send(&mut self, eid: EndpointId, msg: Message);

    fn recv(&mut self, eid: EndpointId);
}

/// All that a socket callback can reach of the world around it.
pub trait Context<P>: Network + Scheduler {
    /// Posts an event of the socket itself to the bus.
    fn raise(&mut self, evt: Event<P>);
}

} // verus!
