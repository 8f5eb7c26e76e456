//! End-to-end runs of the dispatcher against mock sockets, endpoints,
//! transports and devices.

use std::cell::RefCell;
use std::rc::Rc;
use std::time::{Duration, Instant};

use reactors::api::{
    Command, DeviceRequest, EndpointRequest, EndpointSpec, Event, IoError, Message, Reply, Request,
    SessionRequest, Signal, SocketRequest,
};
use reactors::bus::EventLoopBus;
use reactors::dispatcher::{Context, Dispatcher, Drain, Schedulable, Scheduled};
use reactors::event_loop::{EventHandler, EventLoop};
use reactors::endpoints::EndpointCollection;
use reactors::ids::{DeviceId, EndpointId, Ready, Sequence, SocketId, Token, ID_LIMIT};
use reactors::session::Session;
use reactors::network::{Acceptor, Device, Pipe, Place, Socket, Transport};

type Log = Rc<RefCell<Vec<String>>>;
type Replies = Rc<RefCell<Vec<Reply>>>;

/// Lets the clock advance without touching the reactor.
fn wait(time: Duration) {
    let start = Instant::now();
    while start.elapsed() < time {
        std::hint::spin_loop();
    }
}

fn message(text: &str) -> Message {
    Message { header: Vec::new(), body: text.as_bytes().to_vec() }
}

#[derive(Debug, PartialEq, Eq)]
struct MockPipe {
    refuses: bool,
    opened: usize,
}

impl Pipe<()> for MockPipe {
    fn ready(&mut self, _el: &mut EventLoop<()>, bus: &mut EventLoopBus<Signal<MockPipe>>, at: Place, _events: Ready) {
        bus.send(Signal::PipeEvt(at.socket, at.endpoint, Event::CanRecv));
    }

    fn process(&mut self, _el: &mut EventLoop<()>, bus: &mut EventLoopBus<Signal<MockPipe>>, at: Place, cmd: Command) {
        match cmd {
            Command::Open => {
                self.opened += 1;
                if self.refuses {
                    bus.send(Signal::PipeEvt(at.socket, at.endpoint, Event::Error(IoError::ConnectionRefused)));
                } else {
                    bus.send(Signal::PipeEvt(at.socket, at.endpoint, Event::Opened));
                    bus.send(Signal::PipeEvt(at.socket, at.endpoint, Event::CanSend));
                }
            }
            Command::Send(_) => bus.send(Signal::PipeEvt(at.socket, at.endpoint, Event::Sent)),
            Command::Recv => {}
            Command::Close => bus.send(Signal::PipeEvt(at.socket, at.endpoint, Event::Closed)),
        }
    }
}

#[derive(Debug, PartialEq, Eq)]
struct MockAcceptor {
    readies: usize,
}

impl Acceptor<(), MockPipe> for MockAcceptor {
    fn ready(&mut self, _el: &mut EventLoop<()>, bus: &mut EventLoopBus<Signal<MockPipe>>, at: Place, _events: Ready) {
        self.readies += 1;
        let pipe = MockPipe { refuses: false, opened: 0 };
        bus.send(Signal::AcceptorEvt(at.socket, at.endpoint, Event::Accepted(vec![pipe])));
    }

    fn process(&mut self, _el: &mut EventLoop<()>, bus: &mut EventLoopBus<Signal<MockPipe>>, at: Place, cmd: Command) {
        match cmd {
            Command::Open => bus.send(Signal::AcceptorEvt(at.socket, at.endpoint, Event::Opened)),
            Command::Close => bus.send(Signal::AcceptorEvt(at.socket, at.endpoint, Event::Closed)),
            _ => {}
        }
    }
}

struct MockTransport {
    log: Log,
    refusals: Rc<RefCell<usize>>,
}

impl Transport<MockPipe, MockAcceptor> for MockTransport {
    fn connect(&self, url: &str) -> Result<MockPipe, IoError> {
        self.log.borrow_mut().push(format!("transport connect {}", url));
        let mut refusals = self.refusals.borrow_mut();
        if *refusals > 0 {
            *refusals -= 1;
            Ok(MockPipe { refuses: true, opened: 0 })
        } else {
            Ok(MockPipe { refuses: false, opened: 0 })
        }
    }

    fn bind(&self, url: &str) -> Result<MockAcceptor, IoError> {
        self.log.borrow_mut().push(format!("transport bind {}", url));
        Ok(MockAcceptor { readies: 0 })
    }
}

struct MockDevice {
    left: SocketId,
    right: SocketId,
    checks: usize,
    can_recv: Vec<SocketId>,
}

impl Device for MockDevice {
    fn link(left: SocketId, right: SocketId) -> Self {
        MockDevice { left, right, checks: 0, can_recv: Vec::new() }
    }

    fn check(&mut self) {
        self.checks += 1;
    }

    fn on_socket_can_recv(&mut self, sid: SocketId) {
        self.can_recv.push(sid);
    }
}

struct MockCtor {
    log: Log,
    replies: Replies,
}

struct MockSocket {
    id: SocketId,
    log: Log,
    replies: Replies,
    spec: Option<EndpointSpec>,
    pipe: Option<EndpointId>,
    scheduled: Vec<Scheduled>,
    generation: u64,
}

impl MockSocket {
    fn note(&mut self, what: String) {
        self.generation += 1;
        self.log.borrow_mut().push(format!("socket {} {}", self.id.0, what));
    }
}

impl Socket<MockPipe> for MockSocket {
    type Ctor = MockCtor;

    fn create(ctor: MockCtor, id: SocketId) -> Self {
        MockSocket {
            id,
            log: ctor.log,
            replies: ctor.replies,
            spec: None,
            pipe: None,
            scheduled: Vec::new(),
            generation: 0,
        }
    }

    fn connect<C: Context<MockPipe>>(&mut self, ctx: &mut C, url: String) {
        self.note(format!("connect {}", url));
        let spec = EndpointSpec { url };
        match ctx.connect(&spec) {
            Ok(eid) => {
                self.pipe = Some(eid);
                self.spec = Some(spec);
                ctx.open(eid, true);
            }
            Err(e) => self.replies.borrow_mut().push(Reply::Failed(e)),
        }
    }

    fn bind<C: Context<MockPipe>>(&mut self, ctx: &mut C, url: String) {
        self.note(format!("bind {}", url));
        let spec = EndpointSpec { url };
        match ctx.bind(&spec) {
            Ok(aid) => {
                self.spec = Some(spec);
                ctx.open(aid, false);
            }
            Err(e) => self.replies.borrow_mut().push(Reply::Failed(e)),
        }
    }

    fn send<C: Context<MockPipe>>(&mut self, ctx: &mut C, msg: Message) {
        self.note("send".to_string());
        if let Some(eid) = self.pipe {
            ctx.send(eid, msg);
        }
    }

    fn recv<C: Context<MockPipe>>(&mut self, ctx: &mut C) {
        self.note("recv".to_string());
        if let Some(eid) = self.pipe {
            ctx.recv(eid);
        }
    }

    fn close<C: Context<MockPipe>>(&mut self, ctx: &mut C) {
        self.note("close".to_string());
        ctx.raise(Event::Closed);
    }

    fn close_pipe<C: Context<MockPipe>>(&mut self, ctx: &mut C, eid: EndpointId) {
        self.note(format!("close_pipe {}", eid.0));
        ctx.close(eid, true);
    }

    fn close_acceptor<C: Context<MockPipe>>(&mut self, ctx: &mut C, eid: EndpointId) {
        self.note(format!("close_acceptor {}", eid.0));
        ctx.close(eid, false);
    }

    fn on_pipe_opened<C: Context<MockPipe>>(&mut self, _ctx: &mut C, eid: EndpointId) {
        self.note(format!("on_pipe_opened {}", eid.0));
    }

    fn on_send_ready<C: Context<MockPipe>>(&mut self, _ctx: &mut C, eid: EndpointId) {
        self.note(format!("on_send_ready {}", eid.0));
    }

    fn on_send_ack<C: Context<MockPipe>>(&mut self, _ctx: &mut C, eid: EndpointId) {
        self.note(format!("on_send_ack {}", eid.0));
        self.replies.borrow_mut().push(Reply::SendAck(self.id));
    }

    fn on_recv_ready<C: Context<MockPipe>>(&mut self, ctx: &mut C, eid: EndpointId) {
        self.note(format!("on_recv_ready {}", eid.0));
        ctx.recv(eid);
    }

    fn on_recv_ack<C: Context<MockPipe>>(&mut self, _ctx: &mut C, eid: EndpointId, msg: Message) {
        self.note(format!("on_recv_ack {}", eid.0));
        self.replies.borrow_mut().push(Reply::RecvAck(self.id, msg));
    }

    fn on_pipe_error<C: Context<MockPipe>>(&mut self, ctx: &mut C, eid: EndpointId, err: IoError) {
        self.note(format!("on_pipe_error {} {:?}", eid.0, err));
        if let Some(spec) = self.spec.clone() {
            match ctx.schedule(Schedulable::Reconnect(eid, spec), 50) {
                Ok(scheduled) => self.scheduled.push(scheduled),
                Err(e) => self.replies.borrow_mut().push(Reply::Failed(e)),
            }
        }
    }

    fn on_pipe_accepted<C: Context<MockPipe>>(&mut self, ctx: &mut C, aid: EndpointId, eid: EndpointId) {
        self.note(format!("on_pipe_accepted {} {}", aid.0, eid.0));
        ctx.open(eid, true);
    }

    fn on_acceptor_error<C: Context<MockPipe>>(&mut self, _ctx: &mut C, aid: EndpointId, err: IoError) {
        self.note(format!("on_acceptor_error {} {:?}", aid.0, err));
    }

    fn on_send_timeout<C: Context<MockPipe>>(&mut self, _ctx: &mut C) {
        self.note("on_send_timeout".to_string());
    }

    fn on_recv_timeout<C: Context<MockPipe>>(&mut self, _ctx: &mut C) {
        self.note("on_recv_timeout".to_string());
    }

    fn on_timer_tick<C: Context<MockPipe>>(&mut self, _ctx: &mut C, task: Schedulable) {
        self.note(format!("on_timer_tick {:?}", task));
    }

    fn reconnect<C: Context<MockPipe>>(&mut self, ctx: &mut C, eid: EndpointId, spec: EndpointSpec) {
        self.note(format!("reconnect {} {}", eid.0, spec.url));
        if ctx.reconnect(eid, &spec).is_ok() {
            ctx.open(eid, true);
        }
    }

    fn rebind<C: Context<MockPipe>>(&mut self, ctx: &mut C, eid: EndpointId, spec: EndpointSpec) {
        self.note(format!("rebind {} {}", eid.0, spec.url));
        if ctx.rebind(eid, &spec).is_ok() {
            ctx.open(eid, false);
        }
    }

    fn on_device_plugged<C: Context<MockPipe>>(&mut self, _ctx: &mut C) {
        self.note("on_device_plugged".to_string());
    }
}

type Reactor = Dispatcher<MockSocket, MockDevice, MockPipe, MockAcceptor, MockTransport>;

struct Rig {
    reactor: Reactor,
    el: EventLoop<()>,
    log: Log,
    replies: Replies,
    refusals: Rc<RefCell<usize>>,
}

impl Rig {
    fn new() -> Rig {
        let log: Log = Rc::new(RefCell::new(Vec::new()));
        let refusals = Rc::new(RefCell::new(0));
        let transport = MockTransport { log: log.clone(), refusals: refusals.clone() };
        Rig {
            reactor: Dispatcher::new(vec![("mock".to_string(), transport)]),
            el: EventLoop::new(()),
            log,
            replies: Rc::new(RefCell::new(Vec::new())),
            refusals,
        }
    }

    fn drain(&mut self, token: Token) {
        let mut rounds = 0;
        while !self.reactor.handle(&mut self.el, token, Ready::readable(), 4).empty {
            rounds += 1;
            assert!(rounds < 1000);
        }
    }

    fn request(&mut self, request: Request<MockCtor>) {
        self.reactor.submit(request);
        self.drain(Token::channel());
        self.drain(Token::bus());
    }

    fn create_socket(&mut self) -> SocketId {
        let ctor = MockCtor { log: self.log.clone(), replies: self.replies.clone() };
        self.request(Request::Session(SessionRequest::CreateSocket(ctor)));
        match self.reactor.sockets.take_reply() {
            Some(Reply::SocketCreated(sid)) => sid,
            other => panic!("no socket: {:?}", other),
        }
    }

    fn emit(&mut self, signal: Signal<MockPipe>) {
        self.reactor.context.bus.send(signal);
    }

    fn logged(&self) -> Vec<String> {
        self.log.borrow().clone()
    }

    fn count(&self, line: &str) -> usize {
        self.log.borrow().iter().filter(|l| l.as_str() == line).count()
    }
}

#[test]
fn connect_send_recv() {
    let mut rig = Rig::new();
    let sid = rig.create_socket();
    assert_eq!(sid, SocketId(1));

    rig.request(Request::Socket(sid, SocketRequest::Connect("mock://a".to_string())));
    assert_eq!(
        rig.logged(),
        vec![
            "socket 1 connect mock://a".to_string(),
            "transport connect mock://a".to_string(),
            "socket 1 on_pipe_opened 2".to_string(),
            "socket 1 on_send_ready 2".to_string(),
        ]
    );

    rig.request(Request::Socket(sid, SocketRequest::Send(message("hello"))));
    assert_eq!(rig.count("socket 1 on_send_ack 2"), 1);

    rig.emit(Signal::PipeEvt(sid, EndpointId(2), Event::CanRecv));
    rig.emit(Signal::PipeEvt(sid, EndpointId(2), Event::Received(message("world"))));
    rig.drain(Token::bus());

    assert_eq!(
        rig.replies.borrow().clone(),
        vec![Reply::SendAck(SocketId(1)), Reply::RecvAck(SocketId(1), message("world"))]
    );
    assert!(rig.reactor.context.bus.is_empty());
    assert!(rig.reactor.channel.is_empty());
}

#[test]
fn accept_inserts_pipes() {
    let mut rig = Rig::new();
    let sid = rig.create_socket();
    rig.request(Request::Socket(sid, SocketRequest::Bind("mock://:1".to_string())));
    assert_eq!(rig.reactor.context.endpoints.acceptor_count(), 1);
    let aid = EndpointId(2);
    assert!(rig.reactor.context.endpoints.contains_acceptor(aid));
    let before = rig.reactor.context.endpoints.pipe_count();

    let p1 = MockPipe { refuses: false, opened: 0 };
    let p2 = MockPipe { refuses: false, opened: 0 };
    rig.emit(Signal::AcceptorEvt(sid, aid, Event::Accepted(vec![p1, p2])));
    rig.drain(Token::bus());

    assert_eq!(rig.reactor.context.endpoints.pipe_count(), before + 2);
    assert_eq!(rig.count("socket 1 on_pipe_accepted 2 3"), 1);
    assert_eq!(rig.count("socket 1 on_pipe_accepted 2 4"), 1);
    assert!(rig.reactor.context.endpoints.contains_pipe(EndpointId(3)));
    assert!(rig.reactor.context.endpoints.contains_pipe(EndpointId(4)));
    assert_eq!(rig.reactor.context.endpoints.owner(EndpointId(3)), Some(sid));
    assert_eq!(rig.reactor.context.endpoints.owner(EndpointId(4)), Some(sid));
    // each accepted pipe was opened by the socket, once
    assert_eq!(rig.reactor.context.endpoints.get_pipe(EndpointId(3)).unwrap().opened, 1);
    assert_eq!(rig.reactor.context.endpoints.get_pipe(EndpointId(4)).unwrap().opened, 1);
}

#[test]
fn reconnect_timer() {
    let mut rig = Rig::new();
    let sid = rig.create_socket();
    *rig.refusals.borrow_mut() = 1;
    rig.request(Request::Socket(sid, SocketRequest::Connect("mock://a".to_string())));
    assert_eq!(rig.count("socket 1 on_pipe_error 2 ConnectionRefused"), 1);
    assert_eq!(rig.count("transport connect mock://a"), 1);
    assert_eq!(rig.reactor.context.schedule.len(), 1);
    assert!(rig.reactor.context.endpoints.get_pipe(EndpointId(2)).unwrap().refuses);

    // nothing is due at once
    rig.drain(Token::timer());
    assert_eq!(rig.count("socket 1 reconnect 2 mock://a"), 0);

    wait(Duration::from_millis(90));
    let start = Instant::now();
    while rig.count("socket 1 reconnect 2 mock://a") == 0 {
        assert!(start.elapsed() < Duration::from_secs(10));
        rig.drain(Token::timer());
    }
    rig.drain(Token::bus());

    assert_eq!(rig.count("transport connect mock://a"), 2);
    assert_eq!(rig.count("socket 1 on_pipe_opened 2"), 1);
    assert_eq!(rig.reactor.context.schedule.len(), 0);
    assert_eq!(rig.reactor.context.endpoints.pipe_count(), 1);
    assert!(!rig.reactor.context.endpoints.get_pipe(EndpointId(2)).unwrap().refuses);
}

#[test]
fn device_forwarding() {
    let mut rig = Rig::new();
    let left = rig.create_socket();
    let right = rig.create_socket();
    assert_eq!((left, right), (SocketId(1), SocketId(2)));
    rig.request(Request::Session(SessionRequest::CreateDevice(left, right)));
    assert_eq!(rig.reactor.sockets.take_reply(), Some(Reply::DeviceCreated(DeviceId(3))));
    assert_eq!(rig.count("socket 1 on_device_plugged"), 1);
    assert_eq!(rig.count("socket 2 on_device_plugged"), 1);
    assert_eq!(rig.reactor.sockets.device_count(), 1);

    rig.emit(Signal::SocketEvt(left, Event::CanRecv));
    rig.drain(Token::bus());

    let entry = rig.reactor.sockets.get_device(0).unwrap();
    assert_eq!(entry.id, DeviceId(3));
    assert_eq!((entry.left, entry.right), (left, right));
    assert_eq!((entry.device.left, entry.device.right), (left, right));
    assert_eq!(entry.device.can_recv, vec![SocketId(1)]);
    assert_eq!(entry.device.checks, 0);

    rig.request(Request::Device(DeviceId(3), DeviceRequest::Check));
    assert_eq!(rig.reactor.sockets.get_device(0).unwrap().device.checks, 1);
    // a device that does not exist, and a socket that no device links
    rig.request(Request::Device(DeviceId(9), DeviceRequest::Check));
    rig.emit(Signal::SocketEvt(SocketId(7), Event::CanRecv));
    rig.drain(Token::bus());
    let entry = rig.reactor.sockets.get_device(0).unwrap();
    assert_eq!(entry.device.checks, 1);
    assert_eq!(entry.device.can_recv.len(), 1);
}

#[test]
fn late_event_drop() {
    let mut rig = Rig::new();
    let sid = rig.create_socket();
    for _ in 0..6 {
        rig.reactor.context.endpoints.insert_pipe(sid, MockPipe { refuses: false, opened: 0 });
    }
    assert!(rig.reactor.context.endpoints.contains_pipe(EndpointId(7)));
    rig.reactor.context.endpoints.remove_pipe(EndpointId(7));
    assert!(!rig.reactor.context.endpoints.contains_pipe(EndpointId(7)));
    let before = rig.logged();

    rig.emit(Signal::PipeEvt(sid, EndpointId(7), Event::Received(message("x"))));
    rig.drain(Token::bus());

    assert_eq!(rig.logged(), before);
    assert!(rig.replies.borrow().is_empty());
    assert_eq!(rig.reactor.sockets.take_reply(), None);
    assert_eq!(rig.reactor.context.endpoints.pipe_count(), 5);

    // the same event for a pipe that is there reaches the socket
    rig.emit(Signal::PipeEvt(sid, EndpointId(6), Event::Received(message("x"))));
    rig.drain(Token::bus());
    assert_eq!(rig.count("socket 1 on_recv_ack 6"), 1);
}

#[test]
fn removed_targets_are_no_ops() {
    let mut rig = Rig::new();
    let sid = rig.create_socket();
    let gone = SocketId(42);
    rig.request(Request::Socket(gone, SocketRequest::Recv));
    rig.request(Request::Endpoint(gone, EndpointId(1), EndpointRequest::Close(true)));
    rig.emit(Signal::PipeCmd(sid, EndpointId(5), Command::Open));
    rig.emit(Signal::AcceptorCmd(sid, EndpointId(5), Command::Open));
    rig.emit(Signal::PipeEvt(sid, EndpointId(5), Event::Opened));
    rig.emit(Signal::AcceptorEvt(sid, EndpointId(5), Event::Error(IoError::Os(5))));
    rig.emit(Signal::SocketEvt(gone, Event::Closed));
    rig.drain(Token::bus());
    let drain = rig.reactor.handle(&mut rig.el, Token(5), Ready::readable(), 1);
    assert_eq!(drain, Drain { taken: 0, empty: true });
    assert!(rig.logged().is_empty());
    assert_eq!(rig.reactor.sockets.socket_count(), 1);
    assert_eq!(rig.reactor.context.endpoints.pipe_count(), 0);
    assert!(rig.reactor.context.bus.is_empty());
}

#[test]
fn closed_events_remove_pipe_and_socket() {
    let mut rig = Rig::new();
    let sid = rig.create_socket();
    rig.request(Request::Socket(sid, SocketRequest::Connect("mock://a".to_string())));
    assert_eq!(rig.reactor.context.endpoints.pipe_count(), 1);
    rig.request(Request::Endpoint(sid, EndpointId(2), EndpointRequest::Close(true)));
    assert_eq!(rig.count("socket 1 close_pipe 2"), 1);
    assert_eq!(rig.reactor.context.endpoints.pipe_count(), 0);

    rig.request(Request::Socket(sid, SocketRequest::Close));
    assert_eq!(rig.count("socket 1 close"), 1);
    assert_eq!(rig.reactor.sockets.socket_count(), 0);
    assert!(!rig.reactor.sockets.contains_socket(sid));
}

#[test]
fn readiness_reaches_pipe_then_acceptor() {
    let mut rig = Rig::new();
    let sid = rig.create_socket();
    rig.request(Request::Socket(sid, SocketRequest::Connect("mock://a".to_string())));
    rig.request(Request::Socket(sid, SocketRequest::Bind("mock://:2".to_string())));
    assert!(rig.reactor.context.endpoints.contains_pipe(EndpointId(2)));
    assert!(rig.reactor.context.endpoints.contains_acceptor(EndpointId(3)));

    assert_eq!(
        rig.reactor.handle(&mut rig.el, EndpointId(2).token(), Ready::readable(), 0),
        Drain { taken: 1, empty: true }
    );
    rig.drain(Token::bus());
    assert_eq!(rig.count("socket 1 on_recv_ready 2"), 1);

    assert_eq!(
        rig.reactor.handle(&mut rig.el, EndpointId(3).token(), Ready::readable(), 0),
        Drain { taken: 1, empty: true }
    );
    assert_eq!(rig.reactor.context.endpoints.get_acceptor(EndpointId(3)).unwrap().readies, 1);
    rig.drain(Token::bus());
    assert_eq!(rig.count("socket 1 on_pipe_accepted 3 4"), 1);
}

#[test]
fn unknown_scheme_is_invalid_input() {
    let mut rig = Rig::new();
    let sid = rig.create_socket();
    rig.request(Request::Socket(sid, SocketRequest::Connect("tcp://a".to_string())));
    rig.request(Request::Socket(sid, SocketRequest::Bind("mock:/a".to_string())));
    assert_eq!(
        rig.replies.borrow().clone(),
        vec![Reply::Failed(IoError::InvalidInput), Reply::Failed(IoError::InvalidInput)]
    );
    assert_eq!(rig.reactor.context.endpoints.pipe_count(), 0);
    assert_eq!(rig.reactor.context.endpoints.acceptor_count(), 0);
}

#[test]
fn callbacks_of_one_socket_leave_the_other_alone() {
    let mut rig = Rig::new();
    let a = rig.create_socket();
    let b = rig.create_socket();
    for _ in 0..5 {
        rig.request(Request::Socket(a, SocketRequest::Recv));
    }
    assert_eq!(rig.reactor.sockets.get_socket(a).unwrap().generation, 5);
    assert_eq!(rig.reactor.sockets.get_socket(b).unwrap().generation, 0);
    rig.request(Request::Socket(b, SocketRequest::Recv));
    assert_eq!(rig.reactor.sockets.get_socket(a).unwrap().generation, 5);
    assert_eq!(rig.reactor.sockets.get_socket(b).unwrap().generation, 1);
}

#[test]
fn drains_report_an_empty_source() {
    let mut rig = Rig::new();
    let sid = rig.create_socket();
    for _ in 0..5 {
        rig.reactor.submit(Request::Socket(sid, SocketRequest::Recv));
    }
    // five requests wait: a budget of five takes them all but does not see the end
    assert_eq!(
        rig.reactor.handle(&mut rig.el, Token::channel(), Ready::readable(), 2),
        Drain { taken: 2, empty: false }
    );
    assert_eq!(rig.reactor.channel.len(), 3);
    assert_eq!(
        rig.reactor.handle(&mut rig.el, Token::channel(), Ready::readable(), 3),
        Drain { taken: 3, empty: false }
    );
    assert_eq!(rig.reactor.channel.len(), 0);
    assert_eq!(
        rig.reactor.handle(&mut rig.el, Token::channel(), Ready::readable(), 1),
        Drain { taken: 0, empty: true }
    );
    assert_eq!(rig.count("socket 1 recv"), 5);

    for _ in 0..3 {
        rig.emit(Signal::SocketEvt(sid, Event::Opened));
    }
    assert_eq!(
        rig.reactor.handle(&mut rig.el, Token::bus(), Ready::readable(), 0),
        Drain { taken: 0, empty: false }
    );
    assert_eq!(
        rig.reactor.handle(&mut rig.el, Token::bus(), Ready::readable(), 3),
        Drain { taken: 3, empty: false }
    );
    assert!(rig.reactor.context.bus.is_empty());
    assert_eq!(
        rig.reactor.handle(&mut rig.el, Token::bus(), Ready::readable(), 3),
        Drain { taken: 0, empty: true }
    );
    assert_eq!(
        rig.reactor.handle(&mut rig.el, Token::timer(), Ready::readable(), 0),
        Drain { taken: 0, empty: false }
    );
    assert_eq!(
        rig.reactor.handle(&mut rig.el, Token::timer(), Ready::readable(), 1),
        Drain { taken: 0, empty: true }
    );
}

#[test]
fn signals_posted_while_draining_are_handled_in_order() {
    let mut rig = Rig::new();
    let sid = rig.create_socket();
    rig.reactor.submit(Request::Socket(sid, SocketRequest::Connect("mock://a".to_string())));
    rig.drain(Token::channel());
    // the open command waits on the bus; its events are posted during the drain
    assert_eq!(rig.reactor.context.bus.len(), 1);
    assert_eq!(rig.count("socket 1 on_pipe_opened 2"), 0);
    assert_eq!(
        rig.reactor.handle(&mut rig.el, Token::bus(), Ready::readable(), 100),
        Drain { taken: 3, empty: true }
    );
    let log = rig.logged();
    let opened = log.iter().position(|l| l == "socket 1 on_pipe_opened 2").unwrap();
    let ready = log.iter().position(|l| l == "socket 1 on_send_ready 2").unwrap();
    assert!(opened < ready);
}

#[test]
fn shutdown_clears_the_running_flag() {
    let mut rig = Rig::new();
    rig.el.start();
    assert!(rig.el.is_running());
    rig.request(Request::Session(SessionRequest::Shutdown));
    assert!(!rig.el.is_running());
}

#[test]
fn handler_drains_through_the_event_loop() {
    let mut rig = Rig::new();
    let sid = rig.create_socket();
    for _ in 0..10 {
        rig.reactor.submit(Request::Socket(sid, SocketRequest::Recv));
    }
    EventHandler::handle(&mut rig.reactor, &mut rig.el, Token::channel(), Ready::readable());
    assert_eq!(rig.count("socket 1 recv"), 10);
    assert!(rig.reactor.channel.is_empty());
}

#[test]
fn timer_tasks_reach_their_socket() {
    let mut rig = Rig::new();
    let sid = rig.create_socket();
    let task = reactors::api::Task::Socket(sid, Schedulable::SendTimeout);
    let first = rig.reactor.context.schedule.schedule(&mut rig.reactor.context.timer, task, 30).unwrap();
    let task = reactors::api::Task::Socket(sid, Schedulable::ReqResend);
    let second = rig.reactor.context.schedule.schedule(&mut rig.reactor.context.timer, task, 30).unwrap();
    let task = reactors::api::Task::Socket(SocketId(9), Schedulable::RecvTimeout);
    let third = rig.reactor.context.schedule.schedule(&mut rig.reactor.context.timer, task, 30).unwrap();
    assert!(first.0 < second.0 && second.0 < third.0);
    wait(Duration::from_millis(70));
    assert_eq!(
        rig.reactor.handle(&mut rig.el, Token::timer(), Ready::readable(), 100),
        Drain { taken: 3, empty: true }
    );
    assert_eq!(rig.reactor.context.schedule.len(), 0);
    assert_eq!(
        rig.logged(),
        vec!["socket 1 on_send_timeout".to_string(), "socket 1 on_timer_tick ReqResend".to_string()]
    );
}

#[test]
fn session_runs_out_of_identifiers() {
    let mut session: Session<MockSocket, MockDevice> = Session::new();
    let log: Log = Rc::new(RefCell::new(Vec::new()));
    let replies: Replies = Rc::new(RefCell::new(Vec::new()));
    let ctor = MockCtor { log: log.clone(), replies: replies.clone() };
    let mut ids = Sequence::starting_at(ID_LIMIT - 1);
    assert_eq!(session.add_socket::<MockPipe>(ids.next(), ctor), Some(SocketId(ID_LIMIT - 1)));
    let ctor = MockCtor { log: log.clone(), replies: replies.clone() };
    assert_eq!(session.add_socket::<MockPipe>(ids.next(), ctor), None);
    assert_eq!(session.add_device(ids.next(), SocketId(1), SocketId(2)), None);
    assert_eq!(session.take_reply(), Some(Reply::SocketCreated(SocketId(ID_LIMIT - 1))));
    assert_eq!(session.take_reply(), Some(Reply::Failed(IoError::Exhausted)));
    assert_eq!(session.take_reply(), Some(Reply::Failed(IoError::Exhausted)));
    assert_eq!(session.take_reply(), None);
    assert_eq!(session.socket_count(), 1);
    assert_eq!(session.device_count(), 0);
}

#[test]
fn accepted_pipes_beyond_the_last_identifier_are_dropped() {
    let mut rig = Rig::new();
    let sid = rig.create_socket();
    rig.reactor.context.endpoints = EndpointCollection::new(Sequence::starting_at(ID_LIMIT - 2), Vec::new());
    let aid = rig.reactor.context.endpoints.insert_acceptor(sid, MockAcceptor { readies: 0 }).unwrap();
    let pipes = vec![
        MockPipe { refuses: false, opened: 0 },
        MockPipe { refuses: false, opened: 0 },
        MockPipe { refuses: false, opened: 0 },
    ];
    rig.emit(Signal::AcceptorEvt(sid, aid, Event::Accepted(pipes)));
    rig.drain(Token::bus());
    assert_eq!(rig.reactor.context.endpoints.pipe_count(), 1);
    assert!(rig.reactor.context.endpoints.contains_pipe(EndpointId(ID_LIMIT - 1)));
    assert_eq!(rig.count(&format!("socket 1 on_pipe_accepted {} {}", aid.0, ID_LIMIT - 1)), 1);
    assert_eq!(rig.logged().iter().filter(|l| l.contains("on_pipe_accepted")).count(), 1);
}

#[test]
fn sockets_devices_and_endpoints_share_one_sequence() {
    let mut rig = Rig::new();
    let first = rig.create_socket();
    rig.request(Request::Socket(first, SocketRequest::Connect("mock://a".to_string())));
    let second = rig.create_socket();
    rig.request(Request::Socket(second, SocketRequest::Bind("mock://:1".to_string())));
    rig.request(Request::Session(SessionRequest::CreateDevice(first, second)));
    rig.request(Request::Socket(first, SocketRequest::Connect("mock://b".to_string())));
    assert_eq!((first, second), (SocketId(1), SocketId(3)));
    assert!(rig.reactor.context.endpoints.contains_pipe(EndpointId(2)));
    assert!(rig.reactor.context.endpoints.contains_acceptor(EndpointId(4)));
    assert_eq!(rig.reactor.sockets.take_reply(), Some(Reply::DeviceCreated(DeviceId(5))));
    assert!(rig.reactor.context.endpoints.contains_pipe(EndpointId(6)));
    // no identifier names a socket and an endpoint at once
    for id in 1..7usize {
        let socket = rig.reactor.sockets.contains_socket(SocketId(id));
        let endpoint = rig.reactor.context.endpoints.contains_pipe(EndpointId(id))
            || rig.reactor.context.endpoints.contains_acceptor(EndpointId(id));
        assert!(!(socket && endpoint));
    }
}

#[test]
fn accepted_pipes_of_a_socket_that_is_gone_are_dropped() {
    let mut rig = Rig::new();
    let sid = rig.create_socket();
    rig.request(Request::Socket(sid, SocketRequest::Bind("mock://:1".to_string())));
    let aid = EndpointId(2);
    assert!(rig.reactor.context.endpoints.contains_acceptor(aid));
    rig.reactor.sockets.remove_socket(sid);
    let before = rig.logged();

    let pipes = vec![MockPipe { refuses: false, opened: 0 }, MockPipe { refuses: false, opened: 0 }];
    rig.emit(Signal::AcceptorEvt(sid, aid, Event::Accepted(pipes)));
    rig.emit(Signal::AcceptorEvt(sid, aid, Event::Error(IoError::Os(1))));
    rig.drain(Token::bus());

    assert_eq!(rig.reactor.context.endpoints.pipe_count(), 0);
    assert_eq!(rig.reactor.context.endpoints.acceptor_count(), 1);
    assert_eq!(rig.logged(), before);
    assert_eq!(rig.reactor.sockets.take_reply(), None);
    // the next identifier was not spent on the dropped pipes
    assert_eq!(rig.reactor.context.endpoints.insert_pipe(sid, MockPipe { refuses: false, opened: 0 }), Some(EndpointId(3)));
}

#[test]
fn accepted_on_a_pipe_is_dropped() {
    let mut rig = Rig::new();
    let sid = rig.create_socket();
    rig.request(Request::Socket(sid, SocketRequest::Connect("mock://a".to_string())));
    let eid = EndpointId(2);
    assert!(rig.reactor.context.endpoints.contains_pipe(eid));
    let before = rig.logged();
    let pipes = vec![MockPipe { refuses: false, opened: 0 }];
    rig.emit(Signal::PipeEvt(sid, eid, Event::Accepted(pipes)));
    rig.drain(Token::bus());
    assert_eq!(rig.logged(), before);
    assert_eq!(rig.reactor.context.endpoints.pipe_count(), 1);
    assert_eq!(rig.reactor.context.endpoints.insert_pipe(sid, MockPipe { refuses: false, opened: 0 }), Some(EndpointId(3)));
}
