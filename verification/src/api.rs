//! The values that travel through the reactor: requests from the user API,
//! signals on the bus, timer tasks, endpoint events and commands, replies.

use vstd::prelude::*;
use crate::dispatcher::Schedulable;
use crate::ids::{DeviceId, EndpointId, SocketId};

verus! {

/// Why an operation of the reactor or of one of its collaborators failed.
#[derive(Clone, Copy, Debug, PartialEq, Eq, Structural, Hash)]
pub enum IoError {
    /// The poll was interrupted by a signal; the event loop absorbs it.
    Interrupted,
    /// An address that no transport can be resolved for.
    InvalidInput,
    /// The target of an operation is not registered.
    NotFound,
    /// The peer refused the connection.
    ConnectionRefused,
    /// The timer already holds as many pending tasks as it may.
    TimerOverflow,
    /// No identifier is left below the reserved tokens.
    Exhausted,
    /// Any other failure, with the operating system's code.
    Os(i32),
}

/// A message as the reactor carries it: the core never looks inside.
#[derive(Clone, Debug, PartialEq, Eq)]
pub struct Message {
    pub header: Vec<u8>,
    pub body: Vec<u8>,
}

/// What a socket needs to create, and later recreate, one endpoint.
#[derive(Clone, Debug, PartialEq, Eq)]
pub struct EndpointSpec {
    pub url: String,
}

/// What a pipe, an acceptor or a socket reports. `P` is the pipe type that an
/// acceptor hands over.
#[derive(Debug, PartialEq, Eq)]
pub enum Event<P> {
    Opened,
    CanSend,
    Sent,
    CanRecv,
    Received(Message),
    Accepted(Vec<P>),
    Error(IoError),
    Closed,
}

/// What a socket asks of one of its endpoints.
#[derive(Clone, Debug, PartialEq, Eq)]
pub enum Command {
    Open,
    Close,
    Send(Message),
    Recv,
}

/// A deferred message on the bus.
#[derive(Debug, PartialEq, Eq)]
pub enum Signal<P> {
    PipeCmd(SocketId, EndpointId, Command),
    AcceptorCmd(SocketId, EndpointId, Command),
    PipeEvt(SocketId, EndpointId, Event<P>),
    AcceptorEvt(SocketId, EndpointId, Event<P>),
    SocketEvt(SocketId, Event<P>),
}

/// What the timer delivers when a scheduled entry fires.
#[derive(Clone, Debug, PartialEq, Eq)]
pub enum Task {
    Socket(SocketId, Schedulable),
}

/// A request to the session. `K` is what a socket is constructed from.
#[derive(Debug, PartialEq, Eq)]
pub enum SessionRequest<K> {
    CreateSocket(K),
    CreateDevice(SocketId, SocketId),
    Shutdown,
}

/// A request to one socket.
#[derive(Clone, Debug, PartialEq, Eq)]
pub enum SocketRequest {
    Connect(String),
    Bind(String),
    Send(Message),
    Recv,
    Close,
}

/// A request about one endpoint of a socket: close the pipe (`true`) or the
/// acceptor (`false`) of that identifier.
#[derive(Clone, Copy, Debug, PartialEq, Eq)]
pub enum EndpointRequest {
    Close(bool),
}

/// A request to one device.
#[derive(Clone, Copy, Debug, PartialEq, Eq)]
pub enum DeviceRequest {
    Check,
}

/// A request from the user API.
#[derive(Debug, PartialEq, Eq)]
pub enum Request<K> {
    Session(SessionRequest<K>),
    Socket(SocketId, SocketRequest),
    Endpoint(SocketId, EndpointId, EndpointRequest),
    Device(DeviceId, DeviceRequest),
}

/// What the reactor and its sockets tell the user API.
#[derive(Clone, Debug, PartialEq, Eq)]
pub enum Reply {
    SocketCreated(SocketId),
    DeviceCreated(DeviceId),
    SendAck(SocketId),
    RecvAck(SocketId, Message),
    Failed(IoError),
}

} // verus!
