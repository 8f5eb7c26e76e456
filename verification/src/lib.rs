//! The reactor core of a scalable messaging engine: a single-threaded
//! dispatcher that multiplexes readiness events, user requests, deferred
//! signals and timer expirations onto sockets, endpoints and devices.

pub mod api;
pub mod bus;
pub mod context;
pub mod dispatcher;
pub mod endpoints;
pub mod event_loop;
pub mod ids;
pub mod network;
pub mod routing;
pub mod schedule;
pub mod session;
pub mod timer;
