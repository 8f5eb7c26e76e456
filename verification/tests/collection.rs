//! The endpoint collection and the transport registry.

use std::cell::RefCell;

use reactors::api::{EndpointSpec, IoError};
use reactors::endpoints::{starts_with_scheme, EndpointCollection};
use reactors::ids::{EndpointId, Sequence, SocketId, BUS_TOKEN, CHANNEL_TOKEN, ID_LIMIT, TIMER_TOKEN};
use reactors::network::Transport;

struct Maker {
    name: &'static str,
    fails: Option<IoError>,
    calls: RefCell<Vec<String>>,
}

impl Maker {
    fn new(name: &'static str) -> Maker {
        Maker { name, fails: None, calls: RefCell::new(Vec::new()) }
    }
}

impl Transport<String, String> for Maker {
    fn connect(&self, url: &str) -> Result<String, IoError> {
        self.calls.borrow_mut().push(format!("connect {}", url));
        match self.fails {
            Some(e) => Err(e),
            None => Ok(format!("{} pipe {}", self.name, url)),
        }
    }

    fn bind(&self, url: &str) -> Result<String, IoError> {
        self.calls.borrow_mut().push(format!("bind {}", url));
        match self.fails {
            Some(e) => Err(e),
            None => Ok(format!("{} acceptor {}", self.name, url)),
        }
    }
}

type Collection = EndpointCollection<String, String, Maker>;

fn collection() -> Collection {
    EndpointCollection::new(Sequence::new(), vec![
        ("tcp".to_string(), Maker::new("first")),
        ("ipc".to_string(), Maker::new("second")),
        ("tcp".to_string(), Maker::new("third")),
    ])
}

fn spec(url: &str) -> EndpointSpec {
    EndpointSpec { url: url.to_string() }
}

#[test]
fn scheme_is_what_stands_before_the_separator() {
    assert!(starts_with_scheme(b"tcp://host:1", b"tcp"));
    assert!(starts_with_scheme(b"tcp://", b"tcp"));
    assert!(starts_with_scheme(b"://x", b""));
    assert!(!starts_with_scheme(b"tcp:/host", b"tcp"));
    assert!(!starts_with_scheme(b"tcp:/", b"tcp"));
    assert!(!starts_with_scheme(b"tcp", b"tcp"));
    assert!(!starts_with_scheme(b"tc", b"tcp"));
    assert!(!starts_with_scheme(b"tcpx://host", b"tcp"));
    assert!(!starts_with_scheme(b"udp://host", b"tcp"));
    assert!(!starts_with_scheme(b"", b"tcp"));
    assert!(!starts_with_scheme(b"tcp//:host", b"tcp"));
}

#[test]
fn resolve_finds_the_first_transport_of_the_scheme() {
    let endpoints = collection();
    assert_eq!(endpoints.resolve("tcp://a"), Some(0));
    assert_eq!(endpoints.resolve("ipc://a"), Some(1));
    assert_eq!(endpoints.resolve("ws://a"), None);
    assert_eq!(endpoints.resolve("tcp"), None);
    assert_eq!(endpoints.resolve(""), None);
}

#[test]
fn identifiers_are_fresh_and_never_reserved() {
    let mut endpoints = collection();
    let mut seen = Vec::new();
    for round in 0..50usize {
        let id = if round % 2 == 0 {
            endpoints.insert_pipe(SocketId(1), format!("p{}", round)).unwrap()
        } else {
            endpoints.insert_acceptor(SocketId(1), format!("a{}", round)).unwrap()
        };
        assert!(!seen.contains(&id));
        assert_ne!(id.0, CHANNEL_TOKEN);
        assert_ne!(id.0, BUS_TOKEN);
        assert_ne!(id.0, TIMER_TOKEN);
        assert_eq!(id, EndpointId(round + 1));
        seen.push(id);
        if round % 3 == 0 {
            endpoints.remove_pipe(id);
            endpoints.remove_acceptor(id);
        }
    }
    for id in seen.iter() {
        assert!(!(endpoints.contains_pipe(*id) && endpoints.contains_acceptor(*id)));
    }
    assert_eq!(endpoints.pipe_count() + endpoints.acceptor_count(), 33);
}

#[test]
fn pipes_and_acceptors_are_kept_apart() {
    let mut endpoints = collection();
    let pipe = endpoints.insert_pipe(SocketId(1), "p".to_string()).unwrap();
    let acceptor = endpoints.insert_acceptor(SocketId(2), "a".to_string()).unwrap();
    assert_eq!((pipe, acceptor), (EndpointId(1), EndpointId(2)));
    assert_eq!(endpoints.get_pipe(pipe), Some(&"p".to_string()));
    assert_eq!(endpoints.get_acceptor(pipe), None);
    assert_eq!(endpoints.get_acceptor(acceptor), Some(&"a".to_string()));
    assert_eq!(endpoints.get_pipe(acceptor), None);
    assert_eq!(endpoints.owner(pipe), Some(SocketId(1)));
    assert_eq!(endpoints.owner(acceptor), Some(SocketId(2)));
    assert_eq!(endpoints.owner(EndpointId(3)), None);

    // an identifier cannot become both
    assert_eq!(endpoints.replace_pipe(SocketId(1), acceptor, "q".to_string()), Err(IoError::NotFound));
    assert_eq!(endpoints.replace_acceptor(SocketId(1), pipe, "b".to_string()), Err(IoError::NotFound));
    // nor can one that was never handed out be used
    assert_eq!(endpoints.replace_pipe(SocketId(1), EndpointId(3), "q".to_string()), Err(IoError::NotFound));
    assert!(endpoints.issued(EndpointId(2)));
    assert!(!endpoints.issued(EndpointId(3)));

    assert_eq!(endpoints.replace_pipe(SocketId(3), pipe, "q".to_string()), Ok(()));
    assert_eq!(endpoints.get_pipe(pipe), Some(&"q".to_string()));
    assert_eq!(endpoints.owner(pipe), Some(SocketId(3)));
    endpoints.remove_pipe(pipe);
    assert_eq!(endpoints.replace_pipe(SocketId(1), pipe, "r".to_string()), Ok(()));
    assert_eq!(endpoints.pipe_count(), 1);
    assert_eq!(endpoints.acceptor_count(), 1);
}

#[test]
fn connect_and_bind_go_through_the_transport() {
    let mut endpoints = collection();
    assert_eq!(endpoints.connect(SocketId(1), &spec("ipc://x")), Ok(EndpointId(1)));
    assert_eq!(endpoints.get_pipe(EndpointId(1)), Some(&"second pipe ipc://x".to_string()));
    assert_eq!(endpoints.bind(SocketId(1), &spec("tcp://:5")), Ok(EndpointId(2)));
    assert_eq!(endpoints.get_acceptor(EndpointId(2)), Some(&"first acceptor tcp://:5".to_string()));
    assert_eq!(endpoints.connect(SocketId(1), &spec("ws://x")), Err(IoError::InvalidInput));
    assert_eq!(endpoints.bind(SocketId(1), &spec("nothing")), Err(IoError::InvalidInput));
    assert_eq!(endpoints.pipe_count(), 1);

    assert_eq!(endpoints.reconnect(SocketId(1), EndpointId(1), &spec("tcp://y")), Ok(()));
    assert_eq!(endpoints.get_pipe(EndpointId(1)), Some(&"first pipe tcp://y".to_string()));
    assert_eq!(endpoints.rebind(SocketId(1), EndpointId(2), &spec("ipc://z")), Ok(()));
    assert_eq!(endpoints.get_acceptor(EndpointId(2)), Some(&"second acceptor ipc://z".to_string()));
    assert_eq!(endpoints.reconnect(SocketId(1), EndpointId(2), &spec("tcp://y")), Err(IoError::NotFound));
    assert_eq!(endpoints.rebind(SocketId(1), EndpointId(1), &spec("tcp://y")), Err(IoError::NotFound));
    assert_eq!(endpoints.reconnect(SocketId(1), EndpointId(1), &spec("ws://y")), Err(IoError::InvalidInput));
}

#[test]
fn transport_failures_are_passed_on() {
    let mut refusing = Maker::new("refusing");
    refusing.fails = Some(IoError::ConnectionRefused);
    let mut endpoints: Collection = EndpointCollection::new(Sequence::new(), vec![("tcp".to_string(), refusing)]);
    assert_eq!(endpoints.connect(SocketId(1), &spec("tcp://x")), Err(IoError::ConnectionRefused));
    assert_eq!(endpoints.bind(SocketId(1), &spec("tcp://x")), Err(IoError::ConnectionRefused));
    assert_eq!(endpoints.pipe_count(), 0);
    assert_eq!(endpoints.acceptor_count(), 0);
    // no identifier was spent on the failures
    assert_eq!(endpoints.insert_pipe(SocketId(1), "p".to_string()), Some(EndpointId(1)));

    assert_eq!(endpoints.admit_pipe(SocketId(1), Ok("q".to_string())), Ok(EndpointId(2)));
    assert_eq!(endpoints.admit_pipe(SocketId(1), Err(IoError::Os(2))), Err(IoError::Os(2)));
    assert_eq!(endpoints.admit_acceptor(SocketId(1), Ok("a".to_string())), Ok(EndpointId(3)));
    assert_eq!(endpoints.admit_acceptor(SocketId(1), Err(IoError::Os(3))), Err(IoError::Os(3)));
    assert_eq!(endpoints.readmit_pipe(SocketId(1), EndpointId(2), Ok("r".to_string())), Ok(()));
    assert_eq!(endpoints.readmit_pipe(SocketId(1), EndpointId(3), Ok("r".to_string())), Err(IoError::NotFound));
    assert_eq!(endpoints.readmit_pipe(SocketId(1), EndpointId(2), Err(IoError::Os(4))), Err(IoError::Os(4)));
    assert_eq!(endpoints.readmit_acceptor(SocketId(1), EndpointId(3), Ok("b".to_string())), Ok(()));
    assert_eq!(endpoints.readmit_acceptor(SocketId(1), EndpointId(2), Ok("b".to_string())), Err(IoError::NotFound));
    assert_eq!(endpoints.get_pipe(EndpointId(2)), Some(&"r".to_string()));
    assert_eq!(endpoints.get_acceptor(EndpointId(3)), Some(&"b".to_string()));
}

#[test]
fn identifiers_end_before_the_reserved_tokens() {
    let mut endpoints: Collection = EndpointCollection::new(Sequence::starting_at(ID_LIMIT - 2), Vec::new());
    assert_eq!(endpoints.insert_pipe(SocketId(1), "p".to_string()), Some(EndpointId(usize::MAX - 5)));
    assert_eq!(endpoints.insert_acceptor(SocketId(1), "a".to_string()), Some(EndpointId(usize::MAX - 4)));
    assert_eq!(endpoints.insert_pipe(SocketId(1), "q".to_string()), None);
    assert_eq!(endpoints.insert_acceptor(SocketId(1), "b".to_string()), None);
    assert_eq!(endpoints.admit_pipe(SocketId(1), Ok("r".to_string())), Err(IoError::Exhausted));
    assert_eq!(endpoints.admit_acceptor(SocketId(1), Ok("c".to_string())), Err(IoError::Exhausted));
    assert_eq!(endpoints.pipe_count(), 1);
    assert_eq!(endpoints.acceptor_count(), 1);
    for reserved in [TIMER_TOKEN, BUS_TOKEN, CHANNEL_TOKEN, usize::MAX] {
        assert!(!endpoints.contains_pipe(EndpointId(reserved)));
        assert!(!endpoints.contains_acceptor(EndpointId(reserved)));
        assert!(!endpoints.issued(EndpointId(reserved)));
        assert_eq!(endpoints.replace_pipe(SocketId(1), EndpointId(reserved), "x".to_string()), Err(IoError::NotFound));
    }
}
