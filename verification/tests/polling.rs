//! One iteration of the event loop over what a poll returned.

use reactors::api::IoError;
use reactors::event_loop::{EventHandler, EventLoop, Polled, Step};
use reactors::ids::{Ready, Token};

struct Recorder {
    seen: Vec<(Token, Ready)>,
    stop_at: Option<Token>,
}

impl EventHandler<u8> for Recorder {
    fn handle(&mut self, el: &mut EventLoop<u8>, token: Token, events: Ready) {
        self.seen.push((token, events));
        if self.stop_at == Some(token) {
            el.shutdown();
        }
    }
}

fn polled(token: usize, kind: usize) -> Polled {
    Polled { token: Token(token), kind: Ready(kind) }
}

#[test]
fn events_are_handled_in_order() {
    let mut el = EventLoop::new(7u8);
    assert!(!el.is_running());
    assert_eq!(*el.registry(), 7);
    el.start();
    let mut handler = Recorder { seen: Vec::new(), stop_at: None };
    let result = el.run_once(&mut handler, Ok(vec![polled(3, 1), polled(1, 2), polled(2, 1)]));
    assert_eq!(result, Ok(()));
    assert_eq!(
        handler.seen,
        vec![(Token(3), Ready(1)), (Token(1), Ready(2)), (Token(2), Ready(1))]
    );
    assert!(el.is_running());
}

#[test]
fn interrupted_poll_is_absorbed() {
    let mut el = EventLoop::new(0u8);
    el.start();
    let mut handler = Recorder { seen: Vec::new(), stop_at: None };
    assert_eq!(el.run_once(&mut handler, Err(IoError::Interrupted)), Ok(()));
    assert!(handler.seen.is_empty());
    assert!(el.is_running());
    assert_eq!(el.run_once(&mut handler, Ok(Vec::new())), Ok(()));
    assert!(handler.seen.is_empty());
}

#[test]
fn other_poll_errors_end_the_iteration() {
    let mut el = EventLoop::new(0u8);
    el.start();
    let mut handler = Recorder { seen: Vec::new(), stop_at: None };
    assert_eq!(el.run_once(&mut handler, Err(IoError::Os(9))), Err(IoError::Os(9)));
    assert_eq!(el.run_once(&mut handler, Err(IoError::NotFound)), Err(IoError::NotFound));
    assert!(handler.seen.is_empty());
    assert!(el.is_running());
}

#[test]
fn shutdown_lets_the_iteration_complete() {
    let mut el = EventLoop::new(0u8);
    el.start();
    let mut handler = Recorder { seen: Vec::new(), stop_at: Some(Token(1)) };
    let mut iterations = 0;
    let batches = vec![vec![polled(5, 1)], vec![polled(1, 1), polled(2, 1)], vec![polled(9, 1)]];
    for batch in batches {
        if !el.is_running() {
            break;
        }
        assert_eq!(el.run_once(&mut handler, Ok(batch)), Ok(()));
        iterations += 1;
    }
    // the batch in which the shutdown came is handled to its end, the next is not polled
    assert_eq!(iterations, 2);
    assert_eq!(handler.seen, vec![(Token(5), Ready(1)), (Token(1), Ready(1)), (Token(2), Ready(1))]);
    assert!(!el.is_running());
    *el.registry_mut() = 4;
    assert_eq!(*el.registry(), 4);
}

#[test]
fn a_run_polls_while_running_and_returns_the_first_error() {
    let mut el = EventLoop::new(0u8);
    assert_eq!(el.next_step(Ok(())), Step::Return(Ok(())));
    el.start();
    assert_eq!(el.next_step(Ok(())), Step::Poll);
    assert_eq!(el.next_step(Err(IoError::Os(4))), Step::Return(Err(IoError::Os(4))));
    el.shutdown();
    assert_eq!(el.next_step(Ok(())), Step::Return(Ok(())));
    assert_eq!(el.next_step(Err(IoError::NotFound)), Step::Return(Err(IoError::NotFound)));
}
