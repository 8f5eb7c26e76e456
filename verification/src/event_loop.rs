//! The event loop: the running flag, the absorption of interrupted polls and
//! the hand-over of polled events to a handler. Polling itself is the
//! caller's: one iteration takes what the poll returned.

use vstd::prelude::*;
use crate::api::IoError;
use crate::ids::{Ready, Token};

verus! {

/// Receives the readiness events of one loop.
pub trait EventHandler<R>: Sized {
    /// Whether a handler in state `self`, with the loop in state `el`, may be
    /// in state `after`, with the loop in state `el_after`, once it has
    /// handled the readiness `events` of `token`. A handler says here what
    /// handling an event does; one that says nothing of itself leaves this as
    /// it is, which admits every outcome.
    open spec fn handles(&self, el: EventLoop<R>, token: Token, events: Ready, after: &Self, el_after: EventLoop<R>) -> bool {
        true
    }

    fn handle(&mut self, el: &mut EventLoop<R>, token: Token, events: Ready)
        ensures
            old(self).handles(*old(el), token, events, final(self), *final(el)),
    ;
}

/// The events of `events` have been handled one after the other, front to
/// back: each by the handler, and with the loop, as the event before left
/// them.
pub open spec fn events_handled<R, H: EventHandler<R>>(handler: H, el: EventLoop<R>, events: Seq<Polled>, after: H, el_after: EventLoop<R>) -> bool
    decreases events.len(),
{
    if events.len() == 0 {
        after == handler && el_after == el
    } else {
        exists|mid: H, el_mid: EventLoop<R>|
            events_handled(handler, el, events.drop_last(), mid, el_mid) && #[trigger] mid.handles(
                el_mid,
                events.last().token,
                events.last().kind,
                &after,
                el_after,
            )
    }
}

/// One readiness event as the poller reported it.
#[derive(Clone, Copy, Debug, PartialEq, Eq, Structural)]
pub struct Polled {
    pub token: Token,
    pub kind: Ready,
}

/// The loop's state. `R` is the poller with its event buffer, which endpoint
/// machines reach through the loop to register their sources.
pub struct EventLoop<R> {
    registry: R,
    running: bool,
}

/// What a run does once an iteration has ended.
#[derive(Clone, Copy, Debug, PartialEq, Eq)]
pub enum Step {
    /// Poll again and run another iteration.
    Poll,
    /// Return: with the error that ended the iteration, or with success
    /// after a shutdown.
    Return(Result<(), IoError>),
}

/// What a run does after an iteration that ended with `result`, by the
/// running flag: the first error is returned; without one the run polls again
/// while the flag is up and returns once it is down.
pub open spec fn step_after(running: bool, result: Result<(), IoError>) -> Step {
    match result {
        Err(e) => Step::Return(Err(e)),
        Ok(_) => if running {
            Step::Poll
        } else {
            Step::Return(Ok(()))
        },
    }
}

/// Shutdown liveness at the loop: once the running flag is down, a run does
/// not poll again, whatever the iteration under way ends with.
pub proof fn lemma_stopped_run_returns(result: Result<(), IoError>)
    ensures
        step_after(false, result) is Return,
        result is Ok ==> step_after(false, result) == Step::Return(Ok(())),
{
}

/// What an iteration makes of the poll's outcome: an interrupted poll counts
/// as one that returned no event, any other error ends the loop.
pub open spec fn absorbed(polled: Result<Vec<Polled>, IoError>) -> Result<Seq<Polled>, IoError> {
    match polled {
        Ok(events) => Ok(events@),
        Err(IoError::Interrupted) => Ok(Seq::empty()),
        Err(e) => Err(e),
    }
}

impl<R> EventLoop<R> {
    /// Whether the loop goes on with another iteration.
    pub closed spec fn running(&self) -> bool {
        self.running
    }

    /// The poller that the loop owns.
    pub closed spec fn poller(&self) -> R {
        self.registry
    }

    /// A loop around `registry`, not running yet.
    pub fn new(registry: R) -> (el: Self)
        ensures
            !el.running(),
            el.poller() == registry,
    {
        EventLoop { registry, running: false }
    }

    /// Marks the loop as running: the first step of a run.
    pub fn start(&mut self)
        ensures
            final(self).running(),
            final(self).poller() == old(self).poller(),
    {
        self.running = true;
    }

    /// Clears the running flag: the iteration under way completes, and the run
    /// ends before it polls again.
    pub fn shutdown(&mut self)
        ensures
            !final(self).running(),
            final(self).poller() == old(self).poller(),
    {
        self.running = false;
    }

    /// Decides what a run does after an iteration that ended with `result`:
    /// poll again, or return.
    pub fn next_step(&self, result: Result<(), IoError>) -> (step: Step)
        ensures
            step == step_after(self.running(), result),
    {
        match result {
            Err(e) => Step::Return(Err(e)),
            Ok(_) => if self.running {
                Step::Poll
            } else {
                Step::Return(Ok(()))
            },
        }
    }

    pub fn is_running(&self) -> (running: bool)
        ensures
            running == self.running(),
    {
        self.running
    }

    pub fn registry(&self) -> (registry: &R)
        ensures
            *registry == self.poller(),
    {
        &self.registry
    }

    pub fn registry_mut(&mut self) -> (registry: &mut R)
        ensures
            *registry == old(self).poller(),
            final(self).poller() == *final(registry),
            final(self).running() == old(self).running(),
    {
        &mut self.registry
    }

    /// Hands each event, in the order given, to the handler: every event is
    /// handled to its end before the next one is.
    pub fn process_events<H: EventHandler<R>>(&mut self, handler: &mut H, events: &Vec<Polled>)
        ensures
            events_handled(*old(handler), *old(self), events@, *final(handler), *final(self)),
    {
        let mut i: usize = 0;
        proof {
            assert(events@.take(0) =~= Seq::<Polled>::empty());
        }
        while i < events.len()
            invariant
                i <= events.len(),
                events_handled(*old(handler), *old(self), events@.take(i as int), *handler, *self),
            decreases events.len() - i,
        {
            let ghost mid = *handler;
            let ghost el_mid = *self;
            let event = events[i];
            handler.handle(self, event.token, event.kind);
            proof {
                let done = events@.take(i + 1);
                assert(done.last() == event);
                assert(done.drop_last() =~= events@.take(i as int));
                assert(events_handled(*old(handler), *old(self), done.drop_last(), mid, el_mid));
                assert(mid.handles(el_mid, done.last().token, done.last().kind, handler, *self));
                assert(events_handled(*old(handler), *old(self), done, *handler, *self));
            }
            i += 1;
        }
        proof {
            assert(events@.take(events@.len() as int) =~= events@);
        }
    }

    /// One iteration: takes the outcome of a poll without timeout and hands
    /// the events to the handler. An interrupted poll is absorbed and handles
    /// nothing; any other error is returned and nothing is handled.
    pub fn run_once<H: EventHandler<R>>(&mut self, handler: &mut H, polled: Result<Vec<Polled>, IoError>) -> (result: Result<(), IoError>)
        ensures
            result is Ok <==> absorbed(polled) is Ok,
            result matches Err(e) ==> absorbed(polled) == Err::<Seq<Polled>, IoError>(e) && *final(self) == *old(self)
                && *final(handler) == *old(handler),
            absorbed(polled) matches Ok(events) ==> events_handled(
                *old(handler),
                *old(self),
                events,
                *final(handler),
                *final(self),
            ),
    {
        match polled {
            Ok(events) => {
                self.process_events(handler, &events);
                Ok(())
            },
            Err(IoError::Interrupted) => Ok(()),
            Err(e) => Err(e),
        }
    }
}

} // verus!
