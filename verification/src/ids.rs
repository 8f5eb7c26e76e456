//! Identifiers, poller tokens and the monotonic sequence they are drawn from.

use vstd::prelude::*;

verus! {

/// Identifies a socket owned by the session.
#[derive(Clone, Copy, Debug, PartialEq, Eq, Structural, Hash)]
pub struct SocketId(pub usize);

/// Identifies a device owned by the session.
#[derive(Clone, Copy, Debug, PartialEq, Eq, Structural, Hash)]
pub struct DeviceId(pub usize);

/// Identifies a pipe or an acceptor; it is also the endpoint's poller token.
#[derive(Clone, Copy, Debug, PartialEq, Eq, Structural, Hash)]
pub struct EndpointId(pub usize);

/// An opaque integer naming a readiness source to the poller.
#[derive(Clone, Copy, Debug, PartialEq, Eq, Structural, Hash)]
pub struct Token(pub usize);

/// Readiness bits reported by the poller, carried through to endpoints.
#[derive(Clone, Copy, Debug, PartialEq, Eq, Structural, Hash)]
pub struct Ready(pub usize);

/// Token value of the request channel.
pub const CHANNEL_TOKEN: usize = usize::MAX - 1;

/// Token value of the signal bus.
pub const BUS_TOKEN: usize = usize::MAX - 2;

/// Token value of the timer.
pub const TIMER_TOKEN: usize = usize::MAX - 3;

/// The smallest reserved token value: every identifier lies strictly below it.
pub const ID_LIMIT: usize = usize::MAX - 3;

/// Whether `value` is one of the three token values kept for the reactor's own sources.
pub open spec fn is_reserved(value: usize) -> bool {
    value == CHANNEL_TOKEN || value == BUS_TOKEN || value == TIMER_TOKEN
}

impl Ready {
    /// The readiness that reports readable data.
    pub fn readable() -> (r: Ready)
        ensures
            r == Ready(1),
    {
        Ready(1)
    }

    /// The readiness that reports room for writing.
    pub fn writable() -> (r: Ready)
        ensures
            r == Ready(2),
    {
        Ready(2)
    }
}

impl Token {
    /// The token of the request channel.
    pub fn channel() -> (t: Token)
        ensures
            t.0 == CHANNEL_TOKEN,
    {
        Token(CHANNEL_TOKEN)
    }

    /// The token of the signal bus.
    pub fn bus() -> (t: Token)
        ensures
            t.0 == BUS_TOKEN,
    {
        Token(BUS_TOKEN)
    }

    /// The token of the timer.
    pub fn timer() -> (t: Token)
        ensures
            t.0 == TIMER_TOKEN,
    {
        Token(TIMER_TOKEN)
    }
}

impl EndpointId {
    /// The poller token under which this endpoint's source is registered.
    pub fn token(self) -> (t: Token)
        ensures
            t.0 == self.0,
    {
        Token(self.0)
    }
}

/// A monotonic source of identifiers. It starts at 1, never hands a value out
/// twice and never reaches a reserved token.
pub struct Sequence {
    value: usize,
}

impl Sequence {
    /// The identifier that the next successful call of `next` returns.
    pub closed spec fn peek(&self) -> usize {
        self.value
    }

    /// No identifier is left below the reserved tokens.
    pub open spec fn exhausted(&self) -> bool {
        self.peek() >= ID_LIMIT
    }

    /// The sequence never points beyond the first reserved token.
    #[verifier::type_invariant]
    pub open spec fn wf(&self) -> bool {
        self.peek() <= ID_LIMIT
    }

    /// A sequence whose first identifier is 1.
    pub fn new() -> (seq: Sequence)
        ensures
            seq.peek() == 1,
    {
        Sequence { value: 1 }
    }

    /// A sequence whose first identifier is `first`; one that is exhausted
    /// from the start where `first` is not below the reserved tokens.
    pub fn starting_at(first: usize) -> (seq: Sequence)
        ensures
            seq.peek() == (if first <= ID_LIMIT { first } else { ID_LIMIT }),
    {
        if first <= ID_LIMIT {
            Sequence { value: first }
        } else {
            Sequence { value: ID_LIMIT }
        }
    }

    /// The identifier that `next` would hand out, without taking it.
    pub fn peek_next(&self) -> (id: Option<usize>)
        ensures
            id is Some <==> !self.exhausted(),
            id matches Some(v) ==> v == self.peek(),
    {
        if self.value < ID_LIMIT {
            Some(self.value)
        } else {
            None
        }
    }

    /// Hands out the next identifier, or `None` once only reserved values are left.
    pub fn next(&mut self) -> (id: Option<usize>)
        ensures
            id is Some <==> !old(self).exhausted(),
            id matches Some(v) ==> v == old(self).peek() && !is_reserved(v) && v < ID_LIMIT
                && final(self).peek() == v + 1,
            id is None ==> final(self).peek() == old(self).peek(),
        no_unwind
    {
        if self.value < ID_LIMIT {
            let v = self.value;
            *self = Sequence { value: v + 1 };
            Some(v)
        } else {
            None
        }
    }
}

} // verus!
