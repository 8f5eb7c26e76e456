//! The hashed timing wheel, which is `mio`'s, and what this library relies on
//! of it. Nothing in this file is proved: each contract restates what the
//! wheel's source shows.

use vstd::prelude::*;
use mio::timer::{Builder, Timeout, Timer};
use std::time::Duration;

verus! {

#[verifier::external_type_specification]
#[verifier::external_body]
#[verifier::reject_recursive_types(T)]
pub struct ExTimer<T>(Timer<T>);

#[verifier::external_type_specification]
#[verifier::external_body]
pub struct ExTimeout(Timeout);

/// Where an entry sits in the wheel: its slot in the wheel's slab and the tick
/// that it is due at.
pub type EntryKey = (usize, u64);

/// The pending entries of a wheel: the payload of each, by the place it sits at.
pub uninterp spec fn timer_entries(timer: Timer<usize>) -> Map<EntryKey, usize>;

/// The place of the entry that a handle was returned for.
pub uninterp spec fn timeout_key(handle: Timeout) -> EntryKey;

/// The length of one tick of a wheel, in milliseconds, as it was built.
pub uninterp spec fn timer_tick_ms(timer: Timer<usize>) -> u64;

/// The number of slots of a wheel, as it was built.
pub uninterp spec fn timer_slots(timer: Timer<usize>) -> usize;

/// Whether `n` is a power of two.
pub open spec fn is_power_of_two(n: usize) -> bool {
    n > 0 && n & ((n - 1) as usize) == 0
}

/// A wheel without entries.
pub open spec fn no_entries() -> Map<EntryKey, usize> {
    Map::empty()
}

/// The most slots, and the most preallocated entries, that a wheel is built with.
pub const MAX_WHEEL_SIZE: usize = 65536;

/// `Builder::default()`, its three setters and `Builder::build`: a wheel with
/// the given tick length, which holds no entry yet. `build` rounds the number
/// of slots up to the next power of two: the least one that is not below
/// `slots`. It rounds the capacity up likewise and allocates that many
/// entries ahead, which the wheel does not hold as a limit. (A tick of zero
/// length would later divide by zero.)
#[verifier::external_body]
#[allow(deprecated)]
pub(crate) fn timer_build(tick_ms: u64, slots: usize, capacity: usize) -> (timer: Timer<usize>)
    requires
        tick_ms > 0,
        slots <= MAX_WHEEL_SIZE,
        capacity <= MAX_WHEEL_SIZE,
    ensures
        timer_entries(timer) == no_entries(),
        timer_tick_ms(timer) == tick_ms,
        timer_slots(timer) >= slots,
        is_power_of_two(timer_slots(timer)),
        slots > 0 ==> timer_slots(timer) < 2 * slots,
{
    Builder::default()
        .tick_duration(Duration::from_millis(tick_ms))
        .num_slots(slots)
        .capacity(capacity)
        .build()
}

/// `Timer::set_timeout`, on a wheel whose tick has a length: adds one entry that carries `state` and is due
/// `delay_ms` milliseconds from now, at a place that held no entry, and
/// returns the handle of that place. In this version of the wheel the call
/// always succeeds: its error type is never constructed.
#[verifier::external_body]
#[allow(deprecated)]
pub(crate) fn timer_set(timer: &mut Timer<usize>, delay_ms: u64, state: usize) -> (handle: Option<Timeout>)
    requires
        timer_tick_ms(*old(timer)) > 0,
    ensures
        timer_tick_ms(*final(timer)) == timer_tick_ms(*old(timer)),
        timer_slots(*final(timer)) == timer_slots(*old(timer)),
        handle is Some,
        handle matches Some(h) ==> !timer_entries(*old(timer)).contains_key(timeout_key(h)),
        handle matches Some(h) ==> timer_entries(*final(timer)) == timer_entries(*old(timer)).insert(timeout_key(h), state),
    no_unwind
{
    timer.set_timeout(Duration::from_millis(delay_ms), state).ok()
}

/// `Timer::cancel_timeout`: where the wheel still holds an entry at the
/// handle's place, removes it and returns its payload; otherwise changes
/// nothing and returns `None`.
#[verifier::external_body]
#[allow(deprecated)]
pub(crate) fn timer_cancel(timer: &mut Timer<usize>, handle: &Timeout) -> (state: Option<usize>)
    ensures
        timer_tick_ms(*final(timer)) == timer_tick_ms(*old(timer)),
        timer_slots(*final(timer)) == timer_slots(*old(timer)),
        state is Some <==> timer_entries(*old(timer)).contains_key(timeout_key(*handle)),
        state matches Some(s) ==> s == timer_entries(*old(timer))[timeout_key(*handle)],
        state is Some ==> timer_entries(*final(timer)) == timer_entries(*old(timer)).remove(timeout_key(*handle)),
        state is None ==> timer_entries(*final(timer)) == timer_entries(*old(timer)),
    no_unwind
{
    timer.cancel_timeout(handle)
}

/// `Timer::poll`, on a wheel whose tick has a length: either removes one entry and returns its payload, or changes
/// no entry and returns `None`. Which of the two, and which entry, depends on
/// the clock and on how far earlier polls have moved the wheel on.
#[verifier::external_body]
#[allow(deprecated)]
pub(crate) fn timer_poll(timer: &mut Timer<usize>) -> (state: Option<usize>)
    requires
        timer_tick_ms(*old(timer)) > 0,
    ensures
        timer_tick_ms(*final(timer)) == timer_tick_ms(*old(timer)),
        timer_slots(*final(timer)) == timer_slots(*old(timer)),
        state is None ==> timer_entries(*final(timer)) == timer_entries(*old(timer)),
        state matches Some(s) ==> exists|k: EntryKey|
            #![trigger timer_entries(*old(timer)).contains_key(k)]
            timer_entries(*old(timer)).contains_key(k) && timer_entries(*old(timer))[k] == s
                && timer_entries(*final(timer)) == timer_entries(*old(timer)).remove(k),
    no_unwind
{
    timer.poll()
}

} // verus!
