//! The live scheduled tasks, and the timing wheel that fires them.

use vstd::prelude::*;
use std::collections::HashMap;
use mio::timer::{Timeout, Timer};
use crate::api::{IoError, Task};
use crate::dispatcher::Scheduled;
use crate::ids::{Sequence, ID_LIMIT};
use crate::timer::{no_entries, timeout_key, timer_build, timer_cancel, timer_entries, timer_poll, timer_set, timer_slots, timer_tick_ms, EntryKey};

verus! {

/// Length of one tick of the wheel, in milliseconds.
pub const TICK_MS: u64 = 25;

/// Number of slots of the wheel: one cycle is 25.6 s.
pub const WHEEL_SLOTS: usize = 1024;

/// The most tasks that may be pending at one time.
pub const TIMER_CAPACITY: usize = 8192;

/// The timing wheel of the reactor: `mio`'s, built with a tick of 25 ms and
/// 1024 slots, and held so that no other wheel can take its place.
pub struct Wheel {
    timer: Timer<usize>,
}

impl Wheel {
    /// The tick of the wheel has a length.
    #[verifier::type_invariant]
    spec fn ticking(&self) -> bool {
        timer_tick_ms(self.timer) > 0
    }

    /// The pending entries: the handle that each carries, by the place it
    /// sits at.
    pub closed spec fn entries(&self) -> Map<EntryKey, usize> {
        timer_entries(self.timer)
    }

    /// The length of one tick, in milliseconds.
    pub closed spec fn tick_ms(&self) -> u64 {
        timer_tick_ms(self.timer)
    }

    /// The number of slots.
    pub closed spec fn slots(&self) -> usize {
        timer_slots(self.timer)
    }

    /// Whether `other` holds the same entries and was built alike.
    pub open spec fn agrees(&self, other: &Wheel) -> bool {
        &&& other.entries() == self.entries()
        &&& other.tick_ms() == self.tick_ms()
        &&& other.slots() == self.slots()
    }

    /// Whether `other` was built alike: with the same tick and slots.
    pub open spec fn built_as(&self, other: &Wheel) -> bool {
        &&& other.tick_ms() == self.tick_ms()
        &&& other.slots() == self.slots()
    }

    /// `mio`'s wheel, for the poller to register it.
    pub fn timer(&self) -> (timer: &Timer<usize>)
        ensures
            timer_entries(*timer) == self.entries(),
    {
        &self.timer
    }

    /// Adds an entry that carries `handle` and is due in `delay_ms`
    /// milliseconds, at a place that held none; returns the entry's handle
    /// in the wheel.
    pub(crate) fn set(&mut self, delay_ms: u64, handle: usize) -> (made: Option<Timeout>)
        ensures
            made is Some,
            made matches Some(h) ==> !old(self).entries().contains_key(timeout_key(h)),
            made matches Some(h) ==> final(self).entries() == old(self).entries().insert(timeout_key(h), handle),
            final(self).tick_ms() == old(self).tick_ms(),
            final(self).slots() == old(self).slots(),
    {
        proof {
            use_type_invariant(&*self);
        }
        timer_set(&mut self.timer, delay_ms, handle)
    }

    /// Removes the entry at the place of `made`, if the wheel holds one, and
    /// returns what it carried.
    pub(crate) fn cancel(&mut self, made: &Timeout) -> (handle: Option<usize>)
        ensures
            handle is Some <==> old(self).entries().contains_key(timeout_key(*made)),
            handle matches Some(h) ==> h == old(self).entries()[timeout_key(*made)],
            handle is Some ==> final(self).entries() == old(self).entries().remove(timeout_key(*made)),
            handle is None ==> final(self).entries() == old(self).entries(),
            final(self).tick_ms() == old(self).tick_ms(),
            final(self).slots() == old(self).slots(),
    {
        proof {
            use_type_invariant(&*self);
        }
        timer_cancel(&mut self.timer, made)
    }

    /// Asks the wheel for one entry that is due: it either gives one up and
    /// returns what it carried, or keeps all and returns `None`.
    pub(crate) fn poll(&mut self) -> (handle: Option<usize>)
        ensures
            handle is None ==> final(self).entries() == old(self).entries(),
            handle matches Some(id) ==> delivered(*old(self), *final(self), id),
            final(self).tick_ms() == old(self).tick_ms(),
            final(self).slots() == old(self).slots(),
    {
        proof {
            use_type_invariant(&*self);
        }
        let handle = timer_poll(&mut self.timer);
        proof {
            if let Some(id) = handle {
                let before = timer_entries(old(self).timer);
                let k = choose|k: EntryKey| #![trigger before.contains_key(k)]
                    before.contains_key(k) && before[k] == id && timer_entries(self.timer) == before.remove(k);
                assert(old(self).entries().contains_key(k));
            }
        }
        handle
    }
}

/// Builds the timing wheel of the reactor: without entries, with ticks of
/// `TICK_MS` milliseconds and `WHEEL_SLOTS` slots.
pub fn new_timer() -> (timer: Wheel)
    ensures
        timer.entries() == no_entries(),
        timer.tick_ms() == TICK_MS,
        timer.slots() == WHEEL_SLOTS,
{
    let timer = timer_build(TICK_MS, WHEEL_SLOTS, TIMER_CAPACITY);
    proof {
        let slots = timer_slots(timer);
        assert(slots == 1024) by (bit_vector)
            requires
                1024 <= slots < 2048,
                slots > 0 && slots & ((slots - 1) as usize) == 0,
        ;
    }
    Wheel { timer }
}

/// The record of every task that was scheduled and has neither fired nor been
/// cancelled, by its handle. The wheel carries the handle; the record holds
/// the task and the place of the wheel's entry.
pub struct Schedule {
    ids: Sequence,
    items: HashMap<usize, (Task, Timeout)>,
}

impl Schedule {
    #[verifier::type_invariant]
    spec fn inv(&self) -> bool {
        forall|id: usize| self.items@.contains_key(id) ==> id < self.ids.peek()
    }

    /// The live tasks, by handle.
    pub closed spec fn tasks(&self) -> Map<usize, Task> {
        self.items@.map_values(|item: (Task, Timeout)| item.0)
    }

    /// The place in the wheel of the entry that was made for a live handle.
    pub closed spec fn place(&self, id: usize) -> EntryKey {
        timeout_key(self.items@[id].1)
    }

    /// The handle that the next scheduled task gets.
    pub closed spec fn next_handle(&self) -> usize {
        self.ids.peek()
    }

    /// A schedule without tasks, which draws its handles from `ids`. It
    /// tracks every wheel that holds no entry.
    pub fn new(ids: Sequence) -> (schedule: Schedule)
        ensures
            schedule.tasks() == Map::<usize, Task>::empty(),
            schedule.next_handle() == ids.peek(),
    {
        let schedule = Schedule { ids, items: HashMap::new() };
        assert(schedule.tasks() =~= Map::<usize, Task>::empty());
        schedule
    }

    /// The wheel holds one entry for each live task, which carries the task's
    /// handle, and no entry besides.
    pub open spec fn tracks(&self, timer: Wheel) -> bool {
        let entries = timer.entries();
        &&& forall|id: usize| #[trigger]
            self.tasks().contains_key(id) ==> entries.contains_key(self.place(id))
                && entries[self.place(id)] == id
        &&& forall|k: EntryKey| #[trigger]
            entries.contains_key(k) ==> self.tasks().contains_key(entries[k]) && self.place(
                entries[k],
            ) == k
    }

    /// How `schedule` of `task` relates the schedule and the wheel before
    /// (`self`, `timer`) to both after and to its result.
    pub open spec fn scheduled(&self, timer: Wheel, after: Self, timer_after: Wheel, task: Task, result: Result<Scheduled, IoError>) -> bool {
        &&& timer.built_as(&timer_after)
        &&& result is Ok <==> self.tasks().len() < TIMER_CAPACITY && !self.handles_exhausted()
        &&& result matches Ok(s) ==> {
            &&& s.0 == self.next_handle()
            &&& after.next_handle() == s.0 + 1
            &&& !self.tasks().contains_key(s.0)
            &&& after.tasks() == self.tasks().insert(s.0, task)
            &&& forall|id: usize| self.tasks().contains_key(id) ==> after.place(id) == self.place(id)
            &&& !timer.entries().contains_key(after.place(s.0))
            &&& timer_after.entries() == timer.entries().insert(after.place(s.0), s.0)
        }
        &&& result matches Err(e) ==> {
            &&& e == (if self.tasks().len() >= TIMER_CAPACITY {
                IoError::TimerOverflow
            } else {
                IoError::Exhausted
            })
            &&& after.tasks() == self.tasks()
            &&& after.next_handle() == self.next_handle()
            &&& forall|id: usize| self.tasks().contains_key(id) ==> after.place(id) == self.place(id)
            &&& timer_after.entries() == timer.entries()
        }
    }

    /// How `cancel` of `scheduled` relates the schedule and the wheel before
    /// (`self`, `timer`) to both after.
    pub open spec fn cancelled(&self, timer: Wheel, after: Self, timer_after: Wheel, scheduled: Scheduled) -> bool {
        &&& timer.built_as(&timer_after)
        &&& after.tasks() == self.tasks().remove(scheduled.0)
        &&& after.next_handle() == self.next_handle()
        &&& forall|id: usize| after.tasks().contains_key(id) ==> after.place(id) == self.place(id)
        &&& timer_after.entries() == (if self.tasks().contains_key(scheduled.0) {
            timer.entries().remove(self.place(scheduled.0))
        } else {
            timer.entries()
        })
    }

    /// Whether `other` holds the same tasks at the same places, and gives
    /// the same handle next.
    pub open spec fn agrees(&self, other: &Schedule) -> bool {
        &&& other.tasks() == self.tasks()
        &&& other.next_handle() == self.next_handle()
        &&& forall|id: usize| self.tasks().contains_key(id) ==> other.place(id) == self.place(id)
    }

    /// Number of live tasks.
    pub fn len(&self) -> (n: usize)
        ensures
            n == self.tasks().len(),
    {
        broadcast use vstd::std_specs::hash::group_hash_axioms;
        assert(self.tasks().dom() =~= self.items@.dom());
        self.items.len()
    }
}

/// What one poll of the wheel brought.
#[derive(Debug, PartialEq, Eq)]
pub enum Expired {
    /// Nothing is due: the wheel and the records are as they were.
    Idle,
    /// A live task fired; its record is gone.
    Fired(Scheduled, Task),
    /// The wheel delivered a handle that has no record.
    Stale(Scheduled),
}

impl Schedule {
    /// Enqueues `task` to fire after `delay_ms` milliseconds and returns its
    /// handle, which is greater than every handle returned before. Fails with
    /// `TimerOverflow` when `TIMER_CAPACITY` tasks are pending, and with
    /// `Exhausted` when no handle is left; nothing has changed then.
    pub fn schedule(&mut self, timer: &mut Wheel, task: Task, delay_ms: u64) -> (result: Result<Scheduled, IoError>)
        ensures
            old(self).scheduled(*old(timer), *final(self), *final(timer), task, result),
            old(self).tracks(*old(timer)) ==> final(self).tracks(*final(timer)),
    {
        broadcast use vstd::std_specs::hash::group_hash_axioms;
        proof {
            use_type_invariant(&*self);
        }
        if self.len() >= TIMER_CAPACITY {
            return Err(IoError::TimerOverflow);
        }
        let id = match self.ids.next() {
            Some(id) => id,
            None => {
                return Err(IoError::Exhausted);
            },
        };
        match timer.set(delay_ms, id) {
            Some(handle) => {
                let mut items = HashMap::new();
                std::mem::swap(&mut items, &mut self.items);
                items.insert(id, (task, handle));
                self.items = items;
                proof {
                    assert(final(self).tasks() =~= old(self).tasks().insert(id, task));
                    assert(!old(self).tasks().contains_key(id));
                }
                Ok(Scheduled(id))
            },
            None => Err(IoError::TimerOverflow),
        }
    }

    /// Withdraws a task. Where the handle is not live, because the task has
    /// fired, was cancelled before or never existed, nothing changes.
    pub fn cancel(&mut self, timer: &mut Wheel, scheduled: Scheduled)
        ensures
            old(self).cancelled(*old(timer), *final(self), *final(timer), scheduled),
            old(self).tracks(*old(timer)) ==> final(self).tracks(*final(timer)),
    {
        broadcast use vstd::std_specs::hash::group_hash_axioms;
        proof {
            use_type_invariant(&*self);
        }
        let mut items = HashMap::new();
        std::mem::swap(&mut items, &mut self.items);
        let found = items.remove(&scheduled.0);
        self.items = items;
        match found {
            Some(item) => {
                let _ = timer.cancel(&item.1);
                proof {
                    assert(final(self).tasks() =~= old(self).tasks().remove(scheduled.0));
                    assert(final(timer).entries() =~= old(timer).entries().remove(old(self).place(scheduled.0)));
                }
            },
            None => {
                proof {
                    assert(final(self).tasks() =~= old(self).tasks().remove(scheduled.0));
                }
            },
        }
    }

    /// What becomes of one answer of the wheel: `None` leaves all as it is;
    /// a handle with a record is a task that fired, whose record is dropped;
    /// a handle without a record is stale.
    pub fn resolve(&mut self, polled: Option<usize>) -> (expired: Expired)
        ensures
            expired == (match polled {
                None => Expired::Idle,
                Some(id) => if old(self).tasks().contains_key(id) {
                    Expired::Fired(Scheduled(id), old(self).tasks()[id])
                } else {
                    Expired::Stale(Scheduled(id))
                },
            }),
            final(self).tasks() == (match polled {
                None => old(self).tasks(),
                Some(id) => old(self).tasks().remove(id),
            }),
            final(self).next_handle() == old(self).next_handle(),
            forall|id: usize| final(self).tasks().contains_key(id) ==> final(self).place(id) == old(self).place(id),
    {
        broadcast use vstd::std_specs::hash::group_hash_axioms;
        proof {
            use_type_invariant(&*self);
        }
        match polled {
            None => Expired::Idle,
            Some(id) => {
                let mut items = HashMap::new();
                std::mem::swap(&mut items, &mut self.items);
                let found = items.remove(&id);
                self.items = items;
                proof {
                    assert(final(self).tasks() =~= old(self).tasks().remove(id));
                }
                match found {
                    Some(item) => Expired::Fired(Scheduled(id), item.0),
                    None => Expired::Stale(Scheduled(id)),
                }
            },
        }
    }

    /// Asks the wheel for one task that is due, and drops its record: what
    /// the wheel answers is resolved as `resolve` says. Whether the wheel
    /// hands a task out is the wheel's to say.
    pub fn poll(&mut self, timer: &mut Wheel) -> (expired: Expired)
        ensures
            old(timer).built_as(final(timer)),
            final(self).next_handle() == old(self).next_handle(),
            forall|id: usize| final(self).tasks().contains_key(id) ==> final(self).place(id) == old(self).place(id),
            expired is Idle ==> final(self).tasks() == old(self).tasks()
                && final(timer).entries() == old(timer).entries(),
            expired matches Expired::Fired(s, task) ==> {
                &&& old(self).tasks().contains_key(s.0)
                &&& old(self).tasks()[s.0] == task
                &&& final(self).tasks() == old(self).tasks().remove(s.0)
            },
            expired matches Expired::Stale(s) ==> {
                &&& !old(self).tasks().contains_key(s.0)
                &&& final(self).tasks() == old(self).tasks()
            },
            expired matches Expired::Fired(s, _) ==> delivered(*old(timer), *final(timer), s.0),
            expired matches Expired::Stale(s) ==> delivered(*old(timer), *final(timer), s.0),
            old(self).tracks(*old(timer)) ==> final(self).tracks(*final(timer)) && expired !is Stale,
    {
        let polled = timer.poll();
        let expired = self.resolve(polled);
        proof {
            if let Some(id) = polled {
                if !old(self).tasks().contains_key(id) {
                    assert(final(self).tasks() =~= old(self).tasks());
                }
            }
        }
        expired
    }

    /// How `expire` within `budget` polls relates the schedule and the wheel
    /// before (`self`, `timer`) to both after, to the batch and to the flag:
    /// the batch holds live tasks with their handles, latest handle first,
    /// and exactly their records are gone.
    pub open spec fn expired(&self, timer: Wheel, after: &Self, timer_after: Wheel, batch: Seq<Due>, drained: bool, budget: usize) -> bool {
        &&& timer.built_as(&timer_after)
        &&& falling(batch)
        &&& batch.len() <= budget
        &&& forall|i: int| 0 <= i < batch.len() ==> self.tasks().contains_key((#[trigger] batch[i]).handle.0)
            && self.tasks()[batch[i].handle.0] == batch[i].task
        &&& after.tasks() == self.tasks().remove_keys(handles_of(batch))
        &&& after.next_handle() == self.next_handle()
        &&& forall|id: usize| after.tasks().contains_key(id) ==> after.place(id) == self.place(id)
        &&& budget == 0 ==> !drained && timer_after.entries() == timer.entries()
        &&& self.tracks(timer) ==> after.tracks(timer_after)
        &&& self.tracks(timer) && !drained ==> batch.len() == budget
    }

    /// Collects the tasks that are due, within `budget` polls of the wheel,
    /// and drops their records. The batch holds the latest handle first, so
    /// that `pop` hands the tasks out in the order in which they were
    /// scheduled, whatever order the wheel gave them in. The flag tells
    /// whether the wheel was seen with nothing due.
    pub fn expire(&mut self, timer: &mut Wheel, budget: usize) -> (result: (Vec<Due>, bool))
        ensures
            old(self).expired(*old(timer), final(self), *final(timer), result.0@, result.1, budget),
    {
        let mut batch: Vec<Due> = Vec::new();
        let mut left = budget;
        let mut drained = false;
        proof {
            assert(handles_of(batch@) =~= Set::<usize>::empty());
            assert(self.tasks() =~= old(self).tasks().remove_keys(handles_of(batch@)));
        }
        while left > 0 && !drained
            invariant
                left <= budget,
                batch@.len() <= budget - left,
                falling(batch@),
                forall|i: int| 0 <= i < batch@.len() ==> old(self).tasks().contains_key((#[trigger] batch@[i]).handle.0)
                    && old(self).tasks()[batch@[i].handle.0] == batch@[i].task,
                self.tasks() == old(self).tasks().remove_keys(handles_of(batch@)),
                self.next_handle() == old(self).next_handle(),
                forall|id: usize| self.tasks().contains_key(id) ==> self.place(id) == old(self).place(id),
                old(self).tracks(*old(timer)) ==> self.tracks(*timer),
                old(self).tracks(*old(timer)) && !drained ==> batch@.len() == budget - left,
                left == budget ==> !drained && timer.entries() == old(timer).entries(),
                old(timer).built_as(timer),
            decreases left,
        {
            let ghost before = batch@;
            let ghost tasks_before = self.tasks();
            match self.poll(timer) {
                Expired::Idle => {
                    drained = true;
                },
                Expired::Fired(handle, task) => {
                    proof {
                        assert(!handles_of(before).contains(handle.0));
                    }
                    insert_falling(&mut batch, Due { handle, task });
                    proof {
                        assert(tasks_before.remove(handle.0) =~= old(self).tasks().remove_keys(handles_of(batch@)));
                        let at = choose|at: int| 0 <= at <= before.len() && batch@ == before.insert(at, Due { handle, task });
                        assert forall|i: int| 0 <= i < batch@.len() implies old(self).tasks().contains_key((#[trigger] batch@[i]).handle.0)
                            && old(self).tasks()[batch@[i].handle.0] == batch@[i].task by {
                            if i < at {
                                assert(batch@[i] == before[i]);
                            } else if i > at {
                                assert(batch@[i] == before[i - 1]);
                            }
                        }
                    }
                },
                Expired::Stale(_) => {},
            }
            left -= 1;
        }
        (batch, drained)
    }

    /// No handle is left to give to a new task.
    pub open spec fn handles_exhausted(&self) -> bool {
        self.next_handle() >= ID_LIMIT
    }
}

/// A task that fired, with the handle that it was scheduled under.
#[derive(Clone, Debug, PartialEq, Eq)]
pub struct Due {
    pub handle: Scheduled,
    pub task: Task,
}

/// Whether the handles of `batch` fall strictly from front to back.
pub open spec fn falling(batch: Seq<Due>) -> bool {
    forall|i: int, j: int| 0 <= i < j < batch.len() ==> batch[i].handle.0 > batch[j].handle.0
}

/// The handles that occur in `batch`.
pub open spec fn handles_of(batch: Seq<Due>) -> Set<usize> {
    Set::new(|id: usize| exists|i: int| 0 <= i < batch.len() && #[trigger] batch[i].handle.0 == id)
}

/// Puts `due` into a batch whose handles fall from front to back, at the
/// place that keeps them falling. The wheel hands the tasks of one tick out
/// latest first, so the place is mostly the back.
fn insert_falling(batch: &mut Vec<Due>, due: Due)
    requires
        falling(old(batch)@),
        !handles_of(old(batch)@).contains(due.handle.0),
    ensures
        falling(final(batch)@),
        final(batch)@.len() == old(batch)@.len() + 1,
        handles_of(final(batch)@) == handles_of(old(batch)@).insert(due.handle.0),
        exists|at: int| 0 <= at <= old(batch)@.len() && final(batch)@ == old(batch)@.insert(at, due),
{
    let mut at: usize = batch.len();
    while at > 0 && batch[at - 1].handle.0 < due.handle.0
        invariant
            at <= batch@.len(),
            batch@ == old(batch)@,
            forall|j: int| at <= j < batch@.len() ==> batch@[j].handle.0 < due.handle.0,
        decreases at,
    {
        at -= 1;
    }
    let ghost id = due.handle.0;
    proof {
        if at > 0 {
            assert(handles_of(batch@).contains(batch@[at - 1].handle.0));
        }
        assert forall|i: int| 0 <= i < at implies (#[trigger] batch@[i]).handle.0 > id by {
            assert(handles_of(batch@).contains(batch@[i].handle.0));
            if i < at - 1 {
                assert(batch@[i].handle.0 > batch@[at - 1].handle.0);
            }
        }
    }
    batch.insert(at, due);
    proof {
        let before = old(batch)@;
        let after = batch@;
        assert(after == before.insert(at as int, due));
        assert forall|i: int, j: int| 0 <= i < j < after.len() implies after[i].handle.0 > after[j].handle.0 by {
            if j < at {
                assert(after[i] == before[i] && after[j] == before[j]);
            } else if j == at {
                assert(after[i] == before[i]);
            } else if i < at {
                assert(after[i] == before[i] && after[j] == before[j - 1]);
            } else if i == at {
                assert(after[j] == before[j - 1]);
            } else {
                assert(after[i] == before[i - 1] && after[j] == before[j - 1]);
            }
        }
        assert forall|h: usize| handles_of(after).contains(h) <==> handles_of(before).insert(id).contains(h) by {
            if handles_of(after).contains(h) {
                let i = choose|i: int| 0 <= i < after.len() && #[trigger] after[i].handle.0 == h;
                if i < at {
                    assert(before[i].handle.0 == h);
                } else if i > at {
                    assert(before[i - 1].handle.0 == h);
                }
            }
            if handles_of(before).contains(h) {
                let i = choose|i: int| 0 <= i < before.len() && #[trigger] before[i].handle.0 == h;
                if i < at {
                    assert(after[i].handle.0 == h);
                } else {
                    assert(after[i + 1].handle.0 == h);
                }
            }
            if h == id {
                assert(after[at as int].handle.0 == h);
            }
        }
        assert(handles_of(after) =~= handles_of(before).insert(id));
    }
}

/// Scheduled monotonicity: of two tasks scheduled one after the other, with
/// anything in between that does not take handles back, the later one has
/// the greater handle.
pub proof fn lemma_handles_increase(
    before: Schedule,
    timer_before: Wheel,
    between: Schedule,
    timer_between: Wheel,
    first_task: Task,
    first: Scheduled,
    later: Schedule,
    timer_later: Wheel,
    after: Schedule,
    timer_after: Wheel,
    second_task: Task,
    second: Scheduled,
)
    requires
        before.scheduled(timer_before, between, timer_between, first_task, Ok(first)),
        between.next_handle() <= later.next_handle(),
        later.scheduled(timer_later, after, timer_after, second_task, Ok(second)),
    ensures
        first.0 < second.0,
        first.0 < after.next_handle(),
{
}

/// Cancelling is idempotent: a second cancel of the same handle changes
/// neither the schedule nor the wheel.
pub proof fn lemma_cancel_twice(
    before: Schedule,
    timer_before: Wheel,
    once: Schedule,
    timer_once: Wheel,
    twice: Schedule,
    timer_twice: Wheel,
    scheduled: Scheduled,
)
    requires
        before.cancelled(timer_before, once, timer_once, scheduled),
        once.cancelled(timer_once, twice, timer_twice, scheduled),
    ensures
        once.agrees(&twice),
        timer_twice.entries() == timer_once.entries(),
{
    assert(once.tasks().remove(scheduled.0) =~= once.tasks());
}

/// The wheel gave up one entry that carried `id`, and no other.
pub open spec fn delivered(before: Wheel, after: Wheel, id: usize) -> bool {
    exists|k: EntryKey|
        #![trigger before.entries().contains_key(k)]
        before.entries().contains_key(k) && before.entries()[k] == id && after.entries() == before.entries().remove(k)
}

} // verus!
