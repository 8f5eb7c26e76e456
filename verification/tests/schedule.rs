//! The schedule against the real timing wheel.

use std::time::{Duration, Instant};

use reactors::api::{IoError, Task};
use reactors::dispatcher::{Schedulable, Scheduled};
use reactors::ids::{Sequence, SocketId, ID_LIMIT};
use reactors::schedule::{new_timer, Due, Expired, Schedule, TICK_MS, TIMER_CAPACITY, WHEEL_SLOTS};

fn wait(time: Duration) {
    let start = Instant::now();
    while start.elapsed() < time {
        std::hint::spin_loop();
    }
}

fn task(sid: usize, schedulable: Schedulable) -> Task {
    Task::Socket(SocketId(sid), schedulable)
}

#[test]
fn wheel_constants() {
    assert_eq!(TICK_MS, 25);
    assert_eq!(WHEEL_SLOTS, 1024);
    assert_eq!(TIMER_CAPACITY, 8192);
    assert_eq!(TICK_MS * WHEEL_SLOTS as u64, 25_600);
}

#[test]
fn cancel_survives() {
    let mut timer = new_timer();
    let mut schedule = Schedule::new(Sequence::new());
    let first = schedule.schedule(&mut timer, task(1, Schedulable::SendTimeout), 40).unwrap();
    let second = schedule.schedule(&mut timer, task(1, Schedulable::RecvTimeout), 40).unwrap();
    assert_eq!((first, second), (Scheduled(1), Scheduled(2)));
    schedule.cancel(&mut timer, first);
    assert_eq!(schedule.len(), 1);

    wait(Duration::from_millis(80));
    let (batch, drained) = schedule.expire(&mut timer, 100);
    assert!(drained);
    assert_eq!(batch, vec![Due { handle: second, task: task(1, Schedulable::RecvTimeout) }]);
    assert_eq!(schedule.len(), 0);

    wait(Duration::from_millis(60));
    let (batch, drained) = schedule.expire(&mut timer, 100);
    assert!(drained);
    assert!(batch.is_empty());
}

#[test]
fn cancel_is_idempotent_and_ignores_fired_tasks() {
    let mut timer = new_timer();
    let mut schedule = Schedule::new(Sequence::new());
    let a = schedule.schedule(&mut timer, task(1, Schedulable::ReqResend), 10).unwrap();
    let b = schedule.schedule(&mut timer, task(2, Schedulable::SurveyCancel), 10_000).unwrap();
    schedule.cancel(&mut timer, Scheduled(77));
    assert_eq!(schedule.len(), 2);

    wait(Duration::from_millis(50));
    let (batch, _) = schedule.expire(&mut timer, 100);
    assert_eq!(batch.len(), 1);
    assert_eq!(batch[0].handle, a);
    // the task has fired: cancelling it changes nothing, however often
    schedule.cancel(&mut timer, a);
    schedule.cancel(&mut timer, a);
    assert_eq!(schedule.len(), 1);

    schedule.cancel(&mut timer, b);
    schedule.cancel(&mut timer, b);
    assert_eq!(schedule.len(), 0);
    wait(Duration::from_millis(30));
    assert_eq!(schedule.poll(&mut timer), Expired::Idle);
}

#[test]
fn tasks_of_one_tick_fire_in_the_order_scheduled() {
    let mut timer = new_timer();
    let mut schedule = Schedule::new(Sequence::new());
    let mut handles = Vec::new();
    for i in 0..6 {
        handles.push(schedule.schedule(&mut timer, task(i, Schedulable::SendTimeout), 30).unwrap());
    }
    for pair in handles.windows(2) {
        assert!(pair[0].0 < pair[1].0);
    }
    wait(Duration::from_millis(70));
    let (mut batch, drained) = schedule.expire(&mut timer, 100);
    assert!(drained);
    let mut fired = Vec::new();
    while let Some(due) = batch.pop() {
        fired.push(due);
    }
    let expected: Vec<Due> = (0..6)
        .map(|i| Due { handle: handles[i], task: task(i, Schedulable::SendTimeout) })
        .collect();
    assert_eq!(fired, expected);
}

#[test]
fn single_polls_hand_out_what_is_due() {
    let mut timer = new_timer();
    let mut schedule = Schedule::new(Sequence::new());
    let handle = schedule.schedule(&mut timer, task(3, Schedulable::RecvTimeout), 20).unwrap();
    wait(Duration::from_millis(60));
    let mut fired = Vec::new();
    for _ in 0..10 {
        match schedule.poll(&mut timer) {
            Expired::Fired(h, t) => fired.push((h, t)),
            Expired::Idle => {}
            Expired::Stale(h) => panic!("stale {:?}", h),
        }
    }
    assert_eq!(fired, vec![(handle, task(3, Schedulable::RecvTimeout))]);
    assert_eq!(schedule.len(), 0);
}

#[test]
fn expire_within_budget() {
    let mut timer = new_timer();
    let mut schedule = Schedule::new(Sequence::new());
    for i in 0..5 {
        schedule.schedule(&mut timer, task(i, Schedulable::SendTimeout), 20).unwrap();
    }
    let (batch, drained) = schedule.expire(&mut timer, 0);
    assert!(batch.is_empty());
    assert!(!drained);
    wait(Duration::from_millis(60));
    let mut total = 0;
    let mut rounds = 0;
    loop {
        let (batch, drained) = schedule.expire(&mut timer, 2);
        assert!(batch.len() <= 2);
        for pair in batch.windows(2) {
            assert!(pair[0].handle.0 > pair[1].handle.0);
        }
        total += batch.len();
        rounds += 1;
        if drained {
            break;
        }
        assert!(rounds < 100);
    }
    assert_eq!(total, 5);
    assert_eq!(schedule.len(), 0);
}

#[test]
fn schedule_overflows_at_capacity() {
    let mut timer = new_timer();
    let mut schedule = Schedule::new(Sequence::new());
    for i in 0..TIMER_CAPACITY {
        let handle = schedule.schedule(&mut timer, task(1, Schedulable::SendTimeout), 60_000).unwrap();
        assert_eq!(handle, Scheduled(i + 1));
    }
    assert_eq!(schedule.len(), TIMER_CAPACITY);
    assert_eq!(
        schedule.schedule(&mut timer, task(1, Schedulable::SendTimeout), 60_000),
        Err(IoError::TimerOverflow)
    );
    assert_eq!(schedule.len(), TIMER_CAPACITY);

    schedule.cancel(&mut timer, Scheduled(17));
    let handle = schedule.schedule(&mut timer, task(1, Schedulable::SendTimeout), 60_000).unwrap();
    assert_eq!(handle, Scheduled(TIMER_CAPACITY + 1));
    assert_eq!(
        schedule.schedule(&mut timer, task(1, Schedulable::SendTimeout), 60_000),
        Err(IoError::TimerOverflow)
    );
}

#[test]
fn scheduled_converts_to_and_from_integers() {
    let scheduled = Scheduled::from(9usize);
    assert_eq!(scheduled, Scheduled(9));
    let value: usize = scheduled.into();
    assert_eq!(value, 9);
    let value: usize = (&scheduled).into();
    assert_eq!(value, 9);
}

#[test]
fn schedule_runs_out_of_handles() {
    let mut timer = new_timer();
    let mut schedule = Schedule::new(Sequence::starting_at(ID_LIMIT - 1));
    assert_eq!(
        schedule.schedule(&mut timer, task(1, Schedulable::SendTimeout), 1_000),
        Ok(Scheduled(ID_LIMIT - 1))
    );
    assert_eq!(
        schedule.schedule(&mut timer, task(1, Schedulable::SendTimeout), 1_000),
        Err(IoError::Exhausted)
    );
    assert_eq!(schedule.len(), 1);
}

#[test]
fn resolve_tells_fired_from_stale() {
    let mut timer = new_timer();
    let mut schedule = Schedule::new(Sequence::new());
    let a = schedule.schedule(&mut timer, task(1, Schedulable::SendTimeout), 60_000).unwrap();
    let b = schedule.schedule(&mut timer, task(2, Schedulable::ReqResend), 60_000).unwrap();
    assert_eq!(schedule.resolve(None), Expired::Idle);
    assert_eq!(schedule.len(), 2);
    assert_eq!(schedule.resolve(Some(b.0)), Expired::Fired(b, task(2, Schedulable::ReqResend)));
    assert_eq!(schedule.len(), 1);
    assert_eq!(schedule.resolve(Some(b.0)), Expired::Stale(b));
    assert_eq!(schedule.resolve(Some(99)), Expired::Stale(Scheduled(99)));
    assert_eq!(schedule.len(), 1);
    assert_eq!(schedule.resolve(Some(a.0)), Expired::Fired(a, task(1, Schedulable::SendTimeout)));
    assert_eq!(schedule.len(), 0);
}
