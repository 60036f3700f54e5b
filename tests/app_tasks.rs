use board::sched::Scheduler;
use board::tasks::{
    boot_schedule, debounce, firmware_tasks, heartbeat, HeartbeatTask, Spawn, FIRST_TOGGLE_BY_MS,
    HEARTBEAT_PERIOD_MS, RES_COUNT, RES_GPIOTE, RES_LEDS, RES_TIMERS, RES_UARTE, TASK_COUNT,
    TASK_DEBOUNCE, TASK_NFC, TASK_UARTE_RECEIVE,
};
use board::timer::{Delay, TimeDuration};

#[test]
fn heartbeat_toggles_every_period() {
    let on = heartbeat(HeartbeatTask::SystemOn, true, 1000);
    assert!(!on.toggle_led4);
    assert_eq!(on.spawn, Some(Spawn { task: HeartbeatTask::SystemDiode, at: 1500 }));
    let diode = heartbeat(HeartbeatTask::SystemDiode, true, 1500);
    assert!(diode.toggle_led4);
    assert_eq!(diode.spawn, Some(Spawn { task: HeartbeatTask::SystemOn, at: 1500 }));
    assert_eq!(HEARTBEAT_PERIOD_MS, 500);
}

#[test]
fn boot_then_heartbeat_toggle_times() {
    let boot = boot_schedule();
    assert_eq!(boot.task, HeartbeatTask::SystemOn);
    assert_eq!(boot.at, 500);
    let mut task = boot.task;
    let mut now: u64 = boot.at;
    let mut toggles = Vec::new();
    for _ in 0..8 {
        let step = heartbeat(task, true, now);
        if step.toggle_led4 {
            toggles.push(now);
        }
        let next = step.spawn.unwrap();
        task = next.task;
        now = next.at;
    }
    assert_eq!(toggles, vec![1000, 1500, 2000, 2500]);
    assert!(toggles[0] <= FIRST_TOGGLE_BY_MS);
}

#[test]
fn heartbeat_stops_when_system_off() {
    let step = heartbeat(HeartbeatTask::SystemOn, false, 0);
    assert!(!step.toggle_led4);
    assert_eq!(step.spawn, None);
}

#[test]
fn debounce_picks_first_pushed_button() {
    let r = debounce([false, true, true, false]);
    assert_eq!(r.toggle_led, Some(2));
    assert!(!r.transmit);
    let r = debounce([false, false, true, true]);
    assert_eq!(r.toggle_led, Some(3));
    let r = debounce([false, false, false, true]);
    assert_eq!(r.toggle_led, Some(4));
    assert!(!r.transmit);
    let r = debounce([false; 4]);
    assert_eq!(r.toggle_led, None);
    assert!(!r.transmit);
    let r = debounce([true; 4]);
    assert_eq!(r.toggle_led, Some(1));
    assert!(r.transmit);
}

#[test]
fn delays_split_seconds() {
    assert_eq!(TimeDuration::Micro(250).delays(), vec![Delay::Us(250)]);
    assert_eq!(TimeDuration::Mili(70).delays(), vec![Delay::Ms(70)]);
    assert_eq!(TimeDuration::Sec(3).delays(), vec![Delay::Ms(1000); 3]);
    assert!(TimeDuration::Sec(0).delays().is_empty());
}

// Tasks: 0 heartbeat (prio 1), 1 debounce (prio 1), 2 receive (prio 2),
// 3 gpiote interrupt (prio 3). Resources: 0 leds, 1 uarte, 2 gpiote.
fn table() -> Scheduler {
    Scheduler::new(
        vec![1, 1, 2, 3],
        vec![
            vec![true, false, false],
            vec![true, true, false],
            vec![false, true, true],
            vec![false, false, true],
        ],
        3,
    )
    .unwrap()
}

#[test]
fn scheduler_rejects_ragged_table() {
    assert!(Scheduler::new(vec![1, 2], vec![vec![true]], 1).is_none());
    assert!(Scheduler::new(vec![1, 2], vec![vec![true], vec![true, false]], 1).is_none());
    assert!(Scheduler::new(vec![], vec![], 4).is_some());
}

#[test]
fn ceilings_are_highest_declaring_priority() {
    let s = table();
    assert_eq!(s.ceiling(0), 1);
    assert_eq!(s.ceiling(1), 2);
    assert_eq!(s.ceiling(2), 3);
}

#[test]
fn holder_of_shared_resource_is_not_preempted_by_its_sharers() {
    let s = table();
    // Debounce (prio 1) holds the uarte, shared with receive (prio 2).
    let running = s.lock_priority(1, 1);
    assert_eq!(running, 2);
    assert!(!s.preempts(running, 2));
    // The gpiote interrupt (prio 3) does not declare the uarte and preempts.
    assert!(s.preempts(running, 3));
    // Without the lock, receive would preempt debounce.
    assert!(s.preempts(1, 2));
}

#[test]
fn lock_free_only_at_equal_priorities() {
    let s = table();
    assert!(s.lock_free_allowed(0));
    assert!(!s.lock_free_allowed(1));
    assert!(!s.lock_free_allowed(2));
}

#[test]
fn dispatch_runs_highest_pending_above_running() {
    let s = table();
    assert_eq!(s.dispatch(0, &vec![true, true, true, false]), Some(2));
    assert_eq!(s.dispatch(2, &vec![true, true, true, false]), None);
    assert_eq!(s.dispatch(0, &vec![false, true, true, true]), Some(3));
    assert_eq!(s.dispatch(0, &vec![true, true, false, false]), Some(0));
    assert_eq!(s.dispatch(3, &vec![true; 4]), None);
}

#[test]
fn dispatch_breaks_ties_by_first_task() {
    let s = Scheduler::new(vec![2, 1, 2, 2], vec![vec![], vec![], vec![], vec![]], 0).unwrap();
    assert_eq!(s.dispatch(0, &vec![false, true, true, true]), Some(2));
    assert_eq!(s.dispatch(0, &vec![true, true, true, true]), Some(0));
}

#[test]
fn firmware_resources_are_lock_free() {
    let table = firmware_tasks().unwrap();
    assert_eq!(table.task_count(), TASK_COUNT);
    for r in [RES_LEDS, RES_GPIOTE, RES_UARTE, RES_TIMERS] {
        assert!(r < RES_COUNT);
        assert!(table.lock_free_allowed(r));
    }
    assert_eq!(table.ceiling(RES_UARTE), 1);
    // Debounce holds the uarte; the receive task shares it and cannot preempt.
    let running = table.lock_priority(1, RES_UARTE);
    assert!(!table.preempts(running, TASK_UARTE_RECEIVE));
    assert!(!table.preempts(running, TASK_NFC));
    assert!(!table.preempts(running, TASK_DEBOUNCE));
}
