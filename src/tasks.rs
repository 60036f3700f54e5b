//! Decisions of the application tasks: the heartbeat and the response to a
//! button press. The tasks themselves run under the scheduler, which
//! performs what these functions decide.
use vstd::prelude::*;
use crate::sched::{
    lemma_lock_free_preemption, locked_priority, lock_free_ok, may_preempt, table_wf, Scheduler,
    ceiling_of,
};

verus! {

/// Time between two toggles of the heartbeat LED, in milliseconds.
pub const HEARTBEAT_PERIOD_MS: u64 = 500;

/// The two tasks of the heartbeat.
#[derive(Clone, Copy, Debug, PartialEq, Eq, Structural)]
pub enum HeartbeatTask {
    /// Re-arms the heartbeat while the system is on.
    SystemOn,
    /// Toggles LED4.
    SystemDiode,
}

/// A task to spawn and the time (milliseconds) it is due.
#[derive(Clone, Copy, Debug, PartialEq, Eq, Structural)]
pub struct Spawn {
    pub task: HeartbeatTask,
    pub at: u64,
}

/// What a heartbeat task does when it runs: whether it toggles LED4, and
/// which task it spawns for which time (milliseconds).
#[derive(Clone, Copy, Debug, PartialEq, Eq, Structural)]
pub struct HeartbeatStep {
    pub toggle_led4: bool,
    pub spawn: Option<Spawn>,
}

pub open spec fn heartbeat_spec(task: HeartbeatTask, system_on: bool, now: u64) -> HeartbeatStep {
    match task {
        HeartbeatTask::SystemOn => HeartbeatStep {
            toggle_led4: false,
            spawn: if system_on {
                Some(Spawn { task: HeartbeatTask::SystemDiode, at: (now + HEARTBEAT_PERIOD_MS) as u64 })
            } else {
                None
            },
        },
        HeartbeatTask::SystemDiode => HeartbeatStep {
            toggle_led4: true,
            spawn: Some(Spawn { task: HeartbeatTask::SystemOn, at: now }),
        },
    }
}

/// Runs one heartbeat task at time `now`.
pub fn heartbeat(task: HeartbeatTask, system_on: bool, now: u64) -> (r: HeartbeatStep)
    requires
        now + HEARTBEAT_PERIOD_MS <= u64::MAX,
    ensures
        r == heartbeat_spec(task, system_on, now),
{
    match task {
        HeartbeatTask::SystemOn => HeartbeatStep {
            toggle_led4: false,
            spawn: if system_on {
                Some(Spawn { task: HeartbeatTask::SystemDiode, at: now + HEARTBEAT_PERIOD_MS })
            } else {
                None
            },
        },
        HeartbeatTask::SystemDiode => HeartbeatStep {
            toggle_led4: true,
            spawn: Some(Spawn { task: HeartbeatTask::SystemOn, at: now }),
        },
    }
}

/// While the system is on, a toggle of LED4 at time `t` is followed by
/// exactly one task run without a toggle and then by the next toggle at
/// `t + HEARTBEAT_PERIOD_MS`.
pub proof fn lemma_heartbeat_period(t: u64)
    requires
        t + HEARTBEAT_PERIOD_MS <= u64::MAX,
    ensures
        heartbeat_spec(HeartbeatTask::SystemDiode, true, t).toggle_led4,
        heartbeat_spec(HeartbeatTask::SystemDiode, true, t).spawn == Some(
            Spawn { task: HeartbeatTask::SystemOn, at: t },
        ),
        !heartbeat_spec(HeartbeatTask::SystemOn, true, t).toggle_led4,
        heartbeat_spec(HeartbeatTask::SystemOn, true, t).spawn == Some(
            Spawn { task: HeartbeatTask::SystemDiode, at: (t + HEARTBEAT_PERIOD_MS) as u64 },
        ),
        heartbeat_spec(
            HeartbeatTask::SystemDiode,
            true,
            (t + HEARTBEAT_PERIOD_MS) as u64,
        ).toggle_led4,
{
}

/// What a press of the buttons leads to: the LED to toggle (1 to 4), and
/// whether the transmit buffer is sent.
#[derive(Clone, Copy, Debug, PartialEq, Eq, Structural)]
pub struct ButtonResponse {
    pub toggle_led: Option<u8>,
    pub transmit: bool,
}

/// The first pushed button, from button 1 on.
pub open spec fn first_pushed(pushed: Seq<bool>) -> Option<int> {
    if pushed[0] {
        Some(0)
    } else if pushed[1] {
        Some(1)
    } else if pushed[2] {
        Some(2)
    } else if pushed[3] {
        Some(3)
    } else {
        None
    }
}

/// Responds to the first pushed button: its LED toggles, and button 1 also
/// sends the transmit buffer.
pub fn debounce(pushed: [bool; 4]) -> (r: ButtonResponse)
    ensures
        r.toggle_led == match first_pushed(pushed@) {
            Some(i) => Some((i + 1) as u8),
            None => None::<u8>,
        },
        r.transmit == (first_pushed(pushed@) == Some(0int)),
{
    if pushed[0] {
        ButtonResponse { toggle_led: Some(1), transmit: true }
    } else if pushed[1] {
        ButtonResponse { toggle_led: Some(2), transmit: false }
    } else if pushed[2] {
        ButtonResponse { toggle_led: Some(3), transmit: false }
    } else if pushed[3] {
        ButtonResponse { toggle_led: Some(4), transmit: false }
    } else {
        ButtonResponse { toggle_led: None, transmit: false }
    }
}

/// When the system-on task first runs after boot, in milliseconds.
pub const BOOT_DELAY_MS: u64 = 500;

/// LED4 first toggles no later than this after boot, in milliseconds.
pub const FIRST_TOGGLE_BY_MS: u64 = 1000;

/// The heartbeat's first task after boot: system-on, due early enough that
/// LED4 first toggles within `FIRST_TOGGLE_BY_MS`.
pub fn boot_schedule() -> (r: Spawn)
    ensures
        r.task == HeartbeatTask::SystemOn,
        r.at == BOOT_DELAY_MS,
        r.at + HEARTBEAT_PERIOD_MS <= FIRST_TOGGLE_BY_MS,
{
    Spawn { task: HeartbeatTask::SystemOn, at: BOOT_DELAY_MS }
}

/// The times at which LED4 toggles over `steps` task runs of the heartbeat,
/// starting with `task` at `now`, while the system is on.
pub open spec fn heartbeat_run(task: HeartbeatTask, now: u64, steps: nat) -> Seq<u64>
    decreases steps,
{
    if steps == 0 {
        seq![]
    } else {
        let s = heartbeat_spec(task, true, now);
        let rest = match s.spawn {
            Some(next) => heartbeat_run(next.task, next.at, (steps - 1) as nat),
            None => seq![],
        };
        if s.toggle_led4 {
            seq![now] + rest
        } else {
            rest
        }
    }
}

/// Started by system-on at `t`, the heartbeat toggles LED4 at `t + 500`,
/// `t + 1000`, ...: one toggle every `HEARTBEAT_PERIOD_MS`.
pub proof fn lemma_heartbeat_toggle_times(t: u64, n: nat)
    requires
        t + HEARTBEAT_PERIOD_MS * n <= u64::MAX,
    ensures
        heartbeat_run(HeartbeatTask::SystemOn, t, 2 * n) =~= Seq::new(
            n,
            |k: int| (t + HEARTBEAT_PERIOD_MS * (k + 1)) as u64,
        ),
    decreases n,
{
    if n > 0 {
        let t2 = (t + HEARTBEAT_PERIOD_MS) as u64;
        lemma_heartbeat_toggle_times(t2, (n - 1) as nat);
        let rest = heartbeat_run(HeartbeatTask::SystemOn, t2, (2 * n - 2) as nat);
        assert(heartbeat_run(HeartbeatTask::SystemDiode, t2, (2 * n - 1) as nat) == seq![t2]
            + rest);
        assert(heartbeat_run(HeartbeatTask::SystemOn, t, 2 * n) == heartbeat_run(
            HeartbeatTask::SystemDiode,
            t2,
            (2 * n - 1) as nat,
        ));
        assert(seq![t2] + rest =~= Seq::new(
            n,
            |k: int| (t + HEARTBEAT_PERIOD_MS * (k + 1)) as u64,
        ));
    }
}

/// From boot, LED4 toggles at `FIRST_TOGGLE_BY_MS` and then every
/// `HEARTBEAT_PERIOD_MS`.
pub proof fn lemma_boot_heartbeat(n: nat)
    requires
        BOOT_DELAY_MS + HEARTBEAT_PERIOD_MS * n <= u64::MAX,
    ensures
        heartbeat_run(HeartbeatTask::SystemOn, BOOT_DELAY_MS, 2 * n) =~= Seq::new(
            n,
            |k: int| (FIRST_TOGGLE_BY_MS + HEARTBEAT_PERIOD_MS * k) as u64,
        ),
{
    lemma_heartbeat_toggle_times(BOOT_DELAY_MS, n);
}

// ---------------------------------------------------------------------------
// The firmware's task table
// ---------------------------------------------------------------------------

/// Tasks of the firmware.
pub const TASK_SYSTEM_DIODE: usize = 0;
pub const TASK_SYSTEM_ON: usize = 1;
pub const TASK_GPIOTE: usize = 2;
pub const TASK_DEBOUNCE: usize = 3;
pub const TASK_UARTE_RECEIVE: usize = 4;
pub const TASK_UARTE_TRANSMIT: usize = 5;
pub const TASK_NFC: usize = 6;

pub const TASK_COUNT: usize = 7;

/// Shared resources of the firmware, all declared lock-free.
pub const RES_LEDS: usize = 0;
pub const RES_GPIOTE: usize = 1;
pub const RES_UARTE: usize = 2;
pub const RES_TIMERS: usize = 3;

pub const RES_COUNT: usize = 4;

/// The priority every firmware task runs at.
pub const TASK_PRIORITY: u8 = 1;

pub open spec fn firmware_priorities() -> Seq<u8> {
    Seq::new(TASK_COUNT as nat, |i: int| TASK_PRIORITY)
}

/// Which shared resources each task declares: leds, gpiote, uarte, timers.
pub open spec fn firmware_declares() -> Seq<Seq<bool>> {
    seq![
        seq![true, false, false, false],
        seq![false, false, false, false],
        seq![false, true, false, false],
        seq![true, false, true, false],
        seq![false, true, true, false],
        seq![false, false, true, false],
        seq![false, false, false, false],
    ]
}

fn row(leds: bool, gpiote: bool, uarte: bool, timers: bool) -> (r: Vec<bool>)
    ensures
        r@ == seq![leds, gpiote, uarte, timers],
{
    let mut r: Vec<bool> = Vec::new();
    r.push(leds);
    r.push(gpiote);
    r.push(uarte);
    r.push(timers);
    assert(r@ =~= seq![leds, gpiote, uarte, timers]);
    r
}

/// The firmware's task table.
pub fn firmware_tasks() -> (r: Option<Scheduler>)
    ensures
        r matches Some(s) && s.wf() && s.spec_priorities() == firmware_priorities()
            && s.spec_declares() == firmware_declares() && s.spec_resources() == RES_COUNT,
{
    let mut priorities: Vec<u8> = Vec::new();
    let mut i: usize = 0;
    while i < TASK_COUNT
        invariant
            i <= TASK_COUNT,
            priorities@ =~= Seq::new(i as nat, |k: int| TASK_PRIORITY),
        decreases TASK_COUNT - i,
    {
        priorities.push(TASK_PRIORITY);
        i = i + 1;
    }
    let mut declares: Vec<Vec<bool>> = Vec::new();
    declares.push(row(true, false, false, false));
    declares.push(row(false, false, false, false));
    declares.push(row(false, true, false, false));
    declares.push(row(true, false, true, false));
    declares.push(row(false, true, true, false));
    declares.push(row(false, false, true, false));
    declares.push(row(false, false, false, false));
    assert(declares@.map_values(|v: Vec<bool>| v@) =~= firmware_declares());
    assert(table_wf(firmware_priorities(), firmware_declares(), RES_COUNT as int));
    Scheduler::new(priorities, declares, RES_COUNT)
}

/// Every shared resource of the firmware may go without a lock: the tasks
/// that declare it all run at the same priority.
pub proof fn lemma_firmware_lock_free(r: int)
    requires
        0 <= r < RES_COUNT,
    ensures
        lock_free_ok(firmware_priorities(), firmware_declares(), r),
{
}

/// In the firmware, a task holding a shared resource is never preempted by
/// another task that declares it, and is preempted by any task of higher
/// priority.
pub proof fn lemma_firmware_priority_preservation(r: int, holder: int, other: int)
    requires
        0 <= r < RES_COUNT,
        0 <= holder < TASK_COUNT,
        0 <= other < TASK_COUNT,
        firmware_declares()[holder][r],
    ensures
        firmware_declares()[other][r] ==> !may_preempt(
            firmware_priorities()[other] as int,
            locked_priority(
                firmware_priorities()[holder] as int,
                ceiling_of(firmware_priorities(), firmware_declares(), r),
            ),
        ),
        firmware_priorities()[other] > firmware_priorities()[holder] ==> may_preempt(
            firmware_priorities()[other] as int,
            locked_priority(
                firmware_priorities()[holder] as int,
                ceiling_of(firmware_priorities(), firmware_declares(), r),
            ),
        ),
{
    assert(table_wf(firmware_priorities(), firmware_declares(), RES_COUNT as int));
    lemma_firmware_lock_free(r);
    lemma_lock_free_preemption(
        firmware_priorities(),
        firmware_declares(),
        RES_COUNT as int,
        r,
        holder,
        other,
    );
}

} // verus!
