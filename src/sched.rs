//! Priority rules of the task scheduler.
//!
//! Tasks have fixed priorities and declare the shared resources they touch.
//! A resource's ceiling is the highest priority of any task declaring it;
//! taking its lock raises the running priority to that ceiling, so no task
//! that declares the resource can preempt the holder.
use vstd::prelude::*;

verus! {

/// The task table is well formed: one row of resource flags per task.
pub open spec fn table_wf(p: Seq<u8>, d: Seq<Seq<bool>>, resources: int) -> bool {
    &&& d.len() == p.len()
    &&& forall|t: int| 0 <= t < d.len() ==> #[trigger] d[t].len() == resources
}

/// The highest priority among the first `n` tasks that declare resource
/// `r`, or 0 when none does.
pub open spec fn ceiling_upto(p: Seq<u8>, d: Seq<Seq<bool>>, r: int, n: int) -> int
    decreases n,
{
    if n <= 0 {
        0
    } else {
        let c = ceiling_upto(p, d, r, n - 1);
        if d[n - 1][r] && p[n - 1] > c {
            p[n - 1] as int
        } else {
            c
        }
    }
}

/// The priority ceiling of resource `r`.
pub open spec fn ceiling_of(p: Seq<u8>, d: Seq<Seq<bool>>, r: int) -> int {
    ceiling_upto(p, d, r, p.len() as int)
}

/// A task of priority `prio` preempts a context running at `running`.
pub open spec fn may_preempt(prio: int, running: int) -> bool {
    prio > running
}

/// The running priority while a lock with ceiling `ceiling` is held.
pub open spec fn locked_priority(running: int, ceiling: int) -> int {
    if running >= ceiling {
        running
    } else {
        ceiling
    }
}

/// A resource may go without a lock iff every task touching it runs at
/// the same priority.
pub open spec fn lock_free_ok(p: Seq<u8>, d: Seq<Seq<bool>>, r: int) -> bool {
    forall|a: int, b: int|
        0 <= a < p.len() && 0 <= b < p.len() && #[trigger] d[a][r] && #[trigger] d[b][r] ==> p[a]
            == p[b]
}

proof fn lemma_ceiling_bounds(p: Seq<u8>, d: Seq<Seq<bool>>, r: int, n: int)
    requires
        0 <= n <= p.len(),
    ensures
        0 <= ceiling_upto(p, d, r, n) <= 255,
        forall|t: int| 0 <= t < n && #[trigger] d[t][r] ==> p[t] <= ceiling_upto(p, d, r, n),
        ceiling_upto(p, d, r, n) == 0 || exists|t: int|
            0 <= t < n && #[trigger] d[t][r] && p[t] == ceiling_upto(p, d, r, n),
    decreases n,
{
    if n > 0 {
        lemma_ceiling_bounds(p, d, r, n - 1);
    }
}

/// The ceiling protocol: while a task that declares resource `r` holds its
/// lock, no task declaring `r` can preempt it, and any task of priority
/// above the ceiling and above the holder's running priority still can.
pub proof fn lemma_priority_ceiling(
    p: Seq<u8>,
    d: Seq<Seq<bool>>,
    resources: int,
    r: int,
    holder: int,
    running: int,
    other: int,
)
    requires
        table_wf(p, d, resources),
        0 <= r < resources,
        0 <= holder < p.len(),
        0 <= other < p.len(),
        d[holder][r],
        running >= p[holder],
    ensures
        d[other][r] ==> !may_preempt(
            p[other] as int,
            locked_priority(running, ceiling_of(p, d, r)),
        ),
        !d[other][r] && p[other] > ceiling_of(p, d, r) && p[other] > running ==> may_preempt(
            p[other] as int,
            locked_priority(running, ceiling_of(p, d, r)),
        ),
        locked_priority(running, ceiling_of(p, d, r)) >= p[holder],
{
    lemma_ceiling_bounds(p, d, r, p.len() as int);
}

/// For a lock-free resource the ceiling is the holder's own priority: while
/// a task that declares it runs, no other task declaring it can preempt,
/// and every task of higher priority can, none of which declares it.
pub proof fn lemma_lock_free_preemption(
    p: Seq<u8>,
    d: Seq<Seq<bool>>,
    resources: int,
    r: int,
    holder: int,
    other: int,
)
    requires
        table_wf(p, d, resources),
        0 <= r < resources,
        0 <= holder < p.len(),
        0 <= other < p.len(),
        d[holder][r],
        lock_free_ok(p, d, r),
    ensures
        ceiling_of(p, d, r) == p[holder],
        d[other][r] ==> !may_preempt(
            p[other] as int,
            locked_priority(p[holder] as int, ceiling_of(p, d, r)),
        ),
        p[other] > p[holder] ==> may_preempt(
            p[other] as int,
            locked_priority(p[holder] as int, ceiling_of(p, d, r)),
        ) && !d[other][r],
{
    lemma_ceiling_bounds(p, d, r, p.len() as int);
    assert(p[holder] <= ceiling_of(p, d, r));
    if ceiling_of(p, d, r) != 0 {
        let t = choose|t: int|
            0 <= t < p.len() && #[trigger] d[t][r] && p[t] == ceiling_of(p, d, r);
        assert(d[t][r] && d[holder][r]);
    }
    if d[other][r] {
        assert(d[other][r] && d[holder][r]);
    }
}

/// The task table: a priority per task and, per task, the resources it
/// declares.
pub struct Scheduler {
    priorities: Vec<u8>,
    declares: Vec<Vec<bool>>,
    resources: usize,
}

impl Scheduler {
    pub closed spec fn spec_priorities(&self) -> Seq<u8> {
        self.priorities@
    }

    pub closed spec fn spec_declares(&self) -> Seq<Seq<bool>> {
        self.declares@.map_values(|v: Vec<bool>| v@)
    }

    pub closed spec fn spec_resources(&self) -> int {
        self.resources as int
    }

    pub open spec fn wf(&self) -> bool {
        table_wf(self.spec_priorities(), self.spec_declares(), self.spec_resources())
    }

    /// Builds the table; `None` when a row of `declares` does not have one
    /// flag per resource or there is not one row per task.
    pub fn new(priorities: Vec<u8>, declares: Vec<Vec<bool>>, resources: usize) -> (r: Option<
        Scheduler,
    >)
        ensures
            r is Some <==> table_wf(
                priorities@,
                declares@.map_values(|v: Vec<bool>| v@),
                resources as int,
            ),
            r matches Some(s) ==> s.wf() && s.spec_priorities() == priorities@
                && s.spec_declares() == declares@.map_values(|v: Vec<bool>| v@)
                && s.spec_resources() == resources,
    {
        let ghost dv = declares@.map_values(|v: Vec<bool>| v@);
        if declares.len() != priorities.len() {
            return None;
        }
        let mut t: usize = 0;
        while t < declares.len()
            invariant
                t <= declares@.len(),
                dv == declares@.map_values(|v: Vec<bool>| v@),
                forall|u: int| 0 <= u < t ==> #[trigger] dv[u].len() == resources,
            decreases declares@.len() - t,
        {
            if declares[t].len() != resources {
                assert(dv[t as int].len() != resources);
                return None;
            }
            t = t + 1;
        }
        Some(Scheduler { priorities, declares, resources })
    }

    pub fn task_count(&self) -> (r: usize)
        requires
            self.wf(),
        ensures
            r == self.spec_priorities().len(),
    {
        self.priorities.len()
    }

    /// The priority ceiling of resource `r`.
    pub fn ceiling(&self, r: usize) -> (c: u8)
        requires
            self.wf(),
            r < self.spec_resources(),
        ensures
            c == ceiling_of(self.spec_priorities(), self.spec_declares(), r as int),
    {
        let ghost p = self.spec_priorities();
        let ghost d = self.spec_declares();
        let mut c: u8 = 0;
        let mut t: usize = 0;
        while t < self.priorities.len()
            invariant
                self.wf(),
                p == self.spec_priorities(),
                d == self.spec_declares(),
                r < self.spec_resources(),
                t <= p.len(),
                c == ceiling_upto(p, d, r as int, t as int),
            decreases p.len() - t,
        {
            assert(d[t as int] == self.declares@[t as int]@);
            if self.declares[t][r] && self.priorities[t] > c {
                c = self.priorities[t];
            }
            t = t + 1;
        }
        c
    }

    /// The running priority after taking the lock of resource `r` from a
    /// context running at `running`.
    pub fn lock_priority(&self, running: u8, r: usize) -> (q: u8)
        requires
            self.wf(),
            r < self.spec_resources(),
        ensures
            q == locked_priority(
                running as int,
                ceiling_of(self.spec_priorities(), self.spec_declares(), r as int),
            ),
    {
        let c = self.ceiling(r);
        if running >= c {
            running
        } else {
            c
        }
    }

    /// Whether task `t` preempts a context running at `running`.
    pub fn preempts(&self, running: u8, t: usize) -> (b: bool)
        requires
            self.wf(),
            t < self.spec_priorities().len(),
        ensures
            b == may_preempt(self.spec_priorities()[t as int] as int, running as int),
    {
        self.priorities[t] > running
    }

    /// Whether resource `r` may be declared lock-free: every task that
    /// declares it has the same priority.
    pub fn lock_free_allowed(&self, r: usize) -> (b: bool)
        requires
            self.wf(),
            r < self.spec_resources(),
        ensures
            b == lock_free_ok(self.spec_priorities(), self.spec_declares(), r as int),
    {
        let ghost p = self.spec_priorities();
        let ghost d = self.spec_declares();
        let mut first: Option<u8> = None;
        let mut t: usize = 0;
        while t < self.priorities.len()
            invariant
                self.wf(),
                p == self.spec_priorities(),
                d == self.spec_declares(),
                r < self.spec_resources(),
                t <= p.len(),
                first is None ==> forall|u: int| 0 <= u < t ==> !(#[trigger] d[u][r as int]),
                first matches Some(q) ==> (exists|w: int| 0 <= w < t && #[trigger] d[w][r as int]
                    && p[w] == q) && forall|u: int|
                    0 <= u < t && #[trigger] d[u][r as int] ==> p[u] == q,
            decreases p.len() - t,
        {
            assert(d[t as int] == self.declares@[t as int]@);
            if self.declares[t][r] {
                match first {
                    None => {
                        first = Some(self.priorities[t]);
                    },
                    Some(q) => {
                        if self.priorities[t] != q {
                            proof {
                                let w = choose|w: int|
                                    0 <= w < t && #[trigger] d[w][r as int] && p[w] == q;
                                assert(d[w][r as int] && d[t as int][r as int]);
                            }
                            return false;
                        }
                    },
                }
            }
            t = t + 1;
        }
        true
    }

    /// The task to run next: among the pending tasks whose priority is
    /// above `running`, the first of highest priority; `None` when no
    /// pending task may preempt.
    pub fn dispatch(&self, running: u8, pending: &Vec<bool>) -> (r: Option<usize>)
        requires
            self.wf(),
            pending@.len() == self.spec_priorities().len(),
        ensures
            r matches Some(t) ==> t < pending@.len() && pending@[t as int] && may_preempt(
                self.spec_priorities()[t as int] as int,
                running as int,
            ) && forall|u: int|
                0 <= u < pending@.len() && #[trigger] pending@[u] ==> self.spec_priorities()[u]
                    <= self.spec_priorities()[t as int] && (u < t ==> self.spec_priorities()[u]
                    < self.spec_priorities()[t as int]),
            r is None ==> forall|u: int|
                0 <= u < pending@.len() && #[trigger] pending@[u] ==> !may_preempt(
                    self.spec_priorities()[u] as int,
                    running as int,
                ),
    {
        let ghost p = self.spec_priorities();
        let mut best: Option<usize> = None;
        let mut t: usize = 0;
        while t < pending.len()
            invariant
                p == self.spec_priorities(),
                pending@.len() == p.len(),
                t <= p.len(),
                best is None ==> forall|u: int|
                    0 <= u < t && #[trigger] pending@[u] ==> p[u] <= running,
                best matches Some(b) ==> b < t && pending@[b as int] && p[b as int] > running
                    && forall|u: int|
                    0 <= u < t && #[trigger] pending@[u] ==> p[u] <= p[b as int] && (u < b ==> p[u]
                        < p[b as int]),
            decreases p.len() - t,
        {
            if pending[t] {
                let pt = self.priorities[t];
                match best {
                    None => {
                        if pt > running {
                            best = Some(t);
                        }
                    },
                    Some(b) => {
                        if pt > self.priorities[b] {
                            best = Some(t);
                        }
                    },
                }
            }
            t = t + 1;
        }
        best
    }
}

} // verus!
