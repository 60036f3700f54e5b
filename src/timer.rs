//! Blocking delays over a one-shot timer.
use vstd::prelude::*;

verus! {

/// Milliseconds in a second; one step of a delay given in seconds.
pub const SEC_AS_MILI: u32 = 1000;

/// A delay requested by a task.
#[derive(Clone, Copy, Debug, PartialEq, Eq, Structural)]
pub enum TimeDuration {
    Micro(u32),
    Mili(u32),
    Sec(u16),
}

/// One busy-wait of the timer.
#[derive(Clone, Copy, Debug, PartialEq, Eq, Structural)]
pub enum Delay {
    Us(u32),
    Ms(u32),
}

/// Length of a duration in microseconds.
pub open spec fn duration_us(d: TimeDuration) -> int {
    match d {
        TimeDuration::Micro(u) => u as int,
        TimeDuration::Mili(m) => m as int * 1000,
        TimeDuration::Sec(s) => s as int * 1_000_000,
    }
}

pub open spec fn delay_us(d: Delay) -> int {
    match d {
        Delay::Us(u) => u as int,
        Delay::Ms(m) => m as int * 1000,
    }
}

/// Total length of a sequence of busy-waits, in microseconds.
pub open spec fn delays_us(s: Seq<Delay>) -> int
    decreases s.len(),
{
    if s.len() == 0 {
        0
    } else {
        delays_us(s.drop_last()) + delay_us(s.last())
    }
}

/// The busy-waits that make up a duration: a single one, except that `s`
/// seconds are `s` waits of 1000 ms, so that no count overflows the timer.
pub open spec fn delay_plan(d: TimeDuration) -> Seq<Delay> {
    match d {
        TimeDuration::Micro(u) => seq![Delay::Us(u)],
        TimeDuration::Mili(m) => seq![Delay::Ms(m)],
        TimeDuration::Sec(s) => Seq::new(s as nat, |i: int| Delay::Ms(SEC_AS_MILI)),
    }
}

impl TimeDuration {
    /// The busy-waits to perform for this duration.
    pub fn delays(&self) -> (r: Vec<Delay>)
        ensures
            r@ == delay_plan(*self),
            delays_us(r@) == duration_us(*self),
    {
        let mut r: Vec<Delay> = Vec::new();
        proof {
            reveal_with_fuel(delays_us, 2);
        }
        match *self {
            TimeDuration::Micro(u) => {
                r.push(Delay::Us(u));
                assert(r@.drop_last() =~= Seq::<Delay>::empty());
                assert(r@ =~= delay_plan(*self));
            },
            TimeDuration::Mili(m) => {
                r.push(Delay::Ms(m));
                assert(r@.drop_last() =~= Seq::<Delay>::empty());
                assert(r@ =~= delay_plan(*self));
            },
            TimeDuration::Sec(s) => {
                let mut i: u16 = 0;
                while i < s
                    invariant
                        i <= s,
                        r@ =~= Seq::new(i as nat, |k: int| Delay::Ms(SEC_AS_MILI)),
                        delays_us(r@) == i as int * 1_000_000,
                    decreases s - i,
                {
                    let ghost before = r@;
                    r.push(Delay::Ms(SEC_AS_MILI));
                    assert(r@.drop_last() =~= before);
                    i = i + 1;
                }
                assert(r@ =~= delay_plan(*self));
            },
        }
        r
    }
}

} // verus!
