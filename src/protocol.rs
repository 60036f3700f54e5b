//! A model of the UARTE's transaction protocol, and proofs that the driver's
//! programs follow it.
//!
//! The model refuses any step the engine does not allow in its current
//! state: configuring pins while enabled, starting a transfer before its
//! pointer and length are written or without a fence, leaving a transfer
//! without observing its end event, or finishing it without a fence after
//! that event.
use vstd::prelude::*;
use crate::tx_frame::store_ops;
use crate::uarte::{
    cancel_receive_ops, finalize_receive_ops, init_ops, receive_ops, start_receive_ops,
    transmit_ops, Baudrate, Event, Parity, Pins, Task, UarteOp, EASY_DMA_MAX,
};

verus! {

/// States of the engine. `Unknown` is an engine found enabled at start-up,
/// in whatever state a bootloader left it.
#[derive(Clone, Copy, Debug, PartialEq, Eq, Structural)]
pub enum EngineState {
    Unknown,
    Disabled,
    Idle,
    Transmitting,
    TxEnded,
    TxStopping,
    Receiving,
    CancellingRx,
    RxTimedOut,
    Flushing,
    RxEnded,
}

/// The engine and what the protocol remembers about it.
pub struct Engine {
    pub state: EngineState,
    /// TXD.PTR and TXD.MAXCNT written since the last transmit start.
    pub tx_ptr: bool,
    pub tx_len: bool,
    /// RXD.PTR and RXD.MAXCNT written since the last receive start.
    pub rx_ptr: bool,
    pub rx_len: bool,
    /// A fence since the last transfer start.
    pub fenced: bool,
    /// An end event observed and no fence since.
    pub unfenced_end: bool,
}

/// Pins and configuration may be written only while the engine is off.
pub open spec fn configurable(s: EngineState) -> bool {
    s == EngineState::Disabled
}

/// One step of the protocol; `None` when the step is not allowed.
pub open spec fn step(e: Engine, op: UarteOp) -> Option<Engine> {
    match op {
        UarteOp::Fence => Some(Engine { fenced: true, unfenced_end: false, ..e }),
        // Filling a buffer must be followed by a fence before the next start,
        // and may not touch memory a transfer is using.
        UarteOp::StoreByte(_, _) => if e.state == EngineState::Idle || e.state
            == EngineState::Disabled {
            Some(Engine { fenced: false, ..e })
        } else {
            None
        },
        UarteOp::SetTxdPtr(_) => Some(Engine { tx_ptr: true, ..e }),
        UarteOp::SetTxdMaxcnt(_) => Some(Engine { tx_len: true, ..e }),
        UarteOp::SetRxdPtr(_) => Some(Engine { rx_ptr: true, ..e }),
        UarteOp::SetRxdMaxcnt(_) => Some(Engine { rx_len: true, ..e }),
        UarteOp::ClearEvent(Event::EndRx) => if e.state == EngineState::RxEnded {
            Some(Engine { state: EngineState::Idle, ..e })
        } else {
            Some(e)
        },
        UarteOp::ClearEvent(_) => Some(e),
        UarteOp::EnableCtsInterrupt => Some(e),
        UarteOp::Enable => if e.state == EngineState::Disabled {
            Some(Engine { state: EngineState::Idle, ..e })
        } else {
            None
        },
        UarteOp::Disable => if e.state == EngineState::Idle {
            Some(Engine { state: EngineState::Disabled, ..e })
        } else {
            None
        },
        UarteOp::Connect(_, _) | UarteOp::Disconnect(_) | UarteOp::DriveTxdHigh
        | UarteOp::Configure(_, _) | UarteOp::SetBaudrate(_) => if configurable(e.state) {
            Some(e)
        } else {
            None
        },
        UarteOp::Trigger(Task::StartTx) => if e.state == EngineState::Idle && e.tx_ptr && e.tx_len
            && e.fenced {
            Some(
                Engine {
                    state: EngineState::Transmitting,
                    tx_ptr: false,
                    tx_len: false,
                    fenced: false,
                    ..e
                },
            )
        } else {
            None
        },
        UarteOp::AwaitEvent(Event::EndTx) => if e.state == EngineState::Transmitting {
            Some(Engine { state: EngineState::TxEnded, unfenced_end: true, ..e })
        } else {
            None
        },
        UarteOp::Trigger(Task::StopTx) => if e.state == EngineState::TxEnded || e.state
            == EngineState::Unknown {
            Some(Engine { state: EngineState::TxStopping, ..e })
        } else {
            None
        },
        UarteOp::AwaitEvent(Event::TxStopped) => if e.state == EngineState::TxStopping
            && !e.unfenced_end {
            Some(Engine { state: EngineState::Idle, ..e })
        } else {
            None
        },
        UarteOp::Trigger(Task::StartRx) => if e.state == EngineState::Idle && e.rx_ptr && e.rx_len
            && e.fenced {
            Some(
                Engine {
                    state: EngineState::Receiving,
                    rx_ptr: false,
                    rx_len: false,
                    fenced: false,
                    ..e
                },
            )
        } else {
            None
        },
        UarteOp::AwaitEvent(Event::EndRx) => if e.state == EngineState::Receiving || e.state
            == EngineState::Flushing {
            Some(Engine { state: EngineState::RxEnded, unfenced_end: true, ..e })
        } else {
            None
        },
        UarteOp::Trigger(Task::StopRx) => if e.state == EngineState::Receiving {
            Some(Engine { state: EngineState::CancellingRx, ..e })
        } else {
            None
        },
        UarteOp::AwaitEvent(Event::RxTo) => if e.state == EngineState::CancellingRx {
            Some(Engine { state: EngineState::RxTimedOut, ..e })
        } else {
            None
        },
        UarteOp::Trigger(Task::FlushRx) => if e.state == EngineState::RxTimedOut {
            Some(Engine { state: EngineState::Flushing, ..e })
        } else {
            None
        },
        UarteOp::AwaitEvent(Event::Cts) | UarteOp::AwaitEventCleared(_) => Some(e),
    }
}

/// Runs a program through the protocol; `None` when a step is refused.
pub open spec fn run(e: Engine, ops: Seq<UarteOp>) -> Option<Engine>
    decreases ops.len(),
{
    if ops.len() == 0 {
        Some(e)
    } else {
        match step(e, ops[0]) {
            Some(next) => run(next, ops.drop_first()),
            None => None,
        }
    }
}

/// The engine is idle, with every finished transfer fenced.
pub open spec fn settled(r: Option<Engine>) -> bool {
    r matches Some(e) && e.state == EngineState::Idle && !e.unfenced_end
}

/// Ends in state `s`.
pub open spec fn ends_in(r: Option<Engine>, s: EngineState) -> bool {
    r matches Some(e) && e.state == s
}

/// Initialisation is accepted from a disabled engine on a cold boot and
/// from an engine in any state on a hot boot, and leaves it settled.
pub proof fn lemma_init_follows_protocol(
    pins: Pins,
    parity: Parity,
    baudrate: Baudrate,
    cold: Engine,
    hot: Engine,
)
    requires
        cold.state == EngineState::Disabled,
        !cold.unfenced_end,
        hot.state == EngineState::Unknown,
        !hot.unfenced_end,
    ensures
        settled(run(cold, init_ops(pins, parity, baudrate, false))),
        settled(run(hot, init_ops(pins, parity, baudrate, true))),
{
    reveal_with_fuel(run, 13);
    assert(init_ops(pins, parity, baudrate, false).drop_first()[0] == UarteOp::DriveTxdHigh);
}

/// A transmit is accepted from an idle engine and leaves it settled.
pub proof fn lemma_transmit_follows_protocol(e: Engine, tx_buffor: u32, tx_len: u16)
    requires
        e.state == EngineState::Idle,
        0 < tx_len <= EASY_DMA_MAX,
    ensures
        settled(run(e, transmit_ops(tx_buffor, tx_len))),
{
    reveal_with_fuel(run, 12);
}

/// A complete receive is accepted from an idle engine and leaves it
/// settled.
pub proof fn lemma_receive_follows_protocol(e: Engine, rx_buffor: u32, rx_len: u8)
    requires
        e.state == EngineState::Idle,
    ensures
        settled(run(e, receive_ops(rx_buffor, rx_len))),
{
    reveal_with_fuel(run, 8);
}

/// Starting a receive, cancelling it and finalizing: each program is
/// accepted where the previous one ends, the cancel ends with `endrx`
/// observed, and finalizing leaves the engine settled.
pub proof fn lemma_cancel_follows_protocol(e: Engine, rx_buffor: u32, rx_len: u8)
    requires
        e.state == EngineState::Idle,
    ensures
        ends_in(run(e, start_receive_ops(rx_buffor, rx_len)), EngineState::Receiving),
        forall|r: Engine|
            r.state == EngineState::Receiving ==> ends_in(
                #[trigger] run(r, cancel_receive_ops()),
                EngineState::RxEnded,
            ),
        forall|x: Engine|
            x.state == EngineState::RxEnded ==> settled(#[trigger] run(x, finalize_receive_ops())),
{
    reveal_with_fuel(run, 6);
    assert forall|r: Engine| r.state == EngineState::Receiving implies ends_in(
        #[trigger] run(r, cancel_receive_ops()),
        EngineState::RxEnded,
    ) by {
        reveal_with_fuel(run, 6);
    }
    assert forall|x: Engine| x.state == EngineState::RxEnded implies settled(
        #[trigger] run(x, finalize_receive_ops()),
    ) by {
        reveal_with_fuel(run, 3);
    }
}

/// Running two programs in turn is running their concatenation.
proof fn lemma_run_append(e: Engine, a: Seq<UarteOp>, b: Seq<UarteOp>)
    ensures
        run(e, a + b) == match run(e, a) {
            Some(m) => run(m, b),
            None => None::<Engine>,
        },
    decreases a.len(),
{
    if a.len() == 0 {
        assert(a + b =~= b);
    } else {
        assert((a + b)[0] == a[0]);
        assert((a + b).drop_first() =~= a.drop_first() + b);
        if let Some(n) = step(e, a[0]) {
            lemma_run_append(n, a.drop_first(), b);
        }
    }
}

/// Any run of stores keeps an idle engine idle.
proof fn lemma_stores_in_idle(e: Engine, s: Seq<UarteOp>)
    requires
        e.state == EngineState::Idle,
        forall|i: int| 0 <= i < s.len() ==> #[trigger] s[i] is StoreByte,
    ensures
        run(e, s) matches Some(m) && m.state == EngineState::Idle,
    decreases s.len(),
{
    if s.len() > 0 {
        let n = Engine { fenced: false, ..e };
        assert(s[0] is StoreByte);
        assert(step(e, s[0]) == Some(n));
        assert forall|i: int| 0 <= i < s.drop_first().len() implies #[trigger] s.drop_first()[i] is StoreByte by {
            assert(s[i + 1] is StoreByte);
        }
        lemma_stores_in_idle(n, s.drop_first());
    }
}

/// Filling the transmit block and sending it is accepted from an idle
/// engine and leaves it settled: the fence that opens the transmit comes
/// after the last store and before the start task.
pub proof fn lemma_frame_write_follows_protocol(
    e: Engine,
    addr: u32,
    bytes: Seq<u8>,
    tx_len: u16,
)
    requires
        e.state == EngineState::Idle,
        0 < tx_len <= EASY_DMA_MAX,
    ensures
        settled(run(e, store_ops(addr, bytes) + transmit_ops(addr, tx_len))),
{
    lemma_stores_in_idle(e, store_ops(addr, bytes));
    lemma_run_append(e, store_ops(addr, bytes), transmit_ops(addr, tx_len));
    let m = run(e, store_ops(addr, bytes))->Some_0;
    lemma_transmit_follows_protocol(m, addr, tx_len);
}

} // verus!
