//! Driver logic for the DMA-capable serial engine (UARTE).
//!
//! Every operation yields the exact register program it needs: the writes,
//! the event waits and the compiler fences, in order. Whoever owns the
//! peripheral performs the program, spinning on each awaited event.
use vstd::prelude::*;

verus! {

/// Largest EasyDMA transfer length of the UARTE: 255 bytes, the value of the
/// reference device. The HAL's `EASY_DMA_SIZE` for the nRF52840 build is
/// 65535, the limit of later silicon; the smaller bound is kept so that
/// lengths valid here are valid on every revision.
pub const EASY_DMA_MAX: u16 = 255;

/// Transaction-parameter errors of the serial engines.
#[derive(Clone, Copy, Debug, PartialEq, Eq, Structural)]
pub enum Error {
    TxBufferTooSmall,
    TxBufferTooLong,
    RxBufferTooSmall,
    RxBufferTooLong,
}

/// Parity setting of the CONFIG register.
#[allow(non_camel_case_types)]
#[derive(Clone, Copy, Debug, PartialEq, Eq, Structural)]
pub enum Parity {
    EXCLUDED,
    INCLUDED,
}

/// Baud rates of the BAUDRATE register.
#[allow(non_camel_case_types)]
#[derive(Clone, Copy, Debug, PartialEq, Eq, Structural)]
pub enum Baudrate {
    BAUD1200,
    BAUD2400,
    BAUD4800,
    BAUD9600,
    BAUD14400,
    BAUD19200,
    BAUD28800,
    BAUD31250,
    BAUD38400,
    BAUD56000,
    BAUD57600,
    BAUD76800,
    BAUD115200,
    BAUD230400,
    BAUD250000,
    BAUD460800,
    BAUD921600,
    BAUD1M,
}

/// Task registers of the UARTE.
#[derive(Clone, Copy, Debug, PartialEq, Eq, Structural)]
pub enum Task {
    StartTx,
    StopTx,
    StartRx,
    StopRx,
    FlushRx,
}

/// Event registers of the UARTE.
#[derive(Clone, Copy, Debug, PartialEq, Eq, Structural)]
pub enum Event {
    EndTx,
    TxStopped,
    EndRx,
    RxTo,
    Cts,
}

/// Pin-select registers of the UARTE.
#[derive(Clone, Copy, Debug, PartialEq, Eq, Structural)]
pub enum PinSelect {
    Rxd,
    Txd,
    Cts,
    Rts,
}

/// One step of a register program.
#[derive(Clone, Copy, Debug, PartialEq, Eq, Structural)]
pub enum UarteOp {
    /// Full-ordering compiler fence.
    Fence,
    /// Write 1 to a task register.
    Trigger(Task),
    /// Write 0 to an event register.
    ClearEvent(Event),
    /// Spin until the event register reads non-zero.
    AwaitEvent(Event),
    /// Spin until the event register reads zero.
    AwaitEventCleared(Event),
    SetTxdPtr(u32),
    SetTxdMaxcnt(u16),
    SetRxdPtr(u32),
    SetRxdMaxcnt(u16),
    /// Write "enabled" to ENABLE.
    Enable,
    /// Write "disabled" to ENABLE.
    Disable,
    /// Select a pin (its PSEL bits) and connect it.
    Connect(PinSelect, u32),
    /// Leave a pin-select register disconnected.
    Disconnect(PinSelect),
    /// Drive the TX pin high before it is handed to the engine.
    DriveTxdHigh,
    /// Write CONFIG: hardware flow control and parity.
    Configure(bool, Parity),
    SetBaudrate(Baudrate),
    /// Unmask the CTS-asserted interrupt.
    EnableCtsInterrupt,
    /// Volatile store of a byte into DMA memory at an absolute address.
    StoreByte(u32, u8),
}

/// The pins of a serial engine, as PSEL bits (pin number and port).
#[derive(Clone, Copy, Debug, PartialEq, Eq, Structural)]
pub struct Pins {
    pub rxd: u32,
    pub txd: u32,
    pub cts: Option<u32>,
    pub rts: Option<u32>,
}

/// Where the receive side of the engine stands between two programs.
#[derive(Clone, Copy, Debug, PartialEq, Eq, Structural)]
pub enum RxPhase {
    /// No reception in flight.
    Idle,
    /// A reception was started and has not been waited for.
    Receiving,
    /// A reception was cut short and flushed; `endrx` is still latched.
    Flushed,
}

// ---------------------------------------------------------------------------
// Programs
// ---------------------------------------------------------------------------

/// Hardware flow control is used iff both CTS and RTS are wired.
pub open spec fn hwfc_of(pins: Pins) -> bool {
    pins.cts.is_some() && pins.rts.is_some()
}

pub open spec fn psel_op(sel: PinSelect, pin: Option<u32>) -> UarteOp {
    match pin {
        Some(p) => UarteOp::Connect(sel, p),
        None => UarteOp::Disconnect(sel),
    }
}

/// Stop an engine that a bootloader left running, then disable it.
pub open spec fn shutdown_ops(enabled: bool) -> Seq<UarteOp> {
    if enabled {
        seq![UarteOp::Trigger(Task::StopTx), UarteOp::AwaitEvent(Event::TxStopped), UarteOp::Disable]
    } else {
        seq![]
    }
}

/// Pin selection, configuration and enabling.
pub open spec fn setup_ops(pins: Pins, parity: Parity, baudrate: Baudrate) -> Seq<UarteOp> {
    seq![
        UarteOp::Connect(PinSelect::Rxd, pins.rxd),
        UarteOp::DriveTxdHigh,
        UarteOp::Connect(PinSelect::Txd, pins.txd),
        psel_op(PinSelect::Cts, pins.cts),
        psel_op(PinSelect::Rts, pins.rts),
        UarteOp::Configure(hwfc_of(pins), parity),
        UarteOp::SetBaudrate(baudrate),
        UarteOp::Enable,
    ]
}

/// The program of `Uarte::new`; `enabled` is whether ENABLE read non-zero.
pub open spec fn init_ops(pins: Pins, parity: Parity, baudrate: Baudrate, enabled: bool) -> Seq<
    UarteOp,
> {
    shutdown_ops(enabled) + setup_ops(pins, parity, baudrate).push(UarteOp::EnableCtsInterrupt)
}

pub open spec fn start_transmit_ops(addr: u32, len: u16) -> Seq<UarteOp> {
    seq![
        UarteOp::Fence,
        UarteOp::ClearEvent(Event::EndTx),
        UarteOp::ClearEvent(Event::TxStopped),
        UarteOp::SetTxdPtr(addr),
        UarteOp::SetTxdMaxcnt(len),
        UarteOp::Trigger(Task::StartTx),
    ]
}

pub open spec fn stop_transmit_ops() -> Seq<UarteOp> {
    seq![UarteOp::Trigger(Task::StopTx), UarteOp::AwaitEvent(Event::TxStopped)]
}

/// The program of a successful transmit.
pub open spec fn transmit_ops(addr: u32, len: u16) -> Seq<UarteOp> {
    start_transmit_ops(addr, len) + seq![
        UarteOp::AwaitEvent(Event::EndTx),
        UarteOp::Fence,
        UarteOp::ClearEvent(Event::TxStopped),
    ] + stop_transmit_ops()
}

/// The error of a transmit of `len` bytes, if any.
pub open spec fn tx_len_error(len: u16) -> Option<Error> {
    if len == 0 {
        Some(Error::TxBufferTooSmall)
    } else if len > EASY_DMA_MAX {
        Some(Error::TxBufferTooLong)
    } else {
        None
    }
}

/// The error of a receive of `len` bytes, if any.
pub open spec fn rx_len_error(len: u8) -> Option<Error> {
    if len == 0 {
        Some(Error::RxBufferTooSmall)
    } else if len > EASY_DMA_MAX {
        Some(Error::RxBufferTooLong)
    } else {
        None
    }
}

pub open spec fn start_receive_ops(addr: u32, len: u8) -> Seq<UarteOp> {
    seq![
        UarteOp::Fence,
        UarteOp::SetRxdPtr(addr),
        UarteOp::SetRxdMaxcnt(len as u16),
        UarteOp::Trigger(Task::StartRx),
    ]
}

pub open spec fn finalize_receive_ops() -> Seq<UarteOp> {
    seq![UarteOp::ClearEvent(Event::EndRx), UarteOp::Fence]
}

/// The program of a complete receive.
pub open spec fn receive_ops(addr: u32, len: u8) -> Seq<UarteOp> {
    start_receive_ops(addr, len).push(UarteOp::AwaitEvent(Event::EndRx)) + finalize_receive_ops()
}

pub open spec fn cancel_receive_ops() -> Seq<UarteOp> {
    seq![
        UarteOp::Trigger(Task::StopRx),
        UarteOp::AwaitEvent(Event::RxTo),
        UarteOp::ClearEvent(Event::RxTo),
        UarteOp::Trigger(Task::FlushRx),
        UarteOp::AwaitEvent(Event::EndRx),
    ]
}

pub open spec fn clear_cts_ops() -> Seq<UarteOp> {
    seq![UarteOp::ClearEvent(Event::Cts), UarteOp::AwaitEventCleared(Event::Cts)]
}

/// Whether bit 0 of an event register is set.
pub open spec fn event_set(reg: u32) -> bool {
    reg % 2 == 1
}

pub(crate) fn bit0_set(reg: u32) -> (r: bool)
    ensures
        r == event_set(reg),
{
    let r = reg & 1 == 1;
    assert((reg & 1 == 1) == (reg % 2 == 1)) by (bit_vector);
    r
}

fn psel(sel: PinSelect, pin: Option<u32>) -> (r: UarteOp)
    ensures
        r == psel_op(sel, pin),
{
    match pin {
        Some(p) => UarteOp::Connect(sel, p),
        None => UarteOp::Disconnect(sel),
    }
}

/// Appends the shutdown and setup steps shared by the DMA serial drivers.
pub(crate) fn push_init(
    ops: &mut Vec<UarteOp>,
    pins: Pins,
    parity: Parity,
    baudrate: Baudrate,
    enabled: bool,
)
    ensures
        final(ops)@ == old(ops)@ + shutdown_ops(enabled) + setup_ops(pins, parity, baudrate),
{
    let ghost start = ops@;
    if enabled {
        ops.push(UarteOp::Trigger(Task::StopTx));
        ops.push(UarteOp::AwaitEvent(Event::TxStopped));
        ops.push(UarteOp::Disable);
    }
    assert(ops@ =~= start + shutdown_ops(enabled));
    let ghost mid = ops@;
    ops.push(UarteOp::Connect(PinSelect::Rxd, pins.rxd));
    ops.push(UarteOp::DriveTxdHigh);
    ops.push(UarteOp::Connect(PinSelect::Txd, pins.txd));
    ops.push(psel(PinSelect::Cts, pins.cts));
    ops.push(psel(PinSelect::Rts, pins.rts));
    let hardware_flow_control = pins.rts.is_some() && pins.cts.is_some();
    ops.push(UarteOp::Configure(hardware_flow_control, parity));
    ops.push(UarteOp::SetBaudrate(baudrate));
    ops.push(UarteOp::Enable);
    assert(ops@ =~= mid + setup_ops(pins, parity, baudrate));
}

/// Appends the start of a transmission: fence, event resets, pointer,
/// length and the start task.
pub(crate) fn start_transmit(ops: &mut Vec<UarteOp>, tx_buffor: u32, tx_len: u16)
    ensures
        final(ops)@ == old(ops)@ + start_transmit_ops(tx_buffor, tx_len),
{
    let ghost start = ops@;
    ops.push(UarteOp::Fence);
    ops.push(UarteOp::ClearEvent(Event::EndTx));
    ops.push(UarteOp::ClearEvent(Event::TxStopped));
    ops.push(UarteOp::SetTxdPtr(tx_buffor));
    ops.push(UarteOp::SetTxdMaxcnt(tx_len));
    ops.push(UarteOp::Trigger(Task::StartTx));
    assert(ops@ =~= start + start_transmit_ops(tx_buffor, tx_len));
}

/// Appends the stop task and the wait for `txstopped`.
pub(crate) fn stop_transmit(ops: &mut Vec<UarteOp>)
    ensures
        final(ops)@ == old(ops)@ + stop_transmit_ops(),
{
    let ghost start = ops@;
    ops.push(UarteOp::Trigger(Task::StopTx));
    ops.push(UarteOp::AwaitEvent(Event::TxStopped));
    assert(ops@ =~= start + stop_transmit_ops());
}

/// The whole transmit: length checks, then the program of one DMA
/// transmission of `tx_len` bytes at `tx_buffor`.
pub(crate) fn transmit_program(tx_buffor: u32, tx_len: u16) -> (r: Result<Vec<UarteOp>, Error>)
    ensures
        match tx_len_error(tx_len) {
            Some(e) => r == Err::<Vec<UarteOp>, Error>(e),
            None => r is Ok && r->Ok_0@ == transmit_ops(tx_buffor, tx_len),
        },
{
    if tx_len == 0 {
        return Err(Error::TxBufferTooSmall);
    }
    if tx_len > EASY_DMA_MAX {
        return Err(Error::TxBufferTooLong);
    }
    let mut ops: Vec<UarteOp> = Vec::new();
    start_transmit(&mut ops, tx_buffor, tx_len);
    ops.push(UarteOp::AwaitEvent(Event::EndTx));
    ops.push(UarteOp::Fence);
    ops.push(UarteOp::ClearEvent(Event::TxStopped));
    stop_transmit(&mut ops);
    assert(ops@ =~= transmit_ops(tx_buffor, tx_len));
    Ok(ops)
}

// ---------------------------------------------------------------------------
// Properties of the programs
// ---------------------------------------------------------------------------

/// Whether `sub` occurs in `s` in order, not necessarily contiguously.
pub open spec fn in_order(sub: Seq<UarteOp>, s: Seq<UarteOp>) -> bool
    decreases s.len(),
{
    if sub.len() == 0 {
        true
    } else if s.len() == 0 {
        false
    } else if s[0] == sub[0] {
        in_order(sub.drop_first(), s.drop_first())
    } else {
        in_order(sub, s.drop_first())
    }
}

/// How many times `op` occurs in `s`.
pub open spec fn count_of(s: Seq<UarteOp>, op: UarteOp) -> nat
    decreases s.len(),
{
    if s.len() == 0 {
        0
    } else {
        count_of(s.drop_last(), op) + if s.last() == op {
            1nat
        } else {
            0nat
        }
    }
}

/// What ENABLE holds after `s`, starting from `enabled`.
pub open spec fn enabled_after(s: Seq<UarteOp>, enabled: bool) -> bool
    decreases s.len(),
{
    if s.len() == 0 {
        enabled
    } else {
        match s.last() {
            UarteOp::Enable => true,
            UarteOp::Disable => false,
            _ => enabled_after(s.drop_last(), enabled),
        }
    }
}

/// Hot boot: when ENABLE reads non-zero on entry, initialisation waits for
/// `txstopped` exactly once, disables the engine before touching its pins,
/// drives TX high before selecting it, and leaves the engine enabled.
pub proof fn lemma_hot_boot_init(pins: Pins, parity: Parity, baudrate: Baudrate)
    ensures
        count_of(init_ops(pins, parity, baudrate, true), UarteOp::AwaitEvent(Event::TxStopped))
            == 1,
        enabled_after(init_ops(pins, parity, baudrate, true), true),
        in_order(
            seq![
                UarteOp::Trigger(Task::StopTx),
                UarteOp::AwaitEvent(Event::TxStopped),
                UarteOp::Disable,
                UarteOp::DriveTxdHigh,
                UarteOp::Connect(PinSelect::Txd, pins.txd),
                UarteOp::Enable,
            ],
            init_ops(pins, parity, baudrate, true),
        ),
{
    let s = init_ops(pins, parity, baudrate, true);
    reveal_with_fuel(count_of, 13);
    reveal_with_fuel(enabled_after, 2);
    reveal_with_fuel(in_order, 13);
    assert(s =~= seq![
        UarteOp::Trigger(Task::StopTx),
        UarteOp::AwaitEvent(Event::TxStopped),
        UarteOp::Disable,
        UarteOp::Connect(PinSelect::Rxd, pins.rxd),
        UarteOp::DriveTxdHigh,
        UarteOp::Connect(PinSelect::Txd, pins.txd),
        psel_op(PinSelect::Cts, pins.cts),
        psel_op(PinSelect::Rts, pins.rts),
        UarteOp::Configure(hwfc_of(pins), parity),
        UarteOp::SetBaudrate(baudrate),
        UarteOp::Enable,
        UarteOp::EnableCtsInterrupt,
    ]);
}

/// Every successful transmit clears `endtx` and `txstopped`, programs the
/// pointer and the length, starts, waits for `endtx`, clears `txstopped`,
/// stops and waits for `txstopped`, in this order; a fence precedes the
/// start task and another follows the end event.
pub proof fn lemma_transmit_order(tx_buffor: u32, tx_len: u16)
    requires
        0 < tx_len <= EASY_DMA_MAX,
    ensures
        in_order(
            seq![
                UarteOp::ClearEvent(Event::EndTx),
                UarteOp::ClearEvent(Event::TxStopped),
                UarteOp::SetTxdPtr(tx_buffor),
                UarteOp::SetTxdMaxcnt(tx_len),
                UarteOp::Trigger(Task::StartTx),
                UarteOp::AwaitEvent(Event::EndTx),
                UarteOp::ClearEvent(Event::TxStopped),
                UarteOp::Trigger(Task::StopTx),
                UarteOp::AwaitEvent(Event::TxStopped),
            ],
            transmit_ops(tx_buffor, tx_len),
        ),
        in_order(
            seq![
                UarteOp::Fence,
                UarteOp::Trigger(Task::StartTx),
                UarteOp::AwaitEvent(Event::EndTx),
                UarteOp::Fence,
            ],
            transmit_ops(tx_buffor, tx_len),
        ),
{
    let s = transmit_ops(tx_buffor, tx_len);
    reveal_with_fuel(in_order, 12);
    assert(s =~= seq![
        UarteOp::Fence,
        UarteOp::ClearEvent(Event::EndTx),
        UarteOp::ClearEvent(Event::TxStopped),
        UarteOp::SetTxdPtr(tx_buffor),
        UarteOp::SetTxdMaxcnt(tx_len),
        UarteOp::Trigger(Task::StartTx),
        UarteOp::AwaitEvent(Event::EndTx),
        UarteOp::Fence,
        UarteOp::ClearEvent(Event::TxStopped),
        UarteOp::Trigger(Task::StopTx),
        UarteOp::AwaitEvent(Event::TxStopped),
    ]);
}

/// Cancelling a reception writes `stoprx`, waits for `rxto`, clears it,
/// writes `flushrx`, and ends on the wait for `endrx`.
pub proof fn lemma_cancel_receive_order()
    ensures
        in_order(
            seq![
                UarteOp::Trigger(Task::StopRx),
                UarteOp::AwaitEvent(Event::RxTo),
                UarteOp::ClearEvent(Event::RxTo),
                UarteOp::Trigger(Task::FlushRx),
                UarteOp::AwaitEvent(Event::EndRx),
            ],
            cancel_receive_ops(),
        ),
        cancel_receive_ops().last() == UarteOp::AwaitEvent(Event::EndRx),
        count_of(cancel_receive_ops(), UarteOp::AwaitEvent(Event::EndRx)) == 1,
{
    reveal_with_fuel(in_order, 6);
    reveal_with_fuel(count_of, 6);
}

// ---------------------------------------------------------------------------
// Driver
// ---------------------------------------------------------------------------

/// Handle of an enabled UARTE.
pub struct Uarte {
    hwfc: bool,
    rx: RxPhase,
}

impl Uarte {
    /// Whether the engine was configured with hardware flow control.
    pub closed spec fn spec_flow_control(&self) -> bool {
        self.hwfc
    }

    /// Where the receive side stands.
    pub closed spec fn spec_rx_phase(&self) -> RxPhase {
        self.rx
    }

    pub fn flow_control(&self) -> (r: bool)
        ensures
            r == self.spec_flow_control(),
    {
        self.hwfc
    }

    pub fn rx_phase(&self) -> (r: RxPhase)
        ensures
            r == self.spec_rx_phase(),
    {
        self.rx
    }

    /// Brings the engine up. `enable` is the value of the ENABLE register
    /// read on entry: when it is non-zero (a bootloader left the engine on)
    /// the program first stops transmission, waits for `txstopped` and
    /// disables the engine.
    pub fn new(pins: Pins, parity: Parity, baudrate: Baudrate, enable: u32) -> (r: (
        Uarte,
        Vec<UarteOp>,
    ))
        ensures
            r.1@ == init_ops(pins, parity, baudrate, enable != 0),
            r.0.spec_flow_control() == hwfc_of(pins),
            r.0.spec_rx_phase() == RxPhase::Idle,
    {
        let mut ops: Vec<UarteOp> = Vec::new();
        push_init(&mut ops, pins, parity, baudrate, enable != 0);
        ops.push(UarteOp::EnableCtsInterrupt);
        assert(ops@ =~= init_ops(pins, parity, baudrate, enable != 0));
        let hwfc = pins.rts.is_some() && pins.cts.is_some();
        (Uarte { hwfc, rx: RxPhase::Idle }, ops)
    }

    /// Whether the CTS-asserted event is latched, given EVENTS_CTS.
    pub fn is_cts(&mut self, events_cts: u32) -> (r: bool)
        ensures
            r == event_set(events_cts),
            *final(self) == *old(self),
    {
        bit0_set(events_cts)
    }

    /// Clears the CTS-asserted event and waits until it reads clear.
    pub fn clear_cts_event(&mut self) -> (r: Vec<UarteOp>)
        ensures
            r@ == clear_cts_ops(),
            *final(self) == *old(self),
    {
        let mut ops: Vec<UarteOp> = Vec::new();
        ops.push(UarteOp::ClearEvent(Event::Cts));
        ops.push(UarteOp::AwaitEventCleared(Event::Cts));
        assert(ops@ =~= clear_cts_ops());
        ops
    }

    /// Whether the end-of-receive event is latched, given EVENTS_ENDRX.
    pub fn is_ncts(&mut self, events_endrx: u32) -> (r: bool)
        ensures
            r == event_set(events_endrx),
            *final(self) == *old(self),
    {
        bit0_set(events_endrx)
    }

    /// Transmits `tx_len` bytes from the DMA buffer at `tx_buffor`. A length
    /// of zero or above `EASY_DMA_MAX` is refused with an empty program.
    pub fn transmit(&mut self, tx_buffor: u32, tx_len: u16) -> (r: Result<Vec<UarteOp>, Error>)
        ensures
            tx_len == 0 ==> r == Err::<Vec<UarteOp>, Error>(Error::TxBufferTooSmall),
            tx_len > EASY_DMA_MAX ==> r == Err::<Vec<UarteOp>, Error>(Error::TxBufferTooLong),
            0 < tx_len <= EASY_DMA_MAX ==> r is Ok && r->Ok_0@ == transmit_ops(tx_buffor, tx_len),
            *final(self) == *old(self),
    {
        transmit_program(tx_buffor, tx_len)
    }

    /// Starts a reception of `rx_len` bytes into the DMA buffer at
    /// `rx_buffor`, without waiting for it.
    pub fn start_receive(&mut self, rx_buffor: u32, rx_len: u8) -> (r: Result<Vec<UarteOp>, Error>)
        ensures
            rx_len == 0 ==> r == Err::<Vec<UarteOp>, Error>(Error::RxBufferTooSmall)
                && *final(self) == *old(self),
            rx_len > EASY_DMA_MAX ==> r == Err::<Vec<UarteOp>, Error>(Error::RxBufferTooLong)
                && *final(self) == *old(self),
            0 < rx_len <= EASY_DMA_MAX ==> r is Ok && r->Ok_0@ == start_receive_ops(rx_buffor, rx_len)
                && final(self).spec_rx_phase() == RxPhase::Receiving
                && final(self).spec_flow_control() == old(self).spec_flow_control(),
    {
        if rx_len == 0 {
            return Err(Error::RxBufferTooSmall);
        }
        if rx_len as u16 > EASY_DMA_MAX {
            return Err(Error::RxBufferTooLong);
        }
        let mut ops: Vec<UarteOp> = Vec::new();
        ops.push(UarteOp::Fence);
        ops.push(UarteOp::SetRxdPtr(rx_buffor));
        ops.push(UarteOp::SetRxdMaxcnt(rx_len as u16));
        ops.push(UarteOp::Trigger(Task::StartRx));
        assert(ops@ =~= start_receive_ops(rx_buffor, rx_len));
        self.rx = RxPhase::Receiving;
        Ok(ops)
    }

    /// Receives `rx_len` bytes into the DMA buffer at `rx_buffor`: start,
    /// wait for `endrx`, then finalize. RXD.AMOUNT is not read, so a short
    /// reception is not told apart from a full one.
    pub fn receive(&mut self, rx_buffor: u32, rx_len: u8) -> (r: Result<Vec<UarteOp>, Error>)
        ensures
            rx_len == 0 ==> r == Err::<Vec<UarteOp>, Error>(Error::RxBufferTooSmall),
            rx_len > EASY_DMA_MAX ==> r == Err::<Vec<UarteOp>, Error>(Error::RxBufferTooLong),
            0 < rx_len <= EASY_DMA_MAX ==> r is Ok && r->Ok_0@ == receive_ops(rx_buffor, rx_len),
            r is Err ==> *final(self) == *old(self),
            r is Ok ==> final(self).spec_rx_phase() == RxPhase::Idle,
            final(self).spec_flow_control() == old(self).spec_flow_control(),
    {
        let mut ops = match self.start_receive(rx_buffor, rx_len) {
            Ok(ops) => ops,
            Err(e) => return Err(e),
        };
        ops.push(UarteOp::AwaitEvent(Event::EndRx));
        let mut fin = self.finalize_receive();
        ops.append(&mut fin);
        assert(ops@ =~= receive_ops(rx_buffor, rx_len));
        Ok(ops)
    }

    /// Stops an unfinished reception and flushes the FIFO into the DMA
    /// buffer; `endrx` stays latched until `finalize_receive`.
    pub fn cancel_receive(&mut self) -> (r: Vec<UarteOp>)
        ensures
            r@ == cancel_receive_ops(),
            final(self).spec_rx_phase() == RxPhase::Flushed,
            final(self).spec_flow_control() == old(self).spec_flow_control(),
    {
        let mut ops: Vec<UarteOp> = Vec::new();
        ops.push(UarteOp::Trigger(Task::StopRx));
        ops.push(UarteOp::AwaitEvent(Event::RxTo));
        ops.push(UarteOp::ClearEvent(Event::RxTo));
        ops.push(UarteOp::Trigger(Task::FlushRx));
        ops.push(UarteOp::AwaitEvent(Event::EndRx));
        assert(ops@ =~= cancel_receive_ops());
        self.rx = RxPhase::Flushed;
        ops
    }

    /// Clears `endrx` and fences after all DMA activity of a reception.
    pub fn finalize_receive(&mut self) -> (r: Vec<UarteOp>)
        ensures
            r@ == finalize_receive_ops(),
            final(self).spec_rx_phase() == RxPhase::Idle,
            final(self).spec_flow_control() == old(self).spec_flow_control(),
    {
        let mut ops: Vec<UarteOp> = Vec::new();
        ops.push(UarteOp::ClearEvent(Event::EndRx));
        ops.push(UarteOp::Fence);
        assert(ops@ =~= finalize_receive_ops());
        self.rx = RxPhase::Idle;
        ops
    }
}

} // verus!
