//! Driver logic for the legacy serial engine without DMA (UART), which
//! moves one byte at a time through its TXD and RXD registers.
use vstd::prelude::*;
use crate::uarte::{Baudrate, Parity, PinSelect, Pins};
use vstd::string::StringSliceAdditionalSpecFns;

verus! {

/// Length of a command frame.
pub const COMMAND_LEN: usize = 6;

/// Task registers of the UART.
#[derive(Clone, Copy, Debug, PartialEq, Eq, Structural)]
pub enum UartTask {
    StartTx,
    StopTx,
    StartRx,
    StopRx,
}

/// Event registers of the UART.
#[derive(Clone, Copy, Debug, PartialEq, Eq, Structural)]
pub enum UartEvent {
    TxdRdy,
    RxdRdy,
}

/// One step of a UART register program.
#[derive(Clone, Copy, Debug, PartialEq, Eq, Structural)]
pub enum UartOp {
    /// Write 1 to a task register.
    Trigger(UartTask),
    /// Write 0 to an event register.
    ClearEvent(UartEvent),
    /// Spin until the event register reads non-zero.
    AwaitEvent(UartEvent),
    /// Write a byte to TXD.
    WriteTxd(u8),
    Enable,
    Disable,
    Connect(PinSelect, u32),
    Disconnect(PinSelect),
    DriveTxdHigh,
    Configure(bool, Parity),
    SetBaudrate(Baudrate),
    /// Unmask the RXD-ready interrupt.
    EnableRxdRdyInterrupt,
}

pub open spec fn uart_psel_op(sel: PinSelect, pin: Option<u32>) -> UartOp {
    match pin {
        Some(p) => UartOp::Connect(sel, p),
        None => UartOp::Disconnect(sel),
    }
}

/// The program of `Uart::new`; `enabled` is whether ENABLE read non-zero.
pub open spec fn uart_init_ops(pins: Pins, parity: Parity, baudrate: Baudrate, enabled: bool) -> Seq<
    UartOp,
> {
    (if enabled {
        seq![UartOp::Trigger(UartTask::StopTx), UartOp::Disable]
    } else {
        seq![]
    }) + seq![
        UartOp::Connect(PinSelect::Rxd, pins.rxd),
        UartOp::DriveTxdHigh,
        UartOp::Connect(PinSelect::Txd, pins.txd),
        uart_psel_op(PinSelect::Cts, pins.cts),
        uart_psel_op(PinSelect::Rts, pins.rts),
        UartOp::Configure(pins.cts.is_some() && pins.rts.is_some(), parity),
        UartOp::SetBaudrate(baudrate),
        UartOp::Enable,
        UartOp::EnableRxdRdyInterrupt,
    ]
}

/// Sending one byte while the transmitter runs: write it, wait for
/// `txdrdy`, clear the event.
pub open spec fn send_ops(b: u8) -> Seq<UartOp> {
    seq![
        UartOp::WriteTxd(b),
        UartOp::AwaitEvent(UartEvent::TxdRdy),
        UartOp::ClearEvent(UartEvent::TxdRdy),
    ]
}

/// Sending each of `bytes` in turn.
pub open spec fn bytes_ops(bytes: Seq<u8>) -> Seq<UartOp>
    decreases bytes.len(),
{
    if bytes.len() == 0 {
        seq![]
    } else {
        bytes_ops(bytes.drop_last()) + send_ops(bytes.last())
    }
}

/// A whole transmission: start, each byte, stop.
pub open spec fn transmission_ops(bytes: Seq<u8>) -> Seq<UartOp> {
    seq![UartOp::Trigger(UartTask::StartTx)] + bytes_ops(bytes) + seq![
        UartOp::Trigger(UartTask::StopTx),
    ]
}

/// Waiting for a received byte and releasing the event.
pub open spec fn read_byte_ops() -> Seq<UartOp> {
    seq![UartOp::AwaitEvent(UartEvent::RxdRdy), UartOp::ClearEvent(UartEvent::RxdRdy)]
}

/// The byte held in the low bits of RXD.
pub open spec fn rxd_byte(rxd: u32) -> u8 {
    (rxd % 256) as u8
}

fn uart_psel(sel: PinSelect, pin: Option<u32>) -> (r: UartOp)
    ensures
        r == uart_psel_op(sel, pin),
{
    match pin {
        Some(p) => UartOp::Connect(sel, p),
        None => UartOp::Disconnect(sel),
    }
}

/// Appends the sending of each byte of `bytes`.
fn push_bytes(ops: &mut Vec<UartOp>, bytes: &[u8])
    ensures
        final(ops)@ == old(ops)@ + bytes_ops(bytes@),
{
    let ghost start = ops@;
    let mut i: usize = 0;
    while i < bytes.len()
        invariant
            i <= bytes@.len(),
            ops@ == start + bytes_ops(bytes@.take(i as int)),
        decreases bytes@.len() - i,
    {
        let b = bytes[i];
        ops.push(UartOp::WriteTxd(b));
        ops.push(UartOp::AwaitEvent(UartEvent::TxdRdy));
        ops.push(UartOp::ClearEvent(UartEvent::TxdRdy));
        proof {
            let next = bytes@.take(i as int + 1);
            assert(next.drop_last() =~= bytes@.take(i as int));
            assert(next.last() == b);
        }
        i = i + 1;
        assert(ops@ =~= start + bytes_ops(bytes@.take(i as int)));
    }
    assert(bytes@.take(i as int) =~= bytes@);
}

/// Handle of the enabled UART.
pub struct Uart {}

impl Uart {
    /// Brings the engine up; `enable` is the ENABLE register read on entry.
    /// A running engine is stopped and disabled first.
    pub fn new(pins: Pins, parity: Parity, baudrate: Baudrate, enable: u32) -> (r: (
        Uart,
        Vec<UartOp>,
    ))
        ensures
            r.1@ == uart_init_ops(pins, parity, baudrate, enable != 0),
    {
        let mut ops: Vec<UartOp> = Vec::new();
        if enable != 0 {
            ops.push(UartOp::Trigger(UartTask::StopTx));
            ops.push(UartOp::Disable);
        }
        ops.push(UartOp::Connect(PinSelect::Rxd, pins.rxd));
        ops.push(UartOp::DriveTxdHigh);
        ops.push(UartOp::Connect(PinSelect::Txd, pins.txd));
        ops.push(uart_psel(PinSelect::Cts, pins.cts));
        ops.push(uart_psel(PinSelect::Rts, pins.rts));
        let hardware_flow_control = pins.rts.is_some() && pins.cts.is_some();
        ops.push(UartOp::Configure(hardware_flow_control, parity));
        ops.push(UartOp::SetBaudrate(baudrate));
        ops.push(UartOp::Enable);
        ops.push(UartOp::EnableRxdRdyInterrupt);
        assert(ops@ =~= uart_init_ops(pins, parity, baudrate, enable != 0));
        (Uart {}, ops)
    }

    /// Writes one byte to TXD, with the transmitter already running.
    pub fn write_byte(&mut self, byte: u8) -> (r: Vec<UartOp>)
        ensures
            r@ == seq![UartOp::WriteTxd(byte)],
    {
        let mut ops: Vec<UartOp> = Vec::new();
        ops.push(UartOp::WriteTxd(byte));
        assert(ops@ =~= seq![UartOp::WriteTxd(byte)]);
        ops
    }

    /// Sends the bytes of `string`; the same program as `transmit_str`.
    pub fn write_str(&mut self, string: &str) -> (r: Vec<UartOp>)
        ensures
            r@ == transmission_ops(string.spec_bytes()),
    {
        self.transmit_str(string)
    }

    /// Sends one byte.
    pub fn transmit_byte(&mut self, byte: u8) -> (r: Vec<UartOp>)
        ensures
            r@ == transmission_ops(seq![byte]),
    {
        let mut ops: Vec<UartOp> = Vec::new();
        ops.push(UartOp::Trigger(UartTask::StartTx));
        ops.push(UartOp::WriteTxd(byte));
        ops.push(UartOp::AwaitEvent(UartEvent::TxdRdy));
        ops.push(UartOp::ClearEvent(UartEvent::TxdRdy));
        ops.push(UartOp::Trigger(UartTask::StopTx));
        proof {
            reveal_with_fuel(bytes_ops, 2);
            assert(seq![byte].drop_last() =~= Seq::<u8>::empty());
        }
        assert(ops@ =~= transmission_ops(seq![byte]));
        ops
    }

    /// Sends the bytes of `string` in one transmission.
    pub fn transmit_str(&mut self, string: &str) -> (r: Vec<UartOp>)
        ensures
            r@ == transmission_ops(string.spec_bytes()),
    {
        let mut ops: Vec<UartOp> = Vec::new();
        ops.push(UartOp::Trigger(UartTask::StartTx));
        push_bytes(&mut ops, string.as_bytes());
        ops.push(UartOp::Trigger(UartTask::StopTx));
        assert(ops@ =~= transmission_ops(string.spec_bytes()));
        ops
    }

    /// Sends a command frame in one transmission.
    pub fn transmit_frame(&mut self, frame: [u8; 6]) -> (r: Vec<UartOp>)
        ensures
            r@ == transmission_ops(frame@),
    {
        let mut ops: Vec<UartOp> = Vec::new();
        ops.push(UartOp::Trigger(UartTask::StartTx));
        push_bytes(&mut ops, frame.as_slice());
        ops.push(UartOp::Trigger(UartTask::StopTx));
        assert(ops@ =~= transmission_ops(frame@));
        ops
    }

    /// Takes the byte from RXD (read before the wait, as the engine holds
    /// it), then waits for `rxdrdy` and releases the event.
    pub fn read_byte(&mut self, rxd: u32) -> (r: (u8, Vec<UartOp>))
        ensures
            r.0 == rxd_byte(rxd),
            r.1@ == read_byte_ops(),
    {
        let byte = (rxd % 256) as u8;
        let mut ops = self.wait_for_byte();
        let mut clear = self.clear_rxdrdy();
        ops.append(&mut clear);
        assert(ops@ =~= read_byte_ops());
        (byte, ops)
    }

    /// Releases the RXD-ready event.
    pub fn clear_rxdrdy(&mut self) -> (r: Vec<UartOp>)
        ensures
            r@ == seq![UartOp::ClearEvent(UartEvent::RxdRdy)],
    {
        let mut ops: Vec<UartOp> = Vec::new();
        ops.push(UartOp::ClearEvent(UartEvent::RxdRdy));
        assert(ops@ =~= seq![UartOp::ClearEvent(UartEvent::RxdRdy)]);
        ops
    }

    /// Waits until a byte has been received.
    pub fn wait_for_byte(&mut self) -> (r: Vec<UartOp>)
        ensures
            r@ == seq![UartOp::AwaitEvent(UartEvent::RxdRdy)],
    {
        let mut ops: Vec<UartOp> = Vec::new();
        ops.push(UartOp::AwaitEvent(UartEvent::RxdRdy));
        assert(ops@ =~= seq![UartOp::AwaitEvent(UartEvent::RxdRdy)]);
        ops
    }

    /// Starts reading a command frame: the program starts the receiver,
    /// and the returned reader collects the frame byte by byte.
    pub fn read_command(&mut self) -> (r: (CommandReader, Vec<UartOp>))
        ensures
            r.0.spec_bytes() == Seq::<u8>::empty(),
            r.1@ == seq![UartOp::Trigger(UartTask::StartRx)],
    {
        let mut ops: Vec<UartOp> = Vec::new();
        ops.push(UartOp::Trigger(UartTask::StartRx));
        assert(ops@ =~= seq![UartOp::Trigger(UartTask::StartRx)]);
        (CommandReader { bytes: Vec::new() }, ops)
    }
}

/// A command frame being read from the UART.
pub struct CommandReader {
    bytes: Vec<u8>,
}

impl CommandReader {
    /// The bytes received so far.
    pub closed spec fn spec_bytes(&self) -> Seq<u8> {
        self.bytes@
    }

    /// Whether the whole frame has been received.
    pub fn is_complete(&self) -> (r: bool)
        ensures
            r == (self.spec_bytes().len() >= COMMAND_LEN),
    {
        self.bytes.len() >= COMMAND_LEN
    }

    /// Takes the next byte of the frame from RXD; same program as
    /// `Uart::read_byte`.
    pub fn receive(&mut self, uart: &mut Uart, rxd: u32) -> (r: Vec<UartOp>)
        requires
            old(self).spec_bytes().len() < COMMAND_LEN,
        ensures
            final(self).spec_bytes() == old(self).spec_bytes().push(rxd_byte(rxd)),
            r@ == read_byte_ops(),
    {
        let (byte, ops) = uart.read_byte(rxd);
        self.bytes.push(byte);
        ops
    }

    /// Echoes the received frame and stops the receiver.
    pub fn finish(self, uart: &mut Uart) -> (r: Vec<UartOp>)
        requires
            self.spec_bytes().len() == COMMAND_LEN,
        ensures
            r@ == transmission_ops(self.spec_bytes()) + seq![UartOp::Trigger(UartTask::StopRx)],
    {
        let frame: [u8; 6] = [
            self.bytes[0],
            self.bytes[1],
            self.bytes[2],
            self.bytes[3],
            self.bytes[4],
            self.bytes[5],
        ];
        assert(frame@ =~= self.bytes@);
        let mut ops = uart.transmit_frame(frame);
        ops.push(UartOp::Trigger(UartTask::StopRx));
        ops
    }
}

} // verus!
