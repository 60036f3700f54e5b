//! A second DMA serial link on the UARTE, transmit only.
use vstd::prelude::*;
use crate::uarte::{
    push_init, setup_ops, shutdown_ops, transmit_ops, transmit_program, Baudrate, Error, Parity,
    Pins, UarteOp, EASY_DMA_MAX,
};

verus! {

/// The program of `CanProtocol::new`: as for the UARTE, without unmasking
/// the CTS interrupt.
pub open spec fn can_init_ops(pins: Pins, parity: Parity, baudrate: Baudrate, enabled: bool) -> Seq<
    UarteOp,
> {
    shutdown_ops(enabled) + setup_ops(pins, parity, baudrate)
}

/// Transmit-only handle of an enabled UARTE.
pub struct CanProtocol {
    hwfc: bool,
}

impl CanProtocol {
    pub closed spec fn spec_flow_control(&self) -> bool {
        self.hwfc
    }

    /// Brings the engine up; `enable` is the ENABLE register read on entry.
    pub fn new(pins: Pins, parity: Parity, baudrate: Baudrate, enable: u32) -> (r: (
        CanProtocol,
        Vec<UarteOp>,
    ))
        ensures
            r.1@ == can_init_ops(pins, parity, baudrate, enable != 0),
            r.0.spec_flow_control() == (pins.cts.is_some() && pins.rts.is_some()),
    {
        let mut ops: Vec<UarteOp> = Vec::new();
        push_init(&mut ops, pins, parity, baudrate, enable != 0);
        assert(ops@ =~= can_init_ops(pins, parity, baudrate, enable != 0));
        (CanProtocol { hwfc: pins.rts.is_some() && pins.cts.is_some() }, ops)
    }

    /// Transmits `tx_len` bytes from the DMA buffer at `tx_buffor`.
    pub fn transmit(&mut self, tx_buffor: u32, tx_len: u16) -> (r: Result<Vec<UarteOp>, Error>)
        ensures
            tx_len == 0 ==> r == Err::<Vec<UarteOp>, Error>(Error::TxBufferTooSmall),
            tx_len > EASY_DMA_MAX ==> r == Err::<Vec<UarteOp>, Error>(Error::TxBufferTooLong),
            0 < tx_len <= EASY_DMA_MAX ==> r is Ok && r->Ok_0@ == transmit_ops(tx_buffor, tx_len),
            *final(self) == *old(self),
    {
        transmit_program(tx_buffor, tx_len)
    }
}

} // verus!
