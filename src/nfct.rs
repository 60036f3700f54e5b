//! Field-sense driver of the NFC tag peripheral.
use vstd::prelude::*;
use crate::uarte::{bit0_set, event_set};

verus! {

/// INTEN bit of the field-detected event.
pub const INTEN_FIELDDETECTED: u32 = 2;

/// One step of an NFCT register program.
#[derive(Clone, Copy, Debug, PartialEq, Eq, Structural)]
pub enum NfctOp {
    /// Write 1 to TASKS_SENSE.
    TriggerSense,
    /// Write a mask to INTEN.
    SetInten(u32),
    /// Write 0 to EVENTS_FIELDDETECTED.
    ClearFieldDetected,
}

pub open spec fn nfct_init_ops() -> Seq<NfctOp> {
    seq![NfctOp::TriggerSense, NfctOp::SetInten(INTEN_FIELDDETECTED)]
}

/// Handle of the NFCT peripheral in field-sense mode.
pub struct Nfct {}

impl Nfct {
    /// Enters field-sense mode and unmasks the field-detected interrupt.
    pub fn new() -> (r: (Nfct, Vec<NfctOp>))
        ensures
            r.1@ == nfct_init_ops(),
    {
        let mut ops: Vec<NfctOp> = Vec::new();
        ops.push(NfctOp::TriggerSense);
        ops.push(NfctOp::SetInten(INTEN_FIELDDETECTED));
        assert(ops@ =~= nfct_init_ops());
        (Nfct {}, ops)
    }

    /// Whether the field-detected event is latched, given its register.
    pub fn field_detected(&mut self, events_fielddetected: u32) -> (r: bool)
        ensures
            r == event_set(events_fielddetected),
    {
        bit0_set(events_fielddetected)
    }

    /// Clears the field-detected event.
    pub fn reset_events(&mut self) -> (r: Vec<NfctOp>)
        ensures
            r@ == seq![NfctOp::ClearFieldDetected],
    {
        let mut ops: Vec<NfctOp> = Vec::new();
        ops.push(NfctOp::ClearFieldDetected);
        assert(ops@ =~= seq![NfctOp::ClearFieldDetected]);
        ops
    }
}

} // verus!
