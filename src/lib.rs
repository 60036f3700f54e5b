//! Driver and task logic for an nRF52840 development board: a DMA serial
//! engine (UARTE) and the legacy UART, NFC field sensing, the fixed-address
//! DMA buffer pool, the scheduler's priority rules and the application's
//! task decisions.
//!
//! The drivers do not touch hardware. Each operation returns the register
//! program it needs (writes, event waits and compiler fences, in order),
//! and takes the register values it must decide on as arguments; the
//! firmware performs the programs on the peripherals.

pub mod can;
pub mod dma;
pub mod nfct;
pub mod protocol;
pub mod sched;
pub mod tasks;
pub mod timer;
pub mod tx_frame;
pub mod uart;
pub mod uarte;
