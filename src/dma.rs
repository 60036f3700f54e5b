//! The fixed-address DMA buffer pool.
//!
//! The pool sits at the start of SRAM; each buffer is known by its absolute
//! address, which is what an EasyDMA engine is programmed with.
use vstd::prelude::*;

verus! {

/// Start of SRAM on the reference board.
pub const RAM: u32 = 0x2000_0000;

/// Size of SRAM on the reference board (256 KiB).
pub const RAM_SIZE: u32 = 0x0004_0000;

/// Outbound UART DMA buffer.
pub const UARTE_TX_BUF_DEF: u32 = 0x2000_0000;

pub const UARTE_TX_BUF_MAXLEN: u16 = 4;

/// Inbound UART DMA buffer.
pub const UARTE_RX_BUF_DEF: u32 = 0x2000_0044;

pub const UARTE_RX_BUF_MAXLEN: u8 = 8;

/// I2C master payload buffer.
pub const I2C_DATA_BUF: u32 = 0x2000_004C;

pub const I2C_DATA_BUF_LEN: u32 = 512;

/// The buffers of the pool.
#[derive(Clone, Copy, Debug, PartialEq, Eq, Structural)]
pub enum DmaRegion {
    UarteTx,
    UarteRx,
    I2c,
}

pub open spec fn region_base(r: DmaRegion) -> u32 {
    match r {
        DmaRegion::UarteTx => UARTE_TX_BUF_DEF,
        DmaRegion::UarteRx => UARTE_RX_BUF_DEF,
        DmaRegion::I2c => I2C_DATA_BUF,
    }
}

pub open spec fn region_capacity(r: DmaRegion) -> u32 {
    match r {
        DmaRegion::UarteTx => UARTE_TX_BUF_MAXLEN as u32,
        DmaRegion::UarteRx => UARTE_RX_BUF_MAXLEN as u32,
        DmaRegion::I2c => I2C_DATA_BUF_LEN,
    }
}

/// Whether two buffers share a byte.
pub open spec fn overlaps(a: DmaRegion, b: DmaRegion) -> bool {
    region_base(a) < region_base(b) + region_capacity(b) && region_base(b) < region_base(a)
        + region_capacity(a)
}

/// Whether a buffer lies wholly in SRAM.
pub open spec fn in_sram(r: DmaRegion) -> bool {
    RAM <= region_base(r) && region_base(r) + region_capacity(r) <= RAM + RAM_SIZE
}

/// The layout of the pool: the receive buffer follows the transmit area at
/// `0x2000_0040`, the I2C buffer follows the receive buffer, and distinct
/// buffers never overlap, all lying in SRAM.
pub proof fn lemma_pool_layout(a: DmaRegion, b: DmaRegion)
    ensures
        region_base(DmaRegion::UarteTx) == RAM,
        region_base(DmaRegion::UarteRx) == 0x2000_0040 + UARTE_TX_BUF_MAXLEN,
        region_base(DmaRegion::I2c) == region_base(DmaRegion::UarteRx) + UARTE_RX_BUF_MAXLEN,
        a != b ==> !overlaps(a, b),
        in_sram(a),
{
}

/// The bytes placed in the transmit buffer at start-up: a newline and "123".
pub fn boot_tx_frame() -> (r: [u8; 4])
    ensures
        r@ == seq![0x0Au8, 0x31u8, 0x32u8, 0x33u8],
{
    let r: [u8; 4] = [0x0A, 0x31, 0x32, 0x33];
    assert(r@ =~= seq![0x0Au8, 0x31u8, 0x32u8, 0x33u8]);
    r
}

/// Handle of the pool. There is one pool; its owner hands the buffer
/// addresses to the DMA engines.
pub struct DmaBuffor {}

impl DmaBuffor {
    pub fn new() -> (r: DmaBuffor) {
        DmaBuffor {}
    }

    /// Absolute address of a buffer.
    pub fn address(&self, region: DmaRegion) -> (r: u32)
        ensures
            r == region_base(region),
    {
        match region {
            DmaRegion::UarteTx => UARTE_TX_BUF_DEF,
            DmaRegion::UarteRx => UARTE_RX_BUF_DEF,
            DmaRegion::I2c => I2C_DATA_BUF,
        }
    }

    /// Capacity of a buffer in bytes.
    pub fn capacity(&self, region: DmaRegion) -> (r: u32)
        ensures
            r == region_capacity(region),
    {
        match region {
            DmaRegion::UarteTx => UARTE_TX_BUF_MAXLEN as u32,
            DmaRegion::UarteRx => UARTE_RX_BUF_MAXLEN as u32,
            DmaRegion::I2c => I2C_DATA_BUF_LEN,
        }
    }

    pub fn uarte_tx(&self) -> (r: u32)
        ensures
            r == UARTE_TX_BUF_DEF,
    {
        self.address(DmaRegion::UarteTx)
    }

    pub fn uarte_rx(&self) -> (r: u32)
        ensures
            r == UARTE_RX_BUF_DEF,
    {
        self.address(DmaRegion::UarteRx)
    }

    pub fn i2c(&self) -> (r: u32)
        ensures
            r == I2C_DATA_BUF,
    {
        self.address(DmaRegion::I2c)
    }
}

} // verus!
