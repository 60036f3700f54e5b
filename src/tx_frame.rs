//! Short text frames sent through a fixed UARTE DMA block.
//!
//! A frame is eight bytes: a newline, then up to seven bytes of message,
//! padded with `#`. A message longer than seven bytes is replaced by the
//! default frame, a newline and seven `#`.
use vstd::prelude::*;
use vstd::string::StringSliceAdditionalSpecFns;
use crate::uarte::{transmit_ops, transmit_program, Uarte, UarteOp};

verus! {

/// Address of the transmit frame block.
pub const UARTE_TX_BUF: u32 = 0x2000_1000;

/// Address of the receive frame block, right after the transmit block.
pub const UARTE_RX_BUF: u32 = 0x2000_1008;

pub const FRAME_LEN: usize = 8;

/// First byte of every frame.
pub const FRAME_START: u8 = 0x0A;

/// Padding after the message.
pub const FRAME_FILL: u8 = 0x23;

/// The DMA blocks that frames are sent from and received into. The two
/// blocks are disjoint, so a reception may stay in flight while a frame is
/// sent.
#[derive(Clone, Copy, Debug, PartialEq, Eq, Structural)]
pub struct DmaUarteBuffor {
    pub tx_block: u32,
    pub rx_block: u32,
    pub rx_block_len: usize,
    pub tx_block_len: usize,
}

impl DmaUarteBuffor {
    pub fn new() -> (r: DmaUarteBuffor)
        ensures
            r.tx_block == UARTE_TX_BUF,
            r.rx_block == UARTE_RX_BUF,
            r.tx_block_len == FRAME_LEN,
            r.rx_block_len == FRAME_LEN,
            r.tx_block + r.tx_block_len <= r.rx_block,
    {
        DmaUarteBuffor {
            tx_block: UARTE_TX_BUF,
            rx_block: UARTE_RX_BUF,
            rx_block_len: FRAME_LEN,
            tx_block_len: FRAME_LEN,
        }
    }
}

pub open spec fn default_frame() -> Seq<u8> {
    seq![FRAME_START] + Seq::new(7, |i: int| FRAME_FILL)
}

/// The frame carrying `msg`.
pub open spec fn frame_of(msg: Seq<u8>) -> Seq<u8> {
    if msg.len() > 7 {
        default_frame()
    } else {
        seq![FRAME_START] + msg + Seq::new((7 - msg.len()) as nat, |i: int| FRAME_FILL)
    }
}

/// The length of the message a frame carries: the default message counts
/// all eight bytes.
pub open spec fn message_len(msg: Seq<u8>) -> nat {
    if msg.len() > 7 {
        8
    } else {
        msg.len()
    }
}

/// How many bytes of the frame are sent: the newline and the message.
pub open spec fn sent_len(msg: Seq<u8>) -> nat {
    if msg.len() > 7 {
        8
    } else {
        msg.len() + 1
    }
}

/// Volatile stores of `bytes` from address `addr` on.
pub open spec fn store_ops(addr: u32, bytes: Seq<u8>) -> Seq<UarteOp> {
    Seq::new(bytes.len(), |i: int| UarteOp::StoreByte((addr + i) as u32, bytes[i]))
}

/// Builds the frame for `string`; also returns the message length.
pub fn str_to_frame(string: &str) -> (r: ([u8; 8], usize))
    ensures
        r.0@ == frame_of(string.spec_bytes()),
        r.1 == message_len(string.spec_bytes()),
{
    let msg = string.as_bytes();
    let mut frame: [u8; 8] = [
        FRAME_START,
        FRAME_FILL,
        FRAME_FILL,
        FRAME_FILL,
        FRAME_FILL,
        FRAME_FILL,
        FRAME_FILL,
        FRAME_FILL,
    ];
    if msg.len() > 7 {
        assert(frame@ =~= default_frame());
        return (frame, 8);
    }
    let mut i: usize = 0;
    while i < msg.len()
        invariant
            msg@ == string.spec_bytes(),
            msg@.len() <= 7,
            i <= msg@.len(),
            frame@ =~= seq![FRAME_START] + msg@.take(i as int) + Seq::new(
                (7 - i) as nat,
                |k: int| FRAME_FILL,
            ),
        decreases msg@.len() - i,
    {
        frame[i + 1] = msg[i];
        i = i + 1;
        assert(frame@ =~= seq![FRAME_START] + msg@.take(i as int) + Seq::new(
            (7 - i) as nat,
            |k: int| FRAME_FILL,
        ));
    }
    assert(msg@.take(i as int) =~= msg@);
    (frame, msg.len())
}

/// Appends the stores of a frame into the block at `addr`.
fn push_stores(ops: &mut Vec<UarteOp>, addr: u32, frame: &[u8; 8])
    requires
        addr + 8 <= u32::MAX,
    ensures
        final(ops)@ == old(ops)@ + store_ops(addr, frame@),
{
    let ghost start = ops@;
    let mut i: usize = 0;
    while i < 8
        invariant
            addr + 8 <= u32::MAX,
            i <= 8,
            ops@ =~= start + store_ops(addr, frame@.take(i as int)),
        decreases 8 - i,
    {
        ops.push(UarteOp::StoreByte(addr + i as u32, frame[i]));
        i = i + 1;
        assert(ops@ =~= start + store_ops(addr, frame@.take(i as int)));
    }
    assert(frame@.take(8) =~= frame@);
}

/// Sending frames through a DMA block.
pub trait MyUarte {
    /// Stores the frame of `string` in the transmit block and sends the
    /// newline and the message.
    fn write_string(&mut self, string: &str, dma: &mut DmaUarteBuffor) -> (r: Vec<UarteOp>)
        requires
            old(dma).tx_block + 8 <= u32::MAX,
        ensures
            r@ == store_ops(old(dma).tx_block, frame_of(string.spec_bytes())) + transmit_ops(
                old(dma).tx_block,
                sent_len(string.spec_bytes()) as u16,
            ),
            *final(dma) == *old(dma),
    ;

    /// Stores `frame` in the transmit block and sends all eight bytes.
    fn write_frame(&mut self, frame: [u8; 8], dma: &mut DmaUarteBuffor) -> (r: Vec<UarteOp>)
        requires
            old(dma).tx_block + 8 <= u32::MAX,
        ensures
            r@ == store_ops(old(dma).tx_block, frame@) + transmit_ops(old(dma).tx_block, 8),
            *final(dma) == *old(dma),
    ;
}

impl MyUarte for Uarte {
    fn write_string(&mut self, string: &str, dma: &mut DmaUarteBuffor) -> (r: Vec<UarteOp>) {
        let (frame, len) = str_to_frame(string);
        let mut ops: Vec<UarteOp> = Vec::new();
        push_stores(&mut ops, dma.tx_block, &frame);
        let count: u16 = if len < 8 {
            len as u16 + 1
        } else {
            8
        };
        let mut tx = match transmit_program(dma.tx_block, count) {
            Ok(tx) => tx,
            Err(_) => Vec::new(),
        };
        ops.append(&mut tx);
        ops
    }

    fn write_frame(&mut self, frame: [u8; 8], dma: &mut DmaUarteBuffor) -> (r: Vec<UarteOp>) {
        let mut ops: Vec<UarteOp> = Vec::new();
        push_stores(&mut ops, dma.tx_block, &frame);
        let mut tx = match transmit_program(dma.tx_block, 8) {
            Ok(tx) => tx,
            Err(_) => Vec::new(),
        };
        ops.append(&mut tx);
        ops
    }
}

} // verus!
