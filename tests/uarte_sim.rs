use board::dma::{
    boot_tx_frame, DmaBuffor, RAM, UARTE_RX_BUF_DEF, UARTE_RX_BUF_MAXLEN, UARTE_TX_BUF_DEF,
    UARTE_TX_BUF_MAXLEN,
};
use board::tasks::debounce;
use board::tx_frame::{str_to_frame, DmaUarteBuffor, MyUarte, UARTE_RX_BUF, UARTE_TX_BUF};
use board::uarte::{
    Baudrate, Error, Event, Parity, PinSelect, Pins, RxPhase, Task, Uarte, UarteOp, EASY_DMA_MAX,
};

/// A host-side model of one UARTE and the SRAM it reaches.
struct Sim {
    mem: Vec<u8>,
    incoming: Vec<u8>,
    fifo: Vec<u8>,
    sent: Vec<u8>,
    enabled: bool,
    tx_line_high: bool,
    txd_ptr: u32,
    txd_maxcnt: u16,
    rxd_ptr: u32,
    rxd_maxcnt: u16,
    endtx: bool,
    txstopped: bool,
    endrx: bool,
    rxto: bool,
    cts: bool,
    waits: Vec<Event>,
    writes: Vec<UarteOp>,
}

impl Sim {
    fn new(enabled: bool) -> Sim {
        Sim {
            mem: vec![0xEE; 0x1100],
            incoming: Vec::new(),
            fifo: Vec::new(),
            sent: Vec::new(),
            enabled,
            tx_line_high: false,
            txd_ptr: 0,
            txd_maxcnt: 0,
            rxd_ptr: 0,
            rxd_maxcnt: 0,
            endtx: false,
            txstopped: false,
            endrx: false,
            rxto: false,
            cts: false,
            waits: Vec::new(),
            writes: Vec::new(),
        }
    }

    fn event(&mut self, e: Event) -> &mut bool {
        match e {
            Event::EndTx => &mut self.endtx,
            Event::TxStopped => &mut self.txstopped,
            Event::EndRx => &mut self.endrx,
            Event::RxTo => &mut self.rxto,
            Event::Cts => &mut self.cts,
        }
    }

    fn addr(&self, a: u32) -> usize {
        (a - RAM) as usize
    }

    /// Performs a program; a wait that could never end is an error.
    fn run(&mut self, ops: &[UarteOp]) -> Result<(), UarteOp> {
        for op in ops {
            if !matches!(op, UarteOp::AwaitEvent(_) | UarteOp::AwaitEventCleared(_)) {
                self.writes.push(*op);
            }
            match *op {
                UarteOp::Fence => {}
                UarteOp::Trigger(Task::StartTx) => {
                    if self.enabled {
                        let a = self.addr(self.txd_ptr);
                        let n = self.txd_maxcnt as usize;
                        let bytes = self.mem[a..a + n].to_vec();
                        self.sent.extend(bytes);
                        self.endtx = true;
                    }
                }
                UarteOp::Trigger(Task::StopTx) => self.txstopped = true,
                UarteOp::Trigger(Task::StartRx) => {
                    let n = self.rxd_maxcnt as usize;
                    if self.incoming.len() >= n {
                        let a = self.addr(self.rxd_ptr);
                        let bytes: Vec<u8> = self.incoming.drain(..n).collect();
                        self.mem[a..a + n].copy_from_slice(&bytes);
                        self.endrx = true;
                    } else {
                        self.fifo = self.incoming.drain(..).collect();
                    }
                }
                UarteOp::Trigger(Task::StopRx) => self.rxto = true,
                UarteOp::Trigger(Task::FlushRx) => {
                    let a = self.addr(self.rxd_ptr);
                    let bytes: Vec<u8> = self.fifo.drain(..).collect();
                    self.mem[a..a + bytes.len()].copy_from_slice(&bytes);
                    self.endrx = true;
                }
                UarteOp::ClearEvent(e) => *self.event(e) = false,
                UarteOp::AwaitEvent(e) => {
                    if !*self.event(e) {
                        return Err(*op);
                    }
                    self.waits.push(e);
                }
                UarteOp::AwaitEventCleared(e) => {
                    if *self.event(e) {
                        return Err(*op);
                    }
                }
                UarteOp::SetTxdPtr(p) => self.txd_ptr = p,
                UarteOp::SetTxdMaxcnt(n) => self.txd_maxcnt = n,
                UarteOp::SetRxdPtr(p) => self.rxd_ptr = p,
                UarteOp::SetRxdMaxcnt(n) => self.rxd_maxcnt = n,
                UarteOp::Enable => self.enabled = true,
                UarteOp::Disable => self.enabled = false,
                UarteOp::DriveTxdHigh => self.tx_line_high = true,
                UarteOp::StoreByte(a, b) => {
                    let i = self.addr(a);
                    self.mem[i] = b;
                }
                UarteOp::Connect(PinSelect::Txd, _) => {
                    if !self.tx_line_high {
                        self.sent.push(0);
                    }
                }
                _ => {}
            }
        }
        Ok(())
    }

    fn count_waits(&self, e: Event) -> usize {
        self.waits.iter().filter(|w| **w == e).count()
    }
}

fn board_pins() -> Pins {
    Pins { rxd: 8, txd: 6, cts: None, rts: None }
}

fn board_uarte(sim: &mut Sim, enable: u32) -> Uarte {
    let (u, ops) = Uarte::new(board_pins(), Parity::EXCLUDED, Baudrate::BAUD115200, enable);
    sim.run(&ops).unwrap();
    u
}

#[test]
fn hot_boot_init_waits_for_txstopped_once() {
    let mut sim = Sim::new(true);
    let u = board_uarte(&mut sim, 1);
    assert!(sim.enabled);
    assert_eq!(sim.count_waits(Event::TxStopped), 1);
    assert_eq!(sim.writes[0], UarteOp::Trigger(Task::StopTx));
    assert_eq!(sim.writes[1], UarteOp::Disable);
    assert!(sim.sent.is_empty());
    assert!(!u.flow_control());
    assert_eq!(u.rx_phase(), RxPhase::Idle);
}

#[test]
fn cold_boot_init_skips_shutdown() {
    let (_, ops) = Uarte::new(board_pins(), Parity::EXCLUDED, Baudrate::BAUD115200, 0);
    assert_eq!(
        ops,
        vec![
            UarteOp::Connect(PinSelect::Rxd, 8),
            UarteOp::DriveTxdHigh,
            UarteOp::Connect(PinSelect::Txd, 6),
            UarteOp::Disconnect(PinSelect::Cts),
            UarteOp::Disconnect(PinSelect::Rts),
            UarteOp::Configure(false, Parity::EXCLUDED),
            UarteOp::SetBaudrate(Baudrate::BAUD115200),
            UarteOp::Enable,
            UarteOp::EnableCtsInterrupt,
        ]
    );
}

#[test]
fn hot_boot_reinit_keeps_tx_quiet() {
    let mut sim = Sim::new(true);
    let _ = board_uarte(&mut sim, 0xFFFF_FFFF);
    let high = sim.writes.iter().position(|o| *o == UarteOp::DriveTxdHigh).unwrap();
    let txd = sim.writes.iter().position(|o| *o == UarteOp::Connect(PinSelect::Txd, 6)).unwrap();
    assert!(high < txd);
    assert!(sim.sent.is_empty());
}

#[test]
fn flow_control_needs_both_cts_and_rts() {
    let both = Pins { rxd: 8, txd: 6, cts: Some(7), rts: Some(5) };
    let (u, ops) = Uarte::new(both, Parity::INCLUDED, Baudrate::BAUD19200, 0);
    assert!(u.flow_control());
    assert!(ops.contains(&UarteOp::Configure(true, Parity::INCLUDED)));
    assert!(ops.contains(&UarteOp::Connect(PinSelect::Cts, 7)));
    assert!(ops.contains(&UarteOp::Connect(PinSelect::Rts, 5)));
    let one = Pins { rxd: 8, txd: 6, cts: Some(7), rts: None };
    let (u, ops) = Uarte::new(one, Parity::EXCLUDED, Baudrate::BAUD115200, 0);
    assert!(!u.flow_control());
    assert!(ops.contains(&UarteOp::Configure(false, Parity::EXCLUDED)));
    assert!(ops.contains(&UarteOp::Disconnect(PinSelect::Rts)));
}

#[test]
fn transmit_rejects_empty_and_overlong() {
    let mut sim = Sim::new(false);
    let mut u = board_uarte(&mut sim, 0);
    assert_eq!(u.transmit(UARTE_TX_BUF_DEF, 0), Err(Error::TxBufferTooSmall));
    assert_eq!(u.transmit(UARTE_TX_BUF_DEF, EASY_DMA_MAX + 1), Err(Error::TxBufferTooLong));
    assert_eq!(u.transmit(UARTE_TX_BUF_DEF, u16::MAX), Err(Error::TxBufferTooLong));
    assert!(u.transmit(UARTE_TX_BUF_DEF, EASY_DMA_MAX).is_ok());
    assert!(u.transmit(UARTE_TX_BUF_DEF, 1).is_ok());
}

#[test]
fn transmit_program_order() {
    let mut sim = Sim::new(false);
    let mut u = board_uarte(&mut sim, 0);
    let ops = u.transmit(0x2000_0000, 4).unwrap();
    assert_eq!(
        ops,
        vec![
            UarteOp::Fence,
            UarteOp::ClearEvent(Event::EndTx),
            UarteOp::ClearEvent(Event::TxStopped),
            UarteOp::SetTxdPtr(0x2000_0000),
            UarteOp::SetTxdMaxcnt(4),
            UarteOp::Trigger(Task::StartTx),
            UarteOp::AwaitEvent(Event::EndTx),
            UarteOp::Fence,
            UarteOp::ClearEvent(Event::TxStopped),
            UarteOp::Trigger(Task::StopTx),
            UarteOp::AwaitEvent(Event::TxStopped),
        ]
    );
}

#[test]
fn button_one_sends_boot_frame() {
    let mut sim = Sim::new(false);
    let mut u = board_uarte(&mut sim, 0);
    let dma = DmaBuffor::new();
    let a = (dma.uarte_tx() - RAM) as usize;
    sim.mem[a..a + 4].copy_from_slice(&boot_tx_frame());
    let response = debounce([true, false, false, false]);
    assert_eq!(response.toggle_led, Some(1));
    assert!(response.transmit);
    let ops = u.transmit(dma.uarte_tx(), UARTE_TX_BUF_MAXLEN).unwrap();
    sim.run(&ops).unwrap();
    assert_eq!(sim.sent, vec![0x0A, 0x31, 0x32, 0x33]);
    assert!(sim.txstopped);
}

#[test]
fn four_byte_receive() {
    let mut sim = Sim::new(false);
    let mut u = board_uarte(&mut sim, 0);
    sim.incoming = vec![0x41, 0x42, 0x43, 0x44];
    let ops = u.receive(UARTE_RX_BUF_DEF, 4).unwrap();
    sim.run(&ops).unwrap();
    let a = (0x2000_0044u32 - RAM) as usize;
    assert_eq!(&sim.mem[a..a + 4], &[0x41, 0x42, 0x43, 0x44]);
    assert_eq!(sim.count_waits(Event::EndRx), 1);
    assert!(!sim.endrx);
    assert_eq!(u.rx_phase(), RxPhase::Idle);
}

#[test]
fn receive_rejects_empty() {
    let mut sim = Sim::new(false);
    let mut u = board_uarte(&mut sim, 0);
    assert_eq!(u.receive(UARTE_RX_BUF_DEF, 0), Err(Error::RxBufferTooSmall));
    assert_eq!(u.start_receive(UARTE_RX_BUF_DEF, 0), Err(Error::RxBufferTooSmall));
    assert_eq!(u.rx_phase(), RxPhase::Idle);
    let ops = u.receive(UARTE_RX_BUF_DEF, UARTE_RX_BUF_MAXLEN).unwrap();
    assert_eq!(ops.len(), 7);
    assert_eq!(ops[1], UarteOp::SetRxdPtr(0x2000_0044));
    assert_eq!(ops[2], UarteOp::SetRxdMaxcnt(8));
}

#[test]
fn short_receive_cancel_keeps_bytes() {
    let mut sim = Sim::new(false);
    let mut u = board_uarte(&mut sim, 0);
    sim.incoming = vec![0x41, 0x42];
    let ops = u.start_receive(UARTE_RX_BUF_DEF, UARTE_RX_BUF_MAXLEN).unwrap();
    sim.run(&ops).unwrap();
    assert_eq!(u.rx_phase(), RxPhase::Receiving);
    assert!(!sim.endrx);
    let cancel = u.cancel_receive();
    assert_eq!(
        cancel,
        vec![
            UarteOp::Trigger(Task::StopRx),
            UarteOp::AwaitEvent(Event::RxTo),
            UarteOp::ClearEvent(Event::RxTo),
            UarteOp::Trigger(Task::FlushRx),
            UarteOp::AwaitEvent(Event::EndRx),
        ]
    );
    sim.run(&cancel).unwrap();
    assert_eq!(u.rx_phase(), RxPhase::Flushed);
    assert!(sim.endrx);
    let a = (UARTE_RX_BUF_DEF - RAM) as usize;
    assert_eq!(&sim.mem[a..a + 2], &[0x41, 0x42]);
    let fin = u.finalize_receive();
    assert_eq!(fin, vec![UarteOp::ClearEvent(Event::EndRx), UarteOp::Fence]);
    sim.run(&fin).unwrap();
    assert!(!sim.endrx);
    assert_eq!(u.rx_phase(), RxPhase::Idle);
}

#[test]
fn cts_event_observe_and_clear() {
    let mut sim = Sim::new(false);
    let mut u = board_uarte(&mut sim, 0);
    assert!(u.is_cts(1));
    assert!(!u.is_cts(0));
    assert!(u.is_cts(3));
    assert!(!u.is_cts(2));
    assert!(u.is_ncts(1));
    assert!(!u.is_ncts(0));
    sim.cts = true;
    let ops = u.clear_cts_event();
    assert_eq!(
        ops,
        vec![UarteOp::ClearEvent(Event::Cts), UarteOp::AwaitEventCleared(Event::Cts)]
    );
    sim.run(&ops).unwrap();
    assert!(!sim.cts);
}

#[test]
fn frame_of_short_string() {
    assert_eq!(str_to_frame("AB"), ([0x0A, 0x41, 0x42, 0x23, 0x23, 0x23, 0x23, 0x23], 2));
    assert_eq!(str_to_frame(""), ([0x0A, 0x23, 0x23, 0x23, 0x23, 0x23, 0x23, 0x23], 0));
    assert_eq!(str_to_frame("1234567"), ([0x0A, 0x31, 0x32, 0x33, 0x34, 0x35, 0x36, 0x37], 7));
}

#[test]
fn frame_of_long_string_is_default() {
    assert_eq!(str_to_frame("12345678"), ([0x0A, 0x23, 0x23, 0x23, 0x23, 0x23, 0x23, 0x23], 8));
}

#[test]
fn write_string_fills_block_then_sends() {
    let mut sim = Sim::new(false);
    let mut u = board_uarte(&mut sim, 0);
    let mut dma = DmaUarteBuffor::new();
    assert_eq!(dma.tx_block, UARTE_TX_BUF);
    assert_eq!(dma.tx_block_len, 8);
    let ops = u.write_string("hi", &mut dma);
    assert_eq!(ops[0], UarteOp::StoreByte(0x2000_1000, 0x0A));
    assert_eq!(ops[7], UarteOp::StoreByte(0x2000_1007, 0x23));
    assert_eq!(ops[8], UarteOp::Fence);
    sim.run(&ops).unwrap();
    assert_eq!(sim.sent, vec![0x0A, b'h', b'i']);
    let ops = u.write_string("a long message", &mut dma);
    sim.sent.clear();
    sim.run(&ops).unwrap();
    assert_eq!(sim.sent, b"\n#######".to_vec());
}

#[test]
fn write_frame_sends_all_eight_bytes() {
    let mut sim = Sim::new(false);
    let mut u = board_uarte(&mut sim, 0);
    let mut dma = DmaUarteBuffor::new();
    let ops = u.write_frame([1, 2, 3, 4, 5, 6, 7, 8], &mut dma);
    assert_eq!(ops.len(), 8 + 11);
    sim.run(&ops).unwrap();
    assert_eq!(sim.sent, vec![1, 2, 3, 4, 5, 6, 7, 8]);
    assert_eq!(dma, DmaUarteBuffor::new());
}

#[test]
fn frame_blocks_are_disjoint() {
    let dma = DmaUarteBuffor::new();
    assert_eq!(dma.tx_block, 0x2000_1000);
    assert_eq!(dma.rx_block, UARTE_RX_BUF);
    assert_eq!(dma.rx_block, 0x2000_1008);
    assert!(dma.tx_block as usize + dma.tx_block_len <= dma.rx_block as usize);
}
