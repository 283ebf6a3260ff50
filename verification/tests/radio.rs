//! Transmit-side scenarios on the register-mock harness: the full
//! three-channel sweep, TX power validation, channel coercion, payload
//! configuration and the interrupt handler's enable/disable discipline.

use std::cell::RefCell;

use nrf5x_radio::radio::{AdvertisementClient, Callback, Radio, ReturnCode};
use nrf5x_radio::regs::{Reg, RegWrite, Registers, RADIO_STATE_TX};

/// Records every callback the driver delivers.
struct MockClient {
    fired: RefCell<Vec<u32>>,
    received: RefCell<Vec<(Vec<u8>, usize, ReturnCode, u32)>>,
}

impl MockClient {
    fn new() -> MockClient {
        MockClient {
            fired: RefCell::new(Vec::new()),
            received: RefCell::new(Vec::new()),
        }
    }
}

impl AdvertisementClient for MockClient {
    fn advertisement_fired(&self, appid: u32) {
        self.fired.borrow_mut().push(appid);
    }

    fn receive(&self, payload: &Vec<u8>, len: usize, result: ReturnCode, appid: u32) {
        self.received.borrow_mut().push((payload.clone(), len, result, appid));
    }
}

/// The values written to `reg`, in the order the trace records them.
fn writes_of(regs: &Registers, reg: Reg) -> Vec<u32> {
    regs.log
        .iter()
        .filter(|w| w.reg == reg)
        .map(|w| w.val)
        .collect()
}

/// Raise a READY event and run the handler, then raise an END event in
/// the given STATE and run the handler again, returning its completion.
fn fire_ready_then_end(radio: &Radio<MockClient>, regs: &mut Registers, state: u32) -> Callback {
    regs.s.ready = 1;
    let cb = radio.handle_interrupt(regs);
    assert_eq!(cb, Callback::Nothing);
    assert_eq!(regs.s.start, 1, "READY must start the active phase");
    regs.s.state = state;
    regs.s.end = 1;
    radio.handle_interrupt(regs)
}

#[test]
fn full_tx_sweep() {
    let mut radio: Radio<MockClient> = Radio::new();
    let mut regs = Registers::new();

    let buf = radio.set_advertisement_data(vec![0x02, 0x01, 0x06], 3);
    assert_eq!(buf, vec![0x02, 0x01, 0x06]);
    assert_eq!(radio.set_advertisement_txpower(0x00), ReturnCode::Success);
    radio.set_client(MockClient::new());
    radio.start_advertisement_tx(&mut regs, 7);

    // The arm programs every fixed BLE advertising parameter on channel 37.
    assert_eq!(regs.s.power, 1);
    assert_eq!(regs.s.txen, 1);
    assert_eq!(regs.s.mode, 3, "BLE 1 Mbit/s");
    assert_eq!(regs.s.frequency, 2, "channel 37 is 2402 MHz");
    assert_eq!(regs.s.datawhiteiv, 37);
    assert_eq!(regs.s.prefix0, 0x8E);
    assert_eq!(regs.s.base0, 0x89BE_D600);
    assert_eq!(regs.s.txaddress, 0);
    assert_eq!(regs.s.rxaddresses, 1);
    assert_eq!(regs.s.pcnf0, 0x108);
    assert_eq!(regs.s.pcnf1, 0x0203_0025);
    assert_eq!(regs.s.crccnf, 0x103);
    assert_eq!(regs.s.crcinit, 0x0055_5555);
    assert_eq!(regs.s.crcpoly, 0x65B);
    assert_eq!(regs.s.ready, 0);

    // Three channels: READY then END, with STATE = TX observed each time.
    let cb1 = fire_ready_then_end(&radio, &mut regs, RADIO_STATE_TX);
    assert_eq!(cb1, Callback::Nothing);
    assert_eq!(regs.s.frequency, 26, "channel 38 is 2426 MHz");
    assert_eq!(regs.s.datawhiteiv, 38);

    let cb2 = fire_ready_then_end(&radio, &mut regs, RADIO_STATE_TX);
    assert_eq!(cb2, Callback::Nothing);
    assert_eq!(regs.s.frequency, 80, "channel 39 is 2480 MHz");
    assert_eq!(regs.s.datawhiteiv, 39);

    let cb3 = fire_ready_then_end(&radio, &mut regs, RADIO_STATE_TX);
    assert_eq!(cb3, Callback::AdvertisementFired { appid: 7 });

    // Exactly one advertisement callback, tagged with the bound caller.
    let client = radio.client.as_ref().unwrap();
    assert_eq!(*client.fired.borrow(), vec![7]);
    assert!(client.received.borrow().is_empty());

    // The sweep wrote the three channel codes and whitening IVs in order.
    assert_eq!(writes_of(&regs, Reg::Frequency), vec![2, 26, 80]);
    assert_eq!(writes_of(&regs, Reg::DataWhiteIv), vec![37, 38, 39]);

    // Power went off and on at the arm, off at the end -- and the
    // power-off is the very last register write of the sweep.
    assert_eq!(writes_of(&regs, Reg::Power), vec![0, 1, 0]);
    assert_eq!(
        *regs.log.last().unwrap(),
        RegWrite { reg: Reg::Power, val: 0 }
    );
}

#[test]
fn txpower_accepts_every_legal_code() {
    let legal: [u32; 8] = [0x04, 0x00, 0xF4, 0xFC, 0xF8, 0xF0, 0xEC, 0xD8];
    for &code in legal.iter() {
        let mut radio: Radio<MockClient> = Radio::new();
        assert_eq!(radio.set_advertisement_txpower(code), ReturnCode::Success);
        assert_eq!(radio.txpower, code);
    }
}

#[test]
fn txpower_rejects_illegal_code() {
    let mut radio: Radio<MockClient> = Radio::new();
    assert_eq!(radio.set_advertisement_txpower(0x05), ReturnCode::ENoSupport);
    assert_eq!(radio.txpower, 0, "rejected code leaves the default 0 dBm");
    assert_eq!(radio.set_advertisement_txpower(0x01), ReturnCode::ENoSupport);
    assert_eq!(radio.set_advertisement_txpower(0xFF), ReturnCode::ENoSupport);
    assert_eq!(radio.txpower, 0);
}

#[test]
fn oversize_channel_coerced_to_37() {
    let radio: Radio<MockClient> = Radio::new();
    let mut regs = Registers::new();
    radio.set_channel_freq(&mut regs, 42);
    assert_eq!(regs.s.frequency, 2, "anything outside 37..39 lands on channel 37");
    assert_eq!(writes_of(&regs, Reg::Frequency), vec![2]);
}

#[test]
fn advertisement_data_copies_prefix_and_keeps_rest() {
    let mut radio: Radio<MockClient> = Radio::new();
    let first = radio.set_advertisement_data(vec![9, 8, 7, 6, 5], 5);
    assert_eq!(first, vec![9, 8, 7, 6, 5]);
    let second = radio.set_advertisement_data(vec![1, 2, 3], 3);
    assert_eq!(second, vec![1, 2, 3]);
    assert_eq!(&radio.payload[0..3], &[1, 2, 3]);
    assert_eq!(&radio.payload[3..5], &[6, 5], "bytes past the new length keep their values");
    assert!(radio.payload[5..].iter().all(|&b| b == 0));
    assert_eq!(radio.payload.len(), 37);
}

#[test]
fn interrupt_disables_first_and_reenables_last() {
    let radio: Radio<MockClient> = Radio::new();
    let mut regs = Registers::new();
    regs.s.ready = 1;
    regs.s.payload = 1;
    regs.s.address = 1;
    let cb = radio.handle_interrupt(&mut regs);
    assert_eq!(cb, Callback::Nothing);
    let log = &regs.log;
    assert_eq!(log[0], RegWrite { reg: Reg::IntenClr, val: 0xFFFF_FFFF });
    assert_eq!(
        *log.last().unwrap(),
        RegWrite {
            reg: Reg::IntenSet,
            val: 1 | 2 | 4 | 8,
        },
        "exit re-enables READY | ADDRESS | PAYLOAD | END"
    );
    // Every acknowledgement lies strictly between the two.
    assert_eq!(
        log[1..log.len() - 1],
        [
            RegWrite { reg: Reg::Ready, val: 0 },
            RegWrite { reg: Reg::End, val: 0 },
            RegWrite { reg: Reg::Start, val: 1 },
            RegWrite { reg: Reg::Payload, val: 0 },
            RegWrite { reg: Reg::Address, val: 0 },
        ]
    );
    assert_eq!(regs.s.ready, 0);
    assert_eq!(regs.s.payload, 0);
    assert_eq!(regs.s.address, 0);
}

#[test]
fn end_behind_pending_ready_is_precleared() {
    // READY and END both set on entry: acknowledging READY pre-clears
    // END, so no sweep step runs in this interrupt.
    let radio: Radio<MockClient> = Radio::new();
    let mut regs = Registers::new();
    regs.s.state = RADIO_STATE_TX;
    regs.s.frequency = 2;
    regs.s.ready = 1;
    regs.s.end = 1;
    let cb = radio.handle_interrupt(&mut regs);
    assert_eq!(cb, Callback::Nothing);
    assert_eq!(regs.s.end, 0);
    assert_eq!(writes_of(&regs, Reg::Disable), Vec::<u32>::new());
    assert_eq!(writes_of(&regs, Reg::Frequency), Vec::<u32>::new());
}

#[test]
fn stray_tx_end_falls_back_to_37() {
    // An END in a transmit state with FREQUENCY outside the three
    // channel codes reconfigures channel 37 and does not ramp up again.
    let radio: Radio<MockClient> = Radio::new();
    let mut regs = Registers::new();
    regs.s.state = RADIO_STATE_TX;
    regs.s.frequency = 5;
    regs.s.end = 1;
    let cb = radio.handle_interrupt(&mut regs);
    assert_eq!(cb, Callback::Nothing);
    assert_eq!(regs.s.frequency, 2);
    assert_eq!(regs.s.datawhiteiv, 37);
    assert_eq!(writes_of(&regs, Reg::Txen), Vec::<u32>::new());
}

#[test]
fn set_client_last_writer_wins() {
    let mut radio: Radio<MockClient> = Radio::new();
    let mut regs = Registers::new();
    radio.set_client(MockClient::new());
    radio.set_client(MockClient::new());
    radio.start_advertisement_tx(&mut regs, 3);
    regs.s.state = RADIO_STATE_TX;
    regs.s.frequency = 80;
    regs.s.end = 1;
    let cb = radio.handle_interrupt(&mut regs);
    assert_eq!(cb, Callback::AdvertisementFired { appid: 3 });
    let client = radio.client.as_ref().unwrap();
    assert_eq!(*client.fired.borrow(), vec![3], "the client installed last gets the callback");
}

#[test]
fn advertisement_data_with_zero_length_changes_nothing() {
    let mut radio: Radio<MockClient> = Radio::new();
    radio.set_advertisement_data(vec![4, 5, 6], 3);
    let buf = radio.set_advertisement_data(Vec::new(), 0);
    assert!(buf.is_empty());
    assert_eq!(&radio.payload[0..3], &[4, 5, 6], "a zero-length copy leaves the region alone");
}

#[test]
fn sweep_end_without_caller_uses_sentinel() {
    // No client installed and no appid bound: the completed sweep still
    // powers off, reports the sentinel id, and nothing panics.
    let radio: Radio<MockClient> = Radio::new();
    let mut regs = Registers::new();
    regs.s.state = RADIO_STATE_TX;
    regs.s.frequency = 80;
    regs.s.end = 1;
    let cb = radio.handle_interrupt(&mut regs);
    assert_eq!(cb, Callback::AdvertisementFired { appid: 0xFF });
    assert_eq!(regs.s.power, 0);
    assert_eq!(
        *regs.log.last().unwrap(),
        RegWrite { reg: Reg::Power, val: 0 }
    );
}
