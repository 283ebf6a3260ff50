//! Receive-side scenarios on the register-mock harness: channel
//! rotation across arms, the CRC-failing drop, and the CRC-passing
//! delivery of the shared payload.

use std::cell::RefCell;

use nrf5x_radio::radio::{AdvertisementClient, Callback, Radio, ReturnCode};
use nrf5x_radio::regs::{Reg, RegWrite, Registers, RADIO_STATE_RX};

/// Records every callback the driver delivers.
struct RxRecorder {
    fired: RefCell<Vec<u32>>,
    received: RefCell<Vec<(Vec<u8>, usize, ReturnCode, u32)>>,
}

impl RxRecorder {
    fn new() -> RxRecorder {
        RxRecorder {
            fired: RefCell::new(Vec::new()),
            received: RefCell::new(Vec::new()),
        }
    }
}

impl AdvertisementClient for RxRecorder {
    fn advertisement_fired(&self, appid: u32) {
        self.fired.borrow_mut().push(appid);
    }

    fn receive(&self, payload: &Vec<u8>, len: usize, result: ReturnCode, appid: u32) {
        self.received.borrow_mut().push((payload.clone(), len, result, appid));
    }
}

#[test]
fn rx_channel_rotation() {
    let mut radio: Radio<RxRecorder> = Radio::new();
    radio.set_client(RxRecorder::new());

    // The rotation starts from 0, so the first arm lands on channel 37,
    // and successive arms walk 38, 39 and back to 37.
    let mut regs = Registers::new();
    radio.start_advertisement_rx(&mut regs, 9);
    assert_eq!(radio.freq, 37);
    assert_eq!(regs.s.frequency, 2);
    assert_eq!(regs.s.datawhiteiv, 37);
    assert_eq!(regs.s.rxen, 1);
    assert_eq!(regs.s.ready, 0);

    let mut regs = Registers::new();
    radio.start_advertisement_rx(&mut regs, 9);
    assert_eq!(radio.freq, 38);
    assert_eq!(regs.s.frequency, 26);
    assert_eq!(regs.s.datawhiteiv, 38);

    let mut regs = Registers::new();
    radio.start_advertisement_rx(&mut regs, 9);
    assert_eq!(radio.freq, 39);
    assert_eq!(regs.s.frequency, 80);
    assert_eq!(regs.s.datawhiteiv, 39);

    let mut regs = Registers::new();
    radio.start_advertisement_rx(&mut regs, 9);
    assert_eq!(radio.freq, 37, "after channel 39 the rotation wraps to 37");
    assert_eq!(regs.s.frequency, 2);
}

#[test]
fn rx_arm_programs_ble_parameters() {
    let mut radio: Radio<RxRecorder> = Radio::new();
    let mut regs = Registers::new();
    radio.start_advertisement_rx(&mut regs, 4);
    assert_eq!(regs.s.power, 1);
    assert_eq!(regs.s.mode, 3, "BLE 1 Mbit/s");
    assert_eq!(regs.s.prefix0, 0x8E);
    assert_eq!(regs.s.base0, 0x89BE_D600);
    assert_eq!(regs.s.txaddress, 0);
    assert_eq!(regs.s.rxaddresses, 1);
    assert_eq!(regs.s.pcnf0, 0x108);
    assert_eq!(regs.s.pcnf1, 0x0203_0025);
    assert_eq!(regs.s.crccnf, 0x103);
    assert_eq!(regs.s.crcinit, 0x0055_5555);
    assert_eq!(regs.s.crcpoly, 0x65B);
    assert_eq!(regs.s.packetptr, 1, "PACKETPTR points at the shared payload region");
    assert_eq!(regs.s.intenset, 0xF);
    assert_eq!(regs.s.rxen, 1);
    // A receive arm never touches TX power: the register keeps its
    // reset value and no write to it is traced.
    assert_eq!(regs.s.txpower, 0);
    assert!(regs.log.iter().all(|w| w.reg != Reg::TxPower));
}

#[test]
fn rx_crc_fail_drops_frame() {
    let mut radio: Radio<RxRecorder> = Radio::new();
    radio.set_client(RxRecorder::new());
    let mut regs = Registers::new();
    radio.start_advertisement_rx(&mut regs, 9);

    let before = regs.log.len();
    regs.s.state = RADIO_STATE_RX;
    regs.s.end = 1;
    regs.s.crcstatus = 0;
    let cb = radio.handle_interrupt(&mut regs);

    assert_eq!(cb, Callback::Nothing, "a failed CRC delivers nothing");
    let client = radio.client.as_ref().unwrap();
    assert!(client.received.borrow().is_empty());
    assert!(client.fired.borrow().is_empty());

    // Beyond disable, acknowledgement and re-enable, the state machine
    // writes nothing.
    assert_eq!(
        &regs.log[before..],
        &[
            RegWrite { reg: Reg::IntenClr, val: 0xFFFF_FFFF },
            RegWrite { reg: Reg::End, val: 0 },
            RegWrite { reg: Reg::Disable, val: 1 },
            RegWrite { reg: Reg::IntenSet, val: 0xF },
        ]
    );
}

#[test]
fn rx_crc_pass_delivers_payload_once() {
    let mut radio: Radio<RxRecorder> = Radio::new();
    radio.set_client(RxRecorder::new());
    let mut regs = Registers::new();
    radio.start_advertisement_rx(&mut regs, 9);

    // The radio engine fills the shared region: header byte, length
    // field 5, then the five payload bytes.
    radio.payload[0] = 0x42;
    radio.payload[1] = 0x05;
    radio.payload[2] = 0xA0;
    radio.payload[3] = 0xA1;
    radio.payload[4] = 0xA2;
    radio.payload[5] = 0xA3;
    radio.payload[6] = 0xA4;

    regs.s.state = RADIO_STATE_RX;
    regs.s.end = 1;
    regs.s.crcstatus = 1;
    let cb = radio.handle_interrupt(&mut regs);

    assert_eq!(cb, Callback::Receive { appid: 9, len: 6 });
    let client = radio.client.as_ref().unwrap();
    let received = client.received.borrow();
    assert_eq!(received.len(), 1, "the frame is delivered exactly once");
    let (bytes, len, result, appid) = &received[0];
    assert_eq!(*len, 6, "length is the PDU length field plus one");
    assert_eq!(*result, ReturnCode::Success);
    assert_eq!(*appid, 9);
    assert_eq!(&bytes[0..6], &[0x42, 0x05, 0xA0, 0xA1, 0xA2, 0xA3]);
    assert!(client.fired.borrow().is_empty());

    // The driver does not rearm receive by itself.
    assert_eq!(regs.s.rxen, 1);
    assert_eq!(
        *regs.log.last().unwrap(),
        RegWrite { reg: Reg::IntenSet, val: 0xF }
    );
}
