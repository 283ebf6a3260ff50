//! The BLE advertising radio driver.
//!
//! The driver programs the register window for BLE advertising, runs the
//! transmit channel sweep 37 -> 38 -> 39 from the interrupt handler,
//! rotates the receive channel across successive arms, and hands
//! completions to the installed client.  Every operation carries a
//! contract over the register model of [`crate::regs`]: the exact trace of
//! writes it appends and the exact register values it leaves behind.

use vstd::prelude::*;

use crate::regs::{
    Reg, RegState, RegWrite, Registers, rw, spec_write,
    RADIO_BASE0_BLE_ADV, RADIO_CRCCNF_BLE, RADIO_CRCINIT_BLE, RADIO_CRCPOLY_BLE,
    RADIO_FREQ_CH_37, RADIO_FREQ_CH_38, RADIO_FREQ_CH_39,
    RADIO_INTENCLR_ALL, RADIO_INTEN_ALL_HANDLED, RADIO_MODE_BLE_1MBIT,
    RADIO_PACKETPTR_PAYLOAD_REGION, RADIO_PAYLOAD_LENGTH, RADIO_PCNF0_BLE_ADV,
    RADIO_PCNF1_BLE_ADV, RADIO_PREFIX0_BLE_ADV,
    RADIO_STATE_RX, RADIO_STATE_RXDISABLE, RADIO_STATE_RXIDLE, RADIO_STATE_RXRU,
    RADIO_STATE_TX, RADIO_STATE_TXDISABLE, RADIO_STATE_TXIDLE, RADIO_STATE_TXRU,
};

verus! {

/// Application identifier delivered with a callback when no caller is
/// bound to the cycle.
pub const APPID_MISSING: u32 = 0xFF;

/// Result of a driver request.
#[derive(Clone, Copy, PartialEq, Eq, Debug, Structural)]
pub enum ReturnCode {
    /// The request was accepted.
    Success,
    /// The request carried a value the radio does not support.
    ENoSupport,
}

/// The completion, if any, that one interrupt delivers to the client.
#[derive(Clone, Copy, PartialEq, Eq, Debug, Structural)]
pub enum Callback {
    /// No completion: nothing to report to the client.
    Nothing,
    /// A transmit sweep finished on channel 39; `appid` tags the cycle.
    AdvertisementFired { appid: u32 },
    /// A frame with a good CRC sits in the shared payload region;
    /// `len` is the number of meaningful bytes, read from the length
    /// field of the received PDU plus one for the header byte.
    Receive { appid: u32, len: usize },
}

/// The upper layer's callback sink.  The driver holds it as a capability:
/// it never relies on what the methods do, and tolerates its absence.
pub trait AdvertisementClient {
    /// One transmit sweep over channels 37, 38 and 39 completed.
    fn advertisement_fired(&self, appid: u32);

    /// A frame with a good CRC arrived; the first `len` bytes of
    /// `payload` are the received PDU.
    fn receive(&self, payload: &Vec<u8>, len: usize, result: ReturnCode, appid: u32);
}

/// The eight TX power codes BLE allows:
/// +4, 0, -4, -8, -12, -16, -20 and -30 dBm.
pub open spec fn valid_txpower(code: u32) -> bool {
    ||| code == 0x04
    ||| code == 0x00
    ||| code == 0xF4
    ||| code == 0xFC
    ||| code == 0xF8
    ||| code == 0xF0
    ||| code == 0xEC
    ||| code == 0xD8
}

/// FREQUENCY code programmed for a requested advertising channel; any
/// channel outside 37..39 falls back to channel 37.
pub open spec fn freq_code(channel: u32) -> u32 {
    if channel == 37 {
        RADIO_FREQ_CH_37
    } else if channel == 38 {
        RADIO_FREQ_CH_38
    } else if channel == 39 {
        RADIO_FREQ_CH_39
    } else {
        RADIO_FREQ_CH_37
    }
}

/// Receive channel used after `prev`: 37 -> 38 -> 39 -> 37, and 37 for
/// anything else, in particular for the initial value 0.
pub open spec fn rotate_channel(prev: u32) -> u32 {
    if prev == 37 {
        38
    } else if prev == 38 {
        39
    } else {
        37
    }
}

/// STATE values reached while transmitting.
pub open spec fn is_tx_state(state: u32) -> bool {
    ||| state == RADIO_STATE_TXRU
    ||| state == RADIO_STATE_TXIDLE
    ||| state == RADIO_STATE_TXDISABLE
    ||| state == RADIO_STATE_TX
}

/// STATE values reached while receiving.
pub open spec fn is_rx_state(state: u32) -> bool {
    ||| state == RADIO_STATE_RXRU
    ||| state == RADIO_STATE_RXIDLE
    ||| state == RADIO_STATE_RXDISABLE
    ||| state == RADIO_STATE_RX
}

/// The handler serves an END event when END is set on entry and READY is
/// not: acknowledging a pending READY clears END as well, so the END
/// branch is reached only on an interrupt without a pending READY.
pub open spec fn end_pending(s: RegState) -> bool {
    s.end == 1 && s.ready != 1
}

/// This interrupt ends a transmit sweep: an END served in a transmit
/// state with channel 39's frequency programmed.
pub open spec fn sweep_complete(s: RegState) -> bool {
    end_pending(s) && is_tx_state(s.state) && s.frequency == RADIO_FREQ_CH_39
}

/// Writes that acknowledge the READY, PAYLOAD and ADDRESS events set on
/// entry; a served READY also pre-clears END and starts the active phase.
pub open spec fn ack_writes(s: RegState) -> Seq<RegWrite> {
    (if s.ready == 1 {
        seq![rw(Reg::Ready, 0), rw(Reg::End, 0), rw(Reg::Start, 1)]
    } else {
        Seq::empty()
    }) + (if s.payload == 1 {
        seq![rw(Reg::Payload, 0)]
    } else {
        Seq::empty()
    }) + (if s.address == 1 {
        seq![rw(Reg::Address, 0)]
    } else {
        Seq::empty()
    })
}

/// Writes the channel-sweep state machine performs for an END served in
/// register state `s`, after END is acknowledged and DISABLE written.
pub open spec fn sweep_writes(s: RegState) -> Seq<RegWrite> {
    if is_tx_state(s.state) {
        if s.frequency == RADIO_FREQ_CH_39 {
            seq![rw(Reg::Power, 0)]
        } else if s.frequency == RADIO_FREQ_CH_38 {
            seq![
                rw(Reg::Frequency, RADIO_FREQ_CH_39),
                rw(Reg::DataWhiteIv, 39),
                rw(Reg::Ready, 0),
                rw(Reg::Txen, 1),
            ]
        } else if s.frequency == RADIO_FREQ_CH_37 {
            seq![
                rw(Reg::Frequency, RADIO_FREQ_CH_38),
                rw(Reg::DataWhiteIv, 38),
                rw(Reg::Ready, 0),
                rw(Reg::Txen, 1),
            ]
        } else {
            seq![rw(Reg::Frequency, RADIO_FREQ_CH_37), rw(Reg::DataWhiteIv, 37)]
        }
    } else {
        Seq::empty()
    }
}

/// The whole trace one interrupt appends, given the register state on
/// entry: clear all interrupts first, acknowledge the events that were
/// set, run the state machine for a served END, and re-enable the handled
/// interrupts -- except when the sweep just completed, in which case the
/// radio was powered off and the last write stays POWER = 0.
pub open spec fn irq_writes(s: RegState) -> Seq<RegWrite> {
    seq![rw(Reg::IntenClr, RADIO_INTENCLR_ALL)] + ack_writes(s) + (if end_pending(s) {
        seq![rw(Reg::End, 0), rw(Reg::Disable, 1)] + sweep_writes(s)
    } else {
        Seq::empty()
    }) + (if sweep_complete(s) {
        Seq::empty()
    } else {
        seq![rw(Reg::IntenSet, RADIO_INTEN_ALL_HANDLED)]
    })
}

/// Register values the state machine leaves for an END served in entry
/// state `s`; `t` is the state after END was acknowledged and DISABLE
/// written.  The decisions read the entry state: the handler looks at
/// STATE and FREQUENCY before overwriting anything.
pub open spec fn sweep_post(t: RegState, s: RegState) -> RegState {
    if is_tx_state(s.state) {
        if s.frequency == RADIO_FREQ_CH_39 {
            RegState { power: 0, ..t }
        } else if s.frequency == RADIO_FREQ_CH_38 {
            RegState { frequency: RADIO_FREQ_CH_39, datawhiteiv: 39, ready: 0, txen: 1, ..t }
        } else if s.frequency == RADIO_FREQ_CH_37 {
            RegState { frequency: RADIO_FREQ_CH_38, datawhiteiv: 38, ready: 0, txen: 1, ..t }
        } else {
            RegState { frequency: RADIO_FREQ_CH_37, datawhiteiv: 37, ..t }
        }
    } else {
        t
    }
}

/// Register values one interrupt leaves, given the state on entry.
pub open spec fn irq_post(s: RegState) -> RegState {
    let s1 = RegState { intenclr: RADIO_INTENCLR_ALL, ..s };
    let s2 = if s.ready == 1 {
        RegState { ready: 0, end: 0, start: 1, ..s1 }
    } else {
        s1
    };
    let s3 = if s.payload == 1 {
        RegState { payload: 0, ..s2 }
    } else {
        s2
    };
    let s4 = if s.address == 1 {
        RegState { address: 0, ..s3 }
    } else {
        s3
    };
    let s5 = if end_pending(s) {
        sweep_post(RegState { end: 0, disable: 1, ..s4 }, s)
    } else {
        s4
    };
    if sweep_complete(s) {
        s5
    } else {
        RegState { intenset: RADIO_INTEN_ALL_HANDLED, ..s5 }
    }
}

/// The completion one interrupt delivers, given the register state on
/// entry, the shared payload region and the bound application id: a
/// finished sweep fires the advertisement callback, a served END in a
/// receive state with a good CRC delivers the payload, and everything
/// else -- in particular a failed CRC -- delivers nothing.
pub open spec fn irq_callback(s: RegState, payload: Seq<u8>, appid: u32) -> Callback {
    if sweep_complete(s) {
        Callback::AdvertisementFired { appid }
    } else if end_pending(s) && is_rx_state(s.state) && s.crcstatus == 1 {
        Callback::Receive { appid, len: (payload[1] + 1) as usize }
    } else {
        Callback::Nothing
    }
}

/// The trace `start_advertisement_tx` appends: power the radio on with a
/// clean reset, program the cached TX power and every fixed BLE
/// advertising parameter on channel 37, point PACKETPTR at the shared
/// payload region, enable the handled interrupts, clear READY and ramp
/// the transmitter up.
pub open spec fn tx_start_writes(txpower: u32) -> Seq<RegWrite> {
    seq![
        rw(Reg::Power, 0),
        rw(Reg::Power, 1),
        rw(Reg::TxPower, txpower),
        rw(Reg::Mode, RADIO_MODE_BLE_1MBIT),
        rw(Reg::Frequency, RADIO_FREQ_CH_37),
        rw(Reg::DataWhiteIv, 37),
        rw(Reg::Prefix0, RADIO_PREFIX0_BLE_ADV),
        rw(Reg::Base0, RADIO_BASE0_BLE_ADV),
        rw(Reg::TxAddress, 0),
        rw(Reg::RxAddresses, 1),
        rw(Reg::Pcnf0, RADIO_PCNF0_BLE_ADV),
        rw(Reg::Pcnf1, RADIO_PCNF1_BLE_ADV),
        rw(Reg::CrcCnf, RADIO_CRCCNF_BLE),
        rw(Reg::CrcInit, RADIO_CRCINIT_BLE),
        rw(Reg::CrcPoly, RADIO_CRCPOLY_BLE),
        rw(Reg::PacketPtr, RADIO_PACKETPTR_PAYLOAD_REGION),
        rw(Reg::IntenSet, RADIO_INTEN_ALL_HANDLED),
        rw(Reg::Ready, 0),
        rw(Reg::Txen, 1),
    ]
}

/// Register values `start_advertisement_tx` leaves behind.
pub open spec fn tx_start_post(s: RegState, txpower: u32) -> RegState {
    RegState {
        power: 1,
        txpower: txpower,
        mode: RADIO_MODE_BLE_1MBIT,
        frequency: RADIO_FREQ_CH_37,
        datawhiteiv: 37,
        prefix0: RADIO_PREFIX0_BLE_ADV,
        base0: RADIO_BASE0_BLE_ADV,
        txaddress: 0,
        rxaddresses: 1,
        pcnf0: RADIO_PCNF0_BLE_ADV,
        pcnf1: RADIO_PCNF1_BLE_ADV,
        crccnf: RADIO_CRCCNF_BLE,
        crcinit: RADIO_CRCINIT_BLE,
        crcpoly: RADIO_CRCPOLY_BLE,
        packetptr: RADIO_PACKETPTR_PAYLOAD_REGION,
        intenset: RADIO_INTEN_ALL_HANDLED,
        ready: 0,
        txen: 1,
        ..s
    }
}

/// The trace `start_advertisement_rx` appends for the rotated channel
/// `channel`: like the transmit arm, but without a TX power write, with
/// the rotated channel's frequency and whitening IV, and ramping the
/// receiver up.
pub open spec fn rx_start_writes(channel: u32) -> Seq<RegWrite> {
    seq![
        rw(Reg::Power, 0),
        rw(Reg::Power, 1),
        rw(Reg::Mode, RADIO_MODE_BLE_1MBIT),
        rw(Reg::Frequency, freq_code(channel)),
        rw(Reg::DataWhiteIv, channel),
        rw(Reg::Prefix0, RADIO_PREFIX0_BLE_ADV),
        rw(Reg::Base0, RADIO_BASE0_BLE_ADV),
        rw(Reg::TxAddress, 0),
        rw(Reg::RxAddresses, 1),
        rw(Reg::Pcnf0, RADIO_PCNF0_BLE_ADV),
        rw(Reg::Pcnf1, RADIO_PCNF1_BLE_ADV),
        rw(Reg::CrcCnf, RADIO_CRCCNF_BLE),
        rw(Reg::CrcInit, RADIO_CRCINIT_BLE),
        rw(Reg::CrcPoly, RADIO_CRCPOLY_BLE),
        rw(Reg::PacketPtr, RADIO_PACKETPTR_PAYLOAD_REGION),
        rw(Reg::IntenSet, RADIO_INTEN_ALL_HANDLED),
        rw(Reg::Ready, 0),
        rw(Reg::Rxen, 1),
    ]
}

/// Register values `start_advertisement_rx` leaves behind.
pub open spec fn rx_start_post(s: RegState, channel: u32) -> RegState {
    RegState {
        power: 1,
        mode: RADIO_MODE_BLE_1MBIT,
        frequency: freq_code(channel),
        datawhiteiv: channel,
        prefix0: RADIO_PREFIX0_BLE_ADV,
        base0: RADIO_BASE0_BLE_ADV,
        txaddress: 0,
        rxaddresses: 1,
        pcnf0: RADIO_PCNF0_BLE_ADV,
        pcnf1: RADIO_PCNF1_BLE_ADV,
        crccnf: RADIO_CRCCNF_BLE,
        crcinit: RADIO_CRCINIT_BLE,
        crcpoly: RADIO_CRCPOLY_BLE,
        packetptr: RADIO_PACKETPTR_PAYLOAD_REGION,
        intenset: RADIO_INTEN_ALL_HANDLED,
        ready: 0,
        rxen: 1,
        ..s
    }
}

/// The advertising radio driver.
///
/// One instance drives one physical radio block.  The register window is
/// handed to each operation instead of being owned, so a harness can
/// stand between the driver and the registers the way the hardware does.
pub struct Radio<C: AdvertisementClient> {
    /// Cached TX power code, applied on the next transmit arm.
    pub txpower: u32,
    /// The installed callback sink, if any.
    pub client: Option<C>,
    /// Last-used receive channel; 0 until the first receive arm.
    pub freq: u32,
    /// Caller tag bound to the current cycle, echoed in callbacks.
    pub appid: Option<u32>,
    /// The shared payload region PACKETPTR points at: byte 0 is the PDU
    /// header, byte 1 its length field, bytes 2.. the payload.
    pub payload: Vec<u8>,
}

impl<C: AdvertisementClient> Radio<C> {
    /// The driver's invariant: the payload region has its fixed capacity,
    /// the cached TX power is one of the legal codes, and the receive
    /// channel is 0 (never armed) or one of the advertising channels.
    pub open spec fn wf(&self) -> bool {
        &&& self.payload@.len() == RADIO_PAYLOAD_LENGTH
        &&& valid_txpower(self.txpower)
        &&& (self.freq == 0 || self.freq == 37 || self.freq == 38 || self.freq == 39)
    }

    /// The application id a callback carries: the bound one, or the
    /// sentinel when no caller is bound.
    pub open spec fn current_appid(&self) -> u32 {
        match self.appid {
            Some(id) => id,
            None => APPID_MISSING,
        }
    }

    /// A fresh driver: default TX power 0 dBm, no client, no bound
    /// caller, receive rotation at its initial position, payload zeroed.
    pub fn new() -> (r: Radio<C>)
        ensures
            r.wf(),
            r.txpower == 0,
            r.client is None,
            r.freq == 0,
            r.appid is None,
            r.payload@ == Seq::new(RADIO_PAYLOAD_LENGTH as nat, |i: int| 0u8),
    {
        let mut payload: Vec<u8> = Vec::new();
        let mut i: usize = 0;
        while i < RADIO_PAYLOAD_LENGTH
            invariant
                i <= RADIO_PAYLOAD_LENGTH,
                payload@.len() == i,
                forall|j: int| 0 <= j < i ==> payload@[j] == 0u8,
            decreases RADIO_PAYLOAD_LENGTH - i,
        {
            payload.push(0);
            i += 1;
        }
        proof {
            assert(payload@ =~= Seq::new(RADIO_PAYLOAD_LENGTH as nat, |j: int| 0u8));
        }
        Radio { txpower: 0, client: None, freq: 0, appid: None, payload }
    }

    /// Program the CRC engine with the BLE values: 3-byte CRC over the
    /// PDU only, BLE initial value and polynomial.
    pub fn set_crc_config(&self, regs: &mut Registers)
        ensures
            final(regs).s == (RegState {
                crccnf: RADIO_CRCCNF_BLE,
                crcinit: RADIO_CRCINIT_BLE,
                crcpoly: RADIO_CRCPOLY_BLE,
                ..old(regs).s
            }),
            final(regs).log@ == old(regs).log@ + seq![
                rw(Reg::CrcCnf, RADIO_CRCCNF_BLE),
                rw(Reg::CrcInit, RADIO_CRCINIT_BLE),
                rw(Reg::CrcPoly, RADIO_CRCPOLY_BLE),
            ],
    {
        regs.write(Reg::CrcCnf, RADIO_CRCCNF_BLE);
        regs.write(Reg::CrcInit, RADIO_CRCINIT_BLE);
        regs.write(Reg::CrcPoly, RADIO_CRCPOLY_BLE);
    }

    /// Program the packet format for BLE advertising: 1-byte S0, 8-bit
    /// length field, 3-byte base address, little endian, whitening on,
    /// no static length, maximum payload 37 bytes.
    pub fn set_packet_config(&self, regs: &mut Registers)
        ensures
            final(regs).s == (RegState {
                pcnf0: RADIO_PCNF0_BLE_ADV,
                pcnf1: RADIO_PCNF1_BLE_ADV,
                ..old(regs).s
            }),
            final(regs).log@ == old(regs).log@ + seq![
                rw(Reg::Pcnf0, RADIO_PCNF0_BLE_ADV),
                rw(Reg::Pcnf1, RADIO_PCNF1_BLE_ADV),
            ],
    {
        regs.write(Reg::Pcnf0, RADIO_PCNF0_BLE_ADV);
        regs.write(Reg::Pcnf1, RADIO_PCNF1_BLE_ADV);
    }

    /// Accept frames on logical address 0 only.
    pub fn set_rx_address(&self, regs: &mut Registers)
        ensures
            final(regs).s == spec_write(old(regs).s, Reg::RxAddresses, 1),
            final(regs).log@ == old(regs).log@.push(rw(Reg::RxAddresses, 1)),
    {
        regs.write(Reg::RxAddresses, 0x01);
    }

    /// Transmit with logical address 0.
    pub fn set_tx_address(&self, regs: &mut Registers)
        ensures
            final(regs).s == spec_write(old(regs).s, Reg::TxAddress, 0),
            final(regs).log@ == old(regs).log@.push(rw(Reg::TxAddress, 0)),
    {
        regs.write(Reg::TxAddress, 0x00);
    }

    /// Program the on-air data rate; the driver always passes the BLE
    /// 1 Mbit/s mode.
    pub fn set_channel_rate(&self, regs: &mut Registers, rate: u32)
        ensures
            final(regs).s == spec_write(old(regs).s, Reg::Mode, rate),
            final(regs).log@ == old(regs).log@.push(rw(Reg::Mode, rate)),
    {
        regs.write(Reg::Mode, rate);
    }

    /// Program the data-whitening initial value; BLE fixes it to the
    /// channel number.
    pub fn set_data_white_iv(&self, regs: &mut Registers, val: u32)
        ensures
            final(regs).s == spec_write(old(regs).s, Reg::DataWhiteIv, val),
            final(regs).log@ == old(regs).log@.push(rw(Reg::DataWhiteIv, val)),
    {
        regs.write(Reg::DataWhiteIv, val);
    }

    /// Program FREQUENCY for an advertising channel; any channel outside
    /// 37..39 is coerced to channel 37.
    pub fn set_channel_freq(&self, regs: &mut Registers, val: u32)
        ensures
            final(regs).s == spec_write(old(regs).s, Reg::Frequency, freq_code(val)),
            final(regs).log@ == old(regs).log@.push(rw(Reg::Frequency, freq_code(val))),
    {
        if val == 37 {
            regs.write(Reg::Frequency, RADIO_FREQ_CH_37);
        } else if val == 38 {
            regs.write(Reg::Frequency, RADIO_FREQ_CH_38);
        } else if val == 39 {
            regs.write(Reg::Frequency, RADIO_FREQ_CH_39);
        } else {
            regs.write(Reg::Frequency, RADIO_FREQ_CH_37);
        }
    }

    /// Power the radio block on through a clean reset: POWER = 0, then 1.
    pub fn radio_on(&self, regs: &mut Registers)
        ensures
            final(regs).s == (RegState { power: 1, ..old(regs).s }),
            final(regs).log@ == old(regs).log@ + seq![rw(Reg::Power, 0), rw(Reg::Power, 1)],
    {
        regs.write(Reg::Power, 0);
        regs.write(Reg::Power, 1);
    }

    /// Power the radio block off.
    pub fn radio_off(&self, regs: &mut Registers)
        ensures
            final(regs).s == spec_write(old(regs).s, Reg::Power, 0),
            final(regs).log@ == old(regs).log@.push(rw(Reg::Power, 0)),
    {
        regs.write(Reg::Power, 0);
    }

    /// Program the cached TX power code; the cache only ever holds a
    /// legal code, so no check is needed here.
    pub fn set_txpower(&self, regs: &mut Registers)
        ensures
            final(regs).s == spec_write(old(regs).s, Reg::TxPower, self.txpower),
            final(regs).log@ == old(regs).log@.push(rw(Reg::TxPower, self.txpower)),
    {
        regs.write(Reg::TxPower, self.txpower);
    }

    /// Point PACKETPTR at the shared payload region.
    pub fn set_buffer(&self, regs: &mut Registers)
        ensures
            final(regs).s == spec_write(old(regs).s, Reg::PacketPtr, RADIO_PACKETPTR_PAYLOAD_REGION),
            final(regs).log@ == old(regs).log@.push(
                rw(Reg::PacketPtr, RADIO_PACKETPTR_PAYLOAD_REGION),
            ),
    {
        regs.write(Reg::PacketPtr, RADIO_PACKETPTR_PAYLOAD_REGION);
    }

    /// Enable the READY, ADDRESS, PAYLOAD and END interrupts.
    pub fn enable_interrupts(&self, regs: &mut Registers)
        ensures
            final(regs).s == spec_write(old(regs).s, Reg::IntenSet, RADIO_INTEN_ALL_HANDLED),
            final(regs).log@ == old(regs).log@.push(rw(Reg::IntenSet, RADIO_INTEN_ALL_HANDLED)),
    {
        regs.write(Reg::IntenSet, RADIO_INTEN_ALL_HANDLED);
    }

    /// Disable every radio interrupt.
    pub fn disable_interrupts(&self, regs: &mut Registers)
        ensures
            final(regs).s == spec_write(old(regs).s, Reg::IntenClr, RADIO_INTENCLR_ALL),
            final(regs).log@ == old(regs).log@.push(rw(Reg::IntenClr, RADIO_INTENCLR_ALL)),
    {
        regs.write(Reg::IntenClr, RADIO_INTENCLR_ALL);
    }

    /// Copy the first `len` bytes of `buf` into the shared payload
    /// region and hand `buf` back unchanged, so the caller keeps
    /// ownership.  The bytes past `len` keep their previous values.
    /// Callers must respect the region's capacity and must not call this
    /// while a transmit or receive cycle is in flight.
    pub fn set_advertisement_data(&mut self, buf: Vec<u8>, len: usize) -> (r: Vec<u8>)
        requires
            old(self).wf(),
            len <= RADIO_PAYLOAD_LENGTH,
            len <= buf@.len(),
        ensures
            final(self).wf(),
            r == buf,
            forall|i: int| 0 <= i < len ==> final(self).payload@[i] == buf@[i],
            forall|i: int|
                len <= i < RADIO_PAYLOAD_LENGTH as int ==> final(self).payload@[i] == old(
                    self,
                ).payload@[i],
            final(self).payload@.len() == RADIO_PAYLOAD_LENGTH,
            final(self).txpower == old(self).txpower,
            final(self).freq == old(self).freq,
            final(self).appid == old(self).appid,
            final(self).client == old(self).client,
    {
        let mut i: usize = 0;
        while i < len
            invariant
                i <= len,
                len <= buf@.len(),
                len <= RADIO_PAYLOAD_LENGTH,
                self.payload@.len() == RADIO_PAYLOAD_LENGTH,
                forall|j: int| 0 <= j < i ==> self.payload@[j] == buf@[j],
                forall|j: int|
                    i <= j < RADIO_PAYLOAD_LENGTH as int ==> self.payload@[j] == old(
                        self,
                    ).payload@[j],
                self.txpower == old(self).txpower,
                self.freq == old(self).freq,
                self.appid == old(self).appid,
                self.client == old(self).client,
            decreases len - i,
        {
            let b = buf[i];
            self.payload.set(i, b);
            i += 1;
        }
        buf
    }

    /// Cache a TX power code for the next transmit arm.  The eight legal
    /// codes are accepted and cached; any other code is rejected with
    /// `ENoSupport` and changes nothing.
    pub fn set_advertisement_txpower(&mut self, power: u32) -> (r: ReturnCode)
        ensures
            r == ReturnCode::Success <==> valid_txpower(power),
            valid_txpower(power) ==> final(self).txpower == power,
            !valid_txpower(power) ==> final(self).txpower == old(self).txpower,
            final(self).freq == old(self).freq,
            final(self).appid == old(self).appid,
            final(self).client == old(self).client,
            final(self).payload == old(self).payload,
            old(self).wf() ==> final(self).wf(),
    {
        match power {
            0x04 | 0x00 | 0xF4 | 0xFC | 0xF8 | 0xF0 | 0xEC | 0xD8 => {
                self.txpower = power;
                ReturnCode::Success
            },
            _ => ReturnCode::ENoSupport,
        }
    }

    /// Begin a transmit sweep for `appid`: power the radio on, program
    /// the cached TX power and the fixed BLE advertising parameters on
    /// channel 37, enable interrupts, clear READY and ramp the
    /// transmitter up.  The call returns at once; after the sweep's last
    /// channel the interrupt handler powers the radio off and fires
    /// `advertisement_fired(appid)` exactly once.  Only one sweep may be
    /// in flight at a time: callers must not start another before that
    /// callback arrives.
    pub fn start_advertisement_tx(&mut self, regs: &mut Registers, appid: u32)
        requires
            old(self).wf(),
        ensures
            final(self).wf(),
            final(self).appid == Some(appid),
            final(self).txpower == old(self).txpower,
            final(self).freq == old(self).freq,
            final(self).client == old(self).client,
            final(self).payload == old(self).payload,
            final(regs).s == tx_start_post(old(regs).s, old(self).txpower),
            final(regs).log@ == old(regs).log@ + tx_start_writes(old(self).txpower),
    {
        self.appid = Some(appid);

        self.radio_on(regs);

        // TX power according to the cached code
        self.set_txpower(regs);

        // BLE 1 Mbit/s mode
        self.set_channel_rate(regs, RADIO_MODE_BLE_1MBIT);

        self.set_channel_freq(regs, 37);
        self.set_data_white_iv(regs, 37);

        // The fixed BLE advertising access address: PREFIX0 | BASE0
        regs.write(Reg::Prefix0, RADIO_PREFIX0_BLE_ADV);
        regs.write(Reg::Base0, RADIO_BASE0_BLE_ADV);

        self.set_tx_address(regs);
        self.set_rx_address(regs);

        self.set_packet_config(regs);
        self.set_crc_config(regs);

        self.set_buffer(regs);

        self.enable_interrupts(regs);

        regs.write(Reg::Ready, 0);
        regs.write(Reg::Txen, 1);
    }

    /// Begin a receive arm for `appid` on the next channel of the
    /// 37 -> 38 -> 39 -> 37 rotation (the first arm lands on 37): power
    /// the radio on, program the fixed BLE advertising parameters on that
    /// channel, enable interrupts, clear READY and ramp the receiver up.
    /// A frame with a good CRC is delivered once through
    /// `receive(payload, length, Success, appid)`; the driver does not
    /// rearm afterwards.
    pub fn start_advertisement_rx(&mut self, regs: &mut Registers, appid: u32)
        requires
            old(self).wf(),
        ensures
            final(self).wf(),
            final(self).appid == Some(appid),
            final(self).freq == rotate_channel(old(self).freq),
            final(self).txpower == old(self).txpower,
            final(self).client == old(self).client,
            final(self).payload == old(self).payload,
            final(regs).s == rx_start_post(old(regs).s, final(self).freq),
            final(regs).log@ == old(regs).log@ + rx_start_writes(final(self).freq),
    {
        self.appid = Some(appid);

        self.radio_on(regs);

        // BLE 1 Mbit/s mode
        self.set_channel_rate(regs, RADIO_MODE_BLE_1MBIT);

        // Listen on each advertising channel in turn across arms.
        if self.freq == 37 {
            self.freq = 38;
        } else if self.freq == 38 {
            self.freq = 39;
        } else {
            self.freq = 37;
        }

        let channel = self.freq;
        self.set_channel_freq(regs, channel);
        self.set_data_white_iv(regs, channel);

        // The fixed BLE advertising access address: PREFIX0 | BASE0
        regs.write(Reg::Prefix0, RADIO_PREFIX0_BLE_ADV);
        regs.write(Reg::Base0, RADIO_BASE0_BLE_ADV);

        self.set_tx_address(regs);
        self.set_rx_address(regs);

        self.set_packet_config(regs);
        self.set_crc_config(regs);

        self.set_buffer(regs);

        self.enable_interrupts(regs);

        regs.write(Reg::Ready, 0);
        regs.write(Reg::Rxen, 1);
    }

    /// Install the callback sink.  Idempotent: the last installed client
    /// wins, and installing over an earlier one is allowed.
    pub fn set_client(&mut self, client: C)
        ensures
            final(self).client == Some(client),
            final(self).txpower == old(self).txpower,
            final(self).freq == old(self).freq,
            final(self).appid == old(self).appid,
            final(self).payload == old(self).payload,
            old(self).wf() ==> final(self).wf(),
    {
        self.client = Some(client);
    }

    /// The radio's interrupt entry.
    ///
    /// On entry all radio interrupts are disabled; each event register
    /// found set -- READY, PAYLOAD, ADDRESS, END -- is acknowledged by
    /// writing 0.  A served READY also pre-clears END and writes
    /// START = 1.  A served END runs the channel sweep: in a transmit
    /// state the driver advances 37 -> 38 -> 39, and after channel 39 it
    /// powers the radio off and fires `advertisement_fired`; in a receive
    /// state a good CRC delivers the payload to the client and a failed
    /// CRC is dropped silently.  On exit the handled interrupts are
    /// re-enabled, except after the final power-off, which stays the last
    /// register write of the sweep.  The returned value is the completion
    /// that was delivered to the client, for the harness to compare.
    pub fn handle_interrupt(&self, regs: &mut Registers) -> (cb: Callback)
        requires
            self.wf(),
        ensures
            final(regs).s == irq_post(old(regs).s),
            final(regs).log@ == old(regs).log@ + irq_writes(old(regs).s),
            cb == irq_callback(old(regs).s, self.payload@, self.current_appid()),
    {
        self.disable_interrupts(regs);

        if regs.s.ready == 1 {
            regs.write(Reg::Ready, 0);
            regs.write(Reg::End, 0);
            regs.write(Reg::Start, 1);
        }

        if regs.s.payload == 1 {
            regs.write(Reg::Payload, 0);
        }

        if regs.s.address == 1 {
            regs.write(Reg::Address, 0);
        }

        let mut cb = Callback::Nothing;
        let mut powered_off = false;

        if regs.s.end == 1 {
            regs.write(Reg::End, 0);
            regs.write(Reg::Disable, 1);
            let state = regs.s.state;
            if state == RADIO_STATE_TXRU || state == RADIO_STATE_TXIDLE
                || state == RADIO_STATE_TXDISABLE || state == RADIO_STATE_TX {
                // END in a transmit state: the transmission on the
                // current channel is finished.
                let frequency = regs.s.frequency;
                if frequency == RADIO_FREQ_CH_39 {
                    // The sweep is done: power off, then notify.
                    self.radio_off(regs);
                    powered_off = true;
                    cb = Callback::AdvertisementFired { appid: self.bound_appid() };
                } else if frequency == RADIO_FREQ_CH_38 {
                    self.set_channel_freq(regs, 39);
                    self.set_data_white_iv(regs, 39);
                    regs.write(Reg::Ready, 0);
                    regs.write(Reg::Txen, 1);
                } else if frequency == RADIO_FREQ_CH_37 {
                    self.set_channel_freq(regs, 38);
                    self.set_data_white_iv(regs, 38);
                    regs.write(Reg::Ready, 0);
                    regs.write(Reg::Txen, 1);
                } else {
                    // Outside a well-formed sweep: fall back to channel 37.
                    self.set_channel_freq(regs, 37);
                    self.set_data_white_iv(regs, 37);
                }
            } else if state == RADIO_STATE_RXRU || state == RADIO_STATE_RXIDLE
                || state == RADIO_STATE_RXDISABLE || state == RADIO_STATE_RX {
                if regs.s.crcstatus == 1 {
                    let len = self.payload[1] as usize + 1;
                    cb = Callback::Receive { appid: self.bound_appid(), len };
                }
                // A failed CRC drops the frame silently.
            }
        }

        if !powered_off {
            self.enable_interrupts(regs);
        }

        match cb {
            Callback::AdvertisementFired { appid } => {
                match &self.client {
                    Some(c) => c.advertisement_fired(appid),
                    None => (),
                }
            },
            Callback::Receive { appid, len } => {
                match &self.client {
                    Some(c) => c.receive(&self.payload, len, ReturnCode::Success, appid),
                    None => (),
                }
            },
            Callback::Nothing => (),
        }

        cb
    }

    /// The application id bound to the current cycle, or the sentinel.
    fn bound_appid(&self) -> (r: u32)
        ensures
            r == self.current_appid(),
    {
        match self.appid {
            Some(id) => id,
            None => APPID_MISSING,
        }
    }
}

} // verus!
