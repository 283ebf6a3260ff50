//! Model of the nRF5x radio register window.
//!
//! The physical peripheral is a block of volatile 32-bit registers at a
//! fixed base address.  The model holds the same registers as plain `u32`
//! values, together with the ordered trace of every write the driver
//! performs.  The trace is what the ordering contracts speak about: which
//! values reach FREQUENCY during a sweep, that INTENCLR is written before
//! any event is acknowledged, and so on.  The hardware-driven registers
//! (events, STATE, CRCSTATUS) are ordinary fields that a harness sets
//! between driver calls, the way the radio engine would.

use vstd::prelude::*;

verus! {

/// FREQUENCY code for advertising channel 37 (2402 MHz, offset from 2400).
pub const RADIO_FREQ_CH_37: u32 = 2;

/// FREQUENCY code for advertising channel 38 (2426 MHz, offset from 2400).
pub const RADIO_FREQ_CH_38: u32 = 26;

/// FREQUENCY code for advertising channel 39 (2480 MHz, offset from 2400).
pub const RADIO_FREQ_CH_39: u32 = 80;

/// STATE register: radio disabled.
pub const RADIO_STATE_DISABLE: u32 = 0;

/// STATE register: receive ramp-up.
pub const RADIO_STATE_RXRU: u32 = 1;

/// STATE register: receive idle.
pub const RADIO_STATE_RXIDLE: u32 = 2;

/// STATE register: receiving.
pub const RADIO_STATE_RX: u32 = 3;

/// STATE register: receive disable in progress.
pub const RADIO_STATE_RXDISABLE: u32 = 4;

/// STATE register: transmit ramp-up.
pub const RADIO_STATE_TXRU: u32 = 9;

/// STATE register: transmit idle.
pub const RADIO_STATE_TXIDLE: u32 = 10;

/// STATE register: transmitting.
pub const RADIO_STATE_TX: u32 = 11;

/// STATE register: transmit disable in progress.
pub const RADIO_STATE_TXDISABLE: u32 = 12;

/// CRCCNF for BLE: 3-byte CRC (LEN = 3 in bits 0..1), skip the address
/// bytes (SKIPADDR = 1 at bit 8).
pub const RADIO_CRCCNF_BLE: u32 = 0x0000_0103;

/// CRCINIT for BLE advertising.
pub const RADIO_CRCINIT_BLE: u32 = 0x0055_5555;

/// CRCPOLY for BLE: x^24 + x^10 + x^9 + x^6 + x^4 + x^3 + x + 1.
pub const RADIO_CRCPOLY_BLE: u32 = 0x0000_065B;

/// PCNF0 for BLE advertising: S0 field 1 byte (S0LEN = 1 at bit 8),
/// LENGTH field 8 bits (LFLEN = 8 in bits 0..3), no S1 field.
pub const RADIO_PCNF0_BLE_ADV: u32 = 0x0000_0108;

/// PCNF1 for BLE advertising: whitening enabled (bit 25), little endian
/// (bit 24 = 0), base address 3 bytes (BALEN = 3 in bits 16..18, so the
/// whole access address is 4 bytes with the 1-byte prefix), static length
/// 0, maximum payload 37 bytes (bits 0..7).
pub const RADIO_PCNF1_BLE_ADV: u32 = 0x0203_0025;

/// INTENSET bit for the READY event.
pub const RADIO_INTENSET_READY: u32 = 0x0000_0001;

/// INTENSET bit for the ADDRESS event.
pub const RADIO_INTENSET_ADDRESS: u32 = 0x0000_0002;

/// INTENSET bit for the PAYLOAD event.
pub const RADIO_INTENSET_PAYLOAD: u32 = 0x0000_0004;

/// INTENSET bit for the END event.
pub const RADIO_INTENSET_END: u32 = 0x0000_0008;

/// READY | ADDRESS | PAYLOAD | END: the events the interrupt handler serves.
pub const RADIO_INTEN_ALL_HANDLED: u32 = 0x0000_000F;

/// Value written to INTENCLR on interrupt entry: clear every interrupt.
pub const RADIO_INTENCLR_ALL: u32 = 0xFFFF_FFFF;

/// MODE register value for BLE 1 Mbit/s.
pub const RADIO_MODE_BLE_1MBIT: u32 = 3;

/// PREFIX0 byte of the fixed BLE advertising access address.
pub const RADIO_PREFIX0_BLE_ADV: u32 = 0x0000_008E;

/// BASE0 bytes of the fixed BLE advertising access address.
pub const RADIO_BASE0_BLE_ADV: u32 = 0x89BE_D600;

/// Capacity of the shared payload region the radio transmits from and
/// receives into: 31-byte advertising payload, 2-byte header, headroom.
pub const RADIO_PAYLOAD_LENGTH: usize = 37;

/// Value the model records for PACKETPTR.  On hardware the register takes
/// the physical address of the shared payload region; the model has no
/// addresses, so this tag stands for "points at the shared payload region".
pub const RADIO_PACKETPTR_PAYLOAD_REGION: u32 = 1;

/// One register of the radio block, named as in the vendor reference.
#[derive(Clone, Copy, PartialEq, Eq, Debug, Hash, Structural)]
pub enum Reg {
    Power,
    Txen,
    Rxen,
    Start,
    Disable,
    Ready,
    Address,
    Payload,
    End,
    State,
    CrcStatus,
    Frequency,
    DataWhiteIv,
    Pcnf0,
    Pcnf1,
    CrcCnf,
    CrcInit,
    CrcPoly,
    RxAddresses,
    TxAddress,
    Prefix0,
    Base0,
    Mode,
    TxPower,
    PacketPtr,
    IntenSet,
    IntenClr,
}

/// One 32-bit store to a register, as the trace records it.
#[derive(Clone, Copy, PartialEq, Eq, Debug, Structural)]
pub struct RegWrite {
    pub reg: Reg,
    pub val: u32,
}

/// Shorthand for one trace entry.
pub open spec fn rw(reg: Reg, val: u32) -> RegWrite {
    RegWrite { reg, val }
}

/// The current value of every register of the block.
#[derive(Clone, Copy, PartialEq, Eq, Debug, Structural)]
pub struct RegState {
    pub power: u32,
    pub txen: u32,
    pub rxen: u32,
    pub start: u32,
    pub disable: u32,
    pub ready: u32,
    pub address: u32,
    pub payload: u32,
    pub end: u32,
    pub state: u32,
    pub crcstatus: u32,
    pub frequency: u32,
    pub datawhiteiv: u32,
    pub pcnf0: u32,
    pub pcnf1: u32,
    pub crccnf: u32,
    pub crcinit: u32,
    pub crcpoly: u32,
    pub rxaddresses: u32,
    pub txaddress: u32,
    pub prefix0: u32,
    pub base0: u32,
    pub mode: u32,
    pub txpower: u32,
    pub packetptr: u32,
    pub intenset: u32,
    pub intenclr: u32,
}

/// Register values after storing `val` into `reg`.
///
/// INTENSET and INTENCLR are kept as "last value written" like every other
/// register: the driver never reads the interrupt mask back, so the
/// set/clear semantics of the hardware never show in its behaviour; the
/// ordering contracts read the trace instead.
pub open spec fn spec_write(s: RegState, reg: Reg, val: u32) -> RegState {
    match reg {
        Reg::Power => RegState { power: val, ..s },
        Reg::Txen => RegState { txen: val, ..s },
        Reg::Rxen => RegState { rxen: val, ..s },
        Reg::Start => RegState { start: val, ..s },
        Reg::Disable => RegState { disable: val, ..s },
        Reg::Ready => RegState { ready: val, ..s },
        Reg::Address => RegState { address: val, ..s },
        Reg::Payload => RegState { payload: val, ..s },
        Reg::End => RegState { end: val, ..s },
        Reg::State => RegState { state: val, ..s },
        Reg::CrcStatus => RegState { crcstatus: val, ..s },
        Reg::Frequency => RegState { frequency: val, ..s },
        Reg::DataWhiteIv => RegState { datawhiteiv: val, ..s },
        Reg::Pcnf0 => RegState { pcnf0: val, ..s },
        Reg::Pcnf1 => RegState { pcnf1: val, ..s },
        Reg::CrcCnf => RegState { crccnf: val, ..s },
        Reg::CrcInit => RegState { crcinit: val, ..s },
        Reg::CrcPoly => RegState { crcpoly: val, ..s },
        Reg::RxAddresses => RegState { rxaddresses: val, ..s },
        Reg::TxAddress => RegState { txaddress: val, ..s },
        Reg::Prefix0 => RegState { prefix0: val, ..s },
        Reg::Base0 => RegState { base0: val, ..s },
        Reg::Mode => RegState { mode: val, ..s },
        Reg::TxPower => RegState { txpower: val, ..s },
        Reg::PacketPtr => RegState { packetptr: val, ..s },
        Reg::IntenSet => RegState { intenset: val, ..s },
        Reg::IntenClr => RegState { intenclr: val, ..s },
    }
}

/// The register block as reset leaves it: every register zero.
pub open spec fn reset_regs() -> RegState {
    RegState {
        power: 0,
        txen: 0,
        rxen: 0,
        start: 0,
        disable: 0,
        ready: 0,
        address: 0,
        payload: 0,
        end: 0,
        state: 0,
        crcstatus: 0,
        frequency: 0,
        datawhiteiv: 0,
        pcnf0: 0,
        pcnf1: 0,
        crccnf: 0,
        crcinit: 0,
        crcpoly: 0,
        rxaddresses: 0,
        txaddress: 0,
        prefix0: 0,
        base0: 0,
        mode: 0,
        txpower: 0,
        packetptr: 0,
        intenset: 0,
        intenclr: 0,
    }
}

/// The register window: current values plus the ordered trace of writes.
pub struct Registers {
    /// Current value of each register.
    pub s: RegState,
    /// Every write the driver performed, oldest first.
    pub log: Vec<RegWrite>,
}

impl Registers {
    /// A freshly mapped block: all registers zero, nothing written yet.
    pub fn new() -> (r: Registers)
        ensures
            r.s == reset_regs(),
            r.log@ == Seq::<RegWrite>::empty(),
    {
        Registers {
            s: RegState {
                power: 0,
                txen: 0,
                rxen: 0,
                start: 0,
                disable: 0,
                ready: 0,
                address: 0,
                payload: 0,
                end: 0,
                state: 0,
                crcstatus: 0,
                frequency: 0,
                datawhiteiv: 0,
                pcnf0: 0,
                pcnf1: 0,
                crccnf: 0,
                crcinit: 0,
                crcpoly: 0,
                rxaddresses: 0,
                txaddress: 0,
                prefix0: 0,
                base0: 0,
                mode: 0,
                txpower: 0,
                packetptr: 0,
                intenset: 0,
                intenclr: 0,
            },
            log: Vec::new(),
        }
    }

    /// Store `val` into `reg` and record the store in the trace.
    pub fn write(&mut self, reg: Reg, val: u32)
        ensures
            final(self).s == spec_write(old(self).s, reg, val),
            final(self).log@ == old(self).log@.push(rw(reg, val)),
    {
        self.log.push(RegWrite { reg, val });
        match reg {
            Reg::Power => { self.s.power = val; }
            Reg::Txen => { self.s.txen = val; }
            Reg::Rxen => { self.s.rxen = val; }
            Reg::Start => { self.s.start = val; }
            Reg::Disable => { self.s.disable = val; }
            Reg::Ready => { self.s.ready = val; }
            Reg::Address => { self.s.address = val; }
            Reg::Payload => { self.s.payload = val; }
            Reg::End => { self.s.end = val; }
            Reg::State => { self.s.state = val; }
            Reg::CrcStatus => { self.s.crcstatus = val; }
            Reg::Frequency => { self.s.frequency = val; }
            Reg::DataWhiteIv => { self.s.datawhiteiv = val; }
            Reg::Pcnf0 => { self.s.pcnf0 = val; }
            Reg::Pcnf1 => { self.s.pcnf1 = val; }
            Reg::CrcCnf => { self.s.crccnf = val; }
            Reg::CrcInit => { self.s.crcinit = val; }
            Reg::CrcPoly => { self.s.crcpoly = val; }
            Reg::RxAddresses => { self.s.rxaddresses = val; }
            Reg::TxAddress => { self.s.txaddress = val; }
            Reg::Prefix0 => { self.s.prefix0 = val; }
            Reg::Base0 => { self.s.base0 = val; }
            Reg::Mode => { self.s.mode = val; }
            Reg::TxPower => { self.s.txpower = val; }
            Reg::PacketPtr => { self.s.packetptr = val; }
            Reg::IntenSet => { self.s.intenset = val; }
            Reg::IntenClr => { self.s.intenclr = val; }
        }
    }
}

/// The values stored to `reg`, in trace order.
pub open spec fn writes_to(log: Seq<RegWrite>, reg: Reg) -> Seq<u32>
    decreases log.len(),
{
    if log.len() == 0 {
        Seq::empty()
    } else {
        (if log[0].reg == reg {
            seq![log[0].val]
        } else {
            Seq::empty()
        }) + writes_to(log.skip(1), reg)
    }
}

/// A trace that never touches `reg` projects to the empty sequence.
pub proof fn lemma_writes_to_absent(log: Seq<RegWrite>, reg: Reg)
    requires
        forall|i: int| 0 <= i < log.len() ==> (#[trigger] log[i]).reg != reg,
    ensures
        writes_to(log, reg) == Seq::<u32>::empty(),
    decreases log.len(),
{
    if log.len() > 0 {
        assert forall|i: int| 0 <= i < log.skip(1).len() implies (#[trigger] log.skip(
            1,
        )[i]).reg != reg by {
            assert(log.skip(1)[i] == log[i + 1]);
        }
        lemma_writes_to_absent(log.skip(1), reg);
        assert(writes_to(log, reg) =~= Seq::<u32>::empty());
    }
}

/// A trace that touches `reg` exactly once, at position `k`, projects to
/// that one value.
pub proof fn lemma_writes_to_one(log: Seq<RegWrite>, k: int, reg: Reg)
    requires
        0 <= k < log.len(),
        log[k].reg == reg,
        forall|i: int| 0 <= i < log.len() && i != k ==> (#[trigger] log[i]).reg != reg,
    ensures
        writes_to(log, reg) == seq![log[k].val],
    decreases log.len(),
{
    if k == 0 {
        assert forall|i: int| 0 <= i < log.skip(1).len() implies (#[trigger] log.skip(
            1,
        )[i]).reg != reg by {
            assert(log.skip(1)[i] == log[i + 1]);
        }
        lemma_writes_to_absent(log.skip(1), reg);
        assert(writes_to(log, reg) =~= seq![log[0].val]);
    } else {
        assert forall|i: int|
            0 <= i < log.skip(1).len() && i != k - 1 implies (#[trigger] log.skip(
            1,
        )[i]).reg != reg by {
            assert(log.skip(1)[i] == log[i + 1]);
        }
        assert(log.skip(1)[k - 1] == log[k]);
        lemma_writes_to_one(log.skip(1), k - 1, reg);
        assert(writes_to(log, reg) =~= seq![log[k].val]);
    }
}

/// A trace that touches `reg` exactly twice, at positions `k1 < k2`,
/// projects to those two values in order.
pub proof fn lemma_writes_to_two(log: Seq<RegWrite>, k1: int, k2: int, reg: Reg)
    requires
        0 <= k1 < k2 < log.len(),
        log[k1].reg == reg,
        log[k2].reg == reg,
        forall|i: int| 0 <= i < log.len() && i != k1 && i != k2 ==> (#[trigger] log[i]).reg != reg,
    ensures
        writes_to(log, reg) == seq![log[k1].val, log[k2].val],
    decreases log.len(),
{
    if k1 == 0 {
        assert forall|i: int|
            0 <= i < log.skip(1).len() && i != k2 - 1 implies (#[trigger] log.skip(
            1,
        )[i]).reg != reg by {
            assert(log.skip(1)[i] == log[i + 1]);
        }
        assert(log.skip(1)[k2 - 1] == log[k2]);
        lemma_writes_to_one(log.skip(1), k2 - 1, reg);
        assert(writes_to(log, reg) =~= seq![log[k1].val, log[k2].val]);
    } else {
        assert forall|i: int|
            0 <= i < log.skip(1).len() && i != k1 - 1 && i != k2 - 1 implies (#[trigger] log.skip(
            1,
        )[i]).reg != reg by {
            assert(log.skip(1)[i] == log[i + 1]);
        }
        assert(log.skip(1)[k1 - 1] == log[k1]);
        assert(log.skip(1)[k2 - 1] == log[k2]);
        lemma_writes_to_two(log.skip(1), k1 - 1, k2 - 1, reg);
        assert(writes_to(log, reg) =~= seq![log[k1].val, log[k2].val]);
    }
}

/// `writes_to` distributes over concatenation of traces.
pub proof fn lemma_writes_to_concat(a: Seq<RegWrite>, b: Seq<RegWrite>, reg: Reg)
    ensures
        writes_to(a + b, reg) == writes_to(a, reg) + writes_to(b, reg),
    decreases a.len(),
{
    if a.len() == 0 {
        assert(a + b =~= b);
        assert(writes_to(a, reg) + writes_to(b, reg) =~= writes_to(b, reg));
    } else {
        lemma_writes_to_concat(a.skip(1), b, reg);
        assert((a + b).skip(1) =~= a.skip(1) + b);
        assert(writes_to(a + b, reg) =~= writes_to(a, reg) + writes_to(b, reg));
    }
}

} // verus!
