//! Driver-wide laws.
//!
//! The contracts in [`crate::radio`] pin down, call by call, the trace of
//! register writes and the completion each operation produces.  The proof
//! functions here state the properties that span several calls -- what a
//! whole transmit sweep writes to FREQUENCY and DATAWHITEIV, that it
//! fires exactly one advertisement callback and ends on POWER = 0, the
//! interrupt handler's enable/disable discipline, the silence of a
//! CRC-failing reception, and the receive-channel rotation formula -- and
//! prove them from those contract-level models.

use vstd::prelude::*;

use crate::radio::{
    ack_writes, end_pending, freq_code, irq_callback, irq_post, irq_writes, is_rx_state,
    is_tx_state, rotate_channel, rx_start_writes, sweep_complete, sweep_writes, tx_start_writes,
    Callback,
};
use crate::regs::{
    lemma_writes_to_absent, lemma_writes_to_concat, lemma_writes_to_one, lemma_writes_to_two,
    rw, writes_to, Reg, RegState, RegWrite, RADIO_FREQ_CH_37, RADIO_FREQ_CH_38, RADIO_FREQ_CH_39,
    RADIO_INTENCLR_ALL, RADIO_INTEN_ALL_HANDLED,
};

verus! {

/// Every write acknowledging an event touches only the event and START
/// registers, never a configuration register.
proof fn lemma_ack_writes_events(s: RegState)
    ensures
        forall|i: int|
            0 <= i < ack_writes(s).len() ==> {
                let reg = (#[trigger] ack_writes(s)[i]).reg;
                reg == Reg::Ready || reg == Reg::End || reg == Reg::Start || reg == Reg::Payload
                    || reg == Reg::Address
            },
{
}

/// The whole trace appended by one transmit arm: FREQUENCY is written
/// once, with channel 37's code; DATAWHITEIV once, with 37; POWER twice,
/// off then on.
pub proof fn lemma_tx_start_projections(txpower: u32)
    ensures
        writes_to(tx_start_writes(txpower), Reg::Frequency) == seq![RADIO_FREQ_CH_37],
        writes_to(tx_start_writes(txpower), Reg::DataWhiteIv) == seq![37u32],
        writes_to(tx_start_writes(txpower), Reg::Power) == seq![0u32, 1u32],
{
    let t = tx_start_writes(txpower);
    lemma_writes_to_one(t, 4, Reg::Frequency);
    lemma_writes_to_one(t, 5, Reg::DataWhiteIv);
    lemma_writes_to_two(t, 0, 1, Reg::Power);
}

/// The whole trace appended by one receive arm on channel `channel`:
/// FREQUENCY is written once, with that channel's code, and DATAWHITEIV
/// once, with the channel number itself.
pub proof fn lemma_rx_start_projections(channel: u32)
    ensures
        writes_to(rx_start_writes(channel), Reg::Frequency) == seq![freq_code(channel)],
        writes_to(rx_start_writes(channel), Reg::DataWhiteIv) == seq![channel],
{
    let t = rx_start_writes(channel);
    lemma_writes_to_one(t, 3, Reg::Frequency);
    lemma_writes_to_one(t, 4, Reg::DataWhiteIv);
}

/// An interrupt that serves an END in a transmit state on channel 37 or
/// 38 writes the next channel's frequency and whitening IV, once each,
/// and never touches POWER.
proof fn lemma_irq_tx_step_projections(s: RegState)
    requires
        end_pending(s),
        is_tx_state(s.state),
        s.frequency == RADIO_FREQ_CH_37 || s.frequency == RADIO_FREQ_CH_38,
    ensures
        writes_to(irq_writes(s), Reg::Frequency) == seq![
            if s.frequency == RADIO_FREQ_CH_37 {
                RADIO_FREQ_CH_38
            } else {
                RADIO_FREQ_CH_39
            },
        ],
        writes_to(irq_writes(s), Reg::DataWhiteIv) == seq![
            if s.frequency == RADIO_FREQ_CH_37 {
                38u32
            } else {
                39u32
            },
        ],
        writes_to(irq_writes(s), Reg::Power) == Seq::<u32>::empty(),
{
    let a = seq![rw(Reg::IntenClr, RADIO_INTENCLR_ALL)];
    let b = ack_writes(s);
    let c = seq![rw(Reg::End, 0), rw(Reg::Disable, 1)] + sweep_writes(s);
    let d = seq![rw(Reg::IntenSet, RADIO_INTEN_ALL_HANDLED)];
    assert(irq_writes(s) == a + b + c + d);
    lemma_ack_writes_events(s);
    lemma_writes_to_concat(a + b + c, d, Reg::Frequency);
    lemma_writes_to_concat(a + b, c, Reg::Frequency);
    lemma_writes_to_concat(a, b, Reg::Frequency);
    lemma_writes_to_absent(a, Reg::Frequency);
    lemma_writes_to_absent(b, Reg::Frequency);
    lemma_writes_to_one(c, 2, Reg::Frequency);
    lemma_writes_to_absent(d, Reg::Frequency);
    lemma_writes_to_concat(a + b + c, d, Reg::DataWhiteIv);
    lemma_writes_to_concat(a + b, c, Reg::DataWhiteIv);
    lemma_writes_to_concat(a, b, Reg::DataWhiteIv);
    lemma_writes_to_absent(a, Reg::DataWhiteIv);
    lemma_writes_to_absent(b, Reg::DataWhiteIv);
    lemma_writes_to_one(c, 3, Reg::DataWhiteIv);
    lemma_writes_to_absent(d, Reg::DataWhiteIv);
    lemma_writes_to_concat(a + b + c, d, Reg::Power);
    lemma_writes_to_concat(a + b, c, Reg::Power);
    lemma_writes_to_concat(a, b, Reg::Power);
    lemma_writes_to_absent(a, Reg::Power);
    lemma_writes_to_absent(b, Reg::Power);
    lemma_writes_to_absent(c, Reg::Power);
    lemma_writes_to_absent(d, Reg::Power);
}

/// The interrupt that serves the END of channel 39 in a transmit state
/// writes POWER = 0 as its very last write and touches neither FREQUENCY
/// nor DATAWHITEIV.
proof fn lemma_irq_tx_final_projections(s: RegState)
    requires
        end_pending(s),
        is_tx_state(s.state),
        s.frequency == RADIO_FREQ_CH_39,
    ensures
        writes_to(irq_writes(s), Reg::Frequency) == Seq::<u32>::empty(),
        writes_to(irq_writes(s), Reg::DataWhiteIv) == Seq::<u32>::empty(),
        writes_to(irq_writes(s), Reg::Power) == seq![0u32],
        irq_writes(s).len() > 0,
        irq_writes(s).last() == rw(Reg::Power, 0),
{
    let a = seq![rw(Reg::IntenClr, RADIO_INTENCLR_ALL)];
    let b = ack_writes(s);
    let c = seq![rw(Reg::End, 0), rw(Reg::Disable, 1), rw(Reg::Power, 0)];
    assert(seq![rw(Reg::End, 0), rw(Reg::Disable, 1)] + sweep_writes(s) =~= c);
    assert(irq_writes(s) =~= a + b + c);
    lemma_ack_writes_events(s);
    lemma_writes_to_concat(a + b, c, Reg::Frequency);
    lemma_writes_to_concat(a, b, Reg::Frequency);
    lemma_writes_to_absent(a, Reg::Frequency);
    lemma_writes_to_absent(b, Reg::Frequency);
    lemma_writes_to_absent(c, Reg::Frequency);
    lemma_writes_to_concat(a + b, c, Reg::DataWhiteIv);
    lemma_writes_to_concat(a, b, Reg::DataWhiteIv);
    lemma_writes_to_absent(a, Reg::DataWhiteIv);
    lemma_writes_to_absent(b, Reg::DataWhiteIv);
    lemma_writes_to_absent(c, Reg::DataWhiteIv);
    lemma_writes_to_concat(a + b, c, Reg::Power);
    lemma_writes_to_concat(a, b, Reg::Power);
    lemma_writes_to_absent(a, Reg::Power);
    lemma_writes_to_absent(b, Reg::Power);
    lemma_writes_to_one(c, 2, Reg::Power);
    assert(irq_writes(s).last() == (a + b + c).last());
}

/// The trace of one whole transmit sweep: the arm on channel 37 and the
/// three END interrupts that follow it.
pub open spec fn tx_sweep_trace(txpower: u32, s1: RegState, s2: RegState, s3: RegState) -> Seq<
    RegWrite,
> {
    tx_start_writes(txpower) + irq_writes(s1) + irq_writes(s2) + irq_writes(s3)
}

/// Law: across one full transmit sweep, the values written to FREQUENCY
/// are exactly the codes of channels 37, 38 and 39 in that order, and the
/// values written to DATAWHITEIV exactly 37, 38, 39; POWER is written off
/// and on when the sweep starts and off when it completes, so the sweep's
/// very last register write is POWER = 0; and exactly one completion is
/// delivered, the advertisement callback for the bound caller, by the
/// last of the three interrupts.
///
/// `s1`, `s2` and `s3` are the register states on entry to the three END
/// interrupts.  The preconditions say no more than that each interrupt
/// finds END pending in a transmit state and that the hardware leaves
/// FREQUENCY as the driver programmed it: channel 37's code after the
/// arm, and whatever each interrupt left thereafter.
pub proof fn lemma_tx_sweep(
    txpower: u32,
    s1: RegState,
    s2: RegState,
    s3: RegState,
    payload: Seq<u8>,
    appid: u32,
)
    requires
        end_pending(s1),
        is_tx_state(s1.state),
        s1.frequency == RADIO_FREQ_CH_37,
        end_pending(s2),
        is_tx_state(s2.state),
        s2.frequency == irq_post(s1).frequency,
        end_pending(s3),
        is_tx_state(s3.state),
        s3.frequency == irq_post(s2).frequency,
    ensures
        writes_to(tx_sweep_trace(txpower, s1, s2, s3), Reg::Frequency) == seq![
            RADIO_FREQ_CH_37,
            RADIO_FREQ_CH_38,
            RADIO_FREQ_CH_39,
        ],
        writes_to(tx_sweep_trace(txpower, s1, s2, s3), Reg::DataWhiteIv) == seq![
            37u32,
            38u32,
            39u32,
        ],
        writes_to(tx_sweep_trace(txpower, s1, s2, s3), Reg::Power) == seq![0u32, 1u32, 0u32],
        tx_sweep_trace(txpower, s1, s2, s3).last() == rw(Reg::Power, 0),
        irq_callback(s1, payload, appid) == Callback::Nothing,
        irq_callback(s2, payload, appid) == Callback::Nothing,
        irq_callback(s3, payload, appid) == (Callback::AdvertisementFired { appid }),
{
    let t0 = tx_start_writes(txpower);
    let w1 = irq_writes(s1);
    let w2 = irq_writes(s2);
    let w3 = irq_writes(s3);
    assert(s2.frequency == RADIO_FREQ_CH_38);
    assert(s3.frequency == RADIO_FREQ_CH_39);
    lemma_tx_start_projections(txpower);
    lemma_irq_tx_step_projections(s1);
    lemma_irq_tx_step_projections(s2);
    lemma_irq_tx_final_projections(s3);
    lemma_writes_to_concat(t0 + w1 + w2, w3, Reg::Frequency);
    lemma_writes_to_concat(t0 + w1, w2, Reg::Frequency);
    lemma_writes_to_concat(t0, w1, Reg::Frequency);
    lemma_writes_to_concat(t0 + w1 + w2, w3, Reg::DataWhiteIv);
    lemma_writes_to_concat(t0 + w1, w2, Reg::DataWhiteIv);
    lemma_writes_to_concat(t0, w1, Reg::DataWhiteIv);
    lemma_writes_to_concat(t0 + w1 + w2, w3, Reg::Power);
    lemma_writes_to_concat(t0 + w1, w2, Reg::Power);
    lemma_writes_to_concat(t0, w1, Reg::Power);
    assert(writes_to(tx_sweep_trace(txpower, s1, s2, s3), Reg::Frequency) =~= seq![
        RADIO_FREQ_CH_37,
        RADIO_FREQ_CH_38,
        RADIO_FREQ_CH_39,
    ]);
    assert(writes_to(tx_sweep_trace(txpower, s1, s2, s3), Reg::DataWhiteIv) =~= seq![
        37u32,
        38u32,
        39u32,
    ]);
    assert(writes_to(tx_sweep_trace(txpower, s1, s2, s3), Reg::Power) =~= seq![0u32, 1u32, 0u32]);
    assert(tx_sweep_trace(txpower, s1, s2, s3).last() == w3.last());
}

/// Law: whatever state an interrupt finds, its first register write
/// clears every interrupt (INTENCLR = all ones) -- so all interrupts are
/// off before any event is acknowledged -- and its last write re-enables
/// the READY, ADDRESS, PAYLOAD and END interrupts, except for the
/// interrupt that completes a transmit sweep, whose last write is the
/// power-off.
pub proof fn lemma_interrupt_discipline(s: RegState)
    ensures
        irq_writes(s).len() > 0,
        irq_writes(s)[0] == rw(Reg::IntenClr, RADIO_INTENCLR_ALL),
        !sweep_complete(s) ==> irq_writes(s).last() == rw(
            Reg::IntenSet,
            RADIO_INTEN_ALL_HANDLED,
        ),
        sweep_complete(s) ==> irq_writes(s).last() == rw(Reg::Power, 0),
{
    if sweep_complete(s) {
        lemma_irq_tx_final_projections(s);
    }
}

/// Law: an END served in a receive state with a failed CRC delivers
/// nothing to the client, and the state machine adds no register write
/// beyond the acknowledgement itself -- the interrupt's whole trace is
/// the interrupt-disable, the event acknowledgements, and the re-enable.
pub proof fn lemma_rx_crc_fail_is_silent(s: RegState, payload: Seq<u8>, appid: u32)
    requires
        end_pending(s),
        is_rx_state(s.state),
        s.crcstatus == 0,
    ensures
        irq_callback(s, payload, appid) == Callback::Nothing,
        irq_writes(s) == seq![rw(Reg::IntenClr, RADIO_INTENCLR_ALL)] + ack_writes(s) + seq![
            rw(Reg::End, 0),
            rw(Reg::Disable, 1),
            rw(Reg::IntenSet, RADIO_INTEN_ALL_HANDLED),
        ],
{
    assert(irq_writes(s) =~= seq![rw(Reg::IntenClr, RADIO_INTENCLR_ALL)] + ack_writes(s) + seq![
        rw(Reg::End, 0),
        rw(Reg::Disable, 1),
        rw(Reg::IntenSet, RADIO_INTEN_ALL_HANDLED),
    ]);
}

/// Law: for a previous channel among 37, 38 and 39 the next receive
/// channel is ((previous - 37 + 1) mod 3) + 37, and any other previous
/// value -- in particular the initial 0 -- yields 37, so the first arm
/// lands on channel 37.
pub proof fn lemma_rx_rotation_formula(prev: u32)
    ensures
        prev == 37 || prev == 38 || prev == 39 ==> rotate_channel(prev) == ((prev - 37 + 1) % 3)
            + 37,
        !(prev == 37 || prev == 38 || prev == 39) ==> rotate_channel(prev) == 37,
{
}

} // verus!
