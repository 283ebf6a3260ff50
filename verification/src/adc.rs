//! Register layout of the SAM4L ADCIFE block.
//!
//! The single-shot ADC sampler itself is an external collaborator of this
//! crate and is not modelled here; only the shape of its register window
//! is kept, one word per 32-bit register in the order the hardware maps
//! them at the block's base address.

use vstd::prelude::*;

verus! {

/// Base address of the ADCIFE register window.
pub const ADC_BASE_ADDRESS: usize = 0x40038000;

/// The ADCIFE registers, in map order from the base address: control,
/// configuration, status, status clear, a reserved word, sequencer
/// configuration, DMA configuration, timing, internal timer, window
/// configuration and threshold, last converted value, interrupt enable,
/// disable and mask, calibration, version and parameter.
#[allow(dead_code)]
pub struct AdcRegisters {
    cr: usize,
    cfg: usize,
    sr: usize,
    scr: usize,
    pad: usize,
    seqcfg: usize,
    cdma: usize,
    tim: usize,
    itimer: usize,
    wcfg: usize,
    wth: usize,
    lcv: usize,
    ier: usize,
    idr: usize,
    imr: usize,
    calib: usize,
    version: usize,
    parameter: usize,
}

} // verus!
