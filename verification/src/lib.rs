//! Bluetooth Low Energy advertising radio driver for the nRF5x family,
//! verified against a plain-value model of the memory-mapped register window.
//!
//! The driver programs the radio for BLE advertising, sweeps the three
//! advertising channels in transmit mode, rotates them across receive
//! arms, and delivers completion callbacks to a client.  Every register
//! access goes through [`regs::Registers`], which keeps both the current
//! register values and the full ordered trace of writes, so the contracts
//! can pin down exactly what the hardware is told to do and in what order.

pub mod adc;
pub mod laws;
pub mod radio;
pub mod regs;
