//! The driver: register reads built on the transaction machine.
//!
//! The driver owns the chip-select pin for its whole lifetime; the bus is
//! borrowed from the caller for each read. Both are abstracted as traits
//! with no assumptions: any hardware step may fail with its own error type,
//! and nothing is known about the bytes a transfer clocks back — the
//! device's answer is whatever the bus returns, and only the verified
//! post-processing of those bytes is pinned down.

use core::marker::PhantomData;

use vstd::prelude::*;

use crate::engine::Action;
use crate::engine::Error;
use crate::engine::Event;
use crate::engine::Phase;
use crate::engine::Step;
use crate::engine::advance;
use crate::engine::phase_action;
use crate::engine::rank;
use crate::frame::encode_command;
use crate::frame::response_diag_gain;
use crate::frame::response_value;
use crate::frame::to_be_bytes;
use crate::registers::Register;

verus! {

/// A chip-select line: a digital output pin, active low. Either operation
/// may fail with the pin's own error type; nothing else is assumed of the
/// hardware.
pub trait OutputPin {
    type Error;

    /// Drive the line low (assert chip-select).
    fn set_low(&mut self) -> Result<(), Self::Error>;

    /// Drive the line high (release chip-select).
    fn set_high(&mut self) -> Result<(), Self::Error>;
}

/// A full-duplex serial bus: `words` is clocked out, and whatever the
/// device clocks back replaces it in place. The transfer may fail with the
/// bus's own error type; nothing is assumed about the bytes that come back.
pub trait SpiBus {
    type Error;

    /// Exchange one two-byte frame with the device.
    fn transfer_in_place(&mut self, words: &mut [u8; 2]) -> Result<(), Self::Error>;
}

/// Driver for the AS5048A rotary encoder. It owns the chip-select pin; the
/// bus is passed in by the caller for each read.
pub struct AS5048A<SPI, CS> {
    spi: PhantomData<SPI>,
    cs: CS,
}

impl<SPI, CS> AS5048A<SPI, CS> where
    SPI: SpiBus,
    CS: OutputPin,
 {
    /// Make a driver that owns the given chip-select pin. Touches no
    /// hardware.
    pub fn new(cs: CS) -> Self {
        AS5048A { spi: PhantomData, cs }
    }

    /// Read the diagnostics register: the diagnostic flags (the low nibble
    /// of the response's first byte, so always below `0x10`) and the
    /// automatic gain (the whole second byte).
    pub fn diag_gain(&mut self, spi: &mut SPI) -> (r: Result<(u8, u8), Error<SPI::Error, CS::Error>>)
        ensures
            r matches Ok(p) ==> p.0 < 0x10,
    {
        match self.read(spi, Register::DiagAgc) {
            Ok(arr) => Ok(response_diag_gain(arr)),
            Err(e) => Err(e),
        }
    }

    /// Read the magnitude register; only the low 14 bits are significant,
    /// so the result is always below `0x4000`.
    pub fn magnitude(&mut self, spi: &mut SPI) -> (r: Result<u16, Error<SPI::Error, CS::Error>>)
        ensures
            r matches Ok(v) ==> v < 0x4000,
    {
        self.read_u16(spi, Register::Magnitude)
    }

    /// Read the rotation angle; only the low 14 bits are significant, so
    /// the result is always below `0x4000`.
    pub fn angle(&mut self, spi: &mut SPI) -> (r: Result<u16, Error<SPI::Error, CS::Error>>)
        ensures
            r matches Ok(v) ==> v < 0x4000,
    {
        self.read_u16(spi, Register::Angle)
    }

    /// Read a register and keep the low 14 bits of the response — the
    /// register's content; the top 2 status bits are discarded.
    pub fn read_u16(&mut self, spi: &mut SPI, reg: Register) -> (r: Result<u16, Error<SPI::Error, CS::Error>>)
        ensures
            r matches Ok(v) ==> v < 0x4000,
    {
        match self.read(spi, reg) {
            Ok(arr) => Ok(response_value(arr)),
            Err(e) => Err(e),
        }
    }

    /// Read a register: run the two-phase transaction and return the raw
    /// response bytes, most significant first. The phases run in the
    /// machine's order; the first step that fails aborts the transaction
    /// with that step's error, and no later hardware step is attempted.
    pub fn read(&mut self, spi: &mut SPI, reg: Register) -> Result<[u8; 2], Error<SPI::Error, CS::Error>> {
        let cmd = encode_command(reg);
        let mut buf: [u8; 2] = to_be_bytes(cmd);
        let mut phase = Phase::CmdAssert;
        loop
            decreases rank(phase),
        {
            let event: Event<SPI::Error, CS::Error> = match phase_action(phase) {
                Action::AssertCs => match self.cs.set_low() {
                    Ok(()) => Event::CsOk,
                    Err(e) => Event::CsErr(e),
                },
                Action::ReleaseCs => match self.cs.set_high() {
                    Ok(()) => Event::CsOk,
                    Err(e) => Event::CsErr(e),
                },
                Action::TransferCommand => match spi.transfer_in_place(&mut buf) {
                    Ok(()) => Event::TransferOk,
                    Err(e) => Event::TransferErr(e),
                },
                Action::TransferNop => {
                    buf = [0x00, 0x00];
                    match spi.transfer_in_place(&mut buf) {
                        Ok(()) => Event::TransferOk,
                        Err(e) => Event::TransferErr(e),
                    }
                },
            };
            match advance(phase, event) {
                Step::Continue(next) => {
                    phase = next;
                },
                Step::Done => {
                    return Ok(buf);
                },
                Step::Failed(e) => {
                    return Err(e);
                },
            }
        }
    }
}

} // verus!
