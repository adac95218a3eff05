//! The device's readable registers and their 14-bit addresses.

use vstd::prelude::*;

verus! {

/// The closed set of register addresses this driver can ask the device for.
/// Every address fits in the 14 address bits of a command frame.
#[derive(Copy, Clone)]
pub enum Register {
    ClearErrorFlag,
    ProgrammingControl,
    OtpRegisterZeroPosHigh,
    OtpRegisterZeroPosLow,
    DiagAgc,
    Magnitude,
    Angle,
}

impl Register {
    /// The register's address on the wire.
    pub open spec fn addr_spec(self) -> u16 {
        match self {
            Register::ClearErrorFlag => 0x0001,
            Register::ProgrammingControl => 0x0003,
            Register::OtpRegisterZeroPosHigh => 0x0016,
            Register::OtpRegisterZeroPosLow => 0x0017,
            Register::DiagAgc => 0x3FFD,
            Register::Magnitude => 0x3FFE,
            Register::Angle => 0x3FFF,
        }
    }

    /// The register's address; always representable in 14 bits.
    pub fn addr(self) -> (a: u16)
        ensures
            a == self.addr_spec(),
            a < 0x4000,
    {
        match self {
            Register::ClearErrorFlag => 0x0001,
            Register::ProgrammingControl => 0x0003,
            Register::OtpRegisterZeroPosHigh => 0x0016,
            Register::OtpRegisterZeroPosLow => 0x0017,
            Register::DiagAgc => 0x3FFD,
            Register::Magnitude => 0x3FFE,
            Register::Angle => 0x3FFF,
        }
    }
}

} // verus!
