//! The 16-bit frames exchanged with the device, and their wire encoding.
//!
//! A command frame is `parity bit | read flag | 14-bit address`; a response
//! frame is `2 status bits | 14-bit value`. Frames travel as two bytes,
//! most significant first.

use vstd::prelude::*;

use crate::parity::count_ones;
use crate::parity::set_parity;
use crate::parity::set_parity_spec;
use crate::registers::Register;

verus! {

/// The read flag of a command frame: bit 14.
pub const READ_FLAG: u16 = 0x4000;

/// The command frame that asks the device for `reg`: the read flag and the
/// register's address, with bit 15 chosen for even parity.
pub open spec fn encode_command_spec(reg: Register) -> u16 {
    set_parity_spec(READ_FLAG | reg.addr_spec())
}

/// Encode a read command for `reg`. The frame carries the register's
/// address in its low 14 bits, has the read flag set, and has an even
/// total count of set bits.
pub fn encode_command(reg: Register) -> (c: u16)
    ensures
        c == encode_command_spec(reg),
        c & 0x3FFF == reg.addr_spec(),
        c & 0x4000 == 0x4000,
        count_ones(c) % 2 == 0,
{
    let addr = reg.addr();
    let base = READ_FLAG | addr;
    let c = set_parity(base);
    proof {
        assert(base & 0x8000 == 0 && base & 0x3FFF == addr && base & 0x4000 == 0x4000)
            by (bit_vector)
            requires base == 0x4000u16 | addr && addr < 0x4000;
        assert(c & 0x3FFF == base & 0x3FFF && c & 0x4000 == base & 0x4000) by (bit_vector)
            requires c & 0x7FFF == base & 0x7FFF;
    }
    c
}

/// Every register's encoded command frame has an even total count of set
/// bits: the read flag and the 14 address bits leave bit 15 clear, and the
/// parity bit is chosen to make the count even.
pub proof fn lemma_command_parity_even(reg: Register)
    ensures
        count_ones(encode_command_spec(reg)) % 2 == 0,
{
    let addr = reg.addr_spec();
    let base = (READ_FLAG | addr) as u16;
    assert(addr < 0x4000);
    assert(base & 0x8000 == 0) by (bit_vector)
        requires base == 0x4000u16 | addr && addr < 0x4000;
    crate::parity::lemma_xor_fold_is_parity(base);
    if count_ones(base) % 2 == 1 {
        assert(count_ones((base | 0x8000) as u16) == count_ones(base) + 1) by (bit_vector)
            requires base & 0x8000 == 0;
    }
}

/// The 16-bit value carried by two bytes, most significant first.
pub open spec fn word_of_bytes(b0: u8, b1: u8) -> u16 {
    (((b0 as u16) << 8) | (b1 as u16)) as u16
}

/// Split a 16-bit value into two bytes, most significant first.
pub fn to_be_bytes(v: u16) -> (b: [u8; 2])
    ensures
        b@[0] == (v >> 8) as u8,
        b@[1] == (v & 0xFF) as u8,
        word_of_bytes(b@[0], b@[1]) == v,
{
    let b0 = (v >> 8) as u8;
    let b1 = (v & 0xFF) as u8;
    proof {
        assert(((((v >> 8) as u8) as u16) << 8) | (((v & 0xFF) as u8) as u16) == v)
            by (bit_vector);
    }
    [b0, b1]
}

/// Read a 16-bit value out of two bytes, most significant first.
pub fn from_be_bytes(b: [u8; 2]) -> (v: u16)
    ensures
        v == word_of_bytes(b@[0], b@[1]),
{
    ((b[0] as u16) << 8) | (b[1] as u16)
}

/// The register content carried by a response: the low 14 bits of the
/// frame. The top 2 bits carry device status and parity, which this
/// driver does not validate: they are discarded.
pub open spec fn response_value_spec(b0: u8, b1: u8) -> u16 {
    word_of_bytes(b0, b1) & 0x3FFF
}

/// Extract the 14-bit register value from a response frame's bytes.
pub fn response_value(b: [u8; 2]) -> (v: u16)
    ensures
        v == response_value_spec(b@[0], b@[1]),
        v == word_of_bytes(b@[0], b@[1]) & 0x3FFF,
        v < 0x4000,
{
    let word = from_be_bytes(b);
    let v = word & 0x3FFF;
    proof {
        assert(word & 0x3FFF < 0x4000) by (bit_vector);
    }
    v
}

/// Extract the diagnostics flags and the automatic gain from a response to
/// a diagnostics request: the flags are the low nibble of the first byte,
/// the gain is the whole second byte.
pub fn response_diag_gain(b: [u8; 2]) -> (r: (u8, u8))
    ensures
        r.0 == b@[0] & 0x0F,
        r.1 == b@[1],
        r.0 < 0x10,
{
    let diag = b[0] & 0x0F;
    proof {
        let b0 = b@[0];
        assert(b0 & 0x0F < 0x10) by (bit_vector);
    }
    (diag, b[1])
}

/// Masking a response keeps exactly the low 14 bits: for any 16-bit raw
/// response value, the extracted register value is the raw value masked
/// with `0x3FFF`, and so always below `0x4000`.
pub proof fn lemma_response_masking(raw: u16)
    ensures
        response_value_spec((raw >> 8) as u8, (raw & 0xFF) as u8) == raw & 0x3FFF,
        raw & 0x3FFF < 0x4000,
{
    assert((((((raw >> 8) as u8) as u16) << 8) | (((raw & 0xFF) as u8) as u16)) as u16 == raw)
        by (bit_vector);
    assert(raw & 0x3FFF < 0x4000) by (bit_vector);
}

} // verus!
