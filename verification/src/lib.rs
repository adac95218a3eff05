//! Driver logic for the AS5048A magnetic rotary encoder.
//!
//! The AS5048A is read over a chip-select-gated serial bus. A register read
//! is a pipelined two-phase transaction: a command frame carrying an
//! even-parity bit and a 14-bit register address is clocked out, and the
//! register's content is clocked back during the following all-zero frame.
//!
//! The crate is organised leaves first: [`registers`] holds the closed set
//! of register addresses, [`parity`] the even-parity codec, [`frame`] the
//! command and response frame layout, [`engine`] the two-phase transaction
//! as a step machine with its abort semantics, and [`driver`] the public
//! read operations on top of it.

pub mod driver;
pub mod engine;
pub mod frame;
pub mod parity;
pub mod registers;

pub use driver::AS5048A;
pub use driver::OutputPin;
pub use driver::SpiBus;
pub use engine::Error;
pub use frame::encode_command;
pub use parity::set_parity;
pub use registers::Register;
