//! Masks of the status register's bits. A set of flags is their bitwise
//! union, so `Flags::I | Flags::N` names the I and N bits together.
use vstd::prelude::*;

verus! {

/// Carry.
pub const C: u8 = 0x01;
/// Zero.
pub const Z: u8 = 0x02;
/// Interrupts disabled.
pub const I: u8 = 0x04;
/// Decimal mode (kept, but without effect on arithmetic).
pub const D: u8 = 0x08;
/// Break: set only in the byte that PHP and BRK push.
pub const B: u8 = 0x10;
/// Unused: reads as 1.
pub const U: u8 = 0x20;
/// Overflow.
pub const V: u8 = 0x40;
/// Negative.
pub const N: u8 = 0x80;

} // verus!
