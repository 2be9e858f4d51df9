//! An emulator for a 16-bit reduced instruction set CPU: a 65536-word memory,
//! eight general-purpose registers, a program counter and a condition-flag
//! register, driven by a fetch-decode-execute loop over 16-bit instruction
//! words.

use vstd::prelude::*;

pub mod vm;

verus! {

/// Number of 16-bit memory cells: one for every 16-bit address, so that any
/// address computed with wraparound arithmetic stays inside the memory.
pub const MEMORY_SIZE: usize = 65536;

/// Conventional load address: the program counter starts here.
pub const PC_START: u16 = 0x3000;

/// Condition flag: the last computed value was strictly positive (bit 15 clear
/// and not zero).
pub const FL_POS: u16 = 1;

/// Condition flag: the last computed value was zero.
pub const FL_ZRO: u16 = 2;

/// Condition flag: the last computed value was negative (bit 15 set).
pub const FL_NEG: u16 = 4;

} // verus!
