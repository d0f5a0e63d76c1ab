use vstd::prelude::*;

verus! {

/// Number of 16-bit words in the address space.
pub const MEMORY_MAX: usize = 65536;

/// Address of the first instruction fetched when no other entry is given.
pub const PC_START: u16 = 0x3000;

/// Number of addressable register slots: R0..R7, PC and COND.
pub const REGISTER_COUNT: usize = 10;

} // verus!
