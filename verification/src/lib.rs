//! Instruction-execution core of an ARMv4-style CPU interpreter.
//!
//! The crate decodes 32-bit data-processing instruction words, evaluates
//! their execution condition against the processor status flags, resolves
//! the second operand through the barrel shifter, performs the requested
//! ALU operation and commits the result and flag updates to the register
//! file.  Every step is specified and verified bit-exactly.

use vstd::prelude::*;

pub mod alu;
pub mod cpu;
pub mod decode;

verus! {

/// Errors surfaced by condition evaluation and instruction execution.
#[derive(Clone, Copy, PartialEq, Eq, Structural, Debug)]
pub enum ExecError {
    /// The 4-bit condition field holds the one reserved encoding.
    IllegalCondition,
    /// The S bit is set with the program counter as destination, a
    /// mode-switch form this core does not implement.
    IllegalDestination,
}

/// True when the sign bit (bit 31) of `x` is set.
pub open spec fn bit31(x: u32) -> bool {
    x & 0x8000_0000u32 != 0
}

/// True when bit `i` of `x` is set (`i < 32`).
pub open spec fn bit_at(x: u32, i: u32) -> bool
    recommends
        i < 32,
{
    x & (1u32 << i) != 0
}

} // verus!
