//! The conditions on which a cycle stops without effect.

use vstd::prelude::*;

verus! {

/// Why an instruction could not be carried out. Each is fatal to the program:
/// the machine is left as it was before the cycle.
#[derive(Clone, Copy, Debug, PartialEq, Eq)]
pub enum CpuError {
    /// The word `word`, fetched at `address`, is no instruction.
    DecodeFailure { word: u16, address: u16 },
    /// A call at `address` with all stack slots in use.
    StackOverflow { address: u16 },
    /// A return at `address` with no call to return from.
    StackUnderflow { address: u16 },
    /// An access that starts at `address`, taken from the program counter or
    /// the index register, and runs past the end of memory.
    MemoryBounds { address: u16 },
}

} // verus!
