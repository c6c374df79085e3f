//! The failures a step can end in.
use crate::rv32::Rv32;
use vstd::prelude::*;

verus! {

/// The kind of access that was refused.
#[derive(Clone, Copy, Debug, PartialEq, Eq, Structural)]
pub enum MemoryAccess {
    Load,
    Store,
    Swap,
}

/// A refused guest-memory access.
#[derive(Clone, Copy, Debug, PartialEq, Eq, Structural)]
pub enum MemoryError {
    /// An access that must be aligned to `required` bytes was not.
    UnalignedMemoryAccess { access: MemoryAccess, addr: u32, required: u32 },
    /// The `size` bytes at `addr` are not all inside guest memory.
    OutOfBounds { addr: u32, size: u32 },
}

/// A failure of the hart itself, carrying the offending address.
#[derive(Clone, Copy, Debug, PartialEq, Eq, Structural)]
pub enum HartError {
    /// The word at `addr` encodes no instruction.
    InvalidInstruction { addr: u32, inst: u32 },
    /// The instruction at `addr` is an explicit illegal instruction.
    IllegalInstruction { addr: u32, op: Rv32 },
    /// The instruction at `addr` is known but not modelled.
    UnimplementedInstruction { addr: u32, op: Rv32 },
}

/// A failure that ends a step: the hart's, the memory's, or one the
/// kernel reported.
#[derive(Clone, Copy, Debug, PartialEq, Eq)]
pub enum MachineError<E> {
    Hart(HartError),
    Memory(MemoryError),
    Kernel(E),
}

} // verus!
