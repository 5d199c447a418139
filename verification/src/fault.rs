use vstd::prelude::*;

verus! {

/// A condition that a well-behaved program never triggers. The bus latches
/// the first fault it sees and the CPU run loop halts on it; the host treats
/// a latched fault as fatal.
#[derive(Clone, Copy, PartialEq, Eq, Debug, Structural)]
pub enum Fault {
    /// A read of a write-only memory-mapped register.
    ReadFromWriteOnly,
    /// A write to the read-only PPU status register.
    WriteToStatus,
    /// A write into cartridge PRG ROM space.
    WriteToRom,
    /// A PPU data access inside the unused 0x3000-0x3EFF mirror.
    ForbiddenVramRange,
    /// An opcode byte that names no instruction, official or unofficial.
    UnknownOpcode,
}

} // verus!
