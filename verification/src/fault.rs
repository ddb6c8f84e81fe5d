use crate::cpu::AddressingMode;
use vstd::prelude::*;

verus! {

/// A fatal condition. Execution does not go on past one: the function that
/// meets it returns it and leaves the state as it was before the failing
/// operation began.
#[derive(Clone, Copy, Debug, PartialEq, Eq, Structural)]
pub enum Fault {
    /// The byte fetched at the program counter is not a defined opcode.
    UnknownOpcode(u8),
    /// A read or write in the PPU register range `0x2000..=0x3FFF`.
    PpuAccess(u16),
    /// A write in the cartridge ROM range `0x8000..=0xFFFF`.
    WriteToRom(u16),
    /// The address resolver was handed a mode that names no operand address.
    UnsupportedAddressingMode(AddressingMode),
    /// The instruction budget of a run was used up before a `BRK`.
    StepLimit,
}

} // verus!
