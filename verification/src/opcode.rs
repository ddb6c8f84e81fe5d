use crate::cpu::AddressingMode;
use crate::fault::Fault;
use vstd::prelude::*;

verus! {

/// One row of the opcode table.
#[derive(Clone, Copy, Debug, PartialEq, Eq)]
pub struct OpCode {
    pub code: u8,
    pub mnemonic: &'static str,
    /// Length of the instruction in bytes, the opcode byte included.
    pub len: u8,
    /// Nominal cycle count.
    pub cycles: u8,
    pub mode: AddressingMode,
}

impl OpCode {
    /// The row with these fields.
    pub fn new(
        code: u8,
        mnemonic: &'static str,
        len: u8,
        cycles: u8,
        mode: AddressingMode,
    ) -> (op: Self)
        ensures
            op == (OpCode { code, mnemonic, len, cycles, mode }),
    {
        OpCode { code, mnemonic, len, cycles, mode }
    }
}

/// How many operand bytes follow the opcode byte of an instruction with
/// this mode.
pub open spec fn operand_bytes(mode: AddressingMode) -> int {
    match mode {
        AddressingMode::Implied => 0,
        AddressingMode::Immediate
        | AddressingMode::ZeroPage
        | AddressingMode::ZeroPageX
        | AddressingMode::ZeroPageY
        | AddressingMode::IndirectX
        | AddressingMode::IndirectY => 1,
        AddressingMode::Absolute
        | AddressingMode::AbsoluteX
        | AddressingMode::AbsoluteY
        | AddressingMode::Indirect => 2,
    }
}

/// A row that the table holds.
pub open spec fn row(
    code: u8,
    mnemonic: &'static str,
    len: u8,
    cycles: u8,
    mode: AddressingMode,
) -> Option<OpCode> {
    Some(OpCode { code, mnemonic, len, cycles, mode })
}

/// The opcode table: the row of each defined opcode, `None` for a byte that
/// is none. A branch carries its offset as an immediate byte.
#[verifier::opaque]
pub open spec fn table(code: u8) -> Option<OpCode> {
    match code {
        0x00 => row(code, "BRK", 1, 7, AddressingMode::Implied),
        0xea => row(code, "NOP", 1, 2, AddressingMode::Implied),

        0xaa => row(code, "TAX", 1, 2, AddressingMode::Implied),
        0xa8 => row(code, "TAY", 1, 2, AddressingMode::Implied),
        0xba => row(code, "TSX", 1, 2, AddressingMode::Implied),
        0x8a => row(code, "TXA", 1, 2, AddressingMode::Implied),
        0x9a => row(code, "TXS", 1, 2, AddressingMode::Implied),
        0x98 => row(code, "TYA", 1, 2, AddressingMode::Implied),

        0xca => row(code, "DEX", 1, 2, AddressingMode::Implied),
        0x88 => row(code, "DEY", 1, 2, AddressingMode::Implied),
        0xe8 => row(code, "INX", 1, 2, AddressingMode::Implied),
        0xc8 => row(code, "INY", 1, 2, AddressingMode::Implied),

        0x48 => row(code, "PHA", 1, 3, AddressingMode::Implied),
        0x08 => row(code, "PHP", 1, 3, AddressingMode::Implied),
        0x68 => row(code, "PLA", 1, 4, AddressingMode::Implied),
        0x28 => row(code, "PLP", 1, 4, AddressingMode::Implied),

        0x18 => row(code, "CLC", 1, 2, AddressingMode::Implied),
        0x38 => row(code, "SEC", 1, 2, AddressingMode::Implied),
        0xd8 => row(code, "CLD", 1, 2, AddressingMode::Implied),
        0xf8 => row(code, "SED", 1, 2, AddressingMode::Implied),
        0x58 => row(code, "CLI", 1, 2, AddressingMode::Implied),
        0x78 => row(code, "SEI", 1, 2, AddressingMode::Implied),
        0xb8 => row(code, "CLV", 1, 2, AddressingMode::Implied),

        0xa9 => row(code, "LDA", 2, 2, AddressingMode::Immediate),
        0xa5 => row(code, "LDA", 2, 3, AddressingMode::ZeroPage),
        0xb5 => row(code, "LDA", 2, 4, AddressingMode::ZeroPageX),
        0xad => row(code, "LDA", 3, 4, AddressingMode::Absolute),
        0xbd => row(code, "LDA", 3, 4, AddressingMode::AbsoluteX),
        0xb9 => row(code, "LDA", 3, 4, AddressingMode::AbsoluteY),
        0xa1 => row(code, "LDA", 2, 6, AddressingMode::IndirectX),
        0xb1 => row(code, "LDA", 2, 5, AddressingMode::IndirectY),

        0xa2 => row(code, "LDX", 2, 2, AddressingMode::Immediate),
        0xa6 => row(code, "LDX", 2, 4, AddressingMode::ZeroPage),
        0xb6 => row(code, "LDX", 2, 4, AddressingMode::ZeroPageY),
        0xae => row(code, "LDX", 3, 3, AddressingMode::Absolute),
        0xbe => row(code, "LDX", 3, 4, AddressingMode::AbsoluteY),

        0xa0 => row(code, "LDY", 2, 2, AddressingMode::Immediate),
        0xa4 => row(code, "LDY", 2, 3, AddressingMode::ZeroPage),
        0xb4 => row(code, "LDY", 2, 4, AddressingMode::ZeroPageX),
        0xac => row(code, "LDY", 3, 4, AddressingMode::Absolute),
        0xbc => row(code, "LDY", 3, 4, AddressingMode::AbsoluteX),

        0x85 => row(code, "STA", 2, 3, AddressingMode::ZeroPage),
        0x95 => row(code, "STA", 2, 4, AddressingMode::ZeroPageX),
        0x8d => row(code, "STA", 3, 4, AddressingMode::Absolute),
        0x9d => row(code, "STA", 3, 5, AddressingMode::AbsoluteX),
        0x99 => row(code, "STA", 3, 5, AddressingMode::AbsoluteY),
        0x81 => row(code, "STA", 2, 6, AddressingMode::IndirectX),
        0x91 => row(code, "STA", 2, 6, AddressingMode::IndirectY),

        0x8e => row(code, "STX", 3, 4, AddressingMode::Absolute),
        0x86 => row(code, "STX", 2, 3, AddressingMode::ZeroPage),
        0x96 => row(code, "STX", 2, 4, AddressingMode::ZeroPageY),

        0x8c => row(code, "STY", 3, 4, AddressingMode::Absolute),
        0x84 => row(code, "STY", 2, 3, AddressingMode::ZeroPage),
        0x94 => row(code, "STY", 2, 4, AddressingMode::ZeroPageX),

        0xce => row(code, "DEC", 3, 6, AddressingMode::Absolute),
        0xde => row(code, "DEC", 3, 7, AddressingMode::AbsoluteX),
        0xc6 => row(code, "DEC", 2, 5, AddressingMode::ZeroPage),
        0xd6 => row(code, "DEC", 2, 6, AddressingMode::ZeroPageX),

        0xee => row(code, "INC", 3, 6, AddressingMode::Absolute),
        0xfe => row(code, "INC", 3, 7, AddressingMode::AbsoluteX),
        0xe6 => row(code, "INC", 2, 5, AddressingMode::ZeroPage),
        0xf6 => row(code, "INC", 2, 6, AddressingMode::ZeroPageX),

        0x69 => row(code, "ADC", 2, 2, AddressingMode::Immediate),
        0x65 => row(code, "ADC", 2, 3, AddressingMode::ZeroPage),
        0x75 => row(code, "ADC", 2, 4, AddressingMode::ZeroPageX),
        0x6d => row(code, "ADC", 3, 4, AddressingMode::Absolute),
        0x7d => row(code, "ADC", 3, 4, AddressingMode::AbsoluteX),
        0x79 => row(code, "ADC", 3, 4, AddressingMode::AbsoluteY),
        0x61 => row(code, "ADC", 2, 6, AddressingMode::IndirectX),
        0x71 => row(code, "ADC", 2, 5, AddressingMode::IndirectY),

        0xe9 => row(code, "SBC", 2, 2, AddressingMode::Immediate),
        0xe5 => row(code, "SBC", 2, 3, AddressingMode::ZeroPage),
        0xf5 => row(code, "SBC", 2, 4, AddressingMode::ZeroPageX),
        0xed => row(code, "SBC", 3, 4, AddressingMode::Absolute),
        0xfd => row(code, "SBC", 3, 4, AddressingMode::AbsoluteX),
        0xf9 => row(code, "SBC", 3, 4, AddressingMode::AbsoluteY),
        0xe1 => row(code, "SBC", 2, 6, AddressingMode::IndirectX),
        0xf1 => row(code, "SBC", 2, 5, AddressingMode::IndirectY),

        0x0a => row(code, "ASL", 1, 2, AddressingMode::Implied),
        0x0e => row(code, "ASL", 3, 6, AddressingMode::Absolute),
        0x1e => row(code, "ASL", 3, 7, AddressingMode::AbsoluteX),
        0x06 => row(code, "ASL", 2, 5, AddressingMode::ZeroPage),
        0x16 => row(code, "ASL", 2, 6, AddressingMode::ZeroPageX),

        0x4a => row(code, "LSR", 1, 2, AddressingMode::Implied),
        0x4e => row(code, "LSR", 3, 6, AddressingMode::Absolute),
        0x5e => row(code, "LSR", 3, 7, AddressingMode::AbsoluteX),
        0x46 => row(code, "LSR", 2, 5, AddressingMode::ZeroPage),
        0x56 => row(code, "LSR", 2, 6, AddressingMode::ZeroPageX),

        0x2a => row(code, "ROL", 1, 2, AddressingMode::Implied),
        0x2e => row(code, "ROL", 3, 6, AddressingMode::Absolute),
        0x3e => row(code, "ROL", 3, 7, AddressingMode::AbsoluteX),
        0x26 => row(code, "ROL", 2, 5, AddressingMode::ZeroPage),
        0x36 => row(code, "ROL", 2, 6, AddressingMode::ZeroPageX),

        0x6a => row(code, "ROR", 1, 2, AddressingMode::Implied),
        0x6e => row(code, "ROR", 3, 6, AddressingMode::Absolute),
        0x7e => row(code, "ROR", 3, 7, AddressingMode::AbsoluteX),
        0x66 => row(code, "ROR", 2, 5, AddressingMode::ZeroPage),
        0x76 => row(code, "ROR", 2, 6, AddressingMode::ZeroPageX),

        0x29 => row(code, "AND", 2, 2, AddressingMode::Immediate),
        0x25 => row(code, "AND", 2, 3, AddressingMode::ZeroPage),
        0x35 => row(code, "AND", 2, 4, AddressingMode::ZeroPageX),
        0x2d => row(code, "AND", 3, 4, AddressingMode::Absolute),
        0x3d => row(code, "AND", 3, 4, AddressingMode::AbsoluteX),
        0x39 => row(code, "AND", 3, 4, AddressingMode::AbsoluteY),
        0x21 => row(code, "AND", 2, 6, AddressingMode::IndirectX),
        0x31 => row(code, "AND", 2, 5, AddressingMode::IndirectY),

        0x49 => row(code, "EOR", 2, 2, AddressingMode::Immediate),
        0x45 => row(code, "EOR", 2, 3, AddressingMode::ZeroPage),
        0x55 => row(code, "EOR", 2, 4, AddressingMode::ZeroPageX),
        0x4d => row(code, "EOR", 3, 4, AddressingMode::Absolute),
        0x5d => row(code, "EOR", 3, 4, AddressingMode::AbsoluteX),
        0x59 => row(code, "EOR", 3, 4, AddressingMode::AbsoluteY),
        0x41 => row(code, "EOR", 2, 6, AddressingMode::IndirectX),
        0x51 => row(code, "EOR", 2, 5, AddressingMode::IndirectY),

        0x09 => row(code, "ORA", 2, 2, AddressingMode::Immediate),
        0x05 => row(code, "ORA", 2, 3, AddressingMode::ZeroPage),
        0x15 => row(code, "ORA", 2, 4, AddressingMode::ZeroPageX),
        0x0d => row(code, "ORA", 3, 4, AddressingMode::Absolute),
        0x1d => row(code, "ORA", 3, 4, AddressingMode::AbsoluteX),
        0x19 => row(code, "ORA", 3, 4, AddressingMode::AbsoluteY),
        0x01 => row(code, "ORA", 2, 6, AddressingMode::IndirectX),
        0x11 => row(code, "ORA", 2, 5, AddressingMode::IndirectY),

        0x24 => row(code, "BIT", 2, 3, AddressingMode::ZeroPage),
        0x2c => row(code, "BIT", 3, 4, AddressingMode::Absolute),

        0xc9 => row(code, "CMP", 2, 2, AddressingMode::Immediate),
        0xcd => row(code, "CMP", 3, 4, AddressingMode::Absolute),
        0xdd => row(code, "CMP", 3, 4, AddressingMode::AbsoluteX),
        0xd9 => row(code, "CMP", 3, 4, AddressingMode::AbsoluteY),
        0xc5 => row(code, "CMP", 2, 3, AddressingMode::ZeroPage),
        0xd5 => row(code, "CMP", 2, 4, AddressingMode::ZeroPageX),
        0xc1 => row(code, "CMP", 2, 6, AddressingMode::IndirectX),
        0xd1 => row(code, "CMP", 2, 5, AddressingMode::IndirectY),

        0xe0 => row(code, "CPX", 2, 2, AddressingMode::Immediate),
        0xec => row(code, "CPX", 3, 4, AddressingMode::Absolute),
        0xe4 => row(code, "CPX", 2, 3, AddressingMode::ZeroPage),

        0xc0 => row(code, "CPY", 2, 2, AddressingMode::Immediate),
        0xcc => row(code, "CPY", 3, 4, AddressingMode::Absolute),
        0xc4 => row(code, "CPY", 2, 3, AddressingMode::ZeroPage),

        0x90 => row(code, "BCC", 2, 2, AddressingMode::Immediate),
        0xb0 => row(code, "BCS", 2, 2, AddressingMode::Immediate),
        0xf0 => row(code, "BEQ", 2, 2, AddressingMode::Immediate),
        0xd0 => row(code, "BNE", 2, 2, AddressingMode::Immediate),
        0x30 => row(code, "BMI", 2, 2, AddressingMode::Immediate),
        0x10 => row(code, "BPL", 2, 2, AddressingMode::Immediate),
        0x50 => row(code, "BVC", 2, 2, AddressingMode::Immediate),
        0x70 => row(code, "BVS", 2, 2, AddressingMode::Immediate),

        0x4c => row(code, "JMP", 3, 3, AddressingMode::Absolute),
        0x6c => row(code, "JMP", 3, 5, AddressingMode::Indirect),
        0x20 => row(code, "JSR", 3, 6, AddressingMode::Absolute),
        0x60 => row(code, "RTS", 1, 6, AddressingMode::Implied),
        0x40 => row(code, "RTI", 1, 6, AddressingMode::Implied),

        _ => None,
    }
}

/// The row of `code` in the opcode table.
#[verifier::rlimit(50)]
pub fn lookup(code: u8) -> (found: Result<OpCode, Fault>)
    ensures
        found == match table(code) {
            Some(op) => Ok::<OpCode, Fault>(op),
            None => Err(Fault::UnknownOpcode(code)),
        },
{
    reveal(table);
    match code {
        0x00 => Ok(OpCode::new(0x00, "BRK", 1, 7, AddressingMode::Implied)),
        0xea => Ok(OpCode::new(0xea, "NOP", 1, 2, AddressingMode::Implied)),

        0xaa => Ok(OpCode::new(0xaa, "TAX", 1, 2, AddressingMode::Implied)),
        0xa8 => Ok(OpCode::new(0xa8, "TAY", 1, 2, AddressingMode::Implied)),
        0xba => Ok(OpCode::new(0xba, "TSX", 1, 2, AddressingMode::Implied)),
        0x8a => Ok(OpCode::new(0x8a, "TXA", 1, 2, AddressingMode::Implied)),
        0x9a => Ok(OpCode::new(0x9a, "TXS", 1, 2, AddressingMode::Implied)),
        0x98 => Ok(OpCode::new(0x98, "TYA", 1, 2, AddressingMode::Implied)),

        0xca => Ok(OpCode::new(0xca, "DEX", 1, 2, AddressingMode::Implied)),
        0x88 => Ok(OpCode::new(0x88, "DEY", 1, 2, AddressingMode::Implied)),
        0xe8 => Ok(OpCode::new(0xe8, "INX", 1, 2, AddressingMode::Implied)),
        0xc8 => Ok(OpCode::new(0xc8, "INY", 1, 2, AddressingMode::Implied)),

        0x48 => Ok(OpCode::new(0x48, "PHA", 1, 3, AddressingMode::Implied)),
        0x08 => Ok(OpCode::new(0x08, "PHP", 1, 3, AddressingMode::Implied)),
        0x68 => Ok(OpCode::new(0x68, "PLA", 1, 4, AddressingMode::Implied)),
        0x28 => Ok(OpCode::new(0x28, "PLP", 1, 4, AddressingMode::Implied)),

        0x18 => Ok(OpCode::new(0x18, "CLC", 1, 2, AddressingMode::Implied)),
        0x38 => Ok(OpCode::new(0x38, "SEC", 1, 2, AddressingMode::Implied)),
        0xd8 => Ok(OpCode::new(0xd8, "CLD", 1, 2, AddressingMode::Implied)),
        0xf8 => Ok(OpCode::new(0xf8, "SED", 1, 2, AddressingMode::Implied)),
        0x58 => Ok(OpCode::new(0x58, "CLI", 1, 2, AddressingMode::Implied)),
        0x78 => Ok(OpCode::new(0x78, "SEI", 1, 2, AddressingMode::Implied)),
        0xb8 => Ok(OpCode::new(0xb8, "CLV", 1, 2, AddressingMode::Implied)),

        0xa9 => Ok(OpCode::new(0xa9, "LDA", 2, 2, AddressingMode::Immediate)),
        0xa5 => Ok(OpCode::new(0xa5, "LDA", 2, 3, AddressingMode::ZeroPage)),
        0xb5 => Ok(OpCode::new(0xb5, "LDA", 2, 4, AddressingMode::ZeroPageX)),
        0xad => Ok(OpCode::new(0xad, "LDA", 3, 4, AddressingMode::Absolute)),
        0xbd => Ok(OpCode::new(0xbd, "LDA", 3, 4, AddressingMode::AbsoluteX)),
        0xb9 => Ok(OpCode::new(0xb9, "LDA", 3, 4, AddressingMode::AbsoluteY)),
        0xa1 => Ok(OpCode::new(0xa1, "LDA", 2, 6, AddressingMode::IndirectX)),
        0xb1 => Ok(OpCode::new(0xb1, "LDA", 2, 5, AddressingMode::IndirectY)),

        0xa2 => Ok(OpCode::new(0xa2, "LDX", 2, 2, AddressingMode::Immediate)),
        0xa6 => Ok(OpCode::new(0xa6, "LDX", 2, 4, AddressingMode::ZeroPage)),
        0xb6 => Ok(OpCode::new(0xb6, "LDX", 2, 4, AddressingMode::ZeroPageY)),
        0xae => Ok(OpCode::new(0xae, "LDX", 3, 3, AddressingMode::Absolute)),
        0xbe => Ok(OpCode::new(0xbe, "LDX", 3, 4, AddressingMode::AbsoluteY)),

        0xa0 => Ok(OpCode::new(0xa0, "LDY", 2, 2, AddressingMode::Immediate)),
        0xa4 => Ok(OpCode::new(0xa4, "LDY", 2, 3, AddressingMode::ZeroPage)),
        0xb4 => Ok(OpCode::new(0xb4, "LDY", 2, 4, AddressingMode::ZeroPageX)),
        0xac => Ok(OpCode::new(0xac, "LDY", 3, 4, AddressingMode::Absolute)),
        0xbc => Ok(OpCode::new(0xbc, "LDY", 3, 4, AddressingMode::AbsoluteX)),

        0x85 => Ok(OpCode::new(0x85, "STA", 2, 3, AddressingMode::ZeroPage)),
        0x95 => Ok(OpCode::new(0x95, "STA", 2, 4, AddressingMode::ZeroPageX)),
        0x8d => Ok(OpCode::new(0x8d, "STA", 3, 4, AddressingMode::Absolute)),
        0x9d => Ok(OpCode::new(0x9d, "STA", 3, 5, AddressingMode::AbsoluteX)),
        0x99 => Ok(OpCode::new(0x99, "STA", 3, 5, AddressingMode::AbsoluteY)),
        0x81 => Ok(OpCode::new(0x81, "STA", 2, 6, AddressingMode::IndirectX)),
        0x91 => Ok(OpCode::new(0x91, "STA", 2, 6, AddressingMode::IndirectY)),

        0x8e => Ok(OpCode::new(0x8e, "STX", 3, 4, AddressingMode::Absolute)),
        0x86 => Ok(OpCode::new(0x86, "STX", 2, 3, AddressingMode::ZeroPage)),
        0x96 => Ok(OpCode::new(0x96, "STX", 2, 4, AddressingMode::ZeroPageY)),

        0x8c => Ok(OpCode::new(0x8c, "STY", 3, 4, AddressingMode::Absolute)),
        0x84 => Ok(OpCode::new(0x84, "STY", 2, 3, AddressingMode::ZeroPage)),
        0x94 => Ok(OpCode::new(0x94, "STY", 2, 4, AddressingMode::ZeroPageX)),

        0xce => Ok(OpCode::new(0xce, "DEC", 3, 6, AddressingMode::Absolute)),
        0xde => Ok(OpCode::new(0xde, "DEC", 3, 7, AddressingMode::AbsoluteX)),
        0xc6 => Ok(OpCode::new(0xc6, "DEC", 2, 5, AddressingMode::ZeroPage)),
        0xd6 => Ok(OpCode::new(0xd6, "DEC", 2, 6, AddressingMode::ZeroPageX)),

        0xee => Ok(OpCode::new(0xee, "INC", 3, 6, AddressingMode::Absolute)),
        0xfe => Ok(OpCode::new(0xfe, "INC", 3, 7, AddressingMode::AbsoluteX)),
        0xe6 => Ok(OpCode::new(0xe6, "INC", 2, 5, AddressingMode::ZeroPage)),
        0xf6 => Ok(OpCode::new(0xf6, "INC", 2, 6, AddressingMode::ZeroPageX)),

        0x69 => Ok(OpCode::new(0x69, "ADC", 2, 2, AddressingMode::Immediate)),
        0x65 => Ok(OpCode::new(0x65, "ADC", 2, 3, AddressingMode::ZeroPage)),
        0x75 => Ok(OpCode::new(0x75, "ADC", 2, 4, AddressingMode::ZeroPageX)),
        0x6d => Ok(OpCode::new(0x6d, "ADC", 3, 4, AddressingMode::Absolute)),
        0x7d => Ok(OpCode::new(0x7d, "ADC", 3, 4, AddressingMode::AbsoluteX)),
        0x79 => Ok(OpCode::new(0x79, "ADC", 3, 4, AddressingMode::AbsoluteY)),
        0x61 => Ok(OpCode::new(0x61, "ADC", 2, 6, AddressingMode::IndirectX)),
        0x71 => Ok(OpCode::new(0x71, "ADC", 2, 5, AddressingMode::IndirectY)),

        0xe9 => Ok(OpCode::new(0xe9, "SBC", 2, 2, AddressingMode::Immediate)),
        0xe5 => Ok(OpCode::new(0xe5, "SBC", 2, 3, AddressingMode::ZeroPage)),
        0xf5 => Ok(OpCode::new(0xf5, "SBC", 2, 4, AddressingMode::ZeroPageX)),
        0xed => Ok(OpCode::new(0xed, "SBC", 3, 4, AddressingMode::Absolute)),
        0xfd => Ok(OpCode::new(0xfd, "SBC", 3, 4, AddressingMode::AbsoluteX)),
        0xf9 => Ok(OpCode::new(0xf9, "SBC", 3, 4, AddressingMode::AbsoluteY)),
        0xe1 => Ok(OpCode::new(0xe1, "SBC", 2, 6, AddressingMode::IndirectX)),
        0xf1 => Ok(OpCode::new(0xf1, "SBC", 2, 5, AddressingMode::IndirectY)),

        0x0a => Ok(OpCode::new(0x0a, "ASL", 1, 2, AddressingMode::Implied)),
        0x0e => Ok(OpCode::new(0x0e, "ASL", 3, 6, AddressingMode::Absolute)),
        0x1e => Ok(OpCode::new(0x1e, "ASL", 3, 7, AddressingMode::AbsoluteX)),
        0x06 => Ok(OpCode::new(0x06, "ASL", 2, 5, AddressingMode::ZeroPage)),
        0x16 => Ok(OpCode::new(0x16, "ASL", 2, 6, AddressingMode::ZeroPageX)),

        0x4a => Ok(OpCode::new(0x4a, "LSR", 1, 2, AddressingMode::Implied)),
        0x4e => Ok(OpCode::new(0x4e, "LSR", 3, 6, AddressingMode::Absolute)),
        0x5e => Ok(OpCode::new(0x5e, "LSR", 3, 7, AddressingMode::AbsoluteX)),
        0x46 => Ok(OpCode::new(0x46, "LSR", 2, 5, AddressingMode::ZeroPage)),
        0x56 => Ok(OpCode::new(0x56, "LSR", 2, 6, AddressingMode::ZeroPageX)),

        0x2a => Ok(OpCode::new(0x2a, "ROL", 1, 2, AddressingMode::Implied)),
        0x2e => Ok(OpCode::new(0x2e, "ROL", 3, 6, AddressingMode::Absolute)),
        0x3e => Ok(OpCode::new(0x3e, "ROL", 3, 7, AddressingMode::AbsoluteX)),
        0x26 => Ok(OpCode::new(0x26, "ROL", 2, 5, AddressingMode::ZeroPage)),
        0x36 => Ok(OpCode::new(0x36, "ROL", 2, 6, AddressingMode::ZeroPageX)),

        0x6a => Ok(OpCode::new(0x6a, "ROR", 1, 2, AddressingMode::Implied)),
        0x6e => Ok(OpCode::new(0x6e, "ROR", 3, 6, AddressingMode::Absolute)),
        0x7e => Ok(OpCode::new(0x7e, "ROR", 3, 7, AddressingMode::AbsoluteX)),
        0x66 => Ok(OpCode::new(0x66, "ROR", 2, 5, AddressingMode::ZeroPage)),
        0x76 => Ok(OpCode::new(0x76, "ROR", 2, 6, AddressingMode::ZeroPageX)),

        0x29 => Ok(OpCode::new(0x29, "AND", 2, 2, AddressingMode::Immediate)),
        0x25 => Ok(OpCode::new(0x25, "AND", 2, 3, AddressingMode::ZeroPage)),
        0x35 => Ok(OpCode::new(0x35, "AND", 2, 4, AddressingMode::ZeroPageX)),
        0x2d => Ok(OpCode::new(0x2d, "AND", 3, 4, AddressingMode::Absolute)),
        0x3d => Ok(OpCode::new(0x3d, "AND", 3, 4, AddressingMode::AbsoluteX)),
        0x39 => Ok(OpCode::new(0x39, "AND", 3, 4, AddressingMode::AbsoluteY)),
        0x21 => Ok(OpCode::new(0x21, "AND", 2, 6, AddressingMode::IndirectX)),
        0x31 => Ok(OpCode::new(0x31, "AND", 2, 5, AddressingMode::IndirectY)),

        0x49 => Ok(OpCode::new(0x49, "EOR", 2, 2, AddressingMode::Immediate)),
        0x45 => Ok(OpCode::new(0x45, "EOR", 2, 3, AddressingMode::ZeroPage)),
        0x55 => Ok(OpCode::new(0x55, "EOR", 2, 4, AddressingMode::ZeroPageX)),
        0x4d => Ok(OpCode::new(0x4d, "EOR", 3, 4, AddressingMode::Absolute)),
        0x5d => Ok(OpCode::new(0x5d, "EOR", 3, 4, AddressingMode::AbsoluteX)),
        0x59 => Ok(OpCode::new(0x59, "EOR", 3, 4, AddressingMode::AbsoluteY)),
        0x41 => Ok(OpCode::new(0x41, "EOR", 2, 6, AddressingMode::IndirectX)),
        0x51 => Ok(OpCode::new(0x51, "EOR", 2, 5, AddressingMode::IndirectY)),

        0x09 => Ok(OpCode::new(0x09, "ORA", 2, 2, AddressingMode::Immediate)),
        0x05 => Ok(OpCode::new(0x05, "ORA", 2, 3, AddressingMode::ZeroPage)),
        0x15 => Ok(OpCode::new(0x15, "ORA", 2, 4, AddressingMode::ZeroPageX)),
        0x0d => Ok(OpCode::new(0x0d, "ORA", 3, 4, AddressingMode::Absolute)),
        0x1d => Ok(OpCode::new(0x1d, "ORA", 3, 4, AddressingMode::AbsoluteX)),
        0x19 => Ok(OpCode::new(0x19, "ORA", 3, 4, AddressingMode::AbsoluteY)),
        0x01 => Ok(OpCode::new(0x01, "ORA", 2, 6, AddressingMode::IndirectX)),
        0x11 => Ok(OpCode::new(0x11, "ORA", 2, 5, AddressingMode::IndirectY)),

        0x24 => Ok(OpCode::new(0x24, "BIT", 2, 3, AddressingMode::ZeroPage)),
        0x2c => Ok(OpCode::new(0x2c, "BIT", 3, 4, AddressingMode::Absolute)),

        0xc9 => Ok(OpCode::new(0xc9, "CMP", 2, 2, AddressingMode::Immediate)),
        0xcd => Ok(OpCode::new(0xcd, "CMP", 3, 4, AddressingMode::Absolute)),
        0xdd => Ok(OpCode::new(0xdd, "CMP", 3, 4, AddressingMode::AbsoluteX)),
        0xd9 => Ok(OpCode::new(0xd9, "CMP", 3, 4, AddressingMode::AbsoluteY)),
        0xc5 => Ok(OpCode::new(0xc5, "CMP", 2, 3, AddressingMode::ZeroPage)),
        0xd5 => Ok(OpCode::new(0xd5, "CMP", 2, 4, AddressingMode::ZeroPageX)),
        0xc1 => Ok(OpCode::new(0xc1, "CMP", 2, 6, AddressingMode::IndirectX)),
        0xd1 => Ok(OpCode::new(0xd1, "CMP", 2, 5, AddressingMode::IndirectY)),

        0xe0 => Ok(OpCode::new(0xe0, "CPX", 2, 2, AddressingMode::Immediate)),
        0xec => Ok(OpCode::new(0xec, "CPX", 3, 4, AddressingMode::Absolute)),
        0xe4 => Ok(OpCode::new(0xe4, "CPX", 2, 3, AddressingMode::ZeroPage)),

        0xc0 => Ok(OpCode::new(0xc0, "CPY", 2, 2, AddressingMode::Immediate)),
        0xcc => Ok(OpCode::new(0xcc, "CPY", 3, 4, AddressingMode::Absolute)),
        0xc4 => Ok(OpCode::new(0xc4, "CPY", 2, 3, AddressingMode::ZeroPage)),

        0x90 => Ok(OpCode::new(0x90, "BCC", 2, 2, AddressingMode::Immediate)),
        0xb0 => Ok(OpCode::new(0xb0, "BCS", 2, 2, AddressingMode::Immediate)),
        0xf0 => Ok(OpCode::new(0xf0, "BEQ", 2, 2, AddressingMode::Immediate)),
        0xd0 => Ok(OpCode::new(0xd0, "BNE", 2, 2, AddressingMode::Immediate)),
        0x30 => Ok(OpCode::new(0x30, "BMI", 2, 2, AddressingMode::Immediate)),
        0x10 => Ok(OpCode::new(0x10, "BPL", 2, 2, AddressingMode::Immediate)),
        0x50 => Ok(OpCode::new(0x50, "BVC", 2, 2, AddressingMode::Immediate)),
        0x70 => Ok(OpCode::new(0x70, "BVS", 2, 2, AddressingMode::Immediate)),

        0x4c => Ok(OpCode::new(0x4c, "JMP", 3, 3, AddressingMode::Absolute)),
        0x6c => Ok(OpCode::new(0x6c, "JMP", 3, 5, AddressingMode::Indirect)),
        0x20 => Ok(OpCode::new(0x20, "JSR", 3, 6, AddressingMode::Absolute)),
        0x60 => Ok(OpCode::new(0x60, "RTS", 1, 6, AddressingMode::Implied)),
        0x40 => Ok(OpCode::new(0x40, "RTI", 1, 6, AddressingMode::Implied)),

        _ => Err(Fault::UnknownOpcode(code)),
    }
}

/// Every row is filed under its own code, and its length is the opcode byte
/// and the operand bytes of its mode.
pub proof fn lemma_table_rows(code: u8)
    ensures
        table(code) matches Some(op) ==> op.code == code && op.len == 1 + operand_bytes(op.mode),
{
    reveal(table);
}

} // verus!
