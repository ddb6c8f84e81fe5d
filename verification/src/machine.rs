use crate::bits::{
    complement, high_byte, low_byte, shifted_left, shifted_right, signed, word, wrap16, wrap8,
};
use crate::bus::BusView;
use crate::cpu::{AddressingMode, PROGRAM_START, RESET_VECTOR, STACK, STACK_RESET, STATUS_RESET};
use crate::fault::Fault;
use crate::flags::CPUFlags;
use crate::opcode::{table, OpCode};
use vstd::prelude::*;

verus! {

/// The architectural state of the console as plain values: the registers of
/// the CPU and what the bus holds. The functions on it say what each
/// operation of the CPU does.
///
/// An operation that can meet a fatal condition gives a `Result`: the state
/// after it, or the first fault in the order of its accesses.
#[verifier::ext_equal]
pub struct Machine {
    pub a: u8,
    pub x: u8,
    pub y: u8,
    pub status: CPUFlags,
    pub s: u8,
    pub pc: u16,
    pub bus: BusView,
}

/// The address in page 1 that a stack pointer names.
pub open spec fn stack_slot(pointer: u8) -> u16 {
    (STACK + pointer) as u16
}

/// An instruction that went through; the loop goes on.
pub open spec fn going(after: Result<Machine, Fault>) -> Result<(Machine, bool), Fault> {
    match after {
        Ok(next) => Ok((next, false)),
        Err(fault) => Err(fault),
    }
}

impl Machine {
    /// The bus is one of the two kinds of bus.
    pub open spec fn wf(self) -> bool {
        self.bus.wf()
    }

    // Memory

    /// The byte at `addr`, or the fault that a read of it meets.
    pub open spec fn try_read(self, addr: u16) -> Result<u8, Fault> {
        self.bus.try_read(addr)
    }

    /// The little-endian word at `addr`, or the fault that a read of its
    /// low byte or, after that, of its high byte meets.
    pub open spec fn try_read_u16(self, addr: u16) -> Result<u16, Fault> {
        match self.bus.read_fault(addr) {
            Some(fault) => Err(fault),
            None => match self.bus.read_fault(wrap16(addr + 1)) {
                Some(fault) => Err(fault),
                None => Ok(self.bus.read_u16(addr)),
            },
        }
    }

    /// The state after `data` is written to `addr`.
    pub open spec fn mem_write(self, addr: u16, data: u8) -> Machine {
        Machine { bus: self.bus.write(addr, data), ..self }
    }

    /// The state after the word `data` is written to `addr`, low byte first.
    pub open spec fn mem_write_u16(self, addr: u16, data: u16) -> Machine {
        Machine { bus: self.bus.write_u16(addr, data), ..self }
    }

    /// The state after `data` is written to `addr`, or the fault that the
    /// write meets.
    pub open spec fn try_write(self, addr: u16, data: u8) -> Result<Machine, Fault> {
        match self.bus.try_write(addr, data) {
            Ok(written) => Ok(Machine { bus: written, ..self }),
            Err(fault) => Err(fault),
        }
    }

    // Lifecycle

    /// Registers at their reset values, the program counter from the reset
    /// vector.
    pub open spec fn reset(self) -> Machine {
        Machine {
            a: 0,
            x: 0,
            y: 0,
            status: CPUFlags { bits: STATUS_RESET },
            s: STACK_RESET,
            pc: self.bus.read_u16(RESET_VECTOR),
            bus: self.bus,
        }
    }

    /// The bytes of `program` written to `start` and the addresses after
    /// it, the first byte first.
    pub open spec fn write_bytes(self, start: u16, program: Seq<u8>) -> Machine
        decreases program.len(),
    {
        if program.len() == 0 {
            self
        } else {
            self.write_bytes(start, program.drop_last()).mem_write(
                wrap16(start + program.len() - 1),
                program.last(),
            )
        }
    }

    /// The program at `0x0600`, and `0x0600` in the reset vector.
    pub open spec fn load(self, program: Seq<u8>) -> Machine {
        self.write_bytes(PROGRAM_START, program).mem_write_u16(RESET_VECTOR, PROGRAM_START)
    }

    // Stack

    /// The address that the stack pointer names.
    pub open spec fn stack_address(self) -> u16 {
        stack_slot(self.s)
    }

    /// The byte goes where the stack pointer names, and the stack pointer
    /// goes down by one.
    pub open spec fn stack_push(self, value: u8) -> Machine {
        Machine { s: wrap8(self.s - 1), ..self.mem_write(self.stack_address(), value) }
    }

    /// The high byte, then the low byte.
    pub open spec fn stack_push_u16(self, value: u16) -> Machine {
        self.stack_push(high_byte(value)).stack_push(low_byte(value))
    }

    /// The stack pointer goes up by one, and the byte comes from where it
    /// then names.
    pub open spec fn stack_pop(self) -> (Machine, u8) {
        let popped = Machine { s: wrap8(self.s + 1), ..self };
        (popped, popped.bus.read(popped.stack_address()))
    }

    /// The low byte, then the high byte.
    pub open spec fn stack_pop_u16(self) -> (Machine, u16) {
        let (first, lo) = self.stack_pop();
        let (second, hi) = first.stack_pop();
        (second, word(lo, hi))
    }

    // Flags

    /// The state with the flags of `mask` set if `on`, cleared if not.
    pub open spec fn flag(self, mask: u8, on: bool) -> Machine {
        Machine { status: self.status.assigned(mask, on), ..self }
    }

    /// `C` set.
    pub open spec fn set_carry_flag(self) -> Machine {
        self.flag(CPUFlags::CARRY, true)
    }

    /// `C` cleared.
    pub open spec fn remove_carry_flag(self) -> Machine {
        self.flag(CPUFlags::CARRY, false)
    }

    /// The carry as a number.
    pub open spec fn get_carry(self) -> u8 {
        if self.status.has(CPUFlags::CARRY) {
            1
        } else {
            0
        }
    }

    /// `Z` says that `result` is zero.
    pub open spec fn update_zero_flags(self, result: u8) -> Machine {
        self.flag(CPUFlags::ZERO, result == 0)
    }

    /// `N` is bit 7 of `result`.
    pub open spec fn update_negative_flags(self, result: u8) -> Machine {
        self.flag(CPUFlags::NEGATIVE, result >= 0x80)
    }

    /// `Z` and `N` set on `result`.
    pub open spec fn update_zero_and_set_negative_flags(self, result: u8) -> Machine {
        self.update_zero_flags(result).update_negative_flags(result)
    }

    /// `A` takes `value`, and `Z` and `N` are set on it.
    pub open spec fn set_register_a(self, value: u8) -> Machine {
        Machine { a: value, ..self }.update_zero_and_set_negative_flags(value)
    }

    /// The status byte as it goes on the stack: `EXPANSION` on, and `BREAK`
    /// on if `b`.
    pub open spec fn clone_status(self, b: bool) -> CPUFlags {
        if b {
            self.status.with(CPUFlags::EXPANSION).with(CPUFlags::BREAK)
        } else {
            self.status.with(CPUFlags::EXPANSION)
        }
    }

    // Operands

    /// The effective address of the operand, with the program counter at
    /// the first operand byte.
    pub open spec fn get_operand_addressing(self, mode: AddressingMode) -> Result<u16, Fault> {
        match mode {
            AddressingMode::Immediate => Ok(self.pc),
            AddressingMode::ZeroPage => match self.try_read(self.pc) {
                Ok(base) => Ok(base as u16),
                Err(fault) => Err(fault),
            },
            AddressingMode::ZeroPageX => match self.try_read(self.pc) {
                Ok(base) => Ok(wrap8(base + self.x) as u16),
                Err(fault) => Err(fault),
            },
            AddressingMode::ZeroPageY => match self.try_read(self.pc) {
                Ok(base) => Ok(wrap8(base + self.y) as u16),
                Err(fault) => Err(fault),
            },
            AddressingMode::Absolute => self.try_read_u16(self.pc),
            AddressingMode::AbsoluteX => match self.try_read_u16(self.pc) {
                Ok(base) => Ok(wrap16(base + self.x)),
                Err(fault) => Err(fault),
            },
            AddressingMode::AbsoluteY => match self.try_read_u16(self.pc) {
                Ok(base) => Ok(wrap16(base + self.y)),
                Err(fault) => Err(fault),
            },
            AddressingMode::IndirectX => match self.try_read(self.pc) {
                Ok(base) => Ok(self.zero_page_pointer(wrap8(base + self.x))),
                Err(fault) => Err(fault),
            },
            AddressingMode::IndirectY => match self.try_read(self.pc) {
                Ok(base) => Ok(wrap16(self.zero_page_pointer(base) + self.y)),
                Err(fault) => Err(fault),
            },
            AddressingMode::Indirect | AddressingMode::Implied => Err(
                Fault::UnsupportedAddressingMode(mode),
            ),
        }
    }

    /// The word in page 0 whose low byte is at `ptr`; its high byte is at
    /// the next address of page 0, which wraps from `0xFF` to `0`.
    pub open spec fn zero_page_pointer(self, ptr: u8) -> u16 {
        word(self.bus.read(ptr as u16), self.bus.read(wrap8(ptr + 1) as u16))
    }

    /// The operand: the byte at the effective address.
    pub open spec fn read_value_from_memory(self, mode: AddressingMode) -> Result<u8, Fault> {
        match self.get_operand_addressing(mode) {
            Ok(addr) => self.try_read(addr),
            Err(fault) => Err(fault),
        }
    }

    /// Replaces the operand by `change` of it and of the carry, and sets
    /// `Z` and `N` on the new value; `carry_out` of the operand goes to the
    /// carry where it is given. The common part of `INC`, `DEC` and the
    /// shifts on memory.
    pub open spec fn modify(
        self,
        mode: AddressingMode,
        change: spec_fn(u8, bool) -> u8,
        carry_out: Option<spec_fn(u8) -> bool>,
    ) -> Result<Machine, Fault> {
        match self.get_operand_addressing(mode) {
            Err(fault) => Err(fault),
            Ok(addr) => match self.try_read(addr) {
                Err(fault) => Err(fault),
                Ok(value) => {
                    let result = change(value, self.status.has(CPUFlags::CARRY));
                    match self.try_write(addr, result) {
                        Err(fault) => Err(fault),
                        Ok(written) => {
                            let carried = match carry_out {
                                Some(out) => written.flag(CPUFlags::CARRY, out(value)),
                                None => written,
                            };
                            Ok(carried.update_zero_and_set_negative_flags(result))
                        },
                    }
                },
            },
        }
    }

    // Loads and stores

    /// `LDA`: the operand goes to `A`.
    pub open spec fn lda(self, mode: AddressingMode) -> Result<Machine, Fault> {
        match self.read_value_from_memory(mode) {
            Ok(value) => Ok(self.set_register_a(value)),
            Err(fault) => Err(fault),
        }
    }

    /// `LDX`: the operand goes to `X`.
    pub open spec fn ldx(self, mode: AddressingMode) -> Result<Machine, Fault> {
        match self.read_value_from_memory(mode) {
            Ok(value) => Ok(Machine { x: value, ..self }.update_zero_and_set_negative_flags(value)),
            Err(fault) => Err(fault),
        }
    }

    /// `LDY`: the operand goes to `Y`.
    pub open spec fn ldy(self, mode: AddressingMode) -> Result<Machine, Fault> {
        match self.read_value_from_memory(mode) {
            Ok(value) => Ok(Machine { y: value, ..self }.update_zero_and_set_negative_flags(value)),
            Err(fault) => Err(fault),
        }
    }

    /// `value` written to the effective address. No flag changes.
    pub open spec fn store(self, mode: AddressingMode, value: u8) -> Result<Machine, Fault> {
        match self.get_operand_addressing(mode) {
            Ok(addr) => self.try_write(addr, value),
            Err(fault) => Err(fault),
        }
    }

    /// `STA`: `A` goes to the effective address.
    pub open spec fn sta(self, mode: AddressingMode) -> Result<Machine, Fault> {
        self.store(mode, self.a)
    }

    /// `STX`: `X` goes to the effective address.
    pub open spec fn stx(self, mode: AddressingMode) -> Result<Machine, Fault> {
        self.store(mode, self.x)
    }

    /// `STY`: `Y` goes to the effective address.
    pub open spec fn sty(self, mode: AddressingMode) -> Result<Machine, Fault> {
        self.store(mode, self.y)
    }

    // Transfers

    /// `TAX`: `A` goes to `X`.
    pub open spec fn tax(self) -> Machine {
        Machine { x: self.a, ..self }.update_zero_and_set_negative_flags(self.a)
    }

    /// `TAY`: `A` goes to `Y`.
    pub open spec fn tay(self) -> Machine {
        Machine { y: self.a, ..self }.update_zero_and_set_negative_flags(self.a)
    }

    /// `TSX`: the stack pointer goes to `X`.
    pub open spec fn tsx(self) -> Machine {
        Machine { x: self.s, ..self }.update_zero_and_set_negative_flags(self.s)
    }

    /// `TXA`: `X` goes to `A`.
    pub open spec fn txa(self) -> Machine {
        Machine { a: self.x, ..self }.update_zero_and_set_negative_flags(self.x)
    }

    /// `TXS`: `X` goes to the stack pointer. No flag changes.
    pub open spec fn txs(self) -> Machine {
        Machine { s: self.x, ..self }
    }

    /// `TYA`: `Y` goes to `A`.
    pub open spec fn tya(self) -> Machine {
        Machine { a: self.y, ..self }.update_zero_and_set_negative_flags(self.y)
    }

    // Increments and decrements

    /// `DEC`: the operand goes down by one.
    pub open spec fn dec(self, mode: AddressingMode) -> Result<Machine, Fault> {
        self.modify(mode, |value: u8, carry: bool| wrap8(value - 1), None)
    }

    /// `DEX`: `X` goes down by one.
    pub open spec fn dex(self) -> Machine {
        let result = wrap8(self.x - 1);
        Machine { x: result, ..self }.update_zero_and_set_negative_flags(result)
    }

    /// `DEY`: `Y` goes down by one.
    pub open spec fn dey(self) -> Machine {
        let result = wrap8(self.y - 1);
        Machine { y: result, ..self }.update_zero_and_set_negative_flags(result)
    }

    /// `INC`: the operand goes up by one.
    pub open spec fn inc(self, mode: AddressingMode) -> Result<Machine, Fault> {
        self.modify(mode, |value: u8, carry: bool| wrap8(value + 1), None)
    }

    /// `INX`: `X` goes up by one.
    pub open spec fn inx(self) -> Machine {
        let result = wrap8(self.x + 1);
        Machine { x: result, ..self }.update_zero_and_set_negative_flags(result)
    }

    /// `INY`: `Y` goes up by one.
    pub open spec fn iny(self) -> Machine {
        let result = wrap8(self.y + 1);
        Machine { y: result, ..self }.update_zero_and_set_negative_flags(result)
    }

    // Arithmetic

    /// `A + data + C`: the carry out of bit 7 goes to `C`, the signed
    /// overflow to `V`, the low byte to `A`.
    pub open spec fn add_to_register_a(self, data: u8) -> Machine {
        let sum = self.a + data + self.get_carry();
        let result = wrap8(sum);
        self.flag(CPUFlags::CARRY, sum > 0xff).flag(
            CPUFlags::OVERFLOW,
            (data ^ result) & (self.a ^ result) & 0x80 != 0,
        ).set_register_a(result)
    }

    /// `ADC`: the operand and the carry are added to `A`.
    pub open spec fn adc(self, mode: AddressingMode) -> Result<Machine, Fault> {
        match self.read_value_from_memory(mode) {
            Ok(value) => Ok(self.add_to_register_a(value)),
            Err(fault) => Err(fault),
        }
    }

    /// `SBC`: the complement of the operand and the carry are added to `A`.
    pub open spec fn sbc(self, mode: AddressingMode) -> Result<Machine, Fault> {
        match self.read_value_from_memory(mode) {
            Ok(value) => Ok(self.add_to_register_a(complement(value))),
            Err(fault) => Err(fault),
        }
    }

    /// `C` says that the operand is not above `register`; `Z` and `N` are
    /// those of `register` minus the operand.
    pub open spec fn compare(self, mode: AddressingMode, register: u8) -> Result<Machine, Fault> {
        match self.read_value_from_memory(mode) {
            Ok(memory) => Ok(
                self.flag(CPUFlags::CARRY, memory <= register).update_zero_and_set_negative_flags(
                    wrap8(register - memory),
                ),
            ),
            Err(fault) => Err(fault),
        }
    }

    // Shifts and rotates

    /// `ASL` on `A`: a shift to the left; bit 7 goes to the carry.
    pub open spec fn asl_a(self) -> Machine {
        self.flag(CPUFlags::CARRY, self.a >= 128).set_register_a(shifted_left(self.a, false))
    }

    /// `ASL` on the operand.
    pub open spec fn asl(self, mode: AddressingMode) -> Result<Machine, Fault> {
        self.modify(
            mode,
            |value: u8, carry: bool| shifted_left(value, false),
            Some(|value: u8| value >= 128),
        )
    }

    /// `LSR` on `A`: a shift to the right; bit 0 goes to the carry.
    pub open spec fn lsr_a(self) -> Machine {
        self.flag(CPUFlags::CARRY, self.a % 2 == 1).set_register_a(shifted_right(self.a, false))
    }

    /// `LSR` on the operand.
    pub open spec fn lsr(self, mode: AddressingMode) -> Result<Machine, Fault> {
        self.modify(
            mode,
            |value: u8, carry: bool| shifted_right(value, false),
            Some(|value: u8| value % 2 == 1),
        )
    }

    /// `ROL` on `A`: a shift to the left with the carry coming in at bit 0;
    /// bit 7 goes to the carry.
    pub open spec fn rol_a(self) -> Machine {
        self.flag(CPUFlags::CARRY, self.a >= 128).set_register_a(
            shifted_left(self.a, self.status.has(CPUFlags::CARRY)),
        )
    }

    /// `ROL` on the operand.
    pub open spec fn rol(self, mode: AddressingMode) -> Result<Machine, Fault> {
        self.modify(
            mode,
            |value: u8, carry: bool| shifted_left(value, carry),
            Some(|value: u8| value >= 128),
        )
    }

    /// `ROR` on `A`: a shift to the right with the carry coming in at bit 7;
    /// bit 0 goes to the carry.
    pub open spec fn ror_a(self) -> Machine {
        self.flag(CPUFlags::CARRY, self.a % 2 == 1).set_register_a(
            shifted_right(self.a, self.status.has(CPUFlags::CARRY)),
        )
    }

    /// `ROR` on the operand.
    pub open spec fn ror(self, mode: AddressingMode) -> Result<Machine, Fault> {
        self.modify(
            mode,
            |value: u8, carry: bool| shifted_right(value, carry),
            Some(|value: u8| value % 2 == 1),
        )
    }

    // Logic

    /// `AND`: `A` keeps the bits that it shares with the operand.
    pub open spec fn and(self, mode: AddressingMode) -> Result<Machine, Fault> {
        match self.read_value_from_memory(mode) {
            Ok(value) => Ok(self.set_register_a(self.a & value)),
            Err(fault) => Err(fault),
        }
    }

    /// `EOR`: `A` keeps the bits in which it differs from the operand.
    pub open spec fn eor(self, mode: AddressingMode) -> Result<Machine, Fault> {
        match self.read_value_from_memory(mode) {
            Ok(value) => Ok(self.set_register_a(self.a ^ value)),
            Err(fault) => Err(fault),
        }
    }

    /// `ORA`: `A` takes the bits of the operand beside its own.
    pub open spec fn ora(self, mode: AddressingMode) -> Result<Machine, Fault> {
        match self.read_value_from_memory(mode) {
            Ok(value) => Ok(self.set_register_a(self.a | value)),
            Err(fault) => Err(fault),
        }
    }

    /// `Z` says that `A` and the operand share no bit; `N` and `V` are bits
    /// 7 and 6 of the operand.
    pub open spec fn bit(self, mode: AddressingMode) -> Result<Machine, Fault> {
        match self.read_value_from_memory(mode) {
            Ok(value) => Ok(
                self.flag(CPUFlags::ZERO, self.a & value == 0).flag(
                    CPUFlags::NEGATIVE,
                    value & 0b1000_0000 > 0,
                ).flag(CPUFlags::OVERFLOW, value & 0b0100_0000 > 0),
            ),
            Err(fault) => Err(fault),
        }
    }

    // Stack instructions

    /// `PHA`: `A` goes on the stack.
    pub open spec fn pha(self) -> Machine {
        self.stack_push(self.a)
    }

    /// `PHP`: the status goes on the stack, with `BREAK` and `EXPANSION` on.
    pub open spec fn php(self) -> Machine {
        self.stack_push(self.clone_status(true).bits)
    }

    /// `PLA`: `A` comes from the stack.
    pub open spec fn pla(self) -> Machine {
        let (popped, value) = self.stack_pop();
        popped.set_register_a(value)
    }

    /// The popped byte becomes the status, with `BREAK` off.
    pub open spec fn plp(self) -> Machine {
        let (popped, value) = self.stack_pop();
        Machine { status: CPUFlags { bits: value }.without(CPUFlags::BREAK), ..popped }
    }

    // Interrupts

    /// `I` is set, and the status goes on the stack, with `BREAK` as `b`
    /// says.
    pub open spec fn interrupt(self, b: bool) -> Machine {
        let disabled = self.flag(CPUFlags::INTERRUPT_DISABLE, true);
        disabled.stack_push(disabled.clone_status(b).bits)
    }

    /// `BRK`: an interrupt with `BREAK` on. It ends the run.
    pub open spec fn brk(self) -> Machine {
        self.interrupt(true)
    }

    /// An interrupt request from the host, with `BREAK` off.
    pub open spec fn irq(self) -> Machine {
        self.interrupt(false)
    }

    /// A non-maskable interrupt from the host, with `BREAK` off.
    pub open spec fn nmi(self) -> Machine {
        self.interrupt(false)
    }

    /// The popped byte becomes the status, with `BREAK` off and `EXPANSION`
    /// on; the popped word becomes the program counter.
    pub open spec fn rti(self) -> Machine {
        let (popped, value) = self.stack_pop();
        let (returned, target) = popped.stack_pop_u16();
        Machine {
            status: CPUFlags { bits: value }.without(CPUFlags::BREAK).with(CPUFlags::EXPANSION),
            pc: target,
            ..returned
        }
    }

    // Jumps and branches

    /// The jump to the word at the operand.
    pub open spec fn jmp_absolute(self) -> Result<Machine, Fault> {
        match self.try_read_u16(self.pc) {
            Ok(target) => Ok(Machine { pc: target, ..self }),
            Err(fault) => Err(fault),
        }
    }

    /// The jump through the word at the operand. When the low byte of that
    /// word is the last byte of a page, its high byte is read at the first
    /// byte of the same page.
    pub open spec fn jmp_indirect(self) -> Result<Machine, Fault> {
        match self.try_read_u16(self.pc) {
            Err(fault) => Err(fault),
            Ok(addr) => if low_byte(addr) == 0xff {
                match self.try_read(addr) {
                    Err(fault) => Err(fault),
                    Ok(lo) => match self.try_read((addr - 0xff) as u16) {
                        Err(fault) => Err(fault),
                        Ok(hi) => Ok(Machine { pc: word(lo, hi), ..self }),
                    },
                }
            } else {
                match self.try_read_u16(addr) {
                    Err(fault) => Err(fault),
                    Ok(target) => Ok(Machine { pc: target, ..self }),
                }
            },
        }
    }

    /// Pushes the address of the last byte of the instruction, then jumps
    /// to the word at the operand, read after the push.
    pub open spec fn jsr(self) -> Result<Machine, Fault> {
        match self.try_read_u16(self.pc) {
            Err(fault) => Err(fault),
            Ok(_) => {
                let pushed = self.stack_push_u16(wrap16(self.pc + 1));
                Ok(Machine { pc: pushed.bus.read_u16(self.pc), ..pushed })
            },
        }
    }

    /// The jump to the byte after the popped address.
    pub open spec fn rts(self) -> Machine {
        let (popped, target) = self.stack_pop_u16();
        Machine { pc: wrap16(target + 1), ..popped }
    }

    /// With the condition met, the jump by the signed offset at the program
    /// counter, counted from the byte after the offset.
    pub open spec fn branch(self, condition: bool) -> Result<Machine, Fault> {
        if condition {
            match self.try_read(self.pc) {
                Ok(offset) => Ok(Machine { pc: wrap16(self.pc + 1 + signed(offset)), ..self }),
                Err(fault) => Err(fault),
            }
        } else {
            Ok(self)
        }
    }

    // The loop

    /// The body of the instruction `op`, with the program counter at the
    /// byte after the opcode. `true` beside the state says that the
    /// instruction ends the run.
    #[verifier::opaque]
    pub open spec fn execute(self, op: OpCode) -> Result<(Machine, bool), Fault> {
        match op.code {
            0xa9 | 0xa5 | 0xb5 | 0xad | 0xbd | 0xb9 | 0xa1 | 0xb1 => going(self.lda(op.mode)),
            0xa2 | 0xae | 0xbe | 0xa6 | 0xb6 => going(self.ldx(op.mode)),
            0xa0 | 0xac | 0xbc | 0xa4 | 0xb4 => going(self.ldy(op.mode)),
            0x85 | 0x95 | 0x8d | 0x9d | 0x99 | 0x81 | 0x91 => going(self.sta(op.mode)),
            0x8e | 0x86 | 0x96 => going(self.stx(op.mode)),
            0x8c | 0x84 | 0x94 => going(self.sty(op.mode)),
            0x69 | 0x65 | 0x75 | 0x6d | 0x7d | 0x79 | 0x61 | 0x71 => going(self.adc(op.mode)),
            0xe9 | 0xe5 | 0xf5 | 0xed | 0xfd | 0xf9 | 0xe1 | 0xf1 => going(self.sbc(op.mode)),
            0x0a => going(Ok(self.asl_a())),
            0x0e | 0x1e | 0x06 | 0x16 => going(self.asl(op.mode)),
            0x4a => going(Ok(self.lsr_a())),
            0x4e | 0x5e | 0x46 | 0x56 => going(self.lsr(op.mode)),
            0x2a => going(Ok(self.rol_a())),
            0x2e | 0x3e | 0x26 | 0x36 => going(self.rol(op.mode)),
            0x6a => going(Ok(self.ror_a())),
            0x6e | 0x7e | 0x66 | 0x76 => going(self.ror(op.mode)),
            0xce | 0xde | 0xc6 | 0xd6 => going(self.dec(op.mode)),
            0xee | 0xfe | 0xe6 | 0xf6 => going(self.inc(op.mode)),
            0xc9 | 0xcd | 0xdd | 0xd9 | 0xc5 | 0xd5 | 0xc1 | 0xd1 => going(
                self.compare(op.mode, self.a),
            ),
            0xe0 | 0xec | 0xe4 => going(self.compare(op.mode, self.x)),
            0xc0 | 0xcc | 0xc4 => going(self.compare(op.mode, self.y)),
            0x29 | 0x2d | 0x3d | 0x39 | 0x25 | 0x35 | 0x21 | 0x31 => going(self.and(op.mode)),
            0x2c | 0x24 => going(self.bit(op.mode)),
            0x49 | 0x4d | 0x5d | 0x59 | 0x45 | 0x55 | 0x41 | 0x51 => going(self.eor(op.mode)),
            0x09 | 0x0d | 0x1d | 0x19 | 0x05 | 0x15 | 0x01 | 0x11 => going(self.ora(op.mode)),
            0x90 => going(self.branch(!self.status.has(CPUFlags::CARRY))),
            0xb0 => going(self.branch(self.status.has(CPUFlags::CARRY))),
            0xd0 => going(self.branch(!self.status.has(CPUFlags::ZERO))),
            0xf0 => going(self.branch(self.status.has(CPUFlags::ZERO))),
            0x10 => going(self.branch(!self.status.has(CPUFlags::NEGATIVE))),
            0x30 => going(self.branch(self.status.has(CPUFlags::NEGATIVE))),
            0x50 => going(self.branch(!self.status.has(CPUFlags::OVERFLOW))),
            0x70 => going(self.branch(self.status.has(CPUFlags::OVERFLOW))),
            0x18 => going(Ok(self.remove_carry_flag())),
            0xd8 => going(Ok(self.flag(CPUFlags::DECIMAL, false))),
            0x58 => going(Ok(self.flag(CPUFlags::INTERRUPT_DISABLE, false))),
            0xb8 => going(Ok(self.flag(CPUFlags::OVERFLOW, false))),
            0x38 => going(Ok(self.set_carry_flag())),
            0xf8 => going(Ok(self.flag(CPUFlags::DECIMAL, true))),
            0x78 => going(Ok(self.flag(CPUFlags::INTERRUPT_DISABLE, true))),
            0x4c => going(self.jmp_absolute()),
            0x6c => going(self.jmp_indirect()),
            0x20 => going(self.jsr()),
            0x40 => going(Ok(self.rti())),
            0x60 => going(Ok(self.rts())),
            0x48 => going(Ok(self.pha())),
            0x08 => going(Ok(self.php())),
            0x68 => going(Ok(self.pla())),
            0x28 => going(Ok(self.plp())),
            0xaa => going(Ok(self.tax())),
            0xa8 => going(Ok(self.tay())),
            0xba => going(Ok(self.tsx())),
            0x8a => going(Ok(self.txa())),
            0x9a => going(Ok(self.txs())),
            0x98 => going(Ok(self.tya())),
            0xca => going(Ok(self.dex())),
            0x88 => going(Ok(self.dey())),
            0xe8 => going(Ok(self.inx())),
            0xc8 => going(Ok(self.iny())),
            0xea => going(Ok(self)),
            0x00 => Ok((self.brk(), true)),
            _ => Err(Fault::UnknownOpcode(op.code)),
        }
    }

    /// One turn of the loop: fetch the opcode at the program counter, step
    /// over it, run the body of the instruction, and, where the body left
    /// the program counter alone, step over the operand bytes.
    #[verifier::opaque]
    pub open spec fn step(self) -> Result<(Machine, bool), Fault> {
        match self.try_read(self.pc) {
            Err(fault) => Err(fault),
            Ok(code) => match table(code) {
                None => Err(Fault::UnknownOpcode(code)),
                Some(op) => {
                    let fetched = Machine { pc: wrap16(self.pc + 1), ..self };
                    match fetched.execute(op) {
                        Err(fault) => Err(fault),
                        Ok((next, halted)) => if !halted && next.pc == fetched.pc {
                            Ok((Machine { pc: wrap16(next.pc + op.len - 1), ..next }, false))
                        } else {
                            Ok((next, halted))
                        },
                    }
                },
            },
        }
    }

    /// The loop, for at most `budget` instructions. It ends with the state
    /// after a `BRK`, or with the state before the instruction that met a
    /// fault, or, the budget used up, with the state it has reached.
    pub open spec fn run(self, budget: nat) -> (Machine, Result<(), Fault>)
        decreases budget,
    {
        if budget == 0 {
            (self, Err(Fault::StepLimit))
        } else {
            match self.step() {
                Err(fault) => (self, Err(fault)),
                Ok((next, halted)) => if halted {
                    (next, Ok(()))
                } else {
                    next.run((budget - 1) as nat)
                },
            }
        }
    }
}

} // verus!
