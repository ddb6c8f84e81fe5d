use crate::bits::{make_word, shift_left, shift_right, split_word};
use crate::cpu::{settled, AddressingMode, Mem, CPU};
use crate::fault::Fault;
use crate::flags::CPUFlags;
use vstd::prelude::*;

verus! {

/// The bodies of the instructions, and what they are made of. Each does to
/// the CPU what the function of the same name on `Machine` does to the
/// model. One that can meet a fault gives a `Result`, and on `Err` has
/// changed nothing.
impl CPU {
    // Memory, with the faults as values

    pub fn try_read(&self, addr: u16) -> (data: Result<u8, Fault>)
        ensures
            data == self@.try_read(addr),
    {
        self.bus.try_read(addr)
    }

    pub fn try_read_u16(&self, addr: u16) -> (data: Result<u16, Fault>)
        ensures
            data == self@.try_read_u16(addr),
    {
        match self.bus.read_fault(addr) {
            Some(fault) => Err(fault),
            None => match self.bus.read_fault(addr.wrapping_add(1)) {
                Some(fault) => Err(fault),
                None => Ok(self.mem_read_u16(addr)),
            },
        }
    }

    pub fn try_write(&mut self, addr: u16, data: u8) -> (outcome: Result<(), Fault>)
        ensures
            settled(old(self)@, old(self)@.try_write(addr, data), final(self)@, outcome),
    {
        self.bus.try_write(addr, data)
    }

    // Flags

    pub fn clone_status(&self, b: bool) -> (status: CPUFlags)
        ensures
            status == self@.clone_status(b),
    {
        let mut status = self.status;
        status.insert(CPUFlags::EXPANSION);

        if b {
            status.insert(CPUFlags::BREAK);
        }
        status
    }

    pub fn set_carry_flag(&mut self)
        ensures
            final(self)@ == old(self)@.set_carry_flag(),
    {
        self.status.insert(CPUFlags::CARRY);
    }

    pub fn remove_carry_flag(&mut self)
        ensures
            final(self)@ == old(self)@.remove_carry_flag(),
    {
        self.status.remove(CPUFlags::CARRY);
    }

    pub fn get_carry(&self) -> (carry: u8)
        ensures
            carry == self@.get_carry(),
    {
        if self.status.contains(CPUFlags::CARRY) {
            1
        } else {
            0
        }
    }

    pub fn update_negative_flags(&mut self, result: u8)
        ensures
            final(self)@ == old(self)@.update_negative_flags(result),
    {
        assert((result & 0b1000_0000 != 0) == (result >= 0x80)) by (bit_vector);
        if result & 0b1000_0000 != 0 {
            self.status.insert(CPUFlags::NEGATIVE);
        } else {
            self.status.remove(CPUFlags::NEGATIVE);
        }
    }

    pub fn update_zero_flags(&mut self, result: u8)
        ensures
            final(self)@ == old(self)@.update_zero_flags(result),
    {
        if result == 0 {
            self.status.insert(CPUFlags::ZERO);
        } else {
            self.status.remove(CPUFlags::ZERO);
        }
    }

    pub fn update_zero_and_set_negative_flags(&mut self, result: u8)
        ensures
            final(self)@ == old(self)@.update_zero_and_set_negative_flags(result),
    {
        self.update_zero_flags(result);
        self.update_negative_flags(result);
    }

    pub fn set_register_a(&mut self, value: u8)
        ensures
            final(self)@ == old(self)@.set_register_a(value),
    {
        self.register_a = value;
        self.update_zero_and_set_negative_flags(self.register_a);
    }

    // Operands

    /// The word in page 0 whose low byte is at `ptr`.
    fn zero_page_pointer(&self, ptr: u8) -> (target: u16)
        ensures
            target == self@.zero_page_pointer(ptr),
    {
        let lo = self.mem_read(ptr as u16);
        let hi = self.mem_read(ptr.wrapping_add(1) as u16);
        make_word(lo, hi)
    }

    pub fn get_operand_addressing(&self, mode: &AddressingMode) -> (addr: Result<u16, Fault>)
        ensures
            addr == self@.get_operand_addressing(*mode),
    {
        match mode {
            AddressingMode::Immediate => Ok(self.program_counter),
            AddressingMode::ZeroPage => Ok(self.try_read(self.program_counter)? as u16),
            AddressingMode::Absolute => self.try_read_u16(self.program_counter),
            AddressingMode::ZeroPageX => Ok(
                self.try_read(self.program_counter)?.wrapping_add(self.register_x) as u16,
            ),
            AddressingMode::ZeroPageY => Ok(
                self.try_read(self.program_counter)?.wrapping_add(self.register_y) as u16,
            ),
            AddressingMode::AbsoluteX => Ok(
                self.try_read_u16(self.program_counter)?.wrapping_add(self.register_x as u16),
            ),
            AddressingMode::AbsoluteY => Ok(
                self.try_read_u16(self.program_counter)?.wrapping_add(self.register_y as u16),
            ),
            AddressingMode::IndirectX => {
                let base = self.try_read(self.program_counter)?;
                Ok(self.zero_page_pointer(base.wrapping_add(self.register_x)))
            },
            AddressingMode::IndirectY => {
                let base = self.try_read(self.program_counter)?;
                let deref_base = self.zero_page_pointer(base);
                Ok(deref_base.wrapping_add(self.register_y as u16))
            },
            AddressingMode::Indirect | AddressingMode::Implied => Err(
                Fault::UnsupportedAddressingMode(*mode),
            ),
        }
    }

    pub fn read_value_from_memory(&self, mode: &AddressingMode) -> (value: Result<u8, Fault>)
        ensures
            value == self@.read_value_from_memory(*mode),
    {
        let addr = self.get_operand_addressing(mode)?;
        self.try_read(addr)
    }

    // Loads and stores

    pub fn lda(&mut self, mode: &AddressingMode) -> (outcome: Result<(), Fault>)
        ensures
            settled(old(self)@, old(self)@.lda(*mode), final(self)@, outcome),
    {
        let value = self.read_value_from_memory(mode)?;
        self.set_register_a(value);
        Ok(())
    }

    pub fn ldx(&mut self, mode: &AddressingMode) -> (outcome: Result<(), Fault>)
        ensures
            settled(old(self)@, old(self)@.ldx(*mode), final(self)@, outcome),
    {
        let value = self.read_value_from_memory(mode)?;
        self.register_x = value;
        self.update_zero_and_set_negative_flags(self.register_x);
        Ok(())
    }

    pub fn ldy(&mut self, mode: &AddressingMode) -> (outcome: Result<(), Fault>)
        ensures
            settled(old(self)@, old(self)@.ldy(*mode), final(self)@, outcome),
    {
        let value = self.read_value_from_memory(mode)?;
        self.register_y = value;
        self.update_zero_and_set_negative_flags(self.register_y);
        Ok(())
    }

    pub fn sta(&mut self, mode: &AddressingMode) -> (outcome: Result<(), Fault>)
        ensures
            settled(old(self)@, old(self)@.sta(*mode), final(self)@, outcome),
    {
        let addr = self.get_operand_addressing(mode)?;
        self.try_write(addr, self.register_a)
    }

    pub fn stx(&mut self, mode: &AddressingMode) -> (outcome: Result<(), Fault>)
        ensures
            settled(old(self)@, old(self)@.stx(*mode), final(self)@, outcome),
    {
        let addr = self.get_operand_addressing(mode)?;
        self.try_write(addr, self.register_x)
    }

    pub fn sty(&mut self, mode: &AddressingMode) -> (outcome: Result<(), Fault>)
        ensures
            settled(old(self)@, old(self)@.sty(*mode), final(self)@, outcome),
    {
        let addr = self.get_operand_addressing(mode)?;
        self.try_write(addr, self.register_y)
    }

    // Transfers

    pub fn tax(&mut self)
        ensures
            final(self)@ == old(self)@.tax(),
    {
        self.register_x = self.register_a;
        self.update_zero_and_set_negative_flags(self.register_x);
    }

    pub fn tay(&mut self)
        ensures
            final(self)@ == old(self)@.tay(),
    {
        self.register_y = self.register_a;
        self.update_zero_and_set_negative_flags(self.register_y);
    }

    pub fn tsx(&mut self)
        ensures
            final(self)@ == old(self)@.tsx(),
    {
        self.register_x = self.stack_pointer;
        self.update_zero_and_set_negative_flags(self.register_x);
    }

    pub fn txa(&mut self)
        ensures
            final(self)@ == old(self)@.txa(),
    {
        self.register_a = self.register_x;
        self.update_zero_and_set_negative_flags(self.register_a);
    }

    pub fn txs(&mut self)
        ensures
            final(self)@ == old(self)@.txs(),
    {
        self.stack_pointer = self.register_x;
    }

    pub fn tya(&mut self)
        ensures
            final(self)@ == old(self)@.tya(),
    {
        self.register_a = self.register_y;
        self.update_zero_and_set_negative_flags(self.register_a);
    }

    // Increments and decrements

    pub fn dec(&mut self, mode: &AddressingMode) -> (outcome: Result<(), Fault>)
        ensures
            settled(old(self)@, old(self)@.dec(*mode), final(self)@, outcome),
    {
        let addr = self.get_operand_addressing(mode)?;
        let value = self.try_read(addr)?.wrapping_sub(1);
        self.try_write(addr, value)?;
        self.update_zero_and_set_negative_flags(value);
        Ok(())
    }

    pub fn dex(&mut self)
        ensures
            final(self)@ == old(self)@.dex(),
    {
        self.register_x = self.register_x.wrapping_sub(1);
        self.update_zero_and_set_negative_flags(self.register_x);
    }

    pub fn dey(&mut self)
        ensures
            final(self)@ == old(self)@.dey(),
    {
        self.register_y = self.register_y.wrapping_sub(1);
        self.update_zero_and_set_negative_flags(self.register_y);
    }

    pub fn inc(&mut self, mode: &AddressingMode) -> (outcome: Result<(), Fault>)
        ensures
            settled(old(self)@, old(self)@.inc(*mode), final(self)@, outcome),
    {
        let addr = self.get_operand_addressing(mode)?;
        let value = self.try_read(addr)?.wrapping_add(1);
        self.try_write(addr, value)?;
        self.update_zero_and_set_negative_flags(value);
        Ok(())
    }

    pub fn inx(&mut self)
        ensures
            final(self)@ == old(self)@.inx(),
    {
        self.register_x = self.register_x.wrapping_add(1);
        self.update_zero_and_set_negative_flags(self.register_x);
    }

    pub fn iny(&mut self)
        ensures
            final(self)@ == old(self)@.iny(),
    {
        self.register_y = self.register_y.wrapping_add(1);
        self.update_zero_and_set_negative_flags(self.register_y);
    }

    // Arithmetic

    pub fn add_to_register_a(&mut self, data: u8)
        ensures
            final(self)@ == old(self)@.add_to_register_a(data),
    {
        let sum = self.register_a as u16 + data as u16 + self.get_carry() as u16;

        let carry = sum > 0xff;

        if carry {
            self.set_carry_flag();
        } else {
            self.remove_carry_flag();
        }

        let (result, _) = split_word(sum);

        if (data ^ result) & (self.register_a ^ result) & 0x80 != 0 {
            self.status.insert(CPUFlags::OVERFLOW);
        } else {
            self.status.remove(CPUFlags::OVERFLOW);
        }

        self.set_register_a(result);
    }

    pub fn adc(&mut self, mode: &AddressingMode) -> (outcome: Result<(), Fault>)
        ensures
            settled(old(self)@, old(self)@.adc(*mode), final(self)@, outcome),
    {
        let value = self.read_value_from_memory(mode)?;
        self.add_to_register_a(value);
        Ok(())
    }

    pub fn sbc(&mut self, mode: &AddressingMode) -> (outcome: Result<(), Fault>)
        ensures
            settled(old(self)@, old(self)@.sbc(*mode), final(self)@, outcome),
    {
        let value = self.read_value_from_memory(mode)?;
        assert(!value == 255 - value) by (bit_vector);
        self.add_to_register_a(!value);
        Ok(())
    }

    pub fn compare(&mut self, mode: &AddressingMode, other: u8) -> (outcome: Result<(), Fault>)
        ensures
            settled(old(self)@, old(self)@.compare(*mode, other), final(self)@, outcome),
    {
        let memory = self.read_value_from_memory(mode)?;

        if memory <= other {
            self.set_carry_flag();
        } else {
            self.remove_carry_flag();
        }

        self.update_zero_and_set_negative_flags(other.wrapping_sub(memory));
        Ok(())
    }

    // Shifts and rotates

    pub fn asl_a(&mut self)
        ensures
            final(self)@ == old(self)@.asl_a(),
    {
        let (value, carry) = shift_left(self.register_a, false);
        self.status.set(CPUFlags::CARRY, carry);
        self.set_register_a(value);
    }

    pub fn asl(&mut self, mode: &AddressingMode) -> (outcome: Result<(), Fault>)
        ensures
            settled(old(self)@, old(self)@.asl(*mode), final(self)@, outcome),
    {
        let addr = self.get_operand_addressing(mode)?;
        let (value, carry) = shift_left(self.try_read(addr)?, false);
        self.try_write(addr, value)?;
        self.status.set(CPUFlags::CARRY, carry);
        self.update_zero_and_set_negative_flags(value);
        Ok(())
    }

    pub fn lsr_a(&mut self)
        ensures
            final(self)@ == old(self)@.lsr_a(),
    {
        let (value, carry) = shift_right(self.register_a, false);
        self.status.set(CPUFlags::CARRY, carry);
        self.set_register_a(value);
    }

    pub fn lsr(&mut self, mode: &AddressingMode) -> (outcome: Result<(), Fault>)
        ensures
            settled(old(self)@, old(self)@.lsr(*mode), final(self)@, outcome),
    {
        let addr = self.get_operand_addressing(mode)?;
        let (value, carry) = shift_right(self.try_read(addr)?, false);
        self.try_write(addr, value)?;
        self.status.set(CPUFlags::CARRY, carry);
        self.update_zero_and_set_negative_flags(value);
        Ok(())
    }

    pub fn rol_a(&mut self)
        ensures
            final(self)@ == old(self)@.rol_a(),
    {
        let carry_in = self.status.contains(CPUFlags::CARRY);
        let (value, carry) = shift_left(self.register_a, carry_in);
        self.status.set(CPUFlags::CARRY, carry);
        self.set_register_a(value);
    }

    pub fn rol(&mut self, mode: &AddressingMode) -> (outcome: Result<(), Fault>)
        ensures
            settled(old(self)@, old(self)@.rol(*mode), final(self)@, outcome),
    {
        let addr = self.get_operand_addressing(mode)?;
        let carry_in = self.status.contains(CPUFlags::CARRY);
        let (value, carry) = shift_left(self.try_read(addr)?, carry_in);
        self.try_write(addr, value)?;
        self.status.set(CPUFlags::CARRY, carry);
        self.update_zero_and_set_negative_flags(value);
        Ok(())
    }

    pub fn ror_a(&mut self)
        ensures
            final(self)@ == old(self)@.ror_a(),
    {
        let carry_in = self.status.contains(CPUFlags::CARRY);
        let (value, carry) = shift_right(self.register_a, carry_in);
        self.status.set(CPUFlags::CARRY, carry);
        self.set_register_a(value);
    }

    pub fn ror(&mut self, mode: &AddressingMode) -> (outcome: Result<(), Fault>)
        ensures
            settled(old(self)@, old(self)@.ror(*mode), final(self)@, outcome),
    {
        let addr = self.get_operand_addressing(mode)?;
        let carry_in = self.status.contains(CPUFlags::CARRY);
        let (value, carry) = shift_right(self.try_read(addr)?, carry_in);
        self.try_write(addr, value)?;
        self.status.set(CPUFlags::CARRY, carry);
        self.update_zero_and_set_negative_flags(value);
        Ok(())
    }

    // Logic

    pub fn and(&mut self, mode: &AddressingMode) -> (outcome: Result<(), Fault>)
        ensures
            settled(old(self)@, old(self)@.and(*mode), final(self)@, outcome),
    {
        let value = self.read_value_from_memory(mode)?;
        self.set_register_a(self.register_a & value);
        Ok(())
    }

    pub fn bit(&mut self, mode: &AddressingMode) -> (outcome: Result<(), Fault>)
        ensures
            settled(old(self)@, old(self)@.bit(*mode), final(self)@, outcome),
    {
        let value = self.read_value_from_memory(mode)?;
        let and = self.register_a & value;
        if and == 0 {
            self.status.insert(CPUFlags::ZERO);
        } else {
            self.status.remove(CPUFlags::ZERO);
        }

        self.status.set(CPUFlags::NEGATIVE, value & 0b10000000 > 0);
        self.status.set(CPUFlags::OVERFLOW, value & 0b01000000 > 0);
        Ok(())
    }

    pub fn eor(&mut self, mode: &AddressingMode) -> (outcome: Result<(), Fault>)
        ensures
            settled(old(self)@, old(self)@.eor(*mode), final(self)@, outcome),
    {
        let value = self.read_value_from_memory(mode)?;
        self.set_register_a(self.register_a ^ value);
        Ok(())
    }

    pub fn ora(&mut self, mode: &AddressingMode) -> (outcome: Result<(), Fault>)
        ensures
            settled(old(self)@, old(self)@.ora(*mode), final(self)@, outcome),
    {
        let value = self.read_value_from_memory(mode)?;
        self.set_register_a(self.register_a | value);
        Ok(())
    }

    // Stack instructions

    pub fn pha(&mut self)
        ensures
            final(self)@ == old(self)@.pha(),
    {
        self.stack_push(self.register_a);
    }

    pub fn php(&mut self)
        ensures
            final(self)@ == old(self)@.php(),
    {
        self.stack_push(self.clone_status(true).bits());
    }

    pub fn pla(&mut self)
        ensures
            final(self)@ == old(self)@.pla(),
    {
        let value = self.stack_pop();
        self.set_register_a(value);
    }

    pub fn plp(&mut self)
        ensures
            final(self)@ == old(self)@.plp(),
    {
        self.status.bits = self.stack_pop();
        self.status.remove(CPUFlags::BREAK);
    }

    // Interrupts

    pub fn brk(&mut self)
        ensures
            final(self)@ == old(self)@.brk(),
    {
        self.status.insert(CPUFlags::INTERRUPT_DISABLE);
        self.stack_push(self.clone_status(true).bits());
    }

    pub fn irq(&mut self)
        ensures
            final(self)@ == old(self)@.irq(),
    {
        self.status.insert(CPUFlags::INTERRUPT_DISABLE);
        self.stack_push(self.clone_status(false).bits());
    }

    pub fn nmi(&mut self)
        ensures
            final(self)@ == old(self)@.nmi(),
    {
        self.status.insert(CPUFlags::INTERRUPT_DISABLE);
        self.stack_push(self.clone_status(false).bits());
    }

    pub fn rti(&mut self)
        ensures
            final(self)@ == old(self)@.rti(),
    {
        self.status.bits = self.stack_pop();
        self.status.remove(CPUFlags::BREAK);
        self.status.insert(CPUFlags::EXPANSION);
        self.program_counter = self.stack_pop_u16();
    }

    // Jumps and branches

    pub fn jmp_absolute(&mut self) -> (outcome: Result<(), Fault>)
        ensures
            settled(old(self)@, old(self)@.jmp_absolute(), final(self)@, outcome),
    {
        self.program_counter = self.try_read_u16(self.program_counter)?;
        Ok(())
    }

    pub fn jmp_indirect(&mut self) -> (outcome: Result<(), Fault>)
        ensures
            settled(old(self)@, old(self)@.jmp_indirect(), final(self)@, outcome),
    {
        let addr = self.try_read_u16(self.program_counter)?;

        let indirect_ref = if addr & 0x00ff == 0x00ff {
            assert(addr & 0x00ff == addr % 256 && (addr & 0x00ff == 0x00ff ==> addr & 0xff00 == addr
                - 0xff)) by (bit_vector);
            let lo = self.try_read(addr)?;
            let hi = self.try_read(addr & 0xFF00)?;
            make_word(lo, hi)
        } else {
            assert(addr & 0x00ff == addr % 256) by (bit_vector);
            self.try_read_u16(addr)?
        };

        self.program_counter = indirect_ref;
        Ok(())
    }

    pub fn jsr(&mut self) -> (outcome: Result<(), Fault>)
        ensures
            settled(old(self)@, old(self)@.jsr(), final(self)@, outcome),
    {
        self.try_read_u16(self.program_counter)?;
        self.stack_push_u16(self.program_counter.wrapping_add(1));
        self.program_counter = self.mem_read_u16(self.program_counter);
        Ok(())
    }

    pub fn rts(&mut self)
        ensures
            final(self)@ == old(self)@.rts(),
    {
        self.program_counter = self.stack_pop_u16().wrapping_add(1);
    }

    pub fn branch(&mut self, condition: bool) -> (outcome: Result<(), Fault>)
        ensures
            settled(old(self)@, old(self)@.branch(condition), final(self)@, outcome),
    {
        if condition {
            let jump = self.try_read(self.program_counter)?;
            let extended: u16 = if jump < 0x80 {
                jump as u16
            } else {
                0xff00 + jump as u16
            };
            let jump_addr = self.program_counter.wrapping_add(1).wrapping_add(extended);

            self.program_counter = jump_addr;
        }
        Ok(())
    }
}

} // verus!
