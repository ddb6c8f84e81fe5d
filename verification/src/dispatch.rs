use crate::cpu::{stepped, CPU};
use crate::fault::Fault;
use crate::flags::CPUFlags;
use crate::machine::Machine;
use crate::opcode::OpCode;
use vstd::prelude::*;

verus! {

impl CPU {
    /// The body of the instruction `opcode`, with the program counter at
    /// the byte after the opcode. `true` says that the instruction ends the
    /// run.
    ///
    /// Each arm returns by itself, so that each instruction is checked
    /// against the model on its own.
    pub fn execute(&mut self, opcode: &OpCode) -> (outcome: Result<bool, Fault>)
        ensures
            stepped(old(self)@, old(self)@.execute(*opcode), final(self)@, outcome),
    {
        reveal(Machine::execute);
        match opcode.code {
            0xa9 | 0xa5 | 0xb5 | 0xad | 0xbd | 0xb9 | 0xa1 | 0xb1 => {
                self.lda(&opcode.mode)?;
                return Ok(false);
            },
            0xa2 | 0xae | 0xbe | 0xa6 | 0xb6 => {
                self.ldx(&opcode.mode)?;
                return Ok(false);
            },
            0xa0 | 0xac | 0xbc | 0xa4 | 0xb4 => {
                self.ldy(&opcode.mode)?;
                return Ok(false);
            },
            0x85 | 0x95 | 0x8d | 0x9d | 0x99 | 0x81 | 0x91 => {
                self.sta(&opcode.mode)?;
                return Ok(false);
            },
            0x8e | 0x86 | 0x96 => {
                self.stx(&opcode.mode)?;
                return Ok(false);
            },
            0x8c | 0x84 | 0x94 => {
                self.sty(&opcode.mode)?;
                return Ok(false);
            },
            0x69 | 0x65 | 0x75 | 0x6d | 0x7d | 0x79 | 0x61 | 0x71 => {
                self.adc(&opcode.mode)?;
                return Ok(false);
            },
            0xe9 | 0xe5 | 0xf5 | 0xed | 0xfd | 0xf9 | 0xe1 | 0xf1 => {
                self.sbc(&opcode.mode)?;
                return Ok(false);
            },
            0x0a => {
                self.asl_a();
                return Ok(false);
            },
            0x0e | 0x1e | 0x06 | 0x16 => {
                self.asl(&opcode.mode)?;
                return Ok(false);
            },
            0x4a => {
                self.lsr_a();
                return Ok(false);
            },
            0x4e | 0x5e | 0x46 | 0x56 => {
                self.lsr(&opcode.mode)?;
                return Ok(false);
            },
            0x2a => {
                self.rol_a();
                return Ok(false);
            },
            0x2e | 0x3e | 0x26 | 0x36 => {
                self.rol(&opcode.mode)?;
                return Ok(false);
            },
            0x6a => {
                self.ror_a();
                return Ok(false);
            },
            0x6e | 0x7e | 0x66 | 0x76 => {
                self.ror(&opcode.mode)?;
                return Ok(false);
            },
            0xce | 0xde | 0xc6 | 0xd6 => {
                self.dec(&opcode.mode)?;
                return Ok(false);
            },
            0xee | 0xfe | 0xe6 | 0xf6 => {
                self.inc(&opcode.mode)?;
                return Ok(false);
            },
            0xc9 | 0xcd | 0xdd | 0xd9 | 0xc5 | 0xd5 | 0xc1 | 0xd1 => {
                self.compare(&opcode.mode, self.register_a)?;
                return Ok(false);
            },
            0xe0 | 0xec | 0xe4 => {
                self.compare(&opcode.mode, self.register_x)?;
                return Ok(false);
            },
            0xc0 | 0xcc | 0xc4 => {
                self.compare(&opcode.mode, self.register_y)?;
                return Ok(false);
            },
            0x29 | 0x2d | 0x3d | 0x39 | 0x25 | 0x35 | 0x21 | 0x31 => {
                self.and(&opcode.mode)?;
                return Ok(false);
            },
            0x2c | 0x24 => {
                self.bit(&opcode.mode)?;
                return Ok(false);
            },
            0x49 | 0x4d | 0x5d | 0x59 | 0x45 | 0x55 | 0x41 | 0x51 => {
                self.eor(&opcode.mode)?;
                return Ok(false);
            },
            0x09 | 0x0d | 0x1d | 0x19 | 0x05 | 0x15 | 0x01 | 0x11 => {
                self.ora(&opcode.mode)?;
                return Ok(false);
            },
            0x90 => {
                self.branch(!self.status.contains(CPUFlags::CARRY))?;
                return Ok(false);
            },
            0xb0 => {
                self.branch(self.status.contains(CPUFlags::CARRY))?;
                return Ok(false);
            },
            0xd0 => {
                self.branch(!self.status.contains(CPUFlags::ZERO))?;
                return Ok(false);
            },
            0xf0 => {
                self.branch(self.status.contains(CPUFlags::ZERO))?;
                return Ok(false);
            },
            0x10 => {
                self.branch(!self.status.contains(CPUFlags::NEGATIVE))?;
                return Ok(false);
            },
            0x30 => {
                self.branch(self.status.contains(CPUFlags::NEGATIVE))?;
                return Ok(false);
            },
            0x50 => {
                self.branch(!self.status.contains(CPUFlags::OVERFLOW))?;
                return Ok(false);
            },
            0x70 => {
                self.branch(self.status.contains(CPUFlags::OVERFLOW))?;
                return Ok(false);
            },
            0x18 => {
                self.remove_carry_flag();
                return Ok(false);
            },
            0xd8 => {
                self.status.remove(CPUFlags::DECIMAL);
                return Ok(false);
            },
            0x58 => {
                self.status.remove(CPUFlags::INTERRUPT_DISABLE);
                return Ok(false);
            },
            0xb8 => {
                self.status.remove(CPUFlags::OVERFLOW);
                return Ok(false);
            },
            0x38 => {
                self.set_carry_flag();
                return Ok(false);
            },
            0xf8 => {
                self.status.insert(CPUFlags::DECIMAL);
                return Ok(false);
            },
            0x78 => {
                self.status.insert(CPUFlags::INTERRUPT_DISABLE);
                return Ok(false);
            },
            0x4c => {
                self.jmp_absolute()?;
                return Ok(false);
            },
            0x6c => {
                self.jmp_indirect()?;
                return Ok(false);
            },
            0x20 => {
                self.jsr()?;
                return Ok(false);
            },
            0x40 => {
                self.rti();
                return Ok(false);
            },
            0x60 => {
                self.rts();
                return Ok(false);
            },
            0x48 => {
                self.pha();
                return Ok(false);
            },
            0x08 => {
                self.php();
                return Ok(false);
            },
            0x68 => {
                self.pla();
                return Ok(false);
            },
            0x28 => {
                self.plp();
                return Ok(false);
            },
            0xaa => {
                self.tax();
                return Ok(false);
            },
            0xa8 => {
                self.tay();
                return Ok(false);
            },
            0xba => {
                self.tsx();
                return Ok(false);
            },
            0x8a => {
                self.txa();
                return Ok(false);
            },
            0x9a => {
                self.txs();
                return Ok(false);
            },
            0x98 => {
                self.tya();
                return Ok(false);
            },
            0xca => {
                self.dex();
                return Ok(false);
            },
            0x88 => {
                self.dey();
                return Ok(false);
            },
            0xe8 => {
                self.inx();
                return Ok(false);
            },
            0xc8 => {
                self.iny();
                return Ok(false);
            },
            0xea => {
                return Ok(false);
            },
            0x00 => {
                self.brk();
                return Ok(true);
            },
            _ => {
                return Err(Fault::UnknownOpcode(opcode.code));
            },
        }
    }
}

} // verus!
