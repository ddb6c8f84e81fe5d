use crate::bits::{high_byte, low_byte, shifted_left, shifted_right, word, wrap16, wrap8};
use crate::cpu::AddressingMode;
use crate::fault::Fault;
use crate::flags::{lemma_flag_algebra, CPUFlags};
use crate::machine::{going, stack_slot, Machine};
use crate::opcode::{table, OpCode};
use vstd::prelude::*;

verus! {

impl Machine {
    /// `Z` and `N` are those of `value`: `Z` says that it is zero, `N` that
    /// its bit 7 is set.
    pub open spec fn shows(self, value: u8) -> bool {
        &&& self.status.has(CPUFlags::ZERO) == (value == 0)
        &&& self.status.has(CPUFlags::NEGATIVE) == (value >= 0x80)
    }
}

/// After an instruction the registers `A`, `X`, `Y` and `S` hold 8 bits
/// each, and the program counter 16.
pub proof fn lemma_registers_keep_width(m: Machine)
    ensures
        m.step() matches Ok((next, _)) ==> {
            &&& 0 <= next.a < 0x100
            &&& 0 <= next.x < 0x100
            &&& 0 <= next.y < 0x100
            &&& 0 <= next.s < 0x100
            &&& 0 <= next.pc < 0x1_0000
        },
{
}

/// Setting `Z` and `N` on a value makes them show that value, and leaves
/// the other six flags as they were.
pub proof fn lemma_zero_and_negative(m: Machine, value: u8, other: u8)
    ensures
        m.update_zero_and_set_negative_flags(value).shows(value),
        other & (CPUFlags::ZERO | CPUFlags::NEGATIVE) == 0
            ==> m.update_zero_and_set_negative_flags(value).status.has(other) == m.status.has(
            other,
        ),
{
    let zero = m.update_zero_flags(value);
    lemma_flag_algebra(m.status, CPUFlags::ZERO, CPUFlags::NEGATIVE);
    lemma_flag_algebra(zero.status, CPUFlags::NEGATIVE, CPUFlags::ZERO);
    assert(CPUFlags::ZERO & CPUFlags::NEGATIVE == 0 && CPUFlags::NEGATIVE & CPUFlags::ZERO == 0)
        by (bit_vector);
    if other & (CPUFlags::ZERO | CPUFlags::NEGATIVE) == 0 {
        assert(other & (0b0000_0010u8 | 0b1000_0000u8) == 0 ==> 0b0000_0010u8 & other == 0
            && 0b1000_0000u8 & other == 0) by (bit_vector);
        lemma_flag_algebra(m.status, CPUFlags::ZERO, other);
        lemma_flag_algebra(zero.status, CPUFlags::NEGATIVE, other);
    }
}

/// Every instruction that sets `Z` and `N` leaves them showing its result:
/// the register that a load, a transfer, an increment, an addition, a
/// logical operation, a shift of the accumulator or a pull has written.
pub proof fn lemma_result_shows_in_register(m: Machine, mode: AddressingMode)
    ensures
        m.lda(mode) matches Ok(next) ==> next.shows(next.a),
        m.ldx(mode) matches Ok(next) ==> next.shows(next.x),
        m.ldy(mode) matches Ok(next) ==> next.shows(next.y),
        m.tax().shows(m.tax().x),
        m.tay().shows(m.tay().y),
        m.tsx().shows(m.tsx().x),
        m.txa().shows(m.txa().a),
        m.tya().shows(m.tya().a),
        m.inx().shows(m.inx().x),
        m.iny().shows(m.iny().y),
        m.dex().shows(m.dex().x),
        m.dey().shows(m.dey().y),
        m.adc(mode) matches Ok(next) ==> next.shows(next.a),
        m.sbc(mode) matches Ok(next) ==> next.shows(next.a),
        m.and(mode) matches Ok(next) ==> next.shows(next.a),
        m.eor(mode) matches Ok(next) ==> next.shows(next.a),
        m.ora(mode) matches Ok(next) ==> next.shows(next.a),
        m.asl_a().shows(m.asl_a().a),
        m.lsr_a().shows(m.lsr_a().a),
        m.rol_a().shows(m.rol_a().a),
        m.ror_a().shows(m.ror_a().a),
        m.pla().shows(m.pla().a),
{
    assert forall|before: Machine, value: u8|
        (#[trigger] before.update_zero_and_set_negative_flags(value)).shows(value) by {
        lemma_zero_and_negative(before, value, 0);
    }
}

/// Every instruction that sets `Z` and `N` leaves them showing its result:
/// the byte that an increment, a decrement or a shift has written to
/// memory, and the difference that a comparison has taken.
pub proof fn lemma_result_shows_in_memory(m: Machine, mode: AddressingMode, register: u8)
    ensures
        m.get_operand_addressing(mode) matches Ok(addr) ==> {
            let value = m.bus.read(addr);
            let carry = m.status.has(CPUFlags::CARRY);
            &&& m.inc(mode) matches Ok(next) ==> next.shows(wrap8(value + 1))
            &&& m.dec(mode) matches Ok(next) ==> next.shows(wrap8(value - 1))
            &&& m.asl(mode) matches Ok(next) ==> next.shows(shifted_left(value, false))
            &&& m.lsr(mode) matches Ok(next) ==> next.shows(shifted_right(value, false))
            &&& m.rol(mode) matches Ok(next) ==> next.shows(shifted_left(value, carry))
            &&& m.ror(mode) matches Ok(next) ==> next.shows(shifted_right(value, carry))
            &&& m.compare(mode, register) matches Ok(next) ==> next.shows(wrap8(register - value))
        },
{
    assert forall|before: Machine, value: u8|
        (#[trigger] before.update_zero_and_set_negative_flags(value)).shows(value) by {
        lemma_zero_and_negative(before, value, 0);
    }
}

/// Writing a run of bytes changes nothing but the bus, keeps its shape, and
/// leaves each byte that does not wrap around onto an earlier one where it
/// was put; addresses outside the run keep what they held.
pub proof fn lemma_write_bytes(m: Machine, start: u16, bytes: Seq<u8>, addr: u16)
    requires
        m.wf(),
        m.bus.flat(),
        bytes.len() <= 0x1_0000,
    ensures
        m.write_bytes(start, bytes) == (Machine { bus: m.write_bytes(start, bytes).bus, ..m }),
        m.write_bytes(start, bytes).wf(),
        m.write_bytes(start, bytes).bus.flat(),
        m.write_bytes(start, bytes).bus.read(addr) == {
            let offset = (addr - start) % 0x1_0000;
            if offset < bytes.len() {
                bytes[offset]
            } else {
                m.bus.read(addr)
            }
        },
    decreases bytes.len(),
{
    if bytes.len() > 0 {
        lemma_write_bytes(m, start, bytes.drop_last(), addr);
    }
}

/// After a load the program lies at `0x0600`, as far as it does not reach
/// the reset vector, and a reset starts it there.
pub proof fn lemma_load_then_reset(m: Machine, program: Seq<u8>, i: int)
    requires
        m.wf(),
        m.bus.flat(),
        program.len() <= 0xF9FC,
        0 <= i < program.len(),
    ensures
        m.load(program).bus.read((0x0600 + i) as u16) == program[i],
        m.load(program).reset().pc == 0x0600,
        m.load(program).reset().bus == m.load(program).bus,
{
    lemma_write_bytes(m, 0x0600, program, (0x0600 + i) as u16);
}

/// A push and then a pop, with the stack pointer and the pushed byte left
/// alone in between, gives back the byte and the stack pointer.
pub proof fn lemma_push_then_pop(m: Machine, value: u8, later: Machine)
    requires
        m.wf(),
        later.s == m.stack_push(value).s,
        later.bus.read(stack_slot(m.s)) == m.stack_push(value).bus.read(stack_slot(m.s)),
    ensures
        later.stack_pop() == ((Machine { s: m.s, ..later }, value)),
{
}

/// `PHA` and then `PLA`, with the stack pointer and the pushed byte left
/// alone in between, gives `A` and the stack pointer what they had.
pub proof fn lemma_pha_then_pla(m: Machine, later: Machine)
    requires
        m.wf(),
        later.s == m.pha().s,
        later.bus.read(stack_slot(m.s)) == m.pha().bus.read(stack_slot(m.s)),
    ensures
        later.pla().a == m.a,
        later.pla().s == m.s,
        m.pha().pla().a == m.a,
        m.pha().pla().s == m.s,
{
    lemma_push_then_pop(m, m.a, later);
    lemma_push_then_pop(m, m.a, m.pha());
}

/// `JSR` and then `RTS`, with the stack pointer and the two pushed bytes
/// left alone in between, gives the program counter the address of the
/// byte after the three bytes of the `JSR`. The program counter of `m` is at
/// the operand of the `JSR`, one byte after its opcode.
pub proof fn lemma_jsr_then_rts(m: Machine, later: Machine)
    requires
        m.wf(),
        m.jsr() matches Ok(called) && {
            &&& later.s == called.s
            &&& later.bus.read(stack_slot(m.s)) == called.bus.read(stack_slot(m.s))
            &&& later.bus.read(stack_slot(wrap8(m.s - 1))) == called.bus.read(
                stack_slot(wrap8(m.s - 1)),
            )
        },
    ensures
        later.rts().pc == wrap16(m.pc + 2),
        later.rts().s == m.s,
{
    let target = wrap16(m.pc + 1);
    let high = m.stack_push(high_byte(target));
    let both = high.stack_push(low_byte(target));
    assert(both.bus.read(stack_slot(m.s)) == high_byte(target));
    lemma_push_then_pop(high, low_byte(target), later);
    let (first, lo) = later.stack_pop();
    assert(lo == low_byte(target));
    lemma_push_then_pop(m, high_byte(target), first);
    let (second, hi) = first.stack_pop();
    assert(hi == high_byte(target));
    assert(word(lo, hi) == target);
}

/// What a turn of the loop does when it finds the opcode of `PHA`, `PLA`,
/// `JSR` or `RTS` at the program counter.
proof fn lemma_stack_turns(m: Machine)
    ensures
        m.try_read(m.pc) == Ok::<u8, Fault>(0x48) ==> m.step() == Ok::<(Machine, bool), Fault>(
            ((Machine { pc: wrap16(m.pc + 1), ..m }).pha(), false),
        ),
        m.try_read(m.pc) == Ok::<u8, Fault>(0x68) ==> m.step() == Ok::<(Machine, bool), Fault>(
            ((Machine { pc: wrap16(m.pc + 1), ..m }).pla(), false),
        ),
        m.try_read(m.pc) == Ok::<u8, Fault>(0x60) ==> m.step() == Ok::<(Machine, bool), Fault>(
            ((Machine { pc: wrap16(m.pc + 1), ..m }).rts(), false),
        ),
        m.try_read(m.pc) == Ok::<u8, Fault>(0x20) ==> (m.step() matches Ok((next, halted))
            ==> (Machine { pc: wrap16(m.pc + 1), ..m }).jsr() matches Ok(called) && called.s
            == next.s && called.bus == next.bus),
{
    reveal(Machine::step);
    let fetched = Machine { pc: wrap16(m.pc + 1), ..m };
    assert({
        &&& table(0x48) matches Some(op) && op.code == 0x48 && op.len == 1
        &&& table(0x68) matches Some(op) && op.code == 0x68 && op.len == 1
        &&& table(0x60) matches Some(op) && op.code == 0x60 && op.len == 1
        &&& table(0x20) matches Some(op) && op.code == 0x20 && op.len == 3
    }) by {
        reveal(table);
    }
    assert forall|op: OpCode| op.code == 0x48 implies #[trigger] fetched.execute(op) == Ok::<
        (Machine, bool),
        Fault,
    >((fetched.pha(), false)) by {
        reveal(Machine::execute);
    }
    assert forall|op: OpCode| op.code == 0x68 implies #[trigger] fetched.execute(op) == Ok::<
        (Machine, bool),
        Fault,
    >((fetched.pla(), false)) by {
        reveal(Machine::execute);
    }
    assert forall|op: OpCode| op.code == 0x60 implies #[trigger] fetched.execute(op) == Ok::<
        (Machine, bool),
        Fault,
    >((fetched.rts(), false)) by {
        reveal(Machine::execute);
    }
    assert forall|op: OpCode| op.code == 0x20 implies #[trigger] fetched.execute(op) == going(
        fetched.jsr(),
    ) by {
        reveal(Machine::execute);
    }
}

/// The same of two turns of the loop: one that finds a `PHA` at the program
/// counter, and a later one that finds a `PLA`.
pub proof fn lemma_pha_then_pla_in_loop(m: Machine, later: Machine)
    requires
        m.wf(),
        m.try_read(m.pc) == Ok::<u8, Fault>(0x48),
        later.try_read(later.pc) == Ok::<u8, Fault>(0x68),
        m.step() matches Ok((pushed, _)) && {
            &&& later.s == pushed.s
            &&& later.bus.read(stack_slot(m.s)) == pushed.bus.read(stack_slot(m.s))
        },
    ensures
        later.step() matches Ok((pulled, halted)) && {
            &&& !halted
            &&& pulled.a == m.a
            &&& pulled.s == m.s
            &&& pulled.pc == wrap16(later.pc + 1)
        },
{
    lemma_stack_turns(m);
    lemma_stack_turns(later);
    lemma_pha_then_pla(
        Machine { pc: wrap16(m.pc + 1), ..m },
        Machine { pc: wrap16(later.pc + 1), ..later },
    );
}

/// The same of two turns of the loop: one that finds a `JSR` at the program
/// counter, and a later one that finds an `RTS`. The program counter comes
/// to the byte after the three bytes of the `JSR`.
#[verifier::rlimit(50)]
pub proof fn lemma_jsr_then_rts_in_loop(m: Machine, later: Machine)
    requires
        m.wf(),
        m.try_read(m.pc) == Ok::<u8, Fault>(0x20),
        later.try_read(later.pc) == Ok::<u8, Fault>(0x60),
        m.step() matches Ok((called, _)) && {
            &&& later.s == called.s
            &&& later.bus.read(stack_slot(m.s)) == called.bus.read(stack_slot(m.s))
            &&& later.bus.read(stack_slot(wrap8(m.s - 1))) == called.bus.read(
                stack_slot(wrap8(m.s - 1)),
            )
        },
    ensures
        later.step() matches Ok((back, halted)) && {
            &&& !halted
            &&& back.pc == wrap16(m.pc + 3)
            &&& back.s == m.s
        },
{
    let fetched = Machine { pc: wrap16(m.pc + 1), ..m };
    let returning = Machine { pc: wrap16(later.pc + 1), ..later };
    assert(returning.rts().pc == wrap16(fetched.pc + 2) && returning.rts().s == fetched.s) by {
        lemma_stack_turns(m);
        lemma_jsr_then_rts(fetched, returning);
    }
    assert(later.step() == Ok::<(Machine, bool), Fault>((returning.rts(), false))) by {
        lemma_stack_turns(later);
    }
}

/// What `ASL` and `LSR` make of a byte, in shifts and masks: the byte moved
/// by one bit, and the bit that left in the carry.
pub proof fn lemma_shift_values(m: Machine)
    ensures
        m.asl_a().a == ((m.a as u16) << 1) & 0xFF,
        m.asl_a().status.has(CPUFlags::CARRY) == (m.a >> 7 == 1),
        m.lsr_a().a == m.a >> 1,
        m.lsr_a().status.has(CPUFlags::CARRY) == (m.a & 1 == 1),
        forall|value: u8| #[trigger] shifted_left(value, false) == ((value as u16) << 1) & 0xFF,
        forall|value: u8| #[trigger] shifted_right(value, false) == value >> 1,
{
    assert forall|value: u8| #[trigger] shifted_left(value, false) == ((value as u16) << 1) & 0xFF by {
        assert((2 * value) % 256 == ((value as u16) << 1) & 0xFF) by (bit_vector);
    }
    assert forall|value: u8| #[trigger] shifted_right(value, false) == value >> 1 by {
        assert(value / 2 == value >> 1) by (bit_vector);
    }
    let a = m.a;
    assert((a >= 128) == (a >> 7 == 1) && (a % 2 == 1) == (a & 1 == 1)) by (bit_vector);
    lemma_carry_survives(m.flag(CPUFlags::CARRY, a >= 128), shifted_left(a, false));
    lemma_carry_survives(m.flag(CPUFlags::CARRY, a % 2 == 1), shifted_right(a, false));
    lemma_flag_algebra(m.status, CPUFlags::CARRY, CPUFlags::CARRY);
}

/// Writing the accumulator leaves the carry as it was.
proof fn lemma_carry_survives(m: Machine, value: u8)
    ensures
        m.set_register_a(value).status.has(CPUFlags::CARRY) == m.status.has(CPUFlags::CARRY),
{
    assert(CPUFlags::CARRY & (CPUFlags::ZERO | CPUFlags::NEGATIVE) == 0) by (bit_vector);
    lemma_zero_and_negative(Machine { a: value, ..m }, value, CPUFlags::CARRY);
}

/// A rotation to the left and then one to the right give back the byte and
/// the carry.
pub proof fn lemma_rol_then_ror(m: Machine, value: u8, carry: bool)
    ensures
        shifted_right(shifted_left(value, carry), value >= 128) == value,
        (shifted_left(value, carry) % 2 == 1) == carry,
        m.rol_a().ror_a().a == m.a,
        m.rol_a().ror_a().status.has(CPUFlags::CARRY) == m.status.has(CPUFlags::CARRY),
{
    let a = m.a;
    let c = m.status.has(CPUFlags::CARRY);
    let left = m.flag(CPUFlags::CARRY, a >= 128);
    let rolled = m.rol_a();
    lemma_flag_algebra(m.status, CPUFlags::CARRY, CPUFlags::CARRY);
    lemma_carry_survives(left, shifted_left(a, c));
    assert(rolled.status.has(CPUFlags::CARRY) == (a >= 128));
    assert(rolled.a == shifted_left(a, c));
    let right = rolled.flag(CPUFlags::CARRY, rolled.a % 2 == 1);
    lemma_flag_algebra(rolled.status, CPUFlags::CARRY, CPUFlags::CARRY);
    lemma_carry_survives(right, shifted_right(rolled.a, a >= 128));
}

/// `ADC` gives the same accumulator and the same flags, the carry among
/// them, whichever of its two numbers is in `A` and whichever in memory.
pub proof fn lemma_adc_commutes(m: Machine, first: u8, second: u8)
    ensures
        (Machine { a: first, ..m }).add_to_register_a(second) == (Machine {
            a: second,
            ..m
        }).add_to_register_a(first),
{
    let result = wrap8(first + second + m.get_carry());
    assert((second ^ result) & (first ^ result) & 0x80 == (first ^ result) & (second ^ result)
        & 0x80) by (bit_vector);
}


/// A fault of a read or a write: an access to the PPU registers or a write
/// to ROM.
pub open spec fn of_the_bus(fault: Fault) -> bool {
    fault is PpuAccess || fault is WriteToRom
}

impl Machine {
    /// `outcome` is no fault but one of the bus, and none at all on a flat
    /// bus.
    pub open spec fn fails_on_the_bus_alone<T>(self, outcome: Result<T, Fault>) -> bool {
        outcome matches Err(fault) ==> of_the_bus(fault) && !self.bus.flat()
    }
}

/// With a mode that names an operand address, an instruction meets no fault
/// but one of the bus, and none at all on a flat bus.
pub proof fn lemma_instruction_faults(m: Machine, mode: AddressingMode, register: u8, condition: bool)
    requires
        mode != AddressingMode::Implied,
        mode != AddressingMode::Indirect,
    ensures
        m.fails_on_the_bus_alone(m.get_operand_addressing(mode)),
        m.fails_on_the_bus_alone(m.read_value_from_memory(mode)),
        m.fails_on_the_bus_alone(m.lda(mode)),
        m.fails_on_the_bus_alone(m.ldx(mode)),
        m.fails_on_the_bus_alone(m.ldy(mode)),
        m.fails_on_the_bus_alone(m.sta(mode)),
        m.fails_on_the_bus_alone(m.stx(mode)),
        m.fails_on_the_bus_alone(m.sty(mode)),
        m.fails_on_the_bus_alone(m.adc(mode)),
        m.fails_on_the_bus_alone(m.sbc(mode)),
        m.fails_on_the_bus_alone(m.and(mode)),
        m.fails_on_the_bus_alone(m.eor(mode)),
        m.fails_on_the_bus_alone(m.ora(mode)),
        m.fails_on_the_bus_alone(m.bit(mode)),
        m.fails_on_the_bus_alone(m.compare(mode, register)),
        m.fails_on_the_bus_alone(m.inc(mode)),
        m.fails_on_the_bus_alone(m.dec(mode)),
        m.fails_on_the_bus_alone(m.asl(mode)),
        m.fails_on_the_bus_alone(m.lsr(mode)),
        m.fails_on_the_bus_alone(m.rol(mode)),
        m.fails_on_the_bus_alone(m.ror(mode)),
        m.fails_on_the_bus_alone(m.jmp_absolute()),
        m.fails_on_the_bus_alone(m.jmp_indirect()),
        m.fails_on_the_bus_alone(m.jsr()),
        m.fails_on_the_bus_alone(m.branch(condition)),
{
}

/// The loop hands no instruction a mode that names no operand address: a
/// turn of it fails on an undefined opcode or on a fault of the bus, and on
/// nothing else; on a flat bus, on an undefined opcode alone.
pub proof fn lemma_step_faults(m: Machine)
    ensures
        m.step() matches Err(fault) ==> fault is UnknownOpcode || (of_the_bus(fault)
            && !m.bus.flat()),
{
    reveal(Machine::step);
    if let Ok(code) = m.try_read(m.pc) {
        if let Some(op) = table(code) {
            let fetched = Machine { pc: wrap16(m.pc + 1), ..m };
            lemma_execute_faults(fetched, code);
        }
    }
}

/// The budget of a run decides nothing but where a run that has not come
/// to its end is cut off: a run that ends within a budget ends the same
/// within every larger one.
pub proof fn lemma_budget_only_cuts(m: Machine, budget: nat, larger: nat)
    requires
        budget <= larger,
        m.run(budget).1 != Err::<(), Fault>(Fault::StepLimit),
    ensures
        m.run(larger) == m.run(budget),
    decreases budget,
{
    if budget > 0 {
        if let Ok((next, halted)) = m.step() {
            if !halted {
                lemma_budget_only_cuts(next, (budget - 1) as nat, (larger - 1) as nat);
            }
        }
    }
}

/// The opcodes of the instructions that resolve no operand address: those
/// without an operand, and the indirect jump, which reads its target
/// itself.
spec fn resolves_no_address(code: u8) -> bool {
    match code {
        0x00 | 0xea | 0xaa | 0xa8 | 0xba | 0x8a | 0x9a | 0x98 | 0xca | 0x88 | 0xe8 | 0xc8 | 0x48
        | 0x08 | 0x68 | 0x28 | 0x18 | 0x38 | 0xd8 | 0xf8 | 0x58 | 0x78 | 0xb8 | 0x0a | 0x4a | 0x2a
        | 0x6a | 0x60 | 0x40 | 0x6c => true,
        _ => false,
    }
}

proof fn lemma_modes_of_the_table(code: u8)
    ensures
        table(code) matches Some(op) ==> op.code == code && (op.mode == AddressingMode::Implied
            || op.mode == AddressingMode::Indirect ==> resolves_no_address(code)),
{
    reveal(table);
}

proof fn lemma_execute_faults(m: Machine, code: u8)
    ensures
        table(code) matches Some(op) ==> (m.execute(op) matches Err(fault) ==> fault is UnknownOpcode
            || (of_the_bus(fault) && !m.bus.flat())),
{
    lemma_modes_of_the_table(code);
    if let Some(op) = table(code) {
        reveal(Machine::execute);
        if op.mode != AddressingMode::Implied && op.mode != AddressingMode::Indirect {
            lemma_instruction_faults(m, op.mode, m.a, true);
            lemma_instruction_faults(m, op.mode, m.x, false);
            lemma_instruction_faults(m, op.mode, m.y, true);
        }
        lemma_instruction_faults(m, AddressingMode::Absolute, 0, true);
        lemma_instruction_faults(m, AddressingMode::Absolute, 0, false);
    }
}

} // verus!
