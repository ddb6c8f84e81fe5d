use crate::bits::{make_word, split_word, wrap16};
use crate::bus::{Bus, BusView};
use crate::fault::Fault;
use crate::flags::CPUFlags;
use crate::machine::Machine;
use crate::opcode::{lemma_table_rows, lookup};
use vstd::prelude::*;

verus! {

/// How an instruction finds its operand.
#[derive(Clone, Copy, Debug, PartialEq, Eq, Structural)]
pub enum AddressingMode {
    Immediate,
    ZeroPage,
    ZeroPageX,
    ZeroPageY,
    Absolute,
    AbsoluteX,
    AbsoluteY,
    Indirect,
    IndirectX,
    IndirectY,
    Implied,
}

/// First address of the stack page. The stack pointer counts from here.
pub const STACK: u16 = 0x0100;

/// The stack pointer after a reset.
pub const STACK_RESET: u8 = 0xfd;

/// The status register after a reset: `EXPANSION` and `INTERRUPT_DISABLE`.
pub const STATUS_RESET: u8 = 0b0010_0100;

/// Where a program fragment is loaded.
pub const PROGRAM_START: u16 = 0x0600;

/// Where the reset vector lies.
pub const RESET_VECTOR: u16 = 0xFFFC;

/// The CPU: its registers, and the bus that it is wired to. Its view is the
/// [`Machine`] that holds the same values.
pub struct CPU {
    pub register_a: u8,
    pub register_x: u8,
    pub register_y: u8,
    pub status: CPUFlags,
    pub stack_pointer: u8,
    pub program_counter: u16,
    pub bus: Bus,
}

impl View for CPU {
    type V = Machine;

    open spec fn view(&self) -> Machine {
        Machine {
            a: self.register_a,
            x: self.register_x,
            y: self.register_y,
            status: self.status,
            s: self.stack_pointer,
            pc: self.program_counter,
            bus: self.bus@,
        }
    }
}

/// Access to the memory of the console, a byte or a little-endian word at a
/// time.
///
/// An access that the bus treats as fatal is left out by `requires`:
/// [`BusView::read_fault`] and [`BusView::write_fault`] say which ones are.
pub trait Mem {
    /// The bus that the accesses go to.
    spec fn memory(&self) -> BusView;

    fn mem_read(&self, addr: u16) -> (data: u8)
        requires
            self.memory().read_fault(addr) is None,
        ensures
            data == self.memory().read(addr),
    ;

    fn mem_write(&mut self, addr: u16, data: u8)
        requires
            old(self).memory().write_fault(addr) is None,
        ensures
            final(self).memory() == old(self).memory().write(addr, data),
    ;

    fn mem_read_u16(&self, addr: u16) -> (data: u16)
        requires
            self.memory().read_fault(addr) is None,
            self.memory().read_fault(wrap16(addr + 1)) is None,
        ensures
            data == self.memory().read_u16(addr),
    {
        let lo = self.mem_read(addr);
        let hi = self.mem_read(addr.wrapping_add(1));
        make_word(lo, hi)
    }

    fn mem_write_u16(&mut self, addr: u16, data: u16)
        requires
            old(self).memory().write_fault(addr) is None,
            old(self).memory().write_fault(wrap16(addr + 1)) is None,
        ensures
            final(self).memory() == old(self).memory().write_u16(addr, data),
    {
        let (lo, hi) = split_word(data);
        self.mem_write(addr, lo);
        self.mem_write(addr.wrapping_add(1), hi);
    }
}

impl Mem for CPU {
    open spec fn memory(&self) -> BusView {
        self.bus@
    }

    fn mem_read(&self, addr: u16) -> (data: u8) {
        self.bus.mem_read(addr)
    }

    fn mem_write(&mut self, addr: u16, data: u8)
        ensures
            final(self)@ == old(self)@.mem_write(addr, data),
    {
        self.bus.mem_write(addr, data)
    }

    fn mem_read_u16(&self, addr: u16) -> (data: u16) {
        self.bus.mem_read_u16(addr)
    }

    fn mem_write_u16(&mut self, addr: u16, data: u16)
        ensures
            final(self)@ == old(self)@.mem_write_u16(addr, data),
    {
        self.bus.mem_write_u16(addr, data)
    }
}

/// What a fallible operation leaves: the state that the model gives and
/// `Ok`, or the fault that the model gives and the state untouched.
pub open spec fn settled(
    before: Machine,
    expected: Result<Machine, Fault>,
    after: Machine,
    outcome: Result<(), Fault>,
) -> bool {
    match expected {
        Ok(next) => outcome is Ok && after == next,
        Err(fault) => outcome == Err::<(), Fault>(fault) && after == before,
    }
}

/// What a turn of the loop leaves: the state that the model gives and
/// whether the run ends, or the fault that the model gives and the state
/// untouched.
pub open spec fn stepped(
    before: Machine,
    expected: Result<(Machine, bool), Fault>,
    after: Machine,
    outcome: Result<bool, Fault>,
) -> bool {
    match expected {
        Ok((next, halted)) => outcome == Ok::<bool, Fault>(halted) && after == next,
        Err(fault) => outcome == Err::<bool, Fault>(fault) && after == before,
    }
}

/// Writing the first `i + 1` bytes of a run is writing the first `i` and
/// then the next one.
proof fn lemma_one_more_byte(m: Machine, start: u16, bytes: Seq<u8>, i: int)
    requires
        0 <= i < bytes.len(),
    ensures
        m.write_bytes(start, bytes.take(i + 1)) == m.write_bytes(start, bytes.take(i)).mem_write(
            wrap16(start + i),
            bytes[i],
        ),
{
    assert(bytes.take(i + 1).drop_last() == bytes.take(i));
}

/// The number of instructions after which `run` gives up.
pub const RUN_BUDGET: u64 = u64::MAX;

impl CPU {
    /// A CPU on a flat bus, all registers zero but the stack pointer and
    /// the status, which have their reset values.
    pub fn new() -> (cpu: CPU)
        ensures
            cpu@ == (Machine {
                a: 0,
                x: 0,
                y: 0,
                status: CPUFlags { bits: STATUS_RESET },
                s: STACK_RESET,
                pc: 0,
                bus: BusView::blank(),
            }),
            cpu@.wf(),
    {
        CPU {
            register_a: 0,
            register_x: 0,
            register_y: 0,
            program_counter: 0,
            stack_pointer: STACK_RESET,
            status: CPUFlags::from_bits_truncate(STATUS_RESET),
            bus: Bus::flat(),
        }
    }

    pub fn reset(&mut self)
        ensures
            final(self)@ == old(self)@.reset(),
    {
        self.register_a = 0;
        self.register_x = 0;
        self.register_y = 0;
        self.stack_pointer = STACK_RESET;
        self.status = CPUFlags::from_bits_truncate(STATUS_RESET);

        self.program_counter = self.mem_read_u16(RESET_VECTOR);
    }

    /// Writes `program` to `0x0600` and the addresses after it, and
    /// `0x0600` to the reset vector. The bus is flat: with a cartridge the
    /// reset vector lies in ROM.
    pub fn load(&mut self, program: Vec<u8>)
        requires
            old(self)@.bus.flat(),
        ensures
            final(self)@ == old(self)@.load(program@),
    {
        let mut addr: u16 = PROGRAM_START;
        let mut i: usize = 0;
        while i < program.len()
            invariant
                i <= program.len(),
                addr == wrap16(PROGRAM_START + i),
                self@.bus.flat(),
                self@ == old(self)@.write_bytes(PROGRAM_START, program@.take(i as int)),
            decreases program.len() - i,
        {
            proof {
                lemma_one_more_byte(old(self)@, PROGRAM_START, program@, i as int);
            }
            self.mem_write(addr, program[i]);
            addr = addr.wrapping_add(1);
            i = i + 1;
        }
        assert(program@.take(i as int) == program@);

        self.mem_write_u16(RESET_VECTOR, PROGRAM_START);
    }

    /// Loads `program`, resets, and runs until a `BRK`.
    pub fn load_and_run(&mut self, program: Vec<u8>) -> (outcome: Result<(), Fault>)
        requires
            old(self)@.bus.flat(),
        ensures
            (final(self)@, outcome) == old(self)@.load(program@).reset().run(RUN_BUDGET as nat),
    {
        self.load(program);
        self.reset();
        self.run()
    }

    /// Runs until a `BRK`, a fault, or the end of the budget of
    /// `RUN_BUDGET` instructions.
    pub fn run(&mut self) -> (outcome: Result<(), Fault>)
        ensures
            (final(self)@, outcome) == old(self)@.run(RUN_BUDGET as nat),
    {
        let idle = |cpu: &mut CPU|
            ensures
                *final(cpu) == *old(cpu),
            {
            };
        self.run_with_callback(idle)
    }

    /// Runs until a `BRK`, a fault, or the end of the budget, which is
    /// counted in instructions.
    pub fn run_for(&mut self, budget: u64) -> (outcome: Result<(), Fault>)
        ensures
            (final(self)@, outcome) == old(self)@.run(budget as nat),
    {
        let mut left: u64 = budget;
        while left > 0
            invariant
                self@.run(left as nat) == old(self)@.run(budget as nat),
            decreases left,
        {
            match self.step() {
                Err(fault) => {
                    return Err(fault);
                },
                Ok(halted) => {
                    if halted {
                        return Ok(());
                    }
                },
            }
            left = left - 1;
        }
        Err(Fault::StepLimit)
    }

    /// Runs as `run` does, and calls `callback` after each instruction but
    /// the `BRK` that ends the run. The callback may change the state in any
    /// way, so the result is stated by the last instruction alone: after
    /// `Ok` the state is the one that a `BRK` left, and after a fault other
    /// than the end of the budget it is one in which the next instruction
    /// meets that fault.
    pub fn run_with_callback<F>(&mut self, callback: F) -> (outcome: Result<(), Fault>) where
        F: FnMut(&mut CPU),

        requires
            forall|cpu: &mut CPU| call_requires(callback, (cpu,)),
        ensures
            outcome is Ok ==> exists|before: Machine|
                before.step() == Ok::<(Machine, bool), Fault>((final(self)@, true)),
            outcome matches Err(fault) ==> fault == Fault::StepLimit || final(self)@.step() == Err::<
                (Machine, bool),
                Fault,
            >(fault),
            (forall|cpu: &mut CPU| call_ensures(callback, (cpu,), ()) ==> final(cpu)@ == cpu@) ==> (
                final(self)@,
                outcome,
            ) == old(self)@.run(RUN_BUDGET as nat),
    {
        let mut observer = callback;
        let mut left: u64 = RUN_BUDGET;
        while left > 0
            invariant
                observer == callback,
                forall|cpu: &mut CPU| call_requires(callback, (cpu,)),
                (forall|cpu: &mut CPU| call_ensures(callback, (cpu,), ()) ==> final(cpu)@ == cpu@)
                    ==> self@.run(left as nat) == old(self)@.run(RUN_BUDGET as nat),
            decreases left,
        {
            let ghost before = self@;
            match self.step() {
                Err(fault) => {
                    return Err(fault);
                },
                Ok(halted) => {
                    if halted {
                        assert(before.step() == Ok::<(Machine, bool), Fault>((self@, true)));
                        return Ok(());
                    }
                },
            }
            observer(self);
            left = left - 1;
        }
        Err(Fault::StepLimit)
    }

    /// One instruction: the one at the program counter.
    pub fn step(&mut self) -> (outcome: Result<bool, Fault>)
        ensures
            stepped(old(self)@, old(self)@.step(), final(self)@, outcome),
    {
        reveal(Machine::step);
        let at = self.program_counter;
        let code = self.try_read(at)?;
        let opcode = lookup(code)?;
        proof {
            lemma_table_rows(code);
        }
        self.program_counter = at.wrapping_add(1);
        let program_counter_state = self.program_counter;

        match self.execute(&opcode) {
            Err(fault) => {
                self.program_counter = at;
                Err(fault)
            },
            Ok(halted) => {
                if !halted && self.program_counter == program_counter_state {
                    self.program_counter = self.program_counter.wrapping_add(
                        (opcode.len - 1) as u16,
                    );
                }
                Ok(halted)
            },
        }
    }

    pub fn stack_push(&mut self, value: u8)
        ensures
            final(self)@ == old(self)@.stack_push(value),
    {
        self.mem_write(STACK + self.stack_pointer as u16, value);
        self.stack_pointer = self.stack_pointer.wrapping_sub(1);
    }

    pub fn stack_push_u16(&mut self, value: u16)
        ensures
            final(self)@ == old(self)@.stack_push_u16(value),
    {
        let (lo, hi) = split_word(value);
        self.stack_push(hi);
        self.stack_push(lo);
    }

    pub fn stack_pop(&mut self) -> (value: u8)
        ensures
            (final(self)@, value) == old(self)@.stack_pop(),
    {
        self.stack_pointer = self.stack_pointer.wrapping_add(1);
        self.mem_read(STACK + self.stack_pointer as u16)
    }

    pub fn stack_pop_u16(&mut self) -> (value: u16)
        ensures
            (final(self)@, value) == old(self)@.stack_pop_u16(),
    {
        let lo = self.stack_pop();
        let hi = self.stack_pop();
        make_word(lo, hi)
    }
}

} // verus!
