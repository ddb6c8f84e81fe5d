use nes6502::bus::Bus;
use nes6502::cpu::{AddressingMode, Mem, CPU};
use nes6502::fault::Fault;

/// A console whose 16 KiB cartridge holds `program` at `0x8000`, reset so
/// that the program counter is there.
fn console(program: &[u8]) -> CPU {
    let mut rom = vec![0u8; 0x4000];
    rom[..program.len()].copy_from_slice(program);
    rom[0x3ffc] = 0x00;
    rom[0x3ffd] = 0x80;
    let mut cpu = CPU::new();
    cpu.bus = Bus::new(rom);
    cpu.reset();
    cpu
}

#[test]
fn console_resets_to_the_vector_in_rom() {
    let cpu = console(&[0x00]);
    assert_eq!(cpu.program_counter, 0x8000);
    assert_eq!(cpu.stack_pointer, 0xfd);
    assert_eq!(cpu.status.bits(), 0b0010_0100);
}

#[test]
fn console_runs_a_program_from_rom() {
    let mut cpu = console(&[0xa9, 0x55, 0x8d, 0x00, 0x08, 0x00]);
    assert_eq!(cpu.run(), Ok(()));
    assert_eq!(cpu.register_a, 0x55);
    assert_eq!(cpu.mem_read(0x0000), 0x55);
    assert_eq!(cpu.mem_read(0x0800), 0x55);
    assert_eq!(cpu.mem_read(0x01fd), 0b0011_0100);
    assert_eq!(cpu.program_counter, 0x8006);
}

#[test]
fn unknown_opcode_ends_the_run_before_it() {
    let mut cpu = CPU::new();
    assert_eq!(cpu.load_and_run(vec![0xa9, 0x05, 0x02, 0x00]), Err(Fault::UnknownOpcode(0x02)));
    assert_eq!(cpu.register_a, 0x05);
    assert_eq!(cpu.program_counter, 0x0602);
    assert_eq!(cpu.stack_pointer, 0xfd);
}

#[test]
fn unknown_opcode_fails_a_step_and_changes_nothing() {
    let mut cpu = CPU::new();
    cpu.load(vec![0xff]);
    cpu.reset();
    assert_eq!(cpu.step(), Err(Fault::UnknownOpcode(0xff)));
    assert_eq!(cpu.program_counter, 0x0600);
    assert_eq!(cpu.status.bits(), 0b0010_0100);
}

#[test]
fn read_of_a_ppu_register_is_fatal() {
    let mut cpu = console(&[0xad, 0x02, 0x20, 0x00]);
    assert_eq!(cpu.run(), Err(Fault::PpuAccess(0x2002)));
    assert_eq!(cpu.program_counter, 0x8000);
    assert_eq!(cpu.register_a, 0);
    assert_eq!(cpu.status.bits(), 0b0010_0100);
}

#[test]
fn write_to_a_ppu_register_is_fatal() {
    let mut cpu = console(&[0xa9, 0x01, 0x8d, 0x00, 0x20, 0x00]);
    assert_eq!(cpu.run(), Err(Fault::PpuAccess(0x2000)));
    assert_eq!(cpu.program_counter, 0x8002);
    assert_eq!(cpu.register_a, 0x01);
}

#[test]
fn write_to_rom_is_fatal() {
    let mut cpu = console(&[0x8d, 0x00, 0x80, 0x00]);
    assert_eq!(cpu.run(), Err(Fault::WriteToRom(0x8000)));
    assert_eq!(cpu.program_counter, 0x8000);
}

#[test]
fn increment_in_rom_is_fatal_and_leaves_the_flags() {
    let mut cpu = console(&[0xee, 0x00, 0x90, 0x00]);
    assert_eq!(cpu.step(), Err(Fault::WriteToRom(0x9000)));
    assert_eq!(cpu.program_counter, 0x8000);
    assert_eq!(cpu.status.bits(), 0b0010_0100);
}

#[test]
fn shift_in_rom_is_fatal_and_leaves_the_carry() {
    let mut cpu = console(&[0x0e, 0x04, 0x80, 0x00, 0xff]);
    assert_eq!(cpu.step(), Err(Fault::WriteToRom(0x8004)));
    assert_eq!(cpu.program_counter, 0x8000);
    assert_eq!(cpu.status.bits(), 0b0010_0100);
}

#[test]
fn fetch_from_a_ppu_register_is_fatal() {
    let mut cpu = console(&[0x00]);
    cpu.program_counter = 0x2000;
    assert_eq!(cpu.step(), Err(Fault::PpuAccess(0x2000)));
    assert_eq!(cpu.program_counter, 0x2000);
}

#[test]
fn jsr_with_an_unreadable_operand_pushes_nothing() {
    let mut cpu = console(&[0x00]);
    cpu.mem_write(0x07ff, 0x20);
    cpu.program_counter = 0x1fff;
    assert_eq!(cpu.step(), Err(Fault::PpuAccess(0x2000)));
    assert_eq!(cpu.program_counter, 0x1fff);
    assert_eq!(cpu.stack_pointer, 0xfd);
    assert_eq!(cpu.mem_read(0x01fd), 0);
    assert_eq!(cpu.mem_read(0x01fc), 0);
}

#[test]
fn word_operand_with_an_unreadable_high_byte_is_fatal() {
    let mut cpu = console(&[0x00]);
    cpu.mem_write(0x07fe, 0xad);
    cpu.mem_write(0x07ff, 0x10);
    cpu.program_counter = 0x1ffe;
    assert_eq!(cpu.step(), Err(Fault::PpuAccess(0x2000)));
    assert_eq!(cpu.program_counter, 0x1ffe);
}

#[test]
fn branch_not_taken_does_not_read_its_offset() {
    let mut cpu = console(&[0x00]);
    cpu.mem_write(0x07ff, 0xb0);
    cpu.program_counter = 0x1fff;
    assert_eq!(cpu.step(), Ok(false));
    assert_eq!(cpu.program_counter, 0x2001);

    cpu.mem_write(0x07ff, 0x90);
    cpu.program_counter = 0x1fff;
    assert_eq!(cpu.step(), Err(Fault::PpuAccess(0x2000)));
    assert_eq!(cpu.program_counter, 0x1fff);
}

#[test]
fn unmapped_address_is_no_fault() {
    let mut cpu = console(&[0xa9, 0x77, 0x8d, 0x00, 0x40, 0xad, 0x00, 0x40, 0x00]);
    assert_eq!(cpu.run(), Ok(()));
    assert_eq!(cpu.register_a, 0);
    assert_eq!(cpu.status.bits() & 0b0000_0010, 0b0000_0010);
}

#[test]
fn resolver_refuses_the_modes_without_an_address() {
    let cpu = CPU::new();
    assert_eq!(
        cpu.get_operand_addressing(&AddressingMode::Implied),
        Err(Fault::UnsupportedAddressingMode(AddressingMode::Implied))
    );
    assert_eq!(
        cpu.get_operand_addressing(&AddressingMode::Indirect),
        Err(Fault::UnsupportedAddressingMode(AddressingMode::Indirect))
    );
    assert_eq!(
        cpu.read_value_from_memory(&AddressingMode::Implied),
        Err(Fault::UnsupportedAddressingMode(AddressingMode::Implied))
    );
}

#[test]
fn instruction_with_a_mode_without_an_address_changes_nothing() {
    let mut cpu = CPU::new();
    cpu.register_a = 0x42;
    assert_eq!(
        cpu.lda(&AddressingMode::Implied),
        Err(Fault::UnsupportedAddressingMode(AddressingMode::Implied))
    );
    assert_eq!(
        cpu.sta(&AddressingMode::Indirect),
        Err(Fault::UnsupportedAddressingMode(AddressingMode::Indirect))
    );
    assert_eq!(
        cpu.inc(&AddressingMode::Implied),
        Err(Fault::UnsupportedAddressingMode(AddressingMode::Implied))
    );
    assert_eq!(cpu.register_a, 0x42);
    assert_eq!(cpu.status.bits(), 0b0010_0100);
}

#[test]
fn run_gives_up_when_the_budget_is_spent() {
    let mut cpu = CPU::new();
    cpu.load(vec![0x4c, 0x00, 0x06]);
    cpu.reset();
    assert_eq!(cpu.run_for(1000), Err(Fault::StepLimit));
    assert_eq!(cpu.program_counter, 0x0600);
}

#[test]
fn run_with_no_budget_does_nothing() {
    let mut cpu = CPU::new();
    cpu.load(vec![0xe8, 0x00]);
    cpu.reset();
    assert_eq!(cpu.run_for(0), Err(Fault::StepLimit));
    assert_eq!(cpu.register_x, 0);
    assert_eq!(cpu.program_counter, 0x0600);
}

#[test]
fn budget_counts_the_brk() {
    let mut cpu = CPU::new();
    cpu.load(vec![0xe8, 0xe8, 0x00]);
    cpu.reset();
    assert_eq!(cpu.run_for(2), Err(Fault::StepLimit));
    assert_eq!(cpu.register_x, 2);
    assert_eq!(cpu.program_counter, 0x0602);
    assert_eq!(cpu.stack_pointer, 0xfd);

    cpu.reset();
    assert_eq!(cpu.run_for(3), Ok(()));
    assert_eq!(cpu.register_x, 2);
    assert_eq!(cpu.program_counter, 0x0603);
    assert_eq!(cpu.stack_pointer, 0xfc);
}
