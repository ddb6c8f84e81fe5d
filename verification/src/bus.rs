use crate::bits::{high_byte, low_byte, word, wrap16};
use crate::cpu::Mem;
use crate::fault::Fault;
use vstd::prelude::*;

verus! {

/// First address of the PPU register mirrors.
pub const PPU_REGISTERS: u16 = 0x2000;

/// Last address of the PPU register mirrors.
pub const PPU_REGISTERS_MIRRORS_END: u16 = 0x3fff;

/// First address of the cartridge program ROM.
pub const PRG_ROM: u16 = 0x8000;

/// What a bus holds, as plain sequences.
///
/// With a cartridge the bus decodes addresses as the console does: 2 KiB of
/// RAM mirrored up to `0x1FFF`, the PPU registers up to `0x3FFF`, the program
/// ROM from `0x8000`. Without one it is flat: 64 KiB of RAM, one cell for
/// each address, for running code fragments.
#[verifier::ext_equal]
pub struct BusView {
    pub ram: Seq<u8>,
    pub prg_rom: Option<Seq<u8>>,
}

impl BusView {
    /// The RAM and the program ROM have the sizes of one of the two kinds
    /// of bus.
    pub open spec fn wf(self) -> bool {
        match self.prg_rom {
            None => self.ram.len() == 0x10000,
            Some(rom) => self.ram.len() == 0x800 && (rom.len() == 0x4000 || rom.len() == 0x8000),
        }
    }

    /// The flat bus with every cell zero.
    pub open spec fn blank() -> BusView {
        BusView { ram: Seq::new(0x10000, |i: int| 0u8), prg_rom: None }
    }

    /// The bus of a console with zeroed RAM and the given program ROM.
    pub open spec fn with_cartridge(prg_rom: Seq<u8>) -> BusView {
        BusView { ram: Seq::new(0x800, |i: int| 0u8), prg_rom: Some(prg_rom) }
    }

    pub open spec fn flat(self) -> bool {
        self.prg_rom is None
    }

    /// The fatal condition that a read of `addr` meets, if any.
    pub open spec fn read_fault(self, addr: u16) -> Option<Fault> {
        if !self.flat() && PPU_REGISTERS <= addr <= PPU_REGISTERS_MIRRORS_END {
            Some(Fault::PpuAccess(addr))
        } else {
            None
        }
    }

    /// The fatal condition that a write to `addr` meets, if any.
    pub open spec fn write_fault(self, addr: u16) -> Option<Fault> {
        if self.flat() {
            None
        } else if PPU_REGISTERS <= addr <= PPU_REGISTERS_MIRRORS_END {
            Some(Fault::PpuAccess(addr))
        } else if addr >= PRG_ROM {
            Some(Fault::WriteToRom(addr))
        } else {
            None
        }
    }

    /// Nothing is mapped to `addr`: a read of it gives zero and a write to
    /// it is dropped, neither a fault. A host may want to report such an
    /// access.
    pub open spec fn unmapped(self, addr: u16) -> bool {
        !self.flat() && PPU_REGISTERS_MIRRORS_END < addr < PRG_ROM
    }

    /// The byte of the program ROM that `addr`, from `0x8000` up, is mapped
    /// to. A 16 KiB ROM shows in both halves of the range.
    pub open spec fn rom_byte(rom: Seq<u8>, addr: u16) -> u8 {
        if rom.len() == 0x4000 {
            rom[(addr - PRG_ROM) % 0x4000]
        } else {
            rom[addr - PRG_ROM]
        }
    }

    /// The byte that a read of `addr` returns. An address that nothing is
    /// mapped to reads as zero.
    pub open spec fn read(self, addr: u16) -> u8 {
        match self.prg_rom {
            None => self.ram[addr as int],
            Some(rom) => if addr < PPU_REGISTERS {
                self.ram[(addr % 0x800) as int]
            } else if addr >= PRG_ROM {
                BusView::rom_byte(rom, addr)
            } else {
                0
            },
        }
    }

    /// The bus after `data` is written to `addr`. A write to an address that
    /// nothing is mapped to changes nothing.
    pub open spec fn write(self, addr: u16, data: u8) -> BusView {
        match self.prg_rom {
            None => BusView { ram: self.ram.update(addr as int, data), ..self },
            Some(_) => if addr < PPU_REGISTERS {
                BusView { ram: self.ram.update((addr % 0x800) as int, data), ..self }
            } else {
                self
            },
        }
    }

    /// The byte at `addr`, or the fault that a read of it meets.
    pub open spec fn try_read(self, addr: u16) -> Result<u8, Fault> {
        match self.read_fault(addr) {
            Some(fault) => Err(fault),
            None => Ok(self.read(addr)),
        }
    }

    /// The bus after `data` is written to `addr`, or the fault that the
    /// write meets.
    pub open spec fn try_write(self, addr: u16, data: u8) -> Result<BusView, Fault> {
        match self.write_fault(addr) {
            Some(fault) => Err(fault),
            None => Ok(self.write(addr, data)),
        }
    }

    /// The little-endian word at `addr`; its high byte is read at the next
    /// address, which wraps from `0xFFFF` to `0`.
    pub open spec fn read_u16(self, addr: u16) -> u16 {
        word(self.read(addr), self.read(wrap16(addr + 1)))
    }

    /// The bus after the low byte of `data` is written to `addr` and then
    /// its high byte to the next address.
    pub open spec fn write_u16(self, addr: u16, data: u16) -> BusView {
        self.write(addr, low_byte(data)).write(wrap16(addr + 1), high_byte(data))
    }
}

/// A write keeps the shape of the bus and the faults of every address.
pub proof fn lemma_write_keeps_shape(bus: BusView, addr: u16, data: u8, other: u16)
    requires
        bus.wf(),
    ensures
        bus.write(addr, data).wf(),
        bus.write(addr, data).prg_rom == bus.prg_rom,
        bus.write(addr, data).read_fault(other) == bus.read_fault(other),
        bus.write(addr, data).write_fault(other) == bus.write_fault(other),
{
}

/// On a flat bus every address has a cell of its own: a read gives what was
/// last written there, and a write changes no other address.
pub proof fn lemma_flat_cells(bus: BusView, addr: u16, data: u8, other: u16)
    requires
        bus.wf(),
        bus.flat(),
    ensures
        bus.write(addr, data).read(addr) == data,
        other != addr ==> bus.write(addr, data).read(other) == bus.read(other),
{
}

/// With a cartridge, the RAM shows every `0x800` bytes up to `0x1FFF`: two
/// addresses there that differ by a multiple of `0x800` read the same and
/// are written as one, and a write touches no address outside that class.
pub proof fn lemma_ram_mirrors(bus: BusView, addr: u16, data: u8, other: u16)
    requires
        bus.wf(),
        !bus.flat(),
        addr < PPU_REGISTERS,
    ensures
        bus.write(addr, data).read(addr) == data,
        other < PPU_REGISTERS && other % 0x800 == addr % 0x800 ==> bus.read(other) == bus.read(addr)
            && bus.write(addr, data).read(other) == data,
        !(other < PPU_REGISTERS && other % 0x800 == addr % 0x800) ==> bus.write(addr, data).read(
            other,
        ) == bus.read(other),
{
}

/// With a cartridge, no write that is not a fault changes the program ROM,
/// and a ROM of 16 KiB reads the same in both halves of its range.
pub proof fn lemma_rom_is_fixed_and_mirrored(bus: BusView, addr: u16, data: u8, other: u16)
    requires
        bus.wf(),
        !bus.flat(),
        other >= PRG_ROM,
    ensures
        bus.write(addr, data).read(other) == bus.read(other),
        bus.prg_rom->Some_0.len() == 0x4000 && other < 0xC000 ==> bus.read(other) == bus.read(
            (other + 0x4000) as u16,
        ),
{
}

/// An unmapped address reads as zero, and a write to it changes nothing.
pub proof fn lemma_unmapped(bus: BusView, addr: u16, data: u8)
    requires
        bus.unmapped(addr),
    ensures
        bus.read_fault(addr) is None,
        bus.write_fault(addr) is None,
        bus.read(addr) == 0,
        bus.write(addr, data) == bus,
{
}

/// The memory bus of the console.
pub struct Bus {
    ram: Vec<u8>,
    prg_rom: Option<Vec<u8>>,
}

impl View for Bus {
    type V = BusView;

    closed spec fn view(&self) -> BusView {
        BusView {
            ram: self.ram@,
            prg_rom: match self.prg_rom {
                Some(rom) => Some(rom@),
                None => None,
            },
        }
    }
}

impl Bus {
    /// Holds of every bus at all times: `use_type_invariant` gives it.
    #[verifier::type_invariant]
    pub open spec fn inv(self) -> bool {
        self@.wf()
    }

    /// The bus of a console with zeroed RAM and the program ROM of a
    /// cartridge, which is 16 KiB or 32 KiB long.
    pub fn new(prg_rom: Vec<u8>) -> (bus: Bus)
        requires
            prg_rom.len() == 0x4000 || prg_rom.len() == 0x8000,
        ensures
            bus@ == BusView::with_cartridge(prg_rom@),
            bus@.wf(),
    {
        let bus = Bus { ram: vec![0u8; 0x800], prg_rom: Some(prg_rom) };
        assert(bus@.ram =~= Seq::new(0x800, |i: int| 0u8));
        bus
    }

    /// A flat bus with every cell zero.
    pub fn flat() -> (bus: Bus)
        ensures
            bus@ == BusView::blank(),
            bus@.wf(),
    {
        let bus = Bus { ram: vec![0u8; 0x10000], prg_rom: None };
        assert(bus@.ram =~= Seq::new(0x10000, |i: int| 0u8));
        bus
    }

    pub fn read_fault(&self, addr: u16) -> (fault: Option<Fault>)
        ensures
            fault == self@.read_fault(addr),
    {
        if self.prg_rom.is_some() && PPU_REGISTERS <= addr && addr <= PPU_REGISTERS_MIRRORS_END {
            Some(Fault::PpuAccess(addr))
        } else {
            None
        }
    }

    pub fn write_fault(&self, addr: u16) -> (fault: Option<Fault>)
        ensures
            fault == self@.write_fault(addr),
    {
        if self.prg_rom.is_none() {
            None
        } else if PPU_REGISTERS <= addr && addr <= PPU_REGISTERS_MIRRORS_END {
            Some(Fault::PpuAccess(addr))
        } else if addr >= PRG_ROM {
            Some(Fault::WriteToRom(addr))
        } else {
            None
        }
    }

    /// Reads the byte at `addr`, unless the read is fatal.
    pub fn try_read(&self, addr: u16) -> (data: Result<u8, Fault>)
        ensures
            data == self@.try_read(addr),
    {
        match self.read_fault(addr) {
            Some(fault) => Err(fault),
            None => Ok(self.mem_read(addr)),
        }
    }

    /// Writes `data` to `addr`, unless the write is fatal; then the bus is
    /// left as it was.
    pub fn try_write(&mut self, addr: u16, data: u8) -> (outcome: Result<(), Fault>)
        ensures
            match old(self)@.try_write(addr, data) {
                Ok(written) => outcome is Ok && final(self)@ == written,
                Err(fault) => outcome == Err::<(), Fault>(fault) && final(self)@ == old(self)@,
            },
    {
        match self.write_fault(addr) {
            Some(fault) => Err(fault),
            None => {
                self.mem_write(addr, data);
                Ok(())
            },
        }
    }

    pub fn unmapped(&self, addr: u16) -> (nothing: bool)
        ensures
            nothing == self@.unmapped(addr),
    {
        self.prg_rom.is_some() && PPU_REGISTERS_MIRRORS_END < addr && addr < PRG_ROM
    }

    fn read_prg_rom(rom: &Vec<u8>, addr: u16) -> (data: u8)
        requires
            addr >= PRG_ROM,
            rom.len() == 0x4000 || rom.len() == 0x8000,
        ensures
            data == BusView::rom_byte(rom@, addr),
    {
        let mut offset: u16 = addr - PRG_ROM;
        if rom.len() == 0x4000 && offset >= 0x4000 {
            offset = offset % 0x4000;
        }
        rom[offset as usize]
    }
}

impl Mem for Bus {
    open spec fn memory(&self) -> BusView {
        self@
    }

    fn mem_read(&self, addr: u16) -> (data: u8) {
        proof {
            use_type_invariant(self);
        }
        match &self.prg_rom {
            None => self.ram[addr as usize],
            Some(rom) => {
                if addr < PPU_REGISTERS {
                    let mirror_down_addr: u16 = addr & 0b0000_0111_1111_1111;
                    assert(addr & 0b0000_0111_1111_1111 == addr % 0x800) by (bit_vector);
                    self.ram[mirror_down_addr as usize]
                } else if addr >= PRG_ROM {
                    Bus::read_prg_rom(rom, addr)
                } else {
                    0
                }
            },
        }
    }

    fn mem_write(&mut self, addr: u16, data: u8) {
        proof {
            use_type_invariant(&*self);
        }
        if self.prg_rom.is_none() {
            self.ram[addr as usize] = data;
        } else if addr < PPU_REGISTERS {
            let mirror_down_addr: u16 = addr & 0b0000_0111_1111_1111;
            assert(addr & 0b0000_0111_1111_1111 == addr % 0x800) by (bit_vector);
            self.ram[mirror_down_addr as usize] = data;
        }
    }
}

} // verus!
