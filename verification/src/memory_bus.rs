//! The address bus: routes every 16-bit address to exactly one of eight
//! fixed, non-overlapping segments covering the whole address space, and
//! enforces each segment's read/write legality. Video and sprite-attribute
//! memory belong to the display timing unit; the bus delegates into them so
//! processor writes are immediately visible to rendering.
//!
//! In this core's reduced scope, cartridge memory, the I/O registers and
//! high memory are unbacked: reads and writes there are invalid accesses,
//! as are writes into the two read-only code segments. Callers test
//! legality with [`MemoryBus::is_readable`] / [`MemoryBus::is_writable`]
//! before touching the bus. The 16-bit address type covers the space
//! exactly, so no access can fall past the last address.

use vstd::prelude::*;

use crate::gpu::GPU;

verus! {

pub const BOOT_ROM_FIRST: u16 = 0x0000;

pub const BOOT_ROM_LAST: u16 = 0x00FF;

pub const CARTRIDGE_ROM_FIRST: u16 = 0x0100;

pub const CARTRIDGE_ROM_LAST: u16 = 0x7FFF;

pub const GRAPHICS_RAM_FIRST: u16 = 0x8000;

pub const GRAPHICS_RAM_LAST: u16 = 0x9FFF;

pub const CARTRIDGE_RAM_FIRST: u16 = 0xA000;

pub const CARTRIDGE_RAM_LAST: u16 = 0xBFFF;

pub const WORKING_RAM_FIRST: u16 = 0xC000;

pub const WORKING_RAM_LAST: u16 = 0xFDFF;

pub const GRAPHICS_SPRITE_FIRST: u16 = 0xFE00;

pub const GRAPHICS_SPRITE_LAST: u16 = 0xFE9F;

pub const IO_FIRST: u16 = 0xFF00;

pub const IO_LAST: u16 = 0xFF7F;

pub const ZERO_PAGE_FIRST: u16 = 0xFF80;

pub const ZERO_PAGE_LAST: u16 = 0xFFFF;

pub const BOOT_ROM_SIZE: usize = 0x100;

pub const CARTRIDGE_ROM_SIZE: usize = 0x7F00;

pub const CARTRIDGE_RAM_SIZE: usize = 0x2000;

pub const WORKING_RAM_SIZE: usize = 0x3E00;

/// The eight segments of the address space.
#[derive(Clone, Copy, PartialEq, Eq, Structural, Debug)]
pub enum Segment {
    BootRom,
    CartridgeRom,
    GraphicsRam,
    CartridgeRam,
    WorkingRam,
    SpriteRam,
    IoRegisters,
    ZeroPage,
}

/// The one segment an address belongs to. The eight ranges are contiguous
/// and cover the 16-bit space, so this if-chain is a partition by
/// construction.
pub open spec fn spec_segment_of(addr: u16) -> Segment {
    if addr <= 0x00FF {
        Segment::BootRom
    } else if addr <= 0x7FFF {
        Segment::CartridgeRom
    } else if addr <= 0x9FFF {
        Segment::GraphicsRam
    } else if addr <= 0xBFFF {
        Segment::CartridgeRam
    } else if addr <= 0xFDFF {
        Segment::WorkingRam
    } else if addr <= 0xFE9F {
        Segment::SpriteRam
    } else if addr <= 0xFF7F {
        Segment::IoRegisters
    } else {
        Segment::ZeroPage
    }
}

/// Legal to read: the two code segments, video memory, working memory and
/// sprite-attribute memory.
pub open spec fn spec_readable(addr: u16) -> bool {
    match spec_segment_of(addr) {
        Segment::BootRom | Segment::CartridgeRom | Segment::GraphicsRam | Segment::WorkingRam
            | Segment::SpriteRam => true,
        _ => false,
    }
}

/// Legal to write: video memory, working memory and sprite-attribute
/// memory; the code segments are read-only.
pub open spec fn spec_writable(addr: u16) -> bool {
    match spec_segment_of(addr) {
        Segment::GraphicsRam | Segment::WorkingRam | Segment::SpriteRam => true,
        _ => false,
    }
}

/// The bus contents as one ghost value: each backed segment's bytes.
#[verifier::ext_equal]
pub ghost struct MemS {
    pub boot: Seq<u8>,
    pub rom: Seq<u8>,
    pub eram: Seq<u8>,
    pub wram: Seq<u8>,
    pub vram: Seq<u8>,
    pub oam: Seq<u8>,
}

/// The byte a read returns, for every readable address: the owning
/// segment's store at the address minus the segment base.
pub open spec fn spec_mem_read(m: MemS, addr: u16) -> u8 {
    if addr <= 0x00FF {
        m.boot[addr as int]
    } else if addr <= 0x7FFF {
        m.rom[addr - 0x100]
    } else if addr <= 0x9FFF {
        m.vram[addr - 0x8000]
    } else if addr <= 0xBFFF {
        m.eram[addr - 0xA000]
    } else if addr <= 0xFDFF {
        m.wram[addr - 0xC000]
    } else if addr <= 0xFE9F {
        m.oam[addr - 0xFE00]
    } else {
        0
    }
}

/// The bus contents after a write, for every writable address: one byte of
/// the owning segment's store replaced, everything else untouched.
pub open spec fn spec_mem_write(m: MemS, addr: u16, v: u8) -> MemS {
    if addr <= 0x9FFF && addr >= 0x8000 {
        MemS { vram: m.vram.update(addr - 0x8000, v), ..m }
    } else if addr >= 0xC000 && addr <= 0xFDFF {
        MemS { wram: m.wram.update(addr - 0xC000, v), ..m }
    } else if addr >= 0xFE00 && addr <= 0xFE9F {
        MemS { oam: m.oam.update(addr - 0xFE00, v), ..m }
    } else {
        m
    }
}

/// Well-formed bus contents: every segment store at its fixed size.
pub open spec fn spec_mem_wf(m: MemS) -> bool {
    &&& m.boot.len() == 0x100
    &&& m.rom.len() == 0x7F00
    &&& m.eram.len() == 0x2000
    &&& m.wram.len() == 0x3E00
    &&& m.vram.len() == 0x2000
    &&& m.oam.len() == 0xA0
}

/// The segmented address bus. It owns the boot-code, cartridge-code,
/// working-memory and cartridge-memory stores, and the display timing unit
/// whose video and sprite stores back the graphics segments.
pub struct MemoryBus {
    pub boot_rom: Vec<u8>,
    pub cartridge_rom: Vec<u8>,
    pub memory: Vec<u8>,
    pub cartridge_ram: Vec<u8>,
    pub gpu: GPU,
}

impl MemoryBus {
    /// Every backed segment holds exactly its fixed size, and the timing
    /// unit is itself well-formed. The unit's store sizes match the
    /// graphics segment sizes the bus routes into.
    pub open spec fn wf(&self) -> bool {
        &&& self.boot_rom@.len() == 0x100
        &&& self.cartridge_rom@.len() == 0x7F00
        &&& self.memory@.len() == 0x3E00
        &&& self.cartridge_ram@.len() == 0x2000
        &&& self.gpu.wf()
    }

    /// The bus contents.
    pub open spec fn contents(&self) -> MemS {
        MemS {
            boot: self.boot_rom@,
            rom: self.cartridge_rom@,
            eram: self.cartridge_ram@,
            wram: self.memory@,
            vram: self.gpu.ram@,
            oam: self.gpu.sprite@,
        }
    }

    /// The non-memory state of the owned timing unit, untouched by bus
    /// reads and writes.
    pub open spec fn gpu_aux(&self) -> (Seq<u32>, Seq<u8>, crate::gpu::ReadMode, u32, u32, u8, u8, u8) {
        (
            self.gpu.canvas@,
            self.gpu.tile_set@,
            self.gpu.read_mode,
            self.gpu.clock,
            self.gpu.line,
            self.gpu.scroll_x,
            self.gpu.scroll_y,
            self.gpu.tile_bank,
        )
    }

    /// Builds the bus at power-on: the boot segment copied verbatim from
    /// the caller's 256-byte boot sequence, every other owned store zeroed,
    /// and the given timing unit adopted as owner of the graphics stores.
    /// A boot sequence of any other length is a construction fault the
    /// caller must rule out first.
    pub fn new(boot_rom: Vec<u8>, gpu: GPU) -> (bus: MemoryBus)
        requires
            boot_rom@.len() == 0x100,
            gpu.wf(),
        ensures
            bus.wf(),
            bus.boot_rom@ == boot_rom@,
            bus.cartridge_rom@ == Seq::new(0x7F00nat, |i: int| 0u8),
            bus.memory@ == Seq::new(0x3E00nat, |i: int| 0u8),
            bus.cartridge_ram@ == Seq::new(0x2000nat, |i: int| 0u8),
            bus.gpu == gpu,
    {
        MemoryBus {
            boot_rom,
            cartridge_rom: zero_store(0x7F00),
            memory: zero_store(0x3E00),
            cartridge_ram: zero_store(0x2000),
            gpu,
        }
    }

    /// Whether a read at this address is legal in this core.
    pub fn is_readable(address: u16) -> (b: bool)
        ensures
            b == spec_readable(address),
    {
        address <= GRAPHICS_RAM_LAST || (WORKING_RAM_FIRST <= address && address
            <= GRAPHICS_SPRITE_LAST)
    }

    /// Whether a write at this address is legal in this core.
    pub fn is_writable(address: u16) -> (b: bool)
        ensures
            b == spec_writable(address),
    {
        (GRAPHICS_RAM_FIRST <= address && address <= GRAPHICS_RAM_LAST) || (WORKING_RAM_FIRST
            <= address && address <= GRAPHICS_SPRITE_LAST)
    }

    /// The segment an address routes to.
    pub fn segment_of(address: u16) -> (s: Segment)
        ensures
            s == spec_segment_of(address),
    {
        if address <= BOOT_ROM_LAST {
            Segment::BootRom
        } else if address <= CARTRIDGE_ROM_LAST {
            Segment::CartridgeRom
        } else if address <= GRAPHICS_RAM_LAST {
            Segment::GraphicsRam
        } else if address <= CARTRIDGE_RAM_LAST {
            Segment::CartridgeRam
        } else if address <= WORKING_RAM_LAST {
            Segment::WorkingRam
        } else if address <= GRAPHICS_SPRITE_LAST {
            Segment::SpriteRam
        } else if address <= IO_LAST {
            Segment::IoRegisters
        } else {
            Segment::ZeroPage
        }
    }

    /// Reads one byte: routed to the owning segment at the in-segment
    /// offset. Only legal on readable addresses; reads against the
    /// unbacked segments are invalid-access faults the caller surfaces.
    pub fn read_byte(&self, address: u16) -> (r: u8)
        requires
            self.wf(),
            spec_readable(address),
        ensures
            r == spec_mem_read(self.contents(), address),
    {
        if address <= BOOT_ROM_LAST {
            self.boot_rom[address as usize]
        } else if address <= CARTRIDGE_ROM_LAST {
            self.cartridge_rom[(address - CARTRIDGE_ROM_FIRST) as usize]
        } else if address <= GRAPHICS_RAM_LAST {
            self.gpu.ram[(address - GRAPHICS_RAM_FIRST) as usize]
        } else if address <= WORKING_RAM_LAST {
            self.memory[(address - WORKING_RAM_FIRST) as usize]
        } else {
            self.gpu.sprite[(address - GRAPHICS_SPRITE_FIRST) as usize]
        }
    }

    /// Writes one byte: routed to the owning segment at the in-segment
    /// offset; every other byte of the bus, and the timing unit's
    /// non-memory state, stays as it was. Only legal on writable
    /// addresses.
    pub fn write_byte(&mut self, address: u16, byte: u8)
        requires
            old(self).wf(),
            spec_writable(address),
        ensures
            final(self).wf(),
            final(self).contents() == spec_mem_write(old(self).contents(), address, byte),
            final(self).gpu_aux() == old(self).gpu_aux(),
    {
        if address <= GRAPHICS_RAM_LAST {
            self.gpu.ram[(address - GRAPHICS_RAM_FIRST) as usize] = byte;
        } else if address <= WORKING_RAM_LAST {
            self.memory[(address - WORKING_RAM_FIRST) as usize] = byte;
        } else {
            self.gpu.sprite[(address - GRAPHICS_SPRITE_FIRST) as usize] = byte;
        }
    }

    /// Writes a 16-bit word: the low byte at `address`, the high byte at
    /// `address + 1`. Both cells must be writable, so a word never
    /// straddles a segment end into illegal territory.
    pub fn write_word(&mut self, address: u16, word: u16)
        requires
            old(self).wf(),
            address < 0xFFFF,
            spec_writable(address),
            spec_writable((address + 1) as u16),
        ensures
            final(self).wf(),
            final(self).contents() == spec_mem_write(
                spec_mem_write(old(self).contents(), address, (word % 256) as u8),
                (address + 1) as u16,
                (word / 256) as u8,
            ),
            final(self).gpu_aux() == old(self).gpu_aux(),
    {
        let lsb: u8 = (word % 256) as u8;
        let msb: u8 = (word / 256) as u8;
        self.write_byte(address, lsb);
        self.write_byte(address + 1, msb);
    }
}

/// Every address belongs to exactly one segment, at one in-segment offset:
/// the routing function is total, and the ranges tile the space. The
/// unusable strip just above sprite-attribute memory is routed with the
/// I/O registers; both are unbacked here, so any access to either faults.
pub proof fn lemma_address_partition(addr: u16)
    ensures
        spec_segment_of(addr) == Segment::BootRom <==> BOOT_ROM_FIRST <= addr <= BOOT_ROM_LAST,
        spec_segment_of(addr) == Segment::CartridgeRom <==> CARTRIDGE_ROM_FIRST <= addr
            <= CARTRIDGE_ROM_LAST,
        spec_segment_of(addr) == Segment::GraphicsRam <==> GRAPHICS_RAM_FIRST <= addr
            <= GRAPHICS_RAM_LAST,
        spec_segment_of(addr) == Segment::CartridgeRam <==> CARTRIDGE_RAM_FIRST <= addr
            <= CARTRIDGE_RAM_LAST,
        spec_segment_of(addr) == Segment::WorkingRam <==> WORKING_RAM_FIRST <= addr
            <= WORKING_RAM_LAST,
        spec_segment_of(addr) == Segment::SpriteRam <==> GRAPHICS_SPRITE_FIRST <= addr
            <= GRAPHICS_SPRITE_LAST,
        spec_segment_of(addr) == Segment::IoRegisters <==> GRAPHICS_SPRITE_LAST < addr <= IO_LAST,
        IO_FIRST <= addr <= IO_LAST ==> spec_segment_of(addr) == Segment::IoRegisters,
        spec_segment_of(addr) == Segment::ZeroPage <==> ZERO_PAGE_FIRST <= addr <= ZERO_PAGE_LAST,
{
}

/// The graphics segment sizes the bus routes into are exactly the store
/// sizes the display timing unit owns.
pub proof fn lemma_gpu_store_sizes()
    ensures
        crate::gpu::RAM_SIZE == GRAPHICS_RAM_LAST - GRAPHICS_RAM_FIRST + 1,
        crate::gpu::SPRITE_SIZE == GRAPHICS_SPRITE_LAST - GRAPHICS_SPRITE_FIRST + 1,
{
}

/// A zero-filled backing store of the given size.
fn zero_store(n: usize) -> (v: Vec<u8>)
    ensures
        v@ == Seq::new(n as nat, |i: int| 0u8),
{
    let mut v: Vec<u8> = Vec::new();
    let mut i: usize = 0;
    while i < n
        invariant
            i <= n,
            v@.len() == i,
            forall|j: int| 0 <= j < i ==> v@[j] == 0u8,
        decreases n - i,
    {
        v.push(0);
        i = i + 1;
    }
    proof {
        assert(v@ =~= Seq::new(n as nat, |i: int| 0u8));
    }
    v
}

} // verus!
