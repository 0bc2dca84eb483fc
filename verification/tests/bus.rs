use rustboy::gpu::GPU;
use rustboy::memory_bus::{MemoryBus, Segment};

fn make_bus() -> MemoryBus {
    MemoryBus::new(vec![0u8; 256], GPU::new())
}

#[test]
fn segment_boundaries_route_exactly() {
    assert_eq!(MemoryBus::segment_of(0x0000), Segment::BootRom);
    assert_eq!(MemoryBus::segment_of(0x00FF), Segment::BootRom);
    assert_eq!(MemoryBus::segment_of(0x0100), Segment::CartridgeRom);
    assert_eq!(MemoryBus::segment_of(0x7FFF), Segment::CartridgeRom);
    assert_eq!(MemoryBus::segment_of(0x8000), Segment::GraphicsRam);
    assert_eq!(MemoryBus::segment_of(0x9FFF), Segment::GraphicsRam);
    assert_eq!(MemoryBus::segment_of(0xA000), Segment::CartridgeRam);
    assert_eq!(MemoryBus::segment_of(0xBFFF), Segment::CartridgeRam);
    assert_eq!(MemoryBus::segment_of(0xC000), Segment::WorkingRam);
    assert_eq!(MemoryBus::segment_of(0xFDFF), Segment::WorkingRam);
    assert_eq!(MemoryBus::segment_of(0xFE00), Segment::SpriteRam);
    assert_eq!(MemoryBus::segment_of(0xFE9F), Segment::SpriteRam);
    assert_eq!(MemoryBus::segment_of(0xFF00), Segment::IoRegisters);
    assert_eq!(MemoryBus::segment_of(0xFF7F), Segment::IoRegisters);
    assert_eq!(MemoryBus::segment_of(0xFF80), Segment::ZeroPage);
    assert_eq!(MemoryBus::segment_of(0xFFFF), Segment::ZeroPage);
}

#[test]
fn access_legality_per_segment() {
    assert!(MemoryBus::is_readable(0x0000) && !MemoryBus::is_writable(0x0000));
    assert!(MemoryBus::is_readable(0x7FFF) && !MemoryBus::is_writable(0x7FFF));
    assert!(MemoryBus::is_readable(0x8000) && MemoryBus::is_writable(0x8000));
    assert!(!MemoryBus::is_readable(0xA000) && !MemoryBus::is_writable(0xA000));
    assert!(!MemoryBus::is_readable(0xBFFF) && !MemoryBus::is_writable(0xBFFF));
    assert!(MemoryBus::is_readable(0xC000) && MemoryBus::is_writable(0xC000));
    assert!(MemoryBus::is_readable(0xFDFF) && MemoryBus::is_writable(0xFDFF));
    assert!(MemoryBus::is_readable(0xFE9F) && MemoryBus::is_writable(0xFE9F));
    assert!(!MemoryBus::is_readable(0xFF00) && !MemoryBus::is_writable(0xFF00));
    assert!(!MemoryBus::is_readable(0xFF80) && !MemoryBus::is_writable(0xFF80));
    assert!(!MemoryBus::is_readable(0xFFFF) && !MemoryBus::is_writable(0xFFFF));
}

#[test]
fn boot_rom_is_copied_verbatim_and_read_at_offset() {
    let mut boot = vec![0u8; 256];
    boot[0] = 0xAA;
    boot[255] = 0xBB;
    let bus = MemoryBus::new(boot, GPU::new());
    assert_eq!(bus.read_byte(0x0000), 0xAA);
    assert_eq!(bus.read_byte(0x00FF), 0xBB);
    assert_eq!(bus.read_byte(0x0100), 0x00);
}

#[test]
fn graphics_writes_land_in_the_timing_units_stores() {
    let mut bus = make_bus();
    bus.write_byte(0x8000, 0x11);
    bus.write_byte(0x9FFF, 0x22);
    bus.write_byte(0xFE00, 0x33);
    bus.write_byte(0xFE9F, 0x44);
    assert_eq!(bus.gpu.ram[0x0000], 0x11);
    assert_eq!(bus.gpu.ram[0x1FFF], 0x22);
    assert_eq!(bus.gpu.sprite[0x00], 0x33);
    assert_eq!(bus.gpu.sprite[0x9F], 0x44);
    assert_eq!(bus.read_byte(0x8000), 0x11);
    assert_eq!(bus.read_byte(0x9FFF), 0x22);
    assert_eq!(bus.read_byte(0xFE00), 0x33);
    assert_eq!(bus.read_byte(0xFE9F), 0x44);
}

#[test]
fn working_ram_boundaries_read_back() {
    let mut bus = make_bus();
    bus.write_byte(0xC000, 0x55);
    bus.write_byte(0xFDFF, 0x66);
    assert_eq!(bus.read_byte(0xC000), 0x55);
    assert_eq!(bus.read_byte(0xFDFF), 0x66);
    assert_eq!(bus.memory[0x0000], 0x55);
    assert_eq!(bus.memory[0x3DFF], 0x66);
}

#[test]
fn write_word_stores_low_byte_first() {
    let mut bus = make_bus();
    bus.write_word(0xC100, 0xBEEF);
    assert_eq!(bus.read_byte(0xC100), 0xEF);
    assert_eq!(bus.read_byte(0xC101), 0xBE);
}
