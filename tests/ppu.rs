use rens::bus::Bus;
use rens::mapper::{Mapper, Mapper0, Mapper000};
use rens::memory::{Memory, MemoryError};
use rens::ppu::{PaletteData, PpuMemory};

#[test]
fn palette_channels() {
    let c = PaletteData::from_rgba([0x12, 0x34, 0x56, 0x78]);
    assert_eq!(c.data(), 0x1234_5678);
    assert_eq!((c.r(), c.g(), c.b(), c.a()), (0x12, 0x34, 0x56, 0x78));
    assert_eq!(PaletteData::new(7).data(), 7);
    assert_eq!(PaletteData::from(9u32).data(), 9);
}

#[test]
fn ppu_memory_mirrors() {
    let mut m = PpuMemory::new();
    m.write(0x3000, 0x11).unwrap();
    assert_eq!(m.read(0x3000), Ok(0x11));
    m.write(0x3F30, 0x22).unwrap();
    assert_eq!(m.read(0x7F30), Ok(0x22));
    m.write(0x3F30, 0x33).unwrap();
    assert_eq!(m.read(0x3F30), Ok(0x33));
    assert_eq!(m.read(0x0010), Err(MemoryError::AddressOutOfRange(0x0010)));
}

#[test]
fn system_bus_falls_back_to_cartridge() {
    let mut chr = vec![0u8; 0x2000];
    chr[0x10] = 0x5A;
    let mut bus = Bus::new(Mapper000::new(vec![0; 0x4000], chr));
    assert_eq!(bus.ppu_read(0x0010), Ok(0x5A));
    bus.ppu_write(0x3001, 0x44).unwrap();
    assert_eq!(bus.ppu_read(0x3001), Ok(0x44));
    bus.ppu_write_word(0x0020, 0xBEEF).unwrap();
    assert_eq!(bus.ppu_read_word(0x0020), Ok(0xBEEF));
    bus.cpu_write(0x6000, 0x99).unwrap();
    assert_eq!(bus.cpu_read(0x6000), Ok(0x99));
    bus.registers_mut().sp = 0xFF;
    bus.stack_push_word(0x1234).unwrap();
    assert_eq!(bus.stack_pop_word(), Ok(0x1234));
    let regs = bus.ppu_register();
    assert_eq!((regs.ppu_ctrl(), regs.ppu_mask(), regs.ppu_status()), (0, 0, 0));
}

#[test]
fn nrom_layout() {
    let mut prg = vec![0u8; 0x4000];
    prg[0x0123] = 0xA5;
    let mut m = Mapper000::new(prg, vec![0; 0x10]);
    assert_eq!(m.read(0x8123), Ok(0xA5));
    assert_eq!(m.read(0xC123), Ok(0xA5));
    assert_eq!(m.read(0x0020), Err(MemoryError::ReadMemory(0x0020)));
    assert_eq!(m.write(0x0020, 1), Err(MemoryError::WriteMemory(0x0020)));
    assert_eq!(m.read(0x4020), Err(MemoryError::AddressOutOfRange(0x4020)));
    m.write(0xC000, 0x42).unwrap();
    assert_eq!(m.read(0x8000), Ok(0x42));
    m.write(0x7FFF, 0x24).unwrap();
    assert_eq!(m.read(0x7FFF), Ok(0x24));
    let big = Mapper0::new(vec![1; 0x8000], vec![]);
    assert_eq!(big.read_word(0xFFFE), Ok(0x0101));
    assert_eq!(big.number(), 0);
}
