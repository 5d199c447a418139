use nes_core::bus::Bus;
use nes_core::cartridge::{Mirroring, Rom};
use nes_core::cpu::Mem;

fn test_rom() -> Rom {
    Rom {
        prg_rom: vec![0; 0x8000],
        chr_rom: vec![0; 0x2000],
        screen_mirroring: Mirroring::HORIZONTAL,
    }
}

#[test]
fn test_mem_read_write_to_ram() {
    let mut bus = Bus::new(test_rom());
    bus.mem_write(0x01, 0x55);
    assert_eq!(bus.mem_read(0x01), 0x55);
}

#[test]
fn test_ram_mirrors() {
    let mut bus = Bus::new(test_rom());
    bus.mem_write(0x0000, 0x42);
    assert_eq!(bus.mem_read(0x0800), 0x42);
    assert_eq!(bus.mem_read(0x1000), 0x42);
    assert_eq!(bus.mem_read(0x1800), 0x42);
}
