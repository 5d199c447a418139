use nes_core::bus::Bus;
use nes_core::cartridge::{Mirroring, Rom};
use nes_core::cpu::{Mem, CPU};

fn test_rom() -> Rom {
    Rom {
        prg_rom: vec![0; 0x8000],
        chr_rom: vec![0; 0x2000],
        screen_mirroring: Mirroring::HORIZONTAL,
    }
}

#[test]
fn test_0xa9_lda_immediate_load_data() {
    let bus = Bus::new(test_rom());
    let mut cpu = CPU::new(bus);
    cpu.load_and_run(&vec![0xa9, 0x05, 0x00]);
    assert_eq!(cpu.register_a, 5);
    assert!(cpu.status & 0b0000_0010 == 0b00);
    assert!(cpu.status & 0b1000_0000 == 0);
}

#[test]
fn test_0xaa_tax_move_a_to_x() {
    let bus = Bus::new(test_rom());
    let mut cpu = CPU::new(bus);
    cpu.register_a = 10;
    cpu.load_and_run(&vec![0xa9, 0x0A, 0xaa, 0x00]);
    assert_eq!(cpu.register_x, 10)
}

#[test]
fn test_5_ops_working_together() {
    let bus = Bus::new(test_rom());
    let mut cpu = CPU::new(bus);
    cpu.load_and_run(&vec![0xa9, 0xc0, 0xaa, 0xe8, 0x00]);
    assert_eq!(cpu.register_x, 0xc1)
}

#[test]
fn test_inx_overflow() {
    let bus = Bus::new(test_rom());
    let mut cpu = CPU::new(bus);
    cpu.register_x = 0xff;
    cpu.load_and_run(&vec![0xe8, 0xe8, 0x00]);
    assert_eq!(cpu.register_x, 2)
}

#[test]
fn test_lda_from_memory() {
    let bus = Bus::new(test_rom());
    let mut cpu = CPU::new(bus);
    cpu.mem_write(0x10, 0x55);
    cpu.load_and_run(&vec![0xa5, 0x10, 0x00]);
    assert_eq!(cpu.register_a, 0x55);
}

#[test]
fn test_inx_wraps_after_lda_ff() {
    let bus = Bus::new(test_rom());
    let mut cpu = CPU::new(bus);
    cpu.load_and_run(&vec![0xa9, 0xff, 0xaa, 0xe8, 0xe8, 0x00]);
    assert_eq!(cpu.register_x, 1)
}
