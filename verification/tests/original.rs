use nes_emulator::apu::{APUReg, APU_REG_READ, APU_REG_WRITE};
use nes_emulator::mem::Memory;
use nes_emulator::ppu::{PPU, PPU_REG_READ, PPU_REG_WRITE};

#[test]
fn apu_test() {}

#[test]
fn apu_write_then_read() {
    let mut apu = APUReg::new();
    assert_eq!(apu.apu_reg_ctrl(0x4000, APU_REG_READ, 0), 0);
    assert_eq!(apu.apu_reg_ctrl(0x4000, APU_REG_WRITE, 0x3F), 0);
    assert_eq!(apu.apu_reg_ctrl(0x4000, APU_REG_READ, 0), 0x3F);
}

#[test]
fn main_test_ptr_from_vec() {
    let my_vec: Vec<u8> = vec![1, 2, 3, 4, 5];
    let first: &u8 = my_vec.first().unwrap();
    let value: u8 = *first;
    assert_eq!(value, 1);
}

#[test]
fn test_ptr_print() {
    let my_vec: Vec<u8> = vec![1, 2, 3, 4, 5];
    let slice: &[u8] = my_vec.as_slice();
    for i in 0..my_vec.len() {
        let value: u8 = slice[i];
        println!("Value at index {}: {}", i, value);
    }
}

#[test]
fn mapper_test_ptr_from_vec() {
    let my_vec: Vec<u8> = vec![1, 2, 3, 4, 5];
    let first: &u8 = my_vec.first().unwrap();
    let value: u8 = *first;
    assert_eq!(value, 1);
}

#[test]
fn test_ptr() {
    let my_vec: Vec<u8> = vec![1, 2, 3, 4, 5];
    let slice: &[u8] = my_vec.as_slice();
    for i in 0..my_vec.len() {
        let value: u8 = slice[i];
        println!("Value at index {}: {}", i, value);
    }
}

#[test]
fn mem_test() {}

#[test]
fn wram_write_is_mirrored() {
    let mut mem = Memory::new();
    mem.mem_write(0x0012, 0xAB);
    assert_eq!(mem.mem_read(0x0012), 0xAB);
    assert_eq!(mem.mem_read(0x0812), 0xAB);
    assert_eq!(mem.mem_read(0x1812), 0xAB);
}

#[test]
fn ppu_test() {}

#[test]
fn ppu_address_then_data() {
    let mut ppu = PPU::new();
    // PPUADDR takes the high byte, then the low byte.
    ppu.ppu_reg_ctrl(0x2006, PPU_REG_WRITE, 0x21);
    ppu.ppu_reg_ctrl(0x2006, PPU_REG_WRITE, 0x08);
    assert_eq!(ppu.vram_addr, 0x2108);
    ppu.ppu_reg_ctrl(0x2007, PPU_REG_WRITE, 0x5A);
    assert_eq!(ppu.vram[0x108], 0x5A);
    assert_eq!(ppu.vram_addr, 0x2109);
    assert_eq!(ppu.ppu_reg_ctrl(0x2006, PPU_REG_READ, 0), 0x09);
}
