use nes_emulator::bus::Bus;
use nes_emulator::cassette::{ines_check, Cassette, Mirroring as CassetteMirroring};
use nes_emulator::mapper::MapperMMC;
use nes_emulator::rom::{Mirroring, Rom, RomType};

fn ines(prg_units: u8, chr_units: u8, flags6: u8, flags7: u8) -> Vec<u8> {
    let mut raw = vec![0x4E, 0x45, 0x53, 0x1A, prg_units, chr_units, flags6, flags7];
    raw.resize(16, 0);
    let trainer = if flags6 & 0x04 != 0 { 512 } else { 0 };
    let body = trainer + prg_units as usize * 16384 + chr_units as usize * 8192;
    for i in 0..body {
        raw.push((i % 251) as u8);
    }
    raw
}

#[test]
fn rom_rejects_non_ines() {
    let raw = vec![0u8; 32];
    match Rom::new(&raw) {
        Err(e) => assert_eq!(e, "File is not in iNES file format"),
        Ok(_) => panic!("accepted a non iNES image"),
    }
}

#[test]
fn rom_decodes_nrom() {
    let raw = ines(1, 1, 0x01, 0x00);
    let rom = Rom::new(&raw).unwrap();
    assert_eq!(rom.mapper, 0);
    assert_eq!(rom.mirroring, Mirroring::VERTICAL);
    assert_eq!(rom.prg_rom.len(), 16384);
    assert_eq!(rom.chr_rom.len(), 8192);
    assert_eq!(rom.prg_rom[0], raw[16]);
    assert_eq!(rom.chr_rom[0], raw[16 + 16384]);
    assert!(!rom.is_chr_ram);
    assert_eq!(rom.rom_type, RomType::NROM);
}

#[test]
fn rom_decodes_uxrom_with_chr_ram() {
    let raw = ines(8, 0, 0x20 | 0x08, 0x00);
    let rom = Rom::new(&raw).unwrap();
    assert_eq!(rom.mapper, 2);
    assert_eq!(rom.mirroring, Mirroring::FOUR_SCREEN);
    assert!(rom.is_chr_ram);
    assert_eq!(rom.chr_rom, vec![0u8; 8192]);
    assert_eq!(rom.rom_type, RomType::UXROM);
}

#[test]
fn rom_board_guesses() {
    // MMC1 with 512 KiB PRG, CHR-RAM and PRG-RAM: SUROM
    let rom = Rom::new(&ines(32, 0, 0x10 | 0x02, 0x00)).unwrap();
    assert_eq!(rom.rom_type, RomType::SUROM);
    // MMC1 otherwise: SNROM
    let rom = Rom::new(&ines(2, 1, 0x10, 0x00)).unwrap();
    assert_eq!(rom.rom_type, RomType::SNROM);
    assert_eq!(rom.mirroring, Mirroring::HORIZONTAL);
    // CNROM
    let rom = Rom::new(&ines(2, 2, 0x30, 0x00)).unwrap();
    assert_eq!(rom.rom_type, RomType::CNROM);
    // mapper 3 with PRG-RAM is not recognised
    let rom = Rom::new(&ines(2, 2, 0x30 | 0x02, 0x00)).unwrap();
    assert_eq!(rom.rom_type, RomType::UNKNOWN);
}

#[test]
fn rom_skips_trainer() {
    let raw = ines(1, 1, 0x04, 0x00);
    let rom = Rom::new(&raw).unwrap();
    assert_eq!(rom.prg_rom[0], raw[16 + 512]);
}

#[test]
fn mem_blank_is_empty() {
    let rom = Rom::mem_blank();
    assert!(rom.prg_rom.is_empty());
    assert!(rom.chr_rom.is_empty());
    assert_eq!(rom.rom_type, RomType::NROM);
}

#[test]
fn cassette_loads() {
    let raw = ines(1, 1, 0x09 | 0x40, 0x10);
    let c = Cassette::rom_load(&raw).unwrap();
    assert_eq!(c.mapper, 0x14);
    assert_eq!(c.screen_mirroring, CassetteMirroring::FOUR_SCREEN);
    assert_eq!(c.prg_rom.len(), 16384);
    assert_eq!(c.chr_rom.len(), 8192);
    let empty = Cassette::new();
    assert_eq!(empty.prg_rom.len(), 16384);
    assert_eq!(empty.screen_mirroring, CassetteMirroring::VERTICAL);
}

fn prg_pattern(banks16: usize) -> Vec<u8> {
    let mut v = Vec::new();
    for b in 0..banks16 {
        for i in 0..16384 {
            v.push(if i == 0 { b as u8 } else { 0xEE });
        }
    }
    v
}

#[test]
fn uxrom_bank_switching() {
    let mut m = MapperMMC::new();
    m.mapper = 2;
    m.prg_rom = prg_pattern(4);
    assert_eq!(m.read_prg_rom(0x8000), 0);
    assert_eq!(m.read_prg_rom(0xC000), 3);
    m.write(0x8000, 2);
    assert_eq!(m.read_prg_rom(0x8000), 2);
    assert_eq!(m.read_prg_rom(0xC000), 3);
    m.write(0x6000, 0x77);
    assert_eq!(m.read_prg_rom(0x6000), 0);
}

#[test]
fn cnrom_chr_banks() {
    let mut m = MapperMMC::new();
    m.mapper = 3;
    m.prg_rom = prg_pattern(2);
    let mut chr = vec![0u8; 4 * 8192];
    chr[2 * 8192 + 5] = 0x42;
    m.chr_rom = chr;
    m.write(0x8000, 2);
    assert_eq!(m.read_chr_rom(0x0005), 0x42);
    assert_eq!(m.read_prg_rom(0x8000), 0);
}

#[test]
fn mmc1_serial_writes() {
    let mut m = MapperMMC::new();
    m.mapper = 1;
    m.prg_rom = prg_pattern(8);
    // 32 KiB mode at power-on
    assert_eq!(m.read_prg_rom(0x8000), 0);
    assert_eq!(m.read_prg_rom(0xC000), 6);
    // five writes, lowest bit first, put 0b01100 in R0: 16 KiB banks, last bank fixed
    for bit in [0u8, 0, 1, 1, 0] {
        m.mmc_1_write(0x8000, bit);
    }
    // the same protocol puts 4 in the PRG bank register
    for bit in [0u8, 0, 1, 0, 0] {
        m.mmc_1_write(0xE000, bit);
    }
    assert_eq!(m.read_prg_rom(0x8000), 4);
    assert_eq!(m.read_prg_rom(0xC000), 7);
    // a reset write in between changes no bank
    m.mmc_1_write(0xE000, 0x80);
    assert_eq!(m.read_prg_rom(0x8000), 4);
    // extension RAM
    m.mmc_1_write(0x6001, 0x99);
    assert_eq!(m.read_prg_rom(0x6001), 0x99);
}

#[test]
fn mmc3_registers_and_reads() {
    let mut m = MapperMMC::new();
    m.mapper = 4;
    let mut prg = Vec::new();
    for b in 0..8u8 {
        for i in 0..8192 {
            prg.push(if i == 0 { b } else { 0 });
        }
    }
    m.prg_rom = prg;
    m.chr_rom = vec![0u8; 8 * 1024];
    m.chr_rom[3 * 1024] = 0x5A;
    // R6 = 3, R7 = 5, R2 = 3
    m.mmc_3_write(0x8000, 6);
    m.mmc_3_write(0x8001, 3);
    m.mmc_3_write(0x8000, 7);
    m.mmc_3_write(0x8001, 5);
    m.mmc_3_write(0x8000, 2);
    m.mmc_3_write(0x8001, 3);
    assert_eq!(m.read_prg_rom(0x8000), 3);
    assert_eq!(m.read_prg_rom(0xA000), 5);
    assert_eq!(m.read_prg_rom(0xC000), 6);
    assert_eq!(m.read_prg_rom(0xE000), 7);
    assert_eq!(m.read_chr_rom(0x1000), 0x5A);
    assert_eq!(m.mirror_chr_rom_addr(0x1000), 3 * 1024);
    assert_eq!(m.mirror_chr_rom_addr(0x9000), 0);
    // extension RAM: disabled at power-on, then enabled, then write protected
    m.mmc_3_write(0x6010, 0x11);
    assert_eq!(m.ext_ram[0x10], 0);
    assert_eq!(m.read_prg_rom(0x6010), 0);
    m.mmc_3_write(0xA001, 0x80);
    m.mmc_3_write(0x6010, 0x44);
    assert_eq!(m.read_prg_rom(0x6010), 0x44);
    m.mmc_3_write(0xA001, 0xC0);
    m.mmc_3_write(0x6010, 0x5A);
    assert_eq!(m.read_prg_rom(0x6010), 0x44);
    // CHR A12 inversion puts R0's 2 KiB bank at $1000
    m.write(0x8000, 0x80);
    m.write(0x8001, 0x06);
    assert_eq!(m.mirror_chr_rom_addr(0x1000), 0x1800);
    assert_eq!(m.mirror_chr_rom_addr(0x0000), 3 * 1024);
    // CHR-RAM
    m.mmc_3_write(0x0010, 0x33);
    assert_eq!(m.chr_ram[0x10], 0x33);
}

#[test]
fn mapper_new_defaults() {
    let m = MapperMMC::new();
    assert_eq!(m.chr_ram.len(), 8192);
    assert_eq!(m.ext_ram.len(), 8192);
    assert_eq!(m.mapper, 0);
    assert_eq!(m.rom_type, RomType::NROM);
    assert_eq!(m.mmc_1.rom_type, RomType::SNROM);
    assert_eq!(m.mmc_3.rom_type, RomType::TKROM);
}

#[test]
fn ines_check_matches_loader() {
    assert!(ines_check(&ines(1, 1, 0x00, 0x00)));
    assert!(ines_check(&ines(2, 0, 0x04, 0x00)));
    let mut short = ines(1, 1, 0x00, 0x00);
    short.pop();
    assert!(!ines_check(&short));
    let mut bad_tag = ines(1, 1, 0x00, 0x00);
    bad_tag[3] = 0x00;
    assert!(!ines_check(&bad_tag));
    assert!(!ines_check(&vec![0x4E, 0x45, 0x53, 0x1A]));
}

#[test]
fn prg_rom_is_mapped_and_mirrored() {
    let prg: Vec<u8> = (0..16384).map(|i| (i % 253) as u8).collect();
    let mut bus = Bus::new();
    bus.memory[0x1234] = 7;
    bus.map_prg_rom(&prg);
    assert_eq!(bus.memory[0x8000], prg[0]);
    assert_eq!(bus.memory[0xBFFF], prg[16383]);
    assert_eq!(bus.memory[0xC000], prg[0]);
    assert_eq!(bus.memory[0xFFFC], prg[0x3FFC]);
    assert_eq!(bus.memory[0x1234], 7);
}

#[test]
fn loaders_agree_on_header() {
    let raw = ines(8, 0, 0x21, 0x00);
    let c = Cassette::rom_load(&raw).unwrap();
    let r = Rom::new(&raw).unwrap();
    assert_eq!(c.mapper, 2);
    assert_eq!(r.mapper, c.mapper);
    assert_eq!(c.screen_mirroring, CassetteMirroring::VERTICAL);
    assert_eq!(r.mirroring, Mirroring::VERTICAL);
    assert_eq!(r.prg_rom, c.prg_rom);
}

#[test]
fn mmc1_fifth_write_commits() {
    let mut m = MapperMMC::new();
    m.mapper = 1;
    m.prg_rom = prg_pattern(8);
    // four writes leave R0 alone: still 32 KiB mode
    for bit in [0u8, 0, 1, 1] {
        m.mmc_1_write(0x8000, bit);
    }
    assert_eq!(m.read_prg_rom(0xC000), 6);
    // the fifth write commits 0b01100: 16 KiB banks, last bank fixed
    m.mmc_1_write(0x8000, 0);
    assert_eq!(m.read_prg_rom(0xC000), 7);
    // a reset write empties the shift register
    m.mmc_1_write(0xE000, 1);
    m.mmc_1_write(0xE000, 0x80);
    for bit in [0u8, 0, 1, 0, 0] {
        m.mmc_1_write(0xE000, bit);
    }
    assert_eq!(m.read_prg_rom(0x8000), 4);
}

#[test]
fn mmc3_prg_bank_mode_swaps_8000_and_c000() {
    let mut m = MapperMMC::new();
    m.mapper = 4;
    let mut prg = Vec::new();
    for b in 0..8u8 {
        for i in 0..8192 {
            prg.push(if i == 0 { b } else { 0 });
        }
    }
    m.prg_rom = prg;
    m.chr_rom = vec![0u8; 8 * 1024];
    // bit 6 set: R6 switches $C000, $8000 holds the second-to-last bank
    m.mmc_3_write(0x8000, 0x46);
    m.mmc_3_write(0x8001, 3);
    assert_eq!(m.read_prg_rom(0x8000), 6);
    assert_eq!(m.read_prg_rom(0xC000), 3);
    assert_eq!(m.read_prg_rom(0xE000), 7);
    // bit 6 clear: back to R6 at $8000
    m.mmc_3_write(0x8000, 0x06);
    assert_eq!(m.read_prg_rom(0x8000), 3);
    assert_eq!(m.read_prg_rom(0xC000), 6);
}

#[test]
fn load_rom_puts_the_cartridge_in() {
    // mapper 1 (flags 6 high nibble), two PRG units, no CHR-ROM
    let raw = ines(2, 0, 0x10, 0x00);
    let rom = Rom::new(&raw).unwrap();
    let mut m = MapperMMC::new();
    m.ext_ram[5] = 0x77;
    m.load_rom(&rom);
    assert_eq!(m.mapper, 1);
    assert_eq!(m.prg_rom, rom.prg_rom);
    assert_eq!(m.chr_rom, rom.chr_rom);
    assert_eq!(m.is_chr_ram, rom.is_chr_ram);
    assert_eq!(m.is_prg_ram, rom.is_prg_ram);
    assert_eq!(m.rom_type, rom.rom_type);
    assert_eq!(m.mmc_1.rom_type, rom.rom_type);
    assert_eq!(m.ext_ram[5], 0x77);
    assert_eq!(m.read_prg_rom(0x8000), rom.prg_rom[0]);
}
