//! Properties of the mappers that relate writes to later reads and describe
//! the register protocols.
use vstd::prelude::*;
use crate::common::lemma_byte_fields;
use crate::rom::{Mirroring, RomType};
use crate::mapper::{
    mapper1_control_next, mapper1_read, mapper1_serial_next, mapper4_read, mapper4_register_next,
    chr_read, mapper_write_next, mapper4_chr_index, mapper4_prg_index, mapper4_prg_swapped, mmc2_read, prg_read, Mapper1State, Mapper4State, MapperState,
};

verus! {


/// A serial write with bit 7 set resets the MMC1 shift register and its
/// count and touches no control register.
pub proof fn law_mmc1_reset_write(m: Mapper1State, addr: u16, data: u8, rom_type: RomType)
    requires
        data & 0x80 != 0,
    ensures
        mapper1_serial_next(m, addr, data, rom_type) == (Mapper1State {
            sp_reg: 0,
            shift_reg: 0x10,
            shift: 0,
            ..m
        }),
{
}

/// Before the fifth bit a serial write only shifts: bit 0 of the data enters
/// at bit 4, the count grows by one and the control registers are kept.
pub proof fn law_mmc1_shift_write(m: Mapper1State, addr: u16, data: u8, rom_type: RomType)
    requires
        data & 0x80 == 0,
        m.shift < 4,
    ensures
        mapper1_serial_next(m, addr, data, rom_type) == (Mapper1State {
            sp_reg: data & 0x81,
            shift_reg: ((data & 0x01) << 4u8) | (m.shift_reg >> 1u8),
            shift: (m.shift + 1) as u8,
            ..m
        }),
{
    lemma_byte_fields(data);
}

/// Five serial writes from an empty shift register hand the five data bits,
/// the first write's bit lowest, to the control register at `addr`, and
/// leave the shift register empty for the next transfer.
pub proof fn law_mmc1_five_writes(
    m: Mapper1State,
    addr: u16,
    d0: u8,
    d1: u8,
    d2: u8,
    d3: u8,
    d4: u8,
    rom_type: RomType,
)
    requires
        m.shift == 0,
        m.shift_reg == 0x10,
        d0 & 0x80 == 0,
        d1 & 0x80 == 0,
        d2 & 0x80 == 0,
        d3 & 0x80 == 0,
        d4 & 0x80 == 0,
    ensures
        ({
            let m1 = mapper1_serial_next(m, addr, d0, rom_type);
            let m2 = mapper1_serial_next(m1, addr, d1, rom_type);
            let m3 = mapper1_serial_next(m2, addr, d2, rom_type);
            let m4 = mapper1_serial_next(m3, addr, d3, rom_type);
            let v = (d0 & 1) | ((d1 & 1) << 1u8) | ((d2 & 1) << 2u8) | ((d3 & 1) << 3u8) | ((d4
                & 1) << 4u8);
            mapper1_serial_next(m4, addr, d4, rom_type) == (Mapper1State {
                sp_reg: d4 & 0x81,
                shift_reg: 0x10,
                shift: 0,
                ..mapper1_control_next(m, addr, v, rom_type)
            })
        }),
{
    law_mmc1_shift_write(m, addr, d0, rom_type);
    let m1 = mapper1_serial_next(m, addr, d0, rom_type);
    law_mmc1_shift_write(m1, addr, d1, rom_type);
    let m2 = mapper1_serial_next(m1, addr, d1, rom_type);
    law_mmc1_shift_write(m2, addr, d2, rom_type);
    let m3 = mapper1_serial_next(m2, addr, d2, rom_type);
    law_mmc1_shift_write(m3, addr, d3, rom_type);
    let m4 = mapper1_serial_next(m3, addr, d3, rom_type);
    let s4 = m4.shift_reg;
    lemma_byte_fields(d4);
    assert(((d4 & 1) << 4u8) | (s4 >> 1u8) == (d0 & 1) | ((d1 & 1) << 1u8) | ((d2 & 1) << 2u8)
        | ((d3 & 1) << 3u8) | ((d4 & 1) << 4u8)) by (bit_vector)
        requires
            s4 == ((d3 & 1) << 4u8) | ((((d2 & 1) << 4u8) | ((((d1 & 1) << 4u8) | ((((d0 & 1)
                << 4u8) | (0x10u8 >> 1u8)) >> 1u8)) >> 1u8)) >> 1u8),
    ;
}

/// Writing the bank select register and then the bank data register sets the
/// selected bank register R0-R7 and no other.
pub proof fn law_mmc3_bank_select_then_data(m: Mapper4State, sel: u8, val: u8, other: int)
    requires
        m.bank_data_reg.len() == 8,
        0 <= other < 8,
        other != (sel & 0x07) as int,
    ensures
        ({
            let t = mapper4_register_next(mapper4_register_next(m, 0x8000, sel), 0x8001, val);
            &&& t.bank_data_reg[(sel & 0x07) as int] == val
            &&& t.bank_data_reg[other] == m.bank_data_reg[other]
        }),
{
    lemma_byte_fields(sel);
}

/// On UxROM and NROM boards the last byte written selects the 16 KiB bank seen at $8000.
pub proof fn law_uxrom_bank_switch(st: MapperState, addr: u16, data: u8, read_addr: u16)
    requires
        st.mapper == 0 || st.mapper == 2,
        0x8000 <= read_addr <= 0xBFFF,
    ensures
        prg_read(mapper_write_next(st, addr, data), read_addr) == st.prg_rom[read_addr - 0x8000
            + 0x4000 * (data & 0x0F)],
{
}

/// Extension RAM on an MMC1 board reads back what was written.
pub proof fn law_mmc1_ext_ram_write_read(st: MapperState, addr: u16, data: u8)
    requires
        st.mapper == 1,
        0x6000 <= addr <= 0x7FFF,
        addr - 0x6000 < st.ext_ram.len(),
    ensures
        mapper1_read(mapper_write_next(st, addr, data), addr) == data,
{
}

/// Extension RAM on an MMC3 board reads back what was written while the
/// PRG-RAM is enabled and not write protected; while it is write protected
/// a write leaves it as it was.
pub proof fn law_mmc3_ext_ram_write_read(st: MapperState, addr: u16, data: u8)
    requires
        st.mapper == 4,
        0x6000 <= addr <= 0x7FFF,
        addr - 0x6000 < st.ext_ram.len(),
    ensures
        st.mmc3.prg_ram_cs && !st.mmc3.prg_ram_wp ==> mapper4_read(
            mapper_write_next(st, addr, data),
            addr,
        ) == data,
        st.mmc3.prg_ram_wp ==> mapper_write_next(st, addr, data) == st,
{
}

/// Writing the PRG-RAM protect register sets the chip enable from bit 7 and
/// the write protection from bit 6 of the value written.
pub proof fn law_mmc3_prg_ram_protect(m: Mapper4State, addr: u16, val: u8)
    requires
        0xA000 <= addr <= 0xBFFF,
        addr % 2 == 1,
    ensures
        mapper4_register_next(m, addr, val).prg_ram_cs == (val & 0x80 != 0),
        mapper4_register_next(m, addr, val).prg_ram_wp == (val & 0x40 != 0),
{
}

/// The last 16 KiB of PRG-ROM are always visible at $C000 on UxROM boards.
pub proof fn law_uxrom_fixed_last_bank(st: MapperState, addr: u16)
    requires
        0xC000 <= addr,
    ensures
        mmc2_read(st, addr) == st.prg_rom[addr - 0xC000 + 0x4000 * (st.prg_rom.len() as int
            / 0x4000 - 1)],
{
}

/// With CHR A12 inversion the 2 KiB bank of R0 is seen at PPU $1000-$17FF.
pub proof fn law_mmc3_chr_inversion(st: MapperState, addr: int)
    requires
        st.mmc3.chr_a12_inv_mode.0 == 1,
        0x1000 <= addr <= 0x17FF,
    ensures
        mapper4_chr_index(st, addr) == addr - 0x1000 + (st.mmc3.bank_data_reg[0] & 0xFE) * 1024,
{
}

/// Writing the bank select register with bit 7 set turns CHR A12 inversion on.
pub proof fn law_mmc3_bank_select_inversion(m: Mapper4State, val: u8)
    requires
        val & 0x80 != 0,
    ensures
        mapper4_register_next(m, 0x8000, val).chr_a12_inv_mode.0 == 1,
{
    lemma_byte_fields(val);
}

/// Bit 6 of a bank select write sets the PRG bank mode: when set, R6's bank
/// is seen at $C000-$DFFF and the second-to-last bank at $8000-$9FFF; when
/// clear, R6's bank is at $8000 and the second-to-last bank at $C000.
pub proof fn law_mmc3_prg_bank_mode(st: MapperState, val: u8, offset: u16)
    requires
        offset < 0x2000,
    ensures
        ({
            let t = MapperState { mmc3: mapper4_register_next(st.mmc3, 0x8000, val), ..st };
            let second_last = (st.prg_rom.len() as int / 0x2000 - 2) * 0x2000;
            let r6 = st.mmc3.bank_data_reg[6] as int * 0x2000;
            &&& mapper4_prg_swapped(t.mmc3) == (val & 0x40 != 0)
            &&& mapper4_prg_index(t, (0x8000 + offset) as u16) == offset + if val & 0x40 != 0 {
                second_last
            } else {
                r6
            }
            &&& mapper4_prg_index(t, (0xC000 + offset) as u16) == offset + if val & 0x40 != 0 {
                r6
            } else {
                second_last
            }
        }),
{
    lemma_byte_fields(val);
}

/// The CHR banks of the MMC3. Without A12 inversion, $0000-$0FFF holds the
/// two 2 KiB banks of R0 and R1 (low bit ignored) and $1000-$1FFF the four
/// 1 KiB banks of R2 to R5; with inversion the two halves trade places.
pub proof fn law_mmc3_chr_banks(st: MapperState, addr: int)
    requires
        0 <= addr < 0x2000,
    ensures
        ({
            let r = st.mmc3.bank_data_reg;
            let a = if st.mmc3.chr_a12_inv_mode.0 != 1 {
                addr
            } else if addr < 0x1000 {
                addr + 0x1000
            } else {
                addr - 0x1000
            };
            mapper4_chr_index(st, addr) == if a < 0x1000 {
                (r[a / 0x800] & 0xFE) as int * 1024 + a % 0x800
            } else {
                r[2 + (a - 0x1000) / 0x400] as int * 1024 + a % 0x400
            }
        }),
{
}

/// The MMC1 control registers, as transferred through the serial port (only
/// the low five bits count): R0 ($8000-$9FFF) gives the mirroring from bit
/// 1 (one-screen upper when set), the PRG mode from bits 3-2 (3: 16 KiB
/// switchable at $8000 with the last bank fixed at $C000; 2: 16 KiB
/// switchable at $C000; 0 and 1: 32 KiB) and the CHR mode from bit 4 (4 KiB
/// banks when set); R3 ($E000-$FFFF) gives the PRG bank from bits 3-0 (kept
/// in 32 KiB mode) and the PRG-RAM enable bit from bit 4.
pub proof fn law_mmc1_control_registers(m: Mapper1State, addr: u16, val: u8, rom_type: RomType)
    ensures
        ({
            let v = val as int % 32;
            let t = mapper1_control_next(m, addr, val, rom_type);
            &&& addr <= 0x9FFF ==> {
                &&& t.mirror == if v / 2 % 2 == 1 {
                    Mirroring::ONE_SCREEN_UPPER
                } else {
                    Mirroring::ONE_SCREEN_LOWER
                }
                &&& t.prg_bank_mode == if v / 4 % 4 == 3 {
                    (0x4000u16, 0xC000u16, 2u8)
                } else if v / 4 % 4 == 2 {
                    (0x4000u16, 0x8000u16, 1u8)
                } else {
                    (0x8000u16, 0x8000u16, 0u8)
                }
                &&& t.chr_bank_mode == if v / 16 % 2 == 1 { 0x1000u16 } else { 0x2000u16 }
            }
            &&& addr > 0xDFFF ==> {
                &&& t.prg_ram_enable == v / 16 % 2
                &&& t.prg_bank == if m.prg_bank_mode != (0x8000u16, 0x8000u16, 0u8) {
                    v % 16
                } else {
                    m.prg_bank as int
                }
            }
        }),
{
    assert({
        &&& (val & 0x1F) & 0x0F == val % 32 % 16
        &&& ((val & 0x1F) & 0x10) >> 4u8 == val % 32 / 16 % 2
        &&& ((val & 0x1F) & 0x0C) >> 2u8 == val % 32 / 4 % 4
        &&& ((val & 0x1F) & 0x03) >> 1u8 == val % 32 / 2 % 2
    }) by (bit_vector);
}

/// In the 16 KiB mode with the last bank fixed, an MMC1 read at $8000-$BFFF
/// comes from the selected 16 KiB bank and a read at $C000-$FFFF from the
/// last 16 KiB of PRG-ROM.
pub proof fn law_mmc1_prg_banks(st: MapperState, offset: int)
    requires
        st.mmc1.prg_bank_mode == (0x4000u16, 0xC000u16, 2u8),
        0 <= offset < 0x4000,
    ensures
        mapper1_read(st, (0x8000 + offset) as u16) == st.prg_rom[offset + 0x4000
            * st.mmc1.prg_bank],
        mapper1_read(st, (0xC000 + offset) as u16) == st.prg_rom[offset + 0x4000 * (
        st.prg_rom.len() / 0x4000 - 1)],
{
}

/// On a CNROM board the byte written selects the 8 KiB CHR bank by its low
/// four bits; PRG-ROM is not banked.
pub proof fn law_cnrom_bank_switch(st: MapperState, addr: u16, data: u8, ppu_addr: u16, cpu_addr: u16)
    requires
        st.mapper == 3,
        ppu_addr <= 0x1FFF,
        cpu_addr >= 0x8000,
    ensures
        chr_read(mapper_write_next(st, addr, data), ppu_addr) == st.chr_rom[ppu_addr + 0x2000 * (
        data as int % 16)],
        prg_read(mapper_write_next(st, addr, data), cpu_addr) == st.prg_rom[cpu_addr - 0x8000],
{
    lemma_byte_fields(data);
}

/// The MMC3 mirroring register ($A000, even addresses) selects horizontal
/// mirroring when bit 0 of the value is set and vertical mirroring when it
/// is clear.
pub proof fn law_mmc3_mirroring(m: Mapper4State, addr: u16, val: u8)
    requires
        0xA000 <= addr <= 0xBFFF,
        addr % 2 == 0,
    ensures
        mapper4_register_next(m, addr, val).mirror == if val % 2 == 1 {
            Mirroring::HORIZONTAL
        } else {
            Mirroring::VERTICAL
        },
{
    lemma_byte_fields(val);
}

} // verus!
