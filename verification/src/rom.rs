//! Decoding of an iNES image into the cartridge description used by the mappers.
use vstd::prelude::*;
use crate::cassette::{
    chr_rom_size, ines_mapper, ines_mirroring, ines_tag, prg_rom_size, prg_rom_start,
};

verus! {

const PRG_ROM_PAGE_SIZE: usize = 16 * 1024;
const CHR_ROM_PAGE_SIZE: usize = 8 * 1024;

#[derive(Debug, Clone, Copy, PartialEq, Eq, Structural)]
#[allow(non_camel_case_types)]
pub enum Mirroring {
    VERTICAL,
    HORIZONTAL,
    FOUR_SCREEN,
    ONE_SCREEN_LOWER,
    ONE_SCREEN_UPPER,
}

/// Cartridge boards, named after their PCB class.
#[derive(Debug, Clone, Copy, PartialEq, Eq, Structural)]
#[allow(non_camel_case_types)]
pub enum RomType {
    NROM,
    BXROM,
    UXROM,
    SNROM,
    SXROM,
    SOROM,
    SUROM,
    CNROM,
    TKROM,
    TLROM,
    TXROM,
    TQROM,
    UNKNOWN,
}

pub struct Rom {
    pub prg_rom: Vec<u8>,
    pub chr_rom: Vec<u8>,
    pub mapper: u8,
    pub mirroring: Mirroring,
    pub is_chr_ram: bool,
    pub is_prg_ram: bool,
    pub rom_type: RomType,
}

/// Mapper number: high nibble from flags 7, low nibble from the high nibble of flags 6.
pub open spec fn rom_mapper(raw: Seq<u8>) -> u8 {
    (raw[7] & 0xF0) | (raw[6] >> 4u8)
}

/// Whether the board carries PRG-RAM (flags 6, bit 1).
pub open spec fn rom_prg_ram(raw: Seq<u8>) -> bool {
    raw[6] & 0x02 != 0
}

/// Four-screen (flags 6, bit 3) wins over the vertical bit (flags 6, bit 0).
pub open spec fn rom_mirroring(raw: Seq<u8>) -> Mirroring {
    if raw[6] & 0x08 != 0 {
        Mirroring::FOUR_SCREEN
    } else if raw[6] & 0x01 != 0 {
        Mirroring::VERTICAL
    } else {
        Mirroring::HORIZONTAL
    }
}

/// The board, guessed from the mapper number, the ROM sizes and the PRG-RAM bit.
pub open spec fn board_of(mapper: u8, prg_size: int, chr_size: int, prg_ram: bool) -> RomType {
    if mapper == 0 {
        RomType::NROM
    } else if mapper == 1 {
        if prg_size >= 512 * 1024 && chr_size == 0 && prg_ram {
            RomType::SUROM
        } else {
            RomType::SNROM
        }
    } else if mapper == 2 {
        if prg_size <= 128 * 1024 && chr_size == 0 && !prg_ram {
            RomType::UXROM
        } else {
            RomType::UNKNOWN
        }
    } else if mapper == 3 {
        if chr_size != 0 && !prg_ram {
            RomType::CNROM
        } else {
            RomType::UNKNOWN
        }
    } else if prg_size >= 256 * 1024 && chr_size >= 128 * 1024 && prg_ram {
        RomType::TKROM
    } else {
        RomType::UNKNOWN
    }
}

/// An image with the iNES tag that `Rom::new` can decode: a known mapper
/// (0 to 4) and room for the trainer, the PRG-ROM and any CHR-ROM.
pub open spec fn rom_decodable(raw: Seq<u8>) -> bool {
    &&& raw.len() >= 16
    &&& rom_mapper(raw) <= 4
    &&& prg_rom_start(raw) + prg_rom_size(raw) <= raw.len()
    &&& chr_rom_size(raw) != 0 ==> prg_rom_start(raw) + prg_rom_size(raw) + chr_rom_size(raw)
        <= raw.len()
}

impl Rom {
    /// Decodes an iNES image.  Without the iNES tag the image is refused.
    pub fn new(raw: &Vec<u8>) -> (r: Result<Rom, String>)
        requires
            raw@.len() >= 4,
            raw@.subrange(0, 4) == ines_tag() ==> rom_decodable(raw@),
        ensures
            raw@.subrange(0, 4) != ines_tag() ==> (r matches Err(e)
                && e@ == "File is not in iNES file format"@),
            raw@.subrange(0, 4) == ines_tag() ==> (r matches Ok(rom) && {
                let start = prg_rom_start(raw@);
                let prg_end = start + prg_rom_size(raw@);
                let chr_size = chr_rom_size(raw@);
                &&& rom.prg_rom@ == raw@.subrange(start, prg_end)
                &&& rom.chr_rom@ == if chr_size == 0 {
                    Seq::new(8192, |i: int| 0u8)
                } else {
                    raw@.subrange(prg_end, prg_end + chr_size)
                }
                &&& rom.mapper == rom_mapper(raw@)
                &&& rom.mirroring == rom_mirroring(raw@)
                &&& rom.is_chr_ram == (chr_size == 0)
                &&& rom.is_prg_ram == rom_prg_ram(raw@)
                &&& rom.rom_type == board_of(
                    rom_mapper(raw@),
                    prg_rom_size(raw@),
                    chr_size,
                    rom_prg_ram(raw@),
                )
            }),
    {
        let _ = Self::mem_blank();

        if !(raw[0] == 0x4E && raw[1] == 0x45 && raw[2] == 0x53 && raw[3] == 0x1A) {
            assert(raw@.subrange(0, 4) != ines_tag()) by {
                if raw@.subrange(0, 4) == ines_tag() {
                    assert(raw@.subrange(0, 4)[0] == raw@[0]);
                    assert(raw@.subrange(0, 4)[1] == raw@[1]);
                    assert(raw@.subrange(0, 4)[2] == raw@[2]);
                    assert(raw@.subrange(0, 4)[3] == raw@[3]);
                }
            }
            return Err("File is not in iNES file format".to_owned());
        }
        assert(raw@.subrange(0, 4) =~= ines_tag());

        let mapper = (raw[7] & 0xF0) | (raw[6] >> 4);

        let four_screen = raw[6] & 0x08 != 0;
        let is_prg_ram: bool = raw[6] & 0x02 != 0;
        let mirroring_type = raw[6] & 0x01 != 0;
        let mirroring = match (four_screen, mirroring_type) {
            (true, _) => Mirroring::FOUR_SCREEN,
            (false, true) => Mirroring::VERTICAL,
            (false, false) => Mirroring::HORIZONTAL,
        };

        let prg_rom_size = raw[4] as usize * PRG_ROM_PAGE_SIZE;
        let chr_rom_size = raw[5] as usize * CHR_ROM_PAGE_SIZE;

        let skip_trainer = raw[6] & 0b100 != 0;

        let prg_rom_start: usize = 16 + if skip_trainer {
            512
        } else {
            0
        };
        let chr_rom_start = prg_rom_start + prg_rom_size;

        let chr_rom = if chr_rom_size == 0 {
            let blank_chr_ram: Vec<u8> = vec![0; CHR_ROM_PAGE_SIZE];
            assert(blank_chr_ram@ =~= Seq::new(8192, |i: int| 0u8));
            blank_chr_ram
        } else {
            vstd::slice::slice_to_vec(&raw.as_slice()[chr_rom_start..(chr_rom_start + chr_rom_size)])
        };

        let rom_type: RomType = if mapper == 0 {
            RomType::NROM
        } else if mapper == 1 {
            if prg_rom_size >= 512 * 1024 && chr_rom_size == 0 && is_prg_ram {
                RomType::SUROM
            } else {
                RomType::SNROM
            }
        } else if mapper == 2 {
            if prg_rom_size <= 128 * 1024 && chr_rom_size == 0 && !is_prg_ram {
                RomType::UXROM
            } else {
                RomType::UNKNOWN
            }
        } else if mapper == 3 {
            if chr_rom_size != 0 && !is_prg_ram {
                RomType::CNROM
            } else {
                RomType::UNKNOWN
            }
        } else if prg_rom_size >= 256 * 1024 && chr_rom_size >= 128 * 1024 && is_prg_ram {
            RomType::TKROM
        } else {
            RomType::UNKNOWN
        };

        Ok(
            Rom {
                prg_rom: vstd::slice::slice_to_vec(
                    &raw.as_slice()[prg_rom_start..(prg_rom_start + prg_rom_size)],
                ),
                chr_rom: chr_rom,
                mapper: mapper,
                mirroring: mirroring,
                is_chr_ram: chr_rom_size == 0,
                is_prg_ram: is_prg_ram,
                rom_type: rom_type,
            },
        )
    }

    /// A cartridge with nothing on it.
    pub fn mem_blank() -> (r: Self)
        ensures
            r.prg_rom@.len() == 0,
            r.chr_rom@.len() == 0,
            r.mapper == 0,
            r.mirroring == Mirroring::VERTICAL,
            !r.is_chr_ram,
            !r.is_prg_ram,
            r.rom_type == RomType::NROM,
    {
        Rom {
            prg_rom: Vec::new(),
            chr_rom: Vec::new(),
            mapper: 0,
            mirroring: Mirroring::VERTICAL,
            is_chr_ram: false,
            is_prg_ram: false,
            rom_type: RomType::NROM,
        }
    }
}

/// The iNES header, field by field: the mapper number is the high nibble of
/// flags 7 followed by the high nibble of flags 6; flags 6 bit 0 asks for
/// vertical mirroring, bit 1 announces PRG-RAM, bit 2 a 512-byte trainer
/// before the PRG-ROM, bit 3 four-screen mirroring (which wins); PRG-ROM
/// comes in 16 KiB units (byte 4) and CHR-ROM in 8 KiB units (byte 5).
pub proof fn law_ines_header_fields(raw: Seq<u8>)
    requires
        raw.len() >= 16,
    ensures
        ({
            let f6 = raw[6] as int;
            let f7 = raw[7] as int;
            let mapper = (f7 / 16) * 16 + f6 / 16;
            let four = f6 / 8 % 2 == 1;
            let vertical = f6 % 2 == 1;
            &&& rom_mapper(raw) == mapper && ines_mapper(raw) == mapper
            &&& rom_prg_ram(raw) == (f6 / 2 % 2 == 1)
            &&& prg_rom_start(raw) == 16 + 512 * (f6 / 4 % 2)
            &&& prg_rom_size(raw) == raw[4] * 16384
            &&& chr_rom_size(raw) == raw[5] * 8192
            &&& (rom_mirroring(raw) is FOUR_SCREEN) == four
            &&& (rom_mirroring(raw) is VERTICAL) == (!four && vertical)
            &&& (rom_mirroring(raw) is HORIZONTAL) == (!four && !vertical)
            &&& (ines_mirroring(raw) is FOUR_SCREEN) == four
            &&& (ines_mirroring(raw) is VERTICAL) == (!four && vertical)
            &&& (ines_mirroring(raw) is HORIZONTAL) == (!four && !vertical)
        }),
{
    let f6 = raw[6];
    let f7 = raw[7];
    assert({
        &&& (f7 & 0xF0) | (f6 >> 4u8) == (f7 / 16) * 16 + f6 / 16
        &&& (f6 >> 4u8) | (f7 & 0xF0) == (f7 / 16) * 16 + f6 / 16
        &&& (f6 & 0x02 != 0) == (f6 / 2 % 2 == 1)
        &&& (f6 & 0x04 != 0) == (f6 / 4 % 2 == 1)
        &&& (f6 & 0x08 != 0) == (f6 / 8 % 2 == 1)
        &&& (f6 & 0x01 != 0) == (f6 % 2 == 1)
    }) by (bit_vector);
}

/// The cartridge loader and the ROM decoder read the same header: for an
/// image long enough to hold one, they find the same mapper number and the
/// same mirroring.
pub proof fn law_header_decoders_agree(raw: Seq<u8>)
    requires
        raw.len() >= 16,
    ensures
        rom_mapper(raw) == ines_mapper(raw),
        (rom_mirroring(raw) is FOUR_SCREEN) == (ines_mirroring(raw) is FOUR_SCREEN),
        (rom_mirroring(raw) is VERTICAL) == (ines_mirroring(raw) is VERTICAL),
        (rom_mirroring(raw) is HORIZONTAL) == (ines_mirroring(raw) is HORIZONTAL),
{
    law_ines_header_fields(raw);
}

} // verus!
