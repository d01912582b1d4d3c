//! A cartridge image in iNES format, as the memory map sees it.
use vstd::prelude::*;

verus! {

#[derive(Debug, Clone, Copy, PartialEq, Eq, Structural)]
#[allow(non_camel_case_types)]
pub enum Mirroring {
    VERTICAL,
    HORIZONTAL,
    FOUR_SCREEN,
}

/// "NES" followed by MS-DOS end of file.
pub const NES_ASCII: [u8; 4] = [0x4E, 0x45, 0x53, 0x1A];
pub const PRG_ROM_MIN_SIZE: usize = 16 * 1024;
pub const CHR_RAM_MIN_SIZE: usize = 16 * 1024;
pub const CHR_ROM_MIN_SIZE: usize = 8 * 1024;

#[derive(Clone)]
pub struct Cassette {
    pub chr_rom: Vec<u8>,
    pub prg_rom: Vec<u8>,
    pub mapper: u8,
    pub screen_mirroring: Mirroring,
}

/// The four bytes that open an iNES image.
pub open spec fn ines_tag() -> Seq<u8> {
    seq![0x4Eu8, 0x45u8, 0x53u8, 0x1Au8]
}

/// Whether a 512-byte trainer precedes the PRG-ROM (flags 6, bit 2).
pub open spec fn has_trainer(raw: Seq<u8>) -> bool {
    raw[6] & 0x04 != 0
}

/// Offset of the PRG-ROM in the image.
pub open spec fn prg_rom_start(raw: Seq<u8>) -> int {
    16 + if has_trainer(raw) {
        512int
    } else {
        0int
    }
}

/// PRG-ROM size: header byte 4 counts 16 KiB units.
pub open spec fn prg_rom_size(raw: Seq<u8>) -> int {
    raw[4] as int * 16384
}

/// CHR-ROM size: header byte 5 counts 8 KiB units.
pub open spec fn chr_rom_size(raw: Seq<u8>) -> int {
    raw[5] as int * 8192
}

/// Mapper number: low nibble from the high nibble of flags 6, high nibble from flags 7.
pub open spec fn ines_mapper(raw: Seq<u8>) -> u8 {
    (raw[6] >> 4u8) | (raw[7] & 0xF0)
}

/// Four-screen (flags 6, bit 3) wins over the vertical bit (flags 6, bit 0).
pub open spec fn ines_mirroring(raw: Seq<u8>) -> Mirroring {
    if raw[6] & 0x08 != 0 {
        Mirroring::FOUR_SCREEN
    } else if raw[6] & 0x01 != 0 {
        Mirroring::VERTICAL
    } else {
        Mirroring::HORIZONTAL
    }
}

/// An image that `rom_load` accepts: the iNES tag, and room for the trainer,
/// the PRG-ROM and the CHR-ROM that the header announces.
pub open spec fn ines_loadable(raw: Seq<u8>) -> bool {
    &&& raw.len() >= 16
    &&& raw.subrange(0, 4) == ines_tag()
    &&& prg_rom_start(raw) + prg_rom_size(raw) + chr_rom_size(raw) <= raw.len()
}

/// Whether `rom_load` accepts the image `raw`.
pub fn ines_check(raw: &Vec<u8>) -> (r: bool)
    ensures
        r == ines_loadable(raw@),
{
    if raw.len() < 16 {
        return false;
    }
    if raw[0] != NES_ASCII[0] || raw[1] != NES_ASCII[1] || raw[2] != NES_ASCII[2] || raw[3]
        != NES_ASCII[3] {
        assert(raw@.subrange(0, 4) != ines_tag()) by {
            let t = raw@.subrange(0, 4);
            assert(t[0] == raw@[0] && t[1] == raw@[1] && t[2] == raw@[2] && t[3] == raw@[3]);
        }
        return false;
    }
    assert(raw@.subrange(0, 4) =~= ines_tag());
    let start: usize = if raw[6] & 0x04 != 0 {
        16 + 512
    } else {
        16
    };
    let prg: u64 = raw[4] as u64 * 16384;
    let chr: u64 = raw[5] as u64 * 8192;
    let needed: u64 = start as u64 + prg + chr;
    needed <= raw.len() as u64
}

impl Cassette {
    /// An empty cartridge: 8 KiB of CHR and 16 KiB of PRG, all zero.
    pub fn new() -> (r: Self)
        ensures
            r.chr_rom@ == Seq::new(CHR_ROM_MIN_SIZE as nat, |i: int| 0u8),
            r.prg_rom@ == Seq::new(PRG_ROM_MIN_SIZE as nat, |i: int| 0u8),
            r.mapper == 0,
            r.screen_mirroring == Mirroring::VERTICAL,
    {
        let r = Cassette {
            chr_rom: vec![0; CHR_ROM_MIN_SIZE],
            prg_rom: vec![0; PRG_ROM_MIN_SIZE],
            mapper: 0,
            screen_mirroring: Mirroring::VERTICAL,
        };
        assert(r.chr_rom@ =~= Seq::new(CHR_ROM_MIN_SIZE as nat, |i: int| 0u8));
        assert(r.prg_rom@ =~= Seq::new(PRG_ROM_MIN_SIZE as nat, |i: int| 0u8));
        r
    }

    /// Splits an iNES image into its PRG-ROM and CHR-ROM and decodes the
    /// mapper number and the mirroring from the header.
    pub fn rom_load(raw: &Vec<u8>) -> (r: Result<Cassette, String>)
        requires
            ines_loadable(raw@),
        ensures
            r matches Ok(c) && {
                let start = prg_rom_start(raw@);
                let prg_end = start + prg_rom_size(raw@);
                &&& c.prg_rom@ == raw@.subrange(start, prg_end)
                &&& c.chr_rom@ == raw@.subrange(prg_end, prg_end + chr_rom_size(raw@))
                &&& c.mapper == ines_mapper(raw@)
                &&& c.screen_mirroring == ines_mirroring(raw@)
            },
    {
        let prg_rom_size = raw[4] as usize * PRG_ROM_MIN_SIZE;
        let chr_rom_size = raw[5] as usize * CHR_ROM_MIN_SIZE;

        let mapper = (raw[6] >> 4) | (raw[7] & 0xF0);
        let four_screen_mirroring = raw[6] & 0b1000 != 0;
        let vertical_mirroring = raw[6] & 0b1 != 0;
        let screen_mirroring = match (four_screen_mirroring, vertical_mirroring) {
            (true, _) => Mirroring::FOUR_SCREEN,
            (false, true) => Mirroring::VERTICAL,
            (false, false) => Mirroring::HORIZONTAL,
        };

        let skip_trainer = raw[6] & 0b100 != 0;
        let prg_rom_start: usize = 16 + if skip_trainer {
            512
        } else {
            0
        };
        let chr_rom_start = prg_rom_start + prg_rom_size;

        let prg_rom = vstd::slice::slice_to_vec(
            &raw.as_slice()[prg_rom_start..(prg_rom_start + prg_rom_size)],
        );
        let chr_rom = vstd::slice::slice_to_vec(
            &raw.as_slice()[chr_rom_start..(chr_rom_start + chr_rom_size)],
        );
        Ok(
            Cassette {
                chr_rom: chr_rom,
                prg_rom: prg_rom,
                mapper: mapper,
                screen_mirroring: screen_mirroring,
            },
        )
    }
}

} // verus!
