//! Constants shared by the modules of the emulator.
use vstd::prelude::*;

verus! {

pub const _BIT_0: u8 = 0x01;
pub const _BIT_1: u8 = 0x02;
pub const _BIT_2: u8 = 0x04;
pub const _BIT_3: u8 = 0x08;
pub const _BIT_4: u8 = 0x10;
pub const _BIT_5: u8 = 0x20;
pub const _BIT_6: u8 = 0x40;
pub const _BIT_7: u8 = 0x80;
pub const _BIT_8: u16 = 0x0100;
pub const _BIT_9: u16 = 0x0200;
pub const _BIT_10: u16 = 0x0400;
pub const _BIT_11: u16 = 0x0800;
pub const _BIT_12: u16 = 0x1000;
pub const _BIT_13: u16 = 0x2000;
pub const _BIT_14: u16 = 0x4000;
pub const _BIT_15: u16 = 0x8000;
pub const _BIT_16: u32 = 0x0001_0000;
pub const _BIT_17: u32 = 0x0002_0000;
pub const _BIT_18: u32 = 0x0004_0000;
pub const _BIT_19: u32 = 0x0008_0000;
pub const _BIT_20: u32 = 0x0010_0000;
pub const _BIT_21: u32 = 0x0020_0000;
pub const _BIT_22: u32 = 0x0040_0000;
pub const _BIT_23: u32 = 0x0080_0000;
pub const _BIT_24: u32 = 0x0100_0000;
pub const _BIT_25: u32 = 0x0200_0000;
pub const _BIT_26: u32 = 0x0400_0000;
pub const _BIT_27: u32 = 0x0800_0000;
pub const _BIT_28: u32 = 0x1000_0000;
pub const _BIT_29: u32 = 0x2000_0000;
pub const _BIT_30: u32 = 0x4000_0000;
pub const _BIT_31: u32 = 0x8000_0000;

pub const _MEM_SIZE_4K: u16 = 4 * 1024;
pub const _MEM_SIZE_8K: u16 = 8 * 1024;
pub const _MEM_SIZE_16K: u16 = 16 * 1024;
pub const _MEM_SIZE_32K: u16 = 32 * 1024;
pub const _MEM_SIZE_64K: u32 = 64 * 1024;
pub const _MEM_SIZE_128K: u32 = 128 * 1024;
pub const _MEM_SIZE_256K: u32 = 256 * 1024;
pub const _MEM_SIZE_512K: u32 = 512 * 1024;

pub const _MMC_0: u8 = 0;
pub const _MMC_1: u8 = 1;
pub const _MMC_2: u8 = 2;
pub const _MMC_3: u8 = 3;
pub const _MMC_4: u8 = 4;

pub const _MAPPER_0: u8 = 0;
pub const _MAPPER_1: u8 = 1;
pub const _MAPPER_2: u8 = 2;
pub const _MAPPER_3: u8 = 3;
pub const _MAPPER_4: u8 = 4;
pub const _MAPPER_105: u8 = 105;
pub const _MAPPER_115: u8 = 115;
pub const _MAPPER_118: u8 = 118;
pub const _MAPPER_119: u8 = 119;

pub const _CHR_ROM: u8 = 0;
pub const _CHR_RAM: u8 = 1;
pub const _PRG_ROM: u8 = 2;

/// Fields of a byte: its low bits and its top two bits.
pub proof fn lemma_byte_fields(d: u8)
    by (bit_vector)
    ensures
        (d & 0x81) & 0x01 == d & 0x01,
        d & 0x0F == d % 16,
        d & 0x07 < 8,
        d & 0x03 == d % 4,
        (d & 0x01 == 1) == (d % 2 == 1),
        ((d & 0x80) >> 7u8 == 1) == (d & 0x80 != 0),
        ((d & 0x40) >> 6u8 == 1) == (d & 0x40 != 0),
{
}

} // verus!
