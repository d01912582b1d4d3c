//! The CPU memory map of the console: work RAM, PPU and APU registers,
//! cartridge memory, and sprite DMA.
use vstd::prelude::*;
use crate::apu::{is_apu_reg, APUReg, APU_REG_READ, APU_REG_WRITE};
use crate::cassette::{Cassette, Mirroring};
use crate::cpu::ADDR_VEC_TBL_RST;
use crate::ppu::{
    ppu_reg_ok, ppu_reg_read_next, ppu_reg_read_value, ppu_reg_write_next, PpuState, PPU,
    PPU_REG_READ, PPU_REG_WRITE,
};

verus! {

pub const BIN_BIT_7: u8 = 0x80;
pub const BIN_BIT_6: u8 = 0x40;
pub const BIN_BIT_5: u8 = 0x20;
pub const BIN_BIT_4: u8 = 0x10;
pub const BIN_BIT_3: u8 = 0x08;
pub const BIN_BIT_2: u8 = 0x04;
pub const BIN_BIT_1: u8 = 0x02;
pub const BIN_BIT_0: u8 = 0x01;

pub const ADDR_CHR_ROM: u16 = 0x4020;
pub const ADDR_PRG_RAM: u16 = 0xFFFE;
pub const ADDR_PRG_ROM: u16 = 0x8000;

/// A snake game written for the bare 6502, run from work RAM at $0600.
pub const SNAKE_GAME_TBL: [u8; 310] = [
    0x20, 0x06, 0x06, 0x20, 0x38, 0x06, 0x20, 0x0d, 0x06, 0x20, 0x2a, 0x06, 0x60, 0xa9, 0x02, 0x85,
    0x02, 0xa9, 0x04, 0x85, 0x03, 0xa9, 0x11, 0x85, 0x10, 0xa9, 0x10, 0x85, 0x12, 0xa9, 0x0f, 0x85,
    0x14, 0xa9, 0x04, 0x85, 0x11, 0x85, 0x13, 0x85, 0x15, 0x60, 0xa5, 0xfe, 0x85, 0x00, 0xa5, 0xfe,
    0x29, 0x03, 0x18, 0x69, 0x02, 0x85, 0x01, 0x60, 0x20, 0x4d, 0x06, 0x20, 0x8d, 0x06, 0x20, 0xc3,
    0x06, 0x20, 0x19, 0x07, 0x20, 0x20, 0x07, 0x20, 0x2d, 0x07, 0x4c, 0x38, 0x06, 0xa5, 0xff, 0xc9,
    0x77, 0xf0, 0x0d, 0xc9, 0x64, 0xf0, 0x14, 0xc9, 0x73, 0xf0, 0x1b, 0xc9, 0x61, 0xf0, 0x22, 0x60,
    0xa9, 0x04, 0x24, 0x02, 0xd0, 0x26, 0xa9, 0x01, 0x85, 0x02, 0x60, 0xa9, 0x08, 0x24, 0x02, 0xd0,
    0x1b, 0xa9, 0x02, 0x85, 0x02, 0x60, 0xa9, 0x01, 0x24, 0x02, 0xd0, 0x10, 0xa9, 0x04, 0x85, 0x02,
    0x60, 0xa9, 0x02, 0x24, 0x02, 0xd0, 0x05, 0xa9, 0x08, 0x85, 0x02, 0x60, 0x60, 0x20, 0x94, 0x06,
    0x20, 0xa8, 0x06, 0x60, 0xa5, 0x00, 0xc5, 0x10, 0xd0, 0x0d, 0xa5, 0x01, 0xc5, 0x11, 0xd0, 0x07,
    0xe6, 0x03, 0xe6, 0x03, 0x20, 0x2a, 0x06, 0x60, 0xa2, 0x02, 0xb5, 0x10, 0xc5, 0x10, 0xd0, 0x06,
    0xb5, 0x11, 0xc5, 0x11, 0xf0, 0x09, 0xe8, 0xe8, 0xe4, 0x03, 0xf0, 0x06, 0x4c, 0xaa, 0x06, 0x4c,
    0x35, 0x07, 0x60, 0xa6, 0x03, 0xca, 0x8a, 0xb5, 0x10, 0x95, 0x12, 0xca, 0x10, 0xf9, 0xa5, 0x02,
    0x4a, 0xb0, 0x09, 0x4a, 0xb0, 0x19, 0x4a, 0xb0, 0x1f, 0x4a, 0xb0, 0x2f, 0xa5, 0x10, 0x38, 0xe9,
    0x20, 0x85, 0x10, 0x90, 0x01, 0x60, 0xc6, 0x11, 0xa9, 0x01, 0xc5, 0x11, 0xf0, 0x28, 0x60, 0xe6,
    0x10, 0xa9, 0x1f, 0x24, 0x10, 0xf0, 0x1f, 0x60, 0xa5, 0x10, 0x18, 0x69, 0x20, 0x85, 0x10, 0xb0,
    0x01, 0x60, 0xe6, 0x11, 0xa9, 0x06, 0xc5, 0x11, 0xf0, 0x0c, 0x60, 0xc6, 0x10, 0xa5, 0x10, 0x29,
    0x1f, 0xc9, 0x1f, 0xf0, 0x01, 0x60, 0x4c, 0x35, 0x07, 0xa0, 0x00, 0xa5, 0xfe, 0x91, 0x00, 0x60,
    0xa6, 0x03, 0xa9, 0x00, 0x81, 0x10, 0xa2, 0x00, 0xa9, 0x01, 0x81, 0x10, 0x60, 0xa2, 0x00, 0xea,
    0xea, 0xca, 0xd0, 0xfb, 0x60, 0x60,
];

#[derive(Clone)]
pub struct Memory {
    pub wram: [u8; 2048],
    pub vram: [u8; 2048],
    pub dma_start_addr: u8,
    pub apu_reg: APUReg,
    pub ppu_reg: PPU,
    pub cassette: Cassette,
}

/// The memory map, as values.
pub struct MemoryState {
    pub wram: Seq<u8>,
    pub vram: Seq<u8>,
    pub dma_start_addr: u8,
    pub apu: Map<u16, u8>,
    pub ppu: PpuState,
    pub chr_rom: Seq<u8>,
    pub prg_rom: Seq<u8>,
    /// The cartridge's mapper number and name table arrangement.
    pub mapper: u8,
    pub mirroring: Mirroring,
}

impl View for Memory {
    type V = MemoryState;

    open spec fn view(&self) -> MemoryState {
        MemoryState {
            wram: self.wram@,
            vram: self.vram@,
            dma_start_addr: self.dma_start_addr,
            apu: self.apu_reg@,
            ppu: self.ppu_reg@,
            chr_rom: self.cassette.chr_rom@,
            prg_rom: self.cassette.prg_rom@,
            mapper: self.cassette.mapper,
            mirroring: self.cassette.screen_mirroring,
        }
    }
}

/// A CPU read that the memory map answers without a fault: the address is
/// mapped (name table RAM ends at $27FF, cartridge CHR memory starts at
/// $4020, PRG-ROM is seen twice, at $8000 and at $C000), and a PPU or APU
/// register read is one that the register interface answers.
pub open spec fn mem_read_ok(m: MemoryState, addr: u16) -> bool {
    if addr <= 0x1FFF {
        true
    } else if addr <= 0x2007 {
        ppu_reg_ok(m.ppu, addr, false)
    } else if addr <= 0x3FFF {
        addr <= 0x27FF
    } else if addr <= 0x4017 {
        is_apu_reg(addr)
    } else if addr <= 0x401F {
        false
    } else if addr <= 0x5FFF {
        addr - 0x4020 < m.chr_rom.len()
    } else if addr <= 0x7FFF {
        false
    } else if addr <= 0xBFFF {
        addr - 0x8000 < m.prg_rom.len()
    } else {
        addr - 0xC000 < m.prg_rom.len()
    }
}

pub open spec fn mem_read_value(m: MemoryState, addr: u16) -> u8 {
    if addr <= 0x1FFF {
        m.wram[addr as int % 0x800]
    } else if addr <= 0x2007 {
        ppu_reg_read_value(m.ppu, addr)
    } else if addr <= 0x3FFF {
        m.vram[addr - 0x2000]
    } else if addr <= 0x4017 {
        m.apu[addr]
    } else if addr <= 0x5FFF {
        m.chr_rom[addr - 0x4020]
    } else if addr <= 0xBFFF {
        m.prg_rom[addr - 0x8000]
    } else {
        m.prg_rom[addr - 0xC000]
    }
}

/// The side effect of a read: reading a PPU register can move the PPU (a
/// PPUDATA read latches the byte and advances the VRAM address).
pub open spec fn mem_read_next(m: MemoryState, addr: u16) -> MemoryState {
    if 0x2000 <= addr <= 0x2007 {
        MemoryState { ppu: ppu_reg_read_next(m.ppu, addr), ..m }
    } else {
        m
    }
}

/// A CPU write that the memory map carries out without a fault: the address
/// is mapped, a register write is one that the register interface takes, and
/// a write to $4014 starts a sprite DMA whose reads all succeed.
pub open spec fn mem_write_ok(m: MemoryState, addr: u16, data: u8) -> bool {
    if addr <= 0x1FFF {
        true
    } else if addr <= 0x2007 {
        ppu_reg_ok(m.ppu, addr, true)
    } else if addr <= 0x3FFF {
        addr <= 0x27FF
    } else if addr == 0x4014 {
        let t = MemoryState { dma_start_addr: data, ..m };
        dma_ok(t, dma_page(t), 0)
    } else if addr <= 0x4017 {
        is_apu_reg(addr)
    } else if addr <= 0x401F {
        false
    } else if addr <= 0x5FFF {
        addr - 0x4020 < m.chr_rom.len()
    } else if addr <= 0x7FFF {
        false
    } else if addr <= 0xBFFF {
        addr - 0x8000 < m.prg_rom.len()
    } else {
        addr - 0xC000 < m.prg_rom.len()
    }
}

pub open spec fn mem_write_next(m: MemoryState, addr: u16, data: u8) -> MemoryState {
    if addr <= 0x1FFF {
        MemoryState { wram: m.wram.update(addr as int % 0x800, data), ..m }
    } else if addr <= 0x2007 {
        MemoryState { ppu: ppu_reg_write_next(m.ppu, addr, data), ..m }
    } else if addr <= 0x3FFF {
        MemoryState { vram: m.vram.update(addr - 0x2000, data), ..m }
    } else if addr == 0x4014 {
        let t = MemoryState { dma_start_addr: data, ..m };
        dma_from(t, dma_page(t), 0)
    } else if addr <= 0x4017 {
        MemoryState { apu: m.apu.insert(addr, data), ..m }
    } else if addr <= 0x5FFF {
        MemoryState { chr_rom: m.chr_rom.update(addr - 0x4020, data), ..m }
    } else if addr <= 0xBFFF {
        MemoryState { prg_rom: m.prg_rom.update(addr - 0x8000, data), ..m }
    } else {
        MemoryState { prg_rom: m.prg_rom.update(addr - 0xC000, data), ..m }
    }
}

/// One byte of sprite DMA: the byte read at `addr` goes to OAM entry `i`.
pub open spec fn dma_byte(m: MemoryState, addr: u16, i: int) -> MemoryState {
    let v = mem_read_value(m, addr);
    let t = mem_read_next(m, addr);
    MemoryState { ppu: PpuState { oam: t.ppu.oam.update(i, v), ..t.ppu }, ..t }
}

/// The transfer of OAM entries `i` to 255 from `addr` on.
pub open spec fn dma_from(m: MemoryState, addr: u16, i: int) -> MemoryState
    decreases 256 - i,
{
    if i < 0 || i >= 256 {
        m
    } else {
        dma_from(dma_byte(m, addr, i), (addr + 1) as u16, i + 1)
    }
}

/// Every read of the transfer succeeds, and the address never passes $FFFF
/// (it is advanced after the last read too).
pub open spec fn dma_ok(m: MemoryState, addr: u16, i: int) -> bool
    decreases 256 - i,
{
    if i < 0 || i >= 256 {
        true
    } else {
        &&& addr < 0xFFFF
        &&& mem_read_ok(m, addr)
        &&& dma_ok(dma_byte(m, addr, i), (addr + 1) as u16, i + 1)
    }
}

/// The page that sprite DMA copies from.
pub open spec fn dma_page(m: MemoryState) -> u16 {
    (m.dma_start_addr as int * 256) as u16
}

impl Memory {
    pub fn new() -> (r: Self)
        ensures
            r@.wram == Seq::new(2048, |i: int| 0u8),
            r@.vram == Seq::new(2048, |i: int| 0u8),
            r@.dma_start_addr == 0,
            r@.apu == crate::apu::apu_cleared(),
            crate::ppu::ppu_initial(r@.ppu),
            r@.chr_rom == Seq::new(8192, |i: int| 0u8),
            r@.prg_rom == Seq::new(16384, |i: int| 0u8),
            r.cassette.mapper == 0,
            r.cassette.screen_mirroring == crate::cassette::Mirroring::VERTICAL,
    {
        let r = Memory {
            wram: [0; 2048],
            vram: [0; 2048],
            dma_start_addr: 0,
            apu_reg: APUReg::new(),
            ppu_reg: PPU::new(),
            cassette: Cassette::new(),
        };
        assert(r.wram@ =~= Seq::new(2048, |i: int| 0u8));
        assert(r.vram@ =~= Seq::new(2048, |i: int| 0u8));
        r
    }

    /// Loads the snake game into work RAM at $0600 and points the reset
    /// vector at it.
    pub fn mem_reset(&mut self)
        requires
            old(self)@.prg_rom.len() > 0x3FFD,
        ensures
            final(self)@ == (MemoryState {
                wram: old(self)@.wram.subrange(0, 0x600) + SNAKE_GAME_TBL@ + old(self)@.wram.subrange(
                    0x600int + 310,
                    2048,
                ),
                prg_rom: old(self)@.prg_rom.update(0x3FFC, 0x00).update(0x3FFD, 0x06),
                ..old(self)@
            }),
    {
        let start_address: usize = 0x600;
        let mut i: usize = 0;
        assert(old(self)@.wram.subrange(0, 0x600) + SNAKE_GAME_TBL@.subrange(0, 0) + old(
            self,
        )@.wram.subrange(0x600, 2048) =~= old(self)@.wram);
        while i < 310
            invariant
                i <= 310,
                start_address == 0x600,
                old(self)@.wram.len() == 2048,
                self.wram@.len() == 2048,
                self@ == (MemoryState {
                    wram: old(self)@.wram.subrange(0, 0x600) + SNAKE_GAME_TBL@.subrange(0, i as int)
                        + old(self)@.wram.subrange(0x600 + i, 2048),
                    ..old(self)@
                }),
            decreases 310 - i,
        {
            self.wram[start_address + i] = SNAKE_GAME_TBL[i];
            assert(self@.wram =~= old(self)@.wram.subrange(0, 0x600) + SNAKE_GAME_TBL@.subrange(
                0,
                i + 1,
            ) + old(self)@.wram.subrange(0x600 + i + 1, 2048));
            i += 1;
        }
        assert(SNAKE_GAME_TBL@.subrange(0, 310) =~= SNAKE_GAME_TBL@);
        self.mem_write(ADDR_VEC_TBL_RST, 0x00);
        self.mem_write(ADDR_VEC_TBL_RST + 1, 0x06);
    }

    pub fn mem_read(&mut self, addr: u16) -> (r: u8)
        requires
            mem_read_ok(old(self)@, addr),
        ensures
            r == mem_read_value(old(self)@, addr),
            final(self)@ == mem_read_next(old(self)@, addr),
    {
        if addr <= 0x07FF {
            self.wram[addr as usize]
        } else if addr <= 0x1FFF {
            self.wram[(addr % 0x0800) as usize]
        } else if addr <= 0x2007 {
            self.ppu_reg.ppu_reg_ctrl(addr, PPU_REG_READ, 0)
        } else if addr <= 0x3FFF {
            self.vram[(addr - 0x2000) as usize]
        } else if addr <= 0x4017 {
            self.apu_reg.apu_reg_ctrl(addr, APU_REG_READ, 0)
        } else if addr <= 0x5FFF {
            self.cassette.chr_rom[(addr - 0x4020) as usize]
        } else if addr <= 0xBFFF {
            self.cassette.prg_rom[(addr - 0x8000) as usize]
        } else {
            self.cassette.prg_rom[(addr - 0xC000) as usize]
        }
    }

    pub fn mem_write(&mut self, addr: u16, data: u8)
        requires
            mem_write_ok(old(self)@, addr, data),
        ensures
            final(self)@ == mem_write_next(old(self)@, addr, data),
    {
        if addr <= 0x07FF {
            self.wram[addr as usize] = data;
        } else if addr <= 0x1FFF {
            self.wram[(addr % 0x0800) as usize] = data;
        } else if addr <= 0x2007 {
            self.ppu_reg.ppu_reg_ctrl(addr, PPU_REG_WRITE, data);
        } else if addr <= 0x3FFF {
            self.vram[(addr - 0x2000) as usize] = data;
        } else if addr == 0x4014 {
            self.dma_start_addr = data;
            self.dma_start();
        } else if addr <= 0x4017 {
            self.apu_reg.apu_reg_ctrl(addr, APU_REG_WRITE, data);
        } else if addr <= 0x5FFF {
            self.cassette.chr_rom[(addr - 0x4020) as usize] = data;
        } else if addr <= 0xBFFF {
            self.cassette.prg_rom[(addr - 0x8000) as usize] = data;
        } else {
            self.cassette.prg_rom[(addr - 0xC000) as usize] = data;
        }
    }

    /// Sprite DMA: copies the 256 bytes of the page named by `dma_start_addr`
    /// into OAM, reading them through the memory map.
    pub fn dma_start(&mut self)
        requires
            dma_ok(old(self)@, dma_page(old(self)@), 0),
        ensures
            final(self)@ == dma_from(old(self)@, dma_page(old(self)@), 0),
    {
        let mut start_addr: u16 = self.dma_start_addr as u16;
        assert(start_addr << 8u16 == start_addr * 256) by (bit_vector)
            requires
                start_addr < 256,
        ;
        start_addr = start_addr << 8;
        let mut i: usize = 0;
        while i < 256
            invariant
                0 <= i <= 256,
                dma_ok(self@, start_addr, i as int),
                dma_from(self@, start_addr, i as int) == dma_from(
                    old(self)@,
                    dma_page(old(self)@),
                    0,
                ),
            decreases 256 - i,
        {
            let data = self.mem_read(start_addr);
            self.ppu_reg.oam_write(i as u8, data);
            start_addr = start_addr + 1;
            i += 1;
        }
    }
}

/// Work RAM repeats every 2 KiB up to $1FFF.
pub proof fn law_wram_mirror(m: MemoryState, addr: u16)
    requires
        addr <= 0x1FFF,
    ensures
        mem_read_value(m, addr) == mem_read_value(m, addr % 0x800),
        mem_read_next(m, addr) == m,
{
}

/// A byte written to work RAM reads back at the same address and at each of
/// its mirrors.
pub proof fn law_wram_write_read(m: MemoryState, addr: u16, mirror: u16, data: u8)
    requires
        m.wram.len() == 2048,
        addr <= 0x1FFF,
        mirror <= 0x1FFF,
        mirror % 0x800 == addr % 0x800,
    ensures
        mem_read_value(mem_write_next(m, addr, data), mirror) == data,
{
}

/// A byte written to name table RAM, to an APU register or to the cartridge
/// reads back.
pub proof fn law_write_read(m: MemoryState, addr: u16, data: u8)
    requires
        m.vram.len() == 2048,
        mem_write_ok(m, addr, data),
        (0x2008 <= addr <= 0x3FFF) || (0x4020 <= addr) || (is_apu_reg(addr) && addr != 0x4014),
    ensures
        mem_read_value(mem_write_next(m, addr, data), addr) == data,
{
}

/// The rest of a DMA transfer from work RAM: the bytes from `addr` on go to
/// OAM entries `i` to 255, and nothing else changes.
proof fn lemma_dma_from_wram(m: MemoryState, addr: u16, i: int)
    requires
        0 <= i <= 256,
        addr + (256 - i) <= 0x2000,
        m.wram.len() == 2048,
        m.ppu.oam.len() == 256,
    ensures
        ({
            let r = dma_from(m, addr, i);
            &&& r.wram == m.wram
            &&& r.ppu.oam.len() == 256
            &&& forall|k: int| 0 <= k < i ==> r.ppu.oam[k] == m.ppu.oam[k]
            &&& forall|k: int| i <= k < 256 ==> r.ppu.oam[k] == m.wram[(addr + k - i) % 0x800]
        }),
    decreases 256 - i,
{
    if i < 256 {
        let t = dma_byte(m, addr, i);
        assert(mem_read_next(m, addr) == m);
        lemma_dma_from_wram(t, (addr + 1) as u16, i + 1);
    }
}

/// Sprite DMA from a page of work RAM copies its 256 bytes, in order, into
/// OAM and leaves work RAM as it was.
pub proof fn law_dma_copies_wram_page(m: MemoryState)
    requires
        m.dma_start_addr < 0x20,
        m.wram.len() == 2048,
        m.ppu.oam.len() == 256,
    ensures
        ({
            let r = dma_from(m, dma_page(m), 0);
            &&& r.wram == m.wram
            &&& forall|k: int| 0 <= k < 256 ==> r.ppu.oam[k] == m.wram[(dma_page(m) + k) % 0x800]
        }),
{
    lemma_dma_from_wram(m, dma_page(m), 0);
}

/// The CPU's memory map: $2000-$2007 are the PPU registers, reads and
/// writes going to the register interface; $8000-$BFFF and $C000-$FFFF both
/// show PRG-ROM from its start.
pub proof fn law_memory_map(m: MemoryState, k: int, data: u8)
    ensures
        0 <= k < 8 ==> {
            let a = (0x2000 + k) as u16;
            &&& mem_read_value(m, a) == ppu_reg_read_value(m.ppu, a)
            &&& mem_read_next(m, a) == (MemoryState { ppu: ppu_reg_read_next(m.ppu, a), ..m })
            &&& mem_write_next(m, a, data) == (MemoryState {
                ppu: ppu_reg_write_next(m.ppu, a, data),
                ..m
            })
        },
        0 <= k < 0x4000 ==> mem_read_value(m, (0x8000 + k) as u16) == m.prg_rom[k]
            && mem_read_value(m, (0xC000 + k) as u16) == m.prg_rom[k],
{
}

} // verus!
