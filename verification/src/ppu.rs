//! The picture processing unit: its registers ($2000-$2007), its memory
//! (name tables, palette RAM, OAM), the frame buffer and the frame timing.
use vstd::prelude::*;
use crate::cassette::Mirroring;

verus! {

const SCREEN_WIDTH: usize = 256;
const SCREEN_HEIGHT: usize = 240;

// [PPU registers]
const PPU_REG_PPUCTRL: u16 = 0x2000;
const PPU_REG_PPUMASK: u16 = 0x2001;
const PPU_REG_PPUSTATUS: u16 = 0x2002;
const PPU_REG_OAMADDR: u16 = 0x2003;
const PPU_REG_OAMDATA: u16 = 0x2004;
const PPU_REG_PPUSCROLL: u16 = 0x2005;
const PPU_REG_PPUADDR: u16 = 0x2006;
const PPU_REG_PPUDATA: u16 = 0x2007;

// [PPUCTRL bits]
const REG_PPUCTRL_BIT_GENERATE_NMI: u8 = 0b10000000;
const REG_PPUCTRL_BIT_MASTER_SLAVE_SELECT: u8 = 0b01000000;
const REG_PPUCTRL_BIT_SPRITE_SIZE: u8 = 0b00100000;
const REG_PPUCTRL_BIT_BACKROUND_PATTERN_ADDR: u8 = 0b00010000;
const REG_PPUCTRL_BIT_SPRITE_PATTERN_ADDR: u8 = 0b00001000;
const REG_PPUCTRL_BIT_VRAM_ADD_INCREMENT: u8 = 0b00000100;
const REG_PPUCTRL_BIT_NAMETABLE: u8 = 0b00000011;

const SPRITE_SIZE_8X8: u8 = 0;
const SPRITE_SIZE_8X16: u8 = 1;
const CHR_ROM_BG_PATTERN_TABLE_0: u16 = 0x0000;
const CHR_ROM_BG_PATTERN_TABLE_1: u16 = 0x1000;
const CHR_ROM_SPRITE_PATTERN_TABLE_0: u16 = 0x0000;
const CHR_ROM_SPRITE_PATTERN_TABLE_1: u16 = 0x1000;
const VRAM_INCREMENT_1: u8 = 1;
const VRAM_INCREMENT_32: u8 = 32;
const NAME_TABLE_0: u16 = 0x2000;
const NAME_TABLE_1: u16 = 0x2400;
const NAME_TABLE_2: u16 = 0x2800;
const NAME_TABLE_3: u16 = 0x2C00;

// [PPUMASK bits]
const REG_PPUMASK_BIT_BG_COLOR: u8 = 0b11100000;
const REG_PPUMASK_BIT_SPRITE_ENABLE: u8 = 0b00010000;
const REG_PPUMASK_BIT_BACKGROUND_ENABLE: u8 = 0b00001000;
const REG_PPUMASK_BIT_SPRITE_LEFT_COLUMN: u8 = 0b00000100;
const REG_PPUMASK_BIT_BACKGROUND_LEFT_COLUMN: u8 = 0b00000010;
const REG_PPUMASK_BIT_GRAYSCALE: u8 = 0b00000001;

const BG_COLOR_RED: u8 = 0b100;
const BG_COLOR_GREEN: u8 = 0b010;
const BG_COLOR_BLUE: u8 = 0b001;
const BG_COLOR_BLACK: u8 = 0b000;
const GRAYSCALE_COLOR: u8 = 0;
const GRAYSCALE_MONOCHRO: u8 = 1;

// [PPUSTATUS bits]
pub const REG_PPUSTATUS_BIT_VBLANK: u8 = 0b10000000;

// [PPU memory]
const PPU_OAM_SIZE: usize = 0x0100;
const PPU_PRAM_SIZE: usize = 0x0020;
const VRAM_SIZE: usize = 2048;

pub const PPU_REG_READ: u8 = 0x00;
pub const PPU_REG_WRITE: u8 = 0x01;

// ===========================================================================
// Frame buffer
// ===========================================================================

/// A 256x240 picture, three bytes (red, green, blue) per pixel, row by row.
#[derive(Clone)]
pub struct Frame {
    pub data: Vec<u8>,
}

/// Offset of the pixel (x, y) in the frame buffer.
pub open spec fn pixel_offset(x: int, y: int) -> int {
    y * 3 * 256 + x * 3
}

/// The frame data after setting pixel (x, y): written only when the whole
/// pixel lies inside the buffer.
pub open spec fn set_pixel_data(data: Seq<u8>, x: int, y: int, rgb: (u8, u8, u8)) -> Seq<u8> {
    let base = pixel_offset(x, y);
    if base + 2 < data.len() {
        data.update(base, rgb.0).update(base + 1, rgb.1).update(base + 2, rgb.2)
    } else {
        data
    }
}

impl Frame {
    const WIDTH: usize = 256;
    const HEIGHT: usize = 240;

    /// A black frame.
    pub fn new() -> (r: Self)
        ensures
            r.data@ == Seq::new(256 * 240 * 3, |i: int| 0u8),
    {
        let r = Frame { data: vec![0; 256 * 240 * 3] };
        assert(r.data@ =~= Seq::new(256 * 240 * 3, |i: int| 0u8));
        r
    }

    pub fn set_pixel(&mut self, x: usize, y: usize, rgb: (u8, u8, u8))
        requires
            pixel_offset(x as int, y as int) + 2 <= usize::MAX,
        ensures
            final(self).data@ == set_pixel_data(old(self).data@, x as int, y as int, rgb),
    {
        let base = y * 3 * 256 + x * 3;
        if base + 2 < self.data.len() {
            self.data[base] = rgb.0;
            self.data[base + 1] = rgb.1;
            self.data[base + 2] = rgb.2;
        }
    }
}

/// Data fetched for the tile and the sprite being drawn.
#[derive(Clone, Copy)]
pub struct RenderData {
    pub name_val: u8,
    pub attribute_val: u8,
    pub bg_pattern: [u8; 2],
    pub bg_parette_color: u8,
    pub sprite_y: u8,
    pub sprite_pattern_index: u8,
    pub sprite_attribute: u8,
    pub sprite_x: u8,
    pub sprite_pattern: [u8; 2],
    pub sprite_parette_color: u8,
}

/// Render data with every field at zero.
pub open spec fn render_data_cleared(r: RenderData) -> bool {
    &&& r.name_val == 0
    &&& r.attribute_val == 0
    &&& r.bg_pattern@ == seq![0u8, 0u8]
    &&& r.bg_parette_color == 0
    &&& r.sprite_y == 0
    &&& r.sprite_pattern_index == 0
    &&& r.sprite_attribute == 0
    &&& r.sprite_x == 0
    &&& r.sprite_pattern@ == seq![0u8, 0u8]
    &&& r.sprite_parette_color == 0
}

impl RenderData {
    pub fn new() -> (r: Self)
        ensures
            render_data_cleared(r),
    {
        let r = RenderData {
            name_val: 0,
            attribute_val: 0,
            bg_pattern: [0; 2],
            bg_parette_color: 0,
            sprite_y: 0,
            sprite_pattern_index: 0,
            sprite_attribute: 0,
            sprite_x: 0,
            sprite_pattern: [0; 2],
            sprite_parette_color: 0,
        };
        assert(r.bg_pattern@ =~= seq![0u8, 0u8]);
        assert(r.sprite_pattern@ =~= seq![0u8, 0u8]);
        r
    }
}

// ===========================================================================
// The PPU
// ===========================================================================

#[derive(Clone)]
pub struct PPU {
    pub ppuctrl: u8,
    pub ppumask: u8,
    pub ppustatus: u8,
    pub oamaddr: u8,
    pub oamdata: u8,
    pub ppuscroll: u8,
    pub ppuaddr: u8,
    pub ppudata: u8,
    pub oamdma_run: bool,
    pub oamdma_done: bool,
    pub oam: [u8; 0x100],
    pub pram: [u8; 0x20],
    pub render_data: RenderData,
    pub sprite_prefetch_buf: [u8; 16],
    pub nmi_gen: bool,
    pub master_slave: u8,
    pub cycle: u16,
    pub vram: [u8; 2048],
    pub vram_addr_inc: u8,
    pub vram_addr_write: u8,
    pub vram_addr: u16,
    pub scroll_x: u8,
    pub scroll_y: u8,
    pub scroll_write: u8,
    pub sprite_size: u8,
    pub bg_pattern_tbl: u16,
    pub sprite_pattern_tbl: u16,
    pub name_table: u16,
    pub bg_color: u8,
    pub sprite_enable: bool,
    pub bg_enable: bool,
    pub sprite_left_enable: bool,
    pub bg_left_enable: bool,
    pub grayscale: u8,
    pub scanline: u16,
    pub scanline_palette_indexes: Vec<usize>,
    pub scanline_palette_tables: Vec<[u8; 32]>,
    pub freme: Frame,
}

/// Everything the PPU holds, as values.
pub struct PpuState {
    pub ppuctrl: u8,
    pub ppumask: u8,
    pub ppustatus: u8,
    pub oamaddr: u8,
    pub oamdata: u8,
    pub ppuscroll: u8,
    pub ppuaddr: u8,
    pub ppudata: u8,
    pub oamdma_run: bool,
    pub oamdma_done: bool,
    /// Object attribute memory: 64 sprites of 4 bytes.
    pub oam: Seq<u8>,
    /// Palette RAM.
    pub pram: Seq<u8>,
    pub render_data: RenderData,
    pub sprite_prefetch_buf: Seq<u8>,
    pub nmi_gen: bool,
    pub master_slave: u8,
    /// Dot counter within the frame.
    pub cycle: u16,
    /// Name table RAM.
    pub vram: Seq<u8>,
    pub vram_addr_inc: u8,
    /// Which half of the address the next write to PPUADDR gives.
    pub vram_addr_write: u8,
    pub vram_addr: u16,
    pub scroll_x: u8,
    pub scroll_y: u8,
    /// Which coordinate the next write to PPUSCROLL gives.
    pub scroll_write: u8,
    pub sprite_size: u8,
    pub bg_pattern_tbl: u16,
    pub sprite_pattern_tbl: u16,
    pub name_table: u16,
    pub bg_color: u8,
    pub sprite_enable: bool,
    pub bg_enable: bool,
    pub sprite_left_enable: bool,
    pub bg_left_enable: bool,
    pub grayscale: u8,
    pub scanline: u16,
    pub scanline_palette_indexes: Seq<usize>,
    pub scanline_palette_tables: Seq<[u8; 32]>,
    pub frame: Seq<u8>,
}

impl View for PPU {
    type V = PpuState;

    open spec fn view(&self) -> PpuState {
        PpuState {
            ppuctrl: self.ppuctrl,
            ppumask: self.ppumask,
            ppustatus: self.ppustatus,
            oamaddr: self.oamaddr,
            oamdata: self.oamdata,
            ppuscroll: self.ppuscroll,
            ppuaddr: self.ppuaddr,
            ppudata: self.ppudata,
            oamdma_run: self.oamdma_run,
            oamdma_done: self.oamdma_done,
            oam: self.oam@,
            pram: self.pram@,
            render_data: self.render_data,
            sprite_prefetch_buf: self.sprite_prefetch_buf@,
            nmi_gen: self.nmi_gen,
            master_slave: self.master_slave,
            cycle: self.cycle,
            vram: self.vram@,
            vram_addr_inc: self.vram_addr_inc,
            vram_addr_write: self.vram_addr_write,
            vram_addr: self.vram_addr,
            scroll_x: self.scroll_x,
            scroll_y: self.scroll_y,
            scroll_write: self.scroll_write,
            sprite_size: self.sprite_size,
            bg_pattern_tbl: self.bg_pattern_tbl,
            sprite_pattern_tbl: self.sprite_pattern_tbl,
            name_table: self.name_table,
            bg_color: self.bg_color,
            sprite_enable: self.sprite_enable,
            bg_enable: self.bg_enable,
            sprite_left_enable: self.sprite_left_enable,
            bg_left_enable: self.bg_left_enable,
            grayscale: self.grayscale,
            scanline: self.scanline,
            scanline_palette_indexes: self.scanline_palette_indexes@,
            scanline_palette_tables: self.scanline_palette_tables@,
            frame: self.freme.data@,
        }
    }
}

/// The PPU after power-on.
pub open spec fn ppu_initial(p: PpuState) -> bool {
    &&& p.ppuctrl == 0x40
    &&& p.ppumask == 0 && p.ppustatus == 0 && p.oamaddr == 0 && p.oamdata == 0
    &&& p.ppuscroll == 0 && p.ppuaddr == 0 && p.ppudata == 0
    &&& !p.oamdma_run && !p.oamdma_done
    &&& p.oam == Seq::new(0x100, |i: int| 0u8)
    &&& p.pram == Seq::new(0x20, |i: int| 0u8)
    &&& render_data_cleared(p.render_data)
    &&& p.sprite_prefetch_buf == Seq::new(16, |i: int| 0u8)
    &&& !p.nmi_gen && p.master_slave == 0 && p.cycle == 0
    &&& p.vram == Seq::new(2048, |i: int| 0u8)
    &&& p.vram_addr_inc == 1 && p.vram_addr_write == 0 && p.vram_addr == 0x2000
    &&& p.scroll_x == 0 && p.scroll_y == 0 && p.scroll_write == 0
    &&& p.sprite_size == 0 && p.bg_pattern_tbl == 0 && p.sprite_pattern_tbl == 0
    &&& p.name_table == 0x2000
    &&& p.bg_color == 0 && !p.sprite_enable && !p.bg_enable
    &&& !p.sprite_left_enable && !p.bg_left_enable && p.grayscale == 0
    &&& p.scanline == 0
    &&& p.scanline_palette_indexes.len() == 0 && p.scanline_palette_tables.len() == 0
    &&& p.frame == Seq::new(256 * 240 * 3, |i: int| 0u8)
}

// ---------------------------------------------------------------------------
// PPU memory
// ---------------------------------------------------------------------------

/// Addresses that the PPU serves from its own memory: the name tables
/// ($2000-$27FF, mirrored at $3000-$37FF), palette RAM ($3F00-$3FFF, every
/// 32 bytes the same) and OAM at $4000-$401F.  The pattern tables below
/// $2000 belong to the cartridge.
pub open spec fn ppu_mem_ok(addr: u16) -> bool {
    ||| 0x2000 <= addr <= 0x27FF
    ||| 0x3000 <= addr <= 0x37FF
    ||| 0x3F00 <= addr <= 0x3FFF
    ||| 0x4000 <= addr <= 0x401F
}

pub open spec fn ppu_mem_read(p: PpuState, addr: u16) -> u8 {
    if addr <= 0x27FF {
        p.vram[addr - 0x2000]
    } else if addr <= 0x37FF {
        p.vram[addr - 0x3000]
    } else if addr <= 0x3FFF {
        p.pram[(addr - 0x3F00) % 32]
    } else {
        p.oam[addr - 0x4000]
    }
}

pub open spec fn ppu_mem_write(p: PpuState, addr: u16, data: u8) -> PpuState {
    if addr <= 0x27FF {
        PpuState { vram: p.vram.update(addr - 0x2000, data), ..p }
    } else if addr <= 0x37FF {
        PpuState { vram: p.vram.update(addr - 0x3000, data), ..p }
    } else if addr <= 0x3FFF {
        PpuState { pram: p.pram.update((addr - 0x3F00) % 32, data), ..p }
    } else {
        PpuState { oam: p.oam.update(addr - 0x4000, data), ..p }
    }
}

// ---------------------------------------------------------------------------
// Registers
// ---------------------------------------------------------------------------

/// The VRAM address after an access through PPUDATA.
pub open spec fn vram_addr_step(p: PpuState) -> PpuState {
    let a = ((p.vram_addr as int + p.vram_addr_inc as int) % 0x10000) as u16;
    PpuState { vram_addr: a, ppuaddr: (a % 256) as u8, ..p }
}

/// A register access that does not fault: the address is $2000-$2007, and
/// PPUDATA needs the VRAM address to name PPU memory.
pub open spec fn ppu_reg_ok(p: PpuState, addr: u16, write: bool) -> bool {
    &&& 0x2000 <= addr <= 0x2007
    &&& (addr == 0x2007 ==> ppu_mem_ok(p.vram_addr))
}

/// The value answered by a register read.
pub open spec fn ppu_reg_read_value(p: PpuState, addr: u16) -> u8 {
    if addr == 0x2000 {
        p.ppuctrl
    } else if addr == 0x2001 {
        p.ppumask
    } else if addr == 0x2002 {
        p.ppustatus
    } else if addr == 0x2003 {
        p.oamaddr
    } else if addr == 0x2004 {
        p.oamdata
    } else if addr == 0x2005 {
        p.ppuscroll
    } else if addr == 0x2006 {
        p.ppuaddr
    } else {
        ppu_mem_read(p, p.vram_addr)
    }
}

/// The PPU after a register read: reading PPUDATA latches the byte and
/// advances the VRAM address.
pub open spec fn ppu_reg_read_next(p: PpuState, addr: u16) -> PpuState {
    if addr == 0x2007 {
        vram_addr_step(PpuState { ppudata: ppu_mem_read(p, p.vram_addr), ..p })
    } else {
        p
    }
}

/// The PPU after a register write.
pub open spec fn ppu_reg_write_next(p: PpuState, addr: u16, data: u8) -> PpuState {
    if addr == 0x2000 {
        PpuState { ppuctrl: data | 0x40, ..p }
    } else if addr == 0x2001 {
        PpuState { ppumask: data, ..p }
    } else if addr == 0x2002 {
        PpuState { ppustatus: data, ..p }
    } else if addr == 0x2003 {
        PpuState { oamaddr: data, ..p }
    } else if addr == 0x2004 {
        PpuState {
            oamdata: data,
            oam: p.oam.update(p.oamaddr as int, data),
            oamaddr: ((p.oamaddr + 1) % 256) as u8,
            ..p
        }
    } else if addr == 0x2005 {
        if p.scroll_write == 0 {
            PpuState { ppuscroll: data, scroll_x: data, scroll_write: 1, ..p }
        } else {
            PpuState { ppuscroll: data, scroll_y: data, scroll_write: 0, ..p }
        }
    } else if addr == 0x2006 {
        if p.vram_addr_write == 0 {
            PpuState { ppuaddr: data, vram_addr: (data as int * 256) as u16, vram_addr_write: 1, ..p }
        } else {
            PpuState { ppuaddr: data, vram_addr: p.vram_addr | (data as u16), vram_addr_write: 0, ..p }
        }
    } else {
        vram_addr_step(ppu_mem_write(PpuState { ppudata: data, ..p }, p.vram_addr, data))
    }
}

// ---------------------------------------------------------------------------
// Register decoding and frame timing
// ---------------------------------------------------------------------------

/// The settings decoded from PPUCTRL and PPUMASK.
pub open spec fn reg_config_next(p: PpuState) -> PpuState {
    let ctrl = p.ppuctrl;
    let mask = p.ppumask;
    // bits 7-5: background colour (red 0b100, green 0b010, blue 0b001)
    let bg = (mask & 0xE0) >> 5u8;
    let nt = ctrl & 0x03;
    PpuState {
        nmi_gen: ctrl & 0x80 != 0,
        master_slave: if ctrl & 0x40 != 0 {
            1
        } else {
            0
        },
        // bit 5: 8x16 sprites when set, 8x8 when clear
        sprite_size: if ctrl & 0x20 != 0 {
            1
        } else {
            0
        },
        bg_pattern_tbl: if ctrl & 0x10 != 0 {
            0x1000
        } else {
            0
        },
        sprite_pattern_tbl: if ctrl & 0x08 != 0 {
            0x1000
        } else {
            0
        },
        vram_addr_inc: if ctrl & 0x04 != 0 {
            32
        } else {
            1
        },
        name_table: if nt == 3 {
            0x2C00
        } else if nt == 2 {
            0x2800
        } else if nt == 1 {
            0x2400
        } else {
            0x2000
        },
        bg_color: if bg == 4 {
            4
        } else if bg == 2 {
            2
        } else if bg == 1 {
            1
        } else {
            0
        },
        sprite_enable: mask & 0x10 != 0,
        bg_enable: mask & 0x08 != 0,
        sprite_left_enable: mask & 0x04 != 0,
        bg_left_enable: mask & 0x02 != 0,
        grayscale: if mask & 0x01 != 0 {
            1
        } else {
            0
        },
        ..p
    }
}

/// What the emulator has to do outside the PPU after one dot.
pub struct PpuEvents {
    /// The picture is to be drawn (visible scanlines).
    pub render: bool,
    /// A non-maskable interrupt is to be raised (start of vertical blank).
    pub nmi: bool,
}

/// One dot of the frame timing: settings are decoded at dot 0, vertical
/// blank starts on scanline 241, a scanline has 341 dots and the frame 262
/// scanlines.
pub open spec fn ppu_main_next(p: PpuState) -> PpuState {
    let a = if p.cycle == 0 {
        reg_config_next(PpuState { oamdma_done: false, ..p })
    } else {
        p
    };
    let b = if a.scanline == 241 {
        PpuState { ppustatus: a.ppustatus | 0x80, ..a }
    } else {
        a
    };
    let cycle = (b.cycle + 1) as u16;
    let scanline = if cycle % 341 == 0 {
        (b.scanline + 1) as u16
    } else {
        b.scanline
    };
    if scanline >= 262 {
        PpuState { ppustatus: b.ppustatus & !0x80u8, cycle: 0, scanline: 0, ..b }
    } else {
        PpuState { cycle: cycle, scanline: scanline, ..b }
    }
}

pub open spec fn ppu_main_events(p: PpuState) -> PpuEvents {
    let a = if p.cycle == 0 {
        reg_config_next(PpuState { oamdma_done: false, ..p })
    } else {
        p
    };
    PpuEvents { render: a.scanline < 241, nmi: a.scanline == 241 && a.nmi_gen }
}

// ---------------------------------------------------------------------------
// Palette tables per scanline
// ---------------------------------------------------------------------------

/// The first position from `i` on whose scanline lies below `scanline`.
pub open spec fn first_after(indexes: Seq<usize>, scanline: usize, i: int) -> int
    decreases indexes.len() - i,
{
    if i >= indexes.len() || i < 0 {
        indexes.len() as int
    } else if indexes[i] > scanline {
        i
    } else {
        first_after(indexes, scanline, i + 1)
    }
}

/// The palette table in force on `scanline`: the last one recorded at or
/// before it (the first one if none is), or palette RAM if none was recorded.
pub open spec fn palette_table_index(indexes: Seq<usize>, scanline: usize) -> int {
    let n = first_after(indexes, scanline, 0);
    if n == 0 {
        0
    } else {
        n - 1
    }
}

impl PPU {
    pub fn new() -> (r: Self)
        ensures
            ppu_initial(r@),
    {
        let r = PPU {
            ppuctrl: REG_PPUCTRL_BIT_MASTER_SLAVE_SELECT,
            ppumask: 0,
            ppustatus: 0,
            oamaddr: 0,
            oamdata: 0,
            ppuscroll: 0,
            ppuaddr: 0,
            ppudata: 0,
            oamdma_run: false,
            oamdma_done: false,
            oam: [0; 0x100],
            pram: [0; 0x20],
            render_data: RenderData::new(),
            sprite_prefetch_buf: [0; 16],
            nmi_gen: false,
            master_slave: 0,
            cycle: 0,
            vram: [0; 2048],
            vram_addr_inc: VRAM_INCREMENT_1,
            vram_addr_write: 0,
            vram_addr: 0x2000,
            scroll_x: 0,
            scroll_y: 0,
            scroll_write: 0,
            sprite_size: SPRITE_SIZE_8X8,
            bg_pattern_tbl: CHR_ROM_BG_PATTERN_TABLE_0,
            sprite_pattern_tbl: CHR_ROM_SPRITE_PATTERN_TABLE_0,
            name_table: NAME_TABLE_0,
            bg_color: BG_COLOR_BLACK,
            sprite_enable: false,
            bg_enable: false,
            sprite_left_enable: false,
            bg_left_enable: false,
            grayscale: GRAYSCALE_COLOR,
            scanline: 0,
            scanline_palette_indexes: Vec::new(),
            scanline_palette_tables: Vec::new(),
            freme: Frame::new(),
        };
        assert(r.oam@ =~= Seq::new(0x100, |i: int| 0u8));
        assert(r.pram@ =~= Seq::new(0x20, |i: int| 0u8));
        assert(r.sprite_prefetch_buf@ =~= Seq::new(16, |i: int| 0u8));
        assert(r.vram@ =~= Seq::new(2048, |i: int| 0u8));
        r
    }

    fn mem_read(&self, addr: u16) -> (r: u8)
        requires
            ppu_mem_ok(addr),
        ensures
            r == ppu_mem_read(self@, addr),
    {
        if addr <= 0x27FF {
            self.vram[(addr - 0x2000) as usize]
        } else if addr <= 0x37FF {
            self.vram[(addr - 0x3000) as usize]
        } else if addr <= 0x3FFF {
            self.pram[((addr - 0x3F00) % 0x20) as usize]
        } else {
            self.oam[(addr - 0x4000) as usize]
        }
    }

    fn mem_write(&mut self, addr: u16, data: u8)
        requires
            ppu_mem_ok(addr),
        ensures
            final(self)@ == ppu_mem_write(old(self)@, addr, data),
    {
        if addr <= 0x27FF {
            self.vram[(addr - 0x2000) as usize] = data;
        } else if addr <= 0x37FF {
            self.vram[(addr - 0x3000) as usize] = data;
        } else if addr <= 0x3FFF {
            self.pram[((addr - 0x3F00) % 0x20) as usize] = data;
        } else {
            self.oam[(addr - 0x4000) as usize] = data;
        }
    }

    fn advance_vram_addr(&mut self)
        ensures
            final(self)@ == vram_addr_step(old(self)@),
    {
        self.vram_addr = self.vram_addr.wrapping_add(self.vram_addr_inc as u16);
        let a = self.vram_addr;
        assert((a & 0x00FF) as u8 == (a % 256) as u8) by (bit_vector);
        self.ppuaddr = (self.vram_addr & 0x00FF) as u8;
    }

    fn ppu_reg_read(&mut self, address: u16) -> (r: u8)
        requires
            ppu_reg_ok(old(self)@, address, false),
        ensures
            r == ppu_reg_read_value(old(self)@, address),
            final(self)@ == ppu_reg_read_next(old(self)@, address),
    {
        if address == PPU_REG_PPUCTRL {
            self.ppuctrl
        } else if address == PPU_REG_PPUMASK {
            self.ppumask
        } else if address == PPU_REG_PPUSTATUS {
            self.ppustatus
        } else if address == PPU_REG_OAMADDR {
            self.oamaddr
        } else if address == PPU_REG_OAMDATA {
            self.oamdata
        } else if address == PPU_REG_PPUSCROLL {
            self.ppuscroll
        } else if address == PPU_REG_PPUADDR {
            self.ppuaddr
        } else {
            let a = self.vram_addr;
            self.ppudata = self.mem_read(a);
            self.advance_vram_addr();
            self.ppudata
        }
    }

    fn ppu_reg_write(&mut self, address: u16, data: u8)
        requires
            ppu_reg_ok(old(self)@, address, true),
        ensures
            final(self)@ == ppu_reg_write_next(old(self)@, address, data),
    {
        if address == PPU_REG_PPUCTRL {
            self.ppuctrl = data | REG_PPUCTRL_BIT_MASTER_SLAVE_SELECT;
        } else if address == PPU_REG_PPUMASK {
            self.ppumask = data;
        } else if address == PPU_REG_PPUSTATUS {
            self.ppustatus = data;
        } else if address == PPU_REG_OAMADDR {
            self.oamaddr = data;
        } else if address == PPU_REG_OAMDATA {
            self.oamdata = data;
            self.oam[self.oamaddr as usize] = data;
            self.oamaddr = self.oamaddr.wrapping_add(1);
        } else if address == PPU_REG_PPUSCROLL {
            self.ppuscroll = data;
            if self.scroll_write == 0 {
                self.scroll_x = data;
                self.scroll_write += 1;
            } else {
                self.scroll_y = data;
                self.scroll_write = 0;
            }
        } else if address == PPU_REG_PPUADDR {
            self.ppuaddr = data;
            if self.vram_addr_write == 0 {
                let d = self.ppuaddr as u16;
                assert(d << 8u16 == d * 256) by (bit_vector)
                    requires
                        d < 256,
                ;
                self.vram_addr = d << 8;
                self.vram_addr_write += 1;
            } else {
                self.vram_addr |= self.ppuaddr as u16;
                self.vram_addr_write = 0;
            }
        } else {
            self.ppudata = data;
            let a = self.vram_addr;
            self.mem_write(a, data);
            self.advance_vram_addr();
        }
    }

    /// Register access: `PPU_REG_WRITE` writes `data` to the register and
    /// answers 0; any other `wr` reads the register.
    pub fn ppu_reg_ctrl(&mut self, addr: u16, wr: u8, data: u8) -> (r: u8)
        requires
            ppu_reg_ok(old(self)@, addr, wr == PPU_REG_WRITE),
        ensures
            wr == PPU_REG_WRITE ==> r == 0 && final(self)@ == ppu_reg_write_next(
                old(self)@,
                addr,
                data,
            ),
            wr != PPU_REG_WRITE ==> r == ppu_reg_read_value(old(self)@, addr) && final(self)@
                == ppu_reg_read_next(old(self)@, addr),
    {
        if wr == PPU_REG_WRITE {
            self.ppu_reg_write(addr, data);
            0
        } else {
            self.ppu_reg_read(addr)
        }
    }

    /// Writes one byte of OAM, as a sprite DMA transfer does.
    pub fn oam_write(&mut self, index: u8, data: u8)
        ensures
            final(self)@ == (PpuState { oam: old(self)@.oam.update(index as int, data), ..old(self)@ }),
    {
        self.oam[index as usize] = data;
    }

    /// The palette table in force on `scanline`.
    pub fn read_palette_table(&self, scanline: usize) -> (r: &[u8; 32])
        requires
            self@.scanline_palette_indexes.len() > 0 ==> palette_table_index(
                self@.scanline_palette_indexes,
                scanline,
            ) < self@.scanline_palette_tables.len(),
        ensures
            r@ == (if self@.scanline_palette_indexes.len() == 0 {
                self@.pram
            } else {
                self@.scanline_palette_tables[palette_table_index(
                    self@.scanline_palette_indexes,
                    scanline,
                )]@
            }),
    {
        if self.scanline_palette_indexes.len() == 0 {
            return &self.pram;
        }
        let mut index: usize = 0;
        let mut i: usize = 0;
        while i < self.scanline_palette_indexes.len() && self.scanline_palette_indexes[i] <= scanline
            invariant
                i <= self.scanline_palette_indexes.len(),
                self.scanline_palette_indexes.len() > 0,
                first_after(self.scanline_palette_indexes@, scanline, 0) == first_after(
                    self.scanline_palette_indexes@,
                    scanline,
                    i as int,
                ),
                index == (if i == 0 {
                    0
                } else {
                    i - 1
                }),
            decreases self.scanline_palette_indexes.len() - i,
        {
            index = i;
            i += 1;
        }
        assert(first_after(self.scanline_palette_indexes@, scanline, i as int) == i);
        &self.scanline_palette_tables[index]
    }

    /// Decodes PPUCTRL and PPUMASK into the settings used for drawing.
    fn get_reg_config(&mut self)
        ensures
            final(self)@ == reg_config_next(old(self)@),
    {
        let ctrl = self.ppuctrl;
        let mask = self.ppumask;
        self.nmi_gen = (ctrl & REG_PPUCTRL_BIT_GENERATE_NMI) != 0;
        self.master_slave = if (ctrl & REG_PPUCTRL_BIT_MASTER_SLAVE_SELECT) != 0 {
            1
        } else {
            0
        };
        if (ctrl & REG_PPUCTRL_BIT_SPRITE_SIZE) != 0 {
            self.sprite_size = SPRITE_SIZE_8X16;
        } else {
            self.sprite_size = SPRITE_SIZE_8X8;
        }
        self.bg_pattern_tbl = if (ctrl & REG_PPUCTRL_BIT_BACKROUND_PATTERN_ADDR) != 0 {
            CHR_ROM_BG_PATTERN_TABLE_1
        } else {
            CHR_ROM_BG_PATTERN_TABLE_0
        };
        self.sprite_pattern_tbl = if (ctrl & REG_PPUCTRL_BIT_SPRITE_PATTERN_ADDR) != 0 {
            CHR_ROM_SPRITE_PATTERN_TABLE_1
        } else {
            CHR_ROM_SPRITE_PATTERN_TABLE_0
        };
        self.vram_addr_inc = if (ctrl & REG_PPUCTRL_BIT_VRAM_ADD_INCREMENT) != 0 {
            VRAM_INCREMENT_32
        } else {
            VRAM_INCREMENT_1
        };
        let name_tbl_bit: u8 = ctrl & REG_PPUCTRL_BIT_NAMETABLE;
        self.name_table = if name_tbl_bit == 3 {
            NAME_TABLE_3
        } else if name_tbl_bit == 2 {
            NAME_TABLE_2
        } else if name_tbl_bit == 1 {
            NAME_TABLE_1
        } else {
            NAME_TABLE_0
        };
        let bg_color: u8 = (mask & REG_PPUMASK_BIT_BG_COLOR) >> 5;
        self.bg_color = if bg_color == BG_COLOR_RED {
            BG_COLOR_RED
        } else if bg_color == BG_COLOR_GREEN {
            BG_COLOR_GREEN
        } else if bg_color == BG_COLOR_BLUE {
            BG_COLOR_BLUE
        } else {
            BG_COLOR_BLACK
        };
        self.sprite_enable = (mask & REG_PPUMASK_BIT_SPRITE_ENABLE) != 0;
        self.bg_enable = (mask & REG_PPUMASK_BIT_BACKGROUND_ENABLE) != 0;
        self.sprite_left_enable = (mask & REG_PPUMASK_BIT_SPRITE_LEFT_COLUMN) != 0;
        self.bg_left_enable = (mask & REG_PPUMASK_BIT_BACKGROUND_LEFT_COLUMN) != 0;
        self.grayscale = if (mask & REG_PPUMASK_BIT_GRAYSCALE) != GRAYSCALE_COLOR {
            GRAYSCALE_MONOCHRO
        } else {
            GRAYSCALE_COLOR
        };
    }
}

/// Starts a frame: dot and scanline 0, vertical blank flag set.
pub fn ppu_reset(ppu: &mut PPU)
    ensures
        final(ppu)@ == (PpuState {
            cycle: 0,
            scanline: 0,
            ppustatus: old(ppu)@.ppustatus | 0x80,
            ..old(ppu)@
        }),
{
    ppu.cycle = 0;
    ppu.scanline = 0;
    ppu.ppustatus |= REG_PPUSTATUS_BIT_VBLANK;
}

/// PPU dots per CPU cycle: the PPU runs on the master clock divided by 4,
/// the CPU on the master clock divided by 12.
pub const DOTS_PER_CPU_CYCLE: usize = 3;

/// The dot counter and the scanline counter can advance without overflow.
pub open spec fn ppu_main_ok(p: PpuState) -> bool {
    &&& p.cycle < 0xFFFF
    &&& (p.cycle + 1) % 341 == 0 ==> p.scanline < 0xFFFF
}

/// Whether `ppu_main` can run one dot without a counter overflowing.
pub fn ppu_main_check(ppu: &PPU) -> (r: bool)
    ensures
        r == ppu_main_ok(ppu@),
{
    ppu.cycle < 0xFFFF && ((ppu.cycle + 1) % 341 != 0 || ppu.scanline < 0xFFFF)
}

/// One dot of the PPU.  The caller draws the picture and raises the NMI as
/// the returned events say.
#[verifier::rlimit(50)]
pub fn ppu_main(ppu: &mut PPU) -> (r: PpuEvents)
    requires
        ppu_main_ok(old(ppu)@),
    ensures
        final(ppu)@ == ppu_main_next(old(ppu)@),
        r == ppu_main_events(old(ppu)@),
{
    if ppu.cycle == 0 {
        ppu.oamdma_done = false;
        ppu.get_reg_config();
    }
    let events = PpuEvents { render: ppu.scanline < 241, nmi: ppu.scanline == 241 && ppu.nmi_gen };
    if ppu.scanline == 241 {
        ppu.ppustatus |= REG_PPUSTATUS_BIT_VBLANK;
    }
    ppu.cycle += 1;
    if (ppu.cycle % 341) == 0 {
        ppu.scanline += 1;
    }
    if ppu.scanline >= 262 {
        ppu.ppustatus &= !REG_PPUSTATUS_BIT_VBLANK;
        ppu.cycle = 0;
        ppu.scanline = 0;
    }
    events
}

// ===========================================================================
// Drawing
// ===========================================================================

/// The system palette: red, green and blue of each of the 64 colours.
pub const COLOR_PALLETE: [u8; 192] = [
    0x80, 0x80, 0x80, 0x00, 0x3D, 0xA6, 0x00, 0x12, 0xB0, 0x44, 0x00, 0x96,
    0xA1, 0x00, 0x5E, 0xC7, 0x00, 0x28, 0xBA, 0x06, 0x00, 0x8C, 0x17, 0x00,
    0x5C, 0x2F, 0x00, 0x10, 0x45, 0x00, 0x05, 0x4A, 0x00, 0x00, 0x47, 0x2E,
    0x00, 0x41, 0x66, 0x00, 0x00, 0x00, 0x05, 0x05, 0x05, 0x05, 0x05, 0x05,
    0xC7, 0xC7, 0xC7, 0x00, 0x77, 0xFF, 0x21, 0x55, 0xFF, 0x82, 0x37, 0xFA,
    0xEB, 0x2F, 0xB5, 0xFF, 0x29, 0x50, 0xFF, 0x22, 0x00, 0xD6, 0x32, 0x00,
    0xC4, 0x62, 0x00, 0x35, 0x80, 0x00, 0x05, 0x8F, 0x00, 0x00, 0x8A, 0x55,
    0x00, 0x99, 0xCC, 0x21, 0x21, 0x21, 0x09, 0x09, 0x09, 0x09, 0x09, 0x09,
    0xFF, 0xFF, 0xFF, 0x0F, 0xD7, 0xFF, 0x69, 0xA2, 0xFF, 0xD4, 0x80, 0xFF,
    0xFF, 0x45, 0xF3, 0xFF, 0x61, 0x8B, 0xFF, 0x88, 0x33, 0xFF, 0x9C, 0x12,
    0xFA, 0xBC, 0x20, 0x9F, 0xE3, 0x0E, 0x2B, 0xF0, 0x35, 0x0C, 0xF0, 0xA4,
    0x05, 0xFB, 0xFF, 0x5E, 0x5E, 0x5E, 0x0D, 0x0D, 0x0D, 0x0D, 0x0D, 0x0D,
    0xFF, 0xFF, 0xFF, 0xA6, 0xFC, 0xFF, 0xB3, 0xEC, 0xFF, 0xDA, 0xAB, 0xEB,
    0xFF, 0xA8, 0xF9, 0xFF, 0xAB, 0xB3, 0xFF, 0xD2, 0xB0, 0xFF, 0xEF, 0xA6,
    0xFF, 0xF7, 0x9C, 0xD7, 0xE8, 0x95, 0xA6, 0xED, 0xAF, 0xA2, 0xF2, 0xDA,
    0x99, 0xFF, 0xFC, 0xDD, 0xDD, 0xDD, 0x11, 0x11, 0x11, 0x11, 0x11, 0x11,
];

/// The colour with index `k` of the system palette.
pub open spec fn color_of(k: u8) -> (u8, u8, u8) {
    (COLOR_PALLETE@[3 * k], COLOR_PALLETE@[3 * k + 1], COLOR_PALLETE@[3 * k + 2])
}

fn color(k: u8) -> (r: (u8, u8, u8))
    requires
        k < 64,
    ensures
        r == color_of(k),
{
    let i = k as usize * 3;
    (COLOR_PALLETE[i], COLOR_PALLETE[i + 1], COLOR_PALLETE[i + 2])
}

/// The palette in force on `scanline`.
pub open spec fn palette_at(p: PpuState, scanline: usize) -> Seq<u8> {
    if p.scanline_palette_indexes.len() == 0 {
        p.pram
    } else {
        p.scanline_palette_tables[palette_table_index(p.scanline_palette_indexes, scanline)]@
    }
}

/// A palette lookup for `scanline` that does not fault.
pub open spec fn palette_at_ok(p: PpuState, scanline: usize) -> bool {
    p.scanline_palette_indexes.len() > 0 ==> palette_table_index(
        p.scanline_palette_indexes,
        scanline,
    ) < p.scanline_palette_tables.len()
}

/// The colour of a pattern pixel: bit `c` of the high plane and of the low
/// plane of the row.
pub open spec fn pixel_bits(lo: u8, hi: u8, c: u8) -> u8 {
    ((1 & (hi >> c)) << 1u8) | (1 & (lo >> c))
}

/// The two attribute bits of the tile at (`col`, `row`) of the name table
/// that starts at `half` in VRAM: each attribute byte covers 4x4 tiles, two
/// bits for each 2x2 quarter.
pub open spec fn attribute_bits(p: PpuState, half: int, col: int, row: int) -> u8 {
    let b = p.vram[half + 0x3C0 + row / 4 * 8 + col / 4];
    let qc = col % 4 / 2;
    let qr = row % 4 / 2;
    if qc == 0 && qr == 0 {
        b & 0x03
    } else if qc == 1 && qr == 0 {
        (b >> 2u8) & 0x03
    } else if qc == 0 && qr == 1 {
        (b >> 4u8) & 0x03
    } else {
        (b >> 6u8) & 0x03
    }
}

/// The four colours of a background tile: the backdrop and the three
/// colours of the palette its attribute bits select.
pub open spec fn bg_palette(p: PpuState, half: int, col: int, row: int) -> Seq<u8> {
    let t = palette_at(p, (row * 8) as usize);
    let start = 1 + attribute_bits(p, half, col, row) * 4;
    seq![t[0], t[start], t[start + 1], t[start + 2]]
}

/// The part of the picture a name table is drawn to, and how far it is moved.
pub struct Viewport {
    pub x1: int,
    pub y1: int,
    pub x2: int,
    pub y2: int,
    pub shift_x: int,
    pub shift_y: int,
}

/// Offset of the pattern of background tile `i` in CHR memory.
pub open spec fn bg_tile_base(p: PpuState, half: int, i: int) -> int {
    p.bg_pattern_tbl + p.vram[half + i] * 16
}

/// Pixel `c` (counted from the right) of row `y` of background tile `i`.
pub open spec fn bg_pixel(
    data: Seq<u8>,
    p: PpuState,
    chr: Seq<u8>,
    half: int,
    vp: Viewport,
    i: int,
    y: int,
    c: int,
) -> Seq<u8> {
    let col = i % 32;
    let row = i / 32;
    let base = bg_tile_base(p, half, i);
    let v = pixel_bits(chr[base + y], chr[base + y + 8], c as u8);
    let rgb = color_of(bg_palette(p, half, col, row)[v as int]);
    let px = col * 8 + (7 - c);
    let py = row * 8 + y;
    if vp.x1 <= px < vp.x2 && vp.y1 <= py < vp.y2 {
        set_pixel_data(data, vp.shift_x + px, vp.shift_y + py, rgb)
    } else {
        data
    }
}

/// The first `n` pixels of row `y` of background tile `i`, right to left.
pub open spec fn bg_row(
    data: Seq<u8>,
    p: PpuState,
    chr: Seq<u8>,
    half: int,
    vp: Viewport,
    i: int,
    y: int,
    n: int,
) -> Seq<u8>
    decreases n,
{
    if n <= 0 {
        data
    } else {
        bg_pixel(bg_row(data, p, chr, half, vp, i, y, n - 1), p, chr, half, vp, i, y, n - 1)
    }
}

/// The first `n` rows of background tile `i`.
pub open spec fn bg_tile(
    data: Seq<u8>,
    p: PpuState,
    chr: Seq<u8>,
    half: int,
    vp: Viewport,
    i: int,
    n: int,
) -> Seq<u8>
    decreases n,
{
    if n <= 0 {
        data
    } else {
        bg_row(bg_tile(data, p, chr, half, vp, i, n - 1), p, chr, half, vp, i, n - 1, 8)
    }
}

/// The first `n` tiles of the name table, row by row.
pub open spec fn bg_tiles(
    data: Seq<u8>,
    p: PpuState,
    chr: Seq<u8>,
    half: int,
    vp: Viewport,
    n: int,
) -> Seq<u8>
    decreases n,
{
    if n <= 0 {
        data
    } else {
        bg_tile(bg_tiles(data, p, chr, half, vp, n - 1), p, chr, half, vp, n - 1, 8)
    }
}

/// Background tile `i` can be drawn: its pattern lies in CHR memory, its
/// palette can be looked up, and every colour it uses is a system colour.
pub open spec fn bg_tile_ok(p: PpuState, chr: Seq<u8>, half: int, i: int) -> bool {
    let base = bg_tile_base(p, half, i);
    &&& base + 15 <= 0xFFFF
    &&& base + 15 < chr.len()
    &&& palette_at_ok(p, ((i / 32) * 8) as usize)
    &&& forall|y: int, c: int|
        0 <= y < 8 && 0 <= c < 8 ==> #[trigger] bg_palette(p, half, i % 32, i / 32)[pixel_bits(
            chr[base + y],
            chr[base + y + 8],
            c as u8,
        ) as int] < 64
}

pub open spec fn bg_ok(p: PpuState, chr: Seq<u8>, half: int) -> bool {
    forall|i: int| 0 <= i < 960 ==> #[trigger] bg_tile_ok(p, chr, half, i)
}

/// Offset of the pattern of sprite `s` in CHR memory.
pub open spec fn sprite_tile_base(p: PpuState, s: int) -> int {
    p.sprite_pattern_tbl + p.oam[4 * s + 1] * 16
}

/// Colour `v` (1 to 3) of the palette of sprite `s`.
pub open spec fn sprite_color(p: PpuState, s: int, v: u8) -> u8 {
    let pidx = p.oam[4 * s + 2] & 0x03;
    palette_at(p, p.oam[4 * s] as usize)[0x11 + pidx * 4 + v - 1]
}

/// Pixel `c` (counted from the right) of row `y` of sprite `s`; colour 0 is
/// transparent; bits 6 and 7 of the attributes flip the sprite.
pub open spec fn sprite_pixel(
    data: Seq<u8>,
    p: PpuState,
    chr: Seq<u8>,
    s: int,
    y: int,
    c: int,
) -> Seq<u8> {
    let ty = p.oam[4 * s] as int;
    let attr = p.oam[4 * s + 2];
    let tx = p.oam[4 * s + 3] as int;
    let flip_v = (attr >> 7u8) & 1 == 1;
    let flip_h = (attr >> 6u8) & 1 == 1;
    let base = sprite_tile_base(p, s);
    let v = pixel_bits(chr[base + y], chr[base + y + 8], c as u8);
    let x = 7 - c;
    if v == 0 {
        data
    } else {
        let qx = if flip_h {
            tx + 7 - x
        } else {
            tx + x
        };
        let qy = if flip_v {
            ty + 7 - y
        } else {
            ty + y
        };
        set_pixel_data(data, qx, qy, color_of(sprite_color(p, s, v)))
    }
}

pub open spec fn sprite_row(
    data: Seq<u8>,
    p: PpuState,
    chr: Seq<u8>,
    s: int,
    y: int,
    n: int,
) -> Seq<u8>
    decreases n,
{
    if n <= 0 {
        data
    } else {
        sprite_pixel(sprite_row(data, p, chr, s, y, n - 1), p, chr, s, y, n - 1)
    }
}

pub open spec fn sprite_tile(data: Seq<u8>, p: PpuState, chr: Seq<u8>, s: int, n: int) -> Seq<u8>
    decreases n,
{
    if n <= 0 {
        data
    } else {
        sprite_row(sprite_tile(data, p, chr, s, n - 1), p, chr, s, n - 1, 8)
    }
}

/// The first `n` sprites drawn, from sprite 63 down to sprite 0, so that
/// sprite 0 ends on top.
pub open spec fn sprites(data: Seq<u8>, p: PpuState, chr: Seq<u8>, n: int) -> Seq<u8>
    decreases n,
{
    if n <= 0 {
        data
    } else {
        sprite_tile(sprites(data, p, chr, n - 1), p, chr, 63 - (n - 1), 8)
    }
}

pub open spec fn sprite_ok(p: PpuState, chr: Seq<u8>, s: int) -> bool {
    let base = sprite_tile_base(p, s);
    &&& base + 15 <= 0xFFFF
    &&& base + 15 < chr.len()
    &&& palette_at_ok(p, p.oam[4 * s] as usize)
    &&& forall|y: int, c: int|
        0 <= y < 8 && 0 <= c < 8 && #[trigger] pixel_bits(chr[base + y], chr[base + y + 8], c as u8)
            != 0 ==> sprite_color(p, s, pixel_bits(chr[base + y], chr[base + y + 8], c as u8))
            < 64
}

/// Where in VRAM the main and the second name table start, for the
/// mirroring and the base name table; `None` where no drawing is defined.
pub open spec fn name_table_halves(mirroring: Mirroring, name_table: u16) -> Option<(int, int)> {
    match mirroring {
        Mirroring::VERTICAL => if name_table == 0x2000 || name_table == 0x2800 {
            Some((0, 0x400))
        } else if name_table == 0x2400 || name_table == 0x2C00 {
            Some((0x400, 0))
        } else {
            None
        },
        Mirroring::HORIZONTAL => if name_table == 0x2000 || name_table == 0x2400 {
            Some((0, 0x400))
        } else if name_table == 0x2800 || name_table == 0x2C00 {
            Some((0x400, 0))
        } else {
            None
        },
        _ => None,
    }
}

/// The background: the main name table scrolled by (x, y), the second one
/// filling the rest.
pub open spec fn background_picture(
    p: PpuState,
    chr: Seq<u8>,
    halves: (int, int),
    data: Seq<u8>,
) -> Seq<u8> {
    let sx = p.scroll_x as int;
    let sy = p.scroll_y as int;
    let (main, second) = halves;
    let d1 = bg_tiles(
        data,
        p,
        chr,
        main,
        Viewport { x1: sx, y1: sy, x2: 256, y2: 240, shift_x: -sx, shift_y: -sy },
        960,
    );
    let d2 = bg_tiles(
        d1,
        p,
        chr,
        second,
        Viewport { x1: 0, y1: 0, x2: sx, y2: sy, shift_x: 256 - sx, shift_y: 240 - sy },
        960,
    );
    let d3 = bg_tiles(
        d2,
        p,
        chr,
        main,
        Viewport { x1: sx, y1: 0, x2: 256, y2: sy, shift_x: -sx, shift_y: 240 - sy },
        960,
    );
    bg_tiles(
        d3,
        p,
        chr,
        second,
        Viewport { x1: 0, y1: sy, x2: sx, y2: 240, shift_x: 256 - sx, shift_y: -sy },
        960,
    )
}

/// The picture: the background, then the sprites on top of it.
pub open spec fn render_picture(p: PpuState, chr: Seq<u8>, halves: (int, int), data: Seq<u8>) -> Seq<u8> {
    sprites(background_picture(p, chr, halves, data), p, chr, 64)
}

/// A rectangle of the picture.
struct Rect {
    x1: usize,
    y1: usize,
    x2: usize,
    y2: usize,
}

impl Rect {
    fn new(x1: usize, y1: usize, x2: usize, y2: usize) -> (r: Self)
        ensures
            r.x1 == x1 && r.y1 == y1 && r.x2 == x2 && r.y2 == y2,
    {
        Rect { x1: x1, y1: y1, x2: x2, y2: y2 }
    }
}

/// The two planes of row `c` shifted right by `c`: the next pixel sits in bit 0.
proof fn lemma_shift_step(b: u8, c: u8)
    requires
        c < 8,
    ensures
        (b >> c) >> 1u8 == b >> ((c + 1) as u8),
        b >> 0u8 == b,
{
    assert((b >> c) >> 1u8 == b >> ((c + 1) as u8) && b >> 0u8 == b) by (bit_vector)
        requires
            c < 8,
    ;
}

proof fn lemma_pixel_bits_small(lo: u8, hi: u8, c: u8)
    ensures
        pixel_bits(lo, hi, c) <= 3,
        ((1 & (hi >> c)) << 1u8) | (1 & (lo >> c)) == pixel_bits(lo, hi, c),
{
    assert(((1 & (hi >> c)) << 1u8) | (1 & (lo >> c)) <= 3) by (bit_vector);
}

/// The four colours of background tile (`col`, `row`).
fn bg_pallette(ppu: &PPU, half: usize, tile_column: usize, tile_row: usize) -> (r: [u8; 4])
    requires
        half == 0 || half == 0x400,
        tile_column < 32,
        tile_row < 30,
        palette_at_ok(ppu@, (tile_row * 8) as usize),
    ensures
        r@ == bg_palette(ppu@, half as int, tile_column as int, tile_row as int),
{
    let attr_table_idx = tile_row / 4 * 8 + tile_column / 4;
    let attr_byte = ppu.vram[half + 0x3C0 + attr_table_idx];
    let qc = tile_column % 4 / 2;
    let qr = tile_row % 4 / 2;
    let pallet_idx = if qc == 0 && qr == 0 {
        attr_byte & 0b11
    } else if qc == 1 && qr == 0 {
        (attr_byte >> 2) & 0b11
    } else if qc == 0 && qr == 1 {
        (attr_byte >> 4) & 0b11
    } else {
        (attr_byte >> 6) & 0b11
    };
    assert(pallet_idx <= 3) by (bit_vector)
        requires
            pallet_idx == attr_byte & 3 || pallet_idx == (attr_byte >> 2u8) & 3 || pallet_idx == (
            attr_byte >> 4u8) & 3 || pallet_idx == (attr_byte >> 6u8) & 3,
    ;
    let pallette_start: usize = 1 + (pallet_idx as usize) * 4;
    let p = ppu.read_palette_table(tile_row * 8);
    let r = [p[0], p[pallette_start], p[pallette_start + 1], p[pallette_start + 2]];
    assert(r@ =~= bg_palette(ppu@, half as int, tile_column as int, tile_row as int));
    r
}

/// The palette of a sprite: colour 0 is transparent.
fn sprite_palette(ppu: &PPU, tile_y: usize, palette_idx: u8) -> (r: [u8; 4])
    requires
        palette_idx <= 3,
        palette_at_ok(ppu@, tile_y),
    ensures
        r[0] == 0,
        forall|v: int|
            1 <= v <= 3 ==> r@[v] == palette_at(ppu@, tile_y)[0x11 + palette_idx * 4 + v - 1],
{
    let start = 0x11 + (palette_idx * 4) as usize;
    let p = ppu.read_palette_table(tile_y);
    [0, p[start], p[start + 1], p[start + 2]]
}

/// Draws the name table at `half` of VRAM into the part `view_port` of the
/// picture, moved by (`shift_x`, `shift_y`).
fn render_name_table(
    ppu: &PPU,
    chr: &Vec<u8>,
    frame: &mut Frame,
    half: usize,
    view_port: Rect,
    shift_x: isize,
    shift_y: isize,
)
    requires
        half == 0 || half == 0x400,
        bg_ok(ppu@, chr@, half as int),
        view_port.x2 <= 256,
        view_port.y2 <= 240,
        -256 <= shift_x <= 256,
        -256 <= shift_y <= 256,
        shift_x + view_port.x1 >= 0,
        shift_y + view_port.y1 >= 0,
    ensures
        final(frame).data@ == bg_tiles(
            old(frame).data@,
            ppu@,
            chr@,
            half as int,
            Viewport {
                x1: view_port.x1 as int,
                y1: view_port.y1 as int,
                x2: view_port.x2 as int,
                y2: view_port.y2 as int,
                shift_x: shift_x as int,
                shift_y: shift_y as int,
            },
            960,
        ),
{
    let ghost vp = Viewport {
        x1: view_port.x1 as int,
        y1: view_port.y1 as int,
        x2: view_port.x2 as int,
        y2: view_port.y2 as int,
        shift_x: shift_x as int,
        shift_y: shift_y as int,
    };
    let ghost init = frame.data@;
    let bank = ppu.bg_pattern_tbl;
    let mut i: usize = 0;
    while i < 0x03C0
        invariant
            i <= 0x03C0,
            half == 0 || half == 0x400,
            bg_ok(ppu@, chr@, half as int),
            bank == ppu@.bg_pattern_tbl,
            vp.x1 == view_port.x1 && vp.y1 == view_port.y1 && vp.x2 == view_port.x2 && vp.y2
                == view_port.y2 && vp.shift_x == shift_x && vp.shift_y == shift_y,
            view_port.x2 <= 256,
            view_port.y2 <= 240,
            -256 <= shift_x <= 256,
            -256 <= shift_y <= 256,
            shift_x + view_port.x1 >= 0,
            shift_y + view_port.y1 >= 0,
            frame.data@ == bg_tiles(init, ppu@, chr@, half as int, vp, i as int),
        decreases 0x03C0 - i,
    {
        assert(bg_tile_ok(ppu@, chr@, half as int, i as int));
        let tile_column = i % 32;
        let tile_row = i / 32;
        let tile_idx = ppu.vram[half + i] as u16;
        let base = (bank + tile_idx * 16) as usize;
        let palette = bg_pallette(ppu, half, tile_column, tile_row);
        let ghost tile_start = frame.data@;
        let mut y: usize = 0;
        while y < 8
            invariant
                y <= 8,
                i < 0x03C0,
                tile_column == i % 32,
                tile_row == i / 32,
                base == bg_tile_base(ppu@, half as int, i as int),
                base + 15 < chr@.len(),
                bg_tile_ok(ppu@, chr@, half as int, i as int),
                palette@ == bg_palette(ppu@, half as int, tile_column as int, tile_row as int),
                vp.x1 == view_port.x1 && vp.y1 == view_port.y1 && vp.x2 == view_port.x2 && vp.y2
                    == view_port.y2 && vp.shift_x == shift_x && vp.shift_y == shift_y,
                view_port.x2 <= 256,
                view_port.y2 <= 240,
                -256 <= shift_x <= 256,
                -256 <= shift_y <= 256,
                shift_x + view_port.x1 >= 0,
                shift_y + view_port.y1 >= 0,
                frame.data@ == bg_tile(tile_start, ppu@, chr@, half as int, vp, i as int, y as int),
            decreases 8 - y,
        {
            let lo = chr[base + y];
            let hi = chr[base + y + 8];
            let mut upper = lo;
            let mut lower = hi;
            proof {
                lemma_shift_step(lo, 0);
                lemma_shift_step(hi, 0);
            }
            let ghost row_start = frame.data@;
            let mut c: usize = 0;
            while c < 8
                invariant
                    c <= 8,
                    y < 8,
                    i < 0x03C0,
                    tile_column == i % 32,
                    tile_row == i / 32,
                    base == bg_tile_base(ppu@, half as int, i as int),
                    base + 15 < chr@.len(),
                    lo == chr@[base + y],
                    hi == chr@[base + y + 8],
                    upper == lo >> (c as u8),
                    lower == hi >> (c as u8),
                    bg_tile_ok(ppu@, chr@, half as int, i as int),
                    palette@ == bg_palette(ppu@, half as int, tile_column as int, tile_row as int),
                    vp.x1 == view_port.x1 && vp.y1 == view_port.y1 && vp.x2 == view_port.x2
                        && vp.y2 == view_port.y2 && vp.shift_x == shift_x && vp.shift_y == shift_y,
                    view_port.x2 <= 256,
                    view_port.y2 <= 240,
                    -256 <= shift_x <= 256,
                    -256 <= shift_y <= 256,
                    shift_x + view_port.x1 >= 0,
                    shift_y + view_port.y1 >= 0,
                    frame.data@ == bg_row(
                        row_start,
                        ppu@,
                        chr@,
                        half as int,
                        vp,
                        i as int,
                        y as int,
                        c as int,
                    ),
                decreases 8 - c,
            {
                proof {
                    lemma_pixel_bits_small(lo, hi, c as u8);
                    lemma_shift_step(lo, c as u8);
                    lemma_shift_step(hi, c as u8);
                }
                let value = ((1 & lower) << 1) | (1 & upper);
                upper = upper >> 1;
                lower = lower >> 1;
                let rgb = color(palette[value as usize]);
                let pixel_x = tile_column * 8 + (7 - c);
                let pixel_y = tile_row * 8 + y;
                if pixel_x >= view_port.x1 && pixel_x < view_port.x2 && pixel_y >= view_port.y1
                    && pixel_y < view_port.y2 {
                    frame.set_pixel(
                        (shift_x + pixel_x as isize) as usize,
                        (shift_y + pixel_y as isize) as usize,
                        rgb,
                    );
                }
                c += 1;
            }
            y += 1;
        }
        i += 1;
    }
}

/// Draws the background and the sprites into `frame`.  The pattern tables
/// are read from `chr_rom`; `mirroring` tells how the two name tables in
/// VRAM are arranged.
pub fn render(ppu: &PPU, chr_rom: &Vec<u8>, mirroring: Mirroring, frame: &mut Frame)
    requires
        name_table_halves(mirroring, ppu@.name_table) is Some,
        ppu@.scroll_y <= 240,
        bg_ok(ppu@, chr_rom@, 0),
        bg_ok(ppu@, chr_rom@, 0x400),
        forall|s: int| 0 <= s < 64 ==> #[trigger] sprite_ok(ppu@, chr_rom@, s),
    ensures
        final(frame).data@ == render_picture(
            ppu@,
            chr_rom@,
            name_table_halves(mirroring, ppu@.name_table)->Some_0,
            old(frame).data@,
        ),
{
    let scroll_x = ppu.scroll_x as usize;
    let scroll_y = ppu.scroll_y as usize;
    let nt = ppu.name_table;
    let (main_name_table, second_name_table): (usize, usize) = match mirroring {
        Mirroring::VERTICAL => if nt == 0x2000 || nt == 0x2800 {
            (0, 0x400)
        } else {
            (0x400, 0)
        },
        Mirroring::HORIZONTAL => if nt == 0x2000 || nt == 0x2400 {
            (0, 0x400)
        } else {
            (0x400, 0)
        },
        _ => (0, 0x400),
    };

    // top left
    render_name_table(
        ppu,
        chr_rom,
        frame,
        main_name_table,
        Rect::new(scroll_x, scroll_y, SCREEN_WIDTH, SCREEN_HEIGHT),
        -(scroll_x as isize),
        -(scroll_y as isize),
    );
    // bottom right
    render_name_table(
        ppu,
        chr_rom,
        frame,
        second_name_table,
        Rect::new(0, 0, scroll_x, scroll_y),
        (SCREEN_WIDTH - scroll_x) as isize,
        (SCREEN_HEIGHT - scroll_y) as isize,
    );
    // bottom left
    render_name_table(
        ppu,
        chr_rom,
        frame,
        main_name_table,
        Rect::new(scroll_x, 0, SCREEN_WIDTH, scroll_y),
        -(scroll_x as isize),
        (SCREEN_HEIGHT - scroll_y) as isize,
    );
    // top right
    render_name_table(
        ppu,
        chr_rom,
        frame,
        second_name_table,
        Rect::new(0, scroll_y, scroll_x, SCREEN_HEIGHT),
        (SCREEN_WIDTH - scroll_x) as isize,
        -(scroll_y as isize),
    );

    render_sprites(ppu, chr_rom, frame);
}

/// Draws the 64 sprites, sprite 63 first.
fn render_sprites(ppu: &PPU, chr: &Vec<u8>, frame: &mut Frame)
    requires
        forall|s: int| 0 <= s < 64 ==> #[trigger] sprite_ok(ppu@, chr@, s),
    ensures
        final(frame).data@ == sprites(old(frame).data@, ppu@, chr@, 64),
{
    let ghost init = frame.data@;
    let bank: u16 = ppu.sprite_pattern_tbl;
    let mut n: usize = 0;
    while n < 64
        invariant
            n <= 64,
            bank == ppu@.sprite_pattern_tbl,
            forall|s: int| 0 <= s < 64 ==> #[trigger] sprite_ok(ppu@, chr@, s),
            frame.data@ == sprites(init, ppu@, chr@, n as int),
        decreases 64 - n,
    {
        let i = 252 - 4 * n;
        let ghost s = 63 - n as int;
        assert(sprite_ok(ppu@, chr@, s));
        let tile_y = ppu.oam[i] as usize;
        let tile_idx = ppu.oam[i + 1] as u16;
        let attr = ppu.oam[i + 2];
        let tile_x = ppu.oam[i + 3] as usize;

        let flip_vertical = (attr >> 7 & 1) == 1;
        let flip_horizontal = (attr >> 6 & 1) == 1;
        let palette_idx = attr & 0b11;
        assert(palette_idx <= 3) by (bit_vector)
            requires
                palette_idx == attr & 3,
        ;
        let sprite_palette = sprite_palette(ppu, tile_y, palette_idx);
        let base = (bank + tile_idx * 16) as usize;
        let ghost tile_start = frame.data@;
        let mut y: usize = 0;
        while y < 8
            invariant
                y <= 8,
                n < 64,
                i == 4 * s,
                0 <= s < 64,
                tile_y == ppu@.oam[4 * s],
                tile_x == ppu@.oam[4 * s + 3],
                attr == ppu@.oam[4 * s + 2],
                flip_vertical == ((attr >> 7u8) & 1 == 1),
                flip_horizontal == ((attr >> 6u8) & 1 == 1),
                palette_idx == attr & 3,
                sprite_palette[0] == 0,
                forall|v: int|
                    1 <= v <= 3 ==> sprite_palette@[v] == palette_at(ppu@, tile_y)[0x11
                        + palette_idx * 4 + v - 1],
                base == sprite_tile_base(ppu@, s),
                sprite_ok(ppu@, chr@, s),
                frame.data@ == sprite_tile(tile_start, ppu@, chr@, s, y as int),
            decreases 8 - y,
        {
            let lo = chr[base + y];
            let hi = chr[base + y + 8];
            let mut upper = lo;
            let mut lower = hi;
            proof {
                lemma_shift_step(lo, 0);
                lemma_shift_step(hi, 0);
            }
            let ghost row_start = frame.data@;
            let mut c: usize = 0;
            while c < 8
                invariant
                    c <= 8,
                    y < 8,
                    0 <= s < 64,
                    tile_y == ppu@.oam[4 * s],
                    tile_x == ppu@.oam[4 * s + 3],
                    attr == ppu@.oam[4 * s + 2],
                    flip_vertical == ((attr >> 7u8) & 1 == 1),
                    flip_horizontal == ((attr >> 6u8) & 1 == 1),
                    palette_idx == attr & 3,
                    sprite_palette[0] == 0,
                    forall|v: int|
                        1 <= v <= 3 ==> sprite_palette@[v] == palette_at(ppu@, tile_y)[0x11
                            + palette_idx * 4 + v - 1],
                    base == sprite_tile_base(ppu@, s),
                    sprite_ok(ppu@, chr@, s),
                    lo == chr@[base + y],
                    hi == chr@[base + y + 8],
                    upper == lo >> (c as u8),
                    lower == hi >> (c as u8),
                    frame.data@ == sprite_row(row_start, ppu@, chr@, s, y as int, c as int),
                decreases 8 - c,
            {
                proof {
                    lemma_pixel_bits_small(lo, hi, c as u8);
                    lemma_shift_step(lo, c as u8);
                    lemma_shift_step(hi, c as u8);
                }
                let value = ((1 & lower) << 1) | (1 & upper);
                upper = upper >> 1;
                lower = lower >> 1;
                let x = 7 - c;
                if value != 0 {
                    let rgb = color(sprite_palette[value as usize]);
                    if !flip_horizontal && !flip_vertical {
                        frame.set_pixel(tile_x + x, tile_y + y, rgb);
                    } else if flip_horizontal && !flip_vertical {
                        frame.set_pixel(tile_x + 7 - x, tile_y + y, rgb);
                    } else if !flip_horizontal && flip_vertical {
                        frame.set_pixel(tile_x + x, tile_y + 7 - y, rgb);
                    } else {
                        frame.set_pixel(tile_x + 7 - x, tile_y + 7 - y, rgb);
                    }
                }
                c += 1;
            }
            y += 1;
        }
        n += 1;
    }
}

/// The colour of pixel `c` (counted from the right) of a pattern row with
/// planes `lo` and `hi`.
fn pixel_value(lo: u8, hi: u8, c: u8) -> (r: u8)
    requires
        c < 8,
    ensures
        r == pixel_bits(lo, hi, c),
        r <= 3,
{
    proof {
        lemma_pixel_bits_small(lo, hi, c);
    }
    ((1 & (hi >> c)) << 1) | (1 & (lo >> c))
}

impl PPU {
    /// Whether the palette in force on `scanline` can be looked up.
    fn palette_at_ok_check(&self, scanline: usize) -> (r: bool)
        ensures
            r == palette_at_ok(self@, scanline),
    {
        if self.scanline_palette_indexes.len() == 0 {
            return true;
        }
        let mut index: usize = 0;
        let mut i: usize = 0;
        while i < self.scanline_palette_indexes.len() && self.scanline_palette_indexes[i] <= scanline
            invariant
                i <= self.scanline_palette_indexes.len(),
                self.scanline_palette_indexes.len() > 0,
                first_after(self.scanline_palette_indexes@, scanline, 0) == first_after(
                    self.scanline_palette_indexes@,
                    scanline,
                    i as int,
                ),
                index == (if i == 0 {
                    0
                } else {
                    i - 1
                }),
            decreases self.scanline_palette_indexes.len() - i,
        {
            index = i;
            i += 1;
        }
        assert(first_after(self.scanline_palette_indexes@, scanline, i as int) == i);
        index < self.scanline_palette_tables.len()
    }
}

/// Whether background tile `i` of the name table at `half` can be drawn.
fn bg_tile_ok_check(ppu: &PPU, chr: &Vec<u8>, half: usize, i: usize) -> (r: bool)
    requires
        half == 0 || half == 0x400,
        i < 960,
    ensures
        r == bg_tile_ok(ppu@, chr@, half as int, i as int),
{
    let base: usize = ppu.bg_pattern_tbl as usize + ppu.vram[half + i] as usize * 16;
    if base + 15 > 0xFFFF || base + 15 >= chr.len() {
        return false;
    }
    let tile_column = i % 32;
    let tile_row = i / 32;
    if !ppu.palette_at_ok_check(tile_row * 8) {
        return false;
    }
    let palette = bg_pallette(ppu, half, tile_column, tile_row);
    let ghost pal = bg_palette(ppu@, half as int, (i % 32) as int, (i / 32) as int);
    let mut y: usize = 0;
    while y < 8
        invariant
            y <= 8,
            i < 960,
            half == 0 || half == 0x400,
            base == bg_tile_base(ppu@, half as int, i as int),
            base + 15 < chr@.len(),
            base + 15 <= 0xFFFF,
            palette@ == pal,
            pal == bg_palette(ppu@, half as int, (i % 32) as int, (i / 32) as int),
            forall|yy: int, cc: int|
                0 <= yy < y && 0 <= cc < 8 ==> #[trigger] pal[pixel_bits(
                    chr@[base + yy],
                    chr@[base + yy + 8],
                    cc as u8,
                ) as int] < 64,
        decreases 8 - y,
    {
        let mut c: u8 = 0;
        while c < 8
            invariant
                c <= 8,
                y < 8,
                i < 960,
                half == 0 || half == 0x400,
                base == bg_tile_base(ppu@, half as int, i as int),
                pal == bg_palette(ppu@, half as int, (i % 32) as int, (i / 32) as int),
                base + 15 < chr@.len(),
                base + 15 <= 0xFFFF,
                palette@ == pal,
                forall|yy: int, cc: int|
                    0 <= yy < y && 0 <= cc < 8 ==> #[trigger] pal[pixel_bits(
                        chr@[base + yy],
                        chr@[base + yy + 8],
                        cc as u8,
                    ) as int] < 64,
                forall|cc: int|
                    0 <= cc < c ==> #[trigger] pal[pixel_bits(
                        chr@[base + y],
                        chr@[base + y + 8],
                        cc as u8,
                    ) as int] < 64,
            decreases 8 - c,
        {
            let v = pixel_value(chr[base + y], chr[base + y + 8], c);
            if palette[v as usize] >= 64 {
                proof {
                    let ii: int = i as int;
                    let hh: int = half as int;
                    let yy: int = y as int;
                    let cc: int = c as int;
                    let b = bg_tile_base(ppu@, hh, ii);
                    assert(bg_palette(ppu@, hh, ii % 32, ii / 32) == pal);
                    assert(b == base);
                    assert(bg_palette(ppu@, hh, ii % 32, ii / 32)[pixel_bits(
                        chr@[b + yy],
                        chr@[b + yy + 8],
                        cc as u8,
                    ) as int] >= 64);
                }
                return false;
            }
            c += 1;
        }
        y += 1;
    }
    true
}

/// Whether every tile of the name table at `half` can be drawn.
fn bg_ok_check(ppu: &PPU, chr: &Vec<u8>, half: usize) -> (r: bool)
    requires
        half == 0 || half == 0x400,
    ensures
        r == bg_ok(ppu@, chr@, half as int),
{
    let mut i: usize = 0;
    while i < 960
        invariant
            i <= 960,
            half == 0 || half == 0x400,
            forall|j: int| 0 <= j < i ==> #[trigger] bg_tile_ok(ppu@, chr@, half as int, j),
        decreases 960 - i,
    {
        if !bg_tile_ok_check(ppu, chr, half, i) {
            return false;
        }
        i += 1;
    }
    true
}

/// Whether sprite `s` can be drawn.
fn sprite_ok_check(ppu: &PPU, chr: &Vec<u8>, s: usize) -> (r: bool)
    requires
        s < 64,
    ensures
        r == sprite_ok(ppu@, chr@, s as int),
{
    let base: usize = ppu.sprite_pattern_tbl as usize + ppu.oam[4 * s + 1] as usize * 16;
    if base + 15 > 0xFFFF || base + 15 >= chr.len() {
        return false;
    }
    let tile_y = ppu.oam[4 * s] as usize;
    if !ppu.palette_at_ok_check(tile_y) {
        return false;
    }
    let attr = ppu.oam[4 * s + 2];
    let palette_idx = attr & 0b11;
    assert(palette_idx <= 3) by (bit_vector)
        requires
            palette_idx == attr & 3,
    ;
    let palette = sprite_palette(ppu, tile_y, palette_idx);
    let mut y: usize = 0;
    while y < 8
        invariant
            y <= 8,
            s < 64,
            base == sprite_tile_base(ppu@, s as int),
            base + 15 < chr@.len(),
            base + 15 <= 0xFFFF,
            tile_y == ppu@.oam[4 * s],
            palette_idx == ppu@.oam[4 * s + 2] & 3,
            forall|v: int|
                1 <= v <= 3 ==> palette@[v] == palette_at(ppu@, tile_y)[0x11 + palette_idx * 4 + v
                    - 1],
            forall|yy: int, cc: int|
                0 <= yy < y && 0 <= cc < 8 && #[trigger] pixel_bits(
                    chr@[base + yy],
                    chr@[base + yy + 8],
                    cc as u8,
                ) != 0 ==> sprite_color(
                    ppu@,
                    s as int,
                    pixel_bits(chr@[base + yy], chr@[base + yy + 8], cc as u8),
                ) < 64,
        decreases 8 - y,
    {
        let mut c: u8 = 0;
        while c < 8
            invariant
                c <= 8,
                y < 8,
                s < 64,
                base == sprite_tile_base(ppu@, s as int),
                base + 15 < chr@.len(),
                base + 15 <= 0xFFFF,
                tile_y == ppu@.oam[4 * s],
                palette_idx == ppu@.oam[4 * s + 2] & 3,
                forall|v: int|
                    1 <= v <= 3 ==> palette@[v] == palette_at(ppu@, tile_y)[0x11 + palette_idx * 4
                        + v - 1],
                forall|yy: int, cc: int|
                    0 <= yy < y && 0 <= cc < 8 && #[trigger] pixel_bits(
                        chr@[base + yy],
                        chr@[base + yy + 8],
                        cc as u8,
                    ) != 0 ==> sprite_color(
                        ppu@,
                        s as int,
                        pixel_bits(chr@[base + yy], chr@[base + yy + 8], cc as u8),
                    ) < 64,
                forall|cc: int|
                    0 <= cc < c && #[trigger] pixel_bits(chr@[base + y], chr@[base + y + 8], cc as u8)
                        != 0 ==> sprite_color(
                        ppu@,
                        s as int,
                        pixel_bits(chr@[base + y], chr@[base + y + 8], cc as u8),
                    ) < 64,
            decreases 8 - c,
        {
            let v = pixel_value(chr[base + y], chr[base + y + 8], c);
            if v != 0 && palette[v as usize] >= 64 {
                assert(palette@[v as int] == palette_at(ppu@, tile_y)[0x11 + palette_idx * 4 + v
                    - 1]);
                proof {
                    let ss: int = s as int;
                    let yy: int = y as int;
                    let cc: int = c as int;
                    let b = sprite_tile_base(ppu@, ss);
                    assert(b == base);
                    let w = pixel_bits(chr@[b + yy], chr@[b + yy + 8], cc as u8);
                    assert(w == v);
                    assert(sprite_color(ppu@, ss, w) >= 64);
                }
                return false;
            }
            c += 1;
        }
        y += 1;
    }
    true
}

/// `render` can draw the picture: the mirroring is one it knows, the
/// vertical scroll lies in the picture, and every tile and sprite can be drawn.
pub open spec fn render_ok(p: PpuState, chr: Seq<u8>, mirroring: Mirroring) -> bool {
    &&& name_table_halves(mirroring, p.name_table) is Some
    &&& p.scroll_y <= 240
    &&& bg_ok(p, chr, 0)
    &&& bg_ok(p, chr, 0x400)
    &&& forall|s: int| 0 <= s < 64 ==> #[trigger] sprite_ok(p, chr, s)
}

/// Draws the picture as `render` does, where it can be drawn; false, and the
/// frame unchanged, where it cannot.
pub fn try_render(ppu: &PPU, chr_rom: &Vec<u8>, mirroring: Mirroring, frame: &mut Frame) -> (r:
    bool)
    ensures
        r == render_ok(ppu@, chr_rom@, mirroring),
        r ==> final(frame).data@ == render_picture(
            ppu@,
            chr_rom@,
            name_table_halves(mirroring, ppu@.name_table)->Some_0,
            old(frame).data@,
        ),
        !r ==> final(frame).data@ == old(frame).data@,
{
    let nt = ppu.name_table;
    let known = match mirroring {
        Mirroring::VERTICAL | Mirroring::HORIZONTAL => nt == 0x2000 || nt == 0x2400 || nt == 0x2800
            || nt == 0x2C00,
        _ => false,
    };
    if !known || ppu.scroll_y > 240 {
        return false;
    }
    if !bg_ok_check(ppu, chr_rom, 0) || !bg_ok_check(ppu, chr_rom, 0x400) {
        return false;
    }
    let mut s: usize = 0;
    while s < 64
        invariant
            s <= 64,
            forall|t: int| 0 <= t < s ==> #[trigger] sprite_ok(ppu@, chr_rom@, t),
        decreases 64 - s,
    {
        if !sprite_ok_check(ppu, chr_rom, s) {
            return false;
        }
        s += 1;
    }
    render(ppu, chr_rom, mirroring, frame);
    true
}

} // verus!
