//! Properties of the PPU registers that hold over sequences of accesses.
use vstd::prelude::*;
use crate::common::lemma_byte_fields;
use crate::isa_laws::two_to;
use crate::ppu::{
    attribute_bits, background_picture, bg_palette, bg_pixel, palette_at, bg_row, bg_tile, bg_tiles, color_of, pixel_bits, render_picture,
    Viewport, pixel_offset, ppu_main_events, ppu_main_next, ppu_mem_ok, ppu_mem_read,
    ppu_mem_write, ppu_reg_read_next, ppu_reg_read_value, ppu_reg_write_next,
    reg_config_next, sprite_color, sprite_pixel, sprite_row, sprite_tile, sprite_tile_base, sprites,
    PpuState,
};

verus! {

/// Two writes to PPUADDR, high byte first, set the VRAM address to the word
/// they form, and leave the latch ready for the next high byte.
pub proof fn law_ppuaddr_high_then_low(p: PpuState, hi: u8, lo: u8)
    requires
        p.vram_addr_write == 0,
    ensures
        ({
            let q = ppu_reg_write_next(ppu_reg_write_next(p, 0x2006, hi), 0x2006, lo);
            &&& q.vram_addr == hi as int * 256 + lo as int
            &&& q.vram_addr_write == 0
        }),
{
    let a = (hi as int * 256) as u16;
    assert(a == hi as int * 256) by {
        assert(hi as int * 256 <= 0xFF00);
    }
    assert((a | (lo as u16)) == a + lo) by (bit_vector)
        requires
            a % 256 == 0,
    ;
}

/// A byte written through PPUDATA is found in PPU memory at the address the
/// write went to, and the address moves on by the increment.
pub proof fn law_ppudata_write_read(p: PpuState, data: u8)
    requires
        ppu_mem_ok(p.vram_addr),
        p.vram.len() == 2048,
        p.pram.len() == 32,
        p.oam.len() == 256,
    ensures
        ({
            let q = ppu_reg_write_next(p, 0x2007, data);
            &&& ppu_mem_read(q, p.vram_addr) == data
            &&& q.vram_addr == (p.vram_addr + p.vram_addr_inc) % 0x10000
        }),
{
}

/// Two writes to PPUSCROLL set the horizontal, then the vertical scroll.
pub proof fn law_ppuscroll_x_then_y(p: PpuState, x: u8, y: u8)
    requires
        p.scroll_write == 0,
    ensures
        ({
            let q = ppu_reg_write_next(ppu_reg_write_next(p, 0x2005, x), 0x2005, y);
            &&& q.scroll_x == x
            &&& q.scroll_y == y
            &&& q.scroll_write == 0
        }),
{
}

/// A write to OAMDATA stores the byte at the OAM address and moves the
/// address on by one.
pub proof fn law_oamdata_write(p: PpuState, data: u8)
    ensures
        ({
            let q = ppu_reg_write_next(p, 0x2004, data);
            &&& q.oam == p.oam.update(p.oamaddr as int, data)
            &&& q.oamaddr == (p.oamaddr + 1) % 256
        }),
{
}

/// PPUCTRL bit 5 selects 8x16 sprites when set and 8x8 sprites when clear.
pub proof fn law_ppuctrl_sprite_size(p: PpuState)
    ensures
        reg_config_next(p).sprite_size == (if p.ppuctrl & 0x20 != 0 {
            1u8
        } else {
            0u8
        }),
{
}

/// The background colour is read from bits 7-5 of PPUMASK: red, green and
/// blue are each one bit of it, any other pattern is black.
pub proof fn law_ppumask_bg_color(p: PpuState)
    ensures
        ({
            let c = reg_config_next(p).bg_color;
            let m = p.ppumask & 0xE0;
            &&& (m == 0x80 <==> c == 4)
            &&& (m == 0x40 <==> c == 2)
            &&& (m == 0x20 <==> c == 1)
            &&& (m != 0x80 && m != 0x40 && m != 0x20 <==> c == 0)
        }),
{
    let mask = p.ppumask;
    assert({
        &&& ((mask & 0xE0) >> 5u8 == 4) == (mask & 0xE0 == 0x80)
        &&& ((mask & 0xE0) >> 5u8 == 2) == (mask & 0xE0 == 0x40)
        &&& ((mask & 0xE0) >> 5u8 == 1) == (mask & 0xE0 == 0x20)
    }) by (bit_vector);
}

// ---------------------------------------------------------------------------
// Sprite priority
// ---------------------------------------------------------------------------

/// The colour of pixel (x, y) of a frame buffer.
pub open spec fn frame_pixel(d: Seq<u8>, x: int, y: int) -> (u8, u8, u8) {
    let o = pixel_offset(x, y);
    (d[o], d[o + 1], d[o + 2])
}

/// The cell (row, bit counted from the right) of the pattern of sprite `s`
/// that lands on frame pixel (x, y), flips taken into account. Sprite `s`
/// covers the 8x8 box at (X, Y) of its attributes; the part of a box that
/// runs past the right edge continues on the next line of the buffer.
pub open spec fn sprite_cell(p: PpuState, s: int, x: int, y: int) -> Option<(int, int)> {
    let ty = p.oam[4 * s] as int;
    let attr = p.oam[4 * s + 2];
    let tx = p.oam[4 * s + 3] as int;
    let flip_v = (attr >> 7u8) & 1 == 1;
    let flip_h = (attr >> 6u8) & 1 == 1;
    let wrapped = x + 256 <= tx + 7;
    let qx = if wrapped { x + 256 } else { x };
    let qy = if wrapped { y - 1 } else { y };
    if tx <= qx <= tx + 7 && ty <= qy <= ty + 7 {
        let col = if flip_h { 7 - (qx - tx) } else { qx - tx };
        let row = if flip_v { 7 - (qy - ty) } else { qy - ty };
        Some((row, 7 - col))
    } else {
        None
    }
}

/// The pattern value (0 to 3) of cell (row, bit) of sprite `s`.
pub open spec fn sprite_value(p: PpuState, chr: Seq<u8>, s: int, row: int, bit: int) -> u8 {
    let base = p.sprite_pattern_tbl + p.oam[4 * s + 1] * 16;
    pixel_bits(chr[base + row], chr[base + row + 8], bit as u8)
}

/// Sprite `s` paints frame pixel (x, y): the pixel lies in its box and the
/// pattern value there is not the transparent 0.
pub open spec fn sprite_paints(p: PpuState, chr: Seq<u8>, s: int, x: int, y: int) -> bool {
    match sprite_cell(p, s, x, y) {
        Some((row, bit)) => sprite_value(p, chr, s, row, bit) != 0,
        None => false,
    }
}

/// The colour that sprite `s` gives frame pixel (x, y).
pub open spec fn sprite_paint_color(p: PpuState, chr: Seq<u8>, s: int, x: int, y: int) -> (
    u8,
    u8,
    u8,
) {
    let (row, bit) = sprite_cell(p, s, x, y)->Some_0;
    let palette = p.oam[4 * s + 2] as int % 4;
    let v = sprite_value(p, chr, s, row, bit) as int;
    color_of(palette_at(p, p.oam[4 * s] as usize)[0x11 + 4 * palette + v - 1])
}

/// Drawing one cell of a sprite changes frame pixel (x, y) exactly when the
/// cell is the one that lands there and is not transparent.
proof fn lemma_sprite_pixel_at(
    d: Seq<u8>,
    p: PpuState,
    chr: Seq<u8>,
    s: int,
    row: int,
    bit: int,
    x: int,
    y: int,
)
    requires
        d.len() == 256 * 240 * 3,
        0 <= x < 256,
        0 <= y < 240,
        0 <= row < 8,
        0 <= bit < 8,
    ensures
        sprite_pixel(d, p, chr, s, row, bit).len() == d.len(),
        frame_pixel(sprite_pixel(d, p, chr, s, row, bit), x, y) == if sprite_cell(p, s, x, y)
            == Some((row, bit)) && sprite_value(p, chr, s, row, bit) != 0 {
            sprite_paint_color(p, chr, s, x, y)
        } else {
            frame_pixel(d, x, y)
        },
{
    let ty = p.oam[4 * s] as int;
    let attr = p.oam[4 * s + 2];
    let tx = p.oam[4 * s + 3] as int;
    let flip_v = (attr >> 7u8) & 1 == 1;
    let flip_h = (attr >> 6u8) & 1 == 1;
    let v = sprite_value(p, chr, s, row, bit);
    lemma_byte_fields(attr);
    let cx = 7 - bit;
    let qx = if flip_h { tx + 7 - cx } else { tx + cx };
    let qy = if flip_v { ty + 7 - row } else { ty + row };
    let base = pixel_offset(qx, qy);
    let o = pixel_offset(x, y);
    assert(base == 768 * qy + 3 * qx);
    assert(o == 768 * y + 3 * x);
    if v != 0 {
        if base == o {
            // the buffer position of the cell is the pixel, possibly one line down
            assert(256 * qy + qx == 256 * y + x);
            assert(qx == x && qy == y || qx == x + 256 && qy == y - 1);
            assert(sprite_cell(p, s, x, y) == Some((row, bit)));
        } else {
            if sprite_cell(p, s, x, y) == Some((row, bit)) {
                let wrapped = x + 256 <= tx + 7;
                assert(false);
            }
            assert(base % 3 == 0 && o % 3 == 0);
            assert(base + 3 <= o || o + 3 <= base);
        }
    }
}

/// Drawing the first `n` cells of a row of sprite `s` paints frame pixel
/// (x, y) exactly when the cell landing there is among them.
proof fn lemma_sprite_row_at(
    d: Seq<u8>,
    p: PpuState,
    chr: Seq<u8>,
    s: int,
    row: int,
    n: int,
    x: int,
    y: int,
)
    requires
        d.len() == 256 * 240 * 3,
        0 <= x < 256,
        0 <= y < 240,
        0 <= row < 8,
        0 <= n <= 8,
    ensures
        sprite_row(d, p, chr, s, row, n).len() == d.len(),
        frame_pixel(sprite_row(d, p, chr, s, row, n), x, y) == if sprite_paints(p, chr, s, x, y)
            && sprite_cell(p, s, x, y)->Some_0.0 == row && sprite_cell(p, s, x, y)->Some_0.1 < n {
            sprite_paint_color(p, chr, s, x, y)
        } else {
            frame_pixel(d, x, y)
        },
    decreases n,
{
    if n > 0 {
        lemma_sprite_row_at(d, p, chr, s, row, n - 1, x, y);
        lemma_sprite_pixel_at(sprite_row(d, p, chr, s, row, n - 1), p, chr, s, row, n - 1, x, y);
    }
}

/// Drawing the first `n` rows of sprite `s` paints frame pixel (x, y)
/// exactly when the cell landing there is in one of them.
proof fn lemma_sprite_tile_at(
    d: Seq<u8>,
    p: PpuState,
    chr: Seq<u8>,
    s: int,
    n: int,
    x: int,
    y: int,
)
    requires
        d.len() == 256 * 240 * 3,
        0 <= x < 256,
        0 <= y < 240,
        0 <= n <= 8,
    ensures
        sprite_tile(d, p, chr, s, n).len() == d.len(),
        frame_pixel(sprite_tile(d, p, chr, s, n), x, y) == if sprite_paints(p, chr, s, x, y)
            && sprite_cell(p, s, x, y)->Some_0.0 < n {
            sprite_paint_color(p, chr, s, x, y)
        } else {
            frame_pixel(d, x, y)
        },
    decreases n,
{
    if n > 0 {
        lemma_sprite_tile_at(d, p, chr, s, n - 1, x, y);
        lemma_sprite_row_at(sprite_tile(d, p, chr, s, n - 1), p, chr, s, n - 1, 8, x, y);
    }
}

/// After the sprites 63 down to 64 - n are drawn, frame pixel (x, y) has the
/// colour of the lowest-numbered of them that paints it, or its old colour.
proof fn lemma_sprites_at(d: Seq<u8>, p: PpuState, chr: Seq<u8>, n: int, x: int, y: int)
    requires
        d.len() == 256 * 240 * 3,
        0 <= x < 256,
        0 <= y < 240,
        0 <= n <= 64,
    ensures
        sprites(d, p, chr, n).len() == d.len(),
        (forall|t: int| 64 - n <= t < 64 ==> !sprite_paints(p, chr, t, x, y)) ==> frame_pixel(
            sprites(d, p, chr, n),
            x,
            y,
        ) == frame_pixel(d, x, y),
        forall|s: int|
            64 - n <= s < 64 && sprite_paints(p, chr, s, x, y) && (forall|t: int|
                64 - n <= t < s ==> !sprite_paints(p, chr, t, x, y)) ==> frame_pixel(
                sprites(d, p, chr, n),
                x,
                y,
            ) == #[trigger] sprite_paint_color(p, chr, s, x, y),
    decreases n,
{
    if n > 0 {
        let t0 = 63 - (n - 1);
        lemma_sprites_at(d, p, chr, n - 1, x, y);
        lemma_sprite_tile_at(sprites(d, p, chr, n - 1), p, chr, t0, 8, x, y);
        assert forall|s: int|
            64 - n <= s < 64 && sprite_paints(p, chr, s, x, y) && (forall|t: int|
                64 - n <= t < s ==> !sprite_paints(p, chr, t, x, y)) implies frame_pixel(
            sprites(d, p, chr, n),
            x,
            y,
        ) == #[trigger] sprite_paint_color(p, chr, s, x, y) by {
            if s != t0 {
                assert(!sprite_paints(p, chr, t0, x, y));
            }
        }
    }
}

/// Sprite priority: once the sprites are drawn, a frame pixel has the colour
/// that the lowest-numbered sprite with a non-transparent pattern value
/// there gives it; where no sprite paints it, it keeps the colour it had.
pub proof fn law_sprite_priority(d: Seq<u8>, p: PpuState, chr: Seq<u8>, x: int, y: int)
    requires
        d.len() == 256 * 240 * 3,
        0 <= x < 256,
        0 <= y < 240,
    ensures
        sprites(d, p, chr, 64).len() == d.len(),
        (forall|t: int| 0 <= t < 64 ==> !sprite_paints(p, chr, t, x, y)) ==> frame_pixel(
            sprites(d, p, chr, 64),
            x,
            y,
        ) == frame_pixel(d, x, y),
        forall|s: int|
            0 <= s < 64 && sprite_paints(p, chr, s, x, y) && (forall|t: int|
                0 <= t < s ==> !sprite_paints(p, chr, t, x, y)) ==> frame_pixel(
                sprites(d, p, chr, 64),
                x,
                y,
            ) == #[trigger] sprite_paint_color(p, chr, s, x, y),
{
    lemma_sprites_at(d, p, chr, 64, x, y);
}

/// Drawing background pixels into a viewport whose shifted corner is not
/// left of or above the buffer keeps the length of the buffer.
proof fn lemma_bg_tiles_len(
    d: Seq<u8>,
    p: PpuState,
    chr: Seq<u8>,
    half: int,
    vp: Viewport,
    n: int,
)
    requires
        vp.shift_x + vp.x1 >= 0,
        vp.shift_y + vp.y1 >= 0,
    ensures
        bg_tiles(d, p, chr, half, vp, n).len() == d.len(),
    decreases n,
{
    if n > 0 {
        lemma_bg_tiles_len(d, p, chr, half, vp, n - 1);
        lemma_bg_tile_len(bg_tiles(d, p, chr, half, vp, n - 1), p, chr, half, vp, n - 1, 8);
    }
}

proof fn lemma_bg_tile_len(
    d: Seq<u8>,
    p: PpuState,
    chr: Seq<u8>,
    half: int,
    vp: Viewport,
    i: int,
    n: int,
)
    requires
        vp.shift_x + vp.x1 >= 0,
        vp.shift_y + vp.y1 >= 0,
    ensures
        bg_tile(d, p, chr, half, vp, i, n).len() == d.len(),
    decreases n,
{
    if n > 0 {
        lemma_bg_tile_len(d, p, chr, half, vp, i, n - 1);
        lemma_bg_row_len(bg_tile(d, p, chr, half, vp, i, n - 1), p, chr, half, vp, i, n - 1, 8);
    }
}

proof fn lemma_bg_row_len(
    d: Seq<u8>,
    p: PpuState,
    chr: Seq<u8>,
    half: int,
    vp: Viewport,
    i: int,
    y: int,
    n: int,
)
    requires
        vp.shift_x + vp.x1 >= 0,
        vp.shift_y + vp.y1 >= 0,
    ensures
        bg_row(d, p, chr, half, vp, i, y, n).len() == d.len(),
    decreases n,
{
    if n > 0 {
        lemma_bg_row_len(d, p, chr, half, vp, i, y, n - 1);
        let e = bg_row(d, p, chr, half, vp, i, y, n - 1);
        let px = (i % 32) * 8 + (7 - (n - 1));
        let py = (i / 32) * 8 + y;
        if vp.x1 <= px < vp.x2 && vp.y1 <= py < vp.y2 {
            assert(pixel_offset(vp.shift_x + px, vp.shift_y + py) >= 0) by (nonlinear_arith)
                requires
                    vp.shift_x + px >= 0,
                    vp.shift_y + py >= 0,
            {
                assert(pixel_offset(vp.shift_x + px, vp.shift_y + py) == (vp.shift_y + py) * 768
                    + (vp.shift_x + px) * 3);
            }
        }
        assert(bg_pixel(e, p, chr, half, vp, i, y, n - 1).len() == e.len());
    }
}

/// Sprite priority in a rendered picture: each pixel has the colour of the
/// lowest-numbered sprite that paints it, and where no sprite does, the
/// colour of the background.
pub proof fn law_render_sprite_priority(
    p: PpuState,
    chr: Seq<u8>,
    halves: (int, int),
    data: Seq<u8>,
    x: int,
    y: int,
)
    requires
        data.len() == 256 * 240 * 3,
        p.scroll_y <= 240,
        0 <= x < 256,
        0 <= y < 240,
    ensures
        ({
            let bg = background_picture(p, chr, halves, data);
            let pic = render_picture(p, chr, halves, data);
            &&& pic.len() == data.len()
            &&& (forall|t: int| 0 <= t < 64 ==> !sprite_paints(p, chr, t, x, y)) ==> frame_pixel(
                pic,
                x,
                y,
            ) == frame_pixel(bg, x, y)
            &&& forall|s: int|
                0 <= s < 64 && sprite_paints(p, chr, s, x, y) && (forall|t: int|
                    0 <= t < s ==> !sprite_paints(p, chr, t, x, y)) ==> frame_pixel(pic, x, y)
                    == #[trigger] sprite_paint_color(p, chr, s, x, y)
        }),
{
    let sx = p.scroll_x as int;
    let sy = p.scroll_y as int;
    let (main, second) = halves;
    let v1 = Viewport { x1: sx, y1: sy, x2: 256, y2: 240, shift_x: -sx, shift_y: -sy };
    let v2 = Viewport { x1: 0, y1: 0, x2: sx, y2: sy, shift_x: 256 - sx, shift_y: 240 - sy };
    let v3 = Viewport { x1: sx, y1: 0, x2: 256, y2: sy, shift_x: -sx, shift_y: 240 - sy };
    let v4 = Viewport { x1: 0, y1: sy, x2: sx, y2: 240, shift_x: 256 - sx, shift_y: -sy };
    let d1 = bg_tiles(data, p, chr, main, v1, 960);
    let d2 = bg_tiles(d1, p, chr, second, v2, 960);
    let d3 = bg_tiles(d2, p, chr, main, v3, 960);
    lemma_bg_tiles_len(data, p, chr, main, v1, 960);
    lemma_bg_tiles_len(d1, p, chr, second, v2, 960);
    lemma_bg_tiles_len(d2, p, chr, main, v3, 960);
    lemma_bg_tiles_len(d3, p, chr, second, v4, 960);
    law_sprite_priority(background_picture(p, chr, halves, data), p, chr, x, y);
}

/// The settings decoded from PPUCTRL and PPUMASK, bit by bit: PPUCTRL bit 7
/// NMI on vblank, bit 6 master/slave, bit 5 8x16 sprites, bit 4 background
/// pattern table at $1000, bit 3 sprite pattern table at $1000, bit 2 VRAM
/// increment of 32, bits 1-0 base name table; PPUMASK bit 4 sprites shown,
/// bit 3 background shown, bits 2 and 1 the left column shown for sprites
/// and background, bit 0 grayscale.
pub proof fn law_ppu_settings_bits(p: PpuState)
    ensures
        ({
            let q = reg_config_next(p);
            let c = p.ppuctrl as int;
            let m = p.ppumask as int;
            &&& q.nmi_gen == (c / 128 % 2 == 1)
            &&& q.master_slave == (if c / 64 % 2 == 1 { 1u8 } else { 0u8 })
            &&& q.sprite_size == (if c / 32 % 2 == 1 { 1u8 } else { 0u8 })
            &&& q.bg_pattern_tbl == (if c / 16 % 2 == 1 { 0x1000u16 } else { 0u16 })
            &&& q.sprite_pattern_tbl == (if c / 8 % 2 == 1 { 0x1000u16 } else { 0u16 })
            &&& q.vram_addr_inc == (if c / 4 % 2 == 1 { 32u8 } else { 1u8 })
            &&& q.name_table == 0x2000 + 0x400 * (c % 4)
            &&& q.sprite_enable == (m / 16 % 2 == 1)
            &&& q.bg_enable == (m / 8 % 2 == 1)
            &&& q.sprite_left_enable == (m / 4 % 2 == 1)
            &&& q.bg_left_enable == (m / 2 % 2 == 1)
            &&& q.grayscale == (if m % 2 == 1 { 1u8 } else { 0u8 })
        }),
{
    let c = p.ppuctrl;
    let m = p.ppumask;
    assert({
        &&& (c & 0x80 != 0) == (c / 128 % 2 == 1)
        &&& (c & 0x40 != 0) == (c / 64 % 2 == 1)
        &&& (c & 0x20 != 0) == (c / 32 % 2 == 1)
        &&& (c & 0x10 != 0) == (c / 16 % 2 == 1)
        &&& (c & 0x08 != 0) == (c / 8 % 2 == 1)
        &&& (c & 0x04 != 0) == (c / 4 % 2 == 1)
        &&& c & 0x03 == c % 4
        &&& (m & 0x10 != 0) == (m / 16 % 2 == 1)
        &&& (m & 0x08 != 0) == (m / 8 % 2 == 1)
        &&& (m & 0x04 != 0) == (m / 4 % 2 == 1)
        &&& (m & 0x02 != 0) == (m / 2 % 2 == 1)
        &&& (m & 0x01 != 0) == (m % 2 == 1)
    }) by (bit_vector);
}

/// The palette of a background tile: the attribute byte of its 4x4-tile
/// block gives two bits to each 2x2 quarter, the top-left quarter bits 1-0,
/// top-right bits 3-2, bottom-left bits 5-4 and bottom-right bits 7-6; those
/// bits pick which of the four background palettes follows the backdrop.
pub proof fn law_bg_palette_quarters(p: PpuState, half: int, col: int, row: int)
    requires
        0 <= col,
        0 <= row,
    ensures
        ({
            let attr = p.vram[half + 0x3C0 + (row / 4) * 8 + col / 4];
            let quarter = 2 * ((row % 4) / 2) + (col % 4) / 2;
            let k = (attr as int / pow4(quarter)) % 4;
            let t = palette_at(p, (row * 8) as usize);
            &&& 0 <= quarter < 4
            &&& bg_palette(p, half, col, row) == seq![t[0], t[1 + 4 * k], t[2 + 4 * k], t[3 + 4 * k]]
        }),
{
    let b = p.vram[half + 0x3C0 + (row / 4) * 8 + col / 4];
    assert({
        &&& b & 0x03 == b % 4
        &&& (b >> 2u8) & 0x03 == b / 4 % 4
        &&& (b >> 4u8) & 0x03 == b / 16 % 4
        &&& (b >> 6u8) & 0x03 == b / 64 % 4
    }) by (bit_vector);
    let quarter = 2 * ((row % 4) / 2) + (col % 4) / 2;
    assert(pow4(0) == 1 && pow4(1) == 4 && pow4(2) == 16 && pow4(3) == 64) by {
        reveal_with_fuel(pow4, 4);
    }
    assert(attribute_bits(p, half, col, row) as int == (b as int / pow4(quarter)) % 4);
}

/// 4 to the power `n`.
pub open spec fn pow4(n: int) -> int
    decreases n,
{
    if n <= 0 {
        1
    } else {
        4 * pow4(n - 1)
    }
}

// ---------------------------------------------------------------------------
// Background pixels
// ---------------------------------------------------------------------------

/// The shifts of a byte by a constant are divisions by powers of two.
proof fn lemma_shifts_divide(b: u8)
    by (bit_vector)
    ensures
        b >> 0u8 == b / 1,
        b >> 1u8 == b / 2,
        b >> 2u8 == b / 4,
        b >> 3u8 == b / 8,
        b >> 4u8 == b / 16,
        b >> 5u8 == b / 32,
        b >> 6u8 == b / 64,
        b >> 7u8 == b / 128,
        forall|lo: u8, hi: u8, c: u8|
            #![trigger pixel_bits(lo, hi, c)]
            pixel_bits(lo, hi, c) == (lo >> c) % 2 + 2 * ((hi >> c) % 2),
{
}

/// Pixel `c` (counted from the right) of a pattern row: bit `c` of the low
/// plane byte plus twice bit `c` of the high plane byte.
pub proof fn law_pixel_bits(lo: u8, hi: u8, c: u8)
    requires
        c < 8,
    ensures
        pixel_bits(lo, hi, c) == (lo as int / two_to(c as int)) % 2 + 2 * ((hi as int / two_to(
            c as int,
        )) % 2),
{
    lemma_shifts_divide(lo);
    lemma_shifts_divide(hi);
    reveal_with_fuel(two_to, 8);
    assert(pixel_bits(lo, hi, c) == (lo >> c) % 2 + 2 * ((hi >> c) % 2));
}

/// The colour the background gives to pixel (px, py) of the name table that
/// starts at `half` in VRAM: the tile at (px / 8, py / 8), row py % 8 of its
/// pattern, pixel px % 8 from the left, coloured with the tile's palette.
pub open spec fn bg_color_at(p: PpuState, chr: Seq<u8>, half: int, px: int, py: int) -> (
    u8,
    u8,
    u8,
) {
    let col = px / 8;
    let row = py / 8;
    let base = p.bg_pattern_tbl + p.vram[half + row * 32 + col] * 16;
    let v = pixel_bits(chr[base + py % 8], chr[base + py % 8 + 8], (7 - px % 8) as u8);
    color_of(bg_palette(p, half, col, row)[v as int])
}

/// A viewport whose part of the name table, moved by its shift, lies inside
/// the 256x240 picture.
pub open spec fn viewport_on_screen(vp: Viewport) -> bool {
    &&& 0 <= vp.x1 <= vp.x2 <= 256
    &&& 0 <= vp.y1 <= vp.y2 <= 240
    &&& 0 <= vp.shift_x + vp.x1
    &&& vp.shift_x + vp.x2 <= 256
    &&& 0 <= vp.shift_y + vp.y1
    &&& vp.shift_y + vp.y2 <= 240
}

/// The name-table pixel that a viewport puts on picture pixel (x, y), if any.
pub open spec fn viewport_source(vp: Viewport, x: int, y: int) -> Option<(int, int)> {
    let px = x - vp.shift_x;
    let py = y - vp.shift_y;
    if vp.x1 <= px < vp.x2 && vp.y1 <= py < vp.y2 {
        Some((px, py))
    } else {
        None
    }
}

/// Where pixel `c` (from the right) of row `y` of tile `i` lies in the name
/// table, and that the tile, row and bit can be read back from it.
proof fn lemma_tile_pixel(i: int, y: int, c: int)
    requires
        0 <= i < 960,
        0 <= y < 8,
        0 <= c < 8,
    ensures
        ({
            let px = (i % 32) * 8 + (7 - c);
            let py = (i / 32) * 8 + y;
            &&& 0 <= px < 256 && 0 <= py < 240
            &&& px / 8 == i % 32 && px % 8 == 7 - c && py / 8 == i / 32 && py % 8 == y
            &&& (py / 8) * 32 + px / 8 == i
        }),
{
}

/// A name-table pixel is determined by its tile, row and bit.
proof fn lemma_cell_determines(px: int, py: int, i: int, y: int, c: int)
    requires
        0 <= px < 256,
        0 <= py < 240,
        (py / 8) * 32 + px / 8 == i,
        py % 8 == y,
        7 - px % 8 == c,
    ensures
        px == (i % 32) * 8 + (7 - c),
        py == (i / 32) * 8 + y,
{
}

/// Different pixels of the picture have disjoint bytes in the buffer.
proof fn lemma_pixels_apart(qx: int, qy: int, x0: int, y0: int)
    requires
        0 <= qx < 256,
        0 <= qy < 240,
        0 <= x0 < 256,
        0 <= y0 < 240,
        qx != x0 || qy != y0,
    ensures
        pixel_offset(qx, qy) + 3 <= pixel_offset(x0, y0) || pixel_offset(x0, y0) + 3
            <= pixel_offset(qx, qy),
        0 <= pixel_offset(x0, y0) && pixel_offset(x0, y0) + 2 < 256 * 240 * 3,
{
    if qy < y0 {
        assert(768 * qy + 768 <= 768 * y0);
    } else if y0 < qy {
        assert(768 * y0 + 768 <= 768 * qy);
    }
}

/// Drawing one pixel of a background tile changes picture pixel (x, y)
/// exactly when it is the name-table pixel the viewport puts there.
proof fn lemma_bg_pixel_at(
    d: Seq<u8>,
    p: PpuState,
    chr: Seq<u8>,
    half: int,
    vp: Viewport,
    i: int,
    y: int,
    c: int,
    x0: int,
    y0: int,
)
    requires
        d.len() == 256 * 240 * 3,
        viewport_on_screen(vp),
        0 <= x0 < 256,
        0 <= y0 < 240,
        0 <= i < 960,
        0 <= y < 8,
        0 <= c < 8,
    ensures
        bg_pixel(d, p, chr, half, vp, i, y, c).len() == d.len(),
        frame_pixel(bg_pixel(d, p, chr, half, vp, i, y, c), x0, y0) == match viewport_source(
            vp,
            x0,
            y0,
        ) {
            Some((px, py)) => if bg_cell(px, py) == (i, y, c) {
                bg_color_at(p, chr, half, px, py)
            } else {
                frame_pixel(d, x0, y0)
            },
            None => frame_pixel(d, x0, y0),
        },
{
    let px = (i % 32) * 8 + (7 - c);
    let py = (i / 32) * 8 + y;
    lemma_tile_pixel(i, y, c);
    let qx = vp.shift_x + px;
    let qy = vp.shift_y + py;
    let inside = vp.x1 <= px < vp.x2 && vp.y1 <= py < vp.y2;
    let hit = qx == x0 && qy == y0 && inside;
    match viewport_source(vp, x0, y0) {
        Some((sx, sy)) => {
            if bg_cell(sx, sy) == (i, y, c) {
                lemma_cell_determines(sx, sy, i, y, c);
            }
        },
        None => {},
    }
    if inside && !hit {
        lemma_pixels_apart(qx, qy, x0, y0);
    }
    if hit {
        lemma_pixels_apart(x0 + 1 - 2 * (x0 % 2), y0, x0, y0);
    }
}

/// The tile index, row and bit of name-table pixel (px, py).
pub open spec fn bg_cell(px: int, py: int) -> (int, int, int) {
    ((py / 8) * 32 + px / 8, py % 8, 7 - px % 8)
}

proof fn lemma_bg_row_at(
    d: Seq<u8>,
    p: PpuState,
    chr: Seq<u8>,
    half: int,
    vp: Viewport,
    i: int,
    y: int,
    n: int,
    x0: int,
    y0: int,
)
    requires
        d.len() == 256 * 240 * 3,
        viewport_on_screen(vp),
        0 <= x0 < 256,
        0 <= y0 < 240,
        0 <= i < 960,
        0 <= y < 8,
        0 <= n <= 8,
    ensures
        bg_row(d, p, chr, half, vp, i, y, n).len() == d.len(),
        frame_pixel(bg_row(d, p, chr, half, vp, i, y, n), x0, y0) == match viewport_source(
            vp,
            x0,
            y0,
        ) {
            Some((px, py)) => if bg_cell(px, py).0 == i && bg_cell(px, py).1 == y && bg_cell(
                px,
                py,
            ).2 < n {
                bg_color_at(p, chr, half, px, py)
            } else {
                frame_pixel(d, x0, y0)
            },
            None => frame_pixel(d, x0, y0),
        },
    decreases n,
{
    if n > 0 {
        lemma_bg_row_at(d, p, chr, half, vp, i, y, n - 1, x0, y0);
        lemma_bg_pixel_at(bg_row(d, p, chr, half, vp, i, y, n - 1), p, chr, half, vp, i, y, n - 1, x0, y0);
    }
}

proof fn lemma_bg_tile_at(
    d: Seq<u8>,
    p: PpuState,
    chr: Seq<u8>,
    half: int,
    vp: Viewport,
    i: int,
    n: int,
    x0: int,
    y0: int,
)
    requires
        d.len() == 256 * 240 * 3,
        viewport_on_screen(vp),
        0 <= x0 < 256,
        0 <= y0 < 240,
        0 <= i < 960,
        0 <= n <= 8,
    ensures
        bg_tile(d, p, chr, half, vp, i, n).len() == d.len(),
        frame_pixel(bg_tile(d, p, chr, half, vp, i, n), x0, y0) == match viewport_source(
            vp,
            x0,
            y0,
        ) {
            Some((px, py)) => if bg_cell(px, py).0 == i && bg_cell(px, py).1 < n {
                bg_color_at(p, chr, half, px, py)
            } else {
                frame_pixel(d, x0, y0)
            },
            None => frame_pixel(d, x0, y0),
        },
    decreases n,
{
    if n > 0 {
        lemma_bg_tile_at(d, p, chr, half, vp, i, n - 1, x0, y0);
        lemma_bg_row_at(bg_tile(d, p, chr, half, vp, i, n - 1), p, chr, half, vp, i, n - 1, 8, x0, y0);
    }
}

proof fn lemma_bg_tiles_at(
    d: Seq<u8>,
    p: PpuState,
    chr: Seq<u8>,
    half: int,
    vp: Viewport,
    n: int,
    x0: int,
    y0: int,
)
    requires
        d.len() == 256 * 240 * 3,
        viewport_on_screen(vp),
        0 <= x0 < 256,
        0 <= y0 < 240,
        0 <= n <= 960,
    ensures
        bg_tiles(d, p, chr, half, vp, n).len() == d.len(),
        frame_pixel(bg_tiles(d, p, chr, half, vp, n), x0, y0) == match viewport_source(
            vp,
            x0,
            y0,
        ) {
            Some((px, py)) => if bg_cell(px, py).0 < n {
                bg_color_at(p, chr, half, px, py)
            } else {
                frame_pixel(d, x0, y0)
            },
            None => frame_pixel(d, x0, y0),
        },
    decreases n,
{
    if n > 0 {
        lemma_bg_tiles_at(d, p, chr, half, vp, n - 1, x0, y0);
        lemma_bg_tile_at(bg_tiles(d, p, chr, half, vp, n - 1), p, chr, half, vp, n - 1, 8, x0, y0);
    }
}

/// The background of the picture, pixel by pixel: with the scroll (sx, sy),
/// picture pixel (x, y) shows pixel (x + sx, y + sy) of the main name table;
/// the columns that scroll past its right edge show the second name table
/// from its left edge, and the lines that scroll past its bottom edge wrap
/// to its top, (sx, sy) taken modulo the name-table size of 256x240.
pub proof fn law_background_pixels(
    p: PpuState,
    chr: Seq<u8>,
    halves: (int, int),
    data: Seq<u8>,
    x: int,
    y: int,
)
    requires
        data.len() == 256 * 240 * 3,
        p.scroll_y <= 240,
        0 <= x < 256,
        0 <= y < 240,
    ensures
        ({
            let sx = p.scroll_x as int;
            let sy = p.scroll_y as int;
            let (main, second) = halves;
            let ty = if y < 240 - sy { y + sy } else { y - 240 + sy };
            frame_pixel(background_picture(p, chr, halves, data), x, y) == if x < 256 - sx {
                bg_color_at(p, chr, main, x + sx, ty)
            } else {
                bg_color_at(p, chr, second, x - 256 + sx, ty)
            }
        }),
{
    let sx = p.scroll_x as int;
    let sy = p.scroll_y as int;
    let (main, second) = halves;
    let v1 = Viewport { x1: sx, y1: sy, x2: 256, y2: 240, shift_x: -sx, shift_y: -sy };
    let v2 = Viewport { x1: 0, y1: 0, x2: sx, y2: sy, shift_x: 256 - sx, shift_y: 240 - sy };
    let v3 = Viewport { x1: sx, y1: 0, x2: 256, y2: sy, shift_x: -sx, shift_y: 240 - sy };
    let v4 = Viewport { x1: 0, y1: sy, x2: sx, y2: 240, shift_x: 256 - sx, shift_y: -sy };
    let d1 = bg_tiles(data, p, chr, main, v1, 960);
    let d2 = bg_tiles(d1, p, chr, second, v2, 960);
    let d3 = bg_tiles(d2, p, chr, main, v3, 960);
    lemma_bg_tiles_at(data, p, chr, main, v1, 960, x, y);
    lemma_bg_tiles_at(d1, p, chr, second, v2, 960, x, y);
    lemma_bg_tiles_at(d2, p, chr, main, v3, 960, x, y);
    lemma_bg_tiles_at(d3, p, chr, second, v4, 960, x, y);
    let ty = if y < 240 - sy { y + sy } else { y - 240 + sy };
    let tx = if x < 256 - sx { x + sx } else { x - 256 + sx };
    assert(bg_cell(tx, ty).0 < 960) by {
        assert(0 <= tx < 256 && 0 <= ty < 240);
        assert(ty / 8 < 30 && tx / 8 < 32);
    }
}

// ---------------------------------------------------------------------------
// Registers, memory and timing
// ---------------------------------------------------------------------------

/// Setting and clearing bit 7, and setting bit 6, of a byte.
proof fn lemma_status_bits(v: u8)
    by (bit_vector)
    ensures
        (v | 0x80) as int == v as int + if v >= 128 { 0int } else { 128int },
        (v & !0x80u8) as int == v as int % 128,
        (v | 0x40) as int == v as int + if v / 64 % 2 == 1 { 0int } else { 64int },
{
}

/// One dot of the PPU. The dot counter runs through the frame, 341 dots to
/// a scanline and 262 scanlines to a frame, and starts again at dot 0 of
/// scanline 0 (the 16-bit dot counter holds the count only up to $FFFF,
/// which `ppu_main` requires); the vblank flag (PPUSTATUS bit 7) is raised on scanline 241
/// and dropped when the frame ends; the picture is drawn on scanlines 0 to
/// 240 and the NMI is raised on scanline 241 when PPUCTRL asks for it.
pub proof fn law_ppu_dot(p: PpuState)
    requires
        p.scanline < 262,
        p.cycle as int / 341 == p.scanline,
        p.cycle < 0xFFFF,
    ensures
        ({
            let q = ppu_main_next(p);
            let dot = p.cycle as int % 341;
            let frame_end = dot == 340 && p.scanline == 261;
            let nmi_on = if p.cycle == 0 { p.ppuctrl >= 128 } else { p.nmi_gen };
            &&& q.cycle as int / 341 == q.scanline && q.scanline < 262
            &&& dot < 340 ==> q.cycle == p.cycle + 1 && q.scanline == p.scanline
            &&& dot == 340 && p.scanline < 261 ==> q.cycle == p.cycle + 1 && q.scanline
                == p.scanline + 1
            &&& frame_end ==> q.cycle == 0 && q.scanline == 0
            &&& (q.ppustatus >= 128) == (!frame_end && (p.scanline == 241 || p.ppustatus >= 128))
            &&& q.ppustatus % 128 == p.ppustatus % 128
            &&& ppu_main_events(p).render == (p.scanline < 241)
            &&& ppu_main_events(p).nmi == (p.scanline == 241 && nmi_on)
        }),
{
    let st = p.ppustatus;
    lemma_status_bits(st);
    lemma_status_bits(st | 0x80);
    law_ppu_settings_bits(PpuState { oamdma_done: false, ..p });
    let c = p.ppuctrl;
    assert((c as int / 128 % 2 == 1) == (c >= 128));
}

/// A register read back after a write: PPUCTRL answers the byte written with
/// bit 6 set; PPUMASK, PPUSTATUS, OAMADDR, PPUSCROLL and PPUADDR answer the
/// byte written; OAMDATA answers it and stores it in OAM at the old OAMADDR.
pub proof fn law_ppu_register_read_back(p: PpuState, addr: u16, data: u8)
    requires
        0x2000 <= addr <= 0x2006,
    ensures
        ppu_reg_read_value(ppu_reg_write_next(p, addr, data), addr) as int == if addr == 0x2000 {
            data as int + if data / 64 % 2 == 1 { 0int } else { 64int }
        } else {
            data as int
        },
        ppu_reg_read_next(ppu_reg_write_next(p, addr, data), addr) == ppu_reg_write_next(
            p,
            addr,
            data,
        ),
{
    lemma_status_bits(data);
}

/// Reading PPUDATA answers the byte of PPU memory at the VRAM address, keeps
/// it in the read buffer and moves the address on by 1 or 32.
pub proof fn law_ppudata_read(p: PpuState)
    ensures
        ppu_reg_read_value(p, 0x2007) == ppu_mem_read(p, p.vram_addr),
        ppu_reg_read_next(p, 0x2007).ppudata == ppu_mem_read(p, p.vram_addr),
        ppu_reg_read_next(p, 0x2007).vram_addr == (p.vram_addr + p.vram_addr_inc) % 0x10000,
        ppu_reg_read_next(p, 0x2007).vram == p.vram,
{
}

/// PPU memory mirrors: $3000-$37FF shows the name tables at $2000-$27FF, and
/// palette RAM repeats every 32 bytes through $3F00-$3FFF; a write through a
/// mirror is seen at the mirrored address.
pub proof fn law_ppu_memory_mirrors(p: PpuState, k: int, data: u8)
    requires
        0 <= k < 0x800,
        p.vram.len() == 2048,
        p.pram.len() == 32,
    ensures
        ppu_mem_read(p, (0x3000 + k) as u16) == ppu_mem_read(p, (0x2000 + k) as u16),
        k < 0xE0 ==> ppu_mem_read(p, (0x3F20 + k) as u16) == ppu_mem_read(p, (0x3F00 + k) as u16),
        ppu_mem_read(ppu_mem_write(p, (0x3000 + k) as u16, data), (0x2000 + k) as u16) == data,
        k < 0xE0 ==> ppu_mem_read(ppu_mem_write(p, (0x3F20 + k) as u16, data), (0x3F00 + k % 32) as u16) == data,
{
}

} // verus!
