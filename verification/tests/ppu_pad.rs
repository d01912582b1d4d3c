use nes_emulator::gamepad::{Button, GamePad};
use nes_emulator::mem::Memory;
use nes_emulator::cassette::Mirroring;
use nes_emulator::ppu::{
    ppu_main, ppu_main_check, ppu_reset, render, try_render, Frame, RenderData, PPU, PPU_REG_WRITE,
    PPU_REG_READ,
};

#[test]
fn frame_set_pixel() {
    let mut f = Frame::new();
    assert_eq!(f.data.len(), 256 * 240 * 3);
    f.set_pixel(1, 2, (10, 20, 30));
    let base = 2 * 3 * 256 + 3;
    assert_eq!(&f.data[base..base + 3], &[10, 20, 30]);
    // outside the picture nothing happens
    f.set_pixel(0, 240, (1, 1, 1));
    assert_eq!(f.data.len(), 256 * 240 * 3);
}

#[test]
fn render_data_is_cleared() {
    let r = RenderData::new();
    assert_eq!(r.sprite_x, 0);
    assert_eq!(r.bg_pattern, [0, 0]);
}

#[test]
fn ppu_registers() {
    let mut ppu = PPU::new();
    assert_eq!(ppu.ppu_reg_ctrl(0x2000, PPU_REG_READ, 0), 0x40);
    ppu.ppu_reg_ctrl(0x2000, PPU_REG_WRITE, 0x05);
    assert_eq!(ppu.ppu_reg_ctrl(0x2000, PPU_REG_READ, 0), 0x45);
    ppu.ppu_reg_ctrl(0x2001, PPU_REG_WRITE, 0x1E);
    assert_eq!(ppu.ppu_reg_ctrl(0x2001, PPU_REG_READ, 0), 0x1E);
    // palette RAM repeats every 32 bytes
    ppu.ppu_reg_ctrl(0x2006, PPU_REG_WRITE, 0x3F);
    ppu.ppu_reg_ctrl(0x2006, PPU_REG_WRITE, 0x01);
    ppu.ppu_reg_ctrl(0x2007, PPU_REG_WRITE, 0x2A);
    ppu.ppu_reg_ctrl(0x2006, PPU_REG_WRITE, 0x3F);
    ppu.ppu_reg_ctrl(0x2006, PPU_REG_WRITE, 0x21);
    assert_eq!(ppu.ppu_reg_ctrl(0x2007, PPU_REG_READ, 0), 0x2A);
    assert_eq!(ppu.read_palette_table(0)[1], 0x2A);
}

#[test]
fn ppu_vram_increment_32() {
    let mut ppu = PPU::new();
    ppu.ppu_reg_ctrl(0x2000, PPU_REG_WRITE, 0x04);
    // settings are decoded on the first dot of the frame
    let ev = ppu_main(&mut ppu);
    assert!(ev.render);
    assert!(!ev.nmi);
    ppu.ppu_reg_ctrl(0x2006, PPU_REG_WRITE, 0x20);
    ppu.ppu_reg_ctrl(0x2006, PPU_REG_WRITE, 0x00);
    ppu.ppu_reg_ctrl(0x2007, PPU_REG_WRITE, 0x11);
    assert_eq!(ppu.vram_addr, 0x2020);
    assert_eq!(ppu.vram[0], 0x11);
}

#[test]
fn ppu_frame_timing() {
    let mut ppu = PPU::new();
    ppu.ppu_reg_ctrl(0x2000, PPU_REG_WRITE, 0x80);
    ppu_reset(&mut ppu);
    assert_eq!(ppu.ppu_reg_ctrl(0x2002, PPU_REG_READ, 0) & 0x80, 0x80);
    for _ in 0..(3 * 341) {
        let ev = ppu_main(&mut ppu);
        assert!(ev.render);
        assert!(!ev.nmi);
    }
    // settings decoded on the first dot stay in force
    ppu.ppu_reg_ctrl(0x2006, PPU_REG_WRITE, 0x20);
    ppu.ppu_reg_ctrl(0x2006, PPU_REG_WRITE, 0x00);
    ppu.ppu_reg_ctrl(0x2007, PPU_REG_WRITE, 0x11);
    assert_eq!(ppu.vram_addr, 0x2001);
}

#[test]
fn oam_write_and_dma() {
    let mut mem = Memory::new();
    for i in 0..256u16 {
        mem.mem_write(0x0200 + i, i as u8);
    }
    mem.dma_start_addr = 0x02;
    mem.dma_start();
    assert_eq!(mem.ppu_reg.oam[0], 0);
    assert_eq!(mem.ppu_reg.oam[255], 255);
    let mut ppu = PPU::new();
    ppu.oam_write(7, 9);
    assert_eq!(ppu.oam[7], 9);
}

#[test]
fn memory_map() {
    let mut mem = Memory::new();
    mem.mem_write(0x2008 + 5, 0x31);
    assert_eq!(mem.mem_read(0x200D), 0x31);
    mem.mem_write(0x4020, 0x12);
    assert_eq!(mem.mem_read(0x4020), 0x12);
    mem.mem_write(0xC001, 0x56);
    assert_eq!(mem.mem_read(0x8001), 0x56);
    // APU registers answer 0 on a read
    assert_eq!(mem.mem_read(0x4000), 0);
    mem.mem_reset();
    assert_eq!(mem.mem_read(0x0600), 0x20);
    assert_eq!(mem.mem_read(0xFFFC), 0x00);
    assert_eq!(mem.mem_read(0xFFFD), 0x06);
}

#[test]
fn gamepad_reports_buttons_in_order() {
    let mut pad = GamePad::new();
    pad.set_button_pressed_status(Button::from_bits_truncate(Button::BUTTON_A), true);
    pad.set_button_pressed_status(Button::from_bits_truncate(Button::START), true);
    pad.set_button_pressed_status(Button::from_bits_truncate(Button::RIGHT), true);
    pad.set_button_pressed_status(Button::from_bits_truncate(Button::START), false);
    pad.write(1);
    assert_eq!(pad.read(), 1);
    assert_eq!(pad.read(), 1);
    pad.write(0);
    let got: Vec<u8> = (0..10).map(|_| pad.read()).collect();
    assert_eq!(got, vec![1, 0, 0, 0, 0, 0, 0, 1, 1, 1]);
}

#[test]
fn button_bits() {
    let mut b = Button::from_bits_truncate(0);
    b.set(Button::from_bits_truncate(Button::UP | Button::DOWN), true);
    assert_eq!(b.bits(), 0x30);
    b.set(Button::from_bits_truncate(Button::UP), false);
    assert_eq!(b.bits(), 0x20);
}

#[test]
fn render_background_rows() {
    let mut ppu = PPU::new();
    // palette entry 1 of the first background palette is colour $30 (white)
    ppu.ppu_reg_ctrl(0x2006, PPU_REG_WRITE, 0x3F);
    ppu.ppu_reg_ctrl(0x2006, PPU_REG_WRITE, 0x01);
    ppu.ppu_reg_ctrl(0x2007, PPU_REG_WRITE, 0x30);
    // every sprite below the picture
    for s in 0..64 {
        ppu.oam[4 * s] = 0xF0;
    }
    // tile 0: the top row has colour 1, the others colour 0
    let mut chr = vec![0u8; 0x2000];
    chr[0] = 0xFF;
    let mut frame = Frame::new();
    render(&ppu, &chr, Mirroring::HORIZONTAL, &mut frame);
    let px = |x: usize, y: usize| -> Vec<u8> {
        let b = y * 3 * 256 + x * 3;
        frame.data[b..b + 3].to_vec()
    };
    assert_eq!(px(0, 0), vec![0xFF, 0xFF, 0xFF]);
    assert_eq!(px(255, 8), vec![0xFF, 0xFF, 0xFF]);
    assert_eq!(px(0, 1), vec![0x80, 0x80, 0x80]);
    assert_eq!(px(100, 239), vec![0x80, 0x80, 0x80]);
}

#[test]
fn try_render_refuses_what_render_cannot_draw() {
    let mut ppu = PPU::new();
    assert!(ppu_main_check(&ppu));
    for s in 0..64 {
        ppu.oam[4 * s] = 0xF0;
    }
    let chr = vec![0u8; 0x2000];
    let mut frame = Frame::new();
    // four-screen name tables are not drawn
    assert!(!try_render(&ppu, &chr, Mirroring::FOUR_SCREEN, &mut frame));
    // a CHR memory too small for the pattern of tile 0
    assert!(!try_render(&ppu, &vec![0u8; 8], Mirroring::VERTICAL, &mut frame));
    // a backdrop colour outside the 64 system colours
    ppu.ppu_reg_ctrl(0x2006, PPU_REG_WRITE, 0x3F);
    ppu.ppu_reg_ctrl(0x2006, PPU_REG_WRITE, 0x00);
    ppu.ppu_reg_ctrl(0x2007, PPU_REG_WRITE, 0x40);
    assert!(!try_render(&ppu, &chr, Mirroring::VERTICAL, &mut frame));
    assert!(frame.data.iter().all(|&b| b == 0));
    // a valid backdrop draws the whole picture in it
    ppu.ppu_reg_ctrl(0x2006, PPU_REG_WRITE, 0x3F);
    ppu.ppu_reg_ctrl(0x2006, PPU_REG_WRITE, 0x00);
    ppu.ppu_reg_ctrl(0x2007, PPU_REG_WRITE, 0x30);
    assert!(try_render(&ppu, &chr, Mirroring::VERTICAL, &mut frame));
    assert!(frame.data.iter().all(|&b| b == 0xFF));
}

#[test]
fn ppuscroll_shifts_the_picture() {
    let mut ppu = PPU::new();
    ppu.ppu_reg_ctrl(0x2006, PPU_REG_WRITE, 0x3F);
    ppu.ppu_reg_ctrl(0x2006, PPU_REG_WRITE, 0x01);
    ppu.ppu_reg_ctrl(0x2007, PPU_REG_WRITE, 0x30);
    for s in 0..64 {
        ppu.oam[4 * s] = 0xF0;
    }
    // tile 1, drawn in column 1 of the first row, has a white top row
    ppu.vram[1] = 1;
    let mut chr = vec![0u8; 0x2000];
    chr[16] = 0xFF;
    let px = |frame: &Frame, x: usize, y: usize| -> Vec<u8> {
        let b = y * 3 * 256 + x * 3;
        frame.data[b..b + 3].to_vec()
    };
    let mut frame = Frame::new();
    render(&ppu, &chr, Mirroring::HORIZONTAL, &mut frame);
    assert_eq!(px(&frame, 0, 0), vec![0x80, 0x80, 0x80]);
    assert_eq!(px(&frame, 8, 0), vec![0xFF, 0xFF, 0xFF]);
    // scroll 8 to the right and 0 down: column 1 now starts the picture
    ppu.ppu_reg_ctrl(0x2005, PPU_REG_WRITE, 8);
    ppu.ppu_reg_ctrl(0x2005, PPU_REG_WRITE, 0);
    let mut frame = Frame::new();
    render(&ppu, &chr, Mirroring::HORIZONTAL, &mut frame);
    assert_eq!(px(&frame, 0, 0), vec![0xFF, 0xFF, 0xFF]);
    assert_eq!(px(&frame, 8, 0), vec![0x80, 0x80, 0x80]);
}

#[test]
fn oamdata_and_register_reads_through_memory() {
    let mut ppu = PPU::new();
    ppu.ppu_reg_ctrl(0x2003, PPU_REG_WRITE, 0x10);
    ppu.ppu_reg_ctrl(0x2004, PPU_REG_WRITE, 0xAB);
    ppu.ppu_reg_ctrl(0x2004, PPU_REG_WRITE, 0xCD);
    assert_eq!(ppu.oam[0x10], 0xAB);
    assert_eq!(ppu.oam[0x11], 0xCD);
    // the memory map writes registers and reads them back
    let mut mem = Memory::new();
    mem.mem_write(0x4000, 0x3F);
    assert_eq!(mem.mem_read(0x4000), 0x3F);
    mem.mem_write(0x2006, 0x21);
    mem.mem_write(0x2006, 0x00);
    mem.mem_write(0x2007, 0x77);
    assert_eq!(mem.ppu_reg.vram[0x100], 0x77);
    // a write to $4014 copies page $02 into OAM
    mem.mem_write(0x0203, 0x99);
    mem.mem_write(0x4014, 0x02);
    assert_eq!(mem.ppu_reg.oam[3], 0x99);
}

#[test]
fn ppumask_background_colour_bits() {
    for &(mask, colour) in &[(0x80u8, 4u8), (0x40, 2), (0x20, 1), (0x00, 0), (0xE0, 0), (0x9F, 4)] {
        let mut ppu = PPU::new();
        ppu.ppumask = mask;
        ppu_main(&mut ppu);
        assert_eq!(ppu.bg_color, colour);
    }
}

#[test]
fn lowest_numbered_sprite_is_on_top() {
    let mut ppu = PPU::new();
    ppu.pram[0x11] = 0x16; // sprite palette 0, colour 1: red
    ppu.pram[0x15] = 0x2A; // sprite palette 1, colour 1: green
    for s in 0..64 {
        ppu.oam[4 * s] = 0xF0;
    }
    // tile 1: the top row has colour 1, the rest is transparent
    let mut chr = vec![0u8; 0x2000];
    chr[16] = 0xFF;
    // sprite 0 at (20, 30) with palette 1, sprite 5 at (16, 30) with palette 0
    ppu.oam[0] = 30;
    ppu.oam[1] = 1;
    ppu.oam[2] = 1;
    ppu.oam[3] = 20;
    ppu.oam[20] = 30;
    ppu.oam[21] = 1;
    ppu.oam[22] = 0;
    ppu.oam[23] = 16;
    // sprite 10 at (252, 100): its box runs past the right edge
    ppu.oam[40] = 100;
    ppu.oam[41] = 1;
    ppu.oam[42] = 0;
    ppu.oam[43] = 252;
    let mut frame = Frame::new();
    render(&ppu, &chr, Mirroring::HORIZONTAL, &mut frame);
    let px = |x: usize, y: usize| -> Vec<u8> {
        let b = y * 3 * 256 + x * 3;
        frame.data[b..b + 3].to_vec()
    };
    let red = vec![0xFF, 0x22, 0x00];
    let green = vec![0x2B, 0xF0, 0x35];
    let backdrop = vec![0x80, 0x80, 0x80];
    assert_eq!(px(16, 30), red);
    assert_eq!(px(19, 30), red);
    assert_eq!(px(20, 30), green);
    assert_eq!(px(23, 30), green);
    assert_eq!(px(27, 30), green);
    assert_eq!(px(28, 30), backdrop);
    assert_eq!(px(20, 31), backdrop);
    assert_eq!(px(252, 100), red);
    assert_eq!(px(255, 100), red);
    assert_eq!(px(0, 101), red);
    assert_eq!(px(3, 101), red);
    assert_eq!(px(4, 101), backdrop);
}
