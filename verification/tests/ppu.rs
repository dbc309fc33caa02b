use oxidenes::board::Cart;
use oxidenes::ppu::Ppu;
use oxidenes::render::COLOURS;
use oxidenes::scroll::Loopy;

/// An NROM board with picture RAM and the given mirroring bit.
fn board(vertical: bool) -> Cart {
    let mut rom = vec![0x4E, 0x45, 0x53, 0x1A, 1, 0, vertical as u8, 0, 0, 0, 0, 0, 0, 0, 0, 0];
    rom.extend(vec![0u8; 16384]);
    Cart::from_bytes(&rom).unwrap()
}

fn set_addr(ppu: &mut Ppu, cart: &mut Cart, addr: u16) {
    ppu.write_reg(cart, 6, (addr >> 8) as u8);
    ppu.write_reg(cart, 6, (addr & 0xFF) as u8);
}

fn poke(ppu: &mut Ppu, cart: &mut Cart, addr: u16, val: u8) {
    set_addr(ppu, cart, addr);
    ppu.write_reg(cart, 7, val);
}

fn peek(ppu: &mut Ppu, cart: &mut Cart, addr: u16) -> u8 {
    set_addr(ppu, cart, addr);
    if addr % 0x4000 < 0x3F00 {
        ppu.read_reg(cart, 7);
        set_addr(ppu, cart, addr);
    }
    ppu.read_reg(cart, 7)
}

#[test]
fn status_read_clears_vblank_and_the_toggle() {
    let (mut ppu, mut cart) = (Ppu::new(), board(false));
    ppu.regs.vblank = true;
    ppu.regs.sprite_zero_hit = true;
    ppu.write_reg(&mut cart, 6, 0x21);
    assert!(ppu.regs.w);
    assert_eq!(ppu.read_reg(&mut cart, 2), 0xC0);
    assert!(!ppu.regs.vblank);
    assert!(!ppu.regs.w);
    assert_eq!(ppu.read_reg(&mut cart, 2), 0x40);
    ppu.regs.sprite_overflow = true;
    assert_eq!(ppu.read_reg(&mut cart, 2), 0x60);
}

#[test]
fn palette_mirrors() {
    let (mut ppu, mut cart) = (Ppu::new(), board(false));
    for k in 0..4u16 {
        poke(&mut ppu, &mut cart, 0x3F00 + 4 * k, 0x10 + k as u8);
        assert_eq!(peek(&mut ppu, &mut cart, 0x3F10 + 4 * k), 0x10 + k as u8);
        poke(&mut ppu, &mut cart, 0x3F10 + 4 * k, 0x20 + k as u8);
        assert_eq!(peek(&mut ppu, &mut cart, 0x3F00 + 4 * k), 0x20 + k as u8);
        assert_eq!(ppu.mem_read(&cart, 0x3F10 + 4 * k), ppu.mem_read(&cart, 0x3F00 + 4 * k));
    }
    // The other entries are their own, and the palette repeats every 32 bytes.
    poke(&mut ppu, &mut cart, 0x3F01, 0x05);
    poke(&mut ppu, &mut cart, 0x3F11, 0x06);
    assert_eq!(peek(&mut ppu, &mut cart, 0x3F01), 0x05);
    assert_eq!(peek(&mut ppu, &mut cart, 0x3F11), 0x06);
    assert_eq!(peek(&mut ppu, &mut cart, 0x3F31), 0x06);
    assert_eq!(peek(&mut ppu, &mut cart, 0x3FE1), 0x05);
}

#[test]
fn greyscale_masks_palette_reads() {
    let (mut ppu, mut cart) = (Ppu::new(), board(false));
    poke(&mut ppu, &mut cart, 0x3F01, 0x2A);
    ppu.write_reg(&mut cart, 1, 0x01);
    assert_eq!(peek(&mut ppu, &mut cart, 0x3F01), 0x20);
}

#[test]
fn oam_write_then_read() {
    let (mut ppu, mut cart) = (Ppu::new(), board(false));
    for (addr, val, kept) in [(0u8, 0xFFu8, 0xFFu8), (1, 0xAB, 0xAB), (2, 0xFF, 0xE3), (3, 0x1C, 0x1C), (0x42, 0x1C, 0x00), (0xFE, 0x5D, 0x41), (0xFF, 0x77, 0x77)] {
        ppu.write_reg(&mut cart, 3, addr);
        ppu.write_reg(&mut cart, 4, val);
        assert_eq!(ppu.regs.oam_addr, addr.wrapping_add(1));
        ppu.write_reg(&mut cart, 3, addr);
        assert_eq!(ppu.read_reg(&mut cart, 4), kept);
        assert_eq!(ppu.regs.oam_addr, addr); // a read does not move the address
    }
}

#[test]
fn data_reads_are_buffered_below_the_palette() {
    let (mut ppu, mut cart) = (Ppu::new(), board(false));
    poke(&mut ppu, &mut cart, 0x2000, 0x11);
    poke(&mut ppu, &mut cart, 0x2001, 0x22);
    set_addr(&mut ppu, &mut cart, 0x2000);
    let stale = ppu.read_reg(&mut cart, 7);
    assert_eq!(stale, 0); // what the buffer held before
    assert_eq!(ppu.read_reg(&mut cart, 7), 0x11);
    assert_eq!(ppu.read_reg(&mut cart, 7), 0x22);
}

#[test]
fn palette_reads_are_immediate_and_fill_the_buffer_from_underneath() {
    let (mut ppu, mut cart) = (Ppu::new(), board(true));
    poke(&mut ppu, &mut cart, 0x2F05, 0x99); // under $3F05
    poke(&mut ppu, &mut cart, 0x3F05, 0x15);
    set_addr(&mut ppu, &mut cart, 0x3F05);
    assert_eq!(ppu.read_reg(&mut cart, 7), 0x15);
    assert_eq!(ppu.regs.read_buffer, 0x99);
}

#[test]
fn address_increments_by_one_or_thirty_two() {
    let (mut ppu, mut cart) = (Ppu::new(), board(false));
    set_addr(&mut ppu, &mut cart, 0x2000);
    ppu.write_reg(&mut cart, 7, 1);
    ppu.write_reg(&mut cart, 7, 2);
    assert_eq!(ppu.regs.v.to_addr(), 0x2002);
    ppu.write_reg(&mut cart, 0, 0x04);
    ppu.write_reg(&mut cart, 7, 3);
    assert_eq!(ppu.regs.v.to_addr(), 0x2022);
    ppu.read_reg(&mut cart, 7);
    assert_eq!(ppu.regs.v.to_addr(), 0x2042);
    assert_eq!(ppu.mem_read(&cart, 0x2000), 1);
    assert_eq!(ppu.mem_read(&cart, 0x2001), 2);
    assert_eq!(ppu.mem_read(&cart, 0x2002), 3);
    set_addr(&mut ppu, &mut cart, 0x3FFF);
    ppu.read_reg(&mut cart, 7);
    assert_eq!(ppu.regs.v.to_addr(), 0x401F); // fifteen bits; the bus sees fourteen
}

#[test]
fn address_and_scroll_writes() {
    let (mut ppu, mut cart) = (Ppu::new(), board(false));
    ppu.write_reg(&mut cart, 0, 0x03);
    assert_eq!(ppu.regs.t.nametable, 3);
    ppu.write_reg(&mut cart, 5, 0x7D); // X scroll 125: tile 15, pixel 5
    assert_eq!((ppu.regs.t.coarse_x, ppu.regs.fine_x, ppu.regs.w), (15, 5, true));
    ppu.write_reg(&mut cart, 5, 0x5E); // Y scroll 94: tile 11, pixel 6
    assert_eq!((ppu.regs.t.coarse_y, ppu.regs.t.fine_y, ppu.regs.w), (11, 6, false));
    assert_eq!(ppu.regs.v, Loopy { coarse_x: 0, coarse_y: 0, nametable: 0, fine_y: 0 });
    ppu.write_reg(&mut cart, 6, 0xFD); // the top two bits do not count
    assert_eq!(ppu.regs.t.to_addr(), 0x3D6F);
    ppu.write_reg(&mut cart, 6, 0xF0);
    assert_eq!(ppu.regs.t.to_addr(), 0x3DF0);
    assert_eq!(ppu.regs.v.to_addr(), 0x3DF0);
}

#[test]
fn nametables_follow_the_mirroring() {
    let (mut ppu, mut cart) = (Ppu::new(), board(true));
    poke(&mut ppu, &mut cart, 0x2005, 0x44);
    assert_eq!(peek(&mut ppu, &mut cart, 0x2805), 0x44);
    assert_eq!(peek(&mut ppu, &mut cart, 0x2405), 0x00);
    assert_eq!(peek(&mut ppu, &mut cart, 0x3005), 0x44);
    let (mut ppu, mut cart) = (Ppu::new(), board(false));
    poke(&mut ppu, &mut cart, 0x2005, 0x44);
    assert_eq!(peek(&mut ppu, &mut cart, 0x2405), 0x44);
    assert_eq!(peek(&mut ppu, &mut cart, 0x2805), 0x00);
}

#[test]
fn pattern_memory_is_the_cartridge() {
    let (mut ppu, mut cart) = (Ppu::new(), board(false));
    poke(&mut ppu, &mut cart, 0x0123, 0x77);
    assert_eq!(cart.ppu_read(0x0123), 0x77);
    assert_eq!(peek(&mut ppu, &mut cart, 0x0123), 0x77);
    assert_eq!(peek(&mut ppu, &mut cart, 0x4123), 0x77);
}

#[test]
fn vblank_begins_on_line_241_dot_1() {
    for enabled in [false, true] {
        let (mut ppu, mut cart) = (Ppu::new(), board(false));
        ppu.write_reg(&mut cart, 0, if enabled { 0x80 } else { 0x00 });
        ppu.regs.scanline = 240;
        ppu.regs.dot = 0;
        let (nmi, _) = ppu.tick(&mut cart, 341);
        assert!(!nmi);
        assert!(!ppu.regs.vblank);
        assert_eq!((ppu.regs.scanline, ppu.regs.dot), (241, 0));
        let (nmi, _) = ppu.tick(&mut cart, 1);
        assert_eq!(nmi, enabled);
        assert!(ppu.regs.vblank);
        assert_eq!((ppu.regs.scanline, ppu.regs.dot), (241, 1));
        // Asserted once: nothing more until the next frame.
        let mut again = 0;
        for _ in 0..262 {
            let (nmi, _) = ppu.tick(&mut cart, 341);
            again += nmi as u32;
            if ppu.regs.scanline == 241 && ppu.regs.dot == 1 {
                break;
            }
        }
        assert_eq!(again, enabled as u32);

        let (mut ppu, mut cart) = (Ppu::new(), board(false));
        ppu.write_reg(&mut cart, 0, if enabled { 0x80 } else { 0x00 });
        ppu.regs.scanline = 240;
        let (nmi, _) = ppu.tick(&mut cart, 342);
        assert_eq!(nmi, enabled);
        assert!(ppu.regs.vblank);
    }
}

#[test]
fn vblank_ends_on_the_pre_render_line() {
    let (mut ppu, mut cart) = (Ppu::new(), board(false));
    ppu.regs.scanline = 261;
    ppu.regs.vblank = true;
    ppu.regs.sprite_zero_hit = true;
    ppu.regs.sprite_overflow = true;
    ppu.tick(&mut cart, 1);
    assert!(!ppu.regs.vblank && !ppu.regs.sprite_zero_hit && !ppu.regs.sprite_overflow);
}

#[test]
fn enabling_nmi_during_vblank_raises_it() {
    let (mut ppu, mut cart) = (Ppu::new(), board(false));
    ppu.regs.vblank = true;
    ppu.write_reg(&mut cart, 0, 0x80);
    assert!(ppu.regs.nmi_edge);
    let (nmi, _) = ppu.tick(&mut cart, 0);
    assert!(nmi);
    assert!(!ppu.regs.nmi_edge);
    ppu.write_reg(&mut cart, 0, 0x80); // already enabled: no edge
    assert!(!ppu.regs.nmi_edge);
}

#[test]
fn odd_frames_drop_a_dot_only_while_rendering() {
    for (mask, odd, expected) in [(0x00u8, true, 341u32), (0x08, true, 340), (0x10, true, 340), (0x08, false, 341), (0x00, false, 341)] {
        let (mut ppu, mut cart) = (Ppu::new(), board(false));
        ppu.write_reg(&mut cart, 1, mask);
        ppu.regs.scanline = 261;
        ppu.regs.dot = 0;
        ppu.regs.odd_frame = odd;
        let mut dots = 0;
        while ppu.regs.scanline == 261 {
            ppu.step(&mut cart);
            dots += 1;
        }
        assert_eq!(dots, expected, "mask {:02X}, odd {}", mask, odd);
        assert_eq!((ppu.regs.scanline, ppu.regs.dot), (0, 0));
        assert_eq!(ppu.regs.odd_frame, !odd);
        assert_eq!(ppu.regs.extra_cycle, expected == 340);
    }
}

#[test]
fn a_frame_has_262_lines_of_341_dots() {
    let (mut ppu, mut cart) = (Ppu::new(), board(false));
    for _ in 0..262 {
        ppu.tick(&mut cart, 341);
    }
    assert_eq!((ppu.regs.scanline, ppu.regs.dot), (0, 0));
    assert_eq!(ppu.regs.dots, 262 * 341);
    for _ in 0..239 {
        assert!(!ppu.catch_up(&mut cart, 341).frame);
    }
    let caught = ppu.catch_up(&mut cart, 341);
    assert!(caught.frame);
    assert!(!caught.nmi && !caught.skipped);
    assert_eq!(ppu.regs.scanline, 240);
    assert!(!ppu.catch_up(&mut cart, 341).frame);
}

/// Sets up a background of tile 1 everywhere, whose rows are `0b1100_0000`
/// in the low plane and `0b1010_0000` in the high plane.
fn background(ppu: &mut Ppu, cart: &mut Cart) {
    for row in 0..8 {
        poke(ppu, cart, 0x0010 + row, 0xC0);
        poke(ppu, cart, 0x0018 + row, 0xA0);
    }
    set_addr(ppu, cart, 0x2000);
    for _ in 0..960 {
        ppu.write_reg(cart, 7, 1);
    }
    for _ in 0..64 {
        ppu.write_reg(cart, 7, 0b01_01_01_01); // palette 1 in every quadrant
    }
    for (i, colour) in [0x0Fu8, 0x01, 0x02, 0x03, 0x00, 0x11, 0x12, 0x13].iter().enumerate() {
        poke(ppu, cart, 0x3F00 + i as u16, *colour);
    }
    set_addr(ppu, cart, 0x0000);
    ppu.write_reg(cart, 5, 0);
    ppu.write_reg(cart, 5, 0);
}

fn run_frame(ppu: &mut Ppu, cart: &mut Cart) {
    ppu.regs.scanline = 261;
    ppu.regs.dot = 0;
    for _ in 0..241 {
        ppu.tick(cart, 341);
    }
}

#[test]
fn background_pixels() {
    let (mut ppu, mut cart) = (Ppu::new(), board(false));
    background(&mut ppu, &mut cart);
    ppu.write_reg(&mut cart, 1, 0x0A); // background on, also in the left column
    run_frame(&mut ppu, &mut cart);
    for y in [0usize, 1, 7, 8, 100, 239] {
        for tile in [0usize, 1, 15, 31] {
            let at = y * 256 + tile * 8;
            assert_eq!(ppu.screen[at], COLOURS[0x13], "line {} tile {}", y, tile); // pixel 3
            assert_eq!(ppu.screen[at + 1], COLOURS[0x11]); // pixel 1
            assert_eq!(ppu.screen[at + 2], COLOURS[0x12]); // pixel 2
            assert_eq!(ppu.screen[at + 3], COLOURS[0x0F]); // transparent: the backdrop
            assert_eq!(ppu.screen[at + 7], COLOURS[0x0F]);
        }
    }
}

#[test]
fn left_column_can_be_hidden() {
    let (mut ppu, mut cart) = (Ppu::new(), board(false));
    background(&mut ppu, &mut cart);
    ppu.write_reg(&mut cart, 1, 0x08);
    run_frame(&mut ppu, &mut cart);
    assert_eq!(ppu.screen[0], COLOURS[0x0F]);
    assert_eq!(ppu.screen[1], COLOURS[0x0F]);
    assert_eq!(ppu.screen[8], COLOURS[0x13]);
}

#[test]
fn fine_x_scroll_shifts_the_picture() {
    let (mut ppu, mut cart) = (Ppu::new(), board(false));
    background(&mut ppu, &mut cart);
    ppu.write_reg(&mut cart, 5, 1);
    ppu.write_reg(&mut cart, 5, 0);
    ppu.write_reg(&mut cart, 1, 0x0A);
    run_frame(&mut ppu, &mut cart);
    assert_eq!(ppu.screen[0], COLOURS[0x11]);
    assert_eq!(ppu.screen[1], COLOURS[0x12]);
    assert_eq!(ppu.screen[7], COLOURS[0x13]);
}

#[test]
fn rendering_off_shows_the_backdrop() {
    let (mut ppu, mut cart) = (Ppu::new(), board(false));
    background(&mut ppu, &mut cart);
    run_frame(&mut ppu, &mut cart);
    assert!(ppu.screen.iter().all(|p| *p == COLOURS[0x0F]));
    assert_eq!(ppu.screen.len(), 256 * 240);
}

fn sprite(ppu: &mut Ppu, cart: &mut Cart, n: u8, y: u8, tile: u8, attr: u8, x: u8) {
    ppu.write_reg(cart, 3, n * 4);
    for byte in [y, tile, attr, x] {
        ppu.write_reg(cart, 4, byte);
    }
}

fn hide_sprites(ppu: &mut Ppu, cart: &mut Cart) {
    for n in 0..64 {
        sprite(ppu, cart, n, 0xF0, 0, 0, 0);
    }
}

/// Tile 2: a solid block of pixel 1 in its first row, pixel 2 in its last.
fn sprite_tile(ppu: &mut Ppu, cart: &mut Cart) {
    poke(ppu, cart, 0x0020, 0xFF);
    poke(ppu, cart, 0x002F, 0xFF);
    for (i, colour) in [0x21u8, 0x22, 0x23].iter().enumerate() {
        poke(ppu, cart, 0x3F11 + i as u16, *colour);
        poke(ppu, cart, 0x3F15 + i as u16, *colour + 0x10);
    }
    set_addr(ppu, cart, 0x0000);
}

#[test]
fn sprites_are_drawn_one_line_below_their_y() {
    let (mut ppu, mut cart) = (Ppu::new(), board(false));
    background(&mut ppu, &mut cart);
    sprite_tile(&mut ppu, &mut cart);
    hide_sprites(&mut ppu, &mut cart);
    sprite(&mut ppu, &mut cart, 0, 20, 2, 0x01, 100);
    ppu.write_reg(&mut cart, 1, 0x14); // sprites only
    run_frame(&mut ppu, &mut cart);
    for x in 100..108 {
        assert_eq!(ppu.screen[21 * 256 + x], COLOURS[0x31]); // first row: pixel 1, palette 1
        assert_eq!(ppu.screen[28 * 256 + x], COLOURS[0x32]); // last row: pixel 2
        assert_eq!(ppu.screen[20 * 256 + x], COLOURS[0x0F]);
        assert_eq!(ppu.screen[22 * 256 + x], COLOURS[0x0F]);
    }
    assert_eq!(ppu.screen[21 * 256 + 99], COLOURS[0x0F]);
    assert_eq!(ppu.screen[21 * 256 + 108], COLOURS[0x0F]);
    assert!(!ppu.regs.sprite_zero_hit); // no background to hit
}

#[test]
fn flipped_sprites() {
    let (mut ppu, mut cart) = (Ppu::new(), board(false));
    sprite_tile(&mut ppu, &mut cart);
    poke(&mut ppu, &mut cart, 0x0021, 0x80); // second row: the leftmost pixel only
    set_addr(&mut ppu, &mut cart, 0);
    hide_sprites(&mut ppu, &mut cart);
    sprite(&mut ppu, &mut cart, 0, 20, 2, 0x80, 100); // upside down
    sprite(&mut ppu, &mut cart, 1, 40, 2, 0x40, 100); // left to right
    ppu.write_reg(&mut cart, 1, 0x14);
    run_frame(&mut ppu, &mut cart);
    assert_eq!(ppu.screen[21 * 256 + 100], COLOURS[0x22]); // the last row comes first
    assert_eq!(ppu.screen[28 * 256 + 100], COLOURS[0x21]);
    assert_eq!(ppu.screen[27 * 256 + 100], COLOURS[0x21]);
    assert_eq!(ppu.screen[27 * 256 + 101], COLOURS[0x00]); // the backdrop
    assert_eq!(ppu.screen[42 * 256 + 107], COLOURS[0x21]);
    assert_eq!(ppu.screen[42 * 256 + 100], COLOURS[0x00]);
}

#[test]
fn sprite_zero_hit_and_priority() {
    let (mut ppu, mut cart) = (Ppu::new(), board(false));
    background(&mut ppu, &mut cart);
    sprite_tile(&mut ppu, &mut cart);
    hide_sprites(&mut ppu, &mut cart);
    sprite(&mut ppu, &mut cart, 0, 20, 2, 0x20, 96); // behind the background
    sprite(&mut ppu, &mut cart, 1, 20, 2, 0x00, 160); // in front
    ppu.write_reg(&mut cart, 1, 0x1E);
    ppu.regs.scanline = 261;
    ppu.regs.dot = 0;
    for _ in 0..22 {
        ppu.tick(&mut cart, 341);
    }
    assert!(!ppu.regs.sprite_zero_hit);
    ppu.tick(&mut cart, 341);
    assert!(ppu.regs.sprite_zero_hit);
    // Behind: the background's opaque pixels win, its transparent ones show the sprite.
    assert_eq!(ppu.screen[21 * 256 + 96], COLOURS[0x13]);
    assert_eq!(ppu.screen[21 * 256 + 99], COLOURS[0x21]);
    // In front: the sprite wins everywhere.
    assert_eq!(ppu.screen[21 * 256 + 160], COLOURS[0x21]);
    assert_eq!(ppu.screen[21 * 256 + 163], COLOURS[0x21]);
}

#[test]
fn ninth_sprite_sets_overflow() {
    let (mut ppu, mut cart) = (Ppu::new(), board(false));
    sprite_tile(&mut ppu, &mut cart);
    hide_sprites(&mut ppu, &mut cart);
    for n in 0..8 {
        sprite(&mut ppu, &mut cart, n, 50, 2, 0, n * 8);
    }
    ppu.write_reg(&mut cart, 1, 0x14);
    run_frame(&mut ppu, &mut cart);
    assert!(!ppu.regs.sprite_overflow);
    sprite(&mut ppu, &mut cart, 8, 50, 2, 0, 64);
    sprite(&mut ppu, &mut cart, 9, 50, 2, 0, 72);
    run_frame(&mut ppu, &mut cart);
    assert!(ppu.regs.sprite_overflow);
    // Only eight are drawn.
    assert_eq!(ppu.screen[51 * 256 + 63], COLOURS[0x21]);
    assert_eq!(ppu.screen[51 * 256 + 64], COLOURS[0x00]);
}
