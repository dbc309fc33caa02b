use oxidenes::board::Cart;
use oxidenes::cart::Mirroring;
use oxidenes::mapper::{nametable_index, Mapper, Mmc1, Mmc3};

/// An image whose program byte at offset `i` is the number of its 8 KiB
/// bank, and whose picture byte at offset `i` is the number of its 1 KiB bank.
fn image(mapper: u8, prg: u8, chr: u8, flags6: u8) -> Vec<u8> {
    let mut rom = vec![0x4E, 0x45, 0x53, 0x1A, prg, chr, (mapper << 4) | flags6, 0, 0, 0, 0, 0, 0, 0, 0, 0];
    rom.extend((0..prg as usize * 16384).map(|i| (i / 8192) as u8));
    rom.extend((0..chr as usize * 8192).map(|i| (i / 1024) as u8));
    rom
}

fn board(mapper: u8, prg: u8, chr: u8) -> Cart {
    Cart::from_bytes(&image(mapper, prg, chr, 0)).unwrap()
}

#[test]
fn nrom_mirrors_a_single_bank() {
    let cart = board(0, 1, 1);
    assert_eq!(cart.cpu_read(0x8000), 0);
    assert_eq!(cart.cpu_read(0xA000), 1);
    assert_eq!(cart.cpu_read(0xC000), 0);
    assert_eq!(cart.cpu_read(0xFFFF), 1);
    assert_eq!(cart.ppu_read(0x0400), 1);
    assert_eq!(cart.ppu_read(0x1FFF), 7);
    let cart = board(0, 2, 1);
    assert_eq!(cart.cpu_read(0xC000), 2);
    assert_eq!(cart.cpu_read(0xFFFF), 3);
    assert_eq!(cart.cpu_read(0x5000), 0);
}

#[test]
fn nrom_ignores_writes_to_rom() {
    let mut cart = board(0, 1, 1);
    cart.cpu_write(0x8000, 0xFF);
    cart.ppu_write(0x0000, 0xFF);
    assert_eq!(cart.cpu_read(0x8000), 0);
    assert_eq!(cart.ppu_read(0x0000), 0);
    cart.cpu_write(0x6123, 0x77);
    assert_eq!(cart.cpu_read(0x6123), 0x77);
}

#[test]
fn picture_ram_takes_writes() {
    let mut cart = board(0, 1, 0);
    assert_eq!(cart.ppu_read(0x1234), 0);
    cart.ppu_write(0x1234, 0x99);
    assert_eq!(cart.ppu_read(0x1234), 0x99);
}

#[test]
fn uxrom_switches_the_lower_bank() {
    let mut cart = board(2, 8, 0);
    assert_eq!(cart.cpu_read(0x8000), 0);
    assert_eq!(cart.cpu_read(0xC000), 14);
    assert_eq!(cart.cpu_read(0xFFFF), 15);
    cart.cpu_write(0x8000, 3);
    assert_eq!(cart.cpu_read(0x8000), 6);
    assert_eq!(cart.cpu_read(0xBFFF), 7);
    assert_eq!(cart.cpu_read(0xC000), 14);
    cart.cpu_write(0xFFFF, 9); // beyond the 8 banks: wraps to bank 1
    assert_eq!(cart.cpu_read(0x8000), 2);
}

#[test]
fn cnrom_switches_the_picture_bank() {
    let mut cart = board(3, 2, 4);
    assert_eq!(cart.ppu_read(0x0000), 0);
    cart.cpu_write(0x8000, 2);
    assert_eq!(cart.ppu_read(0x0000), 16);
    assert_eq!(cart.ppu_read(0x1FFF), 23);
    assert_eq!(cart.cpu_read(0x8000), 0);
    assert_eq!(cart.cpu_read(0xFFFF), 3);
}

fn mmc1_write(cart: &mut Cart, addr: u16, val: u8) {
    for bit in 0..5 {
        cart.cpu_write(addr, (val >> bit) & 1);
    }
}

#[test]
fn mmc1_loads_its_registers_bit_by_bit() {
    let mut cart = board(1, 8, 4);
    // Power-up: the last bank is fixed at $C000.
    assert_eq!(cart.cpu_read(0x8000), 0);
    assert_eq!(cart.cpu_read(0xC000), 14);
    mmc1_write(&mut cart, 0xE000, 5);
    assert_eq!(cart.cpu_read(0x8000), 10);
    assert_eq!(cart.cpu_read(0xC000), 14);
    // Control: fix the first bank at $8000, switch $C000.
    mmc1_write(&mut cart, 0x8000, 0x08);
    assert_eq!(cart.cpu_read(0x8000), 0);
    assert_eq!(cart.cpu_read(0xC000), 10);
    // Control: 32 KiB banks.
    mmc1_write(&mut cart, 0x8000, 0x00);
    assert_eq!(cart.cpu_read(0x8000), 8);
    assert_eq!(cart.cpu_read(0xC000), 10);
    assert_eq!(cart.mirroring(), Mirroring::SingleLower);
    mmc1_write(&mut cart, 0x8000, 0x0F);
    assert_eq!(cart.mirroring(), Mirroring::Horizontal);
    mmc1_write(&mut cart, 0x8000, 0x0E);
    assert_eq!(cart.mirroring(), Mirroring::Vertical);
}

#[test]
fn mmc1_reset_drops_pending_bits() {
    let mut cart = board(1, 8, 4);
    cart.cpu_write(0xE000, 1);
    cart.cpu_write(0xE000, 1);
    cart.cpu_write(0xE000, 0x80);
    mmc1_write(&mut cart, 0xE000, 2);
    assert_eq!(cart.cpu_read(0x8000), 4);
}

#[test]
fn mmc1_picture_banks() {
    let mut cart = board(1, 2, 4);
    // Two banks of 4 KiB.
    mmc1_write(&mut cart, 0x8000, 0x1C);
    mmc1_write(&mut cart, 0xA000, 3);
    mmc1_write(&mut cart, 0xC000, 5);
    assert_eq!(cart.ppu_read(0x0000), 12);
    assert_eq!(cart.ppu_read(0x1000), 20);
    // One bank of 8 KiB: the lowest bit of the bank number does not count.
    mmc1_write(&mut cart, 0x8000, 0x0C);
    assert_eq!(cart.ppu_read(0x0000), 8);
    assert_eq!(cart.ppu_read(0x1000), 12);
}

#[test]
fn mmc3_program_banks() {
    let mut cart = board(4, 8, 8);
    cart.cpu_write(0x8000, 6);
    cart.cpu_write(0x8001, 5);
    cart.cpu_write(0x8000, 7);
    cart.cpu_write(0x8001, 9);
    assert_eq!(cart.cpu_read(0x8000), 5);
    assert_eq!(cart.cpu_read(0xA000), 9);
    assert_eq!(cart.cpu_read(0xC000), 14);
    assert_eq!(cart.cpu_read(0xE000), 15);
    cart.cpu_write(0x8000, 0x46);
    assert_eq!(cart.cpu_read(0x8000), 14);
    assert_eq!(cart.cpu_read(0xC000), 5);
    assert_eq!(cart.cpu_read(0xE000), 15);
}

#[test]
fn mmc3_picture_banks() {
    let mut cart = board(4, 2, 8);
    for (reg, bank) in [(0u8, 8u8), (1, 10), (2, 20), (3, 21), (4, 22), (5, 23)] {
        cart.cpu_write(0x8000, reg);
        cart.cpu_write(0x8001, bank);
    }
    assert_eq!(cart.ppu_read(0x0000), 8);
    assert_eq!(cart.ppu_read(0x0400), 9);
    assert_eq!(cart.ppu_read(0x0800), 10);
    assert_eq!(cart.ppu_read(0x0C00), 11);
    assert_eq!(cart.ppu_read(0x1000), 20);
    assert_eq!(cart.ppu_read(0x1C00), 23);
    cart.cpu_write(0x8000, 0x80);
    assert_eq!(cart.ppu_read(0x0000), 20);
    assert_eq!(cart.ppu_read(0x0C00), 23);
    assert_eq!(cart.ppu_read(0x1000), 8);
    assert_eq!(cart.ppu_read(0x1C00), 11);
}

#[test]
fn mmc3_mirroring() {
    let mut cart = board(4, 2, 8);
    assert_eq!(cart.mirroring(), Mirroring::Vertical);
    cart.cpu_write(0xA000, 1);
    assert_eq!(cart.mirroring(), Mirroring::Horizontal);
    cart.cpu_write(0xA000, 0);
    assert_eq!(cart.mirroring(), Mirroring::Vertical);
}

#[test]
fn mmc3_counts_scanlines() {
    let mut cart = board(4, 2, 8);
    cart.cpu_write(0xC000, 7); // latch
    cart.cpu_write(0xC001, 0); // reload
    cart.cpu_write(0xE001, 0); // enable
    for edge in 1..=8 {
        assert!(!cart.irq_pending());
        cart.ppu_address_notify(0x0000);
        cart.ppu_address_notify(0x1000);
        cart.ppu_address_notify(0x1008); // line 12 stays high: no edge
        assert_eq!(cart.irq_pending(), edge == 8);
    }
    cart.cpu_write(0xE000, 0); // acknowledge and disable
    assert!(!cart.irq_pending());
    for _ in 0..20 {
        cart.ppu_address_notify(0x0000);
        cart.ppu_address_notify(0x1000);
    }
    assert!(!cart.irq_pending());
}

#[test]
fn saved_registers_select_the_same_banks() {
    let mut cart = board(4, 8, 8);
    cart.cpu_write(0x8000, 0x46);
    cart.cpu_write(0x8001, 3);
    cart.cpu_write(0x8000, 0x82);
    cart.cpu_write(0x8001, 17);
    cart.cpu_write(0xA000, 1);
    cart.cpu_write(0xC000, 9);
    cart.cpu_write(0xE001, 0);
    cart.ppu_address_notify(0x1000);
    let saved = cart.save_mapper();
    let mut fresh = board(4, 8, 8);
    assert!(fresh.load_mapper(&saved));
    for addr in (0x8000u32..0x10000).step_by(0x400) {
        assert_eq!(fresh.cpu_read(addr as u16), cart.cpu_read(addr as u16));
    }
    for addr in (0..0x2000u16).step_by(0x100) {
        assert_eq!(fresh.ppu_read(addr), cart.ppu_read(addr));
    }
    assert_eq!(fresh.mirroring(), cart.mirroring());
    assert_eq!(fresh.save_mapper(), saved);

    let mut mmc1 = board(1, 8, 4);
    mmc1_write(&mut mmc1, 0xE000, 5);
    mmc1.cpu_write(0xA000, 1);
    let saved = mmc1.save_mapper();
    assert_eq!(saved, vec![1, 1, 1, 0x0C, 0, 0, 5]);
    let mut fresh = board(1, 8, 4);
    assert!(fresh.load_mapper(&saved));
    assert_eq!(fresh.cpu_read(0x8000), 10);
    for board_id in [0u8, 2, 3] {
        let mut cart = board(board_id, 2, 1);
        cart.cpu_write(0x8000, 1);
        let saved = cart.save_mapper();
        let mut fresh = board(board_id, 2, 1);
        assert!(fresh.load_mapper(&saved));
        assert_eq!(fresh.cpu_read(0x8000), cart.cpu_read(0x8000));
        assert_eq!(fresh.ppu_read(0x0000), cart.ppu_read(0x0000));
    }
}

#[test]
fn load_refuses_what_was_not_saved() {
    assert!(Mapper::load(&[]).is_none());
    assert!(Mapper::load(&[0, 0]).is_none());
    assert!(Mapper::load(&[5]).is_none());
    assert!(Mapper::load(&[1, 0, 5, 0, 0, 0, 0]).is_none()); // five bits pending
    assert!(Mapper::load(&[1, 2, 1, 0, 0, 0, 0]).is_none()); // a bit above the pending ones
    assert!(Mapper::load(&[4, 0, 0, 0, 0, 0, 0, 0, 0, 0, 32, 0, 0, 0]).is_none());
    assert!(Mapper::load(&[2, 7]).is_some());
    let mut cart = board(0, 1, 1);
    assert!(!cart.load_mapper(&[2, 7])); // another family
    assert!(!cart.load_mapper(&[9]));
    assert!(cart.load_mapper(&[0]));
}

#[test]
fn power_up_registers() {
    match Mapper::new(1) {
        Mapper::Mmc1(Mmc1 { control, count, shift, .. }) => {
            assert_eq!((control, count, shift), (0x0C, 0, 0));
        }
        _ => panic!("not an MMC1"),
    }
    match Mapper::new(4) {
        Mapper::Mmc3(Mmc3 { irq_enable, irq_pending, r6, r7, .. }) => {
            assert!(!irq_enable && !irq_pending);
            assert_eq!((r6, r7), (0, 1));
        }
        _ => panic!("not an MMC3"),
    }
    assert_eq!(Mapper::new(0).family(), 0);
    assert_eq!(Mapper::new(2).family(), 2);
    assert_eq!(Mapper::new(3).family(), 3);
}

#[test]
fn nametable_mirroring() {
    assert_eq!(nametable_index(Mirroring::Horizontal, 0x2000), 0x000);
    assert_eq!(nametable_index(Mirroring::Horizontal, 0x2400), 0x000);
    assert_eq!(nametable_index(Mirroring::Horizontal, 0x2805), 0x405);
    assert_eq!(nametable_index(Mirroring::Horizontal, 0x2C00), 0x400);
    assert_eq!(nametable_index(Mirroring::Vertical, 0x2400), 0x400);
    assert_eq!(nametable_index(Mirroring::Vertical, 0x2800), 0x000);
    assert_eq!(nametable_index(Mirroring::Vertical, 0x2FFF), 0x7FF);
    assert_eq!(nametable_index(Mirroring::SingleLower, 0x2C10), 0x010);
    assert_eq!(nametable_index(Mirroring::SingleUpper, 0x2010), 0x410);
    assert_eq!(nametable_index(Mirroring::FourScreen, 0x2C10), 0xC10);
    assert_eq!(nametable_index(Mirroring::Vertical, 0x3400), 0x400); // the mirror at $3000
}
