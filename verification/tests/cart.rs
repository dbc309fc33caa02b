use oxidenes::board::Cart;
use oxidenes::cart::{Cartridge, Mirroring};
use oxidenes::error::{Error, RomFault};

fn header(prg: u8, chr: u8, flags6: u8, flags7: u8) -> Vec<u8> {
    vec![0x4E, 0x45, 0x53, 0x1A, prg, chr, flags6, flags7, 0, 0, 0, 0, 0, 0, 0, 0]
}

fn image(prg: u8, chr: u8, flags6: u8, flags7: u8) -> Vec<u8> {
    let mut rom = header(prg, chr, flags6, flags7);
    if flags6 & 4 != 0 {
        rom.extend((0..512).map(|i| (i % 251) as u8));
    }
    rom.extend((0..prg as usize * 16384).map(|i| (i % 253) as u8));
    rom.extend((0..chr as usize * 8192).map(|i| (i % 241) as u8));
    rom
}

fn fault(rom: &[u8]) -> Error {
    Cartridge::from_bytes(rom).err().unwrap()
}

#[test]
fn reads_a_plain_image() {
    let rom = image(2, 1, 0x01, 0x00);
    let cart = Cartridge::from_bytes(&rom).unwrap();
    assert_eq!(cart.prg_rom.len(), 32768);
    assert_eq!(cart.chr_rom.len(), 8192);
    assert_eq!(cart.prg_rom[..], rom[16..16 + 32768]);
    assert_eq!(cart.chr_rom[..], rom[16 + 32768..]);
    assert_eq!(cart.mapper_id, 0);
    assert_eq!(cart.mirroring, Mirroring::Vertical);
    assert!(!cart.battery);
    assert!(cart.trainer.is_empty());
}

#[test]
fn reads_the_flags() {
    let cart = Cartridge::from_bytes(&image(1, 0, 0x42, 0x00)).unwrap();
    assert_eq!(cart.mapper_id, 4);
    assert_eq!(cart.mirroring, Mirroring::Horizontal);
    assert!(cart.battery);
    assert!(cart.chr_rom.is_empty());
    let cart = Cartridge::from_bytes(&image(1, 1, 0x19, 0x00)).unwrap();
    assert_eq!(cart.mapper_id, 1);
    assert_eq!(cart.mirroring, Mirroring::FourScreen);
}

#[test]
fn skips_the_trainer_and_keeps_it() {
    let rom = image(1, 1, 0x04, 0x00);
    let cart = Cartridge::from_bytes(&rom).unwrap();
    assert_eq!(cart.trainer[..], rom[16..528]);
    assert_eq!(cart.prg_rom[..], rom[528..528 + 16384]);
    let board = Cart::new(cart);
    assert_eq!(board.cpu_read(0x7000), rom[16]);
    assert_eq!(board.cpu_read(0x71FF), rom[527]);
    assert_eq!(board.cpu_read(0x6FFF), 0);
    assert_eq!(board.cpu_read(0x7200), 0);
}

#[test]
fn refuses_a_short_header() {
    assert_eq!(fault(&[]), Error::RomFormat(RomFault::Truncated));
    assert_eq!(fault(&header(1, 1, 0, 0)[..15]), Error::RomFormat(RomFault::Truncated));
}

#[test]
fn refuses_a_bad_magic() {
    let mut rom = image(1, 1, 0, 0);
    rom[3] = 0x1B;
    assert_eq!(fault(&rom), Error::RomFormat(RomFault::BadMagic));
    let mut rom = image(1, 1, 0, 0);
    rom[0] = b'M';
    assert_eq!(fault(&rom), Error::RomFormat(RomFault::BadMagic));
}

#[test]
fn refuses_the_extended_format() {
    assert_eq!(fault(&image(1, 1, 0, 0x08)), Error::RomFormat(RomFault::UnsupportedFlags));
    assert!(Cartridge::from_bytes(&image(1, 1, 0, 0x04)).is_ok());
}

#[test]
fn refuses_an_image_without_program() {
    assert_eq!(fault(&image(0, 1, 0, 0)), Error::RomFormat(RomFault::NoProgram));
}

#[test]
fn refuses_an_unknown_mapper() {
    assert_eq!(fault(&image(1, 1, 0x50, 0x00)), Error::UnsupportedMapper(5));
    assert_eq!(fault(&image(1, 1, 0x00, 0x10)), Error::UnsupportedMapper(16));
    assert_eq!(fault(&image(1, 1, 0xF0, 0xF0)), Error::UnsupportedMapper(255));
}

#[test]
fn refuses_a_short_body() {
    let rom = image(2, 1, 0, 0);
    assert_eq!(fault(&rom[..rom.len() - 1]), Error::RomFormat(RomFault::Truncated));
    assert_eq!(fault(&rom[..16]), Error::RomFormat(RomFault::Truncated));
    let mut longer = rom.clone();
    longer.push(0);
    assert!(Cartridge::from_bytes(&longer).is_ok());
}

#[test]
fn board_reports_the_same_faults() {
    assert_eq!(
        Cart::from_bytes(&image(1, 1, 0x50, 0x00)).err().unwrap(),
        Error::UnsupportedMapper(5)
    );
    assert!(Cart::from_bytes(&image(1, 1, 0, 0)).is_ok());
}

#[test]
fn battery_memory_round_trip() {
    let mut board = Cart::from_bytes(&image(1, 1, 0x02, 0)).unwrap();
    board.cpu_write(0x6000, 0xAB);
    board.cpu_write(0x7FFF, 0xCD);
    let saved = board.battery_ram().unwrap();
    assert_eq!(saved.len(), 8192);
    assert_eq!(saved[0], 0xAB);
    assert_eq!(saved[8191], 0xCD);
    let mut fresh = Cart::from_bytes(&image(1, 1, 0x02, 0)).unwrap();
    assert!(fresh.restore_battery_ram(&saved));
    assert_eq!(fresh.cpu_read(0x6000), 0xAB);
    assert_eq!(fresh.cpu_read(0x7FFF), 0xCD);
    assert!(!fresh.restore_battery_ram(&vec![0u8; 100]));
    assert_eq!(fresh.cpu_read(0x6000), 0xAB);
    let plain = Cart::from_bytes(&image(1, 1, 0, 0)).unwrap();
    assert!(plain.battery_ram().is_none());
}
