use oxidenes::apu::Apu;
use oxidenes::audio::sample_queue;
use oxidenes::board::Cart;
use oxidenes::bus::{Bus, IRQ_VECTOR_LOC, NMI_VECTOR_LOC, RESET_VECTOR_LOC};
use oxidenes::joy::{Buttons, Joy};
use oxidenes::ppu::Ppu;

fn bus() -> Bus {
    let mut rom = vec![0x4E, 0x45, 0x53, 0x1A, 1, 0, 0, 0, 0, 0, 0, 0, 0, 0, 0, 0];
    rom.extend((0..0x4000usize).map(|i| (i % 251) as u8));
    let cart = Cart::from_bytes(&rom).unwrap();
    let (producer, _consumer) = sample_queue(441);
    Bus::new(cart, Apu::new(producer, 44_100), Ppu::new(), Joy::new())
}

#[test]
fn work_memory_is_mirrored() {
    let mut bus = bus();
    assert_eq!(bus.write(0x0001, 0xAA), 0);
    assert_eq!(bus.read(0x0801), 0xAA);
    assert_eq!(bus.read(0x1001), 0xAA);
    assert_eq!(bus.read(0x1801), 0xAA);
    bus.write(0x1FFF, 0xBB);
    assert_eq!(bus.read(0x07FF), 0xBB);
    assert_eq!(bus.ram.len(), 0x800);
    assert_eq!(bus.peek(0x17FF), 0xBB);
}

#[test]
fn ppu_registers_are_mirrored() {
    let mut bus = bus();
    bus.ppu.regs.vblank = true;
    assert_eq!(bus.peek(0x2002), 0); // no side effect, no value
    assert!(bus.ppu.regs.vblank);
    assert_eq!(bus.read(0x3FFA), 0x80);
    assert!(!bus.ppu.regs.vblank);
    bus.write(0x2008, 0x80);
    assert_eq!(bus.ppu.regs.ctrl, 0x80);
    bus.write(0x3FF9, 0x1E);
    assert_eq!(bus.ppu.regs.mask, 0x1E);
    bus.write(0x2003, 0x10);
    bus.write(0x2004, 0x42);
    bus.write(0x2003, 0x10);
    assert_eq!(bus.read(0x2004), 0x42);
}

#[test]
fn unmapped_reads_find_the_last_byte_on_the_bus() {
    let mut bus = bus();
    assert_eq!(bus.read(0x4018), 0);
    bus.write(0x0000, 0x5A);
    assert_eq!(bus.read(0x4018), 0x5A);
    assert_eq!(bus.read(0x2000), 0x5A); // a register that is only written
    assert_eq!(bus.read(0x4000), 0x5A);
    assert_eq!(bus.read(0x8005), 5);
    assert_eq!(bus.read(0x401F), 5);
    bus.write(0x4019, 0x77); // lost, but seen on the bus
    assert_eq!(bus.read(0x2005), 0x77);
    assert_eq!(bus.last, 0x77);
}

#[test]
fn sound_registers_and_status() {
    let mut bus = bus();
    bus.write(0x4015, 0x01);
    bus.write(0x4003, 0x08);
    assert_eq!(bus.apu.regs.pulse1.length, 254);
    assert_eq!(bus.read(0x4015), 0x01);
    bus.write(0x4017, 0x80);
    assert!(bus.apu.regs.frame.five_step);
}

#[test]
fn controller_ports() {
    let mut bus = bus();
    let mut keys = Buttons::none();
    keys.b = true;
    bus.joy.set_keys(1, keys);
    bus.write(0x4016, 1);
    bus.write(0x4016, 0);
    assert_eq!(bus.read(0x4017), 0);
    assert_eq!(bus.read(0x4017), 1);
    assert_eq!(bus.read(0x4016), 0);
    // A write to $4017 goes to the frame counter, not to the pads.
    bus.write(0x4017, 0x40);
    assert!(bus.apu.regs.frame.irq_inhibit);
    assert_eq!(bus.read(0x4017), 0);
}

#[test]
fn cartridge_window() {
    let mut bus = bus();
    assert_eq!(bus.read(0x8000), 0);
    assert_eq!(bus.read(0x8005), 5);
    assert_eq!(bus.read(0xC005), 5);
    assert_eq!(bus.read(0x4020), 0);
    bus.write(0x6000, 0x12);
    assert_eq!(bus.read(0x6000), 0x12);
    bus.write(0x8005, 0x99);
    assert_eq!(bus.read(0x8005), 5);
    bus.write(0x4018, 0x99);
    bus.write(0x5000, 0x99);
    assert_eq!(bus.read(0x5000), 0);
    assert_eq!(bus.cart.read_cart_u16(RESET_VECTOR_LOC), {
        let lo = (0x3FFC % 251) as u16;
        let hi = (0x3FFD % 251) as u16;
        lo | hi << 8
    });
    assert_eq!((NMI_VECTOR_LOC, IRQ_VECTOR_LOC), (0xFFFA, 0xFFFE));
}

#[test]
fn oam_dma_copies_a_page_from_oamaddr_on() {
    let mut bus = bus();
    for i in 0..256u16 {
        bus.write(0x0300 + i, (255 - i) as u8);
    }
    bus.write(0x2003, 0x04);
    let stall = bus.write(0x4014, 0x03);
    assert_eq!(stall, 513);
    assert_eq!(bus.ppu.oam[4], 255);
    assert_eq!(bus.ppu.oam[5], 254);
    assert_eq!(bus.ppu.oam[255], 255 - 251);
    assert_eq!(bus.ppu.oam[0], 255 - 252);
    assert_eq!(bus.ppu.oam[3], 255 - 255);
    // Third bytes of sprites keep five bits only.
    assert_eq!(bus.ppu.oam[6], (255 - 2) & 0xE3);
    assert_eq!(bus.ppu.regs.oam_addr, 0x04);
    bus.apu.regs.cycles = 7;
    assert_eq!(bus.write(0x4014, 0x03), 514);
}
