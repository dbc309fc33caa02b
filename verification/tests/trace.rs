use oxidenes::apu::Apu;
use oxidenes::audio::sample_queue;
use oxidenes::board::Cart;
use oxidenes::bus::{Bus, RESET_VECTOR_LOC};
use oxidenes::cpu::Cpu;
use oxidenes::joy::Joy;
use oxidenes::ppu::Ppu;
use oxidenes::trace::cpu_debug;

fn console(code: &[u8]) -> Cpu {
    let mut rom = vec![0x4E, 0x45, 0x53, 0x1A, 2, 1, 0, 0, 0, 0, 0, 0, 0, 0, 0, 0];
    let mut prg = vec![0xEAu8; 0x8000];
    prg[..code.len()].copy_from_slice(code);
    prg[0x7FFC] = 0x00;
    prg[0x7FFD] = 0x80;
    rom.extend_from_slice(&prg);
    rom.extend_from_slice(&vec![0u8; 0x2000]);
    let cart = Cart::from_bytes(&rom).unwrap();
    let (producer, _consumer) = sample_queue(441);
    let pc = cart.read_cart_u16(RESET_VECTOR_LOC);
    Cpu::new(Bus::new(cart, Apu::new(producer, 44_100), Ppu::new(), Joy::new()), pc)
}

/// The line for the instruction at the program counter, and the console
/// after the instruction.
fn traced(cpu: &mut Cpu) -> String {
    let (op, instr) = cpu.read_instruction();
    let line = cpu_debug(op, &instr, cpu);
    cpu.execute_op(op, &instr);
    line
}

fn line(pc: u16, bytes: &str, name: &str, address: &str, regs: &str) -> String {
    format!("{:04X}  {} {:>4} {:<27} {}\r\n", pc, bytes, name, address, regs)
}

const RESET: &str = "A:00 X:00 Y:00 P:24 SP:FD CYC:  0 SL:0";

#[test]
fn immediate_and_zero_page() {
    let mut cpu = console(&[0xA9, 0x05, 0x85, 0x10, 0xA5, 0x10]);
    assert_eq!(
        traced(&mut cpu),
        "8000  A9 05     LDA #$05                        A:00 X:00 Y:00 P:24 SP:FD CYC:  0 SL:0\r\n"
    );
    assert_eq!(
        traced(&mut cpu),
        line(0x8002, "85 10   ", "STA", "$10 = 00", "A:05 X:00 Y:00 P:24 SP:FD CYC:  0 SL:0")
    );
    assert_eq!(
        traced(&mut cpu),
        line(0x8004, "A5 10   ", "LDA", "$10 = 05", "A:05 X:00 Y:00 P:24 SP:FD CYC:  0 SL:0")
    );
}

#[test]
fn absolute_and_indexed() {
    let mut cpu = console(&[
        0xA2, 0x03, // LDX #$03
        0xA0, 0x80, // LDY #$80
        0x8D, 0x34, 0x02, // STA $0234
        0xBD, 0xF0, 0x07, // LDA $07F0,X
        0xB9, 0x00, 0x90, // LDA $9000,Y
        0xB5, 0xFE, // LDA $FE,X
        0xB6, 0x10, // LDX $10,Y
    ]);
    assert_eq!(traced(&mut cpu), line(0x8000, "A2 03   ", "LDX", "#$03", RESET));
    assert_eq!(
        traced(&mut cpu),
        line(0x8002, "A0 80   ", "LDY", "#$80", "A:00 X:03 Y:00 P:24 SP:FD CYC:  0 SL:0")
    );
    assert_eq!(
        traced(&mut cpu),
        line(0x8004, "8D 34 02", "STA", "$0234 = 00", "A:00 X:03 Y:80 P:A4 SP:FD CYC:  0 SL:0")
    );
    assert_eq!(
        traced(&mut cpu),
        line(0x8007, "BD F0 07", "LDA", "$07F0,X @ 07F3 = 00", "A:00 X:03 Y:80 P:A4 SP:FD CYC:  0 SL:0")
    );
    assert_eq!(
        traced(&mut cpu),
        line(0x800A, "B9 00 90", "LDA", "$9000,Y @ 9080", "A:00 X:03 Y:80 P:26 SP:FD CYC:  0 SL:0")
    );
    assert_eq!(
        traced(&mut cpu),
        line(0x800D, "B5 FE   ", "LDA", "$FE,X @ 01 = 00", "A:EA X:03 Y:80 P:A4 SP:FD CYC:  0 SL:0")
    );
    assert_eq!(
        traced(&mut cpu),
        line(0x800F, "B6 10   ", "LDX", "$10,Y @ 90 = 00", "A:00 X:03 Y:80 P:26 SP:FD CYC:  0 SL:0")
    );
}

#[test]
fn indirect_modes() {
    let mut cpu = console(&[
        0xA2, 0x04, // LDX #$04
        0xA0, 0x02, // LDY #$02
        0xA1, 0x20, // LDA ($20,X)
        0xB1, 0x24, // LDA ($24),Y
        0xA1, 0xFE, // LDA ($FE,X): the sum is printed as it is, not wrapped
        0x6C, 0x24, 0x00, // JMP ($0024): an operand below $100 is printed as one byte
    ]);
    cpu.bus.ram[0x24] = 0x00;
    cpu.bus.ram[0x25] = 0x03;
    cpu.bus.ram[0x300] = 0x5A;
    cpu.bus.ram[0x302] = 0xA5;
    traced(&mut cpu);
    traced(&mut cpu);
    assert_eq!(
        traced(&mut cpu),
        line(0x8004, "A1 20   ", "LDA", "($20,X) @ 24 = 0300 = 5A", "A:00 X:04 Y:02 P:24 SP:FD CYC:  0 SL:0")
    );
    assert_eq!(
        traced(&mut cpu),
        line(0x8006, "B1 24   ", "LDA", "($24),Y = 0300 @ 0302 = A5", "A:5A X:04 Y:02 P:24 SP:FD CYC:  0 SL:0")
    );
    assert_eq!(
        traced(&mut cpu),
        line(0x8008, "A1 FE   ", "LDA", "($FE,X) @ 102 = 0000 = 00", "A:A5 X:04 Y:02 P:A4 SP:FD CYC:  0 SL:0")
    );
    assert_eq!(
        traced(&mut cpu),
        line(0x800A, "6C 24   ", "JMP", "($0024) = 0300", "A:00 X:04 Y:02 P:26 SP:FD CYC:  0 SL:0")
    );
    assert_eq!(cpu.regs.program_counter, 0x0300);
}

#[test]
fn branches_accumulator_and_implied() {
    let mut cpu = console(&[0xD0, 0x10]);
    assert_eq!(traced(&mut cpu), line(0x8000, "D0 10   ", "BNE", "$8012", RESET));
    let mut cpu = console(&[0xF0, 0xFC, 0x0A, 0xEA, 0x00]);
    assert_eq!(traced(&mut cpu), line(0x8000, "F0 FC   ", "BEQ", "$7FFE", RESET));
    assert_eq!(traced(&mut cpu), line(0x8002, "0A      ", "ASL", "A", RESET));
    assert_eq!(
        traced(&mut cpu),
        line(0x8003, "EA      ", "NOP", "", "A:00 X:00 Y:00 P:26 SP:FD CYC:  0 SL:0")
    );
    assert_eq!(
        traced(&mut cpu),
        "8004  00        BRK                             A:00 X:00 Y:00 P:26 SP:FD CYC:  0 SL:0\r\n"
    );
}

#[test]
fn cycle_and_scanline_columns() {
    let mut cpu = console(&[0xEA, 0xEA]);
    cpu.cycle = 339;
    cpu.bus.ppu.regs.scanline = 241;
    cpu.regs.accumulator = 0xAB;
    cpu.regs.stack_pointer = 0x01;
    assert_eq!(
        traced(&mut cpu),
        line(0x8000, "EA      ", "NOP", "", "A:AB X:00 Y:00 P:24 SP:01 CYC:339 SL:241")
    );
    cpu.cycle = 27;
    cpu.bus.ppu.regs.scanline = 9;
    assert_eq!(
        traced(&mut cpu),
        line(0x8001, "EA      ", "NOP", "", "A:AB X:00 Y:00 P:24 SP:01 CYC: 27 SL:9")
    );
}

#[test]
fn sum_of_operand_and_index_is_printed_whole() {
    let mut cpu = console(&[0xA1, 0x20]);
    cpu.regs.index_x = 0xFF;
    cpu.bus.ram[0x1F] = 0x34;
    cpu.bus.ram[0x20] = 0x02;
    cpu.bus.ram[0x234] = 0x77;
    assert_eq!(
        traced(&mut cpu),
        line(0x8000, "A1 20   ", "LDA", "($20,X) @ 11F = 0234 = 77", "A:00 X:FF Y:00 P:24 SP:FD CYC:  0 SL:0")
    );
    assert_eq!(cpu.regs.accumulator, 0x77);
}
