use oxidenes::apu::Apu;
use oxidenes::audio::sample_queue;
use oxidenes::board::Cart;
use oxidenes::bus::{Bus, RESET_VECTOR_LOC};
use oxidenes::console::StepEvent;
use oxidenes::cpu::Cpu;
use oxidenes::error::Error;
use oxidenes::joy::Joy;
use oxidenes::opcodes::{decode, AddressMode, Op, OpKind};
use oxidenes::ppu::Ppu;

/// A 32 KiB NROM image with `code` at `$8000` and the vectors of NMI, reset
/// and IRQ at `$9000`, `$8000` and `$A000`.
fn image(code: &[u8], patches: &[(u16, u8)]) -> Vec<u8> {
    let mut rom = vec![0x4E, 0x45, 0x53, 0x1A, 2, 1, 0, 0, 0, 0, 0, 0, 0, 0, 0, 0];
    let mut prg = vec![0xEAu8; 0x8000];
    prg[..code.len()].copy_from_slice(code);
    prg[0x7FFA] = 0x00;
    prg[0x7FFB] = 0x90;
    prg[0x7FFC] = 0x00;
    prg[0x7FFD] = 0x80;
    prg[0x7FFE] = 0x00;
    prg[0x7FFF] = 0xA0;
    for (addr, val) in patches {
        prg[(*addr - 0x8000) as usize] = *val;
    }
    rom.extend_from_slice(&prg);
    rom.extend_from_slice(&vec![0u8; 0x2000]);
    rom
}

fn console(code: &[u8], patches: &[(u16, u8)]) -> Cpu {
    let cart = Cart::from_bytes(&image(code, patches)).unwrap();
    let (producer, _consumer) = sample_queue(441);
    let pc = cart.read_cart_u16(RESET_VECTOR_LOC);
    let bus = Bus::new(cart, Apu::new(producer, 44_100), Ppu::new(), Joy::new());
    Cpu::new(bus, pc)
}

#[test]
fn reset_state() {
    let cpu = console(&[], &[]);
    assert_eq!(cpu.regs.program_counter, 0x8000);
    assert_eq!(cpu.regs.stack_pointer, 0xFD);
    assert!(cpu.regs.status_reg.interrupt);
    assert_eq!(cpu.regs.status_reg.to_byte(), 0x24);
}

#[test]
fn lda_sta_lda_ora() {
    let mut cpu = console(&[0xA9, 0x05, 0x85, 0x00, 0xA9, 0x03, 0x05, 0x00], &[]);
    let mut cycles = 0;
    for expected in [2u16, 3, 2, 3] {
        let step = cpu.step();
        assert_eq!(step.event, StepEvent::Running);
        assert_eq!(step.cycles, expected);
        cycles += step.cycles;
    }
    assert_eq!(cycles, 10);
    assert_eq!(cpu.regs.accumulator, 0x07);
    assert!(!cpu.regs.status_reg.zero);
    assert!(!cpu.regs.status_reg.negative);
    assert_eq!(cpu.bus.ram[0], 0x05);
    assert_eq!(cpu.regs.program_counter, 0x8008);
}

#[test]
fn every_step_keeps_the_clocks_in_step() {
    let mut cpu = console(&[0xA9, 0x05, 0x8D, 0x00, 0x02, 0xEE, 0x00, 0x02, 0x4C, 0x00, 0x80], &[]);
    let mut total: u64 = 0;
    for _ in 0..200 {
        let dots = cpu.bus.ppu.regs.dots;
        let sound = cpu.bus.apu.regs.cycles;
        let step = cpu.step();
        assert!(step.cycles > 0);
        total += step.cycles as u64;
        assert_eq!(cpu.bus.ppu.regs.dots - dots, 3 * step.cycles as u64);
        assert_eq!(cpu.bus.apu.regs.cycles - sound, step.cycles as u64);
    }
    assert_eq!(cpu.cycles, total);
    assert_eq!(cpu.bus.apu.regs.cycles, total);
    assert_eq!(cpu.bus.ppu.regs.dots, 3 * total);
}

const CYCLES: [u8; 256] = [
    7, 6, 2, 8, 3, 3, 5, 5, 3, 2, 2, 2, 4, 4, 6, 6, 2, 5, 2, 8, 4, 4, 6, 6, 2, 4, 2, 7, 4, 4, 7, 7,
    6, 6, 2, 8, 3, 3, 5, 5, 4, 2, 2, 2, 4, 4, 6, 6, 2, 5, 2, 8, 4, 4, 6, 6, 2, 4, 2, 7, 4, 4, 7, 7,
    6, 6, 2, 8, 3, 3, 5, 5, 3, 2, 2, 2, 3, 4, 6, 6, 2, 5, 2, 8, 4, 4, 6, 6, 2, 4, 2, 7, 4, 4, 7, 7,
    6, 6, 2, 8, 3, 3, 5, 5, 4, 2, 2, 2, 5, 4, 6, 6, 2, 5, 2, 8, 4, 4, 6, 6, 2, 4, 2, 7, 4, 4, 7, 7,
    2, 6, 2, 6, 3, 3, 3, 3, 2, 2, 2, 2, 4, 4, 4, 4, 2, 6, 2, 6, 4, 4, 4, 4, 2, 5, 2, 5, 5, 5, 5, 5,
    2, 6, 2, 6, 3, 3, 3, 3, 2, 2, 2, 2, 4, 4, 4, 4, 2, 5, 2, 5, 4, 4, 4, 4, 2, 4, 2, 4, 4, 4, 4, 4,
    2, 6, 2, 8, 3, 3, 5, 5, 2, 2, 2, 2, 4, 4, 6, 6, 2, 5, 2, 8, 4, 4, 6, 6, 2, 4, 2, 7, 4, 4, 7, 7,
    2, 6, 2, 8, 3, 3, 5, 5, 2, 2, 2, 2, 4, 4, 6, 6, 2, 5, 2, 8, 4, 4, 6, 6, 2, 4, 2, 7, 4, 4, 7, 7,
];

#[test]
fn decoding_reports_the_documented_cycles() {
    for opcode in 0..=255u8 {
        let info = decode(opcode);
        if info.kind == OpKind::Halt {
            continue;
        }
        // Operands of zero: no index carries, and a branch stays on its page.
        let mut cpu = console(&[opcode, 0x00, 0x00], &[]);
        let (op, instr) = cpu.read_instruction();
        assert_eq!(op, opcode);
        let taken = match info.op {
            Op::Bpl | Op::Bvc | Op::Bcc | Op::Bne => 1,
            _ => 0,
        };
        assert_eq!(instr.ticks, CYCLES[opcode as usize] + taken, "opcode {:02X}", opcode);
        assert_eq!(cpu.regs.program_counter, 0x8000 + instr.bytes as u16);
    }
}

#[test]
fn page_crossing_costs_a_read_one_cycle_and_a_write_none() {
    // LDX #$FF; LDA $80FF,X; STA $02FF,X
    let mut cpu = console(&[0xA2, 0xFF, 0xBD, 0xFF, 0x80, 0x9D, 0xFF, 0x02], &[]);
    assert_eq!(cpu.step().cycles, 2);
    assert_eq!(cpu.step().cycles, 5);
    assert_eq!(cpu.step().cycles, 5);
    // LDX #$01; LDA $8000,X
    let mut cpu = console(&[0xA2, 0x01, 0xBD, 0x00, 0x80], &[]);
    cpu.step();
    assert_eq!(cpu.step().cycles, 4);
    assert_eq!(cpu.regs.accumulator, 0x01);
}

#[test]
fn indirect_y_crossing() {
    // pointer at $10 -> $80FF; LDY #$01; LDA ($10),Y reads $8100
    let mut cpu = console(
        &[0xA9, 0xFF, 0x85, 0x10, 0xA9, 0x80, 0x85, 0x11, 0xA0, 0x01, 0xB1, 0x10],
        &[(0x8100, 0x5A)],
    );
    for _ in 0..5 {
        cpu.step();
    }
    assert_eq!(cpu.step().cycles, 6);
    assert_eq!(cpu.regs.accumulator, 0x5A);
}

#[test]
fn jmp_indirect_wraps_within_the_page() {
    // The pointer at $02FF: low byte at $02FF, high byte from $0200, not $0300.
    let mut cpu = console(
        &[
            0xA9, 0x34, 0x8D, 0xFF, 0x02, // $02FF = $34
            0xA9, 0x12, 0x8D, 0x00, 0x02, // $0200 = $12
            0xA9, 0x56, 0x8D, 0x00, 0x03, // $0300 = $56
            0x6C, 0xFF, 0x02, // JMP ($02FF)
        ],
        &[],
    );
    for _ in 0..6 {
        cpu.step();
    }
    let step = cpu.step();
    assert_eq!(step.cycles, 5);
    assert_eq!(cpu.regs.program_counter, 0x1234);
}

#[test]
fn jmp_indirect_within_a_page() {
    let mut cpu = console(&[0x6C, 0x10, 0x80], &[(0x8010, 0x78), (0x8011, 0x56)]);
    cpu.step();
    assert_eq!(cpu.regs.program_counter, 0x5678);
}

#[test]
fn branch_cycles() {
    // BEQ not taken (Z clear after reset): 2 cycles.
    let mut cpu = console(&[0xF0, 0x10], &[]);
    assert_eq!(cpu.step().cycles, 2);
    assert_eq!(cpu.regs.program_counter, 0x8002);
    // BNE taken within the page: 3 cycles.
    let mut cpu = console(&[0xD0, 0x10], &[]);
    assert_eq!(cpu.step().cycles, 3);
    assert_eq!(cpu.regs.program_counter, 0x8012);
    // BNE taken across a page boundary: 4 cycles. JMP $80F0; at $80F0: BNE +$20.
    let mut cpu = console(&[0x4C, 0xF0, 0x80], &[(0x80F0, 0xD0), (0x80F1, 0x20)]);
    cpu.step();
    assert_eq!(cpu.step().cycles, 4);
    assert_eq!(cpu.regs.program_counter, 0x8112);
    // BNE backwards across a page boundary: 4 cycles. At $8100: BNE -$10.
    let mut cpu = console(&[0x4C, 0x00, 0x81], &[(0x8100, 0xD0), (0x8101, 0xF0)]);
    cpu.step();
    assert_eq!(cpu.step().cycles, 4);
    assert_eq!(cpu.regs.program_counter, 0x80F2);
}

#[test]
fn nmi_goes_before_irq() {
    let mut cpu = console(&[0x58, 0xEA], &[]);
    cpu.step(); // CLI
    assert!(!cpu.regs.status_reg.interrupt);
    let pc = cpu.regs.program_counter;
    let first = cpu.service_nmi(true);
    let second = cpu.service_irq(true);
    assert!(first.taken);
    assert!(!second.taken);
    assert_eq!(cpu.regs.program_counter, 0x9000);
    assert!(cpu.regs.status_reg.interrupt);
    assert!(cpu.irq_pending);
    // The return address and the flags are on the stack, break bit clear.
    assert_eq!(cpu.bus.ram[0x1FD], (pc >> 8) as u8);
    assert_eq!(cpu.bus.ram[0x1FC], (pc & 0xFF) as u8);
    assert_eq!(cpu.bus.ram[0x1FB], 0x20);
    assert_eq!(cpu.regs.stack_pointer, 0xFA);
}

#[test]
fn irq_is_masked_by_the_interrupt_flag() {
    let mut cpu = console(&[0xEA], &[]);
    assert!(!cpu.irq());
    assert_eq!(cpu.regs.program_counter, 0x8000);
    cpu.regs.status_reg.interrupt = false;
    assert!(cpu.irq());
    assert_eq!(cpu.regs.program_counter, 0xA000);
}

#[test]
fn brk_and_rti() {
    // CLI; BRK; (padding); NOP ... handler at $A000: RTI
    let mut cpu = console(&[0x58, 0x00, 0xFF, 0xEA], &[(0xA000, 0x40)]);
    cpu.step();
    let step = cpu.step();
    assert_eq!(step.cycles, 7);
    assert_eq!(cpu.regs.program_counter, 0xA000);
    assert!(cpu.regs.status_reg.interrupt);
    assert_eq!(cpu.bus.ram[0x1FB], 0x30); // flags with break and unused set
    let step = cpu.step();
    assert_eq!(step.cycles, 6);
    assert_eq!(cpu.regs.program_counter, 0x8003);
    assert!(!cpu.regs.status_reg.interrupt);
    assert!(!cpu.regs.status_reg.brk);
}

#[test]
fn jsr_and_rts() {
    let mut cpu = console(&[0x20, 0x10, 0x80, 0xEA], &[(0x8010, 0x60)]);
    assert_eq!(cpu.step().cycles, 6);
    assert_eq!(cpu.regs.program_counter, 0x8010);
    assert_eq!(cpu.bus.ram[0x1FD], 0x80);
    assert_eq!(cpu.bus.ram[0x1FC], 0x02);
    assert_eq!(cpu.step().cycles, 6);
    assert_eq!(cpu.regs.program_counter, 0x8003);
    assert_eq!(cpu.regs.stack_pointer, 0xFD);
}

#[test]
fn stack_pushes_and_pulls() {
    // LDA #$80; PHA; LDA #$00; PLA; PHP; PLP
    let mut cpu = console(&[0xA9, 0x80, 0x48, 0xA9, 0x00, 0x68, 0x08, 0x28], &[]);
    cpu.step();
    assert_eq!(cpu.step().cycles, 3);
    cpu.step();
    assert!(cpu.regs.status_reg.zero);
    assert_eq!(cpu.step().cycles, 4);
    assert_eq!(cpu.regs.accumulator, 0x80);
    assert!(cpu.regs.status_reg.negative);
    assert!(!cpu.regs.status_reg.zero);
    cpu.step();
    assert_eq!(cpu.bus.ram[0x1FD], 0xB4); // N, unused, break, I
    cpu.step();
    assert!(!cpu.regs.status_reg.brk);
    assert!(cpu.regs.status_reg.unused);
    assert!(cpu.regs.status_reg.negative);
}

#[test]
fn read_modify_write() {
    // LDA #$81; STA $10; ASL $10; ROR A; INC $10; DEC $10,X
    let mut cpu = console(&[0xA9, 0x81, 0x85, 0x10, 0x06, 0x10, 0x6A, 0xE6, 0x10, 0xD6, 0x10], &[]);
    cpu.step();
    cpu.step();
    assert_eq!(cpu.step().cycles, 5);
    assert_eq!(cpu.bus.ram[0x10], 0x02);
    assert!(cpu.regs.status_reg.carry);
    assert_eq!(cpu.step().cycles, 2);
    assert_eq!(cpu.regs.accumulator, 0xC0);
    assert!(cpu.regs.status_reg.carry);
    cpu.step();
    assert_eq!(cpu.bus.ram[0x10], 0x03);
    assert_eq!(cpu.step().cycles, 6);
    assert_eq!(cpu.bus.ram[0x10], 0x02);
}

#[test]
fn undocumented_operations() {
    // LDA #$F0; STA $10; LAX $10; SAX $11; DCP $10; ISC $10; SLO $10
    let mut cpu = console(
        &[0xA9, 0xF0, 0x85, 0x10, 0xA7, 0x10, 0x87, 0x11, 0xC7, 0x10, 0xE7, 0x10, 0x07, 0x10],
        &[],
    );
    cpu.step();
    cpu.step();
    assert_eq!(cpu.step().cycles, 3);
    assert_eq!(cpu.regs.accumulator, 0xF0);
    assert_eq!(cpu.regs.index_x, 0xF0);
    assert_eq!(cpu.step().cycles, 3);
    assert_eq!(cpu.bus.ram[0x11], 0xF0);
    assert_eq!(cpu.step().cycles, 5);
    assert_eq!(cpu.bus.ram[0x10], 0xEF);
    assert!(cpu.regs.status_reg.carry); // $F0 >= $EF
    assert!(!cpu.regs.status_reg.zero);
    assert_eq!(cpu.step().cycles, 5);
    assert_eq!(cpu.bus.ram[0x10], 0xF0);
    assert_eq!(cpu.regs.accumulator, 0x00); // $F0 - $F0
    assert!(cpu.regs.status_reg.zero);
    assert!(cpu.regs.status_reg.carry);
    assert_eq!(cpu.step().cycles, 5);
    assert_eq!(cpu.bus.ram[0x10], 0xE0);
    assert_eq!(cpu.regs.accumulator, 0xE0);
    assert!(cpu.regs.status_reg.carry);
}

#[test]
fn immediate_undocumented_operations() {
    // LDA #$FF; ANC #$80; LDA #$03; ALR #$03; LDA #$FF; LDX #$0F; AXS #$01
    let mut cpu = console(
        &[0xA9, 0xFF, 0x0B, 0x80, 0xA9, 0x03, 0x4B, 0x03, 0xA9, 0xFF, 0xA2, 0x0F, 0xCB, 0x01],
        &[],
    );
    cpu.step();
    cpu.step();
    assert_eq!(cpu.regs.accumulator, 0x80);
    assert!(cpu.regs.status_reg.carry);
    cpu.step();
    cpu.step();
    assert_eq!(cpu.regs.accumulator, 0x01);
    assert!(cpu.regs.status_reg.carry);
    cpu.step();
    cpu.step();
    cpu.step();
    assert_eq!(cpu.regs.index_x, 0x0E);
    assert!(cpu.regs.status_reg.carry);
}

#[test]
fn compare_and_bit() {
    // LDA #$40; CMP #$41; CMP #$40; BIT $10 (with $10 = $C0)
    let mut cpu = console(&[0xA9, 0xC0, 0x85, 0x10, 0xA9, 0x40, 0xC9, 0x41, 0xC9, 0x40, 0x24, 0x10], &[]);
    cpu.step();
    cpu.step();
    cpu.step();
    cpu.step();
    assert!(!cpu.regs.status_reg.carry);
    assert!(cpu.regs.status_reg.negative);
    cpu.step();
    assert!(cpu.regs.status_reg.carry);
    assert!(cpu.regs.status_reg.zero);
    cpu.step();
    assert!(cpu.regs.status_reg.overflow);
    assert!(cpu.regs.status_reg.negative);
    assert!(!cpu.regs.status_reg.zero);
}

#[test]
fn brk_at_address_zero_halts() {
    let mut cpu = console(&[0x4C, 0x00, 0x00], &[]);
    cpu.step();
    assert_eq!(cpu.regs.program_counter, 0);
    let step = cpu.step();
    assert_eq!(step.event, StepEvent::Halted);
    assert_eq!(step.cycles, 0);
    assert_eq!(cpu.regs.program_counter, 0);
}

#[test]
fn unsupported_opcode_is_reported() {
    let mut cpu = console(&[0x02], &[]);
    let step = cpu.step();
    assert_eq!(step.event, StepEvent::Fault(Error::UnsupportedOpcode(0x02)));
    assert_eq!(step.cycles, 0);
}

#[test]
fn oam_dma_holds_the_processor() {
    // LDA #$02; STA $4014
    let mut cpu = console(&[0xA9, 0x02, 0x8D, 0x14, 0x40], &[]);
    for i in 0..=255u16 {
        cpu.bus.ram[0x200 + i as usize] = i as u8;
    }
    cpu.step();
    let step = cpu.step();
    // The store's 4 cycles run before the write: it falls on cycle 6, an even one.
    assert_eq!(step.cycles, 4 + 513);
    assert_eq!(cpu.bus.ppu.oam[0], 0);
    assert_eq!(cpu.bus.ppu.oam[1], 1);
    assert_eq!(cpu.bus.ppu.oam[2], 2);
    assert_eq!(cpu.bus.ppu.oam[6], 2); // bits 2 to 4 of an attribute byte are not kept
    assert_eq!(cpu.bus.ppu.oam[7], 7);
    assert_eq!(cpu.bus.ppu.oam[255], 255);
    assert_eq!(cpu.bus.ppu.regs.oam_addr, 0);
    // NOP first: the write falls on an odd cycle.
    let mut cpu = console(&[0xA9, 0x02, 0xA5, 0x00, 0x8D, 0x14, 0x40], &[]);
    cpu.step();
    cpu.step();
    assert_eq!(cpu.step().cycles, 4 + 514);
}

#[test]
fn decoded_fields() {
    let mut cpu = console(&[0xBD, 0x34, 0x12], &[]);
    cpu.regs.index_x = 4;
    let (op, instr) = cpu.read_instruction();
    assert_eq!(op, 0xBD);
    assert_eq!(instr.bytes, 3);
    assert_eq!(instr.operand, 0x1234);
    assert_eq!(instr.dest_addr, Some(0x1238));
    assert_eq!(instr.addr_mode, AddressMode::AbsoluteX);
    assert_eq!(instr.name, "LDA");
    assert_eq!(instr.ticks, 4);
}
