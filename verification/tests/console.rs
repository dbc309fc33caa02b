use oxidenes::apu::Apu;
use oxidenes::audio::{sample_queue, ApuOut};
use oxidenes::board::Cart;
use oxidenes::bus::{Bus, RESET_VECTOR_LOC};
use oxidenes::console::StepEvent;
use oxidenes::cpu::Cpu;
use oxidenes::joy::{Buttons, Joy};
use oxidenes::ppu::Ppu;

/// A 32 KiB NROM image with `code` at `$8000`, `nmi` at `$9000` and `irq` at
/// `$A000`.
fn console(code: &[u8], nmi: &[u8], irq: &[u8]) -> (Cpu, ApuOut) {
    let mut rom = vec![0x4E, 0x45, 0x53, 0x1A, 2, 0, 0, 0, 0, 0, 0, 0, 0, 0, 0, 0];
    let mut prg = vec![0xEAu8; 0x8000];
    prg[..code.len()].copy_from_slice(code);
    prg[0x1000..0x1000 + nmi.len()].copy_from_slice(nmi);
    prg[0x2000..0x2000 + irq.len()].copy_from_slice(irq);
    prg[0x7FFA..].copy_from_slice(&[0x00, 0x90, 0x00, 0x80, 0x00, 0xA0]);
    rom.extend_from_slice(&prg);
    let cart = Cart::from_bytes(&rom).unwrap();
    let (producer, consumer) = sample_queue(441);
    let pc = cart.read_cart_u16(RESET_VECTOR_LOC);
    let bus = Bus::new(cart, Apu::new(producer, 44_100), Ppu::new(), Joy::new());
    (Cpu::new(bus, pc), ApuOut::new(consumer))
}

/// Steps until a frame is ready and returns the cycles that took.
fn run_frame(cpu: &mut Cpu) -> u64 {
    let mut cycles = 0;
    loop {
        let step = cpu.step();
        cycles += step.cycles as u64;
        match step.event {
            StepEvent::FrameReady => return cycles,
            StepEvent::Running => {}
            other => panic!("stopped: {:?}", other),
        }
    }
}

#[test]
fn a_frame_is_ready_after_the_last_visible_line() {
    let (mut cpu, _out) = console(&[0x4C, 0x00, 0x80], &[], &[]);
    let first = run_frame(&mut cpu);
    // 240 lines of 341 dots, three dots a cycle, in steps of three cycles.
    assert_eq!(first, 27_282);
    assert_eq!(cpu.bus.ppu.regs.scanline, 240);
    assert_eq!(cpu.bus.ppu.regs.dots, 3 * first);
    let second = run_frame(&mut cpu);
    // A frame is 262 * 341 = 89342 dots: 29780 cycles and two dots.
    assert_eq!(second, 29_781);
    assert_eq!(cpu.bus.ppu.regs.scanline, 240);
    let third = run_frame(&mut cpu);
    assert_eq!(first + second + third, (81_840 + 2 * 89_342 + 2) / 3 / 3 * 3 + 3);
    assert_eq!(cpu.cycles, first + second + third);
}

#[test]
fn dot_counter_follows_the_scanline() {
    let (mut cpu, _out) = console(&[0x4C, 0x00, 0x80], &[], &[]);
    for _ in 0..1000 {
        cpu.step();
        assert_eq!(cpu.cycle, cpu.bus.ppu.regs.dot);
        assert!(cpu.cycle < 341);
    }
}

#[test]
fn nmi_is_taken_once_a_frame() {
    // LDA #$80; STA $2000; loop: JMP loop     nmi: INC $10; RTI
    let (mut cpu, _out) = console(
        &[0xA9, 0x80, 0x8D, 0x00, 0x20, 0x4C, 0x05, 0x80],
        &[0xE6, 0x10, 0x40],
        &[],
    );
    run_frame(&mut cpu);
    assert_eq!(cpu.bus.ram[0x10], 0);
    // Vertical blank begins 342 dots later: within 114 cycles the handler runs.
    let mut cycles = 0;
    let mut entered = false;
    while cycles < 150 {
        let step = cpu.step();
        cycles += step.cycles;
        if cpu.regs.program_counter == 0x9000 {
            entered = true;
            assert!(step.cycles == 3 + 7);
            assert!(cycles >= 114 && cycles <= 114 + 10);
            assert!(cpu.regs.status_reg.interrupt);
        }
    }
    assert!(entered);
    assert_eq!(cpu.bus.ram[0x10], 1);
    run_frame(&mut cpu);
    assert_eq!(cpu.bus.ram[0x10], 1);
    run_frame(&mut cpu);
    assert_eq!(cpu.bus.ram[0x10], 2);
}

#[test]
fn frame_counter_interrupt_reaches_the_processor() {
    // CLI; loop: JMP loop     irq: LDA $4015; INC $11; RTI
    let (mut cpu, _out) = console(
        &[0x58, 0x4C, 0x01, 0x80],
        &[],
        &[0xAD, 0x15, 0x40, 0xE6, 0x11, 0x40],
    );
    let mut cycles = 0u64;
    while cycles < 29_820 {
        cycles += cpu.step().cycles as u64;
    }
    assert_eq!(cpu.bus.ram[0x11], 0);
    while cycles < 29_860 {
        cycles += cpu.step().cycles as u64;
    }
    assert_eq!(cpu.bus.ram[0x11], 1);
    assert!(!cpu.bus.apu.regs.frame.irq); // the handler's read acknowledged it
    while cycles < 2 * 29_830 + 40 {
        cycles += cpu.step().cycles as u64;
    }
    assert_eq!(cpu.bus.ram[0x11], 2);
}

#[test]
fn masked_interrupt_request_stays_latched() {
    // SEI is the reset state: the request is seen, and not taken.
    let (mut cpu, _out) = console(&[0x4C, 0x00, 0x80], &[], &[0x40]);
    let mut cycles = 0u64;
    while cycles < 30_000 {
        cycles += cpu.step().cycles as u64;
        assert_ne!(cpu.regs.program_counter, 0xA000);
    }
    assert!(cpu.irq_pending);
    assert!(cpu.bus.apu.regs.frame.irq);
}

#[test]
fn controller_is_read_over_the_bus() {
    // LDA #$01; STA $4016; LDA #$00; STA $4016; then eight times LDA $4016; STA $20,X; INX
    let mut code = vec![0xA9, 0x01, 0x8D, 0x16, 0x40, 0xA9, 0x00, 0x8D, 0x16, 0x40];
    for _ in 0..8 {
        code.extend_from_slice(&[0xAD, 0x16, 0x40, 0x95, 0x20, 0xE8]);
    }
    let (mut cpu, _out) = console(&code, &[], &[]);
    let mut keys = Buttons::none();
    keys.a = true;
    keys.start = true;
    cpu.bus.joy.set_keys(0, keys);
    for _ in 0..(4 + 8 * 3) {
        cpu.step();
    }
    assert_eq!(cpu.bus.ram[0x20..0x28], [1, 0, 0, 1, 0, 0, 0, 0]);
}

#[test]
fn samples_flow_while_the_console_runs() {
    // LDA #$40; STA $4011; loop
    let (mut cpu, mut out) = console(&[0xA9, 0x40, 0x8D, 0x11, 0x40, 0x4C, 0x05, 0x80], &[], &[]);
    let mut cycles = 0u64;
    while cycles < 17_900 {
        cycles += cpu.step().cycles as u64;
    }
    // A hundredth of a second: 441 samples at the level set.
    let mut buffer = vec![0u32; 441];
    out.callback(&mut buffer);
    assert!(buffer.iter().all(|s| *s == 0x40));
    let made = cycles * 44_100 / 1_789_773;
    assert_eq!(made, 441);
    // The queue is drained: the callback falls back on silence.
    let mut rest = vec![0xFFFFu32; 8];
    out.callback(&mut rest);
    assert_eq!(rest, vec![0; 8]);
    while cycles < 2 * 17_900 {
        cycles += cpu.step().cycles as u64;
    }
    out.callback(&mut rest);
    assert_eq!(rest, vec![0x40; 8]);
}
