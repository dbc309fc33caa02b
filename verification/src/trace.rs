//! The trace line of an instruction: address, opcode, operand, mnemonic,
//! effective address and registers, as text.

use crate::alu::Registers;
use crate::cpu::{branch_target, offset, target_of, Cpu, CpuView, Instruction};
use crate::opcodes::AddressMode;
use crate::text::{
    dec_field, hex_field, pad_left, pad_right, push_dec, push_hex, push_left_aligned,
    push_right_aligned,
};
use vstd::prelude::*;
use vstd::string::StringExecFns;

verus! {

/// The operand bytes as they stand in the program, in a field of five
/// characters: both bytes of a word above `$FF`, one byte otherwise, and
/// nothing for an instruction of one byte.
pub open spec fn operand_text(instr: Instruction) -> Seq<char> {
    if instr.bytes == 1 {
        "     "@
    } else if instr.operand > 0xFF {
        hex_field((instr.operand % 256) as nat, 2) + " "@ + hex_field((instr.operand / 256) as nat, 2)
    } else {
        hex_field(instr.operand as nat, 2) + "   "@
    }
}

/// What lies at `addr`, for an address in work memory.
pub open spec fn value_text(ram: Seq<u8>, addr: u16) -> Seq<char> {
    if addr < 0x800 {
        " = "@ + hex_field(ram[addr as int] as nat, 2)
    } else {
        Seq::empty()
    }
}

/// The effective address in the notation of the addressing mode, where
/// `addr` is the effective address and the program counter in `regs` stands
/// behind the instruction.
pub open spec fn target_text(instr: Instruction, regs: Registers, ram: Seq<u8>, addr: u16) -> Seq<
    char,
> {
    let value = value_text(ram, addr);
    let operand = instr.operand as nat;
    match instr.addr_mode {
        AddressMode::Immediate => "#$"@ + hex_field((instr.operand % 256) as nat, 2),
        AddressMode::Absolute => "$"@ + hex_field(addr as nat, 4) + value,
        AddressMode::AbsoluteX => "$"@ + hex_field(operand, 4) + ",X @ "@ + hex_field(
            addr as nat,
            4,
        ) + value,
        AddressMode::AbsoluteY => "$"@ + hex_field(operand, 4) + ",Y @ "@ + hex_field(
            addr as nat,
            4,
        ) + value,
        AddressMode::XIndirect => "($"@ + hex_field(operand, 2) + ",X) @ "@ + hex_field(
            offset(instr.operand, regs.index_x as int) as nat,
            2,
        ) + " = "@ + hex_field(addr as nat, 4) + value,
        AddressMode::IndirectY => "($"@ + hex_field(operand, 2) + "),Y = "@ + hex_field(
            offset(addr, -(regs.index_y as int)) as nat,
            4,
        ) + " @ "@ + hex_field(addr as nat, 4) + value,
        AddressMode::Zeropage => "$"@ + hex_field((addr % 256) as nat, 2) + value,
        AddressMode::ZeropageX => "$"@ + hex_field(operand, 2) + ",X @ "@ + hex_field(
            addr as nat,
            2,
        ) + value,
        AddressMode::ZeropageY => "$"@ + hex_field(operand, 2) + ",Y @ "@ + hex_field(
            addr as nat,
            2,
        ) + value,
        AddressMode::Indirect => "($"@ + hex_field(operand, 4) + ") = "@ + hex_field(
            addr as nat,
            4,
        ),
        AddressMode::Relative => "$"@ + hex_field(
            branch_target(regs.program_counter, (instr.operand % 256) as u8) as nat,
            4,
        ),
        _ => Seq::empty(),
    }
}

/// The column of the effective address: its notation, `A` for an
/// instruction on the accumulator, or nothing.
pub open spec fn address_text(instr: Instruction, regs: Registers, ram: Seq<u8>) -> Seq<char> {
    match instr.dest_addr {
        Some(addr) => target_text(instr, regs, ram, addr),
        None => if instr.addr_mode == AddressMode::Accumulator {
            "A"@
        } else {
            Seq::empty()
        },
    }
}

/// The registers: `A`, `X`, `Y`, the flags and the stack pointer in
/// hexadecimal, the dot within the scanline and the scanline in decimal.
pub open spec fn register_text(cpu: CpuView) -> Seq<char> {
    " A:"@ + hex_field(cpu.regs.accumulator as nat, 2) + " X:"@ + hex_field(
        cpu.regs.index_x as nat,
        2,
    ) + " Y:"@ + hex_field(cpu.regs.index_y as nat, 2) + " P:"@ + hex_field(
        cpu.regs.status_reg.byte() as nat,
        2,
    ) + " SP:"@ + hex_field(cpu.regs.stack_pointer as nat, 2) + " CYC:"@ + dec_field(
        (cpu.cycle % 341) as nat,
        3,
    ) + " SL:"@ + dec_field(cpu.bus.ppu.regs.scanline as nat, 0) + "\r\n"@
}

/// The trace line of the instruction `instr` with the opcode `op`, for a
/// processor that has decoded it and not yet executed it: the address of
/// the instruction, the opcode, the operand bytes, the mnemonic
/// right-aligned in four columns, the effective address left-aligned in 27,
/// and the registers.
pub open spec fn trace_line(op: u8, instr: Instruction, cpu: CpuView) -> Seq<char> {
    hex_field(offset(cpu.regs.program_counter, -(instr.bytes as int)) as nat, 4) + "  "@
        + hex_field(op as nat, 2) + " "@ + operand_text(instr) + " "@ + pad_left(instr.name@, 4, ' ')
        + " "@ + pad_right(address_text(instr, cpu.regs, cpu.bus.ram), 27, ' ') + register_text(cpu)
}

/// Appends [`operand_text`].
pub fn push_operand(out: &mut String, instr: &Instruction)
    ensures
        final(out)@ == old(out)@ + operand_text(*instr),
{
    let ghost start = out@;
    if instr.bytes == 1 {
        out.append("     ");
    } else if instr.operand > 0xFF {
        push_hex(out, instr.operand % 256, 2);
        out.append(" ");
        push_hex(out, instr.operand / 256, 2);
        assert(out@ =~= start + operand_text(*instr));
    } else {
        push_hex(out, instr.operand, 2);
        out.append("   ");
        assert(out@ =~= start + operand_text(*instr));
    }
}

/// Appends [`value_text`].
pub fn push_value(out: &mut String, ram: &Vec<u8>, addr: u16)
    requires
        ram.len() == 0x800,
    ensures
        final(out)@ == old(out)@ + value_text(ram@, addr),
{
    let ghost start = out@;
    if addr < 0x800 {
        out.append(" = ");
        push_hex(out, ram[addr as usize] as u16, 2);
    }
    assert(out@ =~= start + value_text(ram@, addr));
}

/// Appends the notation of an indexed address: the sigil, the operand,
/// the index, and the effective address.
fn push_indexed(out: &mut String, sigil: &str, operand: u16, index: &str, addr: u16, width: usize)
    requires
        1 <= width <= 4,
    ensures
        final(out)@ == old(out)@ + (sigil@ + hex_field(operand as nat, width as nat) + index@
            + hex_field(addr as nat, width as nat)),
{
    let ghost start = out@;
    out.append(sigil);
    push_hex(out, operand, width);
    out.append(index);
    push_hex(out, addr, width);
    assert(out@ =~= start + (sigil@ + hex_field(operand as nat, width as nat) + index@ + hex_field(
        addr as nat,
        width as nat,
    )));
}

/// The text of [`target_text`].
pub fn target_string(instr: &Instruction, regs: &Registers, ram: &Vec<u8>, addr: u16) -> (s: String)
    requires
        ram.len() == 0x800,
    ensures
        s@ == target_text(*instr, *regs, ram@, addr),
{
    let mut s = String::new();
    let operand = instr.operand;
    match instr.addr_mode {
        AddressMode::Immediate => {
            s.append("#$");
            push_hex(&mut s, operand % 256, 2);
        },
        AddressMode::Absolute => {
            s.append("$");
            push_hex(&mut s, addr, 4);
            push_value(&mut s, ram, addr);
        },
        AddressMode::AbsoluteX => {
            push_indexed(&mut s, "$", operand, ",X @ ", addr, 4);
            push_value(&mut s, ram, addr);
        },
        AddressMode::AbsoluteY => {
            push_indexed(&mut s, "$", operand, ",Y @ ", addr, 4);
            push_value(&mut s, ram, addr);
        },
        AddressMode::XIndirect => {
            proof {
                reveal(offset);
            }
            push_indexed(
                &mut s,
                "($",
                operand,
                ",X) @ ",
                operand.wrapping_add(regs.index_x as u16),
                2,
            );
            s.append(" = ");
            push_hex(&mut s, addr, 4);
            push_value(&mut s, ram, addr);
        },
        AddressMode::IndirectY => {
            proof {
                reveal(offset);
            }
            s.append("($");
            push_hex(&mut s, operand, 2);
            s.append("),Y = ");
            push_hex(&mut s, addr.wrapping_sub(regs.index_y as u16), 4);
            s.append(" @ ");
            push_hex(&mut s, addr, 4);
            push_value(&mut s, ram, addr);
        },
        AddressMode::Zeropage => {
            s.append("$");
            push_hex(&mut s, addr % 256, 2);
            push_value(&mut s, ram, addr);
        },
        AddressMode::ZeropageX => {
            push_indexed(&mut s, "$", operand, ",X @ ", addr, 2);
            push_value(&mut s, ram, addr);
        },
        AddressMode::ZeropageY => {
            push_indexed(&mut s, "$", operand, ",Y @ ", addr, 2);
            push_value(&mut s, ram, addr);
        },
        AddressMode::Indirect => {
            push_indexed(&mut s, "($", operand, ") = ", addr, 4);
        },
        AddressMode::Relative => {
            s.append("$");
            push_hex(&mut s, target_of(regs.program_counter, (operand % 256) as u8), 4);
        },
        _ => {},
    }
    assert(s@ =~= target_text(*instr, *regs, ram@, addr));
    s
}

/// The text of [`address_text`].
pub fn address_string(instr: &Instruction, regs: &Registers, ram: &Vec<u8>) -> (s: String)
    requires
        ram.len() == 0x800,
    ensures
        s@ == address_text(*instr, *regs, ram@),
{
    match instr.dest_addr {
        Some(addr) => target_string(instr, regs, ram, addr),
        None => {
            let mut s = String::new();
            if instr.addr_mode == AddressMode::Accumulator {
                s.append("A");
            }
            assert(s@ =~= address_text(*instr, *regs, ram@));
            s
        },
    }
}

/// Appends a label and a byte in hexadecimal.
fn push_labelled(out: &mut String, label: &str, v: u8)
    ensures
        final(out)@ == old(out)@ + label@ + hex_field(v as nat, 2),
{
    out.append(label);
    push_hex(out, v as u16, 2);
}

/// Appends [`register_text`].
pub fn push_registers(out: &mut String, cpu: &Cpu)
    requires
        cpu@.wf(),
    ensures
        final(out)@ == old(out)@ + register_text(cpu@),
{
    let ghost start = out@;
    push_labelled(out, " A:", cpu.regs.accumulator);
    push_labelled(out, " X:", cpu.regs.index_x);
    push_labelled(out, " Y:", cpu.regs.index_y);
    push_labelled(out, " P:", cpu.regs.status_reg.to_byte());
    push_labelled(out, " SP:", cpu.regs.stack_pointer);
    out.append(" CYC:");
    push_dec(out, cpu.cycle % 341, 3);
    out.append(" SL:");
    push_dec(out, cpu.bus.ppu.regs.scanline, 0);
    out.append("\r\n");
    assert(out@ =~= start + register_text(cpu@));
}

/// The trace line of the instruction `instr` with the opcode `op`, for a
/// processor that has decoded it and not yet executed it.
pub fn cpu_debug(op: u8, instr: &Instruction, cpu: &Cpu) -> (line: String)
    requires
        cpu@.wf(),
    ensures
        line@ == trace_line(op, *instr, cpu@),
{
    let mut line = String::new();
    proof {
        reveal(offset);
    }
    push_hex(&mut line, cpu.regs.program_counter.wrapping_sub(instr.bytes as u16), 4);
    line.append("  ");
    push_hex(&mut line, op as u16, 2);
    line.append(" ");
    push_operand(&mut line, instr);
    line.append(" ");
    push_right_aligned(&mut line, instr.name, 4);
    line.append(" ");
    let address = address_string(instr, &cpu.regs, &cpu.bus.ram);
    push_left_aligned(&mut line, address.as_str(), 27);
    push_registers(&mut line, cpu);
    assert(line@ =~= trace_line(op, *instr, cpu@));
    line
}

} // verus!
