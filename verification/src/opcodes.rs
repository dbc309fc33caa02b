use vstd::prelude::*;

verus! {

/// How an instruction finds its operand.
#[derive(Clone, Copy, PartialEq, Eq, Structural, Debug)]
pub enum AddressMode {
    Implied,
    Accumulator,
    Immediate,
    Zeropage,
    ZeropageX,
    ZeropageY,
    Relative,
    Absolute,
    AbsoluteX,
    AbsoluteY,
    Indirect,
    XIndirect,
    IndirectY,
}

/// What an instruction does with its operand, which fixes the shape of its
/// bus traffic.
#[derive(Clone, Copy, PartialEq, Eq, Structural, Debug)]
pub enum OpKind {
    /// Reads the operand and updates registers.
    Read,
    /// Stores a register combination at the effective address.
    Write,
    /// Reads the operand, changes it and writes it back.
    Modify,
    /// Works on registers only.
    Implied,
    /// Conditional relative jump.
    Branch,
    /// `JMP`.
    Jump,
    /// `JSR`.
    Call,
    /// `RTS` and `RTI`.
    Return,
    /// `PHA` and `PHP`.
    Push,
    /// `PLA` and `PLP`.
    Pull,
    /// `BRK`.
    Break,
    /// An opcode the processor model does not execute.
    Halt,
}

/// The operations of the processor: the documented set, the stable
/// undocumented ones, and `Jam` for every remaining opcode.
#[derive(Clone, Copy, PartialEq, Eq, Structural, Debug)]
pub enum Op {
    Adc,
    Alr,
    Anc,
    And,
    Arr,
    Asl,
    Axs,
    Bcc,
    Bcs,
    Beq,
    Bit,
    Bmi,
    Bne,
    Bpl,
    Brk,
    Bvc,
    Bvs,
    Clc,
    Cld,
    Cli,
    Clv,
    Cpa,
    Cpx,
    Cpy,
    Dcp,
    Dec,
    Dex,
    Dey,
    Eor,
    Inc,
    Inx,
    Iny,
    Isc,
    Jmp,
    Jsr,
    Lax,
    Lda,
    Ldx,
    Ldy,
    Lsr,
    Nop,
    Ora,
    Pha,
    Php,
    Pla,
    Plp,
    Rla,
    Rol,
    Ror,
    Rra,
    Rti,
    Rts,
    Sax,
    Sbc,
    Sec,
    Sed,
    Sei,
    Slo,
    Sre,
    Sta,
    Stx,
    Sty,
    Tax,
    Tay,
    Tsx,
    Txa,
    Txs,
    Tya,
    Jam,
}

/// One row of the opcode matrix.
#[derive(Clone, Copy, Debug)]
pub struct OpInfo {
    pub op: Op,
    pub mode: AddressMode,
    pub kind: OpKind,
    /// Cycles the instruction takes before any surcharge.
    pub cycles: u8,
    /// Whether an index carry into the high address byte costs one more cycle.
    pub cross: bool,
    /// The mnemonic.
    pub name: &'static str,
}

/// The opcode matrix, indexed by the opcode byte.
pub const OPCODES: [(Op, AddressMode, OpKind, u8, bool, &'static str); 256] = [
    (Op::Brk, AddressMode::Implied, OpKind::Break, 7, false, "BRK"), // 00
    (Op::Ora, AddressMode::XIndirect, OpKind::Read, 6, false, "ORA"), // 01
    (Op::Jam, AddressMode::Implied, OpKind::Halt, 2, false, "JAM"), // 02
    (Op::Slo, AddressMode::XIndirect, OpKind::Modify, 8, false, "SLO"), // 03
    (Op::Nop, AddressMode::Zeropage, OpKind::Read, 3, false, "NOP"), // 04
    (Op::Ora, AddressMode::Zeropage, OpKind::Read, 3, false, "ORA"), // 05
    (Op::Asl, AddressMode::Zeropage, OpKind::Modify, 5, false, "ASL"), // 06
    (Op::Slo, AddressMode::Zeropage, OpKind::Modify, 5, false, "SLO"), // 07
    (Op::Php, AddressMode::Implied, OpKind::Push, 3, false, "PHP"), // 08
    (Op::Ora, AddressMode::Immediate, OpKind::Read, 2, false, "ORA"), // 09
    (Op::Asl, AddressMode::Accumulator, OpKind::Modify, 2, false, "ASL"), // 0A
    (Op::Anc, AddressMode::Immediate, OpKind::Read, 2, false, "ANC"), // 0B
    (Op::Nop, AddressMode::Absolute, OpKind::Read, 4, false, "NOP"), // 0C
    (Op::Ora, AddressMode::Absolute, OpKind::Read, 4, false, "ORA"), // 0D
    (Op::Asl, AddressMode::Absolute, OpKind::Modify, 6, false, "ASL"), // 0E
    (Op::Slo, AddressMode::Absolute, OpKind::Modify, 6, false, "SLO"), // 0F
    (Op::Bpl, AddressMode::Relative, OpKind::Branch, 2, false, "BPL"), // 10
    (Op::Ora, AddressMode::IndirectY, OpKind::Read, 5, true, "ORA"), // 11
    (Op::Jam, AddressMode::Implied, OpKind::Halt, 2, false, "JAM"), // 12
    (Op::Slo, AddressMode::IndirectY, OpKind::Modify, 8, false, "SLO"), // 13
    (Op::Nop, AddressMode::ZeropageX, OpKind::Read, 4, false, "NOP"), // 14
    (Op::Ora, AddressMode::ZeropageX, OpKind::Read, 4, false, "ORA"), // 15
    (Op::Asl, AddressMode::ZeropageX, OpKind::Modify, 6, false, "ASL"), // 16
    (Op::Slo, AddressMode::ZeropageX, OpKind::Modify, 6, false, "SLO"), // 17
    (Op::Clc, AddressMode::Implied, OpKind::Implied, 2, false, "CLC"), // 18
    (Op::Ora, AddressMode::AbsoluteY, OpKind::Read, 4, true, "ORA"), // 19
    (Op::Nop, AddressMode::Implied, OpKind::Implied, 2, false, "NOP"), // 1A
    (Op::Slo, AddressMode::AbsoluteY, OpKind::Modify, 7, false, "SLO"), // 1B
    (Op::Nop, AddressMode::AbsoluteX, OpKind::Read, 4, true, "NOP"), // 1C
    (Op::Ora, AddressMode::AbsoluteX, OpKind::Read, 4, true, "ORA"), // 1D
    (Op::Asl, AddressMode::AbsoluteX, OpKind::Modify, 7, false, "ASL"), // 1E
    (Op::Slo, AddressMode::AbsoluteX, OpKind::Modify, 7, false, "SLO"), // 1F
    (Op::Jsr, AddressMode::Absolute, OpKind::Call, 6, false, "JSR"), // 20
    (Op::And, AddressMode::XIndirect, OpKind::Read, 6, false, "AND"), // 21
    (Op::Jam, AddressMode::Implied, OpKind::Halt, 2, false, "JAM"), // 22
    (Op::Rla, AddressMode::XIndirect, OpKind::Modify, 8, false, "RLA"), // 23
    (Op::Bit, AddressMode::Zeropage, OpKind::Read, 3, false, "BIT"), // 24
    (Op::And, AddressMode::Zeropage, OpKind::Read, 3, false, "AND"), // 25
    (Op::Rol, AddressMode::Zeropage, OpKind::Modify, 5, false, "ROL"), // 26
    (Op::Rla, AddressMode::Zeropage, OpKind::Modify, 5, false, "RLA"), // 27
    (Op::Plp, AddressMode::Implied, OpKind::Pull, 4, false, "PLP"), // 28
    (Op::And, AddressMode::Immediate, OpKind::Read, 2, false, "AND"), // 29
    (Op::Rol, AddressMode::Accumulator, OpKind::Modify, 2, false, "ROL"), // 2A
    (Op::Anc, AddressMode::Immediate, OpKind::Read, 2, false, "ANC"), // 2B
    (Op::Bit, AddressMode::Absolute, OpKind::Read, 4, false, "BIT"), // 2C
    (Op::And, AddressMode::Absolute, OpKind::Read, 4, false, "AND"), // 2D
    (Op::Rol, AddressMode::Absolute, OpKind::Modify, 6, false, "ROL"), // 2E
    (Op::Rla, AddressMode::Absolute, OpKind::Modify, 6, false, "RLA"), // 2F
    (Op::Bmi, AddressMode::Relative, OpKind::Branch, 2, false, "BMI"), // 30
    (Op::And, AddressMode::IndirectY, OpKind::Read, 5, true, "AND"), // 31
    (Op::Jam, AddressMode::Implied, OpKind::Halt, 2, false, "JAM"), // 32
    (Op::Rla, AddressMode::IndirectY, OpKind::Modify, 8, false, "RLA"), // 33
    (Op::Nop, AddressMode::ZeropageX, OpKind::Read, 4, false, "NOP"), // 34
    (Op::And, AddressMode::ZeropageX, OpKind::Read, 4, false, "AND"), // 35
    (Op::Rol, AddressMode::ZeropageX, OpKind::Modify, 6, false, "ROL"), // 36
    (Op::Rla, AddressMode::ZeropageX, OpKind::Modify, 6, false, "RLA"), // 37
    (Op::Sec, AddressMode::Implied, OpKind::Implied, 2, false, "SEC"), // 38
    (Op::And, AddressMode::AbsoluteY, OpKind::Read, 4, true, "AND"), // 39
    (Op::Nop, AddressMode::Implied, OpKind::Implied, 2, false, "NOP"), // 3A
    (Op::Rla, AddressMode::AbsoluteY, OpKind::Modify, 7, false, "RLA"), // 3B
    (Op::Nop, AddressMode::AbsoluteX, OpKind::Read, 4, true, "NOP"), // 3C
    (Op::And, AddressMode::AbsoluteX, OpKind::Read, 4, true, "AND"), // 3D
    (Op::Rol, AddressMode::AbsoluteX, OpKind::Modify, 7, false, "ROL"), // 3E
    (Op::Rla, AddressMode::AbsoluteX, OpKind::Modify, 7, false, "RLA"), // 3F
    (Op::Rti, AddressMode::Implied, OpKind::Return, 6, false, "RTI"), // 40
    (Op::Eor, AddressMode::XIndirect, OpKind::Read, 6, false, "EOR"), // 41
    (Op::Jam, AddressMode::Implied, OpKind::Halt, 2, false, "JAM"), // 42
    (Op::Sre, AddressMode::XIndirect, OpKind::Modify, 8, false, "SRE"), // 43
    (Op::Nop, AddressMode::Zeropage, OpKind::Read, 3, false, "NOP"), // 44
    (Op::Eor, AddressMode::Zeropage, OpKind::Read, 3, false, "EOR"), // 45
    (Op::Lsr, AddressMode::Zeropage, OpKind::Modify, 5, false, "LSR"), // 46
    (Op::Sre, AddressMode::Zeropage, OpKind::Modify, 5, false, "SRE"), // 47
    (Op::Pha, AddressMode::Implied, OpKind::Push, 3, false, "PHA"), // 48
    (Op::Eor, AddressMode::Immediate, OpKind::Read, 2, false, "EOR"), // 49
    (Op::Lsr, AddressMode::Accumulator, OpKind::Modify, 2, false, "LSR"), // 4A
    (Op::Alr, AddressMode::Immediate, OpKind::Read, 2, false, "ALR"), // 4B
    (Op::Jmp, AddressMode::Absolute, OpKind::Jump, 3, false, "JMP"), // 4C
    (Op::Eor, AddressMode::Absolute, OpKind::Read, 4, false, "EOR"), // 4D
    (Op::Lsr, AddressMode::Absolute, OpKind::Modify, 6, false, "LSR"), // 4E
    (Op::Sre, AddressMode::Absolute, OpKind::Modify, 6, false, "SRE"), // 4F
    (Op::Bvc, AddressMode::Relative, OpKind::Branch, 2, false, "BVC"), // 50
    (Op::Eor, AddressMode::IndirectY, OpKind::Read, 5, true, "EOR"), // 51
    (Op::Jam, AddressMode::Implied, OpKind::Halt, 2, false, "JAM"), // 52
    (Op::Sre, AddressMode::IndirectY, OpKind::Modify, 8, false, "SRE"), // 53
    (Op::Nop, AddressMode::ZeropageX, OpKind::Read, 4, false, "NOP"), // 54
    (Op::Eor, AddressMode::ZeropageX, OpKind::Read, 4, false, "EOR"), // 55
    (Op::Lsr, AddressMode::ZeropageX, OpKind::Modify, 6, false, "LSR"), // 56
    (Op::Sre, AddressMode::ZeropageX, OpKind::Modify, 6, false, "SRE"), // 57
    (Op::Cli, AddressMode::Implied, OpKind::Implied, 2, false, "CLI"), // 58
    (Op::Eor, AddressMode::AbsoluteY, OpKind::Read, 4, true, "EOR"), // 59
    (Op::Nop, AddressMode::Implied, OpKind::Implied, 2, false, "NOP"), // 5A
    (Op::Sre, AddressMode::AbsoluteY, OpKind::Modify, 7, false, "SRE"), // 5B
    (Op::Nop, AddressMode::AbsoluteX, OpKind::Read, 4, true, "NOP"), // 5C
    (Op::Eor, AddressMode::AbsoluteX, OpKind::Read, 4, true, "EOR"), // 5D
    (Op::Lsr, AddressMode::AbsoluteX, OpKind::Modify, 7, false, "LSR"), // 5E
    (Op::Sre, AddressMode::AbsoluteX, OpKind::Modify, 7, false, "SRE"), // 5F
    (Op::Rts, AddressMode::Implied, OpKind::Return, 6, false, "RTS"), // 60
    (Op::Adc, AddressMode::XIndirect, OpKind::Read, 6, false, "ADC"), // 61
    (Op::Jam, AddressMode::Implied, OpKind::Halt, 2, false, "JAM"), // 62
    (Op::Rra, AddressMode::XIndirect, OpKind::Modify, 8, false, "RRA"), // 63
    (Op::Nop, AddressMode::Zeropage, OpKind::Read, 3, false, "NOP"), // 64
    (Op::Adc, AddressMode::Zeropage, OpKind::Read, 3, false, "ADC"), // 65
    (Op::Ror, AddressMode::Zeropage, OpKind::Modify, 5, false, "ROR"), // 66
    (Op::Rra, AddressMode::Zeropage, OpKind::Modify, 5, false, "RRA"), // 67
    (Op::Pla, AddressMode::Implied, OpKind::Pull, 4, false, "PLA"), // 68
    (Op::Adc, AddressMode::Immediate, OpKind::Read, 2, false, "ADC"), // 69
    (Op::Ror, AddressMode::Accumulator, OpKind::Modify, 2, false, "ROR"), // 6A
    (Op::Arr, AddressMode::Immediate, OpKind::Read, 2, false, "ARR"), // 6B
    (Op::Jmp, AddressMode::Indirect, OpKind::Jump, 5, false, "JMP"), // 6C
    (Op::Adc, AddressMode::Absolute, OpKind::Read, 4, false, "ADC"), // 6D
    (Op::Ror, AddressMode::Absolute, OpKind::Modify, 6, false, "ROR"), // 6E
    (Op::Rra, AddressMode::Absolute, OpKind::Modify, 6, false, "RRA"), // 6F
    (Op::Bvs, AddressMode::Relative, OpKind::Branch, 2, false, "BVS"), // 70
    (Op::Adc, AddressMode::IndirectY, OpKind::Read, 5, true, "ADC"), // 71
    (Op::Jam, AddressMode::Implied, OpKind::Halt, 2, false, "JAM"), // 72
    (Op::Rra, AddressMode::IndirectY, OpKind::Modify, 8, false, "RRA"), // 73
    (Op::Nop, AddressMode::ZeropageX, OpKind::Read, 4, false, "NOP"), // 74
    (Op::Adc, AddressMode::ZeropageX, OpKind::Read, 4, false, "ADC"), // 75
    (Op::Ror, AddressMode::ZeropageX, OpKind::Modify, 6, false, "ROR"), // 76
    (Op::Rra, AddressMode::ZeropageX, OpKind::Modify, 6, false, "RRA"), // 77
    (Op::Sei, AddressMode::Implied, OpKind::Implied, 2, false, "SEI"), // 78
    (Op::Adc, AddressMode::AbsoluteY, OpKind::Read, 4, true, "ADC"), // 79
    (Op::Nop, AddressMode::Implied, OpKind::Implied, 2, false, "NOP"), // 7A
    (Op::Rra, AddressMode::AbsoluteY, OpKind::Modify, 7, false, "RRA"), // 7B
    (Op::Nop, AddressMode::AbsoluteX, OpKind::Read, 4, true, "NOP"), // 7C
    (Op::Adc, AddressMode::AbsoluteX, OpKind::Read, 4, true, "ADC"), // 7D
    (Op::Ror, AddressMode::AbsoluteX, OpKind::Modify, 7, false, "ROR"), // 7E
    (Op::Rra, AddressMode::AbsoluteX, OpKind::Modify, 7, false, "RRA"), // 7F
    (Op::Nop, AddressMode::Immediate, OpKind::Read, 2, false, "NOP"), // 80
    (Op::Sta, AddressMode::XIndirect, OpKind::Write, 6, false, "STA"), // 81
    (Op::Nop, AddressMode::Immediate, OpKind::Read, 2, false, "NOP"), // 82
    (Op::Sax, AddressMode::XIndirect, OpKind::Write, 6, false, "SAX"), // 83
    (Op::Sty, AddressMode::Zeropage, OpKind::Write, 3, false, "STY"), // 84
    (Op::Sta, AddressMode::Zeropage, OpKind::Write, 3, false, "STA"), // 85
    (Op::Stx, AddressMode::Zeropage, OpKind::Write, 3, false, "STX"), // 86
    (Op::Sax, AddressMode::Zeropage, OpKind::Write, 3, false, "SAX"), // 87
    (Op::Dey, AddressMode::Implied, OpKind::Implied, 2, false, "DEY"), // 88
    (Op::Nop, AddressMode::Immediate, OpKind::Read, 2, false, "NOP"), // 89
    (Op::Txa, AddressMode::Implied, OpKind::Implied, 2, false, "TXA"), // 8A
    (Op::Jam, AddressMode::Implied, OpKind::Halt, 2, false, "JAM"), // 8B
    (Op::Sty, AddressMode::Absolute, OpKind::Write, 4, false, "STY"), // 8C
    (Op::Sta, AddressMode::Absolute, OpKind::Write, 4, false, "STA"), // 8D
    (Op::Stx, AddressMode::Absolute, OpKind::Write, 4, false, "STX"), // 8E
    (Op::Sax, AddressMode::Absolute, OpKind::Write, 4, false, "SAX"), // 8F
    (Op::Bcc, AddressMode::Relative, OpKind::Branch, 2, false, "BCC"), // 90
    (Op::Sta, AddressMode::IndirectY, OpKind::Write, 6, false, "STA"), // 91
    (Op::Jam, AddressMode::Implied, OpKind::Halt, 2, false, "JAM"), // 92
    (Op::Jam, AddressMode::Implied, OpKind::Halt, 2, false, "JAM"), // 93
    (Op::Sty, AddressMode::ZeropageX, OpKind::Write, 4, false, "STY"), // 94
    (Op::Sta, AddressMode::ZeropageX, OpKind::Write, 4, false, "STA"), // 95
    (Op::Stx, AddressMode::ZeropageY, OpKind::Write, 4, false, "STX"), // 96
    (Op::Sax, AddressMode::ZeropageY, OpKind::Write, 4, false, "SAX"), // 97
    (Op::Tya, AddressMode::Implied, OpKind::Implied, 2, false, "TYA"), // 98
    (Op::Sta, AddressMode::AbsoluteY, OpKind::Write, 5, false, "STA"), // 99
    (Op::Txs, AddressMode::Implied, OpKind::Implied, 2, false, "TXS"), // 9A
    (Op::Jam, AddressMode::Implied, OpKind::Halt, 2, false, "JAM"), // 9B
    (Op::Jam, AddressMode::Implied, OpKind::Halt, 2, false, "JAM"), // 9C
    (Op::Sta, AddressMode::AbsoluteX, OpKind::Write, 5, false, "STA"), // 9D
    (Op::Jam, AddressMode::Implied, OpKind::Halt, 2, false, "JAM"), // 9E
    (Op::Jam, AddressMode::Implied, OpKind::Halt, 2, false, "JAM"), // 9F
    (Op::Ldy, AddressMode::Immediate, OpKind::Read, 2, false, "LDY"), // A0
    (Op::Lda, AddressMode::XIndirect, OpKind::Read, 6, false, "LDA"), // A1
    (Op::Ldx, AddressMode::Immediate, OpKind::Read, 2, false, "LDX"), // A2
    (Op::Lax, AddressMode::XIndirect, OpKind::Read, 6, false, "LAX"), // A3
    (Op::Ldy, AddressMode::Zeropage, OpKind::Read, 3, false, "LDY"), // A4
    (Op::Lda, AddressMode::Zeropage, OpKind::Read, 3, false, "LDA"), // A5
    (Op::Ldx, AddressMode::Zeropage, OpKind::Read, 3, false, "LDX"), // A6
    (Op::Lax, AddressMode::Zeropage, OpKind::Read, 3, false, "LAX"), // A7
    (Op::Tay, AddressMode::Implied, OpKind::Implied, 2, false, "TAY"), // A8
    (Op::Lda, AddressMode::Immediate, OpKind::Read, 2, false, "LDA"), // A9
    (Op::Tax, AddressMode::Implied, OpKind::Implied, 2, false, "TAX"), // AA
    (Op::Jam, AddressMode::Implied, OpKind::Halt, 2, false, "JAM"), // AB
    (Op::Ldy, AddressMode::Absolute, OpKind::Read, 4, false, "LDY"), // AC
    (Op::Lda, AddressMode::Absolute, OpKind::Read, 4, false, "LDA"), // AD
    (Op::Ldx, AddressMode::Absolute, OpKind::Read, 4, false, "LDX"), // AE
    (Op::Lax, AddressMode::Absolute, OpKind::Read, 4, false, "LAX"), // AF
    (Op::Bcs, AddressMode::Relative, OpKind::Branch, 2, false, "BCS"), // B0
    (Op::Lda, AddressMode::IndirectY, OpKind::Read, 5, true, "LDA"), // B1
    (Op::Jam, AddressMode::Implied, OpKind::Halt, 2, false, "JAM"), // B2
    (Op::Lax, AddressMode::IndirectY, OpKind::Read, 5, true, "LAX"), // B3
    (Op::Ldy, AddressMode::ZeropageX, OpKind::Read, 4, false, "LDY"), // B4
    (Op::Lda, AddressMode::ZeropageX, OpKind::Read, 4, false, "LDA"), // B5
    (Op::Ldx, AddressMode::ZeropageY, OpKind::Read, 4, false, "LDX"), // B6
    (Op::Lax, AddressMode::ZeropageY, OpKind::Read, 4, false, "LAX"), // B7
    (Op::Clv, AddressMode::Implied, OpKind::Implied, 2, false, "CLV"), // B8
    (Op::Lda, AddressMode::AbsoluteY, OpKind::Read, 4, true, "LDA"), // B9
    (Op::Tsx, AddressMode::Implied, OpKind::Implied, 2, false, "TSX"), // BA
    (Op::Jam, AddressMode::Implied, OpKind::Halt, 2, false, "JAM"), // BB
    (Op::Ldy, AddressMode::AbsoluteX, OpKind::Read, 4, true, "LDY"), // BC
    (Op::Lda, AddressMode::AbsoluteX, OpKind::Read, 4, true, "LDA"), // BD
    (Op::Ldx, AddressMode::AbsoluteY, OpKind::Read, 4, true, "LDX"), // BE
    (Op::Lax, AddressMode::AbsoluteY, OpKind::Read, 4, true, "LAX"), // BF
    (Op::Cpy, AddressMode::Immediate, OpKind::Read, 2, false, "CPY"), // C0
    (Op::Cpa, AddressMode::XIndirect, OpKind::Read, 6, false, "CMP"), // C1
    (Op::Nop, AddressMode::Immediate, OpKind::Read, 2, false, "NOP"), // C2
    (Op::Dcp, AddressMode::XIndirect, OpKind::Modify, 8, false, "DCP"), // C3
    (Op::Cpy, AddressMode::Zeropage, OpKind::Read, 3, false, "CPY"), // C4
    (Op::Cpa, AddressMode::Zeropage, OpKind::Read, 3, false, "CMP"), // C5
    (Op::Dec, AddressMode::Zeropage, OpKind::Modify, 5, false, "DEC"), // C6
    (Op::Dcp, AddressMode::Zeropage, OpKind::Modify, 5, false, "DCP"), // C7
    (Op::Iny, AddressMode::Implied, OpKind::Implied, 2, false, "INY"), // C8
    (Op::Cpa, AddressMode::Immediate, OpKind::Read, 2, false, "CMP"), // C9
    (Op::Dex, AddressMode::Implied, OpKind::Implied, 2, false, "DEX"), // CA
    (Op::Axs, AddressMode::Immediate, OpKind::Read, 2, false, "AXS"), // CB
    (Op::Cpy, AddressMode::Absolute, OpKind::Read, 4, false, "CPY"), // CC
    (Op::Cpa, AddressMode::Absolute, OpKind::Read, 4, false, "CMP"), // CD
    (Op::Dec, AddressMode::Absolute, OpKind::Modify, 6, false, "DEC"), // CE
    (Op::Dcp, AddressMode::Absolute, OpKind::Modify, 6, false, "DCP"), // CF
    (Op::Bne, AddressMode::Relative, OpKind::Branch, 2, false, "BNE"), // D0
    (Op::Cpa, AddressMode::IndirectY, OpKind::Read, 5, true, "CMP"), // D1
    (Op::Jam, AddressMode::Implied, OpKind::Halt, 2, false, "JAM"), // D2
    (Op::Dcp, AddressMode::IndirectY, OpKind::Modify, 8, false, "DCP"), // D3
    (Op::Nop, AddressMode::ZeropageX, OpKind::Read, 4, false, "NOP"), // D4
    (Op::Cpa, AddressMode::ZeropageX, OpKind::Read, 4, false, "CMP"), // D5
    (Op::Dec, AddressMode::ZeropageX, OpKind::Modify, 6, false, "DEC"), // D6
    (Op::Dcp, AddressMode::ZeropageX, OpKind::Modify, 6, false, "DCP"), // D7
    (Op::Cld, AddressMode::Implied, OpKind::Implied, 2, false, "CLD"), // D8
    (Op::Cpa, AddressMode::AbsoluteY, OpKind::Read, 4, true, "CMP"), // D9
    (Op::Nop, AddressMode::Implied, OpKind::Implied, 2, false, "NOP"), // DA
    (Op::Dcp, AddressMode::AbsoluteY, OpKind::Modify, 7, false, "DCP"), // DB
    (Op::Nop, AddressMode::AbsoluteX, OpKind::Read, 4, true, "NOP"), // DC
    (Op::Cpa, AddressMode::AbsoluteX, OpKind::Read, 4, true, "CMP"), // DD
    (Op::Dec, AddressMode::AbsoluteX, OpKind::Modify, 7, false, "DEC"), // DE
    (Op::Dcp, AddressMode::AbsoluteX, OpKind::Modify, 7, false, "DCP"), // DF
    (Op::Cpx, AddressMode::Immediate, OpKind::Read, 2, false, "CPX"), // E0
    (Op::Sbc, AddressMode::XIndirect, OpKind::Read, 6, false, "SBC"), // E1
    (Op::Nop, AddressMode::Immediate, OpKind::Read, 2, false, "NOP"), // E2
    (Op::Isc, AddressMode::XIndirect, OpKind::Modify, 8, false, "ISC"), // E3
    (Op::Cpx, AddressMode::Zeropage, OpKind::Read, 3, false, "CPX"), // E4
    (Op::Sbc, AddressMode::Zeropage, OpKind::Read, 3, false, "SBC"), // E5
    (Op::Inc, AddressMode::Zeropage, OpKind::Modify, 5, false, "INC"), // E6
    (Op::Isc, AddressMode::Zeropage, OpKind::Modify, 5, false, "ISC"), // E7
    (Op::Inx, AddressMode::Implied, OpKind::Implied, 2, false, "INX"), // E8
    (Op::Sbc, AddressMode::Immediate, OpKind::Read, 2, false, "SBC"), // E9
    (Op::Nop, AddressMode::Implied, OpKind::Implied, 2, false, "NOP"), // EA
    (Op::Sbc, AddressMode::Immediate, OpKind::Read, 2, false, "SBC"), // EB
    (Op::Cpx, AddressMode::Absolute, OpKind::Read, 4, false, "CPX"), // EC
    (Op::Sbc, AddressMode::Absolute, OpKind::Read, 4, false, "SBC"), // ED
    (Op::Inc, AddressMode::Absolute, OpKind::Modify, 6, false, "INC"), // EE
    (Op::Isc, AddressMode::Absolute, OpKind::Modify, 6, false, "ISC"), // EF
    (Op::Beq, AddressMode::Relative, OpKind::Branch, 2, false, "BEQ"), // F0
    (Op::Sbc, AddressMode::IndirectY, OpKind::Read, 5, true, "SBC"), // F1
    (Op::Jam, AddressMode::Implied, OpKind::Halt, 2, false, "JAM"), // F2
    (Op::Isc, AddressMode::IndirectY, OpKind::Modify, 8, false, "ISC"), // F3
    (Op::Nop, AddressMode::ZeropageX, OpKind::Read, 4, false, "NOP"), // F4
    (Op::Sbc, AddressMode::ZeropageX, OpKind::Read, 4, false, "SBC"), // F5
    (Op::Inc, AddressMode::ZeropageX, OpKind::Modify, 6, false, "INC"), // F6
    (Op::Isc, AddressMode::ZeropageX, OpKind::Modify, 6, false, "ISC"), // F7
    (Op::Sed, AddressMode::Implied, OpKind::Implied, 2, false, "SED"), // F8
    (Op::Sbc, AddressMode::AbsoluteY, OpKind::Read, 4, true, "SBC"), // F9
    (Op::Nop, AddressMode::Implied, OpKind::Implied, 2, false, "NOP"), // FA
    (Op::Isc, AddressMode::AbsoluteY, OpKind::Modify, 7, false, "ISC"), // FB
    (Op::Nop, AddressMode::AbsoluteX, OpKind::Read, 4, true, "NOP"), // FC
    (Op::Sbc, AddressMode::AbsoluteX, OpKind::Read, 4, true, "SBC"), // FD
    (Op::Inc, AddressMode::AbsoluteX, OpKind::Modify, 7, false, "INC"), // FE
    (Op::Isc, AddressMode::AbsoluteX, OpKind::Modify, 7, false, "ISC"), // FF
];

/// The row of the opcode matrix for `opcode`.
#[verifier::opaque]
pub open spec fn op_info(opcode: u8) -> OpInfo {
    let row = OPCODES[opcode as int];
    OpInfo { op: row.0, mode: row.1, kind: row.2, cycles: row.3, cross: row.4, name: row.5 }
}

/// Looks `opcode` up in the opcode matrix.
pub fn decode(opcode: u8) -> (info: OpInfo)
    ensures
        info == op_info(opcode),
{
    proof {
        reveal(op_info);
    }
    let row = OPCODES[opcode as usize];
    OpInfo { op: row.0, mode: row.1, kind: row.2, cycles: row.3, cross: row.4, name: row.5 }
}

} // verus!
