//! The opcode table: for each of the 256 opcode bytes, the operation it names
//! and the addressing mode of its operand.
use vstd::prelude::*;

verus! {

/// The operations of the processor, documented and undocumented.
#[derive(Clone, Copy, Debug, PartialEq, Eq, Structural)]
pub enum Mnemonic {
    Adc,
    And,
    Asl,
    Bcc,
    Bcs,
    Beq,
    Bit,
    Bmi,
    Bne,
    Bpl,
    Brk,
    Bvc,
    Bvs,
    Clc,
    Cld,
    Cli,
    Clv,
    Cmp,
    Cpx,
    Cpy,
    Dec,
    Dex,
    Dey,
    Eor,
    Inc,
    Inx,
    Iny,
    Jmp,
    Jsr,
    Lda,
    Ldx,
    Ldy,
    Lsr,
    Nop,
    Ora,
    Pha,
    Php,
    Pla,
    Plp,
    Rol,
    Ror,
    Rti,
    Rts,
    Sbc,
    Sec,
    Sed,
    Sei,
    Sta,
    Stx,
    Sty,
    Tax,
    Tay,
    Tsx,
    Txa,
    Txs,
    Tya,
    /// DEC, then CMP against A.
    Dcp,
    /// INC, then SBC from A.
    Isc,
    /// LDA and LDX of one value.
    Lax,
    /// ROL, then AND into A.
    Rla,
    /// ROR, then ADC into A.
    Rra,
    /// Stores A AND X.
    Sax,
    /// ASL, then ORA into A.
    Slo,
    /// LSR, then EOR into A.
    Sre,
    /// An opcode that this core does not implement: it skips its operand.
    Unknown,
}

/// How an instruction finds its operand.
#[derive(Clone, Copy, Debug, PartialEq, Eq, Structural)]
pub enum Mode {
    Implied,
    Accumulator,
    Immediate,
    ZeroPage,
    ZeroPageX,
    ZeroPageY,
    Absolute,
    AbsoluteX,
    AbsoluteY,
    Indirect,
    IndirectX,
    IndirectY,
    Relative,
}

impl Mode {
    /// The number of operand bytes that follow the opcode.
    pub open spec fn operand_bytes(self) -> nat {
        match self {
            Mode::Implied | Mode::Accumulator => 0,
            Mode::Absolute | Mode::AbsoluteX | Mode::AbsoluteY | Mode::Indirect => 2,
            _ => 1,
        }
    }

    /// Whether the mode resolves to an address (for a branch, its destination).
    pub open spec fn yields_address(self) -> bool {
        !(self is Implied || self is Accumulator || self is Immediate)
    }

    /// The number of operand bytes that follow the opcode.
    pub fn operand_len(&self) -> (r: u8)
        ensures
            r == self.operand_bytes(),
    {
        match self {
            Mode::Implied | Mode::Accumulator => 0,
            Mode::Absolute | Mode::AbsoluteX | Mode::AbsoluteY | Mode::Indirect => 2,
            _ => 1,
        }
    }
}

impl Mnemonic {
    /// Operations that read their operand.
    pub open spec fn reads_operand(self) -> bool {
        self is Adc || self is And || self is Bit || self is Cmp || self is Cpx || self is Cpy
            || self is Eor || self is Lda || self is Ldx || self is Ldy || self is Ora
            || self is Sbc || self is Lax
    }

    /// Operations that write their operand (stores and read-modify-writes).
    pub open spec fn writes_operand(self) -> bool {
        self is Sta || self is Stx || self is Sty || self is Sax || self is Asl || self is Lsr
            || self is Rol || self is Ror || self is Inc || self is Dec || self is Dcp
            || self is Isc || self is Slo || self is Rla || self is Sre || self is Rra
    }

    /// The eight conditional branches.
    pub open spec fn is_branch(self) -> bool {
        self is Bcc || self is Bcs || self is Beq || self is Bne || self is Bmi || self is Bpl
            || self is Bvc || self is Bvs
    }

    /// Operations that always set the program counter.
    pub open spec fn is_jump(self) -> bool {
        self is Jmp || self is Jsr || self is Rts || self is Rti || self is Brk
    }

    /// Whether the addressing mode gives the operation the operand it needs:
    /// a value to read, a place to write, or an address to go to.
    pub open spec fn fits(self, mode: Mode) -> bool {
        if self.reads_operand() {
            !(mode is Implied)
        } else if self.writes_operand() {
            !(mode is Implied) && !(mode is Immediate)
        } else if self.is_branch() || self is Jmp || self is Jsr {
            mode.yields_address()
        } else {
            true
        }
    }
}

/// The published 6502 opcode table, with the addressing mode of each entry.
/// `BRK` takes the padding byte after it as an immediate operand.
#[verifier::opaque]
pub open spec fn opcode_entry(op: u8) -> (Mnemonic, Mode) {
    match op {
        0x00 => (Mnemonic::Brk, Mode::Immediate),
        0x01 => (Mnemonic::Ora, Mode::IndirectX),
        0x02 => (Mnemonic::Unknown, Mode::Implied),
        0x03 => (Mnemonic::Slo, Mode::IndirectX),
        0x04 => (Mnemonic::Nop, Mode::ZeroPage),
        0x05 => (Mnemonic::Ora, Mode::ZeroPage),
        0x06 => (Mnemonic::Asl, Mode::ZeroPage),
        0x07 => (Mnemonic::Slo, Mode::ZeroPage),
        0x08 => (Mnemonic::Php, Mode::Implied),
        0x09 => (Mnemonic::Ora, Mode::Immediate),
        0x0A => (Mnemonic::Asl, Mode::Accumulator),
        0x0B => (Mnemonic::Unknown, Mode::Immediate),
        0x0C => (Mnemonic::Nop, Mode::Absolute),
        0x0D => (Mnemonic::Ora, Mode::Absolute),
        0x0E => (Mnemonic::Asl, Mode::Absolute),
        0x0F => (Mnemonic::Slo, Mode::Absolute),
        0x10 => (Mnemonic::Bpl, Mode::Relative),
        0x11 => (Mnemonic::Ora, Mode::IndirectY),
        0x12 => (Mnemonic::Unknown, Mode::Implied),
        0x13 => (Mnemonic::Slo, Mode::IndirectY),
        0x14 => (Mnemonic::Nop, Mode::ZeroPageX),
        0x15 => (Mnemonic::Ora, Mode::ZeroPageX),
        0x16 => (Mnemonic::Asl, Mode::ZeroPageX),
        0x17 => (Mnemonic::Slo, Mode::ZeroPageX),
        0x18 => (Mnemonic::Clc, Mode::Implied),
        0x19 => (Mnemonic::Ora, Mode::AbsoluteY),
        0x1A => (Mnemonic::Nop, Mode::Implied),
        0x1B => (Mnemonic::Slo, Mode::AbsoluteY),
        0x1C => (Mnemonic::Nop, Mode::AbsoluteX),
        0x1D => (Mnemonic::Ora, Mode::AbsoluteX),
        0x1E => (Mnemonic::Asl, Mode::AbsoluteX),
        0x1F => (Mnemonic::Slo, Mode::AbsoluteX),
        0x20 => (Mnemonic::Jsr, Mode::Absolute),
        0x21 => (Mnemonic::And, Mode::IndirectX),
        0x22 => (Mnemonic::Unknown, Mode::Implied),
        0x23 => (Mnemonic::Rla, Mode::IndirectX),
        0x24 => (Mnemonic::Bit, Mode::ZeroPage),
        0x25 => (Mnemonic::And, Mode::ZeroPage),
        0x26 => (Mnemonic::Rol, Mode::ZeroPage),
        0x27 => (Mnemonic::Rla, Mode::ZeroPage),
        0x28 => (Mnemonic::Plp, Mode::Implied),
        0x29 => (Mnemonic::And, Mode::Immediate),
        0x2A => (Mnemonic::Rol, Mode::Accumulator),
        0x2B => (Mnemonic::Unknown, Mode::Immediate),
        0x2C => (Mnemonic::Bit, Mode::Absolute),
        0x2D => (Mnemonic::And, Mode::Absolute),
        0x2E => (Mnemonic::Rol, Mode::Absolute),
        0x2F => (Mnemonic::Rla, Mode::Absolute),
        0x30 => (Mnemonic::Bmi, Mode::Relative),
        0x31 => (Mnemonic::And, Mode::IndirectY),
        0x32 => (Mnemonic::Unknown, Mode::Implied),
        0x33 => (Mnemonic::Rla, Mode::IndirectY),
        0x34 => (Mnemonic::Nop, Mode::ZeroPageX),
        0x35 => (Mnemonic::And, Mode::ZeroPageX),
        0x36 => (Mnemonic::Rol, Mode::ZeroPageX),
        0x37 => (Mnemonic::Rla, Mode::ZeroPageX),
        0x38 => (Mnemonic::Sec, Mode::Implied),
        0x39 => (Mnemonic::And, Mode::AbsoluteY),
        0x3A => (Mnemonic::Nop, Mode::Implied),
        0x3B => (Mnemonic::Rla, Mode::AbsoluteY),
        0x3C => (Mnemonic::Nop, Mode::AbsoluteX),
        0x3D => (Mnemonic::And, Mode::AbsoluteX),
        0x3E => (Mnemonic::Rol, Mode::AbsoluteX),
        0x3F => (Mnemonic::Rla, Mode::AbsoluteX),
        0x40 => (Mnemonic::Rti, Mode::Implied),
        0x41 => (Mnemonic::Eor, Mode::IndirectX),
        0x42 => (Mnemonic::Unknown, Mode::Implied),
        0x43 => (Mnemonic::Sre, Mode::IndirectX),
        0x44 => (Mnemonic::Nop, Mode::ZeroPage),
        0x45 => (Mnemonic::Eor, Mode::ZeroPage),
        0x46 => (Mnemonic::Lsr, Mode::ZeroPage),
        0x47 => (Mnemonic::Sre, Mode::ZeroPage),
        0x48 => (Mnemonic::Pha, Mode::Implied),
        0x49 => (Mnemonic::Eor, Mode::Immediate),
        0x4A => (Mnemonic::Lsr, Mode::Accumulator),
        0x4B => (Mnemonic::Unknown, Mode::Immediate),
        0x4C => (Mnemonic::Jmp, Mode::Absolute),
        0x4D => (Mnemonic::Eor, Mode::Absolute),
        0x4E => (Mnemonic::Lsr, Mode::Absolute),
        0x4F => (Mnemonic::Sre, Mode::Absolute),
        0x50 => (Mnemonic::Bvc, Mode::Relative),
        0x51 => (Mnemonic::Eor, Mode::IndirectY),
        0x52 => (Mnemonic::Unknown, Mode::Implied),
        0x53 => (Mnemonic::Sre, Mode::IndirectY),
        0x54 => (Mnemonic::Nop, Mode::ZeroPageX),
        0x55 => (Mnemonic::Eor, Mode::ZeroPageX),
        0x56 => (Mnemonic::Lsr, Mode::ZeroPageX),
        0x57 => (Mnemonic::Sre, Mode::ZeroPageX),
        0x58 => (Mnemonic::Cli, Mode::Implied),
        0x59 => (Mnemonic::Eor, Mode::AbsoluteY),
        0x5A => (Mnemonic::Nop, Mode::Implied),
        0x5B => (Mnemonic::Sre, Mode::AbsoluteY),
        0x5C => (Mnemonic::Nop, Mode::AbsoluteX),
        0x5D => (Mnemonic::Eor, Mode::AbsoluteX),
        0x5E => (Mnemonic::Lsr, Mode::AbsoluteX),
        0x5F => (Mnemonic::Sre, Mode::AbsoluteX),
        0x60 => (Mnemonic::Rts, Mode::Implied),
        0x61 => (Mnemonic::Adc, Mode::IndirectX),
        0x62 => (Mnemonic::Unknown, Mode::Implied),
        0x63 => (Mnemonic::Rra, Mode::IndirectX),
        0x64 => (Mnemonic::Nop, Mode::ZeroPage),
        0x65 => (Mnemonic::Adc, Mode::ZeroPage),
        0x66 => (Mnemonic::Ror, Mode::ZeroPage),
        0x67 => (Mnemonic::Rra, Mode::ZeroPage),
        0x68 => (Mnemonic::Pla, Mode::Implied),
        0x69 => (Mnemonic::Adc, Mode::Immediate),
        0x6A => (Mnemonic::Ror, Mode::Accumulator),
        0x6B => (Mnemonic::Unknown, Mode::Immediate),
        0x6C => (Mnemonic::Jmp, Mode::Indirect),
        0x6D => (Mnemonic::Adc, Mode::Absolute),
        0x6E => (Mnemonic::Ror, Mode::Absolute),
        0x6F => (Mnemonic::Rra, Mode::Absolute),
        0x70 => (Mnemonic::Bvs, Mode::Relative),
        0x71 => (Mnemonic::Adc, Mode::IndirectY),
        0x72 => (Mnemonic::Unknown, Mode::Implied),
        0x73 => (Mnemonic::Rra, Mode::IndirectY),
        0x74 => (Mnemonic::Nop, Mode::ZeroPageX),
        0x75 => (Mnemonic::Adc, Mode::ZeroPageX),
        0x76 => (Mnemonic::Ror, Mode::ZeroPageX),
        0x77 => (Mnemonic::Rra, Mode::ZeroPageX),
        0x78 => (Mnemonic::Sei, Mode::Implied),
        0x79 => (Mnemonic::Adc, Mode::AbsoluteY),
        0x7A => (Mnemonic::Nop, Mode::Implied),
        0x7B => (Mnemonic::Rra, Mode::AbsoluteY),
        0x7C => (Mnemonic::Nop, Mode::AbsoluteX),
        0x7D => (Mnemonic::Adc, Mode::AbsoluteX),
        0x7E => (Mnemonic::Ror, Mode::AbsoluteX),
        0x7F => (Mnemonic::Rra, Mode::AbsoluteX),
        0x80 => (Mnemonic::Nop, Mode::Immediate),
        0x81 => (Mnemonic::Sta, Mode::IndirectX),
        0x82 => (Mnemonic::Nop, Mode::Immediate),
        0x83 => (Mnemonic::Sax, Mode::IndirectX),
        0x84 => (Mnemonic::Sty, Mode::ZeroPage),
        0x85 => (Mnemonic::Sta, Mode::ZeroPage),
        0x86 => (Mnemonic::Stx, Mode::ZeroPage),
        0x87 => (Mnemonic::Sax, Mode::ZeroPage),
        0x88 => (Mnemonic::Dey, Mode::Implied),
        0x89 => (Mnemonic::Nop, Mode::Immediate),
        0x8A => (Mnemonic::Txa, Mode::Implied),
        0x8B => (Mnemonic::Unknown, Mode::Immediate),
        0x8C => (Mnemonic::Sty, Mode::Absolute),
        0x8D => (Mnemonic::Sta, Mode::Absolute),
        0x8E => (Mnemonic::Stx, Mode::Absolute),
        0x8F => (Mnemonic::Sax, Mode::Absolute),
        0x90 => (Mnemonic::Bcc, Mode::Relative),
        0x91 => (Mnemonic::Sta, Mode::IndirectY),
        0x92 => (Mnemonic::Unknown, Mode::Implied),
        0x93 => (Mnemonic::Unknown, Mode::IndirectY),
        0x94 => (Mnemonic::Sty, Mode::ZeroPageX),
        0x95 => (Mnemonic::Sta, Mode::ZeroPageX),
        0x96 => (Mnemonic::Stx, Mode::ZeroPageY),
        0x97 => (Mnemonic::Sax, Mode::ZeroPageY),
        0x98 => (Mnemonic::Tya, Mode::Implied),
        0x99 => (Mnemonic::Sta, Mode::AbsoluteY),
        0x9A => (Mnemonic::Txs, Mode::Implied),
        0x9B => (Mnemonic::Unknown, Mode::AbsoluteY),
        0x9C => (Mnemonic::Unknown, Mode::AbsoluteX),
        0x9D => (Mnemonic::Sta, Mode::AbsoluteX),
        0x9E => (Mnemonic::Unknown, Mode::AbsoluteY),
        0x9F => (Mnemonic::Unknown, Mode::AbsoluteY),
        0xA0 => (Mnemonic::Ldy, Mode::Immediate),
        0xA1 => (Mnemonic::Lda, Mode::IndirectX),
        0xA2 => (Mnemonic::Ldx, Mode::Immediate),
        0xA3 => (Mnemonic::Lax, Mode::IndirectX),
        0xA4 => (Mnemonic::Ldy, Mode::ZeroPage),
        0xA5 => (Mnemonic::Lda, Mode::ZeroPage),
        0xA6 => (Mnemonic::Ldx, Mode::ZeroPage),
        0xA7 => (Mnemonic::Lax, Mode::ZeroPage),
        0xA8 => (Mnemonic::Tay, Mode::Implied),
        0xA9 => (Mnemonic::Lda, Mode::Immediate),
        0xAA => (Mnemonic::Tax, Mode::Implied),
        0xAB => (Mnemonic::Unknown, Mode::Immediate),
        0xAC => (Mnemonic::Ldy, Mode::Absolute),
        0xAD => (Mnemonic::Lda, Mode::Absolute),
        0xAE => (Mnemonic::Ldx, Mode::Absolute),
        0xAF => (Mnemonic::Lax, Mode::Absolute),
        0xB0 => (Mnemonic::Bcs, Mode::Relative),
        0xB1 => (Mnemonic::Lda, Mode::IndirectY),
        0xB2 => (Mnemonic::Unknown, Mode::Implied),
        0xB3 => (Mnemonic::Lax, Mode::IndirectY),
        0xB4 => (Mnemonic::Ldy, Mode::ZeroPageX),
        0xB5 => (Mnemonic::Lda, Mode::ZeroPageX),
        0xB6 => (Mnemonic::Ldx, Mode::ZeroPageY),
        0xB7 => (Mnemonic::Lax, Mode::ZeroPageY),
        0xB8 => (Mnemonic::Clv, Mode::Implied),
        0xB9 => (Mnemonic::Lda, Mode::AbsoluteY),
        0xBA => (Mnemonic::Tsx, Mode::Implied),
        0xBB => (Mnemonic::Unknown, Mode::AbsoluteY),
        0xBC => (Mnemonic::Ldy, Mode::AbsoluteX),
        0xBD => (Mnemonic::Lda, Mode::AbsoluteX),
        0xBE => (Mnemonic::Ldx, Mode::AbsoluteY),
        0xBF => (Mnemonic::Lax, Mode::AbsoluteY),
        0xC0 => (Mnemonic::Cpy, Mode::Immediate),
        0xC1 => (Mnemonic::Cmp, Mode::IndirectX),
        0xC2 => (Mnemonic::Nop, Mode::Immediate),
        0xC3 => (Mnemonic::Dcp, Mode::IndirectX),
        0xC4 => (Mnemonic::Cpy, Mode::ZeroPage),
        0xC5 => (Mnemonic::Cmp, Mode::ZeroPage),
        0xC6 => (Mnemonic::Dec, Mode::ZeroPage),
        0xC7 => (Mnemonic::Dcp, Mode::ZeroPage),
        0xC8 => (Mnemonic::Iny, Mode::Implied),
        0xC9 => (Mnemonic::Cmp, Mode::Immediate),
        0xCA => (Mnemonic::Dex, Mode::Implied),
        0xCB => (Mnemonic::Unknown, Mode::Immediate),
        0xCC => (Mnemonic::Cpy, Mode::Absolute),
        0xCD => (Mnemonic::Cmp, Mode::Absolute),
        0xCE => (Mnemonic::Dec, Mode::Absolute),
        0xCF => (Mnemonic::Dcp, Mode::Absolute),
        0xD0 => (Mnemonic::Bne, Mode::Relative),
        0xD1 => (Mnemonic::Cmp, Mode::IndirectY),
        0xD2 => (Mnemonic::Unknown, Mode::Implied),
        0xD3 => (Mnemonic::Dcp, Mode::IndirectY),
        0xD4 => (Mnemonic::Nop, Mode::ZeroPageX),
        0xD5 => (Mnemonic::Cmp, Mode::ZeroPageX),
        0xD6 => (Mnemonic::Dec, Mode::ZeroPageX),
        0xD7 => (Mnemonic::Dcp, Mode::ZeroPageX),
        0xD8 => (Mnemonic::Cld, Mode::Implied),
        0xD9 => (Mnemonic::Cmp, Mode::AbsoluteY),
        0xDA => (Mnemonic::Nop, Mode::Implied),
        0xDB => (Mnemonic::Dcp, Mode::AbsoluteY),
        0xDC => (Mnemonic::Nop, Mode::AbsoluteX),
        0xDD => (Mnemonic::Cmp, Mode::AbsoluteX),
        0xDE => (Mnemonic::Dec, Mode::AbsoluteX),
        0xDF => (Mnemonic::Dcp, Mode::AbsoluteX),
        0xE0 => (Mnemonic::Cpx, Mode::Immediate),
        0xE1 => (Mnemonic::Sbc, Mode::IndirectX),
        0xE2 => (Mnemonic::Nop, Mode::Immediate),
        0xE3 => (Mnemonic::Isc, Mode::IndirectX),
        0xE4 => (Mnemonic::Cpx, Mode::ZeroPage),
        0xE5 => (Mnemonic::Sbc, Mode::ZeroPage),
        0xE6 => (Mnemonic::Inc, Mode::ZeroPage),
        0xE7 => (Mnemonic::Isc, Mode::ZeroPage),
        0xE8 => (Mnemonic::Inx, Mode::Implied),
        0xE9 => (Mnemonic::Sbc, Mode::Immediate),
        0xEA => (Mnemonic::Nop, Mode::Implied),
        0xEB => (Mnemonic::Sbc, Mode::Immediate),
        0xEC => (Mnemonic::Cpx, Mode::Absolute),
        0xED => (Mnemonic::Sbc, Mode::Absolute),
        0xEE => (Mnemonic::Inc, Mode::Absolute),
        0xEF => (Mnemonic::Isc, Mode::Absolute),
        0xF0 => (Mnemonic::Beq, Mode::Relative),
        0xF1 => (Mnemonic::Sbc, Mode::IndirectY),
        0xF2 => (Mnemonic::Unknown, Mode::Implied),
        0xF3 => (Mnemonic::Isc, Mode::IndirectY),
        0xF4 => (Mnemonic::Nop, Mode::ZeroPageX),
        0xF5 => (Mnemonic::Sbc, Mode::ZeroPageX),
        0xF6 => (Mnemonic::Inc, Mode::ZeroPageX),
        0xF7 => (Mnemonic::Isc, Mode::ZeroPageX),
        0xF8 => (Mnemonic::Sed, Mode::Implied),
        0xF9 => (Mnemonic::Sbc, Mode::AbsoluteY),
        0xFA => (Mnemonic::Nop, Mode::Implied),
        0xFB => (Mnemonic::Isc, Mode::AbsoluteY),
        0xFC => (Mnemonic::Nop, Mode::AbsoluteX),
        0xFD => (Mnemonic::Sbc, Mode::AbsoluteX),
        0xFE => (Mnemonic::Inc, Mode::AbsoluteX),
        0xFF => (Mnemonic::Isc, Mode::AbsoluteX),
    }
}

/// The length in bytes of the instruction that `op` starts.
pub open spec fn instruction_length(op: u8) -> nat {
    1 + opcode_entry(op).1.operand_bytes()
}

/// Looks `op` up in the opcode table.
pub fn decode(op: u8) -> (r: (Mnemonic, Mode))
    ensures
        r == opcode_entry(op),
        r.0.fits(r.1),
{
    reveal(opcode_entry);
    match op {
        0x00 => (Mnemonic::Brk, Mode::Immediate),
        0x01 => (Mnemonic::Ora, Mode::IndirectX),
        0x02 => (Mnemonic::Unknown, Mode::Implied),
        0x03 => (Mnemonic::Slo, Mode::IndirectX),
        0x04 => (Mnemonic::Nop, Mode::ZeroPage),
        0x05 => (Mnemonic::Ora, Mode::ZeroPage),
        0x06 => (Mnemonic::Asl, Mode::ZeroPage),
        0x07 => (Mnemonic::Slo, Mode::ZeroPage),
        0x08 => (Mnemonic::Php, Mode::Implied),
        0x09 => (Mnemonic::Ora, Mode::Immediate),
        0x0A => (Mnemonic::Asl, Mode::Accumulator),
        0x0B => (Mnemonic::Unknown, Mode::Immediate),
        0x0C => (Mnemonic::Nop, Mode::Absolute),
        0x0D => (Mnemonic::Ora, Mode::Absolute),
        0x0E => (Mnemonic::Asl, Mode::Absolute),
        0x0F => (Mnemonic::Slo, Mode::Absolute),
        0x10 => (Mnemonic::Bpl, Mode::Relative),
        0x11 => (Mnemonic::Ora, Mode::IndirectY),
        0x12 => (Mnemonic::Unknown, Mode::Implied),
        0x13 => (Mnemonic::Slo, Mode::IndirectY),
        0x14 => (Mnemonic::Nop, Mode::ZeroPageX),
        0x15 => (Mnemonic::Ora, Mode::ZeroPageX),
        0x16 => (Mnemonic::Asl, Mode::ZeroPageX),
        0x17 => (Mnemonic::Slo, Mode::ZeroPageX),
        0x18 => (Mnemonic::Clc, Mode::Implied),
        0x19 => (Mnemonic::Ora, Mode::AbsoluteY),
        0x1A => (Mnemonic::Nop, Mode::Implied),
        0x1B => (Mnemonic::Slo, Mode::AbsoluteY),
        0x1C => (Mnemonic::Nop, Mode::AbsoluteX),
        0x1D => (Mnemonic::Ora, Mode::AbsoluteX),
        0x1E => (Mnemonic::Asl, Mode::AbsoluteX),
        0x1F => (Mnemonic::Slo, Mode::AbsoluteX),
        0x20 => (Mnemonic::Jsr, Mode::Absolute),
        0x21 => (Mnemonic::And, Mode::IndirectX),
        0x22 => (Mnemonic::Unknown, Mode::Implied),
        0x23 => (Mnemonic::Rla, Mode::IndirectX),
        0x24 => (Mnemonic::Bit, Mode::ZeroPage),
        0x25 => (Mnemonic::And, Mode::ZeroPage),
        0x26 => (Mnemonic::Rol, Mode::ZeroPage),
        0x27 => (Mnemonic::Rla, Mode::ZeroPage),
        0x28 => (Mnemonic::Plp, Mode::Implied),
        0x29 => (Mnemonic::And, Mode::Immediate),
        0x2A => (Mnemonic::Rol, Mode::Accumulator),
        0x2B => (Mnemonic::Unknown, Mode::Immediate),
        0x2C => (Mnemonic::Bit, Mode::Absolute),
        0x2D => (Mnemonic::And, Mode::Absolute),
        0x2E => (Mnemonic::Rol, Mode::Absolute),
        0x2F => (Mnemonic::Rla, Mode::Absolute),
        0x30 => (Mnemonic::Bmi, Mode::Relative),
        0x31 => (Mnemonic::And, Mode::IndirectY),
        0x32 => (Mnemonic::Unknown, Mode::Implied),
        0x33 => (Mnemonic::Rla, Mode::IndirectY),
        0x34 => (Mnemonic::Nop, Mode::ZeroPageX),
        0x35 => (Mnemonic::And, Mode::ZeroPageX),
        0x36 => (Mnemonic::Rol, Mode::ZeroPageX),
        0x37 => (Mnemonic::Rla, Mode::ZeroPageX),
        0x38 => (Mnemonic::Sec, Mode::Implied),
        0x39 => (Mnemonic::And, Mode::AbsoluteY),
        0x3A => (Mnemonic::Nop, Mode::Implied),
        0x3B => (Mnemonic::Rla, Mode::AbsoluteY),
        0x3C => (Mnemonic::Nop, Mode::AbsoluteX),
        0x3D => (Mnemonic::And, Mode::AbsoluteX),
        0x3E => (Mnemonic::Rol, Mode::AbsoluteX),
        0x3F => (Mnemonic::Rla, Mode::AbsoluteX),
        0x40 => (Mnemonic::Rti, Mode::Implied),
        0x41 => (Mnemonic::Eor, Mode::IndirectX),
        0x42 => (Mnemonic::Unknown, Mode::Implied),
        0x43 => (Mnemonic::Sre, Mode::IndirectX),
        0x44 => (Mnemonic::Nop, Mode::ZeroPage),
        0x45 => (Mnemonic::Eor, Mode::ZeroPage),
        0x46 => (Mnemonic::Lsr, Mode::ZeroPage),
        0x47 => (Mnemonic::Sre, Mode::ZeroPage),
        0x48 => (Mnemonic::Pha, Mode::Implied),
        0x49 => (Mnemonic::Eor, Mode::Immediate),
        0x4A => (Mnemonic::Lsr, Mode::Accumulator),
        0x4B => (Mnemonic::Unknown, Mode::Immediate),
        0x4C => (Mnemonic::Jmp, Mode::Absolute),
        0x4D => (Mnemonic::Eor, Mode::Absolute),
        0x4E => (Mnemonic::Lsr, Mode::Absolute),
        0x4F => (Mnemonic::Sre, Mode::Absolute),
        0x50 => (Mnemonic::Bvc, Mode::Relative),
        0x51 => (Mnemonic::Eor, Mode::IndirectY),
        0x52 => (Mnemonic::Unknown, Mode::Implied),
        0x53 => (Mnemonic::Sre, Mode::IndirectY),
        0x54 => (Mnemonic::Nop, Mode::ZeroPageX),
        0x55 => (Mnemonic::Eor, Mode::ZeroPageX),
        0x56 => (Mnemonic::Lsr, Mode::ZeroPageX),
        0x57 => (Mnemonic::Sre, Mode::ZeroPageX),
        0x58 => (Mnemonic::Cli, Mode::Implied),
        0x59 => (Mnemonic::Eor, Mode::AbsoluteY),
        0x5A => (Mnemonic::Nop, Mode::Implied),
        0x5B => (Mnemonic::Sre, Mode::AbsoluteY),
        0x5C => (Mnemonic::Nop, Mode::AbsoluteX),
        0x5D => (Mnemonic::Eor, Mode::AbsoluteX),
        0x5E => (Mnemonic::Lsr, Mode::AbsoluteX),
        0x5F => (Mnemonic::Sre, Mode::AbsoluteX),
        0x60 => (Mnemonic::Rts, Mode::Implied),
        0x61 => (Mnemonic::Adc, Mode::IndirectX),
        0x62 => (Mnemonic::Unknown, Mode::Implied),
        0x63 => (Mnemonic::Rra, Mode::IndirectX),
        0x64 => (Mnemonic::Nop, Mode::ZeroPage),
        0x65 => (Mnemonic::Adc, Mode::ZeroPage),
        0x66 => (Mnemonic::Ror, Mode::ZeroPage),
        0x67 => (Mnemonic::Rra, Mode::ZeroPage),
        0x68 => (Mnemonic::Pla, Mode::Implied),
        0x69 => (Mnemonic::Adc, Mode::Immediate),
        0x6A => (Mnemonic::Ror, Mode::Accumulator),
        0x6B => (Mnemonic::Unknown, Mode::Immediate),
        0x6C => (Mnemonic::Jmp, Mode::Indirect),
        0x6D => (Mnemonic::Adc, Mode::Absolute),
        0x6E => (Mnemonic::Ror, Mode::Absolute),
        0x6F => (Mnemonic::Rra, Mode::Absolute),
        0x70 => (Mnemonic::Bvs, Mode::Relative),
        0x71 => (Mnemonic::Adc, Mode::IndirectY),
        0x72 => (Mnemonic::Unknown, Mode::Implied),
        0x73 => (Mnemonic::Rra, Mode::IndirectY),
        0x74 => (Mnemonic::Nop, Mode::ZeroPageX),
        0x75 => (Mnemonic::Adc, Mode::ZeroPageX),
        0x76 => (Mnemonic::Ror, Mode::ZeroPageX),
        0x77 => (Mnemonic::Rra, Mode::ZeroPageX),
        0x78 => (Mnemonic::Sei, Mode::Implied),
        0x79 => (Mnemonic::Adc, Mode::AbsoluteY),
        0x7A => (Mnemonic::Nop, Mode::Implied),
        0x7B => (Mnemonic::Rra, Mode::AbsoluteY),
        0x7C => (Mnemonic::Nop, Mode::AbsoluteX),
        0x7D => (Mnemonic::Adc, Mode::AbsoluteX),
        0x7E => (Mnemonic::Ror, Mode::AbsoluteX),
        0x7F => (Mnemonic::Rra, Mode::AbsoluteX),
        0x80 => (Mnemonic::Nop, Mode::Immediate),
        0x81 => (Mnemonic::Sta, Mode::IndirectX),
        0x82 => (Mnemonic::Nop, Mode::Immediate),
        0x83 => (Mnemonic::Sax, Mode::IndirectX),
        0x84 => (Mnemonic::Sty, Mode::ZeroPage),
        0x85 => (Mnemonic::Sta, Mode::ZeroPage),
        0x86 => (Mnemonic::Stx, Mode::ZeroPage),
        0x87 => (Mnemonic::Sax, Mode::ZeroPage),
        0x88 => (Mnemonic::Dey, Mode::Implied),
        0x89 => (Mnemonic::Nop, Mode::Immediate),
        0x8A => (Mnemonic::Txa, Mode::Implied),
        0x8B => (Mnemonic::Unknown, Mode::Immediate),
        0x8C => (Mnemonic::Sty, Mode::Absolute),
        0x8D => (Mnemonic::Sta, Mode::Absolute),
        0x8E => (Mnemonic::Stx, Mode::Absolute),
        0x8F => (Mnemonic::Sax, Mode::Absolute),
        0x90 => (Mnemonic::Bcc, Mode::Relative),
        0x91 => (Mnemonic::Sta, Mode::IndirectY),
        0x92 => (Mnemonic::Unknown, Mode::Implied),
        0x93 => (Mnemonic::Unknown, Mode::IndirectY),
        0x94 => (Mnemonic::Sty, Mode::ZeroPageX),
        0x95 => (Mnemonic::Sta, Mode::ZeroPageX),
        0x96 => (Mnemonic::Stx, Mode::ZeroPageY),
        0x97 => (Mnemonic::Sax, Mode::ZeroPageY),
        0x98 => (Mnemonic::Tya, Mode::Implied),
        0x99 => (Mnemonic::Sta, Mode::AbsoluteY),
        0x9A => (Mnemonic::Txs, Mode::Implied),
        0x9B => (Mnemonic::Unknown, Mode::AbsoluteY),
        0x9C => (Mnemonic::Unknown, Mode::AbsoluteX),
        0x9D => (Mnemonic::Sta, Mode::AbsoluteX),
        0x9E => (Mnemonic::Unknown, Mode::AbsoluteY),
        0x9F => (Mnemonic::Unknown, Mode::AbsoluteY),
        0xA0 => (Mnemonic::Ldy, Mode::Immediate),
        0xA1 => (Mnemonic::Lda, Mode::IndirectX),
        0xA2 => (Mnemonic::Ldx, Mode::Immediate),
        0xA3 => (Mnemonic::Lax, Mode::IndirectX),
        0xA4 => (Mnemonic::Ldy, Mode::ZeroPage),
        0xA5 => (Mnemonic::Lda, Mode::ZeroPage),
        0xA6 => (Mnemonic::Ldx, Mode::ZeroPage),
        0xA7 => (Mnemonic::Lax, Mode::ZeroPage),
        0xA8 => (Mnemonic::Tay, Mode::Implied),
        0xA9 => (Mnemonic::Lda, Mode::Immediate),
        0xAA => (Mnemonic::Tax, Mode::Implied),
        0xAB => (Mnemonic::Unknown, Mode::Immediate),
        0xAC => (Mnemonic::Ldy, Mode::Absolute),
        0xAD => (Mnemonic::Lda, Mode::Absolute),
        0xAE => (Mnemonic::Ldx, Mode::Absolute),
        0xAF => (Mnemonic::Lax, Mode::Absolute),
        0xB0 => (Mnemonic::Bcs, Mode::Relative),
        0xB1 => (Mnemonic::Lda, Mode::IndirectY),
        0xB2 => (Mnemonic::Unknown, Mode::Implied),
        0xB3 => (Mnemonic::Lax, Mode::IndirectY),
        0xB4 => (Mnemonic::Ldy, Mode::ZeroPageX),
        0xB5 => (Mnemonic::Lda, Mode::ZeroPageX),
        0xB6 => (Mnemonic::Ldx, Mode::ZeroPageY),
        0xB7 => (Mnemonic::Lax, Mode::ZeroPageY),
        0xB8 => (Mnemonic::Clv, Mode::Implied),
        0xB9 => (Mnemonic::Lda, Mode::AbsoluteY),
        0xBA => (Mnemonic::Tsx, Mode::Implied),
        0xBB => (Mnemonic::Unknown, Mode::AbsoluteY),
        0xBC => (Mnemonic::Ldy, Mode::AbsoluteX),
        0xBD => (Mnemonic::Lda, Mode::AbsoluteX),
        0xBE => (Mnemonic::Ldx, Mode::AbsoluteY),
        0xBF => (Mnemonic::Lax, Mode::AbsoluteY),
        0xC0 => (Mnemonic::Cpy, Mode::Immediate),
        0xC1 => (Mnemonic::Cmp, Mode::IndirectX),
        0xC2 => (Mnemonic::Nop, Mode::Immediate),
        0xC3 => (Mnemonic::Dcp, Mode::IndirectX),
        0xC4 => (Mnemonic::Cpy, Mode::ZeroPage),
        0xC5 => (Mnemonic::Cmp, Mode::ZeroPage),
        0xC6 => (Mnemonic::Dec, Mode::ZeroPage),
        0xC7 => (Mnemonic::Dcp, Mode::ZeroPage),
        0xC8 => (Mnemonic::Iny, Mode::Implied),
        0xC9 => (Mnemonic::Cmp, Mode::Immediate),
        0xCA => (Mnemonic::Dex, Mode::Implied),
        0xCB => (Mnemonic::Unknown, Mode::Immediate),
        0xCC => (Mnemonic::Cpy, Mode::Absolute),
        0xCD => (Mnemonic::Cmp, Mode::Absolute),
        0xCE => (Mnemonic::Dec, Mode::Absolute),
        0xCF => (Mnemonic::Dcp, Mode::Absolute),
        0xD0 => (Mnemonic::Bne, Mode::Relative),
        0xD1 => (Mnemonic::Cmp, Mode::IndirectY),
        0xD2 => (Mnemonic::Unknown, Mode::Implied),
        0xD3 => (Mnemonic::Dcp, Mode::IndirectY),
        0xD4 => (Mnemonic::Nop, Mode::ZeroPageX),
        0xD5 => (Mnemonic::Cmp, Mode::ZeroPageX),
        0xD6 => (Mnemonic::Dec, Mode::ZeroPageX),
        0xD7 => (Mnemonic::Dcp, Mode::ZeroPageX),
        0xD8 => (Mnemonic::Cld, Mode::Implied),
        0xD9 => (Mnemonic::Cmp, Mode::AbsoluteY),
        0xDA => (Mnemonic::Nop, Mode::Implied),
        0xDB => (Mnemonic::Dcp, Mode::AbsoluteY),
        0xDC => (Mnemonic::Nop, Mode::AbsoluteX),
        0xDD => (Mnemonic::Cmp, Mode::AbsoluteX),
        0xDE => (Mnemonic::Dec, Mode::AbsoluteX),
        0xDF => (Mnemonic::Dcp, Mode::AbsoluteX),
        0xE0 => (Mnemonic::Cpx, Mode::Immediate),
        0xE1 => (Mnemonic::Sbc, Mode::IndirectX),
        0xE2 => (Mnemonic::Nop, Mode::Immediate),
        0xE3 => (Mnemonic::Isc, Mode::IndirectX),
        0xE4 => (Mnemonic::Cpx, Mode::ZeroPage),
        0xE5 => (Mnemonic::Sbc, Mode::ZeroPage),
        0xE6 => (Mnemonic::Inc, Mode::ZeroPage),
        0xE7 => (Mnemonic::Isc, Mode::ZeroPage),
        0xE8 => (Mnemonic::Inx, Mode::Implied),
        0xE9 => (Mnemonic::Sbc, Mode::Immediate),
        0xEA => (Mnemonic::Nop, Mode::Implied),
        0xEB => (Mnemonic::Sbc, Mode::Immediate),
        0xEC => (Mnemonic::Cpx, Mode::Absolute),
        0xED => (Mnemonic::Sbc, Mode::Absolute),
        0xEE => (Mnemonic::Inc, Mode::Absolute),
        0xEF => (Mnemonic::Isc, Mode::Absolute),
        0xF0 => (Mnemonic::Beq, Mode::Relative),
        0xF1 => (Mnemonic::Sbc, Mode::IndirectY),
        0xF2 => (Mnemonic::Unknown, Mode::Implied),
        0xF3 => (Mnemonic::Isc, Mode::IndirectY),
        0xF4 => (Mnemonic::Nop, Mode::ZeroPageX),
        0xF5 => (Mnemonic::Sbc, Mode::ZeroPageX),
        0xF6 => (Mnemonic::Inc, Mode::ZeroPageX),
        0xF7 => (Mnemonic::Isc, Mode::ZeroPageX),
        0xF8 => (Mnemonic::Sed, Mode::Implied),
        0xF9 => (Mnemonic::Sbc, Mode::AbsoluteY),
        0xFA => (Mnemonic::Nop, Mode::Implied),
        0xFB => (Mnemonic::Isc, Mode::AbsoluteY),
        0xFC => (Mnemonic::Nop, Mode::AbsoluteX),
        0xFD => (Mnemonic::Sbc, Mode::AbsoluteX),
        0xFE => (Mnemonic::Inc, Mode::AbsoluteX),
        0xFF => (Mnemonic::Isc, Mode::AbsoluteX),
    }
}

/// The length in bytes of the instruction that `op` starts: the opcode and
/// its operand.
pub fn instruction_len(op: u8) -> (r: u8)
    ensures
        r == instruction_length(op),
{
    let (_, mode) = decode(op);
    1 + mode.operand_len()
}

} // verus!
