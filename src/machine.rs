//! The architectural model of the processor: what each addressing mode
//! resolves to and what each instruction does to registers, flags and
//! memory. The executable CPU is proved to follow it.
use vstd::prelude::*;
use crate::memory::{MemView, word};
use crate::opcodes::{Mnemonic, Mode, opcode_entry};
use crate::status::{RegP, pack, unpack};

verus! {

/// `a + b` wrapped to 8 bits.
pub open spec fn add8(a: u8, b: int) -> u8 {
    ((a + b) % 256) as u8
}

/// `a + b` wrapped to 16 bits.
pub open spec fn add16(a: u16, b: int) -> u16 {
    ((a + b) % 65536) as u16
}

/// The byte read as a two's-complement offset.
pub open spec fn signed8(b: u8) -> int {
    if b < 128 { b as int } else { b - 256 }
}

/// The address of the stack slot that `sp` points at.
pub open spec fn stack_addr(sp: u8) -> u16 {
    (0x100 + sp) as u16
}

/// Whether bit 7 of `v` is set.
pub open spec fn bit7(v: u8) -> bool {
    v & 0x80 != 0
}

/// Whether bit 0 of `v` is set.
pub open spec fn bit0(v: u8) -> bool {
    v & 0x01 != 0
}

/// The registers at one moment.
#[derive(Clone, Copy, Debug, PartialEq, Eq, Structural)]
pub struct CpuState {
    pub reg_pc: u16,
    pub reg_sp: u8,
    pub reg_a: u8,
    pub reg_x: u8,
    pub reg_y: u8,
    pub reg_p: RegP,
}

/// What an addressing mode resolves to.
#[derive(Clone, Copy, Debug, PartialEq, Eq, Structural)]
pub enum Target {
    /// No operand.
    Implied,
    /// The accumulator.
    Accumulator,
    /// A value taken from the instruction stream.
    Immediate(u8),
    /// An effective address (for a branch, its destination).
    Memory(u16),
}

/// Whether a target of this kind is what `mn` needs.
pub open spec fn target_fits(mn: Mnemonic, t: Target) -> bool {
    if mn.reads_operand() {
        !(t is Implied)
    } else if mn.writes_operand() {
        t is Accumulator || t is Memory
    } else if mn.is_branch() || mn is Jmp || mn is Jsr {
        t is Memory
    } else {
        true
    }
}

/// Whether `t` has the kind that `mode` resolves to.
pub open spec fn target_of_mode(mode: Mode, t: Target) -> bool {
    match mode {
        Mode::Implied => t is Implied,
        Mode::Accumulator => t is Accumulator,
        Mode::Immediate => t is Immediate,
        _ => t is Memory,
    }
}

/// One line of the execution trace: the state before an instruction ran.
#[derive(Clone, Copy, Debug, PartialEq, Eq, Structural)]
pub struct TraceEntry {
    /// The instruction's number, counting from 1.
    pub count: u64,
    pub opcode: u8,
    pub state: CpuState,
    /// False for an opcode that this core does not implement.
    pub known: bool,
}

/// The whole machine: registers, memory, and the instruction counter.
pub struct Machine {
    pub regs: CpuState,
    pub mem: MemView,
    pub count: u64,
}

impl Machine {
    pub open spec fn wf(self) -> bool {
        self.regs.reg_p.wf() && self.mem.wf()
    }

    pub open spec fn read(self, addr: u16) -> u8 {
        self.mem.read(addr)
    }

    pub open spec fn with_regs(self, regs: CpuState) -> Machine {
        Machine { regs, ..self }
    }

    pub open spec fn with_pc(self, v: u16) -> Machine {
        self.with_regs(CpuState { reg_pc: v, ..self.regs })
    }

    pub open spec fn with_sp(self, v: u8) -> Machine {
        self.with_regs(CpuState { reg_sp: v, ..self.regs })
    }

    pub open spec fn with_a(self, v: u8) -> Machine {
        self.with_regs(CpuState { reg_a: v, ..self.regs })
    }

    pub open spec fn with_x(self, v: u8) -> Machine {
        self.with_regs(CpuState { reg_x: v, ..self.regs })
    }

    pub open spec fn with_y(self, v: u8) -> Machine {
        self.with_regs(CpuState { reg_y: v, ..self.regs })
    }

    pub open spec fn with_p(self, p: RegP) -> Machine {
        self.with_regs(CpuState { reg_p: p, ..self.regs })
    }

    pub open spec fn with_carry(self, c: bool) -> Machine {
        self.with_p(RegP { carry: c, ..self.regs.reg_p })
    }

    pub open spec fn with_overflow(self, v: bool) -> Machine {
        self.with_p(RegP { overflow: v, ..self.regs.reg_p })
    }

    pub open spec fn with_decimal(self, d: bool) -> Machine {
        self.with_p(RegP { decimal: d, ..self.regs.reg_p })
    }

    pub open spec fn with_int_disable(self, i: bool) -> Machine {
        self.with_p(RegP { int_disable: i, ..self.regs.reg_p })
    }

    /// Z from `v == 0` and N from bit 7 of `v`.
    pub open spec fn with_zn(self, v: u8) -> Machine {
        self.with_p(RegP { zero: v == 0, negative: bit7(v), ..self.regs.reg_p })
    }

    pub open spec fn write(self, addr: u16, v: u8) -> Machine {
        Machine { mem: self.mem.write(addr, v), ..self }
    }

    /// The operand value: the accumulator, the immediate byte, or the byte at
    /// the effective address.
    pub open spec fn operand(self, t: Target) -> u8 {
        match t {
            Target::Implied => 0,
            Target::Accumulator => self.regs.reg_a,
            Target::Immediate(v) => v,
            Target::Memory(addr) => self.read(addr),
        }
    }

    /// The machine after `v` is written to the target.
    pub open spec fn write_operand(self, t: Target, v: u8) -> Machine {
        match t {
            Target::Accumulator => self.with_a(v),
            Target::Memory(addr) => self.write(addr, v),
            _ => self,
        }
    }

    /// Pushes `v`: it goes to the slot SP points at, and SP moves down.
    pub open spec fn push(self, v: u8) -> Machine {
        self.write(stack_addr(self.regs.reg_sp), v).with_sp(add8(self.regs.reg_sp, -1))
    }

    /// The byte that a pull returns: the one above the slot SP points at.
    pub open spec fn pulled(self) -> u8 {
        self.read(stack_addr(add8(self.regs.reg_sp, 1)))
    }

    /// The machine after a pull: SP moves up.
    pub open spec fn after_pull(self) -> Machine {
        self.with_sp(add8(self.regs.reg_sp, 1))
    }

    // Addressing.
    /// The operand that `mode` gives, with PC at its first byte.
    pub open spec fn effective(self, mode: Mode) -> Target {
        let pc = self.regs.reg_pc;
        let b = self.read(pc);
        let w = self.mem.read_word(pc);
        match mode {
            Mode::Implied => Target::Implied,
            Mode::Accumulator => Target::Accumulator,
            Mode::Immediate => Target::Immediate(b),
            Mode::ZeroPage => Target::Memory(b as u16),
            Mode::ZeroPageX => Target::Memory(add8(b, self.regs.reg_x as int) as u16),
            Mode::ZeroPageY => Target::Memory(add8(b, self.regs.reg_y as int) as u16),
            Mode::Absolute => Target::Memory(w),
            Mode::AbsoluteX => Target::Memory(add16(w, self.regs.reg_x as int)),
            Mode::AbsoluteY => Target::Memory(add16(w, self.regs.reg_y as int)),
            Mode::Indirect => Target::Memory(self.indirect_target(w)),
            Mode::IndirectX => Target::Memory(
                self.mem.read_word_zp(add8(b, self.regs.reg_x as int)),
            ),
            Mode::IndirectY => Target::Memory(
                add16(self.mem.read_word_zp(b), self.regs.reg_y as int),
            ),
            Mode::Relative => Target::Memory(add16(add16(pc, 1), signed8(b))),
        }
    }

    /// The operand that `mode` resolves to, with PC moved past its bytes.
    pub open spec fn resolve(self, mode: Mode) -> (Target, Machine) {
        (self.effective(mode), self.with_pc(add16(self.regs.reg_pc, mode.operand_bytes() as int)))
    }

    /// The word that `JMP (ptr)` jumps to. The high byte comes from the
    /// address after `ptr` within the same page: at `$xxFF` it is `$xx00`.
    pub open spec fn indirect_target(self, ptr: u16) -> u16 {
        let hi_addr = if ptr % 256 == 0xFF { (ptr - 0xFF) as u16 } else { (ptr + 1) as u16 };
        word(self.read(ptr), self.read(hi_addr))
    }

    // Loads, stores and transfers.
    pub open spec fn lda(self, t: Target) -> Machine {
        self.with_a(self.operand(t)).with_zn(self.operand(t))
    }

    pub open spec fn ldx(self, t: Target) -> Machine {
        self.with_x(self.operand(t)).with_zn(self.operand(t))
    }

    pub open spec fn ldy(self, t: Target) -> Machine {
        self.with_y(self.operand(t)).with_zn(self.operand(t))
    }

    pub open spec fn lax(self, t: Target) -> Machine {
        self.with_a(self.operand(t)).with_x(self.operand(t)).with_zn(self.operand(t))
    }

    pub open spec fn sta(self, t: Target) -> Machine {
        self.write_operand(t, self.regs.reg_a)
    }

    pub open spec fn stx(self, t: Target) -> Machine {
        self.write_operand(t, self.regs.reg_x)
    }

    pub open spec fn sty(self, t: Target) -> Machine {
        self.write_operand(t, self.regs.reg_y)
    }

    pub open spec fn sax(self, t: Target) -> Machine {
        self.write_operand(t, self.regs.reg_a & self.regs.reg_x)
    }

    pub open spec fn tax(self) -> Machine {
        self.with_x(self.regs.reg_a).with_zn(self.regs.reg_a)
    }

    pub open spec fn tay(self) -> Machine {
        self.with_y(self.regs.reg_a).with_zn(self.regs.reg_a)
    }

    pub open spec fn tsx(self) -> Machine {
        self.with_x(self.regs.reg_sp).with_zn(self.regs.reg_sp)
    }

    pub open spec fn txa(self) -> Machine {
        self.with_a(self.regs.reg_x).with_zn(self.regs.reg_x)
    }

    pub open spec fn txs(self) -> Machine {
        self.with_sp(self.regs.reg_x)
    }

    pub open spec fn tya(self) -> Machine {
        self.with_a(self.regs.reg_y).with_zn(self.regs.reg_y)
    }

    // Stack.
    pub open spec fn pha(self) -> Machine {
        self.push(self.regs.reg_a)
    }

    pub open spec fn pla(self) -> Machine {
        self.after_pull().with_a(self.pulled()).with_zn(self.pulled())
    }

    /// The status byte as PHP and BRK push it: with the break bit set.
    pub open spec fn pushed_p(self) -> u8 {
        pack(RegP { brk: true, ..self.regs.reg_p })
    }

    pub open spec fn php(self) -> Machine {
        self.push(self.pushed_p())
    }

    pub open spec fn plp(self) -> Machine {
        self.after_pull().with_p(unpack(self.pulled()))
    }

    // Logic and arithmetic.
    pub open spec fn and(self, t: Target) -> Machine {
        let v = self.regs.reg_a & self.operand(t);
        self.with_a(v).with_zn(v)
    }

    pub open spec fn ora(self, t: Target) -> Machine {
        let v = self.regs.reg_a | self.operand(t);
        self.with_a(v).with_zn(v)
    }

    pub open spec fn eor(self, t: Target) -> Machine {
        let v = self.regs.reg_a ^ self.operand(t);
        self.with_a(v).with_zn(v)
    }

    pub open spec fn bit(self, t: Target) -> Machine {
        let v = self.operand(t);
        self.with_p(
            RegP {
                zero: self.regs.reg_a & v == 0,
                overflow: v & 0x40 != 0,
                negative: bit7(v),
                ..self.regs.reg_p
            },
        )
    }

    /// A + v + C: carry out of bit 7 into C, signed overflow into V.
    pub open spec fn add_value(self, v: u8) -> Machine {
        let a = self.regs.reg_a;
        let sum = a + v + if self.regs.reg_p.carry { 1int } else { 0 };
        let r = (sum % 256) as u8;
        self.with_a(r).with_carry(sum > 0xFF).with_overflow((a ^ r) & (v ^ r) & 0x80 != 0).with_zn(
            r,
        )
    }

    pub open spec fn adc(self, t: Target) -> Machine {
        self.add_value(self.operand(t))
    }

    /// SBC is ADC of the complemented operand.
    pub open spec fn sbc(self, t: Target) -> Machine {
        self.add_value(!self.operand(t))
    }

    /// C from `r >= v`, Z and N from `r - v`.
    pub open spec fn compare(self, r: u8, v: u8) -> Machine {
        self.with_carry(r >= v).with_zn(add8(r, -v))
    }

    pub open spec fn cmp(self, t: Target) -> Machine {
        self.compare(self.regs.reg_a, self.operand(t))
    }

    pub open spec fn cpx(self, t: Target) -> Machine {
        self.compare(self.regs.reg_x, self.operand(t))
    }

    pub open spec fn cpy(self, t: Target) -> Machine {
        self.compare(self.regs.reg_y, self.operand(t))
    }

    // Shifts, rotates, increments.
    pub open spec fn asl(self, t: Target) -> Machine {
        let v = self.operand(t);
        let r = ((v * 2) % 256) as u8;
        self.with_carry(bit7(v)).with_zn(r).write_operand(t, r)
    }

    pub open spec fn lsr(self, t: Target) -> Machine {
        let v = self.operand(t);
        let r = v / 2;
        self.with_carry(bit0(v)).with_zn(r).write_operand(t, r)
    }

    pub open spec fn rol(self, t: Target) -> Machine {
        let v = self.operand(t);
        let r = ((v * 2) % 256 + if self.regs.reg_p.carry { 1int } else { 0 }) as u8;
        self.with_carry(bit7(v)).with_zn(r).write_operand(t, r)
    }

    pub open spec fn ror(self, t: Target) -> Machine {
        let v = self.operand(t);
        let r = (v / 2 + if self.regs.reg_p.carry { 0x80int } else { 0 }) as u8;
        self.with_carry(bit0(v)).with_zn(r).write_operand(t, r)
    }

    pub open spec fn inc(self, t: Target) -> Machine {
        let r = add8(self.operand(t), 1);
        self.with_zn(r).write_operand(t, r)
    }

    pub open spec fn dec(self, t: Target) -> Machine {
        let r = add8(self.operand(t), -1);
        self.with_zn(r).write_operand(t, r)
    }

    pub open spec fn inx(self) -> Machine {
        self.with_x(add8(self.regs.reg_x, 1)).with_zn(add8(self.regs.reg_x, 1))
    }

    pub open spec fn iny(self) -> Machine {
        self.with_y(add8(self.regs.reg_y, 1)).with_zn(add8(self.regs.reg_y, 1))
    }

    pub open spec fn dex(self) -> Machine {
        self.with_x(add8(self.regs.reg_x, -1)).with_zn(add8(self.regs.reg_x, -1))
    }

    pub open spec fn dey(self) -> Machine {
        self.with_y(add8(self.regs.reg_y, -1)).with_zn(add8(self.regs.reg_y, -1))
    }

    // Undocumented composites.
    pub open spec fn dcp(self, t: Target) -> Machine {
        self.dec(t).cmp(t)
    }

    pub open spec fn isc(self, t: Target) -> Machine {
        self.inc(t).sbc(t)
    }

    pub open spec fn slo(self, t: Target) -> Machine {
        self.asl(t).ora(t)
    }

    pub open spec fn rla(self, t: Target) -> Machine {
        self.rol(t).and(t)
    }

    pub open spec fn sre(self, t: Target) -> Machine {
        self.lsr(t).eor(t)
    }

    pub open spec fn rra(self, t: Target) -> Machine {
        self.ror(t).adc(t)
    }

    // Control flow.
    /// Goes to the branch destination when `cond` holds.
    pub open spec fn branch_if(self, cond: bool, t: Target) -> Machine {
        if cond {
            self.with_pc(t->Memory_0)
        } else {
            self
        }
    }

    pub open spec fn jmp(self, t: Target) -> Machine {
        self.with_pc(t->Memory_0)
    }

    /// Pushes the address of the call's last byte, high byte first.
    pub open spec fn jsr(self, t: Target) -> Machine {
        let ret = add16(self.regs.reg_pc, -1);
        self.push((ret / 256) as u8).push((ret % 256) as u8).with_pc(t->Memory_0)
    }

    pub open spec fn rts(self) -> Machine {
        let lo = self.pulled();
        let m = self.after_pull();
        let hi = m.pulled();
        m.after_pull().with_pc(add16(word(lo, hi), 1))
    }

    pub open spec fn rti(self) -> Machine {
        let p = self.pulled();
        let m1 = self.after_pull().with_p(unpack(p));
        let lo = m1.pulled();
        let m2 = m1.after_pull();
        let hi = m2.pulled();
        m2.after_pull().with_pc(word(lo, hi))
    }

    /// Interrupt entry: pushes PC, high byte first, then the status byte
    /// `p`; sets I and loads PC from the vector at `vector`.
    pub open spec fn enter_interrupt(self, p: u8, vector: u16) -> Machine {
        let pc = self.regs.reg_pc;
        let m = self.push((pc / 256) as u8).push((pc % 256) as u8).push(p);
        m.with_int_disable(true).with_pc(m.mem.read_word(vector))
    }

    /// PC here is already past the padding byte: it is pushed, then P with
    /// the break bit, and the vector at `0xFFFE` is taken.
    pub open spec fn brk(self) -> Machine {
        self.enter_interrupt(self.pushed_p(), 0xFFFE)
    }

    /// A hardware interrupt through `vector`: P is pushed with the break bit
    /// clear.
    pub open spec fn interrupt(self, vector: u16) -> Machine {
        self.enter_interrupt(pack(self.regs.reg_p), vector)
    }

    /// Whether the branch `mn` is taken under the flags `p`.
    pub open spec fn branch_taken(mn: Mnemonic, p: RegP) -> bool {
        match mn {
            Mnemonic::Bcc => !p.carry,
            Mnemonic::Bcs => p.carry,
            Mnemonic::Bne => !p.zero,
            Mnemonic::Beq => p.zero,
            Mnemonic::Bpl => !p.negative,
            Mnemonic::Bmi => p.negative,
            Mnemonic::Bvc => !p.overflow,
            Mnemonic::Bvs => p.overflow,
            _ => false,
        }
    }

    /// What `mn` does with the resolved operand `t`.
    #[verifier::opaque]
    pub open spec fn execute(self, mn: Mnemonic, t: Target) -> Machine {
        match mn {
            Mnemonic::Adc => self.adc(t),
            Mnemonic::And => self.and(t),
            Mnemonic::Asl => self.asl(t),
            Mnemonic::Bcc | Mnemonic::Bcs | Mnemonic::Beq | Mnemonic::Bmi | Mnemonic::Bne
            | Mnemonic::Bpl | Mnemonic::Bvc | Mnemonic::Bvs => self.branch_if(
                Self::branch_taken(mn, self.regs.reg_p),
                t,
            ),
            Mnemonic::Bit => self.bit(t),
            Mnemonic::Brk => self.brk(),
            Mnemonic::Clc => self.with_carry(false),
            Mnemonic::Cld => self.with_decimal(false),
            Mnemonic::Cli => self.with_int_disable(false),
            Mnemonic::Clv => self.with_overflow(false),
            Mnemonic::Cmp => self.cmp(t),
            Mnemonic::Cpx => self.cpx(t),
            Mnemonic::Cpy => self.cpy(t),
            Mnemonic::Dec => self.dec(t),
            Mnemonic::Dex => self.dex(),
            Mnemonic::Dey => self.dey(),
            Mnemonic::Eor => self.eor(t),
            Mnemonic::Inc => self.inc(t),
            Mnemonic::Inx => self.inx(),
            Mnemonic::Iny => self.iny(),
            Mnemonic::Jmp => self.jmp(t),
            Mnemonic::Jsr => self.jsr(t),
            Mnemonic::Lda => self.lda(t),
            Mnemonic::Ldx => self.ldx(t),
            Mnemonic::Ldy => self.ldy(t),
            Mnemonic::Lsr => self.lsr(t),
            Mnemonic::Nop => self,
            Mnemonic::Ora => self.ora(t),
            Mnemonic::Pha => self.pha(),
            Mnemonic::Php => self.php(),
            Mnemonic::Pla => self.pla(),
            Mnemonic::Plp => self.plp(),
            Mnemonic::Rol => self.rol(t),
            Mnemonic::Ror => self.ror(t),
            Mnemonic::Rti => self.rti(),
            Mnemonic::Rts => self.rts(),
            Mnemonic::Sbc => self.sbc(t),
            Mnemonic::Sec => self.with_carry(true),
            Mnemonic::Sed => self.with_decimal(true),
            Mnemonic::Sei => self.with_int_disable(true),
            Mnemonic::Sta => self.sta(t),
            Mnemonic::Stx => self.stx(t),
            Mnemonic::Sty => self.sty(t),
            Mnemonic::Tax => self.tax(),
            Mnemonic::Tay => self.tay(),
            Mnemonic::Tsx => self.tsx(),
            Mnemonic::Txa => self.txa(),
            Mnemonic::Txs => self.txs(),
            Mnemonic::Tya => self.tya(),
            Mnemonic::Dcp => self.dcp(t),
            Mnemonic::Isc => self.isc(t),
            Mnemonic::Lax => self.lax(t),
            Mnemonic::Rla => self.rla(t),
            Mnemonic::Rra => self.rra(t),
            Mnemonic::Sax => self.sax(t),
            Mnemonic::Slo => self.slo(t),
            Mnemonic::Sre => self.sre(t),
            Mnemonic::Unknown => self,
        }
    }

    /// The opcode at PC.
    pub open spec fn opcode(self) -> u8 {
        self.read(self.regs.reg_pc)
    }

    /// One instruction: fetch the opcode, resolve its operand, execute it,
    /// and count it.
    pub open spec fn step(self) -> Machine {
        let (mn, mode) = opcode_entry(self.opcode());
        let fetched = self.with_pc(add16(self.regs.reg_pc, 1));
        let (t, resolved) = fetched.resolve(mode);
        let done = resolved.execute(mn, t);
        Machine { count: add64(done.count, 1), ..done }
    }

    /// The trace line for the instruction about to run.
    pub open spec fn trace(self) -> TraceEntry {
        TraceEntry {
            count: self.count,
            opcode: self.opcode(),
            state: self.regs,
            known: !(opcode_entry(self.opcode()).0 is Unknown),
        }
    }

    /// The machine after `n` instructions.
    pub open spec fn run(self, n: nat) -> Machine
        decreases n,
    {
        if n == 0 {
            self
        } else {
            self.run((n - 1) as nat).step()
        }
    }
}

/// `a + b` wrapped to 64 bits.
pub open spec fn add64(a: u64, b: int) -> u64 {
    ((a + b) % 0x1_0000_0000_0000_0000) as u64
}

} // verus!
