//! The executable processor: fetch, decode, resolve the operand, execute.
use vstd::prelude::*;
use crate::machine::{
    CpuState, Machine, Target, TraceEntry, add16, signed8, target_fits, target_of_mode,
};
use crate::mapper::{Mapper, selected_banks};
use crate::memory::{MemMap, MemView};
use crate::opcodes::{Mnemonic, Mode, decode};
use crate::status::{RegP, pack, unpack, lemma_pack_bits};

verus! {

/// Shifts of a byte as arithmetic, and the carry bit shifted in.
proof fn lemma_shifts(v: u8)
    ensures
        v << 1u8 == ((v * 2) % 256) as u8,
        v >> 1u8 == v / 2,
        (v << 1u8) | 1u8 == ((v * 2) % 256 + 1) as u8,
        (v >> 1u8) | 0x80u8 == (v / 2 + 0x80) as u8,
        (v << 1u8) | 0u8 == v << 1u8,
        (v >> 1u8) | 0u8 == v >> 1u8,
{
    assert(v << 1u8 == ((v * 2) % 256) as u8) by (bit_vector);
    assert(v >> 1u8 == v / 2) by (bit_vector);
    assert((v << 1u8) | 1u8 == ((v * 2) % 256 + 1) as u8) by (bit_vector);
    assert((v >> 1u8) | 0x80u8 == (v / 2 + 0x80) as u8) by (bit_vector);
    assert((v << 1u8) | 0u8 == v << 1u8) by (bit_vector);
    assert((v >> 1u8) | 0u8 == v >> 1u8) by (bit_vector);
}

/// An operand of the kind its mode resolves to is what the operation needs.
proof fn lemma_target_fits(mn: Mnemonic, mode: Mode, t: Target)
    requires
        mn.fits(mode),
        target_of_mode(mode, t),
    ensures
        target_fits(mn, t),
{
}

/// Wrapping a 16-bit sum that lies within one turn of the range.
proof fn lemma_add16(a: u16, b: int)
    requires
        -65536 <= a + b < 2 * 65536,
    ensures
        add16(a, b) == if a + b >= 65536 {
            a + b - 65536
        } else if a + b < 0 {
            a + b + 65536
        } else {
            a + b
        },
{
    if a + b >= 65536 {
        assert((a + b) % 65536 == a + b - 65536);
    } else if a + b < 0 {
        assert((a + b) % 65536 == a + b + 65536);
    } else {
        assert((a + b) % 65536 == a + b);
    }
}

/// The registers at power-on, with PC at `pc`.
pub open spec fn power_on_regs(pc: u16) -> CpuState {
    CpuState {
        reg_pc: pc,
        reg_sp: 0xFD,
        reg_a: 0,
        reg_x: 0,
        reg_y: 0,
        reg_p: RegP {
            carry: false,
            zero: false,
            int_disable: true,
            decimal: false,
            brk: false,
            expansion: true,
            overflow: false,
            negative: false,
        },
    }
}

impl CpuState {
    /// Copies the registers of `cpu`.
    pub fn store(&mut self, cpu: &CPU)
        ensures
            *final(self) == cpu@.regs,
    {
        self.reg_pc = cpu.regs.reg_pc;
        self.reg_sp = cpu.regs.reg_sp;
        self.reg_a = cpu.regs.reg_a;
        self.reg_x = cpu.regs.reg_x;
        self.reg_y = cpu.regs.reg_y;
        self.reg_p = cpu.regs.reg_p;
    }

    /// The packed status byte; for a well-formed P bit 5 reads 1 and bit 4
    /// reads 0.
    pub fn get_p(&self) -> (r: u8)
        ensures
            r == pack(self.reg_p),
            self.reg_p.wf() ==> r & 0x20 != 0 && r & 0x10 == 0,
    {
        proof {
            lemma_pack_bits(self.reg_p);
        }
        self.reg_p.to_byte()
    }
}

/// The processor and the memory map it runs against.
pub struct CPU {
    op_cnt: u64,
    regs: CpuState,
    memory: MemMap,
}

impl View for CPU {
    type V = Machine;

    closed spec fn view(&self) -> Machine {
        Machine { regs: self.regs, mem: self.memory@, count: self.op_cnt }
    }
}

impl CPU {
    /// A processor in its power-on state over the banks that `mapper` loads.
    /// PC is `entry_point` where one is given, else the reset vector at
    /// `0xFFFC`. The instruction counter starts at 1.
    pub fn new(mapper: Mapper, entry_point: Option<u16>) -> (r: CPU)
        ensures
            r@.mem == ({
                let (lower, upper) = selected_banks(mapper.rom(), mapper.lower(), mapper.upper());
                MemView { ram: Seq::new(0x800, |i: int| 0u8), lower, upper }
            }),
            r@.regs == power_on_regs(
                match entry_point {
                    Some(pc) => pc,
                    None => r@.mem.read_word(0xFFFC),
                },
            ),
            r@.count == 1,
            r@.wf(),
    {
        let mut mapper = mapper;
        mapper.load();
        let memory = MemMap::new(mapper);
        let reg_pc = match entry_point {
            Some(pc) => pc,
            None => memory.readw(0xFFFC),
        };
        let r = CPU {
            op_cnt: 1,
            regs: CpuState {
                reg_pc,
                reg_sp: 0xFD,
                reg_a: 0,
                reg_x: 0,
                reg_y: 0,
                reg_p: RegP::power_on(),
            },
            memory,
        };
        proof {
            r.memory.lemma_wf();
        }
        r
    }

    /// A snapshot of A, X, Y, SP, PC and P.
    pub fn registers(&self) -> (r: CpuState)
        ensures
            r == self@.regs,
    {
        self.regs
    }

    /// The memory map.
    pub fn memory(&self) -> (r: &MemMap)
        ensures
            r@ == self@.mem,
    {
        &self.memory
    }

    /// Runs one instruction and returns the trace line of the state before
    /// it.
    pub fn step(&mut self) -> (r: TraceEntry)
        ensures
            final(self)@ == old(self)@.step(),
            r == old(self)@.trace(),
    {
        let state = self.regs;
        let count = self.op_cnt;
        let opcode = self.read_inc_pc();
        let (mn, mode) = decode(opcode);
        let t = self.resolve(mode);
        proof {
            lemma_target_fits(mn, mode, t);
        }
        self.execute(mn, t);
        self.op_cnt = self.op_cnt.wrapping_add(1);
        TraceEntry { count, opcode, state, known: mn != Mnemonic::Unknown }
    }

    /// Takes a non-maskable interrupt: pushes PC and P (break bit clear),
    /// sets I, and jumps through the vector at `0xFFFA`.
    pub fn nmi(&mut self)
        ensures
            final(self)@ == old(self)@.interrupt(0xFFFA),
    {
        let p = self.get_p();
        self.enter_interrupt(p, 0xFFFA);
    }

    /// Takes an interrupt request through the vector at `0xFFFE`, unless I
    /// is set, in which case nothing changes.
    pub fn irq(&mut self)
        ensures
            final(self)@ == if old(self)@.regs.reg_p.int_disable {
                old(self)@
            } else {
                old(self)@.interrupt(0xFFFE)
            },
    {
        if !self.regs.reg_p.int_disable {
            let p = self.get_p();
            self.enter_interrupt(p, 0xFFFE);
        }
    }

    /// Runs `n` instructions and returns their trace lines in order.
    pub fn run(&mut self, n: u64) -> (r: Vec<TraceEntry>)
        ensures
            final(self)@ == old(self)@.run(n as nat),
            r@.len() == n,
            forall|i: int| 0 <= i < n ==> #[trigger] r@[i] == old(self)@.run(i as nat).trace(),
    {
        let mut trace: Vec<TraceEntry> = Vec::new();
        let mut i: u64 = 0;
        while i < n
            invariant
                i <= n,
                self@ == old(self)@.run(i as nat),
                trace@.len() == i,
                forall|k: int| 0 <= k < i ==> #[trigger] trace@[k] == old(self)@.run(k as nat).trace(),
            decreases n - i,
        {
            let entry = self.step();
            trace.push(entry);
            i = i + 1;
        }
        trace
    }

    /// Runs the instruction `mn` on the resolved operand `t`.
    fn execute(&mut self, mn: Mnemonic, t: Target)
        requires
            target_fits(mn, t),
        ensures
            final(self)@ == old(self)@.execute(mn, t),
    {
        reveal(Machine::execute);
        match mn {
            Mnemonic::Adc => self.adc(t),
            Mnemonic::And => self.and(t),
            Mnemonic::Asl => self.asl(t),
            Mnemonic::Bcc => self.bcc(t),
            Mnemonic::Bcs => self.bcs(t),
            Mnemonic::Beq => self.beq(t),
            Mnemonic::Bmi => self.bmi(t),
            Mnemonic::Bne => self.bne(t),
            Mnemonic::Bpl => self.bpl(t),
            Mnemonic::Bvc => self.bvc(t),
            Mnemonic::Bvs => self.bvs(t),
            Mnemonic::Bit => self.bit(t),
            Mnemonic::Brk => self.brk(),
            Mnemonic::Clc => self.clc(),
            Mnemonic::Cld => self.cld(),
            Mnemonic::Cli => self.cli(),
            Mnemonic::Clv => self.clv(),
            Mnemonic::Cmp => self.cmp(t),
            Mnemonic::Cpx => self.cpx(t),
            Mnemonic::Cpy => self.cpy(t),
            Mnemonic::Dec => self.dec(t),
            Mnemonic::Dex => self.dex(),
            Mnemonic::Dey => self.dey(),
            Mnemonic::Eor => self.eor(t),
            Mnemonic::Inc => self.inc(t),
            Mnemonic::Inx => self.inx(),
            Mnemonic::Iny => self.iny(),
            Mnemonic::Jmp => self.jmp(t),
            Mnemonic::Jsr => self.jsr(t),
            Mnemonic::Lda => self.lda(t),
            Mnemonic::Ldx => self.ldx(t),
            Mnemonic::Ldy => self.ldy(t),
            Mnemonic::Lsr => self.lsr(t),
            Mnemonic::Nop => {},
            Mnemonic::Ora => self.ora(t),
            Mnemonic::Pha => self.pha(),
            Mnemonic::Php => self.php(),
            Mnemonic::Pla => self.pla(),
            Mnemonic::Plp => self.plp(),
            Mnemonic::Rol => self.rol(t),
            Mnemonic::Ror => self.ror(t),
            Mnemonic::Rti => self.rti(),
            Mnemonic::Rts => self.rts(),
            Mnemonic::Sbc => self.sbc(t),
            Mnemonic::Sec => self.sec(),
            Mnemonic::Sed => self.sed(),
            Mnemonic::Sei => self.sei(),
            Mnemonic::Sta => self.sta(t),
            Mnemonic::Stx => self.stx(t),
            Mnemonic::Sty => self.sty(t),
            Mnemonic::Tax => self.tax(),
            Mnemonic::Tay => self.tay(),
            Mnemonic::Tsx => self.tsx(),
            Mnemonic::Txa => self.txa(),
            Mnemonic::Txs => self.txs(),
            Mnemonic::Tya => self.tya(),
            Mnemonic::Dcp => self.dcp(t),
            Mnemonic::Isc => self.isc(t),
            Mnemonic::Lax => self.lax(t),
            Mnemonic::Rla => self.rla(t),
            Mnemonic::Rra => self.rra(t),
            Mnemonic::Sax => self.sax(t),
            Mnemonic::Slo => self.slo(t),
            Mnemonic::Sre => self.sre(t),
            Mnemonic::Unknown => {},
        }
    }

    // Operand access.
    fn read_operand(&self, t: Target) -> (r: u8)
        ensures
            r == self@.operand(t),
    {
        match t {
            Target::Implied => 0,
            Target::Accumulator => self.regs.reg_a,
            Target::Immediate(v) => v,
            Target::Memory(addr) => self.memory.read(addr),
        }
    }

    fn write_operand(&mut self, t: Target, value: u8)
        requires
            t is Accumulator || t is Memory,
        ensures
            final(self)@ == old(self)@.write_operand(t, value),
    {
        match t {
            Target::Accumulator => {
                self.regs.reg_a = value;
            },
            Target::Memory(addr) => {
                self.memory.write(addr, value);
            },
            _ => {},
        }
    }

    // Addressing.
    /// Resolves the operand of `mode` and moves PC past its bytes.
    fn resolve(&mut self, mode: Mode) -> (t: Target)
        ensures
            (t, final(self)@) == old(self)@.resolve(mode),
            target_of_mode(mode, t),
    {
        match mode {
            Mode::Implied => Target::Implied,
            Mode::Accumulator => self.acc(),
            Mode::Immediate => self.imm(),
            Mode::ZeroPage => self.zp(),
            Mode::ZeroPageX => self.zp_x(),
            Mode::ZeroPageY => self.zp_y(),
            Mode::Absolute => self.abs(),
            Mode::AbsoluteX => self.abs_x(),
            Mode::AbsoluteY => self.abs_y(),
            Mode::Indirect => self.indirect(),
            Mode::IndirectX => self.indirect_x(),
            Mode::IndirectY => self.indirect_y(),
            Mode::Relative => self.relative(),
        }
    }

    fn acc(&mut self) -> (t: Target)
        ensures
            (t, final(self)@) == old(self)@.resolve(Mode::Accumulator),
    {
        Target::Accumulator
    }

    fn imm(&mut self) -> (t: Target)
        ensures
            (t, final(self)@) == old(self)@.resolve(Mode::Immediate),
    {
        Target::Immediate(self.read_inc_pc())
    }

    fn zp(&mut self) -> (t: Target)
        ensures
            (t, final(self)@) == old(self)@.resolve(Mode::ZeroPage),
    {
        Target::Memory(self.read_inc_pc() as u16)
    }

    fn zp_x(&mut self) -> (t: Target)
        ensures
            (t, final(self)@) == old(self)@.resolve(Mode::ZeroPageX),
    {
        let b = self.read_inc_pc();
        Target::Memory(b.wrapping_add(self.regs.reg_x) as u16)
    }

    fn zp_y(&mut self) -> (t: Target)
        ensures
            (t, final(self)@) == old(self)@.resolve(Mode::ZeroPageY),
    {
        let b = self.read_inc_pc();
        Target::Memory(b.wrapping_add(self.regs.reg_y) as u16)
    }

    fn abs(&mut self) -> (t: Target)
        ensures
            (t, final(self)@) == old(self)@.resolve(Mode::Absolute),
    {
        Target::Memory(self.readw_inc_pc())
    }

    fn abs_x(&mut self) -> (t: Target)
        ensures
            (t, final(self)@) == old(self)@.resolve(Mode::AbsoluteX),
    {
        let w = self.readw_inc_pc();
        Target::Memory(w.wrapping_add(self.regs.reg_x as u16))
    }

    fn abs_y(&mut self) -> (t: Target)
        ensures
            (t, final(self)@) == old(self)@.resolve(Mode::AbsoluteY),
    {
        let w = self.readw_inc_pc();
        Target::Memory(w.wrapping_add(self.regs.reg_y as u16))
    }

    /// `JMP (ptr)`: the high byte of the destination comes from the same
    /// page as `ptr`, as on the hardware.
    fn indirect(&mut self) -> (t: Target)
        ensures
            (t, final(self)@) == old(self)@.resolve(Mode::Indirect),
    {
        let ptr = self.readw_inc_pc();
        let hi_addr = if ptr % 256 == 0xFF {
            ptr - 0xFF
        } else {
            ptr + 1
        };
        let lo = self.memory.read(ptr);
        let hi = self.memory.read(hi_addr);
        Target::Memory((hi as u16) * 256 + lo as u16)
    }

    fn indirect_x(&mut self) -> (t: Target)
        ensures
            (t, final(self)@) == old(self)@.resolve(Mode::IndirectX),
    {
        let b = self.read_inc_pc();
        let zp = b.wrapping_add(self.regs.reg_x);
        Target::Memory(self.memory.readw_zp(zp as u16))
    }

    fn indirect_y(&mut self) -> (t: Target)
        ensures
            (t, final(self)@) == old(self)@.resolve(Mode::IndirectY),
    {
        let b = self.read_inc_pc();
        let base = self.memory.readw_zp(b as u16);
        Target::Memory(base.wrapping_add(self.regs.reg_y as u16))
    }

    /// A branch destination: the signed offset added to the address of the
    /// next instruction.
    fn relative(&mut self) -> (t: Target)
        ensures
            (t, final(self)@) == old(self)@.resolve(Mode::Relative),
    {
        let off = self.read_inc_pc();
        let pc = self.regs.reg_pc;
        proof {
            lemma_add16(old(self)@.regs.reg_pc, 1);
            lemma_add16(pc, signed8(off));
        }
        let dest = if off < 128 {
            pc.wrapping_add(off as u16)
        } else {
            pc.wrapping_sub(256 - off as u16)
        };
        Target::Memory(dest)
    }

    // Fetching, flags and the stack.
    fn read_inc_pc(&mut self) -> (r: u8)
        ensures
            r == old(self)@.read(old(self)@.regs.reg_pc),
            final(self)@ == old(self)@.with_pc(add16(old(self)@.regs.reg_pc, 1)),
    {
        let value = self.memory.read(self.regs.reg_pc);
        self.regs.reg_pc = self.regs.reg_pc.wrapping_add(1);
        value
    }

    fn readw_inc_pc(&mut self) -> (r: u16)
        ensures
            r == old(self)@.mem.read_word(old(self)@.regs.reg_pc),
            final(self)@ == old(self)@.with_pc(add16(old(self)@.regs.reg_pc, 2)),
    {
        let value = self.memory.readw(self.regs.reg_pc);
        self.regs.reg_pc = self.regs.reg_pc.wrapping_add(2);
        value
    }

    /// The packed status byte.
    fn get_p(&self) -> (r: u8)
        ensures
            r == pack(self@.regs.reg_p),
    {
        self.regs.reg_p.to_byte()
    }

    /// Loads the flags from a pulled status byte; the break bit is dropped.
    fn set_p(&mut self, value: u8)
        ensures
            final(self)@ == old(self)@.with_p(unpack(value)),
    {
        self.regs.reg_p = RegP::from_byte(value);
    }

    /// Sets Z when `value` is 0 and N from its bit 7; returns `value`.
    fn set_zn(&mut self, value: u8) -> (r: u8)
        ensures
            r == value,
            final(self)@ == old(self)@.with_zn(value),
            final(self)@.regs.reg_p.zero == (value == 0),
            final(self)@.regs.reg_p.negative == (value & 0x80 != 0),
    {
        self.regs.reg_p.zero = value == 0;
        self.regs.reg_p.negative = value & 0x80 != 0;
        value
    }

    fn push(&mut self, value: u8)
        ensures
            final(self)@ == old(self)@.push(value),
    {
        let address = 0x0100u16 + self.regs.reg_sp as u16;
        self.memory.write(address, value);
        self.regs.reg_sp = self.regs.reg_sp.wrapping_sub(1);
    }

    fn pop(&mut self) -> (r: u8)
        ensures
            r == old(self)@.pulled(),
            final(self)@ == old(self)@.after_pull(),
    {
        self.regs.reg_sp = self.regs.reg_sp.wrapping_add(1);
        let address = 0x0100u16 + self.regs.reg_sp as u16;
        self.memory.read(address)
    }
}

impl CPU {
    // Instructions.
    fn lda(&mut self, t: Target)
        requires
            !(t is Implied),
        ensures
            final(self)@ == old(self)@.lda(t),
    {
        let value = self.read_operand(t);
        self.regs.reg_a = self.set_zn(value);
    }

    fn ldx(&mut self, t: Target)
        requires
            !(t is Implied),
        ensures
            final(self)@ == old(self)@.ldx(t),
    {
        let value = self.read_operand(t);
        self.regs.reg_x = self.set_zn(value);
    }

    fn ldy(&mut self, t: Target)
        requires
            !(t is Implied),
        ensures
            final(self)@ == old(self)@.ldy(t),
    {
        let value = self.read_operand(t);
        self.regs.reg_y = self.set_zn(value);
    }

    fn lax(&mut self, t: Target)
        requires
            !(t is Implied),
        ensures
            final(self)@ == old(self)@.lax(t),
    {
        let value = self.read_operand(t);
        self.regs.reg_a = value;
        self.regs.reg_x = value;
        self.set_zn(value);
    }

    fn sta(&mut self, t: Target)
        requires
            t is Accumulator || t is Memory,
        ensures
            final(self)@ == old(self)@.sta(t),
    {
        let value = self.regs.reg_a;
        self.write_operand(t, value);
    }

    fn stx(&mut self, t: Target)
        requires
            t is Accumulator || t is Memory,
        ensures
            final(self)@ == old(self)@.stx(t),
    {
        let value = self.regs.reg_x;
        self.write_operand(t, value);
    }

    fn sty(&mut self, t: Target)
        requires
            t is Accumulator || t is Memory,
        ensures
            final(self)@ == old(self)@.sty(t),
    {
        let value = self.regs.reg_y;
        self.write_operand(t, value);
    }

    fn sax(&mut self, t: Target)
        requires
            t is Accumulator || t is Memory,
        ensures
            final(self)@ == old(self)@.sax(t),
    {
        let value = self.regs.reg_a & self.regs.reg_x;
        self.write_operand(t, value);
    }

    fn tax(&mut self)
        ensures
            final(self)@ == old(self)@.tax(),
    {
        let value = self.regs.reg_a;
        self.regs.reg_x = self.set_zn(value);
    }

    fn tay(&mut self)
        ensures
            final(self)@ == old(self)@.tay(),
    {
        let value = self.regs.reg_a;
        self.regs.reg_y = self.set_zn(value);
    }

    fn tsx(&mut self)
        ensures
            final(self)@ == old(self)@.tsx(),
    {
        let value = self.regs.reg_sp;
        self.regs.reg_x = self.set_zn(value);
    }

    fn txa(&mut self)
        ensures
            final(self)@ == old(self)@.txa(),
    {
        let value = self.regs.reg_x;
        self.regs.reg_a = self.set_zn(value);
    }

    fn tya(&mut self)
        ensures
            final(self)@ == old(self)@.tya(),
    {
        let value = self.regs.reg_y;
        self.regs.reg_a = self.set_zn(value);
    }

    /// Sets SP from X; no flag changes.
    fn txs(&mut self)
        ensures
            final(self)@ == old(self)@.txs(),
    {
        self.regs.reg_sp = self.regs.reg_x;
    }

    fn pha(&mut self)
        ensures
            final(self)@ == old(self)@.pha(),
    {
        let value = self.regs.reg_a;
        self.push(value);
    }

    fn pla(&mut self)
        ensures
            final(self)@ == old(self)@.pla(),
    {
        let value = self.pop();
        self.regs.reg_a = self.set_zn(value);
    }

    /// Pushes P with the break bit set.
    fn php(&mut self)
        ensures
            final(self)@ == old(self)@.php(),
    {
        let value = self.pushed_p();
        self.push(value);
    }

    /// Pulls P; the pulled break bit is ignored.
    fn plp(&mut self)
        ensures
            final(self)@ == old(self)@.plp(),
    {
        let value = self.pop();
        self.set_p(value);
    }

    fn and(&mut self, t: Target)
        requires
            !(t is Implied),
        ensures
            final(self)@ == old(self)@.and(t),
    {
        let value = self.regs.reg_a & self.read_operand(t);
        self.regs.reg_a = self.set_zn(value);
    }

    fn ora(&mut self, t: Target)
        requires
            !(t is Implied),
        ensures
            final(self)@ == old(self)@.ora(t),
    {
        let value = self.regs.reg_a | self.read_operand(t);
        self.regs.reg_a = self.set_zn(value);
    }

    fn eor(&mut self, t: Target)
        requires
            !(t is Implied),
        ensures
            final(self)@ == old(self)@.eor(t),
    {
        let value = self.regs.reg_a ^ self.read_operand(t);
        self.regs.reg_a = self.set_zn(value);
    }

    fn bit(&mut self, t: Target)
        requires
            !(t is Implied),
        ensures
            final(self)@ == old(self)@.bit(t),
    {
        let value = self.read_operand(t);
        self.regs.reg_p.zero = self.regs.reg_a & value == 0;
        self.regs.reg_p.overflow = value & 0x40 != 0;
        self.regs.reg_p.negative = value & 0x80 != 0;
    }

    fn adc(&mut self, t: Target)
        requires
            !(t is Implied),
        ensures
            final(self)@ == old(self)@.adc(t),
    {
        let value = self.read_operand(t);
        self.add_value(value);
    }

    /// A - M - (1 - C), computed as A + !M + C.
    fn sbc(&mut self, t: Target)
        requires
            !(t is Implied),
        ensures
            final(self)@ == old(self)@.sbc(t),
    {
        let value = self.read_operand(t);
        self.add_value(!value);
    }

    fn cmp(&mut self, t: Target)
        requires
            !(t is Implied),
        ensures
            final(self)@ == old(self)@.cmp(t),
    {
        let register = self.regs.reg_a;
        let value = self.read_operand(t);
        self.compare(register, value);
    }

    fn cpx(&mut self, t: Target)
        requires
            !(t is Implied),
        ensures
            final(self)@ == old(self)@.cpx(t),
    {
        let register = self.regs.reg_x;
        let value = self.read_operand(t);
        self.compare(register, value);
    }

    fn cpy(&mut self, t: Target)
        requires
            !(t is Implied),
        ensures
            final(self)@ == old(self)@.cpy(t),
    {
        let register = self.regs.reg_y;
        let value = self.read_operand(t);
        self.compare(register, value);
    }

    fn asl(&mut self, t: Target)
        requires
            t is Accumulator || t is Memory,
        ensures
            final(self)@ == old(self)@.asl(t),
    {
        let value = self.read_operand(t);
        proof {
            lemma_shifts(value);
        }
        self.regs.reg_p.carry = value & 0x80 != 0;
        let result = value << 1;
        self.set_zn(result);
        self.write_operand(t, result);
    }

    fn lsr(&mut self, t: Target)
        requires
            t is Accumulator || t is Memory,
        ensures
            final(self)@ == old(self)@.lsr(t),
    {
        let value = self.read_operand(t);
        proof {
            lemma_shifts(value);
        }
        self.regs.reg_p.carry = value & 0x01 != 0;
        let result = value >> 1;
        self.set_zn(result);
        self.write_operand(t, result);
    }

    fn rol(&mut self, t: Target)
        requires
            t is Accumulator || t is Memory,
        ensures
            final(self)@ == old(self)@.rol(t),
    {
        let value = self.read_operand(t);
        proof {
            lemma_shifts(value);
        }
        let carry_in: u8 = if self.regs.reg_p.carry { 0x01 } else { 0x00 };
        self.regs.reg_p.carry = value & 0x80 != 0;
        let result = (value << 1) | carry_in;
        self.set_zn(result);
        self.write_operand(t, result);
    }

    fn ror(&mut self, t: Target)
        requires
            t is Accumulator || t is Memory,
        ensures
            final(self)@ == old(self)@.ror(t),
    {
        let value = self.read_operand(t);
        proof {
            lemma_shifts(value);
        }
        let carry_in: u8 = if self.regs.reg_p.carry { 0x80 } else { 0x00 };
        self.regs.reg_p.carry = value & 0x01 != 0;
        let result = (value >> 1) | carry_in;
        self.set_zn(result);
        self.write_operand(t, result);
    }

    fn inc(&mut self, t: Target)
        requires
            t is Accumulator || t is Memory,
        ensures
            final(self)@ == old(self)@.inc(t),
    {
        let result = self.read_operand(t).wrapping_add(1);
        self.set_zn(result);
        self.write_operand(t, result);
    }

    fn dec(&mut self, t: Target)
        requires
            t is Accumulator || t is Memory,
        ensures
            final(self)@ == old(self)@.dec(t),
    {
        let result = self.read_operand(t).wrapping_sub(1);
        self.set_zn(result);
        self.write_operand(t, result);
    }

    fn inx(&mut self)
        ensures
            final(self)@ == old(self)@.inx(),
    {
        let result = self.regs.reg_x.wrapping_add(1);
        self.regs.reg_x = self.set_zn(result);
    }

    fn iny(&mut self)
        ensures
            final(self)@ == old(self)@.iny(),
    {
        let result = self.regs.reg_y.wrapping_add(1);
        self.regs.reg_y = self.set_zn(result);
    }

    fn dex(&mut self)
        ensures
            final(self)@ == old(self)@.dex(),
    {
        let result = self.regs.reg_x.wrapping_sub(1);
        self.regs.reg_x = self.set_zn(result);
    }

    fn dey(&mut self)
        ensures
            final(self)@ == old(self)@.dey(),
    {
        let result = self.regs.reg_y.wrapping_sub(1);
        self.regs.reg_y = self.set_zn(result);
    }

    /// DEC on the target, then CMP with it.
    fn dcp(&mut self, t: Target)
        requires
            t is Accumulator || t is Memory,
        ensures
            final(self)@ == old(self)@.dcp(t),
    {
        self.dec(t);
        self.cmp(t);
    }

    /// INC on the target, then SBC with it.
    fn isc(&mut self, t: Target)
        requires
            t is Accumulator || t is Memory,
        ensures
            final(self)@ == old(self)@.isc(t),
    {
        self.inc(t);
        self.sbc(t);
    }

    /// ASL on the target, then ORA with it.
    fn slo(&mut self, t: Target)
        requires
            t is Accumulator || t is Memory,
        ensures
            final(self)@ == old(self)@.slo(t),
    {
        self.asl(t);
        self.ora(t);
    }

    /// ROL on the target, then AND with it.
    fn rla(&mut self, t: Target)
        requires
            t is Accumulator || t is Memory,
        ensures
            final(self)@ == old(self)@.rla(t),
    {
        self.rol(t);
        self.and(t);
    }

    /// LSR on the target, then EOR with it.
    fn sre(&mut self, t: Target)
        requires
            t is Accumulator || t is Memory,
        ensures
            final(self)@ == old(self)@.sre(t),
    {
        self.lsr(t);
        self.eor(t);
    }

    /// ROR on the target, then ADC with it.
    fn rra(&mut self, t: Target)
        requires
            t is Accumulator || t is Memory,
        ensures
            final(self)@ == old(self)@.rra(t),
    {
        self.ror(t);
        self.adc(t);
    }

    fn clc(&mut self)
        ensures
            final(self)@ == old(self)@.with_carry(false),
    {
        self.regs.reg_p.carry = false;
    }

    fn cld(&mut self)
        ensures
            final(self)@ == old(self)@.with_decimal(false),
    {
        self.regs.reg_p.decimal = false;
    }

    fn cli(&mut self)
        ensures
            final(self)@ == old(self)@.with_int_disable(false),
    {
        self.regs.reg_p.int_disable = false;
    }

    fn clv(&mut self)
        ensures
            final(self)@ == old(self)@.with_overflow(false),
    {
        self.regs.reg_p.overflow = false;
    }

    fn sec(&mut self)
        ensures
            final(self)@ == old(self)@.with_carry(true),
    {
        self.regs.reg_p.carry = true;
    }

    fn sed(&mut self)
        ensures
            final(self)@ == old(self)@.with_decimal(true),
    {
        self.regs.reg_p.decimal = true;
    }

    fn sei(&mut self)
        ensures
            final(self)@ == old(self)@.with_int_disable(true),
    {
        self.regs.reg_p.int_disable = true;
    }

    fn bcc(&mut self, t: Target)
        requires
            t is Memory,
        ensures
            final(self)@ == old(self)@.branch_if(!old(self)@.regs.reg_p.carry, t),
    {
        let taken = !self.regs.reg_p.carry;
        self.branch(taken, t);
    }

    fn bcs(&mut self, t: Target)
        requires
            t is Memory,
        ensures
            final(self)@ == old(self)@.branch_if(old(self)@.regs.reg_p.carry, t),
    {
        let taken = self.regs.reg_p.carry;
        self.branch(taken, t);
    }

    fn bne(&mut self, t: Target)
        requires
            t is Memory,
        ensures
            final(self)@ == old(self)@.branch_if(!old(self)@.regs.reg_p.zero, t),
    {
        let taken = !self.regs.reg_p.zero;
        self.branch(taken, t);
    }

    fn beq(&mut self, t: Target)
        requires
            t is Memory,
        ensures
            final(self)@ == old(self)@.branch_if(old(self)@.regs.reg_p.zero, t),
    {
        let taken = self.regs.reg_p.zero;
        self.branch(taken, t);
    }

    fn bpl(&mut self, t: Target)
        requires
            t is Memory,
        ensures
            final(self)@ == old(self)@.branch_if(!old(self)@.regs.reg_p.negative, t),
    {
        let taken = !self.regs.reg_p.negative;
        self.branch(taken, t);
    }

    fn bmi(&mut self, t: Target)
        requires
            t is Memory,
        ensures
            final(self)@ == old(self)@.branch_if(old(self)@.regs.reg_p.negative, t),
    {
        let taken = self.regs.reg_p.negative;
        self.branch(taken, t);
    }

    fn bvc(&mut self, t: Target)
        requires
            t is Memory,
        ensures
            final(self)@ == old(self)@.branch_if(!old(self)@.regs.reg_p.overflow, t),
    {
        let taken = !self.regs.reg_p.overflow;
        self.branch(taken, t);
    }

    fn bvs(&mut self, t: Target)
        requires
            t is Memory,
        ensures
            final(self)@ == old(self)@.branch_if(old(self)@.regs.reg_p.overflow, t),
    {
        let taken = self.regs.reg_p.overflow;
        self.branch(taken, t);
    }

    fn jmp(&mut self, t: Target)
        requires
            t is Memory,
        ensures
            final(self)@ == old(self)@.jmp(t),
    {
        if let Target::Memory(addr) = t {
            self.regs.reg_pc = addr;
        }
    }

    /// Pushes the address of its own last byte, high byte first, and jumps.
    fn jsr(&mut self, t: Target)
        requires
            t is Memory,
        ensures
            final(self)@ == old(self)@.jsr(t),
    {
        let ret = self.regs.reg_pc.wrapping_sub(1);
        self.push((ret / 256) as u8);
        self.push((ret % 256) as u8);
        if let Target::Memory(addr) = t {
            self.regs.reg_pc = addr;
        }
    }

    fn rts(&mut self)
        ensures
            final(self)@ == old(self)@.rts(),
    {
        let lo = self.pop();
        let hi = self.pop();
        self.regs.reg_pc = ((hi as u16) * 256 + lo as u16).wrapping_add(1);
    }

    /// Pulls P (ignoring the break bit), then PC.
    fn rti(&mut self)
        ensures
            final(self)@ == old(self)@.rti(),
    {
        let p = self.pop();
        self.set_p(p);
        let lo = self.pop();
        let hi = self.pop();
        self.regs.reg_pc = (hi as u16) * 256 + lo as u16;
    }

    /// Pushes PC (past the padding byte) and P with the break bit, sets I,
    /// and jumps through the vector at `0xFFFE`.
    fn brk(&mut self)
        ensures
            final(self)@ == old(self)@.brk(),
    {
        let p = self.pushed_p();
        self.enter_interrupt(p, 0xFFFE);
    }

    /// Pushes PC and `p`, sets I, and loads PC from `vector`.
    fn enter_interrupt(&mut self, p: u8, vector: u16)
        ensures
            final(self)@ == old(self)@.enter_interrupt(p, vector),
    {
        let pc = self.regs.reg_pc;
        self.push((pc / 256) as u8);
        self.push((pc % 256) as u8);
        self.push(p);
        self.regs.reg_p.int_disable = true;
        self.regs.reg_pc = self.memory.readw(vector);
    }

    /// Goes to the branch destination `t` when `taken`.
    fn branch(&mut self, taken: bool, t: Target)
        requires
            t is Memory,
        ensures
            final(self)@ == old(self)@.branch_if(taken, t),
    {
        if taken {
            if let Target::Memory(addr) = t {
                self.regs.reg_pc = addr;
            }
        }
    }

    /// Adds `value` and the carry to A, setting C, V, Z and N.
    fn add_value(&mut self, value: u8)
        ensures
            final(self)@ == old(self)@.add_value(value),
    {
        let a = self.regs.reg_a;
        let carry_in: u16 = if self.regs.reg_p.carry { 1 } else { 0 };
        let sum: u16 = a as u16 + value as u16 + carry_in;
        let result = (sum % 256) as u8;
        self.regs.reg_p.carry = sum > 0xFF;
        self.regs.reg_p.overflow = (a ^ result) & (value ^ result) & 0x80 != 0;
        self.regs.reg_a = self.set_zn(result);
    }

    /// Sets C when `register >= value`, and Z and N from their difference.
    fn compare(&mut self, register: u8, value: u8)
        ensures
            final(self)@ == old(self)@.compare(register, value),
    {
        self.regs.reg_p.carry = register >= value;
        self.set_zn(register.wrapping_sub(value));
    }

    /// P as PHP and BRK push it: with the break bit set.
    fn pushed_p(&self) -> (r: u8)
        ensures
            r == self@.pushed_p(),
    {
        let mut p = self.regs.reg_p;
        p.brk = true;
        p.to_byte()
    }
}

} // verus!
