//! Properties of the instruction set, proved over the machine model.
use vstd::prelude::*;
use crate::machine::{CpuState, Machine, Target, add8, add16, bit7, stack_addr};
use crate::memory::lemma_read_after_write;
use crate::opcodes::{Mnemonic, instruction_length, opcode_entry};
use crate::status::{RegP, lemma_pack_bits, pack, unpack};

verus! {

/// Two wrapped 16-bit additions are one.
proof fn lemma_add16_add16(a: u16, b: int, c: int)
    requires
        0 <= b < 65536,
        -65536 < c < 65536,
    ensures
        add16(add16(a, b), c) == add16(a, b + c),
{
    let s = (a + b) % 65536;
    assert((s + c) % 65536 == (a + b + c) % 65536) by {
        assert(a + b == s + 65536 * ((a + b) / 65536));
        vstd::arithmetic::div_mod::lemma_mod_add_multiples_vanish(s + c, 65536);
        vstd::arithmetic::div_mod::lemma_mod_multiples_vanish((a + b) / 65536, s + c, 65536);
    }
}

/// Two wrapped 8-bit additions are one.
proof fn lemma_add8_add8(a: u8, b: int, c: int)
    requires
        -256 < b < 256,
        -256 < c < 256,
    ensures
        add8(add8(a, b), c) == add8(a, b + c),
{
    let s = (a + b) % 256;
    assert((s + c) % 256 == (a + b + c) % 256) by {
        vstd::arithmetic::div_mod::lemma_mod_multiples_vanish((a + b) / 256, s + c, 256);
    }
}

/// Only jumps and taken branches set PC.
#[verifier::spinoff_prover]
proof fn lemma_execute_keeps_pc(m: Machine, mn: Mnemonic, t: Target)
    requires
        !mn.is_jump(),
        !(mn.is_branch() && Machine::branch_taken(mn, m.regs.reg_p)),
    ensures
        m.execute(mn, t).regs.reg_pc == m.regs.reg_pc,
{
    reveal(Machine::execute);
    match mn {
        Mnemonic::Adc => {},
        Mnemonic::And => {},
        Mnemonic::Asl => {},
        Mnemonic::Bcc => {},
        Mnemonic::Bcs => {},
        Mnemonic::Beq => {},
        Mnemonic::Bit => {},
        Mnemonic::Bmi => {},
        Mnemonic::Bne => {},
        Mnemonic::Bpl => {},
        Mnemonic::Brk => {},
        Mnemonic::Bvc => {},
        Mnemonic::Bvs => {},
        Mnemonic::Clc => {},
        Mnemonic::Cld => {},
        Mnemonic::Cli => {},
        Mnemonic::Clv => {},
        Mnemonic::Cmp => {},
        Mnemonic::Cpx => {},
        Mnemonic::Cpy => {},
        Mnemonic::Dec => {},
        Mnemonic::Dex => {},
        Mnemonic::Dey => {},
        Mnemonic::Eor => {},
        Mnemonic::Inc => {},
        Mnemonic::Inx => {},
        Mnemonic::Iny => {},
        Mnemonic::Jmp => {},
        Mnemonic::Jsr => {},
        Mnemonic::Lda => {},
        Mnemonic::Ldx => {},
        Mnemonic::Ldy => {},
        Mnemonic::Lsr => {},
        Mnemonic::Nop => {},
        Mnemonic::Ora => {},
        Mnemonic::Pha => {},
        Mnemonic::Php => {},
        Mnemonic::Pla => {},
        Mnemonic::Plp => {},
        Mnemonic::Rol => {},
        Mnemonic::Ror => {},
        Mnemonic::Rti => {},
        Mnemonic::Rts => {},
        Mnemonic::Sbc => {},
        Mnemonic::Sec => {},
        Mnemonic::Sed => {},
        Mnemonic::Sei => {},
        Mnemonic::Sta => {},
        Mnemonic::Stx => {},
        Mnemonic::Sty => {},
        Mnemonic::Tax => {},
        Mnemonic::Tay => {},
        Mnemonic::Tsx => {},
        Mnemonic::Txa => {},
        Mnemonic::Txs => {},
        Mnemonic::Tya => {},
        Mnemonic::Dcp => {},
        Mnemonic::Isc => {},
        Mnemonic::Lax => {},
        Mnemonic::Rla => {},
        Mnemonic::Rra => {},
        Mnemonic::Sax => {},
        Mnemonic::Slo => {},
        Mnemonic::Sre => {},
        Mnemonic::Unknown => {},
    }
}

/// Every instruction keeps the flags and memory well formed.
/// Well-formedness kept by the operations `ADC` to `BRK` in declaration order.
#[verifier::spinoff_prover]
proof fn lemma_execute_wf_adc_to_brk(m: Machine, mn: Mnemonic, t: Target)
    requires
        m.wf(),
        mn is Adc || mn is And || mn is Asl || mn is Bcc || mn is Bcs || mn is Beq || mn is Bit || mn is Bmi || mn is Bne || mn is Bpl || mn is Brk,
    ensures
        m.execute(mn, t).wf(),
{
    match mn {
        Mnemonic::Adc => {
            assert(m.execute(mn, t) == m.adc(t)) by {
                reveal(Machine::execute);
            }
        },
        Mnemonic::And => {
            assert(m.execute(mn, t) == m.and(t)) by {
                reveal(Machine::execute);
            }
        },
        Mnemonic::Asl => {
            assert(m.execute(mn, t) == m.asl(t)) by {
                reveal(Machine::execute);
            }
        },
        Mnemonic::Bcc => {
            assert(m.execute(mn, t) == m.branch_if(Machine::branch_taken(mn, m.regs.reg_p), t)) by {
                reveal(Machine::execute);
            }
        },
        Mnemonic::Bcs => {
            assert(m.execute(mn, t) == m.branch_if(Machine::branch_taken(mn, m.regs.reg_p), t)) by {
                reveal(Machine::execute);
            }
        },
        Mnemonic::Beq => {
            assert(m.execute(mn, t) == m.branch_if(Machine::branch_taken(mn, m.regs.reg_p), t)) by {
                reveal(Machine::execute);
            }
        },
        Mnemonic::Bit => {
            assert(m.execute(mn, t) == m.bit(t)) by {
                reveal(Machine::execute);
            }
        },
        Mnemonic::Bmi => {
            assert(m.execute(mn, t) == m.branch_if(Machine::branch_taken(mn, m.regs.reg_p), t)) by {
                reveal(Machine::execute);
            }
        },
        Mnemonic::Bne => {
            assert(m.execute(mn, t) == m.branch_if(Machine::branch_taken(mn, m.regs.reg_p), t)) by {
                reveal(Machine::execute);
            }
        },
        Mnemonic::Bpl => {
            assert(m.execute(mn, t) == m.branch_if(Machine::branch_taken(mn, m.regs.reg_p), t)) by {
                reveal(Machine::execute);
            }
        },
        Mnemonic::Brk => {
            assert(m.execute(mn, t) == m.brk()) by {
                reveal(Machine::execute);
            }
        },
        _ => {},
    }
}

/// Well-formedness kept by the operations `BVC` to `DEX` in declaration order.
#[verifier::spinoff_prover]
proof fn lemma_execute_wf_bvc_to_dex(m: Machine, mn: Mnemonic, t: Target)
    requires
        m.wf(),
        mn is Bvc || mn is Bvs || mn is Clc || mn is Cld || mn is Cli || mn is Clv || mn is Cmp || mn is Cpx || mn is Cpy || mn is Dec || mn is Dex,
    ensures
        m.execute(mn, t).wf(),
{
    match mn {
        Mnemonic::Bvc => {
            assert(m.execute(mn, t) == m.branch_if(Machine::branch_taken(mn, m.regs.reg_p), t)) by {
                reveal(Machine::execute);
            }
        },
        Mnemonic::Bvs => {
            assert(m.execute(mn, t) == m.branch_if(Machine::branch_taken(mn, m.regs.reg_p), t)) by {
                reveal(Machine::execute);
            }
        },
        Mnemonic::Clc => {
            assert(m.execute(mn, t) == m.with_carry(false)) by {
                reveal(Machine::execute);
            }
        },
        Mnemonic::Cld => {
            assert(m.execute(mn, t) == m.with_decimal(false)) by {
                reveal(Machine::execute);
            }
        },
        Mnemonic::Cli => {
            assert(m.execute(mn, t) == m.with_int_disable(false)) by {
                reveal(Machine::execute);
            }
        },
        Mnemonic::Clv => {
            assert(m.execute(mn, t) == m.with_overflow(false)) by {
                reveal(Machine::execute);
            }
        },
        Mnemonic::Cmp => {
            assert(m.execute(mn, t) == m.cmp(t)) by {
                reveal(Machine::execute);
            }
        },
        Mnemonic::Cpx => {
            assert(m.execute(mn, t) == m.cpx(t)) by {
                reveal(Machine::execute);
            }
        },
        Mnemonic::Cpy => {
            assert(m.execute(mn, t) == m.cpy(t)) by {
                reveal(Machine::execute);
            }
        },
        Mnemonic::Dec => {
            assert(m.execute(mn, t) == m.dec(t)) by {
                reveal(Machine::execute);
            }
        },
        Mnemonic::Dex => {
            assert(m.execute(mn, t) == m.dex()) by {
                reveal(Machine::execute);
            }
        },
        _ => {},
    }
}

/// Well-formedness kept by the operations `DEY` to `LSR` in declaration order.
#[verifier::spinoff_prover]
proof fn lemma_execute_wf_dey_to_lsr(m: Machine, mn: Mnemonic, t: Target)
    requires
        m.wf(),
        mn is Dey || mn is Eor || mn is Inc || mn is Inx || mn is Iny || mn is Jmp || mn is Jsr || mn is Lda || mn is Ldx || mn is Ldy || mn is Lsr,
    ensures
        m.execute(mn, t).wf(),
{
    match mn {
        Mnemonic::Dey => {
            assert(m.execute(mn, t) == m.dey()) by {
                reveal(Machine::execute);
            }
        },
        Mnemonic::Eor => {
            assert(m.execute(mn, t) == m.eor(t)) by {
                reveal(Machine::execute);
            }
        },
        Mnemonic::Inc => {
            assert(m.execute(mn, t) == m.inc(t)) by {
                reveal(Machine::execute);
            }
        },
        Mnemonic::Inx => {
            assert(m.execute(mn, t) == m.inx()) by {
                reveal(Machine::execute);
            }
        },
        Mnemonic::Iny => {
            assert(m.execute(mn, t) == m.iny()) by {
                reveal(Machine::execute);
            }
        },
        Mnemonic::Jmp => {
            assert(m.execute(mn, t) == m.jmp(t)) by {
                reveal(Machine::execute);
            }
        },
        Mnemonic::Jsr => {
            assert(m.execute(mn, t) == m.jsr(t)) by {
                reveal(Machine::execute);
            }
        },
        Mnemonic::Lda => {
            assert(m.execute(mn, t) == m.lda(t)) by {
                reveal(Machine::execute);
            }
        },
        Mnemonic::Ldx => {
            assert(m.execute(mn, t) == m.ldx(t)) by {
                reveal(Machine::execute);
            }
        },
        Mnemonic::Ldy => {
            assert(m.execute(mn, t) == m.ldy(t)) by {
                reveal(Machine::execute);
            }
        },
        Mnemonic::Lsr => {
            assert(m.execute(mn, t) == m.lsr(t)) by {
                reveal(Machine::execute);
            }
        },
        _ => {},
    }
}

/// Well-formedness kept by the operations `NOP` to `SBC` in declaration order.
#[verifier::spinoff_prover]
proof fn lemma_execute_wf_nop_to_sbc(m: Machine, mn: Mnemonic, t: Target)
    requires
        m.wf(),
        mn is Nop || mn is Ora || mn is Pha || mn is Php || mn is Pla || mn is Plp || mn is Rol || mn is Ror || mn is Rti || mn is Rts || mn is Sbc,
    ensures
        m.execute(mn, t).wf(),
{
    match mn {
        Mnemonic::Nop => {
            assert(m.execute(mn, t) == m) by {
                reveal(Machine::execute);
            }
        },
        Mnemonic::Ora => {
            assert(m.execute(mn, t) == m.ora(t)) by {
                reveal(Machine::execute);
            }
        },
        Mnemonic::Pha => {
            assert(m.execute(mn, t) == m.pha()) by {
                reveal(Machine::execute);
            }
        },
        Mnemonic::Php => {
            assert(m.execute(mn, t) == m.php()) by {
                reveal(Machine::execute);
            }
        },
        Mnemonic::Pla => {
            assert(m.execute(mn, t) == m.pla()) by {
                reveal(Machine::execute);
            }
        },
        Mnemonic::Plp => {
            assert(m.execute(mn, t) == m.plp()) by {
                reveal(Machine::execute);
            }
        },
        Mnemonic::Rol => {
            assert(m.execute(mn, t) == m.rol(t)) by {
                reveal(Machine::execute);
            }
        },
        Mnemonic::Ror => {
            assert(m.execute(mn, t) == m.ror(t)) by {
                reveal(Machine::execute);
            }
        },
        Mnemonic::Rti => {
            assert(m.execute(mn, t) == m.rti()) by {
                reveal(Machine::execute);
            }
        },
        Mnemonic::Rts => {
            assert(m.execute(mn, t) == m.rts()) by {
                reveal(Machine::execute);
            }
        },
        Mnemonic::Sbc => {
            assert(m.execute(mn, t) == m.sbc(t)) by {
                reveal(Machine::execute);
            }
        },
        _ => {},
    }
}

/// Well-formedness kept by the operations `SEC` to `TXS` in declaration order.
#[verifier::spinoff_prover]
proof fn lemma_execute_wf_sec_to_txs(m: Machine, mn: Mnemonic, t: Target)
    requires
        m.wf(),
        mn is Sec || mn is Sed || mn is Sei || mn is Sta || mn is Stx || mn is Sty || mn is Tax || mn is Tay || mn is Tsx || mn is Txa || mn is Txs,
    ensures
        m.execute(mn, t).wf(),
{
    match mn {
        Mnemonic::Sec => {
            assert(m.execute(mn, t) == m.with_carry(true)) by {
                reveal(Machine::execute);
            }
        },
        Mnemonic::Sed => {
            assert(m.execute(mn, t) == m.with_decimal(true)) by {
                reveal(Machine::execute);
            }
        },
        Mnemonic::Sei => {
            assert(m.execute(mn, t) == m.with_int_disable(true)) by {
                reveal(Machine::execute);
            }
        },
        Mnemonic::Sta => {
            assert(m.execute(mn, t) == m.sta(t)) by {
                reveal(Machine::execute);
            }
        },
        Mnemonic::Stx => {
            assert(m.execute(mn, t) == m.stx(t)) by {
                reveal(Machine::execute);
            }
        },
        Mnemonic::Sty => {
            assert(m.execute(mn, t) == m.sty(t)) by {
                reveal(Machine::execute);
            }
        },
        Mnemonic::Tax => {
            assert(m.execute(mn, t) == m.tax()) by {
                reveal(Machine::execute);
            }
        },
        Mnemonic::Tay => {
            assert(m.execute(mn, t) == m.tay()) by {
                reveal(Machine::execute);
            }
        },
        Mnemonic::Tsx => {
            assert(m.execute(mn, t) == m.tsx()) by {
                reveal(Machine::execute);
            }
        },
        Mnemonic::Txa => {
            assert(m.execute(mn, t) == m.txa()) by {
                reveal(Machine::execute);
            }
        },
        Mnemonic::Txs => {
            assert(m.execute(mn, t) == m.txs()) by {
                reveal(Machine::execute);
            }
        },
        _ => {},
    }
}

/// Well-formedness kept by the operations `TYA` to `Unknown` in declaration order.
#[verifier::spinoff_prover]
proof fn lemma_execute_wf_tya_to_unknown(m: Machine, mn: Mnemonic, t: Target)
    requires
        m.wf(),
        mn is Tya || mn is Dcp || mn is Isc || mn is Lax || mn is Rla || mn is Rra || mn is Sax || mn is Slo || mn is Sre || mn is Unknown,
    ensures
        m.execute(mn, t).wf(),
{
    match mn {
        Mnemonic::Tya => {
            assert(m.execute(mn, t) == m.tya()) by {
                reveal(Machine::execute);
            }
        },
        Mnemonic::Dcp => {
            assert(m.execute(mn, t) == m.dcp(t)) by {
                reveal(Machine::execute);
            }
        },
        Mnemonic::Isc => {
            assert(m.execute(mn, t) == m.isc(t)) by {
                reveal(Machine::execute);
            }
        },
        Mnemonic::Lax => {
            assert(m.execute(mn, t) == m.lax(t)) by {
                reveal(Machine::execute);
            }
        },
        Mnemonic::Rla => {
            assert(m.execute(mn, t) == m.rla(t)) by {
                reveal(Machine::execute);
            }
        },
        Mnemonic::Rra => {
            assert(m.execute(mn, t) == m.rra(t)) by {
                reveal(Machine::execute);
            }
        },
        Mnemonic::Sax => {
            assert(m.execute(mn, t) == m.sax(t)) by {
                reveal(Machine::execute);
            }
        },
        Mnemonic::Slo => {
            assert(m.execute(mn, t) == m.slo(t)) by {
                reveal(Machine::execute);
            }
        },
        Mnemonic::Sre => {
            assert(m.execute(mn, t) == m.sre(t)) by {
                reveal(Machine::execute);
            }
        },
        Mnemonic::Unknown => {
            assert(m.execute(mn, t) == m) by {
                reveal(Machine::execute);
            }
        },
        _ => {},
    }
}

/// Every instruction keeps the flags and memory well formed.
proof fn lemma_execute_wf(m: Machine, mn: Mnemonic, t: Target)
    requires
        m.wf(),
    ensures
        m.execute(mn, t).wf(),
{
    if mn is Adc || mn is And || mn is Asl || mn is Bcc || mn is Bcs || mn is Beq || mn is Bit || mn is Bmi || mn is Bne || mn is Bpl || mn is Brk {
        lemma_execute_wf_adc_to_brk(m, mn, t);
    }
    if mn is Bvc || mn is Bvs || mn is Clc || mn is Cld || mn is Cli || mn is Clv || mn is Cmp || mn is Cpx || mn is Cpy || mn is Dec || mn is Dex {
        lemma_execute_wf_bvc_to_dex(m, mn, t);
    }
    if mn is Dey || mn is Eor || mn is Inc || mn is Inx || mn is Iny || mn is Jmp || mn is Jsr || mn is Lda || mn is Ldx || mn is Ldy || mn is Lsr {
        lemma_execute_wf_dey_to_lsr(m, mn, t);
    }
    if mn is Nop || mn is Ora || mn is Pha || mn is Php || mn is Pla || mn is Plp || mn is Rol || mn is Ror || mn is Rti || mn is Rts || mn is Sbc {
        lemma_execute_wf_nop_to_sbc(m, mn, t);
    }
    if mn is Sec || mn is Sed || mn is Sei || mn is Sta || mn is Stx || mn is Sty || mn is Tax || mn is Tay || mn is Tsx || mn is Txa || mn is Txs {
        lemma_execute_wf_sec_to_txs(m, mn, t);
    }
    if mn is Tya || mn is Dcp || mn is Isc || mn is Lax || mn is Rla || mn is Rra || mn is Sax || mn is Slo || mn is Sre || mn is Unknown {
        lemma_execute_wf_tya_to_unknown(m, mn, t);
    }
}

/// Outside jumps and taken branches, an instruction moves PC forward by its
/// length, wrapping at `0xFFFF`.
pub proof fn lemma_pc_advance(m: Machine)
    requires
        !opcode_entry(m.opcode()).0.is_jump(),
        !(opcode_entry(m.opcode()).0.is_branch() && Machine::branch_taken(
            opcode_entry(m.opcode()).0,
            m.regs.reg_p,
        )),
    ensures
        m.step().regs.reg_pc == add16(m.regs.reg_pc, instruction_length(m.opcode()) as int),
{
    let (mn, mode) = opcode_entry(m.opcode());
    let fetched = m.with_pc(add16(m.regs.reg_pc, 1));
    let (t, resolved) = fetched.resolve(mode);
    lemma_add16_add16(m.regs.reg_pc, 1, mode.operand_bytes() as int);
    lemma_execute_keeps_pc(resolved, mn, t);
}

/// `PHA; PLA` gives back A and sets Z and N from it; PC moves past both,
/// and all else is as before but the stack slot that PHA wrote.
pub proof fn lemma_pha_pla(m: Machine)
    requires
        m.mem.wf(),
        m.opcode() == 0x48,
        m.step().opcode() == 0x68,
    ensures
        m.step().step().regs == (CpuState {
            reg_pc: add16(m.regs.reg_pc, 2),
            reg_p: RegP { zero: m.regs.reg_a == 0, negative: bit7(m.regs.reg_a), ..m.regs.reg_p },
            ..m.regs
        }),
        m.step().step().mem == m.mem.write(stack_addr(m.regs.reg_sp), m.regs.reg_a),
{
    reveal(Machine::execute);
    reveal(opcode_entry);
    let sp = m.regs.reg_sp;
    let m1 = m.step();
    lemma_read_after_write(m.mem, stack_addr(sp), m.regs.reg_a, stack_addr(sp));
    lemma_add8_add8(sp, -1, 1);
    lemma_add16_add16(m.regs.reg_pc, 1, 1);
    assert(m1.pulled() == m.regs.reg_a);
}

/// `PHP; PLP` gives back every flag but B, which reads 0 after the pull,
/// and the unused bit, which reads 1.
pub proof fn lemma_php_plp(m: Machine)
    requires
        m.mem.wf(),
        m.opcode() == 0x08,
        m.step().opcode() == 0x28,
    ensures
        m.step().step().regs == (CpuState {
            reg_pc: add16(m.regs.reg_pc, 2),
            reg_p: RegP { brk: false, expansion: true, ..m.regs.reg_p },
            ..m.regs
        }),
{
    reveal(Machine::execute);
    reveal(opcode_entry);
    let sp = m.regs.reg_sp;
    let m1 = m.step();
    lemma_read_after_write(m.mem, stack_addr(sp), m.pushed_p(), stack_addr(sp));
    lemma_add8_add8(sp, -1, 1);
    lemma_add16_add16(m.regs.reg_pc, 1, 1);
    lemma_pack_bits(RegP { brk: true, ..m.regs.reg_p });
    assert(m1.pulled() == m.pushed_p());
    assert(unpack(m.pushed_p()) == RegP { brk: false, expansion: true, ..m.regs.reg_p });
}

/// `JSR target; RTS` comes back to the instruction three bytes after the
/// `JSR` with SP as it was; during the call the stack holds the address of
/// the call's last byte, high byte above low byte.
pub proof fn lemma_jsr_rts(m: Machine)
    requires
        m.mem.wf(),
        m.opcode() == 0x20,
        m.step().opcode() == 0x60,
    ensures
        m.step().read(stack_addr(m.regs.reg_sp)) == (add16(m.regs.reg_pc, 2) / 256) as u8,
        m.step().read(stack_addr(add8(m.regs.reg_sp, -1))) == (add16(m.regs.reg_pc, 2) % 256) as u8,
        m.step().regs.reg_sp == add8(m.regs.reg_sp, -2),
        m.step().step().regs.reg_pc == add16(m.regs.reg_pc, 3),
        m.step().step().regs.reg_sp == m.regs.reg_sp,
{
    reveal(Machine::execute);
    reveal(opcode_entry);
    let sp = m.regs.reg_sp;
    let pc = m.regs.reg_pc;
    lemma_add16_add16(pc, 1, 2);
    lemma_add16_add16(pc, 3, -1);
    let ret = add16(pc, 2);
    let hi = (ret / 256) as u8;
    let lo = (ret % 256) as u8;
    let s1 = stack_addr(sp);
    let s2 = stack_addr(add8(sp, -1));
    let mem1 = m.mem.write(s1, hi);
    lemma_read_after_write(m.mem, s1, hi, s1);
    lemma_read_after_write(mem1, s2, lo, s2);
    lemma_read_after_write(mem1, s2, lo, s1);
    lemma_add8_add8(sp, -1, -1);
    lemma_add8_add8(sp, -2, 1);
    lemma_add8_add8(sp, -1, 1);
    let m1 = m.step();
    assert(m1.regs.reg_sp == add8(sp, -2));
    assert(m1.pulled() == lo);
    assert(m1.after_pull().pulled() == hi);
    lemma_add16_add16(pc, 2, 1);
}

/// `SEC; CLC` leaves C clear.
pub proof fn lemma_sec_clc(m: Machine)
    requires
        m.opcode() == 0x38,
        m.step().opcode() == 0x18,
    ensures
        !m.step().step().regs.reg_p.carry,
{
    reveal(Machine::execute);
    reveal(opcode_entry);
}

/// `SEC; SEC` leaves C set, and the second `SEC` changes no flag.
pub proof fn lemma_sec_sec(m: Machine)
    requires
        m.opcode() == 0x38,
        m.step().opcode() == 0x38,
    ensures
        m.step().regs.reg_p.carry,
        m.step().step().regs.reg_p == m.step().regs.reg_p,
{
    reveal(Machine::execute);
    reveal(opcode_entry);
}

/// Every instruction keeps the machine well formed: the unused flag set,
/// the break flag clear, and memory at its sizes.
pub proof fn lemma_step_wf(m: Machine)
    requires
        m.wf(),
    ensures
        m.step().wf(),
{
    let (mn, mode) = opcode_entry(m.opcode());
    let fetched = m.with_pc(add16(m.regs.reg_pc, 1));
    let (t, resolved) = fetched.resolve(mode);
    lemma_execute_wf(resolved, mn, t);
}

/// In every state reached from a well-formed one, P packs with bit 5 set
/// and bit 4 clear; PHP and BRK push it with bit 4 set.
pub proof fn lemma_status_bits(m: Machine, n: nat)
    requires
        m.wf(),
    ensures
        m.run(n).wf(),
        pack(m.run(n).regs.reg_p) & 0x20 != 0,
        pack(m.run(n).regs.reg_p) & 0x10 == 0,
        m.run(n).pushed_p() & 0x10 != 0,
    decreases n,
{
    if n > 0 {
        lemma_status_bits(m, (n - 1) as nat);
        lemma_step_wf(m.run((n - 1) as nat));
    }
    lemma_pack_bits(m.run(n).regs.reg_p);
    lemma_pack_bits(RegP { brk: true, ..m.run(n).regs.reg_p });
}

} // verus!
