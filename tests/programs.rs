use futilenes::cpu::CPU;
use futilenes::machine::TraceEntry;
use futilenes::mapper::Mapper;
use futilenes::rom::INesFile;

/// An iNES image with one PRG page holding `program` at its start
/// (address 0x8000, mirrored at 0xC000), and the reset and break vectors.
fn image(program: &[u8], reset: u16, irq: u16) -> Vec<u8> {
    let mut bin = vec![0x4E, 0x45, 0x53, 0x1A, 1, 0, 0, 0, 0, 0, 0, 0, 0, 0, 0, 0];
    let mut page = vec![0u8; 0x4000];
    page[..program.len()].copy_from_slice(program);
    page[0x3FFC] = (reset & 0xFF) as u8;
    page[0x3FFD] = (reset >> 8) as u8;
    page[0x3FFE] = (irq & 0xFF) as u8;
    page[0x3FFF] = (irq >> 8) as u8;
    bin.extend_from_slice(&page);
    bin
}

fn cpu_at_8000(program: &[u8]) -> CPU {
    let rom = INesFile::load(image(program, 0x8000, 0x9000)).unwrap();
    CPU::new(Mapper::new(rom), Some(0x8000))
}

fn run(cpu: &mut CPU, n: u64) -> Vec<TraceEntry> {
    cpu.run(n)
}

#[test]
fn program_lda_sta_lda_nop() {
    let mut cpu = cpu_at_8000(&[0xA9, 0x42, 0x85, 0x10, 0xA5, 0x10, 0xEA]);
    cpu.step();
    let r = cpu.registers();
    assert_eq!(r.reg_a, 0x42);
    assert!(!r.reg_p.zero);
    assert!(!r.reg_p.negative);
    cpu.step();
    assert_eq!(cpu.memory().read(0x10), 0x42);
    cpu.step();
    assert_eq!(cpu.registers().reg_a, 0x42);
    let before = cpu.registers();
    cpu.step();
    let after = cpu.registers();
    assert_eq!(after.reg_pc, 0x8007);
    assert_eq!(after.reg_a, before.reg_a);
    assert_eq!(after.reg_x, before.reg_x);
    assert_eq!(after.reg_y, before.reg_y);
    assert_eq!(after.reg_sp, before.reg_sp);
    assert_eq!(after.reg_p, before.reg_p);
}

#[test]
fn program_clc_lda_adc_carry_out() {
    let mut cpu = cpu_at_8000(&[0x18, 0xA9, 0xFF, 0x69, 0x01]);
    run(&mut cpu, 3);
    let r = cpu.registers();
    assert_eq!(r.reg_a, 0x00);
    assert!(r.reg_p.carry);
    assert!(r.reg_p.zero);
    assert!(!r.reg_p.overflow);
    assert!(!r.reg_p.negative);
}

#[test]
fn program_sec_lda_sbc_borrow() {
    let mut cpu = cpu_at_8000(&[0x38, 0xA9, 0x00, 0xE9, 0x01]);
    run(&mut cpu, 3);
    let r = cpu.registers();
    assert_eq!(r.reg_a, 0xFF);
    assert!(!r.reg_p.carry);
    assert!(!r.reg_p.overflow);
    assert!(r.reg_p.negative);
    assert!(!r.reg_p.zero);
}

#[test]
fn program_ldx_txs_tsx() {
    let mut cpu = cpu_at_8000(&[0xA2, 0xFF, 0x9A, 0xBA]);
    run(&mut cpu, 3);
    let r = cpu.registers();
    assert_eq!(r.reg_x, 0xFF);
    assert_eq!(r.reg_sp, 0xFF);
    assert!(!r.reg_p.zero);
    assert!(r.reg_p.negative);
}

#[test]
fn program_jsr_rts() {
    let mut cpu = cpu_at_8000(&[0x20, 0x06, 0x80, 0x00, 0x00, 0x00, 0x60]);
    let sp = cpu.registers().reg_sp;
    cpu.step();
    assert_eq!(cpu.registers().reg_pc, 0x8006);
    assert_eq!(cpu.registers().reg_sp, sp.wrapping_sub(2));
    assert_eq!(cpu.memory().read(0x0100 + sp as u16), 0x80);
    assert_eq!(cpu.memory().read(0x0100 + sp as u16 - 1), 0x02);
    cpu.step();
    assert_eq!(cpu.registers().reg_pc, 0x8003);
    assert_eq!(cpu.registers().reg_sp, sp);
}

#[test]
fn adc_signed_overflow_to_negative() {
    let mut cpu = cpu_at_8000(&[0x18, 0xA9, 0x7F, 0x69, 0x01]);
    run(&mut cpu, 3);
    let r = cpu.registers();
    assert_eq!(r.reg_a, 0x80);
    assert!(r.reg_p.overflow);
    assert!(r.reg_p.negative);
    assert!(!r.reg_p.zero);
    assert!(!r.reg_p.carry);
}

#[test]
fn sbc_signed_overflow_to_positive() {
    let mut cpu = cpu_at_8000(&[0x38, 0xA9, 0x80, 0xE9, 0x01]);
    run(&mut cpu, 3);
    let r = cpu.registers();
    assert_eq!(r.reg_a, 0x7F);
    assert!(r.reg_p.overflow);
    assert!(!r.reg_p.negative);
    assert!(!r.reg_p.zero);
    assert!(r.reg_p.carry);
}

#[test]
fn undocumented_sbc_alias() {
    let mut cpu = cpu_at_8000(&[0x38, 0xA9, 0x80, 0xEB, 0x01]);
    run(&mut cpu, 3);
    assert_eq!(cpu.registers().reg_a, 0x7F);
    assert!(cpu.registers().reg_p.overflow);
}

#[test]
fn zero_page_x_wraps_within_page_zero() {
    // LDA #$77; STA $00; LDA #$55; STA $0100; LDX #$01; LDA #$00; LDA $FF,X
    let mut cpu = cpu_at_8000(&[
        0xA9, 0x77, 0x85, 0x00, 0xA9, 0x55, 0x8D, 0x00, 0x01, 0xA2, 0x01, 0xA9, 0x00, 0xB5, 0xFF,
    ]);
    run(&mut cpu, 7);
    assert_eq!(cpu.registers().reg_a, 0x77);
}

#[test]
fn indirect_y_pointer_wraps_within_page_zero() {
    // $FF = 0x34, $00 = 0x02, $0100 = 0x07, $0234 = 0x5A; LDY #0; LDA ($FF),Y
    let mut cpu = cpu_at_8000(&[
        0xA9, 0x34, 0x85, 0xFF, 0xA9, 0x02, 0x85, 0x00, 0xA9, 0x07, 0x8D, 0x00, 0x01, 0xA9,
        0x5A, 0x8D, 0x34, 0x02, 0xA0, 0x00, 0xA9, 0x00, 0xB1, 0xFF,
    ]);
    run(&mut cpu, 11);
    assert_eq!(cpu.registers().reg_a, 0x5A);
}

#[test]
fn indirect_x_pointer_wraps_within_page_zero() {
    // $FF = 0x34, $00 = 0x02, $0234 = 0x5A; LDX #$01; LDA ($FE,X)
    let mut cpu = cpu_at_8000(&[
        0xA9, 0x34, 0x85, 0xFF, 0xA9, 0x02, 0x85, 0x00, 0xA9, 0x5A, 0x8D, 0x34, 0x02, 0xA2,
        0x01, 0xA9, 0x00, 0xA1, 0xFE,
    ]);
    run(&mut cpu, 9);
    assert_eq!(cpu.registers().reg_a, 0x5A);
}

#[test]
fn jmp_indirect_page_wrap_bug() {
    // $02FF = 0x00, $0200 = 0x90, $0300 = 0x80; JMP ($02FF)
    let mut cpu = cpu_at_8000(&[
        0xA9, 0x00, 0x8D, 0xFF, 0x02, 0xA9, 0x90, 0x8D, 0x00, 0x02, 0xA9, 0x80, 0x8D, 0x00,
        0x03, 0x6C, 0xFF, 0x02,
    ]);
    run(&mut cpu, 7);
    assert_eq!(cpu.registers().reg_pc, 0x9000);
}

#[test]
fn jmp_indirect_without_page_crossing() {
    // $0210 = 0x34, $0211 = 0x12; JMP ($0210)
    let mut cpu = cpu_at_8000(&[
        0xA9, 0x34, 0x8D, 0x10, 0x02, 0xA9, 0x12, 0x8D, 0x11, 0x02, 0x6C, 0x10, 0x02,
    ]);
    run(&mut cpu, 5);
    assert_eq!(cpu.registers().reg_pc, 0x1234);
}

#[test]
fn branch_offset_minus_128_wraps_below_zero() {
    // Puts BNE -128 at $0010, then LDX #1 (Z clear) and JMP $0010.
    let mut cpu = cpu_at_8000(&[
        0xA9, 0xD0, 0x85, 0x10, 0xA9, 0x80, 0x85, 0x11, 0xA2, 0x01, 0x4C, 0x10, 0x00,
    ]);
    run(&mut cpu, 6);
    assert_eq!(cpu.registers().reg_pc, 0x0010);
    cpu.step();
    assert_eq!(cpu.registers().reg_pc, 0xFF92);
}

#[test]
fn branch_offset_minus_128_from_rom() {
    let mut cpu = cpu_at_8000(&[0xA2, 0x01, 0xD0, 0x80]);
    run(&mut cpu, 2);
    assert_eq!(cpu.registers().reg_pc, 0x7F84);
}

#[test]
fn branch_not_taken_moves_past_operand() {
    let mut cpu = cpu_at_8000(&[0xA2, 0x01, 0xF0, 0x10]);
    run(&mut cpu, 2);
    assert_eq!(cpu.registers().reg_pc, 0x8004);
}

#[test]
fn branch_forward() {
    let mut cpu = cpu_at_8000(&[0xA2, 0x00, 0xF0, 0x10]);
    run(&mut cpu, 2);
    assert_eq!(cpu.registers().reg_pc, 0x8014);
}

#[test]
fn sec_then_clc_clears_carry() {
    let mut cpu = cpu_at_8000(&[0x38, 0x18]);
    cpu.step();
    assert!(cpu.registers().reg_p.carry);
    cpu.step();
    assert!(!cpu.registers().reg_p.carry);
}

#[test]
fn sec_twice_keeps_carry_set() {
    let mut cpu = cpu_at_8000(&[0x38, 0x38]);
    cpu.step();
    let once = cpu.registers().reg_p;
    cpu.step();
    assert!(cpu.registers().reg_p.carry);
    assert_eq!(cpu.registers().reg_p, once);
}

#[test]
fn pha_pla_restores_a() {
    // LDA #$80; PHA; LDA #$00; PLA
    let mut cpu = cpu_at_8000(&[0xA9, 0x80, 0x48, 0xA9, 0x00, 0x68]);
    let sp = cpu.registers().reg_sp;
    run(&mut cpu, 4);
    let r = cpu.registers();
    assert_eq!(r.reg_a, 0x80);
    assert!(r.reg_p.negative);
    assert!(!r.reg_p.zero);
    assert_eq!(r.reg_sp, sp);
    assert_eq!(cpu.memory().read(0x0100 + sp as u16), 0x80);
}

#[test]
fn php_plp_restores_flags() {
    // SEC; SED; PHP; CLC; CLD; PLP
    let mut cpu = cpu_at_8000(&[0x38, 0xF8, 0x08, 0x18, 0xD8, 0x28]);
    let sp = cpu.registers().reg_sp;
    run(&mut cpu, 3);
    // Pushed with the break and unused bits set: C, D, I, B, U.
    assert_eq!(cpu.memory().read(0x0100 + sp as u16), 0x3D);
    run(&mut cpu, 3);
    let p = cpu.registers().reg_p;
    assert!(p.carry);
    assert!(p.decimal);
    assert!(p.int_disable);
    assert!(!p.brk);
    assert!(p.expansion);
    assert_eq!(cpu.registers().get_p(), 0x2D);
}

#[test]
fn plp_ignores_pulled_break_bit_and_sets_unused() {
    // LDA #$DF; PHA; PLP: every bit but the unused one
    let mut cpu = cpu_at_8000(&[0xA9, 0xDF, 0x48, 0x28]);
    run(&mut cpu, 3);
    let p = cpu.registers().reg_p;
    assert!(!p.brk);
    assert!(p.expansion);
    assert_eq!(cpu.registers().get_p(), 0xEF);
}

#[test]
fn brk_pushes_state_and_jumps_through_vector() {
    let mut cpu = cpu_at_8000(&[0x38, 0x00, 0xEA]);
    let sp = cpu.registers().reg_sp;
    run(&mut cpu, 2);
    let r = cpu.registers();
    assert_eq!(r.reg_pc, 0x9000);
    assert!(r.reg_p.int_disable);
    assert!(!r.reg_p.brk);
    assert_eq!(r.reg_sp, sp.wrapping_sub(3));
    let base = 0x0100 + sp as u16;
    assert_eq!(cpu.memory().read(base), 0x80);
    assert_eq!(cpu.memory().read(base - 1), 0x03);
    // C, I, B and U.
    assert_eq!(cpu.memory().read(base - 2), 0x35);
}

#[test]
fn rti_restores_p_and_pc() {
    // Push $12, $34 and P=$C3 (with B set: $D3), then RTI.
    let mut cpu = cpu_at_8000(&[0xA9, 0x12, 0x48, 0xA9, 0x34, 0x48, 0xA9, 0xD3, 0x48, 0x40]);
    let sp = cpu.registers().reg_sp;
    run(&mut cpu, 7);
    let r = cpu.registers();
    assert_eq!(r.reg_pc, 0x1234);
    assert_eq!(r.reg_sp, sp);
    assert_eq!(r.get_p(), 0xE3);
}

#[test]
fn reset_vector_sets_pc_without_entry_point() {
    let rom = INesFile::load(image(&[0xEA], 0xC123, 0x9000)).unwrap();
    let cpu = CPU::new(Mapper::new(rom), None);
    let r = cpu.registers();
    assert_eq!(r.reg_pc, 0xC123);
    assert_eq!(r.reg_sp, 0xFD);
    assert_eq!(r.reg_a, 0);
    assert_eq!(r.reg_x, 0);
    assert_eq!(r.reg_y, 0);
    assert_eq!(r.get_p(), 0x24);
}

#[test]
fn trace_records_state_before_each_instruction() {
    let mut cpu = cpu_at_8000(&[0xA9, 0x80, 0xAA, 0xEA]);
    let trace = cpu.run(3);
    assert_eq!(trace.len(), 3);
    assert_eq!(trace[0].count, 1);
    assert_eq!(trace[0].opcode, 0xA9);
    assert_eq!(trace[0].state.reg_pc, 0x8000);
    assert_eq!(trace[0].state.reg_a, 0);
    assert_eq!(trace[0].state.get_p(), 0x24);
    assert_eq!(trace[1].count, 2);
    assert_eq!(trace[1].opcode, 0xAA);
    assert_eq!(trace[1].state.reg_pc, 0x8002);
    assert_eq!(trace[1].state.reg_a, 0x80);
    assert_eq!(trace[1].state.get_p(), 0xA4);
    assert_eq!(trace[2].state.reg_x, 0x80);
    assert!(trace.iter().all(|e| e.known));
    for e in &trace {
        let p = e.state.get_p();
        assert_eq!(p & 0x20, 0x20);
        assert_eq!(p & 0x10, 0);
    }
}

#[test]
fn unknown_opcodes_skip_their_declared_length() {
    // KIL (1 byte), ANC #imm (2 bytes), SHY abs,X (3 bytes), then NOP
    let mut cpu = cpu_at_8000(&[0x02, 0x0B, 0xFF, 0x9C, 0x34, 0x12, 0xEA]);
    let trace = cpu.run(3);
    assert!(trace.iter().all(|e| !e.known));
    assert_eq!(cpu.registers().reg_pc, 0x8006);
    assert_eq!(cpu.registers().reg_a, 0);
    let e = cpu.step();
    assert!(e.known);
    assert_eq!(e.count, 4);
}

#[test]
fn unofficial_nops_skip_operands() {
    // NOP #imm, NOP zp, NOP zp,X, NOP abs, NOP abs,X, NOP implied
    let mut cpu = cpu_at_8000(&[
        0x80, 0x01, 0x04, 0x02, 0x14, 0x03, 0x0C, 0x00, 0x02, 0x1C, 0x00, 0x02, 0x1A,
    ]);
    let before = cpu.registers();
    run(&mut cpu, 6);
    let after = cpu.registers();
    assert_eq!(after.reg_pc, 0x800D);
    assert_eq!(after.reg_a, before.reg_a);
    assert_eq!(after.reg_p, before.reg_p);
}

#[test]
fn nmi_pushes_pc_and_p_without_break_bit() {
    let rom = INesFile::load(image(&[0x38, 0xEA], 0x8000, 0x9000)).unwrap();
    let mut cpu = CPU::new(Mapper::new(rom), Some(0x8000));
    cpu.step();
    let sp = cpu.registers().reg_sp;
    cpu.nmi();
    let r = cpu.registers();
    // The NMI vector at 0xFFFA is zero in this image.
    assert_eq!(r.reg_pc, 0x0000);
    assert!(r.reg_p.int_disable);
    assert_eq!(r.reg_sp, sp.wrapping_sub(3));
    let base = 0x0100 + sp as u16;
    assert_eq!(cpu.memory().read(base), 0x80);
    assert_eq!(cpu.memory().read(base - 1), 0x01);
    // C, I and U; B clear.
    assert_eq!(cpu.memory().read(base - 2), 0x25);
}

#[test]
fn irq_is_masked_while_i_is_set() {
    let mut cpu = cpu_at_8000(&[0x58, 0xEA]);
    let before = cpu.registers();
    cpu.irq();
    assert_eq!(cpu.registers(), before);
    cpu.step();
    cpu.irq();
    let r = cpu.registers();
    assert_eq!(r.reg_pc, 0x9000);
    assert!(r.reg_p.int_disable);
    assert_eq!(cpu.memory().read(0x0100 + before.reg_sp as u16 - 2), 0x20);
}
