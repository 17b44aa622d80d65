use futilenes::cpu::CPU;
use futilenes::debugger::Debugger;
use futilenes::mapper::Mapper;
use futilenes::opcodes::{decode, instruction_len, Mnemonic, Mode};
use futilenes::rom::INesFile;

fn cpu_with(program: &[u8]) -> CPU {
    let mut bin = vec![0x4E, 0x45, 0x53, 0x1A, 1, 0, 0, 0, 0, 0, 0, 0, 0, 0, 0, 0];
    let mut page = vec![0u8; 0x4000];
    page[..program.len()].copy_from_slice(program);
    bin.extend(page);
    let rom = INesFile::load(bin).unwrap();
    CPU::new(Mapper::new(rom), Some(0x8000))
}

fn ran(program: &[u8], n: u64) -> CPU {
    let mut cpu = cpu_with(program);
    cpu.run(n);
    cpu
}

#[test]
fn instruction_lengths_follow_the_table() {
    assert_eq!(instruction_len(0xEA), 1);
    assert_eq!(instruction_len(0x0A), 1);
    assert_eq!(instruction_len(0xA9), 2);
    assert_eq!(instruction_len(0x00), 2);
    assert_eq!(instruction_len(0xB1), 2);
    assert_eq!(instruction_len(0x10), 2);
    assert_eq!(instruction_len(0x4C), 3);
    assert_eq!(instruction_len(0x6C), 3);
    assert_eq!(instruction_len(0x20), 3);
    assert_eq!(instruction_len(0x02), 1);
    assert_eq!(instruction_len(0x9E), 3);
    assert_eq!(instruction_len(0x0C), 3);
}

#[test]
fn decode_entries() {
    assert_eq!(decode(0x69), (Mnemonic::Adc, Mode::Immediate));
    assert_eq!(decode(0xB6), (Mnemonic::Ldx, Mode::ZeroPageY));
    assert_eq!(decode(0x6C), (Mnemonic::Jmp, Mode::Indirect));
    assert_eq!(decode(0xD3), (Mnemonic::Dcp, Mode::IndirectY));
    assert_eq!(decode(0xEB), (Mnemonic::Sbc, Mode::Immediate));
    assert_eq!(decode(0xF0), (Mnemonic::Beq, Mode::Relative));
    assert_eq!(decode(0x8B), (Mnemonic::Unknown, Mode::Immediate));
}

#[test]
fn pc_advances_by_instruction_length() {
    let program = [0xA9, 0x01, 0x8D, 0x00, 0x02, 0x0A, 0xB1, 0x10, 0xEA, 0x1E, 0x00, 0x03];
    let mut cpu = cpu_with(&program);
    let mut pc = 0x8000u16;
    for _ in 0..6 {
        let op = program[(pc - 0x8000) as usize];
        cpu.step();
        pc += instruction_len(op) as u16;
        assert_eq!(cpu.registers().reg_pc, pc);
    }
}

#[test]
fn asl_accumulator_sets_carry() {
    let cpu = ran(&[0xA9, 0x81, 0x0A], 2);
    let r = cpu.registers();
    assert_eq!(r.reg_a, 0x02);
    assert!(r.reg_p.carry);
    assert!(!r.reg_p.negative);
}

#[test]
fn lsr_memory() {
    // LDA #$03; STA $20; LSR $20
    let cpu = ran(&[0xA9, 0x03, 0x85, 0x20, 0x46, 0x20], 3);
    assert_eq!(cpu.memory().read(0x20), 0x01);
    assert!(cpu.registers().reg_p.carry);
}

#[test]
fn rol_and_ror_through_carry() {
    // SEC; LDA #$80; ROL A
    let cpu = ran(&[0x38, 0xA9, 0x80, 0x2A], 3);
    assert_eq!(cpu.registers().reg_a, 0x01);
    assert!(cpu.registers().reg_p.carry);
    // SEC; LDA #$01; ROR A
    let cpu = ran(&[0x38, 0xA9, 0x01, 0x6A], 3);
    assert_eq!(cpu.registers().reg_a, 0x80);
    assert!(cpu.registers().reg_p.carry);
    assert!(cpu.registers().reg_p.negative);
    // CLC; LDA #$02; ROR A
    let cpu = ran(&[0x18, 0xA9, 0x02, 0x6A], 3);
    assert_eq!(cpu.registers().reg_a, 0x01);
    assert!(!cpu.registers().reg_p.carry);
}

#[test]
fn inc_dec_wrap() {
    // INC $30 (0 -> 1), DEC $31 (0 -> FF)
    let cpu = ran(&[0xE6, 0x30, 0xC6, 0x31], 2);
    assert_eq!(cpu.memory().read(0x30), 0x01);
    assert_eq!(cpu.memory().read(0x31), 0xFF);
    assert!(cpu.registers().reg_p.negative);
    // LDX #$FF; INX; LDY #$00; DEY
    let cpu = ran(&[0xA2, 0xFF, 0xE8], 2);
    assert_eq!(cpu.registers().reg_x, 0);
    assert!(cpu.registers().reg_p.zero);
    let cpu = ran(&[0xA0, 0x00, 0x88], 2);
    assert_eq!(cpu.registers().reg_y, 0xFF);
    let cpu = ran(&[0xA2, 0x01, 0xCA], 2);
    assert_eq!(cpu.registers().reg_x, 0);
    assert!(cpu.registers().reg_p.zero);
    let cpu = ran(&[0xA0, 0x7F, 0xC8], 2);
    assert_eq!(cpu.registers().reg_y, 0x80);
    assert!(cpu.registers().reg_p.negative);
}

#[test]
fn compare_sets_carry_zero_negative() {
    // LDA #$40; CMP #$40
    let cpu = ran(&[0xA9, 0x40, 0xC9, 0x40], 2);
    let p = cpu.registers().reg_p;
    assert!(p.carry && p.zero && !p.negative);
    // LDA #$40; CMP #$41
    let cpu = ran(&[0xA9, 0x40, 0xC9, 0x41], 2);
    let p = cpu.registers().reg_p;
    assert!(!p.carry && !p.zero && p.negative);
    // LDX #$05; CPX #$01
    let cpu = ran(&[0xA2, 0x05, 0xE0, 0x01], 2);
    let p = cpu.registers().reg_p;
    assert!(p.carry && !p.zero && !p.negative);
    // LDY #$00; CPY #$80
    let cpu = ran(&[0xA0, 0x00, 0xC0, 0x80], 2);
    let p = cpu.registers().reg_p;
    assert!(!p.carry && !p.zero && p.negative);
}

#[test]
fn bit_copies_bits_6_and_7() {
    // LDA #$C0; STA $40; LDA #$01; BIT $40
    let cpu = ran(&[0xA9, 0xC0, 0x85, 0x40, 0xA9, 0x01, 0x24, 0x40], 4);
    let p = cpu.registers().reg_p;
    assert!(p.zero && p.overflow && p.negative);
    assert_eq!(cpu.registers().reg_a, 0x01);
}

#[test]
fn logic_ops() {
    let cpu = ran(&[0xA9, 0xF0, 0x29, 0x3C], 2);
    assert_eq!(cpu.registers().reg_a, 0x30);
    let cpu = ran(&[0xA9, 0xF0, 0x09, 0x0F], 2);
    assert_eq!(cpu.registers().reg_a, 0xFF);
    assert!(cpu.registers().reg_p.negative);
    let cpu = ran(&[0xA9, 0xFF, 0x49, 0xFF], 2);
    assert_eq!(cpu.registers().reg_a, 0x00);
    assert!(cpu.registers().reg_p.zero);
}

#[test]
fn transfers() {
    let cpu = ran(&[0xA9, 0x00, 0xA2, 0x05, 0xA8, 0x8A], 4);
    let r = cpu.registers();
    assert_eq!(r.reg_y, 0x00);
    assert_eq!(r.reg_a, 0x05);
    assert!(!r.reg_p.zero);
    let cpu = ran(&[0xA0, 0x90, 0x98, 0xAA], 3);
    assert_eq!(cpu.registers().reg_x, 0x90);
    assert!(cpu.registers().reg_p.negative);
}

#[test]
fn txs_changes_no_flag() {
    let cpu = ran(&[0xA2, 0x00, 0xA9, 0x80, 0x9A], 3);
    assert_eq!(cpu.registers().reg_sp, 0x00);
    assert!(cpu.registers().reg_p.negative);
    assert!(!cpu.registers().reg_p.zero);
}

#[test]
fn absolute_indexed_wraps_at_64k() {
    // LDA #$5A; STA $0005; LDX #$06; LDA $FFFF,X
    let cpu = ran(&[0xA9, 0x5A, 0x8D, 0x05, 0x00, 0xA2, 0x06, 0xA9, 0x00, 0xBD, 0xFF, 0xFF], 5);
    assert_eq!(cpu.registers().reg_a, 0x5A);
}

#[test]
fn stack_pointer_wraps() {
    // LDX #$00; TXS; PHA; PLA
    let cpu = ran(&[0xA2, 0x00, 0x9A, 0x48], 3);
    assert_eq!(cpu.registers().reg_sp, 0xFF);
    let cpu = ran(&[0xA2, 0xFF, 0x9A, 0x68], 3);
    assert_eq!(cpu.registers().reg_sp, 0x00);
}

#[test]
fn flag_instructions() {
    let cpu = ran(&[0xF8, 0x58, 0x38], 3);
    let p = cpu.registers().reg_p;
    assert!(p.decimal && !p.int_disable && p.carry);
    let cpu = ran(&[0xF8, 0x78, 0x38, 0xD8, 0x18], 5);
    let p = cpu.registers().reg_p;
    assert!(!p.decimal && p.int_disable && !p.carry);
    // LDA #$7F; ADC #$01 sets V; CLV clears it
    let cpu = ran(&[0xA9, 0x7F, 0x69, 0x01, 0xB8], 3);
    assert!(!cpu.registers().reg_p.overflow);
}

#[test]
fn decimal_flag_does_not_change_adc() {
    // SED; CLC; LDA #$09; ADC #$01
    let cpu = ran(&[0xF8, 0x18, 0xA9, 0x09, 0x69, 0x01], 4);
    assert_eq!(cpu.registers().reg_a, 0x0A);
}

#[test]
fn lax_loads_a_and_x() {
    // LDA #$81; STA $10; LDA #$00; LAX $10
    let cpu = ran(&[0xA9, 0x81, 0x85, 0x10, 0xA9, 0x00, 0xA7, 0x10], 4);
    let r = cpu.registers();
    assert_eq!(r.reg_a, 0x81);
    assert_eq!(r.reg_x, 0x81);
    assert!(r.reg_p.negative);
}

#[test]
fn sax_stores_a_and_x() {
    let cpu = ran(&[0xA9, 0xF0, 0xA2, 0x3C, 0x87, 0x10], 3);
    assert_eq!(cpu.memory().read(0x10), 0x30);
}

#[test]
fn dcp_decrements_then_compares() {
    // LDA #$05; STA $10; DCP $10 (mem 4, A 5 >= 4)
    let cpu = ran(&[0xA9, 0x05, 0x85, 0x10, 0xC7, 0x10], 3);
    assert_eq!(cpu.memory().read(0x10), 0x04);
    let p = cpu.registers().reg_p;
    assert!(p.carry && !p.zero);
}

#[test]
fn isc_increments_then_subtracts() {
    // LDA #$05; STA $10; SEC; ISC $10 (mem 6, A = 5 - 6 = FF)
    let cpu = ran(&[0xA9, 0x05, 0x85, 0x10, 0x38, 0xE7, 0x10], 4);
    assert_eq!(cpu.memory().read(0x10), 0x06);
    assert_eq!(cpu.registers().reg_a, 0xFF);
    assert!(!cpu.registers().reg_p.carry);
}

#[test]
fn slo_shifts_then_ors() {
    // LDA #$81; STA $10; LDA #$01; SLO $10 (mem 02, C=1, A = 03)
    let cpu = ran(&[0xA9, 0x81, 0x85, 0x10, 0xA9, 0x01, 0x07, 0x10], 4);
    assert_eq!(cpu.memory().read(0x10), 0x02);
    assert_eq!(cpu.registers().reg_a, 0x03);
    assert!(cpu.registers().reg_p.carry);
}

#[test]
fn rla_rotates_then_ands() {
    // SEC; LDA #$40; STA $10; LDA #$FF; RLA $10 (mem 81, A = 81)
    let cpu = ran(&[0x38, 0xA9, 0x40, 0x85, 0x10, 0xA9, 0xFF, 0x27, 0x10], 5);
    assert_eq!(cpu.memory().read(0x10), 0x81);
    assert_eq!(cpu.registers().reg_a, 0x81);
    assert!(!cpu.registers().reg_p.carry);
}

#[test]
fn sre_shifts_then_xors() {
    // LDA #$03; STA $10; LDA #$FF; SRE $10 (mem 01, C=1, A = FE)
    let cpu = ran(&[0xA9, 0x03, 0x85, 0x10, 0xA9, 0xFF, 0x47, 0x10], 4);
    assert_eq!(cpu.memory().read(0x10), 0x01);
    assert_eq!(cpu.registers().reg_a, 0xFE);
    assert!(cpu.registers().reg_p.carry);
}

#[test]
fn rra_rotates_then_adds() {
    // CLC; LDA #$03; STA $10; LDA #$10; RRA $10 (mem 01, C=1, A = 10 + 01 + 1 = 12)
    let cpu = ran(&[0x18, 0xA9, 0x03, 0x85, 0x10, 0xA9, 0x10, 0x67, 0x10], 5);
    assert_eq!(cpu.memory().read(0x10), 0x01);
    assert_eq!(cpu.registers().reg_a, 0x12);
    assert!(!cpu.registers().reg_p.carry);
}

#[test]
fn trace_line_text() {
    let mut cpu = cpu_with(&[0xA9, 0x0F, 0xEA]);
    let trace = cpu.run(2);
    let first = String::from_utf8(trace[0].line()).unwrap();
    assert_eq!(first, "1 8000 A9 A:00 X:00 Y:00 P:24 SP:FD");
    let second = String::from_utf8(trace[1].line()).unwrap();
    assert_eq!(second, "2 8002 EA A:0F X:00 Y:00 P:24 SP:FD");
}

#[test]
fn trace_line_count_in_decimal() {
    let mut cpu = cpu_with(&[0xEA; 16]);
    let trace = cpu.run(12);
    let last = String::from_utf8(trace[11].line()).unwrap();
    assert_eq!(last, "12 800B EA A:00 X:00 Y:00 P:24 SP:FD");
}

#[test]
fn debugger_saves_state_before_step() {
    let cpu = cpu_with(&[0xA9, 0x42, 0xAA]);
    let mut dbg = Debugger::new(cpu);
    assert_eq!(dbg.state().reg_pc, 0x8000);
    dbg.step();
    assert_eq!(dbg.state().reg_pc, 0x8000);
    assert_eq!(dbg.state().reg_a, 0x00);
    assert_eq!(dbg.cpu().registers().reg_a, 0x42);
    dbg.step();
    assert_eq!(dbg.state().reg_pc, 0x8002);
    assert_eq!(dbg.state().reg_a, 0x42);
    assert_eq!(dbg.cpu().registers().reg_x, 0x42);
}
