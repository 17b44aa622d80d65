//! The text of a trace line, as ASCII bytes:
//! `<count> <PC> <opcode> A:<A> X:<X> Y:<Y> P:<P> SP:<SP>`, with the count in
//! decimal and the rest in upper-case hex, zero-padded to 4 digits for PC
//! and 2 for the others. P is packed as `CpuState::get_p` packs it.
use vstd::prelude::*;
use crate::machine::TraceEntry;
use crate::status::pack;

verus! {

/// The ASCII upper-case hex digit of `n`.
pub open spec fn hex_digit(n: u8) -> u8
    recommends
        n < 16,
{
    if n < 10 { (0x30 + n) as u8 } else { (0x41 + n - 10) as u8 }
}

/// Two hex digits for a byte.
pub open spec fn hex2(b: u8) -> Seq<u8> {
    seq![hex_digit(b / 16), hex_digit(b % 16)]
}

/// Four hex digits for a word.
pub open spec fn hex4(w: u16) -> Seq<u8> {
    hex2((w / 256) as u8) + hex2((w % 256) as u8)
}

/// The decimal digits of `n`, without leading zeros.
pub open spec fn decimal(n: nat) -> Seq<u8>
    decreases n,
{
    if n < 10 {
        seq![(0x30 + n) as u8]
    } else {
        decimal(n / 10).push((0x30 + n % 10) as u8)
    }
}

/// A space, then `label` and a colon.
pub open spec fn field(label: Seq<u8>, digits: Seq<u8>) -> Seq<u8> {
    seq![0x20u8] + label + seq![0x3Au8] + digits
}

/// The trace line of `e`.
pub open spec fn trace_line(e: TraceEntry) -> Seq<u8> {
    decimal(e.count as nat) + seq![0x20u8] + hex4(e.state.reg_pc) + seq![0x20u8] + hex2(e.opcode)
        + field(seq![0x41u8], hex2(e.state.reg_a)) + field(seq![0x58u8], hex2(e.state.reg_x))
        + field(seq![0x59u8], hex2(e.state.reg_y)) + field(
        seq![0x50u8],
        hex2(pack(e.state.reg_p)),
    ) + field(seq![0x53u8, 0x50u8], hex2(e.state.reg_sp))
}

fn hex_digit_of(n: u8) -> (r: u8)
    requires
        n < 16,
    ensures
        r == hex_digit(n),
{
    if n < 10 {
        0x30 + n
    } else {
        0x41 + n - 10
    }
}

fn push_hex2(out: &mut Vec<u8>, b: u8)
    ensures
        final(out)@ == old(out)@ + hex2(b),
{
    out.push(hex_digit_of(b / 16));
    out.push(hex_digit_of(b % 16));
    assert(out@ =~= old(out)@ + hex2(b));
}

fn push_hex4(out: &mut Vec<u8>, w: u16)
    ensures
        final(out)@ == old(out)@ + hex4(w),
{
    push_hex2(out, (w / 256) as u8);
    push_hex2(out, (w % 256) as u8);
    assert(out@ =~= old(out)@ + hex4(w));
}

fn push_decimal(out: &mut Vec<u8>, n: u64)
    ensures
        final(out)@ == old(out)@ + decimal(n as nat),
    decreases n,
{
    if n >= 10 {
        push_decimal(out, n / 10);
    }
    out.push((0x30 + n % 10) as u8);
    assert(out@ =~= old(out)@ + decimal(n as nat));
}

/// Pushes a space, `label`, a colon and the two hex digits of `b`.
fn push_field(out: &mut Vec<u8>, label: &Vec<u8>, b: u8)
    ensures
        final(out)@ == old(out)@ + field(label@, hex2(b)),
{
    out.push(0x20);
    let mut i: usize = 0;
    while i < label.len()
        invariant
            i <= label@.len(),
            out@ == old(out)@ + seq![0x20u8] + label@.subrange(0, i as int),
        decreases label@.len() - i,
    {
        out.push(label[i]);
        i = i + 1;
        assert(out@ =~= old(out)@ + seq![0x20u8] + label@.subrange(0, i as int));
    }
    out.push(0x3A);
    push_hex2(out, b);
    assert(label@.subrange(0, label@.len() as int) =~= label@);
    assert(out@ =~= old(out)@ + field(label@, hex2(b)));
}

impl TraceEntry {
    /// The trace line as ASCII bytes.
    pub fn line(&self) -> (r: Vec<u8>)
        ensures
            r@ == trace_line(*self),
    {
        let mut out: Vec<u8> = Vec::new();
        push_decimal(&mut out, self.count);
        out.push(0x20);
        push_hex4(&mut out, self.state.reg_pc);
        out.push(0x20);
        push_hex2(&mut out, self.opcode);
        push_field(&mut out, &vec![0x41], self.state.reg_a);
        push_field(&mut out, &vec![0x58], self.state.reg_x);
        push_field(&mut out, &vec![0x59], self.state.reg_y);
        push_field(&mut out, &vec![0x50], self.state.get_p());
        push_field(&mut out, &vec![0x53, 0x50], self.state.reg_sp);
        assert(out@ =~= trace_line(*self));
        out
    }
}

} // verus!
