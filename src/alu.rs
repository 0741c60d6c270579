use vstd::prelude::*;

verus! {

/// Masks of the bits of the status register.
pub const FLAG_C: u8 = 0x01;
pub const FLAG_Z: u8 = 0x02;
pub const FLAG_N: u8 = 0x04;
pub const FLAG_V: u8 = 0x08;
pub const FLAG_S: u8 = 0x10;
pub const FLAG_H: u8 = 0x20;
pub const FLAG_T: u8 = 0x40;
pub const FLAG_I: u8 = 0x80;

/// Whether bit `n` of `v` is one.
pub open spec fn bit_of(v: u8, n: u8) -> bool {
    (v >> n) & 1 == 1
}

/// `a + b` modulo 256.
pub open spec fn add8(a: u8, b: u8) -> u8 {
    ((a + b) % 256) as u8
}

/// `a - b` modulo 256.
pub open spec fn sub8(a: u8, b: u8) -> u8 {
    ((a - b + 256) % 256) as u8
}

/// The status byte `sreg` with the bits of `mask` set when `on`, cleared otherwise.
pub open spec fn with_flag(sreg: u8, mask: u8, on: bool) -> u8 {
    if on {
        sreg | mask
    } else {
        sreg & !mask
    }
}

/// The six arithmetic flags written into `sreg`; the signed-test flag is `n ^ v`.
/// The transfer and interrupt bits are kept.
pub open spec fn arith_status(sreg: u8, h: bool, v: bool, n: bool, z: bool, c: bool) -> u8 {
    with_flag(
        with_flag(
            with_flag(with_flag(with_flag(with_flag(sreg, FLAG_H, h), FLAG_S, n != v), FLAG_V, v), FLAG_N, n),
            FLAG_Z,
            z,
        ),
        FLAG_C,
        c,
    )
}

/// Half-carry of `r = rd + rr`: a carry out of bit 3.
pub open spec fn add_half_carry(rd: u8, rr: u8, r: u8) -> bool {
    (bit_of(rd, 3) && bit_of(rr, 3)) || (bit_of(rr, 3) && !bit_of(r, 3)) || (!bit_of(r, 3) && bit_of(rd, 3))
}

/// Carry of `r = rd + rr`: a carry out of bit 7.
pub open spec fn add_carry(rd: u8, rr: u8, r: u8) -> bool {
    (bit_of(rd, 7) && bit_of(rr, 7)) || (bit_of(rr, 7) && !bit_of(r, 7)) || (!bit_of(r, 7) && bit_of(rd, 7))
}

/// Two's-complement overflow of `r = rd + rr`.
pub open spec fn add_overflow(rd: u8, rr: u8, r: u8) -> bool {
    (bit_of(rd, 7) && bit_of(rr, 7) && !bit_of(r, 7)) || (!bit_of(rd, 7) && !bit_of(rr, 7) && bit_of(r, 7))
}

/// Half-borrow of `r = rd - rr`: a borrow into bit 3.
pub open spec fn sub_half_carry(rd: u8, rr: u8, r: u8) -> bool {
    (!bit_of(rd, 3) && bit_of(rr, 3)) || (bit_of(rr, 3) && bit_of(r, 3)) || (bit_of(r, 3) && !bit_of(rd, 3))
}

/// Borrow of `r = rd - rr`: a borrow into bit 7.
pub open spec fn sub_carry(rd: u8, rr: u8, r: u8) -> bool {
    (!bit_of(rd, 7) && bit_of(rr, 7)) || (bit_of(rr, 7) && bit_of(r, 7)) || (bit_of(r, 7) && !bit_of(rd, 7))
}

/// Two's-complement overflow of `r = rd - rr`.
pub open spec fn sub_overflow(rd: u8, rr: u8, r: u8) -> bool {
    (bit_of(rd, 7) && !bit_of(rr, 7) && !bit_of(r, 7)) || (!bit_of(rd, 7) && bit_of(rr, 7) && bit_of(r, 7))
}

/// The status after `rd + rr`.
pub open spec fn add_status(sreg: u8, rd: u8, rr: u8) -> u8 {
    let r = add8(rd, rr);
    arith_status(sreg, add_half_carry(rd, rr, r), add_overflow(rd, rr, r), bit_of(r, 7), r == 0, add_carry(rd, rr, r))
}

/// The status after `rd - rr`.
pub open spec fn sub_status(sreg: u8, rd: u8, rr: u8) -> u8 {
    let r = sub8(rd, rr);
    arith_status(sreg, sub_half_carry(rd, rr, r), sub_overflow(rd, rr, r), bit_of(r, 7), r == 0, sub_carry(rd, rr, r))
}

/// The signed-test, overflow, negative and zero flags after an increment or a
/// decrement whose result is `r`; overflow is `r == sentinel` (0x80 for an
/// increment, 0x7F for a decrement). Half-carry and carry are kept.
pub open spec fn step_status(sreg: u8, r: u8, sentinel: u8) -> u8 {
    let v = r == sentinel;
    let n = bit_of(r, 7);
    with_flag(with_flag(with_flag(with_flag(sreg, FLAG_S, n != v), FLAG_V, v), FLAG_N, n), FLAG_Z, r == 0)
}

/// Whether bit `position` of `value` is one.
pub fn bit(value: u8, position: u8) -> (r: bool)
    requires
        position < 8,
    ensures
        r == bit_of(value, position),
{
    (value >> position) & 1 == 1
}

/// Sets the bits of `mask` in `sreg` when `condition` holds, clears them otherwise.
pub fn update_flag(sreg: u8, mask: u8, condition: bool) -> (r: u8)
    ensures
        r == with_flag(sreg, mask, condition),
{
    if condition {
        sreg | mask
    } else {
        sreg & !mask
    }
}

fn apply_arith(sreg: u8, h: bool, v: bool, n: bool, z: bool, c: bool) -> (r: u8)
    ensures
        r == arith_status(sreg, h, v, n, z, c),
{
    let s1 = update_flag(sreg, FLAG_H, h);
    let s2 = update_flag(s1, FLAG_S, n != v);
    let s3 = update_flag(s2, FLAG_V, v);
    let s4 = update_flag(s3, FLAG_N, n);
    let s5 = update_flag(s4, FLAG_Z, z);
    update_flag(s5, FLAG_C, c)
}

/// Adds `rr` to `rd` modulo 256; returns the sum and the new status.
pub fn add_with_status(sreg: u8, rd: u8, rr: u8) -> (r: (u8, u8))
    ensures
        r.0 == add8(rd, rr),
        r.1 == add_status(sreg, rd, rr),
{
    let res = ((rd as u16 + rr as u16) % 256) as u8;
    let rd3 = bit(rd, 3);
    let rr3 = bit(rr, 3);
    let r3 = bit(res, 3);
    let rd7 = bit(rd, 7);
    let rr7 = bit(rr, 7);
    let r7 = bit(res, 7);
    let h = (rd3 && rr3) || (rr3 && !r3) || (!r3 && rd3);
    let v = (rd7 && rr7 && !r7) || (!rd7 && !rr7 && r7);
    let c = (rd7 && rr7) || (rr7 && !r7) || (!r7 && rd7);
    (res, apply_arith(sreg, h, v, r7, res == 0, c))
}

/// Subtracts `rr` from `rd` modulo 256; returns the difference and the new status.
pub fn sub_with_status(sreg: u8, rd: u8, rr: u8) -> (r: (u8, u8))
    ensures
        r.0 == sub8(rd, rr),
        r.1 == sub_status(sreg, rd, rr),
{
    let res = ((rd as u16 + 256 - rr as u16) % 256) as u8;
    let rd3 = bit(rd, 3);
    let rr3 = bit(rr, 3);
    let r3 = bit(res, 3);
    let rd7 = bit(rd, 7);
    let rr7 = bit(rr, 7);
    let r7 = bit(res, 7);
    let h = (!rd3 && rr3) || (rr3 && r3) || (r3 && !rd3);
    let v = (rd7 && !rr7 && !r7) || (!rd7 && rr7 && r7);
    let c = (!rd7 && rr7) || (rr7 && r7) || (r7 && !rd7);
    (res, apply_arith(sreg, h, v, r7, res == 0, c))
}

/// The status after an increment or decrement with result `res`.
pub fn step_with_status(sreg: u8, res: u8, sentinel: u8) -> (r: u8)
    ensures
        r == step_status(sreg, res, sentinel),
{
    let v = res == sentinel;
    let n = bit(res, 7);
    let s1 = update_flag(sreg, FLAG_S, n != v);
    let s2 = update_flag(s1, FLAG_V, v);
    let s3 = update_flag(s2, FLAG_N, n);
    update_flag(s3, FLAG_Z, res == 0)
}

/// The carry flag of an addition is set exactly when the unsigned sum exceeds 255.
pub proof fn lemma_add_carry_iff_wraps(a: u8, b: u8)
    ensures
        add_carry(a, b, add8(a, b)) <==> a + b > 255,
        add8(a, b) == (a + b) % 256,
{
    let r = add8(a, b);
    assert(r == (a + b) % 256);
    assert(((a >> 7u8) & 1 == 1 && (b >> 7u8) & 1 == 1) || ((b >> 7u8) & 1 == 1 && !((r >> 7u8) & 1 == 1))
        || (!((r >> 7u8) & 1 == 1) && (a >> 7u8) & 1 == 1) <==> a + b > 255) by (bit_vector)
        requires
            r == (a + b) % 256,
    ;
}

/// Reading a flag back after writing it gives what was written.
proof fn lemma_with_flag_reads_back(sreg: u8, mask: u8, on: bool)
    requires
        mask == FLAG_C || mask == FLAG_Z || mask == FLAG_N || mask == FLAG_V || mask == FLAG_S || mask
            == FLAG_H || mask == FLAG_T || mask == FLAG_I,
    ensures
        (with_flag(sreg, mask, on) & mask != 0) == on,
{
    if on {
        assert((sreg | mask) & mask != 0) by (bit_vector)
            requires
                mask != 0,
        ;
    } else {
        assert((sreg & !mask) & mask == 0) by (bit_vector);
    }
}

/// After an arithmetic instruction the carry bit of the status is the carry computed.
pub proof fn lemma_arith_status_carry(sreg: u8, h: bool, v: bool, n: bool, z: bool, c: bool)
    ensures
        (arith_status(sreg, h, v, n, z, c) & FLAG_C != 0) == c,
{
    let before = with_flag(
        with_flag(with_flag(with_flag(with_flag(sreg, FLAG_H, h), FLAG_S, n != v), FLAG_V, v), FLAG_N, n),
        FLAG_Z,
        z,
    );
    lemma_with_flag_reads_back(before, FLAG_C, c);
}

} // verus!
