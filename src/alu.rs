use vstd::prelude::*;
use crate::registers::{Flag, Reg, Registers, flags_byte, lemma_flags_byte, wrap8, wrap16};

verus! {

/// 1 for `true`, 0 for `false`.
pub open spec fn bit_of(b: bool) -> int {
    if b {
        1
    } else {
        0
    }
}

/// The register file after 8-bit operation `op` on register `dst` with operand `b`:
/// 0 add, 1 add with carry, 2 subtract, 3 subtract with carry, 4 and, 5 xor, 6 or,
/// 7 compare (a subtraction that keeps its result out of `dst`).
pub open spec fn alu_regs(r: Registers, op: u8, dst: Reg, b: u8) -> Registers {
    let a = r.reg(dst);
    let cin = if op == 1 || op == 3 {
        bit_of(r.flag(Flag::C))
    } else {
        0
    };
    if op <= 1 {
        let res = wrap8(a + b + cin);
        r.with_reg(dst, res).with_flags(res == 0, false, a % 16 + b % 16 + cin >= 16, a + b + cin >= 256)
    } else if op <= 3 || op == 7 {
        let res = wrap8(a - b - cin);
        let kept = if op == 7 {
            r
        } else {
            r.with_reg(dst, res)
        };
        kept.with_flags(res == 0, true, a % 16 < b % 16 + cin, a < b + cin)
    } else if op == 4 {
        r.with_reg(dst, a & b).with_flags(a & b == 0, false, true, false)
    } else if op == 5 {
        r.with_reg(dst, a ^ b).with_flags(a ^ b == 0, false, false, false)
    } else {
        r.with_reg(dst, a | b).with_flags(a | b == 0, false, false, false)
    }
}

/// The result of shift/rotate `op` on `v` with carry-in `cin`: 0 rotate left circular,
/// 1 rotate right circular, 2 rotate left through carry, 3 rotate right through carry,
/// 4 shift left, 5 arithmetic shift right, 6 swap nibbles, 7 logical shift right.
pub open spec fn shift_result(op: u8, v: u8, cin: bool) -> u8 {
    if op == 0 {
        ((v * 2) % 256 + v / 128) as u8
    } else if op == 1 {
        (v / 2 + (v % 2) * 128) as u8
    } else if op == 2 {
        ((v * 2) % 256 + bit_of(cin)) as u8
    } else if op == 3 {
        (v / 2 + bit_of(cin) * 128) as u8
    } else if op == 4 {
        ((v * 2) % 256) as u8
    } else if op == 5 {
        (v / 2 + (v / 128) * 128) as u8
    } else if op == 6 {
        ((v % 16) * 16 + v / 16) as u8
    } else {
        (v / 2) as u8
    }
}

/// The bit that shift/rotate `op` moves out of `v` into the carry.
pub open spec fn shift_carry(op: u8, v: u8) -> bool {
    if op == 0 || op == 2 || op == 4 {
        v >= 128
    } else if op == 6 {
        false
    } else {
        v % 2 == 1
    }
}

/// The accumulator and carry after decimal adjustment, from the accumulator and the
/// subtract, half-carry and carry flags left by the last addition or subtraction.
pub open spec fn daa_result(a: u8, n: bool, h: bool, c: bool) -> (u8, bool) {
    let low = h || (!n && a % 16 > 9);
    let high = c || (!n && a > 0x99);
    let corr = (if low { 6int } else { 0 }) + (if high { 0x60int } else { 0 });
    (if n { wrap8(a - corr) } else { wrap8(a + corr) }, high)
}

/// Applies 8-bit operation `op` (see `alu_regs`) to register `dst` and `b`.
pub fn alu(regs: &mut Registers, op: u8, dst: Reg, b: u8)
    requires
        old(regs).wf(),
        op < 8,
    ensures
        final(regs).wf(),
        *final(regs) == alu_regs(*old(regs), op, dst, b),
{
    let a = regs.get_reg(dst);
    let cf = regs.get_flag(Flag::C);
    let cin: u16 = if (op == 1 || op == 3) && cf {
        1
    } else {
        0
    };
    if op <= 1 {
        let s: u16 = a as u16 + b as u16 + cin;
        let res = (s % 256) as u8;
        regs.set_reg(dst, res);
        regs.set_flags(res == 0, false, (a % 16) as u16 + (b % 16) as u16 + cin >= 16, s >= 256);
    } else if op <= 3 || op == 7 {
        let d: u16 = a as u16 + 512 - b as u16 - cin;
        proof {
            vstd::arithmetic::div_mod::lemma_mod_multiples_vanish(2, a - b - cin, 256);
        }
        let res = (d % 256) as u8;
        if op != 7 {
            regs.set_reg(dst, res);
        }
        regs.set_flags(res == 0, true, ((a % 16) as u16) < (b % 16) as u16 + cin, (a as u16) < b as u16 + cin);
    } else if op == 4 {
        regs.set_reg(dst, a & b);
        regs.set_flags(a & b == 0, false, true, false);
    } else if op == 5 {
        regs.set_reg(dst, a ^ b);
        regs.set_flags(a ^ b == 0, false, false, false);
    } else {
        regs.set_reg(dst, a | b);
        regs.set_flags(a | b == 0, false, false, false);
    }
}

/// Shift/rotate `op` (see `shift_result`) of `v` with carry-in `cin`.
pub fn shift(op: u8, v: u8, cin: bool) -> (r: (u8, bool))
    requires
        op < 8,
    ensures
        r.0 == shift_result(op, v, cin),
        r.1 == shift_carry(op, v),
{
    let c: u16 = if cin {
        1
    } else {
        0
    };
    let w = v as u16;
    let res: u16 = if op == 0 {
        (w * 2) % 256 + w / 128
    } else if op == 1 {
        w / 2 + (w % 2) * 128
    } else if op == 2 {
        (w * 2) % 256 + c
    } else if op == 3 {
        w / 2 + c * 128
    } else if op == 4 {
        (w * 2) % 256
    } else if op == 5 {
        w / 2 + (w / 128) * 128
    } else if op == 6 {
        (w % 16) * 16 + w / 16
    } else {
        w / 2
    };
    let carry = if op == 0 || op == 2 || op == 4 {
        v >= 128
    } else if op == 6 {
        false
    } else {
        v % 2 == 1
    };
    (res as u8, carry)
}

/// Decimal adjustment of the accumulator (see `daa_result`).
pub fn decimal_adjust(a: u8, n: bool, h: bool, c: bool) -> (r: (u8, bool))
    ensures
        r == daa_result(a, n, h, c),
{
    let low = h || (!n && a % 16 > 9);
    let high = c || (!n && a > 0x99);
    let corr: u16 = (if low { 6 } else { 0 }) + (if high { 0x60 } else { 0 });
    let res: u16 = if n {
        proof {
            vstd::arithmetic::div_mod::lemma_mod_multiples_vanish(1, a - corr, 256);
        }
        (a as u16 + 256 - corr) % 256
    } else {
        (a as u16 + corr) % 256
    };
    (res as u8, high)
}

/// The flags of a 16-bit addition: half-carry out of bit 11 and carry out of bit 15.
pub open spec fn add16_flags(a: u16, b: u16) -> (bool, bool) {
    (a % 4096 + b % 4096 >= 4096, a + b >= 65536)
}

/// SP plus a signed displacement, with the flags of the unsigned low-byte addition.
pub open spec fn sp_offset(sp: u16, e: u8) -> (u16, bool, bool) {
    (wrap16(sp + if e < 128 { e as int } else { e - 256 }), sp % 16 + e % 16 >= 16, sp % 256 + e >= 256)
}

/// Computes `sp_offset`.
pub fn offset_sp(sp: u16, e: u8) -> (r: (u16, bool, bool))
    ensures
        r == sp_offset(sp, e),
{
    let sum: u16 = if e < 128 {
        sp.wrapping_add(e as u16)
    } else {
        sp.wrapping_sub(256 - e as u16)
    };
    (sum, sp % 16 + (e % 16) as u16 >= 16, sp % 256 + e as u16 >= 256)
}

/// Every 8-bit arithmetic or logical operation leaves the unused low nibble of the flags
/// byte clear, whatever the register file held before.
pub proof fn lemma_alu_flags_low_nibble(r: Registers, op: u8, dst: Reg, b: u8)
    ensures
        alu_regs(r, op, dst, b).F % 16 == 0,
{
    assert forall|z: bool, n: bool, h: bool, c: bool| #[trigger] flags_byte(z, n, h, c) % 16 == 0 by {
        lemma_flags_byte(z, n, h, c);
    }
}

/// Law of decimal adjustment: after adding two packed decimal bytes (digits `xh xl` and
/// `yh yl`), the adjustment gives the packed decimal sum modulo 100, with carry set exactly
/// when the decimal sum reaches 100.
pub proof fn lemma_daa_sum(xh: u8, xl: u8, yh: u8, yl: u8)
    requires
        xh <= 9 && xl <= 9 && yh <= 9 && yl <= 9,
    ensures
        ({
            let sum = xh * 16 + xl + yh * 16 + yl;
            let d = xh * 10 + xl + yh * 10 + yl;
            daa_result(wrap8(sum), false, xl + yl >= 16, sum >= 256) == (
            (((d % 100) / 10) * 16 + d % 10) as u8, d >= 100)
        }),
{
    lemma_daa_digits((xh + yh) as u16, (xl + yl) as u16);
}

/// Decimal adjustment over the digit sums `hi` and `lo` of two packed decimal bytes.
proof fn lemma_daa_digits(hi: u16, lo: u16)
    by (bit_vector)
    requires
        hi <= 18,
        lo <= 18,
    ensures
        ({
            let sum = hi * 16 + lo;
            let a = sum % 256;
            let low = lo >= 16 || a % 16 > 9;
            let high = sum >= 256 || a > 0x99;
            let corr = (if low { 6u16 } else { 0u16 }) + (if high { 0x60u16 } else { 0u16 });
            let d = hi * 10 + lo;
            &&& (a + corr) % 256 == ((d % 100) / 10) * 16 + d % 10
            &&& high == (d >= 100)
        }),
{
}

} // verus!
