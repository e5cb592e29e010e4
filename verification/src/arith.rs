//! The flagged arithmetic layer: every data-manipulation operation of the
//! architecture computes a result together with the four condition flags,
//! under one of five operand widths.
//!
//! Each operation is implemented once, parameterized by [`DataSize`], and its
//! contract states the result and every flag exactly, over the mathematical
//! signed/unsigned interpretation of the operand bits.

use crate::DataSize;
use vstd::arithmetic::div_mod::{
    lemma_fundamental_div_mod, lemma_fundamental_div_mod_converse_div,
    lemma_fundamental_div_mod_converse_mod, lemma_small_mod,
};
use vstd::arithmetic::mul::lemma_mul_upper_bound;
use vstd::arithmetic::power2::{
    lemma2_to64, lemma2_to64_rest, lemma_pow2_adds, lemma_pow2_strictly_increases,
    lemma_pow2_unfold, pow2,
};
use vstd::prelude::*;

verus! {

/// The four integer condition flags: carry, overflow, zero, negative.
#[derive(Copy, Clone, Debug, Eq, PartialEq, Structural)]
pub struct CVZN {
    pub c: bool,
    pub v: bool,
    pub z: bool,
    pub n: bool,
}

impl CVZN {
    /// A flag record with every flag clear.
    pub fn blank() -> (r: CVZN)
        ensures
            r == (CVZN { c: false, v: false, z: false, n: false }),
    {
        CVZN { c: false, v: false, z: false, n: false }
    }

    pub fn get_c(self) -> (r: bool)
        ensures
            r == self.c,
    {
        self.c
    }

    pub fn set_c(&mut self, val: bool)
        ensures
            *final(self) == (CVZN { c: val, ..*old(self) }),
    {
        self.c = val;
    }

    pub fn get_v(self) -> (r: bool)
        ensures
            r == self.v,
    {
        self.v
    }

    pub fn set_v(&mut self, val: bool)
        ensures
            *final(self) == (CVZN { v: val, ..*old(self) }),
    {
        self.v = val;
    }

    pub fn get_z(self) -> (r: bool)
        ensures
            r == self.z,
    {
        self.z
    }

    pub fn set_z(&mut self, val: bool)
        ensures
            *final(self) == (CVZN { z: val, ..*old(self) }),
    {
        self.z = val;
    }

    pub fn get_n(self) -> (r: bool)
        ensures
            r == self.n,
    {
        self.n
    }

    pub fn set_n(&mut self, val: bool)
        ensures
            *final(self) == (CVZN { n: val, ..*old(self) }),
    {
        self.n = val;
    }
}

/// `2^w` for an operand of width `w` bits: the modulus of the width's
/// unsigned wraparound arithmetic.
pub open spec fn size_mod(s: DataSize) -> int {
    match s {
        DataSize::Byte => 0x100int,
        DataSize::Word => 0x1_0000int,
        DataSize::Longword => 0x1_0000_0000int,
        DataSize::Quadword => 0x1_0000_0000_0000_0000int,
        DataSize::Octaword => 0x1_0000_0000_0000_0000_0000_0000_0000_0000int,
    }
}

/// `2^(w-1)`: the weight of the sign bit, and the magnitude of the most
/// negative representable signed value.
pub open spec fn size_half(s: DataSize) -> int {
    match s {
        DataSize::Byte => 0x80int,
        DataSize::Word => 0x8000int,
        DataSize::Longword => 0x8000_0000int,
        DataSize::Quadword => 0x8000_0000_0000_0000int,
        DataSize::Octaword => 0x8000_0000_0000_0000_0000_0000_0000_0000int,
    }
}

/// The largest unsigned value of the width: `2^w - 1`.
pub open spec fn size_max(s: DataSize) -> int {
    size_mod(s) - 1
}

/// Whether `v` is a representable unsigned value of width `s`.
pub open spec fn in_size(v: u128, s: DataSize) -> bool {
    v as int <= size_max(s)
}

/// `x` reduced into the unsigned range of the width (Euclidean remainder,
/// so negative `x` lands on its two's-complement representative).
pub open spec fn trunc(s: DataSize, x: int) -> int {
    x % size_mod(s)
}

/// The signed (two's complement) reading of the unsigned representative `v`.
pub open spec fn signed_val(s: DataSize, v: int) -> int
    recommends
        0 <= v < size_mod(s),
{
    if v < size_half(s) {
        v
    } else {
        v - size_mod(s)
    }
}

/// Whether the unsigned representative `v` has its sign bit set.
pub open spec fn is_neg(s: DataSize, v: int) -> bool {
    v >= size_half(s)
}

/// Absolute value.
pub open spec fn abs1(x: int) -> int {
    if x < 0 {
        -x
    } else {
        x
    }
}

/// The quotient of the signed readings of `a` and `b`, truncated toward
/// zero, as architectural integer division demands.
pub open spec fn quot(s: DataSize, a: int, b: int) -> int {
    let sa = signed_val(s, a);
    let sb = signed_val(s, b);
    if (sa < 0) != (sb < 0) {
        -(abs1(sa) / abs1(sb))
    } else {
        abs1(sa) / abs1(sb)
    }
}

/// Executable form of [`size_max`].
pub fn max_of(s: DataSize) -> (r: u128)
    ensures
        r as int == size_max(s),
{
    match s {
        DataSize::Byte => 0xFF,
        DataSize::Word => 0xFFFF,
        DataSize::Longword => 0xFFFF_FFFF,
        DataSize::Quadword => 0xFFFF_FFFF_FFFF_FFFF,
        DataSize::Octaword => 0xFFFF_FFFF_FFFF_FFFF_FFFF_FFFF_FFFF_FFFF,
    }
}

/// Executable form of [`size_half`].
pub fn half_of(s: DataSize) -> (r: u128)
    ensures
        r as int == size_half(s),
{
    match s {
        DataSize::Byte => 0x80,
        DataSize::Word => 0x8000,
        DataSize::Longword => 0x8000_0000,
        DataSize::Quadword => 0x8000_0000_0000_0000,
        DataSize::Octaword => 0x8000_0000_0000_0000_0000_0000_0000_0000,
    }
}

/// Executable form of [`size_mod`], for the widths whose modulus fits in
/// `u128`.
fn mod_of(s: DataSize) -> (r: u128)
    requires
        s != DataSize::Octaword,
    ensures
        r as int == size_mod(s),
{
    match s {
        DataSize::Byte => 0x100,
        DataSize::Word => 0x1_0000,
        DataSize::Longword => 0x1_0000_0000,
        DataSize::Quadword => 0x1_0000_0000_0000_0000,
        DataSize::Octaword => 0,  // unreachable under the precondition
    }
}

/// The magnitude of the signed reading of `a`: `|signed_val(s, a)|`.
fn mag_of(s: DataSize, a: u128) -> (r: u128)
    requires
        in_size(a, s),
    ensures
        r as int == abs1(signed_val(s, a as int)),
        signed_val(s, a as int) == if is_neg(s, a as int) {
            -(r as int)
        } else {
            r as int
        },
        r as int <= size_half(s),
{
    let h = half_of(s);
    if a >= h {
        let m1 = max_of(s);
        (m1 - a) + 1
    } else {
        a
    }
}

/// Flagged addition: the sum under unsigned wraparound, with
/// carry = unsigned wraparound occurred, overflow = signed wraparound
/// occurred, and zero/negative describing the result.
pub fn flagged_add(s: DataSize, a: u128, b: u128) -> (res: (CVZN, u128))
    requires
        in_size(a, s),
        in_size(b, s),
    ensures
        res.1 as int == trunc(s, a + b),
        in_size(res.1, s),
        res.0.c == (a + b >= size_mod(s)),
        res.0.v == ((is_neg(s, a as int) == is_neg(s, b as int)) && (is_neg(s, res.1 as int)
            != is_neg(s, a as int))),
        res.0.z == (res.1 == 0),
        res.0.n == is_neg(s, res.1 as int),
{
    let m1 = max_of(s);
    let (r, carry): (u128, bool) = if b == 0 {
        (a, false)
    } else if a <= m1 - b {
        (a + b, false)
    } else {
        ((a - (m1 - b)) - 1, true)
    };
    proof {
        let m = size_mod(s);
        if a + b <= m1 {
            lemma_small_mod((a + b) as nat, m as nat);
        } else {
            lemma_fundamental_div_mod_converse_mod(a as int + b, m, 1, a as int + b - m);
        }
    }
    let h = half_of(s);
    let na = a >= h;
    let nb = b >= h;
    let nr = r >= h;
    (CVZN { c: carry, v: (na == nb) && (nr != na), z: r == 0, n: nr }, r)
}

/// Flagged subtraction: the difference under unsigned wraparound, with
/// carry = a borrow was needed, overflow = signed wraparound occurred.
pub fn flagged_sub(s: DataSize, a: u128, b: u128) -> (res: (CVZN, u128))
    requires
        in_size(a, s),
        in_size(b, s),
    ensures
        res.1 as int == trunc(s, a - b),
        in_size(res.1, s),
        res.0.c == (a < b),
        res.0.v == ((is_neg(s, a as int) != is_neg(s, b as int)) && (is_neg(s, res.1 as int)
            != is_neg(s, a as int))),
        res.0.z == (res.1 == 0),
        res.0.n == is_neg(s, res.1 as int),
{
    let m1 = max_of(s);
    let (r, borrow): (u128, bool) = if a >= b {
        (a - b, false)
    } else {
        ((a + (m1 - b)) + 1, true)
    };
    proof {
        let m = size_mod(s);
        if a >= b {
            lemma_small_mod((a - b) as nat, m as nat);
        } else {
            lemma_fundamental_div_mod_converse_mod(a as int - b, m, -1, a as int - b + m);
        }
    }
    let h = half_of(s);
    let na = a >= h;
    let nb = b >= h;
    let nr = r >= h;
    (CVZN { c: borrow, v: (na != nb) && (nr != na), z: r == 0, n: nr }, r)
}

/// Compare: a subtraction whose result is discarded and only the flags kept.
pub fn flagged_cmp(s: DataSize, a: u128, b: u128) -> (res: CVZN)
    requires
        in_size(a, s),
        in_size(b, s),
    ensures
        res == flagged_sub_flags(s, a, b),
{
    flagged_sub(s, a, b).0
}

/// The flag record a subtraction produces, as a spec-level function, so that
/// compare can promise exactly the subtraction's flags.
pub open spec fn flagged_sub_flags(s: DataSize, a: u128, b: u128) -> CVZN {
    let r = trunc(s, a - b);
    CVZN {
        c: a < b,
        v: (is_neg(s, a as int) != is_neg(s, b as int)) && (is_neg(s, r) != is_neg(s, a as int)),
        z: r == 0,
        n: is_neg(s, r),
    }
}

/// Flagged multiplication: the signed product truncated to the width;
/// overflow = the signed product is not representable; carry untouched.
pub fn flagged_mul(s: DataSize, a: u128, b: u128) -> (res: (CVZN, u128))
    requires
        in_size(a, s),
        in_size(b, s),
    ensures
        res.1 as int == trunc(s, a * b),
        in_size(res.1, s),
        res.0.c == false,
        res.0.v == !((-size_half(s) <= signed_val(s, a as int) * signed_val(s, b as int))
            && (signed_val(s, a as int) * signed_val(s, b as int) < size_half(s))),
        res.0.z == (res.1 == 0),
        res.0.n == is_neg(s, res.1 as int),
{
    let r: u128 = if let DataSize::Octaword = s {
        a.wrapping_mul(b)
    } else {
        proof {
            lemma_mul_upper_bound(a as int, 0xFFFF_FFFF_FFFF_FFFFu64 as int, b as int,
                0xFFFF_FFFF_FFFF_FFFFu64 as int);
        }
        (a * b) % mod_of(s)
    };
    let h = half_of(s);
    let na = a >= h;
    let nb = b >= h;
    let mag_a = mag_of(s, a);
    let mag_b = mag_of(s, b);
    let ghost sa = signed_val(s, a as int);
    let ghost sb = signed_val(s, b as int);
    proof {
        assert(sa * sb == (if na != nb {
            -(mag_a as int * mag_b as int)
        } else {
            mag_a as int * mag_b as int
        })) by (nonlinear_arith)
            requires
                sa == (if na {
                    -(mag_a as int)
                } else {
                    mag_a as int
                }),
                sb == (if nb {
                    -(mag_b as int)
                } else {
                    mag_b as int
                }),
        ;
    }
    let v: bool = match mag_a.checked_mul(mag_b) {
        None => true,
        Some(p) => if na != nb {
            p > h
        } else {
            p >= h
        },
    };
    let nr = r >= h;
    (CVZN { c: false, v, z: r == 0, n: nr }, r)
}

/// Flagged division, truncating toward zero. Division by zero sets the
/// overflow flag and yields zero instead of trapping; dividing the most
/// negative value by minus one overflows and wraps.
pub fn flagged_div(s: DataSize, a: u128, b: u128) -> (res: (CVZN, u128))
    requires
        in_size(a, s),
        in_size(b, s),
    ensures
        b == 0 ==> res == (CVZN { c: false, v: true, z: false, n: false }, 0u128),
        b != 0 ==> {
            &&& res.1 as int == trunc(s, quot(s, a as int, b as int))
            &&& in_size(res.1, s)
            &&& res.0.c == false
            &&& res.0.v == (quot(s, a as int, b as int) == size_half(s))
            &&& res.0.z == (res.1 == 0)
            &&& res.0.n == is_neg(s, res.1 as int)
        },
{
    if b == 0 {
        return (CVZN { c: false, v: true, z: false, n: false }, 0);
    }
    let h = half_of(s);
    let m1 = max_of(s);
    let na = a >= h;
    let nb = b >= h;
    let mag_a = mag_of(s, a);
    let mag_b = mag_of(s, b);
    let qm = mag_a / mag_b;
    proof {
        assert(qm <= mag_a) by (nonlinear_arith)
            requires
                mag_b >= 1,
                qm == mag_a / mag_b,
        ;
    }
    let (r, v): (u128, bool) = if na != nb {
        if qm == 0 {
            (0, false)
        } else {
            proof {
                lemma_fundamental_div_mod_converse_mod(
                    -(qm as int),
                    size_mod(s),
                    -1,
                    size_mod(s) - qm,
                );
            }
            ((m1 - qm) + 1, false)
        }
    } else {
        proof {
            lemma_small_mod(qm as nat, size_mod(s) as nat);
        }
        (qm, qm >= h)
    };
    proof {
        if qm == 0 {
            lemma_small_mod(0, size_mod(s) as nat);
        }
    }
    let nr = r >= h;
    (CVZN { c: false, v, z: r == 0, n: nr }, r)
}

/// Flagged two's-complement negate: carry is set exactly when the result is
/// nonzero, overflow exactly when the operand is the most negative value.
pub fn flagged_neg(s: DataSize, a: u128) -> (res: (CVZN, u128))
    requires
        in_size(a, s),
    ensures
        res.1 as int == trunc(s, -a),
        in_size(res.1, s),
        res.0.c == (res.1 != 0),
        res.0.v == (a as int == size_half(s)),
        res.0.z == (res.1 == 0),
        res.0.n == is_neg(s, res.1 as int),
{
    let m1 = max_of(s);
    let r: u128 = if a == 0 {
        proof {
            lemma_small_mod(0, size_mod(s) as nat);
        }
        0
    } else {
        proof {
            lemma_fundamental_div_mod_converse_mod(-(a as int), size_mod(s), -1, size_mod(s) - a);
        }
        (m1 - a) + 1
    };
    let h = half_of(s);
    (CVZN { c: r != 0, v: a == h, z: r == 0, n: r >= h }, r)
}

/// The zero/negative-only flag computation used by instructions that merely
/// move or test a value: carry and overflow come out clear.
pub fn calc_nz(s: DataSize, v: u128) -> (res: CVZN)
    requires
        in_size(v, s),
    ensures
        res.c == false,
        res.v == false,
        res.z == (v == 0),
        res.n == is_neg(s, v as int),
{
    let h = half_of(s);
    CVZN { c: false, v: false, z: v == 0, n: v >= h }
}

/// `2^k`, computed by repeated doubling.
fn pow2_u128(k: u32) -> (r: u128)
    requires
        k < 128,
    ensures
        r as int == pow2(k as nat),
        r >= 1,
{
    proof {
        lemma2_to64();
    }
    let mut r: u128 = 1;
    let mut i: u32 = 0;
    while i < k
        invariant
            i <= k < 128,
            r as int == pow2(i as nat),
        decreases k - i,
    {
        proof {
            lemma_pow2_unfold((i + 1) as nat);
            lemma_pow2_le_max((i + 1) as nat);
        }
        r = r * 2;
        i = i + 1;
    }
    proof {
        vstd::arithmetic::power2::lemma_pow2_pos(k as nat);
    }
    r
}

/// `pow2` stays within `u128` below exponent 128.
proof fn lemma_pow2_le_max(e: nat)
    requires
        e < 128,
    ensures
        pow2(e) < 0x1_0000_0000_0000_0000_0000_0000_0000_0000,
{
    lemma2_to64();
    lemma2_to64_rest();
    lemma_pow2_adds(64, 64);
    if e < 127 {
        lemma_pow2_strictly_increases(e, 127);
    }
    lemma_pow2_adds(64, 63);
}

/// The width's modulus and sign weight are the powers of two of its bit
/// length.
proof fn lemma_size_pow2(s: DataSize)
    ensures
        size_mod(s) == pow2(s.bit_len_spec()),
        size_half(s) == pow2((s.bit_len_spec() - 1) as nat),
{
    lemma2_to64();
    lemma2_to64_rest();
    lemma_pow2_adds(64, 63);
    lemma_pow2_adds(64, 64);
}

/// Flagged arithmetic shift. A positive count shifts left, multiplying by a
/// power of two under wraparound and setting overflow exactly when the
/// signed value no longer fits (some shifted-out bit differs from the final
/// sign bit); a negative count shifts right arithmetically, flooring the
/// signed value, and never sets overflow.
pub fn flagged_ash(s: DataSize, a: u128, cnt: i8) -> (res: (CVZN, u128))
    requires
        in_size(a, s),
    ensures
        in_size(res.1, s),
        res.0.c == false,
        res.0.z == (res.1 == 0),
        res.0.n == is_neg(s, res.1 as int),
        cnt >= 0 ==> res.1 as int == trunc(s, a * pow2(cnt as nat)),
        cnt >= 0 ==> res.0.v == !((-size_half(s) <= signed_val(s, a as int) * pow2(cnt as nat))
            && (signed_val(s, a as int) * pow2(cnt as nat) < size_half(s))),
        cnt < 0 ==> res.1 as int == trunc(s, signed_val(s, a as int) / (pow2((-(cnt as int)) as nat) as int)),
        cnt < 0 ==> res.0.v == false,
{
    let bits: u32 = (s.byte_len() * 8) as u32;
    let h = half_of(s);
    let m1 = max_of(s);
    proof {
        lemma_size_pow2(s);
    }
    let ghost sa = signed_val(s, a as int);
    let ghost m = size_mod(s);
    if cnt >= 0 {
        let k = cnt as u32;
        proof {
            assert(k as nat == cnt as nat);
        }
        if k >= bits {
            // Every bit is shifted out: the result is zero, and the value
            // fits only if the operand was zero.
            proof {
                lemma_pow2_adds(s.bit_len_spec(), (k - bits) as nat);
                assert(a * pow2(k as nat) == (a * pow2((k - bits) as nat)) * m)
                    by (nonlinear_arith)
                    requires
                        pow2(k as nat) == m * pow2((k - bits) as nat),
                ;
                vstd::arithmetic::div_mod::lemma_mod_multiples_basic(
                    a as int * pow2((k - bits) as nat),
                    m,
                );
                if a != 0 {
                    lemma_pow2_strictly_increases((s.bit_len_spec() - 1) as nat, k as nat);
                    vstd::arithmetic::power2::lemma_pow2_pos(k as nat);
                    assert(abs1(sa * pow2(k as nat)) == abs1(sa) * pow2(k as nat))
                        by (nonlinear_arith)
                        requires
                            pow2(k as nat) >= 1,
                    ;
                    assert(abs1(sa * pow2(k as nat)) >= pow2(k as nat)) by (nonlinear_arith)
                        requires
                            abs1(sa) >= 1,
                            pow2(k as nat) >= 1,
                            abs1(sa * pow2(k as nat)) == abs1(sa) * pow2(k as nat),
                    ;
                    assert(sa * pow2(k as nat) >= size_half(s) || sa * pow2(k as nat)
                        < -size_half(s));
                } else {
                    assert(sa == 0);
                    assert(sa * pow2(k as nat) == 0) by (nonlinear_arith)
                        requires
                            sa == 0,
                    ;
                }
            }
            let v = a != 0;
            (CVZN { c: false, v, z: true, n: false }, 0)
        } else {
            let p2 = pow2_u128(k);
            proof {
                if k < bits - 1 {
                    lemma_pow2_strictly_increases(k as nat, (s.bit_len_spec() - 1) as nat);
                }
            }
            let r: u128 = if let DataSize::Octaword = s {
                a.wrapping_mul(p2)
            } else {
                proof {
                    lemma_mul_upper_bound(a as int, 0xFFFF_FFFF_FFFF_FFFFu64 as int, p2 as int,
                        0x8000_0000_0000_0000u64 as int);
                }
                (a * p2) % mod_of(s)
            };
            let na = a >= h;
            let mag = mag_of(s, a);
            // `size_half` is an exact multiple of `p2`, so the fit test is a
            // single division-free comparison against `half / p2`.
            let hdiv = h / p2;
            proof {
                vstd::arithmetic::power2::lemma_pow2_subtracts(k as nat,
                    (s.bit_len_spec() - 1) as nat);
                vstd::arithmetic::power2::lemma_pow2_pos(((s.bit_len_spec() - 1) - k) as nat);
                lemma_pow2_adds(((s.bit_len_spec() - 1) - k) as nat, k as nat);
                assert(size_half(s) == hdiv * p2) by (nonlinear_arith)
                    requires
                        hdiv as int == pow2(((s.bit_len_spec() - 1) - k) as nat),
                        p2 as int == pow2(k as nat),
                        size_half(s) == pow2((s.bit_len_spec() - 1) as nat),
                        pow2((s.bit_len_spec() - 1) as nat) == pow2(
                            ((s.bit_len_spec() - 1) - k) as nat,
                        ) * pow2(k as nat),
                ;
                if na {
                    assert((mag > hdiv) == !(-size_half(s) <= sa * p2 && sa * p2 < size_half(s)))
                        by (nonlinear_arith)
                        requires
                            sa == -(mag as int),
                            size_half(s) == hdiv * p2,
                            p2 >= 1,
                            mag >= 1,
                            hdiv >= 1,
                    ;
                } else {
                    assert((a >= hdiv) == !(-size_half(s) <= sa * p2 && sa * p2 < size_half(s)))
                        by (nonlinear_arith)
                        requires
                            sa == a as int,
                            a >= 0,
                            size_half(s) == hdiv * p2,
                            p2 >= 1,
                            hdiv >= 1,
                    ;
                }
            }
            let v = if na {
                mag > hdiv
            } else {
                a >= hdiv
            };
            let nr = r >= h;
            (CVZN { c: false, v, z: r == 0, n: nr }, r)
        }
    } else {
        let k: u32 = (-(cnt as i32)) as u32;
        let na = a >= h;
        let mag = mag_of(s, a);
        let ghost kp = pow2(k as nat) as int;
        if k >= bits {
            // The shift clears every value bit: only the sign remains.
            proof {
                if k > bits {
                    lemma_pow2_strictly_increases(s.bit_len_spec(), k as nat);
                }
                if !na {
                    lemma_fundamental_div_mod_converse_div(sa, kp, 0, sa);
                    lemma_small_mod(0, m as nat);
                } else {
                    lemma_fundamental_div_mod_converse_div(sa, kp, -1, sa + kp);
                    lemma_fundamental_div_mod_converse_mod(-1, m, -1, m - 1);
                }
            }
            let r: u128 = if na {
                m1
            } else {
                0
            };
            (CVZN { c: false, v: false, z: r == 0, n: r >= h }, r)
        } else {
            let p2 = pow2_u128(k);
            proof {
                if k < bits - 1 {
                    lemma_pow2_strictly_increases(k as nat, (s.bit_len_spec() - 1) as nat);
                }
            }
            let r: u128 = if !na {
                let q = a / p2;
                proof {
                    lemma_small_mod(q as nat, m as nat);
                }
                q
            } else {
                // Flooring a negative value is negated rounding-up of its
                // magnitude.
                let t = (mag + (p2 - 1)) / p2;
                proof {
                    lemma_fundamental_div_mod(mag as int + p2 - 1, p2 as int);
                    let rr = (mag as int + p2 - 1) % p2 as int;
                    assert(t * p2 == p2 * t) by (nonlinear_arith);
                    assert(t * p2 == mag + p2 - 1 - rr);
                    assert(t >= 1) by (nonlinear_arith)
                        requires
                            t * p2 >= mag,
                            mag >= 1,
                            p2 >= 1,
                    ;
                    assert(t <= mag) by (nonlinear_arith)
                        requires
                            t * p2 <= mag + p2 - 1,
                            p2 >= 1,
                            mag >= 1,
                            t >= 1,
                    ;
                    assert((-(t as int)) * (p2 as int) == -(t * p2)) by (nonlinear_arith);
                    lemma_fundamental_div_mod_converse_div(sa, p2 as int, -(t as int),
                        t * p2 - mag);
                    lemma_fundamental_div_mod_converse_mod(-(t as int), m, -1, m - t);
                }
                (m1 - t) + 1
            };
            (CVZN { c: false, v: false, z: r == 0, n: r >= h }, r)
        }
    }
}

/// The width moduli are bounded and consistent: ambient facts the rest of
/// the crate leans on wherever a width appears.
pub broadcast proof fn lemma_size_mod_bounds(s: DataSize)
    ensures
        0x100 <= #[trigger] size_mod(s) <= 0x1_0000_0000_0000_0000_0000_0000_0000_0000,
        size_half(s) * 2 == size_mod(s),
{
    match s {
        DataSize::Byte => {},
        DataSize::Word => {},
        DataSize::Longword => {},
        DataSize::Quadword => {},
        DataSize::Octaword => {},
    }
}

/// Bitwise combinations of two values of a width stay within the width.
pub proof fn lemma_bitops_fit(s: DataSize, a: u128, b: u128)
    requires
        in_size(a, s),
        in_size(b, s),
    ensures
        in_size(a | b, s),
        in_size(a & b, s),
        in_size(a ^ b, s),
{
    let mx: u128 = (size_mod(s) - 1) as u128;
    assert(size_mod(s) - 1 == mx as int) by {
        lemma_size_mod_bounds(s);
    }
    assert(mx == 0xFFu128 || mx == 0xFFFFu128 || mx == 0xFFFF_FFFFu128 || mx
        == 0xFFFF_FFFF_FFFF_FFFFu128 || mx == 0xFFFF_FFFF_FFFF_FFFF_FFFF_FFFF_FFFF_FFFFu128) by {
        match s {
            DataSize::Byte => {},
            DataSize::Word => {},
            DataSize::Longword => {},
            DataSize::Quadword => {},
            DataSize::Octaword => {},
        }
    }
    assert((a | b) <= mx && (a & b) <= mx && (a ^ b) <= mx) by (bit_vector)
        requires
            a <= mx,
            b <= mx,
            mx == 0xFFu128 || mx == 0xFFFFu128 || mx == 0xFFFF_FFFFu128 || mx
                == 0xFFFF_FFFF_FFFF_FFFFu128 || mx
                == 0xFFFF_FFFF_FFFF_FFFF_FFFF_FFFF_FFFF_FFFFu128,
    ;
}

/// A flagged addition followed by a flagged subtraction of the same operand
/// returns to the original value, at every operand width.
pub proof fn lemma_add_sub_roundtrip(s: DataSize, a: u128, b: u128)
    requires
        in_size(a, s),
        in_size(b, s),
    ensures
        trunc(s, trunc(s, a + b) - b) == a,
{
    let m = size_mod(s);
    let x = a as int + b;
    lemma_fundamental_div_mod(x, m);
    let q = x / m;
    assert(trunc(s, a + b) == x - q * m);
    lemma_fundamental_div_mod_converse_mod(x - q * m - b, m, -q, a as int);
}

} // verus!
