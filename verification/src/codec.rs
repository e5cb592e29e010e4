//! The byte codec: fixed-width integers to and from little-endian byte
//! sequences, the foundation of every memory access.

use crate::arith::{in_size, size_mod};
use crate::DataSize;
use vstd::arithmetic::div_mod::lemma_fundamental_div_mod;
use vstd::arithmetic::power2::{
    lemma2_to64, lemma2_to64_rest, lemma_pow2_adds, lemma_pow2_pos, lemma_pow2_strictly_increases,
    pow2,
};
use vstd::prelude::*;

verus! {

/// The integer a little-endian byte sequence denotes: the first byte is the
/// least significant.
pub open spec fn le_val(bs: Seq<u8>) -> int
    decreases bs.len(),
{
    if bs.len() == 0 {
        0
    } else {
        bs[0] + 0x100 * le_val(bs.skip(1))
    }
}

/// A little-endian byte sequence denotes a value below `2^(8·len)`.
pub proof fn lemma_le_val_bound(bs: Seq<u8>)
    ensures
        0 <= le_val(bs) < pow2((8 * bs.len()) as nat),
    decreases bs.len(),
{
    lemma2_to64();
    if bs.len() == 0 {
    } else {
        lemma_le_val_bound(bs.skip(1));
        lemma_pow2_adds(8, (8 * (bs.len() - 1)) as nat);
        let rest = le_val(bs.skip(1));
        let p = pow2((8 * (bs.len() - 1)) as nat) as int;
        assert(bs[0] + 0x100 * rest < pow2((8 * bs.len()) as nat)) by (nonlinear_arith)
            requires
                0 <= rest < p,
                bs[0] < 0x100,
                pow2((8 * bs.len()) as nat) == pow2(8nat) * p,
                pow2(8nat) == 0x100,
        ;
        assert(0 <= 0x100 * rest) by (nonlinear_arith)
            requires
                rest >= 0,
        ;
    }
}

/// Appending a byte adds it at the most significant position.
pub proof fn lemma_le_val_push(bs: Seq<u8>, b: u8)
    ensures
        le_val(bs.push(b)) == le_val(bs) + pow2((8 * bs.len()) as nat) * b,
    decreases bs.len(),
{
    lemma2_to64();
    if bs.len() == 0 {
        assert(bs.push(b) =~= seq![b]);
        assert(seq![b].skip(1) =~= Seq::<u8>::empty());
        assert(pow2(0nat) * b == b) by (nonlinear_arith)
            requires
                pow2(0nat) == 1,
        ;
        assert(le_val(bs.push(b)) == b) by {
            reveal_with_fuel(le_val, 3);
        }
    } else {
        assert(bs.push(b).skip(1) =~= bs.skip(1).push(b));
        lemma_le_val_push(bs.skip(1), b);
        lemma_pow2_adds(8, (8 * (bs.len() - 1)) as nat);
        let p = pow2((8 * (bs.len() - 1)) as nat) as int;
        let rest = le_val(bs.skip(1));
        assert(bs[0] + 0x100 * (rest + p * b) == (bs[0] + 0x100 * rest) + pow2(
            (8 * bs.len()) as nat,
        ) * b) by (nonlinear_arith)
            requires
                pow2((8 * bs.len()) as nat) == pow2(8nat) * p,
                pow2(8nat) == 0x100,
        ;
    }
}

/// The operand widths span at most sixteen bytes, so a full-width sequence
/// denotes a value of the width.
pub proof fn lemma_le_val_fits(bs: Seq<u8>, s: DataSize)
    requires
        bs.len() == s.byte_len_spec(),
    ensures
        0 <= le_val(bs) < size_mod(s),
{
    lemma_le_val_bound(bs);
    lemma_size_mod_is_pow2(s);
}

/// The width's modulus is `pow2` of its bit length.
proof fn lemma_size_mod_is_pow2(s: DataSize)
    ensures
        size_mod(s) == pow2((8 * s.byte_len_spec()) as nat),
{
    lemma2_to64();
    lemma2_to64_rest();
    lemma_pow2_adds(64, 64);
}

/// `pow2(8·k)` for `k` at most sixteen stays within the range of `u128`
/// arithmetic.
proof fn lemma_pow2_value_le_16(k: nat)
    requires
        k <= 16,
    ensures
        pow2((8 * k) as nat) <= 0x1_0000_0000_0000_0000_0000_0000_0000_0000,
        pow2((8 * k) as nat) >= 1,
{
    lemma2_to64();
    lemma2_to64_rest();
    lemma_pow2_adds(64, 64);
    lemma_pow2_pos((8 * k) as nat);
    if 8 * k < 128 {
        lemma_pow2_strictly_increases((8 * k) as nat, 128);
    }
}

/// Decode a little-endian byte sequence of at most sixteen bytes.
pub fn val_of_le_bytes(bytes: &[u8]) -> (r: u128)
    requires
        bytes@.len() <= 16,
    ensures
        r as int == le_val(bytes@),
{
    let n = bytes.len();
    let mut v: u128 = 0;
    let mut i: usize = n;
    proof {
        lemma2_to64();
        assert(bytes@.skip(n as int) =~= Seq::<u8>::empty());
    }
    while i > 0
        invariant
            i <= n == bytes@.len() <= 16,
            v as int == le_val(bytes@.skip(i as int)),
            v < pow2((8 * (n - i)) as nat),
        decreases i,
    {
        proof {
            lemma2_to64();
            let rest1 = bytes@.skip(i - 1);
            assert(rest1[0] == bytes@[i - 1]);
            assert(rest1.skip(1) =~= bytes@.skip(i as int));
            lemma_pow2_adds(8, (8 * (n - i)) as nat);
            lemma_pow2_value_le_16((n - i + 1) as nat);
            assert(v * 0x100 + bytes@[i - 1] < pow2((8 * (n - i + 1)) as nat))
                by (nonlinear_arith)
                requires
                    v < pow2((8 * (n - i)) as nat),
                    bytes@[i - 1] < 0x100,
                    pow2((8 * (n - i + 1)) as nat) == pow2(8nat) * pow2((8 * (n - i)) as nat),
                    pow2(8nat) == 0x100,
            ;
        }
        i = i - 1;
        v = v * 0x100 + (bytes[i] as u128);
    }
    proof {
        assert(bytes@.skip(0) =~= bytes@);
    }
    v
}

/// Encode a value of the given width as its little-endian bytes.
pub fn le_bytes_of_val(s: DataSize, v: u128) -> (r: Vec<u8>)
    requires
        in_size(v, s),
    ensures
        r@.len() == s.byte_len_spec(),
        le_val(r@) == v,
{
    let n = s.byte_len();
    let mut out: Vec<u8> = Vec::new();
    let mut rem: u128 = v;
    let mut i: usize = 0;
    proof {
        lemma2_to64();
        assert(pow2(0nat) * (rem as int) == rem) by (nonlinear_arith)
            requires
                pow2(0nat) == 1,
        ;
    }
    while i < n
        invariant
            i <= n <= 16,
            out@.len() == i,
            v as int == le_val(out@) + pow2((8 * i) as nat) * rem,
        decreases n - i,
    {
        let b: u8 = (rem % 0x100) as u8;
        let rem2 = rem / 0x100;
        proof {
            lemma2_to64();
            lemma_le_val_push(out@, b);
            lemma_pow2_adds((8 * i) as nat, 8);
            lemma_fundamental_div_mod(rem as int, 0x100);
            let p = pow2((8 * i) as nat) as int;
            assert(p * (b + 0x100 * rem2) == p * b + pow2((8 * (i + 1)) as nat) * rem2)
                by (nonlinear_arith)
                requires
                    pow2((8 * (i + 1)) as nat) == p * pow2(8nat),
                    pow2(8nat) == 0x100,
            ;
        }
        out.push(b);
        rem = rem2;
        i = i + 1;
    }
    proof {
        // After the last byte the remainder is zero: the value fits the
        // width.
        lemma_le_val_bound(out@);
        lemma_size_mod_is_pow2(s);
        let p = pow2((8 * n) as nat) as int;
        if rem > 0 {
            assert(p * rem >= p) by (nonlinear_arith)
                requires
                    rem >= 1,
                    p >= 1,
            ;
        }
        assert(p * 0 == 0) by (nonlinear_arith);
    }
    out
}

} // verus!
