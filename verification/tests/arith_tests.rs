//! Flagged-arithmetic layer tests: hand-computed reference values for each
//! operation and width.

use emutk_vax::arith::{
    calc_nz, flagged_add, flagged_ash, flagged_cmp, flagged_div, flagged_mul, flagged_neg,
    flagged_sub, CVZN,
};
use emutk_vax::DataSize;

#[test]
fn it_works() {
    assert_eq!(2 + 2, 4);
}

// A flagged add followed by a flagged subtract of the same operand returns
// to the original value, at every width; the reference case 0xFF + 0x01 on
// a byte yields 0x00 with carry and zero set, negative and overflow clear.
#[test]
fn add_sub_round_trip_reference() {
    let (f, v) = flagged_add(DataSize::Byte, 0xFF, 0x01);
    assert_eq!(v, 0x00);
    assert!(f.c);
    assert!(f.z);
    assert!(!f.n);
    assert!(!f.v);
    let (_, back) = flagged_sub(DataSize::Byte, v, 0x01);
    assert_eq!(back, 0xFF);

    let sizes = [
        DataSize::Byte,
        DataSize::Word,
        DataSize::Longword,
        DataSize::Quadword,
        DataSize::Octaword,
    ];
    let pairs: [(u128, u128); 4] = [(0, 0), (1, 0x7F), (0xFE, 0xFD), (0x80, 0x80)];
    for s in sizes {
        for (a, b) in pairs {
            let (_, sum) = flagged_add(s, a, b);
            let (_, diff) = flagged_sub(s, sum, b);
            assert_eq!(diff, a);
        }
    }
}

#[test]
fn add_signed_overflow() {
    // 0x7F + 0x01 on a byte: signed overflow, negative result, no carry.
    let (f, v) = flagged_add(DataSize::Byte, 0x7F, 0x01);
    assert_eq!(v, 0x80);
    assert!(!f.c);
    assert!(f.v);
    assert!(f.n);
    assert!(!f.z);
}

#[test]
fn sub_borrow_and_flags() {
    // 0 - 1 borrows and wraps to all ones.
    let (f, v) = flagged_sub(DataSize::Word, 0, 1);
    assert_eq!(v, 0xFFFF);
    assert!(f.c);
    assert!(f.n);
    assert!(!f.z);
    assert!(!f.v);
}

#[test]
fn cmp_is_sub_flags() {
    let f = flagged_cmp(DataSize::Longword, 5, 7);
    let (g, _) = flagged_sub(DataSize::Longword, 5, 7);
    assert_eq!(f, g);
}

#[test]
fn mul_truncates_and_overflows() {
    // 16 * 16 = 256 does not fit a byte: truncated to 0, overflow set.
    let (f, v) = flagged_mul(DataSize::Byte, 16, 16);
    assert_eq!(v, 0);
    assert!(f.v);
    assert!(f.z);
    // Signed multiply: (-2) * 3 = -6.
    let (f, v) = flagged_mul(DataSize::Byte, 0xFE, 3);
    assert_eq!(v, 0xFA);
    assert!(!f.v);
    assert!(f.n);
    // 5 * 5 at longword.
    let (f, v) = flagged_mul(DataSize::Longword, 5, 5);
    assert_eq!(v, 25);
    assert!(!f.v);
    assert!(!f.n);
    assert!(!f.z);
}

#[test]
fn div_truncates_toward_zero() {
    // (-7) / 2 = -3 (truncation, not flooring).
    let (f, v) = flagged_div(DataSize::Byte, 0xF9, 2);
    assert_eq!(v, 0xFD);
    assert!(!f.v);
    // Division by zero: overflow set, zero result, no trap.
    let (f, v) = flagged_div(DataSize::Longword, 123, 0);
    assert_eq!(v, 0);
    assert!(f.v);
    assert!(!f.z);
    assert!(!f.n);
    // The most negative value divided by minus one wraps with overflow.
    let (f, v) = flagged_div(DataSize::Byte, 0x80, 0xFF);
    assert_eq!(v, 0x80);
    assert!(f.v);
}

#[test]
fn ash_left_and_right() {
    // 1 << 4 = 16.
    let (f, v) = flagged_ash(DataSize::Byte, 1, 4);
    assert_eq!(v, 16);
    assert!(!f.v);
    // 0x40 << 1 overflows a signed byte: shifted-out bit differs from the
    // final sign.
    let (f, v) = flagged_ash(DataSize::Byte, 0x40, 1);
    assert_eq!(v, 0x80);
    assert!(f.v);
    assert!(f.n);
    // Arithmetic right shift floors: -1 >> 1 stays -1, never overflows.
    let (f, v) = flagged_ash(DataSize::Byte, 0xFF, -1);
    assert_eq!(v, 0xFF);
    assert!(!f.v);
    // A shift past the width clears everything.
    let (f, v) = flagged_ash(DataSize::Byte, 3, 9);
    assert_eq!(v, 0);
    assert!(f.v);
    assert!(f.z);
}

#[test]
fn neg_and_nz() {
    let (f, v) = flagged_neg(DataSize::Byte, 1);
    assert_eq!(v, 0xFF);
    assert!(f.c);
    assert!(f.n);
    assert!(!f.v);
    let (f, v) = flagged_neg(DataSize::Byte, 0);
    assert_eq!(v, 0);
    assert!(!f.c);
    assert!(f.z);
    // Negating the most negative value overflows.
    let (f, v) = flagged_neg(DataSize::Byte, 0x80);
    assert_eq!(v, 0x80);
    assert!(f.v);

    let f = calc_nz(DataSize::Word, 0x8000);
    assert!(f.n);
    assert!(!f.z);
    assert!(!f.c);
    assert!(!f.v);
}

#[test]
fn cvzn_accessors() {
    let mut f = CVZN::blank();
    assert!(!f.get_c() && !f.get_v() && !f.get_z() && !f.get_n());
    f.set_c(true);
    f.set_n(true);
    assert!(f.get_c());
    assert!(f.get_n());
    assert!(!f.get_v());
    f.set_c(false);
    assert!(!f.get_c());
    f.set_v(true);
    f.set_z(true);
    assert!(f.get_v() && f.get_z());
}
