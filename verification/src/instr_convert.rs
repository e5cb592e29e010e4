//! Width-conversion instruction handlers: sign-extending converts and
//! zero-extending moves between the integer widths.

use crate::arith::{half_of, in_size, max_of, signed_val, size_half, size_mod, trunc};
use crate::bus::VAXBus;
use crate::cpu::VAXCPU;
use crate::cycles::Cycles;
use crate::error::{Error, ErrorKind};
use crate::operands::{parse_read_operand, parse_write_operand};
use crate::DataSize;
use vstd::prelude::*;

verus! {

broadcast use crate::arith::lemma_size_mod_bounds;

/// A wider width has at least the modulus and sign weight of a narrower
/// one.
proof fn lemma_width_mono(a: DataSize, b: DataSize)
    requires
        a.byte_len_spec() <= b.byte_len_spec(),
    ensures
        size_half(a) <= size_half(b),
        size_mod(a) <= size_mod(b),
{
    match a {
        DataSize::Byte => {},
        DataSize::Word => {},
        DataSize::Longword => {},
        DataSize::Quadword => {},
        DataSize::Octaword => {},
    }
    match b {
        DataSize::Byte => {},
        DataSize::Word => {},
        DataSize::Longword => {},
        DataSize::Quadword => {},
        DataSize::Octaword => {},
    }
}

/// Executable modulus for the non-maximal widths.
fn small_mod_of(s: DataSize) -> (r: u128)
    requires
        s != DataSize::Octaword,
    ensures
        r as int == size_mod(s),
{
    match s {
        DataSize::Byte => 0x100,
        DataSize::Word => 0x1_0000,
        DataSize::Longword => 0x1_0000_0000,
        DataSize::Quadword => 0x1_0000_0000_0000_0000,
        DataSize::Octaword => 0,  // unreachable under the precondition
    }
}

/// Convert a value between widths with signed semantics: widening
/// sign-extends, narrowing truncates.
pub fn convert_signed(v: u128, from: DataSize, to: DataSize) -> (r: u128)
    requires
        in_size(v, from),
    ensures
        in_size(r, to),
        from.byte_len_spec() <= to.byte_len_spec() ==> signed_val(to, r as int) == signed_val(
            from,
            v as int,
        ),
        from.byte_len_spec() > to.byte_len_spec() ==> r as int == trunc(to, v as int),
{
    let wf_ = from.byte_len();
    let wt = to.byte_len();
    if wf_ <= wt {
        proof {
            lemma_width_mono(from, to);
        }
        let h = half_of(from);
        if v < h {
            v
        } else {
            let mf = max_of(from);
            let mt = max_of(to);
            v + (mt - mf)
        }
    } else {
        proof {
            if to == DataSize::Octaword {
                assert(from.byte_len_spec() <= 16) by {
                    match from {
                        DataSize::Byte => {},
                        DataSize::Word => {},
                        DataSize::Longword => {},
                        DataSize::Quadword => {},
                        DataSize::Octaword => {},
                    }
                }
                assert(false);
            }
        }
        let m = small_mod_of(to);
        v % m
    }
}

/// Convert a value between widths with unsigned semantics: widening keeps
/// the value, narrowing truncates.
pub fn convert_unsigned(v: u128, from: DataSize, to: DataSize) -> (r: u128)
    requires
        in_size(v, from),
    ensures
        in_size(r, to),
        from.byte_len_spec() <= to.byte_len_spec() ==> r == v,
        from.byte_len_spec() > to.byte_len_spec() ==> r as int == trunc(to, v as int),
{
    let wf_ = from.byte_len();
    let wt = to.byte_len();
    if wf_ <= wt {
        proof {
            lemma_width_mono(from, to);
        }
        v
    } else {
        proof {
            if to == DataSize::Octaword {
                assert(from.byte_len_spec() <= 16) by {
                    match from {
                        DataSize::Byte => {},
                        DataSize::Word => {},
                        DataSize::Longword => {},
                        DataSize::Quadword => {},
                        DataSize::Octaword => {},
                    }
                }
                assert(false);
            }
        }
        let m = small_mod_of(to);
        v % m
    }
}

/// Convert with sign extension (or truncation, for a narrowing pair): one
/// source operand of the `from` width, one destination of the `to` width.
pub fn instr_cvt<B: VAXBus>(
    cpu: &mut VAXCPU<B>,
    _cycle_count: &mut Cycles,
    from: DataSize,
    to: DataSize,
) -> (r: Result<(), Error>)
    requires
        old(cpu).wf(),
        old(cpu).has_bus(),
    ensures
        final(cpu).wf(),
        final(cpu).has_bus(),
        final(cpu).halted == old(cpu).halted,
        final(cpu).multi_instr_active == old(cpu).multi_instr_active,
        old(cpu).regfile.mapen ==> (r matches Err(e) && e.kind_spec()
            == ErrorKind::TranslationNotValid),
{
    let a = parse_read_operand(cpu, from)?.read(cpu, from)?;
    let mut o = parse_write_operand(cpu, to)?;
    o.validate(cpu)?;
    let v = convert_signed(a, from, to);
    o.execute(cpu, to, v)
}

/// Move with zero extension: one source operand of the `from` width, one
/// destination of the `to` width.
pub fn instr_movz<B: VAXBus>(
    cpu: &mut VAXCPU<B>,
    _cycle_count: &mut Cycles,
    from: DataSize,
    to: DataSize,
) -> (r: Result<(), Error>)
    requires
        old(cpu).wf(),
        old(cpu).has_bus(),
    ensures
        final(cpu).wf(),
        final(cpu).has_bus(),
        final(cpu).halted == old(cpu).halted,
        final(cpu).multi_instr_active == old(cpu).multi_instr_active,
        old(cpu).regfile.mapen ==> (r matches Err(e) && e.kind_spec()
            == ErrorKind::TranslationNotValid),
{
    let a = parse_read_operand(cpu, from)?.read(cpu, from)?;
    let mut o = parse_write_operand(cpu, to)?;
    o.validate(cpu)?;
    let v = convert_unsigned(a, from, to);
    o.execute(cpu, to, v)
}

} // verus!
