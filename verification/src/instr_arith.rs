//! The arithmetic, logical and test instruction handlers. Each handler
//! resolves its operands through the addressing resolver, computes through
//! the flagged arithmetic layer, commits the condition flags atomically,
//! and stores its result.

use crate::arith::{
    calc_nz, flagged_add, flagged_ash, flagged_cmp, flagged_div, flagged_mul, flagged_neg,
    flagged_sub, in_size, lemma_bitops_fit, max_of,
};
use crate::bus::VAXBus;
use crate::cpu::VAXCPU;
use crate::cycles::Cycles;
use crate::error::{Error, ErrorKind};
use crate::operands::{
    parse_modify_operand, parse_read_operand, parse_write_operand, UnresolvedOperandModify,
    UnresolvedOperandWrite,
};
use crate::DataSize;
use vstd::prelude::*;

verus! {

broadcast use crate::arith::lemma_size_mod_bounds;

/// Three-operand add.
pub fn instr_add3<B: VAXBus>(cpu: &mut VAXCPU<B>, _cycle_count: &mut Cycles, size: DataSize) -> (r:
    Result<(), Error>)
    requires
        old(cpu).wf(),
        old(cpu).has_bus(),
    ensures
        final(cpu).wf(),
        final(cpu).has_bus(),
        final(cpu).halted == old(cpu).halted,
        final(cpu).multi_instr_active == old(cpu).multi_instr_active,
        old(cpu).regfile.mapen ==> (r matches Err(e) && e.kind_spec()
            == ErrorKind::TranslationNotValid),
{
    let a = parse_read_operand(cpu, size)?.read(cpu, size)?;
    let m = parse_read_operand(cpu, size)?.read(cpu, size)?;
    let o = parse_write_operand(cpu, size)?;
    let (flags, v) = flagged_add(size, a, m);
    cpu.commit_flags(flags);
    o.write(cpu, size, v)
}

/// Two-operand add.
pub fn instr_add2<B: VAXBus>(cpu: &mut VAXCPU<B>, _cycle_count: &mut Cycles, size: DataSize) -> (r:
    Result<(), Error>)
    requires
        old(cpu).wf(),
        old(cpu).has_bus(),
    ensures
        final(cpu).wf(),
        final(cpu).has_bus(),
        final(cpu).halted == old(cpu).halted,
        final(cpu).multi_instr_active == old(cpu).multi_instr_active,
        old(cpu).regfile.mapen ==> (r matches Err(e) && e.kind_spec()
            == ErrorKind::TranslationNotValid),
{
    let a = parse_read_operand(cpu, size)?.read(cpu, size)?;
    let mut o = parse_modify_operand(cpu, size)?;
    o.validate(cpu)?;
    let m = o.execute_read(cpu, size)?;
    let (flags, v) = flagged_add(size, a, m);
    cpu.commit_flags(flags);
    o.execute_write(cpu, size, v)
}

/// Three-operand subtract.
pub fn instr_sub3<B: VAXBus>(cpu: &mut VAXCPU<B>, _cycle_count: &mut Cycles, size: DataSize) -> (r:
    Result<(), Error>)
    requires
        old(cpu).wf(),
        old(cpu).has_bus(),
    ensures
        final(cpu).wf(),
        final(cpu).has_bus(),
        final(cpu).halted == old(cpu).halted,
        final(cpu).multi_instr_active == old(cpu).multi_instr_active,
        old(cpu).regfile.mapen ==> (r matches Err(e) && e.kind_spec()
            == ErrorKind::TranslationNotValid),
{
    let a = parse_read_operand(cpu, size)?.read(cpu, size)?;
    let m = parse_read_operand(cpu, size)?.read(cpu, size)?;
    let o = parse_write_operand(cpu, size)?;
    let (flags, v) = flagged_sub(size, a, m);
    cpu.commit_flags(flags);
    o.write(cpu, size, v)
}

/// Two-operand subtract.
pub fn instr_sub2<B: VAXBus>(cpu: &mut VAXCPU<B>, _cycle_count: &mut Cycles, size: DataSize) -> (r:
    Result<(), Error>)
    requires
        old(cpu).wf(),
        old(cpu).has_bus(),
    ensures
        final(cpu).wf(),
        final(cpu).has_bus(),
        final(cpu).halted == old(cpu).halted,
        final(cpu).multi_instr_active == old(cpu).multi_instr_active,
        old(cpu).regfile.mapen ==> (r matches Err(e) && e.kind_spec()
            == ErrorKind::TranslationNotValid),
{
    let a = parse_read_operand(cpu, size)?.read(cpu, size)?;
    let mut o = parse_modify_operand(cpu, size)?;
    o.validate(cpu)?;
    let m = o.execute_read(cpu, size)?;
    let (flags, v) = flagged_sub(size, a, m);
    cpu.commit_flags(flags);
    o.execute_write(cpu, size, v)
}

/// Three-operand multiply.
pub fn instr_mul3<B: VAXBus>(cpu: &mut VAXCPU<B>, _cycle_count: &mut Cycles, size: DataSize) -> (r:
    Result<(), Error>)
    requires
        old(cpu).wf(),
        old(cpu).has_bus(),
    ensures
        final(cpu).wf(),
        final(cpu).has_bus(),
        final(cpu).halted == old(cpu).halted,
        final(cpu).multi_instr_active == old(cpu).multi_instr_active,
        old(cpu).regfile.mapen ==> (r matches Err(e) && e.kind_spec()
            == ErrorKind::TranslationNotValid),
{
    let a = parse_read_operand(cpu, size)?.read(cpu, size)?;
    let m = parse_read_operand(cpu, size)?.read(cpu, size)?;
    let o = parse_write_operand(cpu, size)?;
    let (flags, v) = flagged_mul(size, a, m);
    cpu.commit_flags(flags);
    o.write(cpu, size, v)
}

/// Two-operand multiply.
pub fn instr_mul2<B: VAXBus>(cpu: &mut VAXCPU<B>, _cycle_count: &mut Cycles, size: DataSize) -> (r:
    Result<(), Error>)
    requires
        old(cpu).wf(),
        old(cpu).has_bus(),
    ensures
        final(cpu).wf(),
        final(cpu).has_bus(),
        final(cpu).halted == old(cpu).halted,
        final(cpu).multi_instr_active == old(cpu).multi_instr_active,
        old(cpu).regfile.mapen ==> (r matches Err(e) && e.kind_spec()
            == ErrorKind::TranslationNotValid),
{
    let a = parse_read_operand(cpu, size)?.read(cpu, size)?;
    let mut o = parse_modify_operand(cpu, size)?;
    o.validate(cpu)?;
    let m = o.execute_read(cpu, size)?;
    let (flags, v) = flagged_mul(size, a, m);
    cpu.commit_flags(flags);
    o.execute_write(cpu, size, v)
}

/// Three-operand divide.
pub fn instr_div3<B: VAXBus>(cpu: &mut VAXCPU<B>, _cycle_count: &mut Cycles, size: DataSize) -> (r:
    Result<(), Error>)
    requires
        old(cpu).wf(),
        old(cpu).has_bus(),
    ensures
        final(cpu).wf(),
        final(cpu).has_bus(),
        final(cpu).halted == old(cpu).halted,
        final(cpu).multi_instr_active == old(cpu).multi_instr_active,
        old(cpu).regfile.mapen ==> (r matches Err(e) && e.kind_spec()
            == ErrorKind::TranslationNotValid),
{
    let a = parse_read_operand(cpu, size)?.read(cpu, size)?;
    let m = parse_read_operand(cpu, size)?.read(cpu, size)?;
    let o = parse_write_operand(cpu, size)?;
    let (flags, v) = flagged_div(size, a, m);
    cpu.commit_flags(flags);
    o.write(cpu, size, v)
}

/// Two-operand divide.
pub fn instr_div2<B: VAXBus>(cpu: &mut VAXCPU<B>, _cycle_count: &mut Cycles, size: DataSize) -> (r:
    Result<(), Error>)
    requires
        old(cpu).wf(),
        old(cpu).has_bus(),
    ensures
        final(cpu).wf(),
        final(cpu).has_bus(),
        final(cpu).halted == old(cpu).halted,
        final(cpu).multi_instr_active == old(cpu).multi_instr_active,
        old(cpu).regfile.mapen ==> (r matches Err(e) && e.kind_spec()
            == ErrorKind::TranslationNotValid),
{
    let a = parse_read_operand(cpu, size)?.read(cpu, size)?;
    let mut o = parse_modify_operand(cpu, size)?;
    o.validate(cpu)?;
    let m = o.execute_read(cpu, size)?;
    let (flags, v) = flagged_div(size, a, m);
    cpu.commit_flags(flags);
    o.execute_write(cpu, size, v)
}

/// Three-operand bit set (inclusive or); carry preserved, overflow cleared.
pub fn instr_bis3<B: VAXBus>(cpu: &mut VAXCPU<B>, _cycle_count: &mut Cycles, size: DataSize) -> (r:
    Result<(), Error>)
    requires
        old(cpu).wf(),
        old(cpu).has_bus(),
    ensures
        final(cpu).wf(),
        final(cpu).has_bus(),
        final(cpu).halted == old(cpu).halted,
        final(cpu).multi_instr_active == old(cpu).multi_instr_active,
        old(cpu).regfile.mapen ==> (r matches Err(e) && e.kind_spec()
            == ErrorKind::TranslationNotValid),
        (r matches Ok(_) ==> final(cpu).regfile.psl@.carry == old(cpu).regfile.psl@.carry
            && final(cpu).regfile.psl@.overflow == false),
{
    let a = parse_read_operand(cpu, size)?.read(cpu, size)?;
    let m = parse_read_operand(cpu, size)?.read(cpu, size)?;
    let o = parse_write_operand(cpu, size)?;
    proof {
        lemma_bitops_fit(size, a, m);
    }
    let v = a | m;
    let mut flags = calc_nz(size, v);
    flags.set_c(cpu.regfile.get_psl().get_c());
    cpu.commit_flags(flags);
    let ghost rfb = cpu.regfile;
    let res = o.write(cpu, size, v);
    proof {
        match o {
            UnresolvedOperandWrite::RegWrite(rr) => rfb.lemma_ext_written_preserves_psl(
                rr,
                size,
                v,
            ),
            _ => {},
        }
    }
    res
}

/// Two-operand bit set (inclusive or); carry preserved, overflow cleared.
pub fn instr_bis2<B: VAXBus>(cpu: &mut VAXCPU<B>, _cycle_count: &mut Cycles, size: DataSize) -> (r:
    Result<(), Error>)
    requires
        old(cpu).wf(),
        old(cpu).has_bus(),
    ensures
        final(cpu).wf(),
        final(cpu).has_bus(),
        final(cpu).halted == old(cpu).halted,
        final(cpu).multi_instr_active == old(cpu).multi_instr_active,
        old(cpu).regfile.mapen ==> (r matches Err(e) && e.kind_spec()
            == ErrorKind::TranslationNotValid),
        (r matches Ok(_) ==> final(cpu).regfile.psl@.carry == old(cpu).regfile.psl@.carry
            && final(cpu).regfile.psl@.overflow == false),
{
    let a = parse_read_operand(cpu, size)?.read(cpu, size)?;
    let mut o = parse_modify_operand(cpu, size)?;
    o.validate(cpu)?;
    let m = o.execute_read(cpu, size)?;
    proof {
        lemma_bitops_fit(size, a, m);
    }
    let v = a | m;
    let mut flags = calc_nz(size, v);
    flags.set_c(cpu.regfile.get_psl().get_c());
    cpu.commit_flags(flags);
    let ghost rfb = cpu.regfile;
    let res = o.execute_write(cpu, size, v);
    proof {
        match o {
            UnresolvedOperandModify::Value(_, rr) => rfb.lemma_ext_written_preserves_psl(
                rr,
                size,
                v,
            ),
            _ => {},
        }
    }
    res
}

/// Three-operand bit clear; carry preserved, overflow cleared.
pub fn instr_bic3<B: VAXBus>(cpu: &mut VAXCPU<B>, _cycle_count: &mut Cycles, size: DataSize) -> (r:
    Result<(), Error>)
    requires
        old(cpu).wf(),
        old(cpu).has_bus(),
    ensures
        final(cpu).wf(),
        final(cpu).has_bus(),
        final(cpu).halted == old(cpu).halted,
        final(cpu).multi_instr_active == old(cpu).multi_instr_active,
        old(cpu).regfile.mapen ==> (r matches Err(e) && e.kind_spec()
            == ErrorKind::TranslationNotValid),
        (r matches Ok(_) ==> final(cpu).regfile.psl@.carry == old(cpu).regfile.psl@.carry
            && final(cpu).regfile.psl@.overflow == false),
{
    let a = parse_read_operand(cpu, size)?.read(cpu, size)?;
    let m = parse_read_operand(cpu, size)?.read(cpu, size)?;
    let o = parse_write_operand(cpu, size)?;
    let mx = max_of(size);
    proof {
        lemma_bitops_fit(size, m, mx);
        lemma_bitops_fit(size, a, m ^ mx);
    }
    let v = a & (m ^ mx);
    let mut flags = calc_nz(size, v);
    flags.set_c(cpu.regfile.get_psl().get_c());
    cpu.commit_flags(flags);
    let ghost rfb = cpu.regfile;
    let res = o.write(cpu, size, v);
    proof {
        match o {
            UnresolvedOperandWrite::RegWrite(rr) => rfb.lemma_ext_written_preserves_psl(
                rr,
                size,
                v,
            ),
            _ => {},
        }
    }
    res
}

/// Two-operand bit clear; carry preserved, overflow cleared.
pub fn instr_bic2<B: VAXBus>(cpu: &mut VAXCPU<B>, _cycle_count: &mut Cycles, size: DataSize) -> (r:
    Result<(), Error>)
    requires
        old(cpu).wf(),
        old(cpu).has_bus(),
    ensures
        final(cpu).wf(),
        final(cpu).has_bus(),
        final(cpu).halted == old(cpu).halted,
        final(cpu).multi_instr_active == old(cpu).multi_instr_active,
        old(cpu).regfile.mapen ==> (r matches Err(e) && e.kind_spec()
            == ErrorKind::TranslationNotValid),
        (r matches Ok(_) ==> final(cpu).regfile.psl@.carry == old(cpu).regfile.psl@.carry
            && final(cpu).regfile.psl@.overflow == false),
{
    let a = parse_read_operand(cpu, size)?.read(cpu, size)?;
    let mut o = parse_modify_operand(cpu, size)?;
    o.validate(cpu)?;
    let m = o.execute_read(cpu, size)?;
    let mx = max_of(size);
    proof {
        lemma_bitops_fit(size, m, mx);
        lemma_bitops_fit(size, a, m ^ mx);
    }
    let v = a & (m ^ mx);
    let mut flags = calc_nz(size, v);
    flags.set_c(cpu.regfile.get_psl().get_c());
    cpu.commit_flags(flags);
    let ghost rfb = cpu.regfile;
    let res = o.execute_write(cpu, size, v);
    proof {
        match o {
            UnresolvedOperandModify::Value(_, rr) => rfb.lemma_ext_written_preserves_psl(
                rr,
                size,
                v,
            ),
            _ => {},
        }
    }
    res
}

/// Three-operand exclusive or; carry preserved, overflow cleared.
pub fn instr_xor3<B: VAXBus>(cpu: &mut VAXCPU<B>, _cycle_count: &mut Cycles, size: DataSize) -> (r:
    Result<(), Error>)
    requires
        old(cpu).wf(),
        old(cpu).has_bus(),
    ensures
        final(cpu).wf(),
        final(cpu).has_bus(),
        final(cpu).halted == old(cpu).halted,
        final(cpu).multi_instr_active == old(cpu).multi_instr_active,
        old(cpu).regfile.mapen ==> (r matches Err(e) && e.kind_spec()
            == ErrorKind::TranslationNotValid),
        (r matches Ok(_) ==> final(cpu).regfile.psl@.carry == old(cpu).regfile.psl@.carry
            && final(cpu).regfile.psl@.overflow == false),
{
    let a = parse_read_operand(cpu, size)?.read(cpu, size)?;
    let m = parse_read_operand(cpu, size)?.read(cpu, size)?;
    let o = parse_write_operand(cpu, size)?;
    proof {
        lemma_bitops_fit(size, a, m);
    }
    let v = a ^ m;
    let mut flags = calc_nz(size, v);
    flags.set_c(cpu.regfile.get_psl().get_c());
    cpu.commit_flags(flags);
    let ghost rfb = cpu.regfile;
    let res = o.write(cpu, size, v);
    proof {
        match o {
            UnresolvedOperandWrite::RegWrite(rr) => rfb.lemma_ext_written_preserves_psl(
                rr,
                size,
                v,
            ),
            _ => {},
        }
    }
    res
}

/// Two-operand exclusive or; carry preserved, overflow cleared.
pub fn instr_xor2<B: VAXBus>(cpu: &mut VAXCPU<B>, _cycle_count: &mut Cycles, size: DataSize) -> (r:
    Result<(), Error>)
    requires
        old(cpu).wf(),
        old(cpu).has_bus(),
    ensures
        final(cpu).wf(),
        final(cpu).has_bus(),
        final(cpu).halted == old(cpu).halted,
        final(cpu).multi_instr_active == old(cpu).multi_instr_active,
        old(cpu).regfile.mapen ==> (r matches Err(e) && e.kind_spec()
            == ErrorKind::TranslationNotValid),
        (r matches Ok(_) ==> final(cpu).regfile.psl@.carry == old(cpu).regfile.psl@.carry
            && final(cpu).regfile.psl@.overflow == false),
{
    let a = parse_read_operand(cpu, size)?.read(cpu, size)?;
    let mut o = parse_modify_operand(cpu, size)?;
    o.validate(cpu)?;
    let m = o.execute_read(cpu, size)?;
    proof {
        lemma_bitops_fit(size, a, m);
    }
    let v = a ^ m;
    let mut flags = calc_nz(size, v);
    flags.set_c(cpu.regfile.get_psl().get_c());
    cpu.commit_flags(flags);
    let ghost rfb = cpu.regfile;
    let res = o.execute_write(cpu, size, v);
    proof {
        match o {
            UnresolvedOperandModify::Value(_, rr) => rfb.lemma_ext_written_preserves_psl(
                rr,
                size,
                v,
            ),
            _ => {},
        }
    }
    res
}

/// Bit test: the logical product, flags over it; carry preserved.
pub fn instr_bit<B: VAXBus>(cpu: &mut VAXCPU<B>, _cycle_count: &mut Cycles, size: DataSize) -> (r:
    Result<(), Error>)
    requires
        old(cpu).wf(),
        old(cpu).has_bus(),
    ensures
        final(cpu).wf(),
        final(cpu).has_bus(),
        final(cpu).halted == old(cpu).halted,
        final(cpu).multi_instr_active == old(cpu).multi_instr_active,
        old(cpu).regfile.mapen ==> (r matches Err(e) && e.kind_spec()
            == ErrorKind::TranslationNotValid),
        (r matches Ok(_) ==> final(cpu).regfile.psl@.carry == old(cpu).regfile.psl@.carry
            && final(cpu).regfile.psl@.overflow == false),
{
    let a = parse_read_operand(cpu, size)?.read(cpu, size)?;
    let mut o = parse_modify_operand(cpu, size)?;
    o.validate(cpu)?;
    let m = o.execute_read(cpu, size)?;
    proof {
        lemma_bitops_fit(size, a, m);
    }
    let v = a & m;
    let mut flags = calc_nz(size, v);
    flags.set_c(cpu.regfile.get_psl().get_c());
    cpu.commit_flags(flags);
    let ghost rfb = cpu.regfile;
    let res = o.execute_write(cpu, size, v);
    proof {
        match o {
            UnresolvedOperandModify::Value(_, rr) => rfb.lemma_ext_written_preserves_psl(
                rr,
                size,
                v,
            ),
            _ => {},
        }
    }
    res
}

/// Increment the operand in place.
pub fn instr_inc<B: VAXBus>(cpu: &mut VAXCPU<B>, _cycle_count: &mut Cycles, size: DataSize) -> (r:
    Result<(), Error>)
    requires
        old(cpu).wf(),
        old(cpu).has_bus(),
    ensures
        final(cpu).wf(),
        final(cpu).has_bus(),
        final(cpu).halted == old(cpu).halted,
        final(cpu).multi_instr_active == old(cpu).multi_instr_active,
        old(cpu).regfile.mapen ==> (r matches Err(e) && e.kind_spec()
            == ErrorKind::TranslationNotValid),
{
    let mut o = parse_modify_operand(cpu, size)?;
    o.validate(cpu)?;
    let m = o.execute_read(cpu, size)?;
    let (flags, v) = flagged_add(size, m, 1);
    cpu.commit_flags(flags);
    o.execute_write(cpu, size, v)
}

/// Decrement the operand in place.
pub fn instr_dec<B: VAXBus>(cpu: &mut VAXCPU<B>, _cycle_count: &mut Cycles, size: DataSize) -> (r:
    Result<(), Error>)
    requires
        old(cpu).wf(),
        old(cpu).has_bus(),
    ensures
        final(cpu).wf(),
        final(cpu).has_bus(),
        final(cpu).halted == old(cpu).halted,
        final(cpu).multi_instr_active == old(cpu).multi_instr_active,
        old(cpu).regfile.mapen ==> (r matches Err(e) && e.kind_spec()
            == ErrorKind::TranslationNotValid),
{
    let mut o = parse_modify_operand(cpu, size)?;
    o.validate(cpu)?;
    let m = o.execute_read(cpu, size)?;
    let (flags, v) = flagged_sub(size, m, 1);
    cpu.commit_flags(flags);
    o.execute_write(cpu, size, v)
}

/// Add with the incoming carry: the second operand picks up the carry flag
/// before the flagged addition.
pub fn instr_adwc<B: VAXBus>(cpu: &mut VAXCPU<B>, _cycle_count: &mut Cycles, size: DataSize) -> (r:
    Result<(), Error>)
    requires
        old(cpu).wf(),
        old(cpu).has_bus(),
    ensures
        final(cpu).wf(),
        final(cpu).has_bus(),
        final(cpu).halted == old(cpu).halted,
        final(cpu).multi_instr_active == old(cpu).multi_instr_active,
        old(cpu).regfile.mapen ==> (r matches Err(e) && e.kind_spec()
            == ErrorKind::TranslationNotValid),
{
    let a = parse_read_operand(cpu, size)?.read(cpu, size)?;
    let mut o = parse_modify_operand(cpu, size)?;
    o.validate(cpu)?;
    let m = o.execute_read(cpu, size)?;
    let c: u128 = if cpu.regfile.get_psl().get_c() {
        1
    } else {
        0
    };
    let mx = max_of(size);
    let t: u128 = if c == 1 && m == mx {
        0
    } else {
        m + c
    };
    let (flags, v) = flagged_add(size, a, t);
    cpu.commit_flags(flags);
    o.execute_write(cpu, size, v)
}

/// Move negated: two's-complement negate of the source into the
/// destination.
pub fn instr_mneg<B: VAXBus>(cpu: &mut VAXCPU<B>, _cycle_count: &mut Cycles, size: DataSize) -> (r:
    Result<(), Error>)
    requires
        old(cpu).wf(),
        old(cpu).has_bus(),
    ensures
        final(cpu).wf(),
        final(cpu).has_bus(),
        final(cpu).halted == old(cpu).halted,
        final(cpu).multi_instr_active == old(cpu).multi_instr_active,
        old(cpu).regfile.mapen ==> (r matches Err(e) && e.kind_spec()
            == ErrorKind::TranslationNotValid),
{
    let a = parse_read_operand(cpu, size)?.read(cpu, size)?;
    let mut o = parse_write_operand(cpu, size)?;
    o.validate(cpu)?;
    let (flags, v) = flagged_neg(size, a);
    cpu.commit_flags(flags);
    o.execute(cpu, size, v)
}

/// Move complemented: the bitwise complement of the source; carry
/// preserved, overflow cleared.
pub fn instr_mcom<B: VAXBus>(cpu: &mut VAXCPU<B>, _cycle_count: &mut Cycles, size: DataSize) -> (r:
    Result<(), Error>)
    requires
        old(cpu).wf(),
        old(cpu).has_bus(),
    ensures
        final(cpu).wf(),
        final(cpu).has_bus(),
        final(cpu).halted == old(cpu).halted,
        final(cpu).multi_instr_active == old(cpu).multi_instr_active,
        old(cpu).regfile.mapen ==> (r matches Err(e) && e.kind_spec()
            == ErrorKind::TranslationNotValid),
        (r matches Ok(_) ==> final(cpu).regfile.psl@.carry == old(cpu).regfile.psl@.carry
            && final(cpu).regfile.psl@.overflow == false),
{
    let a = parse_read_operand(cpu, size)?.read(cpu, size)?;
    let mut o = parse_write_operand(cpu, size)?;
    o.validate(cpu)?;
    let mx = max_of(size);
    proof {
        lemma_bitops_fit(size, a, mx);
    }
    let v = a ^ mx;
    let mut flags = calc_nz(size, v);
    flags.set_c(cpu.regfile.get_psl().get_c());
    cpu.commit_flags(flags);
    let ghost rfb = cpu.regfile;
    let res = o.execute(cpu, size, v);
    proof {
        match o {
            UnresolvedOperandWrite::RegWrite(rr) => rfb.lemma_ext_written_preserves_psl(
                rr,
                size,
                v,
            ),
            _ => {},
        }
    }
    res
}

/// Move: copy the source to the destination, setting negative and zero;
/// carry preserved, overflow cleared.
pub fn instr_mov<B: VAXBus>(cpu: &mut VAXCPU<B>, _cycle_count: &mut Cycles, size: DataSize) -> (r:
    Result<(), Error>)
    requires
        old(cpu).wf(),
        old(cpu).has_bus(),
    ensures
        final(cpu).wf(),
        final(cpu).has_bus(),
        final(cpu).halted == old(cpu).halted,
        final(cpu).multi_instr_active == old(cpu).multi_instr_active,
        old(cpu).regfile.mapen ==> (r matches Err(e) && e.kind_spec()
            == ErrorKind::TranslationNotValid),
        (r matches Ok(_) ==> final(cpu).regfile.psl@.carry == old(cpu).regfile.psl@.carry
            && final(cpu).regfile.psl@.overflow == false),
{
    let a = parse_read_operand(cpu, size)?.read(cpu, size)?;
    let mut o = parse_write_operand(cpu, size)?;
    o.validate(cpu)?;
    let mut flags = calc_nz(size, a);
    flags.set_c(cpu.regfile.get_psl().get_c());
    cpu.commit_flags(flags);
    let ghost rfb = cpu.regfile;
    let res = o.execute(cpu, size, a);
    proof {
        match o {
            UnresolvedOperandWrite::RegWrite(rr) => rfb.lemma_ext_written_preserves_psl(
                rr,
                size,
                a,
            ),
            _ => {},
        }
    }
    res
}

/// Compare: a flagged subtraction of the second operand from the first,
/// keeping only the flags.
pub fn instr_cmp<B: VAXBus>(cpu: &mut VAXCPU<B>, _cycle_count: &mut Cycles, size: DataSize) -> (r:
    Result<(), Error>)
    requires
        old(cpu).wf(),
        old(cpu).has_bus(),
    ensures
        final(cpu).wf(),
        final(cpu).has_bus(),
        final(cpu).halted == old(cpu).halted,
        final(cpu).multi_instr_active == old(cpu).multi_instr_active,
        old(cpu).regfile.mapen ==> (r matches Err(e) && e.kind_spec()
            == ErrorKind::TranslationNotValid),
{
    let a = parse_read_operand(cpu, size)?.read(cpu, size)?;
    let b = parse_read_operand(cpu, size)?.read(cpu, size)?;
    let flags = flagged_cmp(size, a, b);
    cpu.commit_flags(flags);
    Ok(())
}

/// Test: compare against zero.
pub fn instr_tst<B: VAXBus>(cpu: &mut VAXCPU<B>, _cycle_count: &mut Cycles, size: DataSize) -> (r:
    Result<(), Error>)
    requires
        old(cpu).wf(),
        old(cpu).has_bus(),
    ensures
        final(cpu).wf(),
        final(cpu).has_bus(),
        final(cpu).halted == old(cpu).halted,
        final(cpu).multi_instr_active == old(cpu).multi_instr_active,
        old(cpu).regfile.mapen ==> (r matches Err(e) && e.kind_spec()
            == ErrorKind::TranslationNotValid),
{
    let a = parse_read_operand(cpu, size)?.read(cpu, size)?;
    let (flags, _) = flagged_sub(size, a, 0);
    cpu.commit_flags(flags);
    Ok(())
}

/// Arithmetic shift: a byte count (negative meaning rightward) applied to
/// the second operand, the result landing in the third.
pub fn instr_ash<B: VAXBus>(cpu: &mut VAXCPU<B>, _cycle_count: &mut Cycles, size: DataSize) -> (r:
    Result<(), Error>)
    requires
        old(cpu).wf(),
        old(cpu).has_bus(),
    ensures
        final(cpu).wf(),
        final(cpu).has_bus(),
        final(cpu).halted == old(cpu).halted,
        final(cpu).multi_instr_active == old(cpu).multi_instr_active,
        old(cpu).regfile.mapen ==> (r matches Err(e) && e.kind_spec()
            == ErrorKind::TranslationNotValid),
{
    let cb = parse_read_operand(cpu, DataSize::Byte)?.read(cpu, DataSize::Byte)?;
    let y = parse_read_operand(cpu, size)?.read(cpu, size)?;
    let o = parse_write_operand(cpu, size)?;
    let cnt: i8 = if cb < 0x80 {
        cb as i8
    } else {
        ((cb as i64) - 0x100) as i8
    };
    let (flags, v) = flagged_ash(size, y, cnt);
    cpu.commit_flags(flags);
    o.write(cpu, size, v)
}

/// Extended multiply: the signed product of two longwords plus a sign-
/// extended longword addend, as a quadword.
pub fn instr_emul<B: VAXBus>(cpu: &mut VAXCPU<B>, _cycle_count: &mut Cycles) -> (r: Result<
    (),
    Error,
>)
    requires
        old(cpu).wf(),
        old(cpu).has_bus(),
    ensures
        final(cpu).wf(),
        final(cpu).has_bus(),
        final(cpu).halted == old(cpu).halted,
        final(cpu).multi_instr_active == old(cpu).multi_instr_active,
        old(cpu).regfile.mapen ==> (r matches Err(e) && e.kind_spec()
            == ErrorKind::TranslationNotValid),
{
    let x = parse_read_operand(cpu, DataSize::Longword)?.read(cpu, DataSize::Longword)?;
    let y = parse_read_operand(cpu, DataSize::Longword)?.read(cpu, DataSize::Longword)?;
    let z = parse_read_operand(cpu, DataSize::Longword)?.read(cpu, DataSize::Longword)?;
    let o = parse_write_operand(cpu, DataSize::Quadword)?;
    let xq = sign_extend_l_to_q(x);
    let yq = sign_extend_l_to_q(y);
    let zq = sign_extend_l_to_q(z);
    let (_, p) = flagged_mul(DataSize::Quadword, xq, yq);
    let (_, v) = flagged_add(DataSize::Quadword, p, zq);
    let flags = calc_nz(DataSize::Quadword, v);
    cpu.commit_flags(flags);
    o.write(cpu, DataSize::Quadword, v)
}

/// A longword sign-extended to the quadword's unsigned representation.
fn sign_extend_l_to_q(v: u128) -> (r: u128)
    requires
        in_size(v, DataSize::Longword),
    ensures
        in_size(r, DataSize::Quadword),
        crate::arith::signed_val(DataSize::Quadword, r as int) == crate::arith::signed_val(
            DataSize::Longword,
            v as int,
        ),
{
    if v < 0x8000_0000 {
        v
    } else {
        v + (0xFFFF_FFFF_0000_0000)
    }
}

} // verus!
