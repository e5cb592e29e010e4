//! The operand addressing resolver: decodes one- to six-byte operand
//! specifiers into one of the addressing modes, applies the
//! autoincrement/autodecrement side effect exactly once at resolution
//! time, and hands back a resolved-but-unread handle. Deferred modes keep
//! a "validate, then execute" split so call sites can batch validation of
//! several operands before committing any memory side effect.

use crate::arith::{in_size, signed_val};
use crate::bus::VAXBus;
use crate::cpu::VAXCPU;
use crate::error::{Error, ErrorKind};
use crate::regfile::VAXRegisterFile;
use crate::DataSize;
use vstd::arithmetic::div_mod::{
    lemma_fundamental_div_mod_converse_mod, lemma_mod_multiples_vanish, lemma_small_mod,
};
use vstd::prelude::*;

verus! {

/// Addition wrapping at 32 bits; the displacement may be negative.
pub open spec fn wadd32(x: u32, d: int) -> u32 {
    ((x + d) % 0x1_0000_0000int) as u32
}

/// The wrapped sum is the Euclidean remainder of the mathematical sum.
pub proof fn lemma_wadd32_is_mod(x: u32, d: int)
    ensures
        wadd32(x, d) == (x + d) % 0x1_0000_0000,
{
    vstd::arithmetic::div_mod::lemma_mod_division_less_than_divisor(x + d, 0x1_0000_0000);
}

/// Wrapped 32-bit addition of two unsigned values.
pub fn u32_wadd(x: u32, y: u32) -> (r: u32)
    ensures
        r == wadd32(x, y as int),
{
    proof {
        lemma_wadd32_is_mod(x, y as int);
        if x + y < 0x1_0000_0000 {
            lemma_small_mod((x + y) as nat, 0x1_0000_0000);
        } else {
            lemma_fundamental_div_mod_converse_mod(
                x as int + y,
                0x1_0000_0000,
                1,
                x as int + y - 0x1_0000_0000,
            );
        }
    }
    if x <= 0xFFFF_FFFFu32 - y {
        x + y
    } else {
        (x - (0xFFFF_FFFFu32 - y)) - 1
    }
}

/// Wrapped 32-bit subtraction.
pub fn u32_wsub(x: u32, y: u32) -> (r: u32)
    ensures
        r == wadd32(x, -(y as int)),
{
    proof {
        lemma_wadd32_is_mod(x, -(y as int));
        if x >= y {
            lemma_small_mod((x - y) as nat, 0x1_0000_0000);
        } else {
            lemma_fundamental_div_mod_converse_mod(
                x as int - y,
                0x1_0000_0000,
                -1,
                x as int - y + 0x1_0000_0000,
            );
        }
    }
    if x >= y {
        x - y
    } else {
        (x + (0xFFFF_FFFFu32 - y)) + 1
    }
}

/// Wrapped additions compose.
pub proof fn lemma_wadd32_assoc(x: u32, a: int, b: int)
    ensures
        wadd32(wadd32(x, a), b) == wadd32(x, a + b),
{
    lemma_wadd32_is_mod(x, a);
    lemma_wadd32_is_mod(wadd32(x, a), b);
    lemma_wadd32_is_mod(x, a + b);
    let m = 0x1_0000_0000int;
    vstd::arithmetic::div_mod::lemma_fundamental_div_mod(x + a, m);
    let q = (x + a) / m;
    let rem = (x + a) % m;
    lemma_mod_multiples_vanish(q, rem + b, m);
}

/// Adding any multiple of `2^32` to the displacement leaves the wrapped
/// sum unchanged.
pub proof fn lemma_wadd32_reduce(x: u32, d: int, k: int)
    ensures
        wadd32(x, d + k * 0x1_0000_0000) == wadd32(x, d),
{
    lemma_wadd32_is_mod(x, d);
    lemma_wadd32_is_mod(x, d + k * 0x1_0000_0000);
    lemma_mod_multiples_vanish(k, x + d, 0x1_0000_0000);
    assert(0x1_0000_0000 * k + (x + d) == x + (d + k * 0x1_0000_0000));
}

/// Wrapped 32-bit multiplication.
pub open spec fn wmul32(x: u32, y: u32) -> u32 {
    ((x * y) % 0x1_0000_0000) as u32
}

pub fn u32_wmul(x: u32, y: u32) -> (r: u32)
    ensures
        r == wmul32(x, y),
{
    x.wrapping_mul(y)
}

/// A decoded addressing-mode descriptor: how an operand's byte sequence
/// maps to a location. The first field of an indexed variant is the index
/// register, the second the base register.
#[derive(Copy, Clone, Debug, PartialEq, Eq, Structural)]
pub enum OperandMode {
    Literal(u8),
    IndexedRegisterDeferred(u8, u8),
    IndexedAutodecrement(u8, u8),
    IndexedAutoincrement(u8, u8),
    IndexedAutoincrementDeferred(u8, u8),
    IndexedByteDisplacement(u8, u8),
    IndexedByteDisplacementDeferred(u8, u8),
    IndexedWordDisplacement(u8, u8),
    IndexedWordDisplacementDeferred(u8, u8),
    IndexedLongwordDisplacement(u8, u8),
    IndexedLongwordDisplacementDeferred(u8, u8),
    Register(u8),
    RegisterDeferred(u8),
    Autodecrement(u8),
    Autoincrement(u8),
    AutoincrementDeferred(u8),
    ByteDisplacement(u8),
    ByteDisplacementDeferred(u8),
    WordDisplacement(u8),
    WordDisplacementDeferred(u8),
    LongwordDisplacement(u8),
    LongwordDisplacementDeferred(u8),
}

/// The mode two header bytes decode to, or nothing where the second byte
/// of an indexed specifier names an invalid base form.
pub open spec fn identify_spec(b0: u8, b1: u8) -> Option<OperandMode> {
    let reg = b0 & 0xF;
    let nib = (b0 & 0xF0) >> 4;
    if nib <= 3 {
        Some(OperandMode::Literal(b0 & 0x3F))
    } else if nib == 4 {
        let ireg = b1 & 0xF;
        let inib = (b1 & 0xF0) >> 4;
        if inib == 6 {
            Some(OperandMode::IndexedRegisterDeferred(reg, ireg))
        } else if inib == 7 {
            Some(OperandMode::IndexedAutodecrement(reg, ireg))
        } else if inib == 8 {
            Some(OperandMode::IndexedAutoincrement(reg, ireg))
        } else if inib == 9 {
            Some(OperandMode::IndexedAutoincrementDeferred(reg, ireg))
        } else if inib == 10 {
            Some(OperandMode::IndexedByteDisplacement(reg, ireg))
        } else if inib == 11 {
            Some(OperandMode::IndexedByteDisplacementDeferred(reg, ireg))
        } else if inib == 12 {
            Some(OperandMode::IndexedWordDisplacement(reg, ireg))
        } else if inib == 13 {
            Some(OperandMode::IndexedWordDisplacementDeferred(reg, ireg))
        } else if inib == 14 {
            Some(OperandMode::IndexedLongwordDisplacement(reg, ireg))
        } else if inib == 15 {
            Some(OperandMode::IndexedLongwordDisplacementDeferred(reg, ireg))
        } else {
            None
        }
    } else if nib == 5 {
        Some(OperandMode::Register(reg))
    } else if nib == 6 {
        Some(OperandMode::RegisterDeferred(reg))
    } else if nib == 7 {
        Some(OperandMode::Autodecrement(reg))
    } else if nib == 8 {
        Some(OperandMode::Autoincrement(reg))
    } else if nib == 9 {
        Some(OperandMode::AutoincrementDeferred(reg))
    } else if nib == 10 {
        Some(OperandMode::ByteDisplacement(reg))
    } else if nib == 11 {
        Some(OperandMode::ByteDisplacementDeferred(reg))
    } else if nib == 12 {
        Some(OperandMode::WordDisplacement(reg))
    } else if nib == 13 {
        Some(OperandMode::WordDisplacementDeferred(reg))
    } else if nib == 14 {
        Some(OperandMode::LongwordDisplacement(reg))
    } else {
        Some(OperandMode::LongwordDisplacementDeferred(reg))
    }
}

/// Every register field a decode can produce names one of the sixteen
/// architectural registers, and a literal fits the narrowest width.
pub open spec fn mode_wf(m: OperandMode) -> bool {
    match m {
        OperandMode::Literal(v) => v < 64,
        OperandMode::Register(r) => r < 16,
        OperandMode::RegisterDeferred(r) => r < 16,
        OperandMode::Autodecrement(r) => r < 16,
        OperandMode::Autoincrement(r) => r < 16,
        OperandMode::AutoincrementDeferred(r) => r < 16,
        OperandMode::ByteDisplacement(r) => r < 16,
        OperandMode::ByteDisplacementDeferred(r) => r < 16,
        OperandMode::WordDisplacement(r) => r < 16,
        OperandMode::WordDisplacementDeferred(r) => r < 16,
        OperandMode::LongwordDisplacement(r) => r < 16,
        OperandMode::LongwordDisplacementDeferred(r) => r < 16,
        OperandMode::IndexedRegisterDeferred(i, b) => i < 16 && b < 16,
        OperandMode::IndexedAutodecrement(i, b) => i < 16 && b < 16,
        OperandMode::IndexedAutoincrement(i, b) => i < 16 && b < 16,
        OperandMode::IndexedAutoincrementDeferred(i, b) => i < 16 && b < 16,
        OperandMode::IndexedByteDisplacement(i, b) => i < 16 && b < 16,
        OperandMode::IndexedByteDisplacementDeferred(i, b) => i < 16 && b < 16,
        OperandMode::IndexedWordDisplacement(i, b) => i < 16 && b < 16,
        OperandMode::IndexedWordDisplacementDeferred(i, b) => i < 16 && b < 16,
        OperandMode::IndexedLongwordDisplacement(i, b) => i < 16 && b < 16,
        OperandMode::IndexedLongwordDisplacementDeferred(i, b) => i < 16 && b < 16,
    }
}

impl OperandMode {
    /// Decode the two bytes at the start of an operand specifier. An
    /// invalid base form inside an indexed specifier is a reserved
    /// addressing-mode fault.
    pub fn identify_operand(op_head: [u8; 2]) -> (r: Result<OperandMode, Error>)
        ensures
            identify_spec(op_head[0], op_head[1]) matches Some(m) ==> r == Ok::<
                OperandMode,
                Error,
            >(m) && mode_wf(m),
            identify_spec(op_head[0], op_head[1]) is None ==> (r matches Err(e) && e.kind_spec()
                == ErrorKind::ReservedAddressingMode),
    {
        let b0 = op_head[0];
        let b1 = op_head[1];
        let reg = b0 & 0xF;
        let nib = (b0 & 0xF0) >> 4;
        proof {
            assert((b0 & 0xF) < 16 && ((b0 & 0xF0) >> 4) < 16 && (b1 & 0xF) < 16 && ((b1 & 0xF0)
                >> 4) < 16 && (b0 & 0x3F) < 64) by (bit_vector);
        }
        if nib <= 3 {
            Ok(OperandMode::Literal(b0 & 0x3F))
        } else if nib == 4 {
            let ireg = b1 & 0xF;
            let inib = (b1 & 0xF0) >> 4;
            if inib == 6 {
                Ok(OperandMode::IndexedRegisterDeferred(reg, ireg))
            } else if inib == 7 {
                Ok(OperandMode::IndexedAutodecrement(reg, ireg))
            } else if inib == 8 {
                Ok(OperandMode::IndexedAutoincrement(reg, ireg))
            } else if inib == 9 {
                Ok(OperandMode::IndexedAutoincrementDeferred(reg, ireg))
            } else if inib == 10 {
                Ok(OperandMode::IndexedByteDisplacement(reg, ireg))
            } else if inib == 11 {
                Ok(OperandMode::IndexedByteDisplacementDeferred(reg, ireg))
            } else if inib == 12 {
                Ok(OperandMode::IndexedWordDisplacement(reg, ireg))
            } else if inib == 13 {
                Ok(OperandMode::IndexedWordDisplacementDeferred(reg, ireg))
            } else if inib == 14 {
                Ok(OperandMode::IndexedLongwordDisplacement(reg, ireg))
            } else if inib == 15 {
                Ok(OperandMode::IndexedLongwordDisplacementDeferred(reg, ireg))
            } else {
                Err(Error::new_address_mode_fault())
            }
        } else if nib == 5 {
            Ok(OperandMode::Register(reg))
        } else if nib == 6 {
            Ok(OperandMode::RegisterDeferred(reg))
        } else if nib == 7 {
            Ok(OperandMode::Autodecrement(reg))
        } else if nib == 8 {
            Ok(OperandMode::Autoincrement(reg))
        } else if nib == 9 {
            Ok(OperandMode::AutoincrementDeferred(reg))
        } else if nib == 10 {
            Ok(OperandMode::ByteDisplacement(reg))
        } else if nib == 11 {
            Ok(OperandMode::ByteDisplacementDeferred(reg))
        } else if nib == 12 {
            Ok(OperandMode::WordDisplacement(reg))
        } else if nib == 13 {
            Ok(OperandMode::WordDisplacementDeferred(reg))
        } else if nib == 14 {
            Ok(OperandMode::LongwordDisplacement(reg))
        } else {
            Ok(OperandMode::LongwordDisplacementDeferred(reg))
        }
    }

    /// The documented encoding length of each mode variant, header bytes
    /// and displacement together.
    pub open spec fn byte_size_spec(self) -> nat {
        match self {
            OperandMode::Literal(_) => 1,
            OperandMode::Register(_) => 1,
            OperandMode::RegisterDeferred(_) => 1,
            OperandMode::Autodecrement(_) => 1,
            OperandMode::Autoincrement(_) => 1,
            OperandMode::AutoincrementDeferred(_) => 1,
            OperandMode::ByteDisplacement(_) => 2,
            OperandMode::ByteDisplacementDeferred(_) => 2,
            OperandMode::WordDisplacement(_) => 3,
            OperandMode::WordDisplacementDeferred(_) => 3,
            OperandMode::LongwordDisplacement(_) => 5,
            OperandMode::LongwordDisplacementDeferred(_) => 5,
            OperandMode::IndexedRegisterDeferred(_, _) => 2,
            OperandMode::IndexedAutodecrement(_, _) => 2,
            OperandMode::IndexedAutoincrement(_, _) => 2,
            OperandMode::IndexedAutoincrementDeferred(_, _) => 2,
            OperandMode::IndexedByteDisplacement(_, _) => 3,
            OperandMode::IndexedByteDisplacementDeferred(_, _) => 3,
            OperandMode::IndexedWordDisplacement(_, _) => 4,
            OperandMode::IndexedWordDisplacementDeferred(_, _) => 4,
            OperandMode::IndexedLongwordDisplacement(_, _) => 6,
            OperandMode::IndexedLongwordDisplacementDeferred(_, _) => 6,
        }
    }

    /// The number of bytes this operand specifier occupies: one byte of
    /// header (two for indexed modes) plus its displacement, if any.
    pub fn byte_size(self) -> (r: usize)
        ensures
            r == self.byte_size_spec(),
            1 <= r <= 6,
    {
        match self {
            OperandMode::Literal(_) => 1,
            OperandMode::Register(_) => 1,
            OperandMode::RegisterDeferred(_) => 1,
            OperandMode::Autodecrement(_) => 1,
            OperandMode::Autoincrement(_) => 1,
            OperandMode::AutoincrementDeferred(_) => 1,
            OperandMode::ByteDisplacement(_) => 2,
            OperandMode::ByteDisplacementDeferred(_) => 2,
            OperandMode::WordDisplacement(_) => 3,
            OperandMode::WordDisplacementDeferred(_) => 3,
            OperandMode::LongwordDisplacement(_) => 5,
            OperandMode::LongwordDisplacementDeferred(_) => 5,
            OperandMode::IndexedRegisterDeferred(_, _) => 2,
            OperandMode::IndexedAutodecrement(_, _) => 2,
            OperandMode::IndexedAutoincrement(_, _) => 2,
            OperandMode::IndexedAutoincrementDeferred(_, _) => 2,
            OperandMode::IndexedByteDisplacement(_, _) => 3,
            OperandMode::IndexedByteDisplacementDeferred(_, _) => 3,
            OperandMode::IndexedWordDisplacement(_, _) => 4,
            OperandMode::IndexedWordDisplacementDeferred(_, _) => 4,
            OperandMode::IndexedLongwordDisplacement(_, _) => 6,
            OperandMode::IndexedLongwordDisplacementDeferred(_, _) => 6,
        }
    }
}

/// The register file after resolving an operand of mode `m` and width `s`:
/// exactly the autoincrement/autodecrement side effect, applied once —
/// every other mode leaves the registers untouched, and no later access of
/// the resolved handle moves them again.
pub open spec fn resolved_regfile(m: OperandMode, rf: VAXRegisterFile, s: DataSize) -> VAXRegisterFile {
    let w = s.byte_len_spec() as int;
    match m {
        OperandMode::Autoincrement(r) => rf.gpr_written(r, wadd32(rf.read_gpr_spec(r), w)),
        OperandMode::Autodecrement(r) => rf.gpr_written(r, wadd32(rf.read_gpr_spec(r), -w)),
        OperandMode::AutoincrementDeferred(r) => rf.gpr_written(
            r,
            wadd32(rf.read_gpr_spec(r), w),
        ),
        OperandMode::IndexedAutoincrement(_, b) => rf.gpr_written(
            b,
            wadd32(rf.read_gpr_spec(b), w),
        ),
        OperandMode::IndexedAutodecrement(_, b) => rf.gpr_written(
            b,
            wadd32(rf.read_gpr_spec(b), -w),
        ),
        OperandMode::IndexedAutoincrementDeferred(_, b) => rf.gpr_written(
            b,
            wadd32(rf.read_gpr_spec(b), w),
        ),
        _ => rf,
    }
}

/// Resolving an operand never touches the status longword: the only
/// registers an addressing side effect can move are general ones.
pub proof fn lemma_resolved_preserves_psl(m: OperandMode, rf: VAXRegisterFile, s: DataSize)
    ensures
        resolved_regfile(m, rf, s).psl == rf.psl,
{
}

/// An address-bearing location an operand resolves to, before intent
/// (read, write, modify) is applied.
enum ResolvedLoc {
    Reg(u8),
    Mem(u32),
    DeferredMem(u32),
    DeferredIdx(u32, u32),
}

/// Read the displacement bytes that end at the current program counter.
fn read_disp<B: VAXBus>(cpu: &mut VAXCPU<B>, s: DataSize) -> (r: Result<u128, Error>)
    requires
        old(cpu).has_bus(),
    ensures
        final(cpu).has_bus(),
        final(cpu).regfile == old(cpu).regfile,
        final(cpu).halted == old(cpu).halted,
        final(cpu).itable == old(cpu).itable,
        final(cpu).multi_instr_active == old(cpu).multi_instr_active,
        final(cpu).wf() == old(cpu).wf(),
        (r matches Ok(v) ==> in_size(v, s)),
        old(cpu).regfile.mapen ==> (r matches Err(e) && e.kind_spec()
            == ErrorKind::TranslationNotValid),
{
    let pc = cpu.regfile.get_pc();
    let a = u32_wsub(pc, size_u32(s));
    cpu.read_val(a, s)
}

/// The width in bytes as a `u32`.
fn size_u32(s: DataSize) -> (r: u32)
    ensures
        r == s.byte_len_spec(),
{
    match s {
        DataSize::Byte => 1,
        DataSize::Word => 2,
        DataSize::Longword => 4,
        DataSize::Quadword => 8,
        DataSize::Octaword => 16,
    }
}

/// Add a sign-extended displacement of width `s` to a base address.
pub fn add_disp(base: u32, d: u128, s: DataSize) -> (r: u32)
    requires
        in_size(d, s),
        s == DataSize::Byte || s == DataSize::Word || s == DataSize::Longword,
    ensures
        r == wadd32(base, signed_val(s, d as int)),
{
    let h = crate::arith::half_of(s);
    if d < h {
        u32_wadd(base, d as u32)
    } else {
        match s {
            DataSize::Byte => {
                proof {
                    lemma_wadd32_reduce(base, d as int - 0x100, 1);
                }
                u32_wadd(base, (d + 0xFFFF_FF00) as u32)
            },
            DataSize::Word => {
                proof {
                    lemma_wadd32_reduce(base, d as int - 0x1_0000, 1);
                }
                u32_wadd(base, (d + 0xFFFF_0000) as u32)
            },
            _ => {
                proof {
                    lemma_wadd32_reduce(base, d as int - 0x1_0000_0000, 1);
                }
                u32_wadd(base, d as u32)
            },
        }
    }
}

/// Resolve every mode but an in-specifier literal down to a location,
/// applying the addressing side effect exactly once.
fn resolve_loc<B: VAXBus>(mode: OperandMode, cpu: &mut VAXCPU<B>, size: DataSize) -> (r: Result<
    ResolvedLoc,
    Error,
>)
    requires
        old(cpu).has_bus(),
        mode_wf(mode),
        !(mode is Literal),
    ensures
        final(cpu).has_bus(),
        final(cpu).halted == old(cpu).halted,
        final(cpu).itable == old(cpu).itable,
        final(cpu).multi_instr_active == old(cpu).multi_instr_active,
        final(cpu).wf() == old(cpu).wf(),
        final(cpu).regfile == resolved_regfile(mode, old(cpu).regfile, size),
        mode matches OperandMode::Register(rr) ==> r == Ok::<ResolvedLoc, Error>(
            ResolvedLoc::Reg(rr),
        ),
        mode matches OperandMode::RegisterDeferred(rr) ==> r == Ok::<ResolvedLoc, Error>(
            ResolvedLoc::Mem(old(cpu).regfile.read_gpr_spec(rr)),
        ),
        mode matches OperandMode::Autoincrement(rr) ==> r == Ok::<ResolvedLoc, Error>(
            ResolvedLoc::Mem(old(cpu).regfile.read_gpr_spec(rr)),
        ),
        mode matches OperandMode::Autodecrement(rr) ==> r == Ok::<ResolvedLoc, Error>(
            ResolvedLoc::Mem(
                wadd32(old(cpu).regfile.read_gpr_spec(rr), -(size.byte_len_spec() as int)),
            ),
        ),
        mode matches OperandMode::AutoincrementDeferred(rr) ==> r == Ok::<ResolvedLoc, Error>(
            ResolvedLoc::DeferredMem(old(cpu).regfile.read_gpr_spec(rr)),
        ),
        (mode is ByteDisplacement || mode is WordDisplacement || mode is LongwordDisplacement
            || mode is IndexedRegisterDeferred || mode is IndexedAutoincrement
            || mode is IndexedAutodecrement || mode is IndexedByteDisplacement
            || mode is IndexedWordDisplacement || mode is IndexedLongwordDisplacement) ==> (
        r matches Ok(l) ==> l is Mem),
        (mode is ByteDisplacementDeferred || mode is WordDisplacementDeferred
            || mode is LongwordDisplacementDeferred) ==> (r matches Ok(l) ==> l is DeferredMem),
        (mode is IndexedAutoincrementDeferred || mode is IndexedByteDisplacementDeferred
            || mode is IndexedWordDisplacementDeferred
            || mode is IndexedLongwordDisplacementDeferred) ==> (r matches Ok(l)
            ==> l is DeferredIdx),
        mode matches OperandMode::Register(rr) ==> rr < 16,
{
    let w = size_u32(size);
    match mode {
        OperandMode::Literal(_) => {
            proof {
                assert(false);
            }
            Err(Error::new_address_mode_fault())
        },
        OperandMode::Register(r) => Ok(ResolvedLoc::Reg(r)),
        OperandMode::RegisterDeferred(r) => Ok(ResolvedLoc::Mem(cpu.regfile.read_gpr(r))),
        OperandMode::Autoincrement(r) => {
            let v = cpu.regfile.read_gpr(r);
            let nv = u32_wadd(v, w);
            cpu.regfile.write_gpr(r, nv);
            Ok(ResolvedLoc::Mem(v))
        },
        OperandMode::Autodecrement(r) => {
            let v = cpu.regfile.read_gpr(r);
            let a = u32_wsub(v, w);
            cpu.regfile.write_gpr(r, a);
            Ok(ResolvedLoc::Mem(a))
        },
        OperandMode::AutoincrementDeferred(r) => {
            let v = cpu.regfile.read_gpr(r);
            let nv = u32_wadd(v, w);
            cpu.regfile.write_gpr(r, nv);
            Ok(ResolvedLoc::DeferredMem(v))
        },
        OperandMode::ByteDisplacement(r) => {
            let d = read_disp(cpu, DataSize::Byte)?;
            let base = cpu.regfile.read_gpr(r);
            Ok(ResolvedLoc::Mem(add_disp(base, d, DataSize::Byte)))
        },
        OperandMode::ByteDisplacementDeferred(r) => {
            let d = read_disp(cpu, DataSize::Byte)?;
            let base = cpu.regfile.read_gpr(r);
            Ok(ResolvedLoc::DeferredMem(add_disp(base, d, DataSize::Byte)))
        },
        OperandMode::WordDisplacement(r) => {
            let d = read_disp(cpu, DataSize::Word)?;
            let base = cpu.regfile.read_gpr(r);
            Ok(ResolvedLoc::Mem(add_disp(base, d, DataSize::Word)))
        },
        OperandMode::WordDisplacementDeferred(r) => {
            let d = read_disp(cpu, DataSize::Word)?;
            let base = cpu.regfile.read_gpr(r);
            Ok(ResolvedLoc::DeferredMem(add_disp(base, d, DataSize::Word)))
        },
        OperandMode::LongwordDisplacement(r) => {
            let d = read_disp(cpu, DataSize::Longword)?;
            let base = cpu.regfile.read_gpr(r);
            Ok(ResolvedLoc::Mem(add_disp(base, d, DataSize::Longword)))
        },
        OperandMode::LongwordDisplacementDeferred(r) => {
            let d = read_disp(cpu, DataSize::Longword)?;
            let base = cpu.regfile.read_gpr(r);
            Ok(ResolvedLoc::DeferredMem(add_disp(base, d, DataSize::Longword)))
        },
        OperandMode::IndexedRegisterDeferred(idx, b) => {
            let off = u32_wmul(cpu.regfile.read_gpr(idx), w);
            let base = cpu.regfile.read_gpr(b);
            Ok(ResolvedLoc::Mem(u32_wadd(base, off)))
        },
        OperandMode::IndexedAutoincrement(idx, b) => {
            let off = u32_wmul(cpu.regfile.read_gpr(idx), w);
            let v = cpu.regfile.read_gpr(b);
            let nv = u32_wadd(v, w);
            cpu.regfile.write_gpr(b, nv);
            Ok(ResolvedLoc::Mem(u32_wadd(v, off)))
        },
        OperandMode::IndexedAutodecrement(idx, b) => {
            let off = u32_wmul(cpu.regfile.read_gpr(idx), w);
            let v = cpu.regfile.read_gpr(b);
            let a = u32_wsub(v, w);
            cpu.regfile.write_gpr(b, a);
            Ok(ResolvedLoc::Mem(u32_wadd(a, off)))
        },
        OperandMode::IndexedAutoincrementDeferred(idx, b) => {
            let off = u32_wmul(cpu.regfile.read_gpr(idx), w);
            let v = cpu.regfile.read_gpr(b);
            let nv = u32_wadd(v, w);
            cpu.regfile.write_gpr(b, nv);
            Ok(ResolvedLoc::DeferredIdx(v, off))
        },
        OperandMode::IndexedByteDisplacement(idx, b) => {
            let off = u32_wmul(cpu.regfile.read_gpr(idx), w);
            let d = read_disp(cpu, DataSize::Byte)?;
            let base = cpu.regfile.read_gpr(b);
            Ok(ResolvedLoc::Mem(u32_wadd(add_disp(base, d, DataSize::Byte), off)))
        },
        OperandMode::IndexedByteDisplacementDeferred(idx, b) => {
            let off = u32_wmul(cpu.regfile.read_gpr(idx), w);
            let d = read_disp(cpu, DataSize::Byte)?;
            let base = cpu.regfile.read_gpr(b);
            Ok(ResolvedLoc::DeferredIdx(add_disp(base, d, DataSize::Byte), off))
        },
        OperandMode::IndexedWordDisplacement(idx, b) => {
            let off = u32_wmul(cpu.regfile.read_gpr(idx), w);
            let d = read_disp(cpu, DataSize::Word)?;
            let base = cpu.regfile.read_gpr(b);
            Ok(ResolvedLoc::Mem(u32_wadd(add_disp(base, d, DataSize::Word), off)))
        },
        OperandMode::IndexedWordDisplacementDeferred(idx, b) => {
            let off = u32_wmul(cpu.regfile.read_gpr(idx), w);
            let d = read_disp(cpu, DataSize::Word)?;
            let base = cpu.regfile.read_gpr(b);
            Ok(ResolvedLoc::DeferredIdx(add_disp(base, d, DataSize::Word), off))
        },
        OperandMode::IndexedLongwordDisplacement(idx, b) => {
            let off = u32_wmul(cpu.regfile.read_gpr(idx), w);
            let d = read_disp(cpu, DataSize::Longword)?;
            let base = cpu.regfile.read_gpr(b);
            Ok(ResolvedLoc::Mem(u32_wadd(add_disp(base, d, DataSize::Longword), off)))
        },
        OperandMode::IndexedLongwordDisplacementDeferred(idx, b) => {
            let off = u32_wmul(cpu.regfile.read_gpr(idx), w);
            let d = read_disp(cpu, DataSize::Longword)?;
            let base = cpu.regfile.read_gpr(b);
            Ok(ResolvedLoc::DeferredIdx(add_disp(base, d, DataSize::Longword), off))
        },
    }
}

/// Resolving a register-indirect autoincrement operand of width `w`
/// mutates the register by exactly `+w` — and an autodecrement operand by
/// exactly `-w` — exactly once, at resolution time; every other register
/// is untouched, and no subsequent access of the resolved handle moves a
/// register again (each handle access promises an unchanged register
/// file).
pub proof fn lemma_autoincrement_side_effect(rf: VAXRegisterFile, s: DataSize, r: u8)
    requires
        r < 16,
    ensures
        resolved_regfile(OperandMode::Autoincrement(r), rf, s).read_gpr_spec(r) == wadd32(
            rf.read_gpr_spec(r),
            s.byte_len_spec() as int,
        ),
        resolved_regfile(OperandMode::Autodecrement(r), rf, s).read_gpr_spec(r) == wadd32(
            rf.read_gpr_spec(r),
            -(s.byte_len_spec() as int),
        ),
        forall|j: u8|
            j < 16 && j != r && !(j >= 14 && r >= 14) ==> #[trigger] resolved_regfile(
                OperandMode::Autoincrement(r),
                rf,
                s,
            ).read_gpr_spec(j) == rf.read_gpr_spec(j),
{
    rf.lemma_gpr_read_after_write(r, wadd32(rf.read_gpr_spec(r), s.byte_len_spec() as int));
    rf.lemma_gpr_read_after_write(r, wadd32(rf.read_gpr_spec(r), -(s.byte_len_spec() as int)));
}

/// A resolved read-intent operand: an immediate value, a memory address,
/// or an address that still needs one indirection (resolved by
/// `validate`).
#[derive(Copy, Clone, Debug)]
pub enum UnresolvedOperandRead {
    MemRead(u32),
    DeferredMemRead(u32),
    DeferredIdxMemRead(u32, u32),
    Value(u128),
}

impl UnresolvedOperandRead {
    /// Whether one more memory read is needed before the final address is
    /// known.
    pub open spec fn is_deferred(self) -> bool {
        self is DeferredMemRead || self is DeferredIdxMemRead
    }

    /// An immediate value carried by the handle fits the operand width.
    pub open spec fn fits(self, s: DataSize) -> bool {
        self matches UnresolvedOperandRead::Value(v) ==> in_size(v, s)
    }

    /// Resolve any pending indirection and check that the final location
    /// may be read, without reading the operand itself. Never touches a
    /// register.
    pub fn validate<B: VAXBus>(&mut self, cpu: &mut VAXCPU<B>) -> (r: Result<(), Error>)
        requires
            old(cpu).has_bus(),
        ensures
            final(cpu).has_bus(),
            final(cpu).regfile == old(cpu).regfile,
            final(cpu).halted == old(cpu).halted,
            final(cpu).itable == old(cpu).itable,
            final(cpu).multi_instr_active == old(cpu).multi_instr_active,
            final(cpu).wf() == old(cpu).wf(),
            (r matches Ok(_) ==> !final(self).is_deferred()),
            *old(self) is Value ==> *final(self) == *old(self) && r is Ok,
            *old(self) is MemRead ==> *final(self) == *old(self) && ((r is Ok) == !old(
                cpu,
            ).regfile.mapen),
            forall|s: DataSize| old(self).fits(s) ==> final(self).fits(s),
    {
        match *self {
            UnresolvedOperandRead::MemRead(addr) => cpu.can_read_val(addr, DataSize::Byte),
            UnresolvedOperandRead::DeferredMemRead(addr) => {
                let addr2v = cpu.read_val(addr, DataSize::Longword)?;
                let addr2 = addr2v as u32;
                cpu.can_read_val(addr2, DataSize::Byte)?;
                *self = UnresolvedOperandRead::MemRead(addr2);
                Ok(())
            },
            UnresolvedOperandRead::DeferredIdxMemRead(addr, off) => {
                let addr2v = cpu.read_val(addr, DataSize::Longword)?;
                let addr2 = u32_wadd(addr2v as u32, off);
                cpu.can_read_val(addr2, DataSize::Byte)?;
                *self = UnresolvedOperandRead::MemRead(addr2);
                Ok(())
            },
            UnresolvedOperandRead::Value(_) => Ok(()),
        }
    }

    /// Fetch the operand through an already-validated handle. Never
    /// touches a register.
    pub fn execute<B: VAXBus>(self, cpu: &mut VAXCPU<B>, size: DataSize) -> (r: Result<
        u128,
        Error,
    >)
        requires
            old(cpu).has_bus(),
            !self.is_deferred(),
            self.fits(size),
        ensures
            final(cpu).has_bus(),
            final(cpu).regfile == old(cpu).regfile,
            final(cpu).halted == old(cpu).halted,
            final(cpu).itable == old(cpu).itable,
            final(cpu).multi_instr_active == old(cpu).multi_instr_active,
            final(cpu).wf() == old(cpu).wf(),
            (r matches Ok(v) ==> in_size(v, size)),
            self matches UnresolvedOperandRead::Value(v) ==> r == Ok::<u128, Error>(v),
    {
        match self {
            UnresolvedOperandRead::MemRead(addr) => cpu.read_val(addr, size),
            UnresolvedOperandRead::Value(v) => Ok(v),
            _ => {
                proof {
                    assert(false);
                }
                Err(Error::new_address_mode_fault())
            },
        }
    }

    /// Validate, then fetch.
    pub fn read<B: VAXBus>(self, cpu: &mut VAXCPU<B>, size: DataSize) -> (r: Result<u128, Error>)
        requires
            old(cpu).has_bus(),
            self.fits(size),
        ensures
            final(cpu).has_bus(),
            final(cpu).regfile == old(cpu).regfile,
            final(cpu).halted == old(cpu).halted,
            final(cpu).itable == old(cpu).itable,
            final(cpu).multi_instr_active == old(cpu).multi_instr_active,
            final(cpu).wf() == old(cpu).wf(),
            (r matches Ok(v) ==> in_size(v, size)),
            self matches UnresolvedOperandRead::Value(v) ==> (r matches Ok(rv) ==> rv == v),
    {
        let mut h = self;
        h.validate(cpu)?;
        h.execute(cpu, size)
    }

    /// The final memory address of the operand. An operand that lives in a
    /// register or in the instruction stream has none: reserved
    /// addressing-mode fault.
    pub fn address(&self) -> (r: Result<u32, Error>)
        requires
            !self.is_deferred(),
        ensures
            self matches UnresolvedOperandRead::MemRead(a) ==> r == Ok::<u32, Error>(*a),
            self is Value ==> (r matches Err(e) && e.kind_spec()
                == ErrorKind::ReservedAddressingMode),
    {
        match *self {
            UnresolvedOperandRead::MemRead(a) => Ok(a),
            _ => Err(Error::new_address_mode_fault()),
        }
    }
}

/// A resolved write-intent operand: a register, a memory address, or an
/// address needing one indirection.
#[derive(Copy, Clone, Debug)]
pub enum UnresolvedOperandWrite {
    MemWrite(u32),
    DeferredMemWrite(u32),
    DeferredIdxMemWrite(u32, u32),
    RegWrite(u8),
}

impl UnresolvedOperandWrite {
    pub open spec fn is_deferred(self) -> bool {
        self is DeferredMemWrite || self is DeferredIdxMemWrite
    }

    /// A register destination names an architectural register.
    pub open spec fn wf(self) -> bool {
        self matches UnresolvedOperandWrite::RegWrite(r) ==> r < 16
    }

    /// Resolve any pending indirection and check that the final location
    /// may be written, before anything is written. Never touches a
    /// register.
    pub fn validate<B: VAXBus>(&mut self, cpu: &mut VAXCPU<B>) -> (r: Result<(), Error>)
        requires
            old(cpu).has_bus(),
        ensures
            final(cpu).has_bus(),
            final(cpu).regfile == old(cpu).regfile,
            final(cpu).halted == old(cpu).halted,
            final(cpu).itable == old(cpu).itable,
            final(cpu).multi_instr_active == old(cpu).multi_instr_active,
            final(cpu).wf() == old(cpu).wf(),
            (r matches Ok(_) ==> !final(self).is_deferred()),
            (*final(self) is RegWrite) == (*old(self) is RegWrite),
            *old(self) is RegWrite ==> *final(self) == *old(self) && r is Ok,
            *old(self) is MemWrite ==> *final(self) == *old(self) && ((r is Ok) == !old(
                cpu,
            ).regfile.mapen),
            old(self).wf() ==> final(self).wf(),
    {
        match *self {
            UnresolvedOperandWrite::MemWrite(addr) => cpu.can_write_val(addr, DataSize::Byte),
            UnresolvedOperandWrite::DeferredMemWrite(addr) => {
                let addr2v = cpu.read_val(addr, DataSize::Longword)?;
                let addr2 = addr2v as u32;
                cpu.can_write_val(addr2, DataSize::Byte)?;
                *self = UnresolvedOperandWrite::MemWrite(addr2);
                Ok(())
            },
            UnresolvedOperandWrite::DeferredIdxMemWrite(addr, off) => {
                let addr2v = cpu.read_val(addr, DataSize::Longword)?;
                let addr2 = u32_wadd(addr2v as u32, off);
                cpu.can_write_val(addr2, DataSize::Byte)?;
                *self = UnresolvedOperandWrite::MemWrite(addr2);
                Ok(())
            },
            UnresolvedOperandWrite::RegWrite(_) => Ok(()),
        }
    }

    /// Store the operand through an already-validated handle. A register
    /// destination takes the value with the width's masking semantics;
    /// memory takes its little-endian image.
    pub fn execute<B: VAXBus>(&self, cpu: &mut VAXCPU<B>, size: DataSize, value: u128) -> (r:
        Result<(), Error>)
        requires
            old(cpu).has_bus(),
            !self.is_deferred(),
            self.wf(),
            in_size(value, size),
        ensures
            final(cpu).has_bus(),
            final(cpu).halted == old(cpu).halted,
            final(cpu).itable == old(cpu).itable,
            final(cpu).multi_instr_active == old(cpu).multi_instr_active,
            final(cpu).wf() == old(cpu).wf(),
            self matches UnresolvedOperandWrite::RegWrite(rr) ==> r is Ok && final(cpu).regfile
                == old(cpu).regfile.ext_written(*rr, size, value),
            !(self is RegWrite) ==> final(cpu).regfile == old(cpu).regfile,
    {
        match *self {
            UnresolvedOperandWrite::RegWrite(rr) => {
                cpu.regfile.write_gpr_ext(rr, size, value);
                Ok(())
            },
            UnresolvedOperandWrite::MemWrite(addr) => cpu.write_val(addr, size, value),
            _ => {
                proof {
                    assert(false);
                }
                Err(Error::new_address_mode_fault())
            },
        }
    }

    /// Validate, then store.
    pub fn write<B: VAXBus>(self, cpu: &mut VAXCPU<B>, size: DataSize, value: u128) -> (r: Result<
        (),
        Error,
    >)
        requires
            old(cpu).has_bus(),
            self.wf(),
            in_size(value, size),
        ensures
            final(cpu).has_bus(),
            final(cpu).halted == old(cpu).halted,
            final(cpu).itable == old(cpu).itable,
            final(cpu).multi_instr_active == old(cpu).multi_instr_active,
            final(cpu).wf() == old(cpu).wf(),
            self matches UnresolvedOperandWrite::RegWrite(rr) ==> r is Ok && final(cpu).regfile
                == old(cpu).regfile.ext_written(rr, size, value),
            !(self is RegWrite) ==> final(cpu).regfile == old(cpu).regfile,
    {
        let mut h = self;
        h.validate(cpu)?;
        proof {
            if self is RegWrite {
                assert(h == self);
            }
        }
        h.execute(cpu, size, value)
    }
}

/// A resolved modify-intent operand: read, then written back in place.
#[derive(Copy, Clone, Debug)]
pub enum UnresolvedOperandModify {
    Mem(u32),
    DeferredMem(u32),
    DeferredIdxMem(u32, u32),
    Value(u128, u8),
}

impl UnresolvedOperandModify {
    pub open spec fn is_deferred(self) -> bool {
        self is DeferredMem || self is DeferredIdxMem
    }

    /// A register operand names an architectural register and carries a
    /// value of the operand width.
    pub open spec fn fits(self, s: DataSize) -> bool {
        self matches UnresolvedOperandModify::Value(v, r) ==> in_size(v, s) && r < 16
    }

    /// Resolve any pending indirection and check writability, before any
    /// access. Never touches a register.
    pub fn validate<B: VAXBus>(&mut self, cpu: &mut VAXCPU<B>) -> (r: Result<(), Error>)
        requires
            old(cpu).has_bus(),
        ensures
            final(cpu).has_bus(),
            final(cpu).regfile == old(cpu).regfile,
            final(cpu).halted == old(cpu).halted,
            final(cpu).itable == old(cpu).itable,
            final(cpu).multi_instr_active == old(cpu).multi_instr_active,
            final(cpu).wf() == old(cpu).wf(),
            (r matches Ok(_) ==> !final(self).is_deferred()),
            (*final(self) is Value) == (*old(self) is Value),
            *old(self) is Value ==> *final(self) == *old(self) && r is Ok,
            *old(self) is Mem ==> *final(self) == *old(self) && ((r is Ok) == !old(
                cpu,
            ).regfile.mapen),
            forall|s: DataSize| old(self).fits(s) ==> final(self).fits(s),
    {
        match *self {
            UnresolvedOperandModify::Mem(addr) => cpu.can_write_val(addr, DataSize::Byte),
            UnresolvedOperandModify::DeferredMem(addr) => {
                let addr2v = cpu.read_val(addr, DataSize::Longword)?;
                let addr2 = addr2v as u32;
                cpu.can_write_val(addr2, DataSize::Byte)?;
                *self = UnresolvedOperandModify::Mem(addr2);
                Ok(())
            },
            UnresolvedOperandModify::DeferredIdxMem(addr, off) => {
                let addr2v = cpu.read_val(addr, DataSize::Longword)?;
                let addr2 = u32_wadd(addr2v as u32, off);
                cpu.can_write_val(addr2, DataSize::Byte)?;
                *self = UnresolvedOperandModify::Mem(addr2);
                Ok(())
            },
            UnresolvedOperandModify::Value(_, _) => Ok(()),
        }
    }

    /// Fetch the current operand value through an already-validated
    /// handle. Never touches a register.
    pub fn execute_read<B: VAXBus>(&self, cpu: &mut VAXCPU<B>, size: DataSize) -> (r: Result<
        u128,
        Error,
    >)
        requires
            old(cpu).has_bus(),
            !self.is_deferred(),
            self.fits(size),
        ensures
            final(cpu).has_bus(),
            final(cpu).regfile == old(cpu).regfile,
            final(cpu).halted == old(cpu).halted,
            final(cpu).itable == old(cpu).itable,
            final(cpu).multi_instr_active == old(cpu).multi_instr_active,
            final(cpu).wf() == old(cpu).wf(),
            (r matches Ok(v) ==> in_size(v, size)),
            self matches UnresolvedOperandModify::Value(v, _) ==> r == Ok::<u128, Error>(*v),
    {
        match *self {
            UnresolvedOperandModify::Mem(addr) => cpu.read_val(addr, size),
            UnresolvedOperandModify::Value(v, _) => Ok(v),
            _ => {
                proof {
                    assert(false);
                }
                Err(Error::new_address_mode_fault())
            },
        }
    }

    /// Store the new operand value through an already-validated handle.
    pub fn execute_write<B: VAXBus>(&self, cpu: &mut VAXCPU<B>, size: DataSize, value: u128) -> (r:
        Result<(), Error>)
        requires
            old(cpu).has_bus(),
            !self.is_deferred(),
            self.fits(size),
            in_size(value, size),
        ensures
            final(cpu).has_bus(),
            final(cpu).halted == old(cpu).halted,
            final(cpu).itable == old(cpu).itable,
            final(cpu).multi_instr_active == old(cpu).multi_instr_active,
            final(cpu).wf() == old(cpu).wf(),
            self matches UnresolvedOperandModify::Value(_, rr) ==> r is Ok && final(cpu).regfile
                == old(cpu).regfile.ext_written(*rr, size, value),
            !(self is Value) ==> final(cpu).regfile == old(cpu).regfile,
    {
        match *self {
            UnresolvedOperandModify::Value(_, rr) => {
                cpu.regfile.write_gpr_ext(rr, size, value);
                Ok(())
            },
            UnresolvedOperandModify::Mem(addr) => cpu.write_val(addr, size, value),
            _ => {
                proof {
                    assert(false);
                }
                Err(Error::new_address_mode_fault())
            },
        }
    }
}

impl OperandMode {
    /// Resolve this mode for read intent: every mode is legal for reads,
    /// and the addressing side effect lands exactly once, here.
    pub fn create_unresolved_read<B: VAXBus>(self, cpu: &mut VAXCPU<B>, size: DataSize) -> (r:
        Result<UnresolvedOperandRead, Error>)
        requires
            old(cpu).has_bus(),
            mode_wf(self),
        ensures
            final(cpu).has_bus(),
            final(cpu).halted == old(cpu).halted,
            final(cpu).itable == old(cpu).itable,
            final(cpu).multi_instr_active == old(cpu).multi_instr_active,
            final(cpu).wf() == old(cpu).wf(),
            final(cpu).regfile == resolved_regfile(self, old(cpu).regfile, size),
            (r matches Ok(h) ==> h.fits(size)),
            self matches OperandMode::Literal(v) ==> r == Ok::<UnresolvedOperandRead, Error>(
                UnresolvedOperandRead::Value(v as u128),
            ),
            self matches OperandMode::Register(rr) ==> r == Ok::<UnresolvedOperandRead, Error>(
                UnresolvedOperandRead::Value(old(cpu).regfile.read_ext_spec(rr, size)),
            ),
            self matches OperandMode::RegisterDeferred(rr) ==> r == Ok::<
                UnresolvedOperandRead,
                Error,
            >(UnresolvedOperandRead::MemRead(old(cpu).regfile.read_gpr_spec(rr))),
            self matches OperandMode::Autoincrement(rr) ==> r == Ok::<
                UnresolvedOperandRead,
                Error,
            >(UnresolvedOperandRead::MemRead(old(cpu).regfile.read_gpr_spec(rr))),
            self matches OperandMode::Autodecrement(rr) ==> r == Ok::<
                UnresolvedOperandRead,
                Error,
            >(
                UnresolvedOperandRead::MemRead(
                    wadd32(old(cpu).regfile.read_gpr_spec(rr), -(size.byte_len_spec() as int)),
                ),
            ),
            self matches OperandMode::AutoincrementDeferred(rr) ==> r == Ok::<
                UnresolvedOperandRead,
                Error,
            >(UnresolvedOperandRead::DeferredMemRead(old(cpu).regfile.read_gpr_spec(rr))),
    {
        match self {
            OperandMode::Literal(v) => {
                proof {
                    assert(crate::arith::size_max(size) >= 0xFF) by {
                        match size {
                            DataSize::Byte => {},
                            DataSize::Word => {},
                            DataSize::Longword => {},
                            DataSize::Quadword => {},
                            DataSize::Octaword => {},
                        }
                    }
                }
                Ok(UnresolvedOperandRead::Value(v as u128))
            },
            _ => {
                let loc = resolve_loc(self, cpu, size)?;
                match loc {
                    ResolvedLoc::Reg(rr) => Ok(
                        UnresolvedOperandRead::Value(cpu.regfile.read_gpr_ext(rr, size)),
                    ),
                    ResolvedLoc::Mem(a) => Ok(UnresolvedOperandRead::MemRead(a)),
                    ResolvedLoc::DeferredMem(a) => Ok(UnresolvedOperandRead::DeferredMemRead(a)),
                    ResolvedLoc::DeferredIdx(a, off) => Ok(
                        UnresolvedOperandRead::DeferredIdxMemRead(a, off),
                    ),
                }
            },
        }
    }

    /// Resolve this mode for write intent: a literal operand is illegal to
    /// write (reserved addressing-mode fault); the side effect otherwise
    /// lands exactly as for reads.
    pub fn create_unresolved_write<B: VAXBus>(self, cpu: &mut VAXCPU<B>, size: DataSize) -> (r:
        Result<UnresolvedOperandWrite, Error>)
        requires
            old(cpu).has_bus(),
            mode_wf(self),
        ensures
            final(cpu).has_bus(),
            final(cpu).halted == old(cpu).halted,
            final(cpu).itable == old(cpu).itable,
            final(cpu).multi_instr_active == old(cpu).multi_instr_active,
            final(cpu).wf() == old(cpu).wf(),
            (r matches Ok(h) ==> h.wf()),
            self is Literal ==> final(cpu).regfile == old(cpu).regfile && (r matches Err(e)
                && e.kind_spec() == ErrorKind::ReservedAddressingMode),
            !(self is Literal) ==> final(cpu).regfile == resolved_regfile(
                self,
                old(cpu).regfile,
                size,
            ),
            self matches OperandMode::Register(rr) ==> r == Ok::<UnresolvedOperandWrite, Error>(
                UnresolvedOperandWrite::RegWrite(rr),
            ),
            self matches OperandMode::Autoincrement(rr) ==> r == Ok::<
                UnresolvedOperandWrite,
                Error,
            >(UnresolvedOperandWrite::MemWrite(old(cpu).regfile.read_gpr_spec(rr))),
            self matches OperandMode::Autodecrement(rr) ==> r == Ok::<
                UnresolvedOperandWrite,
                Error,
            >(
                UnresolvedOperandWrite::MemWrite(
                    wadd32(old(cpu).regfile.read_gpr_spec(rr), -(size.byte_len_spec() as int)),
                ),
            ),
    {
        match self {
            OperandMode::Literal(_) => Err(Error::new_address_mode_fault()),
            _ => {
                let loc = resolve_loc(self, cpu, size)?;
                match loc {
                    ResolvedLoc::Reg(rr) => Ok(UnresolvedOperandWrite::RegWrite(rr)),
                    ResolvedLoc::Mem(a) => Ok(UnresolvedOperandWrite::MemWrite(a)),
                    ResolvedLoc::DeferredMem(a) => Ok(UnresolvedOperandWrite::DeferredMemWrite(a)),
                    ResolvedLoc::DeferredIdx(a, off) => Ok(
                        UnresolvedOperandWrite::DeferredIdxMemWrite(a, off),
                    ),
                }
            },
        }
    }

    /// Resolve this mode for modify intent (read, then write back in
    /// place); a literal is illegal here too.
    pub fn create_unresolved_modify<B: VAXBus>(self, cpu: &mut VAXCPU<B>, size: DataSize) -> (r:
        Result<UnresolvedOperandModify, Error>)
        requires
            old(cpu).has_bus(),
            mode_wf(self),
        ensures
            final(cpu).has_bus(),
            final(cpu).halted == old(cpu).halted,
            final(cpu).itable == old(cpu).itable,
            final(cpu).multi_instr_active == old(cpu).multi_instr_active,
            final(cpu).wf() == old(cpu).wf(),
            (r matches Ok(h) ==> h.fits(size)),
            self is Literal ==> final(cpu).regfile == old(cpu).regfile && (r matches Err(e)
                && e.kind_spec() == ErrorKind::ReservedAddressingMode),
            !(self is Literal) ==> final(cpu).regfile == resolved_regfile(
                self,
                old(cpu).regfile,
                size,
            ),
            self matches OperandMode::Register(rr) ==> r == Ok::<UnresolvedOperandModify, Error>(
                UnresolvedOperandModify::Value(old(cpu).regfile.read_ext_spec(rr, size), rr),
            ),
    {
        match self {
            OperandMode::Literal(_) => Err(Error::new_address_mode_fault()),
            _ => {
                let loc = resolve_loc(self, cpu, size)?;
                match loc {
                    ResolvedLoc::Reg(rr) => Ok(
                        UnresolvedOperandModify::Value(cpu.regfile.read_gpr_ext(rr, size), rr),
                    ),
                    ResolvedLoc::Mem(a) => Ok(UnresolvedOperandModify::Mem(a)),
                    ResolvedLoc::DeferredMem(a) => Ok(UnresolvedOperandModify::DeferredMem(a)),
                    ResolvedLoc::DeferredIdx(a, off) => Ok(
                        UnresolvedOperandModify::DeferredIdxMem(a, off),
                    ),
                }
            },
        }
    }
}

/// Fetch the operand specifier at the program counter, advance the counter
/// past it, and resolve it for read intent.
pub fn parse_read_operand<B: VAXBus>(cpu: &mut VAXCPU<B>, size: DataSize) -> (r: Result<
    UnresolvedOperandRead,
    Error,
>)
    requires
        old(cpu).has_bus(),
    ensures
        final(cpu).has_bus(),
        final(cpu).halted == old(cpu).halted,
        final(cpu).itable == old(cpu).itable,
        final(cpu).multi_instr_active == old(cpu).multi_instr_active,
        final(cpu).wf() == old(cpu).wf(),
        (r matches Ok(h) ==> h.fits(size)),
        old(cpu).regfile.mapen ==> (r matches Err(e) && e.kind_spec()
            == ErrorKind::TranslationNotValid),
        final(cpu).regfile.psl == old(cpu).regfile.psl,
{
    let pc0 = cpu.regfile.get_pc();
    let head = cpu.read_val(pc0, DataSize::Word)?;
    let b0 = (head % 0x100) as u8;
    let b1 = ((head / 0x100) % 0x100) as u8;
    let mode = OperandMode::identify_operand([b0, b1])?;
    let bs = mode.byte_size();
    let npc = u32_wadd(pc0, bs as u32);
    cpu.regfile.set_pc(npc);
    let ghost rf = cpu.regfile;
    proof {
        lemma_resolved_preserves_psl(mode, rf, size);
    }
    mode.create_unresolved_read(cpu, size)
}

/// Fetch the operand specifier at the program counter, advance the counter
/// past it, and resolve it for write intent.
pub fn parse_write_operand<B: VAXBus>(cpu: &mut VAXCPU<B>, size: DataSize) -> (r: Result<
    UnresolvedOperandWrite,
    Error,
>)
    requires
        old(cpu).has_bus(),
    ensures
        final(cpu).has_bus(),
        final(cpu).halted == old(cpu).halted,
        final(cpu).itable == old(cpu).itable,
        final(cpu).multi_instr_active == old(cpu).multi_instr_active,
        final(cpu).wf() == old(cpu).wf(),
        (r matches Ok(h) ==> h.wf()),
        old(cpu).regfile.mapen ==> (r matches Err(e) && e.kind_spec()
            == ErrorKind::TranslationNotValid),
        final(cpu).regfile.psl == old(cpu).regfile.psl,
{
    let pc0 = cpu.regfile.get_pc();
    let head = cpu.read_val(pc0, DataSize::Word)?;
    let b0 = (head % 0x100) as u8;
    let b1 = ((head / 0x100) % 0x100) as u8;
    let mode = OperandMode::identify_operand([b0, b1])?;
    let bs = mode.byte_size();
    let npc = u32_wadd(pc0, bs as u32);
    cpu.regfile.set_pc(npc);
    let ghost rf = cpu.regfile;
    proof {
        lemma_resolved_preserves_psl(mode, rf, size);
    }
    mode.create_unresolved_write(cpu, size)
}

/// Fetch the operand specifier at the program counter, advance the counter
/// past it, and resolve it for modify intent.
pub fn parse_modify_operand<B: VAXBus>(cpu: &mut VAXCPU<B>, size: DataSize) -> (r: Result<
    UnresolvedOperandModify,
    Error,
>)
    requires
        old(cpu).has_bus(),
    ensures
        final(cpu).has_bus(),
        final(cpu).halted == old(cpu).halted,
        final(cpu).itable == old(cpu).itable,
        final(cpu).multi_instr_active == old(cpu).multi_instr_active,
        final(cpu).wf() == old(cpu).wf(),
        (r matches Ok(h) ==> h.fits(size)),
        old(cpu).regfile.mapen ==> (r matches Err(e) && e.kind_spec()
            == ErrorKind::TranslationNotValid),
        final(cpu).regfile.psl == old(cpu).regfile.psl,
{
    let pc0 = cpu.regfile.get_pc();
    let head = cpu.read_val(pc0, DataSize::Word)?;
    let b0 = (head % 0x100) as u8;
    let b1 = ((head / 0x100) % 0x100) as u8;
    let mode = OperandMode::identify_operand([b0, b1])?;
    let bs = mode.byte_size();
    let npc = u32_wadd(pc0, bs as u32);
    cpu.regfile.set_pc(npc);
    let ghost rf = cpu.regfile;
    proof {
        lemma_resolved_preserves_psl(mode, rf, size);
    }
    mode.create_unresolved_modify(cpu, size)
}

} // verus!
