//! Control-transfer instruction handlers: conditional and unconditional
//! branches, jumps, subroutine calls and returns, and the case dispatch.

use crate::arith::flagged_sub;
use crate::bus::VAXBus;
use crate::cpu::VAXCPU;
use crate::cycles::Cycles;
use crate::error::{Error, ErrorKind};
use crate::instr_misc::{pop, push, read_data};
use crate::operands::{add_disp, parse_read_operand, u32_wadd, u32_wmul};
use crate::psl::{PslFields, PSL};
use crate::DataSize;
use vstd::prelude::*;

verus! {

/// Which combination of condition flags a conditional branch examines.
#[derive(Copy, Clone, Debug, PartialEq, Eq, Structural)]
pub enum BranchCondition {
    NOrZUnset,
    NOrZSet,
    ZUnset,
    ZSet,
    NUnset,
    NSet,
    COrZUnset,
    COrZSet,
    VUnset,
    VSet,
    CUnset,
    CSet,
}

/// The predicate each condition tests over the unpacked status fields.
pub open spec fn branch_test_spec(c: BranchCondition, f: PslFields) -> bool {
    match c {
        BranchCondition::NOrZUnset => !(f.negative || f.zero),
        BranchCondition::NOrZSet => f.negative || f.zero,
        BranchCondition::ZUnset => !f.zero,
        BranchCondition::ZSet => f.zero,
        BranchCondition::NUnset => !f.negative,
        BranchCondition::NSet => f.negative,
        BranchCondition::COrZUnset => !(f.carry || f.zero),
        BranchCondition::COrZSet => f.carry || f.zero,
        BranchCondition::VUnset => !f.overflow,
        BranchCondition::VSet => f.overflow,
        BranchCondition::CUnset => !f.carry,
        BranchCondition::CSet => f.carry,
    }
}

impl BranchCondition {
    /// Whether the branch is taken under the given status longword.
    pub fn test(self, flags: PSL) -> (r: bool)
        ensures
            r == branch_test_spec(self, flags@),
    {
        match self {
            BranchCondition::NOrZUnset => !(flags.get_n() || flags.get_z()),
            BranchCondition::NOrZSet => flags.get_n() || flags.get_z(),
            BranchCondition::ZUnset => !flags.get_z(),
            BranchCondition::ZSet => flags.get_z(),
            BranchCondition::NUnset => !flags.get_n(),
            BranchCondition::NSet => flags.get_n(),
            BranchCondition::COrZUnset => !(flags.get_c() || flags.get_z()),
            BranchCondition::COrZSet => flags.get_c() || flags.get_z(),
            BranchCondition::VUnset => !flags.get_v(),
            BranchCondition::VSet => flags.get_v(),
            BranchCondition::CUnset => !flags.get_c(),
            BranchCondition::CSet => flags.get_c(),
        }
    }
}

/// Move the program counter by a sign-extended displacement of width `s`.
fn jump_with_displacement<B: VAXBus>(cpu: &mut VAXCPU<B>, disp: u128, s: DataSize)
    requires
        crate::arith::in_size(disp, s),
        s == DataSize::Byte || s == DataSize::Word,
    ensures
        final(cpu).regfile == (crate::regfile::VAXRegisterFile {
            pc: crate::operands::wadd32(
                old(cpu).regfile.pc,
                crate::arith::signed_val(s, disp as int),
            ),
            ..old(cpu).regfile
        }),
        final(cpu).halted == old(cpu).halted,
        final(cpu).bus == old(cpu).bus,
        final(cpu).itable == old(cpu).itable,
        final(cpu).cur_cycle == old(cpu).cur_cycle,
        final(cpu).multi_instr_active == old(cpu).multi_instr_active,
{
    let pc = cpu.regfile.get_pc();
    let npc = add_disp(pc, disp, s);
    cpu.regfile.set_pc(npc);
}

/// A conditional branch with a byte displacement: taken exactly when the
/// condition holds of the committed flags.
pub fn instr_branch_cond<B: VAXBus>(
    cpu: &mut VAXCPU<B>,
    _cycle_count: &mut Cycles,
    cond: BranchCondition,
) -> (r: Result<(), Error>)
    requires
        old(cpu).wf(),
        old(cpu).has_bus(),
    ensures
        final(cpu).wf(),
        final(cpu).has_bus(),
        final(cpu).halted == old(cpu).halted,
        final(cpu).multi_instr_active == old(cpu).multi_instr_active,
        old(cpu).regfile.mapen ==> (r matches Err(e) && e.kind_spec()
            == ErrorKind::TranslationNotValid),
{
    let displ = read_data(cpu, DataSize::Byte)?;
    let will_branch = cond.test(cpu.regfile.get_psl());
    if will_branch {
        jump_with_displacement(cpu, displ, DataSize::Byte);
    }
    Ok(())
}

/// Unconditional branch, byte displacement.
pub fn instr_branch_byte<B: VAXBus>(cpu: &mut VAXCPU<B>, _cycle_count: &mut Cycles) -> (r: Result<
    (),
    Error,
>)
    requires
        old(cpu).wf(),
        old(cpu).has_bus(),
    ensures
        final(cpu).wf(),
        final(cpu).has_bus(),
        final(cpu).halted == old(cpu).halted,
        final(cpu).multi_instr_active == old(cpu).multi_instr_active,
        old(cpu).regfile.mapen ==> (r matches Err(e) && e.kind_spec()
            == ErrorKind::TranslationNotValid),
{
    let displ = read_data(cpu, DataSize::Byte)?;
    jump_with_displacement(cpu, displ, DataSize::Byte);
    Ok(())
}

/// Unconditional branch, word displacement.
pub fn instr_branch_word<B: VAXBus>(cpu: &mut VAXCPU<B>, _cycle_count: &mut Cycles) -> (r: Result<
    (),
    Error,
>)
    requires
        old(cpu).wf(),
        old(cpu).has_bus(),
    ensures
        final(cpu).wf(),
        final(cpu).has_bus(),
        final(cpu).halted == old(cpu).halted,
        final(cpu).multi_instr_active == old(cpu).multi_instr_active,
        old(cpu).regfile.mapen ==> (r matches Err(e) && e.kind_spec()
            == ErrorKind::TranslationNotValid),
{
    let displ = read_data(cpu, DataSize::Word)?;
    jump_with_displacement(cpu, displ, DataSize::Word);
    Ok(())
}

/// Branch to subroutine, byte displacement: the return counter goes on the
/// stack first.
pub fn instr_branch_subroutine_byte<B: VAXBus>(cpu: &mut VAXCPU<B>, _cycle_count: &mut Cycles) -> (
    r: Result<(), Error>)
    requires
        old(cpu).wf(),
        old(cpu).has_bus(),
    ensures
        final(cpu).wf(),
        final(cpu).has_bus(),
        final(cpu).halted == old(cpu).halted,
        final(cpu).multi_instr_active == old(cpu).multi_instr_active,
        old(cpu).regfile.mapen ==> (r matches Err(e) && e.kind_spec()
            == ErrorKind::TranslationNotValid),
{
    let displ = read_data(cpu, DataSize::Byte)?;
    let pc = cpu.regfile.get_pc();
    push(cpu, DataSize::Longword, pc as u128)?;
    jump_with_displacement(cpu, displ, DataSize::Byte);
    Ok(())
}

/// Branch to subroutine, word displacement.
pub fn instr_branch_subroutine_word<B: VAXBus>(cpu: &mut VAXCPU<B>, _cycle_count: &mut Cycles) -> (
    r: Result<(), Error>)
    requires
        old(cpu).wf(),
        old(cpu).has_bus(),
    ensures
        final(cpu).wf(),
        final(cpu).has_bus(),
        final(cpu).halted == old(cpu).halted,
        final(cpu).multi_instr_active == old(cpu).multi_instr_active,
        old(cpu).regfile.mapen ==> (r matches Err(e) && e.kind_spec()
            == ErrorKind::TranslationNotValid),
{
    let displ = read_data(cpu, DataSize::Word)?;
    let pc = cpu.regfile.get_pc();
    push(cpu, DataSize::Longword, pc as u128)?;
    jump_with_displacement(cpu, displ, DataSize::Word);
    Ok(())
}

/// Branch on low bit: taken when the operand's lowest bit equals `val`.
pub fn instr_branch_low_bit<B: VAXBus>(
    cpu: &mut VAXCPU<B>,
    _cycle_count: &mut Cycles,
    val: bool,
) -> (r: Result<(), Error>)
    requires
        old(cpu).wf(),
        old(cpu).has_bus(),
    ensures
        final(cpu).wf(),
        final(cpu).has_bus(),
        final(cpu).halted == old(cpu).halted,
        final(cpu).multi_instr_active == old(cpu).multi_instr_active,
        old(cpu).regfile.mapen ==> (r matches Err(e) && e.kind_spec()
            == ErrorKind::TranslationNotValid),
{
    let op = parse_read_operand(cpu, DataSize::Longword)?.read(cpu, DataSize::Longword)?;
    let displ = read_data(cpu, DataSize::Byte)?;
    if (op % 2 == 1) == val {
        jump_with_displacement(cpu, displ, DataSize::Byte);
    }
    Ok(())
}

/// Jump: the program counter takes the operand's final address.
pub fn instr_jmp<B: VAXBus>(cpu: &mut VAXCPU<B>, _cycle_count: &mut Cycles) -> (r: Result<
    (),
    Error,
>)
    requires
        old(cpu).wf(),
        old(cpu).has_bus(),
    ensures
        final(cpu).wf(),
        final(cpu).has_bus(),
        final(cpu).halted == old(cpu).halted,
        final(cpu).multi_instr_active == old(cpu).multi_instr_active,
        old(cpu).regfile.mapen ==> (r matches Err(e) && e.kind_spec()
            == ErrorKind::TranslationNotValid),
{
    let mut selector = parse_read_operand(cpu, DataSize::Longword)?;
    selector.validate(cpu)?;
    let addr = selector.address()?;
    cpu.regfile.set_pc(addr);
    Ok(())
}

/// Jump to subroutine: like jump, with the return counter pushed first.
pub fn instr_jsb<B: VAXBus>(cpu: &mut VAXCPU<B>, _cycle_count: &mut Cycles) -> (r: Result<
    (),
    Error,
>)
    requires
        old(cpu).wf(),
        old(cpu).has_bus(),
    ensures
        final(cpu).wf(),
        final(cpu).has_bus(),
        final(cpu).halted == old(cpu).halted,
        final(cpu).multi_instr_active == old(cpu).multi_instr_active,
        old(cpu).regfile.mapen ==> (r matches Err(e) && e.kind_spec()
            == ErrorKind::TranslationNotValid),
{
    let mut selector = parse_read_operand(cpu, DataSize::Longword)?;
    selector.validate(cpu)?;
    let addr = selector.address()?;
    let pc = cpu.regfile.get_pc();
    push(cpu, DataSize::Longword, pc as u128)?;
    cpu.regfile.set_pc(addr);
    Ok(())
}

/// Return from subroutine: the program counter comes back off the stack.
pub fn instr_rsb<B: VAXBus>(cpu: &mut VAXCPU<B>, _cycle_count: &mut Cycles) -> (r: Result<
    (),
    Error,
>)
    requires
        old(cpu).wf(),
        old(cpu).has_bus(),
    ensures
        final(cpu).wf(),
        final(cpu).has_bus(),
        final(cpu).halted == old(cpu).halted,
        final(cpu).multi_instr_active == old(cpu).multi_instr_active,
        old(cpu).regfile.mapen ==> (r matches Err(e) && e.kind_spec()
            == ErrorKind::TranslationNotValid),
{
    let npc = pop(cpu, DataSize::Longword)?;
    cpu.regfile.set_pc(npc as u32);
    Ok(())
}

/// Case dispatch: subtract the base from the selector, and when the
/// difference is within the limit take the word displacement at that index
/// of the table following the instruction, else fall past the table.
pub fn instr_case<B: VAXBus>(cpu: &mut VAXCPU<B>, _cycle_count: &mut Cycles, size: DataSize) -> (r:
    Result<(), Error>)
    requires
        old(cpu).wf(),
        old(cpu).has_bus(),
    ensures
        final(cpu).wf(),
        final(cpu).has_bus(),
        final(cpu).halted == old(cpu).halted,
        final(cpu).multi_instr_active == old(cpu).multi_instr_active,
        old(cpu).regfile.mapen ==> (r matches Err(e) && e.kind_spec()
            == ErrorKind::TranslationNotValid),
{
    let selector = parse_read_operand(cpu, size)?.read(cpu, size)?;
    let base = parse_read_operand(cpu, size)?.read(cpu, size)?;
    let limit = parse_read_operand(cpu, size)?.read(cpu, size)?;

    let sel32 = (selector % 0x1_0000_0000) as u32;
    let base32 = (base % 0x1_0000_0000) as u32;
    let limit32 = (limit % 0x1_0000_0000) as u32;
    let tmp = crate::operands::u32_wsub(sel32, base32);
    let (flags, _) = flagged_sub(DataSize::Longword, tmp as u128, limit32 as u128);

    let pc = cpu.regfile.get_pc();
    if flags.n || flags.z {
        // Within the limit: take the word displacement at the selected
        // index of the table that follows the instruction.
        let idx = u32_wmul(tmp, 2);
        let addr = u32_wadd(pc, idx);
        let disp = cpu.read_val(addr, DataSize::Word)?;
        jump_with_displacement(cpu, disp, DataSize::Word);
    } else {
        // Past the limit: fall through to the instruction after the
        // displacement table, which holds limit + 1 word entries.
        let npc = u32_wadd(pc, u32_wadd(2, u32_wmul(2, limit32)));
        cpu.regfile.set_pc(npc);
    }
    Ok(())
}

} // verus!
