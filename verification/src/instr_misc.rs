//! Stack helpers and the miscellaneous instruction handlers: halt, no-op,
//! clear, push/pop, address-of, processor-register moves and status-word
//! manipulation.

use crate::arith::in_size;
use crate::bus::VAXBus;
use crate::cpu::VAXCPU;
use crate::cycles::Cycles;
use crate::error::{Error, ErrorKind};
use crate::operands::{
    parse_read_operand, parse_write_operand, u32_wadd, u32_wsub, wadd32,
};
use crate::psl::PSL;
use crate::DataSize;
use vstd::prelude::*;

verus! {

/// Fail with a privileged-instruction fault unless the machine is in
/// kernel mode.
pub fn assert_kernel_mode<B: VAXBus>(cpu: &mut VAXCPU<B>) -> (r: Result<(), Error>)
    ensures
        *final(cpu) == *old(cpu),
        (r is Ok) == (old(cpu).regfile.psl@.cur_mod == 0),
        old(cpu).regfile.psl@.cur_mod != 0 ==> (r matches Err(e) && e.kind_spec()
            == ErrorKind::PrivilegedInstruction),
{
    if cpu.regfile.get_psl().get_cur_mod() == 0 {
        Ok(())
    } else {
        Err(Error::new_privileged_instruction_fault())
    }
}

/// Read immediate data of width `s` at the program counter and step past
/// it (the counter advances whether or not the read succeeded).
pub fn read_data<B: VAXBus>(cpu: &mut VAXCPU<B>, s: DataSize) -> (r: Result<u128, Error>)
    requires
        old(cpu).has_bus(),
    ensures
        final(cpu).has_bus(),
        final(cpu).wf() == old(cpu).wf(),
        final(cpu).halted == old(cpu).halted,
        final(cpu).itable == old(cpu).itable,
        final(cpu).multi_instr_active == old(cpu).multi_instr_active,
        final(cpu).regfile == old(cpu).regfile.gpr_written(
            15,
            wadd32(old(cpu).regfile.pc, s.byte_len_spec() as int),
        ),
        (r matches Ok(v) ==> in_size(v, s)),
        old(cpu).regfile.mapen ==> (r matches Err(e) && e.kind_spec()
            == ErrorKind::TranslationNotValid),
{
    let pc = cpu.regfile.get_pc();
    let res = cpu.read_val(pc, s);
    let w = s.byte_len();
    cpu.regfile.write_gpr(15, u32_wadd(pc, w as u32));
    res
}

/// Push a value of width `s`: the stack pointer moves down by the width
/// and the value lands at the new top of stack. On a fault the pointer is
/// left where it was.
pub fn push<B: VAXBus>(cpu: &mut VAXCPU<B>, s: DataSize, val: u128) -> (r: Result<(), Error>)
    requires
        old(cpu).has_bus(),
        in_size(val, s),
    ensures
        final(cpu).has_bus(),
        final(cpu).wf() == old(cpu).wf(),
        final(cpu).halted == old(cpu).halted,
        final(cpu).itable == old(cpu).itable,
        final(cpu).multi_instr_active == old(cpu).multi_instr_active,
        (r matches Ok(_) ==> final(cpu).regfile == old(cpu).regfile.sp_written(
            wadd32(old(cpu).regfile.sp_spec(), -(s.byte_len_spec() as int)),
        )),
        (r matches Err(_) ==> final(cpu).regfile == old(cpu).regfile),
        old(cpu).regfile.mapen ==> (r matches Err(e) && e.kind_spec()
            == ErrorKind::TranslationNotValid),
{
    let sp = cpu.regfile.get_sp();
    let w = s.byte_len();
    let nsp = u32_wsub(sp, w as u32);
    cpu.write_val(nsp, s, val)?;
    cpu.regfile.set_sp(nsp);
    Ok(())
}

/// Pop a value of width `s`: the value at the top of stack comes back and
/// the pointer moves up by the width. On a fault the pointer is left where
/// it was.
pub fn pop<B: VAXBus>(cpu: &mut VAXCPU<B>, s: DataSize) -> (r: Result<u128, Error>)
    requires
        old(cpu).has_bus(),
    ensures
        final(cpu).has_bus(),
        final(cpu).wf() == old(cpu).wf(),
        final(cpu).halted == old(cpu).halted,
        final(cpu).itable == old(cpu).itable,
        final(cpu).multi_instr_active == old(cpu).multi_instr_active,
        (r matches Ok(v) ==> in_size(v, s) && final(cpu).regfile == old(cpu).regfile.sp_written(
            wadd32(old(cpu).regfile.sp_spec(), s.byte_len_spec() as int),
        )),
        (r matches Err(_) ==> final(cpu).regfile == old(cpu).regfile),
        old(cpu).regfile.mapen ==> (r matches Err(e) && e.kind_spec()
            == ErrorKind::TranslationNotValid),
{
    let sp = cpu.regfile.get_sp();
    let w = s.byte_len();
    let res = cpu.read_val(sp, s)?;
    cpu.regfile.set_sp(u32_wadd(sp, w as u32));
    Ok(res)
}

/// The reserved-instruction handler: every undefined opcode lands here and
/// faults without touching any state.
pub fn instr_noimpl<B: VAXBus>(_cpu: &mut VAXCPU<B>, _cycle_count: &mut Cycles) -> (r: Result<
    (),
    Error,
>)
    ensures
        *final(_cpu) == *old(_cpu),
        r matches Err(e) && e.kind_spec() == ErrorKind::ReservedInstruction,
{
    Err(Error::new_reserved_instruction_fault())
}

/// No operation.
pub fn instr_nop<B: VAXBus>(_cpu: &mut VAXCPU<B>, _cycle_count: &mut Cycles) -> (r: Result<
    (),
    Error,
>)
    ensures
        *final(_cpu) == *old(_cpu),
        r is Ok,
{
    Ok(())
}

/// Halt the machine; privileged.
pub fn instr_halt<B: VAXBus>(cpu: &mut VAXCPU<B>, _cycle_count: &mut Cycles) -> (r: Result<
    (),
    Error,
>)
    ensures
        old(cpu).regfile.psl@.cur_mod == 0 ==> *final(cpu) == (VAXCPU {
            halted: true,
            ..*old(cpu)
        }) && r is Ok,
        old(cpu).regfile.psl@.cur_mod != 0 ==> *final(cpu) == *old(cpu) && (r matches Err(e)
            && e.kind_spec() == ErrorKind::PrivilegedInstruction),
{
    assert_kernel_mode(cpu)?;
    cpu.halt();
    Ok(())
}

/// Clear: write zero to the destination operand.
pub fn instr_clr<B: VAXBus>(cpu: &mut VAXCPU<B>, _cycle_count: &mut Cycles, size: DataSize) -> (r:
    Result<(), Error>)
    requires
        old(cpu).wf(),
        old(cpu).has_bus(),
    ensures
        final(cpu).wf(),
        final(cpu).has_bus(),
        final(cpu).halted == old(cpu).halted,
        final(cpu).multi_instr_active == old(cpu).multi_instr_active,
        old(cpu).regfile.mapen ==> (r matches Err(e) && e.kind_spec()
            == ErrorKind::TranslationNotValid),
{
    let dst = parse_write_operand(cpu, size)?;
    dst.write(cpu, size, 0)
}

/// Push one longword operand onto the stack.
pub fn instr_pushl<B: VAXBus>(cpu: &mut VAXCPU<B>, _cycle_count: &mut Cycles) -> (r: Result<
    (),
    Error,
>)
    requires
        old(cpu).wf(),
        old(cpu).has_bus(),
    ensures
        final(cpu).wf(),
        final(cpu).has_bus(),
        final(cpu).halted == old(cpu).halted,
        final(cpu).multi_instr_active == old(cpu).multi_instr_active,
        old(cpu).regfile.mapen ==> (r matches Err(e) && e.kind_spec()
            == ErrorKind::TranslationNotValid),
{
    let long = parse_read_operand(cpu, DataSize::Longword)?.read(cpu, DataSize::Longword)?;
    push(cpu, DataSize::Longword, long)
}

/// Relies on bit_vec::BitVec::from_bytes and its bit iterator: each byte
/// becomes eight bits, most significant first, and collecting the
/// iterator converts them one-for-one.
#[verifier::external_body]
fn mask_bit_row(lo: u8, hi: u8) -> (r: Vec<bool>)
    ensures
        r@.len() == 16,
        forall|j: int|
            0 <= j < 8 ==> r@[j] == ((lo >> ((7 - j) as u8)) & 1 == 1),
        forall|j: int|
            8 <= j < 16 ==> r@[j] == ((hi >> ((15 - j) as u8)) & 1 == 1),
{
    bit_vec::BitVec::from_bytes(&[lo, hi]).iter().collect()
}

/// Whether bit `i` of the register mask is set, read out of the
/// most-significant-first bit row of the mask's two little-endian bytes.
fn mask_bit(row: &Vec<bool>, i: usize) -> (r: bool)
    requires
        row@.len() == 16,
        i < 16,
    ensures
        r == if i < 8 {
            row@[7 - i]
        } else {
            row@[23 - i]
        },
{
    if i < 8 {
        row[7 - i]
    } else {
        row[23 - i]
    }
}

/// Pop registers by mask: for each set mask bit below the stack pointer's
/// own slot, in ascending register order, restore the register from the
/// stack.
pub fn instr_popr<B: VAXBus>(cpu: &mut VAXCPU<B>, _cycle_count: &mut Cycles) -> (r: Result<
    (),
    Error,
>)
    requires
        old(cpu).wf(),
        old(cpu).has_bus(),
    ensures
        final(cpu).wf(),
        final(cpu).has_bus(),
        final(cpu).halted == old(cpu).halted,
        final(cpu).multi_instr_active == old(cpu).multi_instr_active,
        old(cpu).regfile.mapen ==> (r matches Err(e) && e.kind_spec()
            == ErrorKind::TranslationNotValid),
{
    let mask = parse_read_operand(cpu, DataSize::Word)?.read(cpu, DataSize::Word)?;
    let lo = (mask % 0x100) as u8;
    let hi = ((mask / 0x100) % 0x100) as u8;
    let bv = mask_bit_row(lo, hi);
    let mut i: usize = 0;
    while i < 15
        invariant
            cpu.wf(),
            cpu.has_bus(),
            cpu.halted == old(cpu).halted,
            cpu.multi_instr_active == old(cpu).multi_instr_active,
            !old(cpu).regfile.mapen,
            bv@.len() == 16,
            i <= 15,
        decreases 15 - i,
    {
        if mask_bit(&bv, i) {
            let val = pop(cpu, DataSize::Longword)?;
            cpu.regfile.write_gpr(i as u8, val as u32);
        }
        i = i + 1;
    }
    Ok(())
}

/// Push registers by mask: for each set mask bit below the stack pointer's
/// own slot, in descending register order, save the register onto the
/// stack — the order that lets the ascending pop restore them.
pub fn instr_pushr<B: VAXBus>(cpu: &mut VAXCPU<B>, _cycle_count: &mut Cycles) -> (r: Result<
    (),
    Error,
>)
    requires
        old(cpu).wf(),
        old(cpu).has_bus(),
    ensures
        final(cpu).wf(),
        final(cpu).has_bus(),
        final(cpu).halted == old(cpu).halted,
        final(cpu).multi_instr_active == old(cpu).multi_instr_active,
        old(cpu).regfile.mapen ==> (r matches Err(e) && e.kind_spec()
            == ErrorKind::TranslationNotValid),
{
    let mask = parse_read_operand(cpu, DataSize::Word)?.read(cpu, DataSize::Word)?;
    let lo = (mask % 0x100) as u8;
    let hi = ((mask / 0x100) % 0x100) as u8;
    let bv = mask_bit_row(lo, hi);
    let mut i: usize = 15;
    while i > 0
        invariant
            cpu.wf(),
            cpu.has_bus(),
            cpu.halted == old(cpu).halted,
            cpu.multi_instr_active == old(cpu).multi_instr_active,
            !old(cpu).regfile.mapen,
            bv@.len() == 16,
            i <= 15,
        decreases i,
    {
        i = i - 1;
        if mask_bit(&bv, i) {
            let val = cpu.regfile.read_gpr(i as u8);
            push(cpu, DataSize::Longword, val as u128)?;
        }
    }
    Ok(())
}

/// Move address: resolve the first operand and write its final memory
/// address to the second.
pub fn instr_mova<B: VAXBus>(cpu: &mut VAXCPU<B>, _cycle_count: &mut Cycles, size: DataSize) -> (r:
    Result<(), Error>)
    requires
        old(cpu).wf(),
        old(cpu).has_bus(),
    ensures
        final(cpu).wf(),
        final(cpu).has_bus(),
        final(cpu).halted == old(cpu).halted,
        final(cpu).multi_instr_active == old(cpu).multi_instr_active,
        old(cpu).regfile.mapen ==> (r matches Err(e) && e.kind_spec()
            == ErrorKind::TranslationNotValid),
{
    let mut opr_a = parse_read_operand(cpu, size)?;
    opr_a.validate(cpu)?;
    let addr = opr_a.address()?;
    let opw_o = parse_write_operand(cpu, DataSize::Longword)?;
    opw_o.write(cpu, DataSize::Longword, addr as u128)
}

/// Push address: resolve the operand and push its final memory address.
pub fn instr_pusha<B: VAXBus>(cpu: &mut VAXCPU<B>, _cycle_count: &mut Cycles, size: DataSize) -> (
    r: Result<(), Error>)
    requires
        old(cpu).wf(),
        old(cpu).has_bus(),
    ensures
        final(cpu).wf(),
        final(cpu).has_bus(),
        final(cpu).halted == old(cpu).halted,
        final(cpu).multi_instr_active == old(cpu).multi_instr_active,
        old(cpu).regfile.mapen ==> (r matches Err(e) && e.kind_spec()
            == ErrorKind::TranslationNotValid),
{
    let mut opr_a = parse_read_operand(cpu, size)?;
    opr_a.validate(cpu)?;
    let addr = opr_a.address()?;
    push(cpu, DataSize::Longword, addr as u128)
}

/// Move to processor register.
pub fn instr_mtpr<B: VAXBus>(cpu: &mut VAXCPU<B>, _cycle_count: &mut Cycles) -> (r: Result<
    (),
    Error,
>)
    requires
        old(cpu).wf(),
        old(cpu).has_bus(),
    ensures
        final(cpu).wf(),
        final(cpu).has_bus(),
        final(cpu).halted == old(cpu).halted,
        final(cpu).multi_instr_active == old(cpu).multi_instr_active,
        old(cpu).regfile.mapen ==> (r matches Err(e) && e.kind_spec()
            == ErrorKind::TranslationNotValid),
{
    let x = parse_read_operand(cpu, DataSize::Longword)?.read(cpu, DataSize::Longword)?;
    let y = parse_read_operand(cpu, DataSize::Longword)?.read(cpu, DataSize::Longword)?;
    cpu.regfile.write_msr((y % 0x1_0000) as u16, x as u32)
}

/// Move from processor register.
pub fn instr_mfpr<B: VAXBus>(cpu: &mut VAXCPU<B>, _cycle_count: &mut Cycles) -> (r: Result<
    (),
    Error,
>)
    requires
        old(cpu).wf(),
        old(cpu).has_bus(),
    ensures
        final(cpu).wf(),
        final(cpu).has_bus(),
        final(cpu).halted == old(cpu).halted,
        final(cpu).multi_instr_active == old(cpu).multi_instr_active,
        old(cpu).regfile.mapen ==> (r matches Err(e) && e.kind_spec()
            == ErrorKind::TranslationNotValid),
{
    let rsel = parse_read_operand(cpu, DataSize::Longword)?.read(cpu, DataSize::Longword)?;
    let opw = parse_write_operand(cpu, DataSize::Longword)?;
    let v = cpu.regfile.read_msr((rsel % 0x1_0000) as u16)?;
    opw.write(cpu, DataSize::Longword, v as u128)
}

/// Set bits of the processor status word from a word operand.
pub fn instr_bispsw<B: VAXBus>(cpu: &mut VAXCPU<B>, _cycle_count: &mut Cycles) -> (r: Result<
    (),
    Error,
>)
    requires
        old(cpu).wf(),
        old(cpu).has_bus(),
    ensures
        final(cpu).wf(),
        final(cpu).has_bus(),
        final(cpu).halted == old(cpu).halted,
        final(cpu).multi_instr_active == old(cpu).multi_instr_active,
        old(cpu).regfile.mapen ==> (r matches Err(e) && e.kind_spec()
            == ErrorKind::TranslationNotValid),
{
    let x = parse_read_operand(cpu, DataSize::Word)?.read(cpu, DataSize::Word)?;
    let psl = cpu.regfile.get_psl();
    cpu.regfile.set_psl(PSL(psl.0 | (x as u32)));
    Ok(())
}

/// Clear bits of the processor status word from a word operand.
pub fn instr_bicpsw<B: VAXBus>(cpu: &mut VAXCPU<B>, _cycle_count: &mut Cycles) -> (r: Result<
    (),
    Error,
>)
    requires
        old(cpu).wf(),
        old(cpu).has_bus(),
    ensures
        final(cpu).wf(),
        final(cpu).has_bus(),
        final(cpu).halted == old(cpu).halted,
        final(cpu).multi_instr_active == old(cpu).multi_instr_active,
        old(cpu).regfile.mapen ==> (r matches Err(e) && e.kind_spec()
            == ErrorKind::TranslationNotValid),
{
    let x = parse_read_operand(cpu, DataSize::Word)?.read(cpu, DataSize::Word)?;
    let psl = cpu.regfile.get_psl();
    cpu.regfile.set_psl(PSL(psl.0 & !(x as u32)));
    Ok(())
}

/// Move the whole processor status longword to the destination operand.
pub fn instr_movpsl<B: VAXBus>(cpu: &mut VAXCPU<B>, _cycle_count: &mut Cycles) -> (r: Result<
    (),
    Error,
>)
    requires
        old(cpu).wf(),
        old(cpu).has_bus(),
    ensures
        final(cpu).wf(),
        final(cpu).has_bus(),
        final(cpu).halted == old(cpu).halted,
        final(cpu).multi_instr_active == old(cpu).multi_instr_active,
        old(cpu).regfile.mapen ==> (r matches Err(e) && e.kind_spec()
            == ErrorKind::TranslationNotValid),
{
    let opw = parse_write_operand(cpu, DataSize::Longword)?;
    let v = cpu.regfile.get_psl().0;
    opw.write(cpu, DataSize::Longword, v as u128)
}

} // verus!
