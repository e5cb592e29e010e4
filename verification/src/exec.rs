//! The tick driver: fetch an opcode at the program counter, look its
//! handler up in the dispatch table, and run it — or resume the multi-tick
//! instruction in flight.

use crate::bus::VAXBus;
use crate::cpu::VAXCPU;
use crate::cycles::Cycles;
use crate::dispatch::{table_entry, Handler};
use crate::error::{Error, ErrorKind};
use crate::instr_string::MultiInstruction;
use crate::operands::{u32_wadd, wadd32};
use crate::DataSize;
use crate::{instr_arith, instr_control, instr_convert, instr_misc, instr_string};
use vstd::prelude::*;

verus! {

/// Run one instruction handler. The reserved-instruction handler — the one
/// every undefined opcode maps to — reports its fault without mutating any
/// state.
#[verifier::rlimit(100)]
#[verifier::spinoff_prover]
pub fn run_handler<B: VAXBus>(cpu: &mut VAXCPU<B>, h: Handler, cyc: &mut Cycles) -> (r: Result<
    (),
    Error,
>)
    requires
        old(cpu).wf(),
        old(cpu).has_bus(),
    ensures
        final(cpu).wf(),
        final(cpu).has_bus(),
        h == Handler::Unimplemented ==> *final(cpu) == *old(cpu) && (r matches Err(e)
            && e.kind_spec() == ErrorKind::ReservedInstruction),
        h != Handler::Halt ==> final(cpu).halted == old(cpu).halted,
        h == Handler::Nop ==> r is Ok && *final(cpu) == *old(cpu),
        (h == Handler::Halt && old(cpu).regfile.psl@.cur_mod == 0) ==> r is Ok && *final(cpu) == (
        VAXCPU { halted: true, ..*old(cpu) }),
        (h == Handler::Halt && old(cpu).regfile.psl@.cur_mod != 0) ==> (r matches Err(e)
            && e.kind_spec() == ErrorKind::PrivilegedInstruction) && *final(cpu) == *old(cpu),
{
    match h {
        Handler::Add2(s) => instr_arith::instr_add2(cpu, cyc, s),
        Handler::Add3(s) => instr_arith::instr_add3(cpu, cyc, s),
        Handler::Sub2(s) => instr_arith::instr_sub2(cpu, cyc, s),
        Handler::Sub3(s) => instr_arith::instr_sub3(cpu, cyc, s),
        Handler::Mul2(s) => instr_arith::instr_mul2(cpu, cyc, s),
        Handler::Mul3(s) => instr_arith::instr_mul3(cpu, cyc, s),
        Handler::Div2(s) => instr_arith::instr_div2(cpu, cyc, s),
        Handler::Div3(s) => instr_arith::instr_div3(cpu, cyc, s),
        Handler::Bis2(s) => instr_arith::instr_bis2(cpu, cyc, s),
        Handler::Bis3(s) => instr_arith::instr_bis3(cpu, cyc, s),
        Handler::Bic2(s) => instr_arith::instr_bic2(cpu, cyc, s),
        Handler::Bic3(s) => instr_arith::instr_bic3(cpu, cyc, s),
        Handler::Xor2(s) => instr_arith::instr_xor2(cpu, cyc, s),
        Handler::Xor3(s) => instr_arith::instr_xor3(cpu, cyc, s),
        _ => run_handler_second(cpu, h, cyc),
    }
}

/// The data-movement and shift half of the dispatch.
#[verifier::rlimit(100)]
#[verifier::spinoff_prover]
fn run_handler_second<B: VAXBus>(cpu: &mut VAXCPU<B>, h: Handler, cyc: &mut Cycles) -> (r: Result<
    (),
    Error,
>)
    requires
        old(cpu).wf(),
        old(cpu).has_bus(),
    ensures
        final(cpu).wf(),
        final(cpu).has_bus(),
        h == Handler::Unimplemented ==> *final(cpu) == *old(cpu) && (r matches Err(e)
            && e.kind_spec() == ErrorKind::ReservedInstruction),
        h != Handler::Halt ==> final(cpu).halted == old(cpu).halted,
        h == Handler::Nop ==> r is Ok && *final(cpu) == *old(cpu),
        (h == Handler::Halt && old(cpu).regfile.psl@.cur_mod == 0) ==> r is Ok && *final(cpu) == (
        VAXCPU { halted: true, ..*old(cpu) }),
        (h == Handler::Halt && old(cpu).regfile.psl@.cur_mod != 0) ==> (r matches Err(e)
            && e.kind_spec() == ErrorKind::PrivilegedInstruction) && *final(cpu) == *old(cpu),
{
    match h {
        Handler::Mneg(s) => instr_arith::instr_mneg(cpu, cyc, s),
        Handler::Mcom(s) => instr_arith::instr_mcom(cpu, cyc, s),
        Handler::Bit(s) => instr_arith::instr_bit(cpu, cyc, s),
        Handler::Mov(s) => instr_arith::instr_mov(cpu, cyc, s),
        Handler::Cmp(s) => instr_arith::instr_cmp(cpu, cyc, s),
        Handler::Tst(s) => instr_arith::instr_tst(cpu, cyc, s),
        Handler::Inc(s) => instr_arith::instr_inc(cpu, cyc, s),
        Handler::Dec(s) => instr_arith::instr_dec(cpu, cyc, s),
        Handler::Adwc(s) => instr_arith::instr_adwc(cpu, cyc, s),
        Handler::Ash(s) => instr_arith::instr_ash(cpu, cyc, s),
        Handler::Emul => instr_arith::instr_emul(cpu, cyc),
        Handler::Cvt(f, t) => instr_convert::instr_cvt(cpu, cyc, f, t),
        Handler::Movz(f, t) => instr_convert::instr_movz(cpu, cyc, f, t),
        _ => run_handler_other(cpu, h, cyc),
    }
}

/// The control-transfer and miscellaneous half of the dispatch.
#[verifier::rlimit(100)]
#[verifier::spinoff_prover]
fn run_handler_other<B: VAXBus>(cpu: &mut VAXCPU<B>, h: Handler, cyc: &mut Cycles) -> (r: Result<
    (),
    Error,
>)
    requires
        old(cpu).wf(),
        old(cpu).has_bus(),
    ensures
        final(cpu).wf(),
        final(cpu).has_bus(),
        h == Handler::Unimplemented ==> *final(cpu) == *old(cpu) && (r matches Err(e)
            && e.kind_spec() == ErrorKind::ReservedInstruction),
        h != Handler::Halt ==> final(cpu).halted == old(cpu).halted,
        h == Handler::Nop ==> r is Ok && *final(cpu) == *old(cpu),
        (h == Handler::Halt && old(cpu).regfile.psl@.cur_mod == 0) ==> r is Ok && *final(cpu) == (
        VAXCPU { halted: true, ..*old(cpu) }),
        (h == Handler::Halt && old(cpu).regfile.psl@.cur_mod != 0) ==> (r matches Err(e)
            && e.kind_spec() == ErrorKind::PrivilegedInstruction) && *final(cpu) == *old(cpu),
{
    match h {
        Handler::Halt => instr_misc::instr_halt(cpu, cyc),
        Handler::Nop => instr_misc::instr_nop(cpu, cyc),
        Handler::Rsb => instr_control::instr_rsb(cpu, cyc),
        Handler::Bsbb => instr_control::instr_branch_subroutine_byte(cpu, cyc),
        Handler::Brb => instr_control::instr_branch_byte(cpu, cyc),
        Handler::Bsbw => instr_control::instr_branch_subroutine_word(cpu, cyc),
        Handler::Brw => instr_control::instr_branch_word(cpu, cyc),
        Handler::Jsb => instr_control::instr_jsb(cpu, cyc),
        Handler::Jmp => instr_control::instr_jmp(cpu, cyc),
        Handler::BranchCond(cond) => instr_control::instr_branch_cond(cpu, cyc, cond),
        Handler::Blbs => instr_control::instr_branch_low_bit(cpu, cyc, true),
        Handler::Blbc => instr_control::instr_branch_low_bit(cpu, cyc, false),
        Handler::CaseOp(s) => instr_control::instr_case(cpu, cyc, s),
        Handler::Movc3 => instr_string::instr_movc3(cpu, cyc),
        Handler::Mova(s) => instr_misc::instr_mova(cpu, cyc, s),
        Handler::Pusha(s) => instr_misc::instr_pusha(cpu, cyc, s),
        Handler::Clr(s) => instr_misc::instr_clr(cpu, cyc, s),
        Handler::Mtpr => instr_misc::instr_mtpr(cpu, cyc),
        Handler::Mfpr => instr_misc::instr_mfpr(cpu, cyc),
        Handler::Bispsw => instr_misc::instr_bispsw(cpu, cyc),
        Handler::Bicpsw => instr_misc::instr_bicpsw(cpu, cyc),
        Handler::Movpsl => instr_misc::instr_movpsl(cpu, cyc),
        Handler::Pushl => instr_misc::instr_pushl(cpu, cyc),
        Handler::Popr => instr_misc::instr_popr(cpu, cyc),
        Handler::Pushr => instr_misc::instr_pushr(cpu, cyc),
        _ => instr_misc::instr_noimpl(cpu, cyc),
    }
}

/// The dispatch slot two instruction bytes name: the first byte selects
/// it directly, or, for the three two-byte extension prefixes, a 256-slot
/// region indexed by the second byte.
pub open spec fn opcode_index(b0: u8, b1: u8) -> int {
    if b0 < 0xFC {
        b0 as int
    } else {
        256 + 256 * ((b0 & 0x03) as int) + b1
    }
}

/// How many opcode bytes the dispatcher consumes before the handler runs.
pub open spec fn opcode_step(b0: u8) -> int {
    if b0 < 0xFC {
        1int
    } else {
        2int
    }
}

/// Dispatch the instruction whose first two bytes were fetched at the
/// program counter: step the counter past the opcode (one byte, or two for
/// the extension prefixes), look up the handler the bytes name, and run
/// it. An undefined slot holds the reserved-instruction handler, whose
/// fault propagates with no state touched beyond the counter step.
pub fn execute_instr<B: VAXBus>(
    instr_bytes: [u8; 2],
    cpu: &mut VAXCPU<B>,
    cycle_count: &mut Cycles,
) -> (r: Result<(), Error>)
    requires
        old(cpu).wf(),
        old(cpu).has_bus(),
    ensures
        final(cpu).wf(),
        final(cpu).has_bus(),
        table_entry(opcode_index(instr_bytes[0], instr_bytes[1])) == Handler::Unimplemented ==> (
        r matches Err(e) && e.kind_spec() == ErrorKind::ReservedInstruction) && *final(cpu) == (
        VAXCPU {
            regfile: old(cpu).regfile.gpr_written(
                15,
                wadd32(old(cpu).regfile.pc, opcode_step(instr_bytes[0])),
            ),
            ..*old(cpu)
        }),
        table_entry(opcode_index(instr_bytes[0], instr_bytes[1])) != Handler::Halt
            ==> final(cpu).halted == old(cpu).halted,
        table_entry(opcode_index(instr_bytes[0], instr_bytes[1])) == Handler::Nop ==> r is Ok
            && *final(cpu) == (VAXCPU {
            regfile: old(cpu).regfile.gpr_written(
                15,
                wadd32(old(cpu).regfile.pc, opcode_step(instr_bytes[0])),
            ),
            ..*old(cpu)
        }),
        (table_entry(opcode_index(instr_bytes[0], instr_bytes[1])) == Handler::Halt && old(
            cpu,
        ).regfile.psl@.cur_mod == 0) ==> r is Ok && *final(cpu) == (VAXCPU {
            halted: true,
            regfile: old(cpu).regfile.gpr_written(
                15,
                wadd32(old(cpu).regfile.pc, opcode_step(instr_bytes[0])),
            ),
            ..*old(cpu)
        }),
        (table_entry(opcode_index(instr_bytes[0], instr_bytes[1])) == Handler::Halt && old(
            cpu,
        ).regfile.psl@.cur_mod != 0) ==> (r matches Err(e) && e.kind_spec()
            == ErrorKind::PrivilegedInstruction) && *final(cpu) == (VAXCPU {
            regfile: old(cpu).regfile.gpr_written(
                15,
                wadd32(old(cpu).regfile.pc, opcode_step(instr_bytes[0])),
            ),
            ..*old(cpu)
        }),
{
    let b0 = instr_bytes[0];
    let b1 = instr_bytes[1];
    let pc = cpu.regfile.get_pc();
    let idx: usize = if b0 < 0xFC {
        cpu.regfile.set_pc(u32_wadd(pc, 1));
        b0 as usize
    } else {
        proof {
            assert((b0 & 0x03) <= 3) by (bit_vector);
        }
        cpu.regfile.set_pc(u32_wadd(pc, 2));
        256 + ((b0 & 0x03) as usize) * 256 + (b1 as usize)
    };
    let h = cpu.itable[idx];
    proof {
        assert(h == table_entry(opcode_index(instr_bytes[0], instr_bytes[1])));
        assert(cpu.regfile.psl == old(cpu).regfile.psl);
    }
    run_handler(cpu, h, cycle_count)
}

impl<B: VAXBus> VAXCPU<B> {
    /// Advance the machine by exactly one architectural step: a full
    /// instruction, or one bounded chunk of an in-flight multi-tick
    /// instruction. Once halted, every tick is a no-op.
    pub fn run_tick(&mut self) -> (r: Result<(), Error>)
        requires
            old(self).wf(),
            old(self).has_bus(),
        ensures
            final(self).wf(),
            final(self).has_bus(),
            old(self).halted ==> *final(self) == *old(self) && r is Ok,
            // A tick that resumes an in-flight string instruction moves its
            // progress registers by one bounded chunk and idles the engine
            // exactly when the count reaches zero; a faulted resume leaves
            // it active with the completed units recorded.
            (!old(self).halted && old(self).multi_instr_active == (MultiInstruction::MOVC3 {  })
                && r is Ok) ==> crate::instr_string::movc3_post(old(self).regfile, *final(self)),
            (!old(self).halted && old(self).multi_instr_active == (MultiInstruction::MOVC3 {  })
                && r matches Err(_)) ==> final(self).multi_instr_active == (
            MultiInstruction::MOVC3 {  }) && (exists|u: int|
                0 <= u <= crate::instr_string::chunk_of(old(self).regfile)
                    && #[trigger] crate::instr_string::moved_units(
                    old(self).regfile,
                    final(self).regfile,
                    u,
                )),
            // A fetch under enabled address translation faults cleanly
            // before any bus access: the translation walk is a stub
            // contract.
            (!old(self).halted && old(self).multi_instr_active == MultiInstruction::Idle
                && old(self).regfile.mapen) ==> (r matches Err(e) && e.kind_spec()
                == ErrorKind::TranslationNotValid),
    {
        if self.halted {
            return Ok(());
        }
        if !matches!(self.multi_instr_active, MultiInstruction::Idle) {
            let mut cyc = Cycles(0);
            let res = instr_string::exec_multi_instructions(self, &mut cyc);
            if res.is_ok() {
                self.cur_cycle = self.cur_cycle.plus(cyc);
            }
            res
        } else {
            let pc = self.regfile.get_pc();
            let instr = self.read_val(pc, DataSize::Word)?;
            let b0 = (instr % 0x100) as u8;
            let b1 = ((instr / 0x100) % 0x100) as u8;
            let mut cyc = Cycles(0);
            let res = execute_instr([b0, b1], self, &mut cyc);
            if res.is_ok() {
                self.cur_cycle = self.cur_cycle.plus(cyc);
            }
            res
        }
    }
}

} // verus!
