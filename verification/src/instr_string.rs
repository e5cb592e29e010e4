//! The multi-tick ("string") instruction engine: instructions whose effect
//! spans several driving calls keep their progress in the architectural
//! registers, so the continuation state is fully recoverable from the
//! register file alone.

use crate::bus::VAXBus;
use crate::cpu::VAXCPU;
use crate::cycles::Cycles;
use crate::error::{Error, ErrorKind};
use crate::operands::parse_read_operand;
use crate::regfile::VAXRegisterFile;
use crate::DataSize;
use vstd::prelude::*;

verus! {

/// Which multi-tick instruction is in flight, with the per-instruction
/// immediate data that is not held in registers.
#[derive(Copy, Clone, Debug, PartialEq, Eq, Structural)]
pub enum MultiInstruction {
    Idle,
    CMPC3 { len: u16 },
    CMPC5 { fill: u8 },
    LOCC { ch: u8 },
    MATCHC {},
    MOVC3 {},
    MOVC5 { fill: u8 },
    MOVTC { fill: u8 },
    MOVTUC { esc: u8 },
    SCANC { mask: u8 },
    SKPC { ch: u8 },
    SPANC { mask: u8 },
}

/// Start a three-operand move-character instruction: the count, source
/// address and destination address land in registers 0 through 5, and the
/// engine goes active. The copying itself happens on the following ticks.
pub fn instr_movc3<B: VAXBus>(cpu: &mut VAXCPU<B>, _cycle_count: &mut Cycles) -> (r: Result<
    (),
    Error,
>)
    requires
        old(cpu).wf(),
        old(cpu).has_bus(),
    ensures
        final(cpu).wf(),
        final(cpu).has_bus(),
        final(cpu).halted == old(cpu).halted,
        old(cpu).regfile.mapen ==> (r matches Err(e) && e.kind_spec()
            == ErrorKind::TranslationNotValid),
        // Whatever the operand fetches returned: on success the engine is
        // armed and the scratch progress registers are cleared.
        (r matches Ok(_) ==> final(cpu).multi_instr_active == (MultiInstruction::MOVC3 {  })
            && final(cpu).regfile.r2 == 0 && final(cpu).regfile.r4 == 0 && final(cpu).regfile.r5
            == 0),
        (r matches Err(_) ==> final(cpu).multi_instr_active == old(cpu).multi_instr_active),
{
    let len = parse_read_operand(cpu, DataSize::Word)?.read(cpu, DataSize::Word)?;
    let mut srcaddr = parse_read_operand(cpu, DataSize::Byte)?;
    srcaddr.validate(cpu)?;
    let mut dstaddr = parse_read_operand(cpu, DataSize::Byte)?;
    dstaddr.validate(cpu)?;

    let src = srcaddr.address()?;
    let dst = dstaddr.address()?;
    cpu.regfile.set_r0(len as u32);
    cpu.regfile.set_r1(src);
    cpu.regfile.set_r2(0);
    cpu.regfile.set_r3(dst);
    cpu.regfile.set_r4(0);
    cpu.regfile.set_r5(0);
    cpu.multi_instr_active = MultiInstruction::MOVC3 {  };
    Ok(())
}

/// How many units one resume step processes: up to 255, bounded by the
/// remaining count in register 0.
pub open spec fn chunk_of(rf: VAXRegisterFile) -> int {
    if rf.r0 > 255 {
        255int
    } else {
        rf.r0 as int
    }
}

/// The progress registers after `u` completed units: the remaining count
/// has dropped by exactly `u`, and the source and destination pointers
/// have advanced by the same amount.
pub open spec fn moved_units(pre: VAXRegisterFile, post: VAXRegisterFile, u: int) -> bool {
    &&& post.r0 == pre.r0 - u
    &&& post.r1 == crate::operands::wadd32(pre.r1, u)
    &&& post.r3 == crate::operands::wadd32(pre.r3, u)
}

/// How one successful resume step moves the progress registers: exactly
/// one full chunk.
pub open spec fn movc3_step_ok(pre: VAXRegisterFile, post: VAXRegisterFile) -> bool {
    moved_units(pre, post, chunk_of(pre))
}

/// What a successful resume step leaves behind: the progress registers
/// have moved by one chunk, and the engine is idle exactly when the count
/// has reached zero.
pub open spec fn movc3_post<B: VAXBus>(pre: VAXRegisterFile, post: VAXCPU<B>) -> bool {
    &&& movc3_step_ok(pre, post.regfile)
    &&& post.multi_instr_active == (if post.regfile.r0 == 0 {
        MultiInstruction::Idle
    } else {
        MultiInstruction::MOVC3 {  }
    })
}

/// Resume whichever multi-tick instruction is active.
pub fn exec_multi_instructions<B: VAXBus>(cpu: &mut VAXCPU<B>, cycle_count: &mut Cycles) -> (r:
    Result<(), Error>)
    requires
        old(cpu).wf(),
        old(cpu).has_bus(),
        old(cpu).multi_instr_active == (MultiInstruction::MOVC3 {  }),
    ensures
        final(cpu).wf(),
        final(cpu).has_bus(),
        final(cpu).halted == old(cpu).halted,
        (r matches Ok(_) ==> movc3_post(old(cpu).regfile, *final(cpu))),
        (r matches Err(_) ==> final(cpu).multi_instr_active == (MultiInstruction::MOVC3 {  })
            && (exists|u: int|
            0 <= u <= chunk_of(old(cpu).regfile) && #[trigger] moved_units(
                old(cpu).regfile,
                final(cpu).regfile,
                u,
            ))),
        old(cpu).regfile.r0 == 0 ==> r is Ok,
        (old(cpu).regfile.mapen && old(cpu).regfile.r0 != 0) ==> (r matches Err(e)
            && e.kind_spec() == ErrorKind::TranslationNotValid),
{
    exec_movc3(cpu, cycle_count)
}

/// One resume step of the three-operand move: copy up to 255 bytes, one at
/// a time, re-writing the progress registers after every unit so the state
/// stays consistent if inspected, and return to the idle state when the
/// count reaches zero. A bus fault surfaces immediately; the instruction
/// stays active and the progress registers reflect exactly the units that
/// completed, so a later tick can resume.
pub fn exec_movc3<B: VAXBus>(cpu: &mut VAXCPU<B>, _cycle_count: &mut Cycles) -> (r: Result<
    (),
    Error,
>)
    requires
        old(cpu).wf(),
        old(cpu).has_bus(),
        old(cpu).multi_instr_active == (MultiInstruction::MOVC3 {  }),
    ensures
        final(cpu).wf(),
        final(cpu).has_bus(),
        final(cpu).halted == old(cpu).halted,
        (r matches Ok(_) ==> movc3_post(old(cpu).regfile, *final(cpu))),
        (r matches Err(_) ==> final(cpu).multi_instr_active == (MultiInstruction::MOVC3 {  })
            && (exists|u: int|
            0 <= u <= chunk_of(old(cpu).regfile) && #[trigger] moved_units(
                old(cpu).regfile,
                final(cpu).regfile,
                u,
            ))),
        old(cpu).regfile.r0 == 0 ==> r is Ok,
        (old(cpu).regfile.mapen && old(cpu).regfile.r0 != 0) ==> (r matches Err(e)
            && e.kind_spec() == ErrorKind::TranslationNotValid),
{
    let full_len = cpu.regfile.get_r0();
    let len: u32 = if full_len > 255 {
        255
    } else {
        full_len
    };
    let ghost pre = cpu.regfile;
    let mut j: u32 = 0;
    while j < len
        invariant
            j <= len,
            len == (if pre.r0 > 255 {
                255u32
            } else {
                pre.r0
            }),
            cpu.wf(),
            cpu.has_bus(),
            cpu.halted == old(cpu).halted,
            cpu.multi_instr_active == (MultiInstruction::MOVC3 {  }),
            cpu.regfile.mapen == pre.mapen,
            pre == old(cpu).regfile,
            j > 0 ==> !pre.mapen,
            moved_units(pre, cpu.regfile, j as int),
        decreases len - j,
    {
        let src = cpu.regfile.get_r1();
        let dst = cpu.regfile.get_r3();
        let sbyte = match cpu.read_val(src, DataSize::Byte) {
            Ok(v) => v,
            Err(e) => {
                proof {
                    assert(moved_units(pre, cpu.regfile, j as int));
                }
                return Err(e);
            },
        };
        match cpu.write_val(dst, DataSize::Byte, sbyte) {
            Ok(_) => (),
            Err(e) => {
                proof {
                    assert(moved_units(pre, cpu.regfile, j as int));
                }
                return Err(e);
            },
        }
        let remaining = cpu.regfile.get_r0();
        cpu.regfile.set_r0(remaining - 1);
        cpu.regfile.set_r1(crate::operands::u32_wadd(src, 1));
        cpu.regfile.set_r3(crate::operands::u32_wadd(dst, 1));
        j = j + 1;
        proof {
            crate::operands::lemma_wadd32_assoc(pre.r1, j - 1, 1);
            crate::operands::lemma_wadd32_assoc(pre.r3, j - 1, 1);
        }
    }
    if cpu.regfile.get_r0() == 0 {
        cpu.multi_instr_active = MultiInstruction::Idle;
    }
    Ok(())
}

} // verus!
