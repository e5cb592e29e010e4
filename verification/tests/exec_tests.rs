//! End-to-end execution tests: whole programs run tick by tick on a RAM
//! bus.

use emutk_vax::bus::RAMBus;
use emutk_vax::cpu::VAXCPU;
use emutk_vax::dispatch::Handler;
use emutk_vax::error::ErrorKind;
use emutk_vax::instr_string::MultiInstruction;
use emutk_vax::DataSize;

fn cpu_with_data(dat: &[u8]) -> VAXCPU<RAMBus> {
    let mut bus = RAMBus::new(dat.len() + 1024);
    for (i, b) in dat.iter().enumerate() {
        bus.set_ram_byte(i, *b);
    }
    let mut cpu = VAXCPU::new();
    cpu.give_bus(bus);
    cpu
}

#[test]
fn exectest() {
    let dat = &[0xD0, 0x8F, 0x01, 0x00, 0x00, 0x00, 0x50];
    let mut cpu = cpu_with_data(dat);

    while !cpu.halted() {
        match cpu.run_tick() {
            Ok(()) => {}
            Err(e) => {
                println!("{:?}", e);
            }
        }
    }
    assert_eq!(cpu.regfile.get_r0(), 1);
}

#[test]
fn loop_test() {
    let dat = &[0x96, 0x8f, 0x00, 0x12, 0xfb, 0x00];
    let mut cpu = cpu_with_data(dat);

    let mut ticks_left = 1024;

    while !cpu.halted() {
        if ticks_left == 0 {
            panic!("Loop never exited!");
        }
        match cpu.run_tick() {
            Ok(()) => {
                ticks_left -= 1;
            }
            Err(e) => {
                panic!("{:?}", e);
            }
        }
    }

    if ticks_left > 1000 {
        panic!("Loop didn't even work!");
    }
}

#[test]
fn exectest2() {
    let mut bus = RAMBus::new(8192);
    let bytes = &[
        // MOVL $5, R0
        0xD0, 0x05, 0x50, // MULL2 R0, R0
        0xC4, 0x50, 0x50,
    ];
    for (i, b) in bytes.iter().enumerate() {
        bus.set_ram_byte(i, *b);
    }
    let mut cpu = VAXCPU::new();
    cpu.give_bus(bus);

    while !cpu.halted() {
        match cpu.run_tick() {
            Ok(()) => {}
            Err(e) => {
                println!("{:?}", e);
            }
        }
    }
    assert_eq!(cpu.regfile.get_r0(), 25);
}

// A 600-unit move-string instruction: each resuming tick processes at most
// 255 units, so exactly ceil(600/255) = 3 resuming ticks finish the copy,
// and the result matches an atomic copy with zero remaining count.
#[test]
fn movc3_multi_tick_600() {
    let src: usize = 0x100;
    let dst: usize = 0x600;
    let count: usize = 600;
    let mut bus = RAMBus::new(0x1000);
    // MOVC3 len=#600, src=(R6), dst=(R7); then HALT.
    let prog = &[0x28, 0x8F, 0x58, 0x02, 0x66, 0x67, 0x00];
    for (i, b) in prog.iter().enumerate() {
        bus.set_ram_byte(i, *b);
    }
    for i in 0..count {
        bus.set_ram_byte(src + i, (i % 251) as u8);
    }
    let mut cpu = VAXCPU::new();
    cpu.give_bus(bus);
    cpu.regfile.set_r6(src as u32);
    cpu.regfile.set_r7(dst as u32);

    // First tick decodes the instruction and arms the engine.
    cpu.run_tick().unwrap();
    assert_eq!(cpu.multi_instr_active, MultiInstruction::MOVC3 {});
    assert_eq!(cpu.regfile.get_r0(), 600);
    assert_eq!(cpu.regfile.get_r1(), src as u32);
    assert_eq!(cpu.regfile.get_r3(), dst as u32);

    let mut resume_ticks = 0;
    while cpu.multi_instr_active != MultiInstruction::Idle {
        cpu.run_tick().unwrap();
        resume_ticks += 1;
        assert!(resume_ticks <= 10, "string instruction never finished");
    }
    assert_eq!(resume_ticks, 3);
    assert_eq!(cpu.regfile.get_r0(), 0);
    assert_eq!(cpu.regfile.get_r1(), (src + count) as u32);
    assert_eq!(cpu.regfile.get_r3(), (dst + count) as u32);

    // Partial-progress registers aside, the memory must equal an atomic
    // copy.
    let bus = cpu.take_bus().unwrap();
    for i in 0..count {
        assert_eq!(bus.ram()[dst + i], (i % 251) as u8);
    }
}

// The dispatch table is total: 1280 slots, every one holding a handler,
// and an undefined opcode reaches the reserved-instruction handler, which
// faults without mutating registers.
#[test]
fn opcode_table_total() {
    let cpu: VAXCPU<RAMBus> = VAXCPU::new();
    assert_eq!(cpu.itable.len(), 1280);
    // 0x57 is an undefined single-byte opcode.
    assert_eq!(cpu.itable[0x57], Handler::Unimplemented);
    // The two-byte extension region is populated too.
    assert_eq!(cpu.itable[0x27D], Handler::Mov(DataSize::Octaword));

    let dat = &[0x57];
    let mut cpu = cpu_with_data(dat);
    let r0_before = cpu.regfile.get_r0();
    let sp_before = cpu.regfile.get_sp();
    let e = cpu.run_tick().unwrap_err();
    assert_eq!(e.kind(), ErrorKind::ReservedInstruction);
    assert_eq!(cpu.regfile.get_r0(), r0_before);
    assert_eq!(cpu.regfile.get_sp(), sp_before);
    assert!(!cpu.halted());
}

// Resolving an autoincrement operand moves the register by exactly the
// operand width, once, no matter how often the resolved operand is then
// read; the deferred variant moves it too, and a plain register operand
// moves nothing.
#[test]
fn autoincrement_side_effects() {
    // MOVL (R1)+, R0 : 0xD0 0x81 0x50
    let dat = &[0xD0, 0x81, 0x50];
    let mut cpu = cpu_with_data(dat);
    cpu.regfile.set_r1(0x40);
    cpu.run_tick().unwrap();
    assert_eq!(cpu.regfile.get_r1(), 0x44);

    // MOVB -(R2), R0 : width 1, register moves down by exactly 1.
    let dat = &[0x90, 0x72, 0x50];
    let mut cpu = cpu_with_data(dat);
    cpu.regfile.set_r2(0x40);
    cpu.run_tick().unwrap();
    assert_eq!(cpu.regfile.get_r2(), 0x3F);

    // MOVW (R3), R0 : register-deferred has no side effect.
    let dat = &[0xB0, 0x63, 0x50];
    let mut cpu = cpu_with_data(dat);
    cpu.regfile.set_r3(0x40);
    cpu.run_tick().unwrap();
    assert_eq!(cpu.regfile.get_r3(), 0x40);
}

// An indexed specifier whose second byte names an invalid base form is a
// reserved addressing-mode fault.
#[test]
fn invalid_indexed_base_faults() {
    // MOVL with first operand mode 4 (indexed), base nibble 5 (register):
    // invalid.
    let dat = &[0xD0, 0x41, 0x52, 0x50];
    let mut cpu = cpu_with_data(dat);
    let e = cpu.run_tick().unwrap_err();
    assert_eq!(e.kind(), ErrorKind::ReservedAddressingMode);
}

// Writing to a literal operand is a reserved addressing-mode fault.
#[test]
fn write_to_literal_faults() {
    // MOVL R0, $1 — destination is a literal.
    let dat = &[0xD0, 0x50, 0x01];
    let mut cpu = cpu_with_data(dat);
    let e = cpu.run_tick().unwrap_err();
    assert_eq!(e.kind(), ErrorKind::ReservedAddressingMode);
}

// HALT outside kernel mode is a privileged-instruction fault.
#[test]
fn halt_needs_kernel_mode() {
    let dat = &[0x00];
    let mut cpu = cpu_with_data(dat);
    let mut psl = cpu.regfile.get_psl();
    psl.set_cur_mod(3);
    cpu.regfile.set_psl(psl);
    let e = cpu.run_tick().unwrap_err();
    assert_eq!(e.kind(), ErrorKind::PrivilegedInstruction);
    assert!(!cpu.halted());
}

// With memory mapping enabled the translation walk is a stub contract and
// faults cleanly.
#[test]
fn mapping_enabled_faults() {
    let dat = &[0x01];
    let mut cpu = cpu_with_data(dat);
    cpu.regfile.set_mapen(true);
    let e = cpu.run_tick().unwrap_err();
    assert_eq!(e.kind(), ErrorKind::TranslationNotValid);
}

// An unrecognized processor register is a reserved-operand fault, both
// read and write.
#[test]
fn bad_processor_register_faults() {
    // MFPR #40, R0 — register 40 is not readable.
    let dat = &[0xDB, 0x28, 0x50];
    let mut cpu = cpu_with_data(dat);
    let e = cpu.run_tick().unwrap_err();
    assert_eq!(e.kind(), ErrorKind::ReservedOperand);

    // MTPR R0, #60 — register 60 is not writable.
    let dat = &[0xDA, 0x50, 0x3C];
    let mut cpu = cpu_with_data(dat);
    let e = cpu.run_tick().unwrap_err();
    assert_eq!(e.kind(), ErrorKind::ReservedOperand);
}

// PUSHR saves the registers the mask marks (descending) and POPR restores
// them (ascending): the pair round-trips through the stack. The mask bits
// come through the bit-row wrapper; a wrapper handing back a wrong row
// would push the wrong registers or none.
#[test]
fn pushr_popr_round_trip() {
    // PUSHR #<r1,r2>; CLRL R1; CLRL R2; POPR #<r1,r2>; HALT.
    let dat = &[0xBB, 0x06, 0xD4, 0x51, 0xD4, 0x52, 0xBA, 0x06, 0x00];
    let mut cpu = cpu_with_data(dat);
    cpu.regfile.set_sp(0x200);
    cpu.regfile.set_r1(0x1111);
    cpu.regfile.set_r2(0x2222);
    cpu.run_tick().unwrap();
    // Two longwords pushed.
    assert_eq!(cpu.regfile.get_sp(), 0x200 - 8);
    while !cpu.halted() {
        cpu.run_tick().unwrap();
    }
    assert_eq!(cpu.regfile.get_r1(), 0x1111);
    assert_eq!(cpu.regfile.get_r2(), 0x2222);
    assert_eq!(cpu.regfile.get_sp(), 0x200);
}

// Branch-greater-than is taken only when neither negative nor zero is
// set: a zero test result must fall through.
#[test]
fn branch_greater_than_conditions() {
    // TSTL R2; BGTR +1; HALT; MOVL $7, R0; HALT.
    let dat = &[0xD5, 0x52, 0x14, 0x01, 0x00, 0xD0, 0x07, 0x50, 0x00];
    let mut cpu = cpu_with_data(dat);
    cpu.regfile.set_r2(5);
    while !cpu.halted() {
        cpu.run_tick().unwrap();
    }
    assert_eq!(cpu.regfile.get_r0(), 7);

    // With the zero flag set the branch must not be taken.
    let mut cpu = cpu_with_data(dat);
    cpu.regfile.set_r2(0);
    while !cpu.halted() {
        cpu.run_tick().unwrap();
    }
    assert_eq!(cpu.regfile.get_r0(), 0);
}

// A case selector past the limit falls through to the instruction after
// the displacement table; one within it takes the selected displacement.
#[test]
fn case_dispatch_and_fall_through() {
    // CASEB #5, #1, #2; three-entry word table; MOVL $7, R0; HALT.
    let dat = &[
        0x8F, 0x05, 0x01, 0x02, 0x00, 0x00, 0x06, 0x00, 0x00, 0x00, 0xD0, 0x07, 0x50, 0x00,
    ];
    let mut cpu = cpu_with_data(dat);
    while !cpu.halted() {
        cpu.run_tick().unwrap();
    }
    assert_eq!(cpu.regfile.get_r0(), 7);

    // Selector 2 names table entry 1, whose displacement of 6 lands on the
    // same instruction.
    let dat = &[
        0x8F, 0x02, 0x01, 0x02, 0x00, 0x00, 0x06, 0x00, 0x00, 0x00, 0xD0, 0x07, 0x50, 0x00,
    ];
    let mut cpu = cpu_with_data(dat);
    while !cpu.halted() {
        cpu.run_tick().unwrap();
    }
    assert_eq!(cpu.regfile.get_r0(), 7);
}

// A branch-to-subroutine pushes the return counter and the matching
// return pops it back.
#[test]
fn subroutine_round_trip() {
    // BSBB +2; HALT; (target) MOVL $7, R0; RSB
    let dat = &[0x10, 0x02, 0x00, 0x00, 0xD0, 0x07, 0x50, 0x05];
    let mut cpu = cpu_with_data(dat);
    cpu.regfile.set_sp(0x200);
    while !cpu.halted() {
        cpu.run_tick().unwrap();
    }
    assert_eq!(cpu.regfile.get_r0(), 7);
    assert_eq!(cpu.regfile.get_sp(), 0x200);
}

// The console transmit register collects the byte for the host to drain.
#[test]
fn txdb_buffers_console_byte() {
    // MTPR #0x41, #35
    let dat = &[0xDA, 0x8F, 0x41, 0x00, 0x00, 0x00, 0x23];
    let mut cpu = cpu_with_data(dat);
    cpu.run_tick().unwrap();
    assert_eq!(cpu.regfile.take_txdb(), Some(0x41));
    assert_eq!(cpu.regfile.take_txdb(), None);
}

// Once halted, ticks are no-ops.
#[test]
fn halted_tick_is_noop() {
    let dat = &[0x00];
    let mut cpu = cpu_with_data(dat);
    cpu.run_tick().unwrap();
    assert!(cpu.halted());
    let pc = cpu.regfile.get_pc();
    cpu.run_tick().unwrap();
    assert_eq!(cpu.regfile.get_pc(), pc);
}
