//! Register file, status longword and addressing-mode decode tests.

use emutk_vax::operands::OperandMode;
use emutk_vax::psl::PSL;
use emutk_vax::regfile::VAXRegisterFile;
use emutk_vax::DataSize;

#[test]
fn register_widths() {
    let mut regs = VAXRegisterFile::new();
    regs.write_gpr_ext(0, DataSize::Longword, 0xF0_00_00_00);
    regs.write_gpr_ext(0, DataSize::Longword, 0x0F_00_00_00);
    regs.write_gpr_ext(0, DataSize::Word, 0xFF_00);
    regs.write_gpr_ext(0, DataSize::Byte, 0xFF);
    assert_eq!(regs.get_r0(), 0x0F_00_FF_FF_u32);
}

#[test]
fn extended_read_spans_registers() {
    let mut regs = VAXRegisterFile::new();
    regs.set_r2(0x1111_2222);
    regs.set_r3(0x3333_4444);
    assert_eq!(regs.read_gpr_ext(2, DataSize::Quadword), 0x3333_4444_1111_2222);
    // A quadword write lands little-endian across two registers.
    regs.write_gpr_ext(4, DataSize::Quadword, 0xAABB_CCDD_0011_2233);
    assert_eq!(regs.get_r4(), 0x0011_2233);
    assert_eq!(regs.get_r5(), 0xAABB_CCDD);
    // Spanning past register 13 is architecturally undefined: reads as
    // zero, writes are dropped.
    assert_eq!(regs.read_gpr_ext(13, DataSize::Quadword), 0);
    regs.write_gpr_ext(13, DataSize::Quadword, 0xFFFF_FFFF_FFFF_FFFF);
    assert_eq!(regs.get_r13(), 0);
}

#[test]
fn stack_pointer_banks() {
    let mut regs = VAXRegisterFile::new();
    // The reset status longword selects the interrupt stack.
    regs.set_sp(0x100);
    assert_eq!(regs.get_isp(), 0x100);
    // Clearing the interrupt-stack flag selects by current mode.
    let mut psl = regs.get_psl();
    psl.set_is(false);
    psl.set_cur_mod(3);
    regs.set_psl(psl);
    regs.set_sp(0x200);
    assert_eq!(regs.get_usp(), 0x200);
    assert_eq!(regs.get_isp(), 0x100);
    // Register 14 reads redirect to the active stack pointer, 15 to the
    // program counter.
    assert_eq!(regs.read_gpr(14), 0x200);
    regs.set_pc(0x1234);
    assert_eq!(regs.read_gpr(15), 0x1234);
    regs.write_gpr(15, 0x4321);
    assert_eq!(regs.get_pc(), 0x4321);
}

#[test]
fn msr_file_round_trip() {
    let mut regs = VAXRegisterFile::new();
    regs.write_msr(8, 0xDEAD_BEEF).unwrap();
    assert_eq!(regs.read_msr(8).unwrap(), 0xDEAD_BEEF);
    regs.write_msr(0, 7).unwrap();
    assert_eq!(regs.read_msr(0).unwrap(), 7);
    assert!(regs.read_msr(99).is_err());
    assert!(regs.write_msr(99, 0).is_err());
    // Register 18 reads the interrupt priority level; the reset value is
    // 31.
    assert_eq!(regs.read_msr(18).unwrap(), 31);
}

#[test]
fn psl_fields_pack_and_unpack() {
    let mut p = PSL(0);
    p.set_c(true);
    p.set_z(true);
    p.set_ipl(17);
    p.set_cur_mod(2);
    p.set_prv_mod(1);
    p.set_fpd(true);
    assert!(p.get_c());
    assert!(!p.get_v());
    assert!(p.get_z());
    assert!(!p.get_n());
    assert_eq!(p.get_ipl(), 17);
    assert_eq!(p.get_cur_mod(), 2);
    assert_eq!(p.get_prv_mod(), 1);
    assert!(p.get_fpd());
    // Clearing one field leaves the rest alone.
    p.set_z(false);
    assert!(p.get_c());
    assert_eq!(p.get_ipl(), 17);
    // The documented reset image: interrupt stack, priority 31.
    let reset = PSL(0x041F_0000);
    assert!(reset.get_is());
    assert_eq!(reset.get_ipl(), 0x1F);
    assert_eq!(reset.get_cur_mod(), 0);
}

// The byte-length table of the addressing modes matches the documented
// encoding lengths, for every variant.
#[test]
fn byte_size_table() {
    assert_eq!(OperandMode::Literal(5).byte_size(), 1);
    assert_eq!(OperandMode::Register(1).byte_size(), 1);
    assert_eq!(OperandMode::RegisterDeferred(1).byte_size(), 1);
    assert_eq!(OperandMode::Autodecrement(1).byte_size(), 1);
    assert_eq!(OperandMode::Autoincrement(1).byte_size(), 1);
    assert_eq!(OperandMode::AutoincrementDeferred(1).byte_size(), 1);
    assert_eq!(OperandMode::ByteDisplacement(1).byte_size(), 2);
    assert_eq!(OperandMode::ByteDisplacementDeferred(1).byte_size(), 2);
    assert_eq!(OperandMode::WordDisplacement(1).byte_size(), 3);
    assert_eq!(OperandMode::WordDisplacementDeferred(1).byte_size(), 3);
    assert_eq!(OperandMode::LongwordDisplacement(1).byte_size(), 5);
    assert_eq!(OperandMode::LongwordDisplacementDeferred(1).byte_size(), 5);
    assert_eq!(OperandMode::IndexedRegisterDeferred(1, 2).byte_size(), 2);
    assert_eq!(OperandMode::IndexedAutodecrement(1, 2).byte_size(), 2);
    assert_eq!(OperandMode::IndexedAutoincrement(1, 2).byte_size(), 2);
    assert_eq!(OperandMode::IndexedAutoincrementDeferred(1, 2).byte_size(), 2);
    assert_eq!(OperandMode::IndexedByteDisplacement(1, 2).byte_size(), 3);
    assert_eq!(OperandMode::IndexedByteDisplacementDeferred(1, 2).byte_size(), 3);
    assert_eq!(OperandMode::IndexedWordDisplacement(1, 2).byte_size(), 4);
    assert_eq!(OperandMode::IndexedWordDisplacementDeferred(1, 2).byte_size(), 4);
    assert_eq!(OperandMode::IndexedLongwordDisplacement(1, 2).byte_size(), 6);
    assert_eq!(OperandMode::IndexedLongwordDisplacementDeferred(1, 2).byte_size(), 6);
}

#[test]
fn operand_decode() {
    // Mode nibble 5 is register direct.
    assert_eq!(OperandMode::identify_operand([0x53, 0x00]).unwrap(), OperandMode::Register(3));
    // Nibbles 0 through 3 are six-bit literals.
    assert_eq!(OperandMode::identify_operand([0x3F, 0x00]).unwrap(), OperandMode::Literal(0x3F));
    // Indexed with a valid base form.
    assert_eq!(
        OperandMode::identify_operand([0x42, 0x65]).unwrap(),
        OperandMode::IndexedRegisterDeferred(2, 5)
    );
    // Indexed with an invalid base form faults.
    assert!(OperandMode::identify_operand([0x42, 0x05]).is_err());
}
