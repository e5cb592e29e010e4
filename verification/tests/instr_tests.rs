//! Instruction-level tests: single instructions run against a RAM bus with
//! hand-computed results.

use emutk_vax::bus::RAMBus;
use emutk_vax::cpu::VAXCPU;

fn cpu_with_data(dat: &[u8]) -> VAXCPU<RAMBus> {
    let mut bus = RAMBus::new(dat.len() + 1024);
    for (i, b) in dat.iter().enumerate() {
        bus.set_ram_byte(i, *b);
    }
    let mut cpu = VAXCPU::new();
    cpu.give_bus(bus);
    cpu
}

#[test]
fn cvt_sign_extends() {
    // Convert byte 0xFF (-1) to a longword: all ones.
    let dat = &[0x98, 0x8F, 0xFF, 0x50];
    let mut cpu = cpu_with_data(dat);
    cpu.run_tick().unwrap();
    assert_eq!(cpu.regfile.get_r0(), 0xFFFF_FFFF);

    // Convert word 0x0123 to a byte: truncated to 0x23, preserving the
    // destination register's high bits.
    let dat = &[0x33, 0x8F, 0x23, 0x01, 0x50];
    let mut cpu = cpu_with_data(dat);
    cpu.regfile.set_r0(0xAABB_CC00);
    cpu.run_tick().unwrap();
    assert_eq!(cpu.regfile.get_r0(), 0xAABB_CC23);
}

#[test]
fn movz_zero_extends() {
    let dat = &[0x9A, 0x8F, 0xFF, 0x50];
    let mut cpu = cpu_with_data(dat);
    cpu.regfile.set_r0(0xFFFF_FFFF);
    cpu.run_tick().unwrap();
    assert_eq!(cpu.regfile.get_r0(), 0xFF);
}

#[test]
fn adwc_adds_incoming_carry() {
    // ADDB2 #0xFF, R0 with R0 = 1 wraps the byte to zero and sets carry;
    // ADWC #2, R1 with R1 = 3 then computes 2 + (3 + carry) = 6.
    let dat = &[0x80, 0x8F, 0xFF, 0x50, 0xD8, 0x02, 0x51, 0x00];
    let mut cpu = cpu_with_data(dat);
    cpu.regfile.set_r0(1);
    cpu.regfile.set_r1(3);
    cpu.run_tick().unwrap();
    assert_eq!(cpu.regfile.get_r0() & 0xFF, 0);
    assert!(cpu.regfile.get_psl().get_c());
    cpu.run_tick().unwrap();
    assert_eq!(cpu.regfile.get_r1(), 6);
}

#[test]
fn ash_instruction() {
    // ASHL #4, #1, R0 shifts left: 16.
    let dat = &[0x78, 0x04, 0x01, 0x50];
    let mut cpu = cpu_with_data(dat);
    cpu.run_tick().unwrap();
    assert_eq!(cpu.regfile.get_r0(), 16);

    // A negative count shifts right: 32 >> 1 = 16.
    let dat = &[0x78, 0x8F, 0xFF, 0x20, 0x50];
    let mut cpu = cpu_with_data(dat);
    cpu.run_tick().unwrap();
    assert_eq!(cpu.regfile.get_r0(), 16);
}

#[test]
fn emul_signed_product() {
    // EMUL #3, #4, #5, R0: 3*4+5 = 17 into the quadword pair R0:R1.
    let dat = &[0x7A, 0x03, 0x04, 0x05, 0x50];
    let mut cpu = cpu_with_data(dat);
    cpu.run_tick().unwrap();
    assert_eq!(cpu.regfile.get_r0(), 17);
    assert_eq!(cpu.regfile.get_r1(), 0);

    // (-1) * (-1) + 0 = 1: the multiply is signed, not unsigned.
    let dat = &[0x7A, 0x52, 0x52, 0x00, 0x50];
    let mut cpu = cpu_with_data(dat);
    cpu.regfile.set_r2(0xFFFF_FFFF);
    cpu.run_tick().unwrap();
    assert_eq!(cpu.regfile.get_r0(), 1);
    assert_eq!(cpu.regfile.get_r1(), 0);
}

#[test]
fn logical_instructions() {
    // BISL2 #0x30, R0: bit set.
    let dat = &[0xC8, 0x30, 0x50];
    let mut cpu = cpu_with_data(dat);
    cpu.regfile.set_r0(0x0F);
    cpu.run_tick().unwrap();
    assert_eq!(cpu.regfile.get_r0(), 0x3F);

    // XORL2 #0x3F, R0.
    let dat = &[0xCC, 0x3F, 0x50];
    let mut cpu = cpu_with_data(dat);
    cpu.regfile.set_r0(0x0F0F);
    cpu.run_tick().unwrap();
    assert_eq!(cpu.regfile.get_r0(), 0x0F30);

    // MCOML R2, R0: bitwise complement.
    let dat = &[0xD2, 0x52, 0x50];
    let mut cpu = cpu_with_data(dat);
    cpu.regfile.set_r2(0x0000_FFFF);
    cpu.run_tick().unwrap();
    assert_eq!(cpu.regfile.get_r0(), 0xFFFF_0000);

    // MNEGL R2, R0: two's-complement negate.
    let dat = &[0xCE, 0x52, 0x50];
    let mut cpu = cpu_with_data(dat);
    cpu.regfile.set_r2(5);
    cpu.run_tick().unwrap();
    assert_eq!(cpu.regfile.get_r0(), 0xFFFF_FFFB);
}

#[test]
fn branch_low_bit() {
    // BLBS R2, +1 skips the HALT-shadowing NOP when the low bit is set.
    // Layout: BLBS R2, disp=1; HALT; MOVL $9, R0; (fall to HALT at 8)
    let dat = &[0xE8, 0x52, 0x01, 0x00, 0xD0, 0x09, 0x50, 0x00];
    let mut cpu = cpu_with_data(dat);
    cpu.regfile.set_r2(1);
    while !cpu.halted() {
        cpu.run_tick().unwrap();
    }
    assert_eq!(cpu.regfile.get_r0(), 9);

    // With the bit clear the branch falls through to the HALT.
    let mut cpu = cpu_with_data(dat);
    cpu.regfile.set_r2(2);
    while !cpu.halted() {
        cpu.run_tick().unwrap();
    }
    assert_eq!(cpu.regfile.get_r0(), 0);
}

#[test]
fn displacement_addressing() {
    // MOVL B^4(R2), R0 reads the longword at R2+4.
    let dat = &[0xD0, 0xA2, 0x04, 0x50, 0x00, 0x00, 0x44, 0x33, 0x22, 0x11];
    let mut cpu = cpu_with_data(dat);
    cpu.regfile.set_r2(2);
    cpu.run_tick().unwrap();
    assert_eq!(cpu.regfile.get_r0(), 0x1122_3344);

    // A negative byte displacement reaches backward: MOVB B^-6(R2), R0
    // with R2 = 8 reads the byte at 2.
    let dat = &[0x90, 0xA2, 0xFA, 0x50, 0x00, 0x00, 0x00, 0x00, 0x00];
    let mut cpu = cpu_with_data(dat);
    cpu.regfile.set_r2(8);
    cpu.run_tick().unwrap();
    assert_eq!(cpu.regfile.get_r0(), 0xFA);
}

#[test]
fn deferred_addressing() {
    // MOVL @(R2)+, R0: the register points at a longword holding the final
    // address; the register then advances by the operand width.
    let dat = &[
        0xD0, 0x92, 0x50, 0x00, // pointer at 8 -> address 12
        0x00, 0x00, 0x00, 0x00, 0x0C, 0x00, 0x00, 0x00,
        // data at 12
        0x78, 0x56, 0x34, 0x12,
    ];
    let mut cpu = cpu_with_data(dat);
    cpu.regfile.set_r2(8);
    cpu.run_tick().unwrap();
    assert_eq!(cpu.regfile.get_r0(), 0x1234_5678);
    assert_eq!(cpu.regfile.get_r2(), 12);
}

#[test]
fn indexed_addressing() {
    // MOVL (R2)[R3], R0: address = R2 + 4*R3.
    let dat = &[
        0xD0, 0x43, 0x62, 0x50, 0x00, 0x00, 0x00, 0x00, 0x99, 0x00, 0x00, 0x00,
    ];
    let mut cpu = cpu_with_data(dat);
    cpu.regfile.set_r2(4);
    cpu.regfile.set_r3(1);
    cpu.run_tick().unwrap();
    assert_eq!(cpu.regfile.get_r0(), 0x99);
}

#[test]
fn clr_and_tst() {
    // CLRL R0.
    let dat = &[0xD4, 0x50];
    let mut cpu = cpu_with_data(dat);
    cpu.regfile.set_r0(0xDEAD_BEEF);
    cpu.run_tick().unwrap();
    assert_eq!(cpu.regfile.get_r0(), 0);

    // TSTL R2 with a negative value sets N.
    let dat = &[0xD5, 0x52];
    let mut cpu = cpu_with_data(dat);
    cpu.regfile.set_r2(0x8000_0000);
    cpu.run_tick().unwrap();
    assert!(cpu.regfile.get_psl().get_n());
    assert!(!cpu.regfile.get_psl().get_z());
}

#[test]
fn movpsl_exposes_status() {
    // MOVPSL R0 copies the raw status longword.
    let dat = &[0xDC, 0x50];
    let mut cpu = cpu_with_data(dat);
    cpu.run_tick().unwrap();
    assert_eq!(cpu.regfile.get_r0(), 0x041F_0000);
}
