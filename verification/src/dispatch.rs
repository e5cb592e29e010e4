//! The opcode dispatch table: a flat array of 1280 slots — the single-byte
//! opcode space plus a 256-slot region for each of the three two-byte
//! extension prefixes — built once at processor construction. Every slot
//! holds a handler; opcodes the machine does not implement hold the
//! explicit reserved-instruction handler rather than a gap.

use crate::instr_control::BranchCondition;
use crate::DataSize;
use vstd::prelude::*;

verus! {

/// An instruction handler reference: which operation a dispatch slot runs,
/// with the operand width baked in where a family of opcodes shares one
/// implementation.
#[derive(Copy, Clone, Debug, PartialEq, Eq, Structural)]
pub enum Handler {
    /// The reserved-instruction handler: faults without touching state.
    Unimplemented,
    Halt,
    Nop,
    Rsb,
    Bsbb,
    Brb,
    Bsbw,
    Brw,
    Jsb,
    Jmp,
    BranchCond(BranchCondition),
    Blbs,
    Blbc,
    CaseOp(DataSize),
    Movc3,
    Cvt(DataSize, DataSize),
    Movz(DataSize, DataSize),
    Mova(DataSize),
    Pusha(DataSize),
    Add2(DataSize),
    Add3(DataSize),
    Sub2(DataSize),
    Sub3(DataSize),
    Mul2(DataSize),
    Mul3(DataSize),
    Div2(DataSize),
    Div3(DataSize),
    Bis2(DataSize),
    Bis3(DataSize),
    Bic2(DataSize),
    Bic3(DataSize),
    Xor2(DataSize),
    Xor3(DataSize),
    Mneg(DataSize),
    Mcom(DataSize),
    Bit(DataSize),
    Mov(DataSize),
    Cmp(DataSize),
    Clr(DataSize),
    Tst(DataSize),
    Inc(DataSize),
    Dec(DataSize),
    Adwc(DataSize),
    Ash(DataSize),
    Emul,
    Mtpr,
    Mfpr,
    Bispsw,
    Bicpsw,
    Movpsl,
    Pushl,
    Popr,
    Pushr,
}

/// The handler each of the 1280 dispatch slots holds.
#[verifier::opaque]
pub open spec fn table_entry(i: int) -> Handler {
    if i == 0x0 {
        Handler::Halt
    } else if i == 0x1 {
        Handler::Nop
    } else if i == 0x5 {
        Handler::Rsb
    } else if i == 0x10 {
        Handler::Bsbb
    } else if i == 0x11 {
        Handler::Brb
    } else if i == 0x12 {
        Handler::BranchCond(BranchCondition::ZUnset)
    } else if i == 0x13 {
        Handler::BranchCond(BranchCondition::ZSet)
    } else if i == 0x14 {
        Handler::BranchCond(BranchCondition::NOrZUnset)
    } else if i == 0x15 {
        Handler::BranchCond(BranchCondition::NOrZSet)
    } else if i == 0x16 {
        Handler::Jsb
    } else if i == 0x17 {
        Handler::Jmp
    } else if i == 0x18 {
        Handler::BranchCond(BranchCondition::NUnset)
    } else if i == 0x19 {
        Handler::BranchCond(BranchCondition::NSet)
    } else if i == 0x1a {
        Handler::BranchCond(BranchCondition::COrZUnset)
    } else if i == 0x1b {
        Handler::BranchCond(BranchCondition::COrZSet)
    } else if i == 0x1c {
        Handler::BranchCond(BranchCondition::VUnset)
    } else if i == 0x1d {
        Handler::BranchCond(BranchCondition::VSet)
    } else if i == 0x1e {
        Handler::BranchCond(BranchCondition::CUnset)
    } else if i == 0x1f {
        Handler::BranchCond(BranchCondition::CSet)
    } else if i == 0x28 {
        Handler::Movc3
    } else if i == 0x30 {
        Handler::Bsbw
    } else if i == 0x31 {
        Handler::Brw
    } else if i == 0x32 {
        Handler::Cvt(DataSize::Word, DataSize::Longword)
    } else if i == 0x33 {
        Handler::Cvt(DataSize::Word, DataSize::Byte)
    } else if i == 0x3c {
        Handler::Movz(DataSize::Word, DataSize::Longword)
    } else if i == 0x3e {
        Handler::Mova(DataSize::Word)
    } else if i == 0x3f {
        Handler::Pusha(DataSize::Word)
    } else if i == 0x58 {
        Handler::Add2(DataSize::Word)
    } else if i == 0x78 {
        Handler::Ash(DataSize::Longword)
    } else if i == 0x79 {
        Handler::Ash(DataSize::Quadword)
    } else if i == 0x7a {
        Handler::Emul
    } else if i == 0x7c {
        Handler::Clr(DataSize::Quadword)
    } else if i == 0x7d {
        Handler::Mov(DataSize::Quadword)
    } else if i == 0x7e {
        Handler::Mova(DataSize::Quadword)
    } else if i == 0x7f {
        Handler::Pusha(DataSize::Quadword)
    } else if i == 0x80 {
        Handler::Add2(DataSize::Byte)
    } else if i == 0x81 {
        Handler::Add3(DataSize::Byte)
    } else if i == 0x82 {
        Handler::Sub2(DataSize::Byte)
    } else if i == 0x83 {
        Handler::Sub3(DataSize::Byte)
    } else if i == 0x84 {
        Handler::Mul2(DataSize::Byte)
    } else if i == 0x85 {
        Handler::Mul3(DataSize::Byte)
    } else if i == 0x86 {
        Handler::Div2(DataSize::Byte)
    } else if i == 0x87 {
        Handler::Div3(DataSize::Byte)
    } else if i == 0x88 {
        Handler::Bis2(DataSize::Byte)
    } else if i == 0x89 {
        Handler::Bis3(DataSize::Byte)
    } else if i == 0x8a {
        Handler::Bic2(DataSize::Byte)
    } else if i == 0x8b {
        Handler::Bic3(DataSize::Byte)
    } else if i == 0x8c {
        Handler::Xor2(DataSize::Byte)
    } else if i == 0x8d {
        Handler::Xor3(DataSize::Byte)
    } else if i == 0x8e {
        Handler::Mneg(DataSize::Byte)
    } else if i == 0x8f {
        Handler::CaseOp(DataSize::Byte)
    } else if i == 0x90 {
        Handler::Mov(DataSize::Byte)
    } else if i == 0x91 {
        Handler::Cmp(DataSize::Byte)
    } else if i == 0x92 {
        Handler::Mcom(DataSize::Byte)
    } else if i == 0x93 {
        Handler::Bit(DataSize::Byte)
    } else if i == 0x94 {
        Handler::Clr(DataSize::Byte)
    } else if i == 0x95 {
        Handler::Tst(DataSize::Byte)
    } else if i == 0x96 {
        Handler::Inc(DataSize::Byte)
    } else if i == 0x97 {
        Handler::Dec(DataSize::Byte)
    } else if i == 0x98 {
        Handler::Cvt(DataSize::Byte, DataSize::Longword)
    } else if i == 0x99 {
        Handler::Cvt(DataSize::Byte, DataSize::Word)
    } else if i == 0x9a {
        Handler::Movz(DataSize::Byte, DataSize::Longword)
    } else if i == 0x9b {
        Handler::Movz(DataSize::Byte, DataSize::Word)
    } else if i == 0x9e {
        Handler::Mova(DataSize::Byte)
    } else if i == 0x9f {
        Handler::Pusha(DataSize::Byte)
    } else if i == 0xa0 {
        Handler::Add2(DataSize::Word)
    } else if i == 0xa1 {
        Handler::Add3(DataSize::Word)
    } else if i == 0xa2 {
        Handler::Sub2(DataSize::Word)
    } else if i == 0xa3 {
        Handler::Sub3(DataSize::Word)
    } else if i == 0xa4 {
        Handler::Mul2(DataSize::Word)
    } else if i == 0xa5 {
        Handler::Mul3(DataSize::Word)
    } else if i == 0xa6 {
        Handler::Div2(DataSize::Word)
    } else if i == 0xa7 {
        Handler::Div3(DataSize::Word)
    } else if i == 0xa8 {
        Handler::Bis2(DataSize::Word)
    } else if i == 0xa9 {
        Handler::Bis3(DataSize::Word)
    } else if i == 0xaa {
        Handler::Bic2(DataSize::Word)
    } else if i == 0xab {
        Handler::Bic3(DataSize::Word)
    } else if i == 0xac {
        Handler::Xor2(DataSize::Word)
    } else if i == 0xad {
        Handler::Xor3(DataSize::Word)
    } else if i == 0xae {
        Handler::Mneg(DataSize::Word)
    } else if i == 0xaf {
        Handler::CaseOp(DataSize::Word)
    } else if i == 0xb0 {
        Handler::Mov(DataSize::Word)
    } else if i == 0xb1 {
        Handler::Cmp(DataSize::Word)
    } else if i == 0xb2 {
        Handler::Mcom(DataSize::Word)
    } else if i == 0xb3 {
        Handler::Bit(DataSize::Word)
    } else if i == 0xb4 {
        Handler::Clr(DataSize::Word)
    } else if i == 0xb5 {
        Handler::Tst(DataSize::Word)
    } else if i == 0xb6 {
        Handler::Inc(DataSize::Word)
    } else if i == 0xb7 {
        Handler::Dec(DataSize::Word)
    } else if i == 0xb8 {
        Handler::Bispsw
    } else if i == 0xb9 {
        Handler::Bicpsw
    } else if i == 0xba {
        Handler::Popr
    } else if i == 0xbb {
        Handler::Pushr
    } else if i == 0xc0 {
        Handler::Add2(DataSize::Longword)
    } else if i == 0xc1 {
        Handler::Add3(DataSize::Longword)
    } else if i == 0xc2 {
        Handler::Sub2(DataSize::Longword)
    } else if i == 0xc3 {
        Handler::Sub3(DataSize::Longword)
    } else if i == 0xc4 {
        Handler::Mul2(DataSize::Longword)
    } else if i == 0xc5 {
        Handler::Mul3(DataSize::Longword)
    } else if i == 0xc6 {
        Handler::Div2(DataSize::Longword)
    } else if i == 0xc7 {
        Handler::Div3(DataSize::Longword)
    } else if i == 0xc8 {
        Handler::Bis2(DataSize::Longword)
    } else if i == 0xc9 {
        Handler::Bis3(DataSize::Longword)
    } else if i == 0xca {
        Handler::Bic2(DataSize::Longword)
    } else if i == 0xcb {
        Handler::Bic3(DataSize::Longword)
    } else if i == 0xcc {
        Handler::Xor2(DataSize::Longword)
    } else if i == 0xcd {
        Handler::Xor3(DataSize::Longword)
    } else if i == 0xce {
        Handler::Mneg(DataSize::Longword)
    } else if i == 0xcf {
        Handler::CaseOp(DataSize::Longword)
    } else if i == 0xd0 {
        Handler::Mov(DataSize::Longword)
    } else if i == 0xd1 {
        Handler::Cmp(DataSize::Longword)
    } else if i == 0xd2 {
        Handler::Mcom(DataSize::Longword)
    } else if i == 0xd3 {
        Handler::Bit(DataSize::Longword)
    } else if i == 0xd4 {
        Handler::Clr(DataSize::Longword)
    } else if i == 0xd5 {
        Handler::Tst(DataSize::Longword)
    } else if i == 0xd6 {
        Handler::Inc(DataSize::Longword)
    } else if i == 0xd7 {
        Handler::Dec(DataSize::Longword)
    } else if i == 0xd8 {
        Handler::Adwc(DataSize::Longword)
    } else if i == 0xda {
        Handler::Mtpr
    } else if i == 0xdb {
        Handler::Mfpr
    } else if i == 0xdc {
        Handler::Movpsl
    } else if i == 0xdd {
        Handler::Pushl
    } else if i == 0xde {
        Handler::Mova(DataSize::Longword)
    } else if i == 0xdf {
        Handler::Pusha(DataSize::Longword)
    } else if i == 0xe8 {
        Handler::Blbs
    } else if i == 0xe9 {
        Handler::Blbc
    } else if i == 0xf6 {
        Handler::Cvt(DataSize::Longword, DataSize::Byte)
    } else if i == 0xf7 {
        Handler::Cvt(DataSize::Longword, DataSize::Word)
    } else if i == 0x27d {
        Handler::Mov(DataSize::Octaword)
    } else if i == 0x27e {
        Handler::Mova(DataSize::Octaword)
    } else if i == 0x27f {
        Handler::Pusha(DataSize::Octaword)
    } else {
        Handler::Unimplemented
    }
}

/// The handler for one dispatch slot, as executable code.
pub fn entry_for(i: usize) -> (r: Handler)
    ensures
        r == table_entry(i as int),
{
    proof {
        reveal(table_entry);
    }
    if i == 0x0 {
        Handler::Halt
    } else if i == 0x1 {
        Handler::Nop
    } else if i == 0x5 {
        Handler::Rsb
    } else if i == 0x10 {
        Handler::Bsbb
    } else if i == 0x11 {
        Handler::Brb
    } else if i == 0x12 {
        Handler::BranchCond(BranchCondition::ZUnset)
    } else if i == 0x13 {
        Handler::BranchCond(BranchCondition::ZSet)
    } else if i == 0x14 {
        Handler::BranchCond(BranchCondition::NOrZUnset)
    } else if i == 0x15 {
        Handler::BranchCond(BranchCondition::NOrZSet)
    } else if i == 0x16 {
        Handler::Jsb
    } else if i == 0x17 {
        Handler::Jmp
    } else if i == 0x18 {
        Handler::BranchCond(BranchCondition::NUnset)
    } else if i == 0x19 {
        Handler::BranchCond(BranchCondition::NSet)
    } else if i == 0x1a {
        Handler::BranchCond(BranchCondition::COrZUnset)
    } else if i == 0x1b {
        Handler::BranchCond(BranchCondition::COrZSet)
    } else if i == 0x1c {
        Handler::BranchCond(BranchCondition::VUnset)
    } else if i == 0x1d {
        Handler::BranchCond(BranchCondition::VSet)
    } else if i == 0x1e {
        Handler::BranchCond(BranchCondition::CUnset)
    } else if i == 0x1f {
        Handler::BranchCond(BranchCondition::CSet)
    } else if i == 0x28 {
        Handler::Movc3
    } else if i == 0x30 {
        Handler::Bsbw
    } else if i == 0x31 {
        Handler::Brw
    } else if i == 0x32 {
        Handler::Cvt(DataSize::Word, DataSize::Longword)
    } else if i == 0x33 {
        Handler::Cvt(DataSize::Word, DataSize::Byte)
    } else if i == 0x3c {
        Handler::Movz(DataSize::Word, DataSize::Longword)
    } else if i == 0x3e {
        Handler::Mova(DataSize::Word)
    } else if i == 0x3f {
        Handler::Pusha(DataSize::Word)
    } else if i == 0x58 {
        Handler::Add2(DataSize::Word)
    } else if i == 0x78 {
        Handler::Ash(DataSize::Longword)
    } else if i == 0x79 {
        Handler::Ash(DataSize::Quadword)
    } else if i == 0x7a {
        Handler::Emul
    } else if i == 0x7c {
        Handler::Clr(DataSize::Quadword)
    } else if i == 0x7d {
        Handler::Mov(DataSize::Quadword)
    } else if i == 0x7e {
        Handler::Mova(DataSize::Quadword)
    } else if i == 0x7f {
        Handler::Pusha(DataSize::Quadword)
    } else if i == 0x80 {
        Handler::Add2(DataSize::Byte)
    } else if i == 0x81 {
        Handler::Add3(DataSize::Byte)
    } else if i == 0x82 {
        Handler::Sub2(DataSize::Byte)
    } else if i == 0x83 {
        Handler::Sub3(DataSize::Byte)
    } else if i == 0x84 {
        Handler::Mul2(DataSize::Byte)
    } else if i == 0x85 {
        Handler::Mul3(DataSize::Byte)
    } else if i == 0x86 {
        Handler::Div2(DataSize::Byte)
    } else if i == 0x87 {
        Handler::Div3(DataSize::Byte)
    } else if i == 0x88 {
        Handler::Bis2(DataSize::Byte)
    } else if i == 0x89 {
        Handler::Bis3(DataSize::Byte)
    } else if i == 0x8a {
        Handler::Bic2(DataSize::Byte)
    } else if i == 0x8b {
        Handler::Bic3(DataSize::Byte)
    } else if i == 0x8c {
        Handler::Xor2(DataSize::Byte)
    } else if i == 0x8d {
        Handler::Xor3(DataSize::Byte)
    } else if i == 0x8e {
        Handler::Mneg(DataSize::Byte)
    } else if i == 0x8f {
        Handler::CaseOp(DataSize::Byte)
    } else if i == 0x90 {
        Handler::Mov(DataSize::Byte)
    } else if i == 0x91 {
        Handler::Cmp(DataSize::Byte)
    } else if i == 0x92 {
        Handler::Mcom(DataSize::Byte)
    } else if i == 0x93 {
        Handler::Bit(DataSize::Byte)
    } else if i == 0x94 {
        Handler::Clr(DataSize::Byte)
    } else if i == 0x95 {
        Handler::Tst(DataSize::Byte)
    } else if i == 0x96 {
        Handler::Inc(DataSize::Byte)
    } else if i == 0x97 {
        Handler::Dec(DataSize::Byte)
    } else if i == 0x98 {
        Handler::Cvt(DataSize::Byte, DataSize::Longword)
    } else if i == 0x99 {
        Handler::Cvt(DataSize::Byte, DataSize::Word)
    } else if i == 0x9a {
        Handler::Movz(DataSize::Byte, DataSize::Longword)
    } else if i == 0x9b {
        Handler::Movz(DataSize::Byte, DataSize::Word)
    } else if i == 0x9e {
        Handler::Mova(DataSize::Byte)
    } else if i == 0x9f {
        Handler::Pusha(DataSize::Byte)
    } else if i == 0xa0 {
        Handler::Add2(DataSize::Word)
    } else if i == 0xa1 {
        Handler::Add3(DataSize::Word)
    } else if i == 0xa2 {
        Handler::Sub2(DataSize::Word)
    } else if i == 0xa3 {
        Handler::Sub3(DataSize::Word)
    } else if i == 0xa4 {
        Handler::Mul2(DataSize::Word)
    } else if i == 0xa5 {
        Handler::Mul3(DataSize::Word)
    } else if i == 0xa6 {
        Handler::Div2(DataSize::Word)
    } else if i == 0xa7 {
        Handler::Div3(DataSize::Word)
    } else if i == 0xa8 {
        Handler::Bis2(DataSize::Word)
    } else if i == 0xa9 {
        Handler::Bis3(DataSize::Word)
    } else if i == 0xaa {
        Handler::Bic2(DataSize::Word)
    } else if i == 0xab {
        Handler::Bic3(DataSize::Word)
    } else if i == 0xac {
        Handler::Xor2(DataSize::Word)
    } else if i == 0xad {
        Handler::Xor3(DataSize::Word)
    } else if i == 0xae {
        Handler::Mneg(DataSize::Word)
    } else if i == 0xaf {
        Handler::CaseOp(DataSize::Word)
    } else if i == 0xb0 {
        Handler::Mov(DataSize::Word)
    } else if i == 0xb1 {
        Handler::Cmp(DataSize::Word)
    } else if i == 0xb2 {
        Handler::Mcom(DataSize::Word)
    } else if i == 0xb3 {
        Handler::Bit(DataSize::Word)
    } else if i == 0xb4 {
        Handler::Clr(DataSize::Word)
    } else if i == 0xb5 {
        Handler::Tst(DataSize::Word)
    } else if i == 0xb6 {
        Handler::Inc(DataSize::Word)
    } else if i == 0xb7 {
        Handler::Dec(DataSize::Word)
    } else if i == 0xb8 {
        Handler::Bispsw
    } else if i == 0xb9 {
        Handler::Bicpsw
    } else if i == 0xba {
        Handler::Popr
    } else if i == 0xbb {
        Handler::Pushr
    } else if i == 0xc0 {
        Handler::Add2(DataSize::Longword)
    } else if i == 0xc1 {
        Handler::Add3(DataSize::Longword)
    } else if i == 0xc2 {
        Handler::Sub2(DataSize::Longword)
    } else if i == 0xc3 {
        Handler::Sub3(DataSize::Longword)
    } else if i == 0xc4 {
        Handler::Mul2(DataSize::Longword)
    } else if i == 0xc5 {
        Handler::Mul3(DataSize::Longword)
    } else if i == 0xc6 {
        Handler::Div2(DataSize::Longword)
    } else if i == 0xc7 {
        Handler::Div3(DataSize::Longword)
    } else if i == 0xc8 {
        Handler::Bis2(DataSize::Longword)
    } else if i == 0xc9 {
        Handler::Bis3(DataSize::Longword)
    } else if i == 0xca {
        Handler::Bic2(DataSize::Longword)
    } else if i == 0xcb {
        Handler::Bic3(DataSize::Longword)
    } else if i == 0xcc {
        Handler::Xor2(DataSize::Longword)
    } else if i == 0xcd {
        Handler::Xor3(DataSize::Longword)
    } else if i == 0xce {
        Handler::Mneg(DataSize::Longword)
    } else if i == 0xcf {
        Handler::CaseOp(DataSize::Longword)
    } else if i == 0xd0 {
        Handler::Mov(DataSize::Longword)
    } else if i == 0xd1 {
        Handler::Cmp(DataSize::Longword)
    } else if i == 0xd2 {
        Handler::Mcom(DataSize::Longword)
    } else if i == 0xd3 {
        Handler::Bit(DataSize::Longword)
    } else if i == 0xd4 {
        Handler::Clr(DataSize::Longword)
    } else if i == 0xd5 {
        Handler::Tst(DataSize::Longword)
    } else if i == 0xd6 {
        Handler::Inc(DataSize::Longword)
    } else if i == 0xd7 {
        Handler::Dec(DataSize::Longword)
    } else if i == 0xd8 {
        Handler::Adwc(DataSize::Longword)
    } else if i == 0xda {
        Handler::Mtpr
    } else if i == 0xdb {
        Handler::Mfpr
    } else if i == 0xdc {
        Handler::Movpsl
    } else if i == 0xdd {
        Handler::Pushl
    } else if i == 0xde {
        Handler::Mova(DataSize::Longword)
    } else if i == 0xdf {
        Handler::Pusha(DataSize::Longword)
    } else if i == 0xe8 {
        Handler::Blbs
    } else if i == 0xe9 {
        Handler::Blbc
    } else if i == 0xf6 {
        Handler::Cvt(DataSize::Longword, DataSize::Byte)
    } else if i == 0xf7 {
        Handler::Cvt(DataSize::Longword, DataSize::Word)
    } else if i == 0x27d {
        Handler::Mov(DataSize::Octaword)
    } else if i == 0x27e {
        Handler::Mova(DataSize::Octaword)
    } else if i == 0x27f {
        Handler::Pusha(DataSize::Octaword)
    } else {
        Handler::Unimplemented
    }
}

/// Build the dispatch table: 1280 slots, each the handler of its opcode.
pub fn build_instr_table() -> (r: Vec<Handler>)
    ensures
        r@.len() == 1280,
        forall|i: int| 0 <= i < 1280 ==> r@[i] == table_entry(i),
{
    let mut t: Vec<Handler> = Vec::new();
    let mut i: usize = 0;
    while i < 1280
        invariant
            i <= 1280,
            t@.len() == i,
            forall|j: int| 0 <= j < i ==> t@[j] == table_entry(j),
        decreases 1280 - i,
    {
        t.push(entry_for(i));
        i = i + 1;
    }
    t
}

} // verus!
