//! Instruction-set interpreter core for a 32-bit general-register,
//! variable-length-instruction minicomputer architecture.
//!
//! The crate models the architectural register file, the packed processor
//! status longword, the flagged arithmetic layer, the operand addressing
//! resolver, the opcode dispatch table and the multi-tick string-instruction
//! engine, each with machine-checked contracts.

use vstd::prelude::*;

pub mod arith;
pub mod bus;
pub mod codec;
pub mod cpu;
pub mod dispatch;
pub mod cycles;
pub mod error;
pub mod exec;
pub mod instr_arith;
pub mod instr_control;
pub mod instr_convert;
pub mod instr_misc;
pub mod instr_string;
pub mod float;
pub mod mmu;
pub mod operands;
pub mod psl;
pub mod regfile;

verus! {

/// Width of a single operand, from one byte up to sixteen bytes.
#[derive(Copy, Clone, Debug, PartialEq, Eq, Structural)]
pub enum DataSize {
    /// 8 bits.
    Byte,
    /// 16 bits.
    Word,
    /// 32 bits.
    Longword,
    /// 64 bits.
    Quadword,
    /// 128 bits.
    Octaword,
}

impl DataSize {
    /// Length of a value of this width in bytes.
    pub open spec fn byte_len_spec(self) -> nat {
        match self {
            DataSize::Byte => 1,
            DataSize::Word => 2,
            DataSize::Longword => 4,
            DataSize::Quadword => 8,
            DataSize::Octaword => 16,
        }
    }

    /// Length of a value of this width in bits.
    pub open spec fn bit_len_spec(self) -> nat {
        self.byte_len_spec() * 8
    }

    pub fn byte_len(self) -> (r: usize)
        ensures
            r == self.byte_len_spec(),
    {
        match self {
            DataSize::Byte => 1,
            DataSize::Word => 2,
            DataSize::Longword => 4,
            DataSize::Quadword => 8,
            DataSize::Octaword => 16,
        }
    }

    pub fn bit_len(self) -> (r: usize)
        ensures
            r == self.bit_len_spec(),
    {
        self.byte_len() * 8
    }
}

/// A privilege (access) mode, kernel being the most privileged.
#[derive(Copy, Clone, Debug, PartialEq, Eq, Structural)]
pub enum PrivilegeMode {
    Kernel,
    Executive,
    Supervisor,
    User,
}

/// An operand value tagged with its width.
#[derive(Copy, Clone, Debug, PartialEq, Eq)]
pub enum TaggedData {
    Byte(u8),
    Word(u16),
    Longword(u32),
    Quadword(u64),
    Octaword(u128),
}

} // verus!
