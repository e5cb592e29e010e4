//! Memory-management protection codes: which of the four privilege levels
//! may read or write a page, per the architecture's sixteen fixed codes.

use crate::PrivilegeMode;
use vstd::prelude::*;

verus! {

/// One of the sixteen page-protection codes. The comment column gives the
/// access each privilege level holds, kernel/executive/supervisor/user:
/// `W` read and write, `R` read only, `-` none.
#[derive(Copy, Clone, Debug, PartialEq, Eq, Structural)]
pub enum PTEProtectionCode {
    NoAccess,  // ----
    ZeroPage,  // RRRR
    KernW,  // W---
    KernR,  // R---
    UserW,  // WWWW
    ExecW,  // WW--
    ExecRKernW,  // WR--
    ExecR,  // RR--
    SuperW,  // WWW-
    SuperRExecW,  // WWR-
    SuperRKernW,  // WRR-
    SuperR,  // RRR-
    UserRSuperW,  // WWWR
    UserRExecW,  // WWRR
    UserRKernW,  // WRRR
    UserR,  // RRRR
}

#[derive(Copy, Clone, Debug, PartialEq, Eq, Structural)]
pub enum MemoryAccessType {
    Read,
    Write,
}

/// The number of privilege levels, counted from kernel, that may write a
/// page under the given code.
pub open spec fn write_levels(code: PTEProtectionCode) -> int {
    match code {
        PTEProtectionCode::NoAccess => 0,
        PTEProtectionCode::ZeroPage => 0,
        PTEProtectionCode::KernW => 1,
        PTEProtectionCode::KernR => 0,
        PTEProtectionCode::UserW => 4,
        PTEProtectionCode::ExecW => 2,
        PTEProtectionCode::ExecRKernW => 1,
        PTEProtectionCode::ExecR => 0,
        PTEProtectionCode::SuperW => 3,
        PTEProtectionCode::SuperRExecW => 2,
        PTEProtectionCode::SuperRKernW => 1,
        PTEProtectionCode::SuperR => 0,
        PTEProtectionCode::UserRSuperW => 3,
        PTEProtectionCode::UserRExecW => 2,
        PTEProtectionCode::UserRKernW => 1,
        PTEProtectionCode::UserR => 0,
    }
}

/// The number of privilege levels, counted from kernel, that may read a
/// page under the given code.
pub open spec fn read_levels(code: PTEProtectionCode) -> int {
    match code {
        PTEProtectionCode::NoAccess => 0,
        PTEProtectionCode::ZeroPage => 4,
        PTEProtectionCode::KernW => 1,
        PTEProtectionCode::KernR => 1,
        PTEProtectionCode::UserW => 4,
        PTEProtectionCode::ExecW => 2,
        PTEProtectionCode::ExecRKernW => 2,
        PTEProtectionCode::ExecR => 2,
        PTEProtectionCode::SuperW => 3,
        PTEProtectionCode::SuperRExecW => 3,
        PTEProtectionCode::SuperRKernW => 3,
        PTEProtectionCode::SuperR => 3,
        PTEProtectionCode::UserRSuperW => 4,
        PTEProtectionCode::UserRExecW => 4,
        PTEProtectionCode::UserRKernW => 4,
        PTEProtectionCode::UserR => 4,
    }
}

/// The numeric rank of a privilege mode: kernel is the most privileged,
/// rank zero.
pub open spec fn mode_rank(mode: PrivilegeMode) -> int {
    match mode {
        PrivilegeMode::Kernel => 0,
        PrivilegeMode::Executive => 1,
        PrivilegeMode::Supervisor => 2,
        PrivilegeMode::User => 3,
    }
}

impl PTEProtectionCode {
    /// Whether a requester at `mode` may perform `access` on a page
    /// carrying this protection code: writes are granted to modes more
    /// privileged than the code's write threshold, reads also to modes at
    /// or below its read threshold.
    pub fn can_access(self, mode: PrivilegeMode, access: MemoryAccessType) -> (r: bool)
        ensures
            access == MemoryAccessType::Write ==> r == (mode_rank(mode) < write_levels(self)),
            access == MemoryAccessType::Read ==> r == (mode_rank(mode) < read_levels(self)),
    {
        let rank: u8 = match mode {
            PrivilegeMode::Kernel => 0,
            PrivilegeMode::Executive => 1,
            PrivilegeMode::Supervisor => 2,
            PrivilegeMode::User => 3,
        };
        let levels: u8 = match access {
            MemoryAccessType::Write => match self {
                PTEProtectionCode::NoAccess => 0,
                PTEProtectionCode::ZeroPage => 0,
                PTEProtectionCode::KernW => 1,
                PTEProtectionCode::KernR => 0,
                PTEProtectionCode::UserW => 4,
                PTEProtectionCode::ExecW => 2,
                PTEProtectionCode::ExecRKernW => 1,
                PTEProtectionCode::ExecR => 0,
                PTEProtectionCode::SuperW => 3,
                PTEProtectionCode::SuperRExecW => 2,
                PTEProtectionCode::SuperRKernW => 1,
                PTEProtectionCode::SuperR => 0,
                PTEProtectionCode::UserRSuperW => 3,
                PTEProtectionCode::UserRExecW => 2,
                PTEProtectionCode::UserRKernW => 1,
                PTEProtectionCode::UserR => 0,
            },
            MemoryAccessType::Read => match self {
                PTEProtectionCode::NoAccess => 0,
                PTEProtectionCode::ZeroPage => 4,
                PTEProtectionCode::KernW => 1,
                PTEProtectionCode::KernR => 1,
                PTEProtectionCode::UserW => 4,
                PTEProtectionCode::ExecW => 2,
                PTEProtectionCode::ExecRKernW => 2,
                PTEProtectionCode::ExecR => 2,
                PTEProtectionCode::SuperW => 3,
                PTEProtectionCode::SuperRExecW => 3,
                PTEProtectionCode::SuperRKernW => 3,
                PTEProtectionCode::SuperR => 3,
                PTEProtectionCode::UserRSuperW => 4,
                PTEProtectionCode::UserRExecW => 4,
                PTEProtectionCode::UserRKernW => 4,
                PTEProtectionCode::UserR => 4,
            },
        };
        rank < levels
    }

    /// The code's four-bit encoding in a page-table entry.
    pub fn to_bits(self) -> (r: u8)
        ensures
            r < 16,
            PTEProtectionCode::from_bits_spec(r) == self,
    {
        match self {
            PTEProtectionCode::NoAccess => 0b0000,
            PTEProtectionCode::ZeroPage => 0b0001,
            PTEProtectionCode::KernW => 0b0010,
            PTEProtectionCode::KernR => 0b0011,
            PTEProtectionCode::UserW => 0b0100,
            PTEProtectionCode::ExecW => 0b0101,
            PTEProtectionCode::ExecRKernW => 0b0110,
            PTEProtectionCode::ExecR => 0b0111,
            PTEProtectionCode::SuperW => 0b1000,
            PTEProtectionCode::SuperRExecW => 0b1001,
            PTEProtectionCode::SuperRKernW => 0b1010,
            PTEProtectionCode::SuperR => 0b1011,
            PTEProtectionCode::UserRSuperW => 0b1100,
            PTEProtectionCode::UserRExecW => 0b1101,
            PTEProtectionCode::UserRKernW => 0b1110,
            PTEProtectionCode::UserR => 0b1111,
        }
    }

    /// The code a four-bit field denotes (fields above fifteen cannot
    /// occur in a page-table entry; they decode as no access).
    pub open spec fn from_bits_spec(bits: u8) -> PTEProtectionCode {
        if bits == 1 {
            PTEProtectionCode::ZeroPage
        } else if bits == 2 {
            PTEProtectionCode::KernW
        } else if bits == 3 {
            PTEProtectionCode::KernR
        } else if bits == 4 {
            PTEProtectionCode::UserW
        } else if bits == 5 {
            PTEProtectionCode::ExecW
        } else if bits == 6 {
            PTEProtectionCode::ExecRKernW
        } else if bits == 7 {
            PTEProtectionCode::ExecR
        } else if bits == 8 {
            PTEProtectionCode::SuperW
        } else if bits == 9 {
            PTEProtectionCode::SuperRExecW
        } else if bits == 10 {
            PTEProtectionCode::SuperRKernW
        } else if bits == 11 {
            PTEProtectionCode::SuperR
        } else if bits == 12 {
            PTEProtectionCode::UserRSuperW
        } else if bits == 13 {
            PTEProtectionCode::UserRExecW
        } else if bits == 14 {
            PTEProtectionCode::UserRKernW
        } else if bits == 15 {
            PTEProtectionCode::UserR
        } else {
            PTEProtectionCode::NoAccess
        }
    }

    /// Decode a four-bit protection field.
    pub fn from_bits(bits: u8) -> (r: PTEProtectionCode)
        ensures
            r == PTEProtectionCode::from_bits_spec(bits),
    {
        if bits == 1 {
            PTEProtectionCode::ZeroPage
        } else if bits == 2 {
            PTEProtectionCode::KernW
        } else if bits == 3 {
            PTEProtectionCode::KernR
        } else if bits == 4 {
            PTEProtectionCode::UserW
        } else if bits == 5 {
            PTEProtectionCode::ExecW
        } else if bits == 6 {
            PTEProtectionCode::ExecRKernW
        } else if bits == 7 {
            PTEProtectionCode::ExecR
        } else if bits == 8 {
            PTEProtectionCode::SuperW
        } else if bits == 9 {
            PTEProtectionCode::SuperRExecW
        } else if bits == 10 {
            PTEProtectionCode::SuperRKernW
        } else if bits == 11 {
            PTEProtectionCode::SuperR
        } else if bits == 12 {
            PTEProtectionCode::UserRSuperW
        } else if bits == 13 {
            PTEProtectionCode::UserRExecW
        } else if bits == 14 {
            PTEProtectionCode::UserRKernW
        } else if bits == 15 {
            PTEProtectionCode::UserR
        } else {
            PTEProtectionCode::NoAccess
        }
    }
}

} // verus!
