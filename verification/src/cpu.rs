//! The CPU core: architectural state, the bus attachment, and the
//! memory-access and flag-commit primitives every instruction handler goes
//! through.

use crate::arith::{in_size, CVZN};
use crate::bus::VAXBus;
use crate::cycles::Cycles;
use crate::dispatch::{build_instr_table, table_entry, Handler};
use crate::error::{Error, ErrorKind};
use crate::instr_string::MultiInstruction;
use crate::psl::PslFields;
use crate::regfile::VAXRegisterFile;
use crate::{DataSize, PrivilegeMode};
use vstd::prelude::*;

verus! {

/// The privilege mode a two-bit current-mode field denotes.
pub open spec fn mode_of_bits(m: u8) -> PrivilegeMode {
    if m == 0 {
        PrivilegeMode::Kernel
    } else if m == 1 {
        PrivilegeMode::Executive
    } else if m == 2 {
        PrivilegeMode::Supervisor
    } else {
        PrivilegeMode::User
    }
}

/// The architectural fault a bus error surfaces as: an access the backing
/// store denied is an access-control violation, a translation failure is a
/// translation fault, and anything the emulated hardware cannot account
/// for — an out-of-bounds or unmapped physical access — is a machine
/// check. Every one carries the triggering address.
pub fn bus_fault(e: crate::bus::BusError) -> (r: Error)
    ensures
        r.data_spec().0 == e.addr_spec(),
        r.data_spec().1 == 0,
    {
    match e {
        crate::bus::BusError::OutOfBounds(a) => Error::with_addr(ErrorKind::MachineCheck, a),
        crate::bus::BusError::Denied(a) => Error::with_addr(
            ErrorKind::AccessControlViolation,
            a,
        ),
        crate::bus::BusError::OpenBus(a) => Error::with_addr(ErrorKind::MachineCheck, a),
        crate::bus::BusError::Translation(a) => Error::with_addr(
            ErrorKind::TranslationNotValid,
            a,
        ),
    }
}

/// One emulated processor. It owns its register file and, once a host has
/// handed one over, its bus; per tick there is exactly one owner of both,
/// so no locking or aliasing is possible. The fields are exposed so a host
/// can set up and inspect state directly around ticks; normal operation
/// goes through the tick entry point alone.
pub struct VAXCPU<B: VAXBus> {
    pub regfile: VAXRegisterFile,
    pub halted: bool,
    pub bus: Option<B>,
    pub itable: Vec<Handler>,
    pub cur_cycle: Cycles,
    pub multi_instr_active: MultiInstruction,
}

impl<B: VAXBus> VAXCPU<B> {
    /// Well-formedness: the dispatch table is the full 1280-slot opcode
    /// table, and the continuation state names an implemented multi-tick
    /// instruction.
    pub open spec fn wf(self) -> bool {
        &&& self.itable@.len() == 1280
        &&& forall|i: int| 0 <= i < 1280 ==> self.itable@[i] == table_entry(i)
        &&& (self.multi_instr_active == MultiInstruction::Idle || self.multi_instr_active
            == (MultiInstruction::MOVC3 {  }))
    }

    /// Whether a bus is attached.
    pub open spec fn has_bus(self) -> bool {
        self.bus is Some
    }

    /// A CPU in its reset state, with no bus attached.
    pub fn new() -> (r: VAXCPU<B>)
        ensures
            r.wf(),
            !r.has_bus(),
            r.regfile == VAXRegisterFile::reset_spec(),
            !r.halted,
            r.cur_cycle.0 == 0,
            r.multi_instr_active == MultiInstruction::Idle,
    {
        VAXCPU {
            regfile: VAXRegisterFile::new(),
            halted: false,
            bus: None,
            itable: build_instr_table(),
            cur_cycle: Cycles(0),
            multi_instr_active: MultiInstruction::Idle,
        }
    }

    /// Stop the machine: every later tick is a no-op.
    pub fn halt(&mut self)
        ensures
            *final(self) == (VAXCPU { halted: true, ..*old(self) }),
    {
        self.halted = true;
    }

    pub fn halted(&self) -> (r: bool)
        ensures
            r == self.halted,
    {
        self.halted
    }

    /// Cycles consumed so far.
    pub fn cur_cycle(&self) -> (r: usize)
        ensures
            r == self.cur_cycle.0,
    {
        self.cur_cycle.0
    }

    /// Attach a bus. The machine must not already have one.
    pub fn give_bus(&mut self, bus: B)
        requires
            !old(self).has_bus(),
        ensures
            *final(self) == (VAXCPU { bus: Some(bus), ..*old(self) }),
    {
        self.bus = Some(bus);
    }

    /// Detach and return the bus, if one is attached.
    pub fn take_bus(&mut self) -> (r: Option<B>)
        ensures
            r == old(self).bus,
            *final(self) == (VAXCPU { bus: None::<B>, ..*old(self) }),
    {
        self.bus.take()
    }

    /// The privilege mode the machine is currently executing in; this is
    /// the tag handed to the bus with every access.
    pub fn current_mode(&self) -> (r: PrivilegeMode)
        ensures
            r == mode_of_bits(self.regfile.psl@.cur_mod),
    {
        let m = self.regfile.get_psl().get_cur_mod();
        if m == 0 {
            PrivilegeMode::Kernel
        } else if m == 1 {
            PrivilegeMode::Executive
        } else if m == 2 {
            PrivilegeMode::Supervisor
        } else {
            PrivilegeMode::User
        }
    }

    /// Read a value of width `size` at `addr` through the attached bus,
    /// accumulating the cycle cost and tagging the access with the current
    /// privilege mode. With memory mapping enabled the translation walk is
    /// a stub contract and faults cleanly before any bus access; a bus
    /// fault is surfaced with the triggering address in the error data.
    pub fn read_val(&mut self, addr: u32, size: DataSize) -> (r: Result<u128, Error>)
        requires
            old(self).has_bus(),
        ensures
            final(self).has_bus(),
            final(self).regfile == old(self).regfile,
            final(self).halted == old(self).halted,
            final(self).itable == old(self).itable,
            final(self).multi_instr_active == old(self).multi_instr_active,
            final(self).wf() == old(self).wf(),
            (r matches Ok(v) ==> in_size(v, size)),
            old(self).regfile.mapen ==> (r matches Err(e) && e.kind_spec()
                == ErrorKind::TranslationNotValid),
            (r matches Err(e) ==> e.data_spec().0 == addr),
    {
        if self.regfile.get_mapen() {
            // Address translation is a stub contract: fault cleanly.
            return Err(Error::with_addr(ErrorKind::TranslationNotValid, addr));
        }
        let tag = self.current_mode();
        let mut res: Result<u128, Error> = Err(Error::with_addr(ErrorKind::MachineCheck, addr));
        let mut cyc = Cycles(0);
        match &mut self.bus {
            Some(bus) => {
                let (c, r) = bus.read_val(addr, size, tag);
                cyc = c;
                res = match r {
                    Ok(v) => Ok(v),
                    Err(e) => Err(bus_fault(e)),
                };
            },
            None => {
                proof {
                    assert(false);
                }
            },
        }
        self.cur_cycle = self.cur_cycle.plus(cyc);
        res
    }

    /// Write a value of width `size` at `addr` through the attached bus,
    /// accumulating the cycle cost and tagging the access with the current
    /// privilege mode.
    pub fn write_val(&mut self, addr: u32, size: DataSize, val: u128) -> (r: Result<(), Error>)
        requires
            old(self).has_bus(),
            in_size(val, size),
        ensures
            final(self).has_bus(),
            final(self).regfile == old(self).regfile,
            final(self).halted == old(self).halted,
            final(self).itable == old(self).itable,
            final(self).multi_instr_active == old(self).multi_instr_active,
            final(self).wf() == old(self).wf(),
            old(self).regfile.mapen ==> (r matches Err(e) && e.kind_spec()
                == ErrorKind::TranslationNotValid),
            (r matches Err(e) ==> e.data_spec().0 == addr),
    {
        if self.regfile.get_mapen() {
            return Err(Error::with_addr(ErrorKind::TranslationNotValid, addr));
        }
        let tag = self.current_mode();
        let mut res: Result<(), Error> = Err(Error::with_addr(ErrorKind::MachineCheck, addr));
        let mut cyc = Cycles(0);
        match &mut self.bus {
            Some(bus) => {
                let (c, r) = bus.write_val(addr, size, val, tag);
                cyc = c;
                res = match r {
                    Ok(_) => Ok(()),
                    Err(e) => Err(bus_fault(e)),
                };
            },
            None => {
                proof {
                    assert(false);
                }
            },
        }
        self.cur_cycle = self.cur_cycle.plus(cyc);
        res
    }

    /// Whether a read of width `size` at `addr` may proceed: succeeds
    /// exactly when address translation is off, since the translation walk
    /// is a stub contract.
    pub fn can_read_val(&mut self, addr: u32, _size: DataSize) -> (r: Result<(), Error>)
        ensures
            *final(self) == *old(self),
            !old(self).regfile.mapen <==> r matches Ok(_),
            old(self).regfile.mapen ==> (r matches Err(e) && e.kind_spec()
                == ErrorKind::TranslationNotValid && e.data_spec().0 == addr),
    {
        if self.regfile.get_mapen() {
            Err(Error::with_addr(ErrorKind::TranslationNotValid, addr))
        } else {
            Ok(())
        }
    }

    /// Whether a write of width `size` at `addr` may proceed.
    pub fn can_write_val(&mut self, addr: u32, _size: DataSize) -> (r: Result<(), Error>)
        ensures
            *final(self) == *old(self),
            !old(self).regfile.mapen <==> r matches Ok(_),
            old(self).regfile.mapen ==> (r matches Err(e) && e.kind_spec()
                == ErrorKind::TranslationNotValid && e.data_spec().0 == addr),
    {
        if self.regfile.get_mapen() {
            Err(Error::with_addr(ErrorKind::TranslationNotValid, addr))
        } else {
            Ok(())
        }
    }

    /// Copy a computed flag record into the status word in one step,
    /// leaving every privilege and mode field untouched.
    pub fn commit_flags(&mut self, flags: CVZN)
        ensures
            final(self).regfile.psl@ == (PslFields {
                carry: flags.c,
                overflow: flags.v,
                zero: flags.z,
                negative: flags.n,
                ..old(self).regfile.psl@
            }),
            final(self).regfile == (VAXRegisterFile {
                psl: final(self).regfile.psl,
                ..old(self).regfile
            }),
            final(self).halted == old(self).halted,
            final(self).bus == old(self).bus,
            final(self).itable == old(self).itable,
            final(self).cur_cycle == old(self).cur_cycle,
            final(self).multi_instr_active == old(self).multi_instr_active,
    {
        let mut psl = self.regfile.get_psl();
        psl.set_c(flags.c);
        psl.set_v(flags.v);
        psl.set_z(flags.z);
        psl.set_n(flags.n);
        self.regfile.set_psl(psl);
    }

    /// Point the program counter at the boot ROM window.
    pub fn prepare_as_microvax(&mut self)
        ensures
            *final(self) == (VAXCPU {
                regfile: VAXRegisterFile { pc: 0x2004_0000u32, ..old(self).regfile },
                ..*old(self)
            }),
    {
        self.regfile.set_pc(0x2004_0000);
    }
}

} // verus!
