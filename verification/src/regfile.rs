//! The architectural register file: fourteen general registers, five banked
//! stack pointers selected by privilege mode or the interrupt-stack flag,
//! the program counter, the processor status longword and the memory
//! management registers.

use crate::arith::in_size;
use crate::psl::PSL;
use crate::error::{Error, ErrorKind};
use crate::DataSize;
use vstd::arithmetic::div_mod::lemma_fundamental_div_mod;
use vstd::prelude::*;

verus! {

pub struct VAXRegisterFile {
    pub r0: u32,
    pub r1: u32,
    pub r2: u32,
    pub r3: u32,
    pub r4: u32,
    pub r5: u32,
    pub r6: u32,
    pub r7: u32,
    pub r8: u32,
    pub r9: u32,
    pub r10: u32,
    pub r11: u32,
    pub r12: u32,
    pub r13: u32,
    pub ksp: u32,
    pub esp: u32,
    pub ssp: u32,
    pub usp: u32,
    pub isp: u32,
    pub pc: u32,
    pub psl: PSL,
    pub p0br: u32,
    pub p0lr: u32,
    pub p1br: u32,
    pub p1lr: u32,
    pub sbr: u32,
    pub slr: u32,
    pub pcbb: u32,
    pub scbb: u32,
    pub sirr: u32,
    pub sisr: u32,
    pub tbia: u32,
    pub tbis: u32,
    pub tbchk: u32,
    pub conpsl: u32,
    pub conpc: u32,
    pub mapen: bool,
    /// Console transmit buffer: the last byte written to the
    /// transmit-data register, waiting for the host to drain it.
    pub txdb: Option<u8>,
}

impl VAXRegisterFile {
    /// The general register at slot `i` of the fourteen-element bank.
    pub open spec fn gpr_spec(self, i: int) -> u32
        recommends
            0 <= i < 14,
    {
        if i == 0 {
            self.r0
        } else if i == 1 {
            self.r1
        } else if i == 2 {
            self.r2
        } else if i == 3 {
            self.r3
        } else if i == 4 {
            self.r4
        } else if i == 5 {
            self.r5
        } else if i == 6 {
            self.r6
        } else if i == 7 {
            self.r7
        } else if i == 8 {
            self.r8
        } else if i == 9 {
            self.r9
        } else if i == 10 {
            self.r10
        } else if i == 11 {
            self.r11
        } else if i == 12 {
            self.r12
        } else {
            self.r13
        }
    }

    /// The stack pointer bank selected by an access mode.
    pub open spec fn stkptr_spec(self, m: u8) -> u32 {
        if m == 0 {
            self.ksp
        } else if m == 1 {
            self.esp
        } else if m == 2 {
            self.ssp
        } else {
            self.usp
        }
    }

    /// The active stack pointer: the interrupt stack when the
    /// interrupt-stack flag is set, else the bank of the current mode.
    pub open spec fn sp_spec(self) -> u32 {
        if self.psl@.interrupt_stack {
            self.isp
        } else {
            self.stkptr_spec(self.psl@.cur_mod)
        }
    }

    /// What a general-register read of architectural index `i` returns:
    /// indexes 14 and 15 are redirected to the active stack pointer and the
    /// program counter.
    pub open spec fn read_gpr_spec(self, i: u8) -> u32
        recommends
            i < 16,
    {
        if i < 14 {
            self.gpr_spec(i as int)
        } else if i == 14 {
            self.sp_spec()
        } else {
            self.pc
        }
    }

    /// The register file after writing the active stack pointer.
    pub open spec fn sp_written(self, v: u32) -> Self {
        if self.psl@.interrupt_stack {
            VAXRegisterFile { isp: v, ..self }
        } else if self.psl@.cur_mod == 0 {
            VAXRegisterFile { ksp: v, ..self }
        } else if self.psl@.cur_mod == 1 {
            VAXRegisterFile { esp: v, ..self }
        } else if self.psl@.cur_mod == 2 {
            VAXRegisterFile { ssp: v, ..self }
        } else {
            VAXRegisterFile { usp: v, ..self }
        }
    }

    /// The register file after a general-register write of architectural
    /// index `i`, with the same redirection as reads.
    pub open spec fn gpr_written(self, i: u8, v: u32) -> Self
        recommends
            i < 16,
    {
        if i == 0 {
            VAXRegisterFile { r0: v, ..self }
        } else if i == 1 {
            VAXRegisterFile { r1: v, ..self }
        } else if i == 2 {
            VAXRegisterFile { r2: v, ..self }
        } else if i == 3 {
            VAXRegisterFile { r3: v, ..self }
        } else if i == 4 {
            VAXRegisterFile { r4: v, ..self }
        } else if i == 5 {
            VAXRegisterFile { r5: v, ..self }
        } else if i == 6 {
            VAXRegisterFile { r6: v, ..self }
        } else if i == 7 {
            VAXRegisterFile { r7: v, ..self }
        } else if i == 8 {
            VAXRegisterFile { r8: v, ..self }
        } else if i == 9 {
            VAXRegisterFile { r9: v, ..self }
        } else if i == 10 {
            VAXRegisterFile { r10: v, ..self }
        } else if i == 11 {
            VAXRegisterFile { r11: v, ..self }
        } else if i == 12 {
            VAXRegisterFile { r12: v, ..self }
        } else if i == 13 {
            VAXRegisterFile { r13: v, ..self }
        } else if i == 14 {
            self.sp_written(v)
        } else {
            VAXRegisterFile { pc: v, ..self }
        }
    }
}

impl VAXRegisterFile {
    /// A freshly reset register file: every register zero, the status
    /// longword on the interrupt stack at interrupt priority level 31.
    pub open spec fn reset_spec() -> VAXRegisterFile {
        VAXRegisterFile {
            r0: 0u32,
            r1: 0u32,
            r2: 0u32,
            r3: 0u32,
            r4: 0u32,
            r5: 0u32,
            r6: 0u32,
            r7: 0u32,
            r8: 0u32,
            r9: 0u32,
            r10: 0u32,
            r11: 0u32,
            r12: 0u32,
            r13: 0u32,
            ksp: 0u32,
            esp: 0u32,
            ssp: 0u32,
            usp: 0u32,
            isp: 0u32,
            pc: 0u32,
            psl: PSL(0x041F_0000),
            p0br: 0u32,
            p0lr: 0u32,
            p1br: 0u32,
            p1lr: 0u32,
            sbr: 0u32,
            slr: 0u32,
            pcbb: 0u32,
            scbb: 0u32,
            sirr: 0u32,
            sisr: 0u32,
            tbia: 0u32,
            tbis: 0u32,
            tbchk: 0u32,
            conpsl: 0u32,
            conpc: 0u32,
            mapen: false,
            txdb: Option::<u8>::None,
        }
    }

    pub fn new() -> (r: VAXRegisterFile)
        ensures
            r == Self::reset_spec(),
            r == (VAXRegisterFile {
                r0: 0u32,
                r1: 0u32,
                r2: 0u32,
                r3: 0u32,
                r4: 0u32,
                r5: 0u32,
                r6: 0u32,
                r7: 0u32,
                r8: 0u32,
                r9: 0u32,
                r10: 0u32,
                r11: 0u32,
                r12: 0u32,
                r13: 0u32,
                ksp: 0u32,
                esp: 0u32,
                ssp: 0u32,
                usp: 0u32,
                isp: 0u32,
                pc: 0u32,
                psl: PSL(0x041F_0000),
                p0br: 0u32,
                p0lr: 0u32,
                p1br: 0u32,
                p1lr: 0u32,
                sbr: 0u32,
                slr: 0u32,
                pcbb: 0u32,
                scbb: 0u32,
                sirr: 0u32,
                sisr: 0u32,
                tbia: 0u32,
                tbis: 0u32,
                tbchk: 0u32,
                conpsl: 0u32,
                conpc: 0u32,
                mapen: false,
                txdb: Option::<u8>::None,
            }),
    {
        VAXRegisterFile {
            r0: 0,
            r1: 0,
            r2: 0,
            r3: 0,
            r4: 0,
            r5: 0,
            r6: 0,
            r7: 0,
            r8: 0,
            r9: 0,
            r10: 0,
            r11: 0,
            r12: 0,
            r13: 0,
            ksp: 0,
            esp: 0,
            ssp: 0,
            usp: 0,
            isp: 0,
            pc: 0,
            psl: PSL(0x041F_0000),
            p0br: 0,
            p0lr: 0,
            p1br: 0,
            p1lr: 0,
            sbr: 0,
            slr: 0,
            pcbb: 0,
            scbb: 0,
            sirr: 0,
            sisr: 0,
            tbia: 0,
            tbis: 0,
            tbchk: 0,
            conpsl: 0,
            conpc: 0,
            mapen: false,
            txdb: None,
        }
    }

    pub fn get_r0(&self) -> (r: u32)
        ensures
            r == self.r0,
    {
        self.r0
    }

    pub fn set_r0(&mut self, val: u32)
        ensures
            *final(self) == (VAXRegisterFile { r0: val, ..*old(self) }),
    {
        self.r0 = val;
    }

    pub fn get_r1(&self) -> (r: u32)
        ensures
            r == self.r1,
    {
        self.r1
    }

    pub fn set_r1(&mut self, val: u32)
        ensures
            *final(self) == (VAXRegisterFile { r1: val, ..*old(self) }),
    {
        self.r1 = val;
    }

    pub fn get_r2(&self) -> (r: u32)
        ensures
            r == self.r2,
    {
        self.r2
    }

    pub fn set_r2(&mut self, val: u32)
        ensures
            *final(self) == (VAXRegisterFile { r2: val, ..*old(self) }),
    {
        self.r2 = val;
    }

    pub fn get_r3(&self) -> (r: u32)
        ensures
            r == self.r3,
    {
        self.r3
    }

    pub fn set_r3(&mut self, val: u32)
        ensures
            *final(self) == (VAXRegisterFile { r3: val, ..*old(self) }),
    {
        self.r3 = val;
    }

    pub fn get_r4(&self) -> (r: u32)
        ensures
            r == self.r4,
    {
        self.r4
    }

    pub fn set_r4(&mut self, val: u32)
        ensures
            *final(self) == (VAXRegisterFile { r4: val, ..*old(self) }),
    {
        self.r4 = val;
    }

    pub fn get_r5(&self) -> (r: u32)
        ensures
            r == self.r5,
    {
        self.r5
    }

    pub fn set_r5(&mut self, val: u32)
        ensures
            *final(self) == (VAXRegisterFile { r5: val, ..*old(self) }),
    {
        self.r5 = val;
    }

    pub fn get_r6(&self) -> (r: u32)
        ensures
            r == self.r6,
    {
        self.r6
    }

    pub fn set_r6(&mut self, val: u32)
        ensures
            *final(self) == (VAXRegisterFile { r6: val, ..*old(self) }),
    {
        self.r6 = val;
    }

    pub fn get_r7(&self) -> (r: u32)
        ensures
            r == self.r7,
    {
        self.r7
    }

    pub fn set_r7(&mut self, val: u32)
        ensures
            *final(self) == (VAXRegisterFile { r7: val, ..*old(self) }),
    {
        self.r7 = val;
    }

    pub fn get_r8(&self) -> (r: u32)
        ensures
            r == self.r8,
    {
        self.r8
    }

    pub fn set_r8(&mut self, val: u32)
        ensures
            *final(self) == (VAXRegisterFile { r8: val, ..*old(self) }),
    {
        self.r8 = val;
    }

    pub fn get_r9(&self) -> (r: u32)
        ensures
            r == self.r9,
    {
        self.r9
    }

    pub fn set_r9(&mut self, val: u32)
        ensures
            *final(self) == (VAXRegisterFile { r9: val, ..*old(self) }),
    {
        self.r9 = val;
    }

    pub fn get_r10(&self) -> (r: u32)
        ensures
            r == self.r10,
    {
        self.r10
    }

    pub fn set_r10(&mut self, val: u32)
        ensures
            *final(self) == (VAXRegisterFile { r10: val, ..*old(self) }),
    {
        self.r10 = val;
    }

    pub fn get_r11(&self) -> (r: u32)
        ensures
            r == self.r11,
    {
        self.r11
    }

    pub fn set_r11(&mut self, val: u32)
        ensures
            *final(self) == (VAXRegisterFile { r11: val, ..*old(self) }),
    {
        self.r11 = val;
    }

    pub fn get_r12(&self) -> (r: u32)
        ensures
            r == self.r12,
    {
        self.r12
    }

    pub fn set_r12(&mut self, val: u32)
        ensures
            *final(self) == (VAXRegisterFile { r12: val, ..*old(self) }),
    {
        self.r12 = val;
    }

    pub fn get_r13(&self) -> (r: u32)
        ensures
            r == self.r13,
    {
        self.r13
    }

    pub fn set_r13(&mut self, val: u32)
        ensures
            *final(self) == (VAXRegisterFile { r13: val, ..*old(self) }),
    {
        self.r13 = val;
    }

    pub fn get_ksp(&self) -> (r: u32)
        ensures
            r == self.ksp,
    {
        self.ksp
    }

    pub fn set_ksp(&mut self, val: u32)
        ensures
            *final(self) == (VAXRegisterFile { ksp: val, ..*old(self) }),
    {
        self.ksp = val;
    }

    pub fn get_esp(&self) -> (r: u32)
        ensures
            r == self.esp,
    {
        self.esp
    }

    pub fn set_esp(&mut self, val: u32)
        ensures
            *final(self) == (VAXRegisterFile { esp: val, ..*old(self) }),
    {
        self.esp = val;
    }

    pub fn get_ssp(&self) -> (r: u32)
        ensures
            r == self.ssp,
    {
        self.ssp
    }

    pub fn set_ssp(&mut self, val: u32)
        ensures
            *final(self) == (VAXRegisterFile { ssp: val, ..*old(self) }),
    {
        self.ssp = val;
    }

    pub fn get_usp(&self) -> (r: u32)
        ensures
            r == self.usp,
    {
        self.usp
    }

    pub fn set_usp(&mut self, val: u32)
        ensures
            *final(self) == (VAXRegisterFile { usp: val, ..*old(self) }),
    {
        self.usp = val;
    }

    pub fn get_isp(&self) -> (r: u32)
        ensures
            r == self.isp,
    {
        self.isp
    }

    pub fn set_isp(&mut self, val: u32)
        ensures
            *final(self) == (VAXRegisterFile { isp: val, ..*old(self) }),
    {
        self.isp = val;
    }

    pub fn get_pc(&self) -> (r: u32)
        ensures
            r == self.pc,
    {
        self.pc
    }

    pub fn set_pc(&mut self, val: u32)
        ensures
            *final(self) == (VAXRegisterFile { pc: val, ..*old(self) }),
    {
        self.pc = val;
    }

    pub fn get_p0br(&self) -> (r: u32)
        ensures
            r == self.p0br,
    {
        self.p0br
    }

    pub fn set_p0br(&mut self, val: u32)
        ensures
            *final(self) == (VAXRegisterFile { p0br: val, ..*old(self) }),
    {
        self.p0br = val;
    }

    pub fn get_p0lr(&self) -> (r: u32)
        ensures
            r == self.p0lr,
    {
        self.p0lr
    }

    pub fn set_p0lr(&mut self, val: u32)
        ensures
            *final(self) == (VAXRegisterFile { p0lr: val, ..*old(self) }),
    {
        self.p0lr = val;
    }

    pub fn get_p1br(&self) -> (r: u32)
        ensures
            r == self.p1br,
    {
        self.p1br
    }

    pub fn set_p1br(&mut self, val: u32)
        ensures
            *final(self) == (VAXRegisterFile { p1br: val, ..*old(self) }),
    {
        self.p1br = val;
    }

    pub fn get_p1lr(&self) -> (r: u32)
        ensures
            r == self.p1lr,
    {
        self.p1lr
    }

    pub fn set_p1lr(&mut self, val: u32)
        ensures
            *final(self) == (VAXRegisterFile { p1lr: val, ..*old(self) }),
    {
        self.p1lr = val;
    }

    pub fn get_sbr(&self) -> (r: u32)
        ensures
            r == self.sbr,
    {
        self.sbr
    }

    pub fn set_sbr(&mut self, val: u32)
        ensures
            *final(self) == (VAXRegisterFile { sbr: val, ..*old(self) }),
    {
        self.sbr = val;
    }

    pub fn get_slr(&self) -> (r: u32)
        ensures
            r == self.slr,
    {
        self.slr
    }

    pub fn set_slr(&mut self, val: u32)
        ensures
            *final(self) == (VAXRegisterFile { slr: val, ..*old(self) }),
    {
        self.slr = val;
    }

    pub fn get_pcbb(&self) -> (r: u32)
        ensures
            r == self.pcbb,
    {
        self.pcbb
    }

    pub fn set_pcbb(&mut self, val: u32)
        ensures
            *final(self) == (VAXRegisterFile { pcbb: val, ..*old(self) }),
    {
        self.pcbb = val;
    }

    pub fn get_scbb(&self) -> (r: u32)
        ensures
            r == self.scbb,
    {
        self.scbb
    }

    pub fn set_scbb(&mut self, val: u32)
        ensures
            *final(self) == (VAXRegisterFile { scbb: val, ..*old(self) }),
    {
        self.scbb = val;
    }

    pub fn get_sirr(&self) -> (r: u32)
        ensures
            r == self.sirr,
    {
        self.sirr
    }

    pub fn set_sirr(&mut self, val: u32)
        ensures
            *final(self) == (VAXRegisterFile { sirr: val, ..*old(self) }),
    {
        self.sirr = val;
    }

    pub fn get_sisr(&self) -> (r: u32)
        ensures
            r == self.sisr,
    {
        self.sisr
    }

    pub fn set_sisr(&mut self, val: u32)
        ensures
            *final(self) == (VAXRegisterFile { sisr: val, ..*old(self) }),
    {
        self.sisr = val;
    }

    pub fn get_tbia(&self) -> (r: u32)
        ensures
            r == self.tbia,
    {
        self.tbia
    }

    pub fn set_tbia(&mut self, val: u32)
        ensures
            *final(self) == (VAXRegisterFile { tbia: val, ..*old(self) }),
    {
        self.tbia = val;
    }

    pub fn get_tbis(&self) -> (r: u32)
        ensures
            r == self.tbis,
    {
        self.tbis
    }

    pub fn set_tbis(&mut self, val: u32)
        ensures
            *final(self) == (VAXRegisterFile { tbis: val, ..*old(self) }),
    {
        self.tbis = val;
    }

    pub fn get_tbchk(&self) -> (r: u32)
        ensures
            r == self.tbchk,
    {
        self.tbchk
    }

    pub fn set_tbchk(&mut self, val: u32)
        ensures
            *final(self) == (VAXRegisterFile { tbchk: val, ..*old(self) }),
    {
        self.tbchk = val;
    }

    pub fn get_conpsl(&self) -> (r: u32)
        ensures
            r == self.conpsl,
    {
        self.conpsl
    }

    pub fn set_conpsl(&mut self, val: u32)
        ensures
            *final(self) == (VAXRegisterFile { conpsl: val, ..*old(self) }),
    {
        self.conpsl = val;
    }

    pub fn get_conpc(&self) -> (r: u32)
        ensures
            r == self.conpc,
    {
        self.conpc
    }

    pub fn set_conpc(&mut self, val: u32)
        ensures
            *final(self) == (VAXRegisterFile { conpc: val, ..*old(self) }),
    {
        self.conpc = val;
    }

    pub fn get_mapen(&self) -> (r: bool)
        ensures
            r == self.mapen,
    {
        self.mapen
    }

    pub fn set_mapen(&mut self, val: bool)
        ensures
            *final(self) == (VAXRegisterFile { mapen: val, ..*old(self) }),
    {
        self.mapen = val;
    }

    pub fn get_psl(&self) -> (r: PSL)
        ensures
            r == self.psl,
    {
        self.psl
    }

    pub fn set_psl(&mut self, v: PSL)
        ensures
            *final(self) == (VAXRegisterFile { psl: v, ..*old(self) }),
    {
        self.psl = v;
    }

    /// Take the byte waiting in the console transmit buffer, clearing it.
    pub fn take_txdb(&mut self) -> (r: Option<u8>)
        ensures
            r == old(self).txdb,
            *final(self) == (VAXRegisterFile { txdb: Option::<u8>::None, ..*old(self) }),
    {
        let r = self.txdb;
        self.txdb = None;
        r
    }

    /// Read the active stack pointer.
    pub fn get_sp(&self) -> (r: u32)
        ensures
            r == self.sp_spec(),
    {
        if self.psl.get_is() {
            self.isp
        } else {
            let id = self.psl.get_cur_mod();
            if id == 0 {
                self.ksp
            } else if id == 1 {
                self.esp
            } else if id == 2 {
                self.ssp
            } else {
                self.usp
            }
        }
    }

    /// Write the active stack pointer.
    pub fn set_sp(&mut self, val: u32)
        ensures
            *final(self) == old(self).sp_written(val),
    {
        if self.psl.get_is() {
            self.isp = val;
        } else {
            let id = self.psl.get_cur_mod();
            if id == 0 {
                self.ksp = val;
            } else if id == 1 {
                self.esp = val;
            } else if id == 2 {
                self.ssp = val;
            } else {
                self.usp = val;
            }
        }
    }

    /// Read general register `gpr`; indexes 14 and 15 reach the active
    /// stack pointer and the program counter.
    pub fn read_gpr(&self, gpr: u8) -> (r: u32)
        requires
            gpr < 16,
        ensures
            r == self.read_gpr_spec(gpr),
    {
        if gpr == 0 {
            self.r0
        } else if gpr == 1 {
            self.r1
        } else if gpr == 2 {
            self.r2
        } else if gpr == 3 {
            self.r3
        } else if gpr == 4 {
            self.r4
        } else if gpr == 5 {
            self.r5
        } else if gpr == 6 {
            self.r6
        } else if gpr == 7 {
            self.r7
        } else if gpr == 8 {
            self.r8
        } else if gpr == 9 {
            self.r9
        } else if gpr == 10 {
            self.r10
        } else if gpr == 11 {
            self.r11
        } else if gpr == 12 {
            self.r12
        } else if gpr == 13 {
            self.r13
        } else if gpr == 14 {
            self.get_sp()
        } else {
            self.pc
        }
    }

    /// Write general register `gpr`, with the same redirection as reads.
    pub fn write_gpr(&mut self, gpr: u8, val: u32)
        requires
            gpr < 16,
        ensures
            *final(self) == old(self).gpr_written(gpr, val),
    {
        if gpr == 0 {
            self.r0 = val;
        } else if gpr == 1 {
            self.r1 = val;
        } else if gpr == 2 {
            self.r2 = val;
        } else if gpr == 3 {
            self.r3 = val;
        } else if gpr == 4 {
            self.r4 = val;
        } else if gpr == 5 {
            self.r5 = val;
        } else if gpr == 6 {
            self.r6 = val;
        } else if gpr == 7 {
            self.r7 = val;
        } else if gpr == 8 {
            self.r8 = val;
        } else if gpr == 9 {
            self.r9 = val;
        } else if gpr == 10 {
            self.r10 = val;
        } else if gpr == 11 {
            self.r11 = val;
        } else if gpr == 12 {
            self.r12 = val;
        } else if gpr == 13 {
            self.r13 = val;
        } else if gpr == 14 {
            self.set_sp(val);
        } else {
            self.pc = val;
        }
    }
}

impl VAXRegisterFile {
    /// Reading a general register straight after writing it returns the
    /// written value, through the stack-pointer and program-counter
    /// redirection included.
    pub proof fn lemma_gpr_read_after_write(self, i: u8, v: u32)
        requires
            i < 16,
        ensures
            self.gpr_written(i, v).read_gpr_spec(i) == v,
    {
    }

    /// No general-register write, plain or extended, touches the status
    /// longword.
    pub proof fn lemma_gpr_written_preserves_psl(self, i: u8, v: u32)
        ensures
            self.gpr_written(i, v).psl == self.psl,
    {
    }

    pub proof fn lemma_ext_written_preserves_psl(self, i: u8, s: DataSize, v: u128)
        ensures
            self.ext_written(i, s, v).psl == self.psl,
    {
        self.lemma_gpr_written_preserves_psl(i, Self::ext_word(v, 0));
    }

    /// The 32-bit word at position `k` of a wide value's little-endian
    /// register image.
    pub open spec fn ext_word(v: u128, k: int) -> u32
        recommends
            0 <= k < 4,
    {
        (if k == 0 {
            v % 0x1_0000_0000
        } else if k == 1 {
            (v / 0x1_0000_0000) % 0x1_0000_0000
        } else if k == 2 {
            (v / 0x1_0000_0000_0000_0000) % 0x1_0000_0000
        } else {
            (v / 0x1_0000_0000_0000_0000_0000_0000) % 0x1_0000_0000
        }) as u32
    }

    /// What an extended read of width `s` starting at register `i` returns:
    /// narrow reads truncate one register, the 32-bit read is the plain
    /// (redirected) read, and wider reads concatenate consecutive registers
    /// little-endian — unless the span would cross into the stack pointer
    /// or program counter, where the architecture leaves the value
    /// undefined and this implementation returns zero.
    pub open spec fn read_ext_spec(self, i: u8, s: DataSize) -> u128
        recommends
            i < 16,
    {
        match s {
            DataSize::Byte => (self.read_gpr_spec(i) % 0x100) as u128,
            DataSize::Word => (self.read_gpr_spec(i) % 0x1_0000) as u128,
            DataSize::Longword => self.read_gpr_spec(i) as u128,
            DataSize::Quadword => if i > 12 {
                0
            } else {
                (self.gpr_spec(i as int) + 0x1_0000_0000u128 * self.gpr_spec(i + 1)) as u128
            },
            DataSize::Octaword => if i > 10 {
                0
            } else {
                (self.gpr_spec(i as int) + 0x1_0000_0000u128 * self.gpr_spec(i + 1)
                    + 0x1_0000_0000_0000_0000u128 * self.gpr_spec(i + 2)
                    + 0x1_0000_0000_0000_0000_0000_0000u128 * self.gpr_spec(i + 3)) as u128
            },
        }
    }

    /// Read a value of width `s` starting at register `i`.
    pub fn read_gpr_ext(&self, start_gpr: u8, size: DataSize) -> (r: u128)
        requires
            start_gpr < 16,
        ensures
            r == self.read_ext_spec(start_gpr, size),
            in_size(r, size),
    {
        match size {
            DataSize::Byte => (self.read_gpr(start_gpr) % 0x100) as u128,
            DataSize::Word => (self.read_gpr(start_gpr) % 0x1_0000) as u128,
            DataSize::Longword => self.read_gpr(start_gpr) as u128,
            DataSize::Quadword => {
                if start_gpr > 12 {
                    0
                } else {
                    (self.read_gpr(start_gpr) as u128) + 0x1_0000_0000u128 * (self.read_gpr(
                        start_gpr + 1,
                    ) as u128)
                }
            },
            DataSize::Octaword => {
                if start_gpr > 10 {
                    0
                } else {
                    (self.read_gpr(start_gpr) as u128) + 0x1_0000_0000u128 * (self.read_gpr(
                        start_gpr + 1,
                    ) as u128) + 0x1_0000_0000_0000_0000u128 * (self.read_gpr(start_gpr + 2)
                        as u128) + 0x1_0000_0000_0000_0000_0000_0000u128 * (self.read_gpr(
                        start_gpr + 3,
                    ) as u128)
                }
            },
        }
    }

    /// A 32-bit register value with its low `s`-width part replaced by `v`
    /// and the untouched high bits preserved.
    pub open spec fn merged_low(g: u32, v: u128, s: DataSize) -> u32
        recommends
            in_size(v, s),
    {
        (g - (g % (crate::arith::size_mod(s) as u32)) + v) as u32
    }

    /// The register file after an extended write of width `s` at register
    /// `i`: the spec-level mirror of [`Self::write_gpr_ext`].
    pub open spec fn ext_written(self, i: u8, s: DataSize, v: u128) -> Self
        recommends
            i < 16,
    {
        match s {
            DataSize::Longword => self.gpr_written(i, v as u32),
            DataSize::Byte => self.gpr_written(
                i,
                Self::merged_low(self.read_gpr_spec(i), v, DataSize::Byte),
            ),
            DataSize::Word => self.gpr_written(
                i,
                Self::merged_low(self.read_gpr_spec(i), v, DataSize::Word),
            ),
            DataSize::Quadword => if i > 12 {
                self
            } else {
                self.gpr_written(i, Self::ext_word(v, 0)).gpr_written(
                    (i + 1) as u8,
                    Self::ext_word(v, 1),
                )
            },
            DataSize::Octaword => if i > 10 {
                self
            } else {
                self.gpr_written(i, Self::ext_word(v, 0)).gpr_written(
                    (i + 1) as u8,
                    Self::ext_word(v, 1),
                ).gpr_written((i + 2) as u8, Self::ext_word(v, 2)).gpr_written(
                    (i + 3) as u8,
                    Self::ext_word(v, 3),
                )
            },
        }
    }

    /// Write a value of width `s` starting at register `i`. Narrow writes
    /// preserve the untouched high bits of the containing register; wide
    /// writes that would cross into the stack pointer or program counter
    /// are architecturally undefined and leave the file unchanged.
    pub fn write_gpr_ext(&mut self, start_gpr: u8, size: DataSize, value: u128)
        requires
            start_gpr < 16,
            in_size(value, size),
        ensures
            *final(self) == old(self).ext_written(start_gpr, size, value),
    {
        match size {
            DataSize::Longword => {
                self.write_gpr(start_gpr, value as u32);
            },
            DataSize::Byte => {
                let old32 = self.read_gpr(start_gpr);
                proof {
                    lemma_fundamental_div_mod(old32 as int, 0x100);
                }
                let nv: u32 = old32 - (old32 % 0x100) + (value as u32);
                self.write_gpr(start_gpr, nv);
            },
            DataSize::Word => {
                let old32 = self.read_gpr(start_gpr);
                proof {
                    lemma_fundamental_div_mod(old32 as int, 0x1_0000);
                }
                let nv: u32 = old32 - (old32 % 0x1_0000) + (value as u32);
                self.write_gpr(start_gpr, nv);
            },
            DataSize::Quadword => {
                if start_gpr <= 12 {
                    self.write_gpr(start_gpr, (value % 0x1_0000_0000) as u32);
                    self.write_gpr(start_gpr + 1, ((value / 0x1_0000_0000) % 0x1_0000_0000) as u32);
                }
            },
            DataSize::Octaword => {
                if start_gpr <= 10 {
                    self.write_gpr(start_gpr, (value % 0x1_0000_0000) as u32);
                    self.write_gpr(start_gpr + 1, ((value / 0x1_0000_0000) % 0x1_0000_0000) as u32);
                    self.write_gpr(
                        start_gpr + 2,
                        ((value / 0x1_0000_0000_0000_0000) % 0x1_0000_0000) as u32,
                    );
                    self.write_gpr(
                        start_gpr + 3,
                        ((value / 0x1_0000_0000_0000_0000_0000_0000) % 0x1_0000_0000) as u32,
                    );
                }
            },
        }
    }

    /// Read a processor (miscellaneous system) register by number.
    pub fn read_msr(&self, mid: u16) -> (r: Result<u32, Error>)
        ensures
            mid == 0 ==> r == Ok::<u32, Error>(self.ksp),
            mid == 1 ==> r == Ok::<u32, Error>(self.esp),
            mid == 2 ==> r == Ok::<u32, Error>(self.ssp),
            mid == 3 ==> r == Ok::<u32, Error>(self.usp),
            mid == 4 ==> r == Ok::<u32, Error>(self.isp),
            mid == 8 ==> r == Ok::<u32, Error>(self.p0br),
            mid == 9 ==> r == Ok::<u32, Error>(self.p0lr),
            mid == 10 ==> r == Ok::<u32, Error>(self.p1br),
            mid == 11 ==> r == Ok::<u32, Error>(self.p1lr),
            mid == 12 ==> r == Ok::<u32, Error>(self.sbr),
            mid == 13 ==> r == Ok::<u32, Error>(self.slr),
            mid == 16 ==> r == Ok::<u32, Error>(self.pcbb),
            mid == 17 ==> r == Ok::<u32, Error>(self.scbb),
            mid == 18 ==> r == Ok::<u32, Error>(self.psl@.ipl as u32),
            mid == 43 ==> r == Ok::<u32, Error>(self.conpsl),
            mid == 56 ==> r == Ok::<u32, Error>(
                if self.mapen {
                    1u32
                } else {
                    0u32
                },
            ),
            !Self::msr_readable(mid) ==> (r matches Err(e) && e.kind_spec()
                == ErrorKind::ReservedOperand),
    {
        match mid {
            0 => Ok(self.ksp),
            1 => Ok(self.esp),
            2 => Ok(self.ssp),
            3 => Ok(self.usp),
            4 => Ok(self.isp),
            8 => Ok(self.p0br),
            9 => Ok(self.p0lr),
            10 => Ok(self.p1br),
            11 => Ok(self.p1lr),
            12 => Ok(self.sbr),
            13 => Ok(self.slr),
            16 => Ok(self.pcbb),
            17 => Ok(self.scbb),
            18 => Ok(self.psl.get_ipl() as u32),
            43 => Ok(self.conpsl),
            56 => Ok(
                if self.mapen {
                    1
                } else {
                    0
                },
            ),
            _ => Err(Error::new_reserved_operand_fault()),
        }
    }

    /// The processor registers a read may name.
    pub open spec fn msr_readable(mid: u16) -> bool {
        mid == 0 || mid == 1 || mid == 2 || mid == 3 || mid == 4 || mid == 8 || mid == 9 || mid
            == 10 || mid == 11 || mid == 12 || mid == 13 || mid == 16 || mid == 17 || mid == 18
            || mid == 43 || mid == 56
    }

    /// The processor registers a write may name.
    pub open spec fn msr_writable(mid: u16) -> bool {
        mid == 0 || mid == 1 || mid == 2 || mid == 3 || mid == 4 || mid == 8 || mid == 9 || mid
            == 10 || mid == 11 || mid == 12 || mid == 13 || mid == 16 || mid == 17 || mid == 35
            || mid == 43
    }

    /// Write a processor (miscellaneous system) register by number. A write
    /// to the console transmit-data register lands in the transmit buffer
    /// for the host to drain.
    pub fn write_msr(&mut self, mid: u16, val: u32) -> (r: Result<(), Error>)
        ensures
            mid == 0 ==> r == Ok::<(), Error>(()) && *final(self) == (VAXRegisterFile {
                ksp: val,
                ..*old(self)
            }),
            mid == 1 ==> r == Ok::<(), Error>(()) && *final(self) == (VAXRegisterFile {
                esp: val,
                ..*old(self)
            }),
            mid == 2 ==> r == Ok::<(), Error>(()) && *final(self) == (VAXRegisterFile {
                ssp: val,
                ..*old(self)
            }),
            mid == 3 ==> r == Ok::<(), Error>(()) && *final(self) == (VAXRegisterFile {
                usp: val,
                ..*old(self)
            }),
            mid == 4 ==> r == Ok::<(), Error>(()) && *final(self) == (VAXRegisterFile {
                isp: val,
                ..*old(self)
            }),
            mid == 8 ==> r == Ok::<(), Error>(()) && *final(self) == (VAXRegisterFile {
                p0br: val,
                ..*old(self)
            }),
            mid == 9 ==> r == Ok::<(), Error>(()) && *final(self) == (VAXRegisterFile {
                p0lr: val,
                ..*old(self)
            }),
            mid == 10 ==> r == Ok::<(), Error>(()) && *final(self) == (VAXRegisterFile {
                p1br: val,
                ..*old(self)
            }),
            mid == 11 ==> r == Ok::<(), Error>(()) && *final(self) == (VAXRegisterFile {
                p1lr: val,
                ..*old(self)
            }),
            mid == 12 ==> r == Ok::<(), Error>(()) && *final(self) == (VAXRegisterFile {
                sbr: val,
                ..*old(self)
            }),
            mid == 13 ==> r == Ok::<(), Error>(()) && *final(self) == (VAXRegisterFile {
                slr: val,
                ..*old(self)
            }),
            mid == 16 ==> r == Ok::<(), Error>(()) && *final(self) == (VAXRegisterFile {
                pcbb: val,
                ..*old(self)
            }),
            mid == 17 ==> r == Ok::<(), Error>(()) && *final(self) == (VAXRegisterFile {
                scbb: val,
                ..*old(self)
            }),
            mid == 35 ==> r == Ok::<(), Error>(()) && *final(self) == (VAXRegisterFile {
                txdb: Some((val % 0x100) as u8),
                ..*old(self)
            }),
            mid == 43 ==> r == Ok::<(), Error>(()) && *final(self) == (VAXRegisterFile {
                conpsl: val,
                ..*old(self)
            }),
            !Self::msr_writable(mid) ==> *final(self) == *old(self) && (r matches Err(e)
                && e.kind_spec() == ErrorKind::ReservedOperand),
    {
        match mid {
            0 => self.ksp = val,
            1 => self.esp = val,
            2 => self.ssp = val,
            3 => self.usp = val,
            4 => self.isp = val,
            8 => self.p0br = val,
            9 => self.p0lr = val,
            10 => self.p1br = val,
            11 => self.p1lr = val,
            12 => self.sbr = val,
            13 => self.slr = val,
            16 => self.pcbb = val,
            17 => self.scbb = val,
            35 => self.txdb = Some((val % 0x100) as u8),
            43 => self.conpsl = val,
            _ => {
                return Err(Error::new_reserved_operand_fault());
            },
        }
        Ok(())
    }
}

} // verus!
