use vstd::prelude::*;

verus! {

/// The processor status longword, unpacked field by field.
///
/// This is the mathematical view of [`PSL`]: every contract about the
/// status word is stated over these fields rather than over raw bits.
pub struct PslFields {
    pub carry: bool,
    pub overflow: bool,
    pub zero: bool,
    pub negative: bool,
    pub trace: bool,
    pub int_overflow_enable: bool,
    pub float_underflow_enable: bool,
    pub dec_overflow_enable: bool,
    pub ipl: u8,
    pub prv_mod: u8,
    pub cur_mod: u8,
    pub interrupt_stack: bool,
    pub first_part_done: bool,
    pub virtual_machine: bool,
    pub trace_pending: bool,
    pub compat_mode: bool,
}

/// Processor Status Longword.
///
/// ```text
///  3 3 2 2 2 2 2 2 2 2 2 2 1 1 1 1 1
///  1 0 9 8 7 6 5 4 3 2 1 0 9 8 7 6 5             7 6 5 4 3 2 1 0
/// +-+-+-+-+-+-+---+---+-+---------+-------------+-+-+-+-+-+-+-+-|
/// |C|T|V|M|F|I|CUR|PRV|M|         |             |D|F|I| | | | | |
/// |M|P|M|B|P|S|MOD|MOD|B|   IPL   |     MBZ     |V|U|V|T|N|Z|V|C|
/// | | | |Z|D| |   |   |Z|         |             | | | | | | | | |
/// +-+-+-+-+-+-+---+---+-+---------+-------------+-+-+-+-+-+-+-+-+
/// ```
/// - CM: Compatibility Mode
/// - TP: Trace Pending
/// - VM: Virtual Machine Mode
/// - FPD: First Part Done
/// - IS: Interrupt Stack
/// - CUR_MOD: Current Access Mode
/// - PRV_MOD: Previous Access Mode
/// - IPL: Interrupt Priority Level
/// - DV: Decimal Overflow Enable
/// - FU: Floating Underflow Enable
/// - IV: Integer Overflow Enable
/// - T: Trace Enable
/// - N: Negative
/// - Z: Zero
/// - V: Overflow
/// - C: Carry
#[derive(Copy, Clone, Debug, PartialEq, Eq, Structural)]
pub struct PSL(pub u32);

pub open spec fn spec_psl_fields(p: u32) -> PslFields {
    PslFields {
        carry: p & 0x01 != 0,
        overflow: p & 0x02 != 0,
        zero: p & 0x04 != 0,
        negative: p & 0x08 != 0,
        trace: p & 0x10 != 0,
        int_overflow_enable: p & 0x20 != 0,
        float_underflow_enable: p & 0x40 != 0,
        dec_overflow_enable: p & 0x80 != 0,
        ipl: ((p >> 16) & 0x1F) as u8,
        prv_mod: ((p >> 22) & 0x3) as u8,
        cur_mod: ((p >> 24) & 0x3) as u8,
        interrupt_stack: p & 0x0400_0000 != 0,
        first_part_done: p & 0x0800_0000 != 0,
        virtual_machine: p & 0x2000_0000 != 0,
        trace_pending: p & 0x4000_0000 != 0,
        compat_mode: p & 0x8000_0000 != 0,
    }
}

impl PSL {
    /// The unpacked fields of this status longword.
    pub open spec fn view(self) -> PslFields {
        spec_psl_fields(self.0)
    }

    pub fn get_c(self) -> (r: bool)
        ensures
            r == self@.carry,
    {
        (self.0 & 0x01) != 0
    }

    pub fn set_c(&mut self, val: bool)
        ensures
            final(self)@ == (PslFields { carry: val, ..old(self)@ }),
    {
        let b: u32 = if val { 1 } else { 0 };
        self.0 = (self.0 & !0x01) | b;
        proof {
            lemma_psl_flag_update(old(self).0, self.0, 0x01, val);
        }
    }

    pub fn get_v(self) -> (r: bool)
        ensures
            r == self@.overflow,
    {
        (self.0 & 0x02) != 0
    }

    pub fn set_v(&mut self, val: bool)
        ensures
            final(self)@ == (PslFields { overflow: val, ..old(self)@ }),
    {
        let b: u32 = if val { 0x02 } else { 0 };
        self.0 = (self.0 & !0x02) | b;
        proof {
            lemma_psl_flag_update(old(self).0, self.0, 0x02, val);
        }
    }

    pub fn get_z(self) -> (r: bool)
        ensures
            r == self@.zero,
    {
        (self.0 & 0x04) != 0
    }

    pub fn set_z(&mut self, val: bool)
        ensures
            final(self)@ == (PslFields { zero: val, ..old(self)@ }),
    {
        let b: u32 = if val { 0x04 } else { 0 };
        self.0 = (self.0 & !0x04) | b;
        proof {
            lemma_psl_flag_update(old(self).0, self.0, 0x04, val);
        }
    }

    pub fn get_n(self) -> (r: bool)
        ensures
            r == self@.negative,
    {
        (self.0 & 0x08) != 0
    }

    pub fn set_n(&mut self, val: bool)
        ensures
            final(self)@ == (PslFields { negative: val, ..old(self)@ }),
    {
        let b: u32 = if val { 0x08 } else { 0 };
        self.0 = (self.0 & !0x08) | b;
        proof {
            lemma_psl_flag_update(old(self).0, self.0, 0x08, val);
        }
    }

    pub fn get_t(self) -> (r: bool)
        ensures
            r == self@.trace,
    {
        (self.0 & 0x10) != 0
    }

    pub fn set_t(&mut self, val: bool)
        ensures
            final(self)@ == (PslFields { trace: val, ..old(self)@ }),
    {
        let b: u32 = if val { 0x10 } else { 0 };
        self.0 = (self.0 & !0x10) | b;
        proof {
            lemma_psl_flag_update(old(self).0, self.0, 0x10, val);
        }
    }

    pub fn get_iv(self) -> (r: bool)
        ensures
            r == self@.int_overflow_enable,
    {
        (self.0 & 0x20) != 0
    }

    pub fn set_iv(&mut self, val: bool)
        ensures
            final(self)@ == (PslFields { int_overflow_enable: val, ..old(self)@ }),
    {
        let b: u32 = if val { 0x20 } else { 0 };
        self.0 = (self.0 & !0x20) | b;
        proof {
            lemma_psl_flag_update(old(self).0, self.0, 0x20, val);
        }
    }

    pub fn get_fu(self) -> (r: bool)
        ensures
            r == self@.float_underflow_enable,
    {
        (self.0 & 0x40) != 0
    }

    pub fn set_fu(&mut self, val: bool)
        ensures
            final(self)@ == (PslFields { float_underflow_enable: val, ..old(self)@ }),
    {
        let b: u32 = if val { 0x40 } else { 0 };
        self.0 = (self.0 & !0x40) | b;
        proof {
            lemma_psl_flag_update(old(self).0, self.0, 0x40, val);
        }
    }

    pub fn get_dv(self) -> (r: bool)
        ensures
            r == self@.dec_overflow_enable,
    {
        (self.0 & 0x80) != 0
    }

    pub fn set_dv(&mut self, val: bool)
        ensures
            final(self)@ == (PslFields { dec_overflow_enable: val, ..old(self)@ }),
    {
        let b: u32 = if val { 0x80 } else { 0 };
        self.0 = (self.0 & !0x80) | b;
        proof {
            lemma_psl_flag_update(old(self).0, self.0, 0x80, val);
        }
    }

    pub fn get_ipl(&self) -> (r: u8)
        ensures
            r == self@.ipl,
            r < 32,
    {
        proof {
            let p = self.0;
            assert(((p >> 16) & 0x1F) < 32) by (bit_vector);
        }
        ((self.0 >> 16) & 0x1F) as u8
    }

    pub fn set_ipl(&mut self, val: u8)
        requires
            val < 32,
        ensures
            final(self)@ == (PslFields { ipl: val, ..old(self)@ }),
    {
        self.0 = (self.0 & !0x001F_0000) | ((val as u32) << 16);
        proof {
            let o = old(self).0;
            let nw = self.0;
            let v = val;
            assert((nw & 0x01 != 0) == (o & 0x01 != 0) && (nw & 0x02 != 0) == (o & 0x02 != 0)
                && (nw & 0x04 != 0) == (o & 0x04 != 0) && (nw & 0x08 != 0) == (o & 0x08 != 0)
                && (nw & 0x10 != 0) == (o & 0x10 != 0) && (nw & 0x20 != 0) == (o & 0x20 != 0)
                && (nw & 0x40 != 0) == (o & 0x40 != 0) && (nw & 0x80 != 0) == (o & 0x80 != 0)
                && ((nw >> 16) & 0x1F) == v && ((nw >> 22) & 0x3) == ((o >> 22) & 0x3)
                && ((nw >> 24) & 0x3) == ((o >> 24) & 0x3)
                && (nw & 0x0400_0000 != 0) == (o & 0x0400_0000 != 0)
                && (nw & 0x0800_0000 != 0) == (o & 0x0800_0000 != 0)
                && (nw & 0x2000_0000 != 0) == (o & 0x2000_0000 != 0)
                && (nw & 0x4000_0000 != 0) == (o & 0x4000_0000 != 0)
                && (nw & 0x8000_0000 != 0) == (o & 0x8000_0000 != 0)) by (bit_vector)
                requires
                    nw == (o & !0x001F_0000) | ((v as u32) << 16),
                    v < 32,
            ;
        }
    }

    pub fn get_prv_mod(&self) -> (r: u8)
        ensures
            r == self@.prv_mod,
            r < 4,
    {
        proof {
            let p = self.0;
            assert(((p >> 22) & 0x3) < 4) by (bit_vector);
        }
        ((self.0 >> 22) & 0x3) as u8
    }

    pub fn set_prv_mod(&mut self, val: u8)
        requires
            val < 4,
        ensures
            final(self)@ == (PslFields { prv_mod: val, ..old(self)@ }),
    {
        self.0 = (self.0 & !0x00C0_0000) | ((val as u32) << 22);
        proof {
            let o = old(self).0;
            let nw = self.0;
            let v = val;
            assert((nw & 0x01 != 0) == (o & 0x01 != 0) && (nw & 0x02 != 0) == (o & 0x02 != 0)
                && (nw & 0x04 != 0) == (o & 0x04 != 0) && (nw & 0x08 != 0) == (o & 0x08 != 0)
                && (nw & 0x10 != 0) == (o & 0x10 != 0) && (nw & 0x20 != 0) == (o & 0x20 != 0)
                && (nw & 0x40 != 0) == (o & 0x40 != 0) && (nw & 0x80 != 0) == (o & 0x80 != 0)
                && ((nw >> 16) & 0x1F) == ((o >> 16) & 0x1F) && ((nw >> 22) & 0x3) == v
                && ((nw >> 24) & 0x3) == ((o >> 24) & 0x3)
                && (nw & 0x0400_0000 != 0) == (o & 0x0400_0000 != 0)
                && (nw & 0x0800_0000 != 0) == (o & 0x0800_0000 != 0)
                && (nw & 0x2000_0000 != 0) == (o & 0x2000_0000 != 0)
                && (nw & 0x4000_0000 != 0) == (o & 0x4000_0000 != 0)
                && (nw & 0x8000_0000 != 0) == (o & 0x8000_0000 != 0)) by (bit_vector)
                requires
                    nw == (o & !0x00C0_0000) | ((v as u32) << 22),
                    v < 4,
            ;
        }
    }

    pub fn get_cur_mod(&self) -> (r: u8)
        ensures
            r == self@.cur_mod,
            r < 4,
    {
        proof {
            let p = self.0;
            assert(((p >> 24) & 0x3) < 4) by (bit_vector);
        }
        ((self.0 >> 24) & 0x3) as u8
    }

    pub fn set_cur_mod(&mut self, val: u8)
        requires
            val < 4,
        ensures
            final(self)@ == (PslFields { cur_mod: val, ..old(self)@ }),
    {
        self.0 = (self.0 & !0x0300_0000) | ((val as u32) << 24);
        proof {
            let o = old(self).0;
            let nw = self.0;
            let v = val;
            assert((nw & 0x01 != 0) == (o & 0x01 != 0) && (nw & 0x02 != 0) == (o & 0x02 != 0)
                && (nw & 0x04 != 0) == (o & 0x04 != 0) && (nw & 0x08 != 0) == (o & 0x08 != 0)
                && (nw & 0x10 != 0) == (o & 0x10 != 0) && (nw & 0x20 != 0) == (o & 0x20 != 0)
                && (nw & 0x40 != 0) == (o & 0x40 != 0) && (nw & 0x80 != 0) == (o & 0x80 != 0)
                && ((nw >> 16) & 0x1F) == ((o >> 16) & 0x1F)
                && ((nw >> 22) & 0x3) == ((o >> 22) & 0x3) && ((nw >> 24) & 0x3) == v
                && (nw & 0x0400_0000 != 0) == (o & 0x0400_0000 != 0)
                && (nw & 0x0800_0000 != 0) == (o & 0x0800_0000 != 0)
                && (nw & 0x2000_0000 != 0) == (o & 0x2000_0000 != 0)
                && (nw & 0x4000_0000 != 0) == (o & 0x4000_0000 != 0)
                && (nw & 0x8000_0000 != 0) == (o & 0x8000_0000 != 0)) by (bit_vector)
                requires
                    nw == (o & !0x0300_0000) | ((v as u32) << 24),
                    v < 4,
            ;
        }
    }

    pub fn get_is(self) -> (r: bool)
        ensures
            r == self@.interrupt_stack,
    {
        (self.0 & 0x0400_0000) != 0
    }

    pub fn set_is(&mut self, val: bool)
        ensures
            final(self)@ == (PslFields { interrupt_stack: val, ..old(self)@ }),
    {
        let b: u32 = if val { 0x0400_0000 } else { 0 };
        self.0 = (self.0 & !0x0400_0000) | b;
        proof {
            lemma_psl_flag_update(old(self).0, self.0, 0x0400_0000, val);
        }
    }

    pub fn get_fpd(self) -> (r: bool)
        ensures
            r == self@.first_part_done,
    {
        (self.0 & 0x0800_0000) != 0
    }

    pub fn set_fpd(&mut self, val: bool)
        ensures
            final(self)@ == (PslFields { first_part_done: val, ..old(self)@ }),
    {
        let b: u32 = if val { 0x0800_0000 } else { 0 };
        self.0 = (self.0 & !0x0800_0000) | b;
        proof {
            lemma_psl_flag_update(old(self).0, self.0, 0x0800_0000, val);
        }
    }

    pub fn get_vm(self) -> (r: bool)
        ensures
            r == self@.virtual_machine,
    {
        (self.0 & 0x2000_0000) != 0
    }

    pub fn set_vm(&mut self, val: bool)
        ensures
            final(self)@ == (PslFields { virtual_machine: val, ..old(self)@ }),
    {
        let b: u32 = if val { 0x2000_0000 } else { 0 };
        self.0 = (self.0 & !0x2000_0000) | b;
        proof {
            lemma_psl_flag_update(old(self).0, self.0, 0x2000_0000, val);
        }
    }

    pub fn get_tp(self) -> (r: bool)
        ensures
            r == self@.trace_pending,
    {
        (self.0 & 0x4000_0000) != 0
    }

    pub fn set_tp(&mut self, val: bool)
        ensures
            final(self)@ == (PslFields { trace_pending: val, ..old(self)@ }),
    {
        let b: u32 = if val { 0x4000_0000 } else { 0 };
        self.0 = (self.0 & !0x4000_0000) | b;
        proof {
            lemma_psl_flag_update(old(self).0, self.0, 0x4000_0000, val);
        }
    }

    pub fn get_cm(self) -> (r: bool)
        ensures
            r == self@.compat_mode,
    {
        (self.0 & 0x8000_0000) != 0
    }

    pub fn set_cm(&mut self, val: bool)
        ensures
            final(self)@ == (PslFields { compat_mode: val, ..old(self)@ }),
    {
        let b: u32 = if val { 0x8000_0000 } else { 0 };
        self.0 = (self.0 & !0x8000_0000) | b;
        proof {
            lemma_psl_flag_update(old(self).0, self.0, 0x8000_0000, val);
        }
    }
}

/// After clearing one single-bit flag of the status longword and ORing in its
/// new value, that flag reads back as the new value and every other field is
/// unchanged.
proof fn lemma_psl_flag_update(o: u32, nw: u32, mask: u32, val: bool)
    requires
        mask == 0x01 || mask == 0x02 || mask == 0x04 || mask == 0x08 || mask == 0x10 || mask
            == 0x20 || mask == 0x40 || mask == 0x80 || mask == 0x0400_0000 || mask == 0x0800_0000
            || mask == 0x2000_0000 || mask == 0x4000_0000 || mask == 0x8000_0000,
        nw == (o & !mask) | (if val {
            mask
        } else {
            0u32
        }),
    ensures
        spec_psl_fields(nw) == (PslFields {
            carry: if mask == 0x01 { val } else { spec_psl_fields(o).carry },
            overflow: if mask == 0x02 { val } else { spec_psl_fields(o).overflow },
            zero: if mask == 0x04 { val } else { spec_psl_fields(o).zero },
            negative: if mask == 0x08 { val } else { spec_psl_fields(o).negative },
            trace: if mask == 0x10 { val } else { spec_psl_fields(o).trace },
            int_overflow_enable: if mask == 0x20 {
                val
            } else {
                spec_psl_fields(o).int_overflow_enable
            },
            float_underflow_enable: if mask == 0x40 {
                val
            } else {
                spec_psl_fields(o).float_underflow_enable
            },
            dec_overflow_enable: if mask == 0x80 {
                val
            } else {
                spec_psl_fields(o).dec_overflow_enable
            },
            ipl: spec_psl_fields(o).ipl,
            prv_mod: spec_psl_fields(o).prv_mod,
            cur_mod: spec_psl_fields(o).cur_mod,
            interrupt_stack: if mask == 0x0400_0000 {
                val
            } else {
                spec_psl_fields(o).interrupt_stack
            },
            first_part_done: if mask == 0x0800_0000 {
                val
            } else {
                spec_psl_fields(o).first_part_done
            },
            virtual_machine: if mask == 0x2000_0000 {
                val
            } else {
                spec_psl_fields(o).virtual_machine
            },
            trace_pending: if mask == 0x4000_0000 {
                val
            } else {
                spec_psl_fields(o).trace_pending
            },
            compat_mode: if mask == 0x8000_0000 {
                val
            } else {
                spec_psl_fields(o).compat_mode
            },
        }),
{
    assert((nw & 0x01 != 0) == (if mask == 0x01 {
        val
    } else {
        o & 0x01 != 0
    }) && (nw & 0x02 != 0) == (if mask == 0x02 {
        val
    } else {
        o & 0x02 != 0
    }) && (nw & 0x04 != 0) == (if mask == 0x04 {
        val
    } else {
        o & 0x04 != 0
    }) && (nw & 0x08 != 0) == (if mask == 0x08 {
        val
    } else {
        o & 0x08 != 0
    }) && (nw & 0x10 != 0) == (if mask == 0x10 {
        val
    } else {
        o & 0x10 != 0
    }) && (nw & 0x20 != 0) == (if mask == 0x20 {
        val
    } else {
        o & 0x20 != 0
    }) && (nw & 0x40 != 0) == (if mask == 0x40 {
        val
    } else {
        o & 0x40 != 0
    }) && (nw & 0x80 != 0) == (if mask == 0x80 {
        val
    } else {
        o & 0x80 != 0
    }) && ((nw >> 16) & 0x1F) == ((o >> 16) & 0x1F) && ((nw >> 22) & 0x3) == ((o >> 22) & 0x3) && (
    (nw >> 24) & 0x3) == ((o >> 24) & 0x3) && (nw & 0x0400_0000 != 0) == (if mask == 0x0400_0000 {
        val
    } else {
        o & 0x0400_0000 != 0
    }) && (nw & 0x0800_0000 != 0) == (if mask == 0x0800_0000 {
        val
    } else {
        o & 0x0800_0000 != 0
    }) && (nw & 0x2000_0000 != 0) == (if mask == 0x2000_0000 {
        val
    } else {
        o & 0x2000_0000 != 0
    }) && (nw & 0x4000_0000 != 0) == (if mask == 0x4000_0000 {
        val
    } else {
        o & 0x4000_0000 != 0
    }) && (nw & 0x8000_0000 != 0) == (if mask == 0x8000_0000 {
        val
    } else {
        o & 0x8000_0000 != 0
    })) by (bit_vector)
        requires
            mask == 0x01 || mask == 0x02 || mask == 0x04 || mask == 0x08 || mask == 0x10 || mask
                == 0x20 || mask == 0x40 || mask == 0x80 || mask == 0x0400_0000 || mask
                == 0x0800_0000 || mask == 0x2000_0000 || mask == 0x4000_0000 || mask
                == 0x8000_0000,
            nw == (o & !mask) | (if val {
                mask
            } else {
                0u32
            }),
    ;
}

} // verus!
