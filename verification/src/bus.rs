//! The bus interface: an abstract synchronous read/write-by-address
//! contract that the execution core depends on, and a RAM-backed
//! implementation of it for hosts and tests.

use crate::arith::in_size;
use crate::codec::{le_val, lemma_le_val_fits};
use crate::cycles::Cycles;
use crate::{DataSize, PrivilegeMode};
use vstd::prelude::*;

verus! {

/// The maximum size in bytes of a single bus operation.
pub const MAX_OPERATION_SIZE: usize = 16;

/// The highest addressable byte of the 32-bit physical address space.
pub const MAX_ADDRESS: u32 = 0xFFFF_FFFF;

/// Why a bus denied an access. Every variant names the triggering address.
#[derive(Copy, Clone, Debug, PartialEq, Eq, Structural)]
pub enum BusError {
    /// The access ran past the end of the addressed region.
    OutOfBounds(u32),
    /// The addressed device refused the access.
    Denied(u32),
    /// Nothing is mapped at the address.
    OpenBus(u32),
    /// The bus could not translate the address.
    Translation(u32),
}

impl BusError {
    /// The address that triggered the fault.
    pub open spec fn addr_spec(self) -> u32 {
        match self {
            BusError::OutOfBounds(a) => a,
            BusError::Denied(a) => a,
            BusError::OpenBus(a) => a,
            BusError::Translation(a) => a,
        }
    }

    pub fn addr(self) -> (r: u32)
        ensures
            r == self.addr_spec(),
    {
        match self {
            BusError::OutOfBounds(a) => a,
            BusError::Denied(a) => a,
            BusError::OpenBus(a) => a,
            BusError::Translation(a) => a,
        }
    }
}

/// An emulated synchronous bus. The core only depends on this contract:
/// a concrete backing store (RAM array, boot-ROM overlay, memory-mapped
/// device window) is an external collaborator and free to deny an access
/// or to change its own state on one. The tag carries the requesting
/// privilege mode, so a protection-aware bus can apply its protection
/// codes; every bus promises only that a value it hands back fits the
/// requested width and that a fault names the triggering address.
pub trait VAXBus: Sized {
    /// Read a value of width `size` at `addr`, reporting the cycle cost.
    fn read_val(&mut self, addr: u32, size: DataSize, tag: PrivilegeMode) -> (r: (
        Cycles,
        Result<u128, BusError>,
    ))
        ensures
            (r.1 matches Ok(v) ==> in_size(v, size)),
            (r.1 matches Err(e) ==> e.addr_spec() == addr),
    ;

    /// Write a value of width `size` at `addr`, reporting the cycle cost.
    fn write_val(&mut self, addr: u32, size: DataSize, data: u128, tag: PrivilegeMode) -> (r: (
        Cycles,
        Result<(), BusError>,
    ))
        requires
            in_size(data, size),
        ensures
            (r.1 matches Err(e) ==> e.addr_spec() == addr),
    ;
}

/// A flat RAM array behind the bus contract: reads beyond the end return
/// zero (open bus) and writes beyond the end are absorbed without effect.
pub struct RAMBus {
    ram: Vec<u8>,
}

/// The cycle cost of one access of `n` bytes: one cycle per longword,
/// with a one-cycle floor.
pub open spec fn access_cost(n: nat) -> nat {
    if n < 4 {
        1
    } else {
        n / 4
    }
}

impl RAMBus {
    /// The bytes of the backing store.
    pub closed spec fn mem(self) -> Seq<u8> {
        self.ram@
    }

    /// A RAM region of `size` bytes, all zero.
    pub fn new(size: usize) -> (r: RAMBus)
        ensures
            r.mem().len() == size,
            forall|i: int| 0 <= i < size ==> r.mem()[i] == 0u8,
    {
        let mut ram: Vec<u8> = Vec::new();
        let mut i: usize = 0;
        while i < size
            invariant
                i <= size,
                ram@.len() == i,
                forall|j: int| 0 <= j < i ==> ram@[j] == 0u8,
            decreases size - i,
        {
            ram.push(0);
            i = i + 1;
        }
        RAMBus { ram }
    }

    /// Borrow the backing store.
    pub fn ram(&self) -> (r: &Vec<u8>)
        ensures
            r@ == self.mem(),
    {
        &self.ram
    }

    /// The length of the backing store.
    pub fn ram_len(&self) -> (r: usize)
        ensures
            r == self.mem().len(),
    {
        self.ram.len()
    }

    /// Overwrite one byte of the backing store; for loading a program
    /// image before execution starts.
    pub fn set_ram_byte(&mut self, addr: usize, val: u8)
        requires
            addr < old(self).mem().len(),
        ensures
            final(self).mem() == old(self).mem().update(addr as int, val),
    {
        self.ram.set(addr, val);
    }
}

impl VAXBus for RAMBus {
    /// In-bounds reads return the little-endian value of the addressed
    /// bytes; a read that runs past the end of the region is out of
    /// bounds and names the triggering address. The flat RAM applies no
    /// protection, so the tag is not consulted.
    fn read_val(&mut self, addr: u32, size: DataSize, _tag: PrivilegeMode) -> (r: (
        Cycles,
        Result<u128, BusError>,
    ))
        ensures
            *final(self) == *old(self),
            addr + size.byte_len_spec() <= old(self).mem().len() ==> r.1 == Ok::<u128, BusError>(
                le_val(
                    old(self).mem().subrange(addr as int, addr + size.byte_len_spec()),
                ) as u128,
            ),
            addr + size.byte_len_spec() > old(self).mem().len() ==> r.1 == Err::<u128, BusError>(
                BusError::OutOfBounds(addr),
            ),
            r.0.0 == access_cost(size.byte_len_spec()),
    {
        let n = size.byte_len();
        let cyc = Cycles(
            if n < 4 {
                1
            } else {
                n / 4
            },
        );
        let a = addr as usize;
        if a > self.ram.len() || n > self.ram.len() - a {
            return (cyc, Err(BusError::OutOfBounds(addr)));
        }
        let rlen = self.ram.len();
        let ghost range = self.ram@.subrange(a as int, a + n);
        proof {
            lemma_le_val_fits(range, size);
        }
        let mut v: u128 = 0;
        let mut i: usize = n;
        proof {
            assert(range.skip(n as int) =~= Seq::<u8>::empty());
        }
        while i > 0
            invariant
                i <= n,
                self.ram@.len() == rlen,
                a + n <= rlen,
                self.ram@ == old(self).ram@,
                range == self.ram@.subrange(a as int, a + n),
                v as int == le_val(range.skip(i as int)),
                le_val(range.skip(i as int)) <= le_val(range),
                le_val(range) < crate::arith::size_mod(size),
            decreases i,
        {
            proof {
                let rest1 = range.skip(i - 1);
                assert(rest1[0] == range[i - 1]);
                assert(rest1.skip(1) =~= range.skip(i as int));
                lemma_le_val_skip_le(range, i - 1);
                crate::codec::lemma_le_val_bound(range.skip(i - 1));
                assert(range[i - 1] == self.ram@[a + i - 1]);
                assert(crate::arith::size_mod(size)
                    <= 0x1_0000_0000_0000_0000_0000_0000_0000_0000int) by {
                    match size {
                        DataSize::Byte => {},
                        DataSize::Word => {},
                        DataSize::Longword => {},
                        DataSize::Quadword => {},
                        DataSize::Octaword => {},
                    }
                }
                assert(v * 0x100 + range[i - 1] == le_val(range.skip(i - 1)));
            }
            i = i - 1;
            v = v * 0x100 + (self.ram[a + i] as u128);
        }
        proof {
            assert(range.skip(0) =~= range);
        }
        (cyc, Ok(v))
    }

    /// In-bounds writes replace the addressed bytes with the value's
    /// little-endian image and change nothing else; a write that runs past
    /// the end of the region is out of bounds, names the triggering
    /// address, and leaves the region untouched.
    fn write_val(&mut self, addr: u32, size: DataSize, data: u128, _tag: PrivilegeMode) -> (r: (
        Cycles,
        Result<(), BusError>,
    ))
        ensures
            final(self).mem().len() == old(self).mem().len(),
            r.0.0 == access_cost(size.byte_len_spec()),
            addr + size.byte_len_spec() <= old(self).mem().len() ==> {
                &&& r.1 == Ok::<(), BusError>(())
                &&& le_val(final(self).mem().subrange(addr as int, addr + size.byte_len_spec()))
                    == data
                &&& forall|i: int|
                    0 <= i < old(self).mem().len() && !(addr <= i < addr + size.byte_len_spec())
                        ==> final(self).mem()[i] == old(self).mem()[i]
            },
            addr + size.byte_len_spec() > old(self).mem().len() ==> *final(self) == *old(self)
                && r.1 == Err::<(), BusError>(BusError::OutOfBounds(addr)),
    {
        let n = size.byte_len();
        let cyc = Cycles(
            if n < 4 {
                1
            } else {
                n / 4
            },
        );
        let a = addr as usize;
        if a > self.ram.len() || n > self.ram.len() - a {
            return (cyc, Err(BusError::OutOfBounds(addr)));
        }
        let bytes = crate::codec::le_bytes_of_val(size, data);
        let rlen = self.ram.len();
        let mut i: usize = 0;
        while i < n
            invariant
                i <= n == bytes@.len(),
                a + n <= rlen,
                self.ram@.len() == rlen,
                self.ram@.len() == old(self).ram@.len(),
                forall|j: int| 0 <= j < i ==> self.ram@[a + j] == bytes@[j],
                forall|j: int|
                    0 <= j < old(self).ram@.len() && !(a <= j < a + i) ==> self.ram@[j] == old(
                        self,
                    ).ram@[j],
            decreases n - i,
        {
            let b = bytes[i];
            self.ram.set(a + i, b);
            i = i + 1;
        }
        proof {
            assert(self.ram@.subrange(a as int, a + n) =~= bytes@);
        }
        (cyc, Ok(()))
    }
}

/// Dropping leading bytes never increases the denoted value.
proof fn lemma_le_val_skip_le(bs: Seq<u8>, i: int)
    requires
        0 <= i < bs.len(),
    ensures
        le_val(bs.skip(i)) <= le_val(bs),
    decreases i,
{
    crate::codec::lemma_le_val_bound(bs.skip(i));
    crate::codec::lemma_le_val_bound(bs.skip(i + 1));
    assert(bs.skip(i).skip(1) =~= bs.skip(i + 1));
    assert(bs.skip(i)[0] == bs[i]);
    if i == 0 {
        assert(bs.skip(0) =~= bs);
    } else {
        lemma_le_val_skip_le(bs, i - 1);
        assert(bs.skip(i - 1).skip(1) =~= bs.skip(i));
        crate::codec::lemma_le_val_bound(bs.skip(i - 1));
    }
}

} // verus!
