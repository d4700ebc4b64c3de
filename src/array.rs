use vstd::prelude::*;

use crate::error::{ErrorKind, ReadError, WriteError};
use crate::memory::{loaded_once, stored_once, Memory};
use crate::port::{Port, GPIO_SPAN};

verus! {

/// Offset of the per-pin configuration table from a bank's base.
pub const PINCNF_OFFSET: usize = 0x700;

/// Entries in the per-pin configuration table.
pub const PINCNF_COUNT: usize = 32;

/// Bytes between consecutive entries of a register array.
pub const STRIDE: usize = 4;

/// A table of `count` words, one per pin, the first at `port.base + offset`
/// and each `STRIDE` bytes after the one before.
#[derive(Debug, Clone, Copy, PartialEq, Eq, Structural)]
pub struct RegisterArray {
    pub port: Port,
    pub offset: usize,
    pub count: usize,
}

impl RegisterArray {
    /// Every pin of the bank has an entry, and every entry has an address.
    pub open spec fn wf(&self) -> bool {
        &&& self.port.wf()
        &&& (self.port.valid_range as usize) < self.count
        &&& self.port.base + self.offset + (self.count - 1) * STRIDE <= usize::MAX
    }

    /// The address of entry `index`.
    pub open spec fn address_spec(&self, index: int) -> int {
        self.port.base + self.offset + index * STRIDE
    }

    /// The memory after `value` is stored into entry `index`.
    pub open spec fn stored(&self, words: Map<usize, u32>, index: usize, value: u32) -> Map<
        usize,
        u32,
    > {
        words.insert(self.address_spec(index as int) as usize, value)
    }

    /// The word that entry `index` holds.
    pub open spec fn loaded(&self, words: Map<usize, u32>, index: usize) -> u32 {
        words[self.address_spec(index as int) as usize]
    }

    pub fn new(port: Port, offset: usize, count: usize) -> (r: RegisterArray)
        requires
            port.wf(),
            (port.valid_range as usize) < count,
            port.base + offset + (count - 1) * STRIDE <= usize::MAX,
        ensures
            r.wf(),
            r.port == port,
            r.offset == offset,
            r.count == count,
    {
        RegisterArray { port, offset, count }
    }

    /// The per-pin configuration table of bank `port`.
    pub fn pincnf(port: Port) -> (r: RegisterArray)
        requires
            port.wf(),
        ensures
            r.wf(),
            r.port == port,
            r.offset == PINCNF_OFFSET,
            r.count == PINCNF_COUNT,
    {
        assert(PINCNF_OFFSET + (PINCNF_COUNT - 1) * STRIDE <= GPIO_SPAN);
        RegisterArray::new(port, PINCNF_OFFSET, PINCNF_COUNT)
    }

    /// The address of entry `index`: `base + offset + index * STRIDE`.
    pub fn address(&self, index: usize) -> (r: usize)
        requires
            self.wf(),
            index < self.count,
        ensures
            r as int == self.address_spec(index as int),
    {
        proof {
            assert(index * STRIDE <= (self.count - 1) * STRIDE) by (nonlinear_arith)
                requires
                    index < self.count,
            ;
        }
        self.port.base + self.offset + index * STRIDE
    }

    /// The address of every entry, in order.
    pub fn addresses(&self) -> (r: Vec<usize>)
        requires
            self.wf(),
        ensures
            r@.len() == self.count,
            forall|i: int| 0 <= i < self.count ==> r@[i] as int == self.address_spec(i),
    {
        let mut r: Vec<usize> = Vec::new();
        let mut i: usize = 0;
        while i < self.count
            invariant
                self.wf(),
                i <= self.count,
                r@.len() == i,
                forall|k: int| 0 <= k < i ==> r@[k] as int == self.address_spec(k),
            decreases self.count - i,
        {
            let a = self.address(i);
            r.push(a);
            i = i + 1;
        }
        r
    }

    /// Loads entry `index`, a pin the bank has.
    pub fn read_array_unchecked<M: Memory>(&self, mem: &mut M, index: usize) -> (r: u32)
        requires
            self.wf(),
            self.port.valid(index),
        ensures
            r == self.loaded(old(mem).words(), index),
            loaded_once(*old(mem), *final(mem), self.address_spec(index as int) as usize),
    {
        let a = self.address(index);
        mem.load(a)
    }

    /// Loads entry `index` and returns the word as it is, or refuses, touching
    /// no memory, an index the bank does not have.
    pub fn read_array<M: Memory>(&self, mem: &mut M, index: usize) -> (r: Result<u32, ReadError>)
        requires
            self.wf(),
        ensures
            self.port.valid(index) ==> {
                &&& r == Ok::<u32, ReadError>(self.loaded(old(mem).words(), index))
                &&& loaded_once(*old(mem), *final(mem), self.address_spec(index as int) as usize)
            },
            !self.port.valid(index) ==> {
                &&& r == Err::<u32, ReadError>(ReadError::bad_index())
                &&& *final(mem) == *old(mem)
            },
    {
        if !self.port.is_valid(index) {
            return Err(ReadError(ErrorKind::BadIndex));
        }
        Ok(self.read_array_unchecked(mem, index))
    }

    /// Stores `value` into entry `index`, always and whole, or refuses,
    /// touching no memory, an index the bank does not have.
    pub fn write_array<M: Memory>(&self, mem: &mut M, index: usize, value: u32) -> (r: Result<
        (),
        WriteError,
    >)
        requires
            self.wf(),
        ensures
            self.port.valid(index) ==> {
                &&& r == Ok::<(), WriteError>(())
                &&& final(mem).words() == self.stored(old(mem).words(), index, value)
                &&& stored_once(
                    *old(mem),
                    *final(mem),
                    self.address_spec(index as int) as usize,
                    value,
                )
            },
            !self.port.valid(index) ==> {
                &&& r == Err::<(), WriteError>(WriteError::bad_index())
                &&& *final(mem) == *old(mem)
            },
    {
        if !self.port.is_valid(index) {
            return Err(WriteError(ErrorKind::BadIndex));
        }
        let a = self.address(index);
        mem.store(a, value);
        Ok(())
    }
}

/// A word stored into an entry is the word then loaded from it: no bit is
/// lost, whatever the word.
pub proof fn lemma_write_array_then_read_array(
    arr: RegisterArray,
    words: Map<usize, u32>,
    index: usize,
    value: u32,
)
    requires
        arr.wf(),
        arr.port.valid(index),
    ensures
        arr.loaded(arr.stored(words, index, value), index) == value,
{
}

} // verus!
