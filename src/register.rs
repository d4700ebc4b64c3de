use vstd::prelude::*;

use crate::error::{ErrorKind, ReadError, WriteError};
use crate::memory::{loaded_once, loaded_then_stored, Memory};
use crate::pinstate::{bit_mask, lemma_flip_bit, state_of, Pinstate};
use crate::port::{Addressable, Port, WORD_BITS};

verus! {

/// What a register allows: `read` asks for a register that can be read,
/// `write` for one that can be written.
#[derive(Debug, Clone, Copy, PartialEq, Eq, Structural)]
pub enum Access {
    R,
    W,
    RW,
}

impl Access {
    pub open spec fn readable(self) -> bool {
        self != Access::W
    }

    pub open spec fn writable(self) -> bool {
        self != Access::R
    }
}

/// The single-word registers that every bank has, one row each of the
/// layout table.
#[derive(Debug, Clone, Copy, PartialEq, Eq, Structural)]
pub enum RegisterKind {
    Out,
    OutSet,
    OutClr,
    In,
    Dir,
    DirSet,
    DirClr,
    Latch,
    DetectMode,
}

pub const OUT_OFFSET: usize = 0x504;

pub const OUTSET_OFFSET: usize = 0x508;

pub const OUTCLR_OFFSET: usize = 0x50C;

pub const IN_OFFSET: usize = 0x510;

pub const DIR_OFFSET: usize = 0x514;

pub const DIRSET_OFFSET: usize = 0x518;

pub const DIRCLR_OFFSET: usize = 0x51C;

pub const LATCH_OFFSET: usize = 0x520;

pub const DETECTMODE_OFFSET: usize = 0x524;

impl RegisterKind {
    pub open spec fn offset_spec(self) -> usize {
        match self {
            RegisterKind::Out => OUT_OFFSET,
            RegisterKind::OutSet => OUTSET_OFFSET,
            RegisterKind::OutClr => OUTCLR_OFFSET,
            RegisterKind::In => IN_OFFSET,
            RegisterKind::Dir => DIR_OFFSET,
            RegisterKind::DirSet => DIRSET_OFFSET,
            RegisterKind::DirClr => DIRCLR_OFFSET,
            RegisterKind::Latch => LATCH_OFFSET,
            RegisterKind::DetectMode => DETECTMODE_OFFSET,
        }
    }

    pub open spec fn access_spec(self) -> Access {
        match self {
            RegisterKind::In => Access::R,
            _ => Access::RW,
        }
    }

    /// The register's distance from its bank's base address.
    pub fn offset(self) -> (r: usize)
        ensures
            r == self.offset_spec(),
    {
        match self {
            RegisterKind::Out => OUT_OFFSET,
            RegisterKind::OutSet => OUTSET_OFFSET,
            RegisterKind::OutClr => OUTCLR_OFFSET,
            RegisterKind::In => IN_OFFSET,
            RegisterKind::Dir => DIR_OFFSET,
            RegisterKind::DirSet => DIRSET_OFFSET,
            RegisterKind::DirClr => DIRCLR_OFFSET,
            RegisterKind::Latch => LATCH_OFFSET,
            RegisterKind::DetectMode => DETECTMODE_OFFSET,
        }
    }

    /// What the register allows: `IN` is read-only, the rest read-write.
    pub fn access(self) -> (r: Access)
        ensures
            r == self.access_spec(),
    {
        match self {
            RegisterKind::In => Access::R,
            _ => Access::RW,
        }
    }
}

/// One word-sized register of a bank, at `port.base + offset`. The address
/// is worked out once, when the register is defined.
#[derive(Debug, Clone, Copy, PartialEq, Eq, Structural)]
pub struct Register {
    pub port: Port,
    pub offset: usize,
    pub access: Access,
    pub address: usize,
}

impl Register {
    pub open spec fn wf(&self) -> bool {
        &&& self.port.wf()
        &&& self.address == self.port.base + self.offset
    }

    /// The register of the given kind in bank `port`.
    pub open spec fn spec_of_kind(port: Port, kind: RegisterKind) -> Register {
        Register {
            port,
            offset: kind.offset_spec(),
            access: kind.access_spec(),
            address: (port.base + kind.offset_spec()) as usize,
        }
    }

    /// `after` is `before` with pin `index` of this register set to `value`:
    /// one load, then, only if the bit differed, one store of the word with
    /// that bit flipped.
    pub open spec fn bit_written<M: Memory>(
        &self,
        before: M,
        after: M,
        index: usize,
        value: Pinstate,
    ) -> bool {
        let w = before.words()[self.address];
        if state_of(w, index) == value {
            loaded_once(before, after, self.address)
        } else {
            loaded_then_stored(before, after, self.address, w ^ bit_mask(index))
        }
    }

    pub fn new(port: Port, offset: usize, access: Access) -> (r: Register)
        requires
            port.wf(),
            port.base + offset <= usize::MAX,
        ensures
            r.wf(),
            r.port == port,
            r.offset == offset,
            r.access == access,
    {
        Register { port, offset, access, address: port.base + offset }
    }

    /// The register of the given kind in bank `port`.
    pub fn of_kind(port: Port, kind: RegisterKind) -> (r: Register)
        requires
            port.wf(),
        ensures
            r.wf(),
            r == Register::spec_of_kind(port, kind),
    {
        Register::new(port, kind.offset(), kind.access())
    }

    /// Reads the level of pin `index`: one load, then bit `index` of the
    /// word. The index must be one the bank has.
    pub fn read_unchecked<M: Memory>(&self, mem: &mut M, index: usize) -> (r: Pinstate)
        requires
            self.wf(),
            self.access.readable(),
            self.port.valid(index),
        ensures
            r == state_of(old(mem).words()[self.address], index),
            loaded_once(*old(mem), *final(mem), self.address),
    {
        let mask: u32 = 1u32 << (index as u32);
        let word = mem.load(self.address);
        if word & mask == 0 {
            Pinstate::Low
        } else {
            Pinstate::High
        }
    }

    /// Reads the level of pin `index`, or refuses, touching no memory, an
    /// index the bank does not have.
    pub fn read<M: Memory>(&self, mem: &mut M, index: usize) -> (r: Result<Pinstate, ReadError>)
        requires
            self.wf(),
            self.access.readable(),
        ensures
            self.port.valid(index) ==> {
                &&& r == Ok::<Pinstate, ReadError>(
                    state_of(old(mem).words()[self.address], index),
                )
                &&& loaded_once(*old(mem), *final(mem), self.address)
            },
            !self.port.valid(index) ==> {
                &&& r == Err::<Pinstate, ReadError>(ReadError::bad_index())
                &&& *final(mem) == *old(mem)
            },
    {
        if !self.port.is_valid(index) {
            return Err(ReadError(ErrorKind::BadIndex));
        }
        Ok(self.read_unchecked(mem, index))
    }

    /// Sets pin `index` to `value`. The word is loaded; only if its bit
    /// differs is the word stored back, with that one bit flipped. An index
    /// the bank does not have is refused and no memory is touched.
    pub fn write<M: Memory>(&self, mem: &mut M, index: usize, value: Pinstate) -> (r: Result<
        (),
        WriteError,
    >)
        requires
            self.wf(),
            self.access.writable(),
        ensures
            self.port.valid(index) ==> {
                let w = old(mem).words()[self.address];
                &&& r == Ok::<(), WriteError>(())
                &&& self.bit_written(*old(mem), *final(mem), index, value)
                &&& state_of(final(mem).words()[self.address], index) == value
                &&& forall|j: usize|
                    j < WORD_BITS && j != index ==> #[trigger] state_of(
                        final(mem).words()[self.address],
                        j,
                    ) == state_of(w, j)
            },
            !self.port.valid(index) ==> {
                &&& r == Err::<(), WriteError>(WriteError::bad_index())
                &&& *final(mem) == *old(mem)
            },
    {
        if !self.port.is_valid(index) {
            return Err(WriteError(ErrorKind::BadIndex));
        }
        let mask: u32 = 1u32 << (index as u32);
        let word = mem.load(self.address);
        let is_high = word & mask != 0;
        if is_high != value.is_high() {
            mem.store(self.address, word ^ mask);
        }
        proof {
            assert forall|j: usize| j < WORD_BITS implies #[trigger] state_of(
                mem.words()[self.address],
                j,
            ) == if j == index {
                value
            } else {
                state_of(word, j)
            } by {
                lemma_flip_bit(word, index as u32, j as u32);
            }
        }
        Ok(())
    }
}

impl Addressable for Register {
    open spec fn addr_spec(&self) -> int {
        self.address as int
    }

    fn addr(&self) -> (r: usize) {
        self.address
    }
}

} // verus!
