use std::collections::HashMap;
use vstd::prelude::*;

verus! {

/// One access to memory, as recorded in a memory's log.
#[derive(Debug, Clone, Copy, PartialEq, Eq, Structural)]
pub enum MemoryOp {
    Load(usize),
    Store(usize, u32),
}

/// Word-addressed memory with exactly two operations. Every register access
/// of this library goes through one of them, so an implementation sees each
/// load and store that the logic issues, in order.
pub trait Memory {
    /// The word held at each address. The default names no word at all: an
    /// implementation that is verified against the contracts below gives its
    /// own model.
    closed spec fn words(&self) -> Map<usize, u32> {
        Map::empty()
    }

    /// Every access made so far, oldest first. Like `words`, the default is a
    /// placeholder that no verified implementation can keep.
    closed spec fn log(&self) -> Seq<MemoryOp> {
        Seq::empty()
    }

    /// Reads the word at `addr`.
    fn load(&mut self, addr: usize) -> (r: u32)
        ensures
            r == old(self).words()[addr],
            final(self).words() == old(self).words(),
            final(self).log() == old(self).log().push(MemoryOp::Load(addr)),
    ;

    /// Replaces the word at `addr`.
    fn store(&mut self, addr: usize, value: u32)
        ensures
            final(self).words() == old(self).words().insert(addr, value),
            final(self).log() == old(self).log().push(MemoryOp::Store(addr, value)),
    ;
}

/// `after` is `before` with one load from `addr` made: same words, one
/// more entry in the log.
pub open spec fn loaded_once<M: Memory>(before: M, after: M, addr: usize) -> bool {
    &&& after.words() == before.words()
    &&& after.log() == before.log().push(MemoryOp::Load(addr))
}

/// `after` is `before` with `value` stored at `addr` and nothing loaded.
pub open spec fn stored_once<M: Memory>(before: M, after: M, addr: usize, value: u32) -> bool {
    &&& after.words() == before.words().insert(addr, value)
    &&& after.log() == before.log().push(MemoryOp::Store(addr, value))
}

/// `after` is `before` with a load from `addr` made and then `value` stored
/// there: the read-modify-write of one word.
pub open spec fn loaded_then_stored<M: Memory>(
    before: M,
    after: M,
    addr: usize,
    value: u32,
) -> bool {
    &&& after.words() == before.words().insert(addr, value)
    &&& after.log() == before.log().push(MemoryOp::Load(addr)).push(MemoryOp::Store(addr, value))
}

/// Memory held in a table, zero wherever nothing was stored, that records
/// every access. It stands in for the hardware when the logic is exercised.
pub struct MockMemory {
    cells: HashMap<usize, u32>,
    ops: Vec<MemoryOp>,
}

impl MockMemory {
    /// A memory whose every word is zero and whose log is empty.
    pub fn new() -> (r: MockMemory)
        ensures
            r.words() == Map::total(|a: usize| 0u32),
            r.log() == Seq::<MemoryOp>::empty(),
    {
        let r = MockMemory { cells: HashMap::new(), ops: Vec::new() };
        assert(r.words() =~= Map::total(|a: usize| 0u32));
        r
    }

    /// The word at `addr`, read without recording an access.
    pub fn peek(&self, addr: usize) -> (r: u32)
        ensures
            r == self.words()[addr],
    {
        broadcast use vstd::std_specs::hash::group_hash_axioms;

        match self.cells.get(&addr) {
            Some(v) => *v,
            None => 0,
        }
    }

    /// Every access made so far, oldest first.
    pub fn ops(&self) -> (r: &Vec<MemoryOp>)
        ensures
            r@ == self.log(),
    {
        &self.ops
    }
}

impl Memory for MockMemory {
    closed spec fn words(&self) -> Map<usize, u32> {
        Map::total(|a: usize| if self.cells@.contains_key(a) { self.cells@[a] } else { 0u32 })
    }

    closed spec fn log(&self) -> Seq<MemoryOp> {
        self.ops@
    }

    fn load(&mut self, addr: usize) -> (r: u32) {
        let r = self.peek(addr);
        self.ops.push(MemoryOp::Load(addr));
        r
    }

    fn store(&mut self, addr: usize, value: u32) {
        broadcast use vstd::std_specs::hash::group_hash_axioms;

        let ghost before = self.words();
        self.cells.insert(addr, value);
        self.ops.push(MemoryOp::Store(addr, value));
        assert(self.words() =~= before.insert(addr, value));
    }
}

} // verus!
