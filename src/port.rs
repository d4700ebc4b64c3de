use vstd::prelude::*;

verus! {

/// Number of bits in a register word, and so the most pins one bank can have.
pub const WORD_BITS: usize = 32;

/// Bytes from a bank's base address to the end of its last register.
pub const GPIO_SPAN: usize = 0x780;

/// Something that lives at a fixed address.
pub trait Addressable {
    /// The address, as a mathematical integer.
    spec fn addr_spec(&self) -> int;

    fn addr(&self) -> (r: usize)
        ensures
            r as int == self.addr_spec(),
    ;
}

/// Marker for a hardware peripheral block.
pub trait Peripheral {}

/// Marker for a kind of bank.
pub trait PortKind {}

/// The general-purpose input/output peripheral.
#[derive(Debug, Clone, Copy, PartialEq, Eq, Structural)]
pub struct GPIO;

impl Peripheral for GPIO {}

impl PortKind for GPIO {}

/// One bank of pins: a base address and the largest pin index it implements.
#[derive(Debug, Clone, Copy, PartialEq, Eq, Structural)]
pub struct Port {
    pub base: usize,
    /// Inclusive upper bound on the pin index.
    pub valid_range: u8,
}

impl Port {
    /// A bank has at most one pin per bit of a register word, and all of its
    /// registers have addresses.
    pub open spec fn wf(&self) -> bool {
        &&& (self.valid_range as usize) < WORD_BITS
        &&& self.base + GPIO_SPAN <= usize::MAX
    }

    /// Whether `index` names a pin of this bank.
    pub open spec fn valid(&self, index: usize) -> bool {
        index <= self.valid_range as usize
    }

    pub fn new(base: usize, valid_range: u8) -> (r: Port)
        ensures
            r.base == base,
            r.valid_range == valid_range,
    {
        Port { base, valid_range }
    }

    /// Whether `index` names a pin of this bank; every accessor asks this
    /// before it touches memory.
    pub fn is_valid(&self, index: usize) -> (r: bool)
        ensures
            r == (index <= self.valid_range as usize),
            r == self.valid(index),
    {
        index <= self.valid_range as usize
    }
}

impl Addressable for Port {
    open spec fn addr_spec(&self) -> int {
        self.base as int
    }

    fn addr(&self) -> (r: usize) {
        self.base
    }
}

/// Bank 0: pins 0 to 31.
#[derive(Debug, Clone, Copy, PartialEq, Eq, Structural)]
pub struct P0;

/// Bank 1: pins 0 to 9.
#[derive(Debug, Clone, Copy, PartialEq, Eq, Structural)]
pub struct P1;

pub const P0_BASE: usize = 0x5000_0000;

pub const P0_LAST_PIN: u8 = 31;

pub const P1_BASE: usize = 0x5000_0300;

pub const P1_LAST_PIN: u8 = 9;

impl P0 {
    pub open spec fn spec_port() -> Port {
        Port { base: P0_BASE, valid_range: P0_LAST_PIN }
    }

    /// Bank 0, based at `0x5000_0000`, with pins 0 to 31.
    pub fn port() -> (r: Port)
        ensures
            r == P0::spec_port(),
            r.wf(),
    {
        Port::new(P0_BASE, P0_LAST_PIN)
    }
}

impl P1 {
    pub open spec fn spec_port() -> Port {
        Port { base: P1_BASE, valid_range: P1_LAST_PIN }
    }

    /// Bank 1, based at `0x5000_0300`, with pins 0 to 9.
    pub fn port() -> (r: Port)
        ensures
            r == P1::spec_port(),
            r.wf(),
    {
        Port::new(P1_BASE, P1_LAST_PIN)
    }
}

} // verus!
