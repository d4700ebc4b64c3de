use vstd::prelude::*;

verus! {

/// The level of one pin, as one bit of a register word shows it.
#[derive(Debug, Clone, Copy, PartialEq, Eq, Structural)]
pub enum Pinstate {
    Low,
    High,
}

/// The word with only bit `index` set.
pub open spec fn bit_mask(index: usize) -> u32
    recommends
        index < 32,
{
    1u32 << (index as u32)
}

/// The level that bit `index` of `word` shows: zero is low, anything else high.
pub open spec fn state_of(word: u32, index: usize) -> Pinstate
    recommends
        index < 32,
{
    if word & bit_mask(index) == 0 {
        Pinstate::Low
    } else {
        Pinstate::High
    }
}

/// Flipping bit `i` of a word turns over the level of pin `i` and keeps the
/// level of every other pin.
pub proof fn lemma_flip_bit(w: u32, i: u32, j: u32)
    requires
        i < 32,
        j < 32,
    ensures
        j == i ==> (((w ^ (1u32 << i)) & (1u32 << j)) == 0) == ((w & (1u32 << j)) != 0),
        j != i ==> (((w ^ (1u32 << i)) & (1u32 << j)) == 0) == ((w & (1u32 << j)) == 0),
{
    assert(j == i ==> (((w ^ (1u32 << i)) & (1u32 << j)) == 0) == ((w & (1u32 << j)) != 0))
        by (bit_vector)
        requires
            i < 32,
            j < 32,
    ;
    assert(j != i ==> (((w ^ (1u32 << i)) & (1u32 << j)) == 0) == ((w & (1u32 << j)) == 0))
        by (bit_vector)
        requires
            i < 32,
            j < 32,
    ;
}

impl Pinstate {
    pub fn is_high(&self) -> (r: bool)
        ensures
            r == (*self == Pinstate::High),
    {
        match self {
            Pinstate::Low => false,
            Pinstate::High => true,
        }
    }

    /// The level's name: "Low" or "High".
    pub fn as_str(&self) -> (r: &'static str)
        ensures
            *self == Pinstate::Low ==> r@ == "Low"@,
            *self == Pinstate::High ==> r@ == "High"@,
    {
        match self {
            Pinstate::Low => "Low",
            Pinstate::High => "High",
        }
    }
}

impl From<u32> for Pinstate {
    /// A masked word: zero is low, anything else high.
    fn from(value: u32) -> (r: Pinstate) {
        if value == 0 {
            Pinstate::Low
        } else {
            Pinstate::High
        }
    }
}

impl vstd::std_specs::convert::FromSpecImpl<u32> for Pinstate {
    open spec fn obeys_from_spec() -> bool {
        true
    }

    open spec fn from_spec(v: u32) -> Pinstate {
        if v == 0 {
            Pinstate::Low
        } else {
            Pinstate::High
        }
    }
}

impl From<Pinstate> for bool {
    fn from(value: Pinstate) -> (r: bool) {
        value.is_high()
    }
}

impl vstd::std_specs::convert::FromSpecImpl<Pinstate> for bool {
    open spec fn obeys_from_spec() -> bool {
        true
    }

    open spec fn from_spec(v: Pinstate) -> bool {
        v == Pinstate::High
    }
}

impl From<Pinstate> for u8 {
    fn from(value: Pinstate) -> (r: u8) {
        match value {
            Pinstate::Low => 0,
            Pinstate::High => 1,
        }
    }
}

impl vstd::std_specs::convert::FromSpecImpl<Pinstate> for u8 {
    open spec fn obeys_from_spec() -> bool {
        true
    }

    open spec fn from_spec(v: Pinstate) -> u8 {
        if v == Pinstate::High {
            1u8
        } else {
            0u8
        }
    }
}

impl From<Pinstate> for u32 {
    fn from(value: Pinstate) -> (r: u32) {
        match value {
            Pinstate::Low => 0,
            Pinstate::High => 1,
        }
    }
}

impl vstd::std_specs::convert::FromSpecImpl<Pinstate> for u32 {
    open spec fn obeys_from_spec() -> bool {
        true
    }

    open spec fn from_spec(v: Pinstate) -> u32 {
        if v == Pinstate::High {
            1u32
        } else {
            0u32
        }
    }
}

} // verus!
