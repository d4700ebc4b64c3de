use vstd::prelude::*;

use crate::array::{RegisterArray, PINCNF_COUNT, PINCNF_OFFSET};
use crate::error::{ErrorKind, PortError, ReadError, WriteError};
use crate::memory::{loaded_once, loaded_then_stored, stored_once, Memory};
use crate::pinstate::{bit_mask, state_of, Pinstate};
use crate::port::{Port, P0, P0_BASE, P1};
use crate::register::{Register, RegisterKind, IN_OFFSET};

verus! {

/// Bit 0 of a configuration word: the pin's direction (0 input, 1 output).
pub const DIR_BIT: u32 = 0b0001;

/// Bit 1 of a configuration word: the input buffer (0 connected, 1 disconnected).
pub const INPUT_BIT: u32 = 0b0010;

/// Bits 3 and 2 of a configuration word: the pull resistor.
pub const PULL_FIELD: u32 = 0b1100;

/// Pull field value for a pull-up resistor.
pub const PULL_UP: u32 = 0b1100;

/// Pull field value for a pull-down resistor.
pub const PULL_DOWN: u32 = 0b0100;

/// Pull field value for no pull resistor.
pub const PULL_DISABLED: u32 = 0b0000;

/// Whether a pin's input buffer is connected.
#[derive(Debug, Clone, Copy, PartialEq, Eq, Structural)]
pub enum InputbufferState {
    Connected,
    Disconnected,
}

/// The configuration word `w` with its pull field set to `pull`.
pub open spec fn with_pull(w: u32, pull: u32) -> u32 {
    (w & !PULL_FIELD) | pull
}

/// The configuration word `w` set up as a connected input.
pub open spec fn input_enabled(w: u32) -> u32 {
    w & !(DIR_BIT | INPUT_BIT)
}

/// Whether the configuration word `w` has its input buffer connected.
pub open spec fn buffer_connected(w: u32) -> bool {
    w & INPUT_BIT == 0
}

/// The configuration word `w` with its input buffer bit set for `state`.
pub open spec fn with_input_buffer(w: u32, state: InputbufferState) -> u32 {
    match state {
        InputbufferState::Connected => w & !INPUT_BIT,
        InputbufferState::Disconnected => (w & !INPUT_BIT) | INPUT_BIT,
    }
}

/// Each pull setting leaves exactly its own value in the pull field, and every
/// bit outside the field as it was.
pub proof fn lemma_pull_field(w: u32)
    ensures
        with_pull(w, PULL_UP) & PULL_FIELD == 0b1100,
        with_pull(w, PULL_DOWN) & PULL_FIELD == 0b0100,
        with_pull(w, PULL_DISABLED) & PULL_FIELD == 0,
        with_pull(w, PULL_UP) & !PULL_FIELD == w & !PULL_FIELD,
        with_pull(w, PULL_DOWN) & !PULL_FIELD == w & !PULL_FIELD,
        with_pull(w, PULL_DISABLED) & !PULL_FIELD == w & !PULL_FIELD,
{
    assert(((w & !0b1100u32) | 0b1100u32) & 0b1100u32 == 0b1100u32) by (bit_vector);
    assert(((w & !0b1100u32) | 0b0100u32) & 0b1100u32 == 0b0100u32) by (bit_vector);
    assert(((w & !0b1100u32) | 0u32) & 0b1100u32 == 0u32) by (bit_vector);
    assert(((w & !0b1100u32) | 0b1100u32) & !0b1100u32 == w & !0b1100u32) by (bit_vector);
    assert(((w & !0b1100u32) | 0b0100u32) & !0b1100u32 == w & !0b1100u32) by (bit_vector);
    assert(((w & !0b1100u32) | 0u32) & !0b1100u32 == w & !0b1100u32) by (bit_vector);
}

/// A pin set up as an input has direction bit and disconnect bit clear, and
/// every other bit as it was.
pub proof fn lemma_input_enabled(w: u32)
    ensures
        input_enabled(w) & DIR_BIT == 0,
        input_enabled(w) & INPUT_BIT == 0,
        input_enabled(w) & !(DIR_BIT | INPUT_BIT) == w & !(DIR_BIT | INPUT_BIT),
{
    assert(0b0001u32 | 0b0010u32 == 0b0011u32) by (bit_vector);
    assert((w & !0b0011u32) & 0b0001u32 == 0) by (bit_vector);
    assert((w & !0b0011u32) & 0b0010u32 == 0) by (bit_vector);
    assert((w & !0b0011u32) & !0b0011u32 == w & !0b0011u32) by (bit_vector);
}

/// Setting the input buffer leaves it in the state asked for, and every other
/// bit as it was.
pub proof fn lemma_input_buffer(w: u32, state: InputbufferState)
    ensures
        buffer_connected(with_input_buffer(w, state)) == (state == InputbufferState::Connected),
        with_input_buffer(w, state) & !INPUT_BIT == w & !INPUT_BIT,
{
    assert((w & !0b0010u32) & 0b0010u32 == 0) by (bit_vector);
    assert(((w & !0b0010u32) | 0b0010u32) & 0b0010u32 == 0b0010u32) by (bit_vector);
    assert((w & !0b0010u32) & !0b0010u32 == w & !0b0010u32) by (bit_vector);
    assert(((w & !0b0010u32) | 0b0010u32) & !0b0010u32 == w & !0b0010u32) by (bit_vector);
}

/// One pin of one bank, with the registers of that bank that concern it.
#[derive(Debug, Clone, Copy, PartialEq, Eq, Structural)]
pub struct Pin {
    pub port: Port,
    pub index: usize,
    pub out: Register,
    pub outset: Register,
    pub outclr: Register,
    pub input: Register,
    pub dir: Register,
    pub dirset: Register,
    pub dirclr: Register,
    pub latch: Register,
    pub detectmode: Register,
    pub pincnf: RegisterArray,
}

impl Pin {
    /// The pin's index is one its bank has, and every register is the one of
    /// its kind in the pin's own bank.
    pub open spec fn wf(&self) -> bool {
        &&& self.port.wf()
        &&& self.port.valid(self.index)
        &&& self.out == Register::spec_of_kind(self.port, RegisterKind::Out)
        &&& self.outset == Register::spec_of_kind(self.port, RegisterKind::OutSet)
        &&& self.outclr == Register::spec_of_kind(self.port, RegisterKind::OutClr)
        &&& self.input == Register::spec_of_kind(self.port, RegisterKind::In)
        &&& self.dir == Register::spec_of_kind(self.port, RegisterKind::Dir)
        &&& self.dirset == Register::spec_of_kind(self.port, RegisterKind::DirSet)
        &&& self.dirclr == Register::spec_of_kind(self.port, RegisterKind::DirClr)
        &&& self.latch == Register::spec_of_kind(self.port, RegisterKind::Latch)
        &&& self.detectmode == Register::spec_of_kind(self.port, RegisterKind::DetectMode)
        &&& self.pincnf == RegisterArray {
            port: self.port,
            offset: PINCNF_OFFSET,
            count: PINCNF_COUNT,
        }
    }

    /// The address of this pin's configuration word.
    pub open spec fn pincnf_address(&self) -> usize {
        self.pincnf.address_spec(self.index as int) as usize
    }

    /// This pin's configuration word in `words`.
    pub open spec fn pincnf_word(&self, words: Map<usize, u32>) -> u32 {
        words[self.pincnf_address()]
    }

    /// Pin `index` of bank `port`, with every register built from the layout
    /// table; an index the bank does not have is refused.
    pub fn new(port: Port, index: usize) -> (r: Result<Pin, PortError>)
        requires
            port.wf(),
        ensures
            port.valid(index) ==> (r matches Ok(p) && p.wf() && p.port == port && p.index == index),
            !port.valid(index) ==> r == Err::<Pin, PortError>(PortError(ErrorKind::BadIndex)),
    {
        if !port.is_valid(index) {
            return Err(PortError(ErrorKind::BadIndex));
        }
        Ok(Pin::build(port, index))
    }

    /// Pin `index` of bank `port`, an index the bank has.
    fn build(port: Port, index: usize) -> (r: Pin)
        requires
            port.wf(),
            port.valid(index),
        ensures
            r.wf(),
            r.port == port,
            r.index == index,
    {
        Pin {
            port,
            index,
            out: Register::of_kind(port, RegisterKind::Out),
            outset: Register::of_kind(port, RegisterKind::OutSet),
            outclr: Register::of_kind(port, RegisterKind::OutClr),
            input: Register::of_kind(port, RegisterKind::In),
            dir: Register::of_kind(port, RegisterKind::Dir),
            dirset: Register::of_kind(port, RegisterKind::DirSet),
            dirclr: Register::of_kind(port, RegisterKind::DirClr),
            latch: Register::of_kind(port, RegisterKind::Latch),
            detectmode: Register::of_kind(port, RegisterKind::DetectMode),
            pincnf: RegisterArray::pincnf(port),
        }
    }

    /// The bit of this pin in a register word.
    pub fn bit_mask(&self) -> (r: u32)
        requires
            self.wf(),
        ensures
            r == bit_mask(self.index),
    {
        1u32 << (self.index as u32)
    }

    /// Reads this pin's bit of `OUT`.
    pub fn read_out<M: Memory>(&self, mem: &mut M) -> (r: Result<Pinstate, ReadError>)
        requires
            self.wf(),
        ensures
            r == Ok::<Pinstate, ReadError>(state_of(old(mem).words()[self.out.address], self.index)),
            loaded_once(*old(mem), *final(mem), self.out.address),
    {
        self.out.read(mem, self.index)
    }

    /// Sets this pin's bit of `OUT`, storing only if it changes.
    pub fn write_out<M: Memory>(&self, mem: &mut M, value: Pinstate) -> (r: Result<(), WriteError>)
        requires
            self.wf(),
        ensures
            r == Ok::<(), WriteError>(()),
            self.out.bit_written(*old(mem), *final(mem), self.index, value),
    {
        self.out.write(mem, self.index, value)
    }

    /// Reads this pin's bit of `IN`, the level on the pin.
    pub fn read_in<M: Memory>(&self, mem: &mut M) -> (r: Result<Pinstate, ReadError>)
        requires
            self.wf(),
        ensures
            r == Ok::<Pinstate, ReadError>(
                state_of(old(mem).words()[self.input.address], self.index),
            ),
            loaded_once(*old(mem), *final(mem), self.input.address),
    {
        self.input.read(mem, self.index)
    }

    /// Reads this pin's bit of `DIR`.
    pub fn read_dir<M: Memory>(&self, mem: &mut M) -> (r: Result<Pinstate, ReadError>)
        requires
            self.wf(),
        ensures
            r == Ok::<Pinstate, ReadError>(state_of(old(mem).words()[self.dir.address], self.index)),
            loaded_once(*old(mem), *final(mem), self.dir.address),
    {
        self.dir.read(mem, self.index)
    }

    /// Sets this pin's bit of `DIR`, storing only if it changes.
    pub fn write_dir<M: Memory>(&self, mem: &mut M, value: Pinstate) -> (r: Result<(), WriteError>)
        requires
            self.wf(),
        ensures
            r == Ok::<(), WriteError>(()),
            self.dir.bit_written(*old(mem), *final(mem), self.index, value),
    {
        self.dir.write(mem, self.index, value)
    }

    /// Loads this pin's configuration word.
    pub fn read_pincnf<M: Memory>(&self, mem: &mut M) -> (r: Result<u32, ReadError>)
        requires
            self.wf(),
        ensures
            r == Ok::<u32, ReadError>(self.pincnf_word(old(mem).words())),
            loaded_once(*old(mem), *final(mem), self.pincnf_address()),
    {
        self.pincnf.read_array(mem, self.index)
    }

    /// Replaces this pin's configuration word with `value`.
    pub fn write_pincnf<M: Memory>(&self, mem: &mut M, value: u32) -> (r: Result<(), WriteError>)
        requires
            self.wf(),
        ensures
            r == Ok::<(), WriteError>(()),
            stored_once(*old(mem), *final(mem), self.pincnf_address(), value),
    {
        self.pincnf.write_array(mem, self.index, value)
    }

    /// Puts this pin's configuration word back to zero.
    pub fn reset_pincnf<M: Memory>(&self, mem: &mut M) -> (r: Result<(), WriteError>)
        requires
            self.wf(),
        ensures
            r == Ok::<(), WriteError>(()),
            stored_once(*old(mem), *final(mem), self.pincnf_address(), 0),
    {
        self.write_pincnf(mem, 0)
    }

    /// Connects or disconnects this pin's input buffer, storing the
    /// configuration word only if it must change.
    pub fn set_input_buffer_as<M: Memory>(&self, mem: &mut M, state: InputbufferState) -> (r:
        Result<(), WriteError>)
        requires
            self.wf(),
        ensures
            r == Ok::<(), WriteError>(()),
            ({
                let w = self.pincnf_word(old(mem).words());
                if buffer_connected(w) == (state == InputbufferState::Connected) {
                    loaded_once(*old(mem), *final(mem), self.pincnf_address())
                } else {
                    loaded_then_stored(
                        *old(mem),
                        *final(mem),
                        self.pincnf_address(),
                        with_input_buffer(w, state),
                    )
                }
            }),
    {
        let current = match self.read_pincnf(mem) {
            Ok(w) => w,
            Err(e) => return Err(WriteError::from(e)),
        };
        let is_connected = current & INPUT_BIT == 0;
        let want_connected = match state {
            InputbufferState::Connected => true,
            InputbufferState::Disconnected => false,
        };
        if is_connected == want_connected {
            return Ok(());
        }
        let cleared = current & !INPUT_BIT;
        let value = match state {
            InputbufferState::Connected => cleared,
            InputbufferState::Disconnected => cleared | INPUT_BIT,
        };
        self.write_pincnf(mem, value)
    }

    /// Makes this pin an input with its buffer connected: clears the direction
    /// bit and the disconnect bit, keeping every other bit.
    pub fn input_enable<M: Memory>(&self, mem: &mut M) -> (r: Result<(), WriteError>)
        requires
            self.wf(),
        ensures
            r == Ok::<(), WriteError>(()),
            loaded_then_stored(
                *old(mem),
                *final(mem),
                self.pincnf_address(),
                input_enabled(self.pincnf_word(old(mem).words())),
            ),
            self.pincnf_word(final(mem).words()) & DIR_BIT == 0,
            self.pincnf_word(final(mem).words()) & INPUT_BIT == 0,
    {
        let previous = match self.read_pincnf(mem) {
            Ok(w) => w,
            Err(e) => return Err(WriteError::from(e)),
        };
        proof {
            lemma_input_enabled(previous);
        }
        self.write_pincnf(mem, previous & !(DIR_BIT | INPUT_BIT))
    }

    /// Sets the pull field of this pin's configuration word to `pull`.
    fn set_pull<M: Memory>(&self, mem: &mut M, pull: u32) -> (r: Result<(), WriteError>)
        requires
            self.wf(),
        ensures
            r == Ok::<(), WriteError>(()),
            loaded_then_stored(
                *old(mem),
                *final(mem),
                self.pincnf_address(),
                with_pull(self.pincnf_word(old(mem).words()), pull),
            ),
    {
        let previous = match self.pincnf.read_array(mem, self.index) {
            Ok(w) => w,
            Err(e) => return Err(WriteError::from(e)),
        };
        self.write_pincnf(mem, (previous & !PULL_FIELD) | pull)
    }

    /// Turns on this pin's pull-up resistor.
    pub fn pull_up<M: Memory>(&self, mem: &mut M) -> (r: Result<(), WriteError>)
        requires
            self.wf(),
        ensures
            r == Ok::<(), WriteError>(()),
            loaded_then_stored(
                *old(mem),
                *final(mem),
                self.pincnf_address(),
                with_pull(self.pincnf_word(old(mem).words()), PULL_UP),
            ),
            self.pincnf_word(final(mem).words()) & PULL_FIELD == PULL_UP,
    {
        let r = self.set_pull(mem, PULL_UP);
        proof {
            lemma_pull_field(self.pincnf_word(old(mem).words()));
        }
        r
    }

    /// Turns on this pin's pull-down resistor.
    pub fn pull_down<M: Memory>(&self, mem: &mut M) -> (r: Result<(), WriteError>)
        requires
            self.wf(),
        ensures
            r == Ok::<(), WriteError>(()),
            loaded_then_stored(
                *old(mem),
                *final(mem),
                self.pincnf_address(),
                with_pull(self.pincnf_word(old(mem).words()), PULL_DOWN),
            ),
            self.pincnf_word(final(mem).words()) & PULL_FIELD == PULL_DOWN,
    {
        let r = self.set_pull(mem, PULL_DOWN);
        proof {
            lemma_pull_field(self.pincnf_word(old(mem).words()));
        }
        r
    }

    /// Turns off this pin's pull resistor.
    pub fn pull_disable<M: Memory>(&self, mem: &mut M) -> (r: Result<(), WriteError>)
        requires
            self.wf(),
        ensures
            r == Ok::<(), WriteError>(()),
            loaded_then_stored(
                *old(mem),
                *final(mem),
                self.pincnf_address(),
                with_pull(self.pincnf_word(old(mem).words()), PULL_DISABLED),
            ),
            self.pincnf_word(final(mem).words()) & PULL_FIELD == PULL_DISABLED,
    {
        let r = self.set_pull(mem, PULL_DISABLED);
        proof {
            lemma_pull_field(self.pincnf_word(old(mem).words()));
        }
        r
    }
}

impl P0 {
    /// Pin `index` of bank 0, or `BadIndex` past pin 31.
    pub fn pin(index: usize) -> (r: Result<Pin, PortError>)
        ensures
            index <= 31 ==> (r matches Ok(p) && p.wf() && p.port == P0::spec_port() && p.index
                == index),
            index > 31 ==> r == Err::<Pin, PortError>(PortError(ErrorKind::BadIndex)),
    {
        Pin::new(P0::port(), index)
    }
}

impl P1 {
    /// Pin `index` of bank 1, or `BadIndex` past pin 9.
    pub fn pin(index: usize) -> (r: Result<Pin, PortError>)
        ensures
            index <= 9 ==> (r matches Ok(p) && p.wf() && p.port == P1::spec_port() && p.index
                == index),
            index > 9 ==> r == Err::<Pin, PortError>(PortError(ErrorKind::BadIndex)),
    {
        Pin::new(P1::port(), index)
    }
}

/// Marker for a push button wired to a pin.
pub trait Button {}

/// Button A of the board, on pin 14 of bank 0. The button pulls its line low
/// while it is held.
#[derive(Debug, Clone, Copy, PartialEq, Eq, Structural)]
pub struct ButtonA;

impl Button for ButtonA {}

/// The pin of bank 0 that button A is wired to.
pub const BUTTON_A_INDEX: usize = 14;

impl ButtonA {
    /// The pin that button A is wired to.
    pub fn pin() -> (r: Pin)
        ensures
            r.wf(),
            r.port == P0::spec_port(),
            r.index == BUTTON_A_INDEX,
    {
        Pin::build(P0::port(), BUTTON_A_INDEX)
    }

    /// Whether button A is held: one load of bank 0's `IN` register, and the
    /// button's line reading low.
    pub fn is_pressed<M: Memory>(mem: &mut M) -> (r: Result<bool, ReadError>)
        ensures
            r == Ok::<bool, ReadError>(
                state_of(old(mem).words()[(P0_BASE + IN_OFFSET) as usize], BUTTON_A_INDEX)
                    == Pinstate::Low,
            ),
            loaded_once(*old(mem), *final(mem), (P0_BASE + IN_OFFSET) as usize),
    {
        let pin = ButtonA::pin();
        match pin.read_in(mem) {
            Ok(level) => Ok(!level.is_high()),
            Err(e) => Err(e),
        }
    }
}

} // verus!
