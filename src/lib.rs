//! Typed, bounds-checked access to the GPIO block of a two-bank
//! microcontroller, proved against a model of word-addressed memory.

pub mod array;
pub mod error;
pub mod memory;
pub mod pin;
pub mod pinstate;
pub mod port;
pub mod register;
