//! The payload of the pipeline and the panel state it is taken from.
//!
//! Slider positions are double-precision numbers. They are carried as their
//! IEEE-754 bit patterns, which keeps equality exact: a pair that leaves the
//! pipeline has the very bits that entered it.

use vstd::prelude::*;

verus! {

/// Bit pattern of the slider position `20.0`.
pub const INITIAL_X_BITS: u64 = 0x4034_0000_0000_0000;

/// Bit pattern of the slider position `10.0`.
pub const INITIAL_Y_BITS: u64 = 0x4024_0000_0000_0000;

/// Two slider positions, `x` then `y`, each as the bit pattern of a double.
#[derive(Clone, Copy, Debug, PartialEq, Eq, Structural)]
pub struct ValuePair {
    pub x_bits: u64,
    pub y_bits: u64,
}

impl ValuePair {
    /// The pair with the given bit patterns.
    pub fn new(x_bits: u64, y_bits: u64) -> (pair: ValuePair)
        ensures
            pair.x_bits == x_bits,
            pair.y_bits == y_bits,
    {
        ValuePair { x_bits, y_bits }
    }
}

/// What the panel currently shows: the position of each slider.
#[derive(Clone, Copy, Debug, PartialEq, Eq, Structural)]
pub struct AppState {
    x_input_value: u64,
    y_input_value: u64,
}

impl AppState {
    /// The bit pattern of the `x` slider's position.
    pub closed spec fn x_bits(&self) -> u64 {
        self.x_input_value
    }

    /// The bit pattern of the `y` slider's position.
    pub closed spec fn y_bits(&self) -> u64 {
        self.y_input_value
    }

    /// The panel as it opens: `x` at `20.0`, `y` at `10.0`.
    pub fn new() -> (state: AppState)
        ensures
            state.x_bits() == INITIAL_X_BITS,
            state.y_bits() == INITIAL_Y_BITS,
    {
        AppState { x_input_value: INITIAL_X_BITS, y_input_value: INITIAL_Y_BITS }
    }

    /// Takes over what the `x` slider reported in this frame. A slider that
    /// was not moved reports nothing and the position stays.
    pub fn slide_x(&mut self, moved: Option<u64>)
        ensures
            final(self).x_bits() == (match moved {
                Some(bits) => bits,
                None => old(self).x_bits(),
            }),
            final(self).y_bits() == old(self).y_bits(),
    {
        if let Some(bits) = moved {
            self.x_input_value = bits;
        }
    }

    /// Takes over what the `y` slider reported in this frame. A slider that
    /// was not moved reports nothing and the position stays.
    pub fn slide_y(&mut self, moved: Option<u64>)
        ensures
            final(self).y_bits() == (match moved {
                Some(bits) => bits,
                None => old(self).y_bits(),
            }),
            final(self).x_bits() == old(self).x_bits(),
    {
        if let Some(bits) = moved {
            self.y_input_value = bits;
        }
    }

    /// The pair that a press of the send button submits: both positions as
    /// they stand, `x` first.
    pub fn submission(&self) -> (pair: ValuePair)
        ensures
            pair.x_bits == self.x_bits(),
            pair.y_bits == self.y_bits(),
    {
        ValuePair { x_bits: self.x_input_value, y_bits: self.y_input_value }
    }
}

} // verus!
