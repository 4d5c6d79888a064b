//! A verified model of the low-level drivers for the STM32G0 clock
//! controller, GPIO ports and ADC.
//!
//! Every driver operation is a function from the register words it reads to
//! the register words it writes. The functions here compute on plain words,
//! so that what each one does to every bit is stated and proved; moving the
//! words to and from the memory-mapped registers is left to the caller.

pub mod adc;
pub mod bits;
pub mod codec;
pub mod gpio;
pub mod guard;
pub mod rcc;

use vstd::prelude::*;

verus! {

/// Conversion that consumes a value to take something out of it.
pub trait Taker<T> {
    fn take(self) -> T;
}

} // verus!
