//! The pins of port A.

use crate::gpio::{Pin, PortA};
use vstd::prelude::*;

verus! {

/// The sixteen pins of port A, each in analog mode.
pub struct Pins {
    pub pa0: Pin<PortA>,
    pub pa1: Pin<PortA>,
    pub pa2: Pin<PortA>,
    pub pa3: Pin<PortA>,
    pub pa4: Pin<PortA>,
    pub pa5: Pin<PortA>,
    pub pa6: Pin<PortA>,
    pub pa7: Pin<PortA>,
    pub pa8: Pin<PortA>,
    pub pa9: Pin<PortA>,
    pub pa10: Pin<PortA>,
    pub pa11: Pin<PortA>,
    pub pa12: Pin<PortA>,
    pub pa13: Pin<PortA>,
    pub pa14: Pin<PortA>,
    pub pa15: Pin<PortA>,
}

impl Pins {
    /// Takes all pins from this port: pin `paN` has the index `N`.
    pub fn take() -> (pins: Self)
        ensures
            pins.pa0.index() == 0,
            pins.pa1.index() == 1,
            pins.pa2.index() == 2,
            pins.pa3.index() == 3,
            pins.pa4.index() == 4,
            pins.pa5.index() == 5,
            pins.pa6.index() == 6,
            pins.pa7.index() == 7,
            pins.pa8.index() == 8,
            pins.pa9.index() == 9,
            pins.pa10.index() == 10,
            pins.pa11.index() == 11,
            pins.pa12.index() == 12,
            pins.pa13.index() == 13,
            pins.pa14.index() == 14,
            pins.pa15.index() == 15,
    {
        Pins {
            pa0: Pin::new(0),
            pa1: Pin::new(1),
            pa2: Pin::new(2),
            pa3: Pin::new(3),
            pa4: Pin::new(4),
            pa5: Pin::new(5),
            pa6: Pin::new(6),
            pa7: Pin::new(7),
            pa8: Pin::new(8),
            pa9: Pin::new(9),
            pa10: Pin::new(10),
            pa11: Pin::new(11),
            pa12: Pin::new(12),
            pa13: Pin::new(13),
            pa14: Pin::new(14),
            pa15: Pin::new(15),
        }
    }
}

} // verus!
