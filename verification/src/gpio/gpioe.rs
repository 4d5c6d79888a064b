//! The pins of port E.

use crate::gpio::{Pin, PortE};
use vstd::prelude::*;

verus! {

/// The sixteen pins of port E, each in analog mode.
pub struct Pins {
    pub pe0: Pin<PortE>,
    pub pe1: Pin<PortE>,
    pub pe2: Pin<PortE>,
    pub pe3: Pin<PortE>,
    pub pe4: Pin<PortE>,
    pub pe5: Pin<PortE>,
    pub pe6: Pin<PortE>,
    pub pe7: Pin<PortE>,
    pub pe8: Pin<PortE>,
    pub pe9: Pin<PortE>,
    pub pe10: Pin<PortE>,
    pub pe11: Pin<PortE>,
    pub pe12: Pin<PortE>,
    pub pe13: Pin<PortE>,
    pub pe14: Pin<PortE>,
    pub pe15: Pin<PortE>,
}

impl Pins {
    /// Takes all pins from this port: pin `peN` has the index `N`.
    pub fn take() -> (pins: Self)
        ensures
            pins.pe0.index() == 0,
            pins.pe1.index() == 1,
            pins.pe2.index() == 2,
            pins.pe3.index() == 3,
            pins.pe4.index() == 4,
            pins.pe5.index() == 5,
            pins.pe6.index() == 6,
            pins.pe7.index() == 7,
            pins.pe8.index() == 8,
            pins.pe9.index() == 9,
            pins.pe10.index() == 10,
            pins.pe11.index() == 11,
            pins.pe12.index() == 12,
            pins.pe13.index() == 13,
            pins.pe14.index() == 14,
            pins.pe15.index() == 15,
    {
        Pins {
            pe0: Pin::new(0),
            pe1: Pin::new(1),
            pe2: Pin::new(2),
            pe3: Pin::new(3),
            pe4: Pin::new(4),
            pe5: Pin::new(5),
            pe6: Pin::new(6),
            pe7: Pin::new(7),
            pe8: Pin::new(8),
            pe9: Pin::new(9),
            pe10: Pin::new(10),
            pe11: Pin::new(11),
            pe12: Pin::new(12),
            pe13: Pin::new(13),
            pe14: Pin::new(14),
            pe15: Pin::new(15),
        }
    }
}

} // verus!
