//! The pins of port D.

use crate::gpio::{Pin, PortD};
use vstd::prelude::*;

verus! {

/// The sixteen pins of port D, each in analog mode.
pub struct Pins {
    pub pd0: Pin<PortD>,
    pub pd1: Pin<PortD>,
    pub pd2: Pin<PortD>,
    pub pd3: Pin<PortD>,
    pub pd4: Pin<PortD>,
    pub pd5: Pin<PortD>,
    pub pd6: Pin<PortD>,
    pub pd7: Pin<PortD>,
    pub pd8: Pin<PortD>,
    pub pd9: Pin<PortD>,
    pub pd10: Pin<PortD>,
    pub pd11: Pin<PortD>,
    pub pd12: Pin<PortD>,
    pub pd13: Pin<PortD>,
    pub pd14: Pin<PortD>,
    pub pd15: Pin<PortD>,
}

impl Pins {
    /// Takes all pins from this port: pin `pdN` has the index `N`.
    pub fn take() -> (pins: Self)
        ensures
            pins.pd0.index() == 0,
            pins.pd1.index() == 1,
            pins.pd2.index() == 2,
            pins.pd3.index() == 3,
            pins.pd4.index() == 4,
            pins.pd5.index() == 5,
            pins.pd6.index() == 6,
            pins.pd7.index() == 7,
            pins.pd8.index() == 8,
            pins.pd9.index() == 9,
            pins.pd10.index() == 10,
            pins.pd11.index() == 11,
            pins.pd12.index() == 12,
            pins.pd13.index() == 13,
            pins.pd14.index() == 14,
            pins.pd15.index() == 15,
    {
        Pins {
            pd0: Pin::new(0),
            pd1: Pin::new(1),
            pd2: Pin::new(2),
            pd3: Pin::new(3),
            pd4: Pin::new(4),
            pd5: Pin::new(5),
            pd6: Pin::new(6),
            pd7: Pin::new(7),
            pd8: Pin::new(8),
            pd9: Pin::new(9),
            pd10: Pin::new(10),
            pd11: Pin::new(11),
            pd12: Pin::new(12),
            pd13: Pin::new(13),
            pd14: Pin::new(14),
            pd15: Pin::new(15),
        }
    }
}

} // verus!
