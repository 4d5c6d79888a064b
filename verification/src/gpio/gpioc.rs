//! The pins of port C.

use crate::gpio::{Pin, PortC};
use vstd::prelude::*;

verus! {

/// The sixteen pins of port C, each in analog mode.
pub struct Pins {
    pub pc0: Pin<PortC>,
    pub pc1: Pin<PortC>,
    pub pc2: Pin<PortC>,
    pub pc3: Pin<PortC>,
    pub pc4: Pin<PortC>,
    pub pc5: Pin<PortC>,
    pub pc6: Pin<PortC>,
    pub pc7: Pin<PortC>,
    pub pc8: Pin<PortC>,
    pub pc9: Pin<PortC>,
    pub pc10: Pin<PortC>,
    pub pc11: Pin<PortC>,
    pub pc12: Pin<PortC>,
    pub pc13: Pin<PortC>,
    pub pc14: Pin<PortC>,
    pub pc15: Pin<PortC>,
}

impl Pins {
    /// Takes all pins from this port: pin `pcN` has the index `N`.
    pub fn take() -> (pins: Self)
        ensures
            pins.pc0.index() == 0,
            pins.pc1.index() == 1,
            pins.pc2.index() == 2,
            pins.pc3.index() == 3,
            pins.pc4.index() == 4,
            pins.pc5.index() == 5,
            pins.pc6.index() == 6,
            pins.pc7.index() == 7,
            pins.pc8.index() == 8,
            pins.pc9.index() == 9,
            pins.pc10.index() == 10,
            pins.pc11.index() == 11,
            pins.pc12.index() == 12,
            pins.pc13.index() == 13,
            pins.pc14.index() == 14,
            pins.pc15.index() == 15,
    {
        Pins {
            pc0: Pin::new(0),
            pc1: Pin::new(1),
            pc2: Pin::new(2),
            pc3: Pin::new(3),
            pc4: Pin::new(4),
            pc5: Pin::new(5),
            pc6: Pin::new(6),
            pc7: Pin::new(7),
            pc8: Pin::new(8),
            pc9: Pin::new(9),
            pc10: Pin::new(10),
            pc11: Pin::new(11),
            pc12: Pin::new(12),
            pc13: Pin::new(13),
            pc14: Pin::new(14),
            pc15: Pin::new(15),
        }
    }
}

} // verus!
