//! The pins of port B.

use crate::gpio::{Pin, PortB};
use vstd::prelude::*;

verus! {

/// The sixteen pins of port B, each in analog mode.
pub struct Pins {
    pub pb0: Pin<PortB>,
    pub pb1: Pin<PortB>,
    pub pb2: Pin<PortB>,
    pub pb3: Pin<PortB>,
    pub pb4: Pin<PortB>,
    pub pb5: Pin<PortB>,
    pub pb6: Pin<PortB>,
    pub pb7: Pin<PortB>,
    pub pb8: Pin<PortB>,
    pub pb9: Pin<PortB>,
    pub pb10: Pin<PortB>,
    pub pb11: Pin<PortB>,
    pub pb12: Pin<PortB>,
    pub pb13: Pin<PortB>,
    pub pb14: Pin<PortB>,
    pub pb15: Pin<PortB>,
}

impl Pins {
    /// Takes all pins from this port: pin `pbN` has the index `N`.
    pub fn take() -> (pins: Self)
        ensures
            pins.pb0.index() == 0,
            pins.pb1.index() == 1,
            pins.pb2.index() == 2,
            pins.pb3.index() == 3,
            pins.pb4.index() == 4,
            pins.pb5.index() == 5,
            pins.pb6.index() == 6,
            pins.pb7.index() == 7,
            pins.pb8.index() == 8,
            pins.pb9.index() == 9,
            pins.pb10.index() == 10,
            pins.pb11.index() == 11,
            pins.pb12.index() == 12,
            pins.pb13.index() == 13,
            pins.pb14.index() == 14,
            pins.pb15.index() == 15,
    {
        Pins {
            pb0: Pin::new(0),
            pb1: Pin::new(1),
            pb2: Pin::new(2),
            pb3: Pin::new(3),
            pb4: Pin::new(4),
            pb5: Pin::new(5),
            pb6: Pin::new(6),
            pb7: Pin::new(7),
            pb8: Pin::new(8),
            pb9: Pin::new(9),
            pb10: Pin::new(10),
            pb11: Pin::new(11),
            pb12: Pin::new(12),
            pb13: Pin::new(13),
            pb14: Pin::new(14),
            pb15: Pin::new(15),
        }
    }
}

} // verus!
