//! The pins of port F.

use crate::gpio::{Pin, PortF};
use vstd::prelude::*;

verus! {

/// The sixteen pins of port F, each in analog mode.
pub struct Pins {
    pub pf0: Pin<PortF>,
    pub pf1: Pin<PortF>,
    pub pf2: Pin<PortF>,
    pub pf3: Pin<PortF>,
    pub pf4: Pin<PortF>,
    pub pf5: Pin<PortF>,
    pub pf6: Pin<PortF>,
    pub pf7: Pin<PortF>,
    pub pf8: Pin<PortF>,
    pub pf9: Pin<PortF>,
    pub pf10: Pin<PortF>,
    pub pf11: Pin<PortF>,
    pub pf12: Pin<PortF>,
    pub pf13: Pin<PortF>,
    pub pf14: Pin<PortF>,
    pub pf15: Pin<PortF>,
}

impl Pins {
    /// Takes all pins from this port: pin `pfN` has the index `N`.
    pub fn take() -> (pins: Self)
        ensures
            pins.pf0.index() == 0,
            pins.pf1.index() == 1,
            pins.pf2.index() == 2,
            pins.pf3.index() == 3,
            pins.pf4.index() == 4,
            pins.pf5.index() == 5,
            pins.pf6.index() == 6,
            pins.pf7.index() == 7,
            pins.pf8.index() == 8,
            pins.pf9.index() == 9,
            pins.pf10.index() == 10,
            pins.pf11.index() == 11,
            pins.pf12.index() == 12,
            pins.pf13.index() == 13,
            pins.pf14.index() == 14,
            pins.pf15.index() == 15,
    {
        Pins {
            pf0: Pin::new(0),
            pf1: Pin::new(1),
            pf2: Pin::new(2),
            pf3: Pin::new(3),
            pf4: Pin::new(4),
            pf5: Pin::new(5),
            pf6: Pin::new(6),
            pf7: Pin::new(7),
            pf8: Pin::new(8),
            pf9: Pin::new(9),
            pf10: Pin::new(10),
            pf11: Pin::new(11),
            pf12: Pin::new(12),
            pf13: Pin::new(13),
            pf14: Pin::new(14),
            pf15: Pin::new(15),
        }
    }
}

} // verus!
