//! Port 8: its pins and their capabilities.
use vstd::prelude::*;

use crate::AlreadyTaken;
use super::{Floating, Input, Pin, PinCaps};

verus! {

/// Port 8; it can be taken once.
pub struct Port8 {
    _regs: (),
}

/// The pins of port 8, each a floating input.
pub struct Pins {
    pub p800: Pin<Input<Floating>>,
    pub p801: Pin<Input<Floating>>,
    pub p802: Pin<Input<Floating>>,
    pub p803: Pin<Input<Floating>>,
    pub p804: Pin<Input<Floating>>,
    pub p805: Pin<Input<Floating>>,
    pub p806: Pin<Input<Floating>>,
}

impl Port8 {
    /// Takes the port; fails when it was taken before.
    pub fn take(taken: &mut bool) -> (r: Result<Self, AlreadyTaken>)
        ensures
            *final(taken),
            r is Err <==> *old(taken),
            (r is Ok, *final(taken)) == crate::spec_claim(*old(taken)),
    {
        if *taken {
            Err(AlreadyTaken)
        } else {
            *taken = true;
            Ok(Port8 { _regs: () })
        }
    }

    /// Splits the port into its pins.
    pub fn split(self) -> (r: Pins)
        ensures
            r.p800.spec_port() == 8 && r.p800.spec_id() == 0 && r.p800.spec_caps() == (PinCaps { output: true, analog: true, irq: false, irq_edge: false, drive: true, alternate: true }),
            r.p801.spec_port() == 8 && r.p801.spec_id() == 1 && r.p801.spec_caps() == (PinCaps { output: true, analog: true, irq: false, irq_edge: false, drive: true, alternate: true }),
            r.p802.spec_port() == 8 && r.p802.spec_id() == 2 && r.p802.spec_caps() == (PinCaps { output: true, analog: true, irq: true, irq_edge: false, drive: true, alternate: false }),
            r.p803.spec_port() == 8 && r.p803.spec_id() == 3 && r.p803.spec_caps() == (PinCaps { output: true, analog: true, irq: true, irq_edge: false, drive: true, alternate: false }),
            r.p804.spec_port() == 8 && r.p804.spec_id() == 4 && r.p804.spec_caps() == (PinCaps { output: true, analog: false, irq: true, irq_edge: false, drive: true, alternate: false }),
            r.p805.spec_port() == 8 && r.p805.spec_id() == 5 && r.p805.spec_caps() == (PinCaps { output: true, analog: false, irq: false, irq_edge: false, drive: true, alternate: true }),
            r.p806.spec_port() == 8 && r.p806.spec_id() == 6 && r.p806.spec_caps() == (PinCaps { output: true, analog: false, irq: true, irq_edge: false, drive: true, alternate: false }),
    {
        Pins {
            p800: Pin::new(8, 0, PinCaps { output: true, analog: true, irq: false, irq_edge: false, drive: true, alternate: true }),
            p801: Pin::new(8, 1, PinCaps { output: true, analog: true, irq: false, irq_edge: false, drive: true, alternate: true }),
            p802: Pin::new(8, 2, PinCaps { output: true, analog: true, irq: true, irq_edge: false, drive: true, alternate: false }),
            p803: Pin::new(8, 3, PinCaps { output: true, analog: true, irq: true, irq_edge: false, drive: true, alternate: false }),
            p804: Pin::new(8, 4, PinCaps { output: true, analog: false, irq: true, irq_edge: false, drive: true, alternate: false }),
            p805: Pin::new(8, 5, PinCaps { output: true, analog: false, irq: false, irq_edge: false, drive: true, alternate: true }),
            p806: Pin::new(8, 6, PinCaps { output: true, analog: false, irq: true, irq_edge: false, drive: true, alternate: false }),
        }
    }
}

} // verus!
