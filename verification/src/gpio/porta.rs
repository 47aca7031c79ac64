//! Port A: its pins and their capabilities.
use vstd::prelude::*;

use crate::AlreadyTaken;
use super::{Floating, Input, Pin, PinCaps};

verus! {

/// Port A; it can be taken once.
pub struct PortA {
    _regs: (),
}

/// The pins of port A, each a floating input.
pub struct Pins {
    pub pa00: Pin<Input<Floating>>,
    pub pa01: Pin<Input<Floating>>,
    pub pa08: Pin<Input<Floating>>,
    pub pa09: Pin<Input<Floating>>,
    pub pa10: Pin<Input<Floating>>,
}

impl PortA {
    /// Takes the port; fails when it was taken before.
    pub fn take(taken: &mut bool) -> (r: Result<Self, AlreadyTaken>)
        ensures
            *final(taken),
            r is Err <==> *old(taken),
            (r is Ok, *final(taken)) == crate::spec_claim(*old(taken)),
    {
        if *taken {
            Err(AlreadyTaken)
        } else {
            *taken = true;
            Ok(PortA { _regs: () })
        }
    }

    /// Splits the port into its pins.
    pub fn split(self) -> (r: Pins)
        ensures
            r.pa00.spec_port() == 10 && r.pa00.spec_id() == 0 && r.pa00.spec_caps() == (PinCaps { output: true, analog: false, irq: false, irq_edge: false, drive: true, alternate: true }),
            r.pa01.spec_port() == 10 && r.pa01.spec_id() == 1 && r.pa01.spec_caps() == (PinCaps { output: true, analog: false, irq: false, irq_edge: false, drive: true, alternate: true }),
            r.pa08.spec_port() == 10 && r.pa08.spec_id() == 8 && r.pa08.spec_caps() == (PinCaps { output: true, analog: false, irq: true, irq_edge: false, drive: true, alternate: true }),
            r.pa09.spec_port() == 10 && r.pa09.spec_id() == 9 && r.pa09.spec_caps() == (PinCaps { output: true, analog: false, irq: true, irq_edge: false, drive: true, alternate: true }),
            r.pa10.spec_port() == 10 && r.pa10.spec_id() == 10 && r.pa10.spec_caps() == (PinCaps { output: true, analog: false, irq: true, irq_edge: false, drive: true, alternate: false }),
    {
        Pins {
            pa00: Pin::new(10, 0, PinCaps { output: true, analog: false, irq: false, irq_edge: false, drive: true, alternate: true }),
            pa01: Pin::new(10, 1, PinCaps { output: true, analog: false, irq: false, irq_edge: false, drive: true, alternate: true }),
            pa08: Pin::new(10, 8, PinCaps { output: true, analog: false, irq: true, irq_edge: false, drive: true, alternate: true }),
            pa09: Pin::new(10, 9, PinCaps { output: true, analog: false, irq: true, irq_edge: false, drive: true, alternate: true }),
            pa10: Pin::new(10, 10, PinCaps { output: true, analog: false, irq: true, irq_edge: false, drive: true, alternate: false }),
        }
    }
}

} // verus!
