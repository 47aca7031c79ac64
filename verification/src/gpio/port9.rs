//! Port 9: its pins and their capabilities.
use vstd::prelude::*;

use crate::AlreadyTaken;
use super::{Floating, Input, Pin, PinCaps};

verus! {

/// Port 9; it can be taken once.
pub struct Port9 {
    _regs: (),
}

/// The pins of port 9, each a floating input.
pub struct Pins {
    pub p900: Pin<Input<Floating>>,
    pub p901: Pin<Input<Floating>>,
    pub p905: Pin<Input<Floating>>,
    pub p906: Pin<Input<Floating>>,
    pub p907: Pin<Input<Floating>>,
    pub p908: Pin<Input<Floating>>,
}

impl Port9 {
    /// Takes the port; fails when it was taken before.
    pub fn take(taken: &mut bool) -> (r: Result<Self, AlreadyTaken>)
        ensures
            *final(taken),
            r is Err <==> *old(taken),
            (r is Ok, *final(taken)) == crate::spec_claim(*old(taken)),
    {
        if *taken {
            Err(AlreadyTaken)
        } else {
            *taken = true;
            Ok(Port9 { _regs: () })
        }
    }

    /// Splits the port into its pins.
    pub fn split(self) -> (r: Pins)
        ensures
            r.p900.spec_port() == 9 && r.p900.spec_id() == 0 && r.p900.spec_caps() == (PinCaps { output: true, analog: false, irq: false, irq_edge: false, drive: true, alternate: true }),
            r.p901.spec_port() == 9 && r.p901.spec_id() == 1 && r.p901.spec_caps() == (PinCaps { output: true, analog: false, irq: false, irq_edge: false, drive: true, alternate: true }),
            r.p905.spec_port() == 9 && r.p905.spec_id() == 5 && r.p905.spec_caps() == (PinCaps { output: true, analog: false, irq: true, irq_edge: false, drive: true, alternate: true }),
            r.p906.spec_port() == 9 && r.p906.spec_id() == 6 && r.p906.spec_caps() == (PinCaps { output: true, analog: false, irq: true, irq_edge: false, drive: true, alternate: true }),
            r.p907.spec_port() == 9 && r.p907.spec_id() == 7 && r.p907.spec_caps() == (PinCaps { output: true, analog: false, irq: true, irq_edge: false, drive: true, alternate: true }),
            r.p908.spec_port() == 9 && r.p908.spec_id() == 8 && r.p908.spec_caps() == (PinCaps { output: true, analog: false, irq: true, irq_edge: false, drive: true, alternate: true }),
    {
        Pins {
            p900: Pin::new(9, 0, PinCaps { output: true, analog: false, irq: false, irq_edge: false, drive: true, alternate: true }),
            p901: Pin::new(9, 1, PinCaps { output: true, analog: false, irq: false, irq_edge: false, drive: true, alternate: true }),
            p905: Pin::new(9, 5, PinCaps { output: true, analog: false, irq: true, irq_edge: false, drive: true, alternate: true }),
            p906: Pin::new(9, 6, PinCaps { output: true, analog: false, irq: true, irq_edge: false, drive: true, alternate: true }),
            p907: Pin::new(9, 7, PinCaps { output: true, analog: false, irq: true, irq_edge: false, drive: true, alternate: true }),
            p908: Pin::new(9, 8, PinCaps { output: true, analog: false, irq: true, irq_edge: false, drive: true, alternate: true }),
        }
    }
}

} // verus!
