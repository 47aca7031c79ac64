//! Port 5: its pins and their capabilities.
use vstd::prelude::*;

use crate::AlreadyTaken;
use super::{Floating, Input, Pin, PinCaps};

verus! {

/// Port 5; it can be taken once.
pub struct Port5 {
    _regs: (),
}

/// The pins of port 5, each a floating input.
pub struct Pins {
    pub p500: Pin<Input<Floating>>,
    pub p501: Pin<Input<Floating>>,
    pub p502: Pin<Input<Floating>>,
    pub p503: Pin<Input<Floating>>,
    pub p504: Pin<Input<Floating>>,
    pub p505: Pin<Input<Floating>>,
    pub p506: Pin<Input<Floating>>,
    pub p507: Pin<Input<Floating>>,
    pub p508: Pin<Input<Floating>>,
    pub p511: Pin<Input<Floating>>,
    pub p512: Pin<Input<Floating>>,
    pub p513: Pin<Input<Floating>>,
}

impl Port5 {
    /// Takes the port; fails when it was taken before.
    pub fn take(taken: &mut bool) -> (r: Result<Self, AlreadyTaken>)
        ensures
            *final(taken),
            r is Err <==> *old(taken),
            (r is Ok, *final(taken)) == crate::spec_claim(*old(taken)),
    {
        if *taken {
            Err(AlreadyTaken)
        } else {
            *taken = true;
            Ok(Port5 { _regs: () })
        }
    }

    /// Splits the port into its pins.
    pub fn split(self) -> (r: Pins)
        ensures
            r.p500.spec_port() == 5 && r.p500.spec_id() == 0 && r.p500.spec_caps() == (PinCaps { output: true, analog: true, irq: false, irq_edge: false, drive: true, alternate: true }),
            r.p501.spec_port() == 5 && r.p501.spec_id() == 1 && r.p501.spec_caps() == (PinCaps { output: true, analog: true, irq: true, irq_edge: false, drive: true, alternate: true }),
            r.p502.spec_port() == 5 && r.p502.spec_id() == 2 && r.p502.spec_caps() == (PinCaps { output: true, analog: true, irq: true, irq_edge: false, drive: true, alternate: true }),
            r.p503.spec_port() == 5 && r.p503.spec_id() == 3 && r.p503.spec_caps() == (PinCaps { output: true, analog: true, irq: false, irq_edge: false, drive: true, alternate: true }),
            r.p504.spec_port() == 5 && r.p504.spec_id() == 4 && r.p504.spec_caps() == (PinCaps { output: true, analog: true, irq: false, irq_edge: false, drive: true, alternate: true }),
            r.p505.spec_port() == 5 && r.p505.spec_id() == 5 && r.p505.spec_caps() == (PinCaps { output: true, analog: true, irq: true, irq_edge: false, drive: true, alternate: true }),
            r.p506.spec_port() == 5 && r.p506.spec_id() == 6 && r.p506.spec_caps() == (PinCaps { output: true, analog: true, irq: true, irq_edge: false, drive: true, alternate: true }),
            r.p507.spec_port() == 5 && r.p507.spec_id() == 7 && r.p507.spec_caps() == (PinCaps { output: true, analog: true, irq: false, irq_edge: false, drive: true, alternate: true }),
            r.p508.spec_port() == 5 && r.p508.spec_id() == 8 && r.p508.spec_caps() == (PinCaps { output: true, analog: true, irq: false, irq_edge: false, drive: true, alternate: true }),
            r.p511.spec_port() == 5 && r.p511.spec_id() == 11 && r.p511.spec_caps() == (PinCaps { output: true, analog: false, irq: true, irq_edge: false, drive: true, alternate: true }),
            r.p512.spec_port() == 5 && r.p512.spec_id() == 12 && r.p512.spec_caps() == (PinCaps { output: true, analog: false, irq: true, irq_edge: false, drive: true, alternate: true }),
            r.p513.spec_port() == 5 && r.p513.spec_id() == 13 && r.p513.spec_caps() == (PinCaps { output: true, analog: false, irq: false, irq_edge: false, drive: true, alternate: true }),
    {
        Pins {
            p500: Pin::new(5, 0, PinCaps { output: true, analog: true, irq: false, irq_edge: false, drive: true, alternate: true }),
            p501: Pin::new(5, 1, PinCaps { output: true, analog: true, irq: true, irq_edge: false, drive: true, alternate: true }),
            p502: Pin::new(5, 2, PinCaps { output: true, analog: true, irq: true, irq_edge: false, drive: true, alternate: true }),
            p503: Pin::new(5, 3, PinCaps { output: true, analog: true, irq: false, irq_edge: false, drive: true, alternate: true }),
            p504: Pin::new(5, 4, PinCaps { output: true, analog: true, irq: false, irq_edge: false, drive: true, alternate: true }),
            p505: Pin::new(5, 5, PinCaps { output: true, analog: true, irq: true, irq_edge: false, drive: true, alternate: true }),
            p506: Pin::new(5, 6, PinCaps { output: true, analog: true, irq: true, irq_edge: false, drive: true, alternate: true }),
            p507: Pin::new(5, 7, PinCaps { output: true, analog: true, irq: false, irq_edge: false, drive: true, alternate: true }),
            p508: Pin::new(5, 8, PinCaps { output: true, analog: true, irq: false, irq_edge: false, drive: true, alternate: true }),
            p511: Pin::new(5, 11, PinCaps { output: true, analog: false, irq: true, irq_edge: false, drive: true, alternate: true }),
            p512: Pin::new(5, 12, PinCaps { output: true, analog: false, irq: true, irq_edge: false, drive: true, alternate: true }),
            p513: Pin::new(5, 13, PinCaps { output: true, analog: false, irq: false, irq_edge: false, drive: true, alternate: true }),
        }
    }
}

} // verus!
