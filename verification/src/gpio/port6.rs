//! Port 6: its pins and their capabilities.
use vstd::prelude::*;

use crate::AlreadyTaken;
use super::{Floating, Input, Pin, PinCaps};

verus! {

/// Port 6; it can be taken once.
pub struct Port6 {
    _regs: (),
}

/// The pins of port 6, each a floating input.
pub struct Pins {
    pub p600: Pin<Input<Floating>>,
    pub p601: Pin<Input<Floating>>,
    pub p602: Pin<Input<Floating>>,
    pub p603: Pin<Input<Floating>>,
    pub p604: Pin<Input<Floating>>,
    pub p605: Pin<Input<Floating>>,
    pub p606: Pin<Input<Floating>>,
    pub p607: Pin<Input<Floating>>,
    pub p608: Pin<Input<Floating>>,
    pub p609: Pin<Input<Floating>>,
    pub p610: Pin<Input<Floating>>,
    pub p611: Pin<Input<Floating>>,
    pub p612: Pin<Input<Floating>>,
    pub p613: Pin<Input<Floating>>,
    pub p614: Pin<Input<Floating>>,
    pub p615: Pin<Input<Floating>>,
}

impl Port6 {
    /// Takes the port; fails when it was taken before.
    pub fn take(taken: &mut bool) -> (r: Result<Self, AlreadyTaken>)
        ensures
            *final(taken),
            r is Err <==> *old(taken),
            (r is Ok, *final(taken)) == crate::spec_claim(*old(taken)),
    {
        if *taken {
            Err(AlreadyTaken)
        } else {
            *taken = true;
            Ok(Port6 { _regs: () })
        }
    }

    /// Splits the port into its pins.
    pub fn split(self) -> (r: Pins)
        ensures
            r.p600.spec_port() == 6 && r.p600.spec_id() == 0 && r.p600.spec_caps() == (PinCaps { output: true, analog: false, irq: false, irq_edge: false, drive: true, alternate: true }),
            r.p601.spec_port() == 6 && r.p601.spec_id() == 1 && r.p601.spec_caps() == (PinCaps { output: true, analog: false, irq: false, irq_edge: false, drive: true, alternate: true }),
            r.p602.spec_port() == 6 && r.p602.spec_id() == 2 && r.p602.spec_caps() == (PinCaps { output: true, analog: false, irq: false, irq_edge: false, drive: true, alternate: true }),
            r.p603.spec_port() == 6 && r.p603.spec_id() == 3 && r.p603.spec_caps() == (PinCaps { output: true, analog: false, irq: false, irq_edge: false, drive: true, alternate: true }),
            r.p604.spec_port() == 6 && r.p604.spec_id() == 4 && r.p604.spec_caps() == (PinCaps { output: true, analog: false, irq: false, irq_edge: false, drive: true, alternate: true }),
            r.p605.spec_port() == 6 && r.p605.spec_id() == 5 && r.p605.spec_caps() == (PinCaps { output: true, analog: false, irq: false, irq_edge: false, drive: true, alternate: true }),
            r.p606.spec_port() == 6 && r.p606.spec_id() == 6 && r.p606.spec_caps() == (PinCaps { output: true, analog: false, irq: false, irq_edge: false, drive: true, alternate: true }),
            r.p607.spec_port() == 6 && r.p607.spec_id() == 7 && r.p607.spec_caps() == (PinCaps { output: true, analog: false, irq: false, irq_edge: false, drive: true, alternate: true }),
            r.p608.spec_port() == 6 && r.p608.spec_id() == 8 && r.p608.spec_caps() == (PinCaps { output: true, analog: false, irq: false, irq_edge: false, drive: true, alternate: true }),
            r.p609.spec_port() == 6 && r.p609.spec_id() == 9 && r.p609.spec_caps() == (PinCaps { output: true, analog: false, irq: false, irq_edge: false, drive: true, alternate: true }),
            r.p610.spec_port() == 6 && r.p610.spec_id() == 10 && r.p610.spec_caps() == (PinCaps { output: true, analog: false, irq: false, irq_edge: false, drive: true, alternate: true }),
            r.p611.spec_port() == 6 && r.p611.spec_id() == 11 && r.p611.spec_caps() == (PinCaps { output: true, analog: false, irq: false, irq_edge: false, drive: true, alternate: true }),
            r.p612.spec_port() == 6 && r.p612.spec_id() == 12 && r.p612.spec_caps() == (PinCaps { output: true, analog: false, irq: false, irq_edge: false, drive: true, alternate: true }),
            r.p613.spec_port() == 6 && r.p613.spec_id() == 13 && r.p613.spec_caps() == (PinCaps { output: true, analog: false, irq: false, irq_edge: false, drive: true, alternate: true }),
            r.p614.spec_port() == 6 && r.p614.spec_id() == 14 && r.p614.spec_caps() == (PinCaps { output: true, analog: false, irq: false, irq_edge: false, drive: true, alternate: true }),
            r.p615.spec_port() == 6 && r.p615.spec_id() == 15 && r.p615.spec_caps() == (PinCaps { output: true, analog: false, irq: true, irq_edge: false, drive: true, alternate: true }),
    {
        Pins {
            p600: Pin::new(6, 0, PinCaps { output: true, analog: false, irq: false, irq_edge: false, drive: true, alternate: true }),
            p601: Pin::new(6, 1, PinCaps { output: true, analog: false, irq: false, irq_edge: false, drive: true, alternate: true }),
            p602: Pin::new(6, 2, PinCaps { output: true, analog: false, irq: false, irq_edge: false, drive: true, alternate: true }),
            p603: Pin::new(6, 3, PinCaps { output: true, analog: false, irq: false, irq_edge: false, drive: true, alternate: true }),
            p604: Pin::new(6, 4, PinCaps { output: true, analog: false, irq: false, irq_edge: false, drive: true, alternate: true }),
            p605: Pin::new(6, 5, PinCaps { output: true, analog: false, irq: false, irq_edge: false, drive: true, alternate: true }),
            p606: Pin::new(6, 6, PinCaps { output: true, analog: false, irq: false, irq_edge: false, drive: true, alternate: true }),
            p607: Pin::new(6, 7, PinCaps { output: true, analog: false, irq: false, irq_edge: false, drive: true, alternate: true }),
            p608: Pin::new(6, 8, PinCaps { output: true, analog: false, irq: false, irq_edge: false, drive: true, alternate: true }),
            p609: Pin::new(6, 9, PinCaps { output: true, analog: false, irq: false, irq_edge: false, drive: true, alternate: true }),
            p610: Pin::new(6, 10, PinCaps { output: true, analog: false, irq: false, irq_edge: false, drive: true, alternate: true }),
            p611: Pin::new(6, 11, PinCaps { output: true, analog: false, irq: false, irq_edge: false, drive: true, alternate: true }),
            p612: Pin::new(6, 12, PinCaps { output: true, analog: false, irq: false, irq_edge: false, drive: true, alternate: true }),
            p613: Pin::new(6, 13, PinCaps { output: true, analog: false, irq: false, irq_edge: false, drive: true, alternate: true }),
            p614: Pin::new(6, 14, PinCaps { output: true, analog: false, irq: false, irq_edge: false, drive: true, alternate: true }),
            p615: Pin::new(6, 15, PinCaps { output: true, analog: false, irq: true, irq_edge: false, drive: true, alternate: true }),
        }
    }
}

} // verus!
