//! Port 7: its pins and their capabilities.
use vstd::prelude::*;

use crate::AlreadyTaken;
use super::{Floating, Input, Pin, PinCaps};

verus! {

/// Port 7; it can be taken once.
pub struct Port7 {
    _regs: (),
}

/// The pins of port 7, each a floating input.
pub struct Pins {
    pub p700: Pin<Input<Floating>>,
    pub p701: Pin<Input<Floating>>,
    pub p702: Pin<Input<Floating>>,
    pub p703: Pin<Input<Floating>>,
    pub p704: Pin<Input<Floating>>,
    pub p705: Pin<Input<Floating>>,
    pub p706: Pin<Input<Floating>>,
    pub p707: Pin<Input<Floating>>,
    pub p708: Pin<Input<Floating>>,
    pub p709: Pin<Input<Floating>>,
    pub p710: Pin<Input<Floating>>,
    pub p711: Pin<Input<Floating>>,
    pub p712: Pin<Input<Floating>>,
    pub p713: Pin<Input<Floating>>,
}

impl Port7 {
    /// Takes the port; fails when it was taken before.
    pub fn take(taken: &mut bool) -> (r: Result<Self, AlreadyTaken>)
        ensures
            *final(taken),
            r is Err <==> *old(taken),
            (r is Ok, *final(taken)) == crate::spec_claim(*old(taken)),
    {
        if *taken {
            Err(AlreadyTaken)
        } else {
            *taken = true;
            Ok(Port7 { _regs: () })
        }
    }

    /// Splits the port into its pins.
    pub fn split(self) -> (r: Pins)
        ensures
            r.p700.spec_port() == 7 && r.p700.spec_id() == 0 && r.p700.spec_caps() == (PinCaps { output: true, analog: false, irq: false, irq_edge: false, drive: true, alternate: true }),
            r.p701.spec_port() == 7 && r.p701.spec_id() == 1 && r.p701.spec_caps() == (PinCaps { output: true, analog: false, irq: false, irq_edge: false, drive: true, alternate: true }),
            r.p702.spec_port() == 7 && r.p702.spec_id() == 2 && r.p702.spec_caps() == (PinCaps { output: true, analog: false, irq: false, irq_edge: false, drive: true, alternate: true }),
            r.p703.spec_port() == 7 && r.p703.spec_id() == 3 && r.p703.spec_caps() == (PinCaps { output: true, analog: false, irq: false, irq_edge: false, drive: true, alternate: true }),
            r.p704.spec_port() == 7 && r.p704.spec_id() == 4 && r.p704.spec_caps() == (PinCaps { output: true, analog: false, irq: false, irq_edge: false, drive: true, alternate: true }),
            r.p705.spec_port() == 7 && r.p705.spec_id() == 5 && r.p705.spec_caps() == (PinCaps { output: true, analog: false, irq: false, irq_edge: false, drive: true, alternate: true }),
            r.p706.spec_port() == 7 && r.p706.spec_id() == 6 && r.p706.spec_caps() == (PinCaps { output: true, analog: false, irq: true, irq_edge: false, drive: true, alternate: true }),
            r.p707.spec_port() == 7 && r.p707.spec_id() == 7 && r.p707.spec_caps() == (PinCaps { output: true, analog: false, irq: true, irq_edge: false, drive: true, alternate: true }),
            r.p708.spec_port() == 7 && r.p708.spec_id() == 8 && r.p708.spec_caps() == (PinCaps { output: true, analog: false, irq: true, irq_edge: false, drive: true, alternate: true }),
            r.p709.spec_port() == 7 && r.p709.spec_id() == 9 && r.p709.spec_caps() == (PinCaps { output: true, analog: false, irq: true, irq_edge: false, drive: true, alternate: true }),
            r.p710.spec_port() == 7 && r.p710.spec_id() == 10 && r.p710.spec_caps() == (PinCaps { output: true, analog: false, irq: false, irq_edge: false, drive: true, alternate: true }),
            r.p711.spec_port() == 7 && r.p711.spec_id() == 11 && r.p711.spec_caps() == (PinCaps { output: true, analog: false, irq: false, irq_edge: false, drive: true, alternate: true }),
            r.p712.spec_port() == 7 && r.p712.spec_id() == 12 && r.p712.spec_caps() == (PinCaps { output: true, analog: false, irq: false, irq_edge: false, drive: true, alternate: true }),
            r.p713.spec_port() == 7 && r.p713.spec_id() == 13 && r.p713.spec_caps() == (PinCaps { output: true, analog: false, irq: false, irq_edge: false, drive: true, alternate: true }),
    {
        Pins {
            p700: Pin::new(7, 0, PinCaps { output: true, analog: false, irq: false, irq_edge: false, drive: true, alternate: true }),
            p701: Pin::new(7, 1, PinCaps { output: true, analog: false, irq: false, irq_edge: false, drive: true, alternate: true }),
            p702: Pin::new(7, 2, PinCaps { output: true, analog: false, irq: false, irq_edge: false, drive: true, alternate: true }),
            p703: Pin::new(7, 3, PinCaps { output: true, analog: false, irq: false, irq_edge: false, drive: true, alternate: true }),
            p704: Pin::new(7, 4, PinCaps { output: true, analog: false, irq: false, irq_edge: false, drive: true, alternate: true }),
            p705: Pin::new(7, 5, PinCaps { output: true, analog: false, irq: false, irq_edge: false, drive: true, alternate: true }),
            p706: Pin::new(7, 6, PinCaps { output: true, analog: false, irq: true, irq_edge: false, drive: true, alternate: true }),
            p707: Pin::new(7, 7, PinCaps { output: true, analog: false, irq: true, irq_edge: false, drive: true, alternate: true }),
            p708: Pin::new(7, 8, PinCaps { output: true, analog: false, irq: true, irq_edge: false, drive: true, alternate: true }),
            p709: Pin::new(7, 9, PinCaps { output: true, analog: false, irq: true, irq_edge: false, drive: true, alternate: true }),
            p710: Pin::new(7, 10, PinCaps { output: true, analog: false, irq: false, irq_edge: false, drive: true, alternate: true }),
            p711: Pin::new(7, 11, PinCaps { output: true, analog: false, irq: false, irq_edge: false, drive: true, alternate: true }),
            p712: Pin::new(7, 12, PinCaps { output: true, analog: false, irq: false, irq_edge: false, drive: true, alternate: true }),
            p713: Pin::new(7, 13, PinCaps { output: true, analog: false, irq: false, irq_edge: false, drive: true, alternate: true }),
        }
    }
}

} // verus!
