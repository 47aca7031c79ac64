//! Port 4: its pins and their capabilities.
use vstd::prelude::*;

use crate::AlreadyTaken;
use super::{Floating, Input, Pin, PinCaps};

verus! {

/// Port 4; it can be taken once.
pub struct Port4 {
    _regs: (),
}

/// The pins of port 4, each a floating input.
pub struct Pins {
    pub p400: Pin<Input<Floating>>,
    pub p401: Pin<Input<Floating>>,
    pub p402: Pin<Input<Floating>>,
    pub p403: Pin<Input<Floating>>,
    pub p404: Pin<Input<Floating>>,
    pub p405: Pin<Input<Floating>>,
    pub p406: Pin<Input<Floating>>,
    pub p407: Pin<Input<Floating>>,
    pub p408: Pin<Input<Floating>>,
    pub p409: Pin<Input<Floating>>,
    pub p410: Pin<Input<Floating>>,
    pub p411: Pin<Input<Floating>>,
    pub p412: Pin<Input<Floating>>,
    pub p413: Pin<Input<Floating>>,
    pub p414: Pin<Input<Floating>>,
    pub p415: Pin<Input<Floating>>,
}

impl Port4 {
    /// Takes the port; fails when it was taken before.
    pub fn take(taken: &mut bool) -> (r: Result<Self, AlreadyTaken>)
        ensures
            *final(taken),
            r is Err <==> *old(taken),
            (r is Ok, *final(taken)) == crate::spec_claim(*old(taken)),
    {
        if *taken {
            Err(AlreadyTaken)
        } else {
            *taken = true;
            Ok(Port4 { _regs: () })
        }
    }

    /// Splits the port into its pins.
    pub fn split(self) -> (r: Pins)
        ensures
            r.p400.spec_port() == 4 && r.p400.spec_id() == 0 && r.p400.spec_caps() == (PinCaps { output: true, analog: false, irq: false, irq_edge: true, drive: true, alternate: true }),
            r.p401.spec_port() == 4 && r.p401.spec_id() == 1 && r.p401.spec_caps() == (PinCaps { output: true, analog: false, irq: false, irq_edge: true, drive: true, alternate: true }),
            r.p402.spec_port() == 4 && r.p402.spec_id() == 2 && r.p402.spec_caps() == (PinCaps { output: true, analog: false, irq: false, irq_edge: true, drive: true, alternate: true }),
            r.p403.spec_port() == 4 && r.p403.spec_id() == 3 && r.p403.spec_caps() == (PinCaps { output: true, analog: false, irq: false, irq_edge: true, drive: true, alternate: true }),
            r.p404.spec_port() == 4 && r.p404.spec_id() == 4 && r.p404.spec_caps() == (PinCaps { output: true, analog: false, irq: false, irq_edge: true, drive: true, alternate: true }),
            r.p405.spec_port() == 4 && r.p405.spec_id() == 5 && r.p405.spec_caps() == (PinCaps { output: true, analog: false, irq: false, irq_edge: false, drive: true, alternate: true }),
            r.p406.spec_port() == 4 && r.p406.spec_id() == 6 && r.p406.spec_caps() == (PinCaps { output: true, analog: false, irq: false, irq_edge: false, drive: true, alternate: true }),
            r.p407.spec_port() == 4 && r.p407.spec_id() == 7 && r.p407.spec_caps() == (PinCaps { output: true, analog: false, irq: false, irq_edge: false, drive: true, alternate: true }),
            r.p408.spec_port() == 4 && r.p408.spec_id() == 8 && r.p408.spec_caps() == (PinCaps { output: true, analog: false, irq: false, irq_edge: true, drive: true, alternate: true }),
            r.p409.spec_port() == 4 && r.p409.spec_id() == 9 && r.p409.spec_caps() == (PinCaps { output: true, analog: false, irq: false, irq_edge: true, drive: true, alternate: true }),
            r.p410.spec_port() == 4 && r.p410.spec_id() == 10 && r.p410.spec_caps() == (PinCaps { output: true, analog: false, irq: false, irq_edge: true, drive: true, alternate: true }),
            r.p411.spec_port() == 4 && r.p411.spec_id() == 11 && r.p411.spec_caps() == (PinCaps { output: true, analog: false, irq: false, irq_edge: true, drive: true, alternate: true }),
            r.p412.spec_port() == 4 && r.p412.spec_id() == 12 && r.p412.spec_caps() == (PinCaps { output: true, analog: false, irq: false, irq_edge: false, drive: true, alternate: true }),
            r.p413.spec_port() == 4 && r.p413.spec_id() == 13 && r.p413.spec_caps() == (PinCaps { output: true, analog: false, irq: false, irq_edge: false, drive: true, alternate: true }),
            r.p414.spec_port() == 4 && r.p414.spec_id() == 14 && r.p414.spec_caps() == (PinCaps { output: true, analog: false, irq: false, irq_edge: true, drive: true, alternate: true }),
            r.p415.spec_port() == 4 && r.p415.spec_id() == 15 && r.p415.spec_caps() == (PinCaps { output: true, analog: false, irq: false, irq_edge: true, drive: true, alternate: true }),
    {
        Pins {
            p400: Pin::new(4, 0, PinCaps { output: true, analog: false, irq: false, irq_edge: true, drive: true, alternate: true }),
            p401: Pin::new(4, 1, PinCaps { output: true, analog: false, irq: false, irq_edge: true, drive: true, alternate: true }),
            p402: Pin::new(4, 2, PinCaps { output: true, analog: false, irq: false, irq_edge: true, drive: true, alternate: true }),
            p403: Pin::new(4, 3, PinCaps { output: true, analog: false, irq: false, irq_edge: true, drive: true, alternate: true }),
            p404: Pin::new(4, 4, PinCaps { output: true, analog: false, irq: false, irq_edge: true, drive: true, alternate: true }),
            p405: Pin::new(4, 5, PinCaps { output: true, analog: false, irq: false, irq_edge: false, drive: true, alternate: true }),
            p406: Pin::new(4, 6, PinCaps { output: true, analog: false, irq: false, irq_edge: false, drive: true, alternate: true }),
            p407: Pin::new(4, 7, PinCaps { output: true, analog: false, irq: false, irq_edge: false, drive: true, alternate: true }),
            p408: Pin::new(4, 8, PinCaps { output: true, analog: false, irq: false, irq_edge: true, drive: true, alternate: true }),
            p409: Pin::new(4, 9, PinCaps { output: true, analog: false, irq: false, irq_edge: true, drive: true, alternate: true }),
            p410: Pin::new(4, 10, PinCaps { output: true, analog: false, irq: false, irq_edge: true, drive: true, alternate: true }),
            p411: Pin::new(4, 11, PinCaps { output: true, analog: false, irq: false, irq_edge: true, drive: true, alternate: true }),
            p412: Pin::new(4, 12, PinCaps { output: true, analog: false, irq: false, irq_edge: false, drive: true, alternate: true }),
            p413: Pin::new(4, 13, PinCaps { output: true, analog: false, irq: false, irq_edge: false, drive: true, alternate: true }),
            p414: Pin::new(4, 14, PinCaps { output: true, analog: false, irq: false, irq_edge: true, drive: true, alternate: true }),
            p415: Pin::new(4, 15, PinCaps { output: true, analog: false, irq: false, irq_edge: true, drive: true, alternate: true }),
        }
    }
}

} // verus!
