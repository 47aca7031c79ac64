//! Port 3: its pins and their capabilities.
use vstd::prelude::*;

use crate::AlreadyTaken;
use super::{Floating, Input, Pin, PinCaps};

verus! {

/// Port 3; it can be taken once.
pub struct Port3 {
    _regs: (),
}

/// The pins of port 3, each a floating input.
pub struct Pins {
    pub p300: Pin<Input<Floating>>,
    pub p301: Pin<Input<Floating>>,
    pub p302: Pin<Input<Floating>>,
    pub p303: Pin<Input<Floating>>,
    pub p304: Pin<Input<Floating>>,
    pub p305: Pin<Input<Floating>>,
    pub p306: Pin<Input<Floating>>,
    pub p307: Pin<Input<Floating>>,
    pub p308: Pin<Input<Floating>>,
    pub p309: Pin<Input<Floating>>,
    pub p310: Pin<Input<Floating>>,
    pub p311: Pin<Input<Floating>>,
    pub p312: Pin<Input<Floating>>,
    pub p313: Pin<Input<Floating>>,
    pub p314: Pin<Input<Floating>>,
    pub p315: Pin<Input<Floating>>,
}

impl Port3 {
    /// Takes the port; fails when it was taken before.
    pub fn take(taken: &mut bool) -> (r: Result<Self, AlreadyTaken>)
        ensures
            *final(taken),
            r is Err <==> *old(taken),
            (r is Ok, *final(taken)) == crate::spec_claim(*old(taken)),
    {
        if *taken {
            Err(AlreadyTaken)
        } else {
            *taken = true;
            Ok(Port3 { _regs: () })
        }
    }

    /// Splits the port into its pins.
    pub fn split(self) -> (r: Pins)
        ensures
            r.p300.spec_port() == 3 && r.p300.spec_id() == 0 && r.p300.spec_caps() == (PinCaps { output: true, analog: false, irq: false, irq_edge: false, drive: true, alternate: true }),
            r.p301.spec_port() == 3 && r.p301.spec_id() == 1 && r.p301.spec_caps() == (PinCaps { output: true, analog: false, irq: false, irq_edge: true, drive: true, alternate: true }),
            r.p302.spec_port() == 3 && r.p302.spec_id() == 2 && r.p302.spec_caps() == (PinCaps { output: true, analog: false, irq: false, irq_edge: true, drive: true, alternate: true }),
            r.p303.spec_port() == 3 && r.p303.spec_id() == 3 && r.p303.spec_caps() == (PinCaps { output: true, analog: false, irq: false, irq_edge: false, drive: true, alternate: true }),
            r.p304.spec_port() == 3 && r.p304.spec_id() == 4 && r.p304.spec_caps() == (PinCaps { output: true, analog: false, irq: false, irq_edge: true, drive: true, alternate: true }),
            r.p305.spec_port() == 3 && r.p305.spec_id() == 5 && r.p305.spec_caps() == (PinCaps { output: true, analog: false, irq: false, irq_edge: true, drive: true, alternate: true }),
            r.p306.spec_port() == 3 && r.p306.spec_id() == 6 && r.p306.spec_caps() == (PinCaps { output: true, analog: false, irq: false, irq_edge: false, drive: true, alternate: true }),
            r.p307.spec_port() == 3 && r.p307.spec_id() == 7 && r.p307.spec_caps() == (PinCaps { output: true, analog: false, irq: false, irq_edge: false, drive: true, alternate: true }),
            r.p308.spec_port() == 3 && r.p308.spec_id() == 8 && r.p308.spec_caps() == (PinCaps { output: true, analog: false, irq: false, irq_edge: false, drive: true, alternate: true }),
            r.p309.spec_port() == 3 && r.p309.spec_id() == 9 && r.p309.spec_caps() == (PinCaps { output: true, analog: false, irq: false, irq_edge: false, drive: true, alternate: true }),
            r.p310.spec_port() == 3 && r.p310.spec_id() == 10 && r.p310.spec_caps() == (PinCaps { output: true, analog: false, irq: false, irq_edge: true, drive: true, alternate: true }),
            r.p311.spec_port() == 3 && r.p311.spec_id() == 11 && r.p311.spec_caps() == (PinCaps { output: true, analog: false, irq: false, irq_edge: false, drive: true, alternate: true }),
            r.p312.spec_port() == 3 && r.p312.spec_id() == 12 && r.p312.spec_caps() == (PinCaps { output: true, analog: false, irq: false, irq_edge: false, drive: true, alternate: true }),
            r.p313.spec_port() == 3 && r.p313.spec_id() == 13 && r.p313.spec_caps() == (PinCaps { output: true, analog: false, irq: false, irq_edge: false, drive: true, alternate: true }),
            r.p314.spec_port() == 3 && r.p314.spec_id() == 14 && r.p314.spec_caps() == (PinCaps { output: true, analog: false, irq: false, irq_edge: false, drive: true, alternate: true }),
            r.p315.spec_port() == 3 && r.p315.spec_id() == 15 && r.p315.spec_caps() == (PinCaps { output: true, analog: false, irq: false, irq_edge: false, drive: true, alternate: true }),
    {
        Pins {
            p300: Pin::new(3, 0, PinCaps { output: true, analog: false, irq: false, irq_edge: false, drive: true, alternate: true }),
            p301: Pin::new(3, 1, PinCaps { output: true, analog: false, irq: false, irq_edge: true, drive: true, alternate: true }),
            p302: Pin::new(3, 2, PinCaps { output: true, analog: false, irq: false, irq_edge: true, drive: true, alternate: true }),
            p303: Pin::new(3, 3, PinCaps { output: true, analog: false, irq: false, irq_edge: false, drive: true, alternate: true }),
            p304: Pin::new(3, 4, PinCaps { output: true, analog: false, irq: false, irq_edge: true, drive: true, alternate: true }),
            p305: Pin::new(3, 5, PinCaps { output: true, analog: false, irq: false, irq_edge: true, drive: true, alternate: true }),
            p306: Pin::new(3, 6, PinCaps { output: true, analog: false, irq: false, irq_edge: false, drive: true, alternate: true }),
            p307: Pin::new(3, 7, PinCaps { output: true, analog: false, irq: false, irq_edge: false, drive: true, alternate: true }),
            p308: Pin::new(3, 8, PinCaps { output: true, analog: false, irq: false, irq_edge: false, drive: true, alternate: true }),
            p309: Pin::new(3, 9, PinCaps { output: true, analog: false, irq: false, irq_edge: false, drive: true, alternate: true }),
            p310: Pin::new(3, 10, PinCaps { output: true, analog: false, irq: false, irq_edge: true, drive: true, alternate: true }),
            p311: Pin::new(3, 11, PinCaps { output: true, analog: false, irq: false, irq_edge: false, drive: true, alternate: true }),
            p312: Pin::new(3, 12, PinCaps { output: true, analog: false, irq: false, irq_edge: false, drive: true, alternate: true }),
            p313: Pin::new(3, 13, PinCaps { output: true, analog: false, irq: false, irq_edge: false, drive: true, alternate: true }),
            p314: Pin::new(3, 14, PinCaps { output: true, analog: false, irq: false, irq_edge: false, drive: true, alternate: true }),
            p315: Pin::new(3, 15, PinCaps { output: true, analog: false, irq: false, irq_edge: false, drive: true, alternate: true }),
        }
    }
}

} // verus!
