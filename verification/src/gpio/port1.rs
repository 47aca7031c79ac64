//! Port 1: its pins and their capabilities.
use vstd::prelude::*;

use crate::AlreadyTaken;
use super::{Floating, Input, Pin, PinCaps};

verus! {

/// Port 1; it can be taken once.
pub struct Port1 {
    _regs: (),
}

/// The pins of port 1, each a floating input.
pub struct Pins {
    pub p100: Pin<Input<Floating>>,
    pub p101: Pin<Input<Floating>>,
    pub p102: Pin<Input<Floating>>,
    pub p103: Pin<Input<Floating>>,
    pub p104: Pin<Input<Floating>>,
    pub p105: Pin<Input<Floating>>,
    pub p106: Pin<Input<Floating>>,
    pub p107: Pin<Input<Floating>>,
    pub p108: Pin<Input<Floating>>,
    pub p109: Pin<Input<Floating>>,
    pub p110: Pin<Input<Floating>>,
    pub p111: Pin<Input<Floating>>,
    pub p112: Pin<Input<Floating>>,
    pub p113: Pin<Input<Floating>>,
    pub p114: Pin<Input<Floating>>,
    pub p115: Pin<Input<Floating>>,
}

impl Port1 {
    /// Takes the port; fails when it was taken before.
    pub fn take(taken: &mut bool) -> (r: Result<Self, AlreadyTaken>)
        ensures
            *final(taken),
            r is Err <==> *old(taken),
            (r is Ok, *final(taken)) == crate::spec_claim(*old(taken)),
    {
        if *taken {
            Err(AlreadyTaken)
        } else {
            *taken = true;
            Ok(Port1 { _regs: () })
        }
    }

    /// Splits the port into its pins.
    pub fn split(self) -> (r: Pins)
        ensures
            r.p100.spec_port() == 1 && r.p100.spec_id() == 0 && r.p100.spec_caps() == (PinCaps { output: true, analog: false, irq: false, irq_edge: true, drive: true, alternate: true }),
            r.p101.spec_port() == 1 && r.p101.spec_id() == 1 && r.p101.spec_caps() == (PinCaps { output: true, analog: false, irq: false, irq_edge: true, drive: true, alternate: true }),
            r.p102.spec_port() == 1 && r.p102.spec_id() == 2 && r.p102.spec_caps() == (PinCaps { output: true, analog: false, irq: false, irq_edge: false, drive: true, alternate: true }),
            r.p103.spec_port() == 1 && r.p103.spec_id() == 3 && r.p103.spec_caps() == (PinCaps { output: true, analog: false, irq: false, irq_edge: false, drive: true, alternate: true }),
            r.p104.spec_port() == 1 && r.p104.spec_id() == 4 && r.p104.spec_caps() == (PinCaps { output: true, analog: false, irq: false, irq_edge: true, drive: true, alternate: true }),
            r.p105.spec_port() == 1 && r.p105.spec_id() == 5 && r.p105.spec_caps() == (PinCaps { output: true, analog: false, irq: false, irq_edge: true, drive: true, alternate: true }),
            r.p106.spec_port() == 1 && r.p106.spec_id() == 6 && r.p106.spec_caps() == (PinCaps { output: true, analog: false, irq: false, irq_edge: false, drive: true, alternate: true }),
            r.p107.spec_port() == 1 && r.p107.spec_id() == 7 && r.p107.spec_caps() == (PinCaps { output: true, analog: false, irq: false, irq_edge: false, drive: true, alternate: true }),
            r.p108.spec_port() == 1 && r.p108.spec_id() == 8 && r.p108.spec_caps() == (PinCaps { output: true, analog: false, irq: false, irq_edge: false, drive: true, alternate: true }),
            r.p109.spec_port() == 1 && r.p109.spec_id() == 9 && r.p109.spec_caps() == (PinCaps { output: true, analog: false, irq: false, irq_edge: false, drive: true, alternate: true }),
            r.p110.spec_port() == 1 && r.p110.spec_id() == 10 && r.p110.spec_caps() == (PinCaps { output: true, analog: false, irq: false, irq_edge: true, drive: true, alternate: true }),
            r.p111.spec_port() == 1 && r.p111.spec_id() == 11 && r.p111.spec_caps() == (PinCaps { output: true, analog: false, irq: false, irq_edge: true, drive: true, alternate: true }),
            r.p112.spec_port() == 1 && r.p112.spec_id() == 12 && r.p112.spec_caps() == (PinCaps { output: true, analog: false, irq: false, irq_edge: false, drive: true, alternate: true }),
            r.p113.spec_port() == 1 && r.p113.spec_id() == 13 && r.p113.spec_caps() == (PinCaps { output: true, analog: false, irq: false, irq_edge: false, drive: true, alternate: true }),
            r.p114.spec_port() == 1 && r.p114.spec_id() == 14 && r.p114.spec_caps() == (PinCaps { output: true, analog: false, irq: false, irq_edge: false, drive: true, alternate: true }),
            r.p115.spec_port() == 1 && r.p115.spec_id() == 15 && r.p115.spec_caps() == (PinCaps { output: true, analog: false, irq: false, irq_edge: false, drive: true, alternate: true }),
    {
        Pins {
            p100: Pin::new(1, 0, PinCaps { output: true, analog: false, irq: false, irq_edge: true, drive: true, alternate: true }),
            p101: Pin::new(1, 1, PinCaps { output: true, analog: false, irq: false, irq_edge: true, drive: true, alternate: true }),
            p102: Pin::new(1, 2, PinCaps { output: true, analog: false, irq: false, irq_edge: false, drive: true, alternate: true }),
            p103: Pin::new(1, 3, PinCaps { output: true, analog: false, irq: false, irq_edge: false, drive: true, alternate: true }),
            p104: Pin::new(1, 4, PinCaps { output: true, analog: false, irq: false, irq_edge: true, drive: true, alternate: true }),
            p105: Pin::new(1, 5, PinCaps { output: true, analog: false, irq: false, irq_edge: true, drive: true, alternate: true }),
            p106: Pin::new(1, 6, PinCaps { output: true, analog: false, irq: false, irq_edge: false, drive: true, alternate: true }),
            p107: Pin::new(1, 7, PinCaps { output: true, analog: false, irq: false, irq_edge: false, drive: true, alternate: true }),
            p108: Pin::new(1, 8, PinCaps { output: true, analog: false, irq: false, irq_edge: false, drive: true, alternate: true }),
            p109: Pin::new(1, 9, PinCaps { output: true, analog: false, irq: false, irq_edge: false, drive: true, alternate: true }),
            p110: Pin::new(1, 10, PinCaps { output: true, analog: false, irq: false, irq_edge: true, drive: true, alternate: true }),
            p111: Pin::new(1, 11, PinCaps { output: true, analog: false, irq: false, irq_edge: true, drive: true, alternate: true }),
            p112: Pin::new(1, 12, PinCaps { output: true, analog: false, irq: false, irq_edge: false, drive: true, alternate: true }),
            p113: Pin::new(1, 13, PinCaps { output: true, analog: false, irq: false, irq_edge: false, drive: true, alternate: true }),
            p114: Pin::new(1, 14, PinCaps { output: true, analog: false, irq: false, irq_edge: false, drive: true, alternate: true }),
            p115: Pin::new(1, 15, PinCaps { output: true, analog: false, irq: false, irq_edge: false, drive: true, alternate: true }),
        }
    }
}

} // verus!
