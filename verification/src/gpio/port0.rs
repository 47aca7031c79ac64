//! Port 0: its pins and their capabilities.
use vstd::prelude::*;

use crate::AlreadyTaken;
use super::{Floating, Input, Pin, PinCaps};

verus! {

/// Port 0; it can be taken once.
pub struct Port0 {
    _regs: (),
}

/// The pins of port 0, each a floating input.
pub struct Pins {
    pub p000: Pin<Input<Floating>>,
    pub p001: Pin<Input<Floating>>,
    pub p002: Pin<Input<Floating>>,
    pub p003: Pin<Input<Floating>>,
    pub p004: Pin<Input<Floating>>,
    pub p005: Pin<Input<Floating>>,
    pub p006: Pin<Input<Floating>>,
    pub p007: Pin<Input<Floating>>,
    pub p008: Pin<Input<Floating>>,
    pub p009: Pin<Input<Floating>>,
    pub p010: Pin<Input<Floating>>,
    pub p014: Pin<Input<Floating>>,
    pub p015: Pin<Input<Floating>>,
}

impl Port0 {
    /// Takes the port; fails when it was taken before.
    pub fn take(taken: &mut bool) -> (r: Result<Self, AlreadyTaken>)
        ensures
            *final(taken),
            r is Err <==> *old(taken),
            (r is Ok, *final(taken)) == crate::spec_claim(*old(taken)),
    {
        if *taken {
            Err(AlreadyTaken)
        } else {
            *taken = true;
            Ok(Port0 { _regs: () })
        }
    }

    /// Splits the port into its pins.
    pub fn split(self) -> (r: Pins)
        ensures
            r.p000.spec_port() == 0 && r.p000.spec_id() == 0 && r.p000.spec_caps() == (PinCaps { output: true, analog: true, irq: true, irq_edge: false, drive: false, alternate: false }),
            r.p001.spec_port() == 0 && r.p001.spec_id() == 1 && r.p001.spec_caps() == (PinCaps { output: true, analog: true, irq: true, irq_edge: false, drive: false, alternate: false }),
            r.p002.spec_port() == 0 && r.p002.spec_id() == 2 && r.p002.spec_caps() == (PinCaps { output: true, analog: true, irq: true, irq_edge: false, drive: false, alternate: false }),
            r.p003.spec_port() == 0 && r.p003.spec_id() == 3 && r.p003.spec_caps() == (PinCaps { output: true, analog: true, irq: false, irq_edge: false, drive: false, alternate: false }),
            r.p004.spec_port() == 0 && r.p004.spec_id() == 4 && r.p004.spec_caps() == (PinCaps { output: true, analog: true, irq: true, irq_edge: false, drive: false, alternate: false }),
            r.p005.spec_port() == 0 && r.p005.spec_id() == 5 && r.p005.spec_caps() == (PinCaps { output: true, analog: true, irq: true, irq_edge: false, drive: false, alternate: false }),
            r.p006.spec_port() == 0 && r.p006.spec_id() == 6 && r.p006.spec_caps() == (PinCaps { output: true, analog: true, irq: true, irq_edge: false, drive: false, alternate: false }),
            r.p007.spec_port() == 0 && r.p007.spec_id() == 7 && r.p007.spec_caps() == (PinCaps { output: true, analog: true, irq: false, irq_edge: false, drive: false, alternate: false }),
            r.p008.spec_port() == 0 && r.p008.spec_id() == 8 && r.p008.spec_caps() == (PinCaps { output: true, analog: true, irq: true, irq_edge: false, drive: false, alternate: false }),
            r.p009.spec_port() == 0 && r.p009.spec_id() == 9 && r.p009.spec_caps() == (PinCaps { output: true, analog: true, irq: true, irq_edge: false, drive: false, alternate: false }),
            r.p010.spec_port() == 0 && r.p010.spec_id() == 10 && r.p010.spec_caps() == (PinCaps { output: true, analog: true, irq: true, irq_edge: false, drive: false, alternate: false }),
            r.p014.spec_port() == 0 && r.p014.spec_id() == 14 && r.p014.spec_caps() == (PinCaps { output: true, analog: true, irq: false, irq_edge: false, drive: false, alternate: false }),
            r.p015.spec_port() == 0 && r.p015.spec_id() == 15 && r.p015.spec_caps() == (PinCaps { output: true, analog: true, irq: true, irq_edge: false, drive: false, alternate: false }),
    {
        Pins {
            p000: Pin::new(0, 0, PinCaps { output: true, analog: true, irq: true, irq_edge: false, drive: false, alternate: false }),
            p001: Pin::new(0, 1, PinCaps { output: true, analog: true, irq: true, irq_edge: false, drive: false, alternate: false }),
            p002: Pin::new(0, 2, PinCaps { output: true, analog: true, irq: true, irq_edge: false, drive: false, alternate: false }),
            p003: Pin::new(0, 3, PinCaps { output: true, analog: true, irq: false, irq_edge: false, drive: false, alternate: false }),
            p004: Pin::new(0, 4, PinCaps { output: true, analog: true, irq: true, irq_edge: false, drive: false, alternate: false }),
            p005: Pin::new(0, 5, PinCaps { output: true, analog: true, irq: true, irq_edge: false, drive: false, alternate: false }),
            p006: Pin::new(0, 6, PinCaps { output: true, analog: true, irq: true, irq_edge: false, drive: false, alternate: false }),
            p007: Pin::new(0, 7, PinCaps { output: true, analog: true, irq: false, irq_edge: false, drive: false, alternate: false }),
            p008: Pin::new(0, 8, PinCaps { output: true, analog: true, irq: true, irq_edge: false, drive: false, alternate: false }),
            p009: Pin::new(0, 9, PinCaps { output: true, analog: true, irq: true, irq_edge: false, drive: false, alternate: false }),
            p010: Pin::new(0, 10, PinCaps { output: true, analog: true, irq: true, irq_edge: false, drive: false, alternate: false }),
            p014: Pin::new(0, 14, PinCaps { output: true, analog: true, irq: false, irq_edge: false, drive: false, alternate: false }),
            p015: Pin::new(0, 15, PinCaps { output: true, analog: true, irq: true, irq_edge: false, drive: false, alternate: false }),
        }
    }
}

} // verus!
