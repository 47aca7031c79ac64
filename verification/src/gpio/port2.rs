//! Port 2: its pins and their capabilities.
use vstd::prelude::*;

use crate::AlreadyTaken;
use super::{Floating, Input, Pin, PinCaps};

verus! {

/// Port 2; it can be taken once.
pub struct Port2 {
    _regs: (),
}

/// The pins of port 2, each a floating input.
pub struct Pins {
    pub p200: Pin<Input<Floating>>,
    pub p201: Pin<Input<Floating>>,
    pub p202: Pin<Input<Floating>>,
    pub p203: Pin<Input<Floating>>,
    pub p204: Pin<Input<Floating>>,
    pub p205: Pin<Input<Floating>>,
    pub p206: Pin<Input<Floating>>,
    pub p207: Pin<Input<Floating>>,
    pub p208: Pin<Input<Floating>>,
    pub p209: Pin<Input<Floating>>,
    pub p210: Pin<Input<Floating>>,
    pub p211: Pin<Input<Floating>>,
    pub p212: Pin<Input<Floating>>,
    pub p213: Pin<Input<Floating>>,
    pub p214: Pin<Input<Floating>>,
}

impl Port2 {
    /// Takes the port; fails when it was taken before.
    pub fn take(taken: &mut bool) -> (r: Result<Self, AlreadyTaken>)
        ensures
            *final(taken),
            r is Err <==> *old(taken),
            (r is Ok, *final(taken)) == crate::spec_claim(*old(taken)),
    {
        if *taken {
            Err(AlreadyTaken)
        } else {
            *taken = true;
            Ok(Port2 { _regs: () })
        }
    }

    /// Splits the port into its pins.
    pub fn split(self) -> (r: Pins)
        ensures
            r.p200.spec_port() == 2 && r.p200.spec_id() == 0 && r.p200.spec_caps() == (PinCaps { output: false, analog: false, irq: false, irq_edge: false, drive: false, alternate: false }),
            r.p201.spec_port() == 2 && r.p201.spec_id() == 1 && r.p201.spec_caps() == (PinCaps { output: false, analog: false, irq: false, irq_edge: false, drive: false, alternate: false }),
            r.p202.spec_port() == 2 && r.p202.spec_id() == 2 && r.p202.spec_caps() == (PinCaps { output: true, analog: false, irq: false, irq_edge: true, drive: true, alternate: true }),
            r.p203.spec_port() == 2 && r.p203.spec_id() == 3 && r.p203.spec_caps() == (PinCaps { output: true, analog: false, irq: false, irq_edge: true, drive: true, alternate: true }),
            r.p204.spec_port() == 2 && r.p204.spec_id() == 4 && r.p204.spec_caps() == (PinCaps { output: true, analog: false, irq: false, irq_edge: false, drive: true, alternate: true }),
            r.p205.spec_port() == 2 && r.p205.spec_id() == 5 && r.p205.spec_caps() == (PinCaps { output: true, analog: false, irq: false, irq_edge: true, drive: true, alternate: true }),
            r.p206.spec_port() == 2 && r.p206.spec_id() == 6 && r.p206.spec_caps() == (PinCaps { output: true, analog: false, irq: false, irq_edge: true, drive: true, alternate: true }),
            r.p207.spec_port() == 2 && r.p207.spec_id() == 7 && r.p207.spec_caps() == (PinCaps { output: true, analog: false, irq: false, irq_edge: false, drive: true, alternate: true }),
            r.p208.spec_port() == 2 && r.p208.spec_id() == 8 && r.p208.spec_caps() == (PinCaps { output: true, analog: false, irq: false, irq_edge: false, drive: true, alternate: true }),
            r.p209.spec_port() == 2 && r.p209.spec_id() == 9 && r.p209.spec_caps() == (PinCaps { output: true, analog: false, irq: false, irq_edge: false, drive: true, alternate: true }),
            r.p210.spec_port() == 2 && r.p210.spec_id() == 10 && r.p210.spec_caps() == (PinCaps { output: true, analog: false, irq: false, irq_edge: false, drive: true, alternate: true }),
            r.p211.spec_port() == 2 && r.p211.spec_id() == 11 && r.p211.spec_caps() == (PinCaps { output: true, analog: false, irq: false, irq_edge: false, drive: true, alternate: true }),
            r.p212.spec_port() == 2 && r.p212.spec_id() == 12 && r.p212.spec_caps() == (PinCaps { output: true, analog: false, irq: false, irq_edge: false, drive: true, alternate: true }),
            r.p213.spec_port() == 2 && r.p213.spec_id() == 13 && r.p213.spec_caps() == (PinCaps { output: true, analog: false, irq: false, irq_edge: false, drive: true, alternate: true }),
            r.p214.spec_port() == 2 && r.p214.spec_id() == 14 && r.p214.spec_caps() == (PinCaps { output: true, analog: false, irq: false, irq_edge: false, drive: true, alternate: true }),
    {
        Pins {
            p200: Pin::new(2, 0, PinCaps { output: false, analog: false, irq: false, irq_edge: false, drive: false, alternate: false }),
            p201: Pin::new(2, 1, PinCaps { output: false, analog: false, irq: false, irq_edge: false, drive: false, alternate: false }),
            p202: Pin::new(2, 2, PinCaps { output: true, analog: false, irq: false, irq_edge: true, drive: true, alternate: true }),
            p203: Pin::new(2, 3, PinCaps { output: true, analog: false, irq: false, irq_edge: true, drive: true, alternate: true }),
            p204: Pin::new(2, 4, PinCaps { output: true, analog: false, irq: false, irq_edge: false, drive: true, alternate: true }),
            p205: Pin::new(2, 5, PinCaps { output: true, analog: false, irq: false, irq_edge: true, drive: true, alternate: true }),
            p206: Pin::new(2, 6, PinCaps { output: true, analog: false, irq: false, irq_edge: true, drive: true, alternate: true }),
            p207: Pin::new(2, 7, PinCaps { output: true, analog: false, irq: false, irq_edge: false, drive: true, alternate: true }),
            p208: Pin::new(2, 8, PinCaps { output: true, analog: false, irq: false, irq_edge: false, drive: true, alternate: true }),
            p209: Pin::new(2, 9, PinCaps { output: true, analog: false, irq: false, irq_edge: false, drive: true, alternate: true }),
            p210: Pin::new(2, 10, PinCaps { output: true, analog: false, irq: false, irq_edge: false, drive: true, alternate: true }),
            p211: Pin::new(2, 11, PinCaps { output: true, analog: false, irq: false, irq_edge: false, drive: true, alternate: true }),
            p212: Pin::new(2, 12, PinCaps { output: true, analog: false, irq: false, irq_edge: false, drive: true, alternate: true }),
            p213: Pin::new(2, 13, PinCaps { output: true, analog: false, irq: false, irq_edge: false, drive: true, alternate: true }),
            p214: Pin::new(2, 14, PinCaps { output: true, analog: false, irq: false, irq_edge: false, drive: true, alternate: true }),
        }
    }
}

} // verus!
