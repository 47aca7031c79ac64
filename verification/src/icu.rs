//! Interrupt controller unit (ICU).
use vstd::prelude::*;

use crate::{claim_once, InitError};

pub mod iel;

verus! {

/// Handle of the interrupt controller.
pub struct Icu;

impl Icu {
    /// Takes the interrupt controller and hands out its 96 event link channels;
    /// fails when it was taken before.
    pub fn init(initialized: &mut bool) -> (r: Result<iel::Iel, InitError>)
        ensures
            *final(initialized),
            r is Err <==> *old(initialized),
            (r is Ok, *final(initialized)) == crate::spec_claim(*old(initialized)),
            r matches Ok(iel) ==> iel.spec_channel_ids(),
    {
        match claim_once(initialized) {
            Ok(()) => Ok(iel::Iel::new()),
            Err(e) => Err(e),
        }
    }
}

/// An ICU event number that this driver knows.
#[allow(non_camel_case_types)]
#[derive(Copy, Clone, Debug, PartialEq, Eq, Structural)]
pub enum IcuEvent {
    Prohibited,
    USBFS0_D0FIFO,
    USBFS0_D1FIFO,
    USBFS0_USBI,
    USBFS0_USBR,
}

impl IcuEvent {
    /// The event number.
    pub open spec fn spec_bits(self) -> u32 {
        match self {
            IcuEvent::Prohibited => 0x000,
            IcuEvent::USBFS0_D0FIFO => 0x06b,
            IcuEvent::USBFS0_D1FIFO => 0x06c,
            IcuEvent::USBFS0_USBI => 0x06d,
            IcuEvent::USBFS0_USBR => 0x06e,
        }
    }

    pub fn bits(self) -> (b: u32)
        ensures
            b == self.spec_bits(),
    {
        match self {
            IcuEvent::Prohibited => 0x000,
            IcuEvent::USBFS0_D0FIFO => 0x06b,
            IcuEvent::USBFS0_D1FIFO => 0x06c,
            IcuEvent::USBFS0_USBI => 0x06d,
            IcuEvent::USBFS0_USBR => 0x06e,
        }
    }

    /// The DTC may serve the event: the USBFS FIFO events.
    pub open spec fn spec_is_dtc_allowed(self) -> bool {
        self == IcuEvent::USBFS0_D0FIFO || self == IcuEvent::USBFS0_D1FIFO
    }

    pub fn is_dtc_allowed(&self) -> (r: bool)
        ensures
            r == self.spec_is_dtc_allowed(),
    {
        match self {
            IcuEvent::USBFS0_D0FIFO | IcuEvent::USBFS0_D1FIFO => true,
            _ => false,
        }
    }

    pub open spec fn spec_from_u32(value: u32) -> Option<IcuEvent> {
        if value == 0x000 {
            Some(IcuEvent::Prohibited)
        } else if value == 0x06b {
            Some(IcuEvent::USBFS0_D0FIFO)
        } else if value == 0x06c {
            Some(IcuEvent::USBFS0_D1FIFO)
        } else if value == 0x06d {
            Some(IcuEvent::USBFS0_USBI)
        } else if value == 0x06e {
            Some(IcuEvent::USBFS0_USBR)
        } else {
            None
        }
    }

    pub fn from_u32(value: u32) -> (r: Option<Self>)
        ensures
            r == Self::spec_from_u32(value),
    {
        match value {
            0x000 => Some(IcuEvent::Prohibited),
            0x06b => Some(IcuEvent::USBFS0_D0FIFO),
            0x06c => Some(IcuEvent::USBFS0_D1FIFO),
            0x06d => Some(IcuEvent::USBFS0_USBI),
            0x06e => Some(IcuEvent::USBFS0_USBR),
            _ => None,
        }
    }
}

/// Linking a channel to an event and reading its link back gives the event, when
/// bit 8 of the channel's IELSR was clear: the link write keeps bits 31..8 as
/// they were and the read takes bits 8..0.
pub proof fn lemma_event_link_reads_back(old: u32, e: IcuEvent)
    requires
        old & 0x100 == 0,
    ensures
        IcuEvent::spec_from_u32((((old >> 8u32) << 8u32) | e.spec_bits()) & 0x1ff) == Some(e),
{
    let b = e.spec_bits();
    assert(b <= 0xff);
    assert((((old >> 8u32) << 8u32) | b) & 0x1ff == b) by (bit_vector)
        requires
            old & 0x100 == 0,
            b <= 0xff,
    ;
}

} // verus!
