//! Module stop control (MSTP).
use vstd::prelude::*;

use crate::{claim_once, InitError};

verus! {

/// The MSTP register bits that the drivers read and write (`true` stops the module).
#[derive(Copy, Clone, Debug, PartialEq, Eq, Structural)]
pub struct MstpRegs {
    /// MSTPCRB.MSTPB11: USBFS
    pub mstpb11: bool,
    /// MSTPCRB.MSTPB12: USBHS
    pub mstpb12: bool,
    /// MSTPCRC.MSTPC31: CANFD
    pub mstpc31: bool,
}

/// Handle of the module-stop controller.
pub struct Mstp {
    _id: (),
}

impl Mstp {
    pub(crate) fn new() -> Self {
        Mstp { _id: () }
    }

    /// Takes the module-stop controller; fails when it was taken before.
    pub fn init(initialized: &mut bool) -> (r: Result<Mstp, InitError>)
        ensures
            *final(initialized),
            r is Err <==> *old(initialized),
            (r is Ok, *final(initialized)) == crate::spec_claim(*old(initialized)),
    {
        match claim_once(initialized) {
            Ok(()) => Ok(Mstp::new()),
            Err(e) => Err(e),
        }
    }
}

} // verus!
