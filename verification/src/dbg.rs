//! Debug unit: only the state that the trace clock consults.
use vstd::prelude::*;

use crate::{claim_once, InitError};

verus! {

/// The DBG register bit that the trace clock reads.
#[derive(Copy, Clone, Debug, PartialEq, Eq, Structural)]
pub struct DbgRegs {
    /// DBGSTR.CDBGPWRUPREQ: a debugger requests power-up.
    pub cdbgpwrupreq: bool,
}

/// Handle of the debug unit.
pub struct Dbg;

impl Dbg {
    /// Takes the debug unit; fails when it was taken before.
    pub fn init(initialized: &mut bool) -> (r: Result<Dbg, InitError>)
        ensures
            *final(initialized),
            r is Err <==> *old(initialized),
            (r is Ok, *final(initialized)) == crate::spec_claim(*old(initialized)),
    {
        match claim_once(initialized) {
            Ok(()) => Ok(Dbg),
            Err(e) => Err(e),
        }
    }
}

} // verus!
