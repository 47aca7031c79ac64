//! Option-setting memory OFS1.
use vstd::prelude::*;

use crate::{claim_once, InitError};

verus! {

/// Handle of the option-setting memory OFS1.
pub struct Ofs1;

impl Ofs1 {
    /// Takes OFS1; fails when it was taken before.
    pub fn init(initialized: &mut bool) -> (r: Result<Ofs1, InitError>)
        ensures
            *final(initialized),
            r is Err <==> *old(initialized),
            (r is Ok, *final(initialized)) == crate::spec_claim(*old(initialized)),
    {
        match claim_once(initialized) {
            Ok(()) => Ok(Ofs1),
            Err(e) => Err(e),
        }
    }
}

} // verus!
