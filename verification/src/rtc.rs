//! Realtime clock: only the state that the clock drivers consult.
use vstd::prelude::*;

use crate::{claim_once, InitError};

verus! {

/// The RTC register bit that the clock drivers read.
#[derive(Copy, Clone, Debug, PartialEq, Eq, Structural)]
pub struct RtcRegs {
    /// RCR2.START: the RTC counts.
    pub start: bool,
}

/// Handle of the realtime clock.
pub struct Rtc;

impl Rtc {
    /// Takes the realtime clock; fails when it was taken before.
    pub fn init(initialized: &mut bool) -> (r: Result<Rtc, InitError>)
        ensures
            *final(initialized),
            r is Err <==> *old(initialized),
            (r is Ok, *final(initialized)) == crate::spec_claim(*old(initialized)),
    {
        match claim_once(initialized) {
            Ok(()) => Ok(Rtc),
            Err(e) => Err(e),
        }
    }
}

} // verus!
