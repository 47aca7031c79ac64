//! Flash cache: the flash wait-state setting (FLWT).
use vstd::prelude::*;

use crate::{claim_once, InitError, RegisterError};

verus! {

/// Number of flash wait cycles (FLWT.FLWT).
#[derive(Copy, Clone, Debug, PartialEq, Eq, Structural)]
pub enum FlashWait {
    Wait0,
    Wait1,
    Wait2,
    Wait3,
}

impl FlashWait {
    /// The field value of this setting.
    pub open spec fn spec_bits(self) -> u8 {
        match self {
            FlashWait::Wait0 => 0b000,
            FlashWait::Wait1 => 0b001,
            FlashWait::Wait2 => 0b010,
            FlashWait::Wait3 => 0b011,
        }
    }

    pub fn bits(self) -> (b: u8)
        ensures
            b == self.spec_bits(),
    {
        match self {
            FlashWait::Wait0 => 0b000,
            FlashWait::Wait1 => 0b001,
            FlashWait::Wait2 => 0b010,
            FlashWait::Wait3 => 0b011,
        }
    }

    pub fn from_u8(value: u8) -> (r: Option<Self>)
        ensures
            r matches Some(w) ==> w.spec_bits() == value,
            r is None <==> value > 0b011,
    {
        match value {
            0b000 => Some(FlashWait::Wait0),
            0b001 => Some(FlashWait::Wait1),
            0b010 => Some(FlashWait::Wait2),
            0b011 => Some(FlashWait::Wait3),
            _ => None,
        }
    }

    /// The wait setting that an ICLK frequency requires.
    pub open spec fn spec_from_iclk(iclk: u32) -> Option<FlashWait> {
        if iclk <= 50_000_000 {
            Some(FlashWait::Wait0)
        } else if iclk <= 100_000_000 {
            Some(FlashWait::Wait1)
        } else if iclk <= 150_000_000 {
            Some(FlashWait::Wait2)
        } else if iclk <= 200_000_000 {
            Some(FlashWait::Wait3)
        } else {
            None
        }
    }

    pub fn from_iclk(iclk: u32) -> (r: Option<Self>)
        ensures
            r == Self::spec_from_iclk(iclk),
    {
        if iclk <= 50_000_000 {
            Some(FlashWait::Wait0)
        } else if iclk <= 100_000_000 {
            Some(FlashWait::Wait1)
        } else if iclk <= 150_000_000 {
            Some(FlashWait::Wait2)
        } else if iclk <= 200_000_000 {
            Some(FlashWait::Wait3)
        } else {
            None
        }
    }
}

/// The FCACHE registers that this driver reads and writes.
#[derive(Copy, Clone, Debug, PartialEq, Eq, Structural)]
pub struct FcacheRegs {
    /// FLWT.FLWT
    pub flwt: u8,
}

/// Handle of the flash cache.
pub struct Fcache;

impl Fcache {
    /// Takes the flash cache; fails when it was taken before.
    pub fn init(initialized: &mut bool) -> (r: Result<Fcache, InitError>)
        ensures
            *final(initialized),
            r is Err <==> *old(initialized),
            (r is Ok, *final(initialized)) == crate::spec_claim(*old(initialized)),
    {
        match claim_once(initialized) {
            Ok(()) => Ok(Fcache),
            Err(e) => Err(e),
        }
    }

    pub fn get_flash_wait(&self, regs: &FcacheRegs) -> (r: Option<FlashWait>)
        ensures
            r matches Some(w) ==> w.spec_bits() == regs.flwt,
            r is None <==> regs.flwt > 0b011,
    {
        FlashWait::from_u8(regs.flwt)
    }

    pub fn set_flash_wait(&mut self, regs: &mut FcacheRegs, wait: FlashWait) -> (r: Result<(), RegisterError>)
        ensures
            r is Ok,
            final(regs).flwt == wait.spec_bits(),
    {
        regs.flwt = wait.bits();
        Ok(())
    }
}

/// A faster ICLK never needs fewer flash wait cycles.
pub proof fn lemma_flash_wait_monotonic(iclk1: u32, iclk2: u32)
    requires
        iclk1 <= iclk2,
        FlashWait::spec_from_iclk(iclk2) is Some,
    ensures
        FlashWait::spec_from_iclk(iclk1) is Some,
        FlashWait::spec_from_iclk(iclk1)->0.spec_bits() <= FlashWait::spec_from_iclk(iclk2)->0.spec_bits(),
{
}

} // verus!
