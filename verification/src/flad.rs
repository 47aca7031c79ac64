//! Flash interface: the FCLK frequency, in MHz, that flash programming is timed
//! with (FLAD.FCKMHZ).
use vstd::prelude::*;

verus! {

/// FLAD registers that the driver uses.
#[derive(Copy, Clone, Debug, PartialEq, Eq, Structural)]
pub struct FladRegs {
    /// FCKMHZ: FCLK frequency in MHz.
    pub fckmhz: u8,
}

/// The FCLK frequency, in MHz, that FCKMHZ holds.
pub fn current_fclk_mhz(regs: &FladRegs) -> (r: u8)
    ensures
        r == regs.fckmhz,
{
    regs.fckmhz
}

/// Sets FCKMHZ to `mhz` and reads it back.
pub fn set_fclk_mhz(regs: &mut FladRegs, mhz: u8) -> (r: u8)
    ensures
        *final(regs) == (FladRegs { fckmhz: mhz }),
        r == mhz,
{
    regs.fckmhz = mhz;
    current_fclk_mhz(regs)
}

} // verus!
