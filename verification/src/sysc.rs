//! System control (SYSC): the register model and the clock-write protection.
use vstd::prelude::*;

use crate::{claim_once, InitError};
use crate::mstp::Mstp;

pub mod clock;

verus! {

/// SCKSCR and SCKDIVCR: the system clock source and dividers (raw field values).
#[derive(Copy, Clone, Debug, PartialEq, Eq, Structural)]
pub struct SckRegs {
    /// SCKSCR.CKSEL
    pub cksel: u8,
    pub pckd: u8,
    pub pckc: u8,
    pub pckb: u8,
    pub pcka: u8,
    pub bck: u8,
    pub ick: u8,
    pub fck: u8,
}

/// OSTDCR.OSTDIE, OSTDCR.OSTDE and OSTDSR.OSTDF.
#[derive(Copy, Clone, Debug, PartialEq, Eq, Structural)]
pub struct OstdRegs {
    pub ostdie: bool,
    pub ostde: bool,
    pub ostdf: bool,
}

/// A PLL: its control register (stop bit), its clock control register (input
/// division, source, multiplication) and its stabilization flag in OSCSF.
#[derive(Copy, Clone, Debug, PartialEq, Eq, Structural)]
pub struct PllRegs {
    pub stp: bool,
    pub idiv: u8,
    pub srcsel: u8,
    pub mul: u8,
    pub sf: bool,
}

/// MOSCCR.MOSTP, OSCSF.MOSCSF, MOMCR.MODRV / MOSEL, MOSCWTCR.MSTS.
#[derive(Copy, Clone, Debug, PartialEq, Eq, Structural)]
pub struct MoscRegs {
    pub mostp: bool,
    pub moscsf: bool,
    pub modrv: u8,
    pub mosel: u8,
    pub msts: u8,
}

/// SOSCCR.SOSTP and SOMCR.SODRV.
#[derive(Copy, Clone, Debug, PartialEq, Eq, Structural)]
pub struct SoscRegs {
    pub sostp: bool,
    pub sodrv: u8,
}

/// HOCOCR.HCSTP, OSCSF.HOCOSF, HOCOCR2.HCFRQ0, FLLCR1.FLLEN, FLLCR2.FLLCNTL and
/// HOCOUTCR.HOCOUTRM.
#[derive(Copy, Clone, Debug, PartialEq, Eq, Structural)]
pub struct HocoRegs {
    pub hcstp: bool,
    pub hocosf: bool,
    pub hcfrq0: u8,
    pub fllen: bool,
    pub fllcntl: u16,
    pub hocoutrm: u8,
}

/// MOCOCR.MCSTP and MOCOUTCR.MOCOUTRM.
#[derive(Copy, Clone, Debug, PartialEq, Eq, Structural)]
pub struct MocoRegs {
    pub mcstp: bool,
    pub mocoutrm: u8,
}

/// LOCOCR.LCSTP and LOCOUTCR.LOCOUTRM.
#[derive(Copy, Clone, Debug, PartialEq, Eq, Structural)]
pub struct LocoRegs {
    pub lcstp: bool,
    pub locoutrm: u8,
}

/// EBCKOCR.EBCKOEN and BCKCR.BCLKDIV.
#[derive(Copy, Clone, Debug, PartialEq, Eq, Structural)]
pub struct EbclkRegs {
    pub ebckoen: bool,
    pub bclkdiv: u8,
}

/// CKOCR.CKOEN / CKOSEL / CKODIV.
#[derive(Copy, Clone, Debug, PartialEq, Eq, Structural)]
pub struct CkoRegs {
    pub ckoen: bool,
    pub ckosel: u8,
    pub ckodiv: u8,
}

/// A peripheral clock with a switching request: its control register's source
/// selection and request bit, and its division register.
#[derive(Copy, Clone, Debug, PartialEq, Eq, Structural)]
pub struct PeriphClkRegs {
    pub sel: u8,
    pub sreq: bool,
    pub div: u8,
}

/// TRCKCR.TRCKEN / TRCK.
#[derive(Copy, Clone, Debug, PartialEq, Eq, Structural)]
pub struct TrckRegs {
    pub trcken: bool,
    pub trck: u8,
}

/// The SYSC register fields that the clock drivers read and write.
///
/// A one-bit field is a `bool` (`true` for 1); a wider field holds its raw value.
#[derive(Copy, Clone, Debug, PartialEq, Eq, Structural)]
pub struct SyscRegs {
    /// PRCR bits 7..0 (PRC0, PRC1, PRC3, PRC4); the key byte is not stored.
    pub prcr: u8,
    pub sck: SckRegs,
    pub ostd: OstdRegs,
    /// PLLCR, PLLCCR, OSCSF.PLLSF
    pub pll: PllRegs,
    /// PLL2CR, PLL2CCR, OSCSF.PLL2SF
    pub pll2: PllRegs,
    pub mosc: MoscRegs,
    pub sosc: SoscRegs,
    pub hoco: HocoRegs,
    pub moco: MocoRegs,
    pub loco: LocoRegs,
    pub ebclk: EbclkRegs,
    pub cko: CkoRegs,
    /// USBCKCR, USBCKDIVCR
    pub usbck: PeriphClkRegs,
    /// OCTACKCR, OCTACKDIVCR
    pub octack: PeriphClkRegs,
    /// CANFDCKCR, CANFDCKDIVCR
    pub canfdck: PeriphClkRegs,
    /// USB60CKCR, USB60CKDIVCR
    pub usb60ck: PeriphClkRegs,
    /// CECCKCR, CECCKDIVCR
    pub cecck: PeriphClkRegs,
    pub trck: TrckRegs,
}

/// The value that a write of PRCR with the key and the given protection bits
/// stores: the key 0xA5 in the high byte.
pub open spec fn spec_prcr_write_value(bits: u8) -> u16 {
    (0xA500u16 | (bits as u16)) as u16
}

pub fn prcr_write_value(bits: u8) -> (v: u16)
    ensures
        v == spec_prcr_write_value(bits),
        v >> 8u16 == 0xA5u16,
        v & 0xFFu16 == bits as u16,
{
    let v: u16 = 0xA500u16 | (bits as u16);
    assert(v >> 8u16 == 0xA5u16 && v & 0xFFu16 == bits as u16) by (bit_vector)
        requires v == 0xA500u16 | (bits as u16);
    v
}

/// PRCR as it stands after the clock drivers write it: only PRC0 may be set,
/// the other protection bits are written as 0.
pub open spec fn spec_prc0_bits(enable: bool) -> u8 {
    if enable { 1 } else { 0 }
}

/// Writes PRCR with PRC0 = `enable` and every other protection bit 0.
pub fn prc0(regs: &mut SyscRegs, enable: bool)
    ensures
        *final(regs) == (SyscRegs { prcr: spec_prc0_bits(enable), ..*old(regs) }),
{
    regs.prcr = if enable { 1 } else { 0 };
}

/// Whether PRCR.PRC0 is set.
pub fn is_prc0(regs: &SyscRegs) -> (r: bool)
    ensures
        r == (regs.prcr & 1u8 == 1u8),
{
    regs.prcr & 1u8 == 1u8
}

/// Handle of the system controller.
pub struct Sysc;

impl Sysc {
    /// Takes the system controller and hands out its clock and module-stop drivers;
    /// fails when it was taken before.
    pub fn init(initialized: &mut bool) -> (r: Result<(clock::Clocks, Mstp), InitError>)
        ensures
            *final(initialized),
            r is Err <==> *old(initialized),
            (r is Ok, *final(initialized)) == crate::spec_claim(*old(initialized)),
            r matches Ok((c, _)) ==> c.is_initial(),
    {
        match claim_once(initialized) {
            Ok(()) => Ok((clock::Clocks::init(), Mstp::new())),
            Err(e) => Err(e),
        }
    }
}

} // verus!
