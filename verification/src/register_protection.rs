//! Register write protection (PRCR): each protected register group has one bit
//! that, while set, lets the group be written. A write of PRCR carries the key
//! 0xA5 in its high byte and keeps the other protection bits as read.
use vstd::prelude::*;

use crate::sysc::SyscRegs;

verus! {

/// PRC0: clock generation registers.
pub const PRC0: u8 = 0x01;
/// PRC1: low-power mode and battery backup registers.
pub const PRC1: u8 = 0x02;
/// PRC3: low-voltage detection registers.
pub const PRC3: u8 = 0x08;
/// PRC4: security registers.
pub const PRC4: u8 = 0x10;

/// PRCR bits with the bits of `mask` set (`enable`) or cleared.
pub open spec fn spec_prcr_with(prcr: u8, mask: u8, enable: bool) -> u8 {
    if enable { prcr | mask } else { prcr & !mask }
}

/// Some bit of `mask` is set in `prcr`.
pub open spec fn spec_prcr_enabled(prcr: u8, mask: u8) -> bool {
    prcr & mask != 0
}

fn write_bit(regs: &mut SyscRegs, mask: u8, enable: bool)
    ensures
        *final(regs) == (SyscRegs { prcr: spec_prcr_with(old(regs).prcr, mask, enable), ..*old(regs) }),
{
    regs.prcr = if enable { regs.prcr | mask } else { regs.prcr & !mask };
}

/// Sets or clears PRC0, leaving the other protection bits.
pub fn clock_write_enable(regs: &mut SyscRegs, enable: bool)
    ensures
        *final(regs) == (SyscRegs { prcr: spec_prcr_with(old(regs).prcr, PRC0, enable), ..*old(regs) }),
{
    write_bit(regs, PRC0, enable);
}

/// Whether PRC0 is set.
pub fn clock_write_is_enabled(regs: &SyscRegs) -> (r: bool)
    ensures
        r == spec_prcr_enabled(regs.prcr, PRC0),
{
    regs.prcr & PRC0 != 0
}

/// Sets or clears PRC1, leaving the other protection bits.
pub fn battery_write_enable(regs: &mut SyscRegs, enable: bool)
    ensures
        *final(regs) == (SyscRegs { prcr: spec_prcr_with(old(regs).prcr, PRC1, enable), ..*old(regs) }),
{
    write_bit(regs, PRC1, enable);
}

/// Whether PRC1 is set.
pub fn battery_write_is_enabled(regs: &SyscRegs) -> (r: bool)
    ensures
        r == spec_prcr_enabled(regs.prcr, PRC1),
{
    regs.prcr & PRC1 != 0
}

/// Sets or clears PRC3, leaving the other protection bits.
pub fn lvd_write_enable(regs: &mut SyscRegs, enable: bool)
    ensures
        *final(regs) == (SyscRegs { prcr: spec_prcr_with(old(regs).prcr, PRC3, enable), ..*old(regs) }),
{
    write_bit(regs, PRC3, enable);
}

/// Whether PRC3 is set.
pub fn lvd_write_is_enabled(regs: &SyscRegs) -> (r: bool)
    ensures
        r == spec_prcr_enabled(regs.prcr, PRC3),
{
    regs.prcr & PRC3 != 0
}

/// Sets or clears PRC4, leaving the other protection bits.
pub fn security_write_enable(regs: &mut SyscRegs, enable: bool)
    ensures
        *final(regs) == (SyscRegs { prcr: spec_prcr_with(old(regs).prcr, PRC4, enable), ..*old(regs) }),
{
    write_bit(regs, PRC4, enable);
}

/// Whether PRC4 is set.
pub fn security_write_is_enabled(regs: &SyscRegs) -> (r: bool)
    ensures
        r == spec_prcr_enabled(regs.prcr, PRC4),
{
    regs.prcr & PRC4 != 0
}

/// Setting or clearing one protection bit makes its query answer accordingly and
/// leaves what every other protection bit answers.
pub proof fn lemma_protection_bit_independent(prcr: u8, enable: bool)
    ensures
        spec_prcr_enabled(spec_prcr_with(prcr, PRC0, enable), PRC0) == enable,
        spec_prcr_enabled(spec_prcr_with(prcr, PRC1, enable), PRC1) == enable,
        spec_prcr_enabled(spec_prcr_with(prcr, PRC3, enable), PRC3) == enable,
        spec_prcr_enabled(spec_prcr_with(prcr, PRC4, enable), PRC4) == enable,
        spec_prcr_enabled(spec_prcr_with(prcr, PRC0, enable), PRC1) == spec_prcr_enabled(prcr, PRC1),
        spec_prcr_enabled(spec_prcr_with(prcr, PRC0, enable), PRC3) == spec_prcr_enabled(prcr, PRC3),
        spec_prcr_enabled(spec_prcr_with(prcr, PRC0, enable), PRC4) == spec_prcr_enabled(prcr, PRC4),
        spec_prcr_enabled(spec_prcr_with(prcr, PRC1, enable), PRC0) == spec_prcr_enabled(prcr, PRC0),
        spec_prcr_enabled(spec_prcr_with(prcr, PRC3, enable), PRC0) == spec_prcr_enabled(prcr, PRC0),
        spec_prcr_enabled(spec_prcr_with(prcr, PRC4, enable), PRC0) == spec_prcr_enabled(prcr, PRC0),
{
    assert(
        ((prcr | 1) & 1 != 0) && ((prcr & !1u8) & 1 == 0)
        && ((prcr | 2) & 2 != 0) && ((prcr & !2u8) & 2 == 0)
        && ((prcr | 8) & 8 != 0) && ((prcr & !8u8) & 8 == 0)
        && ((prcr | 16) & 16 != 0) && ((prcr & !16u8) & 16 == 0)
        && (((prcr | 1) & 2 != 0) == (prcr & 2 != 0)) && (((prcr & !1u8) & 2 != 0) == (prcr & 2 != 0))
        && (((prcr | 1) & 8 != 0) == (prcr & 8 != 0)) && (((prcr & !1u8) & 8 != 0) == (prcr & 8 != 0))
        && (((prcr | 1) & 16 != 0) == (prcr & 16 != 0)) && (((prcr & !1u8) & 16 != 0) == (prcr & 16 != 0))
        && (((prcr | 2) & 1 != 0) == (prcr & 1 != 0)) && (((prcr & !2u8) & 1 != 0) == (prcr & 1 != 0))
        && (((prcr | 8) & 1 != 0) == (prcr & 1 != 0)) && (((prcr & !8u8) & 1 != 0) == (prcr & 1 != 0))
        && (((prcr | 16) & 1 != 0) == (prcr & 1 != 0)) && (((prcr & !16u8) & 1 != 0) == (prcr & 1 != 0))
    ) by (bit_vector);
}

} // verus!
