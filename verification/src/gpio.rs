//! General-purpose I/O: pin function selection (PmnPFS), pin modes and the ports.
//!
//! A pin's whole state is its 32-bit PmnPFS register: the output latch (PODR),
//! the input level (PIDR), the direction, pull-up, drive and function fields. The
//! pin drivers take that register's value and return the value it is to hold.
//! An output pin is driven high or low by a single-bit write to its port's POSR
//! or PORR, which the drivers return; PODR then reads the new latch.
use vstd::prelude::*;

use core::marker::PhantomData;

pub mod port0;
pub mod port1;
pub mod port2;
pub mod port3;
pub mod port4;
pub mod port5;
pub mod port6;
pub mod port7;
pub mod port8;
pub mod port9;
pub mod porta;
pub mod portb;

verus! {

pub const PFS_BASE: u32 = 0x40080800;

/// Pin mode: input with a pull configuration.
pub struct Input<F>(PhantomData<F>);

/// Pin mode: output with a drive configuration.
pub struct Output<D>(PhantomData<D>);

/// Pin mode: analog input.
pub struct Analog;

/// Pin mode: event input.
pub struct EventInput<E>(PhantomData<E>);

/// Pin mode: a peripheral function.
pub struct Alternate;

pub struct Floating;

pub struct PullUp;

pub struct PushPull;

pub struct OpenDrain;

pub struct Rising;

pub struct Falling;

pub struct Both;

/// Output data (PmnPFS.PODR).
#[derive(Copy, Clone, Debug, PartialEq, Eq, Structural)]
pub enum Podr {
    Low,
    High,
}

impl Podr {
    pub open spec fn spec_bits(self) -> u32 {
        match self {
            Podr::Low => 0x0,
            Podr::High => 0x1,
        }
    }

    pub fn bits(self) -> (b: u32)
        ensures
            b == self.spec_bits(),
    {
        match self {
            Podr::Low => 0x0,
            Podr::High => 0x1,
        }
    }
}

/// Direction (PmnPFS.PDR).
#[derive(Copy, Clone, Debug, PartialEq, Eq, Structural)]
pub enum Pdr {
    Input,
    Output,
}

impl Pdr {
    pub open spec fn spec_bits(self) -> u32 {
        match self {
            Pdr::Input => 0x0,
            Pdr::Output => 0x1,
        }
    }

    pub fn bits(self) -> (b: u32)
        ensures
            b == self.spec_bits(),
    {
        match self {
            Pdr::Input => 0x0,
            Pdr::Output => 0x1,
        }
    }
}

/// Pull-up control (PmnPFS.PCR): 0 enables the pull-up.
#[derive(Copy, Clone, Debug, PartialEq, Eq, Structural)]
pub enum Pcr {
    Enable,
    Disable,
}

impl Pcr {
    pub open spec fn spec_bits(self) -> u32 {
        match self {
            Pcr::Enable => 0x0,
            Pcr::Disable => 0x1,
        }
    }

    pub fn bits(self) -> (b: u32)
        ensures
            b == self.spec_bits(),
    {
        match self {
            Pcr::Enable => 0x0,
            Pcr::Disable => 0x1,
        }
    }
}

/// Output type (PmnPFS.NCODR).
#[derive(Copy, Clone, Debug, PartialEq, Eq, Structural)]
pub enum Ncodr {
    PushPull,
    OpenDrain,
}

impl Ncodr {
    pub open spec fn spec_bits(self) -> u32 {
        match self {
            Ncodr::PushPull => 0x0,
            Ncodr::OpenDrain => 0x1,
        }
    }

    pub fn bits(self) -> (b: u32)
        ensures
            b == self.spec_bits(),
    {
        match self {
            Ncodr::PushPull => 0x0,
            Ncodr::OpenDrain => 0x1,
        }
    }
}

/// IRQ input (PmnPFS.ISEL): the field value 0 is named Enable.
#[derive(Copy, Clone, Debug, PartialEq, Eq, Structural)]
pub enum Isel {
    Enable,
    Disable,
}

impl Isel {
    pub open spec fn spec_bits(self) -> u32 {
        match self {
            Isel::Enable => 0x0,
            Isel::Disable => 0x1,
        }
    }

    pub fn bits(self) -> (b: u32)
        ensures
            b == self.spec_bits(),
    {
        match self {
            Isel::Enable => 0x0,
            Isel::Disable => 0x1,
        }
    }
}

/// Analog input (PmnPFS.ASEL): the field value 0 is named Enable.
#[derive(Copy, Clone, Debug, PartialEq, Eq, Structural)]
pub enum Asel {
    Enable,
    Disable,
}

impl Asel {
    pub open spec fn spec_bits(self) -> u32 {
        match self {
            Asel::Enable => 0x0,
            Asel::Disable => 0x1,
        }
    }

    pub fn bits(self) -> (b: u32)
        ensures
            b == self.spec_bits(),
    {
        match self {
            Asel::Enable => 0x0,
            Asel::Disable => 0x1,
        }
    }
}

/// Port mode (PmnPFS.PMR): general I/O or peripheral function.
#[derive(Copy, Clone, Debug, PartialEq, Eq, Structural)]
pub enum Pmr {
    General,
    Peripheral,
}

impl Pmr {
    pub open spec fn spec_bits(self) -> u32 {
        match self {
            Pmr::General => 0x0,
            Pmr::Peripheral => 0x1,
        }
    }

    pub fn bits(self) -> (b: u32)
        ensures
            b == self.spec_bits(),
    {
        match self {
            Pmr::General => 0x0,
            Pmr::Peripheral => 0x1,
        }
    }
}

/// Drive capability (PmnPFS.DSCR).
#[derive(Copy, Clone, Debug, PartialEq, Eq, Structural)]
pub enum Drive {
    Low,
    Middle,
    HighHigh,
    High,
}

impl Drive {
    pub open spec fn spec_bits(self) -> u32 {
        match self {
            Drive::Low => 0x0,
            Drive::Middle => 0x1,
            Drive::HighHigh => 0x2,
            Drive::High => 0x3,
        }
    }

    pub fn bits(self) -> (b: u32)
        ensures
            b == self.spec_bits(),
    {
        match self {
            Drive::Low => 0x0,
            Drive::Middle => 0x1,
            Drive::HighHigh => 0x2,
            Drive::High => 0x3,
        }
    }
}

/// Event edge (PmnPFS.EOFR).
#[derive(Copy, Clone, Debug, PartialEq, Eq, Structural)]
pub enum Edge {
    DontCare,
    Rising,
    Falling,
    Both,
}

impl Edge {
    pub open spec fn spec_bits(self) -> u32 {
        match self {
            Edge::DontCare => 0x0,
            Edge::Rising => 0x1,
            Edge::Falling => 0x2,
            Edge::Both => 0x3,
        }
    }

    pub fn bits(self) -> (b: u32)
        ensures
            b == self.spec_bits(),
    {
        match self {
            Edge::DontCare => 0x0,
            Edge::Rising => 0x1,
            Edge::Falling => 0x2,
            Edge::Both => 0x3,
        }
    }
}

/// Peripheral function (PmnPFS.PSEL).
#[allow(non_camel_case_types)]
#[derive(Copy, Clone, Debug, PartialEq, Eq, Structural)]
pub enum Peripheral {
    GPIO,
    AGT,
    GPT_0,
    GPT_1,
    SCI_0,
    SCI_1,
    SPI,
    IIC,
    CLKOUT_RTC,
    CAC_ADC12,
    BUS,
    CTSU,
    CANFD,
    QSPI,
    SSIE,
    USBFS,
    USBHS,
    SDHI,
    ETHERC_MII,
    ETHERC_RMII,
    Trace_Debug,
    OSPI,
    CEC,
    DontCare,
}

impl Peripheral {
    pub open spec fn spec_bits(self) -> u32 {
        match self {
            Peripheral::GPIO => 0x0,
            Peripheral::AGT => 0x1,
            Peripheral::GPT_0 => 0x2,
            Peripheral::GPT_1 => 0x3,
            Peripheral::SCI_0 => 0x4,
            Peripheral::SCI_1 => 0x5,
            Peripheral::SPI => 0x6,
            Peripheral::IIC => 0x7,
            Peripheral::CLKOUT_RTC => 0x9,
            Peripheral::CAC_ADC12 => 0xa,
            Peripheral::BUS => 0xb,
            Peripheral::CTSU => 0xc,
            Peripheral::CANFD => 0x10,
            Peripheral::QSPI => 0x11,
            Peripheral::SSIE => 0x12,
            Peripheral::USBFS => 0x13,
            Peripheral::USBHS => 0x14,
            Peripheral::SDHI => 0x15,
            Peripheral::ETHERC_MII => 0x16,
            Peripheral::ETHERC_RMII => 0x17,
            Peripheral::Trace_Debug => 0x1a,
            Peripheral::OSPI => 0x1c,
            Peripheral::CEC => 0x1d,
            Peripheral::DontCare => 0x1f,
        }
    }

    pub fn bits(self) -> (b: u32)
        ensures
            b == self.spec_bits(),
    {
        match self {
            Peripheral::GPIO => 0x0,
            Peripheral::AGT => 0x1,
            Peripheral::GPT_0 => 0x2,
            Peripheral::GPT_1 => 0x3,
            Peripheral::SCI_0 => 0x4,
            Peripheral::SCI_1 => 0x5,
            Peripheral::SPI => 0x6,
            Peripheral::IIC => 0x7,
            Peripheral::CLKOUT_RTC => 0x9,
            Peripheral::CAC_ADC12 => 0xa,
            Peripheral::BUS => 0xb,
            Peripheral::CTSU => 0xc,
            Peripheral::CANFD => 0x10,
            Peripheral::QSPI => 0x11,
            Peripheral::SSIE => 0x12,
            Peripheral::USBFS => 0x13,
            Peripheral::USBHS => 0x14,
            Peripheral::SDHI => 0x15,
            Peripheral::ETHERC_MII => 0x16,
            Peripheral::ETHERC_RMII => 0x17,
            Peripheral::Trace_Debug => 0x1a,
            Peripheral::OSPI => 0x1c,
            Peripheral::CEC => 0x1d,
            Peripheral::DontCare => 0x1f,
        }
    }
}

pub const DSCR_SHIFT: u32 = 10;
pub const DSCR_WIDTH: u32 = 2;
/// DSCR bits 11..10.
pub const DSCR_MASK: u32 = 0x0C00;

pub const EOFR_SHIFT: u32 = 12;
pub const EOFR_WIDTH: u32 = 2;
/// EOFR bits 13..12.
pub const EOFR_MASK: u32 = 0x3000;

/// The fields of a PmnPFS value, and the bits outside them.
#[derive(Copy, Clone, Debug, PartialEq, Eq, Structural)]
pub struct PfsFields {
    pub podr: u32,
    pub pidr: u32,
    pub pdr: u32,
    pub pcr: u32,
    pub ncodr: u32,
    pub dscr: u32,
    pub eofr: u32,
    pub isel: u32,
    pub asel: u32,
    pub pmr: u32,
    pub psel: u32,
    /// The bits outside every field.
    pub rest: u32,
}

/// The fields of a PmnPFS value: PODR bit 0, PIDR bit 1, PDR bit 2, PCR bit 4,
/// NCODR bit 6, DSCR bits 11..10, EOFR bits 13..12, ISEL bit 14, ASEL bit 15,
/// PMR bit 16, PSEL bits 28..24.
pub open spec fn spec_pfs_fields(w: u32) -> PfsFields {
    PfsFields {
        podr: ((w >> 0u32) & 0x1u32),
        pidr: ((w >> 1u32) & 0x1u32),
        pdr: ((w >> 2u32) & 0x1u32),
        pcr: ((w >> 4u32) & 0x1u32),
        ncodr: ((w >> 6u32) & 0x1u32),
        dscr: ((w >> 10u32) & 0x3u32),
        eofr: ((w >> 12u32) & 0x3u32),
        isel: ((w >> 14u32) & 0x1u32),
        asel: ((w >> 15u32) & 0x1u32),
        pmr: ((w >> 16u32) & 0x1u32),
        psel: ((w >> 24u32) & 0x1fu32),
        rest: (w & 0xe0fe03a8u32),
    }
}

/// Writes `v` into the PODR field of a PmnPFS value.
fn set_podr(w: u32, v: u32) -> (r: u32)
    requires
        v <= 0x1,
    ensures
        spec_pfs_fields(r) == (PfsFields { podr: v, ..spec_pfs_fields(w) }),
{
    let r: u32 = (w & !(0x1u32 << 0u32)) | ((v & 0x1u32) << 0u32);
    assert(((r >> 0u32) & 0x1u32) == v && ((r >> 1u32) & 0x1u32) == ((w >> 1u32) & 0x1u32) && ((r >> 2u32) & 0x1u32) == ((w >> 2u32) & 0x1u32) && ((r >> 4u32) & 0x1u32) == ((w >> 4u32) & 0x1u32) && ((r >> 6u32) & 0x1u32) == ((w >> 6u32) & 0x1u32) && ((r >> 10u32) & 0x3u32) == ((w >> 10u32) & 0x3u32) && ((r >> 12u32) & 0x3u32) == ((w >> 12u32) & 0x3u32) && ((r >> 14u32) & 0x1u32) == ((w >> 14u32) & 0x1u32) && ((r >> 15u32) & 0x1u32) == ((w >> 15u32) & 0x1u32) && ((r >> 16u32) & 0x1u32) == ((w >> 16u32) & 0x1u32) && ((r >> 24u32) & 0x1fu32) == ((w >> 24u32) & 0x1fu32) && (r & 0xe0fe03a8u32) == (w & 0xe0fe03a8u32)) by (bit_vector)
        requires
            r == (w & !(0x1u32 << 0u32)) | ((v & 0x1u32) << 0u32),
            v <= 0x1u32;
    r
}

/// Writes `v` into the PDR field of a PmnPFS value.
fn set_pdr(w: u32, v: u32) -> (r: u32)
    requires
        v <= 0x1,
    ensures
        spec_pfs_fields(r) == (PfsFields { pdr: v, ..spec_pfs_fields(w) }),
{
    let r: u32 = (w & !(0x1u32 << 2u32)) | ((v & 0x1u32) << 2u32);
    assert(((r >> 0u32) & 0x1u32) == ((w >> 0u32) & 0x1u32) && ((r >> 1u32) & 0x1u32) == ((w >> 1u32) & 0x1u32) && ((r >> 2u32) & 0x1u32) == v && ((r >> 4u32) & 0x1u32) == ((w >> 4u32) & 0x1u32) && ((r >> 6u32) & 0x1u32) == ((w >> 6u32) & 0x1u32) && ((r >> 10u32) & 0x3u32) == ((w >> 10u32) & 0x3u32) && ((r >> 12u32) & 0x3u32) == ((w >> 12u32) & 0x3u32) && ((r >> 14u32) & 0x1u32) == ((w >> 14u32) & 0x1u32) && ((r >> 15u32) & 0x1u32) == ((w >> 15u32) & 0x1u32) && ((r >> 16u32) & 0x1u32) == ((w >> 16u32) & 0x1u32) && ((r >> 24u32) & 0x1fu32) == ((w >> 24u32) & 0x1fu32) && (r & 0xe0fe03a8u32) == (w & 0xe0fe03a8u32)) by (bit_vector)
        requires
            r == (w & !(0x1u32 << 2u32)) | ((v & 0x1u32) << 2u32),
            v <= 0x1u32;
    r
}

/// Writes `v` into the PCR field of a PmnPFS value.
fn set_pcr(w: u32, v: u32) -> (r: u32)
    requires
        v <= 0x1,
    ensures
        spec_pfs_fields(r) == (PfsFields { pcr: v, ..spec_pfs_fields(w) }),
{
    let r: u32 = (w & !(0x1u32 << 4u32)) | ((v & 0x1u32) << 4u32);
    assert(((r >> 0u32) & 0x1u32) == ((w >> 0u32) & 0x1u32) && ((r >> 1u32) & 0x1u32) == ((w >> 1u32) & 0x1u32) && ((r >> 2u32) & 0x1u32) == ((w >> 2u32) & 0x1u32) && ((r >> 4u32) & 0x1u32) == v && ((r >> 6u32) & 0x1u32) == ((w >> 6u32) & 0x1u32) && ((r >> 10u32) & 0x3u32) == ((w >> 10u32) & 0x3u32) && ((r >> 12u32) & 0x3u32) == ((w >> 12u32) & 0x3u32) && ((r >> 14u32) & 0x1u32) == ((w >> 14u32) & 0x1u32) && ((r >> 15u32) & 0x1u32) == ((w >> 15u32) & 0x1u32) && ((r >> 16u32) & 0x1u32) == ((w >> 16u32) & 0x1u32) && ((r >> 24u32) & 0x1fu32) == ((w >> 24u32) & 0x1fu32) && (r & 0xe0fe03a8u32) == (w & 0xe0fe03a8u32)) by (bit_vector)
        requires
            r == (w & !(0x1u32 << 4u32)) | ((v & 0x1u32) << 4u32),
            v <= 0x1u32;
    r
}

/// Writes `v` into the NCODR field of a PmnPFS value.
fn set_ncodr(w: u32, v: u32) -> (r: u32)
    requires
        v <= 0x1,
    ensures
        spec_pfs_fields(r) == (PfsFields { ncodr: v, ..spec_pfs_fields(w) }),
{
    let r: u32 = (w & !(0x1u32 << 6u32)) | ((v & 0x1u32) << 6u32);
    assert(((r >> 0u32) & 0x1u32) == ((w >> 0u32) & 0x1u32) && ((r >> 1u32) & 0x1u32) == ((w >> 1u32) & 0x1u32) && ((r >> 2u32) & 0x1u32) == ((w >> 2u32) & 0x1u32) && ((r >> 4u32) & 0x1u32) == ((w >> 4u32) & 0x1u32) && ((r >> 6u32) & 0x1u32) == v && ((r >> 10u32) & 0x3u32) == ((w >> 10u32) & 0x3u32) && ((r >> 12u32) & 0x3u32) == ((w >> 12u32) & 0x3u32) && ((r >> 14u32) & 0x1u32) == ((w >> 14u32) & 0x1u32) && ((r >> 15u32) & 0x1u32) == ((w >> 15u32) & 0x1u32) && ((r >> 16u32) & 0x1u32) == ((w >> 16u32) & 0x1u32) && ((r >> 24u32) & 0x1fu32) == ((w >> 24u32) & 0x1fu32) && (r & 0xe0fe03a8u32) == (w & 0xe0fe03a8u32)) by (bit_vector)
        requires
            r == (w & !(0x1u32 << 6u32)) | ((v & 0x1u32) << 6u32),
            v <= 0x1u32;
    r
}

/// Writes `v` into the DSCR field of a PmnPFS value.
fn set_dscr(w: u32, v: u32) -> (r: u32)
    requires
        v <= 0x3,
    ensures
        spec_pfs_fields(r) == (PfsFields { dscr: v, ..spec_pfs_fields(w) }),
{
    let r: u32 = (w & !0x0c00u32) | ((v << 10u32) & 0x0c00u32);
    assert(((r >> 0u32) & 0x1u32) == ((w >> 0u32) & 0x1u32) && ((r >> 1u32) & 0x1u32) == ((w >> 1u32) & 0x1u32) && ((r >> 2u32) & 0x1u32) == ((w >> 2u32) & 0x1u32) && ((r >> 4u32) & 0x1u32) == ((w >> 4u32) & 0x1u32) && ((r >> 6u32) & 0x1u32) == ((w >> 6u32) & 0x1u32) && ((r >> 10u32) & 0x3u32) == v && ((r >> 12u32) & 0x3u32) == ((w >> 12u32) & 0x3u32) && ((r >> 14u32) & 0x1u32) == ((w >> 14u32) & 0x1u32) && ((r >> 15u32) & 0x1u32) == ((w >> 15u32) & 0x1u32) && ((r >> 16u32) & 0x1u32) == ((w >> 16u32) & 0x1u32) && ((r >> 24u32) & 0x1fu32) == ((w >> 24u32) & 0x1fu32) && (r & 0xe0fe03a8u32) == (w & 0xe0fe03a8u32)) by (bit_vector)
        requires
            r == (w & !0x0c00u32) | ((v << 10u32) & 0x0c00u32),
            v <= 0x3u32;
    r
}

/// Writes `v` into the EOFR field of a PmnPFS value.
fn set_eofr(w: u32, v: u32) -> (r: u32)
    requires
        v <= 0x3,
    ensures
        spec_pfs_fields(r) == (PfsFields { eofr: v, ..spec_pfs_fields(w) }),
{
    let r: u32 = (w & !0x3000u32) | ((v << 12u32) & 0x3000u32);
    assert(((r >> 0u32) & 0x1u32) == ((w >> 0u32) & 0x1u32) && ((r >> 1u32) & 0x1u32) == ((w >> 1u32) & 0x1u32) && ((r >> 2u32) & 0x1u32) == ((w >> 2u32) & 0x1u32) && ((r >> 4u32) & 0x1u32) == ((w >> 4u32) & 0x1u32) && ((r >> 6u32) & 0x1u32) == ((w >> 6u32) & 0x1u32) && ((r >> 10u32) & 0x3u32) == ((w >> 10u32) & 0x3u32) && ((r >> 12u32) & 0x3u32) == v && ((r >> 14u32) & 0x1u32) == ((w >> 14u32) & 0x1u32) && ((r >> 15u32) & 0x1u32) == ((w >> 15u32) & 0x1u32) && ((r >> 16u32) & 0x1u32) == ((w >> 16u32) & 0x1u32) && ((r >> 24u32) & 0x1fu32) == ((w >> 24u32) & 0x1fu32) && (r & 0xe0fe03a8u32) == (w & 0xe0fe03a8u32)) by (bit_vector)
        requires
            r == (w & !0x3000u32) | ((v << 12u32) & 0x3000u32),
            v <= 0x3u32;
    r
}

/// Writes `v` into the ISEL field of a PmnPFS value.
fn set_isel(w: u32, v: u32) -> (r: u32)
    requires
        v <= 0x1,
    ensures
        spec_pfs_fields(r) == (PfsFields { isel: v, ..spec_pfs_fields(w) }),
{
    let r: u32 = (w & !(0x1u32 << 14u32)) | ((v & 0x1u32) << 14u32);
    assert(((r >> 0u32) & 0x1u32) == ((w >> 0u32) & 0x1u32) && ((r >> 1u32) & 0x1u32) == ((w >> 1u32) & 0x1u32) && ((r >> 2u32) & 0x1u32) == ((w >> 2u32) & 0x1u32) && ((r >> 4u32) & 0x1u32) == ((w >> 4u32) & 0x1u32) && ((r >> 6u32) & 0x1u32) == ((w >> 6u32) & 0x1u32) && ((r >> 10u32) & 0x3u32) == ((w >> 10u32) & 0x3u32) && ((r >> 12u32) & 0x3u32) == ((w >> 12u32) & 0x3u32) && ((r >> 14u32) & 0x1u32) == v && ((r >> 15u32) & 0x1u32) == ((w >> 15u32) & 0x1u32) && ((r >> 16u32) & 0x1u32) == ((w >> 16u32) & 0x1u32) && ((r >> 24u32) & 0x1fu32) == ((w >> 24u32) & 0x1fu32) && (r & 0xe0fe03a8u32) == (w & 0xe0fe03a8u32)) by (bit_vector)
        requires
            r == (w & !(0x1u32 << 14u32)) | ((v & 0x1u32) << 14u32),
            v <= 0x1u32;
    r
}

/// Writes `v` into the ASEL field of a PmnPFS value.
fn set_asel(w: u32, v: u32) -> (r: u32)
    requires
        v <= 0x1,
    ensures
        spec_pfs_fields(r) == (PfsFields { asel: v, ..spec_pfs_fields(w) }),
{
    let r: u32 = (w & !(0x1u32 << 15u32)) | ((v & 0x1u32) << 15u32);
    assert(((r >> 0u32) & 0x1u32) == ((w >> 0u32) & 0x1u32) && ((r >> 1u32) & 0x1u32) == ((w >> 1u32) & 0x1u32) && ((r >> 2u32) & 0x1u32) == ((w >> 2u32) & 0x1u32) && ((r >> 4u32) & 0x1u32) == ((w >> 4u32) & 0x1u32) && ((r >> 6u32) & 0x1u32) == ((w >> 6u32) & 0x1u32) && ((r >> 10u32) & 0x3u32) == ((w >> 10u32) & 0x3u32) && ((r >> 12u32) & 0x3u32) == ((w >> 12u32) & 0x3u32) && ((r >> 14u32) & 0x1u32) == ((w >> 14u32) & 0x1u32) && ((r >> 15u32) & 0x1u32) == v && ((r >> 16u32) & 0x1u32) == ((w >> 16u32) & 0x1u32) && ((r >> 24u32) & 0x1fu32) == ((w >> 24u32) & 0x1fu32) && (r & 0xe0fe03a8u32) == (w & 0xe0fe03a8u32)) by (bit_vector)
        requires
            r == (w & !(0x1u32 << 15u32)) | ((v & 0x1u32) << 15u32),
            v <= 0x1u32;
    r
}

/// Writes `v` into the PMR field of a PmnPFS value.
fn set_pmr(w: u32, v: u32) -> (r: u32)
    requires
        v <= 0x1,
    ensures
        spec_pfs_fields(r) == (PfsFields { pmr: v, ..spec_pfs_fields(w) }),
{
    let r: u32 = (w & !(0x1u32 << 16u32)) | ((v & 0x1u32) << 16u32);
    assert(((r >> 0u32) & 0x1u32) == ((w >> 0u32) & 0x1u32) && ((r >> 1u32) & 0x1u32) == ((w >> 1u32) & 0x1u32) && ((r >> 2u32) & 0x1u32) == ((w >> 2u32) & 0x1u32) && ((r >> 4u32) & 0x1u32) == ((w >> 4u32) & 0x1u32) && ((r >> 6u32) & 0x1u32) == ((w >> 6u32) & 0x1u32) && ((r >> 10u32) & 0x3u32) == ((w >> 10u32) & 0x3u32) && ((r >> 12u32) & 0x3u32) == ((w >> 12u32) & 0x3u32) && ((r >> 14u32) & 0x1u32) == ((w >> 14u32) & 0x1u32) && ((r >> 15u32) & 0x1u32) == ((w >> 15u32) & 0x1u32) && ((r >> 16u32) & 0x1u32) == v && ((r >> 24u32) & 0x1fu32) == ((w >> 24u32) & 0x1fu32) && (r & 0xe0fe03a8u32) == (w & 0xe0fe03a8u32)) by (bit_vector)
        requires
            r == (w & !(0x1u32 << 16u32)) | ((v & 0x1u32) << 16u32),
            v <= 0x1u32;
    r
}

/// Writes `v` into the PSEL field of a PmnPFS value.
fn set_psel(w: u32, v: u32) -> (r: u32)
    requires
        v <= 0x1f,
    ensures
        spec_pfs_fields(r) == (PfsFields { psel: v, ..spec_pfs_fields(w) }),
{
    let r: u32 = (w & !(0x1fu32 << 24u32)) | ((v & 0x1fu32) << 24u32);
    assert(((r >> 0u32) & 0x1u32) == ((w >> 0u32) & 0x1u32) && ((r >> 1u32) & 0x1u32) == ((w >> 1u32) & 0x1u32) && ((r >> 2u32) & 0x1u32) == ((w >> 2u32) & 0x1u32) && ((r >> 4u32) & 0x1u32) == ((w >> 4u32) & 0x1u32) && ((r >> 6u32) & 0x1u32) == ((w >> 6u32) & 0x1u32) && ((r >> 10u32) & 0x3u32) == ((w >> 10u32) & 0x3u32) && ((r >> 12u32) & 0x3u32) == ((w >> 12u32) & 0x3u32) && ((r >> 14u32) & 0x1u32) == ((w >> 14u32) & 0x1u32) && ((r >> 15u32) & 0x1u32) == ((w >> 15u32) & 0x1u32) && ((r >> 16u32) & 0x1u32) == ((w >> 16u32) & 0x1u32) && ((r >> 24u32) & 0x1fu32) == v && (r & 0xe0fe03a8u32) == (w & 0xe0fe03a8u32)) by (bit_vector)
        requires
            r == (w & !(0x1fu32 << 24u32)) | ((v & 0x1fu32) << 24u32),
            v <= 0x1fu32;
    r
}

fn opt_set_podr(w: u32, x: Option<Podr>) -> (r: u32)
    ensures
        spec_pfs_fields(r) == (PfsFields {
            podr: match x { Some(v) => v.spec_bits(), None => spec_pfs_fields(w).podr },
            ..spec_pfs_fields(w)
        }),
{
    match x {
        Some(v) => set_podr(w, v.bits()),
        None => w,
    }
}

fn opt_set_pdr(w: u32, x: Option<Pdr>) -> (r: u32)
    ensures
        spec_pfs_fields(r) == (PfsFields {
            pdr: match x { Some(v) => v.spec_bits(), None => spec_pfs_fields(w).pdr },
            ..spec_pfs_fields(w)
        }),
{
    match x {
        Some(v) => set_pdr(w, v.bits()),
        None => w,
    }
}

fn opt_set_pcr(w: u32, x: Option<Pcr>) -> (r: u32)
    ensures
        spec_pfs_fields(r) == (PfsFields {
            pcr: match x { Some(v) => v.spec_bits(), None => spec_pfs_fields(w).pcr },
            ..spec_pfs_fields(w)
        }),
{
    match x {
        Some(v) => set_pcr(w, v.bits()),
        None => w,
    }
}

fn opt_set_ncodr(w: u32, x: Option<Ncodr>) -> (r: u32)
    ensures
        spec_pfs_fields(r) == (PfsFields {
            ncodr: match x { Some(v) => v.spec_bits(), None => spec_pfs_fields(w).ncodr },
            ..spec_pfs_fields(w)
        }),
{
    match x {
        Some(v) => set_ncodr(w, v.bits()),
        None => w,
    }
}

fn opt_set_dscr(w: u32, x: Option<Drive>) -> (r: u32)
    ensures
        spec_pfs_fields(r) == (PfsFields {
            dscr: match x { Some(v) => v.spec_bits(), None => spec_pfs_fields(w).dscr },
            ..spec_pfs_fields(w)
        }),
{
    match x {
        Some(v) => set_dscr(w, v.bits()),
        None => w,
    }
}

fn opt_set_eofr(w: u32, x: Option<Edge>) -> (r: u32)
    ensures
        spec_pfs_fields(r) == (PfsFields {
            eofr: match x { Some(v) => v.spec_bits(), None => spec_pfs_fields(w).eofr },
            ..spec_pfs_fields(w)
        }),
{
    match x {
        Some(v) => set_eofr(w, v.bits()),
        None => w,
    }
}

fn opt_set_isel(w: u32, x: Option<Isel>) -> (r: u32)
    ensures
        spec_pfs_fields(r) == (PfsFields {
            isel: match x { Some(v) => v.spec_bits(), None => spec_pfs_fields(w).isel },
            ..spec_pfs_fields(w)
        }),
{
    match x {
        Some(v) => set_isel(w, v.bits()),
        None => w,
    }
}

fn opt_set_asel(w: u32, x: Option<Asel>) -> (r: u32)
    ensures
        spec_pfs_fields(r) == (PfsFields {
            asel: match x { Some(v) => v.spec_bits(), None => spec_pfs_fields(w).asel },
            ..spec_pfs_fields(w)
        }),
{
    match x {
        Some(v) => set_asel(w, v.bits()),
        None => w,
    }
}

fn opt_set_pmr(w: u32, x: Option<Pmr>) -> (r: u32)
    ensures
        spec_pfs_fields(r) == (PfsFields {
            pmr: match x { Some(v) => v.spec_bits(), None => spec_pfs_fields(w).pmr },
            ..spec_pfs_fields(w)
        }),
{
    match x {
        Some(v) => set_pmr(w, v.bits()),
        None => w,
    }
}

fn opt_set_psel(w: u32, x: Option<Peripheral>) -> (r: u32)
    ensures
        spec_pfs_fields(r) == (PfsFields {
            psel: match x { Some(v) => v.spec_bits(), None => spec_pfs_fields(w).psel },
            ..spec_pfs_fields(w)
        }),
{
    match x {
        Some(v) => set_psel(w, v.bits()),
        None => w,
    }
}

/// A PmnPFS value with the given fields written and the others kept.
pub open spec fn spec_pfs_update(
    w: u32,
    podr: Option<Podr>,
    pdr: Option<Pdr>,
    pcr: Option<Pcr>,
    ncodr: Option<Ncodr>,
    dscr: Option<Drive>,
    eofr: Option<Edge>,
    isel: Option<Isel>,
    asel: Option<Asel>,
    pmr: Option<Pmr>,
    psel: Option<Peripheral>,
) -> PfsFields {
    let f = spec_pfs_fields(w);
    PfsFields {
        podr: match podr { Some(x) => x.spec_bits(), None => f.podr },
        pdr: match pdr { Some(x) => x.spec_bits(), None => f.pdr },
        pcr: match pcr { Some(x) => x.spec_bits(), None => f.pcr },
        ncodr: match ncodr { Some(x) => x.spec_bits(), None => f.ncodr },
        dscr: match dscr { Some(x) => x.spec_bits(), None => f.dscr },
        eofr: match eofr { Some(x) => x.spec_bits(), None => f.eofr },
        isel: match isel { Some(x) => x.spec_bits(), None => f.isel },
        asel: match asel { Some(x) => x.spec_bits(), None => f.asel },
        pmr: match pmr { Some(x) => x.spec_bits(), None => f.pmr },
        psel: match psel { Some(x) => x.spec_bits(), None => f.psel },
        ..f
    }
}

/// Writes the given fields of a PmnPFS value and keeps every other bit.
pub fn pfs_update(
    w: u32,
    podr: Option<Podr>,
    pdr: Option<Pdr>,
    pcr: Option<Pcr>,
    ncodr: Option<Ncodr>,
    dscr: Option<Drive>,
    eofr: Option<Edge>,
    isel: Option<Isel>,
    asel: Option<Asel>,
    pmr: Option<Pmr>,
    psel: Option<Peripheral>,
) -> (r: u32)
    ensures
        spec_pfs_fields(r) == spec_pfs_update(w, podr, pdr, pcr, ncodr, dscr, eofr, isel, asel, pmr, psel),
{
    let v = opt_set_podr(w, podr);
    let v = opt_set_pdr(v, pdr);
    let v = opt_set_pcr(v, pcr);
    let v = opt_set_ncodr(v, ncodr);
    let v = opt_set_dscr(v, dscr);
    let v = opt_set_eofr(v, eofr);
    let v = opt_set_isel(v, isel);
    let v = opt_set_asel(v, asel);
    let v = opt_set_pmr(v, pmr);
    let v = opt_set_psel(v, psel);
    v
}

/// Writing no field keeps every field of a PmnPFS value.
pub proof fn lemma_pfs_update_nothing_keeps(w: u32)
    ensures
        spec_pfs_update(w, None, None, None, None, None, None, None, None, None, None) == spec_pfs_fields(w),
{
}

/// Writing the same fields a second time changes nothing more.
pub proof fn lemma_pfs_update_idempotent(
    w: u32,
    r: u32,
    podr: Option<Podr>,
    pdr: Option<Pdr>,
    pcr: Option<Pcr>,
    ncodr: Option<Ncodr>,
    dscr: Option<Drive>,
    eofr: Option<Edge>,
    isel: Option<Isel>,
    asel: Option<Asel>,
    pmr: Option<Pmr>,
    psel: Option<Peripheral>,
)
    requires
        spec_pfs_fields(r) == spec_pfs_update(w, podr, pdr, pcr, ncodr, dscr, eofr, isel, asel, pmr, psel),
    ensures
        spec_pfs_update(r, podr, pdr, pcr, ncodr, dscr, eofr, isel, asel, pmr, psel) == spec_pfs_fields(r),
{
}

/// The four values that PWPR is written with around a PmnPFS write, from its value
/// `r` before: B0WI (bit 7) cleared, PFSWE (bit 6) set, PFSWE cleared, B0WI set,
/// each written into `r`.
pub open spec fn spec_pfs_protection_writes(r: u8) -> (u8, u8, u8, u8) {
    ((r & !0x80u8), (r | 0x40u8), (r & !0x40u8), (r | 0x80u8))
}

/// The PWPR writes that unlock the PmnPFS registers and lock them again.
pub fn pfs_protection_writes(r: u8) -> (w: (u8, u8, u8, u8))
    ensures
        w == spec_pfs_protection_writes(r),
{
    ((r & !0x80u8), (r | 0x40u8), (r & !0x40u8), (r | 0x80u8))
}

/// What a pin supports besides input and PFS access.
#[derive(Copy, Clone, Debug, PartialEq, Eq, Structural)]
pub struct PinCaps {
    pub output: bool,
    pub analog: bool,
    pub irq: bool,
    pub irq_edge: bool,
    pub drive: bool,
    pub alternate: bool,
}

/// The settings that the selection of a peripheral function implies: direction,
/// output type, analog input and port mode.
pub open spec fn spec_alternate_settings(p: Peripheral) -> (Option<Pdr>, Option<Ncodr>, Option<Asel>, Option<Pmr>) {
    if p == Peripheral::GPIO {
        (None, None, Some(Asel::Disable), Some(Pmr::General))
    } else if p == Peripheral::IIC || p == Peripheral::CEC {
        (None, Some(Ncodr::OpenDrain), Some(Asel::Disable), Some(Pmr::General))
    } else if p == Peripheral::CAC_ADC12 || p == Peripheral::CTSU {
        (None, Some(Ncodr::PushPull), Some(Asel::Enable), Some(Pmr::Peripheral))
    } else if p == Peripheral::DontCare {
        (Some(Pdr::Input), None, Some(Asel::Disable), Some(Pmr::General))
    } else {
        (None, Some(Ncodr::PushPull), Some(Asel::Disable), Some(Pmr::Peripheral))
    }
}

/// Handing a pin to a peripheral function writes PSEL with that function and
/// leaves PODR, PCR, the IRQ and event settings alone. A function other than GPIO,
/// IIC, CEC and the don't-care setting puts the pin in peripheral mode (PMR = 1);
/// GPIO, IIC, CEC and the don't-care setting leave it in general I/O mode (PMR = 0).
/// IIC and CEC drive open-drain, the other functions but GPIO and the don't-care
/// setting push-pull; only CAC/ADC12 and CTSU take the pin as analog input, and the
/// don't-care setting makes it an input.
pub proof fn lemma_alternate_mode(old: u32, p: Peripheral, drive: Option<Drive>)
    ensures
        ({
            let (pdr, ncodr, asel, pmr) = spec_alternate_settings(p);
            let f = spec_pfs_update(old, None, pdr, None, ncodr, drive, None, None, asel, pmr, Some(p));
            let o = spec_pfs_fields(old);
            let general = p == Peripheral::GPIO || p == Peripheral::IIC || p == Peripheral::CEC || p == Peripheral::DontCare;
            &&& f.psel == p.spec_bits()
            &&& f.pmr == (if general { 0u32 } else { 1u32 })
            &&& f.asel == (if p == Peripheral::CAC_ADC12 || p == Peripheral::CTSU {
                Asel::Enable.spec_bits()
            } else {
                Asel::Disable.spec_bits()
            })
            &&& (p == Peripheral::IIC || p == Peripheral::CEC) ==> f.ncodr == Ncodr::OpenDrain.spec_bits()
            &&& !general ==> f.ncodr == Ncodr::PushPull.spec_bits()
            &&& p == Peripheral::DontCare ==> f.pdr == Pdr::Input.spec_bits()
            &&& p != Peripheral::DontCare ==> f.pdr == o.pdr
            &&& f.podr == o.podr && f.pcr == o.pcr && f.isel == o.isel && f.eofr == o.eofr
        }),
{
}

fn alternate_settings(p: Peripheral) -> (r: (Option<Pdr>, Option<Ncodr>, Option<Asel>, Option<Pmr>))
    ensures
        r == spec_alternate_settings(p),
{
    match p {
        Peripheral::GPIO => (None, None, Some(Asel::Disable), Some(Pmr::General)),
        Peripheral::IIC | Peripheral::CEC => (None, Some(Ncodr::OpenDrain), Some(Asel::Disable), Some(Pmr::General)),
        Peripheral::CAC_ADC12 | Peripheral::CTSU => (None, Some(Ncodr::PushPull), Some(Asel::Enable), Some(Pmr::Peripheral)),
        Peripheral::DontCare => (Some(Pdr::Input), None, Some(Asel::Disable), Some(Pmr::General)),
        _ => (None, Some(Ncodr::PushPull), Some(Asel::Disable), Some(Pmr::Peripheral)),
    }
}

/// A pin of a port, in a mode. Its capabilities are those of the pin on the chip;
/// a mode change that the pin does not support cannot be requested.
/// A single-bit write to PCNTR3 of a port: a 1 at `bit` of POSR sets that pin's
/// output latch, of PORR clears it; the other pins are left as they are.
#[derive(Copy, Clone, Debug, PartialEq, Eq, Structural)]
pub enum LatchWrite {
    Posr { port: u8, bit: u8 },
    Porr { port: u8, bit: u8 },
}

/// The write that drives pin `bit` of `port` high or low.
pub open spec fn spec_latch_write(port: u8, bit: u8, high: bool) -> LatchWrite {
    if high {
        LatchWrite::Posr { port: port, bit: bit }
    } else {
        LatchWrite::Porr { port: port, bit: bit }
    }
}

pub struct Pin<Mode> {
    port: u8,
    id: u8,
    caps: PinCaps,
    _mode: PhantomData<Mode>,
}

impl<Mode> Pin<Mode> {
    pub(crate) fn new(port: u8, id: u8, caps: PinCaps) -> (p: Self)
        ensures
            p.spec_port() == port,
            p.spec_id() == id,
            p.spec_caps() == caps,
    {
        Pin { port, id, caps, _mode: PhantomData }
    }

    /// The port number (0 to 11, with 10 for port A and 11 for port B).
    pub closed spec fn spec_port(&self) -> u8 {
        self.port
    }

    /// The pin number within the port.
    pub closed spec fn spec_id(&self) -> u8 {
        self.id
    }

    pub closed spec fn spec_caps(&self) -> PinCaps {
        self.caps
    }

    pub fn port(&self) -> (r: u8)
        ensures
            r == self.spec_port(),
    {
        self.port
    }

    pub fn id(&self) -> (r: u8)
        ensures
            r == self.spec_id(),
    {
        self.id
    }

    pub fn caps(&self) -> (r: PinCaps)
        ensures
            r == self.spec_caps(),
    {
        self.caps
    }

    /// The same pin in another mode.
    fn into_mode<M>(self) -> (p: Pin<M>)
        ensures
            p.spec_port() == self.spec_port(),
            p.spec_id() == self.spec_id(),
            p.spec_caps() == self.spec_caps(),
    {
        Pin { port: self.port, id: self.id, caps: self.caps, _mode: PhantomData }
    }

    /// Writes the given fields of the pin's PmnPFS register.
    pub fn set_pfs(
        &self,
        pfs: &mut u32,
        podr: Option<Podr>,
        pdr: Option<Pdr>,
        pcr: Option<Pcr>,
        ncodr: Option<Ncodr>,
        dscr: Option<Drive>,
        eofr: Option<Edge>,
        isel: Option<Isel>,
        asel: Option<Asel>,
        pmr: Option<Pmr>,
        psel: Option<Peripheral>,
    )
        ensures
            spec_pfs_fields(*final(pfs)) == spec_pfs_update(*old(pfs), podr, pdr, pcr, ncodr, dscr, eofr, isel, asel, pmr, psel),
    {
        *pfs = pfs_update(*pfs, podr, pdr, pcr, ncodr, dscr, eofr, isel, asel, pmr, psel);
    }

    /// Sets the output latch through PODR of PmnPFS, written with the rest of the
    /// pin's setting.
    fn latch_podr(pfs: &mut u32, high: bool)
        ensures
            spec_pfs_fields(*final(pfs)) == (PfsFields { podr: if high { 1 } else { 0 }, ..spec_pfs_fields(*old(pfs)) }),
    {
        *pfs = set_podr(*pfs, if high { 1 } else { 0 });
    }

    /// Sets the output latch: returns the single-bit POSR (high) or PORR (low)
    /// write that does it, and updates PODR in the model of PmnPFS, which reads
    /// the latch back.
    fn set_latch(&self, pfs: &mut u32, high: bool) -> (w: LatchWrite)
        ensures
            w == spec_latch_write(self.spec_port(), self.spec_id(), high),
            spec_pfs_fields(*final(pfs)) == (PfsFields { podr: if high { 1 } else { 0 }, ..spec_pfs_fields(*old(pfs)) }),
    {
        *pfs = set_podr(*pfs, if high { 1 } else { 0 });
        if high {
            LatchWrite::Posr { port: self.port, bit: self.id }
        } else {
            LatchWrite::Porr { port: self.port, bit: self.id }
        }
    }

    /// The level at the pin (PIDR).
    fn is_high_level(&self, pfs: &u32) -> (r: bool)
        ensures
            r == (spec_pfs_fields(*pfs).pidr == 1),
    {
        ((*pfs >> 1u32) & 1u32) == 1
    }

    /// An unused pin as input: output latch low, input, no pull-up, general I/O.
    pub fn into_unused_input(self, pfs: &mut u32) -> (p: Pin<Input<Floating>>)
        ensures
            p.spec_port() == self.spec_port() && p.spec_id() == self.spec_id() && p.spec_caps() == self.spec_caps(),
            spec_pfs_fields(*final(pfs)) == spec_pfs_update(*old(pfs), Some(Podr::Low), Some(Pdr::Input), Some(Pcr::Disable),
                None, None, None, Some(Isel::Disable), Some(Asel::Disable), Some(Pmr::General), Some(Peripheral::GPIO)),
    {
        self.set_pfs(pfs, Some(Podr::Low), Some(Pdr::Input), Some(Pcr::Disable), None, None, None,
            Some(Isel::Disable), Some(Asel::Disable), Some(Pmr::General), Some(Peripheral::GPIO));
        self.into_mode()
    }

    /// Input without pull-up, general I/O.
    pub fn into_floating_input(self, pfs: &mut u32) -> (p: Pin<Input<Floating>>)
        ensures
            p.spec_port() == self.spec_port() && p.spec_id() == self.spec_id() && p.spec_caps() == self.spec_caps(),
            spec_pfs_fields(*final(pfs)) == spec_pfs_update(*old(pfs), None, Some(Pdr::Input), Some(Pcr::Disable),
                None, None, None, Some(Isel::Disable), Some(Asel::Disable), Some(Pmr::General), Some(Peripheral::GPIO)),
    {
        self.set_pfs(pfs, None, Some(Pdr::Input), Some(Pcr::Disable), None, None, None,
            Some(Isel::Disable), Some(Asel::Disable), Some(Pmr::General), Some(Peripheral::GPIO));
        self.into_mode()
    }

    /// Input with pull-up, general I/O.
    pub fn into_pullup_input(self, pfs: &mut u32) -> (p: Pin<Input<PullUp>>)
        ensures
            p.spec_port() == self.spec_port() && p.spec_id() == self.spec_id() && p.spec_caps() == self.spec_caps(),
            spec_pfs_fields(*final(pfs)) == spec_pfs_update(*old(pfs), None, Some(Pdr::Input), Some(Pcr::Enable),
                None, None, None, Some(Isel::Disable), Some(Asel::Disable), Some(Pmr::General), Some(Peripheral::GPIO)),
    {
        self.set_pfs(pfs, None, Some(Pdr::Input), Some(Pcr::Enable), None, None, None,
            Some(Isel::Disable), Some(Asel::Disable), Some(Pmr::General), Some(Peripheral::GPIO));
        self.into_mode()
    }

    /// Analog input, on a pin with an analog function.
    pub fn into_analog(self, pfs: &mut u32) -> (p: Pin<Analog>)
        requires
            self.spec_caps().analog,
        ensures
            p.spec_port() == self.spec_port() && p.spec_id() == self.spec_id() && p.spec_caps() == self.spec_caps(),
            spec_pfs_fields(*final(pfs)) == spec_pfs_update(*old(pfs), None, Some(Pdr::Input), Some(Pcr::Disable),
                None, None, None, Some(Isel::Disable), Some(Asel::Enable), Some(Pmr::General), Some(Peripheral::GPIO)),
    {
        self.set_pfs(pfs, None, Some(Pdr::Input), Some(Pcr::Disable), None, None, None,
            Some(Isel::Disable), Some(Asel::Enable), Some(Pmr::General), Some(Peripheral::GPIO));
        self.into_mode()
    }

    /// IRQ input with the given pull-up setting, on a pin with an IRQ function.
    pub fn into_irq_input(self, pfs: &mut u32, pullup: Pcr) -> (p: Pin<Input<Floating>>)
        requires
            self.spec_caps().irq,
        ensures
            p.spec_port() == self.spec_port() && p.spec_id() == self.spec_id() && p.spec_caps() == self.spec_caps(),
            spec_pfs_fields(*final(pfs)) == spec_pfs_update(*old(pfs), None, Some(Pdr::Input), Some(pullup),
                None, None, None, Some(Isel::Enable), Some(Asel::Disable), Some(Pmr::General), Some(Peripheral::GPIO)),
    {
        self.set_pfs(pfs, None, Some(Pdr::Input), Some(pullup), None, None, None,
            Some(Isel::Enable), Some(Asel::Disable), Some(Pmr::General), Some(Peripheral::GPIO));
        self.into_mode()
    }

    /// IRQ input with an event edge and the given pull-up setting, on a pin with
    /// an edge-selectable IRQ function.
    pub fn into_irq_input_with_event_edge(self, pfs: &mut u32, event: Edge, pullup: Pcr) -> (p: Pin<Input<Floating>>)
        requires
            self.spec_caps().irq_edge,
        ensures
            p.spec_port() == self.spec_port() && p.spec_id() == self.spec_id() && p.spec_caps() == self.spec_caps(),
            spec_pfs_fields(*final(pfs)) == spec_pfs_update(*old(pfs), None, Some(Pdr::Input), Some(pullup),
                None, None, Some(event), Some(Isel::Enable), Some(Asel::Disable), Some(Pmr::General), Some(Peripheral::GPIO)),
    {
        self.set_pfs(pfs, None, Some(Pdr::Input), Some(pullup), None, None, Some(event),
            Some(Isel::Enable), Some(Asel::Disable), Some(Pmr::General), Some(Peripheral::GPIO));
        self.into_mode()
    }

    /// Push-pull output that starts at the given level: the latch is set first.
    pub fn into_push_pull_output(self, pfs: &mut u32, set_high: bool) -> (p: Pin<Output<PushPull>>)
        requires
            self.spec_caps().output,
        ensures
            p.spec_port() == self.spec_port() && p.spec_id() == self.spec_id() && p.spec_caps() == self.spec_caps(),
            spec_pfs_fields(*final(pfs)) == spec_pfs_update(*old(pfs), Some(if set_high { Podr::High } else { Podr::Low }),
                Some(Pdr::Output), Some(Pcr::Disable), Some(Ncodr::PushPull), None, None, Some(Isel::Disable),
                Some(Asel::Disable), Some(Pmr::General), Some(Peripheral::GPIO)),
    {
        Self::latch_podr(pfs, set_high);
        self.set_pfs(pfs, None, Some(Pdr::Output), Some(Pcr::Disable), Some(Ncodr::PushPull), None, None,
            Some(Isel::Disable), Some(Asel::Disable), Some(Pmr::General), Some(Peripheral::GPIO));
        self.into_mode()
    }

    /// Open-drain output that starts released (latch high).
    pub fn into_open_drain_output_hi(self, pfs: &mut u32) -> (p: Pin<Output<OpenDrain>>)
        requires
            self.spec_caps().output,
        ensures
            p.spec_port() == self.spec_port() && p.spec_id() == self.spec_id() && p.spec_caps() == self.spec_caps(),
            spec_pfs_fields(*final(pfs)) == spec_pfs_update(*old(pfs), Some(Podr::High), Some(Pdr::Output),
                Some(Pcr::Disable), Some(Ncodr::OpenDrain), None, None, Some(Isel::Disable), Some(Asel::Disable),
                Some(Pmr::General), Some(Peripheral::GPIO)),
    {
        Self::latch_podr(pfs, true);
        self.set_pfs(pfs, None, Some(Pdr::Output), Some(Pcr::Disable), Some(Ncodr::OpenDrain), None, None,
            Some(Isel::Disable), Some(Asel::Disable), Some(Pmr::General), Some(Peripheral::GPIO));
        self.into_mode()
    }

    /// An unused pin as output driven low.
    pub fn into_unused_output(self, pfs: &mut u32) -> (p: Pin<Output<PushPull>>)
        requires
            self.spec_caps().output,
        ensures
            p.spec_port() == self.spec_port() && p.spec_id() == self.spec_id() && p.spec_caps() == self.spec_caps(),
            spec_pfs_fields(*final(pfs)) == spec_pfs_update(*old(pfs), Some(Podr::Low), Some(Pdr::Output),
                Some(Pcr::Disable), None, None, None, Some(Isel::Disable), Some(Asel::Disable), Some(Pmr::General),
                Some(Peripheral::GPIO)),
    {
        self.set_pfs(pfs, Some(Podr::Low), Some(Pdr::Output), Some(Pcr::Disable), None, None, None,
            Some(Isel::Disable), Some(Asel::Disable), Some(Pmr::General), Some(Peripheral::GPIO));
        self.into_mode()
    }

    /// Sets the drive capability and keeps the mode. Some pins lack HighHigh.
    pub fn set_drive_ability(self, pfs: &mut u32, ability: Drive) -> (p: Pin<Mode>)
        requires
            self.spec_caps().drive,
        ensures
            p.spec_port() == self.spec_port() && p.spec_id() == self.spec_id() && p.spec_caps() == self.spec_caps(),
            spec_pfs_fields(*final(pfs)) == spec_pfs_update(*old(pfs), None, None, None, None, Some(ability),
                None, None, None, None, None),
    {
        self.set_pfs(pfs, None, None, None, None, Some(ability), None, None, None, None, None);
        self.into_mode()
    }

    /// Hands the pin to a peripheral function, with the direction, output type,
    /// analog input and port mode that the function implies.
    pub fn into_alternate(self, pfs: &mut u32, peripheral: Peripheral, drive_ability: Option<Drive>) -> (p: Pin<Alternate>)
        requires
            self.spec_caps().alternate,
        ensures
            p.spec_port() == self.spec_port() && p.spec_id() == self.spec_id() && p.spec_caps() == self.spec_caps(),
            ({
                let (pdr, ncodr, asel, pmr) = spec_alternate_settings(peripheral);
                spec_pfs_fields(*final(pfs)) == spec_pfs_update(*old(pfs), None, pdr, None, ncodr, drive_ability,
                    None, None, asel, pmr, Some(peripheral))
            }),
    {
        let (pdr, ncodr, asel, pmr) = alternate_settings(peripheral);
        self.set_pfs(pfs, None, pdr, None, ncodr, drive_ability, None, None, asel, pmr, Some(peripheral));
        self.into_mode()
    }
}

impl<D> Pin<Input<D>> {
    pub fn is_high(&mut self, pfs: &u32) -> (r: bool)
        ensures
            r == (spec_pfs_fields(*pfs).pidr == 1),
            *final(self) == *old(self),
    {
        self.is_high_level(pfs)
    }

    pub fn is_low(&mut self, pfs: &u32) -> (r: bool)
        ensures
            r == (spec_pfs_fields(*pfs).pidr != 1),
            *final(self) == *old(self),
    {
        !self.is_high_level(pfs)
    }
}

impl<D> Pin<Output<D>> {
    /// Drives the pin high: returns the write of a single 1 to POSR of its port;
    /// the model's PODR reads 1 afterwards.
    pub fn set_high(&mut self, pfs: &mut u32) -> (w: LatchWrite)
        ensures
            w == spec_latch_write(old(self).spec_port(), old(self).spec_id(), true),
            spec_pfs_fields(*final(pfs)) == (PfsFields { podr: 1, ..spec_pfs_fields(*old(pfs)) }),
            *final(self) == *old(self),
    {
        self.set_latch(pfs, true)
    }

    /// Drives the pin low: returns the write of a single 1 to PORR of its port;
    /// the model's PODR reads 0 afterwards.
    pub fn set_low(&mut self, pfs: &mut u32) -> (w: LatchWrite)
        ensures
            w == spec_latch_write(old(self).spec_port(), old(self).spec_id(), false),
            spec_pfs_fields(*final(pfs)) == (PfsFields { podr: 0, ..spec_pfs_fields(*old(pfs)) }),
            *final(self) == *old(self),
    {
        self.set_latch(pfs, false)
    }

    /// The level at the pin (PIDR) is high.
    pub fn is_set_high(&mut self, pfs: &u32) -> (r: bool)
        ensures
            r == (spec_pfs_fields(*pfs).pidr == 1),
            *final(self) == *old(self),
    {
        self.is_high_level(pfs)
    }

    pub fn is_set_low(&mut self, pfs: &u32) -> (r: bool)
        ensures
            r == (spec_pfs_fields(*pfs).pidr != 1),
            *final(self) == *old(self),
    {
        !self.is_high_level(pfs)
    }

    /// Drives the pin to the opposite of the level read at it (PORR when it reads
    /// high, POSR when low).
    pub fn toggle(&mut self, pfs: &mut u32) -> (w: LatchWrite)
        ensures
            w == spec_latch_write(old(self).spec_port(), old(self).spec_id(), spec_pfs_fields(*old(pfs)).pidr != 1),
            spec_pfs_fields(*final(pfs)) == (PfsFields {
                podr: if spec_pfs_fields(*old(pfs)).pidr == 1 { 0 } else { 1 },
                ..spec_pfs_fields(*old(pfs))
            }),
            *final(self) == *old(self),
    {
        if self.is_high_level(pfs) {
            self.set_low(pfs)
        } else {
            self.set_high(pfs)
        }
    }
}

} // verus!
