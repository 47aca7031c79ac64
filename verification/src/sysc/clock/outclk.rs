//! The peripheral and output clocks: EBCLK, CLKOUT, USBCLK, OCTACLK, CANFDCLK,
//! USB60CLK, CECCLK and TRCLK.
use vstd::prelude::*;

use crate::RegisterError;
use crate::dbg::{Dbg, DbgRegs};
use crate::sysc::{prc0, CkoRegs, EbclkRegs, PeriphClkRegs, SyscRegs, TrckRegs};
use super::{
    CANFDCLK_HZ_MAX, CECCLK_HZ_MAX, EBCLK_HZ_MAX, LOCO_HZ, MOCO_HZ, OCTACLK_HZ_MAX, SOSC_HZ,
    USB60CLK_HZ, USBCLK_HZ,
};
use super::osc::{Hoco, HocoFreq, Loco, Moco, Mosc, Pll, Pll2, Sosc};

verus! {

// ---------------------------------------------------------------- EBCLK

/// External bus clock output (BCKCR.BCLKDIV): BCLK or BCLK/2.
#[derive(Copy, Clone, Debug, PartialEq, Eq, Structural)]
pub enum EbclkOutput {
    Bclk,
    BclkDiv2,
}

impl EbclkOutput {
    pub open spec fn spec_bits(self) -> u8 {
        match self {
            EbclkOutput::Bclk => 0b000,
            EbclkOutput::BclkDiv2 => 0b001,
        }
    }

    pub fn bits(self) -> (b: u8)
        ensures
            b == self.spec_bits(),
    {
        match self {
            EbclkOutput::Bclk => 0b000,
            EbclkOutput::BclkDiv2 => 0b001,
        }
    }

    pub open spec fn spec_from_u8(value: u8) -> Option<EbclkOutput> {
        if value == 0b000 {
            Some(EbclkOutput::Bclk)
        } else if value == 0b001 {
            Some(EbclkOutput::BclkDiv2)
        } else {
            None
        }
    }

    pub fn from_u8(value: u8) -> (r: Option<Self>)
        ensures
            r == Self::spec_from_u8(value),
    {
        match value {
            0b000 => Some(EbclkOutput::Bclk),
            0b001 => Some(EbclkOutput::BclkDiv2),
            _ => None,
        }
    }
}

/// The external bus clock output.
pub struct Ebclk {
    _id: (),
}

impl Ebclk {
    pub(crate) fn new() -> Ebclk {
        Ebclk { _id: () }
    }

    pub fn is_enabled(&self, regs: &SyscRegs) -> (r: bool)
        ensures
            r == regs.ebclk.ebckoen,
    {
        regs.ebclk.ebckoen
    }

    fn set_ebckocr(&mut self, regs: &mut SyscRegs, enable: bool) -> (r: Result<(), RegisterError>)
        ensures
            old(regs).ebclk.ebckoen == enable ==> r == Err::<(), RegisterError>(RegisterError::NotReadyToWrite(
                if enable { "EBCLK is already enabled." } else { "EBCLK is already disabled." })) && *final(regs) == *old(regs),
            old(regs).ebclk.ebckoen != enable ==> r is Ok && *final(regs) == (SyscRegs {
                prcr: 0,
                ebclk: EbclkRegs { ebckoen: enable, ..old(regs).ebclk },
                ..*old(regs)
            }),
    {
        if self.is_enabled(regs) == enable {
            Err(RegisterError::NotReadyToWrite(if enable { "EBCLK is already enabled." } else { "EBCLK is already disabled." }))
        } else {
            prc0(regs, true);
            regs.ebclk.ebckoen = enable;
            prc0(regs, false);
            Ok(())
        }
    }

    /// Turns the EBCLK output on when it is off.
    pub fn enable(&mut self, regs: &mut SyscRegs) -> (r: Result<(), RegisterError>)
        ensures
            old(regs).ebclk.ebckoen ==> r == Err::<(), RegisterError>(RegisterError::NotReadyToWrite(
                "EBCLK is already enabled.")) && *final(regs) == *old(regs),
            !old(regs).ebclk.ebckoen ==> r is Ok && *final(regs) == (SyscRegs {
                prcr: 0,
                ebclk: EbclkRegs { ebckoen: true, ..old(regs).ebclk },
                ..*old(regs)
            }),
    {
        self.set_ebckocr(regs, true)
    }

    /// Turns the EBCLK output off when it is on.
    pub fn disable(&mut self, regs: &mut SyscRegs) -> (r: Result<(), RegisterError>)
        ensures
            !old(regs).ebclk.ebckoen ==> r == Err::<(), RegisterError>(RegisterError::NotReadyToWrite(
                "EBCLK is already disabled.")) && *final(regs) == *old(regs),
            old(regs).ebclk.ebckoen ==> r is Ok && *final(regs) == (SyscRegs {
                prcr: 0,
                ebclk: EbclkRegs { ebckoen: false, ..old(regs).ebclk },
                ..*old(regs)
            }),
    {
        self.set_ebckocr(regs, false)
    }

    pub fn get_external_bus_clock(&self, regs: &SyscRegs) -> (r: Option<EbclkOutput>)
        ensures
            r == EbclkOutput::spec_from_u8(regs.ebclk.bclkdiv),
    {
        EbclkOutput::from_u8(regs.ebclk.bclkdiv)
    }

    /// Selects BCLK or BCLK/2 for EBCLK; BCLK itself is refused above 50 MHz.
    pub fn set_external_bus_clock(&mut self, regs: &mut SyscRegs, div: EbclkOutput, bclk_freq: u32) -> (r: Result<(), RegisterError>)
        ensures
            div == EbclkOutput::Bclk && bclk_freq > EBCLK_HZ_MAX ==> r == Err::<(), RegisterError>(
                RegisterError::InvalidValue("Frequency of EBCLK become higher than 50MHz.")) && *final(regs) == *old(regs),
            !(div == EbclkOutput::Bclk && bclk_freq > EBCLK_HZ_MAX) ==> r is Ok && *final(regs) == (SyscRegs {
                prcr: 0,
                ebclk: EbclkRegs { bclkdiv: div.spec_bits(), ..old(regs).ebclk },
                ..*old(regs)
            }),
    {
        if (div == EbclkOutput::Bclk) && (bclk_freq > EBCLK_HZ_MAX) {
            Err(RegisterError::InvalidValue("Frequency of EBCLK become higher than 50MHz."))
        } else {
            prc0(regs, true);
            regs.ebclk.bclkdiv = div.bits();
            prc0(regs, false);
            Ok(())
        }
    }
}

// ---------------------------------------------------------------- CLKOUT

/// Clock output source (CKOCR.CKOSEL).
#[derive(Copy, Clone, Debug, PartialEq, Eq, Structural)]
pub enum ClockOutSource {
    Hoco,
    Moco,
    Loco,
    Mosc,
    Sosc,
}

impl ClockOutSource {
    pub open spec fn spec_bits(self) -> u8 {
        match self {
            ClockOutSource::Hoco => 0b000,
            ClockOutSource::Moco => 0b001,
            ClockOutSource::Loco => 0b010,
            ClockOutSource::Mosc => 0b011,
            ClockOutSource::Sosc => 0b100,
        }
    }

    pub fn bits(self) -> (b: u8)
        ensures
            b == self.spec_bits(),
    {
        match self {
            ClockOutSource::Hoco => 0b000,
            ClockOutSource::Moco => 0b001,
            ClockOutSource::Loco => 0b010,
            ClockOutSource::Mosc => 0b011,
            ClockOutSource::Sosc => 0b100,
        }
    }

    pub open spec fn spec_from_u8(value: u8) -> Option<ClockOutSource> {
        if value == 0b000 {
            Some(ClockOutSource::Hoco)
        } else if value == 0b001 {
            Some(ClockOutSource::Moco)
        } else if value == 0b010 {
            Some(ClockOutSource::Loco)
        } else if value == 0b011 {
            Some(ClockOutSource::Mosc)
        } else if value == 0b100 {
            Some(ClockOutSource::Sosc)
        } else {
            None
        }
    }

    fn from_u8(value: u8) -> (r: Option<Self>)
        ensures
            r == Self::spec_from_u8(value),
    {
        match value {
            0b000 => Some(ClockOutSource::Hoco),
            0b001 => Some(ClockOutSource::Moco),
            0b010 => Some(ClockOutSource::Loco),
            0b011 => Some(ClockOutSource::Mosc),
            0b100 => Some(ClockOutSource::Sosc),
            _ => None,
        }
    }
}

/// Clock output divider (CKOCR.CKODIV): a power of two from 1 to 128.
#[derive(Copy, Clone, Debug, PartialEq, Eq, Structural)]
pub enum ClockOutDiv {
    Div1,
    Div2,
    Div4,
    Div8,
    Div16,
    Div32,
    Div64,
    Div128,
}

impl ClockOutDiv {
    pub open spec fn spec_bits(self) -> u8 {
        match self {
            ClockOutDiv::Div1 => 0b000,
            ClockOutDiv::Div2 => 0b001,
            ClockOutDiv::Div4 => 0b010,
            ClockOutDiv::Div8 => 0b011,
            ClockOutDiv::Div16 => 0b100,
            ClockOutDiv::Div32 => 0b101,
            ClockOutDiv::Div64 => 0b110,
            ClockOutDiv::Div128 => 0b111,
        }
    }

    pub fn bits(self) -> (b: u8)
        ensures
            b == self.spec_bits(),
    {
        match self {
            ClockOutDiv::Div1 => 0b000,
            ClockOutDiv::Div2 => 0b001,
            ClockOutDiv::Div4 => 0b010,
            ClockOutDiv::Div8 => 0b011,
            ClockOutDiv::Div16 => 0b100,
            ClockOutDiv::Div32 => 0b101,
            ClockOutDiv::Div64 => 0b110,
            ClockOutDiv::Div128 => 0b111,
        }
    }

    /// The division ratio.
    pub open spec fn spec_value(self) -> u32 {
        match self {
            ClockOutDiv::Div1 => 1,
            ClockOutDiv::Div2 => 2,
            ClockOutDiv::Div4 => 4,
            ClockOutDiv::Div8 => 8,
            ClockOutDiv::Div16 => 16,
            ClockOutDiv::Div32 => 32,
            ClockOutDiv::Div64 => 64,
            ClockOutDiv::Div128 => 128,
        }
    }

    pub fn value(self) -> (v: u32)
        ensures
            v == self.spec_value(),
    {
        match self {
            ClockOutDiv::Div1 => 1,
            ClockOutDiv::Div2 => 2,
            ClockOutDiv::Div4 => 4,
            ClockOutDiv::Div8 => 8,
            ClockOutDiv::Div16 => 16,
            ClockOutDiv::Div32 => 32,
            ClockOutDiv::Div64 => 64,
            ClockOutDiv::Div128 => 128,
        }
    }

    pub open spec fn spec_from_u8(value: u8) -> Option<ClockOutDiv> {
        if value == 0b000 {
            Some(ClockOutDiv::Div1)
        } else if value == 0b001 {
            Some(ClockOutDiv::Div2)
        } else if value == 0b010 {
            Some(ClockOutDiv::Div4)
        } else if value == 0b011 {
            Some(ClockOutDiv::Div8)
        } else if value == 0b100 {
            Some(ClockOutDiv::Div16)
        } else if value == 0b101 {
            Some(ClockOutDiv::Div32)
        } else if value == 0b110 {
            Some(ClockOutDiv::Div64)
        } else if value == 0b111 {
            Some(ClockOutDiv::Div128)
        } else {
            None
        }
    }

    fn from_u8(value: u8) -> (r: Option<Self>)
        ensures
            r == Self::spec_from_u8(value),
    {
        match value {
            0b000 => Some(ClockOutDiv::Div1),
            0b001 => Some(ClockOutDiv::Div2),
            0b010 => Some(ClockOutDiv::Div4),
            0b011 => Some(ClockOutDiv::Div8),
            0b100 => Some(ClockOutDiv::Div16),
            0b101 => Some(ClockOutDiv::Div32),
            0b110 => Some(ClockOutDiv::Div64),
            0b111 => Some(ClockOutDiv::Div128),
            _ => None,
        }
    }
}

/// A clock that can drive the clock output.
pub trait ClockOutSources {
    /// The frequency that the clock runs at, or why it is not known.
    spec fn spec_hz(&self, regs: SyscRegs) -> Result<u32, RegisterError>;

    spec fn spec_as_source(&self) -> ClockOutSource;

    fn hz(&self, regs: &SyscRegs) -> (r: Result<u32, RegisterError>)
        ensures
            r == self.spec_hz(*regs);

    fn as_source(&self) -> (s: ClockOutSource)
        ensures
            s == self.spec_as_source();
}

impl ClockOutSources for Hoco {
    open spec fn spec_hz(&self, regs: SyscRegs) -> Result<u32, RegisterError> {
        match HocoFreq::spec_from_u8(regs.hoco.hcfrq0) {
            Some(f) => Ok(f.spec_hz()),
            None => Err(RegisterError::InvalidValue("HOCO has unknown frequency.")),
        }
    }

    open spec fn spec_as_source(&self) -> ClockOutSource {
        ClockOutSource::Hoco
    }

    fn hz(&self, regs: &SyscRegs) -> (r: Result<u32, RegisterError>) {
        if let Some(freq) = self.get_freq(regs) {
            Ok(freq.hz())
        } else {
            Err(RegisterError::InvalidValue("HOCO has unknown frequency."))
        }
    }

    fn as_source(&self) -> (s: ClockOutSource) {
        ClockOutSource::Hoco
    }
}

impl ClockOutSources for Moco {
    open spec fn spec_hz(&self, regs: SyscRegs) -> Result<u32, RegisterError> {
        Ok(MOCO_HZ)
    }

    open spec fn spec_as_source(&self) -> ClockOutSource {
        ClockOutSource::Moco
    }

    fn hz(&self, regs: &SyscRegs) -> (r: Result<u32, RegisterError>) {
        Ok(MOCO_HZ)
    }

    fn as_source(&self) -> (s: ClockOutSource) {
        ClockOutSource::Moco
    }
}

impl ClockOutSources for Loco {
    open spec fn spec_hz(&self, regs: SyscRegs) -> Result<u32, RegisterError> {
        Ok(LOCO_HZ)
    }

    open spec fn spec_as_source(&self) -> ClockOutSource {
        ClockOutSource::Loco
    }

    fn hz(&self, regs: &SyscRegs) -> (r: Result<u32, RegisterError>) {
        Ok(LOCO_HZ)
    }

    fn as_source(&self) -> (s: ClockOutSource) {
        ClockOutSource::Loco
    }
}

impl ClockOutSources for Mosc {
    open spec fn spec_hz(&self, regs: SyscRegs) -> Result<u32, RegisterError> {
        match self.spec_freq() {
            Some(f) => Ok(f),
            None => Err(RegisterError::InvalidValue("MOSC is not initialized.")),
        }
    }

    open spec fn spec_as_source(&self) -> ClockOutSource {
        ClockOutSource::Mosc
    }

    fn hz(&self, regs: &SyscRegs) -> (r: Result<u32, RegisterError>) {
        match self.get_freq() {
            Some(freq) => Ok(freq),
            None => Err(RegisterError::InvalidValue("MOSC is not initialized.")),
        }
    }

    fn as_source(&self) -> (s: ClockOutSource) {
        ClockOutSource::Mosc
    }
}

impl ClockOutSources for Sosc {
    open spec fn spec_hz(&self, regs: SyscRegs) -> Result<u32, RegisterError> {
        Ok(SOSC_HZ)
    }

    open spec fn spec_as_source(&self) -> ClockOutSource {
        ClockOutSource::Sosc
    }

    fn hz(&self, regs: &SyscRegs) -> (r: Result<u32, RegisterError>) {
        Ok(SOSC_HZ)
    }

    fn as_source(&self) -> (s: ClockOutSource) {
        ClockOutSource::Sosc
    }
}

/// A clock output setting: its source, divider and the frequency that they give.
pub struct ClockOutConfig {
    source: ClockOutSource,
    freq: u32,
    div: ClockOutDiv,
}

impl ClockOutConfig {
    pub closed spec fn spec_source(&self) -> ClockOutSource {
        self.source
    }

    pub closed spec fn spec_freq(&self) -> u32 {
        self.freq
    }

    pub closed spec fn spec_div(&self) -> ClockOutDiv {
        self.div
    }

    /// Divides the source frequency by `div`.
    pub fn new<T: ClockOutSources>(source: &T, regs: &SyscRegs, div: ClockOutDiv) -> (r: Result<Self, RegisterError>)
        ensures
            match source.spec_hz(*regs) {
                Err(e) => r == Err::<Self, RegisterError>(e),
                Ok(base) => r matches Ok(c) && c.spec_source() == source.spec_as_source()
                    && c.spec_div() == div && c.spec_freq() == base / div.spec_value(),
            },
    {
        let base = match source.hz(regs) {
            Ok(b) => b,
            Err(e) => {
                return Err(e);
            },
        };
        let freq = base / div.value();
        Ok(ClockOutConfig { source: source.as_source(), freq, div })
    }

    pub fn source(&self) -> (r: ClockOutSource)
        ensures
            r == self.spec_source(),
    {
        self.source
    }

    pub fn freq(&self) -> (r: u32)
        ensures
            r == self.spec_freq(),
    {
        self.freq
    }

    pub fn div(&self) -> (r: ClockOutDiv)
        ensures
            r == self.spec_div(),
    {
        self.div
    }
}

/// The clock output (CLKOUT).
pub struct ClockOut {
    _id: (),
}

impl ClockOut {
    pub(crate) fn new() -> ClockOut {
        ClockOut { _id: () }
    }

    pub fn is_enabled(&self, regs: &SyscRegs) -> (r: bool)
        ensures
            r == regs.cko.ckoen,
    {
        regs.cko.ckoen
    }

    fn set_ckoen(&mut self, regs: &mut SyscRegs, enable: bool) -> (r: Result<(), RegisterError>)
        ensures
            old(regs).cko.ckoen == enable ==> r == Err::<(), RegisterError>(RegisterError::NotReadyToWrite(
                if enable { "Clock out is already enabled." } else { "Clock out is already disabled." })) && *final(regs) == *old(regs),
            old(regs).cko.ckoen != enable ==> r is Ok && *final(regs) == (SyscRegs {
                prcr: 0,
                cko: CkoRegs { ckoen: enable, ..old(regs).cko },
                ..*old(regs)
            }),
    {
        if self.is_enabled(regs) == enable {
            Err(RegisterError::NotReadyToWrite(if enable { "Clock out is already enabled." } else { "Clock out is already disabled." }))
        } else {
            prc0(regs, true);
            regs.cko.ckoen = enable;
            prc0(regs, false);
            Ok(())
        }
    }

    /// Turns the clock output on when it is off.
    pub fn enable(&mut self, regs: &mut SyscRegs) -> (r: Result<(), RegisterError>)
        ensures
            old(regs).cko.ckoen ==> r == Err::<(), RegisterError>(RegisterError::NotReadyToWrite(
                "Clock out is already enabled.")) && *final(regs) == *old(regs),
            !old(regs).cko.ckoen ==> r is Ok && *final(regs) == (SyscRegs {
                prcr: 0,
                cko: CkoRegs { ckoen: true, ..old(regs).cko },
                ..*old(regs)
            }),
    {
        self.set_ckoen(regs, true)
    }

    /// Turns the clock output off when it is on.
    pub fn disable(&mut self, regs: &mut SyscRegs) -> (r: Result<(), RegisterError>)
        ensures
            !old(regs).cko.ckoen ==> r == Err::<(), RegisterError>(RegisterError::NotReadyToWrite(
                "Clock out is already disabled.")) && *final(regs) == *old(regs),
            old(regs).cko.ckoen ==> r is Ok && *final(regs) == (SyscRegs {
                prcr: 0,
                cko: CkoRegs { ckoen: false, ..old(regs).cko },
                ..*old(regs)
            }),
    {
        self.set_ckoen(regs, false)
    }

    pub fn get_source(&self, regs: &SyscRegs) -> (r: Option<ClockOutSource>)
        ensures
            r == ClockOutSource::spec_from_u8(regs.cko.ckosel),
    {
        ClockOutSource::from_u8(regs.cko.ckosel)
    }

    pub fn get_div(&self, regs: &SyscRegs) -> (r: Option<ClockOutDiv>)
        ensures
            r == ClockOutDiv::spec_from_u8(regs.cko.ckodiv),
    {
        ClockOutDiv::from_u8(regs.cko.ckodiv)
    }

    /// Stores a clock output setting while the output is off.
    pub fn set_config(&mut self, regs: &mut SyscRegs, cfg: ClockOutConfig) -> (r: Result<(), RegisterError>)
        ensures
            old(regs).cko.ckoen ==> r == Err::<(), RegisterError>(RegisterError::NotReadyToWrite(
                "MOSC is not disabled.")) && *final(regs) == *old(regs),
            !old(regs).cko.ckoen ==> r is Ok && *final(regs) == (SyscRegs {
                prcr: 0,
                cko: CkoRegs { ckosel: cfg.spec_source().spec_bits(), ckodiv: cfg.spec_div().spec_bits(), ..old(regs).cko },
                ..*old(regs)
            }),
    {
        if self.is_enabled(regs) {
            Err(RegisterError::NotReadyToWrite("MOSC is not disabled."))
        } else {
            prc0(regs, true);
            regs.cko.ckosel = cfg.source.bits();
            regs.cko.ckodiv = cfg.div.bits();
            prc0(regs, false);
            Ok(())
        }
    }
}

// ---------------------------------------------------------------- USBCLK

/// USB clock divider (USBCKDIVCR.USBCKDIV).
#[derive(Copy, Clone, Debug, PartialEq, Eq, Structural)]
pub enum UsbClkDiv {
    Div4,
    Div3,
    Div5,
}

impl UsbClkDiv {
    pub open spec fn spec_bits(self) -> u8 {
        match self {
            UsbClkDiv::Div4 => 0b010,
            UsbClkDiv::Div3 => 0b101,
            UsbClkDiv::Div5 => 0b110,
        }
    }

    pub fn bits(self) -> (b: u8)
        ensures
            b == self.spec_bits(),
    {
        match self {
            UsbClkDiv::Div4 => 0b010,
            UsbClkDiv::Div3 => 0b101,
            UsbClkDiv::Div5 => 0b110,
        }
    }

    /// The division ratio.
    pub open spec fn spec_value(self) -> u32 {
        match self {
            UsbClkDiv::Div4 => 4,
            UsbClkDiv::Div3 => 3,
            UsbClkDiv::Div5 => 5,
        }
    }

    pub fn value(self) -> (v: u32)
        ensures
            v == self.spec_value(),
    {
        match self {
            UsbClkDiv::Div4 => 4,
            UsbClkDiv::Div3 => 3,
            UsbClkDiv::Div5 => 5,
        }
    }

    pub open spec fn spec_from_u8(value: u8) -> Option<UsbClkDiv> {
        if value == 0b010 {
            Some(UsbClkDiv::Div4)
        } else if value == 0b101 {
            Some(UsbClkDiv::Div3)
        } else if value == 0b110 {
            Some(UsbClkDiv::Div5)
        } else {
            None
        }
    }

    fn from_u8(value: u8) -> (r: Option<Self>)
        ensures
            r == Self::spec_from_u8(value),
    {
        match value {
            0b010 => Some(UsbClkDiv::Div4),
            0b101 => Some(UsbClkDiv::Div3),
            0b110 => Some(UsbClkDiv::Div5),
            _ => None,
        }
    }
}

/// USB clock source (USBCKCR.USBCKSEL).
#[derive(Copy, Clone, Debug, PartialEq, Eq, Structural)]
pub enum UsbClkSource {
    Pll,
    Pll2,
}

impl UsbClkSource {
    pub open spec fn spec_bits(self) -> u8 {
        match self {
            UsbClkSource::Pll => 0b101,
            UsbClkSource::Pll2 => 0b110,
        }
    }

    pub fn bits(self) -> (b: u8)
        ensures
            b == self.spec_bits(),
    {
        match self {
            UsbClkSource::Pll => 0b101,
            UsbClkSource::Pll2 => 0b110,
        }
    }

    pub open spec fn spec_from_u8(value: u8) -> Option<UsbClkSource> {
        if value == 0b101 {
            Some(UsbClkSource::Pll)
        } else if value == 0b110 {
            Some(UsbClkSource::Pll2)
        } else {
            None
        }
    }

    fn from_u8(value: u8) -> (r: Option<Self>)
        ensures
            r == Self::spec_from_u8(value),
    {
        match value {
            0b101 => Some(UsbClkSource::Pll),
            0b110 => Some(UsbClkSource::Pll2),
            _ => None,
        }
    }
}

/// A clock that can drive the USB clock.
pub trait UsbClkSources {
    /// The frequency that the clock runs at, or why it is not known.
    spec fn spec_hz(&self, regs: SyscRegs) -> Result<u32, RegisterError>;

    spec fn spec_as_source(&self) -> UsbClkSource;

    fn hz(&self, regs: &SyscRegs) -> (r: Result<u32, RegisterError>)
        ensures
            r == self.spec_hz(*regs);

    fn as_source(&self) -> (s: UsbClkSource)
        ensures
            s == self.spec_as_source();
}

impl UsbClkSources for Pll {
    open spec fn spec_hz(&self, regs: SyscRegs) -> Result<u32, RegisterError> {
        match self.spec_freq() {
            Some(f) => Ok(f),
            None => Err(RegisterError::InvalidValue("PLL is not initialized.")),
        }
    }

    open spec fn spec_as_source(&self) -> UsbClkSource {
        UsbClkSource::Pll
    }

    fn hz(&self, regs: &SyscRegs) -> (r: Result<u32, RegisterError>) {
        match self.get_freq() {
            Some(freq) => Ok(freq),
            None => Err(RegisterError::InvalidValue("PLL is not initialized.")),
        }
    }

    fn as_source(&self) -> (s: UsbClkSource) {
        UsbClkSource::Pll
    }
}

impl UsbClkSources for Pll2 {
    open spec fn spec_hz(&self, regs: SyscRegs) -> Result<u32, RegisterError> {
        match self.spec_freq() {
            Some(f) => Ok(f),
            None => Err(RegisterError::InvalidValue("PLL2 is not initialized.")),
        }
    }

    open spec fn spec_as_source(&self) -> UsbClkSource {
        UsbClkSource::Pll2
    }

    fn hz(&self, regs: &SyscRegs) -> (r: Result<u32, RegisterError>) {
        match self.get_freq() {
            Some(freq) => Ok(freq),
            None => Err(RegisterError::InvalidValue("PLL2 is not initialized.")),
        }
    }

    fn as_source(&self) -> (s: UsbClkSource) {
        UsbClkSource::Pll2
    }
}

/// A checked USBCK setting: its source and divider.
pub struct UsbClkConfig {
    source: UsbClkSource,
    div: UsbClkDiv,
}

impl UsbClkConfig {
    pub closed spec fn spec_source(&self) -> UsbClkSource {
        self.source
    }

    pub closed spec fn spec_div(&self) -> UsbClkDiv {
        self.div
    }

    /// Divides the source frequency by `div`; the setting is accepted when
    /// the result is exactly 48 MHz.
    pub fn new<T: UsbClkSources>(source: &T, regs: &SyscRegs, div: UsbClkDiv) -> (r: Result<Self, RegisterError>)
        ensures
            match source.spec_hz(*regs) {
                Err(e) => r == Err::<Self, RegisterError>(e),
                Ok(base) => {
                    let freq = base / div.spec_value();
                    if freq == USBCLK_HZ {
                        r matches Ok(c) && c.spec_source() == source.spec_as_source() && c.spec_div() == div
                    } else {
                        r == Err::<Self, RegisterError>(RegisterError::InvalidValue("USBCLK frequency must be 48MHz."))
                    }
                },
            },
    {
        let base = match source.hz(regs) {
            Ok(b) => b,
            Err(e) => {
                return Err(e);
            },
        };
        let freq = base / div.value();
        if freq == USBCLK_HZ {
            Ok(UsbClkConfig { source: source.as_source(), div })
        } else {
            Err(RegisterError::InvalidValue("USBCLK frequency must be 48MHz."))
        }
    }

    pub fn source(&self) -> (r: UsbClkSource)
        ensures
            r == self.spec_source(),
    {
        self.source
    }

    pub fn div(&self) -> (r: UsbClkDiv)
        ensures
            r == self.spec_div(),
    {
        self.div
    }
}

/// The USB clock (USBCLK).
pub struct UsbClk {
    _id: (),
}

impl UsbClk {
    pub(crate) fn new() -> UsbClk {
        UsbClk { _id: () }
    }

    /// Both the source selection and the divider hold a value that this driver knows.
    pub fn is_available(&self, regs: &SyscRegs) -> (r: bool)
        ensures
            r == (UsbClkSource::spec_from_u8(regs.usbck.sel) is Some && UsbClkDiv::spec_from_u8(regs.usbck.div) is Some),
    {
        match (self.get_source(regs), self.get_div(regs)) {
            (Some(_), Some(_)) => true,
            _ => false,
        }
    }

    pub fn get_source(&self, regs: &SyscRegs) -> (r: Option<UsbClkSource>)
        ensures
            r == UsbClkSource::spec_from_u8(regs.usbck.sel),
    {
        UsbClkSource::from_u8(regs.usbck.sel)
    }

    pub fn get_div(&self, regs: &SyscRegs) -> (r: Option<UsbClkDiv>)
        ensures
            r == UsbClkDiv::spec_from_u8(regs.usbck.div),
    {
        UsbClkDiv::from_u8(regs.usbck.div)
    }

    /// Switches the clock to a checked setting. The caller requests the switch
    /// (USBCKCR.USBCKSREQ = 1) and waits for USBCKSRDY around the writes.
    pub fn set_config(&mut self, regs: &mut SyscRegs, cfg: UsbClkConfig) -> (r: Result<(), RegisterError>)
        ensures
            r is Ok,
            *final(regs) == (SyscRegs {
                prcr: 0,
                usbck: PeriphClkRegs { sel: cfg.spec_source().spec_bits(), sreq: false, div: cfg.spec_div().spec_bits() },
                ..*old(regs)
            }),
    {
        prc0(regs, true);
        regs.usbck.sreq = true;
        regs.usbck.div = cfg.div.bits();
        regs.usbck.sel = cfg.source.bits();
        regs.usbck.sreq = false;
        prc0(regs, false);
        Ok(())
    }
}

// ---------------------------------------------------------------- OCTACLK

/// Octal-SPI clock divider (OCTACKDIVCR.OCTACKDIV).
#[derive(Copy, Clone, Debug, PartialEq, Eq, Structural)]
pub enum OctaClkDiv {
    Div1,
    Div2,
    Div4,
    Div6,
    Div8,
}

impl OctaClkDiv {
    pub open spec fn spec_bits(self) -> u8 {
        match self {
            OctaClkDiv::Div1 => 0b000,
            OctaClkDiv::Div2 => 0b001,
            OctaClkDiv::Div4 => 0b010,
            OctaClkDiv::Div6 => 0b011,
            OctaClkDiv::Div8 => 0b100,
        }
    }

    pub fn bits(self) -> (b: u8)
        ensures
            b == self.spec_bits(),
    {
        match self {
            OctaClkDiv::Div1 => 0b000,
            OctaClkDiv::Div2 => 0b001,
            OctaClkDiv::Div4 => 0b010,
            OctaClkDiv::Div6 => 0b011,
            OctaClkDiv::Div8 => 0b100,
        }
    }

    /// The division ratio.
    pub open spec fn spec_value(self) -> u32 {
        match self {
            OctaClkDiv::Div1 => 1,
            OctaClkDiv::Div2 => 2,
            OctaClkDiv::Div4 => 4,
            OctaClkDiv::Div6 => 6,
            OctaClkDiv::Div8 => 8,
        }
    }

    pub fn value(self) -> (v: u32)
        ensures
            v == self.spec_value(),
    {
        match self {
            OctaClkDiv::Div1 => 1,
            OctaClkDiv::Div2 => 2,
            OctaClkDiv::Div4 => 4,
            OctaClkDiv::Div6 => 6,
            OctaClkDiv::Div8 => 8,
        }
    }

    pub open spec fn spec_from_u8(value: u8) -> Option<OctaClkDiv> {
        if value == 0b000 {
            Some(OctaClkDiv::Div1)
        } else if value == 0b001 {
            Some(OctaClkDiv::Div2)
        } else if value == 0b010 {
            Some(OctaClkDiv::Div4)
        } else if value == 0b011 {
            Some(OctaClkDiv::Div6)
        } else if value == 0b100 {
            Some(OctaClkDiv::Div8)
        } else {
            None
        }
    }

    fn from_u8(value: u8) -> (r: Option<Self>)
        ensures
            r == Self::spec_from_u8(value),
    {
        match value {
            0b000 => Some(OctaClkDiv::Div1),
            0b001 => Some(OctaClkDiv::Div2),
            0b010 => Some(OctaClkDiv::Div4),
            0b011 => Some(OctaClkDiv::Div6),
            0b100 => Some(OctaClkDiv::Div8),
            _ => None,
        }
    }
}

/// Octal-SPI clock source (OCTACKCR.OCTACKSEL). Reading the selection back recognizes only the PLLs.
#[derive(Copy, Clone, Debug, PartialEq, Eq, Structural)]
pub enum OctaClkSource {
    Hoco,
    Moco,
    Loco,
    Mosc,
    Sosc,
    Pll,
    Pll2,
}

impl OctaClkSource {
    pub open spec fn spec_bits(self) -> u8 {
        match self {
            OctaClkSource::Hoco => 0b000,
            OctaClkSource::Moco => 0b001,
            OctaClkSource::Loco => 0b010,
            OctaClkSource::Mosc => 0b011,
            OctaClkSource::Sosc => 0b100,
            OctaClkSource::Pll => 0b101,
            OctaClkSource::Pll2 => 0b110,
        }
    }

    pub fn bits(self) -> (b: u8)
        ensures
            b == self.spec_bits(),
    {
        match self {
            OctaClkSource::Hoco => 0b000,
            OctaClkSource::Moco => 0b001,
            OctaClkSource::Loco => 0b010,
            OctaClkSource::Mosc => 0b011,
            OctaClkSource::Sosc => 0b100,
            OctaClkSource::Pll => 0b101,
            OctaClkSource::Pll2 => 0b110,
        }
    }

    pub open spec fn spec_from_u8(value: u8) -> Option<OctaClkSource> {
        if value == 0b101 {
            Some(OctaClkSource::Pll)
        } else if value == 0b110 {
            Some(OctaClkSource::Pll2)
        } else {
            None
        }
    }

    fn from_u8(value: u8) -> (r: Option<Self>)
        ensures
            r == Self::spec_from_u8(value),
    {
        match value {
            0b101 => Some(OctaClkSource::Pll),
            0b110 => Some(OctaClkSource::Pll2),
            _ => None,
        }
    }
}

/// A clock that can drive the octal-SPI clock.
pub trait OctaClkSources {
    /// The frequency that the clock runs at, or why it is not known.
    spec fn spec_hz(&self, regs: SyscRegs) -> Result<u32, RegisterError>;

    spec fn spec_as_source(&self) -> OctaClkSource;

    fn hz(&self, regs: &SyscRegs) -> (r: Result<u32, RegisterError>)
        ensures
            r == self.spec_hz(*regs);

    fn as_source(&self) -> (s: OctaClkSource)
        ensures
            s == self.spec_as_source();
}

impl OctaClkSources for Hoco {
    open spec fn spec_hz(&self, regs: SyscRegs) -> Result<u32, RegisterError> {
        match HocoFreq::spec_from_u8(regs.hoco.hcfrq0) {
            Some(f) => Ok(f.spec_hz()),
            None => Err(RegisterError::InvalidValue("HOCO has unknown frequency.")),
        }
    }

    open spec fn spec_as_source(&self) -> OctaClkSource {
        OctaClkSource::Hoco
    }

    fn hz(&self, regs: &SyscRegs) -> (r: Result<u32, RegisterError>) {
        if let Some(freq) = self.get_freq(regs) {
            Ok(freq.hz())
        } else {
            Err(RegisterError::InvalidValue("HOCO has unknown frequency."))
        }
    }

    fn as_source(&self) -> (s: OctaClkSource) {
        OctaClkSource::Hoco
    }
}

impl OctaClkSources for Moco {
    open spec fn spec_hz(&self, regs: SyscRegs) -> Result<u32, RegisterError> {
        Ok(MOCO_HZ)
    }

    open spec fn spec_as_source(&self) -> OctaClkSource {
        OctaClkSource::Moco
    }

    fn hz(&self, regs: &SyscRegs) -> (r: Result<u32, RegisterError>) {
        Ok(MOCO_HZ)
    }

    fn as_source(&self) -> (s: OctaClkSource) {
        OctaClkSource::Moco
    }
}

impl OctaClkSources for Loco {
    open spec fn spec_hz(&self, regs: SyscRegs) -> Result<u32, RegisterError> {
        Ok(LOCO_HZ)
    }

    open spec fn spec_as_source(&self) -> OctaClkSource {
        OctaClkSource::Loco
    }

    fn hz(&self, regs: &SyscRegs) -> (r: Result<u32, RegisterError>) {
        Ok(LOCO_HZ)
    }

    fn as_source(&self) -> (s: OctaClkSource) {
        OctaClkSource::Loco
    }
}

impl OctaClkSources for Mosc {
    open spec fn spec_hz(&self, regs: SyscRegs) -> Result<u32, RegisterError> {
        match self.spec_freq() {
            Some(f) => Ok(f),
            None => Err(RegisterError::InvalidValue("MOSC is not initialized.")),
        }
    }

    open spec fn spec_as_source(&self) -> OctaClkSource {
        OctaClkSource::Mosc
    }

    fn hz(&self, regs: &SyscRegs) -> (r: Result<u32, RegisterError>) {
        match self.get_freq() {
            Some(freq) => Ok(freq),
            None => Err(RegisterError::InvalidValue("MOSC is not initialized.")),
        }
    }

    fn as_source(&self) -> (s: OctaClkSource) {
        OctaClkSource::Mosc
    }
}

impl OctaClkSources for Sosc {
    open spec fn spec_hz(&self, regs: SyscRegs) -> Result<u32, RegisterError> {
        Ok(SOSC_HZ)
    }

    open spec fn spec_as_source(&self) -> OctaClkSource {
        OctaClkSource::Sosc
    }

    fn hz(&self, regs: &SyscRegs) -> (r: Result<u32, RegisterError>) {
        Ok(SOSC_HZ)
    }

    fn as_source(&self) -> (s: OctaClkSource) {
        OctaClkSource::Sosc
    }
}

impl OctaClkSources for Pll {
    open spec fn spec_hz(&self, regs: SyscRegs) -> Result<u32, RegisterError> {
        match self.spec_freq() {
            Some(f) => Ok(f),
            None => Err(RegisterError::InvalidValue("PLL is not initialized.")),
        }
    }

    open spec fn spec_as_source(&self) -> OctaClkSource {
        OctaClkSource::Pll
    }

    fn hz(&self, regs: &SyscRegs) -> (r: Result<u32, RegisterError>) {
        match self.get_freq() {
            Some(freq) => Ok(freq),
            None => Err(RegisterError::InvalidValue("PLL is not initialized.")),
        }
    }

    fn as_source(&self) -> (s: OctaClkSource) {
        OctaClkSource::Pll
    }
}

impl OctaClkSources for Pll2 {
    open spec fn spec_hz(&self, regs: SyscRegs) -> Result<u32, RegisterError> {
        match self.spec_freq() {
            Some(f) => Ok(f),
            None => Err(RegisterError::InvalidValue("PLL2 is not initialized.")),
        }
    }

    open spec fn spec_as_source(&self) -> OctaClkSource {
        OctaClkSource::Pll2
    }

    fn hz(&self, regs: &SyscRegs) -> (r: Result<u32, RegisterError>) {
        match self.get_freq() {
            Some(freq) => Ok(freq),
            None => Err(RegisterError::InvalidValue("PLL2 is not initialized.")),
        }
    }

    fn as_source(&self) -> (s: OctaClkSource) {
        OctaClkSource::Pll2
    }
}

/// A checked OCTACK setting: its source and divider.
pub struct OctaClkConfig {
    freq: u32,
    source: OctaClkSource,
    div: OctaClkDiv,
}

impl OctaClkConfig {
    pub closed spec fn spec_freq(&self) -> u32 {
        self.freq
    }

    pub closed spec fn spec_source(&self) -> OctaClkSource {
        self.source
    }

    pub closed spec fn spec_div(&self) -> OctaClkDiv {
        self.div
    }

    /// Divides the source frequency by `div`; the setting is accepted when
    /// the result is above 200 MHz.
    pub fn new<T: OctaClkSources>(source: &T, regs: &SyscRegs, div: OctaClkDiv) -> (r: Result<Self, RegisterError>)
        ensures
            match source.spec_hz(*regs) {
                Err(e) => r == Err::<Self, RegisterError>(e),
                Ok(base) => {
                    let freq = base / div.spec_value();
                    if freq > OCTACLK_HZ_MAX {
                        r matches Ok(c) && c.spec_source() == source.spec_as_source() && c.spec_div() == div && c.spec_freq() == freq
                    } else {
                        r == Err::<Self, RegisterError>(RegisterError::InvalidValue("Max OCTACLK frequency is 200MHz."))
                    }
                },
            },
    {
        let base = match source.hz(regs) {
            Ok(b) => b,
            Err(e) => {
                return Err(e);
            },
        };
        let freq = base / div.value();
        if freq > OCTACLK_HZ_MAX {
            Ok(OctaClkConfig { freq, source: source.as_source(), div })
        } else {
            Err(RegisterError::InvalidValue("Max OCTACLK frequency is 200MHz."))
        }
    }

    pub fn freq(&self) -> (r: u32)
        ensures
            r == self.spec_freq(),
    {
        self.freq
    }

    pub fn source(&self) -> (r: OctaClkSource)
        ensures
            r == self.spec_source(),
    {
        self.source
    }

    pub fn div(&self) -> (r: OctaClkDiv)
        ensures
            r == self.spec_div(),
    {
        self.div
    }
}

/// The octal-SPI clock (OCTACLK).
pub struct OctaClk {
    _id: (),
}

impl OctaClk {
    pub(crate) fn new() -> OctaClk {
        OctaClk { _id: () }
    }

    /// Both the source selection and the divider hold a value that this driver knows.
    pub fn is_available(&self, regs: &SyscRegs) -> (r: bool)
        ensures
            r == (OctaClkSource::spec_from_u8(regs.octack.sel) is Some && OctaClkDiv::spec_from_u8(regs.octack.div) is Some),
    {
        match (self.get_source(regs), self.get_div(regs)) {
            (Some(_), Some(_)) => true,
            _ => false,
        }
    }

    pub fn get_source(&self, regs: &SyscRegs) -> (r: Option<OctaClkSource>)
        ensures
            r == OctaClkSource::spec_from_u8(regs.octack.sel),
    {
        OctaClkSource::from_u8(regs.octack.sel)
    }

    pub fn get_div(&self, regs: &SyscRegs) -> (r: Option<OctaClkDiv>)
        ensures
            r == OctaClkDiv::spec_from_u8(regs.octack.div),
    {
        OctaClkDiv::from_u8(regs.octack.div)
    }

    /// Switches the clock to a checked setting. The caller requests the switch
    /// (OCTACKCR.OCTACKSREQ = 1) and waits for OCTACKSRDY around the writes.
    pub fn set_config(&mut self, regs: &mut SyscRegs, cfg: OctaClkConfig) -> (r: Result<(), RegisterError>)
        ensures
            r is Ok,
            *final(regs) == (SyscRegs {
                prcr: 0,
                octack: PeriphClkRegs { sel: cfg.spec_source().spec_bits(), sreq: false, div: cfg.spec_div().spec_bits() },
                ..*old(regs)
            }),
    {
        prc0(regs, true);
        regs.octack.sreq = true;
        regs.octack.div = cfg.div.bits();
        regs.octack.sel = cfg.source.bits();
        regs.octack.sreq = false;
        prc0(regs, false);
        Ok(())
    }
}

// ---------------------------------------------------------------- CANFDCLK

/// CANFD clock divider (CANFDCKDIVCR).
#[derive(Copy, Clone, Debug, PartialEq, Eq, Structural)]
pub enum CanfdClkDiv {
    Div1,
    Div2,
    Div4,
    Div6,
}

impl CanfdClkDiv {
    pub open spec fn spec_bits(self) -> u8 {
        match self {
            CanfdClkDiv::Div1 => 0b000,
            CanfdClkDiv::Div2 => 0b001,
            CanfdClkDiv::Div4 => 0b010,
            CanfdClkDiv::Div6 => 0b011,
        }
    }

    pub fn bits(self) -> (b: u8)
        ensures
            b == self.spec_bits(),
    {
        match self {
            CanfdClkDiv::Div1 => 0b000,
            CanfdClkDiv::Div2 => 0b001,
            CanfdClkDiv::Div4 => 0b010,
            CanfdClkDiv::Div6 => 0b011,
        }
    }

    /// The division ratio.
    pub open spec fn spec_value(self) -> u32 {
        match self {
            CanfdClkDiv::Div1 => 1,
            CanfdClkDiv::Div2 => 2,
            CanfdClkDiv::Div4 => 4,
            CanfdClkDiv::Div6 => 6,
        }
    }

    pub fn value(self) -> (v: u32)
        ensures
            v == self.spec_value(),
    {
        match self {
            CanfdClkDiv::Div1 => 1,
            CanfdClkDiv::Div2 => 2,
            CanfdClkDiv::Div4 => 4,
            CanfdClkDiv::Div6 => 6,
        }
    }

    pub open spec fn spec_from_u8(value: u8) -> Option<CanfdClkDiv> {
        if value == 0b000 {
            Some(CanfdClkDiv::Div1)
        } else if value == 0b001 {
            Some(CanfdClkDiv::Div2)
        } else if value == 0b010 {
            Some(CanfdClkDiv::Div4)
        } else if value == 0b011 {
            Some(CanfdClkDiv::Div6)
        } else {
            None
        }
    }

    fn from_u8(value: u8) -> (r: Option<Self>)
        ensures
            r == Self::spec_from_u8(value),
    {
        match value {
            0b000 => Some(CanfdClkDiv::Div1),
            0b001 => Some(CanfdClkDiv::Div2),
            0b010 => Some(CanfdClkDiv::Div4),
            0b011 => Some(CanfdClkDiv::Div6),
            _ => None,
        }
    }
}

/// CANFD clock source (CANFDCKCR.CANFDCKSEL).
#[derive(Copy, Clone, Debug, PartialEq, Eq, Structural)]
pub enum CanfdClkSource {
    Pll,
    Pll2,
}

impl CanfdClkSource {
    pub open spec fn spec_bits(self) -> u8 {
        match self {
            CanfdClkSource::Pll => 0b101,
            CanfdClkSource::Pll2 => 0b110,
        }
    }

    pub fn bits(self) -> (b: u8)
        ensures
            b == self.spec_bits(),
    {
        match self {
            CanfdClkSource::Pll => 0b101,
            CanfdClkSource::Pll2 => 0b110,
        }
    }

    pub open spec fn spec_from_u8(value: u8) -> Option<CanfdClkSource> {
        if value == 0b101 {
            Some(CanfdClkSource::Pll)
        } else if value == 0b110 {
            Some(CanfdClkSource::Pll2)
        } else {
            None
        }
    }

    fn from_u8(value: u8) -> (r: Option<Self>)
        ensures
            r == Self::spec_from_u8(value),
    {
        match value {
            0b101 => Some(CanfdClkSource::Pll),
            0b110 => Some(CanfdClkSource::Pll2),
            _ => None,
        }
    }
}

/// A clock that can drive the CANFD clock.
pub trait CanfdClkSources {
    /// The frequency that the clock runs at, or why it is not known.
    spec fn spec_hz(&self, regs: SyscRegs) -> Result<u32, RegisterError>;

    spec fn spec_as_source(&self) -> CanfdClkSource;

    fn hz(&self, regs: &SyscRegs) -> (r: Result<u32, RegisterError>)
        ensures
            r == self.spec_hz(*regs);

    fn as_source(&self) -> (s: CanfdClkSource)
        ensures
            s == self.spec_as_source();
}

impl CanfdClkSources for Pll {
    open spec fn spec_hz(&self, regs: SyscRegs) -> Result<u32, RegisterError> {
        match self.spec_freq() {
            Some(f) => Ok(f),
            None => Err(RegisterError::InvalidValue("PLL is not initialized.")),
        }
    }

    open spec fn spec_as_source(&self) -> CanfdClkSource {
        CanfdClkSource::Pll
    }

    fn hz(&self, regs: &SyscRegs) -> (r: Result<u32, RegisterError>) {
        match self.get_freq() {
            Some(freq) => Ok(freq),
            None => Err(RegisterError::InvalidValue("PLL is not initialized.")),
        }
    }

    fn as_source(&self) -> (s: CanfdClkSource) {
        CanfdClkSource::Pll
    }
}

impl CanfdClkSources for Pll2 {
    open spec fn spec_hz(&self, regs: SyscRegs) -> Result<u32, RegisterError> {
        match self.spec_freq() {
            Some(f) => Ok(f),
            None => Err(RegisterError::InvalidValue("PLL2 is not initialized.")),
        }
    }

    open spec fn spec_as_source(&self) -> CanfdClkSource {
        CanfdClkSource::Pll2
    }

    fn hz(&self, regs: &SyscRegs) -> (r: Result<u32, RegisterError>) {
        match self.get_freq() {
            Some(freq) => Ok(freq),
            None => Err(RegisterError::InvalidValue("PLL2 is not initialized.")),
        }
    }

    fn as_source(&self) -> (s: CanfdClkSource) {
        CanfdClkSource::Pll2
    }
}

/// A checked CANFDCK setting: its source and divider.
pub struct CanfdClkConfig {
    freq: u32,
    source: CanfdClkSource,
    div: CanfdClkDiv,
}

impl CanfdClkConfig {
    pub closed spec fn spec_freq(&self) -> u32 {
        self.freq
    }

    pub closed spec fn spec_source(&self) -> CanfdClkSource {
        self.source
    }

    pub closed spec fn spec_div(&self) -> CanfdClkDiv {
        self.div
    }

    /// Divides the source frequency by `div`; the setting is accepted when
    /// the result is above 40 MHz.
    pub fn new<T: CanfdClkSources>(source: &T, regs: &SyscRegs, div: CanfdClkDiv) -> (r: Result<Self, RegisterError>)
        ensures
            match source.spec_hz(*regs) {
                Err(e) => r == Err::<Self, RegisterError>(e),
                Ok(base) => {
                    let freq = base / div.spec_value();
                    if freq > CANFDCLK_HZ_MAX {
                        r matches Ok(c) && c.spec_source() == source.spec_as_source() && c.spec_div() == div && c.spec_freq() == freq
                    } else {
                        r == Err::<Self, RegisterError>(RegisterError::InvalidValue("Max CANFDCLK frequency is 40MHz."))
                    }
                },
            },
    {
        let base = match source.hz(regs) {
            Ok(b) => b,
            Err(e) => {
                return Err(e);
            },
        };
        let freq = base / div.value();
        if freq > CANFDCLK_HZ_MAX {
            Ok(CanfdClkConfig { freq, source: source.as_source(), div })
        } else {
            Err(RegisterError::InvalidValue("Max CANFDCLK frequency is 40MHz."))
        }
    }

    pub fn freq(&self) -> (r: u32)
        ensures
            r == self.spec_freq(),
    {
        self.freq
    }

    pub fn source(&self) -> (r: CanfdClkSource)
        ensures
            r == self.spec_source(),
    {
        self.source
    }

    pub fn div(&self) -> (r: CanfdClkDiv)
        ensures
            r == self.spec_div(),
    {
        self.div
    }
}

/// The CANFD clock (CANFDCLK).
pub struct CanfdClk {
    _id: (),
}

impl CanfdClk {
    pub(crate) fn new() -> CanfdClk {
        CanfdClk { _id: () }
    }

    /// Both the source selection and the divider hold a value that this driver knows.
    pub fn is_available(&self, regs: &SyscRegs) -> (r: bool)
        ensures
            r == (CanfdClkSource::spec_from_u8(regs.canfdck.sel) is Some && CanfdClkDiv::spec_from_u8(regs.canfdck.div) is Some),
    {
        match (self.get_source(regs), self.get_div(regs)) {
            (Some(_), Some(_)) => true,
            _ => false,
        }
    }

    pub fn get_source(&self, regs: &SyscRegs) -> (r: Option<CanfdClkSource>)
        ensures
            r == CanfdClkSource::spec_from_u8(regs.canfdck.sel),
    {
        CanfdClkSource::from_u8(regs.canfdck.sel)
    }

    pub fn get_div(&self, regs: &SyscRegs) -> (r: Option<CanfdClkDiv>)
        ensures
            r == CanfdClkDiv::spec_from_u8(regs.canfdck.div),
    {
        CanfdClkDiv::from_u8(regs.canfdck.div)
    }

    /// Switches the clock to a checked setting. The caller requests the switch
    /// (CANFDCKCR.CANFDCKSREQ = 1) and waits for CANFDCKSRDY around the writes.
    pub fn set_config(&mut self, regs: &mut SyscRegs, cfg: CanfdClkConfig) -> (r: Result<(), RegisterError>)
        ensures
            r is Ok,
            *final(regs) == (SyscRegs {
                prcr: 0,
                canfdck: PeriphClkRegs { sel: cfg.spec_source().spec_bits(), sreq: false, div: cfg.spec_div().spec_bits() },
                ..*old(regs)
            }),
    {
        prc0(regs, true);
        regs.canfdck.sreq = true;
        regs.canfdck.div = cfg.div.bits();
        regs.canfdck.sel = cfg.source.bits();
        regs.canfdck.sreq = false;
        prc0(regs, false);
        Ok(())
    }
}

// ---------------------------------------------------------------- USB60CLK

/// USB60 clock divider (USB60CKDIVCR.USB60CKDIV).
#[derive(Copy, Clone, Debug, PartialEq, Eq, Structural)]
pub enum Usb60ClkDiv {
    Div1,
    Div2,
    Div4,
    Div6,
    Div8,
    Div3,
    Div5,
}

impl Usb60ClkDiv {
    pub open spec fn spec_bits(self) -> u8 {
        match self {
            Usb60ClkDiv::Div1 => 0b000,
            Usb60ClkDiv::Div2 => 0b001,
            Usb60ClkDiv::Div4 => 0b010,
            Usb60ClkDiv::Div6 => 0b011,
            Usb60ClkDiv::Div8 => 0b100,
            Usb60ClkDiv::Div3 => 0b101,
            Usb60ClkDiv::Div5 => 0b110,
        }
    }

    pub fn bits(self) -> (b: u8)
        ensures
            b == self.spec_bits(),
    {
        match self {
            Usb60ClkDiv::Div1 => 0b000,
            Usb60ClkDiv::Div2 => 0b001,
            Usb60ClkDiv::Div4 => 0b010,
            Usb60ClkDiv::Div6 => 0b011,
            Usb60ClkDiv::Div8 => 0b100,
            Usb60ClkDiv::Div3 => 0b101,
            Usb60ClkDiv::Div5 => 0b110,
        }
    }

    /// The division ratio.
    pub open spec fn spec_value(self) -> u32 {
        match self {
            Usb60ClkDiv::Div1 => 1,
            Usb60ClkDiv::Div2 => 2,
            Usb60ClkDiv::Div4 => 4,
            Usb60ClkDiv::Div6 => 6,
            Usb60ClkDiv::Div8 => 8,
            Usb60ClkDiv::Div3 => 3,
            Usb60ClkDiv::Div5 => 5,
        }
    }

    pub fn value(self) -> (v: u32)
        ensures
            v == self.spec_value(),
    {
        match self {
            Usb60ClkDiv::Div1 => 1,
            Usb60ClkDiv::Div2 => 2,
            Usb60ClkDiv::Div4 => 4,
            Usb60ClkDiv::Div6 => 6,
            Usb60ClkDiv::Div8 => 8,
            Usb60ClkDiv::Div3 => 3,
            Usb60ClkDiv::Div5 => 5,
        }
    }

    pub open spec fn spec_from_u8(value: u8) -> Option<Usb60ClkDiv> {
        if value == 0b000 {
            Some(Usb60ClkDiv::Div1)
        } else if value == 0b001 {
            Some(Usb60ClkDiv::Div2)
        } else if value == 0b010 {
            Some(Usb60ClkDiv::Div4)
        } else if value == 0b011 {
            Some(Usb60ClkDiv::Div6)
        } else if value == 0b100 {
            Some(Usb60ClkDiv::Div8)
        } else if value == 0b101 {
            Some(Usb60ClkDiv::Div3)
        } else if value == 0b110 {
            Some(Usb60ClkDiv::Div5)
        } else {
            None
        }
    }

    fn from_u8(value: u8) -> (r: Option<Self>)
        ensures
            r == Self::spec_from_u8(value),
    {
        match value {
            0b000 => Some(Usb60ClkDiv::Div1),
            0b001 => Some(Usb60ClkDiv::Div2),
            0b010 => Some(Usb60ClkDiv::Div4),
            0b011 => Some(Usb60ClkDiv::Div6),
            0b100 => Some(Usb60ClkDiv::Div8),
            0b101 => Some(Usb60ClkDiv::Div3),
            0b110 => Some(Usb60ClkDiv::Div5),
            _ => None,
        }
    }
}

/// USB60 clock source (USB60CKCR.USB60CKSEL).
#[derive(Copy, Clone, Debug, PartialEq, Eq, Structural)]
pub enum Usb60ClkSource {
    Pll,
    Pll2,
}

impl Usb60ClkSource {
    pub open spec fn spec_bits(self) -> u8 {
        match self {
            Usb60ClkSource::Pll => 0b101,
            Usb60ClkSource::Pll2 => 0b110,
        }
    }

    pub fn bits(self) -> (b: u8)
        ensures
            b == self.spec_bits(),
    {
        match self {
            Usb60ClkSource::Pll => 0b101,
            Usb60ClkSource::Pll2 => 0b110,
        }
    }

    pub open spec fn spec_from_u8(value: u8) -> Option<Usb60ClkSource> {
        if value == 0b101 {
            Some(Usb60ClkSource::Pll)
        } else if value == 0b110 {
            Some(Usb60ClkSource::Pll2)
        } else {
            None
        }
    }

    fn from_u8(value: u8) -> (r: Option<Self>)
        ensures
            r == Self::spec_from_u8(value),
    {
        match value {
            0b101 => Some(Usb60ClkSource::Pll),
            0b110 => Some(Usb60ClkSource::Pll2),
            _ => None,
        }
    }
}

/// A clock that can drive the USB60 clock.
pub trait Usb60ClkSources {
    /// The frequency that the clock runs at, or why it is not known.
    spec fn spec_hz(&self, regs: SyscRegs) -> Result<u32, RegisterError>;

    spec fn spec_as_source(&self) -> Usb60ClkSource;

    fn hz(&self, regs: &SyscRegs) -> (r: Result<u32, RegisterError>)
        ensures
            r == self.spec_hz(*regs);

    fn as_source(&self) -> (s: Usb60ClkSource)
        ensures
            s == self.spec_as_source();
}

impl Usb60ClkSources for Pll {
    open spec fn spec_hz(&self, regs: SyscRegs) -> Result<u32, RegisterError> {
        match self.spec_freq() {
            Some(f) => Ok(f),
            None => Err(RegisterError::InvalidValue("PLL is not initialized.")),
        }
    }

    open spec fn spec_as_source(&self) -> Usb60ClkSource {
        Usb60ClkSource::Pll
    }

    fn hz(&self, regs: &SyscRegs) -> (r: Result<u32, RegisterError>) {
        match self.get_freq() {
            Some(freq) => Ok(freq),
            None => Err(RegisterError::InvalidValue("PLL is not initialized.")),
        }
    }

    fn as_source(&self) -> (s: Usb60ClkSource) {
        Usb60ClkSource::Pll
    }
}

impl Usb60ClkSources for Pll2 {
    open spec fn spec_hz(&self, regs: SyscRegs) -> Result<u32, RegisterError> {
        match self.spec_freq() {
            Some(f) => Ok(f),
            None => Err(RegisterError::InvalidValue("PLL2 is not initialized.")),
        }
    }

    open spec fn spec_as_source(&self) -> Usb60ClkSource {
        Usb60ClkSource::Pll2
    }

    fn hz(&self, regs: &SyscRegs) -> (r: Result<u32, RegisterError>) {
        match self.get_freq() {
            Some(freq) => Ok(freq),
            None => Err(RegisterError::InvalidValue("PLL2 is not initialized.")),
        }
    }

    fn as_source(&self) -> (s: Usb60ClkSource) {
        Usb60ClkSource::Pll2
    }
}

/// A checked USB60CK setting: its source and divider.
pub struct Usb60ClkConfig {
    source: Usb60ClkSource,
    div: Usb60ClkDiv,
}

impl Usb60ClkConfig {
    pub closed spec fn spec_source(&self) -> Usb60ClkSource {
        self.source
    }

    pub closed spec fn spec_div(&self) -> Usb60ClkDiv {
        self.div
    }

    /// Divides the source frequency by `div`; the setting is accepted when
    /// the result is exactly 60 MHz.
    pub fn new<T: Usb60ClkSources>(source: &T, regs: &SyscRegs, div: Usb60ClkDiv) -> (r: Result<Self, RegisterError>)
        ensures
            match source.spec_hz(*regs) {
                Err(e) => r == Err::<Self, RegisterError>(e),
                Ok(base) => {
                    let freq = base / div.spec_value();
                    if freq == USB60CLK_HZ {
                        r matches Ok(c) && c.spec_source() == source.spec_as_source() && c.spec_div() == div
                    } else {
                        r == Err::<Self, RegisterError>(RegisterError::InvalidValue("USB60CLK frequency must be 60MHz."))
                    }
                },
            },
    {
        let base = match source.hz(regs) {
            Ok(b) => b,
            Err(e) => {
                return Err(e);
            },
        };
        let freq = base / div.value();
        if freq == USB60CLK_HZ {
            Ok(Usb60ClkConfig { source: source.as_source(), div })
        } else {
            Err(RegisterError::InvalidValue("USB60CLK frequency must be 60MHz."))
        }
    }

    pub fn source(&self) -> (r: Usb60ClkSource)
        ensures
            r == self.spec_source(),
    {
        self.source
    }

    pub fn div(&self) -> (r: Usb60ClkDiv)
        ensures
            r == self.spec_div(),
    {
        self.div
    }
}

/// The USB high-speed clock (USB60CLK).
pub struct Usb60Clk {
    _id: (),
}

impl Usb60Clk {
    pub(crate) fn new() -> Usb60Clk {
        Usb60Clk { _id: () }
    }

    /// Both the source selection and the divider hold a value that this driver knows.
    pub fn is_available(&self, regs: &SyscRegs) -> (r: bool)
        ensures
            r == (Usb60ClkSource::spec_from_u8(regs.usb60ck.sel) is Some && Usb60ClkDiv::spec_from_u8(regs.usb60ck.div) is Some),
    {
        match (self.get_source(regs), self.get_div(regs)) {
            (Some(_), Some(_)) => true,
            _ => false,
        }
    }

    pub fn get_source(&self, regs: &SyscRegs) -> (r: Option<Usb60ClkSource>)
        ensures
            r == Usb60ClkSource::spec_from_u8(regs.usb60ck.sel),
    {
        Usb60ClkSource::from_u8(regs.usb60ck.sel)
    }

    pub fn get_div(&self, regs: &SyscRegs) -> (r: Option<Usb60ClkDiv>)
        ensures
            r == Usb60ClkDiv::spec_from_u8(regs.usb60ck.div),
    {
        Usb60ClkDiv::from_u8(regs.usb60ck.div)
    }

    /// Switches the clock to a checked setting. The caller requests the switch
    /// (USB60CKCR.USB60CKSREQ = 1) and waits for USB60CKSRDY around the writes.
    pub fn set_config(&mut self, regs: &mut SyscRegs, cfg: Usb60ClkConfig) -> (r: Result<(), RegisterError>)
        ensures
            r is Ok,
            *final(regs) == (SyscRegs {
                prcr: 0,
                usb60ck: PeriphClkRegs { sel: cfg.spec_source().spec_bits(), sreq: false, div: cfg.spec_div().spec_bits() },
                ..*old(regs)
            }),
    {
        prc0(regs, true);
        regs.usb60ck.sreq = true;
        regs.usb60ck.div = cfg.div.bits();
        regs.usb60ck.sel = cfg.source.bits();
        regs.usb60ck.sreq = false;
        prc0(regs, false);
        Ok(())
    }
}

// ---------------------------------------------------------------- CECCLK

/// CEC clock divider (CECCKDIVCR).
#[derive(Copy, Clone, Debug, PartialEq, Eq, Structural)]
pub enum CecClkDiv {
    Div1,
    Div2,
    Div4,
    Div6,
    Div8,
    Div3,
    Div5,
}

impl CecClkDiv {
    pub open spec fn spec_bits(self) -> u8 {
        match self {
            CecClkDiv::Div1 => 0b000,
            CecClkDiv::Div2 => 0b001,
            CecClkDiv::Div4 => 0b010,
            CecClkDiv::Div6 => 0b011,
            CecClkDiv::Div8 => 0b100,
            CecClkDiv::Div3 => 0b101,
            CecClkDiv::Div5 => 0b110,
        }
    }

    pub fn bits(self) -> (b: u8)
        ensures
            b == self.spec_bits(),
    {
        match self {
            CecClkDiv::Div1 => 0b000,
            CecClkDiv::Div2 => 0b001,
            CecClkDiv::Div4 => 0b010,
            CecClkDiv::Div6 => 0b011,
            CecClkDiv::Div8 => 0b100,
            CecClkDiv::Div3 => 0b101,
            CecClkDiv::Div5 => 0b110,
        }
    }

    /// The division ratio.
    pub open spec fn spec_value(self) -> u32 {
        match self {
            CecClkDiv::Div1 => 1,
            CecClkDiv::Div2 => 2,
            CecClkDiv::Div4 => 4,
            CecClkDiv::Div6 => 6,
            CecClkDiv::Div8 => 8,
            CecClkDiv::Div3 => 3,
            CecClkDiv::Div5 => 5,
        }
    }

    pub fn value(self) -> (v: u32)
        ensures
            v == self.spec_value(),
    {
        match self {
            CecClkDiv::Div1 => 1,
            CecClkDiv::Div2 => 2,
            CecClkDiv::Div4 => 4,
            CecClkDiv::Div6 => 6,
            CecClkDiv::Div8 => 8,
            CecClkDiv::Div3 => 3,
            CecClkDiv::Div5 => 5,
        }
    }

    pub open spec fn spec_from_u8(value: u8) -> Option<CecClkDiv> {
        if value == 0b000 {
            Some(CecClkDiv::Div1)
        } else if value == 0b001 {
            Some(CecClkDiv::Div2)
        } else if value == 0b010 {
            Some(CecClkDiv::Div4)
        } else if value == 0b011 {
            Some(CecClkDiv::Div6)
        } else if value == 0b100 {
            Some(CecClkDiv::Div8)
        } else if value == 0b101 {
            Some(CecClkDiv::Div3)
        } else if value == 0b110 {
            Some(CecClkDiv::Div5)
        } else {
            None
        }
    }

    fn from_u8(value: u8) -> (r: Option<Self>)
        ensures
            r == Self::spec_from_u8(value),
    {
        match value {
            0b000 => Some(CecClkDiv::Div1),
            0b001 => Some(CecClkDiv::Div2),
            0b010 => Some(CecClkDiv::Div4),
            0b011 => Some(CecClkDiv::Div6),
            0b100 => Some(CecClkDiv::Div8),
            0b101 => Some(CecClkDiv::Div3),
            0b110 => Some(CecClkDiv::Div5),
            _ => None,
        }
    }
}

/// CEC clock source (CECCKCR.CECCKSEL).
#[derive(Copy, Clone, Debug, PartialEq, Eq, Structural)]
pub enum CecClkSource {
    Mosc,
    Sosc,
}

impl CecClkSource {
    pub open spec fn spec_bits(self) -> u8 {
        match self {
            CecClkSource::Mosc => 0b011,
            CecClkSource::Sosc => 0b100,
        }
    }

    pub fn bits(self) -> (b: u8)
        ensures
            b == self.spec_bits(),
    {
        match self {
            CecClkSource::Mosc => 0b011,
            CecClkSource::Sosc => 0b100,
        }
    }

    pub open spec fn spec_from_u8(value: u8) -> Option<CecClkSource> {
        if value == 0b011 {
            Some(CecClkSource::Mosc)
        } else if value == 0b100 {
            Some(CecClkSource::Sosc)
        } else {
            None
        }
    }

    fn from_u8(value: u8) -> (r: Option<Self>)
        ensures
            r == Self::spec_from_u8(value),
    {
        match value {
            0b011 => Some(CecClkSource::Mosc),
            0b100 => Some(CecClkSource::Sosc),
            _ => None,
        }
    }
}

/// A clock that can drive the CEC clock.
pub trait CecClkSources {
    /// The frequency that the clock runs at, or why it is not known.
    spec fn spec_hz(&self, regs: SyscRegs) -> Result<u32, RegisterError>;

    spec fn spec_as_source(&self) -> CecClkSource;

    fn hz(&self, regs: &SyscRegs) -> (r: Result<u32, RegisterError>)
        ensures
            r == self.spec_hz(*regs);

    fn as_source(&self) -> (s: CecClkSource)
        ensures
            s == self.spec_as_source();
}

impl CecClkSources for Mosc {
    open spec fn spec_hz(&self, regs: SyscRegs) -> Result<u32, RegisterError> {
        match self.spec_freq() {
            Some(f) => Ok(f),
            None => Err(RegisterError::InvalidValue("MOSC is not initialized.")),
        }
    }

    open spec fn spec_as_source(&self) -> CecClkSource {
        CecClkSource::Mosc
    }

    fn hz(&self, regs: &SyscRegs) -> (r: Result<u32, RegisterError>) {
        match self.get_freq() {
            Some(freq) => Ok(freq),
            None => Err(RegisterError::InvalidValue("MOSC is not initialized.")),
        }
    }

    fn as_source(&self) -> (s: CecClkSource) {
        CecClkSource::Mosc
    }
}

impl CecClkSources for Sosc {
    open spec fn spec_hz(&self, regs: SyscRegs) -> Result<u32, RegisterError> {
        Ok(SOSC_HZ)
    }

    open spec fn spec_as_source(&self) -> CecClkSource {
        CecClkSource::Sosc
    }

    fn hz(&self, regs: &SyscRegs) -> (r: Result<u32, RegisterError>) {
        Ok(SOSC_HZ)
    }

    fn as_source(&self) -> (s: CecClkSource) {
        CecClkSource::Sosc
    }
}

/// A checked CECCK setting: its source and divider.
pub struct CecClkConfig {
    freq: u32,
    source: CecClkSource,
    div: CecClkDiv,
}

impl CecClkConfig {
    pub closed spec fn spec_freq(&self) -> u32 {
        self.freq
    }

    pub closed spec fn spec_source(&self) -> CecClkSource {
        self.source
    }

    pub closed spec fn spec_div(&self) -> CecClkDiv {
        self.div
    }

    /// Divides the source frequency by `div`; the setting is accepted when
    /// the result is above 20 MHz.
    pub fn new<T: CecClkSources>(source: &T, regs: &SyscRegs, div: CecClkDiv) -> (r: Result<Self, RegisterError>)
        ensures
            match source.spec_hz(*regs) {
                Err(e) => r == Err::<Self, RegisterError>(e),
                Ok(base) => {
                    let freq = base / div.spec_value();
                    if freq > CECCLK_HZ_MAX {
                        r matches Ok(c) && c.spec_source() == source.spec_as_source() && c.spec_div() == div && c.spec_freq() == freq
                    } else {
                        r == Err::<Self, RegisterError>(RegisterError::InvalidValue("Max CECCLK frequency is 20MHz."))
                    }
                },
            },
    {
        let base = match source.hz(regs) {
            Ok(b) => b,
            Err(e) => {
                return Err(e);
            },
        };
        let freq = base / div.value();
        if freq > CECCLK_HZ_MAX {
            Ok(CecClkConfig { freq, source: source.as_source(), div })
        } else {
            Err(RegisterError::InvalidValue("Max CECCLK frequency is 20MHz."))
        }
    }

    pub fn freq(&self) -> (r: u32)
        ensures
            r == self.spec_freq(),
    {
        self.freq
    }

    pub fn source(&self) -> (r: CecClkSource)
        ensures
            r == self.spec_source(),
    {
        self.source
    }

    pub fn div(&self) -> (r: CecClkDiv)
        ensures
            r == self.spec_div(),
    {
        self.div
    }
}

/// The HDMI-CEC clock (CECCLK).
pub struct CecClk {
    _id: (),
}

impl CecClk {
    pub(crate) fn new() -> CecClk {
        CecClk { _id: () }
    }

    /// Both the source selection and the divider hold a value that this driver knows.
    pub fn is_available(&self, regs: &SyscRegs) -> (r: bool)
        ensures
            r == (CecClkSource::spec_from_u8(regs.cecck.sel) is Some && CecClkDiv::spec_from_u8(regs.cecck.div) is Some),
    {
        match (self.get_source(regs), self.get_div(regs)) {
            (Some(_), Some(_)) => true,
            _ => false,
        }
    }

    pub fn get_source(&self, regs: &SyscRegs) -> (r: Option<CecClkSource>)
        ensures
            r == CecClkSource::spec_from_u8(regs.cecck.sel),
    {
        CecClkSource::from_u8(regs.cecck.sel)
    }

    pub fn get_div(&self, regs: &SyscRegs) -> (r: Option<CecClkDiv>)
        ensures
            r == CecClkDiv::spec_from_u8(regs.cecck.div),
    {
        CecClkDiv::from_u8(regs.cecck.div)
    }

    /// Switches the clock to a checked setting. The caller requests the switch
    /// (CECCKCR.CECCKSREQ = 1) and waits for CECCKSRDY around the writes.
    pub fn set_config(&mut self, regs: &mut SyscRegs, cfg: CecClkConfig) -> (r: Result<(), RegisterError>)
        ensures
            r is Ok,
            *final(regs) == (SyscRegs {
                prcr: 0,
                cecck: PeriphClkRegs { sel: cfg.spec_source().spec_bits(), sreq: false, div: cfg.spec_div().spec_bits() },
                ..*old(regs)
            }),
    {
        prc0(regs, true);
        regs.cecck.sreq = true;
        regs.cecck.div = cfg.div.bits();
        regs.cecck.sel = cfg.source.bits();
        regs.cecck.sreq = false;
        prc0(regs, false);
        Ok(())
    }
}

// ---------------------------------------------------------------- TRCLK

/// Trace clock divider (TRCKCR.TRCK).
#[derive(Copy, Clone, Debug, PartialEq, Eq, Structural)]
pub enum TrClkDiv {
    Div1,
    Div2,
    Div4,
}

impl TrClkDiv {
    pub open spec fn spec_bits(self) -> u8 {
        match self {
            TrClkDiv::Div1 => 0b000,
            TrClkDiv::Div2 => 0b001,
            TrClkDiv::Div4 => 0b010,
        }
    }

    pub fn bits(self) -> (b: u8)
        ensures
            b == self.spec_bits(),
    {
        match self {
            TrClkDiv::Div1 => 0b000,
            TrClkDiv::Div2 => 0b001,
            TrClkDiv::Div4 => 0b010,
        }
    }

    /// The division ratio.
    pub open spec fn spec_value(self) -> u32 {
        match self {
            TrClkDiv::Div1 => 1,
            TrClkDiv::Div2 => 2,
            TrClkDiv::Div4 => 4,
        }
    }

    pub fn value(self) -> (v: u32)
        ensures
            v == self.spec_value(),
    {
        match self {
            TrClkDiv::Div1 => 1,
            TrClkDiv::Div2 => 2,
            TrClkDiv::Div4 => 4,
        }
    }

    pub open spec fn spec_from_u8(value: u8) -> Option<TrClkDiv> {
        if value == 0b000 {
            Some(TrClkDiv::Div1)
        } else if value == 0b001 {
            Some(TrClkDiv::Div2)
        } else if value == 0b010 {
            Some(TrClkDiv::Div4)
        } else {
            None
        }
    }

    fn from_u8(value: u8) -> (r: Option<Self>)
        ensures
            r == Self::spec_from_u8(value),
    {
        match value {
            0b000 => Some(TrClkDiv::Div1),
            0b001 => Some(TrClkDiv::Div2),
            0b010 => Some(TrClkDiv::Div4),
            _ => None,
        }
    }
}

/// The trace clock (TRCLK).
pub struct TrClk {
    _id: (),
}

/// What switching the trace clock on (`enable`) or off answers.
pub open spec fn spec_trcken_result(regs: SyscRegs, dbg: DbgRegs, enable: bool) -> Result<(), RegisterError> {
    if !dbg.cdbgpwrupreq {
        Err(RegisterError::NotReadyToWrite("Debugger is not connected."))
    } else if regs.trck.trcken == enable {
        Err(RegisterError::NotReadyToWrite(if enable { "TRCLK is already enabled." } else { "TRCLK is already disabled." }))
    } else {
        Ok(())
    }
}

impl TrClk {
    pub(crate) fn new() -> TrClk {
        TrClk { _id: () }
    }

    pub fn is_enabled(&self, regs: &SyscRegs) -> (r: bool)
        ensures
            r == regs.trck.trcken,
    {
        regs.trck.trcken
    }

    /// A debugger requests power-up (DBGSTR.CDBGPWRUPREQ).
    pub fn is_debugger_connected(&self, _dbg: &mut Dbg, dbg_regs: &DbgRegs) -> (r: bool)
        ensures
            r == dbg_regs.cdbgpwrupreq,
    {
        dbg_regs.cdbgpwrupreq
    }

    fn set_trcken(&mut self, regs: &mut SyscRegs, enable: bool, dbg: &mut Dbg, dbg_regs: &DbgRegs) -> (r: Result<(), RegisterError>)
        ensures
            r == spec_trcken_result(*old(regs), *dbg_regs, enable),
            r is Err ==> *final(regs) == *old(regs),
            r is Ok ==> *final(regs) == (SyscRegs {
                prcr: 0,
                trck: TrckRegs { trcken: enable, ..old(regs).trck },
                ..*old(regs)
            }),
    {
        if !self.is_debugger_connected(dbg, dbg_regs) {
            Err(RegisterError::NotReadyToWrite("Debugger is not connected."))
        } else if self.is_enabled(regs) == enable {
            Err(RegisterError::NotReadyToWrite(if enable { "TRCLK is already enabled." } else { "TRCLK is already disabled." }))
        } else {
            prc0(regs, true);
            regs.trck.trcken = enable;
            prc0(regs, false);
            Ok(())
        }
    }

    /// Turns the trace clock on while a debugger is connected.
    pub fn enable(&mut self, regs: &mut SyscRegs, dbg: &mut Dbg, dbg_regs: &DbgRegs) -> (r: Result<(), RegisterError>)
        ensures
            r == spec_trcken_result(*old(regs), *dbg_regs, true),
            r is Err ==> *final(regs) == *old(regs),
            r is Ok ==> *final(regs) == (SyscRegs {
                prcr: 0,
                trck: TrckRegs { trcken: true, ..old(regs).trck },
                ..*old(regs)
            }),
    {
        self.set_trcken(regs, true, dbg, dbg_regs)
    }

    /// Turns the trace clock off while a debugger is connected.
    pub fn disable(&mut self, regs: &mut SyscRegs, dbg: &mut Dbg, dbg_regs: &DbgRegs) -> (r: Result<(), RegisterError>)
        ensures
            r == spec_trcken_result(*old(regs), *dbg_regs, false),
            r is Err ==> *final(regs) == *old(regs),
            r is Ok ==> *final(regs) == (SyscRegs {
                prcr: 0,
                trck: TrckRegs { trcken: false, ..old(regs).trck },
                ..*old(regs)
            }),
    {
        self.set_trcken(regs, false, dbg, dbg_regs)
    }

    pub fn get_div(&self, regs: &SyscRegs) -> (r: Option<TrClkDiv>)
        ensures
            r == TrClkDiv::spec_from_u8(regs.trck.trck),
    {
        TrClkDiv::from_u8(regs.trck.trck)
    }

    /// Sets the trace clock divider while a debugger is connected and the clock is off.
    pub fn set_div(&mut self, regs: &mut SyscRegs, div: TrClkDiv, dbg: &mut Dbg, dbg_regs: &DbgRegs) -> (r: Result<(), RegisterError>)
        ensures
            !dbg_regs.cdbgpwrupreq ==> r == Err::<(), RegisterError>(RegisterError::NotReadyToWrite(
                "Debugger is not connected.")) && *final(regs) == *old(regs),
            dbg_regs.cdbgpwrupreq && old(regs).trck.trcken ==> r == Err::<(), RegisterError>(
                RegisterError::NotReadyToWrite("TRCLK is not disabled.")) && *final(regs) == *old(regs),
            dbg_regs.cdbgpwrupreq && !old(regs).trck.trcken ==> r is Ok && *final(regs) == (SyscRegs {
                prcr: 0,
                trck: TrckRegs { trck: div.spec_bits(), ..old(regs).trck },
                ..*old(regs)
            }),
    {
        if !self.is_debugger_connected(dbg, dbg_regs) {
            Err(RegisterError::NotReadyToWrite("Debugger is not connected."))
        } else if self.is_enabled(regs) {
            Err(RegisterError::NotReadyToWrite("TRCLK is not disabled."))
        } else {
            prc0(regs, true);
            regs.trck.trck = div.bits();
            prc0(regs, false);
            Ok(())
        }
    }
}

/// Decoding the field value of each output and peripheral clock setting gives
/// the setting back; the OCTA clock source decodes only the two PLLs (the other
/// sources it can be set to read back as unknown).
pub proof fn lemma_peripheral_clock_codes_round_trip()
    ensures
        forall|x: EbclkOutput| EbclkOutput::spec_from_u8(#[trigger] x.spec_bits()) == Some(x),
        forall|x: ClockOutSource| ClockOutSource::spec_from_u8(#[trigger] x.spec_bits()) == Some(x),
        forall|x: ClockOutDiv| ClockOutDiv::spec_from_u8(#[trigger] x.spec_bits()) == Some(x),
        forall|x: UsbClkDiv| UsbClkDiv::spec_from_u8(#[trigger] x.spec_bits()) == Some(x),
        forall|x: UsbClkSource| UsbClkSource::spec_from_u8(#[trigger] x.spec_bits()) == Some(x),
        forall|x: OctaClkDiv| OctaClkDiv::spec_from_u8(#[trigger] x.spec_bits()) == Some(x),
        forall|x: OctaClkSource| OctaClkSource::spec_from_u8(#[trigger] x.spec_bits())
            == (if x == OctaClkSource::Pll || x == OctaClkSource::Pll2 { Some(x) } else { None }),
        forall|x: CanfdClkDiv| CanfdClkDiv::spec_from_u8(#[trigger] x.spec_bits()) == Some(x),
        forall|x: CanfdClkSource| CanfdClkSource::spec_from_u8(#[trigger] x.spec_bits()) == Some(x),
        forall|x: Usb60ClkDiv| Usb60ClkDiv::spec_from_u8(#[trigger] x.spec_bits()) == Some(x),
        forall|x: Usb60ClkSource| Usb60ClkSource::spec_from_u8(#[trigger] x.spec_bits()) == Some(x),
        forall|x: CecClkDiv| CecClkDiv::spec_from_u8(#[trigger] x.spec_bits()) == Some(x),
        forall|x: CecClkSource| CecClkSource::spec_from_u8(#[trigger] x.spec_bits()) == Some(x),
        forall|x: TrClkDiv| TrClkDiv::spec_from_u8(#[trigger] x.spec_bits()) == Some(x),
{
}

} // verus!
