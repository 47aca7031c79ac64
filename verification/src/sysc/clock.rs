//! The system clocks: the source and dividers of the system clock, the oscillators,
//! the PLLs and the peripheral clocks.
//!
//! Every driver works on [`SyscRegs`], a model of the SYSC registers: a query reads
//! the model, an operation checks its preconditions on the model and stores the new
//! field values in it. Writes that the hardware protects with PRCR.PRC0 leave PRC0
//! cleared, as the hardware sequence does.
use vstd::prelude::*;

use crate::RegisterError;
use crate::fcache::{Fcache, FcacheRegs, FlashWait};
use crate::mstp::{Mstp, MstpRegs};
use crate::sysc::{prc0, is_prc0, spec_prc0_bits, OstdRegs, SckRegs, SyscRegs};

pub mod osc;
pub mod outclk;

pub use self::osc::{
    Hoco, HocoFreq, Loco, Moco, Mosc, MoscConfig, MoscFreqRange, MoscSource,
    MoscStabilizationTime, Pll, Pll2, PllConfig, PllMul, PllSource, PllSources, PliDiv, Sosc,
    SoscMode,
};
pub use self::outclk::{
    CanfdClk, CanfdClkConfig, CanfdClkDiv, CanfdClkSource, CanfdClkSources, CecClk, CecClkConfig,
    CecClkDiv, CecClkSource, CecClkSources, ClockOut, ClockOutConfig, ClockOutDiv, ClockOutSource,
    ClockOutSources, Ebclk, EbclkOutput, OctaClk, OctaClkConfig, OctaClkDiv, OctaClkSource,
    OctaClkSources, TrClk, TrClkDiv, Usb60Clk, Usb60ClkConfig, Usb60ClkDiv, Usb60ClkSource,
    Usb60ClkSources, UsbClk, UsbClkConfig, UsbClkDiv, UsbClkSource, UsbClkSources,
};

verus! {

pub const EK_RA6M5_XTAL_HZ: u32 = 24_000_000;

pub const MOSC_HZ_MIN: u32 = 8_000_000;
pub const MOSC_HZ_MAX: u32 = 24_000_000;
pub const PLL_HZ_MIN: u32 = 120_000_000;
pub const PLL_HZ_MAX: u32 = 240_000_000;

pub const MOCO_HZ: u32 = 8_000_000;
pub const LOCO_HZ: u32 = 32_768;
pub const SOSC_HZ: u32 = 32_768;

pub const SOSC_HZ_MAX: u32 = 36_100;
pub const SOSC_HZ_MIN: u32 = 29_400;

pub const ICLK_HZ_MAX: u32 = 200_000_000;
pub const PCLKA_HZ_MAX: u32 = 100_000_000;
pub const PCLKB_HZ_MAX: u32 = 50_000_000;
pub const PCLKC_HZ_MAX: u32 = 50_000_000;
pub const PCLKD_HZ_MAX: u32 = 100_000_000;
pub const FCLK_HZ_MAX: u32 = 50_000_000;
pub const BCLK_HZ_MAX: u32 = 100_000_000;
pub const EBCLK_HZ_MAX: u32 = 50_000_000;
pub const PCLKC_ADC12_HZ_MIN: u32 = 1_000_000;
pub const PCLKA_ETHERC_HZ_MAX: u32 = 100_000_000;
pub const PCLKA_ETHERC_HZ_MIN: u32 = 12_500_000;

pub const USBCLK_HZ: u32 = 48_000_000;
pub const USB60CLK_HZ: u32 = 60_000_000;

pub const OCTACLK_HZ_MAX: u32 = 200_000_000;
pub const CANFDCLK_HZ_MAX: u32 = 40_000_000;
pub const CECCLK_HZ_MAX: u32 = 20_000_000;
pub const TRCLK_HZ_MAX: u32 = 100_000_000;

/// The number of ICLK cycles that cover `ns` nanoseconds at `iclk_hz`, rounded up
/// and truncated to 32 bits.
pub open spec fn spec_busy_wait_cycles(ns: u32, iclk_hz: u32) -> u32 {
    ((ns as int * iclk_hz as int + 999_999_999) / 1_000_000_000) as u32
}

/// The cycle count that a busy wait of `ns` nanoseconds at `iclk_hz` waits for.
pub fn busy_wait_cycles(ns: u32, iclk_hz: u32) -> (c: u32)
    ensures
        c == spec_busy_wait_cycles(ns, iclk_hz),
{
    let a: u128 = ns as u128;
    let b: u128 = iclk_hz as u128;
    assert(a * b <= 0xFFFF_FFFE_0000_0001) by (nonlinear_arith)
        requires a <= 0xFFFF_FFFF, b <= 0xFFFF_FFFF;
    let p: u128 = a * b;
    let q: u128 = (p + 999_999_999u128) / 1_000_000_000u128;
    #[verifier::truncate] (q as u32)
}

/// System clock source (SCKSCR.CKSEL).
#[derive(Copy, Clone, Debug, PartialEq, Eq, Structural)]
pub enum ClocksSource {
    Hoco,
    Moco,
    Loco,
    Mosc,
    Sosc,
    Pll,
}

impl ClocksSource {
    pub open spec fn spec_bits(self) -> u8 {
        match self {
            ClocksSource::Hoco => 0b000,
            ClocksSource::Moco => 0b001,
            ClocksSource::Loco => 0b010,
            ClocksSource::Mosc => 0b011,
            ClocksSource::Sosc => 0b100,
            ClocksSource::Pll => 0b101,
        }
    }

    pub fn bits(self) -> (b: u8)
        ensures
            b == self.spec_bits(),
    {
        match self {
            ClocksSource::Hoco => 0b000,
            ClocksSource::Moco => 0b001,
            ClocksSource::Loco => 0b010,
            ClocksSource::Mosc => 0b011,
            ClocksSource::Sosc => 0b100,
            ClocksSource::Pll => 0b101,
        }
    }

    pub open spec fn spec_from_u8(value: u8) -> Option<ClocksSource> {
        if value == 0b000 {
            Some(ClocksSource::Hoco)
        } else if value == 0b001 {
            Some(ClocksSource::Moco)
        } else if value == 0b010 {
            Some(ClocksSource::Loco)
        } else if value == 0b011 {
            Some(ClocksSource::Mosc)
        } else if value == 0b100 {
            Some(ClocksSource::Sosc)
        } else if value == 0b101 {
            Some(ClocksSource::Pll)
        } else {
            None
        }
    }

    fn from_u8(value: u8) -> (r: Option<Self>)
        ensures
            r == Self::spec_from_u8(value),
    {
        match value {
            0b000 => Some(ClocksSource::Hoco),
            0b001 => Some(ClocksSource::Moco),
            0b010 => Some(ClocksSource::Loco),
            0b011 => Some(ClocksSource::Mosc),
            0b100 => Some(ClocksSource::Sosc),
            0b101 => Some(ClocksSource::Pll),
            _ => None,
        }
    }
}

/// A divider of SCKDIVCR: a power of two from 1 to 64.
#[derive(Copy, Clone, Debug, PartialEq, Eq, Structural, PartialOrd, Ord)]
pub enum ClocksDiv {
    Div1,
    Div2,
    Div4,
    Div8,
    Div16,
    Div32,
    Div64,
}

impl ClocksDiv {
    pub open spec fn spec_bits(self) -> u8 {
        match self {
            ClocksDiv::Div1 => 0b000,
            ClocksDiv::Div2 => 0b001,
            ClocksDiv::Div4 => 0b010,
            ClocksDiv::Div8 => 0b011,
            ClocksDiv::Div16 => 0b100,
            ClocksDiv::Div32 => 0b101,
            ClocksDiv::Div64 => 0b110,
        }
    }

    /// The division ratio, 2 to the power of the field value.
    pub open spec fn spec_value(self) -> u32 {
        match self {
            ClocksDiv::Div1 => 1,
            ClocksDiv::Div2 => 2,
            ClocksDiv::Div4 => 4,
            ClocksDiv::Div8 => 8,
            ClocksDiv::Div16 => 16,
            ClocksDiv::Div32 => 32,
            ClocksDiv::Div64 => 64,
        }
    }

    pub fn bits(self) -> (b: u8)
        ensures
            b == self.spec_bits(),
    {
        match self {
            ClocksDiv::Div1 => 0b000,
            ClocksDiv::Div2 => 0b001,
            ClocksDiv::Div4 => 0b010,
            ClocksDiv::Div8 => 0b011,
            ClocksDiv::Div16 => 0b100,
            ClocksDiv::Div32 => 0b101,
            ClocksDiv::Div64 => 0b110,
        }
    }

    pub open spec fn spec_from_u8(value: u8) -> Option<ClocksDiv> {
        if value == 0b000 {
            Some(ClocksDiv::Div1)
        } else if value == 0b001 {
            Some(ClocksDiv::Div2)
        } else if value == 0b010 {
            Some(ClocksDiv::Div4)
        } else if value == 0b011 {
            Some(ClocksDiv::Div8)
        } else if value == 0b100 {
            Some(ClocksDiv::Div16)
        } else if value == 0b101 {
            Some(ClocksDiv::Div32)
        } else if value == 0b110 {
            Some(ClocksDiv::Div64)
        } else {
            None
        }
    }

    pub fn from_u8(value: u8) -> (r: Option<Self>)
        ensures
            r == Self::spec_from_u8(value),
    {
        match value {
            0b000 => Some(ClocksDiv::Div1),
            0b001 => Some(ClocksDiv::Div2),
            0b010 => Some(ClocksDiv::Div4),
            0b011 => Some(ClocksDiv::Div8),
            0b100 => Some(ClocksDiv::Div16),
            0b101 => Some(ClocksDiv::Div32),
            0b110 => Some(ClocksDiv::Div64),
            _ => None,
        }
    }

    pub fn value(self) -> (v: u32)
        ensures
            v == self.spec_value(),
            v == 1u32 << (self.spec_bits() as u32),
    {
        let b = self.bits() as u32;
        assert(1u32 << 0u32 == 1 && 1u32 << 1u32 == 2 && 1u32 << 2u32 == 4 && 1u32 << 3u32 == 8
            && 1u32 << 4u32 == 16 && 1u32 << 5u32 == 32 && 1u32 << 6u32 == 64) by (bit_vector);
        1u32 << b
    }
}

/// The frequencies of the system clocks, in hertz.
#[derive(Copy, Clone, Debug, PartialEq, Eq, Structural)]
pub struct ClocksFreq {
    pub pckd: u32,
    pub pckc: u32,
    pub pckb: u32,
    pub pcka: u32,
    pub bck: u32,
    pub ick: u32,
    pub fck: u32,
}

/// The frequencies after reset: MOCO (8 MHz) divided by 4 everywhere.
pub open spec fn spec_default_freqs() -> ClocksFreq {
    ClocksFreq {
        pckd: 2_000_000,
        pckc: 2_000_000,
        pckb: 2_000_000,
        pcka: 2_000_000,
        bck: 2_000_000,
        ick: 2_000_000,
        fck: 2_000_000,
    }
}

impl Default for ClocksFreq {
    fn default() -> (r: Self)
        ensures
            r == spec_default_freqs(),
    {
        ClocksFreq {
            pckd: 2_000_000,
            pckc: 2_000_000,
            pckb: 2_000_000,
            pcka: 2_000_000,
            bck: 2_000_000,
            ick: 2_000_000,
            fck: 2_000_000,
        }
    }
}

} // verus!

verus! {

/// A clock that can drive the system clock.
pub trait ClocksSources {
    /// The frequency that the clock runs at, or why it is not known.
    spec fn spec_hz(&self, regs: SyscRegs) -> Result<u32, RegisterError>;

    spec fn spec_as_source(&self) -> ClocksSource;

    fn hz(&self, regs: &SyscRegs) -> (r: Result<u32, RegisterError>)
        ensures
            r == self.spec_hz(*regs);

    fn as_source(&self) -> (s: ClocksSource)
        ensures
            s == self.spec_as_source();
}

impl ClocksSources for Hoco {
    open spec fn spec_hz(&self, regs: SyscRegs) -> Result<u32, RegisterError> {
        match HocoFreq::spec_from_u8(regs.hoco.hcfrq0) {
            Some(f) => Ok(f.spec_hz()),
            None => Err(RegisterError::InvalidValue("HOCO has unknown frequency.")),
        }
    }

    open spec fn spec_as_source(&self) -> ClocksSource {
        ClocksSource::Hoco
    }

    fn hz(&self, regs: &SyscRegs) -> (r: Result<u32, RegisterError>) {
        if let Some(freq) = self.get_freq(regs) {
            Ok(freq.hz())
        } else {
            Err(RegisterError::InvalidValue("HOCO has unknown frequency."))
        }
    }

    fn as_source(&self) -> (s: ClocksSource) {
        ClocksSource::Hoco
    }
}

impl ClocksSources for Moco {
    open spec fn spec_hz(&self, regs: SyscRegs) -> Result<u32, RegisterError> {
        Ok(MOCO_HZ)
    }

    open spec fn spec_as_source(&self) -> ClocksSource {
        ClocksSource::Moco
    }

    fn hz(&self, regs: &SyscRegs) -> (r: Result<u32, RegisterError>) {
        Ok(MOCO_HZ)
    }

    fn as_source(&self) -> (s: ClocksSource) {
        ClocksSource::Moco
    }
}

impl ClocksSources for Loco {
    open spec fn spec_hz(&self, regs: SyscRegs) -> Result<u32, RegisterError> {
        Ok(LOCO_HZ)
    }

    open spec fn spec_as_source(&self) -> ClocksSource {
        ClocksSource::Loco
    }

    fn hz(&self, regs: &SyscRegs) -> (r: Result<u32, RegisterError>) {
        Ok(LOCO_HZ)
    }

    fn as_source(&self) -> (s: ClocksSource) {
        ClocksSource::Loco
    }
}

impl ClocksSources for Mosc {
    open spec fn spec_hz(&self, regs: SyscRegs) -> Result<u32, RegisterError> {
        match self.spec_freq() {
            Some(f) => Ok(f),
            None => Err(RegisterError::InvalidValue("MOSC is not initialized.")),
        }
    }

    open spec fn spec_as_source(&self) -> ClocksSource {
        ClocksSource::Mosc
    }

    fn hz(&self, regs: &SyscRegs) -> (r: Result<u32, RegisterError>) {
        if let Some(freq) = self.get_freq() {
            Ok(freq)
        } else {
            Err(RegisterError::InvalidValue("MOSC is not initialized."))
        }
    }

    fn as_source(&self) -> (s: ClocksSource) {
        ClocksSource::Mosc
    }
}

impl ClocksSources for Sosc {
    open spec fn spec_hz(&self, regs: SyscRegs) -> Result<u32, RegisterError> {
        Ok(SOSC_HZ)
    }

    open spec fn spec_as_source(&self) -> ClocksSource {
        ClocksSource::Sosc
    }

    fn hz(&self, regs: &SyscRegs) -> (r: Result<u32, RegisterError>) {
        Ok(SOSC_HZ)
    }

    fn as_source(&self) -> (s: ClocksSource) {
        ClocksSource::Sosc
    }
}

impl ClocksSources for Pll {
    open spec fn spec_hz(&self, regs: SyscRegs) -> Result<u32, RegisterError> {
        match self.spec_freq() {
            Some(f) => Ok(f),
            None => Err(RegisterError::InvalidValue("Pll is not initialized.")),
        }
    }

    open spec fn spec_as_source(&self) -> ClocksSource {
        ClocksSource::Pll
    }

    fn hz(&self, regs: &SyscRegs) -> (r: Result<u32, RegisterError>) {
        if let Some(freq) = self.get_freq() {
            Ok(freq)
        } else {
            Err(RegisterError::InvalidValue("Pll is not initialized."))
        }
    }

    fn as_source(&self) -> (s: ClocksSource) {
        ClocksSource::Pll
    }
}

/// The frequencies that the source frequency `base` gives through the dividers.
pub open spec fn spec_divided_freqs(
    base: u32,
    ick_div: ClocksDiv,
    pcka_div: ClocksDiv,
    pckb_div: ClocksDiv,
    pckc_div: ClocksDiv,
    pckd_div: ClocksDiv,
    fck_div: ClocksDiv,
    bck_div: ClocksDiv,
) -> ClocksFreq {
    ClocksFreq {
        pckd: base / pckd_div.spec_value(),
        pckc: base / pckc_div.spec_value(),
        pckb: base / pckb_div.spec_value(),
        pcka: base / pcka_div.spec_value(),
        bck: base / bck_div.spec_value(),
        ick: base / ick_div.spec_value(),
        fck: base / fck_div.spec_value(),
    }
}

/// The first frequency rule that a divider setting breaks, in the order in which
/// they are checked, if any: the maxima of each clock, their ordering, the ADC12
/// rules on PCLKC, the CANFD ratio of PCLKA to PCLKB and the ETHERC range of PCLKA.
pub open spec fn spec_clocks_rule_error(
    f: ClocksFreq,
    pcka_div: ClocksDiv,
    pckb_div: ClocksDiv,
    pckc_div: ClocksDiv,
    use_adc12: bool,
    use_canfd: bool,
    use_etherc: bool,
) -> Option<RegisterError> {
    if f.ick > ICLK_HZ_MAX {
        Some(RegisterError::InvalidValue("FOLLOW THIS RULE: ICLK <= 200MHz."))
    } else if f.pcka > PCLKA_HZ_MAX {
        Some(RegisterError::InvalidValue("FOLLOW THIS RULE: PCLKA <= 100MHz."))
    } else if f.pckb > PCLKB_HZ_MAX {
        Some(RegisterError::InvalidValue("FOLLOW THIS RULE: PCLKB <= 50MHz."))
    } else if f.pckc > PCLKC_HZ_MAX {
        Some(RegisterError::InvalidValue("FOLLOW THIS RULE: PCLKC <= 50MHz."))
    } else if f.pckd > PCLKD_HZ_MAX {
        Some(RegisterError::InvalidValue("FOLLOW THIS RULE: PCLKD <= 100MHz."))
    } else if f.fck > FCLK_HZ_MAX {
        Some(RegisterError::InvalidValue("FOLLOW THIS RULE: FCLK <= 50MHz."))
    } else if f.bck > BCLK_HZ_MAX {
        Some(RegisterError::InvalidValue("FOLLOW THIS RULE: ICLK <= 100MHz."))
    } else if f.ick < f.pcka || f.pcka < f.pckb {
        Some(RegisterError::InvalidValue("FOLLOW THIS RULE: ICLK >= PCLKA >= PCLKB"))
    } else if f.pckd < f.pcka || f.pcka < f.pckb {
        Some(RegisterError::InvalidValue("FOLLOW THIS RULE: PCLKD >= PCLKA >= PCLKB"))
    } else if f.ick < f.fck {
        Some(RegisterError::InvalidValue("FOLLOW THIS RULE: ICLK >= FCLK"))
    } else if f.ick < f.bck {
        Some(RegisterError::InvalidValue("FOLLOW THIS RULE: ICLK >= BCLK"))
    } else if use_adc12 && f.pckc < PCLKC_ADC12_HZ_MIN {
        Some(RegisterError::InvalidValue("FOLLOW THIS RULE: PCLKC >= 1MHz."))
    } else if use_adc12 && f.pcka >= f.pckc && pcka_div.spec_value() / pckc_div.spec_value() > 8 {
        Some(RegisterError::InvalidValue("PCLKA:PCLKC must be 1:1, 2:1, 4:1, 8:1, 1:2 or 1:4"))
    } else if use_adc12 && f.pcka < f.pckc && pckc_div.spec_value() / pcka_div.spec_value() > 4 {
        Some(RegisterError::InvalidValue("PCLKA:PCLKC must be 1:1, 2:1, 4:1, 8:1, 1:2 or 1:4"))
    } else if use_canfd && pcka_div.spec_value() / pckb_div.spec_value() != 2 {
        Some(RegisterError::InvalidValue("FOLLOW THIS RULE: PCLKA:PCLKB = 2:1"))
    } else if use_etherc && (f.pcka > PCLKA_ETHERC_HZ_MAX || f.pcka < PCLKA_ETHERC_HZ_MIN) {
        Some(RegisterError::InvalidValue("FOLLOW THIS RULE: 12.5MHz <= PCLKA <= 100MHz"))
    } else {
        None
    }
}

fn clocks_rule_error(
    f: &ClocksFreq,
    pcka_div: ClocksDiv,
    pckb_div: ClocksDiv,
    pckc_div: ClocksDiv,
    use_adc12: bool,
    use_canfd: bool,
    use_etherc: bool,
) -> (r: Option<RegisterError>)
    ensures
        r == spec_clocks_rule_error(*f, pcka_div, pckb_div, pckc_div, use_adc12, use_canfd, use_etherc),
{
    if f.ick > ICLK_HZ_MAX {
        Some(RegisterError::InvalidValue("FOLLOW THIS RULE: ICLK <= 200MHz."))
    } else if f.pcka > PCLKA_HZ_MAX {
        Some(RegisterError::InvalidValue("FOLLOW THIS RULE: PCLKA <= 100MHz."))
    } else if f.pckb > PCLKB_HZ_MAX {
        Some(RegisterError::InvalidValue("FOLLOW THIS RULE: PCLKB <= 50MHz."))
    } else if f.pckc > PCLKC_HZ_MAX {
        Some(RegisterError::InvalidValue("FOLLOW THIS RULE: PCLKC <= 50MHz."))
    } else if f.pckd > PCLKD_HZ_MAX {
        Some(RegisterError::InvalidValue("FOLLOW THIS RULE: PCLKD <= 100MHz."))
    } else if f.fck > FCLK_HZ_MAX {
        Some(RegisterError::InvalidValue("FOLLOW THIS RULE: FCLK <= 50MHz."))
    } else if f.bck > BCLK_HZ_MAX {
        Some(RegisterError::InvalidValue("FOLLOW THIS RULE: ICLK <= 100MHz."))
    } else if (f.ick < f.pcka) || (f.pcka < f.pckb) {
        Some(RegisterError::InvalidValue("FOLLOW THIS RULE: ICLK >= PCLKA >= PCLKB"))
    } else if (f.pckd < f.pcka) || (f.pcka < f.pckb) {
        Some(RegisterError::InvalidValue("FOLLOW THIS RULE: PCLKD >= PCLKA >= PCLKB"))
    } else if f.ick < f.fck {
        Some(RegisterError::InvalidValue("FOLLOW THIS RULE: ICLK >= FCLK"))
    } else if f.ick < f.bck {
        Some(RegisterError::InvalidValue("FOLLOW THIS RULE: ICLK >= BCLK"))
    } else if use_adc12 && f.pckc < PCLKC_ADC12_HZ_MIN {
        Some(RegisterError::InvalidValue("FOLLOW THIS RULE: PCLKC >= 1MHz."))
    } else if use_adc12 && f.pcka >= f.pckc && pcka_div.value() / pckc_div.value() > 8 {
        Some(RegisterError::InvalidValue("PCLKA:PCLKC must be 1:1, 2:1, 4:1, 8:1, 1:2 or 1:4"))
    } else if use_adc12 && f.pcka < f.pckc && pckc_div.value() / pcka_div.value() > 4 {
        Some(RegisterError::InvalidValue("PCLKA:PCLKC must be 1:1, 2:1, 4:1, 8:1, 1:2 or 1:4"))
    } else if use_canfd && pcka_div.value() / pckb_div.value() != 2 {
        Some(RegisterError::InvalidValue("FOLLOW THIS RULE: PCLKA:PCLKB = 2:1"))
    } else if use_etherc && ((f.pcka > PCLKA_ETHERC_HZ_MAX) || (f.pcka < PCLKA_ETHERC_HZ_MIN)) {
        Some(RegisterError::InvalidValue("FOLLOW THIS RULE: 12.5MHz <= PCLKA <= 100MHz"))
    } else {
        None
    }
}

/// A checked setting of the system clock: its source, the seven dividers, the
/// frequencies that they give and which peripherals the rules were checked for.
pub struct ClocksConfig {
    source: ClocksSource,
    freqs: ClocksFreq,
    pckd_div: ClocksDiv,
    pckc_div: ClocksDiv,
    pckb_div: ClocksDiv,
    pcka_div: ClocksDiv,
    bck_div: ClocksDiv,
    ick_div: ClocksDiv,
    fck_div: ClocksDiv,
    use_adc12: bool,
    use_canfd: bool,
    use_etherc: bool,
}

impl ClocksConfig {
    /// ICLK stays within its maximum, and ICLK times its divider fits 32 bits: the
    /// setting came from a source frequency through that divider.
    #[verifier::type_invariant]
    closed spec fn inv(self) -> bool {
        &&& self.freqs.ick <= ICLK_HZ_MAX
        &&& self.freqs.ick as int * self.ick_div.spec_value() as int <= u32::MAX as int
    }

    pub closed spec fn spec_source(&self) -> ClocksSource {
        self.source
    }

    pub closed spec fn spec_freqs(&self) -> ClocksFreq {
        self.freqs
    }

    pub closed spec fn spec_pckd_div(&self) -> ClocksDiv {
        self.pckd_div
    }

    pub closed spec fn spec_pckc_div(&self) -> ClocksDiv {
        self.pckc_div
    }

    pub closed spec fn spec_pckb_div(&self) -> ClocksDiv {
        self.pckb_div
    }

    pub closed spec fn spec_pcka_div(&self) -> ClocksDiv {
        self.pcka_div
    }

    pub closed spec fn spec_bck_div(&self) -> ClocksDiv {
        self.bck_div
    }

    pub closed spec fn spec_ick_div(&self) -> ClocksDiv {
        self.ick_div
    }

    pub closed spec fn spec_fck_div(&self) -> ClocksDiv {
        self.fck_div
    }

    pub closed spec fn spec_use_adc12(&self) -> bool {
        self.use_adc12
    }

    pub closed spec fn spec_use_canfd(&self) -> bool {
        self.use_canfd
    }

    pub closed spec fn spec_use_etherc(&self) -> bool {
        self.use_etherc
    }

    /// Checks a setting of the system clock: divides the source frequency by each
    /// divider and checks the frequency rules on the results.
    pub fn new<T: ClocksSources>(
        source: &T,
        regs: &SyscRegs,
        ick_div: ClocksDiv,
        pcka_div: ClocksDiv,
        pckb_div: ClocksDiv,
        pckc_div: ClocksDiv,
        pckd_div: ClocksDiv,
        fck_div: ClocksDiv,
        bck_div: ClocksDiv,
        use_adc12: bool,
        use_canfd: bool,
        use_etherc: bool,
    ) -> (r: Result<Self, RegisterError>)
        ensures
            match source.spec_hz(*regs) {
                Err(e) => r == Err::<Self, RegisterError>(e),
                Ok(base) => {
                    let f = spec_divided_freqs(base, ick_div, pcka_div, pckb_div, pckc_div, pckd_div, fck_div, bck_div);
                    match spec_clocks_rule_error(f, pcka_div, pckb_div, pckc_div, use_adc12, use_canfd, use_etherc) {
                        Some(e) => r == Err::<Self, RegisterError>(e),
                        None => r matches Ok(c) && {
                            &&& c.spec_source() == source.spec_as_source()
                            &&& c.spec_freqs() == f
                            &&& c.spec_ick_div() == ick_div
                            &&& c.spec_pcka_div() == pcka_div
                            &&& c.spec_pckb_div() == pckb_div
                            &&& c.spec_pckc_div() == pckc_div
                            &&& c.spec_pckd_div() == pckd_div
                            &&& c.spec_fck_div() == fck_div
                            &&& c.spec_bck_div() == bck_div
                            &&& c.spec_use_adc12() == use_adc12
                            &&& c.spec_use_canfd() == use_canfd
                            &&& c.spec_use_etherc() == use_etherc
                        },
                    }
                },
            },
    {
        let base = match source.hz(regs) {
            Ok(b) => b,
            Err(e) => {
                return Err(e);
            },
        };
        let freqs = ClocksFreq {
            pckd: base / pckd_div.value(),
            pckc: base / pckc_div.value(),
            pckb: base / pckb_div.value(),
            pcka: base / pcka_div.value(),
            bck: base / bck_div.value(),
            ick: base / ick_div.value(),
            fck: base / fck_div.value(),
        };
        match clocks_rule_error(&freqs, pcka_div, pckb_div, pckc_div, use_adc12, use_canfd, use_etherc) {
            Some(e) => Err(e),
            None => {
                assert(freqs.ick as int * ick_div.spec_value() as int <= base as int) by (nonlinear_arith)
                    requires
                        freqs.ick == base / ick_div.spec_value(),
                        ick_div.spec_value() > 0;
                Ok(ClocksConfig {
                    source: source.as_source(),
                    freqs,
                    pckd_div,
                    pckc_div,
                    pckb_div,
                    pcka_div,
                    bck_div,
                    ick_div,
                    fck_div,
                    use_adc12,
                    use_canfd,
                    use_etherc,
                })
            },
        }
    }

    pub fn source(&self) -> (r: ClocksSource)
        ensures
            r == self.spec_source(),
    {
        self.source
    }

    pub fn pckd(&self) -> (r: u32)
        ensures
            r == self.spec_freqs().pckd,
    {
        self.freqs.pckd
    }

    pub fn pckc(&self) -> (r: u32)
        ensures
            r == self.spec_freqs().pckc,
    {
        self.freqs.pckc
    }

    pub fn pckb(&self) -> (r: u32)
        ensures
            r == self.spec_freqs().pckb,
    {
        self.freqs.pckb
    }

    pub fn pcka(&self) -> (r: u32)
        ensures
            r == self.spec_freqs().pcka,
    {
        self.freqs.pcka
    }

    pub fn bck(&self) -> (r: u32)
        ensures
            r == self.spec_freqs().bck,
    {
        self.freqs.bck
    }

    pub fn ick(&self) -> (r: u32)
        ensures
            r == self.spec_freqs().ick,
    {
        self.freqs.ick
    }

    pub fn fck(&self) -> (r: u32)
        ensures
            r == self.spec_freqs().fck,
    {
        self.freqs.fck
    }

    pub fn pckd_div(&self) -> (r: ClocksDiv)
        ensures
            r == self.spec_pckd_div(),
    {
        self.pckd_div
    }

    pub fn pckc_div(&self) -> (r: ClocksDiv)
        ensures
            r == self.spec_pckc_div(),
    {
        self.pckc_div
    }

    pub fn pckb_div(&self) -> (r: ClocksDiv)
        ensures
            r == self.spec_pckb_div(),
    {
        self.pckb_div
    }

    pub fn pcka_div(&self) -> (r: ClocksDiv)
        ensures
            r == self.spec_pcka_div(),
    {
        self.pcka_div
    }

    pub fn bck_div(&self) -> (r: ClocksDiv)
        ensures
            r == self.spec_bck_div(),
    {
        self.bck_div
    }

    pub fn ick_div(&self) -> (r: ClocksDiv)
        ensures
            r == self.spec_ick_div(),
    {
        self.ick_div
    }

    pub fn fck_div(&self) -> (r: ClocksDiv)
        ensures
            r == self.spec_fck_div(),
    {
        self.fck_div
    }

    pub fn use_adc12(&self) -> (r: bool)
        ensures
            r == self.spec_use_adc12(),
    {
        self.use_adc12
    }

    pub fn use_canfd(&self) -> (r: bool)
        ensures
            r == self.spec_use_canfd(),
    {
        self.use_canfd
    }

    pub fn use_etherc(&self) -> (r: bool)
        ensures
            r == self.spec_use_etherc(),
    {
        self.use_etherc
    }
}

impl Default for ClocksConfig {
    /// MOCO divided by 4 everywhere, the setting after reset, with the ADC12 rules on.
    fn default() -> (r: Self)
        ensures
            r.spec_source() == ClocksSource::Moco,
            r.spec_freqs() == spec_default_freqs(),
            r.spec_ick_div() == ClocksDiv::Div4,
            r.spec_pcka_div() == ClocksDiv::Div4,
            r.spec_pckb_div() == ClocksDiv::Div4,
            r.spec_pckc_div() == ClocksDiv::Div4,
            r.spec_pckd_div() == ClocksDiv::Div4,
            r.spec_fck_div() == ClocksDiv::Div4,
            r.spec_bck_div() == ClocksDiv::Div4,
            r.spec_use_adc12(),
            !r.spec_use_canfd(),
            !r.spec_use_etherc(),
    {
        ClocksConfig {
            source: ClocksSource::Moco,
            freqs: ClocksFreq::default(),
            pckd_div: ClocksDiv::Div4,
            pckc_div: ClocksDiv::Div4,
            pckb_div: ClocksDiv::Div4,
            pcka_div: ClocksDiv::Div4,
            bck_div: ClocksDiv::Div4,
            ick_div: ClocksDiv::Div4,
            fck_div: ClocksDiv::Div4,
            use_adc12: true,
            use_canfd: false,
            use_etherc: false,
        }
    }
}

/// One step of a system clock switch, in the order in which the hardware takes them.
#[derive(Copy, Clone, Debug, PartialEq, Eq, Structural)]
pub enum ClockSwitchStep {
    /// Write FCACHE.FLWT.
    SetFlashWait(FlashWait),
    /// Write PRCR with PRC0 = 1 (`true`) or 0 (`false`).
    SetPrc0(bool),
    /// Enable the DWT cycle counter that the waits count with.
    EnableCycleCounter,
    /// Write MSTPCRB.MSTPB12.
    SetMstpB12(bool),
    /// Write MSTPCRC.MSTPC31.
    SetMstpC31(bool),
    /// Busy-wait `ns` nanoseconds, counting cycles of a `iclk_hz` clock.
    Wait { ns: u32, iclk_hz: u32 },
    /// Write SCKSCR.CKSEL.
    SelectSource(ClocksSource),
    /// Write the seven SCKDIVCR fields.
    SetDividers {
        pckd: ClocksDiv,
        pckc: ClocksDiv,
        pckb: ClocksDiv,
        pcka: ClocksDiv,
        bck: ClocksDiv,
        ick: ClocksDiv,
        fck: ClocksDiv,
    },
}

/// `s` when `b` holds, else nothing.
pub open spec fn spec_steps_if(b: bool, s: Seq<ClockSwitchStep>) -> Seq<ClockSwitchStep> {
    if b { s } else { Seq::empty() }
}

/// The SCKDIVCR write of a setting.
pub open spec fn spec_dividers_step(c: ClocksConfig) -> ClockSwitchStep {
    ClockSwitchStep::SetDividers {
        pckd: c.spec_pckd_div(),
        pckc: c.spec_pckc_div(),
        pckb: c.spec_pckb_div(),
        pcka: c.spec_pcka_div(),
        bck: c.spec_bck_div(),
        ick: c.spec_ick_div(),
        fck: c.spec_fck_div(),
    }
}

/// The switch passes through the PLL: the current source is unknown or the PLL,
/// or the new source is the PLL.
pub open spec fn spec_switch_via_pll(old_src: Option<ClocksSource>, new_src: ClocksSource) -> bool {
    old_src is None || old_src == Some(ClocksSource::Pll) || new_src == ClocksSource::Pll
}

/// The source selection that a switch writes, if it writes one.
pub open spec fn spec_switch_source(old_src: Option<ClocksSource>, new_src: ClocksSource) -> Option<ClocksSource> {
    if !spec_switch_via_pll(old_src, new_src) {
        Some(new_src)
    } else if old_src == Some(ClocksSource::Pll) && new_src == ClocksSource::Pll {
        None
    } else if old_src == Some(ClocksSource::Pll) {
        Some(new_src)
    } else {
        Some(ClocksSource::Pll)
    }
}

/// The ICLK frequency between the source switch and the divider write: the new
/// ICLK times the new ICLK divider, divided by the current ICLK divider (64 when
/// the current divider is unknown).
pub open spec fn spec_switch_iclk_tmp(iclk_new: u32, ick_div_new: ClocksDiv, ick_div_old: Option<ClocksDiv>) -> u32 {
    let old_value: u32 = match ick_div_old {
        Some(d) => d.spec_value(),
        None => 64,
    };
    ((iclk_new as int * ick_div_new.spec_value() as int) / old_value as int) as u32
}

/// The steps of a switch through the PLL, between the write that lifts the
/// protection and the one that restores it: the two modules of MSTPB12 and
/// MSTPC31 are stopped for the duration of the switch when they run, and the
/// steps are separated by waits.
pub open spec fn spec_switch_body_via_pll(
    c: ClocksConfig,
    old_src: Option<ClocksSource>,
    iclk_old: u32,
    tmp: u32,
    b12_running: bool,
    c31_running: bool,
) -> Seq<ClockSwitchStep> {
    let new_src = c.spec_source();
    let iclk_new = c.spec_freqs().ick;
    let source_steps = if old_src == Some(ClocksSource::Pll) && new_src == ClocksSource::Pll {
        Seq::empty()
    } else if old_src == Some(ClocksSource::Pll) {
        seq![ClockSwitchStep::Wait { ns: 750, iclk_hz: iclk_old }, ClockSwitchStep::SelectSource(new_src)]
    } else {
        seq![ClockSwitchStep::SelectSource(ClocksSource::Pll), ClockSwitchStep::Wait { ns: 250, iclk_hz: tmp }]
    };
    seq![ClockSwitchStep::EnableCycleCounter]
        + spec_steps_if(b12_running, seq![ClockSwitchStep::SetMstpB12(true)])
        + seq![ClockSwitchStep::Wait { ns: 250, iclk_hz: iclk_old }]
        + spec_steps_if(c31_running, seq![ClockSwitchStep::SetMstpC31(true)])
        + seq![ClockSwitchStep::Wait { ns: 250, iclk_hz: iclk_old }]
        + source_steps
        + seq![
            ClockSwitchStep::Wait { ns: 750, iclk_hz: tmp },
            spec_dividers_step(c),
            ClockSwitchStep::Wait { ns: 250, iclk_hz: iclk_new },
        ]
        + spec_steps_if(b12_running, seq![ClockSwitchStep::SetMstpB12(false), ClockSwitchStep::Wait { ns: 250, iclk_hz: iclk_new }])
        + spec_steps_if(c31_running, seq![ClockSwitchStep::SetMstpC31(false), ClockSwitchStep::Wait { ns: 250, iclk_hz: iclk_new }])
}

/// The steps of a switch to setting `c`, from a system clock with source
/// `old_src`, ICLK frequency `iclk_old` and ICLK divider `ick_div_old`, while the
/// modules of MSTPB12 and MSTPC31 run (`b12_running`, `c31_running`) or not.
///
/// The flash wait for the new ICLK is set before the switch when ICLK does not
/// fall, after it otherwise. A switch through the PLL takes the steps of
/// [`spec_switch_body_via_pll`]; any other switch writes the source and the
/// dividers at once.
pub open spec fn spec_switch_plan(
    c: ClocksConfig,
    old_src: Option<ClocksSource>,
    iclk_old: u32,
    ick_div_old: Option<ClocksDiv>,
    b12_running: bool,
    c31_running: bool,
) -> Seq<ClockSwitchStep> {
    let new_src = c.spec_source();
    let iclk_new = c.spec_freqs().ick;
    let higher = iclk_new >= iclk_old;
    let flwt = FlashWait::spec_from_iclk(iclk_new).unwrap();
    let tmp = spec_switch_iclk_tmp(iclk_new, c.spec_ick_div(), ick_div_old);
    let body = if spec_switch_via_pll(old_src, new_src) {
        spec_switch_body_via_pll(c, old_src, iclk_old, tmp, b12_running, c31_running)
    } else {
        seq![ClockSwitchStep::SelectSource(new_src), spec_dividers_step(c)]
    };
    spec_steps_if(higher, seq![ClockSwitchStep::SetFlashWait(flwt)])
        + seq![ClockSwitchStep::SetPrc0(true)]
        + body
        + seq![ClockSwitchStep::SetPrc0(false)]
        + spec_steps_if(!higher, seq![ClockSwitchStep::SetFlashWait(flwt)])
}

fn dividers_step(c: &ClocksConfig) -> (s: ClockSwitchStep)
    ensures
        s == spec_dividers_step(*c),
{
    ClockSwitchStep::SetDividers {
        pckd: c.pckd_div,
        pckc: c.pckc_div,
        pckb: c.pckb_div,
        pcka: c.pcka_div,
        bck: c.bck_div,
        ick: c.ick_div,
        fck: c.fck_div,
    }
}

fn switch_via_pll(old_src: Option<ClocksSource>, new_src: ClocksSource) -> (r: bool)
    ensures
        r == spec_switch_via_pll(old_src, new_src),
{
    match (old_src, new_src) {
        (None, _) => true,
        (Some(ClocksSource::Pll), _) => true,
        (_, ClocksSource::Pll) => true,
        _ => false,
    }
}

fn switch_source(old_src: Option<ClocksSource>, new_src: ClocksSource) -> (r: Option<ClocksSource>)
    ensures
        r == spec_switch_source(old_src, new_src),
{
    if !switch_via_pll(old_src, new_src) {
        Some(new_src)
    } else {
        match (old_src, new_src) {
            (Some(ClocksSource::Pll), ClocksSource::Pll) => None,
            (Some(ClocksSource::Pll), _) => Some(new_src),
            (_, _) => Some(ClocksSource::Pll),
        }
    }
}

fn switch_body_via_pll(
    c: &ClocksConfig,
    old_src: Option<ClocksSource>,
    iclk_old: u32,
    tmp: u32,
    b12_running: bool,
    c31_running: bool,
) -> (v: Vec<ClockSwitchStep>)
    ensures
        v@ == spec_switch_body_via_pll(*c, old_src, iclk_old, tmp, b12_running, c31_running),
{
    let new_src = c.source;
    let iclk_new = c.freqs.ick;
    let mut v: Vec<ClockSwitchStep> = Vec::new();
    v.push(ClockSwitchStep::EnableCycleCounter);
    if b12_running {
        v.push(ClockSwitchStep::SetMstpB12(true));
    }
    v.push(ClockSwitchStep::Wait { ns: 250, iclk_hz: iclk_old });
    if c31_running {
        v.push(ClockSwitchStep::SetMstpC31(true));
    }
    v.push(ClockSwitchStep::Wait { ns: 250, iclk_hz: iclk_old });
    let ghost p1 = v@;
    match (old_src, new_src) {
        (Some(ClocksSource::Pll), ClocksSource::Pll) => {},
        (Some(ClocksSource::Pll), _) => {
            v.push(ClockSwitchStep::Wait { ns: 750, iclk_hz: iclk_old });
            v.push(ClockSwitchStep::SelectSource(new_src));
        },
        (_, _) => {
            v.push(ClockSwitchStep::SelectSource(ClocksSource::Pll));
            v.push(ClockSwitchStep::Wait { ns: 250, iclk_hz: tmp });
        },
    }
    let ghost p2 = v@;
    v.push(ClockSwitchStep::Wait { ns: 750, iclk_hz: tmp });
    v.push(dividers_step(c));
    v.push(ClockSwitchStep::Wait { ns: 250, iclk_hz: iclk_new });
    let ghost p3 = v@;
    if b12_running {
        v.push(ClockSwitchStep::SetMstpB12(false));
        v.push(ClockSwitchStep::Wait { ns: 250, iclk_hz: iclk_new });
    }
    let ghost p4 = v@;
    if c31_running {
        v.push(ClockSwitchStep::SetMstpC31(false));
        v.push(ClockSwitchStep::Wait { ns: 250, iclk_hz: iclk_new });
    }
    proof {
        let s1 = seq![ClockSwitchStep::EnableCycleCounter]
            + spec_steps_if(b12_running, seq![ClockSwitchStep::SetMstpB12(true)])
            + seq![ClockSwitchStep::Wait { ns: 250, iclk_hz: iclk_old }]
            + spec_steps_if(c31_running, seq![ClockSwitchStep::SetMstpC31(true)])
            + seq![ClockSwitchStep::Wait { ns: 250, iclk_hz: iclk_old }];
        assert(p1 =~= s1);
        let source_steps = if old_src == Some(ClocksSource::Pll) && new_src == ClocksSource::Pll {
            Seq::<ClockSwitchStep>::empty()
        } else if old_src == Some(ClocksSource::Pll) {
            seq![ClockSwitchStep::Wait { ns: 750, iclk_hz: iclk_old }, ClockSwitchStep::SelectSource(new_src)]
        } else {
            seq![ClockSwitchStep::SelectSource(ClocksSource::Pll), ClockSwitchStep::Wait { ns: 250, iclk_hz: tmp }]
        };
        assert(p2 =~= p1 + source_steps);
        let s3 = seq![
            ClockSwitchStep::Wait { ns: 750, iclk_hz: tmp },
            spec_dividers_step(*c),
            ClockSwitchStep::Wait { ns: 250, iclk_hz: iclk_new },
        ];
        assert(p3 =~= p2 + s3);
        assert(p4 =~= p3 + spec_steps_if(b12_running, seq![ClockSwitchStep::SetMstpB12(false), ClockSwitchStep::Wait { ns: 250, iclk_hz: iclk_new }]));
        assert(v@ =~= p4 + spec_steps_if(c31_running, seq![ClockSwitchStep::SetMstpC31(false), ClockSwitchStep::Wait { ns: 250, iclk_hz: iclk_new }]));
    }
    v
}

fn switch_plan(
    c: &ClocksConfig,
    old_src: Option<ClocksSource>,
    iclk_old: u32,
    ick_div_old: Option<ClocksDiv>,
    b12_running: bool,
    c31_running: bool,
) -> (v: Vec<ClockSwitchStep>)
    ensures
        v@ == spec_switch_plan(*c, old_src, iclk_old, ick_div_old, b12_running, c31_running),
{
    proof {
        use_type_invariant(c);
    }
    let new_src = c.source;
    let iclk_new = c.freqs.ick;
    let higher = iclk_new >= iclk_old;
    let flwt = match FlashWait::from_iclk(iclk_new) {
        Some(w) => w,
        None => FlashWait::Wait3,
    };
    let old_value: u32 = match ick_div_old {
        Some(d) => d.value(),
        None => ClocksDiv::Div64.value(),
    };
    let tmp = iclk_new * c.ick_div.value() / old_value;
    let mut v: Vec<ClockSwitchStep> = Vec::new();
    if higher {
        v.push(ClockSwitchStep::SetFlashWait(flwt));
    }
    v.push(ClockSwitchStep::SetPrc0(true));
    let ghost p1 = v@;
    let mut body = if switch_via_pll(old_src, new_src) {
        switch_body_via_pll(c, old_src, iclk_old, tmp, b12_running, c31_running)
    } else {
        let mut b: Vec<ClockSwitchStep> = Vec::new();
        b.push(ClockSwitchStep::SelectSource(new_src));
        b.push(dividers_step(c));
        b
    };
    let ghost body_seq = body@;
    v.append(&mut body);
    v.push(ClockSwitchStep::SetPrc0(false));
    let ghost p2 = v@;
    if !higher {
        v.push(ClockSwitchStep::SetFlashWait(flwt));
    }
    proof {
        assert(p1 =~= spec_steps_if(higher, seq![ClockSwitchStep::SetFlashWait(flwt)]) + seq![ClockSwitchStep::SetPrc0(true)]);
        assert(p2 =~= p1 + body_seq + seq![ClockSwitchStep::SetPrc0(false)]);
        assert(v@ =~= p2 + spec_steps_if(!higher, seq![ClockSwitchStep::SetFlashWait(flwt)]));
    }
    v
}

/// What the last accepted clock setting fixed: the system clock frequencies and
/// which peripherals the setting was checked for. Only a clock switch changes it.
pub struct AppliedClocks {
    freqs: ClocksFreq,
    use_adc12: bool,
    use_canfd: bool,
    use_etherc: bool,
}

/// The system clock tree: the frequencies of the system clocks that were last set,
/// every oscillator and peripheral clock, and which peripherals the last setting
/// was checked for.
pub struct Clocks {
    pub applied: AppliedClocks,
    pub pll: Pll,
    pub pll2: Pll2,
    pub mosc: Mosc,
    pub sosc: Sosc,
    pub hoco: Hoco,
    pub moco: Moco,
    pub loco: Loco,
    pub ebclk: Ebclk,
    pub clkout: ClockOut,
    pub usbclk: UsbClk,
    pub octaclk: OctaClk,
    pub canfdclk: CanfdClk,
    pub usb60clk: Usb60Clk,
    pub cecclk: CecClk,
    pub trclk: TrClk,
}

/// What switching the oscillation stop detection interrupt on (`enable`) or off answers.
pub open spec fn spec_ostdie_result(regs: SyscRegs, enable: bool) -> Result<(), RegisterError> {
    if regs.ostd.ostdie == enable {
        Err(RegisterError::NotReadyToWrite(if enable { "OSTDI is already enabled." } else { "OSTDI is already disabled." }))
    } else {
        Ok(())
    }
}

/// What clearing the oscillation stop flag answers, given the source of PLL1.
pub open spec fn spec_reset_ostd_result(regs: SyscRegs) -> Result<(), RegisterError> {
    if regs.ostd.ostdie {
        Err(RegisterError::NotReadyToWrite("OSTDI is disabled."))
    } else if !regs.ostd.ostdf {
        Err(RegisterError::NotReadyToWrite("Oscillation stop is not detected."))
    } else if ClocksSource::spec_from_u8(regs.sck.cksel) == Some(ClocksSource::Mosc) {
        Err(RegisterError::NotReadyToWrite("MOSC is selected for system clock source."))
    } else if ClocksSource::spec_from_u8(regs.sck.cksel) == Some(ClocksSource::Pll)
        && PllSource::spec_from_u8(regs.pll.srcsel) == Some(PllSource::Mosc) {
        Err(RegisterError::NotReadyToWrite("PLL (source: MOSC) is selected for system clock source."))
    } else {
        Ok(())
    }
}

impl Clocks {
    pub closed spec fn spec_freqs(&self) -> ClocksFreq {
        self.applied.freqs
    }

    pub closed spec fn spec_use_adc12(&self) -> bool {
        self.applied.use_adc12
    }

    pub closed spec fn spec_use_canfd(&self) -> bool {
        self.applied.use_canfd
    }

    pub closed spec fn spec_use_etherc(&self) -> bool {
        self.applied.use_etherc
    }

    /// The frequency that PLL1 was last set to, if any.
    pub open spec fn spec_pll_freq(&self) -> Option<u32> {
        self.pll.spec_freq()
    }

    /// The frequency that PLL2 was last set to, if any.
    pub open spec fn spec_pll2_freq(&self) -> Option<u32> {
        self.pll2.spec_freq()
    }

    /// The MOSC crystal frequency that was last set, if any.
    pub open spec fn spec_mosc_freq(&self) -> Option<u32> {
        self.mosc.spec_freq()
    }

    /// The state after reset: the reset frequencies (MOCO divided by 4), no PLL
    /// or MOSC frequency known yet, ADC12 in use, CANFD and ETHERC not.
    pub open spec fn is_initial(&self) -> bool {
        &&& self.spec_freqs() == spec_default_freqs()
        &&& self.spec_pll_freq() is None
        &&& self.spec_pll2_freq() is None
        &&& self.spec_mosc_freq() is None
        &&& self.spec_use_adc12()
        &&& !self.spec_use_canfd()
        &&& !self.spec_use_etherc()
    }

    pub(crate) fn init() -> (c: Clocks)
        ensures
            c.is_initial(),
    {
        Clocks {
            applied: AppliedClocks {
                freqs: ClocksFreq::default(),
                use_adc12: true,
                use_canfd: false,
                use_etherc: false,
            },
            pll: Pll::new(),
            pll2: Pll2::new(),
            mosc: Mosc::new(),
            sosc: Sosc::new(),
            hoco: Hoco::new(),
            moco: Moco::new(),
            loco: Loco::new(),
            ebclk: Ebclk::new(),
            clkout: ClockOut::new(),
            usbclk: UsbClk::new(),
            octaclk: OctaClk::new(),
            canfdclk: CanfdClk::new(),
            usb60clk: Usb60Clk::new(),
            cecclk: CecClk::new(),
            trclk: TrClk::new(),
        }
    }

    fn set_prc0(&mut self, regs: &mut SyscRegs, enable: bool) -> (r: Result<(), RegisterError>)
        ensures
            *final(self) == *old(self),
            r is Ok,
            *final(regs) == (SyscRegs { prcr: spec_prc0_bits(enable), ..*old(regs) }),
    {
        prc0(regs, enable);
        Ok(())
    }

    /// Lifts the write protection of the clock registers (PRC0 = 1).
    pub fn enable_clock_write(&mut self, regs: &mut SyscRegs) -> (r: Result<(), RegisterError>)
        ensures
            *final(self) == *old(self),
            r is Ok,
            *final(regs) == (SyscRegs { prcr: 1, ..*old(regs) }),
    {
        self.set_prc0(regs, true)
    }

    /// Restores the write protection of the clock registers (PRC0 = 0).
    pub fn disable_clock_write(&mut self, regs: &mut SyscRegs) -> (r: Result<(), RegisterError>)
        ensures
            *final(self) == *old(self),
            r is Ok,
            *final(regs) == (SyscRegs { prcr: 0, ..*old(regs) }),
    {
        self.set_prc0(regs, false)
    }

    pub fn is_clock_write_enabled(&self, regs: &SyscRegs) -> (r: bool)
        ensures
            r == (regs.prcr & 1u8 == 1u8),
    {
        is_prc0(regs)
    }

    pub fn get_pckd_div(&self, regs: &SyscRegs) -> (r: Option<ClocksDiv>)
        ensures
            r == ClocksDiv::spec_from_u8(regs.sck.pckd),
    {
        ClocksDiv::from_u8(regs.sck.pckd)
    }

    pub fn get_pckc_div(&self, regs: &SyscRegs) -> (r: Option<ClocksDiv>)
        ensures
            r == ClocksDiv::spec_from_u8(regs.sck.pckc),
    {
        ClocksDiv::from_u8(regs.sck.pckc)
    }

    pub fn get_pckb_div(&self, regs: &SyscRegs) -> (r: Option<ClocksDiv>)
        ensures
            r == ClocksDiv::spec_from_u8(regs.sck.pckb),
    {
        ClocksDiv::from_u8(regs.sck.pckb)
    }

    pub fn get_pcka_div(&self, regs: &SyscRegs) -> (r: Option<ClocksDiv>)
        ensures
            r == ClocksDiv::spec_from_u8(regs.sck.pcka),
    {
        ClocksDiv::from_u8(regs.sck.pcka)
    }

    pub fn get_bck_div(&self, regs: &SyscRegs) -> (r: Option<ClocksDiv>)
        ensures
            r == ClocksDiv::spec_from_u8(regs.sck.bck),
    {
        ClocksDiv::from_u8(regs.sck.bck)
    }

    pub fn get_ick_div(&self, regs: &SyscRegs) -> (r: Option<ClocksDiv>)
        ensures
            r == ClocksDiv::spec_from_u8(regs.sck.ick),
    {
        ClocksDiv::from_u8(regs.sck.ick)
    }

    pub fn get_fck_div(&self, regs: &SyscRegs) -> (r: Option<ClocksDiv>)
        ensures
            r == ClocksDiv::spec_from_u8(regs.sck.fck),
    {
        ClocksDiv::from_u8(regs.sck.fck)
    }

    pub fn get_freqs(&self) -> (r: ClocksFreq)
        ensures
            r == self.spec_freqs(),
    {
        self.applied.freqs
    }

    pub fn get_source(&self, regs: &SyscRegs) -> (r: Option<ClocksSource>)
        ensures
            r == ClocksSource::spec_from_u8(regs.sck.cksel),
    {
        ClocksSource::from_u8(regs.sck.cksel)
    }

    pub fn is_adc12_available(&self) -> (r: bool)
        ensures
            r == self.spec_use_adc12(),
    {
        self.applied.use_adc12
    }

    pub fn is_canfd_available(&self) -> (r: bool)
        ensures
            r == self.spec_use_canfd(),
    {
        self.applied.use_canfd
    }

    pub fn is_etherc_available(&self) -> (r: bool)
        ensures
            r == self.spec_use_etherc(),
    {
        self.applied.use_etherc
    }

    /// Switches the system clock to a checked setting.
    ///
    /// Returns the steps of the switch in the order that the hardware needs them;
    /// the caller performs them. The register models are left as the steps leave
    /// the registers: the new source selection and dividers, PRC0 cleared, the
    /// flash wait for the new ICLK, and the module stop bits as they were.
    pub fn set_config(
        &mut self,
        config: &ClocksConfig,
        regs: &mut SyscRegs,
        _mstp: &mut Mstp,
        mstp_regs: &mut MstpRegs,
        fcache: &mut Fcache,
        fcache_regs: &mut FcacheRegs,
    ) -> (r: Result<Vec<ClockSwitchStep>, RegisterError>)
        ensures
            r matches Ok(steps) && steps@ == spec_switch_plan(
                *config,
                ClocksSource::spec_from_u8(old(regs).sck.cksel),
                old(self).spec_freqs().ick,
                ClocksDiv::spec_from_u8(old(regs).sck.ick),
                !old(mstp_regs).mstpb12,
                !old(mstp_regs).mstpc31,
            ),
            *final(regs) == (SyscRegs {
                prcr: 0,
                sck: SckRegs {
                    cksel: match spec_switch_source(ClocksSource::spec_from_u8(old(regs).sck.cksel), config.spec_source()) {
                        Some(s) => s.spec_bits(),
                        None => old(regs).sck.cksel,
                    },
                    pckd: config.spec_pckd_div().spec_bits(),
                    pckc: config.spec_pckc_div().spec_bits(),
                    pckb: config.spec_pckb_div().spec_bits(),
                    pcka: config.spec_pcka_div().spec_bits(),
                    bck: config.spec_bck_div().spec_bits(),
                    ick: config.spec_ick_div().spec_bits(),
                    fck: config.spec_fck_div().spec_bits(),
                },
                ..*old(regs)
            }),
            *final(mstp_regs) == *old(mstp_regs),
            final(fcache_regs).flwt == FlashWait::spec_from_iclk(config.spec_freqs().ick).unwrap().spec_bits(),
            final(self).spec_freqs() == config.spec_freqs(),
            final(self).spec_use_adc12() == config.spec_use_adc12(),
            final(self).spec_use_canfd() == config.spec_use_canfd(),
            final(self).spec_use_etherc() == config.spec_use_etherc(),
            final(self).spec_pll_freq() == old(self).spec_pll_freq(),
            final(self).spec_pll2_freq() == old(self).spec_pll2_freq(),
            final(self).spec_mosc_freq() == old(self).spec_mosc_freq(),
    {
        proof {
            use_type_invariant(config);
        }
        let steps = switch_plan(
            config,
            self.get_source(regs),
            self.applied.freqs.ick,
            self.get_ick_div(regs),
            !mstp_regs.mstpb12,
            !mstp_regs.mstpc31,
        );
        let flwt = match FlashWait::from_iclk(config.freqs.ick) {
            Some(w) => w,
            None => FlashWait::Wait3,
        };
        let _ = fcache.set_flash_wait(fcache_regs, flwt);
        match switch_source(self.get_source(regs), config.source) {
            Some(s) => {
                regs.sck.cksel = s.bits();
            },
            None => {},
        }
        regs.sck.pckd = config.pckd_div.bits();
        regs.sck.pckc = config.pckc_div.bits();
        regs.sck.pckb = config.pckb_div.bits();
        regs.sck.pcka = config.pcka_div.bits();
        regs.sck.bck = config.bck_div.bits();
        regs.sck.ick = config.ick_div.bits();
        regs.sck.fck = config.fck_div.bits();
        regs.prcr = 0;
        self.applied.freqs = config.freqs;
        self.applied.use_adc12 = config.use_adc12;
        self.applied.use_canfd = config.use_canfd;
        self.applied.use_etherc = config.use_etherc;
        Ok(steps)
    }

    pub fn is_oscillation_stop_detection_interrupt_enabled(&self, regs: &SyscRegs) -> (r: bool)
        ensures
            r == regs.ostd.ostdie,
    {
        regs.ostd.ostdie
    }

    fn set_ostdie(&mut self, regs: &mut SyscRegs, enable: bool) -> (r: Result<(), RegisterError>)
        ensures
            *final(self) == *old(self),
            r == spec_ostdie_result(*old(regs), enable),
            r is Err ==> *final(regs) == *old(regs),
            r is Ok ==> *final(regs) == (SyscRegs { prcr: 0, ostd: OstdRegs { ostdie: enable, ..old(regs).ostd }, ..*old(regs) }),
    {
        if self.is_oscillation_stop_detection_interrupt_enabled(regs) == enable {
            Err(RegisterError::NotReadyToWrite(if enable { "OSTDI is already enabled." } else { "OSTDI is already disabled." }))
        } else {
            prc0(regs, true);
            regs.ostd.ostdie = enable;
            prc0(regs, false);
            Ok(())
        }
    }

    /// Turns the oscillation stop detection interrupt on when it is off.
    pub fn enable_oscillation_stop_detection_interrupt(&mut self, regs: &mut SyscRegs) -> (r: Result<(), RegisterError>)
        ensures
            *final(self) == *old(self),
            r == spec_ostdie_result(*old(regs), true),
            r is Err ==> *final(regs) == *old(regs),
            r is Ok ==> *final(regs) == (SyscRegs { prcr: 0, ostd: OstdRegs { ostdie: true, ..old(regs).ostd }, ..*old(regs) }),
    {
        self.set_ostdie(regs, true)
    }

    /// Turns the oscillation stop detection interrupt off when it is on.
    pub fn disable_oscillation_stop_detection_interrupt(&mut self, regs: &mut SyscRegs) -> (r: Result<(), RegisterError>)
        ensures
            *final(self) == *old(self),
            r == spec_ostdie_result(*old(regs), false),
            r is Err ==> *final(regs) == *old(regs),
            r is Ok ==> *final(regs) == (SyscRegs { prcr: 0, ostd: OstdRegs { ostdie: false, ..old(regs).ostd }, ..*old(regs) }),
    {
        self.set_ostdie(regs, false)
    }

    pub fn is_oscillation_stop_detection_enabled(&self, regs: &SyscRegs) -> (r: bool)
        ensures
            r == regs.ostd.ostde,
    {
        regs.ostd.ostde
    }

    /// Turns oscillation stop detection on when it is off.
    pub fn enable_oscillation_stop_detection(&mut self, regs: &mut SyscRegs) -> (r: Result<(), RegisterError>)
        ensures
            *final(self) == *old(self),
            old(regs).ostd.ostde ==> r == Err::<(), RegisterError>(RegisterError::NotReadyToWrite(
                "Oscillation stop detection is already enabled.")) && *final(regs) == *old(regs),
            !old(regs).ostd.ostde ==> r is Ok && *final(regs) == (SyscRegs {
                prcr: 0,
                ostd: OstdRegs { ostde: true, ..old(regs).ostd },
                ..*old(regs)
            }),
    {
        if self.is_oscillation_stop_detection_enabled(regs) {
            Err(RegisterError::NotReadyToWrite("Oscillation stop detection is already enabled."))
        } else {
            prc0(regs, true);
            regs.ostd.ostde = true;
            prc0(regs, false);
            Ok(())
        }
    }

    /// Turns oscillation stop detection off when it is on and no stop was detected.
    pub fn disable_oscillation_stop_detection(&mut self, regs: &mut SyscRegs) -> (r: Result<(), RegisterError>)
        ensures
            *final(self) == *old(self),
            !old(regs).ostd.ostde ==> r == Err::<(), RegisterError>(RegisterError::NotReadyToWrite(
                "Oscillation stop detection is already disabled.")) && *final(regs) == *old(regs),
            old(regs).ostd.ostde && old(regs).ostd.ostdf ==> r == Err::<(), RegisterError>(
                RegisterError::NotReadyToWrite("Oscillation stop is detected.")) && *final(regs) == *old(regs),
            old(regs).ostd.ostde && !old(regs).ostd.ostdf ==> r is Ok && *final(regs) == (SyscRegs {
                prcr: 0,
                ostd: OstdRegs { ostde: false, ..old(regs).ostd },
                ..*old(regs)
            }),
    {
        if !self.is_oscillation_stop_detection_enabled(regs) {
            Err(RegisterError::NotReadyToWrite("Oscillation stop detection is already disabled."))
        } else if self.is_oscillation_stop_detected(regs) {
            Err(RegisterError::NotReadyToWrite("Oscillation stop is detected."))
        } else {
            prc0(regs, true);
            regs.ostd.ostde = false;
            prc0(regs, false);
            Ok(())
        }
    }

    pub fn is_oscillation_stop_detected(&self, regs: &SyscRegs) -> (r: bool)
        ensures
            r == regs.ostd.ostdf,
    {
        regs.ostd.ostdf
    }

    /// Clears the oscillation stop flag once a stop was detected, while its interrupt
    /// is off and the system clock does not come from MOSC, directly or through PLL1.
    pub fn reset_oscillation_stop_detection(&mut self, regs: &mut SyscRegs) -> (r: Result<(), RegisterError>)
        ensures
            *final(self) == *old(self),
            r == spec_reset_ostd_result(*old(regs)),
            r is Err ==> *final(regs) == *old(regs),
            r is Ok ==> *final(regs) == (SyscRegs { prcr: 0, ostd: OstdRegs { ostdf: false, ..old(regs).ostd }, ..*old(regs) }),
    {
        let blocked = if self.is_oscillation_stop_detection_interrupt_enabled(regs) {
            Some(RegisterError::NotReadyToWrite("OSTDI is disabled."))
        } else if !self.is_oscillation_stop_detected(regs) {
            Some(RegisterError::NotReadyToWrite("Oscillation stop is not detected."))
        } else {
            match self.get_source(regs) {
                Some(ClocksSource::Mosc) => Some(RegisterError::NotReadyToWrite("MOSC is selected for system clock source.")),
                Some(ClocksSource::Pll) => match self.pll.get_source(regs) {
                    Some(PllSource::Mosc) => Some(RegisterError::NotReadyToWrite(
                        "PLL (source: MOSC) is selected for system clock source.")),
                    _ => None,
                },
                _ => None,
            }
        };
        match blocked {
            Some(e) => Err(e),
            None => {
                prc0(regs, true);
                regs.ostd.ostdf = false;
                prc0(regs, false);
                Ok(())
            },
        }
    }
}

/// Every set of frequencies that passes the rule check keeps each clock within
/// its maximum, keeps the clocks in their required order, and meets the rules of
/// the peripherals that were asked for.
pub proof fn lemma_accepted_freqs_follow_rules(
    f: ClocksFreq,
    pcka_div: ClocksDiv,
    pckb_div: ClocksDiv,
    pckc_div: ClocksDiv,
    use_adc12: bool,
    use_canfd: bool,
    use_etherc: bool,
)
    requires
        spec_clocks_rule_error(f, pcka_div, pckb_div, pckc_div, use_adc12, use_canfd, use_etherc) is None,
    ensures
        f.ick <= ICLK_HZ_MAX,
        f.pcka <= PCLKA_HZ_MAX,
        f.pckb <= PCLKB_HZ_MAX,
        f.pckc <= PCLKC_HZ_MAX,
        f.pckd <= PCLKD_HZ_MAX,
        f.fck <= FCLK_HZ_MAX,
        f.bck <= BCLK_HZ_MAX,
        f.ick >= f.pcka >= f.pckb,
        f.pckd >= f.pcka,
        f.ick >= f.fck,
        f.ick >= f.bck,
        use_adc12 ==> f.pckc >= PCLKC_ADC12_HZ_MIN,
        use_canfd ==> pcka_div.spec_value() / pckb_div.spec_value() == 2,
        use_etherc ==> PCLKA_ETHERC_HZ_MIN <= f.pcka <= PCLKA_ETHERC_HZ_MAX,
{
}

/// The PCLKA:PCLKC frequency ratios that ADC12 allows (1:1, 2:1, 4:1, 8:1, 1:2
/// and 1:4), as ratios of the dividers: PCLKA:PCLKC = n:1 when the PCLKC divider
/// is n times the PCLKA divider.
pub open spec fn spec_adc12_ratio_allowed(pcka_div: ClocksDiv, pckc_div: ClocksDiv) -> bool {
    let a = pcka_div.spec_value() as int;
    let c = pckc_div.spec_value() as int;
    c == a || c == 2 * a || c == 4 * a || c == 8 * a || a == 2 * c || a == 4 * c
}

/// Every setting that meets the clock rules is accepted: the maxima of each clock,
/// ICLK >= PCLKA >= PCLKB, PCLKD >= PCLKA, ICLK >= FCLK, ICLK >= BCLK, and, when
/// asked, PCLKC >= 1 MHz with an allowed PCLKA:PCLKC ratio for ADC12, the
/// PCLKA:PCLKB divider check for CANFD and 12.5 MHz <= PCLKA <= 100 MHz for ETHERC.
/// With `lemma_accepted_freqs_follow_rules`, a setting is accepted exactly when it
/// meets the rules. PCLKA and PCLKC are the source frequency `base` through their
/// dividers.
pub proof fn lemma_rules_met_are_accepted(
    base: u32,
    f: ClocksFreq,
    pcka_div: ClocksDiv,
    pckb_div: ClocksDiv,
    pckc_div: ClocksDiv,
    use_adc12: bool,
    use_canfd: bool,
    use_etherc: bool,
)
    requires
        f.pcka == base / pcka_div.spec_value(),
        f.pckc == base / pckc_div.spec_value(),
        f.ick <= ICLK_HZ_MAX,
        f.pcka <= PCLKA_HZ_MAX,
        f.pckb <= PCLKB_HZ_MAX,
        f.pckc <= PCLKC_HZ_MAX,
        f.pckd <= PCLKD_HZ_MAX,
        f.fck <= FCLK_HZ_MAX,
        f.bck <= BCLK_HZ_MAX,
        f.ick >= f.pcka >= f.pckb,
        f.pckd >= f.pcka,
        f.ick >= f.fck,
        f.ick >= f.bck,
        use_adc12 ==> f.pckc >= PCLKC_ADC12_HZ_MIN && spec_adc12_ratio_allowed(pcka_div, pckc_div),
        use_canfd ==> pcka_div.spec_value() / pckb_div.spec_value() == 2,
        use_etherc ==> PCLKA_ETHERC_HZ_MIN <= f.pcka <= PCLKA_ETHERC_HZ_MAX,
    ensures
        spec_clocks_rule_error(f, pcka_div, pckb_div, pckc_div, use_adc12, use_canfd, use_etherc) is None,
{
    if use_adc12 {
        let a = pcka_div.spec_value();
        let c = pckc_div.spec_value();
        assert(a >= 1 && c >= 1);
        if c == a {
            assert(a / c == 1 && c / a == 1) by (nonlinear_arith) requires c == a, a >= 1;
        } else if c == 2 * a || c == 4 * a || c == 8 * a {
            assert(a / c == 0) by (nonlinear_arith) requires c > a, a >= 1;
            let q = base / c;
            assert(q * c <= base) by (nonlinear_arith) requires q == base / c, c >= 1;
            assert(q * a <= q * c) by (nonlinear_arith) requires a <= c, q >= 0;
            assert(q <= base / a) by (nonlinear_arith) requires q * a <= base, a >= 1;
            assert(f.pcka >= f.pckc);
        } else {
            assert(c / a == 0) by (nonlinear_arith) requires a > c, c >= 1;
            assert(a / c <= 4) by (nonlinear_arith) requires a <= 4 * c, c >= 1;
        }
    }
}

/// The source that performing `steps` in order leaves selected, starting from
/// `start`: that of the last SCKSCR.CKSEL write, or `start` when there is none.
pub open spec fn spec_selected_by(steps: Seq<ClockSwitchStep>, start: Option<ClocksSource>) -> Option<ClocksSource>
    decreases steps.len(),
{
    if steps.len() == 0 {
        start
    } else {
        match steps.last() {
            ClockSwitchStep::SelectSource(s) => Some(s),
            _ => spec_selected_by(steps.drop_last(), start),
        }
    }
}

/// `steps` writes no source selection.
pub open spec fn spec_no_select(steps: Seq<ClockSwitchStep>) -> bool {
    forall|i: int| 0 <= i < steps.len() ==> !(#[trigger] steps[i] is SelectSource)
}

/// Performing `a`, then `b`, leaves what performing `a + b` leaves.
pub proof fn lemma_selected_by_concat(a: Seq<ClockSwitchStep>, b: Seq<ClockSwitchStep>, start: Option<ClocksSource>)
    ensures
        spec_selected_by(a + b, start) == spec_selected_by(b, spec_selected_by(a, start)),
    decreases b.len(),
{
    if b.len() == 0 {
        assert(a + b =~= a);
    } else {
        assert((a + b).drop_last() =~= a + b.drop_last());
        assert((a + b).last() == b.last());
        lemma_selected_by_concat(a, b.drop_last(), start);
    }
}

/// Steps without a source selection leave the selection as it was.
pub proof fn lemma_selected_by_no_select(s: Seq<ClockSwitchStep>, start: Option<ClocksSource>)
    requires
        spec_no_select(s),
    ensures
        spec_selected_by(s, start) == start,
    decreases s.len(),
{
    if s.len() > 0 {
        assert(!(s[s.len() - 1] is SelectSource));
        assert forall|i: int| 0 <= i < s.drop_last().len() implies !(#[trigger] s.drop_last()[i] is SelectSource) by {
            assert(s.drop_last()[i] == s[i]);
        }
        lemma_selected_by_no_select(s.drop_last(), start);
    }
}

/// Around steps `m` that select nothing before and after (`p`, `q`), only `m` decides.
proof fn lemma_selected_by_middle(p: Seq<ClockSwitchStep>, m: Seq<ClockSwitchStep>, q: Seq<ClockSwitchStep>, start: Option<ClocksSource>)
    requires
        spec_no_select(p),
        spec_no_select(q),
    ensures
        spec_selected_by(p + m + q, start) == spec_selected_by(m, start),
{
    lemma_selected_by_concat(p + m, q, start);
    lemma_selected_by_no_select(q, spec_selected_by(p + m, start));
    lemma_selected_by_concat(p, m, start);
    lemma_selected_by_no_select(p, start);
}

/// The switch plan moves the system clock onto the configured source: performing
/// its steps from the current selection leaves the configuration's source
/// selected. From a selection that decodes to no source, the switch goes through
/// the PLL and leaves the PLL selected. The register model of `set_config` is left
/// with the same selection.
pub proof fn lemma_switch_plan_selects_source(
    c: ClocksConfig,
    old_src: Option<ClocksSource>,
    iclk_old: u32,
    ick_div_old: Option<ClocksDiv>,
    b12_running: bool,
    c31_running: bool,
)
    ensures
        spec_selected_by(spec_switch_plan(c, old_src, iclk_old, ick_div_old, b12_running, c31_running), old_src)
            == (if old_src is None { Some(ClocksSource::Pll) } else { Some(c.spec_source()) }),
        spec_selected_by(spec_switch_plan(c, old_src, iclk_old, ick_div_old, b12_running, c31_running), old_src)
            == (match spec_switch_source(old_src, c.spec_source()) {
                Some(s) => Some(s),
                None => old_src,
            }),
{
    let new_src = c.spec_source();
    let iclk_new = c.spec_freqs().ick;
    let higher = iclk_new >= iclk_old;
    let flwt = FlashWait::spec_from_iclk(iclk_new).unwrap();
    let tmp = spec_switch_iclk_tmp(iclk_new, c.spec_ick_div(), ick_div_old);
    let body = if spec_switch_via_pll(old_src, new_src) {
        spec_switch_body_via_pll(c, old_src, iclk_old, tmp, b12_running, c31_running)
    } else {
        seq![ClockSwitchStep::SelectSource(new_src), spec_dividers_step(c)]
    };
    let pre = spec_steps_if(higher, seq![ClockSwitchStep::SetFlashWait(flwt)]) + seq![ClockSwitchStep::SetPrc0(true)];
    let post = seq![ClockSwitchStep::SetPrc0(false)] + spec_steps_if(!higher, seq![ClockSwitchStep::SetFlashWait(flwt)]);
    let plan = spec_switch_plan(c, old_src, iclk_old, ick_div_old, b12_running, c31_running);
    assert(plan =~= pre + body + post);
    assert(spec_no_select(pre));
    assert(spec_no_select(post));
    lemma_selected_by_middle(pre, body, post, old_src);
    if spec_switch_via_pll(old_src, new_src) {
        let iclk_new = c.spec_freqs().ick;
        let source_steps = if old_src == Some(ClocksSource::Pll) && new_src == ClocksSource::Pll {
            Seq::empty()
        } else if old_src == Some(ClocksSource::Pll) {
            seq![ClockSwitchStep::Wait { ns: 750, iclk_hz: iclk_old }, ClockSwitchStep::SelectSource(new_src)]
        } else {
            seq![ClockSwitchStep::SelectSource(ClocksSource::Pll), ClockSwitchStep::Wait { ns: 250, iclk_hz: tmp }]
        };
        let p2 = seq![ClockSwitchStep::EnableCycleCounter]
            + spec_steps_if(b12_running, seq![ClockSwitchStep::SetMstpB12(true)])
            + seq![ClockSwitchStep::Wait { ns: 250, iclk_hz: iclk_old }]
            + spec_steps_if(c31_running, seq![ClockSwitchStep::SetMstpC31(true)])
            + seq![ClockSwitchStep::Wait { ns: 250, iclk_hz: iclk_old }];
        let q2 = seq![
                ClockSwitchStep::Wait { ns: 750, iclk_hz: tmp },
                spec_dividers_step(c),
                ClockSwitchStep::Wait { ns: 250, iclk_hz: iclk_new },
            ]
            + spec_steps_if(b12_running, seq![ClockSwitchStep::SetMstpB12(false), ClockSwitchStep::Wait { ns: 250, iclk_hz: iclk_new }])
            + spec_steps_if(c31_running, seq![ClockSwitchStep::SetMstpC31(false), ClockSwitchStep::Wait { ns: 250, iclk_hz: iclk_new }]);
        assert(body =~= p2 + source_steps + q2);
        assert(spec_no_select(p2));
        assert(spec_no_select(q2));
        lemma_selected_by_middle(p2, source_steps, q2, old_src);
        if old_src == Some(ClocksSource::Pll) && new_src == ClocksSource::Pll {
        } else if old_src == Some(ClocksSource::Pll) {
            assert(source_steps.last() == ClockSwitchStep::SelectSource(new_src));
        } else {
            assert(source_steps.drop_last() =~= seq![ClockSwitchStep::SelectSource(ClocksSource::Pll)]);
            assert(spec_selected_by(source_steps.drop_last(), old_src) == Some(ClocksSource::Pll));
        }
    } else {
        assert(body.drop_last() =~= seq![ClockSwitchStep::SelectSource(new_src)]);
        assert(spec_selected_by(body.drop_last(), old_src) == Some(new_src));
    }
}

/// Decoding the field value of a system clock source or divider gives it back.
pub proof fn lemma_clock_codes_round_trip()
    ensures
        forall|s: ClocksSource| ClocksSource::spec_from_u8(#[trigger] s.spec_bits()) == Some(s),
        forall|d: ClocksDiv| ClocksDiv::spec_from_u8(#[trigger] d.spec_bits()) == Some(d),
{
    assert forall|s: ClocksSource| ClocksSource::spec_from_u8(#[trigger] s.spec_bits()) == Some(s) by {
        match s {
            ClocksSource::Hoco => {},
            ClocksSource::Moco => {},
            ClocksSource::Loco => {},
            ClocksSource::Mosc => {},
            ClocksSource::Sosc => {},
            ClocksSource::Pll => {},
        }
    }
    assert forall|d: ClocksDiv| ClocksDiv::spec_from_u8(#[trigger] d.spec_bits()) == Some(d) by {
        match d {
            ClocksDiv::Div1 => {},
            ClocksDiv::Div2 => {},
            ClocksDiv::Div4 => {},
            ClocksDiv::Div8 => {},
            ClocksDiv::Div16 => {},
            ClocksDiv::Div32 => {},
            ClocksDiv::Div64 => {},
        }
    }
}

/// The steps of a switch between its protection writes touch no protection.
proof fn lemma_switch_body_keeps_protection(
    c: ClocksConfig,
    old_src: Option<ClocksSource>,
    iclk_old: u32,
    ick_div_old: Option<ClocksDiv>,
    b12_running: bool,
    c31_running: bool,
)
    ensures
        ({
            let tmp = spec_switch_iclk_tmp(c.spec_freqs().ick, c.spec_ick_div(), ick_div_old);
            let body = if spec_switch_via_pll(old_src, c.spec_source()) {
                spec_switch_body_via_pll(c, old_src, iclk_old, tmp, b12_running, c31_running)
            } else {
                seq![ClockSwitchStep::SelectSource(c.spec_source()), spec_dividers_step(c)]
            };
            forall|k: int| 0 <= k < body.len() ==> !(#[trigger] body[k] is SetPrc0) && !(body[k] is SetFlashWait)
        }),
{
}

/// A switch of the system clock lifts the clock-generation protection once, and
/// restores it once, around every write of the clock source and dividers; the
/// flash wait for the new ICLK is set first when ICLK does not fall and last when
/// it falls.
pub proof fn lemma_switch_plan_protects_and_orders_flash_wait(
    c: ClocksConfig,
    old_src: Option<ClocksSource>,
    iclk_old: u32,
    ick_div_old: Option<ClocksDiv>,
    b12_running: bool,
    c31_running: bool,
)
    ensures
        ({
            let p = spec_switch_plan(c, old_src, iclk_old, ick_div_old, b12_running, c31_running);
            let higher = c.spec_freqs().ick >= iclk_old;
            let w = ClockSwitchStep::SetFlashWait(FlashWait::spec_from_iclk(c.spec_freqs().ick).unwrap());
            let a: int = if higher { 1 } else { 0 };
            let b: int = if higher { p.len() - 1 } else { p.len() - 2 };
            &&& 0 <= a < b < p.len()
            &&& p[a] == ClockSwitchStep::SetPrc0(true)
            &&& p[b] == ClockSwitchStep::SetPrc0(false)
            &&& higher ==> p[0] == w
            &&& !higher ==> p[p.len() - 1] == w
            &&& forall|i: int| a < i < b ==> !(#[trigger] p[i] is SetPrc0) && !(p[i] is SetFlashWait)
            &&& forall|i: int| 0 <= i < p.len() && (#[trigger] p[i] is SelectSource || p[i] is SetDividers) ==> a < i < b
        }),
{
    lemma_switch_body_keeps_protection(c, old_src, iclk_old, ick_div_old, b12_running, c31_running);
    let p = spec_switch_plan(c, old_src, iclk_old, ick_div_old, b12_running, c31_running);
    let higher = c.spec_freqs().ick >= iclk_old;
    let tmp = spec_switch_iclk_tmp(c.spec_freqs().ick, c.spec_ick_div(), ick_div_old);
    let body = if spec_switch_via_pll(old_src, c.spec_source()) {
        spec_switch_body_via_pll(c, old_src, iclk_old, tmp, b12_running, c31_running)
    } else {
        seq![ClockSwitchStep::SelectSource(c.spec_source()), spec_dividers_step(c)]
    };
    let w = ClockSwitchStep::SetFlashWait(FlashWait::spec_from_iclk(c.spec_freqs().ick).unwrap());
    let pre = spec_steps_if(higher, seq![w]);
    let post = spec_steps_if(!higher, seq![w]);
    assert(p == pre + seq![ClockSwitchStep::SetPrc0(true)] + body + seq![ClockSwitchStep::SetPrc0(false)] + post);
    let a: int = if higher { 1 } else { 0 };
    assert forall|i: int| a < i < a + 1 + body.len() implies p[i] == body[i - a - 1] by {}
}

/// A switch of the system clock from a known source leaves the setting's source
/// selected (a switch from an unknown selection goes through the PLL and stays
/// there).
pub proof fn lemma_switch_selects_config_source(c: ClocksConfig, old_cksel: u8)
    requires
        ClocksSource::spec_from_u8(old_cksel) is Some,
    ensures
        ClocksSource::spec_from_u8(match spec_switch_source(ClocksSource::spec_from_u8(old_cksel), c.spec_source()) {
            Some(s) => s.spec_bits(),
            None => old_cksel,
        }) == Some(c.spec_source()),
{
    lemma_clock_codes_round_trip();
}

/// The peripheral flags (ADC12, CANFD, ETHERC in use) after a run of calls on the
/// clock tree from `Sysc::init`: call `i` is a `Clocks::set_config` when
/// `calls[i].0`, with a configuration holding the flags `calls[i].1`; any other
/// method of `Clocks` leaves the flags.
pub open spec fn spec_clock_flags_after(calls: Seq<(bool, (bool, bool, bool))>) -> (bool, bool, bool) {
    crate::spec_last_accepted((true, false, false), calls)
}

/// After `Sysc::init`, `is_adc12_available`, `is_canfd_available` and
/// `is_etherc_available` give the flags of the configuration of the last
/// `Clocks::set_config`, and ADC12 on, CANFD and ETHERC off when there was none.
pub proof fn lemma_clock_flags_follow_last_config(calls: Seq<(bool, (bool, bool, bool))>)
    ensures
        (forall|i: int| 0 <= i < calls.len() ==> !(#[trigger] calls[i]).0)
            ==> spec_clock_flags_after(calls) == (true, false, false),
        forall|k: int|
            0 <= k < calls.len() && (#[trigger] calls[k]).0 && (forall|j: int| k < j < calls.len() ==> !(#[trigger] calls[j]).0)
                ==> spec_clock_flags_after(calls) == calls[k].1,
{
    crate::lemma_last_accepted((true, false, false), calls);
}

/// The peripheral flags of a clock tree.
pub open spec fn spec_clock_flags(c: Clocks) -> (bool, bool, bool) {
    (c.spec_use_adc12(), c.spec_use_canfd(), c.spec_use_etherc())
}

/// The clock trees of a run from `Sysc::init`, each step as the contracts state
/// it (`set_config` gives its configuration's flags, every other method of
/// `Clocks` leaves the tree as it was), end with the flags of the last
/// `set_config`, or ADC12 on, CANFD and ETHERC off when there was none.
pub proof fn lemma_clock_flags_run(states: Seq<Clocks>, calls: Seq<(bool, (bool, bool, bool))>)
    requires
        states.len() == calls.len() + 1,
        states[0].is_initial(),
        forall|i: int| 0 <= i < calls.len() ==> spec_clock_flags(states[i + 1])
            == (if (#[trigger] calls[i]).0 { calls[i].1 } else { spec_clock_flags(states[i]) }),
    ensures
        spec_clock_flags(states.last()) == spec_clock_flags_after(calls),
{
    let values = Seq::new(states.len(), |i: int| spec_clock_flags(states[i]));
    assert forall|i: int| 0 <= i < calls.len() implies values[i + 1] == (if (#[trigger] calls[i]).0 { calls[i].1 } else { values[i] }) by {}
    crate::lemma_run_ends_at_last_accepted(values, calls);
}

} // verus!
