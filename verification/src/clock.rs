//! Clock-plan vocabulary: system clock sources, dividers and the register codes
//! that stand for them.
use vstd::prelude::*;

verus! {

pub const EK_RA6M5_XTAL_HZ: u32 = 24_000_000;

pub const MAIN_HZ_MIN: u32 = 8_000_000;
pub const MAIN_HZ_MAX: u32 = 24_000_000;
pub const PLL_HZ_MIN: u32 = 120_000_000;
pub const PLL_HZ_MAX: u32 = 240_000_000;

pub const MOCO_TYP_HZ: u32 = 8_000_000;
pub const LOCO_TYP_HZ: u32 = 32_768;

pub const HIGH_SPEED_ICLK_MAX: u32 = 200_000_000;
pub const HIGH_SPEED_PCLKA_MAX: u32 = 100_000_000;
pub const HIGH_SPEED_PCLKB_MAX: u32 = 50_000_000;
pub const HIGH_SPEED_PCLKC_MAX: u32 = 50_000_000;
pub const HIGH_SPEED_PCLKD_MAX: u32 = 100_000_000;
pub const HIGH_SPEED_FCLK_MAX: u32 = 50_000_000;
pub const HIGH_SPEED_BCLK_MAX: u32 = 100_000_000;
pub const HIGH_SPEED_EBCLK_MAX: u32 = 50_000_000;
pub const HIGH_SPEED_PCLKC_ADC12_MIN: u32 = 1_000_000;

pub const LOW_SPEED_MAX: u32 = 1_000_000;

pub const SUBOSC_SPEED_MAX: u32 = 36_100;
pub const SUBOSC_SPEED_ICLK_FCLK_MIN: u32 = 29_400;

/// Operating power mode.
#[derive(Copy, Clone, Debug, PartialEq, Eq, Structural)]
pub enum Mode {
    HighSpeed,
    LowSpeed,
    SuboscSpeed,
}

/// System clock source, with the parameters that it runs with.
#[derive(Copy, Clone, Debug, PartialEq, Eq, Structural)]
pub enum Source {
    Hoco { hoco_hz: HocoHz, fll: Option<HocoFll> },
    Moco,
    Loco,
    Mosc { ext_main_hz: u32 },
    Sosc,
    Pll { ext_main_hz: u32, plidiv: PliDiv, pllmul: u8 },
}

impl Source {
    /// The SCKSCR.CKSEL code of the source.
    pub open spec fn spec_bits(self) -> u8 {
        match self {
            Source::Hoco { .. } => 0b000,
            Source::Moco => 0b001,
            Source::Loco => 0b010,
            Source::Mosc { .. } => 0b011,
            Source::Sosc => 0b100,
            Source::Pll { .. } => 0b101,
        }
    }

    pub fn bits(self) -> (b: u8)
        ensures
            b == self.spec_bits(),
    {
        match self {
            Source::Hoco { .. } => 0b000,
            Source::Moco => 0b001,
            Source::Loco => 0b010,
            Source::Mosc { .. } => 0b011,
            Source::Sosc => 0b100,
            Source::Pll { .. } => 0b101,
        }
    }
}

/// Security attribution of the clock registers.
#[derive(Copy, Clone, Debug, PartialEq, Eq, Structural)]
pub enum ClockSecurity {
    Secure,
    NonSecure,
}

impl ClockSecurity {
    pub fn bits(self) -> (b: u8)
        ensures
            b == (if self == ClockSecurity::Secure { 0u8 } else { 1u8 }),
    {
        match self {
            ClockSecurity::Secure => 0,
            ClockSecurity::NonSecure => 1,
        }
    }
}

/// A SCKDIVCR divider: a power of two from 1 to 64.
#[derive(Copy, Clone, Debug, PartialEq, Eq, Structural)]
pub enum Div2Pow {
    Div1,
    Div2,
    Div4,
    Div8,
    Div16,
    Div32,
    Div64,
}

impl Div2Pow {
    pub open spec fn spec_bits(self) -> u8 {
        match self {
            Div2Pow::Div1 => 0b000,
            Div2Pow::Div2 => 0b001,
            Div2Pow::Div4 => 0b010,
            Div2Pow::Div8 => 0b011,
            Div2Pow::Div16 => 0b100,
            Div2Pow::Div32 => 0b101,
            Div2Pow::Div64 => 0b110,
        }
    }

    pub fn bits(self) -> (b: u8)
        ensures
            b == self.spec_bits(),
    {
        match self {
            Div2Pow::Div1 => 0b000,
            Div2Pow::Div2 => 0b001,
            Div2Pow::Div4 => 0b010,
            Div2Pow::Div8 => 0b011,
            Div2Pow::Div16 => 0b100,
            Div2Pow::Div32 => 0b101,
            Div2Pow::Div64 => 0b110,
        }
    }

    /// The division ratio: 2 to the power of the field code.
    pub fn val(self) -> (v: u32)
        ensures
            v == 1u32 << (self.spec_bits() as u32),
            v == (match self {
                Div2Pow::Div1 => 1u32,
                Div2Pow::Div2 => 2u32,
                Div2Pow::Div4 => 4u32,
                Div2Pow::Div8 => 8u32,
                Div2Pow::Div16 => 16u32,
                Div2Pow::Div32 => 32u32,
                Div2Pow::Div64 => 64u32,
            }),
    {
        let b = self.bits() as u32;
        assert(1u32 << 0u32 == 1 && 1u32 << 1u32 == 2 && 1u32 << 2u32 == 4 && 1u32 << 3u32 == 8
            && 1u32 << 4u32 == 16 && 1u32 << 5u32 == 32 && 1u32 << 6u32 == 64) by (bit_vector);
        1u32 << b
    }
}

/// PLL input division.
#[derive(Copy, Clone, Debug, PartialEq, Eq, Structural)]
pub enum PliDiv {
    Div1,
    Div2,
    Div3,
}

impl PliDiv {
    fn to_bits(self) -> (b: u8)
        ensures
            b == (match self {
                PliDiv::Div1 => 0u8,
                PliDiv::Div2 => 1u8,
                PliDiv::Div3 => 2u8,
            }),
    {
        match self {
            PliDiv::Div1 => 0,
            PliDiv::Div2 => 1,
            PliDiv::Div3 => 2,
        }
    }

    fn val(self) -> (v: u32)
        ensures
            v == (match self {
                PliDiv::Div1 => 1u32,
                PliDiv::Div2 => 2u32,
                PliDiv::Div3 => 3u32,
            }),
    {
        match self {
            PliDiv::Div1 => 1,
            PliDiv::Div2 => 2,
            PliDiv::Div3 => 3,
        }
    }
}

/// PLL multiplication factor, from 10.0 to 30.0 in steps of 0.5.
#[derive(Copy, Clone, Debug, PartialEq, Eq, Structural)]
pub enum PllMul {
    Mul10_0,
    Mul10_5,
    Mul11_0,
    Mul11_5,
    Mul12_0,
    Mul12_5,
    Mul13_0,
    Mul13_5,
    Mul14_0,
    Mul14_5,
    Mul15_0,
    Mul15_5,
    Mul16_0,
    Mul16_5,
    Mul17_0,
    Mul17_5,
    Mul18_0,
    Mul18_5,
    Mul19_0,
    Mul19_5,
    Mul20_0,
    Mul20_5,
    Mul21_0,
    Mul21_5,
    Mul22_0,
    Mul22_5,
    Mul23_0,
    Mul23_5,
    Mul24_0,
    Mul24_5,
    Mul25_0,
    Mul25_5,
    Mul26_0,
    Mul26_5,
    Mul27_0,
    Mul27_5,
    Mul28_0,
    Mul28_5,
    Mul29_0,
    Mul29_5,
    Mul30_0,
}

impl PllMul {
    /// The PLLCCR.PLLMUL code: 0x13 for 10.0, one more for each step of 0.5.
    pub open spec fn spec_bits(self) -> u8 {
        match self {
            PllMul::Mul10_0 => 0x13,
            PllMul::Mul10_5 => 0x14,
            PllMul::Mul11_0 => 0x15,
            PllMul::Mul11_5 => 0x16,
            PllMul::Mul12_0 => 0x17,
            PllMul::Mul12_5 => 0x18,
            PllMul::Mul13_0 => 0x19,
            PllMul::Mul13_5 => 0x1a,
            PllMul::Mul14_0 => 0x1b,
            PllMul::Mul14_5 => 0x1c,
            PllMul::Mul15_0 => 0x1d,
            PllMul::Mul15_5 => 0x1e,
            PllMul::Mul16_0 => 0x1f,
            PllMul::Mul16_5 => 0x20,
            PllMul::Mul17_0 => 0x21,
            PllMul::Mul17_5 => 0x22,
            PllMul::Mul18_0 => 0x23,
            PllMul::Mul18_5 => 0x24,
            PllMul::Mul19_0 => 0x25,
            PllMul::Mul19_5 => 0x26,
            PllMul::Mul20_0 => 0x27,
            PllMul::Mul20_5 => 0x28,
            PllMul::Mul21_0 => 0x29,
            PllMul::Mul21_5 => 0x2a,
            PllMul::Mul22_0 => 0x2b,
            PllMul::Mul22_5 => 0x2c,
            PllMul::Mul23_0 => 0x2d,
            PllMul::Mul23_5 => 0x2e,
            PllMul::Mul24_0 => 0x2f,
            PllMul::Mul24_5 => 0x30,
            PllMul::Mul25_0 => 0x31,
            PllMul::Mul25_5 => 0x32,
            PllMul::Mul26_0 => 0x33,
            PllMul::Mul26_5 => 0x34,
            PllMul::Mul27_0 => 0x35,
            PllMul::Mul27_5 => 0x36,
            PllMul::Mul28_0 => 0x37,
            PllMul::Mul28_5 => 0x38,
            PllMul::Mul29_0 => 0x39,
            PllMul::Mul29_5 => 0x3a,
            PllMul::Mul30_0 => 0x3b,
        }
    }

    fn to_bits(self) -> (b: u8)
        ensures
            b == self.spec_bits(),
    {
        match self {
            PllMul::Mul10_0 => 0x13,
            PllMul::Mul10_5 => 0x14,
            PllMul::Mul11_0 => 0x15,
            PllMul::Mul11_5 => 0x16,
            PllMul::Mul12_0 => 0x17,
            PllMul::Mul12_5 => 0x18,
            PllMul::Mul13_0 => 0x19,
            PllMul::Mul13_5 => 0x1a,
            PllMul::Mul14_0 => 0x1b,
            PllMul::Mul14_5 => 0x1c,
            PllMul::Mul15_0 => 0x1d,
            PllMul::Mul15_5 => 0x1e,
            PllMul::Mul16_0 => 0x1f,
            PllMul::Mul16_5 => 0x20,
            PllMul::Mul17_0 => 0x21,
            PllMul::Mul17_5 => 0x22,
            PllMul::Mul18_0 => 0x23,
            PllMul::Mul18_5 => 0x24,
            PllMul::Mul19_0 => 0x25,
            PllMul::Mul19_5 => 0x26,
            PllMul::Mul20_0 => 0x27,
            PllMul::Mul20_5 => 0x28,
            PllMul::Mul21_0 => 0x29,
            PllMul::Mul21_5 => 0x2a,
            PllMul::Mul22_0 => 0x2b,
            PllMul::Mul22_5 => 0x2c,
            PllMul::Mul23_0 => 0x2d,
            PllMul::Mul23_5 => 0x2e,
            PllMul::Mul24_0 => 0x2f,
            PllMul::Mul24_5 => 0x30,
            PllMul::Mul25_0 => 0x31,
            PllMul::Mul25_5 => 0x32,
            PllMul::Mul26_0 => 0x33,
            PllMul::Mul26_5 => 0x34,
            PllMul::Mul27_0 => 0x35,
            PllMul::Mul27_5 => 0x36,
            PllMul::Mul28_0 => 0x37,
            PllMul::Mul28_5 => 0x38,
            PllMul::Mul29_0 => 0x39,
            PllMul::Mul29_5 => 0x3a,
            PllMul::Mul30_0 => 0x3b,
        }
    }
}

/// External bus clock output, BCLK or BCLK/2.
#[derive(Copy, Clone, Debug, PartialEq, Eq, Structural)]
pub enum BClkDiv {
    BClk,
    BClkDiv2,
}

impl BClkDiv {
    pub fn bits(self) -> (b: u8)
        ensures
            b == (if self == BClkDiv::BClk { 0u8 } else { 1u8 }),
    {
        match self {
            BClkDiv::BClk => 0,
            BClkDiv::BClkDiv2 => 1,
        }
    }
}

/// Whether an oscillator runs or is stopped.
#[derive(Copy, Clone, Debug, PartialEq, Eq, Structural)]
pub enum ControlMode {
    Active,
    Stop,
}

impl ControlMode {
    pub fn bits(self) -> (b: u8)
        ensures
            b == (if self == ControlMode::Active { 0u8 } else { 1u8 }),
    {
        match self {
            ControlMode::Active => 0,
            ControlMode::Stop => 1,
        }
    }
}

/// Whether the FLL runs.
#[derive(Copy, Clone, Debug, PartialEq, Eq, Structural)]
pub enum FllMode {
    Disabled,
    Enabled,
}

impl FllMode {
    pub fn bits(self) -> (b: u8)
        ensures
            b == (if self == FllMode::Disabled { 0u8 } else { 1u8 }),
    {
        match self {
            FllMode::Disabled => 0,
            FllMode::Enabled => 1,
        }
    }
}

/// HOCO frequency.
#[derive(Copy, Clone, Debug, PartialEq, Eq, Structural)]
pub enum HocoHz {
    F16MHz,
    F18MHz,
    F20MHz,
}

impl HocoHz {
    pub open spec fn spec_hz(self) -> u32 {
        match self {
            HocoHz::F16MHz => 16_000_000,
            HocoHz::F18MHz => 18_000_000,
            HocoHz::F20MHz => 20_000_000,
        }
    }

    pub fn hz(self) -> (r: u32)
        ensures
            r == self.spec_hz(),
    {
        match self {
            HocoHz::F16MHz => 16_000_000,
            HocoHz::F18MHz => 18_000_000,
            HocoHz::F20MHz => 20_000_000,
        }
    }

    fn bits(self) -> (b: u8)
        ensures
            b == (match self {
                HocoHz::F16MHz => 0b00u8,
                HocoHz::F18MHz => 0b01u8,
                HocoHz::F20MHz => 0b10u8,
            }),
    {
        match self {
            HocoHz::F16MHz => 0b00,
            HocoHz::F18MHz => 0b01,
            HocoHz::F20MHz => 0b10,
        }
    }

    fn fll_cntl(self) -> (r: u16)
        ensures
            r == (match self {
                HocoHz::F16MHz => 0x1e9u16,
                HocoHz::F18MHz => 0x226u16,
                HocoHz::F20MHz => 0x263u16,
            }),
    {
        match self {
            HocoHz::F16MHz => 0x1e9,
            HocoHz::F18MHz => 0x226,
            HocoHz::F20MHz => 0x263,
        }
    }
}

/// FLL setting of HOCO.
#[derive(Copy, Clone, Debug, PartialEq, Eq, Structural)]
pub struct HocoFll {
    /// FLL enable
    pub enable: bool,
    /// Details
    pub mult: FllCntlSel,
}

/// Setting of FLLCR2.FLLCNTL: the default for the frequency, or a raw value.
#[derive(Copy, Clone, Debug, PartialEq, Eq, Structural)]
pub enum FllCntlSel {
    Pac,
    Raw(u32),
}

/// The seven system clock dividers and the external bus clock divider.
#[derive(Copy, Clone, Debug)]
pub struct SysDiv {
    /// source / ick
    pub ick: Div2Pow,
    /// ICLK / pcka
    pub pcka: Div2Pow,
    /// ICLK / pckb
    pub pckb: Div2Pow,
    /// ICLK / pckc
    pub pckc: Div2Pow,
    /// ICLK / pckd
    pub pckd: Div2Pow,
    /// ICLK / fck
    pub fck: Div2Pow,
    /// ICLK / bck
    pub bck: Div2Pow,
    /// EBCLK
    pub ebck: Div2Pow,
}

/// The dividers for the fastest system clock, 200 MHz: ICLK undivided, PCLKA,
/// PCLKD, BCLK and EBCLK by 2, PCLKB, PCLKC and FCLK by 4.
pub open spec fn spec_highest_freq_divs(d: SysDiv) -> bool {
    &&& d.ick == Div2Pow::Div1
    &&& d.pcka == Div2Pow::Div2
    &&& d.pckb == Div2Pow::Div4
    &&& d.pckc == Div2Pow::Div4
    &&& d.pckd == Div2Pow::Div2
    &&& d.fck == Div2Pow::Div4
    &&& d.bck == Div2Pow::Div2
    &&& d.ebck == Div2Pow::Div2
}

impl SysDiv {
    fn highest_freq_200mhz() -> (d: Self)
        ensures
            spec_highest_freq_divs(d),
    {
        SysDiv {
            ick: Div2Pow::Div1,
            pcka: Div2Pow::Div2,
            pckb: Div2Pow::Div4,
            pckc: Div2Pow::Div4,
            pckd: Div2Pow::Div2,
            fck: Div2Pow::Div4,
            bck: Div2Pow::Div2,
            ebck: Div2Pow::Div2,
        }
    }
}

impl Default for SysDiv {
    /// The dividers for the fastest system clock.
    fn default() -> (d: Self)
        ensures
            spec_highest_freq_divs(d),
    {
        SysDiv {
            ick: Div2Pow::Div1,
            pcka: Div2Pow::Div2,
            pckb: Div2Pow::Div4,
            pckc: Div2Pow::Div4,
            pckd: Div2Pow::Div2,
            fck: Div2Pow::Div4,
            bck: Div2Pow::Div2,
            ebck: Div2Pow::Div2,
        }
    }
}

/// External bus clock output divider.
#[derive(Copy, Clone, Debug)]
pub enum EbclkDiv {
    Div1,
    Div2,
    Div4,
    Div8,
    Div16,
}

impl EbclkDiv {
    pub open spec fn spec_raw(self) -> u32 {
        match self {
            EbclkDiv::Div1 => 0,
            EbclkDiv::Div2 => 1,
            EbclkDiv::Div4 => 2,
            EbclkDiv::Div8 => 3,
            EbclkDiv::Div16 => 4,
        }
    }

    /// The division ratio: 2 to the power of the field code.
    pub fn ratio(self) -> (r: u32)
        ensures
            r == 1u32 << self.spec_raw(),
    {
        assert(1u32 << 0u32 == 1 && 1u32 << 1u32 == 2 && 1u32 << 2u32 == 4 && 1u32 << 3u32 == 8
            && 1u32 << 4u32 == 16) by (bit_vector);
        match self {
            EbclkDiv::Div1 => 1,
            EbclkDiv::Div2 => 2,
            EbclkDiv::Div4 => 4,
            EbclkDiv::Div8 => 8,
            EbclkDiv::Div16 => 16,
        }
    }

    pub fn raw(self) -> (r: u32)
        ensures
            r == self.spec_raw(),
    {
        match self {
            EbclkDiv::Div1 => 0,
            EbclkDiv::Div2 => 1,
            EbclkDiv::Div4 => 2,
            EbclkDiv::Div8 => 3,
            EbclkDiv::Div16 => 4,
        }
    }
}

/// External bus clock output setting.
#[derive(Copy, Clone, Debug)]
pub struct EbckoCfg {
    pub enable: bool,
    pub div: EbclkDiv,
}

/// Extra limits on the bus clocks in high-speed mode.
#[derive(Copy, Clone, Debug, Default)]
pub struct Limits {
    pub bclk_hs_max_hz: Option<u32>,
    pub ebclk_hs_max_hz: Option<u32>,
}

/// A requested clock plan.
#[derive(Copy, Clone, Debug)]
pub struct Config {
    pub mode: Mode,
    pub source: Source,
    pub divs: SysDiv,
    pub limits: Limits,
    pub ebcko: Option<EbckoCfg>,
    pub use_adc: bool,
}

/// A computed clock plan: frequencies and register codes.
#[derive(Debug)]
pub struct Realized {
    pub mode: Mode,
    pub source: Source,
    pub src_hz: u32,
    pub f_pll_hz: Option<u32>,
    pub iclk_hz: u32,
    pub fclk_hz: u32,
    pub bclk_hz: u32,
    pub ebclk_hz: u32,
    pub pcka_hz: u32,
    pub pckb_hz: u32,
    pub pckc_hz: u32,
    pub pckd_hz: u32,
    pub cksel_bits: u8,
    pub ick_bits: u8,
    pub fck_bits: u8,
    pub bck_bits: u8,
    pub pcka_bits: u8,
    pub pckb_bits: u8,
    pub pckc_bits: u8,
    pub pckd_bits: u8,
    pub ebck_bits: u8,
    pub plidiv_bits: Option<u8>,
    pub pllmul_bits: Option<u8>,
}

/// Why a clock plan is refused.
#[derive(Debug)]
pub enum Error {
    MainOutOfRange,
    IllegalCombo(&'static str),
    PllOutOfRange(u32),
    ClockTooHigh(&'static str, u32),
    ClockTooLow(&'static str, u32),
}

/// Nothing needs the main oscillator to be checked here.
fn require_main_on() -> (r: Result<(), Error>)
    ensures
        r is Ok,
{
    Ok(())
}

/// The PLLMUL code of an integer multiplication factor: one less, never below 0.
fn pllmul_to_bits(mul: u8) -> (b: u8)
    ensures
        b == (if mul == 0 { 0 } else { mul - 1 }),
{
    mul.saturating_sub(1)
}

} // verus!
