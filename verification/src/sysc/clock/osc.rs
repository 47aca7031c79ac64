//! The oscillators (MOSC, SOSC, HOCO, MOCO, LOCO) and the PLLs.
use vstd::prelude::*;

use crate::RegisterError;
use crate::rtc::{Rtc, RtcRegs};
use crate::sysc::{prc0, HocoRegs, LocoRegs, MocoRegs, MoscRegs, PllRegs, SoscRegs, SyscRegs};
use super::{PLL_HZ_MAX, PLL_HZ_MIN, MOSC_HZ_MAX, MOSC_HZ_MIN};

verus! {

/// The value that a user trimming register holds for a signed trimming value:
/// its two's complement byte.
pub open spec fn spec_trim_bits(trimming: i8) -> u8 {
    if trimming >= 0 { trimming as u8 } else { (trimming as int + 256) as u8 }
}

/// The signed trimming value that a user trimming register byte stands for.
pub open spec fn spec_trim_value(bits: u8) -> i8 {
    if bits < 128 { bits as i8 } else { (bits as int - 256) as i8 }
}

/// Reads a user trimming register as a signed value.
fn trim_value(bits: u8) -> (t: i8)
    ensures
        t == spec_trim_value(bits),
{
    let wide: i16 = bits as i16 - 128 - 0x80;
    let byte: u8 = wide as u8;
    assert(byte == bits) by (bit_vector)
        requires wide == bits as i16 - 256i16, byte == wide as u8;
    let t: i8 = byte as i8;
    assert(t == spec_trim_value(bits)) by (bit_vector)
        requires byte == bits, t == byte as i8;
    t
}

/// The byte that a user trimming register is written with for a signed value.
fn trim_bits(trimming: i8) -> (b: u8)
    ensures
        b == spec_trim_bits(trimming),
{
    let wide: i16 = trimming as i16 + 128 + 0x80;
    let b: u8 = wide as u8;
    assert(b == spec_trim_bits(trimming)) by (bit_vector)
        requires wide == trimming as i16 + 256i16, b == wide as u8;
    b
}

/// A user trimming value written to an oscillator reads back unchanged.
pub proof fn lemma_trimming_reads_back(trimming: i8)
    ensures
        spec_trim_value(spec_trim_bits(trimming)) == trimming,
{
}

// ---------------------------------------------------------------- PLL

/// PLL input frequency division ratio (PLLCCR.PLIDIV).
#[derive(Copy, Clone, Debug, PartialEq, Eq, Structural)]
pub enum PliDiv {
    Div1,
    Div2,
    Div3,
}

impl PliDiv {
    pub open spec fn spec_bits(self) -> u8 {
        match self {
            PliDiv::Div1 => 0b00,
            PliDiv::Div2 => 0b01,
            PliDiv::Div3 => 0b10,
        }
    }

    pub open spec fn spec_value(self) -> u32 {
        match self {
            PliDiv::Div1 => 1,
            PliDiv::Div2 => 2,
            PliDiv::Div3 => 3,
        }
    }

    pub fn bits(self) -> (b: u8)
        ensures
            b == self.spec_bits(),
    {
        match self {
            PliDiv::Div1 => 0b00,
            PliDiv::Div2 => 0b01,
            PliDiv::Div3 => 0b10,
        }
    }

    pub fn value(self) -> (v: u32)
        ensures
            v == self.spec_value(),
    {
        match self {
            PliDiv::Div1 => 1,
            PliDiv::Div2 => 2,
            PliDiv::Div3 => 3,
        }
    }

    pub open spec fn spec_from_u8(value: u8) -> Option<PliDiv> {
        if value == 0b00 {
            Some(PliDiv::Div1)
        } else if value == 0b01 {
            Some(PliDiv::Div2)
        } else if value == 0b10 {
            Some(PliDiv::Div3)
        } else {
            None
        }
    }

    fn from_u8(value: u8) -> (r: Option<Self>)
        ensures
            r == Self::spec_from_u8(value),
    {
        match value {
            0b00 => Some(PliDiv::Div1),
            0b01 => Some(PliDiv::Div2),
            0b10 => Some(PliDiv::Div3),
            _ => None,
        }
    }
}

/// PLL frequency multiplication factor, from 10.0 to 30.0 in steps of 0.5 (PLLCCR.PLLMUL).
#[derive(Copy, Clone, Debug, PartialEq, Eq, Structural)]
pub enum PllMul {
    Mul10_0,
    Mul10_5,
    Mul11_0,
    Mul11_5,
    Mul12_0,
    Mul12_5,
    Mul13_0,
    Mul13_5,
    Mul14_0,
    Mul14_5,
    Mul15_0,
    Mul15_5,
    Mul16_0,
    Mul16_5,
    Mul17_0,
    Mul17_5,
    Mul18_0,
    Mul18_5,
    Mul19_0,
    Mul19_5,
    Mul20_0,
    Mul20_5,
    Mul21_0,
    Mul21_5,
    Mul22_0,
    Mul22_5,
    Mul23_0,
    Mul23_5,
    Mul24_0,
    Mul24_5,
    Mul25_0,
    Mul25_5,
    Mul26_0,
    Mul26_5,
    Mul27_0,
    Mul27_5,
    Mul28_0,
    Mul28_5,
    Mul29_0,
    Mul29_5,
    Mul30_0,
}

impl PllMul {
    pub open spec fn spec_bits(self) -> u8 {
        match self {
            PllMul::Mul10_0 => 0x13,
            PllMul::Mul10_5 => 0x14,
            PllMul::Mul11_0 => 0x15,
            PllMul::Mul11_5 => 0x16,
            PllMul::Mul12_0 => 0x17,
            PllMul::Mul12_5 => 0x18,
            PllMul::Mul13_0 => 0x19,
            PllMul::Mul13_5 => 0x1a,
            PllMul::Mul14_0 => 0x1b,
            PllMul::Mul14_5 => 0x1c,
            PllMul::Mul15_0 => 0x1d,
            PllMul::Mul15_5 => 0x1e,
            PllMul::Mul16_0 => 0x1f,
            PllMul::Mul16_5 => 0x20,
            PllMul::Mul17_0 => 0x21,
            PllMul::Mul17_5 => 0x22,
            PllMul::Mul18_0 => 0x23,
            PllMul::Mul18_5 => 0x24,
            PllMul::Mul19_0 => 0x25,
            PllMul::Mul19_5 => 0x26,
            PllMul::Mul20_0 => 0x27,
            PllMul::Mul20_5 => 0x28,
            PllMul::Mul21_0 => 0x29,
            PllMul::Mul21_5 => 0x2a,
            PllMul::Mul22_0 => 0x2b,
            PllMul::Mul22_5 => 0x2c,
            PllMul::Mul23_0 => 0x2d,
            PllMul::Mul23_5 => 0x2e,
            PllMul::Mul24_0 => 0x2f,
            PllMul::Mul24_5 => 0x30,
            PllMul::Mul25_0 => 0x31,
            PllMul::Mul25_5 => 0x32,
            PllMul::Mul26_0 => 0x33,
            PllMul::Mul26_5 => 0x34,
            PllMul::Mul27_0 => 0x35,
            PllMul::Mul27_5 => 0x36,
            PllMul::Mul28_0 => 0x37,
            PllMul::Mul28_5 => 0x38,
            PllMul::Mul29_0 => 0x39,
            PllMul::Mul29_5 => 0x3a,
            PllMul::Mul30_0 => 0x3b,
        }
    }

    pub fn bits(self) -> (b: u8)
        ensures
            b == self.spec_bits(),
    {
        match self {
            PllMul::Mul10_0 => 0x13,
            PllMul::Mul10_5 => 0x14,
            PllMul::Mul11_0 => 0x15,
            PllMul::Mul11_5 => 0x16,
            PllMul::Mul12_0 => 0x17,
            PllMul::Mul12_5 => 0x18,
            PllMul::Mul13_0 => 0x19,
            PllMul::Mul13_5 => 0x1a,
            PllMul::Mul14_0 => 0x1b,
            PllMul::Mul14_5 => 0x1c,
            PllMul::Mul15_0 => 0x1d,
            PllMul::Mul15_5 => 0x1e,
            PllMul::Mul16_0 => 0x1f,
            PllMul::Mul16_5 => 0x20,
            PllMul::Mul17_0 => 0x21,
            PllMul::Mul17_5 => 0x22,
            PllMul::Mul18_0 => 0x23,
            PllMul::Mul18_5 => 0x24,
            PllMul::Mul19_0 => 0x25,
            PllMul::Mul19_5 => 0x26,
            PllMul::Mul20_0 => 0x27,
            PllMul::Mul20_5 => 0x28,
            PllMul::Mul21_0 => 0x29,
            PllMul::Mul21_5 => 0x2a,
            PllMul::Mul22_0 => 0x2b,
            PllMul::Mul22_5 => 0x2c,
            PllMul::Mul23_0 => 0x2d,
            PllMul::Mul23_5 => 0x2e,
            PllMul::Mul24_0 => 0x2f,
            PllMul::Mul24_5 => 0x30,
            PllMul::Mul25_0 => 0x31,
            PllMul::Mul25_5 => 0x32,
            PllMul::Mul26_0 => 0x33,
            PllMul::Mul26_5 => 0x34,
            PllMul::Mul27_0 => 0x35,
            PllMul::Mul27_5 => 0x36,
            PllMul::Mul28_0 => 0x37,
            PllMul::Mul28_5 => 0x38,
            PllMul::Mul29_0 => 0x39,
            PllMul::Mul29_5 => 0x3a,
            PllMul::Mul30_0 => 0x3b,
        }
    }

    pub open spec fn spec_from_u8(value: u8) -> Option<PllMul> {
        if value == 0x13 { Some(PllMul::Mul10_0) }
        else if value == 0x14 { Some(PllMul::Mul10_5) }
        else if value == 0x15 { Some(PllMul::Mul11_0) }
        else if value == 0x16 { Some(PllMul::Mul11_5) }
        else if value == 0x17 { Some(PllMul::Mul12_0) }
        else if value == 0x18 { Some(PllMul::Mul12_5) }
        else if value == 0x19 { Some(PllMul::Mul13_0) }
        else if value == 0x1a { Some(PllMul::Mul13_5) }
        else if value == 0x1b { Some(PllMul::Mul14_0) }
        else if value == 0x1c { Some(PllMul::Mul14_5) }
        else if value == 0x1d { Some(PllMul::Mul15_0) }
        else if value == 0x1e { Some(PllMul::Mul15_5) }
        else if value == 0x1f { Some(PllMul::Mul16_0) }
        else if value == 0x20 { Some(PllMul::Mul16_5) }
        else if value == 0x21 { Some(PllMul::Mul17_0) }
        else if value == 0x22 { Some(PllMul::Mul17_5) }
        else if value == 0x23 { Some(PllMul::Mul18_0) }
        else if value == 0x24 { Some(PllMul::Mul18_5) }
        else if value == 0x25 { Some(PllMul::Mul19_0) }
        else if value == 0x26 { Some(PllMul::Mul19_5) }
        else if value == 0x27 { Some(PllMul::Mul20_0) }
        else if value == 0x28 { Some(PllMul::Mul20_5) }
        else if value == 0x29 { Some(PllMul::Mul21_0) }
        else if value == 0x2a { Some(PllMul::Mul21_5) }
        else if value == 0x2b { Some(PllMul::Mul22_0) }
        else if value == 0x2c { Some(PllMul::Mul22_5) }
        else if value == 0x2d { Some(PllMul::Mul23_0) }
        else if value == 0x2e { Some(PllMul::Mul23_5) }
        else if value == 0x2f { Some(PllMul::Mul24_0) }
        else if value == 0x30 { Some(PllMul::Mul24_5) }
        else if value == 0x31 { Some(PllMul::Mul25_0) }
        else if value == 0x32 { Some(PllMul::Mul25_5) }
        else if value == 0x33 { Some(PllMul::Mul26_0) }
        else if value == 0x34 { Some(PllMul::Mul26_5) }
        else if value == 0x35 { Some(PllMul::Mul27_0) }
        else if value == 0x36 { Some(PllMul::Mul27_5) }
        else if value == 0x37 { Some(PllMul::Mul28_0) }
        else if value == 0x38 { Some(PllMul::Mul28_5) }
        else if value == 0x39 { Some(PllMul::Mul29_0) }
        else if value == 0x3a { Some(PllMul::Mul29_5) }
        else if value == 0x3b { Some(PllMul::Mul30_0) }
        else { None }
    }

    fn from_u8(value: u8) -> (r: Option<Self>)
        ensures
            r == Self::spec_from_u8(value),
    {
        match value {
            0x13 => Some(PllMul::Mul10_0),
            0x14 => Some(PllMul::Mul10_5),
            0x15 => Some(PllMul::Mul11_0),
            0x16 => Some(PllMul::Mul11_5),
            0x17 => Some(PllMul::Mul12_0),
            0x18 => Some(PllMul::Mul12_5),
            0x19 => Some(PllMul::Mul13_0),
            0x1a => Some(PllMul::Mul13_5),
            0x1b => Some(PllMul::Mul14_0),
            0x1c => Some(PllMul::Mul14_5),
            0x1d => Some(PllMul::Mul15_0),
            0x1e => Some(PllMul::Mul15_5),
            0x1f => Some(PllMul::Mul16_0),
            0x20 => Some(PllMul::Mul16_5),
            0x21 => Some(PllMul::Mul17_0),
            0x22 => Some(PllMul::Mul17_5),
            0x23 => Some(PllMul::Mul18_0),
            0x24 => Some(PllMul::Mul18_5),
            0x25 => Some(PllMul::Mul19_0),
            0x26 => Some(PllMul::Mul19_5),
            0x27 => Some(PllMul::Mul20_0),
            0x28 => Some(PllMul::Mul20_5),
            0x29 => Some(PllMul::Mul21_0),
            0x2a => Some(PllMul::Mul21_5),
            0x2b => Some(PllMul::Mul22_0),
            0x2c => Some(PllMul::Mul22_5),
            0x2d => Some(PllMul::Mul23_0),
            0x2e => Some(PllMul::Mul23_5),
            0x2f => Some(PllMul::Mul24_0),
            0x30 => Some(PllMul::Mul24_5),
            0x31 => Some(PllMul::Mul25_0),
            0x32 => Some(PllMul::Mul25_5),
            0x33 => Some(PllMul::Mul26_0),
            0x34 => Some(PllMul::Mul26_5),
            0x35 => Some(PllMul::Mul27_0),
            0x36 => Some(PllMul::Mul27_5),
            0x37 => Some(PllMul::Mul28_0),
            0x38 => Some(PllMul::Mul28_5),
            0x39 => Some(PllMul::Mul29_0),
            0x3a => Some(PllMul::Mul29_5),
            0x3b => Some(PllMul::Mul30_0),
            _ => None,
        }
    }
}

/// PLL clock source (PLLCCR.PLSRCSEL).
#[derive(Copy, Clone, Debug, PartialEq, Eq, Structural)]
pub enum PllSource {
    Mosc,
    Hoco,
}

impl PllSource {
    pub open spec fn spec_bits(self) -> u8 {
        match self {
            PllSource::Mosc => 0,
            PllSource::Hoco => 1,
        }
    }

    pub fn bits(self) -> (b: u8)
        ensures
            b == self.spec_bits(),
    {
        match self {
            PllSource::Mosc => 0,
            PllSource::Hoco => 1,
        }
    }

    pub open spec fn spec_from_u8(value: u8) -> Option<PllSource> {
        if value == 0 {
            Some(PllSource::Mosc)
        } else if value == 1 {
            Some(PllSource::Hoco)
        } else {
            None
        }
    }

    fn from_u8(value: u8) -> (r: Option<Self>)
        ensures
            r == Self::spec_from_u8(value),
    {
        match value {
            0 => Some(PllSource::Mosc),
            1 => Some(PllSource::Hoco),
            _ => None,
        }
    }
}

/// An oscillator that can feed a PLL.
pub trait PllSources {
    /// The frequency that the oscillator runs at, if it is known.
    spec fn spec_hz(&self, regs: SyscRegs) -> Option<u32>;

    spec fn spec_as_source(&self) -> PllSource;

    fn hz(&self, regs: &SyscRegs) -> (r: Option<u32>)
        ensures
            r == self.spec_hz(*regs);

    fn as_source(&self) -> (s: PllSource)
        ensures
            s == self.spec_as_source();
}

/// A checked PLL setting: source, input division, multiplication and the output
/// frequency that they give.
pub struct PllConfig {
    freq: u32,
    div: PliDiv,
    source: PllSource,
    mul: PllMul,
}

impl PllConfig {
    pub closed spec fn spec_freq(&self) -> u32 {
        self.freq
    }

    pub closed spec fn spec_div(&self) -> PliDiv {
        self.div
    }

    pub closed spec fn spec_source(&self) -> PllSource {
        self.source
    }

    pub closed spec fn spec_mul(&self) -> PllMul {
        self.mul
    }

    /// Checks a PLL setting. `freq_hz` is the output frequency, the source
    /// frequency times the multiplication factor divided by the input division, as
    /// the caller computed it; it must lie between 120 MHz and 240 MHz.
    pub fn new<T: PllSources>(source: &T, regs: &SyscRegs, div: PliDiv, mul: PllMul, freq_hz: u32) -> (r: Result<Self, RegisterError>)
        ensures
            source.spec_hz(*regs) is None ==> r == Err::<Self, RegisterError>(
                RegisterError::NotReadyToWrite("The oscillator frequency is not initialized.")),
            source.spec_hz(*regs) is Some && !(PLL_HZ_MIN <= freq_hz <= PLL_HZ_MAX) ==> r == Err::<Self, RegisterError>(
                RegisterError::InvalidValue("Frequency outside the range of PLL.")),
            r is Ok <==> source.spec_hz(*regs) is Some && PLL_HZ_MIN <= freq_hz <= PLL_HZ_MAX,
            r matches Ok(c) ==> c.spec_freq() == freq_hz && c.spec_div() == div && c.spec_mul() == mul
                && c.spec_source() == source.spec_as_source(),
    {
        if let Some(_base) = source.hz(regs) {
            if (freq_hz >= PLL_HZ_MIN) && (freq_hz <= PLL_HZ_MAX) {
                Ok(PllConfig { freq: freq_hz, div, source: source.as_source(), mul })
            } else {
                Err(RegisterError::InvalidValue("Frequency outside the range of PLL."))
            }
        } else {
            Err(RegisterError::NotReadyToWrite("The oscillator frequency is not initialized."))
        }
    }
}

/// PLL1 (PLLCR, PLLCCR).
pub struct Pll {
    freq: Option<u32>,
}

/// PLL1 runs: PLLCR.PLLSTP = 0 and OSCSF.PLLSF = 1.
pub open spec fn spec_pll_running(regs: SyscRegs) -> bool {
    !regs.pll.stp && regs.pll.sf
}

/// PLL1 is stopped: PLLCR.PLLSTP = 1 and OSCSF.PLLSF = 0.
pub open spec fn spec_pll_stopped(regs: SyscRegs) -> bool {
    regs.pll.stp && !regs.pll.sf
}

/// PLL2 runs: PLL2CR.PLL2STP = 0 and OSCSF.PLL2SF = 1.
pub open spec fn spec_pll2_running(regs: SyscRegs) -> bool {
    !regs.pll2.stp && regs.pll2.sf
}

/// PLL2 is stopped: PLL2CR.PLL2STP = 1 and OSCSF.PLL2SF = 0.
pub open spec fn spec_pll2_stopped(regs: SyscRegs) -> bool {
    regs.pll2.stp && !regs.pll2.sf
}

/// Why a PLL whose source selection is `src` cannot be started, if it cannot:
/// its source oscillator is stopped.
pub open spec fn spec_pll_source_blocked(regs: SyscRegs, src: u8) -> Option<RegisterError> {
    if src == 0 && regs.mosc.mostp {
        Some(RegisterError::NotReadyToWrite("MOSC (source) is not running."))
    } else if src == 1 && regs.hoco.hcstp {
        Some(RegisterError::NotReadyToWrite("HOCO (source) is not running."))
    } else {
        None
    }
}

impl Pll {
    pub(crate) fn new() -> (p: Pll)
        ensures
            p.spec_freq() is None,
    {
        Pll { freq: None }
    }

    /// The output frequency of the last setting stored, if any.
    pub closed spec fn spec_freq(&self) -> Option<u32> {
        self.freq
    }

    pub fn is_running(&self, regs: &SyscRegs) -> (r: bool)
        ensures
            r == spec_pll_running(*regs),
    {
        !regs.pll.stp && regs.pll.sf
    }

    pub fn is_stopped(&self, regs: &SyscRegs) -> (r: bool)
        ensures
            r == spec_pll_stopped(*regs),
    {
        regs.pll.stp && !regs.pll.sf
    }

    /// Starts the PLL when it is stopped and its source oscillator runs.
    pub fn run(&mut self, regs: &mut SyscRegs) -> (r: Result<(), RegisterError>)
        ensures
            *final(self) == *old(self),
            !spec_pll_stopped(*old(regs)) ==> r == Err::<(), RegisterError>(
                RegisterError::NotReadyToWrite("PLL is not stopped.")) && *final(regs) == *old(regs),
            spec_pll_stopped(*old(regs)) ==> match spec_pll_source_blocked(*old(regs), old(regs).pll.srcsel) {
                Some(e) => r == Err::<(), RegisterError>(e)
                    && *final(regs) == (SyscRegs { prcr: 0, ..*old(regs) }),
                None => r is Ok && *final(regs) == (SyscRegs { prcr: 0, pll: PllRegs { stp: false, ..old(regs).pll }, ..*old(regs) }),
            },
    {
        if !self.is_stopped(regs) {
            Err(RegisterError::NotReadyToWrite("PLL is not stopped."))
        } else {
            prc0(regs, true);
            let src = regs.pll.srcsel;
            let result = if src == 0 && regs.mosc.mostp {
                Err(RegisterError::NotReadyToWrite("MOSC (source) is not running."))
            } else if src == 1 && regs.hoco.hcstp {
                Err(RegisterError::NotReadyToWrite("HOCO (source) is not running."))
            } else {
                regs.pll.stp = false;
                Ok(())
            };
            prc0(regs, false);
            result
        }
    }

    /// Stops the PLL when it runs and does not clock the system.
    pub fn stop(&mut self, regs: &mut SyscRegs) -> (r: Result<(), RegisterError>)
        ensures
            *final(self) == *old(self),
            !spec_pll_running(*old(regs)) ==> r == Err::<(), RegisterError>(
                RegisterError::NotReadyToWrite("PLL is not running.")) && *final(regs) == *old(regs),
            spec_pll_running(*old(regs)) && old(regs).sck.cksel == 0b101 ==> r == Err::<(), RegisterError>(
                RegisterError::NotReadyToWrite("PLL is selected for system clock source."))
                && *final(regs) == (SyscRegs { prcr: 0, ..*old(regs) }),
            spec_pll_running(*old(regs)) && old(regs).sck.cksel != 0b101 ==> r is Ok
                && *final(regs) == (SyscRegs { prcr: 0, pll: PllRegs { stp: true, ..old(regs).pll }, ..*old(regs) }),
    {
        if !self.is_running(regs) {
            Err(RegisterError::NotReadyToWrite("PLL is not running."))
        } else {
            prc0(regs, true);
            let result = if regs.sck.cksel == 0b101 {
                Err(RegisterError::NotReadyToWrite("PLL is selected for system clock source."))
            } else {
                regs.pll.stp = true;
                Ok(())
            };
            prc0(regs, false);
            result
        }
    }

    pub fn is_stable(&self, regs: &SyscRegs) -> (r: bool)
        ensures
            r == regs.pll.sf,
    {
        regs.pll.sf
    }

    pub fn get_freq(&self) -> (r: Option<u32>)
        ensures
            r == self.spec_freq(),
    {
        self.freq
    }

    pub fn get_plidiv(&self, regs: &SyscRegs) -> (r: Option<PliDiv>)
        ensures
            r == PliDiv::spec_from_u8(regs.pll.idiv),
    {
        PliDiv::from_u8(regs.pll.idiv)
    }

    pub fn get_source(&self, regs: &SyscRegs) -> (r: Option<PllSource>)
        ensures
            r == PllSource::spec_from_u8(regs.pll.srcsel),
    {
        PllSource::from_u8(regs.pll.srcsel)
    }

    pub fn get_pllmul(&self, regs: &SyscRegs) -> (r: Option<PllMul>)
        ensures
            r == PllMul::spec_from_u8(regs.pll.mul),
    {
        PllMul::from_u8(regs.pll.mul)
    }

    /// Stores a PLL setting while the PLL is stopped, and remembers its frequency.
    pub fn set_config(&mut self, regs: &mut SyscRegs, cfg: &PllConfig) -> (r: Result<(), RegisterError>)
        ensures
            !spec_pll_stopped(*old(regs)) ==> r == Err::<(), RegisterError>(
                RegisterError::NotReadyToWrite("PLL is not stopped.")) && *final(regs) == *old(regs)
                && *final(self) == *old(self),
            spec_pll_stopped(*old(regs)) ==> r is Ok
                && *final(regs) == (SyscRegs {
                    prcr: 0,
                    pll: PllRegs {
                        idiv: cfg.spec_div().spec_bits(),
                        srcsel: cfg.spec_source().spec_bits(),
                        mul: cfg.spec_mul().spec_bits(),
                        ..old(regs).pll
                    },
                    ..*old(regs)
                })
                && final(self).spec_freq() == Some(cfg.spec_freq()),
    {
        if !self.is_stopped(regs) {
            Err(RegisterError::NotReadyToWrite("PLL is not stopped."))
        } else {
            prc0(regs, true);
            regs.pll.idiv = cfg.div.bits();
            regs.pll.srcsel = cfg.source.bits();
            regs.pll.mul = cfg.mul.bits();
            prc0(regs, false);
            self.freq = Some(cfg.freq);
            Ok(())
        }
    }
}

/// PLL2 (PLL2CR, PLL2CCR).
pub struct Pll2 {
    freq: Option<u32>,
}

impl Pll2 {
    pub(crate) fn new() -> (p: Pll2)
        ensures
            p.spec_freq() is None,
    {
        Pll2 { freq: None }
    }

    /// The output frequency of the last setting stored, if any.
    pub closed spec fn spec_freq(&self) -> Option<u32> {
        self.freq
    }

    pub fn is_running(&self, regs: &SyscRegs) -> (r: bool)
        ensures
            r == spec_pll2_running(*regs),
    {
        !regs.pll2.stp && regs.pll2.sf
    }

    pub fn is_stopped(&self, regs: &SyscRegs) -> (r: bool)
        ensures
            r == spec_pll2_stopped(*regs),
    {
        regs.pll2.stp && !regs.pll2.sf
    }

    /// Starts PLL2 when it is stopped and its source oscillator runs.
    pub fn run(&mut self, regs: &mut SyscRegs) -> (r: Result<(), RegisterError>)
        ensures
            *final(self) == *old(self),
            !spec_pll2_stopped(*old(regs)) ==> r == Err::<(), RegisterError>(
                RegisterError::NotReadyToWrite("PLL2 is not stopped.")) && *final(regs) == *old(regs),
            spec_pll2_stopped(*old(regs)) ==> match spec_pll_source_blocked(*old(regs), old(regs).pll2.srcsel) {
                Some(e) => r == Err::<(), RegisterError>(e)
                    && *final(regs) == (SyscRegs { prcr: 0, ..*old(regs) }),
                None => r is Ok && *final(regs) == (SyscRegs { prcr: 0, pll2: PllRegs { stp: false, ..old(regs).pll2 }, ..*old(regs) }),
            },
    {
        if !self.is_stopped(regs) {
            Err(RegisterError::NotReadyToWrite("PLL2 is not stopped."))
        } else {
            prc0(regs, true);
            let src = regs.pll2.srcsel;
            let result = if src == 0 && regs.mosc.mostp {
                Err(RegisterError::NotReadyToWrite("MOSC (source) is not running."))
            } else if src == 1 && regs.hoco.hcstp {
                Err(RegisterError::NotReadyToWrite("HOCO (source) is not running."))
            } else {
                regs.pll2.stp = false;
                Ok(())
            };
            prc0(regs, false);
            result
        }
    }

    /// Stops PLL2 when it runs. The write goes to PLLCR.PLLSTP, the stop bit of
    /// PLL1, as in the register sequence this driver issues.
    pub fn stop(&mut self, regs: &mut SyscRegs) -> (r: Result<(), RegisterError>)
        ensures
            *final(self) == *old(self),
            !spec_pll2_running(*old(regs)) ==> r == Err::<(), RegisterError>(
                RegisterError::NotReadyToWrite("PLL2 is not running.")) && *final(regs) == *old(regs),
            spec_pll2_running(*old(regs)) ==> r is Ok
                && *final(regs) == (SyscRegs { prcr: 0, pll: PllRegs { stp: true, ..old(regs).pll }, ..*old(regs) }),
    {
        if !self.is_running(regs) {
            Err(RegisterError::NotReadyToWrite("PLL2 is not running."))
        } else {
            prc0(regs, true);
            regs.pll.stp = true;
            prc0(regs, false);
            Ok(())
        }
    }

    pub fn is_stable(&self, regs: &SyscRegs) -> (r: bool)
        ensures
            r == regs.pll2.sf,
    {
        regs.pll2.sf
    }

    pub fn get_freq(&self) -> (r: Option<u32>)
        ensures
            r == self.spec_freq(),
    {
        self.freq
    }

    pub fn get_plidiv(&self, regs: &SyscRegs) -> (r: Option<PliDiv>)
        ensures
            r == PliDiv::spec_from_u8(regs.pll2.idiv),
    {
        PliDiv::from_u8(regs.pll2.idiv)
    }

    pub fn get_source(&self, regs: &SyscRegs) -> (r: Option<PllSource>)
        ensures
            r == PllSource::spec_from_u8(regs.pll2.srcsel),
    {
        PllSource::from_u8(regs.pll2.srcsel)
    }

    pub fn get_pllmul(&self, regs: &SyscRegs) -> (r: Option<PllMul>)
        ensures
            r == PllMul::spec_from_u8(regs.pll2.mul),
    {
        PllMul::from_u8(regs.pll2.mul)
    }

    /// Stores a PLL2 setting while PLL2 is stopped, and remembers its frequency.
    pub fn set_config(&mut self, regs: &mut SyscRegs, cfg: &PllConfig) -> (r: Result<(), RegisterError>)
        ensures
            !spec_pll2_stopped(*old(regs)) ==> r == Err::<(), RegisterError>(
                RegisterError::NotReadyToWrite("PLL2 is not stopped.")) && *final(regs) == *old(regs)
                && *final(self) == *old(self),
            spec_pll2_stopped(*old(regs)) ==> r is Ok
                && *final(regs) == (SyscRegs {
                    prcr: 0,
                    pll2: PllRegs {
                        idiv: cfg.spec_div().spec_bits(),
                        srcsel: cfg.spec_source().spec_bits(),
                        mul: cfg.spec_mul().spec_bits(),
                        ..old(regs).pll2
                    },
                    ..*old(regs)
                })
                && final(self).spec_freq() == Some(cfg.spec_freq()),
    {
        if !self.is_stopped(regs) {
            Err(RegisterError::NotReadyToWrite("PLL2 is not stopped."))
        } else {
            prc0(regs, true);
            regs.pll2.idiv = cfg.div.bits();
            regs.pll2.srcsel = cfg.source.bits();
            regs.pll2.mul = cfg.mul.bits();
            prc0(regs, false);
            self.freq = Some(cfg.freq);
            Ok(())
        }
    }
}


// ---------------------------------------------------------------- MOSC

/// MOSC frequency range (MOMCR.MODRV).
#[derive(Copy, Clone, Debug, PartialEq, Eq, Structural)]
pub enum MoscFreqRange {
    F20_24MHz,
    F16_20MHz,
    F8_16MHz,
    F8MHz,
}

impl MoscFreqRange {
    pub open spec fn spec_bits(self) -> u8 {
        match self {
            MoscFreqRange::F20_24MHz => 0b00,
            MoscFreqRange::F16_20MHz => 0b01,
            MoscFreqRange::F8_16MHz => 0b10,
            MoscFreqRange::F8MHz => 0b11,
        }
    }

    pub fn bits(self) -> (b: u8)
        ensures
            b == self.spec_bits(),
    {
        match self {
            MoscFreqRange::F20_24MHz => 0b00,
            MoscFreqRange::F16_20MHz => 0b01,
            MoscFreqRange::F8_16MHz => 0b10,
            MoscFreqRange::F8MHz => 0b11,
        }
    }

    pub open spec fn spec_from_u8(value: u8) -> Option<MoscFreqRange> {
        if value == 0b00 {
            Some(MoscFreqRange::F20_24MHz)
        } else if value == 0b01 {
            Some(MoscFreqRange::F16_20MHz)
        } else if value == 0b10 {
            Some(MoscFreqRange::F8_16MHz)
        } else if value == 0b11 {
            Some(MoscFreqRange::F8MHz)
        } else {
            None
        }
    }

    pub fn from_u8(value: u8) -> (r: Option<Self>)
        ensures
            r == Self::spec_from_u8(value),
    {
        match value {
            0b00 => Some(MoscFreqRange::F20_24MHz),
            0b01 => Some(MoscFreqRange::F16_20MHz),
            0b10 => Some(MoscFreqRange::F8_16MHz),
            0b11 => Some(MoscFreqRange::F8MHz),
            _ => None,
        }
    }

    /// The range that a crystal frequency falls into; none outside 8..=24 MHz.
    /// Exactly 8 MHz has a range of its own.
    pub open spec fn spec_from_freq(freq: u32) -> Option<MoscFreqRange> {
        if freq < MOSC_HZ_MIN || freq > MOSC_HZ_MAX {
            None
        } else if freq == MOSC_HZ_MIN {
            Some(MoscFreqRange::F8MHz)
        } else if freq <= 16_000_000 {
            Some(MoscFreqRange::F8_16MHz)
        } else if freq <= 20_000_000 {
            Some(MoscFreqRange::F16_20MHz)
        } else {
            Some(MoscFreqRange::F20_24MHz)
        }
    }

    pub fn from_freq(freq: u32) -> (r: Option<Self>)
        ensures
            r == Self::spec_from_freq(freq),
    {
        if (freq < MOSC_HZ_MIN) || (freq > MOSC_HZ_MAX) {
            None
        } else if freq == MOSC_HZ_MIN {
            Some(MoscFreqRange::F8MHz)
        } else if freq <= 16_000_000 {
            Some(MoscFreqRange::F8_16MHz)
        } else if freq <= 20_000_000 {
            Some(MoscFreqRange::F16_20MHz)
        } else {
            Some(MoscFreqRange::F20_24MHz)
        }
    }
}

/// What drives MOSC (MOMCR.MOSEL): a resonator or an external clock.
#[derive(Copy, Clone, Debug, PartialEq, Eq, Structural)]
pub enum MoscSource {
    Oscillator,
    ExternalClock,
}

impl MoscSource {
    pub open spec fn spec_bits(self) -> u8 {
        match self {
            MoscSource::Oscillator => 0,
            MoscSource::ExternalClock => 1,
        }
    }

    pub fn bits(self) -> (b: u8)
        ensures
            b == self.spec_bits(),
    {
        match self {
            MoscSource::Oscillator => 0,
            MoscSource::ExternalClock => 1,
        }
    }

    pub open spec fn spec_from_u8(value: u8) -> Option<MoscSource> {
        if value == 0 {
            Some(MoscSource::Oscillator)
        } else if value == 1 {
            Some(MoscSource::ExternalClock)
        } else {
            None
        }
    }

    pub fn from_u8(value: u8) -> (r: Option<Self>)
        ensures
            r == Self::spec_from_u8(value),
    {
        match value {
            0 => Some(MoscSource::Oscillator),
            1 => Some(MoscSource::ExternalClock),
            _ => None,
        }
    }
}

/// MOSC wait time for stabilization, in cycles of the wait clock (MOSCWTCR.MSTS).
#[derive(Copy, Clone, Debug, PartialEq, Eq, Structural)]
pub enum MoscStabilizationTime {
    Cycle3,
    Cycle35,
    Cycle67,
    Cycle131,
    Cycle259,
    Cycle547,
    Cycle1059,
    Cycle2147,
    Cycle4291,
    Cycle8163,
}

impl MoscStabilizationTime {
    pub open spec fn spec_bits(self) -> u8 {
        match self {
            MoscStabilizationTime::Cycle3 => 0x0,
            MoscStabilizationTime::Cycle35 => 0x1,
            MoscStabilizationTime::Cycle67 => 0x2,
            MoscStabilizationTime::Cycle131 => 0x3,
            MoscStabilizationTime::Cycle259 => 0x4,
            MoscStabilizationTime::Cycle547 => 0x5,
            MoscStabilizationTime::Cycle1059 => 0x6,
            MoscStabilizationTime::Cycle2147 => 0x7,
            MoscStabilizationTime::Cycle4291 => 0x8,
            MoscStabilizationTime::Cycle8163 => 0x9,
        }
    }

    pub open spec fn spec_cycle(self) -> u32 {
        match self {
            MoscStabilizationTime::Cycle3 => 3,
            MoscStabilizationTime::Cycle35 => 35,
            MoscStabilizationTime::Cycle67 => 67,
            MoscStabilizationTime::Cycle131 => 131,
            MoscStabilizationTime::Cycle259 => 259,
            MoscStabilizationTime::Cycle547 => 547,
            MoscStabilizationTime::Cycle1059 => 1059,
            MoscStabilizationTime::Cycle2147 => 2147,
            MoscStabilizationTime::Cycle4291 => 4291,
            MoscStabilizationTime::Cycle8163 => 8163,
        }
    }

    pub fn bits(self) -> (b: u8)
        ensures
            b == self.spec_bits(),
    {
        match self {
            MoscStabilizationTime::Cycle3 => 0x0,
            MoscStabilizationTime::Cycle35 => 0x1,
            MoscStabilizationTime::Cycle67 => 0x2,
            MoscStabilizationTime::Cycle131 => 0x3,
            MoscStabilizationTime::Cycle259 => 0x4,
            MoscStabilizationTime::Cycle547 => 0x5,
            MoscStabilizationTime::Cycle1059 => 0x6,
            MoscStabilizationTime::Cycle2147 => 0x7,
            MoscStabilizationTime::Cycle4291 => 0x8,
            MoscStabilizationTime::Cycle8163 => 0x9,
        }
    }

    pub fn cycle(self) -> (c: u32)
        ensures
            c == self.spec_cycle(),
    {
        match self {
            MoscStabilizationTime::Cycle3 => 3,
            MoscStabilizationTime::Cycle35 => 35,
            MoscStabilizationTime::Cycle67 => 67,
            MoscStabilizationTime::Cycle131 => 131,
            MoscStabilizationTime::Cycle259 => 259,
            MoscStabilizationTime::Cycle547 => 547,
            MoscStabilizationTime::Cycle1059 => 1059,
            MoscStabilizationTime::Cycle2147 => 2147,
            MoscStabilizationTime::Cycle4291 => 4291,
            MoscStabilizationTime::Cycle8163 => 8163,
        }
    }

    pub open spec fn spec_from_u8(value: u8) -> Option<MoscStabilizationTime> {
        if value == 0x0 {
            Some(MoscStabilizationTime::Cycle3)
        } else if value == 0x1 {
            Some(MoscStabilizationTime::Cycle35)
        } else if value == 0x2 {
            Some(MoscStabilizationTime::Cycle67)
        } else if value == 0x3 {
            Some(MoscStabilizationTime::Cycle131)
        } else if value == 0x4 {
            Some(MoscStabilizationTime::Cycle259)
        } else if value == 0x5 {
            Some(MoscStabilizationTime::Cycle547)
        } else if value == 0x6 {
            Some(MoscStabilizationTime::Cycle1059)
        } else if value == 0x7 {
            Some(MoscStabilizationTime::Cycle2147)
        } else if value == 0x8 {
            Some(MoscStabilizationTime::Cycle4291)
        } else if value == 0x9 {
            Some(MoscStabilizationTime::Cycle8163)
        } else {
            None
        }
    }

    pub fn from_u8(value: u8) -> (r: Option<Self>)
        ensures
            r == Self::spec_from_u8(value),
    {
        match value {
            0x0 => Some(MoscStabilizationTime::Cycle3),
            0x1 => Some(MoscStabilizationTime::Cycle35),
            0x2 => Some(MoscStabilizationTime::Cycle67),
            0x3 => Some(MoscStabilizationTime::Cycle131),
            0x4 => Some(MoscStabilizationTime::Cycle259),
            0x5 => Some(MoscStabilizationTime::Cycle547),
            0x6 => Some(MoscStabilizationTime::Cycle1059),
            0x7 => Some(MoscStabilizationTime::Cycle2147),
            0x8 => Some(MoscStabilizationTime::Cycle4291),
            0x9 => Some(MoscStabilizationTime::Cycle8163),
            _ => None,
        }
    }
}

/// A checked MOSC setting: the crystal frequency, its range and what drives MOSC.
pub struct MoscConfig {
    freq: u32,
    freq_range: MoscFreqRange,
    source: MoscSource,
}

impl MoscConfig {
    pub closed spec fn spec_freq(&self) -> u32 {
        self.freq
    }

    pub closed spec fn spec_freq_range(&self) -> MoscFreqRange {
        self.freq_range
    }

    pub closed spec fn spec_source(&self) -> MoscSource {
        self.source
    }

    /// A setting for a crystal of `freq` hertz; fails outside 8..=24 MHz.
    pub fn new(freq: u32, source: MoscSource) -> (r: Result<Self, RegisterError>)
        ensures
            MoscFreqRange::spec_from_freq(freq) is None ==> r == Err::<Self, RegisterError>(
                RegisterError::InvalidValue("Frequency outside the range of MOSC.")),
            MoscFreqRange::spec_from_freq(freq) matches Some(range) ==> r matches Ok(c)
                && c.spec_freq() == freq && c.spec_freq_range() == range && c.spec_source() == source,
    {
        if let Some(freq_range) = MoscFreqRange::from_freq(freq) {
            Ok(MoscConfig { freq, freq_range, source })
        } else {
            Err(RegisterError::InvalidValue("Frequency outside the range of MOSC."))
        }
    }
}

/// MOSC runs: MOSCCR.MOSTP = 0 and OSCSF.MOSCSF = 1.
pub open spec fn spec_mosc_running(regs: SyscRegs) -> bool {
    !regs.mosc.mostp && regs.mosc.moscsf
}

/// MOSC is stopped: MOSCCR.MOSTP = 1 and OSCSF.MOSCSF = 0.
pub open spec fn spec_mosc_stopped(regs: SyscRegs) -> bool {
    regs.mosc.mostp && !regs.mosc.moscsf
}

/// Why a running oscillator that a PLL can select as source `src` must not stop,
/// if it must not: it clocks the system (CKSEL = `cksel`), or a PLL that runs
/// from it clocks the system or runs.
pub open spec fn spec_osc_stop_blocked(
    regs: SyscRegs,
    cksel: u8,
    src: u8,
    selected: &'static str,
    pll_selected: &'static str,
    pll_running: &'static str,
    pll2_running: &'static str,
) -> Option<RegisterError> {
    if regs.sck.cksel == cksel {
        Some(RegisterError::NotReadyToWrite(selected))
    } else if regs.pll.srcsel == src && regs.sck.cksel == 0b101 {
        Some(RegisterError::NotReadyToWrite(pll_selected))
    } else if regs.pll.srcsel == src && !regs.pll.stp {
        Some(RegisterError::NotReadyToWrite(pll_running))
    } else if regs.pll2.srcsel == src && !regs.pll2.stp {
        Some(RegisterError::NotReadyToWrite(pll2_running))
    } else {
        None
    }
}

/// The main oscillator.
pub struct Mosc {
    freq: Option<u32>,
}

impl Mosc {
    pub(crate) fn new() -> (m: Mosc)
        ensures
            m.spec_freq() is None,
    {
        Mosc { freq: None }
    }

    /// The crystal frequency of the last setting stored, if any.
    pub closed spec fn spec_freq(&self) -> Option<u32> {
        self.freq
    }

    pub fn is_running(&self, regs: &SyscRegs) -> (r: bool)
        ensures
            r == spec_mosc_running(*regs),
    {
        !regs.mosc.mostp && regs.mosc.moscsf
    }

    pub fn is_stopped(&self, regs: &SyscRegs) -> (r: bool)
        ensures
            r == spec_mosc_stopped(*regs),
    {
        regs.mosc.mostp && !regs.mosc.moscsf
    }

    /// Starts MOSC when it is stopped.
    pub fn run(&mut self, regs: &mut SyscRegs) -> (r: Result<(), RegisterError>)
        ensures
            *final(self) == *old(self),
            !spec_mosc_stopped(*old(regs)) ==> r == Err::<(), RegisterError>(
                RegisterError::NotReadyToWrite("MOSC is not stopped.")) && *final(regs) == *old(regs),
            spec_mosc_stopped(*old(regs)) ==> r is Ok && *final(regs) == (SyscRegs {
                prcr: 0,
                mosc: MoscRegs { mostp: false, ..old(regs).mosc },
                ..*old(regs)
            }),
    {
        if !self.is_stopped(regs) {
            Err(RegisterError::NotReadyToWrite("MOSC is not stopped."))
        } else {
            prc0(regs, true);
            regs.mosc.mostp = false;
            prc0(regs, false);
            Ok(())
        }
    }

    /// Stops MOSC when it runs and neither the system clock nor a running PLL
    /// depends on it.
    pub fn stop(&mut self, regs: &mut SyscRegs) -> (r: Result<(), RegisterError>)
        ensures
            *final(self) == *old(self),
            !spec_mosc_running(*old(regs)) ==> r == Err::<(), RegisterError>(
                RegisterError::NotReadyToWrite("MOSC is not running.")) && *final(regs) == *old(regs),
            spec_mosc_running(*old(regs)) ==> match spec_osc_stop_blocked(*old(regs), 0b011, 0,
                "MOSC is selected for system clock source.",
                "PLL (source: MOSC) is selected for system clock source.",
                "MOSC is selected for running PLL source.",
                "MOSC is selected for running PLL2 source.") {
                Some(e) => r == Err::<(), RegisterError>(e) && *final(regs) == (SyscRegs { prcr: 0, ..*old(regs) }),
                None => r is Ok && *final(regs) == (SyscRegs {
                    prcr: 0,
                    mosc: MoscRegs { mostp: true, ..old(regs).mosc },
                    ..*old(regs)
                }),
            },
    {
        if !self.is_running(regs) {
            Err(RegisterError::NotReadyToWrite("MOSC is not running."))
        } else {
            prc0(regs, true);
            let sysclk_src = regs.sck.cksel;
            let result = if sysclk_src == 0b011 {
                Err(RegisterError::NotReadyToWrite("MOSC is selected for system clock source."))
            } else if regs.pll.srcsel == 0 && sysclk_src == 0b101 {
                Err(RegisterError::NotReadyToWrite("PLL (source: MOSC) is selected for system clock source."))
            } else if regs.pll.srcsel == 0 && !regs.pll.stp {
                Err(RegisterError::NotReadyToWrite("MOSC is selected for running PLL source."))
            } else if regs.pll2.srcsel == 0 && !regs.pll2.stp {
                Err(RegisterError::NotReadyToWrite("MOSC is selected for running PLL2 source."))
            } else {
                regs.mosc.mostp = true;
                Ok(())
            };
            prc0(regs, false);
            result
        }
    }

    pub fn is_stable(&self, regs: &SyscRegs) -> (r: bool)
        ensures
            r == regs.mosc.moscsf,
    {
        regs.mosc.moscsf
    }

    pub fn get_freq(&self) -> (r: Option<u32>)
        ensures
            r == self.spec_freq(),
    {
        self.freq
    }

    pub fn get_freq_range(&self, regs: &SyscRegs) -> (r: Option<MoscFreqRange>)
        ensures
            r == MoscFreqRange::spec_from_u8(regs.mosc.modrv),
    {
        MoscFreqRange::from_u8(regs.mosc.modrv)
    }

    pub fn get_source(&self, regs: &SyscRegs) -> (r: Option<MoscSource>)
        ensures
            r == MoscSource::spec_from_u8(regs.mosc.mosel),
    {
        MoscSource::from_u8(regs.mosc.mosel)
    }

    /// Stores a MOSC setting while MOSC is stopped, and remembers its frequency.
    pub fn set_config(&mut self, regs: &mut SyscRegs, cfg: &MoscConfig) -> (r: Result<(), RegisterError>)
        ensures
            !spec_mosc_stopped(*old(regs)) ==> r == Err::<(), RegisterError>(
                RegisterError::NotReadyToWrite("MOSC is not stopped."))
                && *final(regs) == *old(regs) && *final(self) == *old(self),
            spec_mosc_stopped(*old(regs)) && MoscFreqRange::spec_from_freq(cfg.spec_freq()) != Some(cfg.spec_freq_range())
                ==> r == Err::<(), RegisterError>(RegisterError::InvalidValue("Frequency value and range do not match."))
                && *final(regs) == *old(regs) && *final(self) == *old(self),
            spec_mosc_stopped(*old(regs)) && MoscFreqRange::spec_from_freq(cfg.spec_freq()) == Some(cfg.spec_freq_range())
                ==> r is Ok && *final(regs) == (SyscRegs {
                    prcr: 0,
                    mosc: MoscRegs {
                        modrv: cfg.spec_freq_range().spec_bits(),
                        mosel: cfg.spec_source().spec_bits(),
                        ..old(regs).mosc
                    },
                    ..*old(regs)
                }) && final(self).spec_freq() == Some(cfg.spec_freq()),
            final(self).spec_freq() == (if r is Ok { Some(cfg.spec_freq()) } else { old(self).spec_freq() }),
    {
        let matches = match MoscFreqRange::from_freq(cfg.freq) {
            Some(range) => range == cfg.freq_range,
            None => false,
        };
        if !self.is_stopped(regs) {
            Err(RegisterError::NotReadyToWrite("MOSC is not stopped."))
        } else if !matches {
            Err(RegisterError::InvalidValue("Frequency value and range do not match."))
        } else {
            prc0(regs, true);
            regs.mosc.modrv = cfg.freq_range.bits();
            regs.mosc.mosel = cfg.source.bits();
            prc0(regs, false);
            self.freq = Some(cfg.freq);
            Ok(())
        }
    }

    pub fn get_stabilization_time(&self, regs: &SyscRegs) -> (r: Option<MoscStabilizationTime>)
        ensures
            r == MoscStabilizationTime::spec_from_u8(regs.mosc.msts),
    {
        MoscStabilizationTime::from_u8(regs.mosc.msts)
    }

    /// Stores the stabilization wait time while MOSC is stopped.
    pub fn set_stabilization_time(&mut self, regs: &mut SyscRegs, cycle: MoscStabilizationTime) -> (r: Result<(), RegisterError>)
        ensures
            *final(self) == *old(self),
            !spec_mosc_stopped(*old(regs)) ==> r == Err::<(), RegisterError>(
                RegisterError::NotReadyToWrite("MOSC is not stopped.")) && *final(regs) == *old(regs),
            spec_mosc_stopped(*old(regs)) ==> r is Ok && *final(regs) == (SyscRegs {
                prcr: 0,
                mosc: MoscRegs { msts: cycle.spec_bits(), ..old(regs).mosc },
                ..*old(regs)
            }),
    {
        if !self.is_stopped(regs) {
            Err(RegisterError::NotReadyToWrite("MOSC is not stopped."))
        } else {
            prc0(regs, true);
            regs.mosc.msts = cycle.bits();
            prc0(regs, false);
            Ok(())
        }
    }
}

impl PllSources for Mosc {
    closed spec fn spec_hz(&self, regs: SyscRegs) -> Option<u32> {
        self.freq
    }

    open spec fn spec_as_source(&self) -> PllSource {
        PllSource::Mosc
    }

    fn hz(&self, regs: &SyscRegs) -> (r: Option<u32>) {
        self.freq
    }

    fn as_source(&self) -> (s: PllSource) {
        PllSource::Mosc
    }
}


// ---------------------------------------------------------------- SOSC

/// SOSC drive capability (SOMCR.SODRV).
#[derive(Copy, Clone, Debug, PartialEq, Eq, Structural)]
pub enum SoscMode {
    Standard,
    Low,
}

impl SoscMode {
    pub open spec fn spec_from_u8(value: u8) -> Option<SoscMode> {
        if value == 0 {
            Some(SoscMode::Standard)
        } else if value == 1 {
            Some(SoscMode::Low)
        } else {
            None
        }
    }

    fn from_u8(value: u8) -> (r: Option<Self>)
        ensures
            r == Self::spec_from_u8(value),
    {
        match value {
            0 => Some(SoscMode::Standard),
            1 => Some(SoscMode::Low),
            _ => None,
        }
    }
}

/// The sub-clock oscillator.
pub struct Sosc {
    _id: (),
}

impl Sosc {
    pub(crate) fn new() -> Sosc {
        Sosc { _id: () }
    }

    pub fn is_running(&self, regs: &SyscRegs) -> (r: bool)
        ensures
            r == !regs.sosc.sostp,
    {
        !regs.sosc.sostp
    }

    pub fn is_stopped(&self, regs: &SyscRegs) -> (r: bool)
        ensures
            r == regs.sosc.sostp,
    {
        regs.sosc.sostp
    }

    /// Starts SOSC when it is stopped.
    pub fn run(&mut self, regs: &mut SyscRegs) -> (r: Result<(), RegisterError>)
        ensures
            !old(regs).sosc.sostp ==> r == Err::<(), RegisterError>(
                RegisterError::NotReadyToWrite("SOSC is already running.")) && *final(regs) == *old(regs),
            old(regs).sosc.sostp ==> r is Ok && *final(regs) == (SyscRegs {
                prcr: 0,
                sosc: SoscRegs { sostp: false, ..old(regs).sosc },
                ..*old(regs)
            }),
    {
        if self.is_running(regs) {
            Err(RegisterError::NotReadyToWrite("SOSC is already running."))
        } else {
            prc0(regs, true);
            regs.sosc.sostp = false;
            prc0(regs, false);
            Ok(())
        }
    }

    /// Stops SOSC when it runs and does not clock the system.
    pub fn stop(&mut self, regs: &mut SyscRegs) -> (r: Result<(), RegisterError>)
        ensures
            old(regs).sosc.sostp ==> r == Err::<(), RegisterError>(
                RegisterError::NotReadyToWrite("SOSC is already stopped.")) && *final(regs) == *old(regs),
            !old(regs).sosc.sostp && old(regs).sck.cksel == 0b100 ==> r == Err::<(), RegisterError>(
                RegisterError::NotReadyToWrite("SOSC is selected for system clock source."))
                && *final(regs) == (SyscRegs { prcr: 0, ..*old(regs) }),
            !old(regs).sosc.sostp && old(regs).sck.cksel != 0b100 ==> r is Ok && *final(regs) == (SyscRegs {
                prcr: 0,
                sosc: SoscRegs { sostp: true, ..old(regs).sosc },
                ..*old(regs)
            }),
    {
        if self.is_stopped(regs) {
            Err(RegisterError::NotReadyToWrite("SOSC is already stopped."))
        } else {
            prc0(regs, true);
            let result = if regs.sck.cksel == 0b100 {
                Err(RegisterError::NotReadyToWrite("SOSC is selected for system clock source."))
            } else {
                regs.sosc.sostp = true;
                Ok(())
            };
            prc0(regs, false);
            result
        }
    }

    pub fn get_mode(&self, regs: &SyscRegs) -> (r: Option<SoscMode>)
        ensures
            r == SoscMode::spec_from_u8(regs.sosc.sodrv),
    {
        SoscMode::from_u8(regs.sosc.sodrv)
    }

    /// Sets the drive capability while SOSC is stopped.
    pub fn set_mode(&mut self, regs: &mut SyscRegs, mode: SoscMode) -> (r: Result<(), RegisterError>)
        ensures
            !old(regs).sosc.sostp ==> r == Err::<(), RegisterError>(
                RegisterError::NotReadyToWrite("SOSC is not stopped.")) && *final(regs) == *old(regs),
            old(regs).sosc.sostp ==> r is Ok && *final(regs) == (SyscRegs {
                prcr: 0,
                sosc: SoscRegs { sodrv: if mode == SoscMode::Standard { 0 } else { 1 }, ..old(regs).sosc },
                ..*old(regs)
            }),
    {
        if !self.is_stopped(regs) {
            Err(RegisterError::NotReadyToWrite("SOSC is not stopped."))
        } else {
            prc0(regs, true);
            regs.sosc.sodrv = if mode == SoscMode::Standard { 0 } else { 1 };
            prc0(regs, false);
            Ok(())
        }
    }
}

// ---------------------------------------------------------------- HOCO

/// HOCO frequency (HOCOCR2.HCFRQ0).
#[derive(Copy, Clone, Debug, PartialEq, Eq, Structural)]
pub enum HocoFreq {
    F16MHz,
    F18MHz,
    F20MHz,
}

impl HocoFreq {
    pub open spec fn spec_bits(self) -> u8 {
        match self {
            HocoFreq::F16MHz => 0b00,
            HocoFreq::F18MHz => 0b01,
            HocoFreq::F20MHz => 0b10,
        }
    }

    pub open spec fn spec_hz(self) -> u32 {
        match self {
            HocoFreq::F16MHz => 16_000_000,
            HocoFreq::F18MHz => 18_000_000,
            HocoFreq::F20MHz => 20_000_000,
        }
    }

    /// The FLL multiplication (FLLCR2.FLLCNTL) for this frequency.
    pub open spec fn spec_fll_cntl(self) -> u16 {
        match self {
            HocoFreq::F16MHz => 0x1e9,
            HocoFreq::F18MHz => 0x226,
            HocoFreq::F20MHz => 0x263,
        }
    }

    pub fn bits(self) -> (b: u8)
        ensures
            b == self.spec_bits(),
    {
        match self {
            HocoFreq::F16MHz => 0b00,
            HocoFreq::F18MHz => 0b01,
            HocoFreq::F20MHz => 0b10,
        }
    }

    pub open spec fn spec_from_u8(value: u8) -> Option<HocoFreq> {
        if value == 0b00 {
            Some(HocoFreq::F16MHz)
        } else if value == 0b01 {
            Some(HocoFreq::F18MHz)
        } else if value == 0b10 {
            Some(HocoFreq::F20MHz)
        } else {
            None
        }
    }

    pub fn from_u8(value: u8) -> (r: Option<Self>)
        ensures
            r == Self::spec_from_u8(value),
    {
        match value {
            0b00 => Some(HocoFreq::F16MHz),
            0b01 => Some(HocoFreq::F18MHz),
            0b10 => Some(HocoFreq::F20MHz),
            _ => None,
        }
    }

    pub fn hz(self) -> (r: u32)
        ensures
            r == self.spec_hz(),
    {
        match self {
            HocoFreq::F16MHz => 16_000_000,
            HocoFreq::F18MHz => 18_000_000,
            HocoFreq::F20MHz => 20_000_000,
        }
    }

    fn fll_cntl(self) -> (r: u16)
        ensures
            r == self.spec_fll_cntl(),
    {
        match self {
            HocoFreq::F16MHz => 0x1e9,
            HocoFreq::F18MHz => 0x226,
            HocoFreq::F20MHz => 0x263,
        }
    }
}

/// HOCO runs: HOCOCR.HCSTP = 0 and OSCSF.HOCOSF = 1.
pub open spec fn spec_hoco_running(regs: SyscRegs) -> bool {
    !regs.hoco.hcstp && regs.hoco.hocosf
}

/// HOCO is stopped: HOCOCR.HCSTP = 1 and OSCSF.HOCOSF = 0.
pub open spec fn spec_hoco_stopped(regs: SyscRegs) -> bool {
    regs.hoco.hcstp && !regs.hoco.hocosf
}

/// The high-speed on-chip oscillator.
pub struct Hoco {
    _id: (),
}

impl Hoco {
    pub(crate) fn new() -> Hoco {
        Hoco { _id: () }
    }

    pub fn is_running(&self, regs: &SyscRegs) -> (r: bool)
        ensures
            r == spec_hoco_running(*regs),
    {
        !regs.hoco.hcstp && regs.hoco.hocosf
    }

    pub fn is_stopped(&self, regs: &SyscRegs) -> (r: bool)
        ensures
            r == spec_hoco_stopped(*regs),
    {
        regs.hoco.hcstp && !regs.hoco.hocosf
    }

    /// Starts HOCO when it is stopped.
    pub fn run(&mut self, regs: &mut SyscRegs) -> (r: Result<(), RegisterError>)
        ensures
            !spec_hoco_stopped(*old(regs)) ==> r == Err::<(), RegisterError>(
                RegisterError::NotReadyToWrite("HOCO is not stopped.")) && *final(regs) == *old(regs),
            spec_hoco_stopped(*old(regs)) ==> r is Ok && *final(regs) == (SyscRegs {
                prcr: 0,
                hoco: HocoRegs { hcstp: false, ..old(regs).hoco },
                ..*old(regs)
            }),
    {
        if !self.is_stopped(regs) {
            Err(RegisterError::NotReadyToWrite("HOCO is not stopped."))
        } else {
            prc0(regs, true);
            regs.hoco.hcstp = false;
            prc0(regs, false);
            Ok(())
        }
    }

    /// Stops HOCO when it runs and neither the system clock nor a running PLL
    /// depends on it.
    pub fn stop(&mut self, regs: &mut SyscRegs) -> (r: Result<(), RegisterError>)
        ensures
            !spec_hoco_running(*old(regs)) ==> r == Err::<(), RegisterError>(
                RegisterError::NotReadyToWrite("HOCO is not running.")) && *final(regs) == *old(regs),
            spec_hoco_running(*old(regs)) ==> match spec_osc_stop_blocked(*old(regs), 0b000, 1,
                "HOCO is selected for system clock source.",
                "PLL (source: HOCO) is selected for system clock source.",
                "HOCO is selected for running PLL source.",
                "HOCO is selected for running PLL2 source.") {
                Some(e) => r == Err::<(), RegisterError>(e) && *final(regs) == (SyscRegs { prcr: 0, ..*old(regs) }),
                None => r is Ok && *final(regs) == (SyscRegs {
                    prcr: 0,
                    hoco: HocoRegs { hcstp: true, ..old(regs).hoco },
                    ..*old(regs)
                }),
            },
    {
        if !self.is_running(regs) {
            Err(RegisterError::NotReadyToWrite("HOCO is not running."))
        } else {
            prc0(regs, true);
            let sysclk_src = regs.sck.cksel;
            let result = if sysclk_src == 0b000 {
                Err(RegisterError::NotReadyToWrite("HOCO is selected for system clock source."))
            } else if regs.pll.srcsel == 1 && sysclk_src == 0b101 {
                Err(RegisterError::NotReadyToWrite("PLL (source: HOCO) is selected for system clock source."))
            } else if regs.pll.srcsel == 1 && !regs.pll.stp {
                Err(RegisterError::NotReadyToWrite("HOCO is selected for running PLL source."))
            } else if regs.pll2.srcsel == 1 && !regs.pll2.stp {
                Err(RegisterError::NotReadyToWrite("HOCO is selected for running PLL2 source."))
            } else {
                regs.hoco.hcstp = true;
                Ok(())
            };
            prc0(regs, false);
            result
        }
    }

    pub fn is_stable(&self, regs: &SyscRegs) -> (r: bool)
        ensures
            r == regs.hoco.hocosf,
    {
        regs.hoco.hocosf
    }

    pub fn get_freq(&self, regs: &SyscRegs) -> (r: Option<HocoFreq>)
        ensures
            r == HocoFreq::spec_from_u8(regs.hoco.hcfrq0),
    {
        HocoFreq::from_u8(regs.hoco.hcfrq0)
    }

    /// Selects the HOCO frequency, and the FLL multiplication that goes with it,
    /// while HOCO is stopped.
    pub fn set_freq(&mut self, regs: &mut SyscRegs, freq: HocoFreq) -> (r: Result<(), RegisterError>)
        ensures
            !spec_hoco_stopped(*old(regs)) ==> r == Err::<(), RegisterError>(
                RegisterError::NotReadyToWrite("HOCO is not stopped.")) && *final(regs) == *old(regs),
            spec_hoco_stopped(*old(regs)) ==> r is Ok && *final(regs) == (SyscRegs {
                prcr: 0,
                hoco: HocoRegs { hcfrq0: freq.spec_bits(), fllcntl: freq.spec_fll_cntl(), ..old(regs).hoco },
                ..*old(regs)
            }),
    {
        if !self.is_stopped(regs) {
            Err(RegisterError::NotReadyToWrite("HOCO is not stopped."))
        } else {
            prc0(regs, true);
            regs.hoco.hcfrq0 = freq.bits();
            regs.hoco.fllcntl = freq.fll_cntl();
            prc0(regs, false);
            Ok(())
        }
    }

    pub fn is_fll_enabled(&self, regs: &SyscRegs) -> (r: bool)
        ensures
            r == regs.hoco.fllen,
    {
        regs.hoco.fllen
    }

    /// Turns the FLL on or off while HOCO is stopped; turning it on needs SOSC.
    fn set_fllcr1(&mut self, regs: &mut SyscRegs, enable: bool) -> (r: Result<(), RegisterError>)
        ensures
            r == spec_fll_result(*old(regs), enable),
            *final(regs) == spec_fll_regs(*old(regs), enable),
    {
        if !self.is_stopped(regs) {
            Err(RegisterError::NotReadyToWrite("HOCO is not stopped."))
        } else if self.is_fll_enabled(regs) == enable {
            Err(RegisterError::NotReadyToWrite(if enable { "FLL is already enabled." } else { "FLL is already disabled." }))
        } else {
            prc0(regs, true);
            let result = if enable && regs.sosc.sostp {
                Err(RegisterError::NotReadyToWrite("SOSC is not running."))
            } else {
                regs.hoco.fllen = enable;
                Ok(())
            };
            prc0(regs, false);
            result
        }
    }

    pub fn enable_fll(&mut self, regs: &mut SyscRegs) -> (r: Result<(), RegisterError>)
        ensures
            r == spec_fll_result(*old(regs), true),
            *final(regs) == spec_fll_regs(*old(regs), true),
    {
        self.set_fllcr1(regs, true)
    }

    pub fn disable_fll(&mut self, regs: &mut SyscRegs) -> (r: Result<(), RegisterError>)
        ensures
            r == spec_fll_result(*old(regs), false),
            *final(regs) == spec_fll_regs(*old(regs), false),
    {
        self.set_fllcr1(regs, false)
    }

    /// The user trimming value (HOCOUTCR.HOCOUTRM) as a signed number.
    pub fn get_hoco_user_trimming(&self, regs: &SyscRegs) -> (r: i8)
        ensures
            r == spec_trim_value(regs.hoco.hocoutrm),
    {
        trim_value(regs.hoco.hocoutrm)
    }

    /// Stores the user trimming value while the RTC does not count.
    pub fn set_hoco_user_trimming(&mut self, regs: &mut SyscRegs, trimming: i8, _rtc: &mut Rtc, rtc_regs: &RtcRegs) -> (r: Result<(), RegisterError>)
        ensures
            rtc_regs.start ==> r == Err::<(), RegisterError>(
                RegisterError::NotReadyToWrite("RTC is running: RCR2.START=1"))
                && *final(regs) == (SyscRegs { prcr: 0, ..*old(regs) }),
            !rtc_regs.start ==> r is Ok && *final(regs) == (SyscRegs {
                prcr: 0,
                hoco: HocoRegs { hocoutrm: spec_trim_bits(trimming), ..old(regs).hoco },
                ..*old(regs)
            }),
    {
        prc0(regs, true);
        let result = if rtc_regs.start {
            Err(RegisterError::NotReadyToWrite("RTC is running: RCR2.START=1"))
        } else {
            regs.hoco.hocoutrm = trim_bits(trimming);
            Ok(())
        };
        prc0(regs, false);
        result
    }
}

/// What turning the FLL on (`enable`) or off answers.
pub open spec fn spec_fll_result(regs: SyscRegs, enable: bool) -> Result<(), RegisterError> {
    if !spec_hoco_stopped(regs) {
        Err(RegisterError::NotReadyToWrite("HOCO is not stopped."))
    } else if regs.hoco.fllen == enable {
        Err(RegisterError::NotReadyToWrite(if enable { "FLL is already enabled." } else { "FLL is already disabled." }))
    } else if enable && regs.sosc.sostp {
        Err(RegisterError::NotReadyToWrite("SOSC is not running."))
    } else {
        Ok(())
    }
}

/// The registers after turning the FLL on (`enable`) or off.
pub open spec fn spec_fll_regs(regs: SyscRegs, enable: bool) -> SyscRegs {
    if !spec_hoco_stopped(regs) || regs.hoco.fllen == enable {
        regs
    } else if enable && regs.sosc.sostp {
        SyscRegs { prcr: 0, ..regs }
    } else {
        SyscRegs { prcr: 0, hoco: HocoRegs { fllen: enable, ..regs.hoco }, ..regs }
    }
}

impl PllSources for Hoco {
    open spec fn spec_hz(&self, regs: SyscRegs) -> Option<u32> {
        match HocoFreq::spec_from_u8(regs.hoco.hcfrq0) {
            Some(f) => Some(f.spec_hz()),
            None => None,
        }
    }

    open spec fn spec_as_source(&self) -> PllSource {
        PllSource::Hoco
    }

    fn hz(&self, regs: &SyscRegs) -> (r: Option<u32>) {
        if let Some(hf) = self.get_freq(regs) {
            Some(hf.hz())
        } else {
            None
        }
    }

    fn as_source(&self) -> (s: PllSource) {
        PllSource::Hoco
    }
}

// ---------------------------------------------------------------- MOCO, LOCO

/// The middle-speed on-chip oscillator.
pub struct Moco {
    _id: (),
}

impl Moco {
    pub(crate) fn new() -> Moco {
        Moco { _id: () }
    }

    pub fn is_running(&self, regs: &SyscRegs) -> (r: bool)
        ensures
            r == !regs.moco.mcstp,
    {
        !regs.moco.mcstp
    }

    pub fn is_stopped(&self, regs: &SyscRegs) -> (r: bool)
        ensures
            r == regs.moco.mcstp,
    {
        regs.moco.mcstp
    }

    /// Starts MOCO when it is stopped.
    pub fn run(&mut self, regs: &mut SyscRegs) -> (r: Result<(), RegisterError>)
        ensures
            !old(regs).moco.mcstp ==> r == Err::<(), RegisterError>(
                RegisterError::NotReadyToWrite("MOCO is already running.")) && *final(regs) == *old(regs),
            old(regs).moco.mcstp ==> r is Ok && *final(regs) == (SyscRegs {
                prcr: 0,
                moco: MocoRegs { mcstp: false, ..old(regs).moco },
                ..*old(regs)
            }),
    {
        if self.is_running(regs) {
            Err(RegisterError::NotReadyToWrite("MOCO is already running."))
        } else {
            prc0(regs, true);
            regs.moco.mcstp = false;
            prc0(regs, false);
            Ok(())
        }
    }

    /// Stops MOCO when it runs, does not clock the system and oscillation stop
    /// detection is off. Before MOCO is used again, wait for tMOCOWT.
    pub fn stop(&mut self, regs: &mut SyscRegs) -> (r: Result<(), RegisterError>)
        ensures
            old(regs).moco.mcstp ==> r == Err::<(), RegisterError>(
                RegisterError::NotReadyToWrite("MOCO is already stopped.")) && *final(regs) == *old(regs),
            !old(regs).moco.mcstp && old(regs).sck.cksel == 0b001 ==> r == Err::<(), RegisterError>(
                RegisterError::NotReadyToWrite("MOCO is selected for system clock source."))
                && *final(regs) == (SyscRegs { prcr: 0, ..*old(regs) }),
            !old(regs).moco.mcstp && old(regs).sck.cksel != 0b001 && old(regs).ostd.ostde ==> r == Err::<(), RegisterError>(
                RegisterError::NotReadyToWrite("Oscillation stop detection is enabled."))
                && *final(regs) == (SyscRegs { prcr: 0, ..*old(regs) }),
            !old(regs).moco.mcstp && old(regs).sck.cksel != 0b001 && !old(regs).ostd.ostde ==> r is Ok
                && *final(regs) == (SyscRegs {
                    prcr: 0,
                    moco: MocoRegs { mcstp: true, ..old(regs).moco },
                    ..*old(regs)
                }),
    {
        if self.is_stopped(regs) {
            Err(RegisterError::NotReadyToWrite("MOCO is already stopped."))
        } else {
            prc0(regs, true);
            let result = if regs.sck.cksel == 0b001 {
                Err(RegisterError::NotReadyToWrite("MOCO is selected for system clock source."))
            } else if regs.ostd.ostde {
                Err(RegisterError::NotReadyToWrite("Oscillation stop detection is enabled."))
            } else {
                regs.moco.mcstp = true;
                Ok(())
            };
            prc0(regs, false);
            result
        }
    }

    /// The user trimming value (MOCOUTCR.MOCOUTRM) as a signed number.
    pub fn get_moco_user_trimming(&self, regs: &SyscRegs) -> (r: i8)
        ensures
            r == spec_trim_value(regs.moco.mocoutrm),
    {
        trim_value(regs.moco.mocoutrm)
    }

    /// Stores the user trimming value while the RTC does not count.
    pub fn set_moco_user_trimming(&mut self, regs: &mut SyscRegs, trimming: i8, _rtc: &mut Rtc, rtc_regs: &RtcRegs) -> (r: Result<(), RegisterError>)
        ensures
            rtc_regs.start ==> r == Err::<(), RegisterError>(
                RegisterError::NotReadyToWrite("RTC is running: RCR2.START=1"))
                && *final(regs) == (SyscRegs { prcr: 0, ..*old(regs) }),
            !rtc_regs.start ==> r is Ok && *final(regs) == (SyscRegs {
                prcr: 0,
                moco: MocoRegs { mocoutrm: spec_trim_bits(trimming), ..old(regs).moco },
                ..*old(regs)
            }),
    {
        prc0(regs, true);
        let result = if rtc_regs.start {
            Err(RegisterError::NotReadyToWrite("RTC is running: RCR2.START=1"))
        } else {
            regs.moco.mocoutrm = trim_bits(trimming);
            Ok(())
        };
        prc0(regs, false);
        result
    }
}

/// The low-speed on-chip oscillator.
pub struct Loco {
    _id: (),
}

impl Loco {
    pub(crate) fn new() -> Loco {
        Loco { _id: () }
    }

    pub fn is_running(&self, regs: &SyscRegs) -> (r: bool)
        ensures
            r == !regs.loco.lcstp,
    {
        !regs.loco.lcstp
    }

    pub fn is_stopped(&self, regs: &SyscRegs) -> (r: bool)
        ensures
            r == regs.loco.lcstp,
    {
        regs.loco.lcstp
    }

    /// Starts LOCO when it is stopped.
    pub fn run(&mut self, regs: &mut SyscRegs) -> (r: Result<(), RegisterError>)
        ensures
            !old(regs).loco.lcstp ==> r == Err::<(), RegisterError>(
                RegisterError::NotReadyToWrite("LOCO is already running.")) && *final(regs) == *old(regs),
            old(regs).loco.lcstp ==> r is Ok && *final(regs) == (SyscRegs {
                prcr: 0,
                loco: LocoRegs { lcstp: false, ..old(regs).loco },
                ..*old(regs)
            }),
    {
        if self.is_running(regs) {
            Err(RegisterError::NotReadyToWrite("LOCO is already running."))
        } else {
            prc0(regs, true);
            regs.loco.lcstp = false;
            prc0(regs, false);
            Ok(())
        }
    }

    /// Stops LOCO when it runs and does not clock the system. Before LOCO is used
    /// again, wait for tLOCOWT.
    pub fn stop(&mut self, regs: &mut SyscRegs) -> (r: Result<(), RegisterError>)
        ensures
            old(regs).loco.lcstp ==> r == Err::<(), RegisterError>(
                RegisterError::NotReadyToWrite("LOCO is already stopped.")) && *final(regs) == *old(regs),
            !old(regs).loco.lcstp && old(regs).sck.cksel == 0b010 ==> r == Err::<(), RegisterError>(
                RegisterError::NotReadyToWrite("LOCO is selected for system clock source."))
                && *final(regs) == (SyscRegs { prcr: 0, ..*old(regs) }),
            !old(regs).loco.lcstp && old(regs).sck.cksel != 0b010 ==> r is Ok && *final(regs) == (SyscRegs {
                prcr: 0,
                loco: LocoRegs { lcstp: true, ..old(regs).loco },
                ..*old(regs)
            }),
    {
        if self.is_stopped(regs) {
            Err(RegisterError::NotReadyToWrite("LOCO is already stopped."))
        } else {
            prc0(regs, true);
            let result = if regs.sck.cksel == 0b010 {
                Err(RegisterError::NotReadyToWrite("LOCO is selected for system clock source."))
            } else {
                regs.loco.lcstp = true;
                Ok(())
            };
            prc0(regs, false);
            result
        }
    }

    /// The user trimming value (LOCOUTCR.LOCOUTRM) as a signed number.
    pub fn get_loco_user_trimming(&self, regs: &SyscRegs) -> (r: i8)
        ensures
            r == spec_trim_value(regs.loco.locoutrm),
    {
        trim_value(regs.loco.locoutrm)
    }

    /// Stores the user trimming value while the RTC does not count.
    pub fn set_loco_user_trimming(&mut self, regs: &mut SyscRegs, trimming: i8, _rtc: &mut Rtc, rtc_regs: &RtcRegs) -> (r: Result<(), RegisterError>)
        ensures
            rtc_regs.start ==> r == Err::<(), RegisterError>(
                RegisterError::NotReadyToWrite("RTC is running: RCR2.START=1"))
                && *final(regs) == (SyscRegs { prcr: 0, ..*old(regs) }),
            !rtc_regs.start ==> r is Ok && *final(regs) == (SyscRegs {
                prcr: 0,
                loco: LocoRegs { locoutrm: spec_trim_bits(trimming), ..old(regs).loco },
                ..*old(regs)
            }),
    {
        prc0(regs, true);
        let result = if rtc_regs.start {
            Err(RegisterError::NotReadyToWrite("RTC is running: RCR2.START=1"))
        } else {
            regs.loco.locoutrm = trim_bits(trimming);
            Ok(())
        };
        prc0(regs, false);
        result
    }
}

/// Decoding the field value of each oscillator setting gives the setting back.
pub proof fn lemma_oscillator_codes_round_trip()
    ensures
        forall|x: PliDiv| PliDiv::spec_from_u8(#[trigger] x.spec_bits()) == Some(x),
        forall|x: PllMul| PllMul::spec_from_u8(#[trigger] x.spec_bits()) == Some(x),
        forall|x: PllSource| PllSource::spec_from_u8(#[trigger] x.spec_bits()) == Some(x),
        forall|x: MoscFreqRange| MoscFreqRange::spec_from_u8(#[trigger] x.spec_bits()) == Some(x),
        forall|x: MoscSource| MoscSource::spec_from_u8(#[trigger] x.spec_bits()) == Some(x),
        forall|x: MoscStabilizationTime| MoscStabilizationTime::spec_from_u8(#[trigger] x.spec_bits()) == Some(x),
        forall|x: HocoFreq| HocoFreq::spec_from_u8(#[trigger] x.spec_bits()) == Some(x),
{
}

/// The MOSC frequency after a run of `Mosc::set_config` calls from `Sysc::init`
/// (no frequency known): call `i` was accepted when `accepted[i]`, with a setting
/// of `freqs[i]` Hz.
pub open spec fn spec_mosc_freq_after(accepted: Seq<bool>, freqs: Seq<u32>) -> Option<u32> {
    crate::spec_last_accepted(None, Seq::new(accepted.len(), |i: int| (accepted[i], Some(freqs[i]))))
}

/// After `Sysc::init`, `Mosc::get_freq` gives the frequency of the last
/// `Mosc::set_config` that was accepted, and `None` when none was; a refused call
/// leaves it as it was.
pub proof fn lemma_mosc_freq_follows_last_accepted(accepted: Seq<bool>, freqs: Seq<u32>)
    requires
        freqs.len() == accepted.len(),
    ensures
        (forall|i: int| 0 <= i < accepted.len() ==> !#[trigger] accepted[i]) ==> spec_mosc_freq_after(accepted, freqs) is None,
        forall|k: int|
            0 <= k < accepted.len() && #[trigger] accepted[k] && (forall|j: int| k < j < accepted.len() ==> !#[trigger] accepted[j])
                ==> spec_mosc_freq_after(accepted, freqs) == Some(freqs[k]),
{
    let calls = Seq::new(accepted.len(), |i: int| (accepted[i], Some(freqs[i])));
    crate::lemma_last_accepted(None, calls);
    assert forall|k: int|
        0 <= k < accepted.len() && #[trigger] accepted[k] && (forall|j: int| k < j < accepted.len() ==> !#[trigger] accepted[j])
        implies spec_mosc_freq_after(accepted, freqs) == Some(freqs[k]) by {
        assert(calls[k].0);
        assert forall|j: int| k < j < calls.len() implies !(#[trigger] calls[j]).0 by {
            assert(!accepted[j]);
        }
    }
    if forall|i: int| 0 <= i < accepted.len() ==> !#[trigger] accepted[i] {
        assert forall|i: int| 0 <= i < calls.len() implies !(#[trigger] calls[i]).0 by {
            assert(!accepted[i]);
        }
    }
}

/// The MOSC drivers of a run of `Mosc::set_config` calls from `Sysc::init`, each
/// step as its contract states (the setting's frequency when call `i` was
/// accepted, the frequency unchanged when it was refused), end with
/// `spec_mosc_freq_after`: the frequency of the last accepted call, or `None`.
pub proof fn lemma_mosc_freq_run(states: Seq<Mosc>, accepted: Seq<bool>, freqs: Seq<u32>)
    requires
        states.len() == accepted.len() + 1,
        freqs.len() == accepted.len(),
        states[0].spec_freq() is None,
        forall|i: int| 0 <= i < accepted.len() ==> states[i + 1].spec_freq()
            == (if #[trigger] accepted[i] { Some(freqs[i]) } else { states[i].spec_freq() }),
    ensures
        states.last().spec_freq() == spec_mosc_freq_after(accepted, freqs),
{
    let values = Seq::new(states.len(), |i: int| states[i].spec_freq());
    let calls = Seq::new(accepted.len(), |i: int| (accepted[i], Some(freqs[i])));
    assert forall|i: int| 0 <= i < calls.len() implies values[i + 1] == (if (#[trigger] calls[i]).0 { calls[i].1 } else { values[i] }) by {
        assert(accepted[i] == calls[i].0);
    }
    crate::lemma_run_ends_at_last_accepted(values, calls);
}

} // verus!
