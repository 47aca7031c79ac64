use ra6m5_hal::dbg::DbgRegs;
use ra6m5_hal::dbg::Dbg;
use ra6m5_hal::sysc::clock::{MoscConfig, MoscSource, PliDiv, PllConfig, PllMul, UsbClkConfig, UsbClkDiv, UsbClkSource};
use ra6m5_hal::sysc::{
    CkoRegs, EbclkRegs, HocoRegs, LocoRegs, MocoRegs, MoscRegs, OstdRegs, PeriphClkRegs, PllRegs,
    SckRegs, SoscRegs, SyscRegs, Sysc, TrckRegs,
};
use ra6m5_hal::rtc::RtcRegs;
use ra6m5_hal::rtc::Rtc;
use ra6m5_hal::RegisterError;

fn sysc_reset() -> SyscRegs {
    let pll = PllRegs { stp: true, idiv: 0, srcsel: 0, mul: 0x13, sf: false };
    let periph = PeriphClkRegs { sel: 1, sreq: false, div: 0 };
    SyscRegs {
        prcr: 0,
        sck: SckRegs { cksel: 1, pckd: 2, pckc: 2, pckb: 2, pcka: 2, bck: 2, ick: 2, fck: 2 },
        ostd: OstdRegs { ostdie: false, ostde: false, ostdf: false },
        pll,
        pll2: pll,
        mosc: MoscRegs { mostp: true, moscsf: false, modrv: 0, mosel: 0, msts: 5 },
        sosc: SoscRegs { sostp: true, sodrv: 0 },
        hoco: HocoRegs { hcstp: true, hocosf: false, hcfrq0: 0, fllen: false, fllcntl: 0, hocoutrm: 0 },
        moco: MocoRegs { mcstp: false, mocoutrm: 0 },
        loco: LocoRegs { lcstp: false, locoutrm: 0 },
        ebclk: EbclkRegs { ebckoen: false, bclkdiv: 0 },
        cko: CkoRegs { ckoen: false, ckosel: 1, ckodiv: 0 },
        usbck: periph,
        octack: periph,
        canfdck: periph,
        usb60ck: periph,
        cecck: periph,
        trck: TrckRegs { trcken: false, trck: 1 },
    }
}



#[test]
fn mosc_stop_refused_while_it_clocks_the_system() {
    let mut taken = false;
    let (mut clocks, _mstp) = Sysc::init(&mut taken).ok().unwrap();
    let mut regs = sysc_reset();
    regs.mosc.mostp = false;
    regs.mosc.moscsf = true;
    regs.sck.cksel = 0b011;
    regs.prcr = 0;
    let r = clocks.mosc.stop(&mut regs);
    assert!(matches!(r, Err(RegisterError::NotReadyToWrite("MOSC is selected for system clock source."))));
    assert!(!regs.mosc.mostp);
    regs.sck.cksel = 0b001;
    assert!(clocks.mosc.stop(&mut regs).is_ok());
    assert!(regs.mosc.mostp);
    assert_eq!(regs.prcr, 0);
    // a stopped oscillator is not stopped again
    assert!(matches!(clocks.mosc.stop(&mut regs), Err(RegisterError::NotReadyToWrite("MOSC is not running."))));
}

#[test]
fn mosc_run_from_stopped() {
    let mut taken = false;
    let (mut clocks, _mstp) = Sysc::init(&mut taken).ok().unwrap();
    let mut regs = sysc_reset();
    assert!(clocks.mosc.run(&mut regs).is_ok());
    assert!(!regs.mosc.mostp);
    assert_eq!(regs.prcr, 0);
    regs.mosc.moscsf = true;
    assert!(clocks.mosc.is_running(&regs));
    assert!(matches!(clocks.mosc.run(&mut regs), Err(RegisterError::NotReadyToWrite("MOSC is not stopped."))));
}

#[test]
fn pll_run_refused_while_running_and_stop_refused_while_selected() {
    let mut taken = false;
    let (mut clocks, _mstp) = Sysc::init(&mut taken).ok().unwrap();
    let mut regs = sysc_reset();
    regs.pll.stp = false;
    regs.pll.sf = true;
    regs.sck.cksel = 0b101;
    assert!(matches!(clocks.pll.run(&mut regs), Err(RegisterError::NotReadyToWrite("PLL is not stopped."))));
    assert!(matches!(clocks.pll.stop(&mut regs), Err(RegisterError::NotReadyToWrite("PLL is selected for system clock source."))));
    regs.sck.cksel = 0b001;
    assert!(clocks.pll.stop(&mut regs).is_ok());
    assert!(regs.pll.stp);
}

#[test]
fn mosc_config_frequency_range() {
    assert!(matches!(MoscConfig::new(25_000_000, MoscSource::Oscillator), Err(RegisterError::InvalidValue("Frequency outside the range of MOSC."))));
    assert!(MoscConfig::new(24_000_000, MoscSource::Oscillator).is_ok());
}

#[test]
fn pll_config_range() {
    let mut taken = false;
    let (clocks, _mstp) = Sysc::init(&mut taken).ok().unwrap();
    let mut regs = sysc_reset();
    // HOCO at 20 MHz (HCFRQ0 = 0b10)
    regs.hoco.hcfrq0 = 0b10;
    assert!(PllConfig::new(&clocks.hoco, &regs, PliDiv::Div1, PllMul::Mul10_0, 200_000_000).is_ok());
    assert!(matches!(
        PllConfig::new(&clocks.hoco, &regs, PliDiv::Div1, PllMul::Mul10_0, 250_000_000),
        Err(RegisterError::InvalidValue("Frequency outside the range of PLL."))
    ));
    // MOSC has no known frequency until it is configured
    assert!(matches!(
        PllConfig::new(&clocks.mosc, &regs, PliDiv::Div1, PllMul::Mul10_0, 200_000_000),
        Err(RegisterError::NotReadyToWrite("The oscillator frequency is not initialized."))
    ));
}

#[test]
fn hoco_trimming_reads_back() {
    let mut taken = false;
    let (mut clocks, _mstp) = Sysc::init(&mut taken).ok().unwrap();
    let mut rtc_taken = false;
    let mut rtc = Rtc::init(&mut rtc_taken).ok().unwrap();
    let mut regs = sysc_reset();
    let stopped = RtcRegs { start: false };
    for t in [-128i8, -1, 0, 1, 127] {
        assert!(clocks.hoco.set_hoco_user_trimming(&mut regs, t, &mut rtc, &stopped).is_ok());
        assert_eq!(clocks.hoco.get_hoco_user_trimming(&regs), t);
    }
    assert_eq!(regs.hoco.hocoutrm, 0x7F);
    let running = RtcRegs { start: true };
    assert!(matches!(
        clocks.hoco.set_hoco_user_trimming(&mut regs, 5, &mut rtc, &running),
        Err(RegisterError::NotReadyToWrite("RTC is running: RCR2.START=1"))
    ));
    assert_eq!(clocks.hoco.get_hoco_user_trimming(&regs), 127);
}

#[test]
fn usb_clock_from_pll_must_be_48mhz() {
    let mut taken = false;
    let (mut clocks, _mstp) = Sysc::init(&mut taken).ok().unwrap();
    let mut regs = sysc_reset();
    assert!(matches!(
        UsbClkConfig::new(&clocks.pll, &regs, UsbClkDiv::Div5),
        Err(RegisterError::InvalidValue("PLL is not initialized."))
    ));
    regs.hoco.hcfrq0 = 0b10;
    let cfg = PllConfig::new(&clocks.hoco, &regs, PliDiv::Div1, PllMul::Mul12_0, 240_000_000).ok().unwrap();
    assert!(clocks.pll.set_config(&mut regs, &cfg).is_ok());
    assert_eq!(clocks.pll.get_freq(), Some(240_000_000));
    assert_eq!(regs.pll.mul, PllMul::Mul12_0.bits());
    assert!(matches!(
        UsbClkConfig::new(&clocks.pll, &regs, UsbClkDiv::Div4),
        Err(RegisterError::InvalidValue("USBCLK frequency must be 48MHz."))
    ));
    let usb = UsbClkConfig::new(&clocks.pll, &regs, UsbClkDiv::Div5).ok().unwrap();
    assert!(clocks.usbclk.set_config(&mut regs, usb).is_ok());
    assert_eq!(clocks.usbclk.get_source(&regs), Some(UsbClkSource::Pll));
    assert_eq!(clocks.usbclk.get_div(&regs), Some(UsbClkDiv::Div5));
    assert!(!regs.usbck.sreq);
    assert_eq!(regs.prcr, 0);
}

#[test]
fn trace_clock_needs_a_debugger() {
    let mut taken = false;
    let (mut clocks, _mstp) = Sysc::init(&mut taken).ok().unwrap();
    let mut dbg_taken = false;
    let mut dbg = Dbg::init(&mut dbg_taken).ok().unwrap();
    let mut regs = sysc_reset();
    let absent = DbgRegs { cdbgpwrupreq: false };
    let present = DbgRegs { cdbgpwrupreq: true };
    assert!(matches!(clocks.trclk.enable(&mut regs, &mut dbg, &absent), Err(RegisterError::NotReadyToWrite("Debugger is not connected."))));
    assert!(!regs.trck.trcken);
    assert!(clocks.trclk.enable(&mut regs, &mut dbg, &present).is_ok());
    assert!(regs.trck.trcken);
    assert!(matches!(clocks.trclk.enable(&mut regs, &mut dbg, &present), Err(RegisterError::NotReadyToWrite("TRCLK is already enabled."))));
}

#[test]
fn external_bus_clock_output() {
    let mut taken = false;
    let (mut clocks, _mstp) = Sysc::init(&mut taken).ok().unwrap();
    let mut regs = sysc_reset();
    assert!(clocks.ebclk.enable(&mut regs).is_ok());
    assert!(regs.ebclk.ebckoen);
    assert!(matches!(clocks.ebclk.enable(&mut regs), Err(RegisterError::NotReadyToWrite("EBCLK is already enabled."))));
    assert!(clocks.ebclk.disable(&mut regs).is_ok());
    assert!(!regs.ebclk.ebckoen);
}

#[test]
fn mosc_freq_follows_last_accepted_setting() {
    let mut taken = false;
    let (mut clocks, _mstp) = Sysc::init(&mut taken).ok().unwrap();
    let mut regs = sysc_reset();
    assert_eq!(clocks.mosc.get_freq(), None);
    let c24 = MoscConfig::new(24_000_000, MoscSource::Oscillator).ok().unwrap();
    let c20 = MoscConfig::new(20_000_000, MoscSource::Oscillator).ok().unwrap();
    assert!(clocks.mosc.set_config(&mut regs, &c24).is_ok());
    assert_eq!(clocks.mosc.get_freq(), Some(24_000_000));
    // refused while MOSC runs: the frequency stays
    regs.mosc.mostp = false;
    assert!(clocks.mosc.set_config(&mut regs, &c20).is_err());
    assert_eq!(clocks.mosc.get_freq(), Some(24_000_000));
    regs.mosc.mostp = true;
    assert!(clocks.mosc.set_config(&mut regs, &c20).is_ok());
    assert_eq!(clocks.mosc.get_freq(), Some(20_000_000));
}
