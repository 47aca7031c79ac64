use ra6m5_hal::fcache::{Fcache, FcacheRegs, FlashWait};
use ra6m5_hal::mstp::MstpRegs;
use ra6m5_hal::sysc::clock::{ClockSwitchStep, ClocksConfig, ClocksDiv, ClocksSource};
use ra6m5_hal::sysc::{
    CkoRegs, EbclkRegs, HocoRegs, LocoRegs, MocoRegs, MoscRegs, OstdRegs, PeriphClkRegs, PllRegs,
    SckRegs, SoscRegs, SyscRegs, Sysc, TrckRegs,
};
use ra6m5_hal::RegisterError;

fn sysc_reset() -> SyscRegs {
    let pll = PllRegs { stp: true, idiv: 0, srcsel: 0, mul: 0x13, sf: false };
    let periph = PeriphClkRegs { sel: 1, sreq: false, div: 0 };
    SyscRegs {
        prcr: 0,
        sck: SckRegs { cksel: 1, pckd: 2, pckc: 2, pckb: 2, pcka: 2, bck: 2, ick: 2, fck: 2 },
        ostd: OstdRegs { ostdie: false, ostde: false, ostdf: false },
        pll,
        pll2: pll,
        mosc: MoscRegs { mostp: true, moscsf: false, modrv: 0, mosel: 0, msts: 5 },
        sosc: SoscRegs { sostp: true, sodrv: 0 },
        hoco: HocoRegs { hcstp: true, hocosf: false, hcfrq0: 0, fllen: false, fllcntl: 0, hocoutrm: 0 },
        moco: MocoRegs { mcstp: false, mocoutrm: 0 },
        loco: LocoRegs { lcstp: false, locoutrm: 0 },
        ebclk: EbclkRegs { ebckoen: false, bclkdiv: 0 },
        cko: CkoRegs { ckoen: false, ckosel: 1, ckodiv: 0 },
        usbck: periph,
        octack: periph,
        canfdck: periph,
        usb60ck: periph,
        cecck: periph,
        trck: TrckRegs { trcken: false, trck: 1 },
    }
}


#[test]
fn sysc_init_once() {
    let mut taken = false;
    assert!(Sysc::init(&mut taken).is_ok());
    assert!(Sysc::init(&mut taken).is_err());
}

#[test]
fn reset_clock_is_moco_divided_by_four() {
    let mut taken = false;
    let (clocks, _mstp) = Sysc::init(&mut taken).ok().unwrap();
    let regs = sysc_reset();
    let f = clocks.get_freqs();
    assert_eq!(f.ick, 2_000_000);
    assert_eq!(f.pckb, 2_000_000);
    assert_eq!(clocks.get_source(&regs), Some(ClocksSource::Moco));
    assert_eq!(clocks.get_ick_div(&regs), Some(ClocksDiv::Div4));
}

#[test]
fn reset_state_after_init() {
    let mut taken = false;
    let (clocks, _mstp) = Sysc::init(&mut taken).ok().unwrap();
    let f = clocks.get_freqs();
    assert_eq!((f.pckd, f.pckc, f.pcka, f.bck, f.fck), (2_000_000, 2_000_000, 2_000_000, 2_000_000, 2_000_000));
    assert!(clocks.is_adc12_available());
    assert!(!clocks.is_canfd_available());
    assert!(!clocks.is_etherc_available());
    assert_eq!(clocks.mosc.get_freq(), None);
    assert_eq!(clocks.pll.get_freq(), None);
    assert_eq!(clocks.pll2.get_freq(), None);
}

#[test]
fn config_from_moco_divides_each_clock() {
    let mut taken = false;
    let (clocks, _mstp) = Sysc::init(&mut taken).ok().unwrap();
    let regs = sysc_reset();
    let c = ClocksConfig::new(
        &clocks.moco, &regs,
        ClocksDiv::Div1, ClocksDiv::Div1, ClocksDiv::Div2, ClocksDiv::Div2, ClocksDiv::Div1,
        ClocksDiv::Div2, ClocksDiv::Div1, false, false, false,
    ).ok().unwrap();
    assert_eq!(c.ick(), 8_000_000);
    assert_eq!(c.pcka(), 8_000_000);
    assert_eq!(c.pckb(), 4_000_000);
    assert_eq!(c.pckc(), 4_000_000);
    assert_eq!(c.pckd(), 8_000_000);
    assert_eq!(c.fck(), 4_000_000);
    assert_eq!(c.bck(), 8_000_000);
    assert_eq!(c.source(), ClocksSource::Moco);
}

#[test]
fn config_refuses_clock_order_violation() {
    let mut taken = false;
    let (clocks, _mstp) = Sysc::init(&mut taken).ok().unwrap();
    let regs = sysc_reset();
    // ICLK = 4 MHz below PCLKA = 8 MHz
    let r = ClocksConfig::new(
        &clocks.moco, &regs,
        ClocksDiv::Div2, ClocksDiv::Div1, ClocksDiv::Div2, ClocksDiv::Div2, ClocksDiv::Div1,
        ClocksDiv::Div2, ClocksDiv::Div2, false, false, false,
    );
    assert!(matches!(r, Err(RegisterError::InvalidValue("FOLLOW THIS RULE: ICLK >= PCLKA >= PCLKB"))));
    // CANFD needs PCLKA:PCLKB = 2:1
    let r = ClocksConfig::new(
        &clocks.moco, &regs,
        ClocksDiv::Div1, ClocksDiv::Div1, ClocksDiv::Div1, ClocksDiv::Div1, ClocksDiv::Div1,
        ClocksDiv::Div1, ClocksDiv::Div1, false, true, false,
    );
    assert!(matches!(r, Err(RegisterError::InvalidValue("FOLLOW THIS RULE: PCLKA:PCLKB = 2:1"))));
}

#[test]
fn set_config_switches_dividers_and_relocks() {
    let mut taken = false;
    let (mut clocks, mut mstp) = Sysc::init(&mut taken).ok().unwrap();
    let mut regs = sysc_reset();
    let mut mstp_regs = MstpRegs { mstpb11: true, mstpb12: true, mstpc31: true };
    let mut fc_taken = false;
    let mut fcache = Fcache::init(&mut fc_taken).ok().unwrap();
    let mut fcache_regs = FcacheRegs { flwt: 0 };
    let c = ClocksConfig::new(
        &clocks.moco, &regs,
        ClocksDiv::Div1, ClocksDiv::Div1, ClocksDiv::Div2, ClocksDiv::Div2, ClocksDiv::Div1,
        ClocksDiv::Div2, ClocksDiv::Div1, false, false, false,
    ).ok().unwrap();
    let steps = clocks.set_config(&c, &mut regs, &mut mstp, &mut mstp_regs, &mut fcache, &mut fcache_regs).ok().unwrap();
    // ICLK rises from 2 MHz to 8 MHz: the flash wait is set first, and the source
    // and dividers are written while the protection is lifted
    assert_eq!(steps[0], ClockSwitchStep::SetFlashWait(FlashWait::Wait0));
    assert_eq!(steps[1], ClockSwitchStep::SetPrc0(true));
    assert_eq!(steps[steps.len() - 1], ClockSwitchStep::SetPrc0(false));
    assert!(steps[2..steps.len() - 1].iter().all(|s| !matches!(s, ClockSwitchStep::SetPrc0(_))));
    assert_eq!(regs.prcr, 0);
    assert_eq!(regs.sck.ick, ClocksDiv::Div1.bits());
    assert_eq!(regs.sck.pckb, ClocksDiv::Div2.bits());
    assert_eq!(regs.sck.cksel, ClocksSource::Moco.bits());
    assert_eq!(clocks.get_freqs().ick, 8_000_000);
    assert_eq!(mstp_regs, MstpRegs { mstpb11: true, mstpb12: true, mstpc31: true });
    assert_eq!(fcache.get_flash_wait(&fcache_regs), Some(FlashWait::from_iclk(8_000_000).unwrap()));
}

#[test]
fn clock_codes_round_trip() {
    for d in [ClocksDiv::Div1, ClocksDiv::Div2, ClocksDiv::Div4, ClocksDiv::Div8, ClocksDiv::Div16, ClocksDiv::Div32, ClocksDiv::Div64] {
        assert_eq!(ClocksDiv::from_u8(d.bits()), Some(d));
    }
    assert_eq!(ClocksDiv::from_u8(7), None);
    assert_eq!(ClocksDiv::Div16.value(), 16);
}

#[test]
fn flash_wait_follows_iclk() {
    assert_eq!(FlashWait::from_iclk(50_000_000), Some(FlashWait::Wait0));
    assert_eq!(FlashWait::from_iclk(50_000_001), Some(FlashWait::Wait1));
    assert_eq!(FlashWait::from_iclk(150_000_000), Some(FlashWait::Wait2));
    assert_eq!(FlashWait::from_iclk(200_000_000), Some(FlashWait::Wait3));
    assert_eq!(FlashWait::from_iclk(200_000_001), None);
    assert_eq!(FlashWait::from_u8(FlashWait::Wait2.bits()), Some(FlashWait::Wait2));
}
