use ra6m5_hal::flad::{current_fclk_mhz, set_fclk_mhz, FladRegs};
use ra6m5_hal::register_protection::{
    battery_write_enable, battery_write_is_enabled, clock_write_enable, clock_write_is_enabled,
    lvd_write_enable, lvd_write_is_enabled, security_write_enable, security_write_is_enabled,
};
use ra6m5_hal::sysc::{
    CkoRegs, EbclkRegs, HocoRegs, LocoRegs, MocoRegs, MoscRegs, OstdRegs, PeriphClkRegs, PllRegs,
    SckRegs, SoscRegs, SyscRegs, TrckRegs,
};

fn sysc_reset() -> SyscRegs {
    let pll = PllRegs { stp: true, idiv: 0, srcsel: 0, mul: 0x13, sf: false };
    let periph = PeriphClkRegs { sel: 1, sreq: false, div: 0 };
    SyscRegs {
        prcr: 0,
        sck: SckRegs { cksel: 1, pckd: 2, pckc: 2, pckb: 2, pcka: 2, bck: 2, ick: 2, fck: 2 },
        ostd: OstdRegs { ostdie: false, ostde: false, ostdf: false },
        pll,
        pll2: pll,
        mosc: MoscRegs { mostp: true, moscsf: false, modrv: 0, mosel: 0, msts: 5 },
        sosc: SoscRegs { sostp: true, sodrv: 0 },
        hoco: HocoRegs { hcstp: true, hocosf: false, hcfrq0: 0, fllen: false, fllcntl: 0, hocoutrm: 0 },
        moco: MocoRegs { mcstp: false, mocoutrm: 0 },
        loco: LocoRegs { lcstp: false, locoutrm: 0 },
        ebclk: EbclkRegs { ebckoen: false, bclkdiv: 0 },
        cko: CkoRegs { ckoen: false, ckosel: 1, ckodiv: 0 },
        usbck: periph,
        octack: periph,
        canfdck: periph,
        usb60ck: periph,
        cecck: periph,
        trck: TrckRegs { trcken: false, trck: 1 },
    }
}

#[test]
fn protection_bits_are_independent() {
    let mut r = sysc_reset();
    clock_write_enable(&mut r, true);
    lvd_write_enable(&mut r, true);
    assert!(clock_write_is_enabled(&r));
    assert!(lvd_write_is_enabled(&r));
    assert!(!battery_write_is_enabled(&r));
    assert!(!security_write_is_enabled(&r));
    assert_eq!(r.prcr, 0x09);
    battery_write_enable(&mut r, true);
    security_write_enable(&mut r, true);
    assert_eq!(r.prcr, 0x1B);
    clock_write_enable(&mut r, false);
    assert!(!clock_write_is_enabled(&r));
    assert!(battery_write_is_enabled(&r) && lvd_write_is_enabled(&r) && security_write_is_enabled(&r));
    assert_eq!(r.prcr, 0x1A);
}

#[test]
fn flash_clock_setting_reads_back() {
    let mut r = FladRegs { fckmhz: 0 };
    assert_eq!(set_fclk_mhz(&mut r, 50), 50);
    assert_eq!(current_fclk_mhz(&r), 50);
}
