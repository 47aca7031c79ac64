use ra6m5_hal::mstp::MstpRegs;
use ra6m5_hal::usb::bus::{BusState, EpDirection, EpTarget, EpType, PollResult, UsbHsBus};
use ra6m5_hal::usb::regs::{
    fifo_store, fifo_writes, FifoWrite, PipeCtr, PipeCtrs, PipeType, PipeWindow, UsbCfifoCtr,
    UsbCfifoSel, UsbDcp, UsbIntenb0, UsbIntenb1, UsbPhyset, UsbSyscfg, UsbfsRegs, UsbhsRegs,
    PID_BUF, PID_NAK, PID_STALL,
};
use ra6m5_hal::usb::{BusError, TransferStep, UsbFs, UsbHs, UsbHsConfigStep, UsbhsIntStatus};
use ra6m5_hal::RegisterError;

fn mstp_reset() -> MstpRegs {
    MstpRegs { mstpb11: true, mstpb12: true, mstpc31: true }
}

fn syscfg_reset() -> UsbSyscfg {
    UsbSyscfg { usbe: false, dprpu: false, drpd: false, dcfm: false, hse: false, scke: false }
}

fn intenb0_off() -> UsbIntenb0 {
    UsbIntenb0 { vbse: false, dvse: false, ctre: false, bempe: false, brdye: false }
}

fn intenb1_off() -> UsbIntenb1 {
    UsbIntenb1 { bchge: false, dtche: false, attche: false, signe: false, sacke: false }
}

fn dcp_reset() -> UsbDcp {
    UsbDcp { pid: PID_NAK, pbusy: false, mxps: 0, dir: false }
}

fn fs_reset() -> UsbfsRegs {
    UsbfsRegs {
        syscfg: syscfg_reset(),
        intenb0: intenb0_off(),
        intenb1: intenb1_off(),
        dcp: dcp_reset(),
        cfifosel: UsbCfifoSel { curpipe: 0, isel: false, mbw: 0 },
    }
}

fn window_reset() -> PipeWindow {
    PipeWindow { epnum: 0, dir: false, typ: PipeType::Unused, mxps: 0, iitv: 0 }
}

fn hs_reset() -> UsbhsRegs {
    let ctr = PipeCtr { pid: PID_NAK, pbusy: false };
    UsbhsRegs {
        syscfg: syscfg_reset(),
        intenb0: intenb0_off(),
        intenb1: intenb1_off(),
        dcp: dcp_reset(),
        cfifosel: UsbCfifoSel { curpipe: 0, isel: false, mbw: 0 },
        cfifoctr: UsbCfifoCtr { frdy: true, dtln: 0 },
        physet: UsbPhyset { hseb: true, clksel: 0, dirpd: true, pllreset: true },
        suspendm: false,
        plllock: false,
        pipesel: 0,
        pipes: [window_reset(); 16],
        pipe_ctr: PipeCtrs { pipe1: ctr, pipe2: ctr, pipe3: ctr },
        brdysts: 0,
    }
}

#[test]
fn fifo_writes_pack_low_byte_first() {
    assert_eq!(fifo_writes(&[0x01, 0x02, 0x03]), vec![FifoWrite::Word(0x0201), FifoWrite::Byte(0x03)]);
    assert_eq!(fifo_writes(&[0xAA, 0x55]), vec![FifoWrite::Word(0x55AA)]);
    assert_eq!(fifo_writes(&[]), Vec::<FifoWrite>::new());
}

#[test]
fn fifo_store_gives_back_packed_payload() {
    let data = [9u8, 8, 7, 6, 5];
    let w = fifo_writes(&data);
    let mut buf = [0xEEu8; 8];
    let n = fifo_store(&mut buf, &w);
    assert_eq!(n, 5);
    assert_eq!(buf, [9, 8, 7, 6, 5, 0xEE, 0xEE, 0xEE]);
}

#[test]
fn usbfs_init_once() {
    let mut taken = false;
    assert!(UsbFs::init(&mut taken).is_ok());
    assert!(UsbFs::init(&mut taken).is_err());
}

#[test]
fn usbfs_enable_connect_disconnect_disable() {
    let mut taken = false;
    let mut usb = UsbFs::init(&mut taken).ok().unwrap();
    let mut mstp_taken = false;
    let mut mstp = ra6m5_hal::mstp::Mstp::init(&mut mstp_taken).ok().unwrap();
    let mut m = mstp_reset();
    let mut r = fs_reset();

    assert!(!usb.is_enabled(&mut mstp, &m, &r));
    assert!(matches!(usb.connect(&mut mstp, &m, &mut r), Err(RegisterError::NotReadyToWrite("USBFS device is not initialized."))));
    assert!(usb.enable(&mut mstp, &mut m, &mut r).is_ok());
    assert!(!m.mstpb11);
    assert!(r.syscfg.scke && r.syscfg.usbe && !r.syscfg.dcfm);
    assert!(usb.is_enabled(&mut mstp, &m, &r));
    assert!(matches!(usb.enable(&mut mstp, &mut m, &mut r), Err(RegisterError::NotReadyToWrite("USBFS device is already enabled."))));

    // disable is refused while D+ is not pulled up
    assert!(matches!(usb.disable(&mut mstp, &mut m, &mut r), Err(RegisterError::NotReadyToWrite("USBFS device is connected."))));

    assert!(usb.connect(&mut mstp, &m, &mut r).is_ok());
    assert!(usb.is_connected(&mut mstp, &m, &r));
    assert!(usb.disconnect(&mut mstp, &m, &mut r).is_ok());
    assert!(!usb.is_connected(&mut mstp, &m, &r));
    assert!(usb.is_enabled(&mut mstp, &m, &r));

    assert!(usb.connect(&mut mstp, &m, &mut r).is_ok());
    assert!(usb.disable(&mut mstp, &mut m, &mut r).is_ok());
    assert!(m.mstpb11);
    assert!(!r.syscfg.usbe && !r.syscfg.scke);
    assert!(matches!(usb.disable(&mut mstp, &mut m, &mut r), Err(RegisterError::NotReadyToWrite("USBFS device is not enabled."))));
}

#[test]
fn usbfs_usbi_sources() {
    let mut taken = false;
    let mut usb = UsbFs::init(&mut taken).ok().unwrap();
    let mut r = fs_reset();
    assert!(!usb.is_usbi_interrupt_enabled(&r));
    assert!(usb.enable_usbi_interrupt(&mut r).is_ok());
    assert!(usb.is_usbi_interrupt_enabled(&r));
    assert!(r.intenb0.ctre && !r.intenb0.brdye);
    assert!(usb.disable_usbi_interrupt(&mut r).is_ok());
    assert!(!usb.is_usbi_interrupt_enabled(&r));
    assert!(!r.intenb0.ctre);
}

#[test]
fn usbfs_send_ep0_in() {
    let mut taken = false;
    let mut usb = UsbFs::init(&mut taken).ok().unwrap();
    let mut r = fs_reset();
    r.dcp.pid = PID_BUF;
    r.dcp.pbusy = true;
    assert!(matches!(usb.send_ep0_in(&mut r, &[1, 2]), Err(RegisterError::NotReadyToWrite("PID != NAK & Pipe is busy."))));
    assert_eq!(r.dcp.pid, PID_BUF);

    r.dcp.pbusy = false;
    let s = usb.send_ep0_in(&mut r, &[0x12, 0x34, 0x56]).ok().unwrap();
    assert_eq!(s, vec![
        TransferStep::SetDcpPid(PID_NAK),
        TransferStep::SetDcpMxps(64),
        TransferStep::SetDcpDir(false),
        TransferStep::SelectFifo(UsbCfifoSel { curpipe: 0, isel: true, mbw: 1 }),
        TransferStep::AwaitCurpipeIsel { curpipe: 0, isel: true },
        TransferStep::ClearBuffer,
        TransferStep::WriteWhenReady(FifoWrite::Word(0x3412)),
        TransferStep::WriteWhenReady(FifoWrite::Byte(0x56)),
        TransferStep::CommitBuffer,
        TransferStep::SetDcpPidClearSeq(PID_BUF),
    ]);
    assert_eq!(r.dcp.pid, PID_BUF);
    assert_eq!(r.dcp.mxps, 64);
    assert_eq!(r.cfifosel, UsbCfifoSel { curpipe: 0, isel: true, mbw: 1 });

    // PID already NAK: no NAK write first
    r.dcp.pid = PID_NAK;
    let s = usb.send_ep0_in(&mut r, &[]).ok().unwrap();
    assert_eq!(s[0], TransferStep::SetDcpMxps(64));
    assert_eq!(s.len(), 7);
}

#[test]
fn usbhs_config_refuses_unsupported_crystal_after_first_writes() {
    let mut taken = false;
    let mut usb = UsbHs::init(&mut taken).ok().unwrap();
    let mut mstp_taken = false;
    let mut mstp = ra6m5_hal::mstp::Mstp::init(&mut mstp_taken).ok().unwrap();
    let mut m = mstp_reset();
    let mut r = hs_reset();
    let (steps, res) = usb.config(&mut mstp, &mut m, &mut r, 16_000_000, 200_000_000);
    assert!(matches!(res, Err(RegisterError::InvalidValue("XTAL_HZ should be 12MHz, 20MHz or 24MHz"))));
    assert_eq!(steps.len(), 2);
    assert_eq!(steps[0], UsbHsConfigStep::SetMstpB12(false));
    assert!(!m.mstpb12);
    assert!(r.syscfg.hse && !r.syscfg.dcfm);
}

#[test]
fn usbhs_bring_up_connects() {
    let mut taken = false;
    let mut usb = UsbHs::init(&mut taken).ok().unwrap();
    let mut mstp_taken = false;
    let mut mstp = ra6m5_hal::mstp::Mstp::init(&mut mstp_taken).ok().unwrap();
    let mut m = mstp_reset();
    let mut r = hs_reset();
    let (steps, res) = usb.config(&mut mstp, &mut m, &mut r, 24_000_000, 200_000_000);
    assert!(res.is_ok());
    assert_eq!(steps.len(), 9);
    assert_eq!(steps[3], UsbHsConfigStep::Wait { ns: 1_000, iclk_hz: 200_000_000 });
    assert_eq!(steps[8], UsbHsConfigStep::AwaitPllLock { polls: 1_000_000 });
    assert_eq!(r.physet, UsbPhyset { hseb: false, clksel: 0b11, dirpd: false, pllreset: false });
    assert!(r.suspendm);

    assert!(matches!(usb.config_finish(&mut r), Err(RegisterError::NotReadyToWrite("PLL lock is timed out."))));
    r.plllock = true;
    assert!(usb.config_finish(&mut r).is_ok());
    assert!(usb.is_connected(&mut mstp, &m, &r));

    let (steps, res) = usb.config(&mut mstp, &mut m, &mut r, 24_000_000, 200_000_000);
    assert!(steps.is_empty());
    assert!(matches!(res, Err(RegisterError::NotReadyToWrite("USBHS device is already connected."))));
}

#[test]
fn usbhs_enable_refusals() {
    let mut taken = false;
    let mut usb = UsbHs::init(&mut taken).ok().unwrap();
    let mut mstp_taken = false;
    let mut mstp = ra6m5_hal::mstp::Mstp::init(&mut mstp_taken).ok().unwrap();
    let mut m = mstp_reset();
    let mut r = hs_reset();
    r.syscfg.hse = true;
    assert!(usb.enable(&mut mstp, &mut m, &mut r).is_ok());
    assert!(usb.is_enabled(&mut mstp, &m, &r));
    assert!(matches!(usb.enable(&mut mstp, &mut m, &mut r), Err(RegisterError::NotReadyToWrite("USBHS device is already enabled."))));
}

#[test]
fn usbhs_bus_poll_reports_and_acknowledges() {
    let mut taken = false;
    let mut usb = UsbHs::init(&mut taken).ok().unwrap();
    let s = UsbhsIntStatus {
        intsts0: 0x1000 | 0x0800 | 0x0100 | 0x0400 | 0x0003,
        intsts1: 0x0030 | 0x0001,
        brdysts: 0x0005,
        brdyenb: 0x0004,
        bempsts: 0x000A,
        bempenb: 0x000E,
    };
    let (ev, ack) = usb.bus_poll(&s);
    assert!(ev.reset && ev.suspend && ev.resume);
    assert_eq!(ev.ep_setup, 1);
    assert_eq!(ev.ep_out, 4);
    assert_eq!(ev.ep_in_complete, 10);
    assert_eq!(ack.brdysts_writes, vec![!0x0004u16, !0x000Au16]);
    assert_eq!(ack.intsts0, 0x0100 | 0x0400 | 0x0003);
    assert_eq!(ack.intsts1, 0x0001);

    let quiet = UsbhsIntStatus { intsts0: 0, intsts1: 0, brdysts: 0xFFFF, brdyenb: 0xFFFF, bempsts: 0, bempenb: 0 };
    let ack = usb.bus_clear_bus_events(&quiet);
    assert!(ack.brdysts_writes.is_empty());
}

#[test]
fn usbhs_pipe_configuration() {
    let mut taken = false;
    let mut usb = UsbHs::init(&mut taken).ok().unwrap();
    let mut r = hs_reset();
    usb.bus_pipe_config_bulk_out(&mut r, 2, 2, 512);
    assert_eq!(r.pipesel, 2);
    assert_eq!(r.pipes[2], PipeWindow { epnum: 2, dir: false, typ: PipeType::Bulk, mxps: 512, iitv: 0 });
    assert_eq!(r.pipe_ctr.pipe2.pid, PID_BUF);
    assert_eq!(r.cfifosel.curpipe, 2);

    usb.bus_pipe_config_interrupt_in(&mut r, 1, 1, 64, 16);
    assert_eq!(r.pipes[1], PipeWindow { epnum: 1, dir: true, typ: PipeType::Interrupt, mxps: 64, iitv: 0 });
    assert_eq!(r.pipe_ctr.pipe1.pid, PID_NAK);

    let s = usb.bus_pipe_set_stall(&mut r, 3, true, true);
    assert_eq!(s, vec![TransferStep::SetPipePid { pipe: 3, pid: PID_STALL }]);
    assert_eq!(r.pipe_ctr.pipe3.pid, PID_STALL);
    let s = usb.bus_pipe_set_stall(&mut r, 3, true, false);
    assert_eq!(s, vec![
        TransferStep::SetPipePid { pipe: 3, pid: PID_NAK },
        TransferStep::SetPipePid { pipe: 3, pid: PID_BUF },
    ]);
    assert_eq!(r.pipe_ctr.pipe3.pid, PID_BUF);
    assert_eq!(usb.bus_pipe_set_stall(&mut r, 5, false, true), vec![]);

    // pipes other than 1 to 3 have no control register here
    let before = r;
    usb.bus_pipe_nak(&mut r, 7);
    assert_eq!(r.pipe_ctr, before.pipe_ctr);

    usb.bus_ep0_reset(&mut r, 0xFF);
    assert_eq!(r.dcp.mxps, 0x7F);
    usb.bus_ep0_set_stall(&mut r, true);
    assert_eq!(r.dcp.pid, PID_STALL);
}

#[test]
fn usbhs_pipe_write_in() {
    let mut taken = false;
    let mut usb = UsbHs::init(&mut taken).ok().unwrap();
    let mut r = hs_reset();
    usb.bus_pipe_config_bulk_in(&mut r, 3, 3, 4);
    r.pipe_ctr.pipe3.pbusy = true;
    assert_eq!(usb.bus_pipe_write_in(&mut r, 3, &[1, 2]).err(), Some(BusError::WouldBlock));
    r.pipe_ctr.pipe3.pbusy = false;
    assert_eq!(usb.bus_pipe_write_in(&mut r, 3, &[1, 2, 3, 4, 5]).err(), Some(BusError::BufferOverflow));
    let (n, s) = usb.bus_pipe_write_in(&mut r, 3, &[1, 2, 3]).ok().unwrap();
    assert_eq!(n, 3);
    assert_eq!(s, vec![
        TransferStep::SelectFifo(UsbCfifoSel { curpipe: 3, isel: true, mbw: 2 }),
        TransferStep::AwaitCurpipe(3),
        TransferStep::AwaitFifoReady,
        TransferStep::ClearBuffer,
        TransferStep::Write(FifoWrite::Word(0x0201)),
        TransferStep::Write(FifoWrite::Byte(3)),
        TransferStep::CommitBuffer,
        TransferStep::SetPipePid { pipe: 3, pid: PID_BUF },
    ]);
    assert_eq!(r.pipe_ctr.pipe3.pid, PID_BUF);
    assert_eq!(r.cfifosel, UsbCfifoSel { curpipe: 3, isel: true, mbw: 2 });
    assert_eq!(usb.bus_pipe_write_in(&mut r, 9, &[1]).err(), Some(BusError::WouldBlock));
}

#[test]
fn usbhs_ep0_write_in_busy_would_block() {
    let mut taken = false;
    let mut usb = UsbHs::init(&mut taken).ok().unwrap();
    let mut r = hs_reset();
    r.dcp.pid = PID_BUF;
    r.dcp.pbusy = true;
    assert_eq!(usb.bus_ep0_write_in(&mut r, &[1]).err(), Some(BusError::WouldBlock));
    r.dcp.pbusy = false;
    let (n, s) = usb.bus_ep0_write_in(&mut r, &[7]).ok().unwrap();
    assert_eq!(n, 1);
    assert_eq!(s, vec![
        TransferStep::SetDcpPid(PID_NAK),
        TransferStep::SetDcpMxps(64),
        TransferStep::SetDcpDir(false),
        TransferStep::SelectFifo(UsbCfifoSel { curpipe: 0, isel: true, mbw: 2 }),
        TransferStep::AwaitFifoReady,
        TransferStep::ClearBuffer,
        TransferStep::WriteWhenReady(FifoWrite::Byte(7)),
        TransferStep::CommitBuffer,
        TransferStep::SetDcpPidClearSeq(PID_BUF),
    ]);
}

#[test]
fn usbhs_pipe_read_out_plan() {
    let mut taken = false;
    let mut usb = UsbHs::init(&mut taken).ok().unwrap();
    let mut r = hs_reset();
    r.pipe_ctr.pipe2.pid = PID_NAK;
    let (s, ready) = usb.bus_pipe_read_select(&mut r, 2);
    assert_eq!(ready, Err(BusError::WouldBlock));
    assert_eq!(s, vec![TransferStep::SelectPipe(2)]);
    assert_eq!(r.pipesel, 2);

    r.brdysts = 1 << 2;
    let (s, ready) = usb.bus_pipe_read_select(&mut r, 2);
    assert_eq!(ready, Ok(()));
    assert_eq!(s, vec![
        TransferStep::SelectPipe(2),
        TransferStep::SelectFifo(UsbCfifoSel { curpipe: 2, isel: false, mbw: 2 }),
        TransferStep::AwaitCurpipe(2),
        TransferStep::AwaitFifoReady,
    ]);

    r.cfifoctr.dtln = 65;
    assert_eq!(usb.bus_pipe_read_out(&mut r, 2, 64).err(), Some(BusError::BufferOverflow));
    assert_eq!(r.pipe_ctr.pipe2.pid, PID_NAK);

    r.cfifoctr.dtln = 2;
    let (n, s) = usb.bus_pipe_read_out(&mut r, 2, 64).ok().unwrap();
    assert_eq!(n, 2);
    assert_eq!(s, vec![
        TransferStep::ReadWord,
        TransferStep::ClearBuffer,
        TransferStep::SetPipePid { pipe: 2, pid: PID_BUF },
    ]);
    assert_eq!(r.pipe_ctr.pipe2.pid, PID_BUF);

    let sel = r.cfifosel;
    assert_eq!(usb.bus_pipe_clear_fifo(&mut r, 3), vec![
        TransferStep::SelectFifo(UsbCfifoSel { curpipe: 3, ..sel }),
        TransferStep::AwaitFifoReady,
        TransferStep::ClearBuffer,
    ]);
    assert_eq!(usb.bus_select_pipe(&mut r, 1), vec![TransferStep::SelectPipe(1)]);
}

#[test]
fn usbhs_ep0_read_out_plan() {
    let mut taken = false;
    let mut usb = UsbHs::init(&mut taken).ok().unwrap();
    let mut r = hs_reset();
    let s = usb.bus_ep0_read_select(&mut r);
    assert_eq!(s, vec![
        TransferStep::SelectFifo(UsbCfifoSel { curpipe: 0, isel: false, mbw: 2 }),
        TransferStep::AwaitFifoReady,
    ]);
    assert_eq!(r.cfifosel, UsbCfifoSel { curpipe: 0, isel: false, mbw: 2 });

    r.cfifoctr.dtln = 9;
    assert_eq!(usb.bus_ep0_read_out(&r, 8).err(), Some(BusError::BufferOverflow));

    r.cfifoctr.dtln = 5;
    let (n, s) = usb.bus_ep0_read_out(&r, 8).ok().unwrap();
    assert_eq!(n, 5);
    assert_eq!(s, vec![
        TransferStep::ReadWord,
        TransferStep::ReadWord,
        TransferStep::ReadByte,
        TransferStep::ClearBuffer,
    ]);

    // what the reads returned lands at the start of the buffer
    let mut buf = [0xEEu8; 8];
    let reads = [FifoWrite::Word(0x0201), FifoWrite::Word(0x0403), FifoWrite::Byte(5)];
    assert_eq!(usb.bus_fifo_read(&mut buf, &reads), 5);
    assert_eq!(buf, [1, 2, 3, 4, 5, 0xEE, 0xEE, 0xEE]);

    r.cfifoctr.dtln = 0;
    assert_eq!(usb.bus_ep0_read_out(&r, 8).ok(), Some((0, vec![TransferStep::ClearBuffer])));
}

#[test]
fn usbhs_rx_ready_and_suspend() {
    let mut taken = false;
    let mut usb = UsbHs::init(&mut taken).ok().unwrap();
    let mut r = hs_reset();
    r.brdysts = 0b100;
    assert!(usb.bus_pipe_rx_ready(&r, 2));
    assert!(!usb.bus_pipe_rx_ready(&r, 1));
    r.suspendm = true;
    usb.bus_suspend(&mut r);
    assert!(!r.suspendm);
    usb.bus_resume(&mut r);
    assert!(r.suspendm);
}

#[test]
fn bus_allocation_layout() {
    let mut bus = UsbHsBus::new(24_000_000, 200_000_000);
    assert_eq!(bus.alloc_ep(EpDirection::Out, None, EpType::Control, 64, 0), Ok(0x00));
    assert_eq!(bus.alloc_ep(EpDirection::In, None, EpType::Control, 64, 0), Err(BusError::InvalidEndpoint));
    assert_eq!(bus.alloc_ep(EpDirection::In, Some(0x81), EpType::Control, 64, 0), Err(BusError::InvalidEndpoint));
    assert_eq!(bus.alloc_ep(EpDirection::In, None, EpType::Interrupt, 64, 16), Ok(0x81));
    assert_eq!(bus.alloc_ep(EpDirection::In, None, EpType::Interrupt, 64, 16), Err(BusError::InvalidEndpoint));
    assert_eq!(bus.alloc_ep(EpDirection::Out, Some(0x05), EpType::Bulk, 512, 0), Err(BusError::InvalidEndpoint));
    assert_eq!(bus.alloc_ep(EpDirection::Out, Some(0x02), EpType::Bulk, 512, 0), Ok(0x02));
    assert_eq!(bus.alloc_ep(EpDirection::In, None, EpType::Bulk, 512, 0), Ok(0x83));
    assert_eq!(bus.alloc_ep(EpDirection::Out, None, EpType::Interrupt, 8, 1), Err(BusError::Unsupported));
    assert_eq!(bus.alloc_ep(EpDirection::In, None, EpType::Isochronous, 8, 1), Err(BusError::Unsupported));

    // fixed endpoints start stalled
    assert!(bus.is_stalled(0x81));
    assert!(!bus.is_stalled(0x00));
    assert!(!bus.is_stalled(0x04));

    assert!(bus.enable());
    assert!(!bus.enable());
    assert_eq!(bus.alloc_ep(EpDirection::Out, None, EpType::Control, 64, 0), Err(BusError::InvalidState));
}

#[test]
fn bus_control_packet_size_limit() {
    let mut state = BusState::new();
    assert_eq!(state.alloc_control(EpDirection::Out, 65), Err(BusError::Unsupported));
    assert_eq!(state.alloc_control(EpDirection::In, 64), Ok(0x80));
    assert_eq!(state.find_alloc(0x80).map(|e| e.max_packet_size), Some(64));
}

#[test]
fn bus_read_write_targets() {
    let mut taken = false;
    let mut usb = UsbHs::init(&mut taken).ok().unwrap();
    let mut r = hs_reset();
    let mut bus = UsbHsBus::new(24_000_000, 200_000_000);
    assert_eq!(bus.alloc_ep(EpDirection::Out, None, EpType::Control, 8, 0), Ok(0x00));
    assert_eq!(bus.alloc_ep(EpDirection::Out, None, EpType::Bulk, 512, 0), Ok(0x02));
    assert_eq!(bus.alloc_ep(EpDirection::In, None, EpType::Bulk, 4, 0), Ok(0x83));

    assert_eq!(bus.read(0x02, 511), Err(BusError::BufferOverflow));
    assert_eq!(bus.read(0x02, 512), Ok(EpTarget::Pipe(2)));
    assert_eq!(bus.read(0x00, 8), Ok(EpTarget::Ep0));
    assert_eq!(bus.read(0x05, 512), Err(BusError::InvalidEndpoint));

    assert_eq!(bus.write(&mut usb, &mut r, 0x07, &[1]).err(), Some(BusError::InvalidEndpoint));
    assert_eq!(bus.write(&mut usb, &mut r, 0x83, &[1, 2, 3, 4, 5]).err(), Some(BusError::BufferOverflow));
    let (n, s) = bus.write(&mut usb, &mut r, 0x00, &[1, 2]).ok().unwrap();
    assert_eq!(n, 2);
    // PID was NAK already: no NAK write first
    assert_eq!(s[0], TransferStep::SetDcpMxps(64));
    assert_eq!(s[4], TransferStep::ClearBuffer);
    assert_eq!(s[5], TransferStep::WriteWhenReady(FifoWrite::Word(0x0201)));
    assert_eq!(s.len(), 8);

    let s = bus.set_stalled(&mut usb, &mut r, 0x83, true);
    assert_eq!(s, vec![TransferStep::SetPipePid { pipe: 3, pid: PID_STALL }]);
    assert!(bus.is_stalled(0x83));
    assert_eq!(r.pipe_ctr.pipe3.pid, PID_STALL);
    let s = bus.set_stalled(&mut usb, &mut r, 0x83, false);
    assert_eq!(s.len(), 2);
    let s = bus.set_stalled(&mut usb, &mut r, 0x00, true);
    assert_eq!(s, vec![TransferStep::SetDcpPid(PID_STALL)]);
    assert_eq!(r.dcp.pid, PID_STALL);
    assert!(!bus.is_stalled(0x83));
    assert_eq!(r.pipe_ctr.pipe3.pid, PID_BUF);
}

#[test]
fn bus_reset_clears_stalls_and_configures_pipes() {
    let mut taken = false;
    let mut usb = UsbHs::init(&mut taken).ok().unwrap();
    let mut r = hs_reset();
    let mut bus = UsbHsBus::new(24_000_000, 200_000_000);
    assert_eq!(bus.alloc_ep(EpDirection::In, None, EpType::Interrupt, 64, 16), Ok(0x81));
    assert!(bus.is_stalled(0x81));
    let s = UsbhsIntStatus { intsts0: 0x1000, intsts1: 0, brdysts: 0, brdyenb: 0, bempsts: 0, bempenb: 0 };
    let sel = r.cfifosel;
    let (ack, steps) = bus.reset(&mut usb, &mut r, &s);
    assert_eq!(ack.intsts0, 0);
    // endpoint 0, then pipe 2 (bulk OUT): NAK, endpoint, buffer clear, BUF
    assert_eq!(steps[..3].to_vec(), vec![
        TransferStep::SetDcpMxps(64),
        TransferStep::SetDcpDir(false),
        TransferStep::ResetDcpCtr(PID_NAK),
    ]);
    let pipe2 = vec![
        TransferStep::SelectPipe(2),
        TransferStep::SetPipePid { pipe: 2, pid: PID_NAK },
        TransferStep::SelectPipe(2),
        TransferStep::WritePipeCfg { epnum: 2, dir: false, typ: PipeType::Bulk },
        TransferStep::WritePipeMaxp(512),
        TransferStep::SelectFifo(UsbCfifoSel { curpipe: 2, ..sel }),
        TransferStep::AwaitFifoReady,
        TransferStep::ClearBuffer,
        TransferStep::SetPipePid { pipe: 2, pid: PID_BUF },
    ];
    assert!(steps.windows(pipe2.len()).any(|w| w == pipe2.as_slice()));
    assert_eq!(steps.iter().filter(|s| **s == TransferStep::ClearBuffer).count(), 3);
    assert!(!bus.is_stalled(0x81));
    assert_eq!(r.dcp.mxps, 64);
    assert_eq!(r.pipes[1].typ, PipeType::Interrupt);
    assert_eq!(r.pipes[2], PipeWindow { epnum: 2, dir: false, typ: PipeType::Bulk, mxps: 512, iitv: 0 });
    assert_eq!(r.pipes[3], PipeWindow { epnum: 3, dir: true, typ: PipeType::Bulk, mxps: 512, iitv: 0 });
    assert_eq!(r.pipe_ctr.pipe2.pid, PID_BUF);
}

#[test]
fn bus_poll_priority() {
    let mut taken = false;
    let mut usb = UsbHs::init(&mut taken).ok().unwrap();
    let bus = UsbHsBus::new(24_000_000, 200_000_000);
    let reset_and_resume = UsbhsIntStatus { intsts0: 0x1000, intsts1: 0x20, brdysts: 0, brdyenb: 0, bempsts: 0, bempenb: 0 };
    assert_eq!(bus.poll(&mut usb, &reset_and_resume).0, PollResult::Reset);
    let setup = UsbhsIntStatus { intsts0: 0x0800, intsts1: 0, brdysts: 0, brdyenb: 0, bempsts: 0, bempenb: 0 };
    assert_eq!(bus.poll(&mut usb, &setup).0, PollResult::Data { ep_out: 0, ep_in_complete: 0, ep_setup: 1 });
    let none = UsbhsIntStatus { intsts0: 0, intsts1: 0, brdysts: 0, brdyenb: 0, bempsts: 0, bempenb: 0 };
    assert_eq!(bus.poll(&mut usb, &none).0, PollResult::NoEvent);
    assert_eq!(bus.force_reset(), Ok(()));
}
