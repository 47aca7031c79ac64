//! USB full-speed and high-speed device controllers.
//!
//! Each operation works on a model of the controller's registers
//! ([`regs::UsbfsRegs`], [`regs::UsbhsRegs`]) and of the module-stop bits; the
//! caller writes the changed fields to the hardware. Where the hardware must be
//! waited on between writes, an operation hands back the writes and waits in
//! order.
use vstd::prelude::*;

use core::marker::PhantomData;

use crate::mstp::{Mstp, MstpRegs};
use crate::{claim_once, InitError, RegisterError};
use crate::usb::regs::{
    fifo_writes, spec_fifo_bytes, spec_fifo_writes, FifoWrite, PipeCtr, PipeCtrs, PipeType, PipeWindow, UsbCfifoSel,
    UsbDcp, UsbIntenb0, UsbIntenb1, UsbPhyset, UsbSyscfg, UsbfsRegs, UsbhsRegs, FS_MBW_16,
    HS_MBW_32, PID_BUF, PID_NAK, PID_STALL,
};

pub mod bus;
pub mod descriptor;
pub mod interrupt;
pub mod regs;

verus! {

/// Marks the full-speed controller (USBFS).
pub struct FullSpeed;

/// Marks the high-speed controller (USBHS).
pub struct HighSpeed;

/// Handle of a USB controller.
pub struct UsbPeripheral<S> {
    _s: PhantomData<S>,
}

/// Handle of the full-speed controller.
pub type UsbFs = UsbPeripheral<FullSpeed>;

/// Handle of the high-speed controller.
pub type UsbHs = UsbPeripheral<HighSpeed>;

impl<S> UsbPeripheral<S> {
    /// Nothing to do between transfers: events are collected by the interrupt
    /// handler and by `bus_poll`.
    pub fn poll(&mut self) {
    }
}

// ---------------------------------------------------------------------------
// Transfer steps
// ---------------------------------------------------------------------------

/// One register access or wait of a transfer, in the order the caller performs
/// them on the controller.
#[derive(Copy, Clone, Debug, PartialEq, Eq, Structural)]
pub enum TransferStep {
    /// Write DCPCTR.PID.
    SetDcpPid(u8),
    /// Write DCPCTR with this PID and SQCLR = 1 (the data toggle starts at DATA0).
    SetDcpPidClearSeq(u8),
    /// Write DCPMAXP.MXPS.
    SetDcpMxps(u8),
    /// Write DCPCFG.DIR.
    SetDcpDir(bool),
    /// Write PIPEnCTR.PID of pipe 1, 2 or 3.
    SetPipePid { pipe: u8, pid: u8 },
    /// Write DCPCTR with this PID, SQCLR = 1 and SUREQCLR = 1.
    ResetDcpCtr(u8),
    /// Write PIPESEL and wait until it reads back this pipe.
    SelectPipe(u8),
    /// Write PIPECFG of the selected pipe: endpoint number, direction (1: IN),
    /// transfer type.
    WritePipeCfg { epnum: u8, dir: bool, typ: PipeType },
    /// Write PIPEMAXP.MXPS of the selected pipe.
    WritePipeMaxp(u16),
    /// Write PIPEPERI.IITV of the selected pipe.
    WritePipePeri(u8),
    /// Write CFIFOSEL.
    SelectFifo(UsbCfifoSel),
    /// Wait until CFIFOSEL.CURPIPE reads this pipe.
    AwaitCurpipe(u8),
    /// Wait until CFIFOSEL.CURPIPE reads this pipe and ISEL reads this value.
    AwaitCurpipeIsel { curpipe: u8, isel: bool },
    /// Wait until CFIFOCTR.FRDY reads 1.
    AwaitFifoReady,
    /// Set CFIFOCTR.BCLR: empty the buffer of the selected pipe.
    ClearBuffer,
    /// Set CFIFOCTR.BVAL: hand the written buffer to the bus.
    CommitBuffer,
    /// Perform this FIFO write.
    Write(FifoWrite),
    /// Wait until CFIFOCTR.FRDY reads 1, then perform this FIFO write.
    WriteWhenReady(FifoWrite),
    /// Read a 16-bit word from CFIFO: two received bytes, the first in the low byte.
    ReadWord,
    /// Read a single received byte from CFIFOL.
    ReadByte,
}

/// The step that performs the FIFO write `w`, waiting for FRDY first or not.
pub open spec fn spec_write_step(w: FifoWrite, wait: bool) -> TransferStep {
    if wait {
        TransferStep::WriteWhenReady(w)
    } else {
        TransferStep::Write(w)
    }
}

/// The steps that write `data` into the selected FIFO, two bytes per access.
pub open spec fn spec_write_steps(data: Seq<u8>, wait: bool) -> Seq<TransferStep> {
    spec_fifo_writes(data).map_values(|w: FifoWrite| spec_write_step(w, wait))
}

/// The steps that read `n` received bytes from the selected FIFO: a word per two
/// bytes and a single byte read for a last byte that has no pair.
pub open spec fn spec_read_steps(n: nat) -> Seq<TransferStep> {
    Seq::new(
        ((n + 1) / 2) as nat,
        |k: int| if 2 * k + 1 < n { TransferStep::ReadWord } else { TransferStep::ReadByte },
    )
}

/// DCPCTR.PID is first set to NAK when it is not NAK.
pub open spec fn spec_nak_first(pid: u8) -> Seq<TransferStep> {
    if pid != PID_NAK {
        seq![TransferStep::SetDcpPid(PID_NAK)]
    } else {
        Seq::empty()
    }
}

/// The steps of a control IN data stage on pipe 0 whose DCPCTR.PID was `pid`:
/// NAK first when needed, MXPS = 64, DIR = 0, CFIFO on pipe 0 for writing with
/// access width `mbw`, the wait `await_sel` on that selection, BCLR, the payload
/// writes each after FRDY, BVAL, and PID = BUF with SQCLR.
pub open spec fn spec_ep0_in_steps(pid: u8, mbw: u8, await_sel: TransferStep, data: Seq<u8>) -> Seq<TransferStep> {
    spec_nak_first(pid) + seq![
        TransferStep::SetDcpMxps(64),
        TransferStep::SetDcpDir(false),
        TransferStep::SelectFifo(spec_ep0_in_cfifosel(mbw)),
        await_sel,
        TransferStep::ClearBuffer,
    ] + spec_write_steps(data, true) + seq![
        TransferStep::CommitBuffer,
        TransferStep::SetDcpPidClearSeq(PID_BUF),
    ]
}

/// USBFS waits until CFIFOSEL reads back pipe 0 for writing, and writes 16 bits wide.
pub open spec fn spec_fs_ep0_in_steps(pid: u8, data: Seq<u8>) -> Seq<TransferStep> {
    spec_ep0_in_steps(pid, FS_MBW_16, TransferStep::AwaitCurpipeIsel { curpipe: 0, isel: true }, data)
}

/// USBHS waits for FRDY after the selection, and writes 32 bits wide.
pub open spec fn spec_hs_ep0_in_steps(pid: u8, data: Seq<u8>) -> Seq<TransferStep> {
    spec_ep0_in_steps(pid, HS_MBW_32, TransferStep::AwaitFifoReady, data)
}

/// Appends the write steps of `data` to `steps`.
fn push_write_steps(steps: &mut Vec<TransferStep>, data: &[u8], wait: bool)
    ensures
        final(steps)@ == old(steps)@ + spec_write_steps(data@, wait),
{
    let w = fifo_writes(data);
    let ghost start = steps@;
    let ghost all = spec_write_steps(data@, wait);
    let mut i: usize = 0;
    while i < w.len()
        invariant
            i <= w@.len(),
            w@ == spec_fifo_writes(data@),
            all == spec_write_steps(data@, wait),
            all.len() == w@.len(),
            steps@ == start + all.take(i as int),
        decreases w@.len() - i,
    {
        let s = if wait { TransferStep::WriteWhenReady(w[i]) } else { TransferStep::Write(w[i]) };
        assert(s == all[i as int]);
        steps.push(s);
        i = i + 1;
        assert(all.take(i as int) =~= all.take(i as int - 1).push(s));
    }
    assert(all.take(i as int) =~= all);
}

/// The steps of a control IN data stage, as `spec_ep0_in_steps` gives them.
fn ep0_in_steps(pid: u8, mbw: u8, await_sel: TransferStep, data: &[u8]) -> (v: Vec<TransferStep>)
    ensures
        v@ == spec_ep0_in_steps(pid, mbw, await_sel, data@),
{
    let mut v: Vec<TransferStep> = Vec::new();
    if pid != PID_NAK {
        v.push(TransferStep::SetDcpPid(PID_NAK));
    }
    let ghost p0 = v@;
    v.push(TransferStep::SetDcpMxps(64));
    v.push(TransferStep::SetDcpDir(false));
    v.push(TransferStep::SelectFifo(UsbCfifoSel { curpipe: 0, isel: true, mbw }));
    v.push(await_sel);
    v.push(TransferStep::ClearBuffer);
    let ghost p1 = v@;
    push_write_steps(&mut v, data, true);
    let ghost p2 = v@;
    v.push(TransferStep::CommitBuffer);
    v.push(TransferStep::SetDcpPidClearSeq(PID_BUF));
    proof {
        assert(p0 =~= spec_nak_first(pid));
        assert(p1 =~= spec_nak_first(pid) + seq![
            TransferStep::SetDcpMxps(64),
            TransferStep::SetDcpDir(false),
            TransferStep::SelectFifo(spec_ep0_in_cfifosel(mbw)),
            await_sel,
            TransferStep::ClearBuffer,
        ]);
        assert(v@ =~= p2 + seq![TransferStep::CommitBuffer, TransferStep::SetDcpPidClearSeq(PID_BUF)]);
    }
    v
}

/// The steps that read `n` received bytes, as `spec_read_steps` gives them.
fn read_steps(n: usize) -> (v: Vec<TransferStep>)
    ensures
        v@ == spec_read_steps(n as nat),
{
    let mut v: Vec<TransferStep> = Vec::new();
    let mut i: usize = 0;
    while i < n
        invariant
            i <= n,
            i % 2 == 0 || i == n,
            v@.len() == (i + 1) / 2,
            forall|k: int| 0 <= k < v@.len() ==> v@[k] == #[trigger] spec_read_steps(n as nat)[k],
        decreases n - i,
    {
        if i + 1 < n {
            v.push(TransferStep::ReadWord);
            i = i + 2;
        } else {
            v.push(TransferStep::ReadByte);
            i = i + 1;
        }
    }
    assert(v@ =~= spec_read_steps(n as nat));
    v
}

/// The PID write of pipe 1, 2 or 3; other pipes have no PIPEnCTR here.
pub open spec fn spec_pid_steps(pipe: u8, pid: u8) -> Seq<TransferStep> {
    if pipe == 1 || pipe == 2 || pipe == 3 {
        seq![TransferStep::SetPipePid { pipe: pipe, pid: pid }]
    } else {
        Seq::empty()
    }
}

/// The steps of setting the endpoint of `pipe`: select it, then PIPECFG
/// (endpoint number in four bits, direction, type) and PIPEMAXP (eleven bits).
pub open spec fn spec_set_ep_steps(pipe: u8, ep_num: u8, in_dir: bool, typ: PipeType, mxps: u16) -> Seq<TransferStep> {
    seq![
        TransferStep::SelectPipe(pipe),
        TransferStep::WritePipeCfg { epnum: ep_num & 0xf, dir: in_dir, typ: typ },
        TransferStep::WritePipeMaxp(mxps & 0x7ff),
    ]
}

/// The steps of setting the interval of `pipe`: select it, then PIPEPERI.IITV
/// (three bits).
pub open spec fn spec_set_interval_steps(pipe: u8, interval: u8) -> Seq<TransferStep> {
    seq![TransferStep::SelectPipe(pipe), TransferStep::WritePipePeri(interval & 7)]
}

/// The steps of clearing the buffer of `pipe`: CFIFOSEL.CURPIPE = `pipe` (the
/// rest of `sel` kept), a wait for FRDY, BCLR.
pub open spec fn spec_clear_fifo_steps(pipe: u8, sel: UsbCfifoSel) -> Seq<TransferStep> {
    seq![
        TransferStep::SelectFifo(UsbCfifoSel { curpipe: pipe & 0xf, ..sel }),
        TransferStep::AwaitFifoReady,
        TransferStep::ClearBuffer,
    ]
}

/// The steps of resetting the default control pipe: MXPS (seven bits), DIR = 0,
/// then DCPCTR with PID = NAK, SQCLR and SUREQCLR.
pub open spec fn spec_ep0_reset_steps(max_packet_size: u8) -> Seq<TransferStep> {
    seq![
        TransferStep::SetDcpMxps(max_packet_size & 0x7f),
        TransferStep::SetDcpDir(false),
        TransferStep::ResetDcpCtr(PID_NAK),
    ]
}

/// Configuring an interrupt IN pipe: select, NAK, endpoint, interval, buffer clear.
pub open spec fn spec_config_interrupt_in_steps(pipe: u8, ep_num: u8, mxps: u16, interval: u8, sel: UsbCfifoSel) -> Seq<TransferStep> {
    seq![TransferStep::SelectPipe(pipe)] + spec_pid_steps(pipe, PID_NAK)
        + spec_set_ep_steps(pipe, ep_num, true, PipeType::Interrupt, mxps)
        + spec_set_interval_steps(pipe, interval) + spec_clear_fifo_steps(pipe, sel)
}

/// Configuring a bulk OUT pipe: select, NAK, endpoint, buffer clear, BUF.
pub open spec fn spec_config_bulk_out_steps(pipe: u8, ep_num: u8, mxps: u16, sel: UsbCfifoSel) -> Seq<TransferStep> {
    seq![TransferStep::SelectPipe(pipe)] + spec_pid_steps(pipe, PID_NAK)
        + spec_set_ep_steps(pipe, ep_num, false, PipeType::Bulk, mxps)
        + spec_clear_fifo_steps(pipe, sel) + spec_pid_steps(pipe, PID_BUF)
}

/// Configuring a bulk IN pipe: select, NAK, endpoint, buffer clear.
pub open spec fn spec_config_bulk_in_steps(pipe: u8, ep_num: u8, mxps: u16, sel: UsbCfifoSel) -> Seq<TransferStep> {
    seq![TransferStep::SelectPipe(pipe)] + spec_pid_steps(pipe, PID_NAK)
        + spec_set_ep_steps(pipe, ep_num, true, PipeType::Bulk, mxps)
        + spec_clear_fifo_steps(pipe, sel)
}

fn push_pid_step(s: &mut Vec<TransferStep>, pipe: u8, pid: u8)
    ensures
        final(s)@ == old(s)@ + spec_pid_steps(pipe, pid),
{
    if pipe == 1 || pipe == 2 || pipe == 3 {
        s.push(TransferStep::SetPipePid { pipe, pid });
    }
    assert(s@ =~= old(s)@ + spec_pid_steps(pipe, pid));
}

fn push_set_ep_steps(s: &mut Vec<TransferStep>, pipe: u8, ep_num: u8, in_dir: bool, typ: PipeType, mxps: u16)
    ensures
        final(s)@ == old(s)@ + spec_set_ep_steps(pipe, ep_num, in_dir, typ, mxps),
{
    s.push(TransferStep::SelectPipe(pipe));
    s.push(TransferStep::WritePipeCfg { epnum: ep_num & 0xf, dir: in_dir, typ });
    s.push(TransferStep::WritePipeMaxp(mxps & 0x7ff));
    assert(s@ =~= old(s)@ + spec_set_ep_steps(pipe, ep_num, in_dir, typ, mxps));
}

fn push_clear_fifo_steps(s: &mut Vec<TransferStep>, pipe: u8, sel: UsbCfifoSel)
    ensures
        final(s)@ == old(s)@ + spec_clear_fifo_steps(pipe, sel),
{
    s.push(TransferStep::SelectFifo(UsbCfifoSel { curpipe: pipe & 0xf, ..sel }));
    s.push(TransferStep::AwaitFifoReady);
    s.push(TransferStep::ClearBuffer);
    assert(s@ =~= old(s)@ + spec_clear_fifo_steps(pipe, sel));
}

// ---------------------------------------------------------------------------
// USBFS
// ---------------------------------------------------------------------------

/// USBFS runs as a device: its module is started (MSTPB11 = 0), its clock is
/// enabled, the module is enabled and device mode is selected.
pub open spec fn spec_fs_enabled(mstp: MstpRegs, r: UsbfsRegs) -> bool {
    !mstp.mstpb11 && r.syscfg.scke && r.syscfg.usbe && !r.syscfg.dcfm
}

/// USBFS runs as a device and pulls D+ up.
pub open spec fn spec_fs_connected(mstp: MstpRegs, r: UsbfsRegs) -> bool {
    spec_fs_enabled(mstp, r) && r.syscfg.dprpu
}

/// `r` with SYSCFG replaced.
pub open spec fn spec_fs_with_syscfg(r: UsbfsRegs, s: UsbSyscfg) -> UsbfsRegs {
    UsbfsRegs { syscfg: s, ..r }
}

/// `r` with SYSCFG.SCKE set to `v`.
pub open spec fn spec_fs_with_scke(r: UsbfsRegs, v: bool) -> UsbfsRegs {
    spec_fs_with_syscfg(r, UsbSyscfg { scke: v, ..r.syscfg })
}

/// `r` with SYSCFG.DPRPU set to `v`.
pub open spec fn spec_fs_with_dprpu(r: UsbfsRegs, v: bool) -> UsbfsRegs {
    spec_fs_with_syscfg(r, UsbSyscfg { dprpu: v, ..r.syscfg })
}

/// `m` with MSTPB11 set to `v`.
pub open spec fn spec_with_mstpb11(m: MstpRegs, v: bool) -> MstpRegs {
    MstpRegs { mstpb11: v, ..m }
}

/// `m` with MSTPB12 set to `v`.
pub open spec fn spec_with_mstpb12(m: MstpRegs, v: bool) -> MstpRegs {
    MstpRegs { mstpb12: v, ..m }
}

/// USBFS registers after `enable`: clock on, USBE set, device mode.
pub open spec fn spec_fs_enabled_regs(r: UsbfsRegs) -> UsbfsRegs {
    spec_fs_with_syscfg(r, UsbSyscfg { scke: true, usbe: true, dcfm: false, ..r.syscfg })
}

/// USBFS registers after `disable`: USBE clear, clock off.
pub open spec fn spec_fs_disabled_regs(r: UsbfsRegs) -> UsbfsRegs {
    spec_fs_with_syscfg(r, UsbSyscfg { usbe: false, scke: false, ..r.syscfg })
}

/// The error with which `disable` refuses, when USBFS does not run and pull D+ up.
pub open spec fn spec_fs_disable_error(mstp: MstpRegs, r: UsbfsRegs) -> RegisterError {
    if !spec_fs_enabled(mstp, r) {
        RegisterError::NotReadyToWrite("USBFS device is not enabled.")
    } else {
        RegisterError::NotReadyToWrite("USBFS device is connected.")
    }
}

/// USBFS registers with the USBI sources DVSE, VBSE, CTRE, ATTCHE, DTCHE and
/// BCHGE all set to `v`.
pub open spec fn spec_fs_usbi_sources(r: UsbfsRegs, v: bool) -> UsbfsRegs {
    UsbfsRegs {
        intenb0: UsbIntenb0 { dvse: v, vbse: v, ctre: v, ..r.intenb0 },
        intenb1: UsbIntenb1 { attche: v, dtche: v, bchge: v, ..r.intenb1 },
        ..r
    }
}

/// USBFS registers after a control IN transfer was loaded.
pub open spec fn spec_fs_ep0_in_regs(r: UsbfsRegs) -> UsbfsRegs {
    UsbfsRegs { dcp: spec_ep0_in_dcp(r.dcp), cfifosel: spec_ep0_in_cfifosel(FS_MBW_16), ..r }
}

/// The state of the default control pipe and FIFO selection after a control IN
/// transfer was loaded: PID = BUF, MXPS = 64, DIR = 0, CFIFO on pipe 0 for writing.
pub open spec fn spec_ep0_in_dcp(d: UsbDcp) -> UsbDcp {
    UsbDcp { pid: PID_BUF, mxps: 64, dir: false, ..d }
}

/// The CFIFOSEL value for writing pipe 0 with the given access width.
pub open spec fn spec_ep0_in_cfifosel(mbw: u8) -> UsbCfifoSel {
    UsbCfifoSel { curpipe: 0, isel: true, mbw: mbw }
}

impl UsbPeripheral<FullSpeed> {
    /// Takes the USBFS controller; fails when it was taken before.
    pub fn init(initialized: &mut bool) -> (r: Result<Self, InitError>)
        ensures
            *final(initialized),
            r is Err <==> *old(initialized),
            (r is Ok, *final(initialized)) == crate::spec_claim(*old(initialized)),
    {
        match claim_once(initialized) {
            Ok(()) => Ok(UsbPeripheral { _s: PhantomData }),
            Err(e) => Err(e),
        }
    }

    /// Whether the USB clock is enabled (SYSCFG.SCKE).
    pub fn _is_clock_enabled(&mut self, regs: &UsbfsRegs) -> (r: bool)
        ensures
            r == regs.syscfg.scke,
    {
        regs.syscfg.scke
    }

    /// Sets SYSCFG.SCKE.
    pub fn _set_scke(&mut self, regs: &mut UsbfsRegs, enable: bool) -> (r: Result<(), RegisterError>)
        ensures
            r is Ok,
            *final(regs) == spec_fs_with_scke(*old(regs), enable),
    {
        regs.syscfg.scke = enable;
        Ok(())
    }

    /// Enables the USB clock.
    pub fn _enable_clock(&mut self, regs: &mut UsbfsRegs) -> (r: Result<(), RegisterError>)
        ensures
            r is Ok,
            *final(regs) == spec_fs_with_scke(*old(regs), true),
    {
        self._set_scke(regs, true)
    }

    /// Disables the USB clock.
    pub fn _disable_clock(&mut self, regs: &mut UsbfsRegs) -> (r: Result<(), RegisterError>)
        ensures
            r is Ok,
            *final(regs) == spec_fs_with_scke(*old(regs), false),
    {
        self._set_scke(regs, false)
    }

    /// Whether USBFS runs as a device.
    pub fn is_enabled(&mut self, _mstp: &mut Mstp, mstp_regs: &MstpRegs, regs: &UsbfsRegs) -> (r: bool)
        ensures
            r == spec_fs_enabled(*mstp_regs, *regs),
    {
        !mstp_regs.mstpb11 && self._is_clock_enabled(regs) && regs.syscfg.usbe && !regs.syscfg.dcfm
    }

    /// Whether USBFS runs as a device and pulls D+ up.
    pub fn is_connected(&mut self, mstp: &mut Mstp, mstp_regs: &MstpRegs, regs: &UsbfsRegs) -> (r: bool)
        ensures
            r == spec_fs_connected(*mstp_regs, *regs),
    {
        self.is_enabled(mstp, mstp_regs, regs) && regs.syscfg.dprpu
    }

    /// Starts USBFS as a device: clears MSTPB11, enables the clock, sets USBE and
    /// selects device mode. Refused while it already runs.
    pub fn enable(&mut self, mstp: &mut Mstp, mstp_regs: &mut MstpRegs, regs: &mut UsbfsRegs) -> (r: Result<(), RegisterError>)
        ensures
            r is Err <==> spec_fs_enabled(*old(mstp_regs), *old(regs)),
            r matches Err(e) ==> e == RegisterError::NotReadyToWrite("USBFS device is already enabled.")
                && *final(mstp_regs) == *old(mstp_regs) && *final(regs) == *old(regs),
            r is Ok ==> *final(mstp_regs) == spec_with_mstpb11(*old(mstp_regs), false)
                && *final(regs) == spec_fs_enabled_regs(*old(regs)),
            spec_fs_enabled(*final(mstp_regs), *final(regs)),
    {
        if self.is_enabled(mstp, mstp_regs, regs) {
            Err(RegisterError::NotReadyToWrite("USBFS device is already enabled."))
        } else {
            mstp_regs.mstpb11 = false;
            let _ = self._enable_clock(regs);
            regs.syscfg.usbe = true;
            regs.syscfg.dcfm = false;
            Ok(())
        }
    }

    /// Stops USBFS: clears USBE, disables the clock and sets MSTPB11. Refused when
    /// it does not run, and also when it does not pull D+ up.
    pub fn disable(&mut self, mstp: &mut Mstp, mstp_regs: &mut MstpRegs, regs: &mut UsbfsRegs) -> (r: Result<(), RegisterError>)
        ensures
            r is Err <==> !spec_fs_connected(*old(mstp_regs), *old(regs)),
            r matches Err(e) ==> *final(mstp_regs) == *old(mstp_regs) && *final(regs) == *old(regs)
                && e == spec_fs_disable_error(*old(mstp_regs), *old(regs)),
            r is Ok ==> *final(mstp_regs) == spec_with_mstpb11(*old(mstp_regs), true)
                && *final(regs) == spec_fs_disabled_regs(*old(regs))
                && !spec_fs_enabled(*final(mstp_regs), *final(regs)),
    {
        if !self.is_enabled(mstp, mstp_regs, regs) {
            Err(RegisterError::NotReadyToWrite("USBFS device is not enabled."))
        } else if !self.is_connected(mstp, mstp_regs, regs) {
            Err(RegisterError::NotReadyToWrite("USBFS device is connected."))
        } else {
            regs.syscfg.usbe = false;
            let _ = self._disable_clock(regs);
            mstp_regs.mstpb11 = true;
            Ok(())
        }
    }

    /// Sets SYSCFG.DPRPU; refused while USBFS does not run.
    pub fn _set_dprpu(&mut self, mstp: &mut Mstp, mstp_regs: &MstpRegs, regs: &mut UsbfsRegs, connect: bool) -> (r: Result<(), RegisterError>)
        ensures
            r is Err <==> !spec_fs_enabled(*mstp_regs, *old(regs)),
            r matches Err(e) ==> e == RegisterError::NotReadyToWrite("USBFS device is not initialized.")
                && *final(regs) == *old(regs),
            r is Ok ==> *final(regs) == spec_fs_with_dprpu(*old(regs), connect),
    {
        if !self.is_enabled(mstp, mstp_regs, regs) {
            Err(RegisterError::NotReadyToWrite("USBFS device is not initialized."))
        } else {
            regs.syscfg.dprpu = connect;
            Ok(())
        }
    }

    /// Pulls D+ up, announcing the device to the host.
    pub fn connect(&mut self, mstp: &mut Mstp, mstp_regs: &MstpRegs, regs: &mut UsbfsRegs) -> (r: Result<(), RegisterError>)
        ensures
            r is Err <==> !spec_fs_enabled(*mstp_regs, *old(regs)),
            r matches Err(e) ==> e == RegisterError::NotReadyToWrite("USBFS device is not initialized.")
                && *final(regs) == *old(regs),
            r is Ok ==> *final(regs) == spec_fs_with_dprpu(*old(regs), true),
    {
        self._set_dprpu(mstp, mstp_regs, regs, true)
    }

    /// Releases D+.
    pub fn disconnect(&mut self, mstp: &mut Mstp, mstp_regs: &MstpRegs, regs: &mut UsbfsRegs) -> (r: Result<(), RegisterError>)
        ensures
            r is Err <==> !spec_fs_enabled(*mstp_regs, *old(regs)),
            r matches Err(e) ==> e == RegisterError::NotReadyToWrite("USBFS device is not initialized.")
                && *final(regs) == *old(regs),
            r is Ok ==> *final(regs) == spec_fs_with_dprpu(*old(regs), false),
    {
        self._set_dprpu(mstp, mstp_regs, regs, false)
    }

    /// Whether the USBI sources that the driver uses are all enabled: DVSE, VBSE,
    /// ATTCHE, DTCHE and BCHGE.
    pub fn is_usbi_interrupt_enabled(&mut self, regs: &UsbfsRegs) -> (r: bool)
        ensures
            r == (regs.intenb0.dvse && regs.intenb0.vbse && regs.intenb1.attche
                && regs.intenb1.dtche && regs.intenb1.bchge),
    {
        regs.intenb0.dvse && regs.intenb0.vbse && regs.intenb1.attche && regs.intenb1.dtche
            && regs.intenb1.bchge
    }

    /// Enables the USBI sources DVSE, VBSE, CTRE, ATTCHE, DTCHE and BCHGE.
    pub fn enable_usbi_interrupt(&mut self, regs: &mut UsbfsRegs) -> (r: Result<(), RegisterError>)
        ensures
            r is Ok,
            *final(regs) == spec_fs_usbi_sources(*old(regs), true),
    {
        regs.intenb0.dvse = true;
        regs.intenb0.vbse = true;
        regs.intenb0.ctre = true;
        regs.intenb1.attche = true;
        regs.intenb1.dtche = true;
        regs.intenb1.bchge = true;
        Ok(())
    }

    /// Disables the USBI sources DVSE, VBSE, CTRE, ATTCHE, DTCHE and BCHGE.
    pub fn disable_usbi_interrupt(&mut self, regs: &mut UsbfsRegs) -> (r: Result<(), RegisterError>)
        ensures
            r is Ok,
            *final(regs) == spec_fs_usbi_sources(*old(regs), false),
    {
        regs.intenb0.dvse = false;
        regs.intenb0.vbse = false;
        regs.intenb0.ctre = false;
        regs.intenb1.attche = false;
        regs.intenb1.dtche = false;
        regs.intenb1.bchge = false;
        Ok(())
    }

    /// Loads `data` as the data stage of a control IN transfer on pipe 0.
    ///
    /// When PID is not NAK and the pipe is busy, nothing changes and the transfer
    /// is refused. Otherwise returns the steps that the caller performs in order
    /// (`spec_fs_ep0_in_steps`): DCPCTR.PID = NAK when it was not NAK,
    /// DCPMAXP.MXPS = 64, DCPCFG.DIR = 0, CFIFOSEL (pipe 0, writing, 16-bit), a
    /// wait until CFIFOSEL reads back, BCLR, the payload writes each after FRDY,
    /// BVAL, and DCPCTR with PID = BUF and SQCLR = 1. The model is left as those
    /// steps leave the registers.
    pub fn send_ep0_in(&mut self, regs: &mut UsbfsRegs, data: &[u8]) -> (r: Result<Vec<TransferStep>, RegisterError>)
        ensures
            r is Err <==> (old(regs).dcp.pid != PID_NAK && old(regs).dcp.pbusy),
            r matches Err(e) ==> e == RegisterError::NotReadyToWrite("PID != NAK & Pipe is busy.")
                && *final(regs) == *old(regs),
            r matches Ok(s) ==> s@ == spec_fs_ep0_in_steps(old(regs).dcp.pid, data@)
                && *final(regs) == spec_fs_ep0_in_regs(*old(regs)),
    {
        if regs.dcp.pid != PID_NAK && regs.dcp.pbusy {
            Err(RegisterError::NotReadyToWrite("PID != NAK & Pipe is busy."))
        } else {
            let steps = ep0_in_steps(
                regs.dcp.pid,
                FS_MBW_16,
                TransferStep::AwaitCurpipeIsel { curpipe: 0, isel: true },
                data,
            );
            regs.dcp.mxps = 64;
            regs.dcp.dir = false;
            regs.cfifosel = UsbCfifoSel { curpipe: 0, isel: true, mbw: FS_MBW_16 };
            regs.dcp.pid = PID_BUF;
            Ok(steps)
        }
    }
}

// ---------------------------------------------------------------------------
// USBHS
// ---------------------------------------------------------------------------

/// USBHS runs as a device: its module is started (MSTPB12 = 0), USBE is set and
/// high-speed operation is enabled.
pub open spec fn spec_hs_enabled(mstp: MstpRegs, r: UsbhsRegs) -> bool {
    !mstp.mstpb12 && r.syscfg.usbe && r.syscfg.hse
}

/// USBHS runs as a device and pulls D+ up.
pub open spec fn spec_hs_connected(mstp: MstpRegs, r: UsbhsRegs) -> bool {
    spec_hs_enabled(mstp, r) && r.syscfg.dprpu
}

/// PHYSET.CLKSEL for a crystal of `xtal_hz`: 12 MHz, 20 MHz and 24 MHz are
/// supported.
pub open spec fn spec_hs_clksel(xtal_hz: u32) -> Option<u8> {
    if xtal_hz == 12_000_000 {
        Some(0b00u8)
    } else if xtal_hz == 20_000_000 {
        Some(0b10u8)
    } else if xtal_hz == 24_000_000 {
        Some(0b11u8)
    } else {
        None
    }
}

/// One step of bringing up the USBHS PHY, in the order the caller performs them.
#[derive(Copy, Clone, Debug, PartialEq, Eq, Structural)]
pub enum UsbHsConfigStep {
    /// Write MSTPCRB.MSTPB12.
    SetMstpB12(bool),
    /// Write SYSCFG.
    WriteSyscfg(UsbSyscfg),
    /// Write PHYSET.
    WritePhyset(UsbPhyset),
    /// Busy-wait `ns` nanoseconds, counting cycles of a `iclk_hz` clock.
    Wait { ns: u32, iclk_hz: u32 },
    /// Write LPSTS.SUSPENDM.
    WriteSuspendm(bool),
    /// Poll PLLSTA.PLLLOCK up to `polls` times, until it reads 1, and store it in
    /// the model.
    AwaitPllLock { polls: u32 },
}

/// SYSCFG after device mode and high-speed operation were selected.
pub open spec fn spec_hs_config_syscfg(s: UsbSyscfg) -> UsbSyscfg {
    UsbSyscfg { dcfm: false, hse: true, ..s }
}

/// The three PHYSET values that the bring-up writes in turn.
pub open spec fn spec_hs_physet1(p: UsbPhyset, clksel: u8) -> UsbPhyset {
    UsbPhyset { hseb: false, clksel: clksel, ..p }
}

pub open spec fn spec_hs_physet2(p: UsbPhyset, clksel: u8) -> UsbPhyset {
    UsbPhyset { dirpd: false, ..spec_hs_physet1(p, clksel) }
}

pub open spec fn spec_hs_physet3(p: UsbPhyset, clksel: u8) -> UsbPhyset {
    UsbPhyset { pllreset: false, ..spec_hs_physet2(p, clksel) }
}

/// The full bring-up sequence for a supported crystal.
pub open spec fn spec_hs_config_steps(r: UsbhsRegs, clksel: u8, iclk_hz: u32) -> Seq<UsbHsConfigStep> {
    seq![
        UsbHsConfigStep::SetMstpB12(false),
        UsbHsConfigStep::WriteSyscfg(spec_hs_config_syscfg(r.syscfg)),
        UsbHsConfigStep::WritePhyset(spec_hs_physet1(r.physet, clksel)),
        UsbHsConfigStep::Wait { ns: 1_000, iclk_hz: iclk_hz },
        UsbHsConfigStep::WritePhyset(spec_hs_physet2(r.physet, clksel)),
        UsbHsConfigStep::Wait { ns: 1_000_000, iclk_hz: iclk_hz },
        UsbHsConfigStep::WritePhyset(spec_hs_physet3(r.physet, clksel)),
        UsbHsConfigStep::WriteSuspendm(true),
        UsbHsConfigStep::AwaitPllLock { polls: 1_000_000 },
    ]
}

/// USBHS registers once the bring-up steps for `clksel` were performed.
pub open spec fn spec_hs_configured_regs(r: UsbhsRegs, clksel: u8) -> UsbhsRegs {
    UsbhsRegs {
        syscfg: spec_hs_config_syscfg(r.syscfg),
        physet: spec_hs_physet3(r.physet, clksel),
        suspendm: true,
        ..r
    }
}

/// What `config` decides: the writes and waits to perform, and whether the
/// configuration goes on.
pub open spec fn spec_hs_config(mstp: MstpRegs, r: UsbhsRegs, xtal_hz: u32, iclk_hz: u32) -> (Seq<UsbHsConfigStep>, Result<(), RegisterError>) {
    if spec_hs_connected(mstp, r) {
        (Seq::empty(), Err(RegisterError::NotReadyToWrite("USBHS device is already connected.")))
    } else if spec_hs_enabled(mstp, r) {
        (Seq::empty(), Err(RegisterError::NotReadyToWrite("USBHS device is already enabled.")))
    } else {
        match spec_hs_clksel(xtal_hz) {
            None => (
                seq![
                    UsbHsConfigStep::SetMstpB12(false),
                    UsbHsConfigStep::WriteSyscfg(spec_hs_config_syscfg(r.syscfg)),
                ],
                Err(RegisterError::InvalidValue("XTAL_HZ should be 12MHz, 20MHz or 24MHz")),
            ),
            Some(c) => (spec_hs_config_steps(r, c, iclk_hz), Ok(())),
        }
    }
}

/// The model after `config`.
pub open spec fn spec_hs_config_regs(mstp: MstpRegs, r: UsbhsRegs, xtal_hz: u32) -> (MstpRegs, UsbhsRegs) {
    if spec_hs_enabled(mstp, r) {
        (mstp, r)
    } else {
        match spec_hs_clksel(xtal_hz) {
            None => (spec_with_mstpb12(mstp, false), UsbhsRegs { syscfg: spec_hs_config_syscfg(r.syscfg), ..r }),
            Some(c) => (spec_with_mstpb12(mstp, false), spec_hs_configured_regs(r, c)),
        }
    }
}

/// SYSCFG once the PHY PLL locked: D+ pulled up, pull-downs off, module enabled.
pub open spec fn spec_hs_attach_syscfg(s: UsbSyscfg) -> UsbSyscfg {
    UsbSyscfg { dprpu: true, drpd: false, usbe: true, ..s }
}

/// The USBHS interrupt status registers that one poll of the bus reads.
#[derive(Copy, Clone, Debug)]
pub struct UsbhsIntStatus {
    pub intsts0: u16,
    pub intsts1: u16,
    pub brdysts: u16,
    pub brdyenb: u16,
    pub bempsts: u16,
    pub bempenb: u16,
}

/// The bus events that one poll reports.
#[derive(Copy, Clone, Debug, PartialEq, Eq, Structural)]
pub struct BusPoll {
    /// A device state transition (a bus reset) was detected (INTSTS0.DVST).
    pub reset: bool,
    /// A setup transaction was answered normally (INTSTS1.SACK).
    pub suspend: bool,
    /// A setup transaction error was detected (INTSTS1.SIGN).
    pub resume: bool,
    /// Endpoints with received OUT data, one bit per endpoint.
    pub ep_out: u16,
    /// Endpoints whose IN data was sent, one bit per endpoint.
    pub ep_in_complete: u16,
    /// Endpoints with a setup packet, one bit per endpoint.
    pub ep_setup: u16,
}

impl Default for BusPoll {
    fn default() -> (r: Self)
        ensures
            r == (BusPoll { reset: false, suspend: false, resume: false, ep_out: 0, ep_in_complete: 0, ep_setup: 0 }),
    {
        BusPoll { reset: false, suspend: false, resume: false, ep_out: 0, ep_in_complete: 0, ep_setup: 0 }
    }
}

/// The acknowledging writes of one poll: the BRDYSTS writes in order, then the
/// INTSTS0 and INTSTS1 values.
#[derive(Debug)]
pub struct BusEventAck {
    pub brdysts_writes: Vec<u16>,
    pub intsts0: u16,
    pub intsts1: u16,
}

/// Some bit of `mask` is set in `v`.
pub open spec fn spec_flag(v: u16, mask: u16) -> bool {
    v & mask != 0
}

/// The BRDY sources that are both pending and enabled.
pub open spec fn spec_brdy_pending(s: UsbhsIntStatus) -> u16 {
    s.brdysts & s.brdyenb
}

/// The BEMP sources that are both pending and enabled.
pub open spec fn spec_bemp_pending(s: UsbhsIntStatus) -> u16 {
    s.bempsts & s.bempenb
}

/// INTSTS0.BRDY (bit 8) is set.
pub open spec fn spec_brdy(s: UsbhsIntStatus) -> bool {
    spec_flag(s.intsts0, 0x100)
}

/// INTSTS0.BEMP (bit 10) is set.
pub open spec fn spec_bemp(s: UsbhsIntStatus) -> bool {
    spec_flag(s.intsts0, 0x400)
}

/// The events that a poll with the given status reports.
pub open spec fn spec_bus_poll(s: UsbhsIntStatus) -> BusPoll {
    let bp = spec_brdy_pending(s);
    let ep = spec_bemp_pending(s);
    BusPoll {
        reset: spec_flag(s.intsts0, 0x1000),
        suspend: spec_flag(s.intsts1, 0x10),
        resume: spec_flag(s.intsts1, 0x20),
        ep_out: if spec_brdy(s) && spec_flag(bp, 4) { 4 } else { 0 },
        ep_in_complete: ((if spec_bemp(s) && spec_flag(ep, 2) { 2int } else { 0int })
            + (if spec_bemp(s) && spec_flag(ep, 8) { 8int } else { 0int })) as u16,
        ep_setup: if spec_flag(s.intsts0, 0x800) { 1 } else { 0 },
    }
}

/// The writes that acknowledge the events of a poll: the complement of each
/// nonzero pending set to BRDYSTS (for BRDY, then for BEMP), INTSTS0 with CTRT and
/// DVST cleared, and INTSTS1 with SIGN and SACK cleared.
pub open spec fn spec_bus_ack_brdysts(s: UsbhsIntStatus) -> Seq<u16> {
    let bp = spec_brdy_pending(s);
    let ep = spec_bemp_pending(s);
    (if spec_brdy(s) && bp != 0 { seq![!bp] } else { Seq::empty() })
        + (if spec_bemp(s) && ep != 0 { seq![!ep] } else { Seq::empty() })
}

pub open spec fn spec_bus_ack_ok(s: UsbhsIntStatus, a: BusEventAck) -> bool {
    &&& a.brdysts_writes@ == spec_bus_ack_brdysts(s)
    &&& a.intsts0 == s.intsts0 & 0xE7FF
    &&& a.intsts1 == s.intsts1 & 0xFFCF
}

/// Errors of the bus operations.
#[derive(Copy, Clone, Debug, PartialEq, Eq, Structural)]
pub enum BusError {
    /// The pipe cannot take or give data now.
    WouldBlock,
    /// The data does not fit the packet or the buffer.
    BufferOverflow,
    /// The endpoint is not allocated, or cannot be.
    InvalidEndpoint,
    /// The bus cannot do what was asked.
    Unsupported,
    /// The bus is not in a state to do what was asked.
    InvalidState,
}

/// Pipe control registers with the PID of pipe 1, 2 or 3 set to `pid`; other
/// pipes have no PID here.
pub open spec fn spec_ctrs_with_pid(c: PipeCtrs, pipe: u8, pid: u8) -> PipeCtrs {
    if pipe == 1 {
        PipeCtrs { pipe1: PipeCtr { pid: pid, ..c.pipe1 }, ..c }
    } else if pipe == 2 {
        PipeCtrs { pipe2: PipeCtr { pid: pid, ..c.pipe2 }, ..c }
    } else if pipe == 3 {
        PipeCtrs { pipe3: PipeCtr { pid: pid, ..c.pipe3 }, ..c }
    } else {
        c
    }
}

/// `r` with the PID of pipe 1, 2 or 3 set to `pid`.
pub open spec fn spec_hs_with_pipe_pid(r: UsbhsRegs, pipe: u8, pid: u8) -> UsbhsRegs {
    UsbhsRegs { pipe_ctr: spec_ctrs_with_pid(r.pipe_ctr, pipe, pid), ..r }
}

/// An IN packet can be loaded into `pipe`: the FIFO port is ready and the pipe is
/// pipe 1, 2 or 3 and not busy.
pub open spec fn spec_hs_tx_ready(r: UsbhsRegs, pipe: u8) -> bool {
    r.cfifoctr.frdy && match r.spec_pipe_ctr(pipe) {
        Some(c) => !c.pbusy,
        None => false,
    }
}

/// `r` with pipe `pipe` selected.
pub open spec fn spec_hs_selected(r: UsbhsRegs, pipe: u8) -> UsbhsRegs {
    UsbhsRegs { pipesel: pipe, ..r }
}

/// The window of `pipe` after `bus_pipe_set_ep`.
pub open spec fn spec_pipe_ep(w: PipeWindow, ep_num: u8, in_dir: bool, typ: PipeType, mxps: u16) -> PipeWindow {
    PipeWindow { epnum: ep_num & 0xf, dir: in_dir, typ: typ, mxps: mxps & 0x7ff, ..w }
}

/// `r` with the window of `pipe` replaced by `w`, equal to `r` elsewhere.
pub open spec fn spec_hs_window_is(before: UsbhsRegs, after: UsbhsRegs, pipe: u8, w: PipeWindow) -> bool {
    &&& after.pipes@ == before.pipes@.update(pipe as int, w)
    &&& after == (UsbhsRegs { pipes: after.pipes, ..before })
}

/// CFIFOSEL for writing `pipe`, 32-bit wide.
pub open spec fn spec_pipe_write_cfifosel(pipe: u8) -> UsbCfifoSel {
    UsbCfifoSel { curpipe: pipe, isel: true, mbw: HS_MBW_32 }
}

/// The steps that load an IN packet into `pipe` once it is selected: CFIFO on
/// the pipe for writing, waits until CURPIPE reads the pipe and FRDY is set,
/// BCLR, the payload writes, BVAL, and PID = BUF.
pub open spec fn spec_pipe_write_steps(pipe: u8, data: Seq<u8>) -> Seq<TransferStep> {
    seq![
        TransferStep::SelectFifo(spec_pipe_write_cfifosel(pipe)),
        TransferStep::AwaitCurpipe(pipe),
        TransferStep::AwaitFifoReady,
        TransferStep::ClearBuffer,
    ] + spec_write_steps(data, false) + seq![
        TransferStep::CommitBuffer,
        TransferStep::SetPipePid { pipe: pipe, pid: PID_BUF },
    ]
}

/// CFIFOSEL for reading `pipe`, 32-bit wide.
pub open spec fn spec_pipe_read_cfifosel(pipe: u8) -> UsbCfifoSel {
    UsbCfifoSel { curpipe: pipe, isel: false, mbw: HS_MBW_32 }
}

/// Before an OUT packet of `pipe` is read: PIPESEL, then, when the pipe has
/// received (`ready`), CFIFOSEL for reading it and the waits for CURPIPE and FRDY.
pub open spec fn spec_pipe_read_select_steps(pipe: u8, ready: bool) -> Seq<TransferStep> {
    seq![TransferStep::SelectPipe(pipe)] + if ready {
        seq![
            TransferStep::SelectFifo(spec_pipe_read_cfifosel(pipe)),
            TransferStep::AwaitCurpipe(pipe),
            TransferStep::AwaitFifoReady,
        ]
    } else {
        Seq::empty()
    }
}

/// CFIFOSEL for reading pipe 0, 32-bit wide.
pub open spec fn spec_ep0_read_cfifosel() -> UsbCfifoSel {
    UsbCfifoSel { curpipe: 0, isel: false, mbw: HS_MBW_32 }
}

/// Before a control OUT data stage is read: CFIFOSEL for reading pipe 0, then a
/// wait for FRDY.
pub open spec fn spec_ep0_read_select_steps() -> Seq<TransferStep> {
    seq![TransferStep::SelectFifo(spec_ep0_read_cfifosel()), TransferStep::AwaitFifoReady]
}

/// The PID writes that stall pipe 1, 2 or 3 (STALL) or release it (NAK, then
/// BUF); other pipes have no PIPEnCTR here.
pub open spec fn spec_pipe_stall_steps(pipe: u8, stalled: bool) -> Seq<TransferStep> {
    if !(pipe == 1 || pipe == 2 || pipe == 3) {
        Seq::empty()
    } else if stalled {
        seq![TransferStep::SetPipePid { pipe: pipe, pid: PID_STALL }]
    } else {
        seq![TransferStep::SetPipePid { pipe: pipe, pid: PID_NAK }, TransferStep::SetPipePid { pipe: pipe, pid: PID_BUF }]
    }
}

/// USBHS registers after a control IN transfer was loaded.
pub open spec fn spec_hs_ep0_in_regs(r: UsbhsRegs) -> UsbhsRegs {
    UsbhsRegs { dcp: spec_ep0_in_dcp(r.dcp), cfifosel: spec_ep0_in_cfifosel(HS_MBW_32), ..r }
}

impl UsbPeripheral<HighSpeed> {
    /// Takes the USBHS controller; fails when it was taken before.
    pub fn init(initialized: &mut bool) -> (r: Result<Self, InitError>)
        ensures
            *final(initialized),
            r is Err <==> *old(initialized),
            (r is Ok, *final(initialized)) == crate::spec_claim(*old(initialized)),
    {
        match claim_once(initialized) {
            Ok(()) => Ok(UsbPeripheral { _s: PhantomData }),
            Err(e) => Err(e),
        }
    }

    /// Whether the PHY PLL is locked (PLLSTA.PLLLOCK).
    pub fn is_pll_locked(&mut self, regs: &UsbhsRegs) -> (r: bool)
        ensures
            r == regs.plllock,
    {
        regs.plllock
    }

    /// Whether USBHS runs as a device.
    pub fn is_enabled(&mut self, _mstp: &mut Mstp, mstp_regs: &MstpRegs, regs: &UsbhsRegs) -> (r: bool)
        ensures
            r == spec_hs_enabled(*mstp_regs, *regs),
    {
        !mstp_regs.mstpb12 && regs.syscfg.usbe && regs.syscfg.hse
    }

    /// Whether USBHS runs as a device and pulls D+ up.
    pub fn is_connected(&mut self, mstp: &mut Mstp, mstp_regs: &MstpRegs, regs: &UsbhsRegs) -> (r: bool)
        ensures
            r == spec_hs_connected(*mstp_regs, *regs),
    {
        self.is_enabled(mstp, mstp_regs, regs) && regs.syscfg.dprpu
    }

    /// Brings up the USBHS PHY for a crystal of `xtal_hz`, with waits timed at
    /// `iclk_hz`. Refused while USBHS already runs. Returns the writes and waits
    /// to perform in order and whether the configuration goes on: after the last
    /// step (awaiting the PLL lock), the caller finishes with `config_finish`.
    /// An unsupported crystal is reported after the module was started and
    /// SYSCFG written, as those writes come first.
    #[verifier::rlimit(40)]
    pub fn config(
        &mut self,
        mstp: &mut Mstp,
        mstp_regs: &mut MstpRegs,
        regs: &mut UsbhsRegs,
        xtal_hz: u32,
        iclk_hz: u32,
    ) -> (r: (Vec<UsbHsConfigStep>, Result<(), RegisterError>))
        ensures
            (r.0@, r.1) == spec_hs_config(*old(mstp_regs), *old(regs), xtal_hz, iclk_hz),
            (*final(mstp_regs), *final(regs)) == spec_hs_config_regs(*old(mstp_regs), *old(regs), xtal_hz),
    {
        if self.is_connected(mstp, mstp_regs, regs) {
            return (Vec::new(), Err(RegisterError::NotReadyToWrite("USBHS device is already connected.")));
        }
        if self.is_enabled(mstp, mstp_regs, regs) {
            return (Vec::new(), Err(RegisterError::NotReadyToWrite("USBHS device is already enabled.")));
        }
        let mut steps: Vec<UsbHsConfigStep> = Vec::new();
        mstp_regs.mstpb12 = false;
        steps.push(UsbHsConfigStep::SetMstpB12(false));
        regs.syscfg.dcfm = false;
        regs.syscfg.hse = true;
        steps.push(UsbHsConfigStep::WriteSyscfg(regs.syscfg));
        let clksel: u8 = if xtal_hz == 12_000_000 {
            0b00
        } else if xtal_hz == 20_000_000 {
            0b10
        } else if xtal_hz == 24_000_000 {
            0b11
        } else {
            assert(steps@ =~= spec_hs_config(*old(mstp_regs), *old(regs), xtal_hz, iclk_hz).0);
            return (steps, Err(RegisterError::InvalidValue("XTAL_HZ should be 12MHz, 20MHz or 24MHz")));
        };
        Self::config_phy(regs, &mut steps, clksel, iclk_hz);
        assert(steps@ =~= spec_hs_config_steps(*old(regs), clksel, iclk_hz));
        (steps, Ok(()))
    }

    /// The PHY part of the bring-up: PHYSET in three writes with waits between,
    /// then SUSPENDM, then the PLL lock wait.
    fn config_phy(regs: &mut UsbhsRegs, steps: &mut Vec<UsbHsConfigStep>, clksel: u8, iclk_hz: u32)
        ensures
            *final(regs) == (UsbhsRegs { physet: spec_hs_physet3(old(regs).physet, clksel), suspendm: true, ..*old(regs) }),
            final(steps)@ == old(steps)@ + seq![
                UsbHsConfigStep::WritePhyset(spec_hs_physet1(old(regs).physet, clksel)),
                UsbHsConfigStep::Wait { ns: 1_000, iclk_hz: iclk_hz },
                UsbHsConfigStep::WritePhyset(spec_hs_physet2(old(regs).physet, clksel)),
                UsbHsConfigStep::Wait { ns: 1_000_000, iclk_hz: iclk_hz },
                UsbHsConfigStep::WritePhyset(spec_hs_physet3(old(regs).physet, clksel)),
                UsbHsConfigStep::WriteSuspendm(true),
                UsbHsConfigStep::AwaitPllLock { polls: 1_000_000 },
            ],
    {
        let mut p = regs.physet;
        p.hseb = false;
        p.clksel = clksel;
        steps.push(UsbHsConfigStep::WritePhyset(p));
        steps.push(UsbHsConfigStep::Wait { ns: 1_000, iclk_hz });
        p.dirpd = false;
        steps.push(UsbHsConfigStep::WritePhyset(p));
        steps.push(UsbHsConfigStep::Wait { ns: 1_000_000, iclk_hz });
        p.pllreset = false;
        steps.push(UsbHsConfigStep::WritePhyset(p));
        regs.physet = p;
        regs.suspendm = true;
        steps.push(UsbHsConfigStep::WriteSuspendm(true));
        steps.push(UsbHsConfigStep::AwaitPllLock { polls: 1_000_000 });
    }

    /// Ends the bring-up once the PLL was awaited: refused when PLLSTA.PLLLOCK did
    /// not come up; else pulls D+ up, turns the pull-downs off and sets USBE.
    pub fn config_finish(&mut self, regs: &mut UsbhsRegs) -> (r: Result<(), RegisterError>)
        ensures
            r is Err <==> !old(regs).plllock,
            r matches Err(e) ==> e == RegisterError::NotReadyToWrite("PLL lock is timed out.")
                && *final(regs) == *old(regs),
            r is Ok ==> *final(regs) == (UsbhsRegs { syscfg: spec_hs_attach_syscfg(old(regs).syscfg), ..*old(regs) }),
    {
        if !self.is_pll_locked(regs) {
            Err(RegisterError::NotReadyToWrite("PLL lock is timed out."))
        } else {
            regs.syscfg.dprpu = true;
            regs.syscfg.drpd = false;
            regs.syscfg.usbe = true;
            Ok(())
        }
    }

    /// Starts USBHS: clears MSTPB12 and sets USBE. Refused while it already runs.
    pub fn enable(&mut self, mstp: &mut Mstp, mstp_regs: &mut MstpRegs, regs: &mut UsbhsRegs) -> (r: Result<(), RegisterError>)
        ensures
            r is Err <==> spec_hs_enabled(*old(mstp_regs), *old(regs)),
            r matches Err(e) ==> *final(mstp_regs) == *old(mstp_regs) && *final(regs) == *old(regs)
                && e == (if spec_hs_connected(*old(mstp_regs), *old(regs)) {
                    RegisterError::NotReadyToWrite("USBHS device is already connected.")
                } else {
                    RegisterError::NotReadyToWrite("USBHS device is already enabled.")
                }),
            r is Ok ==> *final(mstp_regs) == spec_with_mstpb12(*old(mstp_regs), false)
                && *final(regs) == (UsbhsRegs { syscfg: UsbSyscfg { usbe: true, ..old(regs).syscfg }, ..*old(regs) }),
    {
        if self.is_connected(mstp, mstp_regs, regs) {
            Err(RegisterError::NotReadyToWrite("USBHS device is already connected."))
        } else if self.is_enabled(mstp, mstp_regs, regs) {
            Err(RegisterError::NotReadyToWrite("USBHS device is already enabled."))
        } else {
            mstp_regs.mstpb12 = false;
            regs.syscfg.usbe = true;
            Ok(())
        }
    }

    /// Loads `data` as the data stage of a control IN transfer on pipe 0.
    ///
    /// When PID is not NAK and the pipe is busy, nothing changes and the transfer
    /// is refused. Otherwise returns the steps that the caller performs in order
    /// (`spec_hs_ep0_in_steps`): DCPCTR.PID = NAK when it was not NAK,
    /// DCPMAXP.MXPS = 64, DCPCFG.DIR = 0, CFIFOSEL (pipe 0, writing, 32-bit), a
    /// wait for FRDY, BCLR, the payload writes each after FRDY, BVAL, and DCPCTR
    /// with PID = BUF and SQCLR = 1. The model is left as those steps leave the
    /// registers.
    pub fn send_ep0_in(&mut self, regs: &mut UsbhsRegs, data: &[u8]) -> (r: Result<Vec<TransferStep>, RegisterError>)
        ensures
            r is Err <==> (old(regs).dcp.pid != PID_NAK && old(regs).dcp.pbusy),
            r matches Err(e) ==> e == RegisterError::NotReadyToWrite("EP0 busy") && *final(regs) == *old(regs),
            r matches Ok(s) ==> s@ == spec_hs_ep0_in_steps(old(regs).dcp.pid, data@)
                && *final(regs) == spec_hs_ep0_in_regs(*old(regs)),
    {
        if regs.dcp.pid != PID_NAK && regs.dcp.pbusy {
            Err(RegisterError::NotReadyToWrite("EP0 busy"))
        } else {
            let steps = ep0_in_steps(regs.dcp.pid, HS_MBW_32, TransferStep::AwaitFifoReady, data);
            regs.dcp.mxps = 64;
            regs.dcp.dir = false;
            regs.cfifosel = UsbCfifoSel { curpipe: 0, isel: true, mbw: HS_MBW_32 };
            regs.dcp.pid = PID_BUF;
            Ok(steps)
        }
    }

    /// Enables the interrupt sources of the bus driver: BRDYE, BEMPE, CTRE, DVSE,
    /// SIGNE, SACKE, ATTCHE, DTCHE and BCHGE.
    pub fn bus_enable_interrupts(&mut self, regs: &mut UsbhsRegs) -> (r: Result<(), RegisterError>)
        ensures
            r is Ok,
            *final(regs) == (UsbhsRegs {
                intenb0: UsbIntenb0 { brdye: true, bempe: true, ctre: true, dvse: true, ..old(regs).intenb0 },
                intenb1: UsbIntenb1 { signe: true, sacke: true, attche: true, dtche: true, bchge: true },
                ..*old(regs)
            }),
    {
        regs.intenb0.brdye = true;
        regs.intenb0.bempe = true;
        regs.intenb0.ctre = true;
        regs.intenb0.dvse = true;
        regs.intenb1 = UsbIntenb1 { signe: true, sacke: true, attche: true, dtche: true, bchge: true };
        Ok(())
    }

    /// The writes that acknowledge the pending bus events of `s`.
    fn bus_ack(s: &UsbhsIntStatus) -> (a: BusEventAck)
        ensures
            spec_bus_ack_ok(*s, a),
    {
        let mut writes: Vec<u16> = Vec::new();
        if s.intsts0 & 0x100 != 0 {
            let pending: u16 = s.brdysts & s.brdyenb;
            if pending != 0 {
                writes.push(!pending);
            }
        }
        if s.intsts0 & 0x400 != 0 {
            let pending: u16 = s.bempsts & s.bempenb;
            if pending != 0 {
                writes.push(!pending);
            }
        }
        assert(writes@ =~= spec_bus_ack_brdysts(*s));
        BusEventAck { brdysts_writes: writes, intsts0: s.intsts0 & 0xE7FF, intsts1: s.intsts1 & 0xFFCF }
    }

    /// Acknowledges the pending bus events without reporting them.
    pub fn bus_clear_bus_events(&mut self, s: &UsbhsIntStatus) -> (a: BusEventAck)
        ensures
            spec_bus_ack_ok(*s, a),
    {
        Self::bus_ack(s)
    }

    /// Reports the bus events of `s` and the writes that acknowledge them.
    pub fn bus_poll(&mut self, s: &UsbhsIntStatus) -> (r: (BusPoll, BusEventAck))
        ensures
            r.0 == spec_bus_poll(*s),
            spec_bus_ack_ok(*s, r.1),
    {
        let brdy = s.intsts0 & 0x100 != 0;
        let bemp = s.intsts0 & 0x400 != 0;
        let bp: u16 = s.brdysts & s.brdyenb;
        let ep: u16 = s.bempsts & s.bempenb;
        let mut ev = BusPoll::default();
        if s.intsts0 & 0x1000 != 0 {
            ev.reset = true;
        }
        if s.intsts0 & 0x800 != 0 {
            ev.ep_setup = 1;
        }
        if brdy && bp & 4 != 0 {
            ev.ep_out = 4;
        }
        if bemp && ep & 2 != 0 {
            ev.ep_in_complete = ev.ep_in_complete + 2;
        }
        if bemp && ep & 8 != 0 {
            ev.ep_in_complete = ev.ep_in_complete + 8;
        }
        if s.intsts1 & 0x10 != 0 {
            ev.suspend = true;
        }
        if s.intsts1 & 0x20 != 0 {
            ev.resume = true;
        }
        (ev, Self::bus_ack(s))
    }

    /// The device address is taken by the hardware from SET_ADDRESS itself; there
    /// is nothing to write.
    pub fn bus_set_address(&mut self, _addr: u8) {
    }

    /// Resets the default control pipe: MXPS = `max_packet_size` (seven bits),
    /// DIR = 0 and PID = NAK, with SQCLR and SUREQCLR. Returns the writes in order.
    pub fn bus_ep0_reset(&mut self, regs: &mut UsbhsRegs, max_packet_size: u8) -> (s: Vec<TransferStep>)
        ensures
            s@ == spec_ep0_reset_steps(max_packet_size),
            *final(regs) == (UsbhsRegs {
                dcp: UsbDcp { mxps: max_packet_size & 0x7f, dir: false, pid: PID_NAK, ..old(regs).dcp },
                ..*old(regs)
            }),
    {
        regs.dcp.mxps = max_packet_size & 0x7f;
        regs.dcp.dir = false;
        regs.dcp.pid = PID_NAK;
        let mut s: Vec<TransferStep> = Vec::new();
        s.push(TransferStep::SetDcpMxps(max_packet_size & 0x7f));
        s.push(TransferStep::SetDcpDir(false));
        s.push(TransferStep::ResetDcpCtr(PID_NAK));
        assert(s@ =~= spec_ep0_reset_steps(max_packet_size));
        s
    }

    /// Sends a control IN data stage; a busy pipe gives `WouldBlock`. Returns the
    /// payload length and the steps of `send_ep0_in`.
    pub fn bus_ep0_write_in(&mut self, regs: &mut UsbhsRegs, data: &[u8]) -> (r: Result<(usize, Vec<TransferStep>), BusError>)
        ensures
            r is Err <==> (old(regs).dcp.pid != PID_NAK && old(regs).dcp.pbusy),
            r matches Err(e) ==> e == BusError::WouldBlock && *final(regs) == *old(regs),
            r matches Ok(p) ==> p.0 == data@.len() && p.1@ == spec_hs_ep0_in_steps(old(regs).dcp.pid, data@)
                && *final(regs) == spec_hs_ep0_in_regs(*old(regs)),
    {
        match self.send_ep0_in(regs, data) {
            Ok(s) => Ok((data.len(), s)),
            Err(_) => Err(BusError::WouldBlock),
        }
    }

    /// Points CFIFO at pipe 0 for reading, 32-bit wide, before a control OUT data
    /// stage is read. Returns the steps: the CFIFOSEL write, then a wait for FRDY,
    /// after which CFIFOCTR.DTLN tells how many bytes arrived.
    pub fn bus_ep0_read_select(&mut self, regs: &mut UsbhsRegs) -> (s: Vec<TransferStep>)
        ensures
            s@ == spec_ep0_read_select_steps(),
            *final(regs) == (UsbhsRegs { cfifosel: spec_ep0_read_cfifosel(), ..*old(regs) }),
    {
        let sel = UsbCfifoSel { curpipe: 0, isel: false, mbw: HS_MBW_32 };
        regs.cfifosel = sel;
        let mut s: Vec<TransferStep> = Vec::new();
        s.push(TransferStep::SelectFifo(sel));
        s.push(TransferStep::AwaitFifoReady);
        assert(s@ =~= spec_ep0_read_select_steps());
        s
    }

    /// Reads a control OUT data stage into a buffer of `buf_len` bytes, once
    /// `bus_ep0_read_select` was performed and the model holds CFIFOCTR.DTLN.
    ///
    /// When DTLN exceeds the buffer, `BufferOverflow`: nothing is read and the
    /// FIFO is not cleared. Otherwise returns DTLN and the steps: the reads that
    /// take the DTLN bytes (a word per two bytes, a byte for the last one
    /// without pair), then BCLR. The caller stores what the reads gave with
    /// `bus_fifo_read`.
    pub fn bus_ep0_read_out(&mut self, regs: &UsbhsRegs, buf_len: usize) -> (r: Result<(usize, Vec<TransferStep>), BusError>)
        ensures
            r is Err <==> regs.cfifoctr.dtln > buf_len,
            r matches Err(e) ==> e == BusError::BufferOverflow,
            r matches Ok(p) ==> p.0 == regs.cfifoctr.dtln
                && p.1@ == spec_read_steps(regs.cfifoctr.dtln as nat) + seq![TransferStep::ClearBuffer],
    {
        self.bus_fifo_read_steps(regs, buf_len)
    }

    /// The reads of what the FIFO that CFIFO points at received (CFIFOCTR.DTLN
    /// bytes, once FRDY is set) into a buffer of `buf_len` bytes, then BCLR; a
    /// buffer that cannot take them gives `BufferOverflow`, with nothing to read.
    pub fn bus_fifo_read_steps(&mut self, regs: &UsbhsRegs, buf_len: usize) -> (r: Result<(usize, Vec<TransferStep>), BusError>)
        ensures
            r is Err <==> regs.cfifoctr.dtln > buf_len,
            r matches Err(e) ==> e == BusError::BufferOverflow,
            r matches Ok(p) ==> p.0 == regs.cfifoctr.dtln
                && p.1@ == spec_read_steps(regs.cfifoctr.dtln as nat) + seq![TransferStep::ClearBuffer],
    {
        match self.bus_fifo_read_len(regs, buf_len) {
            Err(e) => Err(e),
            Ok(n) => {
                let mut s = read_steps(n);
                let ghost reads = s@;
                s.push(TransferStep::ClearBuffer);
                assert(s@ =~= reads + seq![TransferStep::ClearBuffer]);
                Ok((n, s))
            },
        }
    }

    /// Stalls the default control pipe (PID = STALL) or returns it to NAK.
    pub fn bus_ep0_set_stall(&mut self, regs: &mut UsbhsRegs, stalled: bool)
        ensures
            *final(regs) == (UsbhsRegs {
                dcp: UsbDcp { pid: if stalled { PID_STALL } else { PID_NAK }, ..old(regs).dcp },
                ..*old(regs)
            }),
    {
        regs.dcp.pid = if stalled { PID_STALL } else { PID_NAK };
    }

    /// Selects `pipe` in PIPESEL and waits until it reads back; returns that step.
    pub fn bus_select_pipe(&mut self, regs: &mut UsbhsRegs, pipe: u8) -> (s: Vec<TransferStep>)
        requires
            pipe < 16,
        ensures
            s@ == seq![TransferStep::SelectPipe(pipe)],
            *final(regs) == spec_hs_selected(*old(regs), pipe),
    {
        regs.pipesel = pipe;
        let mut s: Vec<TransferStep> = Vec::new();
        s.push(TransferStep::SelectPipe(pipe));
        assert(s@ =~= seq![TransferStep::SelectPipe(pipe)]);
        s
    }

    fn set_pipe_pid(regs: &mut UsbhsRegs, pipe: u8, pid: u8)
        ensures
            *final(regs) == spec_hs_with_pipe_pid(*old(regs), pipe, pid),
    {
        let mut c = regs.pipe_ctr;
        if pipe == 1 {
            c.pipe1.pid = pid;
        } else if pipe == 2 {
            c.pipe2.pid = pid;
        } else if pipe == 3 {
            c.pipe3.pid = pid;
        }
        regs.pipe_ctr = c;
    }

    /// Sets the PID of pipe 1, 2 or 3 to NAK; other pipes are left alone.
    pub fn bus_pipe_nak(&mut self, regs: &mut UsbhsRegs, pipe: u8)
        ensures
            *final(regs) == spec_hs_with_pipe_pid(*old(regs), pipe, PID_NAK),
    {
        Self::set_pipe_pid(regs, pipe, PID_NAK);
    }

    /// Sets the PID of pipe 1, 2 or 3 to BUF, ready to receive OUT data.
    pub fn bus_pipe_prepare_out(&mut self, regs: &mut UsbhsRegs, pipe: u8)
        ensures
            *final(regs) == spec_hs_with_pipe_pid(*old(regs), pipe, PID_BUF),
    {
        Self::set_pipe_pid(regs, pipe, PID_BUF);
    }

    /// Sets the PID of pipe 1, 2 or 3 to BUF.
    pub fn bus_pipe_buf(&mut self, regs: &mut UsbhsRegs, pipe: u8)
        ensures
            *final(regs) == spec_hs_with_pipe_pid(*old(regs), pipe, PID_BUF),
    {
        Self::set_pipe_pid(regs, pipe, PID_BUF);
    }

    /// Sets the PID of pipe 1, 2 or 3 to STALL.
    pub fn bus_pipe_stall(&mut self, regs: &mut UsbhsRegs, pipe: u8)
        ensures
            *final(regs) == spec_hs_with_pipe_pid(*old(regs), pipe, PID_STALL),
    {
        Self::set_pipe_pid(regs, pipe, PID_STALL);
    }

    /// Stalls pipe 1, 2 or 3, or releases it (NAK, then BUF). Returns the PID
    /// writes in order; other pipes get none.
    pub fn bus_pipe_set_stall(&mut self, regs: &mut UsbhsRegs, pipe: u8, _in_dir: bool, stalled: bool) -> (s: Vec<TransferStep>)
        ensures
            s@ == spec_pipe_stall_steps(pipe, stalled),
            *final(regs) == spec_hs_with_pipe_pid(*old(regs), pipe, if stalled { PID_STALL } else { PID_BUF }),
    {
        let mut s: Vec<TransferStep> = Vec::new();
        let has_ctr = pipe == 1 || pipe == 2 || pipe == 3;
        if stalled {
            self.bus_pipe_stall(regs, pipe);
            if has_ctr {
                s.push(TransferStep::SetPipePid { pipe, pid: PID_STALL });
            }
        } else {
            self.bus_pipe_nak(regs, pipe);
            self.bus_pipe_buf(regs, pipe);
            if has_ctr {
                s.push(TransferStep::SetPipePid { pipe, pid: PID_NAK });
                s.push(TransferStep::SetPipePid { pipe, pid: PID_BUF });
            }
            assert(spec_ctrs_with_pid(spec_ctrs_with_pid(old(regs).pipe_ctr, pipe, PID_NAK), pipe, PID_BUF)
                == spec_ctrs_with_pid(old(regs).pipe_ctr, pipe, PID_BUF));
        }
        assert(s@ =~= spec_pipe_stall_steps(pipe, stalled));
        s
    }

    /// Points PIPECFG, PIPEMAXP and PIPEPERI at `pipe`, then sets its endpoint
    /// number (four bits), direction, transfer type and maximum packet size
    /// (eleven bits).
    pub fn bus_pipe_set_ep(&mut self, regs: &mut UsbhsRegs, pipe: u8, ep_num: u8, in_dir: bool, typ: PipeType, mxps: u16)
        requires
            pipe < 16,
        ensures
            spec_hs_window_is(spec_hs_selected(*old(regs), pipe), *final(regs), pipe,
                spec_pipe_ep(old(regs).pipes[pipe as int], ep_num, in_dir, typ, mxps)),
    {
        self.bus_select_pipe(regs, pipe);
        let w = regs.pipes[pipe as usize];
        regs.pipes[pipe as usize] = PipeWindow { epnum: ep_num & 0xf, dir: in_dir, typ, mxps: mxps & 0x7ff, ..w };
    }

    /// Clears the buffer of `pipe`: points CFIFO at it (four bits), waits for FRDY
    /// and sets CFIFOCTR.BCLR. Returns those steps in order.
    pub fn bus_pipe_clear_fifo(&mut self, regs: &mut UsbhsRegs, pipe: u8) -> (s: Vec<TransferStep>)
        ensures
            s@ == spec_clear_fifo_steps(pipe, old(regs).cfifosel),
            *final(regs) == (UsbhsRegs { cfifosel: UsbCfifoSel { curpipe: pipe & 0xf, ..old(regs).cfifosel }, ..*old(regs) }),
    {
        let mut s: Vec<TransferStep> = Vec::new();
        push_clear_fifo_steps(&mut s, pipe, regs.cfifosel);
        regs.cfifosel.curpipe = pipe & 0xf;
        s
    }

    /// Selects `pipe` and sets its interval counter (PIPEPERI.IITV, three bits).
    pub fn bus_pipe_set_interval(&mut self, regs: &mut UsbhsRegs, pipe: u8, interval: u8)
        requires
            pipe < 16,
        ensures
            spec_hs_window_is(spec_hs_selected(*old(regs), pipe), *final(regs), pipe,
                PipeWindow { iitv: interval & 7, ..old(regs).pipes[pipe as int] }),
    {
        self.bus_select_pipe(regs, pipe);
        let w = regs.pipes[pipe as usize];
        regs.pipes[pipe as usize] = PipeWindow { iitv: interval & 7, ..w };
    }

    /// Configures `pipe` as an interrupt IN pipe of endpoint `ep_num`: select it,
    /// NAK it, set its endpoint, set its interval and clear its FIFO. Returns the
    /// writes and waits in order.
    pub fn bus_pipe_config_interrupt_in(&mut self, regs: &mut UsbhsRegs, pipe: u8, ep_num: u8, mxps: u16, interval: u8) -> (s: Vec<TransferStep>)
        requires
            pipe < 16,
        ensures
            s@ == spec_config_interrupt_in_steps(pipe, ep_num, mxps, interval, old(regs).cfifosel),
            final(regs).pipes@ == old(regs).pipes@.update(pipe as int,
                PipeWindow { iitv: interval & 7, ..spec_pipe_ep(old(regs).pipes[pipe as int], ep_num, true, PipeType::Interrupt, mxps) }),
            *final(regs) == (UsbhsRegs {
                pipes: final(regs).pipes,
                pipesel: pipe,
                cfifosel: UsbCfifoSel { curpipe: pipe, ..old(regs).cfifosel },
                ..spec_hs_with_pipe_pid(*old(regs), pipe, PID_NAK)
            }),
    {
        self.bus_select_pipe(regs, pipe);
        self.bus_pipe_nak(regs, pipe);
        self.bus_pipe_set_ep(regs, pipe, ep_num, true, PipeType::Interrupt, mxps);
        self.bus_pipe_set_interval(regs, pipe, interval);
        assert(pipe & 0xf == pipe) by (bit_vector)
            requires
                pipe < 16,
        ;
        let sel = regs.cfifosel;
        self.bus_pipe_clear_fifo(regs, pipe);
        let mut s: Vec<TransferStep> = Vec::new();
        s.push(TransferStep::SelectPipe(pipe));
        push_pid_step(&mut s, pipe, PID_NAK);
        push_set_ep_steps(&mut s, pipe, ep_num, true, PipeType::Interrupt, mxps);
        s.push(TransferStep::SelectPipe(pipe));
        s.push(TransferStep::WritePipePeri(interval & 7));
        push_clear_fifo_steps(&mut s, pipe, sel);
        assert(s@ =~= spec_config_interrupt_in_steps(pipe, ep_num, mxps, interval, old(regs).cfifosel));
        s
    }

    /// Configures `pipe` as a bulk OUT pipe of endpoint `ep_num`: select it, NAK
    /// it, set its endpoint, clear its FIFO, then set it to BUF to receive.
    /// Returns the writes and waits in order.
    pub fn bus_pipe_config_bulk_out(&mut self, regs: &mut UsbhsRegs, pipe: u8, ep_num: u8, mxps: u16) -> (s: Vec<TransferStep>)
        requires
            pipe < 16,
        ensures
            s@ == spec_config_bulk_out_steps(pipe, ep_num, mxps, old(regs).cfifosel),
            final(regs).pipes@ == old(regs).pipes@.update(pipe as int,
                spec_pipe_ep(old(regs).pipes[pipe as int], ep_num, false, PipeType::Bulk, mxps)),
            *final(regs) == (UsbhsRegs {
                pipes: final(regs).pipes,
                pipesel: pipe,
                cfifosel: UsbCfifoSel { curpipe: pipe, ..old(regs).cfifosel },
                ..spec_hs_with_pipe_pid(*old(regs), pipe, PID_BUF)
            }),
    {
        self.bus_select_pipe(regs, pipe);
        self.bus_pipe_nak(regs, pipe);
        self.bus_pipe_set_ep(regs, pipe, ep_num, false, PipeType::Bulk, mxps);
        assert(pipe & 0xf == pipe) by (bit_vector)
            requires
                pipe < 16,
        ;
        let sel = regs.cfifosel;
        self.bus_pipe_clear_fifo(regs, pipe);
        self.bus_pipe_prepare_out(regs, pipe);
        assert(spec_ctrs_with_pid(spec_ctrs_with_pid(old(regs).pipe_ctr, pipe, PID_NAK), pipe, PID_BUF)
            == spec_ctrs_with_pid(old(regs).pipe_ctr, pipe, PID_BUF));
        let mut s: Vec<TransferStep> = Vec::new();
        s.push(TransferStep::SelectPipe(pipe));
        push_pid_step(&mut s, pipe, PID_NAK);
        push_set_ep_steps(&mut s, pipe, ep_num, false, PipeType::Bulk, mxps);
        push_clear_fifo_steps(&mut s, pipe, sel);
        push_pid_step(&mut s, pipe, PID_BUF);
        assert(s@ =~= spec_config_bulk_out_steps(pipe, ep_num, mxps, old(regs).cfifosel));
        s
    }

    /// Configures `pipe` as a bulk IN pipe of endpoint `ep_num`: select it, NAK it,
    /// set its endpoint and clear its FIFO. Returns the writes and waits in order.
    pub fn bus_pipe_config_bulk_in(&mut self, regs: &mut UsbhsRegs, pipe: u8, ep_num: u8, mxps: u16) -> (s: Vec<TransferStep>)
        requires
            pipe < 16,
        ensures
            s@ == spec_config_bulk_in_steps(pipe, ep_num, mxps, old(regs).cfifosel),
            final(regs).pipes@ == old(regs).pipes@.update(pipe as int,
                spec_pipe_ep(old(regs).pipes[pipe as int], ep_num, true, PipeType::Bulk, mxps)),
            *final(regs) == (UsbhsRegs {
                pipes: final(regs).pipes,
                pipesel: pipe,
                cfifosel: UsbCfifoSel { curpipe: pipe, ..old(regs).cfifosel },
                ..spec_hs_with_pipe_pid(*old(regs), pipe, PID_NAK)
            }),
    {
        self.bus_select_pipe(regs, pipe);
        self.bus_pipe_nak(regs, pipe);
        self.bus_pipe_set_ep(regs, pipe, ep_num, true, PipeType::Bulk, mxps);
        assert(pipe & 0xf == pipe) by (bit_vector)
            requires
                pipe < 16,
        ;
        let sel = regs.cfifosel;
        self.bus_pipe_clear_fifo(regs, pipe);
        let mut s: Vec<TransferStep> = Vec::new();
        s.push(TransferStep::SelectPipe(pipe));
        push_pid_step(&mut s, pipe, PID_NAK);
        push_set_ep_steps(&mut s, pipe, ep_num, true, PipeType::Bulk, mxps);
        push_clear_fifo_steps(&mut s, pipe, sel);
        assert(s@ =~= spec_config_bulk_in_steps(pipe, ep_num, mxps, old(regs).cfifosel));
        s
    }

    /// Points CFIFO at `pipe` for writing (`is_in`) or reading, 32-bit wide, then
    /// waits until CURPIPE reads back and FRDY is set. Returns those steps in order.
    pub fn bus_fifo_select(&mut self, regs: &mut UsbhsRegs, pipe: u8, is_in: bool) -> (s: Vec<TransferStep>)
        requires
            pipe < 16,
        ensures
            s@ == seq![
                TransferStep::SelectFifo(UsbCfifoSel { curpipe: pipe, isel: is_in, mbw: HS_MBW_32 }),
                TransferStep::AwaitCurpipe(pipe),
                TransferStep::AwaitFifoReady,
            ],
            *final(regs) == (UsbhsRegs { cfifosel: UsbCfifoSel { curpipe: pipe, isel: is_in, mbw: HS_MBW_32 }, ..*old(regs) }),
    {
        let sel = UsbCfifoSel { curpipe: pipe, isel: is_in, mbw: HS_MBW_32 };
        regs.cfifosel = sel;
        let mut s: Vec<TransferStep> = Vec::new();
        s.push(TransferStep::SelectFifo(sel));
        s.push(TransferStep::AwaitCurpipe(pipe));
        s.push(TransferStep::AwaitFifoReady);
        assert(s@ =~= seq![
            TransferStep::SelectFifo(sel),
            TransferStep::AwaitCurpipe(pipe),
            TransferStep::AwaitFifoReady,
        ]);
        s
    }

    /// Whether an IN packet can be loaded: the FIFO port is ready and pipe 1, 2 or
    /// 3 is not busy (other pipes count as busy).
    pub fn bus_pipe_tx_ready(&mut self, regs: &UsbhsRegs, pipe: u8) -> (r: bool)
        ensures
            r == spec_hs_tx_ready(*regs, pipe),
    {
        let ready = regs.cfifoctr.frdy;
        let busy = if pipe == 1 {
            regs.pipe_ctr.pipe1.pbusy
        } else if pipe == 2 {
            regs.pipe_ctr.pipe2.pbusy
        } else if pipe == 3 {
            regs.pipe_ctr.pipe3.pbusy
        } else {
            true
        };
        ready && !busy
    }

    /// Whether `pipe` has received data (its BRDYSTS bit).
    pub fn bus_pipe_rx_ready(&mut self, regs: &UsbhsRegs, pipe: u8) -> (r: bool)
        requires
            pipe < 16,
        ensures
            r == (regs.brdysts & (1u16 << pipe) != 0),
    {
        regs.brdysts & (1u16 << pipe) != 0
    }

    /// Prepares reading an OUT packet of `pipe`: selects the pipe; a pipe that has
    /// received nothing (its BRDYSTS bit clear) gives `WouldBlock`; otherwise
    /// points CFIFO at the pipe for reading, 32-bit wide. Returns the steps in
    /// order (`spec_pipe_read_select_steps`) and whether the read goes on; after
    /// them the model's CFIFOCTR.DTLN is to be read for `bus_pipe_read_out`.
    pub fn bus_pipe_read_select(&mut self, regs: &mut UsbhsRegs, pipe: u8) -> (r: (Vec<TransferStep>, Result<(), BusError>))
        requires
            pipe < 16,
        ensures
            ({
                let ready = old(regs).brdysts & (1u16 << pipe) != 0;
                &&& r.0@ == spec_pipe_read_select_steps(pipe, ready)
                &&& r.1 == (if ready { Ok(()) } else { Err(BusError::WouldBlock) })
                &&& *final(regs) == (if ready {
                    UsbhsRegs { pipesel: pipe, cfifosel: spec_pipe_read_cfifosel(pipe), ..*old(regs) }
                } else {
                    spec_hs_selected(*old(regs), pipe)
                })
            }),
    {
        self.bus_select_pipe(regs, pipe);
        let mut s: Vec<TransferStep> = Vec::new();
        s.push(TransferStep::SelectPipe(pipe));
        if !self.bus_pipe_rx_ready(regs, pipe) {
            assert(s@ =~= spec_pipe_read_select_steps(pipe, false));
            return (s, Err(BusError::WouldBlock));
        }
        self.bus_fifo_select(regs, pipe, false);
        s.push(TransferStep::SelectFifo(UsbCfifoSel { curpipe: pipe, isel: false, mbw: HS_MBW_32 }));
        s.push(TransferStep::AwaitCurpipe(pipe));
        s.push(TransferStep::AwaitFifoReady);
        assert(s@ =~= spec_pipe_read_select_steps(pipe, true));
        (s, Ok(()))
    }

    /// Reads an OUT packet of `pipe` into a buffer of `buf_len` bytes, once
    /// `bus_pipe_read_select` went on and the model holds CFIFOCTR.DTLN.
    ///
    /// When DTLN exceeds the buffer, `BufferOverflow`: nothing is read, cleared or
    /// handed back. Otherwise returns DTLN and the steps: the reads of the DTLN
    /// bytes, BCLR, and PID = BUF so that the pipe receives again. The caller
    /// stores what the reads gave with `bus_fifo_read`.
    pub fn bus_pipe_read_out(&mut self, regs: &mut UsbhsRegs, pipe: u8, buf_len: usize) -> (r: Result<(usize, Vec<TransferStep>), BusError>)
        ensures
            r is Err <==> old(regs).cfifoctr.dtln > buf_len,
            r matches Err(e) ==> e == BusError::BufferOverflow && *final(regs) == *old(regs),
            r matches Ok(p) ==> p.0 == old(regs).cfifoctr.dtln
                && p.1@ == spec_read_steps(old(regs).cfifoctr.dtln as nat) + seq![TransferStep::ClearBuffer]
                    + spec_pid_steps(pipe, PID_BUF)
                && *final(regs) == spec_hs_with_pipe_pid(*old(regs), pipe, PID_BUF),
    {
        match self.bus_fifo_read_steps(regs, buf_len) {
            Err(e) => Err(e),
            Ok((n, mut s)) => {
                push_pid_step(&mut s, pipe, PID_BUF);
                self.bus_pipe_prepare_out(regs, pipe);
                Ok((n, s))
            },
        }
    }

    /// Selects `pipe` and returns its maximum packet size.
    pub fn bus_pipe_mxps(&mut self, regs: &mut UsbhsRegs, pipe: u8) -> (m: u16)
        requires
            pipe < 16,
        ensures
            *final(regs) == spec_hs_selected(*old(regs), pipe),
            m == old(regs).pipes[pipe as int].mxps,
    {
        self.bus_select_pipe(regs, pipe);
        regs.pipes[pipe as usize].mxps
    }

    /// The FIFO writes that carry `data`.
    pub fn bus_fifo_write(&mut self, data: &[u8]) -> (w: Vec<FifoWrite>)
        ensures
            w@ == spec_fifo_writes(data@),
    {
        fifo_writes(data)
    }

    /// Number of bytes received in the FIFO buffer (CFIFOCTR.DTLN).
    pub fn bus_fifo_data_len(&mut self, regs: &UsbhsRegs) -> (n: u16)
        ensures
            n == regs.cfifoctr.dtln,
    {
        regs.cfifoctr.dtln
    }

    /// Loads `data` into the IN FIFO of `pipe` and hands the pipe to the bus.
    ///
    /// Selects the pipe (PIPESEL); a pipe that is not ready gives `WouldBlock` and
    /// a payload longer than the pipe's maximum packet size gives
    /// `BufferOverflow`. Otherwise returns the payload length and the steps that
    /// follow the selection (`spec_pipe_write_steps`): CFIFO on the pipe for
    /// writing, the waits for CURPIPE and FRDY, BCLR, the payload writes, BVAL,
    /// and PID = BUF.
    pub fn bus_pipe_write_in(&mut self, regs: &mut UsbhsRegs, pipe: u8, data: &[u8]) -> (r: Result<(usize, Vec<TransferStep>), BusError>)
        requires
            pipe < 16,
        ensures
            !spec_hs_tx_ready(*old(regs), pipe) ==> r == Err::<(usize, Vec<TransferStep>), BusError>(BusError::WouldBlock),
            spec_hs_tx_ready(*old(regs), pipe) && data@.len() > old(regs).pipes[pipe as int].mxps
                ==> r == Err::<(usize, Vec<TransferStep>), BusError>(BusError::BufferOverflow),
            r is Err ==> *final(regs) == spec_hs_selected(*old(regs), pipe),
            spec_hs_tx_ready(*old(regs), pipe) && data@.len() <= old(regs).pipes[pipe as int].mxps ==> r is Ok,
            r matches Ok(p) ==> p.0 == data@.len() && p.1@ == spec_pipe_write_steps(pipe, data@)
                && *final(regs) == (UsbhsRegs {
                    pipesel: pipe,
                    cfifosel: spec_pipe_write_cfifosel(pipe),
                    ..spec_hs_with_pipe_pid(*old(regs), pipe, PID_BUF)
                }),
    {
        regs.pipesel = pipe;
        let ready = self.bus_pipe_tx_ready(regs, pipe);
        let mxps = regs.pipes[pipe as usize].mxps;
        if !ready {
            Err(BusError::WouldBlock)
        } else if data.len() > mxps as usize {
            Err(BusError::BufferOverflow)
        } else {
            let sel = UsbCfifoSel { curpipe: pipe, isel: true, mbw: HS_MBW_32 };
            regs.cfifosel = sel;
            let mut s: Vec<TransferStep> = Vec::new();
            s.push(TransferStep::SelectFifo(sel));
            s.push(TransferStep::AwaitCurpipe(pipe));
            s.push(TransferStep::AwaitFifoReady);
            s.push(TransferStep::ClearBuffer);
            let ghost p1 = s@;
            push_write_steps(&mut s, data, false);
            let ghost p2 = s@;
            s.push(TransferStep::CommitBuffer);
            s.push(TransferStep::SetPipePid { pipe, pid: PID_BUF });
            Self::set_pipe_pid(regs, pipe, PID_BUF);
            proof {
                assert(p1 =~= seq![
                    TransferStep::SelectFifo(spec_pipe_write_cfifosel(pipe)),
                    TransferStep::AwaitCurpipe(pipe),
                    TransferStep::AwaitFifoReady,
                    TransferStep::ClearBuffer,
                ]);
                assert(s@ =~= p2 + seq![TransferStep::CommitBuffer, TransferStep::SetPipePid { pipe: pipe, pid: PID_BUF }]);
            }
            Ok((data.len(), s))
        }
    }

    /// The number of bytes to read from the FIFO that CFIFO points at (its
    /// CFIFOCTR.DTLN once FRDY is set); a buffer of `buf_len` bytes that cannot
    /// take them gives `BufferOverflow`.
    pub fn bus_fifo_read_len(&mut self, regs: &UsbhsRegs, buf_len: usize) -> (r: Result<usize, BusError>)
        ensures
            r == (if regs.cfifoctr.dtln > buf_len {
                Err(BusError::BufferOverflow)
            } else {
                Ok(regs.cfifoctr.dtln as usize)
            }),
    {
        let dtln = self.bus_fifo_data_len(regs) as usize;
        if dtln > buf_len {
            Err(BusError::BufferOverflow)
        } else {
            Ok(dtln)
        }
    }

    /// Stores the bytes that a series of FIFO reads delivered at the start of `buf`,
    /// leaving the rest of `buf` as it was. Returns how many bytes were stored.
    pub fn bus_fifo_read(&mut self, buf: &mut [u8], reads: &[FifoWrite]) -> (n: usize)
        requires
            crate::usb::regs::spec_fifo_bytes(reads@).len() <= old(buf)@.len(),
        ensures
            n == crate::usb::regs::spec_fifo_bytes(reads@).len(),
            final(buf)@ == crate::usb::regs::spec_fifo_bytes(reads@) + old(buf)@.skip(n as int),
    {
        crate::usb::regs::fifo_store(buf, reads)
    }

    /// Clears LPSTS.SUSPENDM, suspending the PHY.
    pub fn bus_suspend(&mut self, regs: &mut UsbhsRegs)
        ensures
            *final(regs) == (UsbhsRegs { suspendm: false, ..*old(regs) }),
    {
        regs.suspendm = false;
    }

    /// Sets LPSTS.SUSPENDM, resuming the PHY.
    pub fn bus_resume(&mut self, regs: &mut UsbhsRegs)
        ensures
            *final(regs) == (UsbhsRegs { suspendm: true, ..*old(regs) }),
    {
        regs.suspendm = true;
    }

}

// ---------------------------------------------------------------------------
// Laws
// ---------------------------------------------------------------------------

/// On a running USBFS, `connect` makes it connected and `disconnect` leaves it
/// running but not connected.
pub proof fn lemma_fs_connect_disconnect(mstp: MstpRegs, r: UsbfsRegs)
    requires
        spec_fs_enabled(mstp, r),
    ensures
        spec_fs_connected(mstp, spec_fs_with_dprpu(r, true)),
        spec_fs_enabled(mstp, spec_fs_with_dprpu(r, false)),
        !spec_fs_connected(mstp, spec_fs_with_dprpu(r, false)),
{
}

/// `enable` leaves USBFS running, and a successful `disable` leaves it stopped.
pub proof fn lemma_fs_enable_disable(mstp: MstpRegs, r: UsbfsRegs)
    ensures
        spec_fs_enabled(spec_with_mstpb11(mstp, false), spec_fs_enabled_regs(r)),
        !spec_fs_enabled(spec_with_mstpb11(mstp, true), spec_fs_disabled_regs(r)),
{
}

/// A bring-up of a stopped USBHS with a supported crystal, once the PLL locked
/// and `config_finish` ran, leaves the device running and connected.
pub proof fn lemma_hs_bring_up_connects(mstp: MstpRegs, r: UsbhsRegs, xtal_hz: u32, iclk_hz: u32)
    requires
        !spec_hs_enabled(mstp, r),
        spec_hs_clksel(xtal_hz) is Some,
    ensures
        spec_hs_config(mstp, r, xtal_hz, iclk_hz).1 is Ok,
        ({
            let (m2, r2) = spec_hs_config_regs(mstp, r, xtal_hz);
            spec_hs_connected(m2, UsbhsRegs { syscfg: spec_hs_attach_syscfg(r2.syscfg), ..r2 })
        }),
{
}

/// The FIFO accesses that were performed for a read plan: one per read step, a
/// word where the step reads a word and a byte where it reads a byte.
pub open spec fn spec_reads_follow(plan: Seq<TransferStep>, reads: Seq<FifoWrite>) -> bool {
    &&& reads.len() == plan.len()
    &&& forall|k: int| 0 <= k < reads.len() ==> (#[trigger] reads[k] is Word <==> plan[k] == TransferStep::ReadWord)
}

/// Reads performed as a read plan for `n` bytes asks deliver exactly `n` bytes,
/// whatever values they returned; `bus_fifo_read` then stores them at the start
/// of the buffer.
pub proof fn lemma_read_plan_delivers(n: nat, reads: Seq<FifoWrite>)
    requires
        spec_reads_follow(spec_read_steps(n), reads),
    ensures
        spec_fifo_bytes(reads).len() == n,
    decreases n,
{
    let plan = spec_read_steps(n);
    if n == 0 {
        assert(reads.len() == 0);
    } else if n == 1 {
        assert(plan[0] == TransferStep::ReadByte);
        assert(reads[0] is Byte);
        assert(reads.drop_first().len() == 0);
        assert(spec_fifo_bytes(reads.drop_first()).len() == 0);
    } else {
        let m = (n - 2) as nat;
        let rest = reads.drop_first();
        assert(plan[0] == TransferStep::ReadWord);
        assert(reads[0] is Word);
        assert forall|k: int| 0 <= k < rest.len() implies (#[trigger] rest[k] is Word <==> spec_read_steps(m)[k] == TransferStep::ReadWord) by {
            assert(rest[k] == reads[k + 1]);
            assert(reads[k + 1] is Word <==> plan[k + 1] == TransferStep::ReadWord);
        }
        lemma_read_plan_delivers(m, rest);
    }
}

/// A stopped USBHS is brought up for each crystal that it supports: 12 MHz with
/// PHYSET.CLKSEL = 0b00, 20 MHz with 0b10 and 24 MHz with 0b11, ending with the PLL
/// lock wait; any other crystal is refused with the crystal error after the module
/// was started and SYSCFG written.
pub proof fn lemma_hs_supported_crystals(mstp: MstpRegs, r: UsbhsRegs, xtal_hz: u32, iclk_hz: u32)
    requires
        !spec_hs_enabled(mstp, r),
    ensures
        xtal_hz == 12_000_000 ==> spec_hs_config(mstp, r, xtal_hz, iclk_hz).1 is Ok
            && spec_hs_config_regs(mstp, r, xtal_hz).1.physet.clksel == 0b00,
        xtal_hz == 20_000_000 ==> spec_hs_config(mstp, r, xtal_hz, iclk_hz).1 is Ok
            && spec_hs_config_regs(mstp, r, xtal_hz).1.physet.clksel == 0b10,
        xtal_hz == 24_000_000 ==> spec_hs_config(mstp, r, xtal_hz, iclk_hz).1 is Ok
            && spec_hs_config_regs(mstp, r, xtal_hz).1.physet.clksel == 0b11,
        (xtal_hz == 12_000_000 || xtal_hz == 20_000_000 || xtal_hz == 24_000_000) ==> ({
            let steps = spec_hs_config(mstp, r, xtal_hz, iclk_hz).0;
            &&& steps.len() == 9
            &&& steps[0] == UsbHsConfigStep::SetMstpB12(false)
            &&& steps[8] == UsbHsConfigStep::AwaitPllLock { polls: 1_000_000 }
        }),
        !(xtal_hz == 12_000_000 || xtal_hz == 20_000_000 || xtal_hz == 24_000_000)
            ==> spec_hs_config(mstp, r, xtal_hz, iclk_hz).1
                == Err::<(), RegisterError>(RegisterError::InvalidValue("XTAL_HZ should be 12MHz, 20MHz or 24MHz")),
{
}

/// The acknowledging writes of a poll clear exactly the flags they acknowledge:
/// INTSTS0 keeps every bit but CTRT and DVST, INTSTS1 every bit but SIGN and
/// SACK, and each BRDYSTS write holds 0 exactly at the pending bits it clears.
pub proof fn lemma_bus_ack_clears_acknowledged(s: UsbhsIntStatus)
    ensures
        ({
            let a0 = s.intsts0 & 0xE7FF;
            let a1 = s.intsts1 & 0xFFCF;
            &&& a0 & 0x1800 == 0
            &&& a0 | (s.intsts0 & 0x1800) == s.intsts0
            &&& a1 & 0x30 == 0
            &&& a1 | (s.intsts1 & 0x30) == s.intsts1
        }),
        forall|i: int|
            0 <= i < spec_bus_ack_brdysts(s).len() ==> {
                let w = #[trigger] spec_bus_ack_brdysts(s)[i];
                let p = if spec_brdy(s) && spec_brdy_pending(s) != 0 && i == 0 {
                    spec_brdy_pending(s)
                } else {
                    spec_bemp_pending(s)
                };
                w == !p && w & p == 0 && w | p == 0xFFFF
            },
{
    let i0 = s.intsts0;
    let i1 = s.intsts1;
    assert(
        (i0 & 0xE7FF) & 0x1800 == 0 && (i0 & 0xE7FF) | (i0 & 0x1800) == i0
        && (i1 & 0xFFCF) & 0x30 == 0 && (i1 & 0xFFCF) | (i1 & 0x30) == i1
    ) by (bit_vector);
    let bp = spec_brdy_pending(s);
    let ep = spec_bemp_pending(s);
    assert((!bp) & bp == 0 && (!bp) | bp == 0xFFFF && (!ep) & ep == 0 && (!ep) | ep == 0xFFFF) by (bit_vector);
}

} // verus!
