//! The USB device bus on USBHS: endpoint allocation and the per-endpoint state
//! that a USB device stack drives.
//!
//! The bus serves a fixed layout: endpoint 0 (control), endpoint 1 IN (interrupt,
//! pipe 1), endpoint 2 OUT (bulk, pipe 2) and endpoint 3 IN (bulk, pipe 3).
use vstd::prelude::*;

use crate::usb::regs::{
    PipeCtr, PipeCtrs, PipeType, PipeWindow, UsbCfifoSel, UsbDcp, UsbhsRegs, HS_MBW_32, PID_BUF,
    PID_NAK, PID_STALL,
};
use crate::usb::{BusError, BusEventAck, BusPoll, TransferStep, UsbHs, UsbhsIntStatus};

verus! {

/// Direction of an endpoint.
#[derive(Copy, Clone, Debug, PartialEq, Eq, Structural)]
pub enum EpDirection {
    /// Host to device.
    Out,
    /// Device to host.
    In,
}

impl EpDirection {
    /// The direction bit of an endpoint address.
    pub open spec fn spec_bits(self) -> u8 {
        match self {
            EpDirection::Out => 0x00,
            EpDirection::In => 0x80,
        }
    }
}

/// Transfer type of an endpoint.
#[derive(Copy, Clone, Debug, PartialEq, Eq, Structural)]
pub enum EpType {
    Control,
    Isochronous,
    Bulk,
    Interrupt,
}

/// The address of endpoint `index` in direction `dir`: the index in the low bits,
/// the direction in bit 7.
pub open spec fn spec_ep_address(index: u8, dir: EpDirection) -> u8 {
    index | dir.spec_bits()
}

/// The endpoint number of an address (bit 7 cleared).
pub open spec fn spec_ep_index(addr: u8) -> u8 {
    addr & 0x7f
}

fn ep_address(index: u8, dir: EpDirection) -> (a: u8)
    ensures
        a == spec_ep_address(index, dir),
{
    match dir {
        EpDirection::Out => index | 0x00,
        EpDirection::In => index | 0x80,
    }
}

fn ep_index(addr: u8) -> (i: u8)
    ensures
        i == spec_ep_index(addr),
{
    addr & 0x7f
}

/// One allocated (or free) endpoint.
#[derive(Copy, Clone, Debug, PartialEq, Eq, Structural)]
pub struct EpAlloc {
    pub addr: u8,
    pub ep_type: EpType,
    pub max_packet_size: u16,
    pub interval: u8,
    pub pipe: u8,
    pub used: bool,
    pub stalled: bool,
}

/// A free endpoint slot.
pub open spec fn spec_ep_empty() -> EpAlloc {
    EpAlloc {
        addr: 0,
        ep_type: EpType::Bulk,
        max_packet_size: 0,
        interval: 0,
        pipe: 0,
        used: false,
        stalled: false,
    }
}

/// `e` is allocated with address `addr`.
pub open spec fn spec_ep_matches(e: EpAlloc, addr: u8) -> bool {
    e.used && e.addr == addr
}

/// The first of four slots allocated with address `addr`.
pub open spec fn spec_find_index(eps: [EpAlloc; 4], addr: u8) -> Option<int> {
    if spec_ep_matches(eps[0], addr) {
        Some(0)
    } else if spec_ep_matches(eps[1], addr) {
        Some(1)
    } else if spec_ep_matches(eps[2], addr) {
        Some(2)
    } else if spec_ep_matches(eps[3], addr) {
        Some(3)
    } else {
        None
    }
}

/// The first endpoint allocated with address `addr`.
pub open spec fn spec_find_alloc(eps: [EpAlloc; 4], addr: u8) -> Option<EpAlloc> {
    match spec_find_index(eps, addr) {
        Some(i) => Some(eps[i]),
        None => None,
    }
}

/// The endpoint that the bus gives for a direction and type: 1 IN interrupt,
/// 2 OUT bulk, 3 IN bulk; no other combination is supported.
pub open spec fn spec_fixed_candidate(dir: EpDirection, ep_type: EpType) -> Option<u8> {
    match (dir, ep_type) {
        (EpDirection::In, EpType::Interrupt) => Some(0x81u8),
        (EpDirection::Out, EpType::Bulk) => Some(0x02u8),
        (EpDirection::In, EpType::Bulk) => Some(0x83u8),
        _ => None,
    }
}

/// The slot of the control endpoint allocated in direction `dir`.
pub open spec fn spec_control_slot(dir: EpDirection, max_packet_size: u16) -> EpAlloc {
    EpAlloc {
        addr: spec_ep_address(0, dir),
        ep_type: EpType::Control,
        max_packet_size: max_packet_size,
        interval: 0,
        pipe: 0,
        used: true,
        stalled: false,
    }
}

/// What allocating the control endpoint answers, and the slots after it.
pub open spec fn spec_alloc_control(
    eps: Seq<EpAlloc>,
    ep0_allocated: bool,
    dir: EpDirection,
    max_packet_size: u16,
) -> (Result<u8, BusError>, Seq<EpAlloc>) {
    if ep0_allocated {
        (Err(BusError::InvalidEndpoint), eps)
    } else if max_packet_size > 64 {
        (Err(BusError::Unsupported), eps)
    } else {
        (Ok(spec_ep_address(0, dir)), eps.update(0, spec_control_slot(dir, max_packet_size)))
    }
}

/// What allocating a fixed endpoint answers, and the slots after it: the endpoint
/// for `dir` and `ep_type`, served by the pipe of its number and stalled.
pub open spec fn spec_alloc_fixed(
    eps: Seq<EpAlloc>,
    dir: EpDirection,
    ep_type: EpType,
    requested: Option<u8>,
    max_packet_size: u16,
    interval: u8,
) -> (Result<u8, BusError>, Seq<EpAlloc>) {
    match spec_fixed_candidate(dir, ep_type) {
        None => (Err(BusError::Unsupported), eps),
        Some(c) => {
            let slot = spec_ep_index(c) as int;
            if requested is Some && requested->0 != c {
                (Err(BusError::InvalidEndpoint), eps)
            } else if eps[slot].used {
                (Err(BusError::InvalidEndpoint), eps)
            } else {
                (Ok(c), eps.update(slot, EpAlloc {
                    addr: c,
                    ep_type: ep_type,
                    max_packet_size: max_packet_size,
                    interval: interval,
                    pipe: slot as u8,
                    used: true,
                    stalled: true,
                }))
            }
        },
    }
}

/// The allocation state of the bus.
pub struct BusState {
    enabled: bool,
    suspended: bool,
    ep0_allocated: bool,
    eps: [EpAlloc; 4],
}

impl BusState {
    /// Every endpoint is served by pipe 0 to 3.
    #[verifier::type_invariant]
    closed spec fn pipes_in_range(self) -> bool {
        &&& self.eps[0].pipe <= 3
        &&& self.eps[1].pipe <= 3
        &&& self.eps[2].pipe <= 3
        &&& self.eps[3].pipe <= 3
    }

    pub closed spec fn spec_enabled(&self) -> bool {
        self.enabled
    }

    pub closed spec fn spec_suspended(&self) -> bool {
        self.suspended
    }

    pub closed spec fn spec_ep0_allocated(&self) -> bool {
        self.ep0_allocated
    }

    /// The four endpoint slots: endpoint 0, then endpoints 1, 2 and 3.
    pub closed spec fn spec_eps(&self) -> [EpAlloc; 4] {
        self.eps
    }

    /// A bus with nothing allocated, not enabled and not suspended.
    pub fn new() -> (s: Self)
        ensures
            !s.spec_enabled(),
            !s.spec_suspended(),
            !s.spec_ep0_allocated(),
            s.spec_eps()@ == seq![spec_ep_empty(), spec_ep_empty(), spec_ep_empty(), spec_ep_empty()],
    {
        let e = EpAlloc {
            addr: ep_address(0, EpDirection::Out),
            ep_type: EpType::Bulk,
            max_packet_size: 0,
            interval: 0,
            pipe: 0,
            used: false,
            stalled: false,
        };
        assert(0u8 | 0u8 == 0u8) by (bit_vector);
        let s = BusState { enabled: false, suspended: false, ep0_allocated: false, eps: [e, e, e, e] };
        assert(s.eps@ =~= seq![spec_ep_empty(), spec_ep_empty(), spec_ep_empty(), spec_ep_empty()]);
        s
    }

    /// The first slot allocated with address `ep_addr`.
    pub fn find_alloc(&self, ep_addr: u8) -> (r: Option<EpAlloc>)
        ensures
            r == spec_find_alloc(self.spec_eps(), ep_addr),
    {
        let mut i: usize = 0;
        while i < 4
            invariant
                i <= 4,
                forall|j: int| 0 <= j < i ==> !spec_ep_matches(#[trigger] self.eps[j], ep_addr),
            decreases 4 - i,
        {
            if self.eps[i].used && self.eps[i].addr == ep_addr {
                return Some(self.eps[i]);
            }
            i = i + 1;
        }
        None
    }

    /// The first slot allocated with address `ep_addr`, by position.
    fn find_index(&self, ep_addr: u8) -> (r: Option<usize>)
        ensures
            match spec_find_index(self.eps, ep_addr) {
                Some(i) => r == Some(i as usize),
                None => r is None,
            },
    {
        let mut i: usize = 0;
        while i < 4
            invariant
                i <= 4,
                forall|j: int| 0 <= j < i ==> !spec_ep_matches(#[trigger] self.eps[j], ep_addr),
            decreases 4 - i,
        {
            if self.eps[i].used && self.eps[i].addr == ep_addr {
                return Some(i);
            }
            i = i + 1;
        }
        None
    }

    /// Allocates endpoint 0 as the control endpoint in direction `dir`. Refused when
    /// it was allocated before, and for a packet size above 64.
    pub fn alloc_control(&mut self, dir: EpDirection, max_packet_size: u16) -> (r: Result<u8, BusError>)
        ensures
            (r, final(self).spec_eps()@) == spec_alloc_control(old(self).spec_eps()@, old(self).spec_ep0_allocated(), dir, max_packet_size),
            final(self).spec_ep0_allocated() == (old(self).spec_ep0_allocated() || r is Ok),
            final(self).spec_enabled() == old(self).spec_enabled(),
            final(self).spec_suspended() == old(self).spec_suspended(),
    {
        proof {
            use_type_invariant(&*self);
        }
        if self.ep0_allocated {
            return Err(BusError::InvalidEndpoint);
        }
        if max_packet_size > 64 {
            return Err(BusError::Unsupported);
        }
        let addr = ep_address(0, dir);
        self.eps[0] = EpAlloc {
            addr,
            ep_type: EpType::Control,
            max_packet_size,
            interval: 0,
            pipe: 0,
            used: true,
            stalled: false,
        };
        self.ep0_allocated = true;
        Ok(addr)
    }

    /// Allocates the fixed endpoint for `dir` and `ep_type` (1 IN interrupt, 2 OUT
    /// bulk, 3 IN bulk), served by the pipe of the same number and stalled until the
    /// host configures it. Refused for any other combination, for a requested
    /// address other than that endpoint's, and when it was allocated before.
    pub fn alloc_fixed(
        &mut self,
        dir: EpDirection,
        ep_type: EpType,
        requested: Option<u8>,
        max_packet_size: u16,
        interval: u8,
    ) -> (r: Result<u8, BusError>)
        ensures
            (r, final(self).spec_eps()@) == spec_alloc_fixed(old(self).spec_eps()@, dir, ep_type, requested, max_packet_size, interval),
            final(self).spec_ep0_allocated() == old(self).spec_ep0_allocated(),
            final(self).spec_enabled() == old(self).spec_enabled(),
            final(self).spec_suspended() == old(self).spec_suspended(),
    {
        proof {
            use_type_invariant(&*self);
        }
        let candidate: u8 = match (dir, ep_type) {
            (EpDirection::In, EpType::Interrupt) => 0x81,
            (EpDirection::Out, EpType::Bulk) => 0x02,
            (EpDirection::In, EpType::Bulk) => 0x83,
            _ => {
                return Err(BusError::Unsupported);
            },
        };
        if let Some(req) = requested {
            if req != candidate {
                return Err(BusError::InvalidEndpoint);
            }
        }
        let index = ep_index(candidate);
        assert(0x81u8 & 0x7f == 1u8 && 0x02u8 & 0x7f == 2u8 && 0x83u8 & 0x7f == 3u8) by (bit_vector);
        let slot: usize = if index == 1 {
            1
        } else if index == 2 {
            2
        } else {
            3
        };
        if self.eps[slot].used {
            return Err(BusError::InvalidEndpoint);
        }
        self.eps[slot] = EpAlloc {
            addr: candidate,
            ep_type,
            max_packet_size,
            interval,
            pipe: index,
            used: true,
            stalled: true,
        };
        Ok(candidate)
    }
}

/// Where a transfer on an endpoint goes.
#[derive(Copy, Clone, Debug, PartialEq, Eq, Structural)]
pub enum EpTarget {
    /// The default control pipe.
    Ep0,
    /// The given pipe.
    Pipe(u8),
}

/// What a poll of the bus reports to the device stack.
#[derive(Copy, Clone, Debug, PartialEq, Eq, Structural)]
pub enum PollResult {
    NoEvent,
    Reset,
    Suspend,
    Resume,
    Data { ep_out: u16, ep_in_complete: u16, ep_setup: u16 },
}

/// The report for a set of bus events: a reset first, then a resume, then a
/// suspend, then endpoint data.
pub open spec fn spec_poll_result(ev: BusPoll) -> PollResult {
    if ev.reset {
        PollResult::Reset
    } else if ev.resume {
        PollResult::Resume
    } else if ev.suspend {
        PollResult::Suspend
    } else if ev.ep_out != 0 || ev.ep_in_complete != 0 || ev.ep_setup != 0 {
        PollResult::Data { ep_out: ev.ep_out, ep_in_complete: ev.ep_in_complete, ep_setup: ev.ep_setup }
    } else {
        PollResult::NoEvent
    }
}

/// The registers after the pipes of the fixed layout were configured (see
/// `UsbHsBus::init_pipes_after_reset`).
pub open spec fn spec_pipes_after_reset(before: UsbhsRegs, after: UsbhsRegs) -> bool {
    &&& after.dcp == (UsbDcp { mxps: 64, dir: false, pid: PID_NAK, ..before.dcp })
    &&& after.pipes@ == before.pipes@
        .update(1, PipeWindow { epnum: 1, dir: true, typ: PipeType::Interrupt, mxps: 64, iitv: 0 })
        .update(2, PipeWindow { epnum: 2, dir: false, typ: PipeType::Bulk, mxps: 512, ..before.pipes[2] })
        .update(3, PipeWindow { epnum: 3, dir: true, typ: PipeType::Bulk, mxps: 512, ..before.pipes[3] })
    &&& after.pipe_ctr == (PipeCtrs {
        pipe1: PipeCtr { pid: PID_NAK, ..before.pipe_ctr.pipe1 },
        pipe2: PipeCtr { pid: PID_BUF, ..before.pipe_ctr.pipe2 },
        pipe3: PipeCtr { pid: PID_NAK, ..before.pipe_ctr.pipe3 },
    })
    &&& after == (UsbhsRegs {
        dcp: after.dcp,
        pipes: after.pipes,
        pipe_ctr: after.pipe_ctr,
        pipesel: 3,
        cfifosel: UsbCfifoSel { curpipe: 3, ..before.cfifosel },
        ..before
    })
}

/// The steps that configure the fixed layout after a bus reset, CFIFOSEL being
/// `sel` before: endpoint 0 reset with 64-byte packets, then pipes 1, 2 and 3.
pub open spec fn spec_reset_pipe_steps(sel: UsbCfifoSel) -> Seq<TransferStep> {
    crate::usb::spec_ep0_reset_steps(64)
        + crate::usb::spec_config_interrupt_in_steps(1, 1, 64, 16, sel)
        + crate::usb::spec_config_bulk_out_steps(2, 2, 512, UsbCfifoSel { curpipe: 1, ..sel })
        + crate::usb::spec_config_bulk_in_steps(3, 3, 512, UsbCfifoSel { curpipe: 2, ..sel })
}

/// The USB device bus on USBHS.
pub struct UsbHsBus {
    xtal_hz: u32,
    iclk_hz: u32,
    state: BusState,
    started: bool,
}

impl UsbHsBus {
    pub closed spec fn spec_xtal_hz(&self) -> u32 {
        self.xtal_hz
    }

    pub closed spec fn spec_iclk_hz(&self) -> u32 {
        self.iclk_hz
    }

    pub closed spec fn spec_started(&self) -> bool {
        self.started
    }

    pub closed spec fn spec_state(&self) -> &BusState {
        &self.state
    }

    /// A bus for a crystal of `xtal_hz` and a CPU clock of `iclk_hz`, with nothing
    /// allocated and not started.
    pub fn new(xtal_hz: u32, iclk_hz: u32) -> (b: Self)
        ensures
            b.spec_xtal_hz() == xtal_hz,
            b.spec_iclk_hz() == iclk_hz,
            !b.spec_started(),
            !b.spec_state().spec_enabled(),
            !b.spec_state().spec_suspended(),
            !b.spec_state().spec_ep0_allocated(),
            b.spec_state().spec_eps()@ == seq![spec_ep_empty(), spec_ep_empty(), spec_ep_empty(), spec_ep_empty()],
    {
        UsbHsBus { xtal_hz, iclk_hz, state: BusState::new(), started: false }
    }

    /// The maximum packet size of the endpoint allocated at `ep_addr`.
    fn ep_max_packet_size(&self, ep_addr: u8) -> (r: Option<u16>)
        ensures
            r == (match spec_find_alloc(self.spec_state().spec_eps(), ep_addr) {
                Some(e) => Some(e.max_packet_size),
                None => None,
            }),
    {
        match self.state.find_alloc(ep_addr) {
            Some(e) => Some(e.max_packet_size),
            None => None,
        }
    }

    /// The pipe serving the endpoint allocated at `ep_addr`.
    fn ep_pipe(&self, ep_addr: u8) -> (r: Option<u8>)
        ensures
            r == (match spec_find_alloc(self.spec_state().spec_eps(), ep_addr) {
                Some(e) => Some(e.pipe),
                None => None,
            }),
            r matches Some(p) ==> p <= 3,
    {
        proof {
            use_type_invariant(&self.state);
        }
        match self.state.find_alloc(ep_addr) {
            Some(e) => Some(e.pipe),
            None => None,
        }
    }

    /// Allocates an endpoint: the control endpoint 0, or a fixed endpoint (see
    /// `BusState::alloc_fixed`). Refused once the bus is enabled, and for a control
    /// endpoint whose requested address is not endpoint 0.
    pub fn alloc_ep(
        &mut self,
        ep_dir: EpDirection,
        ep_addr: Option<u8>,
        ep_type: EpType,
        max_packet_size: u16,
        interval: u8,
    ) -> (r: Result<u8, BusError>)
        ensures
            old(self).spec_state().spec_enabled() ==> r == Err::<u8, BusError>(BusError::InvalidState)
                && final(self).spec_state().spec_eps() == old(self).spec_state().spec_eps(),
            !old(self).spec_state().spec_enabled() && ep_type == EpType::Control ==> ({
                let addr = match ep_addr {
                    Some(a) => a,
                    None => spec_ep_address(0, ep_dir),
                };
                if spec_ep_index(addr) != 0 {
                    r == Err::<u8, BusError>(BusError::InvalidEndpoint)
                        && final(self).spec_state().spec_eps() == old(self).spec_state().spec_eps()
                } else {
                    (r, final(self).spec_state().spec_eps()@) == spec_alloc_control(
                        old(self).spec_state().spec_eps()@, old(self).spec_state().spec_ep0_allocated(), ep_dir, max_packet_size)
                }
            }),
            !old(self).spec_state().spec_enabled() && ep_type != EpType::Control ==>
                (r, final(self).spec_state().spec_eps()@) == spec_alloc_fixed(
                    old(self).spec_state().spec_eps()@, ep_dir, ep_type, ep_addr, max_packet_size, interval),
            r matches Ok(a) ==> spec_find_alloc(final(self).spec_state().spec_eps(), a) is Some,
            final(self).spec_state().spec_enabled() == old(self).spec_state().spec_enabled(),
            final(self).spec_started() == old(self).spec_started(),
    {
        if self.state.enabled {
            return Err(BusError::InvalidState);
        }
        if ep_type == EpType::Control {
            let addr = match ep_addr {
                Some(a) => a,
                None => ep_address(0, ep_dir),
            };
            assert((0u8 | 0x80u8) & 0x7f == 0u8 && (0u8 | 0u8) & 0x7f == 0u8) by (bit_vector);
            if ep_index(addr) != 0 {
                return Err(BusError::InvalidEndpoint);
            }
            let r = self.state.alloc_control(ep_dir, max_packet_size);
            proof {
                if let Ok(a) = r {
                    assert(spec_ep_matches(self.state.eps[0], a));
                }
            }
            return r;
        }
        let r = self.state.alloc_fixed(ep_dir, ep_type, ep_addr, max_packet_size, interval);
        proof {
            if let Ok(c) = r {
                assert(0x81u8 & 0x7f == 1u8 && 0x02u8 & 0x7f == 2u8 && 0x83u8 & 0x7f == 3u8) by (bit_vector);
                assert(spec_ep_matches(self.state.eps[spec_ep_index(c) as int], c));
            }
        }
        r
    }

    /// Starts the bus once: the first call marks it started, enabled and not
    /// suspended and returns `true`; later calls change nothing and return `false`.
    pub fn enable(&mut self) -> (first: bool)
        ensures
            first == !old(self).spec_started(),
            final(self).spec_started(),
            first ==> final(self).spec_state().spec_enabled() && !final(self).spec_state().spec_suspended(),
            !first ==> final(self).spec_state() == old(self).spec_state(),
            final(self).spec_state().spec_eps() == old(self).spec_state().spec_eps(),
    {
        proof {
            use_type_invariant(&self.state);
        }
        if self.started {
            return false;
        }
        self.started = true;
        self.state.enabled = true;
        self.state.suspended = false;
        true
    }

    /// Configures the default control pipe and pipes 1 to 3 for the fixed layout:
    /// endpoint 0 with 64-byte packets, pipe 1 for endpoint 1 IN (interrupt, 64
    /// bytes, interval 16, of which IITV keeps 0), pipe 2 for endpoint 2 OUT (bulk,
    /// 512 bytes, ready to receive) and pipe 3 for endpoint 3 IN (bulk, 512 bytes).
    /// Returns the writes and waits in order (`spec_reset_pipe_steps`).
    pub fn init_pipes_after_reset(&self, usb: &mut UsbHs, regs: &mut UsbhsRegs) -> (s: Vec<TransferStep>)
        ensures
            spec_pipes_after_reset(*old(regs), *final(regs)),
            s@ == spec_reset_pipe_steps(old(regs).cfifosel),
    {
        assert(64u8 & 0x7f == 64u8 && 1u8 & 0xf == 1u8 && 2u8 & 0xf == 2u8 && 3u8 & 0xf == 3u8
            && 64u16 & 0x7ff == 64u16 && 512u16 & 0x7ff == 512u16 && 16u8 & 7 == 0u8) by (bit_vector);
        let mut s = usb.bus_ep0_reset(regs, 64);
        let ghost s0 = s@;
        let mut s1 = usb.bus_pipe_config_interrupt_in(regs, 1, 1, 64, 16);
        let ghost g1 = s1@;
        s.append(&mut s1);
        let mut s2 = usb.bus_pipe_config_bulk_out(regs, 2, 2, 512);
        let ghost g2 = s2@;
        s.append(&mut s2);
        let mut s3 = usb.bus_pipe_config_bulk_in(regs, 3, 3, 512);
        let ghost g3 = s3@;
        s.append(&mut s3);
        assert(s@ =~= s0 + g1 + g2 + g3);
        s
    }

    /// A bus reset: acknowledges the pending events, clears suspension and every
    /// stall, and configures the pipes again. Returns the acknowledging writes and
    /// the steps of the pipe configuration.
    pub fn reset(&mut self, usb: &mut UsbHs, regs: &mut UsbhsRegs, s: &UsbhsIntStatus) -> (r: (BusEventAck, Vec<TransferStep>))
        ensures
            crate::usb::spec_bus_ack_ok(*s, r.0),
            r.1@ == spec_reset_pipe_steps(old(regs).cfifosel),
            spec_pipes_after_reset(*old(regs), *final(regs)),
            !final(self).spec_state().spec_suspended(),
            forall|i: int| 0 <= i < 4 ==> #[trigger] final(self).spec_state().spec_eps()[i] == (EpAlloc {
                stalled: if old(self).spec_state().spec_eps()[i].used { false } else { old(self).spec_state().spec_eps()[i].stalled },
                ..old(self).spec_state().spec_eps()[i]
            }),
            final(self).spec_state().spec_enabled() == old(self).spec_state().spec_enabled(),
    {
        proof {
            use_type_invariant(&self.state);
        }
        let a = usb.bus_clear_bus_events(s);
        self.state.suspended = false;
        let mut i: usize = 0;
        while i < 4
            invariant
                i <= 4,
                !self.state.suspended,
                self.state.enabled == old(self).state.enabled,
                self.state.ep0_allocated == old(self).state.ep0_allocated,
                forall|j: int| 0 <= j < i ==> #[trigger] self.state.eps[j] == (EpAlloc {
                    stalled: if old(self).state.eps[j].used { false } else { old(self).state.eps[j].stalled },
                    ..old(self).state.eps[j]
                }),
                forall|j: int| i <= j < 4 ==> #[trigger] self.state.eps[j] == old(self).state.eps[j],
                old(self).state.eps[0].pipe <= 3 && old(self).state.eps[1].pipe <= 3,
                old(self).state.eps[2].pipe <= 3 && old(self).state.eps[3].pipe <= 3,
            decreases 4 - i,
        {
            if self.state.eps[i].used {
                let mut e = self.state.eps[i];
                e.stalled = false;
                self.state.eps[i] = e;
            }
            i = i + 1;
        }
        let steps = self.init_pipes_after_reset(usb, regs);
        (a, steps)
    }

    /// The device address is taken by the hardware; nothing to write.
    pub fn set_device_address(&self, usb: &mut UsbHs, addr: u8) {
        usb.bus_set_address(addr);
    }

    /// Sends `buf` on the IN endpoint at `ep_addr`. Refused for an address that is
    /// not allocated and for a payload above its maximum packet size; otherwise
    /// loads endpoint 0 or the endpoint's pipe, with the answers of
    /// `bus_ep0_write_in` and `bus_pipe_write_in`: endpoint 0 gives `WouldBlock`
    /// exactly when it is busy, a pipe gives `WouldBlock` when it cannot take a
    /// packet and `BufferOverflow` when the payload exceeds the pipe's own
    /// maximum packet size.
    pub fn write(&self, usb: &mut UsbHs, regs: &mut UsbhsRegs, ep_addr: u8, buf: &[u8]) -> (r: Result<(usize, Vec<TransferStep>), BusError>)
        ensures
            spec_find_alloc(self.spec_state().spec_eps(), ep_addr) is None
                ==> r == Err::<(usize, Vec<TransferStep>), BusError>(BusError::InvalidEndpoint),
            spec_find_alloc(self.spec_state().spec_eps(), ep_addr) matches Some(e)
                && buf@.len() > e.max_packet_size ==> r == Err::<(usize, Vec<TransferStep>), BusError>(BusError::BufferOverflow),
            spec_find_alloc(self.spec_state().spec_eps(), ep_addr) is None ==> *final(regs) == *old(regs),
            spec_find_alloc(self.spec_state().spec_eps(), ep_addr) matches Some(e)
                && buf@.len() <= e.max_packet_size && spec_ep_index(ep_addr) == 0 ==> ({
                &&& r is Err <==> (old(regs).dcp.pid != PID_NAK && old(regs).dcp.pbusy)
                &&& r is Err ==> r == Err::<(usize, Vec<TransferStep>), BusError>(BusError::WouldBlock)
                    && *final(regs) == *old(regs)
            }),
            spec_find_alloc(self.spec_state().spec_eps(), ep_addr) matches Some(e)
                && buf@.len() <= e.max_packet_size && spec_ep_index(ep_addr) != 0 ==> ({
                let pipe = spec_find_alloc(self.spec_state().spec_eps(), ep_addr)->0.pipe;
                &&& !crate::usb::spec_hs_tx_ready(*old(regs), pipe)
                    ==> r == Err::<(usize, Vec<TransferStep>), BusError>(BusError::WouldBlock)
                &&& crate::usb::spec_hs_tx_ready(*old(regs), pipe) && buf@.len() > old(regs).pipes[pipe as int].mxps
                    ==> r == Err::<(usize, Vec<TransferStep>), BusError>(BusError::BufferOverflow)
                &&& crate::usb::spec_hs_tx_ready(*old(regs), pipe) && buf@.len() <= old(regs).pipes[pipe as int].mxps
                    ==> r is Ok
                &&& r is Err ==> *final(regs) == crate::usb::spec_hs_selected(*old(regs), pipe)
            }),
            spec_ep_index(ep_addr) == 0 ==> (r matches Ok(p) ==> p.0 == buf@.len()
                && p.1@ == crate::usb::spec_hs_ep0_in_steps(old(regs).dcp.pid, buf@)
                && *final(regs) == crate::usb::spec_hs_ep0_in_regs(*old(regs))),
            spec_ep_index(ep_addr) != 0 ==> (r matches Ok(p) ==> {
                let pipe = spec_find_alloc(self.spec_state().spec_eps(), ep_addr)->0.pipe;
                &&& p.0 == buf@.len()
                &&& p.1@ == crate::usb::spec_pipe_write_steps(pipe, buf@)
                &&& *final(regs) == (UsbhsRegs {
                    pipesel: pipe,
                    cfifosel: crate::usb::spec_pipe_write_cfifosel(pipe),
                    ..crate::usb::spec_hs_with_pipe_pid(*old(regs), pipe, PID_BUF)
                })
            }),
    {
        let mps = match self.ep_max_packet_size(ep_addr) {
            Some(m) => m,
            None => {
                return Err(BusError::InvalidEndpoint);
            },
        };
        if buf.len() > mps as usize {
            return Err(BusError::BufferOverflow);
        }
        if ep_index(ep_addr) == 0 {
            return usb.bus_ep0_write_in(regs, buf);
        }
        let pipe = match self.ep_pipe(ep_addr) {
            Some(p) => p,
            None => {
                return Err(BusError::InvalidEndpoint);
            },
        };
        usb.bus_pipe_write_in(regs, pipe, buf)
    }

    /// Where a read of `buf_len` bytes from the OUT endpoint at `ep_addr` goes.
    /// Refused for an address that is not allocated and for a buffer shorter than
    /// its maximum packet size.
    pub fn read(&self, ep_addr: u8, buf_len: usize) -> (r: Result<EpTarget, BusError>)
        ensures
            r == (match spec_find_alloc(self.spec_state().spec_eps(), ep_addr) {
                None => Err(BusError::InvalidEndpoint),
                Some(e) => if buf_len < e.max_packet_size {
                    Err(BusError::BufferOverflow)
                } else if spec_ep_index(ep_addr) == 0 {
                    Ok(EpTarget::Ep0)
                } else {
                    Ok(EpTarget::Pipe(e.pipe))
                },
            }),
    {
        let mps = match self.ep_max_packet_size(ep_addr) {
            Some(m) => m,
            None => {
                return Err(BusError::InvalidEndpoint);
            },
        };
        if buf_len < mps as usize {
            return Err(BusError::BufferOverflow);
        }
        if ep_index(ep_addr) == 0 {
            return Ok(EpTarget::Ep0);
        }
        match self.ep_pipe(ep_addr) {
            Some(p) => Ok(EpTarget::Pipe(p)),
            None => Err(BusError::InvalidEndpoint),
        }
    }

    /// Records the stall of the endpoint at `ep_addr` and stalls or releases
    /// endpoint 0 or its pipe. Returns the PID writes in order.
    pub fn set_stalled(&mut self, usb: &mut UsbHs, regs: &mut UsbhsRegs, ep_addr: u8, stalled: bool) -> (s: Vec<TransferStep>)
        ensures
            final(self).spec_state().spec_eps()@ == (match spec_find_index(old(self).spec_state().spec_eps(), ep_addr) {
                Some(i) => old(self).spec_state().spec_eps()@.update(i, EpAlloc {
                    stalled: stalled,
                    ..old(self).spec_state().spec_eps()[i]
                }),
                None => old(self).spec_state().spec_eps()@,
            }),
            final(self).spec_state().spec_enabled() == old(self).spec_state().spec_enabled(),
            final(self).spec_state().spec_suspended() == old(self).spec_state().spec_suspended(),
            spec_ep_index(ep_addr) == 0 ==> *final(regs) == (UsbhsRegs {
                dcp: UsbDcp { pid: if stalled { PID_STALL } else { PID_NAK }, ..old(regs).dcp },
                ..*old(regs)
            }),
            spec_ep_index(ep_addr) == 0 ==> s@ == seq![TransferStep::SetDcpPid(if stalled { PID_STALL } else { PID_NAK })],
            spec_ep_index(ep_addr) != 0 ==> *final(regs) == (match spec_find_alloc(old(self).spec_state().spec_eps(), ep_addr) {
                Some(e) => crate::usb::spec_hs_with_pipe_pid(*old(regs), e.pipe, if stalled { PID_STALL } else { PID_BUF }),
                None => *old(regs),
            }),
            spec_ep_index(ep_addr) != 0 ==> s@ == (match spec_find_alloc(old(self).spec_state().spec_eps(), ep_addr) {
                Some(e) => crate::usb::spec_pipe_stall_steps(e.pipe, stalled),
                None => Seq::empty(),
            }),
    {
        proof {
            use_type_invariant(&self.state);
        }
        match self.state.find_index(ep_addr) {
            Some(i) => {
                let mut e = self.state.eps[i];
                e.stalled = stalled;
                self.state.eps[i] = e;
            },
            None => {},
        }
        if ep_index(ep_addr) == 0 {
            usb.bus_ep0_set_stall(regs, stalled);
            let mut s: Vec<TransferStep> = Vec::new();
            s.push(TransferStep::SetDcpPid(if stalled { PID_STALL } else { PID_NAK }));
            assert(s@ =~= seq![TransferStep::SetDcpPid(if stalled { PID_STALL } else { PID_NAK })]);
            s
        } else {
            match self.ep_pipe(ep_addr) {
                Some(pipe) => usb.bus_pipe_set_stall(regs, pipe, ep_addr & 0x80 != 0, stalled),
                None => Vec::new(),
            }
        }
    }

    /// Whether the endpoint at `ep_addr` is allocated and stalled.
    pub fn is_stalled(&self, ep_addr: u8) -> (r: bool)
        ensures
            r == (match spec_find_alloc(self.spec_state().spec_eps(), ep_addr) {
                Some(e) => e.stalled,
                None => false,
            }),
    {
        match self.state.find_alloc(ep_addr) {
            Some(e) => e.stalled,
            None => false,
        }
    }

    /// Suspends the PHY and records the suspension.
    pub fn suspend(&mut self, usb: &mut UsbHs, regs: &mut UsbhsRegs)
        ensures
            *final(regs) == (UsbhsRegs { suspendm: false, ..*old(regs) }),
            final(self).spec_state().spec_suspended(),
            final(self).spec_state().spec_eps() == old(self).spec_state().spec_eps(),
    {
        proof {
            use_type_invariant(&self.state);
        }
        usb.bus_suspend(regs);
        self.state.suspended = true;
    }

    /// Resumes the PHY and records it.
    pub fn resume(&mut self, usb: &mut UsbHs, regs: &mut UsbhsRegs)
        ensures
            *final(regs) == (UsbhsRegs { suspendm: true, ..*old(regs) }),
            !final(self).spec_state().spec_suspended(),
            final(self).spec_state().spec_eps() == old(self).spec_state().spec_eps(),
    {
        proof {
            use_type_invariant(&self.state);
        }
        usb.bus_resume(regs);
        self.state.suspended = false;
    }

    /// Polls the bus: what it reports and the writes that acknowledge it.
    pub fn poll(&self, usb: &mut UsbHs, s: &UsbhsIntStatus) -> (r: (PollResult, BusEventAck))
        ensures
            r.0 == spec_poll_result(crate::usb::spec_bus_poll(*s)),
            crate::usb::spec_bus_ack_ok(*s, r.1),
    {
        let (ev, a) = usb.bus_poll(s);
        let p = if ev.reset {
            PollResult::Reset
        } else if ev.resume {
            PollResult::Resume
        } else if ev.suspend {
            PollResult::Suspend
        } else if ev.ep_out != 0 || ev.ep_in_complete != 0 || ev.ep_setup != 0 {
            PollResult::Data { ep_out: ev.ep_out, ep_in_complete: ev.ep_in_complete, ep_setup: ev.ep_setup }
        } else {
            PollResult::NoEvent
        };
        (p, a)
    }

    /// A forced reset of the bus is not done here; it always succeeds.
    pub fn force_reset(&self) -> (r: Result<(), BusError>)
        ensures
            r is Ok,
    {
        Ok(())
    }
}

/// After a stall is recorded on an allocated endpoint, the endpoint reads back as
/// stalled or released as recorded (`UsbHsBus::set_stalled`, then `is_stalled`).
pub proof fn lemma_stall_reads_back(before: [EpAlloc; 4], after: [EpAlloc; 4], addr: u8, stalled: bool)
    requires
        spec_find_index(before, addr) is Some,
        after@ == before@.update(spec_find_index(before, addr)->0, EpAlloc {
            stalled: stalled,
            ..before[spec_find_index(before, addr)->0]
        }),
    ensures
        spec_find_alloc(after, addr) matches Some(e) && e.stalled == stalled,
{
    let i = spec_find_index(before, addr)->0;
    assert(after[0] == after@[0] && after[1] == after@[1] && after[2] == after@[2] && after[3] == after@[3]);
    assert(spec_find_index(after, addr) == Some(i));
}

} // verus!
