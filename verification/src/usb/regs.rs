//! Plain-value models of the USBFS and USBHS register fields that the drivers use,
//! and the packing of a payload into FIFO port writes.
use vstd::prelude::*;

verus! {

/// DCPCTR.PID / PIPEnCTR.PID: NAK.
pub const PID_NAK: u8 = 0;
/// DCPCTR.PID / PIPEnCTR.PID: BUF.
pub const PID_BUF: u8 = 1;
/// DCPCTR.PID / PIPEnCTR.PID: STALL.
pub const PID_STALL: u8 = 2;

/// CFIFOSEL.MBW of USBFS for 16-bit FIFO port access.
pub const FS_MBW_16: u8 = 1;
/// CFIFOSEL.MBW of USBHS for 32-bit FIFO port access.
pub const HS_MBW_32: u8 = 2;

/// SYSCFG fields.
#[derive(Copy, Clone, Debug, PartialEq, Eq, Structural)]
pub struct UsbSyscfg {
    /// USBE: USB module operation enabled.
    pub usbe: bool,
    /// DPRPU: D+ line pull-up enabled (connected to the host).
    pub dprpu: bool,
    /// DRPD: D+/D- line pull-down enabled.
    pub drpd: bool,
    /// DCFM: host controller mode selected.
    pub dcfm: bool,
    /// HSE: high-speed operation enabled (USBHS only).
    pub hse: bool,
    /// SCKE: USB clock enabled (USBFS only).
    pub scke: bool,
}

/// INTENB0 fields.
#[derive(Copy, Clone, Debug, PartialEq, Eq, Structural)]
pub struct UsbIntenb0 {
    /// VBSE: VBUS interrupt.
    pub vbse: bool,
    /// DVSE: device state transition interrupt.
    pub dvse: bool,
    /// CTRE: control transfer stage transition interrupt.
    pub ctre: bool,
    /// BEMPE: buffer empty interrupt.
    pub bempe: bool,
    /// BRDYE: buffer ready interrupt.
    pub brdye: bool,
}

/// INTENB1 fields.
#[derive(Copy, Clone, Debug, PartialEq, Eq, Structural)]
pub struct UsbIntenb1 {
    /// BCHGE: USB bus change interrupt.
    pub bchge: bool,
    /// DTCHE: disconnection detection interrupt.
    pub dtche: bool,
    /// ATTCHE: connection detection interrupt.
    pub attche: bool,
    /// SIGNE: setup transaction error interrupt.
    pub signe: bool,
    /// SACKE: setup transaction normal response interrupt.
    pub sacke: bool,
}

/// The default control pipe: DCPCTR.PID and PBUSY, DCPMAXP.MXPS, DCPCFG.DIR.
#[derive(Copy, Clone, Debug, PartialEq, Eq, Structural)]
pub struct UsbDcp {
    /// DCPCTR.PID (two bits).
    pub pid: u8,
    /// DCPCTR.PBUSY: the pipe is in use on the bus.
    pub pbusy: bool,
    /// DCPMAXP.MXPS (seven bits).
    pub mxps: u8,
    /// DCPCFG.DIR.
    pub dir: bool,
}

/// CFIFOSEL fields.
#[derive(Copy, Clone, Debug, PartialEq, Eq, Structural)]
pub struct UsbCfifoSel {
    /// CURPIPE (four bits).
    pub curpipe: u8,
    /// ISEL: the FIFO port is set for writing (transmitting).
    pub isel: bool,
    /// MBW: FIFO port access width.
    pub mbw: u8,
}

/// CFIFOCTR status fields.
#[derive(Copy, Clone, Debug, PartialEq, Eq, Structural)]
pub struct UsbCfifoCtr {
    /// FRDY: the FIFO port is ready for access.
    pub frdy: bool,
    /// DTLN: number of bytes received in the FIFO buffer.
    pub dtln: u16,
}

/// The USBFS registers that the drivers use.
#[derive(Copy, Clone, Debug, PartialEq, Eq, Structural)]
pub struct UsbfsRegs {
    pub syscfg: UsbSyscfg,
    pub intenb0: UsbIntenb0,
    pub intenb1: UsbIntenb1,
    pub dcp: UsbDcp,
    pub cfifosel: UsbCfifoSel,
}

/// PHYSET fields of USBHS.
#[derive(Copy, Clone, Debug, PartialEq, Eq, Structural)]
pub struct UsbPhyset {
    /// HSEB: CL-only mode.
    pub hseb: bool,
    /// CLKSEL: input reference clock frequency (two bits).
    pub clksel: u8,
    /// DIRPD: power-down control.
    pub dirpd: bool,
    /// PLLRESET: PLL reset control.
    pub pllreset: bool,
}

/// Transfer type of a pipe (PIPECFG.TYPE).
#[derive(Copy, Clone, Debug, PartialEq, Eq, Structural)]
pub enum PipeType {
    Unused,
    Bulk,
    Isochronous,
    Interrupt,
}

impl PipeType {
    pub open spec fn spec_bits(self) -> u8 {
        match self {
            PipeType::Unused => 0b00,
            PipeType::Bulk => 0b01,
            PipeType::Isochronous => 0b10,
            PipeType::Interrupt => 0b11,
        }
    }

    /// The PIPECFG.TYPE value.
    pub fn bits(self) -> (r: u8)
        ensures
            r == self.spec_bits(),
    {
        match self {
            PipeType::Unused => 0b00,
            PipeType::Bulk => 0b01,
            PipeType::Isochronous => 0b10,
            PipeType::Interrupt => 0b11,
        }
    }
}

/// The pipe window registers (PIPECFG, PIPEMAXP, PIPEPERI) of one pipe.
#[derive(Copy, Clone, Debug, PartialEq, Eq, Structural)]
pub struct PipeWindow {
    /// PIPECFG.EPNUM (four bits).
    pub epnum: u8,
    /// PIPECFG.DIR: transmitting direction.
    pub dir: bool,
    /// PIPECFG.TYPE.
    pub typ: PipeType,
    /// PIPEMAXP.MXPS (eleven bits).
    pub mxps: u16,
    /// PIPEPERI.IITV (three bits).
    pub iitv: u8,
}

/// PIPEnCTR fields.
#[derive(Copy, Clone, Debug, PartialEq, Eq, Structural)]
pub struct PipeCtr {
    /// PID (two bits).
    pub pid: u8,
    /// PBUSY: the pipe is in use on the bus.
    pub pbusy: bool,
}

/// The control registers of pipes 1, 2 and 3.
#[derive(Copy, Clone, Debug, PartialEq, Eq, Structural)]
pub struct PipeCtrs {
    pub pipe1: PipeCtr,
    pub pipe2: PipeCtr,
    pub pipe3: PipeCtr,
}

/// The USBHS registers that the drivers use.
#[derive(Copy, Clone, Debug)]
pub struct UsbhsRegs {
    pub syscfg: UsbSyscfg,
    pub intenb0: UsbIntenb0,
    pub intenb1: UsbIntenb1,
    pub dcp: UsbDcp,
    pub cfifosel: UsbCfifoSel,
    pub cfifoctr: UsbCfifoCtr,
    pub physet: UsbPhyset,
    /// LPSTS.SUSPENDM: UTMI normal mode (not suspended).
    pub suspendm: bool,
    /// PLLSTA.PLLLOCK: the PHY PLL is locked.
    pub plllock: bool,
    /// PIPESEL.PIPESEL (four bits).
    pub pipesel: u8,
    /// The window registers of pipes 0 to 15, indexed by pipe number.
    pub pipes: [PipeWindow; 16],
    pub pipe_ctr: PipeCtrs,
    /// BRDYSTS.
    pub brdysts: u16,
}

impl UsbhsRegs {
    /// The control register of pipe 1, 2 or 3.
    pub open spec fn spec_pipe_ctr(&self, pipe: u8) -> Option<PipeCtr> {
        if pipe == 1 {
            Some(self.pipe_ctr.pipe1)
        } else if pipe == 2 {
            Some(self.pipe_ctr.pipe2)
        } else if pipe == 3 {
            Some(self.pipe_ctr.pipe3)
        } else {
            None
        }
    }
}

/// One write to a FIFO port: a 16-bit word holding two payload bytes, low byte
/// first, or a single byte to the low byte of the port.
#[derive(Copy, Clone, Debug, PartialEq, Eq, Structural)]
pub enum FifoWrite {
    Word(u16),
    Byte(u8),
}

/// The FIFO writes that carry `data`: a word per two bytes, the first in the low
/// byte, and a single byte write for a last byte that has no pair.
pub open spec fn spec_fifo_writes(data: Seq<u8>) -> Seq<FifoWrite> {
    Seq::new(
        ((data.len() + 1) / 2) as nat,
        |k: int|
            if 2 * k + 1 < data.len() {
                FifoWrite::Word((data[2 * k] + 256 * data[2 * k + 1]) as u16)
            } else {
                FifoWrite::Byte(data[2 * k])
            },
    )
}

/// The payload bytes of one FIFO access: a word carries its low byte first.
pub open spec fn spec_write_bytes(w: FifoWrite) -> Seq<u8> {
    match w {
        FifoWrite::Word(v) => seq![(v % 256) as u8, (v / 256) as u8],
        FifoWrite::Byte(b) => seq![b],
    }
}

/// The payload bytes that a sequence of FIFO accesses carries.
pub open spec fn spec_fifo_bytes(w: Seq<FifoWrite>) -> Seq<u8>
    decreases w.len(),
{
    if w.len() == 0 {
        Seq::empty()
    } else {
        spec_write_bytes(w[0]) + spec_fifo_bytes(w.drop_first())
    }
}

/// The bytes of two runs of FIFO accesses are those of the first, then those of
/// the second.
pub proof fn lemma_fifo_bytes_concat(s: Seq<FifoWrite>, t: Seq<FifoWrite>)
    ensures
        spec_fifo_bytes(s + t) == spec_fifo_bytes(s) + spec_fifo_bytes(t),
    decreases s.len(),
{
    if s.len() == 0 {
        assert(s + t =~= t);
        assert(spec_fifo_bytes(s) + spec_fifo_bytes(t) =~= spec_fifo_bytes(t));
    } else {
        lemma_fifo_bytes_concat(s.drop_first(), t);
        assert((s + t).drop_first() =~= s.drop_first() + t);
        assert((s + t)[0] == s[0]);
        assert(spec_fifo_bytes(s + t) =~= spec_fifo_bytes(s) + spec_fifo_bytes(t));
    }
}

/// The bytes of a single FIFO access.
pub proof fn lemma_fifo_bytes_single(x: FifoWrite)
    ensures
        spec_fifo_bytes(seq![x]) == spec_write_bytes(x),
{
    assert(seq![x].drop_first() =~= Seq::<FifoWrite>::empty());
    assert(spec_fifo_bytes(Seq::<FifoWrite>::empty()) =~= Seq::<u8>::empty());
    assert(spec_fifo_bytes(seq![x]) == spec_write_bytes(x) + spec_fifo_bytes(seq![x].drop_first()));
    assert(spec_fifo_bytes(seq![x]) =~= spec_write_bytes(x));
}

/// Stores the bytes that `reads` carry at the start of `buf`, leaving the rest
/// of `buf` as it was; returns how many were stored.
pub fn fifo_store(buf: &mut [u8], reads: &[FifoWrite]) -> (n: usize)
    requires
        spec_fifo_bytes(reads@).len() <= old(buf)@.len(),
    ensures
        n == spec_fifo_bytes(reads@).len(),
        final(buf)@ == spec_fifo_bytes(reads@) + old(buf)@.skip(n as int),
{
    let ghost orig = buf@;
    let mut j: usize = 0;
    let mut k: usize = 0;
    while k < reads.len()
        invariant
            k <= reads@.len(),
            buf@.len() == orig.len(),
            spec_fifo_bytes(reads@).len() <= orig.len(),
            j == spec_fifo_bytes(reads@.take(k as int)).len(),
            buf@ == spec_fifo_bytes(reads@.take(k as int)) + orig.skip(j as int),
        decreases reads@.len() - k,
    {
        proof {
            assert(reads@.take(k as int + 1) =~= reads@.take(k as int) + seq![reads@[k as int]]);
            lemma_fifo_bytes_concat(reads@.take(k as int), seq![reads@[k as int]]);
            lemma_fifo_bytes_single(reads@[k as int]);
            assert(reads@ =~= reads@.take(k as int + 1) + reads@.skip(k as int + 1));
            lemma_fifo_bytes_concat(reads@.take(k as int + 1), reads@.skip(k as int + 1));
        }
        match reads[k] {
            FifoWrite::Word(v) => {
                buf[j] = (v % 256) as u8;
                buf[j + 1] = (v / 256) as u8;
                j = j + 2;
            },
            FifoWrite::Byte(b) => {
                buf[j] = b;
                j = j + 1;
            },
        }
        k = k + 1;
        assert(buf@ =~= spec_fifo_bytes(reads@.take(k as int)) + orig.skip(j as int));
    }
    assert(reads@.take(k as int) =~= reads@);
    j
}

/// Packs `data` into FIFO port writes.
pub fn fifo_writes(data: &[u8]) -> (w: Vec<FifoWrite>)
    ensures
        w@ == spec_fifo_writes(data@),
{
    let n: usize = data.len();
    let mut w: Vec<FifoWrite> = Vec::new();
    let mut i: usize = 0;
    while i < n
        invariant
            n == data@.len(),
            i <= n,
            i % 2 == 0 || i == n,
            w@.len() == (i + 1) / 2,
            forall|k: int| 0 <= k < w@.len() ==> w@[k] == #[trigger] spec_fifo_writes(data@)[k],
        decreases n - i,
    {
        if i + 1 < n {
            let a: u8 = data[i];
            let b: u8 = data[i + 1];
            let v: u16 = (a as u16) | ((b as u16) << 8u16);
            assert(v == a + 256 * b) by (bit_vector)
                requires
                    v == (a as u16) | ((b as u16) << 8u16),
            ;
            w.push(FifoWrite::Word(v));
            i = i + 2;
        } else {
            w.push(FifoWrite::Byte(data[i]));
            i = i + 1;
        }
    }
    assert(w@ =~= spec_fifo_writes(data@));
    w
}

/// The FIFO writes of a payload carry exactly its bytes, in order.
pub proof fn lemma_fifo_writes_carry_payload(data: Seq<u8>)
    ensures
        spec_fifo_bytes(spec_fifo_writes(data)) == data,
    decreases data.len(),
{
    let w = spec_fifo_writes(data);
    if data.len() == 0 {
        assert(w.len() == 0);
        assert(spec_fifo_bytes(w) =~= data);
    } else if data.len() == 1 {
        assert(w[0] == FifoWrite::Byte(data[0]));
        assert(w.drop_first().len() == 0);
        assert(spec_fifo_bytes(w.drop_first()) =~= Seq::<u8>::empty());
        assert(spec_fifo_bytes(w) =~= data);
    } else {
        let rest = data.subrange(2, data.len() as int);
        lemma_fifo_writes_carry_payload(rest);
        assert(w.drop_first() =~= spec_fifo_writes(rest));
        let v = (data[0] + 256 * data[1]) as u16;
        assert(w[0] == FifoWrite::Word(v));
        assert((v % 256) as u8 == data[0]);
        assert((v / 256) as u8 == data[1]);
        assert(spec_fifo_bytes(w) == seq![data[0], data[1]] + spec_fifo_bytes(w.drop_first()));
        assert(data =~= seq![data[0], data[1]] + rest);
    }
}

} // verus!
