//! USBFS interrupt decoding and standard device requests.
use vstd::prelude::*;

use crate::RegisterError;

verus! {

/// What a USBI interrupt reported.
#[derive(Copy, Clone, Debug, PartialEq, Eq)]
pub struct UsbInterrupts {
    pub usb_request: Option<SetupPacket>,
    pub buffer_ready: Option<()>,
    pub not_ready: Option<()>,
    pub buffer_empty: Option<()>,
    pub control_transfer_stage_transition: Option<ControlTransferStage>,
    pub device_state_transition: Option<DeviceState>,
    pub start_of_frame: Option<()>,
    pub resume: Option<()>,
    pub vbus: Option<VbusInput>,
}

/// The USBFS registers that the USBI handler reads: INTSTS0 and the setup packet
/// of USBREQ, USBVAL, USBINDX and USBLENG.
#[derive(Copy, Clone, Debug)]
pub struct UsbiSnapshot {
    pub intsts0: u16,
    pub bm_request_type: u8,
    pub b_request: u8,
    pub w_value: u16,
    pub w_index: u16,
    pub w_length: u16,
}

/// Bit `n` of a 16-bit register value.
pub open spec fn spec_bit16(v: u16, n: u16) -> bool {
    (v >> n) & 1 == 1
}

/// The INTSTS0 status flags that the handler acknowledges: VALID (3), CTRT (11),
/// DVST (12), SOFR (13), RESM (14) and VBINT (15).
pub const INTSTS0_ACK_MASK: u16 = 0xF808;

/// What a USBI interrupt with the given INTSTS0 and setup registers reports.
pub open spec fn spec_usbi_interrupts(s: UsbiSnapshot) -> UsbInterrupts {
    let r0 = s.intsts0;
    UsbInterrupts {
        usb_request: if spec_bit16(r0, 3) {
            Some(SetupPacket {
                bm_request_type: s.bm_request_type,
                b_request: s.b_request,
                w_value: s.w_value,
                w_index: s.w_index,
                w_length: s.w_length,
            })
        } else {
            None
        },
        buffer_ready: if spec_bit16(r0, 8) { Some(()) } else { None },
        not_ready: if spec_bit16(r0, 9) { Some(()) } else { None },
        buffer_empty: if spec_bit16(r0, 10) { Some(()) } else { None },
        control_transfer_stage_transition: if spec_bit16(r0, 11) {
            ControlTransferStage::spec_from_u8((r0 & 0x7) as u8)
        } else {
            None
        },
        device_state_transition: if spec_bit16(r0, 12) {
            DeviceState::spec_from_u8(((r0 >> 4u16) & 0x7) as u8)
        } else {
            None
        },
        start_of_frame: if spec_bit16(r0, 13) { Some(()) } else { None },
        resume: if spec_bit16(r0, 14) { Some(()) } else { None },
        vbus: if spec_bit16(r0, 15) { VbusInput::spec_from_u8(1) } else { None },
    }
}

/// Decodes a USBI interrupt. Returns what it reported and the value to write to
/// INTSTS0: the value read with every acknowledged flag that was set cleared and
/// every one that was clear set (writing 1 leaves a flag as it is), which is the
/// value read with the acknowledged bits flipped.
pub fn on_usbi_interrupt(s: &UsbiSnapshot) -> (r: Result<(UsbInterrupts, u16), RegisterError>)
    ensures
        r matches Ok((irqs, reset0)) && irqs == spec_usbi_interrupts(*s) && reset0 == s.intsts0 ^ INTSTS0_ACK_MASK,
{
    let r0 = s.intsts0;
    let set_all: u16 = r0 | (1u16 << 3u16) | (1u16 << 11u16) | (1u16 << 12u16) | (1u16 << 13u16)
        | (1u16 << 14u16) | (1u16 << 15u16);
    let valid = (r0 >> 3u16) & 1 == 1;
    let ctrt = (r0 >> 11u16) & 1 == 1;
    let dvst = (r0 >> 12u16) & 1 == 1;
    let sofr = (r0 >> 13u16) & 1 == 1;
    let resm = (r0 >> 14u16) & 1 == 1;
    let vbint = (r0 >> 15u16) & 1 == 1;
    let m3: u16 = if valid { !(1u16 << 3u16) } else { 0xFFFF };
    let m11: u16 = if ctrt { !(1u16 << 11u16) } else { 0xFFFF };
    let m12: u16 = if dvst { !(1u16 << 12u16) } else { 0xFFFF };
    let m13: u16 = if sofr { !(1u16 << 13u16) } else { 0xFFFF };
    let m14: u16 = if resm { !(1u16 << 14u16) } else { 0xFFFF };
    let m15: u16 = if vbint { !(1u16 << 15u16) } else { 0xFFFF };
    let reset0: u16 = set_all & m3 & m11 & m12 & m13 & m14 & m15;
    assert(reset0 == r0 ^ 0xF808u16) by (bit_vector)
        requires
            reset0 == set_all & m3 & m11 & m12 & m13 & m14 & m15,
            set_all == r0 | (1u16 << 3u16) | (1u16 << 11u16) | (1u16 << 12u16) | (1u16 << 13u16)
                | (1u16 << 14u16) | (1u16 << 15u16),
            m3 == (if (r0 >> 3u16) & 1 == 1 { !(1u16 << 3u16) } else { 0xFFFFu16 }),
            m11 == (if (r0 >> 11u16) & 1 == 1 { !(1u16 << 11u16) } else { 0xFFFFu16 }),
            m12 == (if (r0 >> 12u16) & 1 == 1 { !(1u16 << 12u16) } else { 0xFFFFu16 }),
            m13 == (if (r0 >> 13u16) & 1 == 1 { !(1u16 << 13u16) } else { 0xFFFFu16 }),
            m14 == (if (r0 >> 14u16) & 1 == 1 { !(1u16 << 14u16) } else { 0xFFFFu16 }),
            m15 == (if (r0 >> 15u16) & 1 == 1 { !(1u16 << 15u16) } else { 0xFFFFu16 });
    let usb_request = if valid {
        Some(SetupPacket {
            bm_request_type: s.bm_request_type,
            b_request: s.b_request,
            w_value: s.w_value,
            w_index: s.w_index,
            w_length: s.w_length,
        })
    } else {
        None
    };
    let control_transfer_stage_transition = if ctrt {
        ControlTransferStage::from_u8(#[verifier::truncate] ((r0 & 0x7) as u8))
    } else {
        None
    };
    let device_state_transition = if dvst {
        DeviceState::from_u8(#[verifier::truncate] (((r0 >> 4u16) & 0x7) as u8))
    } else {
        None
    };
    let start_of_frame = if sofr { Some(()) } else { None };
    let resume = if resm { Some(()) } else { None };
    let vbus = if vbint { VbusInput::from_u8(1) } else { None };
    let irqs = UsbInterrupts {
        usb_request,
        buffer_ready: if (r0 >> 8u16) & 1 == 1 { Some(()) } else { None },
        not_ready: if (r0 >> 9u16) & 1 == 1 { Some(()) } else { None },
        buffer_empty: if (r0 >> 10u16) & 1 == 1 { Some(()) } else { None },
        control_transfer_stage_transition,
        device_state_transition,
        start_of_frame,
        resume,
        vbus,
    };
    Ok((irqs, reset0))
}

/// A setup packet of a control transfer.
#[derive(Copy, Clone, Debug, PartialEq, Eq, Structural)]
pub struct SetupPacket {
    pub bm_request_type: u8,
    pub b_request: u8,
    pub w_value: u16,
    pub w_index: u16,
    pub w_length: u16,
}

/// The standard request that a setup packet carries, if it is a standard request
/// (type bits 6..5 of bmRequestType are 0) that this driver knows.
pub open spec fn spec_standard_request(p: SetupPacket) -> Option<StandardRequest> {
    let req = p.b_request;
    if (p.bm_request_type >> 5u8) & 0b11 != 0 {
        None
    } else if req == 0x00 {
        Some(StandardRequest::GetStatus)
    } else if req == 0x01 {
        Some(StandardRequest::ClearFeature)
    } else if req == 0x03 {
        Some(StandardRequest::SetFeature)
    } else if req == 0x05 {
        Some(StandardRequest::SetAddress { address: (p.w_value & 0x7f) as u8 })
    } else if req == 0x06 {
        match DescriptorType::spec_from_u8(((p.w_value >> 8u16) & 0xff) as u8) {
            Some(t) => Some(StandardRequest::GetDescriptor {
                descriptor_type: t,
                index: (p.w_value & 0xff) as u8,
                language_id: p.w_index,
                length: p.w_length,
            }),
            None => None,
        }
    } else if req == 0x07 {
        Some(StandardRequest::SetDescriptor)
    } else if req == 0x08 {
        Some(StandardRequest::GetConfiguration)
    } else if req == 0x09 {
        Some(StandardRequest::SetConfiguration { configuration_value: (p.w_value & 0xff) as u8 })
    } else if req == 0x0A {
        Some(StandardRequest::GetInterface)
    } else if req == 0x0B {
        Some(StandardRequest::SetInterface)
    } else if req == 0x0C {
        Some(StandardRequest::SyncFrame)
    } else {
        None
    }
}

impl StandardRequest {
    /// The bRequest code of the request (USB 2.0, table 9-4).
    pub open spec fn spec_request_code(self) -> u8 {
        match self {
            StandardRequest::GetStatus => 0x00,
            StandardRequest::ClearFeature => 0x01,
            StandardRequest::SetFeature => 0x03,
            StandardRequest::SetAddress { .. } => 0x05,
            StandardRequest::GetDescriptor { .. } => 0x06,
            StandardRequest::SetDescriptor => 0x07,
            StandardRequest::GetConfiguration => 0x08,
            StandardRequest::SetConfiguration { .. } => 0x09,
            StandardRequest::GetInterface => 0x0A,
            StandardRequest::SetInterface => 0x0B,
            StandardRequest::SyncFrame => 0x0C,
        }
    }
}

/// A setup packet decodes to the standard request whose code is its bRequest:
/// only standard-type packets (bmRequestType bits 6..5 clear) decode, every code
/// of table 9-4 decodes (GET_DESCRIPTOR when its descriptor type is known), and
/// the request's fields come from wValue, wIndex and wLength.
pub proof fn lemma_standard_request_code(p: SetupPacket)
    ensures
        spec_standard_request(p) matches Some(s) ==> s.spec_request_code() == p.b_request
            && (p.bm_request_type >> 5u8) & 0b11 == 0,
        (p.bm_request_type >> 5u8) & 0b11 == 0 && (p.b_request == 0x00 || p.b_request == 0x01
            || p.b_request == 0x03 || p.b_request == 0x05 || p.b_request == 0x07 || p.b_request == 0x08
            || p.b_request == 0x09 || p.b_request == 0x0A || p.b_request == 0x0B || p.b_request == 0x0C)
            ==> spec_standard_request(p) is Some,
        (p.bm_request_type >> 5u8) & 0b11 == 0 && p.b_request == 0x06
            && DescriptorType::spec_from_u8(((p.w_value >> 8u16) & 0xff) as u8) is Some
            ==> spec_standard_request(p) is Some,
        spec_standard_request(p) matches Some(StandardRequest::SetAddress { address }) ==> address == p.w_value & 0x7f,
        spec_standard_request(p) matches Some(StandardRequest::SetConfiguration { configuration_value })
            ==> configuration_value == p.w_value & 0xff,
        spec_standard_request(p) matches Some(StandardRequest::GetDescriptor { descriptor_type, index, language_id, length })
            ==> index == p.w_value & 0xff && language_id == p.w_index && length == p.w_length
                && descriptor_type.spec_bits() == (p.w_value >> 8u16) & 0xff,
{
    let w = p.w_value;
    assert(w & 0x7f < 256 && w & 0xff < 256 && (w >> 8u16) & 0xff < 256) by (bit_vector);
}

impl SetupPacket {
    pub fn to_standard_request(&self) -> (r: Option<StandardRequest>)
        ensures
            r == spec_standard_request(*self),
    {
        let bm = self.bm_request_type;
        let req = self.b_request;
        let w_value = self.w_value;
        let request_type = (bm >> 5u8) & 0b11;
        if request_type != 0 {
            return None;
        }
        match req {
            0x00 => Some(StandardRequest::GetStatus),
            0x01 => Some(StandardRequest::ClearFeature),
            0x03 => Some(StandardRequest::SetFeature),
            0x05 => {
                #[verifier::truncate]
                let addr = (w_value & 0x7f) as u8;
                Some(StandardRequest::SetAddress { address: addr })
            },
            0x06 => {
                #[verifier::truncate]
                let desc_type = ((w_value >> 8u16) & 0xff) as u8;
                #[verifier::truncate]
                let desc_index = (w_value & 0xff) as u8;
                match DescriptorType::from_u8(desc_type) {
                    Some(ty) => Some(StandardRequest::GetDescriptor {
                        descriptor_type: ty,
                        index: desc_index,
                        language_id: self.w_index,
                        length: self.w_length,
                    }),
                    None => None,
                }
            },
            0x07 => Some(StandardRequest::SetDescriptor),
            0x08 => Some(StandardRequest::GetConfiguration),
            0x09 => {
                #[verifier::truncate]
                let cfg = (w_value & 0xff) as u8;
                Some(StandardRequest::SetConfiguration { configuration_value: cfg })
            },
            0x0A => Some(StandardRequest::GetInterface),
            0x0B => Some(StandardRequest::SetInterface),
            0x0C => Some(StandardRequest::SyncFrame),
            _ => None,
        }
    }
}

/// A descriptor type that a GET_DESCRIPTOR request asks for.
#[derive(Copy, Clone, Debug, PartialEq, Eq, Structural)]
pub enum DescriptorType {
    Device,
    Configuration,
    String,
    Interface,
    Endpoint,
    DeviceQualifier,
    OtherSpeedConfiguration,
    InterfacePower,
    OtgDescriptor,
    Debug,
    InterfaceAssociationDescriptor,
    BosDescriptor,
    DeviceCapability,
}

impl DescriptorType {
    /// The descriptor type code.
    pub open spec fn spec_bits(self) -> u8 {
        match self {
            DescriptorType::Device => 1,
            DescriptorType::Configuration => 2,
            DescriptorType::String => 3,
            DescriptorType::Interface => 4,
            DescriptorType::Endpoint => 5,
            DescriptorType::DeviceQualifier => 6,
            DescriptorType::OtherSpeedConfiguration => 7,
            DescriptorType::InterfacePower => 8,
            DescriptorType::OtgDescriptor => 9,
            DescriptorType::Debug => 10,
            DescriptorType::InterfaceAssociationDescriptor => 11,
            DescriptorType::BosDescriptor => 15,
            DescriptorType::DeviceCapability => 16,
        }
    }

    pub fn bits(self) -> (b: u8)
        ensures
            b == self.spec_bits(),
    {
        match self {
            DescriptorType::Device => 1,
            DescriptorType::Configuration => 2,
            DescriptorType::String => 3,
            DescriptorType::Interface => 4,
            DescriptorType::Endpoint => 5,
            DescriptorType::DeviceQualifier => 6,
            DescriptorType::OtherSpeedConfiguration => 7,
            DescriptorType::InterfacePower => 8,
            DescriptorType::OtgDescriptor => 9,
            DescriptorType::Debug => 10,
            DescriptorType::InterfaceAssociationDescriptor => 11,
            DescriptorType::BosDescriptor => 15,
            DescriptorType::DeviceCapability => 16,
        }
    }

    pub open spec fn spec_from_u8(value: u8) -> Option<DescriptorType> {
        if value == 1 {
            Some(DescriptorType::Device)
        } else if value == 2 {
            Some(DescriptorType::Configuration)
        } else if value == 3 {
            Some(DescriptorType::String)
        } else if value == 4 {
            Some(DescriptorType::Interface)
        } else if value == 5 {
            Some(DescriptorType::Endpoint)
        } else if value == 6 {
            Some(DescriptorType::DeviceQualifier)
        } else if value == 7 {
            Some(DescriptorType::OtherSpeedConfiguration)
        } else if value == 8 {
            Some(DescriptorType::InterfacePower)
        } else if value == 9 {
            Some(DescriptorType::OtgDescriptor)
        } else if value == 10 {
            Some(DescriptorType::Debug)
        } else if value == 11 {
            Some(DescriptorType::InterfaceAssociationDescriptor)
        } else if value == 15 {
            Some(DescriptorType::BosDescriptor)
        } else if value == 16 {
            Some(DescriptorType::DeviceCapability)
        } else {
            None
        }
    }

    pub fn from_u8(value: u8) -> (r: Option<Self>)
        ensures
            r == Self::spec_from_u8(value),
    {
        match value {
            1 => Some(DescriptorType::Device),
            2 => Some(DescriptorType::Configuration),
            3 => Some(DescriptorType::String),
            4 => Some(DescriptorType::Interface),
            5 => Some(DescriptorType::Endpoint),
            6 => Some(DescriptorType::DeviceQualifier),
            7 => Some(DescriptorType::OtherSpeedConfiguration),
            8 => Some(DescriptorType::InterfacePower),
            9 => Some(DescriptorType::OtgDescriptor),
            10 => Some(DescriptorType::Debug),
            11 => Some(DescriptorType::InterfaceAssociationDescriptor),
            15 => Some(DescriptorType::BosDescriptor),
            16 => Some(DescriptorType::DeviceCapability),
            _ => None,
        }
    }
}

/// A standard device request.
#[derive(Copy, Clone, Debug, PartialEq, Eq, Structural)]
pub enum StandardRequest {
    GetStatus,
    ClearFeature,
    SetFeature,
    SetAddress { address: u8 },
    GetDescriptor { descriptor_type: DescriptorType, index: u8, language_id: u16, length: u16 },
    SetDescriptor,
    GetConfiguration,
    SetConfiguration { configuration_value: u8 },
    GetInterface,
    SetInterface,
    SyncFrame,
}

/// Control transfer stage (INTSTS0.CTSQ).
#[derive(Copy, Clone, Debug, PartialEq, Eq, Structural)]
pub enum ControlTransferStage {
    IdleSetup,
    ReadData,
    ReadStatus,
    WriteData,
    WriteStatus,
    WriteNoDataStatus,
    TransferSequenceError,
}

impl ControlTransferStage {
    pub open spec fn spec_from_u8(value: u8) -> Option<ControlTransferStage> {
        if value == 0b000 {
            Some(ControlTransferStage::IdleSetup)
        } else if value == 0b001 {
            Some(ControlTransferStage::ReadData)
        } else if value == 0b010 {
            Some(ControlTransferStage::ReadStatus)
        } else if value == 0b011 {
            Some(ControlTransferStage::WriteData)
        } else if value == 0b100 {
            Some(ControlTransferStage::WriteStatus)
        } else if value == 0b101 {
            Some(ControlTransferStage::WriteNoDataStatus)
        } else if value == 0b110 {
            Some(ControlTransferStage::TransferSequenceError)
        } else {
            None
        }
    }

    pub fn from_u8(value: u8) -> (r: Option<Self>)
        ensures
            r == Self::spec_from_u8(value),
    {
        match value {
            0b000 => Some(ControlTransferStage::IdleSetup),
            0b001 => Some(ControlTransferStage::ReadData),
            0b010 => Some(ControlTransferStage::ReadStatus),
            0b011 => Some(ControlTransferStage::WriteData),
            0b100 => Some(ControlTransferStage::WriteStatus),
            0b101 => Some(ControlTransferStage::WriteNoDataStatus),
            0b110 => Some(ControlTransferStage::TransferSequenceError),
            _ => None,
        }
    }
}

/// Device state (INTSTS0.DVSQ); every code from 0b100 up is a suspended state.
#[derive(Copy, Clone, Debug, PartialEq, Eq, Structural)]
pub enum DeviceState {
    Powered,
    Default,
    Address,
    Configured,
    Suspended,
}

impl DeviceState {
    pub open spec fn spec_from_u8(value: u8) -> Option<DeviceState> {
        if value == 0b000 {
            Some(DeviceState::Powered)
        } else if value == 0b001 {
            Some(DeviceState::Default)
        } else if value == 0b010 {
            Some(DeviceState::Address)
        } else if value == 0b011 {
            Some(DeviceState::Configured)
        } else if 0b100 <= value <= 0b111 {
            Some(DeviceState::Suspended)
        } else {
            None
        }
    }

    pub fn from_u8(value: u8) -> (r: Option<Self>)
        ensures
            r == Self::spec_from_u8(value),
    {
        match value {
            0b000 => Some(DeviceState::Powered),
            0b001 => Some(DeviceState::Default),
            0b010 => Some(DeviceState::Address),
            0b011 => Some(DeviceState::Configured),
            0b100 | 0b101 | 0b110 | 0b111 => Some(DeviceState::Suspended),
            _ => None,
        }
    }
}

/// VBUS input level.
#[derive(Copy, Clone, Debug, PartialEq, Eq, Structural)]
pub enum VbusInput {
    Low,
    High,
}

impl VbusInput {
    pub open spec fn spec_from_u8(value: u8) -> Option<VbusInput> {
        if value == 0 {
            Some(VbusInput::Low)
        } else if value == 1 {
            Some(VbusInput::High)
        } else {
            None
        }
    }

    pub fn from_u8(value: u8) -> (r: Option<Self>)
        ensures
            r == Self::spec_from_u8(value),
    {
        match value {
            0 => Some(VbusInput::Low),
            1 => Some(VbusInput::High),
            _ => None,
        }
    }
}

/// Writing back the acknowledging value of a USBI interrupt clears every
/// acknowledged flag that was set, writes 1 (which changes nothing) to every
/// acknowledged flag that was clear, and writes every other bit as it was read.
pub proof fn lemma_usbi_ack_clears_set_flags(intsts0: u16)
    ensures
        ({
            let w = intsts0 ^ INTSTS0_ACK_MASK;
            &&& w & (intsts0 & INTSTS0_ACK_MASK) == 0
            &&& w & (INTSTS0_ACK_MASK & !intsts0) == INTSTS0_ACK_MASK & !intsts0
            &&& w & !INTSTS0_ACK_MASK == intsts0 & !INTSTS0_ACK_MASK
        }),
{
    assert({
        let w = intsts0 ^ 0xF808u16;
        &&& w & (intsts0 & 0xF808u16) == 0
        &&& w & (0xF808u16 & !intsts0) == 0xF808u16 & !intsts0
        &&& w & !0xF808u16 == intsts0 & !0xF808u16
    }) by (bit_vector);
}

} // verus!
