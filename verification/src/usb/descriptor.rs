//! USB descriptors.
use vstd::prelude::*;

verus! {

/// A descriptor, and whether its multi-byte fields are little-endian.
pub struct Descriptor {
    descriptor: DescriptorType,
    is_little_endian: bool,
}

/// The two bytes of a 16-bit field in the given byte order.
pub open spec fn spec_u16_bytes(value: u16, is_little_endian: bool) -> (u8, u8) {
    let head = (value >> 8u16) as u8;
    let tail = (value & 0xff) as u8;
    if is_little_endian { (tail, head) } else { (head, tail) }
}

fn u16_bytes(value: u16, is_little_endian: bool) -> (r: (u8, u8))
    ensures
        r == spec_u16_bytes(value, is_little_endian),
{
    #[verifier::truncate]
    let head = (value >> 8u16) as u8;
    #[verifier::truncate]
    let tail = (value & 0xff) as u8;
    if is_little_endian { (tail, head) } else { (head, tail) }
}

/// The 255 bytes of a descriptor: its type code at offset 1 and, for a device
/// descriptor, the length 18 at offset 0, bcdUSB at offsets 2 and 3 and the class
/// and subclass codes at offsets 4 and 5; zero elsewhere.
pub open spec fn spec_descriptor_bytes(d: DescriptorType, is_little_endian: bool) -> Seq<u8> {
    Seq::new(255, |i: int|
        if i == 1 {
            d.spec_to_u8()
        } else {
            match d {
                DescriptorType::Device { bcd_usb, device_class } => {
                    let (b2, b3) = spec_u16_bytes(bcd_usb.spec_bits(), is_little_endian);
                    let (c, s) = device_class.spec_codes();
                    if i == 0 { 18u8 } else if i == 2 { b2 } else if i == 3 { b3 } else if i == 4 { c } else if i == 5 { s } else { 0u8 }
                },
                _ => 0u8,
            }
        })
}

impl Descriptor {
    pub closed spec fn spec_descriptor(&self) -> DescriptorType {
        self.descriptor
    }

    pub closed spec fn spec_is_little_endian(&self) -> bool {
        self.is_little_endian
    }

    /// The bytes of the descriptor.
    pub fn data(&self) -> (r: [u8; 255])
        ensures
            r@ == spec_descriptor_bytes(self.spec_descriptor(), self.spec_is_little_endian()),
    {
        let mut data = [0u8; 255];
        data[1] = self.descriptor.to_u8();
        match self.descriptor {
            DescriptorType::Device { bcd_usb, device_class } => {
                data[0] = 18;
                let (b2, b3) = u16_bytes(bcd_usb.bits(), self.is_little_endian);
                data[2] = b2;
                data[3] = b3;
                let (c, s) = device_class.codes();
                data[4] = c;
                data[5] = s;
            },
            _ => {},
        }
        assert(data@ =~= spec_descriptor_bytes(self.descriptor, self.is_little_endian));
        data
    }
}

/// A descriptor type, with the fields of a device descriptor.
#[derive(Copy, Clone, Debug, PartialEq, Eq, Structural)]
pub enum DescriptorType {
    Device { bcd_usb: BcdUsb, device_class: DeviceClass },
    Configuration,
    String,
    Interface,
    Endpoint,
    DeviceQualifier,
    OtherSpeedConfiguration,
    InterfacePower,
    Otg,
    Debug,
    InterfaceAssociationDescriptor,
    Bos,
    DeviceCapability,
}

impl DescriptorType {
    /// The descriptor type code.
    pub open spec fn spec_to_u8(&self) -> u8 {
        match self {
            DescriptorType::Device { .. } => 0x01,
            DescriptorType::Configuration => 0x02,
            DescriptorType::String => 0x03,
            DescriptorType::Interface => 0x04,
            DescriptorType::Endpoint => 0x05,
            DescriptorType::DeviceQualifier => 0x06,
            DescriptorType::OtherSpeedConfiguration => 0x07,
            DescriptorType::InterfacePower => 0x08,
            DescriptorType::Otg => 0x09,
            DescriptorType::Debug => 0x10,
            DescriptorType::InterfaceAssociationDescriptor => 0x11,
            DescriptorType::Bos => 0x15,
            DescriptorType::DeviceCapability => 0x16,
        }
    }

    pub fn to_u8(&self) -> (r: u8)
        ensures
            r == self.spec_to_u8(),
    {
        match self {
            DescriptorType::Device { .. } => 0x01,
            DescriptorType::Configuration => 0x02,
            DescriptorType::String => 0x03,
            DescriptorType::Interface => 0x04,
            DescriptorType::Endpoint => 0x05,
            DescriptorType::DeviceQualifier => 0x06,
            DescriptorType::OtherSpeedConfiguration => 0x07,
            DescriptorType::InterfacePower => 0x08,
            DescriptorType::Otg => 0x09,
            DescriptorType::Debug => 0x10,
            DescriptorType::InterfaceAssociationDescriptor => 0x11,
            DescriptorType::Bos => 0x15,
            DescriptorType::DeviceCapability => 0x16,
        }
    }
}

/// USB specification release number (bcdUSB).
#[derive(Copy, Clone, Debug, PartialEq, Eq, Structural)]
pub enum BcdUsb {
    Usb1_0,
    Usb1_1,
    Usb2_0,
    Usb2_0Bos,
    Usb3_0To2_0,
    Usb3_0,
    EnhancedSuperSpeed,
}

impl BcdUsb {
    pub open spec fn spec_bits(self) -> u16 {
        match self {
            BcdUsb::Usb1_0 => 0x100,
            BcdUsb::Usb1_1 => 0x110,
            BcdUsb::Usb2_0 => 0x200,
            BcdUsb::Usb2_0Bos => 0x201,
            BcdUsb::Usb3_0To2_0 => 0x210,
            BcdUsb::Usb3_0 => 0x300,
            BcdUsb::EnhancedSuperSpeed => 0x310,
        }
    }

    pub fn bits(self) -> (b: u16)
        ensures
            b == self.spec_bits(),
    {
        match self {
            BcdUsb::Usb1_0 => 0x100,
            BcdUsb::Usb1_1 => 0x110,
            BcdUsb::Usb2_0 => 0x200,
            BcdUsb::Usb2_0Bos => 0x201,
            BcdUsb::Usb3_0To2_0 => 0x210,
            BcdUsb::Usb3_0 => 0x300,
            BcdUsb::EnhancedSuperSpeed => 0x310,
        }
    }
}

/// Device class, with its subclass.
#[derive(Copy, Clone, Debug, PartialEq, Eq, Structural)]
pub enum DeviceClass {
    InterfaceDefined,
    Audio(AudioSubClass),
    Cdc(CdcSubClass),
    Hid(HidSubClass),
    Physical(PhysicalSubClass),
    Imaging(ImagingSubClass),
    Printer(PrinterSubClass),
    MassStorage(MassStorageSubClass),
    Hub(HubSubClass),
    CdcData(CdcDataSubClass),
    SmartCard(SmartCardSubClass),
    ContentSecurity(ContentSecuritySubClass),
    Video(VideoSubClass),
    PersonalHealthcare(PersonalHealthcareSubClass),
    Av(AvSubClass),
    Billboard(BillboardSubClass),
    UsbTypeCBridge(UsbTypeCBridgeSubClass),
    DiagnosisDevice,
    Bluetooth,
    InterfaceAssociationDescriptor(InterfaceAssociationDescriptorSubClass),
    ApplicationSpecific(ApplicationSpecificSubClass),
    VendorSpecific(VendorSpecificSubClass),
}

impl DeviceClass {
    /// The class code and the subclass code.
    pub open spec fn spec_codes(&self) -> (u8, u8) {
        match *self {
            DeviceClass::InterfaceDefined => (0x00, 0x00),
            DeviceClass::Audio(sub) => (0x01, sub.spec_bits()),
            DeviceClass::Cdc(sub) => (0x02, sub.spec_bits()),
            DeviceClass::Hid(sub) => (0x03, sub.spec_bits()),
            DeviceClass::Physical(sub) => (0x05, sub.spec_bits()),
            DeviceClass::Imaging(sub) => (0x06, sub.spec_bits()),
            DeviceClass::Printer(sub) => (0x07, sub.spec_bits()),
            DeviceClass::MassStorage(sub) => (0x08, sub.spec_bits()),
            DeviceClass::Hub(sub) => (0x09, sub.spec_bits()),
            DeviceClass::CdcData(sub) => (0x0a, sub.spec_bits()),
            DeviceClass::SmartCard(sub) => (0x0b, sub.spec_bits()),
            DeviceClass::ContentSecurity(sub) => (0x0d, sub.spec_bits()),
            DeviceClass::Video(sub) => (0x0e, sub.spec_bits()),
            DeviceClass::PersonalHealthcare(sub) => (0x0f, sub.spec_bits()),
            DeviceClass::Av(sub) => (0x10, sub.spec_bits()),
            DeviceClass::Billboard(sub) => (0x11, sub.spec_bits()),
            DeviceClass::UsbTypeCBridge(sub) => (0x12, sub.spec_bits()),
            DeviceClass::DiagnosisDevice => (0xdc, 0x00),
            DeviceClass::Bluetooth => (0xe0, 0x00),
            DeviceClass::InterfaceAssociationDescriptor(sub) => (0xef, sub.spec_bits()),
            DeviceClass::ApplicationSpecific(sub) => (0xfe, sub.spec_bits()),
            DeviceClass::VendorSpecific(sub) => (0xff, sub.spec_bits()),
        }
    }

    fn codes(&self) -> (r: (u8, u8))
        ensures
            r == self.spec_codes(),
    {
        match *self {
            DeviceClass::InterfaceDefined => (0x00, 0x00),
            DeviceClass::Audio(sub) => (0x01, sub.bits()),
            DeviceClass::Cdc(sub) => (0x02, sub.bits()),
            DeviceClass::Hid(sub) => (0x03, sub.bits()),
            DeviceClass::Physical(sub) => (0x05, sub.bits()),
            DeviceClass::Imaging(sub) => (0x06, sub.bits()),
            DeviceClass::Printer(sub) => (0x07, sub.bits()),
            DeviceClass::MassStorage(sub) => (0x08, sub.bits()),
            DeviceClass::Hub(sub) => (0x09, sub.bits()),
            DeviceClass::CdcData(sub) => (0x0a, sub.bits()),
            DeviceClass::SmartCard(sub) => (0x0b, sub.bits()),
            DeviceClass::ContentSecurity(sub) => (0x0d, sub.bits()),
            DeviceClass::Video(sub) => (0x0e, sub.bits()),
            DeviceClass::PersonalHealthcare(sub) => (0x0f, sub.bits()),
            DeviceClass::Av(sub) => (0x10, sub.bits()),
            DeviceClass::Billboard(sub) => (0x11, sub.bits()),
            DeviceClass::UsbTypeCBridge(sub) => (0x12, sub.bits()),
            DeviceClass::DiagnosisDevice => (0xdc, 0x00),
            DeviceClass::Bluetooth => (0xe0, 0x00),
            DeviceClass::InterfaceAssociationDescriptor(sub) => (0xef, sub.bits()),
            DeviceClass::ApplicationSpecific(sub) => (0xfe, sub.bits()),
            DeviceClass::VendorSpecific(sub) => (0xff, sub.bits()),
        }
    }

    /// Writes the class code and the subclass code into the first two bytes.
    pub fn set(&self, buf: &mut [u8])
        requires
            old(buf)@.len() >= 2,
        ensures
            final(buf)@ == old(buf)@.update(0, self.spec_codes().0).update(1, self.spec_codes().1),
    {
        let (c, s) = self.codes();
        buf[0] = c;
        buf[1] = s;
    }
}

/// Subclass codes of the Audio class.
#[derive(Copy, Clone, Debug, PartialEq, Eq, Structural)]
pub enum AudioSubClass {
    Undefined,
    AudioControl,
    AudioStreaming,
    MidiStreaming,
}

impl AudioSubClass {
    pub open spec fn spec_bits(self) -> u8 {
        match self {
            AudioSubClass::Undefined => 0x00,
            AudioSubClass::AudioControl => 0x01,
            AudioSubClass::AudioStreaming => 0x02,
            AudioSubClass::MidiStreaming => 0x03,
        }
    }

    pub fn bits(self) -> (b: u8)
        ensures
            b == self.spec_bits(),
    {
        match self {
            AudioSubClass::Undefined => 0x00,
            AudioSubClass::AudioControl => 0x01,
            AudioSubClass::AudioStreaming => 0x02,
            AudioSubClass::MidiStreaming => 0x03,
        }
    }
}

/// Subclass codes of the Cdc class.
#[derive(Copy, Clone, Debug, PartialEq, Eq, Structural)]
pub enum CdcSubClass {
    Undefined,
    DirectLineControl,
    Acm,
    TelephoneControl,
    MultiChannelControl,
    CapiControl,
    EthernetNetworking,
    AtmNetworking,
}

impl CdcSubClass {
    pub open spec fn spec_bits(self) -> u8 {
        match self {
            CdcSubClass::Undefined => 0x00,
            CdcSubClass::DirectLineControl => 0x01,
            CdcSubClass::Acm => 0x02,
            CdcSubClass::TelephoneControl => 0x03,
            CdcSubClass::MultiChannelControl => 0x04,
            CdcSubClass::CapiControl => 0x05,
            CdcSubClass::EthernetNetworking => 0x06,
            CdcSubClass::AtmNetworking => 0x07,
        }
    }

    pub fn bits(self) -> (b: u8)
        ensures
            b == self.spec_bits(),
    {
        match self {
            CdcSubClass::Undefined => 0x00,
            CdcSubClass::DirectLineControl => 0x01,
            CdcSubClass::Acm => 0x02,
            CdcSubClass::TelephoneControl => 0x03,
            CdcSubClass::MultiChannelControl => 0x04,
            CdcSubClass::CapiControl => 0x05,
            CdcSubClass::EthernetNetworking => 0x06,
            CdcSubClass::AtmNetworking => 0x07,
        }
    }
}

/// Subclass codes of the Hid class.
#[derive(Copy, Clone, Debug, PartialEq, Eq, Structural)]
pub enum HidSubClass {
    NoSubclass,
    BootInterfaceSubclass,
}

impl HidSubClass {
    pub open spec fn spec_bits(self) -> u8 {
        match self {
            HidSubClass::NoSubclass => 0x00,
            HidSubClass::BootInterfaceSubclass => 0x01,
        }
    }

    pub fn bits(self) -> (b: u8)
        ensures
            b == self.spec_bits(),
    {
        match self {
            HidSubClass::NoSubclass => 0x00,
            HidSubClass::BootInterfaceSubclass => 0x01,
        }
    }
}

/// Subclass codes of the Physical class.
#[derive(Copy, Clone, Debug, PartialEq, Eq, Structural)]
pub enum PhysicalSubClass {
    PhysicalInterfaceDevice,
}

impl PhysicalSubClass {
    pub open spec fn spec_bits(self) -> u8 {
        match self {
            PhysicalSubClass::PhysicalInterfaceDevice => 0x00,
        }
    }

    pub fn bits(self) -> (b: u8)
        ensures
            b == self.spec_bits(),
    {
        match self {
            PhysicalSubClass::PhysicalInterfaceDevice => 0x00,
        }
    }
}

/// Subclass codes of the Imaging class.
#[derive(Copy, Clone, Debug, PartialEq, Eq, Structural)]
pub enum ImagingSubClass {
    StillImageCapture,
    Video,
    Scanner,
}

impl ImagingSubClass {
    pub open spec fn spec_bits(self) -> u8 {
        match self {
            ImagingSubClass::StillImageCapture => 0x01,
            ImagingSubClass::Video => 0x02,
            ImagingSubClass::Scanner => 0x03,
        }
    }

    pub fn bits(self) -> (b: u8)
        ensures
            b == self.spec_bits(),
    {
        match self {
            ImagingSubClass::StillImageCapture => 0x01,
            ImagingSubClass::Video => 0x02,
            ImagingSubClass::Scanner => 0x03,
        }
    }
}

/// Subclass codes of the Printer class.
#[derive(Copy, Clone, Debug, PartialEq, Eq, Structural)]
pub enum PrinterSubClass {
    Printer,
    PrintingSupport,
    VendorSpecific,
}

impl PrinterSubClass {
    pub open spec fn spec_bits(self) -> u8 {
        match self {
            PrinterSubClass::Printer => 0x01,
            PrinterSubClass::PrintingSupport => 0x02,
            PrinterSubClass::VendorSpecific => 0xff,
        }
    }

    pub fn bits(self) -> (b: u8)
        ensures
            b == self.spec_bits(),
    {
        match self {
            PrinterSubClass::Printer => 0x01,
            PrinterSubClass::PrintingSupport => 0x02,
            PrinterSubClass::VendorSpecific => 0xff,
        }
    }
}

/// Subclass codes of the MassStorage class.
#[derive(Copy, Clone, Debug, PartialEq, Eq, Structural)]
pub enum MassStorageSubClass {
    Undefined,
    Rbc,
    Atapi,
    Qic157,
    Ufi,
    Sff8070i,
    ScsiTransparentCommandSet,
}

impl MassStorageSubClass {
    pub open spec fn spec_bits(self) -> u8 {
        match self {
            MassStorageSubClass::Undefined => 0x00,
            MassStorageSubClass::Rbc => 0x01,
            MassStorageSubClass::Atapi => 0x02,
            MassStorageSubClass::Qic157 => 0x03,
            MassStorageSubClass::Ufi => 0x04,
            MassStorageSubClass::Sff8070i => 0x05,
            MassStorageSubClass::ScsiTransparentCommandSet => 0x06,
        }
    }

    pub fn bits(self) -> (b: u8)
        ensures
            b == self.spec_bits(),
    {
        match self {
            MassStorageSubClass::Undefined => 0x00,
            MassStorageSubClass::Rbc => 0x01,
            MassStorageSubClass::Atapi => 0x02,
            MassStorageSubClass::Qic157 => 0x03,
            MassStorageSubClass::Ufi => 0x04,
            MassStorageSubClass::Sff8070i => 0x05,
            MassStorageSubClass::ScsiTransparentCommandSet => 0x06,
        }
    }
}

/// Subclass codes of the Hub class.
#[derive(Copy, Clone, Debug, PartialEq, Eq, Structural)]
pub enum HubSubClass {
    FullSpeedHub,
    HiSpeedHub,
}

impl HubSubClass {
    pub open spec fn spec_bits(self) -> u8 {
        match self {
            HubSubClass::FullSpeedHub => 0x00,
            HubSubClass::HiSpeedHub => 0x01,
        }
    }

    pub fn bits(self) -> (b: u8)
        ensures
            b == self.spec_bits(),
    {
        match self {
            HubSubClass::FullSpeedHub => 0x00,
            HubSubClass::HiSpeedHub => 0x01,
        }
    }
}

/// Subclass codes of the CdcData class.
#[derive(Copy, Clone, Debug, PartialEq, Eq, Structural)]
pub enum CdcDataSubClass {
    NoSubclass,
}

impl CdcDataSubClass {
    pub open spec fn spec_bits(self) -> u8 {
        match self {
            CdcDataSubClass::NoSubclass => 0x00,
        }
    }

    pub fn bits(self) -> (b: u8)
        ensures
            b == self.spec_bits(),
    {
        match self {
            CdcDataSubClass::NoSubclass => 0x00,
        }
    }
}

/// Subclass codes of the SmartCard class.
#[derive(Copy, Clone, Debug, PartialEq, Eq, Structural)]
pub enum SmartCardSubClass {
    SmartCard,
}

impl SmartCardSubClass {
    pub open spec fn spec_bits(self) -> u8 {
        match self {
            SmartCardSubClass::SmartCard => 0x00,
        }
    }

    pub fn bits(self) -> (b: u8)
        ensures
            b == self.spec_bits(),
    {
        match self {
            SmartCardSubClass::SmartCard => 0x00,
        }
    }
}

/// Subclass codes of the ContentSecurity class.
#[derive(Copy, Clone, Debug, PartialEq, Eq, Structural)]
pub enum ContentSecuritySubClass {
    ContentSecurity,
}

impl ContentSecuritySubClass {
    pub open spec fn spec_bits(self) -> u8 {
        match self {
            ContentSecuritySubClass::ContentSecurity => 0x00,
        }
    }

    pub fn bits(self) -> (b: u8)
        ensures
            b == self.spec_bits(),
    {
        match self {
            ContentSecuritySubClass::ContentSecurity => 0x00,
        }
    }
}

/// Subclass codes of the Video class.
#[derive(Copy, Clone, Debug, PartialEq, Eq, Structural)]
pub enum VideoSubClass {
    Undefined,
    VideoControl,
    VideoStreaming,
}

impl VideoSubClass {
    pub open spec fn spec_bits(self) -> u8 {
        match self {
            VideoSubClass::Undefined => 0x00,
            VideoSubClass::VideoControl => 0x01,
            VideoSubClass::VideoStreaming => 0x02,
        }
    }

    pub fn bits(self) -> (b: u8)
        ensures
            b == self.spec_bits(),
    {
        match self {
            VideoSubClass::Undefined => 0x00,
            VideoSubClass::VideoControl => 0x01,
            VideoSubClass::VideoStreaming => 0x02,
        }
    }
}

/// Subclass codes of the PersonalHealthcare class.
#[derive(Copy, Clone, Debug, PartialEq, Eq, Structural)]
pub enum PersonalHealthcareSubClass {
    PersonalHealthcare,
}

impl PersonalHealthcareSubClass {
    pub open spec fn spec_bits(self) -> u8 {
        match self {
            PersonalHealthcareSubClass::PersonalHealthcare => 0x00,
        }
    }

    pub fn bits(self) -> (b: u8)
        ensures
            b == self.spec_bits(),
    {
        match self {
            PersonalHealthcareSubClass::PersonalHealthcare => 0x00,
        }
    }
}

/// Subclass codes of the Av class.
#[derive(Copy, Clone, Debug, PartialEq, Eq, Structural)]
pub enum AvSubClass {
    AvControl,
}

impl AvSubClass {
    pub open spec fn spec_bits(self) -> u8 {
        match self {
            AvSubClass::AvControl => 0x00,
        }
    }

    pub fn bits(self) -> (b: u8)
        ensures
            b == self.spec_bits(),
    {
        match self {
            AvSubClass::AvControl => 0x00,
        }
    }
}

/// Subclass codes of the Billboard class.
#[derive(Copy, Clone, Debug, PartialEq, Eq, Structural)]
pub enum BillboardSubClass {
    BillboardDevice,
}

impl BillboardSubClass {
    pub open spec fn spec_bits(self) -> u8 {
        match self {
            BillboardSubClass::BillboardDevice => 0x00,
        }
    }

    pub fn bits(self) -> (b: u8)
        ensures
            b == self.spec_bits(),
    {
        match self {
            BillboardSubClass::BillboardDevice => 0x00,
        }
    }
}

/// Subclass codes of the UsbTypeCBridge class.
#[derive(Copy, Clone, Debug, PartialEq, Eq, Structural)]
pub enum UsbTypeCBridgeSubClass {
    UsbTypeCBridge,
}

impl UsbTypeCBridgeSubClass {
    pub open spec fn spec_bits(self) -> u8 {
        match self {
            UsbTypeCBridgeSubClass::UsbTypeCBridge => 0x00,
        }
    }

    pub fn bits(self) -> (b: u8)
        ensures
            b == self.spec_bits(),
    {
        match self {
            UsbTypeCBridgeSubClass::UsbTypeCBridge => 0x00,
        }
    }
}

/// Subclass codes of the InterfaceAssociationDescriptor class.
#[derive(Copy, Clone, Debug, PartialEq, Eq, Structural)]
pub enum InterfaceAssociationDescriptorSubClass {
    InterfaceAssociationDescriptor,
}

impl InterfaceAssociationDescriptorSubClass {
    pub open spec fn spec_bits(self) -> u8 {
        match self {
            InterfaceAssociationDescriptorSubClass::InterfaceAssociationDescriptor => 0x02,
        }
    }

    pub fn bits(self) -> (b: u8)
        ensures
            b == self.spec_bits(),
    {
        match self {
            InterfaceAssociationDescriptorSubClass::InterfaceAssociationDescriptor => 0x02,
        }
    }
}

/// Subclass codes of the ApplicationSpecific class.
#[derive(Copy, Clone, Debug, PartialEq, Eq, Structural)]
pub enum ApplicationSpecificSubClass {
    NoSubclass,
}

impl ApplicationSpecificSubClass {
    pub open spec fn spec_bits(self) -> u8 {
        match self {
            ApplicationSpecificSubClass::NoSubclass => 0x00,
        }
    }

    pub fn bits(self) -> (b: u8)
        ensures
            b == self.spec_bits(),
    {
        match self {
            ApplicationSpecificSubClass::NoSubclass => 0x00,
        }
    }
}

/// Subclass codes of the VendorSpecific class.
#[derive(Copy, Clone, Debug, PartialEq, Eq, Structural)]
pub enum VendorSpecificSubClass {
    VendorSpecific,
}

impl VendorSpecificSubClass {
    pub open spec fn spec_bits(self) -> u8 {
        match self {
            VendorSpecificSubClass::VendorSpecific => 0xff,
        }
    }

    pub fn bits(self) -> (b: u8)
        ensures
            b == self.spec_bits(),
    {
        match self {
            VendorSpecificSubClass::VendorSpecific => 0xff,
        }
    }
}

} // verus!
