use ra6m5_hal::gpio::port1::Port1;
use ra6m5_hal::gpio::{pfs_protection_writes, pfs_update, Drive, LatchWrite, Pdr, Podr};
use ra6m5_hal::icu::{Icu, IcuEvent};
use ra6m5_hal::usb::descriptor::{BcdUsb, CdcSubClass, DescriptorType as UsbDescriptorType, DeviceClass, HidSubClass};
use ra6m5_hal::usb::interrupt::{
    on_usbi_interrupt, ControlTransferStage, DescriptorType, DeviceState, SetupPacket,
    StandardRequest, UsbiSnapshot,
};

#[test]
fn usbi_interrupt_decodes_and_acknowledges() {
    let s = UsbiSnapshot {
        intsts0: (1 << 3) | (1 << 11) | (1 << 12) | 0x0010 | 0x0002,
        bm_request_type: 0x80,
        b_request: 0x06,
        w_value: 0x0100,
        w_index: 0,
        w_length: 18,
    };
    let (irqs, reset0) = on_usbi_interrupt(&s).ok().unwrap();
    let setup = irqs.usb_request.unwrap();
    assert_eq!(setup, SetupPacket { bm_request_type: 0x80, b_request: 0x06, w_value: 0x0100, w_index: 0, w_length: 18 });
    assert_eq!(irqs.control_transfer_stage_transition, Some(ControlTransferStage::ReadStatus));
    assert_eq!(irqs.device_state_transition, Some(DeviceState::Default));
    assert!(irqs.resume.is_none() && irqs.vbus.is_none());
    // the acknowledged flags that were set are cleared, the others written as 1
    assert_eq!(reset0, s.intsts0 ^ 0xF808);
    assert_eq!(reset0 & ((1 << 3) | (1 << 11) | (1 << 12)), 0);
}

#[test]
fn standard_requests() {
    let get_device = SetupPacket { bm_request_type: 0x80, b_request: 0x06, w_value: 0x0100, w_index: 0x0409, w_length: 64 };
    assert_eq!(
        get_device.to_standard_request(),
        Some(StandardRequest::GetDescriptor { descriptor_type: DescriptorType::Device, index: 0, language_id: 0x0409, length: 64 })
    );
    let set_address = SetupPacket { bm_request_type: 0x00, b_request: 0x05, w_value: 0x00FF, w_index: 0, w_length: 0 };
    assert_eq!(set_address.to_standard_request(), Some(StandardRequest::SetAddress { address: 0x7F }));
    let class_request = SetupPacket { bm_request_type: 0x21, b_request: 0x09, w_value: 0, w_index: 0, w_length: 0 };
    assert_eq!(class_request.to_standard_request(), None);
    let unknown = SetupPacket { bm_request_type: 0x00, b_request: 0x02, w_value: 0, w_index: 0, w_length: 0 };
    assert_eq!(unknown.to_standard_request(), None);
    let set_config = SetupPacket { bm_request_type: 0x00, b_request: 0x09, w_value: 0x0101, w_index: 0, w_length: 0 };
    assert_eq!(set_config.to_standard_request(), Some(StandardRequest::SetConfiguration { configuration_value: 1 }));
}

#[test]
fn icu_channels_link_events() {
    let mut taken = false;
    let mut iel = Icu::init(&mut taken).ok().unwrap();
    assert!(Icu::init(&mut taken).is_err());
    assert_eq!((iel.iel1.id(), iel.iel2.id(), iel.iel47.id(), iel.iel95.id()), (1, 2, 47, 95));
    let mut ielsr: u32 = 0;
    assert!(iel.iel1.set_event(&mut ielsr, IcuEvent::USBFS0_USBI).is_ok());
    assert_eq!(iel.iel1.get_event(&ielsr), Some(IcuEvent::USBFS0_USBI));
    // a pending interrupt (IR, bit 16) refuses relinking
    ielsr |= 1 << 16;
    assert!(iel.iel1.set_event(&mut ielsr, IcuEvent::USBFS0_USBR).is_err());
    assert_eq!(iel.iel1.get_event(&ielsr), Some(IcuEvent::USBFS0_USBI));
}

#[test]
fn gpio_output_pin() {
    let mut taken = false;
    let port = Port1::take(&mut taken).ok().unwrap();
    assert!(Port1::take(&mut taken).is_err());
    assert!(Port1::take(&mut taken).is_err());
    // another port has its own flag
    let mut taken0 = false;
    assert!(ra6m5_hal::gpio::port0::Port0::take(&mut taken0).is_ok());
    let pins = port.split();
    assert_eq!((pins.p100.port(), pins.p100.id()), (1, 0));
    assert_eq!((pins.p115.port(), pins.p115.id()), (1, 15));
    let mut pfs: u32 = 0;
    let mut out = pins.p100.into_push_pull_output(&mut pfs, true);
    // PODR bit 0 and PDR bit 2 set
    assert_eq!(pfs & 0b101, 0b101);
    assert_eq!(out.set_low(&mut pfs), LatchWrite::Porr { port: 1, bit: 0 });
    assert_eq!(pfs & 1, 0);
    assert_eq!(out.set_high(&mut pfs), LatchWrite::Posr { port: 1, bit: 0 });
    assert_eq!(pfs & 1, 1);
    // the level read at the pin (PIDR, bit 1) decides toggling
    pfs |= 0b10;
    assert!(out.is_set_high(&pfs));
    assert_eq!(out.toggle(&mut pfs), LatchWrite::Porr { port: 1, bit: 0 });
    assert_eq!(pfs & 1, 0);
    pfs &= !0b10;
    assert_eq!(out.toggle(&mut pfs), LatchWrite::Posr { port: 1, bit: 0 });
    assert_eq!(pfs & 1, 1);
}

#[test]
fn pfs_fields_update() {
    let w = pfs_update(0xFFFF_FFFF, Some(Podr::Low), None, None, None, Some(Drive::Low), None, None, None, None, None);
    assert_eq!(w, 0xFFFF_F3FE);
    let w = pfs_update(0, None, Some(Pdr::Output), None, None, Some(Drive::High), None, None, None, None, None);
    assert_eq!(w, 0x0000_0C04);
    assert_eq!(pfs_update(0x1234_5678, None, None, None, None, None, None, None, None, None, None), 0x1234_5678);
    assert_eq!(pfs_protection_writes(0x80), (0x00, 0xC0, 0x80, 0x80));
}

#[test]
fn device_class_codes() {
    let mut buf = [0xAAu8; 4];
    DeviceClass::Cdc(CdcSubClass::Acm).set(&mut buf);
    assert_eq!(buf, [0x02, 0x02, 0xAA, 0xAA]);
    DeviceClass::Hid(HidSubClass::BootInterfaceSubclass).set(&mut buf);
    assert_eq!(&buf[..2], &[0x03, 0x01]);
    DeviceClass::Bluetooth.set(&mut buf);
    assert_eq!(&buf[..2], &[0xE0, 0x00]);
}

#[test]
fn descriptor_type_codes() {
    let device = UsbDescriptorType::Device { bcd_usb: BcdUsb::Usb2_0, device_class: DeviceClass::InterfaceDefined };
    assert_eq!(device.to_u8(), 0x01);
    assert_eq!(UsbDescriptorType::Bos.to_u8(), 0x15);
    assert_eq!(UsbDescriptorType::Debug.to_u8(), 0x10);
}
