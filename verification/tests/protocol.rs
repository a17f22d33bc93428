use ch347usbjtag::error::{DebugProbeError, ProbeCreationError};
use ch347usbjtag::protocol::{
    clock_speed_index, clock_speed_reply, first_ch34x_device, is_ch34x_device, jtag_interface,
    list_ch347usbjtag_devices, Ch347UsbJtagDevice, Clock, Command, UsbDeviceInfo, PACK,
};

fn dev(vendor_id: u16, product_id: u16, serial: Option<&str>) -> UsbDeviceInfo {
    UsbDeviceInfo { vendor_id, product_id, serial_number: serial.map(|s| s.to_string()) }
}

#[test]
fn ch34x_ids_are_recognised() {
    assert!(is_ch34x_device(&dev(0x1A86, 0x55DE, None)));
    assert!(is_ch34x_device(&dev(0x1A86, 0x55DD, None)));
    assert!(is_ch34x_device(&dev(0x1A86, 0x55E8, None)));
}

#[test]
fn other_ids_are_rejected() {
    assert!(!is_ch34x_device(&dev(0x1A86, 0x7523, None)));
    assert!(!is_ch34x_device(&dev(0x0403, 0x55DE, None)));
    assert!(!is_ch34x_device(&dev(0x55DE, 0x1A86, None)));
    assert!(!is_ch34x_device(&dev(0, 0, None)));
}

#[test]
fn first_ch34x_device_is_picked() {
    let devices = vec![
        dev(0x0403, 0x6010, None),
        dev(0x1A86, 0x55DD, Some("B")),
        dev(0x1A86, 0x55DE, Some("C")),
    ];
    assert_eq!(first_ch34x_device(&devices), Ok(1));
}

#[test]
fn no_ch34x_device_is_not_found() {
    let devices = vec![dev(0x0403, 0x6010, None), dev(0x1366, 0x0101, None)];
    assert_eq!(first_ch34x_device(&devices), Err(ProbeCreationError::NotFound));
    assert_eq!(first_ch34x_device(&Vec::new()), Err(ProbeCreationError::NotFound));
}

#[test]
fn listing_keeps_ch34x_devices_in_order() {
    let devices = vec![
        dev(0x1A86, 0x55E8, Some("first")),
        dev(0x0403, 0x6010, Some("ftdi")),
        dev(0x1A86, 0x55DE, None),
    ];
    let probes = list_ch347usbjtag_devices(&devices);
    assert_eq!(probes.len(), 2);
    assert_eq!(probes[0].identifier, "CH347 USB Jtag");
    assert_eq!(probes[0].vendor_id, 0x1A86);
    assert_eq!(probes[0].product_id, 0x55E8);
    assert_eq!(probes[0].serial_number.as_deref(), Some("first"));
    assert_eq!(probes[0].interface, None);
    assert_eq!(probes[1].identifier, "CH347 USB Jtag");
    assert_eq!(probes[1].product_id, 0x55DE);
    assert_eq!(probes[1].serial_number, None);
}

#[test]
fn listing_without_ch34x_is_empty() {
    let devices = vec![dev(0x0403, 0x6010, Some("ftdi"))];
    assert!(list_ch347usbjtag_devices(&devices).is_empty());
}

#[test]
fn first_found_is_first_listed() {
    let devices = vec![dev(0x1366, 0x0101, None), dev(0x1A86, 0x55DD, Some("x")), dev(0x1A86, 0x55E8, Some("y"))];
    let i = first_ch34x_device(&devices).unwrap();
    let probes = list_ch347usbjtag_devices(&devices);
    assert_eq!(probes[0].product_id, devices[i].product_id);
    assert_eq!(probes[0].serial_number, devices[i].serial_number);
}

#[test]
fn command_bytes() {
    assert_eq!(u8::from(Command::JTAG_INIT), 0xD0);
    assert_eq!(u8::from(Command::JTAG_BIT_OP), 0xD1);
    assert_eq!(u8::from(Command::JTAG_BIT_OP_RD), 0xD2);
    assert_eq!(u8::from(Command::JTAG_DATA_SHIFT), 0xD3);
    assert_eq!(u8::from(Command::JTAG_DATA_SHIFT_RD), 0xD4);
}

#[test]
fn clock_bytes() {
    assert_eq!(u8::from(Clock { tms: false, tdi: false, trst: false }), 0x00);
    assert_eq!(u8::from(Clock { tms: true, tdi: false, trst: false }), 0x02);
    assert_eq!(u8::from(Clock { tms: false, tdi: true, trst: false }), 0x10);
    assert_eq!(u8::from(Clock { tms: false, tdi: false, trst: true }), 0x20);
    assert_eq!(u8::from(Clock { tms: true, tdi: true, trst: true }), 0x32);
}

#[test]
fn clock_bytes_decode_back() {
    for bits in 0..8u8 {
        let c = Clock { tms: bits & 1 != 0, tdi: bits & 2 != 0, trst: bits & 4 != 0 };
        let (tms, tdi, trst) = (c.tms, c.tdi, c.trst);
        let b = u8::from(c);
        assert_eq!((b >> 1) & 1 == 1, tms);
        assert_eq!((b >> 4) & 1 == 1, tdi);
        assert_eq!((b >> 5) & 1 == 1, trst);
        assert_eq!(b & 0xCD, 0);
    }
}

#[test]
fn standard_pack_speed_table() {
    let pack = Some(PACK::STANDARD_PACK);
    let speeds = [1875, 3750, 7500, 15000, 30000, 60000];
    for (i, s) in speeds.iter().enumerate() {
        assert_eq!(clock_speed_index(&pack, *s), Ok(i as u8));
    }
    assert_eq!(clock_speed_index(&pack, 468), Err(DebugProbeError::UnsupportedSpeed(468)));
    assert_eq!(clock_speed_index(&pack, 937), Err(DebugProbeError::UnsupportedSpeed(937)));
    assert_eq!(clock_speed_index(&pack, 1000), Err(DebugProbeError::UnsupportedSpeed(1000)));
}

#[test]
fn larger_pack_speed_table() {
    let pack = Some(PACK::LARGER_PACK);
    let speeds = [468, 937, 1875, 3750, 7500, 15000, 30000, 60000];
    for (i, s) in speeds.iter().enumerate() {
        assert_eq!(clock_speed_index(&pack, *s), Ok(i as u8));
    }
    assert_eq!(clock_speed_index(&pack, 0), Err(DebugProbeError::UnsupportedSpeed(0)));
    assert_eq!(clock_speed_index(&pack, 120000), Err(DebugProbeError::UnsupportedSpeed(120000)));
}

#[test]
fn larger_pack_offers_standard_speeds_two_up() {
    for s in [1875, 3750, 7500, 15000, 30000, 60000] {
        let std_i = clock_speed_index(&Some(PACK::STANDARD_PACK), s).unwrap();
        let big_i = clock_speed_index(&Some(PACK::LARGER_PACK), s).unwrap();
        assert_eq!(big_i, std_i + 2);
    }
}

#[test]
fn faster_speed_has_larger_index() {
    let pack = Some(PACK::LARGER_PACK);
    let a = clock_speed_index(&pack, 937).unwrap();
    let b = clock_speed_index(&pack, 30000).unwrap();
    assert!(a < b);
}

#[test]
fn unknown_pack_refuses_speed() {
    assert_eq!(clock_speed_index(&None, 15000), Err(DebugProbeError::UnsupportedSpeed(15000)));
}

#[test]
fn new_device_state() {
    let d = Ch347UsbJtagDevice::new();
    assert_eq!(d.name(), "ch347");
    assert_eq!(d.epout(), 0x06);
    assert_eq!(d.epin(), 0x86);
    assert_eq!(d.speed_khz(), 15000);
    assert_eq!(*d.pack(), None);
}

#[test]
fn new_device_refuses_every_speed() {
    let d = Ch347UsbJtagDevice::new();
    for s in [468, 937, 1875, 3750, 7500, 15000, 30000, 60000, 1] {
        assert_eq!(d.clock_speed_request(s), Err(DebugProbeError::UnsupportedSpeed(s)));
    }
}

#[test]
fn set_speed_reads_back() {
    let mut d = Ch347UsbJtagDevice::new();
    assert_eq!(d.set_speed_khz(30000), 30000);
    assert_eq!(d.speed_khz(), 30000);
    assert_eq!(d.set_speed_khz(468), 468);
    assert_eq!(d.speed_khz(), 468);
    assert_eq!(*d.pack(), None);
    assert_eq!(d.epout(), 0x06);
}

#[test]
fn clock_speed_reply_accepts_zero_status() {
    assert_eq!(clock_speed_reply(15000, &[0xD0, 0x01, 0x00, 0x00]), Ok(15000));
    assert_eq!(clock_speed_reply(60000, &[0, 0, 0, 0]), Ok(60000));
}

#[test]
fn clock_speed_reply_refuses_nonzero_status() {
    assert_eq!(
        clock_speed_reply(15000, &[0xD0, 0x01, 0x00, 0x01]),
        Err(DebugProbeError::UnsupportedSpeed(15000))
    );
    assert_eq!(clock_speed_reply(7500, &[0, 0, 0, 0xFF]), Err(DebugProbeError::UnsupportedSpeed(7500)));
}

#[test]
fn stub_operations_succeed_without_change() {
    let mut d = Ch347UsbJtagDevice::new();
    assert_eq!(d.attach(), Ok(()));
    assert_eq!(d.read_response(), Ok(()));
    assert_eq!(d.flush(), Ok(()));
    assert_eq!(d.append_command(Command::JTAG_DATA_SHIFT), Ok(()));
    assert_eq!(d.finalize_command(), Ok(()));
    assert_eq!(d.shift_bit(true, false, true), Ok(()));
    assert_eq!(d.send_buffer(), Ok(()));
    assert_eq!(d.speed_khz(), 15000);
    assert_eq!(d.name(), "ch347");
    assert_eq!(*d.pack(), None);
}

#[test]
fn jtag_interface_is_four() {
    assert_eq!(jtag_interface(), 4);
}

#[test]
fn opened_device_refuses_speeds_after_any_calls() {
    let mut d = Ch347UsbJtagDevice::new();
    d.attach().unwrap();
    d.set_speed_khz(60000);
    d.shift_bit(false, true, false).unwrap();
    d.append_command(Command::JTAG_INIT).unwrap();
    d.flush().unwrap();
    for s in [468, 1875, 15000, 60000] {
        assert_eq!(d.clock_speed_request(s), Err(DebugProbeError::UnsupportedSpeed(s)));
    }
}

#[test]
fn speed_last_set_survives_other_calls() {
    let mut d = Ch347UsbJtagDevice::new();
    d.flush().unwrap();
    d.send_buffer().unwrap();
    assert_eq!(d.speed_khz(), 15000);
    d.set_speed_khz(3750);
    d.attach().unwrap();
    d.read_response().unwrap();
    d.finalize_command().unwrap();
    d.shift_bit(true, true, true).unwrap();
    assert_eq!(d.speed_khz(), 3750);
    d.set_speed_khz(937);
    d.send_buffer().unwrap();
    assert_eq!(d.speed_khz(), 937);
}
