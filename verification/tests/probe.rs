use ch347usbjtag::error::DebugProbeError;
use ch347usbjtag::probe::{Ch347UsbJtag, Ch347UsbJtagFactory, WireProtocol};
use ch347usbjtag::protocol::Ch347UsbJtagDevice;

#[test]
fn factory_name() {
    assert_eq!(Ch347UsbJtagFactory.name(), "Ch347UsbJtag");
}

#[test]
fn probe_name_and_protocol() {
    let probe = Ch347UsbJtag::new(Ch347UsbJtagDevice::new());
    assert_eq!(probe.get_name(), "CH347 USB Jtag");
    assert_eq!(probe.active_protocol(), Some(WireProtocol::Jtag));
    assert_eq!(probe.speed_khz(), 30000);
    assert_eq!(probe.device().name(), "ch347");
}

#[test]
fn probe_set_speed_reports_back_and_keeps_speed() {
    let mut probe = Ch347UsbJtag::new(Ch347UsbJtagDevice::new());
    assert_eq!(probe.set_speed(7500), Ok::<u32, DebugProbeError>(7500));
    assert_eq!(probe.speed_khz(), 30000);
    assert_eq!(probe.device().speed_khz(), 15000);
}

#[test]
fn probe_operations_succeed() {
    let mut probe = Ch347UsbJtag::new(Ch347UsbJtagDevice::new());
    assert_eq!(probe.attach(), Ok(()));
    assert_eq!(probe.select_protocol(WireProtocol::Swd), Ok(()));
    assert_eq!(probe.active_protocol(), Some(WireProtocol::Jtag));
    assert_eq!(probe.target_reset(), Ok(()));
    assert_eq!(probe.target_reset_assert(), Ok(()));
    assert_eq!(probe.target_reset_deassert(), Ok(()));
    assert_eq!(probe.detach(), Ok(()));
    assert_eq!(probe.device().epin(), 0x86);
}
