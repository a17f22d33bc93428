use crate::error::DebugProbeError;
use crate::protocol::{Ch347UsbJtagDevice, Ch347UsbJtagDeviceView};
use vstd::prelude::*;

verus! {

/// The factory that lists and opens CH347 probes.
#[derive(Debug, Clone, Copy, PartialEq, Eq, Structural)]
pub struct Ch347UsbJtagFactory;

/// A probe found attached to the host.
pub struct DebugProbeInfo {
    /// The name of the probe.
    pub identifier: String,
    /// The USB vendor identifier.
    pub vendor_id: u16,
    /// The USB product identifier.
    pub product_id: u16,
    /// The serial number of the probe, where it has one.
    pub serial_number: Option<String>,
    /// The factory that opens the probe.
    pub probe_factory: Ch347UsbJtagFactory,
    /// The USB interface of the probe, where one is given.
    pub interface: Option<u8>,
}


impl Ch347UsbJtagFactory {
    /// The name under which the factory shows itself: "Ch347UsbJtag".
    pub fn name(&self) -> (r: String)
        ensures
            r@ == "Ch347UsbJtag"@,
    {
        "Ch347UsbJtag".to_string()
    }
}

/// The wire protocols of a debug probe.
#[derive(Debug, Clone, Copy, PartialEq, Eq, Structural)]
pub enum WireProtocol {
    /// Serial Wire Debug.
    Swd,
    /// JTAG.
    Jtag,
}

/// A CH347 converter used as a JTAG debug probe.
pub struct Ch347UsbJtag {
    device: Ch347UsbJtagDevice,
}

impl View for Ch347UsbJtag {
    type V = Ch347UsbJtagDeviceView;

    closed spec fn view(&self) -> Ch347UsbJtagDeviceView {
        self.device@
    }
}

impl Ch347UsbJtag {
    /// The probe over an opened device.
    pub fn new(device: Ch347UsbJtagDevice) -> (r: Ch347UsbJtag)
        ensures
            r@ == device@,
    {
        Ch347UsbJtag { device }
    }

    /// The device state of the probe.
    pub fn device(&self) -> (r: &Ch347UsbJtagDevice)
        ensures
            r@ == self@,
    {
        &self.device
    }

    /// The name of the probe: "CH347 USB Jtag".
    pub fn get_name(&self) -> (r: &str)
        ensures
            r@ == "CH347 USB Jtag"@,
    {
        "CH347 USB Jtag"
    }

    /// The JTAG clock speed the probe reports: always 30000 kHz.
    pub fn speed_khz(&self) -> (r: u32)
        ensures
            r == 30000,
    {
        30000
    }

    /// Accepts any clock speed and reports it back; the probe is not changed.
    pub fn set_speed(&mut self, speed_khz: u32) -> (r: Result<u32, DebugProbeError>)
        ensures
            r == Ok::<u32, DebugProbeError>(speed_khz),
            final(self)@ == old(self)@,
    {
        Ok(speed_khz)
    }

    /// Attaches to the target; always succeeds and changes nothing.
    pub fn attach(&mut self) -> (r: Result<(), DebugProbeError>)
        ensures
            r == Ok::<(), DebugProbeError>(()),
            final(self)@ == old(self)@,
    {
        Ok(())
    }

    /// Detaches from the target; always succeeds and changes nothing.
    pub fn detach(&mut self) -> (r: Result<(), DebugProbeError>)
        ensures
            r == Ok::<(), DebugProbeError>(()),
            final(self)@ == old(self)@,
    {
        Ok(())
    }

    /// Resets the target; always succeeds and changes nothing.
    pub fn target_reset(&mut self) -> (r: Result<(), DebugProbeError>)
        ensures
            r == Ok::<(), DebugProbeError>(()),
            final(self)@ == old(self)@,
    {
        Ok(())
    }

    /// Asserts the target's reset line; always succeeds and changes nothing.
    pub fn target_reset_assert(&mut self) -> (r: Result<(), DebugProbeError>)
        ensures
            r == Ok::<(), DebugProbeError>(()),
            final(self)@ == old(self)@,
    {
        Ok(())
    }

    /// Releases the target's reset line; always succeeds and changes nothing.
    pub fn target_reset_deassert(&mut self) -> (r: Result<(), DebugProbeError>)
        ensures
            r == Ok::<(), DebugProbeError>(()),
            final(self)@ == old(self)@,
    {
        Ok(())
    }

    /// Selects a wire protocol; any protocol is accepted and nothing changes.
    pub fn select_protocol(&mut self, protocol: WireProtocol) -> (r: Result<(), DebugProbeError>)
        ensures
            r == Ok::<(), DebugProbeError>(()),
            final(self)@ == old(self)@,
    {
        Ok(())
    }

    /// The active wire protocol: always JTAG.
    pub fn active_protocol(&self) -> (r: Option<WireProtocol>)
        ensures
            r == Some(WireProtocol::Jtag),
    {
        Some(WireProtocol::Jtag)
    }
}

} // verus!
