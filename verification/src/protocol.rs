use crate::bits::{captured_bits, CapturedBits};
use crate::error::{DebugProbeError, ProbeCreationError};
use crate::probe::{Ch347UsbJtagFactory, DebugProbeInfo};
use vstd::prelude::*;

verus! {

// ---------------------------------------------------------------------------------------------
// Device identification
// ---------------------------------------------------------------------------------------------

/// What the library reads of an attached USB device.
pub struct UsbDeviceInfo {
    /// The USB vendor identifier.
    pub vendor_id: u16,
    /// The USB product identifier.
    pub product_id: u16,
    /// The serial number string, where the device has one.
    pub serial_number: Option<String>,
}

/// A vendor and product identifier pair names a CH34x converter: vendor 0x1A86 with
/// product 0x55DE, 0x55DD or 0x55E8.
pub open spec fn is_ch34x_id(vendor_id: u16, product_id: u16) -> bool {
    ||| (vendor_id == 0x1A86 && product_id == 0x55DE)
    ||| (vendor_id == 0x1A86 && product_id == 0x55DD)
    ||| (vendor_id == 0x1A86 && product_id == 0x55E8)
}

/// A device is a CH34x converter.
pub open spec fn is_ch34x(device: UsbDeviceInfo) -> bool {
    is_ch34x_id(device.vendor_id, device.product_id)
}

/// Tells whether the device is a CH34x converter, by its vendor and product identifiers.
pub fn is_ch34x_device(device: &UsbDeviceInfo) -> (r: bool)
    ensures
        r == is_ch34x(*device),
        r == (device.vendor_id == 0x1A86u16 && (device.product_id == 0x55DEu16
            || device.product_id == 0x55DDu16 || device.product_id == 0x55E8u16)),
{
    let ids: [(u16, u16); 3] = [(0x1A86, 0x55DE), (0x1A86, 0x55DD), (0x1A86, 0x55E8)];
    let mut i: usize = 0;
    while i < 3
        invariant
            0 <= i <= 3,
            ids@ == seq![(0x1A86u16, 0x55DEu16), (0x1A86u16, 0x55DDu16), (0x1A86u16, 0x55E8u16)],
            forall|j: int| 0 <= j < i ==> ids@[j] != (device.vendor_id, device.product_id),
        decreases 3 - i,
    {
        if ids[i].0 == device.vendor_id && ids[i].1 == device.product_id {
            return true;
        }
        i = i + 1;
    }
    false
}

/// The CH34x converters among the devices, in the order in which they are listed.
pub open spec fn ch34x_devices(devices: Seq<UsbDeviceInfo>) -> Seq<UsbDeviceInfo>
    decreases devices.len(),
{
    if devices.len() == 0 {
        Seq::empty()
    } else {
        let rest = ch34x_devices(devices.drop_last());
        if is_ch34x(devices.last()) {
            rest.push(devices.last())
        } else {
            rest
        }
    }
}

/// The name under which a CH347 probe is listed.
pub open spec fn ch347_probe_identifier() -> Seq<char> {
    "CH347 USB Jtag"@
}

/// The listing entry describes the device as a CH347 probe.
pub open spec fn describes_probe(info: DebugProbeInfo, device: UsbDeviceInfo) -> bool {
    &&& info.identifier@ == ch347_probe_identifier()
    &&& info.vendor_id == device.vendor_id
    &&& info.product_id == device.product_id
    &&& info.serial_number == device.serial_number
    &&& info.interface is None
}

/// Picks the device to open: the first CH34x converter in the list.
pub fn first_ch34x_device(devices: &Vec<UsbDeviceInfo>) -> (r: Result<usize, ProbeCreationError>)
    ensures
        r is Err <==> (forall|j: int| 0 <= j < devices@.len() ==> !is_ch34x(#[trigger] devices@[j])),
        r matches Err(e) ==> e == ProbeCreationError::NotFound,
        r matches Ok(i) ==> {
            &&& i < devices@.len()
            &&& is_ch34x(devices@[i as int])
            &&& forall|j: int| 0 <= j < i ==> !is_ch34x(#[trigger] devices@[j])
        },
{
    let mut i: usize = 0;
    while i < devices.len()
        invariant
            0 <= i <= devices@.len(),
            forall|j: int| 0 <= j < i ==> !is_ch34x(#[trigger] devices@[j]),
        decreases devices@.len() - i,
    {
        if is_ch34x_device(&devices[i]) {
            return Ok(i);
        }
        i = i + 1;
    }
    Err(ProbeCreationError::NotFound)
}

fn probe_info(device: &UsbDeviceInfo) -> (info: DebugProbeInfo)
    ensures
        describes_probe(info, *device),
{
    let identifier = "CH347 USB Jtag".to_string();
    let serial_number = match &device.serial_number {
        Some(s) => Some(s.clone()),
        None => None,
    };
    DebugProbeInfo {
        identifier,
        vendor_id: device.vendor_id,
        product_id: device.product_id,
        serial_number,
        probe_factory: Ch347UsbJtagFactory,
        interface: None,
    }
}

/// Lists the CH347 probes among the attached devices: one entry per CH34x converter, in
/// the order of the devices, named "CH347 USB Jtag" and carrying the device's vendor and
/// product identifiers and serial number.
pub fn list_ch347usbjtag_devices(devices: &Vec<UsbDeviceInfo>) -> (r: Vec<DebugProbeInfo>)
    ensures
        r@.len() == ch34x_devices(devices@).len(),
        forall|k: int|
            0 <= k < r@.len() ==> describes_probe(#[trigger] r@[k], ch34x_devices(devices@)[k]),
        r@.len() == devices@.filter(
            |d: UsbDeviceInfo|
                d.vendor_id == 0x1A86u16 && (d.product_id == 0x55DEu16 || d.product_id
                    == 0x55DDu16 || d.product_id == 0x55E8u16),
        ).len(),
{
    let mut r: Vec<DebugProbeInfo> = Vec::new();
    let mut i: usize = 0;
    while i < devices.len()
        invariant
            0 <= i <= devices@.len(),
            r@.len() == ch34x_devices(devices@.take(i as int)).len(),
            forall|k: int|
                0 <= k < r@.len() ==> describes_probe(
                    #[trigger] r@[k],
                    ch34x_devices(devices@.take(i as int))[k],
                ),
        decreases devices@.len() - i,
    {
        proof {
            assert(devices@.take(i + 1).drop_last() =~= devices@.take(i as int));
        }
        if is_ch34x_device(&devices[i]) {
            let info = probe_info(&devices[i]);
            r.push(info);
        }
        i = i + 1;
    }
    proof {
        assert(devices@.take(devices@.len() as int) =~= devices@);
        crate::laws::lemma_listing_is_filter(devices@);
    }
    r
}


// ---------------------------------------------------------------------------------------------
// Encodings
// ---------------------------------------------------------------------------------------------

/// The packet size that the probe reports.
#[allow(non_camel_case_types)]
#[derive(Debug, Clone, Copy, PartialEq, Eq, Structural)]
pub enum PACK {
    STANDARD_PACK,
    LARGER_PACK,
}

/// The commands of the probe's JTAG protocol.
#[allow(non_camel_case_types)]
#[derive(Debug, Clone, Copy, PartialEq, Eq, Structural)]
pub enum Command {
    JTAG_INIT,
    JTAG_BIT_OP,
    JTAG_BIT_OP_RD,
    JTAG_DATA_SHIFT,
    JTAG_DATA_SHIFT_RD,
}

/// The byte that opens a command: 0xD0 to 0xD4, in the order of the commands.
pub open spec fn command_code(c: Command) -> u8 {
    match c {
        Command::JTAG_INIT => 0xD0,
        Command::JTAG_BIT_OP => 0xD1,
        Command::JTAG_BIT_OP_RD => 0xD2,
        Command::JTAG_DATA_SHIFT => 0xD3,
        Command::JTAG_DATA_SHIFT_RD => 0xD4,
    }
}

impl From<Command> for u8 {
    fn from(value: Command) -> (r: u8) {
        match value {
            Command::JTAG_INIT => 0xD0,
            Command::JTAG_BIT_OP => 0xD1,
            Command::JTAG_BIT_OP_RD => 0xD2,
            Command::JTAG_DATA_SHIFT => 0xD3,
            Command::JTAG_DATA_SHIFT_RD => 0xD4,
        }
    }
}

impl vstd::std_specs::convert::FromSpecImpl<Command> for u8 {
    open spec fn obeys_from_spec() -> bool {
        true
    }

    open spec fn from_spec(v: Command) -> u8 {
        command_code(v)
    }
}

/// The levels of the JTAG lines for one clock cycle.
pub struct Clock {
    pub tms: bool,
    pub tdi: bool,
    pub trst: bool,
}

/// The value of one bit: 1 for `true`, 0 for `false`.
pub open spec fn bit_value(b: bool) -> u8 {
    if b {
        1
    } else {
        0
    }
}

/// The byte that drives a clock cycle: TMS on bit 1, TDI on bit 4, TRST on bit 5.
pub open spec fn clock_byte(c: Clock) -> u8 {
    (bit_value(c.tms) << 1u8) | (bit_value(c.tdi) << 4u8) | (bit_value(c.trst) << 5u8)
}

fn bit(b: bool) -> (r: u8)
    ensures
        r == bit_value(b),
{
    if b {
        1
    } else {
        0
    }
}

impl From<Clock> for u8 {
    fn from(value: Clock) -> (r: u8) {
        let Clock { tms, tdi, trst } = value;
        let (m, d, r) = (bit(tms), bit(tdi), bit(trst));
        assert((0u8 | m << 1u8 | d << 4u8 | r << 5u8) == ((m << 1u8) | (d << 4u8) | (r << 5u8)))
            by (bit_vector);
        0 | m << 1u8 | d << 4u8 | r << 5u8
    }
}

impl vstd::std_specs::convert::FromSpecImpl<Clock> for u8 {
    open spec fn obeys_from_spec() -> bool {
        true
    }

    open spec fn from_spec(v: Clock) -> u8 {
        clock_byte(v)
    }
}

// ---------------------------------------------------------------------------------------------
// Clock speed
// ---------------------------------------------------------------------------------------------

/// The index of a JTAG clock speed (in kHz) on a probe with standard packets.
pub open spec fn standard_speed_index(speed_khz: u32) -> Option<u8> {
    if speed_khz == 1875 {
        Some(0)
    } else if speed_khz == 3750 {
        Some(1)
    } else if speed_khz == 7500 {
        Some(2)
    } else if speed_khz == 15000 {
        Some(3)
    } else if speed_khz == 30000 {
        Some(4)
    } else if speed_khz == 60000 {
        Some(5)
    } else {
        None
    }
}

/// The index of a JTAG clock speed (in kHz) on a probe with larger packets.
pub open spec fn larger_speed_index(speed_khz: u32) -> Option<u8> {
    if speed_khz == 468 {
        Some(0)
    } else if speed_khz == 937 {
        Some(1)
    } else if speed_khz == 1875 {
        Some(2)
    } else if speed_khz == 3750 {
        Some(3)
    } else if speed_khz == 7500 {
        Some(4)
    } else if speed_khz == 15000 {
        Some(5)
    } else if speed_khz == 30000 {
        Some(6)
    } else if speed_khz == 60000 {
        Some(7)
    } else {
        None
    }
}

/// The index of a JTAG clock speed for the packet size; none where the packet size is
/// unknown or the speed is not offered.
pub open spec fn speed_index(pack: Option<PACK>, speed_khz: u32) -> Option<u8> {
    match pack {
        Some(PACK::STANDARD_PACK) => standard_speed_index(speed_khz),
        Some(PACK::LARGER_PACK) => larger_speed_index(speed_khz),
        None => None,
    }
}

/// The packet that sets the clock speed of the given index.
pub open spec fn clock_speed_packet(index: u8) -> Seq<u8> {
    seq![0xD0u8, 0x06u8, 0x00u8, 0x00u8, index, 0x00u8, 0x00u8, 0x00u8, 0x00u8]
}

/// What the probe's reply to a clock-speed packet means: the speed was taken where the
/// fourth byte is zero.
pub open spec fn clock_speed_outcome(speed_khz: u32, reply: Seq<u8>) -> Result<u32, DebugProbeError> {
    if reply[3] == 0 {
        Ok(speed_khz)
    } else {
        Err(DebugProbeError::UnsupportedSpeed(speed_khz))
    }
}

/// Looks up the index of a JTAG clock speed for the packet size.
pub fn clock_speed_index(pack: &Option<PACK>, speed_khz: u32) -> (r: Result<u8, DebugProbeError>)
    ensures
        r is Ok <==> speed_index(*pack, speed_khz) is Some,
        r matches Ok(i) ==> speed_index(*pack, speed_khz) == Some(i),
        r matches Err(e) ==> e == DebugProbeError::UnsupportedSpeed(speed_khz),
{
    match *pack {
        Some(PACK::STANDARD_PACK) => {
            match speed_khz {
                1875 => Ok(0),
                3750 => Ok(1),
                7500 => Ok(2),
                15000 => Ok(3),
                30000 => Ok(4),
                60000 => Ok(5),
                _ => Err(DebugProbeError::UnsupportedSpeed(speed_khz)),
            }
        },
        Some(PACK::LARGER_PACK) => {
            match speed_khz {
                468 => Ok(0),
                937 => Ok(1),
                1875 => Ok(2),
                3750 => Ok(3),
                7500 => Ok(4),
                15000 => Ok(5),
                30000 => Ok(6),
                60000 => Ok(7),
                _ => Err(DebugProbeError::UnsupportedSpeed(speed_khz)),
            }
        },
        None => Err(DebugProbeError::UnsupportedSpeed(speed_khz)),
    }
}

/// Reads the probe's reply to a clock-speed packet: the requested speed where the fourth
/// byte of the reply is zero, else the speed is unsupported.
pub fn clock_speed_reply(speed_khz: u32, reply: &[u8; 4]) -> (r: Result<u32, DebugProbeError>)
    ensures
        r == clock_speed_outcome(speed_khz, reply@),
        r is Ok <==> reply@[3] == 0u8,
        r matches Ok(s) ==> s == speed_khz,
        r matches Err(e) ==> e == DebugProbeError::UnsupportedSpeed(speed_khz),
{
    if reply[3] == 0x00 {
        Ok(speed_khz)
    } else {
        Err(DebugProbeError::UnsupportedSpeed(speed_khz))
    }
}

// ---------------------------------------------------------------------------------------------
// Device state
// ---------------------------------------------------------------------------------------------

/// The state of an opened CH347 probe.
pub struct Ch347UsbJtagDevice {
    name: String,
    comand_quene: Option<Command>,
    output_buffer: Vec<u8>,
    response: CapturedBits,
    epout: u8,
    epin: u8,
    pack: Option<PACK>,
    speed_khz: u32,
}

/// The abstract state of an opened CH347 probe.
pub struct Ch347UsbJtagDeviceView {
    /// The name of the probe.
    pub name: Seq<char>,
    /// The command being assembled, if any.
    pub command_queue: Option<Command>,
    /// The bytes waiting to be sent.
    pub output_buffer: Seq<u8>,
    /// The bits captured from the target.
    pub response: Seq<bool>,
    /// The bulk OUT endpoint.
    pub epout: u8,
    /// The bulk IN endpoint.
    pub epin: u8,
    /// The packet size, once known.
    pub pack: Option<PACK>,
    /// The JTAG clock speed in kHz.
    pub speed_khz: u32,
}

impl View for Ch347UsbJtagDevice {
    type V = Ch347UsbJtagDeviceView;

    closed spec fn view(&self) -> Ch347UsbJtagDeviceView {
        Ch347UsbJtagDeviceView {
            name: self.name@,
            command_queue: self.comand_quene,
            output_buffer: self.output_buffer@,
            response: captured_bits(self.response),
            epout: self.epout,
            epin: self.epin,
            pack: self.pack,
            speed_khz: self.speed_khz,
        }
    }
}

/// The state of a probe right after its interface was claimed: named "ch347", nothing
/// queued, buffered or captured, endpoints 0x06 (OUT) and 0x86 (IN), packet size not yet
/// known, clock at 15000 kHz.
pub open spec fn initial_device() -> Ch347UsbJtagDeviceView {
    Ch347UsbJtagDeviceView {
        name: "ch347"@,
        command_queue: None,
        output_buffer: Seq::empty(),
        response: Seq::empty(),
        epout: 0x06,
        epin: 0x86,
        pack: None,
        speed_khz: 15000,
    }
}

/// The USB interface that carries the JTAG function; it is interface 4 on the CH347F,
/// and other CH347 models may place it elsewhere.
pub fn jtag_interface() -> (r: u8)
    ensures
        r == 4,
{
    4
}

/// A call that may change an opened probe's state.
pub enum DeviceOp {
    Attach,
    SetSpeedKhz(u32),
    ReadResponse,
    Flush,
    AppendCommand(Command),
    FinalizeCommand,
    ShiftBit(bool, bool, bool),
    SendBuffer,
}

/// The probe's state after a call: setting the clock speed stores the speed, every other
/// call leaves the state as it is.
pub open spec fn step(d: Ch347UsbJtagDeviceView, op: DeviceOp) -> Ch347UsbJtagDeviceView {
    match op {
        DeviceOp::SetSpeedKhz(speed_khz) => Ch347UsbJtagDeviceView { speed_khz, ..d },
        _ => d,
    }
}

/// The probe's state after a sequence of calls, in order.
pub open spec fn run(d: Ch347UsbJtagDeviceView, ops: Seq<DeviceOp>) -> Ch347UsbJtagDeviceView
    decreases ops.len(),
{
    if ops.len() == 0 {
        d
    } else {
        step(run(d, ops.drop_last()), ops.last())
    }
}

impl Ch347UsbJtagDevice {
    /// The state of a probe whose interface was just claimed.
    pub fn new() -> (d: Ch347UsbJtagDevice)
        ensures
            d@ == initial_device(),
    {
        Ch347UsbJtagDevice {
            name: "ch347".to_string(),
            comand_quene: None,
            output_buffer: Vec::new(),
            response: CapturedBits::new(),
            epout: 0x06,
            epin: 0x86,
            pack: None,
            speed_khz: 15000,
        }
    }

    /// The name of the probe.
    pub fn name(&self) -> (r: &str)
        ensures
            r@ == self@.name,
    {
        self.name.as_str()
    }

    /// The bulk OUT endpoint.
    pub fn epout(&self) -> (r: u8)
        ensures
            r == self@.epout,
    {
        self.epout
    }

    /// The bulk IN endpoint.
    pub fn epin(&self) -> (r: u8)
        ensures
            r == self@.epin,
    {
        self.epin
    }

    /// Attaches to the probe; there is nothing to do.
    pub fn attach(&mut self) -> (r: Result<(), DebugProbeError>)
        ensures
            r == Ok::<(), DebugProbeError>(()),
            final(self)@ == old(self)@,
            final(self)@ == step(old(self)@, DeviceOp::Attach),
    {
        Ok(())
    }

    /// The JTAG clock speed in kHz.
    pub fn speed_khz(&self) -> (r: u32)
        ensures
            r == self@.speed_khz,
    {
        self.speed_khz
    }

    /// Sets the JTAG clock speed and returns it; nothing else changes.
    pub fn set_speed_khz(&mut self, speed_khz: u32) -> (r: u32)
        ensures
            r == speed_khz,
            final(self)@ == (Ch347UsbJtagDeviceView { speed_khz, ..old(self)@ }),
            final(self)@ == step(old(self)@, DeviceOp::SetSpeedKhz(speed_khz)),
    {
        self.speed_khz = speed_khz;
        self.speed_khz
    }

    /// The packet size, once known.
    pub fn pack(&self) -> (r: &Option<PACK>)
        ensures
            *r == self@.pack,
    {
        &self.pack
    }

    /// First step of applying a clock speed: the packet to send to the probe's OUT
    /// endpoint, or the refusal where the packet size is unknown or does not offer the
    /// speed. The device is left as it is.
    pub fn clock_speed_request(&self, speed_khz: u32) -> (r: Result<Vec<u8>, DebugProbeError>)
        ensures
            r is Ok <==> speed_index(self@.pack, speed_khz) is Some,
            r matches Ok(p) ==> p@ == clock_speed_packet(speed_index(self@.pack, speed_khz)->0),
            r matches Err(e) ==> e == DebugProbeError::UnsupportedSpeed(speed_khz),
    {
        let index = match clock_speed_index(self.pack(), speed_khz) {
            Ok(i) => i,
            Err(e) => return Err(e),
        };
        let packet = vec![0xD0u8, 0x06, 0x00, 0x00, index, 0x00, 0x00, 0x00, 0x00];
        assert(packet@ =~= clock_speed_packet(index));
        Ok(packet)
    }

    /// Reads the probe's reply; there is nothing to read.
    pub fn read_response(&mut self) -> (r: Result<(), DebugProbeError>)
        ensures
            r == Ok::<(), DebugProbeError>(()),
            final(self)@ == old(self)@,
            final(self)@ == step(old(self)@, DeviceOp::ReadResponse),
    {
        Ok(())
    }

    /// Sends what is buffered; there is nothing to send.
    pub fn flush(&mut self) -> (r: Result<(), DebugProbeError>)
        ensures
            r == Ok::<(), DebugProbeError>(()),
            final(self)@ == old(self)@,
            final(self)@ == step(old(self)@, DeviceOp::Flush),
    {
        Ok(())
    }

    /// Appends a command; the command is not kept.
    pub fn append_command(&mut self, command: Command) -> (r: Result<(), DebugProbeError>)
        ensures
            r == Ok::<(), DebugProbeError>(()),
            final(self)@ == old(self)@,
            final(self)@ == step(old(self)@, DeviceOp::AppendCommand(command)),
    {
        Ok(())
    }

    /// Completes the command being assembled; there is none to complete.
    pub fn finalize_command(&mut self) -> (r: Result<(), DebugProbeError>)
        ensures
            r == Ok::<(), DebugProbeError>(()),
            final(self)@ == old(self)@,
            final(self)@ == step(old(self)@, DeviceOp::FinalizeCommand),
    {
        Ok(())
    }

    /// Shifts one bit; the bit is not kept.
    pub fn shift_bit(&mut self, tms: bool, tdi: bool, capture: bool) -> (r: Result<
        (),
        DebugProbeError,
    >)
        ensures
            r == Ok::<(), DebugProbeError>(()),
            final(self)@ == old(self)@,
            final(self)@ == step(old(self)@, DeviceOp::ShiftBit(tms, tdi, capture)),
    {
        Ok(())
    }

    /// Sends the output buffer; there is nothing to send.
    pub fn send_buffer(&mut self) -> (r: Result<(), DebugProbeError>)
        ensures
            r == Ok::<(), DebugProbeError>(()),
            final(self)@ == old(self)@,
            final(self)@ == step(old(self)@, DeviceOp::SendBuffer),
    {
        Ok(())
    }
}

} // verus!
