use crate::error::DebugProbeError;
use crate::probe::DebugProbeInfo;
use crate::protocol::{
    clock_speed_outcome, clock_speed_packet, describes_probe, is_ch34x_id,
    bit_value, ch34x_devices, clock_byte, command_code, initial_device, is_ch34x,
    larger_speed_index, run, speed_index, standard_speed_index, Ch347UsbJtagDeviceView, Clock,
    Command, DeviceOp, UsbDeviceInfo, PACK,
};
use vstd::prelude::*;

verus! {

/// The clock byte carries TMS in bit 1, TDI in bit 4 and TRST in bit 5, and no other bit
/// is set.
pub proof fn lemma_clock_byte_fields(c: Clock)
    ensures
        (clock_byte(c) >> 1u8) & 1u8 == bit_value(c.tms),
        (clock_byte(c) >> 4u8) & 1u8 == bit_value(c.tdi),
        (clock_byte(c) >> 5u8) & 1u8 == bit_value(c.trst),
        clock_byte(c) & 0xCDu8 == 0,
{
    let m = bit_value(c.tms);
    let d = bit_value(c.tdi);
    let r = bit_value(c.trst);
    let b = clock_byte(c);
    assert(b == (m << 1u8) | (d << 4u8) | (r << 5u8));
    assert((b >> 1u8) & 1u8 == m && (b >> 4u8) & 1u8 == d && (b >> 5u8) & 1u8 == r && b & 0xCDu8
        == 0) by (bit_vector)
        requires
            m <= 1,
            d <= 1,
            r <= 1,
            b == (m << 1u8) | (d << 4u8) | (r << 5u8),
    ;
}

/// Two clock cycles that drive the same byte drive the same lines.
pub proof fn lemma_clock_byte_injective(a: Clock, b: Clock)
    requires
        clock_byte(a) == clock_byte(b),
    ensures
        a == b,
{
    lemma_clock_byte_fields(a);
    lemma_clock_byte_fields(b);
}

/// Command bytes lie between 0xD0 and 0xD4, and different commands have different bytes.
pub proof fn lemma_command_code_injective(a: Command, b: Command)
    ensures
        0xD0 <= command_code(a) <= 0xD4,
        command_code(a) == command_code(b) ==> a == b,
{
}

/// The clock-speed tables are ordered: of two offered speeds, the faster one has the
/// larger index; standard packets offer six indices and larger packets eight.
pub proof fn lemma_speed_index_increasing(pack: Option<PACK>, slow: u32, fast: u32)
    requires
        speed_index(pack, slow) is Some,
        speed_index(pack, fast) is Some,
        slow < fast,
    ensures
        speed_index(pack, slow)->0 < speed_index(pack, fast)->0,
        pack == Some(PACK::STANDARD_PACK) ==> speed_index(pack, fast)->0 < 6,
        pack == Some(PACK::LARGER_PACK) ==> speed_index(pack, fast)->0 < 8,
{
}

/// Every speed offered with standard packets is offered with larger packets too, two
/// indices further up.
pub proof fn lemma_larger_pack_offers_standard_speeds(speed_khz: u32)
    requires
        standard_speed_index(speed_khz) is Some,
    ensures
        larger_speed_index(speed_khz) == Some((standard_speed_index(speed_khz)->0 + 2) as u8),
{
}

/// A probe whose packet size is not yet known, as a newly opened one, refuses every
/// clock speed.
pub proof fn lemma_new_device_refuses_every_speed(speed_khz: u32)
    ensures
        speed_index(initial_device().pack, speed_khz) is None,
{
}

/// No call changes the packet size: a probe keeps the one it was opened with.
pub proof fn lemma_run_keeps_pack(d: Ch347UsbJtagDeviceView, ops: Seq<DeviceOp>)
    ensures
        run(d, ops).pack == d.pack,
    decreases ops.len(),
{
    if ops.len() > 0 {
        lemma_run_keeps_pack(d, ops.drop_last());
    }
}

/// A probe that was opened and then used through its calls, in any number and order,
/// refuses every clock speed.
pub proof fn lemma_opened_device_refuses_every_speed(ops: Seq<DeviceOp>, speed_khz: u32)
    ensures
        speed_index(run(initial_device(), ops).pack, speed_khz) is None,
{
    lemma_run_keeps_pack(initial_device(), ops);
}

/// The clock speed in force after a sequence of calls: the one last set, else the one the
/// probe had.
pub open spec fn last_set_speed(speed_khz: u32, ops: Seq<DeviceOp>) -> u32
    decreases ops.len(),
{
    if ops.len() == 0 {
        speed_khz
    } else {
        match ops.last() {
            DeviceOp::SetSpeedKhz(s) => s,
            _ => last_set_speed(speed_khz, ops.drop_last()),
        }
    }
}

/// The clock speed read back after any sequence of calls is the one last set, and
/// 15000 kHz on a newly opened probe where none was set.
pub proof fn lemma_speed_read_after_write(d: Ch347UsbJtagDeviceView, ops: Seq<DeviceOp>)
    ensures
        run(d, ops).speed_khz == last_set_speed(d.speed_khz, ops),
        run(initial_device(), ops).speed_khz == last_set_speed(15000, ops),
{
    lemma_speed_read_after_write_from(d, ops);
    lemma_speed_read_after_write_from(initial_device(), ops);
}

proof fn lemma_speed_read_after_write_from(d: Ch347UsbJtagDeviceView, ops: Seq<DeviceOp>)
    ensures
        run(d, ops).speed_khz == last_set_speed(d.speed_khz, ops),
    decreases ops.len(),
{
    if ops.len() > 0 {
        lemma_speed_read_after_write_from(d, ops.drop_last());
    }
}

/// Every listed device is a CH34x converter, and the list is no longer than the devices.
pub proof fn lemma_listed_devices_are_ch34x(devices: Seq<UsbDeviceInfo>)
    ensures
        ch34x_devices(devices).len() <= devices.len(),
        forall|k: int|
            0 <= k < ch34x_devices(devices).len() ==> is_ch34x(#[trigger] ch34x_devices(devices)[k]),
        forall|k: int|
            0 <= k < ch34x_devices(devices).len() ==> devices.contains(
                #[trigger] ch34x_devices(devices)[k],
            ),
    decreases devices.len(),
{
    if devices.len() > 0 {
        let rest = devices.drop_last();
        lemma_listed_devices_are_ch34x(rest);
        assert forall|k: int| 0 <= k < ch34x_devices(devices).len() implies devices.contains(
            #[trigger] ch34x_devices(devices)[k],
        ) by {
            if k < ch34x_devices(rest).len() {
                let x = ch34x_devices(rest)[k];
                assert(rest.contains(x));
                let j = choose|j: int| 0 <= j < rest.len() && rest[j] == x;
                assert(devices[j] == x);
            } else {
                assert(devices[devices.len() - 1] == devices.last());
            }
        }
    }
}

/// The list is empty exactly when no device is a CH34x converter.
pub proof fn lemma_listing_empty_iff_none_found(devices: Seq<UsbDeviceInfo>)
    ensures
        ch34x_devices(devices).len() == 0 <==> (forall|j: int|
            0 <= j < devices.len() ==> !is_ch34x(#[trigger] devices[j])),
    decreases devices.len(),
{
    if devices.len() > 0 {
        let rest = devices.drop_last();
        lemma_listing_empty_iff_none_found(rest);
        if ch34x_devices(devices).len() == 0 {
            assert forall|j: int| 0 <= j < devices.len() implies !is_ch34x(#[trigger] devices[j]) by {
                if j < rest.len() {
                    assert(rest[j] == devices[j]);
                }
            }
        } else if !is_ch34x(devices.last()) {
            let j = choose|j: int| 0 <= j < rest.len() && is_ch34x(#[trigger] rest[j]);
            assert(devices[j] == rest[j]);
        }
    }
}

/// The device that is opened, the first CH34x converter, is the first one listed.
pub proof fn lemma_first_found_is_first_listed(devices: Seq<UsbDeviceInfo>, i: int)
    requires
        0 <= i < devices.len(),
        is_ch34x(devices[i]),
        forall|j: int| 0 <= j < i ==> !is_ch34x(#[trigger] devices[j]),
    ensures
        ch34x_devices(devices).len() > 0,
        ch34x_devices(devices)[0] == devices[i],
    decreases devices.len(),
{
    let rest = devices.drop_last();
    if i < devices.len() - 1 {
        assert(rest[i] == devices[i]);
        assert forall|j: int| 0 <= j < i implies !is_ch34x(#[trigger] rest[j]) by {
            assert(rest[j] == devices[j]);
        }
        lemma_first_found_is_first_listed(rest, i);
    } else {
        lemma_listing_empty_iff_none_found(rest);
        assert forall|j: int| 0 <= j < rest.len() implies !is_ch34x(#[trigger] rest[j]) by {
            assert(rest[j] == devices[j]);
        }
    }
}


/// The USB identifiers of the CH34x converters, as the driver's table lists them.
pub open spec fn ch34x_id_table() -> Seq<(u16, u16)> {
    seq![(0x1A86u16, 0x55DEu16), (0x1A86u16, 0x55DDu16), (0x1A86u16, 0x55E8u16)]
}

/// A device is recognised as a CH34x converter exactly when its vendor and product
/// identifiers stand in the table 1A86:55DE, 1A86:55DD, 1A86:55E8; in particular no other
/// product of vendor 0x1A86 is recognised.
pub proof fn lemma_ch34x_ids_are_the_table(vendor_id: u16, product_id: u16)
    ensures
        is_ch34x_id(vendor_id, product_id) <==> ch34x_id_table().contains((vendor_id, product_id)),
        is_ch34x_id(vendor_id, product_id) <==> (vendor_id == 0x1A86u16 && (product_id == 0x55DEu16
            || product_id == 0x55DDu16 || product_id == 0x55E8u16)),
        vendor_id != 0x1A86u16 ==> !is_ch34x_id(vendor_id, product_id),
{
    let t = ch34x_id_table();
    if is_ch34x_id(vendor_id, product_id) {
        if product_id == 0x55DEu16 {
            assert(t[0] == (vendor_id, product_id));
        } else if product_id == 0x55DDu16 {
            assert(t[1] == (vendor_id, product_id));
        } else {
            assert(t[2] == (vendor_id, product_id));
        }
    }
}

/// The listing is the order-preserving filter of the devices by their identifiers: every
/// device whose identifiers are 1A86:55DE, 1A86:55DD or 1A86:55E8 is listed, in the order
/// of the devices, and no other; the number of entries is the number of such devices.
pub proof fn lemma_listing_is_filter(devices: Seq<UsbDeviceInfo>)
    ensures
        ch34x_devices(devices) == devices.filter(
            |d: UsbDeviceInfo|
                d.vendor_id == 0x1A86u16 && (d.product_id == 0x55DEu16 || d.product_id
                    == 0x55DDu16 || d.product_id == 0x55E8u16),
        ),
        forall|j: int|
            0 <= j < devices.len() && #[trigger] devices[j].vendor_id == 0x1A86u16 && (
            devices[j].product_id == 0x55DEu16 || devices[j].product_id == 0x55DDu16
                || devices[j].product_id == 0x55E8u16) ==> ch34x_devices(devices).contains(
                devices[j],
            ),
    decreases devices.len(),
{
    let pred = |d: UsbDeviceInfo|
        d.vendor_id == 0x1A86u16 && (d.product_id == 0x55DEu16 || d.product_id == 0x55DDu16
            || d.product_id == 0x55E8u16);
    reveal(Seq::filter);
    if devices.len() > 0 {
        lemma_listing_is_filter(devices.drop_last());
        assert(devices.filter(pred) == {
            let sub = devices.drop_last().filter(pred);
            if pred(devices.last()) {
                sub.push(devices.last())
            } else {
                sub
            }
        });
        assert(ch34x_devices(devices) =~= devices.filter(pred));
    } else {
        assert(ch34x_devices(devices) =~= devices.filter(pred));
    }
    assert forall|j: int|
        0 <= j < devices.len() && #[trigger] devices[j].vendor_id == 0x1A86u16 && (
        devices[j].product_id == 0x55DEu16 || devices[j].product_id == 0x55DDu16
            || devices[j].product_id == 0x55E8u16) implies ch34x_devices(devices).contains(
        devices[j],
    ) by {
        devices.lemma_filter_contains(pred, j);
    }
}

/// A listing entry that describes a device is named "CH347 USB Jtag" and carries that
/// device's vendor identifier, product identifier and serial number, whatever they are,
/// and no interface.
pub proof fn lemma_entry_carries_device_fields(info: DebugProbeInfo, device: UsbDeviceInfo)
    requires
        describes_probe(info, device),
    ensures
        info.identifier@ == "CH347 USB Jtag"@,
        info.vendor_id == device.vendor_id,
        info.product_id == device.product_id,
        info.serial_number == device.serial_number,
        info.interface == None::<u8>,
{
}

/// The probe's reply to a clock-speed packet is accepted exactly when its fourth byte is
/// zero; an accepted reply gives back the requested speed, any other reply refuses it.
pub proof fn lemma_clock_speed_reply_status(speed_khz: u32, reply: Seq<u8>)
    requires
        reply.len() == 4,
    ensures
        clock_speed_outcome(speed_khz, reply) is Ok <==> reply[3] == 0u8,
        reply[3] == 0u8 ==> clock_speed_outcome(speed_khz, reply) == Ok::<u32, DebugProbeError>(
            speed_khz,
        ),
        reply[3] != 0u8 ==> clock_speed_outcome(speed_khz, reply) == Err::<u32, DebugProbeError>(
            DebugProbeError::UnsupportedSpeed(speed_khz),
        ),
{
}

/// The clock speeds (kHz) offered with standard packets, by index.
pub open spec fn standard_speed_table() -> Seq<u32> {
    seq![1875u32, 3750u32, 7500u32, 15000u32, 30000u32, 60000u32]
}

/// The clock speeds (kHz) offered with larger packets, by index.
pub open spec fn larger_speed_table() -> Seq<u32> {
    seq![468u32, 937u32, 1875u32, 3750u32, 7500u32, 15000u32, 30000u32, 60000u32]
}

/// The clock-speed tables, speed by speed: standard packets offer 1875, 3750, 7500,
/// 15000, 30000 and 60000 kHz at indices 0 to 5; larger packets offer 468 and 937 kHz at
/// indices 0 and 1 and the standard speeds at indices 2 to 7; no other speed is offered,
/// and no speed is offered where the packet size is unknown.
pub proof fn lemma_speed_tables(speed_khz: u32)
    ensures
        standard_speed_index(speed_khz) is Some <==> standard_speed_table().contains(speed_khz),
        larger_speed_index(speed_khz) is Some <==> larger_speed_table().contains(speed_khz),
        forall|i: int|
            0 <= i < 6 && #[trigger] standard_speed_table()[i] == speed_khz ==> standard_speed_index(speed_khz) == Some(i as u8),
        forall|i: int|
            0 <= i < 8 && #[trigger] larger_speed_table()[i] == speed_khz ==> larger_speed_index(speed_khz) == Some(
                i as u8,
            ),
        speed_index(None, speed_khz) is None,
        speed_index(Some(PACK::STANDARD_PACK), speed_khz) == standard_speed_index(speed_khz),
        speed_index(Some(PACK::LARGER_PACK), speed_khz) == larger_speed_index(speed_khz),
{
    let st = standard_speed_table();
    let lg = larger_speed_table();
    if standard_speed_index(speed_khz) is Some {
        let i = standard_speed_index(speed_khz)->0 as int;
        assert(st[i] == speed_khz);
    }
    if larger_speed_index(speed_khz) is Some {
        let i = larger_speed_index(speed_khz)->0 as int;
        assert(lg[i] == speed_khz);
    }
}

/// The clock-speed packet: bytes D0 06 00 00, then the speed index, then four zero bytes.
pub proof fn lemma_clock_speed_packet_bytes(index: u8)
    ensures
        clock_speed_packet(index).len() == 9,
        clock_speed_packet(index)[0] == 0xD0u8,
        clock_speed_packet(index)[1] == 0x06u8,
        clock_speed_packet(index)[2] == 0u8,
        clock_speed_packet(index)[3] == 0u8,
        clock_speed_packet(index)[4] == index,
        forall|k: int| 5 <= k < 9 ==> #[trigger] clock_speed_packet(index)[k] == 0u8,
{
}

/// A newly opened probe: named "ch347", nothing queued, buffered or captured, endpoints
/// 0x06 (OUT) and 0x86 (IN), packet size unknown, clock at 15000 kHz.
pub proof fn lemma_initial_device_fields()
    ensures
        initial_device().name == "ch347"@,
        initial_device().command_queue == None::<Command>,
        initial_device().output_buffer.len() == 0,
        initial_device().response.len() == 0,
        initial_device().epout == 0x06u8,
        initial_device().epin == 0x86u8,
        initial_device().pack == None::<PACK>,
        initial_device().speed_khz == 15000u32,
{
}

} // verus!
