//! The aggregated device status and the text lines in which the hardware
//! harness reports it.

use vstd::prelude::*;

use crate::probe::{clean, trim_nul_end};
use crate::protocol::{DeviceCapability, DeviceInfo, DeviceModel, FirmwareVersion};
use crate::text::{append_decimal, decimal, digit_char};

verus! {

/// Aggregated device snapshot combining the BLE device-information fields and
/// the firmware and battery reads.
///
/// On models with holder features the holder product number and firmware are
/// `Some`; on one-piece models they are `None`.
#[derive(Debug, Clone)]
pub struct DeviceStatus {
    /// Detected device model.
    pub model: DeviceModel,
    /// Standard BLE device-information fields read at connection time.
    pub device_info: DeviceInfo,
    /// Product number reported by the stick, or by the device itself on one-piece models.
    pub product_number: String,
    /// Firmware version reported by the stick, or by the device itself on one-piece models.
    pub stick_firmware: FirmwareVersion,
    /// Product number reported by the holder, on holder-based models.
    pub holder_product_number: Option<String>,
    /// Firmware version reported by the holder, on holder-based models.
    pub holder_firmware: Option<FirmwareVersion>,
    /// Battery cell voltage in millivolts, or `None` if the battery read failed.
    pub battery_millivolts: Option<u16>,
}

/// The text of an optional field, `(missing)` when it is absent.
pub open spec fn or_missing(value: Option<String>) -> Seq<char> {
    match value {
        Some(s) => s@,
        None => "(missing)"@,
    }
}

/// Three decimal digits of `n` (`n < 1000`), with leading zeros.
pub open spec fn three_digits(n: nat) -> Seq<char> {
    seq![digit_char(n / 100), digit_char((n / 10) % 10), digit_char(n % 10)]
}

/// A voltage given in millivolts, written in volts with three decimals.
pub open spec fn volts_text(millivolts: nat) -> Seq<char> {
    decimal(millivolts / 1000) + "."@ + three_digits(millivolts % 1000)
}

/// The battery line of a snapshot.
pub open spec fn battery_line(millivolts: Option<u16>) -> Seq<char> {
    match millivolts {
        Some(mv) => "  Battery V:      "@ + volts_text(mv as nat) + " V"@,
        None => "  Battery V:      read failed"@,
    }
}

/// The lines that describe `status`: model and device information, then
/// the stick and holder product numbers and firmware on models with holder
/// features (the product number and firmware alone otherwise), then the
/// battery voltage. Device-information strings lose their trailing NUL
/// padding; absent fields read `(missing)`.
pub open spec fn snapshot_lines(status: DeviceStatus) -> Seq<Seq<char>> {
    let info = status.device_info;
    let head = seq![
        "  Model:          "@ + status.model.spec_name(),
        "  Model Number:   "@ + trim_nul_end(or_missing(info.model_number)),
        "  Serial Number:  "@ + trim_nul_end(or_missing(info.serial_number)),
        "  Manufacturer:   "@ + trim_nul_end(or_missing(info.manufacturer_name)),
        "  Software Rev:   "@ + trim_nul_end(or_missing(info.software_revision)),
    ];
    let firmware = if status.model.spec_holder_features() {
        seq![
            "  Stick Product:  "@ + status.product_number@,
            "  Stick Firmware: "@ + status.stick_firmware.spec_text(),
            "  Holder Product: "@ + or_missing(status.holder_product_number),
            "  Holder FW:      "@ + match status.holder_firmware {
                Some(fw) => fw.spec_text(),
                None => "(missing)"@,
            },
        ]
    } else {
        seq![
            "  Product Number: "@ + status.product_number@,
            "  Firmware:       "@ + status.stick_firmware.spec_text(),
        ]
    };
    head + firmware + seq![battery_line(status.battery_millivolts)]
}

/// The text of each line.
pub open spec fn line_texts(lines: Seq<String>) -> Seq<Seq<char>> {
    lines.map_values(|l: String| l@)
}

fn digit_text(d: u16) -> (r: &'static str)
    requires
        d < 10,
    ensures
        r@ == seq![digit_char(d as nat)],
{
    proof {
        reveal_strlit("0");
        reveal_strlit("1");
        reveal_strlit("2");
        reveal_strlit("3");
        reveal_strlit("4");
        reveal_strlit("5");
        reveal_strlit("6");
        reveal_strlit("7");
        reveal_strlit("8");
        reveal_strlit("9");
    }
    match d {
        0 => "0",
        1 => "1",
        2 => "2",
        3 => "3",
        4 => "4",
        5 => "5",
        6 => "6",
        7 => "7",
        8 => "8",
        _ => "9",
    }
}

/// Render a voltage given in millivolts in volts with three decimals, such
/// as `4.123` for 4123 mV.
pub fn volts(millivolts: u16) -> (r: String)
    ensures
        r@ == volts_text(millivolts as nat),
{
    let whole = millivolts / 1000;
    let frac = millivolts % 1000;
    let s = append_decimal(String::new(), whole as u64);
    let s = s.concat(".");
    let s = s.concat(digit_text(frac / 100));
    let s = s.concat(digit_text((frac / 10) % 10));
    let s = s.concat(digit_text(frac % 10));
    proof {
        reveal_strlit(".");
    }
    assert(s@ =~= volts_text(millivolts as nat));
    s
}

fn labelled(label: &str, value: &str) -> (r: String)
    ensures
        r@ == label@ + value@,
{
    String::from_str(label).concat(value)
}

fn info_line(label: &str, value: &Option<String>) -> (r: String)
    ensures
        r@ == label@ + trim_nul_end(or_missing(*value)),
{
    proof {
        reveal_strlit("(missing)");
    }
    match value {
        Some(s) => labelled(label, clean(s.as_str())),
        None => labelled(label, clean("(missing)")),
    }
}

/// The lines that describe `status`, in the order of [`snapshot_lines`].
pub fn status_snapshot_lines(status: &DeviceStatus) -> (r: Vec<String>)
    ensures
        line_texts(r@) == snapshot_lines(*status),
{
    proof {
        reveal_strlit("(missing)");
        reveal_strlit("  Battery V:      ");
        reveal_strlit(" V");
        reveal_strlit("  Battery V:      read failed");
    }
    let info = &status.device_info;
    let mut lines: Vec<String> = Vec::new();
    lines.push(labelled("  Model:          ", status.model.name()));
    lines.push(info_line("  Model Number:   ", &info.model_number));
    lines.push(info_line("  Serial Number:  ", &info.serial_number));
    lines.push(info_line("  Manufacturer:   ", &info.manufacturer_name));
    lines.push(info_line("  Software Rev:   ", &info.software_revision));
    if status.model.supports_holder_features() {
        lines.push(labelled("  Stick Product:  ", status.product_number.as_str()));
        lines.push(labelled("  Stick Firmware: ", status.stick_firmware.to_version_string().as_str()));
        let holder_product = match &status.holder_product_number {
            Some(p) => labelled("  Holder Product: ", p.as_str()),
            None => labelled("  Holder Product: ", "(missing)"),
        };
        lines.push(holder_product);
        let holder_firmware = match &status.holder_firmware {
            Some(fw) => labelled("  Holder FW:      ", fw.to_version_string().as_str()),
            None => labelled("  Holder FW:      ", "(missing)"),
        };
        lines.push(holder_firmware);
    } else {
        lines.push(labelled("  Product Number: ", status.product_number.as_str()));
        lines.push(labelled("  Firmware:       ", status.stick_firmware.to_version_string().as_str()));
    }
    let battery = match status.battery_millivolts {
        Some(mv) => labelled("  Battery V:      ", volts(mv).as_str()).concat(" V"),
        None => String::from_str("  Battery V:      read failed"),
    };
    lines.push(battery);
    assert(line_texts(lines@) =~= snapshot_lines(*status));
    lines
}

/// The reads that a device snapshot makes, in order.
#[derive(Debug, Clone, Copy, PartialEq, Eq, Structural)]
pub enum SnapshotRead {
    /// The device status: firmware and battery voltage.
    DeviceStatus,
    /// The battery level frame.
    Battery,
    /// The brightness level.
    Brightness,
    /// The vibration settings.
    Vibration,
    /// The `FlexPuff` state.
    FlexPuff,
    /// The `FlexBattery` settings.
    FlexBattery,
}

/// The reads of a snapshot of `model`: device status, battery, brightness
/// and vibration always, then `FlexPuff` and `FlexBattery` where the model
/// supports them.
pub open spec fn spec_snapshot_reads(model: DeviceModel) -> Seq<SnapshotRead> {
    seq![
        SnapshotRead::DeviceStatus,
        SnapshotRead::Battery,
        SnapshotRead::Brightness,
        SnapshotRead::Vibration,
    ] + (if model.spec_supports(DeviceCapability::FlexPuff) {
        seq![SnapshotRead::FlexPuff]
    } else {
        seq![]
    }) + (if model.spec_supports(DeviceCapability::FlexBattery) {
        seq![SnapshotRead::FlexBattery]
    } else {
        seq![]
    })
}

/// The reads to make for a snapshot of `model`, in order.
pub fn snapshot_reads(model: DeviceModel) -> (r: Vec<SnapshotRead>)
    ensures
        r@ == spec_snapshot_reads(model),
{
    let mut reads = vec![
        SnapshotRead::DeviceStatus,
        SnapshotRead::Battery,
        SnapshotRead::Brightness,
        SnapshotRead::Vibration,
    ];
    if model.supports(DeviceCapability::FlexPuff) {
        reads.push(SnapshotRead::FlexPuff);
    }
    if model.supports(DeviceCapability::FlexBattery) {
        reads.push(SnapshotRead::FlexBattery);
    }
    assert(reads@ =~= spec_snapshot_reads(model));
    reads
}

} // verus!
