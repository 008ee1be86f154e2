use iqos::protocol::brightness::{
    CONFIRM_BRIGHTNESS_HIGH_COMMAND, CONFIRM_BRIGHTNESS_LOW_COMMAND, SET_BRIGHTNESS_HIGH_COMMAND,
    SET_BRIGHTNESS_LOW_COMMAND,
};
use iqos::protocol::commands::CommandFrame;
use iqos::protocol::diagnosis::{DiagnosticData, DiagnosticDataBuilder};
use iqos::protocol::flexbattery::{
    FLEXBATTERY_ECO_SET_COMMAND, FLEXBATTERY_PERFORMANCE_SET_COMMAND,
    PAUSEMODE_DISABLE_SET_COMMAND, PAUSEMODE_ENABLE_SET_COMMAND,
};
use iqos::protocol::flexpuff::{FLEXPUFF_DISABLE_COMMAND, FLEXPUFF_ENABLE_COMMAND};
use iqos::protocol::gesture::{
    AUTOSTART_DISABLE_COMMAND, AUTOSTART_ENABLE_COMMAND, SMARTGESTURE_DISABLE_COMMAND,
    SMARTGESTURE_ENABLE_COMMAND,
};
use iqos::protocol::lock::{
    CONFIRMATION_COMMAND, LOCK_COMMAND_1, LOCK_COMMAND_2, UNLOCK_COMMAND_1, UNLOCK_COMMAND_2,
};
use iqos::protocol::responses::ResponseFrame;
use iqos::protocol::vibration::{
    vibration_checksum, CHARGE_START_COMMIT_COMMAND, CHARGE_START_ON_FRAME_1, CHARGE_START_ON_FRAME_2,
    CHARGE_START_ON_FRAME_3, CHARGE_START_ON_FRAME_4, CHARGE_START_RELOAD_COMMAND,
};
use iqos::protocol::{
    all_diagnosis_commands, autostart_command, autostart_from_response, lock_commands,
    pausemode_command, pausemode_from_response, product_number_from_response,
    smartgesture_command, unlock_commands, BrightnessLevel, DeviceModel, FirmwareKind,
    FirmwareVersion, FlexBatteryMode, FlexBatterySettings, FlexPuffSetting, ProductNumberKind,
    VibrationSettings, HOLDER_PRODUCT_NUMBER_COMMAND, LOAD_AUTOSTART_COMMAND,
    LOAD_BATTERY_VOLTAGE_COMMAND, LOAD_BRIGHTNESS_COMMAND, LOAD_FLEXBATTERY_COMMAND,
    LOAD_FLEXPUFF_COMMAND, LOAD_HOLDER_FIRMWARE_VERSION_COMMAND, LOAD_PAUSEMODE_COMMAND,
    LOAD_STICK_FIRMWARE_VERSION_COMMAND, LOAD_TELEMETRY_COMMAND, LOAD_TIMESTAMP_COMMAND,
    LOAD_VIBRATE_CHARGE_START_COMMAND, LOAD_VIBRATION_SETTINGS_COMMAND, PRODUCT_NUMBER_COMMAND,
};
use iqos::Error;

// ---- brightness ----

#[test]
fn parses_high_brightness_response() {
    let value = BrightnessLevel::from_response(&[0x00, 0xC0, 0x86, 0x23, 0x64, 0, 0, 0, 0]);
    assert_eq!(value.unwrap(), BrightnessLevel::High);
}

#[test]
fn parses_low_brightness_response() {
    let value = BrightnessLevel::from_response(&[0x00, 0xC0, 0x86, 0x23, 0x1E, 0, 0, 0, 0]);
    assert_eq!(value.unwrap(), BrightnessLevel::Low);
}

#[test]
fn rejects_invalid_brightness_header() {
    let error = BrightnessLevel::from_response(&[0x00, 0x00, 0x86, 0x23, 0x64, 0, 0, 0, 0]);
    assert!(error.is_err());
}

#[test]
fn returns_expected_write_sequences() {
    let high: [&[u8]; 3] = [
        &[0x00, 0xC0, 0x46, 0x23, 0x64, 0x00, 0x00, 0x00, 0x4F],
        &[0x00, 0xC0, 0x02, 0x23, 0xC3],
        &[0x00, 0xC9, 0x44, 0x24, 0x64, 0x00, 0x00, 0x00, 0x34],
    ];
    let low: [&[u8]; 3] = [
        &[0x00, 0xC0, 0x46, 0x23, 0x1E, 0x00, 0x00, 0x00, 0xE1],
        &[0x00, 0xC0, 0x02, 0x23, 0xC3],
        &[0x00, 0xC9, 0x44, 0x24, 0x1E, 0x00, 0x00, 0x00, 0x9A],
    ];
    assert_eq!(BrightnessLevel::High.write_commands(), high);
    assert_eq!(BrightnessLevel::Low.write_commands(), low);
    assert_eq!(
        BrightnessLevel::High.write_commands(),
        [&SET_BRIGHTNESS_HIGH_COMMAND[..], &LOAD_BRIGHTNESS_COMMAND[..], &CONFIRM_BRIGHTNESS_HIGH_COMMAND[..]]
    );
    assert_eq!(
        BrightnessLevel::Low.write_commands(),
        [&SET_BRIGHTNESS_LOW_COMMAND[..], &LOAD_BRIGHTNESS_COMMAND[..], &CONFIRM_BRIGHTNESS_LOW_COMMAND[..]]
    );
}

#[test]
fn brightness_keeps_load_command_stable() {
    assert_eq!(LOAD_BRIGHTNESS_COMMAND, [0x00, 0xC0, 0x02, 0x23, 0xC3]);
}

#[test]
fn brightness_rejects_short_frame_and_unknown_flag() {
    let short = BrightnessLevel::from_response(&[0x00, 0xC0, 0x86, 0x23]).unwrap_err();
    assert!(matches!(short, Error::ProtocolDecode(m) if m == "invalid brightness response: frame too short"));
    let unknown =
        BrightnessLevel::from_response(&[0x00, 0xC0, 0x86, 0x23, 0x50, 0, 0, 0, 0]).unwrap_err();
    assert!(matches!(unknown, Error::ProtocolDecode(m) if m == "invalid brightness response: unknown level flag"));
    let header =
        BrightnessLevel::from_response(&[0x00, 0x00, 0x86, 0x23, 0x64, 0, 0, 0, 0]).unwrap_err();
    assert!(matches!(header, Error::ProtocolDecode(m) if m == "invalid brightness response: header mismatch"));
}

#[test]
fn brightness_labels_round_trip() {
    assert_eq!(BrightnessLevel::High.as_str(), "high");
    assert_eq!(BrightnessLevel::Low.as_str(), "low");
    assert_eq!("  HiGh\t".parse::<BrightnessLevel>().unwrap(), BrightnessLevel::High);
    assert_eq!(BrightnessLevel::from_label("low").unwrap(), BrightnessLevel::Low);
    assert_eq!(
        BrightnessLevel::from_label(BrightnessLevel::High.as_str()).unwrap(),
        BrightnessLevel::High
    );
    let error = BrightnessLevel::from_label("medium").unwrap_err();
    assert!(matches!(error, Error::ProtocolDecode(m) if m == "invalid brightness level string"));
    assert!(BrightnessLevel::from_label("hi gh").is_err());
}

#[test]
fn brightness_set_command_flag_reads_back() {
    for level in [BrightnessLevel::High, BrightnessLevel::Low] {
        let flag = level.write_commands()[0][4];
        let response = [0x00, 0xC0, 0x86, 0x23, flag, 0, 0, 0, 0];
        assert_eq!(BrightnessLevel::from_response(&response).unwrap(), level);
    }
}

// ---- frames ----

#[test]
fn command_frame_preserves_bytes() {
    let frame = CommandFrame::new(vec![0x01, 0x02, 0x03]);
    assert_eq!(frame.as_bytes(), &[0x01, 0x02, 0x03]);
}

#[test]
fn response_frame_preserves_bytes() {
    let frame = ResponseFrame::new(vec![0xAA, 0xBB]);
    assert_eq!(frame.as_bytes(), &[0xAA, 0xBB]);
}

// ---- diagnosis ----

fn millivolts_as_volts(mv: Option<u16>) -> Option<f32> {
    mv.map(|mv| f32::from(mv) / 1000.0)
}

#[test]
fn diagnosis_keeps_load_commands_stable() {
    assert_eq!(LOAD_TELEMETRY_COMMAND, [0x00, 0xC9, 0x10, 0x02, 0x01, 0x01, 0x75, 0xD6]);
    assert_eq!(LOAD_TIMESTAMP_COMMAND, [0x00, 0xC0, 0x10, 0x02, 0x00, 0x04, 0x38, 0xEF]);
    assert_eq!(LOAD_BATTERY_VOLTAGE_COMMAND, [0x00, 0xC0, 0x00, 0x21, 0xE7]);
}

#[test]
fn diagnosis_commands_contains_four_entries() {
    assert_eq!(all_diagnosis_commands().len(), 4);
}

#[test]
fn parses_battery_voltage_frame() {
    let bytes = [0x00, 0x08, 0x88, 0x21, 0x00, 0xA8, 0x10, 0x00, 0x00];
    let result = DiagnosticDataBuilder::default().parse(&bytes).unwrap().build();
    assert_eq!(millivolts_as_volts(result.battery_millivolts), Some(4264_f32 / 1000.0));
}

#[test]
fn parses_timestamp_frame() {
    let bytes = [0x00, 0x08, 0x80, 0x02, 0x1E, 0x00, 0x00, 0x00];
    let result = DiagnosticDataBuilder::default().parse(&bytes).unwrap().build();
    assert_eq!(result.days_used, Some(0x001E));
}

#[test]
fn ignores_unknown_header_frames() {
    let bytes = [0x00, 0x08, 0xFF, 0xFF, 0x00, 0x00, 0x00, 0x00];
    let result = DiagnosticDataBuilder::default().parse(&bytes).unwrap().build();
    assert_eq!(result, DiagnosticData::default());
}

#[test]
fn rejects_too_short_frame() {
    let error = DiagnosticDataBuilder::default().parse(&[0x00, 0x08, 0x88]);
    assert!(error.is_err());
}

#[test]
fn rejects_too_short_battery_voltage_frame() {
    let bytes = [0x00, 0x08, 0x88, 0x21, 0x00, 0xA8];
    let error = DiagnosticDataBuilder::default().parse(&bytes);
    assert!(error.is_err());
}

#[test]
fn rejects_too_short_timestamp_frame() {
    let bytes = [0x00, 0x08, 0x80, 0x02, 0x1E];
    let error = DiagnosticDataBuilder::default().parse(&bytes);
    assert!(error.is_err());
}

#[test]
fn builder_accumulates_across_multiple_frames() {
    let timestamp_bytes = [0x00, 0x08, 0x80, 0x02, 0x0A, 0x00, 0x00, 0x00];
    let battery_bytes = [0x00, 0x08, 0x88, 0x21, 0x00, 0xE8, 0x0F, 0x00, 0x00];
    let result = DiagnosticDataBuilder::default()
        .parse(&timestamp_bytes)
        .unwrap()
        .parse(&battery_bytes)
        .unwrap()
        .build();
    assert_eq!(result.days_used, Some(10));
    assert_eq!(millivolts_as_volts(result.battery_millivolts), Some(4072_f32 / 1000.0));
    assert_eq!(result.total_smoking_count, None);
}

fn telemetry_frame(blocks: &[(u16, u8)]) -> Vec<u8> {
    let mut frame = vec![0x00, 0x08, 0x90, 0x22, 0x01, 0x01];
    for (value, tag) in blocks {
        let [lo, hi] = value.to_le_bytes();
        frame.extend_from_slice(&[0, 0, 0, 0, lo, hi, 0, *tag]);
    }
    frame
}

#[test]
fn parses_telemetry_blocks_by_tag() {
    let frame = telemetry_frame(&[(1234, 0x8E), (77, 0x17), (9, 0x01), (5, 0x55)]);
    let result = DiagnosticDataBuilder::default().parse(&frame).unwrap().build();
    assert_eq!(result.total_smoking_count, Some(1234));
    assert_eq!(result.days_used, Some(77));
    assert_eq!(result.battery_millivolts, None);
}

#[test]
fn later_telemetry_blocks_override_earlier_ones() {
    let frame = telemetry_frame(&[(10, 0x8E), (20, 0x8E), (30, 0x17), (40, 0x17)]);
    let result = DiagnosticDataBuilder::default().parse(&frame).unwrap().build();
    assert_eq!(result.total_smoking_count, Some(20));
    assert_eq!(result.days_used, Some(40));
}

#[test]
fn rejects_truncated_telemetry_frame_with_lengths_in_message() {
    let mut frame = telemetry_frame(&[(1, 0x8E), (2, 0x17), (3, 0x00), (4, 0x00)]);
    frame.truncate(20);
    let error = DiagnosticDataBuilder::default().parse(&frame).unwrap_err();
    assert!(matches!(error, Error::ProtocolDecode(m) if m == "invalid telemetry frame: expected 38 bytes, got 20"));
}

#[test]
fn rejects_telemetry_frame_with_wrong_marker() {
    let mut frame = telemetry_frame(&[(1, 0x8E), (2, 0x17), (3, 0x00), (4, 0x00)]);
    frame[4] = 0x02;
    let error = DiagnosticDataBuilder::default().parse(&frame).unwrap_err();
    assert!(matches!(error, Error::ProtocolDecode(m) if m == "invalid telemetry frame: wrong marker"));
    let short = DiagnosticDataBuilder::default().parse(&[0x00, 0x08, 0x90, 0x22, 0x01]).unwrap_err();
    assert!(matches!(short, Error::ProtocolDecode(m) if m == "invalid telemetry frame: too short for marker"));
}

#[test]
fn battery_frame_keeps_other_readings() {
    let telemetry = telemetry_frame(&[(500, 0x8E), (60, 0x17), (0, 0), (0, 0)]);
    let battery = [0x00, 0x08, 0x88, 0x21, 0x00, 0x68, 0x10, 0x00, 0x00];
    let result = DiagnosticDataBuilder::default()
        .parse(&telemetry)
        .unwrap()
        .parse(&battery)
        .unwrap()
        .build();
    assert_eq!(result.total_smoking_count, Some(500));
    assert_eq!(result.days_used, Some(60));
    assert_eq!(result.battery_millivolts, Some(4200));
    assert_eq!(DiagnosticData::new(), DiagnosticData::default());
}

// ---- firmware ----

#[test]
fn parses_stick_firmware_response() {
    let version = FirmwareVersion::from_response(
        &[0x00, 0xC0, 0x88, 0x00, 0x00, 0x00, 0x02, 0x05, 0x07, 0x18],
        FirmwareKind::Stick,
    )
    .unwrap();
    assert_eq!(version, FirmwareVersion { major: 2, minor: 5, patch: 7, year: 24 });
}

#[test]
fn parses_holder_firmware_response() {
    let version = FirmwareVersion::from_response(
        &[0x00, 0x08, 0x88, 0x00, 0x00, 0x00, 0x01, 0x02, 0x03, 0x19],
        FirmwareKind::Holder,
    )
    .unwrap();
    assert_eq!(version.to_version_string(), "v1.2.3.25");
}

#[test]
fn rejects_invalid_firmware_header() {
    let result = FirmwareVersion::from_response(
        &[0x00, 0xC9, 0x88, 0x00, 0x00, 0x00, 0x02, 0x05, 0x07, 0x18],
        FirmwareKind::Stick,
    );
    assert!(result.is_err());
}

#[test]
fn rejects_short_firmware_response() {
    let result = FirmwareVersion::from_response(&[0x00, 0xC0, 0x88, 0x00], FirmwareKind::Stick);
    assert!(result.is_err());
}

#[test]
fn keeps_firmware_commands_stable() {
    assert_eq!(LOAD_STICK_FIRMWARE_VERSION_COMMAND, [0x00, 0xC0, 0x00, 0x00, 0x00, 0x00, 0x00]);
    assert_eq!(LOAD_HOLDER_FIRMWARE_VERSION_COMMAND, [0x00, 0xC9, 0x00, 0x00, 0x00, 0x00, 0x00]);
}

#[test]
fn firmware_version_text_uses_full_decimal_components() {
    let version = FirmwareVersion { major: 0, minor: 10, patch: 255, year: 100 };
    assert_eq!(version.to_version_string(), "v0.10.255.100");
    assert_eq!(FirmwareVersion::default(), FirmwareVersion { major: 0, minor: 0, patch: 0, year: 0 });
    assert_eq!(FirmwareKind::Stick.code(), 0xC0);
    assert_eq!(FirmwareKind::Holder.code(), 0x08);
    assert_eq!(FirmwareKind::Holder.load_command(), &LOAD_HOLDER_FIRMWARE_VERSION_COMMAND);
}

// ---- flexbattery ----

#[test]
fn parses_performance_flexbattery_response() {
    let mode =
        FlexBatteryMode::from_response(&[0x00, 0x08, 0x84, 0x25, 0x00, 0x00, 0x00, 0x00, 0x00]);
    assert_eq!(mode.unwrap(), FlexBatteryMode::Performance);
}

#[test]
fn parses_eco_flexbattery_response() {
    let mode =
        FlexBatteryMode::from_response(&[0x00, 0x08, 0x84, 0x25, 0x01, 0x00, 0x00, 0x00, 0x00]);
    assert_eq!(mode.unwrap(), FlexBatteryMode::Eco);
}

#[test]
fn rejects_short_flexbattery_response() {
    assert!(FlexBatteryMode::from_response(&[0x00, 0x08, 0x84]).is_err());
}

#[test]
fn rejects_invalid_flexbattery_header() {
    let error =
        FlexBatteryMode::from_response(&[0x00, 0x00, 0x84, 0x25, 0x00, 0x00, 0x00, 0x00, 0x00]);
    assert!(error.is_err());
}

#[test]
fn rejects_unknown_flexbattery_mode_byte() {
    let error =
        FlexBatteryMode::from_response(&[0x00, 0x08, 0x84, 0x25, 0xFF, 0x00, 0x00, 0x00, 0x00]);
    assert!(error.is_err());
}

#[test]
fn flexbattery_write_command_selects_correct_constant() {
    assert_eq!(FlexBatteryMode::Performance.write_command(), &FLEXBATTERY_PERFORMANCE_SET_COMMAND);
    assert_eq!(FlexBatteryMode::Eco.write_command(), &FLEXBATTERY_ECO_SET_COMMAND);
}

#[test]
fn parses_pausemode_enabled_response() {
    let enabled = pausemode_from_response(&[0x00, 0x08, 0x87, 0x24, 0x02, 0x01, 0x00, 0x00, 0x00]);
    assert!(enabled.unwrap());
}

#[test]
fn parses_pausemode_disabled_response() {
    let disabled = pausemode_from_response(&[0x00, 0x08, 0x87, 0x24, 0x02, 0x00, 0x00, 0x00, 0x00]);
    assert!(!disabled.unwrap());
}

#[test]
fn rejects_short_pausemode_response() {
    assert!(pausemode_from_response(&[0x00, 0x08, 0x87]).is_err());
}

#[test]
fn rejects_invalid_pausemode_header() {
    let error = pausemode_from_response(&[0x00, 0x00, 0x87, 0x24, 0x02, 0x01, 0x00, 0x00, 0x00]);
    assert!(error.is_err());
}

#[test]
fn rejects_unknown_pausemode_flag() {
    let error = pausemode_from_response(&[0x00, 0x08, 0x87, 0x24, 0x02, 0xFF, 0x00, 0x00, 0x00]);
    assert!(error.is_err());
}

#[test]
fn pausemode_command_selects_correct_constant() {
    assert_eq!(pausemode_command(true), &PAUSEMODE_ENABLE_SET_COMMAND);
    assert_eq!(pausemode_command(false), &PAUSEMODE_DISABLE_SET_COMMAND);
}

#[test]
fn from_responses_combines_mode_and_pausemode() {
    let mode_bytes = [0x00, 0x08, 0x84, 0x25, 0x01, 0x00, 0x00, 0x00, 0x00];
    let pause_bytes = [0x00, 0x08, 0x87, 0x24, 0x02, 0x01, 0x00, 0x00, 0x00];
    let settings = FlexBatterySettings::from_responses(&mode_bytes, &pause_bytes).unwrap();
    assert_eq!(settings, FlexBatterySettings::new(FlexBatteryMode::Eco, Some(true)));
}

#[test]
fn from_responses_reports_the_mode_error_first() {
    let bad = [0x00, 0x08, 0x84];
    let error = FlexBatterySettings::from_responses(&bad, &bad).unwrap_err();
    assert!(matches!(error, Error::ProtocolDecode(m) if m == "invalid FlexBattery response: frame too short"));
    let mode_bytes = [0x00, 0x08, 0x84, 0x25, 0x00, 0x00, 0x00, 0x00, 0x00];
    let error = FlexBatterySettings::from_responses(&mode_bytes, &bad).unwrap_err();
    assert!(matches!(error, Error::ProtocolDecode(m) if m == "invalid Pause Mode response: frame too short"));
}

#[test]
fn flexbattery_keeps_load_commands_stable() {
    assert_eq!(LOAD_FLEXBATTERY_COMMAND, [0x00, 0xC9, 0x00, 0x25, 0xFB]);
    assert_eq!(LOAD_PAUSEMODE_COMMAND, [0x00, 0xC9, 0x07, 0x24, 0x02, 0x00, 0x00, 0x00, 0x18]);
}

#[test]
fn keeps_set_commands_stable() {
    assert_eq!(FLEXBATTERY_ECO_SET_COMMAND, [0x00, 0xC9, 0x44, 0x25, 0x01, 0x00, 0x00, 0x00, 0x4D]);
    assert_eq!(
        FLEXBATTERY_PERFORMANCE_SET_COMMAND,
        [0x00, 0xC9, 0x44, 0x25, 0x00, 0x00, 0x00, 0x00, 0x5B]
    );
    assert_eq!(PAUSEMODE_ENABLE_SET_COMMAND, [0x00, 0xC9, 0x47, 0x24, 0x02, 0x01, 0x00, 0x00, 0x05]);
    assert_eq!(PAUSEMODE_DISABLE_SET_COMMAND, [0x00, 0xC9, 0x47, 0x24, 0x02, 0x00, 0x00, 0x00, 0x6E]);
}

#[test]
fn flexbattery_settings_accessors_and_default_mode() {
    let settings = FlexBatterySettings::new(FlexBatteryMode::Performance, None);
    assert_eq!(settings.mode(), FlexBatteryMode::Performance);
    assert_eq!(settings.pause_mode(), None);
    assert_eq!(FlexBatteryMode::default(), FlexBatteryMode::Performance);
    for mode in [FlexBatteryMode::Performance, FlexBatteryMode::Eco] {
        let byte = mode.write_command()[4];
        let response = [0x00, 0x08, 0x84, 0x25, byte, 0, 0, 0, 0];
        assert_eq!(FlexBatteryMode::from_response(&response).unwrap(), mode);
    }
    for enabled in [true, false] {
        let byte = pausemode_command(enabled)[5];
        let response = [0x00, 0x08, 0x87, 0x24, 0x02, byte, 0, 0, 0];
        assert_eq!(pausemode_from_response(&response).unwrap(), enabled);
    }
}

// ---- flexpuff ----

#[test]
fn parses_enabled_flexpuff_response() {
    let setting =
        FlexPuffSetting::from_response(&[0x00, 0x90, 0x85, 0x22, 0x03, 0x01, 0x00, 0x00, 0x00]);
    assert_eq!(setting.unwrap(), FlexPuffSetting::new(true));
}

#[test]
fn parses_disabled_flexpuff_response() {
    let setting =
        FlexPuffSetting::from_response(&[0x00, 0x90, 0x85, 0x22, 0x03, 0x00, 0x00, 0x00, 0x00]);
    assert_eq!(setting.unwrap(), FlexPuffSetting::new(false));
}

#[test]
fn rejects_short_flexpuff_response() {
    let error = FlexPuffSetting::from_response(&[0x00, 0x90, 0x85, 0x22]);
    assert!(error.is_err());
}

#[test]
fn rejects_invalid_flexpuff_header() {
    let error =
        FlexPuffSetting::from_response(&[0x00, 0x00, 0x85, 0x22, 0x03, 0x01, 0x00, 0x00, 0x00]);
    assert!(error.is_err());
}

#[test]
fn rejects_unknown_flag_byte() {
    let error =
        FlexPuffSetting::from_response(&[0x00, 0x90, 0x85, 0x22, 0x03, 0xFF, 0x00, 0x00, 0x00]);
    assert!(error.is_err());
}

#[test]
fn flexpuff_write_command_selects_correct_constant() {
    assert_eq!(FlexPuffSetting::new(true).write_command(), &FLEXPUFF_ENABLE_COMMAND);
    assert_eq!(FlexPuffSetting::new(false).write_command(), &FLEXPUFF_DISABLE_COMMAND);
}

#[test]
fn flexpuff_keeps_load_command_stable() {
    assert_eq!(LOAD_FLEXPUFF_COMMAND, [0x00, 0xD2, 0x05, 0x22, 0x03, 0x00, 0x00, 0x00, 0x17]);
}

#[test]
fn flexpuff_write_reads_back() {
    for enabled in [true, false] {
        let setting = FlexPuffSetting::new(enabled);
        assert_eq!(setting.is_enabled(), enabled);
        let byte = setting.write_command()[5];
        let response = [0x00, 0x90, 0x85, 0x22, 0x03, byte, 0, 0, 0];
        assert_eq!(FlexPuffSetting::from_response(&response).unwrap(), setting);
    }
}

// ---- gesture ----

#[test]
fn smartgesture_command_selects_correct_constant() {
    assert_eq!(smartgesture_command(true), &SMARTGESTURE_ENABLE_COMMAND);
    assert_eq!(smartgesture_command(false), &SMARTGESTURE_DISABLE_COMMAND);
}

#[test]
fn autostart_command_selects_correct_constant() {
    assert_eq!(autostart_command(true), &AUTOSTART_ENABLE_COMMAND);
    assert_eq!(autostart_command(false), &AUTOSTART_DISABLE_COMMAND);
}

#[test]
fn keeps_smartgesture_commands_stable() {
    assert_eq!(SMARTGESTURE_ENABLE_COMMAND, [0x00, 0xC9, 0x47, 0x24, 0x04, 0x01, 0x00, 0x00, 0x3C]);
    assert_eq!(SMARTGESTURE_DISABLE_COMMAND, [0x00, 0xC9, 0x47, 0x24, 0x04, 0x00, 0x00, 0x00, 0x57]);
}

#[test]
fn keeps_autostart_commands_stable() {
    assert_eq!(AUTOSTART_ENABLE_COMMAND, [0x00, 0xC9, 0x47, 0x24, 0x01, 0x01, 0x00, 0x00, 0x3F]);
    assert_eq!(AUTOSTART_DISABLE_COMMAND, [0x00, 0xC9, 0x47, 0x24, 0x01, 0x00, 0x00, 0x00, 0x54]);
}

#[test]
fn keeps_load_autostart_command_stable() {
    assert_eq!(LOAD_AUTOSTART_COMMAND, [0x00, 0xC9, 0x07, 0x24, 0x01, 0x00, 0x00, 0x00, 0x22]);
}

#[test]
fn parses_autostart_enabled_response() {
    let enabled = autostart_from_response(&[0x00, 0x08, 0x87, 0x24, 0x01, 0x01, 0x00, 0x00, 0xA5]);
    assert!(enabled.unwrap());
}

#[test]
fn parses_autostart_disabled_response() {
    let disabled = autostart_from_response(&[0x00, 0x08, 0x87, 0x24, 0x01, 0x00, 0x00, 0x00, 0x00]);
    assert!(!disabled.unwrap());
}

#[test]
fn rejects_short_autostart_response() {
    assert!(autostart_from_response(&[0x00, 0x08, 0x87]).is_err());
}

#[test]
fn rejects_invalid_autostart_header() {
    assert!(
        autostart_from_response(&[0x00, 0x00, 0x87, 0x24, 0x01, 0x01, 0x00, 0x00, 0xA5]).is_err()
    );
}

#[test]
fn rejects_mismatched_autostart_setting_id() {
    assert!(
        autostart_from_response(&[0x00, 0x08, 0x87, 0x24, 0x02, 0x01, 0x00, 0x00, 0xA5]).is_err()
    );
}

#[test]
fn rejects_unknown_autostart_flag() {
    assert!(
        autostart_from_response(&[0x00, 0x08, 0x87, 0x24, 0x01, 0xFF, 0x00, 0x00, 0xA5]).is_err()
    );
}

#[test]
fn autostart_errors_carry_their_messages() {
    let cases: [(&[u8], &str); 4] = [
        (&[0x00, 0x08, 0x87], "invalid Auto Start response: frame too short"),
        (&[0x00, 0x00, 0x87, 0x24, 0x01, 0x01, 0, 0, 0], "invalid Auto Start response: header mismatch"),
        (&[0x00, 0x08, 0x87, 0x24, 0x02, 0x01, 0, 0, 0], "invalid Auto Start response: setting ID mismatch"),
        (&[0x00, 0x08, 0x87, 0x24, 0x01, 0x07, 0, 0, 0], "invalid Auto Start response: unknown flag byte"),
    ];
    for (bytes, message) in cases {
        let error = autostart_from_response(bytes).unwrap_err();
        assert!(matches!(error, Error::ProtocolDecode(m) if m == message));
    }
    for enabled in [true, false] {
        let command = autostart_command(enabled);
        let response = [0x00, 0x08, 0x87, 0x24, command[4], command[5], 0, 0, 0];
        assert_eq!(autostart_from_response(&response).unwrap(), enabled);
    }
}

// ---- lock ----

#[test]
fn keeps_lock_commands_stable() {
    assert_eq!(LOCK_COMMAND_1, [0x00, 0xC9, 0x44, 0x04, 0x02, 0xFF, 0x00, 0x00, 0x5A]);
    assert_eq!(LOCK_COMMAND_2, [0x00, 0xC9, 0x00, 0x04, 0x1C]);
}

#[test]
fn keeps_unlock_commands_stable() {
    assert_eq!(UNLOCK_COMMAND_1, [0x00, 0xC9, 0x44, 0x04, 0x00, 0x00, 0x00, 0x00, 0x5D]);
    assert_eq!(UNLOCK_COMMAND_2, [0x00, 0xC9, 0x00, 0x04, 0x1C]);
}

#[test]
fn keeps_confirmation_command_stable() {
    assert_eq!(CONFIRMATION_COMMAND, [0x00, 0xC0, 0x01, 0x00, 0xF6]);
}

#[test]
fn lock_and_unlock_share_secondary_command() {
    assert_eq!(LOCK_COMMAND_2, UNLOCK_COMMAND_2);
}

#[test]
fn lock_commands_returns_correct_sequence() {
    let cmds = lock_commands();
    assert_eq!(cmds[0], &LOCK_COMMAND_1);
    assert_eq!(cmds[1], &LOCK_COMMAND_2);
    assert_eq!(cmds[2], &CONFIRMATION_COMMAND);
}

#[test]
fn unlock_commands_returns_correct_sequence() {
    let cmds = unlock_commands();
    assert_eq!(cmds[0], &UNLOCK_COMMAND_1);
    assert_eq!(cmds[1], &UNLOCK_COMMAND_2);
    assert_eq!(cmds[2], &CONFIRMATION_COMMAND);
}

// ---- product ----

#[test]
fn parses_stick_product_number_without_trailing_byte() {
    let bytes = [&[0x00, 0xC0, 0x88, 0x03][..], b"ABCD123456", &[0xAA]].concat();
    let product_number = product_number_from_response(&bytes, ProductNumberKind::Stick)
        .expect("stick product number should parse");
    assert_eq!(product_number, "ABCD123456");
}

#[test]
fn parses_holder_product_number_to_end_of_frame() {
    let bytes = [&[0x00, 0x08, 0x88, 0x03][..], b"HOLDER123456"].concat();
    let product_number = product_number_from_response(&bytes, ProductNumberKind::Holder)
        .expect("holder product number should parse");
    assert_eq!(product_number, "HOLDER123456");
}

#[test]
fn replaces_non_printable_payload_bytes_with_dots() {
    let product_number = product_number_from_response(
        &[0x00, 0x08, 0x88, 0x03, b'A', 0x00, 0xFF],
        ProductNumberKind::Holder,
    )
    .expect("holder product number should parse");
    assert_eq!(product_number, "A..");
}

#[test]
fn rejects_invalid_product_number_header() {
    let result =
        product_number_from_response(&[0x00, 0xC9, 0x88, 0x03, b'A', 0xAA], ProductNumberKind::Stick);
    assert!(result.is_err());
}

#[test]
fn keeps_product_number_commands_stable() {
    assert_eq!(PRODUCT_NUMBER_COMMAND, [0x00, 0xC0, 0x00, 0x03, 0x09]);
    assert_eq!(HOLDER_PRODUCT_NUMBER_COMMAND, [0x00, 0xC9, 0x00, 0x03, 0x09]);
}

#[test]
fn product_number_edge_cases() {
    let stick_only_checksum = product_number_from_response(
        &[0x00, 0xC0, 0x88, 0x03, 0xAA],
        ProductNumberKind::Stick,
    )
    .unwrap_err();
    assert!(matches!(stick_only_checksum, Error::ProtocolDecode(m) if m == "invalid product number response: missing stick payload"));
    let holder_empty =
        product_number_from_response(&[0x00, 0x08, 0x88, 0x03], ProductNumberKind::Holder).unwrap_err();
    assert!(matches!(holder_empty, Error::ProtocolDecode(m) if m == "invalid product number response: missing holder payload"));
    let short = product_number_from_response(&[0x00, 0x08], ProductNumberKind::Holder).unwrap_err();
    assert!(matches!(short, Error::ProtocolDecode(m) if m == "invalid product number response: frame too short"));
    let edges = product_number_from_response(
        &[0x00, 0x08, 0x88, 0x03, 0x1F, 0x20, 0x7E, 0x7F],
        ProductNumberKind::Holder,
    )
    .unwrap();
    assert_eq!(edges, ". ~.");
    assert_eq!(ProductNumberKind::Stick.command(), &PRODUCT_NUMBER_COMMAND);
    assert_eq!(ProductNumberKind::Holder.command(), &HOLDER_PRODUCT_NUMBER_COMMAND);
}

// ---- vibration ----

#[test]
fn parses_basic_vibration_response() {
    let settings = VibrationSettings::from_response(
        &[0x00, 0x08, 0x84, 0x23, 0x10, 0x00, 0x01, 0x10, 0x77],
        DeviceModel::IlumaOne,
    )
    .unwrap();
    assert_eq!(settings, VibrationSettings::new(true, false, false, true));
}

#[test]
fn parses_iluma_alt_header_vibration_response() {
    let settings = VibrationSettings::from_response(
        &[0x00, 0x08, 0x84, 0x23, 0x03, 0x00, 0x10, 0x01, 0x77],
        DeviceModel::Iluma,
    )
    .unwrap();
    assert_eq!(settings, VibrationSettings::new(false, true, true, false));
}

#[test]
fn rejects_iluma_alt_header_vibration_response_for_one_piece_model() {
    let error = VibrationSettings::from_response(
        &[0x00, 0x08, 0x84, 0x23, 0x03, 0x00, 0x10, 0x01, 0x77],
        DeviceModel::IlumaOne,
    )
    .unwrap_err();
    assert!(matches!(error, Error::ProtocolDecode(message) if message.contains("header mismatch")));
}

#[test]
fn parses_charge_start_response_variants() {
    assert!(VibrationSettings::charge_start_from_response(&[
        0x00, 0x08, 0x8B, 0x04, 0x04, 0x00, 0x00, 0x00, 0x00, 0x00, 0x00, 0x00, 0x00, 0x00, 0x00,
        0x00, 0x00, 0x00, 0x56,
    ])
    .unwrap());
    assert!(!VibrationSettings::charge_start_from_response(&[
        0x00, 0x08, 0x8B, 0x04, 0x04, 0x00, 0x00, 0x00, 0x00, 0x09, 0x00, 0x00, 0x00, 0x00, 0x00,
        0x00, 0x00, 0x00, 0xEE,
    ])
    .unwrap());
}

#[test]
fn vibration_keeps_load_commands_stable() {
    assert_eq!(LOAD_VIBRATION_SETTINGS_COMMAND, [0x00, 0xC9, 0x00, 0x23, 0xE9]);
    assert_eq!(LOAD_VIBRATE_CHARGE_START_COMMAND, [0x00, 0xC9, 0x07, 0x04, 0x04, 0x00, 0x00, 0x00, 0x08]);
}

#[test]
fn builds_basic_vibration_update_command() {
    let commands = VibrationSettings::new(true, false, true, false)
        .build_update_commands(DeviceModel::IlumaOne)
        .unwrap();
    assert_eq!(commands, vec![vec![0x00, 0xC9, 0x44, 0x23, 0x10, 0x00, 0x01, 0x01, 0x65]]);
}

fn charging_start_on_commands() -> Vec<Vec<u8>> {
    vec![
        CHARGE_START_ON_FRAME_1.to_vec(),
        CHARGE_START_ON_FRAME_2.to_vec(),
        CHARGE_START_ON_FRAME_3.to_vec(),
        CHARGE_START_ON_FRAME_4.to_vec(),
        CHARGE_START_COMMIT_COMMAND.to_vec(),
        LOAD_VIBRATE_CHARGE_START_COMMAND.to_vec(),
        CHARGE_START_RELOAD_COMMAND.to_vec(),
    ]
}

#[test]
fn builds_iluma_charge_start_sequence() {
    let commands = VibrationSettings::with_charge_start(true, false, false, false, true)
        .build_update_commands(DeviceModel::Iluma)
        .unwrap();
    let expected: Vec<Vec<u8>> =
        std::iter::once(vec![0x00, 0xC9, 0x44, 0x23, 0x10, 0x00, 0x01, 0x00, 0x62])
            .chain(charging_start_on_commands())
            .collect();
    assert_eq!(commands, expected);
}

#[test]
fn rejects_charge_start_on_one_piece_model() {
    let error = VibrationSettings::with_charge_start(false, false, false, false, true)
        .build_update_commands(DeviceModel::IlumaOne)
        .unwrap_err();
    assert!(matches!(error, Error::Unsupported(message) if message.contains("charge-start vibration")));
}

#[test]
fn rejects_holder_update_without_charge_start_value() {
    let error = VibrationSettings::new(false, false, false, false)
        .build_update_commands(DeviceModel::Iluma)
        .unwrap_err();
    assert!(matches!(error, Error::ProtocolEncode(message) if message.contains("required")));
}

#[test]
fn vibration_update_error_messages_name_the_model() {
    let error = VibrationSettings::new(true, true, true, true)
        .build_update_commands(DeviceModel::Unknown)
        .unwrap_err();
    assert!(matches!(error, Error::Unsupported(m) if m == "vibration is not supported for model Unknown"));
    let error = VibrationSettings::with_charge_start(true, true, true, true, false)
        .build_update_commands(DeviceModel::IlumaIOne)
        .unwrap_err();
    assert!(matches!(error, Error::Unsupported(m) if m == "charge-start vibration is not supported for model IlumaIOne"));
    let error = VibrationSettings::new(true, true, true, true)
        .build_update_commands(DeviceModel::IlumaIPrime)
        .unwrap_err();
    assert!(matches!(error, Error::ProtocolEncode(m) if m == "charge-start vibration value is required for model IlumaIPrime"));
}

#[test]
fn all_off_update_skips_charge_start_sequence() {
    let commands = VibrationSettings::with_charge_start(false, false, false, false, false)
        .build_update_commands(DeviceModel::IlumaPrime)
        .unwrap();
    assert_eq!(commands, vec![vec![0x00, 0xC9, 0x44, 0x23, 0x10, 0x00, 0x00, 0x00, 0x77]]);
    let commands = VibrationSettings::with_charge_start(false, false, true, false, false)
        .build_update_commands(DeviceModel::IlumaPrime)
        .unwrap();
    assert_eq!(commands.len(), 8);
    assert_eq!(commands[1][4], 0x64);
}

#[test]
fn vibration_checksum_combines_flag_contributions() {
    let all = VibrationSettings::new(true, true, true, true).build_update_commands(DeviceModel::IlumaOne).unwrap();
    assert_eq!(all, vec![vec![0x00, 0xC9, 0x44, 0x23, 0x10, 0x00, 0x11, 0x11, 0x77 ^ 0x07 ^ 0x70 ^ 0x15 ^ 0x57]]);
    let use_only = VibrationSettings::new(false, true, false, false).build_update_commands(DeviceModel::IlumaOne).unwrap();
    assert_eq!(use_only, vec![vec![0x00, 0xC9, 0x44, 0x23, 0x10, 0x00, 0x10, 0x00, 0x77 ^ 0x57]]);
}

#[test]
fn vibration_write_reads_back() {
    for bits in 0u8..16 {
        let settings = VibrationSettings::new(bits & 1 != 0, bits & 2 != 0, bits & 4 != 0, bits & 8 != 0);
        let command = settings.build_update_commands(DeviceModel::IlumaIOne).unwrap().remove(0);
        let response = [0x00, 0x08, 0x84, 0x23, 0x10, 0x00, command[6], command[7], 0x00];
        assert_eq!(VibrationSettings::from_response(&response, DeviceModel::IlumaIOne).unwrap(), settings);
    }
}

#[test]
fn observed_charge_start_and_getters() {
    let settings = VibrationSettings::new(true, false, true, false).with_observed_charge_start(true);
    assert_eq!(settings, VibrationSettings::with_charge_start(true, false, true, false, true));
    assert_eq!(settings.when_charging_start(), Some(true));
    assert!(settings.when_heating_start());
    assert!(!settings.when_starting_to_use());
    assert!(settings.when_puff_end());
    assert!(!settings.when_manually_terminated());
    let mut other = [0u8; 19];
    other[8] = 0x01;
    assert!(VibrationSettings::charge_start_from_response(&other).unwrap());
    other[8] = 0x00;
    assert!(!VibrationSettings::charge_start_from_response(&other).unwrap());
    assert!(VibrationSettings::charge_start_from_response(&other[..18]).is_err());
}

#[test]
fn vibration_checksum_follows_the_flag_terms() {
    let checksum = |settings: VibrationSettings| {
        settings.build_update_commands(DeviceModel::IlumaOne).unwrap()[0][8]
    };
    assert_eq!(checksum(VibrationSettings::new(false, false, false, false)), 0x77);
    assert_eq!(checksum(VibrationSettings::new(true, false, false, false)), 0x62);
    assert_eq!(checksum(VibrationSettings::new(true, false, true, false)), 0x65);
    assert_eq!(checksum(VibrationSettings::new(true, true, true, true)), 0x77 ^ 0x07 ^ 0x70 ^ 0x15 ^ 0x57);
}

#[test]
fn vibration_checksum_ignores_other_bits() {
    assert_eq!(vibration_checksum(0x0101), 0x65);
    assert_eq!(vibration_checksum(0x0100), 0x62);
    assert_eq!(vibration_checksum(0x0000), 0x77);
    assert_eq!(vibration_checksum(0x1111), 0x77 ^ 0x07 ^ 0x70 ^ 0x15 ^ 0x57);
    assert_eq!(vibration_checksum(0xEEEE), 0x77);
}
