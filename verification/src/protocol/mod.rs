//! Protocol-layer command builders, response parsers, and typed domain values
//! for the IQOS device family.

pub mod ble;
pub mod brightness;
pub mod commands;
pub mod diagnosis;
pub mod firmware;
pub mod flexbattery;
pub mod flexpuff;
pub mod gesture;
pub mod lock;
pub mod product;
pub mod responses;
pub mod types;
pub mod vibration;

pub use ble::{
    DeviceInfo, MANUFACTURER_NAME_CHAR_UUID_PREFIX, MODEL_NUMBER_CHAR_UUID_PREFIX,
    SERIAL_NUMBER_CHAR_UUID_PREFIX, SOFTWARE_REVISION_CHAR_UUID_PREFIX,
};
pub use brightness::{BrightnessLevel, LOAD_BRIGHTNESS_COMMAND};
pub use diagnosis::{
    all_diagnosis_commands, DiagnosticData, DiagnosticDataBuilder, LOAD_BATTERY_VOLTAGE_COMMAND,
    LOAD_TELEMETRY_COMMAND, LOAD_TIMESTAMP_COMMAND,
};
pub use firmware::{
    FirmwareKind, FirmwareVersion, LOAD_HOLDER_FIRMWARE_VERSION_COMMAND,
    LOAD_STICK_FIRMWARE_VERSION_COMMAND,
};
pub use flexbattery::{
    pausemode_command, pausemode_from_response, FlexBatteryMode, FlexBatterySettings,
    LOAD_FLEXBATTERY_COMMAND, LOAD_PAUSEMODE_COMMAND,
};
pub use flexpuff::{FlexPuffSetting, LOAD_FLEXPUFF_COMMAND};
pub use gesture::{
    autostart_command, autostart_from_response, smartgesture_command, LOAD_AUTOSTART_COMMAND,
};
pub use lock::{lock_commands, unlock_commands};
pub use product::{
    product_number_from_response, ProductNumberKind, HOLDER_PRODUCT_NUMBER_COMMAND,
    PRODUCT_NUMBER_COMMAND,
};
pub use types::{DeviceCapability, DeviceModel};
pub use vibration::{
    VibrationSettings, LOAD_VIBRATE_CHARGE_START_COMMAND, LOAD_VIBRATION_SETTINGS_COMMAND,
};
