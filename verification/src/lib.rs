//! Library for controlling IQOS devices: protocol command builders, response
//! parsers, typed domain values, and the request/send logic of the device
//! operations, with the transport left to the caller.

pub mod cli;
pub mod device;
pub mod error;
pub mod exercise;
pub mod operations;
pub mod probe;
pub mod scan;
pub mod protocol;
pub mod session;
pub mod snapshot;
pub mod text;
pub mod transport;
pub mod transports;

pub use device::Iqos;
pub use error::Error;
pub use snapshot::DeviceStatus;
pub use protocol::{
    BrightnessLevel, DeviceCapability, DeviceInfo, DeviceModel, DiagnosticData, FirmwareKind,
    FirmwareVersion, FlexBatteryMode, FlexBatterySettings, FlexPuffSetting, VibrationSettings,
};
pub use transport::TransportKind;
