//! Backend transport implementations.

pub mod ble_btleplug;
