//! Standard BLE device-information characteristics and the snapshot built
//! from them.

use vstd::prelude::*;

use crate::text::same_text;

verus! {

/// Standard GATT model number characteristic short UUID.
pub const MODEL_NUMBER_CHAR_UUID_PREFIX: &'static str = "00002a24";

/// Standard GATT serial number characteristic short UUID.
pub const SERIAL_NUMBER_CHAR_UUID_PREFIX: &'static str = "00002a25";

/// Standard GATT software revision characteristic short UUID.
pub const SOFTWARE_REVISION_CHAR_UUID_PREFIX: &'static str = "00002a28";

/// Standard GATT manufacturer name characteristic short UUID.
pub const MANUFACTURER_NAME_CHAR_UUID_PREFIX: &'static str = "00002a29";

/// Snapshot of standard BLE device-information fields.
#[derive(Debug, Clone, PartialEq, Eq)]
pub struct DeviceInfo {
    /// Standard model-number string.
    pub model_number: Option<String>,
    /// Standard serial-number string.
    pub serial_number: Option<String>,
    /// Standard software-revision string.
    pub software_revision: Option<String>,
    /// Standard manufacturer-name string.
    pub manufacturer_name: Option<String>,
}

impl Default for DeviceInfo {
    fn default() -> (r: Self)
        ensures
            r.model_number is None,
            r.serial_number is None,
            r.software_revision is None,
            r.manufacturer_name is None,
    {
        DeviceInfo {
            model_number: None,
            serial_number: None,
            software_revision: None,
            manufacturer_name: None,
        }
    }
}

impl DeviceInfo {
    /// Record the value read from the characteristic whose UUID starts with
    /// `uuid_prefix` (the part before the first `-`): model number, serial
    /// number, software revision, or manufacturer name. Values of any other
    /// characteristic are ignored.
    pub fn record(&mut self, uuid_prefix: &str, value: String)
        ensures
            uuid_prefix@ == MODEL_NUMBER_CHAR_UUID_PREFIX@ ==> final(self).model_number
                == Some(value) && final(self).serial_number == old(self).serial_number
                && final(self).software_revision == old(self).software_revision
                && final(self).manufacturer_name == old(self).manufacturer_name,
            uuid_prefix@ == SERIAL_NUMBER_CHAR_UUID_PREFIX@ ==> final(self).serial_number
                == Some(value) && final(self).model_number == old(self).model_number
                && final(self).software_revision == old(self).software_revision
                && final(self).manufacturer_name == old(self).manufacturer_name,
            uuid_prefix@ == SOFTWARE_REVISION_CHAR_UUID_PREFIX@ ==> final(self).software_revision
                == Some(value) && final(self).model_number == old(self).model_number
                && final(self).serial_number == old(self).serial_number
                && final(self).manufacturer_name == old(self).manufacturer_name,
            uuid_prefix@ == MANUFACTURER_NAME_CHAR_UUID_PREFIX@ ==> final(self).manufacturer_name
                == Some(value) && final(self).model_number == old(self).model_number
                && final(self).serial_number == old(self).serial_number
                && final(self).software_revision == old(self).software_revision,
            uuid_prefix@ != MODEL_NUMBER_CHAR_UUID_PREFIX@ && uuid_prefix@
                != SERIAL_NUMBER_CHAR_UUID_PREFIX@ && uuid_prefix@
                != SOFTWARE_REVISION_CHAR_UUID_PREFIX@ && uuid_prefix@
                != MANUFACTURER_NAME_CHAR_UUID_PREFIX@ ==> *final(self) == *old(self),
    {
        proof {
            reveal_strlit("00002a24");
            reveal_strlit("00002a25");
            reveal_strlit("00002a28");
            reveal_strlit("00002a29");
            assert(MODEL_NUMBER_CHAR_UUID_PREFIX@[7] != SERIAL_NUMBER_CHAR_UUID_PREFIX@[7]);
            assert(MODEL_NUMBER_CHAR_UUID_PREFIX@[7] != SOFTWARE_REVISION_CHAR_UUID_PREFIX@[7]);
            assert(MODEL_NUMBER_CHAR_UUID_PREFIX@[7] != MANUFACTURER_NAME_CHAR_UUID_PREFIX@[7]);
            assert(SERIAL_NUMBER_CHAR_UUID_PREFIX@[7] != SOFTWARE_REVISION_CHAR_UUID_PREFIX@[7]);
            assert(SERIAL_NUMBER_CHAR_UUID_PREFIX@[7] != MANUFACTURER_NAME_CHAR_UUID_PREFIX@[7]);
            assert(SOFTWARE_REVISION_CHAR_UUID_PREFIX@[7] != MANUFACTURER_NAME_CHAR_UUID_PREFIX@[7]);
        }
        if same_text(uuid_prefix, MODEL_NUMBER_CHAR_UUID_PREFIX) {
            self.model_number = Some(value);
        } else if same_text(uuid_prefix, SERIAL_NUMBER_CHAR_UUID_PREFIX) {
            self.serial_number = Some(value);
        } else if same_text(uuid_prefix, SOFTWARE_REVISION_CHAR_UUID_PREFIX) {
            self.software_revision = Some(value);
        } else if same_text(uuid_prefix, MANUFACTURER_NAME_CHAR_UUID_PREFIX) {
            self.manufacturer_name = Some(value);
        }
    }
}

} // verus!
