//! Smart Gesture and Auto Start commands and response parsing.

use vstd::prelude::*;

use crate::error::{decode_error, decodes_as, Error};

verus! {

/// Command used to enable Smart Gesture.
pub const SMARTGESTURE_ENABLE_COMMAND: [u8; 9] = [0x00, 0xC9, 0x47, 0x24, 0x04, 0x01, 0x00, 0x00, 0x3C];

/// Command used to disable Smart Gesture.
pub const SMARTGESTURE_DISABLE_COMMAND: [u8; 9] = [0x00, 0xC9, 0x47, 0x24, 0x04, 0x00, 0x00, 0x00, 0x57];

/// Command used to enable Auto Start.
pub const AUTOSTART_ENABLE_COMMAND: [u8; 9] = [0x00, 0xC9, 0x47, 0x24, 0x01, 0x01, 0x00, 0x00, 0x3F];

/// Command used to disable Auto Start.
pub const AUTOSTART_DISABLE_COMMAND: [u8; 9] = [0x00, 0xC9, 0x47, 0x24, 0x01, 0x00, 0x00, 0x00, 0x54];

/// Command used to request the current Auto Start setting.
///
/// Experimental: derived from packet capture, not verified on hardware.
pub const LOAD_AUTOSTART_COMMAND: [u8; 9] = [0x00, 0xC9, 0x07, 0x24, 0x01, 0x00, 0x00, 0x00, 0x22];

/// The Smart Gesture write command for the given state.
pub open spec fn spec_smartgesture_command(enabled: bool) -> Seq<u8> {
    if enabled {
        SMARTGESTURE_ENABLE_COMMAND@
    } else {
        SMARTGESTURE_DISABLE_COMMAND@
    }
}

/// The Auto Start write command for the given state.
pub open spec fn spec_autostart_command(enabled: bool) -> Seq<u8> {
    if enabled {
        AUTOSTART_ENABLE_COMMAND@
    } else {
        AUTOSTART_DISABLE_COMMAND@
    }
}

/// The four header bytes shared by Auto Start and Pause Mode responses.
pub open spec fn setting_header(b: Seq<u8>) -> bool {
    b[0] == 0x00 && b[1] == 0x08 && b[2] == 0x87 && b[3] == 0x24
}

/// The state that a setting flag byte stands for: `0x01` on, `0x00` off.
pub open spec fn toggle_state(flag: u8) -> Option<bool> {
    if flag == 0x00 {
        Some(false)
    } else if flag == 0x01 {
        Some(true)
    } else {
        None
    }
}

/// What an Auto Start response decodes to: a frame of at least 9 bytes with
/// header `00 08 87 24` and setting ID `0x01` (byte 4) decodes through byte 5.
pub open spec fn autostart_decoding(b: Seq<u8>) -> Result<bool, Seq<char>> {
    if b.len() < 9 {
        Err("invalid Auto Start response: frame too short"@)
    } else if !setting_header(b) {
        Err("invalid Auto Start response: header mismatch"@)
    } else if b[4] != 0x01 {
        Err("invalid Auto Start response: setting ID mismatch"@)
    } else {
        match toggle_state(b[5]) {
            Some(on) => Ok(on),
            None => Err("invalid Auto Start response: unknown flag byte"@),
        }
    }
}

/// Return the Smart Gesture write command for the requested enabled state.
pub fn smartgesture_command(enabled: bool) -> (r: &'static [u8])
    ensures
        r@ == spec_smartgesture_command(enabled),
{
    if enabled {
        &SMARTGESTURE_ENABLE_COMMAND
    } else {
        &SMARTGESTURE_DISABLE_COMMAND
    }
}

/// Return the Auto Start write command for the requested enabled state.
pub fn autostart_command(enabled: bool) -> (r: &'static [u8])
    ensures
        r@ == spec_autostart_command(enabled),
{
    if enabled {
        &AUTOSTART_ENABLE_COMMAND
    } else {
        &AUTOSTART_DISABLE_COMMAND
    }
}

/// Parse Auto Start state from a protocol response frame: `0x01` in byte 5
/// is on, `0x00` is off.
pub fn autostart_from_response(bytes: &[u8]) -> (r: Result<bool, Error>)
    ensures
        decodes_as(r, autostart_decoding(bytes@)),
{
    if bytes.len() < 9 {
        return Err(decode_error("invalid Auto Start response: frame too short"));
    }
    if bytes[0] != 0x00 || bytes[1] != 0x08 || bytes[2] != 0x87 || bytes[3] != 0x24 {
        return Err(decode_error("invalid Auto Start response: header mismatch"));
    }
    if bytes[4] != 0x01 {
        return Err(decode_error("invalid Auto Start response: setting ID mismatch"));
    }
    match bytes[5] {
        0x00 => Ok(false),
        0x01 => Ok(true),
        _ => Err(decode_error("invalid Auto Start response: unknown flag byte")),
    }
}

/// Reading back a write: an Auto Start response that reports the setting ID
/// and flag byte written by the Auto Start command for `enabled` decodes to
/// `enabled`.
pub proof fn law_autostart_read_back(enabled: bool, response: Seq<u8>)
    requires
        response.len() >= 9,
        setting_header(response),
        response[4] == spec_autostart_command(enabled)[4],
        response[5] == spec_autostart_command(enabled)[5],
    ensures
        autostart_decoding(response) == Ok::<bool, Seq<char>>(enabled),
{
}

} // verus!
