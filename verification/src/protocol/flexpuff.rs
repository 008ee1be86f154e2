//! `FlexPuff` commands and response parsing.

use vstd::prelude::*;

use crate::error::{decode_error, fails_decoding, Error};

verus! {

/// Command used to request the current `FlexPuff` setting.
pub const LOAD_FLEXPUFF_COMMAND: [u8; 9] = [0x00, 0xD2, 0x05, 0x22, 0x03, 0x00, 0x00, 0x00, 0x17];

/// Command used to enable `FlexPuff`.
pub const FLEXPUFF_ENABLE_COMMAND: [u8; 9] = [0x00, 0xD2, 0x45, 0x22, 0x03, 0x01, 0x00, 0x00, 0x0A];

/// Command used to disable `FlexPuff`.
pub const FLEXPUFF_DISABLE_COMMAND: [u8; 9] = [0x00, 0xD2, 0x45, 0x22, 0x03, 0x00, 0x00, 0x00, 0x0A];

/// `FlexPuff` enabled/disabled setting.
///
/// `FlexPuff` is available on IQOS ILUMA i and ILUMA i PRIME and adjusts puff
/// resistance feedback.
#[derive(Debug, Clone, Copy, PartialEq, Eq, Structural)]
pub struct FlexPuffSetting {
    enabled: bool,
}

impl View for FlexPuffSetting {
    type V = bool;

    /// Whether `FlexPuff` is enabled.
    closed spec fn view(&self) -> bool {
        self.enabled
    }
}

/// The five header bytes of a `FlexPuff` response.
pub open spec fn flexpuff_header(b: Seq<u8>) -> bool {
    b[0] == 0x00 && b[1] == 0x90 && b[2] == 0x85 && b[3] == 0x22 && b[4] == 0x03
}

/// The state that a `FlexPuff` flag byte stands for.
pub open spec fn flag_state(flag: u8) -> Option<bool> {
    if flag == 0x01 {
        Some(true)
    } else if flag == 0x00 {
        Some(false)
    } else {
        None
    }
}

/// The write command for the given `FlexPuff` state.
pub open spec fn flexpuff_write_command(enabled: bool) -> Seq<u8> {
    if enabled {
        FLEXPUFF_ENABLE_COMMAND@
    } else {
        FLEXPUFF_DISABLE_COMMAND@
    }
}

/// What a `FlexPuff` response decodes to (the enabled state): a frame of at
/// least 9 bytes with header `00 90 85 22 03` decodes through byte 5.
pub open spec fn flexpuff_decoding(b: Seq<u8>) -> Result<bool, Seq<char>> {
    if b.len() < 9 {
        Err("invalid FlexPuff response: frame too short"@)
    } else if !flexpuff_header(b) {
        Err("invalid FlexPuff response: header mismatch"@)
    } else {
        match flag_state(b[5]) {
            Some(enabled) => Ok(enabled),
            None => Err("invalid FlexPuff response: unknown flag byte"@),
        }
    }
}

impl FlexPuffSetting {
    /// Two settings with the same state are the same setting.
    pub broadcast proof fn lemma_view_injective(a: Self, b: Self)
        ensures
            #[trigger] a@ == #[trigger] b@ <==> a == b,
    {
    }

    /// Create a `FlexPuffSetting` with the given enabled state.
    pub fn new(enabled: bool) -> (r: Self)
        ensures
            r@ == enabled,
    {
        FlexPuffSetting { enabled }
    }

    /// Return whether `FlexPuff` is enabled.
    pub fn is_enabled(self) -> (r: bool)
        ensures
            r == self@,
    {
        self.enabled
    }

    /// Parse a `FlexPuffSetting` from a protocol response frame: `0x01` in
    /// byte 5 is enabled, `0x00` is disabled.
    pub fn from_response(bytes: &[u8]) -> (r: Result<Self, Error>)
        ensures
            match flexpuff_decoding(bytes@) {
                Ok(enabled) => r matches Ok(s) && s@ == enabled,
                Err(m) => fails_decoding(r, m),
            },
    {
        if bytes.len() < 9 {
            return Err(decode_error("invalid FlexPuff response: frame too short"));
        }
        if bytes[0] != 0x00 || bytes[1] != 0x90 || bytes[2] != 0x85 || bytes[3] != 0x22 || bytes[4]
            != 0x03 {
            return Err(decode_error("invalid FlexPuff response: header mismatch"));
        }
        match bytes[5] {
            0x01 => Ok(FlexPuffSetting { enabled: true }),
            0x00 => Ok(FlexPuffSetting { enabled: false }),
            _ => Err(decode_error("invalid FlexPuff response: unknown flag byte")),
        }
    }

    /// Return the write command for this setting.
    pub fn write_command(self) -> (r: &'static [u8])
        ensures
            r@ == flexpuff_write_command(self@),
    {
        if self.enabled {
            &FLEXPUFF_ENABLE_COMMAND
        } else {
            &FLEXPUFF_DISABLE_COMMAND
        }
    }
}

/// Reading back a write: a `FlexPuff` response that reports the flag byte
/// written by the write command for `enabled` decodes to `enabled`.
pub proof fn law_flexpuff_read_back(enabled: bool, response: Seq<u8>)
    requires
        response.len() >= 9,
        flexpuff_header(response),
        response[5] == flexpuff_write_command(enabled)[5],
    ensures
        flexpuff_decoding(response) == Ok::<bool, Seq<char>>(enabled),
{
}

} // verus!
