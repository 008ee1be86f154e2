//! Brightness commands and response parsing.

use vstd::prelude::*;

use crate::error::{decode_error, decodes_as, Error};
use crate::text::{equals_lowercased, trimmed, trimmed_equals_lowercased};

verus! {

/// Command used to request the current brightness configuration.
pub const LOAD_BRIGHTNESS_COMMAND: [u8; 5] = [0x00, 0xC0, 0x02, 0x23, 0xC3];

/// First command of the write sequence that switches brightness to `High`.
pub const SET_BRIGHTNESS_HIGH_COMMAND: [u8; 9] = [0x00, 0xC0, 0x46, 0x23, 0x64, 0x00, 0x00, 0x00, 0x4F];

/// Last command of the write sequence that switches brightness to `High`.
pub const CONFIRM_BRIGHTNESS_HIGH_COMMAND: [u8; 9] = [0x00, 0xC9, 0x44, 0x24, 0x64, 0x00, 0x00, 0x00, 0x34];

/// First command of the write sequence that switches brightness to `Low`.
pub const SET_BRIGHTNESS_LOW_COMMAND: [u8; 9] = [0x00, 0xC0, 0x46, 0x23, 0x1E, 0x00, 0x00, 0x00, 0xE1];

/// Last command of the write sequence that switches brightness to `Low`.
pub const CONFIRM_BRIGHTNESS_LOW_COMMAND: [u8; 9] = [0x00, 0xC9, 0x44, 0x24, 0x1E, 0x00, 0x00, 0x00, 0x9A];

/// Brightness setting supported by IQOS devices that expose LED brightness control.
#[derive(Debug, Clone, Copy, PartialEq, Eq, Structural)]
pub enum BrightnessLevel {
    /// High brightness.
    High,
    /// Low brightness.
    Low,
}

/// The level that a brightness flag byte stands for.
pub open spec fn brightness_for_flag(flag: u8) -> Option<BrightnessLevel> {
    if flag == 0x64 {
        Some(BrightnessLevel::High)
    } else if flag == 0x1E {
        Some(BrightnessLevel::Low)
    } else {
        None
    }
}

/// The four header bytes of a brightness response.
pub open spec fn brightness_header(b: Seq<u8>) -> bool {
    b[0] == 0x00 && b[1] == 0xC0 && b[2] == 0x86 && b[3] == 0x23
}

/// What a brightness response decodes to: a frame of at least 9 bytes with
/// header `00 C0 86 23` decodes through its flag byte (byte 4).
pub open spec fn brightness_decoding(b: Seq<u8>) -> Result<BrightnessLevel, Seq<char>> {
    if b.len() < 9 {
        Err("invalid brightness response: frame too short"@)
    } else if !brightness_header(b) {
        Err("invalid brightness response: header mismatch"@)
    } else {
        match brightness_for_flag(b[4]) {
            Some(level) => Ok(level),
            None => Err("invalid brightness response: unknown level flag"@),
        }
    }
}

/// What a brightness label decodes to: the text, trimmed of surrounding
/// whitespace and lower-cased on ASCII letters, must be `high` or `low`.
pub open spec fn label_decoding(s: Seq<char>) -> Result<BrightnessLevel, Seq<char>> {
    if equals_lowercased(trimmed(s), "high"@) {
        Ok(BrightnessLevel::High)
    } else if equals_lowercased(trimmed(s), "low"@) {
        Ok(BrightnessLevel::Low)
    } else {
        Err("invalid brightness level string"@)
    }
}

impl BrightnessLevel {
    /// The flag byte that stands for this level, in both commands and responses.
    pub open spec fn spec_flag(self) -> u8 {
        match self {
            BrightnessLevel::High => 0x64,
            BrightnessLevel::Low => 0x1E,
        }
    }

    /// The three-command write sequence for this level.
    pub open spec fn spec_write_commands(self) -> Seq<Seq<u8>> {
        match self {
            BrightnessLevel::High => seq![
                SET_BRIGHTNESS_HIGH_COMMAND@,
                LOAD_BRIGHTNESS_COMMAND@,
                CONFIRM_BRIGHTNESS_HIGH_COMMAND@,
            ],
            BrightnessLevel::Low => seq![
                SET_BRIGHTNESS_LOW_COMMAND@,
                LOAD_BRIGHTNESS_COMMAND@,
                CONFIRM_BRIGHTNESS_LOW_COMMAND@,
            ],
        }
    }

    /// The lowercase label of this level.
    pub open spec fn spec_label(self) -> Seq<char> {
        match self {
            BrightnessLevel::High => "high"@,
            BrightnessLevel::Low => "low"@,
        }
    }

    /// Parse a brightness level from a protocol response frame: `0x64` in
    /// byte 4 is `High`, `0x1E` is `Low`.
    pub fn from_response(bytes: &[u8]) -> (r: Result<Self, Error>)
        ensures
            decodes_as(r, brightness_decoding(bytes@)),
    {
        if bytes.len() < 9 {
            return Err(decode_error("invalid brightness response: frame too short"));
        }
        if bytes[0] != 0x00 || bytes[1] != 0xC0 || bytes[2] != 0x86 || bytes[3] != 0x23 {
            return Err(decode_error("invalid brightness response: header mismatch"));
        }
        match bytes[4] {
            0x64 => Ok(BrightnessLevel::High),
            0x1E => Ok(BrightnessLevel::Low),
            _ => Err(decode_error("invalid brightness response: unknown level flag")),
        }
    }

    /// Return the write sequence required to set this brightness level: the
    /// set command, the load command, and the confirmation command.
    pub fn write_commands(self) -> (r: [&'static [u8]; 3])
        ensures
            r@.map_values(|c: &[u8]| c@) == self.spec_write_commands(),
    {
        let r: [&'static [u8]; 3] = match self {
            BrightnessLevel::High => [
                &SET_BRIGHTNESS_HIGH_COMMAND,
                &LOAD_BRIGHTNESS_COMMAND,
                &CONFIRM_BRIGHTNESS_HIGH_COMMAND,
            ],
            BrightnessLevel::Low => [
                &SET_BRIGHTNESS_LOW_COMMAND,
                &LOAD_BRIGHTNESS_COMMAND,
                &CONFIRM_BRIGHTNESS_LOW_COMMAND,
            ],
        };
        assert(r@.map_values(|c: &[u8]| c@) =~= self.spec_write_commands());
        r
    }

    /// Parse a brightness level from its label, ignoring surrounding
    /// whitespace and ASCII case.
    pub fn from_label(value: &str) -> (r: Result<Self, Error>)
        ensures
            decodes_as(r, label_decoding(value@)),
    {
        if trimmed_equals_lowercased(value, "high") {
            Ok(BrightnessLevel::High)
        } else if trimmed_equals_lowercased(value, "low") {
            Ok(BrightnessLevel::Low)
        } else {
            Err(decode_error("invalid brightness level string"))
        }
    }

    /// Return the user-facing lowercase label.
    pub fn as_str(self) -> (r: &'static str)
        ensures
            r@ == self.spec_label(),
    {
        match self {
            BrightnessLevel::High => "high",
            BrightnessLevel::Low => "low",
        }
    }
}

/// Reading back a write: a brightness response that reports the flag byte
/// written by a level's set command decodes to that level.
pub proof fn law_brightness_read_back(level: BrightnessLevel, response: Seq<u8>)
    requires
        response.len() >= 9,
        brightness_header(response),
        response[4] == level.spec_write_commands()[0][4],
    ensures
        brightness_decoding(response) == Ok::<BrightnessLevel, Seq<char>>(level),
{
}

impl core::str::FromStr for BrightnessLevel {
    type Err = Error;

    /// Parse a brightness level from its label; see [`BrightnessLevel::from_label`].
    fn from_str(value: &str) -> (r: Result<Self, Error>)
        ensures
            decodes_as(r, label_decoding(value@)),
    {
        BrightnessLevel::from_label(value)
    }
}

} // verus!
