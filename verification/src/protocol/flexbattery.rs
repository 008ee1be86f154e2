//! `FlexBattery` and Pause Mode commands and response parsing.

use vstd::prelude::*;

use crate::error::{decode_error, decodes_as, fails_decoding, Error};
use crate::protocol::gesture::{setting_header, toggle_state};

verus! {

/// Command used to request the current `FlexBattery` mode.
pub const LOAD_FLEXBATTERY_COMMAND: [u8; 5] = [0x00, 0xC9, 0x00, 0x25, 0xFB];

/// Command used to request the current Pause Mode setting.
pub const LOAD_PAUSEMODE_COMMAND: [u8; 9] = [0x00, 0xC9, 0x07, 0x24, 0x02, 0x00, 0x00, 0x00, 0x18];

/// First command in the `FlexBattery` Eco mode set sequence.
pub const FLEXBATTERY_ECO_SET_COMMAND: [u8; 9] = [0x00, 0xC9, 0x44, 0x25, 0x01, 0x00, 0x00, 0x00, 0x4D];

/// First command in the `FlexBattery` Performance mode set sequence.
pub const FLEXBATTERY_PERFORMANCE_SET_COMMAND: [u8; 9] = [
    0x00,
    0xC9,
    0x44,
    0x25,
    0x00,
    0x00,
    0x00,
    0x00,
    0x5B,
];

/// First command in the Pause Mode enable set sequence.
pub const PAUSEMODE_ENABLE_SET_COMMAND: [u8; 9] = [0x00, 0xC9, 0x47, 0x24, 0x02, 0x01, 0x00, 0x00, 0x05];

/// First command in the Pause Mode disable set sequence.
pub const PAUSEMODE_DISABLE_SET_COMMAND: [u8; 9] = [0x00, 0xC9, 0x47, 0x24, 0x02, 0x00, 0x00, 0x00, 0x6E];

/// `FlexBattery` operating mode, supported on IQOS ILUMA i holder-based models.
#[derive(Debug, Clone, Copy, PartialEq, Eq, Structural)]
pub enum FlexBatteryMode {
    /// Standard Performance mode (the default).
    Performance,
    /// Eco mode, which extends battery life.
    Eco,
}

impl Default for FlexBatteryMode {
    fn default() -> (r: Self)
        ensures
            r == FlexBatteryMode::Performance,
    {
        FlexBatteryMode::Performance
    }
}

/// The four header bytes of a `FlexBattery` response.
pub open spec fn flexbattery_header(b: Seq<u8>) -> bool {
    b[0] == 0x00 && b[1] == 0x08 && b[2] == 0x84 && b[3] == 0x25
}

/// The mode that a `FlexBattery` mode byte stands for.
pub open spec fn mode_for_byte(flag: u8) -> Option<FlexBatteryMode> {
    if flag == 0x00 {
        Some(FlexBatteryMode::Performance)
    } else if flag == 0x01 {
        Some(FlexBatteryMode::Eco)
    } else {
        None
    }
}

/// The Pause Mode write command for the given state.
pub open spec fn spec_pausemode_command(enabled: bool) -> Seq<u8> {
    if enabled {
        PAUSEMODE_ENABLE_SET_COMMAND@
    } else {
        PAUSEMODE_DISABLE_SET_COMMAND@
    }
}

/// What a `FlexBattery` response decodes to: a frame of at least 9 bytes
/// with header `00 08 84 25` decodes through byte 4.
pub open spec fn flexbattery_decoding(b: Seq<u8>) -> Result<FlexBatteryMode, Seq<char>> {
    if b.len() < 9 {
        Err("invalid FlexBattery response: frame too short"@)
    } else if !flexbattery_header(b) {
        Err("invalid FlexBattery response: header mismatch"@)
    } else {
        match mode_for_byte(b[4]) {
            Some(mode) => Ok(mode),
            None => Err("invalid FlexBattery response: unknown mode byte"@),
        }
    }
}

/// What a Pause Mode response decodes to: a frame of at least 9 bytes with
/// header `00 08 87 24` decodes through byte 5.
pub open spec fn pausemode_decoding(b: Seq<u8>) -> Result<bool, Seq<char>> {
    if b.len() < 9 {
        Err("invalid Pause Mode response: frame too short"@)
    } else if !setting_header(b) {
        Err("invalid Pause Mode response: header mismatch"@)
    } else {
        match toggle_state(b[5]) {
            Some(on) => Ok(on),
            None => Err("invalid Pause Mode response: unknown flag byte"@),
        }
    }
}

impl FlexBatteryMode {
    /// The first command of the two-step write sequence for this mode.
    pub open spec fn spec_write_command(self) -> Seq<u8> {
        match self {
            FlexBatteryMode::Performance => FLEXBATTERY_PERFORMANCE_SET_COMMAND@,
            FlexBatteryMode::Eco => FLEXBATTERY_ECO_SET_COMMAND@,
        }
    }

    /// Parse a `FlexBatteryMode` from a protocol response frame: `0x00` in
    /// byte 4 is Performance, `0x01` is Eco.
    pub fn from_response(bytes: &[u8]) -> (r: Result<Self, Error>)
        ensures
            decodes_as(r, flexbattery_decoding(bytes@)),
    {
        if bytes.len() < 9 {
            return Err(decode_error("invalid FlexBattery response: frame too short"));
        }
        if bytes[0] != 0x00 || bytes[1] != 0x08 || bytes[2] != 0x84 || bytes[3] != 0x25 {
            return Err(decode_error("invalid FlexBattery response: header mismatch"));
        }
        match bytes[4] {
            0x00 => Ok(FlexBatteryMode::Performance),
            0x01 => Ok(FlexBatteryMode::Eco),
            _ => Err(decode_error("invalid FlexBattery response: unknown mode byte")),
        }
    }

    /// Return the write command for this mode.
    ///
    /// This is the first command of the two-step write sequence; the caller
    /// follows it with [`LOAD_FLEXBATTERY_COMMAND`].
    pub fn write_command(self) -> (r: &'static [u8])
        ensures
            r@ == self.spec_write_command(),
    {
        match self {
            FlexBatteryMode::Performance => &FLEXBATTERY_PERFORMANCE_SET_COMMAND,
            FlexBatteryMode::Eco => &FLEXBATTERY_ECO_SET_COMMAND,
        }
    }
}

/// `FlexBattery` settings: operating mode and optional Pause Mode flag.
#[derive(Debug, Clone, Copy, PartialEq, Eq, Structural)]
pub struct FlexBatterySettings {
    mode: FlexBatteryMode,
    pause_mode: Option<bool>,
}

impl View for FlexBatterySettings {
    type V = (FlexBatteryMode, Option<bool>);

    /// The mode and the Pause Mode state.
    closed spec fn view(&self) -> (FlexBatteryMode, Option<bool>) {
        (self.mode, self.pause_mode)
    }
}

/// Parse a Pause Mode state from a protocol response frame: `0x01` in byte 5
/// is on, `0x00` is off.
pub fn pausemode_from_response(bytes: &[u8]) -> (r: Result<bool, Error>)
    ensures
        decodes_as(r, pausemode_decoding(bytes@)),
{
    if bytes.len() < 9 {
        return Err(decode_error("invalid Pause Mode response: frame too short"));
    }
    if bytes[0] != 0x00 || bytes[1] != 0x08 || bytes[2] != 0x87 || bytes[3] != 0x24 {
        return Err(decode_error("invalid Pause Mode response: header mismatch"));
    }
    match bytes[5] {
        0x00 => Ok(false),
        0x01 => Ok(true),
        _ => Err(decode_error("invalid Pause Mode response: unknown flag byte")),
    }
}

/// Return the Pause Mode write command for the requested state.
///
/// This is the first command of the two-step write sequence; the caller
/// follows it with [`LOAD_PAUSEMODE_COMMAND`].
pub fn pausemode_command(enabled: bool) -> (r: &'static [u8])
    ensures
        r@ == spec_pausemode_command(enabled),
{
    if enabled {
        &PAUSEMODE_ENABLE_SET_COMMAND
    } else {
        &PAUSEMODE_DISABLE_SET_COMMAND
    }
}

impl FlexBatterySettings {
    /// Two settings with the same mode and Pause Mode state are the same.
    pub broadcast proof fn lemma_view_injective(a: Self, b: Self)
        ensures
            #[trigger] a@ == #[trigger] b@ <==> a == b,
    {
    }

    /// Create `FlexBatterySettings` with the given mode and optional Pause Mode state.
    pub fn new(mode: FlexBatteryMode, pause_mode: Option<bool>) -> (r: Self)
        ensures
            r@ == (mode, pause_mode),
    {
        FlexBatterySettings { mode, pause_mode }
    }

    /// Return the `FlexBattery` operating mode.
    pub fn mode(self) -> (r: FlexBatteryMode)
        ensures
            r == self@.0,
    {
        self.mode
    }

    /// Return the Pause Mode state if available.
    pub fn pause_mode(self) -> (r: Option<bool>)
        ensures
            r == self@.1,
    {
        self.pause_mode
    }

    /// Parse `FlexBatterySettings` from a mode response frame and a Pause Mode
    /// response frame: the mode frame is decoded first, and its error wins.
    pub fn from_responses(mode_bytes: &[u8], pause_bytes: &[u8]) -> (r: Result<Self, Error>)
        ensures
            match (flexbattery_decoding(mode_bytes@), pausemode_decoding(pause_bytes@)) {
                (Err(m), _) => fails_decoding(r, m),
                (Ok(_), Err(m)) => fails_decoding(r, m),
                (Ok(mode), Ok(pause)) => r matches Ok(s) && s@ == (mode, Some(pause)),
            },
    {
        Ok(FlexBatterySettings {
            mode: FlexBatteryMode::from_response(mode_bytes)?,
            pause_mode: Some(pausemode_from_response(pause_bytes)?),
        })
    }
}

/// Reading back a write: a `FlexBattery` response that reports the mode byte
/// written by a mode's set command decodes to that mode.
pub proof fn law_flexbattery_read_back(mode: FlexBatteryMode, response: Seq<u8>)
    requires
        response.len() >= 9,
        flexbattery_header(response),
        response[4] == mode.spec_write_command()[4],
    ensures
        flexbattery_decoding(response) == Ok::<FlexBatteryMode, Seq<char>>(mode),
{
}

/// Reading back a write: a Pause Mode response that reports the flag byte
/// written by the Pause Mode command for `enabled` decodes to `enabled`.
pub proof fn law_pausemode_read_back(enabled: bool, response: Seq<u8>)
    requires
        response.len() >= 9,
        setting_header(response),
        response[5] == spec_pausemode_command(enabled)[5],
    ensures
        pausemode_decoding(response) == Ok::<bool, Seq<char>>(enabled),
{
}

} // verus!
