//! Vibration settings: commands, response parsing, and update sequences.

use vstd::prelude::*;
use vstd::slice::slice_to_vec;

use crate::error::{
    decode_error, decodes_as, encode_error, fails_encoding, fails_unsupported, unsupported_for_model,
    Error,
};
use crate::protocol::types::{DeviceCapability, DeviceModel};

verus! {

/// Command used to request the main vibration settings frame.
pub const LOAD_VIBRATION_SETTINGS_COMMAND: [u8; 5] = [0x00, 0xC9, 0x00, 0x23, 0xE9];

/// Command used to request the charge-start vibration setting on holder-based models.
pub const LOAD_VIBRATE_CHARGE_START_COMMAND: [u8; 9] = [
    0x00,
    0xC9,
    0x07,
    0x04,
    0x04,
    0x00,
    0x00,
    0x00,
    0x08,
];

/// Register flag: vibrate when heating starts.
pub const WHEN_HEATING_START_FLAG: u16 = 0x0100;

/// Register flag: vibrate when a session starts.
pub const WHEN_STARTING_TO_USE_FLAG: u16 = 0x1000;

/// Register flag: vibrate on manual termination.
pub const WHEN_MANUALLY_TERMINATED_FLAG: u16 = 0x0010;

/// Register flag: vibrate near puff end.
pub const WHEN_PUFF_END_FLAG: u16 = 0x0001;

/// The exact charge-start response that reports the setting as on.
pub const WHEN_CHARGE_START_ON_RESPONSE: [u8; 19] = [
    0x00,
    0x08,
    0x8B,
    0x04,
    0x04,
    0x00,
    0x00,
    0x00,
    0x00,
    0x00,
    0x00,
    0x00,
    0x00,
    0x00,
    0x00,
    0x00,
    0x00,
    0x00,
    0x56,
];

/// The exact charge-start response that reports the setting as off.
pub const WHEN_CHARGE_START_OFF_RESPONSE: [u8; 19] = [
    0x00,
    0x08,
    0x8B,
    0x04,
    0x04,
    0x00,
    0x00,
    0x00,
    0x00,
    0x09,
    0x00,
    0x00,
    0x00,
    0x00,
    0x00,
    0x00,
    0x00,
    0x00,
    0xEE,
];

/// First frame of the charge-start-on write sequence.
pub const CHARGE_START_ON_FRAME_1: [u8; 20] = [
    0x01,
    0xC9,
    0x4F,
    0x04,
    0x5B,
    0x04,
    0x00,
    0xFF,
    0xFF,
    0xFF,
    0x00,
    0x00,
    0x00,
    0x00,
    0x00,
    0x00,
    0x00,
    0x00,
    0x00,
    0x00,
];

/// Second frame of the charge-start-on write sequence.
pub const CHARGE_START_ON_FRAME_2: [u8; 10] = [0x00, 0x00, 0x00, 0x00, 0x00, 0x00, 0x00, 0x00, 0x00, 0x06];

/// Third frame of the charge-start-on write sequence.
pub const CHARGE_START_ON_FRAME_3: [u8; 20] = [
    0x01,
    0xC9,
    0x4F,
    0x04,
    0x72,
    0x05,
    0x00,
    0xFF,
    0xFF,
    0xFF,
    0x00,
    0x00,
    0x00,
    0x00,
    0x00,
    0x00,
    0x00,
    0x00,
    0x00,
    0x00,
];

/// Fourth frame of the charge-start-on write sequence.
pub const CHARGE_START_ON_FRAME_4: [u8; 10] = [0x00, 0x00, 0x00, 0x00, 0x00, 0x00, 0x00, 0x00, 0x00, 0x72];

/// First frame of the charge-start-off write sequence.
pub const CHARGE_START_OFF_FRAME_1: [u8; 20] = [
    0x01,
    0xC9,
    0x4F,
    0x04,
    0x64,
    0x04,
    0x00,
    0xFF,
    0xFF,
    0xFF,
    0x09,
    0x00,
    0x00,
    0x00,
    0x00,
    0x00,
    0x00,
    0x00,
    0x00,
    0x00,
];

/// Second frame of the charge-start-off write sequence.
pub const CHARGE_START_OFF_FRAME_2: [u8; 10] = [0x00, 0x00, 0x00, 0x00, 0x00, 0x00, 0x00, 0x00, 0x00, 0x0C];

/// Third frame of the charge-start-off write sequence.
pub const CHARGE_START_OFF_FRAME_3: [u8; 20] = [
    0x01,
    0xC9,
    0x4F,
    0x04,
    0x4D,
    0x05,
    0x00,
    0xFF,
    0xFF,
    0xFF,
    0x09,
    0x00,
    0x00,
    0x00,
    0x00,
    0x00,
    0x00,
    0x00,
    0x00,
    0x00,
];

/// Fourth frame of the charge-start-off write sequence.
pub const CHARGE_START_OFF_FRAME_4: [u8; 10] = [0x00, 0x00, 0x00, 0x00, 0x00, 0x00, 0x00, 0x00, 0x00, 0x78];

/// Commit frame shared by both charge-start write sequences.
pub const CHARGE_START_COMMIT_COMMAND: [u8; 9] = [0x00, 0xC9, 0x47, 0x04, 0x00, 0xFF, 0xFF, 0x00, 0xDA];

/// Final read-back frame shared by both charge-start write sequences.
pub const CHARGE_START_RELOAD_COMMAND: [u8; 9] = [0x00, 0xC9, 0x07, 0x04, 0x05, 0x00, 0x00, 0x00, 0x1E];

/// The seven-frame charge-start write sequence for the given state.
pub open spec fn charge_start_commands(on: bool) -> Seq<Seq<u8>> {
    if on {
        seq![
            CHARGE_START_ON_FRAME_1@,
            CHARGE_START_ON_FRAME_2@,
            CHARGE_START_ON_FRAME_3@,
            CHARGE_START_ON_FRAME_4@,
            CHARGE_START_COMMIT_COMMAND@,
            LOAD_VIBRATE_CHARGE_START_COMMAND@,
            CHARGE_START_RELOAD_COMMAND@,
        ]
    } else {
        seq![
            CHARGE_START_OFF_FRAME_1@,
            CHARGE_START_OFF_FRAME_2@,
            CHARGE_START_OFF_FRAME_3@,
            CHARGE_START_OFF_FRAME_4@,
            CHARGE_START_COMMIT_COMMAND@,
            LOAD_VIBRATE_CHARGE_START_COMMAND@,
            CHARGE_START_RELOAD_COMMAND@,
        ]
    }
}

/// The abstract content of a vibration configuration.
pub struct VibrationView {
    /// Vibrate when charging starts; `None` when unknown or not applicable.
    pub charge_start: Option<bool>,
    /// Vibrate when heating starts.
    pub heating_start: bool,
    /// Vibrate when a session starts.
    pub starting_to_use: bool,
    /// Vibrate near puff end.
    pub puff_end: bool,
    /// Vibrate on manual termination.
    pub manually_terminated: bool,
}

/// Typed vibration configuration snapshot.
///
/// `when_charging_start` is only available on holder-based models; one-piece
/// models leave it as `None`.
#[derive(Debug, Clone, Copy, PartialEq, Eq, Structural)]
pub struct VibrationSettings {
    charge_start: Option<bool>,
    heating_start: bool,
    starting_to_use: bool,
    puff_end: bool,
    manually_terminated: bool,
}

impl View for VibrationSettings {
    type V = VibrationView;

    closed spec fn view(&self) -> VibrationView {
        VibrationView {
            charge_start: self.charge_start,
            heating_start: self.heating_start,
            starting_to_use: self.starting_to_use,
            puff_end: self.puff_end,
            manually_terminated: self.manually_terminated,
        }
    }
}

/// The flags encoded by byte 6 (heating start in bit 0, starting to use in
/// bit 4) and byte 7 (puff end in bit 0, manual termination in bit 4) of a
/// vibration frame.
pub open spec fn flags_from_bytes(heat_use: u8, end_terminated: u8) -> VibrationView {
    VibrationView {
        charge_start: None,
        heating_start: heat_use & 0x01 != 0,
        starting_to_use: heat_use & 0x10 != 0,
        puff_end: end_terminated & 0x01 != 0,
        manually_terminated: end_terminated & 0x10 != 0,
    }
}

/// The header of a main vibration response for `model`: `00 08 84 23`
/// followed by `0x10`, or, on models with charge-start vibration, `0x03`.
pub open spec fn vibration_header(b: Seq<u8>, model: DeviceModel) -> bool {
    &&& b[0] == 0x00 && b[1] == 0x08 && b[2] == 0x84 && b[3] == 0x23
    &&& (b[4] == 0x10 || (model.spec_supports(DeviceCapability::ChargeStartVibration) && b[4]
        == 0x03))
}

/// What a main vibration response decodes to for `model`.
pub open spec fn vibration_decoding(b: Seq<u8>, model: DeviceModel) -> Result<
    VibrationView,
    Seq<char>,
> {
    if b.len() < 9 {
        Err("invalid vibration response: frame too short"@)
    } else if !vibration_header(b, model) {
        Err("invalid vibration response: header mismatch"@)
    } else {
        Ok(flags_from_bytes(b[6], b[7]))
    }
}

/// What a charge-start response decodes to: the exact "on" and "off" frames
/// decode to `true` and `false`; any other frame of at least 19 bytes decodes
/// to whether byte 8 is `0x01`.
pub open spec fn charge_start_decoding(b: Seq<u8>) -> Result<bool, Seq<char>> {
    if b.len() < 19 {
        Err("invalid charge-start vibration response: frame too short"@)
    } else if b == WHEN_CHARGE_START_ON_RESPONSE@ {
        Ok(true)
    } else if b == WHEN_CHARGE_START_OFF_RESPONSE@ {
        Ok(false)
    } else {
        Ok(b[8] == 0x01)
    }
}

/// The vibration register: the OR of the flags of the enabled settings.
pub open spec fn spec_register(v: VibrationView) -> u16 {
    (if v.heating_start {
        WHEN_HEATING_START_FLAG
    } else {
        0u16
    }) | (if v.starting_to_use {
        WHEN_STARTING_TO_USE_FLAG
    } else {
        0u16
    }) | (if v.puff_end {
        WHEN_PUFF_END_FLAG
    } else {
        0u16
    }) | (if v.manually_terminated {
        WHEN_MANUALLY_TERMINATED_FLAG
    } else {
        0u16
    })
}

/// The checksum of a vibration register: `0x77` XOR `0x07` (puff end) XOR
/// `0x70` (manual termination) XOR `0x15` (heating start) XOR `0x57`
/// (starting to use), each term present when its flag is set.
pub open spec fn spec_checksum(register: u16) -> u8 {
    let a: u8 = if register & WHEN_PUFF_END_FLAG != 0 {
        0x77u8 ^ 0x07u8
    } else {
        0x77u8
    };
    let b: u8 = if register & WHEN_MANUALLY_TERMINATED_FLAG != 0 {
        a ^ 0x70u8
    } else {
        a
    };
    let c: u8 = if register & WHEN_HEATING_START_FLAG != 0 {
        b ^ 0x15u8
    } else {
        b
    };
    if register & WHEN_STARTING_TO_USE_FLAG != 0 {
        c ^ 0x57u8
    } else {
        c
    }
}

/// The main vibration write command: `00 C9 44 23 10 00`, the register's high
/// and low bytes, and the checksum.
pub open spec fn main_vibration_command(v: VibrationView) -> Seq<u8> {
    let register = spec_register(v);
    seq![
        0x00u8,
        0xC9u8,
        0x44u8,
        0x23u8,
        0x10u8,
        0x00u8,
        (register >> 8u16) as u8,
        (register & 0xFFu16) as u8,
        spec_checksum(register),
    ]
}

/// None of the four core vibration settings is enabled.
pub open spec fn all_core_disabled(v: VibrationView) -> bool {
    !v.heating_start && !v.starting_to_use && !v.puff_end && !v.manually_terminated
}

/// The update sequence for settings that a model accepts: the main command,
/// then, on models with charge-start vibration, the charge-start sequence
/// unless charge start is off and every core setting is disabled.
pub open spec fn update_commands(v: VibrationView, model: DeviceModel) -> Seq<Seq<u8>> {
    if model.spec_supports(DeviceCapability::ChargeStartVibration) && (v.charge_start == Some(true)
        || !all_core_disabled(v)) {
        seq![main_vibration_command(v)] + charge_start_commands(v.charge_start == Some(true))
    } else {
        seq![main_vibration_command(v)]
    }
}

/// `r` is the outcome of building the update sequence for `v` on `model`:
/// unsupported when the model has no vibration, unsupported when charge-start
/// data is given to a model without it, an encoding error when it is missing
/// on a model that has it, and otherwise the sequence [`update_commands`].
pub open spec fn update_outcome(
    r: Result<Vec<Vec<u8>>, Error>,
    v: VibrationView,
    model: DeviceModel,
) -> bool {
    if !model.spec_supports(DeviceCapability::Vibration) {
        fails_unsupported(r, "vibration is not supported for model "@ + model.spec_name())
    } else if !model.spec_supports(DeviceCapability::ChargeStartVibration) && v.charge_start is Some {
        fails_unsupported(
            r,
            "charge-start vibration is not supported for model "@ + model.spec_name(),
        )
    } else if model.spec_supports(DeviceCapability::ChargeStartVibration) && v.charge_start is None {
        fails_encoding(r, "charge-start vibration value is required for model "@ + model.spec_name())
    } else {
        r matches Ok(commands) && commands@.map_values(|c: Vec<u8>| c@) == update_commands(v, model)
    }
}

/// Whether two byte slices hold the same bytes.
fn bytes_equal(a: &[u8], b: &[u8]) -> (r: bool)
    ensures
        r == (a@ == b@),
{
    if a.len() != b.len() {
        return false;
    }
    let mut i: usize = 0;
    while i < a.len()
        invariant
            a@.len() == b@.len(),
            i <= a@.len(),
            forall|j: int| 0 <= j < i ==> a@[j] == b@[j],
        decreases a@.len() - i,
    {
        if a[i] != b[i] {
            return false;
        }
        i = i + 1;
    }
    assert(a@ =~= b@);
    true
}

/// Append every frame of `frames` to `commands`.
fn push_frames(commands: &mut Vec<Vec<u8>>, frames: &[&'static [u8]])
    ensures
        final(commands)@.map_values(|c: Vec<u8>| c@) == old(commands)@.map_values(|c: Vec<u8>| c@)
            + frames@.map_values(|c: &[u8]| c@),
{
    let ghost start = commands@.map_values(|c: Vec<u8>| c@);
    let mut i: usize = 0;
    while i < frames.len()
        invariant
            i <= frames@.len(),
            commands@.map_values(|c: Vec<u8>| c@) =~= start + frames@.subrange(0, i as int).map_values(
                |c: &[u8]| c@,
            ),
        decreases frames@.len() - i,
    {
        let ghost before = commands@;
        let frame = slice_to_vec(frames[i]);
        commands.push(frame);
        assert(commands@.map_values(|c: Vec<u8>| c@) =~= before.map_values(|c: Vec<u8>| c@).push(
            frames@[i as int]@,
        ));
        assert(frames@.subrange(0, i + 1) =~= frames@.subrange(0, i as int).push(frames@[i as int]));
        i = i + 1;
    }
    assert(frames@.subrange(0, frames@.len() as int) =~= frames@);
}

impl VibrationSettings {
    /// Two settings with the same content are the same settings.
    pub broadcast proof fn lemma_view_injective(a: Self, b: Self)
        ensures
            #[trigger] a@ == #[trigger] b@ <==> a == b,
    {
    }

    /// Create a vibration snapshot for models without charge-start support.
    pub fn new(
        when_heating_start: bool,
        when_starting_to_use: bool,
        when_puff_end: bool,
        when_manually_terminated: bool,
    ) -> (r: Self)
        ensures
            r@ == (VibrationView {
                charge_start: None,
                heating_start: when_heating_start,
                starting_to_use: when_starting_to_use,
                puff_end: when_puff_end,
                manually_terminated: when_manually_terminated,
            }),
    {
        VibrationSettings {
            charge_start: None,
            heating_start: when_heating_start,
            starting_to_use: when_starting_to_use,
            puff_end: when_puff_end,
            manually_terminated: when_manually_terminated,
        }
    }

    /// Create a vibration snapshot for holder-based models.
    pub fn with_charge_start(
        when_heating_start: bool,
        when_starting_to_use: bool,
        when_puff_end: bool,
        when_manually_terminated: bool,
        when_charging_start: bool,
    ) -> (r: Self)
        ensures
            r@ == (VibrationView {
                charge_start: Some(when_charging_start),
                heating_start: when_heating_start,
                starting_to_use: when_starting_to_use,
                puff_end: when_puff_end,
                manually_terminated: when_manually_terminated,
            }),
    {
        VibrationSettings {
            charge_start: Some(when_charging_start),
            heating_start: when_heating_start,
            starting_to_use: when_starting_to_use,
            puff_end: when_puff_end,
            manually_terminated: when_manually_terminated,
        }
    }

    /// Parse the main vibration response frame for `model`.
    pub fn from_response(bytes: &[u8], model: DeviceModel) -> (r: Result<Self, Error>)
        ensures
            match vibration_decoding(bytes@, model) {
                Ok(v) => r matches Ok(s) && s@ == v,
                Err(m) => crate::error::fails_decoding(r, m),
            },
    {
        if bytes.len() < 9 {
            return Err(decode_error("invalid vibration response: frame too short"));
        }
        if bytes[0] != 0x00 || bytes[1] != 0x08 || bytes[2] != 0x84 || bytes[3] != 0x23 {
            return Err(decode_error("invalid vibration response: header mismatch"));
        }
        if model.supports_charge_start_vibration() {
            if bytes[4] != 0x10 && bytes[4] != 0x03 {
                return Err(decode_error("invalid vibration response: header mismatch"));
            }
        } else if bytes[4] != 0x10 {
            return Err(decode_error("invalid vibration response: header mismatch"));
        }
        let heat_use_byte = bytes[6];
        let end_terminated_byte = bytes[7];
        Ok(
            VibrationSettings::new(
                (heat_use_byte & 0x01) != 0,
                (heat_use_byte & 0x10) != 0,
                (end_terminated_byte & 0x01) != 0,
                (end_terminated_byte & 0x10) != 0,
            ),
        )
    }

    /// Parse the charge-start vibration response used by holder-based models.
    pub fn charge_start_from_response(bytes: &[u8]) -> (r: Result<bool, Error>)
        ensures
            decodes_as(r, charge_start_decoding(bytes@)),
    {
        if bytes.len() < 19 {
            return Err(decode_error("invalid charge-start vibration response: frame too short"));
        }
        if bytes_equal(bytes, &WHEN_CHARGE_START_ON_RESPONSE) {
            Ok(true)
        } else if bytes_equal(bytes, &WHEN_CHARGE_START_OFF_RESPONSE) {
            Ok(false)
        } else {
            Ok(bytes[8] == 0x01)
        }
    }

    /// Return a copy of these settings with an explicit charge-start state attached.
    pub fn with_observed_charge_start(self, when_charging_start: bool) -> (r: Self)
        ensures
            r@ == (VibrationView { charge_start: Some(when_charging_start), ..self@ }),
    {
        let mut r = self;
        r.charge_start = Some(when_charging_start);
        r
    }

    /// Return whether vibration is enabled when charging starts.
    pub fn when_charging_start(self) -> (r: Option<bool>)
        ensures
            r == self@.charge_start,
    {
        self.charge_start
    }

    /// Return whether vibration is enabled when heating starts.
    pub fn when_heating_start(self) -> (r: bool)
        ensures
            r == self@.heating_start,
    {
        self.heating_start
    }

    /// Return whether vibration is enabled when a session starts.
    pub fn when_starting_to_use(self) -> (r: bool)
        ensures
            r == self@.starting_to_use,
    {
        self.starting_to_use
    }

    /// Return whether vibration is enabled near puff end.
    pub fn when_puff_end(self) -> (r: bool)
        ensures
            r == self@.puff_end,
    {
        self.puff_end
    }

    /// Return whether vibration is enabled on manual termination.
    pub fn when_manually_terminated(self) -> (r: bool)
        ensures
            r == self@.manually_terminated,
    {
        self.manually_terminated
    }

    /// Build the vibration update command sequence for the given model.
    ///
    /// Fails when the model does not support vibration, when charge-start
    /// data is given for a model without it, or when it is missing for a model
    /// that has it.
    pub fn build_update_commands(self, model: DeviceModel) -> (r: Result<Vec<Vec<u8>>, Error>)
        ensures
            update_outcome(r, self@, model),
    {
        if !model.supports(DeviceCapability::Vibration) {
            return Err(unsupported_for_model("vibration is not supported for model ", model));
        }
        let charge_supported = model.supports_charge_start_vibration();
        if !charge_supported && self.charge_start.is_some() {
            return Err(unsupported_for_model("charge-start vibration is not supported for model ", model));
        }
        if charge_supported && self.charge_start.is_none() {
            let msg = String::from_str("charge-start vibration value is required for model ").concat(
                model.name(),
            );
            return Err(encode_error(msg));
        }
        let mut commands: Vec<Vec<u8>> = Vec::new();
        commands.push(build_main_vibration_command(self));
        assert(commands@.map_values(|c: Vec<u8>| c@) =~= seq![main_vibration_command(self@)]);
        if charge_supported {
            let charge_start_enabled = match self.charge_start {
                Some(on) => on,
                None => false,
            };
            if charge_start_enabled || !all_core_settings_disabled(self) {
                let frames: [&'static [u8]; 7] = if charge_start_enabled {
                    [
                        &CHARGE_START_ON_FRAME_1,
                        &CHARGE_START_ON_FRAME_2,
                        &CHARGE_START_ON_FRAME_3,
                        &CHARGE_START_ON_FRAME_4,
                        &CHARGE_START_COMMIT_COMMAND,
                        &LOAD_VIBRATE_CHARGE_START_COMMAND,
                        &CHARGE_START_RELOAD_COMMAND,
                    ]
                } else {
                    [
                        &CHARGE_START_OFF_FRAME_1,
                        &CHARGE_START_OFF_FRAME_2,
                        &CHARGE_START_OFF_FRAME_3,
                        &CHARGE_START_OFF_FRAME_4,
                        &CHARGE_START_COMMIT_COMMAND,
                        &LOAD_VIBRATE_CHARGE_START_COMMAND,
                        &CHARGE_START_RELOAD_COMMAND,
                    ]
                };
                assert(frames@.map_values(|c: &[u8]| c@) =~= charge_start_commands(
                    charge_start_enabled,
                ));
                push_frames(&mut commands, &frames);
            }
        }
        Ok(commands)
    }
}

/// Whether none of the four core settings is enabled.
fn all_core_settings_disabled(settings: VibrationSettings) -> (r: bool)
    ensures
        r == all_core_disabled(settings@),
{
    !settings.heating_start && !settings.starting_to_use && !settings.puff_end
        && !settings.manually_terminated
}

/// The main vibration write command for `settings`.
fn build_main_vibration_command(settings: VibrationSettings) -> (r: Vec<u8>)
    ensures
        r@ == main_vibration_command(settings@),
{
    let register: u16 = (if settings.heating_start {
        WHEN_HEATING_START_FLAG
    } else {
        0u16
    }) | (if settings.starting_to_use {
        WHEN_STARTING_TO_USE_FLAG
    } else {
        0u16
    }) | (if settings.puff_end {
        WHEN_PUFF_END_FLAG
    } else {
        0u16
    }) | (if settings.manually_terminated {
        WHEN_MANUALLY_TERMINATED_FLAG
    } else {
        0u16
    });
    let mut command: Vec<u8> = vec![0x00, 0xC9, 0x44, 0x23, 0x10, 0x00];
    command.push((register >> 8) as u8);
    command.push((register & 0xFF) as u8);
    command.push(vibration_checksum(register));
    assert(command@ =~= main_vibration_command(settings@));
    command
}

/// The checksum of a vibration register: `0x77` XOR `0x07` when bit `0x0001`
/// is set, XOR `0x70` when bit `0x0010` is set, XOR `0x15` when bit `0x0100`
/// is set, XOR `0x57` when bit `0x1000` is set; other bits are ignored.
pub fn vibration_checksum(register: u16) -> (r: u8)
    ensures
        r == spec_checksum(register),
        r == 0x77u8 ^ (if register & 0x0001u16 != 0 {
            0x07u8
        } else {
            0u8
        }) ^ (if register & 0x0010u16 != 0 {
            0x70u8
        } else {
            0u8
        }) ^ (if register & 0x0100u16 != 0 {
            0x15u8
        } else {
            0u8
        }) ^ (if register & 0x1000u16 != 0 {
            0x57u8
        } else {
            0u8
        }),
{
    proof {
        law_checksum_formula(register);
    }
    let mut checksum: u8 = 0x77;
    if (register & WHEN_PUFF_END_FLAG) != 0 {
        checksum ^= 0x07;
    }
    if (register & WHEN_MANUALLY_TERMINATED_FLAG) != 0 {
        checksum ^= 0x70;
    }
    if (register & WHEN_HEATING_START_FLAG) != 0 {
        checksum ^= 0x15;
    }
    if (register & WHEN_STARTING_TO_USE_FLAG) != 0 {
        checksum ^= 0x57;
    }
    checksum
}

/// The checksum of a register is `0x77` XOR `0x07` when bit `0x0001` is set,
/// XOR `0x70` when bit `0x0010` is set, XOR `0x15` when bit `0x0100` is set,
/// XOR `0x57` when bit `0x1000` is set; every other bit is ignored.
pub proof fn law_checksum_formula(register: u16)
    by (bit_vector)
    ensures
        spec_checksum(register) == 0x77u8 ^ (if register & 0x0001u16 != 0 {
            0x07u8
        } else {
            0u8
        }) ^ (if register & 0x0010u16 != 0 {
            0x70u8
        } else {
            0u8
        }) ^ (if register & 0x0100u16 != 0 {
            0x15u8
        } else {
            0u8
        }) ^ (if register & 0x1000u16 != 0 {
            0x57u8
        } else {
            0u8
        }),
        spec_checksum(register) == spec_checksum(register & 0x1111u16),
{
}

/// On a model with charge-start vibration, an update whose charge-start
/// state is on always sends the charge-start-on sequence after the main
/// frame, whatever the four core settings are: eight frames in all. One whose
/// charge-start state is off sends the charge-start-off sequence when any
/// core setting is on, and only the main frame when all are off.
pub proof fn law_vibration_update_charge_start(
    v: VibrationView,
    model: DeviceModel,
    r: Result<Vec<Vec<u8>>, Error>,
)
    requires
        update_outcome(r, v, model),
        model.spec_supports(DeviceCapability::ChargeStartVibration),
        v.charge_start is Some,
    ensures
        r is Ok,
        r->Ok_0@[0]@ == main_vibration_command(v),
        v.charge_start == Some(true) ==> {
            &&& r->Ok_0@.len() == 8
            &&& r->Ok_0@[1]@ == CHARGE_START_ON_FRAME_1@
            &&& r->Ok_0@[2]@ == CHARGE_START_ON_FRAME_2@
            &&& r->Ok_0@[3]@ == CHARGE_START_ON_FRAME_3@
            &&& r->Ok_0@[4]@ == CHARGE_START_ON_FRAME_4@
            &&& r->Ok_0@[5]@ == CHARGE_START_COMMIT_COMMAND@
            &&& r->Ok_0@[6]@ == LOAD_VIBRATE_CHARGE_START_COMMAND@
            &&& r->Ok_0@[7]@ == CHARGE_START_RELOAD_COMMAND@
        },
        v.charge_start == Some(false) && (v.heating_start || v.starting_to_use || v.puff_end
            || v.manually_terminated) ==> {
            &&& r->Ok_0@.len() == 8
            &&& r->Ok_0@[1]@ == CHARGE_START_OFF_FRAME_1@
            &&& r->Ok_0@[2]@ == CHARGE_START_OFF_FRAME_2@
            &&& r->Ok_0@[3]@ == CHARGE_START_OFF_FRAME_3@
            &&& r->Ok_0@[4]@ == CHARGE_START_OFF_FRAME_4@
            &&& r->Ok_0@[5]@ == CHARGE_START_COMMIT_COMMAND@
            &&& r->Ok_0@[6]@ == LOAD_VIBRATE_CHARGE_START_COMMAND@
            &&& r->Ok_0@[7]@ == CHARGE_START_RELOAD_COMMAND@
        },
        v.charge_start == Some(false) && !v.heating_start && !v.starting_to_use && !v.puff_end
            && !v.manually_terminated ==> r->Ok_0@.len() == 1,
{
    let cs = r->Ok_0@;
    let m = cs.map_values(|c: Vec<u8>| c@);
    assert(m == update_commands(v, model));
    assert(m.len() == cs.len());
    assert forall|i: int| 0 <= i < cs.len() implies m[i] == cs[i]@ by {}
    assert(m[0] == cs[0]@);
    if v.charge_start == Some(true) || !all_core_disabled(v) {
        let tail = charge_start_commands(v.charge_start == Some(true));
        assert(m == seq![main_vibration_command(v)] + tail);
        assert(tail.len() == 7);
        assert(m[1] == tail[0]);
        assert(m[2] == tail[1]);
        assert(m[3] == tail[2]);
        assert(m[4] == tail[3]);
        assert(m[5] == tail[4]);
        assert(m[6] == tail[5]);
        assert(m[7] == tail[6]);
    }
}

/// A model without charge-start vibration gets the main frame alone.
pub proof fn law_vibration_update_single_frame(
    v: VibrationView,
    model: DeviceModel,
    r: Result<Vec<Vec<u8>>, Error>,
)
    requires
        update_outcome(r, v, model),
        model.spec_supports(DeviceCapability::Vibration),
        !model.spec_supports(DeviceCapability::ChargeStartVibration),
        v.charge_start is None,
    ensures
        r is Ok,
        r->Ok_0@.len() == 1,
        r->Ok_0@[0]@ == main_vibration_command(v),
{
    let cs = r->Ok_0@;
    let m = cs.map_values(|c: Vec<u8>| c@);
    assert(m == update_commands(v, model));
    assert(m.len() == cs.len());
    assert(m[0] == cs[0]@);
}

/// The register's bytes carry each flag in the bit that a vibration response
/// uses for it.
proof fn lemma_register_bytes(a: u16, b: u16, c: u16, d: u16)
    by (bit_vector)
    requires
        a == 0 || a == 0x0100,
        b == 0 || b == 0x1000,
        c == 0 || c == 0x0001,
        d == 0 || d == 0x0010,
    ensures
        ((((a | b | c | d) >> 8u16) as u8) & 0x01u8 != 0) == (a != 0),
        ((((a | b | c | d) >> 8u16) as u8) & 0x10u8 != 0) == (b != 0),
        ((((a | b | c | d) & 0xFFu16) as u8) & 0x01u8 != 0) == (c != 0),
        ((((a | b | c | d) & 0xFFu16) as u8) & 0x10u8 != 0) == (d != 0),
{
}

/// Reading back a write: a main vibration response that reports bytes 6 and 7
/// of the main write command for `v` decodes to the four core settings of
/// `v` (the main frame carries no charge-start state).
pub proof fn law_vibration_read_back(v: VibrationView, model: DeviceModel, response: Seq<u8>)
    requires
        response.len() >= 9,
        vibration_header(response, model),
        response[6] == main_vibration_command(v)[6],
        response[7] == main_vibration_command(v)[7],
    ensures
        vibration_decoding(response, model) == Ok::<VibrationView, Seq<char>>(
            VibrationView { charge_start: None, ..v },
        ),
{
    lemma_register_bytes(
        if v.heating_start {
            WHEN_HEATING_START_FLAG
        } else {
            0u16
        },
        if v.starting_to_use {
            WHEN_STARTING_TO_USE_FLAG
        } else {
            0u16
        },
        if v.puff_end {
            WHEN_PUFF_END_FLAG
        } else {
            0u16
        },
        if v.manually_terminated {
            WHEN_MANUALLY_TERMINATED_FLAG
        } else {
            0u16
        },
    );
}

/// Observing a charge-start state sets exactly that state and keeps the four
/// core settings.
pub proof fn law_observed_charge_start(v: VibrationView, on: bool)
    ensures
        (VibrationView { charge_start: Some(on), ..v }).charge_start == Some(on),
        all_core_disabled(VibrationView { charge_start: Some(on), ..v }) == all_core_disabled(v),
        main_vibration_command(VibrationView { charge_start: Some(on), ..v })
            == main_vibration_command(v),
{
}

} // verus!
