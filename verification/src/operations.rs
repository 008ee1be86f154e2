//! The command sequences that the device operations send, decided from the
//! model and the requested settings before any frame goes out.

use vstd::prelude::*;
use vstd::slice::slice_to_vec;

use crate::error::{fails_unsupported, unsupported_for_model, Error};
use crate::protocol::brightness::BrightnessLevel;
use crate::protocol::flexbattery::{
    pausemode_command, spec_pausemode_command, FlexBatteryMode, FlexBatterySettings,
    FLEXBATTERY_ECO_SET_COMMAND, FLEXBATTERY_PERFORMANCE_SET_COMMAND, LOAD_FLEXBATTERY_COMMAND,
    LOAD_PAUSEMODE_COMMAND, PAUSEMODE_DISABLE_SET_COMMAND, PAUSEMODE_ENABLE_SET_COMMAND,
};
use crate::protocol::flexpuff::{flexpuff_write_command, FlexPuffSetting};
use crate::protocol::gesture::{
    autostart_command, smartgesture_command, spec_autostart_command, spec_smartgesture_command,
};
use crate::protocol::lock::{lock_commands, spec_lock_commands, spec_unlock_commands, unlock_commands};
use crate::protocol::types::{DeviceCapability, DeviceModel};

verus! {

/// The byte content of a list of frames.
pub open spec fn frames_view(frames: Seq<Vec<u8>>) -> Seq<Seq<u8>> {
    frames.map_values(|c: Vec<u8>| c@)
}

/// The byte content of a list of borrowed frames.
pub open spec fn slices_view(frames: Seq<&[u8]>) -> Seq<Seq<u8>> {
    frames.map_values(|c: &[u8]| c@)
}

/// Copy borrowed frames into owned frames, keeping their order.
pub fn to_owned_frames(frames: &[&[u8]]) -> (r: Vec<Vec<u8>>)
    ensures
        frames_view(r@) == slices_view(frames@),
{
    let mut r: Vec<Vec<u8>> = Vec::new();
    let mut i: usize = 0;
    while i < frames.len()
        invariant
            i <= frames@.len(),
            frames_view(r@) =~= slices_view(frames@.subrange(0, i as int)),
        decreases frames@.len() - i,
    {
        let ghost before = r@;
        r.push(slice_to_vec(frames[i]));
        assert(frames_view(r@) =~= frames_view(before).push(frames@[i as int]@));
        assert(frames@.subrange(0, i + 1) =~= frames@.subrange(0, i as int).push(frames@[i as int]));
        i = i + 1;
    }
    assert(frames@.subrange(0, frames@.len() as int) =~= frames@);
    r
}

/// One owned frame.
fn single_frame(frame: &[u8]) -> (r: Vec<Vec<u8>>)
    ensures
        frames_view(r@) == seq![frame@],
{
    let mut r: Vec<Vec<u8>> = Vec::new();
    r.push(slice_to_vec(frame));
    assert(frames_view(r@) =~= seq![frame@]);
    r
}

/// The frames sent to set the brightness: the level's three-command write
/// sequence.
pub fn set_brightness_sends(level: BrightnessLevel) -> (r: Vec<Vec<u8>>)
    ensures
        frames_view(r@) == level.spec_write_commands(),
{
    let commands = level.write_commands();
    to_owned_frames(&commands)
}

/// The frames sent to update `FlexPuff`: the setting's write command.
pub fn set_flexpuff_sends(setting: FlexPuffSetting) -> (r: Vec<Vec<u8>>)
    ensures
        frames_view(r@) == seq![flexpuff_write_command(setting@)],
{
    single_frame(setting.write_command())
}

/// The frames sent to switch Smart Gesture, which needs a holder-based model.
pub fn set_smartgesture_sends(model: DeviceModel, enabled: bool) -> (r: Result<
    Vec<Vec<u8>>,
    Error,
>)
    ensures
        !model.spec_supports(DeviceCapability::SmartGesture) ==> fails_unsupported(
            r,
            "Smart Gesture is not supported for model "@ + model.spec_name(),
        ),
        model.spec_supports(DeviceCapability::SmartGesture) ==> (r matches Ok(frames)
            && frames_view(frames@) == seq![spec_smartgesture_command(enabled)]),
{
    if !model.supports(DeviceCapability::SmartGesture) {
        return Err(unsupported_for_model("Smart Gesture is not supported for model ", model));
    }
    Ok(single_frame(smartgesture_command(enabled)))
}

/// The frames sent to lock the device: the three-command lock sequence.
pub fn lock_sends(model: DeviceModel) -> (r: Result<Vec<Vec<u8>>, Error>)
    ensures
        !model.spec_supports(DeviceCapability::DeviceLock) ==> fails_unsupported(
            r,
            "device lock is not supported for model "@ + model.spec_name(),
        ),
        model.spec_supports(DeviceCapability::DeviceLock) ==> (r matches Ok(frames) && frames_view(
            frames@,
        ) == spec_lock_commands()),
{
    if !model.supports(DeviceCapability::DeviceLock) {
        return Err(unsupported_for_model("device lock is not supported for model ", model));
    }
    let commands = lock_commands();
    Ok(to_owned_frames(&commands))
}

/// The frames sent to unlock the device: the three-command unlock sequence.
pub fn unlock_sends(model: DeviceModel) -> (r: Result<Vec<Vec<u8>>, Error>)
    ensures
        !model.spec_supports(DeviceCapability::DeviceLock) ==> fails_unsupported(
            r,
            "device lock is not supported for model "@ + model.spec_name(),
        ),
        model.spec_supports(DeviceCapability::DeviceLock) ==> (r matches Ok(frames) && frames_view(
            frames@,
        ) == spec_unlock_commands()),
{
    if !model.supports(DeviceCapability::DeviceLock) {
        return Err(unsupported_for_model("device lock is not supported for model ", model));
    }
    let commands = unlock_commands();
    Ok(to_owned_frames(&commands))
}

/// The frames sent to switch Auto Start, which needs a holder-based ILUMA or
/// ILUMA i model.
pub fn set_autostart_sends(model: DeviceModel, enabled: bool) -> (r: Result<Vec<Vec<u8>>, Error>)
    ensures
        !model.spec_holder_features() ==> fails_unsupported(
            r,
            "Auto Start is not supported for model "@ + model.spec_name(),
        ),
        model.spec_holder_features() ==> (r matches Ok(frames) && frames_view(
            frames@,
        ) == seq![spec_autostart_command(enabled)]),
{
    if !model.supports_holder_features() {
        return Err(unsupported_for_model("Auto Start is not supported for model ", model));
    }
    Ok(single_frame(autostart_command(enabled)))
}

/// The `FlexBattery` update sequence: the mode write followed by the mode
/// load command and, when a Pause Mode state is given, the Pause Mode write
/// followed by the Pause Mode load command.
pub open spec fn flexbattery_update_commands(settings: FlexBatterySettings) -> Seq<Seq<u8>> {
    let mode_part = seq![settings@.0.spec_write_command(), LOAD_FLEXBATTERY_COMMAND@];
    match settings@.1 {
        Some(pause) => mode_part + seq![spec_pausemode_command(pause), LOAD_PAUSEMODE_COMMAND@],
        None => mode_part,
    }
}

/// The frames sent to update `FlexBattery`, which needs ILUMA i or ILUMA i PRIME.
pub fn set_flexbattery_sends(model: DeviceModel, settings: FlexBatterySettings) -> (r: Result<
    Vec<Vec<u8>>,
    Error,
>)
    ensures
        !model.spec_supports(DeviceCapability::FlexBattery) ==> fails_unsupported(
            r,
            "FlexBattery is not supported for model "@ + model.spec_name(),
        ),
        model.spec_supports(DeviceCapability::FlexBattery) ==> (r matches Ok(frames)
            && frames_view(frames@) == flexbattery_update_commands(settings)),
{
    if !model.supports(DeviceCapability::FlexBattery) {
        return Err(unsupported_for_model("FlexBattery is not supported for model ", model));
    }
    let mut frames: Vec<Vec<u8>> = Vec::new();
    frames.push(slice_to_vec(settings.mode().write_command()));
    frames.push(slice_to_vec(&LOAD_FLEXBATTERY_COMMAND));
    match settings.pause_mode() {
        Some(pause) => {
            frames.push(slice_to_vec(pausemode_command(pause)));
            frames.push(slice_to_vec(&LOAD_PAUSEMODE_COMMAND));
        },
        None => {},
    }
    assert(frames_view(frames@) =~= flexbattery_update_commands(settings));
    Ok(frames)
}

/// Sending a list of frames one at a time, in order, stopping at the first
/// send that fails.
#[derive(Debug)]
pub struct SendAll {
    frames: Vec<Vec<u8>>,
    next: usize,
}

/// What a [`SendAll`] asks for next.
#[derive(Debug)]
pub enum SendStep {
    /// Send this frame and hand the transport's result to the state.
    Send(SendAll, Vec<u8>),
    /// Sending is over, with this outcome.
    Done(Result<(), Error>),
}

/// `step` sends frame `index` of `frames`, with `index` frames sent before it.
pub open spec fn sends_frame(step: SendStep, frames: Seq<Seq<u8>>, index: nat) -> bool {
    step matches SendStep::Send(state, frame) && state.frames() == frames && state.sent() == index
        && frame@ == frames[index as int]
}

impl SendAll {
    #[verifier::type_invariant]
    spec fn well_formed(self) -> bool {
        self.next < self.frames@.len()
    }

    /// The frames to send, in order.
    pub closed spec fn frames(self) -> Seq<Seq<u8>> {
        frames_view(self.frames@)
    }

    /// How many frames were sent successfully before the one now being sent.
    pub closed spec fn sent(self) -> nat {
        self.next as nat
    }

    /// Begin sending `frames`: the first frame, or success at once when
    /// there is none.
    pub fn start(frames: Vec<Vec<u8>>) -> (step: SendStep)
        ensures
            frames@.len() == 0 ==> step == SendStep::Done(Ok(())),
            frames@.len() > 0 ==> sends_frame(step, frames_view(frames@), 0),
    {
        if frames.len() == 0 {
            return SendStep::Done(Ok(()));
        }
        let frame = slice_to_vec(frames[0].as_slice());
        SendStep::Send(SendAll { frames, next: 0 }, frame)
    }

    /// Take the result of sending the current frame: a failure ends sending
    /// with that error and nothing more is sent; a success moves on to the
    /// next frame, or ends with success after the last one.
    pub fn on_sent(self, result: Result<(), Error>) -> (step: SendStep)
        ensures
            result matches Err(e) ==> step == SendStep::Done(Err(e)),
            result is Ok && self.sent() + 1 < self.frames().len() ==> sends_frame(
                step,
                self.frames(),
                self.sent() + 1,
            ),
            result is Ok && self.sent() + 1 >= self.frames().len() ==> step == SendStep::Done(
                Ok(()),
            ),
    {
        proof {
            use_type_invariant(&self);
        }
        match result {
            Err(e) => SendStep::Done(Err(e)),
            Ok(()) => {
                let len = self.frames.len();
                if len - self.next > 1 {
                    let next = self.next + 1;
                    let frame = slice_to_vec(self.frames[next].as_slice());
                    SendStep::Send(SendAll { frames: self.frames, next }, frame)
                } else {
                    SendStep::Done(Ok(()))
                }
            },
        }
    }
}

/// A `FlexBattery` update writes the mode (the Eco or the Performance set
/// command) and reloads it; when the settings carry a Pause Mode state, on or
/// off, it then writes that state (the enable or the disable set command) and
/// reloads it, four frames in all; without one it stops after two.
pub proof fn law_flexbattery_update_frames(
    model: DeviceModel,
    settings: FlexBatterySettings,
    r: Result<Vec<Vec<u8>>, Error>,
)
    requires
        model.spec_supports(DeviceCapability::FlexBattery),
        r matches Ok(frames) && frames_view(frames@) == flexbattery_update_commands(settings),
    ensures
        r is Ok,
        r->Ok_0@[0]@ == (if settings@.0 == FlexBatteryMode::Eco {
            FLEXBATTERY_ECO_SET_COMMAND@
        } else {
            FLEXBATTERY_PERFORMANCE_SET_COMMAND@
        }),
        r->Ok_0@[1]@ == LOAD_FLEXBATTERY_COMMAND@,
        settings@.1 is None ==> r->Ok_0@.len() == 2,
        settings@.1 == Some(true) ==> r->Ok_0@.len() == 4 && r->Ok_0@[2]@
            == PAUSEMODE_ENABLE_SET_COMMAND@ && r->Ok_0@[3]@ == LOAD_PAUSEMODE_COMMAND@,
        settings@.1 == Some(false) ==> r->Ok_0@.len() == 4 && r->Ok_0@[2]@
            == PAUSEMODE_DISABLE_SET_COMMAND@ && r->Ok_0@[3]@ == LOAD_PAUSEMODE_COMMAND@,
{
    let cs = r->Ok_0@;
    let m = frames_view(cs);
    assert(m.len() == cs.len());
    assert(m[0] == cs[0]@);
    assert(m[1] == cs[1]@);
    if cs.len() == 4 {
        assert(m[2] == cs[2]@);
        assert(m[3] == cs[3]@);
    }
}

} // verus!
