//! Reversible hardware exercises: read a setting, write its opposite, check
//! that the device reports the new value, then put the original value back
//! and check that too.
//!
//! The decisions of an exercise are a state machine; whoever drives it talks
//! to the device, performs each requested read or write, and hands the result
//! back.

use vstd::prelude::*;

use crate::error::Error;
use crate::protocol::{DeviceCapability, DeviceModel};
use crate::text::{append_decimal, decimal};
use crate::protocol::vibration::VibrationView;
use crate::protocol::{
    BrightnessLevel, FlexBatteryMode, FlexBatterySettings, FlexPuffSetting, VibrationSettings,
};

verus! {

broadcast use {
    VibrationSettings::lemma_view_injective,
    FlexBatterySettings::lemma_view_injective,
    FlexPuffSetting::lemma_view_injective,
};

/// A device setting that an exercise reads and writes.
#[derive(Debug, Clone, Copy, PartialEq, Eq, Structural)]
pub enum Setting {
    /// LED brightness.
    Brightness(BrightnessLevel),
    /// Vibration configuration.
    Vibration(VibrationSettings),
    /// `FlexPuff` state.
    FlexPuff(FlexPuffSetting),
    /// `FlexBattery` mode and Pause Mode.
    FlexBattery(FlexBatterySettings),
    /// An on/off feature such as Smart Gesture or Auto Start.
    Toggle(bool),
}

/// The other brightness level.
pub open spec fn opposite_level(level: BrightnessLevel) -> BrightnessLevel {
    match level {
        BrightnessLevel::High => BrightnessLevel::Low,
        BrightnessLevel::Low => BrightnessLevel::High,
    }
}

/// The other `FlexBattery` mode.
pub open spec fn opposite_mode(mode: FlexBatteryMode) -> FlexBatteryMode {
    match mode {
        FlexBatteryMode::Performance => FlexBatteryMode::Eco,
        FlexBatteryMode::Eco => FlexBatteryMode::Performance,
    }
}

/// An optional flag inverted; an absent flag stays absent.
pub open spec fn opposite_flag(flag: Option<bool>) -> Option<bool> {
    match flag {
        Some(on) => Some(!on),
        None => None,
    }
}

/// A vibration configuration with every flag inverted.
pub open spec fn opposite_vibration(v: VibrationView) -> VibrationView {
    VibrationView {
        charge_start: opposite_flag(v.charge_start),
        heating_start: !v.heating_start,
        starting_to_use: !v.starting_to_use,
        puff_end: !v.puff_end,
        manually_terminated: !v.manually_terminated,
    }
}

/// `b` is `a` with every flag inverted and every two-way choice swapped:
/// the value that an exercise writes after reading `a`.
pub open spec fn is_opposite(a: Setting, b: Setting) -> bool {
    match a {
        Setting::Brightness(x) => b == Setting::Brightness(opposite_level(x)),
        Setting::Vibration(x) => b matches Setting::Vibration(y) && y@ == opposite_vibration(x@),
        Setting::FlexPuff(x) => b matches Setting::FlexPuff(y) && y@ == !x@,
        Setting::FlexBattery(x) => b matches Setting::FlexBattery(y) && y@ == (
            opposite_mode(x@.0),
            opposite_flag(x@.1),
        ),
        Setting::Toggle(x) => b == Setting::Toggle(!x),
    }
}

impl Setting {
    /// The opposite of this setting: flags inverted, the brightness level
    /// and the `FlexBattery` mode swapped, an absent optional flag left absent.
    pub fn toggled(self) -> (r: Setting)
        ensures
            is_opposite(self, r),
    {
        match self {
            Setting::Brightness(level) => Setting::Brightness(
                match level {
                    BrightnessLevel::High => BrightnessLevel::Low,
                    BrightnessLevel::Low => BrightnessLevel::High,
                },
            ),
            Setting::Vibration(v) => {
                let toggled = match v.when_charging_start() {
                    Some(charge_start) => VibrationSettings::with_charge_start(
                        !v.when_heating_start(),
                        !v.when_starting_to_use(),
                        !v.when_puff_end(),
                        !v.when_manually_terminated(),
                        !charge_start,
                    ),
                    None => VibrationSettings::new(
                        !v.when_heating_start(),
                        !v.when_starting_to_use(),
                        !v.when_puff_end(),
                        !v.when_manually_terminated(),
                    ),
                };
                Setting::Vibration(toggled)
            },
            Setting::FlexPuff(f) => Setting::FlexPuff(FlexPuffSetting::new(!f.is_enabled())),
            Setting::FlexBattery(b) => {
                let mode = match b.mode() {
                    FlexBatteryMode::Performance => FlexBatteryMode::Eco,
                    FlexBatteryMode::Eco => FlexBatteryMode::Performance,
                };
                let pause = match b.pause_mode() {
                    Some(on) => Some(!on),
                    None => None,
                };
                Setting::FlexBattery(FlexBatterySettings::new(mode, pause))
            },
            Setting::Toggle(on) => Setting::Toggle(!on),
        }
    }
}

/// A setting has exactly one opposite, it differs from the setting, and the
/// opposite of the opposite is the setting again.
pub proof fn law_toggle_reverses(a: Setting, b: Setting, c: Setting)
    requires
        is_opposite(a, b),
    ensures
        a != b,
        is_opposite(a, c) ==> c == b,
        is_opposite(b, c) ==> c == a,
{
    match a {
        Setting::Vibration(x) => {
            assert(a != b) by {
                if a == b {
                    assert(b->Vibration_0@ == x@);
                }
            }
        },
        Setting::FlexPuff(x) => {
            assert(a != b) by {
                if a == b {
                    assert(b->FlexPuff_0@ == x@);
                }
            }
        },
        Setting::FlexBattery(x) => {
            assert(a != b) by {
                if a == b {
                    assert(b->FlexBattery_0@ == x@);
                }
            }
        },
        _ => {},
    }
}

/// How an exercise reacts when it cannot confirm the change it made.
#[derive(Debug, Clone, Copy, PartialEq, Eq, Structural)]
pub enum Recovery {
    /// Only a read-back that differs from the requested value makes the
    /// exercise put the original back, and it then both writes the original
    /// and reads the setting again, whatever the write gave. Any other failure
    /// ends the exercise where it is.
    OnMismatch,
    /// Every failure after the original value was read makes the exercise
    /// put the original back; a failed restore write ends the restore.
    OnAnyFailure,
}

/// The steps of an exercise, in the order in which they run.
#[derive(Debug, Clone, Copy, PartialEq, Eq, Structural)]
pub enum Stage {
    /// Reading the original value.
    ReadOriginal,
    /// Writing the opposite value.
    WriteTarget,
    /// Reading the value back after the change.
    VerifyTarget,
    /// Writing the original value back.
    Restore,
    /// Reading the value back after the restore.
    VerifyRestore,
}

/// Why an exercise had to put the original value back early.
#[derive(Debug)]
pub enum Interruption {
    /// A step failed with this error.
    Failed(Stage, Error),
    /// The device reported this value instead of the requested one.
    Mismatch(Setting),
}

/// What became of putting the original value back after an interruption.
#[derive(Debug)]
pub enum RestoreReport {
    /// The original value was written and read back.
    Verified,
    /// The write went through but the device reports this other value.
    Differs(Setting),
    /// The restore write or the check read failed (or both); an error that
    /// did not occur, or a step that was not run, is `None`.
    Unverified { write: Option<Error>, read: Option<Error> },
}

/// How an exercise ended.
#[derive(Debug)]
pub enum ExerciseOutcome {
    /// The opposite value was written and read back, and the original value
    /// was written and read back.
    Passed,
    /// A step failed; `restore` tells what became of putting the original
    /// back, when the exercise tried to.
    StepFailed { stage: Stage, error: Error, restore: Option<RestoreReport> },
    /// The device reported `observed` after `expected` was written.
    Mismatch { expected: Setting, observed: Setting, report: RestoreReport },
    /// The device reported `observed` after the original `expected` was
    /// written back.
    RestoreMismatch { expected: Setting, observed: Setting },
}

/// An exercise waiting for the result of reading the setting.
#[derive(Debug)]
pub enum AwaitRead {
    /// The value before any change.
    Original { recovery: Recovery },
    /// The value after `target` was written.
    Target { recovery: Recovery, original: Setting, target: Setting },
    /// The value after `original` was written back.
    Restored { original: Setting },
    /// The value after `original` was written back because of `cause`;
    /// `write_error` is how that write failed, if it did.
    RecoveryCheck {
        original: Setting,
        target: Setting,
        cause: Interruption,
        write_error: Option<Error>,
    },
}

/// An exercise waiting for the result of a write.
#[derive(Debug)]
pub enum AwaitWrite {
    /// Writing `target`, the opposite of `original`.
    Target { recovery: Recovery, original: Setting, target: Setting },
    /// Writing `original` back after the change was confirmed.
    Restore { original: Setting },
    /// Writing `original` back because of `cause`.
    Recover { recovery: Recovery, original: Setting, target: Setting, cause: Interruption },
}

/// What an exercise asks for next.
#[derive(Debug)]
pub enum ExerciseStep {
    /// Read the setting and hand the result to the state.
    Read(AwaitRead),
    /// Write the given value and hand the result to the state.
    Write(AwaitWrite, Setting),
    /// The exercise is over.
    Done(ExerciseOutcome),
}

/// The report on a restore check: the write result (`write_error`) and the
/// read result `r`, against the `original` value.
pub open spec fn restore_report(
    original: Setting,
    write_error: Option<Error>,
    r: Result<Setting, Error>,
) -> RestoreReport {
    match r {
        Ok(v) => match write_error {
            None => if v == original {
                RestoreReport::Verified
            } else {
                RestoreReport::Differs(v)
            },
            Some(w) => RestoreReport::Unverified { write: Some(w), read: None },
        },
        Err(e) => RestoreReport::Unverified { write: write_error, read: Some(e) },
    }
}

/// The outcome of an exercise interrupted by `cause` while `target` was
/// being set, with `report` on the restore.
pub open spec fn interrupted(
    target: Setting,
    cause: Interruption,
    report: RestoreReport,
) -> ExerciseOutcome {
    match cause {
        Interruption::Failed(stage, error) => ExerciseOutcome::StepFailed {
            stage,
            error,
            restore: Some(report),
        },
        Interruption::Mismatch(observed) => ExerciseOutcome::Mismatch {
            expected: target,
            observed,
            report,
        },
    }
}

/// The step that follows when a failure at `stage` with `error` interrupts
/// an exercise that was setting `target` over `original`.
pub open spec fn after_failure(
    recovery: Recovery,
    original: Setting,
    target: Setting,
    stage: Stage,
    error: Error,
) -> ExerciseStep {
    match recovery {
        Recovery::OnMismatch => ExerciseStep::Done(
            ExerciseOutcome::StepFailed { stage, error, restore: None },
        ),
        Recovery::OnAnyFailure => ExerciseStep::Write(
            AwaitWrite::Recover {
                recovery,
                original,
                target,
                cause: Interruption::Failed(stage, error),
            },
            original,
        ),
    }
}

/// `step` is what follows when the read awaited by `state` gives `r`.
pub open spec fn read_step(state: AwaitRead, r: Result<Setting, Error>, step: ExerciseStep) -> bool {
    match state {
        AwaitRead::Original { recovery } => match r {
            Ok(v) => step matches ExerciseStep::Write(
                AwaitWrite::Target { recovery: rc, original, target },
                w,
            ) && rc == recovery && original == v && is_opposite(v, target) && w == target,
            Err(e) => step == ExerciseStep::Done(
                ExerciseOutcome::StepFailed { stage: Stage::ReadOriginal, error: e, restore: None },
            ),
        },
        AwaitRead::Target { recovery, original, target } => match r {
            Ok(v) => if v == target {
                step == ExerciseStep::Write(AwaitWrite::Restore { original }, original)
            } else {
                step == ExerciseStep::Write(
                    AwaitWrite::Recover {
                        recovery,
                        original,
                        target,
                        cause: Interruption::Mismatch(v),
                    },
                    original,
                )
            },
            Err(e) => step == after_failure(recovery, original, target, Stage::VerifyTarget, e),
        },
        AwaitRead::Restored { original } => match r {
            Ok(v) => if v == original {
                step == ExerciseStep::Done(ExerciseOutcome::Passed)
            } else {
                step == ExerciseStep::Done(
                    ExerciseOutcome::RestoreMismatch { expected: original, observed: v },
                )
            },
            Err(e) => step == ExerciseStep::Done(
                ExerciseOutcome::StepFailed { stage: Stage::VerifyRestore, error: e, restore: None },
            ),
        },
        AwaitRead::RecoveryCheck { original, target, cause, write_error } => step
            == ExerciseStep::Done(
            interrupted(target, cause, restore_report(original, write_error, r)),
        ),
    }
}

/// `step` is what follows when the write awaited by `state` gives `r`.
pub open spec fn write_step(state: AwaitWrite, r: Result<(), Error>, step: ExerciseStep) -> bool {
    match state {
        AwaitWrite::Target { recovery, original, target } => match r {
            Ok(()) => step == ExerciseStep::Read(AwaitRead::Target { recovery, original, target }),
            Err(e) => step == after_failure(recovery, original, target, Stage::WriteTarget, e),
        },
        AwaitWrite::Restore { original } => match r {
            Ok(()) => step == ExerciseStep::Read(AwaitRead::Restored { original }),
            Err(e) => step == ExerciseStep::Done(
                ExerciseOutcome::StepFailed { stage: Stage::Restore, error: e, restore: None },
            ),
        },
        AwaitWrite::Recover { recovery, original, target, cause } => match r {
            Ok(()) => step == ExerciseStep::Read(
                AwaitRead::RecoveryCheck { original, target, cause, write_error: None },
            ),
            Err(e) => match recovery {
                Recovery::OnMismatch => step == ExerciseStep::Read(
                    AwaitRead::RecoveryCheck { original, target, cause, write_error: Some(e) },
                ),
                Recovery::OnAnyFailure => step == ExerciseStep::Done(
                    interrupted(
                        target,
                        cause,
                        RestoreReport::Unverified { write: Some(e), read: None },
                    ),
                ),
            },
        },
    }
}

/// The first step of an exercise: read the original value.
pub fn start_exercise(recovery: Recovery) -> (r: ExerciseStep)
    ensures
        r == ExerciseStep::Read(AwaitRead::Original { recovery }),
{
    ExerciseStep::Read(AwaitRead::Original { recovery })
}

fn failure_step(
    recovery: Recovery,
    original: Setting,
    target: Setting,
    stage: Stage,
    error: Error,
) -> (r: ExerciseStep)
    ensures
        r == after_failure(recovery, original, target, stage, error),
{
    match recovery {
        Recovery::OnMismatch => ExerciseStep::Done(
            ExerciseOutcome::StepFailed { stage, error, restore: None },
        ),
        Recovery::OnAnyFailure => ExerciseStep::Write(
            AwaitWrite::Recover {
                recovery,
                original,
                target,
                cause: Interruption::Failed(stage, error),
            },
            original,
        ),
    }
}

fn interrupted_outcome(target: Setting, cause: Interruption, report: RestoreReport) -> (r:
    ExerciseOutcome)
    ensures
        r == interrupted(target, cause, report),
{
    match cause {
        Interruption::Failed(stage, error) => ExerciseOutcome::StepFailed {
            stage,
            error,
            restore: Some(report),
        },
        Interruption::Mismatch(observed) => ExerciseOutcome::Mismatch {
            expected: target,
            observed,
            report,
        },
    }
}

impl AwaitRead {
    /// Hand the result of the awaited read to the exercise.
    pub fn on_read(self, r: Result<Setting, Error>) -> (step: ExerciseStep)
        ensures
            read_step(self, r, step),
    {
        match self {
            AwaitRead::Original { recovery } => match r {
                Ok(v) => {
                    let target = v.toggled();
                    ExerciseStep::Write(AwaitWrite::Target { recovery, original: v, target }, target)
                },
                Err(e) => ExerciseStep::Done(
                    ExerciseOutcome::StepFailed {
                        stage: Stage::ReadOriginal,
                        error: e,
                        restore: None,
                    },
                ),
            },
            AwaitRead::Target { recovery, original, target } => match r {
                Ok(v) => if v == target {
                    ExerciseStep::Write(AwaitWrite::Restore { original }, original)
                } else {
                    ExerciseStep::Write(
                        AwaitWrite::Recover {
                            recovery,
                            original,
                            target,
                            cause: Interruption::Mismatch(v),
                        },
                        original,
                    )
                },
                Err(e) => failure_step(recovery, original, target, Stage::VerifyTarget, e),
            },
            AwaitRead::Restored { original } => match r {
                Ok(v) => if v == original {
                    ExerciseStep::Done(ExerciseOutcome::Passed)
                } else {
                    ExerciseStep::Done(
                        ExerciseOutcome::RestoreMismatch { expected: original, observed: v },
                    )
                },
                Err(e) => ExerciseStep::Done(
                    ExerciseOutcome::StepFailed {
                        stage: Stage::VerifyRestore,
                        error: e,
                        restore: None,
                    },
                ),
            },
            AwaitRead::RecoveryCheck { original, target, cause, write_error } => {
                let report = match r {
                    Ok(v) => match write_error {
                        None => if v == original {
                            RestoreReport::Verified
                        } else {
                            RestoreReport::Differs(v)
                        },
                        Some(w) => RestoreReport::Unverified { write: Some(w), read: None },
                    },
                    Err(e) => RestoreReport::Unverified { write: write_error, read: Some(e) },
                };
                ExerciseStep::Done(interrupted_outcome(target, cause, report))
            },
        }
    }
}

impl AwaitWrite {
    /// Hand the result of the awaited write to the exercise.
    pub fn on_write(self, r: Result<(), Error>) -> (step: ExerciseStep)
        ensures
            write_step(self, r, step),
    {
        match self {
            AwaitWrite::Target { recovery, original, target } => match r {
                Ok(()) => ExerciseStep::Read(AwaitRead::Target { recovery, original, target }),
                Err(e) => failure_step(recovery, original, target, Stage::WriteTarget, e),
            },
            AwaitWrite::Restore { original } => match r {
                Ok(()) => ExerciseStep::Read(AwaitRead::Restored { original }),
                Err(e) => ExerciseStep::Done(
                    ExerciseOutcome::StepFailed { stage: Stage::Restore, error: e, restore: None },
                ),
            },
            AwaitWrite::Recover { recovery, original, target, cause } => match r {
                Ok(()) => ExerciseStep::Read(
                    AwaitRead::RecoveryCheck { original, target, cause, write_error: None },
                ),
                Err(e) => match recovery {
                    Recovery::OnMismatch => ExerciseStep::Read(
                        AwaitRead::RecoveryCheck { original, target, cause, write_error: Some(e) },
                    ),
                    Recovery::OnAnyFailure => ExerciseStep::Done(
                        interrupted_outcome(
                            target,
                            cause,
                            RestoreReport::Unverified { write: Some(e), read: None },
                        ),
                    ),
                },
            },
        }
    }
}

/// Against a device that reads back what was last written to it, an
/// exercise writes the opposite of the original value, then the original
/// value, and passes.
pub proof fn law_faithful_device_passes(
    recovery: Recovery,
    original: Setting,
    s1: ExerciseStep,
    s2: ExerciseStep,
    s3: ExerciseStep,
    s4: ExerciseStep,
    s5: ExerciseStep,
)
    requires
        read_step(AwaitRead::Original { recovery }, Ok(original), s1),
        s1 matches ExerciseStep::Write(w1, target) && (write_step(w1, Ok(()), s2) && (
        s2 matches ExerciseStep::Read(r2) && read_step(r2, Ok(target), s3))),
        s3 matches ExerciseStep::Write(w3, restored) && (write_step(w3, Ok(()), s4) && (
        s4 matches ExerciseStep::Read(r4) && read_step(r4, Ok(restored), s5))),
    ensures
        is_opposite(original, s1->Write_1),
        s3->Write_1 == original,
        s5 == ExerciseStep::Done(ExerciseOutcome::Passed),
{
}

/// Once the opposite value has been requested, the only value an exercise
/// writes is the original one; it writes it back whenever the read-back
/// differs from the requested value, and, when recovering on any failure,
/// after every failed step as well.
pub proof fn law_only_original_written_back(
    recovery: Recovery,
    original: Setting,
    target: Setting,
    read: Result<Setting, Error>,
    write: Result<(), Error>,
    after_read: ExerciseStep,
    after_write: ExerciseStep,
)
    requires
        read_step(AwaitRead::Target { recovery, original, target }, read, after_read),
        write_step(AwaitWrite::Target { recovery, original, target }, write, after_write),
    ensures
        after_read is Write ==> after_read->Write_1 == original,
        after_write is Write ==> after_write->Write_1 == original,
        (read matches Ok(v) && v != target) ==> after_read is Write,
        recovery == Recovery::OnAnyFailure ==> after_read is Write,
        recovery == Recovery::OnAnyFailure && write is Err ==> after_write is Write,
{
}

/// An exercise passes only at its last check, when the device reports the
/// original value after it was written back.
pub proof fn law_pass_needs_restored_original(
    read_state: AwaitRead,
    read: Result<Setting, Error>,
    after_read: ExerciseStep,
    write_state: AwaitWrite,
    write: Result<(), Error>,
    after_write: ExerciseStep,
)
    requires
        read_step(read_state, read, after_read),
        write_step(write_state, write, after_write),
    ensures
        after_read == ExerciseStep::Done(ExerciseOutcome::Passed) ==> (read_state matches AwaitRead::Restored { original } && read == Ok::<Setting, Error>(original)),
        after_write != ExerciseStep::Done(ExerciseOutcome::Passed),
{
}

/// The exercises of the hardware harness, in the order in which it runs them.
#[derive(Debug, Clone, Copy, PartialEq, Eq, Structural)]
pub enum ExerciseKind {
    /// Toggle the brightness level and restore it.
    Brightness,
    /// Invert the vibration flags and restore them.
    VibrationSettings,
    /// Start the vibration motor, wait, and stop it.
    DirectVibration,
    /// Lock the device, then unlock it.
    LockUnlock,
    /// Toggle `FlexPuff` and restore it.
    FlexPuff,
    /// Swap the `FlexBattery` mode, invert Pause Mode, and restore both.
    FlexBattery,
    /// Toggle Smart Gesture and restore it.
    SmartGesture,
    /// Toggle Auto Start and restore it.
    AutoStart,
}

/// `kind` when `model` supports `capability`, nothing otherwise.
pub open spec fn when_supported(
    model: DeviceModel,
    capability: DeviceCapability,
    kind: ExerciseKind,
) -> Seq<ExerciseKind> {
    if model.spec_supports(capability) {
        seq![kind]
    } else {
        seq![]
    }
}

/// The exercises run on `model`: brightness, vibration settings, direct
/// vibration and lock / unlock always, then `FlexPuff`, `FlexBattery`, Smart
/// Gesture and Auto Start where the model supports them.
pub open spec fn spec_exercise_plan(model: DeviceModel) -> Seq<ExerciseKind> {
    seq![
        ExerciseKind::Brightness,
        ExerciseKind::VibrationSettings,
        ExerciseKind::DirectVibration,
        ExerciseKind::LockUnlock,
    ] + when_supported(model, DeviceCapability::FlexPuff, ExerciseKind::FlexPuff)
        + when_supported(model, DeviceCapability::FlexBattery, ExerciseKind::FlexBattery)
        + when_supported(model, DeviceCapability::SmartGesture, ExerciseKind::SmartGesture)
        + when_supported(model, DeviceCapability::AutoStart, ExerciseKind::AutoStart)
}

fn push_when_supported(
    plan: &mut Vec<ExerciseKind>,
    model: DeviceModel,
    capability: DeviceCapability,
    kind: ExerciseKind,
)
    ensures
        final(plan)@ == old(plan)@ + when_supported(model, capability, kind),
{
    if model.supports(capability) {
        plan.push(kind);
    } else {
        assert(old(plan)@ + when_supported(model, capability, kind) =~= old(plan)@);
    }
}

/// The exercises to run on `model`, in order.
pub fn exercise_plan(model: DeviceModel) -> (r: Vec<ExerciseKind>)
    ensures
        r@ == spec_exercise_plan(model),
{
    let mut plan = vec![
        ExerciseKind::Brightness,
        ExerciseKind::VibrationSettings,
        ExerciseKind::DirectVibration,
        ExerciseKind::LockUnlock,
    ];
    push_when_supported(&mut plan, model, DeviceCapability::FlexPuff, ExerciseKind::FlexPuff);
    push_when_supported(&mut plan, model, DeviceCapability::FlexBattery, ExerciseKind::FlexBattery);
    push_when_supported(
        &mut plan,
        model,
        DeviceCapability::SmartGesture,
        ExerciseKind::SmartGesture,
    );
    push_when_supported(&mut plan, model, DeviceCapability::AutoStart, ExerciseKind::AutoStart);
    plan
}

impl ExerciseKind {
    /// The name under which the harness reports the exercise.
    pub open spec fn spec_label(self) -> Seq<char> {
        match self {
            ExerciseKind::Brightness => "brightness"@,
            ExerciseKind::VibrationSettings => "vibration settings"@,
            ExerciseKind::DirectVibration => "direct vibration"@,
            ExerciseKind::LockUnlock => "lock / unlock"@,
            ExerciseKind::FlexPuff => "flexpuff"@,
            ExerciseKind::FlexBattery => "flexbattery"@,
            ExerciseKind::SmartGesture => "smart gesture"@,
            ExerciseKind::AutoStart => "auto start"@,
        }
    }

    /// Return the name under which the harness reports the exercise.
    pub fn label(self) -> (r: &'static str)
        ensures
            r@ == self.spec_label(),
    {
        match self {
            ExerciseKind::Brightness => "brightness",
            ExerciseKind::VibrationSettings => "vibration settings",
            ExerciseKind::DirectVibration => "direct vibration",
            ExerciseKind::LockUnlock => "lock / unlock",
            ExerciseKind::FlexPuff => "flexpuff",
            ExerciseKind::FlexBattery => "flexbattery",
            ExerciseKind::SmartGesture => "smart gesture",
            ExerciseKind::AutoStart => "auto start",
        }
    }
}

/// The report on a run in which `failures` parts of kind `noun` failed: none
/// when nothing failed, else `"<failures> <noun>(s) failed"`.
pub open spec fn spec_failure_summary(failures: nat, noun: Seq<char>) -> Option<Seq<char>> {
    if failures == 0 {
        None
    } else {
        Some(decimal(failures) + " "@ + noun + "(s) failed"@)
    }
}

/// Summarise a run in which `failures` parts of kind `noun` (such as
/// `"exercise"` or `"suite"`) failed; `None` when nothing failed.
pub fn failure_summary(failures: u64, noun: &str) -> (r: Option<String>)
    ensures
        r matches Some(m) ==> spec_failure_summary(failures as nat, noun@) == Some(m@),
        r is None ==> spec_failure_summary(failures as nat, noun@) is None,
{
    if failures == 0 {
        None
    } else {
        let text = append_decimal(String::new(), failures);
        let text = text.concat(" ");
        let text = text.concat(noun);
        let text = text.concat("(s) failed");
        proof {
            reveal_strlit(" ");
            reveal_strlit("(s) failed");
        }
        assert(text@ =~= decimal(failures as nat) + " "@ + noun@ + "(s) failed"@);
        Some(text)
    }
}

} // verus!
