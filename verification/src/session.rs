//! The request/reply exchanges of the device operations, as state machines.
//!
//! Each read operation is a machine: it starts by asking for a request (or by
//! finishing at once), and every reply that the transport hands back for a
//! request, a response frame or the transport's error, moves it to its next
//! step. The caller only performs the requests and feeds the replies back.

use vstd::prelude::*;
use vstd::slice::slice_to_vec;

use crate::error::{decode_error, decodes_as, fails_decoding, fails_unsupported, unsupported_for_model, Error};
use crate::protocol::brightness::{brightness_decoding, BrightnessLevel, LOAD_BRIGHTNESS_COMMAND};
use crate::protocol::diagnosis::{
    all_diagnosis_commands, diagnosis_decoding, empty_diagnostics, spec_all_diagnosis_commands,
    DiagnosticData, DiagnosticDataBuilder, LOAD_BATTERY_VOLTAGE_COMMAND,
};
use crate::protocol::firmware::{firmware_decoding, FirmwareKind, FirmwareVersion};
use crate::protocol::flexbattery::{
    flexbattery_decoding, pausemode_decoding, FlexBatterySettings, LOAD_FLEXBATTERY_COMMAND,
    LOAD_PAUSEMODE_COMMAND,
};
use crate::protocol::flexpuff::{flexpuff_decoding, FlexPuffSetting, LOAD_FLEXPUFF_COMMAND};
use crate::protocol::gesture::{autostart_decoding, autostart_from_response, LOAD_AUTOSTART_COMMAND};
use crate::protocol::types::{DeviceCapability, DeviceModel};
use crate::protocol::vibration::{
    charge_start_decoding, update_outcome, vibration_decoding, VibrationSettings, VibrationView,
    LOAD_VIBRATE_CHARGE_START_COMMAND, LOAD_VIBRATION_SETTINGS_COMMAND,
};

verus! {

/// The next step of an exchange.
pub enum Step<M, T> {
    /// Send `command` as a request and hand what comes back to the machine.
    Request(M, Vec<u8>),
    /// The operation is over, with this outcome.
    Done(Result<T, Error>),
}

/// A machine that is waiting for the reply to its last request.
pub trait Exchange: Sized {
    /// What the operation yields.
    type Output;

    /// Take the reply to the last request: a response frame, or the error the
    /// transport reported.
    fn on_reply(self, reply: Result<Vec<u8>, Error>) -> Step<Self, Self::Output>;
}

/// The step asks for `command` with next state `next`.
pub open spec fn asks<M, T>(step: Step<M, T>, command: Seq<u8>, next: M) -> bool {
    step matches Step::Request(m, c) && c@ == command && m == next
}

/// The step ends the operation with the transport's error `e`.
pub open spec fn passes_on<M, T>(step: Step<M, T>, e: Error) -> bool {
    step matches Step::Done(Err(x)) && x == e
}

/// The step ends the operation with an outcome that satisfies `p`.
pub open spec fn finishes<M, T>(step: Step<M, T>, p: spec_fn(Result<T, Error>) -> bool) -> bool {
    step matches Step::Done(out) && p(out)
}

/// Reading the brightness: one request for the brightness frame.
pub struct BrightnessRead;

impl BrightnessRead {
    /// Ask for the brightness frame.
    pub fn start() -> (r: Step<BrightnessRead, BrightnessLevel>)
        ensures
            asks(r, LOAD_BRIGHTNESS_COMMAND@, BrightnessRead),
    {
        Step::Request(BrightnessRead, slice_to_vec(&LOAD_BRIGHTNESS_COMMAND))
    }
}

impl Exchange for BrightnessRead {
    type Output = BrightnessLevel;

    /// A frame decodes to the level; a transport error ends the read.
    fn on_reply(self, reply: Result<Vec<u8>, Error>) -> (r: Step<BrightnessRead, BrightnessLevel>)
        ensures
            match reply {
                Err(e) => passes_on(r, e),
                Ok(frame) => finishes(r, |out| decodes_as(out, brightness_decoding(frame@))),
            },
    {
        match reply {
            Err(e) => Step::Done(Err(e)),
            Ok(frame) => Step::Done(BrightnessLevel::from_response(&frame)),
        }
    }
}


/// Reading `FlexPuff`: one request for the `FlexPuff` frame.
pub struct FlexPuffRead;

impl FlexPuffRead {
    /// Ask for the `FlexPuff` frame.
    pub fn start() -> (r: Step<FlexPuffRead, FlexPuffSetting>)
        ensures
            asks(r, LOAD_FLEXPUFF_COMMAND@, FlexPuffRead),
    {
        Step::Request(FlexPuffRead, slice_to_vec(&LOAD_FLEXPUFF_COMMAND))
    }
}

impl Exchange for FlexPuffRead {
    type Output = FlexPuffSetting;

    /// A frame decodes to the setting; a transport error ends the read.
    fn on_reply(self, reply: Result<Vec<u8>, Error>) -> (r: Step<FlexPuffRead, FlexPuffSetting>)
        ensures
            match reply {
                Err(e) => passes_on(r, e),
                Ok(frame) => finishes(
                    r,
                    |out: Result<FlexPuffSetting, Error>|
                        match flexpuff_decoding(frame@) {
                            Ok(enabled) => out matches Ok(s) && s@ == enabled,
                            Err(m) => fails_decoding(out, m),
                        },
                ),
            },
    {
        match reply {
            Err(e) => Step::Done(Err(e)),
            Ok(frame) => Step::Done(FlexPuffSetting::from_response(&frame)),
        }
    }
}

/// Reading Auto Start, which needs a holder-based ILUMA or ILUMA i model:
/// one request.
pub struct AutostartRead;

impl AutostartRead {
    /// Ask for the Auto Start frame, or fail at once when the model lacks
    /// Auto Start.
    pub fn start(model: DeviceModel) -> (r: Step<AutostartRead, bool>)
        ensures
            !model.spec_holder_features() ==> finishes(
                r,
                |out: Result<bool, Error>|
                    fails_unsupported(out, "Auto Start is not supported for model "@ + model.spec_name()),
            ),
            model.spec_holder_features() ==> asks(
                r,
                LOAD_AUTOSTART_COMMAND@,
                AutostartRead,
            ),
    {
        if !model.supports_holder_features() {
            return Step::Done(
                Err(unsupported_for_model("Auto Start is not supported for model ", model)),
            );
        }
        Step::Request(AutostartRead, slice_to_vec(&LOAD_AUTOSTART_COMMAND))
    }
}

impl Exchange for AutostartRead {
    type Output = bool;

    /// A frame decodes to the Auto Start state; a transport error ends the read.
    fn on_reply(self, reply: Result<Vec<u8>, Error>) -> (r: Step<AutostartRead, bool>)
        ensures
            match reply {
                Err(e) => passes_on(r, e),
                Ok(frame) => finishes(
                    r,
                    |out: Result<bool, Error>| decodes_as(out, autostart_decoding(frame@)),
                ),
            },
    {
        match reply {
            Err(e) => Step::Done(Err(e)),
            Ok(frame) => Step::Done(autostart_from_response(&frame)),
        }
    }
}

/// Reading a firmware version: one request for the component's frame.
pub struct FirmwareRead {
    /// The component whose firmware is read.
    pub kind: FirmwareKind,
}

impl FirmwareRead {
    /// Ask for the firmware frame of `kind`.
    pub fn start(kind: FirmwareKind) -> (r: Step<FirmwareRead, FirmwareVersion>)
        ensures
            asks(r, kind.spec_load_command(), FirmwareRead { kind }),
    {
        Step::Request(FirmwareRead { kind }, slice_to_vec(kind.load_command()))
    }
}

impl Exchange for FirmwareRead {
    type Output = FirmwareVersion;

    /// A frame decodes to the version; a transport error ends the read.
    fn on_reply(self, reply: Result<Vec<u8>, Error>) -> (r: Step<FirmwareRead, FirmwareVersion>)
        ensures
            match reply {
                Err(e) => passes_on(r, e),
                Ok(frame) => finishes(
                    r,
                    |out: Result<FirmwareVersion, Error>|
                        decodes_as(out, firmware_decoding(frame@, self.kind)),
                ),
            },
    {
        match reply {
            Err(e) => Step::Done(Err(e)),
            Ok(frame) => Step::Done(FirmwareVersion::from_response(&frame, self.kind)),
        }
    }
}

/// What a battery-voltage frame yields, in millivolts: the frame is parsed as
/// a diagnosis frame from empty data, and it must carry a battery reading.
pub open spec fn battery_decoding(frame: Seq<u8>) -> Result<u16, Seq<char>> {
    match diagnosis_decoding(empty_diagnostics(), frame) {
        Err(m) => Err(m),
        Ok(data) => match data.battery_millivolts {
            Some(mv) => Ok(mv),
            None => Err("battery voltage not present in response"@),
        },
    }
}

/// Decode a battery-voltage frame to millivolts.
fn battery_from_frame(frame: &[u8]) -> (r: Result<u16, Error>)
    ensures
        decodes_as(r, battery_decoding(frame@)),
{
    let builder = DiagnosticDataBuilder::default();
    let data = builder.parse(frame)?.build();
    match data.battery_millivolts {
        Some(mv) => Ok(mv),
        None => Err(decode_error("battery voltage not present in response")),
    }
}

/// Reading the battery voltage (in millivolts): one request for the battery
/// frame.
pub struct BatteryVoltageRead;

impl BatteryVoltageRead {
    /// Ask for the battery-voltage frame.
    pub fn start() -> (r: Step<BatteryVoltageRead, u16>)
        ensures
            asks(r, LOAD_BATTERY_VOLTAGE_COMMAND@, BatteryVoltageRead),
    {
        Step::Request(BatteryVoltageRead, slice_to_vec(&LOAD_BATTERY_VOLTAGE_COMMAND))
    }
}

impl Exchange for BatteryVoltageRead {
    type Output = u16;

    /// A frame decodes to the battery reading; a transport error ends the read.
    fn on_reply(self, reply: Result<Vec<u8>, Error>) -> (r: Step<BatteryVoltageRead, u16>)
        ensures
            match reply {
                Err(e) => passes_on(r, e),
                Ok(frame) => finishes(
                    r,
                    |out: Result<u16, Error>| decodes_as(out, battery_decoding(frame@)),
                ),
            },
    {
        match reply {
            Err(e) => Step::Done(Err(e)),
            Ok(frame) => Step::Done(battery_from_frame(&frame)),
        }
    }
}

/// Reading `FlexBattery`, which needs ILUMA i or ILUMA i PRIME: a request for
/// the mode frame, then one for the Pause Mode frame; both are decoded once
/// both have arrived.
pub enum FlexBatteryRead {
    /// Waiting for the mode frame.
    AwaitingMode,
    /// Waiting for the Pause Mode frame, with the mode frame received.
    AwaitingPauseMode(Vec<u8>),
}

impl FlexBatteryRead {
    /// Ask for the mode frame, or fail at once when the model lacks `FlexBattery`.
    pub fn start(model: DeviceModel) -> (r: Step<FlexBatteryRead, FlexBatterySettings>)
        ensures
            !model.spec_supports(DeviceCapability::FlexBattery) ==> finishes(
                r,
                |out: Result<FlexBatterySettings, Error>|
                    fails_unsupported(out, "FlexBattery is not supported for model "@ + model.spec_name()),
            ),
            model.spec_supports(DeviceCapability::FlexBattery) ==> asks(
                r,
                LOAD_FLEXBATTERY_COMMAND@,
                FlexBatteryRead::AwaitingMode,
            ),
    {
        if !model.supports(DeviceCapability::FlexBattery) {
            return Step::Done(
                Err(unsupported_for_model("FlexBattery is not supported for model ", model)),
            );
        }
        Step::Request(FlexBatteryRead::AwaitingMode, slice_to_vec(&LOAD_FLEXBATTERY_COMMAND))
    }
}

impl Exchange for FlexBatteryRead {
    type Output = FlexBatterySettings;

    /// The mode frame leads to the Pause Mode request; the Pause Mode frame
    /// ends the read with both frames decoded, the mode frame first; a
    /// transport error ends the read.
    fn on_reply(self, reply: Result<Vec<u8>, Error>) -> (r: Step<
        FlexBatteryRead,
        FlexBatterySettings,
    >)
        ensures
            match reply {
                Err(e) => passes_on(r, e),
                Ok(frame) => match self {
                    FlexBatteryRead::AwaitingMode => r matches Step::Request(
                        FlexBatteryRead::AwaitingPauseMode(mode_frame),
                        c,
                    ) && c@ == LOAD_PAUSEMODE_COMMAND@ && mode_frame@ == frame@,
                    FlexBatteryRead::AwaitingPauseMode(mode_frame) => finishes(
                        r,
                        |out: Result<FlexBatterySettings, Error>|
                            match (flexbattery_decoding(mode_frame@), pausemode_decoding(frame@)) {
                                (Err(m), _) => fails_decoding(out, m),
                                (Ok(_), Err(m)) => fails_decoding(out, m),
                                (Ok(mode), Ok(pause)) => out matches Ok(s) && s@ == (
                                    mode,
                                    Some(pause),
                                ),
                            },
                    ),
                },
            },
    {
        match reply {
            Err(e) => Step::Done(Err(e)),
            Ok(frame) => match self {
                FlexBatteryRead::AwaitingMode => Step::Request(
                    FlexBatteryRead::AwaitingPauseMode(frame),
                    slice_to_vec(&LOAD_PAUSEMODE_COMMAND),
                ),
                FlexBatteryRead::AwaitingPauseMode(mode_frame) => Step::Done(
                    FlexBatterySettings::from_responses(&mode_frame, &frame),
                ),
            },
        }
    }
}

/// Reading diagnostic telemetry: the four diagnosis commands in order, each
/// reply parsed into the accumulated data before the next request.
pub struct DiagnosisRead {
    /// The data accumulated from the frames received so far.
    pub data: DiagnosticData,
    /// How many of the diagnosis commands have been requested.
    pub requested: usize,
}

impl DiagnosisRead {
    /// Ask for the first diagnosis frame.
    pub fn start() -> (r: Step<DiagnosisRead, DiagnosticData>)
        ensures
            asks(
                r,
                spec_all_diagnosis_commands()[0],
                DiagnosisRead { data: empty_diagnostics(), requested: 1 },
            ),
    {
        let commands = all_diagnosis_commands();
        Step::Request(
            DiagnosisRead { data: DiagnosticData::new(), requested: 1 },
            slice_to_vec(commands[0]),
        )
    }
}

impl Exchange for DiagnosisRead {
    type Output = DiagnosticData;

    /// Each frame is parsed into the data; the next command follows until all
    /// four have been requested, and then the read ends with the data. A
    /// decoding error or a transport error ends the read.
    fn on_reply(self, reply: Result<Vec<u8>, Error>) -> (r: Step<DiagnosisRead, DiagnosticData>)
        ensures
            match reply {
                Err(e) => passes_on(r, e),
                Ok(frame) => match diagnosis_decoding(self.data, frame@) {
                    Err(m) => finishes(r, |out: Result<DiagnosticData, Error>| fails_decoding(out, m)),
                    Ok(data) => if self.requested < 4 {
                        asks(
                            r,
                            spec_all_diagnosis_commands()[self.requested as int],
                            DiagnosisRead { data, requested: (self.requested + 1) as usize },
                        )
                    } else {
                        finishes(
                            r,
                            |out: Result<DiagnosticData, Error>|
                                out == Ok::<DiagnosticData, Error>(data),
                        )
                    },
                },
            },
    {
        match reply {
            Err(e) => Step::Done(Err(e)),
            Ok(frame) => {
                let builder = DiagnosticDataBuilder::from_data(self.data);
                match builder.parse(&frame) {
                    Err(e) => Step::Done(Err(e)),
                    Ok(builder) => {
                        let data = builder.build();
                        if self.requested < 4 {
                            let commands = all_diagnosis_commands();
                            let next = slice_to_vec(commands[self.requested]);
                            Step::Request(
                                DiagnosisRead { data, requested: self.requested + 1 },
                                next,
                            )
                        } else {
                            Step::Done(Ok(data))
                        }
                    },
                }
            },
        }
    }
}

/// Reading the vibration settings for a model: holder-based models first
/// request the charge-start frame, then every model requests the main
/// vibration frame.
pub struct VibrationRead {
    /// The model whose settings are read.
    pub model: DeviceModel,
    /// What has been received so far.
    pub stage: VibrationReadStage,
}

/// The progress of a [`VibrationRead`].
pub enum VibrationReadStage {
    /// Waiting for the charge-start frame.
    AwaitingChargeStart,
    /// Waiting for the main vibration frame, with the charge-start state
    /// observed before, if any.
    AwaitingMain(Option<bool>),
}

impl VibrationRead {
    /// Ask for the first frame, or fail at once when the model has no vibration.
    pub fn start(model: DeviceModel) -> (r: Step<VibrationRead, VibrationSettings>)
        ensures
            !model.spec_supports(DeviceCapability::Vibration) ==> finishes(
                r,
                |out: Result<VibrationSettings, Error>|
                    fails_unsupported(out, "vibration is not supported for model "@ + model.spec_name()),
            ),
            model.spec_supports(DeviceCapability::Vibration) && model.spec_supports(
                DeviceCapability::ChargeStartVibration,
            ) ==> asks(
                r,
                LOAD_VIBRATE_CHARGE_START_COMMAND@,
                VibrationRead { model, stage: VibrationReadStage::AwaitingChargeStart },
            ),
            model.spec_supports(DeviceCapability::Vibration) && !model.spec_supports(
                DeviceCapability::ChargeStartVibration,
            ) ==> asks(
                r,
                LOAD_VIBRATION_SETTINGS_COMMAND@,
                VibrationRead { model, stage: VibrationReadStage::AwaitingMain(None) },
            ),
    {
        if !model.supports(DeviceCapability::Vibration) {
            return Step::Done(
                Err(unsupported_for_model("vibration is not supported for model ", model)),
            );
        }
        if model.supports_charge_start_vibration() {
            Step::Request(
                VibrationRead { model, stage: VibrationReadStage::AwaitingChargeStart },
                slice_to_vec(&LOAD_VIBRATE_CHARGE_START_COMMAND),
            )
        } else {
            Step::Request(
                VibrationRead { model, stage: VibrationReadStage::AwaitingMain(None) },
                slice_to_vec(&LOAD_VIBRATION_SETTINGS_COMMAND),
            )
        }
    }
}

impl Exchange for VibrationRead {
    type Output = VibrationSettings;

    /// The charge-start frame is decoded and leads to the main request; the
    /// main frame ends the read with its settings, carrying the charge-start
    /// state observed before. A decoding or transport error ends the read.
    fn on_reply(self, reply: Result<Vec<u8>, Error>) -> (r: Step<VibrationRead, VibrationSettings>)
        ensures
            match reply {
                Err(e) => passes_on(r, e),
                Ok(frame) => match self.stage {
                    VibrationReadStage::AwaitingChargeStart => match charge_start_decoding(frame@) {
                        Err(m) => finishes(
                            r,
                            |out: Result<VibrationSettings, Error>| fails_decoding(out, m),
                        ),
                        Ok(on) => asks(
                            r,
                            LOAD_VIBRATION_SETTINGS_COMMAND@,
                            VibrationRead {
                                model: self.model,
                                stage: VibrationReadStage::AwaitingMain(Some(on)),
                            },
                        ),
                    },
                    VibrationReadStage::AwaitingMain(charge_start) => match vibration_decoding(
                        frame@,
                        self.model,
                    ) {
                        Err(m) => finishes(
                            r,
                            |out: Result<VibrationSettings, Error>| fails_decoding(out, m),
                        ),
                        Ok(v) => finishes(
                            r,
                            |out: Result<VibrationSettings, Error>|
                                out matches Ok(s) && s@ == (match charge_start {
                                    Some(on) => VibrationView { charge_start: Some(on), ..v },
                                    None => v,
                                }),
                        ),
                    },
                },
            },
    {
        match reply {
            Err(e) => Step::Done(Err(e)),
            Ok(frame) => match self.stage {
                VibrationReadStage::AwaitingChargeStart => {
                    match VibrationSettings::charge_start_from_response(&frame) {
                        Err(e) => Step::Done(Err(e)),
                        Ok(on) => Step::Request(
                            VibrationRead {
                                model: self.model,
                                stage: VibrationReadStage::AwaitingMain(Some(on)),
                            },
                            slice_to_vec(&LOAD_VIBRATION_SETTINGS_COMMAND),
                        ),
                    }
                },
                VibrationReadStage::AwaitingMain(charge_start) => {
                    match VibrationSettings::from_response(&frame, self.model) {
                        Err(e) => Step::Done(Err(e)),
                        Ok(settings) => match charge_start {
                            Some(on) => Step::Done(Ok(settings.with_observed_charge_start(on))),
                            None => Step::Done(Ok(settings)),
                        },
                    }
                },
            },
        }
    }
}

/// Updating the vibration settings for a model. On holder-based models whose
/// requested settings leave charge start unspecified, the device's current
/// charge-start state is read first and kept. The outcome is the sequence of
/// frames to send.
pub struct VibrationUpdate {
    /// The model being updated.
    pub model: DeviceModel,
    /// The requested settings.
    pub settings: VibrationSettings,
}

impl VibrationUpdate {
    /// Ask for the charge-start frame when it is needed, or else end with the
    /// update sequence for the requested settings.
    pub fn start(model: DeviceModel, settings: VibrationSettings) -> (r: Step<
        VibrationUpdate,
        Vec<Vec<u8>>,
    >)
        ensures
            model.spec_supports(DeviceCapability::ChargeStartVibration)
                && settings@.charge_start is None ==> asks(
                r,
                LOAD_VIBRATE_CHARGE_START_COMMAND@,
                VibrationUpdate { model, settings },
            ),
            !(model.spec_supports(DeviceCapability::ChargeStartVibration)
                && settings@.charge_start is None) ==> finishes(
                r,
                |out: Result<Vec<Vec<u8>>, Error>| update_outcome(out, settings@, model),
            ),
    {
        if model.supports_charge_start_vibration() && settings.when_charging_start().is_none() {
            Step::Request(
                VibrationUpdate { model, settings },
                slice_to_vec(&LOAD_VIBRATE_CHARGE_START_COMMAND),
            )
        } else {
            Step::Done(settings.build_update_commands(model))
        }
    }
}

impl Exchange for VibrationUpdate {
    type Output = Vec<Vec<u8>>;

    /// The charge-start frame is decoded and its state is attached to the
    /// requested settings, whose update sequence ends the exchange; a
    /// decoding or transport error ends it instead.
    fn on_reply(self, reply: Result<Vec<u8>, Error>) -> (r: Step<VibrationUpdate, Vec<Vec<u8>>>)
        ensures
            match reply {
                Err(e) => passes_on(r, e),
                Ok(frame) => match charge_start_decoding(frame@) {
                    Err(m) => finishes(r, |out: Result<Vec<Vec<u8>>, Error>| fails_decoding(out, m)),
                    Ok(on) => finishes(
                        r,
                        |out: Result<Vec<Vec<u8>>, Error>|
                            update_outcome(
                                out,
                                VibrationView { charge_start: Some(on), ..self.settings@ },
                                self.model,
                            ),
                    ),
                },
            },
    {
        match reply {
            Err(e) => Step::Done(Err(e)),
            Ok(frame) => match VibrationSettings::charge_start_from_response(&frame) {
                Err(e) => Step::Done(Err(e)),
                Ok(on) => Step::Done(
                    self.settings.with_observed_charge_start(on).build_update_commands(self.model),
                ),
            },
        }
    }
}

/// A device status snapshot: the stick firmware, the holder firmware on
/// holder-based models, and the battery reading in millivolts when it could
/// be read.
#[derive(Debug, Clone, Copy, PartialEq, Eq, Structural)]
pub struct DeviceStatusReading {
    /// Firmware reported by the stick, or by the device itself on one-piece models.
    pub stick_firmware: FirmwareVersion,
    /// Firmware reported by the holder, on holder-based models.
    pub holder_firmware: Option<FirmwareVersion>,
    /// Battery voltage in millivolts, or `None` when the battery read failed.
    pub battery_millivolts: Option<u16>,
}

/// Reading a device status snapshot: the stick firmware, then the holder
/// firmware on holder-based models, then the battery voltage. Firmware
/// failures end the read; a battery failure only leaves the reading empty.
pub struct DeviceStatusRead {
    /// The model whose status is read.
    pub model: DeviceModel,
    /// What has been received so far.
    pub stage: DeviceStatusStage,
}

/// The progress of a [`DeviceStatusRead`].
pub enum DeviceStatusStage {
    /// Waiting for the stick firmware frame.
    AwaitingStick,
    /// Waiting for the holder firmware frame.
    AwaitingHolder(FirmwareVersion),
    /// Waiting for the battery frame.
    AwaitingBattery(FirmwareVersion, Option<FirmwareVersion>),
}

/// The battery reading that a battery reply yields within a status read: the
/// decoded millivolts, or nothing when the transport or the decoding failed.
pub open spec fn battery_reading(reply: Result<Vec<u8>, Error>) -> Option<u16> {
    match reply {
        Err(_) => None,
        Ok(frame) => match battery_decoding(frame@) {
            Ok(mv) => Some(mv),
            Err(_) => None,
        },
    }
}

impl DeviceStatusRead {
    /// Ask for the stick firmware frame.
    pub fn start(model: DeviceModel) -> (r: Step<DeviceStatusRead, DeviceStatusReading>)
        ensures
            asks(
                r,
                FirmwareKind::Stick.spec_load_command(),
                DeviceStatusRead { model, stage: DeviceStatusStage::AwaitingStick },
            ),
    {
        Step::Request(
            DeviceStatusRead { model, stage: DeviceStatusStage::AwaitingStick },
            slice_to_vec(FirmwareKind::Stick.load_command()),
        )
    }
}

impl Exchange for DeviceStatusRead {
    type Output = DeviceStatusReading;

    /// Firmware frames are decoded in turn, each failure ending the read; the
    /// battery reply ends the read with the snapshot, whatever it holds.
    fn on_reply(self, reply: Result<Vec<u8>, Error>) -> (r: Step<
        DeviceStatusRead,
        DeviceStatusReading,
    >)
        ensures
            match self.stage {
                DeviceStatusStage::AwaitingStick => match reply {
                    Err(e) => passes_on(r, e),
                    Ok(frame) => match firmware_decoding(frame@, FirmwareKind::Stick) {
                        Err(m) => finishes(
                            r,
                            |out: Result<DeviceStatusReading, Error>| fails_decoding(out, m),
                        ),
                        Ok(stick) => if self.model.spec_holder_features() {
                            asks(
                                r,
                                FirmwareKind::Holder.spec_load_command(),
                                DeviceStatusRead {
                                    model: self.model,
                                    stage: DeviceStatusStage::AwaitingHolder(stick),
                                },
                            )
                        } else {
                            asks(
                                r,
                                LOAD_BATTERY_VOLTAGE_COMMAND@,
                                DeviceStatusRead {
                                    model: self.model,
                                    stage: DeviceStatusStage::AwaitingBattery(stick, None),
                                },
                            )
                        },
                    },
                },
                DeviceStatusStage::AwaitingHolder(stick) => match reply {
                    Err(e) => passes_on(r, e),
                    Ok(frame) => match firmware_decoding(frame@, FirmwareKind::Holder) {
                        Err(m) => finishes(
                            r,
                            |out: Result<DeviceStatusReading, Error>| fails_decoding(out, m),
                        ),
                        Ok(holder) => asks(
                            r,
                            LOAD_BATTERY_VOLTAGE_COMMAND@,
                            DeviceStatusRead {
                                model: self.model,
                                stage: DeviceStatusStage::AwaitingBattery(stick, Some(holder)),
                            },
                        ),
                    },
                },
                DeviceStatusStage::AwaitingBattery(stick, holder) => finishes(
                    r,
                    |out: Result<DeviceStatusReading, Error>|
                        out == Ok::<DeviceStatusReading, Error>(
                            DeviceStatusReading {
                                stick_firmware: stick,
                                holder_firmware: holder,
                                battery_millivolts: battery_reading(reply),
                            },
                        ),
                ),
            },
    {
        match self.stage {
            DeviceStatusStage::AwaitingStick => match reply {
                Err(e) => Step::Done(Err(e)),
                Ok(frame) => match FirmwareVersion::from_response(&frame, FirmwareKind::Stick) {
                    Err(e) => Step::Done(Err(e)),
                    Ok(stick) => if self.model.supports_holder_features() {
                        Step::Request(
                            DeviceStatusRead {
                                model: self.model,
                                stage: DeviceStatusStage::AwaitingHolder(stick),
                            },
                            slice_to_vec(FirmwareKind::Holder.load_command()),
                        )
                    } else {
                        Step::Request(
                            DeviceStatusRead {
                                model: self.model,
                                stage: DeviceStatusStage::AwaitingBattery(stick, None),
                            },
                            slice_to_vec(&LOAD_BATTERY_VOLTAGE_COMMAND),
                        )
                    },
                },
            },
            DeviceStatusStage::AwaitingHolder(stick) => match reply {
                Err(e) => Step::Done(Err(e)),
                Ok(frame) => match FirmwareVersion::from_response(&frame, FirmwareKind::Holder) {
                    Err(e) => Step::Done(Err(e)),
                    Ok(holder) => Step::Request(
                        DeviceStatusRead {
                            model: self.model,
                            stage: DeviceStatusStage::AwaitingBattery(stick, Some(holder)),
                        },
                        slice_to_vec(&LOAD_BATTERY_VOLTAGE_COMMAND),
                    ),
                },
            },
            DeviceStatusStage::AwaitingBattery(stick, holder) => {
                let battery = match reply {
                    Err(_) => None,
                    Ok(frame) => match battery_from_frame(&frame) {
                        Ok(mv) => Some(mv),
                        Err(_) => None,
                    },
                };
                Step::Done(
                    Ok(
                        DeviceStatusReading {
                            stick_firmware: stick,
                            holder_firmware: holder,
                            battery_millivolts: battery,
                        },
                    ),
                )
            },
        }
    }
}

} // verus!
