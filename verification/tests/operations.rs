use std::collections::VecDeque;

use iqos::operations::{
    lock_sends, set_autostart_sends, set_brightness_sends, set_flexbattery_sends,
    set_flexpuff_sends, set_smartgesture_sends, unlock_sends, SendAll, SendStep,
};
use iqos::protocol::{
    all_diagnosis_commands, autostart_command, lock_commands, pausemode_command,
    smartgesture_command, unlock_commands, LOAD_AUTOSTART_COMMAND, LOAD_BATTERY_VOLTAGE_COMMAND,
    LOAD_BRIGHTNESS_COMMAND, LOAD_FLEXBATTERY_COMMAND, LOAD_FLEXPUFF_COMMAND,
    LOAD_HOLDER_FIRMWARE_VERSION_COMMAND, LOAD_PAUSEMODE_COMMAND,
    LOAD_STICK_FIRMWARE_VERSION_COMMAND, LOAD_VIBRATE_CHARGE_START_COMMAND,
    LOAD_VIBRATION_SETTINGS_COMMAND,
};
use iqos::session::{
    AutostartRead, BatteryVoltageRead, BrightnessRead, DeviceStatusRead, DiagnosisRead, Exchange,
    FirmwareRead, FlexBatteryRead, FlexPuffRead, Step, VibrationRead, VibrationUpdate,
};
use iqos::{
    BrightnessLevel, DeviceModel, Error, FirmwareKind, FirmwareVersion, FlexBatteryMode,
    FlexBatterySettings, FlexPuffSetting, Iqos, VibrationSettings,
};

/// A transport stand-in that records every frame and answers from queues.
#[derive(Debug)]
struct MockTransport {
    requests: Vec<Vec<u8>>,
    sends: Vec<Vec<u8>>,
    responses: VecDeque<Result<Vec<u8>, Error>>,
    send_results: VecDeque<Result<(), Error>>,
}

impl MockTransport {
    fn with_responses(responses: impl IntoIterator<Item = Result<Vec<u8>, Error>>) -> Self {
        MockTransport {
            requests: Vec::new(),
            sends: Vec::new(),
            responses: responses.into_iter().collect(),
            send_results: VecDeque::new(),
        }
    }

    fn with_send_results(mut self, results: impl IntoIterator<Item = Result<(), Error>>) -> Self {
        self.send_results = results.into_iter().collect();
        self
    }

    fn request(&mut self, command: &[u8]) -> Result<Vec<u8>, Error> {
        self.requests.push(command.to_vec());
        self.responses
            .pop_front()
            .unwrap_or_else(|| Err(Error::Transport("missing queued response".to_string())))
    }

    fn send(&mut self, command: &[u8]) -> Result<(), Error> {
        self.sends.push(command.to_vec());
        self.send_results.pop_front().unwrap_or(Ok(()))
    }

    /// Perform the requests a machine asks for, feeding every reply back.
    fn run<M: Exchange>(&mut self, mut step: Step<M, M::Output>) -> Result<M::Output, Error> {
        loop {
            match step {
                Step::Request(machine, command) => {
                    let reply = self.request(&command);
                    step = machine.on_reply(reply);
                }
                Step::Done(outcome) => return outcome,
            }
        }
    }

    /// Send frames as the library's send machine asks.
    fn send_all(&mut self, frames: Vec<Vec<u8>>) -> Result<(), Error> {
        let mut step = SendAll::start(frames);
        loop {
            match step {
                SendStep::Send(state, frame) => {
                    let result = self.send(&frame);
                    step = state.on_sent(result);
                }
                SendStep::Done(outcome) => return outcome,
            }
        }
    }
}

fn iqos(transport: MockTransport) -> Iqos<MockTransport> {
    Iqos::new(transport)
}

fn to_vecs(commands: &[&[u8]]) -> Vec<Vec<u8>> {
    commands.iter().map(|command| command.to_vec()).collect()
}

#[test]
fn read_brightness_uses_expected_request_and_parses_response() {
    let mut iqos = iqos(MockTransport::with_responses([Ok(vec![
        0x00, 0xC0, 0x86, 0x23, 0x64, 0x00, 0x00, 0x00, 0x00,
    ])]));
    let brightness = iqos.transport_mut().run(BrightnessRead::start()).expect("brightness should parse");
    assert_eq!(brightness, BrightnessLevel::High);
    assert_eq!(iqos.transport().requests.as_slice(), &[LOAD_BRIGHTNESS_COMMAND.to_vec()]);
}

#[test]
fn read_firmware_version_uses_expected_request_and_parses_response() {
    let mut iqos = iqos(MockTransport::with_responses([Ok(vec![
        0x00, 0x08, 0x88, 0x00, 0x00, 0x00, 0x01, 0x02, 0x03, 0x19,
    ])]));
    let firmware = iqos
        .transport_mut()
        .run(FirmwareRead::start(FirmwareKind::Holder))
        .expect("firmware should parse");
    assert_eq!(firmware, FirmwareVersion { major: 1, minor: 2, patch: 3, year: 25 });
    assert_eq!(iqos.transport().requests.as_slice(), &[LOAD_HOLDER_FIRMWARE_VERSION_COMMAND.to_vec()]);
}

#[test]
fn read_brightness_propagates_transport_errors() {
    let mut iqos = iqos(MockTransport::with_responses([Err(Error::Transport("transport down".to_string()))]));
    let error = iqos.transport_mut().run(BrightnessRead::start()).expect_err("transport error should surface");
    assert!(matches!(error, Error::Transport(message) if message == "transport down"));
}

#[test]
fn read_firmware_version_propagates_decode_errors() {
    let mut iqos = iqos(MockTransport::with_responses([Ok(vec![
        0x00, 0xC9, 0x88, 0x00, 0x00, 0x00, 0x02, 0x05, 0x07, 0x18,
    ])]));
    let error = iqos
        .transport_mut()
        .run(FirmwareRead::start(FirmwareKind::Stick))
        .expect_err("invalid firmware frame should fail");
    assert!(matches!(error, Error::ProtocolDecode(message) if message.contains("header mismatch")));
}

#[test]
fn read_vibration_settings_for_one_piece_model_uses_single_request() {
    let mut iqos = iqos(MockTransport::with_responses([Ok(vec![
        0x00, 0x08, 0x84, 0x23, 0x10, 0x00, 0x01, 0x10, 0x77,
    ])]));
    let settings = iqos
        .transport_mut()
        .run(VibrationRead::start(DeviceModel::IlumaOne))
        .expect("one-piece vibration should parse");
    assert_eq!(settings, VibrationSettings::new(true, false, false, true));
    assert_eq!(iqos.transport().requests.as_slice(), &[LOAD_VIBRATION_SETTINGS_COMMAND.to_vec()]);
}

#[test]
fn read_vibration_settings_for_holder_model_reads_charge_start_first() {
    let mut iqos = iqos(MockTransport::with_responses([
        Ok(vec![
            0x00, 0x08, 0x8B, 0x04, 0x04, 0x00, 0x00, 0x00, 0x00, 0x00, 0x00, 0x00, 0x00, 0x00,
            0x00, 0x00, 0x00, 0x00, 0x56,
        ]),
        Ok(vec![0x00, 0x08, 0x84, 0x23, 0x10, 0x00, 0x10, 0x01, 0x77]),
    ]));
    let settings = iqos
        .transport_mut()
        .run(VibrationRead::start(DeviceModel::Iluma))
        .expect("holder vibration");
    assert_eq!(settings, VibrationSettings::with_charge_start(false, true, true, false, true));
    assert_eq!(
        iqos.transport().requests.as_slice(),
        &[LOAD_VIBRATE_CHARGE_START_COMMAND.to_vec(), LOAD_VIBRATION_SETTINGS_COMMAND.to_vec()],
    );
}

fn update_vibration(
    transport: &mut MockTransport,
    model: DeviceModel,
    settings: VibrationSettings,
) -> Result<(), Error> {
    let commands = transport.run(VibrationUpdate::start(model, settings))?;
    transport.send_all(commands)
}

#[test]
fn update_vibration_settings_sends_expected_basic_command() {
    let mut iqos = iqos(MockTransport::with_responses([]));
    update_vibration(iqos.transport_mut(), DeviceModel::IlumaOne, VibrationSettings::new(true, false, true, false))
        .expect("basic vibration update should succeed");
    assert_eq!(
        iqos.transport().sends.as_slice(),
        &[vec![0x00, 0xC9, 0x44, 0x23, 0x10, 0x00, 0x01, 0x01, 0x65]],
    );
}

#[test]
fn update_vibration_settings_preserves_holder_charge_start_when_unspecified() {
    let mut iqos = iqos(MockTransport::with_responses([Ok(vec![
        0x00, 0x08, 0x8B, 0x04, 0x04, 0x00, 0x00, 0x00, 0x00, 0x00, 0x00, 0x00, 0x00, 0x00,
        0x00, 0x00, 0x00, 0x00, 0x56,
    ])]));
    update_vibration(iqos.transport_mut(), DeviceModel::Iluma, VibrationSettings::new(true, false, false, false))
        .expect("holder update should reuse current charge-start value");
    assert_eq!(iqos.transport().requests.as_slice(), &[LOAD_VIBRATE_CHARGE_START_COMMAND.to_vec()]);
    assert_eq!(iqos.transport().sends.len(), 8);
}

#[test]
fn update_vibration_settings_propagates_send_errors() {
    let mut iqos = iqos(
        MockTransport::with_responses([])
            .with_send_results([Err(Error::Transport("send failed".to_string()))]),
    );
    let error = update_vibration(
        iqos.transport_mut(),
        DeviceModel::IlumaOne,
        VibrationSettings::new(true, false, true, false),
    )
    .expect_err("send failures should surface");
    assert!(matches!(error, Error::Transport(message) if message == "send failed"));
}

#[test]
fn set_brightness_high_sends_expected_command_sequence() {
    let mut iqos = iqos(MockTransport::with_responses([]));
    iqos.transport_mut()
        .send_all(set_brightness_sends(BrightnessLevel::High))
        .expect("set high brightness should succeed");
    let expected = to_vecs(&BrightnessLevel::High.write_commands());
    assert_eq!(iqos.transport().sends.as_slice(), expected.as_slice());
}

#[test]
fn set_brightness_low_sends_expected_command_sequence() {
    let mut iqos = iqos(MockTransport::with_responses([]));
    iqos.transport_mut()
        .send_all(set_brightness_sends(BrightnessLevel::Low))
        .expect("set low brightness should succeed");
    let expected = to_vecs(&BrightnessLevel::Low.write_commands());
    assert_eq!(iqos.transport().sends.as_slice(), expected.as_slice());
}

#[test]
fn set_brightness_propagates_send_errors() {
    let mut iqos = iqos(
        MockTransport::with_responses([])
            .with_send_results([Err(Error::Transport("send failed".to_string()))]),
    );
    let error = iqos
        .transport_mut()
        .send_all(set_brightness_sends(BrightnessLevel::High))
        .expect_err("send errors should surface");
    assert!(matches!(error, Error::Transport(message) if message == "send failed"));
    assert_eq!(iqos.transport().sends.len(), 1);
}

#[test]
fn read_flexpuff_uses_expected_request_and_parses_response() {
    let mut iqos = iqos(MockTransport::with_responses([Ok(vec![
        0x00, 0x90, 0x85, 0x22, 0x03, 0x01, 0x00, 0x00, 0x00,
    ])]));
    let setting = iqos.transport_mut().run(FlexPuffRead::start()).expect("flexpuff should parse");
    assert_eq!(setting, FlexPuffSetting::new(true));
    assert_eq!(iqos.transport().requests.as_slice(), &[LOAD_FLEXPUFF_COMMAND.to_vec()]);
}

#[test]
fn set_flexpuff_sends_enable_command() {
    let mut iqos = iqos(MockTransport::with_responses([]));
    iqos.transport_mut()
        .send_all(set_flexpuff_sends(FlexPuffSetting::new(true)))
        .expect("set flexpuff enabled should succeed");
    assert_eq!(iqos.transport().sends.as_slice(), &[FlexPuffSetting::new(true).write_command().to_vec()]);
}

#[test]
fn set_flexpuff_sends_disable_command() {
    let mut iqos = iqos(MockTransport::with_responses([]));
    iqos.transport_mut()
        .send_all(set_flexpuff_sends(FlexPuffSetting::new(false)))
        .expect("set flexpuff disabled should succeed");
    assert_eq!(iqos.transport().sends.as_slice(), &[FlexPuffSetting::new(false).write_command().to_vec()]);
}

#[test]
fn read_flexpuff_propagates_transport_errors() {
    let mut iqos = iqos(MockTransport::with_responses([Err(Error::Transport("ble error".to_string()))]));
    let error = iqos.transport_mut().run(FlexPuffRead::start()).expect_err("transport error should surface");
    assert!(matches!(error, Error::Transport(_)));
}

#[test]
fn read_flexbattery_sends_both_load_requests_and_parses() {
    let mut iqos = iqos(MockTransport::with_responses([
        Ok(vec![0x00, 0x08, 0x84, 0x25, 0x01, 0x00, 0x00, 0x00, 0x00]),
        Ok(vec![0x00, 0x08, 0x87, 0x24, 0x02, 0x00, 0x00, 0x00, 0x00]),
    ]));
    let settings = iqos
        .transport_mut()
        .run(FlexBatteryRead::start(DeviceModel::IlumaI))
        .expect("flexbattery should parse");
    assert_eq!(settings, FlexBatterySettings::new(FlexBatteryMode::Eco, Some(false)));
    assert_eq!(
        iqos.transport().requests.as_slice(),
        &[LOAD_FLEXBATTERY_COMMAND.to_vec(), LOAD_PAUSEMODE_COMMAND.to_vec()],
    );
}

#[test]
fn read_flexbattery_rejects_unsupported_model() {
    let mut iqos = iqos(MockTransport::with_responses([]));
    let error = iqos
        .transport_mut()
        .run(FlexBatteryRead::start(DeviceModel::Iluma))
        .expect_err("unsupported model should fail");
    assert!(matches!(error, Error::Unsupported(_)));
    assert!(iqos.transport().requests.is_empty());
}

#[test]
fn set_flexbattery_eco_sends_expected_sequence() {
    let mut iqos = iqos(MockTransport::with_responses([]));
    let frames = set_flexbattery_sends(DeviceModel::IlumaI, FlexBatterySettings::new(FlexBatteryMode::Eco, None))
        .expect("set flexbattery eco should succeed");
    iqos.transport_mut().send_all(frames).expect("set flexbattery eco should succeed");
    assert_eq!(
        iqos.transport().sends.as_slice(),
        &[FlexBatteryMode::Eco.write_command().to_vec(), LOAD_FLEXBATTERY_COMMAND.to_vec()],
    );
}

#[test]
fn set_flexbattery_with_pausemode_sends_full_sequence() {
    let mut iqos = iqos(MockTransport::with_responses([]));
    let frames = set_flexbattery_sends(
        DeviceModel::IlumaI,
        FlexBatterySettings::new(FlexBatteryMode::Performance, Some(true)),
    )
    .expect("set flexbattery with pausemode should succeed");
    iqos.transport_mut().send_all(frames).expect("set flexbattery with pausemode should succeed");
    assert_eq!(
        iqos.transport().sends.as_slice(),
        &[
            FlexBatteryMode::Performance.write_command().to_vec(),
            LOAD_FLEXBATTERY_COMMAND.to_vec(),
            pausemode_command(true).to_vec(),
            LOAD_PAUSEMODE_COMMAND.to_vec(),
        ],
    );
}

#[test]
fn set_flexbattery_rejects_unsupported_model() {
    let error = set_flexbattery_sends(DeviceModel::Iluma, FlexBatterySettings::new(FlexBatteryMode::Eco, None))
        .expect_err("unsupported model should fail");
    assert!(matches!(error, Error::Unsupported(m) if m == "FlexBattery is not supported for model Iluma"));
}

#[test]
fn read_diagnosis_sends_all_commands_and_accumulates_responses() {
    let mut iqos = iqos(MockTransport::with_responses([
        Ok(vec![0x00, 0x08, 0xFF, 0xFF, 0x00, 0x00, 0x00, 0x00]),
        Ok(vec![0x00, 0x08, 0x80, 0x02, 0x14, 0x00, 0x00, 0x00]),
        Ok(vec![0x00, 0x08, 0xFF, 0xFF, 0x00, 0x00, 0x00, 0x00]),
        Ok(vec![0x00, 0x08, 0x88, 0x21, 0x00, 0x68, 0x10, 0x00, 0x00]),
    ]));
    let data = iqos.transport_mut().run(DiagnosisRead::start()).expect("diagnosis should succeed");
    assert_eq!(data.days_used, Some(20));
    assert_eq!(data.battery_millivolts.map(|mv| f32::from(mv) / 1000.0), Some(4200_f32 / 1000.0));
    assert_eq!(data.total_smoking_count, None);
    assert_eq!(iqos.transport().requests.len(), all_diagnosis_commands().len());
    assert_eq!(iqos.transport().requests, to_vecs(&all_diagnosis_commands()));
}

#[test]
fn read_diagnosis_propagates_transport_errors() {
    let mut iqos = iqos(MockTransport::with_responses([Err(Error::Transport("ble error".to_string()))]));
    let error = iqos.transport_mut().run(DiagnosisRead::start()).expect_err("transport error should surface");
    assert!(matches!(error, Error::Transport(_)));
    assert_eq!(iqos.transport().requests.len(), 1);
}

#[test]
fn lock_sends_expected_command_sequence() {
    let mut iqos = iqos(MockTransport::with_responses([]));
    let frames = lock_sends(DeviceModel::Iluma).expect("lock should succeed");
    iqos.transport_mut().send_all(frames).expect("lock should succeed");
    assert_eq!(iqos.transport().sends, to_vecs(&lock_commands()));
}

#[test]
fn unlock_sends_expected_command_sequence() {
    let mut iqos = iqos(MockTransport::with_responses([]));
    let frames = unlock_sends(DeviceModel::IlumaOne).expect("unlock should succeed");
    iqos.transport_mut().send_all(frames).expect("unlock should succeed");
    assert_eq!(iqos.transport().sends, to_vecs(&unlock_commands()));
}

#[test]
fn lock_rejects_unknown_model() {
    let error = lock_sends(DeviceModel::Unknown).expect_err("unknown model should fail");
    assert!(matches!(error, Error::Unsupported(m) if m == "device lock is not supported for model Unknown"));
}

#[test]
fn unlock_propagates_send_errors() {
    let mut iqos = iqos(
        MockTransport::with_responses([])
            .with_send_results([Err(Error::Transport("send failed".to_string()))]),
    );
    let frames = unlock_sends(DeviceModel::Iluma).expect("supported model");
    let error = iqos.transport_mut().send_all(frames).expect_err("send failure should surface");
    assert!(matches!(error, Error::Transport(message) if message == "send failed"));
}

#[test]
fn set_smartgesture_enable_sends_correct_command() {
    let mut iqos = iqos(MockTransport::with_responses([]));
    let frames = set_smartgesture_sends(DeviceModel::Iluma, true).expect("set smartgesture enabled should succeed");
    iqos.transport_mut().send_all(frames).expect("set smartgesture enabled should succeed");
    assert_eq!(iqos.transport().sends.as_slice(), &[smartgesture_command(true).to_vec()]);
}

#[test]
fn set_smartgesture_disable_sends_correct_command() {
    let mut iqos = iqos(MockTransport::with_responses([]));
    let frames = set_smartgesture_sends(DeviceModel::IlumaI, false).expect("set smartgesture disabled should succeed");
    iqos.transport_mut().send_all(frames).expect("set smartgesture disabled should succeed");
    assert_eq!(iqos.transport().sends.as_slice(), &[smartgesture_command(false).to_vec()]);
}

#[test]
fn set_smartgesture_rejects_unsupported_model() {
    let error = set_smartgesture_sends(DeviceModel::IlumaOne, true).expect_err("unsupported model should return error");
    assert!(matches!(error, Error::Unsupported(m) if m == "Smart Gesture is not supported for model IlumaOne"));
}

#[test]
fn set_autostart_enable_sends_correct_command() {
    let mut iqos = iqos(MockTransport::with_responses([]));
    let frames = set_autostart_sends(DeviceModel::Iluma, true).expect("set autostart enabled should succeed");
    iqos.transport_mut().send_all(frames).expect("set autostart enabled should succeed");
    assert_eq!(iqos.transport().sends.as_slice(), &[autostart_command(true).to_vec()]);
}

#[test]
fn set_autostart_disable_sends_correct_command() {
    let mut iqos = iqos(MockTransport::with_responses([]));
    let frames = set_autostart_sends(DeviceModel::IlumaI, false).expect("set autostart disabled should succeed");
    iqos.transport_mut().send_all(frames).expect("set autostart disabled should succeed");
    assert_eq!(iqos.transport().sends.as_slice(), &[autostart_command(false).to_vec()]);
}

#[test]
fn set_autostart_rejects_unsupported_model() {
    let error = set_autostart_sends(DeviceModel::IlumaOne, true).expect_err("unsupported model should return error");
    assert!(matches!(error, Error::Unsupported(m) if m == "Auto Start is not supported for model IlumaOne"));
}

#[test]
fn read_autostart_uses_expected_request_and_parses_response() {
    let mut iqos = iqos(MockTransport::with_responses([Ok(vec![
        0x00, 0x08, 0x87, 0x24, 0x01, 0x01, 0x00, 0x00, 0xA5,
    ])]));
    let enabled = iqos
        .transport_mut()
        .run(AutostartRead::start(DeviceModel::Iluma))
        .expect("autostart should parse");
    assert!(enabled);
    assert_eq!(iqos.transport().requests.as_slice(), &[LOAD_AUTOSTART_COMMAND.to_vec()]);
}

#[test]
fn read_autostart_rejects_unsupported_model() {
    let mut iqos = iqos(MockTransport::with_responses([]));
    let error = iqos
        .transport_mut()
        .run(AutostartRead::start(DeviceModel::IlumaOne))
        .expect_err("unsupported model should return error");
    assert!(matches!(error, Error::Unsupported(_)));
    assert!(iqos.transport().requests.is_empty());
}

#[test]
fn read_autostart_propagates_transport_errors() {
    let mut iqos = iqos(MockTransport::with_responses([Err(Error::Transport("transport down".to_string()))]));
    let error = iqos
        .transport_mut()
        .run(AutostartRead::start(DeviceModel::Iluma))
        .expect_err("transport error should surface");
    assert!(matches!(error, Error::Transport(message) if message == "transport down"));
}

#[test]
fn read_battery_voltage_parses_response() {
    let mut iqos = iqos(MockTransport::with_responses([Ok(vec![
        0x00, 0x08, 0x88, 0x21, 0x00, 0xA8, 0x10, 0x00, 0x00,
    ])]));
    let millivolts = iqos.transport_mut().run(BatteryVoltageRead::start()).expect("voltage should parse");
    let voltage = f32::from(millivolts) / 1000.0;
    assert!((voltage - 4264_f32 / 1000.0).abs() < f32::EPSILON);
    assert_eq!(iqos.transport().requests.as_slice(), &[LOAD_BATTERY_VOLTAGE_COMMAND.to_vec()]);
}

#[test]
fn read_battery_voltage_rejects_frames_without_a_battery_reading() {
    let mut iqos = iqos(MockTransport::with_responses([Ok(vec![
        0x00, 0x08, 0x80, 0x02, 0x14, 0x00, 0x00, 0x00,
    ])]));
    let error = iqos.transport_mut().run(BatteryVoltageRead::start()).unwrap_err();
    assert!(matches!(error, Error::ProtocolDecode(m) if m == "battery voltage not present in response"));
}

#[test]
fn read_device_status_for_one_piece_model_sends_stick_firmware_and_battery() {
    let mut iqos = iqos(MockTransport::with_responses([
        Ok(vec![0x00, 0xC0, 0x88, 0x00, 0x00, 0x00, 0x02, 0x05, 0x07, 0x18]),
        Ok(vec![0x00, 0x08, 0x88, 0x21, 0x00, 0xA8, 0x10, 0x00, 0x00]),
    ]));
    let status = iqos
        .transport_mut()
        .run(DeviceStatusRead::start(DeviceModel::IlumaOne))
        .expect("one-piece status should succeed");
    assert_eq!(status.stick_firmware, FirmwareVersion { major: 2, minor: 5, patch: 7, year: 24 });
    assert!(status.holder_firmware.is_none());
    assert!(status.battery_millivolts.is_some());
    assert_eq!(
        iqos.transport().requests.as_slice(),
        &[LOAD_STICK_FIRMWARE_VERSION_COMMAND.to_vec(), LOAD_BATTERY_VOLTAGE_COMMAND.to_vec()],
    );
}

#[test]
fn read_device_status_for_folder_model_sends_both_firmware_commands() {
    let mut iqos = iqos(MockTransport::with_responses([
        Ok(vec![0x00, 0xC0, 0x88, 0x00, 0x00, 0x00, 0x02, 0x05, 0x07, 0x18]),
        Ok(vec![0x00, 0x08, 0x88, 0x00, 0x00, 0x00, 0x01, 0x02, 0x03, 0x19]),
        Ok(vec![0x00, 0x08, 0x88, 0x21, 0x00, 0xA8, 0x10, 0x00, 0x00]),
    ]));
    let status = iqos
        .transport_mut()
        .run(DeviceStatusRead::start(DeviceModel::Iluma))
        .expect("folder status should succeed");
    assert_eq!(status.stick_firmware, FirmwareVersion { major: 2, minor: 5, patch: 7, year: 24 });
    assert_eq!(status.holder_firmware, Some(FirmwareVersion { major: 1, minor: 2, patch: 3, year: 25 }));
    assert!(status.battery_millivolts.is_some());
    assert_eq!(
        iqos.transport().requests.as_slice(),
        &[
            LOAD_STICK_FIRMWARE_VERSION_COMMAND.to_vec(),
            LOAD_HOLDER_FIRMWARE_VERSION_COMMAND.to_vec(),
            LOAD_BATTERY_VOLTAGE_COMMAND.to_vec(),
        ],
    );
}

#[test]
fn read_device_status_battery_failure_yields_none_not_error() {
    let mut iqos = iqos(MockTransport::with_responses([
        Ok(vec![0x00, 0xC0, 0x88, 0x00, 0x00, 0x00, 0x02, 0x05, 0x07, 0x18]),
        Err(Error::Transport("battery read failed".to_string())),
    ]));
    let status = iqos
        .transport_mut()
        .run(DeviceStatusRead::start(DeviceModel::IlumaOne))
        .expect("battery failure should not abort status read");
    assert!(status.battery_millivolts.is_none());
}

#[test]
fn read_device_status_propagates_stick_firmware_error() {
    let mut iqos = iqos(MockTransport::with_responses([Err(Error::Transport("ble error".to_string()))]));
    let error = iqos
        .transport_mut()
        .run(DeviceStatusRead::start(DeviceModel::IlumaOne))
        .expect_err("stick firmware error should surface");
    assert!(matches!(error, Error::Transport(_)));
}

#[test]
fn read_device_status_undecodable_battery_frame_yields_none() {
    let mut iqos = iqos(MockTransport::with_responses([
        Ok(vec![0x00, 0xC0, 0x88, 0x00, 0x00, 0x00, 0x02, 0x05, 0x07, 0x18]),
        Ok(vec![0x00, 0x08]),
    ]));
    let status = iqos.transport_mut().run(DeviceStatusRead::start(DeviceModel::IlumaIOne)).unwrap();
    assert_eq!(status.battery_millivolts, None);
    assert_eq!(status.holder_firmware, None);
}

#[test]
fn read_vibration_settings_rejects_unknown_model_without_traffic() {
    let mut iqos = iqos(MockTransport::with_responses([]));
    let error = iqos.transport_mut().run(VibrationRead::start(DeviceModel::Unknown)).unwrap_err();
    assert!(matches!(error, Error::Unsupported(m) if m == "vibration is not supported for model Unknown"));
    assert!(iqos.transport().requests.is_empty());
}

#[test]
fn update_vibration_settings_with_explicit_charge_start_skips_read() {
    let mut iqos = iqos(MockTransport::with_responses([]));
    update_vibration(
        iqos.transport_mut(),
        DeviceModel::IlumaI,
        VibrationSettings::with_charge_start(false, false, false, false, false),
    )
    .unwrap();
    assert!(iqos.transport().requests.is_empty());
    assert_eq!(iqos.transport().sends, vec![vec![0x00, 0xC9, 0x44, 0x23, 0x10, 0x00, 0x00, 0x00, 0x77]]);
}

#[test]
fn autostart_follows_holder_features() {
    for model in [DeviceModel::Iluma, DeviceModel::IlumaPrime, DeviceModel::IlumaI, DeviceModel::IlumaIPrime] {
        assert_eq!(
            set_autostart_sends(model, true).expect("holder models support Auto Start"),
            vec![autostart_command(true).to_vec()]
        );
    }
    for model in [DeviceModel::IlumaOne, DeviceModel::IlumaIOne, DeviceModel::Unknown] {
        assert!(matches!(set_autostart_sends(model, false), Err(Error::Unsupported(_))));
    }
}

#[test]
fn sending_stops_at_the_first_failed_frame() {
    let frames = lock_sends(DeviceModel::Iluma).expect("lock is supported");
    let mut transport = MockTransport::with_responses([]).with_send_results([
        Ok(()),
        Err(Error::Transport("send failed".to_string())),
        Ok(()),
    ]);
    let outcome = transport.send_all(frames.clone());
    assert_eq!(transport.sends, frames[..2].to_vec());
    assert!(matches!(outcome, Err(Error::Transport(m)) if m == "send failed"));
}

#[test]
fn sending_every_frame_succeeds_in_order() {
    let frames = unlock_sends(DeviceModel::IlumaI).expect("unlock is supported");
    let mut transport = MockTransport::with_responses([]);
    assert!(transport.send_all(frames.clone()).is_ok());
    assert_eq!(transport.sends, frames);
    let mut transport = MockTransport::with_responses([]);
    assert!(transport.send_all(Vec::new()).is_ok());
    assert!(transport.sends.is_empty());
}
