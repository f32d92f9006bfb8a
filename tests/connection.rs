use cec_rs::connection::{
    active_source_from_native, next_open_step, power_status_from_native, transmit_result,
};
use cec_rs::{
    cec_keypress, CecConnectionCfg, CecConnectionResultError, CecDeviceType, CecDeviceTypeVec,
    CecKeypress, CecLogicalAddress, CecPowerStatus, CecUserControlCode, HandleState,
    OpenDecision, OpenStep,
};
use std::time::Duration;

/// Runs the opening decisions against the given native results, in order.
fn run_open(port_given: bool, results: &[i32]) -> (OpenDecision, Vec<OpenStep>) {
    let mut step = OpenStep::Initialise;
    let mut calls = vec![];
    for status in results {
        calls.push(step);
        match next_open_step(step, port_given, *status) {
            OpenDecision::Call(next) => step = next,
            done => return (done, calls),
        }
    }
    panic!("opening did not finish");
}

#[test]
fn native_command_results() {
    assert_eq!(transmit_result(1), Ok(()));
    assert_eq!(transmit_result(-3), Ok(()));
    assert_eq!(transmit_result(0), Err(CecConnectionResultError::TransmitFailed));
}

#[test]
fn getters_fall_back_to_unknown() {
    assert_eq!(active_source_from_native(4), CecLogicalAddress::Playbackdevice1);
    assert_eq!(active_source_from_native(99), CecLogicalAddress::Unknown);
    assert_eq!(power_status_from_native(1), CecPowerStatus::Standby);
    assert_eq!(power_status_from_native(7), CecPowerStatus::Unknown);
}

#[test]
fn open_with_detected_port() {
    let (decision, calls) = run_open(false, &[1, 1, 1, 1]);
    assert_eq!(decision, OpenDecision::Opened);
    assert_eq!(
        calls,
        vec![
            OpenStep::Initialise,
            OpenStep::DetectAdapter,
            OpenStep::OpenPort,
            OpenStep::RegisterCallbacks
        ]
    );
    let (decision, calls) = run_open(true, &[1, 1, 1]);
    assert_eq!(decision, OpenDecision::Opened);
    assert_eq!(calls.len(), 3);
}

#[test]
fn open_failures() {
    let failed = |error, release_handle| OpenDecision::Failed { error, release_handle };
    assert_eq!(
        run_open(false, &[0]).0,
        failed(CecConnectionResultError::LibInitFailed, false)
    );
    assert_eq!(
        run_open(false, &[1, 0]).0,
        failed(CecConnectionResultError::NoAdapterFound, true)
    );
    assert_eq!(
        run_open(true, &[1, 0]).0,
        failed(CecConnectionResultError::AdapterOpenFailed, true)
    );
    assert_eq!(
        run_open(true, &[1, 1, 0]).0,
        failed(CecConnectionResultError::CallbackRegistrationFailed, true)
    );
}

#[test]
fn failed_open_releases_handle_exactly_once() {
    let mut handle = HandleState::after_initialise(1);
    assert_eq!(handle, HandleState::Held);
    // adapter opened, callback registration refused
    match run_open(true, &[1, 1, 0]).0 {
        OpenDecision::Failed { release_handle, .. } => assert!(release_handle),
        other => panic!("unexpected {:?}", other),
    }
    assert!(handle.release());
    assert!(!handle.release());
    assert_eq!(handle, HandleState::Released);

    let mut none = HandleState::after_initialise(0);
    assert!(!none.release());
    assert_eq!(none, HandleState::Absent);
}

#[test]
fn hifiberry_keypress_scenario() {
    let cfg = CecConnectionCfg {
        port: None,
        open_timeout: Duration::from_secs(5),
        device_name: "Hifiberry".to_string(),
        device_types: CecDeviceTypeVec::new(CecDeviceType::AudioSystem),
        physical_address: None,
        base_device: None,
        hdmi_port: None,
        tv_vendor: None,
        wake_devices: None,
        power_off_devices: None,
        get_settings_from_rom: None,
        activate_source: None,
        power_off_on_standby: None,
        device_language: None,
        monitor_only: None,
        adapter_type: None,
        combo_key: None,
        combo_key_timeout: None,
        button_repeat_rate: None,
        button_release_delay: None,
        double_tap_timeout: None,
        autowake_avr: None,
    };
    let (decision, _) = run_open(cfg.port.is_some(), &[1, 1, 1, 1]);
    assert_eq!(decision, OpenDecision::Opened);

    let mut seen: Vec<CecKeypress> = vec![];
    let mut on_key_press = |k: CecKeypress| seen.push(k);
    let raw = cec_keypress {
        keycode: CecUserControlCode::Up.repr(),
        duration: 300,
    };
    match CecKeypress::from_native(&raw) {
        Ok(k) => on_key_press(k),
        Err(e) => panic!("well-formed key press refused: {:?}", e),
    }
    assert_eq!(seen.len(), 1);
    assert_eq!(seen[0].keycode, CecUserControlCode::Up);
    assert_eq!(seen[0].duration, Duration::from_millis(300));
}
