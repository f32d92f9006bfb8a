use cec_rs::{
    cec_device_type_list, cec_logical_addresses, CecAdapterType, CecConnectionCfg,
    CecDeviceType, CecDeviceTypeVec, CecLogicalAddress, CecLogicalAddresses,
    CecUserControlCode, DurationOutOfRange, KnownCecLogicalAddress, LibcecVersion,
    NativeConfiguration,
};
use std::time::Duration;

fn cleared() -> NativeConfiguration {
    NativeConfiguration {
        clientVersion: 0,
        strDeviceName: [0; 15],
        deviceTypes: cec_device_type_list { types: [2; 5] },
        iPhysicalAddress: 0x1000,
        baseDevice: 0,
        iHDMIPort: 1,
        tvVendor: 0,
        wakeDevices: cec_logical_addresses { primary: 15, addresses: [0; 16] },
        powerOffDevices: cec_logical_addresses { primary: 15, addresses: [0; 16] },
        bGetSettingsFromROM: 0,
        bActivateSource: 1,
        bPowerOffOnStandby: 0,
        strDeviceLanguage: *b"eng",
        bMonitorOnly: 0,
        adapterType: 0,
        comboKey: 0x71,
        iComboKeyTimeoutMs: 1000,
        iButtonRepeatRateMs: 0,
        iButtonReleaseDelayMs: 500,
        iDoubleTapTimeoutMs: 200,
        bAutoWakeAVR: 0,
    }
}

fn minimal(name: &str) -> CecConnectionCfg {
    CecConnectionCfg {
        port: None,
        open_timeout: Duration::from_secs(5),
        device_name: name.to_string(),
        device_types: CecDeviceTypeVec::new(CecDeviceType::AudioSystem),
        physical_address: None,
        base_device: None,
        hdmi_port: None,
        tv_vendor: None,
        wake_devices: None,
        power_off_devices: None,
        get_settings_from_rom: None,
        activate_source: None,
        power_off_on_standby: None,
        device_language: None,
        monitor_only: None,
        adapter_type: None,
        combo_key: None,
        combo_key_timeout: None,
        button_repeat_rate: None,
        button_release_delay: None,
        double_tap_timeout: None,
        autowake_avr: None,
    }
}

#[test]
fn absent_fields_keep_native_defaults() {
    let base = cleared();
    let native = minimal("Hifiberry").to_native(&base).unwrap();
    assert_eq!(native.clientVersion, LibcecVersion::Current.repr());
    assert_eq!(&native.strDeviceName[..9], b"Hifiberry");
    assert_eq!(native.strDeviceName[9..], [0; 6]);
    assert_eq!(native.deviceTypes.types, [5, 2, 2, 2, 2]);
    assert_eq!(native.iPhysicalAddress, 0x1000);
    assert_eq!(native.iHDMIPort, 1);
    assert_eq!(native.bActivateSource, 1);
    assert_eq!(native.strDeviceLanguage, *b"eng");
    assert_eq!(native.comboKey, 0x71);
    assert_eq!(native.iDoubleTapTimeoutMs, 200);
    assert_eq!(native.wakeDevices.primary, 15);
}

#[test]
fn present_fields_are_set() {
    let mut cfg = minimal("a very long device name");
    cfg.physical_address = Some(0x2000);
    cfg.base_device = Some(CecLogicalAddress::Audiosystem);
    cfg.hdmi_port = Some(3);
    cfg.tv_vendor = Some(0x00903e);
    cfg.wake_devices = Some(CecLogicalAddresses::with_only_primary(
        &KnownCecLogicalAddress::new(CecLogicalAddress::Tv).unwrap(),
    ));
    cfg.activate_source = Some(false);
    cfg.monitor_only = Some(true);
    cfg.device_language = Some("fin".to_string());
    cfg.adapter_type = Some(CecAdapterType::Rpi);
    cfg.combo_key = Some(CecUserControlCode::Stop);
    cfg.combo_key_timeout = Some(Duration::from_millis(250));
    cfg.button_repeat_rate = Some(Duration::from_secs(1));
    cfg.button_release_delay = Some(Duration::from_millis(0));
    cfg.double_tap_timeout = Some(Duration::from_millis(100));
    cfg.autowake_avr = Some(true);
    let native = cfg.to_native(&cleared()).unwrap();
    assert_eq!(&native.strDeviceName, b"a very long dev");
    assert_eq!(native.iPhysicalAddress, 0x2000);
    assert_eq!(native.baseDevice, 5);
    assert_eq!(native.iHDMIPort, 3);
    assert_eq!(native.tvVendor, 0x00903e);
    assert_eq!(native.wakeDevices.primary, 0);
    let mut wake = [0; 16];
    wake[0] = 1;
    assert_eq!(native.wakeDevices.addresses, wake);
    assert_eq!(native.bActivateSource, 0);
    assert_eq!(native.bMonitorOnly, 1);
    assert_eq!(native.strDeviceLanguage, *b"fin");
    assert_eq!(native.adapterType, CecAdapterType::Rpi.repr());
    assert_eq!(native.comboKey, CecUserControlCode::Stop.repr());
    assert_eq!(native.iComboKeyTimeoutMs, 250);
    assert_eq!(native.iButtonRepeatRateMs, 1000);
    assert_eq!(native.iButtonReleaseDelayMs, 0);
    assert_eq!(native.iDoubleTapTimeoutMs, 100);
    assert_eq!(native.bAutoWakeAVR, 1);
}

#[test]
fn duration_too_large_for_native_field_is_reported() {
    let mut cfg = minimal("x");
    cfg.button_release_delay = Some(Duration::from_millis(u32::MAX as u64 + 1));
    assert_eq!(cfg.to_native(&cleared()).err(), Some(DurationOutOfRange {}));
    cfg.button_release_delay = Some(Duration::from_millis(u32::MAX as u64));
    assert_eq!(
        cfg.to_native(&cleared()).unwrap().iButtonReleaseDelayMs,
        u32::MAX
    );
}
