use arrayvec::ArrayVec;
use cec_rs::{CecDeviceType, CecDeviceTypeVec};

#[test]
fn test_to_ffi_empty() {
    let devices = ArrayVec::new();
    let ffi_devices = CecDeviceTypeVec(devices).to_native();
    assert_eq!(ffi_devices.types, [CecDeviceType::Reserved.repr(); 5]);
}

#[test]
fn test_to_ffi_two_devices() {
    let mut devices = ArrayVec::new();
    devices.push(CecDeviceType::PlaybackDevice);
    devices.push(CecDeviceType::RecordingDevice);
    let ffi_devices = CecDeviceTypeVec(devices).to_native();
    assert_eq!(ffi_devices.types[0], CecDeviceType::PlaybackDevice.repr());
    assert_eq!(ffi_devices.types[1], CecDeviceType::RecordingDevice.repr());
    assert_eq!(ffi_devices.types[2..], [CecDeviceType::Reserved.repr(); 3]);
}

#[test]
fn device_type_list_with_one_type() {
    let list = CecDeviceTypeVec::new(CecDeviceType::AudioSystem);
    assert_eq!(list.0.as_slice(), &[CecDeviceType::AudioSystem]);
    assert_eq!(list.to_native().types, [5, 2, 2, 2, 2]);
}
