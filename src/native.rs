//! Plain mirrors of the fixed-layout records that the native library reads and
//! writes. Each field has the width that the native header gives it.
#![allow(non_camel_case_types, non_snake_case)]
use vstd::prelude::*;

verus! {

/// Capacity of the byte buffer of a native data packet.
pub const PACKET_CAPACITY: usize = 64;

/// Length of the native device name buffer (a NUL-padded OSD name).
pub const OSD_NAME_SIZE: usize = 15;

/// Length of the native menu language buffer (an ISO 639-2 code).
pub const LANGUAGE_SIZE: usize = 3;

/// Number of slots of a native address bitmap: one per logical address value.
pub const ADDRESS_SLOTS: usize = 16;

/// Number of slots of a native device type list.
pub const DEVICE_TYPE_SLOTS: usize = 5;

/// The native `cec_datapacket`: a fixed buffer of which the first `size` bytes are in use.
#[derive(Debug, Copy, Clone)]
pub struct cec_datapacket {
    pub data: [u8; PACKET_CAPACITY],
    pub size: u8,
}

/// The native `cec_command`: one message as seen on the bus.
#[derive(Debug, Copy, Clone)]
pub struct cec_command {
    pub initiator: i32,
    pub destination: i32,
    pub ack: i8,
    pub eom: i8,
    pub opcode: u32,
    pub parameters: cec_datapacket,
    pub opcode_set: i8,
    pub transmit_timeout: i32,
}

/// The native `cec_keypress`: a user control code and how long it was held, in ms.
#[derive(Debug, Copy, Clone)]
pub struct cec_keypress {
    pub keycode: u32,
    pub duration: u32,
}

/// The native `cec_logical_addresses`: a primary address and a presence bitmap
/// indexed by address value.
#[derive(Debug, Copy, Clone)]
pub struct cec_logical_addresses {
    pub primary: i32,
    pub addresses: [i32; ADDRESS_SLOTS],
}

/// The native `cec_device_type_list`.
#[derive(Debug, Copy, Clone)]
pub struct cec_device_type_list {
    pub types: [u32; DEVICE_TYPE_SLOTS],
}

/// The native `cec_log_message`, with the text given as the bytes that precede
/// its terminating NUL.
#[derive(Debug, Clone)]
pub struct cec_log_message {
    pub message: Vec<u8>,
    pub level: u32,
    pub time: i64,
}

/// The fields of the native `libcec_configuration` that a connection's settings
/// can set. Every other field keeps the value that the native library cleared it to.
#[derive(Debug, Copy, Clone)]
pub struct NativeConfiguration {
    pub clientVersion: u32,
    pub strDeviceName: [u8; OSD_NAME_SIZE],
    pub deviceTypes: cec_device_type_list,
    pub iPhysicalAddress: u16,
    pub baseDevice: i32,
    pub iHDMIPort: u8,
    pub tvVendor: u32,
    pub wakeDevices: cec_logical_addresses,
    pub powerOffDevices: cec_logical_addresses,
    pub bGetSettingsFromROM: u8,
    pub bActivateSource: u8,
    pub bPowerOffOnStandby: u8,
    pub strDeviceLanguage: [u8; LANGUAGE_SIZE],
    pub bMonitorOnly: u8,
    pub adapterType: u32,
    pub comboKey: u32,
    pub iComboKeyTimeoutMs: u32,
    pub iButtonRepeatRateMs: u32,
    pub iButtonReleaseDelayMs: u32,
    pub iDoubleTapTimeoutMs: u32,
    pub bAutoWakeAVR: u8,
}

/// A native flag byte: 1 for true, 0 for false.
pub open spec fn flag_byte(b: bool) -> u8 {
    if b { 1 } else { 0 }
}

} // verus!
