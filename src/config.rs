//! The settings of a connection, and their assembly into the native
//! configuration record.
use crate::address::{encodes_addresses, CecLogicalAddresses};
use crate::bounded::{device_type_items, device_type_slice, empty_device_type_buffer, push_device_type};
use crate::command::DurationOutOfRange;
use crate::duration::{duration_millis, millis_u32};
use crate::enums::{CecAdapterType, CecDeviceType, CecLogicalAddress, CecUserControlCode, LibcecVersion};
use crate::native::{
    cec_device_type_list, cec_logical_addresses, flag_byte, NativeConfiguration, LANGUAGE_SIZE,
    OSD_NAME_SIZE,
};
use arrayvec::ArrayVec;
use std::time::Duration;
use vstd::prelude::*;
use vstd::utf8::encode_utf8;

verus! {

/// The first `n` bytes of `bytes`, padded with zeros when there are fewer.
pub open spec fn padded_prefix(bytes: Seq<u8>, n: nat) -> Seq<u8> {
    Seq::new(n, |i: int| if i < bytes.len() { bytes[i] } else { 0u8 })
}

/// The fixed-length native form of `s`: its first `N` UTF-8 bytes, padded
/// with zeros.
pub fn first_n<const N: usize>(s: &str) -> (r: [u8; N])
    ensures
        r@ == padded_prefix(encode_utf8(s@), N as nat),
{
    let bytes = s.as_bytes();
    let mut data = [0u8; N];
    let mut i: usize = 0;
    while i < N && i < bytes.len()
        invariant
            bytes@ == encode_utf8(s@),
            data@.len() == N,
            i <= N,
            i <= bytes@.len(),
            forall|j: int| 0 <= j < i ==> data@[j] == bytes@[j],
            forall|j: int| i <= j < N ==> data@[j] == 0,
        decreases N - i,
    {
        data[i] = bytes[i];
        i += 1;
    }
    assert forall|j: int| 0 <= j < N implies data@[j] == padded_prefix(encode_utf8(s@), N as nat)[j] by {
        if j < i {
            assert(data@[j] == bytes@[j]);
        }
    }
    assert(data@ =~= padded_prefix(encode_utf8(s@), N as nat));
    data
}

/// The device types that a device announces itself with: at most five.
#[derive(Debug, Clone, PartialEq, Eq)]
pub struct CecDeviceTypeVec(pub ArrayVec<CecDeviceType, 5>);

impl View for CecDeviceTypeVec {
    type V = Seq<CecDeviceType>;

    open spec fn view(&self) -> Seq<CecDeviceType> {
        device_type_items(self.0)
    }
}

/// Whether `n` is the native form of the device types `t`: their codes in
/// order, and `Reserved` in each slot past them.
pub open spec fn encodes_device_types(t: Seq<CecDeviceType>, n: cec_device_type_list) -> bool {
    forall|i: int|
        0 <= i < 5 ==> #[trigger] n.types@[i] == if i < t.len() {
            t[i].code()
        } else {
            CecDeviceType::Reserved.code()
        }
}

impl CecDeviceTypeVec {
    /// The list holding `type1` alone.
    pub fn new(type1: CecDeviceType) -> (r: CecDeviceTypeVec)
        ensures
            r@ == seq![type1],
    {
        let mut inner = empty_device_type_buffer();
        let ok = push_device_type(&mut inner, type1);
        assert(ok);
        CecDeviceTypeVec(inner)
    }

    /// The native form of the list.
    pub fn to_native(&self) -> (r: cec_device_type_list)
        ensures
            self@.len() <= 5,
            encodes_device_types(self@, r),
    {
        let items = device_type_slice(&self.0);
        let reserved = CecDeviceType::Reserved.repr();
        let mut types = [reserved; 5];
        let mut i: usize = 0;
        while i < items.len()
            invariant
                items@ == self@,
                items@.len() <= 5,
                i <= items@.len(),
                types@.len() == 5,
                forall|j: int| 0 <= j < i ==> types@[j] == items@[j].code(),
                forall|j: int| i <= j < 5 ==> types@[j] == CecDeviceType::Reserved.code(),
            decreases items@.len() - i,
        {
            types[i] = items[i].repr();
            i += 1;
        }
        cec_device_type_list { types }
    }
}

/// The settings of a connection: the device's name and types, the port to
/// open, and optional tuning fields. An absent field leaves the native
/// default in place.
#[derive(Debug, Clone)]
pub struct CecConnectionCfg {
    /// The adapter port to open; `None` to detect one.
    pub port: Option<String>,
    /// How long opening the adapter may take.
    pub open_timeout: Duration,
    /// The name the device announces on the bus.
    pub device_name: String,
    /// The device types to use on the bus.
    pub device_types: CecDeviceTypeVec,
    /// The physical address of the adapter.
    pub physical_address: Option<u16>,
    /// The logical address of the device the adapter is connected to.
    pub base_device: Option<CecLogicalAddress>,
    /// The HDMI port the adapter is connected to.
    pub hdmi_port: Option<u8>,
    /// The vendor ID of the TV, overriding detection.
    pub tv_vendor: Option<u32>,
    /// The devices to wake when the connection starts.
    pub wake_devices: Option<CecLogicalAddresses>,
    /// The devices to power off on standby.
    pub power_off_devices: Option<CecLogicalAddresses>,
    /// Whether to take the settings from the adapter's ROM.
    pub get_settings_from_rom: Option<bool>,
    /// Whether to become the active source when starting.
    pub activate_source: Option<bool>,
    /// Whether to go to standby when the TV is switched off.
    pub power_off_on_standby: Option<bool>,
    /// The menu language, as a three-letter ISO 639-2 code.
    pub device_language: Option<String>,
    /// Whether to only monitor the bus.
    pub monitor_only: Option<bool>,
    /// The type of the adapter.
    pub adapter_type: Option<CecAdapterType>,
    /// The key that starts a combo key.
    pub combo_key: Option<CecUserControlCode>,
    /// How long until a combo key is sent as a normal key press.
    pub combo_key_timeout: Option<Duration>,
    /// The rate at which buttons repeat.
    pub button_repeat_rate: Option<Duration>,
    /// How long after the last update a button counts as released.
    pub button_release_delay: Option<Duration>,
    /// The window within which a second tap is ignored.
    pub double_tap_timeout: Option<Duration>,
    /// Whether to wake an AVR when the source is activated.
    pub autowake_avr: Option<bool>,
}

/// Whether an optional duration's milliseconds fit in a native `u32` field.
pub open spec fn fits_u32_millis(d: Option<Duration>) -> bool {
    match d {
        Some(d) => duration_millis(d) <= u32::MAX as u128,
        None => true,
    }
}

/// The native millisecond field for an optional duration over `default`.
pub open spec fn millis_field(d: Option<Duration>, default: u32) -> u32 {
    match d {
        Some(d) => duration_millis(d) as u32,
        None => default,
    }
}

/// The value of an optional field over the native `default`.
pub open spec fn or_default<T>(v: Option<T>, default: T) -> T {
    match v {
        Some(v) => v,
        None => default,
    }
}

/// The native flag byte of an optional flag over `default`.
pub open spec fn flag_field(v: Option<bool>, default: u8) -> u8 {
    match v {
        Some(b) => flag_byte(b),
        None => default,
    }
}

/// Whether all the optional durations of `c` fit their native fields.
pub open spec fn durations_fit(c: CecConnectionCfg) -> bool {
    &&& fits_u32_millis(c.combo_key_timeout)
    &&& fits_u32_millis(c.button_repeat_rate)
    &&& fits_u32_millis(c.button_release_delay)
    &&& fits_u32_millis(c.double_tap_timeout)
}

fn value_or<T: Copy>(v: Option<T>, default: T) -> (r: T)
    ensures
        r == or_default(v, default),
{
    match v {
        Some(v) => v,
        None => default,
    }
}

fn flag_or(v: Option<bool>, default: u8) -> (r: u8)
    ensures
        r == flag_field(v, default),
{
    match v {
        Some(true) => 1,
        Some(false) => 0,
        None => default,
    }
}

fn millis_or(v: &Option<Duration>, default: u32) -> (r: Option<u32>)
    ensures
        r == if fits_u32_millis(*v) {
            Some(millis_field(*v, default))
        } else {
            None::<u32>
        },
{
    match v {
        Some(d) => millis_u32(d),
        None => Some(default),
    }
}

fn addresses_or(v: &Option<CecLogicalAddresses>, default: cec_logical_addresses) -> (r: cec_logical_addresses)
    ensures
        match *v {
            Some(s) => encodes_addresses(s, r),
            None => r == default,
        },
{
    match v {
        Some(s) => s.to_native(),
        None => default,
    }
}

fn language_or(v: &Option<String>, default: [u8; LANGUAGE_SIZE]) -> (r: [u8; LANGUAGE_SIZE])
    ensures
        match *v {
            Some(l) => r@ == padded_prefix(encode_utf8(l@), 3),
            None => r == default,
        },
{
    match v {
        Some(l) => first_n::<LANGUAGE_SIZE>(l.as_str()),
        None => default,
    }
}

fn address_code_or(v: Option<CecLogicalAddress>, default: i32) -> (r: i32)
    ensures
        r == match v {
            Some(a) => a.code(),
            None => default,
        },
{
    match v {
        Some(a) => a.repr(),
        None => default,
    }
}

fn adapter_code_or(v: Option<CecAdapterType>, default: u32) -> (r: u32)
    ensures
        r == match v {
            Some(t) => t.code(),
            None => default,
        },
{
    match v {
        Some(t) => t.repr(),
        None => default,
    }
}

fn key_code_or(v: Option<CecUserControlCode>, default: u32) -> (r: u32)
    ensures
        r == match v {
            Some(k) => k.code(),
            None => default,
        },
{
    match v {
        Some(k) => k.repr(),
        None => default,
    }
}

impl CecConnectionCfg {
    /// The native configuration for these settings, over `cleared`: the
    /// record as the native library clears it. Name, device types and client
    /// version are always set; every other field is set only when present.
    /// Fails when a present duration does not fit its native 32-bit field.
    pub fn to_native(&self, cleared: &NativeConfiguration) -> (r: Result<NativeConfiguration, DurationOutOfRange>)
        ensures
            match r {
                Err(_) => !durations_fit(*self),
                Ok(n) => {
                    &&& durations_fit(*self)
                    &&& n.clientVersion == LibcecVersion::Current.code()
                    &&& n.strDeviceName@ == padded_prefix(encode_utf8(self.device_name@), 15)
                    &&& encodes_device_types(self.device_types@, n.deviceTypes)
                    &&& n.iPhysicalAddress == or_default(self.physical_address, cleared.iPhysicalAddress)
                    &&& n.baseDevice == match self.base_device {
                        Some(a) => a.code(),
                        None => cleared.baseDevice,
                    }
                    &&& n.iHDMIPort == or_default(self.hdmi_port, cleared.iHDMIPort)
                    &&& n.tvVendor == or_default(self.tv_vendor, cleared.tvVendor)
                    &&& match self.wake_devices {
                        Some(s) => encodes_addresses(s, n.wakeDevices),
                        None => n.wakeDevices == cleared.wakeDevices,
                    }
                    &&& match self.power_off_devices {
                        Some(s) => encodes_addresses(s, n.powerOffDevices),
                        None => n.powerOffDevices == cleared.powerOffDevices,
                    }
                    &&& n.bGetSettingsFromROM == flag_field(self.get_settings_from_rom, cleared.bGetSettingsFromROM)
                    &&& n.bActivateSource == flag_field(self.activate_source, cleared.bActivateSource)
                    &&& n.bPowerOffOnStandby == flag_field(self.power_off_on_standby, cleared.bPowerOffOnStandby)
                    &&& match self.device_language {
                        Some(l) => n.strDeviceLanguage@ == padded_prefix(encode_utf8(l@), 3),
                        None => n.strDeviceLanguage == cleared.strDeviceLanguage,
                    }
                    &&& n.bMonitorOnly == flag_field(self.monitor_only, cleared.bMonitorOnly)
                    &&& n.adapterType == match self.adapter_type {
                        Some(t) => t.code(),
                        None => cleared.adapterType,
                    }
                    &&& n.comboKey == match self.combo_key {
                        Some(k) => k.code(),
                        None => cleared.comboKey,
                    }
                    &&& n.iComboKeyTimeoutMs == millis_field(self.combo_key_timeout, cleared.iComboKeyTimeoutMs)
                    &&& n.iButtonRepeatRateMs == millis_field(self.button_repeat_rate, cleared.iButtonRepeatRateMs)
                    &&& n.iButtonReleaseDelayMs == millis_field(self.button_release_delay, cleared.iButtonReleaseDelayMs)
                    &&& n.iDoubleTapTimeoutMs == millis_field(self.double_tap_timeout, cleared.iDoubleTapTimeoutMs)
                    &&& n.bAutoWakeAVR == flag_field(self.autowake_avr, cleared.bAutoWakeAVR)
                },
            },
    {
        let combo_key_timeout = millis_or(&self.combo_key_timeout, cleared.iComboKeyTimeoutMs);
        let button_repeat_rate = millis_or(&self.button_repeat_rate, cleared.iButtonRepeatRateMs);
        let button_release_delay = millis_or(&self.button_release_delay, cleared.iButtonReleaseDelayMs);
        let double_tap_timeout = millis_or(&self.double_tap_timeout, cleared.iDoubleTapTimeoutMs);
        let (combo_key_timeout, button_repeat_rate, button_release_delay, double_tap_timeout) =
            match (combo_key_timeout, button_repeat_rate, button_release_delay, double_tap_timeout) {
            (Some(a), Some(b), Some(c), Some(d)) => (a, b, c, d),
            _ => return Err(DurationOutOfRange {}),
        };
        let cfg = NativeConfiguration {
            clientVersion: LibcecVersion::Current.repr(),
            strDeviceName: first_n::<OSD_NAME_SIZE>(self.device_name.as_str()),
            deviceTypes: self.device_types.to_native(),
            iPhysicalAddress: value_or(self.physical_address, cleared.iPhysicalAddress),
            baseDevice: address_code_or(self.base_device, cleared.baseDevice),
            iHDMIPort: value_or(self.hdmi_port, cleared.iHDMIPort),
            tvVendor: value_or(self.tv_vendor, cleared.tvVendor),
            wakeDevices: addresses_or(&self.wake_devices, cleared.wakeDevices),
            powerOffDevices: addresses_or(&self.power_off_devices, cleared.powerOffDevices),
            bGetSettingsFromROM: flag_or(self.get_settings_from_rom, cleared.bGetSettingsFromROM),
            bActivateSource: flag_or(self.activate_source, cleared.bActivateSource),
            bPowerOffOnStandby: flag_or(self.power_off_on_standby, cleared.bPowerOffOnStandby),
            strDeviceLanguage: language_or(&self.device_language, cleared.strDeviceLanguage),
            bMonitorOnly: flag_or(self.monitor_only, cleared.bMonitorOnly),
            adapterType: adapter_code_or(self.adapter_type, cleared.adapterType),
            comboKey: key_code_or(self.combo_key, cleared.comboKey),
            iComboKeyTimeoutMs: combo_key_timeout,
            iButtonRepeatRateMs: button_repeat_rate,
            iButtonReleaseDelayMs: button_release_delay,
            iDoubleTapTimeoutMs: double_tap_timeout,
            bAutoWakeAVR: flag_or(self.autowake_avr, cleared.bAutoWakeAVR),
        };
        Ok(cfg)
    }
}

} // verus!
