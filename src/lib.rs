//! Checked conversions between the safe model of the CEC protocol library's
//! values and the flat, fixed-layout records of its native interface.
pub mod address;
pub mod audio;
pub mod bounded;
pub mod command;
pub mod config;
pub mod connection;
pub mod duration;
pub mod enums;
pub mod native;
pub mod packet;

pub use crate::enums::{
    CecAbortReason, CecAdapterType, CecAnalogueBroadcastType, CecAudioRate, CecAudioStatus,
    CecBroadcastSystem, CecBusDeviceStatus, CecChannelIdentifier, CecDeckControlMode, CecDeckInfo,
    CecDeviceType, CecDisplayControl, CecExternalSourceSpecifier, CecLogLevel, CecLogicalAddress,
    CecMediaInfo, CecMenuRequestType, CecMenuState, CecNotProgrammedErrorInfo, CecOpcode,
    CecPlayMode, CecPowerStatus, CecProgrammedIndicator, CecProgrammedInfo, CecRecordSourceType,
    CecRecordStatusInfo, CecRecordingFlag, CecRecordingSequence, CecStatusRequest,
    CecSystemAudioStatus, CecTimerClearedStatusData, CecTimerOverlapWarning, CecTunerDisplayInfo,
    CecUserControlCode, CecVendorId, CecVersion, LibcecAlert, LibcecParameterType, LibcecVersion,
};
pub use crate::address::{
    CecLogicalAddresses, KnownAndRegisteredCecLogicalAddress, KnownCecLogicalAddress,
    TryFromCecLogicalAddressesError, UnregisteredCecLogicalAddress,
};
pub use crate::audio::{KnownCecAudioStatus, TryFromCecAudioStatusError};
pub use crate::command::{
    CecCommand, CecKeypress, CecLogMessage, DurationOutOfRange, TryFromCecCommandError,
    TryFromCecKeyPressError, TryFromCecLogMessageError,
};
pub use crate::config::{first_n, CecConnectionCfg, CecDeviceTypeVec};
pub use crate::connection::{
    CecConnectionResult, CecConnectionResultError, HandleState, OpenDecision, OpenStep,
};
pub use crate::native::{
    cec_command, cec_datapacket, cec_device_type_list, cec_keypress, cec_log_message,
    cec_logical_addresses, NativeConfiguration,
};
pub use crate::packet::{CecDatapacket, TryFromCecDatapacketError};
