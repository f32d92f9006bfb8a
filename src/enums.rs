//! The closed sets of named codes of the native CEC library, each with a checked
//! conversion from the native integer code and a total one to it. The codes
//! are those of the library's sixth major interface version.
use vstd::prelude::*;

verus! {

/// The codes of the native `cec_abort_reason` enumeration.
#[derive(Debug, Copy, Clone, PartialEq, Eq, Structural, Hash)]
pub enum CecAbortReason {
    UnrecognizedOpcode,
    NotInCorrectModeToRespond,
    CannotProvideSource,
    InvalidOperand,
    Refused,
}

impl CecAbortReason {
    /// The native code of each variant.
    pub open spec fn code(self) -> u32 {
        match self {
            CecAbortReason::UnrecognizedOpcode => 0,
            CecAbortReason::NotInCorrectModeToRespond => 1,
            CecAbortReason::CannotProvideSource => 2,
            CecAbortReason::InvalidOperand => 3,
            CecAbortReason::Refused => 4,
        }
    }

    /// The variant whose native code is `v`, if there is one.
    pub open spec fn from_code(v: u32) -> Option<CecAbortReason> {
        match v {
            0u32 => Some(CecAbortReason::UnrecognizedOpcode),
            1u32 => Some(CecAbortReason::NotInCorrectModeToRespond),
            2u32 => Some(CecAbortReason::CannotProvideSource),
            3u32 => Some(CecAbortReason::InvalidOperand),
            4u32 => Some(CecAbortReason::Refused),
            _ => None,
        }
    }

    /// The native code of this variant.
    pub fn repr(self) -> (r: u32)
        ensures
            r == self.code(),
    {
        match self {
            CecAbortReason::UnrecognizedOpcode => 0,
            CecAbortReason::NotInCorrectModeToRespond => 1,
            CecAbortReason::CannotProvideSource => 2,
            CecAbortReason::InvalidOperand => 3,
            CecAbortReason::Refused => 4,
        }
    }

    /// The variant with native code `v`; `None` for a code that no variant has.
    pub fn from_repr(v: u32) -> (r: Option<CecAbortReason>)
        ensures
            r == CecAbortReason::from_code(v),
    {
        match v {
            0u32 => Some(CecAbortReason::UnrecognizedOpcode),
            1u32 => Some(CecAbortReason::NotInCorrectModeToRespond),
            2u32 => Some(CecAbortReason::CannotProvideSource),
            3u32 => Some(CecAbortReason::InvalidOperand),
            4u32 => Some(CecAbortReason::Refused),
            _ => None,
        }
    }

    /// Decoding the code of a variant gives that variant back.
    pub proof fn lemma_round_trip(self)
        ensures
            CecAbortReason::from_code(self.code()) == Some(self),
    {
    }

    /// A code decodes to the variant that has it, and to nothing when no variant has it.
    pub proof fn lemma_decode_exact(v: u32)
        ensures
            match CecAbortReason::from_code(v) {
                Some(e) => e.code() == v,
                None => forall|e: CecAbortReason| #[trigger] e.code() != v,
            },
    {
    }
}

/// The codes of the native `cec_analogue_broadcast_type` enumeration.
#[derive(Debug, Copy, Clone, PartialEq, Eq, Structural, Hash)]
pub enum CecAnalogueBroadcastType {
    Cable,
    Satellite,
    Terrestial,
}

impl CecAnalogueBroadcastType {
    /// The native code of each variant.
    pub open spec fn code(self) -> u32 {
        match self {
            CecAnalogueBroadcastType::Cable => 0,
            CecAnalogueBroadcastType::Satellite => 1,
            CecAnalogueBroadcastType::Terrestial => 2,
        }
    }

    /// The variant whose native code is `v`, if there is one.
    pub open spec fn from_code(v: u32) -> Option<CecAnalogueBroadcastType> {
        match v {
            0u32 => Some(CecAnalogueBroadcastType::Cable),
            1u32 => Some(CecAnalogueBroadcastType::Satellite),
            2u32 => Some(CecAnalogueBroadcastType::Terrestial),
            _ => None,
        }
    }

    /// The native code of this variant.
    pub fn repr(self) -> (r: u32)
        ensures
            r == self.code(),
    {
        match self {
            CecAnalogueBroadcastType::Cable => 0,
            CecAnalogueBroadcastType::Satellite => 1,
            CecAnalogueBroadcastType::Terrestial => 2,
        }
    }

    /// The variant with native code `v`; `None` for a code that no variant has.
    pub fn from_repr(v: u32) -> (r: Option<CecAnalogueBroadcastType>)
        ensures
            r == CecAnalogueBroadcastType::from_code(v),
    {
        match v {
            0u32 => Some(CecAnalogueBroadcastType::Cable),
            1u32 => Some(CecAnalogueBroadcastType::Satellite),
            2u32 => Some(CecAnalogueBroadcastType::Terrestial),
            _ => None,
        }
    }

    /// Decoding the code of a variant gives that variant back.
    pub proof fn lemma_round_trip(self)
        ensures
            CecAnalogueBroadcastType::from_code(self.code()) == Some(self),
    {
    }

    /// A code decodes to the variant that has it, and to nothing when no variant has it.
    pub proof fn lemma_decode_exact(v: u32)
        ensures
            match CecAnalogueBroadcastType::from_code(v) {
                Some(e) => e.code() == v,
                None => forall|e: CecAnalogueBroadcastType| #[trigger] e.code() != v,
            },
    {
    }
}

/// The codes of the native `cec_audio_rate` enumeration.
#[derive(Debug, Copy, Clone, PartialEq, Eq, Structural, Hash)]
pub enum CecAudioRate {
    RateControlOff,
    StandardRate100,
    FastRateMax101,
    SlowRateMin99,
    StandardRate1000,
    FastRateMax1001,
    SlowRateMin999,
}

impl CecAudioRate {
    /// The native code of each variant.
    pub open spec fn code(self) -> u32 {
        match self {
            CecAudioRate::RateControlOff => 0,
            CecAudioRate::StandardRate100 => 1,
            CecAudioRate::FastRateMax101 => 2,
            CecAudioRate::SlowRateMin99 => 3,
            CecAudioRate::StandardRate1000 => 4,
            CecAudioRate::FastRateMax1001 => 5,
            CecAudioRate::SlowRateMin999 => 6,
        }
    }

    /// The variant whose native code is `v`, if there is one.
    pub open spec fn from_code(v: u32) -> Option<CecAudioRate> {
        match v {
            0u32 => Some(CecAudioRate::RateControlOff),
            1u32 => Some(CecAudioRate::StandardRate100),
            2u32 => Some(CecAudioRate::FastRateMax101),
            3u32 => Some(CecAudioRate::SlowRateMin99),
            4u32 => Some(CecAudioRate::StandardRate1000),
            5u32 => Some(CecAudioRate::FastRateMax1001),
            6u32 => Some(CecAudioRate::SlowRateMin999),
            _ => None,
        }
    }

    /// The native code of this variant.
    pub fn repr(self) -> (r: u32)
        ensures
            r == self.code(),
    {
        match self {
            CecAudioRate::RateControlOff => 0,
            CecAudioRate::StandardRate100 => 1,
            CecAudioRate::FastRateMax101 => 2,
            CecAudioRate::SlowRateMin99 => 3,
            CecAudioRate::StandardRate1000 => 4,
            CecAudioRate::FastRateMax1001 => 5,
            CecAudioRate::SlowRateMin999 => 6,
        }
    }

    /// The variant with native code `v`; `None` for a code that no variant has.
    pub fn from_repr(v: u32) -> (r: Option<CecAudioRate>)
        ensures
            r == CecAudioRate::from_code(v),
    {
        match v {
            0u32 => Some(CecAudioRate::RateControlOff),
            1u32 => Some(CecAudioRate::StandardRate100),
            2u32 => Some(CecAudioRate::FastRateMax101),
            3u32 => Some(CecAudioRate::SlowRateMin99),
            4u32 => Some(CecAudioRate::StandardRate1000),
            5u32 => Some(CecAudioRate::FastRateMax1001),
            6u32 => Some(CecAudioRate::SlowRateMin999),
            _ => None,
        }
    }

    /// Decoding the code of a variant gives that variant back.
    pub proof fn lemma_round_trip(self)
        ensures
            CecAudioRate::from_code(self.code()) == Some(self),
    {
    }

    /// A code decodes to the variant that has it, and to nothing when no variant has it.
    pub proof fn lemma_decode_exact(v: u32)
        ensures
            match CecAudioRate::from_code(v) {
                Some(e) => e.code() == v,
                None => forall|e: CecAudioRate| #[trigger] e.code() != v,
            },
    {
    }
}

/// The codes of the native `cec_audio_status` enumeration.
#[derive(Debug, Copy, Clone, PartialEq, Eq, Structural, Hash)]
pub enum CecAudioStatus {
    MuteStatusMask,
    VolumeStatusMask,
    VolumeMin,
    VolumeMax,
}

impl CecAudioStatus {
    /// The native code of each variant.
    pub open spec fn code(self) -> u32 {
        match self {
            CecAudioStatus::MuteStatusMask => 128,
            CecAudioStatus::VolumeStatusMask => 127,
            CecAudioStatus::VolumeMin => 0,
            CecAudioStatus::VolumeMax => 100,
        }
    }

    /// The variant whose native code is `v`, if there is one.
    pub open spec fn from_code(v: u32) -> Option<CecAudioStatus> {
        match v {
            128u32 => Some(CecAudioStatus::MuteStatusMask),
            127u32 => Some(CecAudioStatus::VolumeStatusMask),
            0u32 => Some(CecAudioStatus::VolumeMin),
            100u32 => Some(CecAudioStatus::VolumeMax),
            _ => None,
        }
    }

    /// The native code of this variant.
    pub fn repr(self) -> (r: u32)
        ensures
            r == self.code(),
    {
        match self {
            CecAudioStatus::MuteStatusMask => 128,
            CecAudioStatus::VolumeStatusMask => 127,
            CecAudioStatus::VolumeMin => 0,
            CecAudioStatus::VolumeMax => 100,
        }
    }

    /// The variant with native code `v`; `None` for a code that no variant has.
    pub fn from_repr(v: u32) -> (r: Option<CecAudioStatus>)
        ensures
            r == CecAudioStatus::from_code(v),
    {
        match v {
            128u32 => Some(CecAudioStatus::MuteStatusMask),
            127u32 => Some(CecAudioStatus::VolumeStatusMask),
            0u32 => Some(CecAudioStatus::VolumeMin),
            100u32 => Some(CecAudioStatus::VolumeMax),
            _ => None,
        }
    }

    /// Decoding the code of a variant gives that variant back.
    pub proof fn lemma_round_trip(self)
        ensures
            CecAudioStatus::from_code(self.code()) == Some(self),
    {
    }

    /// A code decodes to the variant that has it, and to nothing when no variant has it.
    pub proof fn lemma_decode_exact(v: u32)
        ensures
            match CecAudioStatus::from_code(v) {
                Some(e) => e.code() == v,
                None => forall|e: CecAudioStatus| #[trigger] e.code() != v,
            },
    {
    }
}

/// The codes of the native `cec_version` enumeration.
#[derive(Debug, Copy, Clone, PartialEq, Eq, Structural, Hash)]
pub enum CecVersion {
    VersionUnknown,
    Version12,
    Version12a,
    Version13,
    Version13a,
    Version14,
    Version20,
}

impl CecVersion {
    /// The native code of each variant.
    pub open spec fn code(self) -> u32 {
        match self {
            CecVersion::VersionUnknown => 0,
            CecVersion::Version12 => 1,
            CecVersion::Version12a => 2,
            CecVersion::Version13 => 3,
            CecVersion::Version13a => 4,
            CecVersion::Version14 => 5,
            CecVersion::Version20 => 6,
        }
    }

    /// The variant whose native code is `v`, if there is one.
    pub open spec fn from_code(v: u32) -> Option<CecVersion> {
        match v {
            0u32 => Some(CecVersion::VersionUnknown),
            1u32 => Some(CecVersion::Version12),
            2u32 => Some(CecVersion::Version12a),
            3u32 => Some(CecVersion::Version13),
            4u32 => Some(CecVersion::Version13a),
            5u32 => Some(CecVersion::Version14),
            6u32 => Some(CecVersion::Version20),
            _ => None,
        }
    }

    /// The native code of this variant.
    pub fn repr(self) -> (r: u32)
        ensures
            r == self.code(),
    {
        match self {
            CecVersion::VersionUnknown => 0,
            CecVersion::Version12 => 1,
            CecVersion::Version12a => 2,
            CecVersion::Version13 => 3,
            CecVersion::Version13a => 4,
            CecVersion::Version14 => 5,
            CecVersion::Version20 => 6,
        }
    }

    /// The variant with native code `v`; `None` for a code that no variant has.
    pub fn from_repr(v: u32) -> (r: Option<CecVersion>)
        ensures
            r == CecVersion::from_code(v),
    {
        match v {
            0u32 => Some(CecVersion::VersionUnknown),
            1u32 => Some(CecVersion::Version12),
            2u32 => Some(CecVersion::Version12a),
            3u32 => Some(CecVersion::Version13),
            4u32 => Some(CecVersion::Version13a),
            5u32 => Some(CecVersion::Version14),
            6u32 => Some(CecVersion::Version20),
            _ => None,
        }
    }

    /// Decoding the code of a variant gives that variant back.
    pub proof fn lemma_round_trip(self)
        ensures
            CecVersion::from_code(self.code()) == Some(self),
    {
    }

    /// A code decodes to the variant that has it, and to nothing when no variant has it.
    pub proof fn lemma_decode_exact(v: u32)
        ensures
            match CecVersion::from_code(v) {
                Some(e) => e.code() == v,
                None => forall|e: CecVersion| #[trigger] e.code() != v,
            },
    {
    }
}

/// The codes of the native `cec_channel_identifier` enumeration.
#[derive(Debug, Copy, Clone, PartialEq, Eq, Structural, Hash)]
pub enum CecChannelIdentifier {
    CecChannelNumberFormatMask,
    Cec1PartChannelNumber,
    Cec2PartChannelNumber,
    CecMajorChannelNumberMask,
    CecMinorChannelNumberMask,
}

impl CecChannelIdentifier {
    /// The native code of each variant.
    pub open spec fn code(self) -> u32 {
        match self {
            CecChannelIdentifier::CecChannelNumberFormatMask => 4227858432,
            CecChannelIdentifier::Cec1PartChannelNumber => 67108864,
            CecChannelIdentifier::Cec2PartChannelNumber => 134217728,
            CecChannelIdentifier::CecMajorChannelNumberMask => 67043328,
            CecChannelIdentifier::CecMinorChannelNumberMask => 65535,
        }
    }

    /// The variant whose native code is `v`, if there is one.
    pub open spec fn from_code(v: u32) -> Option<CecChannelIdentifier> {
        match v {
            4227858432u32 => Some(CecChannelIdentifier::CecChannelNumberFormatMask),
            67108864u32 => Some(CecChannelIdentifier::Cec1PartChannelNumber),
            134217728u32 => Some(CecChannelIdentifier::Cec2PartChannelNumber),
            67043328u32 => Some(CecChannelIdentifier::CecMajorChannelNumberMask),
            65535u32 => Some(CecChannelIdentifier::CecMinorChannelNumberMask),
            _ => None,
        }
    }

    /// The native code of this variant.
    pub fn repr(self) -> (r: u32)
        ensures
            r == self.code(),
    {
        match self {
            CecChannelIdentifier::CecChannelNumberFormatMask => 4227858432,
            CecChannelIdentifier::Cec1PartChannelNumber => 67108864,
            CecChannelIdentifier::Cec2PartChannelNumber => 134217728,
            CecChannelIdentifier::CecMajorChannelNumberMask => 67043328,
            CecChannelIdentifier::CecMinorChannelNumberMask => 65535,
        }
    }

    /// The variant with native code `v`; `None` for a code that no variant has.
    pub fn from_repr(v: u32) -> (r: Option<CecChannelIdentifier>)
        ensures
            r == CecChannelIdentifier::from_code(v),
    {
        match v {
            4227858432u32 => Some(CecChannelIdentifier::CecChannelNumberFormatMask),
            67108864u32 => Some(CecChannelIdentifier::Cec1PartChannelNumber),
            134217728u32 => Some(CecChannelIdentifier::Cec2PartChannelNumber),
            67043328u32 => Some(CecChannelIdentifier::CecMajorChannelNumberMask),
            65535u32 => Some(CecChannelIdentifier::CecMinorChannelNumberMask),
            _ => None,
        }
    }

    /// Decoding the code of a variant gives that variant back.
    pub proof fn lemma_round_trip(self)
        ensures
            CecChannelIdentifier::from_code(self.code()) == Some(self),
    {
    }

    /// A code decodes to the variant that has it, and to nothing when no variant has it.
    pub proof fn lemma_decode_exact(v: u32)
        ensures
            match CecChannelIdentifier::from_code(v) {
                Some(e) => e.code() == v,
                None => forall|e: CecChannelIdentifier| #[trigger] e.code() != v,
            },
    {
    }
}

/// The codes of the native `cec_deck_control_mode` enumeration.
#[derive(Debug, Copy, Clone, PartialEq, Eq, Structural, Hash)]
pub enum CecDeckControlMode {
    SkipForwardWind,
    SkipReverseRewind,
    Stop,
    Eject,
}

impl CecDeckControlMode {
    /// The native code of each variant.
    pub open spec fn code(self) -> u32 {
        match self {
            CecDeckControlMode::SkipForwardWind => 1,
            CecDeckControlMode::SkipReverseRewind => 2,
            CecDeckControlMode::Stop => 3,
            CecDeckControlMode::Eject => 4,
        }
    }

    /// The variant whose native code is `v`, if there is one.
    pub open spec fn from_code(v: u32) -> Option<CecDeckControlMode> {
        match v {
            1u32 => Some(CecDeckControlMode::SkipForwardWind),
            2u32 => Some(CecDeckControlMode::SkipReverseRewind),
            3u32 => Some(CecDeckControlMode::Stop),
            4u32 => Some(CecDeckControlMode::Eject),
            _ => None,
        }
    }

    /// The native code of this variant.
    pub fn repr(self) -> (r: u32)
        ensures
            r == self.code(),
    {
        match self {
            CecDeckControlMode::SkipForwardWind => 1,
            CecDeckControlMode::SkipReverseRewind => 2,
            CecDeckControlMode::Stop => 3,
            CecDeckControlMode::Eject => 4,
        }
    }

    /// The variant with native code `v`; `None` for a code that no variant has.
    pub fn from_repr(v: u32) -> (r: Option<CecDeckControlMode>)
        ensures
            r == CecDeckControlMode::from_code(v),
    {
        match v {
            1u32 => Some(CecDeckControlMode::SkipForwardWind),
            2u32 => Some(CecDeckControlMode::SkipReverseRewind),
            3u32 => Some(CecDeckControlMode::Stop),
            4u32 => Some(CecDeckControlMode::Eject),
            _ => None,
        }
    }

    /// Decoding the code of a variant gives that variant back.
    pub proof fn lemma_round_trip(self)
        ensures
            CecDeckControlMode::from_code(self.code()) == Some(self),
    {
    }

    /// A code decodes to the variant that has it, and to nothing when no variant has it.
    pub proof fn lemma_decode_exact(v: u32)
        ensures
            match CecDeckControlMode::from_code(v) {
                Some(e) => e.code() == v,
                None => forall|e: CecDeckControlMode| #[trigger] e.code() != v,
            },
    {
    }
}

/// The codes of the native `cec_deck_info` enumeration.
#[derive(Debug, Copy, Clone, PartialEq, Eq, Structural, Hash)]
pub enum CecDeckInfo {
    Play,
    Record,
    PlayReverse,
    Still,
    Slow,
    SlowReverse,
    FastForward,
    FastReverse,
    NoMedia,
    Stop,
    SkipForwardWind,
    SkipReverseRewind,
    IndexSearchForward,
    IndexSearchReverse,
    OtherStatus,
    OtherStatusLg,
}

impl CecDeckInfo {
    /// The native code of each variant.
    pub open spec fn code(self) -> u32 {
        match self {
            CecDeckInfo::Play => 17,
            CecDeckInfo::Record => 18,
            CecDeckInfo::PlayReverse => 19,
            CecDeckInfo::Still => 20,
            CecDeckInfo::Slow => 21,
            CecDeckInfo::SlowReverse => 22,
            CecDeckInfo::FastForward => 23,
            CecDeckInfo::FastReverse => 24,
            CecDeckInfo::NoMedia => 25,
            CecDeckInfo::Stop => 26,
            CecDeckInfo::SkipForwardWind => 27,
            CecDeckInfo::SkipReverseRewind => 28,
            CecDeckInfo::IndexSearchForward => 29,
            CecDeckInfo::IndexSearchReverse => 30,
            CecDeckInfo::OtherStatus => 31,
            CecDeckInfo::OtherStatusLg => 32,
        }
    }

    /// The variant whose native code is `v`, if there is one.
    pub open spec fn from_code(v: u32) -> Option<CecDeckInfo> {
        match v {
            17u32 => Some(CecDeckInfo::Play),
            18u32 => Some(CecDeckInfo::Record),
            19u32 => Some(CecDeckInfo::PlayReverse),
            20u32 => Some(CecDeckInfo::Still),
            21u32 => Some(CecDeckInfo::Slow),
            22u32 => Some(CecDeckInfo::SlowReverse),
            23u32 => Some(CecDeckInfo::FastForward),
            24u32 => Some(CecDeckInfo::FastReverse),
            25u32 => Some(CecDeckInfo::NoMedia),
            26u32 => Some(CecDeckInfo::Stop),
            27u32 => Some(CecDeckInfo::SkipForwardWind),
            28u32 => Some(CecDeckInfo::SkipReverseRewind),
            29u32 => Some(CecDeckInfo::IndexSearchForward),
            30u32 => Some(CecDeckInfo::IndexSearchReverse),
            31u32 => Some(CecDeckInfo::OtherStatus),
            32u32 => Some(CecDeckInfo::OtherStatusLg),
            _ => None,
        }
    }

    /// The native code of this variant.
    pub fn repr(self) -> (r: u32)
        ensures
            r == self.code(),
    {
        match self {
            CecDeckInfo::Play => 17,
            CecDeckInfo::Record => 18,
            CecDeckInfo::PlayReverse => 19,
            CecDeckInfo::Still => 20,
            CecDeckInfo::Slow => 21,
            CecDeckInfo::SlowReverse => 22,
            CecDeckInfo::FastForward => 23,
            CecDeckInfo::FastReverse => 24,
            CecDeckInfo::NoMedia => 25,
            CecDeckInfo::Stop => 26,
            CecDeckInfo::SkipForwardWind => 27,
            CecDeckInfo::SkipReverseRewind => 28,
            CecDeckInfo::IndexSearchForward => 29,
            CecDeckInfo::IndexSearchReverse => 30,
            CecDeckInfo::OtherStatus => 31,
            CecDeckInfo::OtherStatusLg => 32,
        }
    }

    /// The variant with native code `v`; `None` for a code that no variant has.
    pub fn from_repr(v: u32) -> (r: Option<CecDeckInfo>)
        ensures
            r == CecDeckInfo::from_code(v),
    {
        match v {
            17u32 => Some(CecDeckInfo::Play),
            18u32 => Some(CecDeckInfo::Record),
            19u32 => Some(CecDeckInfo::PlayReverse),
            20u32 => Some(CecDeckInfo::Still),
            21u32 => Some(CecDeckInfo::Slow),
            22u32 => Some(CecDeckInfo::SlowReverse),
            23u32 => Some(CecDeckInfo::FastForward),
            24u32 => Some(CecDeckInfo::FastReverse),
            25u32 => Some(CecDeckInfo::NoMedia),
            26u32 => Some(CecDeckInfo::Stop),
            27u32 => Some(CecDeckInfo::SkipForwardWind),
            28u32 => Some(CecDeckInfo::SkipReverseRewind),
            29u32 => Some(CecDeckInfo::IndexSearchForward),
            30u32 => Some(CecDeckInfo::IndexSearchReverse),
            31u32 => Some(CecDeckInfo::OtherStatus),
            32u32 => Some(CecDeckInfo::OtherStatusLg),
            _ => None,
        }
    }

    /// Decoding the code of a variant gives that variant back.
    pub proof fn lemma_round_trip(self)
        ensures
            CecDeckInfo::from_code(self.code()) == Some(self),
    {
    }

    /// A code decodes to the variant that has it, and to nothing when no variant has it.
    pub proof fn lemma_decode_exact(v: u32)
        ensures
            match CecDeckInfo::from_code(v) {
                Some(e) => e.code() == v,
                None => forall|e: CecDeckInfo| #[trigger] e.code() != v,
            },
    {
    }
}

/// The codes of the native `cec_device_type` enumeration.
#[derive(Debug, Copy, Clone, PartialEq, Eq, Structural, Hash)]
pub enum CecDeviceType {
    Tv,
    RecordingDevice,
    Reserved,
    Tuner,
    PlaybackDevice,
    AudioSystem,
}

impl CecDeviceType {
    /// The native code of each variant.
    pub open spec fn code(self) -> u32 {
        match self {
            CecDeviceType::Tv => 0,
            CecDeviceType::RecordingDevice => 1,
            CecDeviceType::Reserved => 2,
            CecDeviceType::Tuner => 3,
            CecDeviceType::PlaybackDevice => 4,
            CecDeviceType::AudioSystem => 5,
        }
    }

    /// The variant whose native code is `v`, if there is one.
    pub open spec fn from_code(v: u32) -> Option<CecDeviceType> {
        match v {
            0u32 => Some(CecDeviceType::Tv),
            1u32 => Some(CecDeviceType::RecordingDevice),
            2u32 => Some(CecDeviceType::Reserved),
            3u32 => Some(CecDeviceType::Tuner),
            4u32 => Some(CecDeviceType::PlaybackDevice),
            5u32 => Some(CecDeviceType::AudioSystem),
            _ => None,
        }
    }

    /// The native code of this variant.
    pub fn repr(self) -> (r: u32)
        ensures
            r == self.code(),
    {
        match self {
            CecDeviceType::Tv => 0,
            CecDeviceType::RecordingDevice => 1,
            CecDeviceType::Reserved => 2,
            CecDeviceType::Tuner => 3,
            CecDeviceType::PlaybackDevice => 4,
            CecDeviceType::AudioSystem => 5,
        }
    }

    /// The variant with native code `v`; `None` for a code that no variant has.
    pub fn from_repr(v: u32) -> (r: Option<CecDeviceType>)
        ensures
            r == CecDeviceType::from_code(v),
    {
        match v {
            0u32 => Some(CecDeviceType::Tv),
            1u32 => Some(CecDeviceType::RecordingDevice),
            2u32 => Some(CecDeviceType::Reserved),
            3u32 => Some(CecDeviceType::Tuner),
            4u32 => Some(CecDeviceType::PlaybackDevice),
            5u32 => Some(CecDeviceType::AudioSystem),
            _ => None,
        }
    }

    /// Decoding the code of a variant gives that variant back.
    pub proof fn lemma_round_trip(self)
        ensures
            CecDeviceType::from_code(self.code()) == Some(self),
    {
    }

    /// A code decodes to the variant that has it, and to nothing when no variant has it.
    pub proof fn lemma_decode_exact(v: u32)
        ensures
            match CecDeviceType::from_code(v) {
                Some(e) => e.code() == v,
                None => forall|e: CecDeviceType| #[trigger] e.code() != v,
            },
    {
    }
}

/// The codes of the native `cec_display_control` enumeration.
#[derive(Debug, Copy, Clone, PartialEq, Eq, Structural, Hash)]
pub enum CecDisplayControl {
    DisplayForDefaultTime,
    DisplayUntilCleared,
    ClearPreviousMessage,
    ReservedForFutureUse,
}

impl CecDisplayControl {
    /// The native code of each variant.
    pub open spec fn code(self) -> u32 {
        match self {
            CecDisplayControl::DisplayForDefaultTime => 0,
            CecDisplayControl::DisplayUntilCleared => 64,
            CecDisplayControl::ClearPreviousMessage => 128,
            CecDisplayControl::ReservedForFutureUse => 192,
        }
    }

    /// The variant whose native code is `v`, if there is one.
    pub open spec fn from_code(v: u32) -> Option<CecDisplayControl> {
        match v {
            0u32 => Some(CecDisplayControl::DisplayForDefaultTime),
            64u32 => Some(CecDisplayControl::DisplayUntilCleared),
            128u32 => Some(CecDisplayControl::ClearPreviousMessage),
            192u32 => Some(CecDisplayControl::ReservedForFutureUse),
            _ => None,
        }
    }

    /// The native code of this variant.
    pub fn repr(self) -> (r: u32)
        ensures
            r == self.code(),
    {
        match self {
            CecDisplayControl::DisplayForDefaultTime => 0,
            CecDisplayControl::DisplayUntilCleared => 64,
            CecDisplayControl::ClearPreviousMessage => 128,
            CecDisplayControl::ReservedForFutureUse => 192,
        }
    }

    /// The variant with native code `v`; `None` for a code that no variant has.
    pub fn from_repr(v: u32) -> (r: Option<CecDisplayControl>)
        ensures
            r == CecDisplayControl::from_code(v),
    {
        match v {
            0u32 => Some(CecDisplayControl::DisplayForDefaultTime),
            64u32 => Some(CecDisplayControl::DisplayUntilCleared),
            128u32 => Some(CecDisplayControl::ClearPreviousMessage),
            192u32 => Some(CecDisplayControl::ReservedForFutureUse),
            _ => None,
        }
    }

    /// Decoding the code of a variant gives that variant back.
    pub proof fn lemma_round_trip(self)
        ensures
            CecDisplayControl::from_code(self.code()) == Some(self),
    {
    }

    /// A code decodes to the variant that has it, and to nothing when no variant has it.
    pub proof fn lemma_decode_exact(v: u32)
        ensures
            match CecDisplayControl::from_code(v) {
                Some(e) => e.code() == v,
                None => forall|e: CecDisplayControl| #[trigger] e.code() != v,
            },
    {
    }
}

/// The codes of the native `cec_external_source_specifier` enumeration.
#[derive(Debug, Copy, Clone, PartialEq, Eq, Structural, Hash)]
pub enum CecExternalSourceSpecifier {
    Plug,
    PhysicalAddress,
}

impl CecExternalSourceSpecifier {
    /// The native code of each variant.
    pub open spec fn code(self) -> u32 {
        match self {
            CecExternalSourceSpecifier::Plug => 4,
            CecExternalSourceSpecifier::PhysicalAddress => 5,
        }
    }

    /// The variant whose native code is `v`, if there is one.
    pub open spec fn from_code(v: u32) -> Option<CecExternalSourceSpecifier> {
        match v {
            4u32 => Some(CecExternalSourceSpecifier::Plug),
            5u32 => Some(CecExternalSourceSpecifier::PhysicalAddress),
            _ => None,
        }
    }

    /// The native code of this variant.
    pub fn repr(self) -> (r: u32)
        ensures
            r == self.code(),
    {
        match self {
            CecExternalSourceSpecifier::Plug => 4,
            CecExternalSourceSpecifier::PhysicalAddress => 5,
        }
    }

    /// The variant with native code `v`; `None` for a code that no variant has.
    pub fn from_repr(v: u32) -> (r: Option<CecExternalSourceSpecifier>)
        ensures
            r == CecExternalSourceSpecifier::from_code(v),
    {
        match v {
            4u32 => Some(CecExternalSourceSpecifier::Plug),
            5u32 => Some(CecExternalSourceSpecifier::PhysicalAddress),
            _ => None,
        }
    }

    /// Decoding the code of a variant gives that variant back.
    pub proof fn lemma_round_trip(self)
        ensures
            CecExternalSourceSpecifier::from_code(self.code()) == Some(self),
    {
    }

    /// A code decodes to the variant that has it, and to nothing when no variant has it.
    pub proof fn lemma_decode_exact(v: u32)
        ensures
            match CecExternalSourceSpecifier::from_code(v) {
                Some(e) => e.code() == v,
                None => forall|e: CecExternalSourceSpecifier| #[trigger] e.code() != v,
            },
    {
    }
}

/// The codes of the native `cec_menu_request_type` enumeration.
#[derive(Debug, Copy, Clone, PartialEq, Eq, Structural, Hash)]
pub enum CecMenuRequestType {
    Activate,
    Deactivate,
    Query,
}

impl CecMenuRequestType {
    /// The native code of each variant.
    pub open spec fn code(self) -> u32 {
        match self {
            CecMenuRequestType::Activate => 0,
            CecMenuRequestType::Deactivate => 1,
            CecMenuRequestType::Query => 2,
        }
    }

    /// The variant whose native code is `v`, if there is one.
    pub open spec fn from_code(v: u32) -> Option<CecMenuRequestType> {
        match v {
            0u32 => Some(CecMenuRequestType::Activate),
            1u32 => Some(CecMenuRequestType::Deactivate),
            2u32 => Some(CecMenuRequestType::Query),
            _ => None,
        }
    }

    /// The native code of this variant.
    pub fn repr(self) -> (r: u32)
        ensures
            r == self.code(),
    {
        match self {
            CecMenuRequestType::Activate => 0,
            CecMenuRequestType::Deactivate => 1,
            CecMenuRequestType::Query => 2,
        }
    }

    /// The variant with native code `v`; `None` for a code that no variant has.
    pub fn from_repr(v: u32) -> (r: Option<CecMenuRequestType>)
        ensures
            r == CecMenuRequestType::from_code(v),
    {
        match v {
            0u32 => Some(CecMenuRequestType::Activate),
            1u32 => Some(CecMenuRequestType::Deactivate),
            2u32 => Some(CecMenuRequestType::Query),
            _ => None,
        }
    }

    /// Decoding the code of a variant gives that variant back.
    pub proof fn lemma_round_trip(self)
        ensures
            CecMenuRequestType::from_code(self.code()) == Some(self),
    {
    }

    /// A code decodes to the variant that has it, and to nothing when no variant has it.
    pub proof fn lemma_decode_exact(v: u32)
        ensures
            match CecMenuRequestType::from_code(v) {
                Some(e) => e.code() == v,
                None => forall|e: CecMenuRequestType| #[trigger] e.code() != v,
            },
    {
    }
}

/// The codes of the native `cec_menu_state` enumeration.
#[derive(Debug, Copy, Clone, PartialEq, Eq, Structural, Hash)]
pub enum CecMenuState {
    Activated,
    Deactivated,
}

impl CecMenuState {
    /// The native code of each variant.
    pub open spec fn code(self) -> u32 {
        match self {
            CecMenuState::Activated => 0,
            CecMenuState::Deactivated => 1,
        }
    }

    /// The variant whose native code is `v`, if there is one.
    pub open spec fn from_code(v: u32) -> Option<CecMenuState> {
        match v {
            0u32 => Some(CecMenuState::Activated),
            1u32 => Some(CecMenuState::Deactivated),
            _ => None,
        }
    }

    /// The native code of this variant.
    pub fn repr(self) -> (r: u32)
        ensures
            r == self.code(),
    {
        match self {
            CecMenuState::Activated => 0,
            CecMenuState::Deactivated => 1,
        }
    }

    /// The variant with native code `v`; `None` for a code that no variant has.
    pub fn from_repr(v: u32) -> (r: Option<CecMenuState>)
        ensures
            r == CecMenuState::from_code(v),
    {
        match v {
            0u32 => Some(CecMenuState::Activated),
            1u32 => Some(CecMenuState::Deactivated),
            _ => None,
        }
    }

    /// Decoding the code of a variant gives that variant back.
    pub proof fn lemma_round_trip(self)
        ensures
            CecMenuState::from_code(self.code()) == Some(self),
    {
    }

    /// A code decodes to the variant that has it, and to nothing when no variant has it.
    pub proof fn lemma_decode_exact(v: u32)
        ensures
            match CecMenuState::from_code(v) {
                Some(e) => e.code() == v,
                None => forall|e: CecMenuState| #[trigger] e.code() != v,
            },
    {
    }
}

/// The codes of the native `cec_play_mode` enumeration.
#[derive(Debug, Copy, Clone, PartialEq, Eq, Structural, Hash)]
pub enum CecPlayMode {
    PlayForward,
    PlayReverse,
    PlayStill,
    FastForwardMinSpeed,
    FastForwardMediumSpeed,
    FastForwardMaxSpeed,
    FastReverseMinSpeed,
    FastReverseMediumSpeed,
    FastReverseMaxSpeed,
    SlowForwardMinSpeed,
    SlowForwardMediumSpeed,
    SlowForwardMaxSpeed,
    SlowReverseMinSpeed,
    SlowReverseMediumSpeed,
    SlowReverseMaxSpeed,
}

impl CecPlayMode {
    /// The native code of each variant.
    pub open spec fn code(self) -> u32 {
        match self {
            CecPlayMode::PlayForward => 36,
            CecPlayMode::PlayReverse => 32,
            CecPlayMode::PlayStill => 37,
            CecPlayMode::FastForwardMinSpeed => 5,
            CecPlayMode::FastForwardMediumSpeed => 6,
            CecPlayMode::FastForwardMaxSpeed => 7,
            CecPlayMode::FastReverseMinSpeed => 9,
            CecPlayMode::FastReverseMediumSpeed => 10,
            CecPlayMode::FastReverseMaxSpeed => 11,
            CecPlayMode::SlowForwardMinSpeed => 21,
            CecPlayMode::SlowForwardMediumSpeed => 22,
            CecPlayMode::SlowForwardMaxSpeed => 23,
            CecPlayMode::SlowReverseMinSpeed => 25,
            CecPlayMode::SlowReverseMediumSpeed => 26,
            CecPlayMode::SlowReverseMaxSpeed => 27,
        }
    }

    /// The variant whose native code is `v`, if there is one.
    pub open spec fn from_code(v: u32) -> Option<CecPlayMode> {
        match v {
            36u32 => Some(CecPlayMode::PlayForward),
            32u32 => Some(CecPlayMode::PlayReverse),
            37u32 => Some(CecPlayMode::PlayStill),
            5u32 => Some(CecPlayMode::FastForwardMinSpeed),
            6u32 => Some(CecPlayMode::FastForwardMediumSpeed),
            7u32 => Some(CecPlayMode::FastForwardMaxSpeed),
            9u32 => Some(CecPlayMode::FastReverseMinSpeed),
            10u32 => Some(CecPlayMode::FastReverseMediumSpeed),
            11u32 => Some(CecPlayMode::FastReverseMaxSpeed),
            21u32 => Some(CecPlayMode::SlowForwardMinSpeed),
            22u32 => Some(CecPlayMode::SlowForwardMediumSpeed),
            23u32 => Some(CecPlayMode::SlowForwardMaxSpeed),
            25u32 => Some(CecPlayMode::SlowReverseMinSpeed),
            26u32 => Some(CecPlayMode::SlowReverseMediumSpeed),
            27u32 => Some(CecPlayMode::SlowReverseMaxSpeed),
            _ => None,
        }
    }

    /// The native code of this variant.
    pub fn repr(self) -> (r: u32)
        ensures
            r == self.code(),
    {
        match self {
            CecPlayMode::PlayForward => 36,
            CecPlayMode::PlayReverse => 32,
            CecPlayMode::PlayStill => 37,
            CecPlayMode::FastForwardMinSpeed => 5,
            CecPlayMode::FastForwardMediumSpeed => 6,
            CecPlayMode::FastForwardMaxSpeed => 7,
            CecPlayMode::FastReverseMinSpeed => 9,
            CecPlayMode::FastReverseMediumSpeed => 10,
            CecPlayMode::FastReverseMaxSpeed => 11,
            CecPlayMode::SlowForwardMinSpeed => 21,
            CecPlayMode::SlowForwardMediumSpeed => 22,
            CecPlayMode::SlowForwardMaxSpeed => 23,
            CecPlayMode::SlowReverseMinSpeed => 25,
            CecPlayMode::SlowReverseMediumSpeed => 26,
            CecPlayMode::SlowReverseMaxSpeed => 27,
        }
    }

    /// The variant with native code `v`; `None` for a code that no variant has.
    pub fn from_repr(v: u32) -> (r: Option<CecPlayMode>)
        ensures
            r == CecPlayMode::from_code(v),
    {
        match v {
            36u32 => Some(CecPlayMode::PlayForward),
            32u32 => Some(CecPlayMode::PlayReverse),
            37u32 => Some(CecPlayMode::PlayStill),
            5u32 => Some(CecPlayMode::FastForwardMinSpeed),
            6u32 => Some(CecPlayMode::FastForwardMediumSpeed),
            7u32 => Some(CecPlayMode::FastForwardMaxSpeed),
            9u32 => Some(CecPlayMode::FastReverseMinSpeed),
            10u32 => Some(CecPlayMode::FastReverseMediumSpeed),
            11u32 => Some(CecPlayMode::FastReverseMaxSpeed),
            21u32 => Some(CecPlayMode::SlowForwardMinSpeed),
            22u32 => Some(CecPlayMode::SlowForwardMediumSpeed),
            23u32 => Some(CecPlayMode::SlowForwardMaxSpeed),
            25u32 => Some(CecPlayMode::SlowReverseMinSpeed),
            26u32 => Some(CecPlayMode::SlowReverseMediumSpeed),
            27u32 => Some(CecPlayMode::SlowReverseMaxSpeed),
            _ => None,
        }
    }

    /// Decoding the code of a variant gives that variant back.
    pub proof fn lemma_round_trip(self)
        ensures
            CecPlayMode::from_code(self.code()) == Some(self),
    {
    }

    /// A code decodes to the variant that has it, and to nothing when no variant has it.
    pub proof fn lemma_decode_exact(v: u32)
        ensures
            match CecPlayMode::from_code(v) {
                Some(e) => e.code() == v,
                None => forall|e: CecPlayMode| #[trigger] e.code() != v,
            },
    {
    }
}

/// The codes of the native `cec_power_status` enumeration.
#[derive(Debug, Copy, Clone, PartialEq, Eq, Structural, Hash)]
pub enum CecPowerStatus {
    On,
    Standby,
    InTransitionStandbyToOn,
    InTransitionOnToStandby,
    Unknown,
}

impl CecPowerStatus {
    /// The native code of each variant.
    pub open spec fn code(self) -> u32 {
        match self {
            CecPowerStatus::On => 0,
            CecPowerStatus::Standby => 1,
            CecPowerStatus::InTransitionStandbyToOn => 2,
            CecPowerStatus::InTransitionOnToStandby => 3,
            CecPowerStatus::Unknown => 153,
        }
    }

    /// The variant whose native code is `v`, if there is one.
    pub open spec fn from_code(v: u32) -> Option<CecPowerStatus> {
        match v {
            0u32 => Some(CecPowerStatus::On),
            1u32 => Some(CecPowerStatus::Standby),
            2u32 => Some(CecPowerStatus::InTransitionStandbyToOn),
            3u32 => Some(CecPowerStatus::InTransitionOnToStandby),
            153u32 => Some(CecPowerStatus::Unknown),
            _ => None,
        }
    }

    /// The native code of this variant.
    pub fn repr(self) -> (r: u32)
        ensures
            r == self.code(),
    {
        match self {
            CecPowerStatus::On => 0,
            CecPowerStatus::Standby => 1,
            CecPowerStatus::InTransitionStandbyToOn => 2,
            CecPowerStatus::InTransitionOnToStandby => 3,
            CecPowerStatus::Unknown => 153,
        }
    }

    /// The variant with native code `v`; `None` for a code that no variant has.
    pub fn from_repr(v: u32) -> (r: Option<CecPowerStatus>)
        ensures
            r == CecPowerStatus::from_code(v),
    {
        match v {
            0u32 => Some(CecPowerStatus::On),
            1u32 => Some(CecPowerStatus::Standby),
            2u32 => Some(CecPowerStatus::InTransitionStandbyToOn),
            3u32 => Some(CecPowerStatus::InTransitionOnToStandby),
            153u32 => Some(CecPowerStatus::Unknown),
            _ => None,
        }
    }

    /// Decoding the code of a variant gives that variant back.
    pub proof fn lemma_round_trip(self)
        ensures
            CecPowerStatus::from_code(self.code()) == Some(self),
    {
    }

    /// A code decodes to the variant that has it, and to nothing when no variant has it.
    pub proof fn lemma_decode_exact(v: u32)
        ensures
            match CecPowerStatus::from_code(v) {
                Some(e) => e.code() == v,
                None => forall|e: CecPowerStatus| #[trigger] e.code() != v,
            },
    {
    }
}

/// The codes of the native `cec_record_source_type` enumeration.
#[derive(Debug, Copy, Clone, PartialEq, Eq, Structural, Hash)]
pub enum CecRecordSourceType {
    OwnSource,
    DigitalService,
    AnalogueService,
    ExternalPlus,
    ExternalPhysicalAddress,
}

impl CecRecordSourceType {
    /// The native code of each variant.
    pub open spec fn code(self) -> u32 {
        match self {
            CecRecordSourceType::OwnSource => 1,
            CecRecordSourceType::DigitalService => 2,
            CecRecordSourceType::AnalogueService => 3,
            CecRecordSourceType::ExternalPlus => 4,
            CecRecordSourceType::ExternalPhysicalAddress => 5,
        }
    }

    /// The variant whose native code is `v`, if there is one.
    pub open spec fn from_code(v: u32) -> Option<CecRecordSourceType> {
        match v {
            1u32 => Some(CecRecordSourceType::OwnSource),
            2u32 => Some(CecRecordSourceType::DigitalService),
            3u32 => Some(CecRecordSourceType::AnalogueService),
            4u32 => Some(CecRecordSourceType::ExternalPlus),
            5u32 => Some(CecRecordSourceType::ExternalPhysicalAddress),
            _ => None,
        }
    }

    /// The native code of this variant.
    pub fn repr(self) -> (r: u32)
        ensures
            r == self.code(),
    {
        match self {
            CecRecordSourceType::OwnSource => 1,
            CecRecordSourceType::DigitalService => 2,
            CecRecordSourceType::AnalogueService => 3,
            CecRecordSourceType::ExternalPlus => 4,
            CecRecordSourceType::ExternalPhysicalAddress => 5,
        }
    }

    /// The variant with native code `v`; `None` for a code that no variant has.
    pub fn from_repr(v: u32) -> (r: Option<CecRecordSourceType>)
        ensures
            r == CecRecordSourceType::from_code(v),
    {
        match v {
            1u32 => Some(CecRecordSourceType::OwnSource),
            2u32 => Some(CecRecordSourceType::DigitalService),
            3u32 => Some(CecRecordSourceType::AnalogueService),
            4u32 => Some(CecRecordSourceType::ExternalPlus),
            5u32 => Some(CecRecordSourceType::ExternalPhysicalAddress),
            _ => None,
        }
    }

    /// Decoding the code of a variant gives that variant back.
    pub proof fn lemma_round_trip(self)
        ensures
            CecRecordSourceType::from_code(self.code()) == Some(self),
    {
    }

    /// A code decodes to the variant that has it, and to nothing when no variant has it.
    pub proof fn lemma_decode_exact(v: u32)
        ensures
            match CecRecordSourceType::from_code(v) {
                Some(e) => e.code() == v,
                None => forall|e: CecRecordSourceType| #[trigger] e.code() != v,
            },
    {
    }
}

/// The codes of the native `cec_record_status_info` enumeration.
#[derive(Debug, Copy, Clone, PartialEq, Eq, Structural, Hash)]
pub enum CecRecordStatusInfo {
    RecordingCurrentlySelectedSource,
    RecordingDigitalService,
    RecordingAnalogueService,
    RecordingExternalInput,
    NoRecordingUnableToRecordDigitalService,
    NoRecordingUnableToRecordAnalogueService,
    NoRecordingUnableToSelectRequiredService,
    NoRecordingInvalidExternalPlugNumber,
    NoRecordingInvalidExternalAddress,
    NoRecordingCaSystemNotSupported,
    NoRecordingNoOrInsufficientEntitlements,
    NoRecordingNotAllowedToCopySource,
    NoRecordingNoFurtherCopiesAllowed,
    NoRecordingNoMedia,
    NoRecordingPlaying,
    NoRecordingAlreadyRecording,
    NoRecordingMediaProtected,
    NoRecordingNoSourceSignal,
    NoRecordingMediaProblem,
    NoRecordingNotEnoughSpaceAvailable,
    NoRecordingParentalLockOn,
    RecordingTerminatedNormally,
    RecordingHasAlreadyTerminated,
    NoRecordingOtherReason,
}

impl CecRecordStatusInfo {
    /// The native code of each variant.
    pub open spec fn code(self) -> u32 {
        match self {
            CecRecordStatusInfo::RecordingCurrentlySelectedSource => 1,
            CecRecordStatusInfo::RecordingDigitalService => 2,
            CecRecordStatusInfo::RecordingAnalogueService => 3,
            CecRecordStatusInfo::RecordingExternalInput => 4,
            CecRecordStatusInfo::NoRecordingUnableToRecordDigitalService => 5,
            CecRecordStatusInfo::NoRecordingUnableToRecordAnalogueService => 6,
            CecRecordStatusInfo::NoRecordingUnableToSelectRequiredService => 7,
            CecRecordStatusInfo::NoRecordingInvalidExternalPlugNumber => 9,
            CecRecordStatusInfo::NoRecordingInvalidExternalAddress => 10,
            CecRecordStatusInfo::NoRecordingCaSystemNotSupported => 11,
            CecRecordStatusInfo::NoRecordingNoOrInsufficientEntitlements => 12,
            CecRecordStatusInfo::NoRecordingNotAllowedToCopySource => 13,
            CecRecordStatusInfo::NoRecordingNoFurtherCopiesAllowed => 14,
            CecRecordStatusInfo::NoRecordingNoMedia => 16,
            CecRecordStatusInfo::NoRecordingPlaying => 17,
            CecRecordStatusInfo::NoRecordingAlreadyRecording => 18,
            CecRecordStatusInfo::NoRecordingMediaProtected => 19,
            CecRecordStatusInfo::NoRecordingNoSourceSignal => 20,
            CecRecordStatusInfo::NoRecordingMediaProblem => 21,
            CecRecordStatusInfo::NoRecordingNotEnoughSpaceAvailable => 22,
            CecRecordStatusInfo::NoRecordingParentalLockOn => 23,
            CecRecordStatusInfo::RecordingTerminatedNormally => 26,
            CecRecordStatusInfo::RecordingHasAlreadyTerminated => 27,
            CecRecordStatusInfo::NoRecordingOtherReason => 31,
        }
    }

    /// The variant whose native code is `v`, if there is one.
    pub open spec fn from_code(v: u32) -> Option<CecRecordStatusInfo> {
        match v {
            1u32 => Some(CecRecordStatusInfo::RecordingCurrentlySelectedSource),
            2u32 => Some(CecRecordStatusInfo::RecordingDigitalService),
            3u32 => Some(CecRecordStatusInfo::RecordingAnalogueService),
            4u32 => Some(CecRecordStatusInfo::RecordingExternalInput),
            5u32 => Some(CecRecordStatusInfo::NoRecordingUnableToRecordDigitalService),
            6u32 => Some(CecRecordStatusInfo::NoRecordingUnableToRecordAnalogueService),
            7u32 => Some(CecRecordStatusInfo::NoRecordingUnableToSelectRequiredService),
            9u32 => Some(CecRecordStatusInfo::NoRecordingInvalidExternalPlugNumber),
            10u32 => Some(CecRecordStatusInfo::NoRecordingInvalidExternalAddress),
            11u32 => Some(CecRecordStatusInfo::NoRecordingCaSystemNotSupported),
            12u32 => Some(CecRecordStatusInfo::NoRecordingNoOrInsufficientEntitlements),
            13u32 => Some(CecRecordStatusInfo::NoRecordingNotAllowedToCopySource),
            14u32 => Some(CecRecordStatusInfo::NoRecordingNoFurtherCopiesAllowed),
            16u32 => Some(CecRecordStatusInfo::NoRecordingNoMedia),
            17u32 => Some(CecRecordStatusInfo::NoRecordingPlaying),
            18u32 => Some(CecRecordStatusInfo::NoRecordingAlreadyRecording),
            19u32 => Some(CecRecordStatusInfo::NoRecordingMediaProtected),
            20u32 => Some(CecRecordStatusInfo::NoRecordingNoSourceSignal),
            21u32 => Some(CecRecordStatusInfo::NoRecordingMediaProblem),
            22u32 => Some(CecRecordStatusInfo::NoRecordingNotEnoughSpaceAvailable),
            23u32 => Some(CecRecordStatusInfo::NoRecordingParentalLockOn),
            26u32 => Some(CecRecordStatusInfo::RecordingTerminatedNormally),
            27u32 => Some(CecRecordStatusInfo::RecordingHasAlreadyTerminated),
            31u32 => Some(CecRecordStatusInfo::NoRecordingOtherReason),
            _ => None,
        }
    }

    /// The native code of this variant.
    pub fn repr(self) -> (r: u32)
        ensures
            r == self.code(),
    {
        match self {
            CecRecordStatusInfo::RecordingCurrentlySelectedSource => 1,
            CecRecordStatusInfo::RecordingDigitalService => 2,
            CecRecordStatusInfo::RecordingAnalogueService => 3,
            CecRecordStatusInfo::RecordingExternalInput => 4,
            CecRecordStatusInfo::NoRecordingUnableToRecordDigitalService => 5,
            CecRecordStatusInfo::NoRecordingUnableToRecordAnalogueService => 6,
            CecRecordStatusInfo::NoRecordingUnableToSelectRequiredService => 7,
            CecRecordStatusInfo::NoRecordingInvalidExternalPlugNumber => 9,
            CecRecordStatusInfo::NoRecordingInvalidExternalAddress => 10,
            CecRecordStatusInfo::NoRecordingCaSystemNotSupported => 11,
            CecRecordStatusInfo::NoRecordingNoOrInsufficientEntitlements => 12,
            CecRecordStatusInfo::NoRecordingNotAllowedToCopySource => 13,
            CecRecordStatusInfo::NoRecordingNoFurtherCopiesAllowed => 14,
            CecRecordStatusInfo::NoRecordingNoMedia => 16,
            CecRecordStatusInfo::NoRecordingPlaying => 17,
            CecRecordStatusInfo::NoRecordingAlreadyRecording => 18,
            CecRecordStatusInfo::NoRecordingMediaProtected => 19,
            CecRecordStatusInfo::NoRecordingNoSourceSignal => 20,
            CecRecordStatusInfo::NoRecordingMediaProblem => 21,
            CecRecordStatusInfo::NoRecordingNotEnoughSpaceAvailable => 22,
            CecRecordStatusInfo::NoRecordingParentalLockOn => 23,
            CecRecordStatusInfo::RecordingTerminatedNormally => 26,
            CecRecordStatusInfo::RecordingHasAlreadyTerminated => 27,
            CecRecordStatusInfo::NoRecordingOtherReason => 31,
        }
    }

    /// The variant with native code `v`; `None` for a code that no variant has.
    pub fn from_repr(v: u32) -> (r: Option<CecRecordStatusInfo>)
        ensures
            r == CecRecordStatusInfo::from_code(v),
    {
        match v {
            1u32 => Some(CecRecordStatusInfo::RecordingCurrentlySelectedSource),
            2u32 => Some(CecRecordStatusInfo::RecordingDigitalService),
            3u32 => Some(CecRecordStatusInfo::RecordingAnalogueService),
            4u32 => Some(CecRecordStatusInfo::RecordingExternalInput),
            5u32 => Some(CecRecordStatusInfo::NoRecordingUnableToRecordDigitalService),
            6u32 => Some(CecRecordStatusInfo::NoRecordingUnableToRecordAnalogueService),
            7u32 => Some(CecRecordStatusInfo::NoRecordingUnableToSelectRequiredService),
            9u32 => Some(CecRecordStatusInfo::NoRecordingInvalidExternalPlugNumber),
            10u32 => Some(CecRecordStatusInfo::NoRecordingInvalidExternalAddress),
            11u32 => Some(CecRecordStatusInfo::NoRecordingCaSystemNotSupported),
            12u32 => Some(CecRecordStatusInfo::NoRecordingNoOrInsufficientEntitlements),
            13u32 => Some(CecRecordStatusInfo::NoRecordingNotAllowedToCopySource),
            14u32 => Some(CecRecordStatusInfo::NoRecordingNoFurtherCopiesAllowed),
            16u32 => Some(CecRecordStatusInfo::NoRecordingNoMedia),
            17u32 => Some(CecRecordStatusInfo::NoRecordingPlaying),
            18u32 => Some(CecRecordStatusInfo::NoRecordingAlreadyRecording),
            19u32 => Some(CecRecordStatusInfo::NoRecordingMediaProtected),
            20u32 => Some(CecRecordStatusInfo::NoRecordingNoSourceSignal),
            21u32 => Some(CecRecordStatusInfo::NoRecordingMediaProblem),
            22u32 => Some(CecRecordStatusInfo::NoRecordingNotEnoughSpaceAvailable),
            23u32 => Some(CecRecordStatusInfo::NoRecordingParentalLockOn),
            26u32 => Some(CecRecordStatusInfo::RecordingTerminatedNormally),
            27u32 => Some(CecRecordStatusInfo::RecordingHasAlreadyTerminated),
            31u32 => Some(CecRecordStatusInfo::NoRecordingOtherReason),
            _ => None,
        }
    }

    /// Decoding the code of a variant gives that variant back.
    pub proof fn lemma_round_trip(self)
        ensures
            CecRecordStatusInfo::from_code(self.code()) == Some(self),
    {
    }

    /// A code decodes to the variant that has it, and to nothing when no variant has it.
    pub proof fn lemma_decode_exact(v: u32)
        ensures
            match CecRecordStatusInfo::from_code(v) {
                Some(e) => e.code() == v,
                None => forall|e: CecRecordStatusInfo| #[trigger] e.code() != v,
            },
    {
    }
}

/// The codes of the native `cec_recording_sequence` enumeration.
#[derive(Debug, Copy, Clone, PartialEq, Eq, Structural, Hash)]
pub enum CecRecordingSequence {
    Sunday,
    Monday,
    Tuesday,
    Wednesday,
    Thursday,
    Friday,
    Saturday,
    OnceOnly,
}

impl CecRecordingSequence {
    /// The native code of each variant.
    pub open spec fn code(self) -> u32 {
        match self {
            CecRecordingSequence::Sunday => 1,
            CecRecordingSequence::Monday => 2,
            CecRecordingSequence::Tuesday => 4,
            CecRecordingSequence::Wednesday => 8,
            CecRecordingSequence::Thursday => 16,
            CecRecordingSequence::Friday => 32,
            CecRecordingSequence::Saturday => 64,
            CecRecordingSequence::OnceOnly => 0,
        }
    }

    /// The variant whose native code is `v`, if there is one.
    pub open spec fn from_code(v: u32) -> Option<CecRecordingSequence> {
        match v {
            1u32 => Some(CecRecordingSequence::Sunday),
            2u32 => Some(CecRecordingSequence::Monday),
            4u32 => Some(CecRecordingSequence::Tuesday),
            8u32 => Some(CecRecordingSequence::Wednesday),
            16u32 => Some(CecRecordingSequence::Thursday),
            32u32 => Some(CecRecordingSequence::Friday),
            64u32 => Some(CecRecordingSequence::Saturday),
            0u32 => Some(CecRecordingSequence::OnceOnly),
            _ => None,
        }
    }

    /// The native code of this variant.
    pub fn repr(self) -> (r: u32)
        ensures
            r == self.code(),
    {
        match self {
            CecRecordingSequence::Sunday => 1,
            CecRecordingSequence::Monday => 2,
            CecRecordingSequence::Tuesday => 4,
            CecRecordingSequence::Wednesday => 8,
            CecRecordingSequence::Thursday => 16,
            CecRecordingSequence::Friday => 32,
            CecRecordingSequence::Saturday => 64,
            CecRecordingSequence::OnceOnly => 0,
        }
    }

    /// The variant with native code `v`; `None` for a code that no variant has.
    pub fn from_repr(v: u32) -> (r: Option<CecRecordingSequence>)
        ensures
            r == CecRecordingSequence::from_code(v),
    {
        match v {
            1u32 => Some(CecRecordingSequence::Sunday),
            2u32 => Some(CecRecordingSequence::Monday),
            4u32 => Some(CecRecordingSequence::Tuesday),
            8u32 => Some(CecRecordingSequence::Wednesday),
            16u32 => Some(CecRecordingSequence::Thursday),
            32u32 => Some(CecRecordingSequence::Friday),
            64u32 => Some(CecRecordingSequence::Saturday),
            0u32 => Some(CecRecordingSequence::OnceOnly),
            _ => None,
        }
    }

    /// Decoding the code of a variant gives that variant back.
    pub proof fn lemma_round_trip(self)
        ensures
            CecRecordingSequence::from_code(self.code()) == Some(self),
    {
    }

    /// A code decodes to the variant that has it, and to nothing when no variant has it.
    pub proof fn lemma_decode_exact(v: u32)
        ensures
            match CecRecordingSequence::from_code(v) {
                Some(e) => e.code() == v,
                None => forall|e: CecRecordingSequence| #[trigger] e.code() != v,
            },
    {
    }
}

/// The codes of the native `cec_status_request` enumeration.
#[derive(Debug, Copy, Clone, PartialEq, Eq, Structural, Hash)]
pub enum CecStatusRequest {
    On,
    Off,
    Once,
}

impl CecStatusRequest {
    /// The native code of each variant.
    pub open spec fn code(self) -> u32 {
        match self {
            CecStatusRequest::On => 1,
            CecStatusRequest::Off => 2,
            CecStatusRequest::Once => 3,
        }
    }

    /// The variant whose native code is `v`, if there is one.
    pub open spec fn from_code(v: u32) -> Option<CecStatusRequest> {
        match v {
            1u32 => Some(CecStatusRequest::On),
            2u32 => Some(CecStatusRequest::Off),
            3u32 => Some(CecStatusRequest::Once),
            _ => None,
        }
    }

    /// The native code of this variant.
    pub fn repr(self) -> (r: u32)
        ensures
            r == self.code(),
    {
        match self {
            CecStatusRequest::On => 1,
            CecStatusRequest::Off => 2,
            CecStatusRequest::Once => 3,
        }
    }

    /// The variant with native code `v`; `None` for a code that no variant has.
    pub fn from_repr(v: u32) -> (r: Option<CecStatusRequest>)
        ensures
            r == CecStatusRequest::from_code(v),
    {
        match v {
            1u32 => Some(CecStatusRequest::On),
            2u32 => Some(CecStatusRequest::Off),
            3u32 => Some(CecStatusRequest::Once),
            _ => None,
        }
    }

    /// Decoding the code of a variant gives that variant back.
    pub proof fn lemma_round_trip(self)
        ensures
            CecStatusRequest::from_code(self.code()) == Some(self),
    {
    }

    /// A code decodes to the variant that has it, and to nothing when no variant has it.
    pub proof fn lemma_decode_exact(v: u32)
        ensures
            match CecStatusRequest::from_code(v) {
                Some(e) => e.code() == v,
                None => forall|e: CecStatusRequest| #[trigger] e.code() != v,
            },
    {
    }
}

/// The codes of the native `cec_system_audio_status` enumeration.
#[derive(Debug, Copy, Clone, PartialEq, Eq, Structural, Hash)]
pub enum CecSystemAudioStatus {
    Off,
    On,
}

impl CecSystemAudioStatus {
    /// The native code of each variant.
    pub open spec fn code(self) -> u32 {
        match self {
            CecSystemAudioStatus::Off => 0,
            CecSystemAudioStatus::On => 1,
        }
    }

    /// The variant whose native code is `v`, if there is one.
    pub open spec fn from_code(v: u32) -> Option<CecSystemAudioStatus> {
        match v {
            0u32 => Some(CecSystemAudioStatus::Off),
            1u32 => Some(CecSystemAudioStatus::On),
            _ => None,
        }
    }

    /// The native code of this variant.
    pub fn repr(self) -> (r: u32)
        ensures
            r == self.code(),
    {
        match self {
            CecSystemAudioStatus::Off => 0,
            CecSystemAudioStatus::On => 1,
        }
    }

    /// The variant with native code `v`; `None` for a code that no variant has.
    pub fn from_repr(v: u32) -> (r: Option<CecSystemAudioStatus>)
        ensures
            r == CecSystemAudioStatus::from_code(v),
    {
        match v {
            0u32 => Some(CecSystemAudioStatus::Off),
            1u32 => Some(CecSystemAudioStatus::On),
            _ => None,
        }
    }

    /// Decoding the code of a variant gives that variant back.
    pub proof fn lemma_round_trip(self)
        ensures
            CecSystemAudioStatus::from_code(self.code()) == Some(self),
    {
    }

    /// A code decodes to the variant that has it, and to nothing when no variant has it.
    pub proof fn lemma_decode_exact(v: u32)
        ensures
            match CecSystemAudioStatus::from_code(v) {
                Some(e) => e.code() == v,
                None => forall|e: CecSystemAudioStatus| #[trigger] e.code() != v,
            },
    {
    }
}

/// The codes of the native `cec_timer_cleared_status_data` enumeration.
#[derive(Debug, Copy, Clone, PartialEq, Eq, Structural, Hash)]
pub enum CecTimerClearedStatusData {
    NotClearedRecording,
    NotClearedNoMatching,
    NotClearedNoInf0Available,
    Cleared,
}

impl CecTimerClearedStatusData {
    /// The native code of each variant.
    pub open spec fn code(self) -> u32 {
        match self {
            CecTimerClearedStatusData::NotClearedRecording => 0,
            CecTimerClearedStatusData::NotClearedNoMatching => 1,
            CecTimerClearedStatusData::NotClearedNoInf0Available => 2,
            CecTimerClearedStatusData::Cleared => 128,
        }
    }

    /// The variant whose native code is `v`, if there is one.
    pub open spec fn from_code(v: u32) -> Option<CecTimerClearedStatusData> {
        match v {
            0u32 => Some(CecTimerClearedStatusData::NotClearedRecording),
            1u32 => Some(CecTimerClearedStatusData::NotClearedNoMatching),
            2u32 => Some(CecTimerClearedStatusData::NotClearedNoInf0Available),
            128u32 => Some(CecTimerClearedStatusData::Cleared),
            _ => None,
        }
    }

    /// The native code of this variant.
    pub fn repr(self) -> (r: u32)
        ensures
            r == self.code(),
    {
        match self {
            CecTimerClearedStatusData::NotClearedRecording => 0,
            CecTimerClearedStatusData::NotClearedNoMatching => 1,
            CecTimerClearedStatusData::NotClearedNoInf0Available => 2,
            CecTimerClearedStatusData::Cleared => 128,
        }
    }

    /// The variant with native code `v`; `None` for a code that no variant has.
    pub fn from_repr(v: u32) -> (r: Option<CecTimerClearedStatusData>)
        ensures
            r == CecTimerClearedStatusData::from_code(v),
    {
        match v {
            0u32 => Some(CecTimerClearedStatusData::NotClearedRecording),
            1u32 => Some(CecTimerClearedStatusData::NotClearedNoMatching),
            2u32 => Some(CecTimerClearedStatusData::NotClearedNoInf0Available),
            128u32 => Some(CecTimerClearedStatusData::Cleared),
            _ => None,
        }
    }

    /// Decoding the code of a variant gives that variant back.
    pub proof fn lemma_round_trip(self)
        ensures
            CecTimerClearedStatusData::from_code(self.code()) == Some(self),
    {
    }

    /// A code decodes to the variant that has it, and to nothing when no variant has it.
    pub proof fn lemma_decode_exact(v: u32)
        ensures
            match CecTimerClearedStatusData::from_code(v) {
                Some(e) => e.code() == v,
                None => forall|e: CecTimerClearedStatusData| #[trigger] e.code() != v,
            },
    {
    }
}

/// The codes of the native `cec_timer_overlap_warning` enumeration.
#[derive(Debug, Copy, Clone, PartialEq, Eq, Structural, Hash)]
pub enum CecTimerOverlapWarning {
    NoOverlap,
    TimerBlocksOverlap,
}

impl CecTimerOverlapWarning {
    /// The native code of each variant.
    pub open spec fn code(self) -> u32 {
        match self {
            CecTimerOverlapWarning::NoOverlap => 0,
            CecTimerOverlapWarning::TimerBlocksOverlap => 1,
        }
    }

    /// The variant whose native code is `v`, if there is one.
    pub open spec fn from_code(v: u32) -> Option<CecTimerOverlapWarning> {
        match v {
            0u32 => Some(CecTimerOverlapWarning::NoOverlap),
            1u32 => Some(CecTimerOverlapWarning::TimerBlocksOverlap),
            _ => None,
        }
    }

    /// The native code of this variant.
    pub fn repr(self) -> (r: u32)
        ensures
            r == self.code(),
    {
        match self {
            CecTimerOverlapWarning::NoOverlap => 0,
            CecTimerOverlapWarning::TimerBlocksOverlap => 1,
        }
    }

    /// The variant with native code `v`; `None` for a code that no variant has.
    pub fn from_repr(v: u32) -> (r: Option<CecTimerOverlapWarning>)
        ensures
            r == CecTimerOverlapWarning::from_code(v),
    {
        match v {
            0u32 => Some(CecTimerOverlapWarning::NoOverlap),
            1u32 => Some(CecTimerOverlapWarning::TimerBlocksOverlap),
            _ => None,
        }
    }

    /// Decoding the code of a variant gives that variant back.
    pub proof fn lemma_round_trip(self)
        ensures
            CecTimerOverlapWarning::from_code(self.code()) == Some(self),
    {
    }

    /// A code decodes to the variant that has it, and to nothing when no variant has it.
    pub proof fn lemma_decode_exact(v: u32)
        ensures
            match CecTimerOverlapWarning::from_code(v) {
                Some(e) => e.code() == v,
                None => forall|e: CecTimerOverlapWarning| #[trigger] e.code() != v,
            },
    {
    }
}

/// The codes of the native `cec_media_info` enumeration.
#[derive(Debug, Copy, Clone, PartialEq, Eq, Structural, Hash)]
pub enum CecMediaInfo {
    MediaPresentAndNotProtected,
    MediaPresentButProtected,
    MediaNotPresent,
    FutureUse,
}

impl CecMediaInfo {
    /// The native code of each variant.
    pub open spec fn code(self) -> u32 {
        match self {
            CecMediaInfo::MediaPresentAndNotProtected => 0,
            CecMediaInfo::MediaPresentButProtected => 1,
            CecMediaInfo::MediaNotPresent => 2,
            CecMediaInfo::FutureUse => 3,
        }
    }

    /// The variant whose native code is `v`, if there is one.
    pub open spec fn from_code(v: u32) -> Option<CecMediaInfo> {
        match v {
            0u32 => Some(CecMediaInfo::MediaPresentAndNotProtected),
            1u32 => Some(CecMediaInfo::MediaPresentButProtected),
            2u32 => Some(CecMediaInfo::MediaNotPresent),
            3u32 => Some(CecMediaInfo::FutureUse),
            _ => None,
        }
    }

    /// The native code of this variant.
    pub fn repr(self) -> (r: u32)
        ensures
            r == self.code(),
    {
        match self {
            CecMediaInfo::MediaPresentAndNotProtected => 0,
            CecMediaInfo::MediaPresentButProtected => 1,
            CecMediaInfo::MediaNotPresent => 2,
            CecMediaInfo::FutureUse => 3,
        }
    }

    /// The variant with native code `v`; `None` for a code that no variant has.
    pub fn from_repr(v: u32) -> (r: Option<CecMediaInfo>)
        ensures
            r == CecMediaInfo::from_code(v),
    {
        match v {
            0u32 => Some(CecMediaInfo::MediaPresentAndNotProtected),
            1u32 => Some(CecMediaInfo::MediaPresentButProtected),
            2u32 => Some(CecMediaInfo::MediaNotPresent),
            3u32 => Some(CecMediaInfo::FutureUse),
            _ => None,
        }
    }

    /// Decoding the code of a variant gives that variant back.
    pub proof fn lemma_round_trip(self)
        ensures
            CecMediaInfo::from_code(self.code()) == Some(self),
    {
    }

    /// A code decodes to the variant that has it, and to nothing when no variant has it.
    pub proof fn lemma_decode_exact(v: u32)
        ensures
            match CecMediaInfo::from_code(v) {
                Some(e) => e.code() == v,
                None => forall|e: CecMediaInfo| #[trigger] e.code() != v,
            },
    {
    }
}

/// The codes of the native `cec_programmed_indicator` enumeration.
#[derive(Debug, Copy, Clone, PartialEq, Eq, Structural, Hash)]
pub enum CecProgrammedIndicator {
    NotProgrammed,
    Programmed,
}

impl CecProgrammedIndicator {
    /// The native code of each variant.
    pub open spec fn code(self) -> u32 {
        match self {
            CecProgrammedIndicator::NotProgrammed => 0,
            CecProgrammedIndicator::Programmed => 1,
        }
    }

    /// The variant whose native code is `v`, if there is one.
    pub open spec fn from_code(v: u32) -> Option<CecProgrammedIndicator> {
        match v {
            0u32 => Some(CecProgrammedIndicator::NotProgrammed),
            1u32 => Some(CecProgrammedIndicator::Programmed),
            _ => None,
        }
    }

    /// The native code of this variant.
    pub fn repr(self) -> (r: u32)
        ensures
            r == self.code(),
    {
        match self {
            CecProgrammedIndicator::NotProgrammed => 0,
            CecProgrammedIndicator::Programmed => 1,
        }
    }

    /// The variant with native code `v`; `None` for a code that no variant has.
    pub fn from_repr(v: u32) -> (r: Option<CecProgrammedIndicator>)
        ensures
            r == CecProgrammedIndicator::from_code(v),
    {
        match v {
            0u32 => Some(CecProgrammedIndicator::NotProgrammed),
            1u32 => Some(CecProgrammedIndicator::Programmed),
            _ => None,
        }
    }

    /// Decoding the code of a variant gives that variant back.
    pub proof fn lemma_round_trip(self)
        ensures
            CecProgrammedIndicator::from_code(self.code()) == Some(self),
    {
    }

    /// A code decodes to the variant that has it, and to nothing when no variant has it.
    pub proof fn lemma_decode_exact(v: u32)
        ensures
            match CecProgrammedIndicator::from_code(v) {
                Some(e) => e.code() == v,
                None => forall|e: CecProgrammedIndicator| #[trigger] e.code() != v,
            },
    {
    }
}

/// The codes of the native `cec_programmed_info` enumeration.
#[derive(Debug, Copy, Clone, PartialEq, Eq, Structural, Hash)]
pub enum CecProgrammedInfo {
    FutureUse,
    EnoughSpaceAvailableForRecording,
    NotEnoughSpaceAvailableForRecording,
    MayNotBeEnoughSpaceAvailable,
    NoMediaInfoAvailable,
}

impl CecProgrammedInfo {
    /// The native code of each variant.
    pub open spec fn code(self) -> u32 {
        match self {
            CecProgrammedInfo::FutureUse => 0,
            CecProgrammedInfo::EnoughSpaceAvailableForRecording => 8,
            CecProgrammedInfo::NotEnoughSpaceAvailableForRecording => 9,
            CecProgrammedInfo::MayNotBeEnoughSpaceAvailable => 11,
            CecProgrammedInfo::NoMediaInfoAvailable => 10,
        }
    }

    /// The variant whose native code is `v`, if there is one.
    pub open spec fn from_code(v: u32) -> Option<CecProgrammedInfo> {
        match v {
            0u32 => Some(CecProgrammedInfo::FutureUse),
            8u32 => Some(CecProgrammedInfo::EnoughSpaceAvailableForRecording),
            9u32 => Some(CecProgrammedInfo::NotEnoughSpaceAvailableForRecording),
            11u32 => Some(CecProgrammedInfo::MayNotBeEnoughSpaceAvailable),
            10u32 => Some(CecProgrammedInfo::NoMediaInfoAvailable),
            _ => None,
        }
    }

    /// The native code of this variant.
    pub fn repr(self) -> (r: u32)
        ensures
            r == self.code(),
    {
        match self {
            CecProgrammedInfo::FutureUse => 0,
            CecProgrammedInfo::EnoughSpaceAvailableForRecording => 8,
            CecProgrammedInfo::NotEnoughSpaceAvailableForRecording => 9,
            CecProgrammedInfo::MayNotBeEnoughSpaceAvailable => 11,
            CecProgrammedInfo::NoMediaInfoAvailable => 10,
        }
    }

    /// The variant with native code `v`; `None` for a code that no variant has.
    pub fn from_repr(v: u32) -> (r: Option<CecProgrammedInfo>)
        ensures
            r == CecProgrammedInfo::from_code(v),
    {
        match v {
            0u32 => Some(CecProgrammedInfo::FutureUse),
            8u32 => Some(CecProgrammedInfo::EnoughSpaceAvailableForRecording),
            9u32 => Some(CecProgrammedInfo::NotEnoughSpaceAvailableForRecording),
            11u32 => Some(CecProgrammedInfo::MayNotBeEnoughSpaceAvailable),
            10u32 => Some(CecProgrammedInfo::NoMediaInfoAvailable),
            _ => None,
        }
    }

    /// Decoding the code of a variant gives that variant back.
    pub proof fn lemma_round_trip(self)
        ensures
            CecProgrammedInfo::from_code(self.code()) == Some(self),
    {
    }

    /// A code decodes to the variant that has it, and to nothing when no variant has it.
    pub proof fn lemma_decode_exact(v: u32)
        ensures
            match CecProgrammedInfo::from_code(v) {
                Some(e) => e.code() == v,
                None => forall|e: CecProgrammedInfo| #[trigger] e.code() != v,
            },
    {
    }
}

/// The codes of the native `cec_not_programmed_error_info` enumeration.
#[derive(Debug, Copy, Clone, PartialEq, Eq, Structural, Hash)]
pub enum CecNotProgrammedErrorInfo {
    FutureUse,
    NoFreeTimerAvailable,
    DateOutOfRange,
    RecordingSequenceError,
    InvalidExternalPlugNumber,
    InvalidExternalPhysicalAddress,
    CaSystemNotSupported,
    NoOrInsufficientCaEntitlements,
    DoesNotSupportResolution,
    ParentalLockOn,
    ClockFailure,
    ReservedForFutureUseStart,
    ReservedForFutureUseEnd,
    DuplicateAlreadyProgrammed,
}

impl CecNotProgrammedErrorInfo {
    /// The native code of each variant.
    pub open spec fn code(self) -> u32 {
        match self {
            CecNotProgrammedErrorInfo::FutureUse => 0,
            CecNotProgrammedErrorInfo::NoFreeTimerAvailable => 1,
            CecNotProgrammedErrorInfo::DateOutOfRange => 2,
            CecNotProgrammedErrorInfo::RecordingSequenceError => 3,
            CecNotProgrammedErrorInfo::InvalidExternalPlugNumber => 4,
            CecNotProgrammedErrorInfo::InvalidExternalPhysicalAddress => 5,
            CecNotProgrammedErrorInfo::CaSystemNotSupported => 6,
            CecNotProgrammedErrorInfo::NoOrInsufficientCaEntitlements => 7,
            CecNotProgrammedErrorInfo::DoesNotSupportResolution => 8,
            CecNotProgrammedErrorInfo::ParentalLockOn => 9,
            CecNotProgrammedErrorInfo::ClockFailure => 10,
            CecNotProgrammedErrorInfo::ReservedForFutureUseStart => 11,
            CecNotProgrammedErrorInfo::ReservedForFutureUseEnd => 13,
            CecNotProgrammedErrorInfo::DuplicateAlreadyProgrammed => 14,
        }
    }

    /// The variant whose native code is `v`, if there is one.
    pub open spec fn from_code(v: u32) -> Option<CecNotProgrammedErrorInfo> {
        match v {
            0u32 => Some(CecNotProgrammedErrorInfo::FutureUse),
            1u32 => Some(CecNotProgrammedErrorInfo::NoFreeTimerAvailable),
            2u32 => Some(CecNotProgrammedErrorInfo::DateOutOfRange),
            3u32 => Some(CecNotProgrammedErrorInfo::RecordingSequenceError),
            4u32 => Some(CecNotProgrammedErrorInfo::InvalidExternalPlugNumber),
            5u32 => Some(CecNotProgrammedErrorInfo::InvalidExternalPhysicalAddress),
            6u32 => Some(CecNotProgrammedErrorInfo::CaSystemNotSupported),
            7u32 => Some(CecNotProgrammedErrorInfo::NoOrInsufficientCaEntitlements),
            8u32 => Some(CecNotProgrammedErrorInfo::DoesNotSupportResolution),
            9u32 => Some(CecNotProgrammedErrorInfo::ParentalLockOn),
            10u32 => Some(CecNotProgrammedErrorInfo::ClockFailure),
            11u32 => Some(CecNotProgrammedErrorInfo::ReservedForFutureUseStart),
            13u32 => Some(CecNotProgrammedErrorInfo::ReservedForFutureUseEnd),
            14u32 => Some(CecNotProgrammedErrorInfo::DuplicateAlreadyProgrammed),
            _ => None,
        }
    }

    /// The native code of this variant.
    pub fn repr(self) -> (r: u32)
        ensures
            r == self.code(),
    {
        match self {
            CecNotProgrammedErrorInfo::FutureUse => 0,
            CecNotProgrammedErrorInfo::NoFreeTimerAvailable => 1,
            CecNotProgrammedErrorInfo::DateOutOfRange => 2,
            CecNotProgrammedErrorInfo::RecordingSequenceError => 3,
            CecNotProgrammedErrorInfo::InvalidExternalPlugNumber => 4,
            CecNotProgrammedErrorInfo::InvalidExternalPhysicalAddress => 5,
            CecNotProgrammedErrorInfo::CaSystemNotSupported => 6,
            CecNotProgrammedErrorInfo::NoOrInsufficientCaEntitlements => 7,
            CecNotProgrammedErrorInfo::DoesNotSupportResolution => 8,
            CecNotProgrammedErrorInfo::ParentalLockOn => 9,
            CecNotProgrammedErrorInfo::ClockFailure => 10,
            CecNotProgrammedErrorInfo::ReservedForFutureUseStart => 11,
            CecNotProgrammedErrorInfo::ReservedForFutureUseEnd => 13,
            CecNotProgrammedErrorInfo::DuplicateAlreadyProgrammed => 14,
        }
    }

    /// The variant with native code `v`; `None` for a code that no variant has.
    pub fn from_repr(v: u32) -> (r: Option<CecNotProgrammedErrorInfo>)
        ensures
            r == CecNotProgrammedErrorInfo::from_code(v),
    {
        match v {
            0u32 => Some(CecNotProgrammedErrorInfo::FutureUse),
            1u32 => Some(CecNotProgrammedErrorInfo::NoFreeTimerAvailable),
            2u32 => Some(CecNotProgrammedErrorInfo::DateOutOfRange),
            3u32 => Some(CecNotProgrammedErrorInfo::RecordingSequenceError),
            4u32 => Some(CecNotProgrammedErrorInfo::InvalidExternalPlugNumber),
            5u32 => Some(CecNotProgrammedErrorInfo::InvalidExternalPhysicalAddress),
            6u32 => Some(CecNotProgrammedErrorInfo::CaSystemNotSupported),
            7u32 => Some(CecNotProgrammedErrorInfo::NoOrInsufficientCaEntitlements),
            8u32 => Some(CecNotProgrammedErrorInfo::DoesNotSupportResolution),
            9u32 => Some(CecNotProgrammedErrorInfo::ParentalLockOn),
            10u32 => Some(CecNotProgrammedErrorInfo::ClockFailure),
            11u32 => Some(CecNotProgrammedErrorInfo::ReservedForFutureUseStart),
            13u32 => Some(CecNotProgrammedErrorInfo::ReservedForFutureUseEnd),
            14u32 => Some(CecNotProgrammedErrorInfo::DuplicateAlreadyProgrammed),
            _ => None,
        }
    }

    /// Decoding the code of a variant gives that variant back.
    pub proof fn lemma_round_trip(self)
        ensures
            CecNotProgrammedErrorInfo::from_code(self.code()) == Some(self),
    {
    }

    /// A code decodes to the variant that has it, and to nothing when no variant has it.
    pub proof fn lemma_decode_exact(v: u32)
        ensures
            match CecNotProgrammedErrorInfo::from_code(v) {
                Some(e) => e.code() == v,
                None => forall|e: CecNotProgrammedErrorInfo| #[trigger] e.code() != v,
            },
    {
    }
}

/// The codes of the native `cec_recording_flag` enumeration.
#[derive(Debug, Copy, Clone, PartialEq, Eq, Structural, Hash)]
pub enum CecRecordingFlag {
    NotBeingUsedForRecording,
    BeingUsedForRecording,
}

impl CecRecordingFlag {
    /// The native code of each variant.
    pub open spec fn code(self) -> u32 {
        match self {
            CecRecordingFlag::NotBeingUsedForRecording => 0,
            CecRecordingFlag::BeingUsedForRecording => 1,
        }
    }

    /// The variant whose native code is `v`, if there is one.
    pub open spec fn from_code(v: u32) -> Option<CecRecordingFlag> {
        match v {
            0u32 => Some(CecRecordingFlag::NotBeingUsedForRecording),
            1u32 => Some(CecRecordingFlag::BeingUsedForRecording),
            _ => None,
        }
    }

    /// The native code of this variant.
    pub fn repr(self) -> (r: u32)
        ensures
            r == self.code(),
    {
        match self {
            CecRecordingFlag::NotBeingUsedForRecording => 0,
            CecRecordingFlag::BeingUsedForRecording => 1,
        }
    }

    /// The variant with native code `v`; `None` for a code that no variant has.
    pub fn from_repr(v: u32) -> (r: Option<CecRecordingFlag>)
        ensures
            r == CecRecordingFlag::from_code(v),
    {
        match v {
            0u32 => Some(CecRecordingFlag::NotBeingUsedForRecording),
            1u32 => Some(CecRecordingFlag::BeingUsedForRecording),
            _ => None,
        }
    }

    /// Decoding the code of a variant gives that variant back.
    pub proof fn lemma_round_trip(self)
        ensures
            CecRecordingFlag::from_code(self.code()) == Some(self),
    {
    }

    /// A code decodes to the variant that has it, and to nothing when no variant has it.
    pub proof fn lemma_decode_exact(v: u32)
        ensures
            match CecRecordingFlag::from_code(v) {
                Some(e) => e.code() == v,
                None => forall|e: CecRecordingFlag| #[trigger] e.code() != v,
            },
    {
    }
}

/// The codes of the native `cec_tuner_display_info` enumeration.
#[derive(Debug, Copy, Clone, PartialEq, Eq, Structural, Hash)]
pub enum CecTunerDisplayInfo {
    DisplayingDigitalTuner,
    NotDisplayingTuner,
    DisplayingAnalogueTuner,
}

impl CecTunerDisplayInfo {
    /// The native code of each variant.
    pub open spec fn code(self) -> u32 {
        match self {
            CecTunerDisplayInfo::DisplayingDigitalTuner => 0,
            CecTunerDisplayInfo::NotDisplayingTuner => 1,
            CecTunerDisplayInfo::DisplayingAnalogueTuner => 2,
        }
    }

    /// The variant whose native code is `v`, if there is one.
    pub open spec fn from_code(v: u32) -> Option<CecTunerDisplayInfo> {
        match v {
            0u32 => Some(CecTunerDisplayInfo::DisplayingDigitalTuner),
            1u32 => Some(CecTunerDisplayInfo::NotDisplayingTuner),
            2u32 => Some(CecTunerDisplayInfo::DisplayingAnalogueTuner),
            _ => None,
        }
    }

    /// The native code of this variant.
    pub fn repr(self) -> (r: u32)
        ensures
            r == self.code(),
    {
        match self {
            CecTunerDisplayInfo::DisplayingDigitalTuner => 0,
            CecTunerDisplayInfo::NotDisplayingTuner => 1,
            CecTunerDisplayInfo::DisplayingAnalogueTuner => 2,
        }
    }

    /// The variant with native code `v`; `None` for a code that no variant has.
    pub fn from_repr(v: u32) -> (r: Option<CecTunerDisplayInfo>)
        ensures
            r == CecTunerDisplayInfo::from_code(v),
    {
        match v {
            0u32 => Some(CecTunerDisplayInfo::DisplayingDigitalTuner),
            1u32 => Some(CecTunerDisplayInfo::NotDisplayingTuner),
            2u32 => Some(CecTunerDisplayInfo::DisplayingAnalogueTuner),
            _ => None,
        }
    }

    /// Decoding the code of a variant gives that variant back.
    pub proof fn lemma_round_trip(self)
        ensures
            CecTunerDisplayInfo::from_code(self.code()) == Some(self),
    {
    }

    /// A code decodes to the variant that has it, and to nothing when no variant has it.
    pub proof fn lemma_decode_exact(v: u32)
        ensures
            match CecTunerDisplayInfo::from_code(v) {
                Some(e) => e.code() == v,
                None => forall|e: CecTunerDisplayInfo| #[trigger] e.code() != v,
            },
    {
    }
}

/// The codes of the native `cec_broadcast_system` enumeration.
#[derive(Debug, Copy, Clone, PartialEq, Eq, Structural, Hash)]
pub enum CecBroadcastSystem {
    PalBG,
    SecamL1,
    PalM,
    NtscM,
    PalI,
    SecamDk,
    SecamBG,
    SecamL2,
    PalDk,
    OtherSystem,
}

impl CecBroadcastSystem {
    /// The native code of each variant.
    pub open spec fn code(self) -> u32 {
        match self {
            CecBroadcastSystem::PalBG => 0,
            CecBroadcastSystem::SecamL1 => 1,
            CecBroadcastSystem::PalM => 2,
            CecBroadcastSystem::NtscM => 3,
            CecBroadcastSystem::PalI => 4,
            CecBroadcastSystem::SecamDk => 5,
            CecBroadcastSystem::SecamBG => 6,
            CecBroadcastSystem::SecamL2 => 7,
            CecBroadcastSystem::PalDk => 8,
            CecBroadcastSystem::OtherSystem => 30,
        }
    }

    /// The variant whose native code is `v`, if there is one.
    pub open spec fn from_code(v: u32) -> Option<CecBroadcastSystem> {
        match v {
            0u32 => Some(CecBroadcastSystem::PalBG),
            1u32 => Some(CecBroadcastSystem::SecamL1),
            2u32 => Some(CecBroadcastSystem::PalM),
            3u32 => Some(CecBroadcastSystem::NtscM),
            4u32 => Some(CecBroadcastSystem::PalI),
            5u32 => Some(CecBroadcastSystem::SecamDk),
            6u32 => Some(CecBroadcastSystem::SecamBG),
            7u32 => Some(CecBroadcastSystem::SecamL2),
            8u32 => Some(CecBroadcastSystem::PalDk),
            30u32 => Some(CecBroadcastSystem::OtherSystem),
            _ => None,
        }
    }

    /// The native code of this variant.
    pub fn repr(self) -> (r: u32)
        ensures
            r == self.code(),
    {
        match self {
            CecBroadcastSystem::PalBG => 0,
            CecBroadcastSystem::SecamL1 => 1,
            CecBroadcastSystem::PalM => 2,
            CecBroadcastSystem::NtscM => 3,
            CecBroadcastSystem::PalI => 4,
            CecBroadcastSystem::SecamDk => 5,
            CecBroadcastSystem::SecamBG => 6,
            CecBroadcastSystem::SecamL2 => 7,
            CecBroadcastSystem::PalDk => 8,
            CecBroadcastSystem::OtherSystem => 30,
        }
    }

    /// The variant with native code `v`; `None` for a code that no variant has.
    pub fn from_repr(v: u32) -> (r: Option<CecBroadcastSystem>)
        ensures
            r == CecBroadcastSystem::from_code(v),
    {
        match v {
            0u32 => Some(CecBroadcastSystem::PalBG),
            1u32 => Some(CecBroadcastSystem::SecamL1),
            2u32 => Some(CecBroadcastSystem::PalM),
            3u32 => Some(CecBroadcastSystem::NtscM),
            4u32 => Some(CecBroadcastSystem::PalI),
            5u32 => Some(CecBroadcastSystem::SecamDk),
            6u32 => Some(CecBroadcastSystem::SecamBG),
            7u32 => Some(CecBroadcastSystem::SecamL2),
            8u32 => Some(CecBroadcastSystem::PalDk),
            30u32 => Some(CecBroadcastSystem::OtherSystem),
            _ => None,
        }
    }

    /// Decoding the code of a variant gives that variant back.
    pub proof fn lemma_round_trip(self)
        ensures
            CecBroadcastSystem::from_code(self.code()) == Some(self),
    {
    }

    /// A code decodes to the variant that has it, and to nothing when no variant has it.
    pub proof fn lemma_decode_exact(v: u32)
        ensures
            match CecBroadcastSystem::from_code(v) {
                Some(e) => e.code() == v,
                None => forall|e: CecBroadcastSystem| #[trigger] e.code() != v,
            },
    {
    }
}

/// The codes of the native `cec_user_control_code` enumeration.
#[derive(Debug, Copy, Clone, PartialEq, Eq, Structural, Hash)]
pub enum CecUserControlCode {
    Select,
    Up,
    Down,
    Left,
    Right,
    RightUp,
    RightDown,
    LeftUp,
    LeftDown,
    RootMenu,
    SetupMenu,
    ContentsMenu,
    FavoriteMenu,
    Exit,
    TopMenu,
    DvdMenu,
    NumberEntryMode,
    Number11,
    Number12,
    Number0,
    Number1,
    Number2,
    Number3,
    Number4,
    Number5,
    Number6,
    Number7,
    Number8,
    Number9,
    Dot,
    Enter,
    Clear,
    NextFavorite,
    ChannelUp,
    ChannelDown,
    PreviousChannel,
    SoundSelect,
    InputSelect,
    DisplayInformation,
    Help,
    PageUp,
    PageDown,
    Power,
    VolumeUp,
    VolumeDown,
    Mute,
    Play,
    Stop,
    Pause,
    Record,
    Rewind,
    FastForward,
    Eject,
    Forward,
    Backward,
    StopRecord,
    PauseRecord,
    Angle,
    SubPicture,
    VideoOnDemand,
    ElectronicProgramGuide,
    TimerProgramming,
    InitialConfiguration,
    SelectBroadcastType,
    SelectSoundPresentation,
    PlayFunction,
    PausePlayFunction,
    RecordFunction,
    PauseRecordFunction,
    StopFunction,
    MuteFunction,
    RestoreVolumeFunction,
    TuneFunction,
    SelectMediaFunction,
    SelectAvInputFunction,
    SelectAudioInputFunction,
    PowerToggleFunction,
    PowerOffFunction,
    PowerOnFunction,
    F1Blue,
    F2Red,
    F3Green,
    F4Yellow,
    F5,
    Data,
    AnReturn,
    AnChannelsList,
    Unknown,
}

impl CecUserControlCode {
    /// The native code of each variant.
    pub open spec fn code(self) -> u32 {
        match self {
            CecUserControlCode::Select => 0,
            CecUserControlCode::Up => 1,
            CecUserControlCode::Down => 2,
            CecUserControlCode::Left => 3,
            CecUserControlCode::Right => 4,
            CecUserControlCode::RightUp => 5,
            CecUserControlCode::RightDown => 6,
            CecUserControlCode::LeftUp => 7,
            CecUserControlCode::LeftDown => 8,
            CecUserControlCode::RootMenu => 9,
            CecUserControlCode::SetupMenu => 10,
            CecUserControlCode::ContentsMenu => 11,
            CecUserControlCode::FavoriteMenu => 12,
            CecUserControlCode::Exit => 13,
            CecUserControlCode::TopMenu => 16,
            CecUserControlCode::DvdMenu => 17,
            CecUserControlCode::NumberEntryMode => 29,
            CecUserControlCode::Number11 => 30,
            CecUserControlCode::Number12 => 31,
            CecUserControlCode::Number0 => 32,
            CecUserControlCode::Number1 => 33,
            CecUserControlCode::Number2 => 34,
            CecUserControlCode::Number3 => 35,
            CecUserControlCode::Number4 => 36,
            CecUserControlCode::Number5 => 37,
            CecUserControlCode::Number6 => 38,
            CecUserControlCode::Number7 => 39,
            CecUserControlCode::Number8 => 40,
            CecUserControlCode::Number9 => 41,
            CecUserControlCode::Dot => 42,
            CecUserControlCode::Enter => 43,
            CecUserControlCode::Clear => 44,
            CecUserControlCode::NextFavorite => 47,
            CecUserControlCode::ChannelUp => 48,
            CecUserControlCode::ChannelDown => 49,
            CecUserControlCode::PreviousChannel => 50,
            CecUserControlCode::SoundSelect => 51,
            CecUserControlCode::InputSelect => 52,
            CecUserControlCode::DisplayInformation => 53,
            CecUserControlCode::Help => 54,
            CecUserControlCode::PageUp => 55,
            CecUserControlCode::PageDown => 56,
            CecUserControlCode::Power => 64,
            CecUserControlCode::VolumeUp => 65,
            CecUserControlCode::VolumeDown => 66,
            CecUserControlCode::Mute => 67,
            CecUserControlCode::Play => 68,
            CecUserControlCode::Stop => 69,
            CecUserControlCode::Pause => 70,
            CecUserControlCode::Record => 71,
            CecUserControlCode::Rewind => 72,
            CecUserControlCode::FastForward => 73,
            CecUserControlCode::Eject => 74,
            CecUserControlCode::Forward => 75,
            CecUserControlCode::Backward => 76,
            CecUserControlCode::StopRecord => 77,
            CecUserControlCode::PauseRecord => 78,
            CecUserControlCode::Angle => 80,
            CecUserControlCode::SubPicture => 81,
            CecUserControlCode::VideoOnDemand => 82,
            CecUserControlCode::ElectronicProgramGuide => 83,
            CecUserControlCode::TimerProgramming => 84,
            CecUserControlCode::InitialConfiguration => 85,
            CecUserControlCode::SelectBroadcastType => 86,
            CecUserControlCode::SelectSoundPresentation => 87,
            CecUserControlCode::PlayFunction => 96,
            CecUserControlCode::PausePlayFunction => 97,
            CecUserControlCode::RecordFunction => 98,
            CecUserControlCode::PauseRecordFunction => 99,
            CecUserControlCode::StopFunction => 100,
            CecUserControlCode::MuteFunction => 101,
            CecUserControlCode::RestoreVolumeFunction => 102,
            CecUserControlCode::TuneFunction => 103,
            CecUserControlCode::SelectMediaFunction => 104,
            CecUserControlCode::SelectAvInputFunction => 105,
            CecUserControlCode::SelectAudioInputFunction => 106,
            CecUserControlCode::PowerToggleFunction => 107,
            CecUserControlCode::PowerOffFunction => 108,
            CecUserControlCode::PowerOnFunction => 109,
            CecUserControlCode::F1Blue => 113,
            CecUserControlCode::F2Red => 114,
            CecUserControlCode::F3Green => 115,
            CecUserControlCode::F4Yellow => 116,
            CecUserControlCode::F5 => 117,
            CecUserControlCode::Data => 118,
            CecUserControlCode::AnReturn => 145,
            CecUserControlCode::AnChannelsList => 150,
            CecUserControlCode::Unknown => 255,
        }
    }

    /// The variant whose native code is `v`, if there is one.
    pub open spec fn from_code(v: u32) -> Option<CecUserControlCode> {
        match v {
            0u32 => Some(CecUserControlCode::Select),
            1u32 => Some(CecUserControlCode::Up),
            2u32 => Some(CecUserControlCode::Down),
            3u32 => Some(CecUserControlCode::Left),
            4u32 => Some(CecUserControlCode::Right),
            5u32 => Some(CecUserControlCode::RightUp),
            6u32 => Some(CecUserControlCode::RightDown),
            7u32 => Some(CecUserControlCode::LeftUp),
            8u32 => Some(CecUserControlCode::LeftDown),
            9u32 => Some(CecUserControlCode::RootMenu),
            10u32 => Some(CecUserControlCode::SetupMenu),
            11u32 => Some(CecUserControlCode::ContentsMenu),
            12u32 => Some(CecUserControlCode::FavoriteMenu),
            13u32 => Some(CecUserControlCode::Exit),
            16u32 => Some(CecUserControlCode::TopMenu),
            17u32 => Some(CecUserControlCode::DvdMenu),
            29u32 => Some(CecUserControlCode::NumberEntryMode),
            30u32 => Some(CecUserControlCode::Number11),
            31u32 => Some(CecUserControlCode::Number12),
            32u32 => Some(CecUserControlCode::Number0),
            33u32 => Some(CecUserControlCode::Number1),
            34u32 => Some(CecUserControlCode::Number2),
            35u32 => Some(CecUserControlCode::Number3),
            36u32 => Some(CecUserControlCode::Number4),
            37u32 => Some(CecUserControlCode::Number5),
            38u32 => Some(CecUserControlCode::Number6),
            39u32 => Some(CecUserControlCode::Number7),
            40u32 => Some(CecUserControlCode::Number8),
            41u32 => Some(CecUserControlCode::Number9),
            42u32 => Some(CecUserControlCode::Dot),
            43u32 => Some(CecUserControlCode::Enter),
            44u32 => Some(CecUserControlCode::Clear),
            47u32 => Some(CecUserControlCode::NextFavorite),
            48u32 => Some(CecUserControlCode::ChannelUp),
            49u32 => Some(CecUserControlCode::ChannelDown),
            50u32 => Some(CecUserControlCode::PreviousChannel),
            51u32 => Some(CecUserControlCode::SoundSelect),
            52u32 => Some(CecUserControlCode::InputSelect),
            53u32 => Some(CecUserControlCode::DisplayInformation),
            54u32 => Some(CecUserControlCode::Help),
            55u32 => Some(CecUserControlCode::PageUp),
            56u32 => Some(CecUserControlCode::PageDown),
            64u32 => Some(CecUserControlCode::Power),
            65u32 => Some(CecUserControlCode::VolumeUp),
            66u32 => Some(CecUserControlCode::VolumeDown),
            67u32 => Some(CecUserControlCode::Mute),
            68u32 => Some(CecUserControlCode::Play),
            69u32 => Some(CecUserControlCode::Stop),
            70u32 => Some(CecUserControlCode::Pause),
            71u32 => Some(CecUserControlCode::Record),
            72u32 => Some(CecUserControlCode::Rewind),
            73u32 => Some(CecUserControlCode::FastForward),
            74u32 => Some(CecUserControlCode::Eject),
            75u32 => Some(CecUserControlCode::Forward),
            76u32 => Some(CecUserControlCode::Backward),
            77u32 => Some(CecUserControlCode::StopRecord),
            78u32 => Some(CecUserControlCode::PauseRecord),
            80u32 => Some(CecUserControlCode::Angle),
            81u32 => Some(CecUserControlCode::SubPicture),
            82u32 => Some(CecUserControlCode::VideoOnDemand),
            83u32 => Some(CecUserControlCode::ElectronicProgramGuide),
            84u32 => Some(CecUserControlCode::TimerProgramming),
            85u32 => Some(CecUserControlCode::InitialConfiguration),
            86u32 => Some(CecUserControlCode::SelectBroadcastType),
            87u32 => Some(CecUserControlCode::SelectSoundPresentation),
            96u32 => Some(CecUserControlCode::PlayFunction),
            97u32 => Some(CecUserControlCode::PausePlayFunction),
            98u32 => Some(CecUserControlCode::RecordFunction),
            99u32 => Some(CecUserControlCode::PauseRecordFunction),
            100u32 => Some(CecUserControlCode::StopFunction),
            101u32 => Some(CecUserControlCode::MuteFunction),
            102u32 => Some(CecUserControlCode::RestoreVolumeFunction),
            103u32 => Some(CecUserControlCode::TuneFunction),
            104u32 => Some(CecUserControlCode::SelectMediaFunction),
            105u32 => Some(CecUserControlCode::SelectAvInputFunction),
            106u32 => Some(CecUserControlCode::SelectAudioInputFunction),
            107u32 => Some(CecUserControlCode::PowerToggleFunction),
            108u32 => Some(CecUserControlCode::PowerOffFunction),
            109u32 => Some(CecUserControlCode::PowerOnFunction),
            113u32 => Some(CecUserControlCode::F1Blue),
            114u32 => Some(CecUserControlCode::F2Red),
            115u32 => Some(CecUserControlCode::F3Green),
            116u32 => Some(CecUserControlCode::F4Yellow),
            117u32 => Some(CecUserControlCode::F5),
            118u32 => Some(CecUserControlCode::Data),
            145u32 => Some(CecUserControlCode::AnReturn),
            150u32 => Some(CecUserControlCode::AnChannelsList),
            255u32 => Some(CecUserControlCode::Unknown),
            _ => None,
        }
    }

    /// The native code of this variant.
    pub fn repr(self) -> (r: u32)
        ensures
            r == self.code(),
    {
        match self {
            CecUserControlCode::Select => 0,
            CecUserControlCode::Up => 1,
            CecUserControlCode::Down => 2,
            CecUserControlCode::Left => 3,
            CecUserControlCode::Right => 4,
            CecUserControlCode::RightUp => 5,
            CecUserControlCode::RightDown => 6,
            CecUserControlCode::LeftUp => 7,
            CecUserControlCode::LeftDown => 8,
            CecUserControlCode::RootMenu => 9,
            CecUserControlCode::SetupMenu => 10,
            CecUserControlCode::ContentsMenu => 11,
            CecUserControlCode::FavoriteMenu => 12,
            CecUserControlCode::Exit => 13,
            CecUserControlCode::TopMenu => 16,
            CecUserControlCode::DvdMenu => 17,
            CecUserControlCode::NumberEntryMode => 29,
            CecUserControlCode::Number11 => 30,
            CecUserControlCode::Number12 => 31,
            CecUserControlCode::Number0 => 32,
            CecUserControlCode::Number1 => 33,
            CecUserControlCode::Number2 => 34,
            CecUserControlCode::Number3 => 35,
            CecUserControlCode::Number4 => 36,
            CecUserControlCode::Number5 => 37,
            CecUserControlCode::Number6 => 38,
            CecUserControlCode::Number7 => 39,
            CecUserControlCode::Number8 => 40,
            CecUserControlCode::Number9 => 41,
            CecUserControlCode::Dot => 42,
            CecUserControlCode::Enter => 43,
            CecUserControlCode::Clear => 44,
            CecUserControlCode::NextFavorite => 47,
            CecUserControlCode::ChannelUp => 48,
            CecUserControlCode::ChannelDown => 49,
            CecUserControlCode::PreviousChannel => 50,
            CecUserControlCode::SoundSelect => 51,
            CecUserControlCode::InputSelect => 52,
            CecUserControlCode::DisplayInformation => 53,
            CecUserControlCode::Help => 54,
            CecUserControlCode::PageUp => 55,
            CecUserControlCode::PageDown => 56,
            CecUserControlCode::Power => 64,
            CecUserControlCode::VolumeUp => 65,
            CecUserControlCode::VolumeDown => 66,
            CecUserControlCode::Mute => 67,
            CecUserControlCode::Play => 68,
            CecUserControlCode::Stop => 69,
            CecUserControlCode::Pause => 70,
            CecUserControlCode::Record => 71,
            CecUserControlCode::Rewind => 72,
            CecUserControlCode::FastForward => 73,
            CecUserControlCode::Eject => 74,
            CecUserControlCode::Forward => 75,
            CecUserControlCode::Backward => 76,
            CecUserControlCode::StopRecord => 77,
            CecUserControlCode::PauseRecord => 78,
            CecUserControlCode::Angle => 80,
            CecUserControlCode::SubPicture => 81,
            CecUserControlCode::VideoOnDemand => 82,
            CecUserControlCode::ElectronicProgramGuide => 83,
            CecUserControlCode::TimerProgramming => 84,
            CecUserControlCode::InitialConfiguration => 85,
            CecUserControlCode::SelectBroadcastType => 86,
            CecUserControlCode::SelectSoundPresentation => 87,
            CecUserControlCode::PlayFunction => 96,
            CecUserControlCode::PausePlayFunction => 97,
            CecUserControlCode::RecordFunction => 98,
            CecUserControlCode::PauseRecordFunction => 99,
            CecUserControlCode::StopFunction => 100,
            CecUserControlCode::MuteFunction => 101,
            CecUserControlCode::RestoreVolumeFunction => 102,
            CecUserControlCode::TuneFunction => 103,
            CecUserControlCode::SelectMediaFunction => 104,
            CecUserControlCode::SelectAvInputFunction => 105,
            CecUserControlCode::SelectAudioInputFunction => 106,
            CecUserControlCode::PowerToggleFunction => 107,
            CecUserControlCode::PowerOffFunction => 108,
            CecUserControlCode::PowerOnFunction => 109,
            CecUserControlCode::F1Blue => 113,
            CecUserControlCode::F2Red => 114,
            CecUserControlCode::F3Green => 115,
            CecUserControlCode::F4Yellow => 116,
            CecUserControlCode::F5 => 117,
            CecUserControlCode::Data => 118,
            CecUserControlCode::AnReturn => 145,
            CecUserControlCode::AnChannelsList => 150,
            CecUserControlCode::Unknown => 255,
        }
    }

    /// The variant with native code `v`; `None` for a code that no variant has.
    pub fn from_repr(v: u32) -> (r: Option<CecUserControlCode>)
        ensures
            r == CecUserControlCode::from_code(v),
    {
        match v {
            0u32 => Some(CecUserControlCode::Select),
            1u32 => Some(CecUserControlCode::Up),
            2u32 => Some(CecUserControlCode::Down),
            3u32 => Some(CecUserControlCode::Left),
            4u32 => Some(CecUserControlCode::Right),
            5u32 => Some(CecUserControlCode::RightUp),
            6u32 => Some(CecUserControlCode::RightDown),
            7u32 => Some(CecUserControlCode::LeftUp),
            8u32 => Some(CecUserControlCode::LeftDown),
            9u32 => Some(CecUserControlCode::RootMenu),
            10u32 => Some(CecUserControlCode::SetupMenu),
            11u32 => Some(CecUserControlCode::ContentsMenu),
            12u32 => Some(CecUserControlCode::FavoriteMenu),
            13u32 => Some(CecUserControlCode::Exit),
            16u32 => Some(CecUserControlCode::TopMenu),
            17u32 => Some(CecUserControlCode::DvdMenu),
            29u32 => Some(CecUserControlCode::NumberEntryMode),
            30u32 => Some(CecUserControlCode::Number11),
            31u32 => Some(CecUserControlCode::Number12),
            32u32 => Some(CecUserControlCode::Number0),
            33u32 => Some(CecUserControlCode::Number1),
            34u32 => Some(CecUserControlCode::Number2),
            35u32 => Some(CecUserControlCode::Number3),
            36u32 => Some(CecUserControlCode::Number4),
            37u32 => Some(CecUserControlCode::Number5),
            38u32 => Some(CecUserControlCode::Number6),
            39u32 => Some(CecUserControlCode::Number7),
            40u32 => Some(CecUserControlCode::Number8),
            41u32 => Some(CecUserControlCode::Number9),
            42u32 => Some(CecUserControlCode::Dot),
            43u32 => Some(CecUserControlCode::Enter),
            44u32 => Some(CecUserControlCode::Clear),
            47u32 => Some(CecUserControlCode::NextFavorite),
            48u32 => Some(CecUserControlCode::ChannelUp),
            49u32 => Some(CecUserControlCode::ChannelDown),
            50u32 => Some(CecUserControlCode::PreviousChannel),
            51u32 => Some(CecUserControlCode::SoundSelect),
            52u32 => Some(CecUserControlCode::InputSelect),
            53u32 => Some(CecUserControlCode::DisplayInformation),
            54u32 => Some(CecUserControlCode::Help),
            55u32 => Some(CecUserControlCode::PageUp),
            56u32 => Some(CecUserControlCode::PageDown),
            64u32 => Some(CecUserControlCode::Power),
            65u32 => Some(CecUserControlCode::VolumeUp),
            66u32 => Some(CecUserControlCode::VolumeDown),
            67u32 => Some(CecUserControlCode::Mute),
            68u32 => Some(CecUserControlCode::Play),
            69u32 => Some(CecUserControlCode::Stop),
            70u32 => Some(CecUserControlCode::Pause),
            71u32 => Some(CecUserControlCode::Record),
            72u32 => Some(CecUserControlCode::Rewind),
            73u32 => Some(CecUserControlCode::FastForward),
            74u32 => Some(CecUserControlCode::Eject),
            75u32 => Some(CecUserControlCode::Forward),
            76u32 => Some(CecUserControlCode::Backward),
            77u32 => Some(CecUserControlCode::StopRecord),
            78u32 => Some(CecUserControlCode::PauseRecord),
            80u32 => Some(CecUserControlCode::Angle),
            81u32 => Some(CecUserControlCode::SubPicture),
            82u32 => Some(CecUserControlCode::VideoOnDemand),
            83u32 => Some(CecUserControlCode::ElectronicProgramGuide),
            84u32 => Some(CecUserControlCode::TimerProgramming),
            85u32 => Some(CecUserControlCode::InitialConfiguration),
            86u32 => Some(CecUserControlCode::SelectBroadcastType),
            87u32 => Some(CecUserControlCode::SelectSoundPresentation),
            96u32 => Some(CecUserControlCode::PlayFunction),
            97u32 => Some(CecUserControlCode::PausePlayFunction),
            98u32 => Some(CecUserControlCode::RecordFunction),
            99u32 => Some(CecUserControlCode::PauseRecordFunction),
            100u32 => Some(CecUserControlCode::StopFunction),
            101u32 => Some(CecUserControlCode::MuteFunction),
            102u32 => Some(CecUserControlCode::RestoreVolumeFunction),
            103u32 => Some(CecUserControlCode::TuneFunction),
            104u32 => Some(CecUserControlCode::SelectMediaFunction),
            105u32 => Some(CecUserControlCode::SelectAvInputFunction),
            106u32 => Some(CecUserControlCode::SelectAudioInputFunction),
            107u32 => Some(CecUserControlCode::PowerToggleFunction),
            108u32 => Some(CecUserControlCode::PowerOffFunction),
            109u32 => Some(CecUserControlCode::PowerOnFunction),
            113u32 => Some(CecUserControlCode::F1Blue),
            114u32 => Some(CecUserControlCode::F2Red),
            115u32 => Some(CecUserControlCode::F3Green),
            116u32 => Some(CecUserControlCode::F4Yellow),
            117u32 => Some(CecUserControlCode::F5),
            118u32 => Some(CecUserControlCode::Data),
            145u32 => Some(CecUserControlCode::AnReturn),
            150u32 => Some(CecUserControlCode::AnChannelsList),
            255u32 => Some(CecUserControlCode::Unknown),
            _ => None,
        }
    }

    /// Decoding the code of a variant gives that variant back.
    pub proof fn lemma_round_trip(self)
        ensures
            CecUserControlCode::from_code(self.code()) == Some(self),
    {
    }

    /// A code decodes to the variant that has it, and to nothing when no variant has it.
    pub proof fn lemma_decode_exact(v: u32)
        ensures
            match CecUserControlCode::from_code(v) {
                Some(e) => e.code() == v,
                None => forall|e: CecUserControlCode| #[trigger] e.code() != v,
            },
    {
    }
}

/// The codes of the native `cec_logical_address` enumeration.
#[derive(Debug, Copy, Clone, PartialEq, Eq, Structural, Hash)]
pub enum CecLogicalAddress {
    Unknown,
    Tv,
    Recordingdevice1,
    Recordingdevice2,
    Tuner1,
    Playbackdevice1,
    Audiosystem,
    Tuner2,
    Tuner3,
    Playbackdevice2,
    Recordingdevice3,
    Tuner4,
    Playbackdevice3,
    Reserved1,
    Reserved2,
    Freeuse,
    Unregistered,
}

impl CecLogicalAddress {
    /// The native code of each variant.
    pub open spec fn code(self) -> i32 {
        match self {
            CecLogicalAddress::Unknown => -1i32,
            CecLogicalAddress::Tv => 0,
            CecLogicalAddress::Recordingdevice1 => 1,
            CecLogicalAddress::Recordingdevice2 => 2,
            CecLogicalAddress::Tuner1 => 3,
            CecLogicalAddress::Playbackdevice1 => 4,
            CecLogicalAddress::Audiosystem => 5,
            CecLogicalAddress::Tuner2 => 6,
            CecLogicalAddress::Tuner3 => 7,
            CecLogicalAddress::Playbackdevice2 => 8,
            CecLogicalAddress::Recordingdevice3 => 9,
            CecLogicalAddress::Tuner4 => 10,
            CecLogicalAddress::Playbackdevice3 => 11,
            CecLogicalAddress::Reserved1 => 12,
            CecLogicalAddress::Reserved2 => 13,
            CecLogicalAddress::Freeuse => 14,
            CecLogicalAddress::Unregistered => 15,
        }
    }

    /// The variant whose native code is `v`, if there is one.
    pub open spec fn from_code(v: i32) -> Option<CecLogicalAddress> {
        match v {
            -1i32 => Some(CecLogicalAddress::Unknown),
            0i32 => Some(CecLogicalAddress::Tv),
            1i32 => Some(CecLogicalAddress::Recordingdevice1),
            2i32 => Some(CecLogicalAddress::Recordingdevice2),
            3i32 => Some(CecLogicalAddress::Tuner1),
            4i32 => Some(CecLogicalAddress::Playbackdevice1),
            5i32 => Some(CecLogicalAddress::Audiosystem),
            6i32 => Some(CecLogicalAddress::Tuner2),
            7i32 => Some(CecLogicalAddress::Tuner3),
            8i32 => Some(CecLogicalAddress::Playbackdevice2),
            9i32 => Some(CecLogicalAddress::Recordingdevice3),
            10i32 => Some(CecLogicalAddress::Tuner4),
            11i32 => Some(CecLogicalAddress::Playbackdevice3),
            12i32 => Some(CecLogicalAddress::Reserved1),
            13i32 => Some(CecLogicalAddress::Reserved2),
            14i32 => Some(CecLogicalAddress::Freeuse),
            15i32 => Some(CecLogicalAddress::Unregistered),
            _ => None,
        }
    }

    /// The native code of this variant.
    pub fn repr(self) -> (r: i32)
        ensures
            r == self.code(),
    {
        match self {
            CecLogicalAddress::Unknown => -1i32,
            CecLogicalAddress::Tv => 0,
            CecLogicalAddress::Recordingdevice1 => 1,
            CecLogicalAddress::Recordingdevice2 => 2,
            CecLogicalAddress::Tuner1 => 3,
            CecLogicalAddress::Playbackdevice1 => 4,
            CecLogicalAddress::Audiosystem => 5,
            CecLogicalAddress::Tuner2 => 6,
            CecLogicalAddress::Tuner3 => 7,
            CecLogicalAddress::Playbackdevice2 => 8,
            CecLogicalAddress::Recordingdevice3 => 9,
            CecLogicalAddress::Tuner4 => 10,
            CecLogicalAddress::Playbackdevice3 => 11,
            CecLogicalAddress::Reserved1 => 12,
            CecLogicalAddress::Reserved2 => 13,
            CecLogicalAddress::Freeuse => 14,
            CecLogicalAddress::Unregistered => 15,
        }
    }

    /// The variant with native code `v`; `None` for a code that no variant has.
    pub fn from_repr(v: i32) -> (r: Option<CecLogicalAddress>)
        ensures
            r == CecLogicalAddress::from_code(v),
    {
        match v {
            -1i32 => Some(CecLogicalAddress::Unknown),
            0i32 => Some(CecLogicalAddress::Tv),
            1i32 => Some(CecLogicalAddress::Recordingdevice1),
            2i32 => Some(CecLogicalAddress::Recordingdevice2),
            3i32 => Some(CecLogicalAddress::Tuner1),
            4i32 => Some(CecLogicalAddress::Playbackdevice1),
            5i32 => Some(CecLogicalAddress::Audiosystem),
            6i32 => Some(CecLogicalAddress::Tuner2),
            7i32 => Some(CecLogicalAddress::Tuner3),
            8i32 => Some(CecLogicalAddress::Playbackdevice2),
            9i32 => Some(CecLogicalAddress::Recordingdevice3),
            10i32 => Some(CecLogicalAddress::Tuner4),
            11i32 => Some(CecLogicalAddress::Playbackdevice3),
            12i32 => Some(CecLogicalAddress::Reserved1),
            13i32 => Some(CecLogicalAddress::Reserved2),
            14i32 => Some(CecLogicalAddress::Freeuse),
            15i32 => Some(CecLogicalAddress::Unregistered),
            _ => None,
        }
    }

    /// Decoding the code of a variant gives that variant back.
    pub proof fn lemma_round_trip(self)
        ensures
            CecLogicalAddress::from_code(self.code()) == Some(self),
    {
    }

    /// A code decodes to the variant that has it, and to nothing when no variant has it.
    pub proof fn lemma_decode_exact(v: i32)
        ensures
            match CecLogicalAddress::from_code(v) {
                Some(e) => e.code() == v,
                None => forall|e: CecLogicalAddress| #[trigger] e.code() != v,
            },
    {
    }
}

/// The codes of the native `cec_opcode` enumeration.
#[derive(Debug, Copy, Clone, PartialEq, Eq, Structural, Hash)]
pub enum CecOpcode {
    ActiveSource,
    ImageViewOn,
    TextViewOn,
    InactiveSource,
    RequestActiveSource,
    RoutingChange,
    RoutingInformation,
    SetStreamPath,
    Standby,
    RecordOff,
    RecordOn,
    RecordStatus,
    RecordTvScreen,
    ClearAnalogueTimer,
    ClearDigitalTimer,
    ClearExternalTimer,
    SetAnalogueTimer,
    SetDigitalTimer,
    SetExternalTimer,
    SetTimerProgramTitle,
    TimerClearedStatus,
    TimerStatus,
    CecVersion,
    GetCecVersion,
    GivePhysicalAddress,
    GetMenuLanguage,
    ReportPhysicalAddress,
    SetMenuLanguage,
    DeckControl,
    DeckStatus,
    GiveDeckStatus,
    Play,
    GiveTunerDeviceStatus,
    SelectAnalogueService,
    SelectDigitalService,
    TunerDeviceStatus,
    TunerStepDecrement,
    TunerStepIncrement,
    DeviceVendorId,
    GiveDeviceVendorId,
    VendorCommand,
    VendorCommandWithId,
    VendorRemoteButtonDown,
    VendorRemoteButtonUp,
    SetOsdString,
    GiveOsdName,
    SetOsdName,
    MenuRequest,
    MenuStatus,
    UserControlPressed,
    UserControlRelease,
    GiveDevicePowerStatus,
    ReportPowerStatus,
    FeatureAbort,
    Abort,
    GiveAudioStatus,
    GiveSystemAudioModeStatus,
    ReportAudioStatus,
    SetSystemAudioMode,
    SystemAudioModeRequest,
    SystemAudioModeStatus,
    SetAudioRate,
    ReportShortAudioDescriptors,
    RequestShortAudioDescriptors,
    StartArc,
    ReportArcStarted,
    ReportArcEnded,
    RequestArcStart,
    RequestArcEnd,
    EndArc,
    Cdc,
    OpcodeNone,
}

impl CecOpcode {
    /// The native code of each variant.
    pub open spec fn code(self) -> u32 {
        match self {
            CecOpcode::ActiveSource => 130,
            CecOpcode::ImageViewOn => 4,
            CecOpcode::TextViewOn => 13,
            CecOpcode::InactiveSource => 157,
            CecOpcode::RequestActiveSource => 133,
            CecOpcode::RoutingChange => 128,
            CecOpcode::RoutingInformation => 129,
            CecOpcode::SetStreamPath => 134,
            CecOpcode::Standby => 54,
            CecOpcode::RecordOff => 11,
            CecOpcode::RecordOn => 9,
            CecOpcode::RecordStatus => 10,
            CecOpcode::RecordTvScreen => 15,
            CecOpcode::ClearAnalogueTimer => 51,
            CecOpcode::ClearDigitalTimer => 153,
            CecOpcode::ClearExternalTimer => 161,
            CecOpcode::SetAnalogueTimer => 52,
            CecOpcode::SetDigitalTimer => 151,
            CecOpcode::SetExternalTimer => 162,
            CecOpcode::SetTimerProgramTitle => 103,
            CecOpcode::TimerClearedStatus => 67,
            CecOpcode::TimerStatus => 53,
            CecOpcode::CecVersion => 158,
            CecOpcode::GetCecVersion => 159,
            CecOpcode::GivePhysicalAddress => 131,
            CecOpcode::GetMenuLanguage => 145,
            CecOpcode::ReportPhysicalAddress => 132,
            CecOpcode::SetMenuLanguage => 50,
            CecOpcode::DeckControl => 66,
            CecOpcode::DeckStatus => 27,
            CecOpcode::GiveDeckStatus => 26,
            CecOpcode::Play => 65,
            CecOpcode::GiveTunerDeviceStatus => 8,
            CecOpcode::SelectAnalogueService => 146,
            CecOpcode::SelectDigitalService => 147,
            CecOpcode::TunerDeviceStatus => 7,
            CecOpcode::TunerStepDecrement => 6,
            CecOpcode::TunerStepIncrement => 5,
            CecOpcode::DeviceVendorId => 135,
            CecOpcode::GiveDeviceVendorId => 140,
            CecOpcode::VendorCommand => 137,
            CecOpcode::VendorCommandWithId => 160,
            CecOpcode::VendorRemoteButtonDown => 138,
            CecOpcode::VendorRemoteButtonUp => 139,
            CecOpcode::SetOsdString => 100,
            CecOpcode::GiveOsdName => 70,
            CecOpcode::SetOsdName => 71,
            CecOpcode::MenuRequest => 141,
            CecOpcode::MenuStatus => 142,
            CecOpcode::UserControlPressed => 68,
            CecOpcode::UserControlRelease => 69,
            CecOpcode::GiveDevicePowerStatus => 143,
            CecOpcode::ReportPowerStatus => 144,
            CecOpcode::FeatureAbort => 0,
            CecOpcode::Abort => 255,
            CecOpcode::GiveAudioStatus => 113,
            CecOpcode::GiveSystemAudioModeStatus => 125,
            CecOpcode::ReportAudioStatus => 122,
            CecOpcode::SetSystemAudioMode => 114,
            CecOpcode::SystemAudioModeRequest => 112,
            CecOpcode::SystemAudioModeStatus => 126,
            CecOpcode::SetAudioRate => 154,
            CecOpcode::ReportShortAudioDescriptors => 163,
            CecOpcode::RequestShortAudioDescriptors => 164,
            CecOpcode::StartArc => 192,
            CecOpcode::ReportArcStarted => 193,
            CecOpcode::ReportArcEnded => 194,
            CecOpcode::RequestArcStart => 195,
            CecOpcode::RequestArcEnd => 196,
            CecOpcode::EndArc => 197,
            CecOpcode::Cdc => 248,
            CecOpcode::OpcodeNone => 253,
        }
    }

    /// The variant whose native code is `v`, if there is one.
    pub open spec fn from_code(v: u32) -> Option<CecOpcode> {
        match v {
            130u32 => Some(CecOpcode::ActiveSource),
            4u32 => Some(CecOpcode::ImageViewOn),
            13u32 => Some(CecOpcode::TextViewOn),
            157u32 => Some(CecOpcode::InactiveSource),
            133u32 => Some(CecOpcode::RequestActiveSource),
            128u32 => Some(CecOpcode::RoutingChange),
            129u32 => Some(CecOpcode::RoutingInformation),
            134u32 => Some(CecOpcode::SetStreamPath),
            54u32 => Some(CecOpcode::Standby),
            11u32 => Some(CecOpcode::RecordOff),
            9u32 => Some(CecOpcode::RecordOn),
            10u32 => Some(CecOpcode::RecordStatus),
            15u32 => Some(CecOpcode::RecordTvScreen),
            51u32 => Some(CecOpcode::ClearAnalogueTimer),
            153u32 => Some(CecOpcode::ClearDigitalTimer),
            161u32 => Some(CecOpcode::ClearExternalTimer),
            52u32 => Some(CecOpcode::SetAnalogueTimer),
            151u32 => Some(CecOpcode::SetDigitalTimer),
            162u32 => Some(CecOpcode::SetExternalTimer),
            103u32 => Some(CecOpcode::SetTimerProgramTitle),
            67u32 => Some(CecOpcode::TimerClearedStatus),
            53u32 => Some(CecOpcode::TimerStatus),
            158u32 => Some(CecOpcode::CecVersion),
            159u32 => Some(CecOpcode::GetCecVersion),
            131u32 => Some(CecOpcode::GivePhysicalAddress),
            145u32 => Some(CecOpcode::GetMenuLanguage),
            132u32 => Some(CecOpcode::ReportPhysicalAddress),
            50u32 => Some(CecOpcode::SetMenuLanguage),
            66u32 => Some(CecOpcode::DeckControl),
            27u32 => Some(CecOpcode::DeckStatus),
            26u32 => Some(CecOpcode::GiveDeckStatus),
            65u32 => Some(CecOpcode::Play),
            8u32 => Some(CecOpcode::GiveTunerDeviceStatus),
            146u32 => Some(CecOpcode::SelectAnalogueService),
            147u32 => Some(CecOpcode::SelectDigitalService),
            7u32 => Some(CecOpcode::TunerDeviceStatus),
            6u32 => Some(CecOpcode::TunerStepDecrement),
            5u32 => Some(CecOpcode::TunerStepIncrement),
            135u32 => Some(CecOpcode::DeviceVendorId),
            140u32 => Some(CecOpcode::GiveDeviceVendorId),
            137u32 => Some(CecOpcode::VendorCommand),
            160u32 => Some(CecOpcode::VendorCommandWithId),
            138u32 => Some(CecOpcode::VendorRemoteButtonDown),
            139u32 => Some(CecOpcode::VendorRemoteButtonUp),
            100u32 => Some(CecOpcode::SetOsdString),
            70u32 => Some(CecOpcode::GiveOsdName),
            71u32 => Some(CecOpcode::SetOsdName),
            141u32 => Some(CecOpcode::MenuRequest),
            142u32 => Some(CecOpcode::MenuStatus),
            68u32 => Some(CecOpcode::UserControlPressed),
            69u32 => Some(CecOpcode::UserControlRelease),
            143u32 => Some(CecOpcode::GiveDevicePowerStatus),
            144u32 => Some(CecOpcode::ReportPowerStatus),
            0u32 => Some(CecOpcode::FeatureAbort),
            255u32 => Some(CecOpcode::Abort),
            113u32 => Some(CecOpcode::GiveAudioStatus),
            125u32 => Some(CecOpcode::GiveSystemAudioModeStatus),
            122u32 => Some(CecOpcode::ReportAudioStatus),
            114u32 => Some(CecOpcode::SetSystemAudioMode),
            112u32 => Some(CecOpcode::SystemAudioModeRequest),
            126u32 => Some(CecOpcode::SystemAudioModeStatus),
            154u32 => Some(CecOpcode::SetAudioRate),
            163u32 => Some(CecOpcode::ReportShortAudioDescriptors),
            164u32 => Some(CecOpcode::RequestShortAudioDescriptors),
            192u32 => Some(CecOpcode::StartArc),
            193u32 => Some(CecOpcode::ReportArcStarted),
            194u32 => Some(CecOpcode::ReportArcEnded),
            195u32 => Some(CecOpcode::RequestArcStart),
            196u32 => Some(CecOpcode::RequestArcEnd),
            197u32 => Some(CecOpcode::EndArc),
            248u32 => Some(CecOpcode::Cdc),
            253u32 => Some(CecOpcode::OpcodeNone),
            _ => None,
        }
    }

    /// The native code of this variant.
    pub fn repr(self) -> (r: u32)
        ensures
            r == self.code(),
    {
        match self {
            CecOpcode::ActiveSource => 130,
            CecOpcode::ImageViewOn => 4,
            CecOpcode::TextViewOn => 13,
            CecOpcode::InactiveSource => 157,
            CecOpcode::RequestActiveSource => 133,
            CecOpcode::RoutingChange => 128,
            CecOpcode::RoutingInformation => 129,
            CecOpcode::SetStreamPath => 134,
            CecOpcode::Standby => 54,
            CecOpcode::RecordOff => 11,
            CecOpcode::RecordOn => 9,
            CecOpcode::RecordStatus => 10,
            CecOpcode::RecordTvScreen => 15,
            CecOpcode::ClearAnalogueTimer => 51,
            CecOpcode::ClearDigitalTimer => 153,
            CecOpcode::ClearExternalTimer => 161,
            CecOpcode::SetAnalogueTimer => 52,
            CecOpcode::SetDigitalTimer => 151,
            CecOpcode::SetExternalTimer => 162,
            CecOpcode::SetTimerProgramTitle => 103,
            CecOpcode::TimerClearedStatus => 67,
            CecOpcode::TimerStatus => 53,
            CecOpcode::CecVersion => 158,
            CecOpcode::GetCecVersion => 159,
            CecOpcode::GivePhysicalAddress => 131,
            CecOpcode::GetMenuLanguage => 145,
            CecOpcode::ReportPhysicalAddress => 132,
            CecOpcode::SetMenuLanguage => 50,
            CecOpcode::DeckControl => 66,
            CecOpcode::DeckStatus => 27,
            CecOpcode::GiveDeckStatus => 26,
            CecOpcode::Play => 65,
            CecOpcode::GiveTunerDeviceStatus => 8,
            CecOpcode::SelectAnalogueService => 146,
            CecOpcode::SelectDigitalService => 147,
            CecOpcode::TunerDeviceStatus => 7,
            CecOpcode::TunerStepDecrement => 6,
            CecOpcode::TunerStepIncrement => 5,
            CecOpcode::DeviceVendorId => 135,
            CecOpcode::GiveDeviceVendorId => 140,
            CecOpcode::VendorCommand => 137,
            CecOpcode::VendorCommandWithId => 160,
            CecOpcode::VendorRemoteButtonDown => 138,
            CecOpcode::VendorRemoteButtonUp => 139,
            CecOpcode::SetOsdString => 100,
            CecOpcode::GiveOsdName => 70,
            CecOpcode::SetOsdName => 71,
            CecOpcode::MenuRequest => 141,
            CecOpcode::MenuStatus => 142,
            CecOpcode::UserControlPressed => 68,
            CecOpcode::UserControlRelease => 69,
            CecOpcode::GiveDevicePowerStatus => 143,
            CecOpcode::ReportPowerStatus => 144,
            CecOpcode::FeatureAbort => 0,
            CecOpcode::Abort => 255,
            CecOpcode::GiveAudioStatus => 113,
            CecOpcode::GiveSystemAudioModeStatus => 125,
            CecOpcode::ReportAudioStatus => 122,
            CecOpcode::SetSystemAudioMode => 114,
            CecOpcode::SystemAudioModeRequest => 112,
            CecOpcode::SystemAudioModeStatus => 126,
            CecOpcode::SetAudioRate => 154,
            CecOpcode::ReportShortAudioDescriptors => 163,
            CecOpcode::RequestShortAudioDescriptors => 164,
            CecOpcode::StartArc => 192,
            CecOpcode::ReportArcStarted => 193,
            CecOpcode::ReportArcEnded => 194,
            CecOpcode::RequestArcStart => 195,
            CecOpcode::RequestArcEnd => 196,
            CecOpcode::EndArc => 197,
            CecOpcode::Cdc => 248,
            CecOpcode::OpcodeNone => 253,
        }
    }

    /// The variant with native code `v`; `None` for a code that no variant has.
    pub fn from_repr(v: u32) -> (r: Option<CecOpcode>)
        ensures
            r == CecOpcode::from_code(v),
    {
        match v {
            130u32 => Some(CecOpcode::ActiveSource),
            4u32 => Some(CecOpcode::ImageViewOn),
            13u32 => Some(CecOpcode::TextViewOn),
            157u32 => Some(CecOpcode::InactiveSource),
            133u32 => Some(CecOpcode::RequestActiveSource),
            128u32 => Some(CecOpcode::RoutingChange),
            129u32 => Some(CecOpcode::RoutingInformation),
            134u32 => Some(CecOpcode::SetStreamPath),
            54u32 => Some(CecOpcode::Standby),
            11u32 => Some(CecOpcode::RecordOff),
            9u32 => Some(CecOpcode::RecordOn),
            10u32 => Some(CecOpcode::RecordStatus),
            15u32 => Some(CecOpcode::RecordTvScreen),
            51u32 => Some(CecOpcode::ClearAnalogueTimer),
            153u32 => Some(CecOpcode::ClearDigitalTimer),
            161u32 => Some(CecOpcode::ClearExternalTimer),
            52u32 => Some(CecOpcode::SetAnalogueTimer),
            151u32 => Some(CecOpcode::SetDigitalTimer),
            162u32 => Some(CecOpcode::SetExternalTimer),
            103u32 => Some(CecOpcode::SetTimerProgramTitle),
            67u32 => Some(CecOpcode::TimerClearedStatus),
            53u32 => Some(CecOpcode::TimerStatus),
            158u32 => Some(CecOpcode::CecVersion),
            159u32 => Some(CecOpcode::GetCecVersion),
            131u32 => Some(CecOpcode::GivePhysicalAddress),
            145u32 => Some(CecOpcode::GetMenuLanguage),
            132u32 => Some(CecOpcode::ReportPhysicalAddress),
            50u32 => Some(CecOpcode::SetMenuLanguage),
            66u32 => Some(CecOpcode::DeckControl),
            27u32 => Some(CecOpcode::DeckStatus),
            26u32 => Some(CecOpcode::GiveDeckStatus),
            65u32 => Some(CecOpcode::Play),
            8u32 => Some(CecOpcode::GiveTunerDeviceStatus),
            146u32 => Some(CecOpcode::SelectAnalogueService),
            147u32 => Some(CecOpcode::SelectDigitalService),
            7u32 => Some(CecOpcode::TunerDeviceStatus),
            6u32 => Some(CecOpcode::TunerStepDecrement),
            5u32 => Some(CecOpcode::TunerStepIncrement),
            135u32 => Some(CecOpcode::DeviceVendorId),
            140u32 => Some(CecOpcode::GiveDeviceVendorId),
            137u32 => Some(CecOpcode::VendorCommand),
            160u32 => Some(CecOpcode::VendorCommandWithId),
            138u32 => Some(CecOpcode::VendorRemoteButtonDown),
            139u32 => Some(CecOpcode::VendorRemoteButtonUp),
            100u32 => Some(CecOpcode::SetOsdString),
            70u32 => Some(CecOpcode::GiveOsdName),
            71u32 => Some(CecOpcode::SetOsdName),
            141u32 => Some(CecOpcode::MenuRequest),
            142u32 => Some(CecOpcode::MenuStatus),
            68u32 => Some(CecOpcode::UserControlPressed),
            69u32 => Some(CecOpcode::UserControlRelease),
            143u32 => Some(CecOpcode::GiveDevicePowerStatus),
            144u32 => Some(CecOpcode::ReportPowerStatus),
            0u32 => Some(CecOpcode::FeatureAbort),
            255u32 => Some(CecOpcode::Abort),
            113u32 => Some(CecOpcode::GiveAudioStatus),
            125u32 => Some(CecOpcode::GiveSystemAudioModeStatus),
            122u32 => Some(CecOpcode::ReportAudioStatus),
            114u32 => Some(CecOpcode::SetSystemAudioMode),
            112u32 => Some(CecOpcode::SystemAudioModeRequest),
            126u32 => Some(CecOpcode::SystemAudioModeStatus),
            154u32 => Some(CecOpcode::SetAudioRate),
            163u32 => Some(CecOpcode::ReportShortAudioDescriptors),
            164u32 => Some(CecOpcode::RequestShortAudioDescriptors),
            192u32 => Some(CecOpcode::StartArc),
            193u32 => Some(CecOpcode::ReportArcStarted),
            194u32 => Some(CecOpcode::ReportArcEnded),
            195u32 => Some(CecOpcode::RequestArcStart),
            196u32 => Some(CecOpcode::RequestArcEnd),
            197u32 => Some(CecOpcode::EndArc),
            248u32 => Some(CecOpcode::Cdc),
            253u32 => Some(CecOpcode::OpcodeNone),
            _ => None,
        }
    }

    /// Decoding the code of a variant gives that variant back.
    pub proof fn lemma_round_trip(self)
        ensures
            CecOpcode::from_code(self.code()) == Some(self),
    {
    }

    /// A code decodes to the variant that has it, and to nothing when no variant has it.
    pub proof fn lemma_decode_exact(v: u32)
        ensures
            match CecOpcode::from_code(v) {
                Some(e) => e.code() == v,
                None => forall|e: CecOpcode| #[trigger] e.code() != v,
            },
    {
    }
}

/// The codes of the native `cec_log_level` enumeration.
#[derive(Debug, Copy, Clone, PartialEq, Eq, Structural, Hash)]
pub enum CecLogLevel {
    Error,
    Warning,
    Notice,
    Traffic,
    Debug,
    All,
}

impl CecLogLevel {
    /// The native code of each variant.
    pub open spec fn code(self) -> u32 {
        match self {
            CecLogLevel::Error => 1,
            CecLogLevel::Warning => 2,
            CecLogLevel::Notice => 4,
            CecLogLevel::Traffic => 8,
            CecLogLevel::Debug => 16,
            CecLogLevel::All => 31,
        }
    }

    /// The variant whose native code is `v`, if there is one.
    pub open spec fn from_code(v: u32) -> Option<CecLogLevel> {
        match v {
            1u32 => Some(CecLogLevel::Error),
            2u32 => Some(CecLogLevel::Warning),
            4u32 => Some(CecLogLevel::Notice),
            8u32 => Some(CecLogLevel::Traffic),
            16u32 => Some(CecLogLevel::Debug),
            31u32 => Some(CecLogLevel::All),
            _ => None,
        }
    }

    /// The native code of this variant.
    pub fn repr(self) -> (r: u32)
        ensures
            r == self.code(),
    {
        match self {
            CecLogLevel::Error => 1,
            CecLogLevel::Warning => 2,
            CecLogLevel::Notice => 4,
            CecLogLevel::Traffic => 8,
            CecLogLevel::Debug => 16,
            CecLogLevel::All => 31,
        }
    }

    /// The variant with native code `v`; `None` for a code that no variant has.
    pub fn from_repr(v: u32) -> (r: Option<CecLogLevel>)
        ensures
            r == CecLogLevel::from_code(v),
    {
        match v {
            1u32 => Some(CecLogLevel::Error),
            2u32 => Some(CecLogLevel::Warning),
            4u32 => Some(CecLogLevel::Notice),
            8u32 => Some(CecLogLevel::Traffic),
            16u32 => Some(CecLogLevel::Debug),
            31u32 => Some(CecLogLevel::All),
            _ => None,
        }
    }

    /// Decoding the code of a variant gives that variant back.
    pub proof fn lemma_round_trip(self)
        ensures
            CecLogLevel::from_code(self.code()) == Some(self),
    {
    }

    /// A code decodes to the variant that has it, and to nothing when no variant has it.
    pub proof fn lemma_decode_exact(v: u32)
        ensures
            match CecLogLevel::from_code(v) {
                Some(e) => e.code() == v,
                None => forall|e: CecLogLevel| #[trigger] e.code() != v,
            },
    {
    }
}

/// The codes of the native `cec_bus_device_status` enumeration.
#[derive(Debug, Copy, Clone, PartialEq, Eq, Structural, Hash)]
pub enum CecBusDeviceStatus {
    Unknown,
    Present,
    NotPresent,
    HandledByLibcec,
}

impl CecBusDeviceStatus {
    /// The native code of each variant.
    pub open spec fn code(self) -> u32 {
        match self {
            CecBusDeviceStatus::Unknown => 0,
            CecBusDeviceStatus::Present => 1,
            CecBusDeviceStatus::NotPresent => 2,
            CecBusDeviceStatus::HandledByLibcec => 3,
        }
    }

    /// The variant whose native code is `v`, if there is one.
    pub open spec fn from_code(v: u32) -> Option<CecBusDeviceStatus> {
        match v {
            0u32 => Some(CecBusDeviceStatus::Unknown),
            1u32 => Some(CecBusDeviceStatus::Present),
            2u32 => Some(CecBusDeviceStatus::NotPresent),
            3u32 => Some(CecBusDeviceStatus::HandledByLibcec),
            _ => None,
        }
    }

    /// The native code of this variant.
    pub fn repr(self) -> (r: u32)
        ensures
            r == self.code(),
    {
        match self {
            CecBusDeviceStatus::Unknown => 0,
            CecBusDeviceStatus::Present => 1,
            CecBusDeviceStatus::NotPresent => 2,
            CecBusDeviceStatus::HandledByLibcec => 3,
        }
    }

    /// The variant with native code `v`; `None` for a code that no variant has.
    pub fn from_repr(v: u32) -> (r: Option<CecBusDeviceStatus>)
        ensures
            r == CecBusDeviceStatus::from_code(v),
    {
        match v {
            0u32 => Some(CecBusDeviceStatus::Unknown),
            1u32 => Some(CecBusDeviceStatus::Present),
            2u32 => Some(CecBusDeviceStatus::NotPresent),
            3u32 => Some(CecBusDeviceStatus::HandledByLibcec),
            _ => None,
        }
    }

    /// Decoding the code of a variant gives that variant back.
    pub proof fn lemma_round_trip(self)
        ensures
            CecBusDeviceStatus::from_code(self.code()) == Some(self),
    {
    }

    /// A code decodes to the variant that has it, and to nothing when no variant has it.
    pub proof fn lemma_decode_exact(v: u32)
        ensures
            match CecBusDeviceStatus::from_code(v) {
                Some(e) => e.code() == v,
                None => forall|e: CecBusDeviceStatus| #[trigger] e.code() != v,
            },
    {
    }
}

/// The codes of the native `cec_vendor_id` enumeration.
#[derive(Debug, Copy, Clone, PartialEq, Eq, Structural, Hash)]
pub enum CecVendorId {
    Toshiba,
    Samsung,
    Denon,
    Marantz,
    Loewe,
    Onkyo,
    Medion,
    Toshiba2,
    Apple,
    PulseEight,
    HarmanKardon2,
    Google,
    Akai,
    Aoc,
    Panasonic,
    Philips,
    Daewoo,
    Yamaha,
    Grundig,
    Pioneer,
    Lg,
    Sharp,
    Sony,
    Broadcom,
    Sharp2,
    Vizio,
    Benq,
    HarmanKardon,
    Unknown,
}

impl CecVendorId {
    /// The native code of each variant.
    pub open spec fn code(self) -> u32 {
        match self {
            CecVendorId::Toshiba => 57,
            CecVendorId::Samsung => 240,
            CecVendorId::Denon => 1485,
            CecVendorId::Marantz => 1656,
            CecVendorId::Loewe => 2434,
            CecVendorId::Onkyo => 2480,
            CecVendorId::Medion => 3256,
            CecVendorId::Toshiba2 => 3303,
            CecVendorId::Apple => 4346,
            CecVendorId::PulseEight => 5506,
            CecVendorId::HarmanKardon2 => 6480,
            CecVendorId::Google => 6673,
            CecVendorId::Akai => 8391,
            CecVendorId::Aoc => 9319,
            CecVendorId::Panasonic => 32837,
            CecVendorId::Philips => 36926,
            CecVendorId::Daewoo => 36947,
            CecVendorId::Yamaha => 41182,
            CecVendorId::Grundig => 53461,
            CecVendorId::Pioneer => 57398,
            CecVendorId::Lg => 57489,
            CecVendorId::Sharp => 524319,
            CecVendorId::Sony => 524358,
            CecVendorId::Broadcom => 1622150,
            CecVendorId::Sharp2 => 5458000,
            CecVendorId::Vizio => 7042157,
            CecVendorId::Benq => 8414697,
            CecVendorId::HarmanKardon => 10249310,
            CecVendorId::Unknown => 0,
        }
    }

    /// The variant whose native code is `v`, if there is one.
    pub open spec fn from_code(v: u32) -> Option<CecVendorId> {
        match v {
            57u32 => Some(CecVendorId::Toshiba),
            240u32 => Some(CecVendorId::Samsung),
            1485u32 => Some(CecVendorId::Denon),
            1656u32 => Some(CecVendorId::Marantz),
            2434u32 => Some(CecVendorId::Loewe),
            2480u32 => Some(CecVendorId::Onkyo),
            3256u32 => Some(CecVendorId::Medion),
            3303u32 => Some(CecVendorId::Toshiba2),
            4346u32 => Some(CecVendorId::Apple),
            5506u32 => Some(CecVendorId::PulseEight),
            6480u32 => Some(CecVendorId::HarmanKardon2),
            6673u32 => Some(CecVendorId::Google),
            8391u32 => Some(CecVendorId::Akai),
            9319u32 => Some(CecVendorId::Aoc),
            32837u32 => Some(CecVendorId::Panasonic),
            36926u32 => Some(CecVendorId::Philips),
            36947u32 => Some(CecVendorId::Daewoo),
            41182u32 => Some(CecVendorId::Yamaha),
            53461u32 => Some(CecVendorId::Grundig),
            57398u32 => Some(CecVendorId::Pioneer),
            57489u32 => Some(CecVendorId::Lg),
            524319u32 => Some(CecVendorId::Sharp),
            524358u32 => Some(CecVendorId::Sony),
            1622150u32 => Some(CecVendorId::Broadcom),
            5458000u32 => Some(CecVendorId::Sharp2),
            7042157u32 => Some(CecVendorId::Vizio),
            8414697u32 => Some(CecVendorId::Benq),
            10249310u32 => Some(CecVendorId::HarmanKardon),
            0u32 => Some(CecVendorId::Unknown),
            _ => None,
        }
    }

    /// The native code of this variant.
    pub fn repr(self) -> (r: u32)
        ensures
            r == self.code(),
    {
        match self {
            CecVendorId::Toshiba => 57,
            CecVendorId::Samsung => 240,
            CecVendorId::Denon => 1485,
            CecVendorId::Marantz => 1656,
            CecVendorId::Loewe => 2434,
            CecVendorId::Onkyo => 2480,
            CecVendorId::Medion => 3256,
            CecVendorId::Toshiba2 => 3303,
            CecVendorId::Apple => 4346,
            CecVendorId::PulseEight => 5506,
            CecVendorId::HarmanKardon2 => 6480,
            CecVendorId::Google => 6673,
            CecVendorId::Akai => 8391,
            CecVendorId::Aoc => 9319,
            CecVendorId::Panasonic => 32837,
            CecVendorId::Philips => 36926,
            CecVendorId::Daewoo => 36947,
            CecVendorId::Yamaha => 41182,
            CecVendorId::Grundig => 53461,
            CecVendorId::Pioneer => 57398,
            CecVendorId::Lg => 57489,
            CecVendorId::Sharp => 524319,
            CecVendorId::Sony => 524358,
            CecVendorId::Broadcom => 1622150,
            CecVendorId::Sharp2 => 5458000,
            CecVendorId::Vizio => 7042157,
            CecVendorId::Benq => 8414697,
            CecVendorId::HarmanKardon => 10249310,
            CecVendorId::Unknown => 0,
        }
    }

    /// The variant with native code `v`; `None` for a code that no variant has.
    pub fn from_repr(v: u32) -> (r: Option<CecVendorId>)
        ensures
            r == CecVendorId::from_code(v),
    {
        match v {
            57u32 => Some(CecVendorId::Toshiba),
            240u32 => Some(CecVendorId::Samsung),
            1485u32 => Some(CecVendorId::Denon),
            1656u32 => Some(CecVendorId::Marantz),
            2434u32 => Some(CecVendorId::Loewe),
            2480u32 => Some(CecVendorId::Onkyo),
            3256u32 => Some(CecVendorId::Medion),
            3303u32 => Some(CecVendorId::Toshiba2),
            4346u32 => Some(CecVendorId::Apple),
            5506u32 => Some(CecVendorId::PulseEight),
            6480u32 => Some(CecVendorId::HarmanKardon2),
            6673u32 => Some(CecVendorId::Google),
            8391u32 => Some(CecVendorId::Akai),
            9319u32 => Some(CecVendorId::Aoc),
            32837u32 => Some(CecVendorId::Panasonic),
            36926u32 => Some(CecVendorId::Philips),
            36947u32 => Some(CecVendorId::Daewoo),
            41182u32 => Some(CecVendorId::Yamaha),
            53461u32 => Some(CecVendorId::Grundig),
            57398u32 => Some(CecVendorId::Pioneer),
            57489u32 => Some(CecVendorId::Lg),
            524319u32 => Some(CecVendorId::Sharp),
            524358u32 => Some(CecVendorId::Sony),
            1622150u32 => Some(CecVendorId::Broadcom),
            5458000u32 => Some(CecVendorId::Sharp2),
            7042157u32 => Some(CecVendorId::Vizio),
            8414697u32 => Some(CecVendorId::Benq),
            10249310u32 => Some(CecVendorId::HarmanKardon),
            0u32 => Some(CecVendorId::Unknown),
            _ => None,
        }
    }

    /// Decoding the code of a variant gives that variant back.
    pub proof fn lemma_round_trip(self)
        ensures
            CecVendorId::from_code(self.code()) == Some(self),
    {
    }

    /// A code decodes to the variant that has it, and to nothing when no variant has it.
    pub proof fn lemma_decode_exact(v: u32)
        ensures
            match CecVendorId::from_code(v) {
                Some(e) => e.code() == v,
                None => forall|e: CecVendorId| #[trigger] e.code() != v,
            },
    {
    }
}

/// The codes of the native `cec_adapter_type` enumeration.
#[derive(Debug, Copy, Clone, PartialEq, Eq, Structural, Hash)]
pub enum CecAdapterType {
    Unknown,
    P8External,
    P8Daughterboard,
    Rpi,
    Tda995x,
    Exynos,
    Linux,
    Aocec,
    Imx,
}

impl CecAdapterType {
    /// The native code of each variant.
    pub open spec fn code(self) -> u32 {
        match self {
            CecAdapterType::Unknown => 0,
            CecAdapterType::P8External => 1,
            CecAdapterType::P8Daughterboard => 2,
            CecAdapterType::Rpi => 256,
            CecAdapterType::Tda995x => 512,
            CecAdapterType::Exynos => 768,
            CecAdapterType::Linux => 1024,
            CecAdapterType::Aocec => 1280,
            CecAdapterType::Imx => 1536,
        }
    }

    /// The variant whose native code is `v`, if there is one.
    pub open spec fn from_code(v: u32) -> Option<CecAdapterType> {
        match v {
            0u32 => Some(CecAdapterType::Unknown),
            1u32 => Some(CecAdapterType::P8External),
            2u32 => Some(CecAdapterType::P8Daughterboard),
            256u32 => Some(CecAdapterType::Rpi),
            512u32 => Some(CecAdapterType::Tda995x),
            768u32 => Some(CecAdapterType::Exynos),
            1024u32 => Some(CecAdapterType::Linux),
            1280u32 => Some(CecAdapterType::Aocec),
            1536u32 => Some(CecAdapterType::Imx),
            _ => None,
        }
    }

    /// The native code of this variant.
    pub fn repr(self) -> (r: u32)
        ensures
            r == self.code(),
    {
        match self {
            CecAdapterType::Unknown => 0,
            CecAdapterType::P8External => 1,
            CecAdapterType::P8Daughterboard => 2,
            CecAdapterType::Rpi => 256,
            CecAdapterType::Tda995x => 512,
            CecAdapterType::Exynos => 768,
            CecAdapterType::Linux => 1024,
            CecAdapterType::Aocec => 1280,
            CecAdapterType::Imx => 1536,
        }
    }

    /// The variant with native code `v`; `None` for a code that no variant has.
    pub fn from_repr(v: u32) -> (r: Option<CecAdapterType>)
        ensures
            r == CecAdapterType::from_code(v),
    {
        match v {
            0u32 => Some(CecAdapterType::Unknown),
            1u32 => Some(CecAdapterType::P8External),
            2u32 => Some(CecAdapterType::P8Daughterboard),
            256u32 => Some(CecAdapterType::Rpi),
            512u32 => Some(CecAdapterType::Tda995x),
            768u32 => Some(CecAdapterType::Exynos),
            1024u32 => Some(CecAdapterType::Linux),
            1280u32 => Some(CecAdapterType::Aocec),
            1536u32 => Some(CecAdapterType::Imx),
            _ => None,
        }
    }

    /// Decoding the code of a variant gives that variant back.
    pub proof fn lemma_round_trip(self)
        ensures
            CecAdapterType::from_code(self.code()) == Some(self),
    {
    }

    /// A code decodes to the variant that has it, and to nothing when no variant has it.
    pub proof fn lemma_decode_exact(v: u32)
        ensures
            match CecAdapterType::from_code(v) {
                Some(e) => e.code() == v,
                None => forall|e: CecAdapterType| #[trigger] e.code() != v,
            },
    {
    }
}

/// The codes of the native `libcec_version` enumeration.
#[derive(Debug, Copy, Clone, PartialEq, Eq, Structural, Hash)]
pub enum LibcecVersion {
    Current,
}

impl LibcecVersion {
    /// The native code of each variant.
    pub open spec fn code(self) -> u32 {
        match self {
            LibcecVersion::Current => 393218,
        }
    }

    /// The variant whose native code is `v`, if there is one.
    pub open spec fn from_code(v: u32) -> Option<LibcecVersion> {
        match v {
            393218u32 => Some(LibcecVersion::Current),
            _ => None,
        }
    }

    /// The native code of this variant.
    pub fn repr(self) -> (r: u32)
        ensures
            r == self.code(),
    {
        match self {
            LibcecVersion::Current => 393218,
        }
    }

    /// The variant with native code `v`; `None` for a code that no variant has.
    pub fn from_repr(v: u32) -> (r: Option<LibcecVersion>)
        ensures
            r == LibcecVersion::from_code(v),
    {
        match v {
            393218u32 => Some(LibcecVersion::Current),
            _ => None,
        }
    }

    /// Decoding the code of a variant gives that variant back.
    pub proof fn lemma_round_trip(self)
        ensures
            LibcecVersion::from_code(self.code()) == Some(self),
    {
    }

    /// A code decodes to the variant that has it, and to nothing when no variant has it.
    pub proof fn lemma_decode_exact(v: u32)
        ensures
            match LibcecVersion::from_code(v) {
                Some(e) => e.code() == v,
                None => forall|e: LibcecVersion| #[trigger] e.code() != v,
            },
    {
    }
}

/// The codes of the native `libcec_alert` enumeration.
#[derive(Debug, Copy, Clone, PartialEq, Eq, Structural, Hash)]
pub enum LibcecAlert {
    ServiceDevice,
    ConnectionLost,
    PermissionError,
    PortBusy,
    PhysicalAddressError,
    TvPollFailed,
}

impl LibcecAlert {
    /// The native code of each variant.
    pub open spec fn code(self) -> u32 {
        match self {
            LibcecAlert::ServiceDevice => 0,
            LibcecAlert::ConnectionLost => 1,
            LibcecAlert::PermissionError => 2,
            LibcecAlert::PortBusy => 3,
            LibcecAlert::PhysicalAddressError => 4,
            LibcecAlert::TvPollFailed => 5,
        }
    }

    /// The variant whose native code is `v`, if there is one.
    pub open spec fn from_code(v: u32) -> Option<LibcecAlert> {
        match v {
            0u32 => Some(LibcecAlert::ServiceDevice),
            1u32 => Some(LibcecAlert::ConnectionLost),
            2u32 => Some(LibcecAlert::PermissionError),
            3u32 => Some(LibcecAlert::PortBusy),
            4u32 => Some(LibcecAlert::PhysicalAddressError),
            5u32 => Some(LibcecAlert::TvPollFailed),
            _ => None,
        }
    }

    /// The native code of this variant.
    pub fn repr(self) -> (r: u32)
        ensures
            r == self.code(),
    {
        match self {
            LibcecAlert::ServiceDevice => 0,
            LibcecAlert::ConnectionLost => 1,
            LibcecAlert::PermissionError => 2,
            LibcecAlert::PortBusy => 3,
            LibcecAlert::PhysicalAddressError => 4,
            LibcecAlert::TvPollFailed => 5,
        }
    }

    /// The variant with native code `v`; `None` for a code that no variant has.
    pub fn from_repr(v: u32) -> (r: Option<LibcecAlert>)
        ensures
            r == LibcecAlert::from_code(v),
    {
        match v {
            0u32 => Some(LibcecAlert::ServiceDevice),
            1u32 => Some(LibcecAlert::ConnectionLost),
            2u32 => Some(LibcecAlert::PermissionError),
            3u32 => Some(LibcecAlert::PortBusy),
            4u32 => Some(LibcecAlert::PhysicalAddressError),
            5u32 => Some(LibcecAlert::TvPollFailed),
            _ => None,
        }
    }

    /// Decoding the code of a variant gives that variant back.
    pub proof fn lemma_round_trip(self)
        ensures
            LibcecAlert::from_code(self.code()) == Some(self),
    {
    }

    /// A code decodes to the variant that has it, and to nothing when no variant has it.
    pub proof fn lemma_decode_exact(v: u32)
        ensures
            match LibcecAlert::from_code(v) {
                Some(e) => e.code() == v,
                None => forall|e: LibcecAlert| #[trigger] e.code() != v,
            },
    {
    }
}

/// The codes of the native `libcec_parameter_type` enumeration.
#[derive(Debug, Copy, Clone, PartialEq, Eq, Structural, Hash)]
pub enum LibcecParameterType {
    String,
    Unkown,
}

impl LibcecParameterType {
    /// The native code of each variant.
    pub open spec fn code(self) -> u32 {
        match self {
            LibcecParameterType::String => 0,
            LibcecParameterType::Unkown => 1,
        }
    }

    /// The variant whose native code is `v`, if there is one.
    pub open spec fn from_code(v: u32) -> Option<LibcecParameterType> {
        match v {
            0u32 => Some(LibcecParameterType::String),
            1u32 => Some(LibcecParameterType::Unkown),
            _ => None,
        }
    }

    /// The native code of this variant.
    pub fn repr(self) -> (r: u32)
        ensures
            r == self.code(),
    {
        match self {
            LibcecParameterType::String => 0,
            LibcecParameterType::Unkown => 1,
        }
    }

    /// The variant with native code `v`; `None` for a code that no variant has.
    pub fn from_repr(v: u32) -> (r: Option<LibcecParameterType>)
        ensures
            r == LibcecParameterType::from_code(v),
    {
        match v {
            0u32 => Some(LibcecParameterType::String),
            1u32 => Some(LibcecParameterType::Unkown),
            _ => None,
        }
    }

    /// Decoding the code of a variant gives that variant back.
    pub proof fn lemma_round_trip(self)
        ensures
            LibcecParameterType::from_code(self.code()) == Some(self),
    {
    }

    /// A code decodes to the variant that has it, and to nothing when no variant has it.
    pub proof fn lemma_decode_exact(v: u32)
        ensures
            match LibcecParameterType::from_code(v) {
                Some(e) => e.code() == v,
                None => forall|e: LibcecParameterType| #[trigger] e.code() != v,
            },
    {
    }
}

} // verus!
