//! The audio status byte: a volume in its low seven bits and a mute flag in
//! its high bit.
use vstd::prelude::*;

verus! {

/// The mute flag of a native audio status byte.
pub const MUTE_STATUS_MASK: u8 = 0x80;

/// The volume bits of a native audio status byte.
pub const VOLUME_STATUS_MASK: u8 = 0x7f;

/// The highest volume.
pub const VOLUME_MAX: u8 = 100;

/// The volume bits that mean the volume is not known.
pub const VOLUME_STATUS_UNKNOWN: u8 = 0x7f;

/// The volume that a status byte carries.
pub open spec fn volume_of(status: u8) -> u8 {
    status % 128
}

/// Whether a status byte carries the mute flag.
pub open spec fn muted_of(status: u8) -> bool {
    status >= 128
}

/// Whether `r` is what decoding status byte `status` gives: the status itself
/// when its volume is at most 100, else the reason it is not known.
pub open spec fn decodes_status(status: u8, r: Result<KnownCecAudioStatus, TryFromCecAudioStatusError>) -> bool {
    match r {
        Ok(k) => volume_of(status) <= 100 && k@ == status,
        Err(TryFromCecAudioStatusError::Unknown) => volume_of(status) == 127,
        Err(TryFromCecAudioStatusError::Reserved(d)) => 100 < volume_of(status) < 127 && d
            == volume_of(status) - 101,
    }
}

/// An audio status whose volume is known: at most 100.
#[derive(Debug, Copy, Clone, PartialEq, Eq, Structural, Hash)]
pub struct KnownCecAudioStatus(u8);

/// Why a status byte is not a known audio status.
#[derive(Debug, Copy, Clone, PartialEq, Eq, Structural)]
pub enum TryFromCecAudioStatusError {
    /// A volume above the highest, given as its distance above 101.
    Reserved(u8),
    /// The volume is marked as not known.
    Unknown,
}

impl View for KnownCecAudioStatus {
    type V = u8;

    closed spec fn view(&self) -> u8 {
        self.0
    }
}

impl KnownCecAudioStatus {
    #[verifier::type_invariant]
    spec fn volume_known(self) -> bool {
        volume_of(self.0) <= 100
    }

    /// The status with volume `volume`, lowered to 100 when above it, and the
    /// mute flag `is_muted`.
    pub fn new(volume: u8, is_muted: bool) -> (r: KnownCecAudioStatus)
        ensures
            r@ == if is_muted {
                (if volume > 100 { 100 } else { volume }) + 128
            } else {
                (if volume > 100 { 100 } else { volume }) as int
            },
    {
        let volume = if volume > VOLUME_MAX { VOLUME_MAX } else { volume };
        let status = if is_muted {
            let s = volume | MUTE_STATUS_MASK;
            assert(volume <= 100 ==> volume | 0x80u8 == volume + 128) by (bit_vector);
            assert(volume <= 100 ==> (volume + 128) as u8 % 128 == volume) by (bit_vector);
            s
        } else {
            volume
        };
        KnownCecAudioStatus(status)
    }

    /// The volume, from 0 to 100.
    pub fn volume(self) -> (r: u8)
        ensures
            r == volume_of(self@),
            r <= 100,
    {
        proof {
            use_type_invariant(self);
        }
        let s = self.0;
        assert(s & 0x7fu8 == s % 128) by (bit_vector);
        s & VOLUME_STATUS_MASK
    }

    /// Whether the mute flag is set.
    pub fn is_muted(self) -> (r: bool)
        ensures
            r == muted_of(self@),
    {
        let s = self.0;
        assert((s & 0x80u8 != 0) == (s >= 128)) by (bit_vector);
        s & MUTE_STATUS_MASK != 0
    }

    /// Whether the mute flag is set or the whole status byte is zero (no
    /// flag, lowest volume).
    pub fn is_muted_or_min_volume(self) -> (r: bool)
        ensures
            r == (muted_of(self@) || self@ == 0),
    {
        let s = self.0;
        assert((s & 0x80u8 != 0) == (s >= 128)) by (bit_vector);
        (s & MUTE_STATUS_MASK != 0) || (s == 0)
    }

    /// The status byte.
    pub fn to_u8(self) -> (r: u8)
        ensures
            r == self@,
    {
        self.0
    }

    /// The status that `status` describes; fails when its volume bits hold
    /// the unknown marker or a reserved value above 100.
    pub fn try_from_u8(status: u8) -> (r: Result<KnownCecAudioStatus, TryFromCecAudioStatusError>)
        ensures
            decodes_status(status, r),
    {
        assert(status & 0x7fu8 == status % 128) by (bit_vector);
        let volume = status & VOLUME_STATUS_MASK;
        if volume > VOLUME_MAX {
            if volume == VOLUME_STATUS_UNKNOWN {
                Err(TryFromCecAudioStatusError::Unknown)
            } else {
                Err(TryFromCecAudioStatusError::Reserved(volume - VOLUME_MAX - 1))
            }
        } else {
            Ok(KnownCecAudioStatus(status))
        }
    }

    /// The status that a native call reported as an integer; a value that is
    /// no byte counts as unknown.
    pub fn try_from_native(raw: i32) -> (r: Result<KnownCecAudioStatus, TryFromCecAudioStatusError>)
        ensures
            0 <= raw <= 255 ==> decodes_status(raw as u8, r),
            !(0 <= raw <= 255) ==> r == Err::<KnownCecAudioStatus, TryFromCecAudioStatusError>(
                TryFromCecAudioStatusError::Unknown,
            ),
    {
        if 0 <= raw && raw <= 255 {
            KnownCecAudioStatus::try_from_u8(raw as u8)
        } else {
            Err(TryFromCecAudioStatusError::Unknown)
        }
    }
}

impl From<KnownCecAudioStatus> for u8 {
    fn from(status: KnownCecAudioStatus) -> (r: u8) {
        status.0
    }
}

impl vstd::std_specs::convert::FromSpecImpl<KnownCecAudioStatus> for u8 {
    open spec fn obeys_from_spec() -> bool {
        true
    }

    open spec fn from_spec(status: KnownCecAudioStatus) -> u8 {
        status@
    }
}

} // verus!
