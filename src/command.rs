//! Messages, key presses and log messages, converted between their safe form
//! and the native records.
use crate::duration::{duration_millis, millis_i32};
use crate::enums::{CecLogLevel, CecLogicalAddress, CecOpcode, CecUserControlCode};
use crate::native::{cec_command, cec_keypress, cec_log_message};
use crate::packet::{encodes_payload, lemma_payload_round_trip, native_payload, CecDatapacket};
use std::time::Duration;
use vstd::prelude::*;
use vstd::utf8::{decode_utf8, valid_utf8};

verus! {

/// One protocol message.
#[derive(Debug, Clone)]
pub struct CecCommand {
    /// The logical address of the initiator of this message.
    pub initiator: CecLogicalAddress,
    /// The logical address of the destination of this message.
    pub destination: CecLogicalAddress,
    /// Whether the ACK bit is set.
    pub ack: bool,
    /// Whether the EOM bit is set.
    pub eom: bool,
    /// The opcode of this message.
    pub opcode: CecOpcode,
    /// The parameters attached to this message.
    pub parameters: CecDatapacket,
    /// Whether an opcode is set; a message without one is a POLL.
    pub opcode_set: bool,
    /// The timeout to use when transmitting.
    pub transmit_timeout: Duration,
}

/// Why a native message could not be decoded.
#[derive(Debug, Copy, Clone, PartialEq, Eq, Structural)]
pub enum TryFromCecCommandError {
    UnknownOpcode,
    UnknownInitiator,
    UnknownDestination,
    /// The parameters claim more bytes than their buffer has.
    InvalidPayloadSize,
}

/// A duration does not fit the native field it is meant for.
#[derive(Debug, Copy, Clone, PartialEq, Eq, Structural)]
pub struct DurationOutOfRange {}

/// A native boolean: 1 for true, 0 for false.
pub open spec fn flag_i8(b: bool) -> i8 {
    if b {
        1
    } else {
        0
    }
}

fn to_flag_i8(b: bool) -> (r: i8)
    ensures
        r == flag_i8(b),
{
    if b {
        1
    } else {
        0
    }
}

/// The first field of a native message that does not decode, checked in the
/// order opcode, initiator, destination, parameters; `None` when all do.
pub open spec fn command_decode_error(n: cec_command) -> Option<TryFromCecCommandError> {
    if CecOpcode::from_code(n.opcode) is None {
        Some(TryFromCecCommandError::UnknownOpcode)
    } else if CecLogicalAddress::from_code(n.initiator) is None {
        Some(TryFromCecCommandError::UnknownInitiator)
    } else if CecLogicalAddress::from_code(n.destination) is None {
        Some(TryFromCecCommandError::UnknownDestination)
    } else if native_payload(n.parameters) is None {
        Some(TryFromCecCommandError::InvalidPayloadSize)
    } else {
        None
    }
}

/// The timeout that a native timeout stands for: a negative one counts as zero.
pub open spec fn clamped_timeout(ms: i32) -> u128 {
    if ms < 0 {
        0
    } else {
        ms as u128
    }
}

/// Whether `n` is the native form of `c`: each field mapped one to one, flags
/// as 0 or 1, and the timeout in whole milliseconds.
pub open spec fn encodes_command(c: CecCommand, n: cec_command) -> bool {
    &&& n.initiator == c.initiator.code()
    &&& n.destination == c.destination.code()
    &&& n.ack == flag_i8(c.ack)
    &&& n.eom == flag_i8(c.eom)
    &&& n.opcode == c.opcode.code()
    &&& encodes_payload(c.parameters@, n.parameters)
    &&& n.opcode_set == flag_i8(c.opcode_set)
    &&& n.transmit_timeout >= 0
    &&& n.transmit_timeout as u128 == duration_millis(c.transmit_timeout)
}

/// A message survives encoding and decoding: the native form of a message
/// decodes without error to the same fields.
pub proof fn lemma_command_round_trip(c: CecCommand, n: cec_command)
    requires
        encodes_command(c, n),
    ensures
        command_decode_error(n) is None,
        CecOpcode::from_code(n.opcode) == Some(c.opcode),
        CecLogicalAddress::from_code(n.initiator) == Some(c.initiator),
        CecLogicalAddress::from_code(n.destination) == Some(c.destination),
        native_payload(n.parameters) == Some(c.parameters@),
        (n.ack != 0) == c.ack,
        (n.eom != 0) == c.eom,
        (n.opcode_set != 0) == c.opcode_set,
        clamped_timeout(n.transmit_timeout) == duration_millis(c.transmit_timeout),
{
    c.opcode.lemma_round_trip();
    c.initiator.lemma_round_trip();
    c.destination.lemma_round_trip();
    assert(n.parameters.data@.len() == 64);
    lemma_payload_round_trip(c.parameters@, n.parameters);
}

impl CecCommand {
    /// The native form of this message: each field mapped one to one, flags as
    /// 0 or 1 and the timeout in milliseconds. Fails when the timeout does not
    /// fit in the native signed 32-bit field.
    pub fn to_native(&self) -> (r: Result<cec_command, DurationOutOfRange>)
        ensures
            match r {
                Ok(n) => encodes_command(*self, n),
                Err(_) => duration_millis(self.transmit_timeout) > i32::MAX as u128,
            },
    {
        let timeout = match millis_i32(&self.transmit_timeout) {
            Some(ms) => ms,
            None => return Err(DurationOutOfRange {}),
        };
        Ok(
            cec_command {
                initiator: self.initiator.repr(),
                destination: self.destination.repr(),
                ack: to_flag_i8(self.ack),
                eom: to_flag_i8(self.eom),
                opcode: self.opcode.repr(),
                parameters: self.parameters.to_native(),
                opcode_set: to_flag_i8(self.opcode_set),
                transmit_timeout: timeout,
            },
        )
    }

    /// The message that a native record describes. Opcode, initiator and
    /// destination each go through their checked conversion, and the first
    /// that fails names the error; a negative timeout becomes zero.
    pub fn from_native(n: &cec_command) -> (r: Result<CecCommand, TryFromCecCommandError>)
        ensures
            match r {
                Ok(c) => {
                    &&& command_decode_error(*n) is None
                    &&& CecOpcode::from_code(n.opcode) == Some(c.opcode)
                    &&& CecLogicalAddress::from_code(n.initiator) == Some(c.initiator)
                    &&& CecLogicalAddress::from_code(n.destination) == Some(c.destination)
                    &&& native_payload(n.parameters) == Some(c.parameters@)
                    &&& c.ack == (n.ack != 0)
                    &&& c.eom == (n.eom != 0)
                    &&& c.opcode_set == (n.opcode_set != 0)
                    &&& duration_millis(c.transmit_timeout) == clamped_timeout(n.transmit_timeout)
                },
                Err(e) => command_decode_error(*n) == Some(e),
            },
    {
        let opcode = match CecOpcode::from_repr(n.opcode) {
            Some(o) => o,
            None => return Err(TryFromCecCommandError::UnknownOpcode),
        };
        let initiator = match CecLogicalAddress::from_repr(n.initiator) {
            Some(a) => a,
            None => return Err(TryFromCecCommandError::UnknownInitiator),
        };
        let destination = match CecLogicalAddress::from_repr(n.destination) {
            Some(a) => a,
            None => return Err(TryFromCecCommandError::UnknownDestination),
        };
        let parameters = match CecDatapacket::from_native(&n.parameters) {
            Ok(p) => p,
            Err(_) => return Err(TryFromCecCommandError::InvalidPayloadSize),
        };
        let millis: u64 = if n.transmit_timeout < 0 {
            0
        } else {
            n.transmit_timeout as u64
        };
        Ok(
            CecCommand {
                initiator,
                destination,
                ack: n.ack != 0,
                eom: n.eom != 0,
                opcode,
                parameters,
                opcode_set: n.opcode_set != 0,
                transmit_timeout: Duration::from_millis(millis),
            },
        )
    }
}

/// A key press reported by the bus.
#[derive(Debug, Copy, Clone, PartialEq, Eq)]
pub struct CecKeypress {
    /// The key code.
    pub keycode: CecUserControlCode,
    /// How long the key was held.
    pub duration: Duration,
}

/// Why a native key press could not be decoded.
#[derive(Debug, Copy, Clone, PartialEq, Eq, Structural)]
pub enum TryFromCecKeyPressError {
    UnknownKeycode,
}

impl CecKeypress {
    /// The key press that a native record describes; fails only on an
    /// unknown key code.
    pub fn from_native(k: &cec_keypress) -> (r: Result<CecKeypress, TryFromCecKeyPressError>)
        ensures
            match r {
                Ok(p) => CecUserControlCode::from_code(k.keycode) == Some(p.keycode)
                    && duration_millis(p.duration) == k.duration as u128,
                Err(e) => CecUserControlCode::from_code(k.keycode) is None && e
                    == TryFromCecKeyPressError::UnknownKeycode,
            },
    {
        let keycode = match CecUserControlCode::from_repr(k.keycode) {
            Some(c) => c,
            None => return Err(TryFromCecKeyPressError::UnknownKeycode),
        };
        Ok(CecKeypress { keycode, duration: Duration::from_millis(k.duration as u64) })
    }
}

/// The text that `b` encodes in UTF-8, or `None` when it is not valid UTF-8.
pub open spec fn utf8_text(b: Seq<u8>) -> Option<Seq<char>> {
    if valid_utf8(b) {
        Some(decode_utf8(b))
    } else {
        None
    }
}

/// Relies on `std::str::from_utf8`: it accepts exactly the valid UTF-8 byte
/// sequences, and the string made of the text it gives holds that text.
#[verifier::external_body]
fn text_from_utf8(bytes: &[u8]) -> (r: Option<String>)
    ensures
        match r {
            Some(s) => utf8_text(bytes@) == Some(s@),
            None => utf8_text(bytes@) is None,
        },
{
    match std::str::from_utf8(bytes) {
        Ok(s) => Some(s.to_owned()),
        Err(_) => None,
    }
}

/// Why a native log message could not be decoded.
#[derive(Debug, Copy, Clone, PartialEq, Eq, Structural)]
pub enum TryFromCecLogMessageError {
    /// The text is not valid UTF-8.
    MessageParseError,
    /// The level is no known log level.
    LogLevelParseError,
    /// The timestamp is negative.
    TimestampParseError,
    UnknownLogLevel,
}

impl CecLogLevel {
    /// The name of the level, as it is displayed.
    pub fn as_str(self) -> (r: &'static str)
        ensures
            r@ == match self {
                CecLogLevel::Error => "Error"@,
                CecLogLevel::Warning => "Warning"@,
                CecLogLevel::Notice => "Notice"@,
                CecLogLevel::Traffic => "Traffic"@,
                CecLogLevel::Debug => "Debug"@,
                CecLogLevel::All => "All"@,
            },
    {
        match self {
            CecLogLevel::Error => "Error",
            CecLogLevel::Warning => "Warning",
            CecLogLevel::Notice => "Notice",
            CecLogLevel::Traffic => "Traffic",
            CecLogLevel::Debug => "Debug",
            CecLogLevel::All => "All",
        }
    }
}

/// A log message of the native library.
#[derive(Debug, Clone)]
pub struct CecLogMessage {
    /// The message text.
    pub message: String,
    /// The log level of the message.
    pub level: CecLogLevel,
    /// The time since the connection was established.
    pub time: Duration,
}

/// The first part of a native log message that does not decode, checked in
/// the order text, level, timestamp; `None` when all do.
pub open spec fn log_decode_error(m: cec_log_message) -> Option<TryFromCecLogMessageError> {
    if utf8_text(m.message@) is None {
        Some(TryFromCecLogMessageError::MessageParseError)
    } else if CecLogLevel::from_code(m.level) is None {
        Some(TryFromCecLogMessageError::LogLevelParseError)
    } else if m.time < 0 {
        Some(TryFromCecLogMessageError::TimestampParseError)
    } else {
        None
    }
}

impl CecLogMessage {
    /// The log message that a native record describes, with its text copied.
    pub fn from_native(m: &cec_log_message) -> (r: Result<CecLogMessage, TryFromCecLogMessageError>)
        ensures
            match r {
                Ok(l) => {
                    &&& log_decode_error(*m) is None
                    &&& utf8_text(m.message@) == Some(l.message@)
                    &&& CecLogLevel::from_code(m.level) == Some(l.level)
                    &&& duration_millis(l.time) == m.time as u128
                },
                Err(e) => log_decode_error(*m) == Some(e),
            },
    {
        let message = match text_from_utf8(m.message.as_slice()) {
            Some(s) => s,
            None => return Err(TryFromCecLogMessageError::MessageParseError),
        };
        let level = match CecLogLevel::from_repr(m.level) {
            Some(l) => l,
            None => return Err(TryFromCecLogMessageError::LogLevelParseError),
        };
        if m.time < 0 {
            return Err(TryFromCecLogMessageError::TimestampParseError);
        }
        Ok(CecLogMessage { message, level, time: Duration::from_millis(m.time as u64) })
    }
}

} // verus!
