//! The decisions of a connection's life: the steps of opening one, the fate
//! of its native handle, and the reading of what native calls return.
use crate::enums::{CecLogicalAddress, CecPowerStatus};
use vstd::prelude::*;

verus! {

/// Why a connection operation failed.
#[derive(Debug, Copy, Clone, PartialEq, Eq, Structural)]
pub enum CecConnectionResultError {
    /// The native library gave no handle.
    LibInitFailed,
    /// No adapter was detected.
    NoAdapterFound,
    /// The native library refused to open the adapter port.
    AdapterOpenFailed,
    /// The native library refused the callback table.
    CallbackRegistrationFailed,
    /// A command was not sent.
    TransmitFailed,
    /// A duration of the settings does not fit its native 32-bit field.
    InvalidConfiguration,
}

/// The result of a connection operation.
pub type CecConnectionResult<T> = Result<T, CecConnectionResultError>;

/// The outcome of a native command call: it reports failure as zero.
pub fn transmit_result(status: i32) -> (r: CecConnectionResult<()>)
    ensures
        match r {
            Ok(()) => status != 0,
            Err(e) => status == 0 && e == CecConnectionResultError::TransmitFailed,
        },
{
    if status == 0 {
        Err(CecConnectionResultError::TransmitFailed)
    } else {
        Ok(())
    }
}

/// The active source that the native library reported, or `Unknown` for a
/// code that is no address.
pub fn active_source_from_native(raw: i32) -> (r: CecLogicalAddress)
    ensures
        r == match CecLogicalAddress::from_code(raw) {
            Some(a) => a,
            None => CecLogicalAddress::Unknown,
        },
{
    match CecLogicalAddress::from_repr(raw) {
        Some(a) => a,
        None => CecLogicalAddress::Unknown,
    }
}

/// The power status that the native library reported, or `Unknown` for a
/// code that is no power status.
pub fn power_status_from_native(raw: u32) -> (r: CecPowerStatus)
    ensures
        r == match CecPowerStatus::from_code(raw) {
            Some(s) => s,
            None => CecPowerStatus::Unknown,
        },
{
    match CecPowerStatus::from_repr(raw) {
        Some(s) => s,
        None => CecPowerStatus::Unknown,
    }
}

/// A native call in the opening of a connection. Opening starts with
/// `Initialise`.
#[derive(Debug, Copy, Clone, PartialEq, Eq, Structural)]
pub enum OpenStep {
    /// Initialise the library with the configuration; gives the handle.
    Initialise,
    /// Detect adapters, when no port was given; gives their number.
    DetectAdapter,
    /// Open the given or the first detected port.
    OpenPort,
    /// Register the callback table with the callback holder as context.
    RegisterCallbacks,
}

/// What follows a native call in the opening of a connection.
#[derive(Debug, Copy, Clone, PartialEq, Eq, Structural)]
pub enum OpenDecision {
    /// Make this call next.
    Call(OpenStep),
    /// The connection is open.
    Opened,
    /// Opening failed with `error`; `release_handle` tells whether a native
    /// handle is held and must be closed and destroyed.
    Failed { error: CecConnectionResultError, release_handle: bool },
}

/// The decision after `step` returned `status`: for `Initialise` 0 for no
/// handle and 1 for one, for `DetectAdapter` the number of adapters, else the
/// native return code, which is 0 on failure.
pub open spec fn open_decision(step: OpenStep, port_given: bool, status: i32) -> OpenDecision {
    match step {
        OpenStep::Initialise => if status == 0 {
            OpenDecision::Failed { error: CecConnectionResultError::LibInitFailed, release_handle: false }
        } else if port_given {
            OpenDecision::Call(OpenStep::OpenPort)
        } else {
            OpenDecision::Call(OpenStep::DetectAdapter)
        },
        OpenStep::DetectAdapter => if status <= 0 {
            OpenDecision::Failed { error: CecConnectionResultError::NoAdapterFound, release_handle: true }
        } else {
            OpenDecision::Call(OpenStep::OpenPort)
        },
        OpenStep::OpenPort => if status == 0 {
            OpenDecision::Failed {
                error: CecConnectionResultError::AdapterOpenFailed,
                release_handle: true,
            }
        } else {
            OpenDecision::Call(OpenStep::RegisterCallbacks)
        },
        OpenStep::RegisterCallbacks => if status == 0 {
            OpenDecision::Failed {
                error: CecConnectionResultError::CallbackRegistrationFailed,
                release_handle: true,
            }
        } else {
            OpenDecision::Opened
        },
    }
}

/// What to do after `step` returned `status`, when a port was given or not.
pub fn next_open_step(step: OpenStep, port_given: bool, status: i32) -> (r: OpenDecision)
    ensures
        r == open_decision(step, port_given, status),
{
    match step {
        OpenStep::Initialise => {
            if status == 0 {
                OpenDecision::Failed { error: CecConnectionResultError::LibInitFailed, release_handle: false }
            } else if port_given {
                OpenDecision::Call(OpenStep::OpenPort)
            } else {
                OpenDecision::Call(OpenStep::DetectAdapter)
            }
        },
        OpenStep::DetectAdapter => {
            if status <= 0 {
                OpenDecision::Failed { error: CecConnectionResultError::NoAdapterFound, release_handle: true }
            } else {
                OpenDecision::Call(OpenStep::OpenPort)
            }
        },
        OpenStep::OpenPort => {
            if status == 0 {
                OpenDecision::Failed {
                    error: CecConnectionResultError::AdapterOpenFailed,
                    release_handle: true,
                }
            } else {
                OpenDecision::Call(OpenStep::RegisterCallbacks)
            }
        },
        OpenStep::RegisterCallbacks => {
            if status == 0 {
                OpenDecision::Failed {
                    error: CecConnectionResultError::CallbackRegistrationFailed,
                    release_handle: true,
                }
            } else {
                OpenDecision::Opened
            }
        },
    }
}

/// Whether a native handle is held by the opening or the connection.
#[derive(Debug, Copy, Clone, PartialEq, Eq, Structural)]
pub enum HandleState {
    /// No handle was acquired.
    Absent,
    /// A handle is held and must be released once.
    Held,
    /// The handle was closed and destroyed.
    Released,
}

/// The state after a release, and whether it closes and destroys the handle.
pub open spec fn release_of(s: HandleState) -> (HandleState, bool) {
    match s {
        HandleState::Held => (HandleState::Released, true),
        other => (other, false),
    }
}

impl HandleState {
    /// The state after `Initialise` returned `status`.
    pub fn after_initialise(status: i32) -> (r: HandleState)
        ensures
            r == if status == 0 {
                HandleState::Absent
            } else {
                HandleState::Held
            },
    {
        if status == 0 {
            HandleState::Absent
        } else {
            HandleState::Held
        }
    }

    /// Releases the handle: returns whether the native handle is to be closed
    /// and destroyed now, which holds only for a handle that is held.
    pub fn release(&mut self) -> (destroy: bool)
        ensures
            (*final(self), destroy) == release_of(*old(self)),
    {
        match *self {
            HandleState::Held => {
                *self = HandleState::Released;
                true
            },
            _ => false,
        }
    }
}

/// Releasing a handle twice destroys it at most once: the second release
/// changes nothing and destroys nothing.
pub proof fn lemma_release_idempotent(s: HandleState)
    ensures
        release_of(release_of(s).0) == (release_of(s).0, false),
{
}

/// An opening that fails after the handle was acquired always asks for the
/// handle to be released, and one that fails before never does; releasing the
/// handle held then destroys it exactly once.
pub proof fn lemma_failed_open_releases_handle(step: OpenStep, port_given: bool, status: i32)
    requires
        open_decision(step, port_given, status) is Failed,
    ensures
        match open_decision(step, port_given, status) {
            OpenDecision::Failed { release_handle, .. } => {
                &&& release_handle == (step != OpenStep::Initialise)
                &&& release_handle ==> release_of(HandleState::Held) == (HandleState::Released, true)
                &&& release_handle ==> release_of(release_of(HandleState::Held).0).1 == false
            },
            _ => false,
        },
{
}

} // verus!
