//! The service status model: the states a service reports, its exit code, the control events it
//! accepts, and the status record exchanged with the service control manager.
use vstd::prelude::*;

use crate::duration::{Duration, NANOS_PER_MILLI};

verus! {

/// The wire value that marks a service-specific exit code.
pub const ERROR_SERVICE_SPECIFIC_ERROR: u32 = 1066;

/// The wire value for success.
pub const NO_ERROR: u32 = 0;

/// A raw value read from a record that no value of the target type stands for.
#[derive(Debug, Clone, PartialEq, Eq)]
pub enum ParseRawError {
    /// An unsigned integer outside the known set.
    InvalidInteger(u32),
    /// A signed integer outside the known set.
    InvalidIntegerSigned(i32),
    /// A GUID outside the known set, in its hyphenated hexadecimal form.
    InvalidGuid(String),
    /// A payload shorter than its kind requires; holds the payload's length in bytes.
    InvalidDataLength(u32),
}

/// The types of services, as a set of flags.
#[derive(Debug, Clone, Copy, PartialEq, Eq, Hash)]
pub struct ServiceType {
    pub bits: u32,
}

impl ServiceType {
    /// File system driver service.
    pub fn file_system_driver() -> (r: ServiceType)
        ensures
            r.bits == 0x2,
    {
        ServiceType { bits: 0x2 }
    }

    /// Driver service.
    pub fn kernel_driver() -> (r: ServiceType)
        ensures
            r.bits == 0x1,
    {
        ServiceType { bits: 0x1 }
    }

    /// Service that runs in its own process.
    pub fn own_process() -> (r: ServiceType)
        ensures
            r.bits == 0x10,
    {
        ServiceType { bits: 0x10 }
    }

    /// Service that shares a process with one or more other services.
    pub fn share_process() -> (r: ServiceType)
        ensures
            r.bits == 0x20,
    {
        ServiceType { bits: 0x20 }
    }

    /// Service that runs in its own process under the logged-on user account.
    pub fn user_own_process() -> (r: ServiceType)
        ensures
            r.bits == 0x50,
    {
        ServiceType { bits: 0x50 }
    }

    /// Service that shares a process with other services under the logged-on user account.
    pub fn user_share_process() -> (r: ServiceType)
        ensures
            r.bits == 0x60,
    {
        ServiceType { bits: 0x60 }
    }

    /// The service can be interactive.
    pub fn interactive_process() -> (r: ServiceType)
        ensures
            r.bits == 0x100,
    {
        ServiceType { bits: 0x100 }
    }

    /// Every known flag.
    pub const ALL_BITS: u32 = 0x173;

    /// The raw flag bits.
    pub fn bits(&self) -> (r: u32)
        ensures
            r == self.bits,
    {
        self.bits
    }

    /// The flags of `bits` that are known; the others are dropped.
    pub fn from_bits_truncate(bits: u32) -> (r: ServiceType)
        ensures
            r.bits == bits & Self::ALL_BITS,
    {
        ServiceType { bits: bits & Self::ALL_BITS }
    }

    /// The flags of both sets.
    pub fn union(self, other: ServiceType) -> (r: ServiceType)
        ensures
            r.bits == self.bits | other.bits,
    {
        ServiceType { bits: self.bits | other.bits }
    }

    /// The two sets share a flag.
    pub fn intersects(&self, other: ServiceType) -> (r: bool)
        ensures
            r == (self.bits & other.bits != 0),
    {
        self.bits & other.bits != 0
    }

    /// Every flag of `other` is in this set.
    pub fn contains(&self, other: ServiceType) -> (r: bool)
        ensures
            r == (self.bits & other.bits == other.bits),
    {
        self.bits & other.bits == other.bits
    }
}

/// The control events that a service accepts, as a set of flags.
#[derive(Debug, Clone, Copy, PartialEq, Eq, Hash)]
pub struct ServiceControlAccept {
    pub bits: u32,
}

impl ServiceControlAccept {
    /// Changes of network binding, without a restart.
    pub fn netbind_change() -> (r: ServiceControlAccept)
        ensures
            r.bits == 0x10,
    {
        ServiceControlAccept { bits: 0x10 }
    }

    /// Rereading of startup parameters, without a restart.
    pub fn param_change() -> (r: ServiceControlAccept)
        ensures
            r.bits == 0x8,
    {
        ServiceControlAccept { bits: 0x8 }
    }

    /// Pause and continue.
    pub fn pause_continue() -> (r: ServiceControlAccept)
        ensures
            r.bits == 0x2,
    {
        ServiceControlAccept { bits: 0x2 }
    }

    /// Preshutdown notification; exclusive with `SHUTDOWN`.
    pub fn preshutdown() -> (r: ServiceControlAccept)
        ensures
            r.bits == 0x100,
    {
        ServiceControlAccept { bits: 0x100 }
    }

    /// Shutdown notification; exclusive with `PRESHUTDOWN`.
    pub fn shutdown() -> (r: ServiceControlAccept)
        ensures
            r.bits == 0x4,
    {
        ServiceControlAccept { bits: 0x4 }
    }

    /// Stop.
    pub fn stop() -> (r: ServiceControlAccept)
        ensures
            r.bits == 0x1,
    {
        ServiceControlAccept { bits: 0x1 }
    }

    /// Hardware profile changes.
    pub fn hardware_profile_change() -> (r: ServiceControlAccept)
        ensures
            r.bits == 0x20,
    {
        ServiceControlAccept { bits: 0x20 }
    }

    /// Power status changes.
    pub fn power_event() -> (r: ServiceControlAccept)
        ensures
            r.bits == 0x40,
    {
        ServiceControlAccept { bits: 0x40 }
    }

    /// Session status changes.
    pub fn session_change() -> (r: ServiceControlAccept)
        ensures
            r.bits == 0x80,
    {
        ServiceControlAccept { bits: 0x80 }
    }

    /// System time changes.
    pub fn time_change() -> (r: ServiceControlAccept)
        ensures
            r.bits == 512,
    {
        ServiceControlAccept { bits: 512 }
    }

    /// Events the service registered a trigger for.
    pub fn trigger_event() -> (r: ServiceControlAccept)
        ensures
            r.bits == 1024,
    {
        ServiceControlAccept { bits: 1024 }
    }

    /// Every known flag.
    pub const ALL_BITS: u32 = 0x7ff;

    /// No control event.
    pub fn empty() -> (r: ServiceControlAccept)
        ensures
            r.bits == 0,
    {
        ServiceControlAccept { bits: 0 }
    }

    /// The raw flag bits.
    pub fn bits(&self) -> (r: u32)
        ensures
            r == self.bits,
    {
        self.bits
    }

    /// The flags of `bits` that are known; the others are dropped.
    pub fn from_bits_truncate(bits: u32) -> (r: ServiceControlAccept)
        ensures
            r.bits == bits & Self::ALL_BITS,
    {
        ServiceControlAccept { bits: bits & Self::ALL_BITS }
    }

    /// The flags of both sets.
    pub fn union(self, other: ServiceControlAccept) -> (r: ServiceControlAccept)
        ensures
            r.bits == self.bits | other.bits,
    {
        ServiceControlAccept { bits: self.bits | other.bits }
    }

    /// Every flag of `other` is in this set.
    pub fn contains(&self, other: ServiceControlAccept) -> (r: bool)
        ensures
            r == (self.bits & other.bits == other.bits),
    {
        self.bits & other.bits == other.bits
    }
}

/// The state of a service.
#[derive(Debug, Clone, Copy, PartialEq, Eq, Hash)]
pub enum ServiceState {
    Stopped,
    StartPending,
    StopPending,
    Running,
    ContinuePending,
    PausePending,
    Paused,
}

impl ServiceState {
    /// The wire value of each state.
    pub open spec fn raw(self) -> u32 {
        match self {
            ServiceState::Stopped => 1,
            ServiceState::StartPending => 2,
            ServiceState::StopPending => 3,
            ServiceState::Running => 4,
            ServiceState::ContinuePending => 5,
            ServiceState::PausePending => 6,
            ServiceState::Paused => 7,
        }
    }

    /// One of the four states in which an operation is under way.
    pub open spec fn is_pending(self) -> bool {
        match self {
            ServiceState::StartPending
            | ServiceState::StopPending
            | ServiceState::ContinuePending
            | ServiceState::PausePending => true,
            _ => false,
        }
    }

    /// Decodes a wire value; a value no state has is an error that carries it.
    pub fn from_raw(raw: u32) -> (r: Result<ServiceState, ParseRawError>)
        ensures
            match r {
                Ok(s) => s.raw() == raw,
                Err(e) => e == ParseRawError::InvalidInteger(raw) && forall|s: ServiceState|
                    s.raw() != raw,
            },
            (forall|s: ServiceState| s.raw() != raw) ==> r == Err::<ServiceState, ParseRawError>(
                ParseRawError::InvalidInteger(raw),
            ),
    {
        let r = match raw {
            1 => Ok(ServiceState::Stopped),
            2 => Ok(ServiceState::StartPending),
            3 => Ok(ServiceState::StopPending),
            4 => Ok(ServiceState::Running),
            5 => Ok(ServiceState::ContinuePending),
            6 => Ok(ServiceState::PausePending),
            7 => Ok(ServiceState::Paused),
            _ => Err(ParseRawError::InvalidInteger(raw)),
        };
        proof {
            if let Ok(s) = r {
                assert(s.raw() == raw);
            }
        }
        r
    }

    /// The wire value of this state.
    pub fn to_raw(self) -> (r: u32)
        ensures
            r == self.raw(),
    {
        match self {
            ServiceState::Stopped => 1,
            ServiceState::StartPending => 2,
            ServiceState::StopPending => 3,
            ServiceState::Running => 4,
            ServiceState::ContinuePending => 5,
            ServiceState::PausePending => 6,
            ServiceState::Paused => 7,
        }
    }

    /// Tells whether an operation is under way in this state.
    pub fn is_pending_state(self) -> (r: bool)
        ensures
            r == self.is_pending(),
    {
        match self {
            ServiceState::StartPending
            | ServiceState::StopPending
            | ServiceState::ContinuePending
            | ServiceState::PausePending => true,
            _ => false,
        }
    }
}

/// The exit code of a service: a system error code, or a code of the service's own.
#[derive(Debug, Clone, Copy, PartialEq, Eq, Hash)]
pub enum ServiceExitCode {
    Win32(u32),
    ServiceSpecific(u32),
}

/// The two exit-code fields of a status record for an exit code: the system code, which is the
/// marker value for a service-specific code, and the service-specific code.
pub open spec fn exit_code_fields(code: ServiceExitCode) -> (u32, u32) {
    match code {
        ServiceExitCode::Win32(c) => (c, 0),
        ServiceExitCode::ServiceSpecific(c) => (ERROR_SERVICE_SPECIFIC_ERROR, c),
    }
}

/// The exit code that the two exit-code fields of a status record stand for.
pub open spec fn exit_code_of_fields(win32: u32, specific: u32) -> ServiceExitCode {
    if win32 == ERROR_SERVICE_SPECIFIC_ERROR {
        ServiceExitCode::ServiceSpecific(specific)
    } else {
        ServiceExitCode::Win32(win32)
    }
}

impl ServiceExitCode {
    /// The two exit-code fields of a status record for this code.
    pub fn to_raw_fields(&self) -> (r: (u32, u32))
        ensures
            r == exit_code_fields(*self),
    {
        match *self {
            ServiceExitCode::Win32(code) => (code, 0),
            ServiceExitCode::ServiceSpecific(code) => (ERROR_SERVICE_SPECIFIC_ERROR, code),
        }
    }

    /// The exit code that the two exit-code fields of a status record stand for.
    pub fn from_raw_fields(win32: u32, specific: u32) -> (r: ServiceExitCode)
        ensures
            r == exit_code_of_fields(win32, specific),
    {
        if win32 == ERROR_SERVICE_SPECIFIC_ERROR {
            ServiceExitCode::ServiceSpecific(specific)
        } else {
            ServiceExitCode::Win32(win32)
        }
    }
}

impl Default for ServiceExitCode {
    fn default() -> (r: ServiceExitCode)
        ensures
            r == ServiceExitCode::Win32(0),
    {
        ServiceExitCode::Win32(NO_ERROR)
    }
}

/// Encoding an exit code into the two fields of a status record and decoding them gives it
/// back: a system code other than the service-specific marker, and any service-specific code,
/// zero included.
pub proof fn lemma_exit_code_round_trip(code: ServiceExitCode)
    requires
        code != ServiceExitCode::Win32(ERROR_SERVICE_SPECIFIC_ERROR),
    ensures
        exit_code_of_fields(exit_code_fields(code).0, exit_code_fields(code).1) == code,
{
}

/// The status record of the service control manager, with its fields as plain integers.
#[derive(Debug, Clone, Copy, PartialEq, Eq, Hash)]
pub struct RawServiceStatus {
    pub service_type: u32,
    pub current_state: u32,
    pub controls_accepted: u32,
    pub win32_exit_code: u32,
    pub service_specific_exit_code: u32,
    pub check_point: u32,
    pub wait_hint: u32,
}

/// The status record that also carries the process id and flags of the service.
#[derive(Debug, Clone, Copy, PartialEq, Eq, Hash)]
pub struct RawServiceStatusProcess {
    pub service_type: u32,
    pub current_state: u32,
    pub controls_accepted: u32,
    pub win32_exit_code: u32,
    pub service_specific_exit_code: u32,
    pub check_point: u32,
    pub wait_hint: u32,
    pub process_id: u32,
    pub service_flags: u32,
}

/// The status of a service.
///
/// `checkpoint` and `wait_hint` are meaningful only in a pending state: a service advances the
/// checkpoint as it makes progress and gives in the wait hint the time until its next report,
/// after which the service control manager takes it for hung. In any other state both are zero.
#[derive(Debug, Clone, Copy, PartialEq, Eq, Hash)]
pub struct ServiceStatus {
    /// Type of service.
    pub service_type: ServiceType,
    /// Current state of the service.
    pub current_state: ServiceState,
    /// Control events that the service accepts.
    pub controls_accepted: ServiceControlAccept,
    /// The error the service reports when it starts or stops.
    pub exit_code: ServiceExitCode,
    /// Progress of a pending operation.
    pub checkpoint: u32,
    /// Time the pending operation is expected to take; it must fit in a `u32` of milliseconds.
    pub wait_hint: Duration,
    /// Process id of the service; only known when the status was queried.
    pub process_id: Option<u32>,
}

impl ServiceStatus {
    /// The wait hint fits the record's `u32` field of milliseconds.
    pub open spec fn wait_hint_fits(self) -> bool {
        self.wait_hint@ / (NANOS_PER_MILLI as nat) <= u32::MAX
    }

    /// Encodes the status into the record sent to the service control manager. The wait hint
    /// must fit in a `u32` of milliseconds.
    pub fn to_raw(&self) -> (r: RawServiceStatus)
        requires
            self.wait_hint_fits(),
        ensures
            r.service_type == self.service_type.bits,
            r.current_state == self.current_state.raw(),
            r.controls_accepted == self.controls_accepted.bits,
            (r.win32_exit_code, r.service_specific_exit_code) == exit_code_fields(self.exit_code),
            r.check_point == self.checkpoint,
            r.wait_hint as nat == self.wait_hint@ / (NANOS_PER_MILLI as nat),
    {
        let (win32, specific) = self.exit_code.to_raw_fields();
        let millis = self.wait_hint.as_millis();
        RawServiceStatus {
            service_type: self.service_type.bits(),
            current_state: self.current_state.to_raw(),
            controls_accepted: self.controls_accepted.bits(),
            win32_exit_code: win32,
            service_specific_exit_code: specific,
            check_point: self.checkpoint,
            wait_hint: millis as u32,
        }
    }

    /// Decodes a status record. A state value no state has is an error that carries it.
    pub fn from_raw(raw: RawServiceStatus) -> (r: Result<ServiceStatus, ParseRawError>)
        ensures
            match r {
                Ok(s) => {
                    &&& s.service_type.bits == raw.service_type & ServiceType::ALL_BITS
                    &&& s.current_state.raw() == raw.current_state
                    &&& s.controls_accepted.bits == raw.controls_accepted
                        & ServiceControlAccept::ALL_BITS
                    &&& s.exit_code == exit_code_of_fields(
                        raw.win32_exit_code,
                        raw.service_specific_exit_code,
                    )
                    &&& s.checkpoint == raw.check_point
                    &&& s.wait_hint@ == raw.wait_hint as nat * NANOS_PER_MILLI as nat
                    &&& s.process_id is None
                },
                Err(e) => e == ParseRawError::InvalidInteger(raw.current_state) && forall|
                    s: ServiceState,
                | s.raw() != raw.current_state,
            },
    {
        let current_state = match ServiceState::from_raw(raw.current_state) {
            Ok(s) => s,
            Err(e) => return Err(e),
        };
        Ok(ServiceStatus {
            service_type: ServiceType::from_bits_truncate(raw.service_type),
            current_state,
            controls_accepted: ServiceControlAccept::from_bits_truncate(raw.controls_accepted),
            exit_code: ServiceExitCode::from_raw_fields(
                raw.win32_exit_code,
                raw.service_specific_exit_code,
            ),
            checkpoint: raw.check_point,
            wait_hint: Duration::from_millis(raw.wait_hint as u64),
            process_id: None,
        })
    }

    /// Decodes a status record that carries the process id; the id is kept only for a running
    /// service. A state value no state has is an error that carries it.
    pub fn from_raw_ex(raw: RawServiceStatusProcess) -> (r: Result<ServiceStatus, ParseRawError>)
        ensures
            match r {
                Ok(s) => {
                    &&& s.service_type.bits == raw.service_type & ServiceType::ALL_BITS
                    &&& s.current_state.raw() == raw.current_state
                    &&& s.controls_accepted.bits == raw.controls_accepted
                        & ServiceControlAccept::ALL_BITS
                    &&& s.exit_code == exit_code_of_fields(
                        raw.win32_exit_code,
                        raw.service_specific_exit_code,
                    )
                    &&& s.checkpoint == raw.check_point
                    &&& s.wait_hint@ == raw.wait_hint as nat * NANOS_PER_MILLI as nat
                    &&& s.process_id == if s.current_state == ServiceState::Running {
                        Some(raw.process_id)
                    } else {
                        None
                    }
                },
                Err(e) => e == ParseRawError::InvalidInteger(raw.current_state) && forall|
                    s: ServiceState,
                | s.raw() != raw.current_state,
            },
    {
        let current_state = match ServiceState::from_raw(raw.current_state) {
            Ok(s) => s,
            Err(e) => return Err(e),
        };
        let process_id = match current_state {
            ServiceState::Running => Some(raw.process_id),
            _ => None,
        };
        Ok(ServiceStatus {
            service_type: ServiceType::from_bits_truncate(raw.service_type),
            current_state,
            controls_accepted: ServiceControlAccept::from_bits_truncate(raw.controls_accepted),
            exit_code: ServiceExitCode::from_raw_fields(
                raw.win32_exit_code,
                raw.service_specific_exit_code,
            ),
            checkpoint: raw.check_point,
            wait_hint: Duration::from_millis(raw.wait_hint as u64),
            process_id,
        })
    }
}

} // verus!
