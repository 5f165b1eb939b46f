//! The configuration of a service: how it is created and reconfigured, how its configuration
//! reads back, and its failure-action policy; with the records exchanged for each.
use vstd::prelude::*;

use crate::double_nul_terminated::{
    first_with_nul, from_slice, joined, parse_str_ptr, split, units_of,
};
use crate::duration::{Duration, NANOS_PER_MILLI, NANOS_PER_SEC};
use crate::error::{Error, NulError};
use crate::service::{ParseRawError, ServiceType};
use crate::shell_escape::{escape, escaped, lemma_escaped_nul_free, SPACE};
use crate::wide::{
    append_units, copy_range, copy_units, find_nul, is_nul_free, lemma_nul_index, opt_nul_free, opt_units,
    optional_text, read_optional_text, read_wide_cstr, terminated, text_at,
    to_optional_wide_cstring, to_wide_cstring,
};

verus! {

/// The reset period that means the failure count is never reset.
pub const INFINITE: u32 = 0xffff_ffff;

/// The prefix that marks a group among the dependency identifiers.
pub const GROUP_PREFIX: u16 = 0x2b;

/// Access rights on one service, as a set of flags.
#[derive(Debug, Clone, Copy, PartialEq, Eq, Hash)]
pub struct ServiceAccess {
    pub bits: u32,
}

impl ServiceAccess {
    /// Can query the service status.
    pub fn query_status() -> (r: ServiceAccess)
        ensures
            r.bits == 0x4,
    {
        ServiceAccess { bits: 0x4 }
    }

    /// Can start the service.
    pub fn start() -> (r: ServiceAccess)
        ensures
            r.bits == 0x10,
    {
        ServiceAccess { bits: 0x10 }
    }

    /// Can stop the service.
    pub fn stop() -> (r: ServiceAccess)
        ensures
            r.bits == 0x20,
    {
        ServiceAccess { bits: 0x20 }
    }

    /// Can pause or continue the service.
    pub fn pause_continue() -> (r: ServiceAccess)
        ensures
            r.bits == 0x40,
    {
        ServiceAccess { bits: 0x40 }
    }

    /// Can ask the service to report its status.
    pub fn interrogate() -> (r: ServiceAccess)
        ensures
            r.bits == 0x80,
    {
        ServiceAccess { bits: 0x80 }
    }

    /// Can delete the service.
    pub fn delete() -> (r: ServiceAccess)
        ensures
            r.bits == 0x10000,
    {
        ServiceAccess { bits: 0x10000 }
    }

    /// Can query the service's configuration.
    pub fn query_config() -> (r: ServiceAccess)
        ensures
            r.bits == 0x1,
    {
        ServiceAccess { bits: 0x1 }
    }

    /// Can change the service's configuration.
    pub fn change_config() -> (r: ServiceAccess)
        ensures
            r.bits == 0x2,
    {
        ServiceAccess { bits: 0x2 }
    }

    /// Every known flag.
    pub const ALL_BITS: u32 = 0x100f7;

    /// The raw flag bits.
    pub fn bits(&self) -> (r: u32)
        ensures
            r == self.bits,
    {
        self.bits
    }

    /// The flags of `bits` that are known; the others are dropped.
    pub fn from_bits_truncate(bits: u32) -> (r: ServiceAccess)
        ensures
            r.bits == bits & Self::ALL_BITS,
    {
        ServiceAccess { bits: bits & Self::ALL_BITS }
    }

    /// The flags of both sets.
    pub fn union(self, other: ServiceAccess) -> (r: ServiceAccess)
        ensures
            r.bits == self.bits | other.bits,
    {
        ServiceAccess { bits: self.bits | other.bits }
    }

    /// Every flag of `other` is in this set.
    pub fn contains(&self, other: ServiceAccess) -> (r: bool)
        ensures
            r == (self.bits & other.bits == other.bits),
    {
        self.bits & other.bits == other.bits
    }
}

/// Access rights on the service control manager, as a set of flags.
#[derive(Debug, Clone, Copy, PartialEq, Eq, Hash)]
pub struct ServiceManagerAccess {
    pub bits: u32,
}

impl ServiceManagerAccess {
    /// Can connect to the service control manager.
    pub fn connect() -> (r: ServiceManagerAccess)
        ensures
            r.bits == 0x1,
    {
        ServiceManagerAccess { bits: 0x1 }
    }

    /// Can create services.
    pub fn create_service() -> (r: ServiceManagerAccess)
        ensures
            r.bits == 0x2,
    {
        ServiceManagerAccess { bits: 0x2 }
    }

    /// Can enumerate services or receive notifications.
    pub fn enumerate_service() -> (r: ServiceManagerAccess)
        ensures
            r.bits == 0x4,
    {
        ServiceManagerAccess { bits: 0x4 }
    }

    /// Every known flag.
    pub const ALL_BITS: u32 = 0x7;

    /// The raw flag bits.
    pub fn bits(&self) -> (r: u32)
        ensures
            r == self.bits,
    {
        self.bits
    }

    /// The flags of `bits` that are known; the others are dropped.
    pub fn from_bits_truncate(bits: u32) -> (r: ServiceManagerAccess)
        ensures
            r.bits == bits & Self::ALL_BITS,
    {
        ServiceManagerAccess { bits: bits & Self::ALL_BITS }
    }

    /// The flags of both sets.
    pub fn union(self, other: ServiceManagerAccess) -> (r: ServiceManagerAccess)
        ensures
            r.bits == self.bits | other.bits,
    {
        ServiceManagerAccess { bits: self.bits | other.bits }
    }

    /// Every flag of `other` is in this set.
    pub fn contains(&self, other: ServiceManagerAccess) -> (r: bool)
        ensures
            r == (self.bits & other.bits == other.bits),
    {
        self.bits & other.bits == other.bits
    }
}

/// When a service is started.
#[derive(Debug, Clone, Copy, PartialEq, Eq, Hash)]
pub enum ServiceStartType {
    /// Started on system startup.
    AutoStart,
    /// Started on request.
    OnDemand,
    /// Cannot be started.
    Disabled,
}

impl ServiceStartType {
    /// The wire value of each variant.
    pub open spec fn raw(self) -> u32 {
        match self {
            ServiceStartType::AutoStart => 2,
            ServiceStartType::OnDemand => 3,
            ServiceStartType::Disabled => 4,
        }
    }

    /// The variant that a wire value stands for, if any.
    pub open spec fn decode(raw: u32) -> Option<ServiceStartType> {
        if raw == 2 {
            Some(ServiceStartType::AutoStart)
        } else if raw == 3 {
            Some(ServiceStartType::OnDemand)
        } else if raw == 4 {
            Some(ServiceStartType::Disabled)
        } else {
            None
        }
    }

    /// The wire value of this variant.
    pub fn to_raw(&self) -> (r: u32)
        ensures
            r == self.raw(),
    {
        match *self {
            ServiceStartType::AutoStart => 2,
            ServiceStartType::OnDemand => 3,
            ServiceStartType::Disabled => 4,
        }
    }

    /// Decodes a wire value; a value that no variant has is an error that carries it.
    pub fn from_raw(raw: u32) -> (r: Result<ServiceStartType, ParseRawError>)
        ensures
            r == match ServiceStartType::decode(raw) {
                Some(v) => Ok(v),
                None => Err(ParseRawError::InvalidInteger(raw)),
            },
            match r {
                Ok(v) => v.raw() == raw,
                Err(_) => forall|v: ServiceStartType| v.raw() != raw,
            },
            (forall|v: ServiceStartType| v.raw() != raw) ==> r == Err::<ServiceStartType, ParseRawError>(
                ParseRawError::InvalidInteger(raw),
            ),
    {
        let r = if raw == 2 {
            Ok(ServiceStartType::AutoStart)
        } else if raw == 3 {
            Ok(ServiceStartType::OnDemand)
        } else if raw == 4 {
            Ok(ServiceStartType::Disabled)
        } else {
            Err(ParseRawError::InvalidInteger(raw))
        };
        proof {
            if let Ok(v) = r {
                assert(v.raw() == raw);
            }
        }
        r
    }
}

/// How severe a failure of the service to start is, and what the system does about it.
#[derive(Debug, Clone, Copy, PartialEq, Eq, Hash)]
pub enum ServiceErrorControl {
    Critical,
    Ignore,
    Normal,
    Severe,
}

impl ServiceErrorControl {
    /// The wire value of each variant.
    pub open spec fn raw(self) -> u32 {
        match self {
            ServiceErrorControl::Critical => 3,
            ServiceErrorControl::Ignore => 0,
            ServiceErrorControl::Normal => 1,
            ServiceErrorControl::Severe => 2,
        }
    }

    /// The variant that a wire value stands for, if any.
    pub open spec fn decode(raw: u32) -> Option<ServiceErrorControl> {
        if raw == 3 {
            Some(ServiceErrorControl::Critical)
        } else if raw == 0 {
            Some(ServiceErrorControl::Ignore)
        } else if raw == 1 {
            Some(ServiceErrorControl::Normal)
        } else if raw == 2 {
            Some(ServiceErrorControl::Severe)
        } else {
            None
        }
    }

    /// The wire value of this variant.
    pub fn to_raw(&self) -> (r: u32)
        ensures
            r == self.raw(),
    {
        match *self {
            ServiceErrorControl::Critical => 3,
            ServiceErrorControl::Ignore => 0,
            ServiceErrorControl::Normal => 1,
            ServiceErrorControl::Severe => 2,
        }
    }

    /// Decodes a wire value; a value that no variant has is an error that carries it.
    pub fn from_raw(raw: u32) -> (r: Result<ServiceErrorControl, ParseRawError>)
        ensures
            r == match ServiceErrorControl::decode(raw) {
                Some(v) => Ok(v),
                None => Err(ParseRawError::InvalidInteger(raw)),
            },
            match r {
                Ok(v) => v.raw() == raw,
                Err(_) => forall|v: ServiceErrorControl| v.raw() != raw,
            },
            (forall|v: ServiceErrorControl| v.raw() != raw) ==> r == Err::<ServiceErrorControl, ParseRawError>(
                ParseRawError::InvalidInteger(raw),
            ),
    {
        let r = if raw == 3 {
            Ok(ServiceErrorControl::Critical)
        } else if raw == 0 {
            Ok(ServiceErrorControl::Ignore)
        } else if raw == 1 {
            Ok(ServiceErrorControl::Normal)
        } else if raw == 2 {
            Ok(ServiceErrorControl::Severe)
        } else {
            Err(ParseRawError::InvalidInteger(raw))
        };
        proof {
            if let Ok(v) = r {
                assert(v.raw() == raw);
            }
        }
        r
    }
}

/// An action that the service control manager can take when a service fails.
#[derive(Debug, Clone, Copy, PartialEq, Eq, Hash)]
pub enum ServiceActionType {
    NoAction,
    Reboot,
    Restart,
    RunCommand,
}

impl ServiceActionType {
    /// The wire value of each variant.
    pub open spec fn raw(self) -> i32 {
        match self {
            ServiceActionType::NoAction => 0,
            ServiceActionType::Reboot => 2,
            ServiceActionType::Restart => 1,
            ServiceActionType::RunCommand => 3,
        }
    }

    /// The variant that a wire value stands for, if any.
    pub open spec fn decode(raw: i32) -> Option<ServiceActionType> {
        if raw == 0 {
            Some(ServiceActionType::NoAction)
        } else if raw == 2 {
            Some(ServiceActionType::Reboot)
        } else if raw == 1 {
            Some(ServiceActionType::Restart)
        } else if raw == 3 {
            Some(ServiceActionType::RunCommand)
        } else {
            None
        }
    }

    /// The wire value of this variant.
    pub fn to_raw(&self) -> (r: i32)
        ensures
            r == self.raw(),
    {
        match *self {
            ServiceActionType::NoAction => 0,
            ServiceActionType::Reboot => 2,
            ServiceActionType::Restart => 1,
            ServiceActionType::RunCommand => 3,
        }
    }

    /// Decodes a wire value; a value that no variant has is an error that carries it.
    pub fn from_raw(raw: i32) -> (r: Result<ServiceActionType, ParseRawError>)
        ensures
            r == match ServiceActionType::decode(raw) {
                Some(v) => Ok(v),
                None => Err(ParseRawError::InvalidIntegerSigned(raw)),
            },
            match r {
                Ok(v) => v.raw() == raw,
                Err(_) => forall|v: ServiceActionType| v.raw() != raw,
            },
            (forall|v: ServiceActionType| v.raw() != raw) ==> r == Err::<ServiceActionType, ParseRawError>(
                ParseRawError::InvalidIntegerSigned(raw),
            ),
    {
        let r = if raw == 0 {
            Ok(ServiceActionType::NoAction)
        } else if raw == 2 {
            Ok(ServiceActionType::Reboot)
        } else if raw == 1 {
            Ok(ServiceActionType::Restart)
        } else if raw == 3 {
            Ok(ServiceActionType::RunCommand)
        } else {
            Err(ParseRawError::InvalidIntegerSigned(raw))
        };
        proof {
            if let Ok(v) = r {
                assert(v.raw() == raw);
            }
        }
        r
    }
}

/// A service or a group of services that a service depends on.
#[derive(Debug, Clone, PartialEq, Eq, Hash)]
pub enum ServiceDependency {
    Service(Vec<u16>),
    Group(Vec<u16>),
}

/// The kind and the name of a dependency read from its identifier: a group when the
/// identifier starts with the group prefix, whose name is what follows it.
pub open spec fn dependency_of_identifier(id: Seq<u16>) -> (bool, Seq<u16>) {
    if id.len() > 0 && id[0] == GROUP_PREFIX {
        (true, id.subrange(1, id.len() as int))
    } else {
        (false, id)
    }
}

impl ServiceDependency {
    /// The dependency is on a group.
    pub open spec fn is_group(&self) -> bool {
        self is Group
    }

    /// The name of the service or group.
    pub open spec fn name(&self) -> Seq<u16> {
        match self {
            ServiceDependency::Service(n) => n@,
            ServiceDependency::Group(n) => n@,
        }
    }

    /// The identifier of the dependency: a service's name, or a group's name after the group
    /// prefix, since services and groups share one namespace.
    pub open spec fn identifier(&self) -> Seq<u16> {
        if self.is_group() {
            seq![GROUP_PREFIX] + self.name()
        } else {
            self.name()
        }
    }

    /// The identifier of the dependency.
    pub fn to_system_identifier(&self) -> (r: Vec<u16>)
        ensures
            r@ == self.identifier(),
    {
        match self {
            ServiceDependency::Service(name) => copy_units(name.as_slice()),
            ServiceDependency::Group(name) => {
                let mut id: Vec<u16> = Vec::new();
                id.push(GROUP_PREFIX);
                let mut i: usize = 0;
                while i < name.len()
                    invariant
                        i <= name.len(),
                        id@ == seq![GROUP_PREFIX] + name@.subrange(0, i as int),
                    decreases name.len() - i,
                {
                    id.push(name[i]);
                    i = i + 1;
                    assert(id@ =~= seq![GROUP_PREFIX] + name@.subrange(0, i as int));
                }
                assert(name@.subrange(0, name@.len() as int) =~= name@);
                id
            },
        }
    }

    /// The dependency that an identifier names.
    pub fn from_system_identifier(identifier: &[u16]) -> (r: ServiceDependency)
        ensures
            (r.is_group(), r.name()) == dependency_of_identifier(identifier@),
    {
        if identifier.len() > 0 && identifier[0] == GROUP_PREFIX {
            ServiceDependency::Group(copy_range(identifier, 1, identifier.len()))
        } else {
            ServiceDependency::Service(copy_units(identifier))
        }
    }
}

/// Reading a dependency back from its identifier gives the same dependency: for every group,
/// and for every service whose name does not start with the group prefix.
pub proof fn lemma_dependency_round_trip(d: ServiceDependency)
    requires
        !d.is_group() ==> d.name().len() == 0 || d.name()[0] != GROUP_PREFIX,
    ensures
        dependency_of_identifier(d.identifier()) == (d.is_group(), d.name()),
{
    if d.is_group() {
        let id = d.identifier();
        assert(id.subrange(1, id.len() as int) =~= d.name());
    }
}

/// An action that the service control manager takes when the service fails, and the time it
/// waits before taking it.
#[derive(Debug, Clone, Copy, PartialEq, Eq, Hash)]
pub struct ServiceAction {
    /// The action to take.
    pub action_type: ServiceActionType,
    /// The time to wait first; it must fit in a `u32` of milliseconds.
    pub delay: Duration,
}

/// An action as the failure-action record holds it.
#[derive(Debug, Clone, Copy, PartialEq, Eq, Hash)]
pub struct RawServiceAction {
    pub action_type: i32,
    pub delay: u32,
}

impl ServiceAction {
    /// The delay fits the record's `u32` field of milliseconds.
    pub open spec fn delay_fits(&self) -> bool {
        self.delay@ / (NANOS_PER_MILLI as nat) <= u32::MAX
    }

    /// Decodes an action; an unknown action type is an error that carries it.
    pub fn from_raw(raw: RawServiceAction) -> (r: Result<ServiceAction, Error>)
        ensures
            match ServiceActionType::decode(raw.action_type) {
                Some(t) => r matches Ok(a) && a.action_type == t && a.delay@ == raw.delay as nat
                    * NANOS_PER_MILLI as nat,
                None => r == Err::<ServiceAction, Error>(
                    Error::InvalidServiceActionType(
                        ParseRawError::InvalidIntegerSigned(raw.action_type),
                    ),
                ),
            },
    {
        match ServiceActionType::from_raw(raw.action_type) {
            Ok(action_type) => Ok(
                ServiceAction { action_type, delay: Duration::from_millis(raw.delay as u64) },
            ),
            Err(e) => Err(Error::InvalidServiceActionType(e)),
        }
    }

    /// Encodes the action. The delay must fit in a `u32` of milliseconds.
    pub fn to_raw(&self) -> (r: RawServiceAction)
        requires
            self.delay_fits(),
        ensures
            r.action_type == self.action_type.raw(),
            r.delay as nat == self.delay@ / (NANOS_PER_MILLI as nat),
    {
        RawServiceAction {
            action_type: self.action_type.to_raw(),
            delay: self.delay.as_millis() as u32,
        }
    }
}

/// The time after which the failure count is reset to zero when no failure occurs.
#[derive(Debug, Clone, Copy, PartialEq, Eq, Hash)]
pub enum ServiceFailureResetPeriod {
    Never,
    After(Duration),
}

impl ServiceFailureResetPeriod {
    /// The period fits the record's `u32` field of seconds.
    pub open spec fn fits(&self) -> bool {
        match self {
            ServiceFailureResetPeriod::Never => true,
            ServiceFailureResetPeriod::After(d) => d@ / (NANOS_PER_SEC as nat) <= u32::MAX,
        }
    }

    /// The record's field for the period, in seconds.
    pub open spec fn raw(&self) -> nat {
        match self {
            ServiceFailureResetPeriod::Never => INFINITE as nat,
            ServiceFailureResetPeriod::After(d) => d@ / (NANOS_PER_SEC as nat),
        }
    }

    /// Decodes the record's field: the infinite value is never, any other a number of seconds.
    pub fn from_raw(raw: u32) -> (r: ServiceFailureResetPeriod)
        ensures
            raw == INFINITE ==> r == ServiceFailureResetPeriod::Never,
            raw != INFINITE ==> (r matches ServiceFailureResetPeriod::After(d) && d@ == raw as nat
                * NANOS_PER_SEC as nat),
    {
        if raw == INFINITE {
            ServiceFailureResetPeriod::Never
        } else {
            ServiceFailureResetPeriod::After(Duration::from_secs(raw as u64))
        }
    }

    /// Encodes the period. It must fit in a `u32` of seconds.
    pub fn to_raw(&self) -> (r: u32)
        requires
            self.fits(),
        ensures
            r as nat == self.raw(),
    {
        match self {
            ServiceFailureResetPeriod::Never => INFINITE,
            ServiceFailureResetPeriod::After(d) => d.as_secs() as u32,
        }
    }
}

/// This controls how the service SID is added to the service process token.
#[derive(Debug, Clone, Copy, PartialEq, Eq, Hash)]
pub enum ServiceSidType {
    NoSid,
    Restricted,
    Unrestricted,
}

impl ServiceSidType {
    /// The wire value of each SID type.
    pub open spec fn raw(self) -> u32 {
        match self {
            ServiceSidType::NoSid => 0,
            ServiceSidType::Restricted => 3,
            ServiceSidType::Unrestricted => 1,
        }
    }

    /// The wire value of this SID type.
    pub fn to_raw(&self) -> (r: u32)
        ensures
            r == self.raw(),
    {
        match *self {
            ServiceSidType::NoSid => 0,
            ServiceSidType::Restricted => 3,
            ServiceSidType::Unrestricted => 1,
        }
    }
}

/// The policy that says what the service control manager does when the service fails.
#[derive(Debug, Clone, PartialEq, Eq, Hash)]
pub struct ServiceFailureActions {
    /// The time after which the failure count is reset when no failure occurs.
    pub reset_period: ServiceFailureResetPeriod,
    /// The message broadcast before a reboot. On update, `None` leaves it unchanged and an empty
    /// string deletes it.
    pub reboot_msg: Option<Vec<u16>>,
    /// The command line run by the run-command action. On update, `None` leaves it unchanged and
    /// an empty string deletes it.
    pub command: Option<Vec<u16>>,
    /// The actions, in order. On update, `None` leaves them and the reset period unchanged.
    pub actions: Option<Vec<ServiceAction>>,
}

/// The failure-action record. Its strings are nul-terminated; in a record read back, each holds
/// the units from where its field points to the end of the record, and is `None` for a null
/// field.
#[derive(Debug, Clone, PartialEq, Eq, Hash)]
pub struct RawServiceFailureActions {
    pub reset_period: u32,
    pub reboot_msg: Option<Vec<u16>>,
    pub command: Option<Vec<u16>>,
    pub actions: Option<Vec<RawServiceAction>>,
}

/// The action at `i` of the record decodes to the action `a`.
pub open spec fn action_decodes_to(raw: RawServiceAction, a: ServiceAction) -> bool {
    a.action_type.raw() == raw.action_type && a.delay@ == raw.delay as nat * NANOS_PER_MILLI as nat
}

/// The first action of `actions` whose type is unknown: its index.
pub open spec fn first_unknown_action(actions: Seq<RawServiceAction>, i: int) -> bool {
    0 <= i < actions.len() && ServiceActionType::decode(actions[i].action_type) is None && forall|
        j: int,
    |
        0 <= j < i ==> ServiceActionType::decode(#[trigger] actions[j].action_type) is Some
}

impl ServiceFailureActions {
    /// The periods and delays fit their record fields.
    pub open spec fn fits(&self) -> bool {
        &&& self.reset_period.fits()
        &&& self.actions matches Some(v) ==> forall|i: int|
            0 <= i < v@.len() ==> (#[trigger] v@[i]).delay_fits()
    }

    /// Decodes a failure-action record read back from the service control manager.
    ///
    /// An empty or missing reboot message or command is absent. An unknown action type is an
    /// error that carries it.
    pub fn from_raw(raw: &RawServiceFailureActions) -> (r: Result<ServiceFailureActions, Error>)
        ensures
            match r {
                Ok(f) => {
                    &&& f.reset_period == ServiceFailureResetPeriod::Never <==> raw.reset_period
                        == INFINITE
                    &&& f.reset_period matches ServiceFailureResetPeriod::After(d) ==> d@
                        == raw.reset_period as nat * NANOS_PER_SEC as nat
                    &&& opt_units(f.reboot_msg) == optional_text(opt_units(raw.reboot_msg))
                    &&& opt_units(f.command) == optional_text(opt_units(raw.command))
                    &&& f.actions is None <==> raw.actions is None
                    &&& f.actions matches Some(a) ==> raw.actions matches Some(ra) && a@.len()
                        == ra@.len() && forall|i: int|
                        0 <= i < a@.len() ==> action_decodes_to(ra@[i], #[trigger] a@[i])
                },
                Err(e) => raw.actions matches Some(ra) && exists|i: int|
                    first_unknown_action(ra@, i) && e == Error::InvalidServiceActionType(
                        ParseRawError::InvalidIntegerSigned(ra@[i].action_type),
                    ),
            },
            r is Ok <==> (raw.actions matches Some(ra) ==> forall|i: int|
                0 <= i < ra@.len() ==> ServiceActionType::decode(
                    (#[trigger] ra@[i]).action_type,
                ) is Some),
    {
        let reboot_msg = read_optional_text(&raw.reboot_msg);
        let command = read_optional_text(&raw.command);
        let reset_period = ServiceFailureResetPeriod::from_raw(raw.reset_period);
        let actions = match raw.actions {
            None => None,
            Some(ref ra) => {
                let mut out: Vec<ServiceAction> = Vec::new();
                let mut i: usize = 0;
                while i < ra.len()
                    invariant
                        raw.actions == Some(*ra),
                        i <= ra@.len(),
                        out@.len() == i,
                        forall|j: int| 0 <= j < i ==> action_decodes_to(ra@[j], #[trigger] out@[j]),
                        forall|j: int|
                            0 <= j < i ==> ServiceActionType::decode(
                                (#[trigger] ra@[j]).action_type,
                            ) is Some,
                    decreases ra@.len() - i,
                {
                    let item = ra[i];
                    assert(item == ra@[i as int]);
                    match ServiceAction::from_raw(item) {
                        Ok(a) => out.push(a),
                        Err(e) => {
                            assert(ServiceActionType::decode(item.action_type) is None);
                            assert(e == Error::InvalidServiceActionType(
                                ParseRawError::InvalidIntegerSigned(item.action_type),
                            ));
                            assert(first_unknown_action(ra@, i as int));
                            return Err(e);
                        },
                    }
                    i = i + 1;
                }
                Some(out)
            },
        };
        proof {
            if reset_period == ServiceFailureResetPeriod::Never {
                assert(raw.reset_period == INFINITE);
            }
        }
        Ok(ServiceFailureActions { reset_period, reboot_msg, command, actions })
    }

    /// Encodes the policy into the record that updates it. The periods and delays must fit
    /// their record fields. A reboot message or command that holds a nul is an error.
    pub fn to_raw(&self) -> (r: Result<RawServiceFailureActions, Error>)
        requires
            self.fits(),
        ensures
            match r {
                Ok(raw) => {
                    &&& raw.reset_period as nat == self.reset_period.raw()
                    &&& opt_units(raw.reboot_msg) == terminated(opt_units(self.reboot_msg))
                    &&& opt_units(raw.command) == terminated(opt_units(self.command))
                    &&& raw.actions is None <==> self.actions is None
                    &&& raw.actions matches Some(ra) ==> self.actions matches Some(a) && ra@.len()
                        == a@.len() && forall|i: int|
                        0 <= i < ra@.len() ==> (#[trigger] ra@[i]).action_type == a@[i].action_type.raw()
                            && ra@[i].delay as nat == a@[i].delay@ / (NANOS_PER_MILLI as nat)
                },
                Err(Error::InvalidServiceActionFailuresRebootMessage(_)) => !opt_nul_free(
                    self.reboot_msg,
                ),
                Err(Error::InvalidServiceActionFailuresCommand(_)) => opt_nul_free(self.reboot_msg)
                    && !opt_nul_free(self.command),
                Err(_) => false,
            },
            r is Ok <==> opt_nul_free(self.reboot_msg) && opt_nul_free(self.command),
    {
        let reboot_msg = match to_optional_wide_cstring(&self.reboot_msg) {
            Ok(w) => w,
            Err(e) => return Err(Error::InvalidServiceActionFailuresRebootMessage(e)),
        };
        let command = match to_optional_wide_cstring(&self.command) {
            Ok(w) => w,
            Err(e) => return Err(Error::InvalidServiceActionFailuresCommand(e)),
        };
        let actions = match self.actions {
            None => None,
            Some(ref a) => {
                let mut out: Vec<RawServiceAction> = Vec::new();
                let mut i: usize = 0;
                while i < a.len()
                    invariant
                        self.actions == Some(*a),
                        i <= a@.len(),
                        out@.len() == i,
                        forall|j: int| 0 <= j < a@.len() ==> (#[trigger] a@[j]).delay_fits(),
                        forall|j: int|
                            0 <= j < i ==> (#[trigger] out@[j]).action_type == a@[j].action_type.raw()
                                && out@[j].delay as nat == a@[j].delay@ / (NANOS_PER_MILLI as nat),
                    decreases a@.len() - i,
                {
                    out.push(a[i].to_raw());
                    i = i + 1;
                }
                Some(out)
            },
        };
        Ok(
            RawServiceFailureActions {
                reset_period: self.reset_period.to_raw(),
                reboot_msg,
                command,
                actions,
            },
        )
    }
}

/// The description of a service, used to create or reconfigure it.
#[derive(Debug, Clone, PartialEq, Eq, Hash)]
pub struct ServiceInfo {
    /// Service name.
    pub name: Vec<u16>,
    /// User-friendly service name.
    pub display_name: Vec<u16>,
    /// The service type.
    pub service_type: ServiceType,
    /// When the service is started.
    pub start_type: ServiceStartType,
    /// How severe a failure of the service to start is.
    pub error_control: ServiceErrorControl,
    /// Path to the service binary.
    pub executable_path: Vec<u16>,
    /// Arguments passed to the binary when the system starts the service; drivers take none.
    pub launch_arguments: Vec<Vec<u16>>,
    /// Service dependencies.
    pub dependencies: Vec<ServiceDependency>,
    /// Account the service runs as; `None` runs it as the system account.
    pub account_name: Option<Vec<u16>>,
    /// Password of the account.
    pub account_password: Option<Vec<u16>>,
}

/// The fields of a service description as the service control manager takes them.
#[derive(Debug, Clone, PartialEq, Eq, Hash)]
pub struct RawServiceInfo {
    /// Service name, nul-terminated.
    pub name: Vec<u16>,
    /// Display name, nul-terminated.
    pub display_name: Vec<u16>,
    pub service_type: u32,
    pub start_type: u32,
    pub error_control: u32,
    /// Path to the binary with its arguments appended, nul-terminated.
    pub launch_command: Vec<u16>,
    /// Dependency identifiers in the multi-string form; `None` for no dependency.
    pub dependencies: Option<Vec<u16>>,
    /// Account name, nul-terminated.
    pub account_name: Option<Vec<u16>>,
    /// Account password, nul-terminated.
    pub account_password: Option<Vec<u16>>,
}

/// What makes a service description unusable, in the order the checks are made.
#[derive(Debug, Clone, Copy, PartialEq, Eq, Hash)]
pub enum ServiceInfoFault {
    LaunchArgumentsNotSupported,
    ServiceName,
    DisplayName,
    AccountName,
    AccountPassword,
    ExecutablePath,
    LaunchArgument,
    Dependency,
}

/// The service type holds the kernel-driver or the file-system-driver flag, the two lowest
/// bits: a driver takes no launch arguments.
pub open spec fn is_driver(t: ServiceType) -> bool {
    t.bits % 4 != 0
}

/// Every string of `s` is nul-free.
pub open spec fn all_nul_free(s: Seq<Seq<u16>>) -> bool {
    forall|i: int| 0 <= i < s.len() ==> is_nul_free(#[trigger] s[i])
}

/// The escaped path followed by each escaped argument, separated by spaces.
pub open spec fn command_line(path: Seq<u16>, args: Seq<Seq<u16>>) -> Seq<u16>
    decreases args.len(),
{
    if args.len() == 0 {
        escaped(path)
    } else {
        command_line(path, args.drop_last()) + seq![SPACE] + escaped(args.last())
    }
}

/// The identifiers of the dependencies.
pub open spec fn identifiers(deps: Seq<ServiceDependency>) -> Seq<Seq<u16>> {
    deps.map_values(|d: ServiceDependency| d.identifier())
}

/// The fault that an error of `RawServiceInfo::new` reports.
pub open spec fn fault_of(e: Error) -> Option<ServiceInfoFault> {
    match e {
        Error::LaunchArgumentsNotSupported => Some(ServiceInfoFault::LaunchArgumentsNotSupported),
        Error::InvalidServiceName(_) => Some(ServiceInfoFault::ServiceName),
        Error::InvalidDisplayName(_) => Some(ServiceInfoFault::DisplayName),
        Error::InvalidAccountName(_) => Some(ServiceInfoFault::AccountName),
        Error::InvalidAccountPassword(_) => Some(ServiceInfoFault::AccountPassword),
        Error::InvalidExecutablePath(_) => Some(ServiceInfoFault::ExecutablePath),
        Error::InvalidLaunchArgument(_, _) => Some(ServiceInfoFault::LaunchArgument),
        Error::InvalidDependency(_) => Some(ServiceInfoFault::Dependency),
        _ => None,
    }
}

impl ServiceInfo {
    /// The command the service is launched with: a driver's path as it is, since a driver's
    /// path is never quoted; else the escaped path and the escaped arguments.
    pub open spec fn launch_command(&self) -> Seq<u16> {
        if is_driver(self.service_type) {
            self.executable_path@
        } else {
            command_line(self.executable_path@, units_of(self.launch_arguments@))
        }
    }

    /// The first fault of the description, if any.
    pub open spec fn fault(&self) -> Option<ServiceInfoFault> {
        if is_driver(self.service_type) && self.launch_arguments@.len() > 0 {
            Some(ServiceInfoFault::LaunchArgumentsNotSupported)
        } else if !is_nul_free(self.name@) {
            Some(ServiceInfoFault::ServiceName)
        } else if !is_nul_free(self.display_name@) {
            Some(ServiceInfoFault::DisplayName)
        } else if !opt_nul_free(self.account_name) {
            Some(ServiceInfoFault::AccountName)
        } else if !opt_nul_free(self.account_password) {
            Some(ServiceInfoFault::AccountPassword)
        } else if !is_nul_free(self.executable_path@) {
            Some(ServiceInfoFault::ExecutablePath)
        } else if !is_driver(self.service_type) && !all_nul_free(units_of(self.launch_arguments@)) {
            Some(ServiceInfoFault::LaunchArgument)
        } else if !all_nul_free(identifiers(self.dependencies@)) {
            Some(ServiceInfoFault::Dependency)
        } else {
            None
        }
    }
}

proof fn lemma_command_line_push(path: Seq<u16>, args: Seq<Seq<u16>>, i: int)
    requires
        0 <= i < args.len(),
    ensures
        command_line(path, args.subrange(0, i + 1)) == command_line(path, args.subrange(0, i))
            + seq![SPACE] + escaped(args[i]),
{
    let a = args.subrange(0, i + 1);
    assert(a.drop_last() =~= args.subrange(0, i));
}

proof fn lemma_command_line_nul_free(path: Seq<u16>, args: Seq<Seq<u16>>)
    requires
        is_nul_free(path),
        all_nul_free(args),
    ensures
        is_nul_free(command_line(path, args)),
    decreases args.len(),
{
    lemma_escaped_nul_free(path);
    if args.len() > 0 {
        let front = args.drop_last();
        assert(all_nul_free(front)) by {
            assert forall|i: int| 0 <= i < front.len() implies is_nul_free(#[trigger] front[i]) by {
                assert(front[i] == args[i]);
            }
        }
        lemma_command_line_nul_free(path, front);
        assert(is_nul_free(args[args.len() - 1]));
        lemma_escaped_nul_free(args.last());
        let c = command_line(path, args);
        let a = command_line(path, front);
        let b = escaped(args.last());
        assert forall|j: int| 0 <= j < c.len() implies c[j] != 0 by {
            if j < a.len() {
                assert(c[j] == a[j]);
            } else if j > a.len() {
                assert(c[j] == b[j - a.len() - 1]);
            }
        }
    }
}

impl RawServiceInfo {
    /// Checks a service description and puts it in the form the service control manager takes.
    ///
    /// A driver with launch arguments is refused first; then each string that holds a nul is
    /// an error, in this order: name, display name, account name, account password, executable
    /// path, launch arguments (the first one, by index), dependencies. The launch command is
    /// the escaped path and arguments, or a driver's path as it is; no dependency gives no
    /// dependency buffer.
    pub fn new(info: &ServiceInfo) -> (r: Result<RawServiceInfo, Error>)
        ensures
            match r {
                Ok(raw) => {
                    &&& info.fault() is None
                    &&& raw.name@ == info.name@.push(0u16)
                    &&& raw.display_name@ == info.display_name@.push(0u16)
                    &&& raw.service_type == info.service_type.bits
                    &&& raw.start_type == info.start_type.raw()
                    &&& raw.error_control == info.error_control.raw()
                    &&& is_nul_free(info.launch_command())
                    &&& raw.launch_command@ == info.launch_command().push(0u16)
                    &&& opt_units(raw.dependencies) == joined(
                        identifiers(info.dependencies@),
                    )
                    &&& opt_units(raw.account_name) == terminated(
                        opt_units(info.account_name),
                    )
                    &&& opt_units(raw.account_password) == terminated(
                        opt_units(info.account_password),
                    )
                },
                Err(e) => {
                    &&& info.fault() is Some
                    &&& fault_of(e) == info.fault()
                    &&& e matches Error::InvalidLaunchArgument(i, _) ==> first_with_nul(
                        units_of(info.launch_arguments@),
                        i as int,
                    )
                },
            },
    {
        let driver = info.service_type.bits % 4 != 0;
        if driver && info.launch_arguments.len() > 0 {
            return Err(Error::LaunchArgumentsNotSupported);
        }
        let name = match to_wide_cstring(info.name.as_slice()) {
            Ok(w) => w,
            Err(e) => return Err(Error::InvalidServiceName(e)),
        };
        let display_name = match to_wide_cstring(info.display_name.as_slice()) {
            Ok(w) => w,
            Err(e) => return Err(Error::InvalidDisplayName(e)),
        };
        let account_name = match to_optional_wide_cstring(&info.account_name) {
            Ok(w) => w,
            Err(e) => return Err(Error::InvalidAccountName(e)),
        };
        let account_password = match to_optional_wide_cstring(&info.account_password) {
            Ok(w) => w,
            Err(e) => return Err(Error::InvalidAccountPassword(e)),
        };
        let checked_path = match to_wide_cstring(info.executable_path.as_slice()) {
            Ok(w) => w,
            Err(e) => return Err(Error::InvalidExecutablePath(e)),
        };
        let ghost args = units_of(info.launch_arguments@);
        let launch_command = if driver {
            checked_path
        } else {
            let mut cmd = escape(info.executable_path.as_slice());
            let mut i: usize = 0;
            assert(args.subrange(0, 0) =~= Seq::<Seq<u16>>::empty());
            while i < info.launch_arguments.len()
                invariant
                    i <= args.len(),
                    args == units_of(info.launch_arguments@),
                    !driver,
                    driver == is_driver(info.service_type),
                    is_nul_free(info.name@),
                    is_nul_free(info.display_name@),
                    opt_nul_free(info.account_name),
                    opt_nul_free(info.account_password),
                    is_nul_free(info.executable_path@),
                    cmd@ == command_line(info.executable_path@, args.subrange(0, i as int)),
                    forall|j: int| 0 <= j < i ==> is_nul_free(#[trigger] args[j]),
                decreases args.len() - i,
            {
                let arg = &info.launch_arguments[i];
                assert(arg@ == args[i as int]);
                let k = find_nul(arg.as_slice());
                proof {
                    lemma_nul_index(arg@);
                }
                if k < arg.len() {
                    proof {
                        assert(first_with_nul(args, i as int));
                    }
                    return Err(Error::InvalidLaunchArgument(i, NulError(k, Some(copy_units(arg.as_slice())))));
                }
                cmd.push(SPACE);
                let escaped_arg = escape(arg.as_slice());
                append_units(&mut cmd, escaped_arg.as_slice());
                proof {
                    lemma_command_line_push(info.executable_path@, args, i as int);
                    assert(cmd@ =~= command_line(info.executable_path@, args.subrange(0, i as int))
                        + seq![SPACE] + escaped(args[i as int]));
                }
                i = i + 1;
            }
            proof {
                assert(args.subrange(0, i as int) =~= args);
                lemma_command_line_nul_free(info.executable_path@, args);
            }
            cmd.push(0u16);
            cmd
        };
        let ghost ids = identifiers(info.dependencies@);
        let mut identifier_list: Vec<Vec<u16>> = Vec::new();
        let mut d: usize = 0;
        while d < info.dependencies.len()
            invariant
                d <= info.dependencies@.len(),
                ids == identifiers(info.dependencies@),
                units_of(identifier_list@) == ids.subrange(0, d as int),
            decreases info.dependencies@.len() - d,
        {
            let id = info.dependencies[d].to_system_identifier();
            let ghost before = identifier_list@;
            assert(ids[d as int] == info.dependencies@[d as int].identifier());
            identifier_list.push(id);
            assert(identifier_list@ == before.push(id));
            assert(units_of(identifier_list@) =~= units_of(before).push(id@));
            assert(units_of(identifier_list@) =~= ids.subrange(0, d + 1));
            d = d + 1;
        }
        assert(ids.subrange(0, d as int) =~= ids);
        let dependencies = match from_slice(identifier_list.as_slice()) {
            Ok(w) => w,
            Err(e) => {
                proof {
                    assert(!all_nul_free(ids)) by {
                        let i = choose|i: int|
                            0 <= i < identifier_list@.len() && !is_nul_free(
                                #[trigger] identifier_list@[i]@,
                            );
                        assert(ids[i] == identifier_list@[i]@);
                    }
                }
                return Err(Error::InvalidDependency(e));
            },
        };
        proof {
            assert forall|i: int| 0 <= i < ids.len() implies is_nul_free(#[trigger] ids[i]) by {
                assert(ids[i] == identifier_list@[i]@);
            }
            assert(identifier_list@.len() == 0 ==> ids.len() == 0);
        }
        Ok(
            RawServiceInfo {
                name,
                display_name,
                service_type: info.service_type.bits,
                start_type: info.start_type.to_raw(),
                error_control: info.error_control.to_raw(),
                launch_command,
                dependencies,
                account_name,
                account_password,
            },
        )
    }
}

/// The configuration of a service, as read back from the service control manager.
#[derive(Debug, Clone, PartialEq, Eq, Hash)]
pub struct ServiceConfig {
    /// The service type.
    pub service_type: ServiceType,
    /// When the service is started.
    pub start_type: ServiceStartType,
    /// How severe a failure of the service to start is.
    pub error_control: ServiceErrorControl,
    /// Path to the service binary, with its arguments.
    pub executable_path: Vec<u16>,
    /// The load ordering group the service belongs to, if any.
    pub load_order_group: Option<Vec<u16>>,
    /// The tag of the service within its load ordering group.
    pub tag_id: u32,
    /// Service dependencies.
    pub dependencies: Vec<ServiceDependency>,
    /// The account the service runs as; it may be absent.
    pub account_name: Option<Vec<u16>>,
    /// User-friendly service name.
    pub display_name: Vec<u16>,
}

/// The configuration record read back from the service control manager. Each string holds the
/// units from where its field points to the end of the record, and an optional one is `None`
/// for a null field.
#[derive(Debug, Clone, PartialEq, Eq, Hash)]
pub struct RawServiceConfig {
    pub service_type: u32,
    pub start_type: u32,
    pub error_control: u32,
    pub binary_path_name: Vec<u16>,
    pub load_order_group: Option<Vec<u16>>,
    pub tag_id: u32,
    /// The dependencies in the multi-string form.
    pub dependencies: Option<Vec<u16>>,
    pub service_start_name: Option<Vec<u16>>,
    pub display_name: Vec<u16>,
}

/// The units of an optional buffer; a missing one is empty.
pub open spec fn buffer_units(o: Option<Vec<u16>>) -> Seq<u16> {
    match o {
        Some(v) => v@,
        None => Seq::empty(),
    }
}

/// The dependencies `deps` are the ones that the identifiers `ids` name, in order.
pub open spec fn dependencies_of(ids: Seq<Seq<u16>>, deps: Seq<ServiceDependency>) -> bool {
    deps.len() == ids.len() && forall|i: int|
        0 <= i < deps.len() ==> ((#[trigger] deps[i]).is_group(), deps[i].name())
            == dependency_of_identifier(ids[i])
}

impl ServiceConfig {
    /// Decodes a configuration record.
    ///
    /// An unknown start type, then an unknown error control, is an error that carries the raw
    /// value. An empty or missing load ordering group or account name is absent. The
    /// dependencies are read from the multi-string form, a missing buffer holding none.
    pub fn from_raw(raw: &RawServiceConfig) -> (r: Result<ServiceConfig, Error>)
        ensures
            match r {
                Ok(c) => {
                    &&& c.service_type.bits == raw.service_type & ServiceType::ALL_BITS
                    &&& c.start_type.raw() == raw.start_type
                    &&& c.error_control.raw() == raw.error_control
                    &&& c.executable_path@ == text_at(raw.binary_path_name@)
                    &&& opt_units(c.load_order_group) == optional_text(
                        opt_units(raw.load_order_group),
                    )
                    &&& c.tag_id == raw.tag_id
                    &&& dependencies_of(split(buffer_units(raw.dependencies)), c.dependencies@)
                    &&& opt_units(c.account_name) == optional_text(
                        opt_units(raw.service_start_name),
                    )
                    &&& c.display_name@ == text_at(raw.display_name@)
                },
                Err(e) => if ServiceStartType::decode(raw.start_type) is None {
                    e == Error::InvalidServiceStartType(
                        ParseRawError::InvalidInteger(raw.start_type),
                    )
                } else {
                    ServiceErrorControl::decode(raw.error_control) is None && e
                        == Error::InvalidServiceErrorControl(
                        ParseRawError::InvalidInteger(raw.error_control),
                    )
                },
            },
            r is Ok <==> ServiceStartType::decode(raw.start_type) is Some
                && ServiceErrorControl::decode(raw.error_control) is Some,
    {
        let start_type = match ServiceStartType::from_raw(raw.start_type) {
            Ok(t) => t,
            Err(e) => return Err(Error::InvalidServiceStartType(e)),
        };
        let error_control = match ServiceErrorControl::from_raw(raw.error_control) {
            Ok(c) => c,
            Err(e) => return Err(Error::InvalidServiceErrorControl(e)),
        };
        let identifiers = match raw.dependencies {
            Some(ref buf) => parse_str_ptr(buf.as_slice()),
            None => {
                assert(units_of(Seq::<Vec<u16>>::empty()) =~= split(Seq::<u16>::empty()));
                Vec::new()
            },
        };
        let ghost ids = split(buffer_units(raw.dependencies));
        let mut dependencies: Vec<ServiceDependency> = Vec::new();
        let mut i: usize = 0;
        while i < identifiers.len()
            invariant
                i <= identifiers@.len(),
                units_of(identifiers@) == ids,
                dependencies_of(ids.subrange(0, i as int), dependencies@),
            decreases identifiers@.len() - i,
        {
            let d = ServiceDependency::from_system_identifier(identifiers[i].as_slice());
            assert(ids[i as int] == identifiers@[i as int]@);
            dependencies.push(d);
            i = i + 1;
            assert(dependencies_of(ids.subrange(0, i as int), dependencies@)) by {
                let s = ids.subrange(0, i as int);
                assert forall|j: int| 0 <= j < dependencies@.len() implies ((
                #[trigger] dependencies@[j]).is_group(), dependencies@[j].name())
                    == dependency_of_identifier(s[j]) by {
                    if j < i - 1 {
                        assert(s[j] == ids.subrange(0, i - 1)[j]);
                    }
                }
            }
        }
        assert(ids.subrange(0, i as int) =~= ids);
        Ok(
            ServiceConfig {
                service_type: ServiceType::from_bits_truncate(raw.service_type),
                start_type,
                error_control,
                executable_path: read_wide_cstr(raw.binary_path_name.as_slice()),
                load_order_group: read_optional_text(&raw.load_order_group),
                tag_id: raw.tag_id,
                dependencies,
                account_name: read_optional_text(&raw.service_start_name),
                display_name: read_wide_cstr(raw.display_name.as_slice()),
            },
        )
    }
}

} // verus!
