//! Control events delivered to a service, and the payloads that some of them carry.
use vstd::prelude::*;

use crate::record::{guid_at, guid_string, guid_text, le_i32_at, le_u32_at, read_guid, read_i32, read_u32};
use crate::service::ParseRawError;

verus! {

/// Power setting: the power source changed.
pub const GUID_ACDC_POWER_SOURCE: u128 = 0x5d3e9a59_e9d5_4b00_a6bd_ff34ff516548;

/// Power setting: the remaining battery capacity changed.
pub const GUID_BATTERY_PERCENTAGE_REMAINING: u128 = 0xa7ad8041_b45a_4cae_87a3_eecbb468a9e1;

/// Power setting: the state of the console display changed.
pub const GUID_CONSOLE_DISPLAY_STATE: u128 = 0x6fe69556_704a_47a0_8f24_c28d936fda47;

/// Power setting: the user presence across all sessions changed.
pub const GUID_GLOBAL_USER_PRESENCE: u128 = 0x786e8a1d_b427_4344_9207_09e70bdcbea9;

/// Power setting: the system is idle enough for background tasks.
pub const GUID_IDLE_BACKGROUND_TASK: u128 = 0x515c31d8_f734_163d_a0fd_11a08c91e8f1;

/// Power setting: the primary monitor was turned on or off.
pub const GUID_MONITOR_POWER_ON: u128 = 0x02731015_4510_4526_99e6_e5a17ebd1aea;

/// Power setting: battery saver was turned on or off.
pub const GUID_POWER_SAVING_STATUS: u128 = 0xe00958c0_c213_4ace_ac77_fecced2eeea5;

/// Power setting: the active power scheme personality changed.
pub const GUID_POWERSCHEME_PERSONALITY: u128 = 0x245d8541_3943_4422_b025_13a784f679b7;

/// Power setting: the system entered or left away mode.
pub const GUID_SYSTEM_AWAYMODE: u128 = 0x98a7f580_01f7_48aa_9c0f_44352c29e5c0;

/// Power scheme personality: high performance.
pub const GUID_MIN_POWER_SAVINGS: u128 = 0x8c5e7fda_e8bf_4a96_9a85_a6e23a8c635c;

/// Power scheme personality: power saver.
pub const GUID_MAX_POWER_SAVINGS: u128 = 0xa1841308_3541_4fab_bc81_f71556f20b4a;

/// Power scheme personality: automatic.
pub const GUID_TYPICAL_POWER_SAVINGS: u128 = 0x381b4222_f694_41f0_9685_ff5bb260df2e;

/// The size of the fixed part of a power setting record: the setting's GUID and the length of
/// its data.
pub const POWER_SETTING_HEADER_LEN: usize = 20;

/// The size of a session notification record.
pub const SESSION_NOTIFICATION_LEN: usize = 8;

/// `r` is the error for a GUID that no known identifier has.
pub open spec fn is_guid_error<T>(r: Result<T, ParseRawError>, g: nat) -> bool {
    r matches Err(ParseRawError::InvalidGuid(s)) && s@ == guid_text(g)
}

/// The event type of a hardware profile change.
#[derive(Debug, Clone, Copy, PartialEq, Eq, Hash)]
pub enum HardwareProfileChangeParam {
    ConfigChanged,
    QueryChangeConfig,
    ConfigChangeCanceled,
}

impl HardwareProfileChangeParam {
    /// The wire value of each variant.
    pub open spec fn raw(self) -> u32 {
        match self {
            HardwareProfileChangeParam::ConfigChanged => 24,
            HardwareProfileChangeParam::QueryChangeConfig => 23,
            HardwareProfileChangeParam::ConfigChangeCanceled => 25,
        }
    }

    /// The variant that a wire value stands for, if any.
    pub open spec fn decode(raw: u32) -> Option<HardwareProfileChangeParam> {
        if raw == 24 {
            Some(HardwareProfileChangeParam::ConfigChanged)
        } else if raw == 23 {
            Some(HardwareProfileChangeParam::QueryChangeConfig)
        } else if raw == 25 {
            Some(HardwareProfileChangeParam::ConfigChangeCanceled)
        } else {
            None
        }
    }

    /// The wire value of this variant.
    pub fn to_raw(&self) -> (r: u32)
        ensures
            r == self.raw(),
    {
        match *self {
            HardwareProfileChangeParam::ConfigChanged => 24,
            HardwareProfileChangeParam::QueryChangeConfig => 23,
            HardwareProfileChangeParam::ConfigChangeCanceled => 25,
        }
    }

    /// Decodes a wire value; a value that no variant has is an error that carries it.
    pub fn from_raw(raw: u32) -> (r: Result<HardwareProfileChangeParam, ParseRawError>)
        ensures
            r == match HardwareProfileChangeParam::decode(raw) {
                Some(v) => Ok(v),
                None => Err(ParseRawError::InvalidInteger(raw)),
            },
            match r {
                Ok(v) => v.raw() == raw,
                Err(_) => forall|v: HardwareProfileChangeParam| v.raw() != raw,
            },
            (forall|v: HardwareProfileChangeParam| v.raw() != raw) ==> r == Err::<HardwareProfileChangeParam, ParseRawError>(
                ParseRawError::InvalidInteger(raw),
            ),
    {
        let r = if raw == 24 {
            Ok(HardwareProfileChangeParam::ConfigChanged)
        } else if raw == 23 {
            Ok(HardwareProfileChangeParam::QueryChangeConfig)
        } else if raw == 25 {
            Ok(HardwareProfileChangeParam::ConfigChangeCanceled)
        } else {
            Err(ParseRawError::InvalidInteger(raw))
        };
        proof {
            if let Ok(v) = r {
                assert(v.raw() == raw);
            }
        }
        r
    }
}

/// The current power source, as reported by a power source notification.
#[derive(Debug, Clone, Copy, PartialEq, Eq, Hash)]
pub enum PowerSource {
    Ac,
    Dc,
    Hot,
}

impl PowerSource {
    /// The wire value of each variant.
    pub open spec fn raw(self) -> i32 {
        match self {
            PowerSource::Ac => 0,
            PowerSource::Dc => 1,
            PowerSource::Hot => 2,
        }
    }

    /// The variant that a wire value stands for, if any.
    pub open spec fn decode(raw: i32) -> Option<PowerSource> {
        if raw == 0 {
            Some(PowerSource::Ac)
        } else if raw == 1 {
            Some(PowerSource::Dc)
        } else if raw == 2 {
            Some(PowerSource::Hot)
        } else {
            None
        }
    }

    /// The wire value of this variant.
    pub fn to_raw(&self) -> (r: i32)
        ensures
            r == self.raw(),
    {
        match *self {
            PowerSource::Ac => 0,
            PowerSource::Dc => 1,
            PowerSource::Hot => 2,
        }
    }

    /// Decodes a wire value; a value that no variant has is an error that carries it.
    pub fn from_raw(raw: i32) -> (r: Result<PowerSource, ParseRawError>)
        ensures
            r == match PowerSource::decode(raw) {
                Some(v) => Ok(v),
                None => Err(ParseRawError::InvalidIntegerSigned(raw)),
            },
            match r {
                Ok(v) => v.raw() == raw,
                Err(_) => forall|v: PowerSource| v.raw() != raw,
            },
            (forall|v: PowerSource| v.raw() != raw) ==> r == Err::<PowerSource, ParseRawError>(
                ParseRawError::InvalidIntegerSigned(raw),
            ),
    {
        let r = if raw == 0 {
            Ok(PowerSource::Ac)
        } else if raw == 1 {
            Ok(PowerSource::Dc)
        } else if raw == 2 {
            Ok(PowerSource::Hot)
        } else {
            Err(ParseRawError::InvalidIntegerSigned(raw))
        };
        proof {
            if let Ok(v) = r {
                assert(v.raw() == raw);
            }
        }
        r
    }
}

/// The state of the console display, as reported by a display state notification.
#[derive(Debug, Clone, Copy, PartialEq, Eq, Hash)]
pub enum DisplayState {
    Off,
    On,
    Dimmed,
}

impl DisplayState {
    /// The wire value of each variant.
    pub open spec fn raw(self) -> i32 {
        match self {
            DisplayState::Off => 0,
            DisplayState::On => 1,
            DisplayState::Dimmed => 2,
        }
    }

    /// The variant that a wire value stands for, if any.
    pub open spec fn decode(raw: i32) -> Option<DisplayState> {
        if raw == 0 {
            Some(DisplayState::Off)
        } else if raw == 1 {
            Some(DisplayState::On)
        } else if raw == 2 {
            Some(DisplayState::Dimmed)
        } else {
            None
        }
    }

    /// The wire value of this variant.
    pub fn to_raw(&self) -> (r: i32)
        ensures
            r == self.raw(),
    {
        match *self {
            DisplayState::Off => 0,
            DisplayState::On => 1,
            DisplayState::Dimmed => 2,
        }
    }

    /// Decodes a wire value; a value that no variant has is an error that carries it.
    pub fn from_raw(raw: i32) -> (r: Result<DisplayState, ParseRawError>)
        ensures
            r == match DisplayState::decode(raw) {
                Some(v) => Ok(v),
                None => Err(ParseRawError::InvalidIntegerSigned(raw)),
            },
            match r {
                Ok(v) => v.raw() == raw,
                Err(_) => forall|v: DisplayState| v.raw() != raw,
            },
            (forall|v: DisplayState| v.raw() != raw) ==> r == Err::<DisplayState, ParseRawError>(
                ParseRawError::InvalidIntegerSigned(raw),
            ),
    {
        let r = if raw == 0 {
            Ok(DisplayState::Off)
        } else if raw == 1 {
            Ok(DisplayState::On)
        } else if raw == 2 {
            Ok(DisplayState::Dimmed)
        } else {
            Err(ParseRawError::InvalidIntegerSigned(raw))
        };
        proof {
            if let Ok(v) = r {
                assert(v.raw() == raw);
            }
        }
        r
    }
}

/// The user presence across all local and remote sessions.
#[derive(Debug, Clone, Copy, PartialEq, Eq, Hash)]
pub enum UserStatus {
    Present,
    Inactive,
}

impl UserStatus {
    /// The wire value of each variant.
    pub open spec fn raw(self) -> i32 {
        match self {
            UserStatus::Present => 0,
            UserStatus::Inactive => 2,
        }
    }

    /// The variant that a wire value stands for, if any.
    pub open spec fn decode(raw: i32) -> Option<UserStatus> {
        if raw == 0 {
            Some(UserStatus::Present)
        } else if raw == 2 {
            Some(UserStatus::Inactive)
        } else {
            None
        }
    }

    /// The wire value of this variant.
    pub fn to_raw(&self) -> (r: i32)
        ensures
            r == self.raw(),
    {
        match *self {
            UserStatus::Present => 0,
            UserStatus::Inactive => 2,
        }
    }

    /// Decodes a wire value; a value that no variant has is an error that carries it.
    pub fn from_raw(raw: i32) -> (r: Result<UserStatus, ParseRawError>)
        ensures
            r == match UserStatus::decode(raw) {
                Some(v) => Ok(v),
                None => Err(ParseRawError::InvalidIntegerSigned(raw)),
            },
            match r {
                Ok(v) => v.raw() == raw,
                Err(_) => forall|v: UserStatus| v.raw() != raw,
            },
            (forall|v: UserStatus| v.raw() != raw) ==> r == Err::<UserStatus, ParseRawError>(
                ParseRawError::InvalidIntegerSigned(raw),
            ),
    {
        let r = if raw == 0 {
            Ok(UserStatus::Present)
        } else if raw == 2 {
            Ok(UserStatus::Inactive)
        } else {
            Err(ParseRawError::InvalidIntegerSigned(raw))
        };
        proof {
            if let Ok(v) = r {
                assert(v.raw() == raw);
            }
        }
        r
    }
}

/// The state of the primary monitor.
#[derive(Debug, Clone, Copy, PartialEq, Eq, Hash)]
pub enum MonitorState {
    Off,
    On,
}

impl MonitorState {
    /// The wire value of each variant.
    pub open spec fn raw(self) -> u32 {
        match self {
            MonitorState::Off => 0,
            MonitorState::On => 1,
        }
    }

    /// The variant that a wire value stands for, if any.
    pub open spec fn decode(raw: u32) -> Option<MonitorState> {
        if raw == 0 {
            Some(MonitorState::Off)
        } else if raw == 1 {
            Some(MonitorState::On)
        } else {
            None
        }
    }

    /// The wire value of this variant.
    pub fn to_raw(&self) -> (r: u32)
        ensures
            r == self.raw(),
    {
        match *self {
            MonitorState::Off => 0,
            MonitorState::On => 1,
        }
    }

    /// Decodes a wire value; a value that no variant has is an error that carries it.
    pub fn from_raw(raw: u32) -> (r: Result<MonitorState, ParseRawError>)
        ensures
            r == match MonitorState::decode(raw) {
                Some(v) => Ok(v),
                None => Err(ParseRawError::InvalidInteger(raw)),
            },
            match r {
                Ok(v) => v.raw() == raw,
                Err(_) => forall|v: MonitorState| v.raw() != raw,
            },
            (forall|v: MonitorState| v.raw() != raw) ==> r == Err::<MonitorState, ParseRawError>(
                ParseRawError::InvalidInteger(raw),
            ),
    {
        let r = if raw == 0 {
            Ok(MonitorState::Off)
        } else if raw == 1 {
            Ok(MonitorState::On)
        } else {
            Err(ParseRawError::InvalidInteger(raw))
        };
        proof {
            if let Ok(v) = r {
                assert(v.raw() == raw);
            }
        }
        r
    }
}

/// The state of battery saver.
#[derive(Debug, Clone, Copy, PartialEq, Eq, Hash)]
pub enum BatterySaverState {
    Off,
    On,
}

impl BatterySaverState {
    /// The wire value of each variant.
    pub open spec fn raw(self) -> u32 {
        match self {
            BatterySaverState::Off => 0,
            BatterySaverState::On => 1,
        }
    }

    /// The variant that a wire value stands for, if any.
    pub open spec fn decode(raw: u32) -> Option<BatterySaverState> {
        if raw == 0 {
            Some(BatterySaverState::Off)
        } else if raw == 1 {
            Some(BatterySaverState::On)
        } else {
            None
        }
    }

    /// The wire value of this variant.
    pub fn to_raw(&self) -> (r: u32)
        ensures
            r == self.raw(),
    {
        match *self {
            BatterySaverState::Off => 0,
            BatterySaverState::On => 1,
        }
    }

    /// Decodes a wire value; a value that no variant has is an error that carries it.
    pub fn from_raw(raw: u32) -> (r: Result<BatterySaverState, ParseRawError>)
        ensures
            r == match BatterySaverState::decode(raw) {
                Some(v) => Ok(v),
                None => Err(ParseRawError::InvalidInteger(raw)),
            },
            match r {
                Ok(v) => v.raw() == raw,
                Err(_) => forall|v: BatterySaverState| v.raw() != raw,
            },
            (forall|v: BatterySaverState| v.raw() != raw) ==> r == Err::<BatterySaverState, ParseRawError>(
                ParseRawError::InvalidInteger(raw),
            ),
    {
        let r = if raw == 0 {
            Ok(BatterySaverState::Off)
        } else if raw == 1 {
            Ok(BatterySaverState::On)
        } else {
            Err(ParseRawError::InvalidInteger(raw))
        };
        proof {
            if let Ok(v) = r {
                assert(v.raw() == raw);
            }
        }
        r
    }
}

/// The state of away mode.
#[derive(Debug, Clone, Copy, PartialEq, Eq, Hash)]
pub enum AwayModeState {
    Exiting,
    Entering,
}

impl AwayModeState {
    /// The wire value of each variant.
    pub open spec fn raw(self) -> u32 {
        match self {
            AwayModeState::Exiting => 0,
            AwayModeState::Entering => 1,
        }
    }

    /// The variant that a wire value stands for, if any.
    pub open spec fn decode(raw: u32) -> Option<AwayModeState> {
        if raw == 0 {
            Some(AwayModeState::Exiting)
        } else if raw == 1 {
            Some(AwayModeState::Entering)
        } else {
            None
        }
    }

    /// The wire value of this variant.
    pub fn to_raw(&self) -> (r: u32)
        ensures
            r == self.raw(),
    {
        match *self {
            AwayModeState::Exiting => 0,
            AwayModeState::Entering => 1,
        }
    }

    /// Decodes a wire value; a value that no variant has is an error that carries it.
    pub fn from_raw(raw: u32) -> (r: Result<AwayModeState, ParseRawError>)
        ensures
            r == match AwayModeState::decode(raw) {
                Some(v) => Ok(v),
                None => Err(ParseRawError::InvalidInteger(raw)),
            },
            match r {
                Ok(v) => v.raw() == raw,
                Err(_) => forall|v: AwayModeState| v.raw() != raw,
            },
            (forall|v: AwayModeState| v.raw() != raw) ==> r == Err::<AwayModeState, ParseRawError>(
                ParseRawError::InvalidInteger(raw),
            ),
    {
        let r = if raw == 0 {
            Ok(AwayModeState::Exiting)
        } else if raw == 1 {
            Ok(AwayModeState::Entering)
        } else {
            Err(ParseRawError::InvalidInteger(raw))
        };
        proof {
            if let Ok(v) = r {
                assert(v.raw() == raw);
            }
        }
        r
    }
}

/// The reason of a session change event.
#[derive(Debug, Clone, Copy, PartialEq, Eq, Hash)]
pub enum SessionChangeReason {
    ConsoleConnect,
    ConsoleDisconnect,
    RemoteConnect,
    RemoteDisconnect,
    SessionLogon,
    SessionLogoff,
    SessionLock,
    SessionUnlock,
    SessionRemoteControl,
    SessionCreate,
    SessionTerminate,
}

impl SessionChangeReason {
    /// The wire value of each variant.
    pub open spec fn raw(self) -> u32 {
        match self {
            SessionChangeReason::ConsoleConnect => 1,
            SessionChangeReason::ConsoleDisconnect => 2,
            SessionChangeReason::RemoteConnect => 3,
            SessionChangeReason::RemoteDisconnect => 4,
            SessionChangeReason::SessionLogon => 5,
            SessionChangeReason::SessionLogoff => 6,
            SessionChangeReason::SessionLock => 7,
            SessionChangeReason::SessionUnlock => 8,
            SessionChangeReason::SessionRemoteControl => 9,
            SessionChangeReason::SessionCreate => 10,
            SessionChangeReason::SessionTerminate => 11,
        }
    }

    /// The variant that a wire value stands for, if any.
    pub open spec fn decode(raw: u32) -> Option<SessionChangeReason> {
        if raw == 1 {
            Some(SessionChangeReason::ConsoleConnect)
        } else if raw == 2 {
            Some(SessionChangeReason::ConsoleDisconnect)
        } else if raw == 3 {
            Some(SessionChangeReason::RemoteConnect)
        } else if raw == 4 {
            Some(SessionChangeReason::RemoteDisconnect)
        } else if raw == 5 {
            Some(SessionChangeReason::SessionLogon)
        } else if raw == 6 {
            Some(SessionChangeReason::SessionLogoff)
        } else if raw == 7 {
            Some(SessionChangeReason::SessionLock)
        } else if raw == 8 {
            Some(SessionChangeReason::SessionUnlock)
        } else if raw == 9 {
            Some(SessionChangeReason::SessionRemoteControl)
        } else if raw == 10 {
            Some(SessionChangeReason::SessionCreate)
        } else if raw == 11 {
            Some(SessionChangeReason::SessionTerminate)
        } else {
            None
        }
    }

    /// The wire value of this variant.
    pub fn to_raw(&self) -> (r: u32)
        ensures
            r == self.raw(),
    {
        match *self {
            SessionChangeReason::ConsoleConnect => 1,
            SessionChangeReason::ConsoleDisconnect => 2,
            SessionChangeReason::RemoteConnect => 3,
            SessionChangeReason::RemoteDisconnect => 4,
            SessionChangeReason::SessionLogon => 5,
            SessionChangeReason::SessionLogoff => 6,
            SessionChangeReason::SessionLock => 7,
            SessionChangeReason::SessionUnlock => 8,
            SessionChangeReason::SessionRemoteControl => 9,
            SessionChangeReason::SessionCreate => 10,
            SessionChangeReason::SessionTerminate => 11,
        }
    }

    /// Decodes a wire value; a value that no variant has is an error that carries it.
    pub fn from_raw(raw: u32) -> (r: Result<SessionChangeReason, ParseRawError>)
        ensures
            r == match SessionChangeReason::decode(raw) {
                Some(v) => Ok(v),
                None => Err(ParseRawError::InvalidInteger(raw)),
            },
            match r {
                Ok(v) => v.raw() == raw,
                Err(_) => forall|v: SessionChangeReason| v.raw() != raw,
            },
            (forall|v: SessionChangeReason| v.raw() != raw) ==> r == Err::<SessionChangeReason, ParseRawError>(
                ParseRawError::InvalidInteger(raw),
            ),
    {
        let r = if raw == 1 {
            Ok(SessionChangeReason::ConsoleConnect)
        } else if raw == 2 {
            Ok(SessionChangeReason::ConsoleDisconnect)
        } else if raw == 3 {
            Ok(SessionChangeReason::RemoteConnect)
        } else if raw == 4 {
            Ok(SessionChangeReason::RemoteDisconnect)
        } else if raw == 5 {
            Ok(SessionChangeReason::SessionLogon)
        } else if raw == 6 {
            Ok(SessionChangeReason::SessionLogoff)
        } else if raw == 7 {
            Ok(SessionChangeReason::SessionLock)
        } else if raw == 8 {
            Ok(SessionChangeReason::SessionUnlock)
        } else if raw == 9 {
            Ok(SessionChangeReason::SessionRemoteControl)
        } else if raw == 10 {
            Ok(SessionChangeReason::SessionCreate)
        } else if raw == 11 {
            Ok(SessionChangeReason::SessionTerminate)
        } else {
            Err(ParseRawError::InvalidInteger(raw))
        };
        proof {
            if let Ok(v) = r {
                assert(v.raw() == raw);
            }
        }
        r
    }
}

/// The power scheme personality, as reported by a power scheme notification.
#[derive(Debug, Clone, Copy, PartialEq, Eq, Hash)]
pub enum PowerSchemePersonality {
    HighPerformance,
    PowerSaver,
    Automatic,
}

impl PowerSchemePersonality {
    /// The personality that a GUID stands for, if any.
    pub open spec fn decode(g: nat) -> Option<PowerSchemePersonality> {
        if g == GUID_MIN_POWER_SAVINGS as nat {
            Some(PowerSchemePersonality::HighPerformance)
        } else if g == GUID_MAX_POWER_SAVINGS as nat {
            Some(PowerSchemePersonality::PowerSaver)
        } else if g == GUID_TYPICAL_POWER_SAVINGS as nat {
            Some(PowerSchemePersonality::Automatic)
        } else {
            None
        }
    }

    /// Decodes a personality GUID; an unknown GUID is an error that carries its text.
    pub fn from_guid(guid: u128) -> (r: Result<PowerSchemePersonality, ParseRawError>)
        ensures
            match PowerSchemePersonality::decode(guid as nat) {
                Some(p) => r == Ok::<PowerSchemePersonality, ParseRawError>(p),
                None => is_guid_error(r, guid as nat),
            },
    {
        if guid == GUID_MIN_POWER_SAVINGS {
            Ok(PowerSchemePersonality::HighPerformance)
        } else if guid == GUID_MAX_POWER_SAVINGS {
            Ok(PowerSchemePersonality::PowerSaver)
        } else if guid == GUID_TYPICAL_POWER_SAVINGS {
            Ok(PowerSchemePersonality::Automatic)
        } else {
            Err(ParseRawError::InvalidGuid(guid_string(guid)))
        }
    }
}

/// A power setting change, decoded from a power setting record.
#[derive(Debug, Clone, Copy, PartialEq, Eq, Hash)]
pub enum PowerBroadcastSetting {
    AcdcPowerSource(PowerSource),
    BatteryPercentageRemaining(u32),
    ConsoleDisplayState(DisplayState),
    GlobalUserPresence(UserStatus),
    IdleBackgroundTask,
    MonitorPowerOn(MonitorState),
    PowerSavingStatus(BatterySaverState),
    PowerSchemePersonality(PowerSchemePersonality),
    SystemAwayMode(AwayModeState),
}

/// The data of a power setting record holds at least `need` bytes, by its length field and by
/// what is there.
pub open spec fn setting_data_fits(raw: Seq<u8>, need: nat) -> bool {
    le_u32_at(raw, 16) >= need && raw.len() >= POWER_SETTING_HEADER_LEN + need
}

impl PowerBroadcastSetting {
    /// `r` is the decoding of the power setting record `raw`: a GUID, the length of the data
    /// and the data. The GUID selects the kind of setting and how its data is read; an unknown
    /// GUID, an unknown value and data too short for its kind are errors.
    pub open spec fn decoded(raw: Seq<u8>, r: Result<PowerBroadcastSetting, ParseRawError>) -> bool {
        if raw.len() < POWER_SETTING_HEADER_LEN {
            r == Err::<PowerBroadcastSetting, ParseRawError>(
                ParseRawError::InvalidDataLength(raw.len() as u32),
            )
        } else {
            let g = guid_at(raw, 0);
            let short = Err::<PowerBroadcastSetting, ParseRawError>(
                ParseRawError::InvalidDataLength(le_u32_at(raw, 16) as u32),
            );
            let int_value = le_i32_at(raw, 20) as i32;
            let uint_value = le_u32_at(raw, 20) as u32;
            if g == GUID_ACDC_POWER_SOURCE as nat {
                if !setting_data_fits(raw, 4) {
                    r == short
                } else {
                    r == match PowerSource::decode(int_value) {
                        Some(v) => Ok(PowerBroadcastSetting::AcdcPowerSource(v)),
                        None => Err(ParseRawError::InvalidIntegerSigned(int_value)),
                    }
                }
            } else if g == GUID_BATTERY_PERCENTAGE_REMAINING as nat {
                if !setting_data_fits(raw, 4) {
                    r == short
                } else {
                    r == Ok::<PowerBroadcastSetting, ParseRawError>(
                        PowerBroadcastSetting::BatteryPercentageRemaining(uint_value),
                    )
                }
            } else if g == GUID_CONSOLE_DISPLAY_STATE as nat {
                if !setting_data_fits(raw, 4) {
                    r == short
                } else {
                    r == match DisplayState::decode(int_value) {
                        Some(v) => Ok(PowerBroadcastSetting::ConsoleDisplayState(v)),
                        None => Err(ParseRawError::InvalidIntegerSigned(int_value)),
                    }
                }
            } else if g == GUID_GLOBAL_USER_PRESENCE as nat {
                if !setting_data_fits(raw, 4) {
                    r == short
                } else {
                    r == match UserStatus::decode(int_value) {
                        Some(v) => Ok(PowerBroadcastSetting::GlobalUserPresence(v)),
                        None => Err(ParseRawError::InvalidIntegerSigned(int_value)),
                    }
                }
            } else if g == GUID_IDLE_BACKGROUND_TASK as nat {
                r == Ok::<PowerBroadcastSetting, ParseRawError>(
                    PowerBroadcastSetting::IdleBackgroundTask,
                )
            } else if g == GUID_MONITOR_POWER_ON as nat {
                if !setting_data_fits(raw, 4) {
                    r == short
                } else {
                    r == match MonitorState::decode(uint_value) {
                        Some(v) => Ok(PowerBroadcastSetting::MonitorPowerOn(v)),
                        None => Err(ParseRawError::InvalidInteger(uint_value)),
                    }
                }
            } else if g == GUID_POWER_SAVING_STATUS as nat {
                if !setting_data_fits(raw, 4) {
                    r == short
                } else {
                    r == match BatterySaverState::decode(uint_value) {
                        Some(v) => Ok(PowerBroadcastSetting::PowerSavingStatus(v)),
                        None => Err(ParseRawError::InvalidInteger(uint_value)),
                    }
                }
            } else if g == GUID_POWERSCHEME_PERSONALITY as nat {
                if !setting_data_fits(raw, 16) {
                    r == short
                } else {
                    match PowerSchemePersonality::decode(guid_at(raw, 20)) {
                        Some(v) => r == Ok::<PowerBroadcastSetting, ParseRawError>(
                            PowerBroadcastSetting::PowerSchemePersonality(v),
                        ),
                        None => is_guid_error(r, guid_at(raw, 20)),
                    }
                }
            } else if g == GUID_SYSTEM_AWAYMODE as nat {
                if !setting_data_fits(raw, 4) {
                    r == short
                } else {
                    r == match AwayModeState::decode(uint_value) {
                        Some(v) => Ok(PowerBroadcastSetting::SystemAwayMode(v)),
                        None => Err(ParseRawError::InvalidInteger(uint_value)),
                    }
                }
            } else {
                is_guid_error(r, g)
            }
        }
    }

    /// Decodes a power setting record: a 16-byte GUID, the length of the data as a
    /// little-endian `u32`, and the data.
    pub fn from_raw(raw: &[u8]) -> (r: Result<PowerBroadcastSetting, ParseRawError>)
        ensures
            PowerBroadcastSetting::decoded(raw@, r),
    {
        let n = raw.len();
        if n < POWER_SETTING_HEADER_LEN {
            return Err(ParseRawError::InvalidDataLength(n as u32));
        }
        let g = read_guid(raw, 0);
        let len = read_u32(raw, 16);
        let fits4 = len >= 4 && n >= POWER_SETTING_HEADER_LEN + 4;
        if g == GUID_ACDC_POWER_SOURCE {
            if !fits4 {
                return Err(ParseRawError::InvalidDataLength(len));
            }
            match PowerSource::from_raw(read_i32(raw, 20)) {
                Ok(v) => Ok(PowerBroadcastSetting::AcdcPowerSource(v)),
                Err(e) => Err(e),
            }
        } else if g == GUID_BATTERY_PERCENTAGE_REMAINING {
            if !fits4 {
                return Err(ParseRawError::InvalidDataLength(len));
            }
            Ok(PowerBroadcastSetting::BatteryPercentageRemaining(read_u32(raw, 20)))
        } else if g == GUID_CONSOLE_DISPLAY_STATE {
            if !fits4 {
                return Err(ParseRawError::InvalidDataLength(len));
            }
            match DisplayState::from_raw(read_i32(raw, 20)) {
                Ok(v) => Ok(PowerBroadcastSetting::ConsoleDisplayState(v)),
                Err(e) => Err(e),
            }
        } else if g == GUID_GLOBAL_USER_PRESENCE {
            if !fits4 {
                return Err(ParseRawError::InvalidDataLength(len));
            }
            match UserStatus::from_raw(read_i32(raw, 20)) {
                Ok(v) => Ok(PowerBroadcastSetting::GlobalUserPresence(v)),
                Err(e) => Err(e),
            }
        } else if g == GUID_IDLE_BACKGROUND_TASK {
            Ok(PowerBroadcastSetting::IdleBackgroundTask)
        } else if g == GUID_MONITOR_POWER_ON {
            if !fits4 {
                return Err(ParseRawError::InvalidDataLength(len));
            }
            match MonitorState::from_raw(read_u32(raw, 20)) {
                Ok(v) => Ok(PowerBroadcastSetting::MonitorPowerOn(v)),
                Err(e) => Err(e),
            }
        } else if g == GUID_POWER_SAVING_STATUS {
            if !fits4 {
                return Err(ParseRawError::InvalidDataLength(len));
            }
            match BatterySaverState::from_raw(read_u32(raw, 20)) {
                Ok(v) => Ok(PowerBroadcastSetting::PowerSavingStatus(v)),
                Err(e) => Err(e),
            }
        } else if g == GUID_POWERSCHEME_PERSONALITY {
            if len < 16 || n < POWER_SETTING_HEADER_LEN + 16 {
                return Err(ParseRawError::InvalidDataLength(len));
            }
            match PowerSchemePersonality::from_guid(read_guid(raw, 20)) {
                Ok(v) => Ok(PowerBroadcastSetting::PowerSchemePersonality(v)),
                Err(e) => Err(e),
            }
        } else if g == GUID_SYSTEM_AWAYMODE {
            if !fits4 {
                return Err(ParseRawError::InvalidDataLength(len));
            }
            match AwayModeState::from_raw(read_u32(raw, 20)) {
                Ok(v) => Ok(PowerBroadcastSetting::SystemAwayMode(v)),
                Err(e) => Err(e),
            }
        } else {
            Err(ParseRawError::InvalidGuid(guid_string(g)))
        }
    }
}

/// A power event.
#[derive(Debug, Clone, Copy, PartialEq, Eq, Hash)]
pub enum PowerEventParam {
    PowerStatusChange,
    ResumeAutomatic,
    ResumeSuspend,
    Suspend,
    PowerSettingChange(PowerBroadcastSetting),
    BatteryLow,
    OemEvent,
    QuerySuspend,
    QuerySuspendFailed,
    ResumeCritical,
}

/// The event type of a power setting change.
pub const PBT_POWERSETTINGCHANGE: u32 = 32787;

impl PowerEventParam {
    /// `r` is the decoding of a power event of type `event_type` with the payload `data`; only
    /// a power setting change reads its payload.
    pub open spec fn decoded(
        event_type: u32,
        data: Seq<u8>,
        r: Result<PowerEventParam, ParseRawError>,
    ) -> bool {
        if event_type == PBT_POWERSETTINGCHANGE {
            match r {
                Ok(PowerEventParam::PowerSettingChange(s)) => PowerBroadcastSetting::decoded(
                    data,
                    Ok(s),
                ),
                Ok(_) => false,
                Err(e) => PowerBroadcastSetting::decoded(data, Err(e)),
            }
        } else {
            r == if event_type == 10 {
                Ok::<PowerEventParam, ParseRawError>(PowerEventParam::PowerStatusChange)
            } else if event_type == 18 {
                Ok(PowerEventParam::ResumeAutomatic)
            } else if event_type == 7 {
                Ok(PowerEventParam::ResumeSuspend)
            } else if event_type == 4 {
                Ok(PowerEventParam::Suspend)
            } else if event_type == 9 {
                Ok(PowerEventParam::BatteryLow)
            } else if event_type == 11 {
                Ok(PowerEventParam::OemEvent)
            } else if event_type == 0 {
                Ok(PowerEventParam::QuerySuspend)
            } else if event_type == 2 {
                Ok(PowerEventParam::QuerySuspendFailed)
            } else if event_type == 6 {
                Ok(PowerEventParam::ResumeCritical)
            } else {
                Err(ParseRawError::InvalidInteger(event_type))
            }
        }
    }

    /// Decodes a power event from its type and payload.
    pub fn from_event(event_type: u32, event_data: &[u8]) -> (r: Result<
        PowerEventParam,
        ParseRawError,
    >)
        ensures
            PowerEventParam::decoded(event_type, event_data@, r),
    {
        if event_type == PBT_POWERSETTINGCHANGE {
            match PowerBroadcastSetting::from_raw(event_data) {
                Ok(s) => Ok(PowerEventParam::PowerSettingChange(s)),
                Err(e) => Err(e),
            }
        } else if event_type == 10 {
            Ok(PowerEventParam::PowerStatusChange)
        } else if event_type == 18 {
            Ok(PowerEventParam::ResumeAutomatic)
        } else if event_type == 7 {
            Ok(PowerEventParam::ResumeSuspend)
        } else if event_type == 4 {
            Ok(PowerEventParam::Suspend)
        } else if event_type == 9 {
            Ok(PowerEventParam::BatteryLow)
        } else if event_type == 11 {
            Ok(PowerEventParam::OemEvent)
        } else if event_type == 0 {
            Ok(PowerEventParam::QuerySuspend)
        } else if event_type == 2 {
            Ok(PowerEventParam::QuerySuspendFailed)
        } else if event_type == 6 {
            Ok(PowerEventParam::ResumeCritical)
        } else {
            Err(ParseRawError::InvalidInteger(event_type))
        }
    }
}

/// A session notification: the size of the record and the id of the session.
#[derive(Debug, Clone, Copy, PartialEq, Eq, Hash)]
pub struct SessionNotification {
    pub size: u32,
    pub session_id: u32,
}

impl SessionNotification {
    /// Decodes a session notification record: two little-endian `u32`s, the size and the
    /// session id. A shorter record is an error that carries its length.
    pub fn from_raw(raw: &[u8]) -> (r: Result<SessionNotification, ParseRawError>)
        ensures
            raw@.len() < SESSION_NOTIFICATION_LEN ==> r == Err::<SessionNotification, ParseRawError>(
                ParseRawError::InvalidDataLength(raw@.len() as u32),
            ),
            raw@.len() >= SESSION_NOTIFICATION_LEN ==> r == Ok::<SessionNotification, ParseRawError>(
                SessionNotification {
                    size: le_u32_at(raw@, 0) as u32,
                    session_id: le_u32_at(raw@, 4) as u32,
                },
            ),
    {
        let n = raw.len();
        if n < SESSION_NOTIFICATION_LEN {
            return Err(ParseRawError::InvalidDataLength(n as u32));
        }
        Ok(SessionNotification { size: read_u32(raw, 0), session_id: read_u32(raw, 4) })
    }
}

/// A session change event: its reason and the session notification.
#[derive(Debug, Clone, Copy, PartialEq, Eq, Hash)]
pub struct SessionChangeParam {
    pub reason: SessionChangeReason,
    pub notification: SessionNotification,
}

impl SessionChangeParam {
    /// `r` is the decoding of a session change event: the reason from the event type, then the
    /// notification from the payload.
    pub open spec fn decoded(
        event_type: u32,
        data: Seq<u8>,
        r: Result<SessionChangeParam, ParseRawError>,
    ) -> bool {
        match SessionChangeReason::decode(event_type) {
            None => r == Err::<SessionChangeParam, ParseRawError>(
                ParseRawError::InvalidInteger(event_type),
            ),
            Some(reason) => if data.len() < SESSION_NOTIFICATION_LEN {
                r == Err::<SessionChangeParam, ParseRawError>(
                    ParseRawError::InvalidDataLength(data.len() as u32),
                )
            } else {
                r == Ok::<SessionChangeParam, ParseRawError>(
                    SessionChangeParam {
                        reason,
                        notification: SessionNotification {
                            size: le_u32_at(data, 0) as u32,
                            session_id: le_u32_at(data, 4) as u32,
                        },
                    },
                )
            },
        }
    }

    /// Decodes a session change event from its type and payload.
    pub fn from_event(event_type: u32, event_data: &[u8]) -> (r: Result<
        SessionChangeParam,
        ParseRawError,
    >)
        ensures
            SessionChangeParam::decoded(event_type, event_data@, r),
    {
        let reason = match SessionChangeReason::from_raw(event_type) {
            Ok(reason) => reason,
            Err(e) => return Err(e),
        };
        let notification = match SessionNotification::from_raw(event_data) {
            Ok(n) => n,
            Err(e) => return Err(e),
        };
        Ok(SessionChangeParam { reason, notification })
    }
}

/// A control event delivered to a service.
#[derive(Debug, Clone, Copy, PartialEq, Eq, Hash)]
pub enum ServiceControl {
    Continue,
    Interrogate,
    NetBindAdd,
    NetBindDisable,
    NetBindEnable,
    NetBindRemove,
    ParamChange,
    Pause,
    Preshutdown,
    Shutdown,
    Stop,
    HardwareProfileChange(HardwareProfileChangeParam),
    PowerEvent(PowerEventParam),
    SessionChange(SessionChangeParam),
    TimeChange,
    TriggerEvent,
}

/// The control code of a hardware profile change.
pub const SERVICE_CONTROL_HARDWAREPROFILECHANGE: u32 = 12;

/// The control code of a power event.
pub const SERVICE_CONTROL_POWEREVENT: u32 = 13;

/// The control code of a session change.
pub const SERVICE_CONTROL_SESSIONCHANGE: u32 = 14;

/// How the payload of a control event is laid out, which decides what of it must be read.
#[derive(Debug, Clone, Copy, PartialEq, Eq, Hash)]
pub enum EventDataLayout {
    /// The event carries no payload that is read.
    Empty,
    /// A power setting record: a GUID, a `u32` length, then that many bytes of data.
    PowerSetting,
    /// A session notification record.
    SessionNotification,
}

/// The layout of the payload of a control event with this code and event type.
pub open spec fn layout_for(control: u32, event_type: u32) -> EventDataLayout {
    if control == SERVICE_CONTROL_POWEREVENT && event_type == PBT_POWERSETTINGCHANGE {
        EventDataLayout::PowerSetting
    } else if control == SERVICE_CONTROL_SESSIONCHANGE {
        EventDataLayout::SessionNotification
    } else {
        EventDataLayout::Empty
    }
}

/// Tells how the payload of a control event is laid out, so that the receiver knows which
/// bytes to hand to `ServiceControl::from_raw`.
pub fn event_data_layout(control: u32, event_type: u32) -> (r: EventDataLayout)
    ensures
        r == layout_for(control, event_type),
{
    if control == SERVICE_CONTROL_POWEREVENT && event_type == PBT_POWERSETTINGCHANGE {
        EventDataLayout::PowerSetting
    } else if control == SERVICE_CONTROL_SESSIONCHANGE {
        EventDataLayout::SessionNotification
    } else {
        EventDataLayout::Empty
    }
}

impl ServiceControl {
    /// The control code of each control event.
    pub open spec fn raw_type(self) -> u32 {
        match self {
            ServiceControl::Continue => 3,
            ServiceControl::Interrogate => 4,
            ServiceControl::NetBindAdd => 7,
            ServiceControl::NetBindDisable => 10,
            ServiceControl::NetBindEnable => 9,
            ServiceControl::NetBindRemove => 8,
            ServiceControl::ParamChange => 6,
            ServiceControl::Pause => 2,
            ServiceControl::Preshutdown => 15,
            ServiceControl::Shutdown => 5,
            ServiceControl::Stop => 1,
            ServiceControl::HardwareProfileChange(_) => SERVICE_CONTROL_HARDWAREPROFILECHANGE,
            ServiceControl::PowerEvent(_) => SERVICE_CONTROL_POWEREVENT,
            ServiceControl::SessionChange(_) => SERVICE_CONTROL_SESSIONCHANGE,
            ServiceControl::TimeChange => 16,
            ServiceControl::TriggerEvent => 32,
        }
    }

    /// The control events that end the service's life: stop, shutdown and preshutdown.
    pub open spec fn is_terminal(self) -> bool {
        match self {
            ServiceControl::Stop | ServiceControl::Shutdown | ServiceControl::Preshutdown => true,
            _ => false,
        }
    }

    /// `r` is the decoding of a control code, an event type and a payload: the code selects
    /// the event, and the events that carry a parameter decode it from the event type and the
    /// payload.
    pub open spec fn decoded(
        raw: u32,
        event_type: u32,
        data: Seq<u8>,
        r: Result<ServiceControl, ParseRawError>,
    ) -> bool {
        if raw == SERVICE_CONTROL_HARDWAREPROFILECHANGE {
            r == match HardwareProfileChangeParam::decode(event_type) {
                Some(p) => Ok(ServiceControl::HardwareProfileChange(p)),
                None => Err(ParseRawError::InvalidInteger(event_type)),
            }
        } else if raw == SERVICE_CONTROL_POWEREVENT {
            match r {
                Ok(ServiceControl::PowerEvent(p)) => PowerEventParam::decoded(
                    event_type,
                    data,
                    Ok(p),
                ),
                Ok(_) => false,
                Err(e) => PowerEventParam::decoded(event_type, data, Err(e)),
            }
        } else if raw == SERVICE_CONTROL_SESSIONCHANGE {
            match r {
                Ok(ServiceControl::SessionChange(p)) => SessionChangeParam::decoded(
                    event_type,
                    data,
                    Ok(p),
                ),
                Ok(_) => false,
                Err(e) => SessionChangeParam::decoded(event_type, data, Err(e)),
            }
        } else {
            r == if raw == 3 {
                Ok::<ServiceControl, ParseRawError>(ServiceControl::Continue)
            } else if raw == 4 {
                Ok(ServiceControl::Interrogate)
            } else if raw == 7 {
                Ok(ServiceControl::NetBindAdd)
            } else if raw == 10 {
                Ok(ServiceControl::NetBindDisable)
            } else if raw == 9 {
                Ok(ServiceControl::NetBindEnable)
            } else if raw == 8 {
                Ok(ServiceControl::NetBindRemove)
            } else if raw == 6 {
                Ok(ServiceControl::ParamChange)
            } else if raw == 2 {
                Ok(ServiceControl::Pause)
            } else if raw == 15 {
                Ok(ServiceControl::Preshutdown)
            } else if raw == 5 {
                Ok(ServiceControl::Shutdown)
            } else if raw == 1 {
                Ok(ServiceControl::Stop)
            } else if raw == 16 {
                Ok(ServiceControl::TimeChange)
            } else if raw == 32 {
                Ok(ServiceControl::TriggerEvent)
            } else {
                Err(ParseRawError::InvalidInteger(raw))
            }
        }
    }

    /// Decodes a control event from its control code, event type and payload; the payload is
    /// laid out as `event_data_layout` says.
    pub fn from_raw(raw: u32, event_type: u32, event_data: &[u8]) -> (r: Result<
        ServiceControl,
        ParseRawError,
    >)
        ensures
            ServiceControl::decoded(raw, event_type, event_data@, r),
    {
        if raw == SERVICE_CONTROL_HARDWAREPROFILECHANGE {
            match HardwareProfileChangeParam::from_raw(event_type) {
                Ok(p) => Ok(ServiceControl::HardwareProfileChange(p)),
                Err(e) => Err(e),
            }
        } else if raw == SERVICE_CONTROL_POWEREVENT {
            match PowerEventParam::from_event(event_type, event_data) {
                Ok(p) => Ok(ServiceControl::PowerEvent(p)),
                Err(e) => Err(e),
            }
        } else if raw == SERVICE_CONTROL_SESSIONCHANGE {
            match SessionChangeParam::from_event(event_type, event_data) {
                Ok(p) => Ok(ServiceControl::SessionChange(p)),
                Err(e) => Err(e),
            }
        } else if raw == 3 {
            Ok(ServiceControl::Continue)
        } else if raw == 4 {
            Ok(ServiceControl::Interrogate)
        } else if raw == 7 {
            Ok(ServiceControl::NetBindAdd)
        } else if raw == 10 {
            Ok(ServiceControl::NetBindDisable)
        } else if raw == 9 {
            Ok(ServiceControl::NetBindEnable)
        } else if raw == 8 {
            Ok(ServiceControl::NetBindRemove)
        } else if raw == 6 {
            Ok(ServiceControl::ParamChange)
        } else if raw == 2 {
            Ok(ServiceControl::Pause)
        } else if raw == 15 {
            Ok(ServiceControl::Preshutdown)
        } else if raw == 5 {
            Ok(ServiceControl::Shutdown)
        } else if raw == 1 {
            Ok(ServiceControl::Stop)
        } else if raw == 16 {
            Ok(ServiceControl::TimeChange)
        } else if raw == 32 {
            Ok(ServiceControl::TriggerEvent)
        } else {
            Err(ParseRawError::InvalidInteger(raw))
        }
    }

    /// The control code of this control event.
    pub fn raw_service_control_type(&self) -> (r: u32)
        ensures
            r == self.raw_type(),
    {
        match self {
            ServiceControl::Continue => 3,
            ServiceControl::Interrogate => 4,
            ServiceControl::NetBindAdd => 7,
            ServiceControl::NetBindDisable => 10,
            ServiceControl::NetBindEnable => 9,
            ServiceControl::NetBindRemove => 8,
            ServiceControl::ParamChange => 6,
            ServiceControl::Pause => 2,
            ServiceControl::Preshutdown => 15,
            ServiceControl::Shutdown => 5,
            ServiceControl::Stop => 1,
            ServiceControl::HardwareProfileChange(_) => SERVICE_CONTROL_HARDWAREPROFILECHANGE,
            ServiceControl::PowerEvent(_) => SERVICE_CONTROL_POWEREVENT,
            ServiceControl::SessionChange(_) => SERVICE_CONTROL_SESSIONCHANGE,
            ServiceControl::TimeChange => 16,
            ServiceControl::TriggerEvent => 32,
        }
    }

    /// Tells whether this control event ends the service's life.
    pub fn is_terminal_control(&self) -> (r: bool)
        ensures
            r == self.is_terminal(),
    {
        match self {
            ServiceControl::Stop | ServiceControl::Shutdown | ServiceControl::Preshutdown => true,
            _ => false,
        }
    }
}

} // verus!
