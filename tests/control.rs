use windows_service::control::{
    event_data_layout, AwayModeState, BatterySaverState, DisplayState, EventDataLayout,
    HardwareProfileChangeParam, MonitorState, PowerBroadcastSetting, PowerEventParam,
    PowerSchemePersonality, PowerSource, ServiceControl, SessionChangeParam, SessionChangeReason,
    SessionNotification, UserStatus, GUID_ACDC_POWER_SOURCE, GUID_BATTERY_PERCENTAGE_REMAINING,
    GUID_IDLE_BACKGROUND_TASK, GUID_MAX_POWER_SAVINGS, GUID_MIN_POWER_SAVINGS,
    GUID_POWERSCHEME_PERSONALITY, GUID_SYSTEM_AWAYMODE, GUID_TYPICAL_POWER_SAVINGS,
};
use windows_service::record::guid_string;
use windows_service::service::ParseRawError;

fn guid_bytes(g: u128) -> Vec<u8> {
    let mut b = Vec::new();
    b.extend_from_slice(&((g >> 96) as u32).to_le_bytes());
    b.extend_from_slice(&((g >> 80) as u16).to_le_bytes());
    b.extend_from_slice(&((g >> 64) as u16).to_le_bytes());
    b.extend_from_slice(&(g as u64).to_be_bytes());
    b
}

fn setting(g: u128, data: &[u8]) -> Vec<u8> {
    let mut b = guid_bytes(g);
    b.extend_from_slice(&(data.len() as u32).to_le_bytes());
    b.extend_from_slice(data);
    b
}

#[test]
fn simple_controls_decode() {
    assert_eq!(ServiceControl::from_raw(1, 0, &[]).unwrap(), ServiceControl::Stop);
    assert_eq!(ServiceControl::from_raw(2, 0, &[]).unwrap(), ServiceControl::Pause);
    assert_eq!(ServiceControl::from_raw(3, 0, &[]).unwrap(), ServiceControl::Continue);
    assert_eq!(ServiceControl::from_raw(4, 0, &[]).unwrap(), ServiceControl::Interrogate);
    assert_eq!(ServiceControl::from_raw(5, 0, &[]).unwrap(), ServiceControl::Shutdown);
    assert_eq!(ServiceControl::from_raw(15, 0, &[]).unwrap(), ServiceControl::Preshutdown);
    assert_eq!(ServiceControl::from_raw(16, 0, &[]).unwrap(), ServiceControl::TimeChange);
    assert_eq!(ServiceControl::from_raw(32, 0, &[]).unwrap(), ServiceControl::TriggerEvent);
}

#[test]
fn unknown_control_code_is_an_error() {
    assert_eq!(ServiceControl::from_raw(99, 0, &[]).unwrap_err(), ParseRawError::InvalidInteger(99));
    assert_eq!(ServiceControl::from_raw(0, 0, &[]).unwrap_err(), ParseRawError::InvalidInteger(0));
}

#[test]
fn control_codes_round_trip() {
    for code in [1u32, 2, 3, 4, 5, 6, 7, 8, 9, 10, 15, 16, 32] {
        let c = ServiceControl::from_raw(code, 0, &[]).unwrap();
        assert_eq!(c.raw_service_control_type(), code);
    }
}

#[test]
fn hardware_profile_change_decodes_event_type() {
    assert_eq!(
        ServiceControl::from_raw(12, 24, &[]).unwrap(),
        ServiceControl::HardwareProfileChange(HardwareProfileChangeParam::ConfigChanged)
    );
    assert_eq!(ServiceControl::from_raw(12, 1, &[]).unwrap_err(), ParseRawError::InvalidInteger(1));
    assert_eq!(HardwareProfileChangeParam::QueryChangeConfig.to_raw(), 23);
}

#[test]
fn power_events_decode() {
    assert_eq!(PowerEventParam::from_event(4, &[]).unwrap(), PowerEventParam::Suspend);
    assert_eq!(PowerEventParam::from_event(10, &[]).unwrap(), PowerEventParam::PowerStatusChange);
    assert_eq!(PowerEventParam::from_event(3, &[]).unwrap_err(), ParseRawError::InvalidInteger(3));
    let raw = setting(GUID_ACDC_POWER_SOURCE, &1i32.to_le_bytes());
    assert_eq!(
        ServiceControl::from_raw(13, 32787, &raw).unwrap(),
        ServiceControl::PowerEvent(PowerEventParam::PowerSettingChange(
            PowerBroadcastSetting::AcdcPowerSource(PowerSource::Dc)
        ))
    );
}

#[test]
fn power_settings_decode() {
    let raw = setting(GUID_BATTERY_PERCENTAGE_REMAINING, &57u32.to_le_bytes());
    assert_eq!(
        PowerBroadcastSetting::from_raw(&raw).unwrap(),
        PowerBroadcastSetting::BatteryPercentageRemaining(57)
    );
    let raw = setting(GUID_SYSTEM_AWAYMODE, &1u32.to_le_bytes());
    assert_eq!(
        PowerBroadcastSetting::from_raw(&raw).unwrap(),
        PowerBroadcastSetting::SystemAwayMode(AwayModeState::Entering)
    );
    let raw = setting(GUID_IDLE_BACKGROUND_TASK, &[]);
    assert_eq!(PowerBroadcastSetting::from_raw(&raw).unwrap(), PowerBroadcastSetting::IdleBackgroundTask);
    let raw = setting(GUID_POWERSCHEME_PERSONALITY, &guid_bytes(GUID_MAX_POWER_SAVINGS));
    assert_eq!(
        PowerBroadcastSetting::from_raw(&raw).unwrap(),
        PowerBroadcastSetting::PowerSchemePersonality(PowerSchemePersonality::PowerSaver)
    );
}

#[test]
fn power_setting_errors() {
    let raw = setting(GUID_ACDC_POWER_SOURCE, &7i32.to_le_bytes());
    assert_eq!(PowerBroadcastSetting::from_raw(&raw).unwrap_err(), ParseRawError::InvalidIntegerSigned(7));
    let raw = setting(GUID_ACDC_POWER_SOURCE, &[1, 0]);
    assert_eq!(PowerBroadcastSetting::from_raw(&raw).unwrap_err(), ParseRawError::InvalidDataLength(2));
    assert_eq!(PowerBroadcastSetting::from_raw(&[0u8; 10]).unwrap_err(), ParseRawError::InvalidDataLength(10));
    let unknown: u128 = 0x01234567_89ab_cdef_0011_223344556677;
    let raw = setting(unknown, &[]);
    assert_eq!(
        PowerBroadcastSetting::from_raw(&raw).unwrap_err(),
        ParseRawError::InvalidGuid("01234567-89AB-CDEF-0011-223344556677".to_string())
    );
}

#[test]
fn guid_text_is_zero_padded() {
    assert_eq!(guid_string(0x02731015_4510_4526_99e6_e5a17ebd1aea), "02731015-4510-4526-99E6-E5A17EBD1AEA");
    assert_eq!(guid_string(0), "00000000-0000-0000-0000-000000000000");
}

#[test]
fn power_scheme_personality_from_guid() {
    assert_eq!(PowerSchemePersonality::from_guid(GUID_MIN_POWER_SAVINGS).unwrap(), PowerSchemePersonality::HighPerformance);
    assert_eq!(PowerSchemePersonality::from_guid(GUID_TYPICAL_POWER_SAVINGS).unwrap(), PowerSchemePersonality::Automatic);
    assert_eq!(
        PowerSchemePersonality::from_guid(GUID_ACDC_POWER_SOURCE).unwrap_err(),
        ParseRawError::InvalidGuid("5D3E9A59-E9D5-4B00-A6BD-FF34FF516548".to_string())
    );
}

#[test]
fn small_enums_round_trip() {
    assert_eq!(MonitorState::from_raw(1).unwrap(), MonitorState::On);
    assert_eq!(MonitorState::from_raw(2).unwrap_err(), ParseRawError::InvalidInteger(2));
    assert_eq!(BatterySaverState::from_raw(0).unwrap(), BatterySaverState::Off);
    assert_eq!(BatterySaverState::On.to_raw(), 1);
    assert_eq!(AwayModeState::Exiting.to_raw(), 0);
    assert_eq!(DisplayState::from_raw(2).unwrap(), DisplayState::Dimmed);
    assert_eq!(UserStatus::from_raw(1).unwrap_err(), ParseRawError::InvalidIntegerSigned(1));
    assert_eq!(UserStatus::Inactive.to_raw(), 2);
    assert_eq!(PowerSource::from_raw(-1).unwrap_err(), ParseRawError::InvalidIntegerSigned(-1));
}

#[test]
fn session_change_decodes() {
    let mut data = Vec::new();
    data.extend_from_slice(&8u32.to_le_bytes());
    data.extend_from_slice(&3u32.to_le_bytes());
    assert_eq!(
        ServiceControl::from_raw(14, 7, &data).unwrap(),
        ServiceControl::SessionChange(SessionChangeParam {
            reason: SessionChangeReason::SessionLock,
            notification: SessionNotification { size: 8, session_id: 3 },
        })
    );
    assert_eq!(SessionChangeParam::from_event(12, &data).unwrap_err(), ParseRawError::InvalidInteger(12));
    assert_eq!(SessionChangeParam::from_event(1, &data[..4]).unwrap_err(), ParseRawError::InvalidDataLength(4));
    assert_eq!(SessionChangeReason::SessionTerminate.to_raw(), 11);
}

#[test]
fn event_data_layouts() {
    assert_eq!(event_data_layout(13, 32787), EventDataLayout::PowerSetting);
    assert_eq!(event_data_layout(13, 4), EventDataLayout::Empty);
    assert_eq!(event_data_layout(14, 5), EventDataLayout::SessionNotification);
    assert_eq!(event_data_layout(1, 0), EventDataLayout::Empty);
}
