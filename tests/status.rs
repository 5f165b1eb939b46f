use windows_service::duration::Duration;
use windows_service::service::{
    ParseRawError, RawServiceStatus, RawServiceStatusProcess, ServiceControlAccept,
    ServiceExitCode, ServiceState, ServiceStatus, ServiceType,
};

fn raw_process(state: u32) -> RawServiceStatusProcess {
    RawServiceStatusProcess {
        service_type: 0x10,
        current_state: state,
        controls_accepted: 0x1,
        win32_exit_code: 0,
        service_specific_exit_code: 0,
        check_point: 0,
        wait_hint: 0,
        process_id: 4242,
        service_flags: 0,
    }
}

#[test]
fn service_state_raw_values() {
    assert_eq!(ServiceState::Stopped.to_raw(), 1);
    assert_eq!(ServiceState::Running.to_raw(), 4);
    assert_eq!(ServiceState::Paused.to_raw(), 7);
    assert_eq!(ServiceState::from_raw(3).unwrap(), ServiceState::StopPending);
}

#[test]
fn service_state_rejects_unknown_values() {
    for raw in [0u32, 8, 100, u32::MAX] {
        assert_eq!(ServiceState::from_raw(raw).unwrap_err(), ParseRawError::InvalidInteger(raw));
    }
}

#[test]
fn exit_code_round_trip() {
    for x in [0u32, 5, 1065, 1067, u32::MAX] {
        let (a, b) = ServiceExitCode::Win32(x).to_raw_fields();
        assert_eq!(ServiceExitCode::from_raw_fields(a, b), ServiceExitCode::Win32(x));
    }
    for y in [0u32, 1, 1066, u32::MAX] {
        let (a, b) = ServiceExitCode::ServiceSpecific(y).to_raw_fields();
        assert_eq!(a, 1066);
        assert_eq!(ServiceExitCode::from_raw_fields(a, b), ServiceExitCode::ServiceSpecific(y));
    }
}

#[test]
fn exit_code_default_is_no_error() {
    assert_eq!(ServiceExitCode::default(), ServiceExitCode::Win32(0));
}

#[test]
fn status_encodes_fields() {
    let status = ServiceStatus {
        service_type: ServiceType::own_process(),
        current_state: ServiceState::StartPending,
        controls_accepted: ServiceControlAccept::stop().union(ServiceControlAccept::shutdown()),
        exit_code: ServiceExitCode::ServiceSpecific(7),
        checkpoint: 3,
        wait_hint: Duration::from_secs(2),
        process_id: None,
    };
    let raw = status.to_raw();
    assert_eq!(
        raw,
        RawServiceStatus {
            service_type: 0x10,
            current_state: 2,
            controls_accepted: 0x5,
            win32_exit_code: 1066,
            service_specific_exit_code: 7,
            check_point: 3,
            wait_hint: 2000,
        }
    );
    assert_eq!(ServiceStatus::from_raw(raw).unwrap(), status);
}

#[test]
fn status_decoding_truncates_unknown_flags() {
    let raw = RawServiceStatus {
        service_type: 0x10 | 0x8000,
        current_state: 4,
        controls_accepted: 0x1 | 0x10000,
        win32_exit_code: 0,
        service_specific_exit_code: 9,
        check_point: 0,
        wait_hint: 1500,
    };
    let status = ServiceStatus::from_raw(raw).unwrap();
    assert_eq!(status.service_type, ServiceType::own_process());
    assert_eq!(status.controls_accepted, ServiceControlAccept::stop());
    assert_eq!(status.exit_code, ServiceExitCode::Win32(0));
    assert_eq!(status.wait_hint.as_millis(), 1500);
    assert_eq!(status.process_id, None);
}

#[test]
fn status_decoding_rejects_unknown_state() {
    let mut raw = raw_process(0);
    assert_eq!(ServiceStatus::from_raw_ex(raw).unwrap_err(), ParseRawError::InvalidInteger(0));
    raw.current_state = 9;
    assert_eq!(ServiceStatus::from_raw_ex(raw).unwrap_err(), ParseRawError::InvalidInteger(9));
}

#[test]
fn process_id_kept_only_when_running() {
    assert_eq!(ServiceStatus::from_raw_ex(raw_process(4)).unwrap().process_id, Some(4242));
    assert_eq!(ServiceStatus::from_raw_ex(raw_process(3)).unwrap().process_id, None);
    assert_eq!(ServiceStatus::from_raw_ex(raw_process(1)).unwrap().process_id, None);
}

#[test]
fn pending_states() {
    assert!(ServiceState::StartPending.is_pending_state());
    assert!(ServiceState::PausePending.is_pending_state());
    assert!(!ServiceState::Running.is_pending_state());
    assert!(!ServiceState::Stopped.is_pending_state());
}

#[test]
fn flag_sets() {
    let t = ServiceType::own_process().union(ServiceType::interactive_process());
    assert_eq!(t.bits(), 0x110);
    assert!(t.contains(ServiceType::own_process()));
    assert!(!t.intersects(ServiceType::kernel_driver().union(ServiceType::file_system_driver())));
    assert_eq!(ServiceType::from_bits_truncate(0xffff_ffff).bits(), 0x173);
    assert_eq!(ServiceControlAccept::empty().bits(), 0);
    assert_eq!(ServiceControlAccept::from_bits_truncate(0xffff_ffff).bits(), 0x7ff);
}

#[test]
fn durations() {
    assert_eq!(Duration::from_millis(1234).as_millis(), 1234);
    assert_eq!(Duration::from_millis(1234).as_secs(), 1);
    assert_eq!(Duration::from_secs(172_800).as_millis(), 172_800_000);
    assert_eq!(Duration::default(), Duration::zero());
    assert_eq!(Duration::from_secs(u64::MAX).as_secs(), u64::MAX);
}
