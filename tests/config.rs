use windows_service::config::{
    RawServiceAction, RawServiceConfig, RawServiceFailureActions, RawServiceInfo, ServiceAccess,
    ServiceAction, ServiceActionType, ServiceConfig, ServiceDependency, ServiceErrorControl,
    ServiceFailureActions, ServiceFailureResetPeriod, ServiceInfo, ServiceManagerAccess,
    ServiceSidType, ServiceStartType,
};
use windows_service::duration::Duration;
use windows_service::service::{ParseRawError, ServiceType};
use windows_service::Error;

fn w(s: &str) -> Vec<u16> {
    s.encode_utf16().collect()
}

fn probe_info() -> ServiceInfo {
    ServiceInfo {
        name: w("probe"),
        display_name: w("Probe service"),
        service_type: ServiceType::own_process(),
        start_type: ServiceStartType::OnDemand,
        error_control: ServiceErrorControl::Normal,
        executable_path: w(r"C:\Program Files\probe\probe.exe"),
        launch_arguments: vec![w("--run"), w("a b")],
        dependencies: vec![],
        account_name: None,
        account_password: None,
    }
}

#[test]
fn probe_service_info_encodes() {
    let raw = RawServiceInfo::new(&probe_info()).unwrap();
    assert_eq!(raw.name, w("probe\0"));
    assert_eq!(raw.display_name, w("Probe service\0"));
    assert_eq!(raw.service_type, 0x10);
    assert_eq!(raw.start_type, 3);
    assert_eq!(raw.error_control, 1);
    assert_eq!(raw.launch_command, w("\"C:\\Program Files\\probe\\probe.exe\" --run \"a b\"\0"));
    assert_eq!(raw.account_name, None);
    assert_eq!(raw.account_password, None);
}

#[test]
fn empty_dependency_list_gives_no_buffer() {
    let raw = RawServiceInfo::new(&probe_info()).unwrap();
    assert_eq!(raw.dependencies, None);
    let read_back = RawServiceConfig {
        service_type: 0x10,
        start_type: 3,
        error_control: 1,
        binary_path_name: raw.launch_command.clone(),
        load_order_group: None,
        tag_id: 0,
        dependencies: raw.dependencies.clone(),
        service_start_name: Some(w("LocalSystem\0")),
        display_name: raw.display_name.clone(),
    };
    let config = ServiceConfig::from_raw(&read_back).unwrap();
    assert_eq!(config.dependencies, vec![]);
    assert_eq!(config.display_name, w("Probe service"));
    assert_eq!(config.account_name, Some(w("LocalSystem")));
}

#[test]
fn dependencies_encode_in_multi_string_form() {
    let mut info = probe_info();
    info.dependencies = vec![
        ServiceDependency::Service(w("rpcss")),
        ServiceDependency::Group(w("network")),
    ];
    let raw = RawServiceInfo::new(&info).unwrap();
    assert_eq!(raw.dependencies, Some(w("rpcss\0+network\0\0")));
}

#[test]
fn driver_with_launch_arguments_is_refused() {
    for t in [ServiceType::kernel_driver(), ServiceType::file_system_driver()] {
        let mut info = probe_info();
        info.service_type = t;
        info.name = w("bad\0name");
        assert_eq!(RawServiceInfo::new(&info).unwrap_err(), Error::LaunchArgumentsNotSupported);
        info.launch_arguments = vec![w("")];
        assert_eq!(RawServiceInfo::new(&info).unwrap_err(), Error::LaunchArgumentsNotSupported);
    }
}

#[test]
fn driver_path_is_not_quoted() {
    let mut info = probe_info();
    info.service_type = ServiceType::kernel_driver();
    info.launch_arguments = vec![];
    info.executable_path = w(r"C:\drivers\my driver.sys");
    let raw = RawServiceInfo::new(&info).unwrap();
    assert_eq!(raw.launch_command, w("C:\\drivers\\my driver.sys\0"));
}

#[test]
fn service_info_errors_in_order() {
    let mut info = probe_info();
    info.display_name = w("x\0");
    assert!(matches!(RawServiceInfo::new(&info), Err(Error::InvalidDisplayName(_))));
    info.name = w("\0");
    assert!(matches!(RawServiceInfo::new(&info), Err(Error::InvalidServiceName(_))));

    let mut info = probe_info();
    info.account_name = Some(w("a\0"));
    assert!(matches!(RawServiceInfo::new(&info), Err(Error::InvalidAccountName(_))));
    let mut info = probe_info();
    info.account_password = Some(w("p\0w"));
    assert!(matches!(RawServiceInfo::new(&info), Err(Error::InvalidAccountPassword(_))));
    let mut info = probe_info();
    info.executable_path = w("c:\\x\0.exe");
    match RawServiceInfo::new(&info) {
        Err(Error::InvalidExecutablePath(e)) => assert_eq!(e.nul_position(), 4),
        other => panic!("unexpected {:?}", other),
    }
    let mut info = probe_info();
    info.launch_arguments = vec![w("ok"), w("b\0ad"), w("\0")];
    match RawServiceInfo::new(&info) {
        Err(Error::InvalidLaunchArgument(i, e)) => {
            assert_eq!(i, 1);
            assert_eq!(e.nul_position(), 1);
        },
        other => panic!("unexpected {:?}", other),
    }
    let mut info = probe_info();
    info.dependencies = vec![ServiceDependency::Group(w("n\0"))];
    assert!(matches!(RawServiceInfo::new(&info), Err(Error::InvalidDependency(_))));
}

#[test]
fn failure_actions_round_trip() {
    let actions = ServiceFailureActions {
        reset_period: ServiceFailureResetPeriod::After(Duration::from_secs(2 * 86_400)),
        reboot_msg: None,
        command: Some(w("ping 127.0.0.1")),
        actions: Some(vec![
            ServiceAction { action_type: ServiceActionType::Restart, delay: Duration::from_secs(5) },
            ServiceAction { action_type: ServiceActionType::RunCommand, delay: Duration::from_secs(10) },
            ServiceAction { action_type: ServiceActionType::NoAction, delay: Duration::default() },
        ]),
    };
    let raw = actions.to_raw().unwrap();
    assert_eq!(raw.reset_period, 172_800);
    assert_eq!(raw.command, Some(w("ping 127.0.0.1\0")));
    assert_eq!(
        raw.actions,
        Some(vec![
            RawServiceAction { action_type: 1, delay: 5000 },
            RawServiceAction { action_type: 3, delay: 10000 },
            RawServiceAction { action_type: 0, delay: 0 },
        ])
    );
    let read_back = ServiceFailureActions::from_raw(&raw).unwrap();
    assert_eq!(read_back.reset_period, actions.reset_period);
    assert_eq!(read_back.command, actions.command);
    assert_eq!(read_back.actions, actions.actions);
    assert_eq!(read_back.reboot_msg, None);
}

#[test]
fn failure_actions_decoding() {
    let raw = RawServiceFailureActions {
        reset_period: 0xffff_ffff,
        reboot_msg: Some(w("\0garbage")),
        command: None,
        actions: None,
    };
    let f = ServiceFailureActions::from_raw(&raw).unwrap();
    assert_eq!(f.reset_period, ServiceFailureResetPeriod::Never);
    assert_eq!(f.reboot_msg, None);
    assert_eq!(f.actions, None);
    let raw = RawServiceFailureActions {
        reset_period: 0,
        reboot_msg: None,
        command: None,
        actions: Some(vec![RawServiceAction { action_type: 1, delay: 0 }, RawServiceAction { action_type: 9, delay: 0 }]),
    };
    assert_eq!(
        ServiceFailureActions::from_raw(&raw).unwrap_err(),
        Error::InvalidServiceActionType(ParseRawError::InvalidIntegerSigned(9))
    );
}

#[test]
fn failure_actions_encoding_errors() {
    let mut f = ServiceFailureActions {
        reset_period: ServiceFailureResetPeriod::Never,
        reboot_msg: Some(w("re\0boot")),
        command: Some(w("c\0")),
        actions: None,
    };
    assert!(matches!(f.to_raw(), Err(Error::InvalidServiceActionFailuresRebootMessage(_))));
    f.reboot_msg = Some(vec![]);
    assert!(matches!(f.to_raw(), Err(Error::InvalidServiceActionFailuresCommand(_))));
    f.command = None;
    let raw = f.to_raw().unwrap();
    assert_eq!(raw.reset_period, 0xffff_ffff);
    assert_eq!(raw.reboot_msg, Some(vec![0]));
    assert_eq!(raw.command, None);
}

#[test]
fn config_decoding_errors() {
    let mut raw = RawServiceConfig {
        service_type: 0x10,
        start_type: 9,
        error_control: 9,
        binary_path_name: w("x\0"),
        load_order_group: Some(w("\0")),
        tag_id: 4,
        dependencies: Some(w("a\0+b\0\0")),
        service_start_name: None,
        display_name: w("d\0"),
    };
    assert_eq!(
        ServiceConfig::from_raw(&raw).unwrap_err(),
        Error::InvalidServiceStartType(ParseRawError::InvalidInteger(9))
    );
    raw.start_type = 2;
    assert_eq!(
        ServiceConfig::from_raw(&raw).unwrap_err(),
        Error::InvalidServiceErrorControl(ParseRawError::InvalidInteger(9))
    );
    raw.error_control = 3;
    let c = ServiceConfig::from_raw(&raw).unwrap();
    assert_eq!(c.start_type, ServiceStartType::AutoStart);
    assert_eq!(c.error_control, ServiceErrorControl::Critical);
    assert_eq!(c.load_order_group, None);
    assert_eq!(c.tag_id, 4);
    assert_eq!(
        c.dependencies,
        vec![ServiceDependency::Service(w("a")), ServiceDependency::Group(w("b"))]
    );
}

#[test]
fn enum_decoding_rejects_unknown_values() {
    for raw in [0u32, 1, 5, 100] {
        assert_eq!(ServiceStartType::from_raw(raw).unwrap_err(), ParseRawError::InvalidInteger(raw));
    }
    for raw in [4u32, 5, u32::MAX] {
        assert_eq!(ServiceErrorControl::from_raw(raw).unwrap_err(), ParseRawError::InvalidInteger(raw));
    }
    for raw in [-1i32, 4, i32::MAX] {
        assert_eq!(ServiceActionType::from_raw(raw).unwrap_err(), ParseRawError::InvalidIntegerSigned(raw));
    }
    assert_eq!(ServiceStartType::OnDemand.to_raw(), 3);
    assert_eq!(ServiceErrorControl::Severe.to_raw(), 2);
    assert_eq!(ServiceActionType::Reboot.to_raw(), 2);
    assert_eq!(ServiceSidType::Restricted.to_raw(), 3);
    assert_eq!(ServiceSidType::NoSid.to_raw(), 0);
}

#[test]
fn reset_period_and_actions() {
    assert_eq!(ServiceFailureResetPeriod::from_raw(60), ServiceFailureResetPeriod::After(Duration::from_secs(60)));
    assert_eq!(ServiceFailureResetPeriod::Never.to_raw(), 0xffff_ffff);
    let a = ServiceAction::from_raw(RawServiceAction { action_type: 2, delay: 250 }).unwrap();
    assert_eq!(a.action_type, ServiceActionType::Reboot);
    assert_eq!(a.delay, Duration::from_millis(250));
    assert_eq!(a.to_raw(), RawServiceAction { action_type: 2, delay: 250 });
}

#[test]
fn access_flags() {
    let access = ServiceAccess::query_status().union(ServiceAccess::stop()).union(ServiceAccess::delete());
    assert_eq!(access.bits(), 0x10024);
    assert!(access.contains(ServiceAccess::stop()));
    assert_eq!(ServiceManagerAccess::connect().union(ServiceManagerAccess::create_service()).bits(), 3);
}
