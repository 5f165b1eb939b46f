use windows_service::duration::Duration;
use windows_service::requests::{
    database_name_wide, description_wide, machine_name_wide, preshutdown_timeout_millis,
    service_name_wide, start_arguments_wide,
};
use windows_service::Error;

fn w(s: &str) -> Vec<u16> {
    s.encode_utf16().collect()
}

#[test]
fn names_are_checked_and_terminated() {
    assert_eq!(service_name_wide(&w("probe")).unwrap(), w("probe\0"));
    assert!(matches!(service_name_wide(&w("pro\0be")), Err(Error::InvalidServiceName(_))));
    assert_eq!(machine_name_wide(&None).unwrap(), None);
    assert_eq!(machine_name_wide(&Some(w("host"))).unwrap(), Some(w("host\0")));
    assert!(matches!(machine_name_wide(&Some(w("h\0"))), Err(Error::InvalidMachineName(_))));
    assert!(matches!(database_name_wide(&Some(w("\0"))), Err(Error::InvalidDatabaseName(_))));
    assert_eq!(description_wide(&w("d")).unwrap(), w("d\0"));
    assert!(matches!(description_wide(&w("d\0")), Err(Error::InvalidServiceDescription(_))));
}

#[test]
fn start_arguments_are_checked() {
    assert_eq!(start_arguments_wide(&[w("a"), w("")]).unwrap(), vec![w("a\0"), w("\0")]);
    match start_arguments_wide(&[w("a"), w("b\0")]) {
        Err(Error::InvalidStartArgument(e)) => assert_eq!(e.nul_position(), 1),
        other => panic!("unexpected {:?}", other),
    }
}

#[test]
fn preshutdown_timeout_in_milliseconds() {
    assert_eq!(preshutdown_timeout_millis(Duration::from_secs(10)), 10_000);
    assert_eq!(preshutdown_timeout_millis(Duration::from_millis(1)), 1);
}
