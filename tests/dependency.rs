use windows_service::config::ServiceDependency;

fn w(s: &str) -> Vec<u16> {
    s.encode_utf16().collect()
}

#[test]
fn data_test_service_group_identifier() {
    let dependency = ServiceDependency::from_system_identifier(&w("+network"));
    assert_eq!(dependency, ServiceDependency::Group(w("network")));
}

#[test]
fn data_test_service_name_identifier() {
    let dependency = ServiceDependency::from_system_identifier(&w("netlogon"));
    assert_eq!(dependency, ServiceDependency::Service(w("netlogon")));
}

#[test]
fn service_test_service_group_identifier() {
    let dependency = ServiceDependency::from_system_identifier(&w("+network"));
    assert_eq!(dependency, ServiceDependency::Group(w("network")));
}

#[test]
fn service_test_service_name_identifier() {
    let dependency = ServiceDependency::from_system_identifier(&w("netlogon"));
    assert_eq!(dependency, ServiceDependency::Service(w("netlogon")));
}

#[test]
fn group_identifier_has_prefix() {
    assert_eq!(ServiceDependency::Group(w("network")).to_system_identifier(), w("+network"));
    assert_eq!(ServiceDependency::Service(w("rpcss")).to_system_identifier(), w("rpcss"));
}

#[test]
fn dependency_identifier_round_trip() {
    for d in [
        ServiceDependency::Service(w("netlogon")),
        ServiceDependency::Group(w("network")),
        ServiceDependency::Group(w("")),
        ServiceDependency::Group(w("+nested")),
    ] {
        let id = d.to_system_identifier();
        assert_eq!(ServiceDependency::from_system_identifier(&id), d);
    }
}

#[test]
fn empty_identifier_is_a_service() {
    assert_eq!(ServiceDependency::from_system_identifier(&[]), ServiceDependency::Service(vec![]));
}
