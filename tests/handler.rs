use windows_service::control::ServiceControl;
use windows_service::service_control_handler::{
    plan_dispatch, ContextLease, DispatchPlan, ServiceControlHandlerResult,
};

#[test]
fn handler_result_codes() {
    assert_eq!(ServiceControlHandlerResult::NoError.to_raw(), 0);
    assert_eq!(ServiceControlHandlerResult::NotImplemented.to_raw(), 120);
    assert_eq!(ServiceControlHandlerResult::Other(1234).to_raw(), 1234);
}

#[test]
fn terminal_controls_release() {
    for code in [1u32, 5, 15] {
        match plan_dispatch(code, 0, &[]) {
            DispatchPlan::Deliver { release, .. } => assert!(release),
            DispatchPlan::NotImplemented => panic!("terminal control not delivered"),
        }
    }
    assert_eq!(
        plan_dispatch(4, 0, &[]),
        DispatchPlan::Deliver { control: ServiceControl::Interrogate, release: false }
    );
}

#[test]
fn undecodable_control_is_not_implemented() {
    assert_eq!(plan_dispatch(77, 0, &[]), DispatchPlan::NotImplemented);
    assert_eq!(plan_dispatch(12, 0, &[]), DispatchPlan::NotImplemented);
}

#[test]
fn context_released_once_at_stop() {
    let mut lease = ContextLease::lend();
    let events: [(u32, u32); 5] = [(4, 0), (2, 0), (99, 0), (3, 0), (1, 0)];
    let mut releases = 0;
    for (i, (code, event_type)) in events.iter().enumerate() {
        assert!(lease.live(), "context released before delivery {}", i);
        if let DispatchPlan::Deliver { release: true, .. } = lease.dispatch(*code, *event_type, &[]) {
            releases += 1;
        }
    }
    assert_eq!(releases, 1);
    assert!(!lease.live());
}

#[test]
fn context_released_at_shutdown_and_preshutdown() {
    for terminal in [5u32, 15] {
        let mut lease = ContextLease::lend();
        lease.dispatch(4, 0, &[]);
        assert!(lease.live());
        lease.dispatch(terminal, 0, &[]);
        assert!(!lease.live());
    }
}
