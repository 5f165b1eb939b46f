//! Delivery of control events to a service's handler, and the lifetime of the handler's
//! context.
//!
//! The handler's context is lent to the service control manager when the handler is
//! registered. Each control event is decoded; one that cannot be decoded is answered "not
//! implemented" without calling the handler. The context stays alive across every delivery
//! until, and including, the first stop, shutdown or preshutdown, after which it is released,
//! exactly once.
use vstd::prelude::*;

use crate::control::ServiceControl;
use crate::service::{ParseRawError, NO_ERROR};

verus! {

/// The result a handler returns for "the event is not implemented".
pub const ERROR_CALL_NOT_IMPLEMENTED: u32 = 120;

/// What a handler returns for a control event.
#[derive(Debug, Clone, Copy, PartialEq, Eq, Hash)]
pub enum ServiceControlHandlerResult {
    /// The event was handled, or the request it carries is granted.
    NoError,
    /// The event is not implemented.
    NotImplemented,
    /// The request is denied, with this reason.
    Other(u32),
}

impl ServiceControlHandlerResult {
    /// The result code of each result.
    pub open spec fn raw(self) -> u32 {
        match self {
            ServiceControlHandlerResult::NoError => NO_ERROR,
            ServiceControlHandlerResult::NotImplemented => ERROR_CALL_NOT_IMPLEMENTED,
            ServiceControlHandlerResult::Other(code) => code,
        }
    }

    /// The result code returned to the service control manager.
    pub fn to_raw(&self) -> (r: u32)
        ensures
            r == self.raw(),
    {
        match *self {
            ServiceControlHandlerResult::NoError => NO_ERROR,
            ServiceControlHandlerResult::NotImplemented => ERROR_CALL_NOT_IMPLEMENTED,
            ServiceControlHandlerResult::Other(code) => code,
        }
    }
}

/// A control event decodes to a control that ends the service's life, after which the
/// handler's context is released.
pub open spec fn is_release_event(control: u32, event_type: u32, data: Seq<u8>) -> bool {
    exists|c: ServiceControl| #[trigger]
        ServiceControl::decoded(control, event_type, data, Ok(c)) && c.is_terminal()
}

/// A control event decodes to at most one control.
pub proof fn lemma_decoded_unique(
    control: u32,
    event_type: u32,
    data: Seq<u8>,
    a: ServiceControl,
    b: ServiceControl,
)
    requires
        ServiceControl::decoded(control, event_type, data, Ok(a)),
        ServiceControl::decoded(control, event_type, data, Ok(b)),
    ensures
        a == b,
{
}

/// What to do with a control event.
#[derive(Debug, Clone, Copy, PartialEq, Eq, Hash)]
pub enum DispatchPlan {
    /// Call the handler with the decoded control; when `release` is set, release the
    /// handler's context once the call has returned.
    Deliver { control: ServiceControl, release: bool },
    /// The event cannot be decoded: answer "not implemented" and leave the handler alone.
    NotImplemented,
}

/// Decides what to do with a control event: its code, its event type and its payload, laid
/// out as `event_data_layout` says.
pub fn plan_dispatch(control: u32, event_type: u32, event_data: &[u8]) -> (r: DispatchPlan)
    ensures
        match r {
            DispatchPlan::Deliver { control: c, release } => ServiceControl::decoded(
                control,
                event_type,
                event_data@,
                Ok(c),
            ) && release == c.is_terminal(),
            DispatchPlan::NotImplemented => exists|e: ParseRawError| #[trigger]
                ServiceControl::decoded(control, event_type, event_data@, Err(e)),
        },
        r matches DispatchPlan::Deliver { release, .. } ==> release == is_release_event(
            control,
            event_type,
            event_data@,
        ),
        r is NotImplemented ==> !is_release_event(control, event_type, event_data@),
{
    match ServiceControl::from_raw(control, event_type, event_data) {
        Ok(c) => {
            let release = c.is_terminal_control();
            proof {
                if !release {
                    assert forall|d: ServiceControl|
                        #[trigger] ServiceControl::decoded(
                            control,
                            event_type,
                            event_data@,
                            Ok(d),
                        ) implies !d.is_terminal() by {
                        lemma_decoded_unique(control, event_type, event_data@, c, d);
                    }
                }
            }
            DispatchPlan::Deliver { control: c, release }
        },
        Err(e) => {
            proof {
                assert forall|d: ServiceControl|
                    #[trigger] ServiceControl::decoded(
                        control,
                        event_type,
                        event_data@,
                        Ok(d),
                    ) implies !d.is_terminal() by {
                    lemma_decoded_error_excludes_ok(control, event_type, event_data@, e, d);
                }
            }
            DispatchPlan::NotImplemented
        },
    }
}

/// A control event that decodes to an error decodes to no control.
pub proof fn lemma_decoded_error_excludes_ok(
    control: u32,
    event_type: u32,
    data: Seq<u8>,
    e: ParseRawError,
    c: ServiceControl,
)
    requires
        ServiceControl::decoded(control, event_type, data, Err(e)),
    ensures
        !ServiceControl::decoded(control, event_type, data, Ok(c)),
{
}

/// The handler's context as lent to the service control manager: alive from registration
/// until the delivery that releases it.
#[derive(Debug)]
pub struct ContextLease {
    live: bool,
}

impl ContextLease {
    /// The context is still alive.
    pub closed spec fn is_live(&self) -> bool {
        self.live
    }

    /// The lease of a context just lent to the service control manager by a registration.
    pub fn lend() -> (r: ContextLease)
        ensures
            r.is_live(),
    {
        ContextLease { live: true }
    }

    /// Tells whether the context is still alive.
    pub fn live(&self) -> (r: bool)
        ensures
            r == self.is_live(),
    {
        self.live
    }

    /// Plans the delivery of one control event to a live context; a plan that releases the
    /// context ends the lease.
    pub fn dispatch(&mut self, control: u32, event_type: u32, event_data: &[u8]) -> (r:
        DispatchPlan)
        requires
            old(self).is_live(),
        ensures
            match r {
                DispatchPlan::Deliver { control: c, release } => ServiceControl::decoded(
                    control,
                    event_type,
                    event_data@,
                    Ok(c),
                ) && release == c.is_terminal(),
                DispatchPlan::NotImplemented => exists|e: ParseRawError| #[trigger]
                    ServiceControl::decoded(control, event_type, event_data@, Err(e)),
            },
            final(self).is_live() == !is_release_event(control, event_type, event_data@),
    {
        let plan = plan_dispatch(control, event_type, event_data);
        match plan {
            DispatchPlan::Deliver { release, .. } => {
                if release {
                    self.live = false;
                }
            },
            DispatchPlan::NotImplemented => {},
        }
        plan
    }
}

/// How many of the control events release the context.
pub open spec fn releases_in(events: Seq<(u32, u32, Seq<u8>)>) -> nat
    decreases events.len(),
{
    if events.len() == 0 {
        0
    } else {
        releases_in(events.drop_last()) + if is_release_event(
            events.last().0,
            events.last().1,
            events.last().2,
        ) {
            1nat
        } else {
            0nat
        }
    }
}

/// A lease that lives through a sequence of deliveries is live after them exactly when none of
/// them released it: the state that `ContextLease::dispatch` leaves, delivery after delivery.
pub open spec fn live_after(events: Seq<(u32, u32, Seq<u8>)>) -> bool {
    releases_in(events) == 0
}

/// Across a sequence of control events that ends with a stop, shutdown or preshutdown and has
/// none before it, the context is alive for every delivery, the terminal one included, and is
/// released exactly once, by the terminal delivery.
pub proof fn lemma_context_released_once(events: Seq<(u32, u32, Seq<u8>)>)
    requires
        events.len() > 0,
        is_release_event(events.last().0, events.last().1, events.last().2),
        forall|i: int|
            0 <= i < events.len() - 1 ==> !is_release_event(
                (#[trigger] events[i]).0,
                events[i].1,
                events[i].2,
            ),
    ensures
        forall|k: int| 0 <= k < events.len() ==> live_after(#[trigger] events.subrange(0, k)),
        !live_after(events),
        releases_in(events) == 1,
{
    assert forall|k: int| 0 <= k < events.len() implies live_after(
        #[trigger] events.subrange(0, k),
    ) by {
        lemma_no_release_prefix(events, k);
    }
    lemma_no_release_prefix(events, events.len() - 1);
    assert(events.drop_last() =~= events.subrange(0, events.len() - 1));
}

proof fn lemma_no_release_prefix(events: Seq<(u32, u32, Seq<u8>)>, k: int)
    requires
        0 <= k < events.len(),
        forall|i: int|
            0 <= i < events.len() - 1 ==> !is_release_event(
                (#[trigger] events[i]).0,
                events[i].1,
                events[i].2,
            ),
    ensures
        releases_in(events.subrange(0, k)) == 0,
    decreases k,
{
    if k > 0 {
        let p = events.subrange(0, k);
        assert(p.drop_last() =~= events.subrange(0, k - 1));
        assert(p.last() == events[k - 1]);
        lemma_no_release_prefix(events, k - 1);
    }
}

} // verus!
