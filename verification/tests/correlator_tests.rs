use envoy_extension_core::correlator::{AsyncCallCorrelator, Delivery};
use envoy_extension_core::errors::CoreError;
use envoy_extension_core::instance::{
    AsyncOutcome, Instance, InstanceRegistry, InstanceState, Shape,
};

fn suspended_instance(reg: &mut InstanceRegistry, corr: &mut AsyncCallCorrelator, id: u64) -> u64 {
    reg.create(id, Shape::HttpFilter, 0).unwrap();
    let h = corr.issue(reg, id, 100, 0).unwrap();
    // the filter suspends on the fresh handle after a successful issue
    set_state(reg, id, InstanceState::Suspended);
    h
}

fn set_state(reg: &mut InstanceRegistry, id: u64, state: InstanceState) {
    let idx = reg.index_of(id).unwrap();
    let inst = reg.instances[idx];
    reg.instances[idx] = Instance { state, ..inst };
}

#[test]
fn resolve_delivers_exactly_once_to_the_issuer() {
    let mut reg = InstanceRegistry::new();
    let mut corr = AsyncCallCorrelator::new();
    reg.create(99, Shape::HttpFilter, 0).unwrap();
    let h = suspended_instance(&mut reg, &mut corr, 7);

    assert_eq!(corr.resolve(&mut reg, h, 200).unwrap(), Delivery::Delivered);

    let inst = *reg.lookup(7).unwrap();
    assert_eq!(inst.state, InstanceState::Processing);
    assert_eq!(inst.pending, None);
    assert_eq!(inst.delivered, 1);
    assert_eq!(inst.last_outcome, Some(AsyncOutcome::Response(200)));

    // the bystander instance is untouched
    let other = *reg.lookup(99).unwrap();
    assert_eq!(other.delivered, 0);
    assert_eq!(other.state, InstanceState::Created);

    // a second resolve of the same handle fails and mutates nothing
    assert_eq!(corr.resolve(&mut reg, h, 200).unwrap_err(), CoreError::UnknownHandle);
    assert_eq!(reg.lookup(7).unwrap().delivered, 1);
}

#[test]
fn resolve_of_never_issued_handle_is_unknown() {
    let mut reg = InstanceRegistry::new();
    let mut corr = AsyncCallCorrelator::new();
    reg.create(1, Shape::HttpFilter, 0).unwrap();
    assert_eq!(corr.resolve(&mut reg, 12345, 200).unwrap_err(), CoreError::UnknownHandle);
    assert_eq!(reg.lookup(1).unwrap().delivered, 0);
}

#[test]
fn second_issue_while_pending_is_rejected() {
    let mut reg = InstanceRegistry::new();
    let mut corr = AsyncCallCorrelator::new();
    let h = suspended_instance(&mut reg, &mut corr, 3);

    assert_eq!(
        corr.issue(&mut reg, 3, 50, 1).unwrap_err(),
        CoreError::InstanceAlreadyPending
    );

    // the original pending call is unaffected and still resolves
    assert_eq!(reg.lookup(3).unwrap().pending, Some(h));
    assert_eq!(corr.resolve(&mut reg, h, 204).unwrap(), Delivery::Delivered);
    assert_eq!(reg.lookup(3).unwrap().delivered, 1);
}

#[test]
fn issue_for_unknown_owner_is_not_found() {
    let mut reg = InstanceRegistry::new();
    let mut corr = AsyncCallCorrelator::new();
    assert_eq!(corr.issue(&mut reg, 8, 10, 0).unwrap_err(), CoreError::NotFound);
}

#[test]
fn resolve_after_destroy_is_a_silent_no_op() {
    let mut reg = InstanceRegistry::new();
    let mut corr = AsyncCallCorrelator::new();
    reg.create(50, Shape::NetworkFilter, 0).unwrap();
    let h = suspended_instance(&mut reg, &mut corr, 4);

    assert!(reg.destroy(4));
    // the late resolution is dropped: no error, no instance mutated
    assert_eq!(corr.resolve(&mut reg, h, 500).unwrap(), Delivery::Dropped);
    let other = *reg.lookup(50).unwrap();
    assert_eq!(other.delivered, 0);
    assert_eq!(other.state, InstanceState::Created);
    // and the handle is spent: the entry was still evicted
    assert_eq!(corr.resolve(&mut reg, h, 500).unwrap_err(), CoreError::UnknownHandle);
}

#[test]
fn timeout_fires_exactly_once_then_late_resolve_fails() {
    let mut reg = InstanceRegistry::new();
    let mut corr = AsyncCallCorrelator::new();
    reg.create(6, Shape::HttpFilter, 0).unwrap();
    let h = corr.issue(&mut reg, 6, 1, 0).unwrap();
    set_state(&mut reg, 6, InstanceState::Suspended);

    // before the deadline nothing fires
    assert_eq!(corr.fire_due(&mut reg, 0), None);
    assert_eq!(reg.lookup(6).unwrap().state, InstanceState::Suspended);

    // at the deadline the instance receives TimedOut exactly once
    assert_eq!(corr.fire_due(&mut reg, 1), Some(h));
    let inst = *reg.lookup(6).unwrap();
    assert_eq!(inst.state, InstanceState::Processing);
    assert_eq!(inst.pending, None);
    assert_eq!(inst.delivered, 1);
    assert_eq!(inst.last_outcome, Some(AsyncOutcome::TimedOut));

    // nothing left to fire, and a late resolve fails with UnknownHandle
    assert_eq!(corr.fire_due(&mut reg, 1000), None);
    assert_eq!(corr.resolve(&mut reg, h, 200).unwrap_err(), CoreError::UnknownHandle);
    assert_eq!(reg.lookup(6).unwrap().delivered, 1);
}

#[test]
fn timeout_after_destroy_is_a_silent_no_op() {
    let mut reg = InstanceRegistry::new();
    let mut corr = AsyncCallCorrelator::new();
    let h = suspended_instance(&mut reg, &mut corr, 11);
    assert!(reg.destroy(11));

    // the deadline fires, evicts the entry, and is dropped silently
    assert_eq!(corr.fire_due(&mut reg, u64::MAX), Some(h));
    assert_eq!(corr.fire_due(&mut reg, u64::MAX), None);
    assert_eq!(corr.resolve(&mut reg, h, 200).unwrap_err(), CoreError::UnknownHandle);
}

#[test]
fn handles_are_never_reused() {
    let mut reg = InstanceRegistry::new();
    let mut corr = AsyncCallCorrelator::new();
    reg.create(1, Shape::HttpFilter, 0).unwrap();
    reg.create(2, Shape::HttpFilter, 0).unwrap();
    let h1 = corr.issue(&mut reg, 1, 10, 0).unwrap();
    set_state(&mut reg, 1, InstanceState::Suspended);
    let h2 = corr.issue(&mut reg, 2, 10, 0).unwrap();
    assert_ne!(h1, h2);
    corr.resolve(&mut reg, h1, 200).unwrap();
    let h3 = corr.issue(&mut reg, 1, 10, 0).unwrap();
    assert_ne!(h1, h3);
    assert_ne!(h2, h3);
}

#[test]
fn due_deadlines_fire_one_at_a_time_until_drained() {
    let mut reg = InstanceRegistry::new();
    let mut corr = AsyncCallCorrelator::new();
    reg.create(1, Shape::HttpFilter, 0).unwrap();
    reg.create(2, Shape::HttpFilter, 0).unwrap();
    let h1 = corr.issue(&mut reg, 1, 5, 0).unwrap();
    set_state(&mut reg, 1, InstanceState::Suspended);
    let h2 = corr.issue(&mut reg, 2, 7, 0).unwrap();
    set_state(&mut reg, 2, InstanceState::Suspended);

    // both deadlines have passed: each firing evicts exactly one entry
    assert_eq!(corr.fire_due(&mut reg, 10), Some(h1));
    assert_eq!(corr.fire_due(&mut reg, 10), Some(h2));
    assert_eq!(corr.fire_due(&mut reg, 10), None);
    assert_eq!(reg.lookup(1).unwrap().last_outcome, Some(AsyncOutcome::TimedOut));
    assert_eq!(reg.lookup(2).unwrap().last_outcome, Some(AsyncOutcome::TimedOut));
}
