use envoy_extension_core::errors::CoreError;
use envoy_extension_core::instance::{InstanceRegistry, InstanceState, Shape};

#[test]
fn create_lookup_destroy_lifecycle() {
    let mut reg = InstanceRegistry::new();
    reg.create(1, Shape::HttpFilter, 0).unwrap();
    reg.create(2, Shape::NetworkFilter, 0).unwrap();

    let one = reg.lookup(1).unwrap();
    assert_eq!(one.id, 1);
    assert_eq!(one.state, InstanceState::Created);
    assert_eq!(one.pending, None);
    assert_eq!(one.delivered, 0);

    assert!(reg.destroy(1));
    assert_eq!(reg.lookup(1).unwrap_err(), CoreError::NotFound);
    assert_eq!(reg.lookup(2).unwrap().id, 2);
}

#[test]
fn duplicate_id_is_rejected() {
    let mut reg = InstanceRegistry::new();
    reg.create(5, Shape::AccessLogger, 0).unwrap();
    assert_eq!(
        reg.create(5, Shape::AccessLogger, 0).unwrap_err(),
        CoreError::DuplicateId
    );
    // the live instance is untouched
    assert_eq!(reg.lookup(5).unwrap().state, InstanceState::Created);
}

#[test]
fn destroy_is_idempotent() {
    let mut reg = InstanceRegistry::new();
    reg.create(9, Shape::HttpFilter, 3).unwrap();
    assert!(reg.destroy(9));
    // teardown signals may arrive more than once: a no-op, not an error
    assert!(!reg.destroy(9));
    assert!(!reg.destroy(42));
}

#[test]
fn lookup_of_absent_id_is_not_found() {
    let reg = InstanceRegistry::new();
    assert_eq!(reg.lookup(0).unwrap_err(), CoreError::NotFound);
}
