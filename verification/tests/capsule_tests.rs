use std::sync::Arc;

use dlpak::{Capsule, CapsuleState, ManagerCtx, SafeManagedTensor};
use dlpak::capsule::{
    DLTENSOR_CAPSULE_NAME, DLTENSOR_CAPSULE_USED_NAME, DLTENSOR_VERSIONED_CAPSULE_NAME,
    DLTENSOR_VERSIONED_CAPSULE_USED_NAME,
};

#[test]
fn capsule_names() {
    assert_eq!(DLTENSOR_CAPSULE_NAME, "dltensor");
    assert_eq!(DLTENSOR_CAPSULE_USED_NAME, "used_dltensor");
    assert_eq!(DLTENSOR_VERSIONED_CAPSULE_NAME, "dltensor_versioned");
    assert_eq!(DLTENSOR_VERSIONED_CAPSULE_USED_NAME, "used_dltensor_versioned");
}

#[test]
fn wrap_starts_exporting() {
    let c = Capsule::wrap(42u32);
    assert_eq!(c.state(), CapsuleState::Exporting);
}

#[test]
fn transfer_yields_payload_once() {
    let mut c = Capsule::wrap(42u32);
    assert_eq!(c.transfer(), Some(42));
    assert_eq!(c.state(), CapsuleState::Transferred);
    // The terminal state yields nothing a second time.
    assert_eq!(c.transfer(), None);
    assert_eq!(c.finalize(), None);
}

#[test]
fn untransferred_capsule_releases_on_finalize() {
    let c = Capsule::wrap(7i64);
    assert_eq!(c.finalize(), Some(7));
}

#[test]
fn capsule_handoff_single_release() {
    // Transfer, then let the capsule die: the release count across the
    // capsule's destructor and the later handle drop is exactly one.
    let keeper: Arc<Vec<i32>> = Arc::new(vec![1, 2, 3]);
    let record = ManagerCtx::new(keeper.clone()).into_dl_managed_tensor();
    let mut capsule = Capsule::wrap(record);
    assert_eq!(Arc::strong_count(&keeper), 2);

    let taken = capsule.transfer().expect("an exporting capsule yields its payload");
    // The capsule's destructor finds nothing to release.
    assert!(capsule.finalize().is_none());
    assert_eq!(Arc::strong_count(&keeper), 2);

    let handle = SafeManagedTensor::from_non_null(taken);
    assert_eq!(handle.as_slice().unwrap(), &[1, 2, 3]);
    drop(handle);
    assert_eq!(Arc::strong_count(&keeper), 1);
}

#[test]
fn untransferred_capsule_cleanup() {
    // A capsule dropped without transfer releases its payload exactly once,
    // through its own destructor.
    let keeper: Arc<Vec<i32>> = Arc::new(vec![5, 6]);
    let record = ManagerCtx::new(keeper.clone()).into_dl_managed_tensor();
    let capsule = Capsule::wrap(record);
    assert_eq!(Arc::strong_count(&keeper), 2);

    let unreleased = capsule.finalize().expect("an untransferred capsule owes the release");
    drop(unreleased);
    assert_eq!(Arc::strong_count(&keeper), 1);
}
