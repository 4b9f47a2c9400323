use keylime_common::errors::Error;
use keylime_common::ownership::{chownroot_outcome, chownroot_precheck, ROOT_UID};

#[test]
fn test_precheck_refuses_non_root() {
    // An unprivileged caller is refused before any filesystem work
    for euid in [1u32, 1000, 65534] {
        let r = chownroot_precheck(euid);
        assert!(matches!(r, Err(Error::Permission)));
    }
}

#[test]
fn test_precheck_passes_root() {
    assert!(chownroot_precheck(ROOT_UID).is_ok());
}

#[test]
fn test_outcome_success_returns_path() {
    let r = chownroot_outcome(String::from("/var/lib/keylime"), 0);
    assert_eq!(r.unwrap(), "/var/lib/keylime");
}

#[test]
fn test_outcome_failure_is_permission() {
    let r = chownroot_outcome(String::from("/var/lib/keylime"), -1);
    assert!(matches!(r, Err(Error::Permission)));
}
