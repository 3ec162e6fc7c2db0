use th123_launcher::group::JobObjectManager;

#[test]
fn live_group_accepts_valid_process() {
    let mut g = JobObjectManager::new(5);
    assert!(g.assign_process(7));
    assert_eq!(g.raw_handle(), 5);
    assert!(!g.is_released());
}

#[test]
fn invalid_process_handle_is_skipped() {
    let mut g = JobObjectManager::new(5);
    assert!(!g.assign_process(0));
}

#[test]
fn degraded_group_skips_every_registration() {
    let mut g = JobObjectManager::new(0);
    assert!(!g.assign_process(7));
    assert!(!g.assign_process(9));
}

#[test]
fn release_closes_a_live_group_exactly_once() {
    let mut g = JobObjectManager::new(5);
    assert!(g.release());
    assert!(g.is_released());
    assert!(!g.release());
    assert!(g.is_released());
}

#[test]
fn release_of_degraded_group_never_closes() {
    let mut g = JobObjectManager::new(0);
    assert!(!g.release());
    assert!(!g.release());
}

#[test]
fn registration_after_release_is_refused() {
    let mut g = JobObjectManager::new(5);
    assert!(g.assign_process(7));
    assert!(g.release());
    assert!(!g.assign_process(9));
}
