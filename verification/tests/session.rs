use th123_launcher::paths::LauncherPaths;
use th123_launcher::supervisor::ExitOutcome;
use th123_launcher::supervisor::HelperEnv;
use th123_launcher::supervisor::PrimaryEnv;
use th123_launcher::supervisor::PrimaryPlan;
use th123_launcher::supervisor::SessionEnv;
use th123_launcher::supervisor::Step;
use th123_launcher::supervisor::helper_plan;
use th123_launcher::supervisor::primary_plan;
use th123_launcher::supervisor::run_session;
use th123_launcher::supervisor::spawn_failed_notification;

fn sample_paths() -> LauncherPaths {
    LauncherPaths::resolve("C:/games/launcher.exe")
}

#[test]
fn helper_plan_for_missing_file_is_silent() {
    let paths = sample_paths();
    let plan = helper_plan(&paths, 0, false);
    assert!(plan.is_none());
    let plan = helper_plan(&paths, 1, false);
    assert!(plan.is_none());
}

#[test]
fn helper_plan_spawns_detached_in_base_dir() {
    let paths = sample_paths();
    let req = helper_plan(&paths, 0, true).unwrap();
    assert_eq!(req.path, "C:/games/th123/swarm.exe");
    assert_eq!(req.cwd, "C:/games");
    assert!(req.detached);
    let req = helper_plan(&paths, 1, true).unwrap();
    assert_eq!(req.path, "C:/games/th123/tsk/tsk_110A/tsk_yamei.exe");
    assert_eq!(req.cwd, "C:/games");
    assert!(req.detached);
}

#[test]
fn primary_plan_launches_in_game_directory() {
    let paths = sample_paths();
    match primary_plan(&paths, true) {
        PrimaryPlan::Launch(req) => {
            assert_eq!(req.path, "C:/games/th123/th123.exe");
            assert_eq!(req.cwd, "C:/games/th123");
            assert!(!req.detached);
        }
        PrimaryPlan::Abort(_) => panic!("existing game must be launched"),
    }
}

#[test]
fn primary_plan_for_missing_game_aborts_with_message() {
    let paths = sample_paths();
    match primary_plan(&paths, false) {
        PrimaryPlan::Launch(_) => panic!("missing game must not be launched"),
        PrimaryPlan::Abort(n) => {
            assert_eq!(n.title, "Error: Game file not found");
            assert_eq!(n.message, "th123.exe not found: C:/games/th123/th123.exe");
        }
    }
}

#[test]
fn spawn_failure_message_names_the_game_path() {
    let paths = sample_paths();
    let n = spawn_failed_notification(&paths);
    assert_eq!(n.title, "Error: Could not start game");
    assert_eq!(n.message, "Could not start game: C:/games/th123/th123.exe");
}

#[test]
fn end_to_end_one_helper_present_one_missing() {
    // base_dir holds the game and the first helper, but not the second:
    // the helper launches, the missing one is skipped silently, the game
    // runs in its own directory, and release comes after its exit.
    let paths = sample_paths();
    let env = SessionEnv {
        group_handle: 10,
        helpers: vec![
            HelperEnv { exists: true, spawned: Some(11) },
            HelperEnv { exists: false, spawned: None },
        ],
        primary: PrimaryEnv { exists: true, spawned: Some(12), exit_code: 0 },
    };
    let r = run_session(&paths, &env);
    assert_eq!(
        r.steps,
        vec![
            Step::HelperSpawned(11),
            Step::Registered(11),
            Step::PrimarySpawned(12),
            Step::Registered(12),
            Step::PrimaryExited(0),
            Step::Released,
        ]
    );
    assert_eq!(r.outcome, ExitOutcome::Exited(0));
    assert!(r.notification.is_none());
    assert!(r.group.is_released());
    assert_eq!(r.group.raw_handle(), 10);
}

#[test]
fn missing_game_notifies_once_and_still_cleans_up() {
    let paths = sample_paths();
    let env = SessionEnv {
        group_handle: 10,
        helpers: vec![
            HelperEnv { exists: true, spawned: Some(11) },
            HelperEnv { exists: false, spawned: None },
        ],
        primary: PrimaryEnv { exists: false, spawned: None, exit_code: 0 },
    };
    let r = run_session(&paths, &env);
    assert_eq!(
        r.steps,
        vec![
            Step::HelperSpawned(11),
            Step::Registered(11),
            Step::Notified,
            Step::Released,
        ]
    );
    let notified = r.steps.iter().filter(|s| matches!(s, Step::Notified)).count();
    assert_eq!(notified, 1);
    assert_eq!(r.outcome, ExitOutcome::StartFailed);
    let n = r.notification.unwrap();
    assert_eq!(n.title, "Error: Game file not found");
    assert_eq!(n.message, "th123.exe not found: C:/games/th123/th123.exe");
    assert!(r.group.is_released());
}

#[test]
fn game_spawn_failure_notifies_once() {
    let paths = sample_paths();
    let env = SessionEnv {
        group_handle: 10,
        helpers: vec![],
        primary: PrimaryEnv { exists: true, spawned: None, exit_code: 0 },
    };
    let r = run_session(&paths, &env);
    assert_eq!(r.steps, vec![Step::Notified, Step::Released]);
    assert_eq!(r.outcome, ExitOutcome::StartFailed);
    let n = r.notification.unwrap();
    assert_eq!(n.title, "Error: Could not start game");
    assert_eq!(n.message, "Could not start game: C:/games/th123/th123.exe");
}

#[test]
fn exactly_one_of_two_helpers_spawns_in_either_order() {
    let paths = sample_paths();
    let present = HelperEnv { exists: true, spawned: Some(11) };
    let absent = HelperEnv { exists: false, spawned: None };
    for helpers in [vec![present, absent], vec![absent, present]] {
        let env = SessionEnv {
            group_handle: 10,
            helpers,
            primary: PrimaryEnv { exists: true, spawned: Some(12), exit_code: 0 },
        };
        let r = run_session(&paths, &env);
        let spawned = r.steps.iter().filter(|s| matches!(s, Step::HelperSpawned(_))).count();
        let registered = r
            .steps
            .iter()
            .filter(|s| matches!(s, Step::Registered(h) if *h == 11))
            .count();
        let notified = r.steps.iter().filter(|s| matches!(s, Step::Notified)).count();
        assert_eq!(spawned, 1);
        assert_eq!(registered, 1);
        assert_eq!(notified, 0);
    }
}

#[test]
fn helper_spawn_failure_is_silent() {
    let paths = sample_paths();
    let env = SessionEnv {
        group_handle: 10,
        helpers: vec![HelperEnv { exists: true, spawned: None }],
        primary: PrimaryEnv { exists: true, spawned: Some(12), exit_code: 3 },
    };
    let r = run_session(&paths, &env);
    assert_eq!(
        r.steps,
        vec![
            Step::PrimarySpawned(12),
            Step::Registered(12),
            Step::PrimaryExited(3),
            Step::Released,
        ]
    );
    assert!(r.notification.is_none());
}

#[test]
fn game_exit_code_is_kept_and_release_comes_after_exit() {
    let paths = sample_paths();
    let env = SessionEnv {
        group_handle: 10,
        helpers: vec![HelperEnv { exists: true, spawned: Some(11) }],
        primary: PrimaryEnv { exists: true, spawned: Some(12), exit_code: 7 },
    };
    let r = run_session(&paths, &env);
    assert_eq!(r.outcome, ExitOutcome::Exited(7));
    let len = r.steps.len();
    assert_eq!(r.steps[len - 2], Step::PrimaryExited(7));
    assert_eq!(r.steps[len - 1], Step::Released);
}

#[test]
fn every_registration_precedes_the_release() {
    let paths = sample_paths();
    let env = SessionEnv {
        group_handle: 10,
        helpers: vec![
            HelperEnv { exists: true, spawned: Some(11) },
            HelperEnv { exists: true, spawned: Some(13) },
        ],
        primary: PrimaryEnv { exists: true, spawned: Some(12), exit_code: 0 },
    };
    let r = run_session(&paths, &env);
    let release_at = r
        .steps
        .iter()
        .position(|s| matches!(s, Step::Released))
        .unwrap();
    assert_eq!(release_at, r.steps.len() - 1);
    for (i, s) in r.steps.iter().enumerate() {
        if matches!(s, Step::Registered(_)) {
            assert!(i < release_at);
        }
    }
}

#[test]
fn degraded_group_still_runs_the_game() {
    let paths = sample_paths();
    let env = SessionEnv {
        group_handle: 0,
        helpers: vec![HelperEnv { exists: true, spawned: Some(11) }],
        primary: PrimaryEnv { exists: true, spawned: Some(12), exit_code: 0 },
    };
    let r = run_session(&paths, &env);
    assert_eq!(
        r.steps,
        vec![
            Step::HelperSpawned(11),
            Step::PrimarySpawned(12),
            Step::PrimaryExited(0),
            Step::Released,
        ]
    );
    assert_eq!(r.outcome, ExitOutcome::Exited(0));
    assert!(r.notification.is_none());
}
