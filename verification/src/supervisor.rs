//! Launch decisions and supervision of one launcher session.
//!
//! A session runs a fixed script: create the group, try each helper,
//! try the game, wait for the game, release the group. What varies is
//! the environment's answer at each point — whether a file exists,
//! whether a spawn succeeded, which exit code came back. The types here
//! describe those answers, the `*_steps` functions give the exact trace
//! of observable steps a session produces for given answers, and
//! [`run_session`] computes that trace together with the outcome, the
//! group state, and the failure notification if one is owed.
//!
//! The platform binding drives a real session step by step through
//! [`helper_plan`], [`primary_plan`], [`spawn_failed_notification`] and
//! the group methods; [`run_session`] is the same logic run over a
//! recorded environment in one call.

use crate::group::JobObjectManager;
use crate::paths::LauncherPaths;
use vstd::prelude::*;
use vstd::string::StringExecFns;

verus! {

/// The environment's answers for one helper: whether its executable
/// exists, and, if a spawn was then attempted, the raw handle of the
/// new process (`None` when the OS refused the spawn).
#[derive(Clone, Copy, PartialEq, Eq, Structural, Debug)]
pub struct HelperEnv {
    pub exists: bool,
    pub spawned: Option<usize>,
}

/// The environment's answers for the game process.
#[derive(Clone, Copy, PartialEq, Eq, Structural, Debug)]
pub struct PrimaryEnv {
    pub exists: bool,
    pub spawned: Option<usize>,
    pub exit_code: u32,
}

/// The answers of a whole session: the handle the kernel gave for the
/// grouping object (`0` when creation failed), one answer per helper,
/// and the answers for the game.
pub struct SessionEnv {
    pub group_handle: usize,
    pub helpers: Vec<HelperEnv>,
    pub primary: PrimaryEnv,
}

/// One observable step of a session, carrying the raw process handle
/// where one is involved.
#[derive(Clone, Copy, PartialEq, Eq, Structural, Debug)]
pub enum Step {
    HelperSpawned(usize),
    PrimarySpawned(usize),
    Registered(usize),
    Notified,
    PrimaryExited(u32),
    Released,
}

/// How a session ends: the game ran and exited with a code, or it never
/// started.
#[derive(Clone, Copy, PartialEq, Eq, Structural, Debug)]
pub enum ExitOutcome {
    Exited(u32),
    StartFailed,
}

/// A failure message for the user; shown by the platform binding.
pub struct Notification {
    pub title: String,
    pub message: String,
}

/// What one process spawn should look like.
pub struct SpawnRequest {
    /// The executable to start.
    pub path: String,
    /// Its working directory.
    pub cwd: String,
    /// Whether to start it detached: no window, no inherited standard
    /// streams.
    pub detached: bool,
}

/// What the primary launch attempt decides: start the game, or give up
/// with a notification.
pub enum PrimaryPlan {
    Launch(SpawnRequest),
    Abort(Notification),
}

/// The steps one helper contributes: nothing unless its executable
/// exists and the spawn succeeded; then the spawn, followed by the
/// registration if the group is live and the handle valid.
pub open spec fn helper_steps(e: HelperEnv, live: bool) -> Seq<Step> {
    if e.exists {
        match e.spawned {
            Some(h) => seq![Step::HelperSpawned(h)] + if live && h != 0 {
                seq![Step::Registered(h)]
            } else {
                Seq::<Step>::empty()
            },
            None => Seq::<Step>::empty(),
        }
    } else {
        Seq::<Step>::empty()
    }
}

/// The steps of all helpers, in order.
pub open spec fn helpers_steps(hs: Seq<HelperEnv>, live: bool) -> Seq<Step>
    decreases hs.len(),
{
    if hs.len() == 0 {
        Seq::<Step>::empty()
    } else {
        helpers_steps(hs.drop_last(), live) + helper_steps(hs.last(), live)
    }
}

/// The steps the game contributes: one notification when it is missing
/// or would not spawn; otherwise the spawn, the registration if the
/// group is live and the handle valid, and the exit.
pub open spec fn primary_steps(p: PrimaryEnv, live: bool) -> Seq<Step> {
    if !p.exists {
        seq![Step::Notified]
    } else {
        match p.spawned {
            Some(h) => seq![Step::PrimarySpawned(h)] + (if live && h != 0 {
                seq![Step::Registered(h)]
            } else {
                Seq::<Step>::empty()
            }) + seq![Step::PrimaryExited(p.exit_code)],
            None => seq![Step::Notified],
        }
    }
}

/// The full trace of a session: the helpers, then the game, then the
/// release of the group — release comes last on every path.
pub open spec fn session_steps(group_handle: usize, hs: Seq<HelperEnv>, p: PrimaryEnv) -> Seq<
    Step,
> {
    helpers_steps(hs, group_handle != 0) + primary_steps(p, group_handle != 0) + seq![
        Step::Released,
    ]
}

/// How a session with these answers for the game ends.
pub open spec fn session_outcome(p: PrimaryEnv) -> ExitOutcome {
    if p.exists && p.spawned is Some {
        ExitOutcome::Exited(p.exit_code)
    } else {
        ExitOutcome::StartFailed
    }
}

/// The message shown when the game executable is missing.
pub open spec fn missing_message_spec(path: Seq<char>) -> Seq<char> {
    "th123.exe not found: "@ + path
}

/// The message shown when the game executable would not spawn.
pub open spec fn spawn_failed_message_spec(path: Seq<char>) -> Seq<char> {
    "Could not start game: "@ + path
}

/// The notification owed when the game executable is missing.
pub fn missing_notification(paths: &LauncherPaths) -> (n: Notification)
    ensures
        n.title@ == "Error: Game file not found"@,
        n.message@ == missing_message_spec(paths.primary_path@),
{
    let message = String::from_str("th123.exe not found: ").concat(paths.primary_path.as_str());
    Notification { title: String::from_str("Error: Game file not found"), message }
}

/// The notification owed when the game executable would not spawn.
pub fn spawn_failed_notification(paths: &LauncherPaths) -> (n: Notification)
    ensures
        n.title@ == "Error: Could not start game"@,
        n.message@ == spawn_failed_message_spec(paths.primary_path@),
{
    let message = String::from_str("Could not start game: ").concat(paths.primary_path.as_str());
    Notification { title: String::from_str("Error: Could not start game"), message }
}

/// The launch decision for one helper: spawn it detached in `base_dir`
/// exactly when its executable exists; otherwise do nothing, silently.
/// No notification is ever part of a helper plan.
pub fn helper_plan(paths: &LauncherPaths, index: usize, exists: bool) -> (r: Option<SpawnRequest>)
    requires
        index < paths.helper_paths@.len(),
    ensures
        r is Some <==> exists,
        r matches Some(req) ==> {
            &&& req.path@ == paths.helper_paths@[index as int]@
            &&& req.cwd@ == paths.base_dir@
            &&& req.detached
        },
{
    if exists {
        let path = paths.helper_paths[index].clone();
        let cwd = paths.base_dir.clone();
        Some(SpawnRequest { path, cwd, detached: true })
    } else {
        None
    }
}

/// The launch decision for the game: spawn it, not detached, with its
/// own directory as working directory, exactly when its executable
/// exists; otherwise abort with the missing-file notification.
pub fn primary_plan(paths: &LauncherPaths, exists: bool) -> (r: PrimaryPlan)
    ensures
        exists ==> (r matches PrimaryPlan::Launch(req) && {
            &&& req.path@ == paths.primary_path@
            &&& req.cwd@ == crate::paths::parent_spec(paths.primary_path@)
            &&& !req.detached
        }),
        !exists ==> (r matches PrimaryPlan::Abort(n) && {
            &&& n.title@ == "Error: Game file not found"@
            &&& n.message@ == missing_message_spec(paths.primary_path@)
        }),
{
    if exists {
        let path = paths.primary_path.clone();
        let cwd = crate::paths::parent_dir(paths.primary_path.as_str());
        PrimaryPlan::Launch(SpawnRequest { path, cwd, detached: false })
    } else {
        PrimaryPlan::Abort(missing_notification(paths))
    }
}

/// The raw handles of the `Registered` steps of a trace, in order.
pub open spec fn registered_handles(t: Seq<Step>) -> Seq<usize>
    decreases t.len(),
{
    if t.len() == 0 {
        Seq::<usize>::empty()
    } else {
        let rest = registered_handles(t.drop_last());
        match t.last() {
            Step::Registered(h) => rest.push(h),
            _ => rest,
        }
    }
}

proof fn lemma_registered_handles_push(t: Seq<Step>, s: Step)
    ensures
        registered_handles(t.push(s)) == (match s {
            Step::Registered(h) => registered_handles(t).push(h),
            _ => registered_handles(t),
        }),
{
    assert(t.push(s).drop_last() =~= t);
    assert(t.push(s).last() == s);
}

/// Everything one session leaves behind.
pub struct SessionReport {
    /// The observable steps, in order.
    pub steps: Vec<Step>,
    /// How the session ended.
    pub outcome: ExitOutcome,
    /// The failure notification, owed exactly when the game never ran.
    pub notification: Option<Notification>,
    /// The group, released, with every registration recorded.
    pub group: JobObjectManager,
}

/// Runs one whole session over recorded environment answers: creates
/// the group, tries each helper in order, tries the game, and releases
/// the group last on every path. The trace, the outcome, the owed
/// notification and the final group state are exactly the ones the
/// spec-level model gives for these answers.
pub fn run_session(paths: &LauncherPaths, env: &SessionEnv) -> (r: SessionReport)
    ensures
        r.steps@ == session_steps(env.group_handle, env.helpers@, env.primary),
        r.outcome == session_outcome(env.primary),
        (r.notification is Some) <==> (session_outcome(env.primary) is StartFailed),
        !env.primary.exists ==> (r.notification matches Some(n) && n.title@
            == "Error: Game file not found"@ && n.message@ == missing_message_spec(
            paths.primary_path@,
        )),
        (env.primary.exists && env.primary.spawned is None) ==> (r.notification matches Some(n)
            && n.title@ == "Error: Could not start game"@ && n.message@
            == spawn_failed_message_spec(paths.primary_path@)),
        r.group.handle() == env.group_handle,
        r.group.released(),
        r.group.members() == registered_handles(r.steps@),
{
    let ghost live = env.group_handle != 0;
    let mut group = JobObjectManager::new(env.group_handle);
    let mut steps: Vec<Step> = Vec::new();
    let mut i: usize = 0;
    proof {
        assert(env.helpers@.subrange(0, 0) =~= Seq::<HelperEnv>::empty());
    }
    while i < env.helpers.len()
        invariant
            i <= env.helpers@.len(),
            live == (env.group_handle != 0),
            steps@ == helpers_steps(env.helpers@.subrange(0, i as int), live),
            group.handle() == env.group_handle,
            !group.released(),
            group.members() == registered_handles(steps@),
        decreases env.helpers@.len() - i,
    {
        let ghost pre = env.helpers@.subrange(0, i as int);
        let h = env.helpers[i];
        proof {
            assert(env.helpers@.subrange(0, i + 1).drop_last() =~= pre);
            assert(env.helpers@.subrange(0, i + 1).last() == h);
        }
        if h.exists {
            match h.spawned {
                Some(hdl) => {
                    proof {
                        lemma_registered_handles_push(steps@, Step::HelperSpawned(hdl));
                    }
                    steps.push(Step::HelperSpawned(hdl));
                    let accepted = group.assign_process(hdl);
                    if accepted {
                        proof {
                            lemma_registered_handles_push(steps@, Step::Registered(hdl));
                        }
                        steps.push(Step::Registered(hdl));
                        proof {
                            assert(steps@ =~= helpers_steps(pre, live) + seq![
                                Step::HelperSpawned(hdl),
                            ] + seq![Step::Registered(hdl)]);
                        }
                    } else {
                        proof {
                            assert(steps@ =~= helpers_steps(pre, live) + seq![
                                Step::HelperSpawned(hdl),
                            ] + Seq::<Step>::empty());
                        }
                    }
                },
                None => {
                    proof {
                        assert(steps@ =~= helpers_steps(pre, live) + Seq::<Step>::empty());
                    }
                },
            }
        } else {
            proof {
                assert(steps@ =~= helpers_steps(pre, live) + Seq::<Step>::empty());
            }
        }
        i = i + 1;
    }
    proof {
        assert(env.helpers@.subrange(0, env.helpers@.len() as int) =~= env.helpers@);
    }
    let ghost helper_part = steps@;
    if !env.primary.exists {
        let n = missing_notification(paths);
        proof {
            lemma_registered_handles_push(steps@, Step::Notified);
        }
        steps.push(Step::Notified);
        let _ = group.release();
        proof {
            lemma_registered_handles_push(steps@, Step::Released);
        }
        steps.push(Step::Released);
        proof {
            assert(steps@ =~= helper_part + seq![Step::Notified] + seq![Step::Released]);
        }
        return SessionReport {
            steps,
            outcome: ExitOutcome::StartFailed,
            notification: Some(n),
            group,
        };
    }
    match env.primary.spawned {
        None => {
            let n = spawn_failed_notification(paths);
            proof {
                lemma_registered_handles_push(steps@, Step::Notified);
            }
            steps.push(Step::Notified);
            let _ = group.release();
            proof {
                lemma_registered_handles_push(steps@, Step::Released);
            }
            steps.push(Step::Released);
            proof {
                assert(steps@ =~= helper_part + seq![Step::Notified] + seq![Step::Released]);
            }
            SessionReport { steps, outcome: ExitOutcome::StartFailed, notification: Some(n), group }
        },
        Some(hdl) => {
            proof {
                lemma_registered_handles_push(steps@, Step::PrimarySpawned(hdl));
            }
            steps.push(Step::PrimarySpawned(hdl));
            let accepted = group.assign_process(hdl);
            if accepted {
                proof {
                    lemma_registered_handles_push(steps@, Step::Registered(hdl));
                }
                steps.push(Step::Registered(hdl));
            }
            let code = env.primary.exit_code;
            proof {
                lemma_registered_handles_push(steps@, Step::PrimaryExited(code));
            }
            steps.push(Step::PrimaryExited(code));
            let _ = group.release();
            proof {
                lemma_registered_handles_push(steps@, Step::Released);
            }
            steps.push(Step::Released);
            proof {
                if live && hdl != 0 {
                    assert(steps@ =~= helper_part + (seq![Step::PrimarySpawned(hdl)] + seq![
                        Step::Registered(hdl),
                    ] + seq![Step::PrimaryExited(code)]) + seq![Step::Released]);
                } else {
                    assert(steps@ =~= helper_part + (seq![Step::PrimarySpawned(hdl)] + Seq::<
                        Step,
                    >::empty() + seq![Step::PrimaryExited(code)]) + seq![Step::Released]);
                }
            }
            SessionReport {
                steps,
                outcome: ExitOutcome::Exited(code),
                notification: None,
                group,
            }
        },
    }
}

} // verus!
