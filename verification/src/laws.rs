//! Session-wide guarantees, proved over the trace model.
//!
//! Each public proof function here states one guarantee of the launcher
//! as a whole — what a session trace can and cannot contain, and in
//! which order — for every environment, not for chosen examples.

use crate::supervisor::HelperEnv;
use crate::supervisor::PrimaryEnv;
use crate::supervisor::Step;
use crate::supervisor::helper_steps;
use crate::supervisor::helpers_steps;
use crate::supervisor::primary_steps;
use crate::supervisor::session_steps;
use vstd::prelude::*;

verus! {

/// How many steps of a trace satisfy `p`.
pub open spec fn count_steps(t: Seq<Step>, p: spec_fn(Step) -> bool) -> nat
    decreases t.len(),
{
    if t.len() == 0 {
        0
    } else {
        count_steps(t.drop_last(), p) + (if p(t.last()) {
            1nat
        } else {
            0nat
        })
    }
}

/// The step is a user notification.
pub open spec fn notified_p() -> spec_fn(Step) -> bool {
    (|s: Step| s is Notified)
}

/// The step is the release of the group.
pub open spec fn released_p() -> spec_fn(Step) -> bool {
    (|s: Step| s is Released)
}

/// The step is the spawn of a helper process.
pub open spec fn helper_spawned_p() -> spec_fn(Step) -> bool {
    (|s: Step| s is HelperSpawned)
}

/// The step is the spawn of the game process.
pub open spec fn primary_spawned_p() -> spec_fn(Step) -> bool {
    (|s: Step| s is PrimarySpawned)
}

pub proof fn lemma_count_app(a: Seq<Step>, b: Seq<Step>, p: spec_fn(Step) -> bool)
    ensures
        count_steps(a + b, p) == count_steps(a, p) + count_steps(b, p),
    decreases b.len(),
{
    if b.len() == 0 {
        assert(a + b =~= a);
    } else {
        assert((a + b).drop_last() =~= a + b.drop_last());
        assert((a + b).last() == b.last());
        lemma_count_app(a, b.drop_last(), p);
    }
}

pub proof fn lemma_count_singleton(s: Step, p: spec_fn(Step) -> bool)
    ensures
        count_steps(seq![s], p) == (if p(s) {
            1nat
        } else {
            0nat
        }),
{
    reveal_with_fuel(count_steps, 2);
    assert(seq![s].drop_last() =~= Seq::<Step>::empty());
    assert(seq![s].last() == s);
}

pub proof fn lemma_count_zero(t: Seq<Step>, p: spec_fn(Step) -> bool)
    requires
        count_steps(t, p) == 0,
    ensures
        forall|i: int| 0 <= i < t.len() ==> !p(#[trigger] t[i]),
    decreases t.len(),
{
    if t.len() > 0 {
        lemma_count_zero(t.drop_last(), p);
        assert forall|i: int| 0 <= i < t.len() implies !p(t[i]) by {
            if i < t.len() - 1 {
                assert(t.drop_last()[i] == t[i]);
            } else {
                assert(t[i] == t.last());
            }
        }
    }
}

/// One helper never notifies the user, never releases the group, and
/// never spawns the game.
proof fn lemma_helper_steps_counts(e: HelperEnv, live: bool)
    ensures
        count_steps(helper_steps(e, live), notified_p()) == 0,
        count_steps(helper_steps(e, live), released_p()) == 0,
        count_steps(helper_steps(e, live), primary_spawned_p()) == 0,
{
    if e.exists && e.spawned is Some {
        let h = e.spawned->0;
        let reg: Seq<Step> = if live && h != 0 {
            seq![Step::Registered(h)]
        } else {
            Seq::<Step>::empty()
        };
        lemma_count_app(seq![Step::HelperSpawned(h)], reg, notified_p());
        lemma_count_app(seq![Step::HelperSpawned(h)], reg, released_p());
        lemma_count_app(seq![Step::HelperSpawned(h)], reg, primary_spawned_p());
        lemma_count_singleton(Step::HelperSpawned(h), notified_p());
        lemma_count_singleton(Step::HelperSpawned(h), released_p());
        lemma_count_singleton(Step::HelperSpawned(h), primary_spawned_p());
        if live && h != 0 {
            lemma_count_singleton(Step::Registered(h), notified_p());
            lemma_count_singleton(Step::Registered(h), released_p());
            lemma_count_singleton(Step::Registered(h), primary_spawned_p());
        }
    }
}

/// The helpers, taken together, never notify the user, never release
/// the group, and never spawn the game; helper failures stay silent.
pub proof fn lemma_helpers_steps_counts(hs: Seq<HelperEnv>, live: bool)
    ensures
        count_steps(helpers_steps(hs, live), notified_p()) == 0,
        count_steps(helpers_steps(hs, live), released_p()) == 0,
        count_steps(helpers_steps(hs, live), primary_spawned_p()) == 0,
    decreases hs.len(),
{
    if hs.len() > 0 {
        lemma_helpers_steps_counts(hs.drop_last(), live);
        lemma_helper_steps_counts(hs.last(), live);
        lemma_count_app(helpers_steps(hs.drop_last(), live), helper_steps(hs.last(), live), notified_p());
        lemma_count_app(helpers_steps(hs.drop_last(), live), helper_steps(hs.last(), live), released_p());
        lemma_count_app(
            helpers_steps(hs.drop_last(), live),
            helper_steps(hs.last(), live),
            primary_spawned_p(),
        );
    }
}

/// What the game contributes, by count: it never releases the group and
/// never spawns a helper; it notifies exactly once when it is missing
/// or would not spawn, and never otherwise; it spawns exactly once when
/// it exists and the spawn succeeded.
proof fn lemma_primary_steps_counts(p: PrimaryEnv, live: bool)
    ensures
        count_steps(primary_steps(p, live), released_p()) == 0,
        count_steps(primary_steps(p, live), helper_spawned_p()) == 0,
        count_steps(primary_steps(p, live), notified_p()) == (if p.exists && p.spawned is Some {
            0nat
        } else {
            1nat
        }),
        count_steps(primary_steps(p, live), primary_spawned_p()) == (if p.exists
            && p.spawned is Some {
            1nat
        } else {
            0nat
        }),
{
    if p.exists && p.spawned is Some {
        let h = p.spawned->0;
        let reg: Seq<Step> = if live && h != 0 {
            seq![Step::Registered(h)]
        } else {
            Seq::<Step>::empty()
        };
        let spawn = seq![Step::PrimarySpawned(h)];
        let exit = seq![Step::PrimaryExited(p.exit_code)];
        lemma_count_app(spawn, reg, released_p());
        lemma_count_app(spawn + reg, exit, released_p());
        lemma_count_app(spawn, reg, helper_spawned_p());
        lemma_count_app(spawn + reg, exit, helper_spawned_p());
        lemma_count_app(spawn, reg, notified_p());
        lemma_count_app(spawn + reg, exit, notified_p());
        lemma_count_app(spawn, reg, primary_spawned_p());
        lemma_count_app(spawn + reg, exit, primary_spawned_p());
        lemma_count_singleton(Step::PrimarySpawned(h), released_p());
        lemma_count_singleton(Step::PrimarySpawned(h), helper_spawned_p());
        lemma_count_singleton(Step::PrimarySpawned(h), notified_p());
        lemma_count_singleton(Step::PrimarySpawned(h), primary_spawned_p());
        lemma_count_singleton(Step::PrimaryExited(p.exit_code), released_p());
        lemma_count_singleton(Step::PrimaryExited(p.exit_code), helper_spawned_p());
        lemma_count_singleton(Step::PrimaryExited(p.exit_code), notified_p());
        lemma_count_singleton(Step::PrimaryExited(p.exit_code), primary_spawned_p());
        if live && h != 0 {
            lemma_count_singleton(Step::Registered(h), released_p());
            lemma_count_singleton(Step::Registered(h), helper_spawned_p());
            lemma_count_singleton(Step::Registered(h), notified_p());
            lemma_count_singleton(Step::Registered(h), primary_spawned_p());
        }
    } else {
        lemma_count_singleton(Step::Notified, released_p());
        lemma_count_singleton(Step::Notified, helper_spawned_p());
        lemma_count_singleton(Step::Notified, notified_p());
        lemma_count_singleton(Step::Notified, primary_spawned_p());
    }
}

/// A helper whose executable is missing contributes nothing: no spawn,
/// no registration, no notification.
pub proof fn lemma_missing_helper_silent(e: HelperEnv, live: bool)
    requires
        !e.exists,
    ensures
        helper_steps(e, live) == Seq::<Step>::empty(),
{
}

/// When none of the helper executables exist, the helpers contribute
/// nothing at all to the session.
pub proof fn lemma_missing_helpers_launch_nothing(hs: Seq<HelperEnv>, live: bool)
    requires
        forall|i: int| 0 <= i < hs.len() ==> !(#[trigger] hs[i]).exists,
    ensures
        helpers_steps(hs, live) == Seq::<Step>::empty(),
    decreases hs.len(),
{
    if hs.len() > 0 {
        assert forall|i: int| 0 <= i < hs.drop_last().len() implies !(#[trigger] hs.drop_last()[i]).exists by {
            assert(hs.drop_last()[i] == hs[i]);
        }
        lemma_missing_helpers_launch_nothing(hs.drop_last(), live);
        assert(!hs[hs.len() - 1].exists);
        assert(helpers_steps(hs, live) =~= Seq::<Step>::empty());
    }
}

/// The group is released exactly once, as the last step of every
/// session, and every registration — of a process the session itself
/// spawned — comes before that release.
pub proof fn lemma_registration_precedes_release(
    group_handle: usize,
    hs: Seq<HelperEnv>,
    p: PrimaryEnv,
)
    ensures
        ({
            let t = session_steps(group_handle, hs, p);
            &&& t.len() >= 1
            &&& t.last() is Released
            &&& count_steps(t, released_p()) == 1
            &&& forall|i: int, j: int|
                0 <= i < t.len() && 0 <= j < t.len() && (#[trigger] t[i]) is Registered && (
                #[trigger] t[j]) is Released ==> i < j
        }),
{
    let live = group_handle != 0;
    let h = helpers_steps(hs, live);
    let pr = primary_steps(p, live);
    let body = h + pr;
    let t = session_steps(group_handle, hs, p);
    assert(t =~= body + seq![Step::Released]);
    lemma_helpers_steps_counts(hs, live);
    lemma_primary_steps_counts(p, live);
    lemma_count_app(h, pr, released_p());
    lemma_count_app(body, seq![Step::Released], released_p());
    lemma_count_singleton(Step::Released, released_p());
    lemma_count_zero(body, released_p());
    assert(t.last() == Step::Released);
    assert forall|i: int, j: int|
        0 <= i < t.len() && 0 <= j < t.len() && (#[trigger] t[i]) is Registered && (#[trigger] t[j]) is Released implies i
        < j by {
        if j < t.len() - 1 {
            assert(t[j] == body[j]);
            assert(!(released_p()(body[j])));
        }
        assert(j == t.len() - 1);
        if i == t.len() - 1 {
            assert(t[i] == Step::Released);
        }
    }
}

/// A missing game is reported exactly once, the game is never spawned,
/// whatever the helpers did stays in the trace unchanged, and the group
/// is still released last — so helpers that did start are cleaned up.
pub proof fn lemma_missing_primary_notifies_once(
    group_handle: usize,
    hs: Seq<HelperEnv>,
    p: PrimaryEnv,
)
    requires
        !p.exists,
    ensures
        ({
            let t = session_steps(group_handle, hs, p);
            &&& count_steps(t, notified_p()) == 1
            &&& count_steps(t, primary_spawned_p()) == 0
            &&& t =~= helpers_steps(hs, group_handle != 0) + seq![Step::Notified, Step::Released]
            &&& t.last() is Released
        }),
{
    let live = group_handle != 0;
    let h = helpers_steps(hs, live);
    let pr = primary_steps(p, live);
    let t = session_steps(group_handle, hs, p);
    lemma_helpers_steps_counts(hs, live);
    lemma_primary_steps_counts(p, live);
    lemma_count_app(h, pr, notified_p());
    lemma_count_app(h + pr, seq![Step::Released], notified_p());
    lemma_count_singleton(Step::Released, notified_p());
    lemma_count_app(h, pr, primary_spawned_p());
    lemma_count_app(h + pr, seq![Step::Released], primary_spawned_p());
    lemma_count_singleton(Step::Released, primary_spawned_p());
    assert(t =~= h + seq![Step::Notified, Step::Released]);
    assert(t.last() == Step::Released);
}

/// When the game runs, the session never notifies, the game's exit is
/// the next-to-last step, and the release of the group is the very last
/// — cleanup strictly follows the game's exit.
pub proof fn lemma_primary_exit_precedes_release(
    group_handle: usize,
    hs: Seq<HelperEnv>,
    p: PrimaryEnv,
)
    requires
        p.exists,
        p.spawned is Some,
    ensures
        ({
            let t = session_steps(group_handle, hs, p);
            &&& t.len() >= 2
            &&& t[t.len() - 2] == Step::PrimaryExited(p.exit_code)
            &&& t[t.len() - 1] == Step::Released
            &&& count_steps(t, notified_p()) == 0
        }),
{
    let live = group_handle != 0;
    let h = helpers_steps(hs, live);
    let pr = primary_steps(p, live);
    let t = session_steps(group_handle, hs, p);
    lemma_helpers_steps_counts(hs, live);
    lemma_primary_steps_counts(p, live);
    lemma_count_app(h, pr, notified_p());
    lemma_count_app(h + pr, seq![Step::Released], notified_p());
    lemma_count_singleton(Step::Released, notified_p());
    assert(pr.last() == Step::PrimaryExited(p.exit_code));
    assert(t[t.len() - 2] == pr.last());
    assert(t[t.len() - 1] == Step::Released);
}

/// Launching two helpers where exactly one executable exists — in
/// either order — spawns and registers exactly that one process, with
/// no error surfaced: the trace is the spawn and the registration,
/// nothing else.
pub proof fn lemma_one_valid_one_missing(a: HelperEnv, b: HelperEnv, h: usize, live: bool)
    requires
        a.exists,
        a.spawned == Some(h),
        h != 0,
        !b.exists,
        live,
    ensures
        helpers_steps(seq![a, b], live) =~= seq![Step::HelperSpawned(h), Step::Registered(h)],
        helpers_steps(seq![b, a], live) =~= seq![Step::HelperSpawned(h), Step::Registered(h)],
{
    reveal_with_fuel(helpers_steps, 3);
    assert(seq![a, b].drop_last() =~= seq![a]);
    assert(seq![a, b].last() == b);
    assert(seq![a].drop_last() =~= Seq::<HelperEnv>::empty());
    assert(seq![a].last() == a);
    assert(seq![b, a].drop_last() =~= seq![b]);
    assert(seq![b, a].last() == a);
    assert(seq![b].drop_last() =~= Seq::<HelperEnv>::empty());
    assert(seq![b].last() == b);
}

} // verus!
