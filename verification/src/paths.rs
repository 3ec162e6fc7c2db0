//! Resolution of the fixed executable locations.
//!
//! Every path the launcher touches is derived from the directory that
//! contains the launcher binary itself: the game, and the helper tools,
//! sit at fixed relative locations below it. Resolution is pure string
//! composition; whether a path exists on disk is checked later by the
//! launching routines, never here.

use vstd::prelude::*;
use vstd::string::StrSliceExecFns;
use vstd::string::StringExecFns;

verus! {

/// A path separator: composed paths use `/`, but paths coming from the
/// platform may use `\` as well.
pub open spec fn is_sep(c: char) -> bool {
    c == '/' || c == '\\'
}

/// The directory part of `s`: everything before the last separator.
/// A path without any separator has no directory part.
pub open spec fn parent_spec(s: Seq<char>) -> Seq<char>
    decreases s.len(),
{
    if s.len() == 0 {
        s
    } else if is_sep(s.last()) {
        s.drop_last()
    } else {
        parent_spec(s.drop_last())
    }
}

/// Joining a relative component onto a base directory. An empty base
/// stands for the current directory, so the component alone is the result.
pub open spec fn join_spec(base: Seq<char>, rel: Seq<char>) -> Seq<char> {
    if base.len() == 0 {
        rel
    } else {
        base + "/"@ + rel
    }
}

/// The directory holding the game and the helper tools.
pub open spec fn app_dir_spec(base: Seq<char>) -> Seq<char> {
    join_spec(base, "th123"@)
}

/// Where the game executable is expected.
pub open spec fn primary_path_spec(base: Seq<char>) -> Seq<char> {
    join_spec(app_dir_spec(base), "th123.exe"@)
}

/// Where the first helper tool is expected.
pub open spec fn swarm_path_spec(base: Seq<char>) -> Seq<char> {
    join_spec(app_dir_spec(base), "swarm.exe"@)
}

/// Where the second helper tool is expected.
pub open spec fn tsk_path_spec(base: Seq<char>) -> Seq<char> {
    join_spec(app_dir_spec(base), "tsk/tsk_110A/tsk_yamei.exe"@)
}

/// The directory part of `s`: everything before the last separator,
/// or the empty string when `s` has no separator.
pub fn parent_dir(s: &str) -> (r: String)
    ensures
        r@ == parent_spec(s@),
{
    let n: usize = s.unicode_len();
    let mut i: usize = n;
    proof {
        assert(s@.subrange(0, n as int) =~= s@);
    }
    while i > 0
        invariant
            i <= n,
            n == s@.len(),
            parent_spec(s@.subrange(0, i as int)) == parent_spec(s@),
        decreases i,
    {
        let c = s.get_char(i - 1);
        proof {
            assert(s@.subrange(0, i as int).last() == s@[i - 1]);
            assert(s@.subrange(0, i as int).drop_last() =~= s@.subrange(0, i - 1));
        }
        if c == '/' || c == '\\' {
            let sub = s.substring_char(0, i - 1);
            return String::from_str(sub);
        }
        i = i - 1;
    }
    proof {
        assert(s@.subrange(0, 0) =~= Seq::<char>::empty());
    }
    String::new()
}

/// Appends one relative component to a base directory, with `/` between
/// them; an empty base yields the component alone.
pub fn join(base: &str, rel: &str) -> (r: String)
    ensures
        r@ == join_spec(base@, rel@),
{
    if base.is_empty() {
        String::from_str(rel)
    } else {
        let mut s = String::from_str(base);
        s.append("/");
        s.append(rel);
        s
    }
}

/// The fixed set of executable locations, all derived from `base_dir`,
/// the directory containing the launcher binary.
pub struct LauncherPaths {
    /// Directory containing the launcher binary; working directory of the
    /// helper tools.
    pub base_dir: String,
    /// The game executable.
    pub primary_path: String,
    /// The helper tool executables, in launch order.
    pub helper_paths: Vec<String>,
}

impl LauncherPaths {
    /// Everything `resolve` promises of the result.
    pub open spec fn resolved_from(self, launcher_exe: Seq<char>) -> bool {
        let base = parent_spec(launcher_exe);
        &&& self.base_dir@ == base
        &&& self.primary_path@ == primary_path_spec(base)
        &&& self.helper_paths@.len() == 2
        &&& self.helper_paths@[0]@ == swarm_path_spec(base)
        &&& self.helper_paths@[1]@ == tsk_path_spec(base)
    }

    /// Derives every target location from the location of the launcher
    /// binary itself. Never fails: whether the paths exist is a later,
    /// separate question.
    pub fn resolve(launcher_exe: &str) -> (r: LauncherPaths)
        ensures
            r.resolved_from(launcher_exe@),
    {
        let base = parent_dir(launcher_exe);
        let app_dir = join(base.as_str(), "th123");
        let primary_path = join(app_dir.as_str(), "th123.exe");
        let swarm_path = join(app_dir.as_str(), "swarm.exe");
        let tsk_path = join(app_dir.as_str(), "tsk/tsk_110A/tsk_yamei.exe");
        let mut helper_paths: Vec<String> = Vec::new();
        helper_paths.push(swarm_path);
        helper_paths.push(tsk_path);
        LauncherPaths { base_dir: base, primary_path, helper_paths }
    }
}

} // verus!
