use vstd::prelude::*;
use crate::environment::{
    PlatformEnvironment, EnvView, RunOutcome, strs, outcome_of, contains_string, run_outcome,
};
use crate::text::{is_separator, joined, join_path, lower_of, lowercase, ends_with_seq, str_ends_with};

verus! {

/// Index of the last path separator in `s`, or -1 when there is none.
pub open spec fn last_separator(s: Seq<char>) -> int
    decreases s.len(),
{
    if s.len() == 0 {
        -1
    } else if is_separator(s.last()) {
        s.len() - 1
    } else {
        last_separator(s.drop_last())
    }
}

/// The last component of a path, by this library's own rule: what follows its last `\` or
/// `/`. Unlike `Path::file_name` a trailing separator leaves it empty and `..` counts as a name.
pub open spec fn file_name_of(s: Seq<char>) -> Seq<char> {
    s.subrange(last_separator(s) + 1, s.len() as int)
}

/// Whether a probe must also try the name with `.exe` added: when its lowercase form does not
/// already end in `.exe`.
pub open spec fn needs_exe_suffix(tool: Seq<char>) -> bool {
    !ends_with_seq(lower_of(tool), ".exe"@)
}

/// The relative spellings under which a tool is looked for, each also with `.exe` appended
/// when `add_exe` holds.
pub open spec fn relative_variants(tool: Seq<char>, add_exe: bool) -> Seq<Seq<char>> {
    let base = seq![tool, ".\\"@ + tool, "sqfs_for_win\\"@ + tool, ".\\sqfs_for_win\\"@ + tool];
    if add_exe {
        let t = tool + ".exe"@;
        base + seq![t, ".\\"@ + t, "sqfs_for_win\\"@ + t, ".\\sqfs_for_win\\"@ + t]
    } else {
        base
    }
}

/// The paths tried in one directory of the PATH-like variable; none for an empty entry.
pub open spec fn dir_variants(dir: Seq<char>, tool: Seq<char>, add_exe: bool) -> Seq<Seq<char>> {
    if dir.len() == 0 {
        Seq::empty()
    } else if add_exe {
        seq![joined(dir, tool), joined(dir, tool + ".exe"@)]
    } else {
        seq![joined(dir, tool)]
    }
}

/// The paths tried over all directories of the PATH-like variable, in order.
pub open spec fn path_variants(dirs: Seq<Seq<char>>, tool: Seq<char>, add_exe: bool) -> Seq<
    Seq<char>,
>
    decreases dirs.len(),
{
    if dirs.len() == 0 {
        Seq::empty()
    } else {
        path_variants(dirs.drop_last(), tool, add_exe) + dir_variants(dirs.last(), tool, add_exe)
    }
}

/// The paths tried beside the running executable and in its tool subdirectory.
pub open spec fn exe_variants(exe_dir: Option<Seq<char>>, tool: Seq<char>) -> Seq<Seq<char>> {
    match exe_dir {
        Some(d) => seq![joined(d, tool), joined(joined(d, "sqfs_for_win"@), file_name_of(tool))],
        None => Seq::empty(),
    }
}

/// Every path that the availability probe tries after the direct run, in order.
pub open spec fn probe_paths_of(e: EnvView, tool: Seq<char>, add_exe: bool) -> Seq<Seq<char>> {
    relative_variants(tool, add_exe) + path_variants(e.path_dirs, tool, add_exe) + exe_variants(
        e.exe_dir,
        tool,
    )
}

/// A direct run counts when the tool exits with 0 or 1, as tools printing usage often do.
pub open spec fn direct_run_ok(o: RunOutcome) -> bool {
    o == RunOutcome::Exited(0) || o == RunOutcome::Exited(1)
}

/// A run of a found path counts whenever the process started.
pub open spec fn started(o: RunOutcome) -> bool {
    o != RunOutcome::NotStarted
}

/// Whether the snapshot shows the tool to be invocable, given the paths to probe.
pub open spec fn available_with(e: EnvView, tool: Seq<char>, paths: Seq<Seq<char>>) -> bool {
    ||| direct_run_ok(outcome_of(e.runs, tool))
    ||| exists|i: int|
        0 <= i < paths.len() && #[trigger] e.existing.contains(paths[i]) && started(
            outcome_of(e.runs, paths[i]),
        )
}

/// Whether the snapshot shows the tool to be invocable.
pub open spec fn tool_available_of(e: EnvView, tool: Seq<char>) -> bool {
    available_with(e, tool, probe_paths_of(e, tool, needs_exe_suffix(tool)))
}

/// The last component of a path, by the rule that `file_name_of` states.
pub fn file_name(s: &str) -> (r: String)
    ensures
        r@ == file_name_of(s@),
{
    let n = s.unicode_len();
    let mut start: usize = 0;
    let mut i: usize = 0;
    assert(s@.take(0) =~= Seq::<char>::empty());
    while i < n
        invariant
            n == s@.len(),
            i <= n,
            start <= i,
            start as int == last_separator(s@.take(i as int)) + 1,
        decreases n - i,
    {
        let c = s.get_char(i);
        assert(s@.take(i + 1).drop_last() =~= s@.take(i as int));
        assert(s@.take(i + 1).last() == c);
        if c == '\\' || c == '/' {
            start = i + 1;
        }
        i = i + 1;
    }
    assert(s@.take(n as int) =~= s@);
    String::from_str(s.substring_char(start, n))
}

/// Prefixes `tool` with each relative directory spelling.
fn push_prefixed(r: &mut Vec<String>, tool: &str)
    ensures
        strs(final(r)@) == strs(old(r)@) + seq![
            tool@,
            ".\\"@ + tool@,
            "sqfs_for_win\\"@ + tool@,
            ".\\sqfs_for_win\\"@ + tool@,
        ],
{
    let ghost before = strs(r@);
    r.push(String::from_str(tool));
    r.push(String::from_str(".\\").concat(tool));
    r.push(String::from_str("sqfs_for_win\\").concat(tool));
    r.push(String::from_str(".\\sqfs_for_win\\").concat(tool));
    assert(strs(r@) =~= before + seq![
        tool@,
        ".\\"@ + tool@,
        "sqfs_for_win\\"@ + tool@,
        ".\\sqfs_for_win\\"@ + tool@,
    ]);
}

/// Every path that the availability probe tries after the direct run, given whether `.exe`
/// spellings are added.
pub fn probe_paths_for(env: &PlatformEnvironment, tool: &str, add_exe: bool) -> (r: Vec<String>)
    ensures
        strs(r@) == probe_paths_of(env@, tool@, add_exe),
{
    let mut r: Vec<String> = Vec::new();
    push_prefixed(&mut r, tool);
    let with_exe = String::from_str(tool).concat(".exe");
    if add_exe {
        push_prefixed(&mut r, with_exe.as_str());
    }
    assert(strs(r@) =~= relative_variants(tool@, add_exe));
    let ghost dirs = env@.path_dirs;
    let ghost head = strs(r@);
    let mut i: usize = 0;
    assert(dirs.take(0) =~= Seq::<Seq<char>>::empty());
    assert(strs(r@) =~= head + path_variants(dirs.take(0), tool@, add_exe));
    while i < env.path_dirs.len()
        invariant
            i <= env.path_dirs@.len(),
            dirs == env@.path_dirs,
            with_exe@ == tool@ + ".exe"@,
            strs(r@) == head + path_variants(dirs.take(i as int), tool@, add_exe),
        decreases env.path_dirs@.len() - i,
    {
        let dir = env.path_dirs[i].as_str();
        let ghost before = strs(r@);
        assert(dirs[i as int] == dir@);
        if dir.unicode_len() > 0 {
            r.push(join_path(dir, tool));
            if add_exe {
                r.push(join_path(dir, with_exe.as_str()));
            }
        }
        assert(strs(r@) =~= before + dir_variants(dir@, tool@, add_exe));
        assert(dirs.take(i + 1).drop_last() =~= dirs.take(i as int));
        assert(dirs.take(i + 1).last() == dir@);
        assert(strs(r@) =~= head + path_variants(dirs.take(i + 1), tool@, add_exe));
        i = i + 1;
    }
    assert(dirs.take(i as int) =~= dirs);
    let ghost mid = strs(r@);
    match &env.exe_dir {
        Some(d) => {
            r.push(join_path(d.as_str(), tool));
            let sub = join_path(d.as_str(), "sqfs_for_win");
            let name = file_name(tool);
            r.push(join_path(sub.as_str(), name.as_str()));
        },
        None => {},
    }
    assert(strs(r@) =~= mid + exe_variants(env@.exe_dir, tool@));
    r
}

/// Every path that the availability probe tries after the direct run.
pub fn availability_probe_paths(env: &PlatformEnvironment, tool: &str) -> (r: Vec<String>)
    ensures
        strs(r@) == probe_paths_of(env@, tool@, needs_exe_suffix(tool@)),
{
    let lower = lowercase(tool);
    let has_exe = str_ends_with(lower.as_str(), ".exe");
    probe_paths_for(env, tool, !has_exe)
}

/// Decides availability from the snapshot: the direct run exited with 0 or 1, or one of
/// `paths` exists and its run started.
pub fn tool_available(env: &PlatformEnvironment, tool: &String, paths: &Vec<String>) -> (r: bool)
    ensures
        r == available_with(env@, tool@, strs(paths@)),
{
    let direct = run_outcome(env, tool);
    if direct == RunOutcome::Exited(0) || direct == RunOutcome::Exited(1) {
        return true;
    }
    let ghost ps = strs(paths@);
    let mut i: usize = 0;
    while i < paths.len()
        invariant
            i <= paths@.len(),
            ps == strs(paths@),
            !direct_run_ok(outcome_of(env@.runs, tool@)),
            forall|k: int|
                0 <= k < i ==> !(#[trigger] env@.existing.contains(ps[k]) && started(
                    outcome_of(env@.runs, ps[k]),
                )),
        decreases paths@.len() - i,
    {
        assert(ps[i as int] == paths@[i as int]@);
        if contains_string(&env.existing_paths, &paths[i]) {
            if run_outcome(env, &paths[i]) != RunOutcome::NotStarted {
                assert(env@.existing.contains(ps[i as int]) && started(
                    outcome_of(env@.runs, ps[i as int]),
                ));
                return true;
            }
        }
        i = i + 1;
    }
    false
}

/// Whether the snapshot shows the tool to be invocable: tried directly, then under each
/// derived path that exists.
pub fn is_tool_available_on_windows(env: &PlatformEnvironment, tool: &String) -> (r: bool)
    ensures
        r == tool_available_of(env@, tool@),
{
    let paths = availability_probe_paths(env, tool.as_str());
    tool_available(env, tool, &paths)
}

} // verus!
