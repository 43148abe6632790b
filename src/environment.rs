use vstd::prelude::*;

verus! {

/// The host family that a resolution is made for.
#[derive(Clone, Copy, Debug, PartialEq, Eq, Structural)]
pub enum Platform {
    Windows,
    Unix,
}

/// What happened when a command was run with a harmless `--help` flag.
#[derive(Clone, Copy, Debug, PartialEq, Eq, Structural)]
pub enum RunOutcome {
    /// The process could not be spawned.
    NotStarted,
    /// The process ran and exited with this status code.
    Exited(i32),
    /// The process ran but reported no status code.
    Terminated,
}

/// One observed `--help` run of a command.
#[derive(Clone, Debug, PartialEq, Eq)]
pub struct HelpRun {
    pub command: String,
    pub outcome: RunOutcome,
}

/// A snapshot of everything that tool resolution observes about the host: the entries of the
/// PATH-like variable, the directory of the running executable, which probed paths exist,
/// which names a `which`-style lookup found, and how probed commands answered `--help`.
/// Every resolution decision is a function of this snapshot alone.
#[derive(Clone, Debug, PartialEq, Eq)]
pub struct PlatformEnvironment {
    pub platform: Platform,
    pub path_dirs: Vec<String>,
    pub exe_dir: Option<String>,
    pub existing_paths: Vec<String>,
    pub found_commands: Vec<String>,
    pub help_runs: Vec<HelpRun>,
}

/// The mathematical content of a `PlatformEnvironment`.
pub struct EnvView {
    pub platform: Platform,
    pub path_dirs: Seq<Seq<char>>,
    pub exe_dir: Option<Seq<char>>,
    pub existing: Set<Seq<char>>,
    pub found: Set<Seq<char>>,
    pub runs: Seq<(Seq<char>, RunOutcome)>,
}

/// The character sequences of a sequence of strings.
pub open spec fn strs(v: Seq<String>) -> Seq<Seq<char>> {
    v.map_values(|s: String| s@)
}

/// The character sequence of an optional string.
pub open spec fn opt_str(o: Option<String>) -> Option<Seq<char>> {
    match o {
        Some(s) => Some(s@),
        None => None,
    }
}

impl View for PlatformEnvironment {
    type V = EnvView;

    open spec fn view(&self) -> EnvView {
        EnvView {
            platform: self.platform,
            path_dirs: strs(self.path_dirs@),
            exe_dir: opt_str(self.exe_dir),
            existing: strs(self.existing_paths@).to_set(),
            found: strs(self.found_commands@).to_set(),
            runs: self.help_runs@.map_values(|h: HelpRun| (h.command@, h.outcome)),
        }
    }
}

/// The outcome of the first recorded run of `cmd`; `NotStarted` when none was recorded.
pub open spec fn outcome_of(runs: Seq<(Seq<char>, RunOutcome)>, cmd: Seq<char>) -> RunOutcome
    decreases runs.len(),
{
    if runs.len() == 0 {
        RunOutcome::NotStarted
    } else if runs[0].0 == cmd {
        runs[0].1
    } else {
        outcome_of(runs.drop_first(), cmd)
    }
}

/// The first element of `cands` that lies in `present`.
pub open spec fn first_in(cands: Seq<Seq<char>>, present: Set<Seq<char>>) -> Option<Seq<char>>
    decreases cands.len(),
{
    if cands.len() == 0 {
        None
    } else if present.contains(cands[0]) {
        Some(cands[0])
    } else {
        first_in(cands.drop_first(), present)
    }
}

/// Whether `v` holds a string equal to `p`.
pub fn contains_string(v: &Vec<String>, p: &String) -> (r: bool)
    ensures
        r == strs(v@).contains(p@),
{
    let mut i: usize = 0;
    while i < v.len()
        invariant
            i <= v@.len(),
            forall|k: int| 0 <= k < i ==> v@[k]@ != p@,
        decreases v@.len() - i,
    {
        if v[i] == *p {
            assert(strs(v@)[i as int] == p@);
            return true;
        }
        i = i + 1;
    }
    assert forall|k: int| 0 <= k < strs(v@).len() implies strs(v@)[k] != p@ by {
        assert(strs(v@)[k] == v@[k]@);
    }
    false
}

/// The first of `cands` that `present` holds.
pub fn first_present(cands: &Vec<String>, present: &Vec<String>) -> (r: Option<String>)
    ensures
        opt_str(r) == first_in(strs(cands@), strs(present@).to_set()),
{
    let ghost all = strs(cands@);
    let ghost set = strs(present@).to_set();
    let n = cands.len();
    let mut i: usize = 0;
    assert(all.subrange(0, n as int) =~= all);
    while i < n
        invariant
            n == cands@.len(),
            all == strs(cands@),
            set == strs(present@).to_set(),
            i <= n,
            first_in(all, set) == first_in(all.subrange(i as int, n as int), set),
        decreases n - i,
    {
        let ghost rest = all.subrange(i as int, n as int);
        assert(rest[0] == cands@[i as int]@);
        if contains_string(present, &cands[i]) {
            return Some(cands[i].clone());
        }
        assert(rest.drop_first() =~= all.subrange(i + 1, n as int));
        i = i + 1;
    }
    None
}

/// The recorded outcome of running `cmd` with `--help`.
pub fn run_outcome(env: &PlatformEnvironment, cmd: &String) -> (r: RunOutcome)
    ensures
        r == outcome_of(env@.runs, cmd@),
{
    let ghost runs = env@.runs;
    let n = env.help_runs.len();
    let mut i: usize = 0;
    assert(runs.subrange(0, n as int) =~= runs);
    while i < n
        invariant
            n == env.help_runs@.len(),
            runs == env@.runs,
            runs.len() == n,
            i <= n,
            outcome_of(runs, cmd@) == outcome_of(runs.subrange(i as int, n as int), cmd@),
        decreases n - i,
    {
        let ghost rest = runs.subrange(i as int, n as int);
        assert(rest[0] == (env.help_runs@[i as int].command@, env.help_runs@[i as int].outcome));
        if env.help_runs[i].command == *cmd {
            return env.help_runs[i].outcome;
        }
        assert(rest.drop_first() =~= runs.subrange(i + 1, n as int));
        i = i + 1;
    }
    RunOutcome::NotStarted
}

} // verus!
