use vstd::prelude::*;
use crate::environment::{
    Platform, PlatformEnvironment, EnvView, strs, opt_str, first_in, first_present,
};
use crate::text::{joined, join_path};

verus! {

/// Where the bundled Windows port of the extraction tool may sit, in order of preference.
pub open spec fn windows_tool_paths() -> Seq<Seq<char>> {
    seq![
        "sqfs_for_win\\unsquashfs.exe"@,
        ".\\sqfs_for_win\\unsquashfs.exe"@,
        "unsquashfs.exe"@,
        "sasquatch.exe"@,
    ]
}

/// Conventional installation paths of the generic archive tool on Windows.
pub open spec fn seven_zip_common_paths() -> Seq<Seq<char>> {
    seq![
        "C:\\Program Files\\7-Zip\\7z.exe"@,
        "C:\\Program Files (x86)\\7-Zip\\7z.exe"@,
        ".\\7z.exe"@,
        ".\\7-Zip\\7z.exe"@,
    ]
}

/// Tool names tried on Unix-like hosts: the preferred extractor, its fallback, then the
/// generic archive tool under its usual names.
pub open spec fn unix_tool_names() -> Seq<Seq<char>> {
    seq!["sasquatch"@, "unsquashfs"@, "7z"@, "7za"@, "7zr"@]
}

/// The archive tool's executable joined onto each directory of `dirs`.
pub open spec fn seven_zip_in_dirs(dirs: Seq<Seq<char>>) -> Seq<Seq<char>> {
    dirs.map_values(|d: Seq<char>| joined(d, "7z.exe"@))
}

/// The archive tool beside the running executable and in its own subdirectory there.
pub open spec fn seven_zip_near_exe(exe_dir: Option<Seq<char>>) -> Seq<Seq<char>> {
    match exe_dir {
        Some(d) => seq![joined(d, "7z.exe"@), joined(joined(d, "7-Zip"@), "7z.exe"@)],
        None => Seq::empty(),
    }
}

/// Every path at which the archive tool is looked for on Windows, in order.
pub open spec fn seven_zip_candidates(e: EnvView) -> Seq<Seq<char>> {
    seven_zip_common_paths() + seven_zip_in_dirs(e.path_dirs) + seven_zip_near_exe(e.exe_dir)
}

/// The archive tool that the snapshot shows, if any.
pub open spec fn seven_zip_of(e: EnvView) -> Option<Seq<char>> {
    first_in(seven_zip_candidates(e), e.existing)
}

/// The extraction tool chosen for a snapshot; never empty-handed.
pub open spec fn squashfs_tool_of(e: EnvView) -> Seq<char> {
    match e.platform {
        Platform::Windows => match first_in(windows_tool_paths(), e.existing) {
            Some(p) => p,
            None => match seven_zip_of(e) {
                Some(p) => p,
                None => windows_tool_paths()[0],
            },
        },
        Platform::Unix => match first_in(unix_tool_names(), e.found) {
            Some(n) => n,
            None => unix_tool_names()[0],
        },
    }
}

/// The tool for big-endian version 4 images.
pub open spec fn v4be_tool_of(p: Platform) -> Seq<char> {
    match p {
        Platform::Windows => "sqfs_for_win\\unsquashfs.exe"@,
        Platform::Unix => "sasquatch-v4be"@,
    }
}

/// The tool that creates images.
pub open spec fn mksquashfs_tool_of(p: Platform) -> Seq<char> {
    match p {
        Platform::Windows => "sqfs_for_win\\mksquashfs.exe"@,
        Platform::Unix => "mksquashfs"@,
    }
}

/// The paths at which the bundled Windows extraction tool is looked for.
pub fn windows_tool_candidates() -> (r: Vec<String>)
    ensures
        strs(r@) == windows_tool_paths(),
{
    let r = vec![
        String::from_str("sqfs_for_win\\unsquashfs.exe"),
        String::from_str(".\\sqfs_for_win\\unsquashfs.exe"),
        String::from_str("unsquashfs.exe"),
        String::from_str("sasquatch.exe"),
    ];
    assert(strs(r@) =~= windows_tool_paths());
    r
}

/// The names that a `which`-style lookup is asked about on Unix-like hosts.
pub fn unix_tool_candidates() -> (r: Vec<String>)
    ensures
        strs(r@) == unix_tool_names(),
{
    let r = vec![
        String::from_str("sasquatch"),
        String::from_str("unsquashfs"),
        String::from_str("7z"),
        String::from_str("7za"),
        String::from_str("7zr"),
    ];
    assert(strs(r@) =~= unix_tool_names());
    r
}

/// Every path at which the generic archive tool is looked for on Windows, in order.
pub fn seven_zip_candidate_paths(env: &PlatformEnvironment) -> (r: Vec<String>)
    ensures
        strs(r@) == seven_zip_candidates(env@),
{
    let mut r = vec![
        String::from_str("C:\\Program Files\\7-Zip\\7z.exe"),
        String::from_str("C:\\Program Files (x86)\\7-Zip\\7z.exe"),
        String::from_str(".\\7z.exe"),
        String::from_str(".\\7-Zip\\7z.exe"),
    ];
    assert(strs(r@) =~= seven_zip_common_paths());
    let ghost dirs = env@.path_dirs;
    let mut i: usize = 0;
    while i < env.path_dirs.len()
        invariant
            i <= env.path_dirs@.len(),
            dirs == env@.path_dirs,
            strs(r@) == seven_zip_common_paths() + seven_zip_in_dirs(dirs.take(i as int)),
        decreases env.path_dirs@.len() - i,
    {
        let p = join_path(env.path_dirs[i].as_str(), "7z.exe");
        let ghost pv = p@;
        let ghost before = strs(r@);
        assert(dirs[i as int] == env.path_dirs@[i as int]@);
        r.push(p);
        assert(strs(r@) =~= before.push(pv));
        assert(seven_zip_in_dirs(dirs.take(i + 1)) =~= seven_zip_in_dirs(dirs.take(i as int)).push(
            pv,
        ));
        assert(strs(r@) =~= seven_zip_common_paths() + seven_zip_in_dirs(dirs.take(i + 1)));
        i = i + 1;
    }
    assert(dirs.take(i as int) =~= dirs);
    match &env.exe_dir {
        Some(d) => {
            let beside = join_path(d.as_str(), "7z.exe");
            let sub = join_path(d.as_str(), "7-Zip");
            let inside = join_path(sub.as_str(), "7z.exe");
            let ghost before = strs(r@);
            r.push(beside);
            r.push(inside);
            assert(strs(r@) =~= before + seven_zip_near_exe(env@.exe_dir));
        },
        None => {
            assert(strs(r@) =~= strs(r@) + seven_zip_near_exe(env@.exe_dir));
        },
    }
    r
}

/// Looks for the generic archive tool on Windows: conventional installation paths first,
/// then each directory of the PATH-like variable, then beside the running executable.
pub fn find_seven_zip(env: &PlatformEnvironment) -> (r: Option<String>)
    ensures
        opt_str(r) == seven_zip_of(env@),
{
    let cands = seven_zip_candidate_paths(env);
    first_present(&cands, &env.existing_paths)
}

/// Resolves the extraction tool: on Windows the first bundled path that exists, else the
/// generic archive tool, else the first bundled path; on Unix-like hosts the first name that
/// the lookup found, else the preferred extractor's name.
pub fn get_squashfs_tool(env: &PlatformEnvironment) -> (r: String)
    ensures
        r@ == squashfs_tool_of(env@),
{
    match env.platform {
        Platform::Windows => {
            let cands = windows_tool_candidates();
            match first_present(&cands, &env.existing_paths) {
                Some(p) => p,
                None => match find_seven_zip(env) {
                    Some(p) => p,
                    None => cands[0].clone(),
                },
            }
        },
        Platform::Unix => {
            let names = unix_tool_candidates();
            match first_present(&names, &env.found_commands) {
                Some(n) => n,
                None => names[0].clone(),
            }
        },
    }
}

/// The tool for big-endian version 4 images; a single name per platform.
pub fn get_squashfs_v4be_tool(platform: Platform) -> (r: String)
    ensures
        r@ == v4be_tool_of(platform),
{
    match platform {
        Platform::Windows => String::from_str("sqfs_for_win\\unsquashfs.exe"),
        Platform::Unix => String::from_str("sasquatch-v4be"),
    }
}

/// The tool that creates images; a single name per platform.
pub fn get_mksquashfs_tool(platform: Platform) -> (r: String)
    ensures
        r@ == mksquashfs_tool_of(platform),
{
    match platform {
        Platform::Windows => String::from_str("sqfs_for_win\\mksquashfs.exe"),
        Platform::Unix => String::from_str("mksquashfs"),
    }
}

/// On a Unix-like host where the lookup misses the preferred extractor but finds its
/// fallback, resolution picks the fallback.
pub proof fn lemma_unix_fallback_tool(e: EnvView)
    requires
        e.platform == Platform::Unix,
        !e.found.contains("sasquatch"@),
        e.found.contains("unsquashfs"@),
    ensures
        squashfs_tool_of(e) == "unsquashfs"@,
{
    let names = unix_tool_names();
    assert(names[0] == "sasquatch"@);
    assert(names.drop_first()[0] == "unsquashfs"@);
    assert(first_in(names, e.found) == first_in(names.drop_first(), e.found));
    assert(first_in(names.drop_first(), e.found) == Some("unsquashfs"@));
}

} // verus!
