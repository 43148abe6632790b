use binwalk::environment::{HelpRun, Platform, PlatformEnvironment, RunOutcome};
use binwalk::probe::{availability_probe_paths, file_name, is_tool_available_on_windows, probe_paths_for};
use binwalk::resolve::{
    find_seven_zip, get_mksquashfs_tool, get_squashfs_tool, get_squashfs_v4be_tool, seven_zip_candidate_paths,
    unix_tool_candidates, windows_tool_candidates,
};
use binwalk::text::{join_path, split_search_path, str_contains, str_ends_with};

fn strs(v: &[&str]) -> Vec<String> {
    v.iter().map(|s| s.to_string()).collect()
}

fn env(platform: Platform) -> PlatformEnvironment {
    PlatformEnvironment {
        platform,
        path_dirs: Vec::new(),
        exe_dir: None,
        existing_paths: Vec::new(),
        found_commands: Vec::new(),
        help_runs: Vec::new(),
    }
}

#[test]
fn unix_resolves_preferred_tool() {
    let mut e = env(Platform::Unix);
    e.found_commands = strs(&["unsquashfs", "sasquatch"]);
    assert_eq!(get_squashfs_tool(&e), "sasquatch");
}

#[test]
fn unix_resolves_fallback_tool() {
    let mut e = env(Platform::Unix);
    e.found_commands = strs(&["unsquashfs"]);
    assert_eq!(get_squashfs_tool(&e), "unsquashfs");
    e.found_commands = strs(&["7z", "unsquashfs"]);
    assert_eq!(get_squashfs_tool(&e), "unsquashfs");
}

#[test]
fn unix_resolves_archive_tool_names_in_order() {
    let mut e = env(Platform::Unix);
    e.found_commands = strs(&["7zr", "7za"]);
    assert_eq!(get_squashfs_tool(&e), "7za");
}

#[test]
fn unix_defaults_to_preferred_tool() {
    let mut e = env(Platform::Unix);
    e.existing_paths = strs(&["sqfs_for_win\\unsquashfs.exe"]);
    assert_eq!(get_squashfs_tool(&e), "sasquatch");
}

#[test]
fn windows_takes_first_existing_bundled_path() {
    let mut e = env(Platform::Windows);
    e.existing_paths = strs(&["sasquatch.exe", ".\\sqfs_for_win\\unsquashfs.exe", "C:\\Program Files\\7-Zip\\7z.exe"]);
    assert_eq!(get_squashfs_tool(&e), ".\\sqfs_for_win\\unsquashfs.exe");
}

#[test]
fn windows_falls_back_to_archive_tool_on_path() {
    let mut e = env(Platform::Windows);
    e.path_dirs = strs(&["C:\\Windows", "C:\\Tools\\"]);
    e.existing_paths = strs(&["C:\\Tools\\7z.exe"]);
    assert_eq!(get_squashfs_tool(&e), "C:\\Tools\\7z.exe");
}

#[test]
fn windows_archive_tool_beside_executable() {
    let mut e = env(Platform::Windows);
    e.exe_dir = Some("D:\\binwalk".to_string());
    e.existing_paths = strs(&["D:\\binwalk\\7-Zip\\7z.exe"]);
    assert_eq!(find_seven_zip(&e), Some("D:\\binwalk\\7-Zip\\7z.exe".to_string()));
    assert_eq!(get_squashfs_tool(&e), "D:\\binwalk\\7-Zip\\7z.exe");
}

#[test]
fn windows_defaults_to_bundled_path() {
    let e = env(Platform::Windows);
    assert_eq!(find_seven_zip(&e), None);
    assert_eq!(get_squashfs_tool(&e), "sqfs_for_win\\unsquashfs.exe");
}

#[test]
fn seven_zip_candidates_in_order() {
    let mut e = env(Platform::Windows);
    e.path_dirs = strs(&["C:\\bin", "", "E:/x/"]);
    e.exe_dir = Some("D:\\app".to_string());
    assert_eq!(
        seven_zip_candidate_paths(&e),
        strs(&[
            "C:\\Program Files\\7-Zip\\7z.exe",
            "C:\\Program Files (x86)\\7-Zip\\7z.exe",
            ".\\7z.exe",
            ".\\7-Zip\\7z.exe",
            "C:\\bin\\7z.exe",
            "7z.exe",
            "E:/x/7z.exe",
            "D:\\app\\7z.exe",
            "D:\\app\\7-Zip\\7z.exe",
        ])
    );
}

#[test]
fn fixed_tool_lists() {
    assert_eq!(
        windows_tool_candidates(),
        strs(&["sqfs_for_win\\unsquashfs.exe", ".\\sqfs_for_win\\unsquashfs.exe", "unsquashfs.exe", "sasquatch.exe"])
    );
    assert_eq!(unix_tool_candidates(), strs(&["sasquatch", "unsquashfs", "7z", "7za", "7zr"]));
}

#[test]
fn single_candidate_tools() {
    assert_eq!(get_squashfs_v4be_tool(Platform::Windows), "sqfs_for_win\\unsquashfs.exe");
    assert_eq!(get_squashfs_v4be_tool(Platform::Unix), "sasquatch-v4be");
    assert_eq!(get_mksquashfs_tool(Platform::Windows), "sqfs_for_win\\mksquashfs.exe");
    assert_eq!(get_mksquashfs_tool(Platform::Unix), "mksquashfs");
}

#[test]
fn probe_paths_add_exe_spellings() {
    let mut e = env(Platform::Windows);
    e.path_dirs = strs(&["C:\\bin", ""]);
    e.exe_dir = Some("D:\\app".to_string());
    assert_eq!(
        availability_probe_paths(&e, "unsquashfs"),
        strs(&[
            "unsquashfs",
            ".\\unsquashfs",
            "sqfs_for_win\\unsquashfs",
            ".\\sqfs_for_win\\unsquashfs",
            "unsquashfs.exe",
            ".\\unsquashfs.exe",
            "sqfs_for_win\\unsquashfs.exe",
            ".\\sqfs_for_win\\unsquashfs.exe",
            "C:\\bin\\unsquashfs",
            "C:\\bin\\unsquashfs.exe",
            "D:\\app\\unsquashfs",
            "D:\\app\\sqfs_for_win\\unsquashfs",
        ])
    );
}

#[test]
fn probe_paths_keep_exe_suffix_in_any_case() {
    let mut e = env(Platform::Windows);
    e.exe_dir = Some("D:\\app".to_string());
    assert_eq!(
        availability_probe_paths(&e, "sqfs_for_win\\Tool.EXE"),
        strs(&[
            "sqfs_for_win\\Tool.EXE",
            ".\\sqfs_for_win\\Tool.EXE",
            "sqfs_for_win\\sqfs_for_win\\Tool.EXE",
            ".\\sqfs_for_win\\sqfs_for_win\\Tool.EXE",
            "D:\\app\\sqfs_for_win\\Tool.EXE",
            "D:\\app\\sqfs_for_win\\Tool.EXE",
        ])
    );
    assert_eq!(probe_paths_for(&e, "a", false).len(), 6);
}

#[test]
fn direct_run_with_usage_status_is_available() {
    let mut e = env(Platform::Windows);
    let tool = "unsquashfs.exe".to_string();
    e.help_runs = vec![HelpRun { command: tool.clone(), outcome: RunOutcome::Exited(1) }];
    assert!(is_tool_available_on_windows(&e, &tool));
    e.help_runs = vec![HelpRun { command: tool.clone(), outcome: RunOutcome::Exited(0) }];
    assert!(is_tool_available_on_windows(&e, &tool));
    e.help_runs = vec![HelpRun { command: tool.clone(), outcome: RunOutcome::Exited(2) }];
    assert!(!is_tool_available_on_windows(&e, &tool));
}

#[test]
fn existing_path_that_starts_is_available() {
    let mut e = env(Platform::Windows);
    let tool = "unsquashfs.exe".to_string();
    e.existing_paths = strs(&["sqfs_for_win\\unsquashfs.exe"]);
    e.help_runs = vec![
        HelpRun { command: tool.clone(), outcome: RunOutcome::NotStarted },
        HelpRun { command: "sqfs_for_win\\unsquashfs.exe".to_string(), outcome: RunOutcome::Exited(3) },
    ];
    assert!(is_tool_available_on_windows(&e, &tool));
}

#[test]
fn path_must_exist_and_start() {
    let mut e = env(Platform::Windows);
    let tool = "unsquashfs.exe".to_string();
    e.help_runs = vec![HelpRun { command: "sqfs_for_win\\unsquashfs.exe".to_string(), outcome: RunOutcome::Terminated }];
    assert!(!is_tool_available_on_windows(&e, &tool));
    e.existing_paths = strs(&["sqfs_for_win\\unsquashfs.exe"]);
    assert!(is_tool_available_on_windows(&e, &tool));
    e.help_runs = vec![HelpRun { command: "sqfs_for_win\\unsquashfs.exe".to_string(), outcome: RunOutcome::NotStarted }];
    assert!(!is_tool_available_on_windows(&e, &tool));
}

#[test]
fn first_recorded_run_counts() {
    let mut e = env(Platform::Windows);
    let tool = "x".to_string();
    e.help_runs = vec![
        HelpRun { command: tool.clone(), outcome: RunOutcome::Exited(5) },
        HelpRun { command: tool.clone(), outcome: RunOutcome::Exited(0) },
    ];
    assert!(!is_tool_available_on_windows(&e, &tool));
}

#[test]
fn file_name_is_last_component() {
    assert_eq!(file_name("a\\b/c.exe"), "c.exe");
    assert_eq!(file_name("plain"), "plain");
    assert_eq!(file_name("dir\\"), "");
}

#[test]
fn search_path_splits_on_semicolons() {
    assert_eq!(split_search_path("C:\\a;D:\\b"), strs(&["C:\\a", "D:\\b"]));
    assert_eq!(split_search_path(""), strs(&[""]));
    assert_eq!(split_search_path(";x;"), strs(&["", "x", ""]));
}

#[test]
fn paths_join_with_backslash() {
    assert_eq!(join_path("C:\\a", "b.exe"), "C:\\a\\b.exe");
    assert_eq!(join_path("C:\\a\\", "b.exe"), "C:\\a\\b.exe");
    assert_eq!(join_path("/usr/", "b"), "/usr/b");
    assert_eq!(join_path("", "b"), "b");
}

#[test]
fn substring_and_suffix_tests() {
    assert!(str_contains("abc7zdef", "7z"));
    assert!(!str_contains("7", "7z"));
    assert!(str_contains("", ""));
    assert!(str_ends_with("tool.exe", ".exe"));
    assert!(!str_ends_with("tool.EXE", ".exe"));
}
