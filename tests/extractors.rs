use binwalk::environment::{HelpRun, Platform, PlatformEnvironment, RunOutcome};
use binwalk::extractors::common::{Extractor, ExtractorType};
use binwalk::extractors::squashfs::{
    mksquashfs_creator, squashfs_be_extractor, squashfs_extractor, squashfs_le_extractor, squashfs_v4_be_extractor,
};

fn strs(v: &[&str]) -> Vec<String> {
    v.iter().map(|s| s.to_string()).collect()
}

fn env(platform: Platform) -> PlatformEnvironment {
    PlatformEnvironment {
        platform,
        path_dirs: Vec::new(),
        exe_dir: None,
        existing_paths: Vec::new(),
        found_commands: Vec::new(),
        help_runs: Vec::new(),
    }
}

fn command(d: &Extractor) -> &str {
    match &d.utility {
        ExtractorType::External(c) => c.as_str(),
        _ => panic!("expected an external utility"),
    }
}

#[test]
fn unix_native_descriptor() {
    let mut e = env(Platform::Unix);
    e.found_commands = strs(&["sasquatch"]);
    let d = squashfs_extractor(&e);
    assert_eq!(command(&d), "sasquatch");
    assert_eq!(d.extension, "sqsh");
    assert_eq!(d.arguments, strs(&["-dest", ".", "-silent", "-force", "%e"]));
    assert_eq!(d.exit_codes, vec![0, 2]);
    let le = squashfs_le_extractor(&e);
    assert_eq!(le.arguments, strs(&["-dest", ".", "-le", "-silent", "-force", "%e"]));
    let be = squashfs_be_extractor(&e);
    assert_eq!(be.arguments, strs(&["-dest", ".", "-be", "-silent", "-force", "%e"]));
}

#[test]
fn unix_archive_tool_descriptor() {
    let mut e = env(Platform::Unix);
    e.found_commands = strs(&["7z"]);
    let d = squashfs_be_extractor(&e);
    assert_eq!(command(&d), "7z");
    assert_eq!(d.arguments, strs(&["x", "-y", "-o.", "%e"]));
    assert_eq!(d.exit_codes, vec![0]);
}

#[test]
fn unix_v4_descriptor() {
    let e = env(Platform::Unix);
    let d = squashfs_v4_be_extractor(&e);
    assert_eq!(command(&d), "sasquatch-v4be");
    assert_eq!(d.arguments, strs(&["-dest", ".", "-be-v4", "-silent", "-force", "%e"]));
    assert_eq!(d.exit_codes, vec![0, 2]);
}

#[test]
fn windows_available_tool_descriptor() {
    let mut e = env(Platform::Windows);
    e.existing_paths = strs(&["unsquashfs.exe", "C:\\Program Files\\7-Zip\\7z.exe"]);
    e.help_runs = vec![HelpRun { command: "unsquashfs.exe".to_string(), outcome: RunOutcome::Exited(1) }];
    let d = squashfs_le_extractor(&e);
    assert_eq!(command(&d), "unsquashfs.exe");
    assert_eq!(d.arguments, strs(&["-n", "-f", "-d", ".", "-le", "%e"]));
    assert_eq!(d.exit_codes, vec![0, 2]);
}

#[test]
fn windows_unavailable_tool_gives_way_to_archive_tool() {
    let mut e = env(Platform::Windows);
    e.existing_paths = strs(&["C:\\Program Files (x86)\\7-Zip\\7z.exe"]);
    let d = squashfs_v4_be_extractor(&e);
    assert_eq!(command(&d), "C:\\Program Files (x86)\\7-Zip\\7z.exe");
    assert_eq!(d.arguments, strs(&["x", "-y", "-o.", "%e"]));
    assert_eq!(d.exit_codes, vec![0]);
}

#[test]
fn windows_unavailable_tool_without_archive_tool_stands() {
    let e = env(Platform::Windows);
    let d = squashfs_v4_be_extractor(&e);
    assert_eq!(command(&d), "sqfs_for_win\\unsquashfs.exe");
    assert_eq!(
        d.arguments,
        strs(&["-n", "-f", "-d", ".", "-be", "-force-uid", "0", "-force-gid", "0", "%e"])
    );
    assert_eq!(d.exit_codes, vec![0, 2]);
}

#[test]
fn windows_resolved_archive_tool_uses_archive_arguments() {
    let mut e = env(Platform::Windows);
    e.existing_paths = strs(&[".\\7z.exe"]);
    e.help_runs = vec![HelpRun { command: ".\\7z.exe".to_string(), outcome: RunOutcome::Exited(0) }];
    let d = squashfs_extractor(&e);
    assert_eq!(command(&d), ".\\7z.exe");
    assert_eq!(d.arguments, strs(&["x", "-y", "-o.", "%e"]));
    assert_eq!(d.exit_codes, vec![0]);
}

#[test]
fn exit_codes_follow_tool_kind() {
    for found in [vec!["sasquatch"], vec!["7za"], vec![]] {
        let mut e = env(Platform::Unix);
        e.found_commands = strs(&found);
        for d in [squashfs_extractor(&e), squashfs_le_extractor(&e), squashfs_be_extractor(&e), squashfs_v4_be_extractor(&e)] {
            assert!(d.exit_codes.contains(&0));
            assert_eq!(d.exit_codes.contains(&2), !command(&d).contains("7z"));
        }
    }
}

#[test]
fn resolution_is_deterministic() {
    let mut e = env(Platform::Windows);
    e.path_dirs = strs(&["C:\\bin"]);
    e.existing_paths = strs(&["C:\\bin\\7z.exe"]);
    assert_eq!(squashfs_extractor(&e), squashfs_extractor(&e));
    assert_eq!(squashfs_v4_be_extractor(&e), squashfs_v4_be_extractor(&e));
    let mut reordered = e.clone();
    reordered.existing_paths = strs(&["nothing", "C:\\bin\\7z.exe", "C:\\bin\\7z.exe"]);
    assert_eq!(squashfs_be_extractor(&e), squashfs_be_extractor(&reordered));
}

#[test]
fn creator_descriptor() {
    let d = mksquashfs_creator(Platform::Unix, "rootfs", "out.sqsh");
    assert_eq!(command(&d), "mksquashfs");
    assert_eq!(d.extension, "sqsh");
    assert_eq!(d.arguments, strs(&["rootfs", "out.sqsh"]));
    assert_eq!(d.exit_codes, vec![0]);
    let w = mksquashfs_creator(Platform::Windows, "a", "b");
    assert_eq!(command(&w), "sqfs_for_win\\mksquashfs.exe");
}
