use vstd::prelude::*;
use crate::args::{arguments_of, is_archive_tool, is_generic_archive_tool, squashfs_arguments};
use crate::environment::{Platform, PlatformEnvironment, EnvView};
use crate::extractors::common::{Extractor, ExtractorType, ExtractorView, UtilityView};
use crate::environment::outcome_of;
use crate::probe::{
    available_with, direct_run_ok, is_tool_available_on_windows, needs_exe_suffix, probe_paths_of,
    started, tool_available_of,
};
use crate::resolve::{
    find_seven_zip, get_mksquashfs_tool, get_squashfs_tool, get_squashfs_v4be_tool,
    mksquashfs_tool_of, seven_zip_candidates, seven_zip_of, squashfs_tool_of, v4be_tool_of,
};

verus! {

/// Exit codes that count as success: the archive tool knows only 0; native extractors also
/// use 2 for "extracted with warnings".
pub open spec fn exit_codes_of(archive: bool) -> Seq<i32> {
    if archive {
        seq![0i32]
    } else {
        seq![0i32, 2i32]
    }
}

/// The descriptor that runs `tool` on an image with the given format parameters.
pub open spec fn descriptor_of(platform: Platform, tool: Seq<char>, le: bool, be: bool, v4: bool) -> ExtractorView {
    ExtractorView {
        utility: UtilityView::External(tool),
        extension: "sqsh"@,
        arguments: arguments_of(platform, is_archive_tool(tool), le, be, v4),
        exit_codes: exit_codes_of(is_archive_tool(tool)),
    }
}

/// The descriptor built around a resolved `tool`: on Windows a tool that the snapshot does
/// not show to be invocable gives way to the archive tool when one is found; otherwise the
/// tool stands, and any failure shows when it is spawned.
pub open spec fn extractor_of(e: EnvView, tool: Seq<char>, le: bool, be: bool, v4: bool) -> ExtractorView {
    if e.platform == Platform::Windows && !tool_available_of(e, tool) {
        match seven_zip_of(e) {
            Some(p) => descriptor_of(e.platform, p, le, be, v4),
            None => descriptor_of(e.platform, tool, le, be, v4),
        }
    } else {
        descriptor_of(e.platform, tool, le, be, v4)
    }
}

/// The descriptor for one of the extraction variants, resolving its tool from the snapshot.
pub open spec fn variant_extractor_of(e: EnvView, le: bool, be: bool, v4: bool) -> ExtractorView {
    let tool = if be && v4 {
        v4be_tool_of(e.platform)
    } else {
        squashfs_tool_of(e)
    };
    extractor_of(e, tool, le, be, v4)
}

/// Builds the descriptor that runs `tool`.
fn descriptor(platform: Platform, tool: String, le: bool, be: bool, v4: bool) -> (r: Extractor)
    ensures
        r@ == descriptor_of(platform, tool@, le, be, v4),
{
    let archive = is_generic_archive_tool(tool.as_str());
    let arguments = squashfs_arguments(platform, archive, le, be, v4);
    let exit_codes = if archive {
        vec![0i32]
    } else {
        vec![0i32, 2i32]
    };
    assert(exit_codes@ =~= exit_codes_of(archive));
    Extractor {
        utility: ExtractorType::External(tool),
        extension: String::from_str("sqsh"),
        arguments,
        exit_codes,
    }
}

/// Builds the descriptor around a resolved tool, falling back to the archive tool on
/// Windows when the snapshot does not show the tool to be invocable.
fn extractor_with_tool(env: &PlatformEnvironment, tool: String, le: bool, be: bool, v4: bool) -> (r:
    Extractor)
    ensures
        r@ == extractor_of(env@, tool@, le, be, v4),
{
    if env.platform == Platform::Windows && !is_tool_available_on_windows(env, &tool) {
        if let Some(p) = find_seven_zip(env) {
            return descriptor(env.platform, p, le, be, v4);
        }
    }
    descriptor(env.platform, tool, le, be, v4)
}

/// Describes how to run the utility that creates images from `source_dir` into `output_file`.
pub fn mksquashfs_creator(platform: Platform, source_dir: &str, output_file: &str) -> (r: Extractor)
    ensures
        r@ == (ExtractorView {
            utility: UtilityView::External(mksquashfs_tool_of(platform)),
            extension: "sqsh"@,
            arguments: seq![source_dir@, output_file@],
            exit_codes: seq![0i32],
        }),
{
    let arguments = vec![String::from_str(source_dir), String::from_str(output_file)];
    let exit_codes = vec![0i32];
    let r = Extractor {
        utility: ExtractorType::External(get_mksquashfs_tool(platform)),
        extension: String::from_str("sqsh"),
        arguments,
        exit_codes,
    };
    assert(r@.arguments =~= seq![source_dir@, output_file@]);
    assert(r@.exit_codes =~= seq![0i32]);
    r
}

/// Describes how to extract images whose byte order is left to the tool.
pub fn squashfs_extractor(env: &PlatformEnvironment) -> (r: Extractor)
    ensures
        r@ == variant_extractor_of(env@, false, false, false),
{
    extractor_with_tool(env, get_squashfs_tool(env), false, false, false)
}

/// Describes how to extract little-endian images.
pub fn squashfs_le_extractor(env: &PlatformEnvironment) -> (r: Extractor)
    ensures
        r@ == variant_extractor_of(env@, true, false, false),
{
    extractor_with_tool(env, get_squashfs_tool(env), true, false, false)
}

/// Describes how to extract big-endian images.
pub fn squashfs_be_extractor(env: &PlatformEnvironment) -> (r: Extractor)
    ensures
        r@ == variant_extractor_of(env@, false, true, false),
{
    extractor_with_tool(env, get_squashfs_tool(env), false, true, false)
}

/// Describes how to extract big-endian version 4 images.
pub fn squashfs_v4_be_extractor(env: &PlatformEnvironment) -> (r: Extractor)
    ensures
        r@ == variant_extractor_of(env@, false, true, true),
{
    extractor_with_tool(env, get_squashfs_v4be_tool(env.platform), false, true, true)
}

/// Every descriptor accepts exit code 0, and accepts 2 exactly when its utility is a native
/// extractor rather than the archive tool.
pub proof fn lemma_exit_codes(e: EnvView, le: bool, be: bool, v4: bool)
    ensures
        ({
            let d = variant_extractor_of(e, le, be, v4);
            &&& d.utility is External
            &&& d.exit_codes.contains(0i32)
            &&& d.exit_codes.contains(2i32) <==> !is_archive_tool(d.utility->External_0)
        }),
{
    let d = variant_extractor_of(e, le, be, v4);
    let t = d.utility->External_0;
    assert(d.exit_codes == exit_codes_of(is_archive_tool(t)));
    if is_archive_tool(t) {
        assert(d.exit_codes[0] == 0i32);
        assert(!d.exit_codes.contains(2i32)) by {
            assert(d.exit_codes.len() == 1);
        }
    } else {
        assert(d.exit_codes[0] == 0i32);
        assert(d.exit_codes[1] == 2i32);
    }
}

/// Resolution depends on nothing but what the host shows: two snapshots that agree on the
/// platform, the search directories, the executable's directory, the paths that exist, the
/// names that the lookup finds and the outcome of every run give the same descriptor.
pub proof fn lemma_resolution_deterministic(e1: EnvView, e2: EnvView, le: bool, be: bool, v4: bool)
    requires
        e1.platform == e2.platform,
        e1.path_dirs == e2.path_dirs,
        e1.exe_dir == e2.exe_dir,
        e1.existing == e2.existing,
        e1.found == e2.found,
        forall|c: Seq<char>| outcome_of(e1.runs, c) == outcome_of(e2.runs, c),
    ensures
        variant_extractor_of(e1, le, be, v4) == variant_extractor_of(e2, le, be, v4),
{
    assert(seven_zip_candidates(e1) == seven_zip_candidates(e2));
    assert(squashfs_tool_of(e1) == squashfs_tool_of(e2));
    let t = if be && v4 {
        v4be_tool_of(e1.platform)
    } else {
        squashfs_tool_of(e1)
    };
    let paths1 = probe_paths_of(e1, t, needs_exe_suffix(t));
    let paths2 = probe_paths_of(e2, t, needs_exe_suffix(t));
    assert(paths1 == paths2);
    assert(tool_available_of(e1, t) == tool_available_of(e2, t)) by {
        assert(outcome_of(e1.runs, t) == outcome_of(e2.runs, t));
        if available_with(e1, t, paths1) && !direct_run_ok(outcome_of(e1.runs, t)) {
            let i = choose|i: int|
                0 <= i < paths1.len() && #[trigger] e1.existing.contains(paths1[i]) && started(
                    outcome_of(e1.runs, paths1[i]),
                );
            assert(outcome_of(e1.runs, paths1[i]) == outcome_of(e2.runs, paths1[i]));
            assert(e2.existing.contains(paths2[i]));
        }
        if available_with(e2, t, paths2) && !direct_run_ok(outcome_of(e2.runs, t)) {
            let i = choose|i: int|
                0 <= i < paths2.len() && #[trigger] e2.existing.contains(paths2[i]) && started(
                    outcome_of(e2.runs, paths2[i]),
                );
            assert(outcome_of(e1.runs, paths2[i]) == outcome_of(e2.runs, paths2[i]));
            assert(e1.existing.contains(paths1[i]));
        }
    }
}

} // verus!
