use vstd::prelude::*;
use crate::environment::{Platform, strs};
use crate::extractors::common::{SOURCE_FILE_PLACEHOLDER, placeholder};
use crate::text::{contains_seq, lower_of, lowercase, str_contains};

verus! {

/// A lowercase tool name that names the generic archive tool.
pub open spec fn names_archive_tool(lowered: Seq<char>) -> bool {
    contains_seq(lowered, "7z"@) || contains_seq(lowered, "7-zip"@)
}

/// Whether a tool, by its name, is the generic archive tool rather than a native extractor.
pub open spec fn is_archive_tool(tool: Seq<char>) -> bool {
    names_archive_tool(lower_of(tool))
}

/// The flags that make the Windows extractor read big-endian version 4 images.
pub open spec fn windows_v4_flags() -> Seq<Seq<char>> {
    seq!["-force-uid"@, "0"@, "-force-gid"@, "0"@]
}

/// The byte-order flags for the native extractor.
pub open spec fn endian_flags(platform: Platform, le: bool, be: bool, v4: bool) -> Seq<Seq<char>> {
    if le {
        seq!["-le"@]
    } else if be {
        match platform {
            Platform::Windows => if v4 {
                seq!["-be"@] + windows_v4_flags()
            } else {
                seq!["-be"@]
            },
            Platform::Unix => if v4 {
                seq!["-be-v4"@]
            } else {
                seq!["-be"@]
            },
        }
    } else {
        Seq::empty()
    }
}

/// The argument sequence for a tool of the given kind and the given format parameters.
pub open spec fn arguments_of(platform: Platform, archive: bool, le: bool, be: bool, v4: bool) -> Seq<
    Seq<char>,
> {
    if archive {
        seq!["x"@, "-y"@, "-o."@, placeholder()]
    } else {
        match platform {
            Platform::Windows => seq!["-n"@, "-f"@, "-d"@, "."@] + endian_flags(platform, le, be, v4)
                + seq![placeholder()],
            Platform::Unix => seq!["-dest"@, "."@] + endian_flags(platform, le, be, v4) + seq![
                "-silent"@,
                "-force"@,
                placeholder(),
            ],
        }
    }
}

/// Whether an already lowercased tool name names the generic archive tool.
pub fn is_archive_tool_name(lowered: &str) -> (r: bool)
    ensures
        r == names_archive_tool(lowered@),
{
    str_contains(lowered, "7z") || str_contains(lowered, "7-zip")
}

/// Whether a tool is the generic archive tool, judged by its name in any case.
pub fn is_generic_archive_tool(tool: &str) -> (r: bool)
    ensures
        r == is_archive_tool(tool@),
{
    let lower = lowercase(tool);
    is_archive_tool_name(lower.as_str())
}

fn push_str(v: &mut Vec<String>, s: &str)
    ensures
        strs(final(v)@) == strs(old(v)@).push(s@),
{
    v.push(String::from_str(s));
    assert(strs(v@) =~= strs(old(v)@).push(s@));
}

/// Builds the argument sequence for a tool of the given kind: the archive tool's fixed
/// extraction command, or the native extractor's flags followed by the placeholder.
pub fn squashfs_arguments(platform: Platform, archive: bool, le: bool, be: bool, v4: bool) -> (r:
    Vec<String>)
    ensures
        strs(r@) == arguments_of(platform, archive, le, be, v4),
{
    let mut args: Vec<String> = Vec::new();
    if archive {
        push_str(&mut args, "x");
        push_str(&mut args, "-y");
        push_str(&mut args, "-o.");
        push_str(&mut args, SOURCE_FILE_PLACEHOLDER);
        assert(strs(args@) =~= arguments_of(platform, archive, le, be, v4));
        return args;
    }
    match platform {
        Platform::Windows => {
            push_str(&mut args, "-n");
            push_str(&mut args, "-f");
            push_str(&mut args, "-d");
            push_str(&mut args, ".");
        },
        Platform::Unix => {
            push_str(&mut args, "-dest");
            push_str(&mut args, ".");
        },
    }
    let ghost head = strs(args@);
    if le {
        push_str(&mut args, "-le");
    } else if be {
        match platform {
            Platform::Windows => {
                push_str(&mut args, "-be");
                if v4 {
                    push_str(&mut args, "-force-uid");
                    push_str(&mut args, "0");
                    push_str(&mut args, "-force-gid");
                    push_str(&mut args, "0");
                }
            },
            Platform::Unix => {
                if v4 {
                    push_str(&mut args, "-be-v4");
                } else {
                    push_str(&mut args, "-be");
                }
            },
        }
    }
    assert(strs(args@) =~= head + endian_flags(platform, le, be, v4));
    match platform {
        Platform::Windows => {},
        Platform::Unix => {
            push_str(&mut args, "-silent");
            push_str(&mut args, "-force");
        },
    }
    push_str(&mut args, SOURCE_FILE_PLACEHOLDER);
    assert(strs(args@) =~= arguments_of(platform, archive, le, be, v4));
    args
}

/// Builds the argument sequence for the named tool and format parameters.
pub fn get_squashfs_arguments(platform: Platform, tool: &str, le: bool, be: bool, v4: bool) -> (r:
    Vec<String>)
    ensures
        strs(r@) == arguments_of(platform, is_archive_tool(tool@), le, be, v4),
{
    let archive = is_generic_archive_tool(tool);
    squashfs_arguments(platform, archive, le, be, v4)
}

/// Every token that the synthesizer emits besides the placeholder differs from it.
proof fn lemma_flags_differ_from_placeholder()
    ensures
        "x"@ != placeholder(),
        "-y"@ != placeholder(),
        "-o."@ != placeholder(),
        "-n"@ != placeholder(),
        "-f"@ != placeholder(),
        "-d"@ != placeholder(),
        "."@ != placeholder(),
        "-dest"@ != placeholder(),
        "-le"@ != placeholder(),
        "-be"@ != placeholder(),
        "-be-v4"@ != placeholder(),
        "-force-uid"@ != placeholder(),
        "0"@ != placeholder(),
        "-force-gid"@ != placeholder(),
        "-silent"@ != placeholder(),
        "-force"@ != placeholder(),
{
    reveal_strlit("%e");
    reveal_strlit("x");
    reveal_strlit("-y");
    reveal_strlit("-o.");
    reveal_strlit("-n");
    reveal_strlit("-f");
    reveal_strlit("-d");
    reveal_strlit(".");
    reveal_strlit("-dest");
    reveal_strlit("-le");
    reveal_strlit("-be");
    reveal_strlit("-be-v4");
    reveal_strlit("-force-uid");
    reveal_strlit("0");
    reveal_strlit("-force-gid");
    reveal_strlit("-silent");
    reveal_strlit("-force");
    assert(placeholder()[0] == '%');
}

/// Whatever the platform, the tool kind and the format parameters, the argument sequence ends
/// with the placeholder and holds it nowhere else.
pub proof fn lemma_placeholder_last_and_unique(
    platform: Platform,
    archive: bool,
    le: bool,
    be: bool,
    v4: bool,
)
    ensures
        ({
            let a = arguments_of(platform, archive, le, be, v4);
            &&& a.len() > 0
            &&& a.last() == placeholder()
            &&& forall|i: int| 0 <= i < a.len() - 1 ==> a[i] != placeholder()
        }),
{
    lemma_flags_differ_from_placeholder();
    let a = arguments_of(platform, archive, le, be, v4);
    let e = endian_flags(platform, le, be, v4);
    assert(forall|i: int| 0 <= i < e.len() ==> e[i] != placeholder());
    if !archive {
        match platform {
            Platform::Windows => {
                assert forall|i: int| 0 <= i < a.len() - 1 implies a[i] != placeholder() by {
                    if i >= 4 {
                        assert(a[i] == e[i - 4]);
                    }
                }
            },
            Platform::Unix => {
                assert forall|i: int| 0 <= i < a.len() - 1 implies a[i] != placeholder() by {
                    if 2 <= i < 2 + e.len() {
                        assert(a[i] == e[i - 2]);
                    }
                }
            },
        }
    }
}

/// Big-endian version 4 arguments differ from plain big-endian ones by the compatibility
/// flags alone: on Windows the uid/gid flags stand before the placeholder; on Unix-like hosts
/// the big-endian flag is replaced by its version 4 form. The archive tool's arguments do not
/// change.
pub proof fn lemma_v4_differs_by_compat_flags(platform: Platform, archive: bool)
    ensures
        ({
            let plain = arguments_of(platform, archive, false, true, false);
            let v4 = arguments_of(platform, archive, false, true, true);
            if archive {
                v4 == plain
            } else {
                match platform {
                    Platform::Windows => v4 == plain.drop_last() + windows_v4_flags() + seq![
                        plain.last(),
                    ],
                    Platform::Unix => plain[2] == "-be"@ && v4 == plain.update(2, "-be-v4"@),
                }
            }
        }),
{
    let plain = arguments_of(platform, archive, false, true, false);
    let v4 = arguments_of(platform, archive, false, true, true);
    if !archive {
        match platform {
            Platform::Windows => {
                assert(v4 =~= plain.drop_last() + windows_v4_flags() + seq![plain.last()]);
            },
            Platform::Unix => {
                assert(v4 =~= plain.update(2, "-be-v4"@));
            },
        }
    }
}

} // verus!
