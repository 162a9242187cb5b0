//! Kernel post-processing: a compressed kernel image is replaced by the
//! uncompressed kernel inside it.

use vstd::prelude::*;
use vstd::string::*;
use crate::argv::{argv1, argv2};
use crate::command::{capture, HostCommand};
use crate::script::{
    provided, push_block, run, script0, steps6, Block, BlockView, Condition, ConditionView, Probe,
    ProbeView, Step, StepView,
};
use crate::text::{after_last, join2, join5, last_segment};

verus! {

/// The `file` tool calls the kernel a bzImage.
pub open spec fn compressed(vmlinuz_file: Seq<char>) -> ConditionView {
    ConditionView {
        probe: ProbeView::OutputContains {
            command: capture("file"@, seq![vmlinuz_file], false),
            needle: "bzImage"@,
        },
        expect: true,
    }
}

/// Where the extraction helper is kept.
pub open spec fn extractor_path(home_dir: Seq<char>) -> Seq<char> {
    home_dir + "/.fireup/bin/extract-vmlinux"@
}

/// Replaces a compressed kernel by the kernel extracted from it: the
/// helper is installed under the state directory, run into a temporary
/// file named like the kernel, and that file copied over the kernel.
pub open spec fn extract_vmlinuz_script(
    vmlinuz_file: Seq<char>,
    home_dir: Seq<char>,
    extract_vmlinux: Seq<char>,
) -> Seq<BlockView> {
    seq![
        provided(
            compressed(vmlinuz_file),
            seq![
                StepView::CreateDir { path: home_dir + "/.fireup/bin"@ },
                StepView::WriteFile { path: extractor_path(home_dir), content: extract_vmlinux },
                run(capture("chmod"@, seq!["+x"@, extractor_path(home_dir)], false)),
                run(
                    capture(
                        "bash"@,
                        seq![
                            "-c"@,
                            extractor_path(home_dir) + " "@ + vmlinuz_file + " > /tmp/"@
                                + last_segment(vmlinuz_file, '/'),
                        ],
                        false,
                    ),
                ),
                StepView::CopyFile {
                    from: "/tmp/"@ + last_segment(vmlinuz_file, '/'),
                    to: vmlinuz_file,
                },
                StepView::RemoveFile { path: "/tmp/"@ + last_segment(vmlinuz_file, '/') },
            ],
        ),
    ]
}

/// The question whether a kernel is compressed.
pub fn is_compressed(vmlinuz_file: &str) -> (r: Condition)
    ensures
        r@ == compressed(vmlinuz_file@),
{
    Condition {
        probe: Probe::OutputContains {
            command: HostCommand::capture("file", argv1(vmlinuz_file), false),
            needle: String::from_str("bzImage"),
        },
        expect: true,
    }
}

pub fn extract_vmlinuz(vmlinuz_file: &str, home_dir: &str, extract_vmlinux: &str) -> (r: Vec<
    Block,
>)
    ensures
        r.deep_view() == extract_vmlinuz_script(vmlinuz_file@, home_dir@, extract_vmlinux@),
{
    let extractor = join2(home_dir, "/.fireup/bin/extract-vmlinux");
    let output = join2("/tmp/", after_last(vmlinuz_file, '/').as_str());
    let mut script = script0();
    push_block(
        &mut script,
        Block::provided(
            is_compressed(vmlinuz_file),
            steps6(
                Step::CreateDir { path: join2(home_dir, "/.fireup/bin") },
                Step::WriteFile {
                    path: extractor.clone(),
                    content: String::from_str(extract_vmlinux),
                },
                Step::capture("chmod", argv2("+x", extractor.as_str()), false),
                Step::capture(
                    "bash",
                    argv2(
                        "-c",
                        join5(
                            extractor.as_str(),
                            " ",
                            vmlinuz_file,
                            " > /tmp/",
                            after_last(vmlinuz_file, '/').as_str(),
                        ).as_str(),
                    ),
                    false,
                ),
                Step::CopyFile { from: output.clone(), to: String::from_str(vmlinuz_file) },
                Step::RemoveFile { path: output },
            ),
        ),
    );
    script
}

} // verus!
