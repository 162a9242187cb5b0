//! Unpacking and packing root filesystem trees.

use vstd::prelude::*;
use vstd::string::*;
use crate::argv::{argv2, argv3, argv4};
use crate::command::{capture, stream, HostCommand};
use crate::script::{absent, always, push_block, run, script0, steps1, steps3, steps4, provided, Block, BlockView, Condition, Step, StepView};
use crate::text::{decimal, join2, u64_to_string};

verus! {

/// Unpacks a SquashFS archive into `output_dir`, unless that directory is
/// already there.
pub open spec fn extract_squashfs_script(squashfs_file: Seq<char>, output_dir: Seq<char>) -> Seq<
    BlockView,
> {
    seq![
        provided(
            absent(output_dir),
            seq![run(capture("unsquashfs"@, seq!["-d"@, output_dir, squashfs_file], false))],
        ),
    ]
}

/// Builds an ext4 image of `size` MiB from a tree that is handed to root.
pub open spec fn create_ext4_filesystem_script(
    squashfs_dir: Seq<char>,
    output_file: Seq<char>,
    size: nat,
) -> Seq<BlockView> {
    seq![
        always(
            seq![
                run(capture("chown"@, seq!["-R"@, "root:root"@, squashfs_dir], true)),
                run(
                    capture(
                        "truncate"@,
                        seq!["-s"@, decimal(size) + "M"@, output_file],
                        false,
                    ),
                ),
                run(capture("mkfs.ext4"@, seq!["-d"@, squashfs_dir, "-F"@, output_file], true)),
            ],
        ),
    ]
}

/// Packs a tree as a SquashFS image, unless the image is already there.
pub open spec fn create_squashfs_script(squashfs_dir: Seq<char>, output_file: Seq<char>) -> Seq<
    BlockView,
> {
    seq![
        provided(
            absent(output_file),
            seq![run(stream("mksquashfs"@, seq![squashfs_dir, output_file], true))],
        ),
    ]
}

/// Creates the mount points that the overlay needs inside the tree.
pub open spec fn create_overlay_dirs_script(rootfs_dir: Seq<char>) -> Seq<BlockView> {
    seq![
        always(
            seq![
                run(
                    capture(
                        "mkdir"@,
                        seq![
                            "-p"@,
                            rootfs_dir + "/overlay/work"@,
                            rootfs_dir + "/overlay/root"@,
                            rootfs_dir + "/rom"@,
                        ],
                        true,
                    ),
                ),
            ],
        ),
    ]
}

/// Installs the overlay init program as `/sbin/overlay-init`, executable.
pub open spec fn add_overlay_init_script(rootfs_dir: Seq<char>, overlay_init: Seq<char>) -> Seq<
    BlockView,
> {
    seq![
        always(
            seq![
                StepView::WriteFile { path: "/tmp/overlay-init"@, content: overlay_init },
                run(capture("mkdir"@, seq!["-p"@, rootfs_dir + "/sbin"@], true)),
                run(capture("mv"@, seq!["/tmp/overlay-init"@, rootfs_dir + "/sbin"@], true)),
                run(capture("chmod"@, seq!["+x"@, rootfs_dir + "/sbin/overlay-init"@], true)),
            ],
        ),
    ]
}

pub fn extract_squashfs(squashfs_file: &str, output_dir: &str) -> (r: Vec<Block>)
    ensures
        r.deep_view() == extract_squashfs_script(squashfs_file@, output_dir@),
{
    let mut script = script0();
    push_block(
        &mut script,
        Block::provided(
            Condition::absent(output_dir),
            steps1(
                Step::run(
                    HostCommand::capture("unsquashfs", argv3("-d", output_dir, squashfs_file), false),
                ),
            ),
        ),
    );
    script
}

pub fn create_ext4_filesystem(squashfs_dir: &str, output_file: &str, size: usize) -> (r: Vec<
    Block,
>)
    ensures
        r.deep_view() == create_ext4_filesystem_script(squashfs_dir@, output_file@, size as nat),
{
    let megabytes = join2(u64_to_string(size as u64).as_str(), "M");
    let mut script = script0();
    push_block(
        &mut script,
        Block::always(
            steps3(
                Step::run(
                    HostCommand::capture("chown", argv3("-R", "root:root", squashfs_dir), true),
                ),
                Step::run(
                    HostCommand::capture(
                        "truncate",
                        argv3("-s", megabytes.as_str(), output_file),
                        false,
                    ),
                ),
                Step::run(
                    HostCommand::capture(
                        "mkfs.ext4",
                        argv4("-d", squashfs_dir, "-F", output_file),
                        true,
                    ),
                ),
            ),
        ),
    );
    script
}

pub fn create_squashfs(squashfs_dir: &str, output_file: &str) -> (r: Vec<Block>)
    ensures
        r.deep_view() == create_squashfs_script(squashfs_dir@, output_file@),
{
    let mut script = script0();
    push_block(
        &mut script,
        Block::provided(
            Condition::absent(output_file),
            steps1(
                Step::run(HostCommand::stream("mksquashfs", argv2(squashfs_dir, output_file), true)),
            ),
        ),
    );
    script
}

pub fn create_overlay_dirs(rootfs_dir: &str) -> (r: Vec<Block>)
    ensures
        r.deep_view() == create_overlay_dirs_script(rootfs_dir@),
{
    let mut script = script0();
    push_block(
        &mut script,
        Block::always(
            steps1(
                Step::run(
                    HostCommand::capture(
                        "mkdir",
                        argv4(
                            "-p",
                            join2(rootfs_dir, "/overlay/work").as_str(),
                            join2(rootfs_dir, "/overlay/root").as_str(),
                            join2(rootfs_dir, "/rom").as_str(),
                        ),
                        true,
                    ),
                ),
            ),
        ),
    );
    script
}

pub fn add_overlay_init(rootfs_dir: &str, overlay_init: &str) -> (r: Vec<Block>)
    ensures
        r.deep_view() == add_overlay_init_script(rootfs_dir@, overlay_init@),
{
    let sbin = join2(rootfs_dir, "/sbin");
    let mut script = script0();
    push_block(
        &mut script,
        Block::always(
            steps4(
                Step::WriteFile {
                    path: String::from_str("/tmp/overlay-init"),
                    content: String::from_str(overlay_init),
                },
                Step::run(HostCommand::capture("mkdir", argv2("-p", sbin.as_str()), true)),
                Step::run(
                    HostCommand::capture("mv", argv2("/tmp/overlay-init", sbin.as_str()), true),
                ),
                Step::run(
                    HostCommand::capture(
                        "chmod",
                        argv2("+x", join2(rootfs_dir, "/sbin/overlay-init").as_str()),
                        true,
                    ),
                ),
            ),
        ),
    );
    script
}

} // verus!
