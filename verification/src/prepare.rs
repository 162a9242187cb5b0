//! Image assembly: for each distribution, the kernel to boot and the root
//! filesystem image to boot it on.
//!
//! A preparer says, for one distribution, what has to be done on the host
//! to end up with a kernel, a packed root filesystem image and, where no
//! keys were supplied, a default SSH key.  The image is rebuilt exactly
//! when the supplied keys differ from the installed ones; nothing else
//! invalidates it.

pub mod config;
pub mod downloader;
pub mod rootfs;
pub mod ssh;
pub mod vmlinuz;

use vstd::prelude::*;
use vstd::string::*;
use crate::argv::{argv1, argv2, argv3, argv4, argv5, argv8};
use crate::command::{capture, stream, HostCommand};
use crate::error::{about, Failure, FailureKind};
use crate::prepare::downloader::{
    alpine_rootfs_script, download_alpine_rootfs, download_almalinux_rootfs,
    download_archlinux_rootfs, download_fedora_rootfs, download_files, download_gentoo_rootfs,
    download_kernel, download_nixos_rootfs, download_opensuse_rootfs,
    download_opensuse_tumbleweed_rootfs, download_rockylinux_rootfs, download_slackware_rootfs,
    files_download_of, first_values, kernel_download_of, mirror_rootfs_script, KernelDownload,
    KernelDownloadView,
};
use crate::prepare::rootfs::{
    add_overlay_init, add_overlay_init_script, create_overlay_dirs, create_overlay_dirs_script,
    create_squashfs, create_squashfs_script, extract_squashfs, extract_squashfs_script,
};
use crate::prepare::ssh::{
    copy_ssh_keys, copy_ssh_keys_script, generate_and_copy_ssh_key,
    generate_and_copy_ssh_key_script,
};
use crate::prepare::vmlinuz::{extract_vmlinuz, extract_vmlinuz_script};
use crate::script::{
    absent, always, append_script, attempt, fails, fetching, last, provided, push_block, run,
    script0, stdout_of, steps1, steps2, steps3, steps4, steps9, Block, BlockView, Condition,
    ConditionView, Phase, PhaseView, Probe, ProbeView, Source, SourceView, Step, StepView,
};
use crate::text::{join2, join3, join4, same, trim, trimmed};

verus! {

/// The kernel release that is fetched when none is asked for.
pub open spec fn default_kernel_version() -> Seq<char> {
    "6.16.7"@
}

/// The kernel release to fetch: the one asked for, else the default.
pub fn get_kernel_version(requested: &Option<String>) -> (r: String)
    ensures
        r@ == match requested.deep_view() {
            Some(v) => v,
            None => default_kernel_version(),
        },
{
    match requested {
        Some(v) => v.clone(),
        None => String::from_str("6.16.7"),
    }
}

/// A guest distribution.
#[derive(Clone, Copy, PartialEq, Eq, Structural, Debug)]
pub enum Distro {
    Debian,
    Alpine,
    Ubuntu,
    NixOS,
    Fedora,
    Gentoo,
    Slackware,
    Opensuse,
    OpensuseTumbleweed,
    Almalinux,
    RockyLinux,
    Archlinux,
}

/// The tag by which a distribution is recorded and asked for.
pub open spec fn distro_tag(distro: Distro) -> Seq<char> {
    match distro {
        Distro::Debian => "debian"@,
        Distro::Alpine => "alpine"@,
        Distro::Ubuntu => "ubuntu"@,
        Distro::NixOS => "nixos"@,
        Distro::Fedora => "fedora"@,
        Distro::Gentoo => "gentoo"@,
        Distro::Slackware => "slackware"@,
        Distro::Opensuse => "opensuse"@,
        Distro::OpensuseTumbleweed => "opensuse-tumbleweed"@,
        Distro::Almalinux => "almalinux"@,
        Distro::RockyLinux => "rockylinux"@,
        Distro::Archlinux => "archlinux"@,
    }
}

impl Distro {
    pub fn to_string(&self) -> (r: String)
        ensures
            r@ == distro_tag(*self),
    {
        match self {
            Distro::Debian => String::from_str("debian"),
            Distro::Alpine => String::from_str("alpine"),
            Distro::Ubuntu => String::from_str("ubuntu"),
            Distro::NixOS => String::from_str("nixos"),
            Distro::Fedora => String::from_str("fedora"),
            Distro::Gentoo => String::from_str("gentoo"),
            Distro::Slackware => String::from_str("slackware"),
            Distro::Opensuse => String::from_str("opensuse"),
            Distro::OpensuseTumbleweed => String::from_str("opensuse-tumbleweed"),
            Distro::Almalinux => String::from_str("almalinux"),
            Distro::RockyLinux => String::from_str("rockylinux"),
            Distro::Archlinux => String::from_str("archlinux"),
        }
    }
}

/// What a preparation goes by besides its arguments: the kernel release
/// to fetch, and the texts that are packaged with the control plane and
/// written to the host or into a guest as they are.
#[derive(Clone, Debug, PartialEq, Eq)]
pub struct Assets {
    /// The kernel release that is fetched where no kernel is supplied.
    pub kernel_version: String,
    /// `/etc/systemd/resolved.conf` for guests that run systemd-resolved.
    pub resolved_conf: String,
    /// The init program that pivots a guest onto its overlay.
    pub overlay_init: String,
    /// The helper that extracts a kernel from a compressed image.
    pub extract_vmlinux: String,
}

pub struct AssetsView {
    pub kernel_version: Seq<char>,
    pub resolved_conf: Seq<char>,
    pub overlay_init: Seq<char>,
    pub extract_vmlinux: Seq<char>,
}

impl View for Assets {
    type V = AssetsView;

    open spec fn view(&self) -> AssetsView {
        AssetsView {
            kernel_version: self.kernel_version@,
            resolved_conf: self.resolved_conf@,
            overlay_init: self.overlay_init@,
            extract_vmlinux: self.extract_vmlinux@,
        }
    }
}

/// What a preparation yields: the kernel, the packed root filesystem, and
/// the private key of the default pair where no keys were supplied.
#[derive(Clone, Debug, PartialEq, Eq)]
pub struct ImageArtifact {
    pub kernel_path: String,
    pub rootfs_image_path: String,
    pub ssh_key_path: Option<String>,
}

pub struct ImageArtifactView {
    pub kernel_path: Seq<char>,
    pub rootfs_image_path: Seq<char>,
    pub ssh_key_path: Option<Seq<char>>,
}

impl View for ImageArtifact {
    type V = ImageArtifactView;

    open spec fn view(&self) -> ImageArtifactView {
        ImageArtifactView {
            kernel_path: self.kernel_path@,
            rootfs_image_path: self.rootfs_image_path@,
            ssh_key_path: self.ssh_key_path.deep_view(),
        }
    }
}

impl DeepView for ImageArtifact {
    type V = ImageArtifactView;

    open spec fn deep_view(&self) -> ImageArtifactView {
        self@
    }
}

/// Where a preparation stands, and its artifact once it is complete.
#[derive(Clone, Debug, PartialEq, Eq)]
pub struct Preparation {
    pub phase: Phase,
    pub artifact: Option<ImageArtifact>,
}

pub struct PreparationView {
    pub phase: PhaseView,
    pub artifact: Option<ImageArtifactView>,
}

impl View for Preparation {
    type V = PreparationView;

    open spec fn view(&self) -> PreparationView {
        PreparationView { phase: self.phase@, artifact: self.artifact.deep_view() }
    }
}

/// The kernel to use: the override made absolute, else the kernel
/// release `version` from the CI bucket, or the newest there.
pub open spec fn kernel_resolution_of(
    app_dir: Seq<char>,
    version: Seq<char>,
    arch: Seq<char>,
    kernel_file: Option<Seq<char>>,
    fetched: Seq<Seq<char>>,
) -> KernelDownloadView {
    match kernel_file {
        Some(k) => if fetched.len() == 0 {
            KernelDownloadView {
                phase: fetching(Seq::empty(), SourceView::Canonical { path: k }),
                kernel_file: None,
            }
        } else {
            KernelDownloadView { phase: last(Seq::empty()), kernel_file: Some(fetched[0]) }
        },
        None => kernel_download_of(app_dir, version, arch, first_values(fetched, 2)),
    }
}

/// The supplied keys are not the installed ones.
pub open spec fn keys_differ(path: Seq<char>, keys: Seq<Seq<char>>) -> ConditionView {
    ConditionView { probe: ProbeView::KeysDiffer { path, keys }, expect: true }
}

/// Removes the packed image when keys are supplied that differ from those
/// in the tree, so that it is packed again.
pub open spec fn rotate_image_script(
    ssh_keys: Option<Seq<Seq<char>>>,
    root: Seq<char>,
    img_file: Seq<char>,
) -> Seq<BlockView> {
    match ssh_keys {
        Some(keys) => seq![
            provided(
                keys_differ(root + "/root/.ssh/authorized_keys"@, keys),
                seq![run(capture("rm"@, seq!["-f"@, img_file], true))],
            ),
        ],
        None => Seq::empty(),
    }
}

/// Installs the supplied keys, or the default pair's public key.
pub open spec fn install_keys_script(
    app_dir: Seq<char>,
    ssh_keys: Option<Seq<Seq<char>>>,
    root: Seq<char>,
) -> Seq<BlockView> {
    match ssh_keys {
        Some(keys) => copy_ssh_keys_script(keys, root),
        None => generate_and_copy_ssh_key_script(app_dir, "id_rsa"@, root),
    }
}

/// The default private key, unless keys were supplied.
pub open spec fn key_file_of(app_dir: Seq<char>, ssh_keys: Option<Seq<Seq<char>>>) -> Option<
    Seq<char>,
> {
    match ssh_keys {
        Some(_) => None,
        None => Some(app_dir + "/id_rsa"@),
    }
}

/// A preparation put together from the kernel stage and what follows it.
pub open spec fn assembled(
    kernel: KernelDownloadView,
    body: Seq<BlockView>,
    img_file: Seq<char>,
    key_file: Option<Seq<char>>,
) -> PreparationView {
    match kernel.kernel_file {
        None => PreparationView { phase: kernel.phase, artifact: None },
        Some(k) => PreparationView {
            phase: last(kernel.phase.script + body),
            artifact: Some(
                ImageArtifactView {
                    kernel_path: k,
                    rootfs_image_path: img_file,
                    ssh_key_path: key_file,
                },
            ),
        },
    }
}

/// Steps as one unconditional block; no block for no steps.
pub open spec fn service_block(steps: Seq<StepView>) -> Seq<BlockView> {
    if steps.len() == 0 {
        Seq::empty()
    } else {
        seq![always(steps)]
    }
}

/// A guest that comes as a prebuilt image from the mirror: download,
/// unpack, steps `before`, rotate the image on a key change, steps
/// `after`, install the keys, pack.
pub open spec fn mirror_body(
    app_dir: Seq<char>,
    name: Seq<char>,
    ssh_keys: Option<Seq<Seq<char>>>,
    before: Seq<StepView>,
    after: Seq<StepView>,
) -> Seq<BlockView> {
    mirror_rootfs_script(app_dir, name) + extract_squashfs_script(
        app_dir + "/"@ + name + "-rootfs.squashfs"@,
        app_dir + "/"@ + name + "-rootfs"@,
    ) + service_block(before) + rotate_image_script(
        ssh_keys,
        app_dir + "/"@ + name + "-rootfs"@,
        app_dir + "/"@ + name + "-rootfs.img"@,
    ) + service_block(after) + install_keys_script(
        app_dir,
        ssh_keys,
        app_dir + "/"@ + name + "-rootfs"@,
    ) + create_squashfs_script(
        app_dir + "/"@ + name + "-rootfs"@,
        app_dir + "/"@ + name + "-rootfs.img"@,
    )
}

/// The preparation of a guest that comes from the mirror.
pub open spec fn mirror_preparation(
    version: Seq<char>,
    arch: Seq<char>,
    app_dir: Seq<char>,
    name: Seq<char>,
    kernel_file: Option<Seq<char>>,
    ssh_keys: Option<Seq<Seq<char>>>,
    before: Seq<StepView>,
    after: Seq<StepView>,
    fetched: Seq<Seq<char>>,
) -> PreparationView {
    assembled(
        kernel_resolution_of(app_dir, version, arch, kernel_file, fetched),
        mirror_body(app_dir, name, ssh_keys, before, after),
        app_dir + "/"@ + name + "-rootfs.img"@,
        key_file_of(app_dir, ssh_keys),
    )
}

/// `systemctl enable sshd` inside the tree.
pub open spec fn enable_sshd(root: Seq<char>) -> StepView {
    run(capture("chroot"@, seq![root, "systemctl"@, "enable"@, "sshd"@], true))
}

/// The architecture as Debian names it.
pub open spec fn debian_arch(arch: Seq<char>) -> Seq<char> {
    if arch == "x86_64"@ {
        "amd64"@
    } else if arch == "aarch64"@ {
        "arm64"@
    } else {
        arch
    }
}

/// Debian: bootstrapped on the host, with networking and the resolver
/// enabled, an SSH server installed where it is missing, and the overlay.
pub open spec fn debian_body(
    arch: Seq<char>,
    app_dir: Seq<char>,
    ssh_keys: Option<Seq<Seq<char>>>,
    assets: AssetsView,
) -> Seq<BlockView> {
    let root = app_dir + "/debian-rootfs"@;
    let img = app_dir + "/debian-rootfs.img"@;
    seq![
        provided(
            absent(root),
            seq![
                StepView::CreateDir { path: root },
                run(
                    stream(
                        "debootstrap"@,
                        seq![
                            "--arch="@ + debian_arch(arch),
                            "stable"@,
                            root,
                            "http://deb.debian.org/debian/"@,
                        ],
                        true,
                    ),
                ),
            ],
        ),
        always(
            seq![
                run(
                    capture(
                        "chroot"@,
                        seq![
                            root,
                            "sh"@,
                            "-c"@,
                            "apt-get install -y systemd-resolved ca-certificates curl"@,
                        ],
                        true,
                    ),
                ),
                run(
                    capture(
                        "chroot"@,
                        seq![
                            root,
                            "systemctl"@,
                            "enable"@,
                            "systemd-networkd"@,
                            "systemd-resolved"@,
                        ],
                        true,
                    ),
                ),
                run(
                    capture(
                        "chroot"@,
                        seq![
                            root,
                            "sh"@,
                            "-c"@,
                            "echo '"@ + assets.resolved_conf + "' > /etc/systemd/resolved.conf"@,
                        ],
                        true,
                    ),
                ),
                run(capture("mkdir"@, seq!["-p"@, root + "/root/.ssh"@], true)),
            ],
        ),
    ] + rotate_image_script(ssh_keys, root, img) + install_keys_script(app_dir, ssh_keys, root)
        + seq![
        provided(
            fails(capture("chroot"@, seq![root, "which"@, "sshd"@], true)),
            seq![
                run(stream("chroot"@, seq![root, "apt-get"@, "update"@], true)),
                run(
                    stream(
                        "chroot"@,
                        seq![root, "apt-get"@, "install"@, "-y"@, "openssh-server"@],
                        true,
                    ),
                ),
                run(capture("chroot"@, seq![root, "systemctl"@, "enable"@, "ssh"@], true)),
            ],
        ),
    ] + create_overlay_dirs_script(root) + add_overlay_init_script(root, assets.overlay_init)
        + create_squashfs_script(root, img)
}

/// Alpine: the mini root filesystem with the base system, an SSH server
/// and a serial console added, and its services enabled.
pub open spec fn alpine_body(
    arch: Seq<char>,
    app_dir: Seq<char>,
    ssh_keys: Option<Seq<Seq<char>>>,
) -> Seq<BlockView> {
    let root = app_dir + "/alpine-rootfs"@;
    let img = app_dir + "/alpine-rootfs.img"@;
    alpine_rootfs_script(app_dir, root, arch) + seq![
        always(
            seq![
                run(
                    capture(
                        "sh"@,
                        seq![
                            "-c"@,
                            "echo 'nameserver 172.16.0.1' >> "@ + root + "/etc/resolv.conf"@,
                        ],
                        true,
                    ),
                ),
            ],
        ),
        provided(
            fails(capture("chroot"@, seq![root, "which"@, "sshd"@], true)),
            seq![
                run(stream("chroot"@, seq![root, "apk"@, "update"@], true)),
                run(
                    stream(
                        "chroot"@,
                        seq![
                            root,
                            "apk"@,
                            "add"@,
                            "alpine-base"@,
                            "util-linux"@,
                            "linux-virt"@,
                            "haveged"@,
                            "openssh"@,
                        ],
                        true,
                    ),
                ),
            ],
        ),
        always(
            seq![
                run(stream("chroot"@, seq![root, "rc-update"@, "add"@, "haveged"@], true)),
                run(
                    capture(
                        "chroot"@,
                        seq![
                            root,
                            "sh"@,
                            "-c"@,
                            "for svc in devfs procfs sysfs; do ln -fs /etc/init.d/$svc /etc/runlevels/boot; done"@,
                        ],
                        true,
                    ),
                ),
                attempt(
                    capture(
                        "chroot"@,
                        seq![root, "ln"@, "-s"@, "agetty"@, "/etc/init.d/agetty.ttyS0"@],
                        true,
                    ),
                ),
                run(
                    stream(
                        "chroot"@,
                        seq![root, "sh"@, "-c"@, "echo ttyS0 > /etc/securetty"@],
                        true,
                    ),
                ),
                run(
                    capture(
                        "chroot"@,
                        seq![root, "rc-update"@, "add"@, "agetty.ttyS0"@, "default"@],
                        true,
                    ),
                ),
                run(capture("chroot"@, seq![root, "rc-update"@, "add"@, "sshd"@], true)),
                run(
                    capture(
                        "chroot"@,
                        seq![root, "rc-update"@, "add"@, "networking"@, "boot"@],
                        true,
                    ),
                ),
                run(
                    capture(
                        "chroot"@,
                        seq![root, "mkdir"@, "-p"@, "/root/.ssh"@, "/etc/network"@],
                        true,
                    ),
                ),
                run(
                    capture(
                        "chroot"@,
                        seq![
                            root,
                            "sh"@,
                            "-c"@,
                            "echo 'auto eth0\niface eth0 inet dhcp' > /etc/network/interfaces"@,
                        ],
                        true,
                    ),
                ),
            ],
        ),
    ] + rotate_image_script(ssh_keys, root, img) + install_keys_script(app_dir, ssh_keys, root)
        + create_squashfs_script(root, img)
}

/// Ubuntu: the CI archive unpacked, the host's certificates copied in,
/// networking and the resolver set up, and the overlay.
pub open spec fn ubuntu_body(
    app_dir: Seq<char>,
    ubuntu_file: Seq<char>,
    ssh_keys: Option<Seq<Seq<char>>>,
    assets: AssetsView,
) -> Seq<BlockView> {
    let root = app_dir + "/ubuntu-rootfs"@;
    let img = app_dir + "/ubuntu-rootfs.img"@;
    extract_squashfs_script(ubuntu_file, root) + seq![
        always(
            seq![
                run(capture("cp"@, seq!["-r"@, "/etc/ssl"@, root + "/etc/"@], true)),
                run(capture("cp"@, seq!["-r"@, "/etc/ca-certificates"@, root + "/etc/"@], true)),
                run(
                    capture(
                        "chroot"@,
                        seq![root, "systemctl"@, "enable"@, "systemd-networkd"@],
                        true,
                    ),
                ),
                run(
                    capture(
                        "chroot"@,
                        seq![
                            root,
                            "sh"@,
                            "-c"@,
                            "echo '"@ + assets.resolved_conf + "' > /etc/systemd/resolved.conf"@,
                        ],
                        true,
                    ),
                ),
            ],
        ),
    ] + rotate_image_script(ssh_keys, root, img) + install_keys_script(app_dir, ssh_keys, root)
        + create_overlay_dirs_script(root) + add_overlay_init_script(root, assets.overlay_init)
        + create_squashfs_script(root, img)
}

/// The Ubuntu preparation: kernel and archive are downloaded first, in
/// any case; an override of the kernel is made absolute after that.
pub open spec fn ubuntu_preparation(
    arch: Seq<char>,
    app_dir: Seq<char>,
    kernel_file: Option<Seq<char>>,
    ssh_keys: Option<Seq<Seq<char>>>,
    assets: AssetsView,
    fetched: Seq<Seq<char>>,
) -> PreparationView {
    let files = files_download_of(app_dir, assets.kernel_version, arch, first_values(fetched, 4));
    match files.files {
        None => PreparationView { phase: files.phase, artifact: None },
        Some(found) => match kernel_file {
            None => PreparationView {
                phase: last(files.phase.script + ubuntu_body(app_dir, found.1, ssh_keys, assets)),
                artifact: Some(
                    ImageArtifactView {
                        kernel_path: found.0,
                        rootfs_image_path: app_dir + "/ubuntu-rootfs.img"@,
                        ssh_key_path: key_file_of(app_dir, ssh_keys),
                    },
                ),
            },
            Some(k) => if fetched.len() <= 4 {
                PreparationView {
                    phase: fetching(files.phase.script, SourceView::Canonical { path: k }),
                    artifact: None,
                }
            } else {
                PreparationView {
                    phase: last(ubuntu_body(app_dir, found.1, ssh_keys, assets)),
                    artifact: Some(
                        ImageArtifactView {
                            kernel_path: fetched[4],
                            rootfs_image_path: app_dir + "/ubuntu-rootfs.img"@,
                            ssh_key_path: key_file_of(app_dir, ssh_keys),
                        },
                    ),
                }
            },
        },
    }
}

/// What it takes to assemble the image of one distribution.
pub trait RootfsPreparer {
    /// The distribution's name as it is shown.
    spec fn title(&self) -> Seq<char>;

    /// Where the preparation stands, given what was fetched so far.
    spec fn preparation(
        &self,
        arch: Seq<char>,
        app_dir: Seq<char>,
        kernel_file: Option<Seq<char>>,
        ssh_keys: Option<Seq<Seq<char>>>,
        assets: AssetsView,
        fetched: Seq<Seq<char>>,
    ) -> PreparationView;

    /// Prepares kernel and image for `arch` under `app_dir`.
    ///
    /// Called again with every value fetched so far, it says what to do
    /// next; it is complete when it names the artifact.
    fn prepare(
        &self,
        arch: &str,
        app_dir: &str,
        kernel_file: &Option<String>,
        ssh_keys: &Option<Vec<String>>,
        assets: &Assets,
        fetched: &Vec<String>,
    ) -> (r: Preparation)
        ensures
            r@ == self.preparation(
                arch@,
                app_dir@,
                kernel_file.deep_view(),
                ssh_keys.deep_view(),
                assets@,
                fetched.deep_view(),
            ),
    ;

    fn name(&self) -> (r: &'static str)
        ensures
            r@ == self.title(),
    ;
}

pub struct DebianPreparer;

pub struct AlpinePreparer;

pub struct UbuntuPreparer;

pub struct NixOSPreparer;

pub struct FedoraPreparer;

pub struct GentooPreparer;

pub struct SlackwarePreparer;

pub struct OpensusePreparer;

pub struct OpensuseTumbleweedPreparer;

pub struct AlmalinuxPreparer;

pub struct RockyLinuxPreparer;

pub struct ArchlinuxPreparer;

fn resolve_kernel(
    app_dir: &str,
    version: &str,
    arch: &str,
    kernel_file: &Option<String>,
    fetched: &Vec<String>,
) -> (r: KernelDownload)
    ensures
        r@ == kernel_resolution_of(
            app_dir@,
            version@,
            arch@,
            kernel_file.deep_view(),
            fetched.deep_view(),
        ),
{
    match kernel_file {
        Some(k) => {
            if fetched.len() == 0 {
                KernelDownload {
                    phase: Phase::fetching(script0(), Source::Canonical { path: k.clone() }),
                    kernel_file: None,
                }
            } else {
                assert(fetched.deep_view()[0] == fetched[0]@);
                KernelDownload { phase: Phase::last(script0()), kernel_file: Some(fetched[0].clone()) }
            }
        },
        None => download_kernel(app_dir, version, arch, fetched),
    }
}

fn rotate_image(ssh_keys: &Option<Vec<String>>, root: &str, img_file: &str) -> (r: Vec<Block>)
    ensures
        r.deep_view() == rotate_image_script(ssh_keys.deep_view(), root@, img_file@),
{
    let mut script = script0();
    match ssh_keys {
        Some(keys) => {
            push_block(
                &mut script,
                Block::provided(
                    Condition {
                        probe: Probe::KeysDiffer {
                            path: join2(root, "/root/.ssh/authorized_keys"),
                            keys: keys.clone(),
                        },
                        expect: true,
                    },
                    steps1(Step::capture("rm", argv2("-f", img_file), true)),
                ),
            );
        },
        None => {},
    }
    script
}

fn install_keys(app_dir: &str, ssh_keys: &Option<Vec<String>>, root: &str) -> (r: Vec<Block>)
    ensures
        r.deep_view() == install_keys_script(app_dir@, ssh_keys.deep_view(), root@),
{
    match ssh_keys {
        Some(keys) => copy_ssh_keys(keys, root),
        None => generate_and_copy_ssh_key(app_dir, "id_rsa", root),
    }
}

fn key_file(app_dir: &str, ssh_keys: &Option<Vec<String>>) -> (r: Option<String>)
    ensures
        r.deep_view() == key_file_of(app_dir@, ssh_keys.deep_view()),
{
    match ssh_keys {
        Some(_) => None,
        None => Some(join2(app_dir, "/id_rsa")),
    }
}

fn assemble(kernel: KernelDownload, body: Vec<Block>, img_file: String, key_file: Option<String>) -> (r:
    Preparation)
    ensures
        r@ == assembled(kernel@, body.deep_view(), img_file@, key_file.deep_view()),
{
    match kernel.kernel_file {
        None => Preparation { phase: kernel.phase, artifact: None },
        Some(k) => {
            let mut script = kernel.phase.script;
            append_script(&mut script, body);
            Preparation {
                phase: Phase::last(script),
                artifact: Some(
                    ImageArtifact {
                        kernel_path: k,
                        rootfs_image_path: img_file,
                        ssh_key_path: key_file,
                    },
                ),
            }
        },
    }
}

fn service(steps: Vec<Step>) -> (r: Vec<Block>)
    ensures
        r.deep_view() == service_block(steps.deep_view()),
{
    let mut script = script0();
    if steps.len() > 0 {
        push_block(&mut script, Block::always(steps));
    }
    script
}

fn mirror(
    version: &str,
    arch: &str,
    app_dir: &str,
    name: &str,
    download: Vec<Block>,
    kernel_file: &Option<String>,
    ssh_keys: &Option<Vec<String>>,
    before: Vec<Step>,
    after: Vec<Step>,
    fetched: &Vec<String>,
) -> (r: Preparation)
    requires
        download.deep_view() == mirror_rootfs_script(app_dir@, name@),
    ensures
        r@ == mirror_preparation(
            version@,
            arch@,
            app_dir@,
            name@,
            kernel_file.deep_view(),
            ssh_keys.deep_view(),
            before.deep_view(),
            after.deep_view(),
            fetched.deep_view(),
        ),
{
    let root = join4(app_dir, "/", name, "-rootfs");
    let archive = join4(app_dir, "/", name, "-rootfs.squashfs");
    let img = join4(app_dir, "/", name, "-rootfs.img");
    let mut body = download;
    append_script(&mut body, extract_squashfs(archive.as_str(), root.as_str()));
    append_script(&mut body, service(before));
    append_script(&mut body, rotate_image(ssh_keys, root.as_str(), img.as_str()));
    append_script(&mut body, service(after));
    append_script(&mut body, install_keys(app_dir, ssh_keys, root.as_str()));
    append_script(&mut body, create_squashfs(root.as_str(), img.as_str()));
    let kernel = resolve_kernel(app_dir, version, arch, kernel_file, fetched);
    assemble(kernel, body, img, key_file(app_dir, ssh_keys))
}

fn enable_sshd_step(root: &str) -> (r: Step)
    ensures
        r@ == enable_sshd(root@),
{
    Step::capture("chroot", argv4(root, "systemctl", "enable", "sshd"), true)
}

fn no_steps() -> (r: Vec<Step>)
    ensures
        r.deep_view() == Seq::<StepView>::empty(),
{
    crate::script::steps0()
}

/// The architecture as Debian names it.
pub fn debian_architecture(arch: &str) -> (r: String)
    ensures
        r@ == debian_arch(arch@),
{
    if same(arch, "x86_64") {
        String::from_str("amd64")
    } else if same(arch, "aarch64") {
        String::from_str("arm64")
    } else {
        String::from_str(arch)
    }
}

fn resolved_conf_step(root: &str, assets: &Assets) -> (r: Step)
    ensures
        r@ == run(
            capture(
                "chroot"@,
                seq![
                    root@,
                    "sh"@,
                    "-c"@,
                    "echo '"@ + assets@.resolved_conf + "' > /etc/systemd/resolved.conf"@,
                ],
                true,
            ),
        ),
{
    Step::capture(
        "chroot",
        argv4(
            root,
            "sh",
            "-c",
            join3("echo '", assets.resolved_conf.as_str(), "' > /etc/systemd/resolved.conf").as_str(),
        ),
        true,
    )
}

fn debian(arch: &str, app_dir: &str, ssh_keys: &Option<Vec<String>>, assets: &Assets) -> (r: Vec<
    Block,
>)
    ensures
        r.deep_view() == debian_body(arch@, app_dir@, ssh_keys.deep_view(), assets@),
{
    let root_dir = join2(app_dir, "/debian-rootfs");
    let root = root_dir.as_str();
    let img_file = join2(app_dir, "/debian-rootfs.img");
    let img = img_file.as_str();
    let mut body = script0();
    push_block(
        &mut body,
        Block::provided(
            Condition::absent(root),
            steps2(
                Step::CreateDir { path: root_dir.clone() },
                Step::stream(
                    "debootstrap",
                    argv4(
                        join2("--arch=", debian_architecture(arch).as_str()).as_str(),
                        "stable",
                        root,
                        "http://deb.debian.org/debian/",
                    ),
                    true,
                ),
            ),
        ),
    );
    push_block(
        &mut body,
        Block::always(
            steps4(
                Step::capture(
                    "chroot",
                    argv4(
                        root,
                        "sh",
                        "-c",
                        "apt-get install -y systemd-resolved ca-certificates curl",
                    ),
                    true,
                ),
                Step::capture(
                    "chroot",
                    argv5(root, "systemctl", "enable", "systemd-networkd", "systemd-resolved"),
                    true,
                ),
                resolved_conf_step(root, assets),
                Step::capture("mkdir", argv2("-p", join2(root, "/root/.ssh").as_str()), true),
            ),
        ),
    );
    append_script(&mut body, rotate_image(ssh_keys, root, img));
    append_script(&mut body, install_keys(app_dir, ssh_keys, root));
    push_block(
        &mut body,
        Block::provided(
            Condition::fails(HostCommand::capture("chroot", argv3(root, "which", "sshd"), true)),
            steps3(
                Step::stream("chroot", argv3(root, "apt-get", "update"), true),
                Step::stream(
                    "chroot",
                    argv5(root, "apt-get", "install", "-y", "openssh-server"),
                    true,
                ),
                Step::capture("chroot", argv4(root, "systemctl", "enable", "ssh"), true),
            ),
        ),
    );
    append_script(&mut body, create_overlay_dirs(root));
    append_script(&mut body, add_overlay_init(root, assets.overlay_init.as_str()));
    append_script(&mut body, create_squashfs(root, img));
    body
}

fn alpine(arch: &str, app_dir: &str, ssh_keys: &Option<Vec<String>>) -> (r: Vec<Block>)
    ensures
        r.deep_view() == alpine_body(arch@, app_dir@, ssh_keys.deep_view()),
{
    let root_dir = join2(app_dir, "/alpine-rootfs");
    let root = root_dir.as_str();
    let img_file = join2(app_dir, "/alpine-rootfs.img");
    let img = img_file.as_str();
    let mut body = download_alpine_rootfs(app_dir, root, arch);
    push_block(
        &mut body,
        Block::always(
            steps1(
                Step::capture(
                    "sh",
                    argv2(
                        "-c",
                        join3("echo 'nameserver 172.16.0.1' >> ", root, "/etc/resolv.conf").as_str(),
                    ),
                    true,
                ),
            ),
        ),
    );
    push_block(
        &mut body,
        Block::provided(
            Condition::fails(HostCommand::capture("chroot", argv3(root, "which", "sshd"), true)),
            steps2(
                Step::stream("chroot", argv3(root, "apk", "update"), true),
                Step::stream(
                    "chroot",
                    argv8(
                        root,
                        "apk",
                        "add",
                        "alpine-base",
                        "util-linux",
                        "linux-virt",
                        "haveged",
                        "openssh",
                    ),
                    true,
                ),
            ),
        ),
    );
    push_block(
        &mut body,
        Block::always(
            steps9(
                Step::stream("chroot", argv4(root, "rc-update", "add", "haveged"), true),
                Step::capture(
                    "chroot",
                    argv4(
                        root,
                        "sh",
                        "-c",
                        "for svc in devfs procfs sysfs; do ln -fs /etc/init.d/$svc /etc/runlevels/boot; done",
                    ),
                    true,
                ),
                Step::attempt(
                    HostCommand::capture(
                        "chroot",
                        argv5(root, "ln", "-s", "agetty", "/etc/init.d/agetty.ttyS0"),
                        true,
                    ),
                ),
                Step::stream(
                    "chroot",
                    argv4(root, "sh", "-c", "echo ttyS0 > /etc/securetty"),
                    true,
                ),
                Step::capture(
                    "chroot",
                    argv5(root, "rc-update", "add", "agetty.ttyS0", "default"),
                    true,
                ),
                Step::capture("chroot", argv4(root, "rc-update", "add", "sshd"), true),
                Step::capture(
                    "chroot",
                    argv5(root, "rc-update", "add", "networking", "boot"),
                    true,
                ),
                Step::capture(
                    "chroot",
                    argv5(root, "mkdir", "-p", "/root/.ssh", "/etc/network"),
                    true,
                ),
                Step::capture(
                    "chroot",
                    argv4(
                        root,
                        "sh",
                        "-c",
                        "echo 'auto eth0\niface eth0 inet dhcp' > /etc/network/interfaces",
                    ),
                    true,
                ),
            ),
        ),
    );
    append_script(&mut body, rotate_image(ssh_keys, root, img));
    append_script(&mut body, install_keys(app_dir, ssh_keys, root));
    append_script(&mut body, create_squashfs(root, img));
    body
}

fn ubuntu(app_dir: &str, ubuntu_file: &str, ssh_keys: &Option<Vec<String>>, assets: &Assets) -> (r:
    Vec<Block>)
    ensures
        r.deep_view() == ubuntu_body(app_dir@, ubuntu_file@, ssh_keys.deep_view(), assets@),
{
    let root_dir = join2(app_dir, "/ubuntu-rootfs");
    let root = root_dir.as_str();
    let img_file = join2(app_dir, "/ubuntu-rootfs.img");
    let img = img_file.as_str();
    let etc = join2(root, "/etc/");
    let mut body = extract_squashfs(ubuntu_file, root);
    push_block(
        &mut body,
        Block::always(
            steps4(
                Step::capture("cp", argv3("-r", "/etc/ssl", etc.as_str()), true),
                Step::capture("cp", argv3("-r", "/etc/ca-certificates", etc.as_str()), true),
                Step::capture(
                    "chroot",
                    argv4(root, "systemctl", "enable", "systemd-networkd"),
                    true,
                ),
                resolved_conf_step(root, assets),
            ),
        ),
    );
    append_script(&mut body, rotate_image(ssh_keys, root, img));
    append_script(&mut body, install_keys(app_dir, ssh_keys, root));
    append_script(&mut body, create_overlay_dirs(root));
    append_script(&mut body, add_overlay_init(root, assets.overlay_init.as_str()));
    append_script(&mut body, create_squashfs(root, img));
    body
}

impl RootfsPreparer for DebianPreparer {
    open spec fn title(&self) -> Seq<char> {
        "Debian"@
    }

    open spec fn preparation(
        &self,
        arch: Seq<char>,
        app_dir: Seq<char>,
        kernel_file: Option<Seq<char>>,
        ssh_keys: Option<Seq<Seq<char>>>,
        assets: AssetsView,
        fetched: Seq<Seq<char>>,
    ) -> PreparationView {
        assembled(
            kernel_resolution_of(app_dir, assets.kernel_version, arch, kernel_file, fetched),
            debian_body(arch, app_dir, ssh_keys, assets),
            app_dir + "/debian-rootfs.img"@,
            key_file_of(app_dir, ssh_keys),
        )
    }

    fn prepare(
        &self,
        arch: &str,
        app_dir: &str,
        kernel_file: &Option<String>,
        ssh_keys: &Option<Vec<String>>,
        assets: &Assets,
        fetched: &Vec<String>,
    ) -> (r: Preparation) {
        let kernel = resolve_kernel(
            app_dir,
            assets.kernel_version.as_str(),
            arch,
            kernel_file,
            fetched,
        );
        assemble(
            kernel,
            debian(arch, app_dir, ssh_keys, assets),
            join2(app_dir, "/debian-rootfs.img"),
            key_file(app_dir, ssh_keys),
        )
    }

    fn name(&self) -> (r: &'static str) {
        "Debian"
    }
}

impl RootfsPreparer for AlpinePreparer {
    open spec fn title(&self) -> Seq<char> {
        "Alpine"@
    }

    open spec fn preparation(
        &self,
        arch: Seq<char>,
        app_dir: Seq<char>,
        kernel_file: Option<Seq<char>>,
        ssh_keys: Option<Seq<Seq<char>>>,
        assets: AssetsView,
        fetched: Seq<Seq<char>>,
    ) -> PreparationView {
        assembled(
            kernel_resolution_of(app_dir, assets.kernel_version, arch, kernel_file, fetched),
            alpine_body(arch, app_dir, ssh_keys),
            app_dir + "/alpine-rootfs.img"@,
            key_file_of(app_dir, ssh_keys),
        )
    }

    fn prepare(
        &self,
        arch: &str,
        app_dir: &str,
        kernel_file: &Option<String>,
        ssh_keys: &Option<Vec<String>>,
        assets: &Assets,
        fetched: &Vec<String>,
    ) -> (r: Preparation) {
        let kernel = resolve_kernel(
            app_dir,
            assets.kernel_version.as_str(),
            arch,
            kernel_file,
            fetched,
        );
        assemble(
            kernel,
            alpine(arch, app_dir, ssh_keys),
            join2(app_dir, "/alpine-rootfs.img"),
            key_file(app_dir, ssh_keys),
        )
    }

    fn name(&self) -> (r: &'static str) {
        "Alpine"
    }
}

impl RootfsPreparer for UbuntuPreparer {
    open spec fn title(&self) -> Seq<char> {
        "Ubuntu"@
    }

    open spec fn preparation(
        &self,
        arch: Seq<char>,
        app_dir: Seq<char>,
        kernel_file: Option<Seq<char>>,
        ssh_keys: Option<Seq<Seq<char>>>,
        assets: AssetsView,
        fetched: Seq<Seq<char>>,
    ) -> PreparationView {
        ubuntu_preparation(arch, app_dir, kernel_file, ssh_keys, assets, fetched)
    }

    fn prepare(
        &self,
        arch: &str,
        app_dir: &str,
        kernel_file: &Option<String>,
        ssh_keys: &Option<Vec<String>>,
        assets: &Assets,
        fetched: &Vec<String>,
    ) -> (r: Preparation) {
        let files = download_files(app_dir, assets.kernel_version.as_str(), arch, fetched);
        let found = match files.files {
            None => {
                return Preparation { phase: files.phase, artifact: None };
            },
            Some(found) => found,
        };
        let img = join2(app_dir, "/ubuntu-rootfs.img");
        match kernel_file {
            None => {
                let mut script = files.phase.script;
                append_script(&mut script, ubuntu(app_dir, found.1.as_str(), ssh_keys, assets));
                Preparation {
                    phase: Phase::last(script),
                    artifact: Some(
                        ImageArtifact {
                            kernel_path: found.0,
                            rootfs_image_path: img,
                            ssh_key_path: key_file(app_dir, ssh_keys),
                        },
                    ),
                }
            },
            Some(k) => {
                if fetched.len() <= 4 {
                    Preparation {
                        phase: Phase::fetching(
                            files.phase.script,
                            Source::Canonical { path: k.clone() },
                        ),
                        artifact: None,
                    }
                } else {
                    assert(fetched.deep_view()[4] == fetched[4]@);
                    Preparation {
                        phase: Phase::last(ubuntu(app_dir, found.1.as_str(), ssh_keys, assets)),
                        artifact: Some(
                            ImageArtifact {
                                kernel_path: fetched[4].clone(),
                                rootfs_image_path: img,
                                ssh_key_path: key_file(app_dir, ssh_keys),
                            },
                        ),
                    }
                }
            },
        }
    }

    fn name(&self) -> (r: &'static str) {
        "Ubuntu"
    }
}

impl RootfsPreparer for NixOSPreparer {
    open spec fn title(&self) -> Seq<char> {
        "NixOS"@
    }

    open spec fn preparation(
        &self,
        arch: Seq<char>,
        app_dir: Seq<char>,
        kernel_file: Option<Seq<char>>,
        ssh_keys: Option<Seq<Seq<char>>>,
        assets: AssetsView,
        fetched: Seq<Seq<char>>,
    ) -> PreparationView {
        mirror_preparation(
            assets.kernel_version,
            arch,
            app_dir,
            "nixos"@,
            kernel_file,
            ssh_keys,
            Seq::empty(),
            Seq::empty(),
            fetched,
        )
    }

    fn prepare(
        &self,
        arch: &str,
        app_dir: &str,
        kernel_file: &Option<String>,
        ssh_keys: &Option<Vec<String>>,
        assets: &Assets,
        fetched: &Vec<String>,
    ) -> (r: Preparation) {
        mirror(
            assets.kernel_version.as_str(),
            arch,
            app_dir,
            "nixos",
            download_nixos_rootfs(app_dir, arch),
            kernel_file,
            ssh_keys,
            no_steps(),
            no_steps(),
            fetched,
        )
    }

    fn name(&self) -> (r: &'static str) {
        "NixOS"
    }
}

impl RootfsPreparer for FedoraPreparer {
    open spec fn title(&self) -> Seq<char> {
        "Fedora"@
    }

    open spec fn preparation(
        &self,
        arch: Seq<char>,
        app_dir: Seq<char>,
        kernel_file: Option<Seq<char>>,
        ssh_keys: Option<Seq<Seq<char>>>,
        assets: AssetsView,
        fetched: Seq<Seq<char>>,
    ) -> PreparationView {
        mirror_preparation(
            assets.kernel_version,
            arch,
            app_dir,
            "fedora"@,
            kernel_file,
            ssh_keys,
            Seq::empty(),
            seq![enable_sshd(app_dir + "/"@ + "fedora"@ + "-rootfs"@)],
            fetched,
        )
    }

    fn prepare(
        &self,
        arch: &str,
        app_dir: &str,
        kernel_file: &Option<String>,
        ssh_keys: &Option<Vec<String>>,
        assets: &Assets,
        fetched: &Vec<String>,
    ) -> (r: Preparation) {
        let root = join4(app_dir, "/", "fedora", "-rootfs");
        mirror(
            assets.kernel_version.as_str(),
            arch,
            app_dir,
            "fedora",
            download_fedora_rootfs(app_dir, arch),
            kernel_file,
            ssh_keys,
            no_steps(),
            steps1(enable_sshd_step(root.as_str())),
            fetched,
        )
    }

    fn name(&self) -> (r: &'static str) {
        "Fedora"
    }
}

impl RootfsPreparer for GentooPreparer {
    open spec fn title(&self) -> Seq<char> {
        "Gentoo"@
    }

    open spec fn preparation(
        &self,
        arch: Seq<char>,
        app_dir: Seq<char>,
        kernel_file: Option<Seq<char>>,
        ssh_keys: Option<Seq<Seq<char>>>,
        assets: AssetsView,
        fetched: Seq<Seq<char>>,
    ) -> PreparationView {
        mirror_preparation(
            assets.kernel_version,
            arch,
            app_dir,
            "gentoo"@,
            kernel_file,
            ssh_keys,
            seq![enable_sshd(app_dir + "/"@ + "gentoo"@ + "-rootfs"@)],
            Seq::empty(),
            fetched,
        )
    }

    fn prepare(
        &self,
        arch: &str,
        app_dir: &str,
        kernel_file: &Option<String>,
        ssh_keys: &Option<Vec<String>>,
        assets: &Assets,
        fetched: &Vec<String>,
    ) -> (r: Preparation) {
        let root = join4(app_dir, "/", "gentoo", "-rootfs");
        mirror(
            assets.kernel_version.as_str(),
            arch,
            app_dir,
            "gentoo",
            download_gentoo_rootfs(app_dir, arch),
            kernel_file,
            ssh_keys,
            steps1(enable_sshd_step(root.as_str())),
            no_steps(),
            fetched,
        )
    }

    fn name(&self) -> (r: &'static str) {
        "Gentoo"
    }
}

impl RootfsPreparer for SlackwarePreparer {
    open spec fn title(&self) -> Seq<char> {
        "Slackware"@
    }

    open spec fn preparation(
        &self,
        arch: Seq<char>,
        app_dir: Seq<char>,
        kernel_file: Option<Seq<char>>,
        ssh_keys: Option<Seq<Seq<char>>>,
        assets: AssetsView,
        fetched: Seq<Seq<char>>,
    ) -> PreparationView {
        mirror_preparation(
            assets.kernel_version,
            arch,
            app_dir,
            "slackware"@,
            kernel_file,
            ssh_keys,
            Seq::empty(),
            seq![
                run(
                    capture(
                        "chroot"@,
                        seq![
                            app_dir + "/"@ + "slackware"@ + "-rootfs"@,
                            "ln"@,
                            "-sf"@,
                            "/etc/rc.d/rc.sshd"@,
                            "/etc/rc.d/rc3.d/S50sshd"@,
                        ],
                        true,
                    ),
                ),
            ],
            fetched,
        )
    }

    fn prepare(
        &self,
        arch: &str,
        app_dir: &str,
        kernel_file: &Option<String>,
        ssh_keys: &Option<Vec<String>>,
        assets: &Assets,
        fetched: &Vec<String>,
    ) -> (r: Preparation) {
        let root = join4(app_dir, "/", "slackware", "-rootfs");
        mirror(
            assets.kernel_version.as_str(),
            arch,
            app_dir,
            "slackware",
            download_slackware_rootfs(app_dir, arch),
            kernel_file,
            ssh_keys,
            no_steps(),
            steps1(
                Step::capture(
                    "chroot",
                    argv5(root.as_str(), "ln", "-sf", "/etc/rc.d/rc.sshd", "/etc/rc.d/rc3.d/S50sshd"),
                    true,
                ),
            ),
            fetched,
        )
    }

    fn name(&self) -> (r: &'static str) {
        "Slackware"
    }
}

impl RootfsPreparer for OpensusePreparer {
    open spec fn title(&self) -> Seq<char> {
        "OpenSUSE (Leap)"@
    }

    open spec fn preparation(
        &self,
        arch: Seq<char>,
        app_dir: Seq<char>,
        kernel_file: Option<Seq<char>>,
        ssh_keys: Option<Seq<Seq<char>>>,
        assets: AssetsView,
        fetched: Seq<Seq<char>>,
    ) -> PreparationView {
        mirror_preparation(
            assets.kernel_version,
            arch,
            app_dir,
            "opensuse"@,
            kernel_file,
            ssh_keys,
            Seq::empty(),
            seq![enable_sshd(app_dir + "/"@ + "opensuse"@ + "-rootfs"@)],
            fetched,
        )
    }

    fn prepare(
        &self,
        arch: &str,
        app_dir: &str,
        kernel_file: &Option<String>,
        ssh_keys: &Option<Vec<String>>,
        assets: &Assets,
        fetched: &Vec<String>,
    ) -> (r: Preparation) {
        let root = join4(app_dir, "/", "opensuse", "-rootfs");
        mirror(
            assets.kernel_version.as_str(),
            arch,
            app_dir,
            "opensuse",
            download_opensuse_rootfs(app_dir, arch),
            kernel_file,
            ssh_keys,
            no_steps(),
            steps1(enable_sshd_step(root.as_str())),
            fetched,
        )
    }

    fn name(&self) -> (r: &'static str) {
        "OpenSUSE (Leap)"
    }
}

impl RootfsPreparer for AlmalinuxPreparer {
    open spec fn title(&self) -> Seq<char> {
        "AlmaLinux"@
    }

    open spec fn preparation(
        &self,
        arch: Seq<char>,
        app_dir: Seq<char>,
        kernel_file: Option<Seq<char>>,
        ssh_keys: Option<Seq<Seq<char>>>,
        assets: AssetsView,
        fetched: Seq<Seq<char>>,
    ) -> PreparationView {
        mirror_preparation(
            assets.kernel_version,
            arch,
            app_dir,
            "almalinux"@,
            kernel_file,
            ssh_keys,
            Seq::empty(),
            Seq::empty(),
            fetched,
        )
    }

    fn prepare(
        &self,
        arch: &str,
        app_dir: &str,
        kernel_file: &Option<String>,
        ssh_keys: &Option<Vec<String>>,
        assets: &Assets,
        fetched: &Vec<String>,
    ) -> (r: Preparation) {
        mirror(
            assets.kernel_version.as_str(),
            arch,
            app_dir,
            "almalinux",
            download_almalinux_rootfs(app_dir, arch),
            kernel_file,
            ssh_keys,
            no_steps(),
            no_steps(),
            fetched,
        )
    }

    fn name(&self) -> (r: &'static str) {
        "AlmaLinux"
    }
}

impl RootfsPreparer for RockyLinuxPreparer {
    open spec fn title(&self) -> Seq<char> {
        "RockyLinux"@
    }

    open spec fn preparation(
        &self,
        arch: Seq<char>,
        app_dir: Seq<char>,
        kernel_file: Option<Seq<char>>,
        ssh_keys: Option<Seq<Seq<char>>>,
        assets: AssetsView,
        fetched: Seq<Seq<char>>,
    ) -> PreparationView {
        mirror_preparation(
            assets.kernel_version,
            arch,
            app_dir,
            "rockylinux"@,
            kernel_file,
            ssh_keys,
            Seq::empty(),
            Seq::empty(),
            fetched,
        )
    }

    fn prepare(
        &self,
        arch: &str,
        app_dir: &str,
        kernel_file: &Option<String>,
        ssh_keys: &Option<Vec<String>>,
        assets: &Assets,
        fetched: &Vec<String>,
    ) -> (r: Preparation) {
        mirror(
            assets.kernel_version.as_str(),
            arch,
            app_dir,
            "rockylinux",
            download_rockylinux_rootfs(app_dir, arch),
            kernel_file,
            ssh_keys,
            no_steps(),
            no_steps(),
            fetched,
        )
    }

    fn name(&self) -> (r: &'static str) {
        "RockyLinux"
    }
}

impl RootfsPreparer for ArchlinuxPreparer {
    open spec fn title(&self) -> Seq<char> {
        "ArchLinux"@
    }

    open spec fn preparation(
        &self,
        arch: Seq<char>,
        app_dir: Seq<char>,
        kernel_file: Option<Seq<char>>,
        ssh_keys: Option<Seq<Seq<char>>>,
        assets: AssetsView,
        fetched: Seq<Seq<char>>,
    ) -> PreparationView {
        mirror_preparation(
            assets.kernel_version,
            arch,
            app_dir,
            "archlinux"@,
            kernel_file,
            ssh_keys,
            Seq::empty(),
            seq![
                enable_sshd(app_dir + "/"@ + "archlinux"@ + "-rootfs"@),
                run(
                    capture(
                        "chroot"@,
                        seq![app_dir + "/"@ + "archlinux"@ + "-rootfs"@, "systemctl"@, "mask"@, "systemd-firstboot"@],
                        true,
                    ),
                ),
            ],
            fetched,
        )
    }

    fn prepare(
        &self,
        arch: &str,
        app_dir: &str,
        kernel_file: &Option<String>,
        ssh_keys: &Option<Vec<String>>,
        assets: &Assets,
        fetched: &Vec<String>,
    ) -> (r: Preparation) {
        let root = join4(app_dir, "/", "archlinux", "-rootfs");
        mirror(
            assets.kernel_version.as_str(),
            arch,
            app_dir,
            "archlinux",
            download_archlinux_rootfs(app_dir, arch),
            kernel_file,
            ssh_keys,
            no_steps(),
            steps2(
                enable_sshd_step(root.as_str()),
                Step::capture(
                    "chroot",
                    argv4(root.as_str(), "systemctl", "mask", "systemd-firstboot"),
                    true,
                ),
            ),
            fetched,
        )
    }

    fn name(&self) -> (r: &'static str) {
        "ArchLinux"
    }
}

impl RootfsPreparer for OpensuseTumbleweedPreparer {
    open spec fn title(&self) -> Seq<char> {
        "OpenSUSE (Tumbleweed)"@
    }

    open spec fn preparation(
        &self,
        arch: Seq<char>,
        app_dir: Seq<char>,
        kernel_file: Option<Seq<char>>,
        ssh_keys: Option<Seq<Seq<char>>>,
        assets: AssetsView,
        fetched: Seq<Seq<char>>,
    ) -> PreparationView {
        mirror_preparation(
            assets.kernel_version,
            arch,
            app_dir,
            "opensuse-tumbleweed"@,
            kernel_file,
            ssh_keys,
            Seq::empty(),
            seq![enable_sshd(app_dir + "/"@ + "opensuse-tumbleweed"@ + "-rootfs"@)],
            fetched,
        )
    }

    fn prepare(
        &self,
        arch: &str,
        app_dir: &str,
        kernel_file: &Option<String>,
        ssh_keys: &Option<Vec<String>>,
        assets: &Assets,
        fetched: &Vec<String>,
    ) -> (r: Preparation) {
        let root = join4(app_dir, "/", "opensuse-tumbleweed", "-rootfs");
        mirror(
            assets.kernel_version.as_str(),
            arch,
            app_dir,
            "opensuse-tumbleweed",
            download_opensuse_tumbleweed_rootfs(app_dir, arch),
            kernel_file,
            ssh_keys,
            no_steps(),
            steps1(enable_sshd_step(root.as_str())),
            fetched,
        )
    }

    fn name(&self) -> (r: &'static str) {
        "OpenSUSE (Tumbleweed)"
    }
}

/// The preparation of `distro`, by the preparer for it.
pub open spec fn preparation_for(
    distro: Distro,
    arch: Seq<char>,
    app_dir: Seq<char>,
    kernel_file: Option<Seq<char>>,
    ssh_keys: Option<Seq<Seq<char>>>,
    assets: AssetsView,
    fetched: Seq<Seq<char>>,
) -> PreparationView {
    match distro {
        Distro::Debian => DebianPreparer.preparation(
            arch,
            app_dir,
            kernel_file,
            ssh_keys,
            assets,
            fetched,
        ),
        Distro::Alpine => AlpinePreparer.preparation(
            arch,
            app_dir,
            kernel_file,
            ssh_keys,
            assets,
            fetched,
        ),
        Distro::Ubuntu => UbuntuPreparer.preparation(
            arch,
            app_dir,
            kernel_file,
            ssh_keys,
            assets,
            fetched,
        ),
        Distro::NixOS => NixOSPreparer.preparation(
            arch,
            app_dir,
            kernel_file,
            ssh_keys,
            assets,
            fetched,
        ),
        Distro::Fedora => FedoraPreparer.preparation(
            arch,
            app_dir,
            kernel_file,
            ssh_keys,
            assets,
            fetched,
        ),
        Distro::Gentoo => GentooPreparer.preparation(
            arch,
            app_dir,
            kernel_file,
            ssh_keys,
            assets,
            fetched,
        ),
        Distro::Slackware => SlackwarePreparer.preparation(
            arch,
            app_dir,
            kernel_file,
            ssh_keys,
            assets,
            fetched,
        ),
        Distro::Opensuse => OpensusePreparer.preparation(
            arch,
            app_dir,
            kernel_file,
            ssh_keys,
            assets,
            fetched,
        ),
        Distro::OpensuseTumbleweed => OpensuseTumbleweedPreparer.preparation(
            arch,
            app_dir,
            kernel_file,
            ssh_keys,
            assets,
            fetched,
        ),
        Distro::Almalinux => AlmalinuxPreparer.preparation(
            arch,
            app_dir,
            kernel_file,
            ssh_keys,
            assets,
            fetched,
        ),
        Distro::RockyLinux => RockyLinuxPreparer.preparation(
            arch,
            app_dir,
            kernel_file,
            ssh_keys,
            assets,
            fetched,
        ),
        Distro::Archlinux => ArchlinuxPreparer.preparation(
            arch,
            app_dir,
            kernel_file,
            ssh_keys,
            assets,
            fetched,
        ),
    }
}

/// A kernel override that does not exist ends the preparation.
pub open spec fn kernel_check_script(kernel_file: Option<Seq<char>>) -> Seq<BlockView> {
    match kernel_file {
        Some(k) => seq![
            provided(
                absent(k),
                seq![StepView::Abort { error: about(FailureKind::KernelNotFound, k) }],
            ),
        ],
        None => Seq::empty(),
    }
}

/// The whole preparation for `distro`: the host's architecture is asked
/// for first; a kernel override must exist; the distribution's preparer
/// does its work; and the kernel is uncompressed where it needs to be.
pub open spec fn prepared(
    distro: Distro,
    kernel_file: Option<Seq<char>>,
    ssh_keys: Option<Seq<Seq<char>>>,
    app_dir: Seq<char>,
    home_dir: Seq<char>,
    assets: AssetsView,
    fetched: Seq<Seq<char>>,
) -> PreparationView {
    if fetched.len() == 0 {
        PreparationView {
            phase: fetching(Seq::empty(), stdout_of("uname"@, seq!["-m"@], false)),
            artifact: None,
        }
    } else {
        let inner = preparation_for(
            distro,
            trimmed(fetched[0]),
            app_dir,
            kernel_file,
            ssh_keys,
            assets,
            fetched.skip(1),
        );
        let check = if fetched.len() == 1 {
            kernel_check_script(kernel_file)
        } else {
            Seq::empty()
        };
        match inner.artifact {
            None => PreparationView {
                phase: PhaseView { script: check + inner.phase.script, next: inner.phase.next },
                artifact: None,
            },
            Some(artifact) => PreparationView {
                phase: last(
                    check + inner.phase.script + extract_vmlinuz_script(
                        artifact.kernel_path,
                        home_dir,
                        assets.extract_vmlinux,
                    ),
                ),
                artifact: Some(artifact),
            },
        }
    }
}

fn kernel_check(kernel_file: &Option<String>) -> (r: Vec<Block>)
    ensures
        r.deep_view() == kernel_check_script(kernel_file.deep_view()),
{
    let mut script = script0();
    match kernel_file {
        Some(k) => {
            push_block(
                &mut script,
                Block::provided(
                    Condition::absent(k.as_str()),
                    steps1(
                        Step::Abort {
                            error: Failure::about(FailureKind::KernelNotFound, k.as_str()),
                        },
                    ),
                ),
            );
        },
        None => {},
    }
    script
}

fn rest(fetched: &Vec<String>, from: usize) -> (r: Vec<String>)
    requires
        from <= fetched.len(),
    ensures
        r.deep_view() == fetched.deep_view().skip(from as int),
{
    let mut r: Vec<String> = Vec::new();
    let mut i: usize = from;
    assert(r.deep_view() =~= fetched.deep_view().subrange(from as int, from as int));
    while i < fetched.len()
        invariant
            from <= i <= fetched.len(),
            r.deep_view() == fetched.deep_view().subrange(from as int, i as int),
        decreases fetched.len() - i,
    {
        let ghost before = r.deep_view();
        r.push(fetched[i].clone());
        assert(r.deep_view() =~= before.push(fetched[i as int]@));
        assert(fetched.deep_view().subrange(from as int, i + 1) =~= before.push(
            fetched[i as int]@,
        ));
        i += 1;
    }
    assert(fetched.deep_view().subrange(from as int, fetched.len() as int)
        =~= fetched.deep_view().skip(from as int));
    r
}

fn prepare_for(
    distro: Distro,
    arch: &str,
    app_dir: &str,
    kernel_file: &Option<String>,
    ssh_keys: &Option<Vec<String>>,
    assets: &Assets,
    fetched: &Vec<String>,
) -> (r: Preparation)
    ensures
        r@ == preparation_for(
            distro,
            arch@,
            app_dir@,
            kernel_file.deep_view(),
            ssh_keys.deep_view(),
            assets@,
            fetched.deep_view(),
        ),
{
    match distro {
        Distro::Debian => DebianPreparer.prepare(arch, app_dir, kernel_file, ssh_keys, assets, fetched),
        Distro::Alpine => AlpinePreparer.prepare(arch, app_dir, kernel_file, ssh_keys, assets, fetched),
        Distro::Ubuntu => UbuntuPreparer.prepare(arch, app_dir, kernel_file, ssh_keys, assets, fetched),
        Distro::NixOS => NixOSPreparer.prepare(arch, app_dir, kernel_file, ssh_keys, assets, fetched),
        Distro::Fedora => FedoraPreparer.prepare(arch, app_dir, kernel_file, ssh_keys, assets, fetched),
        Distro::Gentoo => GentooPreparer.prepare(arch, app_dir, kernel_file, ssh_keys, assets, fetched),
        Distro::Slackware => SlackwarePreparer.prepare(
            arch,
            app_dir,
            kernel_file,
            ssh_keys,
            assets,
            fetched,
        ),
        Distro::Opensuse => OpensusePreparer.prepare(
            arch,
            app_dir,
            kernel_file,
            ssh_keys,
            assets,
            fetched,
        ),
        Distro::OpensuseTumbleweed => OpensuseTumbleweedPreparer.prepare(
            arch,
            app_dir,
            kernel_file,
            ssh_keys,
            assets,
            fetched,
        ),
        Distro::Almalinux => AlmalinuxPreparer.prepare(
            arch,
            app_dir,
            kernel_file,
            ssh_keys,
            assets,
            fetched,
        ),
        Distro::RockyLinux => RockyLinuxPreparer.prepare(
            arch,
            app_dir,
            kernel_file,
            ssh_keys,
            assets,
            fetched,
        ),
        Distro::Archlinux => ArchlinuxPreparer.prepare(
            arch,
            app_dir,
            kernel_file,
            ssh_keys,
            assets,
            fetched,
        ),
    }
}

/// Prepares kernel and root filesystem image for `distro`.
///
/// Called again with every value fetched so far, it says what to do next;
/// it is complete when it names the artifact.
pub fn prepare(
    distro: Distro,
    kernel_file: &Option<String>,
    ssh_keys: &Option<Vec<String>>,
    app_dir: &str,
    home_dir: &str,
    assets: &Assets,
    fetched: &Vec<String>,
) -> (r: Preparation)
    ensures
        r@ == prepared(
            distro,
            kernel_file.deep_view(),
            ssh_keys.deep_view(),
            app_dir@,
            home_dir@,
            assets@,
            fetched.deep_view(),
        ),
{
    if fetched.len() == 0 {
        return Preparation {
            phase: Phase::fetching(script0(), Source::stdout_of("uname", argv1("-m"), false)),
            artifact: None,
        };
    }
    assert(fetched.deep_view()[0] == fetched[0]@);
    let arch = trim(fetched[0].as_str());
    let later = rest(fetched, 1);
    let inner = prepare_for(distro, arch.as_str(), app_dir, kernel_file, ssh_keys, assets, &later);
    let mut script = if fetched.len() == 1 {
        kernel_check(kernel_file)
    } else {
        script0()
    };
    append_script(&mut script, inner.phase.script);
    match inner.artifact {
        None => Preparation { phase: Phase { script, next: inner.phase.next }, artifact: None },
        Some(artifact) => {
            append_script(
                &mut script,
                extract_vmlinuz(
                    artifact.kernel_path.as_str(),
                    home_dir,
                    assets.extract_vmlinux.as_str(),
                ),
            );
            Preparation { phase: Phase::last(script), artifact: Some(artifact) }
        },
    }
}

/// What the host says to the two questions of the keys probe: whether
/// `authorized_keys` is there, and what it holds.
pub open spec fn keys_replies(installed: Option<Seq<char>>) -> (
    crate::machine::ReplyView,
    crate::machine::ReplyView,
) {
    match installed {
        Some(content) => (
            crate::machine::ReplyView::Done { result: Ok(Seq::empty()) },
            crate::machine::ReplyView::Done { result: Ok(content) },
        ),
        None => (
            crate::machine::ReplyView::Done {
                result: Err(about(FailureKind::ExternalCommandFailed, "test"@)),
            },
            crate::machine::ReplyView::Begin,
        ),
    }
}

/// What the machine asks for once the keys probe of the rotation script
/// has been answered by a host whose `authorized_keys` holds `installed`
/// (`None` where the file is absent).
pub open spec fn rotation_request(
    keys: Seq<Seq<char>>,
    root: Seq<char>,
    img_file: Seq<char>,
    installed: Option<Seq<char>>,
) -> crate::machine::RequestView {
    let script = rotate_image_script(Some(keys), root, img_file);
    let asked = crate::machine::advanced(
        script,
        crate::machine::Cursor { block: 0, place: crate::machine::Place::Start },
        crate::machine::ReplyView::Begin,
    );
    let first = crate::machine::advanced(script, asked.0, keys_replies(installed).0);
    match installed {
        Some(content) => crate::machine::advanced(script, first.0, keys_replies(installed).1).1,
        None => first.1,
    }
}

/// The packed image is removed, and so packed again, exactly when the
/// supplied keys are not the installed ones: walking the rotation script,
/// the machine asks for the removal of the image when the keys have
/// changed, and ends the script without asking for anything when they
/// have not.
pub proof fn lemma_image_is_rotated_when_keys_change(
    keys: Seq<Seq<char>>,
    root: Seq<char>,
    img_file: Seq<char>,
    installed: Option<Seq<char>>,
)
    ensures
        rotation_request(keys, root, img_file, installed) == if crate::prepare::ssh::keys_changed(
            Some(keys),
            installed,
        ) {
            crate::machine::RequestView::Exec { command: capture("rm"@, seq!["-f"@, img_file], true) }
        } else {
            crate::machine::RequestView::Stop { ending: crate::machine::EndingView::Completed }
        },
{
    let script = rotate_image_script(Some(keys), root, img_file);
    let block = script[0];
    assert(block.conditions.len() == 1);
    assert(block.steps.len() == 1);
    assert(block.otherwise.len() == 0);
    assert(block.steps[0] == run(capture("rm"@, seq!["-f"@, img_file], true)));
}

} // verus!
