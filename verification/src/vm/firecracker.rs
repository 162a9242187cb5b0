//! The Firecracker driver: the requests that configure one hypervisor
//! through its API socket, in the order the hypervisor needs them.

use vstd::prelude::*;
use vstd::string::*;
use crate::argv::argv11;
use crate::command::{capture, CommandView};
use crate::outside::{json_object, json_object_text};
use crate::prepare::Distro;
use crate::script::{always, push_block, run, script0, steps8, Block, BlockView, Step, StepView};
use crate::text::{is_prefix, join2, same};
use crate::vm::types::{VmOptions, VmOptionsView};

verus! {

/// The kernel command line of a NixOS guest.
pub const NIXOS_BOOT_ARGS: &'static str =
    "init=/nix/store/w1yqjd8sswh8zj9sz2v76dpw3llzkg5k-nixos-system-nixos-firecracker-25.05.802216.55d1f923c480/init root=/dev/vda ro console=ttyS0 reboot=k panic=1 ip=dhcp";

/// The kernel command line of every other guest.
pub const DEFAULT_BOOT_ARGS: &'static str = "console=ttyS0 reboot=k panic=1 pci=off ip=dhcp";

/// A `PUT` of the JSON `payload` to `url` over the API socket; any
/// answer but success fails the command.
pub open spec fn api_put(api_socket: Seq<char>, payload: Seq<char>, url: Seq<char>) -> CommandView {
    capture(
        "curl"@,
        seq![
            "-s"@,
            "--fail"@,
            "-X"@,
            "PUT"@,
            "--unix-socket"@,
            api_socket,
            "-H"@,
            "Content-Type: application/json"@,
            "--data"@,
            payload,
            url,
        ],
        true,
    )
}

/// The kernel command line: the caller's, if given; else that of NixOS
/// for a NixOS guest; else the default, with `keep_bootcon` before it on
/// `aarch64`.
pub open spec fn boot_args_of(arch: Seq<char>, is_nixos: bool, bootargs: Option<Seq<char>>) -> Seq<
    char,
> {
    match bootargs {
        Some(args) => args,
        None => if is_nixos {
            NIXOS_BOOT_ARGS@
        } else if arch == "aarch64"@ {
            "keep_bootcon "@ + DEFAULT_BOOT_ARGS@
        } else {
            DEFAULT_BOOT_ARGS@
        },
    }
}

pub open spec fn logger_payload(logfile: Seq<char>) -> Seq<char> {
    json_object(
        seq![("log_path"@, logfile), ("level"@, "Debug"@)],
        seq![("show_level"@, true), ("show_log_origin"@, true)],
        Seq::empty(),
    )
}

pub open spec fn boot_source_payload(kernel_image_path: Seq<char>, boot_args: Seq<char>) -> Seq<
    char,
> {
    json_object(
        seq![("kernel_image_path"@, kernel_image_path), ("boot_args"@, boot_args)],
        Seq::empty(),
        Seq::empty(),
    )
}

pub open spec fn rootfs_payload(rootfs: Seq<char>) -> Seq<char> {
    json_object(
        seq![("drive_id"@, "rootfs"@), ("path_on_host"@, rootfs)],
        seq![("is_root_device"@, true), ("is_read_only"@, false)],
        Seq::empty(),
    )
}

pub open spec fn network_interface_payload(guest_mac: Seq<char>, host_dev_name: Seq<char>) -> Seq<
    char,
> {
    json_object(
        seq![("iface_id"@, "eth0"@), ("guest_mac"@, guest_mac), ("host_dev_name"@, host_dev_name)],
        Seq::empty(),
        Seq::empty(),
    )
}

pub open spec fn machine_payload(vcpu: u16, memory: u16) -> Seq<char> {
    json_object(
        Seq::empty(),
        seq![("smt"@, false)],
        seq![("vcpu_count"@, vcpu as u64), ("mem_size_mib"@, memory as u64)],
    )
}

pub open spec fn start_payload() -> Seq<char> {
    json_object(seq![("action_type"@, "InstanceStart"@)], Seq::empty(), Seq::empty())
}

/// The kernel that is booted: the caller's, if given, else `kernel`.
pub open spec fn kernel_image_of(kernel: Seq<char>, vmlinux: Option<Seq<char>>) -> Seq<char> {
    match vmlinux {
        Some(path) => path,
        None => kernel,
    }
}

/// The configuration of one hypervisor: logger, boot source, root drive,
/// network interface and machine, in this order; a pause of 15 ms; the
/// start of the instance; and two seconds for the guest to boot.
pub open spec fn configure_script(
    logfile: Seq<char>,
    kernel: Seq<char>,
    rootfs: Seq<char>,
    arch: Seq<char>,
    options: VmOptionsView,
    distro: Distro,
) -> Seq<BlockView> {
    seq![
        always(
            seq![
                run(api_put(options.api_socket, logger_payload(logfile), "http://localhost/logger"@)),
                run(
                    api_put(
                        options.api_socket,
                        boot_source_payload(
                            kernel_image_of(kernel, options.vmlinux),
                            boot_args_of(arch, distro == Distro::NixOS, options.bootargs),
                        ),
                        "http://localhost/boot-source"@,
                    ),
                ),
                run(
                    api_put(
                        options.api_socket,
                        rootfs_payload(rootfs),
                        "http://localhost/drives/rootfs"@,
                    ),
                ),
                run(
                    api_put(
                        options.api_socket,
                        network_interface_payload(options.mac_address, options.tap),
                        "http://localhost/network-interfaces/eth0"@,
                    ),
                ),
                run(
                    api_put(
                        options.api_socket,
                        machine_payload(options.vcpu, options.memory),
                        "http://localhost/machine-config"@,
                    ),
                ),
                StepView::Sleep { millis: 15 },
                run(api_put(options.api_socket, start_payload(), "http://localhost/actions"@)),
                StepView::Sleep { millis: 2000 },
            ],
        ),
    ]
}

fn text(key: &str, value: &str) -> (r: (String, String))
    ensures
        r.deep_view() == (key@, value@),
{
    (String::from_str(key), String::from_str(value))
}

fn no_texts() -> (r: Vec<(String, String)>)
    ensures
        r.deep_view() == Seq::<(Seq<char>, Seq<char>)>::empty(),
{
    let v: Vec<(String, String)> = Vec::new();
    assert(v.deep_view() =~= Seq::<(Seq<char>, Seq<char>)>::empty());
    v
}

fn texts1(a: (String, String)) -> (r: Vec<(String, String)>)
    ensures
        r.deep_view() == seq![a.deep_view()],
{
    let mut v: Vec<(String, String)> = Vec::new();
    v.push(a);
    assert(v.deep_view() =~= seq![a.deep_view()]);
    v
}

fn texts2(a: (String, String), b: (String, String)) -> (r: Vec<(String, String)>)
    ensures
        r.deep_view() == seq![a.deep_view(), b.deep_view()],
{
    let mut v: Vec<(String, String)> = Vec::new();
    v.push(a);
    v.push(b);
    assert(v.deep_view() =~= seq![a.deep_view(), b.deep_view()]);
    v
}

fn texts3(a: (String, String), b: (String, String), c: (String, String)) -> (r: Vec<
    (String, String),
>)
    ensures
        r.deep_view() == seq![a.deep_view(), b.deep_view(), c.deep_view()],
{
    let mut v: Vec<(String, String)> = Vec::new();
    v.push(a);
    v.push(b);
    v.push(c);
    assert(v.deep_view() =~= seq![a.deep_view(), b.deep_view(), c.deep_view()]);
    v
}

fn no_flags() -> (r: Vec<(String, bool)>)
    ensures
        r.deep_view() == Seq::<(Seq<char>, bool)>::empty(),
{
    let v: Vec<(String, bool)> = Vec::new();
    assert(v.deep_view() =~= Seq::<(Seq<char>, bool)>::empty());
    v
}

fn flags1(a: &str, x: bool) -> (r: Vec<(String, bool)>)
    ensures
        r.deep_view() == seq![(a@, x)],
{
    let mut v: Vec<(String, bool)> = Vec::new();
    v.push((String::from_str(a), x));
    assert(v.deep_view() =~= seq![(a@, x)]);
    v
}

fn flags2(a: &str, x: bool, b: &str, y: bool) -> (r: Vec<(String, bool)>)
    ensures
        r.deep_view() == seq![(a@, x), (b@, y)],
{
    let mut v: Vec<(String, bool)> = Vec::new();
    v.push((String::from_str(a), x));
    v.push((String::from_str(b), y));
    assert(v.deep_view() =~= seq![(a@, x), (b@, y)]);
    v
}

fn no_numbers() -> (r: Vec<(String, u64)>)
    ensures
        r.deep_view() == Seq::<(Seq<char>, u64)>::empty(),
{
    let v: Vec<(String, u64)> = Vec::new();
    assert(v.deep_view() =~= Seq::<(Seq<char>, u64)>::empty());
    v
}

fn numbers2(a: &str, x: u64, b: &str, y: u64) -> (r: Vec<(String, u64)>)
    ensures
        r.deep_view() == seq![(a@, x), (b@, y)],
{
    let mut v: Vec<(String, u64)> = Vec::new();
    v.push((String::from_str(a), x));
    v.push((String::from_str(b), y));
    assert(v.deep_view() =~= seq![(a@, x), (b@, y)]);
    v
}

/// The step that puts the JSON `payload` to `url` over the API socket.
pub fn put(api_socket: &str, payload: &str, url: &str) -> (r: Step)
    ensures
        r@ == run(api_put(api_socket@, payload@, url@)),
{
    Step::capture(
        "curl",
        argv11(
            "-s",
            "--fail",
            "-X",
            "PUT",
            "--unix-socket",
            api_socket,
            "-H",
            "Content-Type: application/json",
            "--data",
            payload,
            url,
        ),
        true,
    )
}

/// The kernel command line for a guest.
pub fn boot_args(arch: &str, is_nixos: bool, bootargs: &Option<String>) -> (r: String)
    ensures
        r@ == boot_args_of(arch@, is_nixos, bootargs.deep_view()),
{
    match bootargs {
        Some(args) => args.clone(),
        None => {
            if is_nixos {
                String::from_str(NIXOS_BOOT_ARGS)
            } else if same(arch, "aarch64") {
                join2("keep_bootcon ", DEFAULT_BOOT_ARGS)
            } else {
                String::from_str(DEFAULT_BOOT_ARGS)
            }
        },
    }
}

/// The request that chooses where and how the hypervisor logs.
pub fn configure_logger(logfile: &str, options: &VmOptions) -> (r: Step)
    ensures
        r@ == run(
            api_put(options@.api_socket, logger_payload(logfile@), "http://localhost/logger"@),
        ),
{
    let payload = json_object_text(
        &texts2(text("log_path", logfile), text("level", "Debug")),
        &flags2("show_level", true, "show_log_origin", true),
        &no_numbers(),
    );
    put(options.api_socket.as_str(), payload.as_str(), "http://localhost/logger")
}

/// The request that names the kernel and its command line.
pub fn setup_boot_source(kernel: &str, arch: &str, is_nixos: bool, options: &VmOptions) -> (r:
    Step)
    ensures
        r@ == run(
            api_put(
                options@.api_socket,
                boot_source_payload(
                    kernel_image_of(kernel@, options@.vmlinux),
                    boot_args_of(arch@, is_nixos, options@.bootargs),
                ),
                "http://localhost/boot-source"@,
            ),
        ),
{
    let image = match &options.vmlinux {
        Some(path) => path.clone(),
        None => String::from_str(kernel),
    };
    let args = boot_args(arch, is_nixos, &options.bootargs);
    let payload = json_object_text(
        &texts2(text("kernel_image_path", image.as_str()), text("boot_args", args.as_str())),
        &no_flags(),
        &no_numbers(),
    );
    put(options.api_socket.as_str(), payload.as_str(), "http://localhost/boot-source")
}

/// The request that attaches the root drive.
pub fn setup_rootfs(rootfs: &str, options: &VmOptions) -> (r: Step)
    ensures
        r@ == run(
            api_put(
                options@.api_socket,
                rootfs_payload(rootfs@),
                "http://localhost/drives/rootfs"@,
            ),
        ),
{
    let payload = json_object_text(
        &texts2(text("drive_id", "rootfs"), text("path_on_host", rootfs)),
        &flags2("is_root_device", true, "is_read_only", false),
        &no_numbers(),
    );
    put(options.api_socket.as_str(), payload.as_str(), "http://localhost/drives/rootfs")
}

/// The request that attaches the guest's interface to its tap device.
pub fn setup_network_interface(options: &VmOptions) -> (r: Step)
    ensures
        r@ == run(
            api_put(
                options@.api_socket,
                network_interface_payload(options@.mac_address, options@.tap),
                "http://localhost/network-interfaces/eth0"@,
            ),
        ),
{
    let payload = json_object_text(
        &texts3(
            text("iface_id", "eth0"),
            text("guest_mac", options.mac_address.as_str()),
            text("host_dev_name", options.tap.as_str()),
        ),
        &no_flags(),
        &no_numbers(),
    );
    put(options.api_socket.as_str(), payload.as_str(), "http://localhost/network-interfaces/eth0")
}

/// The request that starts the instance.
pub fn start_microvm(options: &VmOptions) -> (r: Step)
    ensures
        r@ == run(api_put(options@.api_socket, start_payload(), "http://localhost/actions"@)),
{
    let payload = json_object_text(
        &texts1(text("action_type", "InstanceStart")),
        &no_flags(),
        &no_numbers(),
    );
    put(options.api_socket.as_str(), payload.as_str(), "http://localhost/actions")
}

/// The request that sizes the machine.
pub fn setup_vcpu_and_memory(n: u16, memory: u16, api_socket: &str) -> (r: Step)
    ensures
        r@ == run(
            api_put(api_socket@, machine_payload(n, memory), "http://localhost/machine-config"@),
        ),
{
    let payload = json_object_text(
        &no_texts(),
        &flags1("smt", false),
        &numbers2("vcpu_count", n as u64, "mem_size_mib", memory as u64),
    );
    put(api_socket, payload.as_str(), "http://localhost/machine-config")
}

/// Configures one hypervisor and starts its guest.
pub fn configure(
    logfile: &str,
    kernel: &str,
    rootfs: &str,
    arch: &str,
    options: &VmOptions,
    distro: Distro,
) -> (r: Vec<Block>)
    ensures
        r.deep_view() == configure_script(logfile@, kernel@, rootfs@, arch@, options@, distro),
{
    let mut script = script0();
    push_block(
        &mut script,
        Block::always(
            steps8(
                configure_logger(logfile, options),
                setup_boot_source(kernel, arch, distro == Distro::NixOS, options),
                setup_rootfs(rootfs, options),
                setup_network_interface(options),
                setup_vcpu_and_memory(options.vcpu, options.memory, options.api_socket.as_str()),
                Step::Sleep { millis: 15 },
                start_microvm(options),
                Step::Sleep { millis: 2000 },
            ),
        ),
    );
    script
}

/// A guest that is not NixOS and whose command line is not given boots
/// with `keep_bootcon` first on `aarch64`, and on no other architecture.
pub proof fn lemma_aarch64_keeps_boot_console(arch: Seq<char>)
    ensures
        is_prefix("keep_bootcon"@, boot_args_of(arch, false, None)) <==> arch == "aarch64"@,
{
    reveal_strlit("keep_bootcon ");
    reveal_strlit("keep_bootcon");
    reveal_strlit("console=ttyS0 reboot=k panic=1 pci=off ip=dhcp");
    let args = boot_args_of(arch, false, None);
    if arch == "aarch64"@ {
        assert(args.subrange(0, 12) =~= "keep_bootcon"@);
    } else {
        assert(args.subrange(0, 12)[0] == 'c');
        assert("keep_bootcon"@[0] == 'k');
    }
}

} // verus!
