//! The host side of one microVM: its network, its services and its
//! configuration through the Firecracker API.

pub mod constants;
pub mod coredns;
pub mod dhcpd;
pub mod dnsmasq;
pub mod fabric;
pub mod firecracker;
pub mod guest;
pub mod mac;
pub mod mosquitto;
pub mod mqttc;
pub mod network;
pub mod nextdhcp;
pub mod tailscale;
pub mod types;

use vstd::prelude::*;
use vstd::string::*;
use crate::argv::argv1;
use crate::error::{about, Failure, FailureKind};
use crate::outside::random_name;
use crate::prepare::{distro_tag, Distro};
use crate::script::{
    always, append_script, failing, fetching, last, push_block, script0, stdout_of, steps1, steps2,
    Block, BlockView, Next, NextView, Phase, PhaseView, Poll, PollView, Probe, ProbeView, Source,
    SourceView, Step, StepView, Subflow,
};
use crate::state::entity::virtual_machine::{blank, VirtualMachine, VirtualMachineView};
use crate::text::{
    after_last, join, join2, join3, join4, joined, last_segment, replace, replaced, trim, trimmed,
};
use crate::vm::coredns::{setup_coredns, setup_coredns_script};
use crate::vm::dhcpd::{setup_kea_dhcp, setup_kea_dhcp_script};
use crate::vm::firecracker::{configure, configure_script, kernel_image_of};
use crate::vm::guest::{configure_guest_network, configure_guest_network_script};
use crate::vm::mosquitto::{setup_mosquitto, setup_mosquitto_script};
use crate::vm::types::{selected_distro, VmOptions, VmOptionsView};

verus! {

/// The name in an API socket path: the last path segment without every
/// `firecracker-` and every `.sock` in it.
pub open spec fn name_in_socket(api_socket: Seq<char>) -> Seq<char> {
    replaced(replaced(last_segment(api_socket, '/'), "firecracker-"@, ""@), ".sock"@, ""@)
}

/// The name in an API socket path.
pub fn vm_name(api_socket: &str) -> (r: String)
    ensures
        r@ == name_in_socket(api_socket@),
{
    let file = after_last(api_socket, '/');
    let bare = replace(file.as_str(), "firecracker-", "");
    replace(bare.as_str(), ".sock", "")
}

/// The texts that are packaged with the control plane and installed on
/// the host as they are.
#[derive(Clone, Debug, PartialEq, Eq)]
pub struct HostAssets {
    /// The Corefile: the guests' zone from etcd, the tailnet forwarded to
    /// its resolver, everything else forwarded to public resolvers.
    pub corefile: String,
    /// The systemd unit of CoreDNS.
    pub coredns_service: String,
    /// The hook that publishes the DHCP server's lease events.
    pub kea_mqtt_hook: String,
    /// The DHCP server's AppArmor profile.
    pub kea_apparmor: String,
}

pub struct HostAssetsView {
    pub corefile: Seq<char>,
    pub coredns_service: Seq<char>,
    pub kea_mqtt_hook: Seq<char>,
    pub kea_apparmor: Seq<char>,
}

impl View for HostAssets {
    type V = HostAssetsView;

    open spec fn view(&self) -> HostAssetsView {
        HostAssetsView {
            corefile: self.corefile@,
            coredns_service: self.coredns_service@,
            kea_mqtt_hook: self.kea_mqtt_hook@,
            kea_apparmor: self.kea_apparmor@,
        }
    }
}

/// Where the setup of a microVM stands, and the row to record once it is
/// complete.
#[derive(Clone, Debug, PartialEq, Eq)]
pub struct Setup {
    pub phase: Phase,
    pub record: Option<VirtualMachine>,
}

pub struct SetupView {
    pub phase: PhaseView,
    pub record: Option<VirtualMachineView>,
}

impl View for Setup {
    type V = SetupView;

    open spec fn view(&self) -> SetupView {
        SetupView { phase: self.phase@, record: self.record.deep_view() }
    }
}

/// The name that a microVM is set up under: the one in its socket path,
/// or `fallback` where that is empty.
pub open spec fn setup_name(api_socket: Seq<char>, fallback: Seq<char>) -> Seq<char> {
    if name_in_socket(api_socket).len() == 0 {
        fallback
    } else {
        name_in_socket(api_socket)
    }
}

/// The packed root filesystem image of a distribution.
pub open spec fn image_of(app_dir: Seq<char>, distro: Distro) -> Seq<char> {
    app_dir + "/"@ + distro_tag(distro) + "-rootfs.img"@
}

/// Where the hypervisor of the microVM `name` logs.
pub open spec fn logfile_of(app_dir: Seq<char>, name: Seq<char>) -> Seq<char> {
    app_dir + "/logs/firecracker-"@ + name + ".log"@
}

/// Where the address of the microVM `name` is left once it is leased.
pub open spec fn ip_file_of(name: Seq<char>) -> Seq<char> {
    "/tmp/firecracker-"@ + name + ".ip"@
}

/// Waits for the guest's address: its file is looked for every half
/// second for a minute, 120 times; a guest that has no address by then
/// fails with `GuestDhcpTimeout`.
pub open spec fn await_ip_script(ip_file: Seq<char>) -> Seq<BlockView> {
    seq![
        always(
            seq![
                StepView::Await {
                    poll: PollView {
                        probe: ProbeView::PathExists { path: ip_file },
                        expect: true,
                        pause_first: false,
                        interval_ms: 500,
                        tries: Some(120u32),
                        pause_last: true,
                        on_timeout: Some(about(FailureKind::GuestDhcpTimeout, ip_file)),
                    },
                },
            ],
        ),
    ]
}

/// The host's side of the fabric beyond links and NAT: the broker, the
/// DNS plane and the DHCP server, each installed where that is the
/// library's to do, configured and started afresh.
pub open spec fn host_services_script(assets: HostAssetsView) -> Seq<BlockView> {
    setup_mosquitto_script() + setup_coredns_script(assets.corefile, assets.coredns_service)
        + setup_kea_dhcp_script(assets.kea_mqtt_hook, assets.kea_apparmor)
}

/// The network fabric for a microVM, given what has been fetched so far:
/// links, forwarding and NAT first, then the host's services.
pub open spec fn fabric_of(
    options: VmOptionsView,
    assets: HostAssetsView,
    fetched: Seq<Seq<char>>,
) -> PhaseView {
    if fetched.len() == 0 {
        PhaseView { script: Seq::empty(), next: NextView::Enter { flow: Subflow::Network } }
    } else {
        last(host_services_script(assets))
    }
}

/// Everything between the hypervisor's start and the guest's address:
/// the watch for the guest's lease, the hypervisor's configuration and
/// the guest's start, the guest's resolver (not on NixOS), and the wait
/// for the address.
pub open spec fn services_script(
    options: VmOptionsView,
    distro: Distro,
    name: Seq<char>,
    logfile: Seq<char>,
    kernel: Seq<char>,
    rootfs: Seq<char>,
    key: Seq<char>,
    arch: Seq<char>,
) -> Seq<BlockView> {
    seq![
        always(
            seq![StepView::WatchLease { msgtype: "REQUEST"@, api_socket: options.api_socket }],
        ),
    ] + configure_script(logfile, kernel, rootfs, arch, options, distro) + (if distro
        != Distro::NixOS {
        configure_guest_network_script(key, name + ".firecracker"@, false)
    } else {
        Seq::empty()
    }) + await_ip_script(ip_file_of(name))
}

/// The row that records a microVM once it is up; the SSH keys it was
/// asked with are recorded comma-joined.
pub open spec fn record_of(
    options: VmOptionsView,
    distro: Distro,
    name: Seq<char>,
    pid: u32,
    ip_addr: Seq<char>,
    project_dir: Option<Seq<char>>,
    kernel: Seq<char>,
    rootfs: Seq<char>,
) -> VirtualMachineView {
    VirtualMachineView {
        vcpu: options.vcpu,
        memory: options.memory,
        api_socket: options.api_socket,
        bridge: options.bridge,
        tap: options.tap,
        mac_address: options.mac_address,
        name,
        pid: Some(pid),
        distro: distro_tag(distro),
        ip_address: Some(ip_addr),
        status: "RUNNING"@,
        project_dir,
        vmlinux: Some(kernel),
        rootfs: Some(rootfs),
        bootargs: options.bootargs,
        ssh_keys: match options.ssh_keys {
            Some(keys) => Some(joined(keys, ","@)),
            None => None,
        },
        ..blank()
    }
}

/// The setup of a microVM whose hypervisor runs as `pid`, given what has
/// been fetched so far.  In order, the values are: the newest kernel in
/// the state directory; its absolute path; the absolute path of the
/// distribution's image; the default SSH key; its absolute path; the
/// host's architecture; the guest's address; and the absolute path of
/// the kernel that was booted.  With all eight at hand the setup is
/// complete and names the row to record.
pub open spec fn setup_of(
    options: VmOptionsView,
    pid: u32,
    app_dir: Seq<char>,
    fallback_name: Seq<char>,
    project_dir: Option<Seq<char>>,
    fetched: Seq<Seq<char>>,
) -> SetupView {
    let name = setup_name(options.api_socket, fallback_name);
    let logfile = logfile_of(app_dir, name);
    match selected_distro(options) {
        None => SetupView {
            phase: failing(
                about(FailureKind::ConfigInvalid, "No valid distribution option provided."@),
            ),
            record: None,
        },
        Some(distro) => if fetched.len() == 0 {
            SetupView {
                phase: fetching(
                    seq![
                        always(
                            seq![
                                StepView::CreateDir { path: app_dir + "/logs"@ },
                                StepView::CreateFile { path: logfile },
                            ],
                        ),
                    ],
                    SourceView::LastMatch { pattern: app_dir + "/vmlinux*"@ },
                ),
                record: None,
            }
        } else if fetched.len() == 1 {
            SetupView {
                phase: fetching(Seq::empty(), SourceView::Canonical { path: fetched[0] }),
                record: None,
            }
        } else if fetched.len() == 2 {
            SetupView {
                phase: fetching(
                    Seq::empty(),
                    SourceView::Canonical { path: image_of(app_dir, distro) },
                ),
                record: None,
            }
        } else if fetched.len() == 3 {
            SetupView {
                phase: fetching(
                    Seq::empty(),
                    SourceView::LastMatch { pattern: app_dir + "/id_rsa"@ },
                ),
                record: None,
            }
        } else if fetched.len() == 4 {
            SetupView {
                phase: fetching(Seq::empty(), SourceView::Canonical { path: fetched[3] }),
                record: None,
            }
        } else if fetched.len() == 5 {
            SetupView {
                phase: fetching(Seq::empty(), stdout_of("uname"@, seq!["-m"@], false)),
                record: None,
            }
        } else if fetched.len() == 6 {
            SetupView {
                phase: fetching(
                    services_script(
                        options,
                        distro,
                        name,
                        logfile,
                        fetched[1],
                        fetched[2],
                        fetched[4],
                        trimmed(fetched[5]),
                    ),
                    SourceView::FileContent { path: ip_file_of(name) },
                ),
                record: None,
            }
        } else if fetched.len() == 7 {
            SetupView {
                phase: fetching(
                    seq![always(seq![StepView::RemoveFile { path: ip_file_of(name) }])],
                    SourceView::Canonical { path: kernel_image_of(fetched[1], options.vmlinux) },
                ),
                record: None,
            }
        } else {
            SetupView {
                phase: last(Seq::empty()),
                record: Some(
                    record_of(
                        options,
                        distro,
                        name,
                        pid,
                        trimmed(fetched[6]),
                        project_dir,
                        fetched[7],
                        fetched[2],
                    ),
                ),
            }
        },
    }
}

/// The workflow that goes by the name `flow`, for the microVM that
/// `options` ask for.
pub open spec fn subflow_of(flow: Subflow, options: VmOptionsView, fetched: Seq<Seq<char>>) -> PhaseView {
    match flow {
        Subflow::Network => crate::vm::network::network_setup_of(
            options,
            crate::prepare::downloader::first_values(fetched, 1),
        ),
    }
}

/// Where the workflow `flow` stands, given what has been fetched for it
/// so far.
pub fn subflow(flow: Subflow, options: &VmOptions, fetched: &Vec<String>) -> (r: Phase)
    ensures
        r@ == subflow_of(flow, options@, fetched.deep_view()),
{
    match flow {
        Subflow::Network => crate::vm::network::setup_network(options, fetched),
    }
}

/// A name for a microVM that has none: two words joined by a hyphen,
/// chosen at random.
pub fn fresh_name() -> (r: String)
    ensures
        r@.contains('-'),
{
    match random_name() {
        Some(name) => name,
        None => String::new(),
    }
}

fn await_ip(ip_file: &str) -> (r: Vec<Block>)
    ensures
        r.deep_view() == await_ip_script(ip_file@),
{
    let mut script = script0();
    push_block(
        &mut script,
        Block::always(
            steps1(
                Step::Await {
                    poll: Poll {
                        probe: Probe::PathExists { path: String::from_str(ip_file) },
                        expect: true,
                        pause_first: false,
                        interval_ms: 500,
                        tries: Some(120),
                        pause_last: true,
                        on_timeout: Some(Failure::about(FailureKind::GuestDhcpTimeout, ip_file)),
                    },
                },
            ),
        ),
    );
    script
}

fn services(
    options: &VmOptions,
    distro: Distro,
    name: &str,
    logfile: &str,
    kernel: &str,
    rootfs: &str,
    key: &str,
    arch: &str,
) -> (r: Vec<Block>)
    ensures
        r.deep_view() == services_script(
            options@,
            distro,
            name@,
            logfile@,
            kernel@,
            rootfs@,
            key@,
            arch@,
        ),
{
    let mut script = script0();
    push_block(
        &mut script,
        Block::always(
            steps1(
                Step::WatchLease {
                    msgtype: String::from_str("REQUEST"),
                    api_socket: options.api_socket.clone(),
                },
            ),
        ),
    );
    append_script(&mut script, configure(logfile, kernel, rootfs, arch, options, distro));
    if distro != Distro::NixOS {
        append_script(
            &mut script,
            configure_guest_network(key, join2(name, ".firecracker").as_str(), false),
        );
    } else {
        append_script(&mut script, script0());
    }
    append_script(&mut script, await_ip(join3("/tmp/firecracker-", name, ".ip").as_str()));
    script
}

/// Sets up the network fabric for the microVM that `options` ask for.
///
/// Called again with every value fetched so far, it says what to do next;
/// with one value or more it is complete.
pub fn fabric(options: &VmOptions, assets: &HostAssets, fetched: &Vec<String>) -> (r: Phase)
    ensures
        r@ == fabric_of(options@, assets@, fetched.deep_view()),
{
    if fetched.len() == 0 {
        Phase { script: script0(), next: Next::Enter { flow: Subflow::Network } }
    } else {
        let mut script = setup_mosquitto();
        append_script(
            &mut script,
            setup_coredns(assets.corefile.as_str(), assets.coredns_service.as_str()),
        );
        append_script(
            &mut script,
            setup_kea_dhcp(assets.kea_mqtt_hook.as_str(), assets.kea_apparmor.as_str()),
        );
        Phase::last(script)
    }
}

/// Sets up the microVM that `options` ask for, once its hypervisor runs
/// as `pid`.
///
/// Called again with every value fetched so far, it says what to do next;
/// with eight values or more it is complete and names the row to record.
pub fn setup(
    options: &VmOptions,
    pid: u32,
    app_dir: &str,
    fallback_name: &str,
    project_dir: &Option<String>,
    fetched: &Vec<String>,
) -> (r: Setup)
    ensures
        r@ == setup_of(
            options@,
            pid,
            app_dir@,
            fallback_name@,
            project_dir.deep_view(),
            fetched.deep_view(),
        ),
{
    let distro = match options.distro() {
        Some(d) => d,
        None => {
            return Setup {
                phase: Phase::failing(
                    Failure::about(
                        FailureKind::ConfigInvalid,
                        "No valid distribution option provided.",
                    ),
                ),
                record: None,
            };
        },
    };
    let in_socket = vm_name(options.api_socket.as_str());
    let name = if in_socket.as_str().unicode_len() == 0 {
        String::from_str(fallback_name)
    } else {
        in_socket
    };
    let logfile = join4(app_dir, "/logs/firecracker-", name.as_str(), ".log");
    let ip_file = join3("/tmp/firecracker-", name.as_str(), ".ip");
    let n = fetched.len();
    proof {
        assert forall|i: int| 0 <= i < n implies fetched.deep_view()[i] == fetched[i]@ by {}
    }
    if n == 0 {
        let mut script = script0();
        push_block(
            &mut script,
            Block::always(
                steps2(
                    Step::CreateDir { path: join2(app_dir, "/logs") },
                    Step::CreateFile { path: logfile },
                ),
            ),
        );
        Setup {
            phase: Phase::fetching(script, Source::LastMatch { pattern: join2(app_dir, "/vmlinux*") }),
            record: None,
        }
    } else if n == 1 {
        Setup {
            phase: Phase::fetching(script0(), Source::Canonical { path: fetched[0].clone() }),
            record: None,
        }
    } else if n == 2 {
        Setup {
            phase: Phase::fetching(
                script0(),
                Source::Canonical {
                    path: join4(app_dir, "/", distro.to_string().as_str(), "-rootfs.img"),
                },
            ),
            record: None,
        }
    } else if n == 3 {
        Setup {
            phase: Phase::fetching(script0(), Source::LastMatch { pattern: join2(app_dir, "/id_rsa") }),
            record: None,
        }
    } else if n == 4 {
        Setup {
            phase: Phase::fetching(script0(), Source::Canonical { path: fetched[3].clone() }),
            record: None,
        }
    } else if n == 5 {
        Setup {
            phase: Phase::fetching(script0(), Source::stdout_of("uname", argv1("-m"), false)),
            record: None,
        }
    } else if n == 6 {
        let arch = trim(fetched[5].as_str());
        Setup {
            phase: Phase::fetching(
                services(
                    options,
                    distro,
                    name.as_str(),
                    logfile.as_str(),
                    fetched[1].as_str(),
                    fetched[2].as_str(),
                    fetched[4].as_str(),
                    arch.as_str(),
                ),
                Source::FileContent { path: ip_file },
            ),
            record: None,
        }
    } else if n == 7 {
        let mut script = script0();
        push_block(&mut script, Block::always(steps1(Step::RemoveFile { path: ip_file })));
        let booted = match &options.vmlinux {
            Some(path) => path.clone(),
            None => fetched[1].clone(),
        };
        Setup { phase: Phase::fetching(script, Source::Canonical { path: booted }), record: None }
    } else {
        let mut row = VirtualMachine::default();
        row.vcpu = options.vcpu;
        row.memory = options.memory;
        row.api_socket = options.api_socket.clone();
        row.bridge = options.bridge.clone();
        row.tap = options.tap.clone();
        row.mac_address = options.mac_address.clone();
        row.name = name;
        row.pid = Some(pid);
        row.distro = distro.to_string();
        row.ip_address = Some(trim(fetched[6].as_str()));
        row.status = String::from_str("RUNNING");
        row.project_dir = project_dir.clone();
        row.vmlinux = Some(fetched[7].clone());
        row.rootfs = Some(fetched[2].clone());
        row.bootargs = options.bootargs.clone();
        row.ssh_keys = match &options.ssh_keys {
            Some(keys) => Some(join(keys, ",")),
            None => None,
        };
        Setup { phase: Phase::last(script0()), record: Some(row) }
    }
}

} // verus!
