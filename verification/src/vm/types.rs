//! What is asked of a microVM.

use vstd::prelude::*;
use vstd::string::*;
use crate::config::{
    cpu_count, EtcdConfig, EtcdConfigView, FireConfig, FireConfigView, TailscaleOptions,
    TailscaleOptionsView,
};
use crate::error::{Failure, FailureKind, FailureView};
use crate::prepare::Distro;
use crate::vm::constants::{BRIDGE_DEV, FC_MAC, FIRECRACKER_SOCKET};

verus! {

/// Everything that is asked of one microVM: the distribution (one flag each),
/// its resources, its image overrides and its place on the host network.
#[derive(Clone, Debug, PartialEq, Eq)]
pub struct VmOptions {
    pub debian: Option<bool>,
    pub alpine: Option<bool>,
    pub ubuntu: Option<bool>,
    pub nixos: Option<bool>,
    pub fedora: Option<bool>,
    pub gentoo: Option<bool>,
    pub slackware: Option<bool>,
    pub opensuse: Option<bool>,
    pub opensuse_tumbleweed: Option<bool>,
    pub almalinux: Option<bool>,
    pub rockylinux: Option<bool>,
    pub archlinux: Option<bool>,
    pub vcpu: u16,
    pub memory: u16,
    pub vmlinux: Option<String>,
    pub rootfs: Option<String>,
    pub bootargs: Option<String>,
    pub bridge: String,
    pub tap: String,
    pub api_socket: String,
    pub mac_address: String,
    pub etcd: Option<EtcdConfig>,
    pub ssh_keys: Option<Vec<String>>,
    pub tailscale: Option<TailscaleOptions>,
}

pub struct VmOptionsView {
    pub debian: Option<bool>,
    pub alpine: Option<bool>,
    pub ubuntu: Option<bool>,
    pub nixos: Option<bool>,
    pub fedora: Option<bool>,
    pub gentoo: Option<bool>,
    pub slackware: Option<bool>,
    pub opensuse: Option<bool>,
    pub opensuse_tumbleweed: Option<bool>,
    pub almalinux: Option<bool>,
    pub rockylinux: Option<bool>,
    pub archlinux: Option<bool>,
    pub vcpu: u16,
    pub memory: u16,
    pub vmlinux: Option<Seq<char>>,
    pub rootfs: Option<Seq<char>>,
    pub bootargs: Option<Seq<char>>,
    pub bridge: Seq<char>,
    pub tap: Seq<char>,
    pub api_socket: Seq<char>,
    pub mac_address: Seq<char>,
    pub etcd: Option<EtcdConfigView>,
    pub ssh_keys: Option<Seq<Seq<char>>>,
    pub tailscale: Option<TailscaleOptionsView>,
}

impl View for VmOptions {
    type V = VmOptionsView;

    open spec fn view(&self) -> VmOptionsView {
        VmOptionsView {
            debian: self.debian,
            alpine: self.alpine,
            ubuntu: self.ubuntu,
            nixos: self.nixos,
            fedora: self.fedora,
            gentoo: self.gentoo,
            slackware: self.slackware,
            opensuse: self.opensuse,
            opensuse_tumbleweed: self.opensuse_tumbleweed,
            almalinux: self.almalinux,
            rockylinux: self.rockylinux,
            archlinux: self.archlinux,
            vcpu: self.vcpu,
            memory: self.memory,
            vmlinux: self.vmlinux.deep_view(),
            rootfs: self.rootfs.deep_view(),
            bootargs: self.bootargs.deep_view(),
            bridge: self.bridge.deep_view(),
            tap: self.tap.deep_view(),
            api_socket: self.api_socket.deep_view(),
            mac_address: self.mac_address.deep_view(),
            etcd: self.etcd.deep_view(),
            ssh_keys: self.ssh_keys.deep_view(),
            tailscale: self.tailscale.deep_view(),
        }
    }
}

impl DeepView for VmOptions {
    type V = VmOptionsView;

    open spec fn deep_view(&self) -> VmOptionsView {
        self@
    }
}

impl VmOptions {
    /// A copy, field by field.
    pub fn duplicate(&self) -> (r: VmOptions)
        ensures
            r@ == self@,
    {
        VmOptions {
            debian: self.debian,
            alpine: self.alpine,
            ubuntu: self.ubuntu,
            nixos: self.nixos,
            fedora: self.fedora,
            gentoo: self.gentoo,
            slackware: self.slackware,
            opensuse: self.opensuse,
            opensuse_tumbleweed: self.opensuse_tumbleweed,
            almalinux: self.almalinux,
            rockylinux: self.rockylinux,
            archlinux: self.archlinux,
            vcpu: self.vcpu,
            memory: self.memory,
            vmlinux: self.vmlinux.clone(),
            rootfs: self.rootfs.clone(),
            bootargs: self.bootargs.clone(),
            bridge: self.bridge.clone(),
            tap: self.tap.clone(),
            api_socket: self.api_socket.clone(),
            mac_address: self.mac_address.clone(),
            etcd: match &self.etcd { Some(e) => Some(e.duplicate()), None => None },
            ssh_keys: self.ssh_keys.clone(),
            tailscale: match &self.tailscale { Some(t) => Some(t.duplicate()), None => None },
        }
    }
}

/// A flag's value, `default` where it is not given.
pub open spec fn on(flag: Option<bool>, default: bool) -> bool {
    match flag {
        Some(b) => b,
        None => default,
    }
}

fn flag(value: Option<bool>, default: bool) -> (r: bool)
    ensures
        r == on(value, default),
{
    match value {
        Some(b) => b,
        None => default,
    }
}

/// The distribution that the flags select: the first that is set, in the
/// order Debian, Alpine, NixOS, Fedora, Gentoo, Slackware, openSUSE,
/// Tumbleweed, AlmaLinux, Rocky Linux, Arch Linux; Ubuntu when none of
/// them is set and Ubuntu is not switched off; otherwise none.
pub open spec fn selected_distro(options: VmOptionsView) -> Option<Distro> {
    if on(options.debian, false) {
        Some(Distro::Debian)
    } else     if on(options.alpine, false) {
        Some(Distro::Alpine)
    } else     if on(options.nixos, false) {
        Some(Distro::NixOS)
    } else     if on(options.fedora, false) {
        Some(Distro::Fedora)
    } else     if on(options.gentoo, false) {
        Some(Distro::Gentoo)
    } else     if on(options.slackware, false) {
        Some(Distro::Slackware)
    } else     if on(options.opensuse, false) {
        Some(Distro::Opensuse)
    } else     if on(options.opensuse_tumbleweed, false) {
        Some(Distro::OpensuseTumbleweed)
    } else     if on(options.almalinux, false) {
        Some(Distro::Almalinux)
    } else     if on(options.rockylinux, false) {
        Some(Distro::RockyLinux)
    } else     if on(options.archlinux, false) {
        Some(Distro::Archlinux)
    } else if on(options.ubuntu, true) {
        Some(Distro::Ubuntu)
    } else {
        None
    }
}

/// A text, `default` where it is not given.
pub open spec fn text_or(value: Option<Seq<char>>, default: Seq<char>) -> Seq<char> {
    match value {
        Some(v) => v,
        None => default,
    }
}

/// The memory of a guest that asks for none, in MiB: 2048 for NixOS, 512
/// for every other distribution.
pub open spec fn default_memory_of(nixos: bool) -> u16 {
    if nixos {
        2048
    } else {
        512
    }
}

/// The processors and the memory of a guest on a host with `cpus`
/// processors: what is asked for; else every processor of the host, and
/// the default memory of the distribution.
pub open spec fn budget_of(vcpu: Option<u16>, memory: Option<u16>, nixos: bool, cpus: u16) -> (
    u16,
    u16,
) {
    (
        match vcpu {
            Some(n) => n,
            None => cpus,
        },
        match memory {
            Some(n) => n,
            None => default_memory_of(nixos),
        },
    )
}

/// The memory of a guest that asks for none, in MiB.
pub fn default_memory(nixos: bool) -> (r: u16)
    ensures
        r == default_memory_of(nixos),
{
    if nixos {
        2048
    } else {
        512
    }
}

/// The processors and the memory of a guest on a host with `cpus`
/// processors.
pub fn resource_budget(vcpu: Option<u16>, memory: Option<u16>, nixos: bool, cpus: u16) -> (r: (
    u16,
    u16,
))
    ensures
        r == budget_of(vcpu, memory, nixos, cpus),
{
    (
        match vcpu {
            Some(n) => n,
            None => cpus,
        },
        match memory {
            Some(n) => n,
            None => default_memory(nixos),
        },
    )
}

/// What is wrong with a number of processors that the host cannot give.
pub open spec fn vcpu_out_of_range() -> FailureView {
    FailureView {
        kind: FailureKind::ConfigInvalid,
        subject: "vcpu"@,
        code: None,
        detail: "vcpu must be between 1 and the number of processors of the host"@,
    }
}

/// Why a guest cannot have `vcpu` processors on a host with `cpus`, if
/// it cannot: a guest has at least one processor and no more than the
/// host has; any other number is refused with `ConfigInvalid`.
pub open spec fn vcpu_refusal(vcpu: u16, cpus: u16) -> Option<FailureView> {
    if 1 <= vcpu <= cpus {
        None
    } else {
        Some(vcpu_out_of_range())
    }
}

/// Checks the number of processors asked for against the host's.
pub fn check_vcpu(vcpu: u16, cpus: u16) -> (r: Result<(), Failure>)
    ensures
        match r {
            Ok(()) => vcpu_refusal(vcpu, cpus) is None,
            Err(e) => vcpu_refusal(vcpu, cpus) == Some(e@),
        },
{
    if 1 <= vcpu && vcpu <= cpus {
        Ok(())
    } else {
        Err(
            Failure::with_detail(
                FailureKind::ConfigInvalid,
                "vcpu",
                None,
                "vcpu must be between 1 and the number of processors of the host",
            ),
        )
    }
}

/// The options that a project file stands for on a host with `cpus`
/// processors: its distribution and nothing else selected, every
/// processor and the distribution's default memory unless it says
/// otherwise, the default bridge, socket and MAC address, and a tap
/// device yet to be chosen.
pub open spec fn options_of(config: FireConfigView, cpus: u16) -> VmOptionsView {
    VmOptionsView {
            debian: Some(config.distro == Distro::Debian),
            alpine: Some(config.distro == Distro::Alpine),
            ubuntu: Some(config.distro == Distro::Ubuntu),
            nixos: Some(config.distro == Distro::NixOS),
            fedora: Some(config.distro == Distro::Fedora),
            gentoo: Some(config.distro == Distro::Gentoo),
            slackware: Some(config.distro == Distro::Slackware),
            opensuse: Some(config.distro == Distro::Opensuse),
            opensuse_tumbleweed: Some(config.distro == Distro::OpensuseTumbleweed),
            almalinux: Some(config.distro == Distro::Almalinux),
            rockylinux: Some(config.distro == Distro::RockyLinux),
            archlinux: Some(config.distro == Distro::Archlinux),
        vcpu: budget_of(config.vm.vcpu, config.vm.memory, config.distro == Distro::NixOS, cpus).0,
        memory: budget_of(config.vm.vcpu, config.vm.memory, config.distro == Distro::NixOS, cpus).1,
        vmlinux: config.vm.vmlinux,
        rootfs: config.vm.rootfs,
        bootargs: config.vm.boot_args,
        bridge: text_or(config.vm.bridge, BRIDGE_DEV@),
        tap: text_or(config.vm.tap, ""@),
        api_socket: text_or(config.vm.api_socket, FIRECRACKER_SOCKET@),
        mac_address: text_or(config.vm.mac, FC_MAC@),
        etcd: config.etcd,
        ssh_keys: config.vm.ssh_keys,
        tailscale: config.tailscale,
    }
}

/// Options with nothing selected and nothing set.
pub open spec fn no_options() -> VmOptionsView {
    VmOptionsView {
            debian: None,
            alpine: None,
            ubuntu: None,
            nixos: None,
            fedora: None,
            gentoo: None,
            slackware: None,
            opensuse: None,
            opensuse_tumbleweed: None,
            almalinux: None,
            rockylinux: None,
            archlinux: None,
        vcpu: 0,
        memory: 0,
        vmlinux: None,
        rootfs: None,
        bootargs: None,
        bridge: Seq::empty(),
        tap: Seq::empty(),
        api_socket: Seq::empty(),
        mac_address: Seq::empty(),
        etcd: None,
        ssh_keys: None,
        tailscale: None,
    }
}

fn or_text(value: Option<String>, default: &str) -> (r: String)
    ensures
        r@ == text_or(value.deep_view(), default@),
{
    match value {
        Some(v) => v,
        None => String::from_str(default),
    }
}

impl Default for VmOptions {
    fn default() -> (r: VmOptions)
        ensures
            r@ == no_options(),
    {
        VmOptions {
            debian: None,
            alpine: None,
            ubuntu: None,
            nixos: None,
            fedora: None,
            gentoo: None,
            slackware: None,
            opensuse: None,
            opensuse_tumbleweed: None,
            almalinux: None,
            rockylinux: None,
            archlinux: None,
            vcpu: 0,
            memory: 0,
            vmlinux: None,
            rootfs: None,
            bootargs: None,
            bridge: String::new(),
            tap: String::new(),
            api_socket: String::new(),
            mac_address: String::new(),
            etcd: None,
            ssh_keys: None,
            tailscale: None,
        }
    }
}

impl VmOptions {
    /// The options that a project file stands for on a host with `cpus`
    /// processors.
    pub fn from_config(config: FireConfig, cpus: u16) -> (r: VmOptions)
        ensures
            r@ == options_of(config@, cpus),
    {
        let distro = config.distro;
        let vm = config.vm;
        let budget = resource_budget(vm.vcpu, vm.memory, distro == Distro::NixOS, cpus);
        VmOptions {
            debian: Some(distro == Distro::Debian),
            alpine: Some(distro == Distro::Alpine),
            ubuntu: Some(distro == Distro::Ubuntu),
            nixos: Some(distro == Distro::NixOS),
            fedora: Some(distro == Distro::Fedora),
            gentoo: Some(distro == Distro::Gentoo),
            slackware: Some(distro == Distro::Slackware),
            opensuse: Some(distro == Distro::Opensuse),
            opensuse_tumbleweed: Some(distro == Distro::OpensuseTumbleweed),
            almalinux: Some(distro == Distro::Almalinux),
            rockylinux: Some(distro == Distro::RockyLinux),
            archlinux: Some(distro == Distro::Archlinux),
            vcpu: budget.0,
            memory: budget.1,
            vmlinux: vm.vmlinux,
            rootfs: vm.rootfs,
            bootargs: vm.boot_args,
            bridge: or_text(vm.bridge, BRIDGE_DEV),
            tap: or_text(vm.tap, ""),
            api_socket: or_text(vm.api_socket, FIRECRACKER_SOCKET),
            mac_address: or_text(vm.mac, FC_MAC),
            etcd: config.etcd,
            ssh_keys: vm.ssh_keys,
            tailscale: config.tailscale,
        }
    }

    /// The options that a project file stands for on this host, whatever
    /// its processor count turns out to be.
    pub fn from(config: FireConfig) -> (r: VmOptions)
        ensures
            exists|cpus: u16| r@ == options_of(config@, cpus),
    {
        VmOptions::from_config(config, cpu_count())
    }

    /// The distribution that the flags select, if they select one.
    pub fn distro(&self) -> (r: Option<Distro>)
        ensures
            r == selected_distro(self@),
    {
        if flag(self.debian, false) {
            Some(Distro::Debian)
        } else         if flag(self.alpine, false) {
            Some(Distro::Alpine)
        } else         if flag(self.nixos, false) {
            Some(Distro::NixOS)
        } else         if flag(self.fedora, false) {
            Some(Distro::Fedora)
        } else         if flag(self.gentoo, false) {
            Some(Distro::Gentoo)
        } else         if flag(self.slackware, false) {
            Some(Distro::Slackware)
        } else         if flag(self.opensuse, false) {
            Some(Distro::Opensuse)
        } else         if flag(self.opensuse_tumbleweed, false) {
            Some(Distro::OpensuseTumbleweed)
        } else         if flag(self.almalinux, false) {
            Some(Distro::Almalinux)
        } else         if flag(self.rockylinux, false) {
            Some(Distro::RockyLinux)
        } else         if flag(self.archlinux, false) {
            Some(Distro::Archlinux)
        } else if flag(self.ubuntu, true) {
            Some(Distro::Ubuntu)
        } else {
            None
        }
    }

    /// The distribution that the flags select.
    pub fn into(self) -> (r: Distro)
        requires
            selected_distro(self@) is Some,
        ensures
            Some(r) == selected_distro(self@),
    {
        match self.distro() {
            Some(d) => d,
            None => Distro::Ubuntu,
        }
    }
}

} // verus!
