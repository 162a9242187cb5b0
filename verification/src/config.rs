//! The declarative project file `fire.toml`: which distribution to run and
//! with what resources.

use vstd::prelude::*;
use vstd::string::*;
use crate::outside::host_cpus;
use crate::prepare::Distro;
use crate::text::{same, trim, trimmed};

verus! {

/// The `[vm]` table of a project file: every member optional.
#[derive(Clone, Debug, PartialEq, Eq)]
pub struct Vm {
    pub vcpu: Option<u16>,
    pub memory: Option<u16>,
    pub vmlinux: Option<String>,
    pub rootfs: Option<String>,
    pub boot_args: Option<String>,
    pub bridge: Option<String>,
    pub tap: Option<String>,
    pub api_socket: Option<String>,
    pub mac: Option<String>,
    pub ssh_keys: Option<Vec<String>>,
}

pub struct VmView {
    pub vcpu: Option<u16>,
    pub memory: Option<u16>,
    pub vmlinux: Option<Seq<char>>,
    pub rootfs: Option<Seq<char>>,
    pub boot_args: Option<Seq<char>>,
    pub bridge: Option<Seq<char>>,
    pub tap: Option<Seq<char>>,
    pub api_socket: Option<Seq<char>>,
    pub mac: Option<Seq<char>>,
    pub ssh_keys: Option<Seq<Seq<char>>>,
}

impl View for Vm {
    type V = VmView;

    open spec fn view(&self) -> VmView {
        VmView {
            vcpu: self.vcpu,
            memory: self.memory,
            vmlinux: self.vmlinux.deep_view(),
            rootfs: self.rootfs.deep_view(),
            boot_args: self.boot_args.deep_view(),
            bridge: self.bridge.deep_view(),
            tap: self.tap.deep_view(),
            api_socket: self.api_socket.deep_view(),
            mac: self.mac.deep_view(),
            ssh_keys: self.ssh_keys.deep_view(),
        }
    }
}

impl DeepView for Vm {
    type V = VmView;

    open spec fn deep_view(&self) -> VmView {
        self@
    }
}

impl Vm {
    /// A copy, field by field.
    pub fn duplicate(&self) -> (r: Vm)
        ensures
            r@ == self@,
    {
        Vm {
            vcpu: self.vcpu,
            memory: self.memory,
            vmlinux: self.vmlinux.clone(),
            rootfs: self.rootfs.clone(),
            boot_args: self.boot_args.clone(),
            bridge: self.bridge.clone(),
            tap: self.tap.clone(),
            api_socket: self.api_socket.clone(),
            mac: self.mac.clone(),
            ssh_keys: self.ssh_keys.clone(),
        }
    }
}

/// How to reach the etcd that backs the guests' DNS zone.
#[derive(Clone, Debug, PartialEq, Eq)]
pub struct EtcdConfig {
    pub endpoints: Option<Vec<String>>,
    pub user: Option<String>,
    pub password: Option<String>,
    pub cacert: Option<String>,
    pub cert: Option<String>,
}

pub struct EtcdConfigView {
    pub endpoints: Option<Seq<Seq<char>>>,
    pub user: Option<Seq<char>>,
    pub password: Option<Seq<char>>,
    pub cacert: Option<Seq<char>>,
    pub cert: Option<Seq<char>>,
}

impl View for EtcdConfig {
    type V = EtcdConfigView;

    open spec fn view(&self) -> EtcdConfigView {
        EtcdConfigView {
            endpoints: self.endpoints.deep_view(),
            user: self.user.deep_view(),
            password: self.password.deep_view(),
            cacert: self.cacert.deep_view(),
            cert: self.cert.deep_view(),
        }
    }
}

impl DeepView for EtcdConfig {
    type V = EtcdConfigView;

    open spec fn deep_view(&self) -> EtcdConfigView {
        self@
    }
}

impl EtcdConfig {
    /// A copy, field by field.
    pub fn duplicate(&self) -> (r: EtcdConfig)
        ensures
            r@ == self@,
    {
        EtcdConfig {
            endpoints: self.endpoints.clone(),
            user: self.user.clone(),
            password: self.password.clone(),
            cacert: self.cacert.clone(),
            cert: self.cert.clone(),
        }
    }
}

/// Joining a guest to a tailnet.
#[derive(Clone, Debug, PartialEq, Eq)]
pub struct TailscaleOptions {
    pub auth_key: Option<String>,
}

pub struct TailscaleOptionsView {
    pub auth_key: Option<Seq<char>>,
}

impl View for TailscaleOptions {
    type V = TailscaleOptionsView;

    open spec fn view(&self) -> TailscaleOptionsView {
        TailscaleOptionsView {
            auth_key: self.auth_key.deep_view(),
        }
    }
}

impl DeepView for TailscaleOptions {
    type V = TailscaleOptionsView;

    open spec fn deep_view(&self) -> TailscaleOptionsView {
        self@
    }
}

impl TailscaleOptions {
    /// A copy, field by field.
    pub fn duplicate(&self) -> (r: TailscaleOptions)
        ensures
            r@ == self@,
    {
        TailscaleOptions {
            auth_key: self.auth_key.clone(),
        }
    }
}

/// A project file.
#[derive(Clone, Debug, PartialEq, Eq)]
pub struct FireConfig {
    pub distro: Distro,
    pub vm: Vm,
    pub etcd: Option<EtcdConfig>,
    pub tailscale: Option<TailscaleOptions>,
}

pub struct FireConfigView {
    pub distro: Distro,
    pub vm: VmView,
    pub etcd: Option<EtcdConfigView>,
    pub tailscale: Option<TailscaleOptionsView>,
}

impl View for FireConfig {
    type V = FireConfigView;

    open spec fn view(&self) -> FireConfigView {
        FireConfigView {
            distro: self.distro,
            vm: self.vm@,
            etcd: self.etcd.deep_view(),
            tailscale: self.tailscale.deep_view(),
        }
    }
}

impl DeepView for FireConfig {
    type V = FireConfigView;

    open spec fn deep_view(&self) -> FireConfigView {
        self@
    }
}

/// The project file that `init` writes on a host with `cpus` processors:
/// Ubuntu on every processor with 512 MiB, everything else left open.
pub open spec fn default_config(cpus: u16) -> FireConfigView {
    FireConfigView {
        distro: Distro::Ubuntu,
        vm: VmView {
            vcpu: Some(cpus),
            memory: Some(512u16),
            vmlinux: None,
            rootfs: None,
            boot_args: None,
            bridge: None,
            tap: None,
            api_socket: None,
            mac: None,
            ssh_keys: None,
        },
        etcd: None,
        tailscale: None,
    }
}

/// A processor count as a `u16`: its low sixteen bits.
pub open spec fn low_bits(n: usize) -> u16 {
    (n % 0x1_0000) as u16
}

/// The host's processor count as a `u16`, whatever it turns out to be.
pub fn cpu_count() -> (n: u16)
    ensures
        exists|cpus: usize| cpus >= 1 && n == low_bits(cpus),
{
    let cpus = host_cpus();
    let n = (cpus % 0x1_0000) as u16;
    assert(n == low_bits(cpus));
    n
}

impl FireConfig {
    /// The default project file for a host with `cpus` processors.
    pub fn with_cpus(cpus: u16) -> (r: FireConfig)
        ensures
            r@ == default_config(cpus),
    {
        FireConfig {
            distro: Distro::Ubuntu,
            vm: Vm {
                vcpu: Some(cpus),
                memory: Some(512),
                vmlinux: None,
                rootfs: None,
                boot_args: None,
                bridge: None,
                tap: None,
                api_socket: None,
                mac: None,
                ssh_keys: None,
            },
            etcd: None,
            tailscale: None,
        }
    }
}

impl Default for FireConfig {
    /// The default project file for this host, whatever its processor
    /// count turns out to be.
    fn default() -> (r: FireConfig)
        ensures
            r@.vm.vcpu is Some,
            r@ == default_config(r@.vm.vcpu->0),
    {
        FireConfig::with_cpus(cpu_count())
    }
}

/// What `init` does about the project file.
#[derive(Clone, Copy, Debug, PartialEq, Eq, Structural)]
pub enum InitConfig {
    /// Write the default project file.
    Write,
    /// Ask whether the existing file may be overwritten.
    Ask,
    /// Leave the existing file alone and give up.
    Cancel,
}

/// An answer that allows overwriting: `y` or `Y`, white space aside.
pub open spec fn agrees(answer: Seq<char>) -> bool {
    trimmed(answer) == "y"@ || trimmed(answer) == "Y"@
}

/// What to do about the project file: write it where there is none; ask
/// where there is one and nothing was answered yet; write it over on
/// agreement and give up otherwise.
pub open spec fn init_decision(exists: bool, answer: Option<Seq<char>>) -> InitConfig {
    if !exists {
        InitConfig::Write
    } else {
        match answer {
            None => InitConfig::Ask,
            Some(a) => if agrees(a) {
                InitConfig::Write
            } else {
                InitConfig::Cancel
            },
        }
    }
}

/// Decides what `init` does, given whether `fire.toml` exists and what
/// the operator answered, if asked.
pub fn init_config(exists: bool, answer: &Option<String>) -> (r: InitConfig)
    ensures
        r == init_decision(exists, answer.deep_view()),
{
    if !exists {
        return InitConfig::Write;
    }
    match answer {
        None => InitConfig::Ask,
        Some(a) => {
            let t = trim(a.as_str());
            if same(t.as_str(), "y") || same(t.as_str(), "Y") {
                InitConfig::Write
            } else {
                InitConfig::Cancel
            }
        },
    }
}

} // verus!
