//! What the API takes and gives.

use vstd::prelude::*;
use vstd::string::*;
use crate::config::{TailscaleOptions, TailscaleOptionsView};
use crate::text::same;
use crate::vm::mac::{generate_unique_mac, mac_of};
use crate::config::cpu_count;
use crate::vm::types::{budget_of, resource_budget, VmOptions, VmOptionsView};

verus! {

/// A microVM as the API shows it.
#[derive(Clone, Debug, PartialEq, Eq)]
pub struct MicroVM {
    pub id: String,
    pub name: String,
    pub image: String,
    pub vcpu: u8,
    pub memory: u32,
    pub vmlinux: String,
    pub rootfs: String,
    pub boot_args: String,
    pub status: String,
    pub ssh_keys: Vec<String>,
}

pub struct MicroVMView {
    pub id: Seq<char>,
    pub name: Seq<char>,
    pub image: Seq<char>,
    pub vcpu: u8,
    pub memory: u32,
    pub vmlinux: Seq<char>,
    pub rootfs: Seq<char>,
    pub boot_args: Seq<char>,
    pub status: Seq<char>,
    pub ssh_keys: Seq<Seq<char>>,
}

impl View for MicroVM {
    type V = MicroVMView;

    open spec fn view(&self) -> MicroVMView {
        MicroVMView {
            id: self.id.deep_view(),
            name: self.name.deep_view(),
            image: self.image.deep_view(),
            vcpu: self.vcpu,
            memory: self.memory,
            vmlinux: self.vmlinux.deep_view(),
            rootfs: self.rootfs.deep_view(),
            boot_args: self.boot_args.deep_view(),
            status: self.status.deep_view(),
            ssh_keys: self.ssh_keys.deep_view(),
        }
    }
}

impl DeepView for MicroVM {
    type V = MicroVMView;

    open spec fn deep_view(&self) -> MicroVMView {
        self@
    }
}

impl MicroVM {
    /// A copy, field by field.
    pub fn duplicate(&self) -> (r: MicroVM)
        ensures
            r@ == self@,
    {
        MicroVM {
            id: self.id.clone(),
            name: self.name.clone(),
            image: self.image.clone(),
            vcpu: self.vcpu,
            memory: self.memory,
            vmlinux: self.vmlinux.clone(),
            rootfs: self.rootfs.clone(),
            boot_args: self.boot_args.clone(),
            status: self.status.clone(),
            ssh_keys: self.ssh_keys.clone(),
        }
    }
}

/// What may come with a request to start a microVM.
#[derive(Clone, Debug, PartialEq, Eq)]
pub struct StartMicroVM {
    pub tailscale_auth_key: Option<String>,
}

pub struct StartMicroVMView {
    pub tailscale_auth_key: Option<Seq<char>>,
}

impl View for StartMicroVM {
    type V = StartMicroVMView;

    open spec fn view(&self) -> StartMicroVMView {
        StartMicroVMView {
            tailscale_auth_key: self.tailscale_auth_key.deep_view(),
        }
    }
}

impl DeepView for StartMicroVM {
    type V = StartMicroVMView;

    open spec fn deep_view(&self) -> StartMicroVMView {
        self@
    }
}

impl StartMicroVM {
    /// A copy, field by field.
    pub fn duplicate(&self) -> (r: StartMicroVM)
        ensures
            r@ == self@,
    {
        StartMicroVM {
            tailscale_auth_key: self.tailscale_auth_key.clone(),
        }
    }
}

/// What is asked of a microVM that is created through the API: every
/// member optional.
#[derive(Clone, Debug, PartialEq, Eq)]
pub struct CreateMicroVM {
    pub name: Option<String>,
    pub vcpus: Option<u8>,
    pub memory: Option<u16>,
    pub image: Option<String>,
    pub vmlinux: Option<String>,
    pub rootfs: Option<String>,
    pub boot_args: Option<String>,
    pub ssh_keys: Option<Vec<String>>,
    pub start: Option<bool>,
    pub tailscale_auth_key: Option<String>,
}

pub struct CreateMicroVMView {
    pub name: Option<Seq<char>>,
    pub vcpus: Option<u8>,
    pub memory: Option<u16>,
    pub image: Option<Seq<char>>,
    pub vmlinux: Option<Seq<char>>,
    pub rootfs: Option<Seq<char>>,
    pub boot_args: Option<Seq<char>>,
    pub ssh_keys: Option<Seq<Seq<char>>>,
    pub start: Option<bool>,
    pub tailscale_auth_key: Option<Seq<char>>,
}

impl View for CreateMicroVM {
    type V = CreateMicroVMView;

    open spec fn view(&self) -> CreateMicroVMView {
        CreateMicroVMView {
            name: self.name.deep_view(),
            vcpus: self.vcpus,
            memory: self.memory,
            image: self.image.deep_view(),
            vmlinux: self.vmlinux.deep_view(),
            rootfs: self.rootfs.deep_view(),
            boot_args: self.boot_args.deep_view(),
            ssh_keys: self.ssh_keys.deep_view(),
            start: self.start,
            tailscale_auth_key: self.tailscale_auth_key.deep_view(),
        }
    }
}

impl DeepView for CreateMicroVM {
    type V = CreateMicroVMView;

    open spec fn deep_view(&self) -> CreateMicroVMView {
        self@
    }
}

impl CreateMicroVM {
    /// A copy, field by field.
    pub fn duplicate(&self) -> (r: CreateMicroVM)
        ensures
            r@ == self@,
    {
        CreateMicroVM {
            name: self.name.clone(),
            vcpus: self.vcpus,
            memory: self.memory,
            image: self.image.clone(),
            vmlinux: self.vmlinux.clone(),
            rootfs: self.rootfs.clone(),
            boot_args: self.boot_args.clone(),
            ssh_keys: self.ssh_keys.clone(),
            start: self.start,
            tailscale_auth_key: self.tailscale_auth_key.clone(),
        }
    }
}

/// The flag of a distribution: set where the image asked for is that
/// distribution, absent otherwise.
pub open spec fn chosen(image: Option<Seq<char>>, tag: Seq<char>) -> Option<bool> {
    if image == Some(tag) {
        Some(true)
    } else {
        None
    }
}

/// The processors that a request asks for, as the options count them.
pub open spec fn asked_vcpus(vcpus: Option<u8>) -> Option<u16> {
    match vcpus {
        Some(n) => Some(n as u16),
        None => None,
    }
}

/// The options that a creation request stands for on a host with `cpus`
/// processors, with `mac_address` as the guest's address: the image
/// asked for and no other, every processor of the host and the image's
/// default memory unless it says otherwise, and bridge, tap device and
/// API socket yet to be chosen.
pub open spec fn options_of_request(
    params: CreateMicroVMView,
    mac_address: Seq<char>,
    cpus: u16,
) -> VmOptionsView {
    VmOptionsView {
        debian: chosen(params.image, "debian"@),
        alpine: chosen(params.image, "alpine"@),
        ubuntu: chosen(params.image, "ubuntu"@),
        nixos: chosen(params.image, "nixos"@),
        fedora: chosen(params.image, "fedora"@),
        gentoo: chosen(params.image, "gentoo"@),
        slackware: chosen(params.image, "slackware"@),
        opensuse: chosen(params.image, "opensuse"@),
        opensuse_tumbleweed: chosen(params.image, "opensuse-tumbleweed"@),
        almalinux: chosen(params.image, "almalinux"@),
        rockylinux: chosen(params.image, "rockylinux"@),
        archlinux: chosen(params.image, "archlinux"@),
        vcpu: budget_of(
            asked_vcpus(params.vcpus),
            params.memory,
            params.image == Some("nixos"@),
            cpus,
        ).0,
        memory: budget_of(
            asked_vcpus(params.vcpus),
            params.memory,
            params.image == Some("nixos"@),
            cpus,
        ).1,
        vmlinux: params.vmlinux,
        rootfs: params.rootfs,
        bootargs: params.boot_args,
        bridge: ""@,
        tap: ""@,
        api_socket: ""@,
        mac_address,
        etcd: None,
        ssh_keys: None,
        tailscale: match params.tailscale_auth_key {
            Some(key) => Some(TailscaleOptionsView { auth_key: Some(key) }),
            None => None,
        },
    }
}

fn choose_image(image: &Option<String>, tag: &str) -> (r: Option<bool>)
    ensures
        r == chosen(image.deep_view(), tag@),
{
    match image {
        Some(name) => {
            if same(name.as_str(), tag) {
                Some(true)
            } else {
                None
            }
        },
        None => None,
    }
}

fn tailscale_with(auth_key: Option<String>) -> (r: Option<TailscaleOptions>)
    ensures
        r.deep_view() == match auth_key.deep_view() {
            Some(key) => Some(TailscaleOptionsView { auth_key: Some(key) }),
            None => None,
        },
{
    match auth_key {
        Some(key) => Some(TailscaleOptions { auth_key: Some(key) }),
        None => None,
    }
}

impl CreateMicroVM {
    /// The options that this request stands for on a host with `cpus`
    /// processors, with `mac_address` as the guest's address.
    pub fn into_options(self, mac_address: String, cpus: u16) -> (r: VmOptions)
        ensures
            r@ == options_of_request(self@, mac_address@, cpus),
    {
        let vcpus: Option<u16> = match self.vcpus {
            Some(n) => Some(n as u16),
            None => None,
        };
        let nixos = match &self.image {
            Some(name) => same(name.as_str(), "nixos"),
            None => false,
        };
        let budget = resource_budget(vcpus, self.memory, nixos, cpus);
        VmOptions {
            debian: choose_image(&self.image, "debian"),
            alpine: choose_image(&self.image, "alpine"),
            ubuntu: choose_image(&self.image, "ubuntu"),
            nixos: choose_image(&self.image, "nixos"),
            fedora: choose_image(&self.image, "fedora"),
            gentoo: choose_image(&self.image, "gentoo"),
            slackware: choose_image(&self.image, "slackware"),
            opensuse: choose_image(&self.image, "opensuse"),
            opensuse_tumbleweed: choose_image(&self.image, "opensuse-tumbleweed"),
            almalinux: choose_image(&self.image, "almalinux"),
            rockylinux: choose_image(&self.image, "rockylinux"),
            archlinux: choose_image(&self.image, "archlinux"),
            vcpu: budget.0,
            memory: budget.1,
            vmlinux: self.vmlinux,
            rootfs: self.rootfs,
            bootargs: self.boot_args,
            bridge: String::from_str(""),
            tap: String::from_str(""),
            api_socket: String::from_str(""),
            mac_address,
            etcd: None,
            ssh_keys: None,
            tailscale: tailscale_with(self.tailscale_auth_key),
        }
    }

    /// The options that this request stands for on this host, whatever
    /// its processor count turns out to be, with a newly generated address
    /// that is unicast and locally administered.
    pub fn into(self) -> (r: VmOptions)
        ensures
            exists|raw: Seq<u8>, cpus: u16|
                raw.len() == 6 && r@ == #[trigger] options_of_request(self@, mac_of(raw), cpus),
    {
        let mac = generate_unique_mac();
        self.into_options(mac, cpu_count())
    }
}

} // verus!
