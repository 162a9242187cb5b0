//! `start`: a microVM on record is brought up again as it was.

use vstd::prelude::*;
use vstd::string::*;
use crate::config::{EtcdConfig, EtcdConfigView, TailscaleOptions, TailscaleOptionsView};
use crate::error::{about, lifted, Failure, FailureKind, FailureView};
use crate::state::entity::virtual_machine::{VirtualMachine, VirtualMachineView};
use crate::state::repo::virtual_machine::{find, found, Inventory};
use crate::text::{pieces, same, split};
use crate::vm::types::{VmOptions, VmOptionsView};

verus! {

/// The options that bring the microVM of a row up again: its
/// distribution and nothing else selected, and its resources, images,
/// network identity and keys as recorded.
pub open spec fn options_of_row(
    vm: VirtualMachineView,
    etcd: Option<EtcdConfigView>,
    tailscale_auth_key: Option<Seq<char>>,
) -> VmOptionsView {
    VmOptionsView {
        debian: Some(vm.distro == "debian"@),
        alpine: Some(vm.distro == "alpine"@),
        ubuntu: Some(vm.distro == "ubuntu"@),
        nixos: Some(vm.distro == "nixos"@),
        fedora: Some(vm.distro == "fedora"@),
        gentoo: Some(vm.distro == "gentoo"@),
        slackware: Some(vm.distro == "slackware"@),
        opensuse: Some(vm.distro == "opensuse"@),
        opensuse_tumbleweed: Some(vm.distro == "opensuse-tumbleweed"@),
        almalinux: Some(vm.distro == "almalinux"@),
        rockylinux: Some(vm.distro == "rockylinux"@),
        archlinux: Some(vm.distro == "archlinux"@),
        vcpu: vm.vcpu,
        memory: vm.memory,
        vmlinux: vm.vmlinux,
        rootfs: vm.rootfs,
        bootargs: vm.bootargs,
        bridge: vm.bridge,
        tap: vm.tap,
        api_socket: vm.api_socket,
        mac_address: vm.mac_address,
        etcd,
        ssh_keys: match vm.ssh_keys {
            Some(keys) => Some(pieces(keys, ',')),
            None => None,
        },
        tailscale: match tailscale_auth_key {
            Some(key) => Some(TailscaleOptionsView { auth_key: Some(key) }),
            None => None,
        },
    }
}

/// The options that bring the microVM known by `name` up again, or
/// `VmNotFound`.
pub open spec fn restart_of(
    rows: Seq<VirtualMachineView>,
    name: Seq<char>,
    etcd: Option<EtcdConfigView>,
    tailscale_auth_key: Option<Seq<char>>,
) -> Result<VmOptionsView, FailureView> {
    match found(rows, name) {
        None => Err(about(FailureKind::VmNotFound, name)),
        Some(vm) => Ok(options_of_row(vm, etcd, tailscale_auth_key)),
    }
}

fn is_tag(distro: &str, tag: &str) -> (r: Option<bool>)
    ensures
        r == Some(distro@ == tag@),
{
    Some(same(distro, tag))
}

fn recorded_keys(ssh_keys: &Option<String>) -> (r: Option<Vec<String>>)
    ensures
        r.deep_view() == match ssh_keys.deep_view() {
            Some(keys) => Some(pieces(keys, ',')),
            None => None,
        },
{
    match ssh_keys {
        Some(keys) => Some(split(keys.as_str(), ',')),
        None => None,
    }
}

fn tailscale_with(auth_key: Option<String>) -> (r: Option<TailscaleOptions>)
    ensures
        r.deep_view() == match auth_key.deep_view() {
            Some(key) => Some(TailscaleOptionsView { auth_key: Some(key) }),
            None => None,
        },
{
    match auth_key {
        Some(key) => Some(TailscaleOptions { auth_key: Some(key) }),
        None => None,
    }
}

/// The options that bring the microVM of a row up again.
pub fn rehydrate(
    vm: VirtualMachine,
    etcd: Option<EtcdConfig>,
    tailscale_auth_key: Option<String>,
) -> (r: VmOptions)
    ensures
        r@ == options_of_row(vm@, etcd.deep_view(), tailscale_auth_key.deep_view()),
{
    VmOptions {
        debian: is_tag(vm.distro.as_str(), "debian"),
        alpine: is_tag(vm.distro.as_str(), "alpine"),
        ubuntu: is_tag(vm.distro.as_str(), "ubuntu"),
        nixos: is_tag(vm.distro.as_str(), "nixos"),
        fedora: is_tag(vm.distro.as_str(), "fedora"),
        gentoo: is_tag(vm.distro.as_str(), "gentoo"),
        slackware: is_tag(vm.distro.as_str(), "slackware"),
        opensuse: is_tag(vm.distro.as_str(), "opensuse"),
        opensuse_tumbleweed: is_tag(vm.distro.as_str(), "opensuse-tumbleweed"),
        almalinux: is_tag(vm.distro.as_str(), "almalinux"),
        rockylinux: is_tag(vm.distro.as_str(), "rockylinux"),
        archlinux: is_tag(vm.distro.as_str(), "archlinux"),
        vcpu: vm.vcpu,
        memory: vm.memory,
        vmlinux: vm.vmlinux,
        rootfs: vm.rootfs,
        bootargs: vm.bootargs,
        bridge: vm.bridge,
        tap: vm.tap,
        api_socket: vm.api_socket,
        mac_address: vm.mac_address,
        etcd,
        ssh_keys: recorded_keys(&vm.ssh_keys),
        tailscale: tailscale_with(tailscale_auth_key),
    }
}

/// The options with which `up` brings the microVM known by `name` up
/// again.
pub fn start(
    inventory: &Inventory,
    name: &str,
    etcd: Option<EtcdConfig>,
    tailscale_auth_key: Option<String>,
) -> (r: Result<VmOptions, Failure>)
    ensures
        lifted(r) == restart_of(
            inventory@,
            name@,
            etcd.deep_view(),
            tailscale_auth_key.deep_view(),
        ),
{
    match find(inventory, name) {
        None => Err(Failure::about(FailureKind::VmNotFound, name)),
        Some(vm) => Ok(rehydrate(vm, etcd, tailscale_auth_key)),
    }
}

} // verus!
