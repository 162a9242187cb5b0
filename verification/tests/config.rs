use fireup::config::{cpu_count, init_config, EtcdConfig, FireConfig, InitConfig, Vm};
use fireup::prepare::Distro;
use fireup::vm::constants::{BRIDGE_DEV, BRIDGE_IP, FC_MAC, FIRECRACKER_SOCKET, MASK_SHORT};
use fireup::vm::types::{default_memory, resource_budget, VmOptions};

fn bare_vm() -> Vm {
    Vm {
        vcpu: None,
        memory: None,
        vmlinux: None,
        rootfs: None,
        boot_args: None,
        bridge: None,
        tap: None,
        api_socket: None,
        mac: None,
        ssh_keys: None,
    }
}

#[test]
fn default_config_is_ubuntu_on_every_processor_with_512_mib() {
    let c = FireConfig::with_cpus(8);
    assert_eq!(c.distro, Distro::Ubuntu);
    assert_eq!(c.vm, Vm { vcpu: Some(8), memory: Some(512), ..bare_vm() });
    assert_eq!(c.etcd, None);
    assert_eq!(c.tailscale, None);
    let here = FireConfig::default();
    assert!(here.vm.vcpu.unwrap() >= 1);
    assert_eq!(here, FireConfig::with_cpus(here.vm.vcpu.unwrap()));
    assert!(cpu_count() >= 1);
}

#[test]
fn init_writes_asks_or_gives_up() {
    assert_eq!(init_config(false, &None), InitConfig::Write);
    assert_eq!(init_config(false, &Some("n".into())), InitConfig::Write);
    assert_eq!(init_config(true, &None), InitConfig::Ask);
    for yes in ["y", "Y", " y\n", "\ty "] {
        assert_eq!(init_config(true, &Some(yes.into())), InitConfig::Write);
    }
    for no in ["", "n", "yes", "yy", "no", "\n"] {
        assert_eq!(init_config(true, &Some(no.into())), InitConfig::Cancel);
    }
}

#[test]
fn options_from_a_bare_config_take_the_defaults() {
    let c = FireConfig { distro: Distro::Alpine, vm: bare_vm(), etcd: None, tailscale: None };
    let o = VmOptions::from_config(c.clone(), 16);
    assert_eq!(o.alpine, Some(true));
    assert_eq!(o.ubuntu, Some(false));
    assert_eq!(o.debian, Some(false));
    assert_eq!(o.distro(), Some(Distro::Alpine));
    assert_eq!(o.vcpu, 16);
    assert_eq!(o.memory, 512);
    assert_eq!(o.bridge, "fcbr0");
    assert_eq!(o.tap, "");
    assert_eq!(o.api_socket, "/tmp/firecracker.sock");
    assert_eq!(o.mac_address, "06:00:AC:10:00:02");
    assert_eq!(o.vmlinux, None);
    assert_eq!(o.ssh_keys, None);
    let here = VmOptions::from(c);
    assert!(here.vcpu >= 1);
    assert_eq!(here.alpine, Some(true));
    assert_eq!((BRIDGE_DEV, BRIDGE_IP, MASK_SHORT), ("fcbr0", "172.16.0.1", "/24"));
    assert_eq!((FC_MAC, FIRECRACKER_SOCKET), ("06:00:AC:10:00:02", "/tmp/firecracker.sock"));
}

#[test]
fn options_from_a_full_config_take_its_values() {
    let c = FireConfig {
        distro: Distro::NixOS,
        vm: Vm {
            vcpu: Some(4),
            memory: Some(2048),
            vmlinux: Some("/path/vmlinux".into()),
            rootfs: Some("/path/rootfs.img".into()),
            boot_args: Some("console=ttyS0".into()),
            bridge: Some("br1".into()),
            tap: Some("tap3".into()),
            api_socket: Some("/tmp/firecracker-x.sock".into()),
            mac: Some("AA:BB:CC:DD:EE:FF".into()),
            ssh_keys: Some(vec!["k".into()]),
        },
        etcd: Some(EtcdConfig { endpoints: None, user: Some("u".into()), password: None, cacert: None, cert: None }),
        tailscale: None,
    };
    let o = VmOptions::from_config(c, 16);
    assert_eq!(o.distro(), Some(Distro::NixOS));
    assert_eq!((o.vcpu, o.memory), (4, 2048));
    assert_eq!(o.vmlinux, Some("/path/vmlinux".to_string()));
    assert_eq!(o.rootfs, Some("/path/rootfs.img".to_string()));
    assert_eq!(o.bootargs, Some("console=ttyS0".to_string()));
    assert_eq!(o.bridge, "br1");
    assert_eq!(o.tap, "tap3");
    assert_eq!(o.api_socket, "/tmp/firecracker-x.sock");
    assert_eq!(o.mac_address, "AA:BB:CC:DD:EE:FF");
    assert_eq!(o.ssh_keys, Some(vec!["k".to_string()]));
    assert_eq!(o.etcd.unwrap().user, Some("u".to_string()));
}

#[test]
fn distribution_flags_are_examined_in_order() {
    let none = VmOptions::default();
    assert_eq!(none.distro(), Some(Distro::Ubuntu));
    assert_eq!(none.clone().into(), Distro::Ubuntu);
    let off = VmOptions { ubuntu: Some(false), ..Default::default() };
    assert_eq!(off.distro(), None);
    let both = VmOptions { debian: Some(true), alpine: Some(true), ubuntu: Some(true), ..Default::default() };
    assert_eq!(both.distro(), Some(Distro::Debian));
    let order = [
        (VmOptions { alpine: Some(true), nixos: Some(true), ..Default::default() }, Distro::Alpine),
        (VmOptions { nixos: Some(true), fedora: Some(true), ..Default::default() }, Distro::NixOS),
        (VmOptions { fedora: Some(true), gentoo: Some(true), ..Default::default() }, Distro::Fedora),
        (VmOptions { gentoo: Some(true), slackware: Some(true), ..Default::default() }, Distro::Gentoo),
        (VmOptions { slackware: Some(true), opensuse: Some(true), ..Default::default() }, Distro::Slackware),
        (VmOptions { opensuse: Some(true), opensuse_tumbleweed: Some(true), ..Default::default() }, Distro::Opensuse),
        (VmOptions { opensuse_tumbleweed: Some(true), almalinux: Some(true), ..Default::default() }, Distro::OpensuseTumbleweed),
        (VmOptions { almalinux: Some(true), rockylinux: Some(true), ..Default::default() }, Distro::Almalinux),
        (VmOptions { rockylinux: Some(true), archlinux: Some(true), ..Default::default() }, Distro::RockyLinux),
        (VmOptions { archlinux: Some(true), ubuntu: Some(true), ..Default::default() }, Distro::Archlinux),
        (VmOptions { debian: Some(false), ubuntu: Some(true), ..Default::default() }, Distro::Ubuntu),
    ];
    for (o, d) in order {
        assert_eq!(o.distro(), Some(d));
        assert_eq!(o.into(), d);
    }
}

#[test]
fn a_guest_that_asks_for_nothing_gets_every_processor_and_its_default_memory() {
    assert_eq!(default_memory(false), 512);
    assert_eq!(default_memory(true), 2048);
    assert_eq!(resource_budget(None, None, false, 8), (8, 512));
    assert_eq!(resource_budget(None, None, true, 8), (8, 2048));
    assert_eq!(resource_budget(Some(2), None, true, 8), (2, 2048));
    assert_eq!(resource_budget(None, Some(1024), true, 8), (8, 1024));
    assert_eq!(resource_budget(Some(3), Some(256), false, 1), (3, 256));
    let nixos = FireConfig { distro: Distro::NixOS, vm: bare_vm(), etcd: None, tailscale: None };
    let o = VmOptions::from_config(nixos, 16);
    assert_eq!((o.vcpu, o.memory), (16, 2048));
    assert_eq!(o.nixos, Some(true));
    let alpine = FireConfig { distro: Distro::Alpine, vm: bare_vm(), etcd: None, tailscale: None };
    let o = VmOptions::from_config(alpine, 16);
    assert_eq!((o.vcpu, o.memory), (16, 512));
}
