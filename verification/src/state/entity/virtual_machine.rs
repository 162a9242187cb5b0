use vstd::prelude::*;
use vstd::string::*;

verus! {

/// A microVM as the inventory records it.
#[derive(Clone, Debug, PartialEq, Eq)]
pub struct VirtualMachine {
    /// Assigned when the row is first inserted; never changes.
    pub id: String,
    /// Unique and readable.
    pub name: String,
    /// `RUNNING`, `STOPPED` or `DELETED`.
    pub status: String,
    pub vcpu: u16,
    /// MiB.
    pub memory: u16,
    /// The distribution's tag.
    pub distro: String,
    /// The hypervisor's process on the host.
    pub pid: Option<u32>,
    pub mac_address: String,
    pub bridge: String,
    pub tap: String,
    pub api_socket: String,
    /// The directory whose project file declares this microVM.
    pub project_dir: Option<String>,
    /// The guest's address, once it has a lease.
    pub ip_address: Option<String>,
    pub vmlinux: Option<String>,
    pub rootfs: Option<String>,
    pub bootargs: Option<String>,
    /// The supplied public keys, comma-joined.
    pub ssh_keys: Option<String>,
    /// Seconds since the epoch.
    pub created_at: i64,
    /// Seconds since the epoch.
    pub updated_at: i64,
}

pub struct VirtualMachineView {
    pub id: Seq<char>,
    pub name: Seq<char>,
    pub status: Seq<char>,
    pub vcpu: u16,
    pub memory: u16,
    pub distro: Seq<char>,
    pub pid: Option<u32>,
    pub mac_address: Seq<char>,
    pub bridge: Seq<char>,
    pub tap: Seq<char>,
    pub api_socket: Seq<char>,
    pub project_dir: Option<Seq<char>>,
    pub ip_address: Option<Seq<char>>,
    pub vmlinux: Option<Seq<char>>,
    pub rootfs: Option<Seq<char>>,
    pub bootargs: Option<Seq<char>>,
    pub ssh_keys: Option<Seq<char>>,
    pub created_at: i64,
    pub updated_at: i64,
}

impl View for VirtualMachine {
    type V = VirtualMachineView;

    open spec fn view(&self) -> VirtualMachineView {
        VirtualMachineView {
            id: self.id.deep_view(),
            name: self.name.deep_view(),
            status: self.status.deep_view(),
            vcpu: self.vcpu,
            memory: self.memory,
            distro: self.distro.deep_view(),
            pid: self.pid,
            mac_address: self.mac_address.deep_view(),
            bridge: self.bridge.deep_view(),
            tap: self.tap.deep_view(),
            api_socket: self.api_socket.deep_view(),
            project_dir: self.project_dir.deep_view(),
            ip_address: self.ip_address.deep_view(),
            vmlinux: self.vmlinux.deep_view(),
            rootfs: self.rootfs.deep_view(),
            bootargs: self.bootargs.deep_view(),
            ssh_keys: self.ssh_keys.deep_view(),
            created_at: self.created_at,
            updated_at: self.updated_at,
        }
    }
}

impl DeepView for VirtualMachine {
    type V = VirtualMachineView;

    open spec fn deep_view(&self) -> VirtualMachineView {
        self@
    }
}

impl VirtualMachine {
    /// A copy, field by field.
    pub fn duplicate(&self) -> (r: VirtualMachine)
        ensures
            r@ == self@,
    {
        VirtualMachine {
            id: self.id.clone(),
            name: self.name.clone(),
            status: self.status.clone(),
            vcpu: self.vcpu,
            memory: self.memory,
            distro: self.distro.clone(),
            pid: self.pid,
            mac_address: self.mac_address.clone(),
            bridge: self.bridge.clone(),
            tap: self.tap.clone(),
            api_socket: self.api_socket.clone(),
            project_dir: self.project_dir.clone(),
            ip_address: self.ip_address.clone(),
            vmlinux: self.vmlinux.clone(),
            rootfs: self.rootfs.clone(),
            bootargs: self.bootargs.clone(),
            ssh_keys: self.ssh_keys.clone(),
            created_at: self.created_at,
            updated_at: self.updated_at,
        }
    }
}

/// A row with nothing filled in.
pub open spec fn blank() -> VirtualMachineView {
    VirtualMachineView {
        id: Seq::empty(),
        name: Seq::empty(),
        status: Seq::empty(),
        vcpu: 0,
        memory: 0,
        distro: Seq::empty(),
        pid: None,
        mac_address: Seq::empty(),
        bridge: Seq::empty(),
        tap: Seq::empty(),
        api_socket: Seq::empty(),
        project_dir: None,
        ip_address: None,
        vmlinux: None,
        rootfs: None,
        bootargs: None,
        ssh_keys: None,
        created_at: 0,
        updated_at: 0,
    }
}

impl Default for VirtualMachine {
    fn default() -> (r: VirtualMachine)
        ensures
            r@ == blank(),
    {
        VirtualMachine {
            id: String::new(),
            name: String::new(),
            status: String::new(),
            vcpu: 0,
            memory: 0,
            distro: String::new(),
            pid: None,
            mac_address: String::new(),
            bridge: String::new(),
            tap: String::new(),
            api_socket: String::new(),
            project_dir: None,
            ip_address: None,
            vmlinux: None,
            rootfs: None,
            bootargs: None,
            ssh_keys: None,
            created_at: 0,
            updated_at: 0,
        }
    }
}

} // verus!
