//! What the API does for each request, before anything is done on the
//! host.

use vstd::prelude::*;
use vstd::string::*;
use crate::error::{about, lifted, Failure, FailureKind, FailureView};
use crate::process::stop_one_script;
use crate::script::{always, push_block, steps1, Block, BlockView, Step, StepView};
use crate::server::types::microvm::{options_of_request, CreateMicroVM, CreateMicroVMView};
use crate::state::entity::virtual_machine::{VirtualMachine, VirtualMachineView};
use crate::state::repo::virtual_machine::{all, find, found, Inventory};
use crate::text::{join3, pieces, split};
use crate::up::cmd::start::{options_of_row, rehydrate};
use crate::up::cmd::up::{resolve_tap, resolved_tap, Identity, IdentityView};
use crate::vm::constants::BRIDGE_DEV;
use crate::vm::mac::{generate_unique_mac, mac_of};
use crate::vm::types::{vcpu_refusal, VmOptions, VmOptionsView};

verus! {

/// The options with which a microVM is started: a tap device in place
/// of none, the keys on record in place of none (for a microVM that is
/// taken up again), and `TapInUse` where the tap device belongs to
/// another microVM.
pub open spec fn start_of(
    rows: Seq<VirtualMachineView>,
    options: VmOptionsView,
    vm_id: Option<Seq<char>>,
) -> Result<IdentityView, FailureView> {
    match resolved_tap(rows, options.tap, options.api_socket) {
        Err(e) => Err(e),
        Ok(tap) => Ok(
            IdentityView {
                options: VmOptionsView {
                    tap,
                    ssh_keys: match options.ssh_keys {
                        Some(keys) => Some(keys),
                        None => match vm_id {
                            Some(id) => match found(rows, id) {
                                Some(vm) => match vm.ssh_keys {
                                    Some(keys) => Some(pieces(keys, ',')),
                                    None => None,
                                },
                                None => None,
                            },
                            None => None,
                        },
                    },
                    ..options
                },
                vm_id,
            },
        ),
    }
}

/// The name that a microVM is created under: the one asked for, or
/// `generated` where none, or an empty one, is asked for.
pub open spec fn creation_name(params: CreateMicroVMView, generated: Seq<char>) -> Seq<char> {
    match params.name {
        Some(name) => if name.len() == 0 {
            generated
        } else {
            name
        },
        None => generated,
    }
}

/// A creation request as options: its API socket named after the name
/// asked for, or after `generated` where none is, on the default bridge,
/// with the keys asked for.  A request for no processor, or for more
/// than the host has, is refused with `ConfigInvalid`.
pub open spec fn creation_of(
    rows: Seq<VirtualMachineView>,
    params: CreateMicroVMView,
    mac_address: Seq<char>,
    generated: Seq<char>,
    cpus: u16,
) -> Result<IdentityView, FailureView> {
    match vcpu_refusal(options_of_request(params, mac_address, cpus).vcpu, cpus) {
        Some(e) => Err(e),
        None => start_of(
            rows,
            VmOptionsView {
                api_socket: "/tmp/firecracker-"@ + creation_name(params, generated) + ".sock"@,
                bridge: BRIDGE_DEV@,
                ssh_keys: params.ssh_keys,
                ..options_of_request(params, mac_address, cpus)
            },
            None,
        ),
    }
}

/// The options with which the microVM known by `id` is started again, or
/// `VmNotFound`.
pub open spec fn restart_of(rows: Seq<VirtualMachineView>, id: Seq<char>) -> Result<
    IdentityView,
    FailureView,
> {
    match found(rows, id) {
        None => Err(about(FailureKind::VmNotFound, id)),
        Some(vm) => start_of(rows, options_of_row(vm, None, None), Some(vm.id)),
    }
}

fn recorded_keys(inventory: &Inventory, vm_id: &Option<String>) -> (r: Option<Vec<String>>)
    ensures
        r.deep_view() == match vm_id.deep_view() {
            Some(id) => match found(inventory@, id) {
                Some(vm) => match vm.ssh_keys {
                    Some(keys) => Some(pieces(keys, ',')),
                    None => None,
                },
                None => None,
            },
            None => None,
        },
{
    match vm_id {
        Some(id) => match find(inventory, id.as_str()) {
            Some(vm) => match vm.ssh_keys {
                Some(keys) => Some(split(keys.as_str(), ',')),
                None => None,
            },
            None => None,
        },
        None => None,
    }
}

fn start(inventory: &Inventory, options: VmOptions, vm_id: Option<String>) -> (r: Result<
    Identity,
    Failure,
>)
    ensures
        lifted(r) == start_of(inventory@, options@, vm_id.deep_view()),
{
    let vms = all(inventory);
    let mut options = options;
    match resolve_tap(&vms, options.tap.as_str(), options.api_socket.as_str()) {
        Err(e) => Err(e),
        Ok(tap) => {
            options.tap = tap;
            if options.ssh_keys.is_none() {
                options.ssh_keys = recorded_keys(inventory, &vm_id);
            }
            Ok(Identity { options, vm_id })
        },
    }
}

/// Settles the options of a microVM that is created on a host with
/// `cpus` processors, with the address given, and the name given where
/// the request asks for none.
pub fn create_microvm_as(
    inventory: &Inventory,
    params: CreateMicroVM,
    mac_address: String,
    generated: &str,
    cpus: u16,
) -> (r: Result<Identity, Failure>)
    ensures
        lifted(r) == creation_of(inventory@, params@, mac_address@, generated@, cpus),
{
    let api_socket = match &params.name {
        Some(name) => if name.as_str().unicode_len() == 0 {
            join3("/tmp/firecracker-", generated, ".sock")
        } else {
            join3("/tmp/firecracker-", name.as_str(), ".sock")
        },
        None => join3("/tmp/firecracker-", generated, ".sock"),
    };
    let ssh_keys = params.ssh_keys.clone();
    let mut options = params.into_options(mac_address, cpus);
    match crate::vm::types::check_vcpu(options.vcpu, cpus) {
        Err(e) => {
            return Err(e);
        },
        Ok(()) => {},
    }
    options.api_socket = api_socket;
    options.bridge = String::from_str(BRIDGE_DEV);
    options.ssh_keys = ssh_keys;
    start(inventory, options, None)
}

/// Settles the options of a microVM that is created, under a newly
/// generated address and, where the request asks for no name, a newly
/// generated name.
pub fn create_microvm(inventory: &Inventory, params: CreateMicroVM) -> (r: Result<
    Identity,
    Failure,
>)
    ensures
        exists|raw: Seq<u8>, name: Seq<char>, cpus: u16|
            raw.len() == 6 && lifted(r) == #[trigger] creation_of(
                inventory@,
                params@,
                mac_of(raw),
                name,
                cpus,
            ),
{
    let mac = generate_unique_mac();
    let name = crate::vm::fresh_name();
    create_microvm_as(inventory, params, mac, name.as_str(), crate::config::cpu_count())
}

/// Settles the options with which the microVM known by `id` is started
/// again.
pub fn start_microvm(inventory: &Inventory, id: &str) -> (r: Result<Identity, Failure>)
    ensures
        lifted(r) == restart_of(inventory@, id@),
{
    match find(inventory, id) {
        None => Err(Failure::about(FailureKind::VmNotFound, id)),
        Some(vm) => {
            let vm_id = vm.id.clone();
            start(inventory, rehydrate(vm, None, None), Some(vm_id))
        },
    }
}

/// What becomes of a microVM, and what is to be done about it.
#[derive(Clone, Debug, PartialEq, Eq)]
pub struct Disposal {
    /// The microVM as it is reported.
    pub vm: VirtualMachine,
    /// What is to be done on the host and in the inventory.
    pub script: Vec<Block>,
}

pub struct DisposalView {
    pub vm: VirtualMachineView,
    pub script: Seq<BlockView>,
}

impl View for Disposal {
    type V = DisposalView;

    open spec fn view(&self) -> DisposalView {
        DisposalView { vm: self.vm@, script: self.script.deep_view() }
    }
}

impl DeepView for Disposal {
    type V = DisposalView;

    open spec fn deep_view(&self) -> DisposalView {
        self@
    }
}

/// The microVM known by `id` is stopped and struck from the record; it
/// is reported as deleted.  An unknown microVM is reported as such.
pub open spec fn deletion_of(rows: Seq<VirtualMachineView>, id: Seq<char>) -> Option<DisposalView> {
    match found(rows, id) {
        None => None,
        Some(vm) => Some(
            DisposalView {
                vm: VirtualMachineView { status: "DELETED"@, ..vm },
                script: stop_one_script(vm.name, Some(vm)) + seq![
                    always(seq![StepView::DeleteVm { name: id }]),
                ],
            },
        ),
    }
}

/// The microVM known by `id` is stopped and recorded as stopped; it is
/// reported as stopped.  An unknown microVM is reported as such.
pub open spec fn stopping_of(rows: Seq<VirtualMachineView>, id: Seq<char>) -> Option<DisposalView> {
    match found(rows, id) {
        None => None,
        Some(vm) => Some(
            DisposalView {
                vm: VirtualMachineView { status: "STOPPED"@, ..vm },
                script: stop_one_script(vm.name, Some(vm)) + seq![
                    always(seq![StepView::UpdateStatus { name: id, status: "STOPPED"@ }]),
                ],
            },
        ),
    }
}

pub fn delete_microvm(inventory: &Inventory, id: &str) -> (r: Option<Disposal>)
    ensures
        r.deep_view() == deletion_of(inventory@, id@),
{
    match find(inventory, id) {
        None => None,
        Some(vm) => {
            let mut reported = vm.duplicate();
            reported.status = String::from_str("DELETED");
            let known = vm.name.clone();
            let mut script = crate::process::stop(&Some(known), &Some(vm));
            let ghost stopped = script.deep_view();
            let block = Block::always(steps1(Step::DeleteVm { name: String::from_str(id) }));
            push_block(&mut script, block);
            assert(script.deep_view() =~= stopped + seq![block@]);
            Some(Disposal { vm: reported, script })
        },
    }
}

pub fn stop_microvm(inventory: &Inventory, id: &str) -> (r: Option<Disposal>)
    ensures
        r.deep_view() == stopping_of(inventory@, id@),
{
    match find(inventory, id) {
        None => None,
        Some(vm) => {
            let mut reported = vm.duplicate();
            reported.status = String::from_str("STOPPED");
            let known = vm.name.clone();
            let mut script = crate::process::stop(&Some(known), &Some(vm));
            let ghost stopped = script.deep_view();
            let block = Block::always(
                steps1(
                    Step::UpdateStatus {
                        name: String::from_str(id),
                        status: String::from_str("STOPPED"),
                    },
                ),
            );
            push_block(&mut script, block);
            assert(script.deep_view() =~= stopped + seq![block@]);
            Some(Disposal { vm: reported, script })
        },
    }
}

} // verus!
