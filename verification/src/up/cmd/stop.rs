//! `stop`, `down`, `rm`, `status`: the end of a microVM's run.

use vstd::prelude::*;
use vstd::string::*;
use crate::error::{about, lifted, Failure, FailureKind, FailureView};
use crate::process::{
    any_running, is_running, reconcile_script, running_probe, stop_all_script, stop_one_script,
    vm_is_running, RunningCheck,
};
use crate::script::{always, push_block, steps1, Block, BlockView, Step, StepView};
use crate::state::entity::virtual_machine::{VirtualMachineView};
use crate::state::repo::virtual_machine::{find, found, Inventory};

verus! {

/// Stops the microVM known by `name`.
pub fn stop(inventory: &Inventory, name: &str) -> (r: Vec<Block>)
    ensures
        r.deep_view() == stop_one_script(name@, found(inventory@, name@)),
{
    let vm = find(inventory, name);
    crate::process::stop(&Some(String::from_str(name)), &vm)
}

/// Stops every hypervisor.
pub fn down() -> (r: Vec<Block>)
    ensures
        r.deep_view() == stop_all_script(),
{
    crate::process::stop_all()
}

/// Stops the microVM known by `name` and strikes it from the record, or
/// fails with `VmNotFound`.
pub open spec fn removal_of(rows: Seq<VirtualMachineView>, name: Seq<char>) -> Result<
    Seq<BlockView>,
    FailureView,
> {
    match found(rows, name) {
        None => Err(about(FailureKind::VmNotFound, name)),
        Some(vm) => Ok(
            stop_one_script(vm.name, Some(vm)) + seq![
                always(seq![StepView::DeleteVm { name: vm.id }]),
            ],
        ),
    }
}

/// Removes the microVM known by `name`.
pub fn remove(inventory: &Inventory, name: &str) -> (r: Result<Vec<Block>, Failure>)
    ensures
        lifted(r) == removal_of(inventory@, name@),
{
    match find(inventory, name) {
        None => Err(Failure::about(FailureKind::VmNotFound, name)),
        Some(vm) => {
            let id = vm.id.clone();
            let known = vm.name.clone();
            let mut script = crate::process::stop(&Some(known), &Some(vm));
            let ghost stopped = script.deep_view();
            let block = Block::always(steps1(Step::DeleteVm { name: id }));
            push_block(&mut script, block);
            assert(script.deep_view() =~= stopped + seq![block@]);
            Ok(script)
        },
    }
}

/// How to tell whether the microVM known by `name` runs, or, where no
/// name is given, whether any hypervisor does.
pub fn status(inventory: &Inventory, name: &Option<String>) -> (r: RunningCheck)
    ensures
        match name.deep_view() {
            Some(n) => r.probe.deep_view() == running_probe(found(inventory@, n))
                && r.reconcile.deep_view() == reconcile_script(n, found(inventory@, n)),
            None => r.probe.deep_view() == Some(any_running()) && r.reconcile.deep_view()
                == Seq::<BlockView>::empty(),
        },
{
    match name {
        Some(n) => {
            let vm = find(inventory, n.as_str());
            vm_is_running(n.as_str(), &vm)
        },
        None => RunningCheck { probe: Some(is_running()), reconcile: crate::script::script0() },
    }
}

} // verus!
