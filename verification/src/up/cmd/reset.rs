//! `reset`: a microVM, or all of them, loses its packed image, so that
//! the next `up` packs it again.

use vstd::prelude::*;
use vstd::string::*;
use crate::argv::argv1;
use crate::command::{stream, HostCommand};
use crate::error::{about, lifted, Failure, FailureKind, FailureView};
use crate::process::{name_of_socket, stop_all, stop_all_script, stop_one_script};
use crate::script::{
    always, push_block, push_step, run, script0, steps0, steps1, Block, BlockView, Step, StepView,
};
use crate::state::entity::virtual_machine::{VirtualMachineView};
use crate::state::repo::virtual_machine::{find_by_api_socket, found_by_api_socket, Inventory};
use crate::text::{same, trim, trimmed};
use crate::vm::types::{VmOptions, VmOptionsView};

verus! {

/// What `reset` asks before it does anything.
#[derive(Clone, Copy, Debug, PartialEq, Eq, Structural)]
pub enum ResetScope {
    /// Every packed image in the state directory.
    Everything,
    /// The packed image of one microVM.
    OneVm,
}

/// What a reset extends to: one microVM where a socket is named,
/// everything else.
pub open spec fn scope_of(options: VmOptionsView) -> ResetScope {
    if options.api_socket.len() == 0 {
        ResetScope::Everything
    } else {
        ResetScope::OneVm
    }
}

/// The answer that confirms a reset: `yes`, white space aside.
pub open spec fn confirms(answer: Seq<char>) -> bool {
    trimmed(answer) == "yes"@
}

/// The first `n` files removed, one command each.
pub open spec fn removals_upto(files: Seq<Seq<char>>, n: int) -> Seq<StepView>
    decreases n,
{
    if n <= 0 {
        Seq::empty()
    } else {
        removals_upto(files, n - 1).push(run(stream("rm"@, seq![files[n - 1]], false)))
    }
}

/// A reset that was confirmed by `answer`; nothing is done without
/// confirmation.  Without a socket, every hypervisor is stopped and every
/// file of `images` removed.  With one, the microVM on record for it is
/// stopped and its root filesystem image removed, if it has one; no such
/// microVM fails with `VmNotFound`.
pub open spec fn reset_of(
    options: VmOptionsView,
    answer: Seq<char>,
    rows: Seq<VirtualMachineView>,
    images: Seq<Seq<char>>,
) -> Result<Seq<BlockView>, FailureView> {
    if !confirms(answer) {
        Ok(Seq::empty())
    } else if options.api_socket.len() == 0 {
        Ok(stop_all_script() + seq![always(removals_upto(images, images.len() as int))])
    } else {
        match found_by_api_socket(rows, options.api_socket) {
            None => Err(about(FailureKind::VmNotFound, name_of_socket(options.api_socket))),
            Some(vm) => Ok(
                stop_one_script(vm.name, Some(vm)) + seq![
                    always(
                        match vm.rootfs {
                            Some(rootfs) => seq![run(stream("rm"@, seq![rootfs], false))],
                            None => Seq::empty(),
                        },
                    ),
                ],
            ),
        }
    }
}

/// What a reset with these options extends to.
pub fn reset_scope(options: &VmOptions) -> (r: ResetScope)
    ensures
        r == scope_of(options@),
{
    if options.api_socket.as_str().unicode_len() == 0 {
        ResetScope::Everything
    } else {
        ResetScope::OneVm
    }
}

/// Resets what the options name, given the operator's answer and the
/// packed images found in the state directory.
pub fn reset(options: &VmOptions, answer: &str, inventory: &Inventory, images: &Vec<String>) -> (r:
    Result<Vec<Block>, Failure>)
    ensures
        lifted(r) == reset_of(options@, answer@, inventory@, images.deep_view()),
{
    if !same(trim(answer).as_str(), "yes") {
        return Ok(script0());
    }
    if options.api_socket.as_str().unicode_len() == 0 {
        let mut script = stop_all();
        let mut steps = steps0();
        let mut i: usize = 0;
        while i < images.len()
            invariant
                i <= images.len(),
                steps.deep_view() == removals_upto(images.deep_view(), i as int),
            decreases images.len() - i,
        {
            assert(images.deep_view()[i as int] == images[i as int]@);
            push_step(
                &mut steps,
                Step::run(HostCommand::stream("rm", argv1(images[i].as_str()), false)),
            );
            i += 1;
        }
        let ghost stopped = script.deep_view();
        let block = Block::always(steps);
        push_block(&mut script, block);
        assert(script.deep_view() =~= stopped + seq![block@]);
        return Ok(script);
    }
    match find_by_api_socket(inventory, options.api_socket.as_str()) {
        None => Err(
            Failure::about(
                FailureKind::VmNotFound,
                crate::process::socket_name(options.api_socket.as_str()).as_str(),
            ),
        ),
        Some(vm) => {
            let steps = match &vm.rootfs {
                Some(rootfs) => steps1(
                    Step::run(HostCommand::stream("rm", argv1(rootfs.as_str()), false)),
                ),
                None => steps0(),
            };
            let known = vm.name.clone();
            let mut script = crate::process::stop(&Some(known), &Some(vm));
            let ghost stopped = script.deep_view();
            let block = Block::always(steps);
            push_block(&mut script, block);
            assert(script.deep_view() =~= stopped + seq![block@]);
            Ok(script)
        },
    }
}

} // verus!
