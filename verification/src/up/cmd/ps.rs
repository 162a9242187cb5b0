//! `ps`: which microVMs are listed.

use vstd::prelude::*;
use vstd::string::*;
use crate::state::entity::virtual_machine::{VirtualMachine, VirtualMachineView};
use crate::text::same;

verus! {

/// Among the first `n` microVMs, those that are listed: all of them if
/// asked, else those that run.
pub open spec fn listed_upto(rows: Seq<VirtualMachineView>, every: bool, n: int) -> Seq<
    VirtualMachineView,
>
    decreases n,
{
    if n <= 0 {
        Seq::empty()
    } else if every || rows[n - 1].status == "RUNNING"@ {
        listed_upto(rows, every, n - 1).push(rows[n - 1])
    } else {
        listed_upto(rows, every, n - 1)
    }
}

/// The microVMs that `ps` lists, in the order on record.
pub fn list_all_instances(vms: &Vec<VirtualMachine>, every: bool) -> (r: Vec<VirtualMachine>)
    ensures
        r.deep_view() == listed_upto(vms.deep_view(), every, vms.len() as int),
{
    let mut out: Vec<VirtualMachine> = Vec::new();
    assert(out.deep_view() =~= Seq::<VirtualMachineView>::empty());
    let mut i: usize = 0;
    while i < vms.len()
        invariant
            i <= vms.len(),
            out.deep_view() == listed_upto(vms.deep_view(), every, i as int),
        decreases vms.len() - i,
    {
        assert(vms.deep_view()[i as int] == vms[i as int]@);
        if every || same(vms[i].status.as_str(), "RUNNING") {
            let ghost before = out.deep_view();
            out.push(vms[i].duplicate());
            assert(out.deep_view() =~= before.push(vms[i as int]@));
        }
        i += 1;
    }
    out
}

} // verus!
