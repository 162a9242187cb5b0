//! The drives on record.  No two drives share an id or a name.

use vstd::prelude::*;
use vstd::string::*;
use crate::error::{about, Failure, FailureKind, FailureView};
use crate::state::entity::drive::{Drive, DriveView};
use crate::text::same;

verus! {

/// The drives on record.
#[derive(Clone, Debug)]
pub struct Drives {
    rows: Vec<Drive>,
}

impl View for Drives {
    type V = Seq<DriveView>;

    closed spec fn view(&self) -> Seq<DriveView> {
        self.rows.deep_view()
    }
}

/// No two drives share an id or a name.
pub open spec fn consistent(rows: Seq<DriveView>) -> bool {
    forall|i: int, j: int|
        0 <= i < j < rows.len() ==> (#[trigger] rows[i]).id != (#[trigger] rows[j]).id
            && rows[i].name != rows[j].name
}

/// The drive is known by `key`: as its name or as its id.
pub open spec fn known_as(row: DriveView, key: Seq<char>) -> bool {
    row.name == key || row.id == key
}

/// Position of the first drive at or after `i` that is known by `key`
/// (the length if none).
pub open spec fn position_of(rows: Seq<DriveView>, key: Seq<char>, i: int) -> int
    decreases rows.len() - i,
{
    if 0 <= i < rows.len() && !known_as(rows[i], key) {
        position_of(rows, key, i + 1)
    } else {
        i
    }
}

pub open spec fn found(rows: Seq<DriveView>, key: Seq<char>) -> Option<DriveView> {
    let k = position_of(rows, key, 0);
    if 0 <= k < rows.len() {
        Some(rows[k])
    } else {
        None
    }
}

/// Among the first `n` drives, those attached to `vm_id`.
pub open spec fn attached_upto(rows: Seq<DriveView>, vm_id: Seq<char>, n: int) -> Seq<DriveView>
    decreases n,
{
    if n <= 0 {
        Seq::empty()
    } else if rows[n - 1].vm_id == Some(vm_id) {
        attached_upto(rows, vm_id, n - 1).push(rows[n - 1])
    } else {
        attached_upto(rows, vm_id, n - 1)
    }
}

/// The first `n` drives without those known by `key`.
pub open spec fn without_upto(rows: Seq<DriveView>, key: Seq<char>, n: int) -> Seq<DriveView>
    decreases n,
{
    if n <= 0 {
        Seq::empty()
    } else if known_as(rows[n - 1], key) {
        without_upto(rows, key, n - 1)
    } else {
        without_upto(rows, key, n - 1).push(rows[n - 1])
    }
}

/// What stands in the way of a drive with this id and name.
pub open spec fn conflict_of(rows: Seq<DriveView>, id: Seq<char>, name: Seq<char>) -> Option<
    FailureView,
> {
    if exists|j: int| 0 <= j < rows.len() && rows[j].id == id {
        Some(about(FailureKind::IdInUse, id))
    } else if exists|j: int| 0 <= j < rows.len() && rows[j].name == name {
        Some(about(FailureKind::NameInUse, name))
    } else {
        None
    }
}

/// The drives with those known by `key` attached to `vm_id`.
pub open spec fn with_vm_id(
    rows: Seq<DriveView>,
    key: Seq<char>,
    vm_id: Option<Seq<char>>,
    now: i64,
) -> Seq<DriveView> {
    Seq::new(
        rows.len(),
        |i: int|
            if known_as(rows[i], key) {
                DriveView { vm_id, updated_at: now, ..rows[i] }
            } else {
                rows[i]
            },
    )
}

impl Drives {
    /// Whether the record is in order.
    pub open spec fn wf(&self) -> bool {
        consistent(self@)
    }

    /// A record without drives.
    pub fn new() -> (r: Drives)
        ensures
            r.wf(),
            r@ == Seq::<DriveView>::empty(),
    {
        let rows: Vec<Drive> = Vec::new();
        assert(rows.deep_view() =~= Seq::<DriveView>::empty());
        Drives { rows }
    }

    fn id_taken(&self, id: &str) -> (r: bool)
        ensures
            r == exists|j: int| 0 <= j < self@.len() && self@[j].id == id@,
    {
        let mut i: usize = 0;
        while i < self.rows.len()
            invariant
                i <= self.rows.len(),
                forall|j: int| 0 <= j < i ==> self@[j].id != id@,
            decreases self.rows.len() - i,
        {
            assert(self@[i as int] == self.rows[i as int]@);
            if same(self.rows[i].id.as_str(), id) {
                return true;
            }
            i += 1;
        }
        false
    }

    fn name_taken(&self, name: &str) -> (r: bool)
        ensures
            r == exists|j: int| 0 <= j < self@.len() && self@[j].name == name@,
    {
        let mut i: usize = 0;
        while i < self.rows.len()
            invariant
                i <= self.rows.len(),
                forall|j: int| 0 <= j < i ==> self@[j].name != name@,
            decreases self.rows.len() - i,
        {
            assert(self@[i as int] == self.rows[i as int]@);
            if same(self.rows[i].name.as_str(), name) {
                return true;
            }
            i += 1;
        }
        false
    }
}

fn is_known(row: &Drive, key: &str) -> (r: bool)
    ensures
        r == known_as(row@, key@),
{
    same(row.name.as_str(), key) || same(row.id.as_str(), key)
}

/// Every drive on record.
pub fn all(drives: &Drives) -> (r: Vec<Drive>)
    ensures
        r.deep_view() == drives@,
{
    let mut out: Vec<Drive> = Vec::new();
    let mut i: usize = 0;
    assert(out.deep_view() =~= drives@.take(0));
    while i < drives.rows.len()
        invariant
            i <= drives.rows.len(),
            out.deep_view() == drives@.take(i as int),
        decreases drives.rows.len() - i,
    {
        let ghost before = out.deep_view();
        out.push(drives.rows[i].duplicate());
        assert(out.deep_view() =~= before.push(drives.rows[i as int]@));
        assert(drives@.take(i + 1) =~= before.push(drives.rows[i as int]@));
        i += 1;
    }
    assert(drives@.take(drives@.len() as int) =~= drives@);
    out
}

/// The drive known by `name`, as its name or as its id.
pub fn find(drives: &Drives, name: &str) -> (r: Option<Drive>)
    ensures
        r.deep_view() == found(drives@, name@),
{
    let mut i: usize = 0;
    while i < drives.rows.len()
        invariant
            i <= drives.rows.len(),
            position_of(drives@, name@, 0) == position_of(drives@, name@, i as int),
        decreases drives.rows.len() - i,
    {
        assert(drives@[i as int] == drives.rows[i as int]@);
        if same(drives.rows[i].name.as_str(), name) || same(drives.rows[i].id.as_str(), name) {
            return Some(drives.rows[i].duplicate());
        }
        i += 1;
    }
    None
}

/// The drives attached to the microVM `vm_id`, in the order on record.
pub fn find_by_vm_id(drives: &Drives, vm_id: &str) -> (r: Vec<Drive>)
    ensures
        r.deep_view() == attached_upto(drives@, vm_id@, drives@.len() as int),
{
    let mut out: Vec<Drive> = Vec::new();
    let mut i: usize = 0;
    assert(out.deep_view() =~= Seq::<DriveView>::empty());
    while i < drives.rows.len()
        invariant
            i <= drives.rows.len(),
            out.deep_view() == attached_upto(drives@, vm_id@, i as int),
        decreases drives.rows.len() - i,
    {
        assert(drives@[i as int] == drives.rows[i as int]@);
        let hit = match &drives.rows[i].vm_id {
            Some(v) => same(v.as_str(), vm_id),
            None => false,
        };
        if hit {
            let ghost before = out.deep_view();
            out.push(drives.rows[i].duplicate());
            assert(out.deep_view() =~= before.push(drives.rows[i as int]@));
        }
        i += 1;
    }
    out
}

/// Records `drive`.  Fails with the conflict, and changes nothing, where
/// a drive already has its id or its name.
pub fn create(drives: &mut Drives, drive: &Drive) -> (r: Result<(), Failure>)
    requires
        old(drives).wf(),
    ensures
        final(drives).wf(),
        match conflict_of(old(drives)@, drive@.id, drive@.name) {
            Some(e) => r matches Err(f) && f@ == e && final(drives)@ == old(drives)@,
            None => r is Ok && final(drives)@ == old(drives)@.push(drive@),
        },
{
    if drives.id_taken(drive.id.as_str()) {
        return Err(Failure::about(FailureKind::IdInUse, drive.id.as_str()));
    }
    if drives.name_taken(drive.name.as_str()) {
        return Err(Failure::about(FailureKind::NameInUse, drive.name.as_str()));
    }
    let ghost before = drives@;
    drives.rows.push(drive.duplicate());
    assert(drives@ =~= before.push(drive@));
    assert(consistent(drives@)) by {
        assert forall|i: int, j: int| 0 <= i < j < drives@.len() implies (#[trigger] drives@[i]).id
            != (#[trigger] drives@[j]).id && drives@[i].name != drives@[j].name by {
            if j < before.len() {
                assert(before[i].id != before[j].id && before[i].name != before[j].name);
            } else {
                assert(drives@[i] == before[i]);
            }
        }
    }
    Ok(())
}

/// Removes every drive known by `name`.
pub fn delete(drives: &mut Drives, name: &str)
    requires
        old(drives).wf(),
    ensures
        final(drives).wf(),
        final(drives)@ == without_upto(old(drives)@, name@, old(drives)@.len() as int),
{
    let ghost rows = drives@;
    let mut kept: Vec<Drive> = Vec::new();
    let mut i: usize = 0;
    assert(kept.deep_view() =~= Seq::<DriveView>::empty());
    while i < drives.rows.len()
        invariant
            i <= drives.rows.len(),
            drives@ == rows,
            consistent(rows),
            kept.deep_view() == without_upto(rows, name@, i as int),
            consistent(kept.deep_view()),
            forall|a: int|
                0 <= a < kept.deep_view().len() ==> exists|b: int|
                    0 <= b < i && #[trigger] kept.deep_view()[a] == rows[b],
        decreases drives.rows.len() - i,
    {
        assert(rows[i as int] == drives.rows[i as int]@);
        if !(same(drives.rows[i].name.as_str(), name) || same(drives.rows[i].id.as_str(), name)) {
            let ghost before = kept.deep_view();
            kept.push(drives.rows[i].duplicate());
            assert(kept.deep_view() =~= before.push(rows[i as int]));
            assert forall|a: int, c: int| 0 <= a < c < kept.deep_view().len() implies (
            #[trigger] kept.deep_view()[a]).id != (#[trigger] kept.deep_view()[c]).id
                && kept.deep_view()[a].name != kept.deep_view()[c].name by {
                if c < before.len() {
                    assert(before[a].id != before[c].id && before[a].name != before[c].name);
                } else {
                    let b = choose|b: int| 0 <= b < i && before[a] == rows[b];
                    assert(rows[b].id != rows[i as int].id);
                }
            }
            assert forall|a: int| 0 <= a < kept.deep_view().len() implies exists|b: int|
                0 <= b < i + 1 && #[trigger] kept.deep_view()[a] == rows[b] by {
                if a < before.len() {
                    let b = choose|b: int| 0 <= b < i && before[a] == rows[b];
                    assert(kept.deep_view()[a] == rows[b]);
                } else {
                    assert(kept.deep_view()[a] == rows[i as int]);
                }
            }
        }
        i += 1;
    }
    drives.rows = kept;
}

/// Attaches every drive known by `drive_id` to `vm_id`, or detaches it.
pub fn update_vm_id(drives: &mut Drives, drive_id: &str, vm_id: Option<String>, now: i64)
    requires
        old(drives).wf(),
    ensures
        final(drives).wf(),
        final(drives)@ == with_vm_id(old(drives)@, drive_id@, vm_id.deep_view(), now),
{
    let ghost rows = drives@;
    let ghost wanted = with_vm_id(rows, drive_id@, vm_id.deep_view(), now);
    let mut out: Vec<Drive> = Vec::new();
    let mut i: usize = 0;
    while i < drives.rows.len()
        invariant
            i <= drives.rows.len(),
            drives@ == rows,
            wanted == with_vm_id(rows, drive_id@, vm_id.deep_view(), now),
            out.deep_view().len() == i,
            forall|j: int| 0 <= j < i ==> #[trigger] out.deep_view()[j] == wanted[j],
        decreases drives.rows.len() - i,
    {
        assert(rows[i as int] == drives.rows[i as int]@);
        let mut row = drives.rows[i].duplicate();
        if same(row.name.as_str(), drive_id) || same(row.id.as_str(), drive_id) {
            row.vm_id = vm_id.clone();
            row.updated_at = now;
        }
        let ghost before = out.deep_view();
        out.push(row);
        assert(out.deep_view() =~= before.push(row@));
        i += 1;
    }
    assert(out.deep_view() =~= wanted);
    drives.rows = out;
    assert(consistent(drives@)) by {
        assert forall|i: int, j: int| 0 <= i < j < drives@.len() implies (#[trigger] drives@[i]).id
            != (#[trigger] drives@[j]).id && drives@[i].name != drives@[j].name by {
            assert(rows[i].id != rows[j].id && rows[i].name != rows[j].name);
        }
    }
}

/// Renames the first drive known by `drive_id`.  An unknown drive changes
/// nothing.  Fails with `NameInUse`, and changes nothing, where another
/// drive already has the new name.
pub fn update_name(drives: &mut Drives, drive_id: &str, new_name: &str, now: i64) -> (r: Result<
    (),
    Failure,
>)
    requires
        old(drives).wf(),
    ensures
        final(drives).wf(),
        ({
            let rows = old(drives)@;
            let k = position_of(rows, drive_id@, 0);
            if 0 <= k < rows.len() {
                if exists|j: int| 0 <= j < rows.len() && j != k && rows[j].name == new_name@ {
                    r matches Err(f) && f@ == about(FailureKind::NameInUse, new_name@)
                        && final(drives)@ == rows
                } else {
                    r is Ok && final(drives)@ == rows.update(
                        k,
                        DriveView { name: new_name@, updated_at: now, ..rows[k] },
                    )
                }
            } else {
                r is Ok && final(drives)@ == rows
            }
        }),
{
    let ghost rows = drives@;
    let mut k: usize = 0;
    while k < drives.rows.len() && !is_known(&drives.rows[k], drive_id)
        invariant
            k <= drives.rows.len(),
            drives@ == rows,
            position_of(rows, drive_id@, 0) == position_of(rows, drive_id@, k as int),
        decreases drives.rows.len() - k,
    {
        assert(rows[k as int] == drives.rows[k as int]@);
        k += 1;
    }
    if k >= drives.rows.len() {
        return Ok(());
    }
    assert(rows[k as int] == drives.rows[k as int]@);
    let mut j: usize = 0;
    while j < drives.rows.len()
        invariant
            j <= drives.rows.len(),
            k < drives.rows.len(),
            drives@ == rows,
            consistent(rows),
            k == position_of(rows, drive_id@, 0),
            forall|a: int| 0 <= a < j && a != k ==> rows[a].name != new_name@,
        decreases drives.rows.len() - j,
    {
        assert(rows[j as int] == drives.rows[j as int]@);
        if j != k && same(drives.rows[j].name.as_str(), new_name) {
            return Err(Failure::about(FailureKind::NameInUse, new_name));
        }
        j += 1;
    }
    assert(rows[k as int] == drives.rows[k as int]@);
    let mut row = drives.rows[k].duplicate();
    row.name = String::from_str(new_name);
    row.updated_at = now;
    drives.rows.set(k, row);
    assert(drives@ =~= rows.update(k as int, row@));
    assert(consistent(drives@)) by {
        assert forall|a: int, b: int| 0 <= a < b < drives@.len() implies (#[trigger] drives@[a]).id
            != (#[trigger] drives@[b]).id && drives@[a].name != drives@[b].name by {
            assert(rows[a].id != rows[b].id && rows[a].name != rows[b].name);
        }
    }
    Ok(())
}

} // verus!
