//! The inventory of microVMs.
//!
//! No two rows share an id, a name, a tap device, a MAC address, an API
//! socket or a project directory.  Every operation keeps it so: one that
//! would break it fails with the conflict and changes nothing.

use vstd::prelude::*;
use vstd::string::*;
use crate::error::{about, Failure, FailureKind, FailureView};
use crate::outside::new_id;
use crate::state::entity::virtual_machine::{VirtualMachine, VirtualMachineView};
use crate::text::{contains, occurs_in, same};

verus! {

/// The microVMs on record.
#[derive(Clone, Debug)]
pub struct Inventory {
    rows: Vec<VirtualMachine>,
}

impl View for Inventory {
    type V = Seq<VirtualMachineView>;

    closed spec fn view(&self) -> Seq<VirtualMachineView> {
        self.rows.deep_view()
    }
}

/// Two rows that may stand side by side.
pub open spec fn distinct(a: VirtualMachineView, b: VirtualMachineView) -> bool {
    &&& a.id != b.id
    &&& a.name != b.name
    &&& a.tap != b.tap
    &&& a.mac_address != b.mac_address
    &&& a.api_socket != b.api_socket
    &&& (a.project_dir is Some && b.project_dir is Some ==> a.project_dir != b.project_dir)
}

/// No two rows share what must be unique.
pub open spec fn consistent(rows: Seq<VirtualMachineView>) -> bool {
    forall|i: int, j: int| 0 <= i < j < rows.len() ==> distinct(#[trigger] rows[i], #[trigger] rows[j])
}

/// The row is known by `key`: as its name or as its id.
pub open spec fn known_as(row: VirtualMachineView, key: Seq<char>) -> bool {
    row.name == key || row.id == key
}

/// Position of the first row at or after `i` that is known by `key` (the
/// length if none).
pub open spec fn position_of(rows: Seq<VirtualMachineView>, key: Seq<char>, i: int) -> int
    decreases rows.len() - i,
{
    if 0 <= i < rows.len() && !known_as(rows[i], key) {
        position_of(rows, key, i + 1)
    } else {
        i
    }
}

/// The first row known by `key`.
pub open spec fn found(rows: Seq<VirtualMachineView>, key: Seq<char>) -> Option<
    VirtualMachineView,
> {
    let k = position_of(rows, key, 0);
    if 0 <= k < rows.len() {
        Some(rows[k])
    } else {
        None
    }
}

/// Position of the first row at or after `i` that belongs to the project
/// directory `path` (the length if none).
pub open spec fn position_of_project(rows: Seq<VirtualMachineView>, path: Seq<char>, i: int) -> int
    decreases rows.len() - i,
{
    if 0 <= i < rows.len() && rows[i].project_dir != Some(path) {
        position_of_project(rows, path, i + 1)
    } else {
        i
    }
}

pub open spec fn found_by_project_dir(rows: Seq<VirtualMachineView>, path: Seq<char>) -> Option<
    VirtualMachineView,
> {
    let k = position_of_project(rows, path, 0);
    if 0 <= k < rows.len() {
        Some(rows[k])
    } else {
        None
    }
}

/// Position of the first row at or after `i` with the API socket
/// `api_socket` (the length if none).
pub open spec fn position_of_socket(
    rows: Seq<VirtualMachineView>,
    api_socket: Seq<char>,
    i: int,
) -> int
    decreases rows.len() - i,
{
    if 0 <= i < rows.len() && rows[i].api_socket != api_socket {
        position_of_socket(rows, api_socket, i + 1)
    } else {
        i
    }
}

pub open spec fn found_by_api_socket(rows: Seq<VirtualMachineView>, api_socket: Seq<char>) -> Option<
    VirtualMachineView,
> {
    let k = position_of_socket(rows, api_socket, 0);
    if 0 <= k < rows.len() {
        Some(rows[k])
    } else {
        None
    }
}

/// What stands in the way of `row` joining `rows`, leaving out the row at
/// position `except` (none is left out when `except` is no position): the
/// first of id, name, API socket, tap device, MAC address and project
/// directory that a row already has.
pub open spec fn conflict_of(rows: Seq<VirtualMachineView>, row: VirtualMachineView, except: int) -> Option<
    FailureView,
> {
    if exists|j: int| 0 <= j < rows.len() && j != except && rows[j].id == row.id {
        Some(about(FailureKind::IdInUse, row.id))
    } else if exists|j: int| 0 <= j < rows.len() && j != except && rows[j].name == row.name {
        Some(about(FailureKind::NameInUse, row.name))
    } else if exists|j: int|
        0 <= j < rows.len() && j != except && rows[j].api_socket == row.api_socket {
        Some(about(FailureKind::ApiSocketInUse, row.api_socket))
    } else if exists|j: int| 0 <= j < rows.len() && j != except && rows[j].tap == row.tap {
        Some(about(FailureKind::TapInUse, row.tap))
    } else if exists|j: int|
        0 <= j < rows.len() && j != except && rows[j].mac_address == row.mac_address {
        Some(about(FailureKind::MacInUse, row.mac_address))
    } else if row.project_dir is Some && exists|j: int|
        0 <= j < rows.len() && j != except && rows[j].project_dir == row.project_dir {
        Some(about(FailureKind::ProjectDirAlreadyBound, row.project_dir->0))
    } else {
        None
    }
}

/// The row that `create` inserts for `vm`: running, under the new id, bound
/// to the project directory, created and updated now.
pub open spec fn created_row(
    vm: VirtualMachineView,
    id: Seq<char>,
    project_dir: Option<Seq<char>>,
    now: i64,
) -> VirtualMachineView {
    VirtualMachineView {
        id,
        status: "RUNNING"@,
        project_dir,
        created_at: now,
        updated_at: now,
        ..vm
    }
}

/// The row that `update` leaves in place of `old`: every field of `vm`
/// but the id, the name and the time of creation.
pub open spec fn updated_row(old: VirtualMachineView, vm: VirtualMachineView, now: i64) -> VirtualMachineView {
    VirtualMachineView {
        id: old.id,
        name: old.name,
        created_at: old.created_at,
        updated_at: now,
        ..vm
    }
}

/// Position of the first row at or after `i` with the id `id` (the length
/// if none).
pub open spec fn position_of_id(rows: Seq<VirtualMachineView>, id: Seq<char>, i: int) -> int
    decreases rows.len() - i,
{
    if 0 <= i < rows.len() && rows[i].id != id {
        position_of_id(rows, id, i + 1)
    } else {
        i
    }
}

/// The first `n` rows without those known by `key`.
pub open spec fn without_upto(rows: Seq<VirtualMachineView>, key: Seq<char>, n: int) -> Seq<
    VirtualMachineView,
>
    decreases n,
{
    if n <= 0 {
        Seq::empty()
    } else if known_as(rows[n - 1], key) {
        without_upto(rows, key, n - 1)
    } else {
        without_upto(rows, key, n - 1).push(rows[n - 1])
    }
}

/// The rows without those known by `key`.
pub open spec fn without(rows: Seq<VirtualMachineView>, key: Seq<char>) -> Seq<VirtualMachineView> {
    without_upto(rows, key, rows.len() as int)
}

/// The rows with the status of those known by `key` set to `status`.
pub open spec fn with_status(rows: Seq<VirtualMachineView>, key: Seq<char>, status: Seq<char>) -> Seq<
    VirtualMachineView,
> {
    Seq::new(
        rows.len(),
        |i: int|
            if known_as(rows[i], key) {
                VirtualMachineView { status, ..rows[i] }
            } else {
                rows[i]
            },
    )
}

/// The rows with every status set to `status`.
pub open spec fn with_all_status(rows: Seq<VirtualMachineView>, status: Seq<char>) -> Seq<
    VirtualMachineView,
> {
    Seq::new(rows.len(), |i: int| VirtualMachineView { status, ..rows[i] })
}

fn same_option(a: &Option<String>, b: &Option<String>) -> (r: bool)
    ensures
        r == (a.deep_view() == b.deep_view()),
{
    match a {
        None => b.is_none(),
        Some(x) => match b {
            None => false,
            Some(y) => same(x.as_str(), y.as_str()),
        },
    }
}

impl Inventory {
    /// Whether the inventory is in order.
    pub open spec fn wf(&self) -> bool {
        consistent(self@)
    }

    /// An inventory without rows.
    pub fn new() -> (inv: Inventory)
        ensures
            inv.wf(),
            inv@ == Seq::<VirtualMachineView>::empty(),
    {
        let rows: Vec<VirtualMachine> = Vec::new();
        assert(rows.deep_view() =~= Seq::<VirtualMachineView>::empty());
        Inventory { rows }
    }

    /// The inventory made of `rows`, or the first conflict among them:
    /// what stands in the way of the first row that cannot join those
    /// before it.
    pub fn load(rows: Vec<VirtualMachine>) -> (r: Result<Inventory, Failure>)
        ensures
            r is Ok == consistent(rows.deep_view()),
            r matches Ok(inv) ==> inv.wf() && inv@ == rows.deep_view(),
            r matches Err(e) ==> exists|i: int|
                0 <= i < rows.len() && consistent(rows.deep_view().take(i)) && conflict_of(
                    rows.deep_view().take(i),
                    #[trigger] rows.deep_view()[i],
                    -1,
                ) == Some(e@),
    {
        let ghost wanted = rows.deep_view();
        let mut inv = Inventory::new();
        let n = rows.len();
        let mut i: usize = 0;
        while i < n
            invariant
                i <= n,
                n == rows.len(),
                rows.deep_view() == wanted,
                inv.wf(),
                inv@ == wanted.take(i as int),
            decreases n - i,
        {
            let row = rows[i].duplicate();
            assert(wanted[i as int] == rows[i as int]@);
            let ghost before = inv@;
            match inv.insert(row) {
                Err(e) => {
                    proof {
                        assert(conflict_of(before, wanted[i as int], -1) == Some(e@));
                        assert(consistent(wanted.take(i as int)));
                        if consistent(wanted) {
                            assert forall|j: int| 0 <= j < before.len() implies distinct(
                                before[j],
                                wanted[i as int],
                            ) by {
                                assert(before[j] == wanted[j]);
                                assert(distinct(wanted[j], wanted[i as int]));
                            }
                            assert(conflict_of(before, wanted[i as int], -1) is None);
                        }
                    }
                    return Err(e);
                },
                Ok(()) => {
                    assert(wanted.take(i + 1) =~= wanted.take(i as int).push(wanted[i as int]));
                },
            }
            i += 1;
        }
        assert(wanted.take(n as int) =~= wanted);
        Ok(inv)
    }

    pub fn len(&self) -> (n: usize)
        ensures
            n == self@.len(),
    {
        self.rows.len()
    }

    fn id_taken(&self, id: &str, except: usize) -> (r: bool)
        ensures
            r == exists|j: int| 0 <= j < self@.len() && j != except && self@[j].id == id@,
    {
        let mut i: usize = 0;
        while i < self.rows.len()
            invariant
                i <= self.rows.len(),
                forall|j: int| 0 <= j < i && j != except ==> self@[j].id != id@,
            decreases self.rows.len() - i,
        {
            assert(self@[i as int] == self.rows[i as int]@);
            if i != except && same(self.rows[i].id.as_str(), id) {
                return true;
            }
            i += 1;
        }
        false
    }

    fn name_taken(&self, name: &str, except: usize) -> (r: bool)
        ensures
            r == exists|j: int| 0 <= j < self@.len() && j != except && self@[j].name == name@,
    {
        let mut i: usize = 0;
        while i < self.rows.len()
            invariant
                i <= self.rows.len(),
                forall|j: int| 0 <= j < i && j != except ==> self@[j].name != name@,
            decreases self.rows.len() - i,
        {
            assert(self@[i as int] == self.rows[i as int]@);
            if i != except && same(self.rows[i].name.as_str(), name) {
                return true;
            }
            i += 1;
        }
        false
    }

    fn socket_taken(&self, api_socket: &str, except: usize) -> (r: bool)
        ensures
            r == exists|j: int|
                0 <= j < self@.len() && j != except && self@[j].api_socket == api_socket@,
    {
        let mut i: usize = 0;
        while i < self.rows.len()
            invariant
                i <= self.rows.len(),
                forall|j: int| 0 <= j < i && j != except ==> self@[j].api_socket != api_socket@,
            decreases self.rows.len() - i,
        {
            assert(self@[i as int] == self.rows[i as int]@);
            if i != except && same(self.rows[i].api_socket.as_str(), api_socket) {
                return true;
            }
            i += 1;
        }
        false
    }

    fn tap_taken(&self, tap: &str, except: usize) -> (r: bool)
        ensures
            r == exists|j: int| 0 <= j < self@.len() && j != except && self@[j].tap == tap@,
    {
        let mut i: usize = 0;
        while i < self.rows.len()
            invariant
                i <= self.rows.len(),
                forall|j: int| 0 <= j < i && j != except ==> self@[j].tap != tap@,
            decreases self.rows.len() - i,
        {
            assert(self@[i as int] == self.rows[i as int]@);
            if i != except && same(self.rows[i].tap.as_str(), tap) {
                return true;
            }
            i += 1;
        }
        false
    }

    fn mac_taken(&self, mac: &str, except: usize) -> (r: bool)
        ensures
            r == exists|j: int|
                0 <= j < self@.len() && j != except && self@[j].mac_address == mac@,
    {
        let mut i: usize = 0;
        while i < self.rows.len()
            invariant
                i <= self.rows.len(),
                forall|j: int| 0 <= j < i && j != except ==> self@[j].mac_address != mac@,
            decreases self.rows.len() - i,
        {
            assert(self@[i as int] == self.rows[i as int]@);
            if i != except && same(self.rows[i].mac_address.as_str(), mac) {
                return true;
            }
            i += 1;
        }
        false
    }

    fn project_taken(&self, dir: &Option<String>, except: usize) -> (r: bool)
        ensures
            r == exists|j: int|
                0 <= j < self@.len() && j != except && self@[j].project_dir == dir.deep_view(),
    {
        let mut i: usize = 0;
        while i < self.rows.len()
            invariant
                i <= self.rows.len(),
                forall|j: int|
                    0 <= j < i && j != except ==> self@[j].project_dir != dir.deep_view(),
            decreases self.rows.len() - i,
        {
            assert(self@[i as int] == self.rows[i as int]@);
            if i != except && same_option(&self.rows[i].project_dir, dir) {
                return true;
            }
            i += 1;
        }
        false
    }

    /// What stands in the way of `row`, the row at `except` left out.
    fn conflict(&self, row: &VirtualMachine, except: usize) -> (r: Option<Failure>)
        ensures
            r.deep_view() == conflict_of(self@, row@, except as int),
    {
        if self.id_taken(row.id.as_str(), except) {
            Some(Failure::about(FailureKind::IdInUse, row.id.as_str()))
        } else if self.name_taken(row.name.as_str(), except) {
            Some(Failure::about(FailureKind::NameInUse, row.name.as_str()))
        } else if self.socket_taken(row.api_socket.as_str(), except) {
            Some(Failure::about(FailureKind::ApiSocketInUse, row.api_socket.as_str()))
        } else if self.tap_taken(row.tap.as_str(), except) {
            Some(Failure::about(FailureKind::TapInUse, row.tap.as_str()))
        } else if self.mac_taken(row.mac_address.as_str(), except) {
            Some(Failure::about(FailureKind::MacInUse, row.mac_address.as_str()))
        } else {
            match &row.project_dir {
                Some(dir) => {
                    if self.project_taken(&row.project_dir, except) {
                        Some(Failure::about(FailureKind::ProjectDirAlreadyBound, dir.as_str()))
                    } else {
                        None
                    }
                },
                None => None,
            }
        }
    }

    /// Adds `row` as it is, unless something stands in its way.
    fn insert(&mut self, row: VirtualMachine) -> (r: Result<(), Failure>)
        requires
            old(self).wf(),
        ensures
            final(self).wf(),
            match conflict_of(old(self)@, row@, -1) {
                Some(e) => r matches Err(f) && f@ == e && final(self)@ == old(self)@,
                None => r is Ok && final(self)@ == old(self)@.push(row@),
            },
    {
        let n = self.rows.len();
        proof {
            assert(conflict_of(self@, row@, n as int) == conflict_of(self@, row@, -1));
        }
        match self.conflict(&row, n) {
            Some(e) => Err(e),
            None => {
                let ghost before = self@;
                self.rows.push(row);
                assert(self@ =~= before.push(row@));
                assert(consistent(self@)) by {
                    assert forall|i: int, j: int| 0 <= i < j < self@.len() implies distinct(
                        #[trigger] self@[i],
                        #[trigger] self@[j],
                    ) by {
                        if j < before.len() {
                            assert(distinct(before[i], before[j]));
                        } else {
                            assert(self@[i] == before[i]);
                        }
                    }
                }
                Ok(())
            },
        }
    }
}

/// Every microVM on record.
pub fn all(inventory: &Inventory) -> (r: Vec<VirtualMachine>)
    ensures
        r.deep_view() == inventory@,
{
    let mut out: Vec<VirtualMachine> = Vec::new();
    let mut i: usize = 0;
    assert(out.deep_view() =~= inventory@.take(0));
    while i < inventory.rows.len()
        invariant
            i <= inventory.rows.len(),
            out.deep_view() == inventory@.take(i as int),
        decreases inventory.rows.len() - i,
    {
        let ghost before = out.deep_view();
        out.push(inventory.rows[i].duplicate());
        assert(out.deep_view() =~= before.push(inventory.rows[i as int]@));
        assert(inventory@.take(i + 1) =~= before.push(inventory.rows[i as int]@));
        i += 1;
    }
    assert(inventory@.take(inventory@.len() as int) =~= inventory@);
    out
}

/// The microVM known by `name`, as its name or as its id.
pub fn find(inventory: &Inventory, name: &str) -> (r: Option<VirtualMachine>)
    ensures
        r.deep_view() == found(inventory@, name@),
{
    let mut i: usize = 0;
    while i < inventory.rows.len()
        invariant
            i <= inventory.rows.len(),
            position_of(inventory@, name@, 0) == position_of(inventory@, name@, i as int),
        decreases inventory.rows.len() - i,
    {
        assert(inventory@[i as int] == inventory.rows[i as int]@);
        if same(inventory.rows[i].name.as_str(), name) || same(inventory.rows[i].id.as_str(), name) {
            return Some(inventory.rows[i].duplicate());
        }
        i += 1;
    }
    None
}

/// The microVM that belongs to the project directory `path`.
pub fn find_by_project_dir(inventory: &Inventory, path: &str) -> (r: Option<VirtualMachine>)
    ensures
        r.deep_view() == found_by_project_dir(inventory@, path@),
{
    let mut i: usize = 0;
    while i < inventory.rows.len()
        invariant
            i <= inventory.rows.len(),
            position_of_project(inventory@, path@, 0) == position_of_project(
                inventory@,
                path@,
                i as int,
            ),
        decreases inventory.rows.len() - i,
    {
        assert(inventory@[i as int] == inventory.rows[i as int]@);
        let hit = match &inventory.rows[i].project_dir {
            Some(dir) => same(dir.as_str(), path),
            None => false,
        };
        if hit {
            return Some(inventory.rows[i].duplicate());
        }
        i += 1;
    }
    None
}

/// The microVM with the API socket `api_socket`.
pub fn find_by_api_socket(inventory: &Inventory, api_socket: &str) -> (r: Option<VirtualMachine>)
    ensures
        r.deep_view() == found_by_api_socket(inventory@, api_socket@),
{
    let mut i: usize = 0;
    while i < inventory.rows.len()
        invariant
            i <= inventory.rows.len(),
            position_of_socket(inventory@, api_socket@, 0) == position_of_socket(
                inventory@,
                api_socket@,
                i as int,
            ),
        decreases inventory.rows.len() - i,
    {
        assert(inventory@[i as int] == inventory.rows[i as int]@);
        if same(inventory.rows[i].api_socket.as_str(), api_socket) {
            return Some(inventory.rows[i].duplicate());
        }
        i += 1;
    }
    None
}

/// Records `vm` under the id `id`: running, bound to `project_dir`, created
/// now.  Fails with the conflict, and changes nothing, where a row already
/// has its id, name, API socket, tap device, MAC address or project
/// directory.
pub fn create_with_id(
    inventory: &mut Inventory,
    vm: VirtualMachine,
    id: String,
    project_dir: Option<String>,
    now: i64,
) -> (r: Result<(), Failure>)
    requires
        old(inventory).wf(),
    ensures
        final(inventory).wf(),
        match conflict_of(
            old(inventory)@,
            created_row(vm@, id@, project_dir.deep_view(), now),
            -1,
        ) {
            Some(e) => r matches Err(f) && f@ == e && final(inventory)@ == old(inventory)@,
            None => r is Ok && final(inventory)@ == old(inventory)@.push(
                created_row(vm@, id@, project_dir.deep_view(), now),
            ),
        },
{
    let mut row = vm;
    row.id = id;
    row.status = String::from_str("RUNNING");
    row.project_dir = project_dir;
    row.created_at = now;
    row.updated_at = now;
    inventory.insert(row)
}

/// Records `vm` under a newly generated id and names that id.
pub fn create(
    inventory: &mut Inventory,
    vm: VirtualMachine,
    project_dir: Option<String>,
    now: i64,
) -> (r: Result<String, Failure>)
    requires
        old(inventory).wf(),
    ensures
        final(inventory).wf(),
        match r {
            Ok(id) => conflict_of(
                old(inventory)@,
                created_row(vm@, id@, project_dir.deep_view(), now),
                -1,
            ) is None && final(inventory)@ == old(inventory)@.push(
                created_row(vm@, id@, project_dir.deep_view(), now),
            ),
            Err(e) => final(inventory)@ == old(inventory)@ && exists|id: Seq<char>|
                conflict_of(
                    old(inventory)@,
                    #[trigger] created_row(vm@, id, project_dir.deep_view(), now),
                    -1,
                ) == Some(e@),
        },
{
    let id = new_id();
    let recorded = id.clone();
    match create_with_id(inventory, vm, id, project_dir, now) {
        Ok(()) => Ok(recorded),
        Err(e) => Err(e),
    }
}

/// Removes every microVM known by `name`.
pub fn delete(inventory: &mut Inventory, name: &str)
    requires
        old(inventory).wf(),
    ensures
        final(inventory).wf(),
        final(inventory)@ == without(old(inventory)@, name@),
{
    let ghost rows = inventory@;
    let mut kept: Vec<VirtualMachine> = Vec::new();
    let mut i: usize = 0;
    assert(kept.deep_view() =~= Seq::<VirtualMachineView>::empty());
    while i < inventory.rows.len()
        invariant
            i <= inventory.rows.len(),
            inventory@ == rows,
            consistent(rows),
            kept.deep_view() == without_upto(rows, name@, i as int),
            consistent(kept.deep_view()),
            forall|a: int|
                0 <= a < kept.deep_view().len() ==> exists|b: int|
                    0 <= b < i && #[trigger] kept.deep_view()[a] == rows[b],
        decreases inventory.rows.len() - i,
    {
        assert(rows[i as int] == inventory.rows[i as int]@);
        if !(same(inventory.rows[i].name.as_str(), name) || same(
            inventory.rows[i].id.as_str(),
            name,
        )) {
            let ghost before = kept.deep_view();
            kept.push(inventory.rows[i].duplicate());
            assert(kept.deep_view() =~= before.push(rows[i as int]));
            assert forall|a: int, c: int| 0 <= a < c < kept.deep_view().len() implies distinct(
                #[trigger] kept.deep_view()[a],
                #[trigger] kept.deep_view()[c],
            ) by {
                if c < before.len() {
                    assert(distinct(before[a], before[c]));
                } else {
                    let b = choose|b: int| 0 <= b < i && before[a] == rows[b];
                    assert(distinct(rows[b], rows[i as int]));
                }
            }
            assert forall|a: int| 0 <= a < kept.deep_view().len() implies exists|b: int|
                0 <= b < i + 1 && #[trigger] kept.deep_view()[a] == rows[b] by {
                if a < before.len() {
                    let b = choose|b: int| 0 <= b < i && before[a] == rows[b];
                    assert(kept.deep_view()[a] == rows[b]);
                } else {
                    assert(kept.deep_view()[a] == rows[i as int]);
                }
            }
        }
        i += 1;
    }
    inventory.rows = kept;
}

/// Replaces the fields of the microVM with the id `id` by those of `vm`,
/// keeping its id, name and time of creation.  An unknown id
/// changes nothing.  Fails with the conflict, and changes nothing, where
/// another row already has the new API socket, tap device, MAC address or
/// project directory.
pub fn update(inventory: &mut Inventory, id: &str, vm: VirtualMachine, now: i64) -> (r: Result<
    (),
    Failure,
>)
    requires
        old(inventory).wf(),
    ensures
        final(inventory).wf(),
        ({
            let rows = old(inventory)@;
            let k = position_of_id(rows, id@, 0);
            if 0 <= k < rows.len() {
                match conflict_of(rows, updated_row(rows[k], vm@, now), k) {
                    Some(e) => r matches Err(f) && f@ == e && final(inventory)@ == rows,
                    None => r is Ok && final(inventory)@ == rows.update(
                        k,
                        updated_row(rows[k], vm@, now),
                    ),
                }
            } else {
                r is Ok && final(inventory)@ == rows
            }
        }),
{
    let ghost rows = inventory@;
    let mut k: usize = 0;
    while k < inventory.rows.len() && !same(inventory.rows[k].id.as_str(), id)
        invariant
            k <= inventory.rows.len(),
            inventory@ == rows,
            position_of_id(rows, id@, 0) == position_of_id(rows, id@, k as int),
        decreases inventory.rows.len() - k,
    {
        assert(rows[k as int] == inventory.rows[k as int]@);
        k += 1;
    }
    if k >= inventory.rows.len() {
        return Ok(());
    }
    assert(rows[k as int] == inventory.rows[k as int]@);
    let mut row = vm;
    row.id = inventory.rows[k].id.clone();
    row.name = inventory.rows[k].name.clone();
    row.created_at = inventory.rows[k].created_at;
    row.updated_at = now;
    assert(row@ == updated_row(rows[k as int], vm@, now));
    match inventory.conflict(&row, k) {
        Some(e) => Err(e),
        None => {
            inventory.rows.set(k, row);
            assert(inventory@ =~= rows.update(k as int, row@));
            assert(consistent(inventory@)) by {
                assert forall|i: int, j: int| 0 <= i < j < inventory@.len() implies distinct(
                    #[trigger] inventory@[i],
                    #[trigger] inventory@[j],
                ) by {
                    if i != k && j != k {
                        assert(distinct(rows[i], rows[j]));
                    } else if i == k {
                        assert(rows[j] == inventory@[j]);
                    } else {
                        assert(rows[i] == inventory@[i]);
                    }
                }
            }
            Ok(())
        },
    }
}

/// Sets the status of every microVM known by `name`.
pub fn update_status(inventory: &mut Inventory, name: &str, status: &str)
    requires
        old(inventory).wf(),
    ensures
        final(inventory).wf(),
        final(inventory)@ == with_status(old(inventory)@, name@, status@),
{
    let ghost rows = inventory@;
    let mut out: Vec<VirtualMachine> = Vec::new();
    let mut i: usize = 0;
    while i < inventory.rows.len()
        invariant
            i <= inventory.rows.len(),
            inventory@ == rows,
            out.deep_view().len() == i,
            forall|j: int|
                0 <= j < i ==> #[trigger] out.deep_view()[j] == with_status(rows, name@, status@)[j],
        decreases inventory.rows.len() - i,
    {
        assert(rows[i as int] == inventory.rows[i as int]@);
        let mut row = inventory.rows[i].duplicate();
        if same(row.name.as_str(), name) || same(row.id.as_str(), name) {
            row.status = String::from_str(status);
        }
        let ghost before = out.deep_view();
        out.push(row);
        assert(out.deep_view() =~= before.push(row@));
        i += 1;
    }
    assert(out.deep_view() =~= with_status(rows, name@, status@));
    inventory.rows = out;
    assert(consistent(inventory@)) by {
        assert forall|i: int, j: int| 0 <= i < j < inventory@.len() implies distinct(
            #[trigger] inventory@[i],
            #[trigger] inventory@[j],
        ) by {
            assert(distinct(rows[i], rows[j]));
        }
    }
}

/// Sets the status of every microVM.
pub fn update_all_status(inventory: &mut Inventory, status: &str)
    requires
        old(inventory).wf(),
    ensures
        final(inventory).wf(),
        final(inventory)@ == with_all_status(old(inventory)@, status@),
{
    let ghost rows = inventory@;
    let mut out: Vec<VirtualMachine> = Vec::new();
    let mut i: usize = 0;
    while i < inventory.rows.len()
        invariant
            i <= inventory.rows.len(),
            inventory@ == rows,
            out.deep_view().len() == i,
            forall|j: int|
                0 <= j < i ==> #[trigger] out.deep_view()[j] == with_all_status(rows, status@)[j],
        decreases inventory.rows.len() - i,
    {
        assert(rows[i as int] == inventory.rows[i as int]@);
        let mut row = inventory.rows[i].duplicate();
        row.status = String::from_str(status);
        let ghost before = out.deep_view();
        out.push(row);
        assert(out.deep_view() =~= before.push(row@));
        i += 1;
    }
    assert(out.deep_view() =~= with_all_status(rows, status@));
    inventory.rows = out;
    assert(consistent(inventory@)) by {
        assert forall|i: int, j: int| 0 <= i < j < inventory@.len() implies distinct(
            #[trigger] inventory@[i],
            #[trigger] inventory@[j],
        ) by {
            assert(distinct(rows[i], rows[j]));
        }
    }
}

/// However the microVMs on record came about, any two of them differ in
/// tap device, MAC address and API socket, and in id and name.
pub proof fn lemma_rows_are_pairwise_distinct(inventory: &Inventory, i: int, j: int)
    requires
        inventory.wf(),
        0 <= i < inventory@.len(),
        0 <= j < inventory@.len(),
        i != j,
    ensures
        inventory@[i].tap != inventory@[j].tap,
        inventory@[i].mac_address != inventory@[j].mac_address,
        inventory@[i].api_socket != inventory@[j].api_socket,
        inventory@[i].id != inventory@[j].id,
        inventory@[i].name != inventory@[j].name,
{
    if i < j {
        assert(distinct(inventory@[i], inventory@[j]));
    } else {
        assert(distinct(inventory@[j], inventory@[i]));
    }
}

/// A change of status touches the rows that are known by the key, by name
/// or by id, and no other; and of those it changes the status only.
pub proof fn lemma_status_touches_only_the_known(
    rows: Seq<VirtualMachineView>,
    key: Seq<char>,
    status: Seq<char>,
    j: int,
)
    requires
        0 <= j < rows.len(),
    ensures
        with_status(rows, key, status).len() == rows.len(),
        !known_as(rows[j], key) ==> with_status(rows, key, status)[j] == rows[j],
        known_as(rows[j], key) ==> with_status(rows, key, status)[j] == (VirtualMachineView {
            status,
            ..rows[j]
        }),
{
}

/// The conflict that the database reports when it refuses `row`: where
/// its message tells of a uniqueness violation and names the column, the
/// failure that the inventory gives for that column; any other message is
/// no conflict.
pub open spec fn violation_of(message: Seq<char>, row: VirtualMachineView) -> Option<FailureView> {
    if !occurs_in("UNIQUE constraint failed"@, message) {
        None
    } else if occurs_in("virtual_machines.tap"@, message) {
        Some(about(FailureKind::TapInUse, row.tap))
    } else if occurs_in("virtual_machines.mac_address"@, message) {
        Some(about(FailureKind::MacInUse, row.mac_address))
    } else if occurs_in("virtual_machines.api_socket"@, message) {
        Some(about(FailureKind::ApiSocketInUse, row.api_socket))
    } else if occurs_in("virtual_machines.project_dir"@, message) {
        Some(
            about(
                FailureKind::ProjectDirAlreadyBound,
                match row.project_dir {
                    Some(dir) => dir,
                    None => ""@,
                },
            ),
        )
    } else if occurs_in("virtual_machines.name"@, message) {
        Some(about(FailureKind::NameInUse, row.name))
    } else if occurs_in("virtual_machines.id"@, message) {
        Some(about(FailureKind::IdInUse, row.id))
    } else {
        None
    }
}

/// The conflict, if it is one, that the database reports with `message`
/// when it refuses `row`: another writer took what the row needs between
/// the look at the inventory and the write.
pub fn uniqueness_violation(message: &str, row: &VirtualMachine) -> (r: Option<Failure>)
    ensures
        r.deep_view() == violation_of(message@, row@),
{
    if !contains(message, "UNIQUE constraint failed") {
        None
    } else if contains(message, "virtual_machines.tap") {
        Some(Failure::about(FailureKind::TapInUse, row.tap.as_str()))
    } else if contains(message, "virtual_machines.mac_address") {
        Some(Failure::about(FailureKind::MacInUse, row.mac_address.as_str()))
    } else if contains(message, "virtual_machines.api_socket") {
        Some(Failure::about(FailureKind::ApiSocketInUse, row.api_socket.as_str()))
    } else if contains(message, "virtual_machines.project_dir") {
        match &row.project_dir {
            Some(dir) => Some(Failure::about(FailureKind::ProjectDirAlreadyBound, dir.as_str())),
            None => Some(Failure::about(FailureKind::ProjectDirAlreadyBound, "")),
        }
    } else if contains(message, "virtual_machines.name") {
        Some(Failure::about(FailureKind::NameInUse, row.name.as_str()))
    } else if contains(message, "virtual_machines.id") {
        Some(Failure::about(FailureKind::IdInUse, row.id.as_str()))
    } else {
        None
    }
}

} // verus!
