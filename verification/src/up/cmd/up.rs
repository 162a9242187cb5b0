//! `up`: who the microVM is, before anything is done on the host, and
//! the stages in which it is then brought up.
//!
//! A project file overrides the options; a microVM already on record for
//! the project directory, or else for the API socket, is taken up again;
//! and the tap device is chosen, or checked where it is asked for.  The
//! stages run from the network fabric and the image over the start of
//! the hypervisor to the row in the inventory, which is written last,
//! once the guest has its address.

use vstd::prelude::*;
use vstd::string::*;
use crate::argv::argv2;
use crate::command::{capture, HostCommand};
use crate::config::{FireConfig, FireConfigView};
use crate::error::{about, bare, lifted, Failure, FailureKind, FailureView};
use crate::process::{any_running, is_running};
use crate::script::{
    always, fails, provided, push_block, script0, steps1, Block, BlockView, Condition, Poll,
    PollView, Step, StepView,
};
use crate::state::entity::virtual_machine::{VirtualMachine, VirtualMachineView};
use crate::state::repo::virtual_machine::{
    all, conflict_of, consistent, create, created_row, distinct, find_by_api_socket,
    find_by_project_dir, found_by_api_socket, found_by_project_dir, position_of_id, update,
    updated_row, Inventory,
};
use crate::text::{
    decimal, is_prefix, join2, number, parse_u32, same, starts_with, trim_start_matches,
    u64_to_string, without_leading,
};
use crate::vm::types::{check_vcpu, options_of, vcpu_refusal, VmOptions, VmOptionsView};

verus! {

/// The host has KVM, or the workflow ends with `KvmUnavailable`.
pub open spec fn check_kvm_support_script() -> Seq<BlockView> {
    seq![
        provided(
            fails(capture("sh"@, seq!["-c"@, "lsmod | grep kvm"@], false)),
            seq![StepView::Abort { error: bare(FailureKind::KvmUnavailable) }],
        ),
    ]
}

pub fn check_kvm_support() -> (r: Vec<Block>)
    ensures
        r.deep_view() == check_kvm_support_script(),
{
    let mut script = script0();
    push_block(
        &mut script,
        Block::provided(
            Condition::fails(HostCommand::capture("sh", argv2("-c", "lsmod | grep kvm"), false)),
            steps1(Step::Abort { error: Failure::new(FailureKind::KvmUnavailable) }),
        ),
    );
    script
}

/// Waits until a hypervisor runs: it is looked for once a second, after
/// a pause each time, for as long as it takes.
pub open spec fn await_hypervisor_script() -> Seq<BlockView> {
    seq![
        always(
            seq![
                StepView::Await {
                    poll: PollView {
                        probe: any_running().probe,
                        expect: true,
                        pause_first: true,
                        interval_ms: 1000,
                        tries: None,
                        pause_last: false,
                        on_timeout: None,
                    },
                },
            ],
        ),
    ]
}

pub fn await_hypervisor() -> (r: Vec<Block>)
    ensures
        r.deep_view() == await_hypervisor_script(),
{
    let mut script = script0();
    push_block(
        &mut script,
        Block::always(
            steps1(
                Step::Await {
                    poll: Poll {
                        probe: is_running().probe,
                        expect: true,
                        pause_first: true,
                        interval_ms: 1000,
                        tries: None,
                        pause_last: false,
                        on_timeout: None,
                    },
                },
            ),
        ),
    );
    script
}

/// The tap device number `k`.
pub open spec fn tap_named(k: nat) -> Seq<char> {
    "tap"@ + decimal(k)
}

/// Some microVM has the tap device `tap`.
pub open spec fn tap_taken(rows: Seq<VirtualMachineView>, tap: Seq<char>) -> bool {
    exists|j: int| 0 <= j < rows.len() && rows[j].tap == tap
}

/// Among the first `n` microVMs, how many have a tap device whose name
/// begins with `tap`.
pub open spec fn tap_count(rows: Seq<VirtualMachineView>, n: int) -> nat
    decreases n,
{
    if n <= 0 {
        0
    } else if is_prefix("tap"@, rows[n - 1].tap) {
        tap_count(rows, n - 1) + 1
    } else {
        tap_count(rows, n - 1)
    }
}

/// The number after `n`, starting over at 0 after the largest.
pub open spec fn number_after(n: u32) -> u32 {
    if n == u32::MAX {
        0
    } else {
        (n + 1) as u32
    }
}

/// The tap device that is tried after `tap`: the one with the next
/// number, a name without a number counting as number 0.
pub open spec fn tap_after(tap: Seq<char>) -> Seq<char> {
    tap_named(
        number_after(
            match number(without_leading(tap, "tap"@)) {
                Some(n) => n,
                None => 0,
            },
        ) as nat,
    )
}

/// The first free tap device among `candidate` and at most `tries` that
/// are tried after it.
pub open spec fn free_tap_from(rows: Seq<VirtualMachineView>, candidate: Seq<char>, tries: nat) -> Option<
    Seq<char>,
>
    decreases tries,
{
    if !tap_taken(rows, candidate) {
        Some(candidate)
    } else if tries == 0 {
        None
    } else {
        free_tap_from(rows, tap_after(candidate), (tries - 1) as nat)
    }
}

/// The tap device for a new microVM: numbering starts at the count of
/// tap devices on record and goes up until a number is free.  There is
/// none only if as many candidates as there are microVMs, and one more,
/// are all taken.
pub open spec fn allocated_tap(rows: Seq<VirtualMachineView>) -> Option<Seq<char>> {
    free_tap_from(rows, tap_named(tap_count(rows, rows.len() as int)), rows.len())
}

/// Another microVM has the tap device `tap`: one with a different API
/// socket.
pub open spec fn tap_collides(
    rows: Seq<VirtualMachineView>,
    tap: Seq<char>,
    api_socket: Seq<char>,
) -> bool {
    exists|j: int| 0 <= j < rows.len() && rows[j].tap == tap && rows[j].api_socket != api_socket
}

/// The tap device that a microVM gets: a free one where none is asked
/// for; the one asked for unless another microVM has it, which fails
/// with `TapInUse`.
pub open spec fn resolved_tap(
    rows: Seq<VirtualMachineView>,
    tap: Seq<char>,
    api_socket: Seq<char>,
) -> Result<Seq<char>, FailureView> {
    if tap.len() == 0 {
        match allocated_tap(rows) {
            Some(t) => Ok(t),
            None => Err(about(FailureKind::TapInUse, tap)),
        }
    } else if tap_collides(rows, tap, api_socket) {
        Err(about(FailureKind::TapInUse, tap))
    } else {
        Ok(tap)
    }
}

fn taken(vms: &Vec<VirtualMachine>, tap: &str) -> (r: bool)
    ensures
        r == tap_taken(vms.deep_view(), tap@),
{
    let mut i: usize = 0;
    while i < vms.len()
        invariant
            i <= vms.len(),
            forall|j: int| 0 <= j < i ==> vms.deep_view()[j].tap != tap@,
        decreases vms.len() - i,
    {
        assert(vms.deep_view()[i as int] == vms[i as int]@);
        if same(vms[i].tap.as_str(), tap) {
            return true;
        }
        i += 1;
    }
    false
}

fn collides(vms: &Vec<VirtualMachine>, tap: &str, api_socket: &str) -> (r: bool)
    ensures
        r == tap_collides(vms.deep_view(), tap@, api_socket@),
{
    let mut i: usize = 0;
    while i < vms.len()
        invariant
            i <= vms.len(),
            forall|j: int|
                0 <= j < i ==> !(vms.deep_view()[j].tap == tap@ && vms.deep_view()[j].api_socket
                    != api_socket@),
        decreases vms.len() - i,
    {
        assert(vms.deep_view()[i as int] == vms[i as int]@);
        if same(vms[i].tap.as_str(), tap) && !same(vms[i].api_socket.as_str(), api_socket) {
            return true;
        }
        i += 1;
    }
    false
}

fn next_tap(tap: &str) -> (r: String)
    ensures
        r@ == tap_after(tap@),
{
    let digits = trim_start_matches(tap, "tap");
    let n: u32 = match parse_u32(digits.as_str()) {
        Some(n) => n,
        None => 0,
    };
    let next: u32 = if n == u32::MAX {
        0
    } else {
        n + 1
    };
    join2("tap", u64_to_string(next as u64).as_str())
}

/// A free tap device for a new microVM, if the search finds one.
pub fn allocate_tap(vms: &Vec<VirtualMachine>) -> (r: Option<String>)
    ensures
        r.deep_view() == allocated_tap(vms.deep_view()),
{
    let mut count: usize = 0;
    let mut i: usize = 0;
    while i < vms.len()
        invariant
            i <= vms.len(),
            count <= i,
            count == tap_count(vms.deep_view(), i as int),
        decreases vms.len() - i,
    {
        assert(vms.deep_view()[i as int] == vms[i as int]@);
        if starts_with(vms[i].tap.as_str(), "tap") {
            count += 1;
        }
        i += 1;
    }
    let mut candidate = join2("tap", u64_to_string(count as u64).as_str());
    let mut tries: usize = vms.len();
    loop
        invariant
            tries <= vms.len(),
            allocated_tap(vms.deep_view()) == free_tap_from(
                vms.deep_view(),
                candidate@,
                tries as nat,
            ),
        decreases tries,
    {
        if !taken(vms, candidate.as_str()) {
            return Some(candidate);
        }
        if tries == 0 {
            return None;
        }
        candidate = next_tap(candidate.as_str());
        tries -= 1;
    }
}

/// The tap device that a microVM with the API socket `api_socket` gets.
pub fn resolve_tap(vms: &Vec<VirtualMachine>, tap: &str, api_socket: &str) -> (r: Result<
    String,
    Failure,
>)
    ensures
        lifted(r) == resolved_tap(vms.deep_view(), tap@, api_socket@),
{
    if tap.unicode_len() == 0 {
        match allocate_tap(vms) {
            Some(t) => Ok(t),
            None => Err(Failure::about(FailureKind::TapInUse, tap)),
        }
    } else if collides(vms, tap, api_socket) {
        Err(Failure::about(FailureKind::TapInUse, tap))
    } else {
        Ok(String::from_str(tap))
    }
}

/// How often a tap device is chosen again after the one chosen was lost
/// to another microVM before it could be recorded.
pub const TAP_RETRIES: u32 = 3;

/// Whether `up` is gone through again after it failed: it is, when the tap
/// device was left to be chosen, was taken by another microVM in the
/// meantime, and has not been chosen again `TAP_RETRIES` times yet.
pub open spec fn chosen_again(requested_tap: Seq<char>, failure: FailureView, attempts: u32) -> bool {
    requested_tap.len() == 0 && failure.kind == FailureKind::TapInUse && attempts < TAP_RETRIES
}

/// Decides whether `up` is gone through again after `failure`, the tap
/// device having been chosen `attempts` times over already.
pub fn retry_tap_selection(requested_tap: &str, failure: &Failure, attempts: u32) -> (r: bool)
    ensures
        r == chosen_again(requested_tap@, failure@, attempts),
{
    requested_tap.unicode_len() == 0 && failure.kind == FailureKind::TapInUse && attempts
        < TAP_RETRIES
}

/// Who the microVM is: the options to go by, and the id of the row to
/// take up again, if there is one.
#[derive(Clone, Debug, PartialEq, Eq)]
pub struct Identity {
    pub options: VmOptions,
    pub vm_id: Option<String>,
}

pub struct IdentityView {
    pub options: VmOptionsView,
    pub vm_id: Option<Seq<char>>,
}

impl View for Identity {
    type V = IdentityView;

    open spec fn view(&self) -> IdentityView {
        IdentityView { options: self.options@, vm_id: self.vm_id.deep_view() }
    }
}

impl DeepView for Identity {
    type V = IdentityView;

    open spec fn deep_view(&self) -> IdentityView {
        self@
    }
}

/// The options to start from: those of the project file, if there is
/// one, else the caller's.
pub open spec fn declared_options(
    options: VmOptionsView,
    config: Option<FireConfigView>,
    cpus: u16,
) -> VmOptionsView {
    match config {
        Some(c) => options_of(c, cpus),
        None => options,
    }
}

/// The microVM that is taken up again: the one on record for the project
/// directory, where there is a project file; else the one on record for
/// the API socket.
pub open spec fn prior_vm(
    rows: Seq<VirtualMachineView>,
    api_socket: Seq<char>,
    project_dir: Option<Seq<char>>,
) -> Option<VirtualMachineView> {
    match project_dir {
        Some(dir) => match found_by_project_dir(rows, dir) {
            Some(vm) => Some(vm),
            None => found_by_api_socket(rows, api_socket),
        },
        None => found_by_api_socket(rows, api_socket),
    }
}

/// The API socket to go by: that of the project's microVM, where a
/// project file and such a microVM exist; else the one asked for.
pub open spec fn resolved_socket(
    rows: Seq<VirtualMachineView>,
    api_socket: Seq<char>,
    project_dir: Option<Seq<char>>,
) -> Seq<char> {
    match project_dir {
        Some(dir) => match found_by_project_dir(rows, dir) {
            Some(vm) => vm.api_socket,
            None => api_socket,
        },
        None => api_socket,
    }
}

/// The tap device to go by: the one asked for; where none is asked for
/// and a microVM is taken up again, the one on its row.
pub open spec fn wanted_tap(tap: Seq<char>, prior: Option<VirtualMachineView>) -> Seq<char> {
    match prior {
        Some(vm) => if tap.len() == 0 {
            vm.tap
        } else {
            tap
        },
        None => tap,
    }
}

/// The MAC address to go by: the one on the row of a microVM that is
/// taken up again, where it has one; else the one asked for.
pub open spec fn kept_mac(mac_address: Seq<char>, prior: Option<VirtualMachineView>) -> Seq<char> {
    match prior {
        Some(vm) => if vm.mac_address.len() == 0 {
            mac_address
        } else {
            vm.mac_address
        },
        None => mac_address,
    }
}

/// Who the microVM is; `ConfigInvalid` where it asks for no processor or
/// for more than the host has, or `TapInUse` where the tap device asked
/// for belongs to another microVM.  A microVM that is taken up again
/// keeps the tap device and the MAC address on its row, unless another
/// tap device is asked for.
pub open spec fn identity_of(
    options: VmOptionsView,
    config: Option<FireConfigView>,
    cpus: u16,
    rows: Seq<VirtualMachineView>,
    project_dir: Option<Seq<char>>,
) -> Result<IdentityView, FailureView> {
    let declared = declared_options(options, config, cpus);
    let api_socket = resolved_socket(rows, declared.api_socket, project_dir);
    let prior = prior_vm(rows, declared.api_socket, project_dir);
    match vcpu_refusal(declared.vcpu, cpus) {
        Some(e) => Err(e),
        None => match resolved_tap(rows, wanted_tap(declared.tap, prior), api_socket) {
            Err(e) => Err(e),
            Ok(tap) => Ok(
            IdentityView {
                options: VmOptionsView {
                    api_socket,
                    tap,
                    mac_address: kept_mac(declared.mac_address, prior),
                    ..declared
                },
                vm_id: match prior {
                    Some(vm) => Some(vm.id),
                    None => None,
                },
            },
        ),
        },
    }
}

/// Settles who the microVM is.  `config` is the project file of the
/// working directory and `project_dir` that directory, where there is a
/// project file; `cpus` is the host's processor count.
pub fn up(
    options: VmOptions,
    config: Option<FireConfig>,
    cpus: u16,
    inventory: &Inventory,
    project_dir: &Option<String>,
) -> (r: Result<Identity, Failure>)
    ensures
        lifted(r) == identity_of(
            options@,
            config.deep_view(),
            cpus,
            inventory@,
            project_dir.deep_view(),
        ),
{
    let mut options = match config {
        Some(c) => VmOptions::from_config(c, cpus),
        None => options,
    };
    let ghost declared = options@;
    match check_vcpu(options.vcpu, cpus) {
        Err(e) => {
            return Err(e);
        },
        Ok(()) => {},
    }
    let mut prior = find_by_api_socket(inventory, options.api_socket.as_str());
    match project_dir {
        Some(dir) => {
            match find_by_project_dir(inventory, dir.as_str()) {
                Some(vm) => {
                    options.api_socket = vm.api_socket.clone();
                    prior = Some(vm);
                },
                None => {},
            }
        },
        None => {},
    }
    assert(prior.deep_view() == prior_vm(inventory@, declared.api_socket, project_dir.deep_view()));
    let mut vm_id: Option<String> = None;
    match prior {
        Some(vm) => {
            if options.tap.as_str().unicode_len() == 0 {
                options.tap = vm.tap;
            }
            if vm.mac_address.as_str().unicode_len() != 0 {
                options.mac_address = vm.mac_address;
            }
            vm_id = Some(vm.id);
        },
        None => {},
    }
    let vms = all(inventory);
    match resolve_tap(&vms, options.tap.as_str(), options.api_socket.as_str()) {
        Err(e) => Err(e),
        Ok(tap) => {
            options.tap = tap;
            Ok(Identity { options, vm_id })
        },
    }
}

/// The stages of bringing up a microVM once it is settled who it is, in
/// the order in which they are gone through.
#[derive(Clone, Copy, Debug, PartialEq, Eq, Structural)]
pub enum Stage {
    /// The network fabric is set up: links, forwarding and NAT, and the
    /// host's broker, DNS plane and DHCP server.
    Fabric,
    /// The kernel and the root filesystem image are assembled.
    Assemble,
    /// The hypervisor is started.
    Spawn,
    /// The hypervisor is waited for.
    AwaitHypervisor,
    /// The hypervisor is configured, the guest is started and its
    /// address is learned.
    Setup,
    /// The row is written.
    Record,
    /// The guest joins the tailnet, where that is asked for.
    Tailnet,
    /// Nothing is left to do.
    Done,
}

/// The place of a stage in the order.
pub open spec fn stage_number(stage: Stage) -> nat {
    match stage {
        Stage::Fabric => 0,
        Stage::Assemble => 1,
        Stage::Spawn => 2,
        Stage::AwaitHypervisor => 3,
        Stage::Setup => 4,
        Stage::Record => 5,
        Stage::Tailnet => 6,
        Stage::Done => 7,
    }
}

/// The stage that follows a stage that has succeeded.
pub open spec fn stage_after(stage: Stage) -> Stage {
    match stage {
        Stage::Fabric => Stage::Assemble,
        Stage::Assemble => Stage::Spawn,
        Stage::Spawn => Stage::AwaitHypervisor,
        Stage::AwaitHypervisor => Stage::Setup,
        Stage::Setup => Stage::Record,
        Stage::Record => Stage::Tailnet,
        Stage::Tailnet => Stage::Done,
        Stage::Done => Stage::Done,
    }
}

/// The stage that bringing up a microVM begins with.
pub fn first_stage() -> (r: Stage)
    ensures
        r == Stage::Fabric,
{
    Stage::Fabric
}

/// The stage to go through once `stage` has succeeded.
pub fn next_stage(stage: Stage) -> (r: Stage)
    ensures
        r == stage_after(stage),
{
    match stage {
        Stage::Fabric => Stage::Assemble,
        Stage::Assemble => Stage::Spawn,
        Stage::Spawn => Stage::AwaitHypervisor,
        Stage::AwaitHypervisor => Stage::Setup,
        Stage::Setup => Stage::Record,
        Stage::Record => Stage::Tailnet,
        Stage::Tailnet => Stage::Done,
        Stage::Done => Stage::Done,
    }
}

/// What `record` leaves of the inventory `rows` and answers: the row with
/// the id `vm_id` replaced as `update` does it, where the microVM is
/// taken up again; else a row added under the id `new_id` as `create`
/// does it.  A conflict with another row is the answer, and nothing
/// changes.
pub open spec fn recorded(
    rows: Seq<VirtualMachineView>,
    vm_id: Option<Seq<char>>,
    new_id: Seq<char>,
    row: VirtualMachineView,
    project_dir: Option<Seq<char>>,
    now: i64,
) -> (Seq<VirtualMachineView>, Result<Seq<char>, FailureView>) {
    match vm_id {
        Some(id) => {
            let k = position_of_id(rows, id, 0);
            if 0 <= k < rows.len() {
                match conflict_of(rows, updated_row(rows[k], row, now), k) {
                    Some(e) => (rows, Err(e)),
                    None => (rows.update(k, updated_row(rows[k], row, now)), Ok(id)),
                }
            } else {
                (rows, Ok(id))
            }
        },
        None => match conflict_of(rows, created_row(row, new_id, project_dir, now), -1) {
            Some(e) => (rows, Err(e)),
            None => (rows.push(created_row(row, new_id, project_dir, now)), Ok(new_id)),
        },
    }
}

/// Writes the row of a microVM that is up, and names the row's id: over
/// the row that it was taken up from, where there is one; else as a new
/// row under a new id.
pub fn record(
    inventory: &mut Inventory,
    vm_id: &Option<String>,
    row: VirtualMachine,
    project_dir: Option<String>,
    now: i64,
) -> (r: Result<String, Failure>)
    requires
        old(inventory).wf(),
    ensures
        final(inventory).wf(),
        exists|new_id: Seq<char>|
            (final(inventory)@, lifted(r)) == #[trigger] recorded(
                old(inventory)@,
                vm_id.deep_view(),
                new_id,
                row@,
                project_dir.deep_view(),
                now,
            ),
{
    let ghost rows = inventory@;
    match vm_id {
        Some(id) => {
            let outcome = match update(inventory, id.as_str(), row, now) {
                Ok(()) => Ok(id.clone()),
                Err(e) => Err(e),
            };
            assert((inventory@, lifted(outcome)) == recorded(
                rows,
                vm_id.deep_view(),
                Seq::empty(),
                row@,
                project_dir.deep_view(),
                now,
            ));
            outcome
        },
        None => {
            let outcome = create(inventory, row, project_dir, now);
            proof {
                let id = if outcome is Ok {
                    outcome->Ok_0@
                } else {
                    choose|id: Seq<char>|
                        conflict_of(
                            rows,
                            #[trigger] created_row(row@, id, project_dir.deep_view(), now),
                            -1,
                        ) == Some(outcome->Err_0@)
                };
                assert((inventory@, lifted(outcome)) == recorded(
                    rows,
                    vm_id.deep_view(),
                    id,
                    row@,
                    project_dir.deep_view(),
                    now,
                ));
            }
            outcome
        },
    }
}

/// One microVM to record: the id of the row it was taken up from, if
/// any; the id drawn for it otherwise; its row, its project directory and
/// the time.
pub struct Write {
    pub vm_id: Option<Seq<char>>,
    pub new_id: Seq<char>,
    pub row: VirtualMachineView,
    pub project_dir: Option<Seq<char>>,
    pub now: i64,
}

/// The inventory after the writes from `from` on, each recorded or
/// refused as `record` does it.
pub open spec fn recorded_all(rows: Seq<VirtualMachineView>, writes: Seq<Write>, from: int) -> Seq<
    VirtualMachineView,
>
    decreases writes.len() - from,
{
    if from < 0 || from >= writes.len() {
        rows
    } else {
        let w = writes[from];
        recorded_all(
            recorded(rows, w.vm_id, w.new_id, w.row, w.project_dir, w.now).0,
            writes,
            from + 1,
        )
    }
}

/// Recording a microVM leaves the inventory in order: the row is written
/// only where it shares nothing with another row.
pub proof fn lemma_record_keeps_rows_distinct(rows: Seq<VirtualMachineView>, w: Write)
    requires
        consistent(rows),
    ensures
        consistent(recorded(rows, w.vm_id, w.new_id, w.row, w.project_dir, w.now).0),
{
    let after = recorded(rows, w.vm_id, w.new_id, w.row, w.project_dir, w.now).0;
    match w.vm_id {
        Some(id) => {
            let k = position_of_id(rows, id, 0);
            if 0 <= k < rows.len() {
                let row = updated_row(rows[k], w.row, w.now);
                if conflict_of(rows, row, k) is None {
                    assert forall|i: int, j: int| 0 <= i < j < after.len() implies distinct(
                        #[trigger] after[i],
                        #[trigger] after[j],
                    ) by {
                        if i != k && j != k {
                            assert(distinct(rows[i], rows[j]));
                        }
                    }
                }
            }
        },
        None => {
            let row = created_row(w.row, w.new_id, w.project_dir, w.now);
            if conflict_of(rows, row, -1) is None {
                assert forall|i: int, j: int| 0 <= i < j < after.len() implies distinct(
                    #[trigger] after[i],
                    #[trigger] after[j],
                ) by {
                    if j < rows.len() {
                        assert(distinct(rows[i], rows[j]));
                    }
                }
            }
        },
    }
}

/// In whatever order microVMs that are brought up at the same time come
/// to be recorded, and whatever they ask for, the rows that result are
/// pairwise distinct in tap device, MAC address and API socket: a write
/// that would share one of them with a row is refused and changes
/// nothing.
pub proof fn lemma_writes_in_any_order_keep_rows_distinct(
    rows: Seq<VirtualMachineView>,
    writes: Seq<Write>,
    from: int,
)
    requires
        consistent(rows),
    ensures
        consistent(recorded_all(rows, writes, from)),
    decreases writes.len() - from,
{
    if 0 <= from < writes.len() {
        let w = writes[from];
        lemma_record_keeps_rows_distinct(rows, w);
        lemma_writes_in_any_order_keep_rows_distinct(
            recorded(rows, w.vm_id, w.new_id, w.row, w.project_dir, w.now).0,
            writes,
            from + 1,
        );
    }
}

/// The stages follow one another in their order, one at a time, and end
/// with the last: so the hypervisor is started only once the fabric is
/// set up and the image assembled, it is configured after that, and the
/// row is written only once the guest's address is known.
pub proof fn lemma_stages_are_in_order(stage: Stage)
    ensures
        stage != Stage::Done ==> stage_number(stage_after(stage)) == stage_number(stage) + 1,
        stage_after(Stage::Done) == Stage::Done,
        stage_number(Stage::Fabric) < stage_number(Stage::Spawn),
        stage_number(Stage::Assemble) < stage_number(Stage::Spawn),
        stage_number(Stage::Spawn) < stage_number(Stage::Setup) < stage_number(Stage::Record),
{
}

/// The tap device that is handed out is free.
pub proof fn lemma_allocated_tap_is_free(rows: Seq<VirtualMachineView>)
    ensures
        allocated_tap(rows) matches Some(tap) ==> !tap_taken(rows, tap),
{
    lemma_free_tap_is_free(rows, tap_named(tap_count(rows, rows.len() as int)), rows.len());
}

proof fn lemma_free_tap_is_free(rows: Seq<VirtualMachineView>, candidate: Seq<char>, tries: nat)
    ensures
        free_tap_from(rows, candidate, tries) matches Some(tap) ==> !tap_taken(rows, tap),
    decreases tries,
{
    if tap_taken(rows, candidate) && tries > 0 {
        lemma_free_tap_is_free(rows, tap_after(candidate), (tries - 1) as nat);
    }
}

/// Taking `tap` off the front of the tap device number `k` leaves the
/// number.
proof fn lemma_tap_number(k: nat)
    ensures
        without_leading(tap_named(k), "tap"@) == decimal(k),
{
    reveal_strlit("tap");
    crate::text::lemma_decimal_reads_back(k);
    let name = tap_named(k);
    let digits = decimal(k);
    assert(name.len() == 3 + digits.len());
    assert(name.subrange(0, 3) =~= "tap"@);
    assert(crate::text::matches_at(name, 0, "tap"@));
    assert(!crate::text::matches_at(name, 3, "tap"@)) by {
        if crate::text::matches_at(name, 3, "tap"@) {
            assert(name.subrange(3, 6)[0] == 't');
            assert(name[3] == digits[0]);
            assert(crate::text::is_digit(digits[0]));
        }
    }
    assert(crate::text::skip_copies(name, "tap"@, 3) == 3);
    assert(crate::text::skip_copies(name, "tap"@, 0) == 3);
    assert(name.subrange(3, name.len() as int) =~= digits);
}

/// After the tap device number `k` comes number `k + 1`.
proof fn lemma_tap_after(k: u32)
    requires
        k < u32::MAX,
    ensures
        tap_after(tap_named(k as nat)) == tap_named((k + 1) as nat),
{
    lemma_tap_number(k as nat);
    crate::text::lemma_number_of_decimal(k);
}

/// Different numbers name different tap devices.
proof fn lemma_tap_names_differ(a: u32, b: u32)
    requires
        a != b,
    ensures
        tap_named(a as nat) != tap_named(b as nat),
{
    lemma_tap_number(a as nat);
    lemma_tap_number(b as nat);
    crate::text::lemma_number_of_decimal(a);
    crate::text::lemma_number_of_decimal(b);
}

/// A search that finds nothing has found every candidate taken.
proof fn lemma_search_exhausted(rows: Seq<VirtualMachineView>, k: u32, tries: nat, j: nat)
    requires
        k + tries < u32::MAX,
        free_tap_from(rows, tap_named(k as nat), tries) is None,
        j <= tries,
    ensures
        tap_taken(rows, tap_named((k + j) as nat)),
    decreases tries,
{
    if j > 0 {
        lemma_tap_after(k);
        lemma_search_exhausted(rows, (k + 1) as u32, (tries - 1) as nat, (j - 1) as nat);
    }
}

/// Names that are all taken, no two of them the same, are no more than
/// there are rows.
proof fn lemma_taken_names_are_few(rows: Seq<VirtualMachineView>, names: Seq<Seq<char>>)
    requires
        forall|a: int, b: int| 0 <= a < b < names.len() ==> names[a] != names[b],
        forall|a: int| 0 <= a < names.len() ==> tap_taken(rows, #[trigger] names[a]),
    ensures
        names.len() <= rows.len(),
    decreases rows.len(),
{
    if names.len() == 0 {
    } else if rows.len() == 0 {
        assert(tap_taken(rows, names[0]));
    } else {
        let last = rows.last().tap;
        let fewer = rows.drop_last();
        // Leave out the name that the last row has, or, if no name is its,
        // any one name.
        let out = if exists|a: int| 0 <= a < names.len() && names[a] == last {
            choose|a: int| 0 <= a < names.len() && names[a] == last
        } else {
            0
        };
        let rest = names.remove(out);
        assert forall|a: int| 0 <= a < rest.len() implies tap_taken(fewer, #[trigger] rest[a]) by {
            let index = if a < out {
                a
            } else {
                a + 1
            };
            assert(rest[a] == names[index]);
            assert(tap_taken(rows, names[index]));
            let i = choose|i: int| 0 <= i < rows.len() && rows[i].tap == names[index];
            if i == rows.len() - 1 {
                // Then the name is the last row's, and so is the one left out.
                assert(names[index] == last);
                assert(names[out] == last);
                if index < out {
                    assert(names[index] != names[out]);
                } else {
                    assert(names[out] != names[index]);
                }
            }
            assert(fewer[i] == rows[i]);
        }
        assert forall|a: int, b: int| 0 <= a < b < rest.len() implies rest[a] != rest[b] by {
            let oa = if a < out {
                a
            } else {
                a + 1
            };
            let ob = if b < out {
                b
            } else {
                b + 1
            };
            assert(rest[a] == names[oa] && rest[b] == names[ob]);
            assert(names[oa] != names[ob]);
        }
        lemma_taken_names_are_few(fewer, rest);
    }
}

/// The search stops at the first candidate that is free: every
/// candidate before the one it finds is taken.
proof fn lemma_search_finds_first(rows: Seq<VirtualMachineView>, k: u32, tries: nat)
    requires
        k + tries < u32::MAX,
        free_tap_from(rows, tap_named(k as nat), tries) is Some,
    ensures
        exists|j: nat|
            j <= tries && free_tap_from(rows, tap_named(k as nat), tries) == Some(
                #[trigger] tap_named((k + j) as nat),
            ) && forall|i: nat| i < j ==> tap_taken(rows, #[trigger] tap_named((k + i) as nat)),
    decreases tries,
{
    if !tap_taken(rows, tap_named(k as nat)) {
        assert(free_tap_from(rows, tap_named(k as nat), tries) == Some(
            tap_named((k + 0nat) as nat),
        ));
    } else {
        lemma_tap_after(k);
        lemma_search_finds_first(rows, (k + 1) as u32, (tries - 1) as nat);
        let j = choose|j: nat|
            j <= tries - 1 && free_tap_from(rows, tap_named((k + 1) as nat), (tries - 1) as nat)
                == Some(#[trigger] tap_named(((k + 1) + j) as nat)) && forall|i: nat|
                i < j ==> tap_taken(rows, #[trigger] tap_named(((k + 1) + i) as nat));
        assert(free_tap_from(rows, tap_named(k as nat), tries) == Some(
            tap_named((k + (j + 1)) as nat),
        ));
        assert forall|i: nat| i < j + 1 implies tap_taken(
            rows,
            #[trigger] tap_named((k + i) as nat),
        ) by {
            if i > 0 {
                assert(tap_taken(rows, tap_named(((k + 1) + (i - 1) as nat) as nat)));
            }
        }
    }
}

proof fn lemma_tap_count_bound(rows: Seq<VirtualMachineView>, n: int)
    requires
        0 <= n <= rows.len(),
    ensures
        tap_count(rows, n) <= n,
    decreases n,
{
    if n > 0 {
        lemma_tap_count_bound(rows, n - 1);
    }
}

/// The search for a free tap device finds one, and it is the first free
/// number from the count of tap devices on: among as many candidates as
/// there are microVMs, and one more, not all can be taken.  This holds as
/// long as the numbers tried stay below the largest, which they do with
/// fewer than two thousand million microVMs on record.
pub proof fn lemma_allocation_succeeds(rows: Seq<VirtualMachineView>)
    requires
        rows.len() < 0x7fff_ffff,
    ensures
        allocated_tap(rows) is Some,
        !tap_taken(rows, allocated_tap(rows)->0),
        exists|j: nat|
            j <= rows.len() && allocated_tap(rows) == Some(
                #[trigger] tap_named(tap_count(rows, rows.len() as int) + j),
            ) && forall|i: nat|
                i < j ==> tap_taken(
                    rows,
                    #[trigger] tap_named(tap_count(rows, rows.len() as int) + i),
                ),
{
    let n = rows.len();
    lemma_tap_count_bound(rows, n as int);
    let count = tap_count(rows, n as int);
    let first = count as u32;
    lemma_allocated_tap_is_free(rows);
    if allocated_tap(rows) is None {
        let names = Seq::new(n + 1, |j: int| tap_named((first + j) as nat));
        assert forall|a: int| 0 <= a < names.len() implies tap_taken(rows, #[trigger] names[a]) by {
            lemma_search_exhausted(rows, first, n, a as nat);
        }
        assert forall|a: int, b: int| 0 <= a < b < names.len() implies names[a] != names[b] by {
            lemma_tap_names_differ((first + a) as u32, (first + b) as u32);
        }
        lemma_taken_names_are_few(rows, names);
    }
    lemma_search_finds_first(rows, first, n);
    let j = choose|j: nat|
        j <= n && free_tap_from(rows, tap_named(first as nat), n) == Some(
            #[trigger] tap_named((first + j) as nat),
        ) && forall|i: nat| i < j ==> tap_taken(rows, #[trigger] tap_named((first + i) as nat));
    assert(allocated_tap(rows) == Some(tap_named(count + j)));
    assert forall|i: nat| i < j implies tap_taken(rows, #[trigger] tap_named(count + i)) by {
        assert(tap_taken(rows, tap_named((first + i) as nat)));
    }
}

proof fn lemma_no_tap_counted(rows: Seq<VirtualMachineView>, n: int)
    requires
        0 <= n <= rows.len(),
        tap_count(rows, n) == 0,
    ensures
        forall|j: int| 0 <= j < n ==> !is_prefix("tap"@, #[trigger] rows[j].tap),
    decreases n,
{
    if n > 0 {
        lemma_no_tap_counted(rows, n - 1);
    }
}

/// With no tap device on record, the first microVM gets `tap0`.
pub proof fn lemma_first_tap_is_tap0(rows: Seq<VirtualMachineView>)
    requires
        tap_count(rows, rows.len() as int) == 0,
    ensures
        allocated_tap(rows) == Some("tap0"@),
{
    reveal_strlit("tap");
    reveal_strlit("tap0");
    lemma_no_tap_counted(rows, rows.len() as int);
    assert(decimal(0) =~= seq!['0']);
    assert(tap_named(0) =~= "tap0"@);
    assert(is_prefix("tap"@, "tap0"@)) by {
        assert("tap0"@.subrange(0, 3) =~= "tap"@);
    }
    assert(!tap_taken(rows, "tap0"@));
}

/// A microVM that is taken up again with the tap device and API socket on
/// its row keeps its tap device: in an inventory that is in order, no
/// other microVM has it.
pub proof fn lemma_restart_keeps_tap(rows: Seq<VirtualMachineView>, i: int)
    requires
        consistent(rows),
        0 <= i < rows.len(),
        rows[i].tap.len() > 0,
    ensures
        resolved_tap(rows, rows[i].tap, rows[i].api_socket) == Ok::<Seq<char>, FailureView>(
            rows[i].tap,
        ),
{
    assert forall|j: int| 0 <= j < rows.len() && rows[j].tap == rows[i].tap implies rows[j].api_socket
        == rows[i].api_socket by {
        if j < i {
            assert(distinct(rows[j], rows[i]));
        } else if i < j {
            assert(distinct(rows[i], rows[j]));
        }
    }
}

proof fn lemma_socket_found(rows: Seq<VirtualMachineView>, i: int, from: int)
    requires
        consistent(rows),
        0 <= from <= i < rows.len(),
    ensures
        crate::state::repo::virtual_machine::position_of_socket(rows, rows[i].api_socket, from)
            == i,
    decreases i - from,
{
    if from < i {
        assert(distinct(rows[from], rows[i]));
        lemma_socket_found(rows, i, from + 1);
    }
}

/// The row that is found by an API socket has that socket.
proof fn lemma_found_has_socket(rows: Seq<VirtualMachineView>, api_socket: Seq<char>, from: int)
    requires
        0 <= from,
    ensures
        from <= crate::state::repo::virtual_machine::position_of_socket(rows, api_socket, from),
        crate::state::repo::virtual_machine::position_of_socket(rows, api_socket, from)
            < rows.len() ==> rows[crate::state::repo::virtual_machine::position_of_socket(
            rows,
            api_socket,
            from,
        )].api_socket == api_socket,
    decreases rows.len() - from,
{
    if from < rows.len() && rows[from].api_socket != api_socket {
        lemma_found_has_socket(rows, api_socket, from + 1);
    }
}

/// A microVM that is taken up again is the same microVM: in an inventory
/// that is in order, whatever is asked for within what the host can give
/// and whether by project directory or by API socket the row was found,
/// `up` settles on that row's id, its API socket and its MAC address,
/// and on its tap device unless another one is asked for.
pub proof fn lemma_restart_preserves_identity(
    rows: Seq<VirtualMachineView>,
    i: int,
    options: VmOptionsView,
    config: Option<FireConfigView>,
    cpus: u16,
    project_dir: Option<Seq<char>>,
)
    requires
        consistent(rows),
        0 <= i < rows.len(),
        rows[i].tap.len() > 0,
        rows[i].mac_address.len() > 0,
        1 <= declared_options(options, config, cpus).vcpu <= cpus,
        prior_vm(rows, declared_options(options, config, cpus).api_socket, project_dir) == Some(
            rows[i],
        ),
        declared_options(options, config, cpus).tap.len() == 0 || declared_options(
            options,
            config,
            cpus,
        ).tap == rows[i].tap,
    ensures
        identity_of(options, config, cpus, rows, project_dir) matches Ok(identity) && identity.vm_id
            == Some(rows[i].id) && identity.options.tap == rows[i].tap
            && identity.options.mac_address == rows[i].mac_address && identity.options.api_socket
            == rows[i].api_socket,
{
    let declared = declared_options(options, config, cpus);
    lemma_restart_keeps_tap(rows, i);
    lemma_found_has_socket(rows, declared.api_socket, 0);
}

/// The row that a microVM is taken up from is the one on record for its
/// API socket, outside a project directory; and the one on record for the
/// project directory, inside one.
pub proof fn lemma_prior_is_the_row(rows: Seq<VirtualMachineView>, i: int, api_socket: Seq<char>)
    requires
        consistent(rows),
        0 <= i < rows.len(),
    ensures
        prior_vm(rows, rows[i].api_socket, None) == Some(rows[i]),
        rows[i].project_dir is Some ==> prior_vm(rows, api_socket, rows[i].project_dir) == Some(
            rows[i],
        ),
{
    lemma_socket_found(rows, i, 0);
    if rows[i].project_dir is Some {
        lemma_project_found(rows, i, 0);
    }
}

proof fn lemma_project_found(rows: Seq<VirtualMachineView>, i: int, from: int)
    requires
        consistent(rows),
        0 <= from <= i < rows.len(),
        rows[i].project_dir is Some,
    ensures
        crate::state::repo::virtual_machine::position_of_project(
            rows,
            rows[i].project_dir->0,
            from,
        ) == i,
    decreases i - from,
{
    if from < i {
        assert(distinct(rows[from], rows[i]));
        lemma_project_found(rows, i, from + 1);
    }
}

/// Written over its row, a microVM that was taken up again with its own
/// tap device and MAC address, as `up` settles them, keeps id, name, tap
/// device and MAC address.
pub proof fn lemma_update_keeps_identity(
    old_row: VirtualMachineView,
    vm: VirtualMachineView,
    now: i64,
)
    requires
        vm.tap == old_row.tap,
        vm.mac_address == old_row.mac_address,
    ensures
        updated_row(old_row, vm, now).id == old_row.id,
        updated_row(old_row, vm, now).name == old_row.name,
        updated_row(old_row, vm, now).tap == old_row.tap,
        updated_row(old_row, vm, now).mac_address == old_row.mac_address,
{
}

} // verus!
