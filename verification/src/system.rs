//! The snapshot of the machine and the refresh engine that brings it up to
//! date from the samples that a platform took.

use crate::disk::{disk_views, disks_of, get_disks, Disk, RawDisk};
use crate::metrics::{
    global_cpu_usage, lemma_mean_usage_bounded, mean_usage, CpuBasis, CpuTicks, FULL_USAGE,
};
use crate::process::{
    fresh_record, record_after, same_process, updated_record, Pid, Process, RawProcess,
};
use crate::processor::{
    decimal, decimal_string, first_core_record, lemma_global_usage_within_bounds, no_ticks,
    refreshed_record, usages_of, Processor, ProcessorData, ProcessorView,
};
use crate::users::{is_users_list, users_list, RawUser, User};
use crate::util::{string_without_nuls, text_without_nuls};
use std::collections::HashMap;
use vstd::prelude::*;

verus! {

broadcast use vstd::std_specs::hash::group_hash_axioms;

/// Which parts of the snapshot a refresh brings up to date.
#[derive(Clone, Copy, Debug, PartialEq, Eq, Structural)]
pub struct RefreshKind {
    pub processes: bool,
    pub cpu: bool,
    pub disks: bool,
    pub memory: bool,
    pub users: bool,
    pub components: bool,
}

/// The processes of the machine as sampled in one pass, with what their
/// usage is measured against.
#[derive(Debug)]
pub struct ProcessSample {
    pub basis: CpuBasis,
    pub processes: Vec<RawProcess>,
}

/// The memory figures of the machine at one instant, in bytes.
#[derive(Clone, Copy, Debug, PartialEq, Eq, Structural)]
pub struct MemorySample {
    pub total: u64,
    pub free: u64,
}

/// What a platform sampled for one refresh. A part that was not asked for,
/// that the platform does not support or that it failed to read is `None`.
#[derive(Debug)]
pub struct PlatformSample {
    pub processes: Option<ProcessSample>,
    pub cpu: Option<ProcessorData>,
    pub disks: Option<Vec<RawDisk>>,
    pub users: Option<Vec<RawUser>>,
    pub memory: Option<MemorySample>,
}

/// The snapshot of one machine. It owns every record in it, and changes
/// only by a refresh.
#[derive(Debug)]
pub struct System {
    processes: HashMap<Pid, Process>,
    global_processor: Processor,
    processors: Vec<Processor>,
    disks: Vec<Disk>,
    users: Vec<User>,
    mem_total: u64,
    mem_free: u64,
    boot_time: u64,
}

/// What a `System` holds.
pub ghost struct SystemView {
    pub processes: Map<Pid, Process>,
    pub global_processor: ProcessorView,
    pub processors: Seq<Processor>,
    pub disks: Seq<Disk>,
    pub users: Seq<User>,
    pub mem_total: u64,
    pub mem_free: u64,
    pub boot_time: u64,
}

impl View for System {
    type V = SystemView;

    closed spec fn view(&self) -> SystemView {
        SystemView {
            processes: self.processes@,
            global_processor: self.global_processor@,
            processors: self.processors@,
            disks: self.disks@,
            users: self.users@,
            mem_total: self.mem_total,
            mem_free: self.mem_free,
            boot_time: self.boot_time,
        }
    }
}

/// Whether the usage of each core of a list lies within 0 % and 100 %.
pub open spec fn cores_within_bounds(cores: Seq<Processor>) -> bool {
    forall|i: int| 0 <= i < cores.len() ==> (#[trigger] cores[i])@.cpu_usage <= FULL_USAGE
}

/// Whether the usage of each process of a map lies within 0 % and 100 %.
pub open spec fn records_within_bounds(records: Map<Pid, Process>) -> bool {
    forall|pid: Pid| #[trigger] records.contains_key(pid) ==> records[pid]@.cpu <= FULL_USAGE
}

/// Whether every usage that a snapshot holds lies within 0 % and 100 %:
/// that of the machine, of each core and of each process. Every snapshot
/// does, whatever was sampled.
pub open spec fn usages_within_bounds(view: SystemView) -> bool {
    &&& view.global_processor.cpu_usage <= FULL_USAGE
    &&& cores_within_bounds(view.processors)
    &&& records_within_bounds(view.processes)
}

/// Whether a process with this pid stands in the sample at or after `from`.
pub open spec fn observed_from(sample: Seq<RawProcess>, from: int, pid: Pid) -> bool {
    exists|i: int| from <= i < sample.len() && (#[trigger] sample[i]).pid == pid
}

/// Whether a process with this pid stands in the sample.
pub open spec fn observed(sample: Seq<RawProcess>, pid: Pid) -> bool {
    observed_from(sample, 0, pid)
}

/// Whether entry `i` is the last entry of the sample with its pid. In a
/// sample that lists each pid once, every entry is.
pub open spec fn last_of_pid(sample: Seq<RawProcess>, i: int) -> bool {
    &&& 0 <= i < sample.len()
    &&& forall|j: int| i < j < sample.len() ==> (#[trigger] sample[j]).pid != sample[i].pid
}

/// The record kept under a pid, if any.
pub open spec fn record_of(records: Map<Pid, Process>, pid: Pid) -> Option<Process> {
    if records.contains_key(pid) {
        Some(records[pid])
    } else {
        None
    }
}

/// Whether `next` holds the records to keep after the sample, given the
/// records `previous` kept before it: a record for each pid in the sample
/// and for no other, each as `record_after` gives it from the record kept
/// before and the pid's entry in the sample (its last, should it have
/// several).
pub open spec fn reconciled(
    previous: Map<Pid, Process>,
    sample: Seq<RawProcess>,
    basis: CpuBasis,
    next: Map<Pid, Process>,
) -> bool {
    &&& forall|pid: Pid| #[trigger] next.contains_key(pid) <==> observed(sample, pid)
    &&& forall|i: int| #[trigger]
        last_of_pid(sample, i) ==> next.contains_key(sample[i].pid) && next[sample[i].pid]@
            == record_after(record_of(previous, sample[i].pid), sample[i], basis)
}

/// The record of core `core` after a sample of the tick table. A core that
/// had a record keeps it, refreshed with the sampled counters; a core seen
/// for the first time gets its first record, with the machine's frequency,
/// vendor and brand.
pub open spec fn core_after(
    previous: Seq<Processor>,
    global: ProcessorView,
    data: ProcessorData,
    core: int,
) -> ProcessorView {
    if core < previous.len() {
        refreshed_record(previous[core]@, data.ticks_of(core))
    } else {
        first_core_record(data, core, global.frequency, global.vendor_id, global.brand)
    }
}

/// Whether `next` holds the records of the cores after a sample of the
/// tick table: one for each core of the table, each as `core_after` gives
/// it. A core that the table no longer holds has no record.
pub open spec fn cores_refreshed(
    previous: Seq<Processor>,
    global: ProcessorView,
    data: ProcessorData,
    next: Seq<Processor>,
) -> bool {
    &&& next.len() == data.cores()
    &&& forall|i: int|
        0 <= i < next.len() ==> (#[trigger] next[i])@ == core_after(previous, global, data, i)
}

/// Whether a sample of the processes says anything.
pub open spec fn has_processes(sample: Option<ProcessSample>) -> bool {
    sample.is_some() && sample.unwrap().processes@.len() > 0
}

/// Whether a sample of the tick table says anything.
pub open spec fn has_cores(sample: Option<ProcessorData>) -> bool {
    sample.is_some() && sample.unwrap().cores() > 0
}

/// The snapshot after a refresh of its processes.
pub open spec fn processes_refreshed(
    before: SystemView,
    sample: Option<ProcessSample>,
    after: SystemView,
) -> bool {
    if has_processes(sample) {
        &&& reconciled(
            before.processes,
            sample.unwrap().processes@,
            sample.unwrap().basis,
            after.processes,
        )
        &&& after == (SystemView { processes: after.processes, ..before })
    } else {
        after == before
    }
}

/// The snapshot after a refresh of its processors.
pub open spec fn cpu_refreshed(before: SystemView, sample: Option<ProcessorData>, after: SystemView) -> bool {
    if has_cores(sample) {
        &&& cores_refreshed(
            before.processors,
            before.global_processor,
            sample.unwrap(),
            after.processors,
        )
        &&& after.global_processor == (ProcessorView {
            cpu_usage: mean_usage(usages_of(after.processors)) as u32,
            ..before.global_processor
        })
        &&& after == (SystemView {
            processors: after.processors,
            global_processor: after.global_processor,
            ..before
        })
    } else {
        after == before
    }
}

/// The snapshot after a refresh of its disks.
pub open spec fn disks_refreshed(before: SystemView, sample: Option<Vec<RawDisk>>, after: SystemView) -> bool {
    if sample.is_some() && sample.unwrap()@.len() > 0 {
        &&& disk_views(after.disks) == disks_of(sample.unwrap()@)
        &&& after == (SystemView { disks: after.disks, ..before })
    } else {
        after == before
    }
}

/// The snapshot after a refresh of its users.
pub open spec fn users_refreshed(before: SystemView, sample: Option<Vec<RawUser>>, after: SystemView) -> bool {
    if sample.is_some() && sample.unwrap()@.len() > 0 {
        &&& is_users_list(sample.unwrap()@, after.users)
        &&& after == (SystemView { users: after.users, ..before })
    } else {
        after == before
    }
}

/// The snapshot after a refresh of its memory figures.
pub open spec fn memory_refreshed(before: SystemView, sample: Option<MemorySample>) -> SystemView {
    match sample {
        Some(m) => SystemView { mem_total: m.total, mem_free: m.free, ..before },
        None => before,
    }
}

impl RefreshKind {
    /// A selection of nothing.
    pub fn new() -> (r: RefreshKind)
        ensures
            r == (RefreshKind {
                processes: false,
                cpu: false,
                disks: false,
                memory: false,
                users: false,
                components: false,
            }),
    {
        RefreshKind {
            processes: false,
            cpu: false,
            disks: false,
            memory: false,
            users: false,
            components: false,
        }
    }

    /// A selection of every part.
    pub fn everything() -> (r: RefreshKind)
        ensures
            r == (RefreshKind {
                processes: true,
                cpu: true,
                disks: true,
                memory: true,
                users: true,
                components: true,
            }),
    {
        RefreshKind {
            processes: true,
            cpu: true,
            disks: true,
            memory: true,
            users: true,
            components: true,
        }
    }

    pub fn with_processes(self) -> (r: RefreshKind)
        ensures
            r == (RefreshKind { processes: true, ..self }),
    {
        RefreshKind { processes: true, ..self }
    }

    pub fn with_cpu(self) -> (r: RefreshKind)
        ensures
            r == (RefreshKind { cpu: true, ..self }),
    {
        RefreshKind { cpu: true, ..self }
    }

    pub fn with_disks(self) -> (r: RefreshKind)
        ensures
            r == (RefreshKind { disks: true, ..self }),
    {
        RefreshKind { disks: true, ..self }
    }

    pub fn with_memory(self) -> (r: RefreshKind)
        ensures
            r == (RefreshKind { memory: true, ..self }),
    {
        RefreshKind { memory: true, ..self }
    }

    pub fn with_users(self) -> (r: RefreshKind)
        ensures
            r == (RefreshKind { users: true, ..self }),
    {
        RefreshKind { users: true, ..self }
    }

    pub fn with_components(self) -> (r: RefreshKind)
        ensures
            r == (RefreshKind { components: true, ..self }),
    {
        RefreshKind { components: true, ..self }
    }
}

impl Default for RefreshKind {
    fn default() -> (r: RefreshKind)
        ensures
            r == (RefreshKind {
                processes: false,
                cpu: false,
                disks: false,
                memory: false,
                users: false,
                components: false,
            }),
    {
        RefreshKind::new()
    }
}

impl Default for System {
    /// An empty snapshot of a machine of which nothing is known.
    fn default() -> (s: System)
        ensures
            s@ == empty_snapshot(0, 0, Seq::<char>::empty(), Seq::<char>::empty()),
            usages_within_bounds(s@),
    {
        System::new(0, 0, String::new(), String::new())
    }
}

/// The snapshot after a refresh of the selected parts: each selected part
/// is refreshed from its sample, each other part is as it was.
pub open spec fn refreshed(
    before: SystemView,
    refreshes: RefreshKind,
    sample: PlatformSample,
    after: SystemView,
) -> bool {
    &&& processes_refreshed(
        before,
        if refreshes.processes {
            sample.processes
        } else {
            None
        },
        SystemView { processes: after.processes, ..before },
    )
    &&& cpu_refreshed(
        before,
        if refreshes.cpu {
            sample.cpu
        } else {
            None
        },
        SystemView {
            processors: after.processors,
            global_processor: after.global_processor,
            ..before
        },
    )
    &&& disks_refreshed(
        before,
        if refreshes.disks {
            sample.disks
        } else {
            None
        },
        SystemView { disks: after.disks, ..before },
    )
    &&& users_refreshed(
        before,
        if refreshes.users {
            sample.users
        } else {
            None
        },
        SystemView { users: after.users, ..before },
    )
    &&& after.mem_total == memory_refreshed(
        before,
        if refreshes.memory {
            sample.memory
        } else {
            None
        },
    ).mem_total
    &&& after.mem_free == memory_refreshed(
        before,
        if refreshes.memory {
            sample.memory
        } else {
            None
        },
    ).mem_free
    &&& after.boot_time == before.boot_time
}

/// The snapshot that holds nothing yet: no process, core, disk or user,
/// and a machine-wide processor named "0" with a usage of zero.
pub open spec fn empty_snapshot(
    boot_time: u64,
    frequency: u64,
    vendor_id: Seq<char>,
    brand: Seq<char>,
) -> SystemView {
    SystemView {
        processes: Map::empty(),
        global_processor: ProcessorView {
            name: "0"@,
            cpu_usage: 0,
            ticks: no_ticks(),
            frequency,
            vendor_id,
            brand,
        },
        processors: Seq::empty(),
        disks: Seq::empty(),
        users: Seq::empty(),
        mem_total: 0,
        mem_free: 0,
        boot_time,
    }
}

/// The seconds that a clock reading gives: zero where the reading failed
/// or lies before the clock's origin.
pub open spec fn seconds_of(status: i32, seconds: i64) -> u64 {
    if status == 0 && seconds >= 0 {
        seconds as u64
    } else {
        0
    }
}

/// The time since boot in seconds from a reading of the uptime clock:
/// `status` is what the platform returned for the reading, `seconds` what
/// the clock showed.
pub fn uptime(status: i32, seconds: i64) -> (r: u64)
    ensures
        r == seconds_of(status, seconds),
{
    if status == 0 && seconds >= 0 {
        seconds as u64
    } else {
        0
    }
}

/// The time of boot in seconds since the epoch from what the platform
/// reports, if it reports one that is not negative.
pub fn boot_time(seconds: Option<i64>) -> (r: Option<u64>)
    ensures
        r == match seconds {
            Some(s) => if s >= 0 {
                Some(s as u64)
            } else {
                None
            },
            None => None,
        },
{
    match seconds {
        Some(s) => if s >= 0 {
            Some(s as u64)
        } else {
            None
        },
        None => None,
    }
}

/// The long version of the operating system from what the platform's
/// query for the system's names returned: `status` is the query's result,
/// `version` the version field that it filled. There is none where the
/// query failed.
pub fn get_long_os_version(status: i32, version: &[u8]) -> (r: Option<String>)
    ensures
        match r {
            Some(s) => status == 0 && s@ == text_without_nuls(version@),
            None => status != 0,
        },
{
    if status == 0 {
        Some(string_without_nuls(version))
    } else {
        None
    }
}

/// The number of physical cores from what the platform reports.
pub fn get_physical_core_count(cores: Option<u32>) -> (r: Option<usize>)
    ensures
        r == match cores {
            Some(n) => Some(n as usize),
            None => None,
        },
{
    match cores {
        Some(n) => Some(n as usize),
        None => None,
    }
}

/// The kernel's version from its release date number, in decimal.
pub fn get_kernel_version(release_date: Option<u32>) -> (r: Option<String>)
    ensures
        match r {
            Some(s) => release_date.is_some() && s@ == decimal(release_date.unwrap() as nat),
            None => release_date.is_none(),
        },
{
    match release_date {
        Some(x) => Some(decimal_string(x as u64)),
        None => None,
    }
}

/// The records to keep of the processes after a sample, from the records
/// kept before it. A process that the sample lists and a record was kept
/// of keeps its record, updated in place; one seen for the first time, or
/// under a pid that another process had, gets a fresh record; a record
/// whose pid the sample does not list is dropped.
pub fn reconcile(kept: HashMap<Pid, Process>, sample: Vec<RawProcess>, basis: CpuBasis) -> (next:
    HashMap<Pid, Process>)
    ensures
        reconciled(kept@, sample@, basis, next@),
        records_within_bounds(next@),
{
    let ghost all = sample@;
    let ghost previous = kept@;
    let mut kept = kept;
    let mut rest = sample;
    let mut next: HashMap<Pid, Process> = HashMap::new();
    while rest.len() > 0
        invariant
            rest@ == all.take(rest@.len() as int),
            rest@.len() <= all.len(),
            forall|pid: Pid| #[trigger]
                next@.contains_key(pid) ==> next@[pid]@.cpu <= FULL_USAGE,
            forall|pid: Pid| #[trigger]
                next@.contains_key(pid) <==> observed_from(all, rest@.len() as int, pid),
            forall|i: int|
                rest@.len() <= i && #[trigger] last_of_pid(all, i) ==> next@.contains_key(
                    all[i].pid,
                ) && next@[all[i].pid]@ == record_after(
                    record_of(previous, all[i].pid),
                    all[i],
                    basis,
                ),
            forall|pid: Pid|
                !next@.contains_key(pid) ==> #[trigger] record_of(kept@, pid)
                    == record_of(previous, pid),
        decreases rest@.len(),
    {
        let ghost at = rest@.len() - 1;
        let ghost next_before = next@;
        let raw = rest.pop().unwrap();
        let pid: Pid = raw.pid;
        proof {
            assert(raw == all[at]);
            assert(rest@ =~= all.take(at));
        }
        if !next.contains_key(&pid) {
            proof {
                assert(record_of(kept@, pid) == record_of(previous, pid));
                assert forall|j: int| at < j < all.len() implies (#[trigger] all[j]).pid
                    != pid by {
                    if all[j].pid == pid {
                        assert(observed_from(all, at + 1, pid));
                    }
                }
                assert(last_of_pid(all, at));
            }
            let ghost records_before = kept@;
            let record = match kept.remove(&pid) {
                Some(kept) => {
                    let mut kept = kept;
                    if kept.is_same_process(&raw) {
                        kept.update(raw, basis);
                        kept
                    } else {
                        Process::from_raw(raw)
                    }
                },
                None => Process::from_raw(raw),
            };
            next.insert(pid, record);
            proof {
                assert forall|other: Pid| !next@.contains_key(other) implies #[trigger] record_of(
                    kept@,
                    other,
                ) == record_of(previous, other) by {
                    assert(!next_before.contains_key(other));
                    assert(other != pid);
                    assert(kept@ == records_before.remove(pid));
                    assert(record_of(records_before, other) == record_of(previous, other));
                }
            }
        } else {
            proof {
                assert(observed_from(all, at + 1, pid));
                let j = choose|j: int| at + 1 <= j < all.len() && (#[trigger] all[j]).pid == pid;
                assert(!last_of_pid(all, at));
            }
        }
        proof {
            assert forall|other: Pid| #[trigger]
                next@.contains_key(other) <==> observed_from(all, at, other) by {
                if observed_from(all, at, other) {
                    let j = choose|j: int| at <= j < all.len() && (#[trigger] all[j]).pid == other;
                    if j > at {
                        assert(observed_from(all, at + 1, other));
                    }
                }
                if next@.contains_key(other) && other != pid {
                    assert(next_before.contains_key(other));
                    assert(observed_from(all, at + 1, other));
                    let j = choose|j: int|
                        at + 1 <= j < all.len() && (#[trigger] all[j]).pid == other;
                    assert(at <= j);
                }
                if other == pid {
                    assert(all[at].pid == pid);
                }
            }
        }
    }
    next
}

/// The records of the cores after a sample of the tick table, from the
/// records kept before it, with the mean of their usages. A core that had
/// a record keeps it, refreshed in place; a core seen for the first time
/// gets its first record, with the frequency, vendor and brand of
/// `global`; a core that the table no longer holds is dropped.
pub fn refresh_cores(cores: Vec<Processor>, global: &Processor, data: &ProcessorData) -> (r: (
    Vec<Processor>,
    u32,
))
    ensures
        cores_refreshed(cores@, global@, *data, r.0@),
        cores_within_bounds(r.0@),
        r.1 == mean_usage(usages_of(r.0@)),
        r.1 <= FULL_USAGE,
{
    let ghost before = cores@;
    let mut cores = cores;
    let n: usize = data.core_count();
    let kept: usize = if cores.len() <= n {
        cores.len()
    } else {
        n
    };
    cores.truncate(n);
    let mut usages: Vec<u32> = Vec::new();
    let mut i: usize = 0;
    while i < n
        invariant
            n == data.cores(),
            4 * n <= data.cpu_info@.len(),
            kept <= n,
            kept <= before.len(),
            kept == n || kept == before.len(),
            i <= n,
            cores@.len() == if i <= kept {
                kept
            } else {
                i
            },
            forall|j: int|
                i <= j < kept ==> (#[trigger] cores@[j]) == before[j],
            forall|j: int|
                0 <= j < i ==> (#[trigger] cores@[j])@ == core_after(
                    before,
                    global@,
                    *data,
                    j,
                ),
            usages@ == usages_of(cores@.take(i as int)),
            forall|j: int| 0 <= j < i ==> #[trigger] usages@[j] <= FULL_USAGE,
        decreases n - i,
    {
        let ticks = data.ticks(i).unwrap();
        let ghost list_before = cores@;
        if i < kept {
            cores[i].refresh(ticks);
        } else {
            let core = Processor::new(
                decimal_string((i + 1) as u64),
                ticks,
                global.frequency(),
                global.vendor_id().to_owned(),
                global.brand().to_owned(),
            );
            cores.push(core);
        }
        usages.push(cores[i].cpu_usage());
        proof {
            assert(usages@ =~= usages_of(cores@.take(i + 1))) by {
                assert forall|j: int| 0 <= j < i implies cores@[j]
                    == list_before[j] by {}
                assert(cores@.take(i + 1).len() == i + 1);
            }
        }
        i = i + 1;
    }
    proof {
        assert(cores@.take(n as int) =~= cores@);
        lemma_mean_usage_bounded(usages@, FULL_USAGE as nat);
    }
    let mean: u32 = global_cpu_usage(&usages);
    (cores, mean)
}

impl System {
    #[verifier::type_invariant]
    spec fn well_formed(&self) -> bool {
        &&& self.global_processor@.cpu_usage <= FULL_USAGE
        &&& cores_within_bounds(self.processors@)
        &&& records_within_bounds(self.processes@)
    }

    /// A snapshot that holds nothing yet.
    pub fn new(boot_time: u64, frequency: u64, vendor_id: String, brand: String) -> (s: System)
        ensures
            s@ == empty_snapshot(boot_time, frequency, vendor_id@, brand@),
            usages_within_bounds(s@),
    {
        let zero = CpuTicks { user: 0, system: 0, nice: 0, idle: 0 };
        let s = System {
            processes: HashMap::new(),
            global_processor: Processor::new("0".to_string(), zero, frequency, vendor_id, brand),
            processors: Vec::new(),
            disks: Vec::new(),
            users: Vec::new(),
            mem_total: 0,
            mem_free: 0,
            boot_time,
        };
        proof {
            assert(s@ =~~= empty_snapshot(boot_time, frequency, vendor_id@, brand@));
        }
        s
    }

    /// Reconciles the records of the processes with a sample. A process
    /// that the sample lists and a record was kept of keeps its record,
    /// updated in place; one seen for the first time, or under a pid that
    /// another process had, gets a fresh record; a record whose pid the
    /// sample does not list is dropped. An absent or empty sample changes
    /// nothing.
    pub fn refresh_processes(&mut self, sample: Option<ProcessSample>)
        ensures
            processes_refreshed(old(self)@, sample, final(self)@),
            usages_within_bounds(old(self)@),
            usages_within_bounds(final(self)@),
    {
        proof {
            use_type_invariant(&*self);
        }
        let (basis, listed) = match sample {
            Some(s) => (s.basis, s.processes),
            None => {
                return ;
            },
        };
        if listed.len() == 0 {
            return ;
        }
        let mut kept: HashMap<Pid, Process> = HashMap::new();
        core::mem::swap(&mut self.processes, &mut kept);
        self.processes = reconcile(kept, listed, basis);
    }

    /// Brings the records of the cores and of the machine up to date from
    /// a sample of the tick table. An absent sample, or one that holds no
    /// core in full, changes nothing.
    pub fn refresh_cpu(&mut self, sample: Option<ProcessorData>)
        ensures
            cpu_refreshed(old(self)@, sample, final(self)@),
            usages_within_bounds(old(self)@),
            usages_within_bounds(final(self)@),
    {
        proof {
            use_type_invariant(&*self);
        }
        let data = match &sample {
            Some(d) => d,
            None => {
                return ;
            },
        };
        if data.core_count() == 0 {
            return ;
        }
        let mut cores: Vec<Processor> = Vec::new();
        core::mem::swap(&mut self.processors, &mut cores);
        let (cores, mean) = refresh_cores(cores, &self.global_processor, data);
        self.processors = cores;
        self.global_processor.set_cpu_usage(mean);
    }

    /// Replaces the list of disks by the disks that a list of mounted file
    /// systems gives. An absent or empty list changes nothing.
    pub fn refresh_disks_list(&mut self, sample: &Option<Vec<RawDisk>>)
        ensures
            disks_refreshed(old(self)@, *sample, final(self)@),
            usages_within_bounds(old(self)@),
            usages_within_bounds(final(self)@),
    {
        proof {
            use_type_invariant(&*self);
        }
        if let Some(raws) = sample {
            if raws.len() > 0 {
                self.disks = get_disks(raws);
            }
        }
    }

    /// Replaces the list of users by the list that the entries of the
    /// account database give. An absent or empty sample changes nothing.
    pub fn refresh_users_list(&mut self, sample: &Option<Vec<RawUser>>)
        ensures
            users_refreshed(old(self)@, *sample, final(self)@),
            usages_within_bounds(old(self)@),
            usages_within_bounds(final(self)@),
    {
        proof {
            use_type_invariant(&*self);
        }
        if let Some(raws) = sample {
            if raws.len() > 0 {
                self.users = users_list(raws);
            }
        }
    }

    /// Stores the memory figures of a sample. An absent sample changes
    /// nothing.
    pub fn refresh_memory(&mut self, sample: Option<MemorySample>)
        ensures
            final(self)@ == memory_refreshed(old(self)@, sample),
            usages_within_bounds(old(self)@),
            usages_within_bounds(final(self)@),
    {
        proof {
            use_type_invariant(&*self);
        }
        if let Some(m) = sample {
            self.mem_total = m.total;
            self.mem_free = m.free;
        }
    }
    /// A snapshot of the selected parts: an empty snapshot, refreshed once.
    pub fn new_with_specifics(
        refreshes: RefreshKind,
        boot_time: u64,
        frequency: u64,
        vendor_id: String,
        brand: String,
        sample: PlatformSample,
    ) -> (s: System)
        ensures
            refreshed(empty_snapshot(boot_time, frequency, vendor_id@, brand@), refreshes, sample, s@),
            usages_within_bounds(s@),
    {
        let mut s = System::new(boot_time, frequency, vendor_id, brand);
        s.refresh_specifics(refreshes, sample);
        s
    }

    /// Refreshes the selected parts of the snapshot, each from its part of
    /// the sample, and leaves the other parts as they are. A selected part
    /// whose sample is absent or empty stays as it is, too.
    pub fn refresh_specifics(&mut self, refreshes: RefreshKind, sample: PlatformSample)
        ensures
            refreshed(old(self)@, refreshes, sample, final(self)@),
            usages_within_bounds(old(self)@),
            usages_within_bounds(final(self)@),
    {
        proof {
            use_type_invariant(&*self);
        }
        let PlatformSample { processes, cpu, disks, users, memory } = sample;
        if refreshes.memory {
            self.refresh_memory(memory);
        }
        if refreshes.cpu {
            self.refresh_cpu(cpu);
        }
        if refreshes.processes {
            self.refresh_processes(processes);
        }
        if refreshes.disks {
            self.refresh_disks_list(&disks);
        }
        if refreshes.users {
            self.refresh_users_list(&users);
        }
    }

    /// The records of the processes, by pid.
    pub fn processes(&self) -> (r: &HashMap<Pid, Process>)
        ensures
            r@ == self@.processes,
            usages_within_bounds(self@),
    {
        proof {
            use_type_invariant(self);
        }
        &self.processes
    }

    /// The record of one process, if the snapshot holds one.
    pub fn process(&self, pid: Pid) -> (r: Option<&Process>)
        ensures
            r == match record_of(self@.processes, pid) {
                Some(p) => Some(&p),
                None => None,
            },
    {
        self.processes.get(&pid)
    }

    /// The record of the machine as a whole.
    pub fn global_processor_info(&self) -> (r: &Processor)
        ensures
            r@ == self@.global_processor,
            usages_within_bounds(self@),
    {
        proof {
            use_type_invariant(self);
        }
        &self.global_processor
    }

    /// The records of the cores, in the order of their numbers.
    pub fn processors(&self) -> (r: &Vec<Processor>)
        ensures
            r@ == self@.processors,
            usages_within_bounds(self@),
    {
        proof {
            use_type_invariant(self);
        }
        &self.processors
    }

    pub fn total_memory(&self) -> (r: u64)
        ensures
            r == self@.mem_total,
    {
        self.mem_total
    }

    pub fn free_memory(&self) -> (r: u64)
        ensures
            r == self@.mem_free,
    {
        self.mem_free
    }

    /// The memory that can be had; the free memory.
    pub fn available_memory(&self) -> (r: u64)
        ensures
            r == self@.mem_free,
    {
        self.mem_free
    }

    /// The memory in use: what is not free of the total, and zero where
    /// more is reported free than there is.
    pub fn used_memory(&self) -> (r: u64)
        ensures
            r == if self@.mem_total >= self@.mem_free {
                self@.mem_total - self@.mem_free
            } else {
                0
            },
    {
        if self.mem_total >= self.mem_free {
            self.mem_total - self.mem_free
        } else {
            0
        }
    }

    pub fn disks(&self) -> (r: &Vec<Disk>)
        ensures
            r@ == self@.disks,
    {
        &self.disks
    }

    pub fn users(&self) -> (r: &Vec<User>)
        ensures
            r@ == self@.users,
    {
        &self.users
    }

    /// The time of boot, in seconds since the epoch.
    pub fn boot_time(&self) -> (r: u64)
        ensures
            r == self@.boot_time,
    {
        self.boot_time
    }
}

/// A core whose counters did not move between two refreshes has a usage
/// of zero after the second.
pub proof fn lemma_unchanged_core_is_idle(
    previous: Seq<Processor>,
    global: ProcessorView,
    data: ProcessorData,
    core: int,
)
    requires
        0 <= core < previous.len(),
        previous[core]@.ticks == data.ticks_of(core),
    ensures
        core_after(previous, global, data, core).cpu_usage == 0,
        core_after(previous, global, data, core).ticks == previous[core]@.ticks,
{
}

/// A core seen for the first time has a usage of zero.
pub proof fn lemma_new_core_is_idle(
    previous: Seq<Processor>,
    global: ProcessorView,
    data: ProcessorData,
    core: int,
)
    requires
        core >= previous.len(),
    ensures
        core_after(previous, global, data, core).cpu_usage == 0,
{
}

/// After a reconciliation the snapshot holds a record for exactly the pids
/// of the sample: a pid that the sample does not list has none, whether it
/// had one before or not.
pub proof fn lemma_unlisted_pid_is_dropped(
    previous: Map<Pid, Process>,
    sample: Seq<RawProcess>,
    basis: CpuBasis,
    next: Map<Pid, Process>,
    pid: Pid,
)
    requires
        reconciled(previous, sample, basis, next),
        forall|i: int| 0 <= i < sample.len() ==> (#[trigger] sample[i]).pid != pid,
    ensures
        !next.contains_key(pid),
{
}

/// After a reconciliation with a sample that lists each pid once, the
/// record of every listed process is the one that `record_after` gives
/// from its entry.
pub proof fn lemma_listed_pid_is_kept(
    previous: Map<Pid, Process>,
    sample: Seq<RawProcess>,
    basis: CpuBasis,
    next: Map<Pid, Process>,
    i: int,
)
    requires
        reconciled(previous, sample, basis, next),
        0 <= i < sample.len(),
        forall|a: int, b: int|
            0 <= a < b < sample.len() ==> (#[trigger] sample[a]).pid != (#[trigger] sample[b]).pid,
    ensures
        next.contains_key(sample[i].pid),
        next[sample[i].pid]@ == record_after(record_of(previous, sample[i].pid), sample[i], basis),
{
    assert(last_of_pid(sample, i));
}

/// A process that the sample lists and no record was kept of gets a fresh
/// record: its usage is zero, and so is its disk traffic.
pub proof fn lemma_new_pid_starts_quiet(
    previous: Map<Pid, Process>,
    sample: Seq<RawProcess>,
    basis: CpuBasis,
    next: Map<Pid, Process>,
    i: int,
)
    requires
        reconciled(previous, sample, basis, next),
        last_of_pid(sample, i),
        !previous.contains_key(sample[i].pid),
    ensures
        next.contains_key(sample[i].pid),
        next[sample[i].pid]@ == fresh_record(sample[i]),
        next[sample[i].pid]@.cpu == 0,
        next[sample[i].pid]@.read_bytes == next[sample[i].pid]@.old_read_bytes,
        next[sample[i].pid]@.written_bytes == next[sample[i].pid]@.old_written_bytes,
{
}

/// A process that the sample lists and a record was kept of keeps its
/// record: pid and start time stay, the counters that were current are the
/// previous ones, and the sampled counters are current.
pub proof fn lemma_surviving_pid_is_updated(
    previous: Map<Pid, Process>,
    sample: Seq<RawProcess>,
    basis: CpuBasis,
    next: Map<Pid, Process>,
    i: int,
)
    requires
        reconciled(previous, sample, basis, next),
        last_of_pid(sample, i),
        previous.contains_key(sample[i].pid),
        same_process(previous[sample[i].pid]@, sample[i]),
    ensures
        next.contains_key(sample[i].pid),
        next[sample[i].pid]@ == updated_record(previous[sample[i].pid]@, sample[i], basis),
        next[sample[i].pid]@.pid == previous[sample[i].pid]@.pid,
        next[sample[i].pid]@.start_time == previous[sample[i].pid]@.start_time,
        next[sample[i].pid]@.old_utime == previous[sample[i].pid]@.utime,
        next[sample[i].pid]@.old_stime == previous[sample[i].pid]@.stime,
        next[sample[i].pid]@.old_read_bytes == previous[sample[i].pid]@.read_bytes,
        next[sample[i].pid]@.old_written_bytes == previous[sample[i].pid]@.written_bytes,
        next[sample[i].pid]@.utime == sample[i].utime,
        next[sample[i].pid]@.stime == sample[i].stime,
        next[sample[i].pid]@.read_bytes == sample[i].read_bytes,
        next[sample[i].pid]@.written_bytes == sample[i].written_bytes,
{
}

/// A process that the sample lists under a pid that another process had,
/// one with another start time, gets a fresh record: the record kept under
/// the pid is gone and nothing of its counters is left.
pub proof fn lemma_reused_pid_is_replaced(
    previous: Map<Pid, Process>,
    sample: Seq<RawProcess>,
    basis: CpuBasis,
    next: Map<Pid, Process>,
    i: int,
)
    requires
        reconciled(previous, sample, basis, next),
        last_of_pid(sample, i),
        previous.contains_key(sample[i].pid),
        previous[sample[i].pid]@.start_time != sample[i].start_time,
    ensures
        next.contains_key(sample[i].pid),
        next[sample[i].pid]@ == fresh_record(sample[i]),
        next[sample[i].pid]@.start_time == sample[i].start_time,
        next[sample[i].pid]@.cpu == 0,
        next[sample[i].pid]@.read_bytes == next[sample[i].pid]@.old_read_bytes,
        next[sample[i].pid]@.written_bytes == next[sample[i].pid]@.old_written_bytes,
{
}

proof fn lemma_last_entry_exists(sample: Seq<RawProcess>, pid: Pid, i: int)
    requires
        0 <= i < sample.len(),
        sample[i].pid == pid,
    ensures
        exists|j: int| #[trigger] last_of_pid(sample, j) && sample[j].pid == pid,
    decreases sample.len() - i,
{
    if last_of_pid(sample, i) {
    } else {
        let j = choose|j: int| i < j < sample.len() && (#[trigger] sample[j]).pid == sample[i].pid;
        lemma_last_entry_exists(sample, pid, j);
    }
}

/// After a reconciliation every record is kept under its own pid.
pub proof fn lemma_records_are_keyed_by_pid(
    previous: Map<Pid, Process>,
    sample: Seq<RawProcess>,
    basis: CpuBasis,
    next: Map<Pid, Process>,
)
    requires
        reconciled(previous, sample, basis, next),
    ensures
        forall|pid: Pid| #[trigger] next.contains_key(pid) ==> next[pid]@.pid == pid,
{
    assert forall|pid: Pid| #[trigger] next.contains_key(pid) implies next[pid]@.pid == pid by {
        assert(observed(sample, pid));
        let i = choose|i: int| 0 <= i < sample.len() && (#[trigger] sample[i]).pid == pid;
        lemma_last_entry_exists(sample, pid, i);
        let j = choose|j: int| #[trigger] last_of_pid(sample, j) && sample[j].pid == pid;
        assert(next[pid]@ == record_after(record_of(previous, pid), sample[j], basis));
    }
}

/// A refresh of the processors keeps every usage of the snapshot within
/// 0 % and 100 %, whatever the sample holds and also where it is absent.
pub proof fn lemma_cpu_refreshed_within_bounds(
    before: SystemView,
    sample: Option<ProcessorData>,
    after: SystemView,
)
    requires
        usages_within_bounds(before),
        cpu_refreshed(before, sample, after),
    ensures
        usages_within_bounds(after),
{
    if has_cores(sample) {
        assert forall|i: int| 0 <= i < after.processors.len() implies (#[trigger] after.processors[i])@.cpu_usage
            <= FULL_USAGE by {
            assert(after.processors[i]@ == core_after(
                before.processors,
                before.global_processor,
                sample.unwrap(),
                i,
            ));
        }
        lemma_global_usage_within_bounds(after.processors);
    }
}

/// A refresh of the processes keeps every usage of the snapshot within
/// 0 % and 100 %, whatever the sample holds and also where it is absent.
pub proof fn lemma_processes_refreshed_within_bounds(
    before: SystemView,
    sample: Option<ProcessSample>,
    after: SystemView,
)
    requires
        usages_within_bounds(before),
        processes_refreshed(before, sample, after),
    ensures
        usages_within_bounds(after),
{
    if has_processes(sample) {
        let listed = sample.unwrap().processes@;
        assert forall|pid: Pid| #[trigger] after.processes.contains_key(pid) implies after.processes[pid]@.cpu
            <= FULL_USAGE by {
            assert(observed(listed, pid));
            let i = choose|i: int| 0 <= i < listed.len() && (#[trigger] listed[i]).pid == pid;
            lemma_last_entry_exists(listed, pid, i);
            let j = choose|j: int| #[trigger] last_of_pid(listed, j) && listed[j].pid == pid;
            assert(after.processes[pid]@ == record_after(
                record_of(before.processes, pid),
                listed[j],
                sample.unwrap().basis,
            ));
        }
    }
}

} // verus!
