//! Processes: their status, the record kept of each one across refreshes,
//! and the signals that can be delivered to them.

use crate::metrics::{
    counter_rate, cpu, disk_usage, load_factor_usage, process_cpu_usage, process_cpu_usage_spec,
    CpuBasis, DiskUsage, LoadFactor, FULL_USAGE,
};
use crate::util::{text_or_empty, text_until_nul};
use vstd::prelude::*;

verus! {

/// Identity of a process on the machine.
pub type Pid = i32;

/// The status of a process.
#[derive(Clone, Copy, Debug, PartialEq, Eq, Structural)]
pub enum ProcessStatus {
    /// Idle.
    Idle,
    /// Runnable.
    Run,
    /// Sleeping.
    Sleep,
    /// Suspended.
    Stop,
    /// Awaiting collection.
    Zombie,
    /// Waiting for interrupt.
    Wait,
    /// Blocked on a lock.
    Lock,
    /// A code that names none of the above.
    Unknown(i8),
}

/// The status that a platform's status code stands for.
pub open spec fn status_of(code: i8) -> ProcessStatus {
    if code == 1 {
        ProcessStatus::Idle
    } else if code == 2 {
        ProcessStatus::Run
    } else if code == 3 {
        ProcessStatus::Sleep
    } else if code == 4 {
        ProcessStatus::Stop
    } else if code == 5 {
        ProcessStatus::Zombie
    } else if code == 6 {
        ProcessStatus::Wait
    } else if code == 7 {
        ProcessStatus::Lock
    } else {
        ProcessStatus::Unknown(code)
    }
}

/// The word by which a status is shown.
pub open spec fn status_name(status: ProcessStatus) -> Seq<char> {
    match status {
        ProcessStatus::Idle => "Idle"@,
        ProcessStatus::Run => "Runnable"@,
        ProcessStatus::Sleep => "Sleeping"@,
        ProcessStatus::Stop => "Stopped"@,
        ProcessStatus::Zombie => "Zombie"@,
        ProcessStatus::Wait => "Waiting"@,
        ProcessStatus::Lock => "Locked"@,
        ProcessStatus::Unknown(_) => "Unknown"@,
    }
}

impl From<i8> for ProcessStatus {
    fn from(status: i8) -> (r: Self) {
        match status {
            1 => Self::Idle,
            2 => Self::Run,
            3 => Self::Sleep,
            4 => Self::Stop,
            5 => Self::Zombie,
            6 => Self::Wait,
            7 => Self::Lock,
            x => Self::Unknown(x),
        }
    }
}

impl vstd::std_specs::convert::FromSpecImpl<i8> for ProcessStatus {
    open spec fn obeys_from_spec() -> bool {
        true
    }

    open spec fn from_spec(status: i8) -> Self {
        status_of(status)
    }
}

impl ProcessStatus {
    /// The word by which the status is shown.
    #[must_use]
    pub fn as_str(&self) -> (r: &'static str)
        ensures
            r@ == status_name(*self),
    {
        match *self {
            Self::Idle => "Idle",
            Self::Run => "Runnable",
            Self::Sleep => "Sleeping",
            Self::Stop => "Stopped",
            Self::Zombie => "Zombie",
            Self::Wait => "Waiting",
            Self::Lock => "Locked",
            Self::Unknown(_) => "Unknown",
        }
    }
}

/// A signal that a caller may ask to have delivered to a process.
#[derive(Clone, Copy, Debug, PartialEq, Eq, Structural)]
pub enum Signal {
    Hangup,
    Interrupt,
    Quit,
    Illegal,
    Trap,
    Abort,
    IOT,
    Bus,
    FloatingPointException,
    Kill,
    User1,
    Segv,
    User2,
    Pipe,
    Alarm,
    Term,
    Child,
    Continue,
    Stop,
    TSTP,
    TTIN,
    TTOU,
    Urgent,
    XCPU,
    XFSZ,
    VirtualAlarm,
    Profiling,
    Winch,
    IO,
    Poll,
    Power,
    Sys,
}

/// The delivery of one signal to one process, for the platform to carry out.
#[derive(Clone, Copy, Debug, PartialEq, Eq, Structural)]
pub struct KillRequest {
    pub pid: Pid,
    pub signal: Signal,
}

/// What the platform is asked to deliver for `signal`: the power-failure
/// signal cannot be delivered, a poll is delivered as I/O readiness, every
/// other signal as itself.
pub open spec fn delivered_signal(signal: Signal) -> Option<Signal> {
    match signal {
        Signal::Power => None,
        Signal::Poll => Some(Signal::IO),
        s => Some(s),
    }
}

/// Whether the platform's status of a delivery reports success.
pub fn kill_succeeded(status: i32) -> (r: bool)
    ensures
        r == (status == 0),
{
    status == 0
}

/// The parent that a platform's parent pid names: pid 0 stands for none.
pub open spec fn parent_of(ppid: Pid) -> Option<Pid> {
    if ppid == 0 {
        None
    } else {
        Some(ppid)
    }
}

/// The parent that a platform's parent pid names.
pub fn parent_from(ppid: Pid) -> (r: Option<Pid>)
    ensures
        r == parent_of(ppid),
{
    if ppid == 0 {
        None
    } else {
        Some(ppid)
    }
}

/// The name of a process from the NUL-terminated buffer that the platform
/// filled: what stands before the first NUL byte, or the empty name where
/// that is not UTF-8.
pub fn process_name(bytes: &[u8]) -> (r: String)
    ensures
        r@ == text_or_empty(bytes@),
{
    text_until_nul(bytes)
}

/// The start time that a platform's clock reading gives: a reading before
/// the epoch counts as the epoch.
pub open spec fn start_time_from(seconds: i64) -> u64 {
    if seconds >= 0 {
        seconds as u64
    } else {
        0
    }
}

/// The start time of a process, in seconds since the epoch, from the
/// platform's clock reading.
pub fn start_time_of(seconds: i64) -> (r: u64)
    ensures
        r == start_time_from(seconds),
{
    if seconds >= 0 {
        seconds as u64
    } else {
        0
    }
}

/// What a platform reports of a process besides its identity and counters.
/// A field that could not be read holds its empty value.
#[derive(Clone, Debug)]
pub struct ProcessInfo {
    pub name: String,
    pub cmd: Vec<String>,
    pub exe: String,
    pub parent: Option<Pid>,
    pub environ: Vec<String>,
    pub cwd: String,
    pub root: String,
    pub memory: u64,
    pub virtual_memory: u64,
    pub uid: u32,
    pub gid: u32,
    pub status: ProcessStatus,
}

/// One process as a platform sampled it: identity, description and raw
/// cumulative counters.
#[derive(Clone, Debug)]
pub struct RawProcess {
    pub pid: Pid,
    /// Seconds since the epoch at which the process started. It tells two
    /// processes apart that were given the same pid one after the other.
    pub start_time: u64,
    pub info: ProcessInfo,
    pub utime: u64,
    pub stime: u64,
    /// What the load-factor model takes, on a platform that reports it in
    /// place of meaningful tick counters.
    pub load: Option<LoadFactor>,
    pub read_bytes: u64,
    pub written_bytes: u64,
}

/// The record kept of one process. The previous value of each raw counter
/// is kept beside the current one; the rates are derived from the pair.
#[derive(Debug)]
pub struct Process {
    pid: Pid,
    start_time: u64,
    info: ProcessInfo,
    utime: u64,
    stime: u64,
    old_utime: u64,
    old_stime: u64,
    cpu: u32,
    old_read_bytes: u64,
    old_written_bytes: u64,
    read_bytes: u64,
    written_bytes: u64,
}

/// What a `Process` holds.
pub ghost struct ProcessView {
    pub pid: Pid,
    pub start_time: u64,
    pub info: ProcessInfo,
    pub utime: u64,
    pub stime: u64,
    pub old_utime: u64,
    pub old_stime: u64,
    pub cpu: u32,
    pub old_read_bytes: u64,
    pub old_written_bytes: u64,
    pub read_bytes: u64,
    pub written_bytes: u64,
}

impl View for Process {
    type V = ProcessView;

    closed spec fn view(&self) -> ProcessView {
        ProcessView {
            pid: self.pid,
            start_time: self.start_time,
            info: self.info,
            utime: self.utime,
            stime: self.stime,
            old_utime: self.old_utime,
            old_stime: self.old_stime,
            cpu: self.cpu,
            old_read_bytes: self.old_read_bytes,
            old_written_bytes: self.old_written_bytes,
            read_bytes: self.read_bytes,
            written_bytes: self.written_bytes,
        }
    }
}

impl Clone for Process {
    /// A copy of the record: the same identity, counters and usage, with a
    /// copy of the description.
    fn clone(&self) -> (r: Self)
        ensures
            r@ == (ProcessView { info: r@.info, ..self@ }),
    {
        proof {
            use_type_invariant(self);
        }
        Process {
            pid: self.pid,
            start_time: self.start_time,
            info: self.info.clone(),
            utime: self.utime,
            stime: self.stime,
            old_utime: self.old_utime,
            old_stime: self.old_stime,
            cpu: self.cpu,
            old_read_bytes: self.old_read_bytes,
            old_written_bytes: self.old_written_bytes,
            read_bytes: self.read_bytes,
            written_bytes: self.written_bytes,
        }
    }
}

/// Whether a description holds nothing yet.
pub open spec fn is_blank(info: ProcessInfo, parent: Option<Pid>) -> bool {
    &&& info.name@.len() == 0
    &&& info.cmd@.len() == 0
    &&& info.exe@.len() == 0
    &&& info.parent == parent
    &&& info.environ@.len() == 0
    &&& info.cwd@.len() == 0
    &&& info.root@.len() == 0
    &&& info.memory == 0
    &&& info.virtual_memory == 0
    &&& info.uid == 0
    &&& info.gid == 0
    &&& info.status == ProcessStatus::Unknown(0)
}

/// The record of a process seen for the first time. No earlier sample
/// exists, so the previous counters equal the sampled ones and every
/// derived rate is zero.
pub open spec fn fresh_record(raw: RawProcess) -> ProcessView {
    ProcessView {
        pid: raw.pid,
        start_time: raw.start_time,
        info: raw.info,
        utime: raw.utime,
        stime: raw.stime,
        old_utime: raw.utime,
        old_stime: raw.stime,
        cpu: 0,
        old_read_bytes: raw.read_bytes,
        old_written_bytes: raw.written_bytes,
        read_bytes: raw.read_bytes,
        written_bytes: raw.written_bytes,
    }
}

/// The usage of a process seen again: by the load-factor model where the
/// platform reports what that model takes, else from the growth of the
/// tick counters against the ticks that elapsed on the machine.
pub open spec fn sampled_usage(previous: ProcessView, raw: RawProcess, basis: CpuBasis) -> nat {
    match raw.load {
        Some(l) => load_factor_usage(l.pct, l.dur, basis.ccpu),
        None => process_cpu_usage_spec(
            previous.utime,
            previous.stime,
            raw.utime,
            raw.stime,
            basis.elapsed,
        ),
    }
}

/// The record of a process seen again: its current counters become the
/// previous ones, the sampled counters the current ones, and the usage is
/// derived anew.
pub open spec fn updated_record(previous: ProcessView, raw: RawProcess, basis: CpuBasis) -> ProcessView {
    ProcessView {
        pid: previous.pid,
        start_time: previous.start_time,
        info: raw.info,
        utime: raw.utime,
        stime: raw.stime,
        old_utime: previous.utime,
        old_stime: previous.stime,
        cpu: sampled_usage(previous, raw, basis) as u32,
        old_read_bytes: previous.read_bytes,
        old_written_bytes: previous.written_bytes,
        read_bytes: raw.read_bytes,
        written_bytes: raw.written_bytes,
    }
}

/// The disk traffic that a record shows: the change of each counter since
/// the previous sample, and the counters themselves.
pub open spec fn disk_usage_of(record: ProcessView) -> DiskUsage {
    DiskUsage {
        read_bytes: counter_rate(record.old_read_bytes, record.read_bytes) as i128,
        total_read_bytes: record.read_bytes,
        written_bytes: counter_rate(record.old_written_bytes, record.written_bytes) as i128,
        total_written_bytes: record.written_bytes,
    }
}

/// Whether a sampled process is the one that a record was kept of: the pid
/// alone does not say, since the platform hands pids out again.
pub open spec fn same_process(previous: ProcessView, raw: RawProcess) -> bool {
    previous.pid == raw.pid && previous.start_time == raw.start_time
}

/// The record to keep of a sampled process, given the record that was kept
/// under its pid, if any. A record of another process under the same pid is
/// dropped, never merged.
pub open spec fn record_after(previous: Option<Process>, raw: RawProcess, basis: CpuBasis) -> ProcessView {
    match previous {
        Some(p) => if same_process(p@, raw) {
            updated_record(p@, raw, basis)
        } else {
            fresh_record(raw)
        },
        None => fresh_record(raw),
    }
}

impl Process {
    /// A usage never lies above 100 %.
    #[verifier::type_invariant]
    spec fn usage_is_bounded(&self) -> bool {
        self.cpu <= FULL_USAGE
    }

    /// An empty record of the process `pid`, with all counters at zero.
    pub fn new(pid: Pid, parent: Option<Pid>, start_time: u64) -> (p: Self)
        ensures
            p@.pid == pid,
            p@.start_time == start_time,
            is_blank(p@.info, parent),
            p@.utime == 0 && p@.stime == 0 && p@.old_utime == 0 && p@.old_stime == 0,
            p@.cpu == 0,
            p@.read_bytes == 0 && p@.written_bytes == 0,
            p@.old_read_bytes == 0 && p@.old_written_bytes == 0,
    {
        Process {
            pid,
            start_time,
            info: ProcessInfo {
                name: String::new(),
                cmd: Vec::new(),
                exe: String::new(),
                parent,
                environ: Vec::new(),
                cwd: String::new(),
                root: String::new(),
                memory: 0,
                virtual_memory: 0,
                uid: 0,
                gid: 0,
                status: ProcessStatus::Unknown(0),
            },
            utime: 0,
            stime: 0,
            old_utime: 0,
            old_stime: 0,
            cpu: 0,
            old_read_bytes: 0,
            old_written_bytes: 0,
            read_bytes: 0,
            written_bytes: 0,
        }
    }

    /// The record of a process on its first observation.
    pub fn from_raw(raw: RawProcess) -> (p: Self)
        ensures
            p@ == fresh_record(raw),
    {
        Process {
            pid: raw.pid,
            start_time: raw.start_time,
            info: raw.info,
            utime: raw.utime,
            stime: raw.stime,
            old_utime: raw.utime,
            old_stime: raw.stime,
            cpu: 0,
            old_read_bytes: raw.read_bytes,
            old_written_bytes: raw.written_bytes,
            read_bytes: raw.read_bytes,
            written_bytes: raw.written_bytes,
        }
    }

    /// Whether `raw` samples the process that this record is kept of.
    pub fn is_same_process(&self, raw: &RawProcess) -> (r: bool)
        ensures
            r == same_process(self@, *raw),
    {
        self.pid == raw.pid && self.start_time == raw.start_time
    }

    /// Takes a new sample into the record, in place: shifts the current
    /// counters to the previous slot, stores the sampled ones and derives
    /// the usage.
    pub fn update(&mut self, raw: RawProcess, basis: CpuBasis)
        ensures
            final(self)@ == updated_record(old(self)@, raw, basis),
    {
        self.cpu = match raw.load {
            Some(l) => cpu(l.pct, l.dur, basis.ccpu),
            None => process_cpu_usage(self.utime, self.stime, raw.utime, raw.stime, basis.elapsed),
        };
        self.old_utime = self.utime;
        self.old_stime = self.stime;
        self.utime = raw.utime;
        self.stime = raw.stime;
        self.old_read_bytes = self.read_bytes;
        self.old_written_bytes = self.written_bytes;
        self.read_bytes = raw.read_bytes;
        self.written_bytes = raw.written_bytes;
        self.info = raw.info;
    }

    /// The request that delivers `signal` to this process, or `None` where
    /// the signal cannot be delivered.
    pub fn kill(&self, signal: Signal) -> (r: Option<KillRequest>)
        ensures
            r == match delivered_signal(signal) {
                Some(s) => Some(KillRequest { pid: self@.pid, signal: s }),
                None => None,
            },
    {
        match signal {
            Signal::Power => None,
            Signal::Poll => Some(KillRequest { pid: self.pid, signal: Signal::IO }),
            s => Some(KillRequest { pid: self.pid, signal: s }),
        }
    }

    pub fn name(&self) -> (r: &str)
        ensures
            r@ == self@.info.name@,
    {
        self.info.name.as_str()
    }

    pub fn cmd(&self) -> (r: &Vec<String>)
        ensures
            *r == self@.info.cmd,
    {
        &self.info.cmd
    }

    pub fn exe(&self) -> (r: &str)
        ensures
            r@ == self@.info.exe@,
    {
        self.info.exe.as_str()
    }

    pub fn pid(&self) -> (r: Pid)
        ensures
            r == self@.pid,
    {
        self.pid
    }

    pub fn environ(&self) -> (r: &Vec<String>)
        ensures
            *r == self@.info.environ,
    {
        &self.info.environ
    }

    pub fn cwd(&self) -> (r: &str)
        ensures
            r@ == self@.info.cwd@,
    {
        self.info.cwd.as_str()
    }

    pub fn root(&self) -> (r: &str)
        ensures
            r@ == self@.info.root@,
    {
        self.info.root.as_str()
    }

    pub fn memory(&self) -> (r: u64)
        ensures
            r == self@.info.memory,
    {
        self.info.memory
    }

    pub fn virtual_memory(&self) -> (r: u64)
        ensures
            r == self@.info.virtual_memory,
    {
        self.info.virtual_memory
    }

    pub fn parent(&self) -> (r: Option<Pid>)
        ensures
            r == self@.info.parent,
    {
        self.info.parent
    }

    pub fn status(&self) -> (r: ProcessStatus)
        ensures
            r == self@.info.status,
    {
        self.info.status
    }

    pub fn uid(&self) -> (r: u32)
        ensures
            r == self@.info.uid,
    {
        self.info.uid
    }

    pub fn gid(&self) -> (r: u32)
        ensures
            r == self@.info.gid,
    {
        self.info.gid
    }

    pub fn start_time(&self) -> (r: u64)
        ensures
            r == self@.start_time,
    {
        self.start_time
    }

    /// Usage since the previous sample, in thousandths of a percent,
    /// within 0 % and 100 %.
    pub fn cpu_usage(&self) -> (r: u32)
        ensures
            r == self@.cpu,
            r <= FULL_USAGE,
    {
        proof {
            use_type_invariant(self);
        }
        self.cpu
    }

    /// Disk traffic since the previous sample, and the cumulative totals.
    pub fn disk_usage(&self) -> (d: DiskUsage)
        ensures
            d == disk_usage_of(self@),
    {
        disk_usage(self.old_read_bytes, self.read_bytes, self.old_written_bytes, self.written_bytes)
    }
}

/// A process seen for the first time has a usage of zero and no disk
/// traffic.
pub proof fn lemma_fresh_record_is_quiet(raw: RawProcess)
    ensures
        fresh_record(raw).cpu == 0,
        disk_usage_of(fresh_record(raw)).read_bytes == 0,
        disk_usage_of(fresh_record(raw)).written_bytes == 0,
{
}

/// A pid that was handed out again gives a fresh record: nothing of the
/// earlier process's counters is left in it, and its rates are zero.
pub proof fn lemma_reused_pid_starts_afresh(previous: Process, raw: RawProcess, basis: CpuBasis)
    requires
        previous@.pid == raw.pid,
        previous@.start_time != raw.start_time,
    ensures
        record_after(Some(previous), raw, basis) == fresh_record(raw),
        record_after(Some(previous), raw, basis).cpu == 0,
        disk_usage_of(record_after(Some(previous), raw, basis)).read_bytes == 0,
        disk_usage_of(record_after(Some(previous), raw, basis)).written_bytes == 0,
{
}

/// The disk rates of a process seen again are the change of its two
/// counters between the samples.
pub proof fn lemma_disk_rate_is_the_difference(previous: ProcessView, raw: RawProcess, basis: CpuBasis)
    ensures
        disk_usage_of(updated_record(previous, raw, basis)).read_bytes == raw.read_bytes
            - previous.read_bytes,
        disk_usage_of(updated_record(previous, raw, basis)).written_bytes == raw.written_bytes
            - previous.written_bytes,
{
}

/// The usage of a process seen again lies within 0 % and 100 %, whatever
/// its counters and the basis are.
pub proof fn lemma_process_usage_within_bounds(previous: ProcessView, raw: RawProcess, basis: CpuBasis)
    ensures
        updated_record(previous, raw, basis).cpu <= FULL_USAGE,
{
}

/// A process sampled twice with unchanged counters has no disk traffic
/// and, by the ticks model, a usage of zero.
pub proof fn lemma_unchanged_counters_are_quiet(previous: ProcessView, raw: RawProcess, basis: CpuBasis)
    requires
        raw.utime == previous.utime,
        raw.stime == previous.stime,
        raw.read_bytes == previous.read_bytes,
        raw.written_bytes == previous.written_bytes,
    ensures
        raw.load.is_none() ==> updated_record(previous, raw, basis).cpu == 0,
        disk_usage_of(updated_record(previous, raw, basis)).read_bytes == 0,
        disk_usage_of(updated_record(previous, raw, basis)).written_bytes == 0,
{
    if basis.elapsed > 0 {
        assert(100_000 * 0nat / (basis.elapsed as nat) == 0) by (nonlinear_arith)
            requires
                basis.elapsed > 0,
        ;
    }
}

} // verus!
