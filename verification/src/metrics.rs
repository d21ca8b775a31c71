//! Derived-metric calculators: pure functions from two raw counter samples
//! to a rate. None of them keeps state.

use vstd::prelude::*;

verus! {

/// A usage of 100 %, in thousandths of a percent.
pub const FULL_USAGE: u32 = 100_000;

/// Binary point of the fixed-point values that the load-factor model takes:
/// a raw value `x` stands for `x / 2^11`.
pub const FSCALE: u32 = 2048;

/// Cumulative scheduling ticks of one processor.
#[derive(Clone, Copy, Debug, PartialEq, Eq, Structural)]
pub struct CpuTicks {
    pub user: u64,
    pub system: u64,
    pub nice: u64,
    pub idle: u64,
}

/// What the load-factor model takes of one process: the decayed share of
/// load `pct`, fixed-point by `FSCALE`, and the time `dur` that the process
/// was scheduled.
#[derive(Clone, Copy, Debug, PartialEq, Eq, Structural)]
pub struct LoadFactor {
    pub pct: u32,
    pub dur: u32,
}

/// What the usage of a process is measured against: the ticks that elapsed
/// on the machine since the previous sample, for the ticks model, and the
/// platform's decay constant, fixed-point by `FSCALE`, for the load-factor
/// model.
#[derive(Clone, Copy, Debug, PartialEq, Eq, Structural)]
pub struct CpuBasis {
    pub elapsed: u64,
    pub ccpu: u32,
}

/// Disk traffic of one process: what was moved since the previous sample,
/// and the cumulative totals.
#[derive(Clone, Copy, Debug, PartialEq, Eq, Structural)]
pub struct DiskUsage {
    /// Bytes read since the previous sample; negative after a counter reset.
    pub read_bytes: i128,
    pub total_read_bytes: u64,
    /// Bytes written since the previous sample; negative after a counter reset.
    pub written_bytes: i128,
    pub total_written_bytes: u64,
}

/// Growth of a cumulative counter. A counter that went backwards is an
/// anomaly of the platform and counts as no growth.
pub open spec fn delta(previous: u64, current: u64) -> nat {
    if current >= previous {
        (current - previous) as nat
    } else {
        0
    }
}

/// Change of a cumulative counter between two samples. It is negative
/// where the counter went backwards.
pub open spec fn counter_rate(previous: u64, current: u64) -> int {
    current - previous
}

/// The counters to store after a sample of one processor: each sampled
/// counter, or the stored one where the sampled one lies behind it, so
/// that no stored counter ever goes backwards.
pub open spec fn clamped_ticks(previous: CpuTicks, current: CpuTicks) -> CpuTicks {
    CpuTicks {
        user: if current.user >= previous.user {
            current.user
        } else {
            previous.user
        },
        system: if current.system >= previous.system {
            current.system
        } else {
            previous.system
        },
        nice: if current.nice >= previous.nice {
            current.nice
        } else {
            previous.nice
        },
        idle: if current.idle >= previous.idle {
            current.idle
        } else {
            previous.idle
        },
    }
}

/// `100 * busy / total` in thousandths of a percent, held within
/// `0..=FULL_USAGE`; zero when nothing elapsed.
pub open spec fn usage_of(busy: nat, total: nat) -> nat {
    if total == 0 {
        0
    } else if 100_000 * busy / total > 100_000 {
        100_000
    } else {
        100_000 * busy / total
    }
}

/// Ticks spent working between two samples of one processor.
pub open spec fn busy_ticks(previous: CpuTicks, current: CpuTicks) -> nat {
    delta(previous.user, current.user) + delta(previous.system, current.system) + delta(
        previous.nice,
        current.nice,
    )
}

/// All ticks that passed between two samples of one processor.
pub open spec fn total_ticks(previous: CpuTicks, current: CpuTicks) -> nat {
    busy_ticks(previous, current) + delta(previous.idle, current.idle)
}

/// Usage of one processor between two samples, in thousandths of a percent.
pub open spec fn cpu_usage_spec(previous: CpuTicks, current: CpuTicks) -> nat {
    usage_of(busy_ticks(previous, current), total_ticks(previous, current))
}

/// Usage of one process between two samples of its tick counters, against
/// the ticks that elapsed on the machine.
pub open spec fn process_cpu_usage_spec(
    old_utime: u64,
    old_stime: u64,
    utime: u64,
    stime: u64,
    elapsed: u64,
) -> nat {
    usage_of(delta(old_utime, utime) + delta(old_stime, stime), elapsed as nat)
}

/// The load-factor model, `100 * pct / (1 - dur * e^(ln ccpu))` with `pct`
/// and `ccpu` decoded by `FSCALE`, in exact arithmetic: there `e^(ln ccpu)`
/// is `ccpu`, and the quotient equals `100 * pct / (FSCALE - dur * ccpu)`
/// over the raw values. It is zero by definition where `dur` or `pct` is
/// zero. A negative quotient reads 0, an unbounded one (denominator zero)
/// reads `FULL_USAGE`.
pub open spec fn load_factor_usage(pct: u32, dur: u32, ccpu: u32) -> nat {
    let den: int = FSCALE - dur * ccpu;
    if dur == 0 || pct == 0 {
        0
    } else if den < 0 {
        0
    } else if den == 0 {
        FULL_USAGE as nat
    } else {
        usage_of(pct as nat, den as nat)
    }
}

/// Sum of a list of usages.
pub open spec fn usage_sum(usages: Seq<u32>) -> nat
    decreases usages.len(),
{
    if usages.len() == 0 {
        0
    } else {
        usage_sum(usages.drop_last()) + usages.last() as nat
    }
}

/// Arithmetic mean of the usages, rounded down; zero for an empty list.
pub open spec fn mean_usage(usages: Seq<u32>) -> nat {
    if usages.len() == 0 {
        0
    } else {
        usage_sum(usages) / usages.len()
    }
}

/// The sum of a list is at most its length times any bound on its items.
pub proof fn lemma_usage_sum_bounded(usages: Seq<u32>, bound: nat)
    requires
        forall|i: int| 0 <= i < usages.len() ==> usages[i] <= bound,
    ensures
        usage_sum(usages) <= usages.len() * bound,
    decreases usages.len(),
{
    if usages.len() > 0 {
        lemma_usage_sum_bounded(usages.drop_last(), bound);
        assert(usages.len() * bound == (usages.len() - 1) * bound + bound) by (nonlinear_arith);
    }
}

/// The mean of a list lies under any bound on its items.
pub proof fn lemma_mean_usage_bounded(usages: Seq<u32>, bound: nat)
    requires
        forall|i: int| 0 <= i < usages.len() ==> usages[i] <= bound,
    ensures
        mean_usage(usages) <= bound,
{
    if usages.len() > 0 {
        lemma_usage_sum_bounded(usages, bound);
        let n = usages.len() as int;
        let s = usage_sum(usages) as int;
        assert(s / n <= bound) by (nonlinear_arith)
            requires
                n > 0,
                0 <= s <= n * bound,
        ;
    }
}

fn counter_growth(previous: u64, current: u64) -> (d: u64)
    ensures
        d == delta(previous, current),
{
    if current >= previous {
        current - previous
    } else {
        0
    }
}

fn usage(busy: u128, total: u128) -> (u: u32)
    requires
        busy <= 0x4_0000_0000_0000_0000,
    ensures
        u == usage_of(busy as nat, total as nat),
        u <= FULL_USAGE,
{
    if total == 0 {
        0
    } else {
        let q: u128 = 100_000 * busy / total;
        if q > 100_000 {
            100_000
        } else {
            q as u32
        }
    }
}

/// Usage of one processor between two consecutive samples of its tick
/// counters: the share of the elapsed ticks not spent idle.
pub fn cpu_usage(previous: CpuTicks, current: CpuTicks) -> (u: u32)
    ensures
        u == cpu_usage_spec(previous, current),
        u <= FULL_USAGE,
{
    let user: u64 = counter_growth(previous.user, current.user);
    let system: u64 = counter_growth(previous.system, current.system);
    let nice: u64 = counter_growth(previous.nice, current.nice);
    let idle: u64 = counter_growth(previous.idle, current.idle);
    let busy: u128 = user as u128 + system as u128 + nice as u128;
    let total: u128 = busy + idle as u128;
    usage(busy, total)
}

/// The counters to store after a sample of one processor.
pub fn clamp_ticks(previous: CpuTicks, current: CpuTicks) -> (t: CpuTicks)
    ensures
        t == clamped_ticks(previous, current),
{
    CpuTicks {
        user: if current.user >= previous.user {
            current.user
        } else {
            previous.user
        },
        system: if current.system >= previous.system {
            current.system
        } else {
            previous.system
        },
        nice: if current.nice >= previous.nice {
            current.nice
        } else {
            previous.nice
        },
        idle: if current.idle >= previous.idle {
            current.idle
        } else {
            previous.idle
        },
    }
}

/// Usage of one process: the ticks it spent in user and system mode since
/// the previous sample, as a share of the `elapsed` ticks of the machine.
pub fn process_cpu_usage(old_utime: u64, old_stime: u64, utime: u64, stime: u64, elapsed: u64) -> (u:
    u32)
    ensures
        u == process_cpu_usage_spec(old_utime, old_stime, utime, stime, elapsed),
        u <= FULL_USAGE,
{
    let user: u64 = counter_growth(old_utime, utime);
    let system: u64 = counter_growth(old_stime, stime);
    usage(user as u128 + system as u128, elapsed as u128)
}

/// Usage by the load-factor model, for a platform that reports a decayed
/// share of load `pct` and a decay constant `ccpu` (both fixed-point, see
/// `FSCALE`) with the time `dur` that the process was scheduled.
pub fn cpu(pct: u32, dur: u32, ccpu: u32) -> (u: u32)
    ensures
        u == load_factor_usage(pct, dur, ccpu),
        u <= FULL_USAGE,
{
    if dur == 0 || pct == 0 {
        return 0;
    }
    assert(dur * ccpu <= 0xffff_ffff * 0xffff_ffff) by (nonlinear_arith)
        requires
            dur <= 0xffff_ffff,
            ccpu <= 0xffff_ffff,
    ;
    let decay: u64 = dur as u64 * ccpu as u64;
    let scale: u64 = FSCALE as u64;
    if decay > scale {
        0
    } else if decay == scale {
        FULL_USAGE
    } else {
        usage(pct as u128, (scale - decay) as u128)
    }
}

/// Usage of the whole machine: the mean of the per-core usages of one cycle.
pub fn global_cpu_usage(usages: &Vec<u32>) -> (u: u32)
    ensures
        u == mean_usage(usages@),
        usages@.len() == 0 ==> u == 0,
{
    let n: usize = usages.len();
    if n == 0 {
        return 0;
    }
    let mut sum: u128 = 0;
    let mut i: usize = 0;
    while i < n
        invariant
            n == usages@.len(),
            i <= n,
            sum == usage_sum(usages@.take(i as int)),
            sum <= i * 0xffff_ffff,
        decreases n - i,
    {
        proof {
            assert(usages@.take(i + 1).drop_last() =~= usages@.take(i as int));
            assert((i + 1) * 0xffff_ffff == i * 0xffff_ffff + 0xffff_ffff) by (nonlinear_arith);
            assert(i * 0xffff_ffff <= 0xffff_ffff_ffff_ffff * 0xffff_ffff) by (nonlinear_arith)
                requires
                    i <= 0xffff_ffff_ffff_ffff,
            ;
        }
        sum = sum + usages[i] as u128;
        i = i + 1;
    }
    proof {
        assert(usages@.take(n as int) =~= usages@);
        lemma_mean_usage_bounded(usages@, 0xffff_ffff);
    }
    (sum / n as u128) as u32
}

/// Disk traffic of a process from the previous and the current value of its
/// two cumulative counters. A counter that went backwards gives a negative
/// rate: it is handed on, neither clamped nor wrapped.
pub fn disk_usage(old_read_bytes: u64, read_bytes: u64, old_written_bytes: u64, written_bytes: u64) -> (d:
    DiskUsage)
    ensures
        d.read_bytes == counter_rate(old_read_bytes, read_bytes),
        d.written_bytes == counter_rate(old_written_bytes, written_bytes),
        d.total_read_bytes == read_bytes,
        d.total_written_bytes == written_bytes,
{
    DiskUsage {
        read_bytes: read_bytes as i128 - old_read_bytes as i128,
        total_read_bytes: read_bytes,
        written_bytes: written_bytes as i128 - old_written_bytes as i128,
        total_written_bytes: written_bytes,
    }
}

/// Two identical consecutive samples give a usage of zero.
pub proof fn lemma_identical_samples_give_zero(sample: CpuTicks)
    ensures
        cpu_usage_spec(sample, sample) == 0,
{
}

/// Where only the idle counter grew, the usage is zero.
pub proof fn lemma_all_idle_gives_zero(previous: CpuTicks, current: CpuTicks)
    requires
        current.user == previous.user,
        current.system == previous.system,
        current.nice == previous.nice,
    ensures
        cpu_usage_spec(previous, current) == 0,
{
    let total = total_ticks(previous, current);
    if total > 0 {
        assert(100_000 * 0nat / total == 0) by (nonlinear_arith)
            requires
                total > 0,
        ;
    }
}

/// Where the idle counter did not grow and some ticks passed, the usage is
/// full.
pub proof fn lemma_no_idle_gives_full(previous: CpuTicks, current: CpuTicks)
    requires
        delta(previous.idle, current.idle) == 0,
        total_ticks(previous, current) > 0,
    ensures
        cpu_usage_spec(previous, current) == FULL_USAGE,
{
    let total = total_ticks(previous, current);
    assert(100_000 * total / total == 100_000) by (nonlinear_arith)
        requires
            total > 0,
    ;
}

/// A usage lies within 0 % and 100 %, whatever the counts are that it is
/// derived from.
pub proof fn lemma_usage_within_bounds(busy: nat, total: nat)
    ensures
        0 <= usage_of(busy, total) <= FULL_USAGE,
{
}

/// The usage of a processor lies within 0 % and 100 % for every pair of
/// samples, also where counters went backwards.
pub proof fn lemma_cpu_usage_within_bounds(previous: CpuTicks, current: CpuTicks)
    ensures
        0 <= cpu_usage_spec(previous, current) <= FULL_USAGE,
{
}

/// The usage of a process lies within 0 % and 100 % for all counters and
/// every number of elapsed ticks, also where the process shows more ticks
/// than elapsed.
pub proof fn lemma_process_cpu_usage_within_bounds(
    old_utime: u64,
    old_stime: u64,
    utime: u64,
    stime: u64,
    elapsed: u64,
)
    ensures
        0 <= process_cpu_usage_spec(old_utime, old_stime, utime, stime, elapsed) <= FULL_USAGE,
{
}

/// The load-factor model gives a usage within 0 % and 100 % for all that
/// it can be given.
pub proof fn lemma_load_factor_within_bounds(pct: u32, dur: u32, ccpu: u32)
    ensures
        0 <= load_factor_usage(pct, dur, ccpu) <= FULL_USAGE,
{
}

/// The load-factor model gives zero where no time was scheduled or no load
/// was measured, whatever the decay constant.
pub proof fn lemma_load_factor_zero(pct: u32, dur: u32, ccpu: u32)
    requires
        dur == 0 || pct == 0,
    ensures
        load_factor_usage(pct, dur, ccpu) == 0,
{
}

/// The mean over no cores is zero.
pub proof fn lemma_mean_of_nothing_is_zero()
    ensures
        mean_usage(Seq::<u32>::empty()) == 0,
{
}

/// A counter that did not move between two samples gives a rate of zero.
pub proof fn lemma_quiet_counter_gives_zero(bytes: u64)
    ensures
        counter_rate(bytes, bytes) == 0,
{
}

/// Storing clamped counters changes no usage: the counters that a sample
/// leaves behind lie as far from the stored ones as the growth that the
/// usage was derived from, and never behind them.
pub proof fn lemma_clamped_ticks_never_go_back(previous: CpuTicks, current: CpuTicks)
    ensures
        clamped_ticks(previous, current).user - previous.user == delta(previous.user, current.user),
        clamped_ticks(previous, current).system - previous.system == delta(
            previous.system,
            current.system,
        ),
        clamped_ticks(previous, current).nice - previous.nice == delta(previous.nice, current.nice),
        clamped_ticks(previous, current).idle - previous.idle == delta(previous.idle, current.idle),
{
}

} // verus!
