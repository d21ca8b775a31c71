//! Processors: the raw tick table of one sample, and the record kept of
//! each core and of the machine as a whole.

use crate::metrics::{
    clamp_ticks, clamped_ticks, cpu_usage, cpu_usage_spec, global_cpu_usage,
    lemma_mean_usage_bounded, mean_usage, CpuTicks, FULL_USAGE,
};
use crate::util::{get_sysctl_str, text_of, without_trailing_nuls};
use vstd::prelude::*;

verus! {

/// Place of the user-mode counter among the counters of one core.
pub const CPU_STATE_USER: usize = 0;

/// Place of the system-mode counter among the counters of one core.
pub const CPU_STATE_SYSTEM: usize = 1;

/// Place of the idle counter among the counters of one core.
pub const CPU_STATE_IDLE: usize = 2;

/// Place of the niced-user-mode counter among the counters of one core.
pub const CPU_STATE_NICE: usize = 3;

/// Number of counters of one core.
pub const CPU_STATE_MAX: usize = 4;

/// The tick table of one sample: `CPU_STATE_MAX` counters for each core,
/// core after core. Only the first `num_cpu_info` entries count.
#[derive(Clone, Debug)]
pub struct ProcessorData {
    pub cpu_info: Vec<i32>,
    pub num_cpu_info: u32,
}

/// A counter of the table as the unsigned 32-bit number that it is.
pub open spec fn tick_value(raw: i32) -> u64 {
    if raw >= 0 {
        raw as u64
    } else {
        (raw + 0x1_0000_0000) as u64
    }
}

/// Counters that have not advanced at all.
pub open spec fn no_ticks() -> CpuTicks {
    CpuTicks { user: 0, system: 0, nice: 0, idle: 0 }
}

impl ProcessorData {
    pub fn new(cpu_info: Vec<i32>, num_cpu_info: u32) -> (d: ProcessorData)
        ensures
            d.cpu_info == cpu_info,
            d.num_cpu_info == num_cpu_info,
    {
        ProcessorData { cpu_info, num_cpu_info }
    }

    /// Number of table entries that count.
    pub open spec fn entries(&self) -> nat {
        if self.num_cpu_info <= self.cpu_info@.len() {
            self.num_cpu_info as nat
        } else {
            self.cpu_info@.len()
        }
    }

    /// Number of cores whose counters the table holds in full.
    pub open spec fn cores(&self) -> nat {
        self.entries() / 4
    }

    /// The counters of one core.
    pub open spec fn ticks_of(&self, core: int) -> CpuTicks {
        CpuTicks {
            user: tick_value(self.cpu_info@[4 * core + 0]),
            system: tick_value(self.cpu_info@[4 * core + 1]),
            idle: tick_value(self.cpu_info@[4 * core + 2]),
            nice: tick_value(self.cpu_info@[4 * core + 3]),
        }
    }

    /// Number of cores whose counters the table holds in full.
    pub fn core_count(&self) -> (n: usize)
        ensures
            n == self.cores(),
            4 * n <= self.cpu_info@.len(),
    {
        let len: usize = self.cpu_info.len();
        let entries: usize = if (self.num_cpu_info as usize) <= len {
            self.num_cpu_info as usize
        } else {
            len
        };
        entries / CPU_STATE_MAX
    }

    fn tick(&self, at: usize) -> (t: u64)
        requires
            at < self.cpu_info@.len(),
        ensures
            t == tick_value(self.cpu_info@[at as int]),
    {
        let raw: i32 = self.cpu_info[at];
        if raw >= 0 {
            raw as u64
        } else {
            (raw as i64 + 0x1_0000_0000) as u64
        }
    }

    /// The counters of one core, or `None` where the table does not hold
    /// them.
    pub fn ticks(&self, core: usize) -> (r: Option<CpuTicks>)
        ensures
            r == if core < self.cores() {
                Some(self.ticks_of(core as int))
            } else {
                None
            },
    {
        if core < self.core_count() {
            let base: usize = CPU_STATE_MAX * core;
            Some(
                CpuTicks {
                    user: self.tick(base + CPU_STATE_USER),
                    system: self.tick(base + CPU_STATE_SYSTEM),
                    idle: self.tick(base + CPU_STATE_IDLE),
                    nice: self.tick(base + CPU_STATE_NICE),
                },
            )
        } else {
            None
        }
    }
}

/// One processor: a core, or the machine as a whole.
#[derive(Debug)]
pub struct Processor {
    name: String,
    cpu_usage: u32,
    ticks: CpuTicks,
    frequency: u64,
    vendor_id: String,
    brand: String,
}

/// What a `Processor` holds.
pub ghost struct ProcessorView {
    pub name: Seq<char>,
    pub cpu_usage: u32,
    pub ticks: CpuTicks,
    pub frequency: u64,
    pub vendor_id: Seq<char>,
    pub brand: Seq<char>,
}

impl View for Processor {
    type V = ProcessorView;

    closed spec fn view(&self) -> ProcessorView {
        ProcessorView {
            name: self.name@,
            cpu_usage: self.cpu_usage,
            ticks: self.ticks,
            frequency: self.frequency,
            vendor_id: self.vendor_id@,
            brand: self.brand@,
        }
    }
}

impl Clone for Processor {
    fn clone(&self) -> (r: Self)
        ensures
            r@ == self@,
    {
        proof {
            use_type_invariant(self);
        }
        Processor {
            name: self.name.clone(),
            cpu_usage: self.cpu_usage,
            ticks: self.ticks,
            frequency: self.frequency,
            vendor_id: self.vendor_id.clone(),
            brand: self.brand.clone(),
        }
    }
}

/// The record of a processor after a sample of its counters.
pub open spec fn refreshed_record(previous: ProcessorView, ticks: CpuTicks) -> ProcessorView {
    ProcessorView {
        cpu_usage: cpu_usage_spec(previous.ticks, ticks) as u32,
        ticks: clamped_ticks(previous.ticks, ticks),
        ..previous
    }
}

impl Processor {
    /// A usage never lies above 100 %.
    #[verifier::type_invariant]
    spec fn usage_is_bounded(&self) -> bool {
        self.cpu_usage <= FULL_USAGE
    }

    /// A processor with the given counters and no usage measured yet.
    pub fn new(name: String, ticks: CpuTicks, frequency: u64, vendor_id: String, brand: String) -> (p:
        Processor)
        ensures
            p@ == (ProcessorView {
                name: name@,
                cpu_usage: 0,
                ticks,
                frequency,
                vendor_id: vendor_id@,
                brand: brand@,
            }),
    {
        Processor { name, cpu_usage: 0, ticks, frequency, vendor_id, brand }
    }

    pub(crate) fn set_cpu_usage(&mut self, cpu_usage: u32)
        requires
            cpu_usage <= FULL_USAGE,
        ensures
            final(self)@ == (ProcessorView { cpu_usage, ..old(self)@ }),
        no_unwind
    {
        self.cpu_usage = cpu_usage;
    }

    /// Stores a usage together with the counters that it was derived from.
    pub(crate) fn update(&mut self, cpu_usage: u32, ticks: CpuTicks)
        requires
            cpu_usage <= FULL_USAGE,
        ensures
            final(self)@ == (ProcessorView { cpu_usage, ticks, ..old(self)@ }),
    {
        self.cpu_usage = cpu_usage;
        self.ticks = ticks;
    }

    /// Takes a new sample of the counters: the usage becomes the one
    /// between the stored counters and the sampled ones, and the sampled
    /// counters are stored, none of them behind the one stored before.
    pub fn refresh(&mut self, ticks: CpuTicks)
        ensures
            final(self)@ == refreshed_record(old(self)@, ticks),
    {
        let usage: u32 = cpu_usage(self.ticks, ticks);
        self.update(usage, clamp_ticks(self.ticks, ticks));
    }

    /// The counters of the latest sample.
    pub fn data(&self) -> (t: CpuTicks)
        ensures
            t == self@.ticks,
    {
        self.ticks
    }

    /// Usage in thousandths of a percent, within 0 % and 100 %.
    pub fn cpu_usage(&self) -> (u: u32)
        ensures
            u == self@.cpu_usage,
            u <= FULL_USAGE,
    {
        proof {
            use_type_invariant(self);
        }
        self.cpu_usage
    }

    pub fn name(&self) -> (r: &str)
        ensures
            r@ == self@.name,
    {
        self.name.as_str()
    }

    /// Frequency in MHz.
    pub fn frequency(&self) -> (f: u64)
        ensures
            f == self@.frequency,
    {
        self.frequency
    }

    pub fn vendor_id(&self) -> (r: &str)
        ensures
            r@ == self@.vendor_id,
    {
        self.vendor_id.as_str()
    }

    pub fn brand(&self) -> (r: &str)
        ensures
            r@ == self@.brand,
    {
        self.brand.as_str()
    }
}

/// The decimal digit that stands for a number below ten.
pub open spec fn digit(d: nat) -> char {
    if d == 0 {
        '0'
    } else if d == 1 {
        '1'
    } else if d == 2 {
        '2'
    } else if d == 3 {
        '3'
    } else if d == 4 {
        '4'
    } else if d == 5 {
        '5'
    } else if d == 6 {
        '6'
    } else if d == 7 {
        '7'
    } else if d == 8 {
        '8'
    } else {
        '9'
    }
}

/// A number written in decimal, without leading zeros.
pub open spec fn decimal(n: nat) -> Seq<char>
    decreases n,
{
    if n < 10 {
        seq![digit(n)]
    } else {
        decimal(n / 10).push(digit(n % 10))
    }
}

/// `u64::to_string` of std: the number in decimal, without sign or leading
/// zeros.
#[verifier::external_body]
pub(crate) fn decimal_string(n: u64) -> (r: String)
    ensures
        r@ == decimal(n as nat),
{
    n.to_string()
}

/// The frequency in MHz of a clock that ticks `hertz` times a second.
pub fn get_cpu_frequency(hertz: u64) -> (mhz: u64)
    ensures
        mhz == hertz / 1_000_000,
{
    hertz / 1_000_000
}

/// The usages of a list of processors, in their order.
pub open spec fn usages_of(processors: Seq<Processor>) -> Seq<u32> {
    Seq::new(processors.len(), |i: int| processors[i]@.cpu_usage)
}

/// The record of core `core` on its first sample: named by its number
/// counted from one, with its counters stored and a usage of zero, since
/// no earlier sample exists to measure against.
pub open spec fn first_core_record(
    data: ProcessorData,
    core: int,
    frequency: u64,
    vendor_id: Seq<char>,
    brand: Seq<char>,
) -> ProcessorView {
    ProcessorView {
        name: decimal((core + 1) as nat),
        cpu_usage: 0,
        ticks: data.ticks_of(core),
        frequency,
        vendor_id,
        brand,
    }
}

/// Number of cores that a first sample yields records for: as many as the
/// platform counts, one where it cannot say, as far as the table holds
/// their counters.
pub open spec fn first_core_count(data: Option<ProcessorData>, num_cpu: Option<u32>) -> nat {
    let counted: u32 = match num_cpu {
        Some(n) => n,
        None => 1,
    };
    match data {
        Some(d) => if counted <= d.cores() {
            counted as nat
        } else {
            d.cores()
        },
        None => 0,
    }
}

/// The records of the machine and of each of its cores from the first
/// sample of the tick table and the number of cores that the platform
/// counts, if it could say. Without a table there are no cores. The
/// machine's record is named "0" and holds the mean of the cores' usages,
/// which is zero on a first sample.
pub fn init_processors(
    data: Option<ProcessorData>,
    num_cpu: Option<u32>,
    frequency: u64,
    vendor_id: String,
    brand: String,
) -> (r: (Processor, Vec<Processor>))
    ensures
        r.1@.len() == first_core_count(data, num_cpu),
        forall|i: int|
            0 <= i < r.1@.len() ==> (#[trigger] r.1@[i])@ == first_core_record(
                data.unwrap(),
                i,
                frequency,
                vendor_id@,
                brand@,
            ),
        r.0@ == (ProcessorView {
            name: "0"@,
            cpu_usage: mean_usage(usages_of(r.1@)) as u32,
            ticks: no_ticks(),
            frequency,
            vendor_id: vendor_id@,
            brand: brand@,
        }),
        r.0@.cpu_usage == 0,
{
    let mut processors: Vec<Processor> = Vec::new();
    let mut usages: Vec<u32> = Vec::new();
    let zero = CpuTicks { user: 0, system: 0, nice: 0, idle: 0 };
    if let Some(table) = &data {
        let cores: usize = table.core_count();
        let counted: u32 = match num_cpu {
            Some(n) => n,
            None => 1,
        };
        let n: usize = if (counted as usize) <= cores {
            counted as usize
        } else {
            cores
        };
        let mut i: usize = 0;
        while i < n
            invariant
                data == Some(*table),
                n == first_core_count(data, num_cpu),
                n <= table.cores(),
                i <= n,
                zero == no_ticks(),
                processors@.len() == i,
                usages@ == usages_of(processors@),
                forall|j: int|
                    0 <= j < i ==> (#[trigger] processors@[j])@ == first_core_record(
                        *table,
                        j,
                        frequency,
                        vendor_id@,
                        brand@,
                    ),
            decreases n - i,
        {
            let ticks = table.ticks(i).unwrap();
            let p = Processor::new(
                decimal_string((i + 1) as u64),
                ticks,
                frequency,
                vendor_id.clone(),
                brand.clone(),
            );
            usages.push(p.cpu_usage());
            processors.push(p);
            proof {
                assert(usages@ =~= usages_of(processors@));
            }
            i = i + 1;
        }
    }
    proof {
        assert(usages@ =~= usages_of(processors@));
        lemma_mean_usage_bounded(usages@, 0);
    }
    let mut global_processor = Processor::new("0".to_string(), zero, frequency, vendor_id, brand);
    global_processor.set_cpu_usage(global_cpu_usage(&usages));
    (global_processor, processors)
}

/// A processor's usage after a sample lies within 0 % and 100 %, whatever
/// the stored and the sampled counters are.
pub proof fn lemma_refreshed_usage_within_bounds(previous: ProcessorView, ticks: CpuTicks)
    ensures
        refreshed_record(previous, ticks).cpu_usage <= FULL_USAGE,
{
}

/// A processor sampled twice with the same counters has a usage of zero
/// after the second sample, and its stored counters stay.
pub proof fn lemma_refresh_twice_is_idle(previous: ProcessorView, ticks: CpuTicks)
    ensures
        refreshed_record(refreshed_record(previous, ticks), ticks).cpu_usage == 0,
        refreshed_record(refreshed_record(previous, ticks), ticks).ticks == refreshed_record(
            previous,
            ticks,
        ).ticks,
{
}

/// The mean of usages that lie within 0 % and 100 % lies there too.
pub proof fn lemma_global_usage_within_bounds(processors: Seq<Processor>)
    requires
        forall|i: int| 0 <= i < processors.len() ==> (#[trigger] processors[i])@.cpu_usage <= FULL_USAGE,
    ensures
        mean_usage(usages_of(processors)) <= FULL_USAGE,
{
    lemma_mean_usage_bounded(usages_of(processors), FULL_USAGE as nat);
}

/// The vendor and the brand of the processor from the two buffers that the
/// platform filled. Each is read as NUL-padded text; a vendor that comes
/// out empty reads "Apple".
pub fn get_vendor_id_and_brand(vendor: Vec<u8>, brand: Vec<u8>) -> (r: (String, String))
    ensures
        r.0@ == match text_of(without_trailing_nuls(vendor@)) {
            Some(text) => if text.len() == 0 {
                "Apple"@
            } else {
                text
            },
            None => "Apple"@,
        },
        r.1@ == match text_of(without_trailing_nuls(brand@)) {
            Some(text) => text,
            None => Seq::<char>::empty(),
        },
{
    let mut vendor_id = get_sysctl_str(vendor);
    if vendor_id.as_str().is_empty() {
        vendor_id = "Apple".to_string();
    }
    (vendor_id, get_sysctl_str(brand))
}

} // verus!
