//! The metric computations and their fallback policy.
//!
//! Each function here turns one subsystem's raw readings into the metric the
//! collector reports. Readings and results are fixed-point integers in
//! hundredths of a unit: `7550` stands for 75.50 percent, degrees Celsius or
//! watts. Every function is total: where the hardware reports nothing, or a
//! divisor would be zero, a defined default comes back instead.

use vstd::prelude::*;

use crate::label::is_cpu_label;
use crate::label::label_is_cpu;

verus! {

/// The placeholder reading, 45.00 degrees Celsius, reported when no thermal
/// sensor names the processor. Deliberately non-zero, so that a missing
/// sensor does not read as a freezing one.
pub const TEMPERATURE_FALLBACK_CENTI: i64 = 4500;

/// One thermal sensor as enumerated by the probe layer: its label and its
/// reading in hundredths of a degree Celsius.
pub struct SensorReading {
    pub label: Vec<u8>,
    pub temp_centi: i64,
}

/// One disk as enumerated by the probe layer: its total and available space
/// in bytes.
pub struct DiskSpace {
    pub total: u64,
    pub available: u64,
}

/// The sum of a sequence of per-core readings.
pub open spec fn sum(s: Seq<u32>) -> int
    decreases s.len(),
{
    if s.len() == 0 {
        0
    } else {
        sum(s.drop_last()) + s.last()
    }
}

/// CPU usage: the arithmetic mean of the per-core readings, rounded toward
/// zero; `0` when no core was enumerated.
pub open spec fn cpu_usage_spec(readings: Seq<u32>) -> int {
    if readings.len() == 0 {
        0
    } else {
        sum(readings) / readings.len() as int
    }
}

/// Memory usage: `used / total`, as hundredths of a percent, rounded toward
/// zero; `0` when the reported total is zero, and never above 100 percent
/// even if the probe reports more used than total memory.
pub open spec fn memory_usage_spec(used: u64, total: u64) -> int {
    if total == 0 {
        0
    } else if used * 10000 / (total as int) > 10000 {
        10000
    } else {
        used * 10000 / (total as int)
    }
}

/// Usage of one disk: the share of its space not available, as hundredths of
/// a percent; `0` when the reported total is zero, and never negative even
/// if the probe reports more available than total space.
pub open spec fn disk_percent_spec(total: u64, available: u64) -> int {
    if total == 0 {
        0
    } else if available > total {
        0
    } else {
        (total - available) * 10000 / (total as int)
    }
}

/// Disk usage: the usage of the first enumerated disk, `0` when none was
/// enumerated.
pub open spec fn disk_usage_spec(disks: Seq<DiskSpace>) -> int {
    if disks.len() == 0 {
        0
    } else {
        disk_percent_spec(disks[0].total, disks[0].available)
    }
}

/// Temperature: the reading of the first sensor whose label names the
/// processor, or the fixed placeholder when none does.
pub open spec fn temperature_spec(sensors: Seq<SensorReading>) -> i64
    decreases sensors.len(),
{
    if sensors.len() == 0 {
        TEMPERATURE_FALLBACK_CENTI
    } else if is_cpu_label(sensors[0].label@) {
        sensors[0].temp_centi
    } else {
        temperature_spec(sensors.drop_first())
    }
}

/// GPU usage: the backend reports whole percent; `0` when the backend or the
/// query failed.
pub open spec fn gpu_usage_spec(reading: Option<u32>) -> int {
    match reading {
        Option::None => 0,
        Option::Some(g) => g * 100,
    }
}

/// GPU temperature: the backend reports whole degrees Celsius; `0` when the
/// backend or the query failed.
pub open spec fn gpu_temp_spec(reading: Option<u32>) -> int {
    match reading {
        Option::None => 0,
        Option::Some(t) => t * 100,
    }
}

/// GPU power: the backend reports milliwatts, reported here in hundredths of
/// a watt; `0` when the backend or the query failed.
pub open spec fn gpu_power_spec(reading: Option<u32>) -> int {
    match reading {
        Option::None => 0,
        Option::Some(mw) => mw as int / 10,
    }
}

/// The sum of per-core readings never exceeds the count of cores times a
/// bound on each reading.
pub proof fn lemma_sum_bounded(s: Seq<u32>, bound: int)
    requires
        forall|i: int| 0 <= i < s.len() ==> s[i] <= bound,
    ensures
        sum(s) <= s.len() * bound,
        sum(s) >= 0,
    decreases s.len(),
{
    if s.len() == 0 {
    } else {
        lemma_sum_bounded(s.drop_last(), bound);
        assert(s.last() <= bound);
        assert(s.len() * bound == (s.len() - 1) * bound + bound) by (nonlinear_arith);
    }
}

/// The mean of per-core readings never exceeds a bound that every single
/// reading meets: a collector built on in-range probe values reports an
/// in-range CPU usage.
pub proof fn lemma_cpu_usage_bounded(readings: Seq<u32>, bound: int)
    requires
        bound >= 0,
        forall|i: int| 0 <= i < readings.len() ==> readings[i] <= bound,
    ensures
        0 <= cpu_usage_spec(readings) <= bound,
{
    if readings.len() == 0 {
    } else {
        lemma_sum_bounded(readings, bound);
        let n = readings.len() as int;
        assert(sum(readings) / n <= bound && sum(readings) / n >= 0) by (nonlinear_arith)
            requires
                n >= 1,
                0 <= sum(readings) <= n * bound,
                bound >= 0,
        ;
    }
}

/// CPU usage is the arithmetic mean of the per-core readings, rounded toward
/// zero, and the zero-core fallback is exactly zero, not an undefined
/// quotient.
pub proof fn lemma_cpu_usage_mean(readings: Seq<u32>)
    ensures
        readings.len() == 0 ==> cpu_usage_spec(readings) == 0,
        readings.len() > 0 ==> cpu_usage_spec(readings) == sum(readings) / readings.len() as int,
{
}

/// Memory usage is `used / total` in hundredths of a percent whenever the
/// probe reports no more used than total memory; the zero-total fallback is
/// exactly zero; and the metric is a percentage in every case.
pub proof fn lemma_memory_usage(used: u64, total: u64)
    ensures
        total == 0 ==> memory_usage_spec(used, total) == 0,
        total > 0 && used <= total ==> memory_usage_spec(used, total) == used * 10000 / (
        total as int),
        0 <= memory_usage_spec(used, total) <= 10000,
{
    if total > 0 {
        assert(0 <= used * 10000 / (total as int)) by (nonlinear_arith)
            requires
                0 < total as int,
                0 <= used as int,
        ;
        if used <= total {
            assert(used * 10000 / (total as int) <= 10000) by (nonlinear_arith)
                requires
                    0 < total as int,
                    0 <= used as int <= total as int,
            ;
        }
    }
}

/// Disk usage is a percentage for every probed disk list, the empty list
/// reading as exactly zero.
pub proof fn lemma_disk_usage_in_range(disks: Seq<DiskSpace>)
    ensures
        0 <= disk_usage_spec(disks) <= 10000,
        disks.len() == 0 ==> disk_usage_spec(disks) == 0,
{
    if disks.len() > 0 {
        let t = disks[0].total;
        let a = disks[0].available;
        if t > 0 && a <= t {
            assert(0 <= (t - a) * 10000 / (t as int) <= 10000) by (nonlinear_arith)
                requires
                    0 < t as int,
                    0 <= t - a <= t as int,
            ;
        }
    }
}

/// When no sensor's label names the processor, the temperature is the fixed
/// placeholder.
pub proof fn lemma_temperature_default(sensors: Seq<SensorReading>)
    requires
        forall|i: int| 0 <= i < sensors.len() ==> !is_cpu_label(sensors[i].label@),
    ensures
        temperature_spec(sensors) == TEMPERATURE_FALLBACK_CENTI,
    decreases sensors.len(),
{
    if sensors.len() > 0 {
        lemma_temperature_default(sensors.drop_first());
    }
}

/// When some sensor's label names the processor, the temperature is the
/// first such sensor's own reading, not a placeholder.
pub proof fn lemma_temperature_first_match(sensors: Seq<SensorReading>, i: int)
    requires
        0 <= i < sensors.len(),
        is_cpu_label(sensors[i].label@),
        forall|k: int| 0 <= k < i ==> !is_cpu_label(sensors[k].label@),
    ensures
        temperature_spec(sensors) == sensors[i].temp_centi,
    decreases i,
{
    if i > 0 {
        lemma_temperature_first_match(sensors.drop_first(), i - 1);
    }
}

/// An absent GPU backend reads as exactly zero on all three GPU metrics.
pub proof fn lemma_gpu_absent_defaults()
    ensures
        gpu_usage_spec(Option::<u32>::None) == 0,
        gpu_temp_spec(Option::<u32>::None) == 0,
        gpu_power_spec(Option::<u32>::None) == 0,
{
}

/// Any two reads of one cached state agree: each metric is a function of the
/// probed values alone, so an unchanged machine cannot flip a fallback
/// default between two calls.
pub proof fn lemma_reads_stable(
    readings: Seq<u32>,
    sensors: Seq<SensorReading>,
    disks: Seq<DiskSpace>,
    c1: int,
    c2: int,
    t1: i64,
    t2: i64,
    d1: int,
    d2: int,
)
    requires
        c1 == cpu_usage_spec(readings),
        c2 == cpu_usage_spec(readings),
        t1 == temperature_spec(sensors),
        t2 == temperature_spec(sensors),
        d1 == disk_usage_spec(disks),
        d2 == disk_usage_spec(disks),
    ensures
        c1 == c2,
        t1 == t2,
        d1 == d2,
{
}

/// CPU usage of the cached per-core readings: their arithmetic mean, `0`
/// when no core was enumerated.
pub fn cpu_usage_from(readings: &Vec<u32>) -> (r: u64)
    ensures
        r as int == cpu_usage_spec(readings@),
        r <= u32::MAX,
{
    if readings.len() == 0 {
        return 0;
    }
    let mut acc: u128 = 0;
    let mut i: usize = 0;
    while i < readings.len()
        invariant
            i <= readings@.len(),
            acc == sum(readings@.take(i as int)),
            acc <= (i as int) * (u32::MAX as int),
        decreases readings@.len() - i,
    {
        proof {
            assert(readings@.take(i + 1).drop_last() =~= readings@.take(i as int));
            assert(readings@.take(i + 1).last() == readings@[i as int]);
        }
        acc = acc + (readings[i] as u128);
        i += 1;
    }
    proof {
        assert(readings@.take(readings@.len() as int) =~= readings@);
        lemma_sum_bounded(readings@, u32::MAX as int);
        let n = readings@.len() as int;
        assert(sum(readings@) / n <= u32::MAX && sum(readings@) / n >= 0) by (nonlinear_arith)
            requires
                n >= 1,
                0 <= sum(readings@) <= n * (u32::MAX as int),
        ;
    }
    let mean: u128 = acc / (readings.len() as u128);
    mean as u64
}

/// Memory usage from the probed used and total bytes.
pub fn memory_usage_from(used: u64, total: u64) -> (r: u64)
    ensures
        r as int == memory_usage_spec(used, total),
        r <= 10000,
{
    if total == 0 {
        return 0;
    }
    let scaled: u128 = (used as u128) * 10000 / (total as u128);
    if scaled > 10000 {
        10000
    } else {
        scaled as u64
    }
}

/// Usage of one disk from its probed total and available bytes.
pub fn disk_percent_from(total: u64, available: u64) -> (r: u64)
    ensures
        r as int == disk_percent_spec(total, available),
        r <= 10000,
{
    if total == 0 {
        return 0;
    }
    if available > total {
        return 0;
    }
    let used: u64 = total - available;
    proof {
        assert((used as int) * 10000 / (total as int) <= 10000) by (nonlinear_arith)
            requires
                0 < total as int,
                0 <= used as int <= total as int,
        ;
    }
    let scaled: u128 = (used as u128) * 10000 / (total as u128);
    scaled as u64
}

/// Disk usage from the probed disk list: the first disk's, `0` when the list
/// is empty.
pub fn disk_usage_from(disks: &Vec<DiskSpace>) -> (r: u64)
    ensures
        r as int == disk_usage_spec(disks@),
        r <= 10000,
{
    if disks.len() == 0 {
        return 0;
    }
    disk_percent_from(disks[0].total, disks[0].available)
}

/// Temperature from the probed sensor list: the first sensor whose label
/// names the processor, or the fixed placeholder when none does.
pub fn temperature_from(sensors: &Vec<SensorReading>) -> (r: i64)
    ensures
        r == temperature_spec(sensors@),
{
    proof {
        assert(sensors@.skip(0) =~= sensors@);
    }
    let mut i: usize = 0;
    while i < sensors.len()
        invariant
            i <= sensors@.len(),
            temperature_spec(sensors@) == temperature_spec(sensors@.skip(i as int)),
            forall|k: int| 0 <= k < i ==> !is_cpu_label(sensors@[k].label@),
        decreases sensors@.len() - i,
    {
        if label_is_cpu(&sensors[i].label) {
            assert(sensors@.skip(i as int)[0] == sensors@[i as int]);
            return sensors[i].temp_centi;
        }
        proof {
            assert(sensors@.skip(i as int).drop_first() =~= sensors@.skip(i + 1));
        }
        i += 1;
    }
    proof {
        assert(sensors@.skip(i as int).len() == 0);
    }
    TEMPERATURE_FALLBACK_CENTI
}

/// GPU usage from one backend query, `None` standing for an absent backend
/// or a failed query.
pub fn gpu_usage_from(reading: Option<u32>) -> (r: u64)
    ensures
        r as int == gpu_usage_spec(reading),
{
    match reading {
        Option::None => 0,
        Option::Some(g) => (g as u64) * 100,
    }
}

/// GPU temperature from one backend query, `None` standing for an absent
/// backend or a failed query.
pub fn gpu_temp_from(reading: Option<u32>) -> (r: i64)
    ensures
        r as int == gpu_temp_spec(reading),
{
    match reading {
        Option::None => 0,
        Option::Some(t) => (t as i64) * 100,
    }
}

/// GPU power from one backend query in milliwatts, `None` standing for an
/// absent backend or a failed query.
pub fn gpu_power_from(reading: Option<u32>) -> (r: u64)
    ensures
        r as int == gpu_power_spec(reading),
{
    match reading {
        Option::None => 0,
        Option::Some(mw) => (mw as u64) / 10,
    }
}

} // verus!
