//! Derivation of per-container metrics from two counter snapshots.
//!
//! A container's runtime counters are sampled twice in quick succession; the
//! elapsed time between the two samples is the sampling window. CPU
//! utilization is derived from the counter deltas over that window, network
//! traffic is reported both as absolute counters and as deltas, and memory
//! is reported directly from the second (advanced) snapshot.

use vstd::arithmetic::div_mod::{lemma_div_is_ordered, lemma_div_multiples_vanish, lemma_div_pos_is_pos};
use vstd::arithmetic::mul::{lemma_mul_inequality, lemma_mul_nonnegative, lemma_mul_upper_bound};
use vstd::prelude::*;

verus! {

/// One point-in-time read of a container's cumulative resource counters.
///
/// All counters are cumulative and, per the runtime's contract, monotonically
/// non-decreasing for the lifetime of a container; a regression between two
/// samples indicates a counter reset (for example a container restart) and is
/// clamped away by the derivation below.
pub struct StatsSnapshot {
    /// Cumulative CPU time consumed by the container, all cores together.
    pub cpu_total: u64,
    /// Cumulative CPU time per logical core, one entry per core.
    pub percpu: Vec<u64>,
    /// Cumulative host-wide CPU time.
    pub system_total: u64,
    /// Memory currently in use, in bytes.
    pub memory_usage: u64,
    /// Memory limit, in bytes.
    pub memory_limit: u64,
    /// Cumulative network bytes received.
    pub rx_bytes: u64,
    /// Cumulative network bytes sent.
    pub tx_bytes: u64,
}

/// Metrics derived from one (baseline, advanced) snapshot pair.
pub struct MetricsRecord {
    /// Aggregate CPU utilization percent over the sampling window.
    pub cpu_total_percent: u64,
    /// Per-core CPU utilization percents, one entry per core of the
    /// baseline snapshot.
    pub percpu_percent: Vec<u64>,
    /// Memory in use at the advanced snapshot, in bytes.
    pub memory_usage: u64,
    /// Memory limit at the advanced snapshot, in bytes.
    pub memory_limit: u64,
    /// Absolute network bytes received, from the advanced snapshot.
    pub rx_bytes: u64,
    /// Absolute network bytes sent, from the advanced snapshot.
    pub tx_bytes: u64,
    /// Network bytes received during the sampling window.
    pub rx_bytes_delta: u64,
    /// Network bytes sent during the sampling window.
    pub tx_bytes_delta: u64,
}

/// The one failure of the derivation: the two snapshots disagree on how many
/// logical cores the container sees, so per-core deltas cannot be matched up.
#[derive(Debug, PartialEq, Eq, Structural)]
pub enum MetricsError {
    CoreCountMismatch,
}

/// The CPU utilization percent derived from a counter pair, as an unbounded
/// integer: the CPU-time delta over the host-wide CPU-time delta, scaled by
/// the core count and expressed as a percent, rounded toward zero.
///
/// A zero or regressing host-wide delta and a regressing CPU delta (counter
/// resets) both yield exactly `0` rather than a division fault or a negative
/// value.
pub open spec fn cpu_percent_math(cpu0: int, cpu1: int, sys0: int, sys1: int, cores: int) -> int {
    if sys1 <= sys0 || cpu1 < cpu0 {
        0
    } else {
        ((cpu1 - cpu0) * cores * 100) / (sys1 - sys0)
    }
}

/// `cpu_percent_math`, saturated to the `u64` range carried by a
/// `MetricsRecord`. Saturation is reachable only from counter pairs that
/// break the runtime's monotonicity contract so badly that the container
/// appears to out-consume the whole host by many orders of magnitude.
pub open spec fn cpu_percent_clamped(cpu0: int, cpu1: int, sys0: int, sys1: int, cores: int) -> int {
    let p = cpu_percent_math(cpu0, cpu1, sys0, sys1, cores);
    if p > u64::MAX {
        u64::MAX as int
    } else {
        p
    }
}

/// The growth of a cumulative counter between two samples, clamped to zero
/// when the counter regressed (reset).
pub open spec fn counter_delta_spec(base: int, adv: int) -> int {
    if adv >= base {
        adv - base
    } else {
        0
    }
}

/// Computes the CPU utilization percent for one counter pair.
pub fn cpu_percent(cpu0: u64, cpu1: u64, sys0: u64, sys1: u64, cores: u32) -> (r: u64)
    ensures
        r == cpu_percent_clamped(cpu0 as int, cpu1 as int, sys0 as int, sys1 as int, cores as int),
{
    if sys1 <= sys0 || cpu1 < cpu0 {
        return 0;
    }
    let cpu_delta: u128 = (cpu1 - cpu0) as u128;
    let sys_delta: u128 = (sys1 - sys0) as u128;
    proof {
        lemma_mul_upper_bound(cpu_delta as int, u64::MAX as int, cores as int, u32::MAX as int);
        lemma_mul_nonnegative(cpu_delta as int, cores as int);
    }
    let numerator: u128 = cpu_delta * (cores as u128) * 100;
    let p: u128 = numerator / sys_delta;
    if p > u64::MAX as u128 {
        u64::MAX
    } else {
        p as u64
    }
}

/// Computes the growth of one cumulative counter over the sampling window.
pub fn counter_delta(base: u64, adv: u64) -> (r: u64)
    ensures
        r == counter_delta_spec(base as int, adv as int),
{
    if adv >= base {
        adv - base
    } else {
        0
    }
}

/// What it means for a derived record to be the metrics of a snapshot pair:
/// every field of `m` is pinned to the formula over `base` and `adv`.
pub open spec fn metrics_record_matches(m: MetricsRecord, base: StatsSnapshot, adv: StatsSnapshot) -> bool {
    let cores = base.percpu@.len() as int;
    &&& m.cpu_total_percent == cpu_percent_clamped(
        base.cpu_total as int,
        adv.cpu_total as int,
        base.system_total as int,
        adv.system_total as int,
        cores,
    )
    &&& m.percpu_percent@.len() == base.percpu@.len()
    &&& forall|i: int|
        0 <= i < base.percpu@.len() ==> m.percpu_percent@[i] == cpu_percent_clamped(
            base.percpu@[i] as int,
            adv.percpu@[i] as int,
            base.system_total as int,
            adv.system_total as int,
            cores,
        )
    &&& m.memory_usage == adv.memory_usage
    &&& m.memory_limit == adv.memory_limit
    &&& m.rx_bytes == adv.rx_bytes
    &&& m.tx_bytes == adv.tx_bytes
    &&& m.rx_bytes_delta == counter_delta_spec(base.rx_bytes as int, adv.rx_bytes as int)
    &&& m.tx_bytes_delta == counter_delta_spec(base.tx_bytes as int, adv.tx_bytes as int)
}

/// Derives the metrics of one snapshot pair. The core count is the length of
/// the baseline's per-core sequence; a pair whose advanced snapshot reports a
/// different core count is rejected rather than silently truncated.
pub fn compute_metrics(base: &StatsSnapshot, adv: &StatsSnapshot) -> (r: Result<MetricsRecord, MetricsError>)
    requires
        base.percpu@.len() <= u32::MAX,
    ensures
        r is Ok <==> adv.percpu@.len() == base.percpu@.len(),
        r matches Ok(m) ==> metrics_record_matches(m, *base, *adv),
        r matches Err(e) ==> e == MetricsError::CoreCountMismatch,
{
    let cores_len: usize = base.percpu.len();
    if adv.percpu.len() != cores_len {
        return Err(MetricsError::CoreCountMismatch);
    }
    let cores: u32 = cores_len as u32;

    let cpu_total_percent = cpu_percent(
        base.cpu_total,
        adv.cpu_total,
        base.system_total,
        adv.system_total,
        cores,
    );

    let mut percpu_percent: Vec<u64> = Vec::new();
    let mut i: usize = 0;
    while i < cores_len
        invariant
            i <= cores_len,
            cores_len == base.percpu@.len(),
            cores_len == adv.percpu@.len(),
            cores == cores_len as u32,
            cores_len <= u32::MAX,
            percpu_percent@.len() == i,
            forall|j: int|
                0 <= j < i ==> percpu_percent@[j] == cpu_percent_clamped(
                    base.percpu@[j] as int,
                    adv.percpu@[j] as int,
                    base.system_total as int,
                    adv.system_total as int,
                    cores_len as int,
                ),
        decreases cores_len - i,
    {
        let p = cpu_percent(
            base.percpu[i],
            adv.percpu[i],
            base.system_total,
            adv.system_total,
            cores,
        );
        percpu_percent.push(p);
        i = i + 1;
    }

    Ok(MetricsRecord {
        cpu_total_percent,
        percpu_percent,
        memory_usage: adv.memory_usage,
        memory_limit: adv.memory_limit,
        rx_bytes: adv.rx_bytes,
        tx_bytes: adv.tx_bytes,
        rx_bytes_delta: counter_delta(base.rx_bytes, adv.rx_bytes),
        tx_bytes_delta: counter_delta(base.tx_bytes, adv.tx_bytes),
    })
}

/// For every snapshot pair whose counters honour the runtime's contract —
/// the host-wide counter strictly advanced, the container's counter did not
/// regress, and the container consumed no more CPU time than the whole host
/// did — the derived CPU percent lies in `[0, 100 * cores]`.
pub proof fn lemma_cpu_percent_in_range(cpu0: int, cpu1: int, sys0: int, sys1: int, cores: int)
    requires
        sys1 > sys0,
        cpu0 <= cpu1,
        cpu1 - cpu0 <= sys1 - sys0,
        cores >= 0,
    ensures
        0 <= cpu_percent_math(cpu0, cpu1, sys0, sys1, cores) <= 100 * cores,
{
    let d = cpu1 - cpu0;
    let s = sys1 - sys0;
    lemma_mul_nonnegative(d * cores, 100);
    lemma_mul_nonnegative(d, cores);
    lemma_div_pos_is_pos(d * cores * 100, s);
    assert(d * cores * 100 <= s * cores * 100) by {
        lemma_mul_inequality(d, s, cores * 100);
        assert(d * (cores * 100) == d * cores * 100) by {
            vstd::arithmetic::mul::lemma_mul_is_associative(d, cores, 100);
        }
        assert(s * (cores * 100) == s * cores * 100) by {
            vstd::arithmetic::mul::lemma_mul_is_associative(s, cores, 100);
        }
    }
    lemma_div_is_ordered(d * cores * 100, s * cores * 100, s);
    assert(s * cores * 100 / s == cores * 100) by {
        lemma_div_multiples_vanish(cores * 100, s);
        assert(s * (cores * 100) == s * cores * 100) by {
            vstd::arithmetic::mul::lemma_mul_is_associative(s, cores, 100);
        }
    }
    assert(100 * cores == cores * 100) by {
        vstd::arithmetic::mul::lemma_mul_is_commutative(100, cores);
    }
}

/// The bounded percent also survives the saturation to `u64` untouched
/// whenever the core count itself fits the record's `u32` core range, so the
/// value carried by a `MetricsRecord` obeys the same `[0, 100 * cores]`
/// bounds.
pub proof fn lemma_cpu_percent_clamped_in_range(cpu0: int, cpu1: int, sys0: int, sys1: int, cores: int)
    requires
        sys1 > sys0,
        cpu0 <= cpu1,
        cpu1 - cpu0 <= sys1 - sys0,
        0 <= cores <= u32::MAX,
    ensures
        cpu_percent_clamped(cpu0, cpu1, sys0, sys1, cores)
            == cpu_percent_math(cpu0, cpu1, sys0, sys1, cores),
        0 <= cpu_percent_clamped(cpu0, cpu1, sys0, sys1, cores) <= 100 * cores,
{
    lemma_cpu_percent_in_range(cpu0, cpu1, sys0, sys1, cores);
    lemma_mul_inequality(cores, u32::MAX as int, 100);
    vstd::arithmetic::mul::lemma_mul_is_commutative(cores, 100);
    vstd::arithmetic::mul::lemma_mul_is_commutative(u32::MAX as int, 100);
}

/// Every CPU percent of a derived record — the aggregate and each per-core
/// entry — lies in `[0, 100 * cores]` for a snapshot pair whose counters
/// honour the runtime's contract: the host-wide counter strictly advanced
/// and no per-container counter outgrew it.
pub proof fn lemma_metrics_percents_in_range(m: MetricsRecord, base: StatsSnapshot, adv: StatsSnapshot)
    requires
        metrics_record_matches(m, base, adv),
        base.percpu@.len() <= u32::MAX,
        adv.system_total > base.system_total,
        adv.cpu_total >= base.cpu_total,
        adv.cpu_total - base.cpu_total <= adv.system_total - base.system_total,
        forall|i: int|
            0 <= i < base.percpu@.len() ==> base.percpu@[i] <= #[trigger] adv.percpu@[i],
        forall|i: int|
            0 <= i < base.percpu@.len() ==> #[trigger] adv.percpu@[i] - base.percpu@[i]
                <= adv.system_total - base.system_total,
    ensures
        0 <= m.cpu_total_percent <= 100 * base.percpu@.len(),
        forall|i: int|
            0 <= i < base.percpu@.len() ==> 0 <= #[trigger] m.percpu_percent@[i]
                <= 100 * base.percpu@.len(),
{
    let cores = base.percpu@.len() as int;
    lemma_cpu_percent_clamped_in_range(
        base.cpu_total as int,
        adv.cpu_total as int,
        base.system_total as int,
        adv.system_total as int,
        cores,
    );
    assert forall|i: int| 0 <= i < base.percpu@.len() implies 0 <= #[trigger] m.percpu_percent@[i]
        <= 100 * base.percpu@.len() by {
        lemma_cpu_percent_clamped_in_range(
            base.percpu@[i] as int,
            adv.percpu@[i] as int,
            base.system_total as int,
            adv.system_total as int,
            cores,
        );
    }
}

/// A sampling window in which the host-wide counter did not move yields a
/// CPU percent of exactly `0`: there is no division fault and no undefined
/// value on a zero system delta.
pub proof fn lemma_zero_system_delta_zero_percent(cpu0: int, cpu1: int, sys: int, cores: int)
    ensures
        cpu_percent_clamped(cpu0, cpu1, sys, sys, cores) == 0,
{
}

/// A regressing container CPU counter (a reset between the two samples)
/// yields a CPU percent of exactly `0`, never a negative value.
pub proof fn lemma_cpu_counter_regression_zero_percent(cpu0: int, cpu1: int, sys0: int, sys1: int, cores: int)
    requires
        cpu1 < cpu0,
    ensures
        cpu_percent_clamped(cpu0, cpu1, sys0, sys1, cores) == 0,
{
}

/// An unchanged cumulative network counter yields a delta of `0`, and a
/// regressing one (a reset) is clamped to `0`, never negative.
pub proof fn lemma_counter_delta_never_negative(base: int, adv: int)
    ensures
        counter_delta_spec(base, adv) >= 0,
        adv == base ==> counter_delta_spec(base, adv) == 0,
        adv < base ==> counter_delta_spec(base, adv) == 0,
{
}

} // verus!
