//! Resource usage from one stats snapshot: CPU and memory percentages in
//! hundredths of a percent, and summed network and block I/O counters.
use vstd::prelude::*;
use crate::container::joined3;
use crate::text::{dec_text, decimal_text, same_text};

verus! {

/// `n / d` rounded to the nearest integer, halves away from zero.
pub open spec fn round_div(n: nat, d: nat) -> nat
    recommends
        d > 0,
{
    (2 * n + d) / (2 * d)
}

/// CPU use in hundredths of a percent: `cpu_delta / system_delta * cpus * 100`,
/// rounded to two decimals, and 0 unless both deltas are positive.
pub open spec fn cpu_hundredths(cpu: u64, pre_cpu: u64, system: u64, pre_system: u64, cpus: u64) -> nat {
    if system > pre_system && cpu > pre_cpu {
        round_div(((cpu - pre_cpu) * cpus * 10000) as nat, (system - pre_system) as nat)
    } else {
        0
    }
}

/// Memory use in hundredths of a percent of the limit, 0 without a limit.
pub open spec fn memory_hundredths(usage: u64, limit: u64) -> nat {
    if limit > 0 {
        round_div((usage * 10000) as nat, limit as nat)
    } else {
        0
    }
}

/// The sum of counters, saturating at `u64::MAX`.
pub open spec fn total(v: Seq<u64>) -> nat
    decreases v.len(),
{
    if v.len() == 0 {
        0
    } else {
        let t: nat = total(v.drop_last()) + v.last() as nat;
        if t > u64::MAX {
            u64::MAX as nat
        } else {
            t
        }
    }
}

/// The raw counters of one stats snapshot.
#[derive(Debug, Clone)]
pub struct RawStats {
    pub cpu_total: u64,
    pub pre_cpu_total: u64,
    pub system_total: u64,
    pub pre_system_total: u64,
    /// Online CPUs; one when the runtime does not say.
    pub online_cpus: u64,
    pub memory_usage: u64,
    pub memory_limit: u64,
    pub rx_bytes: Vec<u64>,
    pub tx_bytes: Vec<u64>,
    pub block_read: Vec<u64>,
    pub block_write: Vec<u64>,
}

/// What the operator sees of a container's resource use.
#[derive(Debug, Clone)]
pub struct UsageSummary {
    pub cpu_hundredths: u64,
    pub memory_usage: u64,
    pub memory_limit: u64,
    pub memory_hundredths: u64,
    pub network_rx_bytes: u64,
    pub network_tx_bytes: u64,
    pub block_read_bytes: u64,
    pub block_write_bytes: u64,
}

/// The highest core count for which a percentage is computed exactly.
pub const MAX_CPUS: u64 = 65536;

fn rounded_ratio(n: u128, d: u128) -> (r: u128)
    requires
        d > 0,
        n <= u64::MAX as u128 * 65536 * 10000,
        d <= u64::MAX,
    ensures
        r as nat == round_div(n as nat, d as nat),
{
    (2 * n + d) / (2 * d)
}

/// Sums counters, saturating at `u64::MAX`.
pub fn sum_counters(v: &Vec<u64>) -> (r: u64)
    ensures
        r as nat == total(v@),
{
    let mut t: u64 = 0;
    let mut i: usize = 0;
    while i < v.len()
        invariant
            i <= v@.len(),
            t as nat == total(v@.take(i as int)),
        decreases v@.len() - i,
    {
        assert(v@.take(i + 1).drop_last() =~= v@.take(i as int));
        t = t.saturating_add(v[i]);
        i = i + 1;
    }
    assert(v@.take(v@.len() as int) =~= v@);
    t
}

/// The usage shown for one snapshot. Core counts above `MAX_CPUS` are
/// counted as `MAX_CPUS`.
pub fn summarize(s: &RawStats) -> (r: UsageSummary)
    ensures
        r.cpu_hundredths as nat == {
            let c = if s.online_cpus > MAX_CPUS { MAX_CPUS } else { s.online_cpus };
            let v = cpu_hundredths(s.cpu_total, s.pre_cpu_total, s.system_total, s.pre_system_total, c);
            if v > u64::MAX { u64::MAX as nat } else { v }
        },
        r.memory_usage == s.memory_usage,
        r.memory_limit == s.memory_limit,
        r.memory_hundredths as nat == {
            let v = memory_hundredths(s.memory_usage, s.memory_limit);
            if v > u64::MAX { u64::MAX as nat } else { v }
        },
        r.network_rx_bytes as nat == total(s.rx_bytes@),
        r.network_tx_bytes as nat == total(s.tx_bytes@),
        r.block_read_bytes as nat == total(s.block_read@),
        r.block_write_bytes as nat == total(s.block_write@),
{
    let cpus: u64 = if s.online_cpus > MAX_CPUS {
        MAX_CPUS
    } else {
        s.online_cpus
    };
    let cpu: u128 = if s.system_total > s.pre_system_total && s.cpu_total > s.pre_cpu_total {
        let delta: u128 = (s.cpu_total - s.pre_cpu_total) as u128;
        assert(delta * (cpus as u128) <= u64::MAX as u128 * 65536) by (nonlinear_arith)
            requires
                cpus <= 65536,
                delta <= u64::MAX,
        ;
        let scaled: u128 = delta * (cpus as u128);
        let num: u128 = scaled * 10000;
        rounded_ratio(num, (s.system_total - s.pre_system_total) as u128)
    } else {
        0
    };
    let mem: u128 = if s.memory_limit > 0 {
        rounded_ratio((s.memory_usage as u128) * 10000, s.memory_limit as u128)
    } else {
        0
    };
    UsageSummary {
        cpu_hundredths: if cpu > u64::MAX as u128 {
            u64::MAX
        } else {
            cpu as u64
        },
        memory_usage: s.memory_usage,
        memory_limit: s.memory_limit,
        memory_hundredths: if mem > u64::MAX as u128 {
            u64::MAX
        } else {
            mem as u64
        },
        network_rx_bytes: sum_counters(&s.rx_bytes),
        network_tx_bytes: sum_counters(&s.tx_bytes),
        block_read_bytes: sum_counters(&s.block_read),
        block_write_bytes: sum_counters(&s.block_write),
    }
}

/// The block I/O direction of an entry, as the runtime spells it.
pub open spec fn is_read_op(op: Seq<char>) -> bool {
    op == "read"@ || op == "Read"@
}

pub open spec fn is_write_op(op: Seq<char>) -> bool {
    op == "write"@ || op == "Write"@
}

/// Splits block I/O entries `(operation, bytes)` into read and written counters.
pub fn split_block_io(entries: &Vec<(String, u64)>) -> (r: (Vec<u64>, Vec<u64>))
    ensures
        r.0@ == entries@.filter(|e: (String, u64)| is_read_op(e.0@)).map_values(
            |e: (String, u64)| e.1,
        ),
        r.1@ == entries@.filter(|e: (String, u64)| is_write_op(e.0@)).map_values(
            |e: (String, u64)| e.1,
        ),
{
    let ghost rd = |e: (String, u64)| is_read_op(e.0@);
    let ghost wr = |e: (String, u64)| is_write_op(e.0@);
    let mut reads: Vec<u64> = Vec::new();
    let mut writes: Vec<u64> = Vec::new();
    let mut i: usize = 0;
    while i < entries.len()
        invariant
            rd == (|e: (String, u64)| is_read_op(e.0@)),
            wr == (|e: (String, u64)| is_write_op(e.0@)),
            i <= entries@.len(),
            reads@ == entries@.take(i as int).filter(rd).map_values(|e: (String, u64)| e.1),
            writes@ == entries@.take(i as int).filter(wr).map_values(|e: (String, u64)| e.1),
        decreases entries@.len() - i,
    {
        proof {
            reveal(Seq::filter);
            assert(entries@.take(i + 1).drop_last() =~= entries@.take(i as int));
            assert(entries@.take(i + 1).last() == entries@[i as int]);
        }
        let op = entries[i].0.as_str();
        let ghost r0 = reads@;
        let ghost w0 = writes@;
        if same_text(op, "read") || same_text(op, "Read") {
            reads.push(entries[i].1);
        }
        if same_text(op, "write") || same_text(op, "Write") {
            writes.push(entries[i].1);
        }
        proof {
            let t = entries@.take(i + 1);
            let fr = t.filter(rd);
            let fw = t.filter(wr);
            assert(reads@ =~= fr.map_values(|e: (String, u64)| e.1));
            assert(writes@ =~= fw.map_values(|e: (String, u64)| e.1));
        }
        i = i + 1;
    }
    assert(entries@.take(entries@.len() as int) =~= entries@);
    (reads, writes)
}

/// A percentage in hundredths, written with two decimals (`1234` is `12.34`).
pub open spec fn hundredths_text(h: nat) -> Seq<char> {
    dec_text(h / 100) + "."@ + dec_text((h % 100) / 10) + dec_text(h % 10)
}

/// Writes a percentage in hundredths with two decimals.
pub fn format_hundredths(h: u64) -> (r: String)
    ensures
        r@ == hundredths_text(h as nat),
{
    let mut r = decimal_text(h / 100);
    r.append(".");
    r.append(decimal_text((h % 100) / 10).as_str());
    r.append(decimal_text(h % 10).as_str());
    r
}

/// The warning for CPU use over its threshold.
pub open spec fn cpu_alert(name: Seq<char>, h: nat) -> Seq<char> {
    "\u{26A0}\u{FE0F} "@ + name + " - High CPU usage: "@ + hundredths_text(h) + "%"@
}

/// The warning for memory use over its threshold.
pub open spec fn memory_alert(name: Seq<char>, h: nat) -> Seq<char> {
    "\u{26A0}\u{FE0F} "@ + name + " - High Memory usage: "@ + hundredths_text(h) + "%"@
}

/// The alerts for one container: CPU then memory, each when strictly above
/// its threshold (all in hundredths of a percent).
pub fn usage_alerts(name: &str, u: &UsageSummary, cpu_limit: u64, memory_limit: u64) -> (r: Vec<
    String,
>)
    ensures
        r@.len() == (if u.cpu_hundredths > cpu_limit { 1int } else { 0 }) + (if u.memory_hundredths
            > memory_limit { 1int } else { 0 }),
        u.cpu_hundredths > cpu_limit ==> r@[0]@ == cpu_alert(name@, u.cpu_hundredths as nat),
        u.memory_hundredths > memory_limit ==> r@[r@.len() - 1]@ == memory_alert(
            name@,
            u.memory_hundredths as nat,
        ),
{
    let mut r: Vec<String> = Vec::new();
    if u.cpu_hundredths > cpu_limit {
        let mut m = joined3("\u{26A0}\u{FE0F} ", name, " - High CPU usage: ");
        m.append(format_hundredths(u.cpu_hundredths).as_str());
        m.append("%");
        r.push(m);
    }
    if u.memory_hundredths > memory_limit {
        let mut m = joined3("\u{26A0}\u{FE0F} ", name, " - High Memory usage: ");
        m.append(format_hundredths(u.memory_hundredths).as_str());
        m.append("%");
        r.push(m);
    }
    r
}

} // verus!
