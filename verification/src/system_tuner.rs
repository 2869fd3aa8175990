//! Kernel-parameter audit: which sysfs/procfs settings matter for sustained
//! performance, what they should be, whether the current value meets the
//! recommendation, and the root shell script that applies every recommendation.

use vstd::prelude::*;
use vstd::string::*;
use crate::text::{has_substring, occurs_at, lemma_trimmed_is_substring, str_contains, str_equal, trim_str, trimmed};

verus! {

/// Represents a single tunable parameter.
#[derive(Debug)]
pub struct Tunable {
    pub name: &'static str,
    pub path: &'static str,
    pub current: String,
    pub recommended: &'static str,
    pub description: &'static str,
}

/// The raw contents of the files the audit reads, `None` where a file could not be read.
pub struct SystemReadings {
    /// `/sys/devices/system/cpu/cpu0/cpufreq/scaling_governor`
    pub governor: Option<String>,
    /// `/sys/devices/system/cpu/intel_pstate/min_perf_pct`
    pub min_perf_pct: Option<String>,
    /// `/proc/sys/vm/swappiness`
    pub swappiness: Option<String>,
    /// `/sys/kernel/mm/transparent_hugepage/enabled`
    pub transparent_hugepages: Option<String>,
    /// `/proc/sys/vm/dirty_ratio`
    pub dirty_ratio: Option<String>,
    /// `/proc/sys/vm/dirty_background_ratio`
    pub dirty_background_ratio: Option<String>,
    /// `/proc/sys/kernel/numa_balancing`
    pub numa_balancing: Option<String>,
    /// `/proc/sys/kernel/sched_energy_aware`
    pub sched_energy_aware: Option<String>,
}

/// The value a sysfs file shows: its trimmed contents, or `N/A` when unreadable.
pub open spec fn sysfs_text(contents: Option<String>) -> Seq<char> {
    match contents {
        Some(s) => trimmed(s@),
        None => trimmed("N/A"@),
    }
}

/// The displayed value of a sysfs file from its contents (`None` if unreadable).
pub fn sysfs_value(contents: &Option<String>) -> (r: String)
    ensures
        r@ == sysfs_text(*contents),
{
    match contents {
        Some(s) => String::from_str(trim_str(s.as_str())),
        None => String::from_str(trim_str("N/A")),
    }
}


/// The fields of a tunable as text: name, path, current value, recommendation, description.
pub open spec fn tunable_fields(t: Tunable) -> (Seq<char>, Seq<char>, Seq<char>, Seq<char>, Seq<char>) {
    (t.name@, t.path@, t.current@, t.recommended@, t.description@)
}

/// The audit table for the given readings, in audit order.
pub open spec fn audit_table(r: SystemReadings) -> Seq<(Seq<char>, Seq<char>, Seq<char>, Seq<char>, Seq<char>)> {
    seq![
        (
            "CPU Governor"@,
            "/sys/devices/system/cpu/cpu*/cpufreq/scaling_governor"@,
            sysfs_text(r.governor),
            "performance"@,
            "powersave throttles P-cores to save battery. performance locks them at max frequency."@,
        ),
        (
            "Intel P-State Min Perf %"@,
            "/sys/devices/system/cpu/intel_pstate/min_perf_pct"@,
            sysfs_text(r.min_perf_pct),
            "100"@,
            "Forces P-cores to always run at max frequency. Eliminates ramp-up latency."@,
        ),
        (
            "VM Swappiness"@,
            "/proc/sys/vm/swappiness"@,
            sysfs_text(r.swappiness),
            "10"@,
            "Reduces kernel tendency to swap pages to disk. Critical for compute buffers."@,
        ),
        (
            "Transparent Hugepages"@,
            "/sys/kernel/mm/transparent_hugepage/enabled"@,
            sysfs_text(r.transparent_hugepages),
            "[always]"@,
            "Enables 2MB pages to reduce TLB misses for large memory allocations."@,
        ),
        (
            "VM Dirty Ratio"@,
            "/proc/sys/vm/dirty_ratio"@,
            sysfs_text(r.dirty_ratio),
            "40"@,
            "Higher dirty ratio delays disk writeback, keeping more data in RAM longer."@,
        ),
        (
            "VM Dirty Background Ratio"@,
            "/proc/sys/vm/dirty_background_ratio"@,
            sysfs_text(r.dirty_background_ratio),
            "10"@,
            "When background writeback starts. Lower = smoother, less bursty IO."@,
        ),
        (
            "NUMA Balancing"@,
            "/proc/sys/kernel/numa_balancing"@,
            sysfs_text(r.numa_balancing),
            "0"@,
            "Single-socket system. NUMA balancing adds overhead with no benefit."@,
        ),
        (
            "Sched Energy Aware"@,
            "/proc/sys/kernel/sched_energy_aware"@,
            sysfs_text(r.sched_energy_aware),
            "0"@,
            "When ON, scheduler prefers E-cores to save power. Turn OFF for max perf."@,
        ),
    ]
}

/// Audits the system from the contents of its tunable files and returns every
/// tunable with its current value.
pub fn audit_system(readings: &SystemReadings) -> (tunables: Vec<Tunable>)
    ensures
        tunables@.map_values(|t: Tunable| tunable_fields(t)) == audit_table(*readings),
{
    let mut tunables: Vec<Tunable> = Vec::new();
    tunables.push(Tunable {
        name: "CPU Governor",
        path: "/sys/devices/system/cpu/cpu*/cpufreq/scaling_governor",
        current: sysfs_value(&readings.governor),
        recommended: "performance",
        description: "powersave throttles P-cores to save battery. performance locks them at max frequency.",
    });
    tunables.push(Tunable {
        name: "Intel P-State Min Perf %",
        path: "/sys/devices/system/cpu/intel_pstate/min_perf_pct",
        current: sysfs_value(&readings.min_perf_pct),
        recommended: "100",
        description: "Forces P-cores to always run at max frequency. Eliminates ramp-up latency.",
    });
    tunables.push(Tunable {
        name: "VM Swappiness",
        path: "/proc/sys/vm/swappiness",
        current: sysfs_value(&readings.swappiness),
        recommended: "10",
        description: "Reduces kernel tendency to swap pages to disk. Critical for compute buffers.",
    });
    tunables.push(Tunable {
        name: "Transparent Hugepages",
        path: "/sys/kernel/mm/transparent_hugepage/enabled",
        current: sysfs_value(&readings.transparent_hugepages),
        recommended: "[always]",
        description: "Enables 2MB pages to reduce TLB misses for large memory allocations.",
    });
    tunables.push(Tunable {
        name: "VM Dirty Ratio",
        path: "/proc/sys/vm/dirty_ratio",
        current: sysfs_value(&readings.dirty_ratio),
        recommended: "40",
        description: "Higher dirty ratio delays disk writeback, keeping more data in RAM longer.",
    });
    tunables.push(Tunable {
        name: "VM Dirty Background Ratio",
        path: "/proc/sys/vm/dirty_background_ratio",
        current: sysfs_value(&readings.dirty_background_ratio),
        recommended: "10",
        description: "When background writeback starts. Lower = smoother, less bursty IO.",
    });
    tunables.push(Tunable {
        name: "NUMA Balancing",
        path: "/proc/sys/kernel/numa_balancing",
        current: sysfs_value(&readings.numa_balancing),
        recommended: "0",
        description: "Single-socket system. NUMA balancing adds overhead with no benefit.",
    });
    tunables.push(Tunable {
        name: "Sched Energy Aware",
        path: "/proc/sys/kernel/sched_energy_aware",
        current: sysfs_value(&readings.sched_energy_aware),
        recommended: "0",
        description: "When ON, scheduler prefers E-cores to save power. Turn OFF for max perf.",
    });
    assert(tunables@.map_values(|t: Tunable| tunable_fields(t)) =~= audit_table(*readings));
    tunables
}


/// The current value already meets the recommendation: it contains the
/// recommended text, or equals it once trimmed.
pub open spec fn meets_recommendation(current: Seq<char>, recommended: Seq<char>) -> bool {
    has_substring(current, recommended) || trimmed(current) == recommended
}

/// Whether a tunable is already at its recommended setting (the audit's ✓).
pub fn is_optimized(t: &Tunable) -> (r: bool)
    ensures
        r == meets_recommendation(t.current@, t.recommended@),
{
    str_contains(t.current.as_str(), t.recommended) || str_equal(trim_str(t.current.as_str()), t.recommended)
}

/// A trimmed value equal to the recommendation already contains it, so the
/// audit's check comes down to a substring test.
pub proof fn lemma_meets_recommendation_is_containment(current: Seq<char>, recommended: Seq<char>)
    ensures
        meets_recommendation(current, recommended) == has_substring(current, recommended),
{
    lemma_trimmed_is_substring(current);
}

/// How many of the tunables meet their recommendation.
pub open spec fn optimized_count(ts: Seq<Tunable>) -> nat
    decreases ts.len(),
{
    if ts.len() == 0 {
        0
    } else {
        optimized_count(ts.drop_last()) + if meets_recommendation(ts.last().current@, ts.last().recommended@) {
            1nat
        } else {
            0nat
        }
    }
}

/// The audit score: the number of tunables already optimized.
pub fn audit_score(tunables: &Vec<Tunable>) -> (score: usize)
    ensures
        score == optimized_count(tunables@),
        score <= tunables.len(),
{
    let mut score: usize = 0;
    let n = tunables.len();
    let mut i: usize = 0;
    while i < n
        invariant
            n == tunables.len(),
            i <= n,
            score == optimized_count(tunables@.take(i as int)),
            score <= i,
        decreases n - i,
    {
        assert(tunables@.take(i + 1).drop_last() =~= tunables@.take(i as int));
        if is_optimized(&tunables[i]) {
            score = score + 1;
        }
        i = i + 1;
    }
    assert(tunables@.take(n as int) =~= tunables@);
    score
}

/// The reading that belongs to a tunable's path, if the audit reads that path.
/// (The governor is sampled from CPU 0 on behalf of every CPU.)
pub open spec fn reading_for_path(r: SystemReadings, path: Seq<char>) -> Option<Option<String>> {
    if path == "/sys/devices/system/cpu/cpu*/cpufreq/scaling_governor"@ {
        Some(r.governor)
    } else if path == "/sys/devices/system/cpu/intel_pstate/min_perf_pct"@ {
        Some(r.min_perf_pct)
    } else if path == "/proc/sys/vm/swappiness"@ {
        Some(r.swappiness)
    } else if path == "/sys/kernel/mm/transparent_hugepage/enabled"@ {
        Some(r.transparent_hugepages)
    } else if path == "/proc/sys/vm/dirty_ratio"@ {
        Some(r.dirty_ratio)
    } else if path == "/proc/sys/vm/dirty_background_ratio"@ {
        Some(r.dirty_background_ratio)
    } else if path == "/proc/sys/kernel/numa_balancing"@ {
        Some(r.numa_balancing)
    } else if path == "/proc/sys/kernel/sched_energy_aware"@ {
        Some(r.sched_energy_aware)
    } else {
        None
    }
}

/// Every audited tunable shows the value of its own file: for each entry, the
/// current value is the trimmed contents of the reading taken from that entry's
/// path (or `N/A` when that file was unreadable), and every path has a reading.
pub proof fn lemma_audit_reads_own_path(r: SystemReadings)
    ensures
        audit_table(r).len() == 8,
        forall|k: int|
            0 <= k < audit_table(r).len() ==> (#[trigger] reading_for_path(r, audit_table(r)[k].1)) is Some
                && audit_table(r)[k].2 == sysfs_text(reading_for_path(r, audit_table(r)[k].1)->0),
{
    reveal_strlit("/sys/devices/system/cpu/cpu*/cpufreq/scaling_governor");
    reveal_strlit("/sys/devices/system/cpu/intel_pstate/min_perf_pct");
    reveal_strlit("/proc/sys/vm/swappiness");
    reveal_strlit("/sys/kernel/mm/transparent_hugepage/enabled");
    reveal_strlit("/proc/sys/vm/dirty_ratio");
    reveal_strlit("/proc/sys/vm/dirty_background_ratio");
    reveal_strlit("/proc/sys/kernel/numa_balancing");
    reveal_strlit("/proc/sys/kernel/sched_energy_aware");
    assert forall|k: int| 0 <= k < audit_table(r).len() implies (#[trigger] reading_for_path(
        r,
        audit_table(r)[k].1,
    )) is Some && audit_table(r)[k].2 == sysfs_text(reading_for_path(r, audit_table(r)[k].1)->0) by {
        if k == 0 {

        }
        if k == 1 {
            assert("/sys/devices/system/cpu/intel_pstate/min_perf_pct"@.len() != "/sys/devices/system/cpu/cpu*/cpufreq/scaling_governor"@.len());
        }
        if k == 2 {
            assert("/proc/sys/vm/swappiness"@.len() != "/sys/devices/system/cpu/cpu*/cpufreq/scaling_governor"@.len());
            assert("/proc/sys/vm/swappiness"@.len() != "/sys/devices/system/cpu/intel_pstate/min_perf_pct"@.len());
        }
        if k == 3 {
            assert("/sys/kernel/mm/transparent_hugepage/enabled"@.len() != "/sys/devices/system/cpu/cpu*/cpufreq/scaling_governor"@.len());
            assert("/sys/kernel/mm/transparent_hugepage/enabled"@.len() != "/sys/devices/system/cpu/intel_pstate/min_perf_pct"@.len());
            assert("/sys/kernel/mm/transparent_hugepage/enabled"@.len() != "/proc/sys/vm/swappiness"@.len());
        }
        if k == 4 {
            assert("/proc/sys/vm/dirty_ratio"@.len() != "/sys/devices/system/cpu/cpu*/cpufreq/scaling_governor"@.len());
            assert("/proc/sys/vm/dirty_ratio"@.len() != "/sys/devices/system/cpu/intel_pstate/min_perf_pct"@.len());
            assert("/proc/sys/vm/dirty_ratio"@.len() != "/proc/sys/vm/swappiness"@.len());
            assert("/proc/sys/vm/dirty_ratio"@.len() != "/sys/kernel/mm/transparent_hugepage/enabled"@.len());
        }
        if k == 5 {
            assert("/proc/sys/vm/dirty_background_ratio"@.len() != "/sys/devices/system/cpu/cpu*/cpufreq/scaling_governor"@.len());
            assert("/proc/sys/vm/dirty_background_ratio"@.len() != "/sys/devices/system/cpu/intel_pstate/min_perf_pct"@.len());
            assert("/proc/sys/vm/dirty_background_ratio"@.len() != "/proc/sys/vm/swappiness"@.len());
            assert("/proc/sys/vm/dirty_background_ratio"@.len() != "/sys/kernel/mm/transparent_hugepage/enabled"@.len());
            assert("/proc/sys/vm/dirty_background_ratio"@.len() != "/proc/sys/vm/dirty_ratio"@.len());
        }
        if k == 6 {
            assert("/proc/sys/kernel/numa_balancing"@.len() != "/sys/devices/system/cpu/cpu*/cpufreq/scaling_governor"@.len());
            assert("/proc/sys/kernel/numa_balancing"@.len() != "/sys/devices/system/cpu/intel_pstate/min_perf_pct"@.len());
            assert("/proc/sys/kernel/numa_balancing"@.len() != "/proc/sys/vm/swappiness"@.len());
            assert("/proc/sys/kernel/numa_balancing"@.len() != "/sys/kernel/mm/transparent_hugepage/enabled"@.len());
            assert("/proc/sys/kernel/numa_balancing"@.len() != "/proc/sys/vm/dirty_ratio"@.len());
            assert("/proc/sys/kernel/numa_balancing"@.len() != "/proc/sys/vm/dirty_background_ratio"@.len());
        }
        if k == 7 {
            assert("/proc/sys/kernel/sched_energy_aware"@.len() != "/sys/devices/system/cpu/cpu*/cpufreq/scaling_governor"@.len());
            assert("/proc/sys/kernel/sched_energy_aware"@.len() != "/sys/devices/system/cpu/intel_pstate/min_perf_pct"@.len());
            assert("/proc/sys/kernel/sched_energy_aware"@.len() != "/proc/sys/vm/swappiness"@.len());
            assert("/proc/sys/kernel/sched_energy_aware"@.len() != "/sys/kernel/mm/transparent_hugepage/enabled"@.len());
            assert("/proc/sys/kernel/sched_energy_aware"@.len() != "/proc/sys/vm/dirty_ratio"@.len());
            assert("/proc/sys/kernel/sched_energy_aware"@[10] != "/proc/sys/vm/dirty_background_ratio"@[10]);
            assert("/proc/sys/kernel/sched_energy_aware"@.len() != "/proc/sys/kernel/numa_balancing"@.len());
        }
    }
}

/// The audit score counts exactly the tunables whose current value contains
/// their recommended text.
pub proof fn lemma_score_counts_containing_values(ts: Seq<Tunable>)
    ensures
        optimized_count(ts) == ts.filter(|t: Tunable| has_substring(t.current@, t.recommended@)).len(),
    decreases ts.len(),
{
    reveal(Seq::filter);
    if ts.len() > 0 {
        lemma_score_counts_containing_values(ts.drop_last());
        lemma_meets_recommendation_is_containment(ts.last().current@, ts.last().recommended@);
    }
}

/// The text of the optimization script.
pub open spec fn optimization_script() -> Seq<char> {
    "#!/bin/bash\n"@
        + "# Intel Core Ultra 5 125H Performance Optimization Script\n"@
        + "# Run with: sudo bash optimize.sh\n"@
        + "set -e\n\n"@
        + "echo '=== Intel Core Ultra 5 125H Performance Tuning ==='\n\n"@
        + "# Set all CPU governors to performance mode\n"@
        + "echo 'Setting CPU governor to performance...'\n"@
        + "for gov in /sys/devices/system/cpu/cpu*/cpufreq/scaling_governor; do\n"@
        + "  echo performance > \"$gov\" 2>/dev/null || true\n"@
        + "done\n\n"@
        + "# Lock P-State to maximum performance\n"@
        + "if [ -f /sys/devices/system/cpu/intel_pstate/min_perf_pct ]; then\n"@
        + "  echo 100 > /sys/devices/system/cpu/intel_pstate/min_perf_pct\n"@
        + "  echo '  ✓ P-State min_perf_pct = 100'\n"@
        + "fi\n\n"@
        + "# Reduce swap tendency\n"@
        + "sysctl -w vm.swappiness=10\n\n"@
        + "# Enable transparent hugepages\n"@
        + "echo always > /sys/kernel/mm/transparent_hugepage/enabled\n\n"@
        + "# Optimize dirty page writeback\n"@
        + "sysctl -w vm.dirty_ratio=40\n"@
        + "sysctl -w vm.dirty_background_ratio=10\n\n"@
        + "# Disable NUMA balancing (single socket)\n"@
        + "sysctl -w kernel.numa_balancing=0\n\n"@
        + "# Disable energy-aware scheduling (forces scheduler to use P-cores)\n"@
        + "if [ -f /proc/sys/kernel/sched_energy_aware ]; then\n"@
        + "  echo 0 > /proc/sys/kernel/sched_energy_aware\n"@
        + "  echo '  ✓ Energy-aware scheduling disabled'\n"@
        + "fi\n\n"@
        + "# Raise mlock limit for pinned memory buffers\n"@
        + "ulimit -l unlimited 2>/dev/null || true\n\n"@
        + "echo '=== All optimizations applied ==='\n"@
}

proof fn lemma_occurs_after_prefix(x: Seq<char>, p: Seq<char>)
    ensures
        occurs_at(x + p, p, x.len() as int),
{
    assert((x + p).subrange(x.len() as int, (x.len() + p.len()) as int) =~= p);
}

proof fn lemma_occurs_before_suffix(x: Seq<char>, y: Seq<char>, p: Seq<char>, i: int)
    requires
        occurs_at(x, p, i),
    ensures
        occurs_at(x + y, p, i),
{
    assert((x + y).subrange(i, i + p.len()) =~= x.subrange(i, i + p.len()));
}

/// The script applies every recommendation: it switches the governor of every
/// CPU (the `cpu*` glob) to performance, pins the P-State minimum at 100%, sets
/// swappiness 10, transparent hugepages `always`, dirty ratios 40 and 10,
/// disables NUMA balancing and energy-aware scheduling, and lifts the mlock limit.
pub proof fn lemma_script_applies_recommendations()
    ensures
        has_substring(optimization_script(), "for gov in /sys/devices/system/cpu/cpu*/cpufreq/scaling_governor; do\n"@ + "  echo performance > \"$gov\" 2>/dev/null || true\n"@),
        has_substring(optimization_script(), "  echo 100 > /sys/devices/system/cpu/intel_pstate/min_perf_pct\n"@),
        has_substring(optimization_script(), "sysctl -w vm.swappiness=10\n\n"@),
        has_substring(optimization_script(), "echo always > /sys/kernel/mm/transparent_hugepage/enabled\n\n"@),
        has_substring(optimization_script(), "sysctl -w vm.dirty_ratio=40\n"@),
        has_substring(optimization_script(), "sysctl -w vm.dirty_background_ratio=10\n\n"@),
        has_substring(optimization_script(), "sysctl -w kernel.numa_balancing=0\n\n"@),
        has_substring(optimization_script(), "  echo 0 > /proc/sys/kernel/sched_energy_aware\n"@),
        has_substring(optimization_script(), "ulimit -l unlimited 2>/dev/null || true\n\n"@),
{
    let q0 = "#!/bin/bash\n"@;
    let q1 = q0 + "# Intel Core Ultra 5 125H Performance Optimization Script\n"@;
    let q2 = q1 + "# Run with: sudo bash optimize.sh\n"@;
    let q3 = q2 + "set -e\n\n"@;
    let q4 = q3 + "echo '=== Intel Core Ultra 5 125H Performance Tuning ==='\n\n"@;
    let q5 = q4 + "# Set all CPU governors to performance mode\n"@;
    let q6 = q5 + "echo 'Setting CPU governor to performance...'\n"@;
    let q7 = q6 + "for gov in /sys/devices/system/cpu/cpu*/cpufreq/scaling_governor; do\n"@;
    let q8 = q7 + "  echo performance > \"$gov\" 2>/dev/null || true\n"@;
    let q9 = q8 + "done\n\n"@;
    let q10 = q9 + "# Lock P-State to maximum performance\n"@;
    let q11 = q10 + "if [ -f /sys/devices/system/cpu/intel_pstate/min_perf_pct ]; then\n"@;
    let q12 = q11 + "  echo 100 > /sys/devices/system/cpu/intel_pstate/min_perf_pct\n"@;
    let q13 = q12 + "  echo '  ✓ P-State min_perf_pct = 100'\n"@;
    let q14 = q13 + "fi\n\n"@;
    let q15 = q14 + "# Reduce swap tendency\n"@;
    let q16 = q15 + "sysctl -w vm.swappiness=10\n\n"@;
    let q17 = q16 + "# Enable transparent hugepages\n"@;
    let q18 = q17 + "echo always > /sys/kernel/mm/transparent_hugepage/enabled\n\n"@;
    let q19 = q18 + "# Optimize dirty page writeback\n"@;
    let q20 = q19 + "sysctl -w vm.dirty_ratio=40\n"@;
    let q21 = q20 + "sysctl -w vm.dirty_background_ratio=10\n\n"@;
    let q22 = q21 + "# Disable NUMA balancing (single socket)\n"@;
    let q23 = q22 + "sysctl -w kernel.numa_balancing=0\n\n"@;
    let q24 = q23 + "# Disable energy-aware scheduling (forces scheduler to use P-cores)\n"@;
    let q25 = q24 + "if [ -f /proc/sys/kernel/sched_energy_aware ]; then\n"@;
    let q26 = q25 + "  echo 0 > /proc/sys/kernel/sched_energy_aware\n"@;
    let q27 = q26 + "  echo '  ✓ Energy-aware scheduling disabled'\n"@;
    let q28 = q27 + "fi\n\n"@;
    let q29 = q28 + "# Raise mlock limit for pinned memory buffers\n"@;
    let q30 = q29 + "ulimit -l unlimited 2>/dev/null || true\n\n"@;
    let q31 = q30 + "echo '=== All optimizations applied ==='\n"@;
    assert(optimization_script() == q31);
    {
        let pat = "for gov in /sys/devices/system/cpu/cpu*/cpufreq/scaling_governor; do\n"@ + "  echo performance > \"$gov\" 2>/dev/null || true\n"@;
        assert(q8 =~= q6 + pat);
        lemma_occurs_after_prefix(q6, pat);
        lemma_occurs_before_suffix(q8, "done\n\n"@, pat, q6.len() as int);
        lemma_occurs_before_suffix(q9, "# Lock P-State to maximum performance\n"@, pat, q6.len() as int);
        lemma_occurs_before_suffix(q10, "if [ -f /sys/devices/system/cpu/intel_pstate/min_perf_pct ]; then\n"@, pat, q6.len() as int);
        lemma_occurs_before_suffix(q11, "  echo 100 > /sys/devices/system/cpu/intel_pstate/min_perf_pct\n"@, pat, q6.len() as int);
        lemma_occurs_before_suffix(q12, "  echo '  ✓ P-State min_perf_pct = 100'\n"@, pat, q6.len() as int);
        lemma_occurs_before_suffix(q13, "fi\n\n"@, pat, q6.len() as int);
        lemma_occurs_before_suffix(q14, "# Reduce swap tendency\n"@, pat, q6.len() as int);
        lemma_occurs_before_suffix(q15, "sysctl -w vm.swappiness=10\n\n"@, pat, q6.len() as int);
        lemma_occurs_before_suffix(q16, "# Enable transparent hugepages\n"@, pat, q6.len() as int);
        lemma_occurs_before_suffix(q17, "echo always > /sys/kernel/mm/transparent_hugepage/enabled\n\n"@, pat, q6.len() as int);
        lemma_occurs_before_suffix(q18, "# Optimize dirty page writeback\n"@, pat, q6.len() as int);
        lemma_occurs_before_suffix(q19, "sysctl -w vm.dirty_ratio=40\n"@, pat, q6.len() as int);
        lemma_occurs_before_suffix(q20, "sysctl -w vm.dirty_background_ratio=10\n\n"@, pat, q6.len() as int);
        lemma_occurs_before_suffix(q21, "# Disable NUMA balancing (single socket)\n"@, pat, q6.len() as int);
        lemma_occurs_before_suffix(q22, "sysctl -w kernel.numa_balancing=0\n\n"@, pat, q6.len() as int);
        lemma_occurs_before_suffix(q23, "# Disable energy-aware scheduling (forces scheduler to use P-cores)\n"@, pat, q6.len() as int);
        lemma_occurs_before_suffix(q24, "if [ -f /proc/sys/kernel/sched_energy_aware ]; then\n"@, pat, q6.len() as int);
        lemma_occurs_before_suffix(q25, "  echo 0 > /proc/sys/kernel/sched_energy_aware\n"@, pat, q6.len() as int);
        lemma_occurs_before_suffix(q26, "  echo '  ✓ Energy-aware scheduling disabled'\n"@, pat, q6.len() as int);
        lemma_occurs_before_suffix(q27, "fi\n\n"@, pat, q6.len() as int);
        lemma_occurs_before_suffix(q28, "# Raise mlock limit for pinned memory buffers\n"@, pat, q6.len() as int);
        lemma_occurs_before_suffix(q29, "ulimit -l unlimited 2>/dev/null || true\n\n"@, pat, q6.len() as int);
        lemma_occurs_before_suffix(q30, "echo '=== All optimizations applied ==='\n"@, pat, q6.len() as int);
        assert(occurs_at(optimization_script(), pat, q6.len() as int));
    }
    {
        let pat = "  echo 100 > /sys/devices/system/cpu/intel_pstate/min_perf_pct\n"@;
        assert(q12 == q11 + pat);
        lemma_occurs_after_prefix(q11, pat);
        lemma_occurs_before_suffix(q12, "  echo '  ✓ P-State min_perf_pct = 100'\n"@, pat, q11.len() as int);
        lemma_occurs_before_suffix(q13, "fi\n\n"@, pat, q11.len() as int);
        lemma_occurs_before_suffix(q14, "# Reduce swap tendency\n"@, pat, q11.len() as int);
        lemma_occurs_before_suffix(q15, "sysctl -w vm.swappiness=10\n\n"@, pat, q11.len() as int);
        lemma_occurs_before_suffix(q16, "# Enable transparent hugepages\n"@, pat, q11.len() as int);
        lemma_occurs_before_suffix(q17, "echo always > /sys/kernel/mm/transparent_hugepage/enabled\n\n"@, pat, q11.len() as int);
        lemma_occurs_before_suffix(q18, "# Optimize dirty page writeback\n"@, pat, q11.len() as int);
        lemma_occurs_before_suffix(q19, "sysctl -w vm.dirty_ratio=40\n"@, pat, q11.len() as int);
        lemma_occurs_before_suffix(q20, "sysctl -w vm.dirty_background_ratio=10\n\n"@, pat, q11.len() as int);
        lemma_occurs_before_suffix(q21, "# Disable NUMA balancing (single socket)\n"@, pat, q11.len() as int);
        lemma_occurs_before_suffix(q22, "sysctl -w kernel.numa_balancing=0\n\n"@, pat, q11.len() as int);
        lemma_occurs_before_suffix(q23, "# Disable energy-aware scheduling (forces scheduler to use P-cores)\n"@, pat, q11.len() as int);
        lemma_occurs_before_suffix(q24, "if [ -f /proc/sys/kernel/sched_energy_aware ]; then\n"@, pat, q11.len() as int);
        lemma_occurs_before_suffix(q25, "  echo 0 > /proc/sys/kernel/sched_energy_aware\n"@, pat, q11.len() as int);
        lemma_occurs_before_suffix(q26, "  echo '  ✓ Energy-aware scheduling disabled'\n"@, pat, q11.len() as int);
        lemma_occurs_before_suffix(q27, "fi\n\n"@, pat, q11.len() as int);
        lemma_occurs_before_suffix(q28, "# Raise mlock limit for pinned memory buffers\n"@, pat, q11.len() as int);
        lemma_occurs_before_suffix(q29, "ulimit -l unlimited 2>/dev/null || true\n\n"@, pat, q11.len() as int);
        lemma_occurs_before_suffix(q30, "echo '=== All optimizations applied ==='\n"@, pat, q11.len() as int);
        assert(occurs_at(optimization_script(), pat, q11.len() as int));
    }
    {
        let pat = "sysctl -w vm.swappiness=10\n\n"@;
        assert(q16 == q15 + pat);
        lemma_occurs_after_prefix(q15, pat);
        lemma_occurs_before_suffix(q16, "# Enable transparent hugepages\n"@, pat, q15.len() as int);
        lemma_occurs_before_suffix(q17, "echo always > /sys/kernel/mm/transparent_hugepage/enabled\n\n"@, pat, q15.len() as int);
        lemma_occurs_before_suffix(q18, "# Optimize dirty page writeback\n"@, pat, q15.len() as int);
        lemma_occurs_before_suffix(q19, "sysctl -w vm.dirty_ratio=40\n"@, pat, q15.len() as int);
        lemma_occurs_before_suffix(q20, "sysctl -w vm.dirty_background_ratio=10\n\n"@, pat, q15.len() as int);
        lemma_occurs_before_suffix(q21, "# Disable NUMA balancing (single socket)\n"@, pat, q15.len() as int);
        lemma_occurs_before_suffix(q22, "sysctl -w kernel.numa_balancing=0\n\n"@, pat, q15.len() as int);
        lemma_occurs_before_suffix(q23, "# Disable energy-aware scheduling (forces scheduler to use P-cores)\n"@, pat, q15.len() as int);
        lemma_occurs_before_suffix(q24, "if [ -f /proc/sys/kernel/sched_energy_aware ]; then\n"@, pat, q15.len() as int);
        lemma_occurs_before_suffix(q25, "  echo 0 > /proc/sys/kernel/sched_energy_aware\n"@, pat, q15.len() as int);
        lemma_occurs_before_suffix(q26, "  echo '  ✓ Energy-aware scheduling disabled'\n"@, pat, q15.len() as int);
        lemma_occurs_before_suffix(q27, "fi\n\n"@, pat, q15.len() as int);
        lemma_occurs_before_suffix(q28, "# Raise mlock limit for pinned memory buffers\n"@, pat, q15.len() as int);
        lemma_occurs_before_suffix(q29, "ulimit -l unlimited 2>/dev/null || true\n\n"@, pat, q15.len() as int);
        lemma_occurs_before_suffix(q30, "echo '=== All optimizations applied ==='\n"@, pat, q15.len() as int);
        assert(occurs_at(optimization_script(), pat, q15.len() as int));
    }
    {
        let pat = "echo always > /sys/kernel/mm/transparent_hugepage/enabled\n\n"@;
        assert(q18 == q17 + pat);
        lemma_occurs_after_prefix(q17, pat);
        lemma_occurs_before_suffix(q18, "# Optimize dirty page writeback\n"@, pat, q17.len() as int);
        lemma_occurs_before_suffix(q19, "sysctl -w vm.dirty_ratio=40\n"@, pat, q17.len() as int);
        lemma_occurs_before_suffix(q20, "sysctl -w vm.dirty_background_ratio=10\n\n"@, pat, q17.len() as int);
        lemma_occurs_before_suffix(q21, "# Disable NUMA balancing (single socket)\n"@, pat, q17.len() as int);
        lemma_occurs_before_suffix(q22, "sysctl -w kernel.numa_balancing=0\n\n"@, pat, q17.len() as int);
        lemma_occurs_before_suffix(q23, "# Disable energy-aware scheduling (forces scheduler to use P-cores)\n"@, pat, q17.len() as int);
        lemma_occurs_before_suffix(q24, "if [ -f /proc/sys/kernel/sched_energy_aware ]; then\n"@, pat, q17.len() as int);
        lemma_occurs_before_suffix(q25, "  echo 0 > /proc/sys/kernel/sched_energy_aware\n"@, pat, q17.len() as int);
        lemma_occurs_before_suffix(q26, "  echo '  ✓ Energy-aware scheduling disabled'\n"@, pat, q17.len() as int);
        lemma_occurs_before_suffix(q27, "fi\n\n"@, pat, q17.len() as int);
        lemma_occurs_before_suffix(q28, "# Raise mlock limit for pinned memory buffers\n"@, pat, q17.len() as int);
        lemma_occurs_before_suffix(q29, "ulimit -l unlimited 2>/dev/null || true\n\n"@, pat, q17.len() as int);
        lemma_occurs_before_suffix(q30, "echo '=== All optimizations applied ==='\n"@, pat, q17.len() as int);
        assert(occurs_at(optimization_script(), pat, q17.len() as int));
    }
    {
        let pat = "sysctl -w vm.dirty_ratio=40\n"@;
        assert(q20 == q19 + pat);
        lemma_occurs_after_prefix(q19, pat);
        lemma_occurs_before_suffix(q20, "sysctl -w vm.dirty_background_ratio=10\n\n"@, pat, q19.len() as int);
        lemma_occurs_before_suffix(q21, "# Disable NUMA balancing (single socket)\n"@, pat, q19.len() as int);
        lemma_occurs_before_suffix(q22, "sysctl -w kernel.numa_balancing=0\n\n"@, pat, q19.len() as int);
        lemma_occurs_before_suffix(q23, "# Disable energy-aware scheduling (forces scheduler to use P-cores)\n"@, pat, q19.len() as int);
        lemma_occurs_before_suffix(q24, "if [ -f /proc/sys/kernel/sched_energy_aware ]; then\n"@, pat, q19.len() as int);
        lemma_occurs_before_suffix(q25, "  echo 0 > /proc/sys/kernel/sched_energy_aware\n"@, pat, q19.len() as int);
        lemma_occurs_before_suffix(q26, "  echo '  ✓ Energy-aware scheduling disabled'\n"@, pat, q19.len() as int);
        lemma_occurs_before_suffix(q27, "fi\n\n"@, pat, q19.len() as int);
        lemma_occurs_before_suffix(q28, "# Raise mlock limit for pinned memory buffers\n"@, pat, q19.len() as int);
        lemma_occurs_before_suffix(q29, "ulimit -l unlimited 2>/dev/null || true\n\n"@, pat, q19.len() as int);
        lemma_occurs_before_suffix(q30, "echo '=== All optimizations applied ==='\n"@, pat, q19.len() as int);
        assert(occurs_at(optimization_script(), pat, q19.len() as int));
    }
    {
        let pat = "sysctl -w vm.dirty_background_ratio=10\n\n"@;
        assert(q21 == q20 + pat);
        lemma_occurs_after_prefix(q20, pat);
        lemma_occurs_before_suffix(q21, "# Disable NUMA balancing (single socket)\n"@, pat, q20.len() as int);
        lemma_occurs_before_suffix(q22, "sysctl -w kernel.numa_balancing=0\n\n"@, pat, q20.len() as int);
        lemma_occurs_before_suffix(q23, "# Disable energy-aware scheduling (forces scheduler to use P-cores)\n"@, pat, q20.len() as int);
        lemma_occurs_before_suffix(q24, "if [ -f /proc/sys/kernel/sched_energy_aware ]; then\n"@, pat, q20.len() as int);
        lemma_occurs_before_suffix(q25, "  echo 0 > /proc/sys/kernel/sched_energy_aware\n"@, pat, q20.len() as int);
        lemma_occurs_before_suffix(q26, "  echo '  ✓ Energy-aware scheduling disabled'\n"@, pat, q20.len() as int);
        lemma_occurs_before_suffix(q27, "fi\n\n"@, pat, q20.len() as int);
        lemma_occurs_before_suffix(q28, "# Raise mlock limit for pinned memory buffers\n"@, pat, q20.len() as int);
        lemma_occurs_before_suffix(q29, "ulimit -l unlimited 2>/dev/null || true\n\n"@, pat, q20.len() as int);
        lemma_occurs_before_suffix(q30, "echo '=== All optimizations applied ==='\n"@, pat, q20.len() as int);
        assert(occurs_at(optimization_script(), pat, q20.len() as int));
    }
    {
        let pat = "sysctl -w kernel.numa_balancing=0\n\n"@;
        assert(q23 == q22 + pat);
        lemma_occurs_after_prefix(q22, pat);
        lemma_occurs_before_suffix(q23, "# Disable energy-aware scheduling (forces scheduler to use P-cores)\n"@, pat, q22.len() as int);
        lemma_occurs_before_suffix(q24, "if [ -f /proc/sys/kernel/sched_energy_aware ]; then\n"@, pat, q22.len() as int);
        lemma_occurs_before_suffix(q25, "  echo 0 > /proc/sys/kernel/sched_energy_aware\n"@, pat, q22.len() as int);
        lemma_occurs_before_suffix(q26, "  echo '  ✓ Energy-aware scheduling disabled'\n"@, pat, q22.len() as int);
        lemma_occurs_before_suffix(q27, "fi\n\n"@, pat, q22.len() as int);
        lemma_occurs_before_suffix(q28, "# Raise mlock limit for pinned memory buffers\n"@, pat, q22.len() as int);
        lemma_occurs_before_suffix(q29, "ulimit -l unlimited 2>/dev/null || true\n\n"@, pat, q22.len() as int);
        lemma_occurs_before_suffix(q30, "echo '=== All optimizations applied ==='\n"@, pat, q22.len() as int);
        assert(occurs_at(optimization_script(), pat, q22.len() as int));
    }
    {
        let pat = "  echo 0 > /proc/sys/kernel/sched_energy_aware\n"@;
        assert(q26 == q25 + pat);
        lemma_occurs_after_prefix(q25, pat);
        lemma_occurs_before_suffix(q26, "  echo '  ✓ Energy-aware scheduling disabled'\n"@, pat, q25.len() as int);
        lemma_occurs_before_suffix(q27, "fi\n\n"@, pat, q25.len() as int);
        lemma_occurs_before_suffix(q28, "# Raise mlock limit for pinned memory buffers\n"@, pat, q25.len() as int);
        lemma_occurs_before_suffix(q29, "ulimit -l unlimited 2>/dev/null || true\n\n"@, pat, q25.len() as int);
        lemma_occurs_before_suffix(q30, "echo '=== All optimizations applied ==='\n"@, pat, q25.len() as int);
        assert(occurs_at(optimization_script(), pat, q25.len() as int));
    }
    {
        let pat = "ulimit -l unlimited 2>/dev/null || true\n\n"@;
        assert(q30 == q29 + pat);
        lemma_occurs_after_prefix(q29, pat);
        lemma_occurs_before_suffix(q30, "echo '=== All optimizations applied ==='\n"@, pat, q29.len() as int);
        assert(occurs_at(optimization_script(), pat, q29.len() as int));
    }
}

proof fn lemma_substring_transitive(s: Seq<char>, a: Seq<char>, p: Seq<char>)
    requires
        has_substring(s, a),
        has_substring(a, p),
    ensures
        has_substring(s, p),
{
    let i = choose|i: int| occurs_at(s, a, i);
    let j = choose|j: int| occurs_at(a, p, j);
    assert(s.subrange(i + j, i + j + p.len()) =~= a.subrange(j, j + p.len()));
    assert(occurs_at(s, p, i + j));
}

/// The script writes each audited recommendation into the setting it concerns:
/// the recommended governor into every CPU's scaling_governor, and the
/// recommended P-State minimum, swappiness, dirty ratios, NUMA balancing and
/// energy-aware scheduling values into their sysctl or sysfs files.
pub proof fn lemma_script_writes_audit_recommendations(r: SystemReadings)
    ensures
        has_substring(optimization_script(), "  echo "@ + audit_table(r)[0].3 + " > \"$gov\" 2>/dev/null || true\n"@),
        has_substring(optimization_script(), "  echo "@ + audit_table(r)[1].3 + " > /sys/devices/system/cpu/intel_pstate/min_perf_pct\n"@),
        has_substring(optimization_script(), "sysctl -w vm.swappiness="@ + audit_table(r)[2].3 + "\n"@),
        has_substring(optimization_script(), "sysctl -w vm.dirty_ratio="@ + audit_table(r)[4].3 + "\n"@),
        has_substring(optimization_script(), "sysctl -w vm.dirty_background_ratio="@ + audit_table(r)[5].3 + "\n"@),
        has_substring(optimization_script(), "sysctl -w kernel.numa_balancing="@ + audit_table(r)[6].3 + "\n"@),
        has_substring(optimization_script(), "  echo "@ + audit_table(r)[7].3 + " > /proc/sys/kernel/sched_energy_aware\n"@),
{
    lemma_script_applies_recommendations();
    {
        let pat = "  echo "@ + audit_table(r)[0].3 + " > \"$gov\" 2>/dev/null || true\n"@;
        let pair = "for gov in /sys/devices/system/cpu/cpu*/cpufreq/scaling_governor; do\n"@ + "  echo performance > \"$gov\" 2>/dev/null || true\n"@;
        let piece = "  echo performance > \"$gov\" 2>/dev/null || true\n"@;
        lemma_occurs_after_prefix("for gov in /sys/devices/system/cpu/cpu*/cpufreq/scaling_governor; do\n"@, piece);
        lemma_substring_transitive(optimization_script(), pair, piece);
        reveal_strlit("for gov in /sys/devices/system/cpu/cpu*/cpufreq/scaling_governor; do\n");
        reveal_strlit("  echo performance > \"$gov\" 2>/dev/null || true\n");
        reveal_strlit("  echo ");
        reveal_strlit(" > \"$gov\" 2>/dev/null || true\n");
        reveal_strlit("performance");
        assert(piece.subrange(0, pat.len() as int) =~= pat);
        assert(occurs_at(piece, pat, 0));
        lemma_substring_transitive(optimization_script(), piece, pat);
    }
    {
        let pat = "  echo "@ + audit_table(r)[1].3 + " > /sys/devices/system/cpu/intel_pstate/min_perf_pct\n"@;
        let piece = "  echo 100 > /sys/devices/system/cpu/intel_pstate/min_perf_pct\n"@;
        reveal_strlit("  echo 100 > /sys/devices/system/cpu/intel_pstate/min_perf_pct\n");
        reveal_strlit("  echo ");
        reveal_strlit(" > /sys/devices/system/cpu/intel_pstate/min_perf_pct\n");
        reveal_strlit("100");
        assert(piece.subrange(0, pat.len() as int) =~= pat);
        assert(occurs_at(piece, pat, 0));
        lemma_substring_transitive(optimization_script(), piece, pat);
    }
    {
        let pat = "sysctl -w vm.swappiness="@ + audit_table(r)[2].3 + "\n"@;
        let piece = "sysctl -w vm.swappiness=10\n\n"@;
        reveal_strlit("sysctl -w vm.swappiness=10\n\n");
        reveal_strlit("sysctl -w vm.swappiness=");
        reveal_strlit("\n");
        reveal_strlit("10");
        assert(piece.subrange(0, pat.len() as int) =~= pat);
        assert(occurs_at(piece, pat, 0));
        lemma_substring_transitive(optimization_script(), piece, pat);
    }
    {
        let pat = "sysctl -w vm.dirty_ratio="@ + audit_table(r)[4].3 + "\n"@;
        let piece = "sysctl -w vm.dirty_ratio=40\n"@;
        reveal_strlit("sysctl -w vm.dirty_ratio=40\n");
        reveal_strlit("sysctl -w vm.dirty_ratio=");
        reveal_strlit("\n");
        reveal_strlit("40");
        assert(piece.subrange(0, pat.len() as int) =~= pat);
        assert(occurs_at(piece, pat, 0));
        lemma_substring_transitive(optimization_script(), piece, pat);
    }
    {
        let pat = "sysctl -w vm.dirty_background_ratio="@ + audit_table(r)[5].3 + "\n"@;
        let piece = "sysctl -w vm.dirty_background_ratio=10\n\n"@;
        reveal_strlit("sysctl -w vm.dirty_background_ratio=10\n\n");
        reveal_strlit("sysctl -w vm.dirty_background_ratio=");
        reveal_strlit("\n");
        reveal_strlit("10");
        assert(piece.subrange(0, pat.len() as int) =~= pat);
        assert(occurs_at(piece, pat, 0));
        lemma_substring_transitive(optimization_script(), piece, pat);
    }
    {
        let pat = "sysctl -w kernel.numa_balancing="@ + audit_table(r)[6].3 + "\n"@;
        let piece = "sysctl -w kernel.numa_balancing=0\n\n"@;
        reveal_strlit("sysctl -w kernel.numa_balancing=0\n\n");
        reveal_strlit("sysctl -w kernel.numa_balancing=");
        reveal_strlit("\n");
        reveal_strlit("0");
        assert(piece.subrange(0, pat.len() as int) =~= pat);
        assert(occurs_at(piece, pat, 0));
        lemma_substring_transitive(optimization_script(), piece, pat);
    }
    {
        let pat = "  echo "@ + audit_table(r)[7].3 + " > /proc/sys/kernel/sched_energy_aware\n"@;
        let piece = "  echo 0 > /proc/sys/kernel/sched_energy_aware\n"@;
        reveal_strlit("  echo 0 > /proc/sys/kernel/sched_energy_aware\n");
        reveal_strlit("  echo ");
        reveal_strlit(" > /proc/sys/kernel/sched_energy_aware\n");
        reveal_strlit("0");
        assert(piece.subrange(0, pat.len() as int) =~= pat);
        assert(occurs_at(piece, pat, 0));
        lemma_substring_transitive(optimization_script(), piece, pat);
    }
}

/// Generates a shell script that applies all recommended optimizations.
/// Must be run as root.
pub fn generate_optimization_script() -> (script: String)
    ensures
        script@ == optimization_script(),
{
    let mut script = String::from_str("#!/bin/bash\n");
    script.append("# Intel Core Ultra 5 125H Performance Optimization Script\n");
    script.append("# Run with: sudo bash optimize.sh\n");
    script.append("set -e\n\n");
    script.append("echo '=== Intel Core Ultra 5 125H Performance Tuning ==='\n\n");
    script.append("# Set all CPU governors to performance mode\n");
    script.append("echo 'Setting CPU governor to performance...'\n");
    script.append("for gov in /sys/devices/system/cpu/cpu*/cpufreq/scaling_governor; do\n");
    script.append("  echo performance > \"$gov\" 2>/dev/null || true\n");
    script.append("done\n\n");
    script.append("# Lock P-State to maximum performance\n");
    script.append("if [ -f /sys/devices/system/cpu/intel_pstate/min_perf_pct ]; then\n");
    script.append("  echo 100 > /sys/devices/system/cpu/intel_pstate/min_perf_pct\n");
    script.append("  echo '  ✓ P-State min_perf_pct = 100'\n");
    script.append("fi\n\n");
    script.append("# Reduce swap tendency\n");
    script.append("sysctl -w vm.swappiness=10\n\n");
    script.append("# Enable transparent hugepages\n");
    script.append("echo always > /sys/kernel/mm/transparent_hugepage/enabled\n\n");
    script.append("# Optimize dirty page writeback\n");
    script.append("sysctl -w vm.dirty_ratio=40\n");
    script.append("sysctl -w vm.dirty_background_ratio=10\n\n");
    script.append("# Disable NUMA balancing (single socket)\n");
    script.append("sysctl -w kernel.numa_balancing=0\n\n");
    script.append("# Disable energy-aware scheduling (forces scheduler to use P-cores)\n");
    script.append("if [ -f /proc/sys/kernel/sched_energy_aware ]; then\n");
    script.append("  echo 0 > /proc/sys/kernel/sched_energy_aware\n");
    script.append("  echo '  ✓ Energy-aware scheduling disabled'\n");
    script.append("fi\n\n");
    script.append("# Raise mlock limit for pinned memory buffers\n");
    script.append("ulimit -l unlimited 2>/dev/null || true\n\n");
    script.append("echo '=== All optimizations applied ==='\n");
    script
}

} // verus!
