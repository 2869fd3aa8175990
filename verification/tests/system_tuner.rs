use intel_mac_parity::system_tuner::{
    audit_score, audit_system, generate_optimization_script, is_optimized, sysfs_value,
    SystemReadings, Tunable,
};

fn some(s: &str) -> Option<String> {
    Some(s.to_string())
}

fn tuned_readings() -> SystemReadings {
    SystemReadings {
        governor: some("performance\n"),
        min_perf_pct: some("100\n"),
        swappiness: some("10\n"),
        transparent_hugepages: some("[always] madvise never\n"),
        dirty_ratio: some("40\n"),
        dirty_background_ratio: some("10\n"),
        numa_balancing: some("0\n"),
        sched_energy_aware: some("0\n"),
    }
}

fn stock_readings() -> SystemReadings {
    SystemReadings {
        governor: some("powersave\n"),
        min_perf_pct: None,
        swappiness: some("60\n"),
        transparent_hugepages: some("always [madvise] never\n"),
        dirty_ratio: some("20\n"),
        dirty_background_ratio: some("10\n"),
        numa_balancing: None,
        sched_energy_aware: some("1\n"),
    }
}

#[test]
fn sysfs_values_are_trimmed_or_na() {
    assert_eq!(sysfs_value(&some("  performance\n")), "performance");
    assert_eq!(sysfs_value(&None), "N/A");
    assert_eq!(sysfs_value(&some("")), "");
}

#[test]
fn audit_lists_every_tunable_in_order() {
    let t = audit_system(&stock_readings());
    let names: Vec<&str> = t.iter().map(|t| t.name).collect();
    assert_eq!(
        names,
        vec![
            "CPU Governor",
            "Intel P-State Min Perf %",
            "VM Swappiness",
            "Transparent Hugepages",
            "VM Dirty Ratio",
            "VM Dirty Background Ratio",
            "NUMA Balancing",
            "Sched Energy Aware",
        ]
    );
    assert_eq!(t[0].path, "/sys/devices/system/cpu/cpu*/cpufreq/scaling_governor");
    assert_eq!(t[0].current, "powersave");
    assert_eq!(t[0].recommended, "performance");
    assert_eq!(t[1].current, "N/A");
    assert_eq!(t[3].recommended, "[always]");
    assert_eq!(t[4].recommended, "40");
    assert_eq!(t[7].path, "/proc/sys/kernel/sched_energy_aware");
    assert!(t[6].description.starts_with("Single-socket system."));
}

#[test]
fn optimized_status() {
    let t = audit_system(&stock_readings());
    let status: Vec<bool> = t.iter().map(is_optimized).collect();
    assert_eq!(status, vec![false, false, false, false, false, true, false, false]);
    assert_eq!(audit_score(&t), 1);
}

#[test]
fn fully_tuned_system_scores_everything() {
    let t = audit_system(&tuned_readings());
    assert!(t.iter().all(is_optimized));
    assert_eq!(audit_score(&t), 8);
}

#[test]
fn containment_decides_status() {
    let t = Tunable {
        name: "x",
        path: "/x",
        current: "value 100 set".to_string(),
        recommended: "100",
        description: "",
    };
    assert!(is_optimized(&t));
    let u = Tunable { current: "1000".to_string(), recommended: "100", ..t };
    assert!(is_optimized(&u));
    let v = Tunable { current: "10".to_string(), recommended: "100", ..u };
    assert!(!is_optimized(&v));
}

#[test]
fn empty_audit_scores_zero() {
    assert_eq!(audit_score(&Vec::new()), 0);
}

#[test]
fn script_applies_each_recommendation() {
    let s = generate_optimization_script();
    assert!(s.starts_with("#!/bin/bash\n"));
    assert!(s.contains("set -e\n"));
    assert!(s.contains("  echo performance > \"$gov\" 2>/dev/null || true\n"));
    assert!(s.contains("  echo 100 > /sys/devices/system/cpu/intel_pstate/min_perf_pct\n"));
    assert!(s.contains("sysctl -w vm.swappiness=10\n"));
    assert!(s.contains("echo always > /sys/kernel/mm/transparent_hugepage/enabled\n"));
    assert!(s.contains("sysctl -w vm.dirty_ratio=40\n"));
    assert!(s.contains("sysctl -w vm.dirty_background_ratio=10\n"));
    assert!(s.contains("sysctl -w kernel.numa_balancing=0\n"));
    assert!(s.contains("  echo 0 > /proc/sys/kernel/sched_energy_aware\n"));
    assert!(s.contains("ulimit -l unlimited 2>/dev/null || true\n"));
    assert!(s.ends_with("echo '=== All optimizations applied ==='\n"));
}
