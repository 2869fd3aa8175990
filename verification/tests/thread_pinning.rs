use intel_mac_parity::thread_pinning::{
    classify_core, get_cpu_ids_for, parse_cpu_id, parse_max_freq_khz, pinnable_cpus,
    topology_from_readings, worker_cpu, CoreType, CpuReading, DetectedCore,
};

fn reading(cpu_id: usize, text: &str) -> CpuReading {
    CpuReading { cpu_id, max_freq_text: text.to_string() }
}

#[test]
fn classification_thresholds() {
    assert_eq!(classify_core(4_500_000), CoreType::PCores);
    assert_eq!(classify_core(4_000_000), CoreType::PCores);
    assert_eq!(classify_core(3_999_999), CoreType::ECores);
    assert_eq!(classify_core(3_600_000), CoreType::ECores);
    assert_eq!(classify_core(3_000_000), CoreType::ECores);
    assert_eq!(classify_core(2_999_999), CoreType::LPCores);
    assert_eq!(classify_core(2_500_000), CoreType::LPCores);
    assert_eq!(classify_core(0), CoreType::LPCores);
}

#[test]
fn classification_is_monotone_on_examples() {
    fn rank(t: CoreType) -> u8 {
        match t {
            CoreType::LPCores => 0,
            CoreType::ECores => 1,
            CoreType::PCores => 2,
        }
    }
    let freqs = [0u64, 2_500_000, 2_999_999, 3_000_000, 3_600_000, 4_000_000, 5_000_000];
    for w in freqs.windows(2) {
        assert!(rank(classify_core(w[0])) <= rank(classify_core(w[1])));
    }
}

#[test]
fn cpu_directory_names() {
    assert_eq!(parse_cpu_id("cpu0"), Some(0));
    assert_eq!(parse_cpu_id("cpu17"), Some(17));
    assert_eq!(parse_cpu_id("cpu+3"), Some(3));
    assert_eq!(parse_cpu_id("cpufreq"), None);
    assert_eq!(parse_cpu_id("cpuidle"), None);
    assert_eq!(parse_cpu_id("cpu"), None);
    assert_eq!(parse_cpu_id("vulnerabilities"), None);
    assert_eq!(parse_cpu_id("smt"), None);
}

#[test]
fn max_frequency_files() {
    assert_eq!(parse_max_freq_khz("4500000\n"), 4_500_000);
    assert_eq!(parse_max_freq_khz("  3600000  "), 3_600_000);
    assert_eq!(parse_max_freq_khz("garbage"), 0);
    assert_eq!(parse_max_freq_khz(""), 0);
}

#[test]
fn topology_is_sorted_and_classified() {
    let readings = vec![
        reading(9, "3600000\n"),
        reading(0, "4500000\n"),
        reading(16, "2500000\n"),
        reading(1, "4500000\n"),
        reading(8, "3600000\n"),
    ];
    let cores = topology_from_readings(&readings);
    let ids: Vec<usize> = cores.iter().map(|c| c.cpu_id).collect();
    assert_eq!(ids, vec![0, 1, 8, 9, 16]);
    assert_eq!(cores[0], DetectedCore { cpu_id: 0, max_freq_khz: 4_500_000, core_type: CoreType::PCores });
    assert_eq!(cores[3].core_type, CoreType::ECores);
    assert_eq!(cores[4], DetectedCore { cpu_id: 16, max_freq_khz: 2_500_000, core_type: CoreType::LPCores });
}

#[test]
fn topology_sort_is_stable() {
    let readings = vec![reading(3, "1"), reading(1, "2"), reading(3, "3"), reading(1, "4")];
    let cores = topology_from_readings(&readings);
    let pairs: Vec<(usize, u64)> = cores.iter().map(|c| (c.cpu_id, c.max_freq_khz)).collect();
    assert_eq!(pairs, vec![(1, 2), (1, 4), (3, 1), (3, 3)]);
}

#[test]
fn empty_topology() {
    assert!(topology_from_readings(&Vec::new()).is_empty());
}

#[test]
fn ids_per_core_type_partition_the_topology() {
    let readings: Vec<CpuReading> = (0..18)
        .map(|i| reading(i, if i < 8 { "4500000" } else if i < 16 { "3600000" } else { "2500000" }))
        .collect();
    let cores = topology_from_readings(&readings);
    let p = get_cpu_ids_for(&cores, CoreType::PCores);
    let e = get_cpu_ids_for(&cores, CoreType::ECores);
    let lp = get_cpu_ids_for(&cores, CoreType::LPCores);
    assert_eq!(p, (0..8).collect::<Vec<_>>());
    assert_eq!(e, (8..16).collect::<Vec<_>>());
    assert_eq!(lp, vec![16, 17]);
    assert_eq!(p.len() + e.len() + lp.len(), cores.len());
}

#[test]
fn pool_pins_only_available_cpus() {
    assert_eq!(pinnable_cpus(&vec![0, 1, 2, 3], &vec![3, 1, 7]), vec![1, 3]);
    assert_eq!(pinnable_cpus(&vec![4, 5], &vec![0, 1, 2, 3, 4, 5, 6]), vec![4, 5]);
    assert_eq!(pinnable_cpus(&vec![], &vec![1]), Vec::<usize>::new());
}

#[test]
fn workers_take_cpus_by_index() {
    let cpus = vec![0, 2, 4];
    assert_eq!(worker_cpu(0, &cpus), Some(0));
    assert_eq!(worker_cpu(2, &cpus), Some(4));
    assert_eq!(worker_cpu(3, &cpus), None);
}
