use intel_mac_parity::memory::{hugepage_aligned_size, memory_config_lines, HugePageBuffer, HUGE_PAGE_BYTES};

const MIB2: usize = 2 * 1024 * 1024;

#[test]
fn aligned_sizes() {
    assert_eq!(HUGE_PAGE_BYTES, MIB2);
    assert_eq!(hugepage_aligned_size(0), 0);
    assert_eq!(hugepage_aligned_size(1), MIB2);
    assert_eq!(hugepage_aligned_size(MIB2 - 1), MIB2);
    assert_eq!(hugepage_aligned_size(MIB2), MIB2);
    assert_eq!(hugepage_aligned_size(MIB2 + 1), 2 * MIB2);
    assert_eq!(hugepage_aligned_size(16 * 1024 * 1024), 16 * 1024 * 1024);
}

#[test]
fn aligning_twice_changes_nothing() {
    for b in [0usize, 1, 4096, MIB2 + 5, 7 * MIB2 - 3] {
        let once = hugepage_aligned_size(b);
        assert_eq!(hugepage_aligned_size(once), once);
        assert!(once >= b && once < b + MIB2 && once % MIB2 == 0);
    }
}

#[test]
fn test_hugepage_buffer() {
    let buf = HugePageBuffer::new(1024);
    assert_eq!(buf.len(), 1024);
    assert!(!buf.is_empty());
    assert_eq!(buf.byte_size(), MIB2);

    let big = HugePageBuffer::new(4 * 1024 * 1024);
    assert_eq!(big.len(), 4 * 1024 * 1024);
    assert_eq!(big.byte_size(), 16 * 1024 * 1024);

    let none = HugePageBuffer::new(0);
    assert!(none.is_empty());
    assert_eq!(none.byte_size(), 0);
}

#[test]
fn meminfo_selection() {
    let meminfo = "MemTotal:       32572588 kB\nMemFree:         1234 kB\nMemAvailable:   20000000 kB\nBuffers:  1 kB\nSwapTotal:       8388604 kB\nSwapFree: 1 kB\nAnonHugePages:    204800 kB\nHugePages_Total:       0\nHugePages_Free:        0\nHugepagesize:       2048 kB\n";
    assert_eq!(
        memory_config_lines(meminfo),
        vec![
            "MemTotal:       32572588 kB",
            "MemAvailable:   20000000 kB",
            "SwapTotal:       8388604 kB",
            "AnonHugePages:    204800 kB",
            "HugePages_Total:       0",
            "Hugepagesize:       2048 kB",
        ]
    );
}

#[test]
fn meminfo_lines_are_trimmed_and_crlf_tolerant() {
    assert_eq!(memory_config_lines("MemTotal: 1 kB   \r\n Swap: 2\r\n"), vec!["MemTotal: 1 kB"]);
    assert!(memory_config_lines("").is_empty());
}
