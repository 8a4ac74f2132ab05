use nanai_intel_gna_monitor::memory::{
    collect_process_memory, collect_system_gna_summary, format_bytes, ProcessMemoryEntry,
    SystemMemorySummary,
};

fn float_reference(bytes: u64) -> String {
    const KB: f64 = 1024.0;
    const MB: f64 = KB * 1024.0;
    const GB: f64 = MB * 1024.0;
    let b = bytes as f64;
    if b >= GB {
        format!("{:.2} GB", b / GB)
    } else if b >= MB {
        format!("{:.1} MB", b / MB)
    } else if b >= KB {
        format!("{:.0} KB", b / KB)
    } else {
        format!("{} B", bytes)
    }
}

#[test]
fn format_bytes_small_counts_are_exact() {
    assert_eq!(format_bytes(0), "0 B");
    assert_eq!(format_bytes(1), "1 B");
    assert_eq!(format_bytes(512), "512 B");
    assert_eq!(format_bytes(1023), "1023 B");
}

#[test]
fn format_bytes_unit_thresholds() {
    assert_eq!(format_bytes(1024), "1 KB");
    assert_eq!(format_bytes(1024 * 1024 - 1), "1024 KB");
    assert_eq!(format_bytes(1024 * 1024), "1.0 MB");
    assert_eq!(format_bytes(1024 * 1024 * 1024 - 1), "1024.0 MB");
    assert_eq!(format_bytes(1024 * 1024 * 1024), "1.00 GB");
}

#[test]
fn format_bytes_ties_round_to_even() {
    // 1.5 KB and 2.5 KB are exact ties.
    assert_eq!(format_bytes(1536), "2 KB");
    assert_eq!(format_bytes(2560), "2 KB");
    // 1.25 MB and 1.75 MB at one decimal.
    assert_eq!(format_bytes(1024 * 1024 + 256 * 1024), "1.2 MB");
    assert_eq!(format_bytes(1024 * 1024 + 768 * 1024), "1.8 MB");
    // 1.125 GB at two decimals.
    assert_eq!(format_bytes(1024 * 1024 * 1024 + 128 * 1024 * 1024), "1.12 GB");
    assert_eq!(format_bytes(1024 * 1024 * 1024 + 384 * 1024 * 1024), "1.38 GB");
}

#[test]
fn format_bytes_typical_values() {
    assert_eq!(format_bytes(1500), "1 KB");
    assert_eq!(format_bytes(5 * 1024 * 1024 + 100_000), "5.1 MB");
    assert_eq!(format_bytes(3 * 1024 * 1024 * 1024 + 500 * 1024 * 1024), "3.49 GB");
}

#[test]
fn format_bytes_huge_values_follow_binary64() {
    assert_eq!(format_bytes(u64::MAX), float_reference(u64::MAX));
    assert_eq!(format_bytes(u64::MAX), "17179869184.00 GB");
    assert_eq!(format_bytes((1u64 << 53) + 1), float_reference((1u64 << 53) + 1));
    assert_eq!(format_bytes((1u64 << 53) + 3), float_reference((1u64 << 53) + 3));
}

#[test]
fn format_bytes_agrees_with_binary64_formatting() {
    let mut checked = 0u32;
    let mut x: u64 = 0x9E37_79B9_7F4A_7C15;
    for shift in 0..64u32 {
        for k in 0..200u64 {
            x ^= x << 13;
            x ^= x >> 7;
            x ^= x << 17;
            let bytes = if shift == 0 { k } else { (x >> shift) ^ k };
            assert_eq!(format_bytes(bytes), float_reference(bytes), "bytes = {}", bytes);
            checked += 1;
        }
    }
    for unit in [1u64 << 10, 1 << 20, 1 << 30] {
        for step in 0..2000u64 {
            let bytes = unit + step * (unit / 1000 + 1);
            assert_eq!(format_bytes(bytes), float_reference(bytes), "bytes = {}", bytes);
            let tie = unit * 3 / 2 + step * (unit / 200);
            assert_eq!(format_bytes(tie), float_reference(tie), "bytes = {}", tie);
            checked += 2;
        }
    }
    assert!(checked > 10_000);
}

#[test]
fn collect_system_gna_summary_is_empty() {
    let summary: SystemMemorySummary = collect_system_gna_summary();
    assert_eq!(summary.total_gna_capacity_bytes, 0);
}

#[test]
fn collect_process_memory_keeps_order_and_zeroes_usage() {
    let input = vec![(42u32, String::from("gna-worker")), (7u32, String::from("idle")), (42u32, String::new())];
    let entries: Vec<ProcessMemoryEntry> = collect_process_memory(&input);
    assert_eq!(entries.len(), 3);
    assert_eq!(entries[0].pid, 42);
    assert_eq!(entries[0].name, "gna-worker");
    assert_eq!(entries[1].pid, 7);
    assert_eq!(entries[1].name, "idle");
    assert_eq!(entries[2].pid, 42);
    assert_eq!(entries[2].name, "");
    assert!(entries.iter().all(|e| e.gna_usage_bytes == 0));
}

#[test]
fn collect_process_memory_of_nothing_is_empty() {
    let entries = collect_process_memory(&[]);
    assert!(entries.is_empty());
}

#[test]
fn process_memory_entry_default_is_zeroed() {
    let entry = ProcessMemoryEntry::default();
    assert_eq!(entry.pid, 0);
    assert_eq!(entry.name, "");
    assert_eq!(entry.gna_usage_bytes, 0);
}
