use node_metrics::memory::{
    mem_active_anon, mem_active_file, mem_inactive_anon, mem_inactive_file, mem_limit, mem_pgfault,
    mem_pgmajfault, mem_unevictable, mem_usage, mem_usage_in_range, MemoryStats, MemoryStatsStats,
    MemoryStatsV1, MemoryStatsV2,
};

fn v1(cache: u64) -> MemoryStatsV1 {
    MemoryStatsV1 {
        cache,
        total_cache: 300,
        total_inactive_file: 200,
        active_anon: 1,
        active_file: 2,
        inactive_anon: 3,
        inactive_file: 4,
        pgfault: 5,
        pgmajfault: 6,
        unevictable: 7,
    }
}

fn v2() -> MemoryStatsV2 {
    MemoryStatsV2 {
        active_anon: 11,
        active_file: 12,
        inactive_anon: 13,
        inactive_file: 140,
        pgfault: 15,
        pgmajfault: 16,
        unevictable: 17,
    }
}

#[test]
fn counters_come_from_v1() {
    let m = MemoryStats { stats: Some(MemoryStatsStats::V1(v1(1))), usage: Some(1000), limit: Some(4000) };
    assert_eq!(mem_active_anon(&m), 1);
    assert_eq!(mem_active_file(&m), 2);
    assert_eq!(mem_inactive_anon(&m), 3);
    assert_eq!(mem_inactive_file(&m), 4);
    assert_eq!(mem_pgfault(&m), 5);
    assert_eq!(mem_pgmajfault(&m), 6);
    assert_eq!(mem_unevictable(&m), 7);
}

#[test]
fn counters_come_from_v2() {
    let m = MemoryStats { stats: Some(MemoryStatsStats::V2(v2())), usage: Some(1000), limit: None };
    assert_eq!(mem_active_anon(&m), 11);
    assert_eq!(mem_active_file(&m), 12);
    assert_eq!(mem_inactive_anon(&m), 13);
    assert_eq!(mem_inactive_file(&m), 140);
    assert_eq!(mem_pgfault(&m), 15);
    assert_eq!(mem_pgmajfault(&m), 16);
    assert_eq!(mem_unevictable(&m), 17);
}

#[test]
fn counters_are_zero_without_details() {
    let m = MemoryStats { stats: None, usage: Some(1000), limit: Some(5) };
    assert_eq!(mem_active_anon(&m), 0);
    assert_eq!(mem_active_file(&m), 0);
    assert_eq!(mem_inactive_anon(&m), 0);
    assert_eq!(mem_inactive_file(&m), 0);
    assert_eq!(mem_pgfault(&m), 0);
    assert_eq!(mem_pgmajfault(&m), 0);
    assert_eq!(mem_unevictable(&m), 0);
}

#[test]
fn usage_deducts_cache_on_v1() {
    let with_cache = MemoryStats { stats: Some(MemoryStatsStats::V1(v1(1))), usage: Some(1000), limit: None };
    assert!(mem_usage_in_range(&with_cache));
    assert_eq!(mem_usage(&with_cache), 700);
    let without_cache = MemoryStats { stats: Some(MemoryStatsStats::V1(v1(0))), usage: Some(1000), limit: None };
    assert_eq!(mem_usage(&without_cache), 800);
}

#[test]
fn usage_deducts_inactive_file_on_v2() {
    let m = MemoryStats { stats: Some(MemoryStatsStats::V2(v2())), usage: Some(1000), limit: None };
    assert_eq!(mem_usage(&m), 860);
}

#[test]
fn usage_without_details_is_raw_usage() {
    let m = MemoryStats { stats: None, usage: Some(1234), limit: None };
    assert_eq!(mem_usage(&m), 1234);
    let none = MemoryStats { stats: None, usage: None, limit: None };
    assert_eq!(mem_usage(&none), 0);
}

#[test]
fn usage_out_of_range_is_detected() {
    let m = MemoryStats { stats: Some(MemoryStatsStats::V2(v2())), usage: Some(100), limit: None };
    assert!(!mem_usage_in_range(&m));
    let missing = MemoryStats { stats: Some(MemoryStatsStats::V1(v1(1))), usage: None, limit: None };
    assert!(!mem_usage_in_range(&missing));
}

#[test]
fn limit_defaults_to_zero() {
    assert_eq!(mem_limit(&MemoryStats { stats: None, usage: None, limit: Some(4096) }), 4096);
    assert_eq!(mem_limit(&MemoryStats { stats: None, usage: None, limit: None }), 0);
}
