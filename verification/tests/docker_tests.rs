use node_metrics::docker::{ContainerSample, CpuSample, UsageCaches};
use node_metrics::influx::{influx_points, INFLUX_CPU_MEASUREMENT_NAME, INFLUX_MEM_MEASUREMENT_NAME};
use node_metrics::memory::{MemoryStats, MemoryStatsStats, MemoryStatsV2};

fn sample(id: &str, total: u64, system: Option<u64>) -> ContainerSample {
    ContainerSample {
        id: id.to_string(),
        image: "nginx:latest".to_string(),
        name: "/web".to_string(),
        cpu: CpuSample {
            total_usage: total,
            usage_in_kernelmode: 10,
            usage_in_usermode: 20,
            system_cpu_usage: system,
            online_cpus: Some(4),
        },
        memory: MemoryStats {
            stats: Some(MemoryStatsStats::V2(MemoryStatsV2 {
                active_anon: 1,
                active_file: 2,
                inactive_anon: 3,
                inactive_file: 100,
                pgfault: 5,
                pgmajfault: 6,
                unevictable: 7,
            })),
            usage: Some(1100),
            limit: Some(2000),
        },
    }
}

#[test]
fn first_round_takes_deltas_from_zero() {
    let mut caches = UsageCaches::new();
    let s = sample("abc", 500, Some(10_000));
    assert!(caches.fits(&s));
    let m = caches.record(42, s);
    assert_eq!(m.time, 42);
    assert_eq!(m.container_id, "abc");
    assert_eq!(m.container_image, "nginx:latest");
    assert_eq!(m.container_name, "web");
    assert_eq!(m.cpu_total_usage, 500);
    assert_eq!(m.cpu_system_usage, 10_000);
    assert_eq!(m.cpu_total_delta, 500);
    assert_eq!(m.cpu_system_delta, 10_000);
    assert_eq!(m.cpu_usage_in_kernelmode, 10);
    assert_eq!(m.cpu_usage_in_usermode, 20);
    assert_eq!(m.online_cpus, 4);
    assert_eq!(m.memory_usage_bytes, 1000);
    assert_eq!(m.memory_limit_bytes, 2000);
    assert_eq!(m.memory_active_anon, 1);
    assert_eq!(m.memory_active_file, 2);
    assert_eq!(m.memory_inactive_anon, 3);
    assert_eq!(m.memory_inactive_file, 100);
    assert_eq!(m.memory_pgfault, 5);
    assert_eq!(m.memory_pgmajfault, 6);
    assert_eq!(m.memory_unevictable, 7);
}

#[test]
fn next_round_takes_deltas_from_previous_counters() {
    let mut caches = UsageCaches::new();
    caches.record(1, sample("abc", 500, Some(10_000)));
    let s = sample("abc", 800, Some(14_000));
    assert!(caches.fits(&s));
    let m = caches.record(2, s);
    assert_eq!(m.cpu_total_delta, 300);
    assert_eq!(m.cpu_system_delta, 4_000);
    let other = caches.record(3, sample("def", 50, Some(15_000)));
    assert_eq!(other.cpu_total_delta, 50);
    assert_eq!(other.cpu_system_delta, 15_000);
}

#[test]
fn missing_system_counter_reads_as_zero() {
    let mut caches = UsageCaches::new();
    let m = caches.record(1, sample("abc", 500, None));
    assert_eq!(m.cpu_system_usage, 0);
    assert_eq!(m.cpu_system_delta, 0);
}

#[test]
fn counter_going_back_does_not_fit() {
    let mut caches = UsageCaches::new();
    caches.record(1, sample("abc", 500, Some(10_000)));
    assert!(!caches.fits(&sample("abc", 499, Some(20_000))));
    assert!(!caches.fits(&sample("abc", 600, Some(9_000))));
    assert!(caches.fits(&sample("abc", 500, Some(10_000))));
    assert!(caches.fits(&sample("xyz", 1, Some(1))));
}

#[test]
fn memory_out_of_range_does_not_fit() {
    let caches = UsageCaches::new();
    let mut s = sample("abc", 500, Some(10_000));
    s.memory.usage = Some(50);
    assert!(!caches.fits(&s));
}

#[test]
fn caches_forget_the_least_recent_container_when_full() {
    let mut caches = UsageCaches::new();
    for i in 0..512u64 {
        caches.record(0, sample(&format!("c{}", i), 100, Some(1000)));
    }
    // refresh c0, so that c1 is now the least recently used
    caches.record(1, sample("c0", 150, Some(1500)));
    caches.record(2, sample("new", 10, Some(2000)));
    let again = caches.record(3, sample("c1", 120, Some(2500)));
    assert_eq!(again.cpu_total_delta, 120);
    let kept = caches.record(4, sample("c0", 160, Some(3000)));
    assert_eq!(kept.cpu_total_delta, 10);
}

#[test]
fn influx_points_follow_metrics() {
    let mut caches = UsageCaches::new();
    let a = caches.record(7, sample("abc", 500, Some(10_000)));
    let b = caches.record(7, sample("def", 100, Some(10_000)));
    let (cpu, mem) = influx_points(&vec![a, b], "node-1");
    assert_eq!(cpu.len(), 2);
    assert_eq!(mem.len(), 2);
    assert_eq!(cpu[0].container_id, "abc");
    assert_eq!(cpu[1].container_id, "def");
    assert_eq!(cpu[0].usage_total, 500);
    assert_eq!(cpu[0].usage_system, 10_000);
    assert_eq!(cpu[0].total_delta, 500);
    assert_eq!(cpu[0].online_cpus, 4);
    assert_eq!(cpu[0].host, "node-1");
    assert_eq!(cpu[0].engine_host, "node-1");
    assert_eq!(cpu[0].container_name, "web");
    assert_eq!(mem[1].usage, 1000);
    assert_eq!(mem[1].limit, 2000);
    assert_eq!(mem[1].inactive_file, 100);
    assert_eq!(mem[1].time, 7);
    assert_eq!(mem[1].host, "node-1");
    assert_eq!(INFLUX_CPU_MEASUREMENT_NAME, "docker_container_cpu");
    assert_eq!(INFLUX_MEM_MEASUREMENT_NAME, "docker_container_mem");
}

#[test]
fn influx_points_of_no_metrics_are_empty() {
    let (cpu, mem) = influx_points(&vec![], "node-1");
    assert!(cpu.is_empty());
    assert!(mem.is_empty());
}
