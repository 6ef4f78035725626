//! The points written to InfluxDB for a round of metrics: one CPU point and
//! one memory point per container, tagged with the container and the host.
use crate::docker::DockerMetrics;
use vstd::prelude::*;

verus! {

/// The measurement that CPU points are written to.
pub const INFLUX_CPU_MEASUREMENT_NAME: &'static str = "docker_container_cpu";

/// The measurement that memory points are written to.
pub const INFLUX_MEM_MEASUREMENT_NAME: &'static str = "docker_container_mem";

/// A CPU point. The usage share written with it is computed from the two
/// deltas and the CPU count.
#[derive(Clone, Debug)]
pub struct CpuPoint {
    pub time: i64,
    pub usage_in_kernelmode: u64,
    pub usage_in_usermode: u64,
    pub usage_total: u64,
    pub usage_system: u64,
    pub total_delta: u64,
    pub system_delta: u64,
    pub online_cpus: u64,
    pub container_id: String,
    pub container_image: String,
    pub container_name: String,
    pub engine_host: String,
    pub host: String,
}

/// A memory point. The usage share written with it is usage over limit.
#[derive(Clone, Debug)]
pub struct MemPoint {
    pub time: i64,
    pub limit: u64,
    pub usage: u64,
    pub active_anon: u64,
    pub active_file: u64,
    pub inactive_anon: u64,
    pub inactive_file: u64,
    pub pgfault: u64,
    pub pgmajfault: u64,
    pub container_id: String,
    pub container_image: String,
    pub container_name: String,
    pub engine_host: String,
    pub host: String,
}

/// `p` is the CPU point of `m`, written from host `host`.
pub open spec fn cpu_point_of(p: CpuPoint, m: DockerMetrics, host: Seq<char>) -> bool {
    &&& p.time == m.time
    &&& p.usage_in_kernelmode == m.cpu_usage_in_kernelmode
    &&& p.usage_in_usermode == m.cpu_usage_in_usermode
    &&& p.usage_total == m.cpu_total_usage
    &&& p.usage_system == m.cpu_system_usage
    &&& p.total_delta == m.cpu_total_delta
    &&& p.system_delta == m.cpu_system_delta
    &&& p.online_cpus == m.online_cpus
    &&& p.container_id@ == m.container_id@
    &&& p.container_image@ == m.container_image@
    &&& p.container_name@ == m.container_name@
    &&& p.engine_host@ == host
    &&& p.host@ == host
}

/// `p` is the memory point of `m`, written from host `host`.
pub open spec fn mem_point_of(p: MemPoint, m: DockerMetrics, host: Seq<char>) -> bool {
    &&& p.time == m.time
    &&& p.limit == m.memory_limit_bytes
    &&& p.usage == m.memory_usage_bytes
    &&& p.active_anon == m.memory_active_anon
    &&& p.active_file == m.memory_active_file
    &&& p.inactive_anon == m.memory_inactive_anon
    &&& p.inactive_file == m.memory_inactive_file
    &&& p.pgfault == m.memory_pgfault
    &&& p.pgmajfault == m.memory_pgmajfault
    &&& p.container_id@ == m.container_id@
    &&& p.container_image@ == m.container_image@
    &&& p.container_name@ == m.container_name@
    &&& p.engine_host@ == host
    &&& p.host@ == host
}

/// The CPU point of one container's metrics.
pub fn cpu_point(m: &DockerMetrics, host: &str) -> (p: CpuPoint)
    ensures
        cpu_point_of(p, *m, host@),
        p.total_delta == m.cpu_total_delta,
        p.system_delta == m.cpu_system_delta,
        p.online_cpus == m.online_cpus,
{
    CpuPoint {
        time: m.time,
        usage_in_kernelmode: m.cpu_usage_in_kernelmode,
        usage_in_usermode: m.cpu_usage_in_usermode,
        usage_total: m.cpu_total_usage,
        usage_system: m.cpu_system_usage,
        total_delta: m.cpu_total_delta,
        system_delta: m.cpu_system_delta,
        online_cpus: m.online_cpus,
        container_id: m.container_id.clone(),
        container_image: m.container_image.clone(),
        container_name: m.container_name.clone(),
        engine_host: String::from_str(host),
        host: String::from_str(host),
    }
}

/// The memory point of one container's metrics.
pub fn mem_point(m: &DockerMetrics, host: &str) -> (p: MemPoint)
    ensures
        mem_point_of(p, *m, host@),
        p.usage == m.memory_usage_bytes,
        p.limit == m.memory_limit_bytes,
{
    MemPoint {
        time: m.time,
        limit: m.memory_limit_bytes,
        usage: m.memory_usage_bytes,
        active_anon: m.memory_active_anon,
        active_file: m.memory_active_file,
        inactive_anon: m.memory_inactive_anon,
        inactive_file: m.memory_inactive_file,
        pgfault: m.memory_pgfault,
        pgmajfault: m.memory_pgmajfault,
        container_id: m.container_id.clone(),
        container_image: m.container_image.clone(),
        container_name: m.container_name.clone(),
        engine_host: String::from_str(host),
        host: String::from_str(host),
    }
}

/// The CPU points and the memory points of a round, in the order of the
/// metrics.
pub fn influx_points(docker_metrics: &Vec<DockerMetrics>, host: &str) -> (points: (
    Vec<CpuPoint>,
    Vec<MemPoint>,
))
    ensures
        points.0.len() == docker_metrics.len(),
        points.1.len() == docker_metrics.len(),
        forall|i: int|
            0 <= i < docker_metrics.len() ==> cpu_point_of(
                #[trigger] points.0[i],
                docker_metrics[i],
                host@,
            ),
        forall|i: int|
            0 <= i < docker_metrics.len() ==> mem_point_of(
                #[trigger] points.1[i],
                docker_metrics[i],
                host@,
            ),
        forall|i: int|
            0 <= i < docker_metrics.len() ==> {
                &&& (#[trigger] points.0[i]).total_delta == docker_metrics[i].cpu_total_delta
                &&& points.0[i].system_delta == docker_metrics[i].cpu_system_delta
                &&& points.0[i].online_cpus == docker_metrics[i].online_cpus
            },
        forall|i: int|
            0 <= i < docker_metrics.len() ==> {
                &&& (#[trigger] points.1[i]).usage == docker_metrics[i].memory_usage_bytes
                &&& points.1[i].limit == docker_metrics[i].memory_limit_bytes
            },
{
    let mut cpu_influx: Vec<CpuPoint> = Vec::new();
    let mut mem_influx: Vec<MemPoint> = Vec::new();
    let n = docker_metrics.len();
    let mut i: usize = 0;
    while i < n
        invariant
            n == docker_metrics.len(),
            i <= n,
            cpu_influx.len() == i,
            mem_influx.len() == i,
            forall|j: int|
                0 <= j < i ==> cpu_point_of(#[trigger] cpu_influx[j], docker_metrics[j], host@),
            forall|j: int|
                0 <= j < i ==> mem_point_of(#[trigger] mem_influx[j], docker_metrics[j], host@),
        decreases n - i,
    {
        cpu_influx.push(cpu_point(&docker_metrics[i], host));
        mem_influx.push(mem_point(&docker_metrics[i], host));
        i = i + 1;
    }
    (cpu_influx, mem_influx)
}

/// A CPU point carries its metrics' counters and, for the usage share, the
/// container's and the host's CPU time since the previous round (not the
/// cumulative counters) and the CPU count; it is tagged with the container
/// and the host.
pub proof fn law_cpu_point_carries_metrics(p: CpuPoint, m: DockerMetrics, host: Seq<char>)
    requires
        cpu_point_of(p, m, host),
    ensures
        p.time == m.time,
        p.usage_in_kernelmode == m.cpu_usage_in_kernelmode,
        p.usage_in_usermode == m.cpu_usage_in_usermode,
        p.usage_total == m.cpu_total_usage,
        p.usage_system == m.cpu_system_usage,
        p.total_delta == m.cpu_total_delta,
        p.system_delta == m.cpu_system_delta,
        p.online_cpus == m.online_cpus,
        p.container_id@ == m.container_id@,
        p.container_image@ == m.container_image@,
        p.container_name@ == m.container_name@,
        p.engine_host@ == host,
        p.host@ == host,
{
}

/// A memory point carries its metrics' used memory, limit and counters, and
/// is tagged with the container and the host.
pub proof fn law_mem_point_carries_metrics(p: MemPoint, m: DockerMetrics, host: Seq<char>)
    requires
        mem_point_of(p, m, host),
    ensures
        p.time == m.time,
        p.limit == m.memory_limit_bytes,
        p.usage == m.memory_usage_bytes,
        p.active_anon == m.memory_active_anon,
        p.active_file == m.memory_active_file,
        p.inactive_anon == m.memory_inactive_anon,
        p.inactive_file == m.memory_inactive_file,
        p.pgfault == m.memory_pgfault,
        p.pgmajfault == m.memory_pgmajfault,
        p.container_id@ == m.container_id@,
        p.container_image@ == m.container_image@,
        p.container_name@ == m.container_name@,
        p.engine_host@ == host,
        p.host@ == host,
{
}

} // verus!
