//! Turning the statistics that the container engine reports into metrics,
//! one container at a time, with the CPU counters of the previous round kept
//! in two caches so that each round reports what was used since the last.
use crate::cache::{
    cached_value,
    entries_ok,
    lemma_stored_reads_back,
    lemma_touched_keeps_values,
    lru_capacity,
    lru_entries,
    lru_get,
    lru_new,
    lru_peek,
    lru_put,
    stored,
    touched,
};
use crate::memory::{
    mem_active_anon,
    mem_active_file,
    mem_inactive_anon,
    mem_inactive_file,
    mem_limit,
    mem_pgfault,
    mem_pgmajfault,
    mem_unevictable,
    mem_usage,
    mem_usage_in_range,
    spec_active_anon,
    spec_active_file,
    spec_inactive_anon,
    spec_inactive_file,
    spec_mem_limit,
    spec_mem_usage,
    spec_pgfault,
    spec_pgmajfault,
    spec_unevictable,
    usage_in_range,
    MemoryStats,
};
use crate::text::{trim_leading_slashes, trim_slashes};
use lru::LruCache;
use vstd::prelude::*;

verus! {

/// How many containers each cache remembers.
pub const USAGE_CACHE_CAPACITY: usize = 512;

/// The CPU counters of one container, in nanoseconds of CPU time.
#[derive(Clone, Copy, Debug, PartialEq, Eq)]
pub struct CpuSample {
    pub total_usage: u64,
    pub usage_in_kernelmode: u64,
    pub usage_in_usermode: u64,
    /// The host's CPU time, where the engine reports it.
    pub system_cpu_usage: Option<u64>,
    pub online_cpus: Option<u64>,
}

/// What the engine reports for one running container.
#[derive(Clone, Debug)]
pub struct ContainerSample {
    pub id: String,
    pub image: String,
    /// The first name that the engine lists for the container.
    pub name: String,
    pub cpu: CpuSample,
    pub memory: MemoryStats,
}

/// The metrics of one container in one round. The CPU share is the ratio of
/// the two deltas times the number of online CPUs; the memory share is the
/// ratio of usage to limit.
#[derive(Clone, Debug)]
pub struct DockerMetrics {
    /// When the round started, in nanoseconds since the Unix epoch.
    pub time: i64,
    pub container_id: String,
    pub container_image: String,
    pub container_name: String,
    pub cpu_usage_in_kernelmode: u64,
    pub cpu_usage_in_usermode: u64,
    pub cpu_total_usage: u64,
    pub cpu_system_usage: u64,
    /// The container's CPU time since the previous round.
    pub cpu_total_delta: u64,
    /// The host's CPU time since the previous round.
    pub cpu_system_delta: u64,
    pub online_cpus: u64,
    pub memory_active_anon: u64,
    pub memory_active_file: u64,
    pub memory_inactive_anon: u64,
    pub memory_inactive_file: u64,
    pub memory_pgfault: u64,
    pub memory_pgmajfault: u64,
    pub memory_unevictable: u64,
    pub memory_usage_bytes: u64,
    pub memory_limit_bytes: u64,
}

/// The host's CPU time in a sample, 0 where the engine left it out.
pub open spec fn system_reading(cpu: CpuSample) -> u64 {
    match cpu.system_cpu_usage {
        Some(v) => v,
        None => 0,
    }
}

/// The number of online CPUs in a sample, 0 where the engine left it out.
pub open spec fn online_cpus_reading(cpu: CpuSample) -> u64 {
    match cpu.online_cpus {
        Some(v) => v,
        None => 0,
    }
}

/// A cached counter, 0 for a container seen for the first time.
pub open spec fn previous_reading(entries: Seq<(Seq<char>, u64)>, id: Seq<char>) -> u64 {
    match cached_value(entries, id) {
        Some(v) => v,
        None => 0,
    }
}

/// `m` holds the metrics of sample `s` taken at `time`, with `last_total`
/// and `last_system` the counters of the previous round.
pub open spec fn metrics_of(
    m: DockerMetrics,
    time: i64,
    s: ContainerSample,
    last_total: u64,
    last_system: u64,
) -> bool {
    &&& m.time == time
    &&& m.container_id@ == s.id@
    &&& m.container_image@ == s.image@
    &&& m.container_name@ == trim_leading_slashes(s.name@)
    &&& m.cpu_usage_in_kernelmode == s.cpu.usage_in_kernelmode
    &&& m.cpu_usage_in_usermode == s.cpu.usage_in_usermode
    &&& m.cpu_total_usage == s.cpu.total_usage
    &&& m.cpu_system_usage == system_reading(s.cpu)
    &&& m.cpu_total_delta == s.cpu.total_usage - last_total
    &&& m.cpu_system_delta == system_reading(s.cpu) - last_system
    &&& m.online_cpus == online_cpus_reading(s.cpu)
    &&& m.memory_active_anon == spec_active_anon(s.memory)
    &&& m.memory_active_file == spec_active_file(s.memory)
    &&& m.memory_inactive_anon == spec_inactive_anon(s.memory)
    &&& m.memory_inactive_file == spec_inactive_file(s.memory)
    &&& m.memory_pgfault == spec_pgfault(s.memory)
    &&& m.memory_pgmajfault == spec_pgmajfault(s.memory)
    &&& m.memory_unevictable == spec_unevictable(s.memory)
    &&& m.memory_usage_bytes == spec_mem_usage(s.memory)
    &&& m.memory_limit_bytes == spec_mem_limit(s.memory)
}

/// The previous reading of a container is the counter cached for it, and 0
/// when none is cached.
pub proof fn law_previous_reading_is_cached_counter(entries: Seq<(Seq<char>, u64)>, id: Seq<char>)
    ensures
        cached_value(entries, id) matches Some(v) ==> previous_reading(entries, id) == v,
        cached_value(entries, id) is None ==> previous_reading(entries, id) == 0,
{
}

/// Metrics taken against caches that hold a container's counters of the
/// previous round carry the differences to those counters: the container's
/// CPU time used since then, and the host's.
pub proof fn law_deltas_against_previous_round(
    m: DockerMetrics,
    time: i64,
    s: ContainerSample,
    total_entries: Seq<(Seq<char>, u64)>,
    system_entries: Seq<(Seq<char>, u64)>,
    last_total: u64,
    last_system: u64,
)
    requires
        metrics_of(
            m,
            time,
            s,
            previous_reading(total_entries, s.id@),
            previous_reading(system_entries, s.id@),
        ),
        cached_value(total_entries, s.id@) == Some(last_total),
        cached_value(system_entries, s.id@) == Some(last_system),
    ensures
        m.cpu_total_usage == s.cpu.total_usage,
        m.cpu_total_delta == s.cpu.total_usage - last_total,
        s.cpu.system_cpu_usage matches Some(x) ==> m.cpu_system_usage == x
            && m.cpu_system_delta == x - last_system,
        s.cpu.system_cpu_usage is None ==> m.cpu_system_usage == 0 && m.cpu_system_delta == 0
            - last_system,
{
}

/// Metrics of a container seen for the first time carry its whole counters
/// as deltas.
pub proof fn law_first_round_deltas(
    m: DockerMetrics,
    time: i64,
    s: ContainerSample,
    total_entries: Seq<(Seq<char>, u64)>,
    system_entries: Seq<(Seq<char>, u64)>,
)
    requires
        metrics_of(
            m,
            time,
            s,
            previous_reading(total_entries, s.id@),
            previous_reading(system_entries, s.id@),
        ),
        cached_value(total_entries, s.id@) is None,
        cached_value(system_entries, s.id@) is None,
    ensures
        m.cpu_total_delta == s.cpu.total_usage,
        m.cpu_system_delta == m.cpu_system_usage,
{
}

/// The CPU counters of the previous round: the container's own CPU time and
/// the host's, by container id.
pub struct UsageCaches {
    total: LruCache<String, u64>,
    system: LruCache<String, u64>,
}

impl UsageCaches {
    /// The entries of the cache of the containers' own CPU time.
    pub closed spec fn total_entries(&self) -> Seq<(Seq<char>, u64)> {
        lru_entries(self.total)
    }

    /// The entries of the cache of the host's CPU time.
    pub closed spec fn system_entries(&self) -> Seq<(Seq<char>, u64)> {
        lru_entries(self.system)
    }

    /// Both caches have the agent's capacity and are well formed. `new`
    /// establishes it and `record` keeps it; nothing else can change the
    /// caches.
    pub closed spec fn wf(&self) -> bool {
        &&& lru_capacity(self.total) == USAGE_CACHE_CAPACITY
        &&& lru_capacity(self.system) == USAGE_CACHE_CAPACITY
        &&& entries_ok(self.total_entries(), USAGE_CACHE_CAPACITY as nat)
        &&& entries_ok(self.system_entries(), USAGE_CACHE_CAPACITY as nat)
    }

    /// Well-formed caches hold distinct keys, at most `USAGE_CACHE_CAPACITY`
    /// of them each.
    pub proof fn lemma_wf_bounded(caches: &UsageCaches)
        requires
            caches.wf(),
        ensures
            entries_ok(caches.total_entries(), USAGE_CACHE_CAPACITY as nat),
            entries_ok(caches.system_entries(), USAGE_CACHE_CAPACITY as nat),
    {
    }

    /// A container that neither cache holds fits exactly when its memory
    /// usage can be computed.
    pub proof fn law_new_container_fits(caches: &UsageCaches, s: ContainerSample)
        requires
            cached_value(caches.total_entries(), s.id@) is None,
            cached_value(caches.system_entries(), s.id@) is None,
        ensures
            caches.sample_fits(s) == usage_in_range(s.memory),
    {
    }

    /// Whether a sample can be turned into metrics: no counter went back
    /// since the previous round, and the memory usage is in range.
    pub open spec fn sample_fits(&self, s: ContainerSample) -> bool {
        &&& previous_reading(self.total_entries(), s.id@) <= s.cpu.total_usage
        &&& previous_reading(self.system_entries(), s.id@) <= system_reading(s.cpu)
        &&& usage_in_range(s.memory)
    }

    /// Two empty caches.
    pub fn new() -> (caches: Self)
        ensures
            caches.wf(),
            caches.total_entries() == Seq::<(Seq<char>, u64)>::empty(),
            caches.system_entries() == Seq::<(Seq<char>, u64)>::empty(),
    {
        UsageCaches { total: lru_new(USAGE_CACHE_CAPACITY), system: lru_new(USAGE_CACHE_CAPACITY) }
    }

    /// Whether `sample` can be turned into metrics against these caches,
    /// without touching their order.
    pub fn fits(&self, sample: &ContainerSample) -> (r: bool)
        ensures
            r == self.sample_fits(*sample),
            r == ((cached_value(self.total_entries(), sample.id@) matches Some(v) ==> v
                <= sample.cpu.total_usage) && (cached_value(self.system_entries(), sample.id@)
                matches Some(v) ==> v <= (match sample.cpu.system_cpu_usage {
                Some(x) => x,
                None => 0,
            })) && usage_in_range(sample.memory)),
    {
        let last_total = match lru_peek(&self.total, sample.id.as_str()) {
            Some(v) => v,
            None => 0,
        };
        let last_system = match lru_peek(&self.system, sample.id.as_str()) {
            Some(v) => v,
            None => 0,
        };
        let system = match sample.cpu.system_cpu_usage {
            Some(v) => v,
            None => 0,
        };
        last_total <= sample.cpu.total_usage && last_system <= system && mem_usage_in_range(
            &sample.memory,
        )
    }

    /// Turns one container's sample, taken at `time`, into its metrics: the
    /// CPU deltas are taken against the counters cached in the previous
    /// round (0 for a new container), and the caches then hold this round's
    /// counters for the container.
    pub fn record(&mut self, time: i64, sample: ContainerSample) -> (m: DockerMetrics)
        requires
            old(self).wf(),
            old(self).sample_fits(sample),
        ensures
            final(self).wf(),
            metrics_of(
                m,
                time,
                sample,
                previous_reading(old(self).total_entries(), sample.id@),
                previous_reading(old(self).system_entries(), sample.id@),
            ),
            final(self).total_entries() == stored(
                touched(old(self).total_entries(), sample.id@),
                sample.id@,
                sample.cpu.total_usage,
                USAGE_CACHE_CAPACITY as nat,
            ),
            final(self).system_entries() == stored(
                touched(old(self).system_entries(), sample.id@),
                sample.id@,
                system_reading(sample.cpu),
                USAGE_CACHE_CAPACITY as nat,
            ),
            cached_value(final(self).total_entries(), sample.id@) == Some(sample.cpu.total_usage),
            cached_value(final(self).system_entries(), sample.id@) == Some(
                system_reading(sample.cpu),
            ),
            cached_value(final(self).system_entries(), sample.id@) == Some(m.cpu_system_usage),
            m.cpu_total_usage == sample.cpu.total_usage,
            sample.cpu.system_cpu_usage matches Some(x) ==> m.cpu_system_usage == x,
            sample.cpu.system_cpu_usage is None ==> m.cpu_system_usage == 0,
            cached_value(old(self).total_entries(), sample.id@) matches Some(v)
                ==> m.cpu_total_delta == sample.cpu.total_usage - v,
            cached_value(old(self).total_entries(), sample.id@) is None ==> m.cpu_total_delta
                == sample.cpu.total_usage,
            cached_value(old(self).system_entries(), sample.id@) matches Some(v)
                ==> m.cpu_system_delta == m.cpu_system_usage - v,
            cached_value(old(self).system_entries(), sample.id@) is None ==> m.cpu_system_delta
                == m.cpu_system_usage,
    {
        let ghost total0 = self.total_entries();
        let ghost system0 = self.system_entries();
        proof {
            lemma_touched_keeps_values(total0, sample.id@, USAGE_CACHE_CAPACITY as nat);
            lemma_touched_keeps_values(system0, sample.id@, USAGE_CACHE_CAPACITY as nat);
        }
        let cpu_total = sample.cpu.total_usage;
        let cpu_system = match sample.cpu.system_cpu_usage {
            Some(v) => v,
            None => 0,
        };
        let last_cpu_total = match lru_get(&mut self.total, sample.id.as_str()) {
            Some(v) => v,
            None => 0,
        };
        let last_cpu_system = match lru_get(&mut self.system, sample.id.as_str()) {
            Some(v) => v,
            None => 0,
        };
        let online_cpus = match sample.cpu.online_cpus {
            Some(v) => v,
            None => 0,
        };
        let container_name = trim_slashes(sample.name.as_str());
        let metrics = DockerMetrics {
            time,
            container_id: sample.id.clone(),
            container_image: sample.image.clone(),
            container_name,
            cpu_usage_in_kernelmode: sample.cpu.usage_in_kernelmode,
            cpu_usage_in_usermode: sample.cpu.usage_in_usermode,
            cpu_total_usage: cpu_total,
            cpu_system_usage: cpu_system,
            cpu_total_delta: cpu_total - last_cpu_total,
            cpu_system_delta: cpu_system - last_cpu_system,
            online_cpus,
            memory_active_anon: mem_active_anon(&sample.memory),
            memory_active_file: mem_active_file(&sample.memory),
            memory_inactive_anon: mem_inactive_anon(&sample.memory),
            memory_inactive_file: mem_inactive_file(&sample.memory),
            memory_pgfault: mem_pgfault(&sample.memory),
            memory_pgmajfault: mem_pgmajfault(&sample.memory),
            memory_unevictable: mem_unevictable(&sample.memory),
            memory_usage_bytes: mem_usage(&sample.memory),
            memory_limit_bytes: mem_limit(&sample.memory),
        };
        proof {
            lemma_stored_reads_back(
                touched(total0, sample.id@),
                sample.id@,
                cpu_total,
                USAGE_CACHE_CAPACITY as nat,
            );
            lemma_stored_reads_back(
                touched(system0, sample.id@),
                sample.id@,
                cpu_system,
                USAGE_CACHE_CAPACITY as nat,
            );
        }
        lru_put(&mut self.total, sample.id.clone(), cpu_total);
        lru_put(&mut self.system, sample.id, cpu_system);
        metrics
    }
}

} // verus!
