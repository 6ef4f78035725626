//! A container's memory statistics, as the container engine reports them for
//! cgroup v1 and v2 hosts, and the figures read from them.
use vstd::prelude::*;

verus! {

/// The cgroup v1 counters that the agent reads.
#[derive(Clone, Copy, Debug, PartialEq, Eq)]
pub struct MemoryStatsV1 {
    pub cache: u64,
    pub total_cache: u64,
    pub total_inactive_file: u64,
    pub active_anon: u64,
    pub active_file: u64,
    pub inactive_anon: u64,
    pub inactive_file: u64,
    pub pgfault: u64,
    pub pgmajfault: u64,
    pub unevictable: u64,
}

/// The cgroup v2 counters that the agent reads.
#[derive(Clone, Copy, Debug, PartialEq, Eq)]
pub struct MemoryStatsV2 {
    pub active_anon: u64,
    pub active_file: u64,
    pub inactive_anon: u64,
    pub inactive_file: u64,
    pub pgfault: u64,
    pub pgmajfault: u64,
    pub unevictable: u64,
}

/// The detailed counters, whichever cgroup version the host runs.
#[derive(Clone, Copy, Debug, PartialEq, Eq)]
pub enum MemoryStatsStats {
    V1(MemoryStatsV1),
    V2(MemoryStatsV2),
}

/// A container's memory statistics: total usage, limit and detailed
/// counters, each of which the engine may leave out.
#[derive(Clone, Copy, Debug, PartialEq, Eq)]
pub struct MemoryStats {
    pub stats: Option<MemoryStatsStats>,
    pub usage: Option<u64>,
    pub limit: Option<u64>,
}

pub open spec fn spec_active_anon(m: MemoryStats) -> u64 {
    match m.stats {
        None => 0,
        Some(MemoryStatsStats::V1(s)) => s.active_anon,
        Some(MemoryStatsStats::V2(s)) => s.active_anon,
    }
}

pub open spec fn spec_active_file(m: MemoryStats) -> u64 {
    match m.stats {
        None => 0,
        Some(MemoryStatsStats::V1(s)) => s.active_file,
        Some(MemoryStatsStats::V2(s)) => s.active_file,
    }
}

pub open spec fn spec_inactive_anon(m: MemoryStats) -> u64 {
    match m.stats {
        None => 0,
        Some(MemoryStatsStats::V1(s)) => s.inactive_anon,
        Some(MemoryStatsStats::V2(s)) => s.inactive_anon,
    }
}

pub open spec fn spec_inactive_file(m: MemoryStats) -> u64 {
    match m.stats {
        None => 0,
        Some(MemoryStatsStats::V1(s)) => s.inactive_file,
        Some(MemoryStatsStats::V2(s)) => s.inactive_file,
    }
}

pub open spec fn spec_pgfault(m: MemoryStats) -> u64 {
    match m.stats {
        None => 0,
        Some(MemoryStatsStats::V1(s)) => s.pgfault,
        Some(MemoryStatsStats::V2(s)) => s.pgfault,
    }
}

pub open spec fn spec_pgmajfault(m: MemoryStats) -> u64 {
    match m.stats {
        None => 0,
        Some(MemoryStatsStats::V1(s)) => s.pgmajfault,
        Some(MemoryStatsStats::V2(s)) => s.pgmajfault,
    }
}

pub open spec fn spec_unevictable(m: MemoryStats) -> u64 {
    match m.stats {
        None => 0,
        Some(MemoryStatsStats::V1(s)) => s.unevictable,
        Some(MemoryStatsStats::V2(s)) => s.unevictable,
    }
}

/// The reported usage, 0 where the engine left it out.
pub open spec fn raw_usage(m: MemoryStats) -> u64 {
    match m.usage {
        Some(v) => v,
        None => 0,
    }
}

/// The part of the usage that is page cache and not counted as used: on v1
/// the total cache when the cache counter is nonzero, else the inactive file
/// pages; on v2 the inactive file pages; nothing without counters.
pub open spec fn reclaimable(m: MemoryStats) -> u64 {
    match m.stats {
        None => 0,
        Some(MemoryStatsStats::V1(s)) => if s.cache > 0 {
            s.total_cache
        } else {
            s.total_inactive_file
        },
        Some(MemoryStatsStats::V2(s)) => s.inactive_file,
    }
}

/// Whether the reclaimable part does not exceed the reported usage, so that
/// the used memory can be computed without going below zero.
pub open spec fn usage_in_range(m: MemoryStats) -> bool {
    reclaimable(m) <= raw_usage(m)
}

/// The memory in use: the reported usage less the reclaimable part.
pub open spec fn spec_mem_usage(m: MemoryStats) -> int {
    raw_usage(m) - reclaimable(m)
}

/// The limit, 0 where the engine left it out.
pub open spec fn spec_mem_limit(m: MemoryStats) -> u64 {
    match m.limit {
        Some(v) => v,
        None => 0,
    }
}

/// Anonymous memory on the active list.
pub fn mem_active_anon(mem_stat: &MemoryStats) -> (r: u64)
    ensures
        r == spec_active_anon(*mem_stat),
{
    match mem_stat.stats {
        None => 0,
        Some(MemoryStatsStats::V1(v1)) => v1.active_anon,
        Some(MemoryStatsStats::V2(v2)) => v2.active_anon,
    }
}

/// File-backed memory on the active list.
pub fn mem_active_file(mem_stat: &MemoryStats) -> (r: u64)
    ensures
        r == spec_active_file(*mem_stat),
{
    match mem_stat.stats {
        None => 0,
        Some(MemoryStatsStats::V1(v1)) => v1.active_file,
        Some(MemoryStatsStats::V2(v2)) => v2.active_file,
    }
}

/// Anonymous memory on the inactive list.
pub fn mem_inactive_anon(mem_stat: &MemoryStats) -> (r: u64)
    ensures
        r == spec_inactive_anon(*mem_stat),
{
    match mem_stat.stats {
        None => 0,
        Some(MemoryStatsStats::V1(v1)) => v1.inactive_anon,
        Some(MemoryStatsStats::V2(v2)) => v2.inactive_anon,
    }
}

/// File-backed memory on the inactive list.
pub fn mem_inactive_file(mem_stat: &MemoryStats) -> (r: u64)
    ensures
        r == spec_inactive_file(*mem_stat),
{
    match mem_stat.stats {
        None => 0,
        Some(MemoryStatsStats::V1(v1)) => v1.inactive_file,
        Some(MemoryStatsStats::V2(v2)) => v2.inactive_file,
    }
}

/// The count of page faults.
pub fn mem_pgfault(mem_stat: &MemoryStats) -> (r: u64)
    ensures
        r == spec_pgfault(*mem_stat),
{
    match mem_stat.stats {
        None => 0,
        Some(MemoryStatsStats::V1(v1)) => v1.pgfault,
        Some(MemoryStatsStats::V2(v2)) => v2.pgfault,
    }
}

/// The count of major page faults.
pub fn mem_pgmajfault(mem_stat: &MemoryStats) -> (r: u64)
    ensures
        r == spec_pgmajfault(*mem_stat),
{
    match mem_stat.stats {
        None => 0,
        Some(MemoryStatsStats::V1(v1)) => v1.pgmajfault,
        Some(MemoryStatsStats::V2(v2)) => v2.pgmajfault,
    }
}

/// Memory that cannot be evicted.
pub fn mem_unevictable(mem_stat: &MemoryStats) -> (r: u64)
    ensures
        r == spec_unevictable(*mem_stat),
{
    match mem_stat.stats {
        None => 0,
        Some(MemoryStatsStats::V1(v1)) => v1.unevictable,
        Some(MemoryStatsStats::V2(v2)) => v2.unevictable,
    }
}

/// Whether `mem_usage` can be computed for these statistics.
pub fn mem_usage_in_range(mem_stat: &MemoryStats) -> (r: bool)
    ensures
        r == usage_in_range(*mem_stat),
        mem_stat.stats is None ==> r,
        mem_stat.usage matches Some(u) ==> (mem_stat.stats matches Some(
            MemoryStatsStats::V1(s),
        ) ==> (s.cache > 0 ==> r == (s.total_cache <= u))),
        mem_stat.usage matches Some(u) ==> (mem_stat.stats matches Some(
            MemoryStatsStats::V1(s),
        ) ==> (s.cache == 0 ==> r == (s.total_inactive_file <= u))),
        mem_stat.usage matches Some(u) ==> (mem_stat.stats matches Some(
            MemoryStatsStats::V2(s),
        ) ==> r == (s.inactive_file <= u)),
{
    let v = match mem_stat.usage {
        Some(v) => v,
        None => 0,
    };
    match mem_stat.stats {
        None => true,
        Some(MemoryStatsStats::V1(v1)) => if v1.cache > 0 {
            v1.total_cache <= v
        } else {
            v1.total_inactive_file <= v
        },
        Some(MemoryStatsStats::V2(v2)) => v2.inactive_file <= v,
    }
}

/// The memory in use: the reported usage less the page cache that can be
/// reclaimed. Never more than the reported usage.
pub fn mem_usage(mem_stat: &MemoryStats) -> (r: u64)
    requires
        usage_in_range(*mem_stat),
    ensures
        r == spec_mem_usage(*mem_stat),
        r <= raw_usage(*mem_stat),
        mem_stat.stats is None ==> r == (match mem_stat.usage {
            Some(u) => u,
            None => 0,
        }),
        mem_stat.usage matches Some(u) ==> (mem_stat.stats matches Some(
            MemoryStatsStats::V1(s),
        ) ==> (s.cache > 0 ==> r == u - s.total_cache)),
        mem_stat.usage matches Some(u) ==> (mem_stat.stats matches Some(
            MemoryStatsStats::V1(s),
        ) ==> (s.cache == 0 ==> r == u - s.total_inactive_file)),
        mem_stat.usage matches Some(u) ==> (mem_stat.stats matches Some(
            MemoryStatsStats::V2(s),
        ) ==> r == u - s.inactive_file),
{
    let v = match mem_stat.usage {
        Some(v) => v,
        None => 0,
    };
    match mem_stat.stats {
        None => v,
        Some(MemoryStatsStats::V1(v1)) => {
            if v1.cache > 0 {
                v - v1.total_cache
            } else {
                v - v1.total_inactive_file
            }
        },
        Some(MemoryStatsStats::V2(v2)) => v - v2.inactive_file,
    }
}

/// The memory limit, 0 where none was reported.
pub fn mem_limit(mem_stat: &MemoryStats) -> (r: u64)
    ensures
        r == spec_mem_limit(*mem_stat),
        mem_stat.limit matches Some(v) ==> r == v,
        mem_stat.limit is None ==> r == 0,
{
    match mem_stat.limit {
        Some(v) => v,
        None => 0,
    }
}

/// The limit is the reported limit unchanged, and 0 when none is reported.
pub proof fn law_limit_is_reported_limit(m: MemoryStats)
    ensures
        m.limit matches Some(v) ==> spec_mem_limit(m) == v,
        m.limit is None ==> spec_mem_limit(m) == 0,
{
}

/// Each counter is the field of the same name in the reported details,
/// whichever cgroup version, and 0 without details.
pub proof fn law_counters_are_reported_fields(m: MemoryStats)
    ensures
        m.stats matches Some(MemoryStatsStats::V1(s)) ==> {
            &&& spec_active_anon(m) == s.active_anon
            &&& spec_active_file(m) == s.active_file
            &&& spec_inactive_anon(m) == s.inactive_anon
            &&& spec_inactive_file(m) == s.inactive_file
            &&& spec_pgfault(m) == s.pgfault
            &&& spec_pgmajfault(m) == s.pgmajfault
            &&& spec_unevictable(m) == s.unevictable
        },
        m.stats matches Some(MemoryStatsStats::V2(s)) ==> {
            &&& spec_active_anon(m) == s.active_anon
            &&& spec_active_file(m) == s.active_file
            &&& spec_inactive_anon(m) == s.inactive_anon
            &&& spec_inactive_file(m) == s.inactive_file
            &&& spec_pgfault(m) == s.pgfault
            &&& spec_pgmajfault(m) == s.pgmajfault
            &&& spec_unevictable(m) == s.unevictable
        },
        m.stats is None ==> {
            &&& spec_active_anon(m) == 0
            &&& spec_active_file(m) == 0
            &&& spec_inactive_anon(m) == 0
            &&& spec_inactive_file(m) == 0
            &&& spec_pgfault(m) == 0
            &&& spec_pgmajfault(m) == 0
            &&& spec_unevictable(m) == 0
        },
{
}

/// The used memory is the reported usage less the page cache: on cgroup v1
/// the total cache whenever the cache counter is nonzero (whatever the
/// inactive file pages are), else the total inactive file pages; on v2 the
/// inactive file pages; without details the whole usage. It can be computed
/// exactly when that page cache does not exceed the usage.
pub proof fn law_used_memory(m: MemoryStats, u: u64)
    requires
        m.usage == Some(u),
    ensures
        m.stats is None ==> usage_in_range(m) && spec_mem_usage(m) == u,
        m.stats matches Some(MemoryStatsStats::V1(s)) ==> s.cache > 0 ==> {
            &&& usage_in_range(m) == (s.total_cache <= u)
            &&& spec_mem_usage(m) == u - s.total_cache
        },
        m.stats matches Some(MemoryStatsStats::V1(s)) ==> s.cache == 0 ==> {
            &&& usage_in_range(m) == (s.total_inactive_file <= u)
            &&& spec_mem_usage(m) == u - s.total_inactive_file
        },
        m.stats matches Some(MemoryStatsStats::V2(s)) ==> {
            &&& usage_in_range(m) == (s.inactive_file <= u)
            &&& spec_mem_usage(m) == u - s.inactive_file
        },
{
}

/// Without a reported usage the used memory is 0, and it can be computed
/// only when the page cache is 0 too.
pub proof fn law_used_memory_without_usage(m: MemoryStats)
    requires
        m.usage is None,
    ensures
        usage_in_range(m) ==> spec_mem_usage(m) == 0,
        m.stats is None ==> usage_in_range(m),
        m.stats matches Some(MemoryStatsStats::V2(s)) ==> usage_in_range(m) == (s.inactive_file
            == 0),
{
}

} // verus!
