//! Best-effort parsing of cgroup statistics files.
//!
//! A statistics read never fails as a whole: a missing or unparsable
//! field is left absent (or zero, for the plain counters), because
//! partial telemetry is more useful than none.

use vstd::prelude::*;

use crate::text::{
    lines_spec, parse_i64, parse_i64_spec, parse_u64, parse_u64_spec, split_lines, split_once,
    split_once_spec, split_tokens, str_eq, tokens_spec, trim, trim_spec,
};

verus! {

/// Memory statistics of one cgroup.
#[derive(Debug, PartialEq, Eq)]
pub struct MemoryStats {
    pub limit_in_bytes: Option<u64>,
    pub usage_in_bytes: u64,
    pub max_usage_in_bytes: u64,
    pub failcnt: u64,
}

/// CPU statistics of one cgroup.  `shares` is reported in v1 units
/// under both protocols.
#[derive(Debug, PartialEq, Eq)]
pub struct CpuStats {
    pub shares: Option<u64>,
    pub quota: Option<i64>,
    pub period: Option<u64>,
    pub usage_ns: u64,
}

/// The raw contents of the memory control files, each `None` where the
/// file could not be read.  Under v1 the sources are
/// `memory.limit_in_bytes`, `memory.usage_in_bytes`,
/// `memory.max_usage_in_bytes` and `memory.failcnt`; under v2 they are
/// `memory.max` (into `limit`), `memory.current` and `memory.stat`.
pub struct MemoryReads {
    pub limit: Option<String>,
    pub usage: Option<String>,
    pub max_usage: Option<String>,
    pub failcnt: Option<String>,
    pub current: Option<String>,
    pub stat: Option<String>,
}

/// The raw contents of the CPU control files, each `None` where the
/// file could not be read.  Under v1 the sources are `cpu.shares`,
/// `cpu.cfs_quota_us`, `cpu.cfs_period_us` and `cpuacct.usage`; under
/// v2 they are `cpu.weight`, `cpu.max` and `cpu.stat`.
pub struct CpuReads {
    pub shares: Option<String>,
    pub quota: Option<String>,
    pub period: Option<String>,
    pub usage: Option<String>,
    pub weight: Option<String>,
    pub max: Option<String>,
    pub stat: Option<String>,
}

/// The value of a whole control file read as one unsigned number.
pub open spec fn spec_read_u64(o: Option<String>) -> Option<u64> {
    match o {
        Some(s) => parse_u64_spec(trim_spec(s@)),
        None => None,
    }
}

/// The value of a whole control file read as one signed number.
pub open spec fn spec_read_i64(o: Option<String>) -> Option<i64> {
    match o {
        Some(s) => parse_i64_spec(trim_spec(s@)),
        None => None,
    }
}

/// An absent counter reads as zero.
pub open spec fn or_zero(o: Option<u64>) -> u64 {
    match o {
        Some(v) => v,
        None => 0,
    }
}

/// The last well-formed `key value` line wins, as a reader that
/// overwrites its result line by line behaves.
pub open spec fn scan_stat(lines: Seq<Seq<char>>, key: Seq<char>) -> Option<u64>
    decreases lines.len(),
{
    if lines.len() == 0 {
        None
    } else {
        let hit = match split_once_spec(lines.last(), ' ') {
            Some(kv) => if kv.0 == key {
                parse_u64_spec(kv.1)
            } else {
                None
            },
            None => None,
        };
        match hit {
            Some(v) => Some(v),
            None => scan_stat(lines.drop_last(), key),
        }
    }
}

/// Scans `key value` lines for `key`, later lines overriding earlier.
pub fn scan_stat_lines(lines: &Vec<String>, key: &str) -> (r: Option<u64>)
    ensures
        r == scan_stat(lines@.map_values(|l: String| l@), key@),
{
    let ghost ls = lines@.map_values(|l: String| l@);
    let mut cur: Option<u64> = None;
    proof {
        assert(ls.take(0) =~= Seq::<Seq<char>>::empty());
    }
    let mut i: usize = 0;
    while i < lines.len()
        invariant
            i <= lines@.len(),
            ls == lines@.map_values(|l: String| l@),
            cur == scan_stat(ls.take(i as int), key@),
        decreases lines@.len() - i,
    {
        let line = &lines[i];
        match split_once(line.as_str(), ' ') {
            Some((k, v)) => {
                if str_eq(k, key) {
                    match parse_u64(v) {
                        Some(val) => {
                            cur = Some(val);
                        },
                        None => {},
                    }
                }
            },
            None => {},
        }
        proof {
            assert(ls.take(i + 1).drop_last() =~= ls.take(i as int));
            assert(ls.take(i + 1).last() == ls[i as int]);
        }
        i = i + 1;
    }
    proof {
        assert(ls.take(lines@.len() as int) =~= ls);
    }
    cur
}

/// Memory statistics as the v1 files spell them.
pub open spec fn mem_stats_v1_spec(r: MemoryReads) -> MemoryStats {
    MemoryStats {
        limit_in_bytes: spec_read_u64(r.limit),
        usage_in_bytes: or_zero(spec_read_u64(r.usage)),
        max_usage_in_bytes: or_zero(spec_read_u64(r.max_usage)),
        failcnt: or_zero(spec_read_u64(r.failcnt)),
    }
}

/// Memory statistics as the v2 files spell them: a limit of `max`
/// means no limit, the failure count is the `oom_kill` entry of
/// `memory.stat`, and v2 keeps no high-water mark.
pub open spec fn mem_stats_v2_spec(r: MemoryReads) -> MemoryStats {
    MemoryStats {
        limit_in_bytes: match r.limit {
            Some(s) => if trim_spec(s@) == "max"@ {
                None
            } else {
                parse_u64_spec(trim_spec(s@))
            },
            None => None,
        },
        usage_in_bytes: or_zero(spec_read_u64(r.current)),
        max_usage_in_bytes: 0,
        failcnt: match r.stat {
            Some(s) => or_zero(scan_stat(lines_spec(s@), "oom_kill"@)),
            None => 0,
        },
    }
}

fn read_opt_u64(o: &Option<String>) -> (r: Option<u64>)
    ensures
        r == spec_read_u64(*o),
{
    match o {
        Some(s) => parse_u64(trim(s.as_str())),
        None => None,
    }
}

fn read_opt_i64(o: &Option<String>) -> (r: Option<i64>)
    ensures
        r == spec_read_i64(*o),
{
    match o {
        Some(s) => parse_i64(trim(s.as_str())),
        None => None,
    }
}

fn u64_or_zero(o: Option<u64>) -> (r: u64)
    ensures
        r == or_zero(o),
{
    match o {
        Some(v) => v,
        None => 0,
    }
}

/// Reads memory statistics from the v1 control files, best-effort.
pub fn memory_stats_v1(reads: &MemoryReads) -> (st: MemoryStats)
    ensures
        st == mem_stats_v1_spec(*reads),
{
    MemoryStats {
        limit_in_bytes: read_opt_u64(&reads.limit),
        usage_in_bytes: u64_or_zero(read_opt_u64(&reads.usage)),
        max_usage_in_bytes: u64_or_zero(read_opt_u64(&reads.max_usage)),
        failcnt: u64_or_zero(read_opt_u64(&reads.failcnt)),
    }
}

/// Reads memory statistics from the v2 control files, best-effort.
pub fn memory_stats_v2(reads: &MemoryReads) -> (st: MemoryStats)
    ensures
        st == mem_stats_v2_spec(*reads),
{
    let limit: Option<u64> = match &reads.limit {
        Some(s) => {
            let t = trim(s.as_str());
            if str_eq(t, "max") {
                None
            } else {
                parse_u64(t)
            }
        },
        None => None,
    };
    let failcnt: u64 = match &reads.stat {
        Some(s) => {
            let lines = split_lines(s.as_str());
            proof {
                assert(lines@.map_values(|l: String| l@) =~= lines_spec(s@));
            }
            u64_or_zero(scan_stat_lines(&lines, "oom_kill"))
        },
        None => 0,
    };
    MemoryStats {
        limit_in_bytes: limit,
        usage_in_bytes: u64_or_zero(read_opt_u64(&reads.current)),
        max_usage_in_bytes: 0,
        failcnt,
    }
}

/// CPU statistics as the v1 files spell them.
pub open spec fn cpu_stats_v1_spec(r: CpuReads) -> CpuStats {
    CpuStats {
        shares: spec_read_u64(r.shares),
        quota: spec_read_i64(r.quota),
        period: spec_read_u64(r.period),
        usage_ns: or_zero(spec_read_u64(r.usage)),
    }
}

/// The share count reported for a v2 weight reading: converted back to
/// v1 units; a weight too large for the conversion is treated as
/// unparsable and left absent.
pub open spec fn spec_weight_reading(o: Option<String>) -> Option<u64> {
    match spec_read_u64(o) {
        Some(wt) => if wt * 1024 <= u64::MAX {
            Some((wt * 1024 / 100) as u64)
        } else {
            None
        },
        None => None,
    }
}

/// The quota and period read from the v2 `cpu.max` contents:
/// `"<quota> <period>"`, with a quota of `max` meaning no limit.
pub open spec fn spec_cpu_max_reading(o: Option<String>) -> (Option<i64>, Option<u64>) {
    match o {
        Some(s) => {
            let parts = tokens_spec(trim_spec(s@));
            if parts.len() == 2 {
                (
                    if parts[0] == "max"@ {
                        None
                    } else {
                        parse_i64_spec(parts[0])
                    },
                    parse_u64_spec(parts[1]),
                )
            } else {
                (None, None)
            }
        },
        None => (None, None),
    }
}

/// The nanosecond usage read from the v2 `cpu.stat` contents: the
/// `usage_usec` entry times 1000; a value too large to convert is
/// treated as unparsable and reads as zero.
pub open spec fn spec_cpu_usage_reading(o: Option<String>) -> u64 {
    match o {
        Some(s) => match scan_stat(lines_spec(s@), "usage_usec"@) {
            Some(us) => if us * 1000 <= u64::MAX {
                (us * 1000) as u64
            } else {
                0
            },
            None => 0,
        },
        None => 0,
    }
}

/// CPU statistics as the v2 files spell them.
pub open spec fn cpu_stats_v2_spec(r: CpuReads) -> CpuStats {
    CpuStats {
        shares: spec_weight_reading(r.weight),
        quota: spec_cpu_max_reading(r.max).0,
        period: spec_cpu_max_reading(r.max).1,
        usage_ns: spec_cpu_usage_reading(r.stat),
    }
}

/// Reads CPU statistics from the v1 control files, best-effort.
pub fn cpu_stats_v1(reads: &CpuReads) -> (st: CpuStats)
    ensures
        st == cpu_stats_v1_spec(*reads),
{
    CpuStats {
        shares: read_opt_u64(&reads.shares),
        quota: read_opt_i64(&reads.quota),
        period: read_opt_u64(&reads.period),
        usage_ns: u64_or_zero(read_opt_u64(&reads.usage)),
    }
}

/// Reads CPU statistics from the v2 control files, best-effort.
pub fn cpu_stats_v2(reads: &CpuReads) -> (st: CpuStats)
    ensures
        st == cpu_stats_v2_spec(*reads),
{
    let shares: Option<u64> = match read_opt_u64(&reads.weight) {
        Some(wt) => {
            if wt <= u64::MAX / 1024 {
                Some(crate::convert::weight_to_shares(wt))
            } else {
                proof {
                    vstd::arithmetic::div_mod::lemma_fundamental_div_mod(u64::MAX as int, 1024);
                }
                None
            }
        },
        None => None,
    };
    let (quota, period): (Option<i64>, Option<u64>) = match &reads.max {
        Some(s) => {
            let parts = split_tokens(trim(s.as_str()));
            if parts.len() == 2 {
                let q: Option<i64> = if str_eq(parts[0].as_str(), "max") {
                    None
                } else {
                    parse_i64(parts[0].as_str())
                };
                let p = parse_u64(parts[1].as_str());
                (q, p)
            } else {
                (None, None)
            }
        },
        None => (None, None),
    };
    let usage_ns: u64 = match &reads.stat {
        Some(s) => {
            let lines = split_lines(s.as_str());
            proof {
                assert(lines@.map_values(|l: String| l@) =~= lines_spec(s@));
            }
            match scan_stat_lines(&lines, "usage_usec") {
                Some(us) => {
                    if us <= u64::MAX / 1000 {
                        proof {
                            vstd::arithmetic::div_mod::lemma_fundamental_div_mod(
                                u64::MAX as int,
                                1000,
                            );
                        }
                        us * 1000
                    } else {
                        proof {
                            vstd::arithmetic::div_mod::lemma_fundamental_div_mod(
                                u64::MAX as int,
                                1000,
                            );
                        }
                        0
                    }
                },
                None => 0,
            }
        },
        None => 0,
    };
    CpuStats { shares, quota, period, usage_ns }
}

} // verus!
