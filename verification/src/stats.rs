//! Host statistics data model and the parsers for the kernel's counter text:
//! per-CPU time buckets, memory counters, and the assembled snapshot served by
//! the cache.
//!
//! All percentage figures are carried as integers in hundredths of a
//! percentage point (0 ..= 10000), so that the arithmetic can be specified and
//! checked exactly.

use crate::scan::{field_num, line_len, num_of, token, tok_len, tok_start};
use crate::scan::{find_line_end, find_tok_end, parse_u64_digits, token_range};
use vstd::prelude::*;
use vstd::string::{StrSliceExecFns, StringExecFns};

verus! {

/// `a - b`, saturating at 0.
pub open spec fn sat_sub64(a: u64, b: u64) -> u64 {
    if a >= b {
        (a - b) as u64
    } else {
        0
    }
}

/// `a + b` modulo 2^64, the sum the machine computes on wrap-around.
pub open spec fn wrap_add64(a: u64, b: u64) -> u64 {
    ((a + b) % 0x1_0000_0000_0000_0000) as u64
}

/// Runtime counterpart of [`wrap_add64`].
pub fn wadd(a: u64, b: u64) -> (r: u64)
    ensures
        r == wrap_add64(a, b),
{
    let s: u128 = a as u128 + b as u128;
    (s % 0x1_0000_0000_0000_0000u128) as u64
}

/// Time buckets of one CPU (or of the aggregate line), in kernel ticks.
/// Counters are monotonically non-decreasing across reads on a healthy host.
#[derive(Debug, Clone, Copy, PartialEq, Eq, Structural)]
pub struct CpuTimes {
    pub user: u64,
    pub nice: u64,
    pub system: u64,
    pub idle: u64,
    pub iowait: u64,
    pub irq: u64,
    pub softirq: u64,
    /// Sum of the seven buckets above (modulo 2^64).
    pub total: u64,
}

impl Default for CpuTimes {
    fn default() -> (t: Self)
        ensures
            t == (CpuTimes {
                user: 0,
                nice: 0,
                system: 0,
                idle: 0,
                iowait: 0,
                irq: 0,
                softirq: 0,
                total: 0,
            }),
    {
        CpuTimes { user: 0, nice: 0, system: 0, idle: 0, iowait: 0, irq: 0, softirq: 0, total: 0 }
    }
}

/// Share of elapsed CPU time spent in each bucket between two samples, in
/// hundredths of a percentage point (0 ..= 10000).
#[derive(Debug, Clone, Copy, PartialEq, Eq, Structural)]
pub struct CpuUsageBreakdown {
    pub user_centipercent: u32,
    pub nice_centipercent: u32,
    pub system_centipercent: u32,
    pub total_centipercent: u32,
}

impl CpuUsageBreakdown {
    /// Every share lies within 0% ..= 100%.
    pub open spec fn wf(self) -> bool {
        self.user_centipercent <= 10000 && self.nice_centipercent <= 10000
            && self.system_centipercent <= 10000 && self.total_centipercent <= 10000
    }
}

/// The all-zero breakdown: no usage derivable.
pub open spec fn zero_breakdown() -> CpuUsageBreakdown {
    CpuUsageBreakdown {
        user_centipercent: 0,
        nice_centipercent: 0,
        system_centipercent: 0,
        total_centipercent: 0,
    }
}

impl Default for CpuUsageBreakdown {
    fn default() -> (b: Self)
        ensures
            b == zero_breakdown(),
    {
        CpuUsageBreakdown {
            user_centipercent: 0,
            nice_centipercent: 0,
            system_centipercent: 0,
            total_centipercent: 0,
        }
    }
}

/// Usage of the whole machine and of each core for one collection cycle.
#[derive(Debug)]
pub struct CpuStats {
    pub overall: CpuUsageBreakdown,
    pub per_core: Vec<CpuUsageBreakdown>,
    pub core_count: usize,
}

/// Field-wise equality of two [`CpuStats`] values.
pub open spec fn cpu_stats_equiv(a: CpuStats, b: CpuStats) -> bool {
    a.overall == b.overall && a.per_core@ == b.per_core@ && a.core_count == b.core_count
}

impl CpuStats {
    /// The core count matches the per-core list and every share is in range.
    pub open spec fn wf(self) -> bool {
        self.overall.wf() && self.core_count == self.per_core@.len() && forall|i: int|
            0 <= i < self.per_core@.len() ==> #[trigger] self.per_core@[i].wf()
    }
}

impl Clone for CpuStats {
    fn clone(&self) -> (r: Self)
        ensures
            cpu_stats_equiv(r, *self),
    {
        let mut cores: Vec<CpuUsageBreakdown> = Vec::new();
        let mut i: usize = 0;
        while i < self.per_core.len()
            invariant
                0 <= i <= self.per_core@.len(),
                cores@ == self.per_core@.take(i as int),
            decreases self.per_core@.len() - i,
        {
            cores.push(self.per_core[i]);
            assert(self.per_core@.take(i + 1) =~= self.per_core@.take(i as int).push(
                self.per_core@[i as int],
            ));
            i = i + 1;
        }
        assert(self.per_core@.take(i as int) =~= self.per_core@);
        CpuStats { overall: self.overall, per_core: cores, core_count: self.core_count }
    }
}

/// Memory counters in bytes, as read from the host.
#[derive(Debug, Clone, Copy)]
pub struct MemoryInfo {
    pub total: u64,
    pub used: u64,
    pub available: u64,
    pub cached: u64,
    pub free: u64,
}

impl MemoryInfo {
    /// Used memory is what is not available, saturating at 0.
    pub open spec fn wf(self) -> bool {
        self.used == sat_sub64(self.total, self.available)
    }
}

/// One immutable, fully-assembled set of host statistics.
#[derive(Debug)]
pub struct SystemStats {
    pub hostname: String,
    /// Aggregate CPU usage, equal to the overall `total_centipercent`.
    pub cpu_usage_centipercent: u32,
    pub cpu_stats: CpuStats,
    pub memory_total: u64,
    pub memory_used: u64,
    pub memory_available: u64,
    pub memory_cached: u64,
    pub memory_free: u64,
    /// Capture time, in milliseconds of wall-clock time since the Unix epoch.
    pub timestamp: u64,
}

/// Field-wise equality of two snapshots (string and list fields by contents).
pub open spec fn stats_equiv(a: SystemStats, b: SystemStats) -> bool {
    a.hostname@ == b.hostname@ && a.cpu_usage_centipercent == b.cpu_usage_centipercent
        && cpu_stats_equiv(a.cpu_stats, b.cpu_stats) && a.memory_total == b.memory_total
        && a.memory_used == b.memory_used && a.memory_available == b.memory_available
        && a.memory_cached == b.memory_cached && a.memory_free == b.memory_free && a.timestamp
        == b.timestamp
}

impl SystemStats {
    /// Internal consistency of one snapshot: every figure agrees with the
    /// others, so a reader can never see a half-assembled mixture.
    pub open spec fn wf(self) -> bool {
        self.cpu_stats.wf() && self.cpu_usage_centipercent
            == self.cpu_stats.overall.total_centipercent && self.memory_used == sat_sub64(
            self.memory_total,
            self.memory_available,
        )
    }
}

/// A snapshot equal field-by-field to a consistent one is itself consistent.
pub proof fn lemma_equiv_preserves_wf(a: SystemStats, b: SystemStats)
    requires
        stats_equiv(a, b),
        b.wf(),
    ensures
        a.wf(),
{
}

impl Clone for SystemStats {
    fn clone(&self) -> (r: Self)
        ensures
            stats_equiv(r, *self),
    {
        SystemStats {
            hostname: self.hostname.clone(),
            cpu_usage_centipercent: self.cpu_usage_centipercent,
            cpu_stats: self.cpu_stats.clone(),
            memory_total: self.memory_total,
            memory_used: self.memory_used,
            memory_available: self.memory_available,
            memory_cached: self.memory_cached,
            memory_free: self.memory_free,
            timestamp: self.timestamp,
        }
    }
}

impl Default for SystemStats {
    fn default() -> (s: Self)
        ensures
            s.hostname@ == "未知主机"@,
            s.cpu_usage_centipercent == 0,
            s.cpu_stats.overall == zero_breakdown(),
            s.cpu_stats.per_core@ == Seq::<CpuUsageBreakdown>::empty(),
            s.cpu_stats.core_count == 0,
            s.memory_total == 0,
            s.memory_used == 0,
            s.memory_available == 0,
            s.memory_cached == 0,
            s.memory_free == 0,
            s.timestamp == 0,
            s.wf(),
    {
        SystemStats {
            hostname: "未知主机".to_owned(),
            cpu_usage_centipercent: 0,
            cpu_stats: CpuStats {
                overall: CpuUsageBreakdown::default(),
                per_core: Vec::new(),
                core_count: 0,
            },
            memory_total: 0,
            memory_used: 0,
            memory_available: 0,
            memory_cached: 0,
            memory_free: 0,
            timestamp: 0,
        }
    }
}

/// Why a collection cycle failed.
#[derive(Debug, Clone, PartialEq, Eq)]
pub enum StatsError {
    /// The counter source could not be read; carries the I/O error's text.
    IoError(String),
    /// The expected record was missing or malformed.
    ParseError(String),
    /// No counter source exists on this host.
    UnsupportedPlatform,
}

impl StatsError {
    /// Human-readable description of the error.
    pub open spec fn spec_message(self) -> Seq<char> {
        match self {
            StatsError::IoError(m) => "IO 错误: "@ + m@,
            StatsError::ParseError(m) => "解析错误: "@ + m@,
            StatsError::UnsupportedPlatform => "不支持的平台"@,
        }
    }

    pub fn message(&self) -> (r: String)
        ensures
            r@ == self.spec_message(),
    {
        match self {
            StatsError::IoError(m) => "IO 错误: ".to_owned().concat(m.as_str()),
            StatsError::ParseError(m) => "解析错误: ".to_owned().concat(m.as_str()),
            StatsError::UnsupportedPlatform => "不支持的平台".to_owned(),
        }
    }
}

/// The time buckets written on one `cpu` line: fields 1 ..= 7 after the label,
/// each defaulting to 0 when missing or malformed, and their running sum.
pub open spec fn line_times(line: Seq<u8>) -> CpuTimes {
    let user = field_num(line, 1);
    let nice = field_num(line, 2);
    let system = field_num(line, 3);
    let idle = field_num(line, 4);
    let iowait = field_num(line, 5);
    let irq = field_num(line, 6);
    let softirq = field_num(line, 7);
    CpuTimes {
        user,
        nice,
        system,
        idle,
        iowait,
        irq,
        softirq,
        total: wrap_add64(
            wrap_add64(
                wrap_add64(wrap_add64(wrap_add64(wrap_add64(user, nice), system), idle), iowait),
                irq,
            ),
            softirq,
        ),
    }
}

/// Parse the numeric fields of one counter line.
fn parse_line_times(line: &[u8]) -> (t: CpuTimes)
    ensures
        t == line_times(line@),
{
    let (s1, e1) = token_range(line, 1);
    let user = parse_u64_digits(line, s1, e1);
    let (s2, e2) = token_range(line, 2);
    let nice = parse_u64_digits(line, s2, e2);
    let (s3, e3) = token_range(line, 3);
    let system = parse_u64_digits(line, s3, e3);
    let (s4, e4) = token_range(line, 4);
    let idle = parse_u64_digits(line, s4, e4);
    let (s5, e5) = token_range(line, 5);
    let iowait = parse_u64_digits(line, s5, e5);
    let (s6, e6) = token_range(line, 6);
    let irq = parse_u64_digits(line, s6, e6);
    let (s7, e7) = token_range(line, 7);
    let softirq = parse_u64_digits(line, s7, e7);
    let total = wadd(wadd(wadd(wadd(wadd(wadd(user, nice), system), idle), iowait), irq), softirq);
    CpuTimes { user, nice, system, idle, iowait, irq, softirq, total }
}

/// Parse the aggregate CPU time buckets from the first line of the counter
/// text. The expected leading record is the line labelled exactly `cpu`;
/// an empty text or any other first line is rejected. Numeric fields of the
/// aggregate line default to 0 when missing or malformed.
pub fn parse_cpu_times(content: &[u8]) -> (r: Result<CpuTimes, StatsError>)
    ensures
        ({
            let first = content@.subrange(0, line_len(content@, 0) as int);
            &&& (r is Ok <==> content@.len() > 0 && label_is_cpu(first))
            &&& (r matches Ok(t) ==> t == line_times(first))
            &&& (r matches Err(e) ==> (e matches StatsError::ParseError(m) && m@
                == "无法解析 /proc/stat"@))
        }),
{
    let ghost first = content@.subrange(0, line_len(content@, 0) as int);
    if content.len() == 0 {
        proof {
            assert(first =~= Seq::<u8>::empty());
            assert(token(first, 0).len() == 0);
        }
        return Err(StatsError::ParseError("无法解析 /proc/stat".to_owned()));
    }
    let e = find_line_end(content, 0);
    let first_line = vstd::slice::slice_subrange(content, 0, e);
    assert(first_line@ == first);
    let (st, en) = token_range(first_line, 0);
    let label: Vec<u8> = vec![99u8, 112u8, 117u8];
    proof {
        assert(label@ =~= seq![99u8, 112u8, 117u8]);
        assert(token(first, 0) == first.subrange(st as int, en as int));
    }
    if crate::scan::range_eq(first_line, st, en, label.as_slice()) {
        Ok(parse_line_times(first_line))
    } else {
        Err(StatsError::ParseError("无法解析 /proc/stat".to_owned()))
    }
}

/// Does the raw line begin with the three bytes `cpu`?
pub open spec fn starts_cpu(line: Seq<u8>) -> bool {
    line.len() >= 3 && line[0] == 99 && line[1] == 112 && line[2] == 117
}

/// Is the line's first token exactly `cpu` (the aggregate line), as opposed
/// to a per-core label such as `cpu0`?
pub open spec fn label_is_cpu(line: Seq<u8>) -> bool {
    token(line, 0) == seq![99u8, 112u8, 117u8]
}

/// Position just past the line that starts at `pos`, capped at the end.
pub open spec fn next_line_pos(s: Seq<u8>, pos: int) -> int {
    if pos + line_len(s, pos) + 1 <= s.len() {
        pos + line_len(s, pos) + 1
    } else {
        s.len() as int
    }
}

/// Walk the counter text line by line from `pos`, keeping the last `cpu`
/// aggregate line seen and collecting the per-core lines in order.
pub open spec fn scan_cpu_lines(
    s: Seq<u8>,
    pos: int,
    overall: Option<CpuTimes>,
    cores: Seq<CpuTimes>,
) -> (Option<CpuTimes>, Seq<CpuTimes>)
    decreases s.len() - pos,
{
    if pos < 0 || pos >= s.len() {
        (overall, cores)
    } else {
        let line = s.subrange(pos, pos + line_len(s, pos));
        let next = next_line_pos(s, pos);
        if starts_cpu(line) {
            let t = line_times(line);
            if label_is_cpu(line) {
                scan_cpu_lines(s, next, Some(t), cores)
            } else {
                scan_cpu_lines(s, next, overall, cores.push(t))
            }
        } else {
            scan_cpu_lines(s, next, overall, cores)
        }
    }
}

/// What the whole counter text denotes: the aggregate sample, if any line
/// labelled `cpu` occurs, and the per-core samples in file order.
pub open spec fn cpu_lines_model(s: Seq<u8>) -> (Option<CpuTimes>, Seq<CpuTimes>) {
    scan_cpu_lines(s, 0, None::<CpuTimes>, Seq::<CpuTimes>::empty())
}

/// Parse every CPU counter line: the aggregate `cpu` line and one line per
/// core. Returns an error exactly when no aggregate line is present.
pub fn parse_all_cpu_times(content: &[u8]) -> (r: Result<(CpuTimes, Vec<CpuTimes>), StatsError>)
    ensures
        cpu_lines_model(content@).0 matches Some(t) ==> (r matches Ok(p) && p.0 == t && p.1@
            == cpu_lines_model(content@).1),
        cpu_lines_model(content@).0 is None ==> (r matches Err(e) && e
            matches StatsError::ParseError(m) && m@ == "无法找到 CPU 统计信息"@),
{
    let ghost s = content@;
    let mut overall: Option<CpuTimes> = None;
    let mut cores: Vec<CpuTimes> = Vec::new();
    let mut pos: usize = 0;
    while pos < content.len()
        invariant
            pos <= s.len(),
            s == content@,
            cpu_lines_model(s) == scan_cpu_lines(s, pos as int, overall, cores@),
        decreases s.len() - pos,
    {
        let e = find_line_end(content, pos);
        let line = vstd::slice::slice_subrange(content, pos, e);
        assert(line@ == s.subrange(pos as int, pos + line_len(s, pos as int)));
        let ghost old_overall = overall;
        let ghost old_cores = cores@;
        let mut is_cpu_prefixed = false;
        if line.len() >= 3 {
            let b0 = *vstd::slice::slice_index_get(line, 0);
            let b1 = *vstd::slice::slice_index_get(line, 1);
            let b2 = *vstd::slice::slice_index_get(line, 2);
            is_cpu_prefixed = b0 == 99 && b1 == 112 && b2 == 117;
        }
        assert(is_cpu_prefixed == starts_cpu(line@));
        if is_cpu_prefixed {
            let t = parse_line_times(line);
            let label_end = find_tok_end(line, 0);
            proof {
                assert(!crate::scan::is_ws(line@[0]));
                assert(crate::scan::ws_len(line@, 0) == 0);
                assert(tok_start(line@, 0, 0) == 0);
                assert(token(line@, 0) == line@.subrange(0, tok_len(line@, 0) as int));
            }
            if label_end == 3 {
                proof {
                    assert(token(line@, 0) =~= seq![99u8, 112u8, 117u8]);
                }
                overall = Some(t);
            } else {
                proof {
                    assert(token(line@, 0).len() == tok_len(line@, 0));
                    assert(token(line@, 0) != seq![99u8, 112u8, 117u8]);
                }
                cores.push(t);
            }
        }
        proof {
            assert(scan_cpu_lines(s, pos as int, old_overall, old_cores) == scan_cpu_lines(
                s,
                next_line_pos(s, pos as int),
                overall,
                cores@,
            ));
        }
        if e < content.len() {
            pos = e + 1;
        } else {
            pos = content.len();
        }
        assert(cpu_lines_model(s) == scan_cpu_lines(s, pos as int, overall, cores@));
    }
    assert(cpu_lines_model(s) == (overall, cores@));
    match overall {
        Some(t) => Ok((t, cores)),
        None => Err(StatsError::ParseError("无法找到 CPU 统计信息".to_owned())),
    }
}

/// The bytes of the key `MemTotal:`.
pub open spec fn key_mem_total() -> Seq<u8> {
    seq![77u8, 101u8, 109u8, 84u8, 111u8, 116u8, 97u8, 108u8, 58u8]
}

/// The bytes of the key `MemAvailable:`.
pub open spec fn key_mem_available() -> Seq<u8> {
    seq![77u8, 101u8, 109u8, 65u8, 118u8, 97u8, 105u8, 108u8, 97u8, 98u8, 108u8, 101u8, 58u8]
}

/// The bytes of the key `Cached:`.
pub open spec fn key_cached() -> Seq<u8> {
    seq![67u8, 97u8, 99u8, 104u8, 101u8, 100u8, 58u8]
}

/// The bytes of the key `MemFree:`.
pub open spec fn key_mem_free() -> Seq<u8> {
    seq![77u8, 101u8, 109u8, 70u8, 114u8, 101u8, 101u8, 58u8]
}

/// A memory figure is given in kibibytes; scale it to bytes, saturating.
pub open spec fn kib_to_bytes(v: u64) -> u64 {
    if v * 1024 > u64::MAX {
        u64::MAX
    } else {
        (v * 1024) as u64
    }
}

/// Effect of one memory counter line on the four figures gathered so far:
/// a line needs a key token and a value token; known keys set their figure,
/// unknown keys are ignored.
pub open spec fn mem_line_update(line: Seq<u8>, t: u64, a: u64, c: u64, f: u64) -> (
    u64,
    u64,
    u64,
    u64,
) {
    if token(line, 0).len() > 0 && token(line, 1).len() > 0 {
        let v = kib_to_bytes(num_of(token(line, 1)));
        if token(line, 0) == key_mem_total() {
            (v, a, c, f)
        } else if token(line, 0) == key_mem_available() {
            (t, v, c, f)
        } else if token(line, 0) == key_cached() {
            (t, a, v, f)
        } else if token(line, 0) == key_mem_free() {
            (t, a, c, v)
        } else {
            (t, a, c, f)
        }
    } else {
        (t, a, c, f)
    }
}

/// Walk the memory counter text line by line, gathering total, available,
/// cached and free, each defaulting to 0 when its key never occurs.
pub open spec fn scan_mem_lines(s: Seq<u8>, pos: int, t: u64, a: u64, c: u64, f: u64) -> (
    u64,
    u64,
    u64,
    u64,
)
    decreases s.len() - pos,
{
    if pos < 0 || pos >= s.len() {
        (t, a, c, f)
    } else {
        let line = s.subrange(pos, pos + line_len(s, pos));
        let next = next_line_pos(s, pos);
        let step = mem_line_update(line, t, a, c, f);
        scan_mem_lines(s, next, step.0, step.1, step.2, step.3)
    }
}

/// What the memory counter text denotes, with used = total - available.
pub open spec fn memory_model(s: Seq<u8>) -> MemoryInfo {
    let r = scan_mem_lines(s, 0, 0, 0, 0, 0);
    MemoryInfo {
        total: r.0,
        used: sat_sub64(r.0, r.1),
        available: r.1,
        cached: r.2,
        free: r.3,
    }
}

/// Scale a kibibyte figure to bytes, saturating at `u64::MAX`.
fn kib_to_bytes_exec(v: u64) -> (r: u64)
    ensures
        r == kib_to_bytes(v),
{
    if v > u64::MAX / 1024 {
        u64::MAX
    } else {
        v * 1024
    }
}

/// Parse the host's memory counters. Whitespace-separated `Key: value`
/// lines; the four known keys are taken in kibibytes, everything else is
/// ignored; a missing or malformed value counts as 0.
pub fn parse_memory_info(content: &[u8]) -> (m: MemoryInfo)
    ensures
        m == memory_model(content@),
        m.wf(),
{
    let ghost s = content@;
    let key_total: Vec<u8> = vec![77u8, 101u8, 109u8, 84u8, 111u8, 116u8, 97u8, 108u8, 58u8];
    let key_available: Vec<u8> = vec![
        77u8,
        101u8,
        109u8,
        65u8,
        118u8,
        97u8,
        105u8,
        108u8,
        97u8,
        98u8,
        108u8,
        101u8,
        58u8,
    ];
    let key_cache: Vec<u8> = vec![67u8, 97u8, 99u8, 104u8, 101u8, 100u8, 58u8];
    let key_free: Vec<u8> = vec![77u8, 101u8, 109u8, 70u8, 114u8, 101u8, 101u8, 58u8];
    proof {
        assert(key_total@ =~= key_mem_total());
        assert(key_available@ =~= key_mem_available());
        assert(key_cache@ =~= key_cached());
        assert(key_free@ =~= key_mem_free());
    }
    let mut total: u64 = 0;
    let mut available: u64 = 0;
    let mut cached: u64 = 0;
    let mut free: u64 = 0;
    let mut pos: usize = 0;
    while pos < content.len()
        invariant
            pos <= s.len(),
            s == content@,
            key_total@ == key_mem_total(),
            key_available@ == key_mem_available(),
            key_cache@ == key_cached(),
            key_free@ == key_mem_free(),
            scan_mem_lines(s, 0, 0, 0, 0, 0) == scan_mem_lines(
                s,
                pos as int,
                total,
                available,
                cached,
                free,
            ),
        decreases s.len() - pos,
    {
        let e = find_line_end(content, pos);
        let line = vstd::slice::slice_subrange(content, pos, e);
        assert(line@ == s.subrange(pos as int, pos + line_len(s, pos as int)));
        let ghost old4 = (total, available, cached, free);
        let (k0, k1) = token_range(line, 0);
        let (v0, v1) = token_range(line, 1);
        if k1 > k0 && v1 > v0 {
            assert(token(line@, 0).len() > 0);
            assert(token(line@, 1).len() > 0);
            let v = kib_to_bytes_exec(parse_u64_digits(line, v0, v1));
            if crate::scan::range_eq(line, k0, k1, key_total.as_slice()) {
                total = v;
            } else if crate::scan::range_eq(line, k0, k1, key_available.as_slice()) {
                available = v;
            } else if crate::scan::range_eq(line, k0, k1, key_cache.as_slice()) {
                cached = v;
            } else if crate::scan::range_eq(line, k0, k1, key_free.as_slice()) {
                free = v;
            }
        } else {
            assert(token(line@, 0).len() == 0 || token(line@, 1).len() == 0);
        }
        proof {
            assert((total, available, cached, free) == mem_line_update(
                line@,
                old4.0,
                old4.1,
                old4.2,
                old4.3,
            ));
            assert(scan_mem_lines(s, pos as int, old4.0, old4.1, old4.2, old4.3)
                == scan_mem_lines(
                s,
                next_line_pos(s, pos as int),
                total,
                available,
                cached,
                free,
            ));
        }
        if e < content.len() {
            pos = e + 1;
        } else {
            pos = content.len();
        }
    }
    let used = if total >= available {
        total - available
    } else {
        0
    };
    MemoryInfo { total, used, available, cached, free }
}

/// Characters stripped from the ends of a hostname reading: ASCII space,
/// tab, line feed, carriage return.
pub open spec fn is_ws_char(c: char) -> bool {
    c == ' ' || c == '\t' || c == '\n' || c == '\r'
}

/// Number of whitespace characters running from `pos` onwards.
pub open spec fn lead_ws_chars(t: Seq<char>, pos: int) -> nat
    decreases t.len() - pos,
{
    if pos < 0 || pos >= t.len() || !is_ws_char(t[pos]) {
        0
    } else {
        1 + lead_ws_chars(t, pos + 1)
    }
}

/// Number of whitespace characters running backwards from `pos` (exclusive).
pub open spec fn trail_ws_chars(t: Seq<char>, pos: int) -> nat
    decreases pos,
{
    if pos <= 0 || pos > t.len() || !is_ws_char(t[pos - 1]) {
        0
    } else {
        1 + trail_ws_chars(t, pos - 1)
    }
}

/// `t` without its leading and trailing whitespace characters.
pub open spec fn trimmed(t: Seq<char>) -> Seq<char> {
    let a = lead_ws_chars(t, 0) as int;
    if a == t.len() {
        Seq::empty()
    } else {
        t.subrange(a, t.len() - trail_ws_chars(t, t.len() as int))
    }
}

/// Runtime counterpart of [`is_ws_char`].
fn is_ws_char_exec(c: char) -> (r: bool)
    ensures
        r == is_ws_char(c),
{
    c == ' ' || c == '\t' || c == '\n' || c == '\r'
}

/// Strip leading and trailing whitespace from a hostname reading.
pub fn trim_hostname(s: &str) -> (r: String)
    ensures
        r@ == trimmed(s@),
{
    let ghost t = s@;
    let n = s.unicode_len();
    let mut a: usize = 0;
    while a < n && is_ws_char_exec(s.get_char(a))
        invariant
            0 <= a <= n,
            n == t.len(),
            t == s@,
            lead_ws_chars(t, 0) == a + lead_ws_chars(t, a as int),
        decreases n - a,
    {
        assert(lead_ws_chars(t, a as int) == 1 + lead_ws_chars(t, a + 1));
        a = a + 1;
    }
    assert(lead_ws_chars(t, a as int) == 0);
    if a == n {
        assert(trimmed(t) =~= Seq::<char>::empty());
        return String::new();
    }
    let mut b: usize = n;
    while b > a && is_ws_char_exec(s.get_char(b - 1))
        invariant
            a < b <= n,
            n == t.len(),
            t == s@,
            !is_ws_char(t[a as int]),
            trail_ws_chars(t, n as int) == (n - b) + trail_ws_chars(t, b as int),
        decreases b,
    {
        assert(trail_ws_chars(t, b as int) == 1 + trail_ws_chars(t, b - 1));
        b = b - 1;
    }
    assert(trail_ws_chars(t, b as int) == 0);
    let core = s.substring_char(a, b);
    assert(trimmed(t) == t.subrange(a as int, b as int));
    core.to_owned()
}

/// Assemble the immutable snapshot of one successful collection cycle.
pub fn build_snapshot(
    hostname: String,
    cpu_stats: CpuStats,
    memory: MemoryInfo,
    captured_at: u64,
) -> (s: SystemStats)
    requires
        cpu_stats.wf(),
        memory.wf(),
    ensures
        s.hostname == hostname,
        s.cpu_stats == cpu_stats,
        s.cpu_usage_centipercent == cpu_stats.overall.total_centipercent,
        s.memory_total == memory.total,
        s.memory_used == memory.used,
        s.memory_available == memory.available,
        s.memory_cached == memory.cached,
        s.memory_free == memory.free,
        s.timestamp == captured_at,
        s.wf(),
{
    let cpu_usage_centipercent = cpu_stats.overall.total_centipercent;
    SystemStats {
        hostname,
        cpu_usage_centipercent,
        cpu_stats,
        memory_total: memory.total,
        memory_used: memory.used,
        memory_available: memory.available,
        memory_cached: memory.cached,
        memory_free: memory.free,
        timestamp: captured_at,
    }
}

} // verus!
