use hoststatus::stats::{
    parse_all_cpu_times, parse_cpu_times, parse_memory_info, trim_hostname, CpuTimes,
    CpuUsageBreakdown, StatsError, SystemStats,
};

#[test]
fn test_cpu_times_default() {
    let times = CpuTimes::default();
    assert_eq!(times.user, 0);
    assert_eq!(times.nice, 0);
    assert_eq!(times.system, 0);
    assert_eq!(times.idle, 0);
    assert_eq!(times.total, 0);
}

#[test]
fn test_cpu_times_new_fields() {
    let times = CpuTimes::default();
    assert_eq!(times.user, 0);
    assert_eq!(times.nice, 0);
    assert_eq!(times.system, 0);
    assert_eq!(times.idle, 0);
    assert_eq!(times.iowait, 0);
    assert_eq!(times.irq, 0);
    assert_eq!(times.softirq, 0);
    assert_eq!(times.total, 0);
}

#[test]
fn test_parse_cpu_times_valid() {
    let content = "cpu  1234 567 890 1234 0 0 0 0 0 0";
    let times = parse_cpu_times(content.as_bytes()).unwrap();
    assert_eq!(times.user, 1234);
    assert_eq!(times.nice, 567);
    assert_eq!(times.system, 890);
    assert_eq!(times.idle, 1234);
    assert_eq!(times.total, 1234 + 567 + 890 + 1234);
}

#[test]
fn test_parse_cpu_times_invalid() {
    // The expected leading record (the aggregate `cpu` line) is absent.
    let content = "invalid content";
    let result = parse_cpu_times(content.as_bytes());
    assert!(matches!(result.unwrap_err(), StatsError::ParseError(_)));
}

#[test]
fn test_parse_cpu_times_empty() {
    let content = "";
    assert!(parse_cpu_times(content.as_bytes()).is_err());
}

#[test]
fn test_parse_all_cpu_times_valid() {
    let content = "cpu  1234 567 890 1234 100 200 300 0 0 0\n\
                    cpu0 617 283 445 617 50 100 150\n\
                    cpu1 617 284 445 617 50 100 150";
    let (overall, per_core) = parse_all_cpu_times(content.as_bytes()).unwrap();

    assert_eq!(overall.user, 1234);
    assert_eq!(overall.nice, 567);
    assert_eq!(overall.system, 890);
    assert_eq!(overall.idle, 1234);
    assert_eq!(overall.iowait, 100);
    assert_eq!(overall.irq, 200);
    assert_eq!(overall.softirq, 300);

    assert_eq!(per_core.len(), 2);
    assert_eq!(per_core[0].user, 617);
    assert_eq!(per_core[1].user, 617);
}

#[test]
fn test_parse_all_cpu_times_no_aggregate() {
    let content = "intr 1 2 3\nctxt 99";
    let result = parse_all_cpu_times(content.as_bytes());
    assert!(result.is_err());
    assert!(matches!(result.unwrap_err(), StatsError::ParseError(_)));
}

#[test]
fn test_parse_all_cpu_times_later_aggregate_wins() {
    let content = "cpu 1 1 1 1 0 0 0\ncpu 2 2 2 2 0 0 0";
    let (overall, per_core) = parse_all_cpu_times(content.as_bytes()).unwrap();
    assert_eq!(overall.user, 2);
    assert_eq!(per_core.len(), 0);
}

#[test]
fn test_parse_cpu_times_overflowing_field_defaults_to_zero() {
    // One past u64::MAX: the field defaults to 0, its neighbours still parse.
    let content = "cpu 18446744073709551616 7 18446744073709551615 0";
    let times = parse_cpu_times(content.as_bytes()).unwrap();
    assert_eq!(times.user, 0);
    assert_eq!(times.nice, 7);
    assert_eq!(times.system, u64::MAX);
}

#[test]
fn test_system_stats_default() {
    let stats = SystemStats::default();
    assert_eq!(stats.hostname, "未知主机");
    assert_eq!(stats.cpu_usage_centipercent, 0);
    assert_eq!(stats.memory_total, 0);
    assert_eq!(stats.memory_used, 0);
    assert_eq!(stats.memory_available, 0);
    assert_eq!(stats.memory_cached, 0);
    assert_eq!(stats.memory_free, 0);
}

#[test]
fn test_cpu_usage_breakdown_default() {
    let breakdown = CpuUsageBreakdown::default();
    assert_eq!(breakdown.user_centipercent, 0);
    assert_eq!(breakdown.nice_centipercent, 0);
    assert_eq!(breakdown.system_centipercent, 0);
    assert_eq!(breakdown.total_centipercent, 0);
}

#[test]
fn test_stats_error_display() {
    let io_error = StatsError::IoError("test error".to_string());
    assert_eq!(io_error.message(), "IO 错误: test error");

    let parse_error = StatsError::ParseError("test parse error".to_string());
    assert_eq!(parse_error.message(), "解析错误: test parse error");

    let unsupported_error = StatsError::UnsupportedPlatform;
    assert_eq!(unsupported_error.message(), "不支持的平台");
}

#[test]
fn test_parser_error_messages() {
    let e = parse_cpu_times(b"" as &[u8]).unwrap_err();
    assert_eq!(e.message(), "解析错误: 无法解析 /proc/stat");
    let e2 = parse_all_cpu_times(b"x" as &[u8]).unwrap_err();
    assert_eq!(e2.message(), "解析错误: 无法找到 CPU 统计信息");
}

#[test]
fn test_parse_memory_info_basic() {
    let content = "MemTotal:       16384 kB\n\
                   MemFree:        4096 kB\n\
                   MemAvailable:   8192 kB\n\
                   Buffers:        512 kB\n\
                   Cached:         2048 kB\n";
    let info = parse_memory_info(content.as_bytes());
    assert_eq!(info.total, 16384 * 1024);
    assert_eq!(info.free, 4096 * 1024);
    assert_eq!(info.available, 8192 * 1024);
    assert_eq!(info.cached, 2048 * 1024);
    assert_eq!(info.used, (16384 - 8192) * 1024);
}

#[test]
fn test_parse_memory_info_missing_and_malformed() {
    // No MemAvailable line: available stays 0 and used equals total.
    // A malformed value counts as 0.
    let content = "MemTotal: 1000 kB\nCached: abc kB\n";
    let info = parse_memory_info(content.as_bytes());
    assert_eq!(info.total, 1000 * 1024);
    assert_eq!(info.available, 0);
    assert_eq!(info.cached, 0);
    assert_eq!(info.free, 0);
    assert_eq!(info.used, 1000 * 1024);
}

#[test]
fn test_parse_cpu_times_per_core_first_line_rejected() {
    // A per-core label is not the aggregate record.
    let content = "cpu0 1 2 3 4 5 6 7";
    assert!(parse_cpu_times(content.as_bytes()).is_err());
}

#[test]
fn test_trim_hostname() {
    assert_eq!(trim_hostname("myhost\n"), "myhost");
    assert_eq!(trim_hostname("  主机\t\r\n"), "主机");
    assert_eq!(trim_hostname("plain"), "plain");
    assert_eq!(trim_hostname(" \n\t "), "");
    assert_eq!(trim_hostname(""), "");
    assert_eq!(trim_hostname("a b"), "a b");
}

#[test]
fn test_parse_memory_info_empty() {
    let info = parse_memory_info(b"" as &[u8]);
    assert_eq!(info.total, 0);
    assert_eq!(info.used, 0);
    assert_eq!(info.available, 0);
    assert_eq!(info.cached, 0);
    assert_eq!(info.free, 0);
}
