//! Host resource statistics: verified counter parsing, incremental CPU usage
//! computation, and a TTL-bounded snapshot cache.

pub mod cache;
pub mod config;
pub mod engine;
pub mod scan;
pub mod stats;

pub use cache::{create_cache, CacheRef, SystemStatsCache};
pub use config::Config;
pub use engine::DeltaCpuEngine;
pub use stats::{CpuStats, CpuTimes, CpuUsageBreakdown, StatsError, SystemStats};
