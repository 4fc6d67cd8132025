//! Resource limits and thresholds shared by the orchestrator, the LLM layer and the platform helpers.
use vstd::prelude::*;

verus! {

/// Upper bound of a system prompt under normal pressure (bytes).
pub const DEFAULT_SYSTEM_MAX_LEN: usize = 32768;
/// Upper bound of the message history under normal pressure (bytes).
pub const DEFAULT_MESSAGES_MAX_LEN: usize = 24576;
/// Upper bound of an HTTP response body under normal pressure (bytes).
pub const MAX_RESPONSE_BODY_LEN: usize = 524288;
/// Upper bound of an LLM request body (bytes).
pub const MAX_REQUEST_BODY_LEN: usize = 524288;
/// Number of HTTP requests that may be in flight at once.
pub const MAX_CONCURRENT_HTTP: u32 = 2;
/// Inbound + outbound queue depth from which the queues count as congested.
pub const PRESSURE_QUEUE_CONGESTION_THRESHOLD: u32 = 8;
/// Longest defer of an inbound message under critical pressure (ms).
pub const LOW_MEM_DEFER_SLEEP_MS: u64 = 1800;
/// Longest "retry later" delay of an LLM call under cautious pressure (ms).
pub const LLM_RETRY_LATER_DELAY_MS: u64 = 1200;
/// Defer of an outbound message under critical pressure with congested queues (ms).
pub const OUTBOUND_DEFER_DELAY_MS: u64 = 500;
/// Longest defer of an outbound message under cautious pressure (ms).
pub const OUTBOUND_DEFER_DELAY_MS_CAUTIOUS: u64 = 300;
/// Free internal heap that a TLS session needs when PSRAM is present (bytes).
pub const TLS_ADMISSION_MIN_INTERNAL_BYTES: u32 = 40960;
/// Largest free internal block that a TLS session needs (bytes).
pub const TLS_ADMISSION_MIN_LARGEST_BLOCK_BYTES: u32 = 16384;
/// Free internal heap that a TLS session needs when there is no PSRAM (bytes).
pub const TLS_ADMISSION_NO_PSRAM_MIN_BYTES: u32 = 65536;
/// Free heap needed for one agent round without PSRAM (bytes).
pub const MIN_FREE_HEAP_FOR_AGENT_ROUND: usize = 98304;
/// Free internal heap needed for one agent round when PSRAM is present (bytes).
pub const MIN_FREE_INTERNAL_WHEN_PSRAM: usize = 49152;
/// Capacity of the SSE line buffer (bytes); longer lines are cut.
pub const SSE_LINE_BUF_SIZE: usize = 4096;
/// Minimum interval between two successful reads of the same I2C sensor (ms).
pub const I2C_SENSOR_RATE_LIMIT_MS: u64 = 1000;
/// Consecutive failures after which a channel counts as unhealthy.
pub const CHANNEL_FAILURE_THRESHOLD: u32 = 3;

/// Display refresh interval while the backlight is off (s).
pub const DISPLAY_REFRESH_SLEEP_SECS: u64 = 60;
/// Display refresh interval while the agent is busy or recording (s).
pub const DISPLAY_REFRESH_BUSY_SECS: u64 = 1;
/// Display refresh interval while idle (s).
pub const DISPLAY_REFRESH_IDLE_SECS: u64 = 5;
/// Display refresh interval after a long idle spell (s).
pub const DISPLAY_REFRESH_IDLE_LONG_SECS: u64 = 30;
/// Idle time after which the long idle interval applies (s).
pub const DISPLAY_IDLE_LONG_THRESHOLD_SECS: u64 = 300;

} // verus!
