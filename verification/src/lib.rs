//! Verified core of an on-device agent runtime: resource orchestration, admission control,
//! metrics, streaming-event parsing, prompt assembly and device helper logic.
use vstd::prelude::*;

pub mod boot;
pub mod constants;
pub mod dashboard;
pub mod dashboard_layout;
pub mod display_loop;
pub mod error;
pub mod llm;
pub mod memory;
pub mod metrics;
pub mod orchestrator;
pub mod platform;
pub mod stream_token;
pub mod text;
pub mod utf8;

verus! {
} // verus!
