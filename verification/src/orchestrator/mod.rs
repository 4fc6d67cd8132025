//! Resource orchestration: one state, and every resource decision taken from it.
pub mod admission;
pub mod channel_health;
pub mod control;
pub mod permit;
pub mod pressure;
pub mod state;

pub use admission::{AdmissionDecision, LlmDecision, ToolDecision};
pub use control::Orchestrator;
pub use permit::{HttpPermitGuard, PermitError, Priority};
pub use pressure::{PressureLevel, ResourceBudget};
pub use state::{OrchestratorState, ResourceSnapshot};
