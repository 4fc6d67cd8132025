//! Memory and session abstractions, and system prompt assembly.
pub mod prompt;
pub mod store;

pub use prompt::build_system_prompt;
pub use store::{
    EmotionSignalStore, ImportantMessageStore, MemoryEmotionSignalStore, MemoryStore,
    PendingRetryStore, RemindAtStore, SessionMessage, SessionStore, SessionSummaryStore,
    TaskContinuationStore,
};
