//! Platform helpers: heap checks, CSRF tokens and device-side logic.
pub mod abstraction;
pub mod audio;
pub mod board_info;
pub mod csrf;
pub mod fetch_url;
pub mod gpio;
pub mod hardware;
pub mod heap;
pub mod heartbeat_file;
pub mod http;

pub use heap::MemorySnapshot;
