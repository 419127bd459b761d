//! A process-embedded configuration store: a single on-disk JSON
//! configuration file, a bounded-staleness in-memory cache over it, live
//! invalidation on filesystem change events, and narrow semantic mutators
//! (such as toggling a dark-mode flag) that read-modify-write the file while
//! keeping the cache and the desktop theme consistent.
//!
//! The verified core works on plain values: the on-disk file is modelled by
//! [`store::FileState`], and every step whose outcome the operating system
//! decides (file I/O, the theme-settings command, JSON encoding) enters the
//! library as an explicit event parameter. A thin unverified shell binds
//! those events to the real filesystem, to the JSON codec and to the desktop
//! settings daemon.

pub mod cache;
pub mod error;
pub mod manager;
pub mod models;
pub mod schemes;
pub mod store;
pub mod watcher;

pub use cache::TtlCache;
pub use error::ConfigError;
pub use manager::ConfigManager;
