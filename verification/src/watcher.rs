//! The file watcher's view of a filesystem change notification.
//!
//! The watcher observes the configuration file on a background notification
//! channel. Each delivered event is classified into a [`WatchEventKind`],
//! and the manager reacts through
//! [`crate::manager::ConfigManager::on_watch_event`]: only a data-content
//! modification invalidates the cache and is announced to listeners.

use vstd::prelude::*;

verus! {

/// The kinds of filesystem change a watch event can report, as far as the
/// cache cares: only a data-content modification qualifies for invalidation
/// and announcement.
#[derive(Debug, Clone, Copy, PartialEq, Eq)]
pub enum WatchEventKind {
    /// The file's data content changed.
    DataModified,
    /// Only metadata (times, permissions, ownership, name) changed.
    MetadataChanged,
    /// A file or folder was created.
    Created,
    /// A file or folder was removed.
    Removed,
    /// Accesses and every other kind of event.
    Other,
}

#[verifier::external_type_specification]
#[verifier::external_body]
pub struct ExEvent(notify::Event);

/// Relies on notify::Event: reads which family of filesystem change the
/// event's kind reports, one answer per family, so that only data-content
/// modifications (and not metadata-only changes, creations or removals)
/// reach the cache.
#[verifier::external_body]
pub fn classify_event(event: &notify::Event) -> (r: WatchEventKind) {
    match event.kind {
        notify::EventKind::Modify(notify::event::ModifyKind::Data(_)) => {
            WatchEventKind::DataModified
        },
        notify::EventKind::Modify(_) => WatchEventKind::MetadataChanged,
        notify::EventKind::Create(_) => WatchEventKind::Created,
        notify::EventKind::Remove(_) => WatchEventKind::Removed,
        _ => WatchEventKind::Other,
    }
}

} // verus!
