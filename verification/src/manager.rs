//! The config manager: cache-first reads, write-through updates, and the
//! compound dark-mode mutator over the store and the single-slot cache.
//!
//! The manager owns the cache slot. The on-disk file travels beside it as a
//! [`FileState`] value, and each outcome that the operating system decides
//! (whether an I/O step succeeded, what the settings daemon answered, what
//! the JSON codec produced) enters as an explicit parameter. Every
//! operation's contract ties the new cache, the new file and the result to
//! one spec-level transition function, and the consistency laws are proved
//! over those transitions.

use vstd::prelude::*;
use crate::cache::{CacheView, TtlCache, cache_lookup};
use crate::error::ConfigError;
use crate::models::VSKConfig;
use crate::store::{FileState, ensure_exists, read_raw, spec_ensure_exists, write_raw};
use crate::watcher::WatchEventKind;

verus! {

/// The default time-to-live of the cache: thirty minutes.
pub const DEFAULT_TTL_MS: u64 = 30 * 60 * 1000;

/// The state an operation acts on: the cache and the on-disk file.
pub struct SysView {
    pub cache: CacheView,
    pub file: Option<Seq<char>>,
}

/// The state and the content answered after a forced refresh: ensure the
/// file exists (creating the default document if missing), read it, and on
/// success replace the cache slot with what was read.
pub open spec fn spec_refresh(s: SysView, create_ok: bool, read_ok: bool, now_ms: u64) -> (
    SysView,
    Option<Seq<char>>,
) {
    let file1 = spec_ensure_exists(s.file, create_ok);
    match file1 {
        None => (s, None),
        Some(content) => if read_ok {
            (
                SysView {
                    cache: CacheView { entry: Some((content, now_ms)), ttl_ms: s.cache.ttl_ms },
                    file: file1,
                },
                Some(content),
            )
        } else {
            (SysView { cache: s.cache, file: file1 }, None)
        },
    }
}

/// The state and the content answered by a cache-first read: a valid cache
/// entry is answered with no I/O at all; otherwise the file is refreshed as
/// by [`spec_refresh`].
pub open spec fn spec_read_config(s: SysView, create_ok: bool, read_ok: bool, now_ms: u64) -> (
    SysView,
    Option<Seq<char>>,
) {
    match cache_lookup(s.cache, now_ms) {
        Some(c) => (s, Some(c)),
        None => spec_refresh(s, create_ok, read_ok, now_ms),
    }
}

/// The state after a write-through update, and whether it succeeded: on
/// success the file and the cache slot both hold exactly the provided text;
/// on failure both are untouched.
pub open spec fn spec_write_config(s: SysView, text: Seq<char>, write_ok: bool, now_ms: u64) -> (
    SysView,
    bool,
) {
    if write_ok {
        (
            SysView {
                cache: CacheView { entry: Some((text, now_ms)), ttl_ms: s.cache.ttl_ms },
                file: Some(text),
            },
            true,
        )
    } else {
        (s, false)
    }
}

/// What the desktop settings daemon answered when the current theme
/// preference was queried.
#[derive(Debug, Clone, Copy, PartialEq, Eq)]
pub enum ThemeProbe {
    /// No settings daemon on this environment: the dark-mode operation
    /// degrades to file-only mutation, skipping the probe-and-set step.
    Unavailable,
    /// The query command could not be spawned or exited non-zero.
    Failed,
    /// The daemon answered; `true` means it currently prefers dark mode.
    Reports(bool),
}

/// The outcomes of the external steps of one dark-mode operation, in the
/// order the steps run. The caller performs each step and reports here what
/// happened.
pub struct DarkmodeEvents {
    /// What querying the desktop theme preference answered.
    pub probe: ThemeProbe,
    /// Whether the OS-level set calls succeeded; only consulted when the
    /// probe reported a preference that differs from the requested one.
    pub os_set_ok: bool,
    /// Whether creating the missing file (with the default document)
    /// succeeded; only consulted when the file was absent.
    pub create_ok: bool,
    /// Whether reading the file succeeded.
    pub read_ok: bool,
    /// The codec's parse of the text read from the file; `None` when the
    /// document was malformed.
    pub parsed: Option<VSKConfig>,
    /// The codec's pretty-printed serialization of the parsed document with
    /// only its dark-mode field mutated (see [`crate::models::apply_darkmode`]).
    pub serialized: String,
    /// Whether writing the mutated serialization back succeeded.
    pub write_ok: bool,
}

/// Whether the OS-level probe-and-set step lets the operation proceed: it
/// does when no settings daemon exists, when the daemon already reports the
/// requested preference, or when the set calls succeeded. The file must
/// never come to record a dark-mode value the desktop did not adopt.
pub open spec fn spec_os_gate_ok(requested: bool, probe: ThemeProbe, os_set_ok: bool) -> bool {
    match probe {
        ThemeProbe::Unavailable => true,
        ThemeProbe::Failed => false,
        ThemeProbe::Reports(current) => current == requested || os_set_ok,
    }
}

/// The state after one dark-mode operation, and whether it succeeded. The
/// steps run in order: the OS gate, then create-if-missing, read,
/// deserialize, and the write-through of the mutated serialization. The
/// first failing step aborts the rest; only a complete run touches the
/// cache or replaces the file's text.
pub open spec fn spec_set_darkmode(
    s: SysView,
    darkmode: bool,
    ev: DarkmodeEvents,
    now_ms: u64,
) -> (SysView, bool) {
    if !spec_os_gate_ok(darkmode, ev.probe, ev.os_set_ok) {
        (s, false)
    } else {
        let file1 = spec_ensure_exists(s.file, ev.create_ok);
        match file1 {
            None => (s, false),
            Some(_) => if !ev.read_ok {
                (SysView { cache: s.cache, file: file1 }, false)
            } else {
                match ev.parsed {
                    None => (SysView { cache: s.cache, file: file1 }, false),
                    Some(_) => if ev.write_ok {
                        (
                            SysView {
                                cache: CacheView {
                                    entry: Some((ev.serialized@, now_ms)),
                                    ttl_ms: s.cache.ttl_ms,
                                },
                                file: Some(ev.serialized@),
                            },
                            true,
                        )
                    } else {
                        (SysView { cache: s.cache, file: file1 }, false)
                    },
                }
            },
        }
    }
}

/// The cache after a watch event: a data-content modification clears the
/// slot and is announced to listeners exactly once; any other event kind
/// changes nothing and announces nothing.
pub open spec fn spec_react_to_event(cache: CacheView, kind: WatchEventKind) -> (CacheView, bool) {
    if kind is DataModified {
        (CacheView { entry: None, ttl_ms: cache.ttl_ms }, true)
    } else {
        (cache, false)
    }
}

/// Decides the OS-level probe-and-set step of a dark-mode operation:
/// nothing to do without a settings daemon or when the daemon already
/// reports the requested preference; otherwise the set calls must have
/// succeeded, and a failed query or failed set aborts the operation.
pub fn darkmode_os_gate(requested: bool, probe: ThemeProbe, os_set_ok: bool) -> (r: Result<
    (),
    ConfigError,
>)
    ensures
        r is Ok <==> spec_os_gate_ok(requested, probe, os_set_ok),
        r matches Err(e) ==> e is Subprocess,
{
    match probe {
        ThemeProbe::Unavailable => Ok(()),
        ThemeProbe::Failed => Err(
            ConfigError::Subprocess("querying the desktop theme preference failed".to_owned()),
        ),
        ThemeProbe::Reports(current) => {
            if current == requested || os_set_ok {
                Ok(())
            } else {
                Err(
                    ConfigError::Subprocess("setting the desktop theme preference failed".to_owned()),
                )
            }
        },
    }
}

/// Composes the store and the single-slot cache: cache-first reads,
/// write-through updates, and the compound dark-mode mutator.
pub struct ConfigManager {
    cache: TtlCache,
}

impl View for ConfigManager {
    type V = CacheView;

    closed spec fn view(&self) -> CacheView {
        self.cache@
    }
}

impl ConfigManager {
    /// A manager with an empty cache whose entries live for `ttl_ms`
    /// milliseconds.
    pub fn new(ttl_ms: u64) -> (r: ConfigManager)
        ensures
            r@.entry is None,
            r@.ttl_ms == ttl_ms,
    {
        ConfigManager { cache: TtlCache::new(ttl_ms) }
    }

    /// The cached content, only if present and unexpired at `now_ms`;
    /// triggers no I/O.
    pub fn cached_content(&self, now_ms: u64) -> (r: Option<String>)
        ensures
            match r {
                Some(s) => cache_lookup(self@, now_ms) == Some(s@),
                None => cache_lookup(self@, now_ms) is None,
            },
    {
        self.cache.get(now_ms)
    }

    /// Commits content to the cache slot, stored at `now_ms`: called by the
    /// unverified shell right after a successful read of the file, or with
    /// the exact provided text right after a successful write.
    pub fn store_to_cache(&mut self, content: String, now_ms: u64)
        ensures
            final(self)@.entry == Some((content@, now_ms)),
            final(self)@.ttl_ms == old(self)@.ttl_ms,
    {
        self.cache.put(content, now_ms);
    }

    /// Unconditional invalidation; no I/O.
    pub fn clear_cache(&mut self)
        ensures
            final(self)@.entry is None,
            final(self)@.ttl_ms == old(self)@.ttl_ms,
    {
        self.cache.invalidate();
    }

    /// Reacts to one filesystem watch event on the configuration file: a
    /// data-content modification invalidates the cache, and the answer says
    /// whether to announce "configuration changed" to listeners — exactly
    /// once per qualifying event, never for the others.
    pub fn on_watch_event(&mut self, kind: WatchEventKind) -> (announce: bool)
        ensures
            (final(self)@, announce) == spec_react_to_event(old(self)@, kind),
    {
        match kind {
            WatchEventKind::DataModified => {
                self.cache.invalidate();
                true
            },
            _ => false,
        }
    }

    /// Forces a store read and a cache replacement, bypassing the cache's
    /// validity, creating the default file first if missing. `create_ok` and
    /// `read_ok` report whether the two underlying filesystem steps
    /// succeeded.
    pub fn refresh_cache_from_file(
        &mut self,
        file: &mut FileState,
        create_ok: bool,
        read_ok: bool,
        now_ms: u64,
    ) -> (r: Result<String, ConfigError>)
        ensures
            ({
                let (s2, content) = spec_refresh(
                    SysView { cache: old(self)@, file: old(file)@ },
                    create_ok,
                    read_ok,
                    now_ms,
                );
                &&& final(self)@ == s2.cache
                &&& final(file)@ == s2.file
                &&& match r {
                    Ok(s) => content == Some(s@),
                    Err(_) => content is None,
                }
            }),
            r matches Err(e) ==> e is Io,
    {
        match ensure_exists(file, create_ok) {
            Err(e) => Err(e),
            Ok(_) => match read_raw(file, read_ok) {
                Err(e) => Err(e),
                Ok(content) => {
                    self.cache.put(content.clone(), now_ms);
                    Ok(content)
                },
            },
        }
    }

    /// Cache-first read: a valid cache entry is answered with no I/O at
    /// all; otherwise the file is made to exist (default document if
    /// missing), read, and the cache repopulated with what was read.
    pub fn read_config(
        &mut self,
        file: &mut FileState,
        create_ok: bool,
        read_ok: bool,
        now_ms: u64,
    ) -> (r: Result<String, ConfigError>)
        ensures
            ({
                let (s2, content) = spec_read_config(
                    SysView { cache: old(self)@, file: old(file)@ },
                    create_ok,
                    read_ok,
                    now_ms,
                );
                &&& final(self)@ == s2.cache
                &&& final(file)@ == s2.file
                &&& match r {
                    Ok(s) => content == Some(s@),
                    Err(_) => content is None,
                }
            }),
            r matches Err(e) ==> e is Io,
    {
        match self.cached_content(now_ms) {
            Some(s) => Ok(s),
            None => self.refresh_cache_from_file(file, create_ok, read_ok, now_ms),
        }
    }

    /// Write-through update: the store is written first, and only on
    /// success is the cache replaced with the exact provided text — not a
    /// re-read. On store failure the cache is left untouched and the error
    /// propagated. The second answer says whether to announce
    /// "configuration changed" to listeners: after every success, never
    /// after a failure.
    pub fn write_config(
        &mut self,
        file: &mut FileState,
        text: &str,
        write_ok: bool,
        now_ms: u64,
    ) -> (r: (Result<(), ConfigError>, bool))
        ensures
            ({
                let (s2, ok) = spec_write_config(
                    SysView { cache: old(self)@, file: old(file)@ },
                    text@,
                    write_ok,
                    now_ms,
                );
                &&& final(self)@ == s2.cache
                &&& final(file)@ == s2.file
                &&& (r.0 is Ok <==> ok)
                &&& r.1 == ok
            }),
            r.0 matches Err(e) ==> e is Io,
    {
        match write_raw(file, text, write_ok) {
            Ok(_) => {
                self.cache.put(text.to_owned(), now_ms);
                (Ok(()), true)
            },
            Err(e) => (Err(e), false),
        }
    }

    /// The compound dark-mode operation, with this exact ordering, each
    /// step's failure aborting the rest: query the desktop theme preference
    /// and, where it differs from the requested state, set it; ensure the
    /// file exists; read it; deserialize it; write the mutated
    /// serialization back through the store; replace the cache with it. The
    /// outcome of every external step arrives in `events`. The second
    /// answer says whether to announce "configuration changed": after every
    /// success, never after a failure. A theme change the desktop already
    /// adopted is not rolled back when a later step fails.
    pub fn set_darkmode(
        &mut self,
        file: &mut FileState,
        darkmode: bool,
        events: DarkmodeEvents,
        now_ms: u64,
    ) -> (r: (Result<(), ConfigError>, bool))
        ensures
            ({
                let (s2, ok) = spec_set_darkmode(
                    SysView { cache: old(self)@, file: old(file)@ },
                    darkmode,
                    events,
                    now_ms,
                );
                &&& final(self)@ == s2.cache
                &&& final(file)@ == s2.file
                &&& (r.0 is Ok <==> ok)
                &&& r.1 == ok
            }),
            !spec_os_gate_ok(darkmode, events.probe, events.os_set_ok) ==> (r.0 matches Err(e)
                && e is Subprocess),
            spec_os_gate_ok(darkmode, events.probe, events.os_set_ok) && spec_ensure_exists(
                old(file)@,
                events.create_ok,
            ) is None ==> (r.0 matches Err(e) && e is Io),
            spec_os_gate_ok(darkmode, events.probe, events.os_set_ok) && spec_ensure_exists(
                old(file)@,
                events.create_ok,
            ) is Some && !events.read_ok ==> (r.0 matches Err(e) && e is Io),
            spec_os_gate_ok(darkmode, events.probe, events.os_set_ok) && spec_ensure_exists(
                old(file)@,
                events.create_ok,
            ) is Some && events.read_ok && events.parsed is None ==> (r.0 matches Err(e)
                && e is Deserialize),
            spec_os_gate_ok(darkmode, events.probe, events.os_set_ok) && spec_ensure_exists(
                old(file)@,
                events.create_ok,
            ) is Some && events.read_ok && events.parsed is Some && !events.write_ok ==> (
            r.0 matches Err(e) && e is Io),
    {
        let DarkmodeEvents { probe, os_set_ok, create_ok, read_ok, parsed, serialized, write_ok } =
            events;
        match darkmode_os_gate(darkmode, probe, os_set_ok) {
            Err(e) => (Err(e), false),
            Ok(_) => match ensure_exists(file, create_ok) {
                Err(e) => (Err(e), false),
                Ok(_) => match read_raw(file, read_ok) {
                    Err(e) => (Err(e), false),
                    Ok(_current_text) => match parsed {
                        None => (
                            Err(
                                ConfigError::Deserialize(
                                    "the configuration document on disk is malformed".to_owned(),
                                ),
                            ),
                            false,
                        ),
                        Some(_document) => match write_raw(file, serialized.as_str(), write_ok) {
                            Err(e) => (Err(e), false),
                            Ok(_) => {
                                self.cache.put(serialized, now_ms);
                                (Ok(()), true)
                            },
                        },
                    },
                },
            },
        }
    }
}

/// The cache slot, when filled, holds a byte-for-byte copy of the file's
/// text — never a stale partial write.
pub open spec fn cache_matches_file(s: SysView) -> bool {
    match s.cache.entry {
        Some((content, _)) => s.file == Some(content),
        None => true,
    }
}

/// Cache coherence: every operation keeps the filled cache slot a
/// byte-for-byte copy of the file's text as the operations last left it. An
/// out-of-band edit of the file is seen only through a watch event, which
/// clears the slot and so restores coherence.
pub proof fn lemma_operations_preserve_coherence(
    s: SysView,
    text: Seq<char>,
    darkmode: bool,
    ev: DarkmodeEvents,
    kind: WatchEventKind,
    create_ok: bool,
    read_ok: bool,
    write_ok: bool,
    now_ms: u64,
)
    requires
        cache_matches_file(s),
    ensures
        cache_matches_file(spec_read_config(s, create_ok, read_ok, now_ms).0),
        cache_matches_file(spec_refresh(s, create_ok, read_ok, now_ms).0),
        cache_matches_file(spec_write_config(s, text, write_ok, now_ms).0),
        cache_matches_file(spec_set_darkmode(s, darkmode, ev, now_ms).0),
        cache_matches_file(SysView { cache: spec_react_to_event(s.cache, kind).0, file: s.file }),
{
}

/// Write-through consistency: after a successful write of `text` at
/// `now_ms`, an immediately following read answers exactly `text` straight
/// from the cache — the state is untouched and the filesystem outcomes are
/// never consulted, so the answer holds even where the file would re-read
/// differently.
pub proof fn lemma_write_through_consistency(
    s: SysView,
    text: Seq<char>,
    now_ms: u64,
    create_ok: bool,
    read_ok: bool,
)
    requires
        s.cache.ttl_ms > 0,
    ensures
        ({
            let (s1, ok) = spec_write_config(s, text, true, now_ms);
            ok && spec_read_config(s1, create_ok, read_ok, now_ms) == (s1, Some(text))
        }),
{
}

/// No cache corruption on write failure: a failed write leaves the whole
/// state untouched and fires no notification, so a read at any later time
/// answers exactly what it would have answered had the write never been
/// attempted.
pub proof fn lemma_write_failure_leaves_state(
    s: SysView,
    text: Seq<char>,
    now_ms: u64,
    later_ms: u64,
    create_ok: bool,
    read_ok: bool,
)
    ensures
        ({
            let (s1, ok) = spec_write_config(s, text, false, now_ms);
            &&& !ok
            &&& s1 == s
            &&& spec_read_config(s1, create_ok, read_ok, later_ms) == spec_read_config(
                s,
                create_ok,
                read_ok,
                later_ms,
            )
        }),
{
}

/// Dark-mode atomicity on the file path: when the configuration file
/// exists, a dark-mode operation that fails at any step leaves the on-disk
/// content byte-identical to its pre-call content, and the cache untouched.
pub proof fn lemma_darkmode_atomic_on_failure(
    s: SysView,
    darkmode: bool,
    ev: DarkmodeEvents,
    now_ms: u64,
)
    requires
        s.file is Some,
    ensures
        ({
            let (s2, ok) = spec_set_darkmode(s, darkmode, ev, now_ms);
            !ok ==> s2 == s
        }),
{
}

} // verus!
