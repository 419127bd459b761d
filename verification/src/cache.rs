//! A single-slot, time-bounded cache of the most recently known serialized
//! configuration content.
//!
//! The slot holds the text last read from or written to the configuration
//! file together with the time it was stored. A stored entry answers `get`
//! only while it is younger than the cache's time-to-live; it is replaced
//! wholesale by every `put` and cleared by `invalidate`.

use vstd::prelude::*;

verus! {

/// The filled slot: the serialized configuration text last known to be on
/// disk, and the time (in milliseconds) at which it was stored.
pub struct CacheEntry {
    pub content: String,
    pub timestamp_ms: u64,
}

/// Abstract state of the cache: the slot, if filled, as a pair of the stored
/// text and its store time, next to the fixed time-to-live.
pub struct CacheView {
    pub entry: Option<(Seq<char>, u64)>,
    pub ttl_ms: u64,
}

/// A cache entry stored at time `stored_ms` is still fresh at `now_ms` iff
/// it was not stored in the future and strictly less than the time-to-live
/// has passed since it was stored.
pub open spec fn entry_fresh(stored_ms: u64, now_ms: u64, ttl_ms: u64) -> bool {
    stored_ms <= now_ms && now_ms - stored_ms < ttl_ms
}

/// What `get` answers at time `now_ms` on a cache in state `c`: the stored
/// text iff the slot is filled and its entry is still fresh.
pub open spec fn cache_lookup(c: CacheView, now_ms: u64) -> Option<Seq<char>> {
    match c.entry {
        Some((content, stored_ms)) => if entry_fresh(stored_ms, now_ms, c.ttl_ms) {
            Some(content)
        } else {
            None
        },
        None => None,
    }
}

/// The single-slot, time-bounded cache.
pub struct TtlCache {
    entry: Option<CacheEntry>,
    ttl_ms: u64,
}

impl View for TtlCache {
    type V = CacheView;

    closed spec fn view(&self) -> CacheView {
        CacheView {
            entry: match self.entry {
                Some(e) => Some((e.content@, e.timestamp_ms)),
                None => None,
            },
            ttl_ms: self.ttl_ms,
        }
    }
}

impl TtlCache {
    /// An empty cache whose entries will live for `ttl_ms` milliseconds.
    pub fn new(ttl_ms: u64) -> (r: TtlCache)
        ensures
            r@.entry is None,
            r@.ttl_ms == ttl_ms,
    {
        TtlCache { entry: None, ttl_ms }
    }

    /// The cached content, only if the slot is filled and unexpired at
    /// `now_ms`; never triggers any I/O.
    pub fn get(&self, now_ms: u64) -> (r: Option<String>)
        ensures
            match r {
                Some(s) => cache_lookup(self@, now_ms) == Some(s@),
                None => cache_lookup(self@, now_ms) is None,
            },
    {
        match &self.entry {
            Some(e) => {
                if e.timestamp_ms <= now_ms && now_ms - e.timestamp_ms < self.ttl_ms {
                    Some(e.content.clone())
                } else {
                    None
                }
            },
            None => None,
        }
    }

    /// Unconditionally replaces the slot with `content`, stored at `now_ms`.
    pub fn put(&mut self, content: String, now_ms: u64)
        ensures
            final(self)@.entry == Some((content@, now_ms)),
            final(self)@.ttl_ms == old(self)@.ttl_ms,
            final(self)@ == apply_op(old(self)@, CacheOp::Put(content@, now_ms)),
    {
        self.entry = Some(CacheEntry { content, timestamp_ms: now_ms });
    }

    /// Clears the slot; the next `get` misses whatever the time.
    pub fn invalidate(&mut self)
        ensures
            final(self)@.entry is None,
            final(self)@.ttl_ms == old(self)@.ttl_ms,
            final(self)@ == apply_op(old(self)@, CacheOp::Invalidate),
    {
        self.entry = None;
    }
}

/// One slot-changing cache operation, as recorded by a history of calls.
pub enum CacheOp {
    /// A `put` of the given text at the given time.
    Put(Seq<char>, u64),
    /// An `invalidate`.
    Invalidate,
}

/// The cache state after one operation.
pub open spec fn apply_op(c: CacheView, op: CacheOp) -> CacheView {
    match op {
        CacheOp::Put(content, stored_ms) => CacheView {
            entry: Some((content, stored_ms)),
            ttl_ms: c.ttl_ms,
        },
        CacheOp::Invalidate => CacheView { entry: None, ttl_ms: c.ttl_ms },
    }
}

/// The cache state after a whole history of operations, applied in order.
pub open spec fn apply_ops(c: CacheView, ops: Seq<CacheOp>) -> CacheView
    decreases ops.len(),
{
    if ops.len() == 0 {
        c
    } else {
        apply_op(apply_ops(c, ops.drop_last()), ops.last())
    }
}

/// No operation changes the time-to-live.
pub proof fn lemma_ops_preserve_ttl(c: CacheView, ops: Seq<CacheOp>)
    ensures
        apply_ops(c, ops).ttl_ms == c.ttl_ms,
    decreases ops.len(),
{
    if ops.len() > 0 {
        lemma_ops_preserve_ttl(c, ops.drop_last());
    }
}

/// The last operation of the history is a `put` of exactly `content`, still
/// fresh at `now_ms`: stored not in the future and strictly less than the
/// time-to-live ago. Since it is the last operation, no `invalidate` nor
/// another `put` has happened since.
pub open spec fn ends_with_fresh_put(
    ops: Seq<CacheOp>,
    content: Seq<char>,
    now_ms: u64,
    ttl_ms: u64,
) -> bool {
    ops.len() > 0 && match ops.last() {
        CacheOp::Put(c, stored_ms) => c == content && entry_fresh(stored_ms, now_ms, ttl_ms),
        CacheOp::Invalidate => false,
    }
}

/// Cache validity: over every history of operations run from an empty cache,
/// `get` at time `now_ms` answers `content` iff a `put` of exactly that
/// content occurred strictly less than the time-to-live ago (and not in the
/// future), with no `invalidate` nor another `put` since.
pub proof fn lemma_cache_validity(c0: CacheView, ops: Seq<CacheOp>, now_ms: u64, content: Seq<char>)
    requires
        c0.entry is None,
    ensures
        cache_lookup(apply_ops(c0, ops), now_ms) == Some(content) <==> ends_with_fresh_put(
            ops,
            content,
            now_ms,
            c0.ttl_ms,
        ),
{
    lemma_ops_preserve_ttl(c0, ops);
    if ops.len() > 0 {
        lemma_ops_preserve_ttl(c0, ops.drop_last());
    }
}

} // verus!
