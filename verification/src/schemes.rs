//! The scheme loader: listing the color-scheme documents found under the
//! two fixed scheme directories, skipping malformed ones, and point lookup
//! by id.
//!
//! Scanning a directory and parsing each JSON document happen outside the
//! verified core; the scan's findings arrive as a list of
//! [`ScannedSchemeFile`] values, one per regular file with the JSON
//! extension, in directory-enumeration order. The loader keeps exactly the
//! files that parsed and never fails: a malformed scheme must not prevent
//! listing the rest.

use vstd::prelude::*;
use vstd::string::StringExecFns;
use crate::models::{Scheme, SchemeData};

verus! {

/// One regular file with the JSON extension found during a scan of the
/// scheme directories: its path, and the codec's parse of its contents —
/// `None` when the document was malformed.
pub struct ScannedSchemeFile {
    pub path: String,
    pub parsed: Option<SchemeData>,
}

/// The schemes kept from a scan: one per file that parsed, in scan order,
/// each carrying the path it was read from.
pub open spec fn kept_schemes(entries: Seq<ScannedSchemeFile>) -> Seq<Scheme>
    decreases entries.len(),
{
    if entries.len() == 0 {
        Seq::empty()
    } else {
        let rest = kept_schemes(entries.drop_last());
        match entries.last().parsed {
            Some(data) => rest.push(Scheme { path: entries.last().path, scheme: data }),
            None => rest,
        }
    }
}

/// How many files of the scan parsed.
pub open spec fn parsed_count(entries: Seq<ScannedSchemeFile>) -> nat
    decreases entries.len(),
{
    if entries.len() == 0 {
        0
    } else {
        parsed_count(entries.drop_last()) + if entries.last().parsed is Some {
            1nat
        } else {
            0nat
        }
    }
}

/// Scan resilience: a scan that found some valid scheme files and some
/// malformed ones keeps exactly one scheme per valid file — the malformed
/// ones are skipped and skip nothing else.
pub proof fn lemma_scan_resilience(entries: Seq<ScannedSchemeFile>)
    ensures
        kept_schemes(entries).len() == parsed_count(entries),
    decreases entries.len(),
{
    if entries.len() > 0 {
        lemma_scan_resilience(entries.drop_last());
    }
}

/// Keeping distributes over extending the scan by one file: the new file
/// adds its scheme at the end iff it parsed.
proof fn lemma_kept_schemes_push(prefix: Seq<ScannedSchemeFile>, e: ScannedSchemeFile)
    ensures
        kept_schemes(prefix.push(e)) == match e.parsed {
            Some(data) => kept_schemes(prefix).push(Scheme { path: e.path, scheme: data }),
            None => kept_schemes(prefix),
        },
{
    assert(prefix.push(e).drop_last() =~= prefix);
    assert(prefix.push(e).last() == e);
}

/// Lists the schemes found by a scan of the scheme directories: exactly the
/// files that parsed, in scan order, malformed ones silently skipped. Never
/// fails, whatever the scan found.
pub fn load_schemes(entries: Vec<ScannedSchemeFile>) -> (r: Vec<Scheme>)
    ensures
        r@ == kept_schemes(entries@),
{
    let ghost all = entries@;
    let mut remaining = entries;
    let mut result: Vec<Scheme> = Vec::new();
    let ghost mut k: int = 0;
    proof {
        assert(remaining@ =~= all.subrange(0, all.len() as int));
        assert(kept_schemes(all.subrange(0, 0)) =~= Seq::<Scheme>::empty());
    }
    while remaining.len() > 0
        invariant
            0 <= k <= all.len(),
            remaining@ == all.subrange(k, all.len() as int),
            result@ == kept_schemes(all.subrange(0, k)),
        decreases remaining@.len(),
    {
        let entry = remaining.remove(0);
        proof {
            assert(entry == all.subrange(k, all.len() as int)[0]);
            assert(remaining@ =~= all.subrange(k + 1, all.len() as int));
            assert(all.subrange(0, k + 1) =~= all.subrange(0, k).push(all[k]));
            lemma_kept_schemes_push(all.subrange(0, k), all[k]);
            k = k + 1;
        }
        let ScannedSchemeFile { path, parsed } = entry;
        match parsed {
            Some(data) => result.push(Scheme { path, scheme: data }),
            None => {},
        }
    }
    proof {
        assert(all.subrange(0, all.len() as int) =~= all);
    }
    result
}

/// The first scheme of the list whose data's `id` field matches exactly —
/// character for character, case-sensitive.
pub open spec fn first_scheme_with_id(schemes: Seq<Scheme>, id: Seq<char>) -> Option<Scheme>
    decreases schemes.len(),
{
    if schemes.len() == 0 {
        None
    } else if schemes.first().scheme.id@ == id {
        Some(schemes.first())
    } else {
        first_scheme_with_id(schemes.drop_first(), id)
    }
}

/// The first scheme of the list whose data's `id` field matches exactly
/// (case-sensitive); `None` when no scheme matches — not-found is never an
/// error.
pub fn get_scheme_by_id(schemes: Vec<Scheme>, id: &String) -> (r: Option<Scheme>)
    ensures
        r == first_scheme_with_id(schemes@, id@),
{
    let ghost all = schemes@;
    let mut remaining = schemes;
    while remaining.len() > 0
        invariant
            all == schemes@,
            first_scheme_with_id(remaining@, id@) == first_scheme_with_id(all, id@),
        decreases remaining@.len(),
    {
        let ghost before = remaining@;
        let candidate = remaining.remove(0);
        proof {
            assert(candidate == before.first());
            assert(remaining@ =~= before.drop_first());
        }
        if candidate.scheme.id == *id {
            return Some(candidate);
        }
    }
    None
}

/// The fixed system-wide scheme directory.
pub fn system_schemes_dir() -> (r: &'static str)
    ensures
        r@ == "/usr/share/vasak/schemes"@,
{
    "/usr/share/vasak/schemes"
}

/// The fixed user-specific scheme directory under the given home directory.
pub fn user_schemes_dir(home: &str) -> (r: String)
    ensures
        r@ == home@ + "/.config/vasak/schemes"@,
{
    home.to_owned().concat("/.config/vasak/schemes")
}

} // verus!
