//! Which entries of a directory listing are plugin candidates.
use vstd::prelude::*;

verus! {

/// The substring that marks a file name as a plugin candidate.
pub open spec fn marker() -> Seq<char> {
    seq!['_', 'p', 'l', 'u', 'g', 'i', 'n']
}

/// The marker occurs in `name` starting at position `i`.
pub open spec fn marker_at(name: Seq<char>, i: int) -> bool {
    0 <= i && i + marker().len() <= name.len() && name.subrange(i, i + marker().len())
        == marker()
}

/// `name` contains the marker somewhere.
pub open spec fn has_marker(name: Seq<char>) -> bool {
    exists|i: int| marker_at(name, i)
}

/// An entry of a listing is a candidate when it was read and its name holds the marker.
pub open spec fn is_candidate(entry: Option<Seq<char>>) -> bool {
    entry is Some && has_marker(entry->0)
}

/// The view of a listing: one optional name per entry, `None` for an entry that could
/// not be read.
pub open spec fn listing_view(entries: Seq<Option<String>>) -> Seq<Option<Seq<char>>> {
    entries.map_values(|e: Option<String>| match e {
        Some(s) => Some(s@),
        None => None,
    })
}

/// The positions of the candidates among the first `k` entries, in listing order.
pub open spec fn candidates_upto(entries: Seq<Option<Seq<char>>>, k: int) -> Seq<int>
    decreases k,
{
    if k <= 0 {
        Seq::empty()
    } else {
        let rest = candidates_upto(entries, k - 1);
        if is_candidate(entries[k - 1]) {
            rest.push(k - 1)
        } else {
            rest
        }
    }
}

/// The positions of all candidates of a listing, in listing order.
pub open spec fn candidates(entries: Seq<Option<Seq<char>>>) -> Seq<int> {
    candidates_upto(entries, entries.len() as int)
}

/// How many of the first `k` entries are candidates.
pub open spec fn count_candidates(entries: Seq<Option<Seq<char>>>, k: int) -> nat
    decreases k,
{
    if k <= 0 {
        0
    } else {
        count_candidates(entries, k - 1) + if is_candidate(entries[k - 1]) {
            1nat
        } else {
            0nat
        }
    }
}

/// Some entry of the listing could not be read.
pub open spec fn has_unreadable(entries: Seq<Option<Seq<char>>>) -> bool {
    exists|i: int| 0 <= i < entries.len() && entries[i] is None
}

/// Why a directory scan failed as a whole.
#[derive(Debug, Clone, Copy, PartialEq, Eq, Structural)]
pub enum DiscoveryError {
    /// The directory itself could not be opened or listed.
    DirectoryUnreadable,
    /// Reading one of the directory's entries failed part way through the scan.
    EntryUnreadable,
}

/// Whether the file name `name` holds the plugin marker.
pub fn is_plugin_file_name(name: &str) -> (r: bool)
    ensures
        r == has_marker(name@),
{
    let pattern = "_plugin";
    proof {
        reveal_strlit("_plugin");
        assert(pattern@ =~= marker());
    }
    let n = name.unicode_len();
    let m = pattern.unicode_len();
    if n < m {
        assert forall|i: int| !marker_at(name@, i) by {}
        return false;
    }
    let mut i: usize = 0;
    while i <= n - m
        invariant
            n == name@.len(),
            m == marker().len(),
            pattern@ == marker(),
            m <= n,
            i <= n - m + 1,
            forall|j: int| 0 <= j < i ==> !marker_at(name@, j),
        decreases n - i,
    {
        let mut k: usize = 0;
        let mut same = true;
        while k < m
            invariant
                n == name@.len(),
                m == marker().len(),
                pattern@ == marker(),
                i + m <= n,
                k <= m,
                same == (forall|t: int| 0 <= t < k ==> name@[i + t] == marker()[t]),
            decreases m - k,
        {
            if name.get_char(i + k) != pattern.get_char(k) {
                same = false;
            }
            k = k + 1;
        }
        if same {
            assert(name@.subrange(i as int, i + m) =~= marker());
            assert(marker_at(name@, i as int));
            return true;
        }
        assert(!marker_at(name@, i as int)) by {
            if marker_at(name@, i as int) {
                let t = choose|t: int| 0 <= t < m && name@[i + t] != marker()[t];
                assert(name@.subrange(i as int, i + m)[t] == name@[i + t]);
            }
        }
        i = i + 1;
    }
    assert forall|j: int| !marker_at(name@, j) by {}
    false
}

/// Decides which entries of a directory listing are to be loaded.
///
/// `listing` is `None` when the directory could not be opened; otherwise it holds one
/// item per entry, in the directory's order, with `None` for an entry that could not be
/// read. The scan fails as a whole on either kind of failure, so nothing is loaded from a
/// listing that was not read completely; otherwise the result gives the positions of the
/// entries whose names hold the marker, in listing order.
pub fn plan_directory(listing: &Option<Vec<Option<String>>>) -> (r: Result<
    Vec<usize>,
    DiscoveryError,
>)
    ensures
        listing is None ==> r == Err::<Vec<usize>, DiscoveryError>(
            DiscoveryError::DirectoryUnreadable,
        ),
        listing is Some && has_unreadable(listing_view(listing->0@)) ==> r == Err::<
            Vec<usize>,
            DiscoveryError,
        >(DiscoveryError::EntryUnreadable),
        listing is Some && !has_unreadable(listing_view(listing->0@)) ==> r is Ok
            && r->Ok_0@.map_values(|x: usize| x as int) == candidates(
            listing_view(listing->0@),
        ),
{
    match listing {
        None => Err(DiscoveryError::DirectoryUnreadable),
        Some(entries) => {
            let ghost view = listing_view(entries@);
            let mut out: Vec<usize> = Vec::new();
            let mut i: usize = 0;
            while i < entries.len()
                invariant
                    listing is Some && listing->0@ == entries@,
                    view == listing_view(entries@),
                    i <= entries.len(),
                    out@.map_values(|x: usize| x as int) == candidates_upto(view, i as int),
                    forall|j: int| 0 <= j < i ==> view[j] is Some,
                decreases entries.len() - i,
            {
                match &entries[i] {
                    None => {
                        assert(view[i as int] is None);
                        return Err(DiscoveryError::EntryUnreadable);
                    },
                    Some(name) => {
                        assert(view[i as int] == Some(name@));
                        let ghost before = out@;
                        if is_plugin_file_name(name.as_str()) {
                            out.push(i);
                            assert(out@.map_values(|x: usize| x as int) =~= before.map_values(
                                |x: usize| x as int,
                            ).push(i as int));
                        }
                    },
                }
                i = i + 1;
            }
            assert(!has_unreadable(view));
            Ok(out)
        },
    }
}

/// The candidates among the first `k` entries are exactly as many as `count_candidates`
/// says, lie below `k`, and come in strictly increasing order.
pub proof fn lemma_candidates_upto(entries: Seq<Option<Seq<char>>>, k: int)
    requires
        0 <= k <= entries.len(),
    ensures
        candidates_upto(entries, k).len() == count_candidates(entries, k),
        forall|a: int|
            0 <= a < candidates_upto(entries, k).len() ==> 0 <= #[trigger] candidates_upto(
                entries,
                k,
            )[a] < k && is_candidate(entries[candidates_upto(entries, k)[a]]),
        forall|a: int, b: int|
            0 <= a < b < candidates_upto(entries, k).len() ==> #[trigger] candidates_upto(
                entries,
                k,
            )[a] < #[trigger] candidates_upto(entries, k)[b],
    decreases k,
{
    if k > 0 {
        lemma_candidates_upto(entries, k - 1);
    }
}

/// Discovery over a fully readable listing picks exactly the entries whose names hold
/// the marker, each once, in the directory's order: as many as `count_candidates` gives,
/// and every entry with the marker is among them.
pub proof fn lemma_discovery_picks_marked_entries(entries: Seq<Option<Seq<char>>>)
    requires
        !has_unreadable(entries),
    ensures
        candidates(entries).len() == count_candidates(entries, entries.len() as int),
        forall|a: int, b: int|
            0 <= a < b < candidates(entries).len() ==> #[trigger] candidates(entries)[a]
                < #[trigger] candidates(entries)[b],
        forall|i: int|
            0 <= i < entries.len() ==> (is_candidate(#[trigger] entries[i]) <==> candidates(
                entries,
            ).contains(i)),
{
    lemma_candidates_upto(entries, entries.len() as int);
    lemma_candidates_membership(entries, entries.len() as int);
}

proof fn lemma_candidates_membership(entries: Seq<Option<Seq<char>>>, k: int)
    requires
        0 <= k <= entries.len(),
    ensures
        forall|i: int|
            0 <= i < k ==> (is_candidate(#[trigger] entries[i]) <==> candidates_upto(
                entries,
                k,
            ).contains(i)),
    decreases k,
{
    if k > 0 {
        lemma_candidates_membership(entries, k - 1);
        lemma_candidates_upto(entries, k - 1);
        let rest = candidates_upto(entries, k - 1);
        assert forall|i: int| 0 <= i < k implies (is_candidate(#[trigger] entries[i])
            <==> candidates_upto(entries, k).contains(i)) by {
            if is_candidate(entries[k - 1]) {
                assert(candidates_upto(entries, k) == rest.push(k - 1));
                if i < k - 1 && rest.contains(i) {
                    let a = choose|a: int| 0 <= a < rest.len() && rest[a] == i;
                    assert(rest.push(k - 1)[a] == i);
                }
                if i == k - 1 {
                    assert(rest.push(k - 1)[rest.len() as int] == i);
                }
                if rest.push(k - 1).contains(i) && i < k - 1 {
                    let a = choose|a: int| 0 <= a < rest.len() + 1 && #[trigger] rest.push(k - 1)[a] == i;
                    assert(a < rest.len());
                    assert(rest[a] == i);
                }
            } else {
                if i == k - 1 && rest.contains(i) {
                    let a = choose|a: int| 0 <= a < rest.len() && rest[a] == i;
                }
            }
        }
    }
}

} // verus!
