//! Narrowing the candidates down to those whose label contains the query.

use crate::file_match::{match_models, FileMatch};
use crate::model::{matches_query, visible_for, FileMatchModel};
use crate::text::{contains, is_substring, lowercased, to_lowercase};
use vstd::prelude::*;

verus! {

/// The character sequences of a list of strings, in order.
pub open spec fn label_views(labels: Seq<String>) -> Seq<Seq<char>> {
    labels.map_values(|s: String| s@)
}

/// The candidates whose key contains `needle`, in their given order. The
/// key of the candidate at position `i` is `keys[i]`; a candidate without a
/// key is left out.
pub open spec fn kept_by(
    entries: Seq<FileMatchModel>,
    keys: Seq<Seq<char>>,
    needle: Seq<char>,
) -> Seq<FileMatchModel>
    decreases entries.len(),
{
    if entries.len() == 0 {
        Seq::empty()
    } else {
        let front = kept_by(entries.drop_last(), keys, needle);
        let last = entries.len() - 1;
        if last < keys.len() && is_substring(needle, keys[last]) {
            front.push(entries.last())
        } else {
            front
        }
    }
}

/// Keying each candidate by its lowercased label and searching for the
/// lowercased query gives the candidates shown for a non-empty query.
pub proof fn lemma_kept_by_lowercased(
    entries: Seq<FileMatchModel>,
    keys: Seq<Seq<char>>,
    query: Seq<char>,
)
    requires
        query.len() > 0,
        entries.len() <= keys.len(),
        forall|i: int|
            0 <= i < entries.len() ==> #[trigger] keys[i] == lowercased(entries[i].display_text),
    ensures
        kept_by(entries, keys, lowercased(query)) == visible_for(entries, query),
    decreases entries.len(),
{
    reveal(Seq::filter);
    if entries.len() > 0 {
        let front = entries.drop_last();
        assert forall|i: int| 0 <= i < front.len() implies #[trigger] keys[i] == lowercased(
            front[i].display_text,
        ) by {
            assert(front[i] == entries[i]);
        }
        lemma_kept_by_lowercased(front, keys, query);
        let last = entries.len() - 1;
        assert(keys[last] == lowercased(entries[last].display_text));
        assert(matches_query(entries.last().display_text, query) == is_substring(
            lowercased(query),
            keys[last],
        ));
    }
}

/// The lowercased labels of the candidates, in order.
pub fn lowercased_labels(entries: &Vec<FileMatch>) -> (keys: Vec<String>)
    ensures
        keys.len() == entries.len(),
        forall|i: int|
            0 <= i < entries.len() ==> #[trigger] keys[i]@ == lowercased(entries[i].display_text@),
{
    let mut keys: Vec<String> = Vec::new();
    let mut i: usize = 0;
    while i < entries.len()
        invariant
            i <= entries.len(),
            keys.len() == i,
            forall|j: int| 0 <= j < i ==> #[trigger] keys[j]@ == lowercased(entries[j].display_text@),
        decreases entries.len() - i,
    {
        keys.push(to_lowercase(entries[i].display_text.as_str()));
        i += 1;
    }
    keys
}

/// Copies of the candidates whose key contains `needle`, in their given
/// order. The key of `entries[i]` is `keys[i]`; a candidate without a key is
/// left out.
pub fn retain_containing(entries: &Vec<FileMatch>, keys: &Vec<String>, needle: &str) -> (kept: Vec<
    FileMatch,
>)
    ensures
        match_models(kept@) == kept_by(match_models(entries@), label_views(keys@), needle@),
{
    let mut kept: Vec<FileMatch> = Vec::new();
    let mut i: usize = 0;
    assert(entries@.subrange(0, 0) == Seq::<FileMatch>::empty());
    assert(match_models(kept@) == Seq::<FileMatchModel>::empty());
    while i < entries.len()
        invariant
            i <= entries.len(),
            match_models(kept@) == kept_by(
                match_models(entries@.subrange(0, i as int)),
                label_views(keys@),
                needle@,
            ),
        decreases entries.len() - i,
    {
        let ghost before = match_models(entries@.subrange(0, i as int));
        let ghost after = match_models(entries@.subrange(0, i as int + 1));
        proof {
            assert(after.drop_last() == before);
            assert(after.last() == entries@[i as int]@);
        }
        if i < keys.len() && contains(keys[i].as_str(), needle) {
            let entry = entries[i].clone();
            proof {
                assert(match_models(kept@.push(entry)) == match_models(kept@).push(entry@));
            }
            kept.push(entry);
        }
        i += 1;
    }
    assert(entries@.subrange(0, i as int) == entries@);
    kept
}

} // verus!
