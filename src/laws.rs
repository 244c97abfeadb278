use vstd::prelude::*;

use crate::saucenao::{first_link, sauce_items, ApiEntry};

verus! {

/// An entry in its mathematical form: its similarity text and its external
/// addresses.
pub open spec fn entry_view(e: ApiEntry) -> (Seq<char>, Option<Seq<Seq<char>>>) {
    (
        e.similarity@,
        match e.ext_urls {
            Some(v) => Some(v@.map_values(|s: String| s@)),
            None => None,
        },
    )
}

/// Replies that read the same give the same result: two lists of entries
/// whose texts agree give the same items, or both fail.
pub proof fn lemma_entries_determine_items(a: Seq<ApiEntry>, b: Seq<ApiEntry>)
    requires
        a.len() == b.len(),
        forall|i: int| 0 <= i < a.len() ==> entry_view(#[trigger] a[i]) == entry_view(b[i]),
    ensures
        sauce_items(a) == sauce_items(b),
    decreases a.len(),
{
    if a.len() > 0 {
        let (a0, b0) = (a.drop_last(), b.drop_last());
        assert forall|i: int| 0 <= i < a0.len() implies entry_view(#[trigger] a0[i]) == entry_view(
            b0[i],
        ) by {
            assert(a0[i] == a[i] && b0[i] == b[i]);
        }
        lemma_entries_determine_items(a0, b0);
        let (x, y) = (a.last(), b.last());
        assert(entry_view(x) == entry_view(y));
        assert(first_link(x) == first_link(y)) by {
            if let Some(v) = x.ext_urls {
                let w = y.ext_urls->Some_0;
                assert(v@.map_values(|s: String| s@) == w@.map_values(|s: String| s@));
                assert(v@.len() == v@.map_values(|s: String| s@).len());
                assert(w@.len() == w@.map_values(|s: String| s@).len());
                if v@.len() > 0 {
                    assert(v@.map_values(|s: String| s@)[0] == v@[0]@);
                    assert(w@.map_values(|s: String| s@)[0] == w@[0]@);
                }
            }
        }
    }
}

} // verus!
