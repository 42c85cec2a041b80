//! The order of the index and what follows from it.
//!
//! Entries are ordered by path, byte by byte, and then by stage.  The
//! lemmas here show that this is a strict total order on (path, stage)
//! pairs, that an index whose neighbours ascend holds each pair once, and
//! that sorting an index whose pairs are distinct makes it ascend.

use vstd::prelude::*;
use crate::index::{ascending, entry_before, path_before, sorted, EntryView};

verus! {

/// Two entries name the same path at the same stage.
pub open spec fn same_key(a: EntryView, b: EntryView) -> bool {
    a.path == b.path && a.flags.stage == b.flags.stage
}

/// No (path, stage) pair occurs twice.
pub open spec fn keys_unique(s: Seq<EntryView>) -> bool {
    forall|i: int, j: int| 0 <= i < j < s.len() ==> !same_key(#[trigger] s[i], #[trigger] s[j])
}

/// Every entry stands strictly before every later one.
pub open spec fn strictly_sorted(s: Seq<EntryView>) -> bool {
    forall|i: int, j: int| 0 <= i < j < s.len() ==> entry_before(#[trigger] s[i], #[trigger] s[j])
}

/// No path stands before itself.
pub proof fn lemma_path_before_irreflexive(a: Seq<u8>)
    ensures
        !path_before(a, a),
    decreases a.len(),
{
    if a.len() > 0 {
        lemma_path_before_irreflexive(a.drop_first());
    }
}

/// If `a` stands before `b` and `b` before `c`, then `a` stands before `c`.
pub proof fn lemma_path_before_transitive(a: Seq<u8>, b: Seq<u8>, c: Seq<u8>)
    requires
        path_before(a, b),
        path_before(b, c),
    ensures
        path_before(a, c),
    decreases a.len(),
{
    if a.len() > 0 && b.len() > 0 && c.len() > 0 && a[0] == b[0] && b[0] == c[0] {
        lemma_path_before_transitive(a.drop_first(), b.drop_first(), c.drop_first());
    }
}

/// Of two different paths one stands before the other.
pub proof fn lemma_path_before_total(a: Seq<u8>, b: Seq<u8>)
    ensures
        a == b || path_before(a, b) || path_before(b, a),
    decreases a.len(),
{
    if a.len() == 0 || b.len() == 0 {
        if a.len() == 0 && b.len() == 0 {
            assert(a =~= b);
        }
    } else if a[0] == b[0] {
        lemma_path_before_total(a.drop_first(), b.drop_first());
        if a.drop_first() == b.drop_first() {
            assert(a =~= seq![a[0]] + a.drop_first());
            assert(b =~= seq![b[0]] + b.drop_first());
        }
    }
}

/// No entry stands before one with the same path and stage.
pub proof fn lemma_entry_before_irreflexive(a: EntryView, b: EntryView)
    requires
        same_key(a, b),
    ensures
        !entry_before(a, b),
{
    lemma_path_before_irreflexive(a.path);
}

/// The order of entries is transitive.
pub proof fn lemma_entry_before_transitive(a: EntryView, b: EntryView, c: EntryView)
    requires
        entry_before(a, b),
        entry_before(b, c),
    ensures
        entry_before(a, c),
{
    if path_before(a.path, b.path) && path_before(b.path, c.path) {
        lemma_path_before_transitive(a.path, b.path, c.path);
    }
}

/// Of two entries that differ in path or stage one stands before the other.
pub proof fn lemma_entry_before_total(a: EntryView, b: EntryView)
    ensures
        same_key(a, b) || entry_before(a, b) || entry_before(b, a),
{
    lemma_path_before_total(a.path, b.path);
}

/// An index whose neighbours ascend is strictly sorted throughout: the
/// entries are in order and no path occurs twice at one stage.
pub proof fn lemma_ascending_strictly_sorted(s: Seq<EntryView>)
    requires
        ascending(s),
    ensures
        strictly_sorted(s),
        sorted(s),
        keys_unique(s),
{
    assert forall|i: int, j: int| 0 <= i < j < s.len() implies entry_before(
        #[trigger] s[i],
        #[trigger] s[j],
    ) by {
        lemma_ascending_pair(s, i, j);
    }
    assert forall|i: int, j: int| 0 <= i < j < s.len() implies !entry_before(
        #[trigger] s[j],
        #[trigger] s[i],
    ) by {
        if entry_before(s[j], s[i]) {
            lemma_entry_before_transitive(s[i], s[j], s[i]);
            lemma_entry_before_irreflexive(s[i], s[i]);
        }
    }
    assert forall|i: int, j: int| 0 <= i < j < s.len() implies !same_key(
        #[trigger] s[i],
        #[trigger] s[j],
    ) by {
        if same_key(s[i], s[j]) {
            lemma_entry_before_irreflexive(s[i], s[j]);
        }
    }
}

proof fn lemma_ascending_pair(s: Seq<EntryView>, i: int, j: int)
    requires
        ascending(s),
        0 <= i < j < s.len(),
    ensures
        entry_before(s[i], s[j]),
    decreases j - i,
{
    if j == i + 1 {
    } else {
        lemma_ascending_pair(s, i, j - 1);
        assert(entry_before(s[j - 1], s[j - 1 + 1]));
        lemma_entry_before_transitive(s[i], s[j - 1], s[j]);
    }
}

/// A sorted index in which no path occurs twice at one stage ascends.
pub proof fn lemma_sorted_unique_ascending(s: Seq<EntryView>)
    requires
        sorted(s),
        keys_unique(s),
    ensures
        ascending(s),
{
    assert forall|i: int| 0 <= i && i + 1 < s.len() implies entry_before(
        #[trigger] s[i],
        s[i + 1],
    ) by {
        lemma_entry_before_total(s[i], s[i + 1]);
        assert(!entry_before(s[i + 1], s[i]));
        assert(!same_key(s[i], s[i + 1]));
    }
}

/// Reordering an index keeps its (path, stage) pairs distinct.
pub proof fn lemma_keys_unique_reordered(s: Seq<EntryView>, t: Seq<EntryView>)
    requires
        s.to_multiset() == t.to_multiset(),
        keys_unique(t),
    ensures
        keys_unique(s),
{
    broadcast use vstd::seq_lib::group_to_multiset_ensures;

    assert(t.no_duplicates()) by {
        assert forall|i: int, j: int| 0 <= i < t.len() && 0 <= j < t.len() && i != j implies t[i]
            != t[j] by {
            if i < j {
                assert(!same_key(t[i], t[j]));
            } else {
                assert(!same_key(t[j], t[i]));
            }
        }
    }
    t.lemma_multiset_has_no_duplicates();
    s.lemma_multiset_has_no_duplicates_conv();
    assert forall|i: int, j: int| 0 <= i < j < s.len() implies !same_key(
        #[trigger] s[i],
        #[trigger] s[j],
    ) by {
        assert(s[i] != s[j]);
        assert(s.contains(s[i]));
        assert(s.contains(s[j]));
        assert(t.to_multiset().count(s[i]) > 0);
        assert(t.to_multiset().count(s[j]) > 0);
        assert(t.contains(s[i]));
        assert(t.contains(s[j]));
        let a = choose|a: int| 0 <= a < t.len() && t[a] == s[i];
        let b = choose|b: int| 0 <= b < t.len() && t[b] == s[j];
        if a < b {
            assert(!same_key(t[a], t[b]));
        } else {
            assert(!same_key(t[b], t[a]));
        }
    }
}

} // verus!
