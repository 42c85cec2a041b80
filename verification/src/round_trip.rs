//! Taking the placeholders out of an index and putting them back gives the
//! index that one started with.

use vstd::prelude::*;
use vstd::seq_lib::{
    lemma_multiset_commutative, to_multiset_build, to_multiset_contains, to_multiset_len,
    to_multiset_remove,
};
use crate::index::{ascending, entry_before, has_stage0, is_stage0_at, placeholder, EntryView};
use crate::intent_to_add::{normalized, normalized_entry, recorded, restored};
use crate::order::{
    keys_unique, lemma_ascending_strictly_sorted, lemma_entry_before_irreflexive,
    lemma_entry_before_transitive, same_key,
};

verus! {

/// What is left of an index when it is written: the entries that are not
/// marked to be left out, in their order.
pub open spec fn written(s: Seq<EntryView>) -> Seq<EntryView>
    decreases s.len(),
{
    if s.len() == 0 {
        Seq::empty()
    } else if s.last().flags.pending_remove {
        written(s.drop_last())
    } else {
        written(s.drop_last()).push(s.last())
    }
}

/// The placeholders of an index, in their order.
pub open spec fn marked(s: Seq<EntryView>) -> Seq<EntryView>
    decreases s.len(),
{
    if s.len() == 0 {
        Seq::empty()
    } else if s.last().flags.intent_to_add {
        marked(s.drop_last()).push(s.last())
    } else {
        marked(s.drop_last())
    }
}

/// Every entry of `s` is free to be written, and every placeholder in it is
/// exactly what a placeholder is: no stat, no content, stage 0.
pub open spec fn pristine(s: Seq<EntryView>) -> bool {
    forall|i: int|
        0 <= i < s.len() ==> !(#[trigger] s[i]).flags.pending_remove && (s[i].flags.intent_to_add
            ==> s[i] == placeholder(s[i].mode, s[i].path))
}

proof fn lemma_parts(s: Seq<EntryView>)
    requires
        pristine(s),
    ensures
        recorded(s) == Seq::new(marked(s).len(), |k: int| (marked(s)[k].mode, marked(s)[k].path)),
        forall|k: int|
            0 <= k < marked(s).len() ==> s.contains(#[trigger] marked(s)[k]) && marked(
                s,
            )[k].flags.intent_to_add,
        forall|k: int|
            0 <= k < written(normalized(s)).len() ==> s.contains(
                #[trigger] written(normalized(s))[k],
            ) && !written(normalized(s))[k].flags.intent_to_add,
        (written(normalized(s)) + marked(s)).to_multiset() == s.to_multiset(),
    decreases s.len(),
{
    let w = written(normalized(s));
    let m = marked(s);
    if s.len() == 0 {
        assert(normalized(s) == Seq::<EntryView>::empty());
        assert(w + m == s);
    } else {
        let t = s.drop_last();
        let x = s.last();
        assert(pristine(t));
        lemma_parts(t);
        assert(normalized(s).drop_last() == normalized(t));
        assert(normalized(s).last() == normalized_entry(x));
        let wt = written(normalized(t));
        let mt = marked(t);
        assert(s == t.push(x));
        to_multiset_build(t, x);
        assert forall|k: int| 0 <= k < m.len() implies s.contains(#[trigger] m[k])
            && m[k].flags.intent_to_add by {
            if k < mt.len() {
                assert(t.contains(mt[k]));
                let i = choose|i: int| 0 <= i < t.len() && t[i] == mt[k];
                assert(s[i] == m[k]);
            } else {
                assert(s[s.len() - 1] == m[k]);
            }
        }
        assert forall|k: int| 0 <= k < w.len() implies s.contains(#[trigger] w[k])
            && !w[k].flags.intent_to_add by {
            if k < wt.len() {
                assert(t.contains(wt[k]));
                let i = choose|i: int| 0 <= i < t.len() && t[i] == wt[k];
                assert(s[i] == w[k]);
            } else {
                assert(s[s.len() - 1] == w[k]);
            }
        }
        if x.flags.intent_to_add {
            assert(w == wt);
            assert(m == mt.push(x));
            assert(w + m == (wt + mt).push(x));
            to_multiset_build(wt + mt, x);
        } else {
            assert(w == wt.push(x));
            assert(m == mt);
            lemma_multiset_commutative(wt.push(x), mt);
            lemma_multiset_commutative(wt, mt);
            to_multiset_build(wt, x);
            assert((w + m).to_multiset() =~= (wt + mt).to_multiset().insert(x));
        }
    }
}

proof fn lemma_marked_keys_unique(s: Seq<EntryView>)
    requires
        keys_unique(s),
    ensures
        keys_unique(marked(s)),
        forall|k: int| 0 <= k < marked(s).len() ==> s.contains(#[trigger] marked(s)[k]),
    decreases s.len(),
{
    if s.len() > 0 {
        let t = s.drop_last();
        let x = s.last();
        assert forall|i: int, j: int| 0 <= i < j < t.len() implies !same_key(
            #[trigger] t[i],
            #[trigger] t[j],
        ) by {
            assert(t[i] == s[i] && t[j] == s[j]);
        }
        lemma_marked_keys_unique(t);
        let m = marked(s);
        let mt = marked(t);
        assert forall|k: int| 0 <= k < m.len() implies s.contains(#[trigger] m[k]) by {
            if k < mt.len() {
                assert(t.contains(mt[k]));
                let i = choose|i: int| 0 <= i < t.len() && t[i] == mt[k];
                assert(s[i] == m[k]);
            } else {
                assert(s[s.len() - 1] == m[k]);
            }
        }
        if x.flags.intent_to_add {
            assert forall|i: int, j: int| 0 <= i < j < m.len() implies !same_key(
                #[trigger] m[i],
                #[trigger] m[j],
            ) by {
                if j == mt.len() {
                    assert(t.contains(mt[i]));
                    let a = choose|a: int| 0 <= a < t.len() && t[a] == mt[i];
                    assert(!same_key(s[a], s[s.len() - 1]));
                } else {
                    assert(!same_key(mt[i], mt[j]));
                }
            }
        }
    }
}

proof fn lemma_restored_appends(base: Seq<EntryView>, m: Seq<EntryView>)
    requires
        keys_unique(m),
        forall|k: int|
            0 <= k < m.len() ==> (#[trigger] m[k]) == placeholder(m[k].mode, m[k].path)
                && !has_stage0(base, m[k].path),
    ensures
        restored(base, Seq::new(m.len(), |k: int| (m[k].mode, m[k].path))) == base + m,
    decreases m.len(),
{
    let info = Seq::new(m.len(), |k: int| (m[k].mode, m[k].path));
    if m.len() == 0 {
        assert(base + m == base);
    } else {
        let mt = m.drop_last();
        let x = m.last();
        assert(info.drop_last() == Seq::new(mt.len(), |k: int| (mt[k].mode, mt[k].path)));
        assert forall|i: int, j: int| 0 <= i < j < mt.len() implies !same_key(
            #[trigger] mt[i],
            #[trigger] mt[j],
        ) by {
            assert(mt[i] == m[i] && mt[j] == m[j]);
        }
        assert forall|k: int| 0 <= k < mt.len() implies (#[trigger] mt[k]) == placeholder(
            mt[k].mode,
            mt[k].path,
        ) && !has_stage0(base, mt[k].path) by {
            assert(mt[k] == m[k]);
        }
        lemma_restored_appends(base, mt);
        let sofar = base + mt;
        if has_stage0(sofar, x.path) {
            let i = choose|i: int| 0 <= i < sofar.len() && is_stage0_at(sofar, i, x.path);
            if i < base.len() {
                assert(is_stage0_at(base, i, x.path));
            } else {
                let k = i - base.len();
                assert(mt[k] == m[k]);
                assert(!same_key(m[k], m[m.len() - 1]));
            }
            assert(false);
        }
        assert(info.last() == (x.mode, x.path));
        assert(sofar.push(x) == base + m);
    }
}

/// The placeholders come back as they were.  Take an index in ascending
/// order whose placeholders are plain placeholders; take them out, write
/// the index, and put them back into what was written: the outcome holds
/// the entries that the index held at the start, each as often.
pub proof fn lemma_normalize_then_restore(s: Seq<EntryView>)
    requires
        ascending(s),
        pristine(s),
    ensures
        restored(written(normalized(s)), recorded(s)).to_multiset() == s.to_multiset(),
{
    lemma_ascending_strictly_sorted(s);
    lemma_parts(s);
    lemma_marked_keys_unique(s);
    let w = written(normalized(s));
    let m = marked(s);
    assert forall|k: int| 0 <= k < m.len() implies (#[trigger] m[k]) == placeholder(
        m[k].mode,
        m[k].path,
    ) && !has_stage0(w, m[k].path) by {
        assert(s.contains(m[k]));
        let a = choose|a: int| 0 <= a < s.len() && s[a] == m[k];
        if has_stage0(w, m[k].path) {
            let i = choose|i: int| 0 <= i < w.len() && is_stage0_at(w, i, m[k].path);
            assert(s.contains(w[i]));
            let b = choose|b: int| 0 <= b < s.len() && s[b] == w[i];
            assert(same_key(s[a], s[b]));
            if a < b {
                assert(!same_key(s[a], s[b]));
            } else if b < a {
                assert(!same_key(s[b], s[a]));
            }
            assert(false);
        }
    }
    lemma_restored_appends(w, m);
}

/// Two indexes in ascending order that hold the same entries are the same
/// index.
pub proof fn lemma_ascending_unique(a: Seq<EntryView>, b: Seq<EntryView>)
    requires
        ascending(a),
        ascending(b),
        a.to_multiset() == b.to_multiset(),
    ensures
        a == b,
    decreases a.len(),
{
    to_multiset_len(a);
    to_multiset_len(b);
    if a.len() == 0 {
        assert(a =~= b);
    } else {
        lemma_ascending_strictly_sorted(a);
        lemma_ascending_strictly_sorted(b);
        to_multiset_contains(a, b[0]);
        to_multiset_contains(b, b[0]);
        to_multiset_contains(b, a[0]);
        to_multiset_contains(a, a[0]);
        assert(b.contains(b[0]));
        assert(a.contains(a[0]));
        assert(a.contains(b[0]));
        assert(b.contains(a[0]));
        let i = choose|i: int| 0 <= i < a.len() && a[i] == b[0];
        let j = choose|j: int| 0 <= j < b.len() && b[j] == a[0];
        if i > 0 && j > 0 {
            assert(entry_before(a[0], a[i]));
            assert(entry_before(b[0], b[j]));
            lemma_entry_before_transitive(a[0], b[0], a[0]);
            lemma_entry_before_irreflexive(a[0], a[0]);
        }
        assert(a[0] == b[0]);
        to_multiset_remove(a, 0);
        to_multiset_remove(b, 0);
        assert(a.remove(0) == a.drop_first());
        assert(b.remove(0) == b.drop_first());
        assert forall|k: int| 0 <= k && k + 1 < a.drop_first().len() implies entry_before(
            #[trigger] a.drop_first()[k],
            a.drop_first()[k + 1],
        ) by {
            assert(entry_before(a[k + 1], a[k + 1 + 1]));
        }
        assert forall|k: int| 0 <= k && k + 1 < b.drop_first().len() implies entry_before(
            #[trigger] b.drop_first()[k],
            b.drop_first()[k + 1],
        ) by {
            assert(entry_before(b[k + 1], b[k + 1 + 1]));
        }
        lemma_ascending_unique(a.drop_first(), b.drop_first());
        assert(a =~= seq![a[0]] + a.drop_first());
        assert(b =~= seq![b[0]] + b.drop_first());
    }
}

/// Acquiring and releasing leaves the index as it was.  If the index of
/// before was in ascending order with plain placeholders, and the index
/// after release is in ascending order and holds what putting the
/// placeholders back into the written index gives, then the two are equal,
/// entry by entry.
pub proof fn lemma_index_round_trip(s: Seq<EntryView>, after: Seq<EntryView>)
    requires
        ascending(s),
        pristine(s),
        ascending(after),
        after.to_multiset() == restored(written(normalized(s)), recorded(s)).to_multiset(),
    ensures
        after == s,
{
    lemma_normalize_then_restore(s);
    lemma_ascending_unique(after, s);
}

} // verus!
