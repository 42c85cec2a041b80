//! The intent-to-add normalizer.
//!
//! A file added with `git add --intent-to-add` has a placeholder in the
//! index: an entry without content.  Hooks must not see placeholders, so
//! before they run every placeholder is marked to be left out of the index
//! and its mode and path are written down; afterwards each one is put back
//! unless something has staged that path in the meantime.

use vstd::prelude::*;
use crate::index::{
    ascending, clear_intent_to_add, entry_count, find_stage0, flags_at, has_stage0, index_entries,
    is_stage0_at, mode_at, path_at, placeholder, push_placeholder, set_pending_remove, sort_entries,
    sorted, validate, with_pending_remove, without_intent_to_add, EntryView, IndexWriteError,
};
use crate::order::{
    keys_unique, lemma_ascending_strictly_sorted, lemma_keys_unique_reordered,
    lemma_sorted_unique_ascending, same_key,
};

verus! {

/// What is kept of a placeholder while it is out of the index.
#[derive(Debug, PartialEq, Eq)]
pub struct RecordedIntentEntry {
    pub mode: u32,
    pub path: Vec<u8>,
}

impl View for RecordedIntentEntry {
    type V = (u32, Seq<u8>);

    open spec fn view(&self) -> (u32, Seq<u8>) {
        (self.mode, self.path@)
    }
}

/// The placeholders taken out of an index, in index order.
#[derive(Debug, PartialEq, Eq)]
pub struct IntentToAdd {
    pub info: Vec<RecordedIntentEntry>,
}

impl View for IntentToAdd {
    type V = Seq<(u32, Seq<u8>)>;

    open spec fn view(&self) -> Seq<(u32, Seq<u8>)> {
        Seq::new(self.info@.len(), |i: int| self.info@[i]@)
    }
}

/// The mode and path of every intent-to-add entry of `s`, in order.
pub open spec fn recorded(s: Seq<EntryView>) -> Seq<(u32, Seq<u8>)>
    decreases s.len(),
{
    if s.len() == 0 {
        Seq::empty()
    } else if s.last().flags.intent_to_add {
        recorded(s.drop_last()).push((s.last().mode, s.last().path))
    } else {
        recorded(s.drop_last())
    }
}

/// An entry as the normalizer leaves it: a placeholder loses its mark and is
/// set to be left out at the next write; any other entry is untouched.
pub open spec fn normalized_entry(e: EntryView) -> EntryView {
    if e.flags.intent_to_add {
        without_intent_to_add(with_pending_remove(e))
    } else {
        e
    }
}

/// The index as the normalizer leaves it.
pub open spec fn normalized(s: Seq<EntryView>) -> Seq<EntryView> {
    Seq::new(s.len(), |i: int| normalized_entry(s[i]))
}

/// The index with the placeholders put back: the recorded entries are taken
/// in order; one whose path has a stage-0 entry by then is passed over, any
/// other is appended as a placeholder.
pub open spec fn restored(s: Seq<EntryView>, info: Seq<(u32, Seq<u8>)>) -> Seq<EntryView>
    decreases info.len(),
{
    if info.len() == 0 {
        s
    } else {
        let sofar = restored(s, info.drop_last());
        if has_stage0(sofar, info.last().1) {
            sofar
        } else {
            sofar.push(placeholder(info.last().0, info.last().1))
        }
    }
}

/// Whether two byte strings are equal.
pub fn same_bytes(a: &[u8], b: &[u8]) -> (r: bool)
    ensures
        r == (a@ == b@),
{
    if a.len() != b.len() {
        return false;
    }
    let mut i: usize = 0;
    while i < a.len()
        invariant
            i <= a.len(),
            a.len() == b.len(),
            forall|k: int| 0 <= k < i ==> a@[k] == b@[k],
        decreases a.len() - i,
    {
        if a[i] != b[i] {
            return false;
        }
        i += 1;
    }
    assert(a@ =~= b@);
    true
}

impl IntentToAdd {
    /// Takes every placeholder out of `idx` and returns what is needed to
    /// put them back, or `None` when the index holds no placeholder (the
    /// index is then as it was, and need not be written).
    pub fn new(idx: &mut gix::index::State) -> (r: Option<IntentToAdd>)
        ensures
            index_entries(*final(idx)) == normalized(index_entries(*old(idx))),
            match r {
                Some(taken) => taken@ == recorded(index_entries(*old(idx))) && taken@.len() > 0,
                None => recorded(index_entries(*old(idx))).len() == 0 && index_entries(*final(idx))
                    == index_entries(*old(idx)),
            },
    {
        let ghost before = index_entries(*idx);
        let mut info: Vec<RecordedIntentEntry> = Vec::new();
        let n = entry_count(idx);
        let mut i: usize = 0;
        while i < n
            invariant
                i <= n,
                n == before.len(),
                index_entries(*idx).len() == n,
                forall|k: int| 0 <= k < i ==> index_entries(*idx)[k] == normalized_entry(before[k]),
                forall|k: int| i <= k < n ==> index_entries(*idx)[k] == before[k],
                Seq::new(info@.len(), |k: int| info@[k]@) == recorded(before.take(i as int)),
                info@.len() == 0 ==> forall|k: int| 0 <= k < i ==> !before[k].flags.intent_to_add,
            decreases n - i,
        {
            let flags = flags_at(idx, i);
            proof {
                assert(before.take(i as int + 1).drop_last() == before.take(i as int));
                assert(before.take(i as int + 1).last() == before[i as int]);
            }
            if flags.intent_to_add {
                let entry = RecordedIntentEntry { mode: mode_at(idx, i), path: path_at(idx, i) };
                let ghost seen = Seq::new(info@.len(), |k: int| info@[k]@);
                info.push(entry);
                assert(Seq::new(info@.len(), |k: int| info@[k]@) == seen.push(
                    (before[i as int].mode, before[i as int].path),
                ));
                set_pending_remove(idx, i);
                clear_intent_to_add(idx, i);
            }
            i += 1;
        }
        proof {
            assert(before.take(n as int) == before);
            assert(index_entries(*idx) == normalized(before));
        }
        if info.len() == 0 {
            assert(index_entries(*idx) == before);
            None
        } else {
            Some(IntentToAdd { info })
        }
    }

    /// Puts the placeholders back into `idx` and sorts it.
    ///
    /// An index that is not in strictly ascending order is refused and left
    /// as it is.  Otherwise every recorded path ends up with a stage-0
    /// entry: the one that the index already held, or else its placeholder;
    /// the index ascends again, so it can be written.
    pub fn restore(&self, idx: &mut gix::index::State) -> (r: Result<(), IndexWriteError>)
        ensures
            match r {
                Ok(()) => {
                    &&& ascending(index_entries(*old(idx)))
                    &&& index_entries(*final(idx)).to_multiset() == restored(
                        index_entries(*old(idx)),
                        self@,
                    ).to_multiset()
                    &&& ascending(index_entries(*final(idx)))
                },
                Err(_) => {
                    &&& !ascending(index_entries(*old(idx)))
                    &&& index_entries(*final(idx)) == index_entries(*old(idx))
                },
            },
    {
        let ghost before = index_entries(*idx);
        let ghost info = self@;
        match validate(idx) {
            Err(e) => {
                return Err(e);
            },
            Ok(()) => {},
        }
        proof {
            lemma_ascending_strictly_sorted(before);
        }
        // The recorded entries that have to come back, by position.
        let mut missing: Vec<usize> = Vec::new();
        let ghost mut tail: Seq<EntryView> = Seq::empty();
        let mut j: usize = 0;
        while j < self.info.len()
            invariant
                j <= self.info@.len(),
                info == self@,
                info.len() == self.info@.len(),
                index_entries(*idx) == before,
                sorted(before),
                missing@.len() == tail.len(),
                forall|k: int| 0 <= k < missing@.len() ==> missing@[k] < j,
                forall|k: int|
                    0 <= k < missing@.len() ==> #[trigger] tail[k] == placeholder(
                        info[missing@[k] as int].0,
                        info[missing@[k] as int].1,
                    ),
                before + tail == restored(before, info.take(j as int)),
            decreases self.info@.len() - j,
        {
            let entry = &self.info[j];
            assert(entry@ == info[j as int]);
            let staged = find_stage0(idx, entry.path.as_slice()).is_some();
            let mut queued = false;
            let mut k: usize = 0;
            while k < missing.len() && !queued
                invariant
                    k <= missing@.len(),
                    j < self.info@.len(),
                    info == self@,
                    entry@ == info[j as int],
                    missing@.len() == tail.len(),
                    forall|m: int| 0 <= m < missing@.len() ==> missing@[m] < j,
                    forall|m: int|
                        0 <= m < missing@.len() ==> #[trigger] tail[m] == placeholder(
                            info[missing@[m] as int].0,
                            info[missing@[m] as int].1,
                        ),
                    queued ==> exists|m: int| 0 <= m < tail.len() && is_stage0_at(tail, m, entry.path@),
                    !queued ==> forall|m: int| 0 <= m < k ==> !is_stage0_at(tail, m, entry.path@),
                decreases missing@.len() - k + (if queued { 0int } else { 1int }),
            {
                let other = &self.info[missing[k]];
                assert(other@ == info[missing@[k as int] as int]);
                assert(tail[k as int].path == other.path@);
                if same_bytes(other.path.as_slice(), entry.path.as_slice()) {
                    assert(is_stage0_at(tail, k as int, entry.path@));
                    queued = true;
                } else {
                    k += 1;
                }
            }
            proof {
                lemma_has_stage0_concat(before, tail, entry.path@);
                assert(info.take(j as int + 1).drop_last() == info.take(j as int));
                assert(info.take(j as int + 1).last() == info[j as int]);
            }
            if !staged && !queued {
                missing.push(j);
                proof {
                    let added = placeholder(info[j as int].0, info[j as int].1);
                    assert(before + tail.push(added) == (before + tail).push(added));
                    tail = tail.push(added);
                }
            }
            j += 1;
        }
        assert(info.take(j as int) == info);
        let mut k: usize = 0;
        while k < missing.len()
            invariant
                k <= missing@.len(),
                info == self@,
                info.len() == self.info@.len(),
                missing@.len() == tail.len(),
                forall|m: int| 0 <= m < missing@.len() ==> missing@[m] < info.len(),
                forall|m: int|
                    0 <= m < missing@.len() ==> #[trigger] tail[m] == placeholder(
                        info[missing@[m] as int].0,
                        info[missing@[m] as int].1,
                    ),
                index_entries(*idx) == before + tail.take(k as int),
            decreases missing@.len() - k,
        {
            let entry = &self.info[missing[k]];
            assert(entry@ == info[missing@[k as int] as int]);
            push_placeholder(idx, entry.mode, entry.path.as_slice());
            proof {
                assert(tail.take(k as int + 1) == tail.take(k as int).push(tail[k as int]));
                assert(before + tail.take(k as int).push(tail[k as int]) == (before + tail.take(
                    k as int,
                )).push(tail[k as int]));
            }
            k += 1;
        }
        assert(tail.take(k as int) == tail);
        let ghost target = restored(before, info);
        assert(index_entries(*idx) == target);
        sort_entries(idx);
        proof {
            lemma_restored_keys_unique(before, info);
            lemma_keys_unique_reordered(index_entries(*idx), target);
            lemma_sorted_unique_ascending(index_entries(*idx));
        }
        validate(idx)
    }
}

/// A path has a stage-0 entry in `a + b` exactly if it has one in `a` or
/// in `b`.
pub proof fn lemma_has_stage0_concat(a: Seq<EntryView>, b: Seq<EntryView>, path: Seq<u8>)
    ensures
        has_stage0(a + b, path) <==> has_stage0(a, path) || has_stage0(b, path),
{
    if has_stage0(a + b, path) {
        let i = choose|i: int| 0 <= i < (a + b).len() && is_stage0_at(a + b, i, path);
        if i < a.len() {
            assert(is_stage0_at(a, i, path));
        } else {
            assert(is_stage0_at(b, i - a.len(), path));
        }
    }
    if has_stage0(a, path) {
        let i = choose|i: int| 0 <= i < a.len() && is_stage0_at(a, i, path);
        assert(is_stage0_at(a + b, i, path));
    }
    if has_stage0(b, path) {
        let i = choose|i: int| 0 <= i < b.len() && is_stage0_at(b, i, path);
        assert(is_stage0_at(a + b, i + a.len(), path));
    }
}

/// Putting placeholders back never makes a path occur twice at one stage.
pub proof fn lemma_restored_keys_unique(s: Seq<EntryView>, info: Seq<(u32, Seq<u8>)>)
    requires
        keys_unique(s),
    ensures
        keys_unique(restored(s, info)),
    decreases info.len(),
{
    if info.len() > 0 {
        lemma_restored_keys_unique(s, info.drop_last());
        let sofar = restored(s, info.drop_last());
        let path = info.last().1;
        if !has_stage0(sofar, path) {
            let added = placeholder(info.last().0, path);
            let all = sofar.push(added);
            assert forall|i: int, j: int| 0 <= i < j < all.len() implies !same_key(
                #[trigger] all[i],
                #[trigger] all[j],
            ) by {
                if j == sofar.len() {
                    assert(!is_stage0_at(sofar, i, path));
                }
            }
        }
    }
}

/// Putting placeholders back leaves what the index holds as it is: the
/// entries of before come first, unchanged, so whatever was staged in the
/// meantime is not overwritten.
pub proof fn lemma_restored_keeps_entries(s: Seq<EntryView>, info: Seq<(u32, Seq<u8>)>)
    ensures
        s.len() <= restored(s, info).len() <= s.len() + info.len(),
        restored(s, info).take(s.len() as int) == s,
    decreases info.len(),
{
    if info.len() > 0 {
        lemma_restored_keeps_entries(s, info.drop_last());
        let sofar = restored(s, info.drop_last());
        let added = placeholder(info.last().0, info.last().1);
        assert(sofar.push(added).take(s.len() as int) == sofar.take(s.len() as int));
    } else {
        assert(s.take(s.len() as int) == s);
    }
}

/// What is put back is a placeholder of a recorded entry, with the mode and
/// the path that were recorded, for a path that had no stage-0 entry.
pub proof fn lemma_restored_adds_placeholders(
    s: Seq<EntryView>,
    info: Seq<(u32, Seq<u8>)>,
    i: int,
)
    requires
        s.len() <= i < restored(s, info).len(),
    ensures
        exists|k: int|
            0 <= k < info.len() && restored(s, info)[i] == placeholder(
                (#[trigger] info[k]).0,
                info[k].1,
            ) && !has_stage0(s, info[k].1),
    decreases info.len(),
{
    if info.len() > 0 {
        let sofar = restored(s, info.drop_last());
        lemma_restored_keeps_entries(s, info.drop_last());
        if i < sofar.len() {
            lemma_restored_adds_placeholders(s, info.drop_last(), i);
            let k = choose|k: int|
                0 <= k < info.drop_last().len() && sofar[i] == placeholder(
                    (#[trigger] info.drop_last()[k]).0,
                    info.drop_last()[k].1,
                ) && !has_stage0(s, info.drop_last()[k].1);
            assert(info[k] == info.drop_last()[k]);
        } else {
            let k = info.len() - 1;
            assert(!has_stage0(sofar, info[k].1));
            if has_stage0(s, info[k].1) {
                let j = choose|j: int| 0 <= j < s.len() && is_stage0_at(s, j, info[k].1);
                assert(sofar.take(s.len() as int)[j] == sofar[j]);
                assert(is_stage0_at(sofar, j, info[k].1));
            }
        }
    }
}

/// After the placeholders are put back every recorded path has a stage-0
/// entry.
pub proof fn lemma_restored_covers(s: Seq<EntryView>, info: Seq<(u32, Seq<u8>)>, k: int)
    requires
        0 <= k < info.len(),
    ensures
        has_stage0(restored(s, info), info[k].1),
    decreases info.len(),
{
    let sofar = restored(s, info.drop_last());
    let all = restored(s, info);
    if k < info.len() - 1 {
        lemma_restored_covers(s, info.drop_last(), k);
        assert(info.drop_last()[k] == info[k]);
        let j = choose|j: int| 0 <= j < sofar.len() && is_stage0_at(sofar, j, info[k].1);
        assert(is_stage0_at(all, j, info[k].1));
    } else if !has_stage0(sofar, info[k].1) {
        assert(is_stage0_at(all, sofar.len() as int, info[k].1));
    }
}

/// A recorded placeholder comes back as it was recorded, with its mode, its
/// path and the flags of a placeholder, unless its path was staged in the
/// meantime.  (Of several recorded entries with one path the first counts.)
pub proof fn lemma_restored_placeholder(s: Seq<EntryView>, info: Seq<(u32, Seq<u8>)>, k: int)
    requires
        0 <= k < info.len(),
        !has_stage0(s, info[k].1),
        forall|j: int| 0 <= j < k ==> (#[trigger] info[j]).1 != info[k].1,
    ensures
        restored(s, info).contains(placeholder(info[k].0, info[k].1)),
    decreases info.len(),
{
    let sofar = restored(s, info.drop_last());
    let all = restored(s, info);
    let wanted = placeholder(info[k].0, info[k].1);
    if k < info.len() - 1 {
        assert(info.drop_last()[k] == info[k]);
        assert forall|j: int| 0 <= j < k implies (#[trigger] info.drop_last()[j]).1
            != info.drop_last()[k].1 by {
            assert(info.drop_last()[j] == info[j]);
        }
        lemma_restored_placeholder(s, info.drop_last(), k);
        let i = choose|i: int| 0 <= i < sofar.len() && sofar[i] == wanted;
        assert(all[i] == wanted);
    } else {
        if has_stage0(sofar, info[k].1) {
            let i = choose|i: int| 0 <= i < sofar.len() && is_stage0_at(sofar, i, info[k].1);
            lemma_restored_keeps_entries(s, info.drop_last());
            if i < s.len() {
                assert(sofar.take(s.len() as int)[i] == sofar[i]);
                assert(is_stage0_at(s, i, info[k].1));
            } else {
                lemma_restored_adds_placeholders(s, info.drop_last(), i);
                let j = choose|j: int|
                    0 <= j < info.drop_last().len() && sofar[i] == placeholder(
                        (#[trigger] info.drop_last()[j]).0,
                        info.drop_last()[j].1,
                    ) && !has_stage0(s, info.drop_last()[j].1);
                assert(info.drop_last()[j] == info[j]);
                assert(info[j].1 == info[k].1);
            }
            assert(false);
        }
        assert(all[sofar.len() as int] == wanted);
    }
}

} // verus!
