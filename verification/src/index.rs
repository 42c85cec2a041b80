//! The staging index as this library sees it: a sequence of entries, each a
//! path, a mode, a content reference, a few named flags and stat metadata.
//!
//! The index itself is `gix::index::State`.  Nothing inside it is visible to
//! the verifier, so this module names its contents ([`index_entries`]) and
//! states, for each `gix` method the library calls, what that method does to
//! them.  Those statements are believed, not proved; everything else in the
//! crate is proved from them.

use vstd::prelude::*;

verus! {

/// `gix::index::State`, carried through verified code as an opaque value.
#[verifier::external_type_specification]
#[verifier::external_body]
pub struct ExIndexState(gix::index::State);

/// `gix::Error`, the error that `gix` reports for a malformed index.
#[verifier::external_type_specification]
#[verifier::external_body]
pub struct ExGixError(gix::Error);

/// File-system metadata stored with an entry.
#[derive(Clone, Copy, Debug, PartialEq, Eq, Structural)]
pub struct Stat {
    pub mtime_secs: u32,
    pub mtime_nsecs: u32,
    pub ctime_secs: u32,
    pub ctime_nsecs: u32,
    pub dev: u32,
    pub ino: u32,
    pub uid: u32,
    pub gid: u32,
    pub size: u32,
}

/// The flags of an entry that this library reads or changes.
#[derive(Clone, Copy, Debug, PartialEq, Eq, Structural)]
pub struct EntryFlags {
    /// Conflict stage, 0 to 3; 0 means "not in conflict".
    pub stage: u8,
    /// The entry is a placeholder made by `git add --intent-to-add`.
    pub intent_to_add: bool,
    /// Extended flags are stored with the entry.
    pub extended: bool,
    /// The entry is skipped when the index is written.
    pub pending_remove: bool,
}

/// One entry of the index.
#[derive(Debug, PartialEq, Eq)]
pub struct IndexEntry {
    /// Repository-relative path, as bytes.
    pub path: Vec<u8>,
    /// File type and permission bits.
    pub mode: u32,
    /// Hash of the blob the entry refers to.
    pub id: Vec<u8>,
    pub flags: EntryFlags,
    pub stat: Stat,
}

/// The mathematical value of an [`IndexEntry`].
pub struct EntryView {
    pub path: Seq<u8>,
    pub mode: u32,
    pub id: Seq<u8>,
    pub flags: EntryFlags,
    pub stat: Stat,
}

impl View for IndexEntry {
    type V = EntryView;

    open spec fn view(&self) -> EntryView {
        EntryView {
            path: self.path@,
            mode: self.mode,
            id: self.id@,
            flags: self.flags,
            stat: self.stat,
        }
    }
}

/// Stat metadata with every field zero.
pub open spec fn zero_stat() -> Stat {
    Stat {
        mtime_secs: 0,
        mtime_nsecs: 0,
        ctime_secs: 0,
        ctime_nsecs: 0,
        dev: 0,
        ino: 0,
        uid: 0,
        gid: 0,
        size: 0,
    }
}

/// The SHA-1 name of the blob without content.
pub open spec fn empty_blob_id() -> Seq<u8> {
    seq![
        0xe6u8, 0x9d, 0xe2, 0x9b, 0xb2, 0xd1, 0xd6, 0x43, 0x4b, 0x8b,
        0x29, 0xae, 0x77, 0x5a, 0xd8, 0xc2, 0xe4, 0x8c, 0x53, 0x91,
    ]
}

/// The flags of an intent-to-add placeholder: stage 0, extended, intent-to-add.
pub open spec fn placeholder_flags() -> EntryFlags {
    EntryFlags { stage: 0, intent_to_add: true, extended: true, pending_remove: false }
}

/// The placeholder that stands for "this path will be added": no stat, no
/// content, and the flags that tell it apart from a staged file.
pub open spec fn placeholder(mode: u32, path: Seq<u8>) -> EntryView {
    EntryView { path, mode, id: empty_blob_id(), flags: placeholder_flags(), stat: zero_stat() }
}

/// Byte-wise lexicographic order on paths, strict.
pub open spec fn path_before(a: Seq<u8>, b: Seq<u8>) -> bool
    decreases a.len(),
{
    if b.len() == 0 {
        false
    } else if a.len() == 0 {
        true
    } else if a[0] != b[0] {
        a[0] < b[0]
    } else {
        path_before(a.drop_first(), b.drop_first())
    }
}

/// The order of the index: by path, then by stage.
pub open spec fn entry_before(a: EntryView, b: EntryView) -> bool {
    path_before(a.path, b.path) || (a.path == b.path && a.flags.stage < b.flags.stage)
}

/// No entry stands after one that should follow it.
pub open spec fn sorted(s: Seq<EntryView>) -> bool {
    forall|i: int, j: int| 0 <= i < j < s.len() ==> !entry_before(#[trigger] s[j], #[trigger] s[i])
}

/// Each entry stands strictly before its successor.
pub open spec fn ascending(s: Seq<EntryView>) -> bool {
    forall|i: int| 0 <= i && i + 1 < s.len() ==> entry_before(#[trigger] s[i], s[i + 1])
}

/// Some entry of `s` has this path at stage 0.
pub open spec fn has_stage0(s: Seq<EntryView>, path: Seq<u8>) -> bool {
    exists|i: int| 0 <= i < s.len() && is_stage0_at(s, i, path)
}

/// Entry `i` of `s` has this path at stage 0.
pub open spec fn is_stage0_at(s: Seq<EntryView>, i: int, path: Seq<u8>) -> bool {
    s[i].path == path && s[i].flags.stage == 0
}

/// The entries that an index holds, in the order in which it holds them.
pub uninterp spec fn index_entries(idx: gix::index::State) -> Seq<EntryView>;

/// Number of entries in the index.
///
/// Trusted: the slice that `gix::index::State::entries` returns is as long
/// as [`index_entries`].
#[verifier::external_body]
pub(crate) fn entry_count(idx: &gix::index::State) -> (n: usize)
    ensures
        n == index_entries(*idx).len(),
{
    idx.entries().len()
}

/// The flags of entry `i`.
///
/// Trusted: `Entry::stage_raw` and `Flags::contains` read the stage bits and
/// the `INTENT_TO_ADD`, `EXTENDED` and `REMOVE` bits of the entry that
/// `State::entry` returns; these are the flags of [`index_entries`] at `i`.
/// `State::entry` panics past the end, hence the bound.
#[verifier::external_body]
pub(crate) fn flags_at(idx: &gix::index::State, i: usize) -> (f: EntryFlags)
    requires
        i < index_entries(*idx).len(),
    ensures
        f == index_entries(*idx)[i as int].flags,
{
    let e = idx.entry(i);
    EntryFlags {
        stage: e.stage_raw() as u8,
        intent_to_add: e.flags.contains(gix::index::entry::Flags::INTENT_TO_ADD),
        extended: e.flags.contains(gix::index::entry::Flags::EXTENDED),
        pending_remove: e.flags.contains(gix::index::entry::Flags::REMOVE),
    }
}

/// The mode of entry `i`, as its bits.
///
/// Trusted: `Mode::bits` of the entry that `State::entry` returns is the
/// mode of [`index_entries`] at `i`.
#[verifier::external_body]
pub(crate) fn mode_at(idx: &gix::index::State, i: usize) -> (m: u32)
    requires
        i < index_entries(*idx).len(),
    ensures
        m == index_entries(*idx)[i as int].mode,
{
    idx.entry(i).mode.bits()
}

/// The path of entry `i`, copied.
///
/// Trusted: the bytes that `Entry::path` returns for the entry that
/// `State::entry` returns are the path of [`index_entries`] at `i`.
#[verifier::external_body]
pub(crate) fn path_at(idx: &gix::index::State, i: usize) -> (p: Vec<u8>)
    requires
        i < index_entries(*idx).len(),
    ensures
        p@ == index_entries(*idx)[i as int].path,
{
    idx.entry(i).path(idx).to_vec()
}

/// The content reference of entry `i`, copied.
///
/// Trusted: the bytes that `ObjectId::as_bytes` returns for the entry that
/// `State::entry` returns are the id of [`index_entries`] at `i`.
#[verifier::external_body]
pub(crate) fn id_at(idx: &gix::index::State, i: usize) -> (id: Vec<u8>)
    requires
        i < index_entries(*idx).len(),
    ensures
        id@ == index_entries(*idx)[i as int].id,
{
    idx.entry(i).id.as_bytes().to_vec()
}

/// The stat metadata of entry `i`.
///
/// Trusted: the fields of `Entry::stat`, for the entry that `State::entry`
/// returns, are the stat of [`index_entries`] at `i`.
#[verifier::external_body]
pub(crate) fn stat_at(idx: &gix::index::State, i: usize) -> (st: Stat)
    requires
        i < index_entries(*idx).len(),
    ensures
        st == index_entries(*idx)[i as int].stat,
{
    let s = &idx.entry(i).stat;
    Stat {
        mtime_secs: s.mtime.secs,
        mtime_nsecs: s.mtime.nsecs,
        ctime_secs: s.ctime.secs,
        ctime_nsecs: s.ctime.nsecs,
        dev: s.dev,
        ino: s.ino,
        uid: s.uid,
        gid: s.gid,
        size: s.size,
    }
}

/// Marks entry `i` so that writing the index leaves it out.
///
/// Trusted: `Flags::set(Flags::REMOVE, true)` on the entry's flags sets
/// that one bit; no other entry and no other part of entry `i` changes.
/// Indexing the slice of `State::entries_mut` panics past the end.
#[verifier::external_body]
pub(crate) fn set_pending_remove(idx: &mut gix::index::State, i: usize)
    requires
        i < index_entries(*old(idx)).len(),
    ensures
        index_entries(*final(idx)) == index_entries(*old(idx)).update(
            i as int,
            with_pending_remove(index_entries(*old(idx))[i as int]),
        ),
{
    idx.entries_mut()[i].flags.set(gix::index::entry::Flags::REMOVE, true);
}

/// Takes the intent-to-add mark off entry `i`.
///
/// Trusted: `Flags::remove(Flags::INTENT_TO_ADD)` on the entry's flags
/// clears that one bit; no other entry and no other part of entry `i`
/// changes.
#[verifier::external_body]
pub(crate) fn clear_intent_to_add(idx: &mut gix::index::State, i: usize)
    requires
        i < index_entries(*old(idx)).len(),
    ensures
        index_entries(*final(idx)) == index_entries(*old(idx)).update(
            i as int,
            without_intent_to_add(index_entries(*old(idx))[i as int]),
        ),
{
    idx.entries_mut()[i].flags.remove(gix::index::entry::Flags::INTENT_TO_ADD);
}

/// `e`, marked to be left out when the index is written.
pub open spec fn with_pending_remove(e: EntryView) -> EntryView {
    EntryView { flags: EntryFlags { pending_remove: true, ..e.flags }, ..e }
}

/// `e` without the intent-to-add mark.
pub open spec fn without_intent_to_add(e: EntryView) -> EntryView {
    EntryView { flags: EntryFlags { intent_to_add: false, ..e.flags }, ..e }
}

/// Looks for the stage-0 entry of `path`.
///
/// Trusted, of `State::entry_index_by_path_and_stage` with
/// `Stage::Unconflicted`: it searches by bisection, so the claim is made for
/// a sorted index only.  There, an index it returns is in range and names
/// an entry with this path at stage 0, and it returns none only when no
/// such entry exists.
#[verifier::external_body]
pub(crate) fn find_stage0(idx: &gix::index::State, path: &[u8]) -> (r: Option<usize>)
    ensures
        sorted(index_entries(*idx)) ==> match r {
            Some(i) => i < index_entries(*idx).len() && is_stage0_at(
                index_entries(*idx),
                i as int,
                path@,
            ),
            None => !has_stage0(index_entries(*idx), path@),
        },
{
    idx.entry_index_by_path_and_stage(path.into(), gix::index::entry::Stage::Unconflicted)
}

/// Appends the placeholder for `path` with `mode`.
///
/// Trusted, of `State::dangerously_push_entry`: it appends one entry made of
/// its arguments and changes nothing else.  The arguments are the default
/// `Stat` (all zero), `ObjectId::empty_blob` for SHA-1, the flags `EXTENDED`
/// and `INTENT_TO_ADD`, `Mode::from_bits_retain(mode)` and `path`; as an
/// entry this is [`placeholder`].
#[verifier::external_body]
pub(crate) fn push_placeholder(idx: &mut gix::index::State, mode: u32, path: &[u8])
    ensures
        index_entries(*final(idx)) == index_entries(*old(idx)).push(placeholder(mode, path@)),
{
    idx.dangerously_push_entry(
        Default::default(),
        gix::ObjectId::empty_blob(gix::hash::Kind::Sha1),
        gix::index::entry::Flags::EXTENDED | gix::index::entry::Flags::INTENT_TO_ADD,
        gix::index::entry::Mode::from_bits_retain(mode),
        path.into(),
    );
}

/// Sorts the entries by path, then stage.
///
/// Trusted, of `State::sort_entries`: it reorders the entries with
/// `slice::sort_by` under the order of [`entry_before`], so the same
/// entries remain and none stands after one that should follow it.
#[verifier::external_body]
pub(crate) fn sort_entries(idx: &mut gix::index::State)
    ensures
        index_entries(*final(idx)).to_multiset() == index_entries(*old(idx)).to_multiset(),
        sorted(index_entries(*final(idx))),
{
    idx.sort_entries();
}

/// Asks `gix` whether the entries are in strictly ascending order.
///
/// Trusted, of `State::verify_entries`: it compares each entry with its
/// predecessor by path and stage and fails at the first pair that is not
/// strictly ascending.
#[verifier::external_body]
pub(crate) fn verify_entries(idx: &gix::index::State) -> (r: Result<(), gix::Error>)
    ensures
        r is Ok <==> ascending(index_entries(*idx)),
{
    idx.verify_entries()
}

/// How many entries the index holds.
pub fn len(idx: &gix::index::State) -> (n: usize)
    ensures
        n == index_entries(*idx).len(),
{
    entry_count(idx)
}

/// Entry `i` of the index, copied; none past the end.
pub fn entry(idx: &gix::index::State, i: usize) -> (r: Option<IndexEntry>)
    ensures
        match r {
            Some(e) => i < index_entries(*idx).len() && e@ == index_entries(*idx)[i as int],
            None => i >= index_entries(*idx).len(),
        },
{
    if i < entry_count(idx) {
        Some(
            IndexEntry {
                path: path_at(idx, i),
                mode: mode_at(idx, i),
                id: id_at(idx, i),
                flags: flags_at(idx, i),
                stat: stat_at(idx, i),
            },
        )
    } else {
        None
    }
}

/// The index is not in strictly ascending order of path and stage, so it
/// must not be written.
#[derive(Debug)]
pub struct IndexWriteError {
    /// What `gix` said of the entries.
    pub cause: gix::Error,
}

/// Checks that the index may be written: its entries ascend by path and
/// stage, so that none occurs twice.
pub fn validate(idx: &gix::index::State) -> (r: Result<(), IndexWriteError>)
    ensures
        r is Ok <==> ascending(index_entries(*idx)),
{
    match verify_entries(idx) {
        Ok(()) => Ok(()),
        Err(cause) => Err(IndexWriteError { cause }),
    }
}

/// Whether the index may be written.
pub fn is_well_formed(idx: &gix::index::State) -> (r: bool)
    ensures
        r == ascending(index_entries(*idx)),
{
    validate(idx).is_ok()
}

} // verus!
