//! Where the store is kept, and whether it may be written.

use vstd::prelude::*;
use vstd::string::StringExecFns;

verus! {

/// The directory of the store, by where it was found.
#[derive(Debug, PartialEq, Eq)]
pub enum StoreDir<P> {
    /// The directory that `PRE_COMMIT_HOME` names.
    Given(P),
    /// `pre-commit` below the directory that `XDG_CACHE_HOME` names.
    InCache(P),
    /// `.cache/pre-commit` below the home directory.
    InHome(P),
}

/// No place for the store: neither variable is set and there is no home
/// directory.
#[derive(Clone, Copy, Debug, PartialEq, Eq, Structural)]
pub struct NoStoreDir;

impl NoStoreDir {
    /// The error in words.
    pub fn message(&self) -> (r: String)
        ensures
            r@ == "no candidate for pre-commit home"@,
    {
        String::from_str("no candidate for pre-commit home")
    }
}

/// Picks the directory of the store: the first that is there of
/// `PRE_COMMIT_HOME`, `XDG_CACHE_HOME` and the home directory.
pub fn store_dir_impl<P>(pre_commit_home: Option<P>, xdg_cache_home: Option<P>, home: Option<P>) -> (r:
    Result<StoreDir<P>, NoStoreDir>)
    ensures
        r == match (pre_commit_home, xdg_cache_home, home) {
            (Some(p), _, _) => Ok::<StoreDir<P>, NoStoreDir>(StoreDir::Given(p)),
            (None, Some(p), _) => Ok(StoreDir::InCache(p)),
            (None, None, Some(p)) => Ok(StoreDir::InHome(p)),
            (None, None, None) => Err(NoStoreDir),
        },
{
    match pre_commit_home {
        Some(p) => Ok(StoreDir::Given(p)),
        None => match xdg_cache_home {
            Some(p) => Ok(StoreDir::InCache(p)),
            None => match home {
                Some(p) => Ok(StoreDir::InHome(p)),
                None => Err(NoStoreDir),
            },
        },
    }
}

/// The names of the directories that lead from the place found to the
/// store.
pub open spec fn below<P>(dir: StoreDir<P>) -> Seq<Seq<char>> {
    match dir {
        StoreDir::Given(_) => Seq::empty(),
        StoreDir::InCache(_) => seq!["pre-commit"@],
        StoreDir::InHome(_) => seq![".cache"@, "pre-commit"@],
    }
}

impl<P> StoreDir<P> {
    /// The place that was found.
    pub fn base(&self) -> (p: &P)
        ensures
            *self == StoreDir::Given(*p) || *self == StoreDir::InCache(*p) || *self
                == StoreDir::InHome(*p),
    {
        match self {
            StoreDir::Given(p) => p,
            StoreDir::InCache(p) => p,
            StoreDir::InHome(p) => p,
        }
    }

    /// Lists the names to append to the place found, one directory each.
    pub fn components(&self) -> (names: Vec<String>)
        ensures
            Seq::new(names@.len(), |i: int| names@[i]@) == below(*self),
    {
        let mut names: Vec<String> = Vec::new();
        match self {
            StoreDir::Given(_) => {},
            StoreDir::InCache(_) => {
                names.push(String::from_str("pre-commit"));
            },
            StoreDir::InHome(_) => {
                names.push(String::from_str(".cache"));
                names.push(String::from_str("pre-commit"));
            },
        }
        assert(Seq::new(names@.len(), |i: int| names@[i]@) =~= below(*self));
        names
    }
}

/// Whether the store is read-only: its directory is there and cannot be
/// written.  A directory that is not there yet can still be made.
pub fn readonly(exists: bool, writable: bool) -> (r: bool)
    ensures
        r == (exists && !writable),
{
    exists && !writable
}

} // verus!
