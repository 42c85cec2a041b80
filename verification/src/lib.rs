//! The core of a git hook manager.
//!
//! Before hooks run, the working tree is made to show what is staged and
//! nothing else; afterwards it is put back as the developer left it.  The
//! [`staged_files_only`] module holds the session that does this, step by
//! step; [`intent_to_add`] and [`index`] hold its work on the index,
//! [`git`] the calls to git it asks for.  [`session_laws`], [`order`] and
//! [`round_trip`] hold what is proved of them.
//!
//! The rest serves the program around that core: [`run`] and [`chdir`]
//! prepare a run of hooks, [`store`] finds the cache directory, and
//! [`cfgv`] and [`fields`] read configuration values.

pub mod cfgv;
pub mod chdir;
pub mod fields;
pub mod git;
pub mod index;
pub mod intent_to_add;
pub mod order;
pub mod round_trip;
pub mod run;
pub mod session_laws;
pub mod staged_files_only;
pub mod store;
pub mod text;
