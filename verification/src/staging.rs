//! The two directories of a run, and how they are cleared and prepared.
//!
//! The host looks whether a directory exists; the functions here answer with
//! the operations to perform on it, in order.

use vstd::prelude::*;

verus! {

/// The places a run works on.
#[derive(Debug, Clone, PartialEq, Eq)]
pub struct Config {
    /// The transient directory that a fetch fills.
    pub staging_dir: String,
    /// The directory of the images on offer.
    pub library_dir: String,
    /// The remote collection.
    pub source_url: String,
}

impl Config {
    /// The two directories are different places.
    pub open spec fn well_formed(&self) -> bool {
        self.staging_dir@ != self.library_dir@
    }

    /// A configuration of the given places, unless the staging directory
    /// and the library directory are the same.
    pub fn new(staging_dir: String, library_dir: String, source_url: String) -> (config: Option<
        Config,
    >)
        ensures
            staging_dir@ == library_dir@ <==> config is None,
            config matches Some(c) ==> c == (Config { staging_dir, library_dir, source_url })
                && c.well_formed(),
    {
        if staging_dir == library_dir {
            None
        } else {
            Some(Config { staging_dir, library_dir, source_url })
        }
    }
}

/// One operation on a directory.
#[derive(Debug, Clone, PartialEq, Eq)]
pub enum DirOp {
    /// Delete the directory with all it holds.
    RemoveAll { dir: String },
    /// Create the directory, empty.
    Create { dir: String },
}

/// The name of the staging directory under the pictures directory.
pub open spec fn staging_dir_name() -> Seq<char> {
    "rwall_temp"@
}

/// The name of the library directory under the pictures directory.
pub open spec fn library_dir_name() -> Seq<char> {
    "rwall"@
}

/// The remote collection that a run fetches unless told otherwise.
pub open spec fn default_source_url() -> Seq<char> {
    "https://github.com/Incalculas/wallpapers"@
}

/// What clears `dir`: its deletion if it exists, nothing if it does not.
pub open spec fn clearing(dir: String, exists: bool) -> Seq<DirOp> {
    if exists {
        seq![DirOp::RemoveAll { dir }]
    } else {
        Seq::empty()
    }
}

/// What leaves `dir` existing and empty: clearing it, then creating it.
pub open spec fn preparing(dir: String, exists: bool) -> Seq<DirOp> {
    clearing(dir, exists).push(DirOp::Create { dir })
}

/// Whether the directory `dir` exists once `ops` are performed, given
/// whether it existed before.
pub open spec fn exists_after(ops: Seq<DirOp>, dir: Seq<char>, before: bool) -> bool
    decreases ops.len(),
{
    if ops.len() == 0 {
        before
    } else {
        let earlier = exists_after(ops.drop_last(), dir, before);
        match ops.last() {
            DirOp::RemoveAll { dir: d } => earlier && d@ != dir,
            DirOp::Create { dir: d } => earlier || d@ == dir,
        }
    }
}

/// Whether every operation of `ops` on the directory `dir` finds it as it
/// needs it: there to be deleted, absent to be created.
pub open spec fn applicable(ops: Seq<DirOp>, dir: Seq<char>, before: bool) -> bool
    decreases ops.len(),
{
    if ops.len() == 0 {
        true
    } else {
        let earlier = exists_after(ops.drop_last(), dir, before);
        applicable(ops.drop_last(), dir, before) && match ops.last() {
            DirOp::RemoveAll { dir: d } => d@ == dir ==> earlier,
            DirOp::Create { dir: d } => d@ == dir ==> !earlier,
        }
    }
}

/// Clearing a directory leaves none behind, whether it existed or not, and
/// asks for no deletion of a directory that is not there.
pub proof fn clearing_leaves_nothing(dir: String, exists: bool)
    ensures
        !exists_after(clearing(dir, exists), dir@, exists),
        applicable(clearing(dir, exists), dir@, exists),
{
    let ops = clearing(dir, exists);
    if exists {
        assert(ops.drop_last() =~= Seq::<DirOp>::empty());
        assert(ops.last() == DirOp::RemoveAll { dir });
        assert(exists_after(ops.drop_last(), dir@, exists) == exists);
        assert(applicable(ops.drop_last(), dir@, exists));
    }
}

/// Preparing a directory leaves it existing, and created by the last
/// operation, so that it holds nothing of what was there before.
pub proof fn preparing_leaves_fresh(dir: String, exists: bool)
    ensures
        exists_after(preparing(dir, exists), dir@, exists),
        applicable(preparing(dir, exists), dir@, exists),
        preparing(dir, exists).last() == (DirOp::Create { dir }),
{
    clearing_leaves_nothing(dir, exists);
    let ops = preparing(dir, exists);
    assert(ops.drop_last() =~= clearing(dir, exists));
}

/// Operations on one directory leave every other directory as it was. With
/// two different places configured, clearing or preparing the one neither
/// deletes nor creates the other.
pub proof fn other_directories_untouched(dir: String, exists: bool, other: Seq<char>, before: bool)
    requires
        dir@ != other,
    ensures
        exists_after(clearing(dir, exists), other, before) == before,
        exists_after(preparing(dir, exists), other, before) == before,
{
    let cleared = clearing(dir, exists);
    if exists {
        assert(cleared.drop_last() =~= Seq::<DirOp>::empty());
        assert(cleared.last() == DirOp::RemoveAll { dir });
        assert(exists_after(cleared.drop_last(), other, before) == before);
    }
    assert(exists_after(cleared, other, before) == before);
    let prepared = preparing(dir, exists);
    assert(prepared.drop_last() =~= cleared);
    assert(prepared.last() == DirOp::Create { dir });
    assert(exists_after(prepared.drop_last(), other, before) == before);
}

/// The name of the staging directory under the pictures directory.
pub fn staging_name() -> (name: &'static str)
    ensures
        name@ == staging_dir_name(),
{
    "rwall_temp"
}

/// The name of the library directory under the pictures directory.
pub fn library_name() -> (name: &'static str)
    ensures
        name@ == library_dir_name(),
{
    "rwall"
}

/// The remote collection that a run fetches unless told otherwise.
pub fn default_source() -> (url: &'static str)
    ensures
        url@ == default_source_url(),
{
    "https://github.com/Incalculas/wallpapers"
}

fn clear(dir: &String, exists: bool) -> (ops: Vec<DirOp>)
    ensures
        ops@ == clearing(*dir, exists),
{
    let mut ops: Vec<DirOp> = Vec::new();
    if exists {
        ops.push(DirOp::RemoveAll { dir: dir.clone() });
    }
    proof {
        assert(ops@ =~= clearing(*dir, exists));
    }
    ops
}

/// What to do before a fetch, given whether the staging directory exists:
/// delete it if it does, so that a fetch never starts on leftovers.
pub fn reset_staging(config: &Config, staging_exists: bool) -> (ops: Vec<DirOp>)
    ensures
        ops@ == clearing(config.staging_dir, staging_exists),
{
    clear(&config.staging_dir, staging_exists)
}

/// What to do before a migration, given whether the library directory
/// exists: delete it if it does, then create it, so that the migration
/// starts from an empty directory.
pub fn prepare_library_dir(config: &Config, library_exists: bool) -> (ops: Vec<DirOp>)
    ensures
        ops@ == preparing(config.library_dir, library_exists),
{
    let mut ops = clear(&config.library_dir, library_exists);
    ops.push(DirOp::Create { dir: config.library_dir.clone() });
    ops
}

/// What erases the library, given whether the library directory exists: its
/// deletion if it does, nothing if it does not.
pub fn purge(config: &Config, library_exists: bool) -> (ops: Vec<DirOp>)
    ensures
        ops@ == clearing(config.library_dir, library_exists),
{
    clear(&config.library_dir, library_exists)
}

} // verus!
