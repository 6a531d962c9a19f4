//! Migration: flattening a staging tree into the library directory.
//!
//! The host walks the staging tree and hands the walk over. `plan_migration`
//! answers with one step per entry: the copy to make, if the entry is a
//! regular file, and the percentage to report once the entry is dealt with.
//! The host carries the steps out in order and stops at the first failure.

use vstd::prelude::*;
use crate::library::WalkEntry;
use crate::progress::{move_percent, percent_of, percent_of_bounded, percent_of_monotonic};

verus! {

/// One file to copy into the library directory, under its bare file name.
#[derive(Debug, Clone, PartialEq, Eq)]
pub struct CopyFile {
    /// The path of the file in the staging tree.
    pub from: String,
    /// The name the copy gets directly under the library directory.
    pub file_name: String,
}

/// What to do for one entry of the walk.
#[derive(Debug, Clone, PartialEq, Eq)]
pub struct MigrationStep {
    /// The copy to make; `None` for an entry that is no regular file.
    pub copy: Option<CopyFile>,
    /// The percentage to report after this entry.
    pub percent: usize,
}

/// The steps of a migration, and the number of files they copy.
#[derive(Debug, Clone, PartialEq, Eq)]
pub struct MigrationPlan {
    pub steps: Vec<MigrationStep>,
    pub file_count: usize,
}

/// The number of regular files among the entries.
pub open spec fn files_among(entries: Seq<WalkEntry>) -> nat
    decreases entries.len(),
{
    if entries.len() == 0 {
        0
    } else {
        files_among(entries.drop_last()) + if entries.last().is_file {
            1nat
        } else {
            0nat
        }
    }
}

/// The percentage reported after entry `i` of the walk: the files copied so
/// far against the number of all entries, directories included.
pub open spec fn progress_after(entries: Seq<WalkEntry>, i: int) -> nat {
    percent_of(files_among(entries.take(i + 1)), entries.len())
}

/// The step for entry `i` of the walk.
pub open spec fn step_for(entries: Seq<WalkEntry>, i: int) -> MigrationStep {
    MigrationStep {
        copy: if entries[i].is_file {
            Some(CopyFile { from: entries[i].path, file_name: entries[i].file_name })
        } else {
            None
        },
        percent: progress_after(entries, i) as usize,
    }
}

/// The library directory after the copies for `entries` were made in order,
/// as a map from each file name in it to the staging path it was copied from.
pub open spec fn library_after(entries: Seq<WalkEntry>) -> Map<Seq<char>, Seq<char>>
    decreases entries.len(),
{
    if entries.len() == 0 {
        Map::empty()
    } else if entries.last().is_file {
        library_after(entries.drop_last()).insert(entries.last().file_name@, entries.last().path@)
    } else {
        library_after(entries.drop_last())
    }
}

/// There are no more files than entries, and a longer prefix of a walk holds
/// no fewer files than a shorter one.
pub proof fn files_among_grows(entries: Seq<WalkEntry>, i: int, j: int)
    requires
        0 <= i <= j <= entries.len(),
    ensures
        files_among(entries.take(i)) <= files_among(entries.take(j)) <= j,
    decreases j,
{
    if j == 0 {
        assert(entries.take(0).len() == 0);
    } else if i == j {
        files_among_grows(entries, 0, j - 1);
        assert(entries.take(j).drop_last() =~= entries.take(j - 1));
    } else {
        files_among_grows(entries, i, j - 1);
        assert(entries.take(j).drop_last() =~= entries.take(j - 1));
    }
}

/// Where every entry is a regular file, all of them are counted.
pub proof fn files_among_all(entries: Seq<WalkEntry>)
    requires
        forall|i: int| 0 <= i < entries.len() ==> (#[trigger] entries[i]).is_file,
    ensures
        files_among(entries) == entries.len(),
    decreases entries.len(),
{
    if entries.len() > 0 {
        let rest = entries.drop_last();
        assert forall|i: int| 0 <= i < rest.len() implies (#[trigger] rest[i]).is_file by {
            assert(rest[i] == entries[i]);
        }
        files_among_all(rest);
    }
}

/// The percentages of one migration never decrease from one entry to a
/// later one, and none exceeds 100.
pub proof fn progress_is_monotonic(entries: Seq<WalkEntry>, i: int, j: int)
    requires
        0 <= i <= j < entries.len(),
    ensures
        progress_after(entries, i) <= progress_after(entries, j) <= 100,
{
    files_among_grows(entries, i + 1, j + 1);
    files_among_grows(entries, j + 1, entries.len() as int);
    assert(entries.take(entries.len() as int) =~= entries);
    files_among_grows(entries, 0, entries.len() as int);
    percent_of_monotonic(
        files_among(entries.take(i + 1)),
        files_among(entries.take(j + 1)),
        entries.len(),
    );
    percent_of_bounded(files_among(entries.take(j + 1)), entries.len());
}

/// The last percentage of a migration is the share of regular files among
/// all entries of the walk. It is 100 where every entry is a regular file.
pub proof fn final_progress(entries: Seq<WalkEntry>)
    requires
        entries.len() > 0,
    ensures
        progress_after(entries, entries.len() - 1) == percent_of(
            files_among(entries),
            entries.len(),
        ),
        (forall|i: int| 0 <= i < entries.len() ==> (#[trigger] entries[i]).is_file)
            ==> progress_after(entries, entries.len() - 1) == 100,
{
    assert(entries.take(entries.len() as int) =~= entries);
    if forall|i: int| 0 <= i < entries.len() ==> (#[trigger] entries[i]).is_file {
        files_among_all(entries);
        percent_of_bounded(entries.len(), entries.len());
    }
}

/// Flattening: the library directory holds a file name exactly if some
/// regular file of the walk bears it, whatever directory that file was in.
pub proof fn library_holds_file_names(entries: Seq<WalkEntry>, name: Seq<char>)
    ensures
        library_after(entries).dom().contains(name) <==> exists|i: int|
            0 <= i < entries.len() && (#[trigger] entries[i]).is_file && entries[i].file_name@
                == name,
    decreases entries.len(),
{
    if entries.len() > 0 {
        let rest = entries.drop_last();
        library_holds_file_names(rest, name);
        if library_after(entries).dom().contains(name) {
            if entries.last().is_file && entries.last().file_name@ == name {
                assert(entries[entries.len() - 1].is_file);
            } else {
                let i = choose|i: int|
                    0 <= i < rest.len() && (#[trigger] rest[i]).is_file && rest[i].file_name@
                        == name;
                assert(entries[i] == rest[i]);
            }
        }
        if exists|i: int|
            0 <= i < entries.len() && (#[trigger] entries[i]).is_file && entries[i].file_name@
                == name {
            let i = choose|i: int|
                0 <= i < entries.len() && (#[trigger] entries[i]).is_file && entries[i].file_name@
                    == name;
            if i < entries.len() - 1 {
                assert(rest[i] == entries[i]);
            }
        }
    }
}

/// Where several files of the walk bear one name, the copy of the last of
/// them is the one that stays.
pub proof fn last_copy_wins(entries: Seq<WalkEntry>, i: int)
    requires
        0 <= i < entries.len(),
        entries[i].is_file,
        forall|j: int|
            i < j < entries.len() && (#[trigger] entries[j]).is_file ==> entries[j].file_name@
                != entries[i].file_name@,
    ensures
        library_after(entries).dom().contains(entries[i].file_name@),
        library_after(entries)[entries[i].file_name@] == entries[i].path@,
    decreases entries.len(),
{
    if i < entries.len() - 1 {
        let rest = entries.drop_last();
        assert(rest[i] == entries[i]);
        assert forall|j: int| i < j < rest.len() && (#[trigger] rest[j]).is_file implies rest[j].file_name@
            != rest[i].file_name@ by {
            assert(rest[j] == entries[j]);
        }
        last_copy_wins(rest, i);
        assert(entries.last() == entries[entries.len() - 1]);
    }
}

/// Plans the migration of a staging tree from a walk of it. There is one
/// step per entry, in walk order. A regular file is copied under its bare
/// file name, so the directory it was found in is dropped; any other entry
/// is only counted. The percentage after each entry is the number of files
/// copied up to and including it, times 100, divided by the number of all
/// entries.
pub fn plan_migration(entries: &Vec<WalkEntry>) -> (plan: MigrationPlan)
    ensures
        plan.steps@.len() == entries@.len(),
        forall|i: int| 0 <= i < entries@.len() ==> #[trigger] plan.steps@[i] == step_for(entries@, i),
        plan.file_count == files_among(entries@),
{
    let total: usize = entries.len();
    let mut steps: Vec<MigrationStep> = Vec::new();
    let mut copied: usize = 0;
    let mut i: usize = 0;
    proof {
        assert(entries@.take(0).len() == 0);
    }
    while i < total
        invariant
            total == entries@.len(),
            i <= total,
            steps@.len() == i,
            copied == files_among(entries@.take(i as int)),
            forall|k: int| 0 <= k < i ==> #[trigger] steps@[k] == step_for(entries@, k),
        decreases total - i,
    {
        let entry = &entries[i];
        proof {
            files_among_grows(entries@, i as int, i + 1);
            files_among_grows(entries@, i + 1, total as int);
            assert(entries@.take(i + 1).drop_last() =~= entries@.take(i as int));
            assert(entries@.take(i + 1).last() == entries@[i as int]);
        }
        let copy = if entry.is_file {
            copied = copied + 1;
            Some(CopyFile { from: entry.path.clone(), file_name: entry.file_name.clone() })
        } else {
            None
        };
        proof {
            percent_of_bounded(copied as nat, total as nat);
        }
        let percent: usize = move_percent(copied, total);
        steps.push(MigrationStep { copy, percent });
        i = i + 1;
    }
    proof {
        assert(entries@.take(total as int) =~= entries@);
    }
    MigrationPlan { steps, file_count: copied }
}

} // verus!
