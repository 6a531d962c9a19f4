//! Progress events and the percentages they carry.

use vstd::prelude::*;

verus! {

/// Why a provisioning run, or a request to apply a background, stopped.
#[derive(Debug, Clone, PartialEq, Eq)]
pub enum PipelineError {
    /// Creating, copying, deleting or reading on the file system failed.
    Io { message: String },
    /// The bulk transfer from the remote source failed.
    Fetch { message: String },
    /// The platform rejected a request, or a path could not be decoded.
    Platform { message: String },
}

/// What a listener is told while a provisioning run goes on.
#[derive(Debug, Clone, PartialEq, Eq)]
pub enum ProgressEvent {
    /// Part of the remote collection has arrived.
    ClonePercent { percent: usize, received: usize, total: usize },
    /// The remote collection has arrived completely.
    RepoCloned { source: String },
    /// One more entry of the staging tree has been visited.
    MoveProgress { percent: usize },
    /// Every file of the staging tree has been copied.
    ImagesMoved { count: usize },
    /// The listing of the library directory.
    ImagesLoaded { paths: Vec<String> },
    /// The run stopped with an error.
    Failed { error: PipelineError },
}

/// `done * 100 / total`, rounded down, and 0 where `total` is 0.
pub open spec fn percent_of(done: nat, total: nat) -> nat {
    if total > 0 {
        done * 100 / total
    } else {
        0
    }
}

/// A part never exceeds the whole: below `total`, the percentage is at most 100.
pub proof fn percent_of_bounded(done: nat, total: nat)
    requires
        done <= total,
    ensures
        percent_of(done, total) <= 100,
        total > 0 && done == total ==> percent_of(done, total) == 100,
{
    if total > 0 {
        assert(done * 100 / total <= 100) by (nonlinear_arith)
            requires
                done <= total,
                total > 0,
        ;
        if done == total {
            assert(total * 100 / total == 100) by (nonlinear_arith)
                requires
                    total > 0,
            ;
        }
    }
}

/// With the same whole, a larger part gives no smaller percentage.
pub proof fn percent_of_monotonic(a: nat, b: nat, total: nat)
    requires
        a <= b,
    ensures
        percent_of(a, total) <= percent_of(b, total),
{
    if total > 0 {
        assert(a * 100 / total <= b * 100 / total) by (nonlinear_arith)
            requires
                a <= b,
                total > 0,
        ;
    }
}

/// Whether the percentage of `received` out of `total` can be told in a
/// `usize`. It can whenever no more was received than the total announced.
pub fn percent_fits(received: usize, total: usize) -> (fits: bool)
    ensures
        fits == (percent_of(received as nat, total as nat) <= usize::MAX),
        received <= total ==> fits,
{
    proof {
        if received <= total {
            percent_of_bounded(received as nat, total as nat);
        }
    }
    if total > 0 {
        (received as u128) * 100 / (total as u128) <= usize::MAX as u128
    } else {
        true
    }
}

/// The percentage of a transfer of which `received` objects out of `total`
/// have arrived. A source that has not announced its total reports 0.
pub fn clone_percent(received: usize, total: usize) -> (percent: usize)
    requires
        percent_of(received as nat, total as nat) <= usize::MAX,
    ensures
        percent == percent_of(received as nat, total as nat),
        received <= total ==> percent <= 100,
{
    proof {
        if received <= total {
            percent_of_bounded(received as nat, total as nat);
        }
    }
    if total > 0 {
        let wide: u128 = (received as u128) * 100 / (total as u128);
        wide as usize
    } else {
        0
    }
}

/// The percentage of a migration in which `copied` files have been copied
/// while walking a tree of `total` entries.
pub fn move_percent(copied: usize, total: usize) -> (percent: usize)
    requires
        total > 0,
        percent_of(copied as nat, total as nat) <= usize::MAX,
    ensures
        percent == percent_of(copied as nat, total as nat),
        copied <= total ==> percent <= 100,
{
    proof {
        if copied <= total {
            percent_of_bounded(copied as nat, total as nat);
        }
    }
    let wide: u128 = (copied as u128) * 100 / (total as u128);
    wide as usize
}

} // verus!
