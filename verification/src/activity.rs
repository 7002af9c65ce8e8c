//! When was a project last worked on?
//!
//! Two sources answer, in this order: the commits at the tips of the
//! repository's local branches, and the modification times of the files in
//! the directory. This module holds the arithmetic of both; the engine decides
//! when to ask for which.

use crate::error::{Error, ErrorView};
use crate::time::Timestamp;
use vstd::prelude::*;
use vstd::string::StringExecFns;

verus! {

/// The greatest of `seconds`, if there is any.
pub open spec fn latest_seconds(seconds: Seq<i64>) -> Option<i64>
    decreases seconds.len(),
{
    if seconds.len() == 0 {
        None
    } else {
        match latest_seconds(seconds.drop_last()) {
            Some(best) => if best > seconds.last() {
                Some(best)
            } else {
                Some(seconds.last())
            },
            None => Some(seconds.last()),
        }
    }
}

/// The latest of `times`, if there is any; of several that are equally late,
/// the last.
pub open spec fn latest_time(times: Seq<Timestamp>) -> Option<Timestamp>
    decreases times.len(),
{
    if times.len() == 0 {
        None
    } else {
        match latest_time(times.drop_last()) {
            Some(best) => if best.instant() > times.last().instant() {
                Some(best)
            } else {
                Some(times.last())
            },
            None => Some(times.last()),
        }
    }
}

/// [`latest_seconds`] is the maximum: it is one of `seconds`, and none is
/// greater.
pub proof fn lemma_latest_seconds_is_maximum(seconds: Seq<i64>)
    ensures
        latest_seconds(seconds).is_none() <==> seconds.len() == 0,
        latest_seconds(seconds) matches Some(best) ==> seconds.contains(best) && forall|i: int|
            0 <= i < seconds.len() ==> seconds[i] <= best,
    decreases seconds.len(),
{
    if seconds.len() > 0 {
        let front = seconds.drop_last();
        lemma_latest_seconds_is_maximum(front);
        let best = latest_seconds(seconds).unwrap();
        if best == seconds.last() {
            assert(seconds[seconds.len() - 1] == best);
        } else {
            let i = choose|i: int| 0 <= i < front.len() && front[i] == best;
            assert(seconds[i] == best);
        }
        assert forall|i: int| 0 <= i < seconds.len() implies seconds[i] <= best by {
            if i < front.len() {
                assert(front[i] == seconds[i]);
            }
        }
    }
}

/// [`latest_time`] is the maximum: it is one of `times`, and none is later.
pub proof fn lemma_latest_time_is_maximum(times: Seq<Timestamp>)
    ensures
        latest_time(times).is_none() <==> times.len() == 0,
        latest_time(times) matches Some(best) ==> times.contains(best) && forall|i: int|
            0 <= i < times.len() ==> times[i].instant() <= best.instant(),
    decreases times.len(),
{
    if times.len() > 0 {
        let front = times.drop_last();
        lemma_latest_time_is_maximum(front);
        let best = latest_time(times).unwrap();
        if best == times.last() {
            assert(times[times.len() - 1] == best);
        } else {
            let i = choose|i: int| 0 <= i < front.len() && front[i] == best;
            assert(times[i] == best);
        }
        assert forall|i: int| 0 <= i < times.len() implies times[i].instant()
            <= best.instant() by {
            if i < front.len() {
                assert(front[i] == times[i]);
            }
        }
    }
}

/// What the repository says of the last activity, given the commit times
/// at the tips of its local branches, in seconds since 1970-01-01T00:00:00Z.
///
/// The latest tip counts, whichever branch it is on. A repository without
/// any commit has no answer, and neither has one whose latest commit time is
/// outside the range of UTC dates.
pub open spec fn git_activity(tips: Seq<i64>) -> Result<Timestamp, ErrorView> {
    match latest_seconds(tips) {
        None => Err(ErrorView::Git("No commits found in any local branch"@)),
        Some(secs) => match Timestamp::spec_from_unix_seconds(secs) {
            Some(t) => Ok(t),
            None => Err(ErrorView::Custom("Invalid commit time"@)),
        },
    }
}

/// The mathematical value of a timestamp or the error in its place.
pub open spec fn time_result_view(r: Result<Timestamp, Error>) -> Result<Timestamp, ErrorView> {
    match r {
        Ok(t) => Ok(t),
        Err(e) => Err(e@),
    }
}

/// The commit time of the most recent commit across all local branches:
/// the greatest of `tips`, or a `Git` error if there is no tip at all.
pub fn find_last_commit_across_branches(tips: &Vec<i64>) -> (r: Result<i64, Error>)
    ensures
        match r {
            Ok(secs) => latest_seconds(tips@) == Some(secs),
            Err(e) => latest_seconds(tips@).is_none() && e@ == ErrorView::Git(
                "No commits found in any local branch"@,
            ),
        },
        r.is_ok() <==> tips@.len() > 0,
        r matches Ok(secs) ==> tips@.contains(secs) && forall|i: int|
            0 <= i < tips@.len() ==> tips@[i] <= secs,
{
    let mut best: Option<i64> = None;
    let mut i: usize = 0;
    while i < tips.len()
        invariant
            i <= tips.len(),
            best == latest_seconds(tips@.take(i as int)),
        decreases tips.len() - i,
    {
        let tip: i64 = tips[i];
        proof {
            assert(tips@.take(i + 1).drop_last() =~= tips@.take(i as int));
        }
        best = match best {
            Some(b) => if b > tip {
                Some(b)
            } else {
                Some(tip)
            },
            None => Some(tip),
        };
        i += 1;
    }
    proof {
        assert(tips@.take(tips.len() as int) =~= tips@);
        lemma_latest_seconds_is_maximum(tips@);
    }
    match best {
        Some(secs) => Ok(secs),
        None => Err(Error::Git(String::from_str("No commits found in any local branch"))),
    }
}

/// The last activity according to the repository: see [`git_activity`].
pub fn get_git_last_activity(tips: &Vec<i64>) -> (r: Result<Timestamp, Error>)
    ensures
        time_result_view(r) == git_activity(tips@),
{
    match find_last_commit_across_branches(tips) {
        Ok(secs) => match Timestamp::from_unix_seconds(secs) {
            Some(t) => Ok(t),
            None => Err(Error::Custom(String::from_str("Invalid commit time"))),
        },
        Err(e) => Err(e),
    }
}

/// The latest modification time among `files`, the modification times of
/// the regular files below a directory; `None` if it holds no regular file.
pub fn find_latest_mtime(files: &Vec<Timestamp>) -> (r: Option<Timestamp>)
    ensures
        r == latest_time(files@),
        r.is_some() <==> files@.len() > 0,
        r matches Some(best) ==> files@.contains(best) && forall|i: int|
            0 <= i < files@.len() ==> files@[i].instant() <= best.instant(),
{
    let mut best: Option<Timestamp> = None;
    let mut i: usize = 0;
    while i < files.len()
        invariant
            i <= files.len(),
            best == latest_time(files@.take(i as int)),
        decreases files.len() - i,
    {
        let time: Timestamp = files[i];
        proof {
            assert(files@.take(i + 1).drop_last() =~= files@.take(i as int));
        }
        best = match best {
            Some(b) => if b.is_after(&time) {
                Some(b)
            } else {
                Some(time)
            },
            None => Some(time),
        };
        i += 1;
    }
    proof {
        assert(files@.take(files.len() as int) =~= files@);
        lemma_latest_time_is_maximum(files@);
    }
    best
}

} // verus!
