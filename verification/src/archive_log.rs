//! The archive log: one record for each project that is in the archive now.
//!
//! The log is a flat list. Reading it, adding to it and taking a record out
//! of it are transformations of that list; the caller stores the result by
//! writing the whole file anew.

use crate::error::{Error, ErrorView};
use crate::io::{failure_of, Event, EventView};
use crate::models::{ArchivedRecord, RecordView};
use vstd::prelude::*;
use vstd::string::StringExecFns;

verus! {

/// The name of the log file inside the archive directory.
pub const ARCHIVE_LOG_FILE: &'static str = "archive.json";

/// The records that an answer to [`Action::ReadLog`](crate::io::Action::ReadLog)
/// stands for.
///
/// A log that does not exist yet is an empty log, not an error. A log that
/// does not decode is an error, and so is any other failure to read it.
pub open spec fn log_contents(event: EventView) -> Result<Seq<RecordView>, ErrorView> {
    match event {
        EventView::LogMissing => Ok(Seq::empty()),
        EventView::LogRecords(records) => Ok(records),
        EventView::LogCorrupt(why) => Err(ErrorView::Json(why)),
        other => Err(failure_of(other)),
    }
}

/// Where the first record named `name` stands in `records`, if there is one.
pub open spec fn record_position(records: Seq<RecordView>, name: Seq<char>) -> Option<int> {
    records.map_values(|r: RecordView| r.name).index_of_first(name)
}

/// [`record_position`] finds a record of that name, and the first one; it
/// finds none only where there is none.
pub proof fn lemma_record_position(records: Seq<RecordView>, name: Seq<char>)
    ensures
        match record_position(records, name) {
            Some(i) => {
                &&& 0 <= i < records.len()
                &&& records[i].name == name
                &&& forall|j: int| 0 <= j < i ==> records[j].name != name
            },
            None => forall|j: int| 0 <= j < records.len() ==> records[j].name != name,
        },
{
    let names = records.map_values(|r: RecordView| r.name);
    names.index_of_first_ensures(name);
    match names.index_of_first(name) {
        Some(i) => {
            assert forall|j: int| 0 <= j < i implies records[j].name != name by {
                assert(names[j] == records[j].name);
            }
        },
        None => {
            assert forall|j: int| 0 <= j < records.len() implies records[j].name != name by {
                assert(names[j] == records[j].name);
            }
        },
    }
}

/// The mathematical value of a list of records or the error in its place.
pub open spec fn records_result_view(r: Result<Vec<ArchivedRecord>, Error>) -> Result<
    Seq<RecordView>,
    ErrorView,
> {
    match r {
        Ok(records) => Ok(records.deep_view()),
        Err(e) => Err(e@),
    }
}

/// The records of the log, from the answer to a request to read it: see
/// [`log_contents`].
pub fn read_archive_log(event: Event) -> (r: Result<Vec<ArchivedRecord>, Error>)
    ensures
        records_result_view(r) == log_contents(event@),
{
    match event {
        Event::LogMissing => {
            let records: Vec<ArchivedRecord> = Vec::new();
            assert(records.deep_view() =~= Seq::empty());
            Ok(records)
        },
        Event::LogRecords(records) => Ok(records),
        Event::LogCorrupt(why) => Err(Error::Json(why)),
        Event::Failed(e) => Err(e),
        _ => Err(Error::Custom(String::from_str("Unexpected event"))),
    }
}

/// The index of the first record named `name`, if there is one.
pub fn find_record(records: &Vec<ArchivedRecord>, name: &str) -> (found: Option<usize>)
    ensures
        match found {
            Some(i) => i < records.len() && record_position(records.deep_view(), name@) == Some(
                i as int,
            ),
            None => record_position(records.deep_view(), name@).is_none(),
        },
{
    let wanted = String::from_str(name);
    let ghost views = records.deep_view();
    let mut i: usize = 0;
    while i < records.len()
        invariant
            i <= records.len(),
            views == records.deep_view(),
            wanted@ == name@,
            forall|j: int| 0 <= j < i ==> views[j].name != name@,
        decreases records.len() - i,
    {
        assert(views[i as int] == records[i as int]@);
        if records[i].name == wanted {
            proof {
                lemma_record_position(views, name@);
            }
            return Some(i);
        }
        i += 1;
    }
    proof {
        lemma_record_position(views, name@);
    }
    None
}

/// The log after `new_records` are added to `existing`: the old records
/// first, in their order, then the new ones in theirs.
pub fn append_to_archive_log(
    existing: Vec<ArchivedRecord>,
    new_records: Vec<ArchivedRecord>,
) -> (all: Vec<ArchivedRecord>)
    ensures
        all.deep_view() == existing.deep_view() + new_records.deep_view(),
{
    let mut all = existing;
    let mut added = new_records;
    all.append(&mut added);
    assert(all.deep_view() =~= existing.deep_view() + new_records.deep_view());
    all
}

} // verus!
