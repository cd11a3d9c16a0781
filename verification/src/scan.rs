//! Collecting all records of a range, one answer of the iterator at a time.

use vstd::prelude::*;

use crate::ops::{Record, StorageError, StorageResult};

verus! {

/// A scan under way: the records collected so far.
pub struct Scan {
    records: Vec<Record>,
}

/// What a scan does after an answer of the iterator.
pub enum ScanStep {
    /// The iterator is to be asked again.
    Continue(Scan),
    /// The scan is over, with this result.
    Finished(StorageResult<Vec<Record>>),
}

/// What a scan is after some answers of the iterator.
pub enum ScanView {
    /// Under way, with these records collected.
    Running(Seq<Record>),
    /// Over, with these records or this error.
    Finished(Result<Seq<Record>, StorageError>),
}

impl View for Scan {
    type V = Seq<Record>;

    closed spec fn view(&self) -> Seq<Record> {
        self.records@
    }
}

impl View for ScanStep {
    type V = ScanView;

    open spec fn view(&self) -> ScanView {
        match self {
            ScanStep::Continue(scan) => ScanView::Running(scan@),
            ScanStep::Finished(Ok(records)) => ScanView::Finished(Ok(records@)),
            ScanStep::Finished(Err(e)) => ScanView::Finished(Err(*e)),
        }
    }
}

impl ScanView {
    /// The scan after one more answer. A record is collected; the end of the
    /// range gives all that was collected; an error gives the error alone.
    pub open spec fn after(self, answer: StorageResult<Option<Record>>) -> ScanView {
        match self {
            ScanView::Running(records) => match answer {
                Ok(Some(record)) => ScanView::Running(records.push(record)),
                Ok(None) => ScanView::Finished(Ok(records)),
                Err(e) => ScanView::Finished(Err(e)),
            },
            ScanView::Finished(_) => self,
        }
    }
}

/// The scan after `answers`, from its start.
pub open spec fn scan_after(answers: Seq<StorageResult<Option<Record>>>) -> ScanView
    decreases answers.len(),
{
    if answers.len() == 0 {
        ScanView::Running(Seq::empty())
    } else {
        scan_after(answers.drop_last()).after(answers.last())
    }
}

impl Scan {
    /// A scan that has collected nothing yet.
    pub fn new() -> (scan: Self)
        ensures
            scan@ == Seq::<Record>::empty(),
            ScanView::Running(scan@) == scan_after(Seq::empty()),
    {
        Scan { records: Vec::new() }
    }

    /// Takes the iterator's next answer.
    pub fn next(self, answer: StorageResult<Option<Record>>) -> (step: ScanStep)
        ensures
            step@ == ScanView::Running(self@).after(answer),
    {
        match answer {
            Ok(Some(record)) => {
                let mut records = self.records;
                records.push(record);
                ScanStep::Continue(Scan { records })
            },
            Ok(None) => ScanStep::Finished(Ok(self.records)),
            Err(e) => ScanStep::Finished(Err(e)),
        }
    }
}

} // verus!
