//! Why a pair of reads could not be collapsed.

use vstd::prelude::*;
use crate::record::{Record, RecordView};

verus! {

/// The ways in which collapsing a pair fails.
///
/// Reads on different reference sequences, dovetailed reads, a read that
/// lies inside its mate and a gap between the mates are all ordinary pairs
/// and are no errors.
#[derive(Debug)]
pub enum CollapseError {
    /// The input does not hold exactly two records.
    NotAPair,
    /// The two records are not numbered as mate 1 and mate 2.
    UnrecognizedMates,
    /// Mate 1 carries a GpC call string and mate 2 carries none, so there
    /// is nothing to merge mate 1's with.
    MissingGpc { read1: Record, read2: Record },
    /// The call strings of the two mates cannot be put together into one
    /// that has a call for each position of the merged interval: one of the
    /// reads is damaged. Nothing can be said about the fragment, and a
    /// caller will usually stop the whole run.
    FragmentAssembly { read1: Record, read2: Record },
}

/// A `CollapseError` over the views of the records it reports.
pub enum CollapseErrorView {
    NotAPair,
    UnrecognizedMates,
    MissingGpc { read1: RecordView, read2: RecordView },
    FragmentAssembly { read1: RecordView, read2: RecordView },
}

impl View for CollapseError {
    type V = CollapseErrorView;

    open spec fn view(&self) -> CollapseErrorView {
        match *self {
            CollapseError::NotAPair => CollapseErrorView::NotAPair,
            CollapseError::UnrecognizedMates => CollapseErrorView::UnrecognizedMates,
            CollapseError::MissingGpc { read1, read2 } => CollapseErrorView::MissingGpc {
                read1: read1@,
                read2: read2@,
            },
            CollapseError::FragmentAssembly {
                read1,
                read2,
            } => CollapseErrorView::FragmentAssembly { read1: read1@, read2: read2@ },
        }
    }
}

/// The views of a list of records, in order.
pub open spec fn records_view(records: Seq<Record>) -> Seq<RecordView> {
    records.map_values(|r: Record| r@)
}

/// The view of the outcome of merging a pair into one record.
pub open spec fn merged_view(outcome: Result<Record, CollapseError>) -> Result<
    RecordView,
    CollapseErrorView,
> {
    match outcome {
        Ok(record) => Ok(record@),
        Err(e) => Err(e@),
    }
}

/// The view of the outcome of collapsing a pair.
pub open spec fn collapsed_view(outcome: Result<Vec<Record>, CollapseError>) -> Result<
    Seq<RecordView>,
    CollapseErrorView,
> {
    match outcome {
        Ok(records) => Ok(records_view(records@)),
        Err(e) => Err(e@),
    }
}

} // verus!
