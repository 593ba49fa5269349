//! Telling the two mates of a pair apart, and how their intervals lie to
//! one another.

use vstd::prelude::*;
use crate::error::{records_view, CollapseError, CollapseErrorView};
use crate::record::{Record, RecordView, MATE_ONE, MATE_TWO};

verus! {

/// Mate 1 and mate 2 of the reads of one fragment, whichever comes first.
///
/// There must be exactly two reads, one numbered as mate 1 and the other
/// as mate 2.
pub open spec fn resolved(reads: Seq<RecordView>) -> Result<
    (RecordView, RecordView),
    CollapseErrorView,
> {
    if reads.len() != 2 {
        Err(CollapseErrorView::NotAPair)
    } else if reads[0].read_number == MATE_ONE && reads[1].read_number == MATE_TWO {
        Ok((reads[0], reads[1]))
    } else if reads[0].read_number == MATE_TWO && reads[1].read_number == MATE_ONE {
        Ok((reads[1], reads[0]))
    } else {
        Err(CollapseErrorView::UnrecognizedMates)
    }
}

/// The view of the outcome of resolving a pair.
pub open spec fn resolved_view(outcome: Result<(Record, Record), CollapseError>) -> Result<
    (RecordView, RecordView),
    CollapseErrorView,
> {
    match outcome {
        Ok((r1, r2)) => Ok((r1@, r2@)),
        Err(e) => Err(e@),
    }
}

/// Finds mate 1 and mate 2 among the reads of one fragment and returns
/// copies of them, mate 1 first.
pub fn resolve_mates(reads: &Vec<Record>) -> (outcome: Result<(Record, Record), CollapseError>)
    ensures
        resolved_view(outcome) == resolved(records_view(reads@)),
{
    if reads.len() != 2 {
        return Err(CollapseError::NotAPair);
    }
    let first: u8 = *reads[0].get_read_number();
    let second: u8 = *reads[1].get_read_number();
    if first == MATE_ONE && second == MATE_TWO {
        Ok((reads[0].clone(), reads[1].clone()))
    } else if first == MATE_TWO && second == MATE_ONE {
        Ok((reads[1].clone(), reads[0].clone()))
    } else {
        Err(CollapseError::UnrecognizedMates)
    }
}

/// How the intervals of the two mates lie to one another.
#[derive(Clone, Copy, Debug, PartialEq, Eq, Structural)]
pub enum Overlap {
    /// The mates lie on different reference sequences.
    CrossChromosome,
    /// Mate 2 starts before mate 1: the mates cross over.
    Dovetail,
    /// Mate 1 covers every position of mate 2.
    Containment,
    /// Mate 1 starts first, or where mate 2 starts, and ends before mate 2
    /// does; the mates may overlap, touch, or leave a gap.
    Canonical,
}

/// The case that a pair falls under.
///
/// The reference sequences are compared first. On one sequence, mates that
/// start at the same position count as mate 1 coming first.
pub open spec fn overlap_of(m1: RecordView, m2: RecordView) -> Overlap {
    if m1.chr != m2.chr {
        Overlap::CrossChromosome
    } else if m1.start > m2.start {
        Overlap::Dovetail
    } else if m1.end >= m2.end {
        Overlap::Containment
    } else {
        Overlap::Canonical
    }
}

/// Decides the case that a pair falls under.
pub fn classify(r1: &Record, r2: &Record) -> (overlap: Overlap)
    ensures
        overlap == overlap_of(r1@, r2@),
{
    if !r1.get_chr().eq(r2.get_chr()) {
        Overlap::CrossChromosome
    } else if *r1.get_start() > *r2.get_start() {
        Overlap::Dovetail
    } else if *r1.get_end() >= *r2.get_end() {
        Overlap::Containment
    } else {
        Overlap::Canonical
    }
}

} // verus!
