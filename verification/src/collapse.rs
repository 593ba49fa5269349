//! Collapsing a pair of mates into one fragment.

use vstd::prelude::*;
use vstd::string::*;
use crate::calls::{
    call_count,
    calls_from,
    check_covers,
    covers,
    first_calls,
    gap_padding,
    leading,
    padding,
    trailing,
};
use crate::error::{
    collapsed_view,
    merged_view,
    records_view,
    CollapseError,
    CollapseErrorView,
};
use crate::pair::{classify, overlap_of, resolve_mates, resolved, Overlap};
use crate::record::{calls_view, Record, RecordView, FRAGMENT};

verus! {

/// The record that stands for both mates over `[start, end)`, given the
/// call strings that were spliced for it (`None` where a string could not
/// be spliced).
///
/// Reference sequence, fragment name and strand are mate 1's. A GpC string
/// is kept exactly where mate 1 has one; then mate 2 must have one too.
/// The CpG string must hold one call for each position of the interval.
pub open spec fn fragment(
    m1: RecordView,
    m2: RecordView,
    start: nat,
    end: nat,
    cpg: Option<Seq<char>>,
    gpc: Option<Seq<char>>,
) -> Result<RecordView, CollapseErrorView> {
    if m1.gpc is Some && m2.gpc is None {
        Err(CollapseErrorView::MissingGpc { read1: m1, read2: m2 })
    } else if cpg is None || (m1.gpc is Some && gpc is None) || !covers(start, end, cpg->0) {
        Err(CollapseErrorView::FragmentAssembly { read1: m1, read2: m2 })
    } else {
        Ok(
            RecordView {
                chr: m1.chr,
                start,
                end,
                name: m1.name,
                read_number: FRAGMENT,
                bs_strand: m1.bs_strand,
                cpg: cpg->0,
                gpc: if m1.gpc is Some {
                    gpc
                } else {
                    None
                },
            },
        )
    }
}

/// Checks the spliced call strings against the merged interval and builds
/// the fragment's record from them.
pub fn assemble(
    r1: Record,
    r2: Record,
    start: u64,
    end: u64,
    cpg: Option<String>,
    gpc: Option<String>,
) -> (outcome: Result<Record, CollapseError>)
    ensures
        merged_view(outcome) == fragment(
            r1@,
            r2@,
            start as nat,
            end as nat,
            calls_view(cpg),
            calls_view(gpc),
        ),
{
    let with_gpc = r1.get_gpc().is_some();
    if with_gpc && r2.get_gpc().is_none() {
        return Err(CollapseError::MissingGpc { read1: r1, read2: r2 });
    }
    match cpg {
        Some(cpg) => {
            if (with_gpc && gpc.is_none()) || !check_covers(start, end, &cpg) {
                Err(CollapseError::FragmentAssembly { read1: r1, read2: r2 })
            } else {
                let gpc = if with_gpc {
                    gpc
                } else {
                    None
                };
                Ok(
                    Record::new(
                        r1.get_chr().clone(),
                        start,
                        end,
                        r1.get_name().clone(),
                        FRAGMENT,
                        *r1.get_bs_strand(),
                        cpg,
                        gpc,
                    ),
                )
            }
        },
        None => Err(CollapseError::FragmentAssembly { read1: r1, read2: r2 }),
    }
}

/// Where the fragment of a dovetailed pair ends: at mate 1's end, unless
/// mate 2 overlaps mate 1 and reaches further.
pub open spec fn dovetail_end(m1: RecordView, m2: RecordView) -> nat {
    if m2.end > m1.start && m2.end > m1.end {
        m2.end
    } else {
        m1.end
    }
}

/// One call string for a dovetailed pair, from a string of mate 1 and the
/// matching string of mate 2.
///
/// Where the mates overlap, mate 2 gives the calls before mate 1's start,
/// mate 1 gives all of its own, and mate 2 gives those past mate 1's last
/// call where it reaches further. Positions are counted by mate 1's CpG
/// string, also while a GpC string is spliced. Where mate 2 ends at or
/// before mate 1's start, the positions between them are padded.
pub open spec fn dovetail_spliced(
    m1: RecordView,
    m2: RecordView,
    calls1: Seq<char>,
    calls2: Seq<char>,
) -> Option<Seq<char>>
    recommends
        m1.start > m2.start,
{
    if m2.end > m1.start {
        let diff = m1.start - m2.start;
        match leading(calls2, diff) {
            Some(head) => if m2.end > m1.end {
                match trailing(calls2, diff + m1.cpg.len()) {
                    Some(tail) => Some(head + calls1 + tail),
                    None => None,
                }
            } else {
                Some(head + calls1)
            },
            None => None,
        }
    } else {
        Some(calls2 + padding((m1.start - m2.end) as nat) + calls1)
    }
}

/// The fragment of a dovetailed pair, or the reason why there is none.
pub open spec fn dovetail_merged(m1: RecordView, m2: RecordView) -> Result<
    RecordView,
    CollapseErrorView,
>
    recommends
        m1.start > m2.start,
{
    fragment(
        m1,
        m2,
        m2.start,
        dovetail_end(m1, m2),
        dovetail_spliced(m1, m2, m1.cpg, m2.cpg),
        match (m1.gpc, m2.gpc) {
            (Some(gpc1), Some(gpc2)) => dovetail_spliced(m1, m2, gpc1, gpc2),
            _ => None,
        },
    )
}

/// Splices one call string for a dovetailed pair; `None` where mate 2's
/// string is too short to be cut as the coordinates ask.
pub fn splice_dovetail(r1: &Record, r2: &Record, calls1: &String, calls2: &String) -> (spliced:
    Option<String>)
    requires
        r1@.start > r2@.start,
    ensures
        calls_view(spliced) == dovetail_spliced(r1@, r2@, calls1@, calls2@),
{
    let start1: u64 = *r1.get_start();
    let end1: u64 = *r1.get_end();
    let start2: u64 = *r2.get_start();
    let end2: u64 = *r2.get_end();
    if end2 > start1 {
        // Calls of mate 2 that lie before mate 1's start
        let diff: u64 = start1 - start2;
        let len2: u64 = call_count(calls2) as u64;
        if diff > len2 {
            return None;
        }
        let mut spliced = first_calls(calls2, diff as usize);
        spliced.append(calls1.as_str());
        if end2 > end1 {
            // Mate 2 starts before mate 1 and ends after it
            let own: u64 = call_count(r1.get_cpg()) as u64;
            if own > len2 - diff {
                return None;
            }
            let tail = calls_from(calls2, (diff + own) as usize);
            spliced.append(tail.as_str());
        }
        Some(spliced)
    } else {
        // Padding between the end of mate 2 and the start of mate 1
        let pad = gap_padding(start1 - end2);
        let mut spliced = calls2.clone();
        spliced.append(pad.as_str());
        spliced.append(calls1.as_str());
        Some(spliced)
    }
}

/// Collapses a pair in which mate 2 starts before mate 1.
pub fn collapse_dovetail(r1: Record, r2: Record) -> (outcome: Result<Record, CollapseError>)
    requires
        r1@.start > r2@.start,
    ensures
        merged_view(outcome) == dovetail_merged(r1@, r2@),
        outcome matches Ok(merged) ==> merged@.cpg.len() == merged@.end - merged@.start,
{
    let new_start: u64 = *r2.get_start();
    let mut new_end: u64 = *r1.get_end();
    if *r2.get_end() > *r1.get_start() && *r2.get_end() > *r1.get_end() {
        new_end = *r2.get_end();
    }
    let new_cpg = splice_dovetail(&r1, &r2, r1.get_cpg(), r2.get_cpg());
    let new_gpc = match (r1.get_gpc(), r2.get_gpc()) {
        (Some(gpc1), Some(gpc2)) => splice_dovetail(&r1, &r2, gpc1, gpc2),
        _ => None,
    };
    assemble(r1, r2, new_start, new_end, new_cpg, new_gpc)
}

/// One call string for a pair in canonical order, from a string of mate 1
/// and the matching string of mate 2.
///
/// Where mate 2 starts past mate 1's end, the positions between them are
/// padded. Otherwise the calls of mate 2 that lie on positions which
/// mate 1 covers are dropped: there mate 1's calls stand.
pub open spec fn canonical_spliced(
    m1: RecordView,
    m2: RecordView,
    calls1: Seq<char>,
    calls2: Seq<char>,
) -> Option<Seq<char>>
    recommends
        m1.start <= m2.start,
        m1.end < m2.end,
{
    if m2.start > m1.end {
        Some(calls1 + padding((m2.start - m1.end) as nat) + calls2)
    } else {
        match trailing(calls2, m1.end - m2.start) {
            Some(tail) => Some(calls1 + tail),
            None => None,
        }
    }
}

/// The fragment of a pair in canonical order, or the reason why there is
/// none.
pub open spec fn canonical_merged(m1: RecordView, m2: RecordView) -> Result<
    RecordView,
    CollapseErrorView,
>
    recommends
        m1.start <= m2.start,
        m1.end < m2.end,
{
    fragment(
        m1,
        m2,
        m1.start,
        m2.end,
        canonical_spliced(m1, m2, m1.cpg, m2.cpg),
        match (m1.gpc, m2.gpc) {
            (Some(gpc1), Some(gpc2)) => canonical_spliced(m1, m2, gpc1, gpc2),
            _ => None,
        },
    )
}

/// Splices one call string for a pair in canonical order; `None` where
/// mate 2's string is shorter than the overlap.
pub fn splice_canonical(r1: &Record, r2: &Record, calls1: &String, calls2: &String) -> (spliced:
    Option<String>)
    requires
        r1@.start <= r2@.start,
        r1@.end < r2@.end,
    ensures
        calls_view(spliced) == canonical_spliced(r1@, r2@, calls1@, calls2@),
{
    let end1: u64 = *r1.get_end();
    let start2: u64 = *r2.get_start();
    let mut spliced = calls1.clone();
    if start2 > end1 {
        // Padding between the end of mate 1 and the start of mate 2
        let pad = gap_padding(start2 - end1);
        spliced.append(pad.as_str());
        spliced.append(calls2.as_str());
    } else {
        // Calls of mate 2 that mate 1 has already given
        let diff: u64 = end1 - start2;
        if diff > call_count(calls2) as u64 {
            return None;
        }
        let tail = calls_from(calls2, diff as usize);
        spliced.append(tail.as_str());
    }
    Some(spliced)
}

/// Collapses a pair in which mate 1 starts at or before mate 2's start and
/// ends before mate 2's end.
pub fn collapse_canonical_proper_pair(r1: Record, r2: Record) -> (outcome: Result<
    Record,
    CollapseError,
>)
    requires
        r1@.start <= r2@.start,
        r1@.end < r2@.end,
    ensures
        merged_view(outcome) == canonical_merged(r1@, r2@),
        outcome matches Ok(merged) ==> merged@.cpg.len() == merged@.end - merged@.start,
{
    let new_start: u64 = *r1.get_start();
    let new_end: u64 = *r2.get_end();
    let new_cpg = splice_canonical(&r1, &r2, r1.get_cpg(), r2.get_cpg());
    let new_gpc = match (r1.get_gpc(), r2.get_gpc()) {
        (Some(gpc1), Some(gpc2)) => splice_canonical(&r1, &r2, gpc1, gpc2),
        _ => None,
    };
    assemble(r1, r2, new_start, new_end, new_cpg, new_gpc)
}

/// What collapsing the reads of one fragment gives.
///
/// Mates on different reference sequences are handed back as they are,
/// mate 1 first. Every other pair becomes a single record marked as a
/// fragment: mate 1 itself where it covers mate 2, else the merged record
/// of the dovetailed or canonical pair.
pub open spec fn collapsed(reads: Seq<RecordView>) -> Result<Seq<RecordView>, CollapseErrorView> {
    match resolved(reads) {
        Ok((m1, m2)) => match overlap_of(m1, m2) {
            Overlap::CrossChromosome => Ok(seq![m1, m2]),
            Overlap::Containment => Ok(seq![m1.as_fragment()]),
            Overlap::Dovetail => match dovetail_merged(m1, m2) {
                Ok(merged) => Ok(seq![merged]),
                Err(e) => Err(e),
            },
            Overlap::Canonical => match canonical_merged(m1, m2) {
                Ok(merged) => Ok(seq![merged]),
                Err(e) => Err(e),
            },
        },
        Err(e) => Err(e),
    }
}

/// Collapses the two reads of a pair to one fragment.
///
/// The reads may come in either order. The inputs are left as they are;
/// the records that are returned are new.
pub fn collapse_to_fragment(reads: &Vec<Record>) -> (outcome: Result<Vec<Record>, CollapseError>)
    ensures
        collapsed_view(outcome) == collapsed(records_view(reads@)),
{
    // Figure out which read is mate 1 and which is mate 2
    let (mut r1, r2) = match resolve_mates(reads) {
        Ok(mates) => mates,
        Err(e) => {
            return Err(e);
        },
    };
    let mut fragments: Vec<Record> = Vec::new();
    match classify(&r1, &r2) {
        Overlap::CrossChromosome => {
            fragments.push(r1);
            fragments.push(r2);
        },
        Overlap::Containment => {
            r1.set_read_number(FRAGMENT);
            fragments.push(r1);
        },
        Overlap::Dovetail => match collapse_dovetail(r1, r2) {
            Ok(merged) => fragments.push(merged),
            Err(e) => {
                return Err(e);
            },
        },
        Overlap::Canonical => match collapse_canonical_proper_pair(r1, r2) {
            Ok(merged) => fragments.push(merged),
            Err(e) => {
                return Err(e);
            },
        },
    }
    assert(records_view(fragments@) =~= collapsed(records_view(reads@))->Ok_0);
    Ok(fragments)
}

} // verus!
