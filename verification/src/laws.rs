//! What holds of every collapsed pair.
//!
//! The lemmas speak of `collapsed`, the function that `collapse_to_fragment`
//! is proved to compute, and of the two mergers behind it.

use vstd::prelude::*;
use crate::calls::GAP_SYMBOL;
use crate::collapse::{canonical_merged, collapsed, dovetail_merged};
use crate::error::CollapseErrorView;
use crate::pair::{overlap_of, resolved, Overlap};
use crate::record::{RecordView, FRAGMENT, MATE_ONE, MATE_TWO};

verus! {

/// Where a record carries a GpC string, that string has as many calls as
/// the record's CpG string.
pub open spec fn gpc_aligned(m: RecordView) -> bool {
    m.gpc matches Some(gpc) ==> gpc.len() == m.cpg.len()
}

/// The pair is one that is merged: the mates lie on one reference
/// sequence and mate 1 does not cover mate 2.
pub open spec fn is_merged(m1: RecordView, m2: RecordView) -> bool {
    overlap_of(m1, m2) is Dovetail || overlap_of(m1, m2) is Canonical
}

/// The smaller of two positions.
pub open spec fn first_of(a: nat, b: nat) -> nat {
    if a <= b {
        a
    } else {
        b
    }
}

/// The larger of two positions.
pub open spec fn last_of(a: nat, b: nat) -> nat {
    if a >= b {
        a
    } else {
        b
    }
}

/// The call that a fragment carries at position `p` of the reference,
/// given a call string of each mate: mate 1's call where mate 1 covers the
/// position, else mate 2's where mate 2 covers it, else the gap symbol.
pub open spec fn call_at(
    m1: RecordView,
    m2: RecordView,
    calls1: Seq<char>,
    calls2: Seq<char>,
    p: int,
) -> char {
    if m1.start <= p < m1.end {
        calls1[p - m1.start]
    } else if m2.start <= p < m2.end {
        calls2[p - m2.start]
    } else {
        GAP_SYMBOL
    }
}

/// The calls of a fragment from the first position that either mate
/// covers to the last, one for each position.
pub open spec fn calls_over_both(
    m1: RecordView,
    m2: RecordView,
    calls1: Seq<char>,
    calls2: Seq<char>,
) -> Seq<char> {
    let start = first_of(m1.start, m2.start);
    let end = last_of(m1.end, m2.end);
    Seq::new((end - start) as nat, |i: int| call_at(m1, m2, calls1, calls2, start + i))
}

/// A record that was merged from a dovetailed pair holds exactly one CpG
/// call for each position of its interval, whatever the mates looked like.
pub proof fn lemma_dovetail_fragment_is_covered(m1: RecordView, m2: RecordView)
    ensures
        dovetail_merged(m1, m2) matches Ok(merged) ==> merged.cpg.len() == merged.end
            - merged.start,
{
}

/// A record that was merged from a pair in canonical order holds exactly
/// one CpG call for each position of its interval, whatever the mates
/// looked like.
pub proof fn lemma_canonical_fragment_is_covered(m1: RecordView, m2: RecordView)
    ensures
        canonical_merged(m1, m2) matches Ok(merged) ==> merged.cpg.len() == merged.end
            - merged.start,
{
}

/// Whenever a pair is merged, the one record that comes out has a CpG call
/// for each position of its interval and is marked as a fragment.
pub proof fn lemma_merged_cpg_covers_interval(reads: Seq<RecordView>)
    requires
        collapsed(reads) is Ok,
        resolved(reads) matches Ok((m1, m2)) && is_merged(m1, m2),
    ensures
        collapsed(reads)->Ok_0.len() == 1,
        collapsed(reads)->Ok_0[0].cpg.len() == collapsed(reads)->Ok_0[0].span(),
        collapsed(reads)->Ok_0[0].read_number == FRAGMENT,
{
}

/// Whenever a pair is merged whose mates each have as many GpC calls as
/// CpG calls, the merged GpC string has as many calls as the merged CpG
/// string. There is a merged GpC string exactly where mate 1 has one.
///
/// Of mates whose two strings differ in length nothing of the kind holds:
/// only the CpG string is checked against the merged interval.
pub proof fn lemma_merged_gpc_matches_cpg(reads: Seq<RecordView>)
    requires
        collapsed(reads) is Ok,
        resolved(reads) matches Ok((m1, m2)) && is_merged(m1, m2) && gpc_aligned(m1)
            && gpc_aligned(m2),
    ensures
        gpc_aligned(collapsed(reads)->Ok_0[0]),
        collapsed(reads)->Ok_0[0].gpc is Some <==> resolved(reads)->Ok_0.0.gpc is Some,
{
}

/// Where mate 1 covers every position of mate 2 on the same reference
/// sequence, the pair collapses to mate 1 alone, marked as a fragment.
/// Nothing of mate 2 is in the result: any other mate 2 that mate 1 covers
/// gives the same.
pub proof fn lemma_covering_mate_stands_alone(m1: RecordView, m2: RecordView, other: RecordView)
    requires
        m1.read_number == MATE_ONE,
        m2.read_number == MATE_TWO,
        m1.chr == m2.chr,
        m1.start <= m2.start,
        m2.end <= m1.end,
        other.read_number == MATE_TWO,
        other.chr == m1.chr,
        m1.start <= other.start,
        other.end <= m1.end,
    ensures
        collapsed(seq![m1, m2]) matches Ok(out) && out == seq![m1.as_fragment()],
        collapsed(seq![m2, m1]) == collapsed(seq![m1, m2]),
        collapsed(seq![m1, other]) == collapsed(seq![m1, m2]),
{
}

/// Mates on different reference sequences come back unchanged, mate 1
/// first, in whichever order they went in.
pub proof fn lemma_split_pair_passes_through(m1: RecordView, m2: RecordView)
    requires
        m1.read_number == MATE_ONE,
        m2.read_number == MATE_TWO,
        m1.chr != m2.chr,
    ensures
        collapsed(seq![m1, m2]) matches Ok(out) && out == seq![m1, m2],
        collapsed(seq![m2, m1]) matches Ok(out) && out == seq![m1, m2],
{
}

/// The order in which the two reads are handed in makes no difference.
pub proof fn lemma_input_order_is_irrelevant(a: RecordView, b: RecordView)
    ensures
        collapsed(seq![a, b]) == collapsed(seq![b, a]),
{
}

/// A pair collapses either to its two mates, unchanged, or to one record
/// that is marked as a fragment.
pub proof fn lemma_two_mates_or_one_fragment(reads: Seq<RecordView>)
    requires
        collapsed(reads) is Ok,
    ensures
        ({
            let out = collapsed(reads)->Ok_0;
            let (m1, m2) = resolved(reads)->Ok_0;
            if m1.chr != m2.chr {
                out == seq![m1, m2]
            } else {
                out.len() == 1 && out[0].read_number == FRAGMENT
            }
        }),
{
}

/// Intact mates always collapse: where both mates are well formed, and
/// mate 2 carries a GpC string whenever mate 1 does, no error comes out,
/// and every record of the result is well formed again.
pub proof fn lemma_intact_pair_collapses(reads: Seq<RecordView>)
    requires
        resolved(reads) matches Ok((m1, m2)) && m1.well_formed() && m2.well_formed() && (m1.gpc is Some
            ==> m2.gpc is Some),
    ensures
        collapsed(reads) is Ok,
        forall|i: int|
            0 <= i < collapsed(reads)->Ok_0.len() ==> (#[trigger] collapsed(reads)->Ok_0[i]).well_formed(),
{
}

/// The fragment of two intact mates on one reference sequence, position by
/// position. It reaches from the first position that either mate covers to
/// the last. At each position it carries mate 1's call where mate 1 covers
/// the position, else mate 2's call where mate 2 covers it, else the gap
/// symbol; and so for the GpC calls, where mate 1 has any. All else is
/// mate 1's.
pub proof fn lemma_fragment_position_by_position(m1: RecordView, m2: RecordView)
    requires
        m1.read_number == MATE_ONE,
        m2.read_number == MATE_TWO,
        m1.chr == m2.chr,
        m1.well_formed(),
        m2.well_formed(),
        m1.gpc is Some ==> m2.gpc is Some,
    ensures
        collapsed(seq![m1, m2]) matches Ok(out) && out == seq![
            RecordView {
                chr: m1.chr,
                start: first_of(m1.start, m2.start),
                end: last_of(m1.end, m2.end),
                name: m1.name,
                read_number: FRAGMENT,
                bs_strand: m1.bs_strand,
                cpg: calls_over_both(m1, m2, m1.cpg, m2.cpg),
                gpc: match m1.gpc {
                    Some(gpc1) => Some(calls_over_both(m1, m2, gpc1, m2.gpc->0)),
                    None => None,
                },
            },
        ],
{
    let out = collapsed(seq![m1, m2])->Ok_0;
    assert(out[0].cpg =~= calls_over_both(m1, m2, m1.cpg, m2.cpg));
    if m1.gpc is Some {
        assert(out[0].gpc->0 =~= calls_over_both(m1, m2, m1.gpc->0, m2.gpc->0));
    }
}

/// Each error has its own cause. A list that is no pair, or a pair whose
/// mates are not numbered 1 and 2, is turned away as such. The other two
/// errors come only from a pair that is merged, and name its mates: a GpC
/// string that mate 1 has and mate 2 lacks is reported before anything
/// else, and all that is left is a failed assembly.
pub proof fn lemma_errors_name_their_cause(reads: Seq<RecordView>)
    ensures
        collapsed(reads) matches Err(e) ==> match e {
            CollapseErrorView::NotAPair => reads.len() != 2,
            CollapseErrorView::UnrecognizedMates => reads.len() == 2 && resolved(reads) is Err,
            CollapseErrorView::MissingGpc { read1, read2 } => {
                &&& resolved(reads) matches Ok(mates) && mates == (read1, read2)
                &&& is_merged(read1, read2)
                &&& read1.gpc is Some
                &&& read2.gpc is None
            },
            CollapseErrorView::FragmentAssembly { read1, read2 } => {
                &&& resolved(reads) matches Ok(mates) && mates == (read1, read2)
                &&& is_merged(read1, read2)
                &&& read1.gpc is Some ==> read2.gpc is Some
            },
        },
{
}

} // verus!
