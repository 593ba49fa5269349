//! The aligned read record and its mathematical view.

use vstd::prelude::*;
use crate::calls::call_count;

verus! {

/// Mate number of the first read of a pair.
pub const MATE_ONE: u8 = 1;

/// Mate number of the second read of a pair.
pub const MATE_TWO: u8 = 2;

/// Mate number of a record that stands for a whole fragment: the two mates
/// behind it can no longer be told apart.
pub const FRAGMENT: u8 = 0;

/// What a record holds, as plain mathematical values.
pub struct RecordView {
    /// Name of the reference sequence.
    pub chr: Seq<char>,
    /// First position of the half-open interval `[start, end)`.
    pub start: nat,
    /// Position just past the last one of the interval.
    pub end: nat,
    /// Name of the fragment, shared by both mates.
    pub name: Seq<char>,
    /// `MATE_ONE` or `MATE_TWO` for a read, `FRAGMENT` for a collapsed pair.
    pub read_number: u8,
    /// Code of the bisulfite strand.
    pub bs_strand: u8,
    /// One CpG call per position of the interval.
    pub cpg: Seq<char>,
    /// One GpC call per position, for assays that call that context.
    pub gpc: Option<Seq<char>>,
}

impl RecordView {
    /// Number of positions that the interval covers; not positive where
    /// the record's coordinates are out of order.
    pub open spec fn span(self) -> int {
        self.end - self.start
    }

    /// The interval is not empty and every call string holds exactly one
    /// call per position of it.
    pub open spec fn well_formed(self) -> bool {
        &&& self.start < self.end
        &&& self.cpg.len() == self.span()
        &&& self.gpc matches Some(g) ==> g.len() == self.span()
    }

    /// The same record, marked as a collapsed fragment.
    pub open spec fn as_fragment(self) -> RecordView {
        RecordView { read_number: FRAGMENT, ..self }
    }
}

/// The view of an optional call string.
pub open spec fn calls_view(calls: Option<String>) -> Option<Seq<char>> {
    match calls {
        Some(s) => Some(s@),
        None => None,
    }
}

/// An aligned read, or the fragment that a pair of reads was collapsed to.
///
/// A record is plain data: nothing is checked when one is made, so that
/// records decoded from a damaged alignment can still be held and reported.
/// `RecordView::well_formed` says what an intact record satisfies.
#[derive(Debug)]
pub struct Record {
    chr: String,
    start: u64,
    end: u64,
    name: String,
    read_number: u8,
    bs_strand: u8,
    cpg: String,
    gpc: Option<String>,
}

impl View for Record {
    type V = RecordView;

    closed spec fn view(&self) -> RecordView {
        RecordView {
            chr: self.chr@,
            start: self.start as nat,
            end: self.end as nat,
            name: self.name@,
            read_number: self.read_number,
            bs_strand: self.bs_strand,
            cpg: self.cpg@,
            gpc: calls_view(self.gpc),
        }
    }
}

impl Record {
    /// Makes a record from its eight fields, as they are.
    pub fn new(
        chr: String,
        start: u64,
        end: u64,
        name: String,
        read_number: u8,
        bs_strand: u8,
        cpg: String,
        gpc: Option<String>,
    ) -> (r: Record)
        ensures
            r@ == (RecordView {
                chr: chr@,
                start: start as nat,
                end: end as nat,
                name: name@,
                read_number,
                bs_strand,
                cpg: cpg@,
                gpc: calls_view(gpc),
            }),
    {
        Record { chr, start, end, name, read_number, bs_strand, cpg, gpc }
    }

    /// Name of the reference sequence.
    pub fn get_chr(&self) -> (r: &String)
        ensures
            r@ == self@.chr,
    {
        &self.chr
    }

    /// First position of the interval.
    pub fn get_start(&self) -> (r: &u64)
        ensures
            *r == self@.start,
    {
        &self.start
    }

    /// Position just past the interval.
    pub fn get_end(&self) -> (r: &u64)
        ensures
            *r == self@.end,
    {
        &self.end
    }

    /// Name of the fragment.
    pub fn get_name(&self) -> (r: &String)
        ensures
            r@ == self@.name,
    {
        &self.name
    }

    /// Mate number.
    pub fn get_read_number(&self) -> (r: &u8)
        ensures
            *r == self@.read_number,
    {
        &self.read_number
    }

    /// Code of the bisulfite strand.
    pub fn get_bs_strand(&self) -> (r: &u8)
        ensures
            *r == self@.bs_strand,
    {
        &self.bs_strand
    }

    /// The CpG call string.
    pub fn get_cpg(&self) -> (r: &String)
        ensures
            r@ == self@.cpg,
    {
        &self.cpg
    }

    /// The GpC call string, where the assay gave one.
    pub fn get_gpc(&self) -> (r: &Option<String>)
        ensures
            calls_view(*r) == self@.gpc,
    {
        &self.gpc
    }

    /// Checks that the record is intact: its interval is not empty, and
    /// each of its call strings holds one call for each position.
    pub fn is_well_formed(&self) -> (ok: bool)
        ensures
            ok == self@.well_formed(),
    {
        if self.start >= self.end || call_count(&self.cpg) as u64 != self.end - self.start {
            return false;
        }
        match &self.gpc {
            Some(gpc) => call_count(gpc) as u64 == self.end - self.start,
            None => true,
        }
    }

    /// Overwrites the mate number and leaves every other field as it was.
    pub fn set_read_number(&mut self, read_number: u8)
        ensures
            final(self)@ == (RecordView { read_number, ..old(self)@ }),
    {
        self.read_number = read_number;
    }
}

impl Clone for Record {
    fn clone(&self) -> (r: Self)
        ensures
            r@ == self@,
    {
        let gpc = match &self.gpc {
            Some(g) => Some(g.clone()),
            None => None,
        };
        Record {
            chr: self.chr.clone(),
            start: self.start,
            end: self.end,
            name: self.name.clone(),
            read_number: self.read_number,
            bs_strand: self.bs_strand,
            cpg: self.cpg.clone(),
            gpc,
        }
    }
}

impl PartialEq for Record {
    fn eq(&self, other: &Self) -> (r: bool) {
        let gpc_eq = match (&self.gpc, &other.gpc) {
            (Some(a), Some(b)) => a.eq(b),
            (None, None) => true,
            _ => false,
        };
        self.chr.eq(&other.chr) && self.start == other.start && self.end == other.end
            && self.name.eq(&other.name) && self.read_number == other.read_number
            && self.bs_strand == other.bs_strand && self.cpg.eq(&other.cpg) && gpc_eq
    }
}

impl Eq for Record {

}

/// Two records are equal where their views are: field by field.
impl vstd::std_specs::cmp::PartialEqSpecImpl for Record {
    open spec fn obeys_eq_spec() -> bool {
        true
    }

    open spec fn eq_spec(&self, other: &Self) -> bool {
        self@ == other@
    }
}

} // verus!
