//! Call strings: one symbol per genomic position.
//!
//! Lengths and offsets count symbols, so that an offset into a call string
//! is a distance in positions of the reference.

use vstd::prelude::*;
use vstd::string::*;

verus! {

/// The symbol that stands for a position between two mates that neither of
/// them sequenced. It is a symbol of the call alphabet like any other, and
/// downstream readers meet it inside collapsed call strings.
pub const GAP_SYMBOL: char = 'x';

/// A run of `n` gap symbols.
pub open spec fn padding(n: nat) -> Seq<char> {
    Seq::new(n, |i: int| GAP_SYMBOL)
}

/// The first `n` calls, where the string holds that many.
pub open spec fn leading(calls: Seq<char>, n: int) -> Option<Seq<char>> {
    if 0 <= n <= calls.len() {
        Some(calls.take(n))
    } else {
        None
    }
}

/// The calls that are left once the first `n` are dropped, where the
/// string holds that many.
pub open spec fn trailing(calls: Seq<char>, n: int) -> Option<Seq<char>> {
    if 0 <= n <= calls.len() {
        Some(calls.skip(n))
    } else {
        None
    }
}

/// True where the interval `[start, end)` has exactly one position for
/// each call of the string.
pub open spec fn covers(start: nat, end: nat, calls: Seq<char>) -> bool {
    end - start == calls.len()
}

/// The gap symbol as a string of one symbol.
pub fn gap_symbol() -> (s: &'static str)
    ensures
        s@ == seq![GAP_SYMBOL],
{
    proof {
        reveal_strlit("x");
    }
    let s = "x";
    assert(s@ =~= seq![GAP_SYMBOL]);
    s
}

/// Builds a run of `n` gap symbols.
pub fn gap_padding(n: u64) -> (pad: String)
    ensures
        pad@ == padding(n as nat),
{
    let gap = gap_symbol();
    let mut pad = String::new();
    let mut i: u64 = 0;
    while i < n
        invariant
            i <= n,
            pad@ == padding(i as nat),
            gap@ == seq![GAP_SYMBOL],
        decreases n - i,
    {
        pad.append(gap);
        i = i + 1;
        assert(pad@ =~= padding(i as nat));
    }
    pad
}

/// Number of calls in the string.
pub fn call_count(calls: &String) -> (n: usize)
    ensures
        n == calls@.len(),
{
    calls.as_str().unicode_len()
}

/// Copies the first `n` calls.
pub fn first_calls(calls: &String, n: usize) -> (head: String)
    requires
        n <= calls@.len(),
    ensures
        head@ == calls@.take(n as int),
{
    String::from_str(calls.as_str().substring_char(0, n))
}

/// Copies the calls from offset `n` on.
pub fn calls_from(calls: &String, n: usize) -> (tail: String)
    requires
        n <= calls@.len(),
    ensures
        tail@ == calls@.skip(n as int),
{
    let len = call_count(calls);
    String::from_str(calls.as_str().substring_char(n, len))
}

/// Checks a call string against the interval it is meant for.
pub fn check_covers(start: u64, end: u64, calls: &String) -> (ok: bool)
    ensures
        ok == covers(start as nat, end as nat, calls@),
{
    let len = call_count(calls);
    start <= end && end - start == len as u64
}

} // verus!
