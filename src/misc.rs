//! The marker that starts each line that the program itself writes.

use vstd::prelude::*;

use crate::time_wrapper::civil_of;
use crate::time_wrapper::clock_text;
use crate::time_wrapper::Instant;

verus! {

/// `<O> ` followed by `line`.
pub open spec fn timeless_text(line: Seq<char>) -> Seq<char> {
    seq!['<', 'O', '>', ' '] + line
}

/// `<O> `, the instant as shown, a space and `line`.
pub open spec fn stamped_text(ms: int, line: Seq<char>) -> Seq<char> {
    seq!['<', 'O', '>', ' '] + clock_text(civil_of(ms)) + seq![' '] + line
}

/// Marks `line` as written by the program, with the instant `timestamp`.
pub fn ofmt_helper(timestamp: &Instant, line: &str) -> (r: String)
    ensures
        r@ == stamped_text(timestamp.shown_ms(), line@),
{
    proof {
        reveal_strlit("<O> ");
        reveal_strlit(" ");
    }
    let mut s = String::from_str("<O> ");
    let t = timestamp.to_text();
    s.append(t.as_str());
    s.append(" ");
    s.append(line);
    assert(s@ =~= stamped_text(timestamp.shown_ms(), line@));
    s
}

/// Marks `line` as written by the program, without an instant.
pub fn ofmt_timeless_helper(line: &str) -> (r: String)
    ensures
        r@ == timeless_text(line@),
{
    proof {
        reveal_strlit("<O> ");
    }
    let mut s = String::from_str("<O> ");
    s.append(line);
    assert(s@ =~= timeless_text(line@));
    s
}

} // verus!
