//! The text blocks appended to the optional transcript file: one user block
//! and one assistant block per completed turn, in a fixed literal layout.

use vstd::prelude::*;
use vstd::string::*;
use crate::text::{trim, trim_spec};

verus! {

/// The pair of blocks recorded for one completed turn: the trimmed user text
/// under the `***user>***` marker, then the trimmed assistant text under the
/// `***chatwise>***` marker, each block closed by a blank line.
pub open spec fn record_block(user: Seq<char>, assistant: Seq<char>) -> Seq<char> {
    "***user>*** "@ + trim_spec(user) + "\n\n***chatwise>*** "@ + trim_spec(assistant) + "\n\n"@
}

/// Renders the transcript-file blocks for one completed turn.
pub fn format_record(user: &str, assistant: &str) -> (r: String)
    ensures
        r@ == record_block(user@, assistant@),
{
    let mut out = String::from_str("***user>*** ");
    let u = trim(user);
    out.append(u.as_str());
    out.append("\n\n***chatwise>*** ");
    let a = trim(assistant);
    out.append(a.as_str());
    out.append("\n\n");
    proof {
        assert(out@ =~= record_block(user@, assistant@));
    }
    out
}

} // verus!
