//! The decision behind the line-oriented input source.
//!
//! The reader hands over each line it read together with the byte count
//! the read returned; zero bytes is the end of input, a blank line is
//! skipped, and anything else is delivered trimmed.

use vstd::prelude::*;

use crate::text::{trim_to_string, trimmed};

verus! {

pub enum LineOutcome {
    /// The input reached its end.
    EndOfInput,
    /// The line was blank: read the next one.
    SkipEmpty,
    /// A non-blank line, trimmed.
    Deliver(String),
}

pub fn line_decision(bytes_read: usize, line: &str) -> (out: LineOutcome)
    ensures
        bytes_read == 0 <==> out is EndOfInput,
        bytes_read > 0 && trimmed(line@).len() == 0 <==> out is SkipEmpty,
        bytes_read > 0 && trimmed(line@).len() > 0 ==> {
            &&& out matches LineOutcome::Deliver(t) && t@ == trimmed(line@)
        },
{
    if bytes_read == 0 {
        LineOutcome::EndOfInput
    } else {
        let t = trim_to_string(line);
        if t.as_str().is_empty() {
            LineOutcome::SkipEmpty
        } else {
            LineOutcome::Deliver(t)
        }
    }
}

} // verus!
