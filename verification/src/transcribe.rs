//! Assembly of the transcription engine's output, and the language hint
//! handed to it.
//!
//! The engine returns an ordered list of segment texts; the final
//! transcript is their concatenation, trimmed of surrounding whitespace.

use vstd::prelude::*;
use vstd::string::*;

use crate::text::{trim_to_string, trimmed};

verus! {

/// The concatenation of the segment texts, in order.
pub open spec fn joined(texts: Seq<String>) -> Seq<char>
    decreases texts.len(),
{
    if texts.len() == 0 {
        Seq::empty()
    } else {
        joined(texts.drop_last()) + texts.last()@
    }
}

/// Concatenates the engine's segment texts in order and trims the
/// result.
pub fn assemble_transcript(segments: &Vec<String>) -> (transcript: String)
    ensures
        transcript@ == trimmed(joined(segments@)),
{
    let mut acc = String::new();
    let mut i: usize = 0;
    while i < segments.len()
        invariant
            i <= segments@.len(),
            acc@ == joined(segments@.take(i as int)),
        decreases segments@.len() - i,
    {
        let piece: &String = &segments[i];
        acc.append(piece.as_str());
        proof {
            assert(segments@.take(i + 1 as int).drop_last() =~= segments@.take(i as int));
            assert(segments@.take(i + 1 as int).last() == segments@[i as int]);
        }
        i = i + 1;
    }
    proof {
        assert(segments@.take(segments@.len() as int) =~= segments@);
    }
    trim_to_string(acc.as_str())
}

/// The language hint for the engine: none when the configured language is
/// "auto" (auto-detection), else the language itself.
pub fn language_hint(language: &String) -> (hint: Option<String>)
    ensures
        language@ == "auto"@ ==> hint is None,
        language@ != "auto"@ ==> {
            &&& hint matches Some(l) && l@ == language@
        },
{
    let auto = String::from_str("auto");
    if *language == auto {
        None
    } else {
        Some(language.clone())
    }
}

} // verus!
