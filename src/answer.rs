use vstd::prelude::*;
use crate::selector::Answer;
use crate::text::{lower_of, lowercase, same_text, trim_of, trimmed};

verus! {

/// The answer that a normalized reply stands for.
pub open spec fn answer_of(s: Seq<char>) -> Answer {
    if s == "y"@ {
        Answer::Accept
    } else if s == "n"@ {
        Answer::Reject
    } else {
        Answer::Unrecognized
    }
}

/// The answer given by a reply that is already trimmed and in lower case.
pub fn answer_of_normalized(s: &str) -> (r: Answer)
    ensures
        r == answer_of(s@),
{
    if same_text(s, "y") {
        Answer::Accept
    } else if same_text(s, "n") {
        Answer::Reject
    } else {
        Answer::Unrecognized
    }
}

/// The answer given by a line the user typed: surrounding whitespace and
/// letter case do not matter.
pub fn read_answer(line: &str) -> (r: Answer)
    ensures
        r == answer_of(lower_of(trim_of(line@))),
{
    let lowered = lowercase(trimmed(line));
    answer_of_normalized(&lowered)
}

} // verus!
