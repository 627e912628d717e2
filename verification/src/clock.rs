//! The wall clock.

use crate::lines::line_survives;
use vstd::prelude::*;

verus! {

/// Whether `text` stays on one line: it holds neither a line feed nor a
/// carriage return.
pub open spec fn is_one_line(text: Seq<char>) -> bool {
    forall|j: int| 0 <= j < text.len() ==> #[trigger] text[j] != '\n' && text[j] != '\r'
}

/// A text that stays on one line comes back from a file written with
/// either line ending.
pub proof fn lemma_one_line_survives(text: Seq<char>, nl: Seq<char>)
    requires
        is_one_line(text),
    ensures
        line_survives(text, nl),
{
    if text.len() > 0 {
        assert(text[text.len() - 1] != '\r');
    }
}

/// The local time as `YYYY-MM-DD HH:MM:SS`, from `chrono::Local::now` and
/// `DateTime::format`. Trusted: the format items write digits, a sign,
/// hyphens, colons and one space, so the text stays on one line. Nothing is
/// claimed of the time it shows.
#[verifier::external_body]
pub(crate) fn local_timestamp() -> (now: String)
    ensures
        is_one_line(now@),
{
    chrono::Local::now().format("%Y-%m-%d %H:%M:%S").to_string()
}

} // verus!
