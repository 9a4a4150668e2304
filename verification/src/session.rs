//! The session log: one entry for each exchange, in Markdown.

use vstd::prelude::*;
use vstd::string::*;

verus! {

/// An entry, up to the time of day.
pub const ENTRY_OPEN: &'static str = "## [";

/// An entry, from the time of day to what was heard.
pub const ENTRY_TRANSCRIPT: &'static str = "]\n\n**Transcript:**\n";

/// An entry, from what was heard to what was answered.
pub const ENTRY_ANSWER: &'static str = "\n\n**Kuroko:**\n";

/// The rule that ends an entry.
pub const ENTRY_CLOSE: &'static str = "\n\n---\n\n";

/// One entry of the session log.
pub open spec fn entry_text(timestamp: Seq<char>, transcript: Seq<char>, answer: Seq<char>) -> Seq<
    char,
> {
    ENTRY_OPEN@ + timestamp + ENTRY_TRANSCRIPT@ + transcript + ENTRY_ANSWER@ + answer
        + ENTRY_CLOSE@
}

/// The entry that records, under the time of day `timestamp`, what was
/// heard and what was answered.
pub fn log_entry(timestamp: &str, transcript: &str, answer: &str) -> (entry: String)
    ensures
        entry@ == entry_text(timestamp@, transcript@, answer@),
{
    let mut entry = ENTRY_OPEN.to_owned();
    entry.append(timestamp);
    entry.append(ENTRY_TRANSCRIPT);
    entry.append(transcript);
    entry.append(ENTRY_ANSWER);
    entry.append(answer);
    entry.append(ENTRY_CLOSE);
    assert(entry@ =~= entry_text(timestamp@, transcript@, answer@));
    entry
}

} // verus!
