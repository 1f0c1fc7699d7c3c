//! The command trace: what one exchange with the modem leaves in the log
//! of commands, and how the raw lines of an answer become its lines.

use vstd::prelude::*;
use vstd::string::*;
use crate::gsm::types::texts;
use crate::text::{join, strip_line_end, strip_line_end_text};

verus! {

/// The trace entry for a command that was written.
pub open spec fn sent(command: Seq<char>) -> Seq<char> {
    "Sent: '"@ + command + "'"@
}

/// The trace entry for a line that was read.
pub open spec fn received(line: Seq<char>) -> Seq<char> {
    "Received: '"@ + line + "'"@
}

/// The trace of one exchange: the command, then every line of the answer
/// in the order in which the modem sent it, with nothing in between.
pub open spec fn exchange(command: Seq<char>, lines: Seq<Seq<char>>) -> Seq<Seq<char>> {
    seq![sent(command)] + lines.map_values(|line: Seq<char>| received(line))
}

/// The trace entry for a command that was written.
pub fn sent_entry(command: &str) -> (entry: String)
    ensures
        entry@ == sent(command@),
{
    join("Sent: '", command).concat("'")
}

/// The trace entry for a line that was read.
pub fn received_entry(line: &str) -> (entry: String)
    ensures
        entry@ == received(line@),
{
    join("Received: '", line).concat("'")
}

/// The lines of an answer, from the raw lines as they were read: each
/// without its line ending, in the same order.
pub fn answer_lines(raw: &Vec<String>) -> (lines: Vec<String>)
    ensures
        texts(lines@) == texts(raw@).map_values(|line: Seq<char>| strip_line_end(line)),
{
    let mut lines: Vec<String> = Vec::new();
    let mut i: usize = 0;
    while i < raw.len()
        invariant
            i <= raw@.len(),
            lines@.len() == i,
            forall|k: int| 0 <= k < i ==> (#[trigger] lines@[k])@ == strip_line_end(raw@[k]@),
        decreases raw@.len() - i,
    {
        lines.push(strip_line_end_text(raw[i].as_str()));
        i = i + 1;
    }
    assert(texts(lines@) =~= texts(raw@).map_values(|line: Seq<char>| strip_line_end(line)));
    lines
}

/// The trace of one exchange, entry by entry.
pub fn exchange_entries(command: &str, lines: &Vec<String>) -> (entries: Vec<String>)
    ensures
        texts(entries@) == exchange(command@, texts(lines@)),
{
    let mut entries: Vec<String> = Vec::new();
    entries.push(sent_entry(command));
    let mut i: usize = 0;
    while i < lines.len()
        invariant
            i <= lines@.len(),
            entries@.len() == i + 1,
            entries@[0]@ == sent(command@),
            forall|k: int| 0 <= k < i ==> (#[trigger] entries@[k + 1])@ == received(lines@[k]@),
        decreases lines@.len() - i,
    {
        entries.push(received_entry(lines[i].as_str()));
        i = i + 1;
    }
    proof {
        let want = exchange(command@, texts(lines@));
        let got = texts(entries@);
        assert(want.len() == got.len());
        assert forall|k: int| 0 <= k < got.len() implies got[k] == want[k] by {
            if k > 0 {
                assert(got[k] == entries@[(k - 1) + 1]@);
                assert(want[k] == texts(lines@).map_values(|line: Seq<char>| received(line))[k
                    - 1]);
            }
        }
        assert(got =~= want);
    }
    entries
}

} // verus!
