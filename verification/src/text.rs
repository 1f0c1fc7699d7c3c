//! Text primitives shared by the record parser and the modem protocol.
//!
//! Every function is specified over the sequence of characters of its
//! arguments.

use vstd::prelude::*;
use vstd::string::*;

verus! {

/// Whether `needle` occurs in `s` starting at position `at`.
pub open spec fn occurs_at(s: Seq<char>, needle: Seq<char>, at: int) -> bool {
    &&& 0 <= at
    &&& at + needle.len() <= s.len()
    &&& s.subrange(at, at + needle.len()) == needle
}

/// Whether `needle` occurs anywhere in `s`.
pub open spec fn contains(s: Seq<char>, needle: Seq<char>) -> bool {
    exists|at: int| occurs_at(s, needle, at)
}

/// Position of the first `sep` in `s`, or the length of `s` if there is none.
pub open spec fn first_sep(s: Seq<char>, sep: char) -> int
    decreases s.len(),
{
    if s.len() == 0 || s[0] == sep {
        0
    } else {
        1 + first_sep(s.drop_first(), sep)
    }
}

/// The pieces of `s` between occurrences of `sep`. There is always at least
/// one piece, and pieces may be empty.
pub open spec fn split(s: Seq<char>, sep: char) -> Seq<Seq<char>>
    decreases s.len(),
{
    let cut = first_sep(s, sep);
    if 0 <= cut < s.len() {
        seq![s.subrange(0, cut)] + split(s.subrange(cut + 1, s.len() as int), sep)
    } else {
        seq![s]
    }
}

/// The characters that count as white space.
pub open spec fn is_space(c: char) -> bool {
    let n = c as u32;
    ||| 0x09 <= n <= 0x0d
    ||| n == 0x20
    ||| n == 0x85
    ||| n == 0xa0
    ||| n == 0x1680
    ||| 0x2000 <= n <= 0x200a
    ||| n == 0x2028
    ||| n == 0x2029
    ||| n == 0x202f
    ||| n == 0x205f
    ||| n == 0x3000
}

/// Number of white-space characters at the start of `s`.
pub open spec fn leading_spaces(s: Seq<char>) -> int
    decreases s.len(),
{
    if s.len() > 0 && is_space(s[0]) {
        1 + leading_spaces(s.drop_first())
    } else {
        0
    }
}

/// Number of white-space characters at the end of `s`.
pub open spec fn trailing_spaces(s: Seq<char>) -> int
    decreases s.len(),
{
    if s.len() > 0 && is_space(s.last()) {
        1 + trailing_spaces(s.drop_last())
    } else {
        0
    }
}

/// `s` without the white space at its two ends.
pub open spec fn trim(s: Seq<char>) -> Seq<char> {
    let rest = s.subrange(leading_spaces(s), s.len() as int);
    rest.subrange(0, rest.len() - trailing_spaces(rest))
}

/// `s` without one line ending: a final line feed, and the carriage return
/// before it if there is one. A text that does not end in a line feed is
/// left as it is.
pub open spec fn strip_line_end(s: Seq<char>) -> Seq<char> {
    if s.len() > 0 && s.last() == '\n' {
        let body = s.drop_last();
        if body.len() > 0 && body.last() == '\r' {
            body.drop_last()
        } else {
            body
        }
    } else {
        s
    }
}

/// The first separator lies within the text, and nothing before it is a
/// separator.
pub proof fn lemma_first_sep_bounds(s: Seq<char>, sep: char)
    ensures
        0 <= first_sep(s, sep) <= s.len(),
        first_sep(s, sep) < s.len() ==> s[first_sep(s, sep)] == sep,
        forall|j: int| 0 <= j < first_sep(s, sep) ==> s[j] != sep,
    decreases s.len(),
{
    if s.len() == 0 || s[0] == sep {
    } else {
        let t = s.drop_first();
        lemma_first_sep_bounds(t, sep);
        assert forall|j: int| 0 <= j < first_sep(s, sep) implies s[j] != sep by {
            if j > 0 {
                assert(s[j] == t[j - 1]);
            }
        }
    }
}

/// The first separator is where a scan from the left finds it.
pub proof fn lemma_first_sep_is(s: Seq<char>, sep: char, at: int)
    requires
        0 <= at <= s.len(),
        forall|j: int| 0 <= j < at ==> s[j] != sep,
        at < s.len() ==> s[at] == sep,
    ensures
        first_sep(s, sep) == at,
{
    lemma_first_sep_bounds(s, sep);
    let f = first_sep(s, sep);
    if f < at {
        assert(s[f] == sep);
    } else if f > at {
        assert(s[at] != sep);
    }
}

/// The white space at the start ends within the text, at the first
/// character that is none.
pub proof fn lemma_leading_spaces_bounds(s: Seq<char>)
    ensures
        0 <= leading_spaces(s) <= s.len(),
        forall|j: int| 0 <= j < leading_spaces(s) ==> is_space(s[j]),
        leading_spaces(s) < s.len() ==> !is_space(s[leading_spaces(s)]),
    decreases s.len(),
{
    if s.len() > 0 && is_space(s[0]) {
        let t = s.drop_first();
        lemma_leading_spaces_bounds(t);
        assert forall|j: int| 0 <= j < leading_spaces(s) implies is_space(s[j]) by {
            if j > 0 {
                assert(s[j] == t[j - 1]);
            }
        }
    }
}

/// The white space at the start is where a scan from the left finds its
/// end.
pub proof fn lemma_leading_spaces_is(s: Seq<char>, at: int)
    requires
        0 <= at <= s.len(),
        forall|j: int| 0 <= j < at ==> is_space(s[j]),
        at < s.len() ==> !is_space(s[at]),
    ensures
        leading_spaces(s) == at,
{
    lemma_leading_spaces_bounds(s);
    let f = leading_spaces(s);
    if f < at {
        assert(is_space(s[f]));
    } else if f > at {
        assert(is_space(s[at]));
    }
}

/// The white space at the end begins within the text, after the last
/// character that is none.
pub proof fn lemma_trailing_spaces_bounds(s: Seq<char>)
    ensures
        0 <= trailing_spaces(s) <= s.len(),
        forall|j: int| s.len() - trailing_spaces(s) <= j < s.len() ==> is_space(s[j]),
        trailing_spaces(s) < s.len() ==> !is_space(s[s.len() - trailing_spaces(s) - 1]),
    decreases s.len(),
{
    if s.len() > 0 && is_space(s.last()) {
        let t = s.drop_last();
        lemma_trailing_spaces_bounds(t);
        assert forall|j: int| s.len() - trailing_spaces(s) <= j < s.len() implies is_space(
            s[j],
        ) by {
            if j < s.len() - 1 {
                assert(s[j] == t[j]);
            }
        }
        if trailing_spaces(s) < s.len() {
            assert(s[s.len() - trailing_spaces(s) - 1] == t[t.len() - trailing_spaces(t) - 1]);
        }
    }
}

/// The white space at the end is where a scan from the right finds its
/// beginning.
pub proof fn lemma_trailing_spaces_is(s: Seq<char>, count: int)
    requires
        0 <= count <= s.len(),
        forall|j: int| s.len() - count <= j < s.len() ==> is_space(s[j]),
        count < s.len() ==> !is_space(s[s.len() - count - 1]),
    ensures
        trailing_spaces(s) == count,
{
    lemma_trailing_spaces_bounds(s);
    let f = trailing_spaces(s);
    if f < count {
        assert(is_space(s[s.len() - f - 1]));
    } else if f > count {
        assert(is_space(s[s.len() - count - 1]));
    }
}

/// The pieces put together again, with `sep` between each two.
pub open spec fn rejoin(pieces: Seq<Seq<char>>, sep: char) -> Seq<char>
    decreases pieces.len(),
{
    if pieces.len() == 0 {
        Seq::empty()
    } else if pieces.len() == 1 {
        pieces[0]
    } else {
        pieces[0] + seq![sep] + rejoin(pieces.drop_first(), sep)
    }
}

/// Splitting loses nothing and leaves no separator behind: no piece holds
/// `sep`, and the pieces put together again with `sep` between them are
/// the text that was split.
pub proof fn lemma_split_rejoins(s: Seq<char>, sep: char)
    ensures
        split(s, sep).len() >= 1,
        rejoin(split(s, sep), sep) == s,
        forall|k: int, j: int|
            0 <= k < split(s, sep).len() && 0 <= j < split(s, sep)[k].len() ==> split(
                s,
                sep,
            )[k][j] != sep,
    decreases s.len(),
{
    lemma_first_sep_bounds(s, sep);
    let cut = first_sep(s, sep);
    if cut < s.len() {
        let head = s.subrange(0, cut);
        let rest = s.subrange(cut + 1, s.len() as int);
        let pieces = split(s, sep);
        lemma_split_rejoins(rest, sep);
        assert(pieces == seq![head] + split(rest, sep));
        assert(pieces.drop_first() =~= split(rest, sep));
        assert(head + seq![sep] + rest =~= s);
        assert forall|k: int, j: int| 0 <= k < pieces.len() && 0 <= j < pieces[k].len() implies pieces[k][j]
            != sep by {
            if k > 0 {
                assert(pieces[k] == split(rest, sep)[k - 1]);
            }
        }
    }
}

/// Trimming takes away white space and nothing else, and all of it at the
/// two ends: the text is its trimmed form between two runs of white space,
/// and the trimmed form neither begins nor ends with white space.
pub proof fn lemma_trim_is_tight(s: Seq<char>)
    ensures
        ({
            let lead = leading_spaces(s);
            let tail = trailing_spaces(s.subrange(lead, s.len() as int));
            &&& 0 <= lead <= s.len() - tail <= s.len()
            &&& trim(s) == s.subrange(lead, s.len() - tail)
            &&& forall|j: int| 0 <= j < lead ==> is_space(s[j])
            &&& forall|j: int| s.len() - tail <= j < s.len() ==> is_space(s[j])
            &&& trim(s).len() > 0 ==> !is_space(trim(s)[0]) && !is_space(trim(s).last())
        }),
{
    let lead = leading_spaces(s);
    lemma_leading_spaces_bounds(s);
    let rest = s.subrange(lead, s.len() as int);
    let tail = trailing_spaces(rest);
    lemma_trailing_spaces_bounds(rest);
    assert(rest.subrange(0, rest.len() - tail) =~= s.subrange(lead, s.len() - tail));
    assert forall|j: int| s.len() - tail <= j < s.len() implies is_space(s[j]) by {
        assert(s[j] == rest[j - lead]);
    }
    if trim(s).len() > 0 {
        assert(trim(s)[0] == s[lead]);
        assert(trim(s).last() == rest[rest.len() - tail - 1]);
    }
}

/// Whether `c` is white space.
pub fn char_is_space(c: char) -> (space: bool)
    ensures
        space == is_space(c),
{
    let n: u32 = c as u32;
    (0x09 <= n && n <= 0x0d) || n == 0x20 || n == 0x85 || n == 0xa0 || n == 0x1680 || (0x2000 <= n
        && n <= 0x200a) || n == 0x2028 || n == 0x2029 || n == 0x202f || n == 0x205f || n == 0x3000
}

/// The characters of `s`, one by one.
pub fn chars_of(s: &str) -> (chars: Vec<char>)
    ensures
        chars@ == s@,
{
    let n: usize = s.unicode_len();
    let mut chars: Vec<char> = Vec::new();
    let mut i: usize = 0;
    while i < n
        invariant
            n == s@.len(),
            i <= n,
            chars@ == s@.subrange(0, i as int),
        decreases n - i,
    {
        chars.push(s.get_char(i));
        i = i + 1;
    }
    chars
}

/// Whether two texts hold the same characters.
pub fn same_text(a: &str, b: &str) -> (same: bool)
    ensures
        same == (a@ == b@),
{
    let left: String = a.to_owned();
    let right: String = b.to_owned();
    left == right
}

/// `a` followed by `b`.
pub fn join(a: &str, b: &str) -> (joined: String)
    ensures
        joined@ == a@ + b@,
{
    a.to_owned().concat(b)
}

/// Whether `needle` occurs in `line`.
pub fn contains_text(line: &str, needle: &str) -> (found: bool)
    ensures
        found == contains(line@, needle@),
{
    let hay: Vec<char> = chars_of(line);
    let pat: Vec<char> = chars_of(needle);
    if pat.len() > hay.len() {
        assert forall|at: int| !occurs_at(line@, needle@, at) by {}
        return false;
    }
    let last: usize = hay.len() - pat.len();
    let mut at: usize = 0;
    while at <= last
        invariant
            hay@ == line@,
            pat@ == needle@,
            pat.len() <= hay.len(),
            last == hay.len() - pat.len(),
            at <= last + 1,
            forall|k: int| 0 <= k < at ==> !occurs_at(line@, needle@, k),
        decreases last + 1 - at,
    {
        let mut j: usize = 0;
        while j < pat.len() && hay[at + j] == pat[j]
            invariant
                hay@ == line@,
                pat@ == needle@,
                at <= last,
                last == hay.len() - pat.len(),
                j <= pat.len(),
                forall|k: int| 0 <= k < j ==> hay@[at + k] == pat@[k],
            decreases pat.len() - j,
        {
            j = j + 1;
        }
        if j == pat.len() {
            assert(line@.subrange(at as int, at + needle@.len()) =~= needle@);
            assert(occurs_at(line@, needle@, at as int));
            return true;
        }
        assert(!occurs_at(line@, needle@, at as int)) by {
            if occurs_at(line@, needle@, at as int) {
                assert(line@.subrange(at as int, at + needle@.len())[j as int] == needle@[j as int]);
            }
        }
        at = at + 1;
    }
    assert forall|k: int| !occurs_at(line@, needle@, k) by {}
    false
}

/// The pieces of `line` between occurrences of `sep`, in order.
pub fn split_text(line: &str, sep: char) -> (pieces: Vec<String>)
    ensures
        pieces@.len() == split(line@, sep).len(),
        forall|k: int| 0 <= k < pieces@.len() ==> (#[trigger] pieces@[k])@ == split(line@, sep)[k],
{
    let chars: Vec<char> = chars_of(line);
    let n: usize = chars.len();
    let mut pieces: Vec<String> = Vec::new();
    let mut start: usize = 0;
    let mut i: usize = 0;
    let ghost mut done: Seq<Seq<char>> = Seq::empty();
    proof {
        assert(line@.subrange(0, n as int) =~= line@);
    }
    while i < n
        invariant
            chars@ == line@,
            n == chars.len(),
            start <= i <= n,
            forall|j: int| start <= j < i ==> line@[j] != sep,
            pieces@.len() == done.len(),
            forall|k: int| 0 <= k < pieces@.len() ==> (#[trigger] pieces@[k])@ == done[k],
            split(line@, sep) == done + split(line@.subrange(start as int, n as int), sep),
        decreases n - i,
    {
        if chars[i] == sep {
            let piece: String = line.substring_char(start, i).to_owned();
            proof {
                let rest = line@.subrange(start as int, n as int);
                lemma_first_sep_is(rest, sep, i - start);
                assert(rest.subrange(0, i - start) =~= line@.subrange(start as int, i as int));
                assert(rest.subrange(i - start + 1, rest.len() as int) =~= line@.subrange(
                    i + 1,
                    n as int,
                ));
                assert(done + (seq![piece@] + split(line@.subrange(i + 1, n as int), sep)) =~= done.push(
                    piece@,
                ) + split(line@.subrange(i + 1, n as int), sep));
                done = done.push(piece@);
            }
            pieces.push(piece);
            start = i + 1;
        }
        i = i + 1;
    }
    let piece: String = line.substring_char(start, n).to_owned();
    proof {
        let rest = line@.subrange(start as int, n as int);
        lemma_first_sep_is(rest, sep, n - start);
        assert(split(rest, sep) == seq![rest]);
        assert(done + seq![rest] =~= done.push(rest));
    }
    pieces.push(piece);
    pieces
}

/// `s` without the white space at its two ends.
pub fn trim_text(s: &str) -> (trimmed: String)
    ensures
        trimmed@ == trim(s@),
{
    let chars: Vec<char> = chars_of(s);
    let n: usize = chars.len();
    let mut from: usize = 0;
    while from < n && char_is_space(chars[from])
        invariant
            chars@ == s@,
            n == chars.len(),
            from <= n,
            forall|j: int| 0 <= j < from ==> is_space(s@[j]),
        decreases n - from,
    {
        from = from + 1;
    }
    let mut to: usize = n;
    while to > from && char_is_space(chars[to - 1])
        invariant
            chars@ == s@,
            n == chars.len(),
            from <= to <= n,
            forall|j: int| to <= j < n ==> is_space(s@[j]),
        decreases to,
    {
        to = to - 1;
    }
    proof {
        lemma_leading_spaces_is(s@, from as int);
        let rest = s@.subrange(from as int, n as int);
        lemma_trailing_spaces_is(rest, n - to);
        assert(rest.subrange(0, rest.len() - (n - to)) =~= s@.subrange(from as int, to as int));
    }
    s.substring_char(from, to).to_owned()
}

/// `s` without its line ending.
pub fn strip_line_end_text(s: &str) -> (line: String)
    ensures
        line@ == strip_line_end(s@),
{
    let chars: Vec<char> = chars_of(s);
    let n: usize = chars.len();
    let mut end: usize = n;
    if n > 0 && chars[n - 1] == '\n' {
        end = n - 1;
        if end > 0 && chars[end - 1] == '\r' {
            end = end - 1;
        }
    }
    proof {
        assert(s@.subrange(0, n as int) =~= s@);
        if n > 0 {
            assert(s@.drop_last() =~= s@.subrange(0, n - 1));
        }
        if n > 1 {
            assert(s@.drop_last().drop_last() =~= s@.subrange(0, n - 2));
        }
    }
    s.substring_char(0, end).to_owned()
}

} // verus!
