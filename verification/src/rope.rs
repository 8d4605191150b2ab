use vstd::prelude::*;
use ropey::Rope;

verus! {

#[verifier::external_type_specification]
#[verifier::external_body]
pub struct ExRope(Rope);

/// The chars that a rope holds.
pub uninterp spec fn rope_text(r: Rope) -> Seq<char>;

/// The chars that end a line: line feed, vertical tab, form feed, carriage return, next
/// line, line separator and paragraph separator.
pub open spec fn is_line_break(c: char) -> bool {
    c == '\n' || c == '\u{0B}' || c == '\u{0C}' || c == '\r' || c == '\u{85}' || c == '\u{2028}'
        || c == '\u{2029}'
}

/// Whether a line ends with the char at `i`: a line break, except a carriage return
/// that a line feed follows (the two end one line together).
pub open spec fn break_ends_at(t: Seq<char>, i: int) -> bool {
    &&& 0 <= i < t.len()
    &&& is_line_break(t[i])
    &&& !(t[i] == '\r' && i + 1 < t.len() && t[i + 1] == '\n')
}

/// The number of line ends among the first `n` chars.
pub open spec fn breaks_in(t: Seq<char>, n: int) -> nat
    decreases n,
{
    if n <= 0 {
        0
    } else {
        breaks_in(t, n - 1) + if break_ends_at(t, n - 1) { 1nat } else { 0nat }
    }
}

/// What `Rope::len_lines` gives for a rope holding `text`: one more than its line ends.
#[verifier::opaque]
pub open spec fn rope_line_count(text: Seq<char>) -> nat {
    breaks_in(text, text.len() as int) + 1
}

/// What `Rope::line_to_char` gives for a rope holding `text`: 0 for the first line, the
/// index just past the line's-th line end for a later line, and the text's length for
/// the line one past the last.
#[verifier::opaque]
pub open spec fn rope_line_start(text: Seq<char>, line: nat) -> nat {
    if line == 0 {
        0
    } else if line < breaks_in(text, text.len() as int) + 1 {
        choose|p: nat| 0 < p <= text.len() && break_ends_at(text, p - 1) && breaks_in(text, p as int) == line
    } else {
        text.len()
    }
}

/// Line ends before the last char do not depend on what follows the text.
proof fn lemma_breaks_in_push(t: Seq<char>, c: char, n: int)
    requires
        0 <= n < t.len(),
    ensures
        breaks_in(t.push(c), n) == breaks_in(t, n),
    decreases n,
{
    if n > 0 {
        lemma_breaks_in_push(t, c, n - 1);
        assert(t.push(c)[n - 1] == t[n - 1] && t.push(c)[n] == t[n]);
    }
}

/// A text without line breaks is one line; ending a text with a line feed adds a line,
/// unless the text ends in a carriage return, which the line feed then joins.
pub proof fn lemma_line_count_push(t: Seq<char>, c: char)
    ensures
        (forall|i: int| 0 <= i < t.len() ==> !is_line_break(#[trigger] t[i])) ==> rope_line_count(t) == 1,
        !is_line_break(c) ==> rope_line_count(t.push(c)) == rope_line_count(t),
        c == '\n' && (t.len() == 0 || t.last() != '\r') ==> rope_line_count(t.push(c)) == rope_line_count(t) + 1,
        c == '\n' && t.len() > 0 && t.last() == '\r' ==> rope_line_count(t.push(c)) == rope_line_count(t),
{
    reveal(rope_line_count);
    lemma_no_breaks(t, t.len() as int);
    let u = t.push(c);
    if t.len() > 0 {
        lemma_breaks_in_push(t, c, t.len() - 1);
        assert(u[t.len() - 1] == t[t.len() - 1]);
        assert(u[t.len() as int] == c);
    }
    assert(breaks_in(u, u.len() as int) == breaks_in(u, t.len() as int) + if break_ends_at(u, t.len() as int) { 1nat } else { 0nat });
}

proof fn lemma_no_breaks(t: Seq<char>, n: int)
    requires
        0 <= n <= t.len(),
    ensures
        (forall|i: int| 0 <= i < t.len() ==> !is_line_break(#[trigger] t[i])) ==> breaks_in(t, n) == 0,
    decreases n,
{
    if n > 0 {
        lemma_no_breaks(t, n - 1);
    }
}

/// `Rope::from_str`: a rope holding the chars of `s`.
#[verifier::external_body]
pub(crate) fn rope_from_str(s: &str) -> (r: Rope)
    ensures
        rope_text(r) == s@,
{
    Rope::from_str(s)
}

/// `Rope::len_chars`: the number of chars held.
#[verifier::external_body]
pub(crate) fn rope_len_chars(r: &Rope) -> (n: usize)
    ensures
        n == rope_text(*r).len(),
{
    r.len_chars()
}

/// `Rope::len_lines`: the number of lines, one more than the number of line breaks, so
/// at least one.
#[verifier::external_body]
pub(crate) fn rope_len_lines(r: &Rope) -> (n: usize)
    ensures
        n == rope_line_count(rope_text(*r)),
        n >= 1,
{
    r.len_lines()
}

/// `Rope::line_to_char`: the char index where a line starts. Line 0 starts at 0; the
/// one-past-the-end line starts at the end of the text; no line starts after the next one.
/// Panics for a line beyond one past the end, which `requires` rules out.
#[verifier::external_body]
pub(crate) fn rope_line_to_char(r: &Rope, line: usize) -> (i: usize)
    requires
        line <= rope_line_count(rope_text(*r)),
    ensures
        i == rope_line_start(rope_text(*r), line as nat),
        i <= rope_text(*r).len(),
        line == 0 ==> i == 0,
        line == rope_line_count(rope_text(*r)) ==> i == rope_text(*r).len(),
        line < rope_line_count(rope_text(*r)) ==> i <= rope_line_start(rope_text(*r), (line + 1) as nat),
{
    r.line_to_char(line)
}

/// `Rope::line(line).len_chars()`: the number of chars of a line, its line break
/// included: from its start to the start of the next line. Panics for a line that does
/// not exist, which `requires` rules out.
#[verifier::external_body]
pub(crate) fn rope_line_len(r: &Rope, line: usize) -> (n: usize)
    requires
        line < rope_line_count(rope_text(*r)),
    ensures
        n == rope_line_start(rope_text(*r), (line + 1) as nat) - rope_line_start(rope_text(*r), line as nat),
        n + rope_line_start(rope_text(*r), line as nat) <= rope_text(*r).len(),
{
    r.line(line).len_chars()
}

/// `Rope::insert_char`: inserts one char at a char index no larger than the length.
#[verifier::external_body]
pub(crate) fn rope_insert_char(r: &mut Rope, idx: usize, c: char)
    requires
        idx <= rope_text(*old(r)).len(),
    ensures
        rope_text(*final(r)) == rope_text(*old(r)).insert(idx as int, c),
{
    r.insert_char(idx, c)
}

/// `Rope::insert`: inserts the chars of `s` at a char index no larger than the length.
#[verifier::external_body]
pub(crate) fn rope_insert(r: &mut Rope, idx: usize, s: &str)
    requires
        idx <= rope_text(*old(r)).len(),
    ensures
        rope_text(*final(r)) == rope_text(*old(r)).take(idx as int) + s@ + rope_text(*old(r)).skip(idx as int),
{
    r.insert(idx, s)
}

/// `Rope::remove`: removes the chars in `start..end`.
#[verifier::external_body]
pub(crate) fn rope_remove(r: &mut Rope, start: usize, end: usize)
    requires
        start <= end <= rope_text(*old(r)).len(),
    ensures
        rope_text(*final(r)) == rope_text(*old(r)).take(start as int) + rope_text(*old(r)).skip(end as int),
{
    r.remove(start..end)
}

/// `Rope::char`: the char at an index below the length.
#[verifier::external_body]
pub(crate) fn rope_char(r: &Rope, idx: usize) -> (c: char)
    requires
        idx < rope_text(*r).len(),
    ensures
        c == rope_text(*r)[idx as int],
{
    r.char(idx)
}

/// `Rope::slice(start..end)` as a `String`.
#[verifier::external_body]
pub(crate) fn rope_slice_string(r: &Rope, start: usize, end: usize) -> (s: String)
    requires
        start <= end <= rope_text(*r).len(),
    ensures
        s@ == rope_text(*r).subrange(start as int, end as int),
{
    r.slice(start..end).to_string()
}

/// The whole text of a rope as a `String`.
#[verifier::external_body]
pub(crate) fn rope_to_string(r: &Rope) -> (s: String)
    ensures
        s@ == rope_text(*r),
{
    r.to_string()
}

} // verus!
