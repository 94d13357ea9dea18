//! What the library needs of strings beyond what vstd specifies.

use vstd::prelude::*;
use vstd::string::StringExecFns;

verus! {

/// `String::push` appends the given character to the end of the string.
/// Verus takes this on trust.
pub assume_specification[ String::push ](s: &mut String, c: char)
    ensures
        final(s)@ == old(s)@.push(c),
;

/// The number of characters before the first line feed of a text, or the
/// length of a text that has none.
pub open spec fn line_len(text: Seq<char>) -> nat
    decreases text.len(),
{
    if text.len() == 0 || text[0] == '\n' {
        0
    } else {
        1 + line_len(text.skip(1))
    }
}

/// A line without the carriage return that it ends in, if it ends in one.
pub open spec fn without_return(line: Seq<char>) -> Seq<char> {
    if line.len() > 0 && line.last() == '\r' {
        line.drop_last()
    } else {
        line
    }
}

/// The lines of a text. A line ends at a line feed, or at a carriage return
/// and a line feed, neither of which belongs to it. What follows the last
/// line feed is a line if it is not empty, with whatever it ends in.
pub open spec fn lines_of(text: Seq<char>) -> Seq<Seq<char>>
    decreases text.len(),
{
    let first = line_len(text);
    if text.len() == 0 {
        Seq::empty()
    } else if first >= text.len() {
        seq![text]
    } else {
        seq![without_return(text.take(first as int))] + lines_of(text.skip(first as int + 1))
    }
}

/// A text without a line feed is one line, and a line goes up to the first
/// line feed.
proof fn lemma_line_len(line: Seq<char>, rest: Seq<char>)
    requires
        forall|i: int| 0 <= i < line.len() ==> line[i] != '\n',
    ensures
        line_len(line) == line.len(),
        line_len(line + seq!['\n'] + rest) == line.len(),
    decreases line.len(),
{
    let text = line + seq!['\n'] + rest;
    if line.len() > 0 {
        assert(line.skip(1) + seq!['\n'] + rest == text.skip(1));
        lemma_line_len(line.skip(1), rest);
    }
}

/// The lines of `text`, each as a string of its own.
pub fn split_lines(text: &str) -> (lines: Vec<String>)
    ensures
        lines.deep_view() == lines_of(text@),
{
    let mut lines: Vec<String> = Vec::new();
    let mut line = String::new();
    let mut pending_return = false;
    let ghost mut open: Seq<char> = Seq::empty();
    proof {
        assert(open + text@.skip(0) == text@);
    }
    for c in it: text.chars()
        invariant
            it.seq() == text@,
            forall|i: int| 0 <= i < open.len() ==> open[i] != '\n',
            open == if pending_return {
                line@.push('\r')
            } else {
                line@
            },
            !pending_return && line@.len() > 0 ==> line@.last() != '\r',
            lines_of(text@) == lines.deep_view() + lines_of(open + text@.skip(it.index())),
    {
        let ghost rest = text@.skip(it.index() + 1);
        if c == '\n' {
            proof {
                let whole = open + seq!['\n'] + rest;
                assert(whole == open + text@.skip(it.index()));
                lemma_line_len(open, rest);
                assert(whole.take(open.len() as int) == open);
                assert(whole.skip(open.len() as int + 1) == rest);
                assert(without_return(open) == line@);
                assert(lines.deep_view().push(line@) + lines_of(rest) == lines.deep_view() + (
                seq![line@] + lines_of(rest)));
            }
            lines.push(line);
            proof {
                open = Seq::empty();
            }
            line = String::new();
            pending_return = false;
        } else {
            proof {
                assert(open.push(c) + rest == open + text@.skip(it.index()));
                open = open.push(c);
            }
            if pending_return {
                line.push('\r');
            }
            if c == '\r' {
                pending_return = true;
            } else {
                pending_return = false;
                line.push(c);
            }
        }
    }
    proof {
        lemma_line_len(open, Seq::empty());
    }
    if pending_return {
        line.push('\r');
    }
    if !line.as_str().is_empty() {
        lines.push(line);
    }
    lines
}

/// The parts one after another, with the separator between each two.
pub open spec fn joined(parts: Seq<Seq<char>>, separator: Seq<char>) -> Seq<char>
    decreases parts.len(),
{
    if parts.len() == 0 {
        Seq::empty()
    } else if parts.len() == 1 {
        parts[0]
    } else {
        joined(parts.drop_last(), separator) + separator + parts.last()
    }
}

/// The strings `parts[from]` to `parts[to - 1]`, joined by `separator`.
pub fn join_range(parts: &Vec<String>, from: usize, to: usize, separator: &str) -> (text: String)
    requires
        from <= to <= parts@.len(),
    ensures
        text@ == joined(parts.deep_view().subrange(from as int, to as int), separator@),
{
    let ghost all = parts.deep_view();
    let mut text = String::new();
    let mut i: usize = from;
    while i < to
        invariant
            from <= i <= to <= parts@.len(),
            all == parts.deep_view(),
            text@ == joined(all.subrange(from as int, i as int), separator@),
        decreases to - i,
    {
        proof {
            let now = all.subrange(from as int, i + 1);
            assert(now.drop_last() == all.subrange(from as int, i as int));
        }
        if i > from {
            text.append(separator);
        }
        text.append(parts[i].as_str());
        i += 1;
    }
    text
}

/// The strings of `parts`, joined by `separator`.
pub fn join(parts: &Vec<String>, separator: &str) -> (text: String)
    ensures
        text@ == joined(parts.deep_view(), separator@),
{
    proof {
        let all = parts.deep_view();
        assert(all.subrange(0, all.len() as int) == all);
    }
    join_range(parts, 0, parts.len(), separator)
}

} // verus!
