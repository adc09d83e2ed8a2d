//! Text as sequences of characters: joining, line splitting and substring
//! search, each with an executable function proved against its definition.

use vstd::prelude::*;
use vstd::string::*;
use vstd::std_specs::iter::IteratorSpec;

verus! {

/// The views of a sequence of strings.
pub open spec fn views(parts: Seq<String>) -> Seq<Seq<char>> {
    Seq::new(parts.len(), |i: int| parts[i]@)
}

/// The parts written one after the other, with `sep` between neighbours.
pub open spec fn join(parts: Seq<Seq<char>>, sep: Seq<char>) -> Seq<char>
    decreases parts.len(),
{
    if parts.len() == 0 {
        Seq::empty()
    } else if parts.len() == 1 {
        parts[0]
    } else {
        join(parts.drop_last(), sep) + sep + parts.last()
    }
}

/// Joins `parts` with `sep` between neighbours.
pub fn join_strings(parts: &Vec<String>, sep: &str) -> (joined: String)
    ensures
        joined@ == join(views(parts@), sep@),
{
    let mut joined = String::new();
    let mut i: usize = 0;
    while i < parts.len()
        invariant
            i <= parts.len(),
            joined@ == join(views(parts@).take(i as int), sep@),
        decreases parts.len() - i,
    {
        let ghost before = views(parts@).take(i as int);
        let ghost after = views(parts@).take(i + 1);
        assert(after.drop_last() == before);
        assert(after.last() == parts@[i as int]@);
        if i > 0 {
            joined.append(sep);
        }
        joined.append(parts[i].as_str());
        i += 1;
    }
    assert(views(parts@).take(parts.len() as int) == views(parts@));
    joined
}

/// The characters of `text`, one by one.
pub fn chars_of(text: &str) -> (chars: Vec<char>)
    ensures
        chars@ == text@,
{
    broadcast use vstd::string::group_string_axioms;

    let mut chars: Vec<char> = Vec::new();
    let mut rest = text.chars();
    loop
        invariant
            chars@ + rest.remaining() == text@,
            rest.decrease() is Some,
        ensures
            chars@ == text@,
        decreases rest.decrease()->Some_0,
    {
        let ghost before = rest.remaining();
        match rest.next() {
            Some(c) => {
                chars.push(c);
                assert(before == seq![c] + before.drop_first());
            },
            None => {
                assert(chars@ + Seq::<char>::empty() == chars@);
                break ;
            },
        }
    }
    chars
}

/// Where the first line feed of `text` stands, or the length of `text`
/// where it holds none.
pub open spec fn first_line_feed(text: Seq<char>) -> nat
    decreases text.len(),
{
    if text.len() == 0 {
        0
    } else if text[0] == '\n' {
        0
    } else {
        1 + first_line_feed(text.drop_first())
    }
}

/// A line without the carriage return that ends it, if one does.
pub open spec fn without_carriage_return(line: Seq<char>) -> Seq<char> {
    if line.len() > 0 && line.last() == '\r' {
        line.drop_last()
    } else {
        line
    }
}

/// The lines of a text.
///
/// A line ends at a line feed, or at a carriage return directly followed by
/// one; neither belongs to the line. The end of the last line may be left
/// out: a text that ends in a line ending has the same lines as the text
/// without it, and the empty text has no line. A carriage return that no
/// line feed follows is a character like any other.
pub open spec fn lines(text: Seq<char>) -> Seq<Seq<char>>
    decreases text.len(),
{
    if text.len() == 0 {
        Seq::empty()
    } else {
        let end = first_line_feed(text) as int;
        if end >= text.len() {
            seq![text]
        } else {
            seq![without_carriage_return(text.take(end))] + lines(text.skip(end + 1))
        }
    }
}

/// Whether `pattern` stands somewhere in `text`.
pub open spec fn contains_text(text: Seq<char>, pattern: Seq<char>) -> bool {
    exists|at: int| occurs_at(text, pattern, at)
}

/// Whether `pattern` stands in `text` at place `at`.
pub open spec fn occurs_at(text: Seq<char>, pattern: Seq<char>, at: int) -> bool {
    0 <= at && at + pattern.len() <= text.len() && text.subrange(at, at + pattern.len())
        == pattern
}

/// The first line feed stands where no line feed stands before it.
pub proof fn lemma_first_line_feed(text: Seq<char>, at: int)
    requires
        0 <= at <= text.len(),
        forall|j: int| 0 <= j < at ==> text[j] != '\n',
        at < text.len() ==> text[at] == '\n',
    ensures
        first_line_feed(text) == at,
    decreases text.len(),
{
    if text.len() > 0 && at > 0 {
        let rest = text.drop_first();
        assert forall|j: int| 0 <= j < at - 1 implies rest[j] != '\n' by {
            assert(rest[j] == text[j + 1]);
        }
        lemma_first_line_feed(rest, at - 1);
    }
}

/// The text that a span marks in `chars`: from its first place to before
/// its second.
spec fn span_text(chars: Seq<char>, span: (usize, usize)) -> Seq<char> {
    chars.subrange(span.0 as int, span.1 as int)
}

/// The texts that a run of spans marks in `chars`.
spec fn span_texts(chars: Seq<char>, spans: Seq<(usize, usize)>) -> Seq<Seq<char>> {
    Seq::new(spans.len(), |k: int| span_text(chars, spans[k]))
}

/// Where each line of `chars` starts and where its content stops.
pub fn line_spans(chars: &Vec<char>) -> (spans: Vec<(usize, usize)>)
    ensures
        spans@.len() == lines(chars@).len(),
        forall|k: int|
            0 <= k < spans@.len() ==> (#[trigger] spans@[k]).0 <= spans@[k].1 <= chars@.len()
                && chars@.subrange(spans@[k].0 as int, spans@[k].1 as int) == lines(chars@)[k],
{
    let mut spans: Vec<(usize, usize)> = Vec::new();
    let mut start: usize = 0;
    assert(chars@.skip(0) == chars@);
    assert(span_texts(chars@, spans@) + lines(chars@) == lines(chars@));
    while start < chars.len()
        invariant
            start <= chars.len(),
            lines(chars@) == span_texts(chars@, spans@) + lines(chars@.skip(start as int)),
            forall|k: int|
                0 <= k < spans@.len() ==> (#[trigger] spans@[k]).0 <= spans@[k].1 <= chars@.len(),
        decreases chars.len() - start,
    {
        let ghost rest = chars@.skip(start as int);
        let mut end: usize = start;
        while end < chars.len() && chars[end] != '\n'
            invariant
                start <= end <= chars.len(),
                forall|j: int| start <= j < end ==> chars@[j] != '\n',
            decreases chars.len() - end,
        {
            end += 1;
        }
        proof {
            assert forall|j: int| 0 <= j < end - start implies rest[j] != '\n' by {
                assert(rest[j] == chars@[start + j]);
            }
            lemma_first_line_feed(rest, end - start);
        }
        let ghost before = span_texts(chars@, spans@);
        if end == chars.len() {
            spans.push((start, end));
            proof {
                assert(rest.len() > 0);
                assert(lines(rest) == seq![rest]);
                assert(chars@.subrange(start as int, end as int) == rest);
                assert(span_texts(chars@, spans@) == before + seq![rest]);
                assert(chars@.skip(end as int).len() == 0);
                assert(lines(chars@.skip(end as int)) == Seq::<Seq<char>>::empty());
                assert(before + seq![rest] + Seq::<Seq<char>>::empty() == before + seq![rest]);
            }
            start = end;
        } else {
            let stop = if end > start && chars[end - 1] == '\r' {
                end - 1
            } else {
                end
            };
            spans.push((start, stop));
            proof {
                let line = rest.take(end - start);
                assert(line == chars@.subrange(start as int, end as int));
                if end > start {
                    assert(line.last() == chars@[end - 1]);
                }
                assert(without_carriage_return(line) == chars@.subrange(start as int, stop as int));
                assert(rest.skip(end - start + 1) == chars@.skip(end + 1));
                assert(lines(rest) == seq![without_carriage_return(line)] + lines(
                    chars@.skip(end + 1),
                ));
                assert(span_texts(chars@, spans@) == before + seq![without_carriage_return(line)]);
                assert(before + (seq![without_carriage_return(line)] + lines(chars@.skip(end + 1)))
                    == before + seq![without_carriage_return(line)] + lines(chars@.skip(end + 1)));
            }
            start = end + 1;
        }
    }
    proof {
        assert(chars@.skip(start as int).len() == 0);
        assert(lines(chars@.skip(start as int)) == Seq::<Seq<char>>::empty());
        assert(span_texts(chars@, spans@) + Seq::<Seq<char>>::empty() == span_texts(chars@, spans@));
        assert forall|k: int| 0 <= k < spans@.len() implies chars@.subrange(
            (#[trigger] spans@[k]).0 as int,
            spans@[k].1 as int,
        ) == lines(chars@)[k] by {
            assert(span_texts(chars@, spans@)[k] == span_text(chars@, spans@[k]));
        }
    }
    spans
}

/// Whether `pattern` stands at place `at` of the part of `chars` that ends
/// before `stop`.
fn matches_at(chars: &Vec<char>, stop: usize, pattern: &Vec<char>, at: usize) -> (found: bool)
    requires
        at <= stop <= chars@.len(),
        at + pattern@.len() <= stop,
    ensures
        found == (chars@.subrange(at as int, at + pattern@.len()) == pattern@),
{
    let mut j: usize = 0;
    while j < pattern.len()
        invariant
            j <= pattern@.len(),
            at + pattern@.len() <= stop <= chars@.len(),
            forall|k: int| 0 <= k < j ==> chars@[at + k] == pattern@[k],
        decreases pattern.len() - j,
    {
        if chars[at + j] != pattern[j] {
            assert(chars@.subrange(at as int, at + pattern@.len())[j as int] != pattern@[j as int]);
            return false;
        }
        j += 1;
    }
    assert(chars@.subrange(at as int, at + pattern@.len()) =~= pattern@);
    true
}

/// Whether `pattern` stands somewhere in the part of `chars` from `start`
/// to before `stop`.
pub fn span_contains(chars: &Vec<char>, start: usize, stop: usize, pattern: &Vec<char>) -> (found:
    bool)
    requires
        start <= stop <= chars@.len(),
    ensures
        found == contains_text(chars@.subrange(start as int, stop as int), pattern@),
{
    let ghost text = chars@.subrange(start as int, stop as int);
    if pattern.len() > stop - start {
        assert(!contains_text(text, pattern@));
        return false;
    }
    let last = stop - pattern.len();
    let mut at: usize = start;
    loop
        invariant
            start <= at <= last,
            last + pattern@.len() == stop,
            stop <= chars@.len(),
            text == chars@.subrange(start as int, stop as int),
            forall|earlier: int| 0 <= earlier < at - start ==> !occurs_at(text, pattern@, earlier),
        decreases last - at,
    {
        let found = matches_at(chars, stop, pattern, at);
        assert(text.subrange(at - start, at - start + pattern@.len()) == chars@.subrange(
            at as int,
            at + pattern@.len(),
        ));
        if found {
            assert(occurs_at(text, pattern@, at - start));
            return true;
        }
        if at == last {
            assert forall|any: int| !occurs_at(text, pattern@, any) by {
                if 0 <= any && any + pattern@.len() <= text.len() {
                    assert(any <= at - start);
                }
            }
            return false;
        }
        at += 1;
    }
}

} // verus!
