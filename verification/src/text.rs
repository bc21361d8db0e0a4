//! Characters and lines.
use vstd::prelude::*;

verus! {

/// Unicode's `White_Space` property.
pub open spec fn is_white_space(c: char) -> bool {
    let code = c as int;
    ||| 0x9 <= code <= 0xD
    ||| code == 0x20
    ||| code == 0x85
    ||| code == 0xA0
    ||| code == 0x1680
    ||| 0x2000 <= code <= 0x200A
    ||| code == 0x2028
    ||| code == 0x2029
    ||| code == 0x202F
    ||| code == 0x205F
    ||| code == 0x3000
}

/// `s` without the white space at its start.
pub open spec fn trimmed_start(s: Seq<char>) -> Seq<char>
    decreases s.len(),
{
    if s.len() > 0 && is_white_space(s.first()) {
        trimmed_start(s.drop_first())
    } else {
        s
    }
}

/// `s` without the white space at its end.
pub open spec fn trimmed_end(s: Seq<char>) -> Seq<char>
    decreases s.len(),
{
    if s.len() > 0 && is_white_space(s.last()) {
        trimmed_end(s.drop_last())
    } else {
        s
    }
}

/// `s` without the white space at its start and end.
pub open spec fn trimmed(s: Seq<char>) -> Seq<char> {
    trimmed_end(trimmed_start(s))
}

/// The digit `d` as a character.
pub open spec fn digit(d: nat) -> char {
    (0x30 + d) as char
}

/// `n` in decimal, without leading zeros.
pub open spec fn decimal(n: nat) -> Seq<char>
    decreases n,
{
    if n < 10 {
        seq![digit(n)]
    } else {
        decimal(n / 10).push(digit(n % 10))
    }
}

/// `text` as one line: with a newline behind it.
pub open spec fn as_line(text: Seq<char>) -> Seq<char> {
    text.push('\n')
}

/// A line ends in a newline and holds no other.
pub open spec fn is_one_line(s: Seq<char>) -> bool {
    &&& s.len() > 0
    &&& s.last() == '\n'
    &&& forall|i: int| 0 <= i < s.len() - 1 ==> s[i] != '\n'
}

/// Calls `str::trim`, which gives back the text without its leading and
/// trailing white space, white space being Unicode's `White_Space`.
#[verifier::external_body]
pub(crate) fn trim(s: &str) -> (t: &str)
    ensures
        t@ == trimmed(s@),
{
    s.trim()
}

/// Makes a line of a text.
pub fn to_line(text: &str) -> (line: String)
    ensures
        line@ == as_line(text@),
{
    proof {
        reveal_strlit("\n");
    }
    let line = text.to_string().concat("\n");
    assert(line@ =~= as_line(text@));
    line
}

/// `text` with the lines behind its first one moved to the right, to stand below
/// what the first one is written behind.
pub open spec fn indented(text: Seq<char>) -> Seq<char>
    decreases text.len(),
{
    if text.len() == 0 {
        text
    } else if text.last() == '\n' {
        indented(text.drop_last()) + "\n     "@
    } else {
        indented(text.drop_last()).push(text.last())
    }
}

/// `String::push` puts a character at the end of a string.
pub assume_specification[ String::push ](s: &mut String, c: char)
    ensures
        final(s)@ == old(s)@.push(c),
;

/// Moves the lines behind the first one to the right.
pub fn indent(text: &str) -> (moved: String)
    ensures
        moved@ == indented(text@),
{
    let mut moved = String::new();
    assert(moved@ =~= indented(text@.take(0)));
    for c in rest: text.chars()
        invariant
            rest.seq() == text@,
            moved@ == indented(text@.take(rest.index() as int)),
    {
        proof {
            let i = rest.index() as int;
            assert(text@.take(i + 1).drop_last() =~= text@.take(i));
        }
        if c == '\n' {
            moved.append("\n     ");
        } else {
            moved.push(c);
        }
    }
    assert(text@.take(text@.len() as int) =~= text@);
    moved
}

/// A text that neither starts nor ends in white space is what trimming gives
/// back of it as a line.
pub proof fn lemma_trimmed_line(text: Seq<char>)
    requires
        text.len() > 0,
        !is_white_space(text.first()),
        !is_white_space(text.last()),
    ensures
        trimmed(as_line(text)) == text,
        trimmed(text) == text,
{
    let line = as_line(text);
    assert(line.first() == text.first());
    assert(trimmed_start(line) == line);
    assert(line.drop_last() =~= text);
    assert(trimmed_end(text) == text);
    assert(is_white_space('\n'));
}

/// Two numbers with the same digits are the same number.
pub proof fn lemma_decimal_injective(a: nat, b: nat)
    ensures
        decimal(a) == decimal(b) ==> a == b,
    decreases a,
{
    if decimal(a) == decimal(b) {
        lemma_decimal_nonempty(a / 10);
        lemma_decimal_nonempty(b / 10);
        if a < 10 && b < 10 {
            assert(decimal(a)[0] == decimal(b)[0]);
        } else if a >= 10 && b >= 10 {
            assert(decimal(a).last() == decimal(b).last());
            assert(decimal(a).drop_last() =~= decimal(a / 10));
            assert(decimal(b).drop_last() =~= decimal(b / 10));
            lemma_decimal_injective(a / 10, b / 10);
        } else {
            assert(decimal(a).len() != decimal(b).len());
        }
    }
}

/// A number has a digit.
proof fn lemma_decimal_nonempty(n: nat)
    ensures
        decimal(n).len() > 0,
    decreases n,
{
    if n >= 10 {
        lemma_decimal_nonempty(n / 10);
    }
}

/// How long the first line of a stream is, with its newline if it has one.
pub open spec fn first_line_len(stream: Seq<char>) -> nat
    decreases stream.len(),
{
    if stream.len() == 0 {
        0
    } else if stream.first() == '\n' {
        1
    } else {
        1 + first_line_len(stream.drop_first())
    }
}

/// The lines of a stream, as they are read one by one.
pub open spec fn lines_of(stream: Seq<char>) -> Seq<Seq<char>>
    decreases stream.len(),
{
    let n = first_line_len(stream) as int;
    if 0 < n <= stream.len() {
        seq![stream.take(n)] + lines_of(stream.skip(n))
    } else {
        Seq::empty()
    }
}

/// The stream that a row of lines makes.
pub open spec fn stream_of(lines: Seq<Seq<char>>) -> Seq<char>
    decreases lines.len(),
{
    if lines.len() == 0 {
        Seq::empty()
    } else {
        lines.first() + stream_of(lines.drop_first())
    }
}

/// The first line of a stream that starts with a line is that line.
proof fn lemma_first_line_len(line: Seq<char>, rest: Seq<char>)
    requires
        is_one_line(line),
    ensures
        first_line_len(line + rest) == line.len(),
    decreases line.len(),
{
    let stream = line + rest;
    assert(stream.first() == line.first());
    if line.len() > 1 {
        let tail = line.drop_first();
        assert(tail.last() == line.last());
        assert forall|i: int| 0 <= i < tail.len() - 1 implies tail[i] != '\n' by {
            assert(tail[i] == line[i + 1]);
        }
        lemma_first_line_len(tail, rest);
        assert(stream.drop_first() =~= tail + rest);
        assert(line[0] != '\n');
    }
}

/// Lines that are written one after the other are read as they were written.
pub proof fn law_lines_are_told_apart(lines: Seq<Seq<char>>)
    requires
        forall|i: int| 0 <= i < lines.len() ==> is_one_line(#[trigger] lines[i]),
    ensures
        lines_of(stream_of(lines)) == lines,
    decreases lines.len(),
{
    let stream = stream_of(lines);
    if lines.len() > 0 {
        let line = lines.first();
        let rest = lines.drop_first();
        assert(is_one_line(lines[0]));
        assert forall|i: int| 0 <= i < rest.len() implies is_one_line(#[trigger] rest[i]) by {
            assert(rest[i] == lines[i + 1]);
        }
        law_lines_are_told_apart(rest);
        lemma_first_line_len(line, stream_of(rest));
        assert(stream.take(line.len() as int) =~= line);
        assert(stream.skip(line.len() as int) =~= stream_of(rest));
        assert(seq![line] + rest =~= lines);
    }
}

/// The first line of a stream is not empty and lies within it. If the stream holds
/// a newline, its first line ends in one, whatever follows the stream.
proof fn lemma_first_line(stream: Seq<char>, rest: Seq<char>)
    requires
        stream.len() > 0,
    ensures
        0 < first_line_len(stream) <= stream.len(),
        stream.contains('\n') ==> {
            &&& stream[first_line_len(stream) - 1] == '\n'
            &&& first_line_len(stream + rest) == first_line_len(stream)
        },
    decreases stream.len(),
{
    if stream.first() != '\n' {
        let tail = stream.drop_first();
        if tail.len() > 0 {
            lemma_first_line(tail, rest);
        }
        assert((stream + rest).drop_first() =~= tail + rest);
        if stream.contains('\n') {
            let i = choose|i: int| 0 <= i < stream.len() && stream[i] == '\n';
            assert(tail[i - 1] == '\n');
        }
    }
    if stream.first() == '\n' {
        assert((stream + rest).first() == '\n');
    }
}

/// A stream is its lines, one after the other, and none of them is empty.
pub proof fn law_a_stream_is_its_lines(stream: Seq<char>)
    ensures
        stream_of(lines_of(stream)) == stream,
        forall|i: int| 0 <= i < lines_of(stream).len() ==> (#[trigger] lines_of(stream)[i]).len()
            > 0,
    decreases stream.len(),
{
    let lines = lines_of(stream);
    if stream.len() > 0 {
        lemma_first_line(stream, Seq::empty());
        let n = first_line_len(stream) as int;
        let rest = stream.skip(n);
        law_a_stream_is_its_lines(rest);
        assert(lines.first() == stream.take(n));
        assert(lines.drop_first() =~= lines_of(rest));
        assert(stream.take(n) + rest =~= stream);
        assert forall|i: int| 0 <= i < lines.len() implies (#[trigger] lines[i]).len() > 0 by {
            if i > 0 {
                assert(lines[i] == lines_of(rest)[i - 1]);
            }
        }
    } else {
        assert(lines =~= Seq::empty());
        assert(stream =~= Seq::empty());
    }
}

/// The lines of two streams, one after the other, are the lines of the first and
/// then those of the second, if the first ends where a line does.
pub proof fn law_streams_have_lines_of_their_own(a: Seq<char>, b: Seq<char>)
    requires
        a.len() > 0 ==> a.last() == '\n',
    ensures
        lines_of(a + b) == lines_of(a) + lines_of(b),
    decreases a.len(),
{
    if a.len() == 0 {
        assert(a + b =~= b);
        assert(lines_of(a) + lines_of(b) =~= lines_of(b));
    } else {
        assert(a[a.len() - 1] == '\n');
        lemma_first_line(a, b);
        let n = first_line_len(a) as int;
        let rest = a.skip(n);
        law_streams_have_lines_of_their_own(rest, b);
        assert((a + b).take(n) =~= a.take(n));
        assert((a + b).skip(n) =~= rest + b);
        assert(seq![a.take(n)] + (lines_of(rest) + lines_of(b)) =~= (seq![a.take(n)] + lines_of(
            rest,
        )) + lines_of(b));
    }
}

/// Two rows of lines make one stream after the other.
pub proof fn lemma_streams_join(a: Seq<Seq<char>>, b: Seq<Seq<char>>)
    ensures
        stream_of(a + b) == stream_of(a) + stream_of(b),
    decreases a.len(),
{
    if a.len() == 0 {
        assert(a + b =~= b);
        assert(stream_of(a) + stream_of(b) =~= stream_of(b));
    } else {
        lemma_streams_join(a.drop_first(), b);
        assert((a + b).drop_first() =~= a.drop_first() + b);
        assert(a.first() + (stream_of(a.drop_first()) + stream_of(b)) =~= stream_of(a) + stream_of(
            b,
        ));
    }
}

/// Texts are indented piece by piece. A newline is followed by five spaces; any other
/// character stays as it is.
pub proof fn law_texts_are_indented_piece_by_piece(a: Seq<char>, b: Seq<char>, c: char)
    ensures
        indented(a + b) == indented(a) + indented(b),
        indented(Seq::empty()) == Seq::<char>::empty(),
        indented(seq!['\n']) == seq!['\n', ' ', ' ', ' ', ' ', ' '],
        c != '\n' ==> indented(seq![c]) == seq![c],
{
    lemma_indented_join(a, b);
    reveal_strlit("\n     ");
    assert(seq!['\n'].drop_last() =~= Seq::empty());
    assert(seq![c].drop_last() =~= Seq::empty());
    reveal_with_fuel(indented, 2);
    assert(Seq::<char>::empty() + "\n     "@ =~= seq!['\n', ' ', ' ', ' ', ' ', ' ']);
    assert(Seq::<char>::empty().push(c) =~= seq![c]);
}

/// Texts are indented piece by piece.
proof fn lemma_indented_join(a: Seq<char>, b: Seq<char>)
    ensures
        indented(a + b) == indented(a) + indented(b),
    decreases b.len(),
{
    if b.len() == 0 {
        assert(a + b =~= a);
        assert(indented(a) + indented(b) =~= indented(a));
    } else {
        lemma_indented_join(a, b.drop_last());
        assert((a + b).drop_last() =~= a + b.drop_last());
        assert((a + b).last() == b.last());
        if b.last() == '\n' {
            assert(indented(a) + (indented(b.drop_last()) + "\n     "@) =~= indented(a) + indented(
                b.drop_last(),
            ) + "\n     "@);
        } else {
            assert(indented(a) + indented(b.drop_last()).push(b.last()) =~= (indented(a) + indented(
                b.drop_last(),
            )).push(b.last()));
        }
    }
}

/// A line is its text, and a newline behind it. The line of a text without newlines
/// is one line.
pub proof fn law_a_line_holds_its_text(text: Seq<char>)
    ensures
        as_line(text).drop_last() == text,
        as_line(text).len() == text.len() + 1,
        as_line(text).last() == '\n',
        is_one_line(as_line(text)) <==> !text.contains('\n'),
{
    let line = as_line(text);
    assert(line.drop_last() =~= text);
    if !text.contains('\n') {
        assert forall|i: int| 0 <= i < line.len() - 1 implies line[i] != '\n' by {
            assert(text[i] == line[i]);
        }
    }
    if is_one_line(line) && text.contains('\n') {
        let i = choose|i: int| 0 <= i < text.len() && text[i] == '\n';
        assert(line[i] == '\n');
    }
}

/// Trimming takes white space away at the ends and nothing else: what is left lies
/// within the text, with white space alone before it and behind it, and neither
/// starts nor ends in white space.
pub proof fn law_trimming_takes_white_space_alone(text: Seq<char>)
    ensures
        exists|start: int, end: int|
            0 <= start <= end <= text.len() && trimmed(text) == #[trigger] text.subrange(
                start,
                end,
            ) && (forall|i: int| 0 <= i < start ==> is_white_space(text[i])) && (forall|i: int|
                end <= i < text.len() ==> is_white_space(text[i])),
        trimmed(text).len() > 0 ==> !is_white_space(trimmed(text).first()) && !is_white_space(
            trimmed(text).last(),
        ),
{
    let start = lemma_trimmed_start(text);
    let rest = trimmed_start(text);
    let len = lemma_trimmed_end(rest);
    let end = start + len;
    assert(trimmed(text) =~= text.subrange(start, end));
    assert forall|i: int| end <= i < text.len() implies is_white_space(text[i]) by {
        assert(rest[i - start] == text[i]);
    }
}

/// Where the text starts that is left of a text whose start is trimmed.
proof fn lemma_trimmed_start(text: Seq<char>) -> (start: int)
    ensures
        0 <= start <= text.len(),
        trimmed_start(text) == text.skip(start),
        forall|i: int| 0 <= i < start ==> is_white_space(text[i]),
        start < text.len() ==> !is_white_space(text[start]),
    decreases text.len(),
{
    if text.len() > 0 && is_white_space(text.first()) {
        let tail = text.drop_first();
        let start = lemma_trimmed_start(tail);
        assert(tail.skip(start) =~= text.skip(start + 1));
        assert forall|i: int| 0 <= i < start + 1 implies is_white_space(text[i]) by {
            if i > 0 {
                assert(tail[i - 1] == text[i]);
            }
        }
        if start + 1 < text.len() {
            assert(tail[start] == text[start + 1]);
        }
        start + 1
    } else {
        assert(text.skip(0) =~= text);
        0
    }
}

/// Where the text ends that is left of a text whose end is trimmed.
proof fn lemma_trimmed_end(text: Seq<char>) -> (end: int)
    ensures
        0 <= end <= text.len(),
        trimmed_end(text) == text.take(end),
        forall|i: int| end <= i < text.len() ==> is_white_space(text[i]),
        end > 0 ==> !is_white_space(text[end - 1]),
    decreases text.len(),
{
    if text.len() > 0 && is_white_space(text.last()) {
        let front = text.drop_last();
        let end = lemma_trimmed_end(front);
        assert(front.take(end) =~= text.take(end));
        assert forall|i: int| end <= i < text.len() implies is_white_space(text[i]) by {
            if i < text.len() - 1 {
                assert(front[i] == text[i]);
            }
        }
        end
    } else {
        assert(text.take(text.len() as int) =~= text);
        text.len() as int
    }
}

} // verus!
