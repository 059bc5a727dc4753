//! Text handling for captured compiler output: permissive decoding and the
//! division of a text into lines.

use vstd::prelude::*;

verus! {

/// The views of a sequence of strings, one per string and in the same order.
pub open spec fn texts(v: Seq<String>) -> Seq<Seq<char>> {
    v.map_values(|s: String| s@)
}

/// Index of the first line feed in `s`, or `s.len()` where it holds none.
pub open spec fn first_break(s: Seq<char>) -> int
    decreases s.len(),
{
    if s.len() == 0 {
        0
    } else if s[0] == '\n' {
        0
    } else {
        1 + first_break(s.drop_first())
    }
}

/// A line without the carriage return that may stand at its end.
pub open spec fn strip_return(line: Seq<char>) -> Seq<char> {
    if line.len() > 0 && line.last() == '\r' {
        line.drop_last()
    } else {
        line
    }
}

/// The lines of a text. A line ends at a line feed; the line feed, and one
/// carriage return directly before it, belong to no line. What follows the
/// last line feed is a line of its own unless it is empty, and keeps a
/// carriage return at its end.
pub open spec fn lines_of(s: Seq<char>) -> Seq<Seq<char>>
    decreases s.len(),
{
    let k = first_break(s);
    if s.len() == 0 {
        Seq::empty()
    } else if 0 <= k < s.len() {
        seq![strip_return(s.take(k))] + lines_of(s.skip(k + 1))
    } else {
        seq![s]
    }
}

/// `first_break` is the one index `k` with no line feed before it and with a
/// line feed at it, or the end of the text.
pub proof fn lemma_first_break(s: Seq<char>, k: int)
    requires
        0 <= k <= s.len(),
        forall|j: int| 0 <= j < k ==> s[j] != '\n',
        k < s.len() ==> s[k] == '\n',
    ensures
        first_break(s) == k,
    decreases s.len(),
{
    if s.len() > 0 && s[0] != '\n' {
        let rest = s.drop_first();
        assert forall|j: int| 0 <= j < k - 1 implies rest[j] != '\n' by {
            assert(rest[j] == s[j + 1]);
        }
        lemma_first_break(rest, k - 1);
    }
}

/// `first_break` lies within the text or at its end; no line feed stands
/// before it, and one stands at it.
pub proof fn lemma_first_break_found(s: Seq<char>)
    ensures
        0 <= first_break(s) <= s.len(),
        forall|j: int| 0 <= j < first_break(s) ==> s[j] != '\n',
        first_break(s) < s.len() ==> s[first_break(s)] == '\n',
    decreases s.len(),
{
    if s.len() > 0 && s[0] != '\n' {
        let rest = s.drop_first();
        lemma_first_break_found(rest);
        assert forall|j: int| 0 <= j < first_break(s) implies s[j] != '\n' by {
            if j > 0 {
                assert(s[j] == rest[j - 1]);
            }
        }
    }
}

/// No line holds a line feed.
pub proof fn law_lines_hold_no_line_feed(s: Seq<char>)
    ensures
        forall|i: int, j: int|
            0 <= i < lines_of(s).len() && 0 <= j < lines_of(s)[i].len() ==> lines_of(s)[i][j]
                != '\n',
    decreases s.len(),
{
    lemma_first_break_found(s);
    let k = first_break(s);
    if s.len() > 0 && k < s.len() {
        let rest = lines_of(s.skip(k + 1));
        law_lines_hold_no_line_feed(s.skip(k + 1));
        let head = strip_return(s.take(k));
        assert forall|i: int, j: int|
            0 <= i < lines_of(s).len() && 0 <= j < lines_of(s)[i].len() implies lines_of(s)[i][j]
            != '\n' by {
            if i == 0 {
                assert(lines_of(s)[0] == head);
                assert(head[j] == s[j]);
            } else {
                assert(lines_of(s)[i] == rest[i - 1]);
            }
        }
    }
}

/// A text without a line feed is one line, or none where it is empty.
pub proof fn lemma_single_line(s: Seq<char>)
    requires
        forall|j: int| 0 <= j < s.len() ==> s[j] != '\n',
    ensures
        lines_of(s) == if s.len() == 0 { Seq::<Seq<char>>::empty() } else { seq![s] },
{
    lemma_first_break(s, s.len() as int);
}

/// The lines of a text whose first line feed stands at `head.len()`.
pub proof fn lemma_line_then_rest(head: Seq<char>, tail: Seq<char>)
    requires
        forall|j: int| 0 <= j < head.len() ==> head[j] != '\n',
    ensures
        lines_of(head + seq!['\n'] + tail) == seq![strip_return(head)] + lines_of(tail),
{
    let whole = head + seq!['\n'] + tail;
    lemma_first_break(whole, head.len() as int);
    assert(whole.take(head.len() as int) =~= head);
    assert(whole.skip(head.len() as int + 1) =~= tail);
}

/// Appends one character to a string.
///
/// Trusted: `String::push` of std, which adds the character at the end and
/// leaves what stood before it as it was.
#[verifier::external_body]
fn push_char(s: &mut String, c: char)
    ensures
        final(s)@ == old(s)@.push(c),
{
    s.push(c);
}

/// Divides a text into its lines.
pub fn split_lines(text: &str) -> (lines: Vec<String>)
    ensures
        texts(lines@) == lines_of(text@),
{
    let mut lines: Vec<String> = Vec::new();
    let mut line = String::new();
    // A carriage return that was read and is not yet part of `line`.
    let mut held = false;
    proof {
        assert(line@ + text@.skip(0) =~= text@);
        assert(texts(lines@) + lines_of(text@) =~= lines_of(text@));
    }
    for c in it: text.chars()
        invariant
            it.seq() == text@,
            forall|j: int| 0 <= j < line@.len() ==> line@[j] != '\n',
            !held ==> (line@.len() == 0 || line@.last() != '\r'),
            lines_of(text@) == texts(lines@) + lines_of(
                (if held { line@.push('\r') } else { line@ }) + text@.skip(it.index()),
            ),
    {
        let ghost i = it.index();
        let ghost current = if held { line@.push('\r') } else { line@ };
        let ghost rest = text@.skip(i + 1);
        assert(text@.skip(i) =~= seq![c] + rest);
        if c == '\n' {
            proof {
                lemma_line_then_rest(current, rest);
                assert(current + text@.skip(i) =~= current + seq!['\n'] + rest);
                assert(strip_return(current) =~= line@);
                assert(texts(lines@.push(line)) =~= texts(lines@).push(line@));
                assert(texts(lines@) + (seq![line@] + lines_of(rest)) =~= texts(lines@).push(
                    line@,
                ) + lines_of(rest));
                assert(Seq::<char>::empty() + rest =~= rest);
            }
            lines.push(line);
            line = String::new();
            held = false;
        } else {
            if held {
                push_char(&mut line, '\r');
                held = false;
            }
            assert(line@ == current);
            if c == '\r' {
                held = true;
            } else {
                push_char(&mut line, c);
            }
            assert(current.push(c) + rest =~= current + text@.skip(i));
        }
    }
    if held {
        push_char(&mut line, '\r');
    }
    proof {
        assert(text@.skip(text@.len() as int) =~= Seq::<char>::empty());
        assert(line@ + Seq::<char>::empty() =~= line@);
        lemma_single_line(line@);
    }
    if !line.as_str().is_empty() {
        proof {
            assert(texts(lines@.push(line)) =~= texts(lines@) + seq![line@]);
        }
        lines.push(line);
    } else {
        assert(texts(lines@) + Seq::<Seq<char>>::empty() =~= texts(lines@));
    }
    lines
}

/// The text that permissive decoding gives for a sequence of bytes: valid
/// UTF-8 decodes to its characters, and what is not valid is replaced by the
/// replacement character rather than refused.
pub uninterp spec fn lossy_text(bytes: Seq<u8>) -> Seq<char>;

/// Decodes bytes as text without ever failing.
///
/// Trusted: `String::from_utf8_lossy` of std. The contract only names its
/// result, which depends on the bytes alone.
#[verifier::external_body]
fn decode_lossy(bytes: &[u8]) -> (text: String)
    ensures
        text@ == lossy_text(bytes@),
{
    String::from_utf8_lossy(bytes).into_owned()
}

/// The lines of a captured output stream, decoded permissively.
pub fn output_lines(bytes: &[u8]) -> (lines: Vec<String>)
    ensures
        texts(lines@) == lines_of(lossy_text(bytes@)),
{
    let text = decode_lossy(bytes);
    split_lines(text.as_str())
}

} // verus!
