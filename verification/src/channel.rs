//! The texts that go over the command channel.
//!
//! Towards a terminal a response is written as it is. Towards a control bot
//! it is framed: a first line holds the number of lines that follow.

use crate::text::{
    all_digits, count_lines, decimal, decimal_value, lemma_decimal_value, line_count, newlines,
    push_decimal,
};
use vstd::prelude::*;

verus! {

broadcast use vstd::string::group_string_axioms;

/// The frame of `body`: the decimal count of its lines on a line of its
/// own, then the body.
pub open spec fn frame(body: Seq<char>) -> Seq<char> {
    decimal(line_count(body)) + seq!['\n'] + body
}

/// What is written for `body`: the frame where a control bot listens, the
/// body itself on a terminal.
pub open spec fn wire(framed: bool, body: Seq<char>) -> Seq<char> {
    if framed {
        frame(body)
    } else {
        body
    }
}

/// The report of a process that has exited: a line with the exit code, a
/// line with the numbers of lines captured from its output and its error
/// stream, then both captures, each closed by a line feed.
pub open spec fn exit_report(code: int, stdout: Seq<char>, stderr: Seq<char>) -> Seq<char> {
    let captured_out = stdout.push('\n');
    let captured_err = stderr.push('\n');
    "some started exited "@ + crate::text::signed_decimal(code) + seq!['\n'] + decimal(
        line_count(captured_out),
    ) + seq![' '] + decimal(line_count(captured_err)) + seq![' ', '\n'] + captured_out
        + captured_err
}

/// Frames `body` for the control bot.
pub fn frame_response(body: &str) -> (r: String)
    ensures
        r@ == frame(body@),
{
    let mut out = String::new();
    push_decimal(&mut out, count_lines(body) as u64);
    out.push('\n');
    out.append(body);
    assert(out@ =~= frame(body@));
    out
}

/// Renders `body` as it goes over the channel.
pub fn wire_response(framed: bool, body: String) -> (r: String)
    ensures
        r@ == wire(framed, body@),
{
    if framed {
        frame_response(body.as_str())
    } else {
        body
    }
}

/// Renders the report of a process that exited with `code` and left
/// `stdout` and `stderr`.
pub fn render_exit_report(code: i32, stdout: &str, stderr: &str) -> (r: String)
    ensures
        r@ == exit_report(code as int, stdout@, stderr@),
{
    let mut captured_out = String::new();
    captured_out.append(stdout);
    captured_out.push('\n');
    let mut captured_err = String::new();
    captured_err.append(stderr);
    captured_err.push('\n');
    let mut out = "some started exited ".to_string();
    crate::text::push_signed(&mut out, code as i64);
    out.push('\n');
    push_decimal(&mut out, count_lines(captured_out.as_str()) as u64);
    out.push(' ');
    push_decimal(&mut out, count_lines(captured_err.as_str()) as u64);
    out.push(' ');
    out.push('\n');
    out.append(captured_out.as_str());
    out.append(captured_err.as_str());
    assert(out@ =~= exit_report(code as int, stdout@, stderr@));
    out
}

/// The place of the first line feed of `s`; its length if it has none.
pub open spec fn line_end(s: Seq<char>) -> int
    decreases s.len(),
{
    if s.len() == 0 || s[0] == '\n' {
        0
    } else {
        1 + line_end(s.drop_first())
    }
}

/// The length of the first `n` lines of `s`, line feeds included, if `s`
/// has as many.
pub open spec fn lines_len(s: Seq<char>, n: nat) -> Option<int>
    decreases n,
{
    if n == 0 {
        Some(0)
    } else {
        let end = line_end(s);
        if end >= s.len() {
            None
        } else {
            match lines_len(s.skip(end + 1), (n - 1) as nat) {
                Some(rest) => Some(end + 1 + rest),
                None => None,
            }
        }
    }
}

/// What a reader makes of a stream that begins with a frame: it reads the
/// first line as a count, then as many lines as the count says, and hands
/// back these lines and what follows them. `None` where the stream does not
/// begin with a count on a line of its own, or holds fewer lines.
pub open spec fn unframe(stream: Seq<char>) -> Option<(Seq<char>, Seq<char>)> {
    let end = line_end(stream);
    if end == 0 || end >= stream.len() || !all_digits(stream.take(end)) {
        None
    } else {
        let after = stream.skip(end + 1);
        match lines_len(after, decimal_value(stream.take(end))) {
            Some(len) => Some((after.take(len), after.skip(len))),
            None => None,
        }
    }
}

/// Whether `body` is made of whole lines: it is empty or ends with a line
/// feed.
pub open spec fn whole_lines(body: Seq<char>) -> bool {
    body.len() == 0 || body.last() == '\n'
}

/// The first line feed lies within the text or at its end, and nothing
/// before it is a line feed.
pub proof fn lemma_line_end(s: Seq<char>)
    ensures
        0 <= line_end(s) <= s.len(),
        forall|i: int| 0 <= i < line_end(s) ==> s[i] != '\n',
        line_end(s) < s.len() ==> s[line_end(s)] == '\n',
    decreases s.len(),
{
    if s.len() > 0 && s[0] != '\n' {
        let rest = s.drop_first();
        lemma_line_end(rest);
        assert forall|i: int| 0 <= i < line_end(s) implies s[i] != '\n' by {
            if i > 0 {
                assert(s[i] == rest[i - 1]);
            }
        }
        if line_end(s) < s.len() {
            assert(s[line_end(s)] == rest[line_end(rest)]);
        }
    }
}

/// The first line feed of a text is at `k` if one is there and none before.
pub proof fn lemma_line_end_at(s: Seq<char>, k: int)
    requires
        0 <= k < s.len(),
        s[k] == '\n',
        forall|i: int| 0 <= i < k ==> s[i] != '\n',
    ensures
        line_end(s) == k,
    decreases k,
{
    if k > 0 {
        let rest = s.drop_first();
        assert(rest[k - 1] == s[k]);
        assert forall|i: int| 0 <= i < k - 1 implies rest[i] != '\n' by {
            assert(rest[i] == s[i + 1]);
        }
        lemma_line_end_at(rest, k - 1);
    }
}

/// The line feeds of two texts add up in the texts put together.
pub proof fn lemma_newlines_concat(a: Seq<char>, b: Seq<char>)
    ensures
        newlines(a + b) == newlines(a) + newlines(b),
    decreases b.len(),
{
    if b.len() == 0 {
        assert(a + b =~= a);
    } else {
        lemma_newlines_concat(a, b.drop_last());
        assert((a + b).drop_last() =~= a + b.drop_last());
        assert((a + b).last() == b.last());
    }
}

/// A text without a line feed counts none.
pub proof fn lemma_no_newlines(s: Seq<char>)
    requires
        forall|i: int| 0 <= i < s.len() ==> s[i] != '\n',
    ensures
        newlines(s) == 0,
    decreases s.len(),
{
    if s.len() > 0 {
        lemma_no_newlines(s.drop_last());
    }
}

/// A text of whole lines, followed by anything, begins with as many lines
/// as it has line feeds, and these lines are the text.
pub proof fn lemma_lines_len(body: Seq<char>, rest: Seq<char>)
    requires
        whole_lines(body),
    ensures
        lines_len(body + rest, newlines(body)) == Some(body.len() as int),
    decreases body.len(),
{
    if body.len() == 0 {
    } else {
        let stream = body + rest;
        lemma_line_end(body);
        let end = line_end(body);
        if end == body.len() {
            assert(body[body.len() - 1] != '\n');
        }
        assert(stream[end] == body[end]);
        assert forall|i: int| 0 <= i < end implies stream[i] != '\n' by {
            assert(stream[i] == body[i]);
        }
        lemma_line_end_at(stream, end);
        let first = body.take(end + 1);
        let tail = body.skip(end + 1);
        assert(body =~= first + tail);
        assert(stream.skip(end + 1) =~= tail + rest);
        assert(whole_lines(tail)) by {
            if tail.len() > 0 {
                assert(tail.last() == body.last());
            }
        }
        assert(newlines(first) == 1) by {
            assert(first.drop_last() =~= body.take(end));
            lemma_no_newlines(body.take(end));
            assert(first.last() == '\n');
        }
        lemma_newlines_concat(first, tail);
        lemma_lines_len(tail, rest);
    }
}

/// A reader recovers a framed body of whole lines exactly, whatever follows
/// it: the first line of the frame is the number of lines of the body, and
/// reading that many lines after it yields the body and leaves what
/// follows.
pub proof fn lemma_frame_round_trip(body: Seq<char>, rest: Seq<char>)
    requires
        whole_lines(body),
    ensures
        line_count(body) == newlines(body),
        frame(body) == decimal(newlines(body)) + seq!['\n'] + body,
        unframe(frame(body) + rest) == Some((body, rest)),
{
    let count = decimal(line_count(body));
    let stream = frame(body) + rest;
    lemma_decimal_value(line_count(body));
    let end = count.len() as int;
    assert(stream[end] == '\n');
    assert forall|i: int| 0 <= i < end implies stream[i] != '\n' by {
        assert(stream[i] == count[i]);
        assert(crate::text::is_digit(count[i]));
    }
    lemma_line_end_at(stream, end);
    assert(stream.take(end) =~= count);
    assert(stream.skip(end + 1) =~= body + rest);
    lemma_lines_len(body, rest);
    assert((body + rest).take(body.len() as int) =~= body);
    assert((body + rest).skip(body.len() as int) =~= rest);
}

} // verus!
