//! Wire codec for the line-based relay protocol.
//!
//! A command is encoded as its text followed by a single newline.  A response
//! is an accumulation of lines: lines that are exactly CR-LF are padding and
//! skipped; every other line is appended; the first appended line that
//! contains the two-byte CR-LF sequence completes the response.

use vstd::prelude::*;

verus! {

use vstd::string::StringExecFns;
use crate::text::{contains_seq, str_contains, str_eq};

/// Encodes a command: the text with a single newline appended.
pub fn encode_command(command: &str) -> (r: String)
    ensures
        r@ == command@ + "\n"@,
{
    let mut s = String::from_str(command);
    s.append("\n");
    s
}

pub open spec fn crlf() -> Seq<char> {
    seq!['\r', '\n']
}

/// A line that is exactly CR-LF: inter-line padding, skipped by the decoder.
pub open spec fn is_padding_line(l: Seq<char>) -> bool {
    l == crlf()
}

/// A line containing the CR-LF sequence somewhere: completes the response.
pub open spec fn is_terminator_line(l: Seq<char>) -> bool {
    contains_seq(l, crlf())
}

/// What decoding a sequence of received lines yields: `None` while no
/// non-padding line contains CR-LF, otherwise the concatenation of every
/// non-padding line up to and including the first such line.
pub open spec fn decode_lines(lines: Seq<Seq<char>>) -> Option<Seq<char>>
    decreases lines.len(),
{
    if lines.len() == 0 {
        None
    } else {
        let l = lines[0];
        if is_padding_line(l) {
            decode_lines(lines.drop_first())
        } else if is_terminator_line(l) {
            Some(l)
        } else {
            match decode_lines(lines.drop_first()) {
                Some(r) => Some(l + r),
                None => None,
            }
        }
    }
}

/// The concatenation of the non-padding lines, in order.
pub open spec fn assembled(lines: Seq<Seq<char>>) -> Seq<char>
    decreases lines.len(),
{
    if lines.len() == 0 {
        Seq::empty()
    } else if is_padding_line(lines[0]) {
        assembled(lines.drop_first())
    } else {
        lines[0] + assembled(lines.drop_first())
    }
}

/// No line so far completes a response.
pub open spec fn no_terminator_yet(lines: Seq<Seq<char>>) -> bool {
    forall|i: int|
        0 <= i < lines.len() ==> is_padding_line(#[trigger] lines[i]) || !is_terminator_line(
            lines[i],
        )
}

proof fn lemma_decode_none(lines: Seq<Seq<char>>)
    requires
        no_terminator_yet(lines),
    ensures
        decode_lines(lines) is None,
    decreases lines.len(),
{
    if lines.len() > 0 {
        lemma_decode_none(lines.drop_first());
    }
}

proof fn lemma_decode_push(lines: Seq<Seq<char>>, l: Seq<char>)
    requires
        no_terminator_yet(lines),
    ensures
        is_padding_line(l) || !is_terminator_line(l) ==> decode_lines(lines.push(l)) is None,
        is_padding_line(l) ==> assembled(lines.push(l)) == assembled(lines),
        !is_padding_line(l) ==> assembled(lines.push(l)) == assembled(lines) + l,
        !is_padding_line(l) && is_terminator_line(l) ==> decode_lines(lines.push(l)) == Some(
            assembled(lines) + l,
        ),
    decreases lines.len(),
{
    if lines.len() == 0 {
        assert(lines.push(l).drop_first() =~= lines);
        assert(lines.push(l)[0] == l);
        assert(decode_lines(lines) is None);
        if is_padding_line(l) {
            assert(decode_lines(lines.push(l)) == decode_lines(lines.push(l).drop_first()));
            assert(decode_lines(lines.push(l)) is None);
        } else if !is_terminator_line(l) {
            assert(decode_lines(lines.push(l)) is None);
        }
        if !is_padding_line(l) {
            assert(assembled(lines.push(l)) =~= assembled(lines) + l);
        }
    } else {
        assert(lines.push(l).drop_first() =~= lines.drop_first().push(l));
        assert(lines.push(l)[0] == lines[0]);
        assert(is_padding_line(lines[0]) || !is_terminator_line(lines[0]));
        assert(no_terminator_yet(lines.drop_first())) by {
            assert forall|i: int| 0 <= i < lines.drop_first().len() implies is_padding_line(
                #[trigger] lines.drop_first()[i],
            ) || !is_terminator_line(lines.drop_first()[i]) by {
                assert(lines.drop_first()[i] == lines[i + 1]);
            }
        }
        lemma_decode_push(lines.drop_first(), l);
        if !is_padding_line(lines[0]) && !is_padding_line(l) {
            assert(assembled(lines.push(l)) =~= assembled(lines) + l);
        }
        if !is_padding_line(l) && is_terminator_line(l) && !is_padding_line(lines[0]) {
            assert(lines[0] + (assembled(lines.drop_first()) + l) =~= assembled(lines) + l);
        }
    }
}

proof fn lemma_decode_extend(lines: Seq<Seq<char>>, rest: Seq<Seq<char>>)
    requires
        decode_lines(lines) is Some,
    ensures
        decode_lines(lines + rest) == decode_lines(lines),
    decreases lines.len(),
{
    assert(lines.len() > 0);
    assert((lines + rest)[0] == lines[0]);
    if is_padding_line(lines[0]) || !is_terminator_line(lines[0]) {
        assert((lines + rest).drop_first() =~= lines.drop_first() + rest);
        lemma_decode_extend(lines.drop_first(), rest);
    }
}

/// Decoding completes exactly at the first non-padding line containing
/// CR-LF: the response is the concatenation of the non-padding lines up to
/// and including that line, so it never includes a line that is exactly
/// CR-LF; while no such line has arrived, the response is incomplete.
pub proof fn lemma_decode_characterization(lines: Seq<Seq<char>>, k: int)
    requires
        0 <= k < lines.len(),
        is_terminator_line(lines[k]),
        !is_padding_line(lines[k]),
        forall|j: int|
            0 <= j < k ==> is_padding_line(#[trigger] lines[j]) || !is_terminator_line(lines[j]),
    ensures
        decode_lines(lines) == Some(assembled(lines.take(k)) + lines[k]),
    decreases lines.len(),
{
    let prefix = lines.take(k + 1);
    assert(no_terminator_yet(lines.take(k)));
    lemma_decode_push(lines.take(k), lines[k]);
    assert(lines.take(k).push(lines[k]) =~= prefix);
    assert(decode_lines(prefix) == Some(assembled(lines.take(k)) + lines[k]));
    lemma_decode_extend(prefix, lines.skip(k + 1));
    assert(prefix + lines.skip(k + 1) =~= lines);
}

/// Incomplete as long as every line is padding or lacks CR-LF.
pub proof fn lemma_decode_incomplete(lines: Seq<Seq<char>>)
    requires
        no_terminator_yet(lines),
    ensures
        decode_lines(lines) is None,
{
    lemma_decode_none(lines);
}

/// Accumulates received lines into a response, one line at a time.
pub struct ResponseDecoder {
    buffer: String,
    done: bool,
    lines: Ghost<Seq<Seq<char>>>,
}

impl ResponseDecoder {
    /// The lines pushed so far.
    pub closed spec fn consumed(self) -> Seq<Seq<char>> {
        self.lines@
    }

    pub closed spec fn is_done(self) -> bool {
        self.done
    }

    pub closed spec fn wf(self) -> bool {
        if self.done {
            decode_lines(self.consumed()) == Some(self.buffer@)
        } else {
            no_terminator_yet(self.consumed()) && self.buffer@ == assembled(self.consumed())
        }
    }

    pub fn new() -> (r: ResponseDecoder)
        ensures
            r.wf(),
            !r.is_done(),
            r.consumed() == Seq::<Seq<char>>::empty(),
    {
        ResponseDecoder { buffer: String::new(), done: false, lines: Ghost(Seq::empty()) }
    }

    /// Feeds one received line; returns whether the response is complete.
    pub fn push_line(&mut self, line: &str) -> (done: bool)
        requires
            old(self).wf(),
            !old(self).is_done(),
        ensures
            final(self).wf(),
            final(self).consumed() == old(self).consumed().push(line@),
            done == final(self).is_done(),
    {
        proof {
            lemma_decode_push(self.lines@, line@);
        }
        self.lines = Ghost(self.lines@.push(line@));
        let padding = str_eq(line, "\r\n");
        proof {
            reveal_strlit("\r\n");
            assert("\r\n"@ =~= crlf());
        }
        if padding {
            return false;
        }
        self.buffer.append(line);
        if str_contains(line, "\r\n") {
            self.done = true;
            return true;
        }
        false
    }

    /// The completed response.
    pub fn take_response(self) -> (r: String)
        requires
            self.wf(),
            self.is_done(),
        ensures
            decode_lines(self.consumed()) == Some(r@),
    {
        self.buffer
    }
}

/// Decodes a whole sequence of received lines at once.
pub fn decode_response(lines: &Vec<String>) -> (r: Option<String>)
    ensures
        r matches Some(s) ==> decode_lines(lines.deep_view()) == Some(s@),
        r is None ==> decode_lines(lines.deep_view()) is None,
{
    let mut decoder = ResponseDecoder::new();
    let mut i: usize = 0;
    while i < lines.len()
        invariant
            0 <= i <= lines.len(),
            decoder.wf(),
            !decoder.is_done(),
            decoder.consumed() == lines.deep_view().take(i as int),
        decreases lines.len() - i,
    {
        let done = decoder.push_line(lines[i].as_str());
        proof {
            assert(lines.deep_view().take(i as int).push(lines@[i as int]@) =~= lines.deep_view()
                .take(i as int + 1));
        }
        i = i + 1;
        if done {
            proof {
                lemma_decode_extend(
                    lines.deep_view().take(i as int),
                    lines.deep_view().skip(i as int),
                );
                assert(lines.deep_view().take(i as int) + lines.deep_view().skip(i as int)
                    =~= lines.deep_view());
            }
            return Some(decoder.take_response());
        }
    }
    proof {
        assert(lines.deep_view().take(i as int) =~= lines.deep_view());
        lemma_decode_none(lines.deep_view());
    }
    None
}

} // verus!
