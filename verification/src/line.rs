//! Reading requests line by line, with a bound on their length.
use vstd::prelude::*;
use vstd::utf8::{decode_utf8, valid_utf8};

use crate::rpc::RpcError;
use crate::text::{blank, is_blank};

verus! {

/// How many bytes a line can have, its terminator not counted.
pub const MAX_LINE_BYTES: usize = 1_048_576;

pub const NEW_LINE: u8 = 10;

pub const CARRIAGE_RETURN: u8 = 13;

#[derive(Clone, Debug, PartialEq, Eq)]
pub enum BoundedLine {
    Eof,
    Line(Vec<u8>),
    TooLong,
}

/// What a reader has made of the bytes so far.
pub ghost enum Reading {
    /// No line has ended yet; these bytes are held.
    Pending(Seq<u8>),
    Line(Seq<u8>),
    TooLong,
    Eof,
}

/// The position of the first line end.
pub open spec fn line_end(bytes: Seq<u8>) -> Option<int>
    decreases bytes.len(),
{
    if bytes.len() == 0 {
        None
    } else {
        match line_end(bytes.drop_last()) {
            Some(at) => Some(at),
            None => if bytes.last() == NEW_LINE {
                Some(bytes.len() - 1)
            } else {
                None
            },
        }
    }
}

/// A line end is the first of its kind.
pub proof fn line_end_is_first(bytes: Seq<u8>)
    ensures
        match line_end(bytes) {
            Some(at) => 0 <= at < bytes.len() && bytes[at] == NEW_LINE && forall|k: int|
                0 <= k < at ==> #[trigger] bytes[k] != NEW_LINE,
            None => forall|k: int| 0 <= k < bytes.len() ==> #[trigger] bytes[k] != NEW_LINE,
        },
    decreases bytes.len(),
{
    if bytes.len() > 0 {
        line_end_is_first(bytes.drop_last());
        assert forall|k: int| 0 <= k < bytes.len() - 1 implies #[trigger] bytes[k]
            == bytes.drop_last()[k] by {}
    }
}

/// A line without the carriage return of its terminator.
pub open spec fn without_return(raw: Seq<u8>) -> Seq<u8> {
    if raw.len() > 0 && raw.last() == CARRIAGE_RETURN {
        raw.drop_last()
    } else {
        raw
    }
}

/// What a line that has ended amounts to.
pub open spec fn ended(raw: Seq<u8>) -> Reading {
    if without_return(raw).len() > MAX_LINE_BYTES {
        Reading::TooLong
    } else {
        Reading::Line(without_return(raw))
    }
}

/// What becomes of the held bytes when another buffer arrives.
pub open spec fn fed(pending: Seq<u8>, buffer: Seq<u8>) -> Reading {
    match line_end(buffer) {
        Some(at) => ended(pending + buffer.take(at)),
        None => if pending.len() + buffer.len() > MAX_LINE_BYTES {
            Reading::TooLong
        } else {
            Reading::Pending(pending + buffer)
        },
    }
}

/// What becomes of the held bytes when the stream ends.
pub open spec fn drained(pending: Seq<u8>) -> Reading {
    if pending.len() == 0 {
        Reading::Eof
    } else {
        Reading::Line(pending)
    }
}

/// What a stream that arrives in the given buffers is read as.
pub open spec fn read_from(pending: Seq<u8>, buffers: Seq<Seq<u8>>) -> Reading
    decreases buffers.len(),
{
    if buffers.len() == 0 {
        drained(pending)
    } else {
        match fed(pending, buffers.first()) {
            Reading::Pending(next) => read_from(next, buffers.drop_first()),
            outcome => outcome,
        }
    }
}

/// The bytes of a stream.
pub open spec fn joined(buffers: Seq<Seq<u8>>) -> Seq<u8>
    decreases buffers.len(),
{
    if buffers.len() == 0 {
        Seq::empty()
    } else {
        buffers.first() + joined(buffers.drop_first())
    }
}

/// One line in the making.
#[derive(Clone, Debug)]
pub struct LineReader {
    pub line: Vec<u8>,
}

fn find_line_end(buffer: &[u8]) -> (result: Option<usize>)
    ensures
        match result {
            Some(at) => line_end(buffer@) == Some(at as int),
            None => line_end(buffer@) is None,
        },
        result is Some ==> result->0 < buffer@.len(),
{
    let mut i: usize = 0;
    while i < buffer.len()
        invariant
            i <= buffer@.len(),
            line_end(buffer@.take(i as int)) is None,
        decreases buffer.len() - i,
    {
        assert(buffer@.take(i + 1).drop_last() =~= buffer@.take(i as int));
        if buffer[i] == NEW_LINE {
            proof {
                line_end_extends(buffer@.take(i + 1), buffer@.skip(i + 1));
                assert(buffer@.take(i + 1) + buffer@.skip(i + 1) =~= buffer@);
            }
            return Some(i);
        }
        i = i + 1;
    }
    assert(buffer@.take(i as int) =~= buffer@);
    None
}

/// Later bytes do not move a line end, and a line end in them counts from the
/// start of all bytes.
proof fn line_end_extends(head: Seq<u8>, tail: Seq<u8>)
    ensures
        line_end(head + tail) == (match line_end(head) {
            Some(at) => Some(at),
            None => match line_end(tail) {
                Some(at) => Some(head.len() + at),
                None => None,
            },
        }),
    decreases tail.len(),
{
    if tail.len() == 0 {
        assert(head + tail =~= head);
    } else {
        line_end_extends(head, tail.drop_last());
        assert((head + tail).drop_last() =~= head + tail.drop_last());
        assert((head + tail).last() == tail.last());
    }
}

impl LineReader {
    pub fn new() -> (result: Self)
        ensures
            result.line@.len() == 0,
    {
        LineReader { line: Vec::new() }
    }

    /// Takes bytes of a buffer: all of them, or those up to and with the first
    /// line end. Says how many were taken and, once it is known, what the line
    /// is; a reader whose line is known holds nothing.
    pub fn feed(&mut self, buffer: &[u8]) -> (result: (usize, Option<BoundedLine>))
        ensures
            result.0 == (match line_end(buffer@) {
                Some(at) => at + 1,
                None => buffer@.len() as int,
            }),
            match fed(old(self).line@, buffer@) {
                Reading::Pending(next) => result.1 is None && final(self).line@ == next,
                Reading::Line(line) => {
                    &&& result.1 matches Some(BoundedLine::Line(bytes)) && bytes@ == line
                    &&& final(self).line@.len() == 0
                },
                Reading::TooLong => {
                    &&& result.1 == Some(BoundedLine::TooLong)
                    &&& final(self).line@.len() == 0
                },
                Reading::Eof => false,
            },
    {
        let end = find_line_end(buffer);
        let length: usize = buffer.len();
        let keep: usize = match end {
            Some(at) => at,
            None => length,
        };
        let ghost pending = self.line@;
        let mut line: Vec<u8> = Vec::new();
        std::mem::swap(&mut self.line, &mut line);
        let mut i: usize = 0;
        while i < keep
            invariant
                i <= keep <= buffer@.len(),
                line@ == pending + buffer@.take(i as int),
            decreases keep - i,
        {
            line.push(buffer[i]);
            i = i + 1;
            assert(line@ =~= pending + buffer@.take(i as int));
        }
        match end {
            Some(at) => {
                if line.len() > 0 && line[line.len() - 1] == CARRIAGE_RETURN {
                    let _ = line.pop();
                }
                assert(line@ =~= without_return(pending + buffer@.take(at as int)));
                if line.len() > MAX_LINE_BYTES {
                    (at + 1, Some(BoundedLine::TooLong))
                } else {
                    (at + 1, Some(BoundedLine::Line(line)))
                }
            },
            None => {
                assert(buffer@.take(keep as int) =~= buffer@);
                if line.len() > MAX_LINE_BYTES {
                    (keep, Some(BoundedLine::TooLong))
                } else {
                    self.line = line;
                    (keep, None)
                }
            },
        }
    }

    /// The stream has ended.
    pub fn finish(self) -> (result: BoundedLine)
        ensures
            match drained(self.line@) {
                Reading::Line(line) => result matches BoundedLine::Line(bytes) && bytes@ == line,
                _ => result == BoundedLine::Eof,
            },
    {
        if self.line.len() == 0 {
            BoundedLine::Eof
        } else {
            BoundedLine::Line(self.line)
        }
    }
}

/// A line within the limit is read as it is, however the stream is cut into
/// buffers. The limit counts a carriage return before the line end.
pub proof fn lines_within_the_limit_survive_any_buffering(buffers: Seq<Seq<u8>>)
    ensures
        match line_end(joined(buffers)) {
            Some(at) => at <= MAX_LINE_BYTES ==> read_from(Seq::empty(), buffers) == Reading::Line(
                without_return(joined(buffers).take(at)),
            ),
            None => joined(buffers).len() <= MAX_LINE_BYTES ==> read_from(Seq::empty(), buffers)
                == drained(joined(buffers)),
        },
{
    short_lines_are_read(Seq::empty(), buffers);
    assert(Seq::<u8>::empty() + joined(buffers) =~= joined(buffers));
}

proof fn short_lines_are_read(pending: Seq<u8>, buffers: Seq<Seq<u8>>)
    requires
        line_end(pending) is None,
        pending.len() <= MAX_LINE_BYTES,
    ensures
        match line_end(pending + joined(buffers)) {
            Some(at) => at <= MAX_LINE_BYTES ==> read_from(pending, buffers) == Reading::Line(
                without_return((pending + joined(buffers)).take(at)),
            ),
            None => (pending + joined(buffers)).len() <= MAX_LINE_BYTES ==> read_from(
                pending,
                buffers,
            ) == drained(pending + joined(buffers)),
        },
    decreases buffers.len(),
{
    let all = pending + joined(buffers);
    if buffers.len() == 0 {
        assert(all =~= pending);
    } else {
        let buffer = buffers.first();
        let rest = joined(buffers.drop_first());
        line_end_extends(pending + buffer, rest);
        line_end_extends(pending, buffer);
        assert(all =~= (pending + buffer) + rest);
        match line_end(buffer) {
            Some(at) => {
                line_end_is_first(buffer);
                assert(all.take(pending.len() + at) =~= pending + buffer.take(at));
            },
            None => {
                match line_end(all) {
                    Some(at) => {
                        line_end_is_first(all);
                        line_end_is_first(pending + buffer);
                        assert(at >= (pending + buffer).len());
                    },
                    None => {},
                }
                if pending.len() + buffer.len() <= MAX_LINE_BYTES {
                    short_lines_are_read(pending + buffer, buffers.drop_first());
                }
            },
        }
    }
}

/// A line over the limit is refused, however the stream is cut into buffers.
pub proof fn lines_over_the_limit_are_refused(buffers: Seq<Seq<u8>>)
    requires
        match line_end(joined(buffers)) {
            Some(at) => without_return(joined(buffers).take(at)).len() > MAX_LINE_BYTES,
            None => joined(buffers).len() > MAX_LINE_BYTES,
        },
    ensures
        read_from(Seq::empty(), buffers) == Reading::TooLong,
{
    assert(Seq::<u8>::empty() + joined(buffers) =~= joined(buffers));
    long_lines_are_refused(Seq::empty(), buffers);
}

proof fn long_lines_are_refused(pending: Seq<u8>, buffers: Seq<Seq<u8>>)
    requires
        line_end(pending) is None,
        pending.len() <= MAX_LINE_BYTES,
        match line_end(pending + joined(buffers)) {
            Some(at) => without_return((pending + joined(buffers)).take(at)).len() > MAX_LINE_BYTES,
            None => (pending + joined(buffers)).len() > MAX_LINE_BYTES,
        },
    ensures
        read_from(pending, buffers) == Reading::TooLong,
    decreases buffers.len(),
{
    let all = pending + joined(buffers);
    if buffers.len() == 0 {
        assert(all =~= pending);
    } else {
        let buffer = buffers.first();
        let rest = joined(buffers.drop_first());
        line_end_extends(pending + buffer, rest);
        line_end_extends(pending, buffer);
        assert(all =~= (pending + buffer) + rest);
        match line_end(buffer) {
            Some(at) => {
                line_end_is_first(buffer);
                assert(all.take(pending.len() + at) =~= pending + buffer.take(at));
            },
            None => {
                if pending.len() + buffer.len() <= MAX_LINE_BYTES {
                    long_lines_are_refused(pending + buffer, buffers.drop_first());
                }
            },
        }
    }
}

/// Reads bytes as text with `std::str::from_utf8`.
///
/// The contract claims what its documentation says: bytes that are valid UTF-8
/// give the text that they encode, and other bytes give an error.
#[verifier::external_body]
fn text_of(bytes: &[u8]) -> (result: Option<&str>)
    ensures
        match result {
            Some(text) => valid_utf8(bytes@) && text@ == decode_utf8(bytes@),
            None => !valid_utf8(bytes@),
        },
{
    std::str::from_utf8(bytes).ok()
}

/// What the reader of the request stream does with a line.
#[derive(Clone, Debug)]
pub enum LineEvent {
    /// The client is gone.
    Eof,
    /// Report a failure that belongs to no request; stop after a fatal one.
    Error { error: RpcError, fatal: bool },
    /// A line of white space.
    Skip,
    /// Parse a request.
    Parse(String),
}

/// A line that is too long ends the session, one that is no text is reported,
/// and a blank one is passed over.
pub fn line_event(line: BoundedLine) -> (event: LineEvent)
    ensures
        match line {
            BoundedLine::Eof => event is Eof,
            BoundedLine::TooLong => event == (LineEvent::Error {
                error: RpcError::InvalidRequest,
                fatal: true,
            }),
            BoundedLine::Line(bytes) => if !valid_utf8(bytes@) {
                event == (LineEvent::Error { error: RpcError::ParseError, fatal: false })
            } else if blank(decode_utf8(bytes@)) {
                event is Skip
            } else {
                event matches LineEvent::Parse(text) && text@ == decode_utf8(bytes@)
            },
        },
{
    match line {
        BoundedLine::Eof => LineEvent::Eof,
        BoundedLine::TooLong => LineEvent::Error { error: RpcError::InvalidRequest, fatal: true },
        BoundedLine::Line(bytes) => match text_of(bytes.as_slice()) {
            None => LineEvent::Error { error: RpcError::ParseError, fatal: false },
            Some(text) => if is_blank(text) {
                LineEvent::Skip
            } else {
                LineEvent::Parse(text.to_owned())
            },
        },
    }
}

} // verus!
