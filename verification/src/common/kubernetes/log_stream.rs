//! Turning the bytes of a followed container log into lines of text.
//!
//! A [`LogStream`] holds what has arrived and not been delivered yet. The
//! caller feeds it the chunks it reads, takes the lines out, and closes it
//! when the log ends. A line is complete once its line feed has arrived; a
//! carriage return before the line feed is not part of the line. What is
//! left without a line feed when the stream closes is never delivered.

use vstd::prelude::*;
use vstd::slice::{slice_subrange, slice_to_vec};
use vstd::utf8::{decode_utf8, valid_utf8};
use crate::common::text::string_from_utf8;

verus! {

/// One line of a container's output, without its line ending.
#[derive(Clone, Debug)]
pub struct LogLine {
    pub text: String,
}

/// Why a log stream ended before the container's output did.
#[derive(Clone, Copy, Debug, PartialEq, Eq, Structural)]
pub enum StreamError {
    /// A line was not valid UTF-8.
    InvalidUtf8,
    /// The connection failed while the log was read.
    ConnectionLost,
}

/// Whether a stream still takes input.
#[derive(Clone, Copy, Debug, PartialEq, Eq, Structural)]
pub enum StreamStatus {
    Open,
    /// The log ended or the server closed the connection.
    Closed,
    /// An error ended the stream.
    Failed,
}

/// The mathematical state of a log stream.
pub struct StreamState {
    /// The bytes that arrived and were not delivered.
    pub pending: Seq<u8>,
    pub status: StreamStatus,
}

/// What taking one line out of a stream gives, as mathematical value.
pub enum LineOutcome {
    Line(Seq<char>),
    /// No complete line has arrived yet; the stream is open.
    NeedMore,
    /// The stream has ended and every complete line was delivered.
    End,
    /// The next line cannot be decoded; the stream has failed.
    Failed(StreamError),
}

/// The index of the first line feed at or after `from`, or the length of
/// `bytes` if there is none.
pub open spec fn first_line_feed(bytes: Seq<u8>, from: int) -> nat
    decreases bytes.len() - from,
{
    if from < 0 || from >= bytes.len() {
        bytes.len()
    } else if bytes[from] == 0x0A {
        from as nat
    } else {
        first_line_feed(bytes, from + 1)
    }
}

/// The bytes of a line's text: the line without a final carriage return.
pub open spec fn line_text(raw: Seq<u8>) -> Seq<u8> {
    if raw.len() > 0 && raw.last() == 0x0D {
        raw.drop_last()
    } else {
        raw
    }
}

/// The state after `chunk` arrived. A stream that is not open ignores it.
pub open spec fn stream_feed(state: StreamState, chunk: Seq<u8>) -> StreamState {
    if state.status == StreamStatus::Open {
        StreamState { pending: state.pending + chunk, ..state }
    } else {
        state
    }
}

/// The state after the log ended. Only an open stream changes.
pub open spec fn stream_close(state: StreamState) -> StreamState {
    if state.status == StreamStatus::Open {
        StreamState { status: StreamStatus::Closed, ..state }
    } else {
        state
    }
}

/// The state after the connection failed. Only an open stream changes; what
/// had arrived is dropped.
pub open spec fn stream_abort(state: StreamState) -> StreamState {
    if state.status == StreamStatus::Open {
        StreamState { pending: Seq::empty(), status: StreamStatus::Failed }
    } else {
        state
    }
}

/// Taking one line out: the state afterwards and what was taken.
pub open spec fn stream_next(state: StreamState) -> (StreamState, LineOutcome) {
    let end = first_line_feed(state.pending, 0);
    if state.status == StreamStatus::Failed {
        (state, LineOutcome::End)
    } else if end >= state.pending.len() {
        if state.status == StreamStatus::Open {
            (state, LineOutcome::NeedMore)
        } else {
            (state, LineOutcome::End)
        }
    } else {
        let text = line_text(state.pending.subrange(0, end as int));
        if valid_utf8(text) {
            (
                StreamState {
                    pending: state.pending.subrange(end as int + 1, state.pending.len() as int),
                    ..state
                },
                LineOutcome::Line(decode_utf8(text)),
            )
        } else {
            (
                StreamState { pending: Seq::empty(), status: StreamStatus::Failed },
                LineOutcome::Failed(StreamError::InvalidUtf8),
            )
        }
    }
}

/// What draining a stream gives, as mathematical value: the lines taken, in
/// order, the error that stopped the draining, if one did, and the state
/// afterwards.
pub struct Drained {
    pub lines: Seq<Seq<char>>,
    pub error: Option<StreamError>,
    pub state: StreamState,
}

/// Taking lines out until none can be taken.
pub open spec fn stream_drain(state: StreamState) -> Drained
    decreases state.pending.len(),
{
    let (next, outcome) = stream_next(state);
    match outcome {
        LineOutcome::Line(text) => {
            let rest = stream_drain(next);
            Drained { lines: seq![text] + rest.lines, ..rest }
        },
        LineOutcome::Failed(error) => Drained {
            lines: Seq::empty(),
            error: Some(error),
            state: next,
        },
        LineOutcome::NeedMore | LineOutcome::End => Drained {
            lines: Seq::empty(),
            error: None,
            state: next,
        },
    }
}

/// What taking one line out of a stream gives.
#[derive(Clone, Debug)]
pub enum LineStep {
    Line(LogLine),
    /// No complete line has arrived yet: feed the stream, or close it.
    NeedMore,
    /// The stream has ended and every complete line was delivered.
    End,
    /// The next line could not be decoded: the stream has failed.
    Failed(StreamError),
}

impl View for LineStep {
    type V = LineOutcome;

    open spec fn view(&self) -> LineOutcome {
        match *self {
            LineStep::Line(line) => LineOutcome::Line(line.text@),
            LineStep::NeedMore => LineOutcome::NeedMore,
            LineStep::End => LineOutcome::End,
            LineStep::Failed(error) => LineOutcome::Failed(error),
        }
    }
}

/// The lines that a drain delivered and the error that stopped it, if one
/// did.
#[derive(Clone, Debug)]
pub struct Delivery {
    pub lines: Vec<LogLine>,
    pub error: Option<StreamError>,
}

/// The texts of `lines`, in order.
pub open spec fn line_texts(lines: Seq<LogLine>) -> Seq<Seq<char>> {
    Seq::new(lines.len(), |i: int| lines[i].text@)
}

/// The decoder between a followed log and its reader.
#[derive(Debug)]
pub struct LogStream {
    buffer: Vec<u8>,
    consumed: usize,
    status: StreamStatus,
}

impl View for LogStream {
    type V = StreamState;

    closed spec fn view(&self) -> StreamState {
        StreamState {
            pending: self.buffer@.subrange(self.consumed as int, self.buffer@.len() as int),
            status: self.status,
        }
    }
}

impl LogStream {
    #[verifier::type_invariant]
    closed spec fn inv(&self) -> bool {
        self.consumed <= self.buffer@.len()
    }

    /// A stream on which nothing has arrived.
    pub fn open() -> (stream: LogStream)
        ensures
            stream@ == (StreamState { pending: Seq::empty(), status: StreamStatus::Open }),
    {
        let stream = LogStream { buffer: Vec::new(), consumed: 0, status: StreamStatus::Open };
        assert(stream@.pending =~= Seq::empty());
        stream
    }

    /// Whether the stream still takes input.
    pub fn status(&self) -> (status: StreamStatus)
        ensures
            status == self@.status,
    {
        self.status
    }

    /// How many bytes have arrived and not been delivered.
    pub fn pending_len(&self) -> (n: usize)
        ensures
            n == self@.pending.len(),
    {
        proof {
            use_type_invariant(self);
        }
        self.buffer.len() - self.consumed
    }

    /// Takes in the next chunk of the log. A stream that is not open ignores
    /// it.
    pub fn feed(&mut self, chunk: &[u8])
        ensures
            final(self)@ == stream_feed(old(self)@, chunk@),
    {
        proof {
            use_type_invariant(&*self);
        }
        match self.status {
            StreamStatus::Open => {
                let mut joined: Vec<u8> = slice_to_vec(
                    slice_subrange(self.buffer.as_slice(), self.consumed, self.buffer.len()),
                );
                let ghost before = joined@;
                let mut i: usize = 0;
                while i < chunk.len()
                    invariant
                        i <= chunk.len(),
                        joined@ == before + chunk@.subrange(0, i as int),
                    decreases chunk.len() - i,
                {
                    joined.push(chunk[i]);
                    assert(chunk@.subrange(0, i + 1) == chunk@.subrange(0, i as int).push(
                        chunk@[i as int],
                    ));
                    i = i + 1;
                }
                assert(chunk@.subrange(0, i as int) == chunk@);
                self.consumed = 0;
                self.buffer = joined;
                assert(final(self)@.pending == old(self)@.pending + chunk@);
            },
            StreamStatus::Closed | StreamStatus::Failed => {},
        }
    }

    /// Marks the end of the log. What has arrived without a line feed will
    /// not be delivered.
    pub fn close(&mut self)
        ensures
            final(self)@ == stream_close(old(self)@),
    {
        proof {
            use_type_invariant(&*self);
        }
        match self.status {
            StreamStatus::Open => {
                self.status = StreamStatus::Closed;
            },
            StreamStatus::Closed | StreamStatus::Failed => {},
        }
    }

    /// Marks the stream as failed because the connection was lost, and says
    /// which error to report: none if the stream had ended before.
    pub fn abort(&mut self) -> (error: Option<StreamError>)
        ensures
            final(self)@ == stream_abort(old(self)@),
            error == if old(self)@.status == StreamStatus::Open {
                Some(StreamError::ConnectionLost)
            } else {
                None
            },
    {
        match self.status {
            StreamStatus::Open => {
                self.consumed = 0;
                self.buffer = Vec::new();
                self.status = StreamStatus::Failed;
                assert(final(self)@.pending =~= Seq::empty());
                Some(StreamError::ConnectionLost)
            },
            StreamStatus::Closed | StreamStatus::Failed => None,
        }
    }

    /// Takes the next complete line out of the stream, if there is one.
    pub fn next_line(&mut self) -> (step: LineStep)
        ensures
            (final(self)@, step@) == stream_next(old(self)@),
    {
        proof {
            use_type_invariant(&*self);
        }
        match self.status {
            StreamStatus::Failed => {
                return LineStep::End;
            },
            StreamStatus::Open | StreamStatus::Closed => {},
        }
        let ghost pending = self@.pending;
        let start = self.consumed;
        let mut end: usize = start;
        while end < self.buffer.len() && self.buffer[end] != 0x0A
            invariant
                start <= end <= self.buffer@.len(),
                start == self.consumed,
                pending == self.buffer@.subrange(start as int, self.buffer@.len() as int),
                first_line_feed(pending, 0) == first_line_feed(pending, end - start),
            decreases self.buffer@.len() - end,
        {
            end = end + 1;
        }
        if end >= self.buffer.len() {
            return match self.status {
                StreamStatus::Open => LineStep::NeedMore,
                StreamStatus::Closed | StreamStatus::Failed => LineStep::End,
            };
        }
        assert(first_line_feed(pending, 0) == end - start);
        let text_end = if end > start && self.buffer[end - 1] == 0x0D {
            end - 1
        } else {
            end
        };
        let raw = slice_to_vec(slice_subrange(self.buffer.as_slice(), start, text_end));
        assert(raw@ == line_text(pending.subrange(0, end - start))) by {
            let whole = pending.subrange(0, end - start);
            assert(whole == self.buffer@.subrange(start as int, end as int));
            if end > start {
                assert(whole.last() == self.buffer@[end - 1]);
            }
            assert(raw@ =~= line_text(whole));
        }
        match string_from_utf8(raw) {
            Ok(text) => {
                self.consumed = end + 1;
                assert(final(self)@.pending == pending.subrange(
                    end - start + 1,
                    pending.len() as int,
                ));
                LineStep::Line(LogLine { text })
            },
            Err(_) => {
                self.consumed = 0;
                self.buffer = Vec::new();
                self.status = StreamStatus::Failed;
                assert(final(self)@.pending =~= Seq::empty());
                LineStep::Failed(StreamError::InvalidUtf8)
            },
        }
    }

    /// Takes out every line that can be taken: all complete lines, or those
    /// before the first one that cannot be decoded.
    pub fn drain(&mut self) -> (delivery: Delivery)
        ensures
            final(self)@ == stream_drain(old(self)@).state,
            line_texts(delivery.lines@) == stream_drain(old(self)@).lines,
            delivery.error == stream_drain(old(self)@).error,
    {
        let mut lines: Vec<LogLine> = Vec::new();
        let mut error: Option<StreamError> = None;
        let ghost start = self@;
        assert(line_texts(lines@) =~= Seq::empty());
        loop
            invariant_except_break
                error is None,
                stream_drain(start).lines == line_texts(lines@) + stream_drain(self@).lines,
                stream_drain(start).error == stream_drain(self@).error,
                stream_drain(start).state == stream_drain(self@).state,
            ensures
                self@ == stream_drain(start).state,
                line_texts(lines@) == stream_drain(start).lines,
                error == stream_drain(start).error,
            decreases self@.pending.len(),
        {
            let ghost before = self@;
            match self.next_line() {
                LineStep::Line(line) => {
                    let ghost text = line.text@;
                    let ghost taken = line_texts(lines@);
                    lines.push(line);
                    assert(line_texts(lines@) =~= taken.push(text));
                    assert(taken + (seq![text] + stream_drain(self@).lines) =~= taken.push(text)
                        + stream_drain(self@).lines);
                },
                LineStep::Failed(found) => {
                    error = Some(found);
                    break ;
                },
                LineStep::NeedMore | LineStep::End => {
                    break ;
                },
            }
        }
        Delivery { lines, error }
    }
}

/// Draining is idempotent: right after a drain, a second drain delivers no
/// line and no error and leaves the stream as it is. This holds of a closed
/// stream in particular.
pub proof fn lemma_drain_is_idempotent(state: StreamState)
    ensures
        stream_drain(stream_drain(state).state).lines == Seq::<Seq<char>>::empty(),
        stream_drain(stream_drain(state).state).error is None,
        stream_drain(stream_drain(state).state).state == stream_drain(state).state,
    decreases state.pending.len(),
{
    let (next, outcome) = stream_next(state);
    match outcome {
        LineOutcome::Line(_) => {
            lemma_drain_is_idempotent(next);
        },
        LineOutcome::Failed(_) => {
            assert(first_line_feed(next.pending, 0) == 0);
        },
        LineOutcome::NeedMore | LineOutcome::End => {},
    }
}

/// A stream that has ended delivers nothing more: once it is closed and
/// drained, input is ignored and every further drain is empty and without
/// error.
pub proof fn lemma_ended_stream_stays_silent(state: StreamState, chunk: Seq<u8>)
    requires
        state.status != StreamStatus::Open,
    ensures
        stream_feed(stream_drain(state).state, chunk) == stream_drain(state).state,
        stream_close(stream_drain(state).state) == stream_drain(state).state,
        stream_drain(stream_drain(state).state).lines.len() == 0,
        stream_drain(stream_drain(state).state).error is None,
    decreases state.pending.len(),
{
    lemma_drain_is_idempotent(state);
    lemma_drain_keeps_ended(state);
}

/// Draining never reopens a stream.
pub proof fn lemma_drain_keeps_ended(state: StreamState)
    requires
        state.status != StreamStatus::Open,
    ensures
        stream_drain(state).state.status != StreamStatus::Open,
    decreases state.pending.len(),
{
    let (next, outcome) = stream_next(state);
    match outcome {
        LineOutcome::Line(_) => {
            lemma_drain_keeps_ended(next);
        },
        _ => {},
    }
}

} // verus!
