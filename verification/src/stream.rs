//! A lazy byte stream over a readable source, or over a file that is opened
//! on first demand.
//!
//! The stream is a state machine without I/O of its own. Its driver performs
//! the pending operation (opening the file, or reading the source) and
//! hands [`FileStream::poll`] what came of it; the stream answers with what
//! its consumer is to see.

use vstd::prelude::*;
use vstd::string::*;

verus! {

#[verifier::external_type_specification]
#[verifier::external_body]
pub struct ExBytes(bytes::Bytes);

#[verifier::external_type_specification]
#[verifier::external_body]
pub struct ExBytesMut(bytes::BytesMut);

/// The bytes that a `bytes::Bytes` holds.
pub uninterp spec fn contents(chunk: bytes::Bytes) -> Seq<u8>;

/// The bytes that a `bytes::BytesMut` holds.
pub uninterp spec fn contents_mut(chunk: bytes::BytesMut) -> Seq<u8>;

/// Calls `bytes::BytesMut::freeze`.
///
/// Trusted: the immutable handle refers to the same bytes.
#[verifier::external_body]
pub(crate) fn freeze(chunk: bytes::BytesMut) -> (frozen: bytes::Bytes)
    ensures
        contents(frozen) == contents_mut(chunk),
{
    chunk.freeze()
}

enum State<S> {
    File(String),
    Read(S),
}

/// A single-pass stream of byte chunks. It starts either over an open
/// source, or over a path whose file is opened when the stream is first
/// polled.
pub struct FileStream<S> {
    state: State<S>,
}

/// The state of a [`FileStream`].
pub enum StreamView<S> {
    /// The file at `path` is being opened.
    Opening { path: Seq<char> },
    /// Chunks are read from `source`.
    Streaming { source: S },
}

/// What the driver reports of the operation it polled.
pub enum Event<S, E> {
    /// The operation is not ready.
    Pending,
    /// The file is open; this is the source to read it from.
    Opened(S),
    /// The source gave a chunk.
    Chunk(bytes::BytesMut),
    /// The source is at its end.
    End,
    /// The operation failed.
    Failed(E),
}

/// The mathematical value of an [`Event`].
pub enum EventView<S, E> {
    Pending,
    Opened(S),
    Chunk(Seq<u8>),
    End,
    Failed(E),
}

/// What the stream's consumer sees of one poll.
pub enum Step<E> {
    /// Nothing yet. With `notify` the consumer is to poll again at once;
    /// without it, when the pending operation wakes it.
    NotReady { notify: bool },
    /// The next chunk.
    Chunk(bytes::Bytes),
    /// The clean end of the sequence.
    End,
    /// The failure of the source, as it was reported.
    Failed(E),
}

/// The mathematical value of a [`Step`].
pub enum StepView<E> {
    NotReady { notify: bool },
    Chunk(Seq<u8>),
    End,
    Failed(E),
}

impl<S, E> View for Event<S, E> {
    type V = EventView<S, E>;

    open spec fn view(&self) -> EventView<S, E> {
        match self {
            Event::Pending => EventView::Pending,
            Event::Opened(source) => EventView::Opened(*source),
            Event::Chunk(chunk) => EventView::Chunk(contents_mut(*chunk)),
            Event::End => EventView::End,
            Event::Failed(error) => EventView::Failed(*error),
        }
    }
}

impl<E> View for Step<E> {
    type V = StepView<E>;

    open spec fn view(&self) -> StepView<E> {
        match self {
            Step::NotReady { notify } => StepView::NotReady { notify: *notify },
            Step::Chunk(chunk) => StepView::Chunk(contents(*chunk)),
            Step::End => StepView::End,
            Step::Failed(error) => StepView::Failed(*error),
        }
    }
}

impl<S> View for FileStream<S> {
    type V = StreamView<S>;

    closed spec fn view(&self) -> StreamView<S> {
        match self.state {
            State::File(path) => StreamView::Opening { path: path@ },
            State::Read(source) => StreamView::Streaming { source },
        }
    }
}

impl<S> StreamView<S> {
    /// The events that can come of the operation that is pending in this
    /// state: an open cannot give chunks, a read cannot open.
    pub open spec fn expects<E>(self, event: EventView<S, E>) -> bool {
        match self {
            StreamView::Opening { .. } => event is Pending || event is Opened || event is Failed,
            StreamView::Streaming { .. } => !(event is Opened),
        }
    }

    /// The state after `event`: the stream starts streaming when the open
    /// completes, and nothing else changes its state.
    pub open spec fn after<E>(self, event: EventView<S, E>) -> StreamView<S> {
        match (self, event) {
            (StreamView::Opening { .. }, EventView::Opened(source)) => StreamView::Streaming {
                source,
            },
            _ => self,
        }
    }

    /// What the consumer sees of `event`.
    pub open spec fn yields<E>(self, event: EventView<S, E>) -> StepView<E> {
        match self {
            StreamView::Opening { .. } => match event {
                EventView::Opened(_) => StepView::NotReady { notify: true },
                EventView::Failed(error) => StepView::Failed(error),
                _ => StepView::NotReady { notify: false },
            },
            StreamView::Streaming { .. } => match event {
                EventView::Chunk(bytes) => StepView::Chunk(bytes),
                EventView::End => StepView::End,
                EventView::Failed(error) => StepView::Failed(error),
                _ => StepView::NotReady { notify: false },
            },
        }
    }
}

impl<S> FileStream<S> {
    /// A stream over an open source. It starts streaming; nothing is read yet.
    pub fn new(inner: S) -> (stream: Self)
        ensures
            stream@ == (StreamView::Streaming { source: inner }),
    {
        FileStream { state: State::Read(inner) }
    }

    /// A stream over the file at `file`. The path is not touched before the
    /// stream is polled.
    pub fn open(file: &str) -> (stream: Self)
        ensures
            stream@ == (StreamView::<S>::Opening { path: file@ }),
    {
        FileStream { state: State::File(String::from_str(file)) }
    }

    /// The path of the file to open, while the stream is opening.
    pub fn path(&self) -> (path: Option<&String>)
        ensures
            match path {
                Some(path) => self@ == (StreamView::<S>::Opening { path: path@ }),
                None => self@ is Streaming,
            },
    {
        match &self.state {
            State::File(path) => Some(path),
            State::Read(_) => None,
        }
    }

    /// The source to read, while the stream is streaming. What the driver
    /// does to the source is what becomes of the stream's source.
    pub fn reader(&mut self) -> (source: Option<&mut S>)
        ensures
            match source {
                Some(source) => old(self)@ == (StreamView::Streaming { source: *source })
                    && final(self)@ == (StreamView::Streaming { source: *final(source) }),
                None => old(self)@ is Opening && *final(self) == *old(self),
            },
    {
        match &mut self.state {
            State::File(_) => None,
            State::Read(source) => Some(source),
        }
    }

    /// Whether `event` can come of the operation that is pending now.
    pub fn expects<E>(&self, event: &Event<S, E>) -> (expected: bool)
        ensures
            expected == self@.expects(event@),
    {
        match &self.state {
            State::File(_) => match event {
                Event::Pending => true,
                Event::Opened(_) => true,
                Event::Failed(_) => true,
                _ => false,
            },
            State::Read(_) => match event {
                Event::Opened(_) => false,
                _ => true,
            },
        }
    }

    /// Takes what came of the pending operation and answers the consumer.
    ///
    /// While opening: a completed open starts the streaming and asks the
    /// consumer to poll again; an open that is not ready leaves everything
    /// as it is. While streaming: a chunk is passed on frozen, the end is
    /// the end. A failure is passed on unchanged in either state.
    pub fn poll<E>(&mut self, event: Event<S, E>) -> (step: Step<E>)
        requires
            old(self)@.expects(event@),
        ensures
            final(self)@ == old(self)@.after(event@),
            step@ == old(self)@.yields(event@),
    {
        match event {
            Event::Pending => Step::NotReady { notify: false },
            Event::Opened(source) => {
                self.state = State::Read(source);
                Step::NotReady { notify: true }
            },
            Event::Chunk(chunk) => Step::Chunk(freeze(chunk)),
            Event::End => Step::End,
            Event::Failed(error) => Step::Failed(error),
        }
    }
}

/// What a run of events makes the consumer see, from the state `stream` on.
pub open spec fn run<S, E>(stream: StreamView<S>, events: Seq<EventView<S, E>>) -> Seq<
    StepView<E>,
>
    decreases events.len(),
{
    if events.len() == 0 {
        Seq::empty()
    } else {
        seq![stream.yields(events[0])] + run(stream.after(events[0]), events.drop_first())
    }
}

/// The state that a run of events leaves.
pub open spec fn run_state<S, E>(stream: StreamView<S>, events: Seq<EventView<S, E>>) -> StreamView<
    S,
>
    decreases events.len(),
{
    if events.len() == 0 {
        stream
    } else {
        run_state(stream.after(events[0]), events.drop_first())
    }
}

/// Each event of the run can come of the operation that is pending when it
/// arrives.
pub open spec fn orderly<S, E>(stream: StreamView<S>, events: Seq<EventView<S, E>>) -> bool
    decreases events.len(),
{
    events.len() == 0 || (stream.expects(events[0]) && orderly(
        stream.after(events[0]),
        events.drop_first(),
    ))
}

/// The bytes that the source gave in a run of events, in order.
pub open spec fn offered<S, E>(events: Seq<EventView<S, E>>) -> Seq<u8>
    decreases events.len(),
{
    if events.len() == 0 {
        Seq::empty()
    } else {
        let rest = offered(events.drop_first());
        match events[0] {
            EventView::Chunk(bytes) => bytes + rest,
            _ => rest,
        }
    }
}

/// The bytes that the consumer received, in order.
pub open spec fn delivered<E>(steps: Seq<StepView<E>>) -> Seq<u8>
    decreases steps.len(),
{
    if steps.len() == 0 {
        Seq::empty()
    } else {
        let rest = delivered(steps.drop_first());
        match steps[0] {
            StepView::Chunk(bytes) => bytes + rest,
            _ => rest,
        }
    }
}

/// The chunks that a stream yields, put end to end, are the bytes that its
/// source gave: none is lost, added or moved.
pub proof fn lemma_chunks_reproduce_source<S, E>(
    stream: StreamView<S>,
    events: Seq<EventView<S, E>>,
)
    requires
        orderly(stream, events),
    ensures
        delivered(run(stream, events)) == offered(events),
        run(stream, events).len() == events.len(),
    decreases events.len(),
{
    if events.len() > 0 {
        let first = stream.yields(events[0]);
        let rest = run(stream.after(events[0]), events.drop_first());
        lemma_chunks_reproduce_source(stream.after(events[0]), events.drop_first());
        assert((seq![first] + rest).drop_first() =~= rest);
        assert((seq![first] + rest)[0] == first);
    }
}

/// Once a stream is streaming, no event takes it out of that state: a run
/// of events leaves its state as it was.
pub proof fn lemma_streaming_stays<S, E>(stream: StreamView<S>, events: Seq<EventView<S, E>>)
    requires
        stream is Streaming,
        orderly(stream, events),
    ensures
        run_state(stream, events) == stream,
    decreases events.len(),
{
    if events.len() > 0 {
        lemma_streaming_stays(stream.after(events[0]), events.drop_first());
    }
}

/// A file that cannot be opened fails the poll that learns of it, not the
/// making of the stream: the failure is what that poll yields, and the stream
/// goes on waiting for its file.
pub proof fn lemma_open_failure_surfaces_at_poll<S, E>(path: Seq<char>, error: E)
    ensures
        ({
            let stream = StreamView::<S>::Opening { path };
            let event = EventView::<S, E>::Failed(error);
            &&& stream.expects(event)
            &&& stream.yields(event) == StepView::Failed(error)
            &&& stream.after(event) == stream
        }),
{
}

/// A stream that is opening yields no chunk before its file is open.
pub proof fn lemma_nothing_before_open<S, E>(stream: StreamView<S>, event: EventView<S, E>)
    requires
        stream is Opening,
        stream.expects(event),
    ensures
        !(stream.yields(event) is Chunk),
        !(stream.yields(event) is End),
        stream.after(event) is Streaming <==> event is Opened,
{
}

} // verus!
