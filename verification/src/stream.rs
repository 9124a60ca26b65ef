//! A streamed completion: the server sends its answer in fragments, as
//! server-sent events, and this module decides what each event means.
//!
//! The decoder is a state machine that is driven from outside. Whoever reads
//! the transport hands each event to [`CompletionStream::next`] and passes on
//! what comes back: a fragment, an error, or the end of the stream.

use vstd::prelude::*;
use crate::errors::{CompletionStreamError, CompletionStreamErrorView};
use crate::link::{Request, RequestView};
use crate::response::{decode, decoded_view, CompletionResponse, Envelope};

verus! {

/// Where a stream stands.
#[derive(Debug, Clone, Copy, PartialEq, Eq, Structural)]
pub enum StreamState {
    /// The request has not been answered yet.
    Connecting,
    /// The server is sending.
    Streaming,
    /// The stream is over; nothing more comes of it.
    Terminated,
}

/// What the transport reports.
#[derive(Debug, PartialEq, Eq)]
pub enum StreamEvent {
    /// The connection stands.
    Open,
    /// One message, with its data.
    Message(String),
    /// The server has ended the stream.
    Ended,
    /// The transport failed; the text is its account of it.
    Failed(String),
}

/// A [`StreamEvent`] as the contracts see it.
pub enum StreamEventView {
    Open,
    Message(Seq<char>),
    Ended,
    Failed(Seq<char>),
}

impl View for StreamEvent {
    type V = StreamEventView;

    open spec fn view(&self) -> StreamEventView {
        match self {
            StreamEvent::Open => StreamEventView::Open,
            StreamEvent::Message(data) => StreamEventView::Message(data@),
            StreamEvent::Ended => StreamEventView::Ended,
            StreamEvent::Failed(issue) => StreamEventView::Failed(issue@),
        }
    }
}

/// One item of a stream as the contracts see it: a fragment of the answer, or
/// an error.
pub type Item = Result<Seq<char>, CompletionStreamErrorView>;

/// What one call of `next` hands back, as the contracts see it: an item, or
/// `None` for the end of the stream.
pub open spec fn yield_view(yielded: Option<Result<String, CompletionStreamError>>) -> Option<Item> {
    match yielded {
        None => None,
        Some(Ok(fragment)) => Some(Ok(fragment@)),
        Some(Err(error)) => Some(Err(error@)),
    }
}

/// An event with the data of a message read as an envelope.
pub enum Input {
    Open,
    Frame(Result<Envelope, Seq<char>>),
    Ended,
    Failed(Seq<char>),
}

/// An event as the stream takes it: the data of a message is read as an
/// envelope, the other events stand as they are.
pub open spec fn read(event: StreamEventView) -> Input {
    match event {
        StreamEventView::Open => Input::Open,
        StreamEventView::Message(data) => Input::Frame(decode(data)),
        StreamEventView::Ended => Input::Ended,
        StreamEventView::Failed(issue) => Input::Failed(issue),
    }
}

/// What one message means to a stream that is not over, once its data was
/// read as an envelope.
///
/// An envelope with `stop` set ends the stream and gives no item, whatever
/// `content` it has. Any other envelope gives its `content` as a fragment,
/// the empty fragment where it has none. Data that is no envelope gives an
/// error item and leaves the stream running.
pub open spec fn on_frame(decoded: Result<Envelope, Seq<char>>) -> (StreamState, Option<Item>) {
    match decoded {
        Err(issue) => (
            StreamState::Streaming,
            Some(Err(CompletionStreamErrorView::Deserialization(issue))),
        ),
        Ok(envelope) => {
            if envelope.stop == Some(true) {
                (StreamState::Terminated, None)
            } else {
                (
                    StreamState::Streaming,
                    Some(
                        Ok(
                            match envelope.content {
                                Some(text) => text,
                                None => Seq::empty(),
                            },
                        ),
                    ),
                )
            }
        },
    }
}

/// What one input means: the state that follows, and what is yielded.
///
/// A stream that is over stays so and yields nothing. Else:
/// `Open` yields the empty fragment; a frame is taken as [`on_frame`] says;
/// `Ended` ends the stream without an item; `Failed` ends it with one last
/// item, the error.
pub open spec fn advance(state: StreamState, input: Input) -> (StreamState, Option<Item>) {
    if state is Terminated {
        (StreamState::Terminated, None)
    } else {
        match input {
            Input::Open => (StreamState::Streaming, Some(Ok(Seq::empty()))),
            Input::Frame(decoded) => on_frame(decoded),
            Input::Ended => (StreamState::Terminated, None),
            Input::Failed(issue) => (
                StreamState::Terminated,
                Some(Err(CompletionStreamErrorView::SSE(issue))),
            ),
        }
    }
}

/// What one event means: the state that follows, and what is yielded.
pub open spec fn step(state: StreamState, event: StreamEventView) -> (StreamState, Option<Item>) {
    advance(state, read(event))
}

/// What a run of inputs means: the state at its end, and the items yielded on
/// the way, in the order of the inputs that gave them.
pub open spec fn run(state: StreamState, inputs: Seq<Input>) -> (StreamState, Seq<Item>)
    decreases inputs.len(),
{
    if inputs.len() == 0 {
        (state, Seq::empty())
    } else {
        let before = run(state, inputs.drop_last());
        let last = advance(before.0, inputs.last());
        (
            last.0,
            match last.1 {
                Some(item) => before.1.push(item),
                None => before.1,
            },
        )
    }
}

/// A run of events as the stream takes them, each read as [`read`] says.
pub open spec fn read_all(events: Seq<StreamEvent>) -> Seq<Input> {
    Seq::new(events.len(), |i: int| read(events[i]@))
}

/// The items of a stream as the contracts see them.
pub open spec fn items_view(items: Seq<Result<String, CompletionStreamError>>) -> Seq<Item> {
    Seq::new(items.len(), |i: int| yield_view(Some(items[i]))->0)
}

/// A run can be taken in two parts: the second part starts where the first
/// ended, and its items follow those of the first.
pub proof fn lemma_run_in_two_parts(state: StreamState, first: Seq<Input>, second: Seq<Input>)
    ensures
        run(state, first + second).0 == run(run(state, first).0, second).0,
        run(state, first + second).1 == run(state, first).1 + run(run(state, first).0, second).1,
    decreases second.len(),
{
    if second.len() == 0 {
        assert(first + second =~= first);
        assert(run(state, first).1 + Seq::<Item>::empty() =~= run(state, first).1);
    } else {
        lemma_run_in_two_parts(state, first, second.drop_last());
        assert((first + second).drop_last() =~= first + second.drop_last());
        assert((first + second).last() == second.last());
        let middle = run(state, first).0;
        let before = run(middle, second.drop_last());
        let last = advance(before.0, second.last());
        match last.1 {
            Some(item) => {
                assert((run(state, first).1 + before.1).push(item) =~= run(state, first).1 + before.1.push(
                    item,
                ));
            },
            None => {},
        }
    }
}

/// Once a stream is over it stays over, and nothing more comes of it,
/// whatever it is handed.
pub proof fn lemma_nothing_after_the_end(inputs: Seq<Input>)
    ensures
        run(StreamState::Terminated, inputs) == (StreamState::Terminated, Seq::<Item>::empty()),
    decreases inputs.len(),
{
    if inputs.len() > 0 {
        lemma_nothing_after_the_end(inputs.drop_last());
    }
}

/// A stream yields at most one item for each input: it is finite.
pub proof fn lemma_one_item_at_most(state: StreamState, inputs: Seq<Input>)
    ensures
        run(state, inputs).1.len() <= inputs.len(),
    decreases inputs.len(),
{
    if inputs.len() > 0 {
        lemma_one_item_at_most(state, inputs.drop_last());
    }
}

/// The end of the stream, as the transport reports it, is no error: the
/// stream is over, and nothing is yielded for it or after it.
pub proof fn lemma_end_is_silent(state: StreamState, before: Seq<Input>, after: Seq<Input>)
    ensures
        run(state, before.push(Input::Ended) + after) == (StreamState::Terminated, run(state, before).1),
{
    assert(before.push(Input::Ended).drop_last() =~= before);
    lemma_run_in_two_parts(state, before.push(Input::Ended), after);
    lemma_nothing_after_the_end(after);
    assert(run(state, before).1 + Seq::<Item>::empty() =~= run(state, before).1);
}

/// A failure of the transport is never passed over in silence: a stream that
/// is not over, be it connecting or streaming, yields the error as its last
/// item and is over.
pub proof fn lemma_failure_is_reported(
    state: StreamState,
    before: Seq<Input>,
    issue: Seq<char>,
    after: Seq<Input>,
)
    requires
        !(run(state, before).0 is Terminated),
    ensures
        run(state, before.push(Input::Failed(issue)) + after) == (
            StreamState::Terminated,
            run(state, before).1.push(Err(CompletionStreamErrorView::SSE(issue))),
        ),
{
    let failed = Input::Failed(issue);
    assert(before.push(failed).drop_last() =~= before);
    lemma_run_in_two_parts(state, before.push(failed), after);
    lemma_nothing_after_the_end(after);
    assert(run(state, before.push(failed)).1 + Seq::<Item>::empty() =~= run(state, before.push(failed)).1);
}

/// A frame with `stop` set ends the stream: neither the frame itself nor
/// anything that follows it gives an item.
pub proof fn lemma_stop_ends_the_stream(
    state: StreamState,
    before: Seq<Input>,
    envelope: Envelope,
    after: Seq<Input>,
)
    requires
        envelope.stop == Some(true),
    ensures
        run(state, before.push(Input::Frame(Ok(envelope))) + after) == (
            StreamState::Terminated,
            run(state, before).1,
        ),
{
    let stop = Input::Frame(Ok(envelope));
    assert(before.push(stop).drop_last() =~= before);
    lemma_run_in_two_parts(state, before.push(stop), after);
    lemma_nothing_after_the_end(after);
    assert(run(state, before).1 + Seq::<Item>::empty() =~= run(state, before).1);
}

/// A frame whose data is no envelope costs one error item and no more: the
/// stream runs on, and what follows is taken as if the frame had been good.
pub proof fn lemma_bad_frame_does_not_end_the_stream(
    state: StreamState,
    before: Seq<Input>,
    issue: Seq<char>,
    after: Seq<Input>,
)
    requires
        !(run(state, before).0 is Terminated),
    ensures
        run(state, before.push(Input::Frame(Err(issue))) + after).0 == run(StreamState::Streaming, after).0,
        run(state, before.push(Input::Frame(Err(issue))) + after).1 == run(state, before).1.push(
            Err(CompletionStreamErrorView::Deserialization(issue)),
        ) + run(StreamState::Streaming, after).1,
{
    let bad = Input::Frame(Err(issue));
    assert(before.push(bad).drop_last() =~= before);
    lemma_run_in_two_parts(state, before.push(bad), after);
}

/// A streamed completion that has been started: its request is to be sent,
/// and each event of the transport handed to [`next`](CompletionStream::next)
/// until that returns `None`.
pub struct CompletionStream {
    request: Request,
    state: StreamState,
}

/// A [`CompletionStream`] as the contracts see it.
pub struct CompletionStreamView {
    pub request: RequestView,
    pub state: StreamState,
}

impl View for CompletionStream {
    type V = CompletionStreamView;

    closed spec fn view(&self) -> CompletionStreamView {
        CompletionStreamView { request: self.request@, state: self.state }
    }
}

impl CompletionStream {
    /// A stream whose request has not been answered yet.
    pub fn connecting(request: Request) -> (stream: Self)
        ensures
            stream@ == (CompletionStreamView { request: request@, state: StreamState::Connecting }),
    {
        CompletionStream { request, state: StreamState::Connecting }
    }

    /// The request that opens the stream.
    pub fn request(&self) -> (request: &Request)
        ensures
            request@ == self@.request,
    {
        &self.request
    }

    /// Where the stream stands.
    pub fn state(&self) -> (state: StreamState)
        ensures
            state == self@.state,
    {
        self.state
    }

    /// Whether the stream is over.
    pub fn is_terminated(&self) -> (over: bool)
        ensures
            over == (self@.state is Terminated),
    {
        match self.state {
            StreamState::Terminated => true,
            _ => false,
        }
    }

    /// Takes one message whose data was read already: the stream moves on as
    /// [`advance`] says for a frame.
    pub fn next_frame(&mut self, decoded: Result<CompletionResponse, String>) -> (yielded: Option<
        Result<String, CompletionStreamError>,
    >)
        ensures
            final(self)@.request == old(self)@.request,
            (final(self)@.state, yield_view(yielded)) == advance(
                old(self)@.state,
                Input::Frame(decoded_view(decoded)),
            ),
    {
        if self.is_terminated() {
            return None;
        }
        match decoded {
            Err(issue) => {
                self.state = StreamState::Streaming;
                Some(Err(CompletionStreamError::Deserialization(issue)))
            },
            Ok(response) => {
                let stop = match response.stop {
                    Some(flag) => flag,
                    None => false,
                };
                if stop {
                    self.state = StreamState::Terminated;
                    None
                } else {
                    self.state = StreamState::Streaming;
                    match response.content {
                        Some(text) => Some(Ok(text)),
                        None => Some(Ok(String::new())),
                    }
                }
            },
        }
    }

    /// Takes one event of the transport: the stream moves on as [`step`]
    /// says, and what that yields is returned, `None` for the end of the
    /// stream.
    pub fn next(&mut self, event: StreamEvent) -> (yielded: Option<Result<String, CompletionStreamError>>)
        ensures
            final(self)@.request == old(self)@.request,
            (final(self)@.state, yield_view(yielded)) == step(old(self)@.state, event@),
    {
        if self.is_terminated() {
            return None;
        }
        match event {
            StreamEvent::Open => {
                self.state = StreamState::Streaming;
                Some(Ok(String::new()))
            },
            StreamEvent::Message(data) => self.next_frame(CompletionResponse::parse(data.as_str())),
            StreamEvent::Ended => {
                self.state = StreamState::Terminated;
                None
            },
            StreamEvent::Failed(issue) => {
                self.state = StreamState::Terminated;
                Some(Err(CompletionStreamError::SSE(issue)))
            },
        }
    }

    /// Takes a run of events, one after the other, and returns the items
    /// that they yield, in their order. Events that come after the end of the
    /// stream are passed over.
    pub fn feed(&mut self, events: Vec<StreamEvent>) -> (items: Vec<Result<String, CompletionStreamError>>)
        ensures
            final(self)@.request == old(self)@.request,
            (final(self)@.state, items_view(items@)) == run(old(self)@.state, read_all(events@)),
    {
        let mut items: Vec<Result<String, CompletionStreamError>> = Vec::new();
        let ghost start = self@.state;
        assert(items_view(items@) =~= Seq::<Item>::empty());
        assert(read_all(events@.take(0)) =~= Seq::<Input>::empty());
        for event in it: events
            invariant
                self@.request == old(self)@.request,
                start == old(self)@.state,
                it.seq() == events@,
                (self@.state, items_view(items@)) == run(start, read_all(events@.take(it.index() as int))),
        {
            let ghost taken = it.index() as int;
            let ghost before = items_view(items@);
            proof {
                assert(read_all(events@.take(taken + 1)).drop_last() =~= read_all(events@.take(taken)));
                assert(read_all(events@.take(taken + 1)).last() == read(event@));
            }
            match self.next(event) {
                Some(item) => {
                    items.push(item);
                    assert(items_view(items@) =~= before.push(yield_view(Some(item))->0));
                },
                None => {},
            }
        }
        assert(events@.take(events@.len() as int) =~= events@);
        items
    }

    /// Ends the stream, whatever its state: nothing more comes of it.
    pub fn close(&mut self)
        ensures
            final(self)@.request == old(self)@.request,
            final(self)@.state == StreamState::Terminated,
    {
        self.state = StreamState::Terminated;
    }
}

} // verus!
