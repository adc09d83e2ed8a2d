//! The streaming aggregator: it folds what a backend's stream produces into a
//! growing transcript and publishes every step of it.
//!
//! The aggregator is a state machine. It starts idle, streams from the first
//! chunk on, and ends completed when the stream runs out or failed when an
//! item of the stream cannot be read. Both ends are final: whatever comes
//! after is left aside. A failure keeps the transcript gathered so far.

use vstd::prelude::*;
use vstd::string::*;
use tokio::sync::mpsc::UnboundedSender;
use crate::types::{LLMClientCompletionResponse, ResponseView};

verus! {

/// One chunk of a backend's stream: for each choice it offers, the text that
/// the chunk adds to that choice, if it adds any.
#[derive(Debug)]
pub struct StreamChunk {
    pub choices: Vec<Option<String>>,
}

/// What a chunk holds, as plain values.
pub struct ChunkView {
    pub choices: Seq<Option<Seq<char>>>,
}

impl View for StreamChunk {
    type V = ChunkView;

    open spec fn view(&self) -> ChunkView {
        ChunkView {
            choices: Seq::new(
                self.choices@.len(),
                |i: int|
                    match self.choices@[i] {
                        Some(text) => Some(text@),
                        None => None,
                    },
            ),
        }
    }
}

/// What a stream hands over when it is asked for its next item.
#[derive(Debug)]
pub enum StreamEvent {
    /// A chunk that was read.
    Chunk(StreamChunk),
    /// An item that could not be read or decoded, with the reason.
    Fault(String),
    /// The stream has run out.
    End,
}

/// What an event holds, as plain values.
pub enum EventView {
    Chunk(ChunkView),
    Fault(Seq<char>),
    End,
}

impl View for StreamEvent {
    type V = EventView;

    open spec fn view(&self) -> EventView {
        match *self {
            StreamEvent::Chunk(chunk) => EventView::Chunk(chunk@),
            StreamEvent::Fault(reason) => EventView::Fault(reason@),
            StreamEvent::End => EventView::End,
        }
    }
}

/// The views of a sequence of events.
pub open spec fn event_views(events: Seq<StreamEvent>) -> Seq<EventView> {
    Seq::new(events.len(), |i: int| events[i]@)
}

/// What a backend did with one request.
#[derive(Debug)]
pub enum BackendReply {
    /// It opened no stream, for the reason given.
    Refused(String),
    /// It opened a stream, which handed over these events in this order and
    /// then ran out.
    Opened(Vec<StreamEvent>),
}

/// What a backend's reply holds, as plain values.
pub enum ReplyView {
    Refused(Seq<char>),
    Opened(Seq<EventView>),
}

impl View for BackendReply {
    type V = ReplyView;

    open spec fn view(&self) -> ReplyView {
        match *self {
            BackendReply::Refused(reason) => ReplyView::Refused(reason@),
            BackendReply::Opened(events) => ReplyView::Opened(event_views(events@)),
        }
    }
}

/// Where an aggregator stands.
#[derive(Clone, Copy, Debug, PartialEq, Eq, Structural, Hash)]
pub enum StreamState {
    Idle,
    Streaming,
    Completed,
    Failed,
}

/// What an aggregator holds, as plain values.
pub struct AggregatorView {
    pub state: StreamState,
    pub transcript: Seq<char>,
    pub model: Seq<char>,
    pub fault: Option<Seq<char>>,
}

/// An aggregator that has seen nothing yet.
pub open spec fn fresh(model: Seq<char>) -> AggregatorView {
    AggregatorView { state: StreamState::Idle, transcript: Seq::empty(), model, fault: None }
}

/// Whether a state is final.
pub open spec fn is_final(state: StreamState) -> bool {
    state == StreamState::Completed || state == StreamState::Failed
}

/// The text that a chunk adds: what its first choice adds, and nothing where
/// there is no first choice or that choice adds nothing.
pub open spec fn chunk_delta(chunk: ChunkView) -> Seq<char> {
    if chunk.choices.len() > 0 && chunk.choices[0] is Some {
        chunk.choices[0]->Some_0
    } else {
        Seq::empty()
    }
}

/// The aggregator after `event`.
pub open spec fn advance(before: AggregatorView, event: EventView) -> AggregatorView {
    if is_final(before.state) {
        before
    } else {
        match event {
            EventView::Chunk(chunk) => AggregatorView {
                state: StreamState::Streaming,
                transcript: before.transcript + chunk_delta(chunk),
                ..before
            },
            EventView::Fault(reason) => AggregatorView {
                state: StreamState::Failed,
                fault: Some(reason),
                ..before
            },
            EventView::End => AggregatorView { state: StreamState::Completed, ..before },
        }
    }
}

/// The response that `event` makes the aggregator publish, if any: one for
/// every chunk that reaches an aggregator that has not ended.
pub open spec fn published(before: AggregatorView, event: EventView) -> Option<ResponseView> {
    if is_final(before.state) {
        None
    } else {
        match event {
            EventView::Chunk(chunk) => Some(
                ResponseView {
                    answer_up_until_now: before.transcript + chunk_delta(chunk),
                    delta: Some(chunk_delta(chunk)),
                    model: before.model,
                },
            ),
            _ => None,
        }
    }
}

/// The aggregator after a run of events, taken in order.
pub open spec fn advance_all(before: AggregatorView, events: Seq<EventView>) -> AggregatorView
    decreases events.len(),
{
    if events.len() == 0 {
        before
    } else {
        advance_all(advance(before, events[0]), events.drop_first())
    }
}

/// The responses that a run of events makes the aggregator publish, in the
/// order in which it publishes them.
pub open spec fn published_all(before: AggregatorView, events: Seq<EventView>) -> Seq<
    ResponseView,
>
    decreases events.len(),
{
    if events.len() == 0 {
        Seq::empty()
    } else {
        let rest = published_all(advance(before, events[0]), events.drop_first());
        match published(before, events[0]) {
            Some(response) => seq![response] + rest,
            None => rest,
        }
    }
}

/// The view of an optional response.
pub open spec fn optional_response(response: Option<LLMClientCompletionResponse>) -> Option<
    ResponseView,
> {
    match response {
        Some(response) => Some(response@),
        None => None,
    }
}

/// The views of a sequence of responses.
pub open spec fn response_views(responses: Seq<LLMClientCompletionResponse>) -> Seq<
    ResponseView,
> {
    Seq::new(responses.len(), |i: int| responses[i]@)
}

/// The text of the chunks that lead a run of events, up to the first event
/// that is no chunk.
pub open spec fn leading_text(events: Seq<EventView>) -> Seq<char>
    decreases events.len(),
{
    if events.len() == 0 {
        Seq::empty()
    } else {
        match events[0] {
            EventView::Chunk(chunk) => chunk_delta(chunk) + leading_text(events.drop_first()),
            _ => Seq::empty(),
        }
    }
}

/// An event never takes text away: the transcript before it is a prefix of
/// the transcript after it, and the model that answers stays the same.
pub proof fn lemma_transcript_only_grows(before: AggregatorView, event: EventView)
    ensures
        before.transcript.is_prefix_of(advance(before, event).transcript),
        before.transcript.len() <= advance(before, event).transcript.len(),
        advance(before, event).model == before.model,
{
    let after = advance(before, event);
    assert(after.transcript.subrange(0, before.transcript.len() as int) =~= before.transcript);
}

/// What an event publishes is the transcript after it, and its delta is the
/// text by which that transcript is longer than the one before.
pub proof fn lemma_published_delta_is_suffix(before: AggregatorView, event: EventView)
    requires
        published(before, event) is Some,
    ensures
        published(before, event)->Some_0.delta is Some,
        published(before, event)->Some_0.answer_up_until_now == before.transcript + published(
            before,
            event,
        )->Some_0.delta->Some_0,
        published(before, event)->Some_0.answer_up_until_now == advance(before, event).transcript,
        published(before, event)->Some_0.model == before.model,
{
}

/// Once an aggregator has ended, no run of events moves it or makes it
/// publish.
pub proof fn lemma_final_state_absorbs(before: AggregatorView, events: Seq<EventView>)
    requires
        is_final(before.state),
    ensures
        advance_all(before, events) == before,
        published_all(before, events) == Seq::<ResponseView>::empty(),
    decreases events.len(),
{
    if events.len() > 0 {
        lemma_final_state_absorbs(before, events.drop_first());
    }
}

/// A fault ends the stream and keeps the transcript: whatever follows it,
/// the transcript is the one that the fault found.
pub proof fn lemma_fault_keeps_transcript(
    before: AggregatorView,
    reason: Seq<char>,
    later: Seq<EventView>,
)
    requires
        !is_final(before.state),
    ensures
        advance_all(before, seq![EventView::Fault(reason)] + later).transcript
            == before.transcript,
        advance_all(before, seq![EventView::Fault(reason)] + later).state == StreamState::Failed,
        published_all(before, seq![EventView::Fault(reason)] + later) == Seq::<
            ResponseView,
        >::empty(),
{
    let events = seq![EventView::Fault(reason)] + later;
    assert(events.drop_first() == later);
    lemma_final_state_absorbs(advance(before, events[0]), later);
}

/// The transcript after a run of events is the transcript before it followed
/// by the text of the chunks that lead the run.
pub proof fn lemma_transcript_is_leading_text(before: AggregatorView, events: Seq<EventView>)
    requires
        !is_final(before.state),
    ensures
        advance_all(before, events).transcript == before.transcript + leading_text(events),
    decreases events.len(),
{
    if events.len() == 0 {
        assert(before.transcript + Seq::<char>::empty() == before.transcript);
    } else {
        let next = advance(before, events[0]);
        match events[0] {
            EventView::Chunk(chunk) => {
                lemma_transcript_is_leading_text(next, events.drop_first());
                assert(before.transcript + chunk_delta(chunk) + leading_text(events.drop_first())
                    == before.transcript + (chunk_delta(chunk) + leading_text(
                    events.drop_first(),
                )));
            },
            _ => {
                lemma_final_state_absorbs(next, events.drop_first());
                assert(before.transcript + Seq::<char>::empty() == before.transcript);
            },
        }
    }
}

/// Successive responses grow one from the other: each carries a delta, and
/// its transcript is the one before it (for the first response, the
/// transcript that the run started with) followed by that delta.
pub proof fn lemma_successive_responses(before: AggregatorView, events: Seq<EventView>, k: int)
    requires
        0 <= k < published_all(before, events).len(),
    ensures
        published_all(before, events)[k].delta is Some,
        published_all(before, events)[k].model == before.model,
        published_all(before, events)[k].answer_up_until_now == (if k == 0 {
            before.transcript
        } else {
            published_all(before, events)[k - 1].answer_up_until_now
        }) + published_all(before, events)[k].delta->Some_0,
    decreases events.len(),
{
    if events.len() > 0 {
        let next = advance(before, events[0]);
        let rest = published_all(next, events.drop_first());
        match published(before, events[0]) {
            Some(response) => {
                if k > 0 {
                    lemma_successive_responses(next, events.drop_first(), k - 1);
                }
            },
            None => {
                lemma_successive_responses(next, events.drop_first(), k);
            },
        }
    }
}

/// Where a run publishes anything, the last response carries the transcript
/// that the run ends with.
pub proof fn lemma_last_response_is_transcript(before: AggregatorView, events: Seq<EventView>)
    requires
        published_all(before, events).len() > 0,
    ensures
        published_all(before, events).last().answer_up_until_now == advance_all(
            before,
            events,
        ).transcript,
    decreases events.len(),
{
    if events.len() > 0 {
        let next = advance(before, events[0]);
        let rest = published_all(next, events.drop_first());
        if rest.len() > 0 {
            lemma_last_response_is_transcript(next, events.drop_first());
        } else {
            lemma_nothing_published_nothing_added(next, events.drop_first());
        }
    }
}

/// A run that publishes nothing leaves the transcript as it was.
pub proof fn lemma_nothing_published_nothing_added(before: AggregatorView, events: Seq<EventView>)
    requires
        published_all(before, events).len() == 0,
    ensures
        advance_all(before, events).transcript == before.transcript,
    decreases events.len(),
{
    if events.len() > 0 {
        let next = advance(before, events[0]);
        let rest = published_all(next, events.drop_first());
        match published(before, events[0]) {
            Some(response) => {
                assert((seq![response] + rest).len() > 0);
            },
            None => {
                lemma_nothing_published_nothing_added(next, events.drop_first());
            },
        }
    }
}

/// The sending half of tokio's unbounded channel, `UnboundedSender`. It is
/// carried through as it is: nothing is known or claimed of what it holds.
#[verifier::external_type_specification]
#[verifier::external_body]
#[verifier::reject_recursive_types(T)]
pub struct ExUnboundedSender<T>(UnboundedSender<T>);

/// Hands `response` to `UnboundedSender::send` of tokio and drops what comes
/// back. The call never waits. Whether the response arrives depends on the
/// receiving half, which may be gone, so nothing is claimed of the outcome.
#[verifier::external_body]
fn publish(sender: &UnboundedSender<LLMClientCompletionResponse>, response: LLMClientCompletionResponse) {
    let _ = sender.send(response);
}

/// The text that a chunk adds.
fn delta_of(chunk: &StreamChunk) -> (delta: String)
    ensures
        delta@ == chunk_delta(chunk@),
{
    if chunk.choices.len() > 0 {
        match &chunk.choices[0] {
            Some(text) => text.clone(),
            None => String::new(),
        }
    } else {
        String::new()
    }
}

/// The running state of one streamed completion.
#[derive(Debug)]
pub struct StreamAggregator {
    state: StreamState,
    transcript: String,
    model: String,
    fault: Option<String>,
}

impl View for StreamAggregator {
    type V = AggregatorView;

    closed spec fn view(&self) -> AggregatorView {
        AggregatorView {
            state: self.state,
            transcript: self.transcript@,
            model: self.model@,
            fault: match self.fault {
                Some(reason) => Some(reason@),
                None => None,
            },
        }
    }
}

impl StreamAggregator {
    /// An idle aggregator for a completion that `model` answers.
    pub fn new(model: String) -> (aggregator: Self)
        ensures
            aggregator@ == fresh(model@),
    {
        Self { state: StreamState::Idle, transcript: String::new(), model, fault: None }
    }

    pub fn state(&self) -> (state: StreamState)
        ensures
            state == self@.state,
    {
        self.state
    }

    /// Whether the aggregator has ended, so that no event moves it any more.
    pub fn is_terminal(&self) -> (ended: bool)
        ensures
            ended == is_final(self@.state),
    {
        match self.state {
            StreamState::Completed => true,
            StreamState::Failed => true,
            _ => false,
        }
    }

    /// The transcript gathered so far.
    pub fn transcript(&self) -> (transcript: &str)
        ensures
            transcript@ == self@.transcript,
    {
        self.transcript.as_str()
    }

    /// The backend model that answers.
    pub fn model(&self) -> (model: &str)
        ensures
            model@ == self@.model,
    {
        self.model.as_str()
    }

    /// The reason of the fault that ended the stream, if one did.
    pub fn fault(&self) -> (reason: Option<&str>)
        ensures
            match reason {
                Some(reason) => self@.fault == Some(reason@),
                None => self@.fault is None,
            },
    {
        match &self.fault {
            Some(reason) => Some(reason.as_str()),
            None => None,
        }
    }

    /// Takes one event: moves to the next state and says what to publish.
    pub fn step(&mut self, event: &StreamEvent) -> (response: Option<LLMClientCompletionResponse>)
        ensures
            final(self)@ == advance(old(self)@, event@),
            optional_response(response) == published(old(self)@, event@),
    {
        if self.is_terminal() {
            return None;
        }
        match event {
            StreamEvent::Chunk(chunk) => {
                let delta = delta_of(chunk);
                self.transcript.append(delta.as_str());
                self.state = StreamState::Streaming;
                Some(
                    LLMClientCompletionResponse::new(
                        self.transcript.clone(),
                        Some(delta),
                        self.model.clone(),
                    ),
                )
            },
            StreamEvent::Fault(reason) => {
                self.fault = Some(reason.clone());
                self.state = StreamState::Failed;
                None
            },
            StreamEvent::End => {
                self.state = StreamState::Completed;
                None
            },
        }
    }

    /// Takes one event and sends what it publishes to `sender`. Whether
    /// anybody receives it makes no difference to the aggregator.
    pub fn forward(&mut self, event: &StreamEvent, sender: &UnboundedSender<LLMClientCompletionResponse>)
        ensures
            final(self)@ == advance(old(self)@, event@),
    {
        match self.step(event) {
            Some(response) => publish(sender, response),
            None => {},
        }
    }

    /// Takes a run of events in order, sending to `sender` what each
    /// publishes.
    pub fn drain(&mut self, events: &[StreamEvent], sender: &UnboundedSender<LLMClientCompletionResponse>)
        ensures
            final(self)@ == advance_all(old(self)@, event_views(events@)),
    {
        let ghost all = event_views(events@);
        assert(all.skip(0) == all);
        let mut i: usize = 0;
        while i < events.len()
            invariant
                i <= events.len(),
                all == event_views(events@),
                advance_all(old(self)@, all) == advance_all(self@, all.skip(i as int)),
            decreases events.len() - i,
        {
            assert(all.skip(i as int)[0] == events@[i as int]@);
            assert(all.skip(i as int).drop_first() == all.skip(i + 1));
            self.forward(&events[i], sender);
            i += 1;
        }
        assert(all.skip(events.len() as int).len() == 0);
    }

    /// Takes a run of events in order and returns what they publish, in the
    /// order in which it is to be published.
    pub fn collect(&mut self, events: &[StreamEvent]) -> (responses: Vec<
        LLMClientCompletionResponse,
    >)
        ensures
            final(self)@ == advance_all(old(self)@, event_views(events@)),
            response_views(responses@) == published_all(old(self)@, event_views(events@)),
    {
        let ghost all = event_views(events@);
        let mut responses: Vec<LLMClientCompletionResponse> = Vec::new();
        assert(all.skip(0) == all);
        assert(response_views(responses@) + published_all(self@, all) == published_all(self@, all));
        let mut i: usize = 0;
        while i < events.len()
            invariant
                i <= events.len(),
                all == event_views(events@),
                advance_all(old(self)@, all) == advance_all(self@, all.skip(i as int)),
                published_all(old(self)@, all) == response_views(responses@) + published_all(
                    self@,
                    all.skip(i as int),
                ),
            decreases events.len() - i,
        {
            assert(all.skip(i as int)[0] == events@[i as int]@);
            assert(all.skip(i as int).drop_first() == all.skip(i + 1));
            let ghost before = response_views(responses@);
            match self.step(&events[i]) {
                Some(response) => {
                    responses.push(response);
                    assert(response_views(responses@) == before + seq![response@]);
                },
                None => {},
            }
            i += 1;
        }
        assert(all.skip(events.len() as int).len() == 0);
        responses
    }

    /// Ends the aggregation and hands out the transcript, whole or partial.
    pub fn finish(self) -> (transcript: String)
        ensures
            transcript@ == self@.transcript,
    {
        self.transcript
    }
}

} // verus!
