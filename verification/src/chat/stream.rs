//! The stream of a chat completion: what each thing that happens on the wire
//! makes of the answer so far, and which events it gives rise to.

use crate::chat::completion::assistant_message;
use crate::chat::completion::completion_events;
use crate::chat::completion::emit_chat_completion_items;
use crate::chat::events::choice_views;
use crate::chat::events::event_views;
use crate::chat::events::reasoning_views;
use crate::chat::events::token_usage;
use crate::chat::events::ApiError;
use crate::chat::events::ChatChoice;
use crate::chat::events::ChatChunk;
use crate::chat::events::Choice;
use crate::chat::events::Chunk;
use crate::chat::events::ContentItem;
use crate::chat::events::Event;
use crate::chat::events::ReasoningDetail;
use crate::chat::events::ResponseEvent;
use crate::chat::events::ResponseItem;
use crate::chat::events::TokenUsage;
use crate::chat::tool_calls::addressable;
use crate::chat::tool_calls::are_addressable;
use crate::chat::tool_calls::call_views;
use crate::chat::tool_calls::merge_tool_call_deltas;
use crate::chat::tool_calls::merged;
use crate::chat::tool_calls::AggregatedToolCall;
use crate::chat::tool_calls::ToolCall;
use crate::text::copy_opt;
use crate::text::opt_text;
use crate::text::same_text;
use crate::text::trim_text;
use crate::text::trimmed;
use vstd::prelude::*;

verus! {

/// The answer as far as it has been streamed.
#[derive(Debug)]
pub struct ChatStream {
    pub created_emitted: bool,
    pub response_id: Option<String>,
    pub usage: Option<TokenUsage>,
    pub assistant_text: String,
    pub tool_calls: Vec<AggregatedToolCall>,
    pub last_server_model: Option<String>,
    pub reasoning_part_emitted: bool,
    pub active_item_emitted: bool,
}

/// What a stream holds.
pub ghost struct Stream {
    pub created: bool,
    pub response_id: Option<Seq<char>>,
    pub usage: Option<TokenUsage>,
    pub text: Seq<char>,
    pub calls: Seq<ToolCall>,
    pub model: Option<Seq<char>>,
    pub reasoning: bool,
    pub active: bool,
}

impl View for ChatStream {
    type V = Stream;

    open spec fn view(&self) -> Stream {
        Stream {
            created: self.created_emitted,
            response_id: opt_text(self.response_id),
            usage: self.usage,
            text: self.assistant_text@,
            calls: call_views(self.tool_calls@),
            model: opt_text(self.last_server_model),
            reasoning: self.reasoning_part_emitted,
            active: self.active_item_emitted,
        }
    }
}

/// The stream before anything has arrived.
pub open spec fn fresh_stream() -> Stream {
    Stream {
        created: false,
        response_id: None,
        usage: None,
        text: Seq::empty(),
        calls: Seq::empty(),
        model: None,
        reasoning: false,
        active: false,
    }
}

/// Something that happens on the wire.
#[derive(Debug)]
pub enum SseInput {
    /// A server-sent event with this data.
    Event { data: String },
    /// The stream broke; `message` is the error in words.
    Broken { message: String },
    /// The server closed the stream.
    Closed,
    /// Nothing arrived for as long as the stream may be idle.
    IdleTimeout,
    /// The data handed out for decoding: its chunk, or nothing where it is
    /// not a chunk.
    Decoded { chunk: Option<ChatChunk> },
}

/// What is to be done next.
#[derive(Debug)]
pub enum SseAction {
    /// Decode `data` and hand the result back.
    Decode { data: String },
    /// Send `events` and go on listening.
    Continue { events: Vec<ResponseEvent> },
    /// Send `events` and stop.
    Finish { events: Vec<ResponseEvent> },
    /// Send `error` and stop.
    Fail { error: ApiError },
}

/// What an input holds.
pub ghost enum Input {
    Event(Seq<char>),
    Broken(Seq<char>),
    Closed,
    IdleTimeout,
    Decoded(Option<Chunk>),
}

/// What an action holds.
pub ghost enum Action {
    Decode(Seq<char>),
    Continue(Seq<Event>),
    Finish(Seq<Event>),
    Fail(Seq<char>),
}

impl View for SseInput {
    type V = Input;

    open spec fn view(&self) -> Input {
        match self {
            SseInput::Event { data } => Input::Event(data@),
            SseInput::Broken { message } => Input::Broken(message@),
            SseInput::Closed => Input::Closed,
            SseInput::IdleTimeout => Input::IdleTimeout,
            SseInput::Decoded { chunk } => Input::Decoded(
                match chunk {
                    Some(c) => Some(c@),
                    None => None,
                },
            ),
        }
    }
}

impl View for SseAction {
    type V = Action;

    open spec fn view(&self) -> Action {
        match self {
            SseAction::Decode { data } => Action::Decode(data@),
            SseAction::Continue { events } => Action::Continue(event_views(events@)),
            SseAction::Finish { events } => Action::Finish(event_views(events@)),
            SseAction::Fail { error } => match error {
                ApiError::Stream(message) => Action::Fail(message@),
            },
        }
    }
}

/// The texts that a list of reasoning pieces carries.
pub open spec fn reasoning_texts(details: Seq<Option<Seq<char>>>) -> Seq<Seq<char>>
    decreases details.len(),
{
    if details.len() == 0 {
        Seq::empty()
    } else {
        match details.last() {
            Some(text) => reasoning_texts(details.drop_last()).push(text),
            None => reasoning_texts(details.drop_last()),
        }
    }
}

/// The events for reasoning texts: the summary part is opened before the
/// first of them, once in a stream.
pub open spec fn reasoning_events(opened: bool, texts: Seq<Seq<char>>) -> Seq<Event> {
    let opening = if !opened && texts.len() > 0 {
        seq![Event::ReasoningSummaryPartAdded(0)]
    } else {
        Seq::empty()
    };
    opening + texts.map_values(|t: Seq<char>| Event::ReasoningSummaryDelta(t, 0))
}

/// The reasoning texts of a choice.
pub open spec fn choice_reasoning(choice: Choice) -> Seq<Seq<char>> {
    match choice.reasoning {
        Some(details) => reasoning_texts(details),
        None => Seq::empty(),
    }
}

/// The content of a choice.
pub open spec fn choice_text(choice: Choice) -> Seq<char> {
    match choice.content {
        Some(text) => text,
        None => Seq::empty(),
    }
}

/// A choice that streams content or reasoning belongs to an item that must
/// have been announced.
pub open spec fn needs_item(choice: Choice) -> bool {
    choice.reasoning is Some || choice.content is Some
}

/// The stream once `choice` has been taken in.
pub open spec fn after_choice(s: Stream, choice: Choice) -> Stream {
    Stream {
        active: s.active || needs_item(choice),
        reasoning: s.reasoning || choice_reasoning(choice).len() > 0,
        text: s.text + choice_text(choice),
        calls: match choice.tool_calls {
            Some(deltas) => merged(s.calls, deltas),
            None => s.calls,
        },
        ..s
    }
}

/// The announcement of the item that a choice streams into.
pub open spec fn item_events(s: Stream, choice: Choice) -> Seq<Event> {
    if needs_item(choice) && !s.active {
        seq![Event::OutputItemAdded(assistant_message(Seq::empty()))]
    } else {
        Seq::empty()
    }
}

/// The event for the content of a choice.
pub open spec fn content_events(choice: Choice) -> Seq<Event> {
    match choice.content {
        Some(text) => seq![Event::OutputTextDelta(text)],
        None => Seq::empty(),
    }
}

/// The events that `choice` gives rise to.
pub open spec fn choice_events(s: Stream, choice: Choice) -> Seq<Event> {
    item_events(s, choice) + reasoning_events(s.reasoning, choice_reasoning(choice))
        + content_events(choice)
}

/// The stream once `choices` have been taken in.
pub open spec fn after_choices(s: Stream, choices: Seq<Choice>) -> Stream
    decreases choices.len(),
{
    if choices.len() == 0 {
        s
    } else {
        after_choice(after_choices(s, choices.drop_last()), choices.last())
    }
}

/// The events that `choices` give rise to.
pub open spec fn choices_events(s: Stream, choices: Seq<Choice>) -> Seq<Event>
    decreases choices.len(),
{
    if choices.len() == 0 {
        Seq::empty()
    } else {
        choices_events(s, choices.drop_last()) + choice_events(
            after_choices(s, choices.drop_last()),
            choices.last(),
        )
    }
}

/// The stream once the head of `chunk`, all but its choices, has been taken
/// in: the first id stays, the last usage and model count.
pub open spec fn after_head(s: Stream, chunk: Chunk) -> Stream {
    Stream {
        created: true,
        response_id: if s.response_id is Some {
            s.response_id
        } else {
            chunk.id
        },
        usage: match chunk.usage {
            Some(usage) => Some(token_usage(usage)),
            None => s.usage,
        },
        model: if chunk.model is Some {
            chunk.model
        } else {
            s.model
        },
        ..s
    }
}

/// The events of the head of `chunk`: the response is announced once, a model
/// whenever it is not the one named last.
pub open spec fn head_events(s: Stream, chunk: Chunk) -> Seq<Event> {
    let created = if s.created {
        Seq::empty()
    } else {
        seq![Event::Created]
    };
    let model = match chunk.model {
        Some(model) => if s.model == Some(model) {
            Seq::empty()
        } else {
            seq![Event::ServerModel(model)]
        },
        None => Seq::empty(),
    };
    created + model
}

/// The stream once `chunk` has been taken in.
pub open spec fn after_chunk(s: Stream, chunk: Chunk) -> Stream {
    after_choices(after_head(s, chunk), chunk.choices)
}

/// The events that `chunk` gives rise to.
pub open spec fn chunk_events(s: Stream, chunk: Chunk) -> Seq<Event> {
    head_events(s, chunk) + choices_events(after_head(s, chunk), chunk.choices)
}

/// The events that close the stream.
pub open spec fn closing_events(s: Stream) -> Seq<Event> {
    completion_events(
        s.text,
        s.calls,
        match s.response_id {
            Some(id) => id,
            None => Seq::empty(),
        },
        s.usage,
    )
}

/// The stream once `input` has been handled. Only a chunk changes it.
pub open spec fn after_input(s: Stream, input: Input) -> Stream {
    match input {
        Input::Decoded(Some(chunk)) => after_chunk(s, chunk),
        _ => s,
    }
}

/// What `input` asks for. A stream ends well when the server says so and when
/// it closes the connection; data that is not a chunk is passed over.
pub open spec fn action_on(s: Stream, input: Input) -> Action {
    match input {
        Input::Event(data) => if trimmed(data) == "[DONE]"@ {
            Action::Finish(closing_events(s))
        } else {
            Action::Decode(data)
        },
        Input::Closed => Action::Finish(closing_events(s)),
        Input::Broken(message) => Action::Fail(message),
        Input::IdleTimeout => Action::Fail("idle timeout waiting for SSE"@),
        Input::Decoded(Some(chunk)) => Action::Continue(chunk_events(s, chunk)),
        Input::Decoded(None) => Action::Continue(Seq::empty()),
    }
}

/// Every tool call fragment of `chunk` is addressed to a position that a list
/// can have.
pub open spec fn chunk_addressable(chunk: Chunk) -> bool {
    forall|i: int|
        0 <= i < chunk.choices.len() ==> choice_addressable(#[trigger] chunk.choices[i])
}

/// Every tool call fragment of `choice` is addressed to a position that a
/// list can have.
pub open spec fn choice_addressable(choice: Choice) -> bool {
    choice.tool_calls matches Some(deltas) ==> addressable(deltas)
}

/// Whether every tool call fragment of `chunk` is addressed to a position that
/// a list can have.
pub fn chunk_is_addressable(chunk: &ChatChunk) -> (r: bool)
    ensures
        r == chunk_addressable(chunk@),
{
    let choices = &chunk.choices;
    let mut i: usize = 0;
    while i < choices.len()
        invariant
            i <= choices@.len(),
            chunk@.choices == choice_views(choices@),
            forall|k: int| 0 <= k < i ==> choice_addressable(#[trigger] chunk@.choices[k]),
        decreases choices@.len() - i,
    {
        assert(chunk@.choices[i as int] == choices@[i as int]@);
        if let Some(deltas) = &choices[i].delta.tool_calls {
            if !are_addressable(deltas) {
                return false;
            }
        }
        i = i + 1;
    }
    true
}

/// The events that open a stream: the model that the response headers name.
pub fn opening_events(server_model: Option<String>) -> (r: Vec<ResponseEvent>)
    ensures
        event_views(r@) == (match opt_text(server_model) {
            Some(model) => seq![Event::ServerModel(model)],
            None => Seq::empty(),
        }),
{
    let mut events: Vec<ResponseEvent> = Vec::new();
    if let Some(model) = server_model {
        events.push(ResponseEvent::ServerModel(model));
    }
    assert(event_views(events@) == (match opt_text(server_model) {
        Some(model) => seq![Event::ServerModel(model)],
        None => Seq::empty(),
    }));
    events
}

proof fn lemma_event_views_push(events: Seq<ResponseEvent>, event: ResponseEvent)
    ensures
        event_views(events.push(event)) == event_views(events).push(event@),
{
    assert(event_views(events.push(event)) == event_views(events).push(event@));
}

/// Sends the events for reasoning pieces.
fn take_reasoning(opened: bool, details: Vec<ReasoningDetail>, events: &mut Vec<ResponseEvent>) -> (r:
    bool)
    ensures
        event_views(final(events)@) == event_views(old(events)@) + reasoning_events(
            opened,
            reasoning_texts(reasoning_views(details@)),
        ),
        r == (opened || reasoning_texts(reasoning_views(details@)).len() > 0),
{
    let ghost start = event_views(events@);
    let ghost all = reasoning_views(details@);
    let mut open: bool = opened;
    assert(start + reasoning_events(opened, Seq::empty()) == start);
    for detail in it: details
        invariant
            it.seq() == details@,
            all == reasoning_views(details@),
            event_views(events@) == start + reasoning_events(
                opened,
                reasoning_texts(all.take(it.index() as int)),
            ),
            open == (opened || reasoning_texts(all.take(it.index() as int)).len() > 0),
    {
        let ghost k = it.index() as int;
        let ghost had = reasoning_texts(all.take(k));
        proof {
            assert(all.take(k + 1).drop_last() == all.take(k));
            assert(all.take(k + 1).last() == opt_text(detail.text));
        }
        if let Some(text) = detail.text {
            let ghost now = had.push(text@);
            if !open {
                let part = ResponseEvent::ReasoningSummaryPartAdded { summary_index: 0 };
                proof {
                    lemma_event_views_push(events@, part);
                }
                events.push(part);
                open = true;
            }
            let delta = ResponseEvent::ReasoningSummaryDelta { delta: text, summary_index: 0 };
            proof {
                lemma_event_views_push(events@, delta);
            }
            events.push(delta);
            assert(event_views(events@) == start + reasoning_events(opened, now));
        }
    }
    assert(all.take(all.len() as int) == all);
    open
}

impl ChatStream {
    /// The stream before anything has arrived.
    pub fn new() -> (r: ChatStream)
        ensures
            r@ == fresh_stream(),
    {
        let r = ChatStream {
            created_emitted: false,
            response_id: None,
            usage: None,
            assistant_text: String::new(),
            tool_calls: Vec::new(),
            last_server_model: None,
            reasoning_part_emitted: false,
            active_item_emitted: false,
        };
        assert(call_views(r.tool_calls@) == Seq::<ToolCall>::empty());
        r
    }

    /// Takes in one choice and tells what it gives rise to.
    fn take_choice(&mut self, choice: ChatChoice, events: &mut Vec<ResponseEvent>)
        requires
            choice_addressable(choice@),
        ensures
            final(self)@ == after_choice(old(self)@, choice@),
            event_views(final(events)@) == event_views(old(events)@) + choice_events(
                old(self)@,
                choice@,
            ),
    {
        let ghost s = self@;
        let ghost start = event_views(events@);
        let needs_active = choice.delta.reasoning_details.is_some()
            || choice.delta.content.is_some();
        if needs_active && !self.active_item_emitted {
            let content: Vec<ContentItem> = Vec::new();
            let placeholder = ResponseItem::Message {
                id: None,
                role: "assistant".to_owned(),
                content,
                end_turn: None,
                phase: None,
            };
            assert(content@.map_values(|c: ContentItem| c@) == Seq::<
                crate::chat::events::Content,
            >::empty());
            let added = ResponseEvent::OutputItemAdded(placeholder);
            proof {
                lemma_event_views_push(events@, added);
            }
            events.push(added);
            self.active_item_emitted = true;
        }
        assert(event_views(events@) == start + item_events(s, choice@));
        let ghost announced = event_views(events@);
        if let Some(details) = choice.delta.reasoning_details {
            self.reasoning_part_emitted = take_reasoning(
                self.reasoning_part_emitted,
                details,
                events,
            );
        }
        assert(event_views(events@) == announced + reasoning_events(
            s.reasoning,
            choice_reasoning(choice@),
        ));
        let ghost reasoned = event_views(events@);
        if let Some(content) = choice.delta.content {
            self.assistant_text.append(content.as_str());
            let delta = ResponseEvent::OutputTextDelta(content);
            proof {
                lemma_event_views_push(events@, delta);
            }
            events.push(delta);
        }
        assert(event_views(events@) == reasoned + content_events(choice@));
        assert(self.assistant_text@ == s.text + choice_text(choice@));
        if let Some(deltas) = choice.delta.tool_calls {
            merge_tool_call_deltas(&mut self.tool_calls, deltas);
        }
        assert(event_views(events@) == start + choice_events(s, choice@));
    }

    /// Takes in a chunk and tells what it gives rise to.
    fn take_chunk(&mut self, chunk: ChatChunk) -> (r: Vec<ResponseEvent>)
        requires
            chunk_addressable(chunk@),
        ensures
            final(self)@ == after_chunk(old(self)@, chunk@),
            event_views(r@) == chunk_events(old(self)@, chunk@),
    {
        let ghost s = self@;
        let ghost c = chunk@;
        let mut events: Vec<ResponseEvent> = Vec::new();
        assert(event_views(events@) == Seq::<Event>::empty());
        if !self.created_emitted {
            proof {
                lemma_event_views_push(events@, ResponseEvent::Created);
            }
            events.push(ResponseEvent::Created);
            self.created_emitted = true;
        }
        let ghost created = event_views(events@);
        if self.response_id.is_none() {
            self.response_id = chunk.id;
        }
        if let Some(usage) = chunk.usage {
            self.usage = Some(TokenUsage::from(usage));
        }
        if let Some(model) = chunk.model {
            let changed = match &self.last_server_model {
                Some(last) => !same_text(last.as_str(), model.as_str()),
                None => true,
            };
            if changed {
                let named = ResponseEvent::ServerModel(model.clone());
                proof {
                    lemma_event_views_push(events@, named);
                }
                events.push(named);
                self.last_server_model = Some(model);
            }
        }
        let ghost head = self@;
        assert(head == after_head(s, c));
        assert(event_views(events@) == head_events(s, c));
        let ghost all = c.choices;
        let choices = chunk.choices;
        assert(all == choice_views(choices@));
        assert(head_events(s, c) + choices_events(head, all.take(0)) == head_events(s, c));
        for choice in it: choices
            invariant
                it.seq() == choices@,
                all == choice_views(choices@),
                all == c.choices,
                chunk_addressable(c),
                self@ == after_choices(head, all.take(it.index() as int)),
                event_views(events@) == head_events(s, c) + choices_events(
                    head,
                    all.take(it.index() as int),
                ),
        {
            let ghost k = it.index() as int;
            proof {
                assert(c.choices[k] == choice@);
                assert(all.take(k + 1).drop_last() == all.take(k));
                assert(all.take(k + 1).last() == choice@);
            }
            self.take_choice(choice, &mut events);
            assert(event_views(events@) == head_events(s, c) + choices_events(
                head,
                all.take(k + 1),
            ));
        }
        assert(all.take(all.len() as int) == all);
        events
    }

    /// The events that close the stream.
    fn close(&self) -> (r: Vec<ResponseEvent>)
        ensures
            event_views(r@) == closing_events(self@),
    {
        let response_id: String = match copy_opt(&self.response_id) {
            Some(id) => id,
            None => String::new(),
        };
        emit_chat_completion_items(
            self.assistant_text.as_str(),
            self.tool_calls.as_slice(),
            response_id,
            self.usage,
        )
    }
}

/// Handles one thing that happened on the wire and tells what to do next.
pub fn process_chat_sse(stream: &mut ChatStream, input: SseInput) -> (r: SseAction)
    requires
        input@ matches Input::Decoded(Some(chunk)) ==> chunk_addressable(chunk),
    ensures
        final(stream)@ == after_input(old(stream)@, input@),
        r@ == action_on(old(stream)@, input@),
{
    match input {
        SseInput::Event { data } => {
            if same_text(trim_text(data.as_str()).as_str(), "[DONE]") {
                SseAction::Finish { events: stream.close() }
            } else {
                SseAction::Decode { data }
            }
        },
        SseInput::Closed => SseAction::Finish { events: stream.close() },
        SseInput::Broken { message } => SseAction::Fail { error: ApiError::Stream(message) },
        SseInput::IdleTimeout => SseAction::Fail {
            error: ApiError::Stream("idle timeout waiting for SSE".to_owned()),
        },
        SseInput::Decoded { chunk } => match chunk {
            Some(chunk) => SseAction::Continue { events: stream.take_chunk(chunk) },
            None => {
                let events: Vec<ResponseEvent> = Vec::new();
                assert(event_views(events@) == Seq::<Event>::empty());
                SseAction::Continue { events }
            },
        },
    }
}

} // verus!
