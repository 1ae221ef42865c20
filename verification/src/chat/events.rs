//! What a chat stream carries in, and the response events that come out.

use crate::text::opt_text;
use vstd::prelude::*;

verus! {

/// One decoded chunk of a chat completion stream.
#[derive(Debug)]
pub struct ChatChunk {
    pub id: Option<String>,
    pub model: Option<String>,
    pub choices: Vec<ChatChoice>,
    pub usage: Option<ChatUsage>,
}

/// One choice of a chunk.
#[derive(Debug)]
pub struct ChatChoice {
    pub delta: ChatDelta,
    pub finish_reason: Option<String>,
    pub index: Option<usize>,
}

/// What a choice adds to the answer.
#[derive(Debug)]
pub struct ChatDelta {
    pub content: Option<String>,
    pub tool_calls: Option<Vec<ChatToolCallDelta>>,
    /// Reasoning that some providers stream beside the content.
    pub reasoning_details: Option<Vec<ReasoningDetail>>,
}

/// A piece of streamed reasoning.
#[derive(Debug)]
pub struct ReasoningDetail {
    pub text: Option<String>,
}

/// A fragment of a tool call, addressed to the call at `index`.
#[derive(Debug)]
pub struct ChatToolCallDelta {
    pub index: Option<usize>,
    pub id: Option<String>,
    pub function: Option<ChatFunctionDelta>,
}

/// The function part of a tool call fragment.
#[derive(Debug)]
pub struct ChatFunctionDelta {
    pub name: Option<String>,
    pub arguments: Option<String>,
}

/// Token counts as the chat protocol reports them.
#[derive(Debug, Clone, Copy)]
pub struct ChatUsage {
    pub prompt_tokens: i64,
    pub completion_tokens: i64,
    pub total_tokens: i64,
}

/// Token counts as the core layer reports them.
#[derive(Debug, Clone, Copy, PartialEq, Eq, Structural)]
pub struct TokenUsage {
    pub input_tokens: i64,
    pub cached_input_tokens: i64,
    pub output_tokens: i64,
    pub reasoning_output_tokens: i64,
    pub total_tokens: i64,
}

/// Chat counts as core counts: the chat protocol tells nothing of cached or
/// reasoning tokens.
pub open spec fn token_usage(usage: ChatUsage) -> TokenUsage {
    TokenUsage {
        input_tokens: usage.prompt_tokens,
        cached_input_tokens: 0,
        output_tokens: usage.completion_tokens,
        reasoning_output_tokens: 0,
        total_tokens: usage.total_tokens,
    }
}

impl vstd::std_specs::convert::FromSpecImpl<ChatUsage> for TokenUsage {
    open spec fn obeys_from_spec() -> bool {
        true
    }

    open spec fn from_spec(usage: ChatUsage) -> TokenUsage {
        token_usage(usage)
    }
}

impl From<ChatUsage> for TokenUsage {
    fn from(usage: ChatUsage) -> (r: TokenUsage) {
        TokenUsage {
            input_tokens: usage.prompt_tokens,
            cached_input_tokens: 0,
            output_tokens: usage.completion_tokens,
            reasoning_output_tokens: 0,
            total_tokens: usage.total_tokens,
        }
    }
}

/// A part of a message's content.
#[derive(Debug, PartialEq, Eq)]
pub enum ContentItem {
    OutputText { text: String },
}

/// An item of the model's response.
#[derive(Debug, PartialEq, Eq)]
pub enum ResponseItem {
    Message {
        id: Option<String>,
        role: String,
        content: Vec<ContentItem>,
        end_turn: Option<bool>,
        phase: Option<String>,
    },
    FunctionCall {
        id: Option<String>,
        name: String,
        arguments: String,
        call_id: String,
        namespace: Option<String>,
    },
}

/// An event for the core layer.
#[derive(Debug, PartialEq, Eq)]
pub enum ResponseEvent {
    Created,
    ServerModel(String),
    OutputItemAdded(ResponseItem),
    ReasoningSummaryPartAdded { summary_index: i64 },
    ReasoningSummaryDelta { delta: String, summary_index: i64 },
    OutputTextDelta(String),
    OutputItemDone(ResponseItem),
    Completed { response_id: String, token_usage: Option<TokenUsage> },
}

/// Why a stream ended early.
#[derive(Debug, PartialEq, Eq)]
pub enum ApiError {
    Stream(String),
}

/// What a function fragment holds.
pub ghost struct FunctionDelta {
    pub name: Option<Seq<char>>,
    pub arguments: Option<Seq<char>>,
}

/// What a tool call fragment holds.
pub ghost struct ToolCallDelta {
    pub index: Option<usize>,
    pub id: Option<Seq<char>>,
    pub function: Option<FunctionDelta>,
}

/// What a choice holds, as far as it adds to the answer.
pub ghost struct Choice {
    pub content: Option<Seq<char>>,
    pub tool_calls: Option<Seq<ToolCallDelta>>,
    pub reasoning: Option<Seq<Option<Seq<char>>>>,
}

/// What a chunk holds.
pub ghost struct Chunk {
    pub id: Option<Seq<char>>,
    pub model: Option<Seq<char>>,
    pub choices: Seq<Choice>,
    pub usage: Option<ChatUsage>,
}

/// What a content part holds.
pub ghost enum Content {
    OutputText(Seq<char>),
}

/// What a response item holds.
pub ghost enum Item {
    Message {
        id: Option<Seq<char>>,
        role: Seq<char>,
        content: Seq<Content>,
        end_turn: Option<bool>,
        phase: Option<Seq<char>>,
    },
    FunctionCall {
        id: Option<Seq<char>>,
        name: Seq<char>,
        arguments: Seq<char>,
        call_id: Seq<char>,
        namespace: Option<Seq<char>>,
    },
}

/// What a response event holds.
pub ghost enum Event {
    Created,
    ServerModel(Seq<char>),
    OutputItemAdded(Item),
    ReasoningSummaryPartAdded(int),
    ReasoningSummaryDelta(Seq<char>, int),
    OutputTextDelta(Seq<char>),
    OutputItemDone(Item),
    Completed(Seq<char>, Option<TokenUsage>),
}

impl View for ChatFunctionDelta {
    type V = FunctionDelta;

    open spec fn view(&self) -> FunctionDelta {
        FunctionDelta { name: opt_text(self.name), arguments: opt_text(self.arguments) }
    }
}

impl View for ChatToolCallDelta {
    type V = ToolCallDelta;

    open spec fn view(&self) -> ToolCallDelta {
        ToolCallDelta {
            index: self.index,
            id: opt_text(self.id),
            function: match self.function {
                Some(f) => Some(f@),
                None => None,
            },
        }
    }
}

/// What a list of tool call fragments holds.
pub open spec fn delta_views(deltas: Seq<ChatToolCallDelta>) -> Seq<ToolCallDelta> {
    deltas.map_values(|d: ChatToolCallDelta| d@)
}

/// The texts of a list of reasoning pieces.
pub open spec fn reasoning_views(details: Seq<ReasoningDetail>) -> Seq<Option<Seq<char>>> {
    details.map_values(|d: ReasoningDetail| opt_text(d.text))
}

impl View for ChatChoice {
    type V = Choice;

    open spec fn view(&self) -> Choice {
        Choice {
            content: opt_text(self.delta.content),
            tool_calls: match self.delta.tool_calls {
                Some(t) => Some(delta_views(t@)),
                None => None,
            },
            reasoning: match self.delta.reasoning_details {
                Some(d) => Some(reasoning_views(d@)),
                None => None,
            },
        }
    }
}

/// What a list of choices holds.
pub open spec fn choice_views(choices: Seq<ChatChoice>) -> Seq<Choice> {
    choices.map_values(|c: ChatChoice| c@)
}

impl View for ChatChunk {
    type V = Chunk;

    open spec fn view(&self) -> Chunk {
        Chunk {
            id: opt_text(self.id),
            model: opt_text(self.model),
            choices: choice_views(self.choices@),
            usage: self.usage,
        }
    }
}

impl View for ContentItem {
    type V = Content;

    open spec fn view(&self) -> Content {
        match self {
            ContentItem::OutputText { text } => Content::OutputText(text@),
        }
    }
}

impl View for ResponseItem {
    type V = Item;

    open spec fn view(&self) -> Item {
        match self {
            ResponseItem::Message { id, role, content, end_turn, phase } => Item::Message {
                id: opt_text(*id),
                role: role@,
                content: content@.map_values(|c: ContentItem| c@),
                end_turn: *end_turn,
                phase: opt_text(*phase),
            },
            ResponseItem::FunctionCall { id, name, arguments, call_id, namespace } =>
                Item::FunctionCall {
                id: opt_text(*id),
                name: name@,
                arguments: arguments@,
                call_id: call_id@,
                namespace: opt_text(*namespace),
            },
        }
    }
}

impl View for ResponseEvent {
    type V = Event;

    open spec fn view(&self) -> Event {
        match self {
            ResponseEvent::Created => Event::Created,
            ResponseEvent::ServerModel(model) => Event::ServerModel(model@),
            ResponseEvent::OutputItemAdded(item) => Event::OutputItemAdded(item@),
            ResponseEvent::ReasoningSummaryPartAdded { summary_index } =>
                Event::ReasoningSummaryPartAdded(*summary_index as int),
            ResponseEvent::ReasoningSummaryDelta { delta, summary_index } =>
                Event::ReasoningSummaryDelta(delta@, *summary_index as int),
            ResponseEvent::OutputTextDelta(text) => Event::OutputTextDelta(text@),
            ResponseEvent::OutputItemDone(item) => Event::OutputItemDone(item@),
            ResponseEvent::Completed { response_id, token_usage } => Event::Completed(
                response_id@,
                *token_usage,
            ),
        }
    }
}

/// What a list of events holds.
pub open spec fn event_views(events: Seq<ResponseEvent>) -> Seq<Event> {
    events.map_values(|e: ResponseEvent| e@)
}

} // verus!
