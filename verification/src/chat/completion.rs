//! The events that close a chat completion.

use crate::chat::events::event_views;
use crate::chat::events::Content;
use crate::chat::events::ContentItem;
use crate::chat::events::Event;
use crate::chat::events::Item;
use crate::chat::events::ResponseEvent;
use crate::chat::events::ResponseItem;
use crate::chat::events::TokenUsage;
use crate::chat::tool_calls::call_views;
use crate::chat::tool_calls::AggregatedToolCall;
use crate::chat::tool_calls::ToolCall;
use crate::text::copy_opt;
use crate::text::decimal;
use crate::text::decimal_text;
use crate::text::is_blank;
use crate::text::is_blank_text;
use crate::text::joined;
use vstd::prelude::*;

verus! {

/// The id of the tool call at position `index`: its own, or one made up from
/// the position.
pub open spec fn call_id(call: ToolCall, index: int) -> Seq<char> {
    match call.id {
        Some(id) => id,
        None => "chat_tool_call_"@ + decimal(index as nat),
    }
}

/// The function call item of the tool call at position `index`.
pub open spec fn function_call(call: ToolCall, index: int) -> Item {
    Item::FunctionCall {
        id: None,
        name: call.name,
        arguments: call.arguments,
        call_id: call_id(call, index),
        namespace: None,
    }
}

/// One finished function call for every tool call that has a name, in order.
pub open spec fn function_call_events(calls: Seq<ToolCall>) -> Seq<Event>
    decreases calls.len(),
{
    if calls.len() == 0 {
        Seq::empty()
    } else {
        let rest = function_call_events(calls.drop_last());
        if is_blank(calls.last().name) {
            rest
        } else {
            rest.push(Event::OutputItemDone(function_call(calls.last(), calls.len() - 1)))
        }
    }
}

/// The assistant's message with `content`.
pub open spec fn assistant_message(content: Seq<Content>) -> Item {
    Item::Message { id: None, role: "assistant"@, content, end_turn: None, phase: None }
}

/// One finished message with the whole text, unless the text is blank.
pub open spec fn message_events(text: Seq<char>) -> Seq<Event> {
    if is_blank(text) {
        Seq::empty()
    } else {
        seq![Event::OutputItemDone(assistant_message(seq![Content::OutputText(text)]))]
    }
}

/// The events that close a completion: the function calls, the message, and
/// the mark that the response is complete.
pub open spec fn completion_events(
    text: Seq<char>,
    calls: Seq<ToolCall>,
    response_id: Seq<char>,
    usage: Option<TokenUsage>,
) -> Seq<Event> {
    (function_call_events(calls) + message_events(text)).push(Event::Completed(response_id, usage))
}

/// The finished message item with `text`.
fn finished_message(text: &str) -> (r: ResponseItem)
    ensures
        r@ == assistant_message(seq![Content::OutputText(text@)]),
{
    let mut content: Vec<ContentItem> = Vec::new();
    content.push(ContentItem::OutputText { text: text.to_owned() });
    assert(content@.map_values(|c: ContentItem| c@) == seq![Content::OutputText(text@)]);
    ResponseItem::Message {
        id: None,
        role: "assistant".to_owned(),
        content,
        end_turn: None,
        phase: None,
    }
}

/// The events that close a completion, in the order in which they are sent.
/// Whoever sends them stops at the first that cannot be delivered.
pub fn emit_chat_completion_items(
    assistant_text: &str,
    tool_calls: &[AggregatedToolCall],
    response_id: String,
    usage: Option<TokenUsage>,
) -> (r: Vec<ResponseEvent>)
    ensures
        event_views(r@) == completion_events(
            assistant_text@,
            call_views(tool_calls@),
            response_id@,
            usage,
        ),
{
    let mut events: Vec<ResponseEvent> = Vec::new();
    let ghost calls = call_views(tool_calls@);
    let mut index: usize = 0;
    while index < tool_calls.len()
        invariant
            index <= tool_calls@.len(),
            calls == call_views(tool_calls@),
            event_views(events@) == function_call_events(calls.take(index as int)),
        decreases tool_calls@.len() - index,
    {
        let call = &tool_calls[index];
        assert(calls.take(index + 1).drop_last() == calls.take(index as int));
        assert(calls.take(index + 1).last() == call@);
        if !is_blank_text(call.name.as_str()) {
            let call_id: String = match copy_opt(&call.id) {
                Some(id) => id,
                None => joined("chat_tool_call_", decimal_text(index as u64).as_str()),
            };
            let ghost was = events@;
            events.push(
                ResponseEvent::OutputItemDone(
                    ResponseItem::FunctionCall {
                        id: None,
                        name: call.name.clone(),
                        arguments: call.arguments.clone(),
                        call_id,
                        namespace: None,
                    },
                ),
            );
            assert(event_views(events@) == event_views(was).push(
                Event::OutputItemDone(function_call(call@, index as int)),
            ));
        }
        index = index + 1;
    }
    assert(calls.take(calls.len() as int) == calls);
    let ghost named = event_views(events@);
    if !is_blank_text(assistant_text) {
        events.push(ResponseEvent::OutputItemDone(finished_message(assistant_text)));
    }
    assert(event_views(events@) == named + message_events(assistant_text@));
    let ghost told = events@;
    events.push(ResponseEvent::Completed { response_id, token_usage: usage });
    assert(event_views(events@) == event_views(told).push(Event::Completed(response_id@, usage)));
    events
}

} // verus!
