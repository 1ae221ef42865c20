//! What holds of every chat stream, whatever the server sends.

use crate::chat::completion::assistant_message;
use crate::chat::completion::function_call;
use crate::chat::completion::function_call_events;
use crate::chat::completion::message_events;
use crate::chat::events::token_usage;
use crate::chat::events::Choice;
use crate::chat::events::Chunk;
use crate::chat::events::Content;
use crate::chat::events::Event;
use crate::chat::events::Item;
use crate::chat::events::TokenUsage;
use crate::chat::events::ToolCallDelta;
use crate::chat::stream::action_on;
use crate::chat::stream::after_choice;
use crate::chat::stream::after_choices;
use crate::chat::stream::after_chunk;
use crate::chat::stream::after_head;
use crate::chat::stream::after_input;
use crate::chat::stream::choice_events;
use crate::chat::stream::choice_reasoning;
use crate::chat::stream::choice_text;
use crate::chat::stream::choices_events;
use crate::chat::stream::chunk_events;
use crate::chat::stream::closing_events;
use crate::chat::stream::content_events;
use crate::chat::stream::fresh_stream;
use crate::chat::stream::head_events;
use crate::chat::stream::item_events;
use crate::chat::stream::needs_item;
use crate::chat::stream::reasoning_events;
use crate::chat::stream::Action;
use crate::chat::stream::Input;
use crate::chat::stream::Stream;
use crate::chat::tool_calls::arguments_part;
use crate::chat::tool_calls::empty_call;
use crate::chat::tool_calls::extended;
use crate::chat::tool_calls::merged;
use crate::chat::tool_calls::name_part;
use crate::chat::tool_calls::target;
use crate::chat::tool_calls::ToolCall;
use crate::text::is_blank;
use crate::text::trimmed;
use vstd::prelude::*;

verus! {

/// The stream once `chunks` have been taken in, one after the other.
pub open spec fn after_chunks(s: Stream, chunks: Seq<Chunk>) -> Stream
    decreases chunks.len(),
{
    if chunks.len() == 0 {
        s
    } else {
        after_chunk(after_chunks(s, chunks.drop_last()), chunks.last())
    }
}

/// The events that `chunks` give rise to, one after the other.
pub open spec fn chunks_events(s: Stream, chunks: Seq<Chunk>) -> Seq<Event>
    decreases chunks.len(),
{
    if chunks.len() == 0 {
        Seq::empty()
    } else {
        chunks_events(s, chunks.drop_last()) + chunk_events(
            after_chunks(s, chunks.drop_last()),
            chunks.last(),
        )
    }
}

/// The event adds to an item that must have been announced.
pub open spec fn streams(event: Event) -> bool {
    event is OutputTextDelta || event is ReasoningSummaryDelta
        || event is ReasoningSummaryPartAdded
}

/// The content that `events` stream, put together.
pub open spec fn streamed_text(events: Seq<Event>) -> Seq<char>
    decreases events.len(),
{
    if events.len() == 0 {
        Seq::empty()
    } else {
        match events.last() {
            Event::OutputTextDelta(text) => streamed_text(events.drop_last()) + text,
            _ => streamed_text(events.drop_last()),
        }
    }
}

/// The models that `events` name, in order.
pub open spec fn named_models(events: Seq<Event>) -> Seq<Seq<char>>
    decreases events.len(),
{
    if events.len() == 0 {
        Seq::empty()
    } else {
        match events.last() {
            Event::ServerModel(model) => named_models(events.drop_last()).push(model),
            _ => named_models(events.drop_last()),
        }
    }
}

/// The response is announced by the first event and by no other.
pub open spec fn announced_once(events: Seq<Event>) -> bool {
    forall|i: int| 0 <= i < events.len() ==> (#[trigger] events[i] is Created <==> i == 0)
}

/// The item is announced at most once, and before anything streams into it.
pub open spec fn item_first(events: Seq<Event>) -> bool {
    &&& forall|i: int, j: int|
        0 <= i < j < events.len() ==> !(#[trigger] events[i] is OutputItemAdded
            && #[trigger] events[j] is OutputItemAdded)
    &&& forall|i: int|
        0 <= i < events.len() && streams(#[trigger] events[i]) ==> exists|j: int|
            0 <= j < i && #[trigger] events[j] is OutputItemAdded
}

/// The summary part is opened at most once, and before any reasoning.
pub open spec fn part_first(events: Seq<Event>) -> bool {
    &&& forall|i: int, j: int|
        0 <= i < j < events.len() ==> !(#[trigger] events[i] is ReasoningSummaryPartAdded
            && #[trigger] events[j] is ReasoningSummaryPartAdded)
    &&& forall|i: int|
        0 <= i < events.len() && #[trigger] events[i] is ReasoningSummaryDelta ==> exists|j: int|
            0 <= j < i && #[trigger] events[j] is ReasoningSummaryPartAdded
}

/// No two models named one after the other are the same.
pub open spec fn models_differ(models: Seq<Seq<char>>) -> bool {
    forall|i: int| 0 <= i && i + 1 < models.len() ==> #[trigger] models[i] != models[i + 1]
}

/// No event finishes an item or the response.
pub open spec fn finishes_nothing(events: Seq<Event>) -> bool {
    forall|i: int|
        0 <= i < events.len() ==> !(#[trigger] events[i] is Completed)
            && !(events[i] is OutputItemDone)
}

/// Some event announces an item.
pub open spec fn announces_item(events: Seq<Event>) -> bool {
    exists|j: int| 0 <= j < events.len() && #[trigger] events[j] is OutputItemAdded
}

/// Some choice of the chunk streams into an item.
pub open spec fn chunk_needs_item(chunk: Chunk) -> bool {
    exists|i: int| 0 <= i < chunk.choices.len() && needs_item(#[trigger] chunk.choices[i])
}

/// Some choice of the chunks streams into an item.
pub open spec fn chunks_need_item(chunks: Seq<Chunk>) -> bool {
    exists|k: int| 0 <= k < chunks.len() && chunk_needs_item(#[trigger] chunks[k])
}

/// `events` are in good order and `s` remembers what they told.
#[verifier::opaque]
spec fn told(s: Stream, events: Seq<Event>) -> bool {
    &&& finishes_nothing(events)
    &&& announced_once(events)
    &&& s.created <==> events.len() > 0
    &&& item_first(events)
    &&& s.active <==> announces_item(events)
    &&& part_first(events)
    &&& s.reasoning <==> exists|j: int|
        0 <= j < events.len() && #[trigger] events[j] is ReasoningSummaryPartAdded
    &&& streamed_text(events) == s.text
    &&& models_differ(named_models(events))
    &&& s.model is None <==> named_models(events).len() == 0
    &&& s.model matches Some(model) ==> named_models(events).last() == model
}

/// `s` once `event` has been sent.
spec fn noted(s: Stream, event: Event) -> Stream {
    match event {
        Event::Created => Stream { created: true, ..s },
        Event::ServerModel(model) => Stream { model: Some(model), ..s },
        Event::OutputItemAdded(_) => Stream { active: true, ..s },
        Event::ReasoningSummaryPartAdded(_) => Stream { reasoning: true, ..s },
        Event::OutputTextDelta(text) => Stream { text: s.text + text, ..s },
        _ => s,
    }
}

/// `event` may follow what `s` remembers.
spec fn may_follow(s: Stream, event: Event) -> bool {
    match event {
        Event::Created => !s.created,
        Event::ServerModel(model) => s.created && s.model != Some(model),
        Event::OutputItemAdded(_) => s.created && !s.active,
        Event::ReasoningSummaryPartAdded(_) => s.created && s.active && !s.reasoning,
        Event::ReasoningSummaryDelta(_, _) => s.created && s.active && s.reasoning,
        Event::OutputTextDelta(_) => s.created && s.active,
        _ => false,
    }
}

proof fn lemma_told_push(s: Stream, events: Seq<Event>, event: Event)
    requires
        told(s, events),
        may_follow(s, event),
    ensures
        told(noted(s, event), events.push(event)),
{
    reveal(told);
    let now = events.push(event);
    let n = events.len() as int;
    assert(now.drop_last() == events);
    assert(now.last() == event);
    assert forall|j: int| 0 <= j < n implies now[j] == events[j] by {}
    assert(now[n] == event);
    // Earlier witnesses stay where they are.
    if s.active {
        let j = choose|j: int| 0 <= j < events.len() && #[trigger] events[j] is OutputItemAdded;
        assert(now[j] is OutputItemAdded);
    }
    if s.reasoning {
        let j = choose|j: int|
            0 <= j < events.len() && #[trigger] events[j] is ReasoningSummaryPartAdded;
        assert(now[j] is ReasoningSummaryPartAdded);
    }
    assert forall|i: int| 0 <= i < now.len() && streams(#[trigger] now[i]) implies exists|j: int|
        0 <= j < i && #[trigger] now[j] is OutputItemAdded by {
        if i < n {
            assert(streams(events[i]));
            let j = choose|j: int| 0 <= j < i && #[trigger] events[j] is OutputItemAdded;
            assert(now[j] is OutputItemAdded);
        }
    }
    assert forall|i: int|
        0 <= i < now.len() && #[trigger] now[i] is ReasoningSummaryDelta implies exists|j: int|
        0 <= j < i && #[trigger] now[j] is ReasoningSummaryPartAdded by {
        if i < n {
            assert(events[i] is ReasoningSummaryDelta);
            let j = choose|j: int| 0 <= j < i && #[trigger] events[j] is ReasoningSummaryPartAdded;
            assert(now[j] is ReasoningSummaryPartAdded);
        }
    }
    assert(item_first(now));
    assert(part_first(now));
    assert(announced_once(now));
}

proof fn lemma_told_same(s: Stream, t: Stream, events: Seq<Event>)
    requires
        told(s, events),
        s.created == t.created,
        s.active == t.active,
        s.reasoning == t.reasoning,
        s.text == t.text,
        s.model == t.model,
    ensures
        told(t, events),
{
    reveal(told);
}

proof fn lemma_told_texts(s: Stream, events: Seq<Event>, texts: Seq<Seq<char>>)
    requires
        told(s, events),
        s.created,
        s.active,
    ensures
        told(
            Stream { reasoning: s.reasoning || texts.len() > 0, ..s },
            events + reasoning_events(s.reasoning, texts),
        ),
    decreases texts.len(),
{
    let now = Stream { reasoning: s.reasoning || texts.len() > 0, ..s };
    if texts.len() == 0 {
        assert(events + reasoning_events(s.reasoning, texts) == events);
        assert(now == s);
    } else {
        let less = texts.drop_last();
        lemma_told_texts(s, events, less);
        let mid = Stream { reasoning: s.reasoning || less.len() > 0, ..s };
        let sent = events + reasoning_events(s.reasoning, less);
        let delta = Event::ReasoningSummaryDelta(texts.last(), 0);
        let all = events + reasoning_events(s.reasoning, texts);
        if mid.reasoning {
            lemma_told_push(mid, sent, delta);
            assert(all == sent.push(delta));
            assert(noted(mid, delta) == now);
        } else {
            let part = Event::ReasoningSummaryPartAdded(0);
            lemma_told_push(mid, sent, part);
            lemma_told_push(noted(mid, part), sent.push(part), delta);
            assert(all == sent.push(part).push(delta));
            assert(noted(noted(mid, part), delta) == now);
        }
    }
}

proof fn lemma_told_choice(s: Stream, events: Seq<Event>, choice: Choice)
    requires
        told(s, events),
        s.created,
    ensures
        told(after_choice(s, choice), events + choice_events(s, choice)),
{
    let with_item = Stream { active: s.active || needs_item(choice), ..s };
    let announced = events + item_events(s, choice);
    if needs_item(choice) && !s.active {
        let added = Event::OutputItemAdded(assistant_message(Seq::empty()));
        lemma_told_push(s, events, added);
        assert(announced == events.push(added));
    } else {
        assert(announced == events);
        assert(with_item == s);
    }
    let texts = choice_reasoning(choice);
    let with_reasoning = Stream { reasoning: s.reasoning || texts.len() > 0, ..with_item };
    let reasoned = announced + reasoning_events(s.reasoning, texts);
    if choice.reasoning is Some {
        lemma_told_texts(with_item, announced, texts);
    } else {
        assert(reasoned == announced);
    }
    let with_text = Stream { text: s.text + choice_text(choice), ..with_reasoning };
    let all = reasoned + content_events(choice);
    match choice.content {
        Some(text) => {
            lemma_told_push(with_reasoning, reasoned, Event::OutputTextDelta(text));
            assert(all == reasoned.push(Event::OutputTextDelta(text)));
        },
        None => {
            assert(all == reasoned);
            assert(with_text.text == s.text);
        },
    }
    assert(all == events + choice_events(s, choice));
    lemma_told_same(with_text, after_choice(s, choice), all);
}

proof fn lemma_told_choices(s: Stream, events: Seq<Event>, choices: Seq<Choice>)
    requires
        told(s, events),
        s.created,
    ensures
        told(after_choices(s, choices), events + choices_events(s, choices)),
        after_choices(s, choices).created,
    decreases choices.len(),
{
    if choices.len() == 0 {
        assert(events + choices_events(s, choices) == events);
    } else {
        let less = choices.drop_last();
        lemma_told_choices(s, events, less);
        let mid = after_choices(s, less);
        lemma_told_choice(mid, events + choices_events(s, less), choices.last());
        assert(events + choices_events(s, choices) == events + choices_events(s, less)
            + choice_events(mid, choices.last()));
    }
}

proof fn lemma_told_chunk(s: Stream, events: Seq<Event>, chunk: Chunk)
    requires
        told(s, events),
    ensures
        told(after_chunk(s, chunk), events + chunk_events(s, chunk)),
{
    let created = if s.created {
        events
    } else {
        events.push(Event::Created)
    };
    let with_created = Stream { created: true, ..s };
    if !s.created {
        lemma_told_push(s, events, Event::Created);
    } else {
        assert(with_created == s);
    }
    let headed = events + head_events(s, chunk);
    let with_model = Stream {
        model: if chunk.model is Some {
            chunk.model
        } else {
            s.model
        },
        ..with_created
    };
    match chunk.model {
        Some(model) => {
            if s.model == Some(model) {
                assert(headed == created);
                assert(with_model == with_created);
            } else {
                lemma_told_push(with_created, created, Event::ServerModel(model));
                assert(headed == created.push(Event::ServerModel(model)));
            }
        },
        None => {
            assert(headed == created);
        },
    }
    lemma_told_same(with_model, after_head(s, chunk), headed);
    lemma_told_choices(after_head(s, chunk), headed, chunk.choices);
    assert(events + chunk_events(s, chunk) == headed + choices_events(
        after_head(s, chunk),
        chunk.choices,
    ));
}

proof fn lemma_told_chunks(chunks: Seq<Chunk>)
    ensures
        told(after_chunks(fresh_stream(), chunks), chunks_events(fresh_stream(), chunks)),
    decreases chunks.len(),
{
    reveal(told);
    if chunks.len() > 0 {
        lemma_told_chunks(chunks.drop_last());
        lemma_told_chunk(
            after_chunks(fresh_stream(), chunks.drop_last()),
            chunks_events(fresh_stream(), chunks.drop_last()),
            chunks.last(),
        );
    }
}

proof fn lemma_created_stays(chunks: Seq<Chunk>)
    ensures
        after_chunks(fresh_stream(), chunks).created <==> chunks.len() > 0,
    decreases chunks.len(),
{
    if chunks.len() > 0 {
        let s = after_head(after_chunks(fresh_stream(), chunks.drop_last()), chunks.last());
        lemma_choices_keep_head(s, chunks.last().choices);
    }
}

proof fn lemma_choices_keep_head(s: Stream, choices: Seq<Choice>)
    ensures
        after_choices(s, choices).created == s.created,
        after_choices(s, choices).response_id == s.response_id,
        after_choices(s, choices).usage == s.usage,
        after_choices(s, choices).model == s.model,
    decreases choices.len(),
{
    if choices.len() > 0 {
        lemma_choices_keep_head(s, choices.drop_last());
    }
}

/// A stream that brings at least one chunk announces the response with its
/// first event, and never again; one that brings none sends nothing.
pub proof fn response_is_announced_first_and_once(chunks: Seq<Chunk>)
    ensures
        announced_once(chunks_events(fresh_stream(), chunks)),
        chunks_events(fresh_stream(), chunks).len() > 0 <==> chunks.len() > 0,
{
    reveal(told);
    lemma_told_chunks(chunks);
    lemma_created_stays(chunks);
}

/// The core layer sees the item announced, once, before any content or
/// reasoning that belongs to it.
pub proof fn item_is_announced_before_it_is_streamed(chunks: Seq<Chunk>)
    ensures
        item_first(chunks_events(fresh_stream(), chunks)),
{
    reveal(told);
    lemma_told_chunks(chunks);
}

/// A choice announces the item first of all, and exactly if it streams into
/// one and none has been announced.
pub proof fn choices_announce_the_item_they_need(s: Stream, choice: Choice)
    ensures
        forall|i: int|
            0 <= i < choice_events(s, choice).len() ==> (#[trigger] choice_events(
                s,
                choice,
            )[i] is OutputItemAdded <==> i == 0 && needs_item(choice) && !s.active),
        needs_item(choice) && !s.active ==> announces_item(choice_events(s, choice)),
        after_choice(s, choice).active <==> s.active || needs_item(choice),
{
    let item = item_events(s, choice);
    let reasoning = reasoning_events(s.reasoning, choice_reasoning(choice));
    let all = choice_events(s, choice);
    assert forall|i: int| 0 <= i < all.len() implies (#[trigger] all[i] is OutputItemAdded <==> i
        == 0 && needs_item(choice) && !s.active) by {
        if i < item.len() {
            assert(all[i] == item[i]);
        } else if i < item.len() + reasoning.len() {
            assert(all[i] == reasoning[i - item.len()]);
        } else {
            assert(all[i] == content_events(choice)[i - item.len() - reasoning.len()]);
        }
    }
    if needs_item(choice) && !s.active {
        assert(all[0] == item[0]);
    }
}

/// An item is announced exactly if some choice streams into one; so it is
/// announced with the first chunk of which that holds.
pub proof fn item_is_announced_exactly_if_it_is_needed(chunks: Seq<Chunk>)
    ensures
        announces_item(chunks_events(fresh_stream(), chunks)) <==> chunks_need_item(chunks),
{
    reveal(told);
    lemma_told_chunks(chunks);
    lemma_active_chunks(chunks);
}

proof fn lemma_active_choices(s: Stream, choices: Seq<Choice>)
    ensures
        after_choices(s, choices).active <==> s.active || exists|i: int|
            0 <= i < choices.len() && needs_item(#[trigger] choices[i]),
    decreases choices.len(),
{
    if choices.len() > 0 {
        let less = choices.drop_last();
        lemma_active_choices(s, less);
        if exists|i: int| 0 <= i < less.len() && needs_item(#[trigger] less[i]) {
            let i = choose|i: int| 0 <= i < less.len() && needs_item(#[trigger] less[i]);
            assert(choices[i] == less[i]);
        }
        if needs_item(choices.last()) {
            assert(needs_item(choices[choices.len() - 1]));
        }
        assert forall|i: int|
            0 <= i < choices.len() && needs_item(#[trigger] choices[i]) implies after_choices(
            s,
            choices,
        ).active by {
            if i < less.len() {
                assert(less[i] == choices[i]);
            }
        }
    }
}

proof fn lemma_active_chunks(chunks: Seq<Chunk>)
    ensures
        after_chunks(fresh_stream(), chunks).active <==> chunks_need_item(chunks),
    decreases chunks.len(),
{
    if chunks.len() > 0 {
        let less = chunks.drop_last();
        lemma_active_chunks(less);
        let s = after_head(after_chunks(fresh_stream(), less), chunks.last());
        lemma_active_choices(s, chunks.last().choices);
        if chunks_need_item(less) {
            let k = choose|k: int| 0 <= k < less.len() && chunk_needs_item(#[trigger] less[k]);
            assert(chunks[k] == less[k]);
        }
        if chunk_needs_item(chunks.last()) {
            assert(chunk_needs_item(chunks[chunks.len() - 1]));
        }
        assert forall|k: int|
            0 <= k < chunks.len() && chunk_needs_item(#[trigger] chunks[k]) implies after_chunks(
            fresh_stream(),
            chunks,
        ).active by {
            if k < less.len() {
                assert(less[k] == chunks[k]);
            }
        }
    }
}

/// Nothing is finished before the stream is closed.
pub proof fn chunks_finish_nothing(chunks: Seq<Chunk>)
    ensures
        finishes_nothing(chunks_events(fresh_stream(), chunks)),
{
    reveal(told);
    lemma_told_chunks(chunks);
}

/// A stream that is closed after `chunks` completes once, with its very last
/// event.
pub proof fn streams_complete_once(chunks: Seq<Chunk>)
    ensures
        ({
            let all = chunks_events(fresh_stream(), chunks) + closing_events(
                after_chunks(fresh_stream(), chunks),
            );
            &&& all.len() > 0
            &&& forall|i: int|
                0 <= i < all.len() ==> (#[trigger] all[i] is Completed <==> i == all.len() - 1)
        }),
{
    let s = after_chunks(fresh_stream(), chunks);
    let told = chunks_events(fresh_stream(), chunks);
    let closing = closing_events(s);
    let all = told + closing;
    chunks_finish_nothing(chunks);
    completion_is_marked_last_and_once(s);
    assert forall|i: int| 0 <= i < all.len() implies (#[trigger] all[i] is Completed <==> i
        == all.len() - 1) by {
        if i < told.len() {
            assert(all[i] == told[i]);
        } else {
            assert(all[i] == closing[i - told.len()]);
        }
    }
}

/// The reasoning summary part is opened, once, before any reasoning.
pub proof fn summary_part_is_opened_before_reasoning(chunks: Seq<Chunk>)
    ensures
        part_first(chunks_events(fresh_stream(), chunks)),
{
    reveal(told);
    lemma_told_chunks(chunks);
}

/// The text that a stream remembers is what it has streamed, no more and no
/// less.
pub proof fn remembered_text_is_what_was_streamed(chunks: Seq<Chunk>)
    ensures
        after_chunks(fresh_stream(), chunks).text == streamed_text(
            chunks_events(fresh_stream(), chunks),
        ),
{
    reveal(told);
    lemma_told_chunks(chunks);
}

/// The model of the last chunk that names one.
pub open spec fn last_model(chunks: Seq<Chunk>) -> Option<Seq<char>>
    decreases chunks.len(),
{
    if chunks.len() == 0 {
        None
    } else if chunks.last().model is Some {
        chunks.last().model
    } else {
        last_model(chunks.drop_last())
    }
}

/// A model is named only when it differs from the one named before, and the
/// one named last is always the one that the server sent last.
pub proof fn models_are_named_when_they_change(chunks: Seq<Chunk>)
    ensures
        models_differ(named_models(chunks_events(fresh_stream(), chunks))),
        last_model(chunks) is None <==> named_models(
            chunks_events(fresh_stream(), chunks),
        ).len() == 0,
        last_model(chunks) matches Some(model) ==> named_models(
            chunks_events(fresh_stream(), chunks),
        ).last() == model,
{
    reveal(told);
    lemma_told_chunks(chunks);
    lemma_last_model(chunks);
}

proof fn lemma_last_model(chunks: Seq<Chunk>)
    ensures
        after_chunks(fresh_stream(), chunks).model == last_model(chunks),
    decreases chunks.len(),
{
    if chunks.len() > 0 {
        lemma_last_model(chunks.drop_last());
        let s = after_head(after_chunks(fresh_stream(), chunks.drop_last()), chunks.last());
        lemma_choices_keep_head(s, chunks.last().choices);
    }
}

/// The id of the first chunk that has one.
pub open spec fn first_id(chunks: Seq<Chunk>) -> Option<Seq<char>>
    decreases chunks.len(),
{
    if chunks.len() == 0 {
        None
    } else if chunks.first().id is Some {
        chunks.first().id
    } else {
        first_id(chunks.drop_first())
    }
}

/// The usage of the last chunk that has one.
pub open spec fn last_usage(chunks: Seq<Chunk>) -> Option<TokenUsage>
    decreases chunks.len(),
{
    if chunks.len() == 0 {
        None
    } else {
        match chunks.last().usage {
            Some(usage) => Some(token_usage(usage)),
            None => last_usage(chunks.drop_last()),
        }
    }
}

proof fn lemma_first_id_push(chunks: Seq<Chunk>, chunk: Chunk)
    ensures
        first_id(chunks.push(chunk)) == (if first_id(chunks) is Some {
            first_id(chunks)
        } else {
            chunk.id
        }),
    decreases chunks.len(),
{
    let all = chunks.push(chunk);
    if chunks.len() == 0 {
        assert(all.first() == chunk);
        assert(first_id(all.drop_first()) is None);
    } else {
        assert(all.first() == chunks.first());
        assert(all.drop_first() == chunks.drop_first().push(chunk));
        lemma_first_id_push(chunks.drop_first(), chunk);
    }
}

/// A completed response bears the first id and the last usage that the server
/// sent.
pub proof fn completion_bears_first_id_and_last_usage(chunks: Seq<Chunk>)
    ensures
        after_chunks(fresh_stream(), chunks).response_id == first_id(chunks),
        after_chunks(fresh_stream(), chunks).usage == last_usage(chunks),
        closing_events(after_chunks(fresh_stream(), chunks)).last() == Event::Completed(
            match first_id(chunks) {
                Some(id) => id,
                None => Seq::empty(),
            },
            last_usage(chunks),
        ),
    decreases chunks.len(),
{
    if chunks.len() > 0 {
        let less = chunks.drop_last();
        completion_bears_first_id_and_last_usage(less);
        let s = after_head(after_chunks(fresh_stream(), less), chunks.last());
        lemma_choices_keep_head(s, chunks.last().choices);
        lemma_first_id_push(less, chunks.last());
        assert(less.push(chunks.last()) == chunks);
    }
}

/// The events that close a stream end with the mark of completion, which
/// stands nowhere else among them.
pub proof fn completion_is_marked_last_and_once(s: Stream)
    ensures
        closing_events(s).len() > 0,
        forall|i: int|
            0 <= i < closing_events(s).len() ==> (#[trigger] closing_events(s)[i] is Completed
                <==> i == closing_events(s).len() - 1),
{
    lemma_function_calls_only(s.calls);
    let front = function_call_events(s.calls) + message_events(s.text);
    assert forall|i: int| 0 <= i < front.len() implies !(#[trigger] front[i] is Completed) by {
        if i < function_call_events(s.calls).len() {
            assert(front[i] == function_call_events(s.calls)[i]);
        }
    }
}

proof fn lemma_function_calls_only(calls: Seq<ToolCall>)
    ensures
        forall|i: int|
            0 <= i < function_call_events(calls).len() ==> #[trigger] function_call_events(
                calls,
            )[i] matches Event::OutputItemDone(Item::FunctionCall { .. }),
    decreases calls.len(),
{
    if calls.len() > 0 {
        lemma_function_calls_only(calls.drop_last());
    }
}

/// How many calls have a name.
pub open spec fn named_count(calls: Seq<ToolCall>) -> nat
    decreases calls.len(),
{
    if calls.len() == 0 {
        0
    } else {
        named_count(calls.drop_last()) + if is_blank(calls.last().name) {
            0nat
        } else {
            1nat
        }
    }
}

/// As many calls are finished as have a name, and each stands where as many
/// finished calls precede it as named calls precede it in the list.
pub proof fn named_calls_are_finished_in_order(calls: Seq<ToolCall>, k: int)
    ensures
        function_call_events(calls).len() == named_count(calls),
        0 <= k < calls.len() && !is_blank(calls[k].name) ==> named_count(calls.take(k))
            < named_count(calls) && function_call_events(calls)[named_count(calls.take(k)) as int]
            == Event::OutputItemDone(function_call(calls[k], k)),
    decreases calls.len(),
{
    if calls.len() > 0 {
        let less = calls.drop_last();
        named_calls_are_finished_in_order(less, k);
        if 0 <= k < less.len() {
            assert(less.take(k) == calls.take(k));
        } else if k == less.len() {
            assert(calls.take(k) == less);
        }
    }
}

/// A stream that is closed after `chunks` finishes with a message that holds
/// exactly the content that was streamed, unless that is blank.
pub proof fn final_message_is_the_streamed_text(chunks: Seq<Chunk>)
    ensures
        ({
            let s = after_chunks(fresh_stream(), chunks);
            let text = streamed_text(chunks_events(fresh_stream(), chunks));
            &&& !is_blank(text) ==> closing_events(s).contains(
                Event::OutputItemDone(assistant_message(seq![Content::OutputText(text)])),
            )
            &&& is_blank(text) ==> forall|i: int|
                0 <= i < closing_events(s).len() ==> !(#[trigger] closing_events(
                    s,
                )[i] matches Event::OutputItemDone(Item::Message { .. }))
        }),
{
    let s = after_chunks(fresh_stream(), chunks);
    remembered_text_is_what_was_streamed(chunks);
    lemma_function_calls_only(s.calls);
    let calls = function_call_events(s.calls);
    let e = closing_events(s);
    if !is_blank(s.text) {
        assert(e[calls.len() as int] == message_events(s.text)[0]);
    } else {
        assert forall|i: int| 0 <= i < e.len() implies !(
        #[trigger] e[i] matches Event::OutputItemDone(Item::Message { .. })) by {
            if i < calls.len() {
                assert(e[i] == calls[i]);
            }
        }
    }
}

/// Both ways in which a server ends a stream well lead to the same events.
pub proof fn done_mark_and_closed_connection_agree(s: Stream, data: Seq<char>)
    requires
        trimmed(data) == "[DONE]"@,
    ensures
        action_on(s, Input::Event(data)) == action_on(s, Input::Closed),
        action_on(s, Input::Closed) == Action::Finish(closing_events(s)),
        after_input(s, Input::Event(data)) == s,
{
}

/// Data that is not a chunk leaves the stream as it is and sends nothing.
pub proof fn undecodable_data_is_passed_over(s: Stream)
    ensures
        after_input(s, Input::Decoded(None)) == s,
        action_on(s, Input::Decoded(None)) == Action::Continue(Seq::empty()),
{
}

/// Fragments may arrive in one list or in several: the calls come out alike.
pub proof fn fragments_may_arrive_in_parts(
    calls: Seq<ToolCall>,
    first: Seq<ToolCallDelta>,
    second: Seq<ToolCallDelta>,
)
    ensures
        merged(calls, first + second) == merged(merged(calls, first), second),
    decreases second.len(),
{
    if second.len() == 0 {
        assert(first + second == first);
    } else {
        let all = first + second;
        assert(all.drop_last() == first + second.drop_last());
        assert(all.last() == second.last());
        fragments_may_arrive_in_parts(calls, first, second.drop_last());
    }
}

/// The name fragments addressed to position `k`, put together.
pub open spec fn name_fragments(deltas: Seq<ToolCallDelta>, k: int) -> Seq<char>
    decreases deltas.len(),
{
    if deltas.len() == 0 {
        Seq::empty()
    } else if target(deltas.last()) == k {
        name_fragments(deltas.drop_last(), k) + name_part(deltas.last())
    } else {
        name_fragments(deltas.drop_last(), k)
    }
}

/// The argument fragments addressed to position `k`, put together.
pub open spec fn argument_fragments(deltas: Seq<ToolCallDelta>, k: int) -> Seq<char>
    decreases deltas.len(),
{
    if deltas.len() == 0 {
        Seq::empty()
    } else if target(deltas.last()) == k {
        argument_fragments(deltas.drop_last(), k) + arguments_part(deltas.last())
    } else {
        argument_fragments(deltas.drop_last(), k)
    }
}

/// The last id addressed to position `k`.
pub open spec fn last_id(deltas: Seq<ToolCallDelta>, k: int) -> Option<Seq<char>>
    decreases deltas.len(),
{
    if deltas.len() == 0 {
        None
    } else if target(deltas.last()) == k && deltas.last().id is Some {
        deltas.last().id
    } else {
        last_id(deltas.drop_last(), k)
    }
}

/// Every call ends up with its fragments put together in the order of their
/// arrival, and with the last id that was sent for it.
pub proof fn calls_are_their_fragments_put_together(
    calls: Seq<ToolCall>,
    deltas: Seq<ToolCallDelta>,
    k: int,
)
    requires
        0 <= k < merged(calls, deltas).len(),
    ensures
        ({
            let before = if k < calls.len() {
                calls[k]
            } else {
                empty_call()
            };
            merged(calls, deltas)[k] == (ToolCall {
                id: if last_id(deltas, k) is Some {
                    last_id(deltas, k)
                } else {
                    before.id
                },
                name: before.name + name_fragments(deltas, k),
                arguments: before.arguments + argument_fragments(deltas, k),
            })
        }),
    decreases deltas.len(),
{
    let before = if k < calls.len() {
        calls[k]
    } else {
        empty_call()
    };
    if deltas.len() == 0 {
        assert(before.name + name_fragments(deltas, k) == before.name);
        assert(before.arguments + argument_fragments(deltas, k) == before.arguments);
    } else {
        let less = deltas.drop_last();
        let d = deltas.last();
        let mid = merged(calls, less);
        lemma_merged_grows(calls, less);
        if k < mid.len() {
            calls_are_their_fragments_put_together(calls, less, k);
        } else {
            lemma_no_fragments_beyond(calls, less, k);
            assert(before.name + name_fragments(less, k) == before.name);
            assert(before.arguments + argument_fragments(less, k) == before.arguments);
        }
        let was = if k < mid.len() {
            mid[k]
        } else {
            empty_call()
        };
        if target(d) == k {
            assert(merged(calls, deltas)[k] == extended(was, d));
            assert(was.name + name_part(d) == before.name + name_fragments(deltas, k));
            assert(was.arguments + arguments_part(d) == before.arguments + argument_fragments(
                deltas,
                k,
            ));
        } else {
            assert(merged(calls, deltas)[k] == was);
        }
    }
}

proof fn lemma_merged_grows(calls: Seq<ToolCall>, deltas: Seq<ToolCallDelta>)
    ensures
        calls.len() <= merged(calls, deltas).len(),
    decreases deltas.len(),
{
    if deltas.len() > 0 {
        lemma_merged_grows(calls, deltas.drop_last());
    }
}

proof fn lemma_no_fragments_beyond(calls: Seq<ToolCall>, deltas: Seq<ToolCallDelta>, k: int)
    requires
        merged(calls, deltas).len() <= k,
    ensures
        name_fragments(deltas, k) == Seq::<char>::empty(),
        argument_fragments(deltas, k) == Seq::<char>::empty(),
        last_id(deltas, k) is None,
    decreases deltas.len(),
{
    if deltas.len() > 0 {
        lemma_no_fragments_beyond(calls, deltas.drop_last(), k);
    }
}

} // verus!
