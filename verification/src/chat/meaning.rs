//! What the events of a stream tell of the chunks that were sent: nothing is
//! lost, nothing is made up, and nothing is changed on the way.

use crate::chat::events::delta_views;
use crate::chat::events::event_views;
use crate::chat::events::ApiError;
use crate::chat::events::ChatChoice;
use crate::chat::events::ChatChunk;
use crate::chat::events::ChatToolCallDelta;
use crate::chat::events::Choice;
use crate::chat::events::Chunk;
use crate::chat::events::Content;
use crate::chat::events::ContentItem;
use crate::chat::events::Event;
use crate::chat::events::Item;
use crate::chat::events::ResponseEvent;
use crate::chat::events::ResponseItem;
use crate::chat::events::TokenUsage;
use crate::chat::events::ToolCallDelta;
use crate::chat::laws::after_chunks;
use crate::chat::laws::chunks_events;
use crate::chat::stream::action_on;
use crate::chat::stream::after_chunk;
use crate::chat::stream::after_choice;
use crate::chat::stream::after_choices;
use crate::chat::stream::after_head;
use crate::chat::stream::after_input;
use crate::chat::stream::choice_addressable;
use crate::chat::stream::choice_events;
use crate::chat::stream::choices_events;
use crate::chat::stream::chunk_addressable;
use crate::chat::stream::chunk_events;
use crate::chat::stream::closing_events;
use crate::chat::stream::fresh_stream;
use crate::chat::stream::head_events;
use crate::chat::stream::reasoning_texts;
use crate::chat::stream::Action;
use crate::chat::stream::ChatStream;
use crate::chat::stream::Input;
use crate::chat::stream::SseAction;
use crate::chat::stream::SseInput;
use crate::chat::stream::Stream;
use crate::chat::tool_calls::merged;
use crate::chat::tool_calls::target;
use crate::chat::tool_calls::AggregatedToolCall;
use crate::chat::tool_calls::ToolCall;
use crate::text::decimal;
use crate::text::is_blank;
use crate::text::trimmed;
use vstd::prelude::*;

verus! {

/// What `pick` finds in the events, in order.
pub open spec fn picked<T>(events: Seq<Event>, pick: spec_fn(Event) -> Option<T>) -> Seq<T>
    decreases events.len(),
{
    if events.len() == 0 {
        Seq::empty()
    } else {
        match pick(events.last()) {
            Some(found) => picked(events.drop_last(), pick).push(found),
            None => picked(events.drop_last(), pick),
        }
    }
}

/// Finds the pieces of the answer.
pub open spec fn text_deltas() -> spec_fn(Event) -> Option<Seq<char>> {
    |event: Event|
        match event {
            Event::OutputTextDelta(text) => Some(text),
            _ => None,
        }
}

/// Finds the pieces of reasoning, each with the part it belongs to.
pub open spec fn reasoning_deltas() -> spec_fn(Event) -> Option<(Seq<char>, int)> {
    |event: Event|
        match event {
            Event::ReasoningSummaryDelta(text, part) => Some((text, part)),
            _ => None,
        }
}

/// Finds the parts that are opened.
pub open spec fn opened_parts() -> spec_fn(Event) -> Option<int> {
    |event: Event|
        match event {
            Event::ReasoningSummaryPartAdded(part) => Some(part),
            _ => None,
        }
}

/// Finds the models that are named.
pub open spec fn models() -> spec_fn(Event) -> Option<Seq<char>> {
    |event: Event|
        match event {
            Event::ServerModel(model) => Some(model),
            _ => None,
        }
}

/// Finds the items that are announced.
pub open spec fn added_items() -> spec_fn(Event) -> Option<Item> {
    |event: Event|
        match event {
            Event::OutputItemAdded(item) => Some(item),
            _ => None,
        }
}

/// Everything else is found too: the announcements of the response.
pub open spec fn announcements() -> spec_fn(Event) -> Option<()> {
    |event: Event|
        match event {
            Event::Created => Some(()),
            _ => None,
        }
}

/// The contents that choices bring, in order.
pub open spec fn choice_contents(choices: Seq<Choice>) -> Seq<Seq<char>>
    decreases choices.len(),
{
    if choices.len() == 0 {
        Seq::empty()
    } else {
        let before = choice_contents(choices.drop_last());
        match choices.last().content {
            Some(content) => before.push(content),
            None => before,
        }
    }
}

/// The contents that chunks bring, in order.
pub open spec fn contents(chunks: Seq<Chunk>) -> Seq<Seq<char>>
    decreases chunks.len(),
{
    if chunks.len() == 0 {
        Seq::empty()
    } else {
        contents(chunks.drop_last()) + choice_contents(chunks.last().choices)
    }
}

/// The reasoning texts among pieces that may be empty, in order.
pub open spec fn given_texts(details: Seq<Option<Seq<char>>>) -> Seq<(Seq<char>, int)>
    decreases details.len(),
{
    if details.len() == 0 {
        Seq::empty()
    } else {
        match details.last() {
            Some(text) => given_texts(details.drop_last()).push((text, 0)),
            None => given_texts(details.drop_last()),
        }
    }
}

/// The reasoning texts that choices bring, in order, all for the first part.
pub open spec fn choice_reasons(choices: Seq<Choice>) -> Seq<(Seq<char>, int)>
    decreases choices.len(),
{
    if choices.len() == 0 {
        Seq::empty()
    } else {
        let before = choice_reasons(choices.drop_last());
        match choices.last().reasoning {
            Some(details) => before + given_texts(details),
            None => before,
        }
    }
}

/// The reasoning texts that chunks bring, in order, all for the first part.
pub open spec fn reasons(chunks: Seq<Chunk>) -> Seq<(Seq<char>, int)>
    decreases chunks.len(),
{
    if chunks.len() == 0 {
        Seq::empty()
    } else {
        reasons(chunks.drop_last()) + choice_reasons(chunks.last().choices)
    }
}

/// The tool call fragments that choices bring, in order.
pub open spec fn choice_fragments(choices: Seq<Choice>) -> Seq<ToolCallDelta>
    decreases choices.len(),
{
    if choices.len() == 0 {
        Seq::empty()
    } else {
        let before = choice_fragments(choices.drop_last());
        match choices.last().tool_calls {
            Some(deltas) => before + deltas,
            None => before,
        }
    }
}

/// The tool call fragments that chunks bring, in order.
pub open spec fn fragments(chunks: Seq<Chunk>) -> Seq<ToolCallDelta>
    decreases chunks.len(),
{
    if chunks.len() == 0 {
        Seq::empty()
    } else {
        fragments(chunks.drop_last()) + choice_fragments(chunks.last().choices)
    }
}

/// The models that chunks bring, in order.
pub open spec fn sent_models(chunks: Seq<Chunk>) -> Seq<Seq<char>>
    decreases chunks.len(),
{
    if chunks.len() == 0 {
        Seq::empty()
    } else {
        let before = sent_models(chunks.drop_last());
        match chunks.last().model {
            Some(model) => before.push(model),
            None => before,
        }
    }
}

/// What is left of a list when repetitions of the one before are left out.
pub open spec fn without_repeats(list: Seq<Seq<char>>) -> Seq<Seq<char>>
    decreases list.len(),
{
    if list.len() == 0 {
        Seq::empty()
    } else {
        let before = without_repeats(list.drop_last());
        if list.len() > 1 && list[list.len() - 2] == list.last() {
            before
        } else {
            before.push(list.last())
        }
    }
}

/// Texts, one behind the other.
pub open spec fn run_together(texts: Seq<Seq<char>>) -> Seq<char>
    decreases texts.len(),
{
    if texts.len() == 0 {
        Seq::empty()
    } else {
        run_together(texts.drop_last()) + texts.last()
    }
}

proof fn lemma_picked_concat<T>(a: Seq<Event>, b: Seq<Event>, pick: spec_fn(Event) -> Option<T>)
    ensures
        picked(a + b, pick) == picked(a, pick) + picked(b, pick),
    decreases b.len(),
{
    if b.len() == 0 {
        assert(a + b == a);
        assert(picked(a, pick) + picked(b, pick) == picked(a, pick));
    } else {
        assert((a + b).drop_last() == a + b.drop_last());
        assert((a + b).last() == b.last());
        lemma_picked_concat(a, b.drop_last(), pick);
        assert(picked(a + b, pick) == picked(a, pick) + picked(b, pick));
    }
}

proof fn lemma_run_together_concat(a: Seq<Seq<char>>, b: Seq<Seq<char>>)
    ensures
        run_together(a + b) == run_together(a) + run_together(b),
    decreases b.len(),
{
    if b.len() == 0 {
        assert(a + b == a);
        assert(run_together(a) + run_together(b) == run_together(a));
    } else {
        assert((a + b).drop_last() == a + b.drop_last());
        assert((a + b).last() == b.last());
        lemma_run_together_concat(a, b.drop_last());
        assert(run_together(a + b) == run_together(a) + run_together(b));
    }
}

/// What a single choice tells, in this order: an item for the assistant where
/// one is needed and none is there, the reasoning, and the content as it came.
pub proof fn a_choice_tells_what_it_brings(s: Stream, choice: Choice)
    ensures
        ({
            let item = if (choice.content is Some || choice.reasoning is Some) && !s.active {
                seq![
                    Event::OutputItemAdded(
                        Item::Message {
                            id: None,
                            role: "assistant"@,
                            content: Seq::empty(),
                            end_turn: None,
                            phase: None,
                        },
                    ),
                ]
            } else {
                Seq::empty()
            };
            let texts = match choice.reasoning {
                Some(details) => given_texts(details),
                None => Seq::empty(),
            };
            let part = if texts.len() > 0 && !s.reasoning {
                seq![Event::ReasoningSummaryPartAdded(0)]
            } else {
                Seq::empty()
            };
            let reasoning = texts.map_values(
                |t: (Seq<char>, int)| Event::ReasoningSummaryDelta(t.0, t.1),
            );
            let content = match choice.content {
                Some(text) => seq![Event::OutputTextDelta(text)],
                None => Seq::empty(),
            };
            choice_events(s, choice) == item + part + reasoning + content
        }),
{
    if let Some(details) = choice.reasoning {
        lemma_given_texts(details);
        let texts = reasoning_texts(details);
        let given = given_texts(details);
        assert(texts.map_values(|t: Seq<char>| Event::ReasoningSummaryDelta(t, 0))
            == given.map_values(|t: (Seq<char>, int)| Event::ReasoningSummaryDelta(t.0, t.1)));
    } else {
        let none = Seq::<(Seq<char>, int)>::empty();
        assert(none.map_values(|t: (Seq<char>, int)| Event::ReasoningSummaryDelta(t.0, t.1))
            == Seq::<Event>::empty());
    }
}

proof fn lemma_given_texts(details: Seq<Option<Seq<char>>>)
    ensures
        given_texts(details).len() == reasoning_texts(details).len(),
        forall|i: int|
            0 <= i < given_texts(details).len() ==> #[trigger] given_texts(details)[i] == (
                reasoning_texts(details)[i],
                0int,
            ),
    decreases details.len(),
{
    if details.len() > 0 {
        lemma_given_texts(details.drop_last());
    }
}

proof fn lemma_picked_few(events: Seq<Event>)
    ensures
        events.len() == 0 ==> picked(events, text_deltas()).len() == 0,
        events.len() == 1 ==> picked(events, text_deltas()) == (match events[0] {
            Event::OutputTextDelta(text) => seq![text],
            _ => Seq::empty(),
        }),
{
    if events.len() == 1 {
        assert(events.drop_last().len() == 0);
        assert(picked(events.drop_last(), text_deltas()) == Seq::<Seq<char>>::empty());
        assert(events.last() == events[0]);
        assert(picked(events, text_deltas()) == (match events[0] {
            Event::OutputTextDelta(text) => seq![text],
            _ => Seq::empty(),
        }));
    }
}

/// Nothing is found in events of which `pick` finds nothing in any.
proof fn lemma_picked_none<T>(events: Seq<Event>, pick: spec_fn(Event) -> Option<T>)
    requires
        forall|i: int| 0 <= i < events.len() ==> pick(#[trigger] events[i]) is None,
    ensures
        picked(events, pick) == Seq::<T>::empty(),
    decreases events.len(),
{
    if events.len() > 0 {
        let less = events.drop_last();
        assert forall|i: int| 0 <= i < less.len() implies pick(#[trigger] less[i]) is None by {
            assert(less[i] == events[i]);
        }
        lemma_picked_none(less, pick);
        assert(events.last() == events[events.len() - 1]);
    }
}

/// The whole of events is found where `pick` finds something in each.
proof fn lemma_picked_all<T>(
    events: Seq<Event>,
    found: Seq<T>,
    pick: spec_fn(Event) -> Option<T>,
)
    requires
        events.len() == found.len(),
        forall|i: int| 0 <= i < events.len() ==> pick(#[trigger] events[i]) == Some(found[i]),
    ensures
        picked(events, pick) == found,
    decreases events.len(),
{
    if events.len() > 0 {
        let less = events.drop_last();
        assert forall|i: int| 0 <= i < less.len() implies pick(#[trigger] less[i]) == Some(
            found.drop_last()[i],
        ) by {
            assert(less[i] == events[i]);
        }
        lemma_picked_all(less, found.drop_last(), pick);
        assert(events.last() == events[events.len() - 1]);
        assert(found.drop_last().push(found.last()) == found);
    } else {
        assert(found == Seq::<T>::empty());
    }
}

proof fn lemma_one_choice(choice: Choice)
    ensures
        choice_contents(seq![choice]) == (match choice.content {
            Some(content) => seq![content],
            None => Seq::empty(),
        }),
        choice_reasons(seq![choice]) == (match choice.reasoning {
            Some(details) => given_texts(details),
            None => Seq::empty(),
        }),
{
    let one = seq![choice];
    assert(one.drop_last() == Seq::<Choice>::empty());
    assert(one.last() == choice);
    assert(choice_contents(one.drop_last()) == Seq::<Seq<char>>::empty());
    assert(choice_reasons(one.drop_last()) == Seq::<(Seq<char>, int)>::empty());
    assert(choice_reasons(one) == (match choice.reasoning {
        Some(details) => given_texts(details),
        None => Seq::empty(),
    }));
}

proof fn lemma_choice_picked(s: Stream, choice: Choice)
    ensures
        picked(choice_events(s, choice), text_deltas()) == choice_contents(seq![choice]),
        picked(choice_events(s, choice), reasoning_deltas()) == choice_reasons(seq![choice]),
        picked(choice_events(s, choice), models()) == Seq::<Seq<char>>::empty(),
{
    a_choice_tells_what_it_brings(s, choice);
    let one = seq![choice];
    lemma_one_choice(choice);
    let all = choice_events(s, choice);
    let item = if (choice.content is Some || choice.reasoning is Some) && !s.active {
        seq![
            Event::OutputItemAdded(
                Item::Message {
                    id: None,
                    role: "assistant"@,
                    content: Seq::empty(),
                    end_turn: None,
                    phase: None,
                },
            ),
        ]
    } else {
        Seq::empty()
    };
    let texts = match choice.reasoning {
        Some(details) => given_texts(details),
        None => Seq::empty(),
    };
    let part = if texts.len() > 0 && !s.reasoning {
        seq![Event::ReasoningSummaryPartAdded(0)]
    } else {
        Seq::empty()
    };
    let reasoning = texts.map_values(|t: (Seq<char>, int)| Event::ReasoningSummaryDelta(t.0, t.1));
    let content = match choice.content {
        Some(text) => seq![Event::OutputTextDelta(text)],
        None => Seq::empty(),
    };
    let front = item + part + reasoning;
    assert(all == front + content);
    // The answer.
    lemma_picked_concat(front, content, text_deltas());
    assert forall|i: int| 0 <= i < front.len() implies text_deltas()(#[trigger] front[i]) is None by {
        lemma_front_events(item, part, reasoning, i);
    }
    lemma_picked_none(front, text_deltas());
    lemma_picked_few(content);
    assert(picked(all, text_deltas()) == choice_contents(one));
    // The reasoning.
    lemma_picked_concat(front, content, reasoning_deltas());
    lemma_picked_none(content, reasoning_deltas());
    lemma_picked_concat(item + part, reasoning, reasoning_deltas());
    assert forall|i: int| 0 <= i < (item + part).len() implies reasoning_deltas()(
        #[trigger] (item + part)[i],
    ) is None by {}
    lemma_picked_none(item + part, reasoning_deltas());
    assert forall|i: int| 0 <= i < reasoning.len() implies reasoning_deltas()(
        #[trigger] reasoning[i],
    ) == Some(texts[i]) by {
        assert(reasoning[i] == Event::ReasoningSummaryDelta(texts[i].0, texts[i].1));
    }
    lemma_picked_all(reasoning, texts, reasoning_deltas());
    assert(picked(all, reasoning_deltas()) == choice_reasons(one));
    // The models.
    assert forall|i: int| 0 <= i < all.len() implies models()(#[trigger] all[i]) is None by {
        if i < front.len() {
            lemma_front_events(item, part, reasoning, i);
            assert(all[i] == front[i]);
        } else {
            assert(all[i] == content[i - front.len()]);
        }
    }
    lemma_picked_none(all, models());
}

proof fn lemma_front_events(item: Seq<Event>, part: Seq<Event>, reasoning: Seq<Event>, i: int)
    requires
        0 <= i < (item + part + reasoning).len(),
    ensures
        ({
            let event = (item + part + reasoning)[i];
            ||| exists|k: int| 0 <= k < item.len() && event == #[trigger] item[k]
            ||| exists|k: int| 0 <= k < part.len() && event == #[trigger] part[k]
            ||| exists|k: int| 0 <= k < reasoning.len() && event == #[trigger] reasoning[k]
        }),
{
    let event = (item + part + reasoning)[i];
    if i < item.len() {
        assert(event == item[i]);
    } else if i < item.len() + part.len() {
        assert(event == part[i - item.len()]);
    } else {
        assert(event == reasoning[i - item.len() - part.len()]);
    }
}

proof fn lemma_choices_picked(s: Stream, choices: Seq<Choice>)
    ensures
        picked(choices_events(s, choices), text_deltas()) == choice_contents(choices),
        picked(choices_events(s, choices), reasoning_deltas()) == choice_reasons(choices),
        picked(choices_events(s, choices), models()) == Seq::<Seq<char>>::empty(),
        after_choices(s, choices).text == s.text + run_together(choice_contents(choices)),
        after_choices(s, choices).calls == merged(s.calls, choice_fragments(choices)),
    decreases choices.len(),
{
    if choices.len() == 0 {
        assert(s.text + run_together(choice_contents(choices)) == s.text);
    } else {
        let less = choices.drop_last();
        let mid = after_choices(s, less);
        let last = choices.last();
        let one = seq![last];
        lemma_choices_picked(s, less);
        lemma_choice_picked(mid, last);
        lemma_one_choice(last);
        let before = choices_events(s, less);
        let now = choice_events(mid, last);
        lemma_picked_concat(before, now, text_deltas());
        lemma_picked_concat(before, now, reasoning_deltas());
        lemma_picked_concat(before, now, models());
        assert(choice_contents(choices) == choice_contents(less) + choice_contents(one));
        assert(choice_reasons(choices) == choice_reasons(less) + choice_reasons(one));
        lemma_run_together_concat(choice_contents(less), choice_contents(one));
        if let Some(content) = last.content {
            let just = seq![content];
            assert(choice_contents(one) == just);
            assert(just.drop_last() == Seq::<Seq<char>>::empty());
            assert(run_together(just.drop_last()) == Seq::<char>::empty());
            assert(run_together(just) == content);
            assert(mid.text + content == s.text + run_together(choice_contents(choices)));
        } else {
            assert(run_together(choice_contents(one)) == Seq::<char>::empty());
            assert(mid.text + Seq::<char>::empty() == mid.text);
            assert(after_choices(s, choices).text == mid.text + Seq::<char>::empty());
            assert(after_choices(s, choices).text == s.text + run_together(
                choice_contents(choices),
            ));
        }
        if let Some(deltas) = last.tool_calls {
            crate::chat::laws::fragments_may_arrive_in_parts(
                s.calls,
                choice_fragments(less),
                deltas,
            );
        }
    }
}

/// What the head of a chunk tells: the response, unless it was announced
/// before, and the model, unless it is the one that came last.
pub proof fn a_head_tells_what_it_brings(s: Stream, chunk: Chunk)
    ensures
        ({
            let created = if s.created {
                Seq::empty()
            } else {
                seq![Event::Created]
            };
            let model = match chunk.model {
                Some(model) => if s.model == Some(model) {
                    Seq::empty()
                } else {
                    seq![Event::ServerModel(model)]
                },
                None => Seq::empty(),
            };
            &&& head_events(s, chunk) == created + model
            &&& chunk_events(s, chunk) == created + model + choices_events(
                after_head(s, chunk),
                chunk.choices,
            )
        }),
{
}

/// Everything that is streamed of the answer is what was sent of it, piece by
/// piece and character by character: each content that came gives one delta
/// with exactly that content, and what the stream remembers is all of them,
/// one behind the other. The same holds of the reasoning.
pub proof fn the_answer_is_streamed_as_it_was_sent(s: Stream, chunks: Seq<Chunk>)
    ensures
        picked(chunks_events(s, chunks), text_deltas()) == contents(chunks),
        picked(chunks_events(s, chunks), reasoning_deltas()) == reasons(chunks),
        after_chunks(s, chunks).text == s.text + run_together(contents(chunks)),
    decreases chunks.len(),
{
    if chunks.len() == 0 {
        assert(s.text + run_together(contents(chunks)) == s.text);
    } else {
        let less = chunks.drop_last();
        let mid = after_chunks(s, less);
        let chunk = chunks.last();
        let head = after_head(mid, chunk);
        the_answer_is_streamed_as_it_was_sent(s, less);
        a_head_tells_what_it_brings(mid, chunk);
        lemma_choices_picked(head, chunk.choices);
        lemma_run_together_concat(contents(less), choice_contents(chunk.choices));
        let before = chunks_events(s, less);
        let now = chunk_events(mid, chunk);
        let start = head_events(mid, chunk);
        let rest = choices_events(head, chunk.choices);
        lemma_picked_concat(before, now, text_deltas());
        lemma_picked_concat(before, now, reasoning_deltas());
        lemma_picked_concat(start, rest, text_deltas());
        lemma_picked_concat(start, rest, reasoning_deltas());
        lemma_picked_none(start, text_deltas());
        lemma_picked_none(start, reasoning_deltas());
        assert(picked(now, text_deltas()) == choice_contents(chunk.choices));
        assert(picked(now, reasoning_deltas()) == choice_reasons(chunk.choices));
        assert(head.text == mid.text);
        assert(after_chunks(s, chunks).text == s.text + run_together(contents(chunks)));
    }
}

/// What is streamed of an answer, put together, is what was sent of it, put
/// together.
pub proof fn the_whole_answer_is_what_was_sent(chunks: Seq<Chunk>)
    ensures
        crate::chat::laws::streamed_text(chunks_events(fresh_stream(), chunks)) == run_together(
            contents(chunks),
        ),
        after_chunks(fresh_stream(), chunks).text == run_together(contents(chunks)),
{
    the_answer_is_streamed_as_it_was_sent(fresh_stream(), chunks);
    crate::chat::laws::remembered_text_is_what_was_streamed(chunks);
    let none = Seq::<char>::empty();
    assert(none + run_together(contents(chunks)) == run_together(contents(chunks)));
}

/// The calls that a stream holds are those that all the fragments that came
/// make, in the order in which they came, whichever chunk or choice brought
/// them.
pub proof fn a_stream_holds_the_calls_that_were_sent(s: Stream, chunks: Seq<Chunk>)
    ensures
        after_chunks(s, chunks).calls == merged(s.calls, fragments(chunks)),
        after_chunks(fresh_stream(), chunks).calls == merged(Seq::empty(), fragments(chunks)),
    decreases chunks.len(),
{
    lemma_stream_calls(s, chunks);
    lemma_stream_calls(fresh_stream(), chunks);
}

proof fn lemma_stream_calls(s: Stream, chunks: Seq<Chunk>)
    ensures
        after_chunks(s, chunks).calls == merged(s.calls, fragments(chunks)),
    decreases chunks.len(),
{
    if chunks.len() > 0 {
        let less = chunks.drop_last();
        let mid = after_chunks(s, less);
        let chunk = chunks.last();
        lemma_stream_calls(s, less);
        lemma_choices_picked(after_head(mid, chunk), chunk.choices);
        crate::chat::laws::fragments_may_arrive_in_parts(
            s.calls,
            fragments(less),
            choice_fragments(chunk.choices),
        );
    }
}

/// A model is named whenever one comes that is not the one that came before
/// it, and never else.
pub proof fn models_are_named_as_they_were_sent(chunks: Seq<Chunk>)
    ensures
        picked(chunks_events(fresh_stream(), chunks), models()) == without_repeats(
            sent_models(chunks),
        ),
        after_chunks(fresh_stream(), chunks).model == if sent_models(chunks).len() == 0 {
            None
        } else {
            Some(sent_models(chunks).last())
        },
    decreases chunks.len(),
{
    if chunks.len() > 0 {
        let less = chunks.drop_last();
        let s = fresh_stream();
        let mid = after_chunks(s, less);
        let chunk = chunks.last();
        let head = after_head(mid, chunk);
        models_are_named_as_they_were_sent(less);
        a_head_tells_what_it_brings(mid, chunk);
        lemma_choices_picked(head, chunk.choices);
        lemma_choices_keep_model(head, chunk.choices);
        let start = head_events(mid, chunk);
        let rest = choices_events(head, chunk.choices);
        lemma_picked_concat(chunks_events(s, less), chunk_events(mid, chunk), models());
        lemma_picked_concat(start, rest, models());
        let created = if mid.created {
            Seq::empty()
        } else {
            seq![Event::Created]
        };
        lemma_picked_none(created, models());
        let before = sent_models(less);
        let sent = sent_models(chunks);
        if let Some(model) = chunk.model {
            assert(sent.drop_last() == before);
            assert(sent.last() == model);
            if before.len() > 0 {
                assert(sent[sent.len() - 2] == before.last());
            }
            let named = seq![Event::ServerModel(model)];
            lemma_picked_concat(created, named, models());
            lemma_picked_all(named, seq![model], models());
            if mid.model == Some(model) {
                assert(start == created);
            } else {
                assert(start == created + named);
                assert(picked(start, models()) == seq![model]);
                assert(without_repeats(sent) == without_repeats(before) + seq![model]);
            }
        } else {
            assert(start == created);
        }
        assert(picked(chunks_events(s, chunks), models()) == without_repeats(sent));
    }
}

proof fn lemma_choices_keep_model(s: Stream, choices: Seq<Choice>)
    ensures
        after_choices(s, choices).model == s.model,
    decreases choices.len(),
{
    if choices.len() > 0 {
        lemma_choices_keep_model(s, choices.drop_last());
    }
}

/// What is told does not change when more comes: the events of a stream begin
/// with the events of each of its beginnings.
pub proof fn events_only_come_behind(s: Stream, chunks: Seq<Chunk>, k: int)
    requires
        0 <= k <= chunks.len(),
    ensures
        chunks_events(s, chunks.take(k)).is_prefix_of(chunks_events(s, chunks)),
    decreases chunks.len(),
{
    let all = chunks_events(s, chunks);
    if k == chunks.len() {
        assert(chunks.take(k) == chunks);
        assert(all.subrange(0, all.len() as int) == all);
    } else {
        let less = chunks.drop_last();
        events_only_come_behind(s, less, k);
        assert(less.take(k) == chunks.take(k));
        let front = chunks_events(s, chunks.take(k));
        let before = chunks_events(s, less);
        assert(all.subrange(0, front.len() as int) == before.subrange(0, front.len() as int));
    }
}

/// Some choice brings content or reasoning, be it empty.
pub open spec fn choices_stream(choices: Seq<Choice>) -> bool
    decreases choices.len(),
{
    choices.len() > 0 && (choices.last().content is Some || choices.last().reasoning is Some
        || choices_stream(choices.drop_last()))
}

/// Some chunk brings content or reasoning, be it empty.
pub open spec fn chunks_stream(chunks: Seq<Chunk>) -> bool
    decreases chunks.len(),
{
    chunks.len() > 0 && (choices_stream(chunks.last().choices) || chunks_stream(chunks.drop_last()))
}

/// The list of `it` alone, or the empty one.
pub open spec fn just_if<T>(wanted: bool, it: T) -> Seq<T> {
    if wanted {
        seq![it]
    } else {
        Seq::empty()
    }
}

/// The item that is announced: an assistant's message without content.
pub open spec fn announced_item() -> Item {
    Item::Message {
        id: None,
        role: "assistant"@,
        content: Seq::empty(),
        end_turn: None,
        phase: None,
    }
}

proof fn lemma_choice_marks(s: Stream, choice: Choice)
    ensures
        ({
            let texts = match choice.reasoning {
                Some(details) => given_texts(details),
                None => Seq::empty(),
            };
            let streams = choice.content is Some || choice.reasoning is Some;
            &&& picked(choice_events(s, choice), added_items()) == just_if(
                streams && !s.active,
                announced_item(),
            )
            &&& picked(choice_events(s, choice), opened_parts()) == just_if(
                texts.len() > 0 && !s.reasoning,
                0int,
            )
            &&& picked(choice_events(s, choice), announcements()) == Seq::<()>::empty()
            &&& after_choice(s, choice).active == (s.active || streams)
            &&& after_choice(s, choice).reasoning == (s.reasoning || texts.len() > 0)
            &&& after_choice(s, choice).created == s.created
        }),
{
    a_choice_tells_what_it_brings(s, choice);
    let streams = choice.content is Some || choice.reasoning is Some;
    let texts = match choice.reasoning {
        Some(details) => given_texts(details),
        None => Seq::empty(),
    };
    if let Some(details) = choice.reasoning {
        lemma_given_texts(details);
    }
    let item = just_if(streams && !s.active, Event::OutputItemAdded(announced_item()));
    let part = just_if(texts.len() > 0 && !s.reasoning, Event::ReasoningSummaryPartAdded(0));
    let reasoning = texts.map_values(|t: (Seq<char>, int)| Event::ReasoningSummaryDelta(t.0, t.1));
    let content = match choice.content {
        Some(text) => seq![Event::OutputTextDelta(text)],
        None => Seq::empty(),
    };
    let back = reasoning + content;
    let all = choice_events(s, choice);
    assert(all == item + (part + back));
    assert forall|i: int| 0 <= i < back.len() implies ({
        let event = #[trigger] back[i];
        event is ReasoningSummaryDelta || event is OutputTextDelta
    }) by {
        if i < reasoning.len() {
            assert(back[i] == reasoning[i]);
        } else {
            assert(back[i] == content[i - reasoning.len()]);
        }
    }
    lemma_picked_concat(item, part + back, added_items());
    lemma_picked_concat(part, back, added_items());
    lemma_picked_none(part, added_items());
    lemma_picked_none(back, added_items());
    lemma_picked_all(item, just_if(streams && !s.active, announced_item()), added_items());
    lemma_picked_concat(item, part + back, opened_parts());
    lemma_picked_concat(part, back, opened_parts());
    lemma_picked_none(item, opened_parts());
    lemma_picked_none(back, opened_parts());
    lemma_picked_all(part, just_if(texts.len() > 0 && !s.reasoning, 0int), opened_parts());
    lemma_picked_concat(item, part + back, announcements());
    lemma_picked_concat(part, back, announcements());
    lemma_picked_none(item, announcements());
    lemma_picked_none(part, announcements());
    lemma_picked_none(back, announcements());
}

proof fn lemma_choices_marks(s: Stream, choices: Seq<Choice>)
    ensures
        picked(choices_events(s, choices), added_items()) == just_if(
            choices_stream(choices) && !s.active,
            announced_item(),
        ),
        picked(choices_events(s, choices), opened_parts()) == just_if(
            choice_reasons(choices).len() > 0 && !s.reasoning,
            0int,
        ),
        picked(choices_events(s, choices), announcements()) == Seq::<()>::empty(),
        after_choices(s, choices).active == (s.active || choices_stream(choices)),
        after_choices(s, choices).reasoning == (s.reasoning || choice_reasons(choices).len() > 0),
        after_choices(s, choices).created == s.created,
    decreases choices.len(),
{
    if choices.len() > 0 {
        let less = choices.drop_last();
        let mid = after_choices(s, less);
        lemma_choices_marks(s, less);
        lemma_choice_marks(mid, choices.last());
        let before = choices_events(s, less);
        let now = choice_events(mid, choices.last());
        lemma_picked_concat(before, now, added_items());
        lemma_picked_concat(before, now, opened_parts());
        lemma_picked_concat(before, now, announcements());
    }
}

/// Beside what it streams, a stream announces the response once, with the
/// first chunk, the item once, if anything streams into it, and the first part
/// of the reasoning once, if there is any.
pub proof fn a_stream_announces_what_comes(s: Stream, chunks: Seq<Chunk>)
    ensures
        picked(chunks_events(s, chunks), announcements()) == just_if(
            chunks.len() > 0 && !s.created,
            (),
        ),
        picked(chunks_events(s, chunks), added_items()) == just_if(
            chunks_stream(chunks) && !s.active,
            Item::Message {
                id: None,
                role: "assistant"@,
                content: Seq::empty(),
                end_turn: None,
                phase: None,
            },
        ),
        picked(chunks_events(s, chunks), opened_parts()) == just_if(
            reasons(chunks).len() > 0 && !s.reasoning,
            0int,
        ),
        after_chunks(s, chunks).created == (s.created || chunks.len() > 0),
        after_chunks(s, chunks).active == (s.active || chunks_stream(chunks)),
        after_chunks(s, chunks).reasoning == (s.reasoning || reasons(chunks).len() > 0),
    decreases chunks.len(),
{
    if chunks.len() > 0 {
        let less = chunks.drop_last();
        let mid = after_chunks(s, less);
        let chunk = chunks.last();
        let head = after_head(mid, chunk);
        a_stream_announces_what_comes(s, less);
        a_head_tells_what_it_brings(mid, chunk);
        lemma_choices_marks(head, chunk.choices);
        let before = chunks_events(s, less);
        let created = just_if(!mid.created, Event::Created);
        let model = match chunk.model {
            Some(model) => just_if(mid.model != Some(model), Event::ServerModel(model)),
            None => Seq::empty(),
        };
        let rest = choices_events(head, chunk.choices);
        let now = chunk_events(mid, chunk);
        assert(now == created + (model + rest));
        lemma_picked_concat(before, now, added_items());
        lemma_picked_concat(created, model + rest, added_items());
        lemma_picked_concat(model, rest, added_items());
        lemma_picked_none(created, added_items());
        lemma_picked_none(model, added_items());
        lemma_picked_concat(before, now, opened_parts());
        lemma_picked_concat(created, model + rest, opened_parts());
        lemma_picked_concat(model, rest, opened_parts());
        lemma_picked_none(created, opened_parts());
        lemma_picked_none(model, opened_parts());
        lemma_picked_concat(before, now, announcements());
        lemma_picked_concat(created, model + rest, announcements());
        lemma_picked_concat(model, rest, announcements());
        lemma_picked_all(created, just_if(!mid.created, ()), announcements());
        lemma_picked_none(model, announcements());
    }
}

/// Whoever a fragment is addressed to: the position that it names, or the
/// first.
pub open spec fn addressed_to(delta: ToolCallDelta, k: int) -> bool {
    match delta.index {
        Some(index) => index == k,
        None => k == 0,
    }
}

/// The ids that fragments give the call at position `k`, in order.
pub open spec fn ids_for(deltas: Seq<ToolCallDelta>, k: int) -> Seq<Seq<char>>
    decreases deltas.len(),
{
    if deltas.len() == 0 {
        Seq::empty()
    } else {
        let before = ids_for(deltas.drop_last(), k);
        match deltas.last().id {
            Some(id) => if addressed_to(deltas.last(), k) {
                before.push(id)
            } else {
                before
            },
            None => before,
        }
    }
}

/// The pieces of the name that fragments give the call at position `k`.
pub open spec fn names_for(deltas: Seq<ToolCallDelta>, k: int) -> Seq<Seq<char>>
    decreases deltas.len(),
{
    if deltas.len() == 0 {
        Seq::empty()
    } else {
        let before = names_for(deltas.drop_last(), k);
        if addressed_to(deltas.last(), k) && deltas.last().function is Some
            && deltas.last().function->0.name is Some {
            before.push(deltas.last().function->0.name->0)
        } else {
            before
        }
    }
}

/// The pieces of the arguments that fragments give the call at position `k`.
pub open spec fn arguments_for(deltas: Seq<ToolCallDelta>, k: int) -> Seq<Seq<char>>
    decreases deltas.len(),
{
    if deltas.len() == 0 {
        Seq::empty()
    } else {
        let before = arguments_for(deltas.drop_last(), k);
        if addressed_to(deltas.last(), k) && deltas.last().function is Some
            && deltas.last().function->0.arguments is Some {
            before.push(deltas.last().function->0.arguments->0)
        } else {
            before
        }
    }
}

/// Each call has the last id that was given to it, and all the pieces of its
/// name and of its arguments, one behind the other. There are just as many
/// calls as the last position needs that was addressed.
pub proof fn calls_are_what_was_sent_for_them(deltas: Seq<ToolCallDelta>, k: int)
    ensures
        0 <= k < merged(Seq::empty(), deltas).len() ==> merged(Seq::empty(), deltas)[k] == (
        ToolCall {
            id: if ids_for(deltas, k).len() == 0 {
                None
            } else {
                Some(ids_for(deltas, k).last())
            },
            name: run_together(names_for(deltas, k)),
            arguments: run_together(arguments_for(deltas, k)),
        }),
        k >= merged(Seq::empty(), deltas).len() ==> ids_for(deltas, k).len() == 0 && names_for(
            deltas,
            k,
        ).len() == 0 && arguments_for(deltas, k).len() == 0,
        0 <= k < deltas.len() ==> exists|at: int|
            0 <= at < merged(Seq::empty(), deltas).len() && #[trigger] addressed_to(deltas[k], at),
        merged(Seq::empty(), deltas).len() > 0 ==> exists|i: int|
            0 <= i < deltas.len() && addressed_to(
                #[trigger] deltas[i],
                merged(Seq::empty(), deltas).len() - 1,
            ),
    decreases deltas.len(),
{
    let now = merged(Seq::empty(), deltas);
    if deltas.len() > 0 {
        let less = deltas.drop_last();
        let d = deltas.last();
        let before = merged(Seq::empty(), less);
        calls_are_what_was_sent_for_them(less, k);
        if before.len() > 0 {
            let i = choose|i: int|
                0 <= i < less.len() && addressed_to(#[trigger] less[i], before.len() - 1);
            assert(deltas[i] == less[i]);
        }
        let at: int = match d.index {
            Some(index) => index as int,
            None => 0,
        };
        assert(addressed_to(d, at));
        assert(deltas[deltas.len() - 1] == d);
        assert(at < now.len());
        if 0 <= k < less.len() {
            let was = choose|was: int|
                0 <= was < before.len() && #[trigger] addressed_to(less[k], was);
            assert(deltas[k] == less[k]);
            assert(addressed_to(deltas[k], was));
        }
        if 0 <= k < now.len() {
            let was = if k < before.len() {
                before[k]
            } else {
                ToolCall { id: None, name: Seq::empty(), arguments: Seq::empty() }
            };
            assert(was.name == run_together(names_for(less, k)));
            assert(was.arguments == run_together(arguments_for(less, k)));
            if addressed_to(d, k) {
                let names = names_for(deltas, k);
                let arguments = arguments_for(deltas, k);
                if names.len() > names_for(less, k).len() {
                    assert(names.drop_last() == names_for(less, k));
                } else {
                    assert(was.name + Seq::<char>::empty() == was.name);
                }
                if arguments.len() > arguments_for(less, k).len() {
                    assert(arguments.drop_last() == arguments_for(less, k));
                } else {
                    assert(was.arguments + Seq::<char>::empty() == was.arguments);
                }
                assert(now[k].name == run_together(names));
                assert(now[k].arguments == run_together(arguments));
            } else {
                assert(now[k] == was);
            }
        }
    }
}

/// The call has a name that is more than white space.
pub open spec fn has_name(call: ToolCall) -> bool {
    !is_blank(call.name)
}

/// How many of the calls have a name.
pub open spec fn calls_with_name(calls: Seq<ToolCall>) -> nat
    decreases calls.len(),
{
    if calls.len() == 0 {
        0
    } else if has_name(calls.last()) {
        calls_with_name(calls.drop_last()) + 1
    } else {
        calls_with_name(calls.drop_last())
    }
}

proof fn lemma_finished_calls(calls: Seq<ToolCall>, k: int)
    ensures
        crate::chat::completion::function_call_events(calls).len() == calls_with_name(calls),
        0 <= k < calls.len() && has_name(calls[k]) ==> calls_with_name(calls.take(k))
            < calls_with_name(calls) && crate::chat::completion::function_call_events(
            calls,
        )[calls_with_name(calls.take(k)) as int] == Event::OutputItemDone(
            Item::FunctionCall {
                id: None,
                name: calls[k].name,
                arguments: calls[k].arguments,
                call_id: match calls[k].id {
                    Some(id) => id,
                    None => "chat_tool_call_"@ + decimal(k as nat),
                },
                namespace: None,
            },
        ),
    decreases calls.len(),
{
    if calls.len() > 0 {
        let less = calls.drop_last();
        lemma_finished_calls(less, k);
        if 0 <= k < less.len() {
            assert(less.take(k) == calls.take(k));
        } else if k == less.len() {
            assert(calls.take(k) == less);
        }
    }
}

/// What is told when a stream is closed: every call that has a name, in order,
/// with its own id or one made of its position; behind them the text as one
/// message, unless it is blank; and last that the response is complete.
pub proof fn closing_tells_all_that_came(s: Stream, k: int)
    ensures
        ({
            let events = closing_events(s);
            let n = calls_with_name(s.calls) as int;
            let message = if is_blank(s.text) {
                0int
            } else {
                1int
            };
            &&& events.len() == n + message + 1
            &&& 0 <= k < s.calls.len() && has_name(s.calls[k]) ==> calls_with_name(s.calls.take(k))
                < n && events[calls_with_name(s.calls.take(k)) as int] == Event::OutputItemDone(
                Item::FunctionCall {
                    id: None,
                    name: s.calls[k].name,
                    arguments: s.calls[k].arguments,
                    call_id: match s.calls[k].id {
                        Some(id) => id,
                        None => "chat_tool_call_"@ + decimal(k as nat),
                    },
                    namespace: None,
                },
            )
            &&& !is_blank(s.text) ==> events[n] == Event::OutputItemDone(
                Item::Message {
                    id: None,
                    role: "assistant"@,
                    content: seq![Content::OutputText(s.text)],
                    end_turn: None,
                    phase: None,
                },
            )
            &&& events.last() == Event::Completed(
                match s.response_id {
                    Some(id) => id,
                    None => Seq::empty(),
                },
                s.usage,
            )
        }),
{
    lemma_finished_calls(s.calls, k);
    let events = closing_events(s);
    let calls = crate::chat::completion::function_call_events(s.calls);
    if 0 <= k < s.calls.len() && has_name(s.calls[k]) {
        let at = calls_with_name(s.calls.take(k)) as int;
        assert(events[at] == calls[at]);
    }
}

/// The ids that chunks bring, in order.
pub open spec fn sent_ids(chunks: Seq<Chunk>) -> Seq<Seq<char>>
    decreases chunks.len(),
{
    if chunks.len() == 0 {
        Seq::empty()
    } else {
        match chunks.last().id {
            Some(id) => sent_ids(chunks.drop_last()).push(id),
            None => sent_ids(chunks.drop_last()),
        }
    }
}

/// The token counts that chunks bring, in order, as they are reported.
pub open spec fn sent_usages(chunks: Seq<Chunk>) -> Seq<TokenUsage>
    decreases chunks.len(),
{
    if chunks.len() == 0 {
        Seq::empty()
    } else {
        let before = sent_usages(chunks.drop_last());
        match chunks.last().usage {
            Some(usage) => before.push(
                TokenUsage {
                    input_tokens: usage.prompt_tokens,
                    cached_input_tokens: 0,
                    output_tokens: usage.completion_tokens,
                    reasoning_output_tokens: 0,
                    total_tokens: usage.total_tokens,
                },
            ),
            None => before,
        }
    }
}

/// A stream keeps the first id and the last token counts that were sent.
pub proof fn first_ids_and_last_counts_stay(chunks: Seq<Chunk>)
    ensures
        after_chunks(fresh_stream(), chunks).response_id == if sent_ids(chunks).len() == 0 {
            None
        } else {
            Some(sent_ids(chunks).first())
        },
        after_chunks(fresh_stream(), chunks).usage == if sent_usages(chunks).len() == 0 {
            None
        } else {
            Some(sent_usages(chunks).last())
        },
    decreases chunks.len(),
{
    if chunks.len() > 0 {
        let less = chunks.drop_last();
        first_ids_and_last_counts_stay(less);
        let head = after_head(after_chunks(fresh_stream(), less), chunks.last());
        lemma_choices_keep_rest(head, chunks.last().choices);
        if let Some(id) = chunks.last().id {
            if sent_ids(less).len() > 0 {
                assert(sent_ids(less).push(id).first() == sent_ids(less).first());
            }
        }
    }
}

proof fn lemma_choices_keep_rest(s: Stream, choices: Seq<Choice>)
    ensures
        after_choices(s, choices).response_id == s.response_id,
        after_choices(s, choices).usage == s.usage,
    decreases choices.len(),
{
    if choices.len() > 0 {
        lemma_choices_keep_rest(s, choices.drop_last());
    }
}

/// A whole answer, from the first chunk to the close: if it is more than white
/// space, it is finished as one message with exactly the contents that were
/// sent, one behind the other.
pub proof fn the_answer_is_finished_as_it_was_sent(chunks: Seq<Chunk>)
    ensures
        ({
            let s = after_chunks(fresh_stream(), chunks);
            let answer = run_together(contents(chunks));
            let calls = merged(Seq::empty(), fragments(chunks));
            let n = calls_with_name(calls) as int;
            &&& s.calls == calls
            &&& !is_blank(answer) ==> closing_events(s).len() == n + 2 && closing_events(s)[n]
                == Event::OutputItemDone(
                Item::Message {
                    id: None,
                    role: "assistant"@,
                    content: seq![Content::OutputText(answer)],
                    end_turn: None,
                    phase: None,
                },
            )
            &&& is_blank(answer) ==> closing_events(s).len() == n + 1
        }),
{
    the_whole_answer_is_what_was_sent(chunks);
    a_stream_holds_the_calls_that_were_sent(fresh_stream(), chunks);
    closing_tells_all_that_came(after_chunks(fresh_stream(), chunks), 0);
}

/// Before anything has come, a stream holds nothing.
pub proof fn fresh_streams_hold_nothing()
    ensures
        ({
            let s = fresh_stream();
            &&& !s.created && !s.active && !s.reasoning
            &&& s.response_id is None && s.usage is None && s.model is None
            &&& s.text.len() == 0 && s.calls.len() == 0
        }),
{
}

/// How a stream takes each thing that happens: a chunk is taken in and told; data
/// is handed on unchanged to be decoded, unless it is the mark of the end,
/// possibly between white space; the mark and a closed connection close the
/// stream; and what breaks it is reported in its own words. Nothing but a
/// chunk changes what the stream holds.
pub proof fn inputs_are_answered(s: Stream, input: Input)
    ensures
        match input {
            Input::Decoded(Some(chunk)) => {
                &&& after_input(s, input) == after_chunks(s, seq![chunk])
                &&& action_on(s, input) == Action::Continue(chunks_events(s, seq![chunk]))
            },
            Input::Decoded(None) => {
                &&& after_input(s, input) == s
                &&& action_on(s, input) == Action::Continue(Seq::empty())
            },
            Input::Event(data) => {
                &&& after_input(s, input) == s
                &&& trimmed(data) == "[DONE]"@ ==> action_on(s, input) == Action::Finish(
                    closing_events(s),
                )
                &&& trimmed(data) != "[DONE]"@ ==> action_on(s, input) == Action::Decode(data)
            },
            Input::Closed => {
                &&& after_input(s, input) == s
                &&& action_on(s, input) == Action::Finish(closing_events(s))
            },
            Input::Broken(message) => {
                &&& after_input(s, input) == s
                &&& action_on(s, input) == Action::Fail(message)
            },
            Input::IdleTimeout => {
                &&& after_input(s, input) == s
                &&& action_on(s, input) == Action::Fail("idle timeout waiting for SSE"@)
            },
        },
{
    if let Input::Decoded(Some(chunk)) = input {
        let one = seq![chunk];
        assert(one.drop_last() == Seq::<Chunk>::empty());
        assert(one.last() == chunk);
        assert(after_chunks(s, one.drop_last()) == s);
        assert(chunks_events(s, one.drop_last()) == Seq::<Event>::empty());
        assert(chunks_events(s, one) == chunk_events(s, chunk));
        assert(after_chunks(s, one) == after_chunk(s, chunk));
    }
}

/// A chunk can be taken in exactly if no fragment in it is addressed to the
/// last position that there is, or, to put it so, every fragment leaves room
/// for a list that reaches up to its position.
pub proof fn chunks_can_be_taken_in_that_leave_room(chunk: Chunk)
    ensures
        chunk_addressable(chunk) <==> forall|i: int, k: int|
            0 <= i < chunk.choices.len() && chunk.choices[i].tool_calls is Some && 0 <= k
                < chunk.choices[i].tool_calls->0.len() ==> {
                let index = (#[trigger] chunk.choices[i].tool_calls->0[k]).index;
                index is Some ==> index->0 != usize::MAX
            },
{
    let fits = forall|i: int, k: int|
        0 <= i < chunk.choices.len() && chunk.choices[i].tool_calls is Some && 0 <= k
            < chunk.choices[i].tool_calls->0.len() ==> {
            let index = (#[trigger] chunk.choices[i].tool_calls->0[k]).index;
            index is Some ==> index->0 != usize::MAX
        };
    if fits {
        assert forall|i: int| 0 <= i < chunk.choices.len() implies choice_addressable(
            #[trigger] chunk.choices[i],
        ) by {
            if let Some(deltas) = chunk.choices[i].tool_calls {
                assert forall|k: int| 0 <= k < deltas.len() implies target(#[trigger] deltas[k])
                    < usize::MAX by {
                    let index = chunk.choices[i].tool_calls->0[k].index;
                    assert(index is Some ==> index->0 != usize::MAX);
                }
            }
        }
    }
    if chunk_addressable(chunk) {
        assert forall|i: int, k: int|
            0 <= i < chunk.choices.len() && chunk.choices[i].tool_calls is Some && 0 <= k
                < chunk.choices[i].tool_calls->0.len() implies {
            let index = (#[trigger] chunk.choices[i].tool_calls->0[k]).index;
            index is Some ==> index->0 != usize::MAX
        } by {
            assert(choice_addressable(chunk.choices[i]));
            assert(target(chunk.choices[i].tool_calls->0[k]) < usize::MAX);
        }
    }
}

/// What a chunk holds is all that it holds, unchanged; of a choice, all but
/// its index and the reason why it finished, which are not used.
pub proof fn chunks_are_seen_as_they_are(chunk: ChatChunk, i: int)
    ensures
        chunk@.id == (match chunk.id {
            Some(id) => Some(id@),
            None => None,
        }),
        chunk@.model == (match chunk.model {
            Some(model) => Some(model@),
            None => None,
        }),
        chunk@.usage == chunk.usage,
        chunk@.choices.len() == chunk.choices@.len(),
        0 <= i < chunk.choices@.len() ==> chunk@.choices[i] == chunk.choices@[i]@,
{
}

/// What a choice holds is what its delta holds, unchanged.
pub proof fn choices_are_seen_as_they_are(choice: ChatChoice, i: int)
    ensures
        choice@.content == (match choice.delta.content {
            Some(content) => Some(content@),
            None => None,
        }),
        choice@.tool_calls is Some <==> choice.delta.tool_calls is Some,
        choice.delta.tool_calls matches Some(deltas) ==> {
            &&& choice@.tool_calls->0.len() == deltas@.len()
            &&& 0 <= i < deltas@.len() ==> choice@.tool_calls->0[i] == deltas@[i]@
        },
        choice@.reasoning is Some <==> choice.delta.reasoning_details is Some,
        choice.delta.reasoning_details matches Some(details) ==> {
            &&& choice@.reasoning->0.len() == details@.len()
            &&& 0 <= i < details@.len() ==> choice@.reasoning->0[i] == (match details@[i].text {
                Some(text) => Some(text@),
                None => None,
            })
        },
{
}

/// What a fragment holds is what it holds, unchanged; so with lists of them.
pub proof fn fragments_are_seen_as_they_are(
    deltas: Seq<ChatToolCallDelta>,
    call: AggregatedToolCall,
    i: int,
)
    requires
        0 <= i < deltas.len(),
    ensures
        delta_views(deltas).len() == deltas.len(),
        delta_views(deltas)[i] == deltas[i]@,
        deltas[i]@.index == deltas[i].index,
        deltas[i]@.id == (match deltas[i].id {
            Some(id) => Some(id@),
            None => None,
        }),
        deltas[i]@.function is Some <==> deltas[i].function is Some,
        deltas[i].function matches Some(function) ==> {
            &&& deltas[i]@.function->0.name == (match function.name {
                Some(name) => Some(name@),
                None => None,
            })
            &&& deltas[i]@.function->0.arguments == (match function.arguments {
                Some(arguments) => Some(arguments@),
                None => None,
            })
        },
        call@.id == (match call.id {
            Some(id) => Some(id@),
            None => None,
        }),
        call@.name == call.name@,
        call@.arguments == call.arguments@,
{
}

/// What an item holds is what it holds, unchanged.
pub proof fn items_are_seen_as_they_are(item: ResponseItem, i: int)
    ensures
        item matches ResponseItem::Message { id, role, content, end_turn, phase } ==> {
            &&& item@ is Message
            &&& item@->Message_id == (match id {
                Some(id) => Some(id@),
                None => None,
            })
            &&& item@->role == role@
            &&& item@->content.len() == content@.len()
            &&& 0 <= i < content@.len() ==> (content@[i] matches ContentItem::OutputText { text }
                && item@->content[i] == Content::OutputText(text@))
            &&& item@->end_turn == end_turn
            &&& item@->phase == (match phase {
                Some(phase) => Some(phase@),
                None => None,
            })
        },
        item matches ResponseItem::FunctionCall { id, name, arguments, call_id, namespace } ==> item@
            == (Item::FunctionCall {
            id: match id {
                Some(id) => Some(id@),
                None => None,
            },
            name: name@,
            arguments: arguments@,
            call_id: call_id@,
            namespace: match namespace {
                Some(namespace) => Some(namespace@),
                None => None,
            },
        }),
{
}

/// What an event holds is what it holds, unchanged; so with lists of them.
pub proof fn events_are_seen_as_they_are(events: Seq<ResponseEvent>, i: int)
    requires
        0 <= i < events.len(),
    ensures
        event_views(events).len() == events.len(),
        event_views(events)[i] == (match events[i] {
            ResponseEvent::Created => Event::Created,
            ResponseEvent::ServerModel(model) => Event::ServerModel(model@),
            ResponseEvent::OutputItemAdded(item) => Event::OutputItemAdded(item@),
            ResponseEvent::ReasoningSummaryPartAdded { summary_index } =>
                Event::ReasoningSummaryPartAdded(summary_index as int),
            ResponseEvent::ReasoningSummaryDelta { delta, summary_index } =>
                Event::ReasoningSummaryDelta(delta@, summary_index as int),
            ResponseEvent::OutputTextDelta(text) => Event::OutputTextDelta(text@),
            ResponseEvent::OutputItemDone(item) => Event::OutputItemDone(item@),
            ResponseEvent::Completed { response_id, token_usage } => Event::Completed(
                response_id@,
                token_usage,
            ),
        }),
{
}

/// What a stream, an input and an action hold is what they hold, unchanged.
pub proof fn streams_are_seen_as_they_are(
    stream: ChatStream,
    input: SseInput,
    action: SseAction,
    i: int,
)
    ensures
        stream@.created == stream.created_emitted,
        stream@.active == stream.active_item_emitted,
        stream@.reasoning == stream.reasoning_part_emitted,
        stream@.usage == stream.usage,
        stream@.text == stream.assistant_text@,
        stream@.response_id == (match stream.response_id {
            Some(id) => Some(id@),
            None => None,
        }),
        stream@.model == (match stream.last_server_model {
            Some(model) => Some(model@),
            None => None,
        }),
        stream@.calls.len() == stream.tool_calls@.len(),
        0 <= i < stream.tool_calls@.len() ==> stream@.calls[i] == stream.tool_calls@[i]@,
        input@ == (match input {
            SseInput::Event { data } => Input::Event(data@),
            SseInput::Broken { message } => Input::Broken(message@),
            SseInput::Closed => Input::Closed,
            SseInput::IdleTimeout => Input::IdleTimeout,
            SseInput::Decoded { chunk: Some(chunk) } => Input::Decoded(Some(chunk@)),
            SseInput::Decoded { chunk: None } => Input::Decoded(None),
        }),
        action@ == (match action {
            SseAction::Decode { data } => Action::Decode(data@),
            SseAction::Continue { events } => Action::Continue(event_views(events@)),
            SseAction::Finish { events } => Action::Finish(event_views(events@)),
            SseAction::Fail { error: ApiError::Stream(message) } => Action::Fail(message@),
        }),
{
}

} // verus!
