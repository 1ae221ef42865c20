//! Tool calls put together from the fragments that a stream delivers.

use crate::chat::events::delta_views;
use crate::chat::events::ChatToolCallDelta;
use crate::chat::events::ToolCallDelta;
use crate::text::opt_text;
use vstd::prelude::*;

verus! {

/// A tool call as far as its fragments have arrived.
#[derive(Debug)]
pub struct AggregatedToolCall {
    pub id: Option<String>,
    pub name: String,
    pub arguments: String,
}

/// What a tool call holds.
pub ghost struct ToolCall {
    pub id: Option<Seq<char>>,
    pub name: Seq<char>,
    pub arguments: Seq<char>,
}

impl View for AggregatedToolCall {
    type V = ToolCall;

    open spec fn view(&self) -> ToolCall {
        ToolCall { id: opt_text(self.id), name: self.name@, arguments: self.arguments@ }
    }
}

/// What a list of tool calls holds.
pub open spec fn call_views(calls: Seq<AggregatedToolCall>) -> Seq<ToolCall> {
    calls.map_values(|c: AggregatedToolCall| c@)
}

/// The tool call of which nothing has arrived.
pub open spec fn empty_call() -> ToolCall {
    ToolCall { id: None, name: Seq::empty(), arguments: Seq::empty() }
}

impl Default for AggregatedToolCall {
    fn default() -> (r: AggregatedToolCall)
        ensures
            r@ == empty_call(),
    {
        AggregatedToolCall { id: None, name: String::new(), arguments: String::new() }
    }
}

/// The position that a fragment is addressed to.
pub open spec fn target(delta: ToolCallDelta) -> int {
    match delta.index {
        Some(index) => index as int,
        None => 0,
    }
}

/// The piece of the function's name that a fragment carries.
pub open spec fn name_part(delta: ToolCallDelta) -> Seq<char> {
    match delta.function {
        Some(f) => match f.name {
            Some(name) => name,
            None => Seq::empty(),
        },
        None => Seq::empty(),
    }
}

/// The piece of the arguments that a fragment carries.
pub open spec fn arguments_part(delta: ToolCallDelta) -> Seq<char> {
    match delta.function {
        Some(f) => match f.arguments {
            Some(arguments) => arguments,
            None => Seq::empty(),
        },
        None => Seq::empty(),
    }
}

/// `call` once `delta` has been added to it: a new id replaces the old one,
/// names and arguments grow at their end.
pub open spec fn extended(call: ToolCall, delta: ToolCallDelta) -> ToolCall {
    ToolCall {
        id: if delta.id is Some {
            delta.id
        } else {
            call.id
        },
        name: call.name + name_part(delta),
        arguments: call.arguments + arguments_part(delta),
    }
}

/// `calls` with as many empty calls behind as reach a length of `len`.
pub open spec fn padded(calls: Seq<ToolCall>, len: int) -> Seq<ToolCall> {
    Seq::new(
        if len <= calls.len() {
            calls.len()
        } else {
            len as nat
        },
        |i: int|
            if i < calls.len() {
                calls[i]
            } else {
                empty_call()
            },
    )
}

/// `calls` once `delta` has arrived.
pub open spec fn merged_one(calls: Seq<ToolCall>, delta: ToolCallDelta) -> Seq<ToolCall> {
    let at = target(delta);
    let grown = padded(calls, at + 1);
    grown.update(at, extended(grown[at], delta))
}

/// `calls` once `deltas` have arrived, in their order.
pub open spec fn merged(calls: Seq<ToolCall>, deltas: Seq<ToolCallDelta>) -> Seq<ToolCall>
    decreases deltas.len(),
{
    if deltas.len() == 0 {
        calls
    } else {
        merged_one(merged(calls, deltas.drop_last()), deltas.last())
    }
}

/// Every fragment is addressed to a position that a list can have.
pub open spec fn addressable(deltas: Seq<ToolCallDelta>) -> bool {
    forall|i: int| 0 <= i < deltas.len() ==> target(#[trigger] deltas[i]) < usize::MAX
}

/// Whether every fragment is addressed to a position that a list can have.
pub fn are_addressable(deltas: &Vec<ChatToolCallDelta>) -> (r: bool)
    ensures
        r == addressable(delta_views(deltas@)),
{
    let ghost all = delta_views(deltas@);
    let mut i: usize = 0;
    while i < deltas.len()
        invariant
            i <= deltas@.len(),
            all == delta_views(deltas@),
            forall|k: int| 0 <= k < i ==> target(#[trigger] all[k]) < usize::MAX,
        decreases deltas@.len() - i,
    {
        assert(all[i as int] == deltas@[i as int]@);
        if let Some(index) = deltas[i].index {
            if index == usize::MAX {
                return false;
            }
        }
        i = i + 1;
    }
    true
}

/// Adds tool call fragments to the calls they are addressed to. A call is
/// opened, with every call before it, when its first fragment arrives.
pub fn merge_tool_call_deltas(
    aggregated: &mut Vec<AggregatedToolCall>,
    deltas: Vec<ChatToolCallDelta>,
)
    requires
        addressable(delta_views(deltas@)),
    ensures
        call_views(final(aggregated)@) == merged(call_views(old(aggregated)@), delta_views(deltas@)),
{
    let ghost start = call_views(aggregated@);
    let ghost all = delta_views(deltas@);
    for delta in it: deltas
        invariant
            it.seq() == deltas@,
            all == delta_views(deltas@),
            addressable(all),
            call_views(aggregated@) == merged(start, all.take(it.index() as int)),
    {
        let ghost k = it.index() as int;
        let ghost before = call_views(aggregated@);
        let ghost d = delta@;
        assert(all[k] == d);
        assert(target(d) < usize::MAX);
        let index: usize = match delta.index {
            Some(index) => index,
            None => 0,
        };
        while aggregated.len() <= index
            invariant
                index < usize::MAX,
                call_views(aggregated@) == padded(before, aggregated@.len() as int),
                before.len() <= aggregated@.len(),
                aggregated@.len() <= index + 1 || aggregated@.len() == before.len(),
            decreases index + 1 - aggregated@.len(),
        {
            let ghost was = aggregated@;
            aggregated.push(AggregatedToolCall::default());
            proof {
                let now = call_views(aggregated@);
                let wanted = padded(before, aggregated@.len() as int);
                assert forall|i: int| 0 <= i < now.len() implies #[trigger] now[i]
                    == wanted[i] by {
                    if i < was.len() {
                        assert(now[i] == call_views(was)[i]);
                    }
                }
                assert(now == wanted);
            }
        }
        let ghost grown = call_views(aggregated@);
        assert(grown == padded(before, index + 1));
        let entry = &mut aggregated[index];
        if let Some(id) = delta.id {
            entry.id = Some(id);
        }
        if let Some(function) = delta.function {
            if let Some(name) = function.name {
                if entry.name.as_str().is_empty() {
                    entry.name = name;
                } else {
                    entry.name.append(name.as_str());
                }
            }
            if let Some(arguments) = function.arguments {
                entry.arguments.append(arguments.as_str());
            }
        }
        proof {
            assert(call_views(aggregated@)[index as int] == extended(grown[index as int], d));
            assert(call_views(aggregated@) == merged_one(before, d));
            assert(all.take(k + 1).drop_last() == all.take(k));
        }
    }
    assert(all.take(all.len() as int) == all);
}

} // verus!
