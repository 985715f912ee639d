//! The tool correlation registry.
//!
//! The native engine refers to a tool by a small integer. The registry maps
//! those integers to the names that the caller gave, and collects the tool
//! calls that the engine makes while it generates.

use crate::ident::fresh_uuid;
use crate::json::{json_of_members, json_parsed, member_views, object_value, parse_json};
use crate::text::{decimal, decimal_text, join};
use crate::types::{AppleAIToolDefinition, ToolDefinitionView};
use std::collections::HashMap;
use vstd::prelude::*;

verus! {

broadcast use vstd::std_specs::hash::group_hash_axioms;

/// A tool call that the engine made: the id given to the call, the name of
/// the tool, and the decoded arguments.
#[derive(Clone, Debug, PartialEq)]
pub struct RecordedToolCall {
    pub call_id: String,
    pub tool_name: String,
    pub args: serde_json::Value,
}

pub struct RecordedToolCallView {
    pub call_id: Seq<char>,
    pub tool_name: Seq<char>,
    pub args: serde_json::Value,
}

impl View for RecordedToolCall {
    type V = RecordedToolCallView;

    open spec fn view(&self) -> RecordedToolCallView {
        RecordedToolCallView { call_id: self.call_id@, tool_name: self.tool_name@, args: self.args }
    }
}

impl DeepView for RecordedToolCall {
    type V = RecordedToolCallView;

    open spec fn deep_view(&self) -> RecordedToolCallView {
        self@
    }
}

/// The answer that the engine gets to a tool call, at once: an empty JSON
/// object. The tool's real result reaches the caller by another way.
#[derive(Clone, Debug, PartialEq)]
pub struct ToolAck {
    pub tool_id: u64,
    pub result_json: String,
}

/// The registry: tool names by identifier, and the calls made so far.
pub struct ToolRegistry {
    pub names: HashMap<u64, String>,
    pub calls: Vec<RecordedToolCall>,
}

pub struct RegistryView {
    pub names: Map<u64, Seq<char>>,
    pub calls: Seq<RecordedToolCallView>,
}

impl View for ToolRegistry {
    type V = RegistryView;

    open spec fn view(&self) -> RegistryView {
        RegistryView {
            names: self.names@.map_values(|name: String| name@),
            calls: self.calls.deep_view(),
        }
    }
}

/// The mapping that a list of tools is given: the tool at position `i`,
/// counted from zero, has the identifier `i + 1`.
pub open spec fn registered_names(tools: Seq<ToolDefinitionView>) -> Map<u64, Seq<char>> {
    Map::new(|id: u64| 1 <= id <= tools.len(), |id: u64| tools[id - 1].name)
}

/// The name made up for an identifier that the registry does not know.
pub open spec fn placeholder_name(tool_id: u64) -> Seq<char> {
    "tool-"@ + decimal_text(tool_id as nat)
}

/// The name that an identifier resolves to: the registered one, or else the
/// placeholder.
pub open spec fn resolved_name(names: Map<u64, Seq<char>>, tool_id: u64) -> Seq<char> {
    if names.contains_key(tool_id) {
        names[tool_id]
    } else {
        placeholder_name(tool_id)
    }
}

/// The JSON object without members.
pub open spec fn empty_object() -> serde_json::Value {
    json_of_members(Seq::empty())
}

/// The arguments of a tool call, decoded: what the payload parses to, or the
/// empty object when there is no payload or it is not JSON.
pub open spec fn decoded_args(args_json: Option<Seq<char>>) -> serde_json::Value {
    match args_json {
        Some(raw) => match json_parsed(raw) {
            Ok(value) => value,
            Err(_) => empty_object(),
        },
        None => empty_object(),
    }
}

/// The id of a tool call, made from a fresh identifier.
pub open spec fn call_id_for(fresh: Seq<char>) -> Seq<char> {
    "tool-call-"@ + fresh
}

/// The call that is recorded when the engine invokes `tool_id` with the
/// payload `args_json`, under the id `call_id`.
pub open spec fn recorded_call(
    names: Map<u64, Seq<char>>,
    tool_id: u64,
    args_json: Option<Seq<char>>,
    call_id: Seq<char>,
) -> RecordedToolCallView {
    RecordedToolCallView {
        call_id,
        tool_name: resolved_name(names, tool_id),
        args: decoded_args(args_json),
    }
}

/// Builds the empty JSON object.
pub fn empty_object_value() -> (value: serde_json::Value)
    ensures
        value == empty_object(),
{
    let members: Vec<(String, serde_json::Value)> = Vec::new();
    assert(member_views(members@) =~= Seq::empty());
    object_value(members)
}

/// Decodes the arguments of a tool call. A missing or malformed payload
/// gives the empty object.
pub fn decode_args(args_json: &Option<String>) -> (args: serde_json::Value)
    ensures
        args == decoded_args(args_json.deep_view()),
{
    match args_json {
        Some(raw) => match parse_json(raw.as_str()) {
            Ok(value) => value,
            Err(_) => empty_object_value(),
        },
        None => empty_object_value(),
    }
}

impl ToolRegistry {
    /// An empty registry.
    pub fn new() -> (registry: ToolRegistry)
        ensures
            registry@.names == Map::<u64, Seq<char>>::empty(),
            registry@.calls == Seq::<RecordedToolCallView>::empty(),
    {
        ToolRegistry { names: HashMap::new(), calls: Vec::new() }
    }

    /// Forgets every name.
    pub fn clear_names(&mut self)
        ensures
            final(self)@.names == Map::<u64, Seq<char>>::empty(),
            final(self)@.calls == old(self)@.calls,
    {
        self.names.clear();
    }

    /// Forgets every recorded call.
    pub fn clear_calls(&mut self)
        ensures
            final(self)@.names == old(self)@.names,
            final(self)@.calls == Seq::<RecordedToolCallView>::empty(),
    {
        self.calls.clear();
    }

    /// Replaces the names by those of `tools`: the tool at position `i`,
    /// counted from zero, gets the identifier `i + 1`. Nothing of an earlier
    /// registration is left.
    pub fn register(&mut self, tools: &Vec<AppleAIToolDefinition>)
        ensures
            final(self)@.names == registered_names(tools.deep_view()),
            final(self)@.calls == old(self)@.calls,
    {
        self.names.clear();
        let mut index: usize = 0;
        while index < tools.len()
            invariant
                index <= tools.len(),
                self.calls == old(self).calls,
                forall|id: u64| self.names@.contains_key(id) <==> 1 <= id <= index,
                forall|id: u64| 1 <= id <= index ==> (#[trigger] self.names@[id])@ == tools[id - 1].name@,
            decreases tools.len() - index,
        {
            let id: u64 = (index + 1) as u64;
            self.names.insert(id, tools[index].name.clone());
            index += 1;
        }
    }

    /// The name of the tool with the identifier `tool_id`. An identifier
    /// that is not registered gets a placeholder name; this never fails.
    pub fn resolve(&self, tool_id: u64) -> (name: String)
        ensures
            name@ == resolved_name(self@.names, tool_id),
    {
        match self.names.get(&tool_id) {
            Some(name) => name.clone(),
            None => {
                let digits = decimal(tool_id);
                join("tool-", digits.as_str())
            },
        }
    }

    /// Records the invocation of `tool_id` with the payload `args_json`
    /// under the id `call_id`, and returns the answer for the engine.
    pub fn record_invocation(&mut self, tool_id: u64, args_json: &Option<String>, call_id: String) -> (ack:
        ToolAck)
        ensures
            final(self)@.names == old(self)@.names,
            final(self)@.calls == old(self)@.calls.push(
                recorded_call(old(self)@.names, tool_id, args_json.deep_view(), call_id@),
            ),
            ack.tool_id == tool_id,
            ack.result_json@ == "{}"@,
    {
        let args = decode_args(args_json);
        let tool_name = self.resolve(tool_id);
        self.calls.push(RecordedToolCall { call_id, tool_name, args });
        ToolAck { tool_id, result_json: "{}".to_owned() }
    }

    /// Takes the recorded calls out, in the order in which they were made,
    /// and leaves none behind.
    pub fn drain(&mut self) -> (calls: Vec<RecordedToolCall>)
        ensures
            calls.deep_view() == old(self)@.calls,
            final(self)@.names == old(self)@.names,
            final(self)@.calls == Seq::<RecordedToolCallView>::empty(),
    {
        let mut calls: Vec<RecordedToolCall> = Vec::new();
        std::mem::swap(&mut self.calls, &mut calls);
        calls
    }
}

/// Handles a tool invocation by the engine: gives the call a fresh id,
/// records it, and returns the answer for the engine. The id is random; the
/// rest of the record is what [`recorded_call`] says.
pub fn tool_callback(registry: &mut ToolRegistry, tool_id: u64, args_json: &Option<String>) -> (ack:
    ToolAck)
    ensures
        final(registry)@.names == old(registry)@.names,
        exists|fresh: Seq<char>|
            fresh.len() == 36 && final(registry)@.calls == old(registry)@.calls.push(
                recorded_call(
                    old(registry)@.names,
                    tool_id,
                    args_json.deep_view(),
                    #[trigger] call_id_for(fresh),
                ),
            ),
        ack.tool_id == tool_id,
        ack.result_json@ == "{}"@,
{
    let fresh = fresh_uuid();
    let call_id = join("tool-call-", fresh.as_str());
    assert(call_id@ == call_id_for(fresh@));
    registry.record_invocation(tool_id, args_json, call_id)
}

} // verus!
