use apple_ai_bridge::registry::{decode_args, empty_object_value, tool_callback, ToolRegistry};
use apple_ai_bridge::types::AppleAIToolDefinition;

fn tool(name: &str) -> AppleAIToolDefinition {
    AppleAIToolDefinition {
        name: name.to_string(),
        description: None,
        parameters: empty_object_value(),
    }
}

fn parse(text: &str) -> serde_json::Value {
    serde_json::from_str::<serde_json::Value>(text).unwrap()
}

#[test]
fn new_registry_is_empty() {
    let registry = ToolRegistry::new();
    assert!(registry.names.is_empty());
    assert!(registry.calls.is_empty());
}

#[test]
fn register_assigns_identifiers_in_declaration_order() {
    let mut registry = ToolRegistry::new();
    let tools = vec![tool("search"), tool("weather"), tool("calendar")];
    registry.register(&tools);
    assert_eq!(registry.names.len(), 3);
    assert_eq!(registry.names.get(&1), Some(&"search".to_string()));
    assert_eq!(registry.names.get(&2), Some(&"weather".to_string()));
    assert_eq!(registry.names.get(&3), Some(&"calendar".to_string()));
    assert_eq!(registry.names.get(&0), None);
    assert_eq!(registry.names.get(&4), None);
}

#[test]
fn every_registered_identifier_resolves_to_its_tool() {
    let names = ["a", "b", "c", "d", "e", "f", "g", "h", "i", "j", "k", "l"];
    let tools: Vec<AppleAIToolDefinition> = names.iter().map(|n| tool(n)).collect();
    let mut registry = ToolRegistry::new();
    registry.register(&tools);
    for (index, name) in names.iter().enumerate() {
        assert_eq!(registry.resolve((index + 1) as u64), *name);
    }
}

#[test]
fn register_replaces_an_earlier_registration() {
    let mut registry = ToolRegistry::new();
    registry.register(&vec![tool("old-one"), tool("old-two"), tool("old-three")]);
    registry.register(&vec![tool("new-one")]);
    assert_eq!(registry.names.len(), 1);
    assert_eq!(registry.resolve(1), "new-one");
    assert_eq!(registry.resolve(2), "tool-2");
    assert_eq!(registry.resolve(3), "tool-3");
}

#[test]
fn register_keeps_tools_with_equal_names_apart() {
    let mut registry = ToolRegistry::new();
    registry.register(&vec![tool("same"), tool("same")]);
    assert_eq!(registry.names.len(), 2);
    assert_eq!(registry.resolve(1), "same");
    assert_eq!(registry.resolve(2), "same");
}

#[test]
fn unknown_identifier_resolves_to_a_placeholder() {
    let mut registry = ToolRegistry::new();
    assert_eq!(registry.resolve(7), "tool-7");
    registry.register(&vec![tool("only")]);
    assert_eq!(registry.resolve(0), "tool-0");
    assert_eq!(registry.resolve(2), "tool-2");
    assert_eq!(registry.resolve(1234), "tool-1234");
    assert_eq!(registry.resolve(u64::MAX), "tool-18446744073709551615");
}

#[test]
fn decode_args_parses_a_json_payload() {
    let args = decode_args(&Some("{\"city\":\"Paris\",\"days\":3}".to_string()));
    assert_eq!(args, parse("{\"city\":\"Paris\",\"days\":3}"));
    assert_eq!(args.get("city").and_then(|v| v.as_str()), Some("Paris"));
    assert_eq!(args.get("days").and_then(|v| v.as_u64()), Some(3));
}

#[test]
fn decode_args_accepts_any_json_document() {
    assert_eq!(decode_args(&Some("[1,2]".to_string())), parse("[1,2]"));
    assert_eq!(decode_args(&Some("\"text\"".to_string())), parse("\"text\""));
    assert_eq!(decode_args(&Some("null".to_string())), serde_json::Value::Null);
}

#[test]
fn decode_args_falls_back_to_the_empty_object() {
    let empty = serde_json::Value::Object(serde_json::Map::new());
    assert_eq!(decode_args(&None), empty);
    assert_eq!(decode_args(&Some(String::new())), empty);
    assert_eq!(decode_args(&Some("{not json".to_string())), empty);
    assert_eq!(decode_args(&Some("{} trailing".to_string())), empty);
}

#[test]
fn empty_object_value_is_an_object_without_members() {
    let value = empty_object_value();
    assert!(value.is_object());
    assert_eq!(value.as_object().map(|m| m.len()), Some(0));
    assert_eq!(serde_json::to_string(&value).unwrap(), "{}");
}

#[test]
fn record_invocation_appends_the_call_and_acknowledges() {
    let mut registry = ToolRegistry::new();
    registry.register(&vec![tool("search"), tool("weather")]);
    let ack = registry.record_invocation(2, &Some("{\"q\":1}".to_string()), "call-a".to_string());
    assert_eq!(ack.tool_id, 2);
    assert_eq!(ack.result_json, "{}");
    assert_eq!(registry.calls.len(), 1);
    assert_eq!(registry.calls[0].call_id, "call-a");
    assert_eq!(registry.calls[0].tool_name, "weather");
    assert_eq!(registry.calls[0].args, parse("{\"q\":1}"));
    assert_eq!(registry.names.len(), 2);
}

#[test]
fn record_invocation_of_unknown_tool_never_fails() {
    let mut registry = ToolRegistry::new();
    let ack = registry.record_invocation(9, &None, "call-b".to_string());
    assert_eq!(ack.tool_id, 9);
    assert_eq!(ack.result_json, "{}");
    assert_eq!(registry.calls.len(), 1);
    assert_eq!(registry.calls[0].tool_name, "tool-9");
    assert_eq!(registry.calls[0].args, serde_json::Value::Object(serde_json::Map::new()));
}

#[test]
fn record_invocation_keeps_the_order_of_calls() {
    let mut registry = ToolRegistry::new();
    registry.register(&vec![tool("a"), tool("b")]);
    registry.record_invocation(2, &None, "first".to_string());
    registry.record_invocation(1, &None, "second".to_string());
    registry.record_invocation(2, &None, "third".to_string());
    let ids: Vec<&str> = registry.calls.iter().map(|c| c.call_id.as_str()).collect();
    let names: Vec<&str> = registry.calls.iter().map(|c| c.tool_name.as_str()).collect();
    assert_eq!(ids, vec!["first", "second", "third"]);
    assert_eq!(names, vec!["b", "a", "b"]);
}

#[test]
fn drain_returns_the_calls_and_leaves_none() {
    let mut registry = ToolRegistry::new();
    registry.register(&vec![tool("a")]);
    registry.record_invocation(1, &None, "one".to_string());
    registry.record_invocation(5, &None, "two".to_string());
    let drained = registry.drain();
    assert_eq!(drained.len(), 2);
    assert_eq!(drained[0].call_id, "one");
    assert_eq!(drained[0].tool_name, "a");
    assert_eq!(drained[1].call_id, "two");
    assert_eq!(drained[1].tool_name, "tool-5");
    assert!(registry.calls.is_empty());
    assert_eq!(registry.resolve(1), "a");
    assert!(registry.drain().is_empty());
}

#[test]
fn clear_names_and_clear_calls_are_independent() {
    let mut registry = ToolRegistry::new();
    registry.register(&vec![tool("a")]);
    registry.record_invocation(1, &None, "one".to_string());
    registry.clear_names();
    assert!(registry.names.is_empty());
    assert_eq!(registry.calls.len(), 1);
    registry.register(&vec![tool("b")]);
    registry.clear_calls();
    assert!(registry.calls.is_empty());
    assert_eq!(registry.resolve(1), "b");
}

#[test]
fn tool_callback_records_under_a_fresh_call_id() {
    let mut registry = ToolRegistry::new();
    registry.register(&vec![tool("search")]);
    let ack = tool_callback(&mut registry, 1, &Some("{\"q\":\"rust\"}".to_string()));
    assert_eq!(ack.tool_id, 1);
    assert_eq!(ack.result_json, "{}");
    assert_eq!(registry.calls.len(), 1);
    let call = &registry.calls[0];
    assert_eq!(call.tool_name, "search");
    assert_eq!(call.args, parse("{\"q\":\"rust\"}"));
    assert!(call.call_id.starts_with("tool-call-"));
    let fresh = &call.call_id["tool-call-".len()..];
    assert_eq!(fresh.chars().count(), 36);
    assert!(fresh.chars().all(|c| c == '-' || c.is_ascii_digit() || ('a'..='f').contains(&c)));
    assert_eq!(fresh.chars().filter(|c| *c == '-').count(), 4);
}

#[test]
fn tool_callback_gives_each_call_its_own_id() {
    let mut registry = ToolRegistry::new();
    tool_callback(&mut registry, 1, &None);
    tool_callback(&mut registry, 1, &None);
    tool_callback(&mut registry, 1, &None);
    assert_eq!(registry.calls.len(), 3);
    assert_ne!(registry.calls[0].call_id, registry.calls[1].call_id);
    assert_ne!(registry.calls[1].call_id, registry.calls[2].call_id);
    assert_ne!(registry.calls[0].call_id, registry.calls[2].call_id);
}
