use apple_ai_bridge::decode::{
    decode_function, decode_tool_call, decode_tool_calls, generate, result_from_json,
};
use apple_ai_bridge::types::{
    AppleAIError, AppleAIGenerateResult, AppleAIToolCall, AppleAIToolCallFunction,
};

fn json(text: &str) -> serde_json::Value {
    serde_json::from_str::<serde_json::Value>(text).unwrap()
}

fn call(id: &str, call_type: &str, name: &str, arguments: &str) -> AppleAIToolCall {
    AppleAIToolCall {
        id: id.to_string(),
        call_type: call_type.to_string(),
        function: AppleAIToolCallFunction {
            name: name.to_string(),
            arguments: arguments.to_string(),
        },
    }
}

#[test]
fn generate_unwraps_a_native_error() {
    assert_eq!(
        generate(Some("Error: bad input")),
        Err(AppleAIError::NativeError("bad input".to_string()))
    );
}

#[test]
fn generate_keeps_the_whole_remainder_of_a_native_error() {
    assert_eq!(generate(Some("Error: ")), Err(AppleAIError::NativeError(String::new())));
    assert_eq!(
        generate(Some("Error: Error: twice")),
        Err(AppleAIError::NativeError("Error: twice".to_string()))
    );
    assert_eq!(
        generate(Some("Error: {\"text\":\"x\"}")),
        Err(AppleAIError::NativeError("{\"text\":\"x\"}".to_string()))
    );
}

#[test]
fn generate_without_a_result_is_a_native_error() {
    assert_eq!(
        generate(None),
        Err(AppleAIError::NativeError("generation returned null".to_string()))
    );
}

#[test]
fn generate_rejects_what_is_not_json() {
    for raw in ["", "not json", "{\"text\":", "{} {}", "Error:", "error: x"] {
        let expected = serde_json::from_str::<serde_json::Value>(raw).unwrap_err().to_string();
        assert!(!expected.is_empty());
        assert_eq!(generate(Some(raw)), Err(AppleAIError::InvalidPayload(expected)));
    }
}

#[test]
fn generate_reports_the_parser_message() {
    assert_eq!(
        generate(Some("not json")),
        Err(AppleAIError::InvalidPayload("expected ident at line 1 column 2".to_string()))
    );
}

#[test]
fn generate_reads_the_three_members() {
    let raw = "{\"text\":\"Hello\",\"toolCalls\":[{\"id\":\"c1\",\"type\":\"function\",\"function\":{\"name\":\"lookup\",\"arguments\":\"{\\\"q\\\":1}\"}}],\"object\":{\"answer\":42}}";
    assert_eq!(
        generate(Some(raw)),
        Ok(AppleAIGenerateResult {
            text: "Hello".to_string(),
            tool_calls: Some(vec![call("c1", "function", "lookup", "{\"q\":1}")]),
            object: Some(json("{\"answer\":42}")),
        })
    );
}

#[test]
fn generate_defaults_every_member() {
    let empty = AppleAIGenerateResult { text: String::new(), tool_calls: None, object: None };
    assert_eq!(generate(Some("{}")), Ok(empty.clone()));
    assert_eq!(generate(Some("  {\"other\": 1}  ")), Ok(empty.clone()));
    assert_eq!(generate(Some("[]")), Ok(empty.clone()));
    assert_eq!(generate(Some("\"just text\"")), Ok(empty.clone()));
    assert_eq!(generate(Some("null")), Ok(empty));
}

#[test]
fn generate_treats_text_that_is_no_string_as_empty() {
    let result = generate(Some("{\"text\":5}")).unwrap();
    assert_eq!(result.text, "");
    let result = generate(Some("{\"text\":null}")).unwrap();
    assert_eq!(result.text, "");
    let result = generate(Some("{\"text\":[\"a\"]}")).unwrap();
    assert_eq!(result.text, "");
}

#[test]
fn generate_passes_the_object_on_verbatim() {
    let result = generate(Some("{\"object\":null}")).unwrap();
    assert_eq!(result.object, Some(serde_json::Value::Null));
    let result = generate(Some("{\"object\":[1,\"two\",{\"three\":3.5}]}")).unwrap();
    assert_eq!(result.object, Some(json("[1,\"two\",{\"three\":3.5}]")));
    let result = generate(Some("{\"object\":\"Error: not an error\"}")).unwrap();
    assert_eq!(result.object, Some(json("\"Error: not an error\"")));
}

#[test]
fn generate_treats_malformed_tool_calls_as_absent() {
    let cases = [
        "{\"text\":\"t\",\"toolCalls\":null}",
        "{\"text\":\"t\",\"toolCalls\":\"none\"}",
        "{\"text\":\"t\",\"toolCalls\":{\"id\":\"c\"}}",
        "{\"text\":\"t\",\"toolCalls\":[{\"id\":\"c1\"}]}",
        "{\"text\":\"t\",\"toolCalls\":[{\"id\":1,\"type\":\"function\",\"function\":{\"name\":\"n\",\"arguments\":\"a\"}}]}",
        "{\"text\":\"t\",\"toolCalls\":[{\"id\":\"c\",\"type\":\"function\",\"function\":{\"name\":\"n\"}}]}",
        "{\"text\":\"t\",\"toolCalls\":[{\"id\":\"c\",\"type\":\"function\",\"function\":{\"name\":\"n\",\"arguments\":{}}}]}",
        "{\"text\":\"t\",\"toolCalls\":[{\"id\":\"c\",\"call_type\":\"function\",\"function\":{\"name\":\"n\",\"arguments\":\"a\"}}]}",
    ];
    for raw in cases {
        let result = generate(Some(raw)).unwrap();
        assert_eq!(result.text, "t");
        assert_eq!(result.tool_calls, None);
    }
}

#[test]
fn generate_drops_all_tool_calls_when_one_is_malformed() {
    let raw = "{\"toolCalls\":[{\"id\":\"c1\",\"type\":\"function\",\"function\":{\"name\":\"n\",\"arguments\":\"a\"}},{\"id\":\"c2\"}]}";
    assert_eq!(generate(Some(raw)).unwrap().tool_calls, None);
}

#[test]
fn generate_accepts_an_empty_list_of_tool_calls() {
    assert_eq!(generate(Some("{\"toolCalls\":[]}")).unwrap().tool_calls, Some(Vec::new()));
}

#[test]
fn decode_tool_calls_keeps_the_order() {
    let value = json(
        "[{\"id\":\"a\",\"type\":\"function\",\"function\":{\"name\":\"one\",\"arguments\":\"1\"}},{\"id\":\"b\",\"type\":\"function\",\"function\":{\"name\":\"two\",\"arguments\":\"2\"}},{\"id\":\"c\",\"type\":\"other\",\"function\":{\"name\":\"three\",\"arguments\":\"3\"}}]",
    );
    assert_eq!(
        decode_tool_calls(&value),
        Some(vec![
            call("a", "function", "one", "1"),
            call("b", "function", "two", "2"),
            call("c", "other", "three", "3"),
        ])
    );
}

#[test]
fn decode_tool_call_ignores_unknown_members() {
    let value = json(
        "{\"extra\":true,\"id\":\"a\",\"type\":\"function\",\"function\":{\"name\":\"n\",\"arguments\":\"{}\",\"more\":[1]}}",
    );
    assert_eq!(decode_tool_call(&value), Some(call("a", "function", "n", "{}")));
}

#[test]
fn decode_tool_call_accepts_the_positional_form() {
    let value = json("[\"a\",\"function\",{\"name\":\"n\",\"arguments\":\"{}\"}]");
    assert_eq!(decode_tool_call(&value), Some(call("a", "function", "n", "{}")));
    let value = json("[\"a\",\"function\",[\"n\",\"{}\"]]");
    assert_eq!(decode_tool_call(&value), Some(call("a", "function", "n", "{}")));
    let value = json("{\"id\":\"a\",\"type\":\"function\",\"function\":[\"n\",\"{}\"]}");
    assert_eq!(decode_tool_call(&value), Some(call("a", "function", "n", "{}")));
}

#[test]
fn decode_tool_call_rejects_a_positional_form_of_the_wrong_length() {
    assert_eq!(decode_tool_call(&json("[]")), None);
    assert_eq!(decode_tool_call(&json("[\"a\",\"function\"]")), None);
    assert_eq!(
        decode_tool_call(&json("[\"a\",\"function\",[\"n\",\"{}\"],\"extra\"]")),
        None
    );
    assert_eq!(decode_tool_call(&json("[\"a\",\"function\",[\"n\"]]")), None);
    assert_eq!(decode_tool_call(&json("[\"a\",\"function\",[\"n\",\"{}\",\"x\"]]")), None);
    assert_eq!(decode_tool_call(&json("[\"a\",2,[\"n\",\"{}\"]]")), None);
}

#[test]
fn decode_tool_call_rejects_values_that_are_no_record() {
    assert_eq!(decode_tool_call(&json("null")), None);
    assert_eq!(decode_tool_call(&json("\"a\"")), None);
    assert_eq!(decode_tool_call(&json("7")), None);
    assert_eq!(decode_tool_call(&json("{}")), None);
}

#[test]
fn decode_function_reads_name_and_arguments() {
    assert_eq!(
        decode_function(&json("{\"name\":\"n\",\"arguments\":\"{\\\"k\\\":1}\"}")),
        Some(AppleAIToolCallFunction {
            name: "n".to_string(),
            arguments: "{\"k\":1}".to_string()
        })
    );
    assert_eq!(decode_function(&json("{\"name\":\"n\"}")), None);
    assert_eq!(decode_function(&json("{\"arguments\":\"a\"}")), None);
    assert_eq!(decode_function(&json("{\"name\":null,\"arguments\":\"a\"}")), None);
    assert_eq!(decode_function(&json("\"n\"")), None);
}

#[test]
fn result_from_json_reads_a_parsed_document() {
    let parsed = json("{\"text\":\"hi\",\"object\":{\"k\":[true]}}");
    assert_eq!(
        result_from_json(&parsed),
        AppleAIGenerateResult {
            text: "hi".to_string(),
            tool_calls: None,
            object: Some(json("{\"k\":[true]}")),
        }
    );
}

#[test]
fn generate_reads_text_beyond_ascii() {
    let result = generate(Some("{\"text\":\"caf\\u00e9 ✓ \\\"quoted\\\"\"}")).unwrap();
    assert_eq!(result.text, "café ✓ \"quoted\"");
}
