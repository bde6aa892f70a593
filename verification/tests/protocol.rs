use aws_toolkit::dispatcher::{Dispatch, Dispatcher};
use aws_toolkit::jsonrpc::{invoke_payload, tool_response, CallParams, InvokePayload, JsonRpcMessage, JsonRpcResponse, RpcResult};
use aws_toolkit::manifest::{all_tools, ParamKind};
use serde_json::Value;

fn num(i: i64) -> Value {
    Value::from(i)
}

fn make_msg(method: &str, id: Option<i64>, params: Option<CallParams>) -> JsonRpcMessage {
    JsonRpcMessage {
        jsonrpc: Some("2.0".into()),
        id: id.map(num),
        method: Some(method.into()),
        params,
    }
}

fn call(name: Option<&str>) -> Option<CallParams> {
    Some(CallParams {
        name: name.map(|n| n.to_string()),
        arguments: Some(serde_json::from_str("{}").unwrap()),
    })
}

fn reply<H>(d: Dispatch<'_, H>) -> JsonRpcResponse {
    match d {
        Dispatch::Reply(r) => r,
        _ => panic!("expected a reply"),
    }
}

#[test]
fn initialize_returns_protocol_version() {
    let d: Dispatcher<u32> = Dispatcher::new();
    let resp = reply(d.dispatch(make_msg("initialize", Some(0), None)));
    match resp.result.unwrap() {
        RpcResult::Initialize(info) => {
            assert_eq!(info.protocol_version, "2024-11-05");
            assert!(info.offers_tools);
            assert_eq!(info.server_name, "zed-aws-toolkit");
            assert_eq!(info.server_version, "0.5.0");
        }
        _ => panic!("expected the initialize result"),
    }
}

#[test]
fn tools_list_returns_22_tools() {
    let d: Dispatcher<u32> = Dispatcher::new();
    let resp = reply(d.dispatch(make_msg("tools/list", Some(1), None)));
    match resp.result.unwrap() {
        RpcResult::ToolsList(tools) => assert_eq!(tools.len(), 22),
        _ => panic!("expected the tool list"),
    }
}

#[test]
fn tools_call_known_tool() {
    let mut d: Dispatcher<fn(Value) -> Value> = Dispatcher::new();
    fn pong(_: Value) -> Value {
        serde_json::from_str(r#"{"pong": true}"#).unwrap()
    }
    d.register("ping_tool".to_string(), pong);
    match d.dispatch(make_msg("tools/call", Some(2), call(Some("ping_tool")))) {
        Dispatch::Call(c) => {
            assert_eq!(c.name, "ping_tool");
            assert_eq!(c.id, Some(num(2)));
            let data = (c.handler)(c.arguments.unwrap());
            let text = serde_json::to_string(&data).unwrap();
            let resp = tool_response(c.id, Ok(text));
            match resp.result.unwrap() {
                RpcResult::ToolText(t) => assert!(t.contains("pong")),
                _ => panic!("expected tool text"),
            }
        }
        _ => panic!("expected a tool call"),
    }
}

#[test]
fn later_registration_replaces_earlier() {
    let mut d: Dispatcher<u32> = Dispatcher::new();
    d.register("t".to_string(), 1);
    d.register("u".to_string(), 2);
    d.register("t".to_string(), 3);
    match d.dispatch(make_msg("tools/call", Some(9), call(Some("t")))) {
        Dispatch::Call(c) => assert_eq!(*c.handler, 3),
        _ => panic!("expected a tool call"),
    }
    assert_eq!(d.lookup(&"u".to_string()), Some(&2));
    assert_eq!(d.lookup(&"v".to_string()), None);
}

#[test]
fn tools_call_unknown_tool_returns_error() {
    let d: Dispatcher<u32> = Dispatcher::new();
    let resp = reply(d.dispatch(make_msg("tools/call", Some(3), call(Some("nope")))));
    assert!(resp.error.is_some());
    let e = resp.error.unwrap();
    assert_eq!(e.code, -32601);
    assert_eq!(e.message, "unknown tool: nope");
}

#[test]
fn tools_call_without_name_is_invalid_params() {
    let d: Dispatcher<u32> = Dispatcher::new();
    let resp = reply(d.dispatch(make_msg("tools/call", Some(3), call(None))));
    let e = resp.error.unwrap();
    assert_eq!(e.code, -32602);
    assert_eq!(e.message, "missing params.name");
}

#[test]
fn notification_returns_none() {
    let d: Dispatcher<u32> = Dispatcher::new();
    let notif = JsonRpcMessage {
        jsonrpc: Some("2.0".into()),
        id: None,
        method: Some("notifications/initialized".into()),
        params: None,
    };
    assert!(matches!(d.dispatch(notif), Dispatch::NoReply));
}

#[test]
fn unknown_method_returns_error() {
    let d: Dispatcher<u32> = Dispatcher::new();
    let resp = reply(d.dispatch(make_msg("unknown/method", Some(4), None)));
    assert!(resp.error.is_some());
    let e = resp.error.unwrap();
    assert_eq!(e.code, -32601);
    assert_eq!(e.message, "method not found: unknown/method");
}

#[test]
fn ping_answers_empty_result() {
    let d: Dispatcher<u32> = Dispatcher::new();
    let resp = reply(d.dispatch(make_msg("ping", Some(5), None)));
    assert!(matches!(resp.result, Some(RpcResult::Empty)));
    assert!(resp.error.is_none());
    assert_eq!(resp.id, Some(num(5)));
}

#[test]
fn serialize_result() {
    let r = JsonRpcResponse::result(Some(num(1)), RpcResult::Empty);
    assert_eq!(r.jsonrpc, "2.0");
    assert!(r.result.is_some());
    assert!(r.error.is_none());
}

#[test]
fn serialize_error_response() {
    let r = JsonRpcResponse::error(Some(num(1)), -32601, "method not found".to_string());
    assert!(r.error.is_some());
    assert_eq!(r.error.unwrap().code, -32601);
}

#[test]
fn failed_tool_gives_tool_error_code() {
    let r = tool_response(Some(num(7)), Err("boom".to_string()));
    let e = r.error.unwrap();
    assert_eq!(e.code, -32000);
    assert_eq!(e.message, "boom");
    assert!(r.result.is_none());
}

#[test]
fn all_tools_returns_22_tools() {
    let tools = all_tools();
    assert_eq!(tools.len(), 22);
}

#[test]
fn every_tool_has_name_description_input_schema() {
    let tools = all_tools();
    for tool in tools.iter() {
        assert!(!tool.name.is_empty(), "missing name: {}", tool.name);
        assert!(!tool.description.is_empty(), "missing description: {}", tool.name);
    }
}

#[test]
fn required_params_are_arrays() {
    let tools = all_tools();
    for tool in tools.iter() {
        for r in tool.required.iter() {
            assert!(tool.params.iter().any(|p| &p.name == r), "required must be declared: {}", tool.name);
        }
    }
}

#[test]
fn manifest_names_and_kinds() {
    let tools = all_tools();
    assert_eq!(tools[0].name, "list_accounts");
    assert_eq!(tools[21].name, "ecr_list_images");
    let invoke = tools.iter().find(|t| t.name == "lambda_invoke").unwrap();
    assert_eq!(invoke.params[1].kind.schema_type(), "object");
    assert!(matches!(invoke.params[0].kind, ParamKind::Text));
    let mut names: Vec<&String> = tools.iter().map(|t| &t.name).collect();
    names.sort();
    names.dedup();
    assert_eq!(names.len(), 22);
}

#[test]
fn invoke_payload_parses_json_or_keeps_text() {
    match invoke_payload("{\"ok\": 1}".to_string()) {
        InvokePayload::Json(v) => assert_eq!(v["ok"], 1),
        InvokePayload::Text(_) => panic!("expected JSON"),
    }
    match invoke_payload("plain words".to_string()) {
        InvokePayload::Text(s) => assert_eq!(s, "plain words"),
        InvokePayload::Json(_) => panic!("expected text"),
    }
    assert!(matches!(invoke_payload(String::new()), InvokePayload::Text(s) if s.is_empty()));
}
