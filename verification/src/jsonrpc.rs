//! JSON-RPC 2.0 messages as the server reads and answers them.
//!
//! A request's `id` and a tool's `arguments` are carried through unread, as
//! the client sent them.
use vstd::prelude::*;
use crate::manifest::ToolSpec;
use crate::text::concat_str;

verus! {

/// A JSON value as the client sent it; the server hands it back or on
/// without looking inside.
#[verifier::external_type_specification]
#[verifier::external_body]
pub struct ExJsonValue(serde_json::Value);

/// Whether a text is one JSON value, as `serde_json::from_str` reads it.
pub uninterp spec fn parses_as_json(text: Seq<char>) -> bool;

/// The JSON value that `serde_json::from_str` reads from a text that parses.
pub uninterp spec fn json_value(text: Seq<char>) -> serde_json::Value;

/// The JSON value of a text (`serde_json::from_str::<Value>`). The contract
/// names both what it decides: whether a value comes back
/// (`parses_as_json`), and which value that is (`json_value`); both depend on
/// the text alone.
#[verifier::external_body]
fn parse_json(text: &str) -> (r: Option<serde_json::Value>)
    ensures
        r is Some <==> parses_as_json(text@),
        r matches Some(v) ==> v == json_value(text@),
{
    serde_json::from_str(text).ok()
}

/// What a Lambda invocation's payload is reported as: its JSON value where the
/// text parses, else the text itself.
pub enum InvokePayload {
    Json(serde_json::Value),
    Text(String),
}

/// The payload of an invocation's reply, read from its text.
pub fn invoke_payload(text: String) -> (p: InvokePayload)
    ensures
        parses_as_json(text@) ==> p == InvokePayload::Json(json_value(text@)),
        !parses_as_json(text@) ==> p == InvokePayload::Text(text),
{
    match parse_json(text.as_str()) {
        Some(v) => InvokePayload::Json(v),
        None => InvokePayload::Text(text),
    }
}

/// The `params` of a `tools/call` request, as far as the server reads them.
pub struct CallParams {
    /// `params.name` where it is a string.
    pub name: Option<String>,
    /// `params.arguments` where it is present and not `null`.
    pub arguments: Option<serde_json::Value>,
}

/// An inbound message: a request when it has an `id`, else a notification.
pub struct JsonRpcMessage {
    pub jsonrpc: Option<String>,
    pub id: Option<serde_json::Value>,
    pub method: Option<String>,
    pub params: Option<CallParams>,
}

/// The error member of a response.
#[derive(Debug, Clone, PartialEq, Eq)]
pub struct JsonRpcError {
    pub code: i32,
    pub message: String,
}

/// What the server says about itself in answer to `initialize`.
pub struct InitializeInfo {
    pub protocol_version: String,
    /// Whether the server declares the `tools` capability.
    pub offers_tools: bool,
    pub server_name: String,
    pub server_version: String,
}

/// The result member of a response.
pub enum RpcResult {
    /// The answer to `initialize`.
    Initialize(InitializeInfo),
    /// The answer to `tools/list`.
    ToolsList(Vec<ToolSpec>),
    /// The answer to a successful `tools/call`: the tool's output as JSON text.
    ToolText(String),
    /// The empty object, the answer to `ping`.
    Empty,
}

/// An outbound response: exactly one of `result` and `error` is present.
pub struct JsonRpcResponse {
    pub jsonrpc: String,
    pub id: Option<serde_json::Value>,
    pub result: Option<RpcResult>,
    pub error: Option<JsonRpcError>,
}

impl JsonRpcResponse {
    /// A successful response to the request `id`.
    pub fn result(id: Option<serde_json::Value>, result: RpcResult) -> (r: JsonRpcResponse)
        ensures
            r.jsonrpc@ == "2.0"@,
            r.id == id,
            r.result == Some(result),
            r.error is None,
    {
        JsonRpcResponse { jsonrpc: String::from_str("2.0"), id, result: Some(result), error: None }
    }

    /// A failed response to the request `id`.
    pub fn error(id: Option<serde_json::Value>, code: i32, message: String) -> (r: JsonRpcResponse)
        ensures
            r.jsonrpc@ == "2.0"@,
            r.id == id,
            r.result is None,
            r.error == Some(JsonRpcError { code, message }),
    {
        JsonRpcResponse {
            jsonrpc: String::from_str("2.0"),
            id,
            result: None,
            error: Some(JsonRpcError { code, message }),
        }
    }
}

/// The code of a request whose `params` are not what the method takes.
pub const INVALID_PARAMS: i32 = -32602;

/// The code of a method or tool that does not exist.
pub const METHOD_NOT_FOUND: i32 = -32601;

/// The code of a tool that failed.
pub const TOOL_FAILED: i32 = -32000;

/// The server's answer to `initialize`.
pub fn initialize_info() -> (i: InitializeInfo)
    ensures
        i.protocol_version@ == "2024-11-05"@,
        i.offers_tools,
        i.server_name@ == "zed-aws-toolkit"@,
        i.server_version@ == "0.5.0"@,
{
    InitializeInfo {
        protocol_version: String::from_str("2024-11-05"),
        offers_tools: true,
        server_name: String::from_str("zed-aws-toolkit"),
        server_version: String::from_str("0.5.0"),
    }
}

/// The answer to a tool call once the tool has run: its output as the
/// result, or its error's text with the tool-failure code.
pub fn tool_response(id: Option<serde_json::Value>, outcome: Result<String, String>) -> (r: JsonRpcResponse)
    ensures
        r.jsonrpc@ == "2.0"@,
        r.id == id,
        match outcome {
            Ok(text) => r.result == Some(RpcResult::ToolText(text)) && r.error is None,
            Err(message) => r.result is None && r.error == Some(
                JsonRpcError { code: TOOL_FAILED, message },
            ),
        },
{
    match outcome {
        Ok(text) => JsonRpcResponse::result(id, RpcResult::ToolText(text)),
        Err(message) => JsonRpcResponse::error(id, TOOL_FAILED, message),
    }
}

/// The message for an unknown tool.
pub fn unknown_tool_message(name: &String) -> (s: String)
    ensures
        s@ == "unknown tool: "@ + name@,
{
    concat_str("unknown tool: ", name.as_str())
}

/// The message for an unknown method.
pub fn unknown_method_message(method: &str) -> (s: String)
    ensures
        s@ == "method not found: "@ + method@,
{
    concat_str("method not found: ", method)
}

} // verus!
