//! Routing of JSON-RPC requests: built-in methods are answered here, and
//! `tools/call` is handed to the handler registered under the tool's name.
use vstd::prelude::*;
use crate::jsonrpc::{
    CallParams, JsonRpcMessage, JsonRpcResponse, RpcResult, INVALID_PARAMS, METHOD_NOT_FOUND,
    initialize_info, unknown_method_message, unknown_tool_message,
};
use crate::manifest::{all_tools, manifest, tools_view};
use vstd::hash_map::StringHashMap;

verus! {

/// A tool call handed to its handler.
pub struct ToolCall<'a, H> {
    pub id: Option<serde_json::Value>,
    pub name: String,
    pub handler: &'a H,
    /// `None` stands for the empty object.
    pub arguments: Option<serde_json::Value>,
}

/// What to do with an inbound message.
pub enum Dispatch<'a, H> {
    /// A notification: nothing is sent back.
    NoReply,
    /// Send this response.
    Reply(JsonRpcResponse),
    /// Run the tool, then answer with `tool_response`.
    Call(ToolCall<'a, H>),
}

/// The method name, with an absent one read as empty.
pub open spec fn method_text(m: Option<String>) -> Seq<char> {
    match m {
        Some(s) => s@,
        None => seq![],
    }
}

/// The tool name of a `tools/call` request.
pub open spec fn call_name(p: Option<CallParams>) -> Option<Seq<char>> {
    match p {
        Some(CallParams { name: Some(n), .. }) => Some(n@),
        _ => None,
    }
}

/// The arguments of a `tools/call` request (`None` for the empty object).
pub open spec fn call_arguments(p: Option<CallParams>) -> Option<serde_json::Value> {
    match p {
        Some(c) => c.arguments,
        None => None,
    }
}

/// Whether `r` is a successful response to `id` with `result`.
pub open spec fn is_result(r: JsonRpcResponse, id: Option<serde_json::Value>) -> bool {
    r.jsonrpc@ == "2.0"@ && r.id == id && r.error is None && r.result is Some
}

/// Whether `r` is a failed response to `id` with this code and message.
pub open spec fn is_error(
    r: JsonRpcResponse,
    id: Option<serde_json::Value>,
    code: i32,
    message: Seq<char>,
) -> bool {
    &&& r.jsonrpc@ == "2.0"@
    &&& r.id == id
    &&& r.result is None
    &&& r.error matches Some(e) && e.code == code && e.message@ == message
}

/// Whether `d` is how a dispatcher with this registry handles `msg`.
pub open spec fn dispatched<'a, H>(
    registry: Map<Seq<char>, H>,
    msg: JsonRpcMessage,
    d: Dispatch<'a, H>,
) -> bool {
    let id = msg.id;
    let m = method_text(msg.method);
    if id is None {
        d is NoReply
    } else if m == "initialize"@ {
        match d {
            Dispatch::Reply(r) => is_result(r, id) && match r.result {
                Some(RpcResult::Initialize(info)) => {
                    &&& info.protocol_version@ == "2024-11-05"@
                    &&& info.offers_tools
                    &&& info.server_name@ == "zed-aws-toolkit"@
                    &&& info.server_version@ == "0.5.0"@
                },
                _ => false,
            },
            _ => false,
        }
    } else if m == "tools/list"@ {
        match d {
            Dispatch::Reply(r) => is_result(r, id) && match r.result {
                Some(RpcResult::ToolsList(ts)) => tools_view(ts@) == manifest(),
                _ => false,
            },
            _ => false,
        }
    } else if m == "tools/call"@ {
        match call_name(msg.params) {
            None => match d {
                Dispatch::Reply(r) => is_error(r, id, INVALID_PARAMS, "missing params.name"@),
                _ => false,
            },
            Some(n) => if registry.contains_key(n) {
                match d {
                    Dispatch::Call(c) => {
                        &&& c.id == id
                        &&& c.name@ == n
                        &&& *c.handler == registry[n]
                        &&& c.arguments == call_arguments(msg.params)
                    },
                    _ => false,
                }
            } else {
                match d {
                    Dispatch::Reply(r) => is_error(r, id, METHOD_NOT_FOUND, "unknown tool: "@ + n),
                    _ => false,
                }
            },
        }
    } else if m == "ping"@ {
        match d {
            Dispatch::Reply(r) => is_result(r, id) && r.result == Some(RpcResult::Empty),
            _ => false,
        }
    } else {
        match d {
            Dispatch::Reply(r) => is_error(r, id, METHOD_NOT_FOUND, "method not found: "@ + m),
            _ => false,
        }
    }
}

/// Once `handler` is registered for `name`, a `tools/call` request for `name`
/// goes to that handler, whatever was registered before.
pub proof fn lemma_registered_tool_is_called<'a, H>(
    registry: Map<Seq<char>, H>,
    name: Seq<char>,
    handler: H,
    msg: JsonRpcMessage,
    d: Dispatch<'a, H>,
)
    requires
        msg.id is Some,
        method_text(msg.method) == "tools/call"@,
        call_name(msg.params) == Some(name),
        dispatched(registry.insert(name, handler), msg, d),
    ensures
        d matches Dispatch::Call(c) && *c.handler == handler && c.name@ == name,
{
    reveal_strlit("initialize");
    reveal_strlit("tools/list");
    reveal_strlit("tools/call");
    assert("tools/call"@[0] != "initialize"@[0]);
    assert("tools/call"@[6] != "tools/list"@[6]);
}

/// A notification gets no reply, and a request gets either one response
/// that carries exactly one of a result and an error, or a tool call.
pub proof fn lemma_requests_get_one_answer<'a, H>(
    registry: Map<Seq<char>, H>,
    msg: JsonRpcMessage,
    d: Dispatch<'a, H>,
)
    requires
        dispatched(registry, msg, d),
    ensures
        msg.id is None <==> d is NoReply,
        d matches Dispatch::Reply(r) ==> r.id == msg.id && (r.result is Some <==> r.error is None),
{
}

/// Keeps the tool handlers by name and routes messages.
#[verifier::reject_recursive_types(H)]
pub struct Dispatcher<H> {
    handlers: StringHashMap<H>,
}

impl<H> Dispatcher<H> {
    /// The handler registered under each tool name.
    pub closed spec fn registry(&self) -> Map<Seq<char>, H> {
        self.handlers@
    }

    /// A dispatcher with no tools.
    pub fn new() -> (d: Dispatcher<H>)
        ensures
            d.registry() == Map::<Seq<char>, H>::empty(),
    {
        Dispatcher { handlers: StringHashMap::new() }
    }

    /// Registers `handler` for the tool `name`, replacing any earlier one.
    pub fn register(&mut self, name: String, handler: H)
        ensures
            final(self).registry() == old(self).registry().insert(name@, handler),
    {
        self.handlers.insert(name, handler);
    }

    /// The handler registered for `name`.
    pub fn lookup(&self, name: &String) -> (r: Option<&H>)
        ensures
            match r {
                Some(h) => self.registry().contains_key(name@) && *h == self.registry()[name@],
                None => !self.registry().contains_key(name@),
            },
    {
        self.handlers.get(name.as_str())
    }

    /// How to handle `msg`: notifications get no reply; `initialize`,
    /// `tools/list` and `ping` are answered here; `tools/call` goes to the
    /// handler of the named tool; anything else is an unknown method.
    pub fn dispatch(&self, msg: JsonRpcMessage) -> (d: Dispatch<'_, H>)
        ensures
            dispatched(self.registry(), msg, d),
    {
        let JsonRpcMessage { jsonrpc: _, id, method, params } = msg;
        if id.is_none() {
            return Dispatch::NoReply;
        }
        let method = match method {
            Some(m) => m,
            None => String::new(),
        };
        if method == String::from_str("initialize") {
            Dispatch::Reply(JsonRpcResponse::result(id, RpcResult::Initialize(initialize_info())))
        } else if method == String::from_str("tools/list") {
            Dispatch::Reply(JsonRpcResponse::result(id, RpcResult::ToolsList(all_tools())))
        } else if method == String::from_str("tools/call") {
            let (name, arguments) = match params {
                Some(CallParams { name, arguments }) => (name, arguments),
                None => (None, None),
            };
            match name {
                None => Dispatch::Reply(
                    JsonRpcResponse::error(id, INVALID_PARAMS, String::from_str("missing params.name")),
                ),
                Some(name) => match self.lookup(&name) {
                    Some(handler) => Dispatch::Call(ToolCall { id, name, handler, arguments }),
                    None => {
                        let message = unknown_tool_message(&name);
                        Dispatch::Reply(JsonRpcResponse::error(id, METHOD_NOT_FOUND, message))
                    },
                },
            }
        } else if method == String::from_str("ping") {
            Dispatch::Reply(JsonRpcResponse::result(id, RpcResult::Empty))
        } else {
            let message = unknown_method_message(method.as_str());
            Dispatch::Reply(JsonRpcResponse::error(id, METHOD_NOT_FOUND, message))
        }
    }
}

} // verus!
