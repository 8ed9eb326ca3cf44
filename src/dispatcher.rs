//! The dispatcher: a two-state machine (uninitialized, initialized) that
//! routes each inbound message and produces the replies.
//!
//! Messages are processed one at a time: a `tools/call` is finished before
//! the next message is taken, so replies leave in the order requests came.
//! Decoding a request's params into a typed shape and running a tool are done
//! by the caller between two steps: the machine asks for them with an
//! [`Action`] and takes their outcome back as a plain value.
use crate::protocol::{
    Capabilities, ErrorMessage, IdModel, InitializeInfo, Message, Notification, OutgoingMessage,
    ReplyPayload, Request, RequestId, Response, ToolOutcome, INVALID_PARAMS, METHOD_NOT_FOUND,
    NOT_INITIALIZED, SERIALIZATION_ERROR,
};
use crate::text::{join, text_is};
use crate::tools::{get_tool_definitions, is_catalog};
use vstd::prelude::*;

verus! {

/// The protocol version the server speaks.
pub const PROTOCOL_VERSION: &'static str = "2025-06-18";

/// The request methods the server recognizes.
pub enum MethodKind {
    Initialize,
    ListTools,
    CallTool,
    Unknown,
}

/// Which recognized method a name denotes.
pub open spec fn method_kind(method: Seq<char>) -> MethodKind {
    if method == "initialize"@ {
        MethodKind::Initialize
    } else if method == "tools/list"@ {
        MethodKind::ListTools
    } else if method == "tools/call"@ {
        MethodKind::CallTool
    } else {
        MethodKind::Unknown
    }
}

/// The session state after a request with this method whose params decoded
/// (`params_ok`) or not: only a well-formed initialize moves it, and only
/// from uninitialized to initialized.
pub open spec fn next_initialized(initialized: bool, method: Seq<char>, params_ok: bool) -> bool {
    initialized || (method == "initialize"@ && params_ok)
}

/// The session state after requests with these methods and params outcomes
/// (decoded or not), starting uninitialized.
pub open spec fn initialized_after(requests: Seq<(Seq<char>, bool)>) -> bool
    decreases requests.len(),
{
    if requests.len() == 0 {
        false
    } else {
        next_initialized(
            initialized_after(requests.drop_last()),
            requests.last().0,
            requests.last().1,
        )
    }
}

/// The session is initialized after a run of requests exactly when one of
/// them was an initialize whose params decoded.
pub proof fn initialized_iff_handshake(requests: Seq<(Seq<char>, bool)>)
    ensures
        initialized_after(requests) <==> exists|k: int|
            0 <= k < requests.len() && #[trigger] requests[k] == ("initialize"@, true),
    decreases requests.len(),
{
    if requests.len() > 0 {
        let init = requests.drop_last();
        initialized_iff_handshake(init);
        if initialized_after(init) {
            let k = choose|k: int| 0 <= k < init.len() && #[trigger] init[k] == ("initialize"@, true);
            assert(requests[k] == init[k]);
        }
        if exists|k: int| 0 <= k < requests.len() && #[trigger] requests[k] == ("initialize"@, true) {
            let k = choose|k: int| 0 <= k < requests.len() && #[trigger] requests[k] == ("initialize"@, true);
            if k < init.len() {
                assert(init[k] == requests[k]);
            }
        }
    }
}

/// Once initialized, the session stays so for every later request: the
/// state after the first `i` requests implies the state after the first
/// `j`, for `i <= j`. Before, `tools/list` and `tools/call` are refused
/// (see `handle_list_tools`, `handle_tool_call`); after, accepted.
pub proof fn initialization_is_permanent(requests: Seq<(Seq<char>, bool)>, i: int, j: int)
    requires
        0 <= i <= j <= requests.len(),
        initialized_after(requests.take(i)),
    ensures
        initialized_after(requests.take(j)),
{
    initialized_iff_handshake(requests.take(i));
    initialized_iff_handshake(requests.take(j));
    let k = choose|k: int| 0 <= k < i && #[trigger] requests.take(i)[k] == ("initialize"@, true);
    assert(requests.take(j)[k] == requests.take(i)[k]);
}

/// How a request is routed in the given state: `initialize` and, once
/// initialized, `tools/call` go on to decoding their params, unchanged;
/// `tools/list` is answered with the catalog once initialized; before, both
/// are refused as not initialized; any other method is not found.
pub open spec fn routes(initialized: bool, request: Request, r: Action) -> bool {
    match method_kind(request.method@) {
        MethodKind::Initialize => (r matches Action::DecodeInitialize { params, .. }
            && params == request.params),
        MethodKind::ListTools => (r matches Action::Reply(m) && if initialized {
            is_tool_list_response(m)
        } else {
            m.is_error_with(NOT_INITIALIZED, not_initialized_text())
        }),
        MethodKind::CallTool => if initialized {
            (r matches Action::DecodeToolCall { params, .. } && params == request.params)
        } else {
            (r matches Action::Reply(m) && m.is_error_with(NOT_INITIALIZED, not_initialized_text()))
        },
        MethodKind::Unknown => (r matches Action::Reply(m) && m.is_error_with(
            METHOD_NOT_FOUND,
            "Method not found: "@ + request.method@,
        )),
    }
}

/// A tool invocation request: the tool's name and its arguments.
pub struct ToolCall {
    pub name: String,
    pub arguments: Option<serde_json::Value>,
}

/// What the dispatcher needs done after a request.
pub enum Action {
    /// Send this reply.
    Reply(OutgoingMessage),
    /// Decode `params` into the initialize shape, then call `handle_initialize`.
    DecodeInitialize { id: RequestId, params: Option<serde_json::Value> },
    /// Decode `params` into the tool-call shape, then call `handle_tool_call`.
    DecodeToolCall { id: RequestId, params: Option<serde_json::Value> },
    /// Run the tool, then call `complete_tool_call` with its outcome.
    Invoke { id: RequestId, call: ToolCall },
}

impl Action {
    /// The identifier of the request the action serves.
    pub open spec fn id_spec(&self) -> IdModel {
        match self {
            Action::Reply(m) => m.id_spec(),
            Action::DecodeInitialize { id, .. } => id@,
            Action::DecodeToolCall { id, .. } => id@,
            Action::Invoke { id, .. } => id@,
        }
    }
}

/// What a successful handshake reports: tools are supported, prompts,
/// resources, logging and completions are not.
pub open spec fn is_server_info(info: InitializeInfo) -> bool {
    &&& info.protocol_version@ == PROTOCOL_VERSION@
    &&& info.capabilities == Capabilities {
        tools: true,
        prompts: false,
        resources: false,
        logging: false,
        completions: false,
    }
    &&& info.server_name@ == "watermark-remover-mcp-server"@
    &&& info.server_version@ == "0.1.0"@
    &&& info.instructions@
        == "Watermark Remover MCP Server - Remove watermarks from PDF files and images using OpenCV."@
}

/// Whether `m` is the response to a successful handshake.
pub open spec fn is_initialize_response(m: OutgoingMessage) -> bool {
    match m {
        OutgoingMessage::Response { payload: ReplyPayload::Initialized(info), .. } => is_server_info(
            info,
        ),
        _ => false,
    }
}

/// Whether `m` is the response listing the tool catalog.
pub open spec fn is_tool_list_response(m: OutgoingMessage) -> bool {
    match m {
        OutgoingMessage::Response { payload: ReplyPayload::ToolList(tools), .. } => is_catalog(
            tools@,
        ),
        _ => false,
    }
}

/// The message of the error that answers a premature request.
pub open spec fn not_initialized_text() -> Seq<char> {
    "Server not initialized"@
}

/// The handshake answer.
pub fn server_info() -> (r: InitializeInfo)
    ensures
        is_server_info(r),
{
    InitializeInfo {
        protocol_version: String::from_str(PROTOCOL_VERSION),
        capabilities: Capabilities {
            tools: true,
            prompts: false,
            resources: false,
            logging: false,
            completions: false,
        },
        server_name: String::from_str("watermark-remover-mcp-server"),
        server_version: String::from_str("0.1.0"),
        instructions: String::from_str(
            "Watermark Remover MCP Server - Remove watermarks from PDF files and images using OpenCV.",
        ),
    }
}

/// The error that answers a premature request.
fn not_initialized(id: RequestId) -> (r: OutgoingMessage)
    ensures
        r.id_spec() == id@,
        r.is_error_with(NOT_INITIALIZED, not_initialized_text()),
{
    OutgoingMessage::Error {
        id,
        code: NOT_INITIALIZED,
        message: String::from_str("Server not initialized"),
    }
}

/// The error that answers a request whose params did not decode.
fn invalid_params(id: RequestId, description: &String) -> (r: OutgoingMessage)
    ensures
        r.id_spec() == id@,
        r.is_error_with(INVALID_PARAMS, "Invalid params: "@ + description@),
{
    OutgoingMessage::Error { id, code: INVALID_PARAMS, message: join("Invalid params: ", description) }
}

/// The generic message that carries a response, given its payload as the
/// caller serialized it: the payload's value when that worked, else a
/// serialization error for the same request in its place.
pub fn response_message(id: RequestId, encoded: Result<serde_json::Value, String>) -> (r: Message)
    ensures
        match encoded {
            Ok(v) => (r matches Message::Response(p) && p.id@ == id@ && p.result == v),
            Err(e) => (r matches Message::Error(x) && x.id@ == id@ && x.code == SERIALIZATION_ERROR
                && x.message@ == "Serialization error: "@ + e@ && x.data is None),
        },
{
    match encoded {
        Ok(result) => Message::Response(Response { id, result }),
        Err(e) => Message::Error(
            ErrorMessage {
                id,
                code: SERIALIZATION_ERROR,
                message: join("Serialization error: ", e.as_str()),
                data: None,
            },
        ),
    }
}

/// The generic message that carries a protocol error reply.
pub fn error_message(id: RequestId, code: i64, message: String) -> (r: Message)
    ensures
        r matches Message::Error(x) && x.id@ == id@ && x.code == code && x.message@ == message@
            && x.data is None,
{
    Message::Error(ErrorMessage { id, code, message, data: None })
}

/// The reply to a tool call: the tool's own outcome when it ran, else a
/// single text block `"Error: "` + the failure, marked as an error. Either
/// way a response, never a protocol error.
pub fn complete_tool_call(id: RequestId, outcome: Result<ToolOutcome, String>) -> (r:
    OutgoingMessage)
    ensures
        r.id_spec() == id@,
        r.is_response(),
        match outcome {
            Ok(o) => r.is_tool_result(o.texts(), o.is_error),
            Err(e) => r.is_tool_result(seq!["Error: "@ + e@], true),
        },
{
    match outcome {
        Ok(o) => OutgoingMessage::Response { id, payload: ReplyPayload::ToolResult(o) },
        Err(e) => {
            let text = join("Error: ", e.as_str());
            OutgoingMessage::Response {
                id,
                payload: ReplyPayload::ToolResult(ToolOutcome::single(text, true)),
            }
        },
    }
}

/// The dispatcher and its session state.
pub struct MessageProcessor {
    initialized: bool,
}

impl MessageProcessor {
    /// Whether the handshake has completed.
    pub closed spec fn initialized_spec(&self) -> bool {
        self.initialized
    }

    /// A dispatcher awaiting the handshake.
    pub fn new() -> (r: Self)
        ensures
            !r.initialized_spec(),
    {
        MessageProcessor { initialized: false }
    }

    /// Whether the handshake has completed.
    pub fn is_initialized(&self) -> (r: bool)
        ensures
            r == self.initialized_spec(),
    {
        self.initialized
    }

    /// Routes a request by its method. `initialize` and, once initialized,
    /// `tools/call` ask for their params to be decoded; `tools/list` and
    /// every other method are answered at once. The state does not change
    /// here.
    pub fn process_request(&mut self, request: Request) -> (r: Action)
        ensures
            final(self).initialized_spec() == old(self).initialized_spec(),
            r.id_spec() == request.id@,
            routes(old(self).initialized_spec(), request, r),
    {
        let Request { id, method, params } = request;
        if text_is(&method, "initialize") {
            Action::DecodeInitialize { id, params }
        } else if text_is(&method, "tools/list") {
            Action::Reply(self.handle_list_tools(id))
        } else if text_is(&method, "tools/call") {
            if self.initialized {
                Action::DecodeToolCall { id, params }
            } else {
                Action::Reply(not_initialized(id))
            }
        } else {
            let message = join("Method not found: ", method.as_str());
            Action::Reply(OutgoingMessage::Error { id, code: METHOD_NOT_FOUND, message })
        }
    }

    /// Finishes the handshake with the outcome of decoding its params: on
    /// success the session becomes initialized and the server describes
    /// itself; on failure an invalid-params error and no change.
    pub fn handle_initialize(&mut self, id: RequestId, params: Result<(), String>) -> (r:
        OutgoingMessage)
        ensures
            final(self).initialized_spec() == next_initialized(
                old(self).initialized_spec(),
                "initialize"@,
                params is Ok,
            ),
            r.id_spec() == id@,
            match params {
                Ok(_) => is_initialize_response(r),
                Err(e) => r.is_error_with(INVALID_PARAMS, "Invalid params: "@ + e@),
            },
    {
        match params {
            Ok(()) => {
                self.initialized = true;
                OutgoingMessage::Response {
                    id,
                    payload: ReplyPayload::Initialized(server_info()),
                }
            },
            Err(e) => invalid_params(id, &e),
        }
    }

    /// Answers `tools/list`: the catalog once initialized, else a
    /// not-initialized error.
    pub fn handle_list_tools(&self, id: RequestId) -> (r: OutgoingMessage)
        ensures
            r.id_spec() == id@,
            if self.initialized_spec() {
                is_tool_list_response(r)
            } else {
                r.is_error_with(NOT_INITIALIZED, not_initialized_text())
            },
    {
        if !self.initialized {
            return not_initialized(id);
        }
        OutgoingMessage::Response { id, payload: ReplyPayload::ToolList(get_tool_definitions()) }
    }

    /// Continues `tools/call` with the outcome of decoding its params: the
    /// tool is to be invoked when they decoded, else an invalid-params error
    /// answers. A not-initialized error answers before the handshake.
    pub fn handle_tool_call(&self, id: RequestId, params: Result<ToolCall, String>) -> (r: Action)
        ensures
            r.id_spec() == id@,
            !self.initialized_spec() ==> (r matches Action::Reply(m) && m.is_error_with(
                NOT_INITIALIZED,
                not_initialized_text(),
            )),
            self.initialized_spec() ==> match params {
                Ok(c) => r matches Action::Invoke { call, .. } && call == c,
                Err(e) => r matches Action::Reply(m) && m.is_error_with(
                    INVALID_PARAMS,
                    "Invalid params: "@ + e@,
                ),
            },
    {
        if !self.initialized {
            return Action::Reply(not_initialized(id));
        }
        match params {
            Ok(call) => Action::Invoke { id, call },
            Err(e) => Action::Reply(invalid_params(id, &e)),
        }
    }

    /// A response from the peer needs no reply and leaves the state alone.
    pub fn process_response(&mut self, response: &Response)
        ensures
            final(self).initialized_spec() == old(self).initialized_spec(),
    {
    }

    /// A notification never gets a reply and leaves the state alone.
    pub fn process_notification(&mut self, notification: &Notification)
        ensures
            final(self).initialized_spec() == old(self).initialized_spec(),
    {
    }

    /// An error from the peer needs no reply and leaves the state alone.
    pub fn process_error(&mut self, error: &ErrorMessage)
        ensures
            final(self).initialized_spec() == old(self).initialized_spec(),
    {
    }

    /// Routes any inbound message: only a request leads to an action, and
    /// that action serves the request's identifier.
    pub fn process_message(&mut self, message: Message) -> (r: Option<Action>)
        ensures
            final(self).initialized_spec() == old(self).initialized_spec(),
            match message {
                Message::Request(q) => (r matches Some(a) && a.id_spec() == q.id@ && routes(
                    old(self).initialized_spec(),
                    q,
                    a,
                )),
                _ => r is None,
            },
    {
        match message {
            Message::Request(q) => Some(self.process_request(q)),
            Message::Response(p) => {
                self.process_response(&p);
                None
            },
            Message::Notification(n) => {
                self.process_notification(&n);
                None
            },
            Message::Error(e) => {
                self.process_error(&e);
                None
            },
        }
    }
}

} // verus!
