//! The protocol's message model: identifiers, inbound messages and replies.
use vstd::prelude::*;

verus! {

/// Code of a reply to a request whose params do not have the expected shape.
pub const INVALID_PARAMS: i64 = -32602;

/// Code of a reply to a request naming a method the server does not know.
pub const METHOD_NOT_FOUND: i64 = -32601;

/// Code of a reply to a request that needs the initialize handshake first.
pub const NOT_INITIALIZED: i64 = -32002;

/// Code of a reply whose payload could not be serialized.
pub const SERIALIZATION_ERROR: i64 = -32000;

/// Identifier correlating a request with its reply: a string or an integer.
#[derive(Debug)]
pub enum RequestId {
    Str(String),
    Int(i64),
}

/// Mathematical value of a request identifier.
pub ghost enum IdModel {
    Str(Seq<char>),
    Int(int),
}

impl View for RequestId {
    type V = IdModel;

    open spec fn view(&self) -> IdModel {
        match self {
            RequestId::Str(s) => IdModel::Str(s@),
            RequestId::Int(i) => IdModel::Int(*i as int),
        }
    }
}

/// A request from the peer: it expects exactly one reply carrying `id`.
pub struct Request {
    pub id: RequestId,
    pub method: String,
    pub params: Option<serde_json::Value>,
}

/// A response sent by the peer to a request of ours.
pub struct Response {
    pub id: RequestId,
    pub result: serde_json::Value,
}

/// A one-way message from the peer: it never gets a reply.
pub struct Notification {
    pub method: String,
    pub params: Option<serde_json::Value>,
}

/// A protocol error sent by the peer.
pub struct ErrorMessage {
    pub id: RequestId,
    pub code: i64,
    pub message: String,
    pub data: Option<serde_json::Value>,
}

/// One parsed line of the wire format.
pub enum Message {
    Request(Request),
    Response(Response),
    Notification(Notification),
    Error(ErrorMessage),
}

/// Which optional protocol features the server declares.
#[derive(Clone, Copy, Debug, PartialEq, Eq, Structural)]
pub struct Capabilities {
    pub tools: bool,
    pub prompts: bool,
    pub resources: bool,
    pub logging: bool,
    pub completions: bool,
}

/// What the server answers to a successful initialize handshake.
pub struct InitializeInfo {
    pub protocol_version: String,
    pub capabilities: Capabilities,
    pub server_name: String,
    pub server_version: String,
    pub instructions: String,
}

/// The result of a tool invocation: text blocks and whether they report a failure.
pub struct ToolOutcome {
    pub content: Vec<String>,
    pub is_error: bool,
}

impl ToolOutcome {
    /// The text blocks as character sequences.
    pub open spec fn texts(&self) -> Seq<Seq<char>> {
        self.content@.map_values(|t: String| t@)
    }

    /// A single text block.
    pub fn single(text: String, is_error: bool) -> (r: ToolOutcome)
        ensures
            r.texts() == seq![text@],
            r.is_error == is_error,
    {
        let mut content: Vec<String> = Vec::new();
        content.push(text);
        let r = ToolOutcome { content, is_error };
        assert(r.texts() =~= seq![text@]);
        r
    }
}

/// The structured result carried by a successful reply.
pub enum ReplyPayload {
    Initialized(InitializeInfo),
    ToolList(Vec<crate::tools::ToolSpec>),
    ToolResult(ToolOutcome),
}

/// A reply that the server sends: a response or a protocol error, each
/// bearing the identifier of the request it answers.
pub enum OutgoingMessage {
    Response { id: RequestId, payload: ReplyPayload },
    Error { id: RequestId, code: i64, message: String },
}

impl OutgoingMessage {
    /// The identifier the reply bears.
    pub open spec fn id_spec(&self) -> IdModel {
        match self {
            OutgoingMessage::Response { id, .. } => id@,
            OutgoingMessage::Error { id, .. } => id@,
        }
    }

    /// Whether this is a protocol error with the given code and message.
    pub open spec fn is_error_with(&self, code: i64, message: Seq<char>) -> bool {
        match self {
            OutgoingMessage::Error { code: c, message: m, .. } => *c == code && m@ == message,
            _ => false,
        }
    }

    /// Whether this is a response (of any payload).
    pub open spec fn is_response(&self) -> bool {
        self is Response
    }

    /// Whether this is a response carrying the given tool outcome.
    pub open spec fn is_tool_result(&self, texts: Seq<Seq<char>>, is_error: bool) -> bool {
        match self {
            OutgoingMessage::Response { payload: ReplyPayload::ToolResult(o), .. } =>
                o.texts() == texts && o.is_error == is_error,
            _ => false,
        }
    }

    /// The identifier the reply bears.
    pub fn id(&self) -> (r: &RequestId)
        ensures
            r@ == self.id_spec(),
    {
        match self {
            OutgoingMessage::Response { id, .. } => id,
            OutgoingMessage::Error { id, .. } => id,
        }
    }
}

} // verus!
