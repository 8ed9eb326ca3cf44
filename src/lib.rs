//! A line-delimited JSON-RPC server core: message model, the dispatcher's
//! state machine, the reader's framing decisions, the tool catalog and the
//! decisions each tool makes around its helper script.

pub mod dispatcher;
pub mod json;
pub mod protocol;
pub mod reader;
pub mod scripts;
pub mod text;
pub mod tools;

pub use dispatcher::MessageProcessor;
pub use protocol::OutgoingMessage;
pub use tools::get_tool_definitions;
