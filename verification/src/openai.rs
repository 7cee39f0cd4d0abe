//! OpenAI specific types and the streaming parser protocol.
pub mod error;
pub mod message;
pub mod parse_laws;
pub mod parse_state;
pub mod replay;
pub mod session_laws;
pub mod template;
pub mod tools;
pub mod value;
pub mod wire;
pub mod wire_laws;

pub use error::ChatParseError;
pub use message::{
    ChatMessageDeltaOaicompat, ChatMessageOaicompat, FunctionCallDeltaOaicompat,
    FunctionCallOaicompat, ToolCallDeltaOaicompat, ToolCallOaicompat,
};
pub use parse_state::{ChatParseStateOaicompat, NativeCall, NativeReply, NativeStatus};
pub use replay::{RecordedDiff, RecordedUpdate, Replay};
pub use template::{OpenAIChatTemplateOptions, OpenAIChatTemplateParams};
pub use tools::{FunctionDefinition, ToolChoice, ToolDefinition, ToolType};
pub use wire::WireValue;
