//! Parsed chat messages and streaming deltas.
use vstd::prelude::*;

use serde_json::Value;

use crate::openai::tools::ToolType;

verus! {

/// OpenAI-compatible function call payload.
#[derive(Debug, PartialEq)]
pub struct FunctionCallOaicompat {
    /// Function name selected by the model.
    pub name: String,
    /// Function arguments, either as a raw JSON string or a decoded object.
    pub arguments: Value,
}

impl Clone for FunctionCallOaicompat {
    fn clone(&self) -> (copy: Self)
        ensures
            copy == *self,
    {
        FunctionCallOaicompat { name: self.name.clone(), arguments: self.arguments.clone() }
    }
}

/// OpenAI-compatible tool call payload.
#[derive(Debug, PartialEq)]
pub struct ToolCallOaicompat {
    /// Tool call id when present.
    pub id: Option<String>,
    /// Tool kind, typically `function`.
    pub tool_type: Option<ToolType>,
    /// Nested function call payload.
    pub function: FunctionCallOaicompat,
}

impl Clone for ToolCallOaicompat {
    fn clone(&self) -> (copy: Self)
        ensures
            copy == *self,
    {
        ToolCallOaicompat {
            id: self.id.clone(),
            tool_type: self.tool_type,
            function: self.function.clone(),
        }
    }
}

/// Typed OpenAI-compatible parsed chat message.
#[derive(Debug, PartialEq)]
pub struct ChatMessageOaicompat {
    /// Message role.
    pub role: String,
    /// Message content. This may be a string, array of typed content parts, or null.
    pub content: Option<Value>,
    /// Optional reasoning content emitted by reasoning-capable templates.
    pub reasoning_content: Option<String>,
    /// Optional tool name for tool-role messages.
    pub name: Option<String>,
    /// Optional tool call id for tool-role messages.
    pub tool_call_id: Option<String>,
    /// Optional assistant tool calls.
    pub tool_calls: Vec<ToolCallOaicompat>,
}

impl Clone for ChatMessageOaicompat {
    fn clone(&self) -> (copy: Self)
        ensures
            copy.role == self.role,
            copy.content == self.content,
            copy.reasoning_content == self.reasoning_content,
            copy.name == self.name,
            copy.tool_call_id == self.tool_call_id,
            copy.tool_calls@ == self.tool_calls@,
    {
        let copy = ChatMessageOaicompat {
            role: self.role.clone(),
            content: self.content.clone(),
            reasoning_content: self.reasoning_content.clone(),
            name: self.name.clone(),
            tool_call_id: self.tool_call_id.clone(),
            tool_calls: self.tool_calls.clone(),
        };
        assert(copy.tool_calls@ =~= self.tool_calls@);
        copy
    }
}

/// Incremental OpenAI-compatible function call delta.
#[derive(Debug, PartialEq)]
pub struct FunctionCallDeltaOaicompat {
    /// Optional function name fragment.
    pub name: Option<String>,
    /// Optional arguments fragment.
    pub arguments: Option<String>,
}

impl Clone for FunctionCallDeltaOaicompat {
    fn clone(&self) -> (copy: Self)
        ensures
            copy == *self,
    {
        FunctionCallDeltaOaicompat { name: self.name.clone(), arguments: self.arguments.clone() }
    }
}

/// Incremental OpenAI-compatible tool call delta.
#[derive(Debug, PartialEq)]
pub struct ToolCallDeltaOaicompat {
    /// Tool call index within the assistant message.
    pub index: usize,
    /// Optional tool call id fragment.
    pub id: Option<String>,
    /// Optional tool kind.
    pub tool_type: Option<ToolType>,
    /// Optional function delta payload.
    pub function: Option<FunctionCallDeltaOaicompat>,
}

impl Clone for ToolCallDeltaOaicompat {
    fn clone(&self) -> (copy: Self)
        ensures
            copy == *self,
    {
        ToolCallDeltaOaicompat {
            index: self.index,
            id: self.id.clone(),
            tool_type: self.tool_type,
            function: self.function.clone(),
        }
    }
}

/// Typed OpenAI-compatible streaming delta.
#[derive(Debug, PartialEq)]
pub struct ChatMessageDeltaOaicompat {
    /// Optional role fragment.
    pub role: Option<String>,
    /// Optional content fragment.
    pub content: Option<String>,
    /// Optional reasoning content fragment.
    pub reasoning_content: Option<String>,
    /// Optional tool call deltas.
    pub tool_calls: Vec<ToolCallDeltaOaicompat>,
}

impl Clone for ChatMessageDeltaOaicompat {
    fn clone(&self) -> (copy: Self)
        ensures
            copy.role == self.role,
            copy.content == self.content,
            copy.reasoning_content == self.reasoning_content,
            copy.tool_calls@ == self.tool_calls@,
    {
        let copy = ChatMessageDeltaOaicompat {
            role: self.role.clone(),
            content: self.content.clone(),
            reasoning_content: self.reasoning_content.clone(),
            tool_calls: self.tool_calls.clone(),
        };
        assert(copy.tool_calls@ =~= self.tool_calls@);
        copy
    }
}

} // verus!
