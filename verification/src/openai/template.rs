//! Options and parameters of the OpenAI-compatible chat template flow.
use vstd::prelude::*;

use serde_json::Value;

use crate::openai::tools::{ToolChoice, ToolDefinition};

verus! {

/// Typed Rust options for the OpenAI-compatible chat template flow.
#[derive(Debug, PartialEq)]
pub struct OpenAIChatTemplateOptions<'a> {
    /// OpenAI-compatible messages JSON array.
    pub messages_json: &'a str,
    /// Optional typed tool definitions.
    pub tools: Option<&'a [ToolDefinition]>,
    /// Optional typed tool choice mode.
    pub tool_choice: Option<ToolChoice>,
    /// Optional JSON schema value for grammar generation.
    pub json_schema: Option<&'a Value>,
    /// Optional custom grammar string.
    pub grammar: Option<&'a str>,
    /// Optional reasoning format string.
    pub reasoning_format: Option<&'a str>,
    /// Optional chat template kwargs JSON object.
    pub chat_template_kwargs: Option<&'a Value>,
    /// Whether to add the assistant generation prompt.
    pub add_generation_prompt: bool,
    /// Whether to render templates with Jinja.
    pub use_jinja: bool,
    /// Whether to allow parallel tool calls.
    pub parallel_tool_calls: bool,
    /// Whether thinking blocks are enabled.
    pub enable_thinking: bool,
    /// Whether to add BOS.
    pub add_bos: bool,
    /// Whether to add EOS.
    pub add_eos: bool,
    /// Whether to parse tool calls in responses.
    pub parse_tool_calls: bool,
}

impl<'a> Clone for OpenAIChatTemplateOptions<'a> {
    fn clone(&self) -> (copy: Self)
        ensures
            copy == *self,
    {
        OpenAIChatTemplateOptions {
            messages_json: self.messages_json,
            tools: self.tools,
            tool_choice: self.tool_choice,
            json_schema: self.json_schema,
            grammar: self.grammar,
            reasoning_format: self.reasoning_format,
            chat_template_kwargs: self.chat_template_kwargs,
            add_generation_prompt: self.add_generation_prompt,
            use_jinja: self.use_jinja,
            parallel_tool_calls: self.parallel_tool_calls,
            enable_thinking: self.enable_thinking,
            add_bos: self.add_bos,
            add_eos: self.add_eos,
            parse_tool_calls: self.parse_tool_calls,
        }
    }
}

impl<'a> OpenAIChatTemplateOptions<'a> {
    /// Create typed OpenAI-compatible options with sensible defaults.
    #[must_use]
    pub fn new(messages_json: &'a str) -> (options: Self)
        ensures
            options.messages_json == messages_json,
            options.tools is None,
            options.tool_choice is None,
            options.json_schema is None,
            options.grammar is None,
            options.reasoning_format is None,
            options.chat_template_kwargs is None,
            options.add_generation_prompt,
            options.use_jinja,
            !options.parallel_tool_calls,
            !options.enable_thinking,
            !options.add_bos,
            !options.add_eos,
            !options.parse_tool_calls,
    {
        OpenAIChatTemplateOptions {
            messages_json,
            tools: None,
            tool_choice: None,
            json_schema: None,
            grammar: None,
            reasoning_format: None,
            chat_template_kwargs: None,
            add_generation_prompt: true,
            use_jinja: true,
            parallel_tool_calls: false,
            enable_thinking: false,
            add_bos: false,
            add_eos: false,
            parse_tool_calls: false,
        }
    }
}

/// Parameters for applying OpenAI-compatible chat templates.
#[derive(Debug, PartialEq)]
pub struct OpenAIChatTemplateParams<'a> {
    /// OpenAI-compatible messages JSON array.
    pub messages_json: &'a str,
    /// Optional OpenAI-compatible tools JSON array.
    pub tools_json: Option<&'a str>,
    /// Optional tool choice string.
    pub tool_choice: Option<&'a str>,
    /// Optional JSON schema string for tool grammar generation.
    pub json_schema: Option<&'a str>,
    /// Optional custom grammar string.
    pub grammar: Option<&'a str>,
    /// Optional reasoning format string.
    pub reasoning_format: Option<&'a str>,
    /// Optional chat template kwargs JSON object.
    pub chat_template_kwargs: Option<&'a str>,
    /// Whether to add the assistant generation prompt.
    pub add_generation_prompt: bool,
    /// Whether to render templates with Jinja.
    pub use_jinja: bool,
    /// Whether to allow parallel tool calls.
    pub parallel_tool_calls: bool,
    /// Whether thinking blocks are enabled.
    pub enable_thinking: bool,
    /// Whether to add BOS.
    pub add_bos: bool,
    /// Whether to add EOS.
    pub add_eos: bool,
    /// Whether to parse tool calls in responses.
    pub parse_tool_calls: bool,
}

impl<'a> Clone for OpenAIChatTemplateParams<'a> {
    fn clone(&self) -> (copy: Self)
        ensures
            copy == *self,
    {
        OpenAIChatTemplateParams {
            messages_json: self.messages_json,
            tools_json: self.tools_json,
            tool_choice: self.tool_choice,
            json_schema: self.json_schema,
            grammar: self.grammar,
            reasoning_format: self.reasoning_format,
            chat_template_kwargs: self.chat_template_kwargs,
            add_generation_prompt: self.add_generation_prompt,
            use_jinja: self.use_jinja,
            parallel_tool_calls: self.parallel_tool_calls,
            enable_thinking: self.enable_thinking,
            add_bos: self.add_bos,
            add_eos: self.add_eos,
            parse_tool_calls: self.parse_tool_calls,
        }
    }
}

} // verus!
