//! Tool definitions and tool choice modes for tool-aware chat templates.
use vstd::prelude::*;

use serde_json::Value;

verus! {

/// OpenAI-compatible tool types supported by llama.cpp chat templates.
#[derive(Debug, Clone, Copy, PartialEq, Eq, Structural)]
pub enum ToolType {
    /// A function tool.
    Function,
}

impl Default for ToolType {
    fn default() -> (tool_type: Self)
        ensures
            tool_type == ToolType::Function,
    {
        ToolType::Function
    }
}

/// An OpenAI-compatible function definition for tool calling.
#[derive(Debug, PartialEq)]
pub struct FunctionDefinition {
    /// Tool name exposed to the model.
    pub name: String,
    /// Optional description shown in the prompt.
    pub description: Option<String>,
    /// JSON schema describing the function arguments.
    pub parameters: Value,
    /// Optional strict-mode flag used by some tool-calling templates.
    pub strict: Option<bool>,
}

impl Clone for FunctionDefinition {
    fn clone(&self) -> (copy: Self)
        ensures
            copy == *self,
    {
        FunctionDefinition {
            name: self.name.clone(),
            description: self.description.clone(),
            parameters: self.parameters.clone(),
            strict: self.strict,
        }
    }
}

impl FunctionDefinition {
    /// Create a new function definition from a name and JSON schema.
    #[must_use]
    pub fn new(name: impl Into<String>, parameters: Value) -> (definition: Self)
        ensures
            call_ensures(Into::into, (name,), definition.name),
            definition.description is None,
            definition.parameters == parameters,
            definition.strict is None,
    {
        FunctionDefinition { name: name.into(), description: None, parameters, strict: None }
    }

    /// The definition with this description in place of its own.
    pub open spec fn described(self, description: String) -> Self {
        FunctionDefinition { description: Some(description), ..self }
    }

    /// The definition with this strict-mode flag in place of its own.
    pub open spec fn strictness(self, strict: bool) -> Self {
        FunctionDefinition { strict: Some(strict), ..self }
    }

    /// Attach a human-readable description.
    #[must_use]
    pub fn with_description(self, description: impl Into<String>) -> (definition: Self)
        ensures
            definition.description is Some,
            call_ensures(Into::into, (description,), definition.description->0),
            definition == self.described(definition.description->0),
            definition.name == self.name,
            definition.parameters == self.parameters,
            definition.strict == self.strict,
    {
        let mut definition = self;
        definition.description = Some(description.into());
        definition
    }

    /// Toggle strict tool-call argument validation.
    #[must_use]
    pub fn with_strict(self, strict: bool) -> (definition: Self)
        ensures
            definition == self.strictness(strict),
            definition.strict == Some(strict),
            definition.name == self.name,
            definition.description == self.description,
            definition.parameters == self.parameters,
    {
        let mut definition = self;
        definition.strict = Some(strict);
        definition
    }
}

/// The order in which a description and a strict-mode flag are attached does not
/// matter, and of two descriptions or two flags the later one counts.
pub proof fn attachments_are_independent(
    definition: FunctionDefinition,
    first: String,
    description: String,
    flag: bool,
    strict: bool,
)
    ensures
        definition.described(description).strictness(strict) == definition.strictness(
            strict,
        ).described(description),
        definition.described(first).described(description) == definition.described(description),
        definition.strictness(flag).strictness(strict) == definition.strictness(strict),
{
}

/// What is attached is what the definition then holds, and all else stays as it was.
pub proof fn attachments_change_one_field(
    definition: FunctionDefinition,
    description: String,
    strict: bool,
)
    ensures
        definition.described(description) == (FunctionDefinition {
            name: definition.name,
            description: Some(description),
            parameters: definition.parameters,
            strict: definition.strict,
        }),
        definition.strictness(strict) == (FunctionDefinition {
            name: definition.name,
            description: definition.description,
            parameters: definition.parameters,
            strict: Some(strict),
        }),
{
}

/// An OpenAI-compatible tool definition for tool-aware chat templates.
#[derive(Debug, PartialEq)]
pub struct ToolDefinition {
    /// Tool kind. This is `function` for the currently supported tool flow.
    pub tool_type: ToolType,
    /// Function metadata and parameter schema.
    pub function: FunctionDefinition,
}

impl Clone for ToolDefinition {
    fn clone(&self) -> (copy: Self)
        ensures
            copy == *self,
    {
        ToolDefinition { tool_type: self.tool_type, function: self.function.clone() }
    }
}

impl ToolDefinition {
    /// Create a function tool definition.
    #[must_use]
    pub fn function(function: FunctionDefinition) -> (tool: Self)
        ensures
            tool.tool_type == ToolType::Function,
            tool.function == function,
    {
        ToolDefinition { tool_type: ToolType::Function, function }
    }
}

/// OpenAI-compatible tool choice modes supported by llama.cpp.
#[derive(Debug, Clone, Copy, PartialEq, Eq, Structural)]
pub enum ToolChoice {
    /// Let the model decide whether to call a tool.
    Auto,
    /// Force at least one tool call.
    Required,
    /// Disable tool calls for this request.
    Disabled,
}

impl ToolChoice {
    /// The wire-format string of a tool choice mode.
    pub open spec fn name(self) -> Seq<char> {
        match self {
            ToolChoice::Auto => "auto"@,
            ToolChoice::Required => "required"@,
            ToolChoice::Disabled => "none"@,
        }
    }

    /// Return the wire-format string expected by the raw OpenAI-compatible API.
    #[must_use]
    pub fn as_str(self) -> (name: &'static str)
        ensures
            name@ == self.name(),
            self == ToolChoice::Auto ==> name@ == "auto"@,
            self == ToolChoice::Required ==> name@ == "required"@,
            self == ToolChoice::Disabled ==> name@ == "none"@,
    {
        match self {
            ToolChoice::Auto => "auto",
            ToolChoice::Required => "required",
            ToolChoice::Disabled => "none",
        }
    }
}

/// The wire-format strings of the tool choice modes.
pub proof fn tool_choice_names()
    ensures
        ToolChoice::Auto.name() == "auto"@,
        ToolChoice::Required.name() == "required"@,
        ToolChoice::Disabled.name() == "none"@,
{
}

/// The wire-format string tells the tool choice modes apart.
pub proof fn tool_choice_names_are_distinct(a: ToolChoice, b: ToolChoice)
    ensures
        a.name() == b.name() ==> a == b,
{
    reveal_strlit("auto");
    reveal_strlit("required");
    reveal_strlit("none");
    assert("auto"@[0] == 'a');
    assert("none"@[0] == 'n');
    assert("required"@[0] == 'r');
}

} // verus!
