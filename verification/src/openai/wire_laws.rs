//! What stands where in the JSON form of tools, messages and deltas.
use vstd::prelude::*;

use crate::openai::message::{
    ChatMessageDeltaOaicompat, ChatMessageOaicompat, FunctionCallDeltaOaicompat,
    FunctionCallOaicompat, ToolCallDeltaOaicompat, ToolCallOaicompat,
};
use crate::openai::tools::{FunctionDefinition, ToolChoice, ToolDefinition, ToolType};
use crate::openai::wire::{WireValue, WireView};

verus! {

/// The contents of a document are what the document holds: of the same kind, with
/// the same text, flag, count or JSON value, and with the same parts in the same
/// order.
pub proof fn contents_are_what_the_document_holds(wire: WireValue<'_>)
    ensures
        wire is Null <==> wire@ is Null,
        wire matches WireValue::Bool(b) ==> wire@ == WireView::Bool(b),
        wire matches WireValue::Number(n) ==> wire@ == WireView::Number(n as nat),
        wire matches WireValue::Text(text) ==> wire@ == WireView::Text(text@),
        wire matches WireValue::Json(value) ==> wire@ == WireView::Json(*value),
        wire matches WireValue::List(items) ==> {
            &&& wire@ matches WireView::List(contents)
            &&& contents.len() == items@.len()
            &&& forall|i: int| 0 <= i < items@.len() ==> #[trigger] contents[i] == items@[i]@
        },
        wire matches WireValue::Object(members) ==> {
            &&& wire@ matches WireView::Object(contents)
            &&& contents.len() == members@.len()
            &&& forall|i: int|
                0 <= i < members@.len() ==> #[trigger] contents[i] == (
                    members@[i].0@,
                    members@[i].1@,
                )
        },
{
    reveal_with_fuel(WireValue::contents, 2);
}

/// The tool choice modes are written as `auto`, `required` and `none`, and a tool
/// type as `function`.
pub proof fn choices_and_types_are_written_as_their_names(choice: ToolChoice, tool_type: ToolType)
    ensures
        choice == ToolChoice::Auto ==> choice.wire() == WireView::Text("auto"@),
        choice == ToolChoice::Required ==> choice.wire() == WireView::Text("required"@),
        choice == ToolChoice::Disabled ==> choice.wire() == WireView::Text("none"@),
        tool_type == ToolType::Function ==> tool_type.wire() == WireView::Text("function"@),
{
}

/// Each field of a streaming delta stands under its own key, whatever the other
/// fields hold: a text as it is, and `null` where there is none.
pub proof fn delta_fields_stand_under_their_keys(delta: ChatMessageDeltaOaicompat)
    ensures
        ({
            &&& delta.wire() matches WireView::Object(members)
            &&& members.len() == 4
            &&& members[0].0 == "role"@
            &&& delta.role matches Some(text) ==> members[0].1 == WireView::Text(text@)
            &&& delta.role is None ==> members[0].1 is Null
            &&& members[1].0 == "content"@
            &&& delta.content matches Some(text) ==> members[1].1 == WireView::Text(text@)
            &&& delta.content is None ==> members[1].1 is Null
            &&& members[2].0 == "reasoning_content"@
            &&& delta.reasoning_content matches Some(text) ==> members[2].1 == WireView::Text(text@)
            &&& delta.reasoning_content is None ==> members[2].1 is Null
            &&& members[3].0 == "tool_calls"@
            &&& members[3].1 matches WireView::List(calls)
            &&& calls.len() == delta.tool_calls@.len()
            &&& forall|i: int|
                0 <= i < calls.len() ==> #[trigger] calls[i] == delta.tool_calls@[i].wire()
        }),
{
}

/// Each field of a tool call delta stands under its own key.
pub proof fn call_delta_fields_stand_under_their_keys(call: ToolCallDeltaOaicompat)
    ensures
        ({
            &&& call.wire() matches WireView::Object(members)
            &&& members.len() == 4
            &&& members[0].0 == "index"@
            &&& members[0].1 == WireView::Number(call.index as nat)
            &&& members[1].0 == "id"@
            &&& call.id matches Some(text) ==> members[1].1 == WireView::Text(text@)
            &&& call.id is None ==> members[1].1 is Null
            &&& members[2].0 == "type"@
            &&& call.tool_type == Some(ToolType::Function) ==> members[2].1 == WireView::Text(
                "function"@,
            )
            &&& call.tool_type is None ==> members[2].1 is Null
            &&& members[3].0 == "function"@
            &&& call.function matches Some(function) ==> members[3].1 == function.wire()
            &&& call.function is None ==> members[3].1 is Null
        }),
{
}

/// The name fragment of a function call delta stands under `name` and the arguments
/// fragment under `arguments`, also where there is only one of the two.
pub proof fn function_delta_fields_stand_under_their_keys(function: FunctionCallDeltaOaicompat)
    ensures
        ({
            &&& function.wire() matches WireView::Object(members)
            &&& members.len() == 2
            &&& members[0].0 == "name"@
            &&& function.name matches Some(text) ==> members[0].1 == WireView::Text(text@)
            &&& function.name is None ==> members[0].1 is Null
            &&& members[1].0 == "arguments"@
            &&& function.arguments matches Some(text) ==> members[1].1 == WireView::Text(text@)
            &&& function.arguments is None ==> members[1].1 is Null
        }),
{
}

/// Each field of a chat message stands under its own key, whatever the other fields
/// hold.
pub proof fn message_fields_stand_under_their_keys(message: ChatMessageOaicompat)
    ensures
        ({
            &&& message.wire() matches WireView::Object(members)
            &&& members.len() == 6
            &&& members[0].0 == "role"@
            &&& members[0].1 == WireView::Text(message.role@)
            &&& members[1].0 == "content"@
            &&& message.content matches Some(content) ==> members[1].1 == WireView::Json(content)
            &&& message.content is None ==> members[1].1 is Null
            &&& members[2].0 == "reasoning_content"@
            &&& message.reasoning_content matches Some(text) ==> members[2].1 == WireView::Text(text@)
            &&& message.reasoning_content is None ==> members[2].1 is Null
            &&& members[3].0 == "name"@
            &&& message.name matches Some(text) ==> members[3].1 == WireView::Text(text@)
            &&& message.name is None ==> members[3].1 is Null
            &&& members[4].0 == "tool_call_id"@
            &&& message.tool_call_id matches Some(text) ==> members[4].1 == WireView::Text(text@)
            &&& message.tool_call_id is None ==> members[4].1 is Null
            &&& members[5].0 == "tool_calls"@
            &&& members[5].1 matches WireView::List(calls)
            &&& calls.len() == message.tool_calls@.len()
            &&& forall|i: int|
                0 <= i < calls.len() ==> #[trigger] calls[i] == message.tool_calls@[i].wire()
        }),
{
}

/// Each field of a tool call, and of its function call, stands under its own key.
pub proof fn call_fields_stand_under_their_keys(call: ToolCallOaicompat, function: FunctionCallOaicompat)
    ensures
        ({
            &&& call.wire() matches WireView::Object(members)
            &&& members.len() == 3
            &&& members[0].0 == "id"@
            &&& call.id matches Some(text) ==> members[0].1 == WireView::Text(text@)
            &&& call.id is None ==> members[0].1 is Null
            &&& members[1].0 == "type"@
            &&& call.tool_type == Some(ToolType::Function) ==> members[1].1 == WireView::Text(
                "function"@,
            )
            &&& call.tool_type is None ==> members[1].1 is Null
            &&& members[2].0 == "function"@
            &&& members[2].1 == call.function.wire()
        }),
        ({
            &&& function.wire() matches WireView::Object(members)
            &&& members.len() == 2
            &&& members[0].0 == "name"@
            &&& members[0].1 == WireView::Text(function.name@)
            &&& members[1].0 == "arguments"@
            &&& members[1].1 == WireView::Json(function.arguments)
        }),
{
}

/// Each field of a function definition stands under its own key, whatever the other
/// fields hold; a description and a strict-mode flag that are not there are left
/// out. A tool has its type and its function.
pub proof fn tool_fields_stand_under_their_keys(tool: ToolDefinition, definition: FunctionDefinition)
    ensures
        ({
            &&& tool.wire() matches WireView::Object(members)
            &&& members.len() == 2
            &&& members[0].0 == "type"@
            &&& members[0].1 == WireView::Text("function"@)
            &&& members[1].0 == "function"@
            &&& members[1].1 == tool.function.wire()
        }),
        ({
            let p = if definition.description is Some {
                2int
            } else {
                1
            };
            &&& definition.wire() matches WireView::Object(members)
            &&& members.len() == p + 1 + if definition.strict is Some {
                1int
            } else {
                0
            }
            &&& members[0] == ("name"@, WireView::Text(definition.name@))
            &&& definition.description matches Some(text) ==> members[1] == (
                "description"@,
                WireView::Text(text@),
            )
            &&& members[p] == ("parameters"@, WireView::Json(definition.parameters))
            &&& definition.strict matches Some(flag) ==> members[p + 1] == (
                "strict"@,
                WireView::Bool(flag),
            )
        }),
{
}

} // verus!
