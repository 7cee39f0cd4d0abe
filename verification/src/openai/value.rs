//! Tools and tool choice modes as JSON values: how they are written, how they are
//! read, and that what was written reads back.
use vstd::prelude::*;

use serde_json::Value;

use crate::json::{
    attach, by_key, distinct_members_are_counted_by_key, lookup, member, JsonValue, JsonView,
};
use crate::openai::tools::{
    tool_choice_names_are_distinct, FunctionDefinition, ToolChoice, ToolDefinition, ToolType,
};
use crate::openai::wire::{definition_keys_differ, same_definition, WireView};
use crate::trusted::{close_value, json_view, open_value};

verus! {

/// The name that a JSON value gives to an alternative without content: a string, or
/// an object that has just one member, whose key is the name and whose value is
/// `null`.
pub open spec fn alternative(value: Value) -> Option<Seq<char>> {
    match json_view(value) {
        JsonView::Text(name) => Some(name),
        JsonView::Object(members) => {
            let name = members.dom().choose();
            if members.dom().len() == 1 && json_view(members[name]) is Null {
                Some(name)
            } else {
                None
            }
        },
        _ => None,
    }
}

/// The name that a JSON value gives to an alternative without content.
fn read_alternative(value: Value) -> (name: Option<String>)
    ensures
        name matches Some(s) ==> alternative(value) == Some(s@),
        name is None ==> alternative(value) is None,
        json_view(value) matches JsonView::Object(members) ==> members.dom().finite(),
{
    match open_value(value) {
        JsonValue::Text(name) => Some(name),
        JsonValue::Object(members) => {
            proof {
                distinct_members_are_counted_by_key(members@);
            }
            if members.len() != 1 {
                return None;
            }
            assert(by_key(members@).dom().contains(members@[0].0@)) by {
                reveal_with_fuel(by_key, 2);
            }
            assert(by_key(members@)[members@[0].0@] == members@[0].1) by {
                reveal_with_fuel(by_key, 2);
            }
            assert(by_key(members@).dom().choose() == members@[0].0@);
            match open_value(members[0].1.clone()) {
                JsonValue::Null => Some(members[0].0.clone()),
                _ => None,
            }
        },
        _ => None,
    }
}

/// A JSON value names an alternative exactly if it is the string with that name, or
/// the object with `null` under that name and nothing else.
pub proof fn alternatives_are_named(value: Value, name: Seq<char>)
    requires
        json_view(value) matches JsonView::Object(members) ==> members.dom().finite(),
    ensures
        alternative(value) == Some(name) <==> (json_view(value) == JsonView::Text(name) || (json_view(
            value,
        ) matches JsonView::Object(members) && members.dom() == Set::empty().insert(name) && json_view(
            members[name],
        ) is Null)),
{
    if let JsonView::Object(members) = json_view(value) {
        let dom = members.dom();
        Set::lemma_is_singleton(dom);
        if dom.len() == 1 {
            assert(dom.contains(dom.choose()));
            assert(dom =~= Set::empty().insert(dom.choose()));
        }
        if dom == Set::empty().insert(name) {
            assert(dom.contains(name));
            assert(dom.len() == 1);
        }
    }
}

/// The text of a JSON value that has to be a string.
fn read_text(value: Value) -> (text: Option<String>)
    ensures
        text matches Some(s) ==> json_view(value) == JsonView::Text(s@),
        text is None ==> !(json_view(value) is Text),
{
    match open_value(value) {
        JsonValue::Text(text) => Some(text),
        _ => None,
    }
}

/// Whether a JSON value, if there is one, can be read as an optional string: absent
/// and `null` are no string.
pub open spec fn is_optional_text(value: Option<Value>, text: Option<String>) -> bool {
    match (value, text) {
        (Some(value), Some(text)) => json_view(value) == JsonView::Text(text@),
        (Some(value), None) => json_view(value) is Null,
        (None, text) => text is None,
    }
}

/// What an optional string reads as, where it can be read.
fn read_optional_text(value: Option<Value>) -> (read: Option<Option<String>>)
    ensures
        read matches Some(text) ==> is_optional_text(value, text),
        read is None ==> forall|text: Option<String>| !#[trigger] is_optional_text(value, text),
        read is Some <==> (value matches Some(v) ==> json_view(v) is Null || json_view(v) is Text),
{
    match value {
        None => Some(None),
        Some(value) => match open_value(value) {
            JsonValue::Null => Some(None),
            JsonValue::Text(text) => Some(Some(text)),
            _ => None,
        },
    }
}

/// Whether a JSON value, if there is one, can be read as an optional flag: absent
/// and `null` are no flag.
pub open spec fn is_optional_flag(value: Option<Value>, flag: Option<bool>) -> bool {
    match (value, flag) {
        (Some(value), Some(flag)) => json_view(value) == JsonView::Bool(flag),
        (Some(value), None) => json_view(value) is Null,
        (None, flag) => flag is None,
    }
}

/// What an optional flag reads as, where it can be read.
fn read_optional_flag(value: Option<Value>) -> (read: Option<Option<bool>>)
    ensures
        read matches Some(flag) ==> is_optional_flag(value, flag),
        read is None ==> forall|flag: Option<bool>| !#[trigger] is_optional_flag(value, flag),
        read is Some <==> (value matches Some(v) ==> json_view(v) is Null || json_view(v) is Bool),
{
    match value {
        None => Some(None),
        Some(value) => match open_value(value) {
            JsonValue::Null => Some(None),
            JsonValue::Bool(flag) => Some(Some(flag)),
            _ => None,
        },
    }
}

/// The values of the fields with some keys: the members of an object with these
/// keys, other members being passed over, or the items of an array that has just
/// as many.
pub open spec fn fields(value: Value, keys: Seq<Seq<char>>) -> Option<Seq<Option<Value>>> {
    match json_view(value) {
        JsonView::Object(members) => Some(
            Seq::new(keys.len(), |i: int| lookup(members, keys[i])),
        ),
        JsonView::Array(items) => if items.len() == keys.len() {
            Some(Seq::new(keys.len(), |i: int| Some(items[i])))
        } else {
            None
        },
        _ => None,
    }
}

/// The values of the fields with some keys.
fn read_fields(value: Value, keys: &[&str]) -> (read: Option<Vec<Option<Value>>>)
    ensures
        read matches Some(values) ==> fields(
            value,
            keys@.map_values(|key: &str| key@),
        ) == Some(values@),
        read is None ==> fields(value, keys@.map_values(|key: &str| key@)) is None,
{
    let ghost names = keys@.map_values(|key: &str| key@);
    let mut values: Vec<Option<Value>> = Vec::new();
    match open_value(value) {
        JsonValue::Object(members) => {
            for i in 0..keys.len()
                invariant
                    names == keys@.map_values(|key: &str| key@),
                    values@ == Seq::new(i as nat, |j: int| lookup(by_key(members@), names[j])),
            {
                values.push(member(&members, keys[i]));
            }
            Some(values)
        },
        JsonValue::Array(items) => {
            if items.len() != keys.len() {
                return None;
            }
            for i in 0..items.len()
                invariant
                    values@ == Seq::new(i as nat, |j: int| Some(items@[j])),
            {
                values.push(Some(items[i].clone()));
            }
            assert(values@ == Seq::new(names.len(), |j: int| Some(items@[j])));
            Some(values)
        },
        _ => None,
    }
}

impl ToolType {
    /// Whether a JSON value stands for a tool type.
    pub open spec fn reads_from(self, value: Value) -> bool {
        match self {
            ToolType::Function => alternative(value) == Some("function"@),
        }
    }

    /// The JSON value of a tool type.
    pub fn to_value(self) -> (value: Value)
        ensures
            json_view(value) == JsonView::Text("function"@),
            self.reads_from(value),
    {
        match self {
            ToolType::Function => close_value(JsonValue::Text(String::from("function"))),
        }
    }

    /// The tool type that a JSON value stands for, if it stands for one.
    pub fn from_value(value: Value) -> (read: Option<Self>)
        ensures
            read matches Some(tool_type) ==> tool_type.reads_from(value),
            read is None ==> forall|tool_type: ToolType| !#[trigger] tool_type.reads_from(value),
            read == Some(ToolType::Function) <==> (json_view(value) == JsonView::Text("function"@) || (json_view(
                value,
            ) matches JsonView::Object(members) && members.dom() == Set::empty().insert("function"@) && json_view(
                members["function"@],
            ) is Null)),
    {
        let name = read_alternative(value);
        proof {
            alternatives_are_named(value, "function"@);
        }
        match name {
            Some(name) => if name == String::from("function") {
                Some(ToolType::Function)
            } else {
                None
            },
            None => None,
        }
    }
}

impl ToolChoice {
    /// Whether a JSON value stands for a tool choice mode.
    pub open spec fn reads_from(self, value: Value) -> bool {
        alternative(value) == Some(self.name())
    }

    /// The JSON value of a tool choice mode: its wire-format string.
    pub fn to_value(self) -> (value: Value)
        ensures
            json_view(value) == JsonView::Text(self.name()),
            self.reads_from(value),
            self == ToolChoice::Auto ==> json_view(value) == JsonView::Text("auto"@),
            self == ToolChoice::Required ==> json_view(value) == JsonView::Text("required"@),
            self == ToolChoice::Disabled ==> json_view(value) == JsonView::Text("none"@),
    {
        close_value(JsonValue::Text(String::from(self.as_str())))
    }

    /// The tool choice mode that a JSON value stands for, if it stands for one.
    pub fn from_value(value: Value) -> (read: Option<Self>)
        ensures
            read matches Some(choice) ==> choice.reads_from(value),
            read is None ==> forall|choice: ToolChoice| !#[trigger] choice.reads_from(value),
            read == Some(ToolChoice::Auto) <==> (json_view(value) == JsonView::Text("auto"@) || (json_view(
                value,
            ) matches JsonView::Object(members) && members.dom() == Set::empty().insert("auto"@) && json_view(
                members["auto"@],
            ) is Null)),
            read == Some(ToolChoice::Required) <==> (json_view(value) == JsonView::Text("required"@) || (json_view(
                value,
            ) matches JsonView::Object(members) && members.dom() == Set::empty().insert("required"@) && json_view(
                members["required"@],
            ) is Null)),
            read == Some(ToolChoice::Disabled) <==> (json_view(value) == JsonView::Text("none"@) || (json_view(
                value,
            ) matches JsonView::Object(members) && members.dom() == Set::empty().insert("none"@) && json_view(
                members["none"@],
            ) is Null)),
    {
        let name = read_alternative(value);
        proof {
            alternatives_are_named(value, "auto"@);
            alternatives_are_named(value, "required"@);
            alternatives_are_named(value, "none"@);
            tool_choice_names_are_distinct(ToolChoice::Auto, ToolChoice::Required);
            tool_choice_names_are_distinct(ToolChoice::Auto, ToolChoice::Disabled);
            tool_choice_names_are_distinct(ToolChoice::Required, ToolChoice::Disabled);
        }
        match name {
            Some(name) => if name == String::from("auto") {
                Some(ToolChoice::Auto)
            } else if name == String::from("required") {
                Some(ToolChoice::Required)
            } else if name == String::from("none") {
                Some(ToolChoice::Disabled)
            } else {
                None
            },
            None => None,
        }
    }
}

/// A tool choice mode is read from `auto`, `required` and `none`, and a tool type from
/// `function`, each as a string or as the key of an object with `null` under it.
pub proof fn choices_and_types_are_read_by_their_names(value: Value)
    requires
        json_view(value) matches JsonView::Object(members) ==> members.dom().finite(),
    ensures
        ToolChoice::Auto.reads_from(value) <==> (json_view(value) == JsonView::Text("auto"@) || (json_view(
            value,
        ) matches JsonView::Object(members) && members.dom() == Set::empty().insert("auto"@) && json_view(
            members["auto"@],
        ) is Null)),
        ToolChoice::Required.reads_from(value) <==> (json_view(value) == JsonView::Text("required"@) || (json_view(
            value,
        ) matches JsonView::Object(members) && members.dom() == Set::empty().insert("required"@) && json_view(
            members["required"@],
        ) is Null)),
        ToolChoice::Disabled.reads_from(value) <==> (json_view(value) == JsonView::Text("none"@) || (json_view(
            value,
        ) matches JsonView::Object(members) && members.dom() == Set::empty().insert("none"@) && json_view(
            members["none"@],
        ) is Null)),
        ToolType::Function.reads_from(value) <==> (json_view(value) == JsonView::Text("function"@) || (json_view(
            value,
        ) matches JsonView::Object(members) && members.dom() == Set::empty().insert("function"@) && json_view(
            members["function"@],
        ) is Null)),
{
    alternatives_are_named(value, "auto"@);
    alternatives_are_named(value, "required"@);
    alternatives_are_named(value, "none"@);
    alternatives_are_named(value, "function"@);
}

/// A JSON value stands for at most one tool choice mode.
pub proof fn at_most_one_tool_choice_reads(value: Value, a: ToolChoice, b: ToolChoice)
    requires
        a.reads_from(value),
        b.reads_from(value),
    ensures
        a == b,
{
    tool_choice_names_are_distinct(a, b);
}

/// A tool choice mode is written as its wire-format string, and what reads back from
/// that string is this mode and no other.
pub proof fn tool_choice_reads_back(choice: ToolChoice, value: Value, read: ToolChoice)
    requires
        json_view(value) == JsonView::Text(choice.name()),
    ensures
        choice.reads_from(value),
        read.reads_from(value) ==> read == choice,
{
    if read.reads_from(value) {
        at_most_one_tool_choice_reads(value, read, choice);
    }
}

/// Whether a JSON value, if there is one, is the string that an optional string is
/// written as: where there is none, nothing is written.
pub open spec fn writes_optional_text(text: Option<String>, value: Option<Value>) -> bool {
    match (text, value) {
        (Some(text), Some(value)) => json_view(value) == JsonView::Text(text@),
        (None, None) => true,
        _ => false,
    }
}

/// Whether a JSON value, if there is one, is the flag that an optional flag is
/// written as: where there is none, nothing is written.
pub open spec fn writes_optional_flag(flag: Option<bool>, value: Option<Value>) -> bool {
    match (flag, value) {
        (Some(flag), Some(value)) => json_view(value) == JsonView::Bool(flag),
        (None, None) => true,
        _ => false,
    }
}

/// The keys of a function definition.
pub open spec fn definition_keys() -> Seq<Seq<char>> {
    seq!["name"@, "description"@, "parameters"@, "strict"@]
}

/// The keys of a tool definition.
pub open spec fn tool_keys() -> Seq<Seq<char>> {
    seq!["type"@, "function"@]
}

impl FunctionDefinition {
    /// Whether a JSON value stands for a function definition. The name and the
    /// parameters have to be there.
    pub open spec fn reads_from(self, value: Value) -> bool {
        &&& fields(value, definition_keys()) matches Some(values)
        &&& values[0] matches Some(name)
        &&& json_view(name) == JsonView::Text(self.name@)
        &&& is_optional_text(values[1], self.description)
        &&& values[2] == Some(self.parameters)
        &&& is_optional_flag(values[3], self.strict)
    }

    /// Whether a JSON value is the one that a function definition is written as: an
    /// object with the name and the parameters, with the description and the
    /// strict-mode flag where there are any, and with nothing else.
    pub open spec fn written_as(self, value: Value) -> bool {
        &&& json_view(value) matches JsonView::Object(members)
        &&& members.dom().subset_of(definition_keys().to_set())
        &&& lookup(members, "name"@) matches Some(name)
        &&& json_view(name) == JsonView::Text(self.name@)
        &&& writes_optional_text(self.description, lookup(members, "description"@))
        &&& lookup(members, "parameters"@) == Some(self.parameters)
        &&& writes_optional_flag(self.strict, lookup(members, "strict"@))
    }

    /// The JSON value of a function definition.
    pub fn to_value(&self) -> (value: Value)
        ensures
            self.written_as(value),
            ({
                &&& json_view(value) matches JsonView::Object(members)
                &&& forall|key: Seq<char>| #[trigger]
                    members.dom().contains(key) ==> key == "name"@ || key == "description"@ || key
                        == "parameters"@ || key == "strict"@
                &&& members.dom().contains("name"@)
                &&& json_view(members["name"@]) == JsonView::Text(self.name@)
                &&& members.dom().contains("parameters"@)
                &&& members["parameters"@] == self.parameters
                &&& members.dom().contains("description"@) <==> self.description is Some
                &&& self.description matches Some(text) ==> json_view(members["description"@])
                    == JsonView::Text(text@)
                &&& members.dom().contains("strict"@) <==> self.strict is Some
                &&& self.strict matches Some(flag) ==> json_view(members["strict"@])
                    == JsonView::Bool(flag)
            }),
    {
        proof {
            definition_keys_differ();
            let keys = definition_keys();
            assert(keys[0] == "name"@ && keys[1] == "description"@ && keys[2] == "parameters"@
                && keys[3] == "strict"@);
        }
        let mut members: Vec<(String, Value)> = Vec::new();
        attach(&mut members, "name", close_value(JsonValue::Text(self.name.clone())));
        if let Some(description) = &self.description {
            attach(
                &mut members,
                "description",
                close_value(JsonValue::Text(description.clone())),
            );
        }
        attach(&mut members, "parameters", self.parameters.clone());
        if let Some(strict) = self.strict {
            attach(&mut members, "strict", close_value(JsonValue::Bool(strict)));
        }
        let value = close_value(JsonValue::Object(members));
        proof {
            definitions_are_written_field_by_field(*self, value);
        }
        value
    }

    /// The function definition that a JSON value stands for, if it stands for one.
    pub fn from_value(value: Value) -> (read: Option<Self>)
        ensures
            read matches Some(definition) ==> definition.reads_from(value),
            read is None ==> forall|definition: FunctionDefinition|
                !#[trigger] definition.reads_from(value),
            json_view(value) matches JsonView::Object(members) ==> {
                &&& read is Some <==> {
                    &&& members.dom().contains("name"@)
                    &&& json_view(members["name"@]) is Text
                    &&& members.dom().contains("parameters"@)
                    &&& members.dom().contains("description"@) ==> json_view(
                        members["description"@],
                    ) is Null || json_view(members["description"@]) is Text
                    &&& members.dom().contains("strict"@) ==> json_view(members["strict"@]) is Null
                        || json_view(members["strict"@]) is Bool
                }
                &&& read matches Some(definition) ==> {
                    &&& json_view(members["name"@]) == JsonView::Text(definition.name@)
                    &&& members["parameters"@] == definition.parameters
                    &&& definition.description matches Some(text) ==> members.dom().contains("description"@)
                        && json_view(members["description"@]) == JsonView::Text(text@)
                    &&& definition.description is None ==> members.dom().contains("description"@) ==> json_view(
                        members["description"@],
                    ) is Null
                    &&& definition.strict matches Some(flag) ==> members.dom().contains("strict"@) && json_view(
                        members["strict"@],
                    ) == JsonView::Bool(flag)
                    &&& definition.strict is None ==> members.dom().contains("strict"@) ==> json_view(
                        members["strict"@],
                    ) is Null
                }
            },
            json_view(value) matches JsonView::Array(items) ==> {
                &&& read is Some <==> {
                    &&& items.len() == 4
                    &&& json_view(items[0]) is Text
                    &&& json_view(items[1]) is Null || json_view(items[1]) is Text
                    &&& json_view(items[3]) is Null || json_view(items[3]) is Bool
                }
                &&& read matches Some(definition) ==> {
                    &&& json_view(items[0]) == JsonView::Text(definition.name@)
                    &&& definition.description matches Some(text) ==> json_view(items[1]) == JsonView::Text(text@)
                    &&& definition.description is None ==> json_view(items[1]) is Null
                    &&& items[2] == definition.parameters
                    &&& definition.strict matches Some(flag) ==> json_view(items[3]) == JsonView::Bool(flag)
                    &&& definition.strict is None ==> json_view(items[3]) is Null
                }
            },
            read is Some ==> json_view(value) is Object || json_view(value) is Array,
    {
        let keys = ["name", "description", "parameters", "strict"];
        assert(keys@.map_values(|key: &str| key@) == definition_keys());
        let values = read_fields(value, &keys)?;
        let name = read_text(values[0].clone()?)?;
        let description = read_optional_text(values[1].clone())?;
        let parameters = values[2].clone()?;
        let strict = read_optional_flag(values[3].clone())?;
        Some(FunctionDefinition { name, description, parameters, strict })
    }
}

impl ToolDefinition {
    /// Whether a JSON value stands for a tool definition. The tool type is that of a
    /// function tool where it is not there; the function has to be there.
    pub open spec fn reads_from(self, value: Value) -> bool {
        &&& fields(value, tool_keys()) matches Some(values)
        &&& match values[0] {
            Some(tool_type) => self.tool_type.reads_from(tool_type),
            None => self.tool_type == ToolType::Function,
        }
        &&& values[1] matches Some(function)
        &&& self.function.reads_from(function)
    }

    /// Whether a JSON value is the one that a tool definition is written as: an
    /// object with the tool type and the function.
    pub open spec fn written_as(self, value: Value) -> bool {
        &&& json_view(value) matches JsonView::Object(members)
        &&& members.dom() == tool_keys().to_set()
        &&& json_view(members["type"@]) == JsonView::Text("function"@)
        &&& self.function.written_as(members["function"@])
    }

    /// The JSON value of a tool definition.
    pub fn to_value(&self) -> (value: Value)
        ensures
            self.written_as(value),
            ({
                &&& json_view(value) matches JsonView::Object(members)
                &&& forall|key: Seq<char>| #[trigger]
                    members.dom().contains(key) <==> key == "type"@ || key == "function"@
                &&& json_view(members["type"@]) == JsonView::Text("function"@)
                &&& self.function.written_as(members["function"@])
            }),
    {
        proof {
            tool_keys_differ();
            let keys = tool_keys();
            assert(keys[0] == "type"@ && keys[1] == "function"@);
        }
        let mut members: Vec<(String, Value)> = Vec::new();
        attach(&mut members, "type", self.tool_type.to_value());
        attach(&mut members, "function", self.function.to_value());
        assert(by_key(members@).dom() =~= tool_keys().to_set());
        let value = close_value(JsonValue::Object(members));
        proof {
            tools_are_written_field_by_field(*self, value);
        }
        value
    }

    /// The tool definition that a JSON value stands for, if it stands for one.
    pub fn from_value(value: Value) -> (read: Option<Self>)
        ensures
            read matches Some(tool) ==> tool.reads_from(value),
            read is None ==> forall|tool: ToolDefinition| !#[trigger] tool.reads_from(value),
            read matches Some(tool) ==> match json_view(value) {
                JsonView::Object(members) => {
                    &&& members.dom().contains("type"@) ==> tool.tool_type.reads_from(
                        members["type"@],
                    )
                    &&& members.dom().contains("function"@)
                    &&& tool.function.reads_from(members["function"@])
                },
                JsonView::Array(items) => {
                    &&& items.len() == 2
                    &&& tool.tool_type.reads_from(items[0])
                    &&& tool.function.reads_from(items[1])
                },
                _ => false,
            },
    {
        let keys = ["type", "function"];
        assert(keys@.map_values(|key: &str| key@) == tool_keys());
        let values = read_fields(value, &keys)?;
        let tool_type = match values[0].clone() {
            Some(tool_type) => ToolType::from_value(tool_type)?,
            None => ToolType::default(),
        };
        let function = FunctionDefinition::from_value(values[1].clone()?)?;
        Some(ToolDefinition { tool_type, function })
    }
}

/// A function definition is written as an object with the name under `name` and the
/// parameters under `parameters`; under `description` it has the text and under
/// `strict` the flag, whatever the other fields hold, exactly where there is one;
/// and it has no other keys.
pub proof fn definitions_are_written_field_by_field(definition: FunctionDefinition, value: Value)
    requires
        definition.written_as(value),
    ensures
        ({
            &&& json_view(value) matches JsonView::Object(members)
            &&& forall|key: Seq<char>| #[trigger]
                members.dom().contains(key) ==> key == "name"@ || key == "description"@ || key
                    == "parameters"@ || key == "strict"@
            &&& members.dom().contains("name"@)
            &&& json_view(members["name"@]) == JsonView::Text(definition.name@)
            &&& members.dom().contains("parameters"@)
            &&& members["parameters"@] == definition.parameters
            &&& members.dom().contains("description"@) <==> definition.description is Some
            &&& definition.description matches Some(text) ==> json_view(members["description"@])
                == JsonView::Text(text@)
            &&& members.dom().contains("strict"@) <==> definition.strict is Some
            &&& definition.strict matches Some(flag) ==> json_view(members["strict"@])
                == JsonView::Bool(flag)
        }),
{
    let keys = definition_keys();
    assert(keys[0] == "name"@ && keys[1] == "description"@ && keys[2] == "parameters"@ && keys[3]
        == "strict"@);
    let members = json_view(value)->Object_0;
    assert forall|key: Seq<char>| #[trigger] members.dom().contains(key) implies key == "name"@
        || key == "description"@ || key == "parameters"@ || key == "strict"@ by {
        assert(keys.to_set().contains(key));
        assert(keys.contains(key));
    }
}

/// A function definition is read from an object by its keys, other keys being passed
/// over, or from an array by the positions of the fields. A flag reads as this flag
/// and a text as this text, whatever the other fields hold; a description or flag
/// that is `null` or, in an object, not there reads as none.
pub proof fn definitions_are_read_field_by_field(definition: FunctionDefinition, value: Value)
    ensures
        json_view(value) matches JsonView::Object(members) ==> (definition.reads_from(value) <==> {
            &&& members.dom().contains("name"@)
            &&& members.dom().contains("parameters"@)
            &&& json_view(members["name"@]) == JsonView::Text(definition.name@)
            &&& members["parameters"@] == definition.parameters
            &&& definition.description matches Some(text) ==> members.dom().contains("description"@)
                && json_view(members["description"@]) == JsonView::Text(text@)
            &&& definition.description is None ==> members.dom().contains("description"@) ==> json_view(
                members["description"@],
            ) is Null
            &&& definition.strict matches Some(flag) ==> members.dom().contains("strict"@) && json_view(
                members["strict"@],
            ) == JsonView::Bool(flag)
            &&& definition.strict is None ==> members.dom().contains("strict"@) ==> json_view(
                members["strict"@],
            ) is Null
        }),
        json_view(value) matches JsonView::Array(items) ==> (definition.reads_from(value) <==> {
            &&& items.len() == 4
            &&& json_view(items[0]) == JsonView::Text(definition.name@)
            &&& definition.description matches Some(text) ==> json_view(items[1]) == JsonView::Text(text@)
            &&& definition.description is None ==> json_view(items[1]) is Null
            &&& items[2] == definition.parameters
            &&& definition.strict matches Some(flag) ==> json_view(items[3]) == JsonView::Bool(flag)
            &&& definition.strict is None ==> json_view(items[3]) is Null
        }),
        definition.reads_from(value) ==> json_view(value) is Object || json_view(value) is Array,
{
    let keys = definition_keys();
    assert(keys[0] == "name"@ && keys[1] == "description"@ && keys[2] == "parameters"@ && keys[3]
        == "strict"@);
}

/// A tool definition is written as an object with its type under `type`, its function
/// under `function`, and no other keys.
pub proof fn tools_are_written_field_by_field(tool: ToolDefinition, value: Value)
    requires
        tool.written_as(value),
    ensures
        ({
            &&& json_view(value) matches JsonView::Object(members)
            &&& forall|key: Seq<char>| #[trigger]
                members.dom().contains(key) <==> key == "type"@ || key == "function"@
            &&& json_view(members["type"@]) == JsonView::Text("function"@)
            &&& tool.function.written_as(members["function"@])
        }),
{
    let keys = tool_keys();
    assert(keys[0] == "type"@ && keys[1] == "function"@);
    let members = json_view(value)->Object_0;
    assert forall|key: Seq<char>| #[trigger] members.dom().contains(key) <==> key == "type"@ || key
        == "function"@ by {
        assert(keys.to_set().contains(key) <==> keys.contains(key));
        if key == "type"@ {
            assert(keys.contains(keys[0]));
        }
        if key == "function"@ {
            assert(keys.contains(keys[1]));
        }
    }
}

/// A tool definition is read from an object by its keys, where the type need not be
/// there, or from an array of the type and the function.
pub proof fn tools_are_read_field_by_field(tool: ToolDefinition, value: Value)
    ensures
        json_view(value) matches JsonView::Object(members) ==> (tool.reads_from(value) <==> {
            &&& members.dom().contains("type"@) ==> tool.tool_type.reads_from(members["type"@])
            &&& members.dom().contains("function"@)
            &&& tool.function.reads_from(members["function"@])
        }),
        json_view(value) matches JsonView::Array(items) ==> (tool.reads_from(value) <==> {
            &&& items.len() == 2
            &&& tool.tool_type.reads_from(items[0])
            &&& tool.function.reads_from(items[1])
        }),
        tool.reads_from(value) ==> json_view(value) is Object || json_view(value) is Array,
{
    let keys = tool_keys();
    assert(keys[0] == "type"@ && keys[1] == "function"@);
}

proof fn tool_keys_differ()
    ensures
        "type"@ != "function"@,
{
    reveal_strlit("type");
    reveal_strlit("function");
    assert("type"@.len() == 4 && "function"@.len() == 8);
}

/// A JSON value stands for at most one tool definition.
pub proof fn at_most_one_tool_reads(value: Value, a: ToolDefinition, b: ToolDefinition)
    requires
        a.reads_from(value),
        b.reads_from(value),
    ensures
        a.tool_type == b.tool_type,
        same_definition(a.function, b.function),
{
}

/// A tool definition that was written reads back, and nothing else does: the
/// description and the strict-mode flag that were left out because there were none
/// come back as none.
pub proof fn tool_reads_back(tool: ToolDefinition, value: Value, read: ToolDefinition)
    requires
        tool.written_as(value),
    ensures
        tool.reads_from(value),
        read.reads_from(value) ==> read.tool_type == tool.tool_type && same_definition(
            read.function,
            tool.function,
        ),
{
    let keys = tool_keys();
    assert(keys[0] == "type"@ && keys[1] == "function"@);
    assert(keys.to_set().contains(keys[0]) && keys.to_set().contains(keys[1]));
    assert(tool.function.reads_from(json_view(value)->Object_0["function"@]));
    if read.reads_from(value) {
        at_most_one_tool_reads(value, read, tool);
    }
}

/// Whether a JSON value is what a document without parts is written as.
pub open spec fn is_leaf(value: Value, wire: WireView) -> bool {
    match wire {
        WireView::Null => json_view(value) is Null,
        WireView::Bool(b) => json_view(value) == JsonView::Bool(b),
        WireView::Text(text) => json_view(value) == JsonView::Text(text),
        WireView::Json(json) => value == json,
        _ => false,
    }
}

/// The JSON value of a tool definition has just the keys of its wire form, and under
/// each of them what the wire form has there; so has that of the function.
pub proof fn tool_value_follows_its_wire_form(tool: ToolDefinition, value: Value)
    requires
        tool.written_as(value),
    ensures
        ({
            let members = json_view(value)->Object_0;
            let wire = tool.wire()->Object_0;
            let function = json_view(members["function"@])->Object_0;
            let function_wire = tool.function.wire_members();
            &&& members.dom() == wire.map_values(|member: (Seq<char>, WireView)| member.0).to_set()
            &&& wire[0].0 == "type"@ && is_leaf(members["type"@], wire[0].1)
            &&& wire[1].0 == "function"@ && wire[1].1 == WireView::Object(function_wire)
            &&& function.dom() == function_wire.map_values(
                |member: (Seq<char>, WireView)| member.0,
            ).to_set()
            &&& forall|i: int|
                0 <= i < function_wire.len() ==> is_leaf(
                    function[function_wire[i].0],
                    (#[trigger] function_wire[i]).1,
                )
        }),
{
    definition_keys_differ();
    let key = |member: (Seq<char>, WireView)| member.0;
    let wire = tool.wire()->Object_0;
    assert(wire.map_values(key) == tool_keys());
    let function = json_view(json_view(value)->Object_0["function"@])->Object_0;
    let function_wire = tool.function.wire_members();
    let names = function_wire.map_values(key);
    let p = if tool.function.description is Some {
        2int
    } else {
        1
    };
    assert(names[0] == "name"@ && names[p] == "parameters"@);
    assert(tool.function.description is Some ==> names[1] == "description"@);
    assert(tool.function.strict is Some ==> names[p + 1] == "strict"@);
    assert forall|k: Seq<char>| function.dom().contains(k) <==> names.to_set().contains(k) by {
        if function.dom().contains(k) {
            assert(definition_keys().contains(k));
            assert(names.contains(k));
        }
    }
    assert(function.dom() =~= names.to_set());
}

} // verus!
