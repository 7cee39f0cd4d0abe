//! The JSON form in which tools, messages and deltas travel.
use vstd::prelude::*;

use serde_json::Value;

use crate::openai::message::{
    ChatMessageDeltaOaicompat, ChatMessageOaicompat, FunctionCallDeltaOaicompat,
    FunctionCallOaicompat, ToolCallDeltaOaicompat, ToolCallOaicompat,
};
use crate::openai::tools::{FunctionDefinition, ToolChoice, ToolDefinition, ToolType};

verus! {

/// A JSON document that borrows what it holds. The members of an object stand in
/// the order in which they are written.
#[derive(Debug)]
pub enum WireValue<'a> {
    /// `null`.
    Null,
    /// `true` or `false`.
    Bool(bool),
    /// A count.
    Number(usize),
    /// A string.
    Text(&'a str),
    /// A JSON value that is written as it is.
    Json(&'a Value),
    /// An array.
    List(Vec<WireValue<'a>>),
    /// An object.
    Object(Vec<(&'static str, WireValue<'a>)>),
}

/// A [`WireValue`], by its contents.
pub enum WireView {
    Null,
    Bool(bool),
    Number(nat),
    Text(Seq<char>),
    Json(Value),
    List(Seq<WireView>),
    Object(Seq<(Seq<char>, WireView)>),
}

impl<'a> WireValue<'a> {
    /// What the document holds.
    pub open spec fn contents(self) -> WireView
        decreases self,
    {
        match self {
            WireValue::Null => WireView::Null,
            WireValue::Bool(b) => WireView::Bool(b),
            WireValue::Number(n) => WireView::Number(n as nat),
            WireValue::Text(text) => WireView::Text(text@),
            WireValue::Json(value) => WireView::Json(*value),
            WireValue::List(items) => WireView::List(
                Seq::new(
                    items@.len(),
                    |i: int|
                        if 0 <= i < items@.len() {
                            items@[i].contents()
                        } else {
                            WireView::Null
                        },
                ),
            ),
            WireValue::Object(members) => WireView::Object(
                Seq::new(
                    members@.len(),
                    |i: int|
                        if 0 <= i < members@.len() {
                            (members@[i].0@, members@[i].1.contents())
                        } else {
                            (Seq::empty(), WireView::Null)
                        },
                ),
            ),
        }
    }
}

impl<'a> View for WireValue<'a> {
    type V = WireView;

    open spec fn view(&self) -> WireView {
        self.contents()
    }
}

/// Members of an object, by their contents.
pub open spec fn members_view(members: Seq<(&'static str, WireValue<'_>)>) -> Seq<
    (Seq<char>, WireView),
> {
    members.map_values(|member: (&'static str, WireValue<'_>)| (member.0@, member.1@))
}

/// Items of an array, by their contents.
pub open spec fn items_view(items: Seq<WireValue<'_>>) -> Seq<WireView> {
    items.map_values(|item: WireValue<'_>| item@)
}

fn object<'a>(members: Vec<(&'static str, WireValue<'a>)>) -> (wire: WireValue<'a>)
    ensures
        wire == WireValue::Object(members),
        wire@ == WireView::Object(members_view(members@)),
{
    let wire = WireValue::Object(members);
    reveal_with_fuel(WireValue::contents, 2);
    assert(wire@->Object_0 =~= members_view(members@));
    wire
}

fn list<'a>(items: Vec<WireValue<'a>>) -> (wire: WireValue<'a>)
    ensures
        wire == WireValue::List(items),
        wire@ == WireView::List(items_view(items@)),
{
    let wire = WireValue::List(items);
    reveal_with_fuel(WireValue::contents, 2);
    assert(wire@->List_0 =~= items_view(items@));
    wire
}

/// A string, or `null` where there is none.
pub open spec fn optional_text_wire(text: Option<String>) -> WireView {
    match text {
        Some(text) => WireView::Text(text@),
        None => WireView::Null,
    }
}

fn optional_text(text: &Option<String>) -> (wire: WireValue<'_>)
    ensures
        wire@ == optional_text_wire(*text),
        *text matches Some(t) ==> (wire matches WireValue::Text(written) && written@ == t@),
        *text is None ==> wire is Null,
{
    match text {
        Some(text) => WireValue::Text(text.as_str()),
        None => WireValue::Null,
    }
}

/// A tool type, or `null` where there is none.
pub open spec fn optional_type_wire(tool_type: Option<ToolType>) -> WireView {
    match tool_type {
        Some(tool_type) => tool_type.wire(),
        None => WireView::Null,
    }
}

fn optional_type(tool_type: &Option<ToolType>) -> (wire: WireValue<'static>)
    ensures
        wire@ == optional_type_wire(*tool_type),
        *tool_type == Some(ToolType::Function) ==> (wire matches WireValue::Text(written)
            && written@ == "function"@),
        *tool_type is None ==> wire is Null,
{
    match tool_type {
        Some(tool_type) => tool_type.to_wire(),
        None => WireValue::Null,
    }
}

impl ToolType {
    /// The wire form of a tool type: its name in lower case.
    pub open spec fn wire(self) -> WireView {
        match self {
            ToolType::Function => WireView::Text("function"@),
        }
    }

    /// The wire form.
    pub fn to_wire(self) -> (wire: WireValue<'static>)
        ensures
            wire@ == self.wire(),
            wire matches WireValue::Text(written) && written@ == "function"@,
    {
        match self {
            ToolType::Function => WireValue::Text("function"),
        }
    }
}

impl ToolChoice {
    /// The wire form of a tool choice mode: its wire-format string.
    pub open spec fn wire(self) -> WireView {
        WireView::Text(self.name())
    }

    /// The wire form.
    pub fn to_wire(self) -> (wire: WireValue<'static>)
        ensures
            wire@ == self.wire(),
            wire matches WireValue::Text(written) && written@ == match self {
                ToolChoice::Auto => "auto"@,
                ToolChoice::Required => "required"@,
                ToolChoice::Disabled => "none"@,
            },
    {
        WireValue::Text(self.as_str())
    }
}

impl FunctionDefinition {
    /// The members of the wire form: the description and the strict-mode flag are
    /// left out where there is none.
    pub open spec fn wire_members(self) -> Seq<(Seq<char>, WireView)> {
        let name = seq![("name"@, WireView::Text(self.name@))];
        let description = match self.description {
            Some(text) => seq![("description"@, WireView::Text(text@))],
            None => seq![],
        };
        let parameters = seq![("parameters"@, WireView::Json(self.parameters))];
        let strict = match self.strict {
            Some(flag) => seq![("strict"@, WireView::Bool(flag))],
            None => seq![],
        };
        name + description + parameters + strict
    }

    /// The wire form of a function definition.
    pub open spec fn wire(self) -> WireView {
        WireView::Object(self.wire_members())
    }

    /// The wire form.
    pub fn to_wire(&self) -> (wire: WireValue<'_>)
        ensures
            wire@ == self.wire(),
            ({
                let p = if self.description is Some {
                    2int
                } else {
                    1
                };
                &&& wire matches WireValue::Object(members)
                &&& members@.len() == p + 1 + if self.strict is Some {
                    1int
                } else {
                    0
                }
                &&& members@[0].0@ == "name"@
                &&& (members@[0].1 matches WireValue::Text(written) && written@ == self.name@)
                &&& self.description matches Some(text) ==> members@[1].0@ == "description"@ && (
                members@[1].1 matches WireValue::Text(written) && written@ == text@)
                &&& members@[p].0@ == "parameters"@
                &&& (members@[p].1 matches WireValue::Json(json) && *json == self.parameters)
                &&& self.strict matches Some(flag) ==> members@[p + 1].0@ == "strict"@ && members@[p
                    + 1].1 == WireValue::Bool(flag)
            }),
    {
        let mut members: Vec<(&'static str, WireValue<'_>)> = Vec::new();
        members.push(("name", WireValue::Text(self.name.as_str())));
        if let Some(description) = &self.description {
            members.push(("description", WireValue::Text(description.as_str())));
        }
        members.push(("parameters", WireValue::Json(&self.parameters)));
        if let Some(strict) = self.strict {
            members.push(("strict", WireValue::Bool(strict)));
        }
        assert(members_view(members@) =~= self.wire_members());
        object(members)
    }
}

impl ToolDefinition {
    /// The wire form of a tool definition.
    pub open spec fn wire(self) -> WireView {
        WireView::Object(
            seq![("type"@, self.tool_type.wire()), ("function"@, self.function.wire())],
        )
    }

    /// The wire form.
    pub fn to_wire(&self) -> (wire: WireValue<'_>)
        ensures
            wire@ == self.wire(),
            ({
                &&& wire matches WireValue::Object(members)
                &&& members@.len() == 2
                &&& members@[0].0@ == "type"@
                &&& (members@[0].1 matches WireValue::Text(written) && written@ == "function"@)
                &&& members@[1].0@ == "function"@
                &&& members@[1].1@ == self.function.wire()
            }),
    {
        let members = vec![
            ("type", self.tool_type.to_wire()),
            ("function", self.function.to_wire()),
        ];
        assert(members_view(members@) =~= self.wire()->Object_0);
        object(members)
    }
}

impl FunctionCallOaicompat {
    /// The wire form of a function call.
    pub open spec fn wire(self) -> WireView {
        WireView::Object(
            seq![
                ("name"@, WireView::Text(self.name@)),
                ("arguments"@, WireView::Json(self.arguments)),
            ],
        )
    }

    /// The wire form.
    pub fn to_wire(&self) -> (wire: WireValue<'_>)
        ensures
            wire@ == self.wire(),
            ({
                &&& wire matches WireValue::Object(members)
                &&& members@.len() == 2
                &&& members@[0].0@ == "name"@
                &&& (members@[0].1 matches WireValue::Text(written) && written@ == self.name@)
                &&& members@[1].0@ == "arguments"@
                &&& (members@[1].1 matches WireValue::Json(json) && *json == self.arguments)
            }),
    {
        let members = vec![
            ("name", WireValue::Text(self.name.as_str())),
            ("arguments", WireValue::Json(&self.arguments)),
        ];
        assert(members_view(members@) =~= self.wire()->Object_0);
        object(members)
    }
}

impl ToolCallOaicompat {
    /// The wire form of a tool call.
    pub open spec fn wire(self) -> WireView {
        WireView::Object(
            seq![
                ("id"@, optional_text_wire(self.id)),
                ("type"@, optional_type_wire(self.tool_type)),
                ("function"@, self.function.wire()),
            ],
        )
    }

    /// The wire form.
    pub fn to_wire(&self) -> (wire: WireValue<'_>)
        ensures
            wire@ == self.wire(),
            ({
                &&& wire matches WireValue::Object(members)
                &&& members@.len() == 3
                &&& members@[0].0@ == "id"@
                &&& self.id matches Some(text) ==> (members@[0].1 matches WireValue::Text(written)
                    && written@ == text@)
                &&& self.id is None ==> members@[0].1 is Null
                &&& members@[1].0@ == "type"@
                &&& self.tool_type == Some(ToolType::Function) ==> (
                members@[1].1 matches WireValue::Text(written) && written@ == "function"@)
                &&& self.tool_type is None ==> members@[1].1 is Null
                &&& members@[2].0@ == "function"@
                &&& members@[2].1@ == self.function.wire()
            }),
    {
        let members = vec![
            ("id", optional_text(&self.id)),
            ("type", optional_type(&self.tool_type)),
            ("function", self.function.to_wire()),
        ];
        assert(members_view(members@) =~= self.wire()->Object_0);
        object(members)
    }
}

impl ChatMessageOaicompat {
    /// The wire form of a chat message.
    pub open spec fn wire(self) -> WireView {
        WireView::Object(
            seq![
                ("role"@, WireView::Text(self.role@)),
                (
                    "content"@,
                    match self.content {
                        Some(content) => WireView::Json(content),
                        None => WireView::Null,
                    },
                ),
                ("reasoning_content"@, optional_text_wire(self.reasoning_content)),
                ("name"@, optional_text_wire(self.name)),
                ("tool_call_id"@, optional_text_wire(self.tool_call_id)),
                (
                    "tool_calls"@,
                    WireView::List(
                        self.tool_calls@.map_values(|call: ToolCallOaicompat| call.wire()),
                    ),
                ),
            ],
        )
    }

    /// The wire form.
    pub fn to_wire(&self) -> (wire: WireValue<'_>)
        ensures
            wire@ == self.wire(),
            ({
                &&& wire matches WireValue::Object(members)
                &&& members@.len() == 6
                &&& members@[0].0@ == "role"@
                &&& (members@[0].1 matches WireValue::Text(written) && written@ == self.role@)
                &&& members@[1].0@ == "content"@
                &&& self.content matches Some(content) ==> (
                members@[1].1 matches WireValue::Json(json) && *json == content)
                &&& self.content is None ==> members@[1].1 is Null
                &&& members@[2].0@ == "reasoning_content"@
                &&& self.reasoning_content matches Some(text) ==> (members@[2].1 matches WireValue::Text(written)
                    && written@ == text@)
                &&& self.reasoning_content is None ==> members@[2].1 is Null
                &&& members@[3].0@ == "name"@
                &&& self.name matches Some(text) ==> (members@[3].1 matches WireValue::Text(written)
                    && written@ == text@)
                &&& self.name is None ==> members@[3].1 is Null
                &&& members@[4].0@ == "tool_call_id"@
                &&& self.tool_call_id matches Some(text) ==> (members@[4].1 matches WireValue::Text(written)
                    && written@ == text@)
                &&& self.tool_call_id is None ==> members@[4].1 is Null
                &&& members@[5].0@ == "tool_calls"@
                &&& members@[5].1 matches WireValue::List(calls)
                &&& calls@.len() == self.tool_calls@.len()
                &&& forall|i: int|
                    0 <= i < calls@.len() ==> (#[trigger] calls@[i])@ == self.tool_calls@[i].wire()
            }),
    {
        let mut calls: Vec<WireValue<'_>> = Vec::new();
        for i in 0..self.tool_calls.len()
            invariant
                calls@.len() == i,
                forall|j: int| 0 <= j < i ==> (#[trigger] calls@[j])@ == self.tool_calls@[j].wire(),
        {
            calls.push(self.tool_calls[i].to_wire());
        }
        assert(items_view(calls@) =~= self.tool_calls@.map_values(
            |call: ToolCallOaicompat| call.wire(),
        ));
        let content = match &self.content {
            Some(content) => WireValue::Json(content),
            None => WireValue::Null,
        };
        let members = vec![
            ("role", WireValue::Text(self.role.as_str())),
            ("content", content),
            ("reasoning_content", optional_text(&self.reasoning_content)),
            ("name", optional_text(&self.name)),
            ("tool_call_id", optional_text(&self.tool_call_id)),
            ("tool_calls", list(calls)),
        ];
        assert(members_view(members@) =~= self.wire()->Object_0);
        object(members)
    }
}

impl FunctionCallDeltaOaicompat {
    /// The wire form of a function call delta.
    pub open spec fn wire(self) -> WireView {
        WireView::Object(
            seq![
                ("name"@, optional_text_wire(self.name)),
                ("arguments"@, optional_text_wire(self.arguments)),
            ],
        )
    }

    /// The wire form.
    pub fn to_wire(&self) -> (wire: WireValue<'_>)
        ensures
            wire@ == self.wire(),
            ({
                &&& wire matches WireValue::Object(members)
                &&& members@.len() == 2
                &&& members@[0].0@ == "name"@
                &&& self.name matches Some(text) ==> (members@[0].1 matches WireValue::Text(written)
                    && written@ == text@)
                &&& self.name is None ==> members@[0].1 is Null
                &&& members@[1].0@ == "arguments"@
                &&& self.arguments matches Some(text) ==> (members@[1].1 matches WireValue::Text(written)
                    && written@ == text@)
                &&& self.arguments is None ==> members@[1].1 is Null
            }),
    {
        let members = vec![
            ("name", optional_text(&self.name)),
            ("arguments", optional_text(&self.arguments)),
        ];
        assert(members_view(members@) =~= self.wire()->Object_0);
        object(members)
    }
}

impl ToolCallDeltaOaicompat {
    /// The wire form of a tool call delta.
    pub open spec fn wire(self) -> WireView {
        WireView::Object(
            seq![
                ("index"@, WireView::Number(self.index as nat)),
                ("id"@, optional_text_wire(self.id)),
                ("type"@, optional_type_wire(self.tool_type)),
                (
                    "function"@,
                    match self.function {
                        Some(function) => function.wire(),
                        None => WireView::Null,
                    },
                ),
            ],
        )
    }

    /// The wire form.
    pub fn to_wire(&self) -> (wire: WireValue<'_>)
        ensures
            wire@ == self.wire(),
            ({
                &&& wire matches WireValue::Object(members)
                &&& members@.len() == 4
                &&& members@[0].0@ == "index"@
                &&& members@[0].1 == WireValue::Number(self.index)
                &&& members@[1].0@ == "id"@
                &&& self.id matches Some(text) ==> (members@[1].1 matches WireValue::Text(written)
                    && written@ == text@)
                &&& self.id is None ==> members@[1].1 is Null
                &&& members@[2].0@ == "type"@
                &&& self.tool_type == Some(ToolType::Function) ==> (
                members@[2].1 matches WireValue::Text(written) && written@ == "function"@)
                &&& self.tool_type is None ==> members@[2].1 is Null
                &&& members@[3].0@ == "function"@
                &&& self.function matches Some(function) ==> members@[3].1@ == function.wire()
                &&& self.function is None ==> members@[3].1 is Null
            }),
    {
        let function = match &self.function {
            Some(function) => function.to_wire(),
            None => WireValue::Null,
        };
        let members = vec![
            ("index", WireValue::Number(self.index)),
            ("id", optional_text(&self.id)),
            ("type", optional_type(&self.tool_type)),
            ("function", function),
        ];
        assert(members_view(members@) =~= self.wire()->Object_0);
        object(members)
    }
}

impl ChatMessageDeltaOaicompat {
    /// The wire form of a streaming delta.
    pub open spec fn wire(self) -> WireView {
        WireView::Object(
            seq![
                ("role"@, optional_text_wire(self.role)),
                ("content"@, optional_text_wire(self.content)),
                ("reasoning_content"@, optional_text_wire(self.reasoning_content)),
                (
                    "tool_calls"@,
                    WireView::List(
                        self.tool_calls@.map_values(|call: ToolCallDeltaOaicompat| call.wire()),
                    ),
                ),
            ],
        )
    }

    /// The wire form.
    pub fn to_wire(&self) -> (wire: WireValue<'_>)
        ensures
            wire@ == self.wire(),
            ({
                &&& wire matches WireValue::Object(members)
                &&& members@.len() == 4
                &&& members@[0].0@ == "role"@
                &&& self.role matches Some(text) ==> (members@[0].1 matches WireValue::Text(written)
                    && written@ == text@)
                &&& self.role is None ==> members@[0].1 is Null
                &&& members@[1].0@ == "content"@
                &&& self.content matches Some(text) ==> (members@[1].1 matches WireValue::Text(written)
                    && written@ == text@)
                &&& self.content is None ==> members@[1].1 is Null
                &&& members@[2].0@ == "reasoning_content"@
                &&& self.reasoning_content matches Some(text) ==> (members@[2].1 matches WireValue::Text(written)
                    && written@ == text@)
                &&& self.reasoning_content is None ==> members@[2].1 is Null
                &&& members@[3].0@ == "tool_calls"@
                &&& members@[3].1 matches WireValue::List(calls)
                &&& calls@.len() == self.tool_calls@.len()
                &&& forall|i: int|
                    0 <= i < calls@.len() ==> (#[trigger] calls@[i])@ == self.tool_calls@[i].wire()
            }),
    {
        let mut calls: Vec<WireValue<'_>> = Vec::new();
        for i in 0..self.tool_calls.len()
            invariant
                calls@.len() == i,
                forall|j: int| 0 <= j < i ==> (#[trigger] calls@[j])@ == self.tool_calls@[j].wire(),
        {
            calls.push(self.tool_calls[i].to_wire());
        }
        assert(items_view(calls@) =~= self.tool_calls@.map_values(
            |call: ToolCallDeltaOaicompat| call.wire(),
        ));
        let members = vec![
            ("role", optional_text(&self.role)),
            ("content", optional_text(&self.content)),
            ("reasoning_content", optional_text(&self.reasoning_content)),
            ("tool_calls", list(calls)),
        ];
        assert(members_view(members@) =~= self.wire()->Object_0);
        object(members)
    }
}

/// Whether two optional strings hold the same text.
pub open spec fn same_text(a: Option<String>, b: Option<String>) -> bool {
    match (a, b) {
        (Some(a), Some(b)) => a@ == b@,
        (None, None) => true,
        _ => false,
    }
}

/// Whether two function definitions say the same.
pub open spec fn same_definition(a: FunctionDefinition, b: FunctionDefinition) -> bool {
    &&& a.name@ == b.name@
    &&& same_text(a.description, b.description)
    &&& a.parameters == b.parameters
    &&& a.strict == b.strict
}

/// Whether two function call deltas say the same.
pub open spec fn same_function_delta(
    a: Option<FunctionCallDeltaOaicompat>,
    b: Option<FunctionCallDeltaOaicompat>,
) -> bool {
    match (a, b) {
        (Some(a), Some(b)) => same_text(a.name, b.name) && same_text(a.arguments, b.arguments),
        (None, None) => true,
        _ => false,
    }
}

/// Whether two tool call deltas say the same.
pub open spec fn same_call_delta(a: ToolCallDeltaOaicompat, b: ToolCallDeltaOaicompat) -> bool {
    &&& a.index == b.index
    &&& same_text(a.id, b.id)
    &&& a.tool_type == b.tool_type
    &&& same_function_delta(a.function, b.function)
}

/// Whether two streaming deltas say the same.
pub open spec fn same_delta(a: ChatMessageDeltaOaicompat, b: ChatMessageDeltaOaicompat) -> bool {
    &&& same_text(a.role, b.role)
    &&& same_text(a.content, b.content)
    &&& same_text(a.reasoning_content, b.reasoning_content)
    &&& a.tool_calls@.len() == b.tool_calls@.len()
    &&& forall|i: int|
        0 <= i < a.tool_calls@.len() ==> same_call_delta(
            #[trigger] a.tool_calls@[i],
            b.tool_calls@[i],
        )
}

/// Whether two tool calls say the same.
pub open spec fn same_call(a: ToolCallOaicompat, b: ToolCallOaicompat) -> bool {
    &&& same_text(a.id, b.id)
    &&& a.tool_type == b.tool_type
    &&& a.function.name@ == b.function.name@
    &&& a.function.arguments == b.function.arguments
}

/// Whether two chat messages say the same.
pub open spec fn same_message(a: ChatMessageOaicompat, b: ChatMessageOaicompat) -> bool {
    &&& a.role@ == b.role@
    &&& a.content == b.content
    &&& same_text(a.reasoning_content, b.reasoning_content)
    &&& same_text(a.name, b.name)
    &&& same_text(a.tool_call_id, b.tool_call_id)
    &&& a.tool_calls@.len() == b.tool_calls@.len()
    &&& forall|i: int|
        0 <= i < a.tool_calls@.len() ==> same_call(#[trigger] a.tool_calls@[i], b.tool_calls@[i])
}

pub(crate) proof fn definition_keys_differ()
    ensures
        "name"@ != "description"@,
        "name"@ != "parameters"@,
        "name"@ != "strict"@,
        "description"@ != "parameters"@,
        "description"@ != "strict"@,
        "parameters"@ != "strict"@,
{
    reveal_strlit("name");
    reveal_strlit("description");
    reveal_strlit("parameters");
    reveal_strlit("strict");
    assert("name"@.len() == 4 && "description"@.len() == 11 && "parameters"@.len() == 10
        && "strict"@.len() == 6);
}

/// The wire form of a tool says everything about the tool: tools with the same
/// wire form are the same.
pub proof fn tool_wire_is_lossless(a: ToolDefinition, b: ToolDefinition)
    requires
        a.wire() == b.wire(),
    ensures
        a.tool_type == b.tool_type,
        same_definition(a.function, b.function),
{
    definition_keys_differ();
    let (ta, tb) = (a.wire()->Object_0, b.wire()->Object_0);
    assert(ta[1].1 == tb[1].1);
    let (fa, fb) = (a.function.wire_members(), b.function.wire_members());
    assert(fa == fb);
    assert(fa[0].1 == WireView::Text(a.function.name@));
    assert(fb[0].1 == WireView::Text(b.function.name@));
    let pa = if a.function.description is Some {
        2int
    } else {
        1
    };
    let pb = if b.function.description is Some {
        2int
    } else {
        1
    };
    assert(fa[pa] == ("parameters"@, WireView::Json(a.function.parameters)));
    assert(fb[pb] == ("parameters"@, WireView::Json(b.function.parameters)));
    assert(a.function.description is Some ==> fa[1] == (
        "description"@,
        WireView::Text(a.function.description->0@),
    ));
    assert(b.function.description is Some ==> fb[1] == (
        "description"@,
        WireView::Text(b.function.description->0@),
    ));
    assert(a.function.strict is Some ==> fa[pa + 1] == (
        "strict"@,
        WireView::Bool(a.function.strict->0),
    ));
    assert(b.function.strict is Some ==> fb[pb + 1] == (
        "strict"@,
        WireView::Bool(b.function.strict->0),
    ));
}

proof fn call_delta_wire_is_lossless(a: ToolCallDeltaOaicompat, b: ToolCallDeltaOaicompat)
    requires
        a.wire() == b.wire(),
    ensures
        same_call_delta(a, b),
{
    let (wa, wb) = (a.wire()->Object_0, b.wire()->Object_0);
    assert(wa[0] == wb[0] && wa[1] == wb[1] && wa[2] == wb[2] && wa[3] == wb[3]);
    if a.function is Some && b.function is Some {
        let (fa, fb) = (wa[3].1->Object_0, wb[3].1->Object_0);
        assert(fa[0] == fb[0] && fa[1] == fb[1]);
    }
}

/// The wire form of a streaming delta says everything about the delta: deltas with
/// the same wire form are the same.
pub proof fn delta_wire_is_lossless(a: ChatMessageDeltaOaicompat, b: ChatMessageDeltaOaicompat)
    requires
        a.wire() == b.wire(),
    ensures
        same_delta(a, b),
{
    let (wa, wb) = (a.wire()->Object_0, b.wire()->Object_0);
    assert(wa[0] == wb[0] && wa[1] == wb[1] && wa[2] == wb[2] && wa[3] == wb[3]);
    let (la, lb) = (wa[3].1->List_0, wb[3].1->List_0);
    let call = |call: ToolCallDeltaOaicompat| call.wire();
    assert(la == a.tool_calls@.map_values(call));
    assert(lb == b.tool_calls@.map_values(call));
    assert forall|i: int| 0 <= i < a.tool_calls@.len() implies same_call_delta(
        #[trigger] a.tool_calls@[i],
        b.tool_calls@[i],
    ) by {
        assert(la[i] == lb[i]);
        call_delta_wire_is_lossless(a.tool_calls@[i], b.tool_calls@[i]);
    }
}

proof fn call_wire_is_lossless(a: ToolCallOaicompat, b: ToolCallOaicompat)
    requires
        a.wire() == b.wire(),
    ensures
        same_call(a, b),
{
    let (wa, wb) = (a.wire()->Object_0, b.wire()->Object_0);
    assert(wa[0] == wb[0] && wa[1] == wb[1] && wa[2] == wb[2]);
    let (fa, fb) = (wa[2].1->Object_0, wb[2].1->Object_0);
    assert(fa[0] == fb[0] && fa[1] == fb[1]);
}

/// The wire form of a chat message says everything about the message: messages
/// with the same wire form are the same.
///
/// A content that is there and is `null` differs in the wire form from no content:
/// one is a JSON value that is written as it is, the other the `null` that stands
/// for nothing. In the JSON text both are `null`, and there they coincide.
pub proof fn message_wire_is_lossless(a: ChatMessageOaicompat, b: ChatMessageOaicompat)
    requires
        a.wire() == b.wire(),
    ensures
        same_message(a, b),
{
    let (wa, wb) = (a.wire()->Object_0, b.wire()->Object_0);
    assert(wa[0] == wb[0] && wa[1] == wb[1] && wa[2] == wb[2] && wa[3] == wb[3] && wa[4] == wb[4]
        && wa[5] == wb[5]);
    let (la, lb) = (wa[5].1->List_0, wb[5].1->List_0);
    let call = |call: ToolCallOaicompat| call.wire();
    assert(la == a.tool_calls@.map_values(call));
    assert(lb == b.tool_calls@.map_values(call));
    assert forall|i: int| 0 <= i < a.tool_calls@.len() implies same_call(
        #[trigger] a.tool_calls@[i],
        b.tool_calls@[i],
    ) by {
        assert(la[i] == lb[i]);
        call_wire_is_lossless(a.tool_calls@[i], b.tool_calls@[i]);
    }
}

/// Whether no two members of an object have the same key.
pub open spec fn keys_distinct(wire: WireView) -> bool {
    wire matches WireView::Object(members) && forall|i: int, j: int|
        0 <= i < j < members.len() ==> (#[trigger] members[i]).0 != (#[trigger] members[j]).0
}

/// A function definition is written as an object that has each key once.
pub proof fn definition_keys_are_distinct(definition: FunctionDefinition)
    ensures
        keys_distinct(definition.wire()),
{
    definition_keys_differ();
    let members = definition.wire_members();
    let p = if definition.description is Some {
        2int
    } else {
        1
    };
    assert(members[0].0 == "name"@);
    assert(members[p].0 == "parameters"@);
    assert(definition.description is Some ==> members[1].0 == "description"@);
    assert(definition.strict is Some ==> members[p + 1].0 == "strict"@);
    assert(members.len() == p + 1 + if definition.strict is Some {
        1int
    } else {
        0
    });
}

/// A chat message is written as an object that has each key once.
pub proof fn message_keys_are_distinct(message: ChatMessageOaicompat)
    ensures
        keys_distinct(message.wire()),
{
    reveal_strlit("role");
    reveal_strlit("content");
    reveal_strlit("reasoning_content");
    reveal_strlit("name");
    reveal_strlit("tool_call_id");
    reveal_strlit("tool_calls");
    assert("role"@[0] == 'r' && "name"@[0] == 'n');
    assert("role"@.len() == 4 && "content"@.len() == 7 && "reasoning_content"@.len() == 17
        && "name"@.len() == 4 && "tool_call_id"@.len() == 12 && "tool_calls"@.len() == 10);
}

/// A streaming delta, its tool call deltas and their function call deltas are
/// written as objects that have each key once.
pub proof fn delta_keys_are_distinct(
    delta: ChatMessageDeltaOaicompat,
    call: ToolCallDeltaOaicompat,
    function: FunctionCallDeltaOaicompat,
)
    ensures
        keys_distinct(delta.wire()),
        keys_distinct(call.wire()),
        keys_distinct(function.wire()),
{
    reveal_strlit("role");
    reveal_strlit("content");
    reveal_strlit("reasoning_content");
    reveal_strlit("tool_calls");
    reveal_strlit("index");
    reveal_strlit("id");
    reveal_strlit("type");
    reveal_strlit("function");
    reveal_strlit("name");
    reveal_strlit("arguments");
    assert("role"@.len() == 4 && "content"@.len() == 7 && "reasoning_content"@.len() == 17
        && "tool_calls"@.len() == 10);
    assert("index"@.len() == 5 && "id"@.len() == 2 && "type"@.len() == 4 && "function"@.len() == 8);
    assert("name"@.len() == 4 && "arguments"@.len() == 9);
}

/// A tool, a tool call and a function call are written as objects that have each
/// key once.
pub proof fn tool_keys_are_distinct(
    tool: ToolDefinition,
    call: ToolCallOaicompat,
    function: FunctionCallOaicompat,
)
    ensures
        keys_distinct(tool.wire()),
        keys_distinct(call.wire()),
        keys_distinct(function.wire()),
{
    reveal_strlit("id");
    reveal_strlit("type");
    reveal_strlit("function");
    reveal_strlit("name");
    reveal_strlit("arguments");
    assert("id"@.len() == 2 && "type"@.len() == 4 && "function"@.len() == 8);
    assert("name"@.len() == 4 && "arguments"@.len() == 9);
}

} // verus!
