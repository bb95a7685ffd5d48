//! JSON-RPC and MCP message types.
use vstd::prelude::*;
use crate::json::{Json, JsonValue, text, member_at, member_missing};

verus! {

/// A JSON-RPC request as received from the client.
#[derive(Debug, PartialEq)]
pub struct JsonRpcRequest {
    pub jsonrpc: String,
    pub id: Option<JsonValue>,
    pub method: String,
    pub params: Option<JsonValue>,
}

/// The error member of a JSON-RPC response.
#[derive(Debug, PartialEq)]
pub struct JsonRpcError {
    pub code: i64,
    pub message: String,
    pub data: Option<JsonValue>,
}

/// A JSON-RPC response: exactly one of `result` and `error` is present.
#[derive(Debug, PartialEq)]
pub struct JsonRpcResponse {
    pub jsonrpc: String,
    pub id: Option<JsonValue>,
    pub result: Option<JsonValue>,
    pub error: Option<JsonRpcError>,
}

impl JsonRpcResponse {
    /// A successful response carrying `result`.
    pub fn success(id: Option<JsonValue>, result: JsonValue) -> (r: JsonRpcResponse)
        ensures
            r.jsonrpc@ == "2.0"@,
            r.id == id,
            r.result == Some(result),
            r.error is None,
    {
        JsonRpcResponse { jsonrpc: text("2.0"), id, result: Some(result), error: None }
    }

    /// An error response with the given code and message.
    pub fn error(id: Option<JsonValue>, code: i64, message: String, data: Option<JsonValue>) -> (r:
        JsonRpcResponse)
        ensures
            r.jsonrpc@ == "2.0"@,
            r.id == id,
            r.result is None,
            r.error == Some(JsonRpcError { code, message, data }),
    {
        JsonRpcResponse {
            jsonrpc: text("2.0"),
            id,
            result: None,
            error: Some(JsonRpcError { code, message, data }),
        }
    }
}

/// A tool that the server offers.
#[derive(Debug, PartialEq)]
pub struct McpTool {
    pub name: String,
    pub description: String,
    pub input_schema: JsonValue,
}

/// The JSON form of a tool description.
pub open spec fn tool_json(name: Seq<char>, description: Seq<char>, input_schema: Json) -> Json {
    Json::Object(
        seq![
            ("name"@, Json::Str(name)),
            ("description"@, Json::Str(description)),
            ("inputSchema"@, input_schema),
        ],
    )
}

impl McpTool {
    /// The tool as it is listed to clients.
    pub fn to_json(self) -> (r: JsonValue)
        ensures
            r@ == tool_json(self.name@, self.description@, self.input_schema@),
    {
        let ghost (n, d, s) = (self.name@, self.description@, self.input_schema@);
        let r = JsonValue::object_of(
            vec![
                (text("name"), JsonValue::str_of(self.name)),
                (text("description"), JsonValue::str_of(self.description)),
                (text("inputSchema"), self.input_schema),
            ],
        );
        assert(r@->Object_0 =~= tool_json(n, d, s)->Object_0);
        r
    }
}

/// One item of a tool's output.
#[derive(Clone, Debug, PartialEq)]
pub enum McpContentItem {
    Text { text: String },
}

/// The result of a tool call.
#[derive(Clone, Debug, PartialEq)]
pub struct McpCallToolResult {
    pub is_error: Option<bool>,
    pub content: Vec<McpContentItem>,
}

/// The JSON form of a text item.
pub open spec fn text_item_json(t: Seq<char>) -> Json {
    Json::Object(seq![("type"@, Json::Str("text"@)), ("text"@, Json::Str(t))])
}

/// The JSON form of a content item.
pub open spec fn content_json(c: McpContentItem) -> Json {
    match c {
        McpContentItem::Text { text } => text_item_json(text@),
    }
}

/// The JSON form of a tool result: the content items, then `isError` where it is set.
pub open spec fn tool_result_json(is_error: Option<bool>, content: Seq<McpContentItem>) -> Json {
    let items = Json::Array(content.map_values(|c: McpContentItem| content_json(c)));
    match is_error {
        Some(b) => Json::Object(seq![("content"@, items), ("isError"@, Json::Bool(b))]),
        None => Json::Object(seq![("content"@, items)]),
    }
}

/// A serialized tool result carries its error flag as `isError`, `true` exactly for a
/// failed call, and no `isError` where the flag is unset; its `content` lists every item,
/// in order, as a text item with that item's text.
pub proof fn tool_result_reports_its_flag(is_error: Option<bool>, content: Seq<McpContentItem>)
    ensures
        tool_result_json(is_error, content).get("isError"@) == match is_error {
            Some(b) => Some(Json::Bool(b)),
            None => None::<Json>,
        },
        tool_result_json(is_error, content).get("content"@) matches Some(Json::Array(items)) && {
            &&& items.len() == content.len()
            &&& forall|i: int|
                0 <= i < content.len() ==> (#[trigger] items[i]).get("type"@) == Some(Json::Str("text"@))
                    && items[i].get("text"@) == Some(Json::Str(content[i]->Text_text@))
        },
{
    reveal_strlit("content");
    reveal_strlit("isError");
    reveal_strlit("type");
    reveal_strlit("text");
    assert("content"@ != "isError"@) by {
        assert("content"@[0] != "isError"@[0]);
    }
    assert("text"@ != "type"@) by {
        assert("text"@[1] != "type"@[1]);
    }
    let items = content.map_values(|c: McpContentItem| content_json(c));
    let fields = tool_result_json(is_error, content)->Object_0;
    member_at(fields, "content"@, 0);
    match is_error {
        Some(b) => member_at(fields, "isError"@, 1),
        None => member_missing(fields, "isError"@),
    }
    assert forall|i: int| 0 <= i < content.len() implies (#[trigger] items[i]).get("type"@) == Some(
        Json::Str("text"@),
    ) && items[i].get("text"@) == Some(Json::Str(content[i]->Text_text@)) by {
        let f = items[i]->Object_0;
        member_at(f, "type"@, 0);
        member_at(f, "text"@, 1);
    }
}

impl McpContentItem {
    /// The JSON form of the item.
    pub fn to_json(&self) -> (r: JsonValue)
        ensures
            r@ == content_json(*self),
    {
        match self {
            McpContentItem::Text { text: t } => {
                let r = JsonValue::object_of(
                    vec![
                        (text("type"), JsonValue::string("text")),
                        (text("text"), JsonValue::str_of(t.clone())),
                    ],
                );
                assert(r@->Object_0 =~= text_item_json(t@)->Object_0);
                r
            },
        }
    }
}

impl McpCallToolResult {
    /// The JSON form of the result.
    pub fn to_json(&self) -> (r: JsonValue)
        ensures
            r@ == tool_result_json(self.is_error, self.content@),
    {
        let mut items: Vec<JsonValue> = Vec::new();
        let n = self.content.len();
        let mut i: usize = 0;
        while i < n
            invariant
                n == self.content@.len(),
                i <= n,
                items@.len() == i,
                forall|j: int| 0 <= j < i ==> #[trigger] items@[j]@ == content_json(self.content@[j]),
            decreases n - i,
        {
            items.push(self.content[i].to_json());
            i = i + 1;
        }
        let arr = JsonValue::array_of(items);
        assert(arr@->Array_0 =~= self.content@.map_values(|c: McpContentItem| content_json(c)));
        match self.is_error {
            Some(b) => {
                let r = JsonValue::object_of(
                    vec![(text("content"), arr), (text("isError"), JsonValue::Bool(b))],
                );
                assert(r@->Object_0 =~= tool_result_json(self.is_error, self.content@)->Object_0);
                r
            },
            None => {
                let r = JsonValue::object_of(vec![(text("content"), arr)]);
                assert(r@->Object_0 =~= tool_result_json(self.is_error, self.content@)->Object_0);
                r
            },
        }
    }
}

} // verus!
