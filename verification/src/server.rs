//! The MCP server: which answer each request gets, and the decisions of a `render_cv` call.
//!
//! Reading and writing the stdio stream, turning JSON text into values and back,
//! rendering the template and running the compiler are done by the caller, which
//! hands the outcomes to the functions here.
use vstd::prelude::*;
use base64::Engine;
use crate::compiler::{CompileResult, CompilerError, LatexCompiler};
use crate::decimal::{decimal, decimal_text};
use crate::json::{Json, JsonValue, member, member_at, text};
use crate::mcp::{
    JsonRpcRequest, JsonRpcResponse, McpCallToolResult, McpContentItem, McpTool, tool_json,
    tool_result_json,
};
use crate::schema::CvProfile;

verus! {

pub const GET_CV_SCHEMA_DESCRIPTION: &'static str = "Returns the JSON Schema of the CV Profile required by the Star Rover template. AI Agents MUST call this tool or consult its schema to structure arbitrary profile data accurately before calling render_cv.";

pub const GET_SAMPLE_PROFILE_DESCRIPTION: &'static str = "Returns a complete, realistic example of a structured CV profile conforming to the Star Rover template schema.";

pub const GET_TEMPLATE_INFO_DESCRIPTION: &'static str = "Returns details about the underlying Star Rover LaTeX template, typographical choices, and supported formatting tags.";

pub const RENDER_CV_DESCRIPTION: &'static str = "Synthesizes a structured profile into the Star Rover LuaLaTeX template and builds the actual PDF using the native LuaLaTeX engine. Returns base64 encoded PDF bytes and compilation status. Stateless with zero disk leaks.";

pub const OUTPUT_PATH_DESCRIPTION: &'static str = "Optional file path where the generated PDF should be written on disk. If omitted, the PDF is returned directly as base64 in the response.";

/// What the server answers with that is made outside the verified code: the JSON Schema
/// of [`CvProfile`], the pretty-printed schema and sample profile, the length of the
/// embedded template, and the package version.
#[derive(Debug, PartialEq)]
pub struct ToolCatalog {
    pub server_version: String,
    pub cv_schema: JsonValue,
    pub cv_schema_text: String,
    pub sample_profile_text: String,
    pub template_len: usize,
}

/// The MCP server: it holds the compiler that `render_cv` uses.
pub struct Server {
    compiler: LatexCompiler,
}

impl Server {
    /// The compiler of this server.
    pub closed spec fn compiler_of(self) -> LatexCompiler {
        self.compiler
    }

    /// A server whose compiler is `LatexCompiler::new()`: `lualatex` looked up on the `PATH`
    /// with a time limit of 60 seconds; fails as that does.
    pub fn new() -> (r: Result<Server, CompilerError>)
        ensures
            match r {
                Ok(s) => s.compiler_of().program_of()@ == "lualatex"@ && s.compiler_of().timeout_of()
                    == crate::compiler::secs_duration(60),
                Err(e) => e is LuaLatexNotFound,
            },
    {
        let compiler = LatexCompiler::new()?;
        Ok(Server { compiler })
    }

    /// The compiler that `render_cv` runs.
    pub fn compiler(&self) -> (c: &LatexCompiler)
        ensures
            *c == self.compiler_of(),
    {
        &self.compiler
    }
}


/// The schema of a tool that takes no arguments.
pub open spec fn no_arguments_schema() -> Json {
    Json::Object(
        seq![
            ("type"@, Json::Str("object"@)),
            ("properties"@, Json::Object(Seq::empty())),
            ("additionalProperties"@, Json::Bool(false)),
        ],
    )
}

/// The arguments of `render_cv`: a `profile` of the CV schema, and an optional `output_path`.
pub open spec fn render_arguments_schema(cv_schema: Json) -> Json {
    Json::Object(
        seq![
            ("type"@, Json::Str("object"@)),
            (
                "properties"@,
                Json::Object(
                    seq![
                        ("profile"@, cv_schema),
                        (
                            "output_path"@,
                            Json::Object(
                                seq![
                                    ("type"@, Json::Str("string"@)),
                                    ("description"@, Json::Str(OUTPUT_PATH_DESCRIPTION@)),
                                ],
                            ),
                        ),
                    ],
                ),
            ),
            ("required"@, Json::Array(seq![Json::Str("profile"@)])),
        ],
    )
}

/// The four tools, in the order in which they are listed.
pub open spec fn tool_list(cv_schema: Json) -> Seq<Json> {
    seq![
        tool_json("get_cv_schema"@, GET_CV_SCHEMA_DESCRIPTION@, no_arguments_schema()),
        tool_json("get_sample_profile"@, GET_SAMPLE_PROFILE_DESCRIPTION@, no_arguments_schema()),
        tool_json("get_template_info"@, GET_TEMPLATE_INFO_DESCRIPTION@, no_arguments_schema()),
        tool_json("render_cv"@, RENDER_CV_DESCRIPTION@, render_arguments_schema(cv_schema)),
    ]
}

/// `tools/list` offers four tools, the last `render_cv`, whose arguments are a `profile`
/// of the CV schema, which is required, and an `output_path` that is a string.
pub proof fn render_cv_offers_output_path(cv_schema: Json)
    ensures
        tool_list(cv_schema).len() == 4,
        tool_list(cv_schema)[3].get("name"@) == Some(Json::Str("render_cv"@)),
        tool_list(cv_schema)[3].get("inputSchema"@) matches Some(input) && input.get("properties"@) matches Some(
            props,
        ) && {
            &&& input.get("type"@) == Some(Json::Str("object"@))
            &&& input.get("required"@) == Some(Json::Array(seq![Json::Str("profile"@)]))
            &&& props.get("profile"@) == Some(cv_schema)
            &&& props.get("output_path"@) matches Some(p)
            &&& p.get("type"@) == Some(Json::Str("string"@))
            &&& p.get("description"@) == Some(Json::Str(OUTPUT_PATH_DESCRIPTION@))
        },
{
    reveal_strlit("name");
    reveal_strlit("description");
    reveal_strlit("inputSchema");
    reveal_strlit("type");
    reveal_strlit("properties");
    reveal_strlit("required");
    reveal_strlit("profile");
    reveal_strlit("output_path");
    assert("name"@ != "inputSchema"@ && "description"@ != "inputSchema"@) by {
        assert("name"@[0] != "inputSchema"@[0]);
        assert("description"@[0] != "inputSchema"@[0]);
    }
    assert("type"@ != "properties"@ && "type"@ != "required"@ && "properties"@ != "required"@) by {
        assert("type"@[0] != "properties"@[0]);
        assert("type"@[0] != "required"@[0]);
        assert("properties"@[0] != "required"@[0]);
    }
    assert("profile"@ != "output_path"@) by {
        assert("profile"@[0] != "output_path"@[0]);
    }
    assert("type"@ != "description"@) by {
        assert("type"@[0] != "description"@[0]);
    }
    let tool = tool_list(cv_schema)[3];
    member_at(tool->Object_0, "name"@, 0);
    member_at(tool->Object_0, "inputSchema"@, 2);
    let input = render_arguments_schema(cv_schema);
    member_at(input->Object_0, "type"@, 0);
    member_at(input->Object_0, "properties"@, 1);
    member_at(input->Object_0, "required"@, 2);
    let props = input->Object_0[1].1;
    member_at(props->Object_0, "profile"@, 0);
    member_at(props->Object_0, "output_path"@, 1);
    let p = props->Object_0[1].1;
    member_at(p->Object_0, "type"@, 0);
    member_at(p->Object_0, "description"@, 1);
}

/// The result of `initialize`.
pub open spec fn initialize_result(version: Seq<char>) -> Json {
    Json::Object(
        seq![
            ("protocolVersion"@, Json::Str("2024-11-05"@)),
            ("capabilities"@, Json::Object(seq![("tools"@, Json::Object(Seq::empty()))])),
            (
                "serverInfo"@,
                Json::Object(
                    seq![("name"@, Json::Str("cv-writer-mcp"@)), ("version"@, Json::Str(version))],
                ),
            ),
        ],
    )
}

/// The sections that the template supports, as `get_template_info` lists them.
pub open spec fn supported_sections() -> Seq<Json> {
    seq![
        Json::Str("contact (name, phone, email, github, linkedin, website, location)"@),
        Json::Str("summary"@),
        Json::Str("education (institution, degree, dates, highlights)"@),
        Json::Str("experience (company, location, roles: [title, dates, highlights])"@),
        Json::Str("projects (name, url, dates, highlights)"@),
        Json::Str("skills (category, items)"@),
        Json::Str("certifications (name, issuer, date)"@),
        Json::Str("publications (citation, url)"@),
        Json::Str("awards (title, date, summary)"@),
    ]
}

/// What `get_template_info` reports.
pub open spec fn template_info_json(template_len: nat) -> Json {
    Json::Object(
        seq![
            ("template"@, Json::Str("Star Rover (Migrated to native LuaLaTeX with fontspec & OpenType)"@)),
            ("engine"@, Json::Str("LuaLaTeX"@)),
            ("font"@, Json::Str("Fira Sans (SemiBold/Regular) with FontAwesome5 icons"@)),
            (
                "palette"@,
                Json::Object(
                    seq![
                        ("accent"@, Json::Str("#141E61 (Navy/Indigo)"@)),
                        ("secondary"@, Json::Str("gray"@)),
                    ],
                ),
            ),
            ("sections_supported"@, Json::Array(supported_sections())),
            ("raw_template_length"@, Json::Number(decimal(template_len))),
        ],
    )
}

/// The schema of a tool that takes no arguments.
fn no_arguments() -> (r: JsonValue)
    ensures
        r@ == no_arguments_schema(),
{
    let r = JsonValue::object_of(
        vec![
            (text("type"), JsonValue::string("object")),
            (text("properties"), JsonValue::empty_object()),
            (text("additionalProperties"), JsonValue::Bool(false)),
        ],
    );
    assert(r@->Object_0 =~= no_arguments_schema()->Object_0);
    r
}

fn render_arguments(cv_schema: JsonValue) -> (r: JsonValue)
    ensures
        r@ == render_arguments_schema(cv_schema@),
{
    let ghost schema = cv_schema@;
    let output_path = JsonValue::object_of(
        vec![
            (text("type"), JsonValue::string("string")),
            (text("description"), JsonValue::string(OUTPUT_PATH_DESCRIPTION)),
        ],
    );
    let properties = JsonValue::object_of(
        vec![(text("profile"), cv_schema), (text("output_path"), output_path)],
    );
    let required = JsonValue::array_of(vec![JsonValue::string("profile")]);
    let r = JsonValue::object_of(
        vec![
            (text("type"), JsonValue::string("object")),
            (text("properties"), properties),
            (text("required"), required),
        ],
    );
    assert(output_path@->Object_0 =~= render_arguments_schema(schema)->Object_0[1].1->Object_0[1].1->Object_0);
    assert(properties@->Object_0 =~= render_arguments_schema(schema)->Object_0[1].1->Object_0);
    assert(required@->Array_0 =~= seq![Json::Str("profile"@)]);
    assert(r@->Object_0 =~= render_arguments_schema(schema)->Object_0);
    r
}

fn tool(name: &str, description: &str, input_schema: JsonValue) -> (t: McpTool)
    ensures
        t.name@ == name@,
        t.description@ == description@,
        t.input_schema == input_schema,
{
    McpTool { name: text(name), description: text(description), input_schema }
}

/// The tools that the server offers: `get_cv_schema`, `get_sample_profile`,
/// `get_template_info` and `render_cv`, the last taking a profile of `cv_schema`.
pub fn list_tools(cv_schema: JsonValue) -> (r: Vec<McpTool>)
    ensures
        r@.len() == 4,
        forall|i: int|
            0 <= i < 4 ==> tool_json(r@[i].name@, r@[i].description@, r@[i].input_schema@) == #[trigger] tool_list(cv_schema@)[i],
{
    let ghost schema = cv_schema@;
    let r = vec![
        tool("get_cv_schema", GET_CV_SCHEMA_DESCRIPTION, no_arguments()),
        tool("get_sample_profile", GET_SAMPLE_PROFILE_DESCRIPTION, no_arguments()),
        tool("get_template_info", GET_TEMPLATE_INFO_DESCRIPTION, no_arguments()),
        tool("render_cv", RENDER_CV_DESCRIPTION, render_arguments(cv_schema)),
    ];
    r
}

/// The tool list as the result of `tools/list` carries it.
fn tools_result(cv_schema: JsonValue) -> (r: JsonValue)
    ensures
        r@ == Json::Object(seq![("tools"@, Json::Array(tool_list(cv_schema@)))]),
{
    let ghost schema = cv_schema@;
    let tools = list_tools(cv_schema);
    let mut items: Vec<JsonValue> = Vec::new();
    let mut rest = tools;
    let ghost all = rest@;
    while rest.len() > 0
        invariant
            all.len() == 4,
            items@.len() + rest@.len() == 4,
            rest@ =~= all.subrange(items@.len() as int, 4),
            forall|i: int|
                0 <= i < 4 ==> tool_json(all[i].name@, all[i].description@, all[i].input_schema@) == #[trigger] tool_list(schema)[i],
            forall|j: int| 0 <= j < items@.len() ==> #[trigger] items@[j]@ == tool_list(schema)[j],
        decreases rest.len(),
    {
        let t = rest.remove(0);
        let ghost k = items@.len() as int;
        assert(t == all[k]);
        assert(tool_json(all[k].name@, all[k].description@, all[k].input_schema@) == tool_list(schema)[k]);
        items.push(t.to_json());
    }
    let arr = JsonValue::array_of(items);
    assert(arr@->Array_0 =~= tool_list(schema));
    let r = JsonValue::object_of(vec![(text("tools"), arr)]);
    assert(r@->Object_0 =~= seq![("tools"@, Json::Array(tool_list(schema)))]);
    r
}

fn initialize_result_value(version: &String) -> (r: JsonValue)
    ensures
        r@ == initialize_result(version@),
{
    let capabilities = JsonValue::object_of(vec![(text("tools"), JsonValue::empty_object())]);
    let info = JsonValue::object_of(
        vec![(text("name"), JsonValue::string("cv-writer-mcp")), (text("version"), JsonValue::str_of(version.clone()))],
    );
    let r = JsonValue::object_of(
        vec![
            (text("protocolVersion"), JsonValue::string("2024-11-05")),
            (text("capabilities"), capabilities),
            (text("serverInfo"), info),
        ],
    );
    assert(capabilities@->Object_0 =~= initialize_result(version@)->Object_0[1].1->Object_0);
    assert(info@->Object_0 =~= initialize_result(version@)->Object_0[2].1->Object_0);
    assert(r@->Object_0 =~= initialize_result(version@)->Object_0);
    r
}

/// What `get_template_info` reports, with the length of the embedded template.
pub fn template_info(template_len: usize) -> (r: JsonValue)
    ensures
        r@ == template_info_json(template_len as nat),
{
    let palette = JsonValue::object_of(
        vec![
            (text("accent"), JsonValue::string("#141E61 (Navy/Indigo)")),
            (text("secondary"), JsonValue::string("gray")),
        ],
    );
    let sections = JsonValue::array_of(
        vec![
            JsonValue::string("contact (name, phone, email, github, linkedin, website, location)"),
            JsonValue::string("summary"),
            JsonValue::string("education (institution, degree, dates, highlights)"),
            JsonValue::string("experience (company, location, roles: [title, dates, highlights])"),
            JsonValue::string("projects (name, url, dates, highlights)"),
            JsonValue::string("skills (category, items)"),
            JsonValue::string("certifications (name, issuer, date)"),
            JsonValue::string("publications (citation, url)"),
            JsonValue::string("awards (title, date, summary)"),
        ],
    );
    let length = JsonValue::number_of(decimal_text(template_len as u64));
    let r = JsonValue::object_of(
        vec![
            (text("template"), JsonValue::string("Star Rover (Migrated to native LuaLaTeX with fontspec & OpenType)")),
            (text("engine"), JsonValue::string("LuaLaTeX")),
            (text("font"), JsonValue::string("Fira Sans (SemiBold/Regular) with FontAwesome5 icons")),
            (text("palette"), palette),
            (text("sections_supported"), sections),
            (text("raw_template_length"), length),
        ],
    );
    assert(palette@->Object_0 =~= template_info_json(template_len as nat)->Object_0[3].1->Object_0);
    assert(sections@->Array_0 =~= supported_sections());
    assert(r@->Object_0 =~= template_info_json(template_len as nat)->Object_0);
    r
}


/// The text of a tool's output: plain text, or a JSON value to be pretty-printed.
#[derive(Debug, PartialEq)]
pub enum ToolText {
    Plain(String),
    PrettyJson(JsonValue),
}

/// What a tool call answers.
#[derive(Debug, PartialEq)]
pub struct ToolReply {
    pub is_error: bool,
    pub text: ToolText,
}

/// What a tool call comes to.
#[derive(Debug, PartialEq)]
pub enum ToolStep {
    /// The answer is known.
    Reply(ToolReply),
    /// `render_cv` with these arguments: the run goes on in a [`RenderJob`].
    Render { profile: JsonValue, output_path: Option<String> },
}

/// What a request comes to.
#[derive(Debug, PartialEq)]
pub enum RequestStep {
    /// Send this response.
    Respond(JsonRpcResponse),
    /// A notification: send nothing.
    Silent,
    /// A tool call; its answer is sent as the result of a response with this id.
    Tool { id: Option<JsonValue>, step: ToolStep },
}

/// Whether `step` answers with plain text `t`.
pub open spec fn plain_reply(step: ToolStep, is_error: bool, t: Seq<char>) -> bool {
    &&& step matches ToolStep::Reply(rep)
    &&& rep.is_error == is_error
    &&& rep.text matches ToolText::Plain(x)
    &&& x@ == t
}

/// Whether `step` answers with the JSON value `j`.
pub open spec fn json_reply(step: ToolStep, is_error: bool, j: Json) -> bool {
    &&& step matches ToolStep::Reply(rep)
    &&& rep.is_error == is_error
    &&& rep.text matches ToolText::PrettyJson(x)
    &&& x@ == j
}

/// The tool that a call names: the `name` string of the parameters, or the empty text.
pub open spec fn called_tool(params: Json) -> Seq<char> {
    match params.get("name"@) {
        Some(v) => match v.as_str() {
            Some(s) => s,
            None => Seq::empty(),
        },
        None => Seq::empty(),
    }
}

/// The arguments of a call: the `arguments` member of the parameters, or `{}`.
pub open spec fn call_arguments(params: Json) -> Json {
    match params.get("arguments"@) {
        Some(a) => a,
        None => Json::Object(Seq::empty()),
    }
}

/// The `output_path` of `render_cv`, where the arguments hold it as a string.
pub open spec fn output_path_of(arguments: Json) -> Option<Seq<char>> {
    match arguments.get("output_path"@) {
        Some(v) => v.as_str(),
        None => None,
    }
}

/// The view of an optional text.
pub open spec fn opt_string_view(o: Option<String>) -> Option<Seq<char>> {
    match o {
        Some(s) => Some(s@),
        None => None,
    }
}

/// What a `tools/call` with parameters `params` comes to.
pub open spec fn tool_call_is(params: Option<Json>, catalog: ToolCatalog, step: ToolStep) -> bool {
    match params {
        None => plain_reply(step, true, "Missing params object in tools/call"@),
        Some(p) => {
            let name = called_tool(p);
            let arguments = call_arguments(p);
            if name == "get_cv_schema"@ {
                plain_reply(step, false, catalog.cv_schema_text@)
            } else if name == "get_sample_profile"@ {
                plain_reply(step, false, catalog.sample_profile_text@)
            } else if name == "get_template_info"@ {
                json_reply(step, false, template_info_json(catalog.template_len as nat))
            } else if name == "render_cv"@ {
                match arguments.get("profile"@) {
                    None => plain_reply(step, true, "Missing required argument 'profile'"@),
                    Some(profile) => step matches ToolStep::Render { profile: pr, output_path: op }
                        && pr@ == profile && opt_string_view(op) == output_path_of(arguments),
                }
            } else {
                plain_reply(step, true, "Unknown tool: "@ + name)
            }
        },
    }
}

fn plain(is_error: bool, t: String) -> (step: ToolStep)
    ensures
        plain_reply(step, is_error, t@),
{
    ToolStep::Reply(ToolReply { is_error, text: ToolText::Plain(t) })
}

/// Dispatches a `tools/call` on the tool that its parameters name.
pub fn call_tool(params: Option<JsonValue>, catalog: &ToolCatalog) -> (step: ToolStep)
    ensures
        tool_call_is(
            match params {
                Some(p) => Some(p@),
                None => None,
            },
            *catalog,
            step,
        ),
{
    let params = match params {
        Some(p) => p,
        None => {
            return plain(true, text("Missing params object in tools/call"));
        },
    };
    let ghost p = params@;
    let tool_name: &str = match params.get("name") {
        Some(v) => match v.as_str() {
            Some(s) => s,
            None => "",
        },
        None => "",
    };
    proof {
        reveal_strlit("");
        assert(""@ =~= Seq::<char>::empty());
        assert(tool_name@ == called_tool(p));
    }
    let arguments = match params.get("arguments") {
        Some(a) => a.deep_clone(),
        None => JsonValue::empty_object(),
    };
    let name = text(tool_name);
    if name == text("get_cv_schema") {
        plain(false, catalog.cv_schema_text.clone())
    } else if name == text("get_sample_profile") {
        plain(false, catalog.sample_profile_text.clone())
    } else if name == text("get_template_info") {
        ToolStep::Reply(
            ToolReply { is_error: false, text: ToolText::PrettyJson(template_info(catalog.template_len)) },
        )
    } else if name == text("render_cv") {
        match arguments.get("profile") {
            None => plain(true, text("Missing required argument 'profile'")),
            Some(profile) => {
                let output_path = match arguments.get("output_path") {
                    Some(v) => match v.as_str() {
                        Some(s) => Some(text(s)),
                        None => None,
                    },
                    None => None,
                };
                ToolStep::Render { profile: profile.deep_clone(), output_path }
            },
        }
    } else {
        let mut msg = text("Unknown tool: ");
        msg.append(tool_name);
        plain(true, msg)
    }
}

/// Whether the server offers a tool of this name.
pub open spec fn offered_tool(name: Seq<char>) -> bool {
    name == "get_cv_schema"@ || name == "get_sample_profile"@ || name == "get_template_info"@ || name
        == "render_cv"@
}

/// A tool call is answered as failed exactly where it cannot be carried out: without
/// parameters, for a tool that the server does not offer (naming the tool), or for
/// `render_cv` without a profile. Every other call is answered without error, or goes on
/// to render, which `render_cv` with a profile always does.
pub proof fn failed_calls_are_flagged(params: Option<Json>, catalog: ToolCatalog, step: ToolStep)
    requires
        tool_call_is(params, catalog, step),
    ensures
        (step matches ToolStep::Reply(rep) && rep.is_error) <==> match params {
            None => true,
            Some(p) => !offered_tool(called_tool(p)) || (called_tool(p) == "render_cv"@
                && call_arguments(p).get("profile"@) is None),
        },
        step is Render <==> (params matches Some(p) && called_tool(p) == "render_cv"@
            && call_arguments(p).get("profile"@) is Some),
        params is Some && !offered_tool(called_tool(params->Some_0)) ==> (step matches ToolStep::Reply(rep)
            && rep.text matches ToolText::Plain(t) && t@.skip(14) == called_tool(params->Some_0)),
{
    reveal_strlit("Unknown tool: ");
    reveal_strlit("get_cv_schema");
    reveal_strlit("get_sample_profile");
    reveal_strlit("get_template_info");
    reveal_strlit("render_cv");
    assert("render_cv"@ != "get_cv_schema"@ && "render_cv"@ != "get_sample_profile"@
        && "render_cv"@ != "get_template_info"@) by {
        assert("render_cv"@[0] != "get_cv_schema"@[0]);
        assert("render_cv"@[0] != "get_sample_profile"@[0]);
        assert("render_cv"@[0] != "get_template_info"@[0]);
    }
}

/// A `render_cv` run whose profile cannot be read, whose template cannot be rendered or
/// whose PDF cannot be compiled is answered as failed, with a plain error text.
pub proof fn render_failures_are_flagged(job: RenderJob, event: RenderEvent, r: (RenderJob, RenderAction))
    requires
        job.expects(event),
        render_step_is(job, event, r),
    ensures
        (event matches RenderEvent::ProfileParsed(Err(_)) || event matches RenderEvent::LatexRendered(Err(_))
            || event matches RenderEvent::PdfCompiled(Err(_))) ==> {
            &&& r.1 matches RenderAction::Reply(rep)
            &&& rep.is_error
            &&& rep.text is Plain
            &&& r.0.stage is Done
        },
{
}

/// A tool call whose parameters hold no `arguments` is answered as the same call with
/// `arguments: {}`.
pub proof fn missing_arguments_read_as_empty(name: Json, catalog: ToolCatalog, step: ToolStep)
    ensures
        tool_call_is(Some(Json::Object(seq![("name"@, name)])), catalog, step) <==> tool_call_is(
            Some(Json::Object(seq![("name"@, name), ("arguments"@, Json::Object(Seq::empty()))])),
            catalog,
            step,
        ),
{
    let p1 = Json::Object(seq![("name"@, name)]);
    let f2 = seq![("name"@, name), ("arguments"@, Json::Object(Seq::empty()))];
    let p2 = Json::Object(f2);
    reveal_strlit("name");
    reveal_strlit("arguments");
    assert("name"@ != "arguments"@) by {
        assert("name"@.len() != "arguments"@.len());
    }
    assert(seq![("name"@, name)].drop_first() =~= Seq::<(Seq<char>, Json)>::empty());
    assert(f2.drop_first() =~= seq![("arguments"@, Json::Object(Seq::empty()))]);
    assert(member(Seq::<(Seq<char>, Json)>::empty(), "arguments"@) is None);
    assert(member(seq![("arguments"@, Json::Object(Seq::empty()))], "arguments"@) == Some(
        Json::Object(Seq::empty()),
    ));
    assert(called_tool(p1) == called_tool(p2));
    assert(call_arguments(p1) == call_arguments(p2));
}

/// Whether `resp` is a success response with id `id` and a result whose view is `j`.
pub open spec fn success_with(resp: JsonRpcResponse, id: Option<JsonValue>, j: Json) -> bool {
    &&& resp.jsonrpc@ == "2.0"@
    &&& resp.id == id
    &&& resp.error is None
    &&& resp.result matches Some(v)
    &&& v@ == j
}

/// Whether `resp` is an error response with id `id`, this code and this message.
pub open spec fn error_with(resp: JsonRpcResponse, id: Option<JsonValue>, code: int, message: Seq<char>) -> bool {
    &&& resp.jsonrpc@ == "2.0"@
    &&& resp.id == id
    &&& resp.result is None
    &&& resp.error matches Some(e)
    &&& e.code == code
    &&& e.message@ == message
    &&& e.data is None
}

/// What a request with this method, id and parameters comes to.
pub open spec fn request_is(req: JsonRpcRequest, catalog: ToolCatalog, step: RequestStep) -> bool {
    let m = req.method@;
    if m == "initialize"@ {
        step matches RequestStep::Respond(resp) && success_with(resp, req.id, initialize_result(catalog.server_version@))
    } else if m == "notifications/initialized"@ {
        step is Silent
    } else if m == "ping"@ {
        step matches RequestStep::Respond(resp) && success_with(resp, req.id, Json::Object(Seq::empty()))
    } else if m == "tools/list"@ {
        step matches RequestStep::Respond(resp) && success_with(
            resp,
            req.id,
            Json::Object(seq![("tools"@, Json::Array(tool_list(catalog.cv_schema@)))]),
        )
    } else if m == "tools/call"@ {
        &&& step matches RequestStep::Tool { id, step: t }
        &&& id == req.id
        &&& tool_call_is(
            match req.params {
                Some(p) => Some(p@),
                None => None,
            },
            catalog,
            t,
        )
    } else {
        step matches RequestStep::Respond(resp) && error_with(resp, req.id, -32601, "Method '"@ + m + "' not found"@)
    }
}

impl Server {
    /// What a JSON-RPC request comes to: `initialize`, `ping` and `tools/list` are answered,
    /// `notifications/initialized` gets no answer, `tools/call` goes to the named tool,
    /// and any other method is answered with error -32601.
    pub fn handle_request(req: JsonRpcRequest, catalog: &ToolCatalog) -> (step: RequestStep)
        ensures
            request_is(req, *catalog, step),
    {
        let ghost r0 = req;
        let id = req.id;
        let method = req.method;
        if method == text("initialize") {
            RequestStep::Respond(JsonRpcResponse::success(id, initialize_result_value(&catalog.server_version)))
        } else if method == text("notifications/initialized") {
            RequestStep::Silent
        } else if method == text("ping") {
            RequestStep::Respond(JsonRpcResponse::success(id, JsonValue::empty_object()))
        } else if method == text("tools/list") {
            RequestStep::Respond(JsonRpcResponse::success(id, tools_result(catalog.cv_schema.deep_clone())))
        } else if method == text("tools/call") {
            RequestStep::Tool { id, step: call_tool(req.params, catalog) }
        } else {
            let mut msg = text("Method '");
            msg.append(method.as_str());
            msg.append("' not found");
            RequestStep::Respond(JsonRpcResponse::error(id, -32601, msg, None))
        }
    }
}

/// The response to a tool call with id `id` whose output is `text`.
pub fn tool_response(id: Option<JsonValue>, is_error: bool, output: String) -> (resp: JsonRpcResponse)
    ensures
        success_with(resp, id, tool_result_json(Some(is_error), seq![McpContentItem::Text { text: output }])),
{
    let ghost out = output;
    let result = McpCallToolResult {
        is_error: Some(is_error),
        content: vec![McpContentItem::Text { text: output }],
    };
    let v = result.to_json();
    assert(result.content@ =~= seq![McpContentItem::Text { text: out }]);
    JsonRpcResponse::success(id, v)
}


/// The character of a 6-bit value in the standard base64 alphabet `A-Z a-z 0-9 + /`.
pub open spec fn base64_char(v: int) -> char {
    if v < 26 {
        (65 + v) as char
    } else if v < 52 {
        (71 + v) as char
    } else if v < 62 {
        (v - 4) as char
    } else if v == 62 {
        '+'
    } else {
        '/'
    }
}

/// The standard base64 encoding of RFC 4648: each group of three bytes becomes four
/// characters of six bits each, and a last group of one or two bytes is padded with `=`.
pub open spec fn base64_standard(bytes: Seq<u8>) -> Seq<char>
    decreases bytes.len(),
{
    if bytes.len() == 0 {
        Seq::empty()
    } else if bytes.len() == 1 {
        let b0 = bytes[0] as int;
        seq![base64_char(b0 / 4), base64_char((b0 % 4) * 16), '=', '=']
    } else if bytes.len() == 2 {
        let (b0, b1) = (bytes[0] as int, bytes[1] as int);
        seq![base64_char(b0 / 4), base64_char((b0 % 4) * 16 + b1 / 16), base64_char((b1 % 16) * 4), '=']
    } else {
        let (b0, b1, b2) = (bytes[0] as int, bytes[1] as int, bytes[2] as int);
        seq![
            base64_char(b0 / 4),
            base64_char((b0 % 4) * 16 + b1 / 16),
            base64_char((b1 % 16) * 4 + b2 / 64),
            base64_char(b2 % 64),
        ] + base64_standard(bytes.skip(3))
    }
}

/// `base64::engine::general_purpose::STANDARD.encode`: the standard alphabet with `=`
/// padding, as RFC 4648 defines it.
#[verifier::external_body]
fn base64_encode(bytes: &[u8]) -> (r: String)
    ensures
        r@ == base64_standard(bytes@),
{
    base64::engine::general_purpose::STANDARD.encode(bytes)
}

/// The report of a compiled CV: its message, the PDF in base64, the PDF's size and the status.
pub open spec fn render_payload(message: Seq<char>, pdf: Seq<u8>) -> Json {
    Json::Object(
        seq![
            ("message"@, Json::Str(message)),
            ("pdf_base64"@, Json::Str(base64_standard(pdf))),
            ("pdf_size_bytes"@, Json::Number(decimal(pdf.len()))),
            ("status"@, Json::Str("success"@)),
        ],
    )
}

/// The first line of the message of a compiled CV.
pub open spec fn success_message(name: Seq<char>, size: nat) -> Seq<char> {
    "Successfully compiled CV for '"@ + name + "' using LuaLaTeX! PDF size: "@ + decimal(size)
        + " bytes.\n"@
}

/// The line added to the message when the PDF was saved at `path`.
pub open spec fn saved_note(path: Seq<char>) -> Seq<char> {
    "Saved PDF to disk at: "@ + path + "\n"@
}

/// The line added to the message when saving the PDF at `path` failed with `err`.
pub open spec fn save_failed_note(path: Seq<char>, err: Seq<char>) -> Seq<char> {
    "Warning: Failed to save PDF to "@ + path + ": "@ + err + "\n"@
}

fn payload(message: String, pdf: &[u8]) -> (r: JsonValue)
    ensures
        r@ == render_payload(message@, pdf@),
{
    let ghost m = message@;
    let b64 = base64_encode(pdf);
    let size = decimal_text(pdf.len() as u64);
    let r = JsonValue::object_of(
        vec![
            (text("message"), JsonValue::str_of(message)),
            (text("pdf_base64"), JsonValue::str_of(b64)),
            (text("pdf_size_bytes"), JsonValue::number_of(size)),
            (text("status"), JsonValue::string("success")),
        ],
    );
    assert(r@->Object_0 =~= render_payload(m, pdf@)->Object_0);
    r
}

/// A copy of some bytes.
fn copy_bytes(bytes: &Vec<u8>) -> (r: Vec<u8>)
    ensures
        r@ == bytes@,
{
    let mut r: Vec<u8> = Vec::new();
    let n = bytes.len();
    let mut i: usize = 0;
    while i < n
        invariant
            n == bytes@.len(),
            i <= n,
            r@ == bytes@.subrange(0, i as int),
        decreases n - i,
    {
        r.push(bytes[i]);
        i = i + 1;
        assert(r@ =~= bytes@.subrange(0, i as int));
    }
    assert(bytes@.subrange(0, n as int) =~= bytes@);
    r
}

/// Where a `render_cv` run stands.
#[derive(Clone, Debug, PartialEq)]
pub enum RenderStage {
    /// Waiting for the profile to be read from the arguments.
    Parsing,
    /// Waiting for the LaTeX source of the profile of the candidate `name`.
    Rendering { name: String },
    /// Waiting for the compiler.
    Compiling { name: String },
    /// Waiting for the PDF to be written at `path`.
    Saving { path: String, message: String, pdf: Vec<u8> },
    /// The run has ended.
    Done,
}

/// A `render_cv` run in progress.
#[derive(Clone, Debug, PartialEq)]
pub struct RenderJob {
    pub output_path: Option<String>,
    pub stage: RenderStage,
}

/// What happened since the last action; each failure carries the message of its error.
#[derive(Debug, PartialEq)]
pub enum RenderEvent {
    ProfileParsed(Result<CvProfile, String>),
    LatexRendered(Result<String, String>),
    PdfCompiled(Result<CompileResult, String>),
    PdfSaved(Result<(), String>),
}

/// What is to be done next.
#[derive(Debug, PartialEq)]
pub enum RenderAction {
    /// Read a profile out of this JSON value against the CV schema.
    ParseProfile(JsonValue),
    /// Render the template with this profile.
    RenderLatex(CvProfile),
    /// Compile this LaTeX source.
    Compile(String),
    /// Write the PDF at `path`, making its parent directory first.
    SavePdf { path: String, pdf: Vec<u8> },
    /// The run is over: answer the tool call with this.
    Reply(ToolReply),
}

/// Whether `action` answers the call with the report of a compiled CV.
pub open spec fn payload_reply(action: RenderAction, message: Seq<char>, pdf: Seq<u8>) -> bool {
    &&& action matches RenderAction::Reply(rep)
    &&& !rep.is_error
    &&& rep.text matches ToolText::PrettyJson(v)
    &&& v@ == render_payload(message, pdf)
}

/// Whether `action` answers the call with the error text `t`.
pub open spec fn error_reply(action: RenderAction, t: Seq<char>) -> bool {
    &&& action matches RenderAction::Reply(rep)
    &&& rep.is_error
    &&& rep.text matches ToolText::Plain(x)
    &&& x@ == t
}

/// Whether `r` is the next job and action after `event` in `job`.
pub open spec fn render_step_is(job: RenderJob, event: RenderEvent, r: (RenderJob, RenderAction)) -> bool {
    &&& r.0.output_path == job.output_path
    &&& match (job.stage, event) {
        (RenderStage::Parsing, RenderEvent::ProfileParsed(Err(e))) => r.0.stage is Done
            && error_reply(r.1, "Invalid CV profile format against schema: "@ + e@),
        (RenderStage::Parsing, RenderEvent::ProfileParsed(Ok(p))) => r.0.stage
            matches RenderStage::Rendering { name } && name == p.contact.name
            && r.1 == RenderAction::RenderLatex(p),
        (RenderStage::Rendering { .. }, RenderEvent::LatexRendered(Err(e))) => r.0.stage is Done
            && error_reply(r.1, "Template rendering error: "@ + e@),
        (RenderStage::Rendering { name }, RenderEvent::LatexRendered(Ok(tex))) => r.0.stage
            matches RenderStage::Compiling { name: n } && n == name && r.1 == RenderAction::Compile(
            tex,
        ),
        (RenderStage::Compiling { .. }, RenderEvent::PdfCompiled(Err(e))) => r.0.stage is Done
            && error_reply(r.1, "LuaLaTeX compilation failed: "@ + e@),
        (RenderStage::Compiling { name }, RenderEvent::PdfCompiled(Ok(res))) => {
            let message = success_message(name@, res.pdf_bytes@.len());
            match job.output_path {
                Some(path) => {
                    &&& r.0.stage matches RenderStage::Saving { path: p, message: m, pdf }
                    &&& p == path
                    &&& m@ == message
                    &&& pdf@ == res.pdf_bytes@
                    &&& r.1 matches RenderAction::SavePdf { path: ap, pdf: apdf }
                    &&& ap == path
                    &&& apdf@ == res.pdf_bytes@
                },
                None => r.0.stage is Done && payload_reply(r.1, message, res.pdf_bytes@),
            }
        },
        (RenderStage::Saving { path, message, pdf }, RenderEvent::PdfSaved(saved)) => r.0.stage is Done
            && match saved {
            Ok(()) => payload_reply(r.1, message@ + saved_note(path@), pdf@),
            Err(e) => payload_reply(r.1, message@ + save_failed_note(path@, e@), pdf@),
        },
        _ => false,
    }
}

/// A `render_cv` call is answered without error only once the PDF has been compiled,
/// and where an output path was given, only once saving it was tried.
pub proof fn success_follows_compilation(job: RenderJob, event: RenderEvent, r: (RenderJob, RenderAction))
    requires
        job.expects(event),
        render_step_is(job, event, r),
    ensures
        r.1 matches RenderAction::Reply(rep) && !rep.is_error ==> {
            ||| job.stage is Compiling && (event matches RenderEvent::PdfCompiled(Ok(_))) && job.output_path is None
            ||| job.stage is Saving && event is PdfSaved
        },
        r.1 is SavePdf ==> job.stage is Compiling && job.output_path is Some,
{
}

/// The length of a standard base64 text: four characters for every started group of
/// three bytes.
pub proof fn base64_length(bytes: Seq<u8>)
    ensures
        base64_standard(bytes).len() == 4 * ((bytes.len() + 2) / 3),
    decreases bytes.len(),
{
    if bytes.len() >= 3 {
        base64_length(bytes.skip(3));
    }
}

/// Whether `j` reports `pdf` whole: its base64 text is that of every byte, and its size is
/// the number of bytes.
pub open spec fn reports_pdf(j: Json, pdf: Seq<u8>) -> bool {
    &&& j.get("status"@) == Some(Json::Str("success"@))
    &&& j.get("pdf_base64"@) == Some(Json::Str(base64_standard(pdf)))
    &&& j.get("pdf_size_bytes"@) == Some(Json::Number(decimal(pdf.len())))
}

/// A compiled CV is reported with the whole PDF that compilation produced: where no output
/// path was given, at once; where one was, the PDF is kept for saving and reported whole
/// once saving was tried, whatever its outcome. The base64 text has four characters for
/// every started group of three bytes.
pub proof fn report_carries_whole_pdf(job: RenderJob, event: RenderEvent, r: (RenderJob, RenderAction))
    requires
        job.expects(event),
        render_step_is(job, event, r),
    ensures
        event matches RenderEvent::PdfCompiled(Ok(res)) ==> (job.stage is Compiling ==> match job.output_path {
            None => {
                &&& r.1 matches RenderAction::Reply(rep)
                &&& !rep.is_error
                &&& rep.text matches ToolText::PrettyJson(v)
                &&& reports_pdf(v@, res.pdf_bytes@)
            },
            Some(_) => {
                &&& r.0.stage matches RenderStage::Saving { pdf, .. }
                &&& pdf@ == res.pdf_bytes@
            },
        }),
        job.stage matches RenderStage::Saving { pdf, .. } ==> {
            &&& r.1 matches RenderAction::Reply(rep)
            &&& !rep.is_error
            &&& rep.text matches ToolText::PrettyJson(v)
            &&& reports_pdf(v@, pdf@)
            &&& base64_standard(pdf@).len() == 4 * ((pdf@.len() + 2) / 3)
        },
{
    reveal_strlit("message");
    reveal_strlit("pdf_base64");
    reveal_strlit("pdf_size_bytes");
    reveal_strlit("status");
    assert("message"@ != "pdf_base64"@ && "message"@ != "pdf_size_bytes"@ && "message"@ != "status"@) by {
        assert("message"@[0] != "pdf_base64"@[0]);
        assert("message"@[0] != "pdf_size_bytes"@[0]);
        assert("message"@[0] != "status"@[0]);
    }
    assert("pdf_base64"@ != "pdf_size_bytes"@ && "pdf_base64"@ != "status"@ && "pdf_size_bytes"@ != "status"@) by {
        assert("pdf_base64"@[4] != "pdf_size_bytes"@[4]);
        assert("pdf_base64"@[0] != "status"@[0]);
        assert("pdf_size_bytes"@[0] != "status"@[0]);
    }
    assert forall|m: Seq<char>, pdf: Seq<u8>| #[trigger] reports_pdf(render_payload(m, pdf), pdf) by {
        let f = render_payload(m, pdf)->Object_0;
        member_at(f, "pdf_base64"@, 1);
        member_at(f, "pdf_size_bytes"@, 2);
        member_at(f, "status"@, 3);
    }
    if let RenderStage::Saving { pdf, .. } = job.stage {
        base64_length(pdf@);
    }
}

/// Every answer carries the id of the request that it answers, and only the
/// `notifications/initialized` notification goes unanswered.
pub proof fn answers_carry_request_id(req: JsonRpcRequest, catalog: ToolCatalog, step: RequestStep)
    requires
        request_is(req, catalog, step),
    ensures
        step matches RequestStep::Respond(resp) ==> resp.id == req.id,
        step matches RequestStep::Tool { id, .. } ==> id == req.id,
        step is Silent <==> req.method@ == "notifications/initialized"@,
{
    reveal_strlit("initialize");
    reveal_strlit("notifications/initialized");
    reveal_strlit("ping");
    reveal_strlit("tools/list");
    reveal_strlit("tools/call");
    assert("initialize"@ != "notifications/initialized"@) by {
        assert("initialize"@.len() != "notifications/initialized"@.len());
    }
}

impl RenderJob {
    /// Whether `event` answers the action that the job last asked for.
    pub open spec fn expects(self, event: RenderEvent) -> bool {
        match self.stage {
            RenderStage::Parsing => event is ProfileParsed,
            RenderStage::Rendering { .. } => event is LatexRendered,
            RenderStage::Compiling { .. } => event is PdfCompiled,
            RenderStage::Saving { .. } => event is PdfSaved,
            RenderStage::Done => false,
        }
    }

    /// Starts a run: the first thing to do is to read the profile.
    pub fn start(profile: JsonValue, output_path: Option<String>) -> (r: (RenderJob, RenderAction))
        ensures
            r.0 == (RenderJob { output_path, stage: RenderStage::Parsing }),
            r.1 == RenderAction::ParseProfile(profile),
    {
        (RenderJob { output_path, stage: RenderStage::Parsing }, RenderAction::ParseProfile(profile))
    }

    /// The next stage and action after `event`. Each failure ends the run with an error
    /// text; a compiled CV is reported with its PDF in base64, after the PDF has been
    /// saved where an output path was given.
    pub fn step(self, event: RenderEvent) -> (r: (RenderJob, RenderAction))
        requires
            self.expects(event),
        ensures
            render_step_is(self, event, r),
    {
        let output_path = self.output_path;
        match (self.stage, event) {
            (RenderStage::Parsing, RenderEvent::ProfileParsed(Err(e))) => {
                let mut t = text("Invalid CV profile format against schema: ");
                t.append(e.as_str());
                (
                    RenderJob { output_path, stage: RenderStage::Done },
                    RenderAction::Reply(ToolReply { is_error: true, text: ToolText::Plain(t) }),
                )
            },
            (RenderStage::Parsing, RenderEvent::ProfileParsed(Ok(p))) => {
                let name = p.contact.name.clone();
                (RenderJob { output_path, stage: RenderStage::Rendering { name } }, RenderAction::RenderLatex(p))
            },
            (RenderStage::Rendering { .. }, RenderEvent::LatexRendered(Err(e))) => {
                let mut t = text("Template rendering error: ");
                t.append(e.as_str());
                (
                    RenderJob { output_path, stage: RenderStage::Done },
                    RenderAction::Reply(ToolReply { is_error: true, text: ToolText::Plain(t) }),
                )
            },
            (RenderStage::Rendering { name }, RenderEvent::LatexRendered(Ok(tex))) => {
                (RenderJob { output_path, stage: RenderStage::Compiling { name } }, RenderAction::Compile(tex))
            },
            (RenderStage::Compiling { .. }, RenderEvent::PdfCompiled(Err(e))) => {
                let mut t = text("LuaLaTeX compilation failed: ");
                t.append(e.as_str());
                (
                    RenderJob { output_path, stage: RenderStage::Done },
                    RenderAction::Reply(ToolReply { is_error: true, text: ToolText::Plain(t) }),
                )
            },
            (RenderStage::Compiling { name }, RenderEvent::PdfCompiled(Ok(res))) => {
                let mut message = text("Successfully compiled CV for '");
                message.append(name.as_str());
                message.append("' using LuaLaTeX! PDF size: ");
                let size = decimal_text(res.pdf_bytes.len() as u64);
                message.append(size.as_str());
                message.append(" bytes.\n");
                match output_path {
                    Some(path) => {
                        let pdf_copy = copy_bytes(&res.pdf_bytes);
                        let action = RenderAction::SavePdf { path: path.clone(), pdf: pdf_copy };
                        (
                            RenderJob {
                                output_path: Some(path.clone()),
                                stage: RenderStage::Saving { path, message, pdf: res.pdf_bytes },
                            },
                            action,
                        )
                    },
                    None => {
                        let v = payload(message, res.pdf_bytes.as_slice());
                        (
                            RenderJob { output_path: None, stage: RenderStage::Done },
                            RenderAction::Reply(ToolReply { is_error: false, text: ToolText::PrettyJson(v) }),
                        )
                    },
                }
            },
            (RenderStage::Saving { path, message, pdf }, RenderEvent::PdfSaved(saved)) => {
                let ghost m0 = message@;
                let mut message = message;
                match saved {
                    Ok(()) => {
                        message.append("Saved PDF to disk at: ");
                        message.append(path.as_str());
                        message.append("\n");
                        assert(message@ =~= m0 + saved_note(path@));
                    },
                    Err(e) => {
                        message.append("Warning: Failed to save PDF to ");
                        message.append(path.as_str());
                        message.append(": ");
                        message.append(e.as_str());
                        message.append("\n");
                        assert(message@ =~= m0 + save_failed_note(path@, e@));
                    },
                }
                let v = payload(message, pdf.as_slice());
                (
                    RenderJob { output_path, stage: RenderStage::Done },
                    RenderAction::Reply(ToolReply { is_error: false, text: ToolText::PrettyJson(v) }),
                )
            },
            _ => {
                proof {
                    assert(false);
                }
                (RenderJob { output_path, stage: RenderStage::Done }, RenderAction::Compile(text("")))
            },
        }
    }
}


/// Whether `c` has the Unicode `White_Space` property, as the Unicode Character Database
/// (PropList.txt) lists it: U+0009 to U+000D, U+0020, U+0085, U+00A0, U+1680, U+2000 to
/// U+200A, U+2028, U+2029, U+202F, U+205F and U+3000.
pub open spec fn white_space(c: char) -> bool {
    let v = c as u32;
    ||| 0x9 <= v <= 0xD
    ||| v == 0x20
    ||| v == 0x85
    ||| v == 0xA0
    ||| v == 0x1680
    ||| 0x2000 <= v <= 0x200A
    ||| v == 0x2028
    ||| v == 0x2029
    ||| v == 0x202F
    ||| v == 0x205F
    ||| v == 0x3000
}

/// `char::is_whitespace`: whether the character has the Unicode `White_Space` property.
pub assume_specification[ char::is_whitespace ](c: char) -> (b: bool)
    ensures
        b == white_space(c),
;

/// The text without its leading white space.
pub open spec fn trim_front(s: Seq<char>) -> Seq<char>
    decreases s.len(),
{
    if s.len() > 0 && white_space(s[0]) {
        trim_front(s.drop_first())
    } else {
        s
    }
}

/// The text without its trailing white space.
pub open spec fn trim_back(s: Seq<char>) -> Seq<char>
    decreases s.len(),
{
    if s.len() > 0 && white_space(s.last()) {
        trim_back(s.drop_last())
    } else {
        s
    }
}

/// The text without leading and trailing white space, as `str::trim` gives it.
pub open spec fn trimmed(s: Seq<char>) -> Seq<char> {
    trim_back(trim_front(s))
}

/// What a line read from the client comes to: `None` for a blank line, which is skipped,
/// and otherwise the line without its surrounding white space, which is a request to parse.
pub fn request_line(line: &str) -> (r: Option<String>)
    ensures
        match r {
            None => trimmed(line@).len() == 0,
            Some(t) => t@ == trimmed(line@) && t@.len() > 0,
        },
{
    let mut chars: Vec<char> = Vec::new();
    for c in it: line.chars()
        invariant
            it.seq() == line@,
            chars@ == line@.subrange(0, it.index() as int),
    {
        chars.push(c);
        assert(chars@ =~= line@.subrange(0, it.index() + 1));
    }
    assert(chars@ =~= line@);
    let n = chars.len();
    let mut i: usize = 0;
    assert(chars@.subrange(0, n as int) =~= chars@);
    while i < n && chars[i].is_whitespace()
        invariant
            n == chars@.len(),
            chars@ == line@,
            i <= n,
            trim_front(line@) == trim_front(line@.subrange(i as int, n as int)),
        decreases n - i,
    {
        proof {
            assert(line@.subrange(i as int, n as int).drop_first() =~= line@.subrange(i + 1, n as int));
        }
        i = i + 1;
    }
    let ghost front = line@.subrange(i as int, n as int);
    proof {
        if i < n {
            assert(front[0] == line@[i as int]);
        }
        assert(trim_front(line@) == front);
    }
    let mut j: usize = n;
    while j > i && chars[j - 1].is_whitespace()
        invariant
            n == chars@.len(),
            chars@ == line@,
            i <= j <= n,
            front == line@.subrange(i as int, n as int),
            trim_back(front) == trim_back(line@.subrange(i as int, j as int)),
        decreases j,
    {
        proof {
            assert(line@.subrange(i as int, j as int).drop_last() =~= line@.subrange(i as int, j - 1));
        }
        j = j - 1;
    }
    proof {
        let t = line@.subrange(i as int, j as int);
        if j > i {
            assert(t.last() == line@[j - 1]);
        }
        assert(trim_back(t) == t);
    }
    if i == j {
        return None;
    }
    let mut out = String::new();
    let mut k: usize = i;
    while k < j
        invariant
            n == chars@.len(),
            chars@ == line@,
            i <= k <= j <= n,
            out@ == line@.subrange(i as int, k as int),
        decreases j - k,
    {
        out.push(chars[k]);
        k = k + 1;
        assert(out@ =~= line@.subrange(i as int, k as int));
    }
    Some(out)
}

/// The answer to a line that is no JSON-RPC request: error -32700, without an id.
pub fn parse_error_response(detail: &str) -> (resp: JsonRpcResponse)
    ensures
        error_with(resp, None, -32700, "Parse error: "@ + detail@),
{
    let mut msg = text("Parse error: ");
    msg.append(detail);
    JsonRpcResponse::error(None, -32700, msg, None)
}

} // verus!
