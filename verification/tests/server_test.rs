use cv_writer_mcp::compiler::CompileResult;
use cv_writer_mcp::json::JsonValue;
use cv_writer_mcp::mcp::{JsonRpcRequest, JsonRpcResponse};
use cv_writer_mcp::schema::sample_cv_profile;
use cv_writer_mcp::server::{
    parse_error_response, request_line, tool_response, RenderAction, RenderEvent, RenderJob, RenderStage,
    RequestStep, Server, ToolCatalog, ToolReply, ToolStep, ToolText,
};

fn s(t: &str) -> JsonValue {
    JsonValue::Str(t.to_string())
}

fn obj(fields: Vec<(&str, JsonValue)>) -> JsonValue {
    JsonValue::Object(fields.into_iter().map(|(k, v)| (k.to_string(), v)).collect())
}

fn catalog() -> ToolCatalog {
    ToolCatalog {
        server_version: "0.1.0".to_string(),
        cv_schema: obj(vec![("title", s("CvProfile"))]),
        cv_schema_text: "{ \"title\": \"CvProfile\" }".to_string(),
        sample_profile_text: "{ \"contact\": {} }".to_string(),
        template_len: 5120,
    }
}

fn request(id: i64, method: &str, params: Option<JsonValue>) -> JsonRpcRequest {
    JsonRpcRequest {
        jsonrpc: "2.0".to_string(),
        id: Some(JsonValue::Number(id.to_string())),
        method: method.to_string(),
        params,
    }
}

fn respond(step: RequestStep) -> JsonRpcResponse {
    match step {
        RequestStep::Respond(r) => r,
        other => panic!("expected a response, got {:?}", other),
    }
}

fn tool_step(step: RequestStep) -> (Option<JsonValue>, ToolStep) {
    match step {
        RequestStep::Tool { id, step } => (id, step),
        other => panic!("expected a tool call, got {:?}", other),
    }
}

fn call(name: &str, arguments: Option<JsonValue>) -> ToolStep {
    let mut fields = vec![("name", s(name))];
    if let Some(a) = arguments {
        fields.push(("arguments", a));
    }
    tool_step(Server::handle_request(request(10, "tools/call", Some(obj(fields))), &catalog())).1
}

fn plain(is_error: bool, t: &str) -> ToolStep {
    ToolStep::Reply(ToolReply { is_error, text: ToolText::Plain(t.to_string()) })
}

#[test]
fn test_mcp_initialize_and_tools_list() {
    let init_resp = respond(Server::handle_request(request(1, "initialize", None), &catalog()));
    assert_eq!(init_resp.id, Some(JsonValue::Number("1".to_string())));
    let result = init_resp.result.expect("Expected result");
    assert_eq!(result.get("serverInfo").unwrap().get("name").unwrap(), &s("cv-writer-mcp"));

    let list_resp = respond(Server::handle_request(request(2, "tools/list", None), &catalog()));
    let list_result = list_resp.result.unwrap();
    let tools = match list_result.get("tools").unwrap() {
        JsonValue::Array(items) => items,
        other => panic!("tools is no array: {:?}", other),
    };
    let tool_names: Vec<String> =
        tools.iter().map(|t| t.get("name").unwrap().as_str().unwrap().to_string()).collect();

    assert!(tool_names.contains(&"get_cv_schema".to_string()));
    assert!(tool_names.contains(&"get_sample_profile".to_string()));
    assert!(tool_names.contains(&"get_template_info".to_string()));
    assert!(tool_names.contains(&"render_cv".to_string()));
}


#[test]
fn tools_list_order_and_render_arguments() {
    let resp = respond(Server::handle_request(request(3, "tools/list", None), &catalog()));
    let result = resp.result.unwrap();
    let tools = match result.get("tools").unwrap() {
        JsonValue::Array(items) => items,
        other => panic!("tools is no array: {:?}", other),
    };
    let names: Vec<&str> = tools.iter().map(|t| t.get("name").unwrap().as_str().unwrap()).collect();
    assert_eq!(names, vec!["get_cv_schema", "get_sample_profile", "get_template_info", "render_cv"]);
    let render_schema = tools[3].get("inputSchema").unwrap();
    assert_eq!(render_schema.get("properties").unwrap().get("profile").unwrap(), &obj(vec![("title", s("CvProfile"))]));
    assert_eq!(render_schema.get("required").unwrap(), &JsonValue::Array(vec![s("profile")]));
    let no_args = tools[0].get("inputSchema").unwrap();
    assert_eq!(no_args.get("additionalProperties").unwrap(), &JsonValue::Bool(false));
}

#[test]
fn ping_and_notification() {
    let resp = respond(Server::handle_request(request(4, "ping", None), &catalog()));
    assert_eq!(resp.result, Some(JsonValue::Object(vec![])));
    assert_eq!(resp.error, None);
    assert_eq!(resp.jsonrpc, "2.0");
    assert_eq!(Server::handle_request(request(5, "notifications/initialized", None), &catalog()), RequestStep::Silent);
}

#[test]
fn initialize_reports_protocol_and_version() {
    let resp = respond(Server::handle_request(request(6, "initialize", None), &catalog()));
    let result = resp.result.unwrap();
    assert_eq!(result.get("protocolVersion").unwrap(), &s("2024-11-05"));
    assert_eq!(result.get("serverInfo").unwrap().get("version").unwrap(), &s("0.1.0"));
    assert_eq!(result.get("capabilities").unwrap().get("tools").unwrap(), &JsonValue::Object(vec![]));
}

#[test]
fn unknown_method_is_an_error() {
    let resp = respond(Server::handle_request(request(7, "resources/list", None), &catalog()));
    assert_eq!(resp.id, Some(JsonValue::Number("7".to_string())));
    assert_eq!(resp.result, None);
    let err = resp.error.unwrap();
    assert_eq!(err.code, -32601);
    assert_eq!(err.message, "Method 'resources/list' not found");
    assert_eq!(err.data, None);
}

#[test]
fn tool_call_keeps_the_request_id() {
    let (id, _) = tool_step(Server::handle_request(request(12, "tools/call", None), &catalog()));
    assert_eq!(id, Some(JsonValue::Number("12".to_string())));
}

#[test]
fn tool_call_without_params() {
    let (_, step) = tool_step(Server::handle_request(request(11, "tools/call", None), &catalog()));
    assert_eq!(step, plain(true, "Missing params object in tools/call"));
}

#[test]
fn tool_call_unknown_or_unnamed_tool() {
    assert_eq!(call("make_coffee", None), plain(true, "Unknown tool: make_coffee"));
    let step = tool_step(Server::handle_request(request(13, "tools/call", Some(obj(vec![]))), &catalog())).1;
    assert_eq!(step, plain(true, "Unknown tool: "));
    let step = tool_step(Server::handle_request(
        request(14, "tools/call", Some(obj(vec![("name", JsonValue::Number("3".to_string()))]))),
        &catalog(),
    ))
    .1;
    assert_eq!(step, plain(true, "Unknown tool: "));
}

#[test]
fn tool_call_schema_and_sample() {
    assert_eq!(call("get_cv_schema", None), plain(false, "{ \"title\": \"CvProfile\" }"));
    assert_eq!(call("get_sample_profile", Some(obj(vec![]))), plain(false, "{ \"contact\": {} }"));
}

#[test]
fn tool_call_template_info() {
    let step = call("get_template_info", None);
    let info = match step {
        ToolStep::Reply(ToolReply { is_error: false, text: ToolText::PrettyJson(v) }) => v,
        other => panic!("unexpected {:?}", other),
    };
    assert_eq!(info.get("engine").unwrap(), &s("LuaLaTeX"));
    assert_eq!(info.get("raw_template_length").unwrap(), &JsonValue::Number("5120".to_string()));
    assert_eq!(info.get("palette").unwrap().get("accent").unwrap(), &s("#141E61 (Navy/Indigo)"));
    match info.get("sections_supported").unwrap() {
        JsonValue::Array(items) => {
            assert_eq!(items.len(), 9);
            assert_eq!(items[1], s("summary"));
        },
        other => panic!("unexpected {:?}", other),
    }
}

#[test]
fn tool_call_render_arguments() {
    assert_eq!(call("render_cv", None), plain(true, "Missing required argument 'profile'"));
    assert_eq!(call("render_cv", Some(obj(vec![("output_path", s("/tmp/cv.pdf"))]))), plain(true, "Missing required argument 'profile'"));
    let profile = obj(vec![("contact", obj(vec![("name", s("Jane"))]))]);
    assert_eq!(
        call("render_cv", Some(obj(vec![("profile", profile.deep_clone()), ("output_path", s("/tmp/cv.pdf"))]))),
        ToolStep::Render { profile: profile.deep_clone(), output_path: Some("/tmp/cv.pdf".to_string()) }
    );
    assert_eq!(
        call("render_cv", Some(obj(vec![("profile", profile.deep_clone()), ("output_path", JsonValue::Bool(true))]))),
        ToolStep::Render { profile: profile.deep_clone(), output_path: None }
    );
}

#[test]
fn tool_response_wraps_text() {
    let resp = tool_response(Some(JsonValue::Number("9".to_string())), false, "hello".to_string());
    assert_eq!(resp.id, Some(JsonValue::Number("9".to_string())));
    let result = resp.result.unwrap();
    assert_eq!(result.get("isError").unwrap(), &JsonValue::Bool(false));
    match result.get("content").unwrap() {
        JsonValue::Array(items) => {
            assert_eq!(items.len(), 1);
            assert_eq!(items[0].get("type").unwrap(), &s("text"));
            assert_eq!(items[0].get("text").unwrap(), &s("hello"));
        },
        other => panic!("unexpected {:?}", other),
    }
}

#[test]
fn request_lines_are_trimmed() {
    assert_eq!(request_line("  {\"a\":1}\r\n"), Some("{\"a\":1}".to_string()));
    assert_eq!(request_line("\t \n"), None);
    assert_eq!(request_line(""), None);
    assert_eq!(request_line("x"), Some("x".to_string()));
    assert_eq!(request_line("\u{A0}ping\u{2003}"), Some("ping".to_string()));
}

#[test]
fn parse_errors_have_no_id() {
    let resp = parse_error_response("expected value at line 1 column 1");
    assert_eq!(resp.id, None);
    let err = resp.error.unwrap();
    assert_eq!(err.code, -32700);
    assert_eq!(err.message, "Parse error: expected value at line 1 column 1");
}

fn reply(action: RenderAction) -> (bool, ToolText) {
    match action {
        RenderAction::Reply(ToolReply { is_error, text }) => (is_error, text),
        other => panic!("expected a reply, got {:?}", other),
    }
}

fn started() -> RenderJob {
    let (job, action) = RenderJob::start(JsonValue::Null, None);
    assert_eq!(action, RenderAction::ParseProfile(JsonValue::Null));
    job
}

#[test]
fn render_rejects_invalid_profile() {
    let (job, action) = started().step(RenderEvent::ProfileParsed(Err("missing field `contact`".to_string())));
    assert_eq!(job.stage, RenderStage::Done);
    assert_eq!(reply(action), (true, ToolText::Plain("Invalid CV profile format against schema: missing field `contact`".to_string())));
}

#[test]
fn render_reports_template_and_compiler_errors() {
    let (job, action) = started().step(RenderEvent::ProfileParsed(Ok(sample_cv_profile())));
    assert_eq!(action, RenderAction::RenderLatex(sample_cv_profile()));
    assert_eq!(job.stage, RenderStage::Rendering { name: "Star Rover".to_string() });
    let (_, action) = job.step(RenderEvent::LatexRendered(Err("bad filter".to_string())));
    assert_eq!(reply(action), (true, ToolText::Plain("Template rendering error: bad filter".to_string())));

    let (job, _) = started().step(RenderEvent::ProfileParsed(Ok(sample_cv_profile())));
    let (job, action) = job.step(RenderEvent::LatexRendered(Ok("\\documentclass{article}".to_string())));
    assert_eq!(action, RenderAction::Compile("\\documentclass{article}".to_string()));
    let (_, action) = job.step(RenderEvent::PdfCompiled(Err("lualatex executable not found in PATH".to_string())));
    assert_eq!(
        reply(action),
        (true, ToolText::Plain("LuaLaTeX compilation failed: lualatex executable not found in PATH".to_string()))
    );
}

fn compiled(job: RenderJob) -> (RenderJob, RenderAction) {
    let (job, _) = job.step(RenderEvent::ProfileParsed(Ok(sample_cv_profile())));
    let (job, _) = job.step(RenderEvent::LatexRendered(Ok("tex".to_string())));
    job.step(RenderEvent::PdfCompiled(Ok(CompileResult { pdf_bytes: b"%PDF-1.4".to_vec(), log: String::new() })))
}

#[test]
fn render_success_without_output_path() {
    let (job, action) = compiled(started());
    assert_eq!(job.stage, RenderStage::Done);
    let payload = match reply(action) {
        (false, ToolText::PrettyJson(v)) => v,
        other => panic!("unexpected {:?}", other),
    };
    assert_eq!(payload.get("status").unwrap(), &s("success"));
    assert_eq!(payload.get("pdf_base64").unwrap(), &s("JVBERi0xLjQ="));
    assert_eq!(payload.get("pdf_size_bytes").unwrap(), &JsonValue::Number("8".to_string()));
    assert_eq!(
        payload.get("message").unwrap(),
        &s("Successfully compiled CV for 'Star Rover' using LuaLaTeX! PDF size: 8 bytes.\n")
    );
}

#[test]
fn render_saves_where_asked() {
    let (job, _) = RenderJob::start(JsonValue::Null, Some("/tmp/out/cv.pdf".to_string()));
    let (job, action) = compiled(job);
    assert_eq!(action, RenderAction::SavePdf { path: "/tmp/out/cv.pdf".to_string(), pdf: b"%PDF-1.4".to_vec() });
    let (done, action) = job.step(RenderEvent::PdfSaved(Ok(())));
    assert_eq!(done.output_path, Some("/tmp/out/cv.pdf".to_string()));
    let payload = match reply(action) {
        (false, ToolText::PrettyJson(v)) => v,
        other => panic!("unexpected {:?}", other),
    };
    assert_eq!(
        payload.get("message").unwrap(),
        &s("Successfully compiled CV for 'Star Rover' using LuaLaTeX! PDF size: 8 bytes.\nSaved PDF to disk at: /tmp/out/cv.pdf\n")
    );
}

#[test]
fn render_warns_when_saving_fails() {
    let (job, _) = RenderJob::start(JsonValue::Null, Some("/root/cv.pdf".to_string()));
    let (job, _) = compiled(job);
    let (_, action) = job.step(RenderEvent::PdfSaved(Err("Permission denied (os error 13)".to_string())));
    let payload = match reply(action) {
        (false, ToolText::PrettyJson(v)) => v,
        other => panic!("unexpected {:?}", other),
    };
    assert_eq!(
        payload.get("message").unwrap(),
        &s("Successfully compiled CV for 'Star Rover' using LuaLaTeX! PDF size: 8 bytes.\nWarning: Failed to save PDF to /root/cv.pdf: Permission denied (os error 13)\n")
    );
    assert_eq!(payload.get("pdf_base64").unwrap(), &s("JVBERi0xLjQ="));
}

#[test]
fn missing_arguments_read_as_empty_object() {
    for name in ["get_cv_schema", "get_template_info", "render_cv", "nope"] {
        assert_eq!(call(name, None), call(name, Some(obj(vec![]))));
    }
}

#[test]
fn white_space_is_the_listed_code_points() {
    let listed = |v: u32| {
        (0x9..=0xD).contains(&v)
            || v == 0x20
            || v == 0x85
            || v == 0xA0
            || v == 0x1680
            || (0x2000..=0x200A).contains(&v)
            || v == 0x2028
            || v == 0x2029
            || v == 0x202F
            || v == 0x205F
            || v == 0x3000
    };
    for v in 0..=0x10FFFFu32 {
        if let Some(c) = char::from_u32(v) {
            assert_eq!(c.is_whitespace(), listed(v), "U+{:04X}", v);
            if listed(v) {
                assert_eq!(request_line(&format!("{}x{}", c, c)), Some("x".to_string()));
            }
        }
    }
}
