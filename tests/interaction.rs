use ask_user_question::ids::RequestIdGenerator;
use ask_user_question::interaction::{join_strings, ContentItem, InteractionTool, ToolError};
use ask_user_question::parser::{InteractionResult, ParseError, RawReply};
use ask_user_question::response::{
    build_continue_response, build_mcp_response, build_send_response, continue_prompt,
    DEFAULT_CONTINUE_PROMPT,
};
use ask_user_question::server::{AskUserQuestionServer, TOOL_NAME};
use ask_user_question::types::{
    default_is_markdown, AskUserQuestionRequest, ImageAttachment, McpResponse, McpResponseContent,
    PopupRequest, ResponseMetadata,
};

fn request(message: &str, options: &[&str]) -> AskUserQuestionRequest {
    AskUserQuestionRequest {
        message: message.to_string(),
        predefined_options: options.iter().map(|o| o.to_string()).collect(),
        is_markdown: default_is_markdown(),
    }
}

fn structured(user_input: Option<&str>, selected: &[&str]) -> McpResponse {
    McpResponse {
        user_input: user_input.map(|s| s.to_string()),
        selected_options: selected.iter().map(|o| o.to_string()).collect(),
        images: vec![],
        metadata: ResponseMetadata { timestamp: None, request_id: None, source: None },
    }
}

#[test]
fn pick_a_color_end_to_end() {
    let mut server = AskUserQuestionServer::new();
    let mut seen: Option<(String, String, Option<Vec<String>>, bool)> = None;
    let r = server.call_tool(
        TOOL_NAME,
        Ok(request("Pick a color", &["red", "blue"])),
        |p: &PopupRequest| {
            seen = Some((p.id.clone(), p.message.clone(), p.predefined_options.clone(), p.is_markdown));
            Ok(RawReply::Structured(structured(None, &["blue"])))
        },
    );
    assert_eq!(
        seen,
        Some((
            "req-0000000000000000".to_string(),
            "Pick a color".to_string(),
            Some(vec!["red".to_string(), "blue".to_string()]),
            true
        ))
    );
    assert_eq!(r, Ok(vec![ContentItem::Text("Selected options: blue".to_string())]));
}

#[test]
fn empty_options_become_none() {
    let p = InteractionTool::popup_request(request("Q", &[]), "x".to_string());
    assert_eq!(p.predefined_options, None);
    assert!(p.is_markdown);
    assert_eq!(p.message, "Q");
    assert_eq!(p.id, "x");
}

#[test]
fn same_request_gives_same_popup_but_id() {
    let a = InteractionTool::popup_request(request("Q", &["a", "b"]), "id-a".to_string());
    let b = InteractionTool::popup_request(request("Q", &["a", "b"]), "id-b".to_string());
    assert_eq!(a.message, b.message);
    assert_eq!(a.predefined_options, b.predefined_options);
    assert_eq!(a.is_markdown, b.is_markdown);
    assert_ne!(a.id, b.id);
}

#[test]
fn render_text_options_and_images() {
    let result = InteractionResult {
        user_text: Some("because".to_string()),
        selected_options: vec!["red".to_string(), "blue".to_string()],
        images: vec![ImageAttachment {
            data: "aGk=".to_string(),
            media_type: "image/png".to_string(),
            filename: None,
        }],
    };
    assert_eq!(
        InteractionTool::render_content(result),
        vec![
            ContentItem::Text("Selected options: red, blue\n\nbecause".to_string()),
            ContentItem::Image { data: "aGk=".to_string(), media_type: "image/png".to_string() },
        ]
    );
}

#[test]
fn render_empty_answer_has_no_text_item() {
    let result = InteractionResult { user_text: Some(String::new()), selected_options: vec![], images: vec![] };
    assert!(InteractionTool::render_content(result).is_empty());
    let result = InteractionResult { user_text: None, selected_options: vec![], images: vec![] };
    assert!(InteractionTool::render_content(result).is_empty());
}

#[test]
fn render_selection_of_empty_option_is_visible() {
    let result = InteractionResult { user_text: None, selected_options: vec![String::new()], images: vec![] };
    assert_eq!(
        InteractionTool::render_content(result),
        vec![ContentItem::Text("Selected options: ".to_string())]
    );
}

#[test]
fn render_user_text_alone() {
    let result = InteractionResult { user_text: Some("mine".to_string()), selected_options: vec![], images: vec![] };
    assert_eq!(InteractionTool::render_content(result), vec![ContentItem::Text("mine".to_string())]);
}

#[test]
fn join_strings_separates_neighbours() {
    let v = vec!["a".to_string(), "b".to_string(), "c".to_string()];
    assert_eq!(join_strings(&v, "--"), "a--b--c");
    assert_eq!(join_strings(&vec![], ","), "");
}

#[test]
fn unknown_tool_is_refused() {
    let mut server = AskUserQuestionServer::new();
    let r = server.call_tool("other", Ok(request("Q", &[])), |_p: &PopupRequest| {
        Ok(RawReply::Structured(structured(Some("x"), &[])))
    });
    assert_eq!(r, Err(ToolError::UnknownTool("other".to_string())));
}

#[test]
fn bad_arguments_are_invalid_params() {
    let mut server = AskUserQuestionServer::new();
    let r = server.call_tool(TOOL_NAME, Err("missing field `message`".to_string()), |_p: &PopupRequest| {
        Ok(RawReply::Structured(structured(Some("x"), &[])))
    });
    assert_eq!(r, Err(ToolError::InvalidParams("missing field `message`".to_string())));
}

#[test]
fn popup_failure_is_reported() {
    let mut ids = RequestIdGenerator::new("p".to_string());
    let r = InteractionTool::ask_user_question(request("Q", &[]), &mut ids, |_p: &PopupRequest| {
        Err("dismissed".to_string())
    });
    assert_eq!(r, Err(ToolError::PopupFailed("dismissed".to_string())));
}

#[test]
fn malformed_reply_is_reported() {
    let r = InteractionTool::finish(Ok(RawReply::Unrecognized("oops".to_string())));
    assert_eq!(r, Err(ToolError::MalformedReply(ParseError::UnrecognizedSchema("oops".to_string()))));
    let block = McpResponseContent { content_type: "image".to_string(), text: None, source: None };
    let r = InteractionTool::finish(Ok(RawReply::Legacy(vec![block])));
    assert_eq!(r, Err(ToolError::MalformedReply(ParseError::InvalidImage(0))));
}

#[test]
fn describe_lists_three_parameters() {
    let d = AskUserQuestionServer::new().describe();
    assert_eq!(d.name, "ask_user_question");
    assert_eq!(d.params.len(), 3);
    assert_eq!(d.params[0].name, "message");
    assert!(d.params[0].required);
    assert_eq!(d.params[1].json_type, "array");
    assert_eq!(d.params[1].item_type, Some("string".to_string()));
    assert!(!d.params[1].required);
    assert_eq!(d.params[2].json_type, "boolean");
}

#[test]
fn response_text_is_exact() {
    let text = build_mcp_response(
        Some("hi \"you\"".to_string()),
        vec!["a".to_string(), "b".to_string()],
        vec![ImageAttachment { data: "aGk=".to_string(), media_type: "image/png".to_string(), filename: None }],
        None,
        "popup",
        "2024-01-01T00:00:00+00:00",
    );
    assert_eq!(
        text,
        "{\"images\":[{\"data\":\"aGk=\",\"filename\":null,\"media_type\":\"image/png\"}],\"metadata\":{\"request_id\":null,\"source\":\"popup\",\"timestamp\":\"2024-01-01T00:00:00+00:00\"},\"selected_options\":[\"a\",\"b\"],\"user_input\":\"hi \\\"you\\\"\"}"
    );
}

#[test]
fn send_response_carries_fields_and_a_time() {
    let text = build_send_response(None, vec![], vec![], Some("r-1".to_string()), "cli");
    assert!(text.starts_with("{\"images\":[],\"metadata\":{\"request_id\":\"r-1\",\"source\":\"cli\",\"timestamp\":\""));
    assert!(text.ends_with("\"},\"selected_options\":[],\"user_input\":null}"));
    assert!(!text.contains("\"timestamp\":\"\""));
    assert!(text.contains("+00:00\"},\"selected_options\""));
}

#[test]
fn continue_without_configuration_uses_default() {
    assert_eq!(continue_prompt(None), DEFAULT_CONTINUE_PROMPT);
    assert_eq!(continue_prompt(None), "请按照最佳实践继续");
    let text = build_continue_response(None, "gui", None);
    assert!(text.ends_with(&format!("\"user_input\":\"{}\"}}", DEFAULT_CONTINUE_PROMPT)));
}

#[test]
fn continue_with_configuration_uses_it() {
    let text = build_continue_response(Some("q".to_string()), "gui", Some("go on".to_string()));
    assert!(text.contains("\"request_id\":\"q\""));
    assert!(text.ends_with("\"selected_options\":[],\"user_input\":\"go on\"}"));
}

fn field_string(v: &serde_json::Value, key: &str) -> Option<String> {
    v.get(key).and_then(|x| x.as_str()).map(|x| x.to_string())
}

#[test]
fn send_response_parses_back() {
    let text = build_send_response(
        Some("because".to_string()),
        vec!["red".to_string()],
        vec![ImageAttachment { data: "aGk=".to_string(), media_type: "image/png".to_string(), filename: None }],
        Some("r-2".to_string()),
        "gui",
    );
    let v: serde_json::Value = serde_json::from_str(&text).unwrap();
    let selected: Vec<String> = v["selected_options"]
        .as_array()
        .unwrap()
        .iter()
        .map(|x| x.as_str().unwrap().to_string())
        .collect();
    let images: Vec<ImageAttachment> = v["images"]
        .as_array()
        .unwrap()
        .iter()
        .map(|i| ImageAttachment {
            data: field_string(i, "data").unwrap(),
            media_type: field_string(i, "media_type").unwrap(),
            filename: field_string(i, "filename"),
        })
        .collect();
    let m = &v["metadata"];
    let resp = McpResponse {
        user_input: field_string(&v, "user_input"),
        selected_options: selected,
        images,
        metadata: ResponseMetadata {
            timestamp: field_string(m, "timestamp"),
            request_id: field_string(m, "request_id"),
            source: field_string(m, "source"),
        },
    };
    let r = InteractionTool::finish(Ok(RawReply::from_attempts(Some(resp), None, text.clone())));
    assert_eq!(
        r,
        Ok(vec![
            ContentItem::Text("Selected options: red\n\nbecause".to_string()),
            ContentItem::Image { data: "aGk=".to_string(), media_type: "image/png".to_string() },
        ])
    );
}

#[test]
fn successive_calls_show_distinct_ids() {
    let mut server = AskUserQuestionServer::with_id_prefix("n".to_string());
    let mut ids: Vec<String> = Vec::new();
    for _ in 0..2 {
        let r = server.call_tool(TOOL_NAME, Ok(request("Same", &["a"])), |p: &PopupRequest| {
            ids.push(p.id.clone());
            Ok(RawReply::Structured(structured(Some("x"), &[])))
        });
        assert_eq!(r, Ok(vec![ContentItem::Text("x".to_string())]));
    }
    assert_eq!(ids, vec!["n-0000000000000000".to_string(), "n-1000000000000000".to_string()]);
    let r = server.call_tool("nope", Ok(request("Same", &[])), |_p: &PopupRequest| Err("unused".to_string()));
    assert!(r.is_err());
    assert!(server.has_next_id());
}
