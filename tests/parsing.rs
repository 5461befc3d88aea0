use ask_user_question::base64::is_valid_base64;
use ask_user_question::parser::{
    leading_fragment, parse_legacy, parse_reply, parse_structured, InteractionResult, ParseError,
    RawReply, FRAGMENT_LIMIT, LEGACY_TEXT_SEPARATOR,
};
use ask_user_question::types::{
    ImageAttachment, ImageSource, McpResponse, McpResponseContent, ResponseMetadata,
};

fn text_block(t: &str) -> McpResponseContent {
    McpResponseContent { content_type: "text".to_string(), text: Some(t.to_string()), source: None }
}

fn image_block(data: &str, media_type: &str) -> McpResponseContent {
    McpResponseContent {
        content_type: "image".to_string(),
        text: None,
        source: Some(ImageSource {
            source_type: "base64".to_string(),
            media_type: media_type.to_string(),
            data: data.to_string(),
        }),
    }
}

fn metadata() -> ResponseMetadata {
    ResponseMetadata {
        timestamp: Some("2024-01-01T00:00:00Z".to_string()),
        request_id: Some("req-1".to_string()),
        source: Some("popup".to_string()),
    }
}

fn image(data: &str, media_type: &str, filename: Option<&str>) -> ImageAttachment {
    ImageAttachment {
        data: data.to_string(),
        media_type: media_type.to_string(),
        filename: filename.map(|f| f.to_string()),
    }
}

fn ok(r: Result<InteractionResult, ParseError>) -> InteractionResult {
    match r {
        Ok(res) => res,
        Err(e) => panic!("unexpected parse error {:?}", e),
    }
}

#[test]
fn base64_accepts_padded_and_unpadded() {
    assert!(is_valid_base64("aGVsbG8="));
    assert!(is_valid_base64("aGk="));
    assert!(is_valid_base64("aA=="));
    assert!(is_valid_base64("iVBORw0KGgo+/AAA"));
}

#[test]
fn base64_rejects_malformed() {
    assert!(!is_valid_base64(""));
    assert!(!is_valid_base64("abc"));
    assert!(!is_valid_base64("ab=c"));
    assert!(!is_valid_base64("a==="));
    assert!(!is_valid_base64("ab cd"));
    assert!(!is_valid_base64("aé=="));
}

#[test]
fn structured_fields_pass_through() {
    let resp = McpResponse {
        user_input: Some("hello".to_string()),
        selected_options: vec!["red".to_string(), "blue".to_string()],
        images: vec![image("aGk=", "image/png", Some("a.png"))],
        metadata: metadata(),
    };
    let res = ok(parse_structured(resp));
    assert_eq!(res.user_text, Some("hello".to_string()));
    assert_eq!(res.selected_options, vec!["red".to_string(), "blue".to_string()]);
    assert_eq!(res.images.len(), 1);
    assert_eq!(res.images[0].data, "aGk=");
    assert_eq!(res.images[0].media_type, "image/png");
    assert_eq!(res.images[0].filename, Some("a.png".to_string()));
}

#[test]
fn structured_bad_image_is_rejected() {
    let resp = McpResponse {
        user_input: None,
        selected_options: vec![],
        images: vec![image("aGk=", "image/png", None), image("not base64!", "image/png", None)],
        metadata: metadata(),
    };
    assert_eq!(parse_structured(resp).err(), Some(ParseError::InvalidImage(1)));
    let resp = McpResponse {
        user_input: None,
        selected_options: vec![],
        images: vec![image("aGk=", "", None)],
        metadata: metadata(),
    };
    assert_eq!(parse_structured(resp).err(), Some(ParseError::InvalidImage(0)));
}

#[test]
fn legacy_text_blocks_are_joined() {
    let res = ok(parse_legacy(&vec![text_block("a"), text_block("b")]));
    assert_eq!(res.user_text, Some(format!("a{}b", LEGACY_TEXT_SEPARATOR)));
    assert_eq!(res.user_text, Some("a\nb".to_string()));
    assert!(res.selected_options.is_empty());
    assert!(res.images.is_empty());
}

#[test]
fn legacy_image_block_maps_to_attachment() {
    let res = ok(parse_legacy(&vec![image_block("iVBORw0KGgo=", "image/png")]));
    assert_eq!(res.user_text, None);
    assert!(res.selected_options.is_empty());
    assert_eq!(res.images.len(), 1);
    assert_eq!(res.images[0].data, "iVBORw0KGgo=");
    assert_eq!(res.images[0].media_type, "image/png");
    assert_eq!(res.images[0].filename, None);
}

#[test]
fn legacy_mixed_blocks_keep_order_and_skip_unknown() {
    let blocks = vec![
        text_block("first"),
        McpResponseContent { content_type: "audio".to_string(), text: Some("x".to_string()), source: None },
        image_block("aGk=", "image/jpeg"),
        text_block("second"),
        image_block("aA==", "image/gif"),
    ];
    let res = ok(parse_legacy(&blocks));
    assert_eq!(res.user_text, Some("first\nsecond".to_string()));
    assert_eq!(res.images.len(), 2);
    assert_eq!(res.images[0].media_type, "image/jpeg");
    assert_eq!(res.images[1].data, "aA==");
}

#[test]
fn legacy_empty_sequence_has_no_text() {
    let res = ok(parse_legacy(&vec![]));
    assert_eq!(res.user_text, None);
    assert!(res.images.is_empty());
}

#[test]
fn legacy_bad_images_are_rejected() {
    assert_eq!(
        parse_legacy(&vec![text_block("a"), image_block("%%%%", "image/png")]).err(),
        Some(ParseError::InvalidImage(1))
    );
    let no_source = McpResponseContent { content_type: "image".to_string(), text: None, source: None };
    assert_eq!(parse_legacy(&vec![no_source]).err(), Some(ParseError::InvalidImage(0)));
}

#[test]
fn structured_schema_is_tried_first() {
    let resp = McpResponse {
        user_input: Some("s".to_string()),
        selected_options: vec![],
        images: vec![],
        metadata: metadata(),
    };
    let reply = RawReply::from_attempts(Some(resp), Some(vec![text_block("l")]), "{}".to_string());
    assert!(matches!(reply, RawReply::Structured(_)));
    let res = ok(parse_reply(reply));
    assert_eq!(res.user_text, Some("s".to_string()));
    let reply = RawReply::from_attempts(None, Some(vec![text_block("l")]), "[]".to_string());
    assert_eq!(ok(parse_reply(reply)).user_text, Some("l".to_string()));
}

#[test]
fn unrecognized_reply_fails() {
    let reply = RawReply::from_attempts(None, None, "not json".to_string());
    assert_eq!(
        parse_reply(reply).err(),
        Some(ParseError::UnrecognizedSchema("not json".to_string()))
    );
    let reply = RawReply::from_attempts(None, None, "{\"foo\":1}".to_string());
    assert_eq!(
        parse_reply(reply).err(),
        Some(ParseError::UnrecognizedSchema("{\"foo\":1}".to_string()))
    );
}

#[test]
fn fragment_is_bounded() {
    let long = "x".repeat(500);
    assert_eq!(leading_fragment(&long), "x".repeat(FRAGMENT_LIMIT));
    let wide = "é".repeat(100);
    let f = leading_fragment(&wide);
    assert!(f.len() <= FRAGMENT_LIMIT);
    assert_eq!(f, "é".repeat(FRAGMENT_LIMIT / 2));
    assert_eq!(leading_fragment(""), "");
}
