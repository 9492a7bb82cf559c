use ava_bot::tools::{arguments_from, decode_image, image_bytes_from, parse_arguments};
use ava_bot::{md2html, AssistantStep, AssistantTool, ErrorKind};

#[test]
fn known_tools_resolve_by_name() {
    assert_eq!(AssistantTool::from_name("draw_image").unwrap(), AssistantTool::DrawImage);
    assert_eq!(AssistantTool::from_name("write_code").unwrap(), AssistantTool::WriteCode);
    assert_eq!(AssistantTool::from_name("answer").unwrap(), AssistantTool::Answer);
}

#[test]
fn unknown_tool_names_fail() {
    for name in ["", "DrawImage", "draw_image ", "Answer", "search"] {
        let failure = AssistantTool::from_name(name).unwrap_err();
        assert_eq!(failure.kind(), ErrorKind::UnknownTool);
        assert_eq!(failure.message(), "no proper tool found at the moment");
    }
}

#[test]
fn tools_announce_their_step() {
    assert_eq!(AssistantTool::DrawImage.step(), AssistantStep::DrawImage);
    assert_eq!(AssistantTool::WriteCode.step(), AssistantStep::WriteCode);
    assert_eq!(AssistantTool::Answer.step(), AssistantStep::ChatCompletion);
}

#[test]
fn arguments_are_parsed() {
    assert_eq!(parse_arguments("{\"prompt\":\"a cat\"}").unwrap().prompt, "a cat");
    assert_eq!(
        parse_arguments(" { \"other\": 1, \"prompt\" : \"a \\\"dog\\\"\" } ").unwrap().prompt,
        "a \"dog\""
    );
}

#[test]
fn malformed_arguments_fail() {
    for text in ["", "{", "{\"prompt\": ", "{\"prompt\":\"a cat\"", "not json", "{prompt: 1}"] {
        let failure = parse_arguments(text).unwrap_err();
        assert_eq!(failure.kind(), ErrorKind::InvalidArguments);
        assert!(!failure.message().is_empty());
    }
    assert_eq!(
        parse_arguments("{\"prompt\": ").unwrap_err().message(),
        "EOF while parsing a value at line 1 column 11"
    );
}

#[test]
fn arguments_without_a_prompt_fail() {
    for text in ["{}", "{\"prompt\": 3}", "{\"Prompt\":\"x\"}", "[\"a cat\"]", "\"a cat\"", "null"] {
        let failure = parse_arguments(text).unwrap_err();
        assert_eq!(failure.kind(), ErrorKind::InvalidArguments);
        assert_eq!(failure.message(), "missing field `prompt`");
    }
}

#[test]
fn arguments_from_each_reading() {
    assert_eq!(arguments_from(Ok(Some("x".to_string()))).unwrap().prompt, "x");
    let missing = arguments_from(Ok(None)).unwrap_err();
    assert_eq!(missing.kind(), ErrorKind::InvalidArguments);
    assert_eq!(missing.message(), "missing field `prompt`");
    let broken = arguments_from(Err("expected value".to_string())).unwrap_err();
    assert_eq!(broken.kind(), ErrorKind::InvalidArguments);
    assert_eq!(broken.message(), "expected value");
}

#[test]
fn markdown_becomes_html() {
    assert_eq!(md2html("# Title"), "<h1>Title</h1>\n");
    assert_eq!(md2html("some *text*"), "<p>some <em>text</em></p>\n");
    assert_eq!(md2html(""), "");
}

#[test]
fn fenced_code_is_highlighted() {
    let html = md2html("```rust\nfn main() {}\n```\n");
    assert!(html.starts_with("<pre"));
    assert!(html.contains("background-color:#002b36;"));
    assert!(html.contains("<span style="));
    assert!(html.contains("main"));
    assert!(html.ends_with("</code></pre>\n"));
}

#[test]
fn image_text_is_decoded() {
    assert_eq!(decode_image("aGVsbG8=").unwrap(), b"hello".to_vec());
    assert_eq!(decode_image("").unwrap(), Vec::<u8>::new());
    assert_eq!(decode_image("AAEC/w==").unwrap(), vec![0u8, 1, 2, 255]);
}

#[test]
fn undecodable_image_text_fails() {
    for text in ["aGVsbG8", "a", "####", "aGVsbG8=="] {
        let failure = decode_image(text).unwrap_err();
        assert_eq!(failure.kind(), ErrorKind::UpstreamService);
        assert!(!failure.message().is_empty());
    }
}

#[test]
fn image_bytes_from_each_decoding() {
    assert_eq!(image_bytes_from(Ok(vec![1, 2, 3])).unwrap(), vec![1, 2, 3]);
    let failure = image_bytes_from(Err("Invalid padding".to_string())).unwrap_err();
    assert_eq!(failure.kind(), ErrorKind::UpstreamService);
    assert_eq!(failure.message(), "Invalid padding");
}
