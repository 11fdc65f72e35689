use pi_interactive::conversation::{
    assistant_content_to_text, build_content_blocks_for_input, split_content_blocks_for_input,
    ContentBlock, ConversationMessage, ImageContent, MessageRole, TextContent, ThinkingContent,
    ToolCall, TOOL_AUTO_COLLAPSE_THRESHOLD,
};
use pi_interactive::json::Value;

fn thinking(text: &str) -> ContentBlock {
    ContentBlock::Thinking(ThinkingContent {
        thinking: text.to_string(),
        thinking_signature: None,
    })
}

#[test]
fn tool_message_auto_collapse_threshold() {
    // Small output: not collapsed.
    let small = ConversationMessage::tool("Tool bash:\nline1\nline2".to_string());
    assert!(!small.collapsed);
    assert_eq!(small.role, MessageRole::Tool);

    // Exactly at threshold: not collapsed (20 lines = threshold).
    let lines: String = (1..=TOOL_AUTO_COLLAPSE_THRESHOLD)
        .map(|i| format!("line {i}"))
        .collect::<Vec<_>>()
        .join("\n");
    let at_threshold = ConversationMessage::tool(lines);
    assert!(!at_threshold.collapsed);

    // Over threshold: auto-collapsed.
    let lines: String = (1..=TOOL_AUTO_COLLAPSE_THRESHOLD + 1)
        .map(|i| format!("line {i}"))
        .collect::<Vec<_>>()
        .join("\n");
    let over_threshold = ConversationMessage::tool(lines);
    assert!(over_threshold.collapsed);
}

#[test]
fn the_threshold_is_twenty_lines() {
    assert_eq!(TOOL_AUTO_COLLAPSE_THRESHOLD, 20);
}

#[test]
fn non_tool_message_never_collapsed() {
    let msg =
        ConversationMessage::new(MessageRole::User, "a very long message\n".repeat(100), None);
    assert!(!msg.collapsed);
}

#[test]
fn conversation_message_tool_role() {
    let msg = ConversationMessage::tool("Tool read:\nfile contents".to_string());
    assert_eq!(msg.role, MessageRole::Tool);
    assert!(msg.content.contains("file contents"));
}

#[test]
fn conversation_message_new_user_not_collapsed() {
    let msg = ConversationMessage::new(MessageRole::User, "question".to_string(), None);
    assert_eq!(msg.role, MessageRole::User);
    assert!(!msg.collapsed);
}

#[test]
fn conversation_message_with_thinking() {
    let msg = ConversationMessage::new(
        MessageRole::Assistant,
        "response".to_string(),
        Some("I'm thinking...".to_string()),
    );
    assert_eq!(msg.thinking.as_deref(), Some("I'm thinking..."));
}

#[test]
fn tool_collapse_single_line() {
    let msg = ConversationMessage::tool("one line".to_string());
    assert!(!msg.collapsed);
}

#[test]
fn tool_collapse_exactly_threshold_plus_one() {
    // TOOL_AUTO_COLLAPSE_THRESHOLD + 1 lines
    let content = (1..=TOOL_AUTO_COLLAPSE_THRESHOLD + 1)
        .map(|i| format!("L{i}"))
        .collect::<Vec<_>>()
        .join("\n");
    let msg = ConversationMessage::tool(content);
    assert!(msg.collapsed);
}

#[test]
fn long_tool_output_is_collapsed() {
    let content = "line\n".repeat(20_000);
    assert!(ConversationMessage::tool(content).collapsed);
}

#[test]
fn assistant_text_only() {
    let blocks = vec![ContentBlock::Text(TextContent::new("Hello"))];
    let (text, thinking) = assistant_content_to_text(&blocks);
    assert_eq!(text, "Hello");
    assert!(thinking.is_none());
}

#[test]
fn assistant_text_with_thinking() {
    let blocks = vec![
        thinking("Let me reason..."),
        ContentBlock::Text(TextContent::new("response")),
    ];
    let (text, thinking) = assistant_content_to_text(&blocks);
    assert_eq!(text, "response");
    assert_eq!(thinking.as_deref(), Some("Let me reason..."));
}

#[test]
fn assistant_empty_thinking_is_none() {
    let blocks = vec![thinking("  "), ContentBlock::Text(TextContent::new("response"))];
    let (_, thinking) = assistant_content_to_text(&blocks);
    assert!(
        thinking.is_none(),
        "whitespace-only thinking should be None"
    );
}

#[test]
fn assistant_blocks_stand_one_below_the_other() {
    let blocks = vec![
        ContentBlock::Text(TextContent::new("a")),
        thinking("x"),
        ContentBlock::ToolCall(ToolCall {
            id: "tc-1".to_string(),
            name: "bash".to_string(),
            arguments: Value::Null,
            thought_signature: None,
        }),
        ContentBlock::Text(TextContent::new("")),
        ContentBlock::Text(TextContent::new("b")),
        thinking("y"),
    ];
    let (text, thinking) = assistant_content_to_text(&blocks);
    assert_eq!(text, "a\nb");
    assert_eq!(thinking.as_deref(), Some("x\ny"));
}

#[test]
fn split_content_blocks_text_and_images() {
    let blocks = vec![
        ContentBlock::Text(TextContent::new("hello")),
        ContentBlock::Image(ImageContent {
            data: "base64data".to_string(),
            mime_type: "image/png".to_string(),
        }),
        thinking("ignored"),
    ];
    let (text, images) = split_content_blocks_for_input(&blocks);
    assert_eq!(text, "hello");
    assert_eq!(images.len(), 1);
    assert_eq!(images[0].data, "base64data");
}

#[test]
fn split_content_blocks_empty() {
    let (text, images) = split_content_blocks_for_input(&[]);
    assert!(text.is_empty());
    assert!(images.is_empty());
}

#[test]
fn build_content_blocks_text_and_images() {
    let img = ImageContent {
        data: "d".to_string(),
        mime_type: "image/png".to_string(),
    };
    let blocks = build_content_blocks_for_input("hello", &[img]);
    assert_eq!(blocks.len(), 2);
    assert!(matches!(&blocks[0], ContentBlock::Text(t) if t.text == "hello"));
    assert!(matches!(&blocks[1], ContentBlock::Image(_)));
}

#[test]
fn build_content_blocks_empty_text_skipped() {
    let blocks = build_content_blocks_for_input("  ", &[]);
    assert!(blocks.is_empty());
}

#[test]
fn input_comes_back_from_its_blocks() {
    let images = vec![
        ImageContent { data: "1".to_string(), mime_type: "image/png".to_string() },
        ImageContent { data: "2".to_string(), mime_type: "image/gif".to_string() },
    ];
    let blocks = build_content_blocks_for_input(" two\nlines ", &images);
    assert_eq!(
        split_content_blocks_for_input(&blocks),
        (" two\nlines ".to_string(), images.clone())
    );
    let blocks = build_content_blocks_for_input(" ", &images);
    assert_eq!(split_content_blocks_for_input(&blocks), (String::new(), images));
}
