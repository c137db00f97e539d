use overlay_forge::openai::{
    api_key_problem, assemble_output_text, build_game_build_guide_input, build_game_input,
    build_input, extract_output_text, ChatMessage, ContentPart, GameChatImageInput, InputContent,
    InputMessage, MISSING_API_KEY,
};

fn message(role: &str, content: &str) -> ChatMessage {
    ChatMessage { role: role.to_string(), content: content.to_string() }
}

fn text_of(m: &InputMessage) -> &str {
    match &m.content {
        InputContent::Text(t) => t.as_str(),
        InputContent::Parts(_) => panic!("expected a text content"),
    }
}

#[test]
fn missing_keys_are_reported() {
    assert_eq!(api_key_problem("  ").as_deref(), Some(MISSING_API_KEY));
    assert_eq!(api_key_problem("sk-test"), None);
}

#[test]
fn planning_input_starts_with_the_project() {
    let input = build_input(
        "Forge",
        "active",
        "Overlay tools",
        vec![message("user", "Plan it"), message("assistant", "Sure")],
        "  ",
    );
    assert_eq!(input.len(), 3);
    assert_eq!(input[0].role, "user");
    assert_eq!(
        text_of(&input[0]),
        "Selected local project context:\nName: Forge\nStatus: active\nDescription: Overlay tools"
    );
    assert_eq!((input[2].role.as_str(), text_of(&input[2])), ("assistant", "Sure"));
    let with_context = build_input("F", "s", "d", Vec::new(), "notes");
    assert_eq!(with_context.len(), 2);
    assert_eq!(text_of(&with_context[1]), "notes");
}

#[test]
fn screenshots_go_with_the_latest_user_message() {
    let images = vec![GameChatImageInput {
        label: "bridge".to_string(),
        data_url: "data:image/png;base64,AAA".to_string(),
    }];
    let input = build_game_input(
        "GearBlocks",
        "gearblocks",
        "Physics sandbox",
        vec![message("assistant", "Hi"), message("user", "What is this?")],
        "",
        images,
    );
    assert_eq!(input.len(), 3);
    assert_eq!(
        text_of(&input[0]),
        "Selected game workspace context:\nName: GearBlocks\nSlug: gearblocks\nSummary: Physics sandbox"
    );
    match &input[2].content {
        InputContent::Parts(parts) => {
            assert_eq!(parts.len(), 3);
            assert!(matches!(&parts[0], ContentPart::Text(t) if t == "What is this?"));
            assert!(matches!(&parts[1], ContentPart::Text(t) if t == "Attached screenshot: bridge"));
            assert!(matches!(&parts[2], ContentPart::Image { image_url, detail }
                if image_url == "data:image/png;base64,AAA" && detail == "low"));
        },
        InputContent::Text(_) => panic!("expected parts"),
    }
    let plain = build_game_input("g", "s", "m", vec![message("assistant", "Hi")], "", vec![GameChatImageInput {
        label: "x".to_string(),
        data_url: "y".to_string(),
    }]);
    assert_eq!(text_of(&plain[1]), "Hi");
}

#[test]
fn build_guides_end_with_the_request() {
    let input = build_game_build_guide_input("g", "s", "m", vec![message("user", "earlier")], "ctx", "  a small car ");
    assert_eq!(input.len(), 5);
    assert_eq!(text_of(&input[2]), "Recent conversation context follows.");
    let request = text_of(&input[4]);
    assert!(request.starts_with("Create an Overlay Forge GearBlocks build guide from this goal:\n\na small car\n\nRequired Markdown structure:\n# <short build guide title>\n## Build Goal"));
    assert!(request.ends_with("## First Test Checklist\nOutput only the Markdown guide. Do not wrap it in triple backticks."));
    let short = build_game_build_guide_input("g", "s", "m", Vec::new(), "", "goal");
    assert_eq!(short.len(), 2);
}

#[test]
fn assistant_text_is_read_from_replies() {
    assert_eq!(extract_output_text(r#"{"output_text":"  Hello  "}"#).unwrap(), "Hello");
    let body = r#"{"output_text":" ","output":[
        {"type":"reasoning","content":[{"text":"hidden"}]},
        {"type":"message","content":[{"text":" First "},{"text":"  "},{"type":"x"}]},
        {"type":"message","content":[{"text":"Second"}]}]}"#;
    assert_eq!(extract_output_text(body).unwrap(), "First\n\nSecond");
    assert_eq!(extract_output_text(r#"{"output":[]}"#).unwrap_err(), "OpenAI returned no assistant text.");
    assert!(extract_output_text("not json").unwrap_err().starts_with("OpenAI response JSON was invalid: "));
    assert_eq!(
        assemble_output_text(None, vec![" a ".to_string(), "".to_string(), "b".to_string()]).unwrap(),
        "a\n\nb"
    );
}

#[test]
fn output_text_wins_over_message_texts_unless_it_is_blank() {
    let both = r#"{"output_text":" Direct ","output":[{"type":"message","content":[{"text":"Other"}]}]}"#;
    assert_eq!(extract_output_text(both).unwrap(), "Direct");
    let blank = r#"{"output_text":"   ","output":[{"type":"message","content":[{"text":"  Other  "},{"text":" "}]}]}"#;
    assert_eq!(extract_output_text(blank).unwrap(), "Other");
    let number = r#"{"output_text":42}"#;
    assert_eq!(extract_output_text(number).unwrap_err(), "OpenAI returned no assistant text.");
}
