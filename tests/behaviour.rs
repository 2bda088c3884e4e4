use auto_pilot::action::{
    build_request, build_summary_message, build_vision_message, clean_reply, image_data_uri,
    record_exchange, MAX_TOKENS, MODEL,
};
use auto_pilot::control::{LoopState, Step, MAX_LOOPS};
use auto_pilot::initialize::initialize_messages;
use auto_pilot::operations::{
    click_target, search_keys, search_summary, type_keys, type_summary, KeyEvent,
};
use auto_pilot::parsers::{
    format_summary_prompt, format_vision_prompt, get_last_assistant_message,
    parse_openai_response, strip_percent, ActionType,
};
use auto_pilot::prompts::ASSISTANT_MESSAGE;
use auto_pilot::screen::{grid_plan, GridError};
use auto_pilot::text::{decimal_string, trim_matches};
use auto_pilot::types::{ImageMessageContent, Message, Role, TextMessage};

fn parse(reply: &str) -> (String, String) {
    parse_openai_response(reply).unwrap()
}

fn text_turn(role: Role, content: &str) -> Message {
    Message::TextMessage(TextMessage { role, content: content.to_string() })
}

#[test]
fn done_parses_bare_and_wrapped() {
    for reply in ["DONE", "\"DONE\"", "\\\"DONE\\\"", "\\DONE\"\"", "\"\\\"DONE"] {
        assert_eq!(parse(reply), ("DONE".to_string(), String::new()));
    }
}

#[test]
fn done_with_more_text_is_unknown() {
    assert_eq!(parse("DONE now"), ("UNKNOWN".to_string(), "DONE now".to_string()));
}

#[test]
fn click_payload_decodes_to_coordinates() {
    let reply = r#"CLICK {{ "x": "55%", "y": "60%", "description": "d", "reason": "r" }}"#;
    let (action, detail) = parse(reply);
    assert_eq!(action, "CLICK");
    assert_eq!(detail, r#"{ "x": "55%", "y": "60%", "description": "d", "reason": "r" }"#);
    let value: serde_json::Value = serde_json::from_str(&detail).unwrap();
    assert_eq!(value["x"].as_str(), Some("55%"));
    assert_eq!(value["y"].as_str(), Some("60%"));
}

#[test]
fn click_payload_inside_quotes_and_backslashes() {
    let reply = "\"CLICK {{\\ \"x\": \"5%\", \"y\": \"9%\" \\}}\"";
    let (action, detail) = parse(reply);
    assert_eq!(action, "CLICK");
    assert_eq!(detail, "{ \"x\": \"5%\", \"y\": \"9%\" }");
}

#[test]
fn click_payload_escapes_are_removed() {
    let reply = r#"CLICK {{ \"x\": \"55%\", \"y\": \"60%\" }}"#;
    let (action, detail) = parse(reply);
    assert_eq!(action, "CLICK");
    assert_eq!(detail, r#"{ "x": "55%", "y": "60%" }"#);
    let value: serde_json::Value = serde_json::from_str(&detail).unwrap();
    assert_eq!(value["x"].as_str(), Some("55%"));
    assert_eq!(value["y"].as_str(), Some("60%"));
}

#[test]
fn click_takes_the_last_closing_braces_on_the_line() {
    let (action, detail) = parse("CLICK {{a}} b}}");
    assert_eq!(action, "CLICK");
    assert_eq!(detail, "{a}} b}");
}

#[test]
fn click_without_payload_is_unknown() {
    assert_eq!(parse("CLICK here"), ("UNKNOWN".to_string(), "CLICK here".to_string()));
    assert_eq!(parse("CLICK {{}}"), ("UNKNOWN".to_string(), "CLICK {{}}".to_string()));
}

#[test]
fn type_strips_quotes_and_keeps_inner_ones() {
    assert_eq!(parse("TYPE \"hello\""), ("TYPE".to_string(), "hello".to_string()));
    assert_eq!(
        parse("TYPE say \\\"hi\\\" to them"),
        ("TYPE".to_string(), "say \\\"hi\\\" to them".to_string())
    );
    assert_eq!(
        parse("TYPE https://www.amazon.com/"),
        ("TYPE".to_string(), "https://www.amazon.com/".to_string())
    );
}

#[test]
fn type_capture_stops_at_line_break() {
    assert_eq!(parse("TYPE abc\ndef"), ("TYPE".to_string(), "abc".to_string()));
}

#[test]
fn type_without_space_is_unknown() {
    assert_eq!(parse("TYPEabc"), ("UNKNOWN".to_string(), "TYPEabc".to_string()));
}

#[test]
fn search_parses() {
    assert_eq!(parse("SEARCH \"Spotify\""), ("SEARCH".to_string(), "Spotify".to_string()));
    assert_eq!(parse("SEARCH\tGoogle Chrome"), ("SEARCH".to_string(), "Google Chrome".to_string()));
}

#[test]
fn other_replies_are_unknown() {
    assert_eq!(parse("\"I cannot help\""), ("UNKNOWN".to_string(), "I cannot help".to_string()));
    assert_eq!(parse(""), ("UNKNOWN".to_string(), String::new()));
    assert_eq!(parse("done"), ("UNKNOWN".to_string(), "done".to_string()));
}

#[test]
fn action_type_from_str() {
    assert_eq!(ActionType::from_str("DONE"), ActionType::Done);
    assert_eq!(ActionType::from_str("CLICK"), ActionType::Click);
    assert_eq!(ActionType::from_str("TYPE x"), ActionType::Type);
    assert_eq!(ActionType::from_str("SEARCH x"), ActionType::Search);
    assert_eq!(ActionType::from_str("UNKNOWN"), ActionType::Unknown);
    assert_eq!(ActionType::from_str("DONEX"), ActionType::Unknown);
}

#[test]
fn percent_is_stripped_before_reading() {
    assert_eq!(strip_percent("55%"), "55");
    assert_eq!(strip_percent("\"60%\""), "60");
    let decimal = strip_percent("55%").parse::<f32>().unwrap() / 100.0;
    assert!((decimal - 0.55).abs() < 1e-6);
    assert_eq!(strip_percent("bad"), "bad");
    assert!(strip_percent("bad").parse::<f32>().is_err());
}

#[test]
fn click_target_needs_both_coordinates() {
    assert_eq!(
        click_target(Some("55%"), Some("\"60%\"")),
        Some(("55".to_string(), "60".to_string()))
    );
    assert_eq!(click_target(Some(""), Some("60%")), None);
    assert_eq!(click_target(Some("55%"), None), None);
}

#[test]
fn grid_on_nine_hundred_by_six_hundred() {
    let plan = grid_plan(900, 600, 300).unwrap();
    assert_eq!(plan.vertical, vec![300, 600]);
    assert_eq!(plan.horizontal, vec![300]);
    assert_eq!(plan.font_size, 30);
    assert_eq!(plan.label_width, 195);
    assert_eq!(plan.label_height, 36);
    assert_eq!(plan.labels.len(), 2);
    let first = &plan.labels[0][0];
    assert_eq!((first.x, first.y), (300, 300));
    assert_eq!(first.text, "X=33%,Y=50%");
    assert_eq!((first.left, first.top, first.text_top), (203, 282, 286));
    let second = &plan.labels[1][0];
    assert_eq!((second.x, second.y), (600, 300));
    assert_eq!(second.text, "X=67%,Y=50%");
}

#[test]
fn grid_interval_must_be_positive() {
    assert_eq!(grid_plan(900, 600, 0).unwrap_err(), GridError::InvalidGridSpec);
    assert_eq!(grid_plan(900, 600, -5).unwrap_err(), GridError::InvalidGridSpec);
}

#[test]
fn grid_larger_than_image_is_empty() {
    let plan = grid_plan(200, 100, 300).unwrap();
    assert!(plan.vertical.is_empty());
    assert!(plan.horizontal.is_empty());
    assert!(plan.labels.is_empty());
}

#[test]
fn vertical_lines_without_horizontal_ones() {
    let plan = grid_plan(1000, 100, 300).unwrap();
    assert_eq!(plan.vertical, vec![300, 600, 900]);
    assert!(plan.horizontal.is_empty());
    assert!(plan.labels.iter().all(|row| row.is_empty()));
}

#[test]
fn decimal_numerals() {
    assert_eq!(decimal_string(0), "0");
    assert_eq!(decimal_string(7), "7");
    assert_eq!(decimal_string(100), "100");
    assert_eq!(decimal_string(18446744073709551615), "18446744073709551615");
}

#[test]
fn trimming_both_ends() {
    assert_eq!(trim_matches("\"\\ab\\\"c\"", &vec!['"', '\\']), "ab\\\"c");
    assert_eq!(trim_matches("\"\"", &vec!['"']), "");
}

#[test]
fn loop_stops_after_sixteen_actions() {
    let mut state = LoopState::new("never done", 300);
    let mut cycles = 0;
    loop {
        cycles += 1;
        let action = if cycles % 2 == 0 { ActionType::Type } else { ActionType::Click };
        match state.step(action) {
            Step::Dispatch => continue,
            Step::DispatchLast => break,
            other => panic!("unexpected step {:?}", other),
        }
    }
    assert_eq!(cycles, 16);
    assert_eq!(state.loop_count, MAX_LOOPS + 1);
}

#[test]
fn unknown_halts_without_summary() {
    let mut state = LoopState::new("goal", 300);
    assert_eq!(state.step(ActionType::Search), Step::Dispatch);
    assert_eq!(state.step(ActionType::Unknown), Step::Halt);
    assert_eq!(state.loop_count, 1);
}

#[test]
fn done_summarizes() {
    let mut state = LoopState::new("goal", 300);
    assert_eq!(state.step(ActionType::Done), Step::Summarize);
    assert_eq!(state.loop_count, 0);
}

#[test]
fn typing_sends_slash_as_sequence_and_ends_with_return() {
    assert_eq!(
        type_keys("a/b"),
        vec![
            KeyEvent::Click('a'),
            KeyEvent::Sequence('/'),
            KeyEvent::Click('b'),
            KeyEvent::ReturnDown
        ]
    );
    assert_eq!(type_keys(""), vec![KeyEvent::ReturnDown]);
    assert_eq!(type_summary("hi"), "Type: hi");
}

#[test]
fn open_spotify_session() {
    let objective = "Open Spotify";
    let mut state = LoopState::new(objective, 300);
    let reply = clean_reply("\"SEARCH \\\"Spotify\\\"\"");
    let (action, detail) = parse(&reply);
    assert_eq!(action, "SEARCH");
    assert_eq!(detail, "Spotify");
    assert_eq!(state.step(ActionType::from_str(&action)), Step::Dispatch);
    let mut expected = vec![KeyEvent::MetaDown, KeyEvent::Click(' '), KeyEvent::MetaUp, KeyEvent::Pause];
    expected.extend("Spotify".chars().map(KeyEvent::Click));
    expected.push(KeyEvent::ReturnDown);
    assert_eq!(search_keys(&detail), expected);
    assert_eq!(search_summary(&detail), "Open program: Spotify");
    let (action, _) = parse("DONE");
    assert_eq!(state.step(ActionType::from_str(&action)), Step::Summarize);
    let summary = build_summary_message(objective, &vec![1, 2, 3]);
    match summary {
        Message::ImageMessage(m) => match &m.content[0] {
            ImageMessageContent::Text { text } => {
                assert!(text.contains("Original objective: Open Spotify"))
            }
            _ => panic!("the prompt comes first"),
        },
        _ => panic!("the summary turn carries the screenshot"),
    }
}

#[test]
fn prompts_fill_their_templates() {
    let summary = format_summary_prompt("Find a banana");
    assert!(summary.contains("Original objective: Find a banana\n"));
    assert!(!summary.contains("{objective}"));
    let first = format_vision_prompt("Find a banana", "");
    assert!(!first.contains("previous action you took"));
    assert!(!first.contains("{previous_action}"));
    assert!(first.ends_with("Objective: Find a banana\n"));
    let later = format_vision_prompt("Find a banana", "CLICK x");
    assert!(later.contains("Here was the previous action you took: CLICK x"));
}

#[test]
fn last_assistant_message_is_found_from_the_end() {
    let mut messages = initialize_messages("goal");
    assert_eq!(get_last_assistant_message(&mut messages), ASSISTANT_MESSAGE);
    record_exchange(&mut messages, "screenshot.png", "TYPE hi");
    assert_eq!(messages.len(), 4);
    assert_eq!(get_last_assistant_message(&mut messages), "TYPE hi");
    let mut none = vec![text_turn(Role::User, "only user")];
    assert_eq!(get_last_assistant_message(&mut none), "");
}

#[test]
fn conversation_starts_with_greeting_and_objective() {
    let messages = initialize_messages("Open Spotify");
    assert_eq!(messages.len(), 2);
    match (&messages[0], &messages[1]) {
        (Message::TextMessage(a), Message::TextMessage(b)) => {
            assert_eq!(a.role, Role::Assistant);
            assert_eq!(a.content, ASSISTANT_MESSAGE);
            assert_eq!(b.role, Role::User);
            assert_eq!(b.content, "Objective: Open Spotify");
        }
        _ => panic!("both opening turns are text"),
    }
}

#[test]
fn image_is_embedded_as_base64() {
    assert_eq!(image_data_uri(&b"abc".to_vec()), "data:image/jpeg;base64,YWJj");
    assert_eq!(image_data_uri(&vec![0xff, 0x00]), "data:image/jpeg;base64,/wA=");
}

#[test]
fn request_holds_a_snapshot_and_the_new_turn() {
    let mut messages = initialize_messages("goal");
    let turn = build_vision_message("goal", &mut messages, &vec![1, 2]);
    assert_eq!(messages.len(), 2);
    let request = build_request(&messages, turn);
    assert_eq!(request.model, MODEL);
    assert_eq!(request.max_tokens, MAX_TOKENS);
    assert_eq!(request.messages.len(), 3);
    match &request.messages[2] {
        Message::ImageMessage(m) => {
            assert_eq!(m.role, Role::User);
            assert_eq!(m.content.len(), 2);
            match &m.content[1] {
                ImageMessageContent::ImageUrl { image_url } => {
                    assert_eq!(image_url.url, "data:image/jpeg;base64,AQI=")
                }
                _ => panic!("the image comes second"),
            }
        }
        _ => panic!("the new turn carries the screenshot"),
    }
}

#[test]
fn reply_backslashes_are_removed() {
    assert_eq!(clean_reply("\"TYPE \\\"a\\\\b\\\"\""), "\"TYPE \"ab\"\"");
    assert_eq!(clean_reply(""), "");
}
