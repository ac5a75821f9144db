use sysenix::chat::{chat_request_body, escape_prompt, reply_content, reply_text};
use sysenix::json::Json;

fn object(members: Vec<(&str, Json)>) -> Json {
    Json::Object(members.into_iter().map(|(k, v)| (k.to_string(), v)).collect())
}

#[test]
fn prompt_quotes_and_newlines_are_escaped() {
    let prompt = "say \"yes\"\nthen \\ stop";
    assert_eq!(escape_prompt(prompt), prompt.replace('"', "\\\"").replace('\n', "\\n"));
    assert_eq!(escape_prompt(""), "");
}

#[test]
fn request_body_matches_chat_format() {
    let prompt = "find \"OK\"\nnow";
    let image = "iVBORw==";
    let messages = format!(
        r#"{{"role":"user","content":[{{"type":"text","text":"{}"}},{{"type":"image_url","image_url":{{"url":"data:image/png;base64,{}"}}}}]}}"#,
        prompt.replace('"', "\\\"").replace('\n', "\\n"),
        image
    );
    let body = format!(r#"{{"model":"os-atlas","messages":[{}],"max_tokens":128}}"#, messages);
    assert_eq!(chat_request_body(prompt, image), body);
}

#[test]
fn reply_content_follows_first_choice() {
    let reply = object(vec![(
        "choices",
        Json::Array(vec![object(vec![(
            "message",
            object(vec![("content", Json::Str("click(10, 20)".to_string()))]),
        )])]),
    )]);
    assert_eq!(reply_content(&reply), "click(10, 20)");
}

#[test]
fn reply_content_is_empty_when_missing() {
    assert_eq!(reply_content(&Json::Null), "");
    assert_eq!(reply_content(&object(vec![("choices", Json::Array(vec![]))])), "");
    let numeric = object(vec![(
        "choices",
        Json::Array(vec![object(vec![(
            "message",
            object(vec![("content", Json::Number("5".to_string()))]),
        )])]),
    )]);
    assert_eq!(reply_content(&numeric), "");
}

#[test]
fn reply_text_reads_the_raw_reply() {
    let raw = r#"{"choices":[{"message":{"role":"assistant","content":"click the button"}}]}"#;
    assert_eq!(reply_text(raw), "click the button");
    assert_eq!(reply_text("<html>502</html>"), "");
    assert_eq!(reply_text(r#"{"choices":[]}"#), "");
}
