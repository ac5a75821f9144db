use sysenix::prompt::system;

fn expected(user_request: &str) -> String {
    format!(
        r#"You are a UI grounding model.
Given this screenshot, locate the UI element matching this instruction:
"{}"

Return only valid JSON with this exact shape:
{{"action":"click","x":number,"y":number,"confidence":number}}

Rules:
- Coordinates must be image pixel coordinates from the top-left corner.
- Click the center of the target, not an edge or label.
- Do not include markdown, explanation, or extra text."#,
        user_request
    )
}

#[test]
fn prompt_quotes_the_request() {
    assert_eq!(system("the blue Sign In button"), expected("the blue Sign In button"));
    assert_eq!(system(""), expected(""));
    assert_eq!(system("say \"hi\"\nnow"), expected("say \"hi\"\nnow"));
}

#[test]
fn prompt_contains_the_request_verbatim() {
    let p = system("Create Apple Account");
    assert!(p.contains("\n\"Create Apple Account\"\n"));
    assert!(p.starts_with("You are a UI grounding model.\n"));
}
