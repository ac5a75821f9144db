use sysenix::json::{parse_json, push_json_string, Json};

#[test]
fn json_string_literal_agrees_with_serde_json() {
    let mut cases: Vec<String> = vec![
        String::new(),
        "plain".to_string(),
        "quote \" and backslash \\".to_string(),
        "\u{8}\t\n\u{c}\r".to_string(),
        "\u{0}\u{1}\u{1f}\u{7f}".to_string(),
        "é — 漢字 😀".to_string(),
        "slash / stays".to_string(),
    ];
    cases.push((0u32..0x80).filter_map(char::from_u32).collect());
    for case in cases {
        let mut out = String::from(">");
        push_json_string(&mut out, &case);
        assert_eq!(out, format!(">{}", serde_json::to_string(&case).unwrap()));
    }
}

#[test]
fn control_characters_use_lowercase_hex() {
    let mut out = String::new();
    push_json_string(&mut out, "\u{1b}");
    assert_eq!(out, "\"\\u001b\"");
}

#[test]
fn parse_reads_all_json_forms() {
    match parse_json("{\"a\": [null, true, 1.5, \"s\"], \"b\": {}}") {
        Ok(Json::Object(fields)) => {
            assert_eq!(fields.len(), 2);
            assert_eq!(fields[0].0, "a");
            match &fields[0].1 {
                Json::Array(items) => {
                    assert!(matches!(items[0], Json::Null));
                    assert!(matches!(items[1], Json::Bool(true)));
                    assert!(matches!(&items[2], Json::Number(n) if n == "1.5"));
                    assert!(matches!(&items[3], Json::Str(s) if s == "s"));
                }
                _ => panic!("expected an array"),
            }
            assert!(matches!(&fields[1].1, Json::Object(m) if m.is_empty()));
        }
        _ => panic!("expected an object"),
    }
    assert!(parse_json("{").is_err());
    assert!(parse_json("").is_err());
}
