use sysenix::ai::{
    bootstrap_script, check_ready, check_reply, check_startup, inference_reply, request_line,
    startup_reply, take_result, target_of, worker_reply, WorkerError,
};
use sysenix::json::Json;

fn object(members: Vec<(&str, Json)>) -> Json {
    Json::Object(members.into_iter().map(|(k, v)| (k.to_string(), v)).collect())
}

fn object_text(members: &[(&str, &str)]) -> String {
    let mut map = serde_json::Map::new();
    for (k, v) in members {
        map.insert(k.to_string(), serde_json::Value::String(v.to_string()));
    }
    serde_json::Value::Object(map).to_string()
}

fn text(s: &str) -> Json {
    Json::Str(s.to_string())
}

#[test]
fn reply_with_error_is_a_failure() {
    let reply = object(vec![("error", text("out of memory"))]);
    match check_reply(reply) {
        Err(WorkerError::Inference(Json::Str(e))) => assert_eq!(e, "out of memory"),
        _ => panic!("expected an inference error"),
    }
    assert_eq!(WorkerError::Exited.message(), "Model worker exited unexpectedly; see its stderr output.");
}

#[test]
fn reply_without_error_passes() {
    let reply = object(vec![("result", Json::Null)]);
    assert!(matches!(check_reply(reply), Ok(Json::Object(_))));
    assert!(matches!(check_reply(Json::Array(vec![])), Ok(Json::Array(_))));
}

#[test]
fn readiness_needs_true() {
    assert!(check_ready(&object(vec![("ready", Json::Bool(true))])).is_ok());
    assert!(matches!(
        check_ready(&object(vec![("ready", Json::Bool(false))])),
        Err(WorkerError::NotReady)
    ));
    assert!(matches!(check_ready(&object(vec![("ready", text("true"))])), Err(WorkerError::NotReady)));
    assert!(matches!(check_ready(&Json::Null), Err(WorkerError::NotReady)));
    assert!(matches!(
        check_startup(object(vec![("error", Json::Null), ("ready", Json::Bool(true))])),
        Err(WorkerError::Inference(Json::Null))
    ));
    assert!(check_startup(object(vec![("ready", Json::Bool(true))])).is_ok());
}

#[test]
fn result_is_taken_from_reply() {
    let reply = object(vec![("result", object(vec![("x", Json::Number("3".to_string()))]))]);
    match take_result(reply) {
        Ok(Json::Object(fields)) => assert_eq!(fields[0].0, "x"),
        _ => panic!("expected the result object"),
    }
    assert!(matches!(take_result(object(vec![])), Err(WorkerError::MissingResult)));
    assert!(matches!(take_result(text("result")), Err(WorkerError::MissingResult)));
}

#[test]
fn worker_lines_are_parsed() {
    assert!(startup_reply("{\"ready\": true}\n").is_ok());
    assert!(matches!(startup_reply("{\"ready\": 1}\n"), Err(WorkerError::NotReady)));
    assert!(matches!(startup_reply("not json\n"), Err(WorkerError::BadReply(_))));
    assert!(matches!(
        startup_reply("{\"error\": \"no model\", \"ready\": true}"),
        Err(WorkerError::Inference(Json::Str(_)))
    ));
    match inference_reply("{\"result\": {\"x\": 12, \"y\": 34}}") {
        Ok(Json::Object(fields)) => {
            assert_eq!(fields[0].0, "x");
            assert!(matches!(&fields[0].1, Json::Number(n) if n == "12"));
            assert!(matches!(&fields[1].1, Json::Number(n) if n == "34"));
        }
        _ => panic!("expected the result object"),
    }
    assert!(matches!(inference_reply("{\"result\": null}"), Ok(Json::Null)));
    assert!(matches!(inference_reply("{}"), Err(WorkerError::MissingResult)));
    assert!(matches!(inference_reply(""), Err(WorkerError::BadReply(_))));
    assert!(matches!(worker_reply("[1, \"a\"]"), Ok(Json::Array(_))));
}

#[test]
fn request_line_matches_serde_json() {
    let line = request_line("ground", "/tmp/screen \"1\".png", "the OK button\n");
    let expected = object_text(&[
        ("operation", "ground"),
        ("image", "/tmp/screen \"1\".png"),
        ("instruction", "the OK button\n"),
    ]);
    assert_eq!(line, expected);
}

#[test]
fn bootstrap_quotes_the_sources() {
    let reasoning = "def reason():\n    return \"x\"";
    let grounding = "path = 'C:\\\\models'\t# tab";
    let worker = "print(\"hi\")\nrun()";
    let program = bootstrap_script(reasoning, grounding, worker);
    let modules = object_text(&[("reasoning", reasoning), ("grounding", grounding)]);
    let worker_json = serde_json::to_string(worker).unwrap();
    assert_eq!(worker_json, "\"print(\\\"hi\\\")\\nrun()\"");
    assert_eq!(
        program,
        format!(
            "import sys, types\nfor name, source in {modules}.items():\n module = types.ModuleType(name)\n sys.modules[name] = module\n exec(source, module.__dict__)\nexec({worker_json})\n"
        )
    );
}

#[test]
fn bad_line_keeps_the_parser_message() {
    let expected = serde_json::from_str::<serde_json::Value>("not json").unwrap_err().to_string();
    match worker_reply("not json") {
        Err(WorkerError::BadReply(e)) => assert_eq!(e.to_string(), expected),
        _ => panic!("expected a parse error"),
    }
}

#[test]
fn target_is_null_or_a_string() {
    assert!(matches!(target_of(Json::Null), Ok(None)));
    assert!(matches!(target_of(text("Sign In")), Ok(Some(t)) if t == "Sign In"));
    assert!(matches!(target_of(Json::Number("5".to_string())), Err(Json::Number(_))));
    assert!(matches!(target_of(Json::Bool(false)), Err(Json::Bool(false))));
}
