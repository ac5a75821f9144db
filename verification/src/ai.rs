use vstd::prelude::*;

use crate::json::{json_string_literal, parse_json, parsed_json, push_json_string, Json};

verus! {

/// A pixel of the screenshot, counted from its top-left corner, as the
/// grounding model reports it.
pub struct Point {
    pub x: u32,
    pub y: u32,
}

/// What the conversation with the model worker can fail on.
pub enum WorkerError {
    /// The worker closed its output.
    Exited,
    /// The worker's input is closed.
    InputClosed,
    /// A line from the worker is not JSON; the parser's error says why.
    BadReply(serde_json::Error),
    /// The first reply did not say that the worker is ready.
    NotReady,
    /// The worker reported this error.
    Inference(Json),
    /// A reply carried no result.
    MissingResult,
}

impl WorkerError {
    /// The message for errors that carry no value of their own.
    pub open spec fn message_spec(&self) -> Seq<char> {
        match self {
            WorkerError::Exited => "Model worker exited unexpectedly; see its stderr output."@,
            WorkerError::InputClosed => "Model worker input is closed"@,
            WorkerError::BadReply(_) => ""@,
            WorkerError::NotReady => "Model worker did not signal readiness."@,
            WorkerError::Inference(_) => "Model inference failed: "@,
            WorkerError::MissingResult => "Missing model result"@,
        }
    }

    /// The message of the error; for an error that carries a value (the
    /// worker's report, or the parser's error), the text that comes before
    /// that value.
    pub fn message(&self) -> (m: &str)
        ensures
            m@ == self.message_spec(),
    {
        match self {
            WorkerError::Exited => "Model worker exited unexpectedly; see its stderr output.",
            WorkerError::InputClosed => "Model worker input is closed",
            WorkerError::BadReply(_) => "",
            WorkerError::NotReady => "Model worker did not signal readiness.",
            WorkerError::Inference(_) => "Model inference failed: ",
            WorkerError::MissingResult => "Missing model result",
        }
    }
}

/// A reply of the worker is a failure when it has an `error` member, and is
/// passed on whole otherwise.
pub fn check_reply(response: Json) -> (r: Result<Json, WorkerError>)
    ensures
        match response.get_spec("error"@) {
            Some(e) => r == Err::<Json, WorkerError>(WorkerError::Inference(e)),
            None => r == Ok::<Json, WorkerError>(response),
        },
{
    match response.split_member("error") {
        Ok(e) => Err(WorkerError::Inference(e)),
        Err(whole) => Ok(whole),
    }
}

/// The reply the worker sent as the line `line`: a line that is not JSON is
/// refused, and a reply with an `error` member is a failure.
pub fn worker_reply(line: &str) -> (r: Result<Json, WorkerError>)
    ensures
        match parsed_json(line@) {
            None => r matches Err(WorkerError::BadReply(_)),
            Some(response) => match response.get_spec("error"@) {
                Some(e) => r == Err::<Json, WorkerError>(WorkerError::Inference(e)),
                None => r == Ok::<Json, WorkerError>(response),
            },
        },
{
    match parse_json(line) {
        Ok(response) => check_reply(response),
        Err(e) => Err(WorkerError::BadReply(e)),
    }
}

/// The first reply of a starting worker must have `ready` set to `true`.
pub fn check_ready(first: &Json) -> (r: Result<(), WorkerError>)
    ensures
        r is Ok <==> (first.get_spec("ready"@) matches Some(v) && v.is_true_spec()),
        r matches Err(e) ==> e == WorkerError::NotReady,
{
    match first.get("ready") {
        Some(v) => if v.is_true() {
            Ok(())
        } else {
            Err(WorkerError::NotReady)
        },
        None => Err(WorkerError::NotReady),
    }
}

/// Whether the first reply of a starting worker lets it go on: no reported
/// error, and `ready` set to `true`.
pub open spec fn startup_spec(first: Json) -> Result<(), WorkerError> {
    match first.get_spec("error"@) {
        Some(e) => Err(WorkerError::Inference(e)),
        None => if first.get_spec("ready"@) matches Some(v) && v.is_true_spec() {
            Ok(())
        } else {
            Err(WorkerError::NotReady)
        },
    }
}

/// The first reply of a starting worker: a reported error, or else the
/// readiness check.
pub fn check_startup(first: Json) -> (r: Result<(), WorkerError>)
    ensures
        r == startup_spec(first),
{
    match check_reply(first) {
        Ok(reply) => {
            let r = check_ready(&reply);
            assert(reply == first);
            match r {
                Ok(()) => Ok(()),
                Err(_) => Err(WorkerError::NotReady),
            }
        },
        Err(e) => Err(e),
    }
}

/// The first line of a starting worker.
pub fn startup_reply(line: &str) -> (r: Result<(), WorkerError>)
    ensures
        match parsed_json(line@) {
            None => r matches Err(WorkerError::BadReply(_)),
            Some(first) => r == startup_spec(first),
        },
{
    match parse_json(line) {
        Ok(first) => check_startup(first),
        Err(e) => Err(WorkerError::BadReply(e)),
    }
}

/// What an inference reply gives: a reported error, or else its `result`.
pub open spec fn result_spec(response: Json) -> Result<Json, WorkerError> {
    match response.get_spec("error"@) {
        Some(e) => Err(WorkerError::Inference(e)),
        None => match response.get_spec("result"@) {
            Some(v) => Ok(v),
            None => Err(WorkerError::MissingResult),
        },
    }
}

/// The `result` member of an inference reply.
pub fn take_result(response: Json) -> (r: Result<Json, WorkerError>)
    ensures
        r == result_spec(response),
{
    match check_reply(response) {
        Ok(reply) => match reply.into_member("result") {
            Some(v) => Ok(v),
            None => Err(WorkerError::MissingResult),
        },
        Err(e) => Err(e),
    }
}

/// The result in the line that answers an inference request.
pub fn inference_reply(line: &str) -> (r: Result<Json, WorkerError>)
    ensures
        match parsed_json(line@) {
            None => r matches Err(WorkerError::BadReply(_)),
            Some(response) => r == result_spec(response),
        },
{
    match parse_json(line) {
        Ok(response) => take_result(response),
        Err(e) => Err(WorkerError::BadReply(e)),
    }
}

/// The reasoning model's answer in an inference result: `null` means no
/// further target, a string is the target; any other value is given back.
pub fn target_of(result: Json) -> (r: Result<Option<String>, Json>)
    ensures
        match result {
            Json::Null => r == Ok::<Option<String>, Json>(None),
            Json::Str(s) => r == Ok::<Option<String>, Json>(Some(s)),
            _ => r == Err::<Option<String>, Json>(result),
        },
{
    match result {
        Json::Null => Ok(None),
        Json::Str(s) => Ok(Some(s)),
        other => Err(other),
    }
}

/// The line that asks the worker to run `operation` on the screenshot at
/// `image` with `instruction`: a JSON object whose members come in key order.
pub open spec fn request_line_spec(
    operation: Seq<char>,
    image: Seq<char>,
    instruction: Seq<char>,
) -> Seq<char> {
    "{\"image\":"@ + json_string_literal(image) + ",\"instruction\":"@ + json_string_literal(
        instruction,
    ) + ",\"operation\":"@ + json_string_literal(operation) + "}"@
}

/// Where each argument stands in a request line: the image's JSON string right
/// after the opening `{"image":`, then the instruction's after
/// `,"instruction":`, and the line ends with `,"operation":`, the
/// operation's JSON string and the closing `}`.
pub proof fn lemma_request_line_members(
    operation: Seq<char>,
    image: Seq<char>,
    instruction: Seq<char>,
)
    ensures
        ({
            let line = request_line_spec(operation, image, instruction);
            let head = "{\"image\":"@ + json_string_literal(image);
            let tail = ",\"operation\":"@ + json_string_literal(operation) + "}"@;
            let middle = ",\"instruction\":"@ + json_string_literal(instruction);
            &&& line.len() == head.len() + middle.len() + tail.len()
            &&& line.subrange(0, head.len() as int) == head
            &&& line.subrange(head.len() as int, (head.len() + middle.len()) as int) == middle
            &&& line.subrange(line.len() - tail.len(), line.len() as int) == tail
        }),
{
    let line = request_line_spec(operation, image, instruction);
    let head = "{\"image\":"@ + json_string_literal(image);
    let tail = ",\"operation\":"@ + json_string_literal(operation) + "}"@;
    let middle = ",\"instruction\":"@ + json_string_literal(instruction);
    assert(line =~= head + middle + tail);
    assert(line.subrange(0, head.len() as int) =~= head);
    assert(line.subrange(head.len() as int, (head.len() + middle.len()) as int) =~= middle);
    assert(line.subrange(line.len() - tail.len(), line.len() as int) =~= tail);
}

/// The request line for the worker.
pub fn request_line(operation: &str, image: &str, instruction: &str) -> (line: String)
    ensures
        line@ == request_line_spec(operation@, image@, instruction@),
{
    let mut line = String::from_str("{\"image\":");
    push_json_string(&mut line, image);
    line.append(",\"instruction\":");
    push_json_string(&mut line, instruction);
    line.append(",\"operation\":");
    push_json_string(&mut line, operation);
    line.append("}");
    line
}

/// The JSON object that maps each model module to its source, members in key
/// order.
pub open spec fn module_table_spec(reasoning: Seq<char>, grounding: Seq<char>) -> Seq<char> {
    "{\"grounding\":"@ + json_string_literal(grounding) + ",\"reasoning\":"@
        + json_string_literal(reasoning) + "}"@
}

/// The Python program that loads each model module under its own name, in a
/// namespace of its own, and then runs the worker.
pub open spec fn bootstrap_spec(
    reasoning: Seq<char>,
    grounding: Seq<char>,
    worker: Seq<char>,
) -> Seq<char> {
    "import sys, types\nfor name, source in "@ + module_table_spec(reasoning, grounding)
        + ".items():\n module = types.ModuleType(name)\n sys.modules[name] = module\n exec(source, module.__dict__)\nexec("@
        + json_string_literal(worker) + ")\n"@
}

/// Where the sources stand in the bootstrap program: after the fixed opening
/// comes the module table, whose `grounding` member is the grounding source's
/// JSON string and whose `reasoning` member is the reasoning source's, each
/// loaded as a module of that name; the program ends by running the worker
/// source's JSON string with `exec(` and `)`.
pub proof fn lemma_bootstrap_parts(reasoning: Seq<char>, grounding: Seq<char>, worker: Seq<char>)
    ensures
        ({
            let program = bootstrap_spec(reasoning, grounding, worker);
            let head = "import sys, types\nfor name, source in {\"grounding\":"@
                + json_string_literal(grounding) + ",\"reasoning\":"@ + json_string_literal(
                reasoning,
            ) + "}"@;
            let middle = ".items():\n module = types.ModuleType(name)\n sys.modules[name] = module\n exec(source, module.__dict__)\n"@;
            let tail = "exec("@ + json_string_literal(worker) + ")\n"@;
            &&& program.len() == head.len() + middle.len() + tail.len()
            &&& program.subrange(0, head.len() as int) == head
            &&& program.subrange(head.len() as int, (head.len() + middle.len()) as int) == middle
            &&& program.subrange(program.len() - tail.len(), program.len() as int) == tail
        }),
{
    let program = bootstrap_spec(reasoning, grounding, worker);
    let head = "import sys, types\nfor name, source in {\"grounding\":"@ + json_string_literal(
        grounding,
    ) + ",\"reasoning\":"@ + json_string_literal(reasoning) + "}"@;
    let middle = ".items():\n module = types.ModuleType(name)\n sys.modules[name] = module\n exec(source, module.__dict__)\n"@;
    let tail = "exec("@ + json_string_literal(worker) + ")\n"@;
    reveal_strlit("import sys, types\nfor name, source in {\"grounding\":");
    reveal_strlit("import sys, types\nfor name, source in ");
    reveal_strlit("{\"grounding\":");
    reveal_strlit(
        ".items():\n module = types.ModuleType(name)\n sys.modules[name] = module\n exec(source, module.__dict__)\n",
    );
    reveal_strlit(
        ".items():\n module = types.ModuleType(name)\n sys.modules[name] = module\n exec(source, module.__dict__)\nexec(",
    );
    reveal_strlit("exec(");
    assert(program =~= head + middle + tail);
    assert(program.subrange(0, head.len() as int) =~= head);
    assert(program.subrange(head.len() as int, (head.len() + middle.len()) as int) =~= middle);
    assert(program.subrange(program.len() - tail.len(), program.len() as int) =~= tail);
}

/// The worker's bootstrap program from the Python sources of the reasoning
/// module, the grounding module and the worker.
pub fn bootstrap_script(reasoning: &str, grounding: &str, worker: &str) -> (program: String)
    ensures
        program@ == bootstrap_spec(reasoning@, grounding@, worker@),
{
    let mut program = String::from_str("import sys, types\nfor name, source in ");
    program.append("{\"grounding\":");
    push_json_string(&mut program, grounding);
    program.append(",\"reasoning\":");
    push_json_string(&mut program, reasoning);
    program.append("}");
    program.append(
        ".items():\n module = types.ModuleType(name)\n sys.modules[name] = module\n exec(source, module.__dict__)\nexec(",
    );
    push_json_string(&mut program, worker);
    program.append(")\n");
    assert(program@ =~= bootstrap_spec(reasoning@, grounding@, worker@));
    program
}

} // verus!
