use vstd::prelude::*;

verus! {

/// The line written to the error stream for `message`: tagged with the
/// program's name, and coloured cyan where the stream is a terminal.
pub open spec fn log_line_spec(message: Seq<char>, terminal: bool) -> Seq<char> {
    if terminal {
        "\x1b[36m[sysenix] "@ + message + "\x1b[0m"@
    } else {
        "[sysenix] "@ + message
    }
}

/// The log line for `message`.
pub fn log_line(message: &str, terminal: bool) -> (line: String)
    ensures
        line@ == log_line_spec(message@, terminal),
{
    if terminal {
        let mut line = String::from_str("\x1b[36m[sysenix] ");
        line.append(message);
        line.append("\x1b[0m");
        line
    } else {
        let mut line = String::from_str("[sysenix] ");
        line.append(message);
        line
    }
}

} // verus!
