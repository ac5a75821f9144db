use vstd::prelude::*;

use crate::text::str_eq;

verus! {

/// What the command line asks of the assistant.
pub enum CliCommand {
    /// Print the usage text.
    Help,
    /// Ask the reasoning model once, about the image that is the second
    /// argument.
    Reason { instruction: String },
    /// Carry out the instruction on the screen.
    Request { instruction: String },
}

/// Why a command line is refused.
pub enum CliError {
    /// The arguments fit no form of the assistant's command line.
    Usage,
    /// The instruction is not valid UTF-8.
    NotUtf8,
}

impl CliError {
    pub open spec fn message_spec(&self) -> Seq<char> {
        match self {
            CliError::Usage =>
                "Usage: sysenix \"<instruction>\"\n       sysenix reason <image> \"<instruction>\""@,
            CliError::NotUtf8 => "Instruction must be valid UTF-8"@,
        }
    }

    /// The message shown for the error; for the usage error it is also the
    /// help text.
    pub fn message(&self) -> (m: &str)
        ensures
            m@ == self.message_spec(),
    {
        match self {
            CliError::Usage =>
                "Usage: sysenix \"<instruction>\"\n       sysenix reason <image> \"<instruction>\"",
            CliError::NotUtf8 => "Instruction must be valid UTF-8",
        }
    }
}

/// Whether an argument (`None` where it is not valid UTF-8) is the text `word`.
pub open spec fn arg_is(arg: Option<String>, word: Seq<char>) -> bool {
    arg matches Some(s) && s@ == word
}

/// Whether the arguments ask for help: a single `--help` or `-h`.
pub open spec fn asks_help(args: Seq<Option<String>>) -> bool {
    args.len() == 1 && (arg_is(args[0], "--help"@) || arg_is(args[0], "-h"@))
}

/// The assistant's reading of its arguments (program name left out, `None`
/// where an argument is not valid UTF-8).
pub open spec fn cli_command_spec(args: Seq<Option<String>>) -> Result<CliCommand, CliError> {
    if asks_help(args) {
        Ok(CliCommand::Help)
    } else if args.len() == 3 && arg_is(args[0], "reason"@) {
        match args[2] {
            Some(s) => Ok(CliCommand::Reason { instruction: s }),
            None => Err(CliError::NotUtf8),
        }
    } else if args.len() != 1 {
        Err(CliError::Usage)
    } else {
        match args[0] {
            Some(s) => Ok(CliCommand::Request { instruction: s }),
            None => Err(CliError::NotUtf8),
        }
    }
}

fn is_word(arg: &Option<String>, word: &str) -> (b: bool)
    ensures
        b == arg_is(*arg, word@),
{
    match arg {
        Some(s) => str_eq(s.as_str(), word),
        None => false,
    }
}

fn copy_arg(arg: &Option<String>) -> (r: Option<String>)
    ensures
        r == *arg,
{
    match arg {
        Some(s) => Some(s.clone()),
        None => None,
    }
}

/// Reads the assistant's command line.
pub fn cli_command(args: &Vec<Option<String>>) -> (r: Result<CliCommand, CliError>)
    ensures
        r == cli_command_spec(args@),
{
    if args.len() == 1 && (is_word(&args[0], "--help") || is_word(&args[0], "-h")) {
        return Ok(CliCommand::Help);
    }
    if args.len() == 3 && is_word(&args[0], "reason") {
        return match copy_arg(&args[2]) {
            Some(s) => Ok(CliCommand::Reason { instruction: s }),
            None => Err(CliError::NotUtf8),
        };
    }
    if args.len() != 1 {
        return Err(CliError::Usage);
    }
    match copy_arg(&args[0]) {
        Some(s) => Ok(CliCommand::Request { instruction: s }),
        None => Err(CliError::NotUtf8),
    }
}

/// The index of the first directory that holds the Python environment, or 0.
pub fn root_index(has_environment: &Vec<bool>) -> (i: usize)
    ensures
        has_environment@.len() == 0 ==> i == 0,
        has_environment@.len() > 0 ==> i < has_environment@.len(),
        has_environment@.contains(true) ==> has_environment@[i as int] && forall|j: int|
            0 <= j < i ==> !has_environment@[j],
        !has_environment@.contains(true) ==> i == 0,
{
    let n = has_environment.len();
    let mut i: usize = 0;
    while i < n
        invariant
            n == has_environment@.len(),
            i <= n,
            forall|j: int| 0 <= j < i ==> !has_environment@[j],
        decreases n - i,
    {
        if has_environment[i] {
            return i;
        }
        i = i + 1;
    }
    proof {
        if has_environment@.contains(true) {
            let k = choose|k: int| 0 <= k < n && has_environment@[k] == true;
            assert(!has_environment@[k]);
        }
    }
    0
}

} // verus!
