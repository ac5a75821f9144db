use sysenix::cli::{cli_command, root_index, CliCommand, CliError};

fn args(items: &[Option<&str>]) -> Vec<Option<String>> {
    items.iter().map(|a| a.map(|s| s.to_string())).collect()
}

#[test]
fn help_is_recognised() {
    assert!(matches!(cli_command(&args(&[Some("--help")])), Ok(CliCommand::Help)));
    assert!(matches!(cli_command(&args(&[Some("-h")])), Ok(CliCommand::Help)));
}

#[test]
fn reason_takes_image_and_instruction() {
    match cli_command(&args(&[Some("reason"), Some("shot.png"), Some("find login")])) {
        Ok(CliCommand::Reason { instruction }) => assert_eq!(instruction, "find login"),
        _ => panic!("expected a reason command"),
    }
    assert!(matches!(
        cli_command(&args(&[Some("reason"), None, None])),
        Err(CliError::NotUtf8)
    ));
}

#[test]
fn single_argument_is_a_request() {
    match cli_command(&args(&[Some("create an apple account")])) {
        Ok(CliCommand::Request { instruction }) => assert_eq!(instruction, "create an apple account"),
        _ => panic!("expected a request"),
    }
    assert!(matches!(cli_command(&args(&[None])), Err(CliError::NotUtf8)));
}

#[test]
fn other_forms_are_usage_errors() {
    assert!(matches!(cli_command(&args(&[])), Err(CliError::Usage)));
    assert!(matches!(cli_command(&args(&[Some("a"), Some("b")])), Err(CliError::Usage)));
    assert!(matches!(
        cli_command(&args(&[Some("explain"), Some("x"), Some("y")])),
        Err(CliError::Usage)
    ));
    assert_eq!(
        CliError::Usage.message(),
        "Usage: sysenix \"<instruction>\"\n       sysenix reason <image> \"<instruction>\""
    );
}

#[test]
fn root_is_first_directory_with_environment() {
    assert_eq!(root_index(&vec![false, false, true, true]), 2);
    assert_eq!(root_index(&vec![true]), 0);
    assert_eq!(root_index(&vec![false, false]), 0);
    assert_eq!(root_index(&vec![]), 0);
}
