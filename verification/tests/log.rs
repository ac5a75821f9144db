use sysenix::log::log_line;

#[test]
fn log_line_is_tagged_and_coloured_on_terminals() {
    assert_eq!(log_line("Models ready.", false), "[sysenix] Models ready.");
    assert_eq!(log_line("Models ready.", true), "\x1b[36m[sysenix] Models ready.\x1b[0m");
    assert_eq!(log_line("", false), "[sysenix] ");
}
