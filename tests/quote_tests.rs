use ergonomic_windows::process::{quote_arg, Command, CREATE_NEW_CONSOLE, CREATE_NO_WINDOW};

#[test]
fn test_quote_arg() {
    assert_eq!(quote_arg("simple"), "simple");
    assert_eq!(quote_arg("with space"), "\"with space\"");
    assert_eq!(quote_arg(""), "\"\"");
}

#[test]
fn test_quote_arg_edge_cases() {
    assert_eq!(quote_arg(""), "\"\"");
    assert_eq!(quote_arg("a\tb"), "\"a\tb\"");
    assert_eq!(quote_arg("a\"b"), "\"a\\\"b\"");
    assert_eq!(quote_arg("a\\\"b"), "\"a\\\\\\\"b\"");
    assert_eq!(quote_arg("path\\"), "path\\");
    assert_eq!(quote_arg("path with space\\"), "\"path with space\\\\\"");
    assert_eq!(quote_arg("simple-path.txt"), "simple-path.txt");
}

#[test]
fn quote_keeps_backslashes_not_before_quote() {
    assert_eq!(quote_arg("C:\\Program Files\\x"), "\"C:\\Program Files\\x\"");
    assert_eq!(quote_arg("a b\\\\c"), "\"a b\\\\c\"");
}

#[test]
fn quote_doubles_runs_before_quote_and_end() {
    assert_eq!(quote_arg("a\\\\\"b"), "\"a\\\\\\\\\\\"b\"");
    assert_eq!(quote_arg("x y\\\\"), "\"x y\\\\\\\\\"");
    assert_eq!(quote_arg("\""), "\"\\\"\"");
}

#[test]
fn quote_passes_through_non_ascii() {
    assert_eq!(quote_arg("\u{65E5}\u{672C}"), "\u{65E5}\u{672C}");
    assert_eq!(quote_arg("\u{65E5} \u{672C}"), "\"\u{65E5} \u{672C}\"");
}

#[test]
fn test_command_line_building() {
    let cmd = Command::new("program.exe")
        .arg("arg1")
        .arg("arg with space")
        .arg("arg\"quote");

    let cmd_line = cmd.build_command_line();
    assert!(cmd_line.contains("program.exe"));
    assert!(cmd_line.contains("arg1"));
    assert!(cmd_line.contains("\"arg with space\""));
    assert!(cmd_line.contains("\\\""));
}

#[test]
fn command_line_exact() {
    let cmd = Command::new("C:\\Program Files\\app.exe")
        .args(&["-x", "", "a\\"])
        .arg("q\"");
    assert_eq!(
        cmd.build_command_line(),
        "\"C:\\Program Files\\app.exe\" -x \"\" a\\ \"q\\\"\""
    );
    assert_eq!(Command::new("x").build_command_line(), "x");
}

#[test]
fn command_env_block_layout() {
    assert!(Command::new("x").build_env_block().is_none());
    let cmd = Command::new("x").env("A", "1").env("BC", "\u{1F389}");
    let block = cmd.build_env_block().unwrap();
    assert_eq!(
        block,
        vec![65, 61, 49, 0, 66, 67, 61, 0xD83C, 0xDF89, 0, 0]
    );
}

#[test]
fn command_flags_and_dir() {
    let cmd = Command::new("x").no_window().new_console().current_dir("C:\\work");
    assert_eq!(cmd.creation_flags(), CREATE_NO_WINDOW | CREATE_NEW_CONSOLE);
    assert_eq!(cmd.working_dir(), Some("C:\\work"));
    assert_eq!(Command::new("y").working_dir(), None);
    assert_eq!(Command::new("y").creation_flags(), 0);
}
