use cargo_lambda::command::{command_line, CommandError};

#[test]
fn command_line_joins_arguments() {
    assert_eq!(
        command_line("cargo", &vec!["build".to_string(), "--release".to_string()]),
        "cargo build --release"
    );
    assert_eq!(command_line("zig", &vec![]), "zig ");
}

#[test]
fn command_error_report() {
    let e = CommandError {
        command: "cargo build".to_string(),
        stdout: b"out".to_vec(),
        stderr: vec![0xff, b'x'],
        error: Some("exit status: 1".to_string()),
    };
    assert_eq!(e.to_string(), "Command `cargo build` failed: exit status: 1\nout\n\u{fffd}x");
    let quiet = CommandError { command: "zig".to_string(), stdout: vec![], stderr: vec![], error: None };
    assert_eq!(quiet.to_string(), "Command `zig` failed");
}
