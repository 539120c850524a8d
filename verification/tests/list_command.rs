use nextest_core::list_command::{
    check_output, CommandError, CommandLine, CommandOutput, ListCommand, DEFAULT_CARGO,
};

fn words(args: &[&str]) -> Vec<String> {
    args.iter().map(|arg| arg.to_string()).collect()
}

#[test]
fn a_bare_command_lists_as_json() {
    let line = ListCommand::new().cargo_command(None);
    assert_eq!(
        line,
        CommandLine {
            program: String::from("cargo"),
            args: words(&["nextest", "list", "--format=json"]),
            current_dir: None,
        }
    );
    assert_eq!(DEFAULT_CARGO, "cargo");
}

#[test]
fn the_environment_names_cargo_unless_a_path_is_set() {
    let mut command = ListCommand::new();
    assert_eq!(
        command
            .cargo_command(Some(String::from("/opt/cargo")))
            .program,
        "/opt/cargo"
    );
    command.cargo_path(String::from("/usr/local/bin/cargo"));
    assert_eq!(
        command
            .cargo_command(Some(String::from("/opt/cargo")))
            .program,
        "/usr/local/bin/cargo"
    );
    assert_eq!(command.cargo_command(None).program, "/usr/local/bin/cargo");
}

#[test]
fn the_manifest_comes_before_the_subcommand() {
    let mut command = ListCommand::new();
    command
        .manifest_path(String::from("crates/a/Cargo.toml"))
        .current_dir(String::from("/work"))
        .add_arg(String::from("--workspace"))
        .add_args(words(&["--profile", "ci"]))
        .add_arg(String::from("--no-default-features"));
    let line = command.cargo_command(None);
    assert_eq!(
        line.args,
        words(&[
            "--manifest-path",
            "crates/a/Cargo.toml",
            "nextest",
            "list",
            "--format=json",
            "--workspace",
            "--profile",
            "ci",
            "--no-default-features",
        ])
    );
    assert_eq!(line.current_dir, Some(String::from("/work")));
}

#[test]
fn a_later_path_replaces_an_earlier_one() {
    let mut command = ListCommand::new();
    command
        .manifest_path(String::from("a/Cargo.toml"))
        .manifest_path(String::from("b/Cargo.toml"));
    assert_eq!(
        command.cargo_command(None).args,
        words(&[
            "--manifest-path",
            "b/Cargo.toml",
            "nextest",
            "list",
            "--format=json"
        ])
    );
}

#[test]
fn binaries_only_adds_one_argument() {
    let mut command = ListCommand::new();
    command.add_arg(String::from("--release"));
    let line = command.cargo_command_binaries_only(None);
    assert_eq!(
        line.args,
        words(&[
            "nextest",
            "list",
            "--format=json",
            "--release",
            "--list-type=binaries-only"
        ])
    );
    assert_eq!(line.program, "cargo");
}

#[test]
fn a_successful_command_hands_over_its_output() {
    let output = CommandOutput {
        success: true,
        exit_code: Some(0),
        stdout: b"{}".to_vec(),
        stderr: b"warning".to_vec(),
    };
    assert_eq!(check_output(output), Ok(b"{}".to_vec()));
}

#[test]
fn a_failed_command_hands_over_code_and_errors() {
    let output = CommandOutput {
        success: false,
        exit_code: Some(101),
        stdout: b"half".to_vec(),
        stderr: b"error: no such package".to_vec(),
    };
    assert_eq!(
        check_output(output),
        Err(CommandError::CommandFailed {
            exit_code: Some(101),
            stderr: b"error: no such package".to_vec(),
        })
    );
    let killed = CommandOutput {
        success: false,
        exit_code: None,
        stdout: Vec::new(),
        stderr: Vec::new(),
    };
    assert_eq!(
        check_output(killed),
        Err(CommandError::CommandFailed {
            exit_code: None,
            stderr: Vec::new(),
        })
    );
}
