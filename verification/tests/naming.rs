use fun_run::display;
use fun_run::display_out_or_empty;
use fun_run::display_with_env_keys;
use fun_run::nonzero_captured;
use fun_run::nonzero_streamed;
use fun_run::on_system_error;
use fun_run::CmdError;
use fun_run::CommandWithName;
use fun_run::ExitStatus;
use fun_run::IoError;
use fun_run::NamedCommand;
use fun_run::NamedOutput;
use fun_run::Output;
use fun_run::ProcessSpec;

fn bundle_install() -> ProcessSpec {
    let mut cmd = ProcessSpec::new("bundle");
    cmd.arg("install");
    cmd
}

fn plain_output(status: ExitStatus, stdout: &[u8], stderr: &[u8]) -> Output {
    Output {
        status,
        stdout: stdout.to_vec(),
        stderr: stderr.to_vec(),
    }
}

#[test]
fn display_joins_program_and_args() {
    assert_eq!(display(&bundle_install()), "bundle install".to_string());
}

#[test]
fn display_of_a_bare_program_is_its_name() {
    assert_eq!(display(&ProcessSpec::new("bundle")), "bundle".to_string());
}

#[test]
fn display_keeps_empty_arguments() {
    let mut cmd = ProcessSpec::new("bundle");
    cmd.arg("");
    assert_eq!(display(&cmd), "bundle ".to_string());
}

#[test]
fn display_quotes_arguments_that_need_it() {
    let mut cmd = ProcessSpec::new("bash");
    cmd.arg("-c");
    cmd.arg("echo -n 'hello world' && exit 1");
    assert_eq!(
        display(&cmd),
        "bash -c \"echo -n 'hello world' && exit 1\"".to_string()
    );
}

#[test]
fn display_with_env_keys_shows_chosen_values() {
    let env = vec![
        ("HOME".to_string(), "/root".to_string()),
        ("RAILS_ENV".to_string(), "production".to_string()),
    ];
    let keys = vec!["RAILS_ENV".to_string()];
    assert_eq!(
        display_with_env_keys(&bundle_install(), &env, &keys),
        "RAILS_ENV=\"production\" bundle install".to_string()
    );
}

#[test]
fn display_with_env_keys_renders_missing_keys_empty() {
    let env: Vec<(String, String)> = Vec::new();
    let keys = vec!["GEM_HOME".to_string()];
    assert_eq!(
        display_with_env_keys(&bundle_install(), &env, &keys),
        "GEM_HOME=\"\" bundle install".to_string()
    );
}

#[test]
fn display_with_env_keys_takes_the_latest_duplicate() {
    let env = vec![
        ("K".to_string(), "old".to_string()),
        ("K".to_string(), "new".to_string()),
    ];
    let keys = vec!["K".to_string()];
    assert_eq!(
        display_with_env_keys(&bundle_install(), &env, &keys),
        "K=\"new\" bundle install".to_string()
    );
}

#[test]
fn named_overrides_the_derived_name() {
    let mut cmd = ProcessSpec::new("gem");
    cmd.args(&["install", "bundler", "-v", "2.4.1.7"]);
    let named = cmd.named("gem install");
    assert_eq!(named.name(), "gem install".to_string());
    assert_eq!(named.command.args.len(), 4);
}

#[test]
fn named_fn_derives_the_name_from_the_command() {
    let mut cmd = ProcessSpec::new("bundle");
    cmd.arg("install");
    let named = cmd.named_fn(|c| {
        let mut n = display(c);
        n.push_str(" (quietly)");
        n
    });
    assert_eq!(named.name(), "bundle install (quietly)".to_string());
}

#[test]
fn named_command_keeps_its_short_name() {
    let mut cmd = ProcessSpec::new("go");
    cmd.args(&["list", "-tags", "heroku"]);
    let mut short = NamedCommand::from(cmd);
    short.mut_cmd().args(&["-f", "./..."]);
    assert_eq!(short.name(), "go list -tags heroku".to_string());
    assert_eq!(short.command.args.len(), 5);
    assert_eq!(short.command.program, "go".to_string());
}

#[test]
fn named_output_decides_from_the_outcome() {
    let cmd = bundle_install();

    let ok = cmd.named_output(Ok(plain_output(ExitStatus::Exited(0), b"done", b"")));
    let named = ok.unwrap();
    assert_eq!(named.name(), "bundle install".to_string());
    assert_eq!(named.stdout(), &b"done".to_vec());

    let nonzero = cmd.named_output(Ok(plain_output(ExitStatus::Exited(1), b"", b"boom")));
    match nonzero {
        Err(CmdError::NonZeroExitNotStreamed(no)) => {
            assert_eq!(no.name(), "bundle install".to_string());
            assert_eq!(no.stderr(), &b"boom".to_vec());
        }
        other => panic!("expected a non-zero exit error, got {other:?}"),
    }

    let spawn_failed = cmd.named_output(Err(IoError {
        raw_os: Some(2),
        message: "No such file or directory".to_string(),
    }));
    match spawn_failed {
        Err(CmdError::SystemError(name, io)) => {
            assert_eq!(name, "bundle install".to_string());
            assert_eq!(io.raw_os, Some(2));
        }
        other => panic!("expected a system error, got {other:?}"),
    }
}

#[test]
fn stream_output_hides_what_was_already_seen() {
    let cmd = bundle_install();
    let nonzero = cmd.stream_output(Ok(plain_output(ExitStatus::Exited(1), b"seen", b"")));
    match nonzero {
        Err(e @ CmdError::NonZeroExitAlreadyStreamed(_)) => {
            let text = e.message();
            assert!(text.contains("stdout: <see above>"));
            assert!(text.contains("stderr: <see above>"));
        }
        other => panic!("expected an already-streamed error, got {other:?}"),
    }
}

#[test]
fn nonzero_captured_renders_the_output() {
    let mut cmd = ProcessSpec::new("bash");
    cmd.arg("-c");
    cmd.arg("echo -n 'hello world' && exit 1");
    let name = display(&cmd);
    let out = plain_output(ExitStatus::Exited(1), b"hello world", b"");

    let err = nonzero_captured(name, out).unwrap_err();
    assert_eq!(
        err.message(),
        "Command failed `bash -c \"echo -n 'hello world' && exit 1\"`\n\
         exit status: 1\n\
         stdout: hello world\n\
         stderr: <empty>"
            .to_string()
    );
    assert_eq!(err.status(), ExitStatus::Exited(1));
}

#[test]
fn nonzero_streamed_keeps_success() {
    let ok = nonzero_streamed(
        "echo".to_string(),
        plain_output(ExitStatus::Exited(0), b"hi", b""),
    );
    assert!(ok.is_ok());
}

#[test]
fn system_error_message_names_the_command() {
    let err = on_system_error(
        "becho hello world".to_string(),
        IoError {
            raw_os: Some(2),
            message: "No such file or directory".to_string(),
        },
    );
    assert_eq!(
        err.message(),
        "Could not run command `becho hello world`. No such file or directory".to_string()
    );
    assert_eq!(err.name(), "becho hello world".to_string());
    assert_eq!(err.status(), ExitStatus::Exited(2));
}

#[test]
fn error_status_defaults_when_the_os_gave_no_code() {
    let err = on_system_error(
        "x".to_string(),
        IoError {
            raw_os: None,
            message: "mystery".to_string(),
        },
    );
    assert_eq!(err.status(), ExitStatus::Exited(-1));
}

#[test]
fn message_renders_negative_codes_and_signals() {
    let err = nonzero_captured(
        "x".to_string(),
        plain_output(ExitStatus::Exited(-42), b"", b""),
    )
    .unwrap_err();
    assert!(err.message().contains("exit status: -42"));

    let err = nonzero_captured(
        "x".to_string(),
        plain_output(ExitStatus::Signaled(9), b"", b""),
    )
    .unwrap_err();
    // A signal leaves no exit code, so the message shows the default one.
    assert!(err.message().contains("exit status: 1"));
}

#[test]
fn named_output_getters_expose_the_run() {
    let no = nonzero_captured(
        "tool".to_string(),
        plain_output(ExitStatus::Exited(0), b"out", b"err"),
    )
    .unwrap();
    assert_eq!(no.name(), "tool".to_string());
    assert_eq!(no.status(), &ExitStatus::Exited(0));
    assert_eq!(no.stdout(), &b"out".to_vec());
    assert_eq!(no.stderr(), &b"err".to_vec());
    assert_eq!(no.stdout_lossy(), "out".to_string());
    assert_eq!(no.stderr_lossy(), "err".to_string());
    assert_eq!(no.output().stdout, b"out".to_vec());
}

#[test]
fn lossy_decoding_replaces_invalid_bytes() {
    let no = nonzero_captured(
        "tool".to_string(),
        plain_output(ExitStatus::Exited(0), &[0xFF, b'a'], b""),
    )
    .unwrap();
    assert_eq!(no.stdout_lossy(), "\u{FFFD}a".to_string());
}

#[test]
fn named_output_from_error_keeps_diagnostics() {
    let err = on_system_error(
        "becho".to_string(),
        IoError {
            raw_os: Some(2),
            message: "No such file or directory".to_string(),
        },
    );
    let no = NamedOutput::from(err);
    assert_eq!(no.name(), "becho".to_string());
    assert_eq!(no.stdout(), &Vec::<u8>::new());
    assert_eq!(no.stderr_lossy(), "No such file or directory".to_string());
    assert_eq!(no.status(), &ExitStatus::Exited(2));

    let err = nonzero_captured(
        "tool".to_string(),
        plain_output(ExitStatus::Exited(3), b"kept", b""),
    )
    .unwrap_err();
    let no = NamedOutput::from(err);
    assert_eq!(no.stdout(), &b"kept".to_vec());
    assert_eq!(no.status(), &ExitStatus::Exited(3));
}

#[test]
fn output_from_named_output_strips_the_name() {
    let no = nonzero_captured(
        "tool".to_string(),
        plain_output(ExitStatus::Exited(0), b"out", b""),
    )
    .unwrap();
    let output = Output::from(no);
    assert_eq!(output.stdout, b"out".to_vec());
}

#[test]
fn display_out_or_empty_stands_in_for_blank_output() {
    assert_eq!(display_out_or_empty(b""), "<empty>".to_string());
    assert_eq!(display_out_or_empty(b" \t\n "), "<empty>".to_string());
    assert_eq!(display_out_or_empty(b"hi"), "hi".to_string());
}

#[test]
fn map_which_problem_annotates_system_errors() {
    let err = on_system_error(
        "zuby".to_string(),
        IoError {
            raw_os: Some(2),
            message: "No such file or directory".to_string(),
        },
    );
    let cmd = ProcessSpec::new("zuby");
    let annotated = fun_run::map_which_problem(err, &cmd, None);
    match annotated {
        CmdError::SystemError(name, io) => {
            assert_eq!(name, "zuby".to_string());
            assert!(io
                .message
                .starts_with("No such file or directory\n"));
            assert!(io.message.contains("diagnostic information"));
            assert_eq!(io.raw_os, None);
        }
        other => panic!("expected a system error, got {other:?}"),
    }
}

#[test]
fn map_which_problem_leaves_other_errors_alone() {
    let err = nonzero_captured(
        "tool".to_string(),
        plain_output(ExitStatus::Exited(1), b"", b""),
    )
    .unwrap_err();
    let cmd = ProcessSpec::new("tool");
    let mapped = fun_run::map_which_problem(err, &cmd, None);
    assert!(matches!(mapped, CmdError::NonZeroExitNotStreamed(_)));
}

#[test]
fn annotate_io_error_appends_on_the_next_line() {
    let annotated = fun_run::annotate_io_error(
        IoError {
            raw_os: Some(13),
            message: "Permission denied".to_string(),
        },
        "check the file mode".to_string(),
    );
    assert_eq!(annotated.raw_os, None);
    assert_eq!(
        annotated.message,
        "Permission denied\ncheck the file mode".to_string()
    );
}
