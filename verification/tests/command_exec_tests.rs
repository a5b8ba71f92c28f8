use openbas_implant::error::Error;
use openbas_implant::process::command_exec::{
    classify, command_execution, decode_command, decode_output, encode_command, format_command,
    format_powershell_command, format_windows_command, get_executor, get_psh_arg, invoke_command,
    manage_result, prepare_command, ExecutionStatus, Platform, ProcessOutput, RunOutcome, Shell,
    SpawnOutcome,
};
use openbas_implant::process::file_exec::{file_execution, file_invocation};

#[test]
fn test_decode_output_with_hello() {
    let output = vec![72, 101, 108, 108, 111];
    let decoded_output = decode_output(&output);
    assert_eq!(decoded_output, "Hello");
}

#[test]
fn test_decode_output_with_special_character() {
    let output = vec![195, 169, 195, 160, 195, 168];
    let decoded_output = decode_output(&output);
    assert_eq!(decoded_output, "éàè");
}

#[test]
fn test_decode_output_with_wrong_character() {
    // the byte 130 is no UTF-8 on its own: decoding must not fail on it,
    // and puts the replacement character in its place
    let output = vec![72, 101, 108, 108, 111, 130];
    let decoded_output = decode_output(&output);
    assert_eq!(decoded_output, "Hello�");
}

#[test]
fn decode_output_of_nothing_is_empty() {
    assert_eq!(decode_output(&[]), "");
}

#[test]
fn classification_follows_the_table() {
    assert_eq!(classify(0, "", false), ExecutionStatus::Success);
    assert_eq!(classify(0, "", true), ExecutionStatus::Success);
    assert_eq!(classify(0, "noise", false), ExecutionStatus::Warning);
    assert_eq!(classify(0, "noise", true), ExecutionStatus::Warning);
    assert_eq!(classify(1, "", true), ExecutionStatus::Success);
    assert_eq!(classify(1, "already there", true), ExecutionStatus::Success);
    assert_eq!(classify(1, "", false), ExecutionStatus::MaybePrevented);
    assert_eq!(classify(127, "", false), ExecutionStatus::CommandNotFound);
    assert_eq!(classify(127, "sh: 1: nope: not found", true), ExecutionStatus::CommandNotFound);
    assert_eq!(classify(126, "", false), ExecutionStatus::CommandCannotBeExecuted);
    assert_eq!(classify(-99, "", false), ExecutionStatus::Error);
    assert_eq!(classify(2, "", false), ExecutionStatus::MaybePrevented);
    assert_eq!(classify(2, "", true), ExecutionStatus::MaybePrevented);
    assert_eq!(classify(-1, "x", false), ExecutionStatus::MaybePrevented);
    assert_eq!(classify(255, "", false), ExecutionStatus::MaybePrevented);
}

#[test]
fn status_labels_are_those_of_the_controller() {
    assert_eq!(ExecutionStatus::Success.label(), "SUCCESS");
    assert_eq!(ExecutionStatus::Warning.label(), "WARNING");
    assert_eq!(ExecutionStatus::Error.label(), "ERROR");
    assert_eq!(ExecutionStatus::MaybePrevented.label(), "MAYBE_PREVENTED");
    assert_eq!(ExecutionStatus::CommandNotFound.label(), "COMMAND_NOT_FOUND");
    assert_eq!(ExecutionStatus::CommandCannotBeExecuted.label(), "COMMAND_CANNOT_BE_EXECUTED");
    assert_eq!(ExecutionStatus::Info.label(), "INFO");
}

#[test]
fn decode_command_reads_base64() {
    assert_eq!(decode_command("ZWNobyBoaQ==").unwrap(), "echo hi");
    assert_eq!(decode_command("").unwrap(), "");
    assert_eq!(decode_command("bHMgLWwKcHdk").unwrap(), "ls -l\npwd");
}

#[test]
fn encode_command_writes_base64() {
    assert_eq!(encode_command("echo hi"), "ZWNobyBoaQ==");
    assert_eq!(encode_command(""), "");
    assert_eq!(encode_command("é"), "w6k=");
}

#[test]
fn decoding_then_encoding_gives_the_command_back() {
    for encoded in ["ZWNobyBoaQ==", "", "bHMgLWwKcHdk", "w6k=", "ZWNobyAje2dyZWV0aW5nfQ=="] {
        let decoded = decode_command(encoded).unwrap();
        assert_eq!(encode_command(&decoded), encoded);
    }
}

#[test]
fn encoding_then_decoding_gives_the_text_back() {
    for text in ["echo hi", "Write-Host 'é'; exit 3", "a\nb\n", "#{location}/run.sh"] {
        assert_eq!(decode_command(&encode_command(text)).unwrap(), text);
    }
}

#[test]
fn malformed_base64_is_an_internal_error() {
    for encoded in ["echo hi", "ZWNobyBoaQ", "ZWNobyBoaQ=", "ZWNobyBoaR==", "ZWNo\neSBoaQ==", "===="] {
        match decode_command(encoded) {
            Err(Error::Internal(message)) => assert_eq!(message, "Failed to decode Base64 command"),
            other => panic!("unexpected result for {:?}: {:?}", encoded, other),
        }
    }
}

#[test]
fn base64_of_bytes_that_are_no_utf8_is_an_internal_error() {
    // "/w==" encodes the single byte 255
    match decode_command("/w==") {
        Err(Error::Internal(message)) => assert_eq!(message, "Decoded command is not valid UTF-8"),
        other => panic!("unexpected result: {:?}", other),
    }
}

#[test]
fn powershell_command_is_wrapped() {
    assert_eq!(
        format_powershell_command("echo Helloé".to_string()),
        "$ErrorActionPreference = 'Stop'; echo Helloé ; exit $LASTEXITCODE"
    );
    assert_eq!(
        format_powershell_command(String::new()),
        "$ErrorActionPreference = 'Stop';  ; exit $LASTEXITCODE"
    );
}

#[test]
fn powershell_wrapping_begins_with_the_stop_preference() {
    assert_eq!(
        format_powershell_command("echo 1".to_string()),
        "$ErrorActionPreference = 'Stop'; echo 1 ; exit $LASTEXITCODE"
    );
}

#[test]
fn windows_command_is_wrapped() {
    assert_eq!(format_windows_command("dir".to_string()), "setlocal & dir & exit /b errorlevel");
}

#[test]
fn executor_names_on_windows() {
    assert_eq!(get_executor("cmd", Platform::Windows), Shell::Cmd);
    assert_eq!(get_executor("bash", Platform::Windows), Shell::Bash);
    assert_eq!(get_executor("sh", Platform::Windows), Shell::Sh);
    assert_eq!(get_executor("psh", Platform::Windows), Shell::PowerShell);
    assert_eq!(get_executor("powershell", Platform::Windows), Shell::PowerShell);
    assert_eq!(get_executor("zsh", Platform::Windows), Shell::PowerShell);
    assert_eq!(get_executor("", Platform::Windows), Shell::PowerShell);
}

#[test]
fn executor_names_elsewhere() {
    assert_eq!(get_executor("bash", Platform::Posix), Shell::Bash);
    assert_eq!(get_executor("sh", Platform::Posix), Shell::Sh);
    assert_eq!(get_executor("cmd", Platform::Posix), Shell::Cmd);
    assert_eq!(get_executor("psh", Platform::Posix), Shell::PowerShell);
    assert_eq!(get_executor("powershell", Platform::Posix), Shell::PowerShell);
    assert_eq!(get_executor("zsh", Platform::Posix), Shell::Sh);
    assert_eq!(get_executor("Bash", Platform::Posix), Shell::Sh);
    assert_eq!(get_executor("PowerShell", Platform::Posix), Shell::Sh);
    assert_eq!(get_executor("", Platform::Posix), Shell::Sh);
}

#[test]
fn recognized_executor_is_kept_on_every_platform() {
    for platform in [Platform::Windows, Platform::Posix] {
        for name in ["bash", "sh", "cmd", "powershell"] {
            assert_eq!(get_executor(name, platform).name(), name);
        }
        assert_eq!(get_executor("psh", platform).name(), "powershell");
    }
}

#[test]
fn shell_names() {
    assert_eq!(Shell::Bash.name(), "bash");
    assert_eq!(Shell::Sh.name(), "sh");
    assert_eq!(Shell::Cmd.name(), "cmd");
    assert_eq!(Shell::PowerShell.name(), "powershell");
}

#[test]
fn powershell_arguments() {
    assert_eq!(
        get_psh_arg(Platform::Windows),
        vec![
            "-ExecutionPolicy",
            "Bypass",
            "-WindowStyle",
            "Hidden",
            "-NonInteractive",
            "-NoProfile",
            "-Command"
        ]
    );
    assert_eq!(
        get_psh_arg(Platform::Posix),
        vec!["-ExecutionPolicy", "Bypass", "-NonInteractive", "-NoProfile", "-Command"]
    );
}

#[test]
fn posix_shell_gets_the_command_as_it_is() {
    let invocation = format_command("echo a\necho b".to_string(), "bash", Platform::Posix);
    assert_eq!(invocation.executor, "bash");
    assert_eq!(invocation.args, vec!["-c"]);
    assert_eq!(invocation.expression, "echo a\necho b");
    let fallback = format_command("ls".to_string(), "fish", Platform::Posix);
    assert_eq!(fallback.executor, "sh");
    assert_eq!(fallback.args, vec!["-c"]);
    assert_eq!(fallback.expression, "ls");
}

#[test]
fn cmd_gets_the_command_wrapped() {
    let invocation = format_command("dir".to_string(), "cmd", Platform::Windows);
    assert_eq!(invocation.executor, "cmd");
    assert_eq!(invocation.args, vec!["/V", "/C"]);
    assert_eq!(invocation.expression, "setlocal & dir & exit /b errorlevel");
}

#[test]
fn powershell_gets_the_command_wrapped_and_its_flags() {
    let invocation = format_command("Get-Date".to_string(), "psh", Platform::Posix);
    assert_eq!(invocation.executor, "powershell");
    assert_eq!(
        invocation.args,
        vec!["-ExecutionPolicy", "Bypass", "-NonInteractive", "-NoProfile", "-Command"]
    );
    assert_eq!(
        invocation.expression,
        "$ErrorActionPreference = 'Stop'; Get-Date ; exit $LASTEXITCODE"
    );
    let windows = format_command("Get-Date".to_string(), "anything", Platform::Windows);
    assert_eq!(windows.executor, "powershell");
    assert_eq!(windows.args.len(), 7);
    assert_eq!(windows.args[2], "-WindowStyle");
    assert_eq!(windows.args[3], "Hidden");
}

#[test]
fn prepare_command_decodes_and_formats() {
    let invocation = prepare_command("ZWNobyBoaQ==", "sh", Platform::Posix).unwrap();
    assert_eq!(invocation.executor, "sh");
    assert_eq!(invocation.args, vec!["-c"]);
    assert_eq!(invocation.expression, "echo hi");
    assert!(matches!(prepare_command("not base64!", "sh", Platform::Posix), Err(Error::Internal(_))));
}

fn output(code: Option<i32>, stdout: &str, stderr: &str) -> ProcessOutput {
    ProcessOutput { code, stdout: stdout.as_bytes().to_vec(), stderr: stderr.as_bytes().to_vec() }
}

#[test]
fn manage_result_classifies_and_decodes() {
    let res = manage_result(output(Some(0), "hi\n", ""), false).unwrap();
    assert_eq!(res.stdout, "hi\n");
    assert_eq!(res.stderr, "");
    assert_eq!(res.exit_code, 0);
    assert_eq!(res.status, ExecutionStatus::Success);
    let warned = manage_result(output(Some(0), "", "careful"), false).unwrap();
    assert_eq!(warned.status, ExecutionStatus::Warning);
    assert_eq!(warned.stderr, "careful");
    let checked = manage_result(output(Some(1), "", ""), true).unwrap();
    assert_eq!(checked.status, ExecutionStatus::Success);
    assert_eq!(checked.exit_code, 1);
    let unchecked = manage_result(output(Some(1), "", ""), false).unwrap();
    assert_eq!(unchecked.status, ExecutionStatus::MaybePrevented);
}

#[test]
fn process_without_exit_code_is_an_error() {
    let res = manage_result(output(None, "", ""), false).unwrap();
    assert_eq!(res.exit_code, -99);
    assert_eq!(res.status, ExecutionStatus::Error);
}

#[test]
fn ill_formed_bytes_on_standard_error_are_a_warning() {
    let raw = ProcessOutput { code: Some(0), stdout: vec![], stderr: vec![0xFF] };
    let res = manage_result(raw, false).unwrap();
    assert_eq!(res.stderr, "\u{FFFD}");
    assert_eq!(res.status, ExecutionStatus::Warning);
}

#[test]
fn output_that_is_no_utf8_is_decoded_lossily() {
    let raw = ProcessOutput { code: Some(3), stdout: vec![72, 105, 255], stderr: vec![0xC3] };
    let res = manage_result(raw, false).unwrap();
    assert_eq!(res.stdout, "Hi\u{FFFD}");
    assert_eq!(res.stderr, "\u{FFFD}");
    assert_eq!(res.status, ExecutionStatus::MaybePrevented);
}

#[test]
fn permission_denied_counts_as_a_failed_run() {
    let denied = SpawnOutcome::PermissionDenied("Permission denied (os error 13)".to_string());
    let out = invoke_command(denied).unwrap();
    assert_eq!(out.code, Some(1));
    assert!(out.stdout.is_empty());
    assert_eq!(out.stderr, b"Permission denied (os error 13)".to_vec());
    let again = RunOutcome::Ran(SpawnOutcome::PermissionDenied("Permission denied (os error 13)".to_string()));
    let res = command_execution("sh", Platform::Posix, again, false).unwrap();
    assert_eq!(res.exit_code, 1);
    assert_eq!(res.stdout, "");
    assert_eq!(res.stderr, "Permission denied (os error 13)");
    assert_eq!(res.status, ExecutionStatus::MaybePrevented);
}

#[test]
fn process_that_ran_is_handed_on() {
    let out = invoke_command(SpawnOutcome::Exited(output(Some(7), "o", "e"))).unwrap();
    assert_eq!(out.code, Some(7));
    assert_eq!(out.stdout, b"o".to_vec());
    assert_eq!(out.stderr, b"e".to_vec());
}

#[test]
fn other_spawn_failure_is_an_io_error() {
    match invoke_command(SpawnOutcome::Failed("No such file or directory (os error 2)".to_string())) {
        Err(Error::Io(message)) => assert_eq!(message, "No such file or directory (os error 2)"),
        other => panic!("unexpected result: {:?}", other),
    }
    let failed = RunOutcome::Ran(SpawnOutcome::Failed("boom".to_string()));
    assert!(matches!(command_execution("sh", Platform::Posix, failed, false), Err(Error::Io(_))));
}

#[test]
fn missing_executor_is_an_internal_error_that_names_it() {
    match command_execution("psh", Platform::Posix, RunOutcome::ExecutorMissing, false) {
        Err(Error::Internal(message)) => assert_eq!(message, "Executor powershell is not available."),
        other => panic!("unexpected result: {:?}", other),
    }
    match command_execution("whatever", Platform::Posix, RunOutcome::ExecutorMissing, true) {
        Err(Error::Internal(message)) => assert_eq!(message, "Executor sh is not available."),
        other => panic!("unexpected result: {:?}", other),
    }
}

#[test]
fn command_that_ran_is_classified() {
    let ran = RunOutcome::Ran(SpawnOutcome::Exited(output(Some(127), "", "sh: nope: not found")));
    let res = command_execution("sh", Platform::Posix, ran, false).unwrap();
    assert_eq!(res.status, ExecutionStatus::CommandNotFound);
    assert_eq!(res.exit_code, 127);
    assert_eq!(res.stderr, "sh: nope: not found");
}

#[test]
fn file_is_run_by_bash_or_powershell() {
    let posix = file_invocation("/opt/agent/run.sh", Platform::Posix);
    assert_eq!(posix.executor, "bash");
    assert!(posix.args.is_empty());
    assert_eq!(posix.expression, "/opt/agent/run.sh");
    let windows = file_invocation("C:\\agent\\run.ps1", Platform::Windows);
    assert_eq!(windows.executor, "powershell.exe");
    assert_eq!(
        windows.args,
        vec![
            "-ExecutionPolicy",
            "Bypass",
            "-WindowStyle",
            "Hidden",
            "-NonInteractive",
            "-NoProfile",
            "-Command"
        ]
    );
    assert_eq!(
        windows.expression,
        "$ErrorActionPreference = 'Stop'; & 'C:\\agent\\run.ps1'; exit $LASTEXITCODE"
    );
}

#[test]
fn file_execution_results() {
    let ran = RunOutcome::Ran(SpawnOutcome::Exited(output(Some(1), "out", "")));
    let res = file_execution(Platform::Posix, ran).unwrap();
    assert_eq!(res.exit_code, 1);
    assert_eq!(res.stdout, "out");
    assert_eq!(res.status, ExecutionStatus::MaybePrevented);
    match file_execution(Platform::Posix, RunOutcome::ExecutorMissing) {
        Err(Error::Internal(message)) => assert_eq!(message, "Executor 'bash' is not available."),
        other => panic!("unexpected result: {:?}", other),
    }
    match file_execution(Platform::Windows, RunOutcome::ExecutorMissing) {
        Err(Error::Internal(message)) => {
            assert_eq!(message, "Executor 'powershell.exe' is not available.")
        }
        other => panic!("unexpected result: {:?}", other),
    }
    let denied = RunOutcome::Ran(SpawnOutcome::PermissionDenied("denied".to_string()));
    assert!(matches!(file_execution(Platform::Posix, denied), Err(Error::Io(_))));
    let failed = RunOutcome::Ran(SpawnOutcome::Failed("gone".to_string()));
    assert!(matches!(file_execution(Platform::Posix, failed), Err(Error::Io(_))));
}

#[test]
fn errors_read_as_their_kind_and_quoted_text() {
    assert_eq!(Error::Internal("a \"b\"".to_string()).describe(), "Internal(\"a \\\"b\\\"\")");
    assert_eq!(Error::Api("Not Found".to_string()).describe(), "Api(\"Not Found\")");
    assert_eq!(Error::Io("x\ny".to_string()).describe(), "Io(\"x\\ny\")");
    assert_eq!(Error::Transport("timed out".to_string()).describe(), "Transport(\"timed out\")");
    assert_eq!(Error::Transport("timed out".to_string()).message(), "timed out");
}
