use crate::error::{Error, ErrorView};
use base64::engine::general_purpose::STANDARD;
use base64::Engine;
use std::string::FromUtf8Error;
use vstd::prelude::*;
use vstd::string::{StrSliceExecFns, StringExecFns};
use vstd::utf8::{
    decode_utf8, encode_utf8, encode_utf8_decode_utf8, encode_utf8_valid_utf8, valid_utf8,
};

verus! {

/// Exit code recorded when a process ended without one (killed by a signal,
/// or its status could not be read).
pub const NO_EXIT_CODE: i32 = -99;

/// Exit code given to a process that could not be started for want of permission.
pub const PERMISSION_DENIED_EXIT_CODE: i32 = 1;

/// The meaning the controller gives to the outcome of one execution, or of a whole run.
#[derive(Debug, Clone, Copy, PartialEq, Eq, Structural)]
pub enum ExecutionStatus {
    Success,
    Warning,
    Error,
    MaybePrevented,
    CommandNotFound,
    CommandCannotBeExecuted,
    Info,
}

/// The label under which the controller knows a status.
pub open spec fn status_label(status: ExecutionStatus) -> Seq<char> {
    match status {
        ExecutionStatus::Success => "SUCCESS"@,
        ExecutionStatus::Warning => "WARNING"@,
        ExecutionStatus::Error => "ERROR"@,
        ExecutionStatus::MaybePrevented => "MAYBE_PREVENTED"@,
        ExecutionStatus::CommandNotFound => "COMMAND_NOT_FOUND"@,
        ExecutionStatus::CommandCannotBeExecuted => "COMMAND_CANNOT_BE_EXECUTED"@,
        ExecutionStatus::Info => "INFO"@,
    }
}

impl ExecutionStatus {
    /// The label under which the controller knows this status.
    pub fn label(&self) -> (label: &'static str)
        ensures
            label@ == status_label(*self),
    {
        match self {
            ExecutionStatus::Success => "SUCCESS",
            ExecutionStatus::Warning => "WARNING",
            ExecutionStatus::Error => "ERROR",
            ExecutionStatus::MaybePrevented => "MAYBE_PREVENTED",
            ExecutionStatus::CommandNotFound => "COMMAND_NOT_FOUND",
            ExecutionStatus::CommandCannotBeExecuted => "COMMAND_CANNOT_BE_EXECUTED",
            ExecutionStatus::Info => "INFO",
        }
    }
}

/// What one execution came to.
#[derive(Debug)]
pub struct ExecutionResult {
    pub stdout: String,
    pub stderr: String,
    pub status: ExecutionStatus,
    pub exit_code: i32,
}

/// The result of an execution as plain text.
pub struct ExecutionResultView {
    pub stdout: Seq<char>,
    pub stderr: Seq<char>,
    pub status: ExecutionStatus,
    pub exit_code: int,
}

impl View for ExecutionResult {
    type V = ExecutionResultView;

    open spec fn view(&self) -> ExecutionResultView {
        ExecutionResultView {
            stdout: self.stdout@,
            stderr: self.stderr@,
            status: self.status,
            exit_code: self.exit_code as int,
        }
    }
}

/// A result or an error as plain text.
pub open spec fn outcome_view(r: Result<ExecutionResult, Error>) -> Result<
    ExecutionResultView,
    ErrorView,
> {
    match r {
        Ok(res) => Ok(res@),
        Err(e) => Err(e@),
    }
}

/// What a process left behind when it ended: its exit code, if it had one,
/// and everything it wrote to its two output streams.
#[derive(Debug)]
pub struct ProcessOutput {
    pub code: Option<i32>,
    pub stdout: Vec<u8>,
    pub stderr: Vec<u8>,
}

/// How an attempt to start a process and wait for it ended.
#[derive(Debug)]
pub enum SpawnOutcome {
    /// The process ran to its end.
    Exited(ProcessOutput),
    /// The system refused to start the process for want of permission; the text says so.
    PermissionDenied(String),
    /// The process could not be started for another reason; the text says which.
    Failed(String),
}

/// What came of the request to run something with an executor.
#[derive(Debug)]
pub enum RunOutcome {
    /// The executor is not installed, so nothing was started.
    ExecutorMissing,
    /// The executor is installed and was asked to run.
    Ran(SpawnOutcome),
}

/// The kind of system the agent runs on.
#[derive(Debug, Clone, Copy, PartialEq, Eq, Structural)]
pub enum Platform {
    Windows,
    Posix,
}

/// The shells the agent knows how to drive.
#[derive(Debug, Clone, Copy, PartialEq, Eq, Structural)]
pub enum Shell {
    Bash,
    Sh,
    Cmd,
    PowerShell,
}

/// A process to start: the program, the arguments that come first, and the
/// expression handed to it as its last argument.
#[derive(Debug)]
pub struct Invocation {
    pub executor: String,
    pub args: Vec<String>,
    pub expression: String,
}

/// An invocation as plain text.
pub struct InvocationView {
    pub executor: Seq<char>,
    pub args: Seq<Seq<char>>,
    pub expression: Seq<char>,
}

/// The texts of a list of strings.
pub open spec fn texts_of(items: Seq<String>) -> Seq<Seq<char>> {
    items.map_values(|s: String| s@)
}

/// The texts of a list of string literals.
pub open spec fn literal_texts(items: Seq<&'static str>) -> Seq<Seq<char>> {
    items.map_values(|s: &'static str| s@)
}

impl View for Invocation {
    type V = InvocationView;

    open spec fn view(&self) -> InvocationView {
        InvocationView {
            executor: self.executor@,
            args: texts_of(self.args@),
            expression: self.expression@,
        }
    }
}

/// The decision table of the classifier; the first row that applies decides.
pub open spec fn classification(exit_code: int, stderr_empty: bool, pre_check: bool) -> ExecutionStatus {
    if exit_code == 0 && stderr_empty {
        ExecutionStatus::Success
    } else if exit_code == 0 {
        ExecutionStatus::Warning
    } else if exit_code == 1 && pre_check {
        ExecutionStatus::Success
    } else if exit_code == 127 {
        ExecutionStatus::CommandNotFound
    } else if exit_code == 126 {
        ExecutionStatus::CommandCannotBeExecuted
    } else if exit_code == NO_EXIT_CODE {
        ExecutionStatus::Error
    } else {
        ExecutionStatus::MaybePrevented
    }
}

/// Classifies a finished process from its exit code, from whether it wrote
/// to standard error, and from whether it was the check of a prerequisite.
pub fn classify(exit_code: i32, stderr: &str, pre_check: bool) -> (status: ExecutionStatus)
    ensures
        status == classification(exit_code as int, stderr@.len() == 0, pre_check),
{
    if exit_code == 0 {
        if stderr.is_empty() {
            ExecutionStatus::Success
        } else {
            ExecutionStatus::Warning
        }
    } else if exit_code == 1 && pre_check {
        ExecutionStatus::Success
    } else if exit_code == 127 {
        ExecutionStatus::CommandNotFound
    } else if exit_code == 126 {
        ExecutionStatus::CommandCannotBeExecuted
    } else if exit_code == NO_EXIT_CODE {
        ExecutionStatus::Error
    } else {
        ExecutionStatus::MaybePrevented
    }
}

/// The status depends on nothing but the exit code, on whether standard
/// error is empty and on whether a prerequisite was being checked, and each
/// row of the table holds: a process that exits with 0 succeeded, with a
/// warning if it wrote to standard error; the check of a prerequisite may
/// also exit with 1; 127 and 126 say that the command was not found or could
/// not be run; a process without an exit code is an error; every other exit
/// code may mean that the action was prevented.
pub proof fn law_classification_table(exit_code: int, stderr_empty: bool, pre_check: bool)
    ensures
        exit_code == 0 && stderr_empty ==> classification(exit_code, stderr_empty, pre_check)
            == ExecutionStatus::Success,
        exit_code == 0 && !stderr_empty ==> classification(exit_code, stderr_empty, pre_check)
            == ExecutionStatus::Warning,
        exit_code == 1 && pre_check ==> classification(exit_code, stderr_empty, pre_check)
            == ExecutionStatus::Success,
        exit_code == 127 ==> classification(exit_code, stderr_empty, pre_check)
            == ExecutionStatus::CommandNotFound,
        exit_code == 126 ==> classification(exit_code, stderr_empty, pre_check)
            == ExecutionStatus::CommandCannotBeExecuted,
        exit_code == NO_EXIT_CODE ==> classification(exit_code, stderr_empty, pre_check)
            == ExecutionStatus::Error,
        exit_code != 0 && !(exit_code == 1 && pre_check) && exit_code != 127 && exit_code != 126
            && exit_code != NO_EXIT_CODE ==> classification(exit_code, stderr_empty, pre_check)
            == ExecutionStatus::MaybePrevented,
        classification(exit_code, stderr_empty, pre_check) != ExecutionStatus::Info,
{
}

/// `base64::DecodeError`, the reason why a text is no base64.
#[verifier::external_type_specification]
#[verifier::external_body]
pub struct ExDecodeError(base64::DecodeError);

/// `std::string::FromUtf8Error`, the reason why bytes are no UTF-8.
#[verifier::external_type_specification]
#[verifier::external_body]
pub struct ExFromUtf8Error(FromUtf8Error);

/// The bytes that a text stands for in base64 (standard alphabet, with
/// padding), if it is well formed.
pub uninterp spec fn base64_decoding(encoded: Seq<char>) -> Option<Seq<u8>>;

/// The base64 text (standard alphabet, with padding) of some bytes.
pub uninterp spec fn base64_encoding(bytes: Seq<u8>) -> Seq<char>;

/// What lossy UTF-8 decoding makes of some bytes: each ill-formed stretch
/// becomes a replacement character.
pub uninterp spec fn utf8_lossy_decoding(bytes: Seq<u8>) -> Seq<char>;

/// Calls `Engine::decode` on `base64`'s `STANDARD` engine. The result is
/// named by `base64_decoding`. The engine takes canonical base64 only: it
/// wants the padding and refuses stray bits in the last symbol, so the bytes
/// it gives encode back to the very text it was given.
#[verifier::external_body]
fn base64_decode(encoded: &str) -> (r: Result<Vec<u8>, base64::DecodeError>)
    ensures
        match r {
            Ok(bytes) => base64_decoding(encoded@) == Some(bytes@) && base64_encoding(bytes@)
                == encoded@,
            Err(_) => base64_decoding(encoded@) is None,
        },
{
    STANDARD.decode(encoded)
}

/// Calls `Engine::encode` on `base64`'s `STANDARD` engine. The result is
/// named by `base64_encoding`, and it is a text that the same engine decodes
/// to the bytes it was made from. The call panics where the length of the
/// encoded text does not fit in `usize`, which the precondition rules out.
#[verifier::external_body]
fn base64_encode(bytes: &[u8]) -> (encoded: String)
    requires
        bytes@.len() / 3 < usize::MAX / 4,
    ensures
        encoded@ == base64_encoding(bytes@),
        base64_decoding(encoded@) == Some(bytes@),
{
    STANDARD.encode(bytes)
}

/// `String::from_utf8` succeeds on well-formed UTF-8 and on nothing else, and
/// gives the characters that the bytes encode.
pub assume_specification[ String::from_utf8 ](bytes: Vec<u8>) -> (r: Result<String, FromUtf8Error>)
    ensures
        r is Ok == valid_utf8(bytes@),
        r matches Ok(text) ==> text@ == decode_utf8(bytes@),
;

/// Calls `String::from_utf8_lossy`. The result is named by
/// `utf8_lossy_decoding`; on well-formed UTF-8 it is the text that the bytes
/// encode, and of bytes that are not empty it is never empty, since every
/// ill-formed stretch leaves a replacement character.
#[verifier::external_body]
fn utf8_lossy(bytes: &[u8]) -> (text: String)
    ensures
        text@ == utf8_lossy_decoding(bytes@),
        valid_utf8(bytes@) ==> text@ == decode_utf8(bytes@),
        bytes@.len() > 0 ==> text@.len() > 0,
{
    String::from_utf8_lossy(bytes).into_owned()
}

/// The text that stands behind a transport-encoded command, if there is one:
/// the command is base64, and what it encodes is UTF-8.
pub open spec fn command_decoding(encoded: Seq<char>) -> Option<Seq<char>> {
    match base64_decoding(encoded) {
        Some(bytes) => if valid_utf8(bytes) {
            Some(decode_utf8(bytes))
        } else {
            None
        },
        None => None,
    }
}

/// The text of the error that `decode_command` gives for a command that cannot be decoded.
pub open spec fn command_decoding_failure(encoded: Seq<char>) -> Seq<char> {
    if base64_decoding(encoded) is None {
        "Failed to decode Base64 command"@
    } else {
        "Decoded command is not valid UTF-8"@
    }
}

/// Decodes a command from its transport encoding. A well-formed command
/// decodes to a text whose encoding is the command again; any other command
/// is an internal error.
pub fn decode_command(encoded_command: &str) -> (r: Result<String, Error>)
    ensures
        match r {
            Ok(text) => command_decoding(encoded_command@) == Some(text@) && base64_encoding(
                encode_utf8(text@),
            ) == encoded_command@,
            Err(e) => command_decoding(encoded_command@) is None && e@ == ErrorView::Internal(
                command_decoding_failure(encoded_command@),
            ),
        },
{
    match base64_decode(encoded_command) {
        Ok(bytes) => {
            let ghost raw = bytes@;
            match String::from_utf8(bytes) {
                Ok(text) => {
                    proof {
                        vstd::utf8::decode_utf8_encode_utf8(raw);
                    }
                    Ok(text)
                },
                Err(_) => Err(Error::internal("Decoded command is not valid UTF-8")),
            }
        },
        Err(_) => Err(Error::internal("Failed to decode Base64 command")),
    }
}

/// Encodes a command for transport. Decoding the result gives the command back.
pub fn encode_command(command: &str) -> (encoded: String)
    requires
        encode_utf8(command@).len() / 3 < usize::MAX / 4,
    ensures
        encoded@ == base64_encoding(encode_utf8(command@)),
        command_decoding(encoded@) == Some(command@),
{
    proof {
        encode_utf8_valid_utf8(command@);
        encode_utf8_decode_utf8(command@);
    }
    base64_encode(command.as_bytes())
}

/// The text that makes PowerShell stop at the first error.
pub open spec fn powershell_prefix() -> Seq<char> {
    "$ErrorActionPreference = 'Stop'; "@
}

/// The text that makes PowerShell leave with the exit code of the last command.
pub open spec fn powershell_suffix() -> Seq<char> {
    " ; exit $LASTEXITCODE"@
}

/// The text that keeps what `cmd` sets to the command.
pub open spec fn windows_prefix() -> Seq<char> {
    "setlocal & "@
}

/// The text that makes `cmd` leave with the error level that the command left.
pub open spec fn windows_suffix() -> Seq<char> {
    " & exit /b errorlevel"@
}

/// Wraps a command for PowerShell, so that the exit code of the process is
/// that of the command.
pub fn format_powershell_command(command: String) -> (formatted: String)
    ensures
        formatted@ == powershell_prefix() + command@ + powershell_suffix(),
{
    let mut formatted = String::from_str("$ErrorActionPreference = 'Stop'; ");
    formatted.append(command.as_str());
    formatted.append(" ; exit $LASTEXITCODE");
    formatted
}

/// Wraps a command for `cmd`, so that the exit code of the process is the
/// error level that the command left.
pub fn format_windows_command(command: String) -> (formatted: String)
    ensures
        formatted@ == windows_prefix() + command@ + windows_suffix(),
{
    let mut formatted = String::from_str("setlocal & ");
    formatted.append(command.as_str());
    formatted.append(" & exit /b errorlevel");
    formatted
}

/// What the output of a process reads as: its text where it is UTF-8, else
/// what lossy decoding makes of it.
pub open spec fn output_text(raw: Seq<u8>) -> Seq<char> {
    if valid_utf8(raw) {
        decode_utf8(raw)
    } else {
        utf8_lossy_decoding(raw)
    }
}

/// Decodes the output of a process; bytes that are no UTF-8 never make it
/// fail. The text is empty exactly when the process wrote nothing.
pub fn decode_output(raw_bytes: &[u8]) -> (text: String)
    ensures
        text@ == output_text(raw_bytes@),
        text@ == utf8_lossy_decoding(raw_bytes@),
        text@.len() == 0 <==> raw_bytes@.len() == 0,
{
    proof {
        if raw_bytes@.len() == 0 {
            assert(raw_bytes@ =~= Seq::<u8>::empty());
            lemma_no_bytes_no_text();
            encode_utf8_valid_utf8(Seq::<char>::empty());
            assert(encode_utf8(Seq::<char>::empty()) =~= Seq::<u8>::empty());
        }
    }
    utf8_lossy(raw_bytes)
}

/// The exit code recorded for a process.
pub open spec fn recorded_exit_code(code: Option<i32>) -> i32 {
    match code {
        Some(c) => c,
        None => NO_EXIT_CODE,
    }
}

/// The result of a command that left `output` behind: the exit code (or
/// `NO_EXIT_CODE`), both outputs as text, and the status that the classifier gives.
pub open spec fn managed(output: ProcessOutput, pre_check: bool) -> ExecutionResultView {
    ExecutionResultView {
        stdout: output_text(output.stdout@),
        stderr: output_text(output.stderr@),
        status: classification(
            recorded_exit_code(output.code) as int,
            output_text(output.stderr@).len() == 0,
            pre_check,
        ),
        exit_code: recorded_exit_code(output.code) as int,
    }
}

/// Turns what a command left behind into its result. Standard error counts
/// as empty exactly when the process wrote nothing to it.
pub fn manage_result(invoke_output: ProcessOutput, pre_check: bool) -> (r: Result<
    ExecutionResult,
    Error,
>)
    ensures
        r matches Ok(res) && res@ == managed(invoke_output, pre_check) && res.status
            == classification(
            recorded_exit_code(invoke_output.code) as int,
            invoke_output.stderr@.len() == 0,
            pre_check,
        ),
{
    let exit_code = match invoke_output.code {
        Some(c) => c,
        None => NO_EXIT_CODE,
    };
    let stdout = decode_output(invoke_output.stdout.as_slice());
    let stderr = decode_output(invoke_output.stderr.as_slice());
    let status = classify(exit_code, stderr.as_str(), pre_check);
    Ok(ExecutionResult { stdout, stderr, status, exit_code })
}

/// The shell that stands behind an executor name. `bash`, `sh`, `cmd` and
/// `powershell` are taken at their word, and `psh` is another name for
/// PowerShell, on every platform. Any other name means the shell of the
/// platform: PowerShell on Windows, `sh` elsewhere.
pub open spec fn shell_for(executor: Seq<char>, platform: Platform) -> Shell {
    if executor == "bash"@ {
        Shell::Bash
    } else if executor == "sh"@ {
        Shell::Sh
    } else if executor == "cmd"@ {
        Shell::Cmd
    } else if executor == "powershell"@ || executor == "psh"@ {
        Shell::PowerShell
    } else {
        match platform {
            Platform::Windows => Shell::PowerShell,
            Platform::Posix => Shell::Sh,
        }
    }
}

/// The name of the program that runs a shell.
pub open spec fn shell_name(shell: Shell) -> Seq<char> {
    match shell {
        Shell::Bash => "bash"@,
        Shell::Sh => "sh"@,
        Shell::Cmd => "cmd"@,
        Shell::PowerShell => "powershell"@,
    }
}

impl Shell {
    /// The name of the program that runs this shell.
    pub fn name(&self) -> (name: &'static str)
        ensures
            name@ == shell_name(*self),
    {
        match self {
            Shell::Bash => "bash",
            Shell::Sh => "sh",
            Shell::Cmd => "cmd",
            Shell::PowerShell => "powershell",
        }
    }
}

/// Picks the shell for an executor name on the given platform.
pub fn get_executor(executor: &str, platform: Platform) -> (shell: Shell)
    ensures
        shell == shell_for(executor@, platform),
{
    if crate::text::same(executor, "bash") {
        Shell::Bash
    } else if crate::text::same(executor, "sh") {
        Shell::Sh
    } else if crate::text::same(executor, "cmd") {
        Shell::Cmd
    } else if crate::text::same(executor, "powershell") || crate::text::same(executor, "psh") {
        Shell::PowerShell
    } else {
        match platform {
            Platform::Windows => Shell::PowerShell,
            Platform::Posix => Shell::Sh,
        }
    }
}

/// The arguments that PowerShell gets before the command: no execution
/// policy, no prompt, no profile, and on Windows no window.
pub open spec fn powershell_arguments(platform: Platform) -> Seq<Seq<char>> {
    match platform {
        Platform::Windows => seq![
            "-ExecutionPolicy"@,
            "Bypass"@,
            "-WindowStyle"@,
            "Hidden"@,
            "-NonInteractive"@,
            "-NoProfile"@,
            "-Command"@,
        ],
        Platform::Posix => seq![
            "-ExecutionPolicy"@,
            "Bypass"@,
            "-NonInteractive"@,
            "-NoProfile"@,
            "-Command"@,
        ],
    }
}

/// The arguments that PowerShell gets before the command.
pub fn get_psh_arg(platform: Platform) -> (args: Vec<&'static str>)
    ensures
        literal_texts(args@) == powershell_arguments(platform),
{
    let mut args: Vec<&'static str> = Vec::new();
    args.push("-ExecutionPolicy");
    args.push("Bypass");
    match platform {
        Platform::Windows => {
            args.push("-WindowStyle");
            args.push("Hidden");
        },
        Platform::Posix => {},
    }
    args.push("-NonInteractive");
    args.push("-NoProfile");
    args.push("-Command");
    assert(literal_texts(args@) =~= powershell_arguments(platform));
    args
}

/// The arguments that a shell gets before the command.
pub open spec fn shell_arguments(shell: Shell, platform: Platform) -> Seq<Seq<char>> {
    match shell {
        Shell::Cmd => seq!["/V"@, "/C"@],
        Shell::PowerShell => powershell_arguments(platform),
        _ => seq!["-c"@],
    }
}

/// The expression that a shell gets for a command.
pub open spec fn shell_expression(shell: Shell, command: Seq<char>) -> Seq<char> {
    match shell {
        Shell::Cmd => windows_prefix() + command + windows_suffix(),
        Shell::PowerShell => powershell_prefix() + command + powershell_suffix(),
        _ => command,
    }
}

/// How a command is handed to the shell that an executor name stands for.
pub open spec fn command_invocation(command: Seq<char>, executor: Seq<char>, platform: Platform) -> InvocationView {
    let shell = shell_for(executor, platform);
    InvocationView {
        executor: shell_name(shell),
        args: shell_arguments(shell, platform),
        expression: shell_expression(shell, command),
    }
}

/// Owned copies of a list of string literals.
pub fn owned_texts(items: &Vec<&'static str>) -> (owned: Vec<String>)
    ensures
        texts_of(owned@) == literal_texts(items@),
{
    let mut owned: Vec<String> = Vec::new();
    let mut i: usize = 0;
    while i < items.len()
        invariant
            i <= items.len(),
            owned@.len() == i,
            forall|k: int| 0 <= k < i ==> owned@[k]@ == items@[k]@,
        decreases items.len() - i,
    {
        owned.push(String::from_str(items[i]));
        i += 1;
    }
    assert(texts_of(owned@) =~= literal_texts(items@));
    owned
}

/// Puts a command, given as plain text, in the form in which the shell
/// behind `executor` takes it: a POSIX shell gets the text after `-c`, `cmd`
/// and PowerShell get it wrapped so that the exit code is the command's.
pub fn format_command(command: String, executor: &str, platform: Platform) -> (invocation:
    Invocation)
    ensures
        invocation@ == command_invocation(command@, executor@, platform),
{
    let shell = get_executor(executor, platform);
    let mut args: Vec<&'static str> = Vec::new();
    let expression;
    match shell {
        Shell::Cmd => {
            expression = format_windows_command(command);
            args.push("/V");
            args.push("/C");
        },
        Shell::PowerShell => {
            expression = format_powershell_command(command);
            args = get_psh_arg(platform);
        },
        _ => {
            expression = command;
            args.push("-c");
        },
    }
    assert(literal_texts(args@) =~= shell_arguments(shell, platform));
    let invocation = Invocation {
        executor: String::from_str(shell.name()),
        args: owned_texts(&args),
        expression,
    };
    invocation
}

/// Decodes a transport-encoded command and puts it in the form in which the
/// shell behind `executor` takes it. A command that cannot be decoded is an
/// internal error.
pub fn prepare_command(command: &str, executor: &str, platform: Platform) -> (r: Result<
    Invocation,
    Error,
>)
    ensures
        match r {
            Ok(invocation) => command_decoding(command@) is Some && invocation@
                == command_invocation(command_decoding(command@)->0, executor@, platform),
            Err(e) => command_decoding(command@) is None && e@ == ErrorView::Internal(
                command_decoding_failure(command@),
            ),
        },
{
    match decode_command(command) {
        Ok(text) => Ok(format_command(text, executor, platform)),
        Err(e) => Err(e),
    }
}

/// What is recorded for a process that could not be started for want of
/// permission: no output, the refusal on standard error, and a failing exit code.
pub open spec fn denied_output(output: ProcessOutput, message: Seq<char>) -> bool {
    &&& output.code == Some(PERMISSION_DENIED_EXIT_CODE)
    &&& output.stdout@.len() == 0
    &&& output.stderr@ == encode_utf8(message)
}

/// Settles what an attempt to start a process left behind. A process that
/// ran leaves its output; one that was refused for want of permission
/// counts as having run and failed, with the refusal on standard error; any
/// other failure to start is an error.
pub fn invoke_command(outcome: SpawnOutcome) -> (r: Result<ProcessOutput, Error>)
    ensures
        match outcome {
            SpawnOutcome::Exited(output) => r == Ok::<ProcessOutput, Error>(output),
            SpawnOutcome::PermissionDenied(message) => r matches Ok(output) && denied_output(
                output,
                message@,
            ),
            SpawnOutcome::Failed(detail) => r == Err::<ProcessOutput, Error>(Error::Io(detail)),
        },
{
    match outcome {
        SpawnOutcome::Exited(output) => Ok(output),
        SpawnOutcome::PermissionDenied(message) => Ok(
            ProcessOutput {
                code: Some(PERMISSION_DENIED_EXIT_CODE),
                stdout: Vec::new(),
                stderr: message.as_str().as_bytes_vec(),
            },
        ),
        SpawnOutcome::Failed(detail) => Err(Error::Io(detail)),
    }
}

/// The text of the error for an executor that is not installed.
pub open spec fn missing_executor_message(name: Seq<char>) -> Seq<char> {
    "Executor "@ + name + " is not available."@
}

/// What an attempt to start a process comes to. A process that ran is
/// classified; one that was refused for want of permission counts as having
/// run and failed, with the refusal on standard error; any other failure to
/// start is an I/O error.
pub open spec fn settled(spawned: SpawnOutcome, pre_check: bool) -> Result<
    ExecutionResultView,
    ErrorView,
> {
    match spawned {
        SpawnOutcome::Exited(output) => Ok(managed(output, pre_check)),
        SpawnOutcome::PermissionDenied(message) => Ok(
            ExecutionResultView {
                stdout: Seq::empty(),
                stderr: message@,
                status: classification(
                    PERMISSION_DENIED_EXIT_CODE as int,
                    message@.len() == 0,
                    pre_check,
                ),
                exit_code: PERMISSION_DENIED_EXIT_CODE as int,
            },
        ),
        SpawnOutcome::Failed(detail) => Err(ErrorView::Io(detail@)),
    }
}

/// What running a command with the shell behind `executor` comes to, given
/// what came of the attempt. Without the shell nothing has run, and the
/// result is an internal error that names the shell.
pub open spec fn command_result(
    executor: Seq<char>,
    platform: Platform,
    outcome: RunOutcome,
    pre_check: bool,
) -> Result<ExecutionResultView, ErrorView> {
    match outcome {
        RunOutcome::ExecutorMissing => Err(
            ErrorView::Internal(
                missing_executor_message(shell_name(shell_for(executor, platform))),
            ),
        ),
        RunOutcome::Ran(spawned) => settled(spawned, pre_check),
    }
}

/// The result of running a command with the shell behind `executor`, given
/// what came of the attempt to run it.
pub fn command_execution(executor: &str, platform: Platform, outcome: RunOutcome, pre_check: bool) -> (r:
    Result<ExecutionResult, Error>)
    ensures
        outcome_view(r) == command_result(executor@, platform, outcome, pre_check),
{
    match outcome {
        RunOutcome::ExecutorMissing => {
            let shell = get_executor(executor, platform);
            let mut message = String::from_str("Executor ");
            message.append(shell.name());
            message.append(" is not available.");
            Err(Error::Internal(message))
        },
        RunOutcome::Ran(spawned) => settle(spawned, pre_check),
    }
}

/// Classifies what an attempt to start a process left behind.
pub fn settle(spawned: SpawnOutcome, pre_check: bool) -> (r: Result<ExecutionResult, Error>)
    ensures
        outcome_view(r) == settled(spawned, pre_check),
{
    let ghost denied = spawned is PermissionDenied;
    let ghost message = if spawned is PermissionDenied {
        spawned->PermissionDenied_0@
    } else {
        Seq::<char>::empty()
    };
    match invoke_command(spawned) {
        Ok(output) => {
            proof {
                if denied {
                    encode_utf8_valid_utf8(message);
                    encode_utf8_decode_utf8(message);
                    assert(output.stdout@ =~= Seq::<u8>::empty());
                    lemma_no_bytes_no_text();
                }
            }
            let r = manage_result(output, pre_check);
            proof {
                if denied {
                    assert(r->Ok_0@.stdout =~= Seq::<char>::empty());
                }
            }
            r
        },
        Err(e) => Err(e),
    }
}

/// No bytes decode to no text.
proof fn lemma_no_bytes_no_text()
    ensures
        output_text(Seq::<u8>::empty()).len() == 0,
{
    let none = Seq::<char>::empty();
    encode_utf8_valid_utf8(none);
    encode_utf8_decode_utf8(none);
    assert(encode_utf8(none) =~= Seq::<u8>::empty());
}

} // verus!
