use crate::error::{Error, ErrorView};
use crate::process::command_exec::{
    classification, classify, decode_output, get_psh_arg, managed, outcome_view, owned_texts,
    recorded_exit_code,
    powershell_arguments, ExecutionResult, ExecutionResultView, Invocation, InvocationView,
    Platform, ProcessOutput, RunOutcome, SpawnOutcome, NO_EXIT_CODE,
};
use vstd::prelude::*;
use vstd::string::StringExecFns;

verus! {

/// The name of the program that runs a downloaded file.
pub open spec fn file_executor(platform: Platform) -> Seq<char> {
    match platform {
        Platform::Windows => "powershell.exe"@,
        Platform::Posix => "bash"@,
    }
}

/// How the file at `path` is run: `bash` gets the path, PowerShell gets a
/// script that calls the file, stops at the first error and leaves with the
/// exit code of the file.
pub open spec fn file_invocation_of(path: Seq<char>, platform: Platform) -> InvocationView {
    match platform {
        Platform::Windows => InvocationView {
            executor: file_executor(platform),
            args: powershell_arguments(platform),
            expression: "$ErrorActionPreference = 'Stop'; & '"@ + path + "'; exit $LASTEXITCODE"@,
        },
        Platform::Posix => InvocationView {
            executor: file_executor(platform),
            args: Seq::empty(),
            expression: path,
        },
    }
}

/// The process that runs the file stored at `path`.
pub fn file_invocation(path: &str, platform: Platform) -> (invocation: Invocation)
    ensures
        invocation@ == file_invocation_of(path@, platform),
{
    match platform {
        Platform::Windows => {
            let mut expression = String::from_str("$ErrorActionPreference = 'Stop'; & '");
            expression.append(path);
            expression.append("'; exit $LASTEXITCODE");
            let flags = get_psh_arg(platform);
            Invocation {
                executor: String::from_str("powershell.exe"),
                args: owned_texts(&flags),
                expression,
            }
        },
        Platform::Posix => {
            let args: Vec<String> = Vec::new();
            assert(crate::process::command_exec::texts_of(args@) =~= Seq::<Seq<char>>::empty());
            Invocation {
                executor: String::from_str("bash"),
                args,
                expression: String::from_str(path),
            }
        },
    }
}

/// Turns what a file left behind when it ran into its result: as for a
/// command that is no check of a prerequisite.
pub fn manage_result(invoke_output: ProcessOutput) -> (r: Result<ExecutionResult, Error>)
    ensures
        r matches Ok(res) && res@ == managed(invoke_output, false) && res.status
            == classification(
            recorded_exit_code(invoke_output.code) as int,
            invoke_output.stderr@.len() == 0,
            false,
        ),
{
    let exit_code = match invoke_output.code {
        Some(c) => c,
        None => NO_EXIT_CODE,
    };
    let stdout = decode_output(invoke_output.stdout.as_slice());
    let stderr = decode_output(invoke_output.stderr.as_slice());
    let status = classify(exit_code, stderr.as_str(), false);
    Ok(ExecutionResult { stdout, stderr, status, exit_code })
}

/// The text of the error for a missing file executor.
pub open spec fn missing_file_executor_message(platform: Platform) -> Seq<char> {
    "Executor '"@ + file_executor(platform) + "' is not available."@
}

/// What running a downloaded file comes to, given what came of the attempt.
/// Without the executor nothing has run, and the result is an internal error
/// that names it; a file that could not be started, for whatever reason, is
/// an I/O error; a file that ran is classified.
pub open spec fn file_result(platform: Platform, outcome: RunOutcome) -> Result<
    ExecutionResultView,
    ErrorView,
> {
    match outcome {
        RunOutcome::ExecutorMissing => Err(
            ErrorView::Internal(missing_file_executor_message(platform)),
        ),
        RunOutcome::Ran(SpawnOutcome::Exited(output)) => Ok(managed(output, false)),
        RunOutcome::Ran(SpawnOutcome::PermissionDenied(message)) => Err(ErrorView::Io(message@)),
        RunOutcome::Ran(SpawnOutcome::Failed(detail)) => Err(ErrorView::Io(detail@)),
    }
}

/// The result of running a downloaded file, given what came of the attempt to run it.
pub fn file_execution(platform: Platform, outcome: RunOutcome) -> (r: Result<
    ExecutionResult,
    Error,
>)
    ensures
        outcome_view(r) == file_result(platform, outcome),
{
    match outcome {
        RunOutcome::ExecutorMissing => {
            let mut message = String::from_str("Executor '");
            match platform {
                Platform::Windows => message.append("powershell.exe"),
                Platform::Posix => message.append("bash"),
            }
            message.append("' is not available.");
            Err(Error::Internal(message))
        },
        RunOutcome::Ran(SpawnOutcome::Exited(output)) => manage_result(output),
        RunOutcome::Ran(SpawnOutcome::PermissionDenied(message)) => Err(Error::Io(message)),
        RunOutcome::Ran(SpawnOutcome::Failed(detail)) => Err(Error::Io(detail)),
    }
}

} // verus!
