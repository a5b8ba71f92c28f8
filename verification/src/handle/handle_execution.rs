use crate::api::manage_inject::{
    ExecutionMessage, ExecutionMessageView, UpdateInput, UpdateInputView,
};
use crate::api::manage_reporting::NO_PROCESS_EXIT_CODE;
use crate::error::{error_description, Error, ErrorView};
use crate::handle::{ExecutionOutput, ExecutionOutputView};
use crate::process::command_exec::{
    outcome_view, ExecutionResult, ExecutionResultView, ExecutionStatus,
};
use vstd::prelude::*;
use vstd::string::StringExecFns;

verus! {

/// The exit code that a stage hands on: that of its process, or
/// `NO_PROCESS_EXIT_CODE` where the execution itself failed.
pub open spec fn execution_code(result: Result<ExecutionResultView, ErrorView>) -> int {
    match result {
        Ok(res) => res.exit_code,
        Err(_) => NO_PROCESS_EXIT_CODE as int,
    }
}

/// The report of an execution. One that gave a result is reported with its
/// outputs, exit code and status; one that failed is reported as an error,
/// with the description of the failure on standard error.
pub open spec fn execution_report(
    semantic: Seq<char>,
    result: Result<ExecutionResultView, ErrorView>,
    elapsed: nat,
) -> UpdateInputView {
    match result {
        Ok(res) => UpdateInputView {
            execution_message: ExecutionMessageView::Output(
                ExecutionOutputView {
                    action: semantic,
                    stdout: res.stdout,
                    stderr: res.stderr,
                    exit_code: res.exit_code,
                },
            ),
            execution_status: res.status,
            execution_action: semantic,
            execution_duration: elapsed,
        },
        Err(e) => UpdateInputView {
            execution_message: ExecutionMessageView::Output(
                ExecutionOutputView {
                    action: semantic,
                    stdout: Seq::empty(),
                    stderr: error_description(e),
                    exit_code: NO_PROCESS_EXIT_CODE as int,
                },
            ),
            execution_status: ExecutionStatus::Error,
            execution_action: semantic,
            execution_duration: elapsed,
        },
    }
}

/// Turns the result of an execution into the report of the stage named
/// `semantic` and the exit code that the stage hands on.
pub fn handle_execution_result(
    semantic: &str,
    command_result: Result<ExecutionResult, Error>,
    elapsed: u128,
) -> (r: (UpdateInput, i32))
    ensures
        r.0@ == execution_report(semantic@, outcome_view(command_result), elapsed as nat),
        r.1 == execution_code(outcome_view(command_result)),
{
    match command_result {
        Ok(res) => {
            let code = res.exit_code;
            let message = ExecutionOutput {
                action: String::from_str(semantic),
                stdout: res.stdout,
                stderr: res.stderr,
                exit_code: code,
            };
            (
                UpdateInput {
                    execution_message: ExecutionMessage::Output(message),
                    execution_status: res.status,
                    execution_action: String::from_str(semantic),
                    execution_duration: elapsed,
                },
                code,
            )
        },
        Err(err) => {
            let message = ExecutionOutput {
                action: String::from_str(semantic),
                stdout: String::new(),
                stderr: err.describe(),
                exit_code: NO_PROCESS_EXIT_CODE,
            };
            (
                UpdateInput {
                    execution_message: ExecutionMessage::Output(message),
                    execution_status: ExecutionStatus::Error,
                    execution_action: String::from_str(semantic),
                    execution_duration: elapsed,
                },
                NO_PROCESS_EXIT_CODE,
            )
        },
    }
}

} // verus!
