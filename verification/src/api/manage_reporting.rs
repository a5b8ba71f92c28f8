use crate::api::manage_inject::{
    ExecutionMessage, ExecutionMessageView, UpdateInput, UpdateInputView,
};
use crate::handle::{ExecutionOutput, ExecutionOutputView};
use crate::process::command_exec::ExecutionStatus;
use vstd::prelude::*;
use vstd::string::StringExecFns;

verus! {

/// Exit code reported where no process stands behind a report, or where the
/// process could not be run.
pub const NO_PROCESS_EXIT_CODE: i32 = -1;

/// A text, or no text where there is none.
pub open spec fn text_or_empty(text: Option<String>) -> Seq<char> {
    match text {
        Some(t) => t@,
        None => Seq::empty(),
    }
}

/// The report of something that no process did, with the given status.
pub open spec fn plain_report(
    semantic: Seq<char>,
    stdout: Seq<char>,
    stderr: Seq<char>,
    status: ExecutionStatus,
    duration: nat,
) -> UpdateInputView {
    UpdateInputView {
        execution_message: ExecutionMessageView::Output(
            ExecutionOutputView {
                action: semantic,
                stdout: stdout,
                stderr: stderr,
                exit_code: NO_PROCESS_EXIT_CODE as int,
            },
        ),
        execution_status: status,
        execution_action: semantic,
        execution_duration: duration,
    }
}

/// The text, or an empty one where there is none.
fn or_empty(text: Option<String>) -> (r: String)
    ensures
        r@ == text_or_empty(text),
{
    match text {
        Some(t) => t,
        None => String::new(),
    }
}

/// The report that a stage succeeded without running a process.
pub fn report_success(semantic: &str, stdout: String, stderr: Option<String>, duration: u128) -> (report:
    UpdateInput)
    ensures
        report@ == plain_report(
            semantic@,
            stdout@,
            text_or_empty(stderr),
            ExecutionStatus::Success,
            duration as nat,
        ),
{
    let message = ExecutionOutput {
        action: String::from_str(semantic),
        stdout,
        stderr: or_empty(stderr),
        exit_code: NO_PROCESS_EXIT_CODE,
    };
    UpdateInput {
        execution_message: ExecutionMessage::Output(message),
        execution_status: ExecutionStatus::Success,
        execution_action: String::from_str(semantic),
        execution_duration: duration,
    }
}

/// The report that a stage failed without running a process.
pub fn report_error(semantic: &str, stdout: Option<String>, stderr: String, duration: u128) -> (report:
    UpdateInput)
    ensures
        report@ == plain_report(
            semantic@,
            text_or_empty(stdout),
            stderr@,
            ExecutionStatus::Error,
            duration as nat,
        ),
{
    let message = ExecutionOutput {
        action: String::from_str(semantic),
        stdout: or_empty(stdout),
        stderr,
        exit_code: NO_PROCESS_EXIT_CODE,
    };
    UpdateInput {
        execution_message: ExecutionMessage::Output(message),
        execution_status: ExecutionStatus::Error,
        execution_action: String::from_str(semantic),
        execution_duration: duration,
    }
}

} // verus!
