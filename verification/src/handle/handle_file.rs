use crate::api::manage_inject::{UpdateInput, UpdateInputView};
use crate::api::manage_reporting::{plain_report, report_error, report_success};
use crate::error::{error_description, Error, ErrorView};
use crate::handle::handle_execution::{execution_code, execution_report, handle_execution_result};
use crate::pipeline::{
    at_stage, awaited_elapsed, awaited_file, conclude_file, done_with, elapsed_of, goes_on,
    handled, moved, no_report, one_report, step_on, Event, PipelineState, RunContext, Stage,
    Step, StepView,
};
use crate::process::command_exec::ExecutionStatus;
use vstd::prelude::*;
use vstd::string::StringExecFns;

verus! {

/// A document that was fetched: the name that the controller gave it, and
/// the path under which it was stored.
#[derive(Debug)]
pub struct DownloadedFile {
    pub name: String,
    pub path: String,
}

/// The action under which the fetching of a document is reported.
pub open spec fn file_drop_action() -> Seq<char> {
    "file_drop"@
}

/// What is reported where a payload names no document to fetch.
pub open spec fn missing_document_message() -> Seq<char> {
    "Payload download fail, document not specified"@
}

/// What is reported where a document was fetched.
pub open spec fn downloaded_message() -> Seq<char> {
    "File downloaded with success"@
}

/// The report for a payload that names no document.
pub open spec fn missing_document_report() -> UpdateInputView {
    plain_report(
        file_drop_action(),
        Seq::empty(),
        missing_document_message(),
        ExecutionStatus::Error,
        0,
    )
}

/// The report of an attempt to fetch a document, which failed with the
/// given error or, with none, succeeded.
pub open spec fn download_report(failure: Option<ErrorView>, elapsed: nat) -> UpdateInputView {
    match failure {
        None => plain_report(
            file_drop_action(),
            downloaded_message(),
            Seq::empty(),
            ExecutionStatus::Success,
            elapsed,
        ),
        Some(e) => plain_report(
            file_drop_action(),
            Seq::empty(),
            error_description(e),
            ExecutionStatus::Error,
            elapsed,
        ),
    }
}

/// The error with which an attempt to fetch a document failed, if it did.
pub open spec fn download_failure(download: Result<DownloadedFile, Error>) -> Option<ErrorView> {
    match download {
        Ok(_) => None,
        Err(e) => Some(e@),
    }
}

/// The document that a payload asks for. Where it names none, the answer is
/// the report of that and the internal error that ends the stage.
pub fn request_file(file_target: &Option<String>) -> (r: Result<&String, (UpdateInput, Error)>)
    ensures
        match r {
            Ok(document) => *file_target == Some(*document),
            Err((report, e)) => *file_target is None && report@ == missing_document_report() && e@
                == ErrorView::Internal(missing_document_message()),
        },
{
    match file_target {
        Some(document) => Ok(document),
        None => {
            let report = report_error(
                "file_drop",
                None,
                String::from_str("Payload download fail, document not specified"),
                0,
            );
            Err((report, Error::internal("Payload download fail, document not specified")))
        },
    }
}

/// Turns the outcome of fetching a document into the report of it, and hands
/// the outcome on.
pub fn handle_file(download: Result<DownloadedFile, Error>, elapsed: u128) -> (r: (
    UpdateInput,
    Result<DownloadedFile, Error>,
))
    ensures
        r.0@ == download_report(download_failure(download), elapsed as nat),
        r.1 == download,
{
    match download {
        Ok(file) => {
            let report = report_success(
                "file_drop",
                String::from_str("File downloaded with success"),
                None,
                elapsed,
            );
            (report, Ok(file))
        },
        Err(err) => {
            let report = report_error("file_drop", None, err.describe(), elapsed);
            (report, Err(err))
        },
    }
}

/// The action under which the run of a fetched file is reported.
pub open spec fn file_action() -> Seq<char> {
    "file execution"@
}

/// The step that takes up what the run of a fetched file came to: the run
/// is reported, and its exit code is that of the whole run.
pub open spec fn execution_file_step(context: RunContext, state: PipelineState, event: Event) -> StepView {
    if state.waiting {
        let result = awaited_file(context, event);
        goes_on(
            handled(state, execution_code(result)),
            seq![execution_report(file_action(), result, awaited_elapsed(event))],
        )
    } else {
        goes_on(at_stage(state, Stage::Cleanup, 0), Seq::empty())
    }
}

/// Takes the step of a run whose fetched file has run.
pub fn handle_execution_file(context: &RunContext, state: PipelineState, event: Event) -> (step:
    Step)
    ensures
        step@ == execution_file_step(*context, state, event),
{
    if state.waiting {
        let elapsed = elapsed_of(&event);
        let result = conclude_file(context, event);
        let (report, code) = handle_execution_result("file execution", result, elapsed);
        step_on(done_with(state, code), one_report(report))
    } else {
        step_on(moved(state, Stage::Cleanup, 0), no_report())
    }
}

} // verus!
