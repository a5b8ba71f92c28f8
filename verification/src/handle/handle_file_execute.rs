use crate::api::manage_inject::InjectorContractPayload;
use crate::api::manage_reporting::NO_PROCESS_EXIT_CODE;
use crate::handle::handle_file::{
    download_report, handle_file, missing_document_report, request_file,
};
use crate::handle::handle_execution::{execution_code, execution_report, handle_execution_result};
use crate::handle::handle_file::file_action;
use crate::pipeline::{
    asks, at_stage, awaited_download, awaited_elapsed, conclude_download, done_with, elapsed_of,
    found, goes_on, handled, is_found, moved, no_report, one_report, reports_view, running,
    step_asking, step_on, step_running, Action, ActionView, Event, PipelineState, RunContext,
    Stage, Step, StepView,
};
use crate::process::command_exec::{Platform, RunOutcome};
use crate::process::file_exec::{
    file_execution, file_executor, file_invocation, file_invocation_of, file_result,
};
use vstd::prelude::*;
use vstd::string::StringExecFns;

verus! {

/// The path under which the awaited document was stored.
pub open spec fn awaited_path(event: Event) -> Seq<char> {
    match event {
        Event::Downloaded { file: Ok(file), elapsed } => file.path@,
        _ => Seq::empty(),
    }
}

/// The state in which the document of a payload that runs a file is
/// awaited, the executor of files having been found or not.
pub open spec fn fetching(state: PipelineState, present: bool) -> PipelineState {
    PipelineState { stage: Stage::FileFetch, index: 0, waiting: true, probed: present, ..state }
}

/// The step at a payload that runs a file. The executor of files is looked
/// for first, then the document is fetched, whether the executor is there or
/// not. A payload that names no document is reported as failed.
pub open spec fn file_execute_step(
    contract: InjectorContractPayload,
    context: RunContext,
    state: PipelineState,
    event: Event,
) -> StepView {
    match contract.executable_file {
        Some(document) => if state.waiting {
            StepView {
                state: fetching(state, found(event)),
                reports: Seq::empty(),
                action: ActionView::Download { document: document@, in_memory: false },
            }
        } else {
            asks(state, Seq::empty(), ActionView::Probe(file_executor(context.platform)))
        },
        None => goes_on(
            handled(state, NO_PROCESS_EXIT_CODE as int),
            seq![missing_document_report()],
        ),
    }
}

/// The step that takes up what the fetching of a file to run came to. It is
/// reported; a file that was fetched is run if the executor of files was
/// found, and is reported as one whose executor is missing if not.
pub open spec fn file_fetch_step(context: RunContext, state: PipelineState, event: Event) -> StepView {
    let failure = awaited_download(event);
    let report = download_report(failure, awaited_elapsed(event));
    if failure is Some {
        goes_on(handled(state, NO_PROCESS_EXIT_CODE as int), seq![report])
    } else if state.probed {
        StepView {
            state: running(at_stage(state, Stage::FileExecution, 0)),
            reports: seq![report],
            action: ActionView::Run(file_invocation_of(awaited_path(event), context.platform)),
        }
    } else {
        let missing = file_result(context.platform, RunOutcome::ExecutorMissing);
        goes_on(
            handled(state, execution_code(missing)),
            seq![report, execution_report(file_action(), missing, 0)],
        )
    }
}

/// Takes the step of a run that is at a payload that runs a file.
pub fn handle_file_execute(
    contract: &InjectorContractPayload,
    context: &RunContext,
    state: PipelineState,
    event: Event,
) -> (step: Step)
    ensures
        step@ == file_execute_step(*contract, *context, state, event),
{
    match request_file(&contract.executable_file) {
        Ok(document) => {
            if state.waiting {
                Step {
                    state: PipelineState {
                        stage: Stage::FileFetch,
                        index: 0,
                        waiting: true,
                        probed: is_found(&event),
                        failures: state.failures,
                        verdict: state.verdict,
                        exit_code: state.exit_code,
                    },
                    reports: no_report(),
                    action: Action::Download { document: document.clone(), in_memory: false },
                }
            } else {
                let executor = match context.platform {
                    Platform::Windows => "powershell.exe",
                    Platform::Posix => "bash",
                };
                step_asking(state, no_report(), Action::Probe(String::from_str(executor)))
            }
        },
        Err((report, _)) => step_on(done_with(state, NO_PROCESS_EXIT_CODE), one_report(report)),
    }
}

/// Takes the step of a run whose file to run was to be fetched.
pub fn handle_file_fetch(context: &RunContext, state: PipelineState, event: Event) -> (step: Step)
    ensures
        step@ == file_fetch_step(*context, state, event),
{
    let elapsed = elapsed_of(&event);
    let ghost stored = awaited_path(event);
    let (report, download) = handle_file(conclude_download(event), elapsed);
    match download {
        Ok(file) => {
            assert(file.path@ == stored);
            if state.probed {
                step_running(
                    moved(state, Stage::FileExecution, 0),
                    one_report(report),
                    file_invocation(file.path.as_str(), context.platform),
                )
            } else {
                let missing = file_execution(context.platform, RunOutcome::ExecutorMissing);
                let (failure, code) = handle_execution_result("file execution", missing, 0);
                let mut reports = one_report(report);
                let ghost before = reports_view(reports@);
                reports.push(failure);
                assert(reports_view(reports@) =~= before.push(failure@));
                assert(before.push(failure@) =~= seq![report@, failure@]);
                step_on(done_with(state, code), reports)
            }
        },
        Err(_) => step_on(done_with(state, NO_PROCESS_EXIT_CODE), one_report(report)),
    }
}

} // verus!
