use crate::api::manage_inject::InjectorContractPayload;
use crate::api::manage_reporting::NO_PROCESS_EXIT_CODE;
use crate::handle::handle_file::{
    download_report, handle_file, missing_document_report, request_file,
};
use crate::pipeline::{
    asks, awaited_download, awaited_elapsed, conclude_download, done_with, elapsed_of, goes_on,
    handled, no_report, one_report, step_asking, step_on, Action, ActionView, Event,
    PipelineState, Step, StepView,
};
use vstd::prelude::*;

verus! {

/// The step at a payload that drops a file. Its document is fetched and
/// stored; when that is done it is reported, and the payload is done with.
/// A payload that names no document is reported as failed.
pub open spec fn file_drop_step(
    contract: InjectorContractPayload,
    state: PipelineState,
    event: Event,
) -> StepView {
    if state.waiting {
        let failure = awaited_download(event);
        let report = download_report(failure, awaited_elapsed(event));
        if failure is None {
            goes_on(handled(state, 0), seq![report])
        } else {
            goes_on(handled(state, NO_PROCESS_EXIT_CODE as int), seq![report])
        }
    } else {
        match contract.file_drop_file {
            Some(document) => asks(
                state,
                Seq::empty(),
                ActionView::Download { document: document@, in_memory: false },
            ),
            None => goes_on(
                handled(state, NO_PROCESS_EXIT_CODE as int),
                seq![missing_document_report()],
            ),
        }
    }
}

/// Takes the step of a run that is at a payload that drops a file.
pub fn handle_file_drop(contract: &InjectorContractPayload, state: PipelineState, event: Event) -> (step:
    Step)
    ensures
        step@ == file_drop_step(*contract, state, event),
{
    if state.waiting {
        let elapsed = elapsed_of(&event);
        let (report, download) = handle_file(conclude_download(event), elapsed);
        return match download {
            Ok(_) => step_on(done_with(state, 0), one_report(report)),
            Err(_) => step_on(done_with(state, NO_PROCESS_EXIT_CODE), one_report(report)),
        };
    }
    match request_file(&contract.file_drop_file) {
        Ok(document) => step_asking(
            state,
            no_report(),
            Action::Download { document: document.clone(), in_memory: false },
        ),
        Err((report, _)) => step_on(done_with(state, NO_PROCESS_EXIT_CODE), one_report(report)),
    }
}

} // verus!
