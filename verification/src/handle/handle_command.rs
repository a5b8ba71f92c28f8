use crate::api::manage_inject::{InjectorContractPayload, UpdateInput};
use crate::api::manage_reporting::NO_PROCESS_EXIT_CODE;
use crate::error::{Error, ErrorView};
use crate::handle::handle_execution::{execution_code, execution_report, handle_execution_result};
use crate::pipeline::{
    conclude_command, done_with, elapsed_of, failure_report, found, goes_on, handled, is_found,
    no_report, one_report, plan_command, progress, pursued, step_asking, step_on, step_running,
    Action, ActionView, Event, PipelineState, Progress, RunContext, Step, StepView,
};
use crate::process::command_exec::{command_execution, RunOutcome};
use crate::resolver::location_token;
use crate::text::{chars_of, replace_all, replaced, text_of};
use vstd::prelude::*;

verus! {

/// Puts the working directory in the place of every `#{location}` of a command.
pub fn compute_command(command: &str, working_dir: &str) -> (computed: String)
    ensures
        computed@ == replaced(command@, location_token(), working_dir@),
{
    let text = chars_of(command);
    let pattern = chars_of("#{location}");
    let dir = chars_of(working_dir);
    let out = replace_all(&text, &pattern, &dir);
    text_of(&out)
}

/// How far the run of a command has come: a step that asks for more work,
/// or the report of the stage and the exit code that it hands on.
#[derive(Debug)]
pub enum Execution {
    Pending(Step),
    Done { report: UpdateInput, code: i32 },
}

/// Carries the run of a transport-encoded command of the contract one step
/// on, for the stage named `semantic`. The executor is looked for before the
/// process is run; a command that cannot be decoded, one whose executor is
/// not found and one that has run are done with, and reported.
pub fn handle_execution_command(
    semantic: &str,
    contract: &InjectorContractPayload,
    context: &RunContext,
    state: PipelineState,
    event: Event,
    command: &str,
    executor: &str,
    pre_check: bool,
) -> (execution: Execution)
    ensures
        match progress(*contract, *context, state, event, command@, executor@, pre_check) {
            Progress::Done(result, elapsed) => execution matches Execution::Done { report, code }
                && report@ == execution_report(semantic@, result, elapsed) && code
                == execution_code(result),
            other => execution matches Execution::Pending(step) && step@ == pursued(state, other),
        },
{
    if state.waiting && state.probed {
        let elapsed = elapsed_of(&event);
        let result = conclude_command(context, executor, event, pre_check);
        let (report, code) = handle_execution_result(semantic, result, elapsed);
        return Execution::Done { report, code };
    }
    if state.waiting && !is_found(&event) {
        let result = command_execution(
            executor,
            context.platform,
            RunOutcome::ExecutorMissing,
            pre_check,
        );
        let (report, code) = handle_execution_result(semantic, result, 0);
        return Execution::Done { report, code };
    }
    match plan_command(contract, context, command, executor) {
        Err(e) => {
            let (report, code) = handle_execution_result(semantic, Err(e), 0);
            Execution::Done { report, code }
        },
        Ok(invocation) => {
            if state.waiting {
                Execution::Pending(step_running(state, no_report(), invocation))
            } else {
                Execution::Pending(
                    step_asking(state, no_report(), Action::Probe(invocation.executor)),
                )
            }
        },
    }
}

/// The action under which the command of a payload is reported.
pub open spec fn command_action() -> Seq<char> {
    "implant execution"@
}

/// The error for a command payload that lacks its command or its executor.
pub open spec fn missing_command() -> ErrorView {
    ErrorView::Internal("Payload command not specified"@)
}

/// The step at a command payload. Its command is run with its executor;
/// when it is done with it is reported, and its exit code is that of the
/// run. A payload that lacks its command or its executor is reported as failed.
pub open spec fn command_step(
    contract: InjectorContractPayload,
    context: RunContext,
    state: PipelineState,
    event: Event,
) -> StepView {
    if contract.command_content is Some && contract.command_executor is Some {
        match progress(
            contract,
            context,
            state,
            event,
            contract.command_content->0@,
            contract.command_executor->0@,
            false,
        ) {
            Progress::Done(result, elapsed) => goes_on(
                handled(state, execution_code(result)),
                seq![execution_report(command_action(), result, elapsed)],
            ),
            other => pursued(state, other),
        }
    } else {
        goes_on(
            handled(state, NO_PROCESS_EXIT_CODE as int),
            seq![execution_report(command_action(), Err(missing_command()), 0)],
        )
    }
}

/// Takes the step of a run that is at a command payload.
pub fn handle_command(
    contract: &InjectorContractPayload,
    context: &RunContext,
    state: PipelineState,
    event: Event,
) -> (step: Step)
    ensures
        step@ == command_step(*contract, *context, state, event),
{
    match (&contract.command_content, &contract.command_executor) {
        (Some(content), Some(executor)) => {
            match handle_execution_command(
                "implant execution",
                contract,
                context,
                state,
                event,
                content.as_str(),
                executor.as_str(),
                false,
            ) {
                Execution::Pending(step) => step,
                Execution::Done { report, code } => step_on(
                    done_with(state, code),
                    one_report(report),
                ),
            }
        },
        _ => step_on(
            done_with(state, NO_PROCESS_EXIT_CODE),
            failure_report("implant execution", Error::internal("Payload command not specified")),
        ),
    }
}

/// The command of a payload is resolved before it is run, and its executor
/// is looked for before that: a run that begins a command payload whose
/// command decodes asks for the executor to be looked for; handed the word
/// that it is there, it asks for the process that the shell behind the
/// executor takes for the decoded command, resolved from the values of the
/// user, the defaults of the contract and the working directory. It sends no
/// report before the command is done with.
pub proof fn law_command_is_resolved_before_it_runs(
    contract: InjectorContractPayload,
    context: RunContext,
    state: PipelineState,
    event: Event,
)
    requires
        !state.probed,
        contract.command_content is Some,
        contract.command_executor is Some,
        crate::process::command_exec::command_decoding(contract.command_content->0@) is Some,
    ensures
        ({
            let step = command_step(contract, context, state, event);
            let command = crate::process::command_exec::command_decoding(
                contract.command_content->0@,
            )->0;
            let invocation = crate::process::command_exec::command_invocation(
                crate::resolver::resolution(
                    command,
                    context.user_values@,
                    crate::pipeline::arguments(contract),
                    context.working_dir@,
                ),
                contract.command_executor->0@,
                context.platform,
            );
            &&& !state.waiting ==> step.reports.len() == 0 && step.state
                == crate::pipeline::awaiting(state) && step.action == ActionView::Probe(
                invocation.executor,
            )
            &&& state.waiting && found(event) ==> step.reports.len() == 0 && step.state
                == crate::pipeline::running(state) && step.action == ActionView::Run(invocation)
            &&& state.waiting && !found(event) ==> step.reports.len() == 1 && step.action
                == ActionView::Continue
        }),
{
}

} // verus!
