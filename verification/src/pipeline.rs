//! The order in which a payload is handled.
//!
//! A run goes through its stages one decision at a time. `handle_payload`
//! takes the state of the run and what came of the work that the last step
//! asked for, and gives the next state, the reports to send and the work to
//! do next. The caller does that work (it runs a process, resolves a name,
//! fetches a document), sends the reports, and comes back with the outcome,
//! until it is told to stop. No process is asked for before its executor
//! was looked for and found.
//!
//! The documents that the arguments name are fetched first. Then each
//! prerequisite is checked, and installed where the check does not show it
//! to be there; the exit codes of the installations add up. If they add up
//! to zero the payload itself is handled, according to its kind. Then the
//! cleanup command is run, whatever came before, and the run ends with a
//! last report that says how it went.

use crate::api::manage_inject::{
    ExecutionMessage, ExecutionMessageView, InjectorContractPayload, PayloadArg,
    PayloadPrerequisite, UpdateInput, UpdateInputView,
};
use crate::api::manage_reporting::{text_or_empty, NO_PROCESS_EXIT_CODE};
use crate::error::{Error, ErrorView};
use crate::handle::handle_command::{
    command_step, handle_command, handle_execution_command, Execution,
};
use crate::handle::handle_dns_resolution::{
    dns_action, handle_dns_resolution, hostnames_of, resolution_step, resolution_view,
};
use crate::handle::handle_execution::{execution_code, execution_report, handle_execution_result};
use crate::handle::handle_file::{
    download_failure, execution_file_step, handle_execution_file, DownloadedFile,
};
use crate::handle::handle_file_drop::{file_drop_step, handle_file_drop};
use crate::handle::handle_file_execute::{
    awaited_path, file_execute_step, file_fetch_step, handle_file_execute, handle_file_fetch,
};
use crate::process::command_exec::{
    command_decoding, command_decoding_failure, command_execution, command_invocation,
    command_result, decode_command, format_command, outcome_view, ExecutionResult,
    ExecutionResultView, ExecutionStatus, Invocation, InvocationView, Platform, RunOutcome,
    SpawnOutcome,
};
use crate::process::file_exec::{file_execution, file_result};
use crate::resolver::{resolution, resolve, UserValue};
use crate::text::same;
use vstd::prelude::*;
use vstd::string::StringExecFns;

verus! {

/// Exit code of a run whose payload was not handled at all: a prerequisite
/// failed, or the kind of the payload is not known.
pub const SHORT_CIRCUIT_EXIT_CODE: i32 = -1;

/// What a run is given besides the contract: the platform it runs on, the
/// directory that stands for `#{location}`, and the values of the user.
#[derive(Debug)]
pub struct RunContext {
    pub platform: Platform,
    pub working_dir: String,
    pub user_values: Vec<UserValue>,
}

/// The stages of a run, in the order in which they are gone through.
#[derive(Debug, Clone, Copy, PartialEq, Eq, Structural)]
pub enum Stage {
    Start,
    Documents,
    PrerequisiteCheck,
    PrerequisiteInstall,
    MainDispatch,
    Resolution,
    FileFetch,
    FileExecution,
    Cleanup,
    Reported,
    End,
}

/// How a run went, as its last report says it.
#[derive(Debug, Clone, Copy, PartialEq, Eq, Structural)]
pub enum Verdict {
    Completed,
    DependenciesFailed,
    Unsupported,
}

/// The kinds of payload.
#[derive(Debug, Clone, Copy, PartialEq, Eq, Structural)]
pub enum PayloadKind {
    Command,
    DnsResolution,
    Executable,
    FileDrop,
    Unsupported,
}

/// Where a run stands: the stage, the item of the stage that is at hand (an
/// argument, a prerequisite, a host name), whether the outcome of work is
/// awaited, whether the executor of the stage was found, the sum of the
/// exit codes of the installations so far, how the run went, and the exit
/// code that the run will end with.
#[derive(Debug, Clone, Copy, PartialEq, Eq, Structural)]
pub struct PipelineState {
    pub stage: Stage,
    pub index: usize,
    pub waiting: bool,
    pub probed: bool,
    pub failures: i128,
    pub verdict: Verdict,
    pub exit_code: i32,
}

/// What came of the work that the last step asked for.
#[derive(Debug)]
pub enum Event {
    /// The last step asked for nothing.
    Resume,
    /// An executor was to be looked for; it is there or it is not.
    Probed { present: bool },
    /// A process was to be run; this is what came of it, and how many
    /// milliseconds it took.
    Ran { outcome: SpawnOutcome, elapsed: u128 },
    /// A name was to be resolved; these are its addresses, or the reason
    /// why it has none.
    Resolved { addresses: Result<Vec<String>, String> },
    /// A document was to be fetched; this is what came of it, and how many
    /// milliseconds it took.
    Downloaded { file: Result<DownloadedFile, Error>, elapsed: u128 },
}

/// The work that a step asks for.
#[derive(Debug)]
pub enum Action {
    /// Nothing is to be done; the run goes on at once.
    Continue,
    /// The executor of this name is to be looked for.
    Probe(String),
    /// The process is to be run.
    Run(Invocation),
    /// The name, given with a port, is to be resolved.
    Resolve(String),
    /// The document is to be fetched.
    Download { document: String, in_memory: bool },
    /// The run is over; the agent leaves with the exit code.
    Stop { exit_code: i32 },
}

/// An action as plain text.
pub enum ActionView {
    Continue,
    Probe(Seq<char>),
    Run(InvocationView),
    Resolve(Seq<char>),
    Download { document: Seq<char>, in_memory: bool },
    Stop { exit_code: int },
}

impl View for Action {
    type V = ActionView;

    open spec fn view(&self) -> ActionView {
        match *self {
            Action::Continue => ActionView::Continue,
            Action::Probe(executor) => ActionView::Probe(executor@),
            Action::Run(invocation) => ActionView::Run(invocation@),
            Action::Resolve(target) => ActionView::Resolve(target@),
            Action::Download { document, in_memory } => ActionView::Download {
                document: document@,
                in_memory,
            },
            Action::Stop { exit_code } => ActionView::Stop { exit_code: exit_code as int },
        }
    }
}

/// One step of a run: the state after it, the reports to send, in order,
/// and the work to do next.
#[derive(Debug)]
pub struct Step {
    pub state: PipelineState,
    pub reports: Vec<UpdateInput>,
    pub action: Action,
}

/// A step as plain text.
pub struct StepView {
    pub state: PipelineState,
    pub reports: Seq<UpdateInputView>,
    pub action: ActionView,
}

/// Reports as plain text.
pub open spec fn reports_view(reports: Seq<UpdateInput>) -> Seq<UpdateInputView> {
    reports.map_values(|r: UpdateInput| r@)
}

impl View for Step {
    type V = StepView;

    open spec fn view(&self) -> StepView {
        StepView { state: self.state, reports: reports_view(self.reports@), action: self.action@ }
    }
}

/// The state in which every run begins.
pub open spec fn initial_state() -> PipelineState {
    PipelineState {
        stage: Stage::Start,
        index: 0,
        waiting: false,
        probed: false,
        failures: 0,
        verdict: Verdict::Completed,
        exit_code: 0,
    }
}

/// The arguments of a contract.
pub open spec fn arguments(contract: InjectorContractPayload) -> Seq<PayloadArg> {
    match contract.payload_arguments {
        Some(list) => list@,
        None => Seq::empty(),
    }
}

/// The prerequisites of a contract.
pub open spec fn prerequisites(contract: InjectorContractPayload) -> Seq<PayloadPrerequisite> {
    match contract.payload_prerequisites {
        Some(list) => list@,
        None => Seq::empty(),
    }
}

/// The kind that the type of a payload names.
pub open spec fn kind_of(payload_type: Seq<char>) -> PayloadKind {
    if payload_type == "Command"@ {
        PayloadKind::Command
    } else if payload_type == "DnsResolution"@ {
        PayloadKind::DnsResolution
    } else if payload_type == "Executable"@ {
        PayloadKind::Executable
    } else if payload_type == "FileDrop"@ {
        PayloadKind::FileDrop
    } else {
        PayloadKind::Unsupported
    }
}

/// An argument names a document to fetch.
pub open spec fn is_document(argument: PayloadArg) -> bool {
    argument.arg_type@ == "document"@ && argument.default_value is Some
}

/// A command is there to be run: it is given and not empty.
pub open spec fn is_given(command: Option<String>) -> bool {
    command is Some && command->0@.len() > 0
}

/// The process that runs a transport-encoded command of the contract: the
/// command is decoded, its placeholders are resolved from the values of the
/// user, the defaults of the contract and the working directory, and the
/// result is put in the form that the shell behind `executor` takes. A
/// command that cannot be decoded is an internal error.
pub open spec fn planned(
    contract: InjectorContractPayload,
    context: RunContext,
    encoded: Seq<char>,
    executor: Seq<char>,
) -> Result<InvocationView, ErrorView> {
    match command_decoding(encoded) {
        Some(text) => Ok(
            command_invocation(
                resolution(
                    text,
                    context.user_values@,
                    arguments(contract),
                    context.working_dir@,
                ),
                executor,
                context.platform,
            ),
        ),
        None => Err(ErrorView::Internal(command_decoding_failure(encoded))),
    }
}

/// The error for work whose outcome was awaited and did not come.
pub open spec fn unreported() -> ErrorView {
    ErrorView::Internal("The outcome of the work was not reported"@)
}

/// What came of a command that was run with the shell behind `executor`.
pub open spec fn awaited_command(
    context: RunContext,
    executor: Seq<char>,
    event: Event,
    pre_check: bool,
) -> Result<ExecutionResultView, ErrorView> {
    match event {
        Event::Ran { outcome, elapsed } => command_result(
            executor,
            context.platform,
            RunOutcome::Ran(outcome),
            pre_check,
        ),
        _ => Err(unreported()),
    }
}

/// What came of a file that was run.
pub open spec fn awaited_file(context: RunContext, event: Event) -> Result<
    ExecutionResultView,
    ErrorView,
> {
    match event {
        Event::Ran { outcome, elapsed } => file_result(context.platform, RunOutcome::Ran(outcome)),
        _ => Err(unreported()),
    }
}

/// The milliseconds that the awaited work took.
pub open spec fn awaited_elapsed(event: Event) -> nat {
    match event {
        Event::Ran { outcome, elapsed } => elapsed as nat,
        Event::Downloaded { file, elapsed } => elapsed as nat,
        _ => 0,
    }
}

/// The error with which the awaited download failed, if it did.
pub open spec fn awaited_download(event: Event) -> Option<ErrorView> {
    match event {
        Event::Downloaded { file, elapsed } => download_failure(file),
        _ => Some(unreported()),
    }
}

/// What the resolver said of the awaited name.
pub open spec fn awaited_resolution(event: Event) -> Result<Seq<Seq<char>>, Seq<char>> {
    match event {
        Event::Resolved { addresses } => resolution_view(addresses),
        _ => Err("The outcome of the work was not reported"@),
    }
}

/// The check of a prerequisite shows that it is there: the check ran and
/// came out as a success or as a warning.
pub open spec fn satisfied(result: Result<ExecutionResultView, ErrorView>) -> bool {
    result matches Ok(res) && (res.status == ExecutionStatus::Success || res.status
        == ExecutionStatus::Warning)
}

/// The sum of the exit codes of the installations, kept within the range of the counter.
pub open spec fn accumulated(failures: int, code: int) -> int {
    if failures + code > i128::MAX {
        i128::MAX as int
    } else if failures + code < i128::MIN {
        i128::MIN as int
    } else {
        failures + code
    }
}

/// The action under which the last report of a run, and the report of a
/// payload of unknown kind, are made.
pub open spec fn complete_action() -> Seq<char> {
    "complete"@
}

/// The sentence with which the last report says how the run went.
pub open spec fn verdict_message(verdict: Verdict) -> Seq<char> {
    match verdict {
        Verdict::Completed => "Payload completed"@,
        Verdict::DependenciesFailed => "Payload execution not executed due to dependencies failure."@,
        Verdict::Unsupported => "Payload execution type not supported."@,
    }
}

/// The status of the last report.
pub open spec fn verdict_status(verdict: Verdict) -> ExecutionStatus {
    match verdict {
        Verdict::Completed => ExecutionStatus::Info,
        _ => ExecutionStatus::Error,
    }
}

/// The last report of a run.
pub open spec fn final_report(verdict: Verdict, clock: nat) -> UpdateInputView {
    UpdateInputView {
        execution_message: ExecutionMessageView::Text(verdict_message(verdict)),
        execution_status: verdict_status(verdict),
        execution_action: complete_action(),
        execution_duration: clock,
    }
}

/// The report for a payload whose kind is not known.
pub open spec fn unsupported_report(clock: nat) -> UpdateInputView {
    UpdateInputView {
        execution_message: ExecutionMessageView::Text(verdict_message(Verdict::Unsupported)),
        execution_status: ExecutionStatus::Error,
        execution_action: complete_action(),
        execution_duration: clock,
    }
}

/// The state at the beginning of a stage, or of the next item of a stage.
pub open spec fn at_stage(state: PipelineState, stage: Stage, index: int) -> PipelineState {
    PipelineState { stage, index: index as usize, waiting: false, probed: false, ..state }
}

/// The state in which the outcome of work is awaited that is no run of a process.
pub open spec fn awaiting(state: PipelineState) -> PipelineState {
    PipelineState { waiting: true, probed: false, ..state }
}

/// The state in which the outcome of a process is awaited, its executor having been found.
pub open spec fn running(state: PipelineState) -> PipelineState {
    PipelineState { waiting: true, probed: true, ..state }
}

/// The caller says that the executor it was to look for is there.
pub open spec fn found(event: Event) -> bool {
    event matches Event::Probed { present } && present
}

/// How far the run of a command has come: its executor is to be looked for,
/// the process is to be run, or the command is done with, with its result and
/// the milliseconds it took.
pub enum Progress {
    Probes(Seq<char>),
    Runs(InvocationView),
    Done(Result<ExecutionResultView, ErrorView>, nat),
}

/// How far the run of a transport-encoded command of the contract has come.
/// A command that cannot be decoded is done with before anything is asked
/// for. Else the executor is looked for first; where it is not found the
/// command is done with, as one whose executor is missing; where it is found
/// the process is run, and when its outcome is there the command is done with.
pub open spec fn progress(
    contract: InjectorContractPayload,
    context: RunContext,
    state: PipelineState,
    event: Event,
    encoded: Seq<char>,
    executor: Seq<char>,
    pre_check: bool,
) -> Progress {
    if state.waiting && state.probed {
        Progress::Done(
            awaited_command(context, executor, event, pre_check),
            awaited_elapsed(event),
        )
    } else if state.waiting && !found(event) {
        Progress::Done(
            command_result(executor, context.platform, RunOutcome::ExecutorMissing, pre_check),
            0,
        )
    } else {
        match planned(contract, context, encoded, executor) {
            Err(e) => Progress::Done(Err(e), 0),
            Ok(invocation) => if state.waiting {
                Progress::Runs(invocation)
            } else {
                Progress::Probes(invocation.executor)
            },
        }
    }
}

/// The step of a run whose command is not done with yet.
pub open spec fn pursued(state: PipelineState, progress: Progress) -> StepView {
    match progress {
        Progress::Runs(invocation) => StepView {
            state: running(state),
            reports: Seq::empty(),
            action: ActionView::Run(invocation),
        },
        Progress::Probes(executor) => StepView {
            state: awaiting(state),
            reports: Seq::empty(),
            action: ActionView::Probe(executor),
        },
        Progress::Done(_, _) => StepView {
            state,
            reports: Seq::empty(),
            action: ActionView::Continue,
        },
    }
}

/// A step that asks for nothing.
pub open spec fn goes_on(state: PipelineState, reports: Seq<UpdateInputView>) -> StepView {
    StepView { state, reports, action: ActionView::Continue }
}

/// A step that asks for work.
pub open spec fn asks(state: PipelineState, reports: Seq<UpdateInputView>, action: ActionView) -> StepView {
    StepView { state: awaiting(state), reports, action }
}

/// The step at the stage of the documents: an argument that names a
/// document has it fetched, whatever comes of that; every other is passed over.
pub open spec fn documents_step(contract: InjectorContractPayload, state: PipelineState) -> StepView {
    let list = arguments(contract);
    if state.index >= list.len() {
        goes_on(at_stage(state, Stage::PrerequisiteCheck, 0), Seq::empty())
    } else if !state.waiting && is_document(list[state.index as int]) {
        asks(
            state,
            Seq::empty(),
            ActionView::Download {
                document: list[state.index as int].default_value->0@,
                in_memory: false,
            },
        )
    } else {
        goes_on(at_stage(state, Stage::Documents, state.index + 1), Seq::empty())
    }
}

/// The action under which the check of a prerequisite is reported.
pub open spec fn check_action() -> Seq<char> {
    "prerequisite_check"@
}

/// The action under which the installation of a prerequisite is reported.
pub open spec fn install_action() -> Seq<char> {
    "prerequisite_execution"@
}

/// The action under which the cleanup is reported.
pub open spec fn cleanup_action() -> Seq<char> {
    "cleanup_execution"@
}

/// The step at the check of a prerequisite. A prerequisite with a check has
/// it run, as a check; one without goes on to its installation. When the
/// check is done with it is reported; a prerequisite that it shows to be
/// there is done with too, every other goes on to its installation.
pub open spec fn check_step(
    contract: InjectorContractPayload,
    context: RunContext,
    state: PipelineState,
    event: Event,
) -> StepView {
    let list = prerequisites(contract);
    if state.index >= list.len() {
        goes_on(at_stage(state, Stage::MainDispatch, 0), Seq::empty())
    } else {
        let item = list[state.index as int];
        let install = at_stage(state, Stage::PrerequisiteInstall, state.index as int);
        if is_given(item.check_command) {
            match progress(
                contract,
                context,
                state,
                event,
                item.check_command->0@,
                item.executor@,
                true,
            ) {
                Progress::Done(result, elapsed) => {
                    let report = execution_report(check_action(), result, elapsed);
                    if satisfied(result) {
                        goes_on(
                            at_stage(state, Stage::PrerequisiteCheck, state.index + 1),
                            seq![report],
                        )
                    } else {
                        goes_on(install, seq![report])
                    }
                },
                other => pursued(state, other),
            }
        } else {
            goes_on(install, Seq::empty())
        }
    }
}

/// The step at the installation of a prerequisite: the installation is
/// run, and when it is done with it is reported and its exit code is added
/// to the sum.
pub open spec fn install_step(
    contract: InjectorContractPayload,
    context: RunContext,
    state: PipelineState,
    event: Event,
) -> StepView {
    let list = prerequisites(contract);
    if state.index >= list.len() {
        goes_on(at_stage(state, Stage::MainDispatch, 0), Seq::empty())
    } else {
        let item = list[state.index as int];
        let next = at_stage(state, Stage::PrerequisiteCheck, state.index + 1);
        match progress(contract, context, state, event, item.get_command@, item.executor@, false) {
            Progress::Done(result, elapsed) => goes_on(
                PipelineState {
                    failures: accumulated(state.failures as int, execution_code(result)) as i128,
                    ..next
                },
                seq![execution_report(install_action(), result, elapsed)],
            ),
            other => pursued(state, other),
        }
    }
}

/// The state at the cleanup, the payload having been handled with the given exit code.
pub open spec fn handled(state: PipelineState, exit_code: int) -> PipelineState {
    PipelineState { exit_code: exit_code as i32, ..at_stage(state, Stage::Cleanup, 0) }
}

/// The state at the cleanup, the payload not having been handled.
pub open spec fn short_circuited(state: PipelineState, verdict: Verdict) -> PipelineState {
    PipelineState { verdict, exit_code: SHORT_CIRCUIT_EXIT_CODE, ..at_stage(state, Stage::Cleanup, 0) }
}

/// The error for a resolution payload that lacks its host names.
pub open spec fn missing_hostname() -> ErrorView {
    ErrorView::Internal("Payload hostname not specified"@)
}

/// The error for a cleanup command that lacks its executor.
pub open spec fn missing_cleanup_executor() -> ErrorView {
    ErrorView::Internal("Payload cleanup executor not specified"@)
}

/// The step at the payload itself. After a failed prerequisite the payload
/// is not handled. Else it is handled according to its kind: a command is
/// run; host names go on to be resolved one by one; the document of a file
/// payload is fetched, and run where it is an executable; a payload of
/// unknown kind is reported as not supported.
pub open spec fn dispatch_step(
    contract: InjectorContractPayload,
    context: RunContext,
    state: PipelineState,
    event: Event,
    clock: nat,
) -> StepView {
    if !state.waiting && state.failures != 0 {
        goes_on(short_circuited(state, Verdict::DependenciesFailed), Seq::empty())
    } else {
        match kind_of(contract.payload_type@) {
            PayloadKind::Command => command_step(contract, context, state, event),
            PayloadKind::Executable => file_execute_step(contract, context, state, event),
            PayloadKind::FileDrop => file_drop_step(contract, state, event),
            PayloadKind::DnsResolution => {
                if state.waiting {
                    goes_on(at_stage(state, Stage::Cleanup, 0), Seq::empty())
                } else if contract.dns_resolution_hostname is Some {
                    goes_on(at_stage(state, Stage::Resolution, 0), Seq::empty())
                } else {
                    goes_on(
                        handled(state, NO_PROCESS_EXIT_CODE as int),
                        seq![execution_report(dns_action(), Err(missing_hostname()), 0)],
                    )
                }
            },
            PayloadKind::Unsupported => {
                if state.waiting {
                    goes_on(at_stage(state, Stage::Cleanup, 0), Seq::empty())
                } else {
                    goes_on(
                        short_circuited(state, Verdict::Unsupported),
                        seq![unsupported_report(clock)],
                    )
                }
            },
        }
    }
}

/// The step that ends a run, after the given reports: the last report is
/// made and the caller is told to stop.
pub open spec fn ends(state: PipelineState, reports: Seq<UpdateInputView>, clock: nat) -> StepView {
    StepView {
        state: at_stage(state, Stage::Reported, 0),
        reports: reports.push(final_report(state.verdict, clock)),
        action: ActionView::Stop { exit_code: state.exit_code as int },
    }
}

/// The step at the cleanup. A cleanup command that is given is run, however
/// the run went, and reported when it is done with; then, or at once where
/// there is none, the run ends. A cleanup that lacks its executor is
/// reported as failed.
pub open spec fn cleanup_step(
    contract: InjectorContractPayload,
    context: RunContext,
    state: PipelineState,
    event: Event,
    clock: nat,
) -> StepView {
    if !is_given(contract.payload_cleanup_command) {
        ends(state, Seq::empty(), clock)
    } else if contract.payload_cleanup_executor is None {
        ends(
            state,
            seq![execution_report(cleanup_action(), Err(missing_cleanup_executor()), 0)],
            clock,
        )
    } else {
        match progress(
            contract,
            context,
            state,
            event,
            contract.payload_cleanup_command->0@,
            contract.payload_cleanup_executor->0@,
            false,
        ) {
            Progress::Done(result, elapsed) => ends(
                state,
                seq![execution_report(cleanup_action(), result, elapsed)],
                clock,
            ),
            other => pursued(state, other),
        }
    }
}

/// The step of a run that is in `state` and is handed `event`, `clock`
/// milliseconds after it began.
pub open spec fn step_of(
    contract: InjectorContractPayload,
    context: RunContext,
    state: PipelineState,
    event: Event,
    clock: nat,
) -> StepView {
    match state.stage {
        Stage::Start => goes_on(at_stage(state, Stage::Documents, 0), Seq::empty()),
        Stage::Documents => documents_step(contract, state),
        Stage::PrerequisiteCheck => check_step(contract, context, state, event),
        Stage::PrerequisiteInstall => install_step(contract, context, state, event),
        Stage::MainDispatch => dispatch_step(contract, context, state, event, clock),
        Stage::Resolution => resolution_step(contract, state, event),
        Stage::FileFetch => file_fetch_step(context, state, event),
        Stage::FileExecution => execution_file_step(context, state, event),
        Stage::Cleanup => cleanup_step(contract, context, state, event, clock),
        _ => StepView {
            state: at_stage(state, Stage::End, 0),
            reports: Seq::empty(),
            action: ActionView::Stop { exit_code: state.exit_code as int },
        },
    }
}


/// The number of items of a list that are left from `index` on.
pub open spec fn left_of(len: nat, index: usize) -> nat {
    if index < len {
        (len - index) as nat
    } else {
        0
    }
}

/// How far the work of a stage has come: nothing is awaited, something but
/// the outcome of a process is awaited, or the outcome of a process is.
pub open spec fn level(state: PipelineState) -> nat {
    if !state.waiting {
        0
    } else if !state.probed {
        1
    } else {
        2
    }
}

/// A bound on the number of steps that a run in `state` still takes.
pub open spec fn remaining(contract: InjectorContractPayload, state: PipelineState) -> nat {
    let names = hostnames_of(text_or_empty(contract.dns_resolution_hostname)).len();
    let main = 9 + 2 * names;
    let checks = main + 6 * prerequisites(contract).len() + 6;
    match state.stage {
        Stage::End => 0,
        Stage::Reported => 1,
        Stage::Cleanup => (4 - level(state)) as nat,
        Stage::FileExecution => 5,
        Stage::FileFetch => 6,
        Stage::Resolution => if state.waiting {
            5 + 2 * left_of(names, state.index)
        } else {
            6 + 2 * left_of(names, state.index)
        },
        Stage::MainDispatch => if state.waiting {
            (9 - level(state)) as nat
        } else {
            main
        },
        Stage::PrerequisiteInstall => (main + 6 * left_of(
            prerequisites(contract).len(),
            state.index,
        ) + 3 - level(state)) as nat,
        Stage::PrerequisiteCheck => (main + 6 * left_of(
            prerequisites(contract).len(),
            state.index,
        ) + 6 - level(state)) as nat,
        Stage::Documents => if state.waiting {
            checks + 2 * left_of(arguments(contract).len(), state.index) + 1
        } else {
            checks + 2 * left_of(arguments(contract).len(), state.index) + 2
        },
        Stage::Start => checks + 2 * arguments(contract).len() + 3,
    }
}

/// The lists of a contract are no longer than a list can be.
proof fn lemma_lists_fit(contract: InjectorContractPayload)
    ensures
        arguments(contract).len() <= usize::MAX,
        prerequisites(contract).len() <= usize::MAX,
{
    if contract.payload_arguments is Some {
        vstd::std_specs::vec::axiom_spec_len(&contract.payload_arguments->0);
    }
    if contract.payload_prerequisites is Some {
        vstd::std_specs::vec::axiom_spec_len(&contract.payload_prerequisites->0);
    }
}

/// A step at the documents brings the run nearer to its end.
proof fn lemma_documents_progress(contract: InjectorContractPayload, state: PipelineState)
    requires
        state.stage == Stage::Documents,
    ensures
        remaining(contract, documents_step(contract, state).state) < remaining(contract, state),
{
    lemma_lists_fit(contract);
}

/// A step at the check of a prerequisite brings the run nearer to its end.
proof fn lemma_check_progress(
    contract: InjectorContractPayload,
    context: RunContext,
    state: PipelineState,
    event: Event,
)
    requires
        state.stage == Stage::PrerequisiteCheck,
    ensures
        remaining(contract, check_step(contract, context, state, event).state) < remaining(
            contract,
            state,
        ),
{
    lemma_lists_fit(contract);
}

/// A step at the installation of a prerequisite brings the run nearer to its end.
proof fn lemma_install_progress(
    contract: InjectorContractPayload,
    context: RunContext,
    state: PipelineState,
    event: Event,
)
    requires
        state.stage == Stage::PrerequisiteInstall,
    ensures
        remaining(contract, install_step(contract, context, state, event).state) < remaining(
            contract,
            state,
        ),
{
    lemma_lists_fit(contract);
}

/// A step at the payload itself brings the run nearer to its end.
proof fn lemma_dispatch_progress(
    contract: InjectorContractPayload,
    context: RunContext,
    state: PipelineState,
    event: Event,
    clock: nat,
)
    requires
        state.stage == Stage::MainDispatch,
    ensures
        remaining(contract, dispatch_step(contract, context, state, event, clock).state)
            < remaining(contract, state),
{
    match kind_of(contract.payload_type@) {
        PayloadKind::Command => {
            assert(remaining(contract, command_step(contract, context, state, event).state)
                < remaining(contract, state));
        },
        PayloadKind::Executable => {
            assert(remaining(contract, file_execute_step(contract, context, state, event).state)
                < remaining(contract, state));
        },
        PayloadKind::FileDrop => {
            assert(remaining(contract, file_drop_step(contract, state, event).state) < remaining(
                contract,
                state,
            ));
        },
        _ => {},
    }
}

/// A step at the resolution of host names brings the run nearer to its end.
proof fn lemma_resolution_progress(
    contract: InjectorContractPayload,
    state: PipelineState,
    event: Event,
)
    requires
        state.stage == Stage::Resolution,
        hostnames_of(text_or_empty(contract.dns_resolution_hostname)).len() <= usize::MAX,
    ensures
        remaining(contract, resolution_step(contract, state, event).state) < remaining(
            contract,
            state,
        ),
{
}

/// A step at the cleanup brings the run nearer to its end.
proof fn lemma_cleanup_progress(
    contract: InjectorContractPayload,
    context: RunContext,
    state: PipelineState,
    event: Event,
    clock: nat,
)
    requires
        state.stage == Stage::Cleanup,
    ensures
        remaining(contract, cleanup_step(contract, context, state, event, clock).state)
            < remaining(contract, state),
{
}

/// Every step brings a run nearer to its end: whatever the caller hands
/// in, a run that has not ended has fewer steps left after a step than
/// before it. So every run ends. (The list of host names is one that fits
/// in memory.)
pub proof fn law_run_makes_progress(
    contract: InjectorContractPayload,
    context: RunContext,
    state: PipelineState,
    event: Event,
    clock: nat,
)
    requires
        state.stage != Stage::End,
        hostnames_of(text_or_empty(contract.dns_resolution_hostname)).len() <= usize::MAX,
    ensures
        remaining(contract, step_of(contract, context, state, event, clock).state) < remaining(
            contract,
            state,
        ),
{
    match state.stage {
        Stage::Documents => lemma_documents_progress(contract, state),
        Stage::PrerequisiteCheck => lemma_check_progress(contract, context, state, event),
        Stage::PrerequisiteInstall => lemma_install_progress(contract, context, state, event),
        Stage::MainDispatch => lemma_dispatch_progress(contract, context, state, event, clock),
        Stage::Resolution => lemma_resolution_progress(contract, state, event),
        Stage::Cleanup => lemma_cleanup_progress(contract, context, state, event, clock),
        _ => {},
    }
}

/// No process is run before its executor was looked for and found. A step
/// asks for a process only when it is handed the word that the executor is
/// there, or, for a file that was fetched, when the run remembers that word;
/// and a run remembers it only from the step that was handed it. A step that
/// is handed the word that the executor is missing asks for no process.
pub proof fn law_executor_is_found_before_every_run(
    contract: InjectorContractPayload,
    context: RunContext,
    state: PipelineState,
    event: Event,
    clock: nat,
)
    ensures
        ({
            let step = step_of(contract, context, state, event, clock);
            &&& step.action is Run ==> (state.waiting && !state.probed && found(event)) || (
            state.stage == Stage::FileFetch && state.probed)
            &&& step.state.probed ==> step.state.waiting && (found(event) || state.probed)
            &&& step.action is Run ==> step.state.probed
        }),
{
    match state.stage {
        Stage::MainDispatch => {
            match kind_of(contract.payload_type@) {
                PayloadKind::Command => {
                    assert(command_step(contract, context, state, event).state.probed ==> found(
                        event,
                    ));
                },
                PayloadKind::Executable => {
                    assert(file_execute_step(contract, context, state, event).state.probed
                        ==> found(event));
                },
                _ => {},
            }
        },
        _ => {},
    }
}

/// No run ends unreported. A step tells the caller to stop exactly when it
/// leaves the run reported or ended; a run becomes reported only from its
/// cleanup, and the step that makes it so sends the last report behind every
/// other, with the action `complete`, the time since the run began and the
/// status of the run: an error where the payload was not handled, else a
/// plain notice. And a run ends only once it is reported.
pub proof fn law_every_run_is_reported(
    contract: InjectorContractPayload,
    context: RunContext,
    state: PipelineState,
    event: Event,
    clock: nat,
)
    ensures
        ({
            let step = step_of(contract, context, state, event, clock);
            &&& step.action is Stop <==> (step.state.stage == Stage::Reported || step.state.stage
                == Stage::End)
            &&& step.state.stage == Stage::Reported ==> state.stage == Stage::Cleanup
                && step.reports.len() > 0 && step.reports.last() == final_report(
                state.verdict,
                clock,
            ) && step.action == (ActionView::Stop { exit_code: state.exit_code as int })
            &&& step.state.stage == Stage::End ==> (state.stage == Stage::Reported || state.stage
                == Stage::End) && step.reports.len() == 0
            &&& final_report(state.verdict, clock).execution_action == complete_action()
            &&& final_report(state.verdict, clock).execution_status == (if state.verdict
                == Verdict::Completed {
                ExecutionStatus::Info
            } else {
                ExecutionStatus::Error
            })
        }),
{
}

/// The work of a stage that awaits the outcome of a process, or of the
/// fetching of a payload's document, is reported as soon as the outcome is
/// there: the step that takes it up sends, first of all, the report of that
/// stage, under the action of the stage and with the time that the work took.
pub proof fn law_every_outcome_is_reported(
    contract: InjectorContractPayload,
    context: RunContext,
    state: PipelineState,
    event: Event,
    clock: nat,
)
    requires
        state.waiting,
    ensures
        ({
            let step = step_of(contract, context, state, event, clock);
            let kind = kind_of(contract.payload_type@);
            &&& state.stage == Stage::PrerequisiteCheck && state.probed && state.index
                < prerequisites(contract).len() && is_given(
                prerequisites(contract)[state.index as int].check_command,
            ) ==> step.reports.len() == 1 && step.reports[0].execution_action == check_action()
                && step.reports[0].execution_duration == awaited_elapsed(event)
            &&& state.stage == Stage::PrerequisiteInstall && state.probed && state.index
                < prerequisites(contract).len() ==> step.reports.len() == 1
                && step.reports[0].execution_action == install_action()
                && step.reports[0].execution_duration == awaited_elapsed(event)
            &&& state.stage == Stage::MainDispatch && state.probed && kind == PayloadKind::Command
                && contract.command_content is Some && contract.command_executor is Some
                ==> step.reports.len() == 1 && step.reports[0].execution_action
                == crate::handle::handle_command::command_action()
                && step.reports[0].execution_duration == awaited_elapsed(event)
            &&& (state.stage == Stage::FileFetch || (state.stage == Stage::MainDispatch && kind
                == PayloadKind::FileDrop && contract.file_drop_file is Some))
                ==> step.reports.len() >= 1 && step.reports[0].execution_action
                == crate::handle::handle_file::file_drop_action()
                && step.reports[0].execution_duration == awaited_elapsed(event)
            &&& state.stage == Stage::FileExecution ==> step.reports.len() == 1
                && step.reports[0].execution_action == crate::handle::handle_file::file_action()
                && step.reports[0].execution_duration == awaited_elapsed(event)
            &&& state.stage == Stage::Cleanup && state.probed && is_given(
                contract.payload_cleanup_command,
            ) && contract.payload_cleanup_executor is Some ==> step.reports.len() == 2
                && step.reports[0].execution_action == cleanup_action()
                && step.reports[0].execution_duration == awaited_elapsed(event)
        }),
{
}

/// A prerequisite that its check shows to be there is not installed: when
/// the check has run and come out as a success or as a warning, as every
/// check does that exits with 0, the run goes on to the next prerequisite
/// and the sum of the exit codes stays as it was; after any other check it
/// goes on to the installation of the same prerequisite.
pub proof fn law_satisfied_prerequisite_is_not_installed(
    contract: InjectorContractPayload,
    context: RunContext,
    state: PipelineState,
    event: Event,
    clock: nat,
)
    requires
        state.stage == Stage::PrerequisiteCheck,
        state.waiting,
        state.probed,
        state.index < prerequisites(contract).len(),
        is_given(prerequisites(contract)[state.index as int].check_command),
    ensures
        ({
            let step = step_of(contract, context, state, event, clock);
            let result = awaited_command(
                context,
                prerequisites(contract)[state.index as int].executor@,
                event,
                true,
            );
            &&& step.action == ActionView::Continue
            &&& step.state.failures == state.failures
            &&& !step.state.waiting
            &&& satisfied(result) ==> step.state.stage == Stage::PrerequisiteCheck
                && step.state.index == state.index + 1
            &&& !satisfied(result) ==> step.state.stage == Stage::PrerequisiteInstall
                && step.state.index == state.index
            &&& (event matches Event::Ran {
                outcome: crate::process::command_exec::SpawnOutcome::Exited(output),
                elapsed,
            } && output.code == Some(0i32)) ==> satisfied(result)
        }),
{
    lemma_lists_fit(contract);
}

/// A payload of unknown kind is not handled: where no prerequisite failed,
/// the step that would begin it asks for no work, reports that the kind is
/// not supported, as an error, and leaves the run at its cleanup, marked so
/// that its last report is an error too.
pub proof fn law_unknown_kind_is_not_supported(
    contract: InjectorContractPayload,
    context: RunContext,
    state: PipelineState,
    event: Event,
    clock: nat,
)
    requires
        state.stage == Stage::MainDispatch,
        !state.waiting,
        state.failures == 0,
        kind_of(contract.payload_type@) == PayloadKind::Unsupported,
    ensures
        ({
            let step = step_of(contract, context, state, event, clock);
            &&& step.action == ActionView::Continue
            &&& step.reports == seq![unsupported_report(clock)]
            &&& unsupported_report(clock).execution_status == ExecutionStatus::Error
            &&& step.state.stage == Stage::Cleanup
            &&& step.state.verdict == Verdict::Unsupported
            &&& step.state.exit_code == SHORT_CIRCUIT_EXIT_CODE
            &&& final_report(step.state.verdict, clock).execution_status == ExecutionStatus::Error
        }),
{
}

/// Each host name of a list gets a report of its own: the step that takes
/// up what the resolver said of a name sends one report, under the action
/// of the resolution, which is a success if the name resolved and an error
/// with the reason of the resolver if it did not; and no step at this stage
/// asks for a process.
pub proof fn law_every_hostname_is_reported(
    contract: InjectorContractPayload,
    context: RunContext,
    state: PipelineState,
    event: Event,
    clock: nat,
)
    requires
        state.stage == Stage::Resolution,
        state.index < hostnames_of(text_or_empty(contract.dns_resolution_hostname)).len(),
    ensures
        ({
            let step = step_of(contract, context, state, event, clock);
            let names = hostnames_of(text_or_empty(contract.dns_resolution_hostname));
            let said = awaited_resolution(event);
            &&& !(step.action is Run) && !(step.action is Probe)
            &&& !state.waiting ==> step.reports.len() == 0 && step.action == ActionView::Resolve(
                crate::handle::handle_dns_resolution::resolution_target(names[state.index as int]),
            )
            &&& state.waiting ==> step.reports.len() == 1 && step.reports[0]
                == crate::handle::handle_dns_resolution::resolution_report(
                names[state.index as int],
                said,
            ) && step.reports[0].execution_action == dns_action()
            &&& state.waiting && said is Ok ==> step.reports[0].execution_status
                == ExecutionStatus::Success
            &&& state.waiting && said is Err ==> step.reports[0].execution_status
                == ExecutionStatus::Error && step.reports[0].execution_message
                == ExecutionMessageView::Output(
                crate::handle::ExecutionOutputView {
                    action: dns_action(),
                    stdout: Seq::empty(),
                    stderr: said->Err_0,
                    exit_code: 1,
                },
            )
        }),
{
}

/// After a failed prerequisite the payload is not handled: where the exit
/// codes of the installations do not add up to zero, the step that would
/// begin the payload asks for no work and sends no report, and leaves the
/// run at its cleanup, marked as failed for its dependencies.
pub proof fn law_failed_prerequisite_skips_payload(
    contract: InjectorContractPayload,
    context: RunContext,
    state: PipelineState,
    event: Event,
    clock: nat,
)
    requires
        state.stage == Stage::MainDispatch,
        !state.waiting,
        state.failures != 0,
    ensures
        ({
            let step = step_of(contract, context, state, event, clock);
            &&& step.action == ActionView::Continue
            &&& step.reports.len() == 0
            &&& step.state.stage == Stage::Cleanup
            &&& !step.state.waiting
            &&& step.state.verdict == Verdict::DependenciesFailed
            &&& step.state.exit_code == SHORT_CIRCUIT_EXIT_CODE
        }),
{
}

/// The state in which every run begins.
pub fn start() -> (state: PipelineState)
    ensures
        state == initial_state(),
{
    PipelineState {
        stage: Stage::Start,
        index: 0,
        waiting: false,
        probed: false,
        failures: 0,
        verdict: Verdict::Completed,
        exit_code: 0,
    }
}

/// The kind that the type of a payload names.
pub fn payload_kind(payload_type: &str) -> (kind: PayloadKind)
    ensures
        kind == kind_of(payload_type@),
{
    if same(payload_type, "Command") {
        PayloadKind::Command
    } else if same(payload_type, "DnsResolution") {
        PayloadKind::DnsResolution
    } else if same(payload_type, "Executable") {
        PayloadKind::Executable
    } else if same(payload_type, "FileDrop") {
        PayloadKind::FileDrop
    } else {
        PayloadKind::Unsupported
    }
}

/// Adds an exit code to the sum of the exit codes of the installations.
pub fn accumulate(failures: i128, code: i32) -> (sum: i128)
    ensures
        sum == accumulated(failures as int, code as int),
{
    let c: i128 = code as i128;
    if c > 0 && failures > i128::MAX - c {
        i128::MAX
    } else if c < 0 && failures < i128::MIN - c {
        i128::MIN
    } else {
        failures + c
    }
}

/// The state at the beginning of a stage, or of the next item of a stage.
pub(crate) fn moved(state: PipelineState, stage: Stage, index: usize) -> (next: PipelineState)
    ensures
        next == at_stage(state, stage, index as int),
{
    PipelineState {
        stage,
        index,
        waiting: false,
        probed: false,
        failures: state.failures,
        verdict: state.verdict,
        exit_code: state.exit_code,
    }
}

/// The state at the cleanup, the payload having been handled with the given exit code.
pub(crate) fn done_with(state: PipelineState, exit_code: i32) -> (next: PipelineState)
    ensures
        next == handled(state, exit_code as int),
{
    PipelineState {
        stage: Stage::Cleanup,
        index: 0,
        waiting: false,
        probed: false,
        failures: state.failures,
        verdict: state.verdict,
        exit_code,
    }
}

/// The state at the cleanup, the payload not having been handled.
pub(crate) fn cut_short(state: PipelineState, verdict: Verdict) -> (next: PipelineState)
    ensures
        next == short_circuited(state, verdict),
{
    PipelineState {
        stage: Stage::Cleanup,
        index: 0,
        waiting: false,
        probed: false,
        failures: state.failures,
        verdict,
        exit_code: SHORT_CIRCUIT_EXIT_CODE,
    }
}

/// No report.
pub(crate) fn no_report() -> (reports: Vec<UpdateInput>)
    ensures
        reports_view(reports@) == Seq::<UpdateInputView>::empty(),
{
    let reports: Vec<UpdateInput> = Vec::new();
    assert(reports_view(reports@) =~= Seq::<UpdateInputView>::empty());
    reports
}

/// One report.
pub(crate) fn one_report(report: UpdateInput) -> (reports: Vec<UpdateInput>)
    ensures
        reports_view(reports@) == seq![report@],
{
    let mut reports: Vec<UpdateInput> = Vec::new();
    reports.push(report);
    assert(reports_view(reports@) =~= seq![report@]);
    reports
}

/// A step that asks for nothing.
pub(crate) fn step_on(state: PipelineState, reports: Vec<UpdateInput>) -> (step: Step)
    ensures
        step@ == goes_on(state, reports_view(reports@)),
{
    Step { state, reports, action: Action::Continue }
}

/// A step that asks for work and awaits its outcome.
pub(crate) fn step_asking(state: PipelineState, reports: Vec<UpdateInput>, action: Action) -> (step: Step)
    ensures
        step@ == asks(state, reports_view(reports@), action@),
{
    Step {
        state: PipelineState {
            stage: state.stage,
            index: state.index,
            waiting: true,
            probed: false,
            failures: state.failures,
            verdict: state.verdict,
            exit_code: state.exit_code,
        },
        reports,
        action,
    }
}

/// A step that asks for a process, its executor having been found.
pub(crate) fn step_running(state: PipelineState, reports: Vec<UpdateInput>, invocation: Invocation) -> (step:
    Step)
    ensures
        step@ == (StepView {
            state: running(state),
            reports: reports_view(reports@),
            action: ActionView::Run(invocation@),
        }),
{
    Step {
        state: PipelineState {
            stage: state.stage,
            index: state.index,
            waiting: true,
            probed: true,
            failures: state.failures,
            verdict: state.verdict,
            exit_code: state.exit_code,
        },
        reports,
        action: Action::Run(invocation),
    }
}

/// Whether the caller says that the executor it was to look for is there.
pub(crate) fn is_found(event: &Event) -> (present: bool)
    ensures
        present == found(*event),
{
    match event {
        Event::Probed { present } => *present,
        _ => false,
    }
}

/// A report that is a plain sentence, under the action `complete`.
fn text_report(message: &str, status: ExecutionStatus, clock: u128) -> (report: UpdateInput)
    ensures
        report@ == (UpdateInputView {
            execution_message: ExecutionMessageView::Text(message@),
            execution_status: status,
            execution_action: complete_action(),
            execution_duration: clock as nat,
        }),
{
    UpdateInput {
        execution_message: ExecutionMessage::Text(String::from_str(message)),
        execution_status: status,
        execution_action: String::from_str("complete"),
        execution_duration: clock,
    }
}

/// The step that ends a run, after the given reports.
fn step_ending(state: PipelineState, reports: Vec<UpdateInput>, clock: u128) -> (step: Step)
    ensures
        step@ == ends(state, reports_view(reports@), clock as nat),
{
    let mut reports = reports;
    let ghost before = reports_view(reports@);
    let last = match state.verdict {
        Verdict::Completed => text_report("Payload completed", ExecutionStatus::Info, clock),
        Verdict::DependenciesFailed => text_report(
            "Payload execution not executed due to dependencies failure.",
            ExecutionStatus::Error,
            clock,
        ),
        Verdict::Unsupported => text_report(
            "Payload execution type not supported.",
            ExecutionStatus::Error,
            clock,
        ),
    };
    reports.push(last);
    assert(reports_view(reports@) =~= before.push(final_report(state.verdict, clock as nat)));
    Step {
        state: moved(state, Stage::Reported, 0),
        reports,
        action: Action::Stop { exit_code: state.exit_code },
    }
}

/// The error for work whose outcome was awaited and did not come.
fn unreported_error() -> (e: Error)
    ensures
        e@ == unreported(),
{
    Error::internal("The outcome of the work was not reported")
}

/// Plans the process that runs a transport-encoded command of the contract.
pub fn plan_command(
    contract: &InjectorContractPayload,
    context: &RunContext,
    encoded: &str,
    executor: &str,
) -> (r: Result<Invocation, Error>)
    ensures
        match r {
            Ok(invocation) => planned(*contract, *context, encoded@, executor@) == Ok::<
                InvocationView,
                ErrorView,
            >(invocation@),
            Err(e) => planned(*contract, *context, encoded@, executor@) == Err::<
                InvocationView,
                ErrorView,
            >(e@),
        },
{
    match decode_command(encoded) {
        Ok(text) => {
            let none: Vec<PayloadArg> = Vec::new();
            let defaults = match &contract.payload_arguments {
                Some(list) => list,
                None => &none,
            };
            assert(defaults@ =~= arguments(*contract));
            let resolved = resolve(
                text.as_str(),
                &context.user_values,
                defaults,
                context.working_dir.as_str(),
            );
            Ok(format_command(resolved, executor, context.platform))
        },
        Err(e) => Err(e),
    }
}

/// The milliseconds that the awaited work took.
pub(crate) fn elapsed_of(event: &Event) -> (elapsed: u128)
    ensures
        elapsed as nat == awaited_elapsed(*event),
{
    match event {
        Event::Ran { outcome, elapsed } => *elapsed,
        Event::Downloaded { file, elapsed } => *elapsed,
        _ => 0,
    }
}

/// What came of a command that was run with the shell behind `executor`.
pub(crate) fn conclude_command(context: &RunContext, executor: &str, event: Event, pre_check: bool) -> (r:
    Result<ExecutionResult, Error>)
    ensures
        outcome_view(r) == awaited_command(*context, executor@, event, pre_check),
{
    match event {
        Event::Ran { outcome, elapsed } => command_execution(
            executor,
            context.platform,
            RunOutcome::Ran(outcome),
            pre_check,
        ),
        _ => Err(unreported_error()),
    }
}

/// What came of a file that was run.
pub(crate) fn conclude_file(context: &RunContext, event: Event) -> (r: Result<ExecutionResult, Error>)
    ensures
        outcome_view(r) == awaited_file(*context, event),
{
    match event {
        Event::Ran { outcome, elapsed } => file_execution(
            context.platform,
            RunOutcome::Ran(outcome),
        ),
        _ => Err(unreported_error()),
    }
}

/// What came of the download that was awaited.
pub(crate) fn conclude_download(event: Event) -> (r: Result<DownloadedFile, Error>)
    ensures
        download_failure(r) == awaited_download(event),
        r matches Ok(file) ==> file.path@ == awaited_path(event),
{
    match event {
        Event::Downloaded { file, elapsed } => file,
        _ => Err(unreported_error()),
    }
}

/// What the resolver said of the name that was awaited.
pub(crate) fn conclude_resolution(event: Event) -> (r: Result<Vec<String>, String>)
    ensures
        resolution_view(r) == awaited_resolution(event),
{
    match event {
        Event::Resolved { addresses } => addresses,
        _ => Err(String::from_str("The outcome of the work was not reported")),
    }
}

/// The report of a stage that failed before anything was run.
pub(crate) fn failure_report(semantic: &str, e: Error) -> (reports: Vec<UpdateInput>)
    ensures
        reports_view(reports@) == seq![execution_report(semantic@, Err(e@), 0)],
{
    let (report, _) = handle_execution_result(semantic, Err(e), 0);
    one_report(report)
}

/// Takes the step of a run that is at its documents.
fn at_documents(contract: &InjectorContractPayload, state: PipelineState) -> (step: Step)
    ensures
        step@ == documents_step(*contract, state),
{
    let none: Vec<PayloadArg> = Vec::new();
    let list = match &contract.payload_arguments {
        Some(list) => list,
        None => &none,
    };
    assert(list@ =~= arguments(*contract));
    if state.index >= list.len() {
        return step_on(moved(state, Stage::PrerequisiteCheck, 0), no_report());
    }
    let argument = &list[state.index];
    if !state.waiting && same(argument.arg_type.as_str(), "document") {
        match &argument.default_value {
            Some(document) => {
                return step_asking(
                    state,
                    no_report(),
                    Action::Download { document: document.clone(), in_memory: false },
                );
            },
            None => {},
        }
    }
    step_on(moved(state, Stage::Documents, state.index + 1), no_report())
}

/// Takes the step of a run that is at the check of a prerequisite.
fn at_check(
    contract: &InjectorContractPayload,
    context: &RunContext,
    state: PipelineState,
    event: Event,
) -> (step: Step)
    ensures
        step@ == check_step(*contract, *context, state, event),
{
    let none: Vec<PayloadPrerequisite> = Vec::new();
    let list = match &contract.payload_prerequisites {
        Some(list) => list,
        None => &none,
    };
    assert(list@ =~= prerequisites(*contract));
    if state.index >= list.len() {
        return step_on(moved(state, Stage::MainDispatch, 0), no_report());
    }
    let item = &list[state.index];
    let install = moved(state, Stage::PrerequisiteInstall, state.index);
    match &item.check_command {
        Some(check) => {
            if check.as_str().is_empty() {
                step_on(install, no_report())
            } else {
                match handle_execution_command(
                    "prerequisite_check",
                    contract,
                    context,
                    state,
                    event,
                    check.as_str(),
                    item.executor.as_str(),
                    true,
                ) {
                    Execution::Pending(step) => step,
                    Execution::Done { report, code } => {
                        let satisfied = report.execution_status == ExecutionStatus::Success
                            || report.execution_status == ExecutionStatus::Warning;
                        if satisfied {
                            step_on(
                                moved(state, Stage::PrerequisiteCheck, state.index + 1),
                                one_report(report),
                            )
                        } else {
                            step_on(install, one_report(report))
                        }
                    },
                }
            }
        },
        None => step_on(install, no_report()),
    }
}

/// Takes the step of a run that is at the installation of a prerequisite.
fn at_install(
    contract: &InjectorContractPayload,
    context: &RunContext,
    state: PipelineState,
    event: Event,
) -> (step: Step)
    ensures
        step@ == install_step(*contract, *context, state, event),
{
    let none: Vec<PayloadPrerequisite> = Vec::new();
    let list = match &contract.payload_prerequisites {
        Some(list) => list,
        None => &none,
    };
    assert(list@ =~= prerequisites(*contract));
    if state.index >= list.len() {
        return step_on(moved(state, Stage::MainDispatch, 0), no_report());
    }
    let item = &list[state.index];
    let next = moved(state, Stage::PrerequisiteCheck, state.index + 1);
    match handle_execution_command(
        "prerequisite_execution",
        contract,
        context,
        state,
        event,
        item.get_command.as_str(),
        item.executor.as_str(),
        false,
    ) {
        Execution::Pending(step) => step,
        Execution::Done { report, code } => {
            let counted = PipelineState {
                stage: next.stage,
                index: next.index,
                waiting: next.waiting,
                probed: next.probed,
                failures: accumulate(state.failures, code),
                verdict: next.verdict,
                exit_code: next.exit_code,
            };
            step_on(counted, one_report(report))
        },
    }
}

/// Takes the step of a run that is at the payload itself.
fn at_dispatch(
    contract: &InjectorContractPayload,
    context: &RunContext,
    state: PipelineState,
    event: Event,
    clock: u128,
) -> (step: Step)
    ensures
        step@ == dispatch_step(*contract, *context, state, event, clock as nat),
{
    if !state.waiting && state.failures != 0 {
        return step_on(cut_short(state, Verdict::DependenciesFailed), no_report());
    }
    match payload_kind(contract.payload_type.as_str()) {
        PayloadKind::Command => handle_command(contract, context, state, event),
        PayloadKind::Executable => handle_file_execute(contract, context, state, event),
        PayloadKind::FileDrop => handle_file_drop(contract, state, event),
        PayloadKind::DnsResolution => {
            if state.waiting {
                step_on(moved(state, Stage::Cleanup, 0), no_report())
            } else {
                match &contract.dns_resolution_hostname {
                    Some(_) => step_on(moved(state, Stage::Resolution, 0), no_report()),
                    None => step_on(
                        done_with(state, NO_PROCESS_EXIT_CODE),
                        failure_report(
                            "dns resolution",
                            Error::internal("Payload hostname not specified"),
                        ),
                    ),
                }
            }
        },
        PayloadKind::Unsupported => {
            if state.waiting {
                step_on(moved(state, Stage::Cleanup, 0), no_report())
            } else {
                step_on(
                    cut_short(state, Verdict::Unsupported),
                    one_report(
                        text_report(
                            "Payload execution type not supported.",
                            ExecutionStatus::Error,
                            clock,
                        ),
                    ),
                )
            }
        },
    }
}

/// Takes the step of a run that is at its cleanup.
fn at_cleanup(
    contract: &InjectorContractPayload,
    context: &RunContext,
    state: PipelineState,
    event: Event,
    clock: u128,
) -> (step: Step)
    ensures
        step@ == cleanup_step(*contract, *context, state, event, clock as nat),
{
    match &contract.payload_cleanup_command {
        Some(command) => {
            if command.as_str().is_empty() {
                step_ending(state, no_report(), clock)
            } else {
                match &contract.payload_cleanup_executor {
                    Some(executor) => {
                        match handle_execution_command(
                            "cleanup_execution",
                            contract,
                            context,
                            state,
                            event,
                            command.as_str(),
                            executor.as_str(),
                            false,
                        ) {
                            Execution::Pending(step) => step,
                            Execution::Done { report, code } => step_ending(
                                state,
                                one_report(report),
                                clock,
                            ),
                        }
                    },
                    None => step_ending(
                        state,
                        failure_report(
                            "cleanup_execution",
                            Error::internal("Payload cleanup executor not specified"),
                        ),
                        clock,
                    ),
                }
            }
        },
        None => step_ending(state, no_report(), clock),
    }
}

/// Takes one step of a run: from the state of the run and what came of the
/// work that the last step asked for, `clock` milliseconds after the run
/// began, to the next state, the reports to send and the work to do next.
pub fn handle_payload(
    contract: &InjectorContractPayload,
    context: &RunContext,
    state: PipelineState,
    event: Event,
    clock: u128,
) -> (step: Step)
    ensures
        step@ == step_of(*contract, *context, state, event, clock as nat),
{
    match state.stage {
        Stage::Start => step_on(moved(state, Stage::Documents, 0), no_report()),
        Stage::Documents => at_documents(contract, state),
        Stage::PrerequisiteCheck => at_check(contract, context, state, event),
        Stage::PrerequisiteInstall => at_install(contract, context, state, event),
        Stage::MainDispatch => at_dispatch(contract, context, state, event, clock),
        Stage::Resolution => handle_dns_resolution(contract, state, event),
        Stage::FileFetch => handle_file_fetch(context, state, event),
        Stage::FileExecution => handle_execution_file(context, state, event),
        Stage::Cleanup => at_cleanup(contract, context, state, event, clock),
        _ => Step {
            state: moved(state, Stage::End, 0),
            reports: no_report(),
            action: Action::Stop { exit_code: state.exit_code },
        },
    }
}

} // verus!
