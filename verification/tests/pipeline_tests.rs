use openbas_implant::api::manage_inject::{
    ExecutionMessage, InjectorContractPayload, PayloadArg, PayloadPrerequisite, UpdateInput,
};
use openbas_implant::error::Error;
use openbas_implant::handle::handle_command::{
    handle_command, handle_execution_command, Execution,
};
use openbas_implant::handle::handle_dns_resolution::{
    dns_target, handle_dns_resolution, report_resolution, split_hostnames,
};
use openbas_implant::handle::handle_execution::handle_execution_result;
use openbas_implant::handle::handle_file::{
    handle_execution_file, handle_file, request_file, DownloadedFile,
};
use openbas_implant::handle::handle_file_drop::handle_file_drop;
use openbas_implant::handle::handle_file_execute::{handle_file_execute, handle_file_fetch};
use openbas_implant::api::manage_reporting::{report_error, report_success};
use openbas_implant::pipeline::{
    accumulate, handle_payload, payload_kind, plan_command, start, Action, Event, PayloadKind,
    PipelineState, RunContext, Stage, Verdict,
};
use openbas_implant::process::command_exec::{
    encode_command, ExecutionResult, ExecutionStatus, Platform, ProcessOutput,
    SpawnOutcome,
};
use openbas_implant::resolver::UserValue;

fn contract(kind: &str) -> InjectorContractPayload {
    InjectorContractPayload {
        payload_id: Some("p-1".to_string()),
        payload_type: kind.to_string(),
        payload_arguments: None,
        file_drop_file: None,
        executable_file: None,
        dns_resolution_hostname: None,
        payload_prerequisites: None,
        command_executor: None,
        command_content: None,
        payload_cleanup_executor: None,
        payload_cleanup_command: None,
    }
}

fn command_contract(command: &str) -> InjectorContractPayload {
    let mut c = contract("Command");
    c.command_executor = Some("sh".to_string());
    c.command_content = Some(encode_command(command));
    c
}

fn context() -> RunContext {
    RunContext {
        platform: Platform::Posix,
        working_dir: "/opt/payloads/agent".to_string(),
        user_values: vec![],
    }
}

fn exited(code: i32, stdout: &str, stderr: &str, elapsed: u128) -> Event {
    Event::Ran {
        outcome: SpawnOutcome::Exited(ProcessOutput {
            code: Some(code),
            stdout: stdout.as_bytes().to_vec(),
            stderr: stderr.as_bytes().to_vec(),
        }),
        elapsed,
    }
}

struct Run {
    reports: Vec<UpdateInput>,
    actions: Vec<Action>,
    probes: Vec<String>,
    exit_code: i32,
    steps: usize,
}

/// The number of steps that a run of the contract takes at most.
fn step_bound(contract: &InjectorContractPayload) -> usize {
    let names = split_hostnames(contract.dns_resolution_hostname.as_deref().unwrap_or("")).len();
    let prerequisites = contract.payload_prerequisites.as_ref().map_or(0, |list| list.len());
    let arguments = contract.payload_arguments.as_ref().map_or(0, |list| list.len());
    (9 + 2 * names) + (6 * prerequisites + 6) + (2 * arguments + 3)
}

/// Drives a run to its end on a system that has every executor.
fn run(contract: &InjectorContractPayload, context: &RunContext, script: Vec<Event>) -> Run {
    run_without(&[], contract, context, script)
}

/// Drives a run to its end, answering each request for work with the next event of the
/// script. Every executor is found but those named as missing, and no process may be asked
/// for whose executor was not found just before.
fn run_without(
    missing: &[&str],
    contract: &InjectorContractPayload,
    context: &RunContext,
    script: Vec<Event>,
) -> Run {
    let mut script = script.into_iter();
    let mut state = start();
    let mut event = Event::Resume;
    let mut done =
        Run { reports: vec![], actions: vec![], probes: vec![], exit_code: 0, steps: 0 };
    let mut found: Option<String> = None;
    loop {
        let step = handle_payload(contract, context, state, event, 1000);
        done.steps += 1;
        assert!(done.steps <= step_bound(contract), "the run takes more steps than it may");
        done.reports.extend(step.reports);
        state = step.state;
        match step.action {
            Action::Continue => event = Event::Resume,
            Action::Stop { exit_code } => {
                done.exit_code = exit_code;
                assert_eq!(state.stage, Stage::Reported);
                return done;
            }
            Action::Probe(executor) => {
                let present = !missing.contains(&executor.as_str());
                found = if present { Some(executor.clone()) } else { None };
                done.probes.push(executor);
                event = Event::Probed { present };
            }
            Action::Run(invocation) => {
                assert_eq!(found.as_deref(), Some(invocation.executor.as_str()));
                found = None;
                done.actions.push(Action::Run(invocation));
                event = script.next().expect("the script is too short");
            }
            asked => {
                done.actions.push(asked);
                event = script.next().expect("the script is too short");
            }
        }
    }
}

fn expression(action: &Action) -> String {
    match action {
        Action::Run(invocation) => invocation.expression.clone(),
        other => panic!("no process was asked for: {:?}", other),
    }
}

fn stdout(report: &UpdateInput) -> String {
    match &report.execution_message {
        ExecutionMessage::Output(output) => output.stdout.clone(),
        ExecutionMessage::Text(text) => panic!("no output in the report: {}", text),
    }
}

fn stderr(report: &UpdateInput) -> String {
    match &report.execution_message {
        ExecutionMessage::Output(output) => output.stderr.clone(),
        ExecutionMessage::Text(text) => panic!("no output in the report: {}", text),
    }
}

fn exit_code(report: &UpdateInput) -> i32 {
    match &report.execution_message {
        ExecutionMessage::Output(output) => output.exit_code,
        ExecutionMessage::Text(text) => panic!("no output in the report: {}", text),
    }
}

fn text(report: &UpdateInput) -> String {
    match &report.execution_message {
        ExecutionMessage::Text(text) => text.clone(),
        ExecutionMessage::Output(output) => panic!("no sentence in the report: {:?}", output),
    }
}

fn assert_final(report: &UpdateInput, status: ExecutionStatus, message: &str) {
    assert_eq!(report.execution_action, "complete");
    assert_eq!(report.execution_status, status);
    assert_eq!(text(report), message);
    assert_eq!(report.execution_duration, 1000);
}

#[test]
fn scenario_command_with_user_value() {
    let c = command_contract("echo #{greeting}");
    let mut ctx = context();
    ctx.user_values = vec![UserValue { key: "greeting".to_string(), value: "hi".to_string() }];
    let done = run(&c, &ctx, vec![exited(0, "hi\n", "", 12)]);
    assert_eq!(done.actions.len(), 1);
    match &done.actions[0] {
        Action::Run(invocation) => {
            assert_eq!(invocation.executor, "sh");
            assert_eq!(invocation.args, vec!["-c"]);
            assert_eq!(invocation.expression, "echo hi");
        }
        other => panic!("unexpected action: {:?}", other),
    }
    assert_eq!(done.reports.len(), 2);
    let report = &done.reports[0];
    assert_eq!(report.execution_action, "implant execution");
    assert_eq!(report.execution_status, ExecutionStatus::Success);
    assert_eq!(report.execution_duration, 12);
    assert_eq!(stdout(report), "hi\n");
    assert_eq!(stderr(report), "");
    assert_eq!(exit_code(report), 0);
    match &report.execution_message {
        ExecutionMessage::Output(output) => assert_eq!(output.action, "implant execution"),
        other => panic!("unexpected message: {:?}", other),
    }
    assert_final(&done.reports[1], ExecutionStatus::Info, "Payload completed");
    assert_eq!(done.exit_code, 0);
}

fn prerequisite(check: Option<&str>, get: &str) -> PayloadPrerequisite {
    PayloadPrerequisite {
        executor: "bash".to_string(),
        get_command: encode_command(get),
        check_command: check.map(encode_command),
        description: None,
    }
}

#[test]
fn scenario_satisfied_prerequisite_is_not_installed() {
    let mut c = command_contract("run-payload");
    c.payload_prerequisites = Some(vec![prerequisite(Some("which tool"), "apt install tool")]);
    let done = run(&c, &context(), vec![exited(0, "/usr/bin/tool\n", "", 3), exited(0, "", "", 5)]);
    assert_eq!(done.actions.len(), 2);
    assert_eq!(expression(&done.actions[0]), "which tool");
    assert_eq!(expression(&done.actions[1]), "run-payload");
    assert_eq!(done.reports.len(), 3);
    assert_eq!(done.reports[0].execution_action, "prerequisite_check");
    assert_eq!(done.reports[0].execution_status, ExecutionStatus::Success);
    assert_eq!(done.reports[1].execution_action, "implant execution");
    assert_final(&done.reports[2], ExecutionStatus::Info, "Payload completed");
    assert_eq!(done.exit_code, 0);
}

#[test]
fn scenario_failed_prerequisite_skips_the_payload_but_not_the_cleanup() {
    let mut c = command_contract("run-payload");
    c.payload_prerequisites = Some(vec![prerequisite(Some("which tool"), "apt install tool")]);
    c.payload_cleanup_command = Some(encode_command("rm -rf #{location}/tmp"));
    c.payload_cleanup_executor = Some("sh".to_string());
    let script = vec![exited(2, "", "", 3), exited(2, "", "E: no", 40), exited(0, "", "", 7)];
    let done = run(&c, &context(), script);
    assert_eq!(done.actions.len(), 3);
    assert_eq!(expression(&done.actions[0]), "which tool");
    assert_eq!(expression(&done.actions[1]), "apt install tool");
    assert_eq!(expression(&done.actions[2]), "rm -rf /opt/payloads/agent/tmp");
    assert_eq!(done.reports.len(), 4);
    assert_eq!(done.reports[0].execution_action, "prerequisite_check");
    assert_eq!(done.reports[0].execution_status, ExecutionStatus::MaybePrevented);
    assert_eq!(done.reports[1].execution_action, "prerequisite_execution");
    assert_eq!(done.reports[1].execution_status, ExecutionStatus::MaybePrevented);
    assert_eq!(exit_code(&done.reports[1]), 2);
    assert_eq!(done.reports[2].execution_action, "cleanup_execution");
    assert_eq!(done.reports[2].execution_status, ExecutionStatus::Success);
    assert_final(
        &done.reports[3],
        ExecutionStatus::Error,
        "Payload execution not executed due to dependencies failure.",
    );
    assert_eq!(done.exit_code, -1);
    assert!(done.reports.iter().all(|r| r.execution_action != "implant execution"));
}

#[test]
fn check_that_exits_with_one_shows_the_prerequisite_to_be_there() {
    let mut c = command_contract("run-payload");
    c.payload_prerequisites = Some(vec![prerequisite(Some("test -f /x"), "touch /x")]);
    let done = run(&c, &context(), vec![exited(1, "", "", 3), exited(0, "", "", 5)]);
    assert_eq!(done.actions.len(), 2);
    assert_eq!(expression(&done.actions[1]), "run-payload");
    assert_eq!(done.reports[0].execution_status, ExecutionStatus::Success);
    assert_eq!(exit_code(&done.reports[0]), 1);
    assert_eq!(done.exit_code, 0);
}

#[test]
fn check_that_warns_shows_the_prerequisite_to_be_there() {
    let mut c = command_contract("run-payload");
    c.payload_prerequisites = Some(vec![prerequisite(Some("which tool"), "apt install tool")]);
    let done = run(&c, &context(), vec![exited(0, "", "deprecated", 3), exited(0, "", "", 5)]);
    assert_eq!(done.actions.len(), 2);
    assert_eq!(done.reports[0].execution_status, ExecutionStatus::Warning);
    assert_eq!(expression(&done.actions[1]), "run-payload");
}

#[test]
fn prerequisite_without_check_is_installed() {
    let mut c = command_contract("run-payload");
    c.payload_prerequisites = Some(vec![
        prerequisite(None, "install-a"),
        prerequisite(Some(""), "install-b"),
    ]);
    let done = run(
        &c,
        &context(),
        vec![exited(0, "", "", 1), exited(0, "", "", 2), exited(0, "done", "", 3)],
    );
    assert_eq!(done.actions.len(), 3);
    assert_eq!(expression(&done.actions[0]), "install-a");
    assert_eq!(expression(&done.actions[1]), "install-b");
    assert_eq!(expression(&done.actions[2]), "run-payload");
    assert_eq!(done.reports[0].execution_action, "prerequisite_execution");
    assert_eq!(done.reports[1].execution_action, "prerequisite_execution");
    assert_eq!(done.exit_code, 0);
}

#[test]
fn prerequisites_are_handled_in_their_order() {
    let mut c = command_contract("run-payload");
    c.payload_prerequisites = Some(vec![
        prerequisite(Some("check-a"), "install-a"),
        prerequisite(Some("check-b"), "install-b"),
    ]);
    let script = vec![
        exited(3, "", "", 1),
        exited(0, "", "", 1),
        exited(0, "", "", 1),
        exited(0, "", "", 1),
    ];
    let done = run(&c, &context(), script);
    let asked: Vec<String> = done.actions.iter().map(expression).collect();
    assert_eq!(asked, vec!["check-a", "install-a", "check-b", "run-payload"]);
}

#[test]
fn exit_codes_of_installations_add_up() {
    let mut c = command_contract("run-payload");
    c.payload_prerequisites =
        Some(vec![prerequisite(None, "install-a"), prerequisite(None, "install-b")]);
    let done = run(&c, &context(), vec![exited(0, "", "", 1), exited(5, "", "", 1)]);
    assert_eq!(done.actions.len(), 2);
    assert_eq!(done.exit_code, -1);
    assert_eq!(accumulate(0, 5), 5);
    assert_eq!(accumulate(5, -5), 0);
    assert_eq!(accumulate(i128::MAX, 1), i128::MAX);
    assert_eq!(accumulate(i128::MIN, -1), i128::MIN);
    assert_eq!(accumulate(-7, i32::MIN), -7 + i32::MIN as i128);
}

#[test]
fn scenario_unknown_kind_is_not_supported() {
    let c = contract("NetworkTraffic");
    let done = run(&c, &context(), vec![]);
    assert!(done.actions.is_empty());
    assert_eq!(done.reports.len(), 2);
    assert_eq!(done.reports[0].execution_status, ExecutionStatus::Error);
    assert_eq!(done.reports[0].execution_action, "complete");
    assert_eq!(text(&done.reports[0]), "Payload execution type not supported.");
    assert_final(&done.reports[1], ExecutionStatus::Error, "Payload execution type not supported.");
    assert_eq!(done.exit_code, -1);
}

#[test]
fn scenario_dns_resolution_reports_each_name() {
    let mut c = contract("DnsResolution");
    c.dns_resolution_hostname = Some("a.example\nb.invalid".to_string());
    let script = vec![
        Event::Resolved { addresses: Ok(vec!["93.184.216.34".to_string(), "2606:2800::1".to_string()]) },
        Event::Resolved {
            addresses: Err("failed to lookup address information: Name or service not known".to_string()),
        },
    ];
    let done = run(&c, &context(), script);
    assert_eq!(done.actions.len(), 2);
    assert!(matches!(&done.actions[0], Action::Resolve(target) if target == "a.example:80"));
    assert!(matches!(&done.actions[1], Action::Resolve(target) if target == "b.invalid:80"));
    assert_eq!(done.reports.len(), 3);
    assert_eq!(done.reports[0].execution_action, "dns resolution");
    assert_eq!(done.reports[0].execution_status, ExecutionStatus::Success);
    assert_eq!(stdout(&done.reports[0]), "a.example: 93.184.216.34, 2606:2800::1");
    assert_eq!(stderr(&done.reports[0]), "");
    assert_eq!(exit_code(&done.reports[0]), 0);
    assert_eq!(done.reports[0].execution_duration, 0);
    assert_eq!(done.reports[1].execution_action, "dns resolution");
    assert_eq!(done.reports[1].execution_status, ExecutionStatus::Error);
    assert_eq!(stdout(&done.reports[1]), "");
    assert_eq!(
        stderr(&done.reports[1]),
        "failed to lookup address information: Name or service not known"
    );
    assert_eq!(exit_code(&done.reports[1]), 1);
    assert_final(&done.reports[2], ExecutionStatus::Info, "Payload completed");
    assert_eq!(done.exit_code, 1);
}

#[test]
fn file_drop_fetches_the_document() {
    let mut c = contract("FileDrop");
    c.file_drop_file = Some("doc-7".to_string());
    let file = DownloadedFile { name: "tool.bin".to_string(), path: "/opt/agent/tool.bin".to_string() };
    let done = run(&c, &context(), vec![Event::Downloaded { file: Ok(file), elapsed: 80 }]);
    assert_eq!(done.actions.len(), 1);
    assert!(matches!(
        &done.actions[0],
        Action::Download { document, in_memory: false } if document == "doc-7"
    ));
    assert_eq!(done.reports.len(), 2);
    assert_eq!(done.reports[0].execution_action, "file_drop");
    assert_eq!(done.reports[0].execution_status, ExecutionStatus::Success);
    assert_eq!(done.reports[0].execution_duration, 80);
    assert_eq!(stdout(&done.reports[0]), "File downloaded with success");
    assert_eq!(exit_code(&done.reports[0]), -1);
    assert_eq!(done.exit_code, 0);
}

#[test]
fn file_drop_without_document_is_reported() {
    let c = contract("FileDrop");
    let done = run(&c, &context(), vec![]);
    assert!(done.actions.is_empty());
    assert_eq!(done.reports.len(), 2);
    assert_eq!(done.reports[0].execution_action, "file_drop");
    assert_eq!(done.reports[0].execution_status, ExecutionStatus::Error);
    assert_eq!(stderr(&done.reports[0]), "Payload download fail, document not specified");
    assert_eq!(done.reports[0].execution_duration, 0);
    assert_final(&done.reports[1], ExecutionStatus::Info, "Payload completed");
    assert_eq!(done.exit_code, -1);
}

#[test]
fn failed_download_is_reported_with_its_error() {
    let mut c = contract("Executable");
    c.executable_file = Some("doc-9".to_string());
    let failure = Event::Downloaded { file: Err(Error::Api("Not Found".to_string())), elapsed: 9 };
    let done = run(&c, &context(), vec![failure]);
    assert_eq!(done.actions.len(), 1);
    assert_eq!(done.reports.len(), 2);
    assert_eq!(done.reports[0].execution_status, ExecutionStatus::Error);
    assert_eq!(stderr(&done.reports[0]), "Api(\"Not Found\")");
    assert_eq!(done.exit_code, -1);
}

#[test]
fn executable_is_fetched_and_run() {
    let mut c = contract("Executable");
    c.executable_file = Some("doc-9".to_string());
    let file = DownloadedFile { name: "run.sh".to_string(), path: "/opt/agent/run.sh".to_string() };
    let script = vec![Event::Downloaded { file: Ok(file), elapsed: 9 }, exited(4, "out", "", 11)];
    let done = run(&c, &context(), script);
    assert_eq!(done.actions.len(), 2);
    match &done.actions[1] {
        Action::Run(invocation) => {
            assert_eq!(invocation.executor, "bash");
            assert!(invocation.args.is_empty());
            assert_eq!(invocation.expression, "/opt/agent/run.sh");
        }
        other => panic!("unexpected action: {:?}", other),
    }
    assert_eq!(done.reports.len(), 3);
    assert_eq!(done.reports[0].execution_action, "file_drop");
    assert_eq!(done.reports[1].execution_action, "file execution");
    assert_eq!(done.reports[1].execution_status, ExecutionStatus::MaybePrevented);
    assert_eq!(done.reports[1].execution_duration, 11);
    assert_eq!(done.exit_code, 4);
}

#[test]
fn document_arguments_are_fetched_first_and_not_reported() {
    let mut c = command_contract("run-payload");
    c.payload_arguments = Some(vec![
        PayloadArg {
            arg_type: "text".to_string(),
            key: "a".to_string(),
            description: None,
            default_value: Some("1".to_string()),
        },
        PayloadArg {
            arg_type: "document".to_string(),
            key: "d".to_string(),
            description: None,
            default_value: Some("doc-1".to_string()),
        },
        PayloadArg {
            arg_type: "document".to_string(),
            key: "e".to_string(),
            description: None,
            default_value: None,
        },
    ]);
    let script = vec![
        Event::Downloaded { file: Err(Error::Transport("down".to_string())), elapsed: 1 },
        exited(0, "", "", 2),
    ];
    let done = run(&c, &context(), script);
    assert_eq!(done.actions.len(), 2);
    assert!(matches!(&done.actions[0], Action::Download { document, .. } if document == "doc-1"));
    assert_eq!(done.reports.len(), 2);
    assert_eq!(done.reports[0].execution_action, "implant execution");
}

#[test]
fn contract_defaults_fill_the_command() {
    let mut c = command_contract("ping -c #{count} #{host}");
    c.payload_arguments = Some(vec![PayloadArg {
        arg_type: "text".to_string(),
        key: "count".to_string(),
        description: None,
        default_value: Some("3".to_string()),
    }]);
    let done = run(&c, &context(), vec![exited(0, "", "", 2)]);
    assert_eq!(expression(&done.actions[0]), "ping -c 3 #{host}");
}

#[test]
fn command_that_fails_gives_the_run_its_exit_code() {
    let c = command_contract("false");
    let done = run(&c, &context(), vec![exited(1, "", "", 2)]);
    assert_eq!(done.reports[0].execution_status, ExecutionStatus::MaybePrevented);
    assert_final(&done.reports[1], ExecutionStatus::Info, "Payload completed");
    assert_eq!(done.exit_code, 1);
}

#[test]
fn missing_executor_is_reported_and_the_run_goes_on() {
    let mut c = command_contract("run-payload");
    c.payload_cleanup_command = Some(encode_command("cleanup"));
    c.payload_cleanup_executor = Some("bash".to_string());
    let done = run_without(&["sh"], &c, &context(), vec![exited(0, "", "", 1)]);
    assert_eq!(done.probes, vec!["sh", "bash"]);
    assert_eq!(done.actions.len(), 1);
    assert_eq!(expression(&done.actions[0]), "cleanup");
    assert_eq!(done.reports.len(), 3);
    assert_eq!(done.reports[0].execution_status, ExecutionStatus::Error);
    assert_eq!(stderr(&done.reports[0]), "Internal(\"Executor sh is not available.\")");
    assert_eq!(exit_code(&done.reports[0]), -1);
    assert_eq!(done.reports[1].execution_action, "cleanup_execution");
    assert_eq!(done.exit_code, -1);
}

#[test]
fn command_that_cannot_be_decoded_is_reported() {
    let mut c = contract("Command");
    c.command_executor = Some("sh".to_string());
    c.command_content = Some("echo hi".to_string());
    let done = run(&c, &context(), vec![]);
    assert!(done.actions.is_empty());
    assert_eq!(done.reports.len(), 2);
    assert_eq!(done.reports[0].execution_action, "implant execution");
    assert_eq!(done.reports[0].execution_status, ExecutionStatus::Error);
    assert_eq!(stderr(&done.reports[0]), "Internal(\"Failed to decode Base64 command\")");
    assert_eq!(done.exit_code, -1);
}

#[test]
fn command_contract_without_command_is_reported() {
    let c = contract("Command");
    let done = run(&c, &context(), vec![]);
    assert!(done.actions.is_empty());
    assert_eq!(done.reports.len(), 2);
    assert_eq!(stderr(&done.reports[0]), "Internal(\"Payload command not specified\")");
    let d = contract("DnsResolution");
    let done = run(&d, &context(), vec![]);
    assert_eq!(stderr(&done.reports[0]), "Internal(\"Payload hostname not specified\")");
}

#[test]
fn cleanup_without_executor_is_reported() {
    let mut c = command_contract("run-payload");
    c.payload_cleanup_command = Some(encode_command("cleanup"));
    let done = run(&c, &context(), vec![exited(0, "", "", 1)]);
    assert_eq!(done.reports.len(), 3);
    assert_eq!(done.reports[1].execution_action, "cleanup_execution");
    assert_eq!(stderr(&done.reports[1]), "Internal(\"Payload cleanup executor not specified\")");
    assert_final(&done.reports[2], ExecutionStatus::Info, "Payload completed");
}

#[test]
fn empty_cleanup_is_not_run() {
    let mut c = command_contract("run-payload");
    c.payload_cleanup_command = Some(String::new());
    c.payload_cleanup_executor = Some("sh".to_string());
    let done = run(&c, &context(), vec![exited(0, "", "", 1)]);
    assert_eq!(done.actions.len(), 1);
    assert_eq!(done.reports.len(), 2);
}

#[test]
fn unexpected_event_counts_as_a_failure() {
    let c = command_contract("run-payload");
    let done = run(&c, &context(), vec![Event::Resume]);
    assert_eq!(done.reports[0].execution_status, ExecutionStatus::Error);
    assert_eq!(stderr(&done.reports[0]), "Internal(\"The outcome of the work was not reported\")");
}

#[test]
fn ended_run_stays_ended() {
    let c = contract("Command");
    let reported = PipelineState {
        stage: Stage::Reported,
        index: 0,
        waiting: false,
        probed: false,
        failures: 0,
        verdict: Verdict::Completed,
        exit_code: 3,
    };
    let step = handle_payload(&c, &context(), reported, Event::Resume, 5);
    assert_eq!(step.state.stage, Stage::End);
    assert!(step.reports.is_empty());
    assert!(matches!(step.action, Action::Stop { exit_code: 3 }));
    let again = handle_payload(&c, &context(), step.state, Event::Resume, 6);
    assert_eq!(again.state.stage, Stage::End);
    assert!(matches!(again.action, Action::Stop { exit_code: 3 }));
}

#[test]
fn run_begins_at_the_start() {
    let state = start();
    assert_eq!(state.stage, Stage::Start);
    assert_eq!(state.index, 0);
    assert!(!state.waiting);
    assert!(!state.probed);
    assert_eq!(state.failures, 0);
    assert_eq!(state.verdict, Verdict::Completed);
    assert_eq!(state.exit_code, 0);
}

#[test]
fn payload_kinds() {
    assert_eq!(payload_kind("Command"), PayloadKind::Command);
    assert_eq!(payload_kind("DnsResolution"), PayloadKind::DnsResolution);
    assert_eq!(payload_kind("Executable"), PayloadKind::Executable);
    assert_eq!(payload_kind("FileDrop"), PayloadKind::FileDrop);
    assert_eq!(payload_kind("NetworkTraffic"), PayloadKind::Unsupported);
    assert_eq!(payload_kind("command"), PayloadKind::Unsupported);
    assert_eq!(payload_kind(""), PayloadKind::Unsupported);
}

#[test]
fn plan_command_decodes_resolves_and_formats() {
    let c = contract("Command");
    let mut ctx = context();
    ctx.platform = Platform::Windows;
    let planned = plan_command(&c, &ctx, &encode_command("type #{location}\\f"), "cmd").unwrap();
    assert_eq!(planned.executor, "cmd");
    assert_eq!(planned.args, vec!["/V", "/C"]);
    assert_eq!(planned.expression, "setlocal & type /opt/payloads/agent\\f & exit /b errorlevel");
    assert!(matches!(plan_command(&c, &ctx, "%%%", "cmd"), Err(Error::Internal(_))));
}

#[test]
fn hostnames_are_split_at_line_feeds() {
    assert_eq!(split_hostnames("a.example\nb.invalid"), vec!["a.example", "b.invalid"]);
    assert_eq!(split_hostnames("single"), vec!["single"]);
    assert_eq!(split_hostnames(""), vec![""]);
    assert_eq!(split_hostnames("a\n"), vec!["a", ""]);
    assert_eq!(split_hostnames("\n\nb"), vec!["", "", "b"]);
    assert_eq!(split_hostnames("a\r\nb"), vec!["a\r", "b"]);
    assert_eq!(dns_target("a.example"), "a.example:80");
}

#[test]
fn dns_reports() {
    let (report, code) = report_resolution("h", Ok(vec![]));
    assert_eq!(stdout(&report), "h: ");
    assert_eq!(code, 0);
    let (report, code) = report_resolution("h", Ok(vec!["1.2.3.4".to_string()]));
    assert_eq!(stdout(&report), "h: 1.2.3.4");
    assert_eq!(code, 0);
    let three = vec!["a".to_string(), "b".to_string(), "c".to_string()];
    let (report, _) = report_resolution("h", Ok(three));
    assert_eq!(stdout(&report), "h: a, b, c");
    let (report, code) = report_resolution("h", Err("no".to_string()));
    assert_eq!(report.execution_status, ExecutionStatus::Error);
    assert_eq!(stderr(&report), "no");
    assert_eq!(code, 1);
}

#[test]
fn execution_reports() {
    let result = ExecutionResult {
        stdout: "o".to_string(),
        stderr: "e".to_string(),
        status: ExecutionStatus::Warning,
        exit_code: 0,
    };
    let (report, code) = handle_execution_result("cleanup_execution", Ok(result), 77);
    assert_eq!(code, 0);
    assert_eq!(report.execution_action, "cleanup_execution");
    assert_eq!(report.execution_status, ExecutionStatus::Warning);
    assert_eq!(report.execution_duration, 77);
    assert_eq!(stdout(&report), "o");
    assert_eq!(stderr(&report), "e");
    let (report, code) = handle_execution_result("x", Err(Error::Io("gone".to_string())), 1);
    assert_eq!(code, -1);
    assert_eq!(report.execution_status, ExecutionStatus::Error);
    assert_eq!(stdout(&report), "");
    assert_eq!(stderr(&report), "Io(\"gone\")");
    assert_eq!(exit_code(&report), -1);
}

#[test]
fn plain_reports() {
    let ok = report_success("file_drop", "out".to_string(), None, 4);
    assert_eq!(ok.execution_status, ExecutionStatus::Success);
    assert_eq!(ok.execution_action, "file_drop");
    assert_eq!(ok.execution_duration, 4);
    assert_eq!(stdout(&ok), "out");
    assert_eq!(stderr(&ok), "");
    assert_eq!(exit_code(&ok), -1);
    let ok = report_success("file_drop", "out".to_string(), Some("err".to_string()), 4);
    assert_eq!(stderr(&ok), "err");
    let ko = report_error("file_drop", Some("out".to_string()), "err".to_string(), 5);
    assert_eq!(ko.execution_status, ExecutionStatus::Error);
    assert_eq!(stdout(&ko), "out");
    assert_eq!(stderr(&ko), "err");
    assert_eq!(exit_code(&ko), -1);
    let ko = report_error("file_drop", None, "err".to_string(), 5);
    assert_eq!(stdout(&ko), "");
}

#[test]
fn file_requests_and_outcomes() {
    let target = Some("doc-1".to_string());
    assert_eq!(request_file(&target).unwrap(), "doc-1");
    match request_file(&None) {
        Err((report, Error::Internal(message))) => {
            assert_eq!(message, "Payload download fail, document not specified");
            assert_eq!(stderr(&report), "Payload download fail, document not specified");
        }
        other => panic!("unexpected result: {:?}", other),
    }
    let file = DownloadedFile { name: "n".to_string(), path: "/p/n".to_string() };
    let (report, handed_on) = handle_file(Ok(file), 3);
    assert_eq!(report.execution_status, ExecutionStatus::Success);
    assert_eq!(handed_on.unwrap().name, "n");
    let (report, handed_on) = handle_file(Err(Error::Internal("bad".to_string())), 3);
    assert_eq!(stderr(&report), "Internal(\"bad\")");
    assert!(matches!(handed_on, Err(Error::Internal(_))));
}

#[test]
fn executor_is_looked_for_before_the_command_runs() {
    let c = command_contract("id");
    let mut state = start();
    state.stage = Stage::Cleanup;
    let command = encode_command("id");
    let asked = handle_execution_command(
        "cleanup_execution", &c, &context(), state, Event::Resume, &command, "bash", false,
    );
    let step = match asked {
        Execution::Pending(step) => step,
        other => panic!("unexpected result: {:?}", other),
    };
    assert!(matches!(&step.action, Action::Probe(executor) if executor == "bash"));
    assert!(step.state.waiting && !step.state.probed);
    let asked = handle_execution_command(
        "cleanup_execution", &c, &context(), step.state, Event::Probed { present: true }, &command,
        "bash", false,
    );
    let running = match asked {
        Execution::Pending(step) => step,
        other => panic!("unexpected result: {:?}", other),
    };
    assert_eq!(expression(&running.action), "id");
    assert!(running.state.waiting && running.state.probed);
    let done = handle_execution_command(
        "cleanup_execution", &c, &context(), running.state, exited(1, "", "", 9), &command, "bash",
        false,
    );
    match done {
        Execution::Done { report, code } => {
            assert_eq!(code, 1);
            assert_eq!(report.execution_status, ExecutionStatus::MaybePrevented);
            assert_eq!(report.execution_action, "cleanup_execution");
            assert_eq!(report.execution_duration, 9);
        }
        other => panic!("unexpected result: {:?}", other),
    }
    let absent = handle_execution_command(
        "cleanup_execution", &c, &context(), step.state, Event::Probed { present: false },
        &command, "bash", false,
    );
    match absent {
        Execution::Done { report, code } => {
            assert_eq!(code, -1);
            assert_eq!(stderr(&report), "Internal(\"Executor bash is not available.\")");
        }
        other => panic!("unexpected result: {:?}", other),
    }
    let unanswered = handle_execution_command(
        "cleanup_execution", &c, &context(), step.state, Event::Resume, &command, "bash", false,
    );
    assert!(matches!(unanswered, Execution::Done { code: -1, .. }));
}

#[test]
fn every_run_is_preceded_by_a_probe() {
    let mut c = command_contract("run-payload");
    c.payload_prerequisites = Some(vec![prerequisite(Some("check"), "install")]);
    c.payload_cleanup_command = Some(encode_command("cleanup"));
    c.payload_cleanup_executor = Some("psh".to_string());
    let script =
        vec![exited(2, "", "", 1), exited(0, "", "", 1), exited(0, "", "", 1), exited(0, "", "", 1)];
    let done = run(&c, &context(), script);
    assert_eq!(done.probes, vec!["bash", "bash", "sh", "powershell"]);
    assert_eq!(done.actions.len(), 4);
}

#[test]
fn file_is_not_run_without_its_executor() {
    let mut c = contract("Executable");
    c.executable_file = Some("doc-9".to_string());
    let file = DownloadedFile { name: "run.sh".to_string(), path: "/opt/agent/run.sh".to_string() };
    let script = vec![Event::Downloaded { file: Ok(file), elapsed: 9 }];
    let done = run_without(&["bash"], &c, &context(), script);
    assert_eq!(done.probes, vec!["bash"]);
    assert_eq!(done.actions.len(), 1);
    assert!(matches!(&done.actions[0], Action::Download { .. }));
    assert_eq!(done.reports.len(), 3);
    assert_eq!(done.reports[0].execution_action, "file_drop");
    assert_eq!(done.reports[0].execution_status, ExecutionStatus::Success);
    assert_eq!(done.reports[1].execution_action, "file execution");
    assert_eq!(done.reports[1].execution_status, ExecutionStatus::Error);
    assert_eq!(stderr(&done.reports[1]), "Internal(\"Executor 'bash' is not available.\")");
    assert_eq!(done.exit_code, -1);
}

#[test]
fn steps_of_each_kind() {
    let mut state = start();
    state.stage = Stage::MainDispatch;
    let c = command_contract("id");
    let step = handle_command(&c, &context(), state, Event::Resume);
    assert!(step.reports.is_empty());
    assert!(step.state.waiting);
    assert_eq!(step.state.stage, Stage::MainDispatch);
    assert!(matches!(&step.action, Action::Probe(executor) if executor == "sh"));
    let step = handle_command(&c, &context(), step.state, Event::Probed { present: true });
    assert_eq!(expression(&step.action), "id");
    let step = handle_command(&c, &context(), step.state, exited(9, "", "", 1));
    assert_eq!(step.state.stage, Stage::Cleanup);
    assert_eq!(step.state.exit_code, 9);
    assert!(matches!(step.action, Action::Continue));

    let mut d = contract("FileDrop");
    d.file_drop_file = Some("doc".to_string());
    let step = handle_file_drop(&d, state, Event::Resume);
    assert!(matches!(&step.action, Action::Download { document, in_memory: false } if document == "doc"));
    let mut e = contract("Executable");
    e.executable_file = Some("exe".to_string());
    let step = handle_file_execute(&e, &context(), state, Event::Resume);
    assert!(matches!(&step.action, Action::Probe(executor) if executor == "bash"));
    let step = handle_file_execute(&e, &context(), step.state, Event::Probed { present: true });
    assert!(matches!(&step.action, Action::Download { document, in_memory: false } if document == "exe"));
    assert_eq!(step.state.stage, Stage::FileFetch);
    let file = DownloadedFile { name: "f".to_string(), path: "/x/f".to_string() };
    let step =
        handle_file_fetch(&context(), step.state, Event::Downloaded { file: Ok(file), elapsed: 2 });
    assert_eq!(step.state.stage, Stage::FileExecution);
    assert!(step.state.waiting);
    assert_eq!(expression(&step.action), "/x/f");
    let step = handle_execution_file(&context(), step.state, exited(0, "", "", 1));
    assert_eq!(step.state.stage, Stage::Cleanup);
    assert_eq!(step.reports[0].execution_action, "file execution");

    let mut n = contract("DnsResolution");
    n.dns_resolution_hostname = Some("one\ntwo".to_string());
    state.stage = Stage::Resolution;
    state.index = 1;
    let step = handle_dns_resolution(&n, state, Event::Resume);
    assert!(matches!(&step.action, Action::Resolve(target) if target == "two:80"));
    let step = handle_dns_resolution(&n, step.state, Event::Resolved { addresses: Ok(vec![]) });
    assert_eq!(step.state.index, 2);
    assert_eq!(stdout(&step.reports[0]), "two: ");
    let step = handle_dns_resolution(&n, step.state, Event::Resume);
    assert_eq!(step.state.stage, Stage::Cleanup);
}
