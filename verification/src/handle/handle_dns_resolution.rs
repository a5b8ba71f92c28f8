use crate::api::manage_inject::{
    ExecutionMessage, ExecutionMessageView, InjectorContractPayload, UpdateInput,
    UpdateInputView,
};
use crate::api::manage_reporting::text_or_empty;
use crate::pipeline::{
    asks, at_stage, awaited_resolution, conclude_resolution, goes_on, moved, no_report,
    one_report, step_asking, step_on, Action, ActionView, Event, PipelineState, Stage, Step,
    StepView,
};
use crate::handle::{ExecutionOutput, ExecutionOutputView};
use crate::process::command_exec::{texts_of, ExecutionStatus};
use crate::text::{chars_of, text_of};
use vstd::prelude::*;
use vstd::string::StringExecFns;

verus! {

/// Exit code reported for a name that could not be resolved.
pub const UNRESOLVED_EXIT_CODE: i32 = 1;

/// The lines of `text` from the line that begins at `start` on, the text
/// having been read up to `at`. A line ends before a line feed or at the end
/// of the text, so a text without a line feed is one line, and a text that
/// ends in a line feed has an empty last line.
pub open spec fn lines_scan(text: Seq<char>, start: int, at: int) -> Seq<Seq<char>>
    decreases text.len() - at,
{
    if at < 0 || at >= text.len() {
        seq![text.subrange(start, text.len() as int)]
    } else if text[at] == '\n' {
        seq![text.subrange(start, at)] + lines_scan(text, at + 1, at + 1)
    } else {
        lines_scan(text, start, at + 1)
    }
}

/// The host names of a list that holds one name per line.
pub open spec fn hostnames_of(text: Seq<char>) -> Seq<Seq<char>> {
    lines_scan(text, 0, 0)
}

/// A list of host names is never empty.
pub proof fn lemma_lines_not_empty(text: Seq<char>, start: int, at: int)
    ensures
        lines_scan(text, start, at).len() > 0,
    decreases text.len() - at,
{
    if 0 <= at < text.len() {
        if text[at] == '\n' {
            lemma_lines_not_empty(text, at + 1, at + 1);
        } else {
            lemma_lines_not_empty(text, start, at + 1);
        }
    }
}

/// Splits a list of host names, one per line, into the names.
pub fn split_hostnames(list: &str) -> (names: Vec<String>)
    ensures
        texts_of(names@) == hostnames_of(list@),
        names@.len() > 0,
{
    let text = chars_of(list);
    let mut names: Vec<String> = Vec::new();
    let mut line: Vec<char> = Vec::new();
    let mut at: usize = 0;
    let ghost mut start: int = 0;
    while at < text.len()
        invariant
            0 <= start <= at <= text.len(),
            line@ == text@.subrange(start, at as int),
            texts_of(names@) + lines_scan(text@, start, at as int) == hostnames_of(text@),
        decreases text.len() - at,
    {
        let ghost before = texts_of(names@);
        let ghost rest = lines_scan(text@, start, at as int);
        if text[at] == '\n' {
            names.push(text_of(&line));
            line = Vec::new();
            at += 1;
            proof {
                assert(texts_of(names@) =~= before.push(text@.subrange(start, at - 1)));
                start = at as int;
                assert(texts_of(names@) + lines_scan(text@, start, at as int) =~= before + rest);
            }
            assert(line@ =~= text@.subrange(start, at as int));
        } else {
            line.push(text[at]);
            at += 1;
            assert(line@ =~= text@.subrange(start, at as int));
        }
    }
    let ghost before = texts_of(names@);
    names.push(text_of(&line));
    proof {
        assert(texts_of(names@) =~= before.push(text@.subrange(start, text@.len() as int)));
        assert(texts_of(names@) =~= before + lines_scan(text@, start, at as int));
    }
    names
}

/// What is handed to the resolver for a host name: the name and the port of HTTP.
pub open spec fn resolution_target(hostname: Seq<char>) -> Seq<char> {
    hostname + ":80"@
}

/// The name and port to resolve for a host name.
pub fn dns_target(hostname: &str) -> (target: String)
    ensures
        target@ == resolution_target(hostname@),
{
    let mut target = String::from_str(hostname);
    target.append(":80");
    target
}

/// The first `count` of `items`, with `separator` between each two.
pub open spec fn joined(items: Seq<Seq<char>>, separator: Seq<char>, count: int) -> Seq<char>
    decreases count,
{
    if count <= 0 {
        Seq::empty()
    } else if count == 1 {
        items[0]
    } else {
        joined(items, separator, count - 1) + separator + items[count - 1]
    }
}

/// The action under which the resolution of a host name is reported.
pub open spec fn dns_action() -> Seq<char> {
    "dns resolution"@
}

/// The report of the resolution of one host name. A name that resolved is a
/// success, with the name and its addresses on standard output; one that did
/// not is an error, with the reason on standard error.
pub open spec fn resolution_report(
    hostname: Seq<char>,
    resolution: Result<Seq<Seq<char>>, Seq<char>>,
) -> UpdateInputView {
    match resolution {
        Ok(addresses) => UpdateInputView {
            execution_message: ExecutionMessageView::Output(
                ExecutionOutputView {
                    action: dns_action(),
                    stdout: hostname + ": "@ + joined(addresses, ", "@, addresses.len() as int),
                    stderr: Seq::empty(),
                    exit_code: 0,
                },
            ),
            execution_status: ExecutionStatus::Success,
            execution_action: dns_action(),
            execution_duration: 0,
        },
        Err(reason) => UpdateInputView {
            execution_message: ExecutionMessageView::Output(
                ExecutionOutputView {
                    action: dns_action(),
                    stdout: Seq::empty(),
                    stderr: reason,
                    exit_code: UNRESOLVED_EXIT_CODE as int,
                },
            ),
            execution_status: ExecutionStatus::Error,
            execution_action: dns_action(),
            execution_duration: 0,
        },
    }
}

/// What the resolver said, as plain text.
pub open spec fn resolution_view(resolution: Result<Vec<String>, String>) -> Result<
    Seq<Seq<char>>,
    Seq<char>,
> {
    match resolution {
        Ok(addresses) => Ok(texts_of(addresses@)),
        Err(reason) => Err(reason@),
    }
}

/// The exit code that the resolution of one host name hands on.
pub open spec fn resolution_code(resolution: Result<Seq<Seq<char>>, Seq<char>>) -> int {
    match resolution {
        Ok(_) => 0,
        Err(_) => UNRESOLVED_EXIT_CODE as int,
    }
}

/// Turns what the resolver said of one host name into the report of it and
/// the exit code that it hands on.
pub fn report_resolution(hostname: &str, resolution: Result<Vec<String>, String>) -> (r: (
    UpdateInput,
    i32,
))
    ensures
        r.0@ == resolution_report(hostname@, resolution_view(resolution)),
        r.1 == resolution_code(resolution_view(resolution)),
{
    match resolution {
        Ok(addresses) => {
            let mut stdout = String::from_str(hostname);
            stdout.append(": ");
            let ghost head = stdout@;
            let mut i: usize = 0;
            while i < addresses.len()
                invariant
                    i <= addresses.len(),
                    stdout@ == head + joined(texts_of(addresses@), ", "@, i as int),
                decreases addresses.len() - i,
            {
                let ghost so_far = joined(texts_of(addresses@), ", "@, i as int);
                if i > 0 {
                    stdout.append(", ");
                }
                stdout.append(addresses[i].as_str());
                i += 1;
                assert(stdout@ =~= head + joined(texts_of(addresses@), ", "@, i as int)) by {
                    assert(texts_of(addresses@)[i - 1] == addresses@[i - 1]@);
                    if i == 1 {
                        assert(so_far =~= Seq::<char>::empty());
                    }
                }
            }
            let message = ExecutionOutput {
                action: String::from_str("dns resolution"),
                stdout,
                stderr: String::new(),
                exit_code: 0,
            };
            (
                UpdateInput {
                    execution_message: ExecutionMessage::Output(message),
                    execution_status: ExecutionStatus::Success,
                    execution_action: String::from_str("dns resolution"),
                    execution_duration: 0,
                },
                0,
            )
        },
        Err(reason) => {
            let message = ExecutionOutput {
                action: String::from_str("dns resolution"),
                stdout: String::new(),
                stderr: reason,
                exit_code: UNRESOLVED_EXIT_CODE,
            };
            (
                UpdateInput {
                    execution_message: ExecutionMessage::Output(message),
                    execution_status: ExecutionStatus::Error,
                    execution_action: String::from_str("dns resolution"),
                    execution_duration: 0,
                },
                UNRESOLVED_EXIT_CODE,
            )
        },
    }
}

/// The step at the resolution of host names: each name of the list is
/// resolved and reported in turn, and the run fails with the exit code of
/// the last name that did not resolve.
pub open spec fn resolution_step(
    contract: InjectorContractPayload,
    state: PipelineState,
    event: Event,
) -> StepView {
    let names = hostnames_of(text_or_empty(contract.dns_resolution_hostname));
    if state.index >= names.len() {
        goes_on(at_stage(state, Stage::Cleanup, 0), Seq::empty())
    } else if state.waiting {
        let said = awaited_resolution(event);
        let next = at_stage(state, Stage::Resolution, state.index + 1);
        goes_on(
            if said is Ok {
                next
            } else {
                PipelineState { exit_code: resolution_code(said) as i32, ..next }
            },
            seq![resolution_report(names[state.index as int], said)],
        )
    } else {
        asks(
            state,
            Seq::empty(),
            ActionView::Resolve(resolution_target(names[state.index as int])),
        )
    }
}

/// Takes the step of a run that is resolving host names.
pub fn handle_dns_resolution(contract: &InjectorContractPayload, state: PipelineState, event: Event) -> (step:
    Step)
    ensures
        step@ == resolution_step(*contract, state, event),
{
    let list = match &contract.dns_resolution_hostname {
        Some(list) => list.as_str(),
        None => "",
    };
    proof {
        reveal_strlit("");
        assert(list@ =~= text_or_empty(contract.dns_resolution_hostname));
    }
    let names = split_hostnames(list);
    if state.index >= names.len() {
        return step_on(moved(state, Stage::Cleanup, 0), no_report());
    }
    let name = names[state.index].as_str();
    assert(texts_of(names@)[state.index as int] == name@);
    if state.waiting {
        let said = conclude_resolution(event);
        let failed = said.is_err();
        let (report, code) = report_resolution(name, said);
        let next = moved(state, Stage::Resolution, state.index + 1);
        if failed {
            let marked = PipelineState {
                stage: next.stage,
                index: next.index,
                waiting: next.waiting,
                probed: next.probed,
                failures: next.failures,
                verdict: next.verdict,
                exit_code: code,
            };
            step_on(marked, one_report(report))
        } else {
            step_on(next, one_report(report))
        }
    } else {
        step_asking(state, no_report(), Action::Resolve(dns_target(name)))
    }
}

} // verus!
