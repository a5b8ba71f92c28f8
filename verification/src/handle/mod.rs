//! What each stage of a run does with the outcome of the work it asked for.

use vstd::prelude::*;

pub mod handle_command;
pub mod handle_dns_resolution;
pub mod handle_execution;
pub mod handle_file;
pub mod handle_file_drop;
pub mod handle_file_execute;

verus! {

/// The output of one execution as it is reported: the stage it comes from,
/// what it wrote, and its exit code.
#[derive(Debug)]
pub struct ExecutionOutput {
    pub action: String,
    pub stdout: String,
    pub stderr: String,
    pub exit_code: i32,
}

/// A reported output as plain text.
pub struct ExecutionOutputView {
    pub action: Seq<char>,
    pub stdout: Seq<char>,
    pub stderr: Seq<char>,
    pub exit_code: int,
}

impl View for ExecutionOutput {
    type V = ExecutionOutputView;

    open spec fn view(&self) -> ExecutionOutputView {
        ExecutionOutputView {
            action: self.action@,
            stdout: self.stdout@,
            stderr: self.stderr@,
            exit_code: self.exit_code as int,
        }
    }
}

} // verus!
