use crate::error::{Error, ErrorView};
use crate::handle::{ExecutionOutput, ExecutionOutputView};
use crate::process::exec_utils::{decode_filename, filename_decoding, invalid_filename_message};
use crate::process::command_exec::ExecutionStatus;
use vstd::prelude::*;

verus! {

/// One named argument of a payload.
#[derive(Debug)]
pub struct PayloadArg {
    /// The type tag of the argument, such as `text` or `document`.
    pub arg_type: String,
    pub key: String,
    pub description: Option<String>,
    pub default_value: Option<String>,
}

/// A dependency of a payload: how to install it, and how to tell that it is already there.
#[derive(Debug)]
pub struct PayloadPrerequisite {
    pub executor: String,
    pub get_command: String,
    pub check_command: Option<String>,
    pub description: Option<String>,
}

/// The description of a payload as the controller hands it out.
#[derive(Debug)]
pub struct InjectorContractPayload {
    pub payload_id: Option<String>,
    pub payload_type: String,
    pub payload_arguments: Option<Vec<PayloadArg>>,
    pub file_drop_file: Option<String>,
    pub executable_file: Option<String>,
    pub dns_resolution_hostname: Option<String>,
    pub payload_prerequisites: Option<Vec<PayloadPrerequisite>>,
    pub command_executor: Option<String>,
    pub command_content: Option<String>,
    pub payload_cleanup_executor: Option<String>,
    pub payload_cleanup_command: Option<String>,
}

/// What the controller answers to a status report.
#[derive(Debug)]
pub struct UpdateInjectResponse {
    pub inject_id: String,
}

/// What a status report says: the output of an execution, which the sender
/// puts into the wire format, or a plain sentence.
#[derive(Debug)]
pub enum ExecutionMessage {
    Output(ExecutionOutput),
    Text(String),
}

/// A message as plain text.
pub enum ExecutionMessageView {
    Output(ExecutionOutputView),
    Text(Seq<char>),
}

impl View for ExecutionMessage {
    type V = ExecutionMessageView;

    open spec fn view(&self) -> ExecutionMessageView {
        match *self {
            ExecutionMessage::Output(output) => ExecutionMessageView::Output(output@),
            ExecutionMessage::Text(text) => ExecutionMessageView::Text(text@),
        }
    }
}

/// One status report to the controller: what happened, how it is to be
/// read, which stage of the run it comes from, and how many milliseconds the
/// stage took.
#[derive(Debug)]
pub struct UpdateInput {
    pub execution_message: ExecutionMessage,
    pub execution_status: ExecutionStatus,
    pub execution_action: String,
    pub execution_duration: u128,
}

/// A status report as plain text.
pub struct UpdateInputView {
    pub execution_message: ExecutionMessageView,
    pub execution_status: ExecutionStatus,
    pub execution_action: Seq<char>,
    pub execution_duration: nat,
}

impl View for UpdateInput {
    type V = UpdateInputView;

    open spec fn view(&self) -> UpdateInputView {
        UpdateInputView {
            execution_message: self.execution_message@,
            execution_status: self.execution_status,
            execution_action: self.execution_action@,
            execution_duration: self.execution_duration as nat,
        }
    }
}

/// What reading a `Content-Disposition` header gave.
#[derive(Debug)]
pub enum ContentDisposition {
    /// The header could not be read at all.
    Unreadable,
    /// The header was read; this is its `filename` parameter, if it has one.
    Read { filename: Option<String> },
}

/// The text of the error for a header that could not be read.
pub open spec fn unreadable_header_message() -> Seq<char> {
    "Failed to parse Content-Disposition"@
}

/// The text of the error for a header without a file name.
pub open spec fn missing_filename_message() -> Seq<char> {
    "Filename not found"@
}

/// The name under which a fetched document is stored: the `filename`
/// parameter of its `Content-Disposition` header, percent-decoded. A header
/// that could not be read, one without a file name, and a file name that
/// does not decode to UTF-8 are internal errors.
pub fn extract_filename(header: ContentDisposition) -> (r: Result<String, Error>)
    ensures
        match header {
            ContentDisposition::Unreadable => r matches Err(e) && e@ == ErrorView::Internal(
                unreadable_header_message(),
            ),
            ContentDisposition::Read { filename: None } => r matches Err(e) && e@
                == ErrorView::Internal(missing_filename_message()),
            ContentDisposition::Read { filename: Some(name) } => match r {
                Ok(decoded) => filename_decoding(name@) == Some(decoded@),
                Err(e) => filename_decoding(name@) is None && e@ == ErrorView::Internal(
                    invalid_filename_message(name@),
                ),
            },
        },
{
    match header {
        ContentDisposition::Unreadable => Err(
            Error::internal("Failed to parse Content-Disposition"),
        ),
        ContentDisposition::Read { filename: None } => Err(Error::internal("Filename not found")),
        ContentDisposition::Read { filename: Some(name) } => decode_filename(name.as_str()),
    }
}

} // verus!
