//! The error taxonomy of a turn, and the per-request metadata gathered for
//! telemetry. Every classified error yields a reason code and an optional
//! status code, so what the user sees is decoupled from what is logged.
use vstd::prelude::*;

use crate::message::AssistantMessage;
use crate::tools::QueuedTool;

verus! {

/// Timing, size and identifier facts about one backend call, accumulated per
/// user turn.
#[derive(Debug, Clone)]
pub struct RequestMetadata {
    pub request_id: Option<String>,
    pub message_id: String,
    pub model_id: Option<String>,
    pub response_size: usize,
    pub user_prompt_length: usize,
    pub request_start_timestamp_ms: u64,
    pub stream_end_timestamp_ms: u64,
}

impl RequestMetadata {
    /// A copy that is provably equal to the original.
    pub fn duplicate(&self) -> (r: RequestMetadata)
        ensures
            r == *self,
    {
        RequestMetadata {
            request_id: crate::message::duplicate_opt_string(&self.request_id),
            message_id: self.message_id.clone(),
            model_id: crate::message::duplicate_opt_string(&self.model_id),
            response_size: self.response_size,
            user_prompt_length: self.user_prompt_length,
            request_start_timestamp_ms: self.request_start_timestamp_ms,
            stream_end_timestamp_ms: self.stream_end_timestamp_ms,
        }
    }
}

/// Failure of one backend call, as the transport classified it.
#[derive(Debug, Clone)]
pub enum ApiError {
    /// The conversation no longer fits the model's context budget.
    ContextWindowOverflow,
    /// The request quota was exhausted; the turn ends without retry.
    QuotaBreach { status_code: Option<u16> },
    /// The selected model is temporarily unavailable.
    ModelOverloaded { request_id: Option<String>, status_code: Option<u16> },
    /// The monthly request limit was reached.
    MonthlyLimitReached,
    /// Any other transport failure.
    Other { reason: String, status_code: Option<u16> },
}

impl ApiError {
    pub open spec fn spec_status_code(&self) -> Option<u16> {
        match self {
            ApiError::ContextWindowOverflow => None,
            ApiError::QuotaBreach { status_code } => *status_code,
            ApiError::ModelOverloaded { request_id, status_code } => *status_code,
            ApiError::MonthlyLimitReached => None,
            ApiError::Other { reason, status_code } => *status_code,
        }
    }

    pub fn status_code(&self) -> (r: Option<u16>)
        ensures
            r == self.spec_status_code(),
    {
        match self {
            ApiError::ContextWindowOverflow => None,
            ApiError::QuotaBreach { status_code } => *status_code,
            ApiError::ModelOverloaded { request_id, status_code } => *status_code,
            ApiError::MonthlyLimitReached => None,
            ApiError::Other { reason, status_code } => *status_code,
        }
    }

    pub open spec fn spec_reason_code(&self) -> Seq<char> {
        match self {
            ApiError::ContextWindowOverflow => "ContextWindowOverflow"@,
            ApiError::QuotaBreach { status_code } => "QuotaBreach"@,
            ApiError::ModelOverloaded { request_id, status_code } => "ModelOverloadedError"@,
            ApiError::MonthlyLimitReached => "MonthlyLimitReached"@,
            ApiError::Other { reason, status_code } => reason@,
        }
    }

    pub fn reason_code(&self) -> (r: String)
        ensures
            r@ == self.spec_reason_code(),
    {
        let mut out = String::new();
        match self {
            ApiError::ContextWindowOverflow => {
                out.append("ContextWindowOverflow");
            },
            ApiError::QuotaBreach { status_code } => {
                out.append("QuotaBreach");
            },
            ApiError::ModelOverloaded { request_id, status_code } => {
                out.append("ModelOverloadedError");
            },
            ApiError::MonthlyLimitReached => {
                out.append("MonthlyLimitReached");
            },
            ApiError::Other { reason, status_code } => {
                out.append(reason.as_str());
            },
        }
        out
    }
}

/// Why consuming the response stream failed.
#[derive(Debug, Clone)]
pub enum RecvErrorKind {
    /// The stream stalled; the partial message is kept and the model is told
    /// to split the work up.
    StreamTimeout { duration_secs: u64 },
    /// The stream ended in the middle of a tool use; the partial message and
    /// a corrective tool result are recorded.
    UnexpectedToolUseEos { tool_use_id: String, name: String, message: AssistantMessage },
    /// Any other stream failure; fatal to the turn.
    Other { reason: String, status_code: Option<u16> },
}

/// Failure of one response stream, with the metadata of the request it
/// belonged to.
#[derive(Debug, Clone)]
pub struct RecvError {
    pub source: RecvErrorKind,
    pub request_metadata: RequestMetadata,
}

impl RecvError {
    pub open spec fn spec_status_code(&self) -> Option<u16> {
        match self.source {
            RecvErrorKind::Other { reason, status_code } => status_code,
            _ => None,
        }
    }
}

/// Everything that can end the handling of one chat state.
#[derive(Debug)]
pub enum ChatError {
    /// A backend client failure outside the send-message path.
    Client(ApiError),
    /// An authentication failure.
    Auth(String),
    /// Failure to send a message to the backend.
    SendMessage(ApiError),
    /// Failure while consuming the response stream.
    ResponseStream(RecvError),
    /// An I/O failure of the terminal or the local system.
    Std(String),
    /// A line-editor failure.
    Readline(String),
    /// Any other failure, described in text.
    Custom(String),
    /// Cooperative cancellation; carries the tools that were pending so the
    /// transcript can be mended.
    Interrupted { tool_uses: Option<Vec<QueuedTool>> },
    /// A prompt-template lookup failure.
    GetPromptError(String),
    /// Tool approval was needed but the session is non-interactive.
    NonInteractiveToolApproval,
    /// The conversation history is too large to compact.
    CompactHistoryFailure,
}

impl ChatError {
    pub open spec fn spec_status_code(&self) -> Option<u16> {
        match self {
            ChatError::Client(e) => e.spec_status_code(),
            ChatError::SendMessage(e) => e.spec_status_code(),
            _ => None,
        }
    }

    /// The HTTP status code of the underlying failure, where one exists.
    pub fn status_code(&self) -> (r: Option<u16>)
        ensures
            r == self.spec_status_code(),
    {
        match self {
            ChatError::Client(e) => e.status_code(),
            ChatError::SendMessage(e) => e.status_code(),
            ChatError::Auth(_) => None,
            ChatError::ResponseStream(_) => None,
            ChatError::Std(_) => None,
            ChatError::Readline(_) => None,
            ChatError::Custom(_) => None,
            ChatError::Interrupted { tool_uses } => None,
            ChatError::GetPromptError(_) => None,
            ChatError::NonInteractiveToolApproval => None,
            ChatError::CompactHistoryFailure => None,
        }
    }

    pub open spec fn spec_reason_code(&self) -> Seq<char> {
        match self {
            ChatError::Client(e) => e.spec_reason_code(),
            ChatError::SendMessage(e) => e.spec_reason_code(),
            ChatError::ResponseStream(e) => match e.source {
                RecvErrorKind::StreamTimeout { duration_secs } => "StreamTimeout"@,
                RecvErrorKind::UnexpectedToolUseEos { tool_use_id, name, message } =>
                    "UnexpectedToolUseEos"@,
                RecvErrorKind::Other { reason, status_code } => reason@,
            },
            ChatError::Std(_) => "StdIoError"@,
            ChatError::Readline(_) => "ReadlineError"@,
            ChatError::Custom(_) => "GenericError"@,
            ChatError::Interrupted { tool_uses } => "Interrupted"@,
            ChatError::GetPromptError(_) => "GetPromptError"@,
            ChatError::Auth(_) => "AuthError"@,
            ChatError::NonInteractiveToolApproval => "NonInteractiveToolApproval"@,
            ChatError::CompactHistoryFailure => "CompactHistoryFailure"@,
        }
    }

    /// The reason code recorded for telemetry and shown in diagnostics.
    pub fn reason_code(&self) -> (r: String)
        ensures
            r@ == self.spec_reason_code(),
    {
        let mut out = String::new();
        match self {
            ChatError::Client(e) => {
                return e.reason_code();
            },
            ChatError::SendMessage(e) => {
                return e.reason_code();
            },
            ChatError::ResponseStream(e) => {
                match &e.source {
                    RecvErrorKind::StreamTimeout { duration_secs } => {
                        out.append("StreamTimeout");
                    },
                    RecvErrorKind::UnexpectedToolUseEos { tool_use_id, name, message } => {
                        out.append("UnexpectedToolUseEos");
                    },
                    RecvErrorKind::Other { reason, status_code } => {
                        out.append(reason.as_str());
                    },
                }
            },
            ChatError::Std(_) => {
                out.append("StdIoError");
            },
            ChatError::Readline(_) => {
                out.append("ReadlineError");
            },
            ChatError::Custom(_) => {
                out.append("GenericError");
            },
            ChatError::Interrupted { tool_uses } => {
                out.append("Interrupted");
            },
            ChatError::GetPromptError(_) => {
                out.append("GetPromptError");
            },
            ChatError::Auth(_) => {
                out.append("AuthError");
            },
            ChatError::NonInteractiveToolApproval => {
                out.append("NonInteractiveToolApproval");
            },
            ChatError::CompactHistoryFailure => {
                out.append("CompactHistoryFailure");
            },
        }
        out
    }
}

} // verus!
