//! The events of one backend response stream, and what one finite stream
//! amounts to: the tool uses collected before the stream stopped, and how it
//! stopped — a complete end-of-stream message, a failure, or exhaustion.
use vstd::prelude::*;

use crate::errors::{RecvError, RequestMetadata};
use crate::message::{AssistantMessage, ToolUse, ToolUseV};

verus! {

/// One event of a backend response stream.
#[derive(Debug, Clone)]
pub enum ResponseEvent {
    /// A tool use began; its arguments are still streaming.
    ToolUseStart { name: String },
    /// A fragment of assistant text.
    AssistantText(String),
    /// A complete tool use.
    ToolUse(ToolUse),
    /// The stream ended with the assembled message and the request's
    /// metadata.
    EndStream { message: AssistantMessage, request_metadata: RequestMetadata },
}

/// One received item: an event, or the failure that ended the stream.
pub type StreamItem = Result<ResponseEvent, RecvError>;

/// Whether this item stops the consumption of the stream.
pub open spec fn is_stop(ev: StreamItem) -> bool {
    match ev {
        Ok(ResponseEvent::EndStream { message, request_metadata }) => true,
        Err(_) => true,
        _ => false,
    }
}

/// Index of the first stopping item, or the length when none stops.
pub open spec fn stop_index(evs: Seq<StreamItem>) -> int
    decreases evs.len(),
{
    if evs.len() == 0 {
        0
    } else if is_stop(evs[0]) {
        0
    } else {
        1 + stop_index(evs.drop_first())
    }
}

/// The complete tool uses received before the stream stopped, as
/// mathematical values.
pub open spec fn collected_tool_uses(evs: Seq<StreamItem>) -> Seq<ToolUseV>
    decreases evs.len(),
{
    if evs.len() == 0 {
        Seq::empty()
    } else if is_stop(evs[0]) {
        Seq::empty()
    } else {
        match evs[0] {
            Ok(ResponseEvent::ToolUse(tu)) => seq![tu@] + collected_tool_uses(evs.drop_first()),
            _ => collected_tool_uses(evs.drop_first()),
        }
    }
}

/// The text fragments received before the stream stopped, concatenated:
/// the partial assistant message that a recoverable failure keeps.
pub open spec fn assembled_text(evs: Seq<StreamItem>) -> Seq<char>
    decreases evs.len(),
{
    if evs.len() == 0 {
        Seq::empty()
    } else if is_stop(evs[0]) {
        Seq::empty()
    } else {
        match evs[0] {
            Ok(ResponseEvent::AssistantText(t)) => t@ + assembled_text(evs.drop_first()),
            _ => assembled_text(evs.drop_first()),
        }
    }
}

/// The end-of-stream message and metadata, when the stream ended normally.
pub open spec fn end_of_stream(evs: Seq<StreamItem>) -> Option<(AssistantMessage, RequestMetadata)> {
    if stop_index(evs) < evs.len() {
        match evs[stop_index(evs)] {
            Ok(ResponseEvent::EndStream { message, request_metadata }) => Some(
                (message, request_metadata),
            ),
            _ => None,
        }
    } else {
        None
    }
}

/// The failure that stopped the stream, when one did.
pub open spec fn stream_failure(evs: Seq<StreamItem>) -> Option<RecvError> {
    if stop_index(evs) < evs.len() {
        match evs[stop_index(evs)] {
            Err(e) => Some(e),
            _ => None,
        }
    } else {
        None
    }
}

} // verus!
