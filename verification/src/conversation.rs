//! The conversation owned by the orchestrator: the transcript history, the
//! user message queued for the next backend call, the selected model and the
//! active policy. History is mutated only between state transitions, and
//! only through the methods here, so the last entry is always a complete
//! message.
use vstd::prelude::*;

use crate::agent::Agents;
use crate::compaction::CompactStrategy;
use crate::errors::RequestMetadata;
use crate::message::{
    AssistantMessage,
    AssistantMessageV,
    HistoryEntry,
    HistoryEntryV,
    ToolUseResult,
    ToolUseResultV,
    UserMessage,
    UserMessageContent,
    UserMessageV,
    duplicate_history,
    duplicate_opt_string,
    duplicate_tool_results,
    duplicate_tool_uses,
};
use crate::tools::QueuedTool;

verus! {

/// The conversation as handed to the backend for one call: the full history
/// with the outgoing user message appended, and the selected model.
#[derive(Debug)]
pub struct ConversationSnapshot {
    pub history: Vec<HistoryEntry>,
    pub model: Option<String>,
}

/// The conversation state owned by one chat session.
pub struct Conversation {
    pub conversation_id: String,
    pub history: Vec<HistoryEntry>,
    /// The user message queued for the next backend call, not yet part of
    /// the history.
    pub next_message: Option<UserMessage>,
    pub model: Option<String>,
    pub agents: Agents,
    /// Message id of the most recent assistant message.
    pub latest_message_id: Option<String>,
}

/// `s` cut off at `max` characters.
pub open spec fn truncated_text(s: Seq<char>, max: nat) -> Seq<char> {
    if s.len() <= max {
        s
    } else {
        s.take(max as int)
    }
}

/// A history entry with every piece of text cut off at `max` characters.
pub open spec fn truncated_entry(e: HistoryEntryV, max: nat) -> HistoryEntryV {
    match e {
        HistoryEntryV::User(UserMessageV::Prompt(s)) => HistoryEntryV::User(
            UserMessageV::Prompt(truncated_text(s, max)),
        ),
        HistoryEntryV::User(UserMessageV::ToolUseResults(rs)) => HistoryEntryV::User(
            UserMessageV::ToolUseResults(
                rs.map_values(
                    |r: ToolUseResultV| ToolUseResultV {
                        content: truncated_text(r.content, max),
                        ..r
                    },
                ),
            ),
        ),
        HistoryEntryV::Assistant(a) => HistoryEntryV::Assistant(
            AssistantMessageV { content: truncated_text(a.content, max), ..a },
        ),
    }
}

/// The summarization request built from a history: its entries without the
/// most recent `messages_to_exclude`, truncated when the strategy says so,
/// closed by the summarization instruction as a user message.
pub open spec fn summary_request_history(
    history: Seq<HistoryEntryV>,
    custom: Option<String>,
    strategy: CompactStrategy,
) -> Seq<HistoryEntryV> {
    let kept_len = if strategy.messages_to_exclude <= history.len() {
        (history.len() - strategy.messages_to_exclude) as int
    } else {
        0int
    };
    let kept = history.take(kept_len);
    let base = if strategy.truncate_large_messages {
        kept.map_values(|e: HistoryEntryV| truncated_entry(e, strategy.max_message_length as nat))
    } else {
        kept
    };
    base.push(HistoryEntryV::User(UserMessageV::Prompt(summary_prompt_text(custom))))
}

/// The instruction sent in place of a user prompt when the history is
/// summarized, with the caller's extra guidance appended when there is any.
pub open spec fn summary_prompt_text(custom: Option<String>) -> Seq<char> {
    let base =
        "Summarize this conversation so that it can be continued from the summary alone: keep every fact, decision, open question and file mentioned."@;
    match custom {
        None => base,
        Some(p) => base + "\n\n"@ + p@,
    }
}

fn truncated_string(s: &String, max: usize) -> (r: String)
    ensures
        r@ == truncated_text(s@, max as nat),
{
    let n = s.as_str().unicode_len();
    if n <= max {
        s.clone()
    } else {
        String::from_str(s.as_str().substring_char(0, max))
    }
}

fn truncate_results(rs: &Vec<ToolUseResult>, max: usize) -> (r: Vec<ToolUseResult>)
    ensures
        r.deep_view() =~= rs.deep_view().map_values(
            |v: ToolUseResultV| ToolUseResultV { content: truncated_text(v.content, max as nat), ..v },
        ),
{
    let ghost target = rs.deep_view().map_values(
        |v: ToolUseResultV| ToolUseResultV { content: truncated_text(v.content, max as nat), ..v },
    );
    let mut out: Vec<ToolUseResult> = Vec::new();
    let mut i: usize = 0;
    proof {
        assert(out.deep_view() =~= target.take(0));
    }
    while i < rs.len()
        invariant
            0 <= i <= rs@.len(),
            target == rs.deep_view().map_values(
                |v: ToolUseResultV| ToolUseResultV {
                    content: truncated_text(v.content, max as nat),
                    ..v
                },
            ),
            out.deep_view() =~= target.take(i as int),
        decreases rs@.len() - i,
    {
        let ghost pre = out.deep_view();
        let item = ToolUseResult {
            tool_use_id: rs[i].tool_use_id.clone(),
            content: truncated_string(&rs[i].content, max),
            status: rs[i].status,
        };
        let ghost itemv = item.deep_view();
        out.push(item);
        proof {
            assert(out.deep_view() =~= pre.push(itemv));
            assert(itemv == target[i as int]);
            assert(out.deep_view() =~= target.take(i as int + 1));
        }
        i = i + 1;
    }
    proof {
        assert(target.take(rs@.len() as int) =~= target);
    }
    out
}

/// A copy of one history entry with every piece of text cut off at `max`
/// characters.
fn truncate_entry(e: &HistoryEntry, max: usize) -> (r: HistoryEntry)
    ensures
        r.deep_view() == truncated_entry(e.deep_view(), max as nat),
{
    match e {
        HistoryEntry::User(u) => match &u.content {
            UserMessageContent::Prompt(s) => HistoryEntry::User(
                UserMessage { content: UserMessageContent::Prompt(truncated_string(s, max)) },
            ),
            UserMessageContent::ToolUseResults(rs) => HistoryEntry::User(
                UserMessage {
                    content: UserMessageContent::ToolUseResults(truncate_results(rs, max)),
                },
            ),
        },
        HistoryEntry::Assistant(a) => HistoryEntry::Assistant(
            AssistantMessage {
                message_id: duplicate_opt_string(&a.message_id),
                content: truncated_string(&a.content, max),
                tool_uses: duplicate_tool_uses(&a.tool_uses),
            },
        ),
    }
}

impl Conversation {
    pub fn new(conversation_id: String, agents: Agents, model: Option<String>) -> (r: Conversation)
        ensures
            r.conversation_id == conversation_id,
            r.history@.len() == 0,
            r.next_message is None,
            r.model == model,
            r.agents == agents,
            r.latest_message_id is None,
    {
        Conversation {
            conversation_id,
            history: Vec::new(),
            next_message: None,
            model,
            agents,
            latest_message_id: None,
        }
    }

    /// Queues a plain user prompt for the next backend call.
    pub fn set_next_user_message(&mut self, input: String)
        ensures
            final(self).next_message matches Some(m) && m@ == UserMessageV::Prompt(input@),
            final(self).history == old(self).history,
            final(self).model == old(self).model,
            final(self).agents == old(self).agents,
            final(self).conversation_id == old(self).conversation_id,
            final(self).latest_message_id == old(self).latest_message_id,
    {
        self.next_message = Some(UserMessage { content: UserMessageContent::Prompt(input) });
    }

    /// Drops whatever user message was queued.
    pub fn reset_next_user_message(&mut self)
        ensures
            final(self).next_message is None,
            final(self).history == old(self).history,
            final(self).model == old(self).model,
            final(self).agents == old(self).agents,
            final(self).conversation_id == old(self).conversation_id,
            final(self).latest_message_id == old(self).latest_message_id,
    {
        self.next_message = None;
    }

    /// Queues a batch of tool results for the next backend call.
    pub fn add_tool_results(&mut self, results: Vec<ToolUseResult>)
        ensures
            final(self).next_message matches Some(m) && m@ == UserMessageV::ToolUseResults(
                results.deep_view(),
            ),
            final(self).history == old(self).history,
            final(self).model == old(self).model,
            final(self).agents == old(self).agents,
            final(self).conversation_id == old(self).conversation_id,
            final(self).latest_message_id == old(self).latest_message_id,
    {
        self.next_message = Some(UserMessage { content: UserMessageContent::ToolUseResults(results) });
    }

    /// Records that every queued tool was abandoned, with one synthetic
    /// error result per tool, in request order, all carrying the same
    /// explanation.
    pub fn abandon_tool_use(&mut self, tools: &Vec<QueuedTool>, reason: String)
        ensures
            final(self).next_message matches Some(m) && (m@ matches UserMessageV::ToolUseResults(rs)
                && rs.len() == tools@.len() && forall|k: int|
                0 <= k < rs.len() ==> (#[trigger] rs[k]).tool_use_id == tools@[k].id@
                    && rs[k].content == reason@ && rs[k].status
                    == crate::message::ToolResultStatus::Error),
            final(self).history == old(self).history,
            final(self).model == old(self).model,
            final(self).agents == old(self).agents,
            final(self).conversation_id == old(self).conversation_id,
            final(self).latest_message_id == old(self).latest_message_id,
    {
        let mut results: Vec<ToolUseResult> = Vec::new();
        let mut i: usize = 0;
        while i < tools.len()
            invariant
                0 <= i <= tools@.len(),
                results.deep_view().len() == i,
                forall|k: int|
                    0 <= k < i ==> (#[trigger] results.deep_view()[k]) == (ToolUseResultV {
                        tool_use_id: tools@[k].id@,
                        content: reason@,
                        status: crate::message::ToolResultStatus::Error,
                    }),
            decreases tools@.len() - i,
        {
            let ghost pre = results.deep_view();
            let item = ToolUseResult {
                tool_use_id: tools[i].id.clone(),
                content: reason.clone(),
                status: crate::message::ToolResultStatus::Error,
            };
            let ghost itemv = item.deep_view();
            results.push(item);
            proof {
                assert(results.deep_view() =~= pre.push(itemv));
            }
            i = i + 1;
        }
        self.next_message = Some(UserMessage { content: UserMessageContent::ToolUseResults(results) });
    }

    /// Appends a complete assistant message to the history.
    pub fn push_assistant_message(
        &mut self,
        message: AssistantMessage,
        metadata: Option<RequestMetadata>,
    )
        ensures
            final(self).history.deep_view() =~= old(self).history.deep_view().push(
                HistoryEntryV::Assistant(message@),
            ),
            final(self).latest_message_id == message.message_id,
            final(self).next_message == old(self).next_message,
            final(self).model == old(self).model,
            final(self).agents == old(self).agents,
            final(self).conversation_id == old(self).conversation_id,
    {
        self.latest_message_id = duplicate_opt_string(&message.message_id);
        self.history.push(HistoryEntry::Assistant(message));
    }

    /// Moves the queued user message, when there is one, into the history,
    /// and hands back the snapshot that one backend call is made from.
    pub fn as_sendable_conversation_state(&mut self) -> (r: ConversationSnapshot)
        ensures
            match old(self).next_message {
                Some(m) => final(self).history.deep_view() =~= old(self).history.deep_view().push(
                    HistoryEntryV::User(m@),
                ),
                None => final(self).history.deep_view() =~= old(self).history.deep_view(),
            },
            final(self).next_message is None,
            r.history.deep_view() =~= final(self).history.deep_view(),
            r.model == final(self).model,
            final(self).model == old(self).model,
            final(self).agents == old(self).agents,
            final(self).conversation_id == old(self).conversation_id,
            final(self).latest_message_id == old(self).latest_message_id,
    {
        let queued = self.next_message.take();
        match queued {
            Some(m) => {
                self.history.push(HistoryEntry::User(m));
            },
            None => {},
        }
        ConversationSnapshot {
            history: duplicate_history(&self.history),
            model: duplicate_opt_string(&self.model),
        }
    }

    /// Builds the summarization request for the compaction engine: the
    /// history without its most recent `messages_to_exclude` entries,
    /// truncated when the strategy says so, with the summarization
    /// instruction as the closing user message.
    pub fn create_summary_request(
        &self,
        custom_prompt: &Option<String>,
        strategy: CompactStrategy,
    ) -> (r: ConversationSnapshot)
        ensures
            r.history.deep_view() =~= summary_request_history(
                self.history.deep_view(),
                *custom_prompt,
                strategy,
            ),
            r.model == self.model,
    {
        let kept_len: usize = if strategy.messages_to_exclude <= self.history.len() {
            self.history.len() - strategy.messages_to_exclude
        } else {
            0
        };
        let mut entries: Vec<HistoryEntry> = Vec::new();
        let mut i: usize = 0;
        let ghost kept = self.history.deep_view().take(kept_len as int);
        let ghost base = if strategy.truncate_large_messages {
            kept.map_values(
                |e: HistoryEntryV| truncated_entry(e, strategy.max_message_length as nat),
            )
        } else {
            kept
        };
        proof {
            assert(entries.deep_view() =~= base.take(0));
        }
        while i < kept_len
            invariant
                0 <= i <= kept_len <= self.history@.len(),
                kept == self.history.deep_view().take(kept_len as int),
                base == (if strategy.truncate_large_messages {
                    kept.map_values(
                        |e: HistoryEntryV| truncated_entry(e, strategy.max_message_length as nat),
                    )
                } else {
                    kept
                }),
                base.len() == kept_len,
                entries.deep_view() =~= base.take(i as int),
            decreases kept_len - i,
        {
            let ghost pre = entries.deep_view();
            let item = if strategy.truncate_large_messages {
                truncate_entry(&self.history[i], strategy.max_message_length)
            } else {
                self.history[i].duplicate()
            };
            let ghost itemv = item.deep_view();
            entries.push(item);
            proof {
                assert(kept[i as int] == self.history.deep_view()[i as int]);
                assert(entries.deep_view() =~= pre.push(itemv));
                assert(itemv == base[i as int]);
                assert(entries.deep_view() =~= base.take(i as int + 1));
            }
            i = i + 1;
        }
        proof {
            assert(base.take(kept_len as int) =~= base);
        }
        let mut prompt = String::new();
        prompt.append(
            "Summarize this conversation so that it can be continued from the summary alone: keep every fact, decision, open question and file mentioned.",
        );
        match custom_prompt {
            Some(p) => {
                prompt.append("\n\n");
                prompt.append(p.as_str());
            },
            None => {},
        }
        let ghost pre_final = entries.deep_view();
        let closing = HistoryEntry::User(UserMessage { content: UserMessageContent::Prompt(prompt) });
        let ghost closingv = closing.deep_view();
        entries.push(closing);
        proof {
            assert(entries.deep_view() =~= pre_final.push(closingv));
            assert(closingv == HistoryEntryV::User(
                UserMessageV::Prompt(summary_prompt_text(*custom_prompt)),
            ));
            assert(entries.deep_view() =~= base.push(
                HistoryEntryV::User(UserMessageV::Prompt(summary_prompt_text(*custom_prompt))),
            ));
        }
        ConversationSnapshot { history: entries, model: duplicate_opt_string(&self.model) }
    }

    /// Replaces the whole history with the model-generated summary, recorded
    /// as one complete assistant message.
    pub fn replace_history_with_summary(
        &mut self,
        summary: String,
        strategy: CompactStrategy,
        metadata: RequestMetadata,
    )
        ensures
            final(self).history.deep_view() =~= seq![
                HistoryEntryV::Assistant(
                    AssistantMessageV {
                        message_id: None,
                        content: summary@,
                        tool_uses: Seq::empty(),
                    },
                ),
            ],
            final(self).next_message == old(self).next_message,
            final(self).model == old(self).model,
            final(self).agents == old(self).agents,
            final(self).conversation_id == old(self).conversation_id,
    {
        let message = AssistantMessage::new_response(None, summary);
        proof {
            assert(message.tool_uses.deep_view() =~= Seq::<crate::message::ToolUseV>::empty());
        }
        let mut history: Vec<HistoryEntry> = Vec::new();
        history.push(HistoryEntry::Assistant(message));
        self.history = history;
        self.latest_message_id = None;
    }
}

} // verus!
