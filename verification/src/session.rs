//! The turn orchestrator: the chat state machine. The session owns exactly
//! one [`ChatState`] at a time; the surrounding program takes it, performs
//! the I/O the state calls for, and hands the outcome back to the handler of
//! that state, whose result — the successor state, or an error — goes into
//! [`ChatSession::next`]. Every decision of the machine is made here; the
//! surrounding program only moves bytes.
use vstd::prelude::*;

use crate::agent::Agents;
use crate::compaction::{CompactStrategy, escalate_spec, escalate_on_overflow, overflow_entry, overflow_entry_strategy};
use crate::conversation::{Conversation, ConversationSnapshot};
use crate::errors::{ApiError, ChatError, RecvError, RecvErrorKind, RequestMetadata};
use crate::message::{
    AssistantMessage,
    AssistantMessageV,
    HistoryEntryV,
    ToolResultStatus,
    ToolUse,
    ToolUseResult,
    ToolUseResultV,
    UserMessageV,
};
use crate::shellwords::{shell_words, split_shell_words};
use crate::stream::{
    ResponseEvent,
    StreamItem,
    assembled_text,
    collected_tool_uses,
    end_of_stream,
    is_stop,
    stop_index,
    stream_failure,
};
use crate::text;
use crate::tools::{QueuedTool, Tool, permission_decision_spec, resolve_tool, resolved_tool};

verus! {

/// The chat execution state: exactly one value is current at any time; it is
/// taken before evaluation and replaced by the computed successor, so no
/// state is evaluated twice.
#[derive(Debug)]
pub enum ChatState {
    /// Prompt the user, or resume a pending tool confirmation.
    PromptUser { skip_printing_tools: bool },
    /// Handle one line of user input.
    HandleInput { input: String },
    /// Validate the list of tool uses provided by the model.
    ValidateTools { tool_uses: Vec<ToolUse> },
    /// Permission-evaluate and execute the queued tools.
    ExecuteTools,
    /// Send the snapshot to the backend and consume the response stream.
    HandleResponseStream(ConversationSnapshot),
    /// Compact the chat history.
    CompactHistory {
        /// Custom prompt to include as part of history compaction.
        prompt: Option<String>,
        /// Whether the summary should be shown on success.
        show_summary: bool,
        /// Parameters for how to perform the compaction request.
        strategy: CompactStrategy,
    },
    /// Offer a model switch after a model-overloaded failure.
    RetryModelOverload,
    /// Exit the chat.
    Exit,
}

impl Default for ChatState {
    fn default() -> (r: ChatState)
        ensures
            r matches ChatState::PromptUser { skip_printing_tools } && !skip_printing_tools,
    {
        ChatState::PromptUser { skip_printing_tools: false }
    }
}

/// What invoking one accepted tool produced: its captured output, or the
/// error the model must be told about.
#[derive(Debug, Clone)]
pub enum ToolOutcome {
    Success(String),
    Failure(String),
}

/// What one line of user input asks for. The `Continue` case is decided
/// entirely here; the other cases name the side effect the surrounding
/// program must perform before the turn goes on.
#[derive(Debug)]
pub enum HandleInputOutcome {
    /// The machine's own successor state.
    Continue(ChatState),
    /// A structured command; the program dispatches it and installs the
    /// state the command decides on.
    SlashCommand { args: Vec<String> },
    /// A prompt-template invocation.
    PromptTemplate { name: String, arguments: Option<Vec<String>> },
    /// A raw shell escape; the program runs it and returns to the prompt.
    ShellCommand { command: String },
}

/// The session driving one conversation.
pub struct ChatSession {
    pub conversation: Conversation,
    /// Tool uses requested by the model that are actively being handled.
    pub tool_uses: Vec<QueuedTool>,
    /// Index into `tool_uses` of the tool awaiting the user's confirmation.
    pub pending_tool_index: Option<usize>,
    /// Metadata of the backend calls of the current user turn.
    pub user_turn_request_metadata: Vec<RequestMetadata>,
    /// Request ids of failed calls, kept for diagnostics.
    pub failed_request_ids: Vec<String>,
    /// Names of the tools the session can resolve, beyond the built-in ones.
    pub tool_registry: Vec<String>,
    /// The first question, asked before any prompt is shown.
    pub initial_input: Option<String>,
    /// Whether an earlier conversation was resumed.
    pub existing_conversation: bool,
    pub interactive: bool,
    /// When set, a context-window overflow is reported instead of starting
    /// compaction.
    pub auto_compaction_disabled: bool,
    /// The current state; `None` only while a handler runs.
    pub inner: Option<ChatState>,
}

impl ChatSession {
    /// A pending confirmation always points at a queued tool.
    pub open spec fn wf(&self) -> bool {
        match self.pending_tool_index {
            Some(i) => i < self.tool_uses@.len(),
            None => true,
        }
    }

    /// Builds the session. A previous conversation is resumed when asked for
    /// and non-empty, with a summarization prompt as the first input when
    /// none was given; otherwise a fresh conversation starts, on the chosen
    /// model or the fallback.
    pub fn new(
        conversation_id: String,
        agents: Agents,
        input: Option<String>,
        previous_conversation: Option<Conversation>,
        resume_conversation: bool,
        model_id: Option<String>,
        fallback_model_id: String,
        tool_registry: Vec<String>,
        interactive: bool,
        auto_compaction_disabled: bool,
    ) -> (r: ChatSession)
        ensures
            r.wf(),
            ({
                let resumed = resume_conversation && (previous_conversation matches Some(p)
                    && p.history@.len() > 0);
                if resumed {
                    &&& r.existing_conversation
                    &&& r.conversation.history == previous_conversation.unwrap().history
                    &&& r.conversation.model == previous_conversation.unwrap().model
                    &&& r.conversation.agents == agents
                    &&& match input {
                        Some(i) => r.initial_input matches Some(v) && v@ == i@,
                        None => r.initial_input matches Some(v) && v@
                            == "In a few words, summarize our conversation so far."@,
                    }
                } else {
                    &&& !r.existing_conversation
                    &&& r.conversation.history@.len() == 0
                    &&& r.conversation.agents == agents
                    &&& r.conversation.conversation_id == conversation_id
                    &&& r.conversation.model matches Some(m) && m@ == (match model_id {
                        Some(id) => id@,
                        None => fallback_model_id@,
                    })
                    &&& r.initial_input == input
                }
            }),
            r.tool_uses@.len() == 0,
            r.pending_tool_index is None,
            r.user_turn_request_metadata@.len() == 0,
            r.tool_registry == tool_registry,
            r.interactive == interactive,
            r.auto_compaction_disabled == auto_compaction_disabled,
            r.inner matches Some(s) && (s matches ChatState::PromptUser { skip_printing_tools }
                && !skip_printing_tools),
    {
        let valid_model_id = match model_id {
            Some(id) => id,
            None => fallback_model_id,
        };
        let mut existing_conversation = false;
        let mut initial_input = input;
        let conversation = match previous_conversation {
            Some(mut prev) if resume_conversation && prev.history.len() > 0 => {
                existing_conversation = true;
                initial_input = match initial_input {
                    Some(i) => Some(i),
                    None => {
                        let mut s = String::new();
                        s.append("In a few words, summarize our conversation so far.");
                        Some(s)
                    },
                };
                prev.agents = agents;
                prev
            },
            _ => Conversation::new(conversation_id, agents, Some(valid_model_id)),
        };
        ChatSession {
            conversation,
            tool_uses: Vec::new(),
            pending_tool_index: None,
            user_turn_request_metadata: Vec::new(),
            failed_request_ids: Vec::new(),
            tool_registry,
            initial_input,
            existing_conversation,
            interactive,
            auto_compaction_disabled,
            inner: Some(ChatState::PromptUser { skip_printing_tools: false }),
        }
    }

    /// Takes the current state out for evaluation; [`ChatSession::next`]
    /// installs the successor.
    pub fn take_state(&mut self) -> (r: ChatState)
        requires
            old(self).inner is Some,
        ensures
            Some(r) == old(self).inner,
            final(self).inner is None,
            final(self).conversation == old(self).conversation,
            final(self).tool_uses == old(self).tool_uses,
            final(self).pending_tool_index == old(self).pending_tool_index,
            final(self).user_turn_request_metadata == old(self).user_turn_request_metadata,
            final(self).initial_input == old(self).initial_input,
            final(self).interactive == old(self).interactive,
            final(self).tool_registry == old(self).tool_registry,
            final(self).auto_compaction_disabled == old(self).auto_compaction_disabled,
    {
        let state = self.inner.take();
        match state {
            Some(s) => s,
            None => {
                proof {
                    assert(false);
                }
                ChatState::Exit
            },
        }
    }

    /// Takes the first input of the session, when one was given on the
    /// command line or synthesized for a resumed conversation.
    pub fn take_initial_input(&mut self) -> (r: Option<String>)
        ensures
            r == old(self).initial_input,
            final(self).initial_input is None,
            final(self).conversation == old(self).conversation,
            final(self).inner == old(self).inner,
            final(self).tool_uses == old(self).tool_uses,
            final(self).pending_tool_index == old(self).pending_tool_index,
    {
        self.initial_input.take()
    }

    /// Resets state associated with the active user turn; called whenever a
    /// new user prompt is sent to the backend.
    pub fn reset_user_turn(&mut self)
        ensures
            final(self).user_turn_request_metadata@.len() == 0,
            final(self).conversation == old(self).conversation,
            final(self).tool_uses == old(self).tool_uses,
            final(self).pending_tool_index == old(self).pending_tool_index,
            final(self).inner == old(self).inner,
            final(self).interactive == old(self).interactive,
            final(self).tool_registry == old(self).tool_registry,
            final(self).auto_compaction_disabled == old(self).auto_compaction_disabled,
    {
        self.user_turn_request_metadata = Vec::new();
    }

    /// Decides what the prompt state does with one read line: end of input
    /// ends the chat, anything else is handled as input. In non-interactive
    /// mode no line can be read: the chat ends when no tools are pending,
    /// and tool approval is a hard error.
    pub fn prompt_user(&mut self, skip_printing_tools: bool, line: Option<String>) -> (r: Result<
        ChatState,
        ChatError,
    >)
        ensures
            *final(self) == *old(self),
            if !old(self).interactive {
                if old(self).tool_uses@.len() == 0 {
                    r matches Ok(ChatState::Exit)
                } else {
                    r matches Err(ChatError::NonInteractiveToolApproval)
                }
            } else {
                match line {
                    None => r matches Ok(ChatState::Exit),
                    Some(l) => r matches Ok(ChatState::HandleInput { input }) && input == l,
                }
            },
    {
        if !self.interactive {
            if self.tool_uses.len() == 0 {
                return Ok(ChatState::Exit);
            }
            return Err(ChatError::NonInteractiveToolApproval);
        }
        let _ = skip_printing_tools;
        match line {
            None => Ok(ChatState::Exit),
            Some(l) => Ok(ChatState::HandleInput { input: l }),
        }
    }
}

impl ChatSession {
    /// Marks the queued tool at `i` accepted.
    fn accept_tool(&mut self, i: usize)
        requires
            i < old(self).tool_uses@.len(),
        ensures
            final(self).tool_uses@ =~= old(self).tool_uses@.update(
                i as int,
                QueuedTool { accepted: true, ..old(self).tool_uses@[i as int] },
            ),
            final(self).conversation == old(self).conversation,
            final(self).pending_tool_index == old(self).pending_tool_index,
            final(self).user_turn_request_metadata == old(self).user_turn_request_metadata,
            final(self).inner == old(self).inner,
            final(self).interactive == old(self).interactive,
            final(self).tool_registry == old(self).tool_registry,
            final(self).auto_compaction_disabled == old(self).auto_compaction_disabled,
    {
        let mut tool = self.tool_uses.remove(i);
        tool.accepted = true;
        self.tool_uses.insert(i, tool);
    }

    /// Dispatches one line of user input: a possible file reference, a
    /// structured command, a prompt-template invocation, a raw shell escape,
    /// a pending tool answer, or ordinary chat text. A pending tool answered
    /// `y` or `t` moves to execution (`t` additionally trusts the tool for
    /// the session); any other answer abandons the queued tools; ordinary
    /// text is queued and sent.
    #[verifier::rlimit(100)]
    pub fn handle_input(&mut self, input: String) -> (r: Result<HandleInputOutcome, ChatError>)
        requires
            old(self).wf(),
        ensures
            final(self).wf(),
            final(self).interactive == old(self).interactive,
            final(self).tool_registry == old(self).tool_registry,
            final(self).auto_compaction_disabled == old(self).auto_compaction_disabled,
            final(self).conversation.conversation_id == old(self).conversation.conversation_id,
            ({
                let t = text::trimmed(input@);
                file_reference_of(t) is Some ==> {
                    &&& *final(self) == *old(self)
                    &&& r matches Ok(HandleInputOutcome::Continue(ChatState::HandleInput { input: rest }))
                        && Some(rest@) == file_reference_of(t)
                }
            }),
            ({
                let t = text::trimmed(input@);
                (file_reference_of(t) is None && t.len() > 0 && t[0] == '/' && shell_words(
                    t.drop_first(),
                ) is Some) ==> {
                    &&& *final(self) == *old(self)
                    &&& r matches Ok(HandleInputOutcome::SlashCommand { args }) && args.deep_view()
                        == shell_words(t.drop_first()).unwrap()
                }
            }),
            ({
                let t = text::trimmed(input@);
                (file_reference_of(t) is None && !(t.len() > 0 && t[0] == '/' && shell_words(
                    t.drop_first(),
                ) is Some) && t.len() > 0 && t[0] == '@') ==> match shell_words(t.drop_first()) {
                    None => r is Err && *final(self) == *old(self),
                    Some(parts) => if parts.len() == 0 {
                        r is Err && *final(self) == *old(self)
                    } else {
                        &&& *final(self) == *old(self)
                        &&& r matches Ok(HandleInputOutcome::PromptTemplate { name, arguments })
                            && name@ == parts[0] && (if parts.len() == 1 {
                            arguments is None
                        } else {
                            arguments matches Some(rest) && rest.deep_view() == parts.drop_first()
                        })
                    },
                }
            }),
            ({
                let t = text::trimmed(input@);
                (file_reference_of(t) is None && !(t.len() > 0 && t[0] == '/' && shell_words(
                    t.drop_first(),
                ) is Some) && t.len() > 0 && t[0] != '@' && t[0] == '!') ==> {
                    &&& *final(self) == *old(self)
                    &&& r matches Ok(HandleInputOutcome::ShellCommand { command }) && command@
                        == t.drop_first()
                }
            }),
            ({
                let t = text::trimmed(input@);
                (file_reference_of(t) is None && !(t.len() > 0 && t[0] == '/' && shell_words(
                    t.drop_first(),
                ) is Some) && !(t.len() > 0 && t[0] == '@') && !(t.len() > 0 && t[0] == '!')
                    && old(self).pending_tool_index is Some && (t == "y"@ || t == "Y"@ || t
                    == "t"@ || t == "T"@)) ==> {
                    &&& r matches Ok(HandleInputOutcome::Continue(ChatState::ExecuteTools))
                    &&& final(self).tool_uses@ =~= old(self).tool_uses@.update(
                        old(self).pending_tool_index.unwrap() as int,
                        QueuedTool {
                            accepted: true,
                            ..old(self).tool_uses@[old(self).pending_tool_index.unwrap() as int]
                        },
                    )
                    &&& final(self).conversation.history == old(self).conversation.history
                    &&& final(self).conversation.next_message == old(self).conversation.next_message
                    &&& final(self).conversation.model == old(self).conversation.model
                    &&& final(self).pending_tool_index == old(self).pending_tool_index
                    &&& if t == "t"@ || t == "T"@ {
                        &&& match old(self).conversation.agents.active {
                            Some(a) => final(self).conversation.agents.active matches Some(b) && (
                            b.allowed_tools@ =~= a.allowed_tools@.push(
                                old(self).tool_uses@[old(self).pending_tool_index.unwrap() as int].name,
                            )) && b.denied_tools == a.denied_tools && b.use_aws_settings
                                == a.use_aws_settings,
                            None => final(self).conversation.agents.active is None,
                        }
                        &&& final(self).conversation.agents.trust_all_tools == old(self).conversation.agents.trust_all_tools
                    } else {
                        final(self).conversation.agents == old(self).conversation.agents
                    }
                }
            }),
            ({
                let t = text::trimmed(input@);
                (file_reference_of(t) is None && !(t.len() > 0 && t[0] == '/' && shell_words(
                    t.drop_first(),
                ) is Some) && !(t.len() > 0 && t[0] == '@') && !(t.len() > 0 && t[0] == '!')
                    && old(self).pending_tool_index is Some && !(t == "y"@ || t == "Y"@ || t
                    == "t"@ || t == "T"@)) ==> {
                    let reason = if t == "n"@ || t == "N"@ {
                        "I deny this tool request. Ask a follow up question clarifying the expected action"@
                    } else {
                        input@
                    };
                    &&& r matches Ok(HandleInputOutcome::Continue(ChatState::HandleResponseStream(snap)))
                        && snap.history.deep_view() == final(self).conversation.history.deep_view()
                    &&& final(self).conversation.history.deep_view() =~= old(self).conversation.history.deep_view().push(
                        HistoryEntryV::User(
                            UserMessageV::ToolUseResults(
                                Seq::new(
                                    old(self).tool_uses@.len(),
                                    |k: int| ToolUseResultV {
                                        tool_use_id: old(self).tool_uses@[k].id@,
                                        content: reason,
                                        status: ToolResultStatus::Error,
                                    },
                                ),
                            ),
                        ),
                    )
                    &&& final(self).conversation.next_message is None
                    &&& final(self).conversation.agents == old(self).conversation.agents
                    &&& final(self).conversation.model == old(self).conversation.model
                    &&& final(self).user_turn_request_metadata@.len() == 0
                }
            }),
            ({
                let t = text::trimmed(input@);
                (file_reference_of(t) is None && !(t.len() > 0 && t[0] == '/' && shell_words(
                    t.drop_first(),
                ) is Some) && !(t.len() > 0 && t[0] == '@') && !(t.len() > 0 && t[0] == '!')
                    && old(self).pending_tool_index is None) ==> {
                    &&& r matches Ok(HandleInputOutcome::Continue(ChatState::HandleResponseStream(snap)))
                        && snap.history.deep_view() == final(self).conversation.history.deep_view()
                    &&& final(self).conversation.history.deep_view() =~= old(self).conversation.history.deep_view().push(
                        HistoryEntryV::User(UserMessageV::Prompt(input@)),
                    )
                    &&& final(self).conversation.next_message is None
                    &&& final(self).conversation.agents == old(self).conversation.agents
                    &&& final(self).conversation.model == old(self).conversation.model
                    &&& final(self).user_turn_request_metadata@.len() == 0
                }
            }),
    {
        let trimmed_input = text::trim_ws(input.as_str());
        let t = trimmed_input.as_str();
        match does_input_reference_file(t) {
            Some(state) => {
                return Ok(HandleInputOutcome::Continue(state));
            },
            None => {},
        }
        let n = t.unicode_len();
        if n > 0 && t.get_char(0) == '/' {
            let after = t.substring_char(1, n);
            proof {
                assert(after@ =~= trimmed_input@.drop_first());
            }
            match split_shell_words(after) {
                Some(args) => {
                    return Ok(HandleInputOutcome::SlashCommand { args });
                },
                None => {},
            }
        }
        if n > 0 && t.get_char(0) == '@' {
            let after = t.substring_char(1, n);
            proof {
                assert(after@ =~= trimmed_input@.drop_first());
            }
            let parts = match split_shell_words(after) {
                Some(parts) => parts,
                None => {
                    let mut msg = String::new();
                    msg.append("Error splitting prompt command");
                    return Err(ChatError::Custom(msg));
                },
            };
            if parts.len() == 0 {
                let mut msg = String::new();
                msg.append("Prompt name needs to be specified");
                return Err(ChatError::Custom(msg));
            }
            let mut rest = parts;
            let name = rest.remove(0);
            proof {
                assert(Some(rest.deep_view()) == Some(
                    shell_words(trimmed_input@.drop_first()).unwrap().drop_first(),
                ));
            }
            let arguments = if rest.len() == 0 {
                None
            } else {
                Some(rest)
            };
            return Ok(HandleInputOutcome::PromptTemplate { name, arguments });
        }
        if n > 0 && t.get_char(0) == '!' {
            let after = t.substring_char(1, n);
            proof {
                assert(after@ =~= trimmed_input@.drop_first());
            }
            return Ok(HandleInputOutcome::ShellCommand { command: String::from_str(after) });
        }
        match self.pending_tool_index {
            Some(i) => {
                let is_trust = text::str_eq(t, "t") || text::str_eq(t, "T");
                if text::str_eq(t, "y") || text::str_eq(t, "Y") || is_trust {
                    if is_trust {
                        let mut trusted: Vec<String> = Vec::new();
                        trusted.push(self.tool_uses[i].name.clone());
                        self.conversation.agents.trust_tools(trusted);
                    }
                    self.accept_tool(i);
                    return Ok(HandleInputOutcome::Continue(ChatState::ExecuteTools));
                }
                let reason = if text::str_eq(t, "n") || text::str_eq(t, "N") {
                    let mut msg = String::new();
                    msg.append(
                        "I deny this tool request. Ask a follow up question clarifying the expected action",
                    );
                    msg
                } else {
                    input.clone()
                };
                self.conversation.abandon_tool_use(&self.tool_uses, reason);
                proof {
                    let mv = self.conversation.next_message.unwrap()@;
                    match mv {
                        UserMessageV::ToolUseResults(rs) => {
                            assert(rs =~= Seq::new(
                                self.tool_uses@.len(),
                                |k: int| ToolUseResultV {
                                    tool_use_id: self.tool_uses@[k].id@,
                                    content: reason@,
                                    status: ToolResultStatus::Error,
                                },
                            ));
                        },
                        _ => {
                            assert(false);
                        },
                    }
                }
                self.reset_user_turn();
                let snap = self.conversation.as_sendable_conversation_state();
                Ok(HandleInputOutcome::Continue(ChatState::HandleResponseStream(snap)))
            },
            None => {
                self.conversation.set_next_user_message(input);
                self.reset_user_turn();
                let snap = self.conversation.as_sendable_conversation_state();
                Ok(HandleInputOutcome::Continue(ChatState::HandleResponseStream(snap)))
            },
        }
    }
}

/// The ids of the tool uses that cannot be resolved, in request order.
pub open spec fn failed_ids(registry: Seq<Seq<char>>, tus: Seq<ToolUse>) -> Seq<Seq<char>>
    decreases tus.len(),
{
    if tus.len() == 0 {
        Seq::empty()
    } else {
        (if resolved_tool(registry, tus[0]) is None {
            seq![tus[0].id@]
        } else {
            Seq::empty()
        }) + failed_ids(registry, tus.drop_first())
    }
}

proof fn lemma_failed_ids_append(registry: Seq<Seq<char>>, a: Seq<ToolUse>, b: Seq<ToolUse>)
    ensures
        failed_ids(registry, a + b) =~= failed_ids(registry, a) + failed_ids(registry, b),
    decreases a.len(),
{
    if a.len() == 0 {
        assert(a + b =~= b);
        assert(failed_ids(registry, a) =~= Seq::empty());
    } else {
        assert((a + b)[0] == a[0]);
        assert((a + b).drop_first() =~= a.drop_first() + b);
        lemma_failed_ids_append(registry, a.drop_first(), b);
    }
}

proof fn lemma_failed_ids_empty(registry: Seq<Seq<char>>, tus: Seq<ToolUse>)
    requires
        failed_ids(registry, tus).len() == 0,
    ensures
        forall|k: int| 0 <= k < tus.len() ==> resolved_tool(registry, #[trigger] tus[k]) is Some,
    decreases tus.len(),
{
    if tus.len() > 0 {
        lemma_failed_ids_empty(registry, tus.drop_first());
        assert forall|k: int| 0 <= k < tus.len() implies resolved_tool(
            registry,
            #[trigger] tus[k],
        ) is Some by {
            if k > 0 {
                assert(tus.drop_first()[k - 1] == tus[k]);
            }
        }
    }
}

/// Where the permission walk over the queued tools stops: every tool is
/// accepted, or a tool is refused outright, or a tool needs the user's
/// confirmation.
pub enum PermWalk {
    AllAccepted,
    Denied { index: int },
    Paused { index: int },
}

/// Walks the queued tools from `i`: already-accepted tools are passed over,
/// a deny stops the walk, an allow (or the session-wide trust-all, which
/// never overrides a deny) accepts and goes on, and an ask pauses.
pub open spec fn perm_walk(tools: Seq<QueuedTool>, agents: Agents, i: int) -> PermWalk
    decreases tools.len() - i,
{
    if i < 0 || i >= tools.len() {
        PermWalk::AllAccepted
    } else if tools[i].accepted {
        perm_walk(tools, agents, i + 1)
    } else {
        let d = permission_decision_spec(agents, tools[i].tool);
        if d == crate::agent::PermissionEvalResult::Deny {
            PermWalk::Denied { index: i }
        } else if d == crate::agent::PermissionEvalResult::Allow || agents.trust_all_tools {
            perm_walk(tools, agents, i + 1)
        } else {
            PermWalk::Paused { index: i }
        }
    }
}

impl ChatSession {
    /// Validates the model's tool uses: each is resolved against the
    /// registry; on any failure the error results, in request order, are fed
    /// back to the model instead of aborting the turn. On success the tools
    /// are queued unaccepted and execution begins with the first.
    #[verifier::rlimit(60)]
    pub fn validate_tools(&mut self, tool_uses: Vec<ToolUse>) -> (r: Result<ChatState, ChatError>)
        requires
            old(self).wf(),
            tool_uses@.len() > 0,
        ensures
            final(self).wf(),
            failed_ids(old(self).tool_registry.deep_view(), tool_uses@).len() == 0 ==> {
                &&& r matches Ok(ChatState::ExecuteTools)
                &&& final(self).tool_uses@.len() == tool_uses@.len()
                &&& forall|k: int|
                    0 <= k < tool_uses@.len() ==> {
                        &&& (#[trigger] final(self).tool_uses@[k]).id == tool_uses@[k].id
                        &&& final(self).tool_uses@[k].name == tool_uses@[k].name
                        &&& Some(final(self).tool_uses@[k].tool) == resolved_tool(
                            old(self).tool_registry.deep_view(),
                            tool_uses@[k],
                        )
                        &&& !final(self).tool_uses@[k].accepted
                    }
                &&& final(self).pending_tool_index == Some(0usize)
                &&& final(self).conversation == old(self).conversation
            },
            failed_ids(old(self).tool_registry.deep_view(), tool_uses@).len() > 0 ==> {
                let errs = failed_ids(old(self).tool_registry.deep_view(), tool_uses@);
                &&& r matches Ok(ChatState::HandleResponseStream(snap)) && snap.history.deep_view()
                    == final(self).conversation.history.deep_view()
                &&& exists|rs: Seq<ToolUseResultV>|
                    {
                        &&& final(self).conversation.history.deep_view() =~= old(self).conversation.history.deep_view().push(
                            HistoryEntryV::User(UserMessageV::ToolUseResults(rs)),
                        )
                        &&& rs.len() == errs.len()
                        &&& forall|k: int|
                            0 <= k < rs.len() ==> (#[trigger] rs[k]).tool_use_id == errs[k]
                                && rs[k].status == ToolResultStatus::Error
                                && "Failed to validate tool parameters: "@.is_prefix_of(
                                rs[k].content,
                            )
                    }
                &&& final(self).conversation.next_message is None
                &&& final(self).tool_uses == old(self).tool_uses
                &&& final(self).pending_tool_index == old(self).pending_tool_index
            },
    {
        let ghost reg = self.tool_registry.deep_view();
        let ghost orig = tool_uses@;
        let mut rest = tool_uses;
        let mut queued: Vec<QueuedTool> = Vec::new();
        let mut results: Vec<ToolUseResult> = Vec::new();
        let ghost mut j: int = 0;
        proof {
            assert(orig.take(0) =~= Seq::<ToolUse>::empty());
            assert(orig.skip(0) =~= orig);
            assert(failed_ids(reg, orig.take(0)) =~= Seq::<Seq<char>>::empty());
        }
        while rest.len() > 0
            invariant
                self == old(self),
                reg == self.tool_registry.deep_view(),
                0 <= j <= orig.len(),
                rest@ =~= orig.skip(j),
                results.deep_view().len() == failed_ids(reg, orig.take(j)).len(),
                forall|k: int|
                    0 <= k < results@.len() ==> (#[trigger] results.deep_view()[k]).tool_use_id
                        == failed_ids(reg, orig.take(j))[k] && results.deep_view()[k].status
                        == ToolResultStatus::Error
                        && "Failed to validate tool parameters: "@.is_prefix_of(
                        results.deep_view()[k].content,
                    ),
                results@.len() == 0 ==> queued@.len() == j && forall|k: int|
                    0 <= k < j ==> {
                        &&& (#[trigger] queued@[k]).id == orig[k].id
                        &&& queued@[k].name == orig[k].name
                        &&& Some(queued@[k].tool) == resolved_tool(reg, orig[k])
                        &&& !queued@[k].accepted
                    },
            decreases rest@.len(),
        {
            let tu = rest.remove(0);
            proof {
                assert(tu == orig[j]);
                assert(rest@ =~= orig.skip(j + 1));
                assert(orig.take(j + 1) =~= orig.take(j) + seq![orig[j]]);
                lemma_failed_ids_append(reg, orig.take(j), seq![orig[j]]);
                assert(seq![orig[j]].drop_first() =~= Seq::<ToolUse>::empty());
                assert(failed_ids(reg, Seq::<ToolUse>::empty()) =~= Seq::<Seq<char>>::empty());
            }
            let id = tu.id.clone();
            let name = tu.name.clone();
            match resolve_tool(&self.tool_registry, tu) {
                Ok(mut tool) => {
                    let v = tool.validate();
                    match v {
                        Ok(()) => {
                            let ghost preq = queued@;
                            let item = QueuedTool { id, name, tool, accepted: false };
                            let ghost itemg = item;
                            queued.push(item);
                            proof {
                                assert(queued@ =~= preq.push(itemg));
                            }
                        },
                        Err(e) => {
                            proof {
                                assert(false);
                            }
                        },
                    }
                },
                Err(msg) => {
                    let mut content = String::new();
                    content.append("Failed to validate tool parameters: ");
                    content.append(msg.as_str());
                    let ghost pre = results.deep_view();
                    let item = ToolUseResult {
                        tool_use_id: id,
                        content,
                        status: ToolResultStatus::Error,
                    };
                    let ghost itemv = item.deep_view();
                    results.push(item);
                    proof {
                        assert(results.deep_view() =~= pre.push(itemv));
                    }
                },
            }
            proof {
                j = j + 1;
            }
        }
        proof {
            assert(orig.take(j) =~= orig);
        }
        if results.len() > 0 {
            let ghost rsv = results.deep_view();
            self.conversation.add_tool_results(results);
            let snap = self.conversation.as_sendable_conversation_state();
            proof {
                assert(self.conversation.history.deep_view() =~= old(self).conversation.history.deep_view().push(
                    HistoryEntryV::User(UserMessageV::ToolUseResults(rsv)),
                ));
            }
            return Ok(ChatState::HandleResponseStream(snap));
        }
        proof {
            lemma_failed_ids_empty(reg, orig);
        }
        self.tool_uses = queued;
        self.pending_tool_index = Some(0);
        Ok(ChatState::ExecuteTools)
    }

    /// Permission-evaluates the queued tools in order. A refused tool turns
    /// the whole batch into a rejection fed back to the model; a tool that
    /// needs confirmation pauses the pipeline on that tool and returns to
    /// the prompt; otherwise every tool ends up accepted and `None` says the
    /// batch is ready to run.
    pub fn tool_use_permission_step(&mut self) -> (r: Result<Option<ChatState>, ChatError>)
        requires
            old(self).wf(),
        ensures
            final(self).wf(),
            final(self).conversation == old(self).conversation,
            final(self).interactive == old(self).interactive,
            final(self).tool_registry == old(self).tool_registry,
            final(self).auto_compaction_disabled == old(self).auto_compaction_disabled,
            final(self).user_turn_request_metadata == old(self).user_turn_request_metadata,
            final(self).tool_uses@.len() == old(self).tool_uses@.len(),
            forall|k: int|
                0 <= k < old(self).tool_uses@.len() ==> (#[trigger] final(self).tool_uses@[k]).id
                    == old(self).tool_uses@[k].id && final(self).tool_uses@[k].name == old(self).tool_uses@[k].name && final(self).tool_uses@[k].tool == old(self).tool_uses@[k].tool,
            match perm_walk(old(self).tool_uses@, old(self).conversation.agents, 0) {
                PermWalk::AllAccepted => {
                    &&& r matches Ok(None)
                    &&& forall|k: int|
                        0 <= k < final(self).tool_uses@.len() ==> (#[trigger] final(self).tool_uses@[k]).accepted
                    &&& final(self).pending_tool_index == old(self).pending_tool_index
                },
                PermWalk::Denied { index } => {
                    &&& r matches Ok(Some(ChatState::HandleInput { input })) && input@
                        == "Tool use with "@ + old(self).tool_uses@[index].name@
                        + " was rejected because the arguments supplied were forbidden"@
                    &&& forall|k: int|
                        0 <= k < index ==> (#[trigger] final(self).tool_uses@[k]).accepted
                    &&& forall|k: int|
                        index <= k < final(self).tool_uses@.len() ==> (#[trigger] final(self).tool_uses@[k]).accepted == old(self).tool_uses@[k].accepted
                    &&& final(self).pending_tool_index == old(self).pending_tool_index
                },
                PermWalk::Paused { index } => {
                    &&& r matches Ok(Some(ChatState::PromptUser { skip_printing_tools }))
                        && !skip_printing_tools
                    &&& forall|k: int|
                        0 <= k < index ==> (#[trigger] final(self).tool_uses@[k]).accepted
                    &&& forall|k: int|
                        index <= k < final(self).tool_uses@.len() ==> (#[trigger] final(self).tool_uses@[k]).accepted == old(self).tool_uses@[k].accepted
                    &&& final(self).pending_tool_index == Some(index as usize)
                },
            },
    {
        let ghost tools0 = self.tool_uses@;
        let ghost agents0 = self.conversation.agents;
        let n = self.tool_uses.len();
        let mut i: usize = 0;
        while i < n
            invariant
                old(self).wf(),
                n == self.tool_uses@.len(),
                tools0.len() == n,
                agents0 == self.conversation.agents,
                0 <= i <= n,
                self.conversation == old(self).conversation,
                self.pending_tool_index == old(self).pending_tool_index,
                self.user_turn_request_metadata == old(self).user_turn_request_metadata,
                self.inner == old(self).inner,
                self.interactive == old(self).interactive,
                self.tool_registry == old(self).tool_registry,
                self.auto_compaction_disabled == old(self).auto_compaction_disabled,
                tools0 == old(self).tool_uses@,
                forall|k: int|
                    0 <= k < n ==> (#[trigger] self.tool_uses@[k]).id == tools0[k].id
                        && self.tool_uses@[k].name == tools0[k].name && self.tool_uses@[k].tool
                        == tools0[k].tool,
                forall|k: int| 0 <= k < i ==> (#[trigger] self.tool_uses@[k]).accepted,
                forall|k: int|
                    i <= k < n ==> (#[trigger] self.tool_uses@[k]).accepted == tools0[k].accepted,
                perm_walk(tools0, agents0, 0) == perm_walk(tools0, agents0, i as int),
            decreases n - i,
        {
            if !self.tool_uses[i].accepted {
                let decision = self.tool_uses[i].tool.eval_perm(&self.conversation.agents);
                match decision {
                    crate::agent::PermissionEvalResult::Deny => {
                        let mut input = String::new();
                        input.append("Tool use with ");
                        input.append(self.tool_uses[i].name.as_str());
                        input.append(" was rejected because the arguments supplied were forbidden");
                        return Ok(Some(ChatState::HandleInput { input }));
                    },
                    crate::agent::PermissionEvalResult::Allow => {
                        self.accept_tool(i);
                    },
                    crate::agent::PermissionEvalResult::Ask => {
                        if self.conversation.agents.trust_all_tools {
                            self.accept_tool(i);
                        } else {
                            self.pending_tool_index = Some(i);
                            return Ok(
                                Some(ChatState::PromptUser { skip_printing_tools: false }),
                            );
                        }
                    },
                }
            }
            i = i + 1;
        }
        Ok(None)
    }

    /// Records the outcomes of the executed tools: one result per queued
    /// tool, under the originating tool-use id, in request order — an
    /// erroring tool is reported to the model, not fatal to the batch — and
    /// sends the batch back to the backend.
    pub fn tool_use_execute(&mut self, outcomes: Vec<ToolOutcome>) -> (r: Result<
        ChatState,
        ChatError,
    >)
        requires
            old(self).wf(),
            outcomes@.len() == old(self).tool_uses@.len(),
        ensures
            final(self).wf(),
            r matches Ok(ChatState::HandleResponseStream(snap)) && snap.history.deep_view()
                == final(self).conversation.history.deep_view(),
            final(self).conversation.history.deep_view() =~= old(self).conversation.history.deep_view().push(
                HistoryEntryV::User(
                    UserMessageV::ToolUseResults(
                        Seq::new(
                            old(self).tool_uses@.len(),
                            |k: int| ToolUseResultV {
                                tool_use_id: old(self).tool_uses@[k].id@,
                                content: match outcomes@[k] {
                                    ToolOutcome::Success(s) => s@,
                                    ToolOutcome::Failure(e) => "An error occurred processing the tool: \n"@
                                        + e@,
                                },
                                status: match outcomes@[k] {
                                    ToolOutcome::Success(s) => ToolResultStatus::Success,
                                    ToolOutcome::Failure(e) => ToolResultStatus::Error,
                                },
                            },
                        ),
                    ),
                ),
            ),
            final(self).conversation.next_message is None,
            final(self).tool_uses == old(self).tool_uses,
            final(self).pending_tool_index == old(self).pending_tool_index,
    {
        let n = self.tool_uses.len();
        let mut results: Vec<ToolUseResult> = Vec::new();
        let mut i: usize = 0;
        while i < n
            invariant
                n == self.tool_uses@.len(),
                n == outcomes@.len(),
                self == old(self),
                0 <= i <= n,
                results.deep_view().len() == i,
                forall|k: int|
                    0 <= k < i ==> (#[trigger] results.deep_view()[k]) == (ToolUseResultV {
                        tool_use_id: self.tool_uses@[k].id@,
                        content: match outcomes@[k] {
                            ToolOutcome::Success(s) => s@,
                            ToolOutcome::Failure(e) => "An error occurred processing the tool: \n"@
                                + e@,
                        },
                        status: match outcomes@[k] {
                            ToolOutcome::Success(s) => ToolResultStatus::Success,
                            ToolOutcome::Failure(e) => ToolResultStatus::Error,
                        },
                    }),
            decreases n - i,
        {
            let ghost pre = results.deep_view();
            let item = match &outcomes[i] {
                ToolOutcome::Success(s) => ToolUseResult {
                    tool_use_id: self.tool_uses[i].id.clone(),
                    content: s.clone(),
                    status: ToolResultStatus::Success,
                },
                ToolOutcome::Failure(e) => {
                    let mut content = String::new();
                    content.append("An error occurred processing the tool: \n");
                    content.append(e.as_str());
                    ToolUseResult {
                        tool_use_id: self.tool_uses[i].id.clone(),
                        content,
                        status: ToolResultStatus::Error,
                    }
                },
            };
            let ghost itemv = item.deep_view();
            results.push(item);
            proof {
                assert(results.deep_view() =~= pre.push(itemv));
            }
            i = i + 1;
        }
        proof {
            assert(results.deep_view() =~= Seq::new(
                old(self).tool_uses@.len(),
                |k: int| ToolUseResultV {
                    tool_use_id: old(self).tool_uses@[k].id@,
                    content: match outcomes@[k] {
                        ToolOutcome::Success(s) => s@,
                        ToolOutcome::Failure(e) => "An error occurred processing the tool: \n"@
                            + e@,
                    },
                    status: match outcomes@[k] {
                        ToolOutcome::Success(s) => ToolResultStatus::Success,
                        ToolOutcome::Failure(e) => ToolResultStatus::Error,
                    },
                },
            ));
        }
        self.conversation.add_tool_results(results);
        let snap = self.conversation.as_sendable_conversation_state();
        Ok(ChatState::HandleResponseStream(snap))
    }
}

/// When everything before `i` is not a stop and `i` is one (or the end),
/// then `i` is the first stop.
proof fn lemma_stop_index_is(evs: Seq<StreamItem>, i: int)
    requires
        0 <= i <= evs.len(),
        forall|k: int| 0 <= k < i ==> !is_stop(#[trigger] evs[k]),
        i < evs.len() ==> is_stop(evs[i]),
    ensures
        stop_index(evs) == i,
    decreases evs.len(),
{
    if evs.len() == 0 {
    } else if i == 0 {
    } else {
        assert(!is_stop(evs[0]));
        assert forall|k: int| 0 <= k < i - 1 implies !is_stop(#[trigger] evs.drop_first()[k]) by {
            assert(evs.drop_first()[k] == evs[k + 1]);
        }
        if i - 1 < evs.drop_first().len() {
            assert(evs.drop_first()[i - 1] == evs[i]);
        }
        lemma_stop_index_is(evs.drop_first(), i - 1);
    }
}

impl ChatSession {
    /// Consumes the finite event sequence of one backend call. Text and
    /// tool-use-start events only feed the display; complete tool uses are
    /// collected; the end-of-stream message joins the history. A stream
    /// timeout keeps the partial message and asks the model to split the
    /// work up; a truncated tool use feeds a corrective error result back;
    /// both re-enter response handling. Any other stream failure is fatal to
    /// the turn. A normal end moves to validation when tool uses were
    /// collected and back to the prompt otherwise.
    #[verifier::rlimit(60)]
    pub fn handle_response(&mut self, events: Vec<StreamItem>) -> (r: Result<ChatState, ChatError>)
        requires
            old(self).wf(),
        ensures
            final(self).wf(),
            final(self).interactive == old(self).interactive,
            final(self).tool_registry == old(self).tool_registry,
            final(self).auto_compaction_disabled == old(self).auto_compaction_disabled,
            final(self).conversation.agents == old(self).conversation.agents,
            final(self).conversation.model == old(self).conversation.model,
            final(self).conversation.conversation_id == old(self).conversation.conversation_id,
            stream_failure(events@) is None ==> {
                &&& match end_of_stream(events@) {
                    Some((m, rm)) => final(self).conversation.history.deep_view() =~= old(self).conversation.history.deep_view().push(HistoryEntryV::Assistant(m@))
                        && final(self).user_turn_request_metadata@ =~= old(self).user_turn_request_metadata@.push(rm),
                    None => final(self).conversation.history == old(self).conversation.history
                        && final(self).user_turn_request_metadata == old(self).user_turn_request_metadata,
                }
                &&& if collected_tool_uses(events@).len() > 0 {
                    r matches Ok(ChatState::ValidateTools { tool_uses }) && tool_uses.deep_view()
                        =~= collected_tool_uses(events@)
                } else {
                    (r matches Ok(ChatState::PromptUser { skip_printing_tools })
                        && !skip_printing_tools) && final(self).tool_uses@.len() == 0 && final(self).pending_tool_index is None
                }
            },
            stream_failure(events@) matches Some(recv) ==> match recv.source {
                RecvErrorKind::StreamTimeout { duration_secs } => {
                    &&& final(self).conversation.history.deep_view() =~= old(self).conversation.history.deep_view().push(
                        HistoryEntryV::Assistant(
                            AssistantMessageV {
                                message_id: None,
                                content: assembled_text(events@),
                                tool_uses: Seq::empty(),
                            },
                        ),
                    ).push(
                        HistoryEntryV::User(
                            UserMessageV::Prompt(
                                "You took too long to respond - try to split up the work into smaller steps."@,
                            ),
                        ),
                    )
                    &&& r matches Ok(ChatState::HandleResponseStream(snap)) && snap.history.deep_view()
                        == final(self).conversation.history.deep_view()
                    &&& final(self).user_turn_request_metadata@ =~= old(self).user_turn_request_metadata@.push(recv.request_metadata)
                },
                RecvErrorKind::UnexpectedToolUseEos { tool_use_id, name, message } => {
                    &&& final(self).conversation.history.deep_view() =~= old(self).conversation.history.deep_view().push(HistoryEntryV::Assistant(message@)).push(
                        HistoryEntryV::User(
                            UserMessageV::ToolUseResults(
                                seq![
                                    ToolUseResultV {
                                        tool_use_id: tool_use_id@,
                                        content: "The generated tool was too large, try again but this time split up the work between multiple tool uses"@,
                                        status: ToolResultStatus::Error,
                                    },
                                ],
                            ),
                        ),
                    )
                    &&& r matches Ok(ChatState::HandleResponseStream(snap)) && snap.history.deep_view()
                        == final(self).conversation.history.deep_view()
                    &&& final(self).user_turn_request_metadata@ =~= old(self).user_turn_request_metadata@.push(recv.request_metadata)
                },
                RecvErrorKind::Other { reason, status_code } => {
                    &&& r matches Err(ChatError::ResponseStream(e)) && e.source == recv.source
                        && e.request_metadata == recv.request_metadata
                    &&& final(self).user_turn_request_metadata@ =~= old(self).user_turn_request_metadata@.push(recv.request_metadata)
                },
            },
    {
        let ghost evs = events@;
        let n = events.len();
        let mut tool_uses: Vec<ToolUse> = Vec::new();
        let mut buf = String::new();
        let mut i: usize = 0;
        proof {
            assert(evs.skip(0) =~= evs);
            assert(collected_tool_uses(evs) =~= tool_uses.deep_view() + collected_tool_uses(
                evs.skip(0),
            ));
            assert(assembled_text(evs) =~= buf@ + assembled_text(evs.skip(0)));
        }
        while i < n
            invariant
                old(self).wf(),
                *self == *old(self),
                n == events@.len(),
                evs == events@,
                0 <= i <= n,
                forall|k: int| 0 <= k < i ==> !is_stop(#[trigger] evs[k]),
                collected_tool_uses(evs) =~= tool_uses.deep_view() + collected_tool_uses(
                    evs.skip(i as int),
                ),
                assembled_text(evs) =~= buf@ + assembled_text(evs.skip(i as int)),
            decreases n - i,
        {
            let ghost j = i as int;
            proof {
                assert(evs.skip(j)[0] == evs[j]);
                assert(evs.skip(j).drop_first() =~= evs.skip(j + 1));
            }
            match &events[i] {
                Ok(ResponseEvent::EndStream { message, request_metadata }) => {
                    proof {
                        lemma_stop_index_is(evs, j);
                        assert(stream_failure(evs) is None);
                        assert(end_of_stream(evs) == Some((*message, *request_metadata)));
                    }
                    let ghost premd = self.user_turn_request_metadata@;
                    self.user_turn_request_metadata.push(request_metadata.duplicate());
                    proof {
                        assert(self.user_turn_request_metadata@ =~= premd.push(*request_metadata));
                    }
                    self.conversation.push_assistant_message(
                        message.duplicate(),
                        Some(request_metadata.duplicate()),
                    );
                    proof {
                        assert(collected_tool_uses(evs.skip(j)) =~= Seq::<
                            crate::message::ToolUseV,
                        >::empty());
                        assert(collected_tool_uses(evs) =~= tool_uses.deep_view());
                    }
                    if tool_uses.len() > 0 {
                        return Ok(ChatState::ValidateTools { tool_uses });
                    }
                    self.tool_uses = Vec::new();
                    self.pending_tool_index = None;
                    return Ok(ChatState::PromptUser { skip_printing_tools: false });
                },
                Err(recv) => {
                    proof {
                        lemma_stop_index_is(evs, j);
                        assert(stream_failure(evs) == Some(*recv));
                        assert(collected_tool_uses(evs.skip(j)) =~= Seq::<
                            crate::message::ToolUseV,
                        >::empty());
                    }
                    match &recv.request_metadata.request_id {
                        Some(rid) => {
                            self.failed_request_ids.push(rid.clone());
                        },
                        None => {},
                    }
                    let ghost premd = self.user_turn_request_metadata@;
                    self.user_turn_request_metadata.push(recv.request_metadata.duplicate());
                    proof {
                        assert(self.user_turn_request_metadata@ =~= premd.push(
                            recv.request_metadata,
                        ));
                    }
                    match &recv.source {
                        RecvErrorKind::StreamTimeout { duration_secs } => {
                            let partial = buf.clone();
                            proof {
                                assert(assembled_text(evs.skip(j)) =~= Seq::<char>::empty());
                                assert(partial@ =~= assembled_text(evs));
                            }
                            let timeout_message = AssistantMessage::new_response(None, partial);
                            proof {
                                assert(timeout_message.tool_uses.deep_view() =~= Seq::<
                                    crate::message::ToolUseV,
                                >::empty());
                            }
                            self.conversation.push_assistant_message(timeout_message, None);
                            let mut next = String::new();
                            next.append(
                                "You took too long to respond - try to split up the work into smaller steps.",
                            );
                            self.conversation.set_next_user_message(next);
                            let snap = self.conversation.as_sendable_conversation_state();
                            return Ok(ChatState::HandleResponseStream(snap));
                        },
                        RecvErrorKind::UnexpectedToolUseEos { tool_use_id, name, message } => {
                            self.conversation.push_assistant_message(
                                message.duplicate(),
                                Some(recv.request_metadata.duplicate()),
                            );
                            let mut content = String::new();
                            content.append(
                                "The generated tool was too large, try again but this time split up the work between multiple tool uses",
                            );
                            let mut results: Vec<ToolUseResult> = Vec::new();
                            results.push(
                                ToolUseResult {
                                    tool_use_id: tool_use_id.clone(),
                                    content,
                                    status: ToolResultStatus::Error,
                                },
                            );
                            let ghost rsv = results.deep_view();
                            self.conversation.add_tool_results(results);
                            let snap = self.conversation.as_sendable_conversation_state();
                            proof {
                                assert(rsv =~= seq![
                                    ToolUseResultV {
                                        tool_use_id: tool_use_id@,
                                        content: "The generated tool was too large, try again but this time split up the work between multiple tool uses"@,
                                        status: ToolResultStatus::Error,
                                    },
                                ]);
                            }
                            return Ok(ChatState::HandleResponseStream(snap));
                        },
                        RecvErrorKind::Other { reason, status_code } => {
                            return Err(
                                ChatError::ResponseStream(
                                    RecvError {
                                        source: RecvErrorKind::Other {
                                            reason: reason.clone(),
                                            status_code: *status_code,
                                        },
                                        request_metadata: recv.request_metadata.duplicate(),
                                    },
                                ),
                            );
                        },
                    }
                },
                Ok(ResponseEvent::ToolUse(tu)) => {
                    let ghost pre = tool_uses.deep_view();
                    let copy = tu.duplicate();
                    let ghost copyv = copy.deep_view();
                    tool_uses.push(copy);
                    proof {
                        assert(tool_uses.deep_view() =~= pre.push(copyv));
                        assert(collected_tool_uses(evs.skip(j)) =~= seq![evs[j]->Ok_0->ToolUse_0@]
                            + collected_tool_uses(evs.skip(j + 1)));
                        assert(collected_tool_uses(evs) =~= tool_uses.deep_view()
                            + collected_tool_uses(evs.skip(j + 1)));
                    }
                },
                Ok(ResponseEvent::ToolUseStart { name }) => {
                },
                Ok(ResponseEvent::AssistantText(text_fragment)) => {
                    let ghost pre = buf@;
                    buf.append(text_fragment.as_str());
                    proof {
                        assert(assembled_text(evs.skip(j)) =~= evs[j]->Ok_0->AssistantText_0@
                            + assembled_text(evs.skip(j + 1)));
                        assert(assembled_text(evs) =~= buf@ + assembled_text(evs.skip(j + 1)));
                    }
                },
            }
            i = i + 1;
        }
        proof {
            lemma_stop_index_is(evs, n as int);
            assert(collected_tool_uses(evs.skip(n as int)) =~= Seq::<
                crate::message::ToolUseV,
            >::empty());
            assert(collected_tool_uses(evs) =~= tool_uses.deep_view());
        }
        if tool_uses.len() > 0 {
            return Ok(ChatState::ValidateTools { tool_uses });
        }
        self.tool_uses = Vec::new();
        self.pending_tool_index = None;
        Ok(ChatState::PromptUser { skip_printing_tools: false })
    }
}

/// How the surrounding program reports the user's model choice: the dialog
/// was interrupted, or it closed with a selection or without one.
#[derive(Debug, Clone, Copy)]
pub enum ModelSelection {
    Interrupted,
    Choice(Option<usize>),
}

impl ChatSession {
    /// Builds the summarization request for the compaction state, or
    /// reports that the history is empty and there is nothing to compact.
    pub fn compact_history_request(
        &self,
        custom_prompt: &Option<String>,
        strategy: CompactStrategy,
    ) -> (r: Option<ConversationSnapshot>)
        ensures
            r is None <==> self.conversation.history@.len() == 0,
            r matches Some(snap) ==> snap.history.deep_view()
                =~= crate::conversation::summary_request_history(
                self.conversation.history.deep_view(),
                *custom_prompt,
                strategy,
            ) && snap.model == self.conversation.model,
    {
        if self.conversation.history.len() == 0 {
            return None;
        }
        Some(self.conversation.create_summary_request(custom_prompt, strategy))
    }

    /// Finishes one compaction attempt. Nothing sent means the history was
    /// empty. A summary replaces the history; a queued user message is then
    /// re-issued, otherwise control returns to the prompt. A request that
    /// itself overflowed escalates the strategy deterministically, and once
    /// no escalation is left the compaction fails for good. Any other
    /// failure propagates.
    pub fn compact_history_finish(
        &mut self,
        custom_prompt: Option<String>,
        show_summary: bool,
        strategy: CompactStrategy,
        outcome: Option<Result<(String, RequestMetadata), ChatError>>,
    ) -> (r: Result<ChatState, ChatError>)
        requires
            old(self).wf(),
        ensures
            final(self).wf(),
            match outcome {
                None => r matches Ok(ChatState::PromptUser { skip_printing_tools })
                    && skip_printing_tools && *final(self) == *old(self),
                Some(Ok((summary, rm))) => {
                    &&& final(self).conversation.history.deep_view() =~= seq![
                        HistoryEntryV::Assistant(
                            AssistantMessageV {
                                message_id: None,
                                content: summary@,
                                tool_uses: Seq::empty(),
                            },
                        ),
                    ] + (match old(self).conversation.next_message {
                        Some(m) => seq![HistoryEntryV::User(m@)],
                        None => Seq::empty(),
                    })
                    &&& final(self).user_turn_request_metadata@ =~= old(self).user_turn_request_metadata@.push(rm)
                    &&& match old(self).conversation.next_message {
                        Some(m) => r matches Ok(ChatState::HandleResponseStream(snap))
                            && snap.history.deep_view() == final(self).conversation.history.deep_view(),
                        None => r matches Ok(ChatState::PromptUser { skip_printing_tools })
                            && skip_printing_tools,
                    }
                },
                Some(Err(e)) => match e {
                    ChatError::SendMessage(ApiError::ContextWindowOverflow) => {
                        &&& *final(self) == *old(self)
                        &&& match escalate_spec(
                            old(self).conversation.history@.len(),
                            strategy,
                        ) {
                            Some(next_strategy) => r matches Ok(ChatState::CompactHistory {
                                prompt,
                                show_summary: sh,
                                strategy: st,
                            }) && prompt == custom_prompt && sh == show_summary && st
                                == next_strategy,
                            None => r matches Err(ChatError::CompactHistoryFailure),
                        }
                    },
                    _ => r is Err && *final(self) == *old(self),
                },
            },
    {
        match outcome {
            None => Ok(ChatState::PromptUser { skip_printing_tools: true }),
            Some(Ok((summary, request_metadata))) => {
                let ghost premd = self.user_turn_request_metadata@;
                self.user_turn_request_metadata.push(request_metadata.duplicate());
                proof {
                    assert(self.user_turn_request_metadata@ =~= premd.push(request_metadata));
                }
                self.conversation.replace_history_with_summary(
                    summary,
                    strategy,
                    request_metadata,
                );
                let should_retry = self.conversation.next_message.is_some();
                if should_retry {
                    let snap = self.conversation.as_sendable_conversation_state();
                    Ok(ChatState::HandleResponseStream(snap))
                } else {
                    Ok(ChatState::PromptUser { skip_printing_tools: true })
                }
            },
            Some(Err(e)) => match e {
                ChatError::SendMessage(ApiError::ContextWindowOverflow) => {
                    match escalate_on_overflow(self.conversation.history.len(), strategy) {
                        Some(next_strategy) => Ok(
                            ChatState::CompactHistory {
                                prompt: custom_prompt,
                                show_summary,
                                strategy: next_strategy,
                            },
                        ),
                        None => Err(ChatError::CompactHistoryFailure),
                    }
                },
                other => Err(other),
            },
        }
    }

    /// Applies the user's model choice: an interrupted dialog reports
    /// nothing chosen; otherwise the selected model, when one was picked,
    /// becomes the session's model and control returns to the prompt.
    pub fn select_model(&mut self, selection: ModelSelection) -> (r: Result<
        Option<ChatState>,
        ChatError,
    >)
        requires
            match selection {
                ModelSelection::Choice(Some(i)) => i < crate::models::model_options_spec().len(),
                _ => true,
            },
        ensures
            final(self).conversation.history == old(self).conversation.history,
            final(self).tool_uses == old(self).tool_uses,
            final(self).pending_tool_index == old(self).pending_tool_index,
            match selection {
                ModelSelection::Interrupted => r matches Ok(None) && *final(self) == *old(self),
                ModelSelection::Choice(c) => {
                    &&& r matches Ok(Some(ChatState::PromptUser { skip_printing_tools }))
                        && !skip_printing_tools
                    &&& match c {
                        Some(i) => final(self).conversation.model matches Some(m) && m@
                            == crate::models::model_options_spec()[i as int].1,
                        None => final(self).conversation.model == old(self).conversation.model,
                    }
                },
            },
    {
        match selection {
            ModelSelection::Interrupted => Ok(None),
            ModelSelection::Choice(c) => {
                match c {
                    Some(i) => {
                        let mut options = crate::models::model_options();
                        let chosen = options.remove(i);
                        self.conversation.model = Some(chosen.model_id);
                    },
                    None => {},
                }
                Ok(Some(ChatState::PromptUser { skip_printing_tools: false }))
            },
        }
    }

    /// After a model-overloaded failure: a new model resumes the response
    /// stream with the same conversation; declining the switch resets the
    /// turn and returns to the prompt.
    pub fn retry_model_overload(&mut self, selection: ModelSelection) -> (r: Result<
        ChatState,
        ChatError,
    >)
        requires
            old(self).wf(),
            match selection {
                ModelSelection::Choice(Some(i)) => i < crate::models::model_options_spec().len(),
                _ => true,
            },
        ensures
            final(self).wf(),
            match selection {
                ModelSelection::Interrupted => {
                    &&& r matches Ok(ChatState::PromptUser { skip_printing_tools })
                        && !skip_printing_tools
                    &&& final(self).conversation.next_message is None
                    &&& final(self).pending_tool_index is None
                    &&& final(self).user_turn_request_metadata@.len() == 0
                },
                ModelSelection::Choice(c) => {
                    &&& r matches Ok(ChatState::HandleResponseStream(snap))
                        && snap.history.deep_view() == final(self).conversation.history.deep_view()
                    &&& match c {
                        Some(i) => final(self).conversation.model matches Some(m) && m@
                            == crate::models::model_options_spec()[i as int].1,
                        None => final(self).conversation.model == old(self).conversation.model,
                    }
                },
            },
    {
        match self.select_model(selection)? {
            Some(_) => {},
            None => {
                self.conversation.reset_next_user_message();
                self.pending_tool_index = None;
                self.reset_user_turn();
                return Ok(ChatState::PromptUser { skip_printing_tools: false });
            },
        }
        let snap = self.conversation.as_sendable_conversation_state();
        Ok(ChatState::HandleResponseStream(snap))
    }

    /// Installs the successor state a handler computed, or classifies its
    /// error. A context-window overflow starts compaction (unless automatic
    /// compaction is disabled); an overloaded model offers a switch in an
    /// interactive session; an interruption during tool execution abandons
    /// the queued tools with one synthetic result batch so the transcript
    /// stays well-formed; the monthly limit and every remaining error end
    /// the turn. All error paths land back at the prompt, never in a tool
    /// state.
    #[verifier::rlimit(60)]
    pub fn next(&mut self, result: Result<ChatState, ChatError>)
        requires
            old(self).wf(),
        ensures
            final(self).wf(),
            match result {
                Ok(state) => final(self).inner == Some(state) && final(self).conversation == old(self).conversation && final(self).tool_uses == old(self).tool_uses && final(self).pending_tool_index == old(self).pending_tool_index,
                Err(e) => {
                    &&& match e {
                        ChatError::SendMessage(ApiError::ContextWindowOverflow) => if !old(self).auto_compaction_disabled {
                            &&& final(self).inner matches Some(ChatState::CompactHistory {
                                prompt,
                                show_summary,
                                strategy,
                            }) && prompt is None && !show_summary && strategy
                                == overflow_entry_strategy(old(self).conversation.history@.len())
                            &&& final(self).conversation == old(self).conversation
                            &&& final(self).pending_tool_index == old(self).pending_tool_index
                        } else {
                            (final(self).inner matches Some(ChatState::PromptUser {
                                skip_printing_tools,
                            }) && !skip_printing_tools) && final(self).conversation.next_message
                                is None && final(self).pending_tool_index is None && final(self).user_turn_request_metadata@.len() == 0
                        },
                        ChatError::SendMessage(ApiError::ModelOverloaded { request_id, status_code }) => if old(self).interactive {
                            final(self).inner == Some(ChatState::RetryModelOverload) && final(self).conversation == old(self).conversation
                        } else {
                            (final(self).inner matches Some(ChatState::PromptUser {
                                skip_printing_tools,
                            }) && !skip_printing_tools) && final(self).conversation.next_message
                                is None && final(self).pending_tool_index is None
                        },
                        ChatError::SendMessage(ApiError::MonthlyLimitReached) => final(self).inner matches Some(ChatState::PromptUser { skip_printing_tools })
                            && !skip_printing_tools && final(self).conversation == old(self).conversation,
                        ChatError::Interrupted { tool_uses: inter } => {
                            &&& (final(self).inner matches Some(ChatState::PromptUser {
                                skip_printing_tools,
                            }) && !skip_printing_tools)
                            &&& final(self).pending_tool_index is None
                            &&& final(self).user_turn_request_metadata@.len() == 0
                            &&& match inter {
                                Some(tools) => if tools@.len() > 0 {
                                    final(self).conversation.history.deep_view() =~= old(self).conversation.history.deep_view().push(
                                        HistoryEntryV::User(
                                            UserMessageV::ToolUseResults(
                                                Seq::new(
                                                    tools@.len(),
                                                    |k: int| ToolUseResultV {
                                                        tool_use_id: tools@[k].id@,
                                                        content: "The user interrupted the tool execution."@,
                                                        status: ToolResultStatus::Error,
                                                    },
                                                ),
                                            ),
                                        ),
                                    ).push(
                                        HistoryEntryV::Assistant(
                                            AssistantMessageV {
                                                message_id: None,
                                                content: "Tool uses were interrupted, waiting for the next user prompt"@,
                                                tool_uses: Seq::empty(),
                                            },
                                        ),
                                    )
                                } else {
                                    final(self).conversation.history == old(self).conversation.history
                                },
                                None => final(self).conversation.history == old(self).conversation.history,
                            }
                        },
                        _ => (final(self).inner matches Some(ChatState::PromptUser {
                            skip_printing_tools,
                        }) && !skip_printing_tools) && final(self).conversation.next_message
                            is None && final(self).pending_tool_index is None && final(self).user_turn_request_metadata@.len() == 0,
                    }
                },
            },
    {
        let err = match result {
            Ok(state) => {
                self.inner = Some(state);
                return ;
            },
            Err(err) => err,
        };
        match err {
            ChatError::SendMessage(ApiError::ContextWindowOverflow) => {
                if !self.auto_compaction_disabled {
                    self.inner = Some(
                        ChatState::CompactHistory {
                            prompt: None,
                            show_summary: false,
                            strategy: overflow_entry(self.conversation.history.len()),
                        },
                    );
                    return ;
                }
            },
            ChatError::SendMessage(ApiError::ModelOverloaded { request_id, status_code }) => {
                if self.interactive {
                    self.inner = Some(ChatState::RetryModelOverload);
                    return ;
                }
            },
            ChatError::SendMessage(ApiError::MonthlyLimitReached) => {
                self.inner = Some(ChatState::PromptUser { skip_printing_tools: false });
                return ;
            },
            ChatError::Interrupted { tool_uses: inter } => {
                match &inter {
                    Some(tools) => {
                        if tools.len() > 0 {
                            let mut reason = String::new();
                            reason.append("The user interrupted the tool execution.");
                            self.conversation.abandon_tool_use(tools, reason);
                            proof {
                                let mv = self.conversation.next_message.unwrap()@;
                                match mv {
                                    UserMessageV::ToolUseResults(rs) => {
                                        assert(rs =~= Seq::new(
                                            tools@.len(),
                                            |k: int| ToolUseResultV {
                                                tool_use_id: tools@[k].id@,
                                                content: "The user interrupted the tool execution."@,
                                                status: ToolResultStatus::Error,
                                            },
                                        ));
                                    },
                                    _ => {
                                        assert(false);
                                    },
                                }
                            }
                            let _ = self.conversation.as_sendable_conversation_state();
                            let mut note = String::new();
                            note.append(
                                "Tool uses were interrupted, waiting for the next user prompt",
                            );
                            let interrupted_message = AssistantMessage::new_response(None, note);
                            proof {
                                assert(interrupted_message.tool_uses.deep_view() =~= Seq::<
                                    crate::message::ToolUseV,
                                >::empty());
                            }
                            self.conversation.push_assistant_message(interrupted_message, None);
                        }
                    },
                    None => {},
                }
            },
            _ => {},
        }
        self.conversation.reset_next_user_message();
        self.pending_tool_index = None;
        self.reset_user_turn();
        self.inner = Some(ChatState::PromptUser { skip_printing_tools: false });
    }
}

/// Whether an input that begins with a slash is actually a file path (as
/// when an image is dragged into the terminal) rather than a command: its
/// first word holds a path separator or a dot. Such an input is handed back
/// to input handling without the slash.
pub open spec fn file_reference_of(input: Seq<char>) -> Option<Seq<char>> {
    if input.len() > 0 && input[0] == '/' {
        let after = input.drop_first();
        match shell_words(after) {
            Some(words) => if words.len() > 0 && (words[0].contains('/') || words[0].contains(
                '\\',
            ) || words[0].contains('.')) {
                Some(after)
            } else {
                None
            },
            None => None,
        }
    } else {
        None
    }
}

/// Checks if an input may be referencing a file and should not be handled as
/// a typical slash command; if so, the state that re-handles it without the
/// slash is returned.
pub fn does_input_reference_file(input: &str) -> (r: Option<ChatState>)
    ensures
        match r {
            Some(st) => st matches ChatState::HandleInput { input: rest } && Some(rest@)
                == file_reference_of(input@),
            None => file_reference_of(input@) is None,
        },
{
    let n = input.unicode_len();
    if n == 0 || input.get_char(0) != '/' {
        return None;
    }
    let after = input.substring_char(1, n);
    proof {
        assert(after@ =~= input@.drop_first());
    }
    match split_shell_words(after) {
        Some(words) => {
            if words.len() > 0 {
                let first = &words[0];
                proof {
                    assert(words.deep_view()[0] == first@);
                }
                if text::contains_char(first.as_str(), '/') || text::contains_char(
                    first.as_str(),
                    '\\',
                ) || text::contains_char(first.as_str(), '.') {
                    Some(ChatState::HandleInput { input: String::from_str(after) })
                } else {
                    None
                }
            } else {
                None
            }
        },
        None => None,
    }
}

/// The arguments the chat command starts with. Reading them off the command
/// line, and everything they steer outside the library, happens in the
/// surrounding program.
#[derive(Debug, Clone)]
pub struct ChatArgs {
    /// Resumes the previous conversation from this directory.
    pub resume: bool,
    /// Context profile to use.
    pub agent: Option<String>,
    /// Current model to use.
    pub model: Option<String>,
    /// Allows the model to use any tool to run commands without asking for
    /// confirmation.
    pub trust_all_tools: bool,
    /// Trust only this set of tools.
    pub trust_tools: Option<Vec<String>>,
    /// Whether the command should run without expecting user input.
    pub no_interactive: bool,
    /// The first question to ask.
    pub input: Option<String>,
}

impl ChatArgs {
    /// The backend identifier of the requested model: none requested is
    /// fine, a name that resolves yields its identifier, and a name that
    /// does not is rejected before the chat starts.
    pub fn validated_model_id(&self) -> (r: Result<Option<String>, String>)
        ensures
            match self.model {
                None => r matches Ok(o) && o is None,
                Some(name) => match crate::models::resolved_model_id(name@) {
                    Some(id) => r matches Ok(o) && (o matches Some(v) && v@ == id),
                    None => r is Err,
                },
            },
    {
        match &self.model {
            None => Ok(None),
            Some(name) => {
                match crate::models::resolve_model_id(name.as_str()) {
                    Some(id) => Ok(Some(id)),
                    None => {
                        let mut msg = String::new();
                        msg.append("Model '");
                        msg.append(name.as_str());
                        msg.append("' does not exist");
                        Err(msg)
                    },
                }
            },
        }
    }
}

impl crate::models::ModelArgs {
    /// Applies an interactive model choice to the session; with no choice
    /// made, control simply returns to the prompt.
    pub fn execute(self, session: &mut ChatSession, selection: ModelSelection) -> (r: Result<
        ChatState,
        ChatError,
    >)
        requires
            match selection {
                ModelSelection::Choice(Some(i)) => i < crate::models::model_options_spec().len(),
                _ => true,
            },
        ensures
            r matches Ok(ChatState::PromptUser { skip_printing_tools }) && !skip_printing_tools,
    {
        match session.select_model(selection)? {
            Some(state) => match state {
                ChatState::PromptUser { skip_printing_tools } => Ok(
                    ChatState::PromptUser { skip_printing_tools },
                ),
                _ => Ok(ChatState::PromptUser { skip_printing_tools: false }),
            },
            None => Ok(ChatState::PromptUser { skip_printing_tools: false }),
        }
    }
}

} // verus!
