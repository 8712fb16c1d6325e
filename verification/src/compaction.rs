//! The history-compaction escalation ladder. When a summarization request
//! itself overflows the context window, the strategy is escalated
//! deterministically: a short history goes straight to truncation, a longer
//! one first excludes the most recent message, then truncates, and once both
//! are in force the compaction fails for good. Escalation only ever raises
//! the strategy's aggressiveness, so the ladder terminates.
use vstd::prelude::*;

verus! {

/// Message-length cap applied when truncation is switched on.
pub const TRUNCATED_MESSAGE_LENGTH: usize = 25000;

/// Message-length cap of a fresh strategy; large enough that nothing is
/// truncated while truncation is off.
pub const DEFAULT_MAX_MESSAGE_LENGTH: usize = 250000;

/// Parameters for how to perform one compaction request.
#[derive(Debug, Clone, Copy, PartialEq, Eq, Structural)]
pub struct CompactStrategy {
    /// Truncate over-long message content before summarizing.
    pub truncate_large_messages: bool,
    /// Length cap applied when truncating.
    pub max_message_length: usize,
    /// How many of the most recent messages to leave out; zero or one.
    pub messages_to_exclude: usize,
}

impl Default for CompactStrategy {
    /// The strategy of a first, unescalated compaction request.
    fn default() -> (r: CompactStrategy)
        ensures
            r == initial_strategy(),
    {
        CompactStrategy {
            truncate_large_messages: false,
            max_message_length: DEFAULT_MAX_MESSAGE_LENGTH,
            messages_to_exclude: 0,
        }
    }
}

/// The strategy of a first, unescalated compaction request.
pub open spec fn initial_strategy() -> CompactStrategy {
    CompactStrategy {
        truncate_large_messages: false,
        max_message_length: DEFAULT_MAX_MESSAGE_LENGTH as usize,
        messages_to_exclude: 0,
    }
}

/// The strategy the orchestrator selects when a chat request overflows and
/// compaction starts: a history of at most two messages goes straight to
/// truncation, a longer one starts unescalated.
pub open spec fn overflow_entry_strategy(history_len: nat) -> CompactStrategy {
    if history_len <= 2 {
        CompactStrategy {
            truncate_large_messages: true,
            max_message_length: TRUNCATED_MESSAGE_LENGTH as usize,
            messages_to_exclude: 0,
        }
    } else {
        initial_strategy()
    }
}

/// How the strategy escalates when the compaction request itself overflows:
/// `None` means both measures are already in force and compaction fails for
/// good.
pub open spec fn escalate_spec(history_len: nat, s: CompactStrategy) -> Option<CompactStrategy> {
    if history_len <= 2 && !s.truncate_large_messages {
        Some(
            CompactStrategy {
                truncate_large_messages: true,
                max_message_length: TRUNCATED_MESSAGE_LENGTH as usize,
                messages_to_exclude: 0,
            },
        )
    } else if history_len > 2 && s.messages_to_exclude < 1 {
        Some(CompactStrategy { messages_to_exclude: 1, ..s })
    } else if !s.truncate_large_messages {
        Some(
            CompactStrategy {
                truncate_large_messages: true,
                max_message_length: TRUNCATED_MESSAGE_LENGTH as usize,
                ..s
            },
        )
    } else {
        None
    }
}

/// The strategy the orchestrator selects when a chat request overflows.
pub fn overflow_entry(history_len: usize) -> (r: CompactStrategy)
    ensures
        r == overflow_entry_strategy(history_len as nat),
{
    if history_len <= 2 {
        CompactStrategy {
            truncate_large_messages: true,
            max_message_length: TRUNCATED_MESSAGE_LENGTH,
            messages_to_exclude: 0,
        }
    } else {
        CompactStrategy {
            truncate_large_messages: false,
            max_message_length: DEFAULT_MAX_MESSAGE_LENGTH,
            messages_to_exclude: 0,
        }
    }
}

/// Escalates the strategy after a compaction request overflowed; `None`
/// means the history is too large to compact.
pub fn escalate_on_overflow(history_len: usize, s: CompactStrategy) -> (r: Option<CompactStrategy>)
    ensures
        r == escalate_spec(history_len as nat, s),
{
    if history_len <= 2 && !s.truncate_large_messages {
        Some(
            CompactStrategy {
                truncate_large_messages: true,
                max_message_length: TRUNCATED_MESSAGE_LENGTH,
                messages_to_exclude: 0,
            },
        )
    } else if history_len > 2 && s.messages_to_exclude < 1 {
        Some(CompactStrategy { messages_to_exclude: 1, ..s })
    } else if !s.truncate_large_messages {
        Some(
            CompactStrategy {
                truncate_large_messages: true,
                max_message_length: TRUNCATED_MESSAGE_LENGTH,
                ..s
            },
        )
    } else {
        None
    }
}

/// How aggressive a strategy is; escalation strictly increases this ordinal,
/// which is capped, so the retry ladder terminates.
pub open spec fn strategy_rank(s: CompactStrategy) -> nat {
    ((if s.truncate_large_messages {
        1int
    } else {
        0int
    }) + 2 * s.messages_to_exclude) as nat
}

/// Escalation is monotone: it never reverts truncation, never re-includes an
/// excluded message, and strictly increases the aggressiveness rank. The
/// exclusion count only ever becomes positive for a history longer than two
/// messages.
pub proof fn lemma_escalation_monotone(history_len: nat, s: CompactStrategy)
    requires
        history_len <= 2 ==> s.messages_to_exclude == 0,
    ensures
        escalate_spec(history_len, s) matches Some(t) ==> {
            &&& s.truncate_large_messages ==> t.truncate_large_messages
            &&& t.messages_to_exclude >= s.messages_to_exclude
            &&& s.messages_to_exclude == 0 && t.messages_to_exclude > 0 ==> history_len > 2
            &&& strategy_rank(t) > strategy_rank(s)
        },
{
}

/// A history of at most two messages escalates straight to truncation on
/// overflow: neither the entry strategy nor the first escalation ever sets
/// `messages_to_exclude`.
pub proof fn lemma_short_history_truncates_first(history_len: nat)
    requires
        history_len <= 2,
    ensures
        overflow_entry_strategy(history_len).truncate_large_messages,
        overflow_entry_strategy(history_len).messages_to_exclude == 0,
        escalate_spec(history_len, initial_strategy()) matches Some(t)
            && t.truncate_large_messages && t.messages_to_exclude == 0,
{
}

/// A history longer than two messages first excludes the most recent
/// message, leaving truncation untouched; only a second overflow switches
/// truncation on.
pub proof fn lemma_long_history_excludes_first(history_len: nat)
    requires
        history_len > 2,
    ensures
        escalate_spec(history_len, initial_strategy()) matches Some(t) && t.messages_to_exclude
            == 1 && !t.truncate_large_messages,
        ({
            let first = escalate_spec(history_len, initial_strategy()).unwrap();
            escalate_spec(history_len, first) matches Some(t2) && t2.truncate_large_messages
                && t2.messages_to_exclude == 1
        }),
{
}

/// The escalation ladder terminates: starting from the initial strategy, at
/// most two escalations can succeed, and the one after them reports that the
/// history is too large to compact.
pub proof fn lemma_escalation_terminates(history_len: nat)
    ensures
        ({
            let s0 = initial_strategy();
            match escalate_spec(history_len, s0) {
                None => true,
                Some(s1) => match escalate_spec(history_len, s1) {
                    None => true,
                    Some(s2) => escalate_spec(history_len, s2) is None,
                },
            }
        }),
        ({
            let e0 = overflow_entry_strategy(history_len);
            match escalate_spec(history_len, e0) {
                None => true,
                Some(e1) => match escalate_spec(history_len, e1) {
                    None => true,
                    Some(e2) => escalate_spec(history_len, e2) is None,
                },
            }
        }),
{
}

} // verus!
