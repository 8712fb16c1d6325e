//! The data carried by one turn of the conversation: tool-use requests issued
//! by the model, tool results returned to it, and the user and assistant
//! messages that make up the transcript.
use vstd::prelude::*;

verus! {

/// A scalar argument value handed to a tool. `Json` carries the serialized
/// text of any value that is not a string, boolean, integer or null.
#[derive(Debug, Clone)]
pub enum ScalarValue {
    Str(String),
    Bool(bool),
    Int(i64),
    Null,
    Json(String),
}

/// A structured argument value handed to a tool: a scalar, or a one-level
/// bag of named scalars. This is the plain-value shape of the argument bags
/// that arrive with a model's tool-use request.
#[derive(Debug, Clone)]
pub enum ArgValue {
    Scalar(ScalarValue),
    Obj(Vec<(String, ScalarValue)>),
}

/// A model-issued request to invoke a named capability with structured
/// arguments.
#[derive(Debug, Clone)]
pub struct ToolUse {
    pub id: String,
    pub name: String,
    pub args: Vec<(String, ArgValue)>,
}

#[derive(Debug, Clone, Copy, PartialEq, Eq, Structural)]
pub enum ToolResultStatus {
    Success,
    Error,
}

/// The result of one tool use, fed back to the model under the id of the
/// originating request.
#[derive(Debug, Clone)]
pub struct ToolUseResult {
    pub tool_use_id: String,
    pub content: String,
    pub status: ToolResultStatus,
}

/// One assembled assistant response: text plus zero or more tool uses.
#[derive(Debug, Clone)]
pub struct AssistantMessage {
    pub message_id: Option<String>,
    pub content: String,
    pub tool_uses: Vec<ToolUse>,
}

impl AssistantMessage {
    /// A plain text response without tool uses.
    pub fn new_response(message_id: Option<String>, content: String) -> (r: AssistantMessage)
        ensures
            r.message_id == message_id,
            r.content == content,
            r.tool_uses@.len() == 0,
    {
        AssistantMessage { message_id, content, tool_uses: Vec::new() }
    }

    pub fn content(&self) -> (r: &String)
        ensures
            r == &self.content,
    {
        &self.content
    }
}

impl ScalarValue {
    /// A copy that is provably equal to the original.
    pub fn duplicate(&self) -> (r: ScalarValue)
        ensures
            r == *self,
    {
        match self {
            ScalarValue::Str(s) => ScalarValue::Str(s.clone()),
            ScalarValue::Bool(b) => ScalarValue::Bool(*b),
            ScalarValue::Int(n) => ScalarValue::Int(*n),
            ScalarValue::Null => ScalarValue::Null,
            ScalarValue::Json(t) => ScalarValue::Json(t.clone()),
        }
    }
}

/// A copy of a named-scalar list that is provably equal, element for
/// element, to the original.
pub fn duplicate_scalar_pairs(ps: &Vec<(String, ScalarValue)>) -> (r: Vec<(String, ScalarValue)>)
    ensures
        r@ =~= ps@,
{
    let mut out: Vec<(String, ScalarValue)> = Vec::new();
    let mut i: usize = 0;
    while i < ps.len()
        invariant
            0 <= i <= ps@.len(),
            out@ =~= ps@.take(i as int),
        decreases ps@.len() - i,
    {
        out.push((ps[i].0.clone(), ps[i].1.duplicate()));
        proof {
            assert(out@ =~= ps@.take(i as int + 1));
        }
        i = i + 1;
    }
    proof {
        assert(ps@.take(ps@.len() as int) =~= ps@);
    }
    out
}

impl ArgValue {
    /// A copy whose mathematical value is that of the original.
    pub fn duplicate(&self) -> (r: ArgValue)
        ensures
            r.deep_view() == self.deep_view(),
    {
        match self {
            ArgValue::Scalar(v) => ArgValue::Scalar(v.duplicate()),
            ArgValue::Obj(ps) => {
                let qs = duplicate_scalar_pairs(ps);
                proof {
                    assert(qs.deep_view() =~= ps.deep_view());
                }
                ArgValue::Obj(qs)
            },
        }
    }
}

impl ToolUseResult {
    /// A copy that is provably equal to the original.
    pub fn duplicate(&self) -> (r: ToolUseResult)
        ensures
            r == *self,
    {
        ToolUseResult {
            tool_use_id: self.tool_use_id.clone(),
            content: self.content.clone(),
            status: self.status,
        }
    }
}

/// A copy of a tool-result list that is provably equal, element for element,
/// to the original.
pub fn duplicate_tool_results(rs: &Vec<ToolUseResult>) -> (r: Vec<ToolUseResult>)
    ensures
        r@ =~= rs@,
{
    let mut out: Vec<ToolUseResult> = Vec::new();
    let mut i: usize = 0;
    while i < rs.len()
        invariant
            0 <= i <= rs@.len(),
            out@ =~= rs@.take(i as int),
        decreases rs@.len() - i,
    {
        out.push(rs[i].duplicate());
        proof {
            assert(out@ =~= rs@.take(i as int + 1));
        }
        i = i + 1;
    }
    proof {
        assert(rs@.take(rs@.len() as int) =~= rs@);
    }
    out
}

/// A copy of an optional string that is provably equal to the original.
pub fn duplicate_opt_string(s: &Option<String>) -> (r: Option<String>)
    ensures
        r == *s,
{
    match s {
        Some(v) => Some(v.clone()),
        None => None,
    }
}

/// What a user turn contributes: either a typed prompt or the batch of tool
/// results produced by the preceding assistant message.
#[derive(Debug, Clone)]
pub enum UserMessageContent {
    Prompt(String),
    ToolUseResults(Vec<ToolUseResult>),
}

#[derive(Debug, Clone)]
pub struct UserMessage {
    pub content: UserMessageContent,
}

/// One entry of the conversation history.
#[derive(Debug, Clone)]
pub enum HistoryEntry {
    User(UserMessage),
    Assistant(AssistantMessage),
}

/// The mathematical value of a [`ScalarValue`].
pub enum ScalarValueV {
    Str(Seq<char>),
    Bool(bool),
    Int(int),
    Null,
    Json(Seq<char>),
}

/// The mathematical value of an [`ArgValue`].
pub enum ArgValueV {
    Scalar(ScalarValueV),
    Obj(Seq<(Seq<char>, ScalarValueV)>),
}

/// The mathematical value of a [`ToolUse`].
pub struct ToolUseV {
    pub id: Seq<char>,
    pub name: Seq<char>,
    pub args: Seq<(Seq<char>, ArgValueV)>,
}

/// The mathematical value of a [`ToolUseResult`].
pub struct ToolUseResultV {
    pub tool_use_id: Seq<char>,
    pub content: Seq<char>,
    pub status: ToolResultStatus,
}

/// The mathematical value of an [`AssistantMessage`].
pub struct AssistantMessageV {
    pub message_id: Option<Seq<char>>,
    pub content: Seq<char>,
    pub tool_uses: Seq<ToolUseV>,
}

/// The mathematical value of a [`UserMessage`].
pub enum UserMessageV {
    Prompt(Seq<char>),
    ToolUseResults(Seq<ToolUseResultV>),
}

/// The mathematical value of a [`HistoryEntry`].
pub enum HistoryEntryV {
    User(UserMessageV),
    Assistant(AssistantMessageV),
}

impl View for ScalarValue {
    type V = ScalarValueV;

    open spec fn view(&self) -> ScalarValueV {
        match self {
            ScalarValue::Str(s) => ScalarValueV::Str(s@),
            ScalarValue::Bool(b) => ScalarValueV::Bool(*b),
            ScalarValue::Int(n) => ScalarValueV::Int(*n as int),
            ScalarValue::Null => ScalarValueV::Null,
            ScalarValue::Json(t) => ScalarValueV::Json(t@),
        }
    }
}

impl DeepView for ScalarValue {
    type V = ScalarValueV;

    open spec fn deep_view(&self) -> ScalarValueV {
        self.view()
    }
}

impl View for ArgValue {
    type V = ArgValueV;

    open spec fn view(&self) -> ArgValueV {
        match self {
            ArgValue::Scalar(v) => ArgValueV::Scalar(v@),
            ArgValue::Obj(ps) => ArgValueV::Obj(ps.deep_view()),
        }
    }
}

impl DeepView for ArgValue {
    type V = ArgValueV;

    open spec fn deep_view(&self) -> ArgValueV {
        self.view()
    }
}

impl View for ToolUse {
    type V = ToolUseV;

    open spec fn view(&self) -> ToolUseV {
        ToolUseV { id: self.id@, name: self.name@, args: self.args.deep_view() }
    }
}

impl DeepView for ToolUse {
    type V = ToolUseV;

    open spec fn deep_view(&self) -> ToolUseV {
        self.view()
    }
}

impl View for ToolUseResult {
    type V = ToolUseResultV;

    open spec fn view(&self) -> ToolUseResultV {
        ToolUseResultV {
            tool_use_id: self.tool_use_id@,
            content: self.content@,
            status: self.status,
        }
    }
}

impl DeepView for ToolUseResult {
    type V = ToolUseResultV;

    open spec fn deep_view(&self) -> ToolUseResultV {
        self.view()
    }
}

impl View for AssistantMessage {
    type V = AssistantMessageV;

    open spec fn view(&self) -> AssistantMessageV {
        AssistantMessageV {
            message_id: match self.message_id {
                Some(id) => Some(id@),
                None => None,
            },
            content: self.content@,
            tool_uses: self.tool_uses.deep_view(),
        }
    }
}

impl DeepView for AssistantMessage {
    type V = AssistantMessageV;

    open spec fn deep_view(&self) -> AssistantMessageV {
        self.view()
    }
}

impl View for UserMessage {
    type V = UserMessageV;

    open spec fn view(&self) -> UserMessageV {
        match &self.content {
            UserMessageContent::Prompt(s) => UserMessageV::Prompt(s@),
            UserMessageContent::ToolUseResults(rs) => UserMessageV::ToolUseResults(rs.deep_view()),
        }
    }
}

impl DeepView for UserMessage {
    type V = UserMessageV;

    open spec fn deep_view(&self) -> UserMessageV {
        self.view()
    }
}

impl View for HistoryEntry {
    type V = HistoryEntryV;

    open spec fn view(&self) -> HistoryEntryV {
        match self {
            HistoryEntry::User(u) => HistoryEntryV::User(u@),
            HistoryEntry::Assistant(a) => HistoryEntryV::Assistant(a@),
        }
    }
}

impl DeepView for HistoryEntry {
    type V = HistoryEntryV;

    open spec fn deep_view(&self) -> HistoryEntryV {
        self.view()
    }
}

/// A copy of an argument bag whose mathematical value is that of the
/// original.
pub fn duplicate_arg_pairs(args: &Vec<(String, ArgValue)>) -> (r: Vec<(String, ArgValue)>)
    ensures
        r.deep_view() =~= args.deep_view(),
{
    let mut out: Vec<(String, ArgValue)> = Vec::new();
    let mut i: usize = 0;
    while i < args.len()
        invariant
            0 <= i <= args@.len(),
            out@.len() == i,
            forall|k: int| 0 <= k < i ==> out.deep_view()[k] == args.deep_view()[k],
        decreases args@.len() - i,
    {
        out.push((args[i].0.clone(), args[i].1.duplicate()));
        proof {
            assert(out.deep_view()[i as int] == args.deep_view()[i as int]);
        }
        i = i + 1;
    }
    proof {
        assert(out.deep_view() =~= args.deep_view());
    }
    out
}

impl ToolUse {
    /// A copy whose mathematical value is that of the original.
    pub fn duplicate(&self) -> (r: ToolUse)
        ensures
            r@ == self@,
    {
        let r = ToolUse {
            id: self.id.clone(),
            name: self.name.clone(),
            args: duplicate_arg_pairs(&self.args),
        };
        r
    }
}

/// A copy of a tool-use list whose mathematical value is that of the
/// original.
pub fn duplicate_tool_uses(ts: &Vec<ToolUse>) -> (r: Vec<ToolUse>)
    ensures
        r.deep_view() =~= ts.deep_view(),
{
    let mut out: Vec<ToolUse> = Vec::new();
    let mut i: usize = 0;
    while i < ts.len()
        invariant
            0 <= i <= ts@.len(),
            out@.len() == i,
            forall|k: int| 0 <= k < i ==> out.deep_view()[k] == ts.deep_view()[k],
        decreases ts@.len() - i,
    {
        out.push(ts[i].duplicate());
        proof {
            assert(out.deep_view()[i as int] == ts.deep_view()[i as int]);
        }
        i = i + 1;
    }
    proof {
        assert(out.deep_view() =~= ts.deep_view());
    }
    out
}

impl AssistantMessage {
    /// A copy whose mathematical value is that of the original.
    pub fn duplicate(&self) -> (r: AssistantMessage)
        ensures
            r@ == self@,
    {
        AssistantMessage {
            message_id: duplicate_opt_string(&self.message_id),
            content: self.content.clone(),
            tool_uses: duplicate_tool_uses(&self.tool_uses),
        }
    }
}

impl UserMessage {
    /// A copy whose mathematical value is that of the original.
    pub fn duplicate(&self) -> (r: UserMessage)
        ensures
            r@ == self@,
    {
        match &self.content {
            UserMessageContent::Prompt(s) => UserMessage {
                content: UserMessageContent::Prompt(s.clone()),
            },
            UserMessageContent::ToolUseResults(rs) => UserMessage {
                content: UserMessageContent::ToolUseResults(duplicate_tool_results(rs)),
            },
        }
    }
}

impl HistoryEntry {
    /// A copy whose mathematical value is that of the original.
    pub fn duplicate(&self) -> (r: HistoryEntry)
        ensures
            r@ == self@,
    {
        match self {
            HistoryEntry::User(u) => HistoryEntry::User(u.duplicate()),
            HistoryEntry::Assistant(a) => HistoryEntry::Assistant(a.duplicate()),
        }
    }
}

/// A copy of a history whose mathematical value is that of the original.
pub fn duplicate_history(hs: &Vec<HistoryEntry>) -> (r: Vec<HistoryEntry>)
    ensures
        r.deep_view() =~= hs.deep_view(),
{
    let mut out: Vec<HistoryEntry> = Vec::new();
    let mut i: usize = 0;
    while i < hs.len()
        invariant
            0 <= i <= hs@.len(),
            out@.len() == i,
            forall|k: int| 0 <= k < i ==> out.deep_view()[k] == hs.deep_view()[k],
        decreases hs@.len() - i,
    {
        out.push(hs[i].duplicate());
        proof {
            assert(out.deep_view()[i as int] == hs.deep_view()[i as int]);
        }
        i = i + 1;
    }
    proof {
        assert(out.deep_view() =~= hs.deep_view());
    }
    out
}

impl HistoryEntry {
    /// The text length of the entry, used when deciding what to truncate
    /// during compaction.
    pub open spec fn spec_content_len(&self) -> nat {
        match self {
            HistoryEntry::User(u) => match &u.content {
                UserMessageContent::Prompt(s) => s@.len(),
                UserMessageContent::ToolUseResults(_) => 0,
            },
            HistoryEntry::Assistant(a) => a.content@.len(),
        }
    }
}

} // verus!
