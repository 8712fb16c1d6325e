//! The closed set of tool capabilities, resolution of a model-issued tool
//! use into a capability instance, and the permission decision applied
//! before a tool runs. An explicit deny in the policy wins over every allow,
//! including the session-wide trust-all override.
use vstd::prelude::*;

use crate::agent::{Agent, Agents, PermissionEvalResult, name_in_list, list_contains};
use crate::execute_bash::{ExecuteBash, command_requires_acceptance};
use crate::message::{ArgValue, ScalarValue, ToolUse};
use crate::text;
use crate::use_aws::{UseAws, use_aws_eval_perm_spec};

verus! {

/// One resolved tool capability. Tools whose implementation lives outside
/// this library (they are invoked by the surrounding program) are carried as
/// `External` with the requested name and arguments.
#[derive(Debug, Clone)]
pub enum Tool {
    ExecuteBash(ExecuteBash),
    UseAws(UseAws),
    External { name: String, args: Vec<(String, ArgValue)> },
}

/// A validated tool use: its id and name as the model issued them, the
/// resolved capability, and whether the user or the policy has accepted it.
#[derive(Debug, Clone)]
pub struct QueuedTool {
    pub id: String,
    pub name: String,
    pub tool: Tool,
    pub accepted: bool,
}

/// The name a tool is known by in the policy's lists.
pub open spec fn tool_name_spec(t: Tool) -> Seq<char> {
    match t {
        Tool::ExecuteBash(_) => "execute_bash"@,
        Tool::UseAws(_) => "use_aws"@,
        Tool::External { name, args } => name@,
    }
}

/// What one policy decides for one tool, before the deny list and the
/// trust-all override are considered: the blanket allow-list entry, the
/// tool's own sub-settings, and otherwise its intrinsic risk.
pub open spec fn tool_eval_perm_spec(agent: Agent, t: Tool) -> PermissionEvalResult {
    match t {
        Tool::ExecuteBash(b) => if name_in_list(agent.allowed_tools.deep_view(), "execute_bash"@) {
            PermissionEvalResult::Allow
        } else if command_requires_acceptance(b.command@) {
            PermissionEvalResult::Ask
        } else {
            PermissionEvalResult::Allow
        },
        Tool::UseAws(u) => use_aws_eval_perm_spec(agent, u),
        Tool::External { name, args } => if name_in_list(agent.allowed_tools.deep_view(), name@) {
            PermissionEvalResult::Allow
        } else {
            PermissionEvalResult::Ask
        },
    }
}

/// The full permission decision for one tool: an explicit deny always wins;
/// otherwise the active policy's evaluation; with no active policy the tool
/// must be confirmed.
pub open spec fn permission_decision_spec(agents: Agents, t: Tool) -> PermissionEvalResult {
    match agents.active {
        None => PermissionEvalResult::Ask,
        Some(a) => if name_in_list(a.denied_tools.deep_view(), tool_name_spec(t)) {
            PermissionEvalResult::Deny
        } else {
            tool_eval_perm_spec(a, t)
        },
    }
}

/// A tool in both the policy's allow set and its deny set is denied: the
/// deny list is consulted before any allow.
pub proof fn lemma_deny_wins(agents: Agents, t: Tool)
    requires
        agents.active matches Some(a) && name_in_list(
            a.denied_tools.deep_view(),
            tool_name_spec(t),
        ),
    ensures
        permission_decision_spec(agents, t) == PermissionEvalResult::Deny,
{
}

impl Tool {
    /// The name this tool is known by.
    pub fn name(&self) -> (r: String)
        ensures
            r@ == tool_name_spec(*self),
    {
        match self {
            Tool::ExecuteBash(_) => {
                let mut s = String::new();
                s.append("execute_bash");
                s
            },
            Tool::UseAws(_) => {
                let mut s = String::new();
                s.append("use_aws");
                s
            },
            Tool::External { name, args } => name.clone(),
        }
    }

    /// Argument check before execution. The library's own tools accept any
    /// resolved arguments; an external tool is checked by its own
    /// implementation when it is invoked.
    pub fn validate(&mut self) -> (r: Result<(), String>)
        ensures
            r is Ok,
            *final(self) == *old(self),
    {
        match self {
            Tool::ExecuteBash(b) => b.validate(),
            Tool::UseAws(u) => u.validate(),
            Tool::External { name, args } => Ok(()),
        }
    }

    /// What the active policy decides for this tool, deny list first.
    pub fn eval_perm(&self, agents: &Agents) -> (r: PermissionEvalResult)
        ensures
            r == permission_decision_spec(*agents, *self),
    {
        match &agents.active {
            None => PermissionEvalResult::Ask,
            Some(a) => {
                let name = self.name();
                if list_contains(&a.denied_tools, name.as_str()) {
                    PermissionEvalResult::Deny
                } else {
                    match self {
                        Tool::ExecuteBash(b) => {
                            if list_contains(&a.allowed_tools, "execute_bash") {
                                PermissionEvalResult::Allow
                            } else if b.requires_acceptance() {
                                PermissionEvalResult::Ask
                            } else {
                                PermissionEvalResult::Allow
                            }
                        },
                        Tool::UseAws(u) => u.eval_perm(a),
                        Tool::External { name, args } => {
                            if list_contains(&a.allowed_tools, name.as_str()) {
                                PermissionEvalResult::Allow
                            } else {
                                PermissionEvalResult::Ask
                            }
                        },
                    }
                }
            },
        }
    }
}

/// The first value bound to `key` in an argument bag.
pub open spec fn lookup_arg(args: Seq<(String, ArgValue)>, key: Seq<char>) -> Option<ArgValue>
    decreases args.len(),
{
    if args.len() == 0 {
        None
    } else if args[0].0@ == key {
        Some(args[0].1)
    } else {
        lookup_arg(args.drop_first(), key)
    }
}

/// Looking a key up in a split bag: the earlier part wins when it binds the
/// key at all.
proof fn lemma_lookup_append(a: Seq<(String, ArgValue)>, b: Seq<(String, ArgValue)>, key: Seq<char>)
    ensures
        lookup_arg(a + b, key) == (match lookup_arg(a, key) {
            Some(v) => Some(v),
            None => lookup_arg(b, key),
        }),
    decreases a.len(),
{
    if a.len() == 0 {
        assert(a + b =~= b);
    } else {
        assert((a + b)[0] == a[0]);
        assert((a + b).drop_first() =~= a.drop_first() + b);
        lemma_lookup_append(a.drop_first(), b, key);
    }
}

/// The shell tool a model request resolves to, when its argument bag holds
/// the required `command` string.
pub open spec fn execute_bash_of_args(args: Seq<(String, ArgValue)>) -> Option<ExecuteBash> {
    match lookup_arg(args, "command"@) {
        Some(ArgValue::Scalar(ScalarValue::Str(s))) => Some(ExecuteBash { command: s }),
        _ => None,
    }
}

/// An optional string field of an argument bag: absent and null both mean
/// `None`; any value of another type makes the whole bag invalid, which the
/// outer `None` reports.
pub open spec fn opt_str_arg(args: Seq<(String, ArgValue)>, key: Seq<char>) -> Option<
    Option<String>,
> {
    match lookup_arg(args, key) {
        None => Some(None),
        Some(ArgValue::Scalar(ScalarValue::Null)) => Some(None),
        Some(ArgValue::Scalar(ScalarValue::Str(s))) => Some(Some(s)),
        Some(_) => None,
    }
}

/// The aws tool a model request resolves to, when its argument bag holds
/// the required strings and well-typed optional fields.
pub open spec fn use_aws_of_args(args: Seq<(String, ArgValue)>) -> Option<UseAws> {
    match (lookup_arg(args, "service_name"@), lookup_arg(args, "operation_name"@), lookup_arg(
        args,
        "region"@,
    )) {
        (
            Some(ArgValue::Scalar(ScalarValue::Str(service_name))),
            Some(ArgValue::Scalar(ScalarValue::Str(operation_name))),
            Some(ArgValue::Scalar(ScalarValue::Str(region))),
        ) => {
            let parameters = match lookup_arg(args, "parameters"@) {
                None => Some(None),
                Some(ArgValue::Scalar(ScalarValue::Null)) => Some(None),
                Some(ArgValue::Obj(ps)) => Some(Some(ps)),
                Some(_) => None,
            };
            match (parameters, opt_str_arg(args, "profile_name"@), opt_str_arg(args, "label"@)) {
                (Some(parameters), Some(profile_name), Some(label)) => Some(
                    UseAws {
                        service_name,
                        operation_name,
                        parameters,
                        region,
                        profile_name,
                        label,
                    },
                ),
                _ => None,
            }
        },
        _ => None,
    }
}

/// The capability a model-issued tool use resolves to: one of the library's
/// own tools when the name and arguments fit, an external capability when
/// the name is registered, and nothing otherwise.
pub open spec fn resolved_tool(registry: Seq<Seq<char>>, tu: ToolUse) -> Option<Tool> {
    if tu.name@ == "execute_bash"@ {
        match execute_bash_of_args(tu.args@) {
            Some(b) => Some(Tool::ExecuteBash(b)),
            None => None,
        }
    } else if tu.name@ == "use_aws"@ {
        match use_aws_of_args(tu.args@) {
            Some(u) => Some(Tool::UseAws(u)),
            None => None,
        }
    } else if name_in_list(registry, tu.name@) {
        Some(Tool::External { name: tu.name, args: tu.args })
    } else {
        None
    }
}

/// Takes the first value bound to `key` out of the bag, consuming it.
fn take_first_arg(args: Vec<(String, ArgValue)>, key: &str) -> (r: Option<ArgValue>)
    ensures
        r == lookup_arg(args@, key@),
{
    let ghost orig = args@;
    let mut rest = args;
    let mut acc: Option<ArgValue> = None;
    let ghost mut j: int = 0;
    proof {
        assert(orig.take(0) =~= Seq::empty());
        assert(orig.skip(0) =~= orig);
    }
    while rest.len() > 0
        invariant
            0 <= j <= orig.len(),
            rest@ =~= orig.skip(j),
            acc == lookup_arg(orig.take(j), key@),
        decreases rest@.len(),
    {
        let pair = rest.remove(0);
        proof {
            assert(pair == orig[j]);
            assert(rest@ =~= orig.skip(j + 1));
            let a = orig.take(j);
            let b = seq![orig[j]];
            assert(orig.take(j + 1) =~= a + b);
            assert(b.drop_first() =~= Seq::<(String, ArgValue)>::empty());
            assert(lookup_arg(Seq::<(String, ArgValue)>::empty(), key@) is None);
            lemma_lookup_append(a, b, key@);
        }
        if acc.is_none() && text::str_eq(pair.0.as_str(), key) {
            acc = Some(pair.1);
        }
        proof {
            j = j + 1;
        }
    }
    proof {
        assert(orig.take(j) =~= orig);
    }
    acc
}

/// Takes the first values bound to the aws tool's six argument names out of
/// the bag, consuming it.
#[verifier::rlimit(60)]
fn take_use_aws_args(args: Vec<(String, ArgValue)>) -> (r: (
    Option<ArgValue>,
    Option<ArgValue>,
    Option<ArgValue>,
    Option<ArgValue>,
    Option<ArgValue>,
    Option<ArgValue>,
))
    ensures
        r.0 == lookup_arg(args@, "service_name"@),
        r.1 == lookup_arg(args@, "operation_name"@),
        r.2 == lookup_arg(args@, "region"@),
        r.3 == lookup_arg(args@, "parameters"@),
        r.4 == lookup_arg(args@, "profile_name"@),
        r.5 == lookup_arg(args@, "label"@),
{
    let ghost orig = args@;
    let mut rest = args;
    let mut service: Option<ArgValue> = None;
    let mut operation: Option<ArgValue> = None;
    let mut region: Option<ArgValue> = None;
    let mut parameters: Option<ArgValue> = None;
    let mut profile: Option<ArgValue> = None;
    let mut label: Option<ArgValue> = None;
    let ghost mut j: int = 0;
    proof {
        assert(orig.take(0) =~= Seq::empty());
        assert(orig.skip(0) =~= orig);
    }
    while rest.len() > 0
        invariant
            0 <= j <= orig.len(),
            rest@ =~= orig.skip(j),
            service == lookup_arg(orig.take(j), "service_name"@),
            operation == lookup_arg(orig.take(j), "operation_name"@),
            region == lookup_arg(orig.take(j), "region"@),
            parameters == lookup_arg(orig.take(j), "parameters"@),
            profile == lookup_arg(orig.take(j), "profile_name"@),
            label == lookup_arg(orig.take(j), "label"@),
        decreases rest@.len(),
    {
        let pair = rest.remove(0);
        proof {
            reveal_strlit("service_name");
            reveal_strlit("operation_name");
            reveal_strlit("region");
            reveal_strlit("parameters");
            reveal_strlit("profile_name");
            reveal_strlit("label");
            assert("service_name"@.len() == 12);
            assert("operation_name"@.len() == 14);
            assert("region"@.len() == 6);
            assert("parameters"@.len() == 10);
            assert("profile_name"@.len() == 12);
            assert("label"@.len() == 5);
            assert("service_name"@[0] == 's');
            assert("profile_name"@[0] == 'p');
            assert(pair == orig[j]);
            assert(rest@ =~= orig.skip(j + 1));
            let a = orig.take(j);
            let b = seq![orig[j]];
            assert(orig.take(j + 1) =~= a + b);
            assert(b.drop_first() =~= Seq::<(String, ArgValue)>::empty());
            assert(lookup_arg(Seq::<(String, ArgValue)>::empty(), "service_name"@) is None);
            assert(lookup_arg(Seq::<(String, ArgValue)>::empty(), "operation_name"@) is None);
            assert(lookup_arg(Seq::<(String, ArgValue)>::empty(), "region"@) is None);
            assert(lookup_arg(Seq::<(String, ArgValue)>::empty(), "parameters"@) is None);
            assert(lookup_arg(Seq::<(String, ArgValue)>::empty(), "profile_name"@) is None);
            assert(lookup_arg(Seq::<(String, ArgValue)>::empty(), "label"@) is None);
            lemma_lookup_append(a, b, "service_name"@);
            lemma_lookup_append(a, b, "operation_name"@);
            lemma_lookup_append(a, b, "region"@);
            lemma_lookup_append(a, b, "parameters"@);
            lemma_lookup_append(a, b, "profile_name"@);
            lemma_lookup_append(a, b, "label"@);
        }
        let is_service = text::str_eq(pair.0.as_str(), "service_name");
        let is_operation = text::str_eq(pair.0.as_str(), "operation_name");
        let is_region = text::str_eq(pair.0.as_str(), "region");
        let is_parameters = text::str_eq(pair.0.as_str(), "parameters");
        let is_profile = text::str_eq(pair.0.as_str(), "profile_name");
        let is_label = text::str_eq(pair.0.as_str(), "label");
        if service.is_none() && is_service {
            service = Some(pair.1);
        } else if operation.is_none() && is_operation {
            operation = Some(pair.1);
        } else if region.is_none() && is_region {
            region = Some(pair.1);
        } else if parameters.is_none() && is_parameters {
            parameters = Some(pair.1);
        } else if profile.is_none() && is_profile {
            profile = Some(pair.1);
        } else if label.is_none() && is_label {
            label = Some(pair.1);
        }
        proof {
            j = j + 1;
        }
    }
    proof {
        assert(orig.take(j) =~= orig);
    }
    (service, operation, region, parameters, profile, label)
}

/// Resolves a tool use against the registry of available tool names. The
/// result is `Ok` exactly when a capability exists for the name and the
/// arguments are well-typed; the error text tells the model why its request
/// failed.
pub fn resolve_tool(registry: &Vec<String>, tu: ToolUse) -> (r: Result<Tool, String>)
    ensures
        match r {
            Ok(t) => resolved_tool(registry.deep_view(), tu) == Some(t),
            Err(_) => resolved_tool(registry.deep_view(), tu) is None,
        },
{
    if text::str_eq(tu.name.as_str(), "execute_bash") {
        match take_first_arg(tu.args, "command") {
            Some(ArgValue::Scalar(ScalarValue::Str(s))) => Ok(
                Tool::ExecuteBash(ExecuteBash { command: s }),
            ),
            _ => Err(bad_args_text("execute_bash")),
        }
    } else if text::str_eq(tu.name.as_str(), "use_aws") {
        let (service, operation, region_arg, parameters_arg, profile_arg, label_arg) =
            take_use_aws_args(tu.args);
        let service_name = match service {
            Some(ArgValue::Scalar(ScalarValue::Str(s))) => s,
            _ => {
                return Err(bad_args_text("use_aws"));
            },
        };
        let operation_name = match operation {
            Some(ArgValue::Scalar(ScalarValue::Str(s))) => s,
            _ => {
                return Err(bad_args_text("use_aws"));
            },
        };
        let region = match region_arg {
            Some(ArgValue::Scalar(ScalarValue::Str(s))) => s,
            _ => {
                return Err(bad_args_text("use_aws"));
            },
        };
        let parameters = match parameters_arg {
            None => None,
            Some(ArgValue::Scalar(ScalarValue::Null)) => None,
            Some(ArgValue::Obj(ps)) => Some(ps),
            Some(_) => {
                return Err(bad_args_text("use_aws"));
            },
        };
        let profile_name = match profile_arg {
            None => None,
            Some(ArgValue::Scalar(ScalarValue::Null)) => None,
            Some(ArgValue::Scalar(ScalarValue::Str(s))) => Some(s),
            Some(_) => {
                return Err(bad_args_text("use_aws"));
            },
        };
        let label = match label_arg {
            None => None,
            Some(ArgValue::Scalar(ScalarValue::Null)) => None,
            Some(ArgValue::Scalar(ScalarValue::Str(s))) => Some(s),
            Some(_) => {
                return Err(bad_args_text("use_aws"));
            },
        };
        Ok(
            Tool::UseAws(
                UseAws { service_name, operation_name, parameters, region, profile_name, label },
            ),
        )
    } else if list_contains(registry, tu.name.as_str()) {
        Ok(Tool::External { name: tu.name, args: tu.args })
    } else {
        let mut msg = String::new();
        msg.append("The tool, \"");
        msg.append(tu.name.as_str());
        msg.append("\", is not supported by the client");
        Err(msg)
    }
}

fn bad_args_text(name: &str) -> (r: String) {
    let mut msg = String::new();
    msg.append("The tool, \"");
    msg.append(name);
    msg.append("\", was supplied with malformed arguments");
    msg
}

} // verus!
