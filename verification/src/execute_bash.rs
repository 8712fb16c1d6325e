//! The shell-command tool: its intrinsic risk classification (which commands
//! may run without confirmation) and its argument checks. Invoking the
//! command itself is process I/O and lives outside the library; everything
//! decided about a command before it runs is verified here.
use vstd::prelude::*;

use crate::shellwords::{shell_words, split_shell_words};
use crate::text;

verus! {

/// The commands that are read-only and therefore safe to run without
/// confirmation.
pub open spec fn is_readonly_command(c: Seq<char>) -> bool {
    ||| c == "ls"@
    ||| c == "cat"@
    ||| c == "echo"@
    ||| c == "pwd"@
    ||| c == "which"@
    ||| c == "head"@
    ||| c == "tail"@
    ||| c == "find"@
    ||| c == "grep"@
}

/// Whether one shell word holds a pattern that can redirect, substitute or
/// chain commands, which makes the whole command unsafe to auto-approve.
pub open spec fn arg_has_dangerous_pattern(a: Seq<char>) -> bool {
    ||| text::seq_contains_seq(a, "<("@)
    ||| text::seq_contains_seq(a, "$("@)
    ||| text::seq_contains_seq(a, "`"@)
    ||| text::seq_contains_seq(a, ">"@)
    ||| text::seq_contains_seq(a, "&&"@)
    ||| text::seq_contains_seq(a, "||"@)
}

/// Walks the words of a pipe chain. `at_start` says whether the next word
/// begins a command; every word in that position must be a read-only command.
pub open spec fn pipe_segments_safe(args: Seq<Seq<char>>, at_start: bool) -> bool
    decreases args.len(),
{
    if args.len() == 0 {
        true
    } else if args[0] == "|"@ {
        pipe_segments_safe(args.drop_first(), true)
    } else if at_start {
        is_readonly_command(args[0]) && pipe_segments_safe(args.drop_first(), false)
    } else {
        pipe_segments_safe(args.drop_first(), false)
    }
}

/// Whether a split command line needs the user's confirmation: some word
/// holds a dangerous pattern, a pipe appears glued to other characters, or a
/// command of the pipe chain is not read-only.
pub open spec fn args_require_acceptance(args: Seq<Seq<char>>) -> bool {
    ||| exists|i: int| 0 <= i < args.len() && arg_has_dangerous_pattern(#[trigger] args[i])
    ||| exists|i: int|
        0 <= i < args.len() && (#[trigger] args[i]).contains('|') && args[i] != "|"@
    ||| !pipe_segments_safe(args, true)
}

/// Whether a raw command line needs the user's confirmation. A line that
/// cannot be split into shell words always does.
pub open spec fn command_requires_acceptance(cmd: Seq<char>) -> bool {
    match shell_words(cmd) {
        None => true,
        Some(args) => args_require_acceptance(args),
    }
}

fn is_readonly_command_exec(c: &str) -> (r: bool)
    ensures
        r == is_readonly_command(c@),
{
    text::str_eq(c, "ls") || text::str_eq(c, "cat") || text::str_eq(c, "echo") || text::str_eq(
        c,
        "pwd",
    ) || text::str_eq(c, "which") || text::str_eq(c, "head") || text::str_eq(c, "tail")
        || text::str_eq(c, "find") || text::str_eq(c, "grep")
}

/// The confirmation decision for an already-split command line.
pub fn requires_acceptance_of_args(args: &Vec<String>) -> (r: bool)
    ensures
        r == args_require_acceptance(args.deep_view()),
{
    let ghost dv = args.deep_view();
    let n = args.len();
    let mut i: usize = 0;
    while i < n
        invariant
            dv == args.deep_view(),
            n == args@.len(),
            0 <= i <= n,
            forall|k: int|
                0 <= k < i ==> !arg_has_dangerous_pattern(#[trigger] dv[k]) && !(dv[k].contains('|')
                    && dv[k] != "|"@),
        decreases n - i,
    {
        let a = args[i].as_str();
        proof {
            assert(dv[i as int] == a@);
        }
        if text::contains_str(a, "<(") || text::contains_str(a, "$(") || text::contains_str(a, "`")
            || text::contains_str(a, ">") || text::contains_str(a, "&&") || text::contains_str(
            a,
            "||",
        ) {
            return true;
        }
        if text::contains_char(a, '|') && !text::str_eq(a, "|") {
            return true;
        }
        i = i + 1;
    }
    let mut j: usize = 0;
    let mut at_start = true;
    proof {
        assert(dv.skip(0) =~= dv);
    }
    while j < n
        invariant
            dv == args.deep_view(),
            n == args@.len(),
            0 <= j <= n,
            pipe_segments_safe(dv, true) == pipe_segments_safe(dv.skip(j as int), at_start),
            forall|k: int|
                0 <= k < n ==> !arg_has_dangerous_pattern(#[trigger] dv[k]) && !(dv[k].contains('|')
                    && dv[k] != "|"@),
        decreases n - j,
    {
        let a = args[j].as_str();
        proof {
            assert(dv[j as int] == a@);
            assert(dv.skip(j as int).drop_first() =~= dv.skip(j as int + 1));
            assert(dv.skip(j as int)[0] == dv[j as int]);
        }
        if text::str_eq(a, "|") {
            at_start = true;
        } else if at_start {
            if !is_readonly_command_exec(a) {
                proof {
                    assert(!pipe_segments_safe(dv.skip(j as int), true));
                }
                return true;
            }
            at_start = false;
        }
        j = j + 1;
    }
    proof {
        assert(dv.skip(n as int) =~= Seq::<Seq<char>>::empty());
        assert(pipe_segments_safe(dv.skip(n as int), at_start));
    }
    false
}

/// The tool that runs one shell command on the user's machine.
#[derive(Debug, Clone)]
pub struct ExecuteBash {
    pub command: String,
}

impl ExecuteBash {
    /// Whether this command needs the user's confirmation before it runs.
    pub fn requires_acceptance(&self) -> (r: bool)
        ensures
            r == command_requires_acceptance(self.command@),
    {
        let words = split_shell_words(self.command.as_str());
        match words {
            None => true,
            Some(args) => requires_acceptance_of_args(&args),
        }
    }

    /// Argument check before execution; a shell command has no further
    /// syntactic constraints here.
    pub fn validate(&mut self) -> (r: Result<(), String>)
        ensures
            r is Ok,
            *final(self) == *old(self),
    {
        Ok(())
    }

    /// The human-readable preview printed before the command is confirmed or
    /// run.
    pub fn queue_description(&self) -> (r: String)
        ensures
            r@ == "I will run the following shell command: "@ + (if self.command@.len() > 20 {
                "\n"@
            } else {
                Seq::<char>::empty()
            }) + self.command@,
    {
        let mut out = String::new();
        out.append("I will run the following shell command: ");
        if self.command.as_str().unicode_len() > 20 {
            out.append("\n");
        }
        out.append(self.command.as_str());
        out
    }
}

} // verus!
