//! The invocation request: what the command line and the credentials of the
//! invoking user ask the launcher to run.

use vstd::prelude::*;
use vstd::string::*;
use crate::error::Failure;

verus! {

/// The target executable, its arguments, and the identity of the invoking
/// user. Captured once at program start and not changed afterwards.
#[derive(Clone, Debug, PartialEq, Eq)]
pub struct InvocationRequest {
    pub program: String,
    pub args: Vec<String>,
    pub uid: u32,
    pub gid: u32,
}

/// The one subcommand.
pub open spec fn subcommand() -> Seq<char> {
    "run"@
}

/// The number of leading words of a command line that are not arguments of
/// the target: the launcher's own name, the subcommand and the target.
pub const LEADING_WORDS: usize = 3;

/// Whether a command line, the launcher's own name first, has the form
/// `<name> run <command> [args...]`.
pub open spec fn is_launch_line(line: Seq<String>) -> bool {
    line.len() >= LEADING_WORDS && line[1]@ == subcommand()
}

/// Whether `request` is what the command line `line` and the identity
/// `uid`, `gid` ask for: the word after the subcommand is the target, and
/// the words after it are the target's arguments, in order.
pub open spec fn captures(request: InvocationRequest, line: Seq<String>, uid: u32, gid: u32)
    -> bool {
    &&& request.program@ == line[2]@
    &&& request.args@.len() == line.len() - LEADING_WORDS
    &&& forall|i: int|
        0 <= i < request.args@.len() ==> (#[trigger] request.args@[i])@ == line[i + LEADING_WORDS]@
    &&& request.uid == uid
    &&& request.gid == gid
}

/// The usage message for a launcher called `name`.
pub open spec fn usage_of(name: Seq<char>) -> Seq<char> {
    "Usage: "@ + name + " run <command> [args...]"@
}

impl InvocationRequest {
    /// Reads the request from the command line (the launcher's own name
    /// first) and the identity of the invoking user. A line with fewer than
    /// two words after the launcher's name, or with another subcommand than
    /// `run`, is a usage error.
    pub fn capture(line: &Vec<String>, uid: u32, gid: u32) -> (result: Result<
        InvocationRequest,
        Failure,
    >)
        ensures
            result is Ok <==> is_launch_line(line@),
            line@.len() < LEADING_WORDS ==> result == Err::<InvocationRequest, Failure>(
                Failure::Usage,
            ),
            match result {
                Ok(request) => captures(request, line@, uid, gid),
                Err(kind) => kind == Failure::Usage,
            },
    {
        if line.len() < LEADING_WORDS {
            return Err(Failure::Usage);
        }
        let run = String::from_str("run");
        if !line[1].eq(&run) {
            return Err(Failure::Usage);
        }
        let program = line[2].clone();
        let mut args: Vec<String> = Vec::new();
        let mut i: usize = LEADING_WORDS;
        while i < line.len()
            invariant
                LEADING_WORDS <= i <= line.len(),
                args@.len() == i - LEADING_WORDS,
                forall|k: int|
                    0 <= k < args@.len() ==> (#[trigger] args@[k])@ == line@[k + LEADING_WORDS]@,
            decreases line.len() - i,
        {
            args.push(line[i].clone());
            i += 1;
        }
        Ok(InvocationRequest { program, args, uid, gid })
    }
}

/// What the launcher does with a command line.
#[derive(Clone, Debug, PartialEq, Eq)]
pub enum Verdict {
    /// The line asks for a launch.
    Proceed { request: InvocationRequest },
    /// The line is refused: the message goes to the error stream and the
    /// launcher exits with `code`. No step of a launch is taken.
    Refuse { message: String, code: i32 },
}

/// The name under which the launcher was called: the first word of the
/// command line, or nothing where the line is empty.
pub open spec fn name_in(line: Seq<String>) -> Seq<char> {
    if line.len() > 0 {
        line[0]@
    } else {
        Seq::<char>::empty()
    }
}

/// Decides what to do with a command line: a launch line proceeds with the
/// request that it holds, and every other line is refused with the usage
/// message and exit code 1.
pub fn examine(line: &Vec<String>, uid: u32, gid: u32) -> (verdict: Verdict)
    ensures
        verdict is Proceed <==> is_launch_line(line@),
        line@.len() < LEADING_WORDS ==> verdict is Refuse,
        match verdict {
            Verdict::Proceed { request } => captures(request, line@, uid, gid),
            Verdict::Refuse { message, code } => {
                &&& message@ == usage_of(name_in(line@))
                &&& code == 1
            },
        },
{
    match InvocationRequest::capture(line, uid, gid) {
        Ok(request) => Verdict::Proceed { request },
        Err(kind) => {
            let message = if line.len() > 0 {
                usage_message(line[0].as_str())
            } else {
                usage_message("")
            };
            proof {
                reveal_strlit("");
                assert(""@ =~= Seq::<char>::empty());
            }
            Verdict::Refuse { message, code: kind.exit_code() }
        },
    }
}

/// The usage message for a launcher called `name`.
pub fn usage_message(name: &str) -> (message: String)
    ensures
        message@ == usage_of(name@),
{
    let mut message = String::from_str("Usage: ");
    message.append(name);
    message.append(" run <command> [args...]");
    message
}

} // verus!
