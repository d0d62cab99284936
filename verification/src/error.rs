//! Failure taxonomy of a launch, exit codes and diagnostic text.

use vstd::prelude::*;
use vstd::string::*;
use crate::protocol::{failure_of, Step};

verus! {

/// The ways in which a launch can fail.
#[derive(Clone, Copy, Debug, PartialEq, Eq, Hash)]
pub enum Failure {
    /// The command line did not have the form `run <command> [args...]`.
    Usage,
    /// Creating the user namespace or writing one of its control files failed.
    IdentitySetupFailed,
    /// Creating the hostname, mount and process-ID namespaces, or naming the
    /// host inside them, failed.
    NamespaceSetupFailed,
    /// The jail root could not be entered.
    JailRootInvalid,
    /// The process-information filesystem could not be mounted.
    ProcMountFailed,
    /// The target executable could not replace the process image.
    ExecFailed,
    /// No child process could be created.
    ForkFailed,
    /// The child ended without a normal exit.
    ChildWaitAbnormal,
}

/// What went wrong after the launch began, with the system error number
/// where the system reported one.
#[derive(Clone, Copy, Debug, PartialEq, Eq, Hash)]
pub enum Fault {
    /// The system refused a step of the child.
    Setup { step: Step, errno: i32 },
    /// The system refused the fork.
    Fork { errno: i32 },
    /// The child ended without a normal exit.
    Abnormal,
}

/// The exit code of every failed launch.
pub const FAILURE_EXIT_CODE: i32 = 1;

/// The exit code with which the launcher ends after `kind`: always
/// `FAILURE_EXIT_CODE`.
pub open spec fn exit_code_of(kind: Failure) -> int {
    FAILURE_EXIT_CODE as int
}

/// The kind of failure that `fault` is.
pub open spec fn kind_of(fault: Fault) -> Failure {
    match fault {
        Fault::Setup { step, errno } => failure_of(step),
        Fault::Fork { errno } => Failure::ForkFailed,
        Fault::Abnormal => Failure::ChildWaitAbnormal,
    }
}

/// The system error number that `fault` carries, if any.
pub open spec fn errno_of(fault: Fault) -> Option<i32> {
    match fault {
        Fault::Setup { step, errno } => Some(errno),
        Fault::Fork { errno } => Some(errno),
        Fault::Abnormal => None,
    }
}

/// The text that names what failed.
pub open spec fn headline_of(fault: Fault) -> Seq<char> {
    match fault {
        Fault::Setup { step, errno } => match step {
            Step::UnshareUser => "Failed to unshare User namespace"@,
            Step::WriteUidMap => "Failed to write to uid_map"@,
            Step::DenySetgroups => "Failed to write to setgroups"@,
            Step::WriteGidMap => "Failed to write to gid_map"@,
            Step::UnshareIsolation => "Failed to unshare namespaces"@,
            Step::SetHostname => "Failed to set hostname"@,
            Step::ChangeRoot => "Failed to set root filesystem"@,
            Step::EnterRoot => "Failed to change to root dir in container"@,
            Step::MountProc => "Failed to mount /proc filesystem"@,
            Step::Exec => "Failed to execute command"@,
        },
        Fault::Fork { errno } => "Failed to fork"@,
        Fault::Abnormal => "Child terminated abnormally"@,
    }
}

/// The diagnostic line of `fault`, given the text of its system error: the
/// headline, a colon, a space and that text; the headline alone for a fault
/// without a system error.
pub open spec fn diagnostic_of(fault: Fault, system_error: Seq<char>) -> Seq<char> {
    if errno_of(fault) is Some {
        headline_of(fault) + ": "@ + system_error
    } else {
        headline_of(fault)
    }
}

/// The text with which nix renders the system error number `raw` on the
/// platform the crate is built for.
pub uninterp spec fn errno_text(raw: i32) -> Seq<char>;

impl Failure {
    /// The launcher's exit code after this failure.
    pub fn exit_code(&self) -> (code: i32)
        ensures
            code == exit_code_of(*self),
            code == 1,
    {
        FAILURE_EXIT_CODE
    }
}

impl Fault {
    /// The kind of failure that the fault is.
    pub fn kind(&self) -> (kind: Failure)
        ensures
            kind == kind_of(*self),
    {
        match self {
            Fault::Setup { step, errno: _ } => step.failure(),
            Fault::Fork { errno: _ } => Failure::ForkFailed,
            Fault::Abnormal => Failure::ChildWaitAbnormal,
        }
    }

    /// The system error number that the fault carries, if any.
    pub fn errno(&self) -> (errno: Option<i32>)
        ensures
            errno == errno_of(*self),
    {
        match self {
            Fault::Setup { step: _, errno } => Some(*errno),
            Fault::Fork { errno } => Some(*errno),
            Fault::Abnormal => None,
        }
    }

    /// The exit code with which the failing process ends.
    pub fn exit_code(&self) -> (code: i32)
        ensures
            code == exit_code_of(kind_of(*self)),
            code == 1,
    {
        self.kind().exit_code()
    }

    /// The text that names what failed.
    pub fn headline(&self) -> (text: &'static str)
        ensures
            text@ == headline_of(*self),
    {
        match self {
            Fault::Setup { step, errno: _ } => match step {
                Step::UnshareUser => "Failed to unshare User namespace",
                Step::WriteUidMap => "Failed to write to uid_map",
                Step::DenySetgroups => "Failed to write to setgroups",
                Step::WriteGidMap => "Failed to write to gid_map",
                Step::UnshareIsolation => "Failed to unshare namespaces",
                Step::SetHostname => "Failed to set hostname",
                Step::ChangeRoot => "Failed to set root filesystem",
                Step::EnterRoot => "Failed to change to root dir in container",
                Step::MountProc => "Failed to mount /proc filesystem",
                Step::Exec => "Failed to execute command",
            },
            Fault::Fork { errno: _ } => "Failed to fork",
            Fault::Abnormal => "Child terminated abnormally",
        }
    }
}

/// Renders `raw` through nix: `nix::errno::Errno::from_raw` picks the error
/// that the number stands for on the platform the crate is built for (the
/// unknown error for a number without one), and its `Display` impl writes the
/// error's name, a colon, a space and its fixed description. Both come from
/// tables in nix, so the text depends on the number alone; the contract
/// gives it the name `errno_text(raw)` and claims nothing of its content.
#[verifier::external_body]
fn system_error_text(raw: i32) -> (text: String)
    ensures
        text@ == errno_text(raw),
{
    format!("{}", nix::errno::Errno::from_raw(raw))
}

/// Joins the headline of `fault` and the text of its system error into one
/// diagnostic line. For a fault without a system error the line is the
/// headline, whatever the text.
pub fn compose_diagnostic(fault: Fault, system_error: &str) -> (line: String)
    ensures
        line@ == diagnostic_of(fault, system_error@),
{
    let mut line = String::from_str(fault.headline());
    if fault.errno().is_some() {
        line.append(": ");
        line.append(system_error);
    }
    line
}

/// The diagnostic line of `fault`: what failed, followed by the system
/// error as nix renders it where the fault carries an error number.
pub fn diagnostic(fault: Fault) -> (line: String)
    ensures
        line@ == diagnostic_of(
            fault,
            match errno_of(fault) {
                Some(raw) => errno_text(raw),
                None => Seq::<char>::empty(),
            },
        ),
{
    match fault.errno() {
        Some(raw) => {
            let text = system_error_text(raw);
            compose_diagnostic(fault, text.as_str())
        },
        None => compose_diagnostic(fault, ""),
    }
}

} // verus!
