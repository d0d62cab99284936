//! The steps of the child, their one order, and what each belongs to.

use vstd::prelude::*;
use crate::error::Failure;

verus! {

/// One kernel-facing step of the child, in the order of `protocol()`.
#[derive(Clone, Copy, Debug, PartialEq, Eq, Hash)]
pub enum Step {
    /// Create the user namespace.
    UnshareUser,
    /// Write the user map.
    WriteUidMap,
    /// Give up supplementary groups.
    DenySetgroups,
    /// Write the group map.
    WriteGidMap,
    /// Create the hostname, mount and process-ID namespaces.
    UnshareIsolation,
    /// Name the host inside the private hostname namespace.
    SetHostname,
    /// Make the jail root the filesystem root.
    ChangeRoot,
    /// Make the new root the working directory.
    EnterRoot,
    /// Mount the process-information filesystem.
    MountProc,
    /// Replace the process image with the target executable.
    Exec,
}

/// The stages of the child.
#[derive(Clone, Copy, Debug, PartialEq, Eq, Hash)]
pub enum Stage {
    /// The user namespace and its identity map are being set up.
    IdentitySetup,
    /// The hostname, mount and process-ID namespaces are being set up.
    NamespaceSetup,
    /// The filesystem view is being moved into the jail.
    FilesystemJail,
    /// The process image is being replaced, or has been.
    Exec,
    /// A step has failed: the child reports it and exits.
    AbortWithDiagnostic,
}

/// The number of steps in the protocol.
pub const STEP_COUNT: usize = 10;

/// The step at position `i` of the protocol.
pub open spec fn step_at(i: int) -> Step {
    if i <= 0 {
        Step::UnshareUser
    } else if i == 1 {
        Step::WriteUidMap
    } else if i == 2 {
        Step::DenySetgroups
    } else if i == 3 {
        Step::WriteGidMap
    } else if i == 4 {
        Step::UnshareIsolation
    } else if i == 5 {
        Step::SetHostname
    } else if i == 6 {
        Step::ChangeRoot
    } else if i == 7 {
        Step::EnterRoot
    } else if i == 8 {
        Step::MountProc
    } else {
        Step::Exec
    }
}

/// The steps of a launch in the one order in which they may be performed.
pub open spec fn protocol() -> Seq<Step> {
    Seq::new(STEP_COUNT as nat, |i: int| step_at(i))
}

/// The position of `step` in the protocol.
pub open spec fn position_of(step: Step) -> int {
    match step {
        Step::UnshareUser => 0,
        Step::WriteUidMap => 1,
        Step::DenySetgroups => 2,
        Step::WriteGidMap => 3,
        Step::UnshareIsolation => 4,
        Step::SetHostname => 5,
        Step::ChangeRoot => 6,
        Step::EnterRoot => 7,
        Step::MountProc => 8,
        Step::Exec => 9,
    }
}

/// The stage that `step` belongs to.
pub open spec fn stage_of(step: Step) -> Stage {
    match step {
        Step::UnshareUser | Step::WriteUidMap | Step::DenySetgroups | Step::WriteGidMap =>
            Stage::IdentitySetup,
        Step::UnshareIsolation | Step::SetHostname => Stage::NamespaceSetup,
        Step::ChangeRoot | Step::EnterRoot | Step::MountProc => Stage::FilesystemJail,
        Step::Exec => Stage::Exec,
    }
}

/// The failure that a refusal of `step` amounts to.
pub open spec fn failure_of(step: Step) -> Failure {
    match step {
        Step::UnshareUser | Step::WriteUidMap | Step::DenySetgroups | Step::WriteGidMap =>
            Failure::IdentitySetupFailed,
        Step::UnshareIsolation | Step::SetHostname => Failure::NamespaceSetupFailed,
        Step::ChangeRoot | Step::EnterRoot => Failure::JailRootInvalid,
        Step::MountProc => Failure::ProcMountFailed,
        Step::Exec => Failure::ExecFailed,
    }
}

impl Step {
    /// The position of the step in the protocol.
    pub fn position(&self) -> (i: usize)
        ensures
            i == position_of(*self),
            i < STEP_COUNT,
            protocol()[i as int] == *self,
    {
        match self {
            Step::UnshareUser => 0,
            Step::WriteUidMap => 1,
            Step::DenySetgroups => 2,
            Step::WriteGidMap => 3,
            Step::UnshareIsolation => 4,
            Step::SetHostname => 5,
            Step::ChangeRoot => 6,
            Step::EnterRoot => 7,
            Step::MountProc => 8,
            Step::Exec => 9,
        }
    }

    /// The step that follows this one, if it is not the last.
    pub fn successor(&self) -> (next: Option<Step>)
        ensures
            next == (if *self == Step::Exec {
                None
            } else {
                Some(step_at(position_of(*self) + 1))
            }),
    {
        match self {
            Step::UnshareUser => Some(Step::WriteUidMap),
            Step::WriteUidMap => Some(Step::DenySetgroups),
            Step::DenySetgroups => Some(Step::WriteGidMap),
            Step::WriteGidMap => Some(Step::UnshareIsolation),
            Step::UnshareIsolation => Some(Step::SetHostname),
            Step::SetHostname => Some(Step::ChangeRoot),
            Step::ChangeRoot => Some(Step::EnterRoot),
            Step::EnterRoot => Some(Step::MountProc),
            Step::MountProc => Some(Step::Exec),
            Step::Exec => None,
        }
    }

    /// The stage that the step belongs to.
    pub fn stage(&self) -> (stage: Stage)
        ensures
            stage == stage_of(*self),
    {
        match self {
            Step::UnshareUser | Step::WriteUidMap | Step::DenySetgroups | Step::WriteGidMap => {
                Stage::IdentitySetup
            },
            Step::UnshareIsolation | Step::SetHostname => Stage::NamespaceSetup,
            Step::ChangeRoot | Step::EnterRoot | Step::MountProc => Stage::FilesystemJail,
            Step::Exec => Stage::Exec,
        }
    }

    /// The failure that a refusal of the step amounts to.
    pub fn failure(&self) -> (kind: Failure)
        ensures
            kind == failure_of(*self),
    {
        match self {
            Step::UnshareUser | Step::WriteUidMap | Step::DenySetgroups | Step::WriteGidMap => {
                Failure::IdentitySetupFailed
            },
            Step::UnshareIsolation | Step::SetHostname => Failure::NamespaceSetupFailed,
            Step::ChangeRoot | Step::EnterRoot => Failure::JailRootInvalid,
            Step::MountProc => Failure::ProcMountFailed,
            Step::Exec => Failure::ExecFailed,
        }
    }
}

} // verus!
