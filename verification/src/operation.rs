//! What each step of the protocol asks of the kernel, with every value that
//! the request to the kernel needs.

use vstd::prelude::*;
use vstd::string::*;
use crate::protocol::Step;
use crate::identity::{
    deny_text, invoker_map, rule_text, setgroups_text, IdentityMap, GID_MAP_FILE, SETGROUPS_FILE,
    UID_MAP_FILE,
};
use crate::isolation::{namespaces_for, namespaces_of, NamespaceSet, CONTAINER_HOSTNAME};
use crate::jail::{
    proc_flags, proc_mount_flags, MountFlags, JAIL_ROOT, PROC_FILESYSTEM, PROC_MOUNT_POINT,
    ROOT_DIRECTORY,
};
use crate::request::InvocationRequest;

verus! {

/// One request to the kernel.
#[derive(Clone, Debug, PartialEq, Eq)]
pub enum Operation {
    /// Move the calling process into new namespaces of these kinds.
    Unshare { namespaces: NamespaceSet },
    /// Write `content` to the control file at `path`, once.
    WriteControl { path: &'static str, content: Vec<u8> },
    /// Set the hostname.
    SetHostname { name: &'static str },
    /// Make the directory at `path` the filesystem root.
    ChangeRoot { path: &'static str },
    /// Make the directory at `path` the working directory.
    ChangeDirectory { path: &'static str },
    /// Mount the filesystem `filesystem` from `source` at `target`.
    Mount { source: &'static str, target: &'static str, filesystem: &'static str, flags: MountFlags },
    /// Replace the process image with `program`, run with `args`.
    Exec { program: String, args: Vec<String> },
}

/// Whether `operation` is what `step` asks of the kernel for `request`.
pub open spec fn performs(operation: Operation, step: Step, request: InvocationRequest) -> bool {
    match step {
        Step::UnshareUser | Step::UnshareIsolation => {
            &&& operation matches Operation::Unshare { namespaces }
            &&& namespaces == namespaces_of(step)
        },
        Step::WriteUidMap => {
            &&& operation matches Operation::WriteControl { path, content }
            &&& path@ == UID_MAP_FILE@
            &&& content@ == rule_text(invoker_map(request.uid, request.gid).users)
        },
        Step::DenySetgroups => {
            &&& operation matches Operation::WriteControl { path, content }
            &&& path@ == SETGROUPS_FILE@
            &&& content@ == deny_text()
        },
        Step::WriteGidMap => {
            &&& operation matches Operation::WriteControl { path, content }
            &&& path@ == GID_MAP_FILE@
            &&& content@ == rule_text(invoker_map(request.uid, request.gid).groups)
        },
        Step::SetHostname => {
            &&& operation matches Operation::SetHostname { name }
            &&& name@ == CONTAINER_HOSTNAME@
        },
        Step::ChangeRoot => {
            &&& operation matches Operation::ChangeRoot { path }
            &&& path@ == JAIL_ROOT@
        },
        Step::EnterRoot => {
            &&& operation matches Operation::ChangeDirectory { path }
            &&& path@ == ROOT_DIRECTORY@
        },
        Step::MountProc => {
            &&& operation matches Operation::Mount { source, target, filesystem, flags }
            &&& source@ == PROC_FILESYSTEM@
            &&& target@ == PROC_MOUNT_POINT@
            &&& filesystem@ == PROC_FILESYSTEM@
            &&& flags == proc_flags()
        },
        Step::Exec => {
            &&& operation matches Operation::Exec { program, args }
            &&& program@ == request.program@
            &&& args@.len() == request.args@.len()
            &&& forall|i: int| 0 <= i < args@.len() ==> (#[trigger] args@[i])@ == request.args@[i]@
        },
    }
}

/// The request to the kernel that `step` stands for in the launch that
/// `request` asks for.
pub fn operation_for(step: Step, request: &InvocationRequest) -> (operation: Operation)
    ensures
        performs(operation, step, *request),
{
    match step {
        Step::UnshareUser | Step::UnshareIsolation => Operation::Unshare {
            namespaces: namespaces_for(step),
        },
        Step::WriteUidMap => {
            let map = IdentityMap::for_invoker(request.uid, request.gid);
            Operation::WriteControl { path: UID_MAP_FILE, content: map.uid_map_text() }
        },
        Step::DenySetgroups => Operation::WriteControl {
            path: SETGROUPS_FILE,
            content: setgroups_text(),
        },
        Step::WriteGidMap => {
            let map = IdentityMap::for_invoker(request.uid, request.gid);
            Operation::WriteControl { path: GID_MAP_FILE, content: map.gid_map_text() }
        },
        Step::SetHostname => Operation::SetHostname { name: CONTAINER_HOSTNAME },
        Step::ChangeRoot => Operation::ChangeRoot { path: JAIL_ROOT },
        Step::EnterRoot => Operation::ChangeDirectory { path: ROOT_DIRECTORY },
        Step::MountProc => Operation::Mount {
            source: PROC_FILESYSTEM,
            target: PROC_MOUNT_POINT,
            filesystem: PROC_FILESYSTEM,
            flags: proc_mount_flags(),
        },
        Step::Exec => {
            let program = request.program.clone();
            let mut args: Vec<String> = Vec::new();
            let mut i: usize = 0;
            while i < request.args.len()
                invariant
                    i <= request.args.len(),
                    args@.len() == i,
                    forall|k: int|
                        0 <= k < args@.len() ==> (#[trigger] args@[k])@ == request.args@[k]@,
                decreases request.args.len() - i,
            {
                args.push(request.args[i].clone());
                i += 1;
            }
            Operation::Exec { program, args }
        },
    }
}

} // verus!
