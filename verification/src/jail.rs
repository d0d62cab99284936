//! The filesystem jail: the directory that becomes the root, and the
//! process-information filesystem mounted inside it.

use vstd::prelude::*;

verus! {

/// The directory on the host that becomes `/` inside the container.
pub const JAIL_ROOT: &'static str = "alpine_fs";

/// The root directory, which becomes the working directory.
pub const ROOT_DIRECTORY: &'static str = "/";

/// The source and the filesystem type of the process-information
/// filesystem.
pub const PROC_FILESYSTEM: &'static str = "proc";

/// Where the process-information filesystem is mounted.
pub const PROC_MOUNT_POINT: &'static str = "/proc";

/// Restrictions on a mount.
#[derive(Clone, Copy, Debug, PartialEq, Eq, Hash)]
pub struct MountFlags {
    /// Set-user-ID and set-group-ID bits of files on it are ignored.
    pub nosuid: bool,
    /// Device files on it are not interpreted.
    pub nodev: bool,
    /// Files on it cannot be executed.
    pub noexec: bool,
}

/// The restrictions of the process-information filesystem: all three.
pub open spec fn proc_flags() -> MountFlags {
    MountFlags { nosuid: true, nodev: true, noexec: true }
}

/// The restrictions under which the process-information filesystem is
/// mounted.
pub fn proc_mount_flags() -> (flags: MountFlags)
    ensures
        flags == proc_flags(),
{
    MountFlags { nosuid: true, nodev: true, noexec: true }
}

} // verus!
