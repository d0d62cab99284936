//! The namespaces that isolate the child, and the name that the host has
//! inside them.

use vstd::prelude::*;
use crate::protocol::{position_of, step_at, Step, STEP_COUNT};

verus! {

/// A set of namespace kinds.
#[derive(Clone, Copy, Debug, PartialEq, Eq, Hash)]
pub struct NamespaceSet {
    /// The user namespace: user and group identities.
    pub user: bool,
    /// The hostname namespace.
    pub hostname: bool,
    /// The mount namespace: the mount table.
    pub mounts: bool,
    /// The process-ID namespace.
    pub processes: bool,
}

/// The hostname inside the container.
pub const CONTAINER_HOSTNAME: &'static str = "my-container-host";

/// The namespaces that `step` creates: the user namespace for the first
/// step, the hostname, mount and process-ID namespaces for the step that
/// isolates, none for any other.
pub open spec fn namespaces_of(step: Step) -> NamespaceSet {
    match step {
        Step::UnshareUser => NamespaceSet {
            user: true,
            hostname: false,
            mounts: false,
            processes: false,
        },
        Step::UnshareIsolation => NamespaceSet {
            user: false,
            hostname: true,
            mounts: true,
            processes: true,
        },
        _ => NamespaceSet { user: false, hostname: false, mounts: false, processes: false },
    }
}

/// The namespaces that exist once the first `count` steps of the protocol
/// have succeeded.
pub open spec fn namespaces_after(count: int) -> NamespaceSet
    decreases count,
{
    if count <= 0 {
        NamespaceSet { user: false, hostname: false, mounts: false, processes: false }
    } else {
        namespaces_after(count - 1).union(namespaces_of(step_at(count - 1)))
    }
}

impl NamespaceSet {
    /// The set that holds what either set holds.
    pub open spec fn union(self, other: NamespaceSet) -> NamespaceSet {
        NamespaceSet {
            user: self.user || other.user,
            hostname: self.hostname || other.hostname,
            mounts: self.mounts || other.mounts,
            processes: self.processes || other.processes,
        }
    }
}

/// The namespaces that `step` creates.
pub fn namespaces_for(step: Step) -> (set: NamespaceSet)
    ensures
        set == namespaces_of(step),
{
    match step {
        Step::UnshareUser => NamespaceSet {
            user: true,
            hostname: false,
            mounts: false,
            processes: false,
        },
        Step::UnshareIsolation => NamespaceSet {
            user: false,
            hostname: true,
            mounts: true,
            processes: true,
        },
        _ => NamespaceSet { user: false, hostname: false, mounts: false, processes: false },
    }
}

/// Over the whole protocol each of the four namespaces is created, and by
/// one step only: no two steps create the same namespace.
pub proof fn lemma_each_namespace_created_once(first: Step, second: Step)
    ensures
        namespaces_after(STEP_COUNT as int) == (NamespaceSet {
            user: true,
            hostname: true,
            mounts: true,
            processes: true,
        }),
        namespaces_of(first).user && namespaces_of(second).user ==> first == second,
        namespaces_of(first).hostname && namespaces_of(second).hostname ==> first == second,
        namespaces_of(first).mounts && namespaces_of(second).mounts ==> first == second,
        namespaces_of(first).processes && namespaces_of(second).processes ==> first == second,
{
    reveal_with_fuel(namespaces_after, 11);
}

/// The namespaces that exist when `step` is due: the user namespace from the
/// second step on, the other three from the step after the isolating one on.
pub proof fn lemma_namespaces_when_due(step: Step)
    ensures
        namespaces_after(position_of(step)).user == (position_of(step) > position_of(
            Step::UnshareUser,
        )),
        namespaces_after(position_of(step)).hostname == (position_of(step) > position_of(
            Step::UnshareIsolation,
        )),
        namespaces_after(position_of(step)).mounts == (position_of(step) > position_of(
            Step::UnshareIsolation,
        )),
        namespaces_after(position_of(step)).processes == (position_of(step) > position_of(
            Step::UnshareIsolation,
        )),
{
    reveal_with_fuel(namespaces_after, 11);
}

} // verus!
