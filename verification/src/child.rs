//! The child's side of a launch: a strict pipeline of kernel configuration
//! steps that ends in the replacement of the process image.
//!
//! `Child` says which step is due; the program around it performs the step
//! and reports how it went. No step is due before the one ahead of it has
//! succeeded, and after a failure no step is due at all.

use vstd::prelude::*;
use crate::error::{exit_code_of, kind_of, Failure, Fault};
use crate::isolation::{lemma_namespaces_when_due, namespaces_after};
use crate::protocol::{position_of, protocol, stage_of, step_at, Stage, Step, STEP_COUNT};

verus! {

/// How a step went: it succeeded, or the system refused it with an error
/// number.
#[derive(Clone, Copy, Debug, PartialEq, Eq, Hash)]
pub enum Outcome {
    /// The step took effect.
    Succeeded,
    /// The system refused the step with this error number.
    Failed(i32),
}

/// Where the child stands.
#[derive(Clone, Copy, Debug, PartialEq, Eq, Hash)]
pub enum Phase {
    /// The step is due: it is performed next, and its outcome is awaited.
    Pending(Step),
    /// A step failed. Nothing but the report and the exit is left.
    Aborted(Fault),
    /// The target executable has taken the process over.
    Replaced,
}

/// What the program around the child has to do next.
#[derive(Clone, Copy, Debug, PartialEq, Eq, Hash)]
pub enum ChildAction {
    /// Perform the step and report its outcome.
    Perform(Step),
    /// Write the fault's diagnostic and exit with its exit code.
    Abort(Fault),
    /// Nothing: the process image has been replaced.
    Rest,
}

/// The stage of a phase.
pub open spec fn stage_in(phase: Phase) -> Stage {
    match phase {
        Phase::Pending(step) => stage_of(step),
        Phase::Aborted(_) => Stage::AbortWithDiagnostic,
        Phase::Replaced => Stage::Exec,
    }
}

/// The phase in which every child starts.
pub open spec fn first_phase() -> Phase {
    Phase::Pending(Step::UnshareUser)
}

/// The phase that follows `phase` once `outcome` is reported. A success
/// makes the next step of the protocol due, and after the last step the
/// process is replaced. A failure aborts. `Aborted` and `Replaced` are final:
/// a report that reaches them changes nothing.
pub open spec fn next_phase(phase: Phase, outcome: Outcome) -> Phase {
    match phase {
        Phase::Pending(step) => match outcome {
            Outcome::Succeeded => if step == Step::Exec {
                Phase::Replaced
            } else {
                Phase::Pending(step_at(position_of(step) + 1))
            },
            Outcome::Failed(errno) => Phase::Aborted(Fault::Setup { step, errno }),
        },
        Phase::Aborted(fault) => Phase::Aborted(fault),
        Phase::Replaced => Phase::Replaced,
    }
}

/// What is to be done in `phase`.
pub open spec fn action_in(phase: Phase) -> ChildAction {
    match phase {
        Phase::Pending(step) => ChildAction::Perform(step),
        Phase::Aborted(fault) => ChildAction::Abort(fault),
        Phase::Replaced => ChildAction::Rest,
    }
}

/// The phase of a child to which `reports` were made, in that order.
pub open spec fn phase_after(reports: Seq<Outcome>) -> Phase
    decreases reports.len(),
{
    if reports.len() == 0 {
        first_phase()
    } else {
        next_phase(phase_after(reports.drop_last()), reports.last())
    }
}

/// The steps that were performed to make `reports`: each report answers the
/// step that was due when it was made, and a report that reached a final
/// phase answers none.
pub open spec fn performed(reports: Seq<Outcome>) -> Seq<Step>
    decreases reports.len(),
{
    if reports.len() == 0 {
        Seq::<Step>::empty()
    } else {
        match phase_after(reports.drop_last()) {
            Phase::Pending(step) => performed(reports.drop_last()).push(step),
            _ => performed(reports.drop_last()),
        }
    }
}

/// The child of one launch. A value of this type is made by `start` and
/// moved on by `advance` alone, so it has reached its phase through the
/// reports that it remembers.
pub struct Child {
    phase: Phase,
    reports: Ghost<Seq<Outcome>>,
}

impl Child {
    #[verifier::type_invariant]
    spec fn consistent(self) -> bool {
        self.phase == phase_after(self.reports@)
    }

    /// Where the child stands.
    pub closed spec fn phase(self) -> Phase {
        self.phase
    }

    /// The reports made to the child so far.
    pub closed spec fn reports(self) -> Seq<Outcome> {
        self.reports@
    }

    /// A child to which nothing has been reported: the first step is due.
    pub fn start() -> (child: Child)
        ensures
            child.phase() == first_phase(),
            child.reports() == Seq::<Outcome>::empty(),
    {
        Child { phase: Phase::Pending(Step::UnshareUser), reports: Ghost(Seq::empty()) }
    }

    /// Where the child stands: where its reports have brought it.
    pub fn current(&self) -> (phase: Phase)
        ensures
            phase == self.phase(),
            phase == phase_after(self.reports()),
    {
        proof {
            use_type_invariant(self);
        }
        self.phase
    }

    /// The stage of the child.
    pub fn stage(&self) -> (stage: Stage)
        ensures
            stage == stage_in(self.phase()),
    {
        match self.phase {
            Phase::Pending(step) => step.stage(),
            Phase::Aborted(_) => Stage::AbortWithDiagnostic,
            Phase::Replaced => Stage::Exec,
        }
    }

    /// What is to be done next.
    pub fn action(&self) -> (action: ChildAction)
        ensures
            action == action_in(self.phase()),
            action == action_in(phase_after(self.reports())),
    {
        proof {
            use_type_invariant(self);
        }
        match self.phase {
            Phase::Pending(step) => ChildAction::Perform(step),
            Phase::Aborted(fault) => ChildAction::Abort(fault),
            Phase::Replaced => ChildAction::Rest,
        }
    }

    /// Takes the report on the step that was due and moves to the phase that
    /// follows.
    pub fn advance(self, outcome: Outcome) -> (child: Child)
        ensures
            child.phase() == next_phase(self.phase(), outcome),
            child.reports() == self.reports().push(outcome),
    {
        proof {
            use_type_invariant(&self);
            assert(self.reports@.push(outcome).drop_last() =~= self.reports@);
        }
        let phase = match self.phase {
            Phase::Pending(step) => match outcome {
                Outcome::Succeeded => match step.successor() {
                    Some(next) => Phase::Pending(next),
                    None => Phase::Replaced,
                },
                Outcome::Failed(errno) => Phase::Aborted(Fault::Setup { step, errno }),
            },
            Phase::Aborted(fault) => Phase::Aborted(fault),
            Phase::Replaced => Phase::Replaced,
        };
        Child { phase, reports: Ghost(self.reports@.push(outcome)) }
    }
}

/// Whatever is reported, the steps performed are the first steps of the
/// protocol, in its order, and every one of them but the last has succeeded.
/// While a step is due, exactly the steps ahead of it have been performed,
/// each with success. An aborted child has failed at the last step
/// performed, with the error number that its fault carries. A replaced child
/// has performed every step.
pub proof fn lemma_steps_follow_protocol(reports: Seq<Outcome>)
    ensures
        performed(reports).len() <= STEP_COUNT,
        performed(reports).len() <= reports.len(),
        performed(reports) == protocol().take(performed(reports).len() as int),
        forall|i: int| 0 <= i < performed(reports).len() - 1 ==> reports[i] == Outcome::Succeeded,
        match phase_after(reports) {
            Phase::Pending(step) => {
                &&& performed(reports).len() == position_of(step)
                &&& reports.len() == position_of(step)
                &&& forall|i: int| 0 <= i < reports.len() ==> reports[i] == Outcome::Succeeded
            },
            Phase::Aborted(fault) => {
                &&& performed(reports).len() >= 1
                &&& fault matches Fault::Setup { step, errno }
                &&& step == performed(reports).last()
                &&& reports[performed(reports).len() - 1] == Outcome::Failed(errno)
            },
            Phase::Replaced => performed(reports).len() == STEP_COUNT,
        },
    decreases reports.len(),
{
    if reports.len() == 0 {
        assert(performed(reports) =~= protocol().take(0));
    } else {
        let earlier = reports.drop_last();
        lemma_steps_follow_protocol(earlier);
        match phase_after(earlier) {
            Phase::Pending(step) => {
                let n = position_of(step);
                assert(step_at(n) == step);
                assert(performed(reports) =~= protocol().take(n + 1));
                assert forall|i: int| 0 <= i < earlier.len() implies reports[i]
                    == Outcome::Succeeded by {
                    assert(reports[i] == earlier[i]);
                }
            },
            _ => {
                assert forall|i: int| 0 <= i < performed(reports).len() implies reports[i]
                    == earlier[i] by {}
            },
        }
    }
}

/// While every report is a success, the step due is the one at the position
/// that the number of reports gives; after the last step the process is
/// replaced, and every step of the protocol has been performed.
pub proof fn lemma_successes_walk_the_protocol(reports: Seq<Outcome>)
    requires
        reports.len() <= STEP_COUNT,
        forall|i: int| 0 <= i < reports.len() ==> reports[i] == Outcome::Succeeded,
    ensures
        reports.len() < STEP_COUNT ==> phase_after(reports) == Phase::Pending(
            step_at(reports.len() as int),
        ),
        reports.len() == STEP_COUNT ==> phase_after(reports) == Phase::Replaced,
        performed(reports) == protocol().take(reports.len() as int),
    decreases reports.len(),
{
    if reports.len() == 0 {
        assert(performed(reports) =~= protocol().take(0));
    } else {
        let earlier = reports.drop_last();
        lemma_successes_walk_the_protocol(earlier);
        assert(reports.last() == Outcome::Succeeded);
        assert(performed(reports) =~= protocol().take(reports.len() as int));
    }
}

/// Once a child is aborted or replaced, further reports change neither its
/// phase nor the steps performed.
pub proof fn lemma_final_phase_stays(reports: Seq<Outcome>, k: int)
    requires
        0 <= k <= reports.len(),
        !(phase_after(reports.take(k)) is Pending),
    ensures
        phase_after(reports) == phase_after(reports.take(k)),
        performed(reports) == performed(reports.take(k)),
    decreases reports.len() - k,
{
    if k == reports.len() {
        assert(reports.take(k) =~= reports);
    } else {
        let earlier = reports.drop_last();
        assert(earlier.take(k) =~= reports.take(k));
        lemma_final_phase_stays(earlier, k);
    }
}

/// The first failure ends the launch: the child is aborted with the failure
/// of the step that was refused and with the error number reported, and the
/// steps performed are those up to the refused one, whatever is reported
/// afterwards.
pub proof fn lemma_first_failure_aborts(reports: Seq<Outcome>, k: int, errno: i32)
    requires
        0 <= k < reports.len(),
        k < STEP_COUNT,
        forall|i: int| 0 <= i < k ==> reports[i] == Outcome::Succeeded,
        reports[k] == Outcome::Failed(errno),
    ensures
        phase_after(reports) == Phase::Aborted(Fault::Setup { step: step_at(k), errno }),
        performed(reports) == protocol().take(k + 1),
{
    let upto = reports.take(k + 1);
    let ahead = reports.take(k);
    assert(upto.drop_last() =~= ahead);
    assert(upto.last() == reports[k]);
    lemma_successes_walk_the_protocol(ahead);
    assert(position_of(step_at(k)) == k);
    assert(performed(upto) =~= protocol().take(k + 1));
    lemma_final_phase_stays(reports, k + 1);
}

/// No step is performed twice: in particular each control file is written
/// at most once and the process-information filesystem is mounted at most
/// once, whatever is reported.
pub proof fn lemma_each_step_at_most_once(reports: Seq<Outcome>, i: int, j: int)
    requires
        0 <= i < performed(reports).len(),
        0 <= j < performed(reports).len(),
        performed(reports)[i] == performed(reports)[j],
    ensures
        i == j,
{
    lemma_steps_follow_protocol(reports);
    assert(performed(reports)[i] == step_at(i));
    assert(performed(reports)[j] == step_at(j));
}

/// A step is performed only when every step ahead of it in the protocol has
/// been performed and has succeeded.
pub proof fn lemma_step_waits_for_those_ahead(reports: Seq<Outcome>, step: Step)
    requires
        performed(reports).contains(step),
    ensures
        performed(reports).len() > position_of(step),
        forall|i: int|
            0 <= i < position_of(step) ==> #[trigger] performed(reports)[i] == step_at(i)
                && reports[i] == Outcome::Succeeded,
{
    lemma_steps_follow_protocol(reports);
    let at = choose|i: int| 0 <= i < performed(reports).len() && performed(reports)[i] == step;
    assert(performed(reports)[at] == step_at(at));
    assert(at == position_of(step));
    assert forall|i: int| 0 <= i < position_of(step) implies #[trigger] performed(reports)[i]
        == step_at(i) && reports[i] == Outcome::Succeeded by {
        assert(performed(reports)[i] == protocol()[i]);
    }
}

/// If the jail root cannot be made the root, the child is aborted with
/// `JailRootInvalid`, which ends the launch with exit code 1, and the
/// process-information filesystem is never mounted.
pub proof fn lemma_invalid_jail_root_mounts_nothing(reports: Seq<Outcome>, errno: i32)
    requires
        reports.len() > position_of(Step::ChangeRoot),
        forall|i: int| 0 <= i < position_of(Step::ChangeRoot) ==> reports[i] == Outcome::Succeeded,
        reports[position_of(Step::ChangeRoot)] == Outcome::Failed(errno),
    ensures
        phase_after(reports) == Phase::Aborted(Fault::Setup { step: Step::ChangeRoot, errno }),
        kind_of(Fault::Setup { step: Step::ChangeRoot, errno }) == Failure::JailRootInvalid,
        exit_code_of(Failure::JailRootInvalid) == 1,
        !performed(reports).contains(Step::MountProc),
        !performed(reports).contains(Step::Exec),
{
    lemma_first_failure_aborts(reports, position_of(Step::ChangeRoot), errno);
    assert forall|i: int| 0 <= i < performed(reports).len() implies performed(reports)[i]
        != Step::MountProc && performed(reports)[i] != Step::Exec by {
        assert(performed(reports)[i] == step_at(i));
    }
}

/// The identity map is complete before anything is built on it: a step
/// behind the group map is performed only when the user namespace exists and
/// the user map, the denial of supplementary groups and the group map have
/// been written with success, in that order.
pub proof fn lemma_identity_map_comes_first(reports: Seq<Outcome>, step: Step)
    requires
        performed(reports).contains(step),
        position_of(step) > position_of(Step::WriteGidMap),
    ensures
        performed(reports)[0] == Step::UnshareUser,
        performed(reports)[1] == Step::WriteUidMap,
        performed(reports)[2] == Step::DenySetgroups,
        performed(reports)[3] == Step::WriteGidMap,
        forall|i: int| 0 <= i <= position_of(Step::WriteGidMap) ==> reports[i] == Outcome::Succeeded,
        namespaces_after(position_of(step)).user,
{
    lemma_step_waits_for_those_ahead(reports, step);
    lemma_namespaces_when_due(step);
    assert(performed(reports)[0] == step_at(0));
    assert(performed(reports)[1] == step_at(1));
    assert(performed(reports)[2] == step_at(2));
    assert(performed(reports)[3] == step_at(3));
}

/// The hostname is set only inside a private hostname namespace: when the
/// step is performed, the step that creates that namespace has succeeded.
pub proof fn lemma_hostname_set_in_private_namespace(reports: Seq<Outcome>)
    requires
        performed(reports).contains(Step::SetHostname),
    ensures
        performed(reports)[position_of(Step::UnshareIsolation)] == Step::UnshareIsolation,
        reports[position_of(Step::UnshareIsolation)] == Outcome::Succeeded,
        namespaces_after(position_of(Step::SetHostname)).hostname,
{
    lemma_step_waits_for_those_ahead(reports, Step::SetHostname);
    lemma_namespaces_when_due(Step::SetHostname);
    assert(performed(reports)[4] == step_at(4));
}

/// The process-information filesystem is mounted only when the mount and
/// process-ID namespaces exist and the jail root has become the root and the
/// working directory.
pub proof fn lemma_mount_follows_isolation_and_root(reports: Seq<Outcome>)
    requires
        performed(reports).contains(Step::MountProc),
    ensures
        reports[position_of(Step::UnshareIsolation)] == Outcome::Succeeded,
        reports[position_of(Step::ChangeRoot)] == Outcome::Succeeded,
        reports[position_of(Step::EnterRoot)] == Outcome::Succeeded,
        performed(reports)[position_of(Step::UnshareIsolation)] == Step::UnshareIsolation,
        performed(reports)[position_of(Step::ChangeRoot)] == Step::ChangeRoot,
        performed(reports)[position_of(Step::EnterRoot)] == Step::EnterRoot,
        namespaces_after(position_of(Step::MountProc)).mounts,
        namespaces_after(position_of(Step::MountProc)).processes,
{
    lemma_step_waits_for_those_ahead(reports, Step::MountProc);
    lemma_namespaces_when_due(Step::MountProc);
    assert(performed(reports)[4] == step_at(4));
    assert(performed(reports)[6] == step_at(6));
    assert(performed(reports)[7] == step_at(7));
}

/// The process image is replaced only after every step of the setup has
/// succeeded.
pub proof fn lemma_setup_precedes_exec(reports: Seq<Outcome>)
    requires
        performed(reports).contains(Step::Exec),
    ensures
        performed(reports) == protocol(),
        forall|i: int| 0 <= i < position_of(Step::Exec) ==> reports[i] == Outcome::Succeeded,
{
    lemma_step_waits_for_those_ahead(reports, Step::Exec);
    lemma_steps_follow_protocol(reports);
    assert(performed(reports) =~= protocol());
    assert forall|i: int| 0 <= i < position_of(Step::Exec) implies reports[i]
        == Outcome::Succeeded by {
        assert(performed(reports)[i] == step_at(i));
    }
}

} // verus!
