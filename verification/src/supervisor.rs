//! The parent's side of a launch: fork once, wait for the child, detach what
//! the parent is responsible for, and end with the child's exit code.

use vstd::prelude::*;
use crate::error::{exit_code_of, kind_of, Fault, FAILURE_EXIT_CODE};

verus! {

/// Where the parent stands.
#[derive(Clone, Copy, Debug, PartialEq, Eq, Hash)]
pub enum ParentState {
    /// The child is about to be created.
    Forking,
    /// The parent blocks until the child with this process ID ends.
    WaitingOnChild { child: i32 },
    /// The child has exited with `code`; the parent detaches the
    /// process-information filesystem that it shares with the child.
    Cleanup { code: i32 },
    /// The parent ends with the child's exit code.
    ExitWithChildCode { code: i32 },
    /// The parent reports the fault and ends with the failure exit code.
    ExitWithFailureCode { fault: Fault },
}

/// How the child ended.
#[derive(Clone, Copy, Debug, PartialEq, Eq, Hash)]
pub enum ExitOutcome {
    /// The child exited normally with this code.
    Exited { code: i32 },
    /// The child ended in another way: by a signal, or the wait itself
    /// failed.
    Abnormal,
}

/// What happened to the parent.
#[derive(Clone, Copy, Debug, PartialEq, Eq, Hash)]
pub enum ParentEvent {
    /// The fork returned in the parent, with the child's process ID.
    Forked { child: i32 },
    /// The fork failed with this error number.
    ForkFailed { errno: i32 },
    /// The wait returned: the child has ended.
    ChildEnded { outcome: ExitOutcome },
    /// The detachment was attempted. Whether it succeeded does not change
    /// what follows.
    CleanupFinished,
}

/// What the program around the parent has to do next.
#[derive(Clone, Copy, Debug, PartialEq, Eq, Hash)]
pub enum ParentAction {
    /// Fork, and report `Forked` or `ForkFailed`.
    Fork,
    /// Wait for the child, and report how it ended.
    Wait { child: i32 },
    /// Detach the process-information filesystem, and report
    /// `CleanupFinished`.
    DetachProc,
    /// Exit with `code`.
    Exit { code: i32 },
    /// Write the fault's diagnostic and exit with its exit code.
    Fail { fault: Fault },
}

/// The state that follows `state` on `event`, for a parent that shares the
/// child's mount namespace or does not (`shares_mounts`). An event that the
/// state does not await leaves the state as it is; the two exit states await
/// none.
pub open spec fn next_state(shares_mounts: bool, state: ParentState, event: ParentEvent)
    -> ParentState {
    match (state, event) {
        (ParentState::Forking, ParentEvent::Forked { child }) => ParentState::WaitingOnChild {
            child,
        },
        (ParentState::Forking, ParentEvent::ForkFailed { errno }) => {
            ParentState::ExitWithFailureCode { fault: Fault::Fork { errno } }
        },
        (ParentState::WaitingOnChild { child }, ParentEvent::ChildEnded { outcome }) => {
            match outcome {
                ExitOutcome::Exited { code } => if shares_mounts {
                    ParentState::Cleanup { code }
                } else {
                    ParentState::ExitWithChildCode { code }
                },
                ExitOutcome::Abnormal => ParentState::ExitWithFailureCode {
                    fault: Fault::Abnormal,
                },
            }
        },
        (ParentState::Cleanup { code }, ParentEvent::CleanupFinished) => {
            ParentState::ExitWithChildCode { code }
        },
        _ => state,
    }
}

/// What is to be done in `state`.
pub open spec fn action_in(state: ParentState) -> ParentAction {
    match state {
        ParentState::Forking => ParentAction::Fork,
        ParentState::WaitingOnChild { child } => ParentAction::Wait { child },
        ParentState::Cleanup { code } => ParentAction::DetachProc,
        ParentState::ExitWithChildCode { code } => ParentAction::Exit { code },
        ParentState::ExitWithFailureCode { fault } => ParentAction::Fail { fault },
    }
}

/// The exit code of the launcher in `state`, if the state is one in which it
/// exits.
pub open spec fn exit_code_in(state: ParentState) -> Option<int> {
    match state {
        ParentState::ExitWithChildCode { code } => Some(code as int),
        ParentState::ExitWithFailureCode { fault } => Some(exit_code_of(kind_of(fault))),
        _ => None,
    }
}

/// The state of a parent to which `events` happened, in that order.
pub open spec fn state_after(shares_mounts: bool, events: Seq<ParentEvent>) -> ParentState
    decreases events.len(),
{
    if events.len() == 0 {
        ParentState::Forking
    } else {
        next_state(shares_mounts, state_after(shares_mounts, events.drop_last()), events.last())
    }
}

/// The parent of one launch. A value of this type is made by `new` and moved
/// on by `advance` alone, so it has reached its state through the events that
/// it remembers.
pub struct Supervisor {
    shares_mounts: bool,
    state: ParentState,
    events: Ghost<Seq<ParentEvent>>,
}

impl Supervisor {
    #[verifier::type_invariant]
    spec fn consistent(self) -> bool {
        self.state == state_after(self.shares_mounts, self.events@)
    }

    /// Whether the parent shares the mount namespace of the child, and so
    /// has to detach the process-information filesystem.
    pub closed spec fn shares_mounts(self) -> bool {
        self.shares_mounts
    }

    /// Where the parent stands.
    pub closed spec fn state(self) -> ParentState {
        self.state
    }

    /// The events that happened to the parent so far.
    pub closed spec fn events(self) -> Seq<ParentEvent> {
        self.events@
    }

    /// A parent that is about to fork.
    pub fn new(shares_mounts: bool) -> (parent: Supervisor)
        ensures
            parent.shares_mounts() == shares_mounts,
            parent.state() == ParentState::Forking,
            parent.events() == Seq::<ParentEvent>::empty(),
    {
        Supervisor { shares_mounts, state: ParentState::Forking, events: Ghost(Seq::empty()) }
    }

    /// Where the parent stands: where its events have brought it.
    pub fn current(&self) -> (state: ParentState)
        ensures
            state == self.state(),
            state == state_after(self.shares_mounts(), self.events()),
    {
        proof {
            use_type_invariant(self);
        }
        self.state
    }

    /// What is to be done next.
    pub fn action(&self) -> (action: ParentAction)
        ensures
            action == action_in(self.state()),
            action == action_in(state_after(self.shares_mounts(), self.events())),
    {
        proof {
            use_type_invariant(self);
        }
        match self.state {
            ParentState::Forking => ParentAction::Fork,
            ParentState::WaitingOnChild { child } => ParentAction::Wait { child },
            ParentState::Cleanup { code: _ } => ParentAction::DetachProc,
            ParentState::ExitWithChildCode { code } => ParentAction::Exit { code },
            ParentState::ExitWithFailureCode { fault } => ParentAction::Fail { fault },
        }
    }

    /// The exit code of the launcher, once the parent has reached a state
    /// in which it exits.
    pub fn exit_code(&self) -> (code: Option<i32>)
        ensures
            match code {
                Some(c) => exit_code_in(self.state()) == Some(c as int),
                None => exit_code_in(self.state()) is None,
            },
    {
        match self.state {
            ParentState::ExitWithChildCode { code } => Some(code),
            ParentState::ExitWithFailureCode { fault } => Some(fault.exit_code()),
            _ => None,
        }
    }

    /// Takes the event and moves to the state that follows.
    pub fn advance(self, event: ParentEvent) -> (parent: Supervisor)
        ensures
            parent.shares_mounts() == self.shares_mounts(),
            parent.state() == next_state(self.shares_mounts(), self.state(), event),
            parent.events() == self.events().push(event),
    {
        proof {
            use_type_invariant(&self);
            assert(self.events@.push(event).drop_last() =~= self.events@);
        }
        let state = match (self.state, event) {
            (ParentState::Forking, ParentEvent::Forked { child }) => ParentState::WaitingOnChild {
                child,
            },
            (ParentState::Forking, ParentEvent::ForkFailed { errno }) => {
                ParentState::ExitWithFailureCode { fault: Fault::Fork { errno } }
            },
            (ParentState::WaitingOnChild { child: _ }, ParentEvent::ChildEnded { outcome }) => {
                match outcome {
                    ExitOutcome::Exited { code } => if self.shares_mounts {
                        ParentState::Cleanup { code }
                    } else {
                        ParentState::ExitWithChildCode { code }
                    },
                    ExitOutcome::Abnormal => ParentState::ExitWithFailureCode {
                        fault: Fault::Abnormal,
                    },
                }
            },
            (ParentState::Cleanup { code }, ParentEvent::CleanupFinished) => {
                ParentState::ExitWithChildCode { code }
            },
            (state, _) => state,
        };
        Supervisor {
            shares_mounts: self.shares_mounts,
            state,
            events: Ghost(self.events@.push(event)),
        }
    }
}

/// The exit code that the launcher owes to `outcome`: the child's own code
/// after a normal exit, the failure exit code otherwise.
pub open spec fn launcher_code_of(outcome: ExitOutcome) -> int {
    match outcome {
        ExitOutcome::Exited { code } => code as int,
        ExitOutcome::Abnormal => FAILURE_EXIT_CODE as int,
    }
}

impl ExitOutcome {
    /// The exit code that the launcher owes to this outcome.
    pub fn launcher_code(&self) -> (code: i32)
        ensures
            code == launcher_code_of(*self),
    {
        match self {
            ExitOutcome::Exited { code } => *code,
            ExitOutcome::Abnormal => FAILURE_EXIT_CODE,
        }
    }
}

/// The events of a launch whose fork gives the child `child` and whose child
/// ends with `outcome`: the fork, the end of the child, and the detachment
/// where the child exited normally and the parent shares its mounts.
pub open spec fn run_of(shares_mounts: bool, child: i32, outcome: ExitOutcome) -> Seq<
    ParentEvent,
> {
    if shares_mounts && outcome is Exited {
        seq![
            ParentEvent::Forked { child },
            ParentEvent::ChildEnded { outcome },
            ParentEvent::CleanupFinished,
        ]
    } else {
        seq![ParentEvent::Forked { child }, ParentEvent::ChildEnded { outcome }]
    }
}

/// However the child ends, the launcher exits with the code owed to that
/// end. In particular, whenever the child exits normally with a code, the
/// launcher exits with that code.
pub proof fn lemma_launcher_adopts_outcome(shares_mounts: bool, child: i32, outcome: ExitOutcome)
    ensures
        exit_code_in(state_after(shares_mounts, run_of(shares_mounts, child, outcome))) == Some(
            launcher_code_of(outcome),
        ),
        outcome matches ExitOutcome::Exited { code } ==> state_after(
            shares_mounts,
            run_of(shares_mounts, child, outcome),
        ) == (ParentState::ExitWithChildCode { code }),
{
    let run = run_of(shares_mounts, child, outcome);
    let forked = seq![ParentEvent::Forked { child }];
    let ended = seq![ParentEvent::Forked { child }, ParentEvent::ChildEnded { outcome }];
    assert(forked.drop_last() =~= Seq::<ParentEvent>::empty());
    assert(state_after(shares_mounts, forked.drop_last()) == ParentState::Forking);
    assert(state_after(shares_mounts, forked) == (ParentState::WaitingOnChild { child }));
    assert(ended.drop_last() =~= forked);
    if shares_mounts && outcome is Exited {
        assert(run.drop_last() =~= ended);
    } else {
        assert(run =~= ended);
    }
}

/// A child that is aborted exits with the exit code of its fault, so the
/// launcher ends with exit code 1 after every failed step of the child.
pub proof fn lemma_aborted_child_ends_launcher_with_one(
    shares_mounts: bool,
    child: i32,
    fault: Fault,
)
    ensures
        exit_code_of(kind_of(fault)) == FAILURE_EXIT_CODE,
        exit_code_in(
            state_after(
                shares_mounts,
                run_of(shares_mounts, child, ExitOutcome::Exited { code: FAILURE_EXIT_CODE }),
            ),
        ) == Some(1int),
{
    lemma_launcher_adopts_outcome(
        shares_mounts,
        child,
        ExitOutcome::Exited { code: FAILURE_EXIT_CODE },
    );
}

/// A failed fork ends the launcher with exit code 1 before any child
/// exists.
pub proof fn lemma_failed_fork_exits_with_one(shares_mounts: bool, errno: i32)
    ensures
        exit_code_in(
            state_after(shares_mounts, seq![ParentEvent::ForkFailed { errno }]),
        ) == Some(1int),
{
    let failed = seq![ParentEvent::ForkFailed { errno }];
    assert(failed.drop_last() =~= Seq::<ParentEvent>::empty());
    assert(state_after(shares_mounts, failed.drop_last()) == ParentState::Forking);
}

/// An exit state is final: no event leads out of it.
pub proof fn lemma_exit_is_final(shares_mounts: bool, state: ParentState, event: ParentEvent)
    requires
        exit_code_in(state) is Some,
    ensures
        next_state(shares_mounts, state, event) == state,
{
}

/// Whatever happens, the parent waits only after the fork, detaches only
/// after the child has exited and only where it shares the child's mounts,
/// and exits with 1 or with a code that the child exited with.
pub proof fn lemma_parent_order(shares_mounts: bool, events: Seq<ParentEvent>)
    ensures
        match state_after(shares_mounts, events) {
            ParentState::Forking => forall|i: int|
                0 <= i < events.len() ==> !(#[trigger] events[i] is Forked) && !(events[i] is ForkFailed),
            ParentState::WaitingOnChild { child } => exists|i: int|
                0 <= i < events.len() && events[i] == (ParentEvent::Forked { child }),
            ParentState::Cleanup { code } => shares_mounts && exists|i: int|
                0 <= i < events.len() && events[i] == (ParentEvent::ChildEnded {
                    outcome: ExitOutcome::Exited { code },
                }),
            ParentState::ExitWithChildCode { code } => exists|i: int|
                0 <= i < events.len() && events[i] == (ParentEvent::ChildEnded {
                    outcome: ExitOutcome::Exited { code },
                }),
            ParentState::ExitWithFailureCode { fault } => exit_code_of(kind_of(fault))
                == FAILURE_EXIT_CODE,
        },
    decreases events.len(),
{
    if events.len() > 0 {
        let earlier = events.drop_last();
        let last = events.len() - 1;
        lemma_parent_order(shares_mounts, earlier);
        assert(forall|i: int| 0 <= i < earlier.len() ==> earlier[i] == events[i]);
        match state_after(shares_mounts, earlier) {
            ParentState::Forking => {
                assert(events[last] == events.last());
            },
            ParentState::WaitingOnChild { child } => {
                let w = choose|i: int|
                    0 <= i < earlier.len() && earlier[i] == (ParentEvent::Forked { child });
                assert(events[w] == (ParentEvent::Forked { child }));
                assert(events[last] == events.last());
            },
            ParentState::Cleanup { code } => {
                let w = choose|i: int|
                    0 <= i < earlier.len() && earlier[i] == (ParentEvent::ChildEnded {
                        outcome: ExitOutcome::Exited { code },
                    });
                assert(events[w] == (ParentEvent::ChildEnded {
                    outcome: ExitOutcome::Exited { code },
                }));
            },
            ParentState::ExitWithChildCode { code } => {
                let w = choose|i: int|
                    0 <= i < earlier.len() && earlier[i] == (ParentEvent::ChildEnded {
                        outcome: ExitOutcome::Exited { code },
                    });
                assert(events[w] == (ParentEvent::ChildEnded {
                    outcome: ExitOutcome::Exited { code },
                }));
            },
            ParentState::ExitWithFailureCode { fault } => {},
        }
    }
}

} // verus!
