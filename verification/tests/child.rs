use jail_launcher::child::{Child, ChildAction, Outcome, Phase};
use jail_launcher::error::{Failure, Fault};
use jail_launcher::protocol::{Stage, Step, STEP_COUNT};

const PROTOCOL: [Step; 10] = [
    Step::UnshareUser,
    Step::WriteUidMap,
    Step::DenySetgroups,
    Step::WriteGidMap,
    Step::UnshareIsolation,
    Step::SetHostname,
    Step::ChangeRoot,
    Step::EnterRoot,
    Step::MountProc,
    Step::Exec,
];

/// Drives a child with the given reports and returns the steps that
/// became due, in order, and the child as it stands afterwards.
fn drive(reports: &[Outcome]) -> (Vec<Step>, Child) {
    let mut child = Child::start();
    let mut steps = Vec::new();
    for report in reports {
        if let ChildAction::Perform(step) = child.action() {
            steps.push(step);
        }
        child = child.advance(*report);
    }
    (steps, child)
}

#[test]
fn child_starts_with_the_user_namespace() {
    let child = Child::start();
    assert_eq!(child.current(), Phase::Pending(Step::UnshareUser));
    assert_eq!(child.action(), ChildAction::Perform(Step::UnshareUser));
    assert_eq!(child.stage(), Stage::IdentitySetup);
}

#[test]
fn successes_walk_the_whole_protocol_in_order() {
    let (steps, child) = drive(&[Outcome::Succeeded; 10]);
    assert_eq!(steps, PROTOCOL.to_vec());
    assert_eq!(child.current(), Phase::Replaced);
    assert_eq!(child.action(), ChildAction::Rest);
    assert_eq!(child.stage(), Stage::Exec);
}

#[test]
fn protocol_has_ten_steps_at_their_positions() {
    assert_eq!(STEP_COUNT, 10);
    for (i, step) in PROTOCOL.iter().enumerate() {
        assert_eq!(step.position(), i);
        let next = if i + 1 < PROTOCOL.len() { Some(PROTOCOL[i + 1]) } else { None };
        assert_eq!(step.successor(), next);
    }
}

#[test]
fn stages_follow_one_another() {
    let stages: Vec<Stage> = PROTOCOL.iter().map(|s| s.stage()).collect();
    assert_eq!(
        stages,
        vec![
            Stage::IdentitySetup,
            Stage::IdentitySetup,
            Stage::IdentitySetup,
            Stage::IdentitySetup,
            Stage::NamespaceSetup,
            Stage::NamespaceSetup,
            Stage::FilesystemJail,
            Stage::FilesystemJail,
            Stage::FilesystemJail,
            Stage::Exec,
        ]
    );
}

#[test]
fn each_step_fails_with_its_own_kind() {
    let kinds = [
        Failure::IdentitySetupFailed,
        Failure::IdentitySetupFailed,
        Failure::IdentitySetupFailed,
        Failure::IdentitySetupFailed,
        Failure::NamespaceSetupFailed,
        Failure::NamespaceSetupFailed,
        Failure::JailRootInvalid,
        Failure::JailRootInvalid,
        Failure::ProcMountFailed,
        Failure::ExecFailed,
    ];
    for k in 0..PROTOCOL.len() {
        assert_eq!(PROTOCOL[k].failure(), kinds[k]);
        let mut reports = vec![Outcome::Succeeded; k];
        reports.push(Outcome::Failed(13));
        let (steps, child) = drive(&reports);
        assert_eq!(steps, PROTOCOL[..=k].to_vec());
        let fault = Fault::Setup { step: PROTOCOL[k], errno: 13 };
        assert_eq!(fault.kind(), kinds[k]);
        assert_eq!(fault.errno(), Some(13));
        assert_eq!(fault.exit_code(), 1);
        assert_eq!(child.current(), Phase::Aborted(fault));
        assert_eq!(child.action(), ChildAction::Abort(fault));
        assert_eq!(child.stage(), Stage::AbortWithDiagnostic);
    }
}

#[test]
fn missing_jail_root_aborts_before_the_mount() {
    let mut reports = vec![Outcome::Succeeded; 6];
    reports.push(Outcome::Failed(2));
    reports.extend([Outcome::Succeeded; 5]);
    let (steps, child) = drive(&reports);
    assert_eq!(steps.last(), Some(&Step::ChangeRoot));
    assert!(!steps.contains(&Step::MountProc));
    assert!(!steps.contains(&Step::Exec));
    let fault = Fault::Setup { step: Step::ChangeRoot, errno: 2 };
    assert_eq!(child.current(), Phase::Aborted(fault));
    assert_eq!(child.action(), ChildAction::Abort(fault));
    assert_eq!(fault.kind(), Failure::JailRootInvalid);
    assert_eq!(fault.exit_code(), 1);
}

#[test]
fn aborted_child_ignores_further_reports() {
    let child = Child::start().advance(Outcome::Failed(1));
    let fault = Fault::Setup { step: Step::UnshareUser, errno: 1 };
    assert_eq!(child.current(), Phase::Aborted(fault));
    let child = child.advance(Outcome::Succeeded).advance(Outcome::Failed(5));
    assert_eq!(child.current(), Phase::Aborted(fault));
}

#[test]
fn replaced_child_ignores_further_reports() {
    let (_, child) = drive(&[Outcome::Succeeded; 10]);
    let child = child.advance(Outcome::Failed(2)).advance(Outcome::Succeeded);
    assert_eq!(child.current(), Phase::Replaced);
}

#[test]
fn failed_exec_aborts() {
    let mut reports = vec![Outcome::Succeeded; 9];
    reports.push(Outcome::Failed(2));
    let (steps, child) = drive(&reports);
    assert_eq!(steps, PROTOCOL.to_vec());
    let fault = Fault::Setup { step: Step::Exec, errno: 2 };
    assert_eq!(child.current(), Phase::Aborted(fault));
    assert_eq!(fault.kind(), Failure::ExecFailed);
}

#[test]
fn no_step_becomes_due_twice() {
    let runs: [&[Outcome]; 4] = [
        &[Outcome::Succeeded; 14],
        &[Outcome::Succeeded, Outcome::Failed(1), Outcome::Succeeded, Outcome::Succeeded],
        &[Outcome::Failed(1), Outcome::Failed(1), Outcome::Failed(1)],
        &[
            Outcome::Succeeded,
            Outcome::Succeeded,
            Outcome::Succeeded,
            Outcome::Succeeded,
            Outcome::Succeeded,
            Outcome::Succeeded,
            Outcome::Succeeded,
            Outcome::Succeeded,
            Outcome::Failed(16),
            Outcome::Succeeded,
            Outcome::Succeeded,
        ],
    ];
    for reports in runs {
        let (steps, _) = drive(reports);
        for i in 0..steps.len() {
            assert_eq!(steps[i], PROTOCOL[i]);
            for j in 0..i {
                assert_ne!(steps[i], steps[j]);
            }
        }
    }
}

#[test]
fn mount_comes_after_isolation_and_change_of_root() {
    let (steps, _) = drive(&[Outcome::Succeeded; 10]);
    let at = |step: Step| steps.iter().position(|s| *s == step).unwrap();
    assert!(at(Step::UnshareUser) < at(Step::WriteUidMap));
    assert!(at(Step::WriteUidMap) < at(Step::DenySetgroups));
    assert!(at(Step::DenySetgroups) < at(Step::WriteGidMap));
    assert!(at(Step::WriteGidMap) < at(Step::UnshareIsolation));
    assert!(at(Step::UnshareIsolation) < at(Step::SetHostname));
    assert!(at(Step::UnshareIsolation) < at(Step::MountProc));
    assert!(at(Step::ChangeRoot) < at(Step::EnterRoot));
    assert!(at(Step::EnterRoot) < at(Step::MountProc));
    assert!(at(Step::MountProc) < at(Step::Exec));
}
