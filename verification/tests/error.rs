use jail_launcher::error::{compose_diagnostic, diagnostic, Failure, Fault, FAILURE_EXIT_CODE};
use jail_launcher::protocol::Step;

const KINDS: [Failure; 8] = [
    Failure::Usage,
    Failure::IdentitySetupFailed,
    Failure::NamespaceSetupFailed,
    Failure::JailRootInvalid,
    Failure::ProcMountFailed,
    Failure::ExecFailed,
    Failure::ForkFailed,
    Failure::ChildWaitAbnormal,
];

const STEPS: [Step; 10] = [
    Step::UnshareUser,
    Step::WriteUidMap,
    Step::DenySetgroups,
    Step::WriteGidMap,
    Step::UnshareIsolation,
    Step::SetHostname,
    Step::ChangeRoot,
    Step::EnterRoot,
    Step::MountProc,
    Step::Exec,
];

#[test]
fn every_failure_exits_with_one() {
    assert_eq!(FAILURE_EXIT_CODE, 1);
    for kind in KINDS {
        assert_eq!(kind.exit_code(), 1);
    }
    for step in STEPS {
        assert_eq!(Fault::Setup { step, errno: 0 }.exit_code(), 1);
    }
    assert_eq!(Fault::Fork { errno: 11 }.exit_code(), 1);
    assert_eq!(Fault::Abnormal.exit_code(), 1);
}

#[test]
fn faults_have_their_kinds() {
    assert_eq!(Fault::Setup { step: Step::WriteGidMap, errno: 1 }.kind(), Failure::IdentitySetupFailed);
    assert_eq!(Fault::Setup { step: Step::SetHostname, errno: 1 }.kind(), Failure::NamespaceSetupFailed);
    assert_eq!(Fault::Setup { step: Step::EnterRoot, errno: 1 }.kind(), Failure::JailRootInvalid);
    assert_eq!(Fault::Setup { step: Step::MountProc, errno: 1 }.kind(), Failure::ProcMountFailed);
    assert_eq!(Fault::Fork { errno: 1 }.kind(), Failure::ForkFailed);
    assert_eq!(Fault::Abnormal.kind(), Failure::ChildWaitAbnormal);
}

#[test]
fn faults_carry_their_error_numbers() {
    assert_eq!(Fault::Setup { step: Step::Exec, errno: 8 }.errno(), Some(8));
    assert_eq!(Fault::Fork { errno: 12 }.errno(), Some(12));
    assert_eq!(Fault::Abnormal.errno(), None);
}

#[test]
fn headlines_name_the_failing_step() {
    let headlines: Vec<&str> =
        STEPS.iter().map(|step| Fault::Setup { step: *step, errno: 1 }.headline()).collect();
    assert_eq!(
        headlines,
        vec![
            "Failed to unshare User namespace",
            "Failed to write to uid_map",
            "Failed to write to setgroups",
            "Failed to write to gid_map",
            "Failed to unshare namespaces",
            "Failed to set hostname",
            "Failed to set root filesystem",
            "Failed to change to root dir in container",
            "Failed to mount /proc filesystem",
            "Failed to execute command",
        ]
    );
    assert_eq!(Fault::Fork { errno: 1 }.headline(), "Failed to fork");
    assert_eq!(Fault::Abnormal.headline(), "Child terminated abnormally");
}

#[test]
fn compose_joins_headline_and_system_error() {
    assert_eq!(
        compose_diagnostic(
            Fault::Setup { step: Step::MountProc, errno: 16 },
            "EBUSY: Device or resource busy"
        ),
        "Failed to mount /proc filesystem: EBUSY: Device or resource busy"
    );
    assert_eq!(compose_diagnostic(Fault::Fork { errno: 11 }, ""), "Failed to fork: ");
}

#[test]
fn compose_without_error_number_is_the_headline() {
    assert_eq!(compose_diagnostic(Fault::Abnormal, "ignored"), "Child terminated abnormally");
}

#[test]
fn diagnostic_names_the_system_error() {
    assert_eq!(
        diagnostic(Fault::Setup { step: Step::ChangeRoot, errno: 2 }),
        "Failed to set root filesystem: ENOENT: No such file or directory"
    );
    assert_eq!(
        diagnostic(Fault::Setup { step: Step::WriteUidMap, errno: 1 }),
        "Failed to write to uid_map: EPERM: Operation not permitted"
    );
}

#[test]
fn diagnostic_of_an_unknown_error_number() {
    assert_eq!(
        diagnostic(Fault::Setup { step: Step::Exec, errno: 0 }),
        "Failed to execute command: UnknownErrno: Unknown errno"
    );
    assert_eq!(
        diagnostic(Fault::Setup { step: Step::Exec, errno: -5 }),
        "Failed to execute command: UnknownErrno: Unknown errno"
    );
}

#[test]
fn diagnostic_agrees_with_nix() {
    for raw in [1, 2, 11, 12, 13, 16, 22] {
        let fault = Fault::Fork { errno: raw };
        let expected = format!("Failed to fork: {}", nix::errno::Errno::from_raw(raw));
        assert_eq!(diagnostic(fault), expected);
        assert_ne!(diagnostic(fault), format!("Failed to fork: {}", raw));
    }
}

#[test]
fn diagnostic_without_error_number() {
    assert_eq!(diagnostic(Fault::Abnormal), "Child terminated abnormally");
}
