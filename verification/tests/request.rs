use jail_launcher::error::Failure;
use jail_launcher::request::{examine, usage_message, InvocationRequest, Verdict};

fn line(words: &[&str]) -> Vec<String> {
    words.iter().map(|w| w.to_string()).collect()
}

#[test]
fn capture_reads_program_and_arguments() {
    let request = InvocationRequest::capture(&line(&["launcher", "run", "/bin/echo", "a", "b"]), 1000, 100)
        .unwrap();
    assert_eq!(request.program, "/bin/echo");
    assert_eq!(request.args, vec!["a".to_string(), "b".to_string()]);
    assert_eq!(request.uid, 1000);
    assert_eq!(request.gid, 100);
}

#[test]
fn capture_accepts_a_command_without_arguments() {
    let request = InvocationRequest::capture(&line(&["launcher", "run", "/bin/true"]), 0, 0).unwrap();
    assert_eq!(request.program, "/bin/true");
    assert!(request.args.is_empty());
}

#[test]
fn capture_refuses_a_missing_command() {
    assert_eq!(InvocationRequest::capture(&line(&["launcher", "run"]), 1, 1), Err(Failure::Usage));
}

#[test]
fn capture_refuses_a_missing_subcommand() {
    assert_eq!(InvocationRequest::capture(&line(&["launcher"]), 1, 1), Err(Failure::Usage));
}

#[test]
fn capture_refuses_an_empty_line() {
    assert_eq!(InvocationRequest::capture(&line(&[]), 1, 1), Err(Failure::Usage));
}

#[test]
fn capture_refuses_another_subcommand() {
    assert_eq!(
        InvocationRequest::capture(&line(&["launcher", "exec", "/bin/true"]), 1, 1),
        Err(Failure::Usage)
    );
    assert_eq!(
        InvocationRequest::capture(&line(&["launcher", "Run", "/bin/true"]), 1, 1),
        Err(Failure::Usage)
    );
}

#[test]
fn capture_does_not_take_the_name_for_the_subcommand() {
    assert_eq!(
        InvocationRequest::capture(&line(&["run", "x", "/bin/true"]), 1, 1),
        Err(Failure::Usage)
    );
}

#[test]
fn usage_message_names_the_launcher() {
    assert_eq!(usage_message("launcher"), "Usage: launcher run <command> [args...]");
    assert_eq!(usage_message(""), "Usage:  run <command> [args...]");
}

#[test]
fn examine_refuses_short_lines_with_usage_and_one() {
    for words in [&["launcher"][..], &["launcher", "run"][..], &["launcher", "go", "x"][..]] {
        match examine(&line(words), 1000, 1000) {
            Verdict::Refuse { message, code } => {
                assert_eq!(message, "Usage: launcher run <command> [args...]");
                assert_eq!(code, 1);
            }
            Verdict::Proceed { .. } => panic!("a line without a command was let through"),
        }
    }
}

#[test]
fn examine_refuses_an_empty_line_without_a_name() {
    assert_eq!(
        examine(&line(&[]), 0, 0),
        Verdict::Refuse { message: "Usage:  run <command> [args...]".to_string(), code: 1 }
    );
}

#[test]
fn examine_lets_a_launch_line_proceed() {
    let verdict = examine(&line(&["launcher", "run", "sh", "-c", "exit 7"]), 501, 20);
    assert_eq!(
        verdict,
        Verdict::Proceed {
            request: InvocationRequest {
                program: "sh".to_string(),
                args: vec!["-c".to_string(), "exit 7".to_string()],
                uid: 501,
                gid: 20,
            }
        }
    );
}
