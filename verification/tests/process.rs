use agent_review_helper::error::ErrorKind;
use agent_review_helper::jj;
use agent_review_helper::process::{run, run_status, Outcome};

#[test]
fn success_returns_stdout() {
    let inv = jj::workspace_root("/x");
    let out = Outcome { success: true, status: "exit status: 0".into(), stdout: "/x\n".into(), stderr: String::new() };
    assert_eq!(run(&inv, out).unwrap(), "/x\n");
}

#[test]
fn failure_reports_command_and_stderr() {
    let inv = jj::remote_add("/r", "me", "u");
    let out = Outcome {
        success: false,
        status: "exit status: 1".into(),
        stdout: String::new(),
        stderr: "  Error: remote exists \n".into(),
    };
    let e = run_status(&inv, out).unwrap_err();
    assert_eq!(e.kind, ErrorKind::CommandFailed);
    assert_eq!(e.message(), "`jj git remote add me u` failed (exit status: 1)\nstderr:\nError: remote exists");
}
