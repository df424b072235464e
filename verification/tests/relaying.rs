use formatter_dispatch::dispatch::{
    begin_dispatch, finish_dispatch, DispatchStep, FormatResult,
};
use formatter_dispatch::outcome::{ErrorKind, FaultStage, RunOutcome};
use formatter_dispatch::tool::Tool;

#[test]
fn successful_exit_relays_stdout_verbatim() {
    let out = RunOutcome::process_exited(true, b"const x = 1;\n", b"");
    match finish_dispatch(Tool::Prettier, out) {
        FormatResult::Success(s) => {
            assert_eq!(s.formatted_code, "const x = 1;\n");
            assert_eq!(s.formatter_used, "prettier");
        }
        FormatResult::Failure(_) => panic!("successful exit must relay as success"),
    }
}

#[test]
fn failing_exit_carries_stderr_verbatim() {
    let stderr = "error: expected `;`, found `}`\n --> <stdin>:1:12\n";
    let out = RunOutcome::process_exited(false, b"partial output", stderr.as_bytes());
    match finish_dispatch(Tool::Rustfmt, out) {
        FormatResult::Failure(f) => {
            assert_eq!(f.kind, ErrorKind::FormatterRejection);
            assert_eq!(f.details, stderr);
        }
        FormatResult::Success(_) => panic!("failing exit must relay as failure"),
    }
}

#[test]
fn spawn_fault_names_the_step_and_the_tool() {
    let out = RunOutcome::process_fault(
        FaultStage::Spawn,
        "No such file or directory (os error 2)".to_string(),
    );
    match finish_dispatch(Tool::Rustfmt, out) {
        FormatResult::Failure(f) => {
            assert_eq!(f.kind, ErrorKind::ProcessSpawnFailure);
            assert_eq!(
                f.details,
                "Failed to spawn rustfmt: No such file or directory (os error 2)"
            );
        }
        FormatResult::Success(_) => panic!("a spawn fault must relay as failure"),
    }
}

#[test]
fn write_fault_names_the_step() {
    let out = RunOutcome::process_fault(FaultStage::WriteInput, "Broken pipe (os error 32)".to_string());
    match finish_dispatch(Tool::Prettier, out) {
        FormatResult::Failure(f) => {
            assert_eq!(f.kind, ErrorKind::ProcessIOFailure);
            assert_eq!(f.details, "Failed to write to stdin: Broken pipe (os error 32)");
        }
        FormatResult::Success(_) => panic!("a write fault must relay as failure"),
    }
}

#[test]
fn wait_fault_names_the_step_and_the_tool() {
    let out = RunOutcome::process_fault(FaultStage::Wait, "interrupted".to_string());
    match finish_dispatch(Tool::Prettier, out) {
        FormatResult::Failure(f) => {
            assert_eq!(f.kind, ErrorKind::ProcessIOFailure);
            assert_eq!(f.details, "Failed to wait for prettier: interrupted");
        }
        FormatResult::Success(_) => panic!("a wait fault must relay as failure"),
    }
}

#[test]
fn empty_code_is_accepted_and_dispatched() {
    match begin_dispatch("", "rust", None) {
        DispatchStep::Invoke { tool, input } => {
            assert_eq!(tool, Tool::Rustfmt);
            assert_eq!(input, "");
        }
        DispatchStep::Rejected(_) => panic!("empty code must still be dispatched"),
    }
}

#[test]
fn large_code_passes_through_untruncated() {
    let code = "fn f() { let x = 0; }\n".repeat(200_000);
    assert!(code.len() > 4_000_000);
    match begin_dispatch(&code, "rust", None) {
        DispatchStep::Invoke { tool, input } => {
            assert_eq!(tool, Tool::Rustfmt);
            assert_eq!(input, code);
        }
        DispatchStep::Rejected(_) => panic!("recognized language must invoke a tool"),
    }
}

#[test]
fn double_application_equals_single_when_tool_is_idempotent() {
    // A tool that is idempotent on this value: formatting its own output
    // reproduces it. The dispatcher relays verbatim, so the second dispatch
    // returns exactly what the first did.
    let well_formatted = "const x = 1;\n";
    let first = finish_dispatch(
        Tool::Prettier,
        RunOutcome::process_exited(true, well_formatted.as_bytes(), b""),
    );
    let first_code = match &first {
        FormatResult::Success(s) => s.formatted_code.clone(),
        FormatResult::Failure(_) => panic!("first application must succeed"),
    };
    let second = finish_dispatch(
        Tool::Prettier,
        RunOutcome::process_exited(true, first_code.as_bytes(), b""),
    );
    match (&first, &second) {
        (FormatResult::Success(a), FormatResult::Success(b)) => {
            assert_eq!(a.formatted_code, b.formatted_code);
            assert_eq!(a.formatter_used, b.formatter_used);
        }
        _ => panic!("both applications must succeed"),
    }
}

#[test]
fn output_decoding_is_lenient() {
    // ASCII passes through unchanged; invalid sequences are substituted,
    // never failing.
    let out = RunOutcome::process_exited(true, b"plain ascii\n", &[0x66u8, 0xffu8, 0x67u8]);
    match out {
        RunOutcome::Completed { exited_ok, stdout_text, stderr_text } => {
            assert!(exited_ok);
            assert_eq!(stdout_text, "plain ascii\n");
            assert_eq!(stderr_text, "f\u{fffd}g");
        }
        RunOutcome::Fault { .. } => panic!("a completed process is not a fault"),
    }
}
