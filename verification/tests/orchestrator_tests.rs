use build_gateway::admission::Admission;
use build_gateway::errors::{ApiError, ArtifactKind};
use build_gateway::orchestrator::{BuildAction, BuildEvent, BuildPhase, BuildSession};
use build_gateway::outcome::Response;

fn names(list: &[&str]) -> Vec<String> {
    list.iter().map(|s| String::from(*s)).collect()
}

#[test]
fn empty_source_is_rejected_before_any_work() {
    let (session, action) = BuildSession::begin(String::new());
    assert!(matches!(action, BuildAction::Fail(ApiError::NoBody)));
    assert_eq!(session.phase, BuildPhase::Finished);
    assert!(!session.slot_held);
    // whatever the serving layer reports afterwards, nothing happens
    let mut session = session;
    let a = session.step(BuildEvent::SlotGranted);
    assert!(matches!(a, BuildAction::Ignore));
    let a = session.step(BuildEvent::WriteDone);
    assert!(matches!(a, BuildAction::Ignore));
}

#[test]
fn rejection_status_is_400() {
    assert_eq!(ApiError::NoBody.status_code(), 400);
    assert_eq!(
        ApiError::NoBody.message(),
        "request must have a body but none was found"
    );
}

#[test]
fn failing_toolchain_yields_compile_error_with_its_text() {
    let (mut session, action) = BuildSession::begin(String::from("fn main() {"));
    assert!(matches!(action, BuildAction::AcquireSlot));
    let a = session.step(BuildEvent::SlotGranted);
    assert!(matches!(a, BuildAction::WriteSource));
    let a = session.step(BuildEvent::WriteDone);
    assert!(matches!(a, BuildAction::RunExecutor));
    let a = session.step(BuildEvent::ExecFinished {
        exit_zero: false,
        stderr: String::from("error: this `{` is not closed"),
    });
    match a {
        BuildAction::Respond(resp) => {
            assert_eq!(resp.status_code(), 400);
            match resp {
                Response::CompileError(diagnostic) => {
                    assert!(diagnostic.contains("this `{` is not closed"));
                }
                other => panic!("expected a compile error, got {:?}", other),
            }
        }
        other => panic!("expected a response, got {:?}", other),
    }
    assert!(!session.slot_held);
}

#[test]
fn succeeding_toolchain_yields_all_three_artifacts() {
    let (mut session, _) = BuildSession::begin(String::from("fn main() {}"));
    session.step(BuildEvent::SlotGranted);
    session.step(BuildEvent::WriteDone);
    let a = session.step(BuildEvent::ExecFinished { exit_zero: true, stderr: String::new() });
    assert!(matches!(a, BuildAction::ListOutputs));
    let a = session.step(BuildEvent::OutputsListed(names(&[
        "index.html",
        "app.js",
        "app_bg.wasm",
    ])));
    match a {
        BuildAction::ReadArtifacts { markup, script, module } => {
            assert_eq!((markup, script, module), (0, 1, 2));
        }
        other => panic!("expected a read plan, got {:?}", other),
    }
    let a = session.step(BuildEvent::ArtifactsRead {
        index_html: String::from("<html></html>"),
        js: String::from("init()"),
        wasm: vec![0, 97, 115, 109],
    });
    match a {
        BuildAction::Respond(resp) => {
            assert_eq!(resp.status_code(), 200);
            match resp {
                Response::Output { index_html, js, wasm } => {
                    assert!(!index_html.is_empty());
                    assert!(!js.is_empty());
                    assert!(!wasm.is_empty());
                    assert_eq!(index_html, "<html></html>");
                    assert_eq!(js, "init()");
                    assert_eq!(wasm, vec![0, 97, 115, 109]);
                }
                other => panic!("expected artifacts, got {:?}", other),
            }
        }
        other => panic!("expected a response, got {:?}", other),
    }
    assert!(!session.slot_held);
}

#[test]
fn emptied_output_directory_raises_missing_artifact_not_compile_error() {
    let (mut session, _) = BuildSession::begin(String::from("fn main() {}"));
    session.step(BuildEvent::SlotGranted);
    session.step(BuildEvent::WriteDone);
    session.step(BuildEvent::ExecFinished { exit_zero: true, stderr: String::new() });
    let a = session.step(BuildEvent::OutputsListed(Vec::new()));
    match a {
        BuildAction::Fail(e) => {
            assert!(matches!(e, ApiError::BuildFileNotFound(ArtifactKind::Markup)));
            assert_eq!(e.status_code(), 500);
        }
        other => panic!("expected a fatal error, got {:?}", other),
    }
}

#[test]
fn spawn_failure_is_fatal_io_error() {
    let (mut session, _) = BuildSession::begin(String::from("fn main() {}"));
    session.step(BuildEvent::SlotGranted);
    session.step(BuildEvent::WriteDone);
    let a = session.step(BuildEvent::SpawnFailed(String::from("no such binary")));
    match a {
        BuildAction::Fail(e) => {
            assert_eq!(e.status_code(), 500);
            assert_eq!(e.message(), "no such binary");
        }
        other => panic!("expected a fatal error, got {:?}", other),
    }
}

#[test]
fn timed_out_caller_does_not_free_the_slot() {
    let mut admission = Admission::new(1);
    assert!(admission.try_acquire());

    let (mut session, _) = BuildSession::begin(String::from("fn main() { loop {} }"));
    session.step(BuildEvent::SlotGranted);
    session.step(BuildEvent::WriteDone);

    // the caller's deadline elapses mid-build: 408 goes out, the build
    // and its slot stay
    let a = session.step(BuildEvent::CallerTimedOut);
    assert!(matches!(a, BuildAction::ReplyTimeout));
    assert!(session.slot_held);
    assert_eq!(session.phase, BuildPhase::NeedRun);

    // a queued request is delayed accordingly
    assert!(!admission.try_acquire());

    // only the natural end of the build releases the slot
    let a = session.step(BuildEvent::ExecFinished {
        exit_zero: false,
        stderr: String::from("took too long to matter"),
    });
    assert!(matches!(a, BuildAction::Respond(_)));
    assert!(!session.slot_held);
    admission.release();
    assert!(admission.try_acquire());
}

#[test]
fn admission_never_exceeds_capacity() {
    let mut admission = Admission::new(2);
    assert!(admission.try_acquire());
    assert!(admission.try_acquire());
    assert_eq!(admission.in_flight, 2);
    // a burst beyond capacity is queued, not admitted
    assert!(!admission.try_acquire());
    assert!(!admission.try_acquire());
    assert_eq!(admission.in_flight, 2);
    admission.release();
    assert_eq!(admission.in_flight, 1);
    assert!(admission.try_acquire());
    assert!(!admission.try_acquire());
}
