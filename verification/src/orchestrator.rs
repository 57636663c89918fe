//! The build orchestrator, written as a step machine: every decision the
//! gateway takes between receiving source text and producing an outcome
//! is a transition of `BuildSession`, a pure function of the current
//! phase and the event the serving layer reports. The serving layer only
//! performs the returned action (acquire a slot, write the source file,
//! spawn the toolchain, list or read the output directory, send a
//! response) and feeds the observed result back in as the next event.
//!
//! The slot is held from admission until the build has fully completed:
//! the working directory is written, built, and read under mutual
//! exclusion, and a caller-side timeout never releases the slot early.

use vstd::prelude::*;
use vstd::string::*;
use crate::collector::{classify_entries, spec_classify};
use crate::errors::{ApiError, ErrorView};
use crate::outcome::{OutcomeView, Response};

verus! {

/// Where a build session stands.
#[derive(Clone, Copy, Debug, PartialEq, Eq, Structural)]
pub enum BuildPhase {
    /// Admission requested, slot not yet granted.
    AwaitingSlot,
    /// Slot held; the source file must be overwritten next.
    NeedWrite,
    /// Source written; the toolchain must be invoked next.
    NeedRun,
    /// Toolchain exited zero; the output directory must be listed.
    NeedList,
    /// Listing classified; the three artifacts must be read.
    NeedRead,
    /// An outcome or error was produced; the session is over.
    Finished,
}

/// What the serving layer observed and reports to the orchestrator.
#[derive(Debug)]
pub enum BuildEvent {
    /// The admission controller granted this session's slot.
    SlotGranted,
    /// The source file was overwritten in the working directory.
    WriteDone,
    /// The source file could not be written.
    WriteFailed(String),
    /// The toolchain binary could not be spawned.
    SpawnFailed(String),
    /// The toolchain subprocess terminated.
    ExecFinished { exit_zero: bool, stderr: String },
    /// The output directory was listed; these are its entry names.
    OutputsListed(Vec<String>),
    /// The three planned artifact files were read.
    ArtifactsRead { index_html: String, js: String, wasm: Vec<u8> },
    /// Listing or reading the output directory failed.
    ReadFailed(String),
    /// The caller's deadline elapsed while the build was still going.
    CallerTimedOut,
}

/// What the serving layer must do next.
#[derive(Debug)]
pub enum BuildAction {
    /// Request a slot from the admission controller.
    AcquireSlot,
    /// Overwrite the canonical source file with the session's source.
    WriteSource,
    /// Spawn the toolchain against the working directory.
    RunExecutor,
    /// List the entry names of the output directory.
    ListOutputs,
    /// Read the artifacts at these positions of the reported listing.
    ReadArtifacts { markup: usize, script: usize, module: usize },
    /// Answer the caller with this outcome; release the slot if held.
    Respond(Response),
    /// Answer the caller with this error; release the slot if held.
    Fail(ApiError),
    /// Answer the caller 408 now; the build and its slot continue.
    ReplyTimeout,
    /// The event does not apply to the current phase; do nothing.
    Ignore,
}

/// One build request being taken through the orchestration steps.
pub struct BuildSession {
    /// The submitted source text, written verbatim to the working
    /// directory when the slot is granted.
    pub source: String,
    pub phase: BuildPhase,
    /// Whether this session holds the admission slot.
    pub slot_held: bool,
    /// Whether the caller was already answered with a timeout.
    pub timed_out: bool,
}

/// Opening a session: an empty submission is rejected before any slot is
/// requested or any subprocess invoked; anything else requests admission.
pub open spec fn spec_begin(source: String) -> (BuildSession, BuildAction) {
    if source@.len() == 0 {
        (
            BuildSession {
                source,
                phase: BuildPhase::Finished,
                slot_held: false,
                timed_out: false,
            },
            BuildAction::Fail(ApiError::NoBody),
        )
    } else {
        (
            BuildSession {
                source,
                phase: BuildPhase::AwaitingSlot,
                slot_held: false,
                timed_out: false,
            },
            BuildAction::AcquireSlot,
        )
    }
}

/// One orchestration transition: the entire decision logic of a build.
pub open spec fn spec_step(s: BuildSession, e: BuildEvent) -> (BuildSession, BuildAction) {
    match e {
        BuildEvent::CallerTimedOut => {
            if s.phase == BuildPhase::Finished {
                (s, BuildAction::Ignore)
            } else {
                (
                    BuildSession { timed_out: true, ..s },
                    BuildAction::ReplyTimeout,
                )
            }
        },
        BuildEvent::SlotGranted => {
            if s.phase == BuildPhase::AwaitingSlot {
                (
                    BuildSession { phase: BuildPhase::NeedWrite, slot_held: true, ..s },
                    BuildAction::WriteSource,
                )
            } else {
                (s, BuildAction::Ignore)
            }
        },
        BuildEvent::WriteDone => {
            if s.phase == BuildPhase::NeedWrite {
                (BuildSession { phase: BuildPhase::NeedRun, ..s }, BuildAction::RunExecutor)
            } else {
                (s, BuildAction::Ignore)
            }
        },
        BuildEvent::WriteFailed(reason) => {
            if s.phase == BuildPhase::NeedWrite {
                (
                    BuildSession { phase: BuildPhase::Finished, slot_held: false, ..s },
                    BuildAction::Fail(ApiError::IoError(reason)),
                )
            } else {
                (s, BuildAction::Ignore)
            }
        },
        BuildEvent::SpawnFailed(reason) => {
            if s.phase == BuildPhase::NeedRun {
                (
                    BuildSession { phase: BuildPhase::Finished, slot_held: false, ..s },
                    BuildAction::Fail(ApiError::IoError(reason)),
                )
            } else {
                (s, BuildAction::Ignore)
            }
        },
        BuildEvent::ExecFinished { exit_zero, stderr } => {
            if s.phase == BuildPhase::NeedRun {
                if exit_zero {
                    (
                        BuildSession { phase: BuildPhase::NeedList, ..s },
                        BuildAction::ListOutputs,
                    )
                } else {
                    (
                        BuildSession { phase: BuildPhase::Finished, slot_held: false, ..s },
                        BuildAction::Respond(Response::CompileError(stderr)),
                    )
                }
            } else {
                (s, BuildAction::Ignore)
            }
        },
        BuildEvent::OutputsListed(names) => {
            if s.phase == BuildPhase::NeedList {
                match spec_classify(names.deep_view()) {
                    Result::Ok(plan) => (
                        BuildSession { phase: BuildPhase::NeedRead, ..s },
                        BuildAction::ReadArtifacts {
                            markup: plan.0 as usize,
                            script: plan.1 as usize,
                            module: plan.2 as usize,
                        },
                    ),
                    Result::Err(kind) => (
                        BuildSession { phase: BuildPhase::Finished, slot_held: false, ..s },
                        BuildAction::Fail(ApiError::BuildFileNotFound(kind)),
                    ),
                }
            } else {
                (s, BuildAction::Ignore)
            }
        },
        BuildEvent::ArtifactsRead { index_html, js, wasm } => {
            if s.phase == BuildPhase::NeedRead {
                (
                    BuildSession { phase: BuildPhase::Finished, slot_held: false, ..s },
                    BuildAction::Respond(Response::Output { index_html, js, wasm }),
                )
            } else {
                (s, BuildAction::Ignore)
            }
        },
        BuildEvent::ReadFailed(reason) => {
            if s.phase == BuildPhase::NeedList || s.phase == BuildPhase::NeedRead {
                (
                    BuildSession { phase: BuildPhase::Finished, slot_held: false, ..s },
                    BuildAction::Fail(ApiError::IoError(reason)),
                )
            } else {
                (s, BuildAction::Ignore)
            }
        },
    }
}

impl BuildSession {
    /// Opens a session for one submission. Rejects an empty body with
    /// `NoBody` before requesting admission or touching the toolchain.
    pub fn begin(source: String) -> (r: (BuildSession, BuildAction))
        ensures
            r == spec_begin(source),
    {
        if source.as_str().unicode_len() == 0 {
            (
                BuildSession {
                    source,
                    phase: BuildPhase::Finished,
                    slot_held: false,
                    timed_out: false,
                },
                BuildAction::Fail(ApiError::NoBody),
            )
        } else {
            (
                BuildSession {
                    source,
                    phase: BuildPhase::AwaitingSlot,
                    slot_held: false,
                    timed_out: false,
                },
                BuildAction::AcquireSlot,
            )
        }
    }

    /// Takes the session through one transition of `spec_step`.
    pub fn step(&mut self, event: BuildEvent) -> (a: BuildAction)
        ensures
            ({
                let r = spec_step(*old(self), event);
                *final(self) == r.0 && a == r.1
            }),
    {
        match event {
            BuildEvent::CallerTimedOut => {
                if self.phase == BuildPhase::Finished {
                    BuildAction::Ignore
                } else {
                    self.timed_out = true;
                    BuildAction::ReplyTimeout
                }
            },
            BuildEvent::SlotGranted => {
                if self.phase == BuildPhase::AwaitingSlot {
                    self.phase = BuildPhase::NeedWrite;
                    self.slot_held = true;
                    BuildAction::WriteSource
                } else {
                    BuildAction::Ignore
                }
            },
            BuildEvent::WriteDone => {
                if self.phase == BuildPhase::NeedWrite {
                    self.phase = BuildPhase::NeedRun;
                    BuildAction::RunExecutor
                } else {
                    BuildAction::Ignore
                }
            },
            BuildEvent::WriteFailed(reason) => {
                if self.phase == BuildPhase::NeedWrite {
                    self.phase = BuildPhase::Finished;
                    self.slot_held = false;
                    BuildAction::Fail(ApiError::IoError(reason))
                } else {
                    BuildAction::Ignore
                }
            },
            BuildEvent::SpawnFailed(reason) => {
                if self.phase == BuildPhase::NeedRun {
                    self.phase = BuildPhase::Finished;
                    self.slot_held = false;
                    BuildAction::Fail(ApiError::IoError(reason))
                } else {
                    BuildAction::Ignore
                }
            },
            BuildEvent::ExecFinished { exit_zero, stderr } => {
                if self.phase == BuildPhase::NeedRun {
                    if exit_zero {
                        self.phase = BuildPhase::NeedList;
                        BuildAction::ListOutputs
                    } else {
                        self.phase = BuildPhase::Finished;
                        self.slot_held = false;
                        BuildAction::Respond(Response::CompileError(stderr))
                    }
                } else {
                    BuildAction::Ignore
                }
            },
            BuildEvent::OutputsListed(names) => {
                if self.phase == BuildPhase::NeedList {
                    match classify_entries(&names) {
                        Result::Ok(plan) => {
                            self.phase = BuildPhase::NeedRead;
                            BuildAction::ReadArtifacts {
                                markup: plan.0,
                                script: plan.1,
                                module: plan.2,
                            }
                        },
                        Result::Err(e) => {
                            self.phase = BuildPhase::Finished;
                            self.slot_held = false;
                            BuildAction::Fail(e)
                        },
                    }
                } else {
                    BuildAction::Ignore
                }
            },
            BuildEvent::ArtifactsRead { index_html, js, wasm } => {
                if self.phase == BuildPhase::NeedRead {
                    self.phase = BuildPhase::Finished;
                    self.slot_held = false;
                    BuildAction::Respond(Response::Output { index_html, js, wasm })
                } else {
                    BuildAction::Ignore
                }
            },
            BuildEvent::ReadFailed(reason) => {
                if self.phase == BuildPhase::NeedList || self.phase == BuildPhase::NeedRead {
                    self.phase = BuildPhase::Finished;
                    self.slot_held = false;
                    BuildAction::Fail(ApiError::IoError(reason))
                } else {
                    BuildAction::Ignore
                }
            },
        }
    }
}

/// The session and actions that result from feeding `events` one by one.
pub open spec fn spec_run(s: BuildSession, events: Seq<BuildEvent>) -> (
    BuildSession,
    Seq<BuildAction>,
)
    decreases events.len(),
{
    if events.len() == 0 {
        (s, Seq::empty())
    } else {
        let first = spec_step(s, events[0]);
        let rest = spec_run(first.0, events.skip(1));
        (rest.0, seq![first.1] + rest.1)
    }
}

/// A run answers one action per event.
pub proof fn lemma_run_len(s: BuildSession, events: Seq<BuildEvent>)
    ensures
        spec_run(s, events).1.len() == events.len(),
    decreases events.len(),
{
    if events.len() > 0 {
        lemma_run_len(spec_step(s, events[0]).0, events.skip(1));
    }
}

/// A finished session never acts again: every further event is ignored.
pub proof fn lemma_finished_is_inert(s: BuildSession, e: BuildEvent)
    requires
        s.phase == BuildPhase::Finished,
    ensures
        spec_step(s, e).0.phase == BuildPhase::Finished,
        spec_step(s, e).1 == BuildAction::Ignore,
{
}

proof fn lemma_finished_never_runs(s: BuildSession, events: Seq<BuildEvent>)
    requires
        s.phase == BuildPhase::Finished,
    ensures
        forall|k: int|
            0 <= k < events.len() ==> spec_run(s, events).1[k] != BuildAction::RunExecutor,
    decreases events.len(),
{
    if events.len() > 0 {
        lemma_finished_is_inert(s, events[0]);
        let next = spec_step(s, events[0]).0;
        lemma_finished_never_runs(next, events.skip(1));
        lemma_run_len(s, events);
        lemma_run_len(next, events.skip(1));
        assert forall|k: int| 0 <= k < events.len() implies spec_run(s, events).1[k]
            != BuildAction::RunExecutor by {
            if k > 0 {
                assert(spec_run(s, events).1[k] == spec_run(next, events.skip(1)).1[k - 1]);
            }
        }
    }
}

/// Law: an empty submission is answered `NoBody` up front, and no later
/// event can ever make the session invoke the executor.
pub proof fn lemma_empty_source_never_runs(source: String, events: Seq<BuildEvent>)
    requires
        source@.len() == 0,
    ensures
        spec_begin(source).1 == BuildAction::Fail(ApiError::NoBody),
        forall|k: int|
            0 <= k < events.len() ==> spec_run(spec_begin(source).0, events).1[k]
                != BuildAction::RunExecutor,
{
    lemma_finished_never_runs(spec_begin(source).0, events);
}

/// Law: a caller-side timeout is answered with a timeout reply, but the
/// session keeps its phase and its admission slot; the build goes on.
pub proof fn lemma_timeout_keeps_slot(s: BuildSession)
    requires
        s.phase != BuildPhase::Finished,
    ensures
        spec_step(s, BuildEvent::CallerTimedOut).0.slot_held == s.slot_held,
        spec_step(s, BuildEvent::CallerTimedOut).0.phase == s.phase,
        spec_step(s, BuildEvent::CallerTimedOut).1 == BuildAction::ReplyTimeout,
{
}

/// Law: a held slot is given up only when the session finishes with an
/// outcome or an error — never by a timeout or an intermediate step.
pub proof fn lemma_release_only_at_completion(s: BuildSession, e: BuildEvent)
    requires
        s.slot_held,
    ensures
        ({
            let r = spec_step(s, e);
            !r.0.slot_held ==> (r.1 matches BuildAction::Respond(_) || r.1
                matches BuildAction::Fail(_)) && r.0.phase == BuildPhase::Finished
        }),
{
}

/// How the toolchain behaves on one build, determined by the source the
/// working directory holds when it runs (the collaborator contract of
/// the external toolchain).
pub struct ToolRun {
    /// Whether the toolchain exited zero.
    pub exit_zero: bool,
    /// What it wrote to its error stream.
    pub stderr: Seq<char>,
    /// The entry names it left in the output directory.
    pub names: Seq<Seq<char>>,
    /// The contents of the three artifacts it left there.
    pub markup: Seq<char>,
    pub script: Seq<char>,
    pub module: Seq<u8>,
}

/// The outcome the orchestration steps produce for one source, given how
/// the toolchain behaves on it.
pub open spec fn spec_outcome(source: Seq<char>, run: ToolRun) -> Result<
    OutcomeView,
    ErrorView,
> {
    if source.len() == 0 {
        Result::Err(ErrorView::NoBody)
    } else if !run.exit_zero {
        Result::Ok(OutcomeView::CompileError { diagnostic: run.stderr })
    } else {
        match spec_classify(run.names) {
            Result::Err(kind) => Result::Err(ErrorView::BuildFileNotFound { kind }),
            Result::Ok(_) => Result::Ok(
                OutcomeView::Output {
                    index_html: run.markup,
                    js: run.script,
                    wasm: run.module,
                },
            ),
        }
    }
}

/// Law: when the toolchain exited zero but an expected artifact is
/// missing, the orchestrator raises `BuildFileNotFound` — never
/// `CompileError`, whatever else the run produced.
pub proof fn lemma_missing_artifact_is_never_compile_error(source: Seq<char>, run: ToolRun)
    requires
        run.exit_zero,
    ensures
        spec_outcome(source, run) matches Result::Ok(o) ==> !(o is CompileError),
        source.len() > 0 && spec_classify(run.names) is Err ==> (spec_outcome(source, run)
            matches Result::Err(e) && e matches ErrorView::BuildFileNotFound { .. }),
{
}

/// The outcomes of builds run one after the other under a single
/// admission slot: each executor invocation sees exactly the source its
/// own request wrote, so its outcome is a function of that source alone.
pub open spec fn spec_serial_outcomes(
    toolchain: spec_fn(Seq<char>) -> ToolRun,
    sources: Seq<Seq<char>>,
) -> Seq<Result<OutcomeView, ErrorView>> {
    sources.map_values(|src: Seq<char>| spec_outcome(src, toolchain(src)))
}

/// Law: with capacity one, responses are never cross-contaminated — the
/// outcome at position `i` depends on the source at position `i` alone,
/// however the surrounding requests change.
pub proof fn lemma_no_cross_contamination(
    toolchain: spec_fn(Seq<char>) -> ToolRun,
    a: Seq<Seq<char>>,
    b: Seq<Seq<char>>,
    i: int,
)
    requires
        0 <= i < a.len(),
        0 <= i < b.len(),
        a[i] == b[i],
    ensures
        spec_serial_outcomes(toolchain, a)[i] == spec_serial_outcomes(toolchain, b)[i],
{
}

/// The events the serving layer reports for one admitted build whose
/// toolchain run behaves as `run`.
pub open spec fn spec_toolchain_events(
    stderr: String,
    names: Vec<String>,
    index_html: String,
    js: String,
    wasm: Vec<u8>,
    run: ToolRun,
) -> Seq<BuildEvent> {
    if !run.exit_zero {
        seq![
            BuildEvent::SlotGranted,
            BuildEvent::WriteDone,
            BuildEvent::ExecFinished { exit_zero: run.exit_zero, stderr },
        ]
    } else if spec_classify(names.deep_view()) is Err {
        seq![
            BuildEvent::SlotGranted,
            BuildEvent::WriteDone,
            BuildEvent::ExecFinished { exit_zero: run.exit_zero, stderr },
            BuildEvent::OutputsListed(names),
        ]
    } else {
        seq![
            BuildEvent::SlotGranted,
            BuildEvent::WriteDone,
            BuildEvent::ExecFinished { exit_zero: run.exit_zero, stderr },
            BuildEvent::OutputsListed(names),
            BuildEvent::ArtifactsRead { index_html, js, wasm },
        ]
    }
}

/// Law: driven by the events of its own toolchain run, the session
/// machine answers exactly the modelled outcome of its own source.
pub proof fn lemma_session_follows_toolchain(
    source: String,
    stderr: String,
    names: Vec<String>,
    index_html: String,
    js: String,
    wasm: Vec<u8>,
    run: ToolRun,
)
    requires
        source@.len() > 0,
        stderr@ == run.stderr,
        names.deep_view() == run.names,
        index_html@ == run.markup,
        js@ == run.script,
        wasm@ == run.module,
    ensures
        ({
            let s0 = spec_begin(source).0;
            let events = spec_toolchain_events(stderr, names, index_html, js, wasm, run);
            let acts = spec_run(s0, events).1;
            &&& acts.len() == events.len()
            &&& match acts.last() {
                BuildAction::Respond(resp) => spec_outcome(source@, run) == Result::<
                    OutcomeView,
                    ErrorView,
                >::Ok(resp@),
                BuildAction::Fail(err) => spec_outcome(source@, run) == Result::<
                    OutcomeView,
                    ErrorView,
                >::Err(err@),
                _ => false,
            }
        }),
{
    let s0 = spec_begin(source).0;
    let events = spec_toolchain_events(stderr, names, index_html, js, wasm, run);
    let e3 = BuildEvent::ExecFinished { exit_zero: run.exit_zero, stderr };
    let s1 = spec_step(s0, BuildEvent::SlotGranted).0;
    let s2 = spec_step(s1, BuildEvent::WriteDone).0;
    let s3 = spec_step(s2, e3).0;
    if !run.exit_zero {
        let tail1 = events.skip(1);
        let tail2 = tail1.skip(1);
        let tail3 = tail2.skip(1);
        assert(tail1 =~= seq![BuildEvent::WriteDone, e3]);
        assert(tail2 =~= seq![e3]);
        assert(tail3 =~= Seq::<BuildEvent>::empty());
        assert(spec_run(s0, events).1 == seq![spec_step(s0, BuildEvent::SlotGranted).1]
            + spec_run(s1, tail1).1);
        assert(spec_run(s1, tail1).1 == seq![spec_step(s1, BuildEvent::WriteDone).1]
            + spec_run(s2, tail2).1);
        assert(spec_run(s2, tail2).1 == seq![spec_step(s2, e3).1] + spec_run(s3, tail3).1);
        assert(spec_run(s3, tail3).1 =~= Seq::<BuildAction>::empty());
        assert(spec_run(s0, events).1 =~= seq![
            spec_step(s0, BuildEvent::SlotGranted).1,
            spec_step(s1, BuildEvent::WriteDone).1,
            spec_step(s2, e3).1,
        ]);
    } else if spec_classify(names.deep_view()) is Err {
        let e4 = BuildEvent::OutputsListed(names);
        let s4 = spec_step(s3, e4).0;
        let tail1 = events.skip(1);
        let tail2 = tail1.skip(1);
        let tail3 = tail2.skip(1);
        let tail4 = tail3.skip(1);
        assert(tail1 =~= seq![BuildEvent::WriteDone, e3, e4]);
        assert(tail2 =~= seq![e3, e4]);
        assert(tail3 =~= seq![e4]);
        assert(tail4 =~= Seq::<BuildEvent>::empty());
        assert(spec_run(s0, events).1 == seq![spec_step(s0, BuildEvent::SlotGranted).1]
            + spec_run(s1, tail1).1);
        assert(spec_run(s1, tail1).1 == seq![spec_step(s1, BuildEvent::WriteDone).1]
            + spec_run(s2, tail2).1);
        assert(spec_run(s2, tail2).1 == seq![spec_step(s2, e3).1] + spec_run(s3, tail3).1);
        assert(spec_run(s3, tail3).1 == seq![spec_step(s3, e4).1] + spec_run(s4, tail4).1);
        assert(spec_run(s4, tail4).1 =~= Seq::<BuildAction>::empty());
        assert(spec_run(s0, events).1 =~= seq![
            spec_step(s0, BuildEvent::SlotGranted).1,
            spec_step(s1, BuildEvent::WriteDone).1,
            spec_step(s2, e3).1,
            spec_step(s3, e4).1,
        ]);
    } else {
        let e4 = BuildEvent::OutputsListed(names);
        let e5 = BuildEvent::ArtifactsRead { index_html, js, wasm };
        let s4 = spec_step(s3, e4).0;
        let s5 = spec_step(s4, e5).0;
        let tail1 = events.skip(1);
        let tail2 = tail1.skip(1);
        let tail3 = tail2.skip(1);
        let tail4 = tail3.skip(1);
        let tail5 = tail4.skip(1);
        assert(tail1 =~= seq![BuildEvent::WriteDone, e3, e4, e5]);
        assert(tail2 =~= seq![e3, e4, e5]);
        assert(tail3 =~= seq![e4, e5]);
        assert(tail4 =~= seq![e5]);
        assert(tail5 =~= Seq::<BuildEvent>::empty());
        assert(spec_run(s0, events).1 == seq![spec_step(s0, BuildEvent::SlotGranted).1]
            + spec_run(s1, tail1).1);
        assert(spec_run(s1, tail1).1 == seq![spec_step(s1, BuildEvent::WriteDone).1]
            + spec_run(s2, tail2).1);
        assert(spec_run(s2, tail2).1 == seq![spec_step(s2, e3).1] + spec_run(s3, tail3).1);
        assert(spec_run(s3, tail3).1 == seq![spec_step(s3, e4).1] + spec_run(s4, tail4).1);
        assert(spec_run(s4, tail4).1 == seq![spec_step(s4, e5).1] + spec_run(s5, tail5).1);
        assert(spec_run(s5, tail5).1 =~= Seq::<BuildAction>::empty());
        assert(spec_run(s0, events).1 =~= seq![
            spec_step(s0, BuildEvent::SlotGranted).1,
            spec_step(s1, BuildEvent::WriteDone).1,
            spec_step(s2, e3).1,
            spec_step(s3, e4).1,
            spec_step(s4, e5).1,
        ]);
    }
}

} // verus!
