//! The driver of one run, as a state machine.
//!
//! The caller performs the action that the machine asks for and hands back
//! what happened as an [`Event`]; the machine answers with the next action.
//! It decides the order of the steps, which failure is reported, which
//! progress lines are written, and that whatever was acquired is released
//! before the run ends.

use vstd::prelude::*;
use vstd::string::*;
use crate::failure::{
    check_content, content_verdict, expected_content, failure_opt_view, verdict_view, Failure,
    FailureView,
};
use crate::probe::PROBE_TIMEOUT_SECS;
use crate::teardown::Unmount;

verus! {

/// Where a run stands: the request that the machine waits to hear about.
#[derive(Clone, Copy, Debug, PartialEq, Eq, Structural)]
pub enum Phase {
    /// Waiting for the temporary mount directory.
    MakingDir,
    /// Waiting for the example to be built.
    Building,
    /// Waiting for the example process to be launched.
    Spawning,
    /// Waiting for the mount-ready probe.
    AwaitingMount,
    /// Waiting for the file-appears probe.
    AwaitingFile,
    /// Waiting for the child to be killed and the mount released.
    TearingDown,
    /// Waiting for the mount directory to be removed.
    RemovingDir,
    /// The run is over.
    Finished,
}

/// A line that the caller writes to standard error.
#[derive(Clone, Copy, Debug, PartialEq, Eq, Structural)]
pub enum Note {
    /// The filesystem is about to be started.
    Starting,
    /// The served content is the expected one.
    ContentOk,
    /// The whole run passed.
    AllPassed,
}

/// The text of a note.
pub open spec fn note_text(note: Note) -> Seq<char> {
    match note {
        Note::Starting => "Starting hello filesystem..."@,
        Note::ContentOk => "OK with macFUSE"@,
        Note::AllPassed => "All macOS mount tests passed!"@,
    }
}

impl Note {
    /// The line to write.
    pub fn text(self) -> (line: String)
        ensures
            line@ == note_text(self),
    {
        match self {
            Note::Starting => String::from_str("Starting hello filesystem..."),
            Note::ContentOk => String::from_str("OK with macFUSE"),
            Note::AllPassed => String::from_str("All macOS mount tests passed!"),
        }
    }

    /// Whether the line marks a success and is written emphasised.
    pub fn is_success_marker(self) -> (marker: bool)
        ensures
            marker == (self != Note::Starting),
    {
        match self {
            Note::Starting => false,
            Note::ContentOk => true,
            Note::AllPassed => true,
        }
    }
}

/// What the caller reports back after performing an action.
#[derive(Clone, Debug, PartialEq, Eq)]
pub enum Event {
    /// The mount directory exists; `path` is its path where that is text.
    DirCreated { path: Option<String> },
    /// The mount directory could not be created.
    DirFailed,
    /// The example was built; `exe` is the executable's path.
    Built { exe: String },
    /// The build tool reported failure.
    BuildFailed,
    /// The child process runs, and is killed when its handle is dropped.
    Spawned,
    /// The child process could not be launched.
    SpawnFailed,
    /// The mount-ready probe saw the identifier.
    MountReady,
    /// The file-appears probe read this content.
    FileContent(String),
    /// The probe that was running ended with this failure.
    ProbeFailed(Failure),
    /// Teardown is over and the child's handle is gone. `killed` says
    /// whether the kill reported success, `released` whether the mount
    /// point was released.
    TornDown { killed: bool, released: bool },
    /// The mount directory is gone.
    DirRemoved,
}

/// The mathematical value of an [`Event`].
pub enum EventView {
    DirCreated { path: Option<Seq<char>> },
    DirFailed,
    Built { exe: Seq<char> },
    BuildFailed,
    Spawned,
    SpawnFailed,
    MountReady,
    FileContent(Seq<char>),
    ProbeFailed(FailureView),
    TornDown { killed: bool, released: bool },
    DirRemoved,
}

impl View for Event {
    type V = EventView;

    open spec fn view(&self) -> EventView {
        match *self {
            Event::DirCreated { path } => EventView::DirCreated {
                path: match path {
                    Some(p) => Some(p@),
                    None => None,
                },
            },
            Event::DirFailed => EventView::DirFailed,
            Event::Built { exe } => EventView::Built { exe: exe@ },
            Event::BuildFailed => EventView::BuildFailed,
            Event::Spawned => EventView::Spawned,
            Event::SpawnFailed => EventView::SpawnFailed,
            Event::MountReady => EventView::MountReady,
            Event::FileContent(text) => EventView::FileContent(text@),
            Event::ProbeFailed(f) => EventView::ProbeFailed(f@),
            Event::TornDown { killed, released } => EventView::TornDown { killed, released },
            Event::DirRemoved => EventView::DirRemoved,
        }
    }
}

/// What the machine asks the caller to do next.
#[derive(Debug, PartialEq, Eq)]
pub enum Action {
    /// Create a fresh temporary directory to mount on.
    CreateMountDir,
    /// Build the named example.
    Build { example: String },
    /// Launch `exe` with `mount_path` as its only argument, killed on drop.
    Spawn { exe: String, mount_path: String },
    /// Run the mount-ready probe for `device`.
    AwaitMount { device: String, timeout_secs: u64 },
    /// Run the file-appears probe on `path`.
    AwaitFile { path: String, timeout_secs: u64 },
    /// Kill the child and release the mount.
    Teardown { mode: Unmount, label: String, mount_path: String, context: String },
    /// Remove the mount directory.
    RemoveMountDir,
    /// Return this result.
    Finish(Result<(), Failure>),
}

/// The mathematical value of an [`Action`].
pub enum ActionView {
    CreateMountDir,
    Build { example: Seq<char> },
    Spawn { exe: Seq<char>, mount_path: Seq<char> },
    AwaitMount { device: Seq<char>, timeout_secs: u64 },
    AwaitFile { path: Seq<char>, timeout_secs: u64 },
    Teardown { mode: Unmount, label: Seq<char>, mount_path: Seq<char>, context: Seq<char> },
    RemoveMountDir,
    Finish(Result<(), FailureView>),
}

impl View for Action {
    type V = ActionView;

    open spec fn view(&self) -> ActionView {
        match *self {
            Action::CreateMountDir => ActionView::CreateMountDir,
            Action::Build { example } => ActionView::Build { example: example@ },
            Action::Spawn { exe, mount_path } => ActionView::Spawn {
                exe: exe@,
                mount_path: mount_path@,
            },
            Action::AwaitMount { device, timeout_secs } => ActionView::AwaitMount {
                device: device@,
                timeout_secs,
            },
            Action::AwaitFile { path, timeout_secs } => ActionView::AwaitFile {
                path: path@,
                timeout_secs,
            },
            Action::Teardown { mode, label, mount_path, context } => ActionView::Teardown {
                mode,
                label: label@,
                mount_path: mount_path@,
                context: context@,
            },
            Action::RemoveMountDir => ActionView::RemoveMountDir,
            Action::Finish(verdict) => ActionView::Finish(verdict_view(verdict)),
        }
    }
}

/// One answer of the machine: a line to write, if any, then the action.
#[derive(Debug, PartialEq, Eq)]
pub struct Step {
    pub note: Option<Note>,
    pub action: Action,
}

/// The mathematical value of a [`Step`].
pub struct StepView {
    pub note: Option<Note>,
    pub action: ActionView,
}

impl View for Step {
    type V = StepView;

    open spec fn view(&self) -> StepView {
        StepView { note: self.note, action: self.action@ }
    }
}

/// The view of an optional step.
pub open spec fn step_opt_view(step: Option<Step>) -> Option<StepView> {
    match step {
        Some(s) => Some(s@),
        None => None,
    }
}

/// The state of a run.
#[derive(Debug)]
pub struct Harness {
    phase: Phase,
    mount_path: String,
    dir_held: bool,
    child_held: bool,
    unmounted: bool,
    failure: Option<Failure>,
}

/// The mathematical value of a [`Harness`].
pub struct HarnessView {
    /// The request that is pending.
    pub phase: Phase,
    /// The mount directory's path, once known.
    pub mount_path: Seq<char>,
    /// The mount directory exists and is the run's to remove.
    pub dir_held: bool,
    /// The child process was launched and its handle is still held.
    pub child_held: bool,
    /// Teardown reported both the kill and the release of the mount as done.
    pub unmounted: bool,
    /// The first failure of the run, if any.
    pub failure: Option<FailureView>,
}

/// The example that the harness builds and runs.
pub open spec fn example_name() -> Seq<char> {
    "hello"@
}

/// The path of the served file below the mount point.
pub open spec fn served_path(mount_path: Seq<char>) -> Seq<char> {
    mount_path + "/hello.txt"@
}

/// The teardown request of this harness for the mount at `mount_path`.
pub open spec fn teardown_request(mount_path: Seq<char>) -> ActionView {
    ActionView::Teardown {
        mode: Unmount::Manual,
        label: "hello"@,
        mount_path,
        context: "with macFUSE"@,
    }
}

/// The state before anything was done: the mount directory is requested.
pub open spec fn initial() -> HarnessView {
    HarnessView {
        phase: Phase::MakingDir,
        mount_path: Seq::<char>::empty(),
        dir_held: false,
        child_held: false,
        unmounted: false,
        failure: None,
    }
}

/// The result that a run in state `v` returns.
pub open spec fn outcome(v: HarnessView) -> Result<(), FailureView> {
    match v.failure {
        Some(f) => Err(f),
        None => Ok(()),
    }
}

/// The state and the answer after a failure while the child runs: the
/// failure is kept and teardown is requested.
pub open spec fn fail_with_child(pre: HarnessView, f: FailureView) -> (HarnessView, Option<
    StepView,
>) {
    (
        HarnessView { phase: Phase::TearingDown, failure: Some(f), ..pre },
        Some(StepView { note: None, action: teardown_request(pre.mount_path) }),
    )
}

/// The state and the answer after a failure while only the directory is
/// held: the failure is kept and the directory's removal is requested.
pub open spec fn fail_with_dir(pre: HarnessView, f: FailureView) -> (HarnessView, Option<
    StepView,
>) {
    (
        HarnessView { phase: Phase::RemovingDir, failure: Some(f), ..pre },
        Some(StepView { note: None, action: ActionView::RemoveMountDir }),
    )
}

/// The transition of the machine. An event that does not answer the pending
/// request changes nothing and gets no answer.
pub open spec fn next(pre: HarnessView, event: EventView) -> (HarnessView, Option<StepView>) {
    match (pre.phase, event) {
        (Phase::MakingDir, EventView::DirCreated { path: Some(p) }) => (
            HarnessView { phase: Phase::Building, mount_path: p, dir_held: true, ..pre },
            Some(StepView { note: None, action: ActionView::Build { example: example_name() } }),
        ),
        (Phase::MakingDir, EventView::DirCreated { path: None }) => fail_with_dir(
            HarnessView { dir_held: true, ..pre },
            FailureView::MountPath,
        ),
        (Phase::MakingDir, EventView::DirFailed) => (
            HarnessView { phase: Phase::Finished, failure: Some(FailureView::CreateDir), ..pre },
            Some(
                StepView {
                    note: None,
                    action: ActionView::Finish(Err(FailureView::CreateDir)),
                },
            ),
        ),
        (Phase::Building, EventView::Built { exe }) => (
            HarnessView { phase: Phase::Spawning, ..pre },
            Some(
                StepView {
                    note: Some(Note::Starting),
                    action: ActionView::Spawn { exe, mount_path: pre.mount_path },
                },
            ),
        ),
        (Phase::Building, EventView::BuildFailed) => fail_with_dir(pre, FailureView::Build),
        (Phase::Spawning, EventView::Spawned) => (
            HarnessView { phase: Phase::AwaitingMount, child_held: true, ..pre },
            Some(
                StepView {
                    note: None,
                    action: ActionView::AwaitMount {
                        device: example_name(),
                        timeout_secs: PROBE_TIMEOUT_SECS,
                    },
                },
            ),
        ),
        (Phase::Spawning, EventView::SpawnFailed) => fail_with_dir(pre, FailureView::Spawn),
        (Phase::AwaitingMount, EventView::MountReady) => (
            HarnessView { phase: Phase::AwaitingFile, ..pre },
            Some(
                StepView {
                    note: None,
                    action: ActionView::AwaitFile {
                        path: served_path(pre.mount_path),
                        timeout_secs: PROBE_TIMEOUT_SECS,
                    },
                },
            ),
        ),
        (Phase::AwaitingMount, EventView::ProbeFailed(f)) => fail_with_child(pre, f),
        (Phase::AwaitingFile, EventView::FileContent(text)) => match content_verdict(text) {
            Ok(()) => (
                HarnessView { phase: Phase::TearingDown, ..pre },
                Some(
                    StepView {
                        note: Some(Note::ContentOk),
                        action: teardown_request(pre.mount_path),
                    },
                ),
            ),
            Err(f) => fail_with_child(pre, f),
        },
        (Phase::AwaitingFile, EventView::ProbeFailed(f)) => fail_with_child(pre, f),
        (Phase::TearingDown, EventView::TornDown { killed, released }) => (
            HarnessView {
                phase: Phase::RemovingDir,
                child_held: false,
                unmounted: killed && released,
                failure: if pre.failure is None && !(killed && released) {
                    Some(FailureView::Teardown)
                } else {
                    pre.failure
                },
                ..pre
            },
            Some(
                StepView {
                    note: if pre.failure is None && killed && released {
                        Some(Note::AllPassed)
                    } else {
                        None
                    },
                    action: ActionView::RemoveMountDir,
                },
            ),
        ),
        (Phase::RemovingDir, EventView::DirRemoved) => (
            HarnessView { phase: Phase::Finished, dir_held: false, ..pre },
            Some(StepView { note: None, action: ActionView::Finish(outcome(pre)) }),
        ),
        _ => (pre, None),
    }
}

/// Whether the child's handle is held in this phase.
pub open spec fn child_phase(phase: Phase) -> bool {
    phase == Phase::AwaitingMount || phase == Phase::AwaitingFile || phase == Phase::TearingDown
}

/// Whether the mount directory is held in this phase.
pub open spec fn dir_phase(phase: Phase) -> bool {
    phase != Phase::MakingDir && phase != Phase::Finished
}

/// How far a run has come: the number of its phase in the order of the steps.
pub open spec fn rank(phase: Phase) -> nat {
    match phase {
        Phase::MakingDir => 0,
        Phase::Building => 1,
        Phase::Spawning => 2,
        Phase::AwaitingMount => 3,
        Phase::AwaitingFile => 4,
        Phase::TearingDown => 5,
        Phase::RemovingDir => 6,
        Phase::Finished => 7,
    }
}

impl HarnessView {
    /// What holds of every state that a run can reach: the child lives only
    /// between launch and teardown, and only while the mount directory
    /// exists; no failure is on record while the run still goes forward; a
    /// run that ends well has had its mount released.
    pub open spec fn inv(self) -> bool {
        &&& self.child_held == child_phase(self.phase)
        &&& self.dir_held == dir_phase(self.phase)
        &&& rank(self.phase) <= 4 ==> self.failure is None
        &&& rank(self.phase) >= 6 && self.failure is None ==> self.unmounted
    }
}

impl View for Harness {
    type V = HarnessView;

    closed spec fn view(&self) -> HarnessView {
        HarnessView {
            phase: self.phase,
            mount_path: self.mount_path@,
            dir_held: self.dir_held,
            child_held: self.child_held,
            unmounted: self.unmounted,
            failure: failure_opt_view(self.failure),
        }
    }
}

/// The path of the served file below `mount_path`.
pub fn hello_path(mount_path: &str) -> (path: String)
    ensures
        path@ == served_path(mount_path@),
{
    String::from_str(mount_path).concat("/hello.txt")
}

impl Harness {
    /// A new run, and its first request: the mount directory.
    pub fn start() -> (begin: (Harness, Step))
        ensures
            begin.0@ == initial(),
            begin.0@.inv(),
            begin.1@ == (StepView { note: None, action: ActionView::CreateMountDir }),
    {
        let harness = Harness {
            phase: Phase::MakingDir,
            mount_path: String::new(),
            dir_held: false,
            child_held: false,
            unmounted: false,
            failure: None,
        };
        (harness, Step { note: None, action: Action::CreateMountDir })
    }

    /// The request that is pending.
    pub fn phase(&self) -> (phase: Phase)
        ensures
            phase == self@.phase,
    {
        self.phase
    }

    /// Whether the run is over.
    pub fn is_finished(&self) -> (over: bool)
        ensures
            over == (self@.phase == Phase::Finished),
    {
        match self.phase {
            Phase::Finished => true,
            _ => false,
        }
    }

    /// Whether the mount directory exists and is still to be removed.
    pub fn holds_dir(&self) -> (held: bool)
        ensures
            held == self@.dir_held,
    {
        self.dir_held
    }

    /// Whether the child's handle is still held.
    pub fn holds_child(&self) -> (held: bool)
        ensures
            held == self@.child_held,
    {
        self.child_held
    }

    /// The result on record: the first failure, or success so far.
    pub fn result(&self) -> (verdict: Result<(), Failure>)
        ensures
            verdict_view(verdict) == outcome(self@),
    {
        match &self.failure {
            Some(f) => Err(f.duplicate()),
            None => Ok(()),
        }
    }

    fn teardown_step(&self, note: Option<Note>) -> (step: Step)
        ensures
            step@ == (StepView { note, action: teardown_request(self@.mount_path) }),
    {
        Step {
            note,
            action: Action::Teardown {
                mode: Unmount::Manual,
                label: String::from_str("hello"),
                mount_path: self.mount_path.clone(),
                context: String::from_str("with macFUSE"),
            },
        }
    }

    fn fail_holding_child(&mut self, f: Failure) -> (step: Option<Step>)
        ensures
            (final(self)@, step_opt_view(step)) == fail_with_child(old(self)@, f@),
    {
        self.phase = Phase::TearingDown;
        self.failure = Some(f);
        Some(self.teardown_step(None))
    }

    fn fail_holding_dir(&mut self, f: Failure) -> (step: Option<Step>)
        ensures
            (final(self)@, step_opt_view(step)) == fail_with_dir(old(self)@, f@),
    {
        self.phase = Phase::RemovingDir;
        self.failure = Some(f);
        Some(Step { note: None, action: Action::RemoveMountDir })
    }

    /// Takes what happened and answers with the next request. An event that
    /// does not answer the pending request is ignored: the state stays as
    /// it is and the answer is `None`.
    pub fn advance(&mut self, event: Event) -> (step: Option<Step>)
        ensures
            (final(self)@, step_opt_view(step)) == next(old(self)@, event@),
            old(self)@.inv() ==> final(self)@.inv(),
    {
        proof {
            if old(self)@.inv() {
                step_keeps_invariant(old(self)@, event@);
            }
        }
        match self.phase {
            Phase::MakingDir => match event {
                Event::DirCreated { path: Some(p) } => {
                    self.phase = Phase::Building;
                    self.mount_path = p;
                    self.dir_held = true;
                    Some(
                        Step {
                            note: None,
                            action: Action::Build { example: String::from_str("hello") },
                        },
                    )
                },
                Event::DirCreated { path: None } => {
                    self.dir_held = true;
                    self.fail_holding_dir(Failure::MountPath)
                },
                Event::DirFailed => {
                    self.phase = Phase::Finished;
                    self.failure = Some(Failure::CreateDir);
                    Some(Step { note: None, action: Action::Finish(Err(Failure::CreateDir)) })
                },
                _ => None,
            },
            Phase::Building => match event {
                Event::Built { exe } => {
                    self.phase = Phase::Spawning;
                    Some(
                        Step {
                            note: Some(Note::Starting),
                            action: Action::Spawn { exe, mount_path: self.mount_path.clone() },
                        },
                    )
                },
                Event::BuildFailed => self.fail_holding_dir(Failure::Build),
                _ => None,
            },
            Phase::Spawning => match event {
                Event::Spawned => {
                    self.phase = Phase::AwaitingMount;
                    self.child_held = true;
                    Some(
                        Step {
                            note: None,
                            action: Action::AwaitMount {
                                device: String::from_str("hello"),
                                timeout_secs: PROBE_TIMEOUT_SECS,
                            },
                        },
                    )
                },
                Event::SpawnFailed => self.fail_holding_dir(Failure::Spawn),
                _ => None,
            },
            Phase::AwaitingMount => match event {
                Event::MountReady => {
                    self.phase = Phase::AwaitingFile;
                    Some(
                        Step {
                            note: None,
                            action: Action::AwaitFile {
                                path: hello_path(self.mount_path.as_str()),
                                timeout_secs: PROBE_TIMEOUT_SECS,
                            },
                        },
                    )
                },
                Event::ProbeFailed(f) => self.fail_holding_child(f),
                _ => None,
            },
            Phase::AwaitingFile => match event {
                Event::FileContent(text) => match check_content(text.as_str()) {
                    Ok(()) => {
                        self.phase = Phase::TearingDown;
                        Some(self.teardown_step(Some(Note::ContentOk)))
                    },
                    Err(f) => self.fail_holding_child(f),
                },
                Event::ProbeFailed(f) => self.fail_holding_child(f),
                _ => None,
            },
            Phase::TearingDown => match event {
                Event::TornDown { killed, released } => {
                    let clean = killed && released;
                    self.phase = Phase::RemovingDir;
                    self.child_held = false;
                    self.unmounted = clean;
                    let mut note: Option<Note> = None;
                    if self.failure.is_none() {
                        if clean {
                            note = Some(Note::AllPassed);
                        } else {
                            self.failure = Some(Failure::Teardown);
                        }
                    }
                    Some(Step { note, action: Action::RemoveMountDir })
                },
                _ => None,
            },
            Phase::RemovingDir => match event {
                Event::DirRemoved => {
                    let verdict = self.result();
                    self.phase = Phase::Finished;
                    self.dir_held = false;
                    Some(Step { note: None, action: Action::Finish(verdict) })
                },
                _ => None,
            },
            Phase::Finished => None,
        }
    }
}

/// Every transition keeps the invariant of the run.
pub proof fn step_keeps_invariant(pre: HarnessView, event: EventView)
    requires
        pre.inv(),
    ensures
        next(pre, event).0.inv(),
{
}

/// The last success marker is written only for a run that passes: it comes
/// with the request to remove the mount directory, after a teardown that
/// killed the child and released the mount, with no failure on record; and
/// the one event that is answered after it ends the run with success.
pub proof fn last_marker_means_success(pre: HarnessView, event: EventView)
    requires
        pre.inv(),
        next(pre, event).1 matches Some(step) && step.note == Some(Note::AllPassed),
    ensures
        ({
            let post = next(pre, event).0;
            &&& pre.phase == Phase::TearingDown
            &&& event == (EventView::TornDown { killed: true, released: true })
            &&& next(pre, event).1->Some_0.action == ActionView::RemoveMountDir
            &&& post.unmounted && !post.child_held && post.failure is None
            &&& next(post, EventView::DirRemoved).1 == Some(
                StepView { note: None, action: ActionView::Finish(Ok(())) },
            )
            &&& forall|other: EventView| #[trigger]
                next(post, other).1 is Some ==> other == EventView::DirRemoved
        }),
{
}

/// The state after the machine has taken `events` one after the other.
pub open spec fn run(pre: HarnessView, events: Seq<EventView>) -> HarnessView
    decreases events.len(),
{
    if events.len() == 0 {
        pre
    } else {
        next(run(pre, events.drop_last()), events.last()).0
    }
}

/// Whatever the caller reports, in whatever order, the state of a run that
/// began at the start keeps its invariant. So in every execution the child
/// is held only while the mount directory is, and a run that is over holds
/// neither: no child is left running and no directory is left behind.
pub proof fn every_run_releases_what_it_took(events: Seq<EventView>)
    ensures
        run(initial(), events).inv(),
        run(initial(), events).child_held ==> run(initial(), events).dir_held,
        run(initial(), events).phase == Phase::Finished ==> !run(initial(), events).child_held
            && !run(initial(), events).dir_held,
    decreases events.len(),
{
    if events.len() > 0 {
        every_run_releases_what_it_took(events.drop_last());
        step_keeps_invariant(run(initial(), events.drop_last()), events.last());
    }
}

/// The child never outlives the mount directory: while its handle is held,
/// the directory is held too.
pub proof fn child_lives_inside_dir(v: HarnessView)
    requires
        v.inv(),
    ensures
        v.child_held ==> v.dir_held,
{
}

/// When the machine tells the caller to return, nothing is held any more:
/// the child's handle is gone and the mount directory is removed, whatever
/// the result. A finished run holds nothing either.
pub proof fn finish_releases_everything(pre: HarnessView, event: EventView)
    requires
        pre.inv(),
    ensures
        next(pre, event).1 matches Some(step) ==> (step.action is Finish ==> {
            let post = next(pre, event).0;
            &&& post.phase == Phase::Finished
            &&& !post.child_held
            &&& !post.dir_held
            &&& step.action == ActionView::Finish(outcome(post))
        }),
        pre.phase == Phase::Finished ==> !pre.child_held && !pre.dir_held,
{
}

/// A run that returns success has had its mount released by teardown.
pub proof fn success_means_unmounted(v: HarnessView)
    requires
        v.inv(),
        v.phase == Phase::Finished,
        outcome(v) is Ok,
    ensures
        v.unmounted,
{
}

/// The first failure is the one reported: once a failure is on record no
/// later event replaces it, a failing teardown included.
pub proof fn first_failure_stays(pre: HarnessView, event: EventView)
    requires
        pre.inv(),
        pre.failure is Some,
    ensures
        next(pre, event).0.failure == pre.failure,
{
}

/// A failure while the child runs is answered with teardown, and a failure
/// while only the directory is held with its removal: no failure ends the
/// run with something still held.
pub proof fn failure_leads_to_release(pre: HarnessView, event: EventView)
    requires
        pre.inv(),
        pre.failure is None,
        next(pre, event).0.failure is Some,
        next(pre, event).1 is Some,
    ensures
        ({
            let post = next(pre, event).0;
            let action = next(pre, event).1->Some_0.action;
            &&& pre.child_held && pre.phase != Phase::TearingDown ==> action == teardown_request(
                pre.mount_path,
            )
            &&& !pre.child_held && post.dir_held ==> action == ActionView::RemoveMountDir
            &&& !post.dir_held ==> pre.phase == Phase::MakingDir && action == ActionView::Finish(
                Err(FailureView::CreateDir),
            )
        }),
{
}

/// The steps come strictly in order: every event that is answered moves the
/// run to a later phase, and an event that is not answered changes nothing.
/// So a run ends after at most seven answered events.
pub proof fn answered_event_moves_forward(pre: HarnessView, event: EventView)
    ensures
        next(pre, event).1 is Some ==> rank(next(pre, event).0.phase) > rank(pre.phase),
        next(pre, event).1 is None ==> next(pre, event).0 == pre,
        rank(pre.phase) <= 7,
{
}

/// A run in which every step succeeds and the file holds the expected
/// content ends with success and writes the two success markers: one after
/// the content check, one after teardown, before the mount directory is
/// removed and the result returned.
pub proof fn good_run_succeeds(path: Seq<char>, exe: Seq<char>)
    ensures
        ({
            let s1 = next(initial(), EventView::DirCreated { path: Some(path) });
            let s2 = next(s1.0, EventView::Built { exe });
            let s3 = next(s2.0, EventView::Spawned);
            let s4 = next(s3.0, EventView::MountReady);
            let s5 = next(s4.0, EventView::FileContent(expected_content()));
            let s6 = next(s5.0, EventView::TornDown { killed: true, released: true });
            let s7 = next(s6.0, EventView::DirRemoved);
            &&& s1.1 == Some(
                StepView { note: None, action: ActionView::Build { example: example_name() } },
            )
            &&& s2.1 == Some(
                StepView {
                    note: Some(Note::Starting),
                    action: ActionView::Spawn { exe, mount_path: path },
                },
            )
            &&& s3.1 == Some(
                StepView {
                    note: None,
                    action: ActionView::AwaitMount {
                        device: example_name(),
                        timeout_secs: PROBE_TIMEOUT_SECS,
                    },
                },
            )
            &&& s4.1 == Some(
                StepView {
                    note: None,
                    action: ActionView::AwaitFile {
                        path: served_path(path),
                        timeout_secs: PROBE_TIMEOUT_SECS,
                    },
                },
            )
            &&& s5.1 == Some(
                StepView { note: Some(Note::ContentOk), action: teardown_request(path) },
            )
            &&& s6.1 == Some(
                StepView { note: Some(Note::AllPassed), action: ActionView::RemoveMountDir },
            )
            &&& s7.1 == Some(StepView { note: None, action: ActionView::Finish(Ok(())) })
            &&& s7.0.phase == Phase::Finished
        }),
{
}

} // verus!
