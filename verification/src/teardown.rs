//! Teardown: the ordered shutdown of the child process and the release of
//! the mount point.
//!
//! The caller performs each requested action and reports whether it went
//! well; the machine decides what comes next and what is reported.

use vstd::prelude::*;
use vstd::string::*;

verus! {

/// How teardown releases the mount point.
#[derive(Clone, Copy, Debug, PartialEq, Eq, Structural)]
pub enum Unmount {
    /// Kill the child, then ask the operating system to release the mount.
    Manual,
    /// Kill the child and let the mount go with it.
    Auto,
}

/// Where a teardown stands.
#[derive(Clone, Copy, Debug, PartialEq, Eq, Structural)]
pub enum TeardownStage {
    /// The kill was requested.
    Killing,
    /// The release of the mount point was requested.
    Unmounting,
    /// Teardown is over.
    Done,
}

/// What teardown asks the caller to do next.
#[derive(Clone, Copy, Debug, PartialEq, Eq, Structural)]
pub enum TeardownAction {
    /// Signal the child to terminate and wait for its exit.
    Kill,
    /// Ask the operating system to release the mount point, and see that
    /// the mount is gone.
    Unmount,
    /// Teardown is over: report what was achieved.
    Report { killed: bool, released: bool },
}

/// The state of one teardown.
#[derive(Clone, Copy, Debug, PartialEq, Eq, Structural)]
pub struct Teardown {
    /// How the mount point is released.
    pub mode: Unmount,
    /// The request that is pending.
    pub stage: TeardownStage,
    /// Whether the kill went well, once it was tried.
    pub killed: bool,
    /// Whether the mount point was released, once that was tried.
    pub released: bool,
}

/// A teardown that has just requested the kill.
pub open spec fn teardown_begun(mode: Unmount) -> Teardown {
    Teardown { mode, stage: TeardownStage::Killing, killed: false, released: false }
}

/// The report of a finished teardown.
pub open spec fn teardown_report(t: Teardown) -> TeardownAction {
    TeardownAction::Report { killed: t.killed, released: t.released }
}

/// The transition of teardown on hearing whether the pending request went
/// well. The release of the mount is requested whatever the kill gave; in
/// automatic mode the mount counts as released when the kill went well.
/// Once over, a teardown repeats its report and changes no more.
pub open spec fn teardown_next(pre: Teardown, ok: bool) -> (Teardown, TeardownAction) {
    match pre.stage {
        TeardownStage::Killing => match pre.mode {
            Unmount::Manual => (
                Teardown { stage: TeardownStage::Unmounting, killed: ok, ..pre },
                TeardownAction::Unmount,
            ),
            Unmount::Auto => {
                let post = Teardown { stage: TeardownStage::Done, killed: ok, released: ok, ..pre };
                (post, teardown_report(post))
            },
        },
        TeardownStage::Unmounting => {
            let post = Teardown { stage: TeardownStage::Done, released: ok, ..pre };
            (post, teardown_report(post))
        },
        TeardownStage::Done => (pre, teardown_report(pre)),
    }
}

impl Teardown {
    /// Starts a teardown. Its first request is always the kill.
    pub fn begin(mode: Unmount) -> (start: (Teardown, TeardownAction))
        ensures
            start.0 == teardown_begun(mode),
            start.1 == TeardownAction::Kill,
    {
        (
            Teardown { mode, stage: TeardownStage::Killing, killed: false, released: false },
            TeardownAction::Kill,
        )
    }

    /// Takes whether the pending request went well and gives the next one.
    pub fn advance(&mut self, ok: bool) -> (action: TeardownAction)
        ensures
            (*final(self), action) == teardown_next(*old(self), ok),
    {
        match self.stage {
            TeardownStage::Killing => {
                self.killed = ok;
                match self.mode {
                    Unmount::Manual => {
                        self.stage = TeardownStage::Unmounting;
                        TeardownAction::Unmount
                    },
                    Unmount::Auto => {
                        self.stage = TeardownStage::Done;
                        self.released = ok;
                        TeardownAction::Report { killed: ok, released: ok }
                    },
                }
            },
            TeardownStage::Unmounting => {
                self.stage = TeardownStage::Done;
                self.released = ok;
                TeardownAction::Report { killed: self.killed, released: ok }
            },
            TeardownStage::Done => TeardownAction::Report {
                killed: self.killed,
                released: self.released,
            },
        }
    }
}

/// The line that reports that a request of teardown failed: it names the
/// request, the label of the filesystem and the context of the run.
pub open spec fn teardown_complaint_text(
    failed: TeardownAction,
    label: Seq<char>,
    context: Seq<char>,
) -> Seq<char> {
    (match failed {
        TeardownAction::Kill => "Failed to kill "@,
        TeardownAction::Unmount => "Failed to unmount "@,
        TeardownAction::Report { .. } => "Failed to tear down "@,
    }) + label + " "@ + context
}

/// The line that reports that the request `failed` did not go well.
pub fn teardown_complaint(failed: TeardownAction, label: &str, context: &str) -> (line: String)
    ensures
        line@ == teardown_complaint_text(failed, label@, context@),
{
    let head = match failed {
        TeardownAction::Kill => String::from_str("Failed to kill "),
        TeardownAction::Unmount => String::from_str("Failed to unmount "),
        TeardownAction::Report { .. } => String::from_str("Failed to tear down "),
    };
    head.concat(label).concat(" ").concat(context)
}

/// In manual mode the child is killed first and the release of the mount
/// is requested next, whether or not the kill went well; the report then
/// gives both answers as they came.
pub proof fn manual_teardown_kills_then_unmounts(kill_ok: bool, unmount_ok: bool)
    ensures
        ({
            let after_kill = teardown_next(teardown_begun(Unmount::Manual), kill_ok);
            let after_unmount = teardown_next(after_kill.0, unmount_ok);
            &&& after_kill.1 == TeardownAction::Unmount
            &&& after_unmount.1 == TeardownAction::Report {
                killed: kill_ok,
                released: unmount_ok,
            }
            &&& after_unmount.0.stage == TeardownStage::Done
        }),
{
}

/// In automatic mode the kill is the only request, and the mount counts as
/// released exactly when the kill went well.
pub proof fn auto_teardown_only_kills(kill_ok: bool)
    ensures
        ({
            let after_kill = teardown_next(teardown_begun(Unmount::Auto), kill_ok);
            &&& after_kill.1 == TeardownAction::Report { killed: kill_ok, released: kill_ok }
            &&& after_kill.0.stage == TeardownStage::Done
        }),
{
}

/// Teardown is idempotent: once over, hearing anything more changes
/// nothing and repeats the report.
pub proof fn finished_teardown_is_stable(t: Teardown, ok: bool)
    requires
        t.stage == TeardownStage::Done,
    ensures
        teardown_next(t, ok) == (t, teardown_report(t)),
{
}

/// The unmount is never requested before the kill was tried: it is only
/// ever the answer to the kill's result.
pub proof fn unmount_only_after_kill(t: Teardown, ok: bool)
    requires
        teardown_next(t, ok).1 == TeardownAction::Unmount,
    ensures
        t.stage == TeardownStage::Killing,
        t.mode == Unmount::Manual,
        teardown_next(t, ok).0.killed == ok,
{
}

} // verus!
