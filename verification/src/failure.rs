//! What can go wrong in a run of the harness, and how it is reported.

use vstd::prelude::*;
use vstd::string::*;

verus! {

/// Why one attempt to read a file gave no text.
#[derive(Clone, Copy, Debug, PartialEq, Eq, Structural)]
pub enum ReadFault {
    /// The path does not exist (yet).
    NotFound,
    /// The path exists but may not be read.
    PermissionDenied,
    /// The file was read but does not hold valid UTF-8.
    InvalidData,
    /// Any other I/O failure.
    Other,
}

/// A failure of the harness. Each value carries what its message quotes.
#[derive(Clone, Debug, PartialEq, Eq)]
pub enum Failure {
    /// The temporary mount directory could not be created.
    CreateDir,
    /// The mount directory's path cannot be rendered as text.
    MountPath,
    /// The example did not compile.
    Build,
    /// The example binary could not be launched.
    Spawn,
    /// The mount-listing command could not be run or reported failure.
    ListMounts,
    /// No mount naming `device` appeared before the deadline.
    MountTimeout { device: String },
    /// The expected file could not be read.
    FileRead { fault: ReadFault },
    /// The file was read, but `observed` is not the expected content.
    ContentMismatch { observed: String },
    /// Killing the child or releasing the mount reported failure.
    Teardown,
}

/// The mathematical value of a [`Failure`]: texts as sequences of characters.
pub enum FailureView {
    CreateDir,
    MountPath,
    Build,
    Spawn,
    ListMounts,
    MountTimeout { device: Seq<char> },
    FileRead { fault: ReadFault },
    ContentMismatch { observed: Seq<char> },
    Teardown,
}

impl View for Failure {
    type V = FailureView;

    open spec fn view(&self) -> FailureView {
        match *self {
            Failure::CreateDir => FailureView::CreateDir,
            Failure::MountPath => FailureView::MountPath,
            Failure::Build => FailureView::Build,
            Failure::Spawn => FailureView::Spawn,
            Failure::ListMounts => FailureView::ListMounts,
            Failure::MountTimeout { device } => FailureView::MountTimeout { device: device@ },
            Failure::FileRead { fault } => FailureView::FileRead { fault },
            Failure::ContentMismatch { observed } => FailureView::ContentMismatch {
                observed: observed@,
            },
            Failure::Teardown => FailureView::Teardown,
        }
    }
}

/// The view of an optional failure.
pub open spec fn failure_opt_view(f: Option<Failure>) -> Option<FailureView> {
    match f {
        Some(f) => Some(f@),
        None => None,
    }
}

/// The diagnostic line of a failure.
pub open spec fn failure_text(f: FailureView) -> Seq<char> {
    match f {
        FailureView::CreateDir => "Failed to create mount directory"@,
        FailureView::MountPath => "Invalid mount path"@,
        FailureView::Build => "Failed to build hello example"@,
        FailureView::Spawn => "Failed to start hello example"@,
        FailureView::ListMounts => "Failed to list mounts"@,
        FailureView::MountTimeout { device } => "Timeout waiting for mount with device: "@
            + device,
        FailureView::FileRead { fault } => "Failed to read hello.txt"@,
        FailureView::ContentMismatch { observed } =>
            "hello.txt content mismatch: expected 'Hello World!', got '"@ + observed + "'"@,
        FailureView::Teardown => "Failed to kill and unmount hello with macFUSE"@,
    }
}

impl Failure {
    /// The diagnostic line of this failure.
    pub fn message(&self) -> (line: String)
        ensures
            line@ == failure_text(self@),
    {
        match self {
            Failure::CreateDir => String::from_str("Failed to create mount directory"),
            Failure::MountPath => String::from_str("Invalid mount path"),
            Failure::Build => String::from_str("Failed to build hello example"),
            Failure::Spawn => String::from_str("Failed to start hello example"),
            Failure::ListMounts => String::from_str("Failed to list mounts"),
            Failure::MountTimeout { device } => {
                String::from_str("Timeout waiting for mount with device: ").concat(
                    device.as_str(),
                )
            },
            Failure::FileRead { fault: _ } => String::from_str("Failed to read hello.txt"),
            Failure::ContentMismatch { observed } => {
                String::from_str(
                    "hello.txt content mismatch: expected 'Hello World!', got '",
                ).concat(observed.as_str()).concat("'")
            },
            Failure::Teardown => String::from_str(
                "Failed to kill and unmount hello with macFUSE",
            ),
        }
    }

    /// A copy of this failure with the same view.
    pub fn duplicate(&self) -> (copy: Failure)
        ensures
            copy@ == self@,
    {
        match self {
            Failure::CreateDir => Failure::CreateDir,
            Failure::MountPath => Failure::MountPath,
            Failure::Build => Failure::Build,
            Failure::Spawn => Failure::Spawn,
            Failure::ListMounts => Failure::ListMounts,
            Failure::MountTimeout { device } => Failure::MountTimeout { device: device.clone() },
            Failure::FileRead { fault } => Failure::FileRead { fault: *fault },
            Failure::ContentMismatch { observed } => Failure::ContentMismatch {
                observed: observed.clone(),
            },
            Failure::Teardown => Failure::Teardown,
        }
    }
}

/// The content that the served file must hold.
pub open spec fn expected_content() -> Seq<char> {
    "Hello World!\n"@
}

/// The verdict on a file's content: `Ok` when it is the expected text.
pub open spec fn content_verdict(content: Seq<char>) -> Result<(), FailureView> {
    if content == expected_content() {
        Ok(())
    } else {
        Err(FailureView::ContentMismatch { observed: content })
    }
}

/// The view of a verdict.
pub open spec fn verdict_view(v: Result<(), Failure>) -> Result<(), FailureView> {
    match v {
        Ok(()) => Ok(()),
        Err(f) => Err(f@),
    }
}

/// Compares what was read with the expected content. Any difference is a
/// failure that quotes what was read.
pub fn check_content(content: &str) -> (verdict: Result<(), Failure>)
    ensures
        verdict_view(verdict) == content_verdict(content@),
{
    let seen = String::from_str(content);
    let wanted = String::from_str("Hello World!\n");
    if seen == wanted {
        Ok(())
    } else {
        Err(Failure::ContentMismatch { observed: seen })
    }
}

} // verus!
