//! The polling probes, one decision per poll.
//!
//! A probe is a bounded polling loop. The caller owns the clock and the
//! observation; after each observation it asks here what to do next:
//! stop with a result, stop with a failure, or pause and poll again.

use vstd::prelude::*;
use vstd::string::*;
use crate::failure::{Failure, FailureView, ReadFault};
use crate::text::{contains_text, occurs_in};

verus! {

/// Pause between two polls of a probe, in milliseconds.
pub const POLL_INTERVAL_MILLIS: u64 = 50;

/// Deadline of each probe of the harness, in seconds.
pub const PROBE_TIMEOUT_SECS: u64 = 4;

/// A span of `millis` milliseconds, in nanoseconds.
pub fn millis_to_nanos(millis: u64) -> (nanos: u128)
    ensures
        nanos == millis * 1_000_000,
{
    (millis as u128) * 1_000_000
}

/// A span of `secs` seconds, in nanoseconds.
pub fn secs_to_nanos(secs: u64) -> (nanos: u128)
    ensures
        nanos == secs * 1_000_000_000,
{
    (secs as u128) * 1_000_000_000
}

/// What a probe does after one poll, without what it carries.
#[derive(Clone, Copy, Debug, PartialEq, Eq, Structural)]
pub enum Verdict {
    /// The condition holds: the probe ends with success.
    Resolved,
    /// The probe ends with a failure.
    Failed,
    /// Pause for one polling interval, then poll again.
    Wait,
}

/// The decision after one poll of the mount table.
#[derive(Clone, Debug, PartialEq, Eq)]
pub enum MountPoll {
    /// The identifier is in the listing.
    Ready,
    /// The deadline passed without a hit.
    Failed(Failure),
    /// Pause for one polling interval, then list the mounts again.
    Wait,
}

/// The mathematical value of a [`MountPoll`].
pub enum MountPollView {
    Ready,
    Failed(FailureView),
    Wait,
}

impl View for MountPoll {
    type V = MountPollView;

    open spec fn view(&self) -> MountPollView {
        match *self {
            MountPoll::Ready => MountPollView::Ready,
            MountPoll::Failed(f) => MountPollView::Failed(f@),
            MountPoll::Wait => MountPollView::Wait,
        }
    }
}

/// Whether the mount table `listing` names `device`: the identifier occurs
/// in it as a substring, compared in the UTF-8 encoding of both.
pub open spec fn names_mount(listing: &str, device: &str) -> bool {
    occurs_in(device.spec_bytes(), listing.spec_bytes())
}

/// The decision of a probe that waits for a condition: when it holds the
/// probe resolves, whatever the clock says; while it does not, the probe
/// goes on as long as `elapsed` has not passed `timeout`.
pub open spec fn probe_verdict(present: bool, elapsed: int, timeout: int) -> Verdict {
    if present {
        Verdict::Resolved
    } else if elapsed > timeout {
        Verdict::Failed
    } else {
        Verdict::Wait
    }
}

/// The decision after one poll of the mount table, with the failure that
/// names the identifier where the deadline has passed. `present` says
/// whether the listing named the identifier.
pub open spec fn mount_decision(present: bool, device: Seq<char>, elapsed: int, timeout: int)
    -> MountPollView {
    match probe_verdict(present, elapsed, timeout) {
        Verdict::Resolved => MountPollView::Ready,
        Verdict::Failed => MountPollView::Failed(FailureView::MountTimeout { device }),
        Verdict::Wait => MountPollView::Wait,
    }
}

/// Decides one poll of the mount-ready probe. `listing` is the output of the
/// mount-listing command, `elapsed` the time since the probe's first poll
/// and `timeout` its deadline, both in nanoseconds.
pub fn mount_poll(listing: &str, device: &str, elapsed: u128, timeout: u128) -> (poll: MountPoll)
    ensures
        poll@ == mount_decision(
            names_mount(listing, device),
            device@,
            elapsed as int,
            timeout as int,
        ),
{
    if contains_text(listing, device) {
        MountPoll::Ready
    } else if elapsed > timeout {
        MountPoll::Failed(Failure::MountTimeout { device: String::from_str(device) })
    } else {
        MountPoll::Wait
    }
}

/// The decision after one run of the mount-listing command. A listing that
/// could not be had ends the probe at once, whatever the clock says: the
/// command is not tried again.
pub open spec fn mount_outcome(
    listing: Option<&str>,
    device: &str,
    elapsed: int,
    timeout: int,
) -> MountPollView {
    match listing {
        Some(text) => mount_decision(names_mount(text, device), device@, elapsed, timeout),
        None => MountPollView::Failed(FailureView::ListMounts),
    }
}

/// Decides one poll of the mount-ready probe from what the mount-listing
/// command gave: its output, or `None` where it could not be run or
/// reported failure.
pub fn mount_poll_outcome(
    listing: Option<&str>,
    device: &str,
    elapsed: u128,
    timeout: u128,
) -> (poll: MountPoll)
    ensures
        poll@ == mount_outcome(listing, device, elapsed as int, timeout as int),
{
    match listing {
        Some(text) => mount_poll(text, device, elapsed, timeout),
        None => MountPoll::Failed(Failure::ListMounts),
    }
}

/// Decides one poll of the inverse probe, which waits for a mount to go
/// away: it resolves when the listing no longer names the identifier.
pub fn unmount_poll(listing: &str, device: &str, elapsed: u128, timeout: u128) -> (verdict:
    Verdict)
    ensures
        verdict == probe_verdict(!names_mount(listing, device), elapsed as int, timeout as int),
{
    if !contains_text(listing, device) {
        Verdict::Resolved
    } else if elapsed > timeout {
        Verdict::Failed
    } else {
        Verdict::Wait
    }
}

/// The decision of the inverse probe after one run of the mount-listing
/// command: a listing that could not be had ends it with failure at once.
pub open spec fn unmount_outcome(
    listing: Option<&str>,
    device: &str,
    elapsed: int,
    timeout: int,
) -> Verdict {
    match listing {
        Some(text) => probe_verdict(!names_mount(text, device), elapsed, timeout),
        None => Verdict::Failed,
    }
}

/// Decides one poll of the inverse probe from what the mount-listing
/// command gave: its output, or `None` where it could not be run or
/// reported failure.
pub fn unmount_poll_outcome(
    listing: Option<&str>,
    device: &str,
    elapsed: u128,
    timeout: u128,
) -> (verdict: Verdict)
    ensures
        verdict == unmount_outcome(listing, device, elapsed as int, timeout as int),
{
    match listing {
        Some(text) => unmount_poll(text, device, elapsed, timeout),
        None => Verdict::Failed,
    }
}

/// A failed listing is fatal to both probes at any time: neither asks for
/// another poll after it.
pub proof fn failed_listing_ends_probe(device: &str, elapsed: int, timeout: int)
    ensures
        mount_outcome(None, device, elapsed, timeout) == MountPollView::Failed(
            FailureView::ListMounts,
        ),
        unmount_outcome(None, device, elapsed, timeout) == Verdict::Failed,
{
}

/// What one attempt to read the file gave.
#[derive(Clone, Debug, PartialEq, Eq)]
pub enum ReadAttempt {
    /// The file was read as text.
    Content(String),
    /// The read failed.
    Fault(ReadFault),
}

/// The mathematical value of a [`ReadAttempt`].
pub enum ReadAttemptView {
    Content(Seq<char>),
    Fault(ReadFault),
}

impl View for ReadAttempt {
    type V = ReadAttemptView;

    open spec fn view(&self) -> ReadAttemptView {
        match *self {
            ReadAttempt::Content(text) => ReadAttemptView::Content(text@),
            ReadAttempt::Fault(fault) => ReadAttemptView::Fault(fault),
        }
    }
}

/// The decision after one read attempt.
#[derive(Clone, Debug, PartialEq, Eq)]
pub enum FilePoll {
    /// The file was read: the probe ends with its content.
    Content(String),
    /// The probe ends with a read failure.
    Failed(Failure),
    /// Pause for one polling interval, then read again.
    Wait,
}

/// The mathematical value of a [`FilePoll`].
pub enum FilePollView {
    Content(Seq<char>),
    Failed(FailureView),
    Wait,
}

impl View for FilePoll {
    type V = FilePollView;

    open spec fn view(&self) -> FilePollView {
        match *self {
            FilePoll::Content(text) => FilePollView::Content(text@),
            FilePoll::Failed(f) => FilePollView::Failed(f@),
            FilePoll::Wait => FilePollView::Wait,
        }
    }
}

/// The decision of the file probe: content ends it; a missing file is
/// waited for until the deadline has passed; every other fault ends it at
/// once.
pub open spec fn file_decision(attempt: ReadAttemptView, elapsed: int, timeout: int)
    -> FilePollView {
    match attempt {
        ReadAttemptView::Content(text) => FilePollView::Content(text),
        ReadAttemptView::Fault(fault) => {
            if fault == ReadFault::NotFound && elapsed <= timeout {
                FilePollView::Wait
            } else {
                FilePollView::Failed(FailureView::FileRead { fault })
            }
        },
    }
}

/// Decides one poll of the file-appears probe. `elapsed` is the time since
/// the probe's first attempt and `timeout` its deadline, both in
/// nanoseconds.
pub fn file_poll(attempt: ReadAttempt, elapsed: u128, timeout: u128) -> (poll: FilePoll)
    ensures
        poll@ == file_decision(attempt@, elapsed as int, timeout as int),
{
    match attempt {
        ReadAttempt::Content(text) => FilePoll::Content(text),
        ReadAttempt::Fault(fault) => {
            match fault {
                ReadFault::NotFound => {
                    if elapsed > timeout {
                        FilePoll::Failed(Failure::FileRead { fault })
                    } else {
                        FilePoll::Wait
                    }
                },
                _ => FilePoll::Failed(Failure::FileRead { fault }),
            }
        },
    }
}

/// The file probe waits if and only if the attempt found no file and the
/// deadline has not passed: no other fault is ever waited out, at any time.
pub proof fn file_probe_tolerates_only_not_found(
    attempt: ReadAttemptView,
    elapsed: int,
    timeout: int,
)
    ensures
        file_decision(attempt, elapsed, timeout) is Wait <==> (attempt
            == ReadAttemptView::Fault(ReadFault::NotFound) && elapsed <= timeout),
        attempt matches ReadAttemptView::Fault(fault) ==> (fault != ReadFault::NotFound
            ==> file_decision(attempt, elapsed, timeout) == FilePollView::Failed(
            FailureView::FileRead { fault },
        )),
{
}

/// A poll made after the deadline never asks for another poll, in either
/// probe: the mount probe then ends with a hit or with the timeout that
/// names the identifier, the file probe with content or a read failure.
pub proof fn deadline_ends_probe(
    present: bool,
    device: Seq<char>,
    attempt: ReadAttemptView,
    elapsed: int,
    timeout: int,
)
    requires
        elapsed > timeout,
    ensures
        mount_decision(present, device, elapsed, timeout) == if present {
            MountPollView::Ready
        } else {
            MountPollView::Failed(FailureView::MountTimeout { device })
        },
        !(file_decision(attempt, elapsed, timeout) is Wait),
{
}

/// A hit ends the mount probe with success at any time, also after the
/// deadline.
pub proof fn hit_ends_mount_probe(device: Seq<char>, elapsed: int, timeout: int)
    ensures
        mount_decision(true, device, elapsed, timeout) == MountPollView::Ready,
{
}

/// The clock of a probe that polls at once and then polls again and again:
/// the first poll is at time zero, each later one at most `gap` after the
/// one before. `gap` is the pause between two polls together with whatever
/// time an observation itself takes.
pub open spec fn paced(elapsed: Seq<int>, gap: int) -> bool {
    &&& elapsed.len() > 0 ==> elapsed[0] == 0
    &&& forall|j: int| 0 < j < elapsed.len() ==> #[trigger] elapsed[j] <= elapsed[j - 1] + gap
}

/// Every poll that the mount probe makes comes no later than the deadline
/// plus one gap, so the probe answers by then: with success when that poll
/// sees the identifier, and otherwise, once the deadline has passed, with
/// the timeout that names the identifier. `present[i]` says whether poll `i`
/// saw the identifier, `elapsed[i]` is its time on the probe's clock, and
/// `last` is a poll that the probe makes: all polls before it said wait.
pub proof fn mount_probe_ends_within_one_gap(
    present: Seq<bool>,
    elapsed: Seq<int>,
    device: Seq<char>,
    timeout: int,
    gap: int,
    last: int,
)
    requires
        present.len() == elapsed.len(),
        0 <= last < elapsed.len(),
        0 <= timeout,
        0 <= gap,
        paced(elapsed, gap),
        forall|j: int|
            0 <= j < last ==> mount_decision(present[j], device, elapsed[j], timeout) is Wait,
    ensures
        elapsed[last] <= timeout + gap,
        present[last] ==> mount_decision(present[last], device, elapsed[last], timeout)
            == MountPollView::Ready,
        !present[last] && elapsed[last] > timeout ==> mount_decision(
            present[last],
            device,
            elapsed[last],
            timeout,
        ) == MountPollView::Failed(FailureView::MountTimeout { device }),
{
    if last > 0 {
        assert(mount_decision(present[last - 1], device, elapsed[last - 1], timeout) is Wait);
        assert(elapsed[last] <= elapsed[last - 1] + gap);
    }
}

/// Every attempt that the file probe makes comes no later than the deadline
/// plus one gap.
pub proof fn file_probe_ends_within_one_gap(
    attempts: Seq<ReadAttemptView>,
    elapsed: Seq<int>,
    timeout: int,
    gap: int,
    last: int,
)
    requires
        attempts.len() == elapsed.len(),
        0 <= last < elapsed.len(),
        0 <= timeout,
        0 <= gap,
        paced(elapsed, gap),
        forall|j: int| 0 <= j < last ==> file_decision(attempts[j], elapsed[j], timeout) is Wait,
    ensures
        elapsed[last] <= timeout + gap,
{
    if last > 0 {
        assert(file_decision(attempts[last - 1], elapsed[last - 1], timeout) is Wait);
        assert(elapsed[last] <= elapsed[last - 1] + gap);
    }
}

} // verus!
