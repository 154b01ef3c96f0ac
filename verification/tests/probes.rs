use mount_harness::failure::{check_content, Failure, ReadFault};
use mount_harness::probe::{
    file_poll, millis_to_nanos, mount_poll, mount_poll_outcome, secs_to_nanos, unmount_poll,
    unmount_poll_outcome, FilePoll, MountPoll, ReadAttempt, Verdict, POLL_INTERVAL_MILLIS,
    PROBE_TIMEOUT_SECS,
};
use mount_harness::text::{contains_bytes, contains_text, matches_at};

const LISTING: &str = "/dev/disk1s1 on / (apfs, local, journaled)\n\
hello on /private/var/folders/x/T/.tmpAbC (macfuse, nodev, nosuid, synchronous)\n";

const BARE_LISTING: &str = "/dev/disk1s1 on / (apfs, local, journaled)\n\
devfs on /dev (devfs, local, nobrowse)\n";

fn timeout() -> u128 {
    secs_to_nanos(PROBE_TIMEOUT_SECS)
}

#[test]
fn spans_are_exact() {
    assert_eq!(POLL_INTERVAL_MILLIS, 50);
    assert_eq!(PROBE_TIMEOUT_SECS, 4);
    assert_eq!(millis_to_nanos(50), 50_000_000);
    assert_eq!(secs_to_nanos(4), 4_000_000_000);
    assert_eq!(millis_to_nanos(0), 0);
    assert_eq!(millis_to_nanos(u64::MAX), (u64::MAX as u128) * 1_000_000);
    assert_eq!(secs_to_nanos(u64::MAX), (u64::MAX as u128) * 1_000_000_000);
}

#[test]
fn search_finds_at_start_middle_and_end() {
    assert!(contains_text("hello world", "hello"));
    assert!(contains_text("say hello world", "hello"));
    assert!(contains_text("say hello", "hello"));
    assert!(contains_text("hello", "hello"));
}

#[test]
fn search_rejects_absent_and_partial() {
    assert!(!contains_text("hell", "hello"));
    assert!(!contains_text("hel lo", "hello"));
    assert!(!contains_text("", "hello"));
    assert!(!contains_text("Hello", "hello"));
    assert!(!contains_text("hellhellhell", "hello"));
}

#[test]
fn search_handles_overlap_and_restart() {
    assert!(contains_text("hehello", "hello"));
    assert!(contains_text("aaab", "aab"));
    assert!(!contains_text("aaaa", "aab"));
}

#[test]
fn empty_needle_occurs_everywhere() {
    assert!(contains_text("anything", ""));
    assert!(contains_text("", ""));
    assert!(contains_bytes(&[], &[]));
}

#[test]
fn search_agrees_with_std_on_samples() {
    let hays = ["", "a", "ab", "abc", "hello", "xhellox", "héllo wörld", "mount hello\n"];
    let needles = ["", "a", "b", "bc", "hello", "llo", "ö", "é", "x", "\n"];
    for hay in hays.iter() {
        for needle in needles.iter() {
            assert_eq!(contains_text(hay, needle), hay.contains(needle), "{:?} in {:?}", needle, hay);
        }
    }
}

#[test]
fn matches_at_checks_one_position() {
    let hay = b"say hello";
    assert!(matches_at(hay, b"hello", 4));
    assert!(!matches_at(hay, b"hello", 3));
    assert!(matches_at(hay, b"", 9));
    assert!(matches_at(hay, b"say", 0));
}

#[test]
fn mount_probe_is_ready_on_hit() {
    assert_eq!(mount_poll(LISTING, "hello", 0, timeout()), MountPoll::Ready);
}

#[test]
fn mount_probe_hit_wins_after_deadline() {
    assert_eq!(mount_poll(LISTING, "hello", timeout() + 1, timeout()), MountPoll::Ready);
}

#[test]
fn mount_probe_waits_before_deadline() {
    assert_eq!(mount_poll(BARE_LISTING, "hello", 0, timeout()), MountPoll::Wait);
    assert_eq!(mount_poll(BARE_LISTING, "hello", timeout() - 1, timeout()), MountPoll::Wait);
}

#[test]
fn mount_probe_waits_at_exact_deadline() {
    assert_eq!(mount_poll(BARE_LISTING, "hello", timeout(), timeout()), MountPoll::Wait);
}

#[test]
fn mount_probe_times_out_naming_device() {
    let poll = mount_poll(BARE_LISTING, "hello", timeout() + 1, timeout());
    assert_eq!(poll, MountPoll::Failed(Failure::MountTimeout { device: "hello".to_string() }));
    match poll {
        MountPoll::Failed(f) => {
            assert_eq!(f.message(), "Timeout waiting for mount with device: hello")
        }
        _ => panic!("expected a failure"),
    }
}

#[test]
fn mount_probe_ends_within_timeout_plus_one_interval() {
    let gap = millis_to_nanos(POLL_INTERVAL_MILLIS);
    let mut elapsed: u128 = 0;
    let mut polls = 0;
    loop {
        polls += 1;
        match mount_poll(BARE_LISTING, "hello", elapsed, timeout()) {
            MountPoll::Wait => elapsed += gap,
            MountPoll::Failed(f) => {
                assert_eq!(f, Failure::MountTimeout { device: "hello".to_string() });
                break;
            }
            MountPoll::Ready => panic!("nothing is mounted"),
        }
    }
    assert!(elapsed <= timeout() + gap);
    assert_eq!(elapsed, timeout() + gap);
    assert_eq!(polls, 82);
}

#[test]
fn mount_probe_resolves_when_identifier_appears() {
    let gap = millis_to_nanos(POLL_INTERVAL_MILLIS);
    let mut elapsed: u128 = 0;
    let mut polls = 0;
    loop {
        let listing = if polls >= 3 { LISTING } else { BARE_LISTING };
        polls += 1;
        match mount_poll(listing, "hello", elapsed, timeout()) {
            MountPoll::Wait => elapsed += gap,
            MountPoll::Ready => break,
            MountPoll::Failed(_) => panic!("the mount appeared in time"),
        }
    }
    assert_eq!(polls, 4);
    assert_eq!(elapsed, 3 * gap);
}

#[test]
fn failed_listing_is_fatal_at_any_time() {
    for elapsed in [0, timeout(), timeout() + 1] {
        assert_eq!(
            mount_poll_outcome(None, "hello", elapsed, timeout()),
            MountPoll::Failed(Failure::ListMounts)
        );
        assert_eq!(unmount_poll_outcome(None, "hello", elapsed, timeout()), Verdict::Failed);
    }
}

#[test]
fn listing_outcome_follows_the_poll() {
    for listing in [LISTING, BARE_LISTING] {
        for elapsed in [0, timeout(), timeout() + 1] {
            assert_eq!(
                mount_poll_outcome(Some(listing), "hello", elapsed, timeout()),
                mount_poll(listing, "hello", elapsed, timeout())
            );
            assert_eq!(
                unmount_poll_outcome(Some(listing), "hello", elapsed, timeout()),
                unmount_poll(listing, "hello", elapsed, timeout())
            );
        }
    }
    assert_eq!(mount_poll_outcome(Some(LISTING), "hello", 0, timeout()), MountPoll::Ready);
    assert_eq!(mount_poll_outcome(Some(BARE_LISTING), "hello", 0, timeout()), MountPoll::Wait);
    assert_eq!(
        mount_poll_outcome(Some(BARE_LISTING), "hello", timeout() + 1, timeout()),
        MountPoll::Failed(Failure::MountTimeout { device: "hello".to_string() })
    );
}

#[test]
fn unmount_probe_is_the_inverse() {
    assert_eq!(unmount_poll(BARE_LISTING, "hello", 0, timeout()), Verdict::Resolved);
    assert_eq!(unmount_poll(LISTING, "hello", 0, timeout()), Verdict::Wait);
    assert_eq!(unmount_poll(LISTING, "hello", timeout(), timeout()), Verdict::Wait);
    assert_eq!(unmount_poll(LISTING, "hello", timeout() + 1, timeout()), Verdict::Failed);
    assert_eq!(unmount_poll(BARE_LISTING, "hello", timeout() + 1, timeout()), Verdict::Resolved);
}

#[test]
fn file_probe_returns_content() {
    let attempt = ReadAttempt::Content("Hello World!\n".to_string());
    assert_eq!(file_poll(attempt, 0, timeout()), FilePoll::Content("Hello World!\n".to_string()));
    let late = ReadAttempt::Content("anything".to_string());
    assert_eq!(file_poll(late, timeout() + 5, timeout()), FilePoll::Content("anything".to_string()));
}

#[test]
fn file_probe_waits_out_not_found() {
    let attempt = ReadAttempt::Fault(ReadFault::NotFound);
    assert_eq!(file_poll(attempt.clone(), 0, timeout()), FilePoll::Wait);
    assert_eq!(file_poll(attempt, timeout(), timeout()), FilePoll::Wait);
}

#[test]
fn file_probe_fails_on_not_found_after_deadline() {
    let attempt = ReadAttempt::Fault(ReadFault::NotFound);
    let poll = file_poll(attempt, timeout() + 1, timeout());
    assert_eq!(poll, FilePoll::Failed(Failure::FileRead { fault: ReadFault::NotFound }));
}

#[test]
fn file_probe_fails_at_once_on_any_other_fault() {
    for fault in [ReadFault::PermissionDenied, ReadFault::InvalidData, ReadFault::Other] {
        for elapsed in [0, 1, timeout() - 1, timeout(), timeout() + 1] {
            let poll = file_poll(ReadAttempt::Fault(fault), elapsed, timeout());
            assert_eq!(poll, FilePoll::Failed(Failure::FileRead { fault }));
        }
    }
}

#[test]
fn file_probe_ends_within_timeout_plus_one_interval() {
    let gap = millis_to_nanos(POLL_INTERVAL_MILLIS);
    let mut elapsed: u128 = 0;
    loop {
        match file_poll(ReadAttempt::Fault(ReadFault::NotFound), elapsed, timeout()) {
            FilePoll::Wait => elapsed += gap,
            FilePoll::Failed(f) => {
                assert_eq!(f.message(), "Failed to read hello.txt");
                break;
            }
            FilePoll::Content(_) => panic!("the file never appears"),
        }
    }
    assert_eq!(elapsed, timeout() + gap);
}

#[test]
fn content_check_accepts_only_the_expected_text() {
    assert_eq!(check_content("Hello World!\n"), Ok(()));
    assert_eq!(
        check_content("Hello World!"),
        Err(Failure::ContentMismatch { observed: "Hello World!".to_string() })
    );
    assert_eq!(
        check_content("Hello, World\n"),
        Err(Failure::ContentMismatch { observed: "Hello, World\n".to_string() })
    );
    assert_eq!(check_content(""), Err(Failure::ContentMismatch { observed: String::new() }));
}

#[test]
fn failure_messages_are_exact() {
    assert_eq!(Failure::CreateDir.message(), "Failed to create mount directory");
    assert_eq!(Failure::MountPath.message(), "Invalid mount path");
    assert_eq!(Failure::Build.message(), "Failed to build hello example");
    assert_eq!(Failure::Spawn.message(), "Failed to start hello example");
    assert_eq!(Failure::ListMounts.message(), "Failed to list mounts");
    assert_eq!(
        Failure::MountTimeout { device: "dev0".to_string() }.message(),
        "Timeout waiting for mount with device: dev0"
    );
    assert_eq!(
        Failure::FileRead { fault: ReadFault::PermissionDenied }.message(),
        "Failed to read hello.txt"
    );
    assert_eq!(
        Failure::ContentMismatch { observed: "Hello, World\n".to_string() }.message(),
        "hello.txt content mismatch: expected 'Hello World!', got 'Hello, World\n'"
    );
    assert_eq!(Failure::Teardown.message(), "Failed to kill and unmount hello with macFUSE");
}

#[test]
fn duplicate_keeps_the_failure() {
    let all = [
        Failure::CreateDir,
        Failure::MountPath,
        Failure::Build,
        Failure::Spawn,
        Failure::ListMounts,
        Failure::MountTimeout { device: "hello".to_string() },
        Failure::FileRead { fault: ReadFault::Other },
        Failure::ContentMismatch { observed: "x".to_string() },
        Failure::Teardown,
    ];
    for f in all.iter() {
        assert_eq!(&f.duplicate(), f);
    }
}
