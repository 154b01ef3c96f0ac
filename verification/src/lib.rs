//! Decision logic of a harness that checks a user-space "hello" filesystem:
//! the polling probes, the content check, the failure messages and the
//! state machine that orders set-up, probing and teardown.
//!
//! Nothing here touches the operating system. A caller performs each
//! requested action (create a directory, spawn a process, list the mounts,
//! read a file, sleep) and hands the observation back as a plain value.

pub mod failure;
pub mod harness;
pub mod probe;
pub mod teardown;
pub mod text;
