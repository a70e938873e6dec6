//! A verified launch protocol for spawning a child process inside fresh
//! namespaces and a chroot jail.
//!
//! The library models the parent/child handshake as two explicit state
//! machines plus a small wire format:
//!
//! * [`report`] — the failure record the child writes to the error channel,
//!   its byte encoding, and the parent's interpretation of a channel read.
//! * [`command`] — the plain data holder for a spawn: program, arguments,
//!   environment, id mappings, chroot target, and the three callback slots.
//! * [`child`] — the child-side sequencer: wait for the barrier, run the
//!   `before_chroot` callback, enter the chroot, run the `before_exec`
//!   callback, replace the image; report and exit on the first failure.
//! * [`parent`] — the parent-side sequencer: write the id mappings, run the
//!   `before_unfreeze` callback, release the barrier, then await the child's
//!   outcome on the error channel.
//!
//! The machines decide; an unverified front end performs the system calls
//! they direct and feeds the outcomes back as events.

pub mod child;
pub mod command;
pub mod parent;
pub mod protocol;
pub mod report;
