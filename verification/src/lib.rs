//! Verified core of a userspace packet-queue interceptor.
//!
//! A process of this kind opens a handle to the kernel's packet-queueing
//! subsystem, binds it to a protocol family, creates a numbered queue with a
//! packet-copy mode, and then runs an indefinite receive/verdict loop: it
//! receives raw framed messages from a kernel-facing socket without blocking,
//! lets the subsystem's parser invoke a callback once per contained packet,
//! and replies to each packet with a verdict tagged by the packet's
//! identifier.
//!
//! This crate holds the decisions of that design, verified: the lifecycle
//! state machine that orders the setup, loop and teardown calls and decides
//! which failures are fatal ([`lifecycle`]), the per-packet callback logic
//! that converts the wire-format identifier to host order and issues the
//! verdict ([`packet`]), and the configuration the controller is built from
//! ([`config`]). The kernel-facing calls themselves (socket receive, the
//! queueing subsystem's C entry points) are input/output and live with the
//! surrounding program, which drives the state machine with the outcomes of
//! those calls.

pub mod config;
pub mod lifecycle;
pub mod packet;
