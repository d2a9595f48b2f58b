//! Configuration of the queue controller: which protocol family to bind,
//! which queue number to create, and how much of each packet the kernel
//! copies into the messages it delivers.

use vstd::prelude::*;

verus! {

/// Protocol family whose diverted packets this process receives.
#[derive(Clone, Copy, Debug, PartialEq, Eq, Structural)]
pub enum ProtocolFamily {
    IPv4,
}

/// How much of each packet the kernel copies into the message delivered to
/// userspace.
#[derive(Clone, Copy, Debug, PartialEq, Eq, Structural)]
pub enum CopyMode {
    /// Copy nothing: packets are dropped from the queue without delivery.
    CopyNone,
    /// Copy only the packet metadata.
    CopyMeta,
    /// Copy packet bytes up to the configured copy range.
    CopyPacket,
}

/// The largest 16-bit copy range: with [`CopyMode::CopyPacket`] it asks the
/// kernel to copy the full bytes of any real packet.
pub const FULL_COPY_RANGE: u32 = 0xffff;

/// Everything the queue controller is built from: the queue number to
/// create, the protocol family to bind, and the copy mode and range to
/// configure on the queue.
#[derive(Clone, Copy, Debug, PartialEq, Eq, Structural)]
pub struct QueueConfig {
    /// Number of the queue to create within the subsystem connection.
    pub queue_num: u16,
    /// Protocol family to unbind and then bind.
    pub family: ProtocolFamily,
    /// How much of each packet the kernel copies.
    pub copy_mode: CopyMode,
    /// Upper bound, in bytes, on the copied packet data.
    pub copy_range: u32,
}

impl Default for QueueConfig {
    /// Queue 0 for IPv4 with full-packet copy: a single static queue that
    /// asks the kernel for the whole of every diverted packet.
    fn default() -> (c: QueueConfig)
        ensures
            c == (QueueConfig {
                queue_num: 0,
                family: ProtocolFamily::IPv4,
                copy_mode: CopyMode::CopyPacket,
                copy_range: FULL_COPY_RANGE,
            }),
    {
        QueueConfig {
            queue_num: 0,
            family: ProtocolFamily::IPv4,
            copy_mode: CopyMode::CopyPacket,
            copy_range: FULL_COPY_RANGE,
        }
    }
}

} // verus!
