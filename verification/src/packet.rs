//! Per-packet logic of the receive/verdict loop: the wire-format packet
//! header, conversion of the big-endian packet identifier to host order, and
//! the callback that answers each delivered packet with a verdict.

use vstd::prelude::*;

verus! {

/// Host-order value of a 32-bit quantity transmitted as four bytes in
/// big-endian (network) byte order.
pub open spec fn be32(b: Seq<u8>) -> u32
    recommends
        b.len() == 4,
{
    ((b[0] as int) * 0x100_0000 + (b[1] as int) * 0x1_0000 + (b[2] as int) * 0x100 + (
    b[3] as int)) as u32
}

/// Reads a 32-bit value from its big-endian wire representation.
pub fn u32_from_be_bytes(b: &[u8; 4]) -> (v: u32)
    ensures
        v == be32(b@),
{
    (b[0] as u32) * 0x100_0000 + (b[1] as u32) * 0x1_0000 + (b[2] as u32) * 0x100 + (b[3] as u32)
}

/// Packet header as the kernel delivers it inside a queue message. The
/// identifier is a per-queue sequence number the kernel assigns to match a
/// verdict to its packet; on the wire it is in big-endian byte order.
#[derive(Clone, Copy, Debug, PartialEq, Eq)]
pub struct PacketHeader {
    /// Packet identifier in wire (big-endian) byte order.
    pub packet_id: [u8; 4],
    /// Link-layer protocol in wire (big-endian) byte order.
    pub hw_protocol: [u8; 2],
    /// Netfilter hook that diverted the packet.
    pub hook: u8,
}

impl PacketHeader {
    /// The packet identifier converted from wire to host byte order.
    pub fn host_order_id(&self) -> (id: u32)
        ensures
            id == be32(self.packet_id@),
    {
        u32_from_be_bytes(&self.packet_id)
    }
}

/// A verdict the process can return for one diverted packet. Only `Accept`
/// is issued by this design; the others exist in the subsystem's protocol.
#[derive(Clone, Copy, Debug, PartialEq, Eq, Structural)]
pub enum Verdict {
    /// Discard the packet.
    Drop,
    /// Let the packet continue through the kernel.
    Accept,
    /// Enqueue the packet again.
    Queue,
    /// Reinject the packet at the same hook.
    Repeat,
}

/// One verdict-send call, fully determined: the decision, the identifier of
/// the packet it concerns, the packet mark to set, and the length of a
/// replacement payload. This design sends no mark and no replacement
/// payload, so both counts are zero.
#[derive(Clone, Copy, Debug, PartialEq, Eq, Structural)]
pub struct VerdictCall {
    /// Host-order identifier of the packet being verdicted.
    pub packet_id: u32,
    /// The decision.
    pub verdict: Verdict,
    /// Packet mark to set; zero means none.
    pub mark: u32,
    /// Length of a replacement payload; zero means none.
    pub payload_len: u32,
}

/// What one packet delivery hands the callback: the packet header, if the
/// message carried one. The remaining message context serves only to address
/// the verdict and carries no decision-relevant data.
#[derive(Clone, Copy, Debug, PartialEq, Eq)]
pub struct PacketRecord {
    /// The packet header, absent when the message framing is broken.
    pub header: Option<PacketHeader>,
}

/// The verdict this design sends for a packet with the given header: accept
/// unconditionally, tagged with the host-order identifier, with no mark and
/// no replacement payload.
pub open spec fn verdict_for(h: PacketHeader) -> VerdictCall {
    VerdictCall { packet_id: be32(h.packet_id@), verdict: Verdict::Accept, mark: 0, payload_len: 0 }
}

/// What the callback decides for one delivered packet.
#[derive(Clone, Copy, Debug, PartialEq, Eq, Structural)]
pub enum CallbackOutcome {
    /// The message carried no packet header: a broken framing invariant,
    /// unrecoverable; the process must abort.
    AbortMissingHeader,
    /// Send this verdict for the packet, immediately and exactly once.
    Reply(VerdictCall),
}

/// The per-packet callback decision: read the big-endian identifier from the
/// header, convert it to host order, and answer with an unconditional accept
/// verdict; a missing header aborts the process.
pub fn callback_outcome(record: &PacketRecord) -> (o: CallbackOutcome)
    ensures
        (record.header matches Some(h) ==> o == CallbackOutcome::Reply(verdict_for(h))),
        record.header is None ==> o == CallbackOutcome::AbortMissingHeader,
{
    match &record.header {
        Some(h) => CallbackOutcome::Reply(
            VerdictCall {
                packet_id: h.host_order_id(),
                verdict: Verdict::Accept,
                mark: 0,
                payload_len: 0,
            },
        ),
        None => CallbackOutcome::AbortMissingHeader,
    }
}

/// The headers of a buffer's packet records, in delivery order.
pub open spec fn headers_of(records: Seq<PacketRecord>) -> Seq<PacketHeader>
    recommends
        forall|i: int| 0 <= i < records.len() ==> (#[trigger] records[i]).header is Some,
{
    Seq::new(records.len(), |i: int| records[i].header->0)
}

/// The verdicts this design issues for a buffer's packets: one per packet,
/// in delivery order.
pub open spec fn verdicts_of(headers: Seq<PacketHeader>) -> Seq<VerdictCall> {
    Seq::new(headers.len(), |i: int| verdict_for(headers[i]))
}

/// What one parse-and-dispatch pass over a received buffer amounts to.
#[derive(Clone, Debug, PartialEq, Eq)]
pub enum BufferOutcome {
    /// Every packet in the buffer carried a header; these verdicts were
    /// sent, one per packet, in delivery order.
    Completed { verdicts: Vec<VerdictCall> },
    /// The packet at `index` carried no header: a broken framing invariant,
    /// so the process aborts. The packets before `index` had already been
    /// verdicted when the abort hit.
    Aborted { index: usize, verdicts: Vec<VerdictCall> },
}

/// Dispatch the packets of one received buffer: invoke the callback once per
/// packet, in delivery order, each verdict sent before the next packet is
/// taken up — and therefore before the loop reads the next buffer.
pub fn process_buffer(records: &Vec<PacketRecord>) -> (out: BufferOutcome)
    ensures
        (out matches BufferOutcome::Completed { verdicts } ==> {
            &&& forall|i: int| 0 <= i < records@.len() ==> (#[trigger] records@[i]).header is Some
            &&& verdicts@ == verdicts_of(headers_of(records@))
        }),
        (out matches BufferOutcome::Aborted { index, verdicts } ==> {
            &&& index < records@.len()
            &&& records@[index as int].header is None
            &&& forall|i: int| 0 <= i < index ==> (#[trigger] records@[i]).header is Some
            &&& verdicts@ == verdicts_of(headers_of(records@.take(index as int)))
        }),
{
    let mut verdicts: Vec<VerdictCall> = Vec::new();
    let mut i: usize = 0;
    while i < records.len()
        invariant
            i <= records@.len(),
            forall|j: int| 0 <= j < i ==> (#[trigger] records@[j]).header is Some,
            verdicts@ == verdicts_of(headers_of(records@.take(i as int))),
        decreases records@.len() - i,
    {
        match callback_outcome(&records[i]) {
            CallbackOutcome::Reply(v) => {
                verdicts.push(v);
                proof {
                    assert(verdicts@ =~= verdicts_of(headers_of(records@.take(i + 1))));
                }
            },
            CallbackOutcome::AbortMissingHeader => {
                return BufferOutcome::Aborted { index: i, verdicts };
            },
        }
        i = i + 1;
    }
    proof {
        assert(records@.take(records@.len() as int) =~= records@);
    }
    BufferOutcome::Completed { verdicts }
}

/// Law (verdict completeness): when every packet identifier in a buffer is
/// distinct, each identifier delivered to the callback receives exactly one
/// verdict — the one at its own position — and no other verdict in the pass
/// carries it.
pub proof fn lemma_verdict_completeness(records: Seq<PacketRecord>)
    requires
        forall|i: int| 0 <= i < records.len() ==> (#[trigger] records[i]).header is Some,
        forall|i: int, j: int|
            0 <= i < j < records.len() ==> be32((#[trigger] records[i]).header->0.packet_id@)
                != be32((#[trigger] records[j]).header->0.packet_id@),
    ensures
        verdicts_of(headers_of(records)).len() == records.len(),
        forall|i: int|
            0 <= i < records.len() ==> #[trigger] verdicts_of(headers_of(records))[i].packet_id
                == be32(records[i].header->0.packet_id@),
        forall|i: int, j: int|
            0 <= i < records.len() && 0 <= j < records.len() && i != j
                ==> #[trigger] verdicts_of(headers_of(records))[i].packet_id != #[trigger] verdicts_of(
                headers_of(records),
            )[j].packet_id,
{
}

/// Law (ordering): verdicts are issued in delivery order. The verdict for
/// the packet at position `i` of a buffer is the `i`-th verdict-send call of
/// the pass, so for two packets delivered in order A before B, A's verdict
/// goes out before B's.
pub proof fn lemma_verdict_ordering(records: Seq<PacketRecord>, i: int, j: int)
    requires
        forall|k: int| 0 <= k < records.len() ==> (#[trigger] records[k]).header is Some,
        0 <= i < j < records.len(),
    ensures
        verdicts_of(headers_of(records))[i] == verdict_for(records[i].header->0),
        verdicts_of(headers_of(records))[j] == verdict_for(records[j].header->0),
{
}

} // verus!
