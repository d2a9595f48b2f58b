use nfqueue_core::packet::{
    callback_outcome, process_buffer, u32_from_be_bytes, BufferOutcome, CallbackOutcome,
    PacketHeader, PacketRecord, Verdict, VerdictCall,
};

fn header_with_id(id_be: [u8; 4]) -> PacketHeader {
    PacketHeader { packet_id: id_be, hw_protocol: [0x08, 0x00], hook: 2 }
}

fn record_with_id(id_be: [u8; 4]) -> PacketRecord {
    PacketRecord { header: Some(header_with_id(id_be)) }
}

#[test]
fn big_endian_seven_reads_as_seven() {
    // A wire-format identifier field holding the big-endian encoding of
    // 0x00000007 must come out as host-order 7.
    assert_eq!(u32_from_be_bytes(&[0x00, 0x00, 0x00, 0x07]), 7);
    assert_eq!(header_with_id([0x00, 0x00, 0x00, 0x07]).host_order_id(), 7);
}

#[test]
fn big_endian_edge_values() {
    assert_eq!(u32_from_be_bytes(&[0x00, 0x00, 0x00, 0x00]), 0);
    assert_eq!(u32_from_be_bytes(&[0xff, 0xff, 0xff, 0xff]), u32::MAX);
    assert_eq!(u32_from_be_bytes(&[0x12, 0x34, 0x56, 0x78]), 0x1234_5678);
    assert_eq!(u32_from_be_bytes(&[0x00, 0x00, 0x01, 0x00]), 256);
}

#[test]
fn callback_accepts_with_host_order_id() {
    // One packet message with wire id 0x00000042 yields one accept verdict
    // with host-order id 66, no mark, no replacement payload.
    let record = record_with_id([0x00, 0x00, 0x00, 0x42]);
    let outcome = callback_outcome(&record);
    assert_eq!(
        outcome,
        CallbackOutcome::Reply(VerdictCall {
            packet_id: 66,
            verdict: Verdict::Accept,
            mark: 0,
            payload_len: 0,
        })
    );
}

#[test]
fn callback_aborts_on_missing_header() {
    let record = PacketRecord { header: None };
    assert_eq!(callback_outcome(&record), CallbackOutcome::AbortMissingHeader);
}

#[test]
fn buffer_gets_one_verdict_per_packet_in_order() {
    // Three packets with distinct identifiers, delivered in one buffer:
    // exactly one verdict each, in delivery order.
    let records = vec![
        record_with_id([0x00, 0x00, 0x00, 0x07]),
        record_with_id([0x00, 0x00, 0x00, 0x42]),
        record_with_id([0xde, 0xad, 0xbe, 0xef]),
    ];
    match process_buffer(&records) {
        BufferOutcome::Completed { verdicts } => {
            let ids: Vec<u32> = verdicts.iter().map(|v| v.packet_id).collect();
            assert_eq!(ids, vec![7, 66, 0xdead_beef]);
            for v in &verdicts {
                assert_eq!(v.verdict, Verdict::Accept);
                assert_eq!(v.mark, 0);
                assert_eq!(v.payload_len, 0);
            }
            // each identifier occurs exactly once
            for (i, v) in verdicts.iter().enumerate() {
                let occurrences =
                    verdicts.iter().filter(|w| w.packet_id == v.packet_id).count();
                assert_eq!(occurrences, 1, "identifier at {} verdicted more than once", i);
            }
        }
        other => panic!("expected a completed pass, got {:?}", other),
    }
}

#[test]
fn empty_buffer_yields_no_verdicts() {
    let records: Vec<PacketRecord> = Vec::new();
    match process_buffer(&records) {
        BufferOutcome::Completed { verdicts } => assert!(verdicts.is_empty()),
        other => panic!("expected a completed pass, got {:?}", other),
    }
}

#[test]
fn missing_header_aborts_after_earlier_verdicts() {
    // The packet before the broken one was already verdicted; the pass
    // aborts at the broken packet's position.
    let records = vec![
        record_with_id([0x00, 0x00, 0x00, 0x01]),
        PacketRecord { header: None },
        record_with_id([0x00, 0x00, 0x00, 0x03]),
    ];
    match process_buffer(&records) {
        BufferOutcome::Aborted { index, verdicts } => {
            assert_eq!(index, 1);
            assert_eq!(verdicts.len(), 1);
            assert_eq!(verdicts[0].packet_id, 1);
            assert_eq!(verdicts[0].verdict, Verdict::Accept);
        }
        other => panic!("expected an aborted pass, got {:?}", other),
    }
}
