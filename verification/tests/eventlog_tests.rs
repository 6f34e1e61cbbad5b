use eventlog::parse;
use eventlog::types::ParseError;
use eventlog::types::SinkError;
use eventlog::types::StopStatus;
use eventlog::Ev;
use eventlog::EventlogParser;
use eventlog::Note;
use eventlog::PrintEvents;
use eventlog::SchedEvents;
use eventlog::types::EventSize;
use eventlog::types::EventType;

// A sink that understands nothing and objects to nothing: every operation
// keeps its default no-op body.
struct Lenient {
    records: usize,
    unknown: Vec<(u16, u64, usize)>,
}

impl EventlogParser for Lenient {
    fn event_start(&mut self, _id: u16, _time: u64, _size: usize) -> Result<(), SinkError> {
        self.records += 1;
        Ok(())
    }

    fn event_unknown(&mut self, tag: u16, time: u64, bytes: Vec<u8>) -> Result<(), SinkError> {
        self.unknown.push((tag, time, bytes.len()));
        Ok(())
    }
}

fn push_descriptor(v: &mut Vec<u8>, tag: u16, size: i16) {
    v.extend_from_slice(b"etb\0");
    v.extend_from_slice(&tag.to_be_bytes());
    v.extend_from_slice(&size.to_be_bytes());
    v.extend_from_slice(&2u32.to_be_bytes());
    v.extend_from_slice(b"ev");
    v.extend_from_slice(&3u32.to_be_bytes());
    v.extend_from_slice(&[9, 9, 9]);
    v.extend_from_slice(b"ete\0");
}

fn header(descrs: &[(u16, i16)]) -> Vec<u8> {
    let mut v = Vec::new();
    v.extend_from_slice(b"hdrb");
    v.extend_from_slice(b"hetb");
    for &(tag, size) in descrs {
        push_descriptor(&mut v, tag, size);
    }
    v.extend_from_slice(b"hete");
    v.extend_from_slice(b"hdre");
    v.extend_from_slice(b"datb");
    v
}

fn push_fixed(v: &mut Vec<u8>, tag: u16, time: u64, payload: &[u8]) {
    v.extend_from_slice(&tag.to_be_bytes());
    v.extend_from_slice(&time.to_be_bytes());
    v.extend_from_slice(payload);
}

fn push_var(v: &mut Vec<u8>, tag: u16, time: u64, payload: &[u8]) {
    v.extend_from_slice(&tag.to_be_bytes());
    v.extend_from_slice(&time.to_be_bytes());
    v.extend_from_slice(&(payload.len() as u16).to_be_bytes());
    v.extend_from_slice(payload);
}

fn push_terminator(v: &mut Vec<u8>) {
    v.extend_from_slice(&0xFFFFu16.to_be_bytes());
}

fn block_marker_payload(block_size: u32, time_end: u64, capno: u16) -> Vec<u8> {
    let mut p = Vec::new();
    p.extend_from_slice(&block_size.to_be_bytes());
    p.extend_from_slice(&time_end.to_be_bytes());
    p.extend_from_slice(&capno.to_be_bytes());
    p
}

#[test]
fn empty_log_decodes_to_zero_records() {
    let mut data = header(&[]);
    push_terminator(&mut data);
    let mut sink = SchedEvents::new();
    assert_eq!(parse(&data, &mut sink), Ok(0));
    assert!(sink.take_ordered().is_empty());
}

#[test]
fn round_trip_three_known_records() {
    // Round-trip framing: three known-tag records and a terminator decode
    // to exactly three typed events and no framing error.
    let mut data = header(&[(0, 4), (1, 4), (45, 2)]);
    push_fixed(&mut data, 0, 100, &7u32.to_be_bytes());
    push_fixed(&mut data, 1, 200, &7u32.to_be_bytes());
    push_fixed(&mut data, 45, 300, &3u16.to_be_bytes());
    push_terminator(&mut data);
    let mut sink = SchedEvents::new();
    assert_eq!(parse(&data, &mut sink), Ok(3));
    let ordered = sink.take_ordered();
    assert_eq!(ordered.len(), 3);
    assert_eq!(ordered[0].0, 100);
    assert!(matches!(ordered[0].1[0].1, Ev::ThreadCreate { id: 7 }));
    assert_eq!(ordered[1].0, 200);
    assert!(matches!(ordered[1].1[0].1, Ev::ThreadRun { id: 7 }));
    assert_eq!(ordered[2].0, 300);
    assert!(matches!(ordered[2].1[0].1, Ev::CapCreate { capno: 3 }));
}

#[test]
fn trailing_bytes_after_terminator_are_ignored() {
    let mut data = header(&[(0, 4)]);
    push_fixed(&mut data, 0, 1, &1u32.to_be_bytes());
    push_terminator(&mut data);
    data.extend_from_slice(&[0xAB, 0xCD, 0xEF]);
    let mut sink = SchedEvents::new();
    assert_eq!(parse(&data, &mut sink), Ok(1));
}

#[test]
fn variable_record_reads_declared_length_known_tag() {
    // A variable-class thread label reads exactly its declared payload.
    let mut data = header(&[(44, -1), (0, 4)]);
    let mut label_payload = 9u32.to_be_bytes().to_vec();
    label_payload.extend_from_slice(b"main");
    push_var(&mut data, 44, 5, &label_payload);
    push_fixed(&mut data, 0, 6, &2u32.to_be_bytes());
    push_terminator(&mut data);
    let mut sink = SchedEvents::new();
    assert_eq!(parse(&data, &mut sink), Ok(2));
    let ordered = sink.take_ordered();
    assert_eq!(ordered.len(), 2);
    match &ordered[0].1[0].1 {
        Ev::ThreadLabel { id, label } => {
            assert_eq!(*id, 9);
            assert_eq!(label, "main");
        },
        other => panic!("wrong event: {:?}", other),
    }
    assert!(matches!(ordered[1].1[0].1, Ev::ThreadCreate { id: 2 }));
}

#[test]
fn variable_record_reads_declared_length_unknown_tag() {
    // The same framing rule holds for a tag with no known layout: exactly
    // the declared bytes are consumed, and the stream stays in sync.
    let mut data = header(&[(77, -1), (0, 4)]);
    push_var(&mut data, 77, 5, &[1, 2, 3, 4, 5]);
    push_fixed(&mut data, 0, 6, &8u32.to_be_bytes());
    push_terminator(&mut data);
    let mut sink = Lenient { records: 0, unknown: Vec::new() };
    assert_eq!(parse(&data, &mut sink), Ok(2));
    assert_eq!(sink.records, 2);
    assert_eq!(sink.unknown, vec![(77, 5, 5)]);
}

#[test]
fn unknown_tag_fatal_for_strict_aggregator() {
    // The same log that a lenient sink tolerates stops the aggregator at
    // the unhandled record.
    let mut data = header(&[(77, -1), (0, 4)]);
    push_fixed(&mut data, 0, 1, &1u32.to_be_bytes());
    push_var(&mut data, 77, 5, &[1, 2, 3]);
    push_fixed(&mut data, 0, 9, &2u32.to_be_bytes());
    push_terminator(&mut data);

    let mut lenient = Lenient { records: 0, unknown: Vec::new() };
    assert_eq!(parse(&data, &mut lenient), Ok(3));
    assert_eq!(lenient.unknown, vec![(77, 5, 3)]);

    let mut strict = SchedEvents::new();
    assert_eq!(
        parse(&data, &mut strict),
        Err(ParseError::Sink(SinkError::UnhandledTag(77)))
    );
}

#[test]
fn block_accounting_attributes_span_then_reverts() {
    // A marker announcing 28 bytes covers exactly the next two 14-byte
    // records; the third is outside the span and has no context.
    let mut data = header(&[(18, 14), (0, 4)]);
    push_fixed(&mut data, 18, 1, &block_marker_payload(28, 999, 2));
    push_fixed(&mut data, 0, 10, &1u32.to_be_bytes());
    push_fixed(&mut data, 0, 11, &2u32.to_be_bytes());
    push_fixed(&mut data, 0, 12, &3u32.to_be_bytes());
    push_terminator(&mut data);
    let mut sink = SchedEvents::new();
    assert_eq!(parse(&data, &mut sink), Ok(4));
    let ordered = sink.take_ordered();
    assert_eq!(ordered.len(), 3);
    assert_eq!(ordered[0].1[0].0, Some(2));
    assert_eq!(ordered[1].1[0].0, Some(2));
    assert_eq!(ordered[2].1[0].0, None);
}

#[test]
fn second_marker_resets_unconsumed_span() {
    // The first span is far from consumed when the second marker arrives;
    // the counter still resets to the new announcement.
    let mut data = header(&[(18, 14), (0, 4)]);
    push_fixed(&mut data, 18, 1, &block_marker_payload(10_000, 999, 2));
    push_fixed(&mut data, 18, 2, &block_marker_payload(14, 999, 5));
    push_fixed(&mut data, 0, 3, &1u32.to_be_bytes());
    push_fixed(&mut data, 0, 4, &2u32.to_be_bytes());
    push_terminator(&mut data);
    let mut sink = SchedEvents::new();
    assert_eq!(parse(&data, &mut sink), Ok(4));
    let ordered = sink.take_ordered();
    // first record sits in the 14-byte span of capability 5, second outside
    assert_eq!(ordered[0].1[0].0, Some(5));
    assert_eq!(ordered[1].1[0].0, None);
}

#[test]
fn marker_itself_reported_under_previous_span() {
    let mut data = header(&[(18, 14), (0, 4)]);
    push_fixed(&mut data, 18, 1, &block_marker_payload(100, 999, 3));
    push_fixed(&mut data, 18, 2, &block_marker_payload(50, 999, 4));
    push_terminator(&mut data);
    let mut sink = PrintEvents::new();
    assert_eq!(parse(&data, &mut sink), Ok(2));
    let lines = sink.take_lines();
    assert_eq!(lines.len(), 2);
    // the first marker starts with no span at all
    assert_eq!(lines[0], (1, None, Note::BlockMarker { capno: Some(3), block_size: 100, time_end: 999 }));
    // the second marker's record begins inside capability 3's span
    assert_eq!(lines[1], (2, Some(3), Note::BlockMarker { capno: Some(4), block_size: 50, time_end: 999 }));
}

#[test]
fn sentinel_capability_yields_no_context() {
    // The all-ones capability id announces "no capability": the whole
    // following span carries no context.
    let mut data = header(&[(18, 14), (0, 4)]);
    push_fixed(&mut data, 18, 1, &block_marker_payload(1000, 999, 0xFFFF));
    push_fixed(&mut data, 0, 10, &1u32.to_be_bytes());
    push_fixed(&mut data, 0, 11, &2u32.to_be_bytes());
    push_terminator(&mut data);
    let mut sink = SchedEvents::new();
    assert_eq!(parse(&data, &mut sink), Ok(3));
    let ordered = sink.take_ordered();
    assert_eq!(ordered[0].1[0].0, None);
    assert_eq!(ordered[1].1[0].0, None);
}

#[test]
fn stop_status_bounds() {
    // Codes 1 and 20 are accepted; 0 and 21 are errors.
    assert!(matches!(StopStatus::from(1), Ok(StopStatus::HeapOverflow)));
    assert!(matches!(StopStatus::from(20), Ok(StopStatus::BlockedOnMVarRead)));
    assert_eq!(StopStatus::from(0), Err(SinkError::BadStopStatus(0)));
    assert_eq!(StopStatus::from(21), Err(SinkError::BadStopStatus(21)));
}

fn stop_record_log(status: u16) -> Vec<u8> {
    let mut data = header(&[(2, 10)]);
    let mut p = 7u32.to_be_bytes().to_vec();
    p.extend_from_slice(&status.to_be_bytes());
    p.extend_from_slice(&8u32.to_be_bytes());
    push_fixed(&mut data, 2, 1, &p);
    push_terminator(&mut data);
    data
}

#[test]
fn stop_status_in_stream() {
    let mut ok_sink = SchedEvents::new();
    assert_eq!(parse(&stop_record_log(20), &mut ok_sink), Ok(1));
    let ordered = ok_sink.take_ordered();
    assert!(matches!(
        ordered[0].1[0].1,
        Ev::ThreadStop { id: 7, status: StopStatus::BlockedOnMVarRead, block_on: 8 }
    ));

    let mut bad_sink = SchedEvents::new();
    assert_eq!(
        parse(&stop_record_log(0), &mut bad_sink),
        Err(ParseError::Sink(SinkError::BadStopStatus(0)))
    );
    let mut bad_sink21 = SchedEvents::new();
    assert_eq!(
        parse(&stop_record_log(21), &mut bad_sink21),
        Err(ParseError::Sink(SinkError::BadStopStatus(21)))
    );
}

#[test]
fn aggregation_orders_by_timestamp_keeping_insertion_order() {
    // Events at timestamps {5: [A, B], 3: [C]} inserted in that order come
    // out as [(3, [C]), (5, [A, B])].
    let mut data = header(&[(45, 2)]);
    push_fixed(&mut data, 45, 5, &1u16.to_be_bytes()); // A
    push_fixed(&mut data, 45, 5, &2u16.to_be_bytes()); // B
    push_fixed(&mut data, 45, 3, &3u16.to_be_bytes()); // C
    push_terminator(&mut data);
    let mut sink = SchedEvents::new();
    assert_eq!(parse(&data, &mut sink), Ok(3));
    let ordered = sink.take_ordered();
    assert_eq!(ordered.len(), 2);
    assert_eq!(ordered[0].0, 3);
    assert_eq!(ordered[0].1.len(), 1);
    assert!(matches!(ordered[0].1[0].1, Ev::CapCreate { capno: 3 }));
    assert_eq!(ordered[1].0, 5);
    assert_eq!(ordered[1].1.len(), 2);
    assert!(matches!(ordered[1].1[0].1, Ev::CapCreate { capno: 1 }));
    assert!(matches!(ordered[1].1[1].1, Ev::CapCreate { capno: 2 }));
}

#[test]
fn aggregation_via_direct_add_calls() {
    let mut sink = SchedEvents::new();
    sink.add(5, Ev::CapCreate { capno: 1 });
    sink.add(5, Ev::CapCreate { capno: 2 });
    sink.add(3, Ev::CapCreate { capno: 3 });
    assert_eq!(sink.block_cap(), None);
    let ordered = sink.take_ordered();
    assert_eq!(ordered.len(), 2);
    assert_eq!(ordered[0].0, 3);
    assert_eq!(ordered[1].0, 5);
    assert_eq!(ordered[1].1.len(), 2);
}

#[test]
fn bad_header_magic_is_fatal() {
    let mut data = header(&[]);
    data[0] = b'x';
    push_terminator(&mut data);
    let mut sink = SchedEvents::new();
    assert_eq!(parse(&data, &mut sink), Err(ParseError::BadMagic));
}

#[test]
fn truncated_stream_is_fatal() {
    let mut data = header(&[(0, 4)]);
    push_fixed(&mut data, 0, 1, &1u32.to_be_bytes());
    // no terminator: the stream just ends
    let mut sink = SchedEvents::new();
    assert_eq!(parse(&data, &mut sink), Err(ParseError::Truncated));

    let short = data[..10].to_vec();
    let mut sink2 = SchedEvents::new();
    assert_eq!(parse(&short, &mut sink2), Err(ParseError::Truncated));
}

#[test]
fn bad_descriptor_size_is_fatal() {
    // a negative size other than the variable marker
    let mut data = header(&[(0, -2)]);
    push_terminator(&mut data);
    let mut sink = SchedEvents::new();
    assert_eq!(parse(&data, &mut sink), Err(ParseError::BadSizeField));
}

#[test]
fn bad_descriptor_description_utf8_is_fatal() {
    let mut data = Vec::new();
    data.extend_from_slice(b"hdrb");
    data.extend_from_slice(b"hetb");
    data.extend_from_slice(b"etb\0");
    data.extend_from_slice(&0u16.to_be_bytes());
    data.extend_from_slice(&4i16.to_be_bytes());
    data.extend_from_slice(&2u32.to_be_bytes());
    data.extend_from_slice(&[0xFF, 0xFE]); // not UTF-8
    data.extend_from_slice(&0u32.to_be_bytes());
    data.extend_from_slice(b"ete\0");
    data.extend_from_slice(b"hete");
    data.extend_from_slice(b"hdre");
    data.extend_from_slice(b"datb");
    push_terminator(&mut data);
    let mut sink = SchedEvents::new();
    assert_eq!(parse(&data, &mut sink), Err(ParseError::BadUtf8));
}

#[test]
fn unregistered_tag_is_fatal() {
    let mut data = header(&[(0, 4)]);
    push_fixed(&mut data, 3, 1, &1u32.to_be_bytes()); // tag 3 never declared
    push_terminator(&mut data);
    let mut sink = Lenient { records: 0, unknown: Vec::new() };
    assert_eq!(parse(&data, &mut sink), Err(ParseError::UnregisteredTag(3)));
}

#[test]
fn declared_size_too_short_for_known_layout_is_fatal() {
    // tag 0 needs four payload bytes, but the header declares two
    let mut data = header(&[(0, 2)]);
    push_fixed(&mut data, 0, 1, &[0, 1]);
    push_terminator(&mut data);
    let mut sink = Lenient { records: 0, unknown: Vec::new() };
    assert_eq!(parse(&data, &mut sink), Err(ParseError::ShortPayload(0)));
}

#[test]
fn invalid_label_utf8_fatal_for_aggregator() {
    let mut data = header(&[(44, -1)]);
    let mut p = 9u32.to_be_bytes().to_vec();
    p.extend_from_slice(&[0xFF, 0xFE]);
    push_var(&mut data, 44, 5, &p);
    push_terminator(&mut data);
    let mut sink = SchedEvents::new();
    assert_eq!(parse(&data, &mut sink), Err(ParseError::Sink(SinkError::BadUtf8)));
}

#[test]
fn descriptor_extension_blob_is_skipped() {
    // push_descriptor writes a nonzero extension blob; it must not
    // desynchronize the header
    let mut data = header(&[(0, 4), (1, 4)]);
    push_fixed(&mut data, 1, 2, &5u32.to_be_bytes());
    push_terminator(&mut data);
    let mut sink = SchedEvents::new();
    assert_eq!(parse(&data, &mut sink), Ok(1));
}

#[test]
fn duplicate_descriptor_keeps_later_entry() {
    // tag 0 first declared fixed 2, then fixed 4: the later wins
    let mut data = header(&[(0, 2), (0, 4)]);
    push_fixed(&mut data, 0, 1, &6u32.to_be_bytes());
    push_terminator(&mut data);
    let mut sink = SchedEvents::new();
    assert_eq!(parse(&data, &mut sink), Ok(1));
    let ordered = sink.take_ordered();
    assert!(matches!(ordered[0].1[0].1, Ev::ThreadCreate { id: 6 }));
}

#[test]
fn lenient_sink_accepts_wide_tag_coverage() {
    // one record for each of several known layouts, including the blob and
    // counter shapes, framed back to back
    let mut data = header(&[
        (9, 0),
        (19, -1),
        (29, -1),
        (34, 56),
        (43, 16),
        (49, 12),
        (53, 58),
        (55, 18),
        (90, 16),
    ]);
    push_fixed(&mut data, 9, 1, &[]);
    push_var(&mut data, 19, 2, b"hello");
    let mut rts = 1u32.to_be_bytes().to_vec();
    rts.extend_from_slice(b"rts-name");
    push_var(&mut data, 29, 3, &rts);
    let mut counters = Vec::new();
    for k in 0..7u64 {
        counters.extend_from_slice(&k.to_be_bytes());
    }
    push_fixed(&mut data, 34, 4, &counters);
    let mut wall = 2u32.to_be_bytes().to_vec();
    wall.extend_from_slice(&77u64.to_be_bytes());
    wall.extend_from_slice(&88u32.to_be_bytes());
    push_fixed(&mut data, 43, 5, &wall);
    let mut heap = 2u32.to_be_bytes().to_vec();
    heap.extend_from_slice(&4096u64.to_be_bytes());
    push_fixed(&mut data, 49, 6, &heap);
    let mut gc = 2u32.to_be_bytes().to_vec();
    gc.extend_from_slice(&1u16.to_be_bytes());
    for _ in 0..3 {
        gc.extend_from_slice(&10u64.to_be_bytes());
    }
    gc.extend_from_slice(&4u32.to_be_bytes());
    for _ in 0..3 {
        gc.extend_from_slice(&20u64.to_be_bytes());
    }
    push_fixed(&mut data, 53, 7, &gc);
    let mut task = 5u64.to_be_bytes().to_vec();
    task.extend_from_slice(&1u16.to_be_bytes());
    task.extend_from_slice(&99u64.to_be_bytes());
    push_fixed(&mut data, 55, 8, &task);
    let mut memr = Vec::new();
    for k in 0..4u32 {
        memr.extend_from_slice(&k.to_be_bytes());
    }
    push_fixed(&mut data, 90, 9, &memr);
    push_terminator(&mut data);

    let mut sink = Lenient { records: 0, unknown: Vec::new() };
    assert_eq!(parse(&data, &mut sink), Ok(9));
    assert_eq!(sink.records, 9);
    assert!(sink.unknown.is_empty());
}

#[test]
fn printer_collects_lines_in_decode_order() {
    let mut data = header(&[(0, 4), (44, -1), (25, 6)]);
    push_fixed(&mut data, 0, 7, &1u32.to_be_bytes());
    let mut label = 1u32.to_be_bytes().to_vec();
    label.extend_from_slice(b"worker");
    push_var(&mut data, 44, 8, &label);
    let mut capset = 3u32.to_be_bytes().to_vec();
    capset.extend_from_slice(&2u16.to_be_bytes());
    push_fixed(&mut data, 25, 9, &capset);
    push_terminator(&mut data);
    let mut sink = PrintEvents::new();
    assert_eq!(parse(&data, &mut sink), Ok(3));
    let lines = sink.take_lines();
    assert_eq!(lines.len(), 3);
    assert_eq!(lines[0], (7, None, Note::ThreadCreate { threadid: 1 }));
    assert_eq!(lines[1], (8, None, Note::ThreadLabel { threadid: 1 }));
    assert_eq!(lines[2], (9, None, Note::CapsetCreate { capset: 3, type_: 2 }));
}

#[test]
fn registry_lookup_follows_header() {
    let mut reg = eventlog::Registry::new();
    assert!(reg.get_size(4).is_none());
    reg.set(4, EventType { size: EventSize::Fixed(6), descr: String::from("migrate") });
    assert_eq!(reg.get_size(4), Some(EventSize::Fixed(6)));
    reg.set(4, EventType { size: EventSize::Variable, descr: String::from("migrate") });
    assert_eq!(reg.get_size(4), Some(EventSize::Variable));
    assert_eq!(reg.get_descr(4).map(|s| s.as_str()), Some("migrate"));
    assert!(reg.get_descr(5).is_none());
}

#[test]
fn tracker_context_follows_span() {
    let mut ctx = eventlog::BlockCtx::new();
    assert_eq!(ctx.current_context(), None);
    ctx.on_block_marker(24, 3);
    assert_eq!(ctx.current_context(), Some(3));
    ctx.on_record_observed(4); // consumes 14 of 24
    assert_eq!(ctx.current_context(), Some(3));
    ctx.on_record_observed(4); // span exhausted
    assert_eq!(ctx.current_context(), None);
    ctx.on_block_marker(10, 0xFFFF);
    assert_eq!(ctx.current_context(), None);
    ctx.on_block_marker(10, 1);
    assert_eq!(ctx.current_context(), Some(1));
}

#[test]
fn validate_accepts_well_formed_and_counts() {
    // framing round trip with no sink involved: a well-formed log always
    // returns normally, with its record count
    let mut data = header(&[(0, 4), (77, -1)]);
    push_fixed(&mut data, 0, 1, &1u32.to_be_bytes());
    push_var(&mut data, 77, 2, &[1, 2, 3]);
    push_fixed(&mut data, 0, 3, &2u32.to_be_bytes());
    push_terminator(&mut data);
    assert_eq!(eventlog::validate(&data), Ok(3));

    let mut empty = header(&[]);
    push_terminator(&mut empty);
    assert_eq!(eventlog::validate(&empty), Ok(0));
}

#[test]
fn validate_reports_exact_framing_errors() {
    let mut bad = header(&[]);
    bad[5] = b'x';
    assert_eq!(eventlog::validate(&bad), Err(ParseError::BadMagic));

    let mut cut = header(&[(0, 4)]);
    push_fixed(&mut cut, 0, 1, &1u32.to_be_bytes());
    assert_eq!(eventlog::validate(&cut), Err(ParseError::Truncated));

    let mut unreg = header(&[(0, 4)]);
    push_fixed(&mut unreg, 9, 1, &[]);
    push_terminator(&mut unreg);
    assert_eq!(eventlog::validate(&unreg), Err(ParseError::UnregisteredTag(9)));
}
