use stage_trace::codec::{extract, format_traceparent, handle_of_reading, inject, Carrier, ParentHandle, TraceContext};

fn sample() -> TraceContext {
    TraceContext { trace_id: 0x4bf92f3577b34da6a3ce929d0e0e4736, span_id: 0x00f067aa0ba902b7, flags: 1 }
}

fn carrier(s: &str) -> Carrier {
    Carrier::with_traceparent(s.to_string())
}

#[test]
fn format_gives_w3c_layout() {
    assert_eq!(
        format_traceparent(&sample()),
        Some("00-4bf92f3577b34da6a3ce929d0e0e4736-00f067aa0ba902b7-01".to_string())
    );
}

#[test]
fn format_pads_small_ids_and_keeps_sampled_bit_only() {
    let c = TraceContext { trace_id: 1, span_id: 2, flags: 0xff };
    assert_eq!(
        format_traceparent(&c),
        Some("00-00000000000000000000000000000001-0000000000000002-01".to_string())
    );
}

#[test]
fn format_of_invalid_context_is_none() {
    assert_eq!(format_traceparent(&TraceContext { trace_id: 0, span_id: 2, flags: 1 }), None);
    assert_eq!(format_traceparent(&TraceContext { trace_id: 1, span_id: 0, flags: 1 }), None);
    assert!(inject(&TraceContext { trace_id: 0, span_id: 0, flags: 0 }).traceparent.is_none());
}

#[test]
fn format_largest_ids() {
    let c = TraceContext { trace_id: u128::MAX, span_id: u64::MAX, flags: 1 };
    let s = format_traceparent(&c).unwrap();
    assert_eq!(s, "00-ffffffffffffffffffffffffffffffff-ffffffffffffffff-01");
    assert_eq!(extract(&Carrier::with_traceparent(s)), ParentHandle::Remote(c));
}

#[test]
fn extract_reads_w3c_example() {
    assert_eq!(
        extract(&carrier("00-4bf92f3577b34da6a3ce929d0e0e4736-00f067aa0ba902b7-01")),
        ParentHandle::Remote(sample())
    );
}

#[test]
fn extract_of_inject_keeps_trace_id() {
    let c = sample();
    let parent = extract(&inject(&c));
    assert_eq!(parent, ParentHandle::Remote(c));
    assert_eq!(parent.trace_id(), Some(c.trace_id));
}

#[test]
fn extract_of_inject_unsampled() {
    let c = TraceContext { trace_id: 42, span_id: 7, flags: 0 };
    assert_eq!(extract(&inject(&c)), ParentHandle::Remote(c));
}

#[test]
fn extract_of_empty_carrier_is_detached() {
    let parent = extract(&Carrier::empty());
    assert_eq!(parent, ParentHandle::Detached);
    assert!(parent.is_detached());
    assert_eq!(parent.trace_id(), None);
}

#[test]
fn extract_of_invalid_value_is_detached() {
    assert_eq!(extract(&carrier("not-a-valid-value")), ParentHandle::Detached);
}

#[test]
fn extract_of_empty_value_is_detached() {
    assert_eq!(extract(&carrier("")), ParentHandle::Detached);
}

#[test]
fn extract_rejects_zero_ids_and_upper_case() {
    assert_eq!(extract(&carrier("00-00000000000000000000000000000000-00f067aa0ba902b7-01")), ParentHandle::Detached);
    assert_eq!(extract(&carrier("00-4bf92f3577b34da6a3ce929d0e0e4736-0000000000000000-01")), ParentHandle::Detached);
    assert_eq!(extract(&carrier("00-4BF92F3577B34DA6A3CE929D0E0E4736-00f067aa0ba902b7-01")), ParentHandle::Detached);
    assert_eq!(extract(&carrier("00-4bf92f3577b34da6a3ce929d0e0e4736-00f067aa0ba902b7-03")), ParentHandle::Detached);
    assert_eq!(extract(&carrier("00-4bf92f3577b34da6a3ce929d0e0e4736-00f067aa0ba902b7-01-00")), ParentHandle::Detached);
}

#[test]
fn context_flags() {
    assert!(sample().is_sampled());
    assert!(!TraceContext { flags: 0, ..sample() }.is_sampled());
    assert!(sample().is_valid_context());
    assert!(!TraceContext { span_id: 0, ..sample() }.is_valid_context());
}

#[test]
fn reading_to_handle() {
    assert_eq!(handle_of_reading(None), ParentHandle::Detached);
    assert_eq!(
        handle_of_reading(Some((3, 4, 1))),
        ParentHandle::Remote(TraceContext { trace_id: 3, span_id: 4, flags: 1 })
    );
}

#[test]
fn extract_of_value_starting_past_hex_is_detached() {
    assert_eq!(extract(&carrier("zz-4bf92f3577b34da6a3ce929d0e0e4736-00f067aa0ba902b7-01")), ParentHandle::Detached);
    assert_eq!(extract(&carrier("Garbage")), ParentHandle::Detached);
}
