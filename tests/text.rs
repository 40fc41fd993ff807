use tracy_client::cache::StrCacheGuard;
use tracy_client::demangle::{finish_demangled, noop, Buffer, DemangleError};
use tracy_client::gpu::{
    allocate_context, context_name_len, GpuContext, GpuContextCreationError, GpuContextType,
    GpuSpanCreationError, GpuTimeData, GpuZoneBeginData, GpuZoneEndData,
};
use tracy_client::names::{FrameName, PlotName, ProfiledAllocator};
use tracy_client::text::{
    compose_zone_name, truncate_span_to_length, truncate_to_length, zone_naming, EventText,
    TruncationNotice, ZoneNaming, MESSAGE_LIMIT,
};

#[test]
fn short_text_is_not_truncated() {
    assert_eq!(truncate_to_length(10, "hello"), ("hello", false));
}

#[test]
fn text_of_exactly_the_limit_counts_as_truncated() {
    assert_eq!(truncate_to_length(5, "hello"), ("hello", true));
}

#[test]
fn truncation_stops_at_a_char_boundary() {
    // "é" takes two bytes: a cut after three bytes would split it.
    assert_eq!(truncate_to_length(3, "aéb"), ("aé", true));
    assert_eq!(truncate_to_length(2, "aéb"), ("a", true));
    assert_eq!(truncate_to_length(0, "abc"), ("", true));
}

#[test]
fn span_names_leave_room_for_their_location() {
    let name = "n".repeat(70000);
    let (cut, truncated) = truncate_span_to_length(&name, "file.rs", "");
    assert!(truncated);
    assert_eq!(cut.len(), 65523 - 7);
    assert_eq!(truncate_span_to_length("short", "file.rs", ""), ("short", false));
    assert_eq!(MESSAGE_LIMIT, 65534);
}

#[test]
fn event_fields_are_joined() {
    let mut text = EventText::new(StrCacheGuard::new(String::new()));
    text.record_str("message", "hi");
    text.record_bool("ok", true);
    text.record_bool("tracy.frame_mark", true);
    text.record_bool("bad", false);
    let (buf, has_text, frame_mark) = text.finish();
    assert_eq!(buf.as_str(), "message = hi, ok = true, bad = false");
    assert!(has_text);
    assert!(frame_mark);
}

#[test]
fn frame_mark_alone_writes_no_message() {
    let mut text = EventText::new(StrCacheGuard::new(String::new()));
    text.record_bool("tracy.frame_mark", true);
    let (buf, has_text, frame_mark) = text.finish();
    assert_eq!(buf.as_str(), "");
    assert!(!has_text);
    assert!(frame_mark);
}

#[test]
fn zone_naming_follows_fields_and_configuration() {
    assert_eq!(zone_naming(None, true), ZoneNaming::Name);
    assert_eq!(zone_naming(Some(""), true), ZoneNaming::Name);
    assert_eq!(zone_naming(Some("a = 1"), true), ZoneNaming::NameWithFields);
    assert_eq!(zone_naming(Some("a = 1"), false), ZoneNaming::NameThenFieldsText);
    let mut buf = StrCacheGuard::new(String::new());
    compose_zone_name(&mut buf, "work", "a = 1");
    assert_eq!(buf.as_str(), "work{a = 1}");
}

#[test]
fn truncation_notices() {
    assert_eq!(
        TruncationNotice::EventMessage.message(),
        "event message is too long and was truncated"
    );
    assert_eq!(
        TruncationNotice::SpanInformation.message(),
        "span information is too long and was truncated"
    );
    assert_eq!(
        TruncationNotice::SpanFieldValues.message(),
        "span field values are too long and were truncated"
    );
}

#[test]
fn default_demangler_elides_the_hash() {
    let mut buffer = Buffer::new();
    assert_eq!(tracy_client::demangle::default("_ZN3foo3bar17h05af221e174051e9E", &mut buffer), Ok(()));
    assert_eq!(buffer.as_str(), "foo::bar");
    let mut other = Buffer::new();
    assert_eq!(tracy_client::demangle::default("la la la", &mut other), Err(DemangleError));
    assert_eq!(other.as_str(), "");
}

#[test]
fn noop_demangler_always_fails() {
    let mut buffer = Buffer::new();
    assert_eq!(noop("_ZN3foo3barE", &mut buffer), Err(DemangleError));
    assert_eq!(buffer.as_str(), "");
}

#[test]
fn demangled_text_is_handed_over_nul_terminated() {
    let mut buffer = Buffer::new();
    buffer.write_str("foo::bar").unwrap();
    assert_eq!(finish_demangled(&mut buffer, Ok(())), Ok(()));
    assert_eq!(buffer.as_str(), "foo::bar\0");

    let mut done = Buffer::new();
    done.write_str("x\0").unwrap();
    assert_eq!(finish_demangled(&mut done, Ok(())), Ok(()));
    assert_eq!(done.as_str(), "x\0");

    let mut empty = Buffer::new();
    assert_eq!(finish_demangled(&mut empty, Ok(())), Err(DemangleError));

    let mut nul = Buffer::new();
    nul.write_str("\0").unwrap();
    assert_eq!(finish_demangled(&mut nul, Ok(())), Err(DemangleError));
    assert_eq!(nul.as_str(), "");

    let mut inner = Buffer::new();
    inner.write_str("a\0b").unwrap();
    assert_eq!(finish_demangled(&mut inner, Ok(())), Err(DemangleError));
    assert_eq!(inner.as_str(), "");

    let mut failed = Buffer::new();
    failed.write_str("partial").unwrap();
    assert_eq!(finish_demangled(&mut failed, Err(DemangleError)), Err(DemangleError));
    assert_eq!(failed.as_str(), "");
}

#[test]
fn names_are_nul_terminated() {
    assert_eq!(FrameName::new_leak("frame".to_string()).as_str(), "frame\0");
    assert_eq!(PlotName::new_leak("temperature".to_string()).as_str(), "temperature\0");
}

#[test]
fn profiled_allocator_keeps_its_depth() {
    let a = ProfiledAllocator::new(7u8, 100);
    assert_eq!(a.callstack_depth(), 100);
    assert_eq!(*a.inner(), 7);
}

#[test]
fn context_ids_run_out_after_255() {
    let mut next = 0u8;
    for expected in 0..255u8 {
        assert_eq!(allocate_context(&mut next), Ok(expected));
    }
    assert_eq!(
        allocate_context(&mut next),
        Err(GpuContextCreationError::TooManyContextsCreated)
    );
    assert_eq!(next, 255);
    assert_eq!(GpuContextType::Vulkan.code(), 2);
    assert_eq!(GpuContextType::Direct3D11.code(), 5);
}

#[test]
fn context_name_length_is_capped() {
    assert_eq!(context_name_len("gpu"), 3);
    assert_eq!(context_name_len(&"x".repeat(70000)), u16::MAX);
}

#[test]
fn gpu_spans_draw_and_return_query_ids() {
    let mut ctx = GpuContext::new(3);
    assert_eq!(ctx.value(), 3);
    let (mut span, begin) = ctx.span(99).unwrap();
    assert_eq!(begin, GpuZoneBeginData { srcloc: 99, query_id: 65535, context: 3 });
    assert_eq!(span.end_zone(), Some(GpuZoneEndData { query_id: 65534, context: 3 }));
    assert_eq!(span.end_zone(), None);
    assert_eq!(
        span.upload_timestamp_start(10),
        GpuTimeData { gpu_time: 10, query_id: 65535, context: 3 }
    );
    assert_eq!(
        span.upload_timestamp_end(20),
        GpuTimeData { gpu_time: 20, query_id: 65534, context: 3 }
    );
    assert_eq!(span.finish(&mut ctx), None);
    assert_eq!(ctx.alloc_span_ids(), Ok((65534, 65535)));
}

#[test]
fn gpu_span_ids_run_out() {
    let mut ctx = GpuContext::new(0);
    for _ in 0..32768 {
        assert!(ctx.alloc_span_ids().is_ok());
    }
    assert_eq!(ctx.alloc_span_ids(), Err(GpuSpanCreationError::TooManyPendingSpans));
    assert!(ctx.span(1).is_err());
}
