use trace_store::errors::ErrorKind;
use trace_store::record::LogRecord;
use trace_store::redis_tracing::{
    collection_key, filter_directive, render, SpanFields, render_all, select, FieldVisitor, Level, LogViewer, RecordField,
    RedisLogLayer, RedisLogger, SpanContext, StoreWrite,
};

fn nested(spans: &[(u64, &str, bool)]) -> Option<SpanContext> {
    let mut current: Option<SpanContext> = None;
    for (id, name, persist) in spans {
        current = Some(match current {
            Some(parent) => SpanContext::child_of(parent, *id, name, *persist),
            None => SpanContext::root(*id, name, *persist),
        });
    }
    current
}

fn visitor_with(message: &str) -> FieldVisitor {
    let mut visitor = FieldVisitor::new();
    visitor.record_debug("message", message);
    visitor
}

fn layer(app: &str) -> RedisLogLayer {
    RedisLogLayer::new(RedisLogger::new(app.to_string()))
}

/// What the store would return for a full range read: the members, lowest score first.
fn in_score_order(mut writes: Vec<StoreWrite>) -> Vec<String> {
    writes.sort_by_key(|w| w.score);
    writes.into_iter().map(|w| w.member).collect()
}

#[test]
fn test_tracing_and_logging() {
    let layer = layer("test");
    let mut writes: Vec<StoreWrite> = Vec::new();

    // "Starting test": raised outside every span
    let first = layer.on_event("2024-05-06T07:08:09.001Z", Level::Info, &visitor_with("Starting test"), None);
    assert!(first.is_none());

    // "Handling request": raised in handle_request, which did not opt in
    let handle_request = nested(&[(1, "handle_request", false)]);
    let second = layer.on_event(
        "2024-05-06T07:08:09.002Z",
        Level::Info,
        &visitor_with("Handling request"),
        handle_request.as_ref(),
    );
    assert!(second.is_none());

    // "Processing job": raised in apalis_job, which opted in, inside handle_request
    let apalis_job = nested(&[(1, "handle_request", false), (2, "apalis_job", true)]);
    let third = layer.on_event(
        "2024-05-06T07:08:09.003Z",
        Level::Info,
        &visitor_with("Processing job"),
        apalis_job.as_ref(),
    );
    let record = third.unwrap();
    writes.push(layer.logger().log(&record).unwrap());
    assert_eq!(writes[0].key, "traces:test");
    assert_eq!(writes[0].score, 1_714_979_289_003);

    let viewer = LogViewer::new("test");
    let query = viewer.range_query();
    assert_eq!(query.key, "traces:test");
    assert_eq!(query.min, "-inf");
    assert_eq!(query.max, "+inf");

    let entries = in_score_order(writes);
    let all = viewer.fetch_all(&entries).unwrap();
    assert_eq!(all.len(), 1);
    assert_eq!(all[0].message, "Processing job");
    assert_eq!(all[0].trace_id, "1");
    assert_eq!(all[0].span_id, Some("2".to_string()));

    let by_span = viewer.by_span_name(&entries, "apalis_job").unwrap();
    assert_eq!(by_span.len(), 1);
    assert_eq!(viewer.by_span_name(&entries, "handle_request").unwrap().len(), 0);
    assert_eq!(viewer.by_service_name(&entries, "billing").unwrap().len(), 0);
    assert_eq!(viewer.by_service_name(&entries, "").unwrap().len(), 0);
    assert_eq!(viewer.by_job_id(&entries, "7").unwrap().len(), 0);

    let lines = viewer.view_logs_by_app_name(&entries).unwrap();
    assert_eq!(lines, vec!["2024-05-06T07:08:09.003Z - [INFO] - 1 - apalis_job: Processing job".to_string()]);
    let lines = viewer.view_logs_by_span_name(&entries, "apalis_job").unwrap();
    assert_eq!(lines.len(), 1);
}

#[test]
fn an_event_outside_every_span_is_discarded() {
    let record = layer("app").on_event("2024-05-06T07:08:09Z", Level::Error, &visitor_with("m"), None);
    assert!(record.is_none());
}

#[test]
fn an_event_under_an_unmarked_chain_is_discarded() {
    let chain = nested(&[(1, "a", false), (2, "b", false), (3, "c", false)]);
    let record = layer("app").on_event("2024-05-06T07:08:09Z", Level::Error, &visitor_with("m"), chain.as_ref());
    assert!(record.is_none());
}

#[test]
fn a_marked_child_under_a_root_gives_one_record() {
    let chain = nested(&[(11, "job-run", false), (12, "apalis_job", true)]);
    let record = layer("app")
        .on_event("2024-05-06T07:08:09Z", Level::Warn, &visitor_with("working"), chain.as_ref())
        .unwrap();
    assert_eq!(record.trace_id, "11");
    assert_eq!(record.span_id, Some("12".to_string()));
    assert_eq!(record.span_name, Some("apalis_job".to_string()));
    assert_eq!(record.level, "WARN");
    assert_eq!(record.message, "working");
    assert_eq!(record.timestamp, "2024-05-06T07:08:09Z");
    assert_eq!(record.job_id, None);
    assert_eq!(record.service_name, None);
}

#[test]
fn the_marker_of_an_outer_span_is_not_inherited() {
    let chain = nested(&[(1, "job-run", true), (2, "helper", false)]);
    let record = layer("app").on_event("2024-05-06T07:08:09Z", Level::Info, &visitor_with("m"), chain.as_ref());
    assert!(record.is_none());
}

#[test]
fn a_marked_root_alone_is_its_own_trace() {
    let root = SpanContext {
        id: 5,
        name: "job-run".to_string(),
        persist: true,
        job_id: Some("job-9".to_string()),
        service_name: Some("billing".to_string()),
        parent: None,
    };
    let record = layer("app")
        .on_event("2024-05-06T07:08:09Z", Level::Debug, &visitor_with("m"), Some(&root))
        .unwrap();
    assert_eq!(record.trace_id, "5");
    assert_eq!(record.span_id, Some("5".to_string()));
    assert_eq!(record.job_id, Some("job-9".to_string()));
    assert_eq!(record.service_name, Some("billing".to_string()));
}

#[test]
fn sidecar_fields_come_from_the_innermost_span() {
    let root = SpanContext {
        id: 1,
        name: "root".to_string(),
        persist: true,
        job_id: Some("outer".to_string()),
        service_name: Some("outer-svc".to_string()),
        parent: None,
    };
    let inner = SpanContext {
        id: 2,
        name: "inner".to_string(),
        persist: true,
        job_id: Some("inner-job".to_string()),
        service_name: None,
        parent: Some(Box::new(root)),
    };
    let record = layer("app")
        .on_event("2024-05-06T07:08:09Z", Level::Trace, &visitor_with("m"), Some(&inner))
        .unwrap();
    assert_eq!(record.job_id, Some("inner-job".to_string()));
    assert_eq!(record.service_name, None);
    assert_eq!(record.level, "TRACE");
}

#[test]
fn the_trace_identifier_is_found_at_the_root_of_a_deep_chain() {
    let deep = nested(&[(40, "a", false), (7, "b", true), (99, "c", false), (3, "d", false), (12, "e", true)]).unwrap();
    assert_eq!(deep.trace_root_id(), 40);
    let record = layer("app")
        .on_event("2024-05-06T07:08:09Z", Level::Info, &visitor_with("m"), Some(&deep))
        .unwrap();
    assert_eq!(record.trace_id, "40");
    assert_eq!(record.span_id, Some("12".to_string()));
    assert_eq!(record.span_name, Some("e".to_string()));
    assert_eq!(SpanContext::root(8, "alone", false).trace_root_id(), 8);
}

#[test]
fn the_visitor_keeps_only_the_message_field() {
    let mut visitor = FieldVisitor::new();
    assert_eq!(visitor.message(), "");
    visitor.record_debug("user", "\"alice\"");
    assert_eq!(visitor.message(), "");
    visitor.record_debug("message", "Handling request");
    assert_eq!(visitor.message(), "Handling request");
    visitor.record_debug("messages", "other");
    visitor.record_debug("message", " twice");
    assert_eq!(visitor.message(), "Handling request twice");
}

#[test]
fn level_names() {
    assert_eq!(Level::Trace.as_str(), "TRACE");
    assert_eq!(Level::Debug.as_str(), "DEBUG");
    assert_eq!(Level::Info.as_str(), "INFO");
    assert_eq!(Level::Warn.as_str(), "WARN");
    assert_eq!(Level::Error.as_str(), "ERROR");
}

#[test]
fn collection_keys() {
    assert_eq!(collection_key("test"), "traces:test");
    assert_eq!(collection_key(""), "traces:");
    assert_eq!(collection_key("a:b c"), "traces:a:b c");
    assert_eq!(RedisLogger::new("svc".to_string()).app_name(), "svc");
}

fn record(ts: &str, message: &str, span_name: Option<&str>, job: Option<&str>, svc: Option<&str>) -> LogRecord {
    LogRecord {
        timestamp: ts.to_string(),
        level: "INFO".to_string(),
        message: message.to_string(),
        span_id: span_name.map(|_| "2".to_string()),
        trace_id: "1".to_string(),
        span_name: span_name.map(|s| s.to_string()),
        job_id: job.map(|s| s.to_string()),
        service_name: svc.map(|s| s.to_string()),
    }
}

#[test]
fn the_line_of_a_record() {
    let r = record("2024-05-06T07:08:09Z", "Processing job", Some("apalis_job"), None, None);
    assert_eq!(render(&r), "2024-05-06T07:08:09Z - [INFO] - 1 - apalis_job: Processing job");
    let r = record("2024-05-06T07:08:09Z", "no span", None, None, None);
    assert_eq!(render(&r), "2024-05-06T07:08:09Z - [INFO] - 1 - : no span");
    assert_eq!(render_all(&vec![]), Vec::<String>::new());
}

#[test]
fn log_says_what_to_write() {
    let logger = RedisLogger::new("shop".to_string());
    let r = record("1970-01-01T00:00:01.444Z", "m", Some("s"), Some("j"), None);
    let write = logger.log(&r).unwrap();
    assert_eq!(write.key, "traces:shop");
    assert_eq!(write.score, 1_444);
    assert_eq!(
        write.member,
        "{\"timestamp\":\"1970-01-01T00:00:01.444Z\",\"level\":\"INFO\",\"message\":\"m\",\"span_id\":\"2\",\"trace_id\":\"1\",\"span_name\":\"s\",\"job_id\":\"j\",\"service_name\":null}"
    );
}

#[test]
fn a_record_without_a_timestamp_is_not_written() {
    let logger = RedisLogger::new("shop".to_string());
    let r = record("noon", "m", Some("s"), None, None);
    assert_eq!(logger.log(&r).err(), Some(ErrorKind::SerializationError));
}

#[test]
fn store_write_needs_both_parts() {
    let logger = RedisLogger::new("shop".to_string());
    let write = logger.store_write(Ok("{}".to_string()), Ok(5)).unwrap();
    assert_eq!(write.key, "traces:shop");
    assert_eq!(write.member, "{}");
    assert_eq!(write.score, 5);
    assert_eq!(
        logger.store_write(Err(ErrorKind::SerializationError), Ok(5)).err(),
        Some(ErrorKind::SerializationError)
    );
    assert_eq!(
        logger.store_write(Ok("{}".to_string()), Err(ErrorKind::SerializationError)).err(),
        Some(ErrorKind::SerializationError)
    );
}

fn entries() -> Vec<String> {
    vec![
        record("2024-05-06T07:08:01Z", "first", Some("a"), Some("j1"), Some("svc")),
        record("2024-05-06T07:08:02Z", "second", Some("b"), Some("j2"), None),
        record("2024-05-06T07:08:03Z", "third", Some("a"), None, Some("svc")),
        record("2024-05-06T07:08:04Z", "fourth", None, Some("j1"), Some("other")),
    ]
    .iter()
    .map(|r| r.to_wire().unwrap())
    .collect()
}

fn messages(records: &Vec<LogRecord>) -> Vec<String> {
    records.iter().map(|r| r.message.clone()).collect()
}

#[test]
fn fetch_all_keeps_collection_order() {
    let viewer = LogViewer::new("app");
    let all = viewer.fetch_all(&entries()).unwrap();
    assert_eq!(messages(&all), vec!["first", "second", "third", "fourth"]);
    assert_eq!(messages(&viewer.by_app(&entries()).unwrap()), vec!["first", "second", "third", "fourth"]);
    assert_eq!(viewer.fetch_all(&vec![]).unwrap().len(), 0);
}

#[test]
fn filters_match_exactly_and_keep_order() {
    let viewer = LogViewer::new("app");
    let e = entries();
    assert_eq!(messages(&viewer.by_span_name(&e, "a").unwrap()), vec!["first", "third"]);
    assert_eq!(messages(&viewer.by_span_name(&e, "b").unwrap()), vec!["second"]);
    assert_eq!(messages(&viewer.by_span_name(&e, "A").unwrap()), Vec::<String>::new());
    assert_eq!(messages(&viewer.by_span_name(&e, "").unwrap()), Vec::<String>::new());
    assert_eq!(messages(&viewer.by_service_name(&e, "svc").unwrap()), vec!["first", "third"]);
    assert_eq!(messages(&viewer.by_service_name(&e, "sv").unwrap()), Vec::<String>::new());
    assert_eq!(messages(&viewer.by_job_id(&e, "j1").unwrap()), vec!["first", "fourth"]);
    assert_eq!(
        messages(&viewer.by_field(&e, RecordField::JobId, "j2").unwrap()),
        vec!["second"]
    );
    let all = viewer.fetch_all(&e).unwrap();
    assert_eq!(messages(&select(&all, RecordField::SpanName, "a")), vec!["first", "third"]);
}

#[test]
fn one_malformed_entry_fails_the_whole_fetch() {
    let viewer = LogViewer::new("app");
    let mut e = entries();
    e.insert(2, "{\"timestamp\":\"t\"}".to_string());
    assert_eq!(viewer.fetch_all(&e).err(), Some(ErrorKind::SerializationError));
    assert_eq!(viewer.by_app(&e).err(), Some(ErrorKind::SerializationError));
    assert_eq!(viewer.by_span_name(&e, "a").err(), Some(ErrorKind::SerializationError));
    assert_eq!(viewer.by_service_name(&e, "svc").err(), Some(ErrorKind::SerializationError));
    assert_eq!(viewer.by_job_id(&e, "j1").err(), Some(ErrorKind::SerializationError));
    assert_eq!(viewer.view_logs_by_app_name(&e).err(), Some(ErrorKind::SerializationError));
    assert_eq!(viewer.view_logs_by_span_name(&e, "a").err(), Some(ErrorKind::SerializationError));
    let mut last = entries();
    last.push("oops".to_string());
    assert_eq!(viewer.fetch_all(&last).err(), Some(ErrorKind::SerializationError));
}

#[test]
fn lines_of_the_selected_records() {
    let viewer = LogViewer::new("app");
    let lines = viewer.view_logs_by_span_name(&entries(), "a").unwrap();
    assert_eq!(
        lines,
        vec![
            "2024-05-06T07:08:01Z - [INFO] - 1 - a: first".to_string(),
            "2024-05-06T07:08:03Z - [INFO] - 1 - a: third".to_string(),
        ]
    );
    let lines = viewer.view_logs_by_app_name(&entries()).unwrap();
    assert_eq!(lines.len(), 4);
    assert_eq!(lines[3], "2024-05-06T07:08:04Z - [INFO] - 1 - : fourth");
}

#[test]
fn the_filter_falls_back_to_debug() {
    assert_eq!(filter_directive(None), "debug");
    assert_eq!(filter_directive(Some("info,hyper=warn".to_string())), "info,hyper=warn");
    assert_eq!(filter_directive(Some(String::new())), "");
}

#[test]
fn span_fields_are_found_by_their_names() {
    let mut fields = SpanFields::new();
    fields.record_bool("enabled", true);
    fields.record_str("persist", "true");
    fields.record_debug("persist", "true");
    fields.record_str("job", "j-1");
    let unmarked = SpanContext::with_fields(1, "a", fields.duplicate(), None);
    assert!(!unmarked.persist);
    assert_eq!(unmarked.job_id, None);
    assert_eq!(unmarked.service_name, None);

    fields.record_bool("persist", true);
    fields.record_str("job_id", "j-1");
    fields.record_debug("service_name", "Billing(3)");
    let marked = SpanContext::with_fields(2, "b", fields.duplicate(), Some(unmarked));
    assert!(marked.persist);
    assert_eq!(marked.id, 2);
    assert_eq!(marked.name, "b");
    assert_eq!(marked.job_id, Some("j-1".to_string()));
    assert_eq!(marked.service_name, Some("Billing(3)".to_string()));
    assert_eq!(marked.trace_root_id(), 1);

    fields.record_bool("persist", false);
    fields.record_str("job_id", "j-2");
    let last = SpanContext::with_fields(3, "c", fields, Some(marked));
    assert!(!last.persist);
    assert_eq!(last.job_id, Some("j-2".to_string()));
    let record = layer("app").on_event("2024-05-06T07:08:09Z", Level::Info, &visitor_with("m"), Some(&last));
    assert!(record.is_none());
}
