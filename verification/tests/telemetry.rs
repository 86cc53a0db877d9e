use wally::commands::cmd_telemetry::{
    atoi, blast_events, blast_results, emitted_line, event_count, extract_bool_field, extract_int_field, find_modality,
    modalities, modality_names, plan_blast, plan_emit, record_http_result, report_failed, run_telemetry_blast,
    run_telemetry_emit, run_telemetry_session, session_failure, telemetry_payload, token_counts, total_received, uuid4,
    uuid_from_bytes, value_offset_after_key, EndpointStats, FlushReport, HttpResult, MetricOptions, SessionStage,
    TelemetryHttpContext,
};
use wally::output::Report;

fn response(body: &str) -> HttpResult {
    HttpResult { ok: true, status: 200, described: String::new(), body: body.to_string() }
}

#[test]
fn accounting_reads_the_response_body_not_the_request_payload() {
    let mut stats = EndpointStats::default();
    let result = response(r#"{"success":true,"events_received":3,"events_stored":3,"events_skipped":0}"#);
    record_http_result(&mut stats, &result);
    assert_eq!(stats.posts, 1);
    assert_eq!(stats.failures, 0);
    assert_eq!(stats.received, 3);
    assert_eq!(stats.stored, 3);
    assert_eq!(stats.skipped, 0);
}

#[test]
fn a_response_reporting_failure_is_counted_as_a_failure() {
    let mut stats = EndpointStats::default();
    let result = response(r#"{"success":false,"events_received":0}"#);
    record_http_result(&mut stats, &result);
    assert_eq!(stats.failures, 1);
    assert!(stats.last_error.contains("backend reported success=false"));
}

#[test]
fn value_offset_skips_a_vertical_tab_like_c_isspace() {
    let json = b"{\"success\":\x0btrue}";
    let offset = value_offset_after_key(json, "success").expect("key found");
    assert_eq!(&json[offset..offset + 4], b"true");
}

#[test]
fn value_offset_skips_ordinary_ascii_whitespace_too() {
    let json = b"{\"events_received\": 5}";
    let offset = value_offset_after_key(json, "events_received").expect("key found");
    assert_eq!(&json[offset..offset + 1], b"5");
}

#[test]
fn fields_are_read_as_c_would() {
    assert_eq!(extract_int_field(r#"{"n": -12x}"#, "n"), -12);
    assert_eq!(extract_int_field(r#"{"m":1}"#, "n"), -1);
    assert_eq!(extract_int_field(r#"{"n":99999999999}"#, "n"), i32::MAX);
    assert!(extract_bool_field(r#"{"ok":true}"#, "ok"));
    assert!(!extract_bool_field(r#"{"ok":1}"#, "ok"));
    assert_eq!(atoi(b"  42 ", 2), 42);
}

#[test]
fn a_failed_exchange_is_accounted_for() {
    let mut stats = EndpointStats::default();
    let result =
        HttpResult { ok: false, status: 0, described: "no route to host".to_string(), body: String::new() };
    record_http_result(&mut stats, &result);
    assert_eq!((stats.posts, stats.failures), (1, 1));
    assert!(stats.last_error.contains("no route to host"));
}

#[test]
fn uuids_are_of_version_four() {
    let zeros = uuid_from_bytes(&[0; 16]);
    assert_eq!(zeros, "00000000-0000-4000-8000-000000000000");
    let ones = uuid_from_bytes(&[0xff; 16]);
    assert_eq!(ones, "ffffffff-ffff-4fff-bfff-ffffffffffff");
    let fresh = uuid4();
    assert_eq!(fresh.len(), 36);
    assert_eq!(fresh.as_bytes()[14], b'4');
    assert_ne!(fresh, uuid4());
}

fn context(count: i32, broken: &str) -> TelemetryHttpContext {
    let mut c = TelemetryHttpContext::new();
    for name in modality_names() {
        let path = format!("/api/v2/sdk/telemetry/{name}");
        let body = if name == broken {
            r#"{"success":false}"#.to_string()
        } else {
            format!("{{\"success\":true,\"events_received\":{count},\"events_stored\":{count},\"events_skipped\":0}}")
        };
        c.record(&path, &response(&body));
    }
    c
}

#[test]
fn a_blast_is_green_when_every_modality_arrived() {
    assert_eq!(modalities().len(), 12);
    assert_eq!(blast_events(2), 24);
    let report = FlushReport { context: context(2, ""), events: 24 };
    let (rows, all_ok) = blast_results(&report.context, 2);
    assert!(all_ok && rows.iter().all(|r| r.ok && r.status == "HTTP 200"));
    let (shown, code) = run_telemetry_blast(&report, 2, "s", false);
    assert_eq!(code, 0);
    match shown {
        Report::Table(above, table, _) => {
            assert_eq!(above.lines[0].text, "blast session s — 24 event(s) across 12 modalities");
            assert_eq!(table.rows.len(), 12);
            assert_eq!(table.rows[0][1], "ok");
        }
        other => panic!("{other:?}"),
    }
    let broken = FlushReport { context: context(2, "tts"), events: 24 };
    let (shown, code) = run_telemetry_blast(&broken, 2, "s", true);
    assert_eq!(code, 1);
    assert!(matches!(shown, Report::Document(_)));
    let empty = FlushReport { context: TelemetryHttpContext::new(), events: 0 };
    let (rows, all_ok) = blast_results(&empty.context, 1);
    assert!(!all_ok && rows.iter().all(|r| r.status == "NO POST"));
}

#[test]
fn an_emit_fails_when_events_never_arrived() {
    let mut c = TelemetryHttpContext::new();
    c.record("/api/v2/sdk/telemetry/llm", &response(r#"{"success":true,"events_received":2,"events_stored":2}"#));
    assert_eq!(c.find("/api/v2/sdk/telemetry/llm").unwrap().received, 2);
    let plan = plan_emit("llm", "", "", Some(2), "fresh".to_string()).unwrap();
    assert_eq!((plan.event_type.as_str(), plan.session.as_str()), ("llm.generation.completed", "fresh"));
    let good = FlushReport { context: c.clone(), events: 2 };
    assert_eq!(total_received(&good), 2);
    let (shown, code) = run_telemetry_emit(&plan, &good, false);
    assert_eq!(code, 0);
    match shown {
        Report::Lines(p) => {
            assert_eq!(p.lines[0].text, "emitted 2 × llm.generation.completed (modality llm, session fresh)");
            assert_eq!(p.lines[1].text, "/api/v2/sdk/telemetry/llm  HTTP 200  received=2 stored=2 skipped=0");
        }
        other => panic!("{other:?}"),
    }
    let short = FlushReport { context: c, events: 3 };
    assert!(report_failed(&short));
    assert_eq!(run_telemetry_emit(&plan, &short, true).1, 1);
    assert_eq!(
        plan_emit("smell", "", "", None, String::new()).unwrap_err(),
        ("unknown modality 'smell'".to_string(), 2)
    );
    let one = plan_emit("tts", "tts.done", "s", None, "fresh".to_string()).unwrap();
    assert_eq!((one.count, one.event_type.as_str(), one.session.as_str()), (1, "tts.done", "s"));
    assert_eq!(emitted_line(&one), "emitted 1 × tts.done (modality tts, session s)");
    assert_eq!((event_count(None), event_count(Some(7))), (1, 7));
    assert_eq!(plan_blast(None, "", "fresh".to_string()), (1, "fresh".to_string()));
    assert_eq!(plan_blast(Some(4), "s", "fresh".to_string()), (4, "s".to_string()));
}

#[test]
fn an_event_carries_what_was_supplied() {
    let spec = find_modality("stt").unwrap();
    let none = MetricOptions::default();
    let p = telemetry_payload("id".to_string(), spec, "stt.done", "s", 9, none);
    assert_eq!((p.modality, p.model_id, p.framework), ("stt", "probe-stt-whisper-tiny", "sherpa"));
    assert_eq!((p.timestamp_ms, p.created_at_ms, p.success), (9, 9, true));
    assert_eq!((p.processing_time_ms, p.audio_duration_ms), (None, None));
    assert_eq!((p.tokens.input, p.tokens.output, p.tokens.total), (None, None, None));
    let some = MetricOptions { processing_ms: 1.5f64.to_bits(), input_tokens: -1, output_tokens: 4, ..none };
    let p = telemetry_payload("id".to_string(), spec, "a\0b", "s", 9, some);
    assert_eq!(p.event_type, "");
    assert_eq!(p.processing_time_ms, Some(1.5f64.to_bits()));
    assert_eq!(p.tokens.total, Some(4));
    assert_eq!(token_counts(MetricOptions { input_tokens: 3, ..some }).total, Some(7));
}

#[test]
fn a_session_destroys_its_manager() {
    let mut stage = SessionStage::Start;
    let mut seen = vec![stage];
    while !matches!(stage, SessionStage::Ended(_)) {
        stage = run_telemetry_session(stage, true, true);
        seen.push(stage);
    }
    assert_eq!(stage, SessionStage::Ended(true));
    assert_eq!(&seen[seen.len() - 3..], &[SessionStage::Unhook, SessionStage::Destroy, SessionStage::Ended(true)]);
    assert_eq!(run_telemetry_session(SessionStage::Start, true, false), SessionStage::Create);
    assert_eq!(run_telemetry_session(SessionStage::Create, false, false), SessionStage::Ended(false));
    assert_eq!(session_failure(SessionStage::Create, "").unwrap(), "telemetry manager creation failed");
    assert_eq!(session_failure(SessionStage::SignIn, "no key").unwrap(), "no key");
    assert_eq!(session_failure(SessionStage::Start, "x"), None);
}
