use std::cell::RefCell;

use wally::account::{Credentials, Grant, IdentityResult, UsageRequestRow, UsageRequestsPage, UsageRequestsQuery};
use wally::account::{Credit, Usage, UsageQuery, UsageTotals, UsageWindow};
use wally::calendar::{civil_from_days, days_from_civil, days_in_month, format_epoch_seconds, parse_iso_instant};
use wally::commands::cmd_usage::{
    apply_grant, fetch_requests_page, fetch_usage, follow_pages, misplaced_flags, plan_usage, print_json, print_report,
    print_requests_json, print_requests_report, refresh_session, request_error, request_table_lines, requests_query,
    requests_summary_lines, resolve_window, session_problem, summary_query, usage, usage_next, usage_requests, window,
    MAX_FOLLOWED_PAGES, MAX_REQUESTS_WINDOW_DAYS, REQUESTS_ONLY_FLAGS, Reply, RequestsArgs, UsagePlan, UsageRun,
    UsageStage,
};
use wally::money::{grouped, money};
use wally::output::{Channel, JsonWrite};

const NOW: i64 = 1_790_000_000; // 2026-09-21T14:13:20Z

fn args() -> RequestsArgs {
    RequestsArgs {
        as_json: false,
        days: None,
        since: None,
        until: None,
        model: String::new(),
        status_code: 0,
        response_request_id: String::new(),
        cursor: String::new(),
        limit: 100,
        follow: false,
    }
}

fn row(id: &str) -> UsageRequestRow {
    UsageRequestRow {
        request_id: id.to_string(),
        model: "glm-5.3-flash".to_string(),
        status_code: 200,
        ts_start: "2026-09-25T03:41:07.123456+00:00".to_string(),
        prompt_tokens: 1_200,
        completion_tokens: 30,
        cost_micros: 1_500,
        ..UsageRequestRow::default()
    }
}

#[test]
fn parses_an_instant_with_a_zone() {
    assert_eq!(parse_iso_instant("1970-01-01T00:00:00Z"), Ok(0));
    assert_eq!(parse_iso_instant("1970-01-02T00:00:00Z"), Ok(86_400));
    // The same instant, written three ways.
    let utc = parse_iso_instant("2026-09-25T08:00:00Z").unwrap();
    assert_eq!(parse_iso_instant("2026-09-25T13:30:00+05:30"), Ok(utc));
    assert_eq!(parse_iso_instant("2026-09-25T00:00:00-08:00"), Ok(utc));
    // Fractional seconds are read past, not rounded into the instant.
    assert_eq!(parse_iso_instant("2026-09-25T08:00:00.987654Z"), Ok(utc));
    assert_eq!(parse_iso_instant("2026-09-25T08:00:00z"), Ok(utc));
}

#[test]
fn parsing_inverts_the_formatter_across_leap_years_and_centuries() {
    for epoch in [
        1,
        951_782_400,   // 2000-02-29, a leap day in a divisible-by-400 year
        1_709_208_000, // 2024-02-29T12:00:00Z
        4_107_542_400, // 2100-03-01, after a non-leap century
        NOW,
    ] {
        assert_eq!(parse_iso_instant(&format_epoch_seconds(epoch)), Ok(epoch), "{epoch} did not round-trip");
    }
}

#[test]
fn refuses_what_the_console_would_refuse() {
    for text in [
        "",
        "2026-09-25",
        "2026-09-25T08:00:00",       // no timezone: the console's 400
        "2026-09-25T08:00",          // no seconds
        "2026-09-25 08:00:00Z",      // a space, not T
        "2026-13-01T00:00:00Z",      // month 13
        "2026-00-10T00:00:00Z",      // month 0
        "2026-09-00T00:00:00Z",      // day 0
        "2026-04-31T00:00:00Z",      // April has 30 days
        "2023-02-29T00:00:00Z",      // not a leap year
        "2100-02-29T00:00:00Z",      // a century that is not a leap year
        "2026-09-25T24:00:00Z",      // hour 24
        "2026-09-25T08:60:00Z",      // minute 60
        "2026-09-25T08:00:60Z",      // second 60
        "2026-09-25T08:00:00.Z",     // a dot with no digits
        "2026-09-25T08:00:00+0530",  // zone without a colon
        "2026-09-25T08:00:00+05:3",  // short zone
        "2026-09-25T08:00:00+24:00", // zone hour out of range
        "2026-09-25T08:00:00+05:60", // zone minute out of range
        "2026-09-25T08:00:00++5:30", // a sign in place of a digit
        "2026-09-25T08:00:00+-5:30",
        "2026-09-25T08:00:00-05:+3",
        "2026-09-25T08:00:00Zjunk",
        "2026-09-2５T08:00:00Z", // a full-width digit
        "yesterday",
        "-2026-09-25T08:00:00Z",
    ] {
        let error = parse_iso_instant(text).expect_err(text);
        assert!(error.contains("timezone"), "{text}: {error}");
    }
}

#[test]
fn no_flags_asks_for_one_day_back() {
    let (since, until) = resolve_window(&args(), NOW).unwrap();
    assert_eq!(until, format_epoch_seconds(NOW));
    assert_eq!(since, format_epoch_seconds(NOW - 86_400));
}

#[test]
fn days_moves_the_window_and_stops_at_thirty_one() {
    let seven = RequestsArgs { days: Some(7), ..args() };
    assert_eq!(resolve_window(&seven, NOW).unwrap().0, format_epoch_seconds(NOW - 7 * 86_400));
    assert!(resolve_window(&RequestsArgs { days: Some(31), ..args() }, NOW).is_ok());
    for days in [0, -1, 32, 365] {
        let error = resolve_window(&RequestsArgs { days: Some(days), ..args() }, NOW).expect_err("out of range");
        assert!(error.contains("between 1 and 31"), "{days}: {error}");
    }
}

#[test]
fn since_alone_runs_to_now_and_a_pinned_window_is_sent_as_written() {
    let since = "2026-09-20T00:00:00Z".to_string();
    let open = RequestsArgs { since: Some(since.clone()), ..args() };
    assert_eq!(resolve_window(&open, NOW).unwrap(), (since.clone(), format_epoch_seconds(NOW)));

    let until = "2026-09-21T06:30:00+05:30".to_string();
    let pinned = RequestsArgs { since: Some(since.clone()), until: Some(until.clone()), ..args() };
    // Byte for byte: the console reads the zone itself.
    assert_eq!(resolve_window(&pinned, NOW).unwrap(), (since, until));
}

#[test]
fn a_window_that_cannot_be_asked_for_is_refused_before_it_is_sent() {
    let since = Some("2026-08-01T00:00:00Z".to_string());
    let case = |since: Option<&str>, until: Option<&str>, days: Option<i64>| {
        resolve_window(
            &RequestsArgs { since: since.map(str::to_string), until: until.map(str::to_string), days, ..args() },
            NOW,
        )
    };
    assert!(case(None, Some("2026-09-01T00:00:00Z"), None).unwrap_err().contains("--until needs --since"));
    assert!(case(since.as_deref(), None, Some(3)).unwrap_err().contains("--days cannot be combined"));
    // Empty or backwards.
    assert!(case(Some("2026-09-01T00:00:00Z"), Some("2026-09-01T00:00:00Z"), None)
        .unwrap_err()
        .contains("later than"));
    assert!(case(Some("2026-09-02T00:00:00Z"), Some("2026-09-01T00:00:00Z"), None)
        .unwrap_err()
        .contains("later than"));
    // Exactly 31 days is allowed; one second more is not.
    assert!(case(Some("2026-08-01T00:00:00Z"), Some("2026-09-01T00:00:00Z"), None).is_ok());
    assert!(case(Some("2026-08-01T00:00:00Z"), Some("2026-09-01T00:00:01Z"), None)
        .unwrap_err()
        .contains("longer than 31 days"));
    // A bound with no timezone never reaches the console.
    assert!(case(Some("2026-08-01T00:00:00"), Some("2026-08-02T00:00:00Z"), None)
        .unwrap_err()
        .contains("timezone"));
    assert!(case(Some("2026-08-01T00:00:00Z"), Some("tomorrow"), None).unwrap_err().contains("timezone"));
}

#[test]
fn a_cursor_needs_the_window_that_issued_it() {
    let cursor = "eyJuIjoxfQ".to_string();
    let both = RequestsArgs {
        since: Some("2026-09-20T00:00:00Z".to_string()),
        until: Some("2026-09-21T00:00:00Z".to_string()),
        cursor: cursor.clone(),
        ..args()
    };
    assert!(resolve_window(&both, NOW).is_ok());
    for broken in [
        RequestsArgs { cursor: cursor.clone(), ..args() },
        RequestsArgs { since: both.since.clone(), cursor: cursor.clone(), ..args() },
    ] {
        assert!(resolve_window(&broken, NOW).unwrap_err().contains("--cursor needs --since and --until"));
    }
}

#[test]
fn request_only_flags_are_named_when_they_stand_alone() {
    let given = ["--follow", "--model", "--days"];
    assert_eq!(
        misplaced_flags(|flag| given.contains(&flag)),
        vec!["--days", "--model", "--follow"],
        "listed in help order, not argv order"
    );
    assert!(misplaced_flags(|_| false).is_empty());
    // `--json` and `--requests` are not on the list: the first is the summary's
    // own, the second is what would make the rest legal.
    assert!(!REQUESTS_ONLY_FLAGS.contains(&"--json"));
    assert!(!REQUESTS_ONLY_FLAGS.contains(&"--requests"));
}

#[test]
fn an_error_is_named_by_its_code_then_by_its_status() {
    let mut errored = row("a");
    assert_eq!(request_error(&errored), None);
    errored.status_code = 503;
    assert_eq!(request_error(&errored), Some("5xx"));
    errored.error_code = "upstream_error".to_string();
    assert_eq!(request_error(&errored), Some("upstream_error"));
    // A 4xx with no code says nothing: the status column already does.
    let mut refused = row("b");
    refused.status_code = 429;
    assert_eq!(request_error(&refused), None);
}

#[test]
fn the_table_draws_a_header_rows_and_an_error_line() {
    let mut slow = row("ledger-1");
    slow.response_request_id = "resp-1".to_string();
    slow.ttft_ms = Some(310);
    let mut failed = row("ledger-2");
    failed.status_code = 500;
    failed.error_code = "upstream_error".to_string();
    failed.finish_reason = "error".to_string();

    let lines = request_table_lines(&[slow, failed]);
    assert_eq!(lines.len(), 4, "header, row, row, error line: {lines:#?}");
    assert!(lines[0].starts_with("started") && lines[0].contains("request"));
    assert!(lines[1].starts_with("03:41:07"), "the time of day: {}", lines[1]);
    assert!(lines[1].contains("310ms") && lines[1].contains("$0.0015"));
    assert!(lines[1].ends_with("resp-1"), "the id a client logged is preferred");
    assert!(lines[2].ends_with("ledger-2"), "the ledger id stands in when there is none");
    assert!(lines[2].contains(" -"), "an absent latency is a dash, not 0ms");
    assert_eq!(lines[3].trim_start(), "error: upstream_error (error)");
}

#[test]
fn an_empty_window_says_so_instead_of_drawing_an_empty_table() {
    assert_eq!(request_table_lines(&[]), vec!["no settled requests in this window".to_string()]);
}

#[test]
fn a_short_or_missing_timestamp_never_panics_the_table() {
    for ts_start in ["", "2026-09-25", "2026-09-25T03"] {
        let mut short = row("a");
        short.ts_start = ts_start.to_string();
        assert_eq!(request_table_lines(&[short]).len(), 2, "{ts_start:?}");
    }
}

#[test]
fn the_summary_counts_what_this_report_carries() {
    let page = UsageRequestsPage {
        as_of: "2026-09-25T08:34:18Z".to_string(),
        total_requests: 1_234,
        prompt_tokens: 5_000,
        cached_tokens: 4_000,
        noncached_prompt_tokens: 1_000,
        completion_tokens: 200,
        reasoning_tokens: 50,
        cost_micros: 2_500_000,
        ..UsageRequestsPage::default()
    };
    let lines = requests_summary_lines(&page, "S", "U", 100);
    assert_eq!(lines[0], "window     S to U");
    assert_eq!(lines[1], "requests   100 of 1,234 settled (as of 2026-09-25T08:34:18Z)");
    assert_eq!(lines[2], "spend      $2.50 over the window");
    assert_eq!(lines[3], "tokens     in 5,000 (cache 4,000, fresh 1,000), out 200 (reasoning 50)");
}

// ---- paging, against a console that serves pages by cursor ----

fn page(rows: usize, next: Option<&str>) -> UsageRequestsPage {
    UsageRequestsPage {
        as_of: "2026-09-25T08:34:18Z".to_string(),
        total_requests: 9,
        requests: (0..rows).map(|n| row(&format!("ledger-{n}"))).collect(),
        next_cursor: next.unwrap_or("").to_string(),
        ..UsageRequestsPage::default()
    }
}

fn signed_in() -> Credentials {
    Credentials {
        console_url: "https://console.example.test".to_string(),
        access_token: "a-token".to_string(),
        ..Credentials::default()
    }
}

fn query() -> UsageRequestsQuery {
    UsageRequestsQuery {
        since: "2026-09-24T00:00:00Z".to_string(),
        until: "2026-09-25T00:00:00Z".to_string(),
        ..UsageRequestsQuery::default()
    }
}

/// What a refresh of this session amounts to: `wally account login` is all that
/// is left without a refresh token.
fn refreshed(credentials: &Credentials) -> (Credentials, Result<(), String>) {
    let mut renewed = credentials.clone();
    let done = refresh_session(&mut renewed, NOW, |_, _| Err("no grant".to_string()), |_| Ok(()));
    (renewed, done)
}

fn accepted(page: UsageRequestsPage) -> Reply<UsageRequestsPage> {
    (IdentityResult::Accepted, page, String::new())
}

#[test]
fn following_reads_every_page_with_the_same_window_and_no_more() {
    let asked: RefCell<Vec<UsageRequestsQuery>> = RefCell::new(Vec::new());
    let serve = |_: &Credentials, q: &UsageRequestsQuery| {
        asked.borrow_mut().push(q.clone());
        accepted(match q.cursor.as_str() {
            "c2" => page(1, None),
            "c1" => page(2, Some("c2")),
            _ => page(2, Some("c1")),
        })
    };
    let mut credentials = signed_in();
    let mut query = query();
    let first = fetch_requests_page(serve, refreshed, &mut credentials, &query).unwrap();
    let held = credentials.clone();
    let (rows, unread) = follow_pages(
        |q: &UsageRequestsQuery| fetch_requests_page(serve, refreshed, &mut held.clone(), q),
        &mut query,
        first.requests.clone(),
        first.next_cursor.clone(),
    )
    .unwrap();

    assert_eq!(rows.len(), 5, "2 + 2 + 1 rows across three pages");
    assert_eq!(unread, "", "the last page has no cursor");
    let asked = asked.borrow();
    assert_eq!(asked.len(), 3);
    for q in asked.iter() {
        assert!(
            q.since == "2026-09-24T00:00:00Z" && q.until == "2026-09-25T00:00:00Z",
            "a page changed the window: {q:?}"
        );
    }
    assert!(asked[1].cursor == "c1" && asked[2].cursor == "c2");
}

#[test]
fn following_a_single_page_asks_for_nothing_more() {
    let asked = RefCell::new(0);
    let serve = |_: &Credentials, _: &UsageRequestsQuery| {
        *asked.borrow_mut() += 1;
        accepted(page(3, None))
    };
    let mut credentials = signed_in();
    let mut query = query();
    let first = fetch_requests_page(serve, refreshed, &mut credentials, &query).unwrap();
    let held = credentials.clone();
    let (rows, unread) = follow_pages(
        |q: &UsageRequestsQuery| fetch_requests_page(serve, refreshed, &mut held.clone(), q),
        &mut query,
        first.requests.clone(),
        first.next_cursor.clone(),
    )
    .unwrap();
    assert_eq!((rows.len(), unread.as_str()), (3, ""));
    assert_eq!(*asked.borrow(), 1);
}

#[test]
fn a_failure_part_way_through_is_an_error_and_not_a_short_report() {
    let serve = |_: &Credentials, q: &UsageRequestsQuery| {
        if q.cursor.is_empty() {
            accepted(page(2, Some("c1")))
        } else {
            (IdentityResult::Failed, page(0, None), "the console is temporarily unavailable".to_string())
        }
    };
    let mut credentials = signed_in();
    let mut query = query();
    let first = fetch_requests_page(serve, refreshed, &mut credentials, &query).unwrap();
    let held = credentials.clone();
    let error = follow_pages(
        |q: &UsageRequestsQuery| fetch_requests_page(serve, refreshed, &mut held.clone(), q),
        &mut query,
        first.requests.clone(),
        first.next_cursor.clone(),
    )
    .unwrap_err();
    assert!(error.contains("temporarily unavailable"), "{error}");
}

#[test]
fn a_cursor_that_never_advances_stops_instead_of_looping() {
    let asked = RefCell::new(0);
    let serve = |_: &Credentials, _: &UsageRequestsQuery| {
        *asked.borrow_mut() += 1;
        accepted(page(1, Some("stuck")))
    };
    let mut credentials = signed_in();
    let mut query = query();
    let first = fetch_requests_page(serve, refreshed, &mut credentials, &query).unwrap();
    let held = credentials.clone();
    let error = follow_pages(
        |q: &UsageRequestsQuery| fetch_requests_page(serve, refreshed, &mut held.clone(), q),
        &mut query,
        first.requests.clone(),
        first.next_cursor.clone(),
    )
    .unwrap_err();
    assert!(error.contains("same page cursor twice"), "{error}");
    assert_eq!(*asked.borrow(), 2, "one repeat, then stop");
}

#[test]
fn a_window_of_endless_pages_hits_the_cap() {
    let asked = RefCell::new(0);
    let serve = |_: &Credentials, _: &UsageRequestsQuery| {
        *asked.borrow_mut() += 1;
        let n = *asked.borrow();
        accepted(page(1, Some(&format!("c{n}"))))
    };
    let mut credentials = signed_in();
    let mut query = query();
    let first = fetch_requests_page(serve, refreshed, &mut credentials, &query).unwrap();
    let held = credentials.clone();
    let error = follow_pages(
        |q: &UsageRequestsQuery| fetch_requests_page(serve, refreshed, &mut held.clone(), q),
        &mut query,
        first.requests.clone(),
        first.next_cursor.clone(),
    )
    .unwrap_err();
    assert!(error.contains("more than 100 pages"), "{error}");
    assert_eq!(*asked.borrow(), MAX_FOLLOWED_PAGES);
}

#[test]
fn a_rejected_session_that_cannot_refresh_says_to_log_in() {
    let asked = RefCell::new(0);
    let serve = |_: &Credentials, _: &UsageRequestsQuery| {
        *asked.borrow_mut() += 1;
        (IdentityResult::Unauthorized, page(0, None), String::new())
    };
    let mut credentials = signed_in(); // no refresh token
    let error = fetch_requests_page(serve, refreshed, &mut credentials, &query()).unwrap_err();
    assert!(error.contains("rejected this session"), "{error}");
    assert!(error.contains("wally account login"), "{error}");
    assert_eq!(*asked.borrow(), 1, "no retry without a refresh");
}

// ---- what the library states beyond those ----

#[test]
fn a_rejected_session_is_refreshed_once_and_asked_again() {
    let asked = RefCell::new(Vec::new());
    let serve = |c: &Credentials, q: &UsageQuery| {
        asked.borrow_mut().push((c.access_token.clone(), q.days, q.limit));
        if c.access_token == "fresh" {
            (IdentityResult::Accepted, Usage::default(), String::new())
        } else {
            (IdentityResult::Unauthorized, Usage::default(), String::new())
        }
    };
    let refresh = |c: &Credentials| (Credentials { access_token: "fresh".to_string(), ..c.clone() }, Ok(()));
    let mut credentials = signed_in();
    assert!(fetch_usage(serve, refresh, &mut credentials).is_ok());
    assert_eq!(credentials.access_token, "fresh");
    assert_eq!(*asked.borrow(), vec![("a-token".to_string(), 1, 1), ("fresh".to_string(), 1, 1)]);
    assert_eq!((summary_query().days, summary_query().limit), (1, 1));
}

#[test]
fn a_refresh_that_cannot_be_saved_still_leaves_the_new_token() {
    let serve =
        |_: &Credentials, _: &UsageQuery| (IdentityResult::Unauthorized, Usage::default(), String::new());
    let refresh = |c: &Credentials| {
        (Credentials { access_token: "fresh".to_string(), ..c.clone() }, Err("disk full".to_string()))
    };
    let mut credentials = signed_in();
    assert!(fetch_usage(serve, refresh, &mut credentials).is_err());
    assert_eq!(credentials.access_token, "fresh");
}

#[test]
fn a_grant_keeps_the_refresh_token_it_does_not_replace() {
    let mut credentials = signed_in();
    credentials.refresh_token = "keep".to_string();
    let grant = Grant { access_token: "new".to_string(), expires_in: 0, ..Grant::default() };
    apply_grant(&mut credentials, grant, 1_000);
    assert_eq!(credentials.access_token, "new");
    assert_eq!(credentials.refresh_token, "keep");
    assert_eq!(credentials.expires_at, 4_600);
    let grant = Grant {
        access_token: "newer".to_string(),
        refresh_token: "next".to_string(),
        expires_in: i64::MAX,
        ..Grant::default()
    };
    apply_grant(&mut credentials, grant, 1_000);
    assert_eq!(credentials.refresh_token, "next");
    assert_eq!(credentials.expires_at, i64::MAX);
}

#[test]
fn a_refresh_asks_with_the_token_and_saves_the_answer() {
    let mut credentials = signed_in();
    credentials.refresh_token = "r".to_string();
    let saved = RefCell::new(String::new());
    let r = refresh_session(
        &mut credentials,
        10,
        |url, token| {
            assert_eq!((url, token), ("https://console.example.test", "r"));
            Ok(Grant { access_token: "b".to_string(), expires_in: 5, ..Grant::default() })
        },
        |c| {
            *saved.borrow_mut() = c.access_token.clone();
            Err("disk full".to_string())
        },
    );
    assert_eq!(r, Err("disk full".to_string()));
    assert_eq!(*saved.borrow(), "b");
    assert_eq!(credentials.expires_at, 15);
}

#[test]
fn flags_decide_what_usage_does() {
    assert!(matches!(plan_usage(false, false, false, &vec![]), UsagePlan::Summary));
    assert!(matches!(plan_usage(true, true, false, &vec!["--days"]), UsagePlan::Requests));
    match plan_usage(false, false, false, &vec!["--days", "--follow"]) {
        UsagePlan::Refuse(m) => assert_eq!(m, "--days, --follow only applies with --requests"),
        other => panic!("{other:?}"),
    }
    match plan_usage(true, true, true, &vec![]) {
        UsagePlan::Refuse(m) => assert!(m.starts_with("--follow cannot be combined with --json")),
        other => panic!("{other:?}"),
    }
    assert_eq!(MAX_REQUESTS_WINDOW_DAYS, 31);
}

#[test]
fn usage_walks_its_stages() {
    let run = UsageRun { expired: true, follow: true, json: false };
    let mut stage = usage_requests();
    let mut seen = vec![stage];
    while !matches!(stage, UsageStage::Finished(_)) {
        stage = usage_next(run, stage, true);
        seen.push(stage);
    }
    assert_eq!(
        seen,
        vec![
            UsageStage::Window,
            UsageStage::Session,
            UsageStage::Refresh,
            UsageStage::Fetch,
            UsageStage::Follow,
            UsageStage::Show,
            UsageStage::Finished(0),
        ]
    );
    let once = UsageRun { expired: false, follow: true, json: true };
    assert_eq!(usage_next(once, usage(), true), UsageStage::Fetch);
    assert_eq!(usage_next(once, UsageStage::Fetch, true), UsageStage::Show);
    assert_eq!(usage_next(once, UsageStage::Fetch, false), UsageStage::Finished(1));
}

#[test]
fn a_session_that_cannot_be_used_says_why() {
    assert_eq!(session_problem(&Err("broken".to_string()), false), Some("broken".to_string()));
    assert_eq!(
        session_problem(&Ok(signed_in()), false),
        Some("not signed in — run `wally account login`".to_string())
    );
    assert_eq!(session_problem(&Ok(signed_in()), true), None);
}

#[test]
fn the_first_query_repeats_the_arguments() {
    let a = RequestsArgs { model: "m".to_string(), status_code: 500, limit: 7, cursor: "c".to_string(), ..args() };
    let q = requests_query(&a, "S".to_string(), "U".to_string());
    assert_eq!((q.since.as_str(), q.until.as_str(), q.model.as_str()), ("S", "U", "m"));
    assert_eq!((q.status_code, q.limit, q.cursor.as_str()), (500, 7, "c"));
}

#[test]
fn the_report_hints_at_rows_left_unread() {
    let p = page(1, Some("more"));
    let printed = print_requests_report(&p, "S", "U", &p.requests, &p.next_cursor);
    let last = printed.lines.last().unwrap();
    assert_eq!(last.channel, Channel::Status);
    assert_eq!(last.text, "more rows exist; pass --follow to read every page");
    let done = print_requests_report(&p, "S", "U", &p.requests, "");
    assert_eq!(done.lines.len() + 1, printed.lines.len());
    let document = print_requests_json(&p, "S", "U");
    assert_eq!(document.ops[0].write, JsonWrite::BeginObject);
    assert_eq!(document.ops.last().unwrap().write, JsonWrite::EndObject);
    assert!(document.ops.iter().any(|op| op.key == "next_cursor" && op.text == "more"));
}

#[test]
fn the_summary_names_its_windows() {
    let totals = UsageTotals { prompt_tokens: 1_000, completion_tokens: 20, cached_tokens: 3, cost_micros: 1_500_000 };
    let u = Usage {
        credit: Credit { balance_micros: 12_340_000, granted_micros: 20_000_000, spent_micros: 7_660_000 },
        windows: vec![UsageWindow { window: "24h".to_string(), totals }],
    };
    assert_eq!(window(&u, "24h").unwrap().totals.cost_micros, 1_500_000);
    assert!(window(&u, "7d").is_none());
    let report = print_report(&u);
    assert_eq!(report.lines[0].channel, Channel::Result);
    assert_eq!(report.lines[0].text, "credit     $12.34 left of $20.00 granted");
    assert!(report.lines.iter().any(|l| l.text.contains("$12.34")));
    let json = print_json(&u);
    assert!(json.ops.iter().any(|op| op.write == JsonWrite::Integer && op.number == 12_340_000));
}

#[test]
fn money_is_written_as_floating_point_would_write_it() {
    assert_eq!(money(0), "$0.00");
    assert_eq!(money(2_500_000), "$2.50");
    assert_eq!(money(1_500), "$0.0015");
    for micros in [1i64, 99, 10_000, 999_999, 1_000_000, 1_234_567, 123_456_789_012, i64::MAX, -1_500, -2_500_000, i64::MIN] {
        let places = if micros != 0 && micros < 1_000_000 { 4 } else { 2 };
        assert_eq!(money(micros), format!("${:.*}", places, micros as f64 / 1_000_000.0), "{micros}");
    }
}

#[test]
fn large_numbers_are_grouped() {
    assert_eq!(grouped(0), "0");
    assert_eq!(grouped(999), "999");
    assert_eq!(grouped(1_000), "1,000");
    assert_eq!(grouped(-1_234_567), "-1,234,567");
}

#[test]
fn the_calendar_knows_leap_years() {
    assert_eq!(days_from_civil(1970, 1, 1), 0);
    assert_eq!(days_from_civil(2000, 3, 1), 11_017);
    assert_eq!(civil_from_days(11_017), (2000, 3, 1));
    assert_eq!(days_in_month(2024, 2), 29);
    assert_eq!(days_in_month(2100, 2), 28);
    assert_eq!(format_epoch_seconds(NOW), "2026-09-21T14:13:20Z");
}
