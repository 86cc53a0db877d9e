use wally::account::{Credentials, Grant, IdentityResult};
use wally::commands::cmd_account::{
    apply_grant, approval_lines, approval_problem, begin_who_am_i, browser_failure, console_web_origin, hostname, login,
    logout, nothing_to_sign_out, open_browser, poll_turn, rebase_approval_url, request_lifetime, requested_console,
    signed_in_lines, timed_out, waiting_line, who_am_i, whoami_json, whoami_lines, LoginNext, LoginStage, PollOutcome,
    PollResult, SECOND, WhoReply, WhoStage,
};
use wally::commands::cmd_auth::{auth_code, auth_json, auth_lines, run_auth_login, LoginSummary};
use wally::commands::cmd_editors::{
    advertised, begin_launch, bundle_path, bundle_problem, cloud_context_window, context_status, desktop_aliases,
    editor_route, launch_context, launch_environment, launch_request, launch_status, restore, run, serve, serve_lines,
    serve_request, Editor, EditorRoute, HostedModel, LaunchStage, ServeStage, Wiring,
};
use wally::commands::cmd_harness::{agent_missing, opencode_route, OpencodeRoute};
use wally::commands::editor_env::{open_args, Shim};
use wally::commands::opening::report_code;
use wally::commands::reports::auth_report;
use wally::desktop::brand::{brand_of, Brand};
use wally::output::Report;

fn brand() -> Brand {
    brand_of("acme")
}

fn some(s: &str) -> Option<String> {
    Some(s.to_string())
}

#[test]
fn rebase_approval_url_preserves_a_query_only_suffix() {
    let origin = console_web_origin(
        &some("https://console.runanywhere.ai"),
        &None,
        "",
        "",
        "https://inference.runanywhere.ai",
    )
    .unwrap();
    let result = rebase_approval_url("https://runanywhere-frontend-production.up.railway.app?code=abc", &origin);
    assert_eq!(result, "https://console.runanywhere.ai?code=abc");
}

#[test]
fn a_console_that_is_compiled_in_counts_for_its_own_api() {
    assert_eq!(console_web_origin(&None, &None, "api", "web", "api"), some("web"));
    assert_eq!(console_web_origin(&None, &None, "api", "web", "other"), None);
    assert_eq!(console_web_origin(&None, &some("r"), "api", "web", "api"), some("r"));
    assert_eq!(rebase_approval_url("https://a.test/x/y?z#w", "https://b.test"), "https://b.test/x/y?z#w");
}

fn polled(result: PollResult, has_grant: bool) -> PollOutcome {
    PollOutcome { result, error: "why".to_string(), retry_after: 0, has_grant }
}

#[test]
fn a_sign_in_waits_and_ends() {
    let left = Some(100 * SECOND);
    match poll_turn(&polled(PollResult::Pending, false), 5, 5, left).1 {
        LoginNext::Wait(t) => assert!(t <= 100 * SECOND && t > 0),
        other => panic!("{other:?}"),
    }
    assert!(matches!(poll_turn(&polled(PollResult::Approved, true), 5, 5, left).1, LoginNext::Accept));
    assert!(matches!(poll_turn(&polled(PollResult::Denied, false), 5, 5, left).1, LoginNext::Fail));
    assert!(matches!(poll_turn(&polled(PollResult::Expired, false), 5, 5, left).1, LoginNext::Fail));
    assert!(matches!(poll_turn(&polled(PollResult::Pending, false), 5, 5, None).1, LoginNext::Fail));
    assert!(approval_problem(false).is_some() && approval_problem(true).is_none());
    assert!(approval_lines("ABCD", "https://u").lines.iter().any(|l| l.text.contains("https://u")));
    assert_eq!(waiting_line(), "waiting for approval");
    assert!(signed_in_lines("a@b", "/p").lines.iter().any(|l| l.text.contains("a@b")));
}

#[test]
fn a_sign_in_ends_with_1_wherever_it_fails() {
    let end = |fails: LoginStage, turn: LoginNext| {
        let mut stage = LoginStage::Console;
        while !matches!(stage, LoginStage::Finished(_) | LoginStage::Sleep(_)) {
            stage = login(stage, stage != fails, turn);
        }
        stage
    };
    assert_eq!(end(LoginStage::Finished(9), LoginNext::Accept), LoginStage::Finished(0));
    for fails in [
        LoginStage::Console,
        LoginStage::Authorize,
        LoginStage::Check,
        LoginStage::Clock,
        LoginStage::Save,
    ] {
        assert_eq!(end(fails, LoginNext::Accept), LoginStage::Finished(1));
    }
    assert_eq!(end(LoginStage::Cache, LoginNext::Accept), LoginStage::Finished(0), "the list can wait");
    assert_eq!(end(LoginStage::Finished(9), LoginNext::Fail), LoginStage::Finished(1));
    assert_eq!(end(LoginStage::Finished(9), LoginNext::Wait(5)), LoginStage::Sleep(5));
    assert_eq!(login(LoginStage::Sleep(5), true, LoginNext::Fail), LoginStage::Clock, "the clock before every poll");
    assert_eq!(timed_out(), "timed out waiting for approval");
    assert_eq!((request_lifetime(-3), request_lifetime(600)), (0, 600));
    assert_eq!(requested_console("", "https://d"), "https://d");
    assert_eq!(requested_console("https://c", "https://d"), "https://c");
}

#[test]
fn the_context_window_comes_from_what_serves() {
    let models = vec![HostedModel { id: "m".to_string(), context_window: 9 }];
    let accepted = IdentityResult::Accepted;
    assert_eq!(launch_context(true, 4096, true, accepted, &models, "", "m").1, 4096);
    assert_eq!(launch_context(false, 4096, true, accepted, &models, "", "m").1, 9);
    assert_eq!(launch_context(false, 4096, false, accepted, &models, "", "m").1, 0);
    let (said, window) = launch_context(false, 4096, true, IdentityResult::Failed, &models, "down", "m");
    assert_eq!(window, 0);
    assert!(said.lines[0].text.contains("(down)"));
}

#[test]
fn a_sign_in_takes_over_its_grant() {
    let mut c = Credentials::default();
    let grant = Grant {
        access_token: "a".to_string(),
        refresh_token: "r".to_string(),
        email: "e@x".to_string(),
        expires_in: 10,
    };
    apply_grant(&grant, &mut c, 100);
    assert_eq!((c.access_token.as_str(), c.refresh_token.as_str(), c.email.as_str()), ("a", "r", "e@x"));
    assert_eq!(c.expires_at, 110);
    assert!(nothing_to_sign_out(false, &Credentials::default()).is_some());
    assert_eq!(nothing_to_sign_out(true, &c), None);
    assert_eq!(logout(&None, &None).1, 0);
    assert_eq!(logout(&some("locked"), &None).1, 1);
}

#[test]
fn whoami_asks_twice_at_most() {
    let mut stage = begin_who_am_i(true, false);
    assert_eq!(stage, WhoStage::Ask);
    stage = who_am_i(stage, WhoReply::TurnedAway);
    assert_eq!(stage, WhoStage::RefreshAgain);
    stage = who_am_i(stage, WhoReply::Worked);
    assert_eq!(stage, WhoStage::AskAgain);
    assert_eq!(who_am_i(stage, WhoReply::TurnedAway), WhoStage::Fail);
    assert_eq!(who_am_i(stage, WhoReply::Worked), WhoStage::Show);
    assert_eq!(begin_who_am_i(false, true), WhoStage::NotSignedIn);
    assert_eq!(begin_who_am_i(true, true), WhoStage::Refresh);
    assert!(whoami_json("a@b", "u").ops.iter().any(|op| op.text == "a@b"));
    assert!(whoami_lines("a@b").lines[0].text.contains("a@b"));
}

#[test]
fn a_host_is_named_by_its_buffer() {
    assert_eq!(hostname(true, b"box\0\0\0"), "box");
    assert_eq!(hostname(true, b"b\xFFx\0"), "b\u{FFFD}x");
    assert_eq!(hostname(true, b"\0box"), "unknown");
    assert_eq!(hostname(true, b"box"), "unknown");
    assert_eq!(hostname(false, b"box\0"), "unknown");
}

#[test]
fn a_browser_is_opened_by_the_platform() {
    let url = "https://example.test/approve";
    assert_eq!(open_browser(url, false, false).unwrap(), vec!["xdg-open", url]);
    assert_eq!(open_browser(url, false, true).unwrap(), vec!["open", url]);
    assert_eq!(open_browser(url, true, false).unwrap(), vec!["rundll32", "url.dll,FileProtocolHandler", url]);
    assert_eq!(open_browser("a\0b", false, false), None);
    assert!(browser_failure().starts_with("could not open a browser"));
}

#[test]
fn a_device_signs_in() {
    let summary = LoginSummary {
        organization_id: "org".to_string(),
        user_id: "user".to_string(),
        backend_device_id: "dev".to_string(),
        persistent_device_id: "pdev".to_string(),
        token_expires_at: 5,
        has_completed_http_setup: true,
        assignment_count: 2,
        warning: String::new(),
    };
    assert!(auth_json(&summary).ops.iter().any(|op| op.text == "org"));
    assert!(!auth_lines(&summary).lines.is_empty());
    assert!(matches!(auth_report(&summary, true), Report::Document(_)));
    assert!(matches!(auth_report(&summary, false), Report::Lines(_)));
    assert_eq!(run_auth_login(&summary), (None, 0));
    assert_eq!((auth_code(false, &None), auth_code(true, &None)), (1, 1));
    assert_eq!(auth_code(true, &Some(summary)), 0);
    assert_eq!((report_code(true), report_code(false)), (0, 1));
}

#[test]
fn editors_are_launched_and_put_back() {
    let mut stage = begin_launch("m");
    let mut seen = Vec::new();
    while !matches!(stage, LaunchStage::Done(_)) {
        seen.push(stage);
        stage = run(Wiring::ClaudeProfile, stage, true, 3);
    }
    assert!(seen.contains(&LaunchStage::Apply));
    assert!(seen.iter().any(|s| matches!(s, LaunchStage::Restore(_))));
    assert!(seen.iter().any(|s| matches!(s, LaunchStage::Stop(_))));
    assert!(matches!(seen.last(), Some(LaunchStage::Release(_))));
    assert_eq!(begin_launch(""), LaunchStage::LaunchPlain);
    assert!(matches!(editor_route(&brand(), Editor::ClaudeDesktop, true, false, true, true, true).1, EditorRoute::Restore));
    assert!(matches!(editor_route(&brand(), Editor::ClaudeCode, false, false, false, false, false).1, EditorRoute::Refuse(127)));
    assert!(matches!(editor_route(&brand(), Editor::ClaudeCode, false, true, false, false, false).1, EditorRoute::Serve));
    assert!(matches!(editor_route(&brand(), Editor::ClaudeDesktop, false, false, false, true, true).1, EditorRoute::Refuse(1)));
    assert!(matches!(editor_route(&brand(), Editor::ClaudeCode, false, false, false, false, true).1, EditorRoute::Run));
    assert!(bundle_problem(&brand(), Editor::ClaudeDesktop, true, false).is_some());
    assert_eq!(bundle_path("Acme.app", &some("/h")).len(), 2);
    assert_eq!(restore(&brand(), Editor::ClaudeDesktop, &None).1, 0);
    assert_eq!(restore(&brand(), Editor::ClaudeDesktop, &some("no")).1, 1);
    assert_eq!(serve(ServeStage::Resolve, false), ServeStage::Done(1));
    assert_eq!(serve(ServeStage::StartShim, false), ServeStage::Release(1));
    assert_eq!(serve(ServeStage::Release(1), true), ServeStage::Done(1));
    assert_eq!(serve(serve(ServeStage::Resolve, true), true), ServeStage::Hold);
    let plain = serve_request("m", true);
    assert_eq!((plain.model.as_str(), plain.advertised.as_str(), plain.aliases.len()), ("m", "", 0));
    let wired = launch_request(&brand(), Wiring::ClaudeProfile, "m", false, &vec!["m".to_string()]);
    assert_eq!(wired.advertised, "acme-sonnet-4-5");
    assert_eq!(wired.aliases, vec![("acme-sonnet-4-5".to_string(), "m".to_string())]);
    assert!(serve_lines("http://x", "t", "m").lines.iter().any(|l| l.text.contains("http://x")));
    assert!(!launch_status(&brand(), Editor::ClaudeCode, "m", "http://x").lines.is_empty());
}

#[test]
fn a_terminal_tool_is_wired_by_its_environment() {
    let changes = launch_environment("http://x", "tok", &some("/c"), 8192, "m", &vec!["m".to_string()]);
    let value = |name: &str| changes.iter().find(|c| c.name == name).and_then(|c| c.value.clone());
    assert_eq!(value("ANTHROPIC_BASE_URL"), some("http://x"));
    assert_eq!(value("ANTHROPIC_AUTH_TOKEN"), some("tok"));
    assert_eq!(value("CLAUDE_CONFIG_DIR"), some("/c"));
    assert!(changes.iter().any(|c| c.name == "ANTHROPIC_API_KEY" && c.value.is_none()));
    assert!(context_status(8192).is_some());
    assert_eq!(context_status(0), None);
    assert_eq!(desktop_aliases(&brand(), Wiring::Environment, &vec!["m".to_string()]).len(), 0);
    assert_eq!(advertised(&brand(), Wiring::Environment, "m"), "m");
    let models = vec![HostedModel { id: "m".to_string(), context_window: 9 }];
    assert_eq!(cloud_context_window(true, IdentityResult::Accepted, &models, "", "m").1, 9);
    assert_eq!(cloud_context_window(false, IdentityResult::Accepted, &models, "", "m").1, 0);
    let shim = Shim { running: true, base_url: "http://x".to_string(), auth_token: "t".to_string() };
    let args = open_args("Acme.app", &shim, &vec!["--flag".to_string()], "m");
    assert!(args.contains(&"--flag".to_string()));
}

#[test]
fn opencode_is_routed() {
    assert!(matches!(opencode_route(false, true, ""), OpencodeRoute::Missing(127)));
    assert!(matches!(opencode_route(true, true, ""), OpencodeRoute::Refuse(_, 2)));
    assert!(matches!(opencode_route(true, true, "m"), OpencodeRoute::LaunchHosted));
    assert!(matches!(opencode_route(true, false, ""), OpencodeRoute::Launch));
    assert_eq!(agent_missing(false), Some(127));
    assert_eq!(agent_missing(true), None);
}
