use wally::commands::cmd_default_models::{
    current_json, current_line, default_action, resolve_default_model, run_default_model, DefaultAction,
};
use wally::commands::cmd_editors::{onboarded_settings, prepare_claude_config_dir, SeedKind};
use wally::config::cli_paths::{normalize_dir, resolve_home, state_dir, StateEnv};
use wally::config::preferences::{
    clear_default_model, effective_default_model, file_default_model, preferences_path, read_file, resolve_model,
    set_default_model, temporary_path, write_file, write_problem, DefaultModel, DefaultModelSource, WriteStage,
};
use wally::desktop::brand::{brand_of, Brand};
use wally::desktop::claude_profile::{
    apply_gateway, edit_document, gateway_applied, profile_directory, restore_gateway, write_failure, Edit, Gateway,
};
use wally::output::Report;

fn brand() -> Brand {
    brand_of("acme")
}

fn some(s: &str) -> Option<String> {
    Some(s.to_string())
}

fn no_env() -> StateEnv {
    StateEnv { xdg_state_home: None, local_app_data: None, user_profile: None, home: None }
}

#[test]
fn open_failure_uses_cannot_write_text() {
    let temp = "/tmp/x/missing-subdir/preferences.json.tmp";
    assert_eq!(temporary_path("/tmp/x/missing-subdir"), temp);
    let error = write_problem(WriteStage::Open, temp, "no such file or directory").unwrap();
    assert_eq!(error, format!("cannot write {temp}"));
    assert_eq!(write_problem(WriteStage::Fill, temp, "").unwrap(), format!("failed writing {temp}"));
    assert_eq!(write_problem(WriteStage::Replace, "/p", "busy").unwrap(), "cannot replace /p: busy");
    assert_eq!(write_problem(WriteStage::MakeDirectory, "/d", "full").unwrap(), "cannot create /d: full");
    assert!(write_problem(WriteStage::Locate, "", "").unwrap().contains("home directory"));
}

#[test]
fn preferences_are_written_whole_or_not_at_all() {
    let mut stage = WriteStage::Locate;
    let mut seen = Vec::new();
    while !matches!(stage, WriteStage::Ended(_)) {
        seen.push(stage);
        stage = write_file(stage, true);
    }
    assert_eq!(stage, WriteStage::Ended(true));
    assert_eq!(seen.last(), Some(&WriteStage::Replace));
    assert_eq!(write_file(WriteStage::Replace, false), WriteStage::Clean);
    assert_eq!(write_file(WriteStage::Clean, true), WriteStage::Ended(false));
    assert_eq!(write_file(WriteStage::Fill, false), WriteStage::Ended(false));
}

#[test]
fn prepare_claude_config_dir_returns_none_with_no_state_dir() {
    let state = state_dir(&no_env(), false);
    let result = prepare_claude_config_dir(&brand(), &state, &None, true, &Vec::new());
    assert!(result.is_none(), "an unresolvable state dir must not export a root-level CLAUDE_CONFIG_DIR");
}

#[test]
fn a_first_run_copies_what_is_no_login() {
    let entries = vec!["skills".to_string(), ".credentials.json".to_string(), "projects".to_string()];
    let (dir, steps) = prepare_claude_config_dir(&brand(), "/s", &some("/home/u"), true, &entries).unwrap();
    assert_eq!(dir, "/s/acme");
    let copied: Vec<_> = steps.iter().filter(|s| s.kind == SeedKind::CopyTree).collect();
    assert_eq!(copied.len(), 1);
    assert_eq!((copied[0].from.as_str(), copied[0].to.as_str()), ("/home/u/.acme/skills", "/s/acme/skills"));
    assert_eq!(steps[0].kind, SeedKind::Make);
    assert_eq!(steps.last().unwrap().kind, SeedKind::MarkOnboarded);
    let (_, later) = prepare_claude_config_dir(&brand(), "/s", &some("/home/u"), false, &entries).unwrap();
    assert!(later.iter().all(|s| s.kind != SeedKind::CopyTree));
    assert_eq!(later.iter().filter(|s| s.kind == SeedKind::Refresh).count(), 3);
    assert_eq!(prepare_claude_config_dir(&brand(), "/s", &None, true, &entries).unwrap().1.len(), 2);
}

#[test]
fn onboarding_is_marked_and_the_rest_kept() {
    let doc = onboarded_settings(Some(r#"{"theme":"dark","hasCompletedOnboarding":false}"#));
    assert_eq!(doc["theme"], "dark");
    assert_eq!(doc["hasCompletedOnboarding"], true);
    assert_eq!(onboarded_settings(Some("[1]"))["hasCompletedOnboarding"], true);
    assert_eq!(onboarded_settings(Some("{torn")).as_object().unwrap().len(), 1);
    assert_eq!(onboarded_settings(None).as_object().unwrap().len(), 1);
}

#[test]
fn directories_are_normalized() {
    assert_eq!(normalize_dir("/a/b//", false), "/a/b");
    assert_eq!(normalize_dir("/", false), "/");
    let once = normalize_dir(r"C:\x\", true);
    assert_eq!(normalize_dir(&once, true), once);
    assert_eq!(resolve_home("/flag/", &some("/env"), &None, false), "/flag");
    assert_eq!(resolve_home("", &some("/env"), &some("/kit"), false), "/env");
    assert_eq!(resolve_home("", &None, &some("/kit/"), false), "/kit");
}

#[test]
fn the_state_directory_comes_from_the_environment() {
    let xdg = StateEnv { xdg_state_home: some("/x"), home: some("/home/u"), ..no_env() };
    let home = StateEnv { home: some("/home/u"), ..no_env() };
    assert!(state_dir(&xdg, false).starts_with("/x/"));
    assert!(state_dir(&home, false).starts_with("/home/u/"));
    assert_eq!(state_dir(&no_env(), false), "");
}

#[test]
fn a_default_model_is_set_read_and_cleared() {
    let (doc, warning) = read_file(Some(br#"{"default_model":"a","other":1}"#), "/p");
    assert_eq!(warning, None);
    assert_eq!(file_default_model(&doc), some("a"));
    let doc = set_default_model(doc, "b", true).unwrap();
    assert_eq!(file_default_model(&doc), some("b"));
    assert_eq!(doc["other"], 1);
    assert!(set_default_model(doc.clone(), "b", false).is_err());
    let cleared = clear_default_model(doc).unwrap();
    assert_eq!(file_default_model(&cleared), None);
    assert_eq!(cleared["other"], 1);
    let (empty, _) = read_file(None, "/p");
    assert!(empty.is_object());
    let (torn, warning) = read_file(Some(b"{torn"), "/p");
    assert!(torn.is_object());
    assert!(warning.unwrap().contains("/p"));
}

#[test]
fn the_most_explicit_default_wins() {
    assert_eq!(resolve_model("x", "e", some("f"), "b"), "x");
    assert_eq!(resolve_model("", "e", some("f"), "b"), "e");
    let file = effective_default_model("", some("f"), "b");
    assert_eq!((file.id.as_str(), file.source), ("f", DefaultModelSource::File));
    assert!(file.set());
    let nothing = effective_default_model("", None, "");
    assert_eq!(nothing.source, DefaultModelSource::Nowhere);
    assert!(!nothing.set());
    assert_eq!(effective_default_model("", None, "b").source, DefaultModelSource::BuiltIn);
    assert_eq!(current_line(&effective_default_model("e", None, "")).lines[0].text, "e (from WALLY_DEFAULT_MODEL)");
    assert!(current_json(&nothing).ops.iter().any(|op| op.key == "model"));
    assert_eq!(default_action(true, "m"), DefaultAction::Clear);
    assert_eq!(default_action(false, "m"), DefaultAction::Save);
    assert_eq!(default_action(false, ""), DefaultAction::Show);
    assert_eq!(resolve_default_model("m", "e", some("f"), "b", "<", ">"), ("m".to_string(), None));
    assert_eq!(
        resolve_default_model("", "", some("f"), "b", "<", ">"),
        ("f".to_string(), some("<model not provided, using default model f>"))
    );
    assert_eq!(resolve_default_model("", "", None, "", "<", ">"), (String::new(), None));
    assert_eq!(preferences_path("/d"), "/d/preferences.json");
    assert_eq!(preferences_path(""), "");
}

#[test]
fn a_default_that_was_set_is_read_back() {
    for (contents, model) in [(None, "m"), (Some(r#"{"default_model":"old","theme":"dark"}"#), "a \"b\"")] {
        let (before, _) = read_file(contents.map(str::as_bytes), "/p");
        let text = set_default_model(before, model, true).unwrap().to_string();
        let (again, warning) = read_file(Some(text.as_bytes()), "/p");
        assert!(warning.is_none());
        assert_eq!(file_default_model(&again), some(model));
        assert_eq!(file_default_model(&clear_default_model(again).unwrap()), None);
    }
    assert_eq!(DefaultModelSource::default(), DefaultModelSource::Nowhere);
    let none = DefaultModel::default();
    assert_eq!((none.id.as_str(), none.source, none.set()), ("", DefaultModelSource::Nowhere, false));
}

#[test]
fn the_default_model_command_ends_by_what_was_saved() {
    let now = effective_default_model("", some("f"), "");
    let said = |r: &Report| match r {
        Report::Lines(p) => p.lines.iter().map(|l| l.text.clone()).collect::<Vec<_>>(),
        _ => vec!["document".to_string()],
    };
    let (shown, code) = run_default_model(DefaultAction::Save, "m", Ok(()), &now, false);
    assert_eq!((said(&shown), code), (vec!["default model set to m".to_string()], 0));
    let (shown, code) = run_default_model(DefaultAction::Clear, "", Ok(()), &now, false);
    assert_eq!((said(&shown), code), (vec!["default model cleared".to_string()], 0));
    let (shown, code) = run_default_model(DefaultAction::Save, "m", Err("full".to_string()), &now, true);
    assert_eq!((said(&shown), code), (vec!["full".to_string()], 1));
    let (shown, code) = run_default_model(DefaultAction::Show, "", Ok(()), &now, true);
    assert_eq!((said(&shown), code), (vec!["document".to_string()], 0));
}

fn gateway() -> Gateway {
    Gateway {
        base_url: "http://127.0.0.1:9".to_string(),
        api_key: "k".to_string(),
        models: vec![("alias".to_string(), "model".to_string())],
        display_name: "wally: model".to_string(),
    }
}

fn edited(edit: Edit, contents: Option<&str>) -> serde_json::Value {
    edit_document(edit, &gateway(), contents, "/p").unwrap().unwrap()
}

#[test]
fn a_gateway_is_applied_and_taken_back() {
    let home = "/home/u";
    assert!(profile_directory(&brand(), home).starts_with(home));
    let applied = apply_gateway(&brand(), home).unwrap();
    assert!(applied.iter().any(|(e, _)| *e == Edit::WriteProfile));
    assert!(applied.iter().any(|(e, _)| *e == Edit::ListProfile));
    assert!(apply_gateway(&brand(), "").is_err());
    assert!(restore_gateway(&brand(), home).iter().any(|(e, _)| *e == Edit::StripProfile));

    let before = r#"{"mine":1}"#;
    let written = edited(Edit::WriteProfile, Some(before));
    assert_eq!(written["mine"], 1);
    assert!(written.to_string().contains("http://127.0.0.1:9"));
    let stripped = edited(Edit::StripProfile, Some(&written.to_string()));
    assert_eq!(stripped.to_string(), before);

    let listed = edited(Edit::ListProfile, None);
    assert!(gateway_applied(Some(&listed.to_string())));
    let twice = edited(Edit::ListProfile, Some(&listed.to_string()));
    assert_eq!(twice.to_string(), listed.to_string());
    let unlisted = edited(Edit::UnlistProfile, Some(&twice.to_string()));
    assert!(!gateway_applied(Some(&unlisted.to_string())));
    assert!(!gateway_applied(None) && !gateway_applied(Some("{torn")));

    let third = edited(Edit::ThirdParty, None);
    let first = edited(Edit::FirstParty, Some(&third.to_string()));
    assert_ne!(third.to_string(), first.to_string());
    assert!(edit_document(Edit::WriteProfile, &gateway(), Some("{torn"), "/p").unwrap_err().contains("/p"));
    assert!(write_failure("/p").contains("/p"));
}
