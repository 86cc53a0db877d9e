use wally::commands::cmd_list::{group_models, join_backends, listed_models, run_list, ListedModel};
use wally::commands::cmd_models::{
    category_choices, framework_override, load_reply, loaded_line, loaded_model_id, parse_category, register_reply,
    registered_json, registered_line, resident_models, run_load, run_models, run_register, run_state, run_unload,
    state_categories, unload_reply, unloaded_lines, LoadedModel, ModelsStage, UnloadResult,
};
use wally::commands::cmd_pull::{
    begin_pull, cancel_request, cancelling_line, download_start_result, plan_problem, plan_request, present_line,
    pull_model_flow, pulled_line, registry_entry, rescan_note, resume_note, settled_problem,
    should_report_already_downloaded, start_problem, start_request, DownloadPlan, DownloadProgress, DownloadStart,
    DownloadState, Pull, PullAction, PullEvent, PullInner, PullStage,
};
use wally::commands::cmd_rm::{
    aborted_line, confined_to, confinement_problem, deletion_target, found_model, remove_model, removed_line, run_rm,
    weakly_canonical, Removal, RmStage, WeakPath, WeakStep,
};
use wally::commands::cmd_show::{downloaded, run_show, show_json, shown_model};
use wally::commands::engine_options::Kit;
use wally::commands::requests::{unload_request, ModelUnloadRequest};
use wally::engine::{InferenceFramework, ModelCategory, ModelInfo, ModelRegistryStatus, SUCCESS, SdkError};
use wally::output::Report;
use wally::pathname::{components_exec, join_exec, parent_exec, split_last, starts_with_exec};

fn some(s: &str) -> Option<String> {
    Some(s.to_string())
}

// Two catalog entries that share the merge key "qwen3-4b-instruct-2507".
fn llamacpp_variant(local_path: &str) -> ListedModel {
    ListedModel {
        model: ModelInfo {
            id: "qwen3-4b-instruct-2507".to_string(),
            name: "Qwen3 4B Instruct 2507 Q8_0".to_string(),
            category: Some(ModelCategory::Language),
            framework: Some(InferenceFramework::LlamaCpp),
            local_path: local_path.to_string(),
            ..ModelInfo::default()
        },
        merge_key: "qwen3-4b-instruct-2507".to_string(),
        harness_compatible: false,
    }
}

fn mlx_variant(local_path: &str) -> ListedModel {
    ListedModel {
        model: ModelInfo {
            id: "mlx-qwen3-4b-instruct-2507-4bit".to_string(),
            name: "Qwen3 4B Instruct 2507".to_string(),
            category: Some(ModelCategory::Language),
            framework: Some(InferenceFramework::Mlx),
            local_path: local_path.to_string(),
            ..ModelInfo::default()
        },
        merge_key: "qwen3-4b-instruct-2507".to_string(),
        harness_compatible: true,
    }
}

#[test]
fn downloaded_variant_id_wins_over_merge_key() {
    let models = vec![llamacpp_variant(""), mlx_variant("/models/mlx-qwen3-4b-instruct-2507-4bit")];
    let downloaded = vec!["mlx-qwen3-4b-instruct-2507-4bit".to_string()];
    let rows = group_models(&models, &downloaded, true);
    let order: Vec<String> = rows.iter().map(|r| r.key.clone()).collect();
    assert_eq!(order, vec!["qwen3-4b-instruct-2507".to_string()]);
    let row = &rows[0];
    assert_eq!(row.id, "mlx-qwen3-4b-instruct-2507-4bit");
    assert_eq!(row.local_path, "/models/mlx-qwen3-4b-instruct-2507-4bit");
}

#[test]
fn catalog_only_row_keeps_merge_key_when_nothing_downloaded() {
    let models = vec![llamacpp_variant(""), mlx_variant("")];
    let rows = group_models(&models, &Vec::new(), true);
    let row = &rows[0];
    assert_eq!(row.key, "qwen3-4b-instruct-2507");
    assert_eq!(row.id, "qwen3-4b-instruct-2507");
    assert!(!row.downloaded);
}

#[test]
fn a_list_is_a_table_or_says_that_it_is_empty() {
    let models = vec![llamacpp_variant(""), mlx_variant("/m")];
    let rows = group_models(&models, &vec!["mlx-qwen3-4b-instruct-2507-4bit".to_string()], false);
    assert_eq!(rows.len(), 1);
    match run_list(&rows, &vec!["4 GB".to_string()], false, false, true, false) {
        Report::Table(above, table, after) => {
            assert_eq!(above.lines.len(), 3);
            assert_eq!(table.header[0], "ID");
            assert_eq!(table.rows[0][0], "mlx-qwen3-4b-instruct-2507-4bit");
            assert_eq!(table.rows[0][2], join_backends(&rows[0]));
            assert_eq!(table.rows[0][3], "-");
            assert_eq!(table.rows[0][4], "yes");
            assert!(after.lines.is_empty());
        }
        other => panic!("{other:?}"),
    }
    match run_list(&Vec::new(), &Vec::new(), true, false, false, false) {
        Report::Lines(p) => assert_eq!(p.lines.last().unwrap().text, "no models registered"),
        other => panic!("{other:?}"),
    }
    assert!(matches!(run_list(&rows, &vec![String::new()], true, true, true, true), Report::Document(_)));
    assert_eq!(listed_models(1, Ok(Vec::new())).unwrap_err(), "failed to list models: ");
    assert_eq!(listed_models(0, Err("torn".to_string())).unwrap_err(), "failed to list models: torn");
}

#[test]
fn explicit_engine_is_returned() {
    assert_eq!(framework_override(InferenceFramework::Mlx), Some(InferenceFramework::Mlx));
}

#[test]
fn absent_engine_defers_to_the_catalog() {
    assert_eq!(framework_override(InferenceFramework::Unspecified), None);
}

#[test]
fn non_success_rc_wins_over_a_cleanly_parsed_buffer_error() {
    let described = "not initialized".to_string();
    let parsed: Result<DownloadStart, String> = Err("no space left on device".to_string());
    let result = download_start_result(-100, described.clone(), parsed).map(|_| ());
    assert_eq!(result, Err(described));
    assert_ne!(result, Err("no space left on device".to_string()));
}

#[test]
fn success_rc_with_parse_error_surfaces_the_parse_error() {
    let parsed: Result<DownloadStart, String> = Err("failed to parse DownloadStartResult bytes".to_string());
    let result = download_start_result(SUCCESS, "ok".to_string(), parsed).map(|_| ());
    assert_eq!(result, Err("failed to parse DownloadStartResult bytes".to_string()));
}

#[test]
fn success_rc_with_ok_parse_returns_the_start_result() {
    let start = DownloadStart { accepted: true, task_id: "t".to_string(), error: None };
    let result = download_start_result(SUCCESS, "ok".to_string(), Ok(start)).unwrap();
    assert!(result.accepted);
    assert_eq!(result.task_id, "t");
}

#[test]
fn a_failed_rescan_never_reports_already_downloaded() {
    assert!(!should_report_already_downloaded(false, Some(ModelRegistryStatus::Downloaded)));
}

#[test]
fn a_successful_rescan_still_reports_already_downloaded() {
    assert!(should_report_already_downloaded(true, Some(ModelRegistryStatus::Downloaded)));
}

#[test]
fn a_successful_rescan_with_no_downloaded_status_falls_through() {
    assert!(!should_report_already_downloaded(true, None));
}

#[test]
fn a_pull_runs_to_its_report() {
    let mut p: Pull = begin_pull();
    let events = [
        PullEvent::Rescanned { ok: false },
        PullEvent::LookedUp { found: true, status: Some(ModelRegistryStatus::Downloaded) },
        PullEvent::Planned { ok: true, can_start: true },
        PullEvent::Started { ok: true, accepted: true },
        PullEvent::Woke { terminal: false, got_progress: true, interrupted: true },
        PullEvent::Woke { terminal: true, got_progress: true, interrupted: true },
        PullEvent::Settled { state: DownloadState::Cancelled },
    ];
    let mut cancels = 0;
    let mut last = PullAction::Ignore;
    for e in events {
        let (next, action) = pull_model_flow(p, e);
        if let PullAction::Tick { cancel: true, .. } = action {
            cancels += 1;
        }
        last = action;
        p = next;
    }
    assert_eq!(cancels, 1);
    assert_eq!(p.stage, PullStage::Ended);
    assert!(!p.wired);
    assert!(matches!(last, PullAction::Exit { code: 130, .. }), "{last:?}");
    let (_, action) = pull_model_flow(begin_pull(), PullEvent::Reported);
    assert!(matches!(action, PullAction::Ignore));
}

#[test]
fn progress_of_another_model_does_not_count() {
    let report = |id: &str, state| DownloadProgress {
        model_id: id.to_string(),
        state,
        bytes_downloaded: 1,
        error: None,
    };
    let mut inner = PullInner {
        last: report("", DownloadState::InProgress),
        terminal: false,
        got_progress: false,
        model_id: "a".to_string(),
    };
    assert!(!inner.on_progress(report("b", DownloadState::Completed)));
    assert!(!inner.terminal && !inner.got_progress);
    assert!(inner.on_progress(report("a", DownloadState::Failed)));
    assert!(inner.terminal && inner.got_progress);
}

#[test]
fn a_pull_of_a_model_that_is_there_succeeds() {
    let steps = [
        (PullEvent::Rescanned { ok: true }, PullAction::LookUp),
        (
            PullEvent::LookedUp { found: true, status: Some(ModelRegistryStatus::Downloaded) },
            PullAction::ReportPresent,
        ),
        (PullEvent::Reported, PullAction::Exit { code: 0, unwire: false }),
    ];
    let mut p = begin_pull();
    for (event, expected) in steps {
        let (next, action) = pull_model_flow(p, event);
        assert_eq!(action, expected);
        p = next;
    }
    assert_eq!(p.stage, PullStage::Ended);
}

#[test]
fn a_pull_of_a_missing_model_fetches_it_and_succeeds() {
    let mut p = begin_pull();
    let mut last = PullAction::Ignore;
    for event in [
        PullEvent::Rescanned { ok: true },
        PullEvent::LookedUp { found: true, status: None },
        PullEvent::Planned { ok: true, can_start: true },
        PullEvent::Started { ok: true, accepted: true },
        PullEvent::Woke { terminal: true, got_progress: true, interrupted: false },
        PullEvent::Settled { state: DownloadState::Completed },
        PullEvent::Reported,
    ] {
        let (next, action) = pull_model_flow(p, event);
        last = action;
        p = next;
    }
    assert_eq!(last, PullAction::Exit { code: 0, unwire: false });
}

#[test]
fn a_cancel_keeps_the_bytes_that_came() {
    let start = DownloadStart { accepted: true, task_id: "t".to_string(), error: None };
    let r = cancel_request(&start, "m");
    assert_eq!((r.task_id.as_str(), r.model_id.as_str(), r.delete_partial_bytes), ("t", "m", false));
    let plan = DownloadPlan { can_start: true, can_resume: false, total_bytes: 9, error: None };
    let r = start_request("m", plan);
    assert_eq!((r.model_id.as_str(), r.plan.total_bytes, r.skip_registry_update), ("m", 9, false));
    let r = plan_request("m", llamacpp_variant("").model);
    assert_eq!((r.model_id.as_str(), r.model.id.as_str()), ("m", "qwen3-4b-instruct-2507"));
    assert_eq!(unload_request(None), ModelUnloadRequest { category: None, unload_all: true });
    assert!(!unload_request(Some(ModelCategory::Language)).unload_all);
    assert_eq!(cancelling_line(), "cancelling (partial bytes kept — re-pull resumes)...");
}

#[test]
fn a_model_command_tells_a_usage_error_from_a_failure() {
    let end = |resolves: bool, fails: ModelsStage| {
        let mut stage = ModelsStage::Start;
        while !matches!(stage, ModelsStage::Finished(_)) {
            stage = run_models(resolves, stage, stage != fails);
        }
        stage
    };
    assert_eq!(end(true, ModelsStage::Finished(9)), ModelsStage::Finished(0));
    assert_eq!(end(false, ModelsStage::Resolve), ModelsStage::Finished(0), "nothing to resolve");
    assert_eq!(end(true, ModelsStage::Usage), ModelsStage::Finished(2));
    for stage in [ModelsStage::Start, ModelsStage::Resolve, ModelsStage::Call] {
        assert_eq!(end(true, stage), ModelsStage::Finished(1));
    }
}

#[test]
fn files_go_only_when_that_was_agreed_to() {
    let path = |removal: Removal, agrees: bool| {
        let mut stage = RmStage::Start;
        let mut seen = vec![stage];
        while !matches!(stage, RmStage::Finished(_)) {
            stage = remove_model(stage, removal, stage != RmStage::Confirm || agrees);
            seen.push(stage);
        }
        seen
    };
    let refused = path(Removal::Refuse, true);
    assert!(!refused.contains(&RmStage::Delete));
    assert_eq!(refused[refused.len() - 1], RmStage::Finished(1));
    let declined = path(Removal::Ask, false);
    assert!(declined.contains(&RmStage::Confirm) && !declined.contains(&RmStage::Delete));
    assert_eq!(declined[declined.len() - 1], RmStage::Finished(1));
    let agreed = path(Removal::Ask, true);
    assert!(agreed.contains(&RmStage::Delete) && agreed.contains(&RmStage::Unregister));
    assert_eq!(agreed[agreed.len() - 1], RmStage::Finished(0));
    let gone = path(Removal::Gone, true);
    assert!(!gone.contains(&RmStage::Delete) && gone.contains(&RmStage::Unregister));
    assert_eq!(aborted_line(), "aborted");
}

#[test]
fn what_a_pull_says() {
    assert!(rescan_note("x").contains('x'));
    assert!(registry_entry("m", 1, Err(String::new())).is_err());
    let plan = DownloadPlan { can_start: false, can_resume: false, total_bytes: 0, error: some("no disk") };
    assert!(plan_problem("m", 0, "ok", &Ok(plan)).unwrap().contains("no disk"));
    let start = DownloadStart { accepted: false, task_id: String::new(), error: None };
    assert!(start_problem(&Ok(start)).is_some());
    let last = DownloadProgress {
        model_id: String::new(),
        state: DownloadState::Completed,
        bytes_downloaded: 0,
        error: None,
    };
    assert_eq!(settled_problem(&last), None);
    let resumable = DownloadPlan { can_start: true, can_resume: true, total_bytes: 0, error: None };
    assert_eq!(resume_note(&resumable).unwrap(), "resuming partial download");
    let sized = DownloadPlan { can_start: true, can_resume: true, total_bytes: 1, error: None };
    assert_eq!(resume_note(&sized), None);
    assert!(present_line(&llamacpp_variant("/p").model).contains("qwen3-4b-instruct-2507"));
    assert!(pulled_line("m", &None).contains('m'));
}

#[test]
fn categories_are_named() {
    assert_eq!(category_choices(), "llm, vlm, stt, tts, vad, embedding, diffusion");
    for (name, category) in category_choices().split(", ").zip(state_categories()) {
        assert_eq!(parse_category(name), Some(category));
    }
    assert_eq!(parse_category("smell"), None);
    let kit = Kit { neurt: false, qhexrt: false };
    let (hint, category) = run_load("mlx", "stt", kit).unwrap();
    assert_eq!(hint.framework, InferenceFramework::Mlx);
    assert_eq!(category, Some(ModelCategory::SpeechRecognition));
    let (message, code) = run_load("", "smell", kit).unwrap_err();
    assert!(message.contains("unknown category 'smell'"));
    assert_eq!(code, 2);
    assert_eq!(run_unload(""), Ok(None));
    assert_eq!(run_unload("smell").unwrap_err().1, 2);
    assert_eq!(run_register("steam", kit).unwrap_err().1, 2);
    assert_eq!(run_register("mlx", kit).unwrap().framework, InferenceFramework::Mlx);
}

#[test]
fn models_are_registered_loaded_and_unloaded() {
    let model = llamacpp_variant("").model;
    assert!(register_reply(true, Ok(model.clone())).is_ok());
    assert!(register_reply(false, Ok(model.clone())).is_err());
    assert!(registered_line(&model).contains(&model.id));
    assert!(registered_json(&model).ops.iter().any(|op| op.text == model.id));
    let loaded = LoadedModel {
        model_id: "m".to_string(),
        category: None,
        framework: None,
        resolved_path: "/p".to_string(),
        already_loaded: true,
        error: Some(SdkError { message: "busy".to_string(), c_abi_code: None }),
    };
    assert!(loaded_line(&loaded).contains('m'));
    assert!(load_reply(true, Ok(loaded)).unwrap_err().contains("busy"));
    let unloaded = UnloadResult { unloaded_model_ids: vec!["a".to_string()], error: None };
    assert_eq!(unloaded_lines(&unloaded).lines.len(), 1);
    assert!(unload_reply(true, true, Ok(unloaded)).is_ok());
    assert_eq!(loaded_model_id(true, Ok((true, "m".to_string()))), "m");
    assert_eq!(loaded_model_id(true, Ok((false, "m".to_string()))), "");
}

#[test]
fn the_state_shows_what_is_resident() {
    let mut ids = vec![String::new(); 7];
    ids[2] = "whisper".to_string();
    let rows = resident_models(&ids);
    assert_eq!(rows, vec![("stt", "whisper".to_string())]);
    match run_state(&rows, 10, 20, "10 B", "20 B", false) {
        Report::Table(_, table, after) => {
            assert_eq!(table.rows, vec![vec!["stt".to_string(), "whisper".to_string()]]);
            assert_eq!(after.lines[0].text, "storage    10 B used, 20 B free");
        }
        other => panic!("{other:?}"),
    }
    match run_state(&Vec::new(), 10, 20, "10 B", "20 B", false) {
        Report::Lines(p) => assert_eq!(p.lines[0].text, "no models loaded"),
        other => panic!("{other:?}"),
    }
}

#[test]
fn deletion_is_confined_to_the_models_directory() {
    let root = some("/home/u/models");
    assert!(confined_to(&some("/home/u/models/qwen"), &root));
    assert!(!confined_to(&some("/home/u/models"), &root));
    assert!(!confined_to(&some("/home/u/models-old/qwen"), &root));
    assert!(!confined_to(&None, &root));
    let model = ModelInfo { local_path: "/p".to_string(), ..ModelInfo::default() };
    let (inside, root) = (some("/models/m"), some("/models"));
    for outside in [some("/etc"), some("/models"), some("/models-old/m"), None] {
        assert_eq!(run_rm(&model, &outside, &root, true, true, true), Removal::Refuse);
    }
    assert_eq!(run_rm(&model, &inside, &None, true, true, true), Removal::Refuse);
    assert_eq!(run_rm(&model, &inside, &root, false, true, true), Removal::Gone);
    assert_eq!(run_rm(&model, &inside, &root, true, true, true), Removal::Delete);
    assert_eq!(run_rm(&model, &inside, &root, true, false, false), Removal::Delete);
    assert_eq!(run_rm(&model, &inside, &root, true, false, true), Removal::Ask);
    assert_eq!(run_rm(&ModelInfo::default(), &inside, &root, true, true, true), Removal::NoFiles);
    assert!(confinement_problem("/x", "/m").starts_with("refusing to delete /x"));
    assert_eq!(deletion_target("/models/m/f.gguf", false, "m"), "/models/m");
    assert_eq!(deletion_target("/models//m/./f.gguf", false, "m"), "/models//m");
    assert_eq!(deletion_target("/models/n/f.gguf", false, "m"), "/models/n/f.gguf");
    assert_eq!(deletion_target("/models/m/f", true, "m"), "/models/m/f");
    assert_eq!(deletion_target("m/..", false, "m"), "m");
    assert_eq!(deletion_target("/", false, "m"), "/");
    for (path, parent) in [
        ("/a/b", some("/a")),
        ("/a", some("/")),
        ("/", None),
        ("", None),
        ("a", some("")),
        ("a/b/", some("a")),
        ("a//b", some("a")),
        ("./a", some(".")),
        (".", some("")),
        ("./", some("")),
        ("..", some("")),
        ("a/..", some("a")),
        ("/./a", some("/")),
    ] {
        assert_eq!(parent_exec(path), parent, "{path}");
        let known = std::path::Path::new(path).parent().map(|p| p.to_string_lossy().into_owned());
        assert_eq!(parent_exec(path), known, "{path}");
    }
    assert!(found_model(true, Err(String::new()), "m").is_err());
    assert!(removed_line("m", 5, "5 B").contains('m'));
}

#[test]
fn a_path_is_resolved_though_its_end_is_missing() {
    let mut path = WeakPath { existing: "/models/./qwen//weights.gguf".to_string(), remainder: Vec::new() };
    let mut tried = Vec::new();
    let found = loop {
        tried.push(components_exec(&path.existing));
        let resolved = if components_exec(&path.existing) == vec!["/", "models"] {
            some("/data/models")
        } else {
            None
        };
        match weakly_canonical(path, resolved) {
            WeakStep::Found(p) => break p,
            WeakStep::Try(next) => path = next,
            WeakStep::Unresolved => panic!("unresolved"),
        }
    };
    assert_eq!(found, "/data/models/qwen/weights.gguf");
    assert_eq!(tried.len(), 3);
    let up = WeakPath { existing: "a/..".to_string(), remainder: Vec::new() };
    assert!(matches!(weakly_canonical(up, None), WeakStep::Unresolved));
}

#[test]
fn paths_come_apart_into_components() {
    assert_eq!(components_exec("/a//b/./c/"), vec!["/", "a", "b", "c"]);
    assert_eq!(components_exec("./a"), vec![".", "a"]);
    assert!(starts_with_exec("/a/b", "/a/"));
    assert!(!starts_with_exec("/ab", "/a"));
    assert_eq!(join_exec("/a", "b"), "/a/b");
    assert_eq!(join_exec("/a/", "b"), "/a/b");
    assert_eq!(split_last("/a"), Some(("/".to_string(), "a".to_string())));
    assert_eq!(split_last("./a"), Some(("./".to_string(), "a".to_string())));
    assert_eq!(split_last("a"), Some((String::new(), "a".to_string())));
    assert_eq!(split_last("/"), None);
    assert_eq!(split_last("."), None);
}

#[test]
fn a_model_is_shown() {
    let mut model = llamacpp_variant("/p").model;
    model.registry_status = Some(ModelRegistryStatus::Downloaded);
    assert!(downloaded(&model));
    assert!(run_show(&model, "4 GB").lines.iter().any(|l| l.text.contains("qwen3-4b-instruct-2507")));
    assert!(show_json(&model).ops.iter().any(|op| op.text == "/p"));
    assert!(shown_model(false, Ok(model), "m").is_err());
}
