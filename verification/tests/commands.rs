use wally::cli::{Action, App, Command, OptKind, Validator, ValueType};
use wally::commands::cmd_about::register_about;
use wally::commands::cmd_account::register_account;
use wally::commands::cmd_auth::register_auth;
use wally::commands::cmd_backends::register_backends;
use wally::commands::cmd_bench::register_bench;
use wally::commands::cmd_default_models::register_default_models;
use wally::commands::cmd_diarize::register_diarize;
use wally::commands::cmd_editors::{register_editors, Editor};
use wally::commands::cmd_embed::register_embed;
use wally::commands::cmd_harness::register_harness;
use wally::commands::cmd_image::register_image;
use wally::commands::cmd_info::register_info;
use wally::commands::cmd_lora::register_lora;
use wally::commands::cmd_maintenance::{register_help, register_uninstall};
use wally::commands::cmd_models::{register_models, register_models_aliases};
use wally::commands::cmd_rag::register_rag;
use wally::commands::cmd_rerank::register_rerank;
use wally::commands::cmd_run::{register_llm, register_llm_aliases, register_vlm};
use wally::commands::cmd_segment::register_segment;
use wally::commands::cmd_serve::register_serve;
use wally::commands::cmd_stt::register_stt;
use wally::commands::cmd_telemetry::register_telemetry;
use wally::commands::cmd_tool::register_tool;
use wally::commands::cmd_tts::register_tts;
use wally::commands::cmd_update::register_update;
use wally::commands::cmd_usage::register_usage;
use wally::commands::cmd_vad::register_vad;
use wally::commands::cmd_version::register_version;
use wally::commands::cmd_voice::register_voice;
use wally::commands::engine_options::Kit;
use wally::commands::{LlmVerb, ModelArg};
use wally::desktop::brand::{brand_of, Brand};

const KIT: Kit = Kit { neurt: false, qhexrt: false };

fn brand() -> Brand {
    brand_of("acme")
}

fn full() -> App {
    let mut app = App::new("A local engine", "wally");
    register_models(&mut app, KIT);
    register_models_aliases(&mut app, KIT);
    register_default_models(&mut app);
    register_llm(&mut app, KIT);
    register_vlm(&mut app, KIT);
    register_llm_aliases(&mut app, KIT);
    register_tool(&mut app);
    register_account(&mut app);
    register_usage(&mut app).unwrap();
    register_auth(&mut app);
    register_telemetry(&mut app);
    register_bench(&mut app, KIT);
    register_embed(&mut app, KIT);
    register_rerank(&mut app);
    register_rag(&mut app, true);
    register_lora(&mut app);
    register_image(&mut app);
    register_segment(&mut app);
    register_diarize(&mut app);
    register_stt(&mut app);
    register_tts(&mut app);
    register_vad(&mut app);
    register_voice(&mut app);
    register_serve(&mut app, true);
    register_harness(&mut app, &vec![("codex", "Open Codex with a model"), ("pi", "Open pi with a model")]);
    register_editors(&mut app, &brand());
    register_about(&mut app);
    register_backends(&mut app);
    register_info(&mut app);
    register_version(&mut app);
    register_update(&mut app);
    register_help(&mut app);
    register_uninstall(&mut app);
    app
}

fn find<'a>(app: &'a App, parent: &str, name: &str) -> &'a Command {
    app.commands.iter().find(|c| c.parent == parent && c.name == name).unwrap_or_else(|| panic!("{parent} {name}"))
}

fn names(c: &Command) -> Vec<&str> {
    c.options.iter().map(|o| o.names.as_str()).collect()
}

#[test]
fn registering_leaves_the_name_and_the_first_command() {
    let app = full();
    assert_eq!((app.name.as_str(), app.description.as_str()), ("wally", "A local engine"));
    assert_eq!((app.commands[0].parent.as_str(), app.commands[0].name.as_str()), ("", "models"));
}

#[test]
fn every_command_does_something_or_holds_some_that_do() {
    let app = full();
    for c in &app.commands {
        if c.action.is_none() {
            assert!(c.fallthrough || c.min_subcommands == 1, "{} {}", c.parent, c.name);
        }
        if !c.parent.is_empty() {
            assert!(app.has_subcommand(&c.parent), "{}", c.parent);
        }
        let twins = app.commands.iter().filter(|d| d.parent == c.parent && d.name == c.name).count();
        assert_eq!(twins, 1, "{} {}", c.parent, c.name);
    }
}

#[test]
fn short_forms_are_the_verbs() {
    let app = full();
    for (short, verb) in [("ls", "list"), ("show", "show"), ("pull", "pull"), ("rm", "rm")] {
        let (s, v) = (find(&app, "", short), find(&app, "models", verb));
        assert_eq!(names(s), names(v));
        assert_eq!(s.action, v.action);
    }
    assert_eq!(find(&app, "", "ls").aliases, vec!["list".to_string()]);
    assert_eq!(find(&app, "models", "rm").aliases, vec!["remove".to_string(), "delete".to_string()]);
    assert_eq!(find(&app, "models", "load").group, Some(String::new()));
}

#[test]
fn verb_aliases_hand_on() {
    let app = full();
    for (ns, verb) in [("stt", "transcribe"), ("tts", "synthesize"), ("vad", "detect")] {
        let alias = find(&app, ns, verb);
        assert!(alias.fallthrough && alias.options.is_empty() && alias.action.is_none());
        assert_eq!((find(&app, "", ns).min_subcommands, find(&app, "", ns).max_subcommands), (0, 1));
    }
}

#[test]
fn options_carry_their_checks() {
    let app = full();
    let usage = find(&app, "account", "usage");
    let days = usage.options.iter().find(|o| o.names == "--days").unwrap();
    assert!(matches!(days.check, Some(Validator::Range(1, 31))));
    assert_eq!(days.kind, OptKind::Value(ValueType::Int));
    let limit = usage.options.iter().find(|o| o.names == "--limit").unwrap();
    assert_eq!(limit.default_val.as_deref(), Some("100"));
    let port = find(&app, "", "serve").options.iter().find(|o| o.names == "--port,-p").unwrap();
    assert_eq!(port.bounds, Some((0, 65535)));
    let modality = &find(&app, "telemetry", "emit").options[0];
    assert!(modality.required);
    assert!(matches!(&modality.check, Some(Validator::IsMember(words)) if words.len() == 12));
    let run = find(&app, "", "run");
    assert_eq!(run.options[0].names, "model");
    assert!(run.options[0].required);
    assert_eq!(run.action, Some(Action::Llm(LlmVerb::Chat, ModelArg::Positional)));
    assert!(names(run).contains(&"--image"));
    assert!(!names(find(&app, "llm", "stream")).contains(&"--image"));
    let stop = run.options.iter().find(|o| o.names == "--stop").unwrap();
    assert!(stop.multi);
    assert_eq!(stop.group.as_deref(), Some("Sampling"));
    let engine = run.options.iter().find(|o| o.names == "--engine").unwrap();
    assert_eq!(engine.description, "Engine to run on (mlx, llamacpp, onnx, sherpa)");
}

#[test]
fn tools_are_prefixes() {
    let app = full();
    assert_eq!(find(&app, "", "codex").action, Some(Action::Agent(0)));
    assert_eq!(find(&app, "", "pi").action, Some(Action::Agent(1)));
    assert_eq!(find(&app, "", "pi").examples[0].0, "wally pi -m qwen3-0.6b");
    assert!(find(&app, "", "opencode").prefix_command);
    let code = find(&app, "", "acme-code");
    assert_eq!(code.action, Some(Action::Editor(Editor::ClaudeCode)));
    assert!(!names(code).contains(&"--restore"));
    assert!(names(find(&app, "", "acme-desktop")).contains(&"--restore"));
}

#[test]
fn a_verb_without_its_namespace_is_refused_or_left_out() {
    let mut app = App::new("", "wally");
    let error = register_usage(&mut app).unwrap_err();
    assert!(error.contains("ran before register_account()"), "{error}");
    register_default_models(&mut app);
    register_rag(&mut app, false);
    assert!(app.commands.is_empty());
    register_serve(&mut app, false);
    assert_eq!(app.commands[0].action, Some(Action::ServeUnavailable));
    assert!(app.commands[0].options.is_empty());
}
