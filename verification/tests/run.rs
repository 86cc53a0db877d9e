use wally::commands::cmd_run::{
    apply_options, decode_piped_prompt, generate_once, generation_outcome, handle_llm_stream_event, history_path,
    llm_route, load_model, lora_apply_outcome, lora_problem, missing_model, no_prompt_given, print_repl_help,
    reads_prompt, reasoning_off, repl_command, repl_goes_on, repl_greeting, repl_settings, run_hint, run_llm, run_repl,
    run_vlm, show_thoughts, stream_exit_code, stream_once, stream_outcome, stream_problem, stream_report, stream_wait,
    strtof_prefix, strtol_prefix, vlm_generation_outcome, vlm_prompt, wind_down, GenStateData, GivenRun,
    LlmGenerationResult, LlmRoute, LlmRun, LlmStage, LlmStreamEvent, LoraApplyResult, ModelLoadResult, ReplCommand,
    ReplStep, RunParams, StreamEnd, StreamKind, StreamStage, StreamWait, TokenUsage, VlmResult,
};
use wally::commands::engine_options::Kit;
use wally::commands::requests::{generate_request, run_load_request, vlm_request};
use wally::commands::{LlmVerb, ModelArg};
use wally::engine::{GlobalOptions, InferenceFramework, ModelCategory, SUCCESS, SdkError};
use wally::output::{Channel, Report};

fn error(message: &str) -> Option<SdkError> {
    Some(SdkError { message: message.to_string(), c_abi_code: None })
}

#[test]
fn lora_apply_error_with_empty_message_is_failure_not_success() {
    // A present error report fails it, whatever the message and the code.
    let result = LoraApplyResult { error: error("") };
    let outcome = lora_apply_outcome(&result, SUCCESS);
    assert_eq!(outcome, Err(SUCCESS.to_string()));
}

#[test]
fn lora_apply_no_error_and_success_rc_is_success() {
    let result = LoraApplyResult::default();
    assert_eq!(lora_apply_outcome(&result, SUCCESS), Ok(()));
}

#[test]
fn lora_apply_error_with_message_reports_it() {
    let result = LoraApplyResult { error: error("adapter not found") };
    assert_eq!(lora_apply_outcome(&result, SUCCESS), Err("adapter not found".to_string()));
}

#[test]
fn generation_error_with_empty_message_is_failure_not_success() {
    let result = LlmGenerationResult { error: error(""), ..LlmGenerationResult::default() };
    assert_eq!(generation_outcome(&result), Err("unknown error".to_string()));
}

#[test]
fn generation_error_with_message_reports_it() {
    let result = LlmGenerationResult { error: error("context window exceeded"), ..LlmGenerationResult::default() };
    assert_eq!(generation_outcome(&result), Err("context window exceeded".to_string()));
}

#[test]
fn generation_no_error_is_success() {
    assert_eq!(generation_outcome(&LlmGenerationResult::default()), Ok(()));
}

#[test]
fn vlm_generation_error_with_empty_message_is_failure_not_success() {
    let result = VlmResult { error: error(""), ..VlmResult::default() };
    assert_eq!(vlm_generation_outcome(&result), Err("unknown error".to_string()));
}

#[test]
fn vlm_generation_error_with_message_reports_it() {
    let result = VlmResult { error: error("image decode failed"), ..VlmResult::default() };
    assert_eq!(vlm_generation_outcome(&result), Err("image decode failed".to_string()));
}

#[test]
fn vlm_generation_no_error_is_success() {
    assert_eq!(vlm_generation_outcome(&VlmResult::default()), Ok(()));
}

/// The number that a temperature is read as.
fn temperature(text: &str) -> f32 {
    strtof_prefix(text).map(|t| t.parse().unwrap()).unwrap_or(0.0)
}

#[test]
fn set_temperature_trailing_garbage_uses_leading_number() {
    assert_eq!(temperature("0.7 please"), 0.7);
    assert_eq!(temperature("256 tokens"), 256.0);
    assert_eq!(temperature("not a number"), 0.0);
    assert_eq!(temperature(""), 0.0);
}

#[test]
fn set_max_output_tokens_trailing_garbage_uses_leading_number() {
    assert_eq!(strtol_prefix("256 tokens"), 256);
    assert_eq!(strtol_prefix("-12abc"), -12);
    assert_eq!(strtol_prefix("not a number"), 0);
    assert_eq!(strtol_prefix(""), 0);
}

#[test]
fn piped_prompt_invalid_utf8_is_kept_lossily_not_dropped() {
    let bytes = b"describe this\xFFplease\n";
    let prompt = decode_piped_prompt(bytes);
    assert_eq!(prompt, "describe this\u{FFFD}please");
    assert!(!prompt.is_empty());
}

#[test]
fn piped_prompt_trims_trailing_newline_and_cr() {
    assert_eq!(decode_piped_prompt(b"hello\r\n"), "hello");
    assert_eq!(decode_piped_prompt(b"hello"), "hello");
}

fn given() -> GivenRun {
    GivenRun {
        model_option: Some("opt".to_string()),
        model_positional: Some("pos".to_string()),
        image: None,
        system_prompt: None,
        engine: None,
        lora: None,
        lora_scale: None,
        reasoning: None,
        show_thinking: true,
        no_think: false,
        temperature: None,
        top_p: None,
        min_p: None,
        repetition_penalty: None,
        frequency_penalty: None,
        presence_penalty: None,
        top_k: None,
        max_output_tokens: None,
        seed: None,
        stop_sequences: Vec::new(),
    }
}

fn params() -> RunParams {
    RunParams::from_parsed(given(), ModelArg::Option)
}

fn options() -> GlobalOptions {
    GlobalOptions {
        json: false,
        quiet: false,
        verbose: false,
        no_progress: false,
        no_color: false,
        home_override: String::new(),
    }
}

#[test]
fn the_engine_is_asked_for_what_was_typed() {
    let asked = generate_request(&params(), "hello");
    assert_eq!(asked.prompt, "hello");
    assert_eq!(asked.options.max_output_tokens, Some(1024));
    let seen = vlm_request(&params(), "m", "/i.png", "");
    assert_eq!((seen.model_id.as_str(), seen.image_path.as_str()), ("m", "/i.png"));
    assert_eq!(seen.prompt, "Describe this image.");
    assert_eq!(seen.options.max_output_tokens, Some(1024));
    assert_eq!(vlm_request(&params(), "m", "/i.png", "why?").prompt, "why?");
}

#[test]
fn parameters_fall_back_to_their_defaults() {
    let p = params();
    assert_eq!(p.model, "opt");
    assert_eq!(RunParams::from_parsed(given(), ModelArg::Positional).model, "pos");
    assert_eq!(p.lora_scale, 1.0f32.to_bits());
    assert_eq!(p.max_output_tokens, 1024);
    assert_eq!(p.seed, -1);
    assert_eq!(p.reasoning, "on");
    let quiet = RunParams::from_parsed(GivenRun { no_think: true, ..given() }, ModelArg::Option);
    assert!(reasoning_off(&quiet));
    assert!(!show_thoughts(&quiet, &options()));
    assert!(show_thoughts(&p, &options()));
    assert!(!show_thoughts(&p, &GlobalOptions { json: true, ..options() }));
}

#[test]
fn unset_knobs_are_left_to_the_engine() {
    let o = apply_options(&params());
    assert_eq!(o.max_output_tokens, Some(1024));
    assert_eq!((o.temperature, o.top_k, o.seed), (None, None, None));
    let mut p = params();
    p.temperature = 0.7f32.to_bits();
    p.presence_penalty = (-0.5f32).to_bits();
    p.seed = 0;
    let o = apply_options(&p);
    assert_eq!(o.temperature, Some(0.7f32.to_bits()));
    assert_eq!(o.presence_penalty, Some((-0.5f32).to_bits()));
    assert_eq!(o.seed, Some(0));
}

fn state() -> GenStateData {
    GenStateData {
        done: false,
        cancelled: false,
        answer: String::new(),
        finish_reason: String::new(),
        error: String::new(),
        show_thoughts: true,
        in_thought_block: false,
        stream_to_stdout: true,
    }
}

fn event(kind: StreamKind, token: &str) -> LlmStreamEvent {
    LlmStreamEvent { kind, token: token.to_string(), finish_reason: "STOP".to_string(), error: None }
}

#[test]
fn an_answer_streams_without_its_leading_blanks() {
    let mut s = state();
    let e = handle_llm_stream_event(&mut s, &event(StreamKind::Thinking, "hm"), false, false);
    assert_eq!(e.stdout, "");
    assert!(e.stderr.contains("hm"));
    let e = handle_llm_stream_event(&mut s, &event(StreamKind::Answer, "\n\n"), false, false);
    assert_eq!(e.stdout, "");
    let e = handle_llm_stream_event(&mut s, &event(StreamKind::Answer, " hello"), false, false);
    assert_eq!(e.stdout, "hello");
    handle_llm_stream_event(&mut s, &event(StreamKind::Completed, ""), false, false);
    assert!(s.done);
    assert_eq!((s.answer.as_str(), s.finish_reason.as_str()), ("hello", "STOP"));
    let (owes, end) = stream_outcome(&options(), "m", &s, 12);
    assert!(owes);
    assert_eq!(stream_exit_code(&end), 0);
}

#[test]
fn an_interrupt_cancels_once() {
    let mut s = state();
    let first = handle_llm_stream_event(&mut s, &event(StreamKind::Answer, "a"), true, false);
    let second = handle_llm_stream_event(&mut s, &event(StreamKind::Answer, "b"), true, false);
    assert!(first.cancel);
    assert!(!second.cancel);
    wind_down(&mut s, true);
    assert!(s.done && s.cancelled);
    assert!(matches!(stream_outcome(&options(), "m", &s, 0).1, StreamEnd::Cancelled));
    assert_eq!(stream_exit_code(&StreamEnd::Cancelled), 130);
    assert_eq!(stream_exit_code(&StreamEnd::Failed(String::new())), 1);
    let (shown, code) = stream_report(StreamEnd::Cancelled);
    assert_eq!(code, 130);
    match shown {
        Report::Lines(p) => assert_eq!((p.lines[0].channel, p.lines[0].text.as_str()), (Channel::Status, "(cancelled)")),
        other => panic!("{other:?}"),
    }
    let (shown, code) = stream_report(StreamEnd::Failed("lost".to_string()));
    assert_eq!(code, 1);
    match shown {
        Report::Lines(p) => assert_eq!((p.lines[0].channel, p.lines[0].text.as_str()), (Channel::Error, "lost")),
        other => panic!("{other:?}"),
    }
    assert_eq!(stream_wait(false, true), StreamWait::CancelAndFinish);
}

#[test]
fn a_stream_gives_back_what_it_was_lent() {
    let mut stage = StreamStage::Begin;
    let mut seen = vec![stage];
    let mut waits = 0;
    while stage != StreamStage::Ended {
        waits += 1;
        stage = stream_once(stage, true, false, waits > 3);
        seen.push(stage);
    }
    assert_eq!(seen.iter().filter(|s| **s == StreamStage::Cancel).count(), 1);
    assert_eq!(&seen[seen.len() - 3..], &[StreamStage::Quiesce, StreamStage::Release, StreamStage::Ended]);
    assert_eq!(stream_once(StreamStage::Begin, false, false, false), StreamStage::Quiesce);
    assert_eq!(stream_problem("busy"), "generation failed: busy");
}

#[test]
fn a_whole_generation_is_shown_or_explained() {
    let result = LlmGenerationResult {
        text: "hi".to_string(),
        usage: TokenUsage { input_tokens: 1, output_tokens: 2, tokens_per_second: 0 },
        generation_time_ms: 5,
        ..LlmGenerationResult::default()
    };
    let (shown, code) = generate_once(&options(), &params(), "m", true, Ok(result.clone()), false, "2");
    assert_eq!(code, 0);
    match shown {
        Report::Lines(p) => assert_eq!((p.lines[0].channel, p.lines[0].text.as_str()), (Channel::Result, "hi")),
        other => panic!("{other:?}"),
    }
    let (shown, code) = generate_once(&options(), &params(), "m", false, Ok(result), false, "2");
    assert_eq!(code, 1);
    match shown {
        Report::Lines(p) => assert_eq!(p.lines[0].text, "generation failed: "),
        other => panic!("{other:?}"),
    }
    let json = GlobalOptions { json: true, ..options() };
    let (shown, code) = run_vlm(&json, "m", true, Ok(VlmResult::default()), "0");
    assert!(matches!(shown, Report::Document(_)));
    assert_eq!(code, 0);
    let (shown, code) = run_vlm(&json, "m", true, Err("torn".to_string()), "0");
    assert_eq!(code, 1);
    match shown {
        Report::Lines(p) => assert_eq!(p.lines[0].text, "vlm generation failed: torn"),
        other => panic!("{other:?}"),
    }
    assert_eq!(vlm_prompt(""), "Describe this image.");
}

#[test]
fn the_prompt_reads_commands() {
    assert!(matches!(repl_command(""), ReplCommand::Nothing));
    assert!(matches!(repl_command("/quit"), ReplCommand::Leave));
    assert!(matches!(repl_command("/nope"), ReplCommand::Unknown));
    assert!(matches!(repl_command("/set volume 3"), ReplCommand::UnknownSetting));
    let (p, step) = run_repl(params(), "/set system be brief", 0);
    assert_eq!(p.system_prompt, "be brief");
    assert!(matches!(step, ReplStep::Say(s) if s == "system prompt set"));
    let (p, step) = run_repl(params(), "/set temp 0.5 or so", 0.5f32.to_bits());
    assert_eq!(p.temperature, 0.5f32.to_bits());
    assert!(matches!(step, ReplStep::Say(s) if s == "temperature set"));
    let (p, _) = run_repl(params(), "/set max-tokens 64", 0);
    assert_eq!(p.max_output_tokens, 64);
    let (p, step) = run_repl(params(), "hello", 9);
    assert_eq!(p.temperature, 0);
    assert!(matches!(step, ReplStep::Answer));
    assert!(matches!(run_repl(params(), "/show", 0).1, ReplStep::Settings));
    assert!(matches!(run_repl(params(), "/?", 0).1, ReplStep::Help));
    assert!(matches!(run_repl(params(), "/bye", 0).1, ReplStep::Leave));
    assert!(repl_goes_on(130) && repl_goes_on(0) && !repl_goes_on(1));
    assert!(repl_greeting("m").starts_with("loaded m "));
    assert_eq!(history_path(true, "/s"), "/s/history");
    assert_eq!(history_path(false, "/s"), "");
    assert_eq!(print_repl_help().lines.len(), 7);
    assert_eq!(repl_settings("m", &params(), "0.7").lines[2].text, "temperature        (engine default)");
}

#[test]
fn a_run_goes_its_way() {
    let run = LlmRun { verb: LlmVerb::Chat, has_image: false, has_adapter: true, has_prompt: false, json: false };
    let mut stage = LlmStage::Start;
    let mut seen = Vec::new();
    while !matches!(stage, LlmStage::Finished(_)) {
        seen.push(stage);
        stage = run_llm(run, stage, true, 7);
    }
    assert_eq!(
        seen,
        vec![
            LlmStage::Start,
            LlmStage::Usage,
            LlmStage::Resolve,
            LlmStage::Load,
            LlmStage::Attach,
            LlmStage::Prompt,
            LlmStage::Answer(LlmRoute::Interactive),
        ]
    );
    assert_eq!(stage, LlmStage::Finished(7));
    let piped = LlmRun { json: true, ..run };
    assert_eq!(run_llm(piped, LlmStage::Prompt, true, 0), LlmStage::Finished(2));
    assert_eq!(run_llm(run, LlmStage::Usage, false, 0), LlmStage::Finished(2));
    assert_eq!(run_llm(run, LlmStage::Load, false, 0), LlmStage::Finished(1));
    assert_eq!(llm_route(LlmVerb::Generate, false, true, false), LlmRoute::Generate);
    assert_eq!(no_prompt_given(), "no prompt given");
    assert!(reads_prompt("", false) && !reads_prompt("", true) && !reads_prompt("x", false));
}

#[test]
fn a_run_names_its_model_and_engine() {
    let kit = Kit { neurt: false, qhexrt: false };
    let mut p = params();
    p.model = String::new();
    assert!(missing_model(&p).unwrap().starts_with("--model is required"));
    p.engine = "mlx".to_string();
    p.image = "a.png".to_string();
    let hint = run_hint(&p, kit).unwrap();
    assert_eq!(hint.framework, InferenceFramework::Mlx);
    assert!(hint.resolve_options.has_category);
    assert_eq!(hint.resolve_options.category, ModelCategory::Multimodal);
    p.engine = "abacus".to_string();
    assert!(run_hint(&p, kit).is_err());
    let load = run_load_request("m", InferenceFramework::Unspecified, false);
    assert_eq!((load.category, load.framework, load.validate_availability), (None, None, true));
    let load = run_load_request("m", InferenceFramework::Mlx, true);
    assert_eq!((load.category, load.framework), (Some(ModelCategory::Multimodal), Some(InferenceFramework::Mlx)));
}

#[test]
fn loads_and_adapters_fail_with_a_reason() {
    let loaded = ModelLoadResult { resolved_path: "/m".to_string(), error: None };
    assert_eq!(load_model(SUCCESS, Ok(loaded.clone())), Ok("/m".to_string()));
    assert_eq!(load_model(3, Ok(loaded)), Err("model load failed: ".to_string()));
    assert_eq!(load_model(3, Err("torn".to_string())), Err("model load failed: torn".to_string()));
    assert_eq!(lora_problem(&Err(String::new()), 4), Some("lora apply failed: 4".to_string()));
    assert_eq!(lora_problem(&Ok(LoraApplyResult::default()), SUCCESS), None);
}
