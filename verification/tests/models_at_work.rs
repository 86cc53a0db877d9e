use wally::commands::cmd_about::{about_json, about_lines, channel, AboutFacts, Palette};
use wally::commands::cmd_backends::{
    backend_row, collect_backend_rows, collect_llm_backend_rows, join_primitives, Listing, Plugin,
};
use wally::commands::cmd_embed::{
    embed_options, embed_plan, embed_reply, gather_texts, parse_normalize, parse_pooling, preview_values,
    print_json_result, print_text_result, run_embed, EmbedStage, EmbeddingVector, EmbeddingsInputType,
    EmbeddingsPoolingStrategy, EmbeddingsResult,
};
use wally::commands::cmd_image::{
    diffusion_options, diffusion_request, diffusion_source, image_lines, local_bundle, run_image, run_image_generate,
    write_image, DiffusionImage, DiffusionSource, ImageEncoding, ImageStage, ModelSource,
};
use wally::commands::cmd_info::{info_json, info_lines, InfoFacts};
use wally::commands::cmd_lora::{
    adapter_problem, applied_line, remove_request, run_lora, run_lora_apply, LoraAttachResult, LoraStage, LoraVerb,
};
use wally::commands::cmd_rag::{
    collect_documents, document_id, open_and_ingest, query_models, query_request, rag_answer_lines, rag_configuration,
    read_text_file, retrieval, run_rag_query, search_request, RagParams, RagResult, RagStage,
};
use wally::commands::cmd_rerank::{
    asked_top_n, can_hand_over, gather_documents, preview_exec, rerank_reply, run_rerank, scored_row, RerankResult,
    RerankScoredItem, RerankStage,
};
use wally::commands::cmd_serve::{
    default_server_config, keeps_serving, no_server, run_serve, served_lines, served_model, server_config,
    serving_lines, start_problem, ServeArgs, ServeStage, ServerStatus,
};
use wally::commands::cmd_tool::{
    demo_executor, demo_tools, parse_tool_choice, run_tool_call, single_string_param_schema, tool_exit_code, tool_hint,
    tool_lines, tool_problem, tool_request, ToolCall, ToolCallParams, ToolCallingResult, ToolChoiceMode, ToolStage,
};
use wally::commands::cmd_version::{commons_version, pin_ok, pin_problem, version_lines, Versions};
use wally::commands::engine_options::{engine_choices, resolve_engine_hint, Kit};
use wally::commands::model_labels::category;
use wally::commands::reports::{about_report, info_report};
use wally::commands::requests::{
    apply_request, diffusion_load_request, embed_load_request, embed_request, load_request, lora_load_request,
    rerank_request, tool_load_request,
};
use wally::device_info::DeviceSnapshot;
use wally::engine::{InferenceFramework, ModelCategory, SdkError};
use wally::output::Report;

const KIT: Kit = Kit { neurt: false, qhexrt: false };

fn some(s: &str) -> Option<String> {
    Some(s.to_string())
}

#[test]
fn read_text_file_accepts_non_utf8_bytes() {
    let result = read_text_file("notes.txt", Some(&[b'h', b'i', 0xFFu8, b'!']));
    assert!(result.is_ok(), "non-UTF-8 file must be accepted, not reported as unopenable: {result:?}");
    let text = result.expect("checked above");
    assert!(text.starts_with("hi"));
    assert!(text.ends_with('!'));
    assert!(text.contains('\u{FFFD}'));
}

#[test]
fn read_text_file_missing_file_still_cannot_open() {
    let result = read_text_file("/no/such/wally-fix-vision-rag-path.bin", None);
    assert_eq!(result, Err("cannot open file: /no/such/wally-fix-vision-rag-path.bin".to_string()));
}

fn rag_params() -> RagParams {
    RagParams {
        llm_model: "l".to_string(),
        embed_model: "e".to_string(),
        docs: vec!["one".to_string()],
        files: vec!["f".to_string()],
        system_prompt: String::new(),
        top_k: 0,
        chunk_size: 5,
        chunk_overlap: 0,
        max_output_tokens: 0,
        temperature: (-1.0f32).to_bits(),
        similarity_threshold: 0.0f32.to_bits(),
        require_llm: true,
    }
}

#[test]
fn questions_are_asked_of_documents() {
    let p = rag_params();
    let docs = collect_documents(&p, &vec![("f".to_string(), some("two"))]).unwrap();
    assert_eq!(docs, vec!["one".to_string(), "two".to_string()]);
    assert!(collect_documents(&p, &vec![("f".to_string(), None)]).is_err());
    let asked = query_request(&p, "why?");
    assert_eq!((asked.query.as_str(), asked.generation.is_none()), ("why?", true));
    assert_eq!(asked.retrieval.unwrap().score_threshold, Some(0));
    let asked = query_request(&RagParams { max_output_tokens: 5, ..rag_params() }, "why?");
    assert_eq!(asked.generation.unwrap().max_output_tokens, Some(5));
    let sought = search_request(&RagParams { top_k: 2, ..rag_params() }, "why?");
    assert_eq!((sought.query.as_str(), sought.retrieval.unwrap().top_k), ("why?", Some(2)));
    let c = rag_configuration(&p);
    assert_eq!((c.top_k, c.chunk_size), (None, Some(5)));
    assert_eq!(c.score_threshold, Some(0));
    assert_eq!(query_models(&None, &some("x")), ("smollm2-135m".to_string(), "x".to_string()));
    assert!(retrieval(&p).is_some());
    assert_eq!(document_id(0), "doc-0");
    let mut stage = RagStage::Create;
    let mut ingested = 0;
    while !matches!(stage, RagStage::Done(_)) {
        if matches!(stage, RagStage::Ingest(_)) {
            ingested += 1;
        }
        stage = open_and_ingest(stage, true, 2);
    }
    assert_eq!((stage, ingested), (RagStage::Done(0), 2));
    assert_eq!(open_and_ingest(RagStage::Ingest(0), false, 2), RagStage::Destroy(1));
    let failed = RagResult {
        error: Some(SdkError { message: "no index".to_string(), c_abi_code: None }),
        ..RagResult::default()
    };
    assert!(run_rag_query(true, Ok(failed)).unwrap_err().contains("no index"));
    let answered = RagResult { answer: "42".to_string(), ..RagResult::default() };
    assert_eq!(rag_answer_lines(&answered, false).lines[0].text, "42");
}

#[test]
fn documents_are_scored() {
    let docs = gather_documents(&vec!["a".to_string()], &vec![("f".to_string(), some("b"))]).unwrap();
    assert_eq!(docs.len(), 2);
    assert_eq!(gather_documents(&vec![], &vec![]).unwrap_err().1, 2);
    let request = rerank_request("q", &docs, 3);
    assert_eq!((request.query.as_str(), request.documents.len(), request.top_n), ("q", 2, Some(3)));
    assert_eq!(asked_top_n(0), None);
    assert_eq!(asked_top_n(3), Some(3));
    assert!(can_hand_over("/p", "i", "n") && !can_hand_over("/p\0", "i", "n"));
    assert_eq!(preview_exec("short"), "short");
    assert!(preview_exec(&"x".repeat(500)).len() < 500);
    let item = RerankScoredItem { index: 1, relevance_score: 0, score_text: "0.5".to_string() };
    assert!(scored_row(&item, 0, &docs).contains(&"b".to_string()));
    let result = RerankResult { model_id: String::new(), processing_time_ms: 1, items: vec![item] };
    assert!(rerank_reply(false, "down", Ok(result)).is_err());
    let mut stage = RerankStage::Create;
    while !matches!(stage, RerankStage::Done(_)) {
        stage = run_rerank(stage, true);
    }
    assert_eq!(stage, RerankStage::Done(0));
    assert_eq!(run_rerank(RerankStage::Load, false), RerankStage::Destroy(1));
}

#[test]
fn texts_are_embedded() {
    assert_eq!(parse_normalize("l2"), Ok(Some(true)));
    assert_eq!(parse_normalize(""), Ok(None));
    assert_eq!(parse_normalize("l3"), Err(()));
    assert_eq!(parse_pooling("cls"), Ok(EmbeddingsPoolingStrategy::Cls));
    assert!(embed_options("", "", "").unwrap().is_none());
    let o = embed_options("none", "last", "doc").unwrap().unwrap();
    assert_eq!(o.normalize, Some(false));
    assert_eq!((o.pooling, o.input_type), (EmbeddingsPoolingStrategy::Last, EmbeddingsInputType::Document));
    assert!(embed_options("", "max", "").unwrap_err().0.starts_with("--normalize expects l2|none"));
    assert_eq!(gather_texts(&some("a"), &vec!["b".to_string()]), vec!["a", "b"]);
    assert_eq!(gather_texts(&some(""), &vec![]), Vec::<String>::new());
    assert_eq!(
        embed_plan(0, "", KIT, "").unwrap_err(),
        ("at least one text input is required".to_string(), 2)
    );
    let load = embed_load_request("m", InferenceFramework::Unspecified);
    assert_eq!((load.category, load.framework), (Some(ModelCategory::Embedding), None));
    let request = embed_request("m", &vec!["a".to_string()], Some(o));
    assert_eq!((request.model_id.as_str(), request.texts.len()), ("m", 1));
    assert_eq!(request.options.unwrap().normalize, Some(false));
    let (hint, reference) = embed_plan(1, "", KIT, "").unwrap();
    assert_eq!(reference, "minilm");
    assert_eq!(hint.resolve_options.category, ModelCategory::Embedding);
    let vector = EmbeddingVector {
        input_index: 0,
        values: vec![0; 10],
        value_texts: (0..10).map(|n| n.to_string()).collect(),
    };
    assert!(preview_values(&vector).starts_with("0,1,2,3,4,5,6,7"));
    let result = EmbeddingsResult { dimension: 10, vectors: vec![vector], ..EmbeddingsResult::default() };
    assert!(!print_text_result("m", &result, false).lines.is_empty());
    assert!(!print_json_result("m", &vec!["a".to_string()], &result).ops.is_empty());
    assert_eq!(embed_reply(false, "down", Ok(result)).unwrap_err(), "embedding failed: down");
    assert_eq!(run_embed(EmbedStage::Options, false), EmbedStage::Finished(2));
    assert_eq!(run_embed(EmbedStage::Load, false), EmbedStage::Finished(1));
    assert_eq!(run_embed(EmbedStage::Embed, true), EmbedStage::Finished(0));
}

#[test]
fn images_are_drawn() {
    assert_eq!(run_image_generate(false, "p", "o").unwrap().1, 1);
    assert_eq!(run_image_generate(true, "p", "o"), None);
    assert!(matches!(diffusion_source(true), DiffusionSource::LocalBundle));
    let o = diffusion_options("p", "", 0, 7.5f32.to_bits(), true, -1);
    assert_eq!((o.negative_prompt, o.steps, o.seed), (None, None, -1));
    assert_eq!(o.guidance_scale, Some(7.5f32.to_bits()));
    let image = DiffusionImage {
        data: vec![0; 15],
        media_type: "image/png".to_string(),
        width: 2,
        height: 2,
        seed_used: 3,
    };
    assert_eq!(write_image(&image), Ok(ImageEncoding::Verbatim));
    let raw = DiffusionImage { data: vec![0; 16], media_type: String::new(), width: 2, height: 2, seed_used: 3 };
    assert_eq!(write_image(&raw), Ok(ImageEncoding::Png));
    let short = DiffusionImage { data: vec![0; 15], media_type: "image/raw-rgba".to_string(), ..raw };
    assert!(write_image(&short).is_err());
    let empty = DiffusionImage { data: Vec::new(), ..image };
    assert!(write_image(&empty).is_err());
    let sized = |width: i32, height: i32, media_type: &str| DiffusionImage {
        data: vec![0; 16],
        media_type: media_type.to_string(),
        width,
        height,
        seed_used: 0,
    };
    for (width, height) in [(-2, 0), (0, -2), (-2, 2), (-2, -2)] {
        let mismatch = write_image(&sized(width, height, "image/raw-rgba")).unwrap_err();
        assert_eq!(mismatch, "raw RGBA buffer length does not match width*height*4");
        assert_eq!(write_image(&sized(width, height, "image/png")), Ok(ImageEncoding::Verbatim));
    }
    assert!(image_lines("o.png", &empty, 5, false).lines[0].text.contains("o.png"));
}

#[test]
fn adapters_come_and_go() {
    assert!(adapter_problem(false, "/a").unwrap().contains("/a"));
    assert_eq!(adapter_problem(true, "/a"), None);
    assert!(remove_request("").clear_all);
    assert_eq!(remove_request("x").adapter_ids, vec!["x".to_string()]);
    assert_eq!(run_lora_apply(true, Ok(LoraAttachResult { adapters: 1, error: None })), Ok(1));
    assert!(run_lora_apply(false, Ok(LoraAttachResult { adapters: 1, error: None })).is_err());
    assert!(applied_line(1, "m").contains('m'));
}

#[test]
fn tools_are_called() {
    assert_eq!(parse_tool_choice(""), Some(ToolChoiceMode::Auto));
    assert_eq!(parse_tool_choice("specific"), Some(ToolChoiceMode::Specific));
    assert_eq!(parse_tool_choice("maybe"), None);
    let schema = single_string_param_schema("city", "The city");
    let parsed: serde_json::Value = serde_json::from_str(&schema).unwrap();
    assert_eq!(parsed["properties"]["city"]["type"], "string");
    assert_eq!(demo_tools().len(), 2);
    let call = |name: &str, arguments: &str| ToolCall {
        id: "1".to_string(),
        name: name.to_string(),
        arguments_json: arguments.to_string(),
    };
    let (_, known) = demo_executor(&call("get_weather", "{}"));
    assert!(!known.is_error);
    let (_, unknown) = demo_executor(&call("fly", "{}"));
    assert!(!unknown.is_error);
    assert_eq!(unknown.result_json, "{\"ok\":true}");
    let params = ToolCallParams {
        prompt: "p".to_string(),
        model: "m".to_string(),
        engine: String::new(),
        tool_choice: String::new(),
        force_tool: "calculate".to_string(),
        max_tool_calls: 3,
    };
    let request = tool_request(&params).unwrap();
    assert_eq!(request.prompt, "p");
    let o = request.options;
    assert_eq!(o.tool_choice, Some(ToolChoiceMode::Specific));
    assert_eq!(o.forced_tool_name, some("calculate"));
    assert_eq!(tool_request(&ToolCallParams { tool_choice: "maybe".to_string(), ..params }).unwrap_err().1, 2);
    assert_eq!(tool_hint("steam", KIT).unwrap_err().1, 2);
    assert_eq!(tool_load_request("m", true, InferenceFramework::Mlx).framework, None);
    assert_eq!(tool_load_request("m", false, InferenceFramework::Mlx).framework, Some(InferenceFramework::Mlx));
    let end = |fails: ToolStage, complete: bool| {
        let mut stage = ToolStage::Start;
        while !matches!(stage, ToolStage::Finished(_)) {
            stage = run_tool_call(stage, stage != fails, complete);
        }
        stage
    };
    assert_eq!(end(ToolStage::Finished(9), true), ToolStage::Finished(0));
    assert_eq!(end(ToolStage::Finished(9), false), ToolStage::Finished(1));
    assert_eq!(end(ToolStage::Request, true), ToolStage::Finished(2));
    assert_eq!(end(ToolStage::Load, true), ToolStage::Finished(1));
    let result = ToolCallingResult {
        text: "t".to_string(),
        is_complete: true,
        iterations_used: 1,
        tool_calls: Vec::new(),
        error_code: 0,
        error_message: None,
    };
    assert_eq!(tool_exit_code(&result), 0);
    assert!(tool_lines(&result).lines.iter().any(|l| l.text == "t"));
    assert!(tool_problem("", 4).contains('4'));
}

#[test]
fn a_server_is_configured() {
    assert_eq!(served_model(""), "qwen3-0.6b");
    let args = ServeArgs {
        host: "127.0.0.1".to_string(),
        port: 8080,
        context_size: 4096,
        threads: 2,
        gpu_layers: 1,
        cors: true,
        verbose: false,
    };
    let c = server_config(&args, "/m.gguf", "m").unwrap();
    assert_eq!((c.port, c.context_size, c.threads, c.gpu_layers), (8080, 4096, 2, 1));
    assert_eq!(c.model_path, some("/m.gguf"));
    let torn = ServeArgs { host: "a\0".to_string(), ..args };
    assert_eq!(server_config(&torn, "/m", "m").unwrap_err().1, 2);
    assert!(default_server_config().model_path.is_none());
    assert_eq!(start_problem(0, "ok"), None);
    assert_eq!(start_problem(-1, "port in use").unwrap(), "server start failed: port in use");
    assert!(serving_lines("m", "h", 80).lines.iter().any(|l| l.text.contains("h:80")));
    assert!(keeps_serving(false, true) && !keeps_serving(true, true) && !keeps_serving(false, false));
    let status = Some(ServerStatus { total_requests: 3, total_tokens_generated: 9, uptime_seconds: 5 });
    assert!(!served_lines(&status, true).lines.is_empty());
    let end = |fails: ServeStage, code: i32| {
        let mut stage = ServeStage::Start;
        let mut seen = vec![stage];
        while !matches!(stage, ServeStage::Finished(_)) {
            stage = run_serve(stage, stage != fails, code);
            seen.push(stage);
        }
        seen
    };
    let ran = end(ServeStage::Finished(9), 7);
    assert!(ran.contains(&ServeStage::Stop));
    assert_eq!(ran[ran.len() - 1], ServeStage::Finished(7), "the code of the wait");
    assert_eq!(end(ServeStage::Launch, 7).last(), Some(&ServeStage::Finished(1)));
    assert_eq!(end(ServeStage::Setup, 2).last(), Some(&ServeStage::Finished(2)));
    assert_eq!(end(ServeStage::Start, 7).last(), Some(&ServeStage::Finished(1)));
    let (message, code) = no_server();
    assert!(message.contains("does not include the server"));
    assert_eq!(code, 1);
}

#[test]
fn a_local_bundle_is_registered_as_it_stands() {
    let (info, source) = local_bundle("/b.mlpackage");
    assert_eq!((info.id.as_str(), info.name.as_str()), ("local-diffusion-coreml", "Local CoreML Diffusion"));
    assert_eq!(info.category, Some(ModelCategory::ImageGeneration));
    assert_eq!(info.framework, Some(InferenceFramework::Coreml));
    assert_eq!((info.local_path.as_str(), info.download_url.as_str()), ("/b.mlpackage", ""));
    assert_eq!(source, ModelSource::Local);
    let load = diffusion_load_request(&info.id, DiffusionSource::LocalBundle);
    assert_eq!((load.category, load.validate_availability), (Some(ModelCategory::ImageGeneration), false));
    let drawn = diffusion_request("m", diffusion_options("a cat", "", 0, 0, false, 7));
    assert_eq!((drawn.model_id.as_str(), drawn.options.prompt.as_str(), drawn.options.seed), ("m", "a cat", 7));
    assert_eq!((drawn.options.steps, drawn.options.guidance_scale), (None, None));
    let end = |fails: ImageStage| {
        let mut stage = ImageStage::Start;
        while !matches!(stage, ImageStage::Finished(_)) {
            stage = run_image(stage, stage != fails, 2);
        }
        stage
    };
    assert_eq!(end(ImageStage::Finished(9)), ImageStage::Finished(0));
    assert_eq!(end(ImageStage::Usage), ImageStage::Finished(2));
    for stage in [ImageStage::Start, ImageStage::Source, ImageStage::Load, ImageStage::Generate, ImageStage::Write] {
        assert_eq!(end(stage), ImageStage::Finished(1));
    }
}

#[test]
fn an_adapter_is_looked_for_before_a_model_is_loaded() {
    let path = |verb: LoraVerb| {
        let mut stage = LoraStage::Start;
        let mut seen = vec![stage];
        while !matches!(stage, LoraStage::Finished(_)) {
            stage = run_lora(verb, stage, true);
            seen.push(stage);
        }
        seen
    };
    assert_eq!(
        path(LoraVerb::Apply),
        vec![LoraStage::Start, LoraStage::Adapter, LoraStage::Load, LoraStage::Call, LoraStage::Finished(0)]
    );
    assert!(path(LoraVerb::Catalog).contains(&LoraStage::Registry));
    assert_eq!(path(LoraVerb::List), vec![LoraStage::Start, LoraStage::Call, LoraStage::Finished(0)]);
    assert_eq!(run_lora(LoraVerb::Apply, LoraStage::Adapter, false), LoraStage::Finished(1));
    let r = apply_request("/a.gguf", 1.0f32.to_bits());
    assert_eq!((r.adapter_path.as_str(), f32::from_bits(r.scale), r.keep_existing), ("/a.gguf", 1.0, false));
    let load = lora_load_request("m");
    assert_eq!((load.category, load.framework), (Some(ModelCategory::Language), None));
    let load = load_request("m", None, InferenceFramework::Unspecified, false);
    assert_eq!((load.category, load.framework, load.validate_availability), (None, None, false));
}

fn plugin(name: &str, priority: i32) -> Plugin {
    Plugin { name: some(name), display_name: some("D"), version: some("1"), priority }
}

#[test]
fn engines_are_folded_over_their_primitives() {
    let listings = vec![
        Listing { raw: 1, ok: true, primitive: "llm".to_string(), plugins: vec![plugin("b", 1), plugin("a", 2)] },
        Listing { raw: 2, ok: true, primitive: "stt".to_string(), plugins: vec![plugin("a", 5)] },
        Listing { raw: 3, ok: false, primitive: "tts".to_string(), plugins: vec![plugin("z", 5)] },
        Listing { raw: 6, ok: true, primitive: "old".to_string(), plugins: vec![plugin("y", 5)] },
    ];
    let rows = collect_backend_rows(&listings);
    let names: Vec<&str> = rows.iter().map(|r| r.0.as_str()).collect();
    assert_eq!(names, vec!["a", "b"]);
    assert_eq!(rows[0].1.primitives, vec!["llm".to_string(), "stt".to_string()]);
    assert_eq!(join_primitives(&rows[0].1.primitives), "llm, stt");
    assert_eq!(backend_row(&rows[1])[0], "b");
    assert_eq!(collect_llm_backend_rows(rows, "stt").len(), 1);
}

#[test]
fn versions_are_pinned() {
    let v = Versions {
        wally: "1.0".to_string(),
        commons: None,
        pinned_sdk: "2.0".to_string(),
        idl_version: "3".to_string(),
        idl_schema_sha256: "s".to_string(),
        idl_protoc: "p".to_string(),
    };
    assert_eq!(commons_version(&v.commons), "unknown");
    assert!(!pin_ok(&v));
    assert_eq!(pin_problem(&v).unwrap(), ("commons unknown does not match pin 2.0".to_string(), 1));
    assert_eq!(version_lines(&v).lines[0].text, "wally 1.0 (commons unknown)");
    let unpinned = Versions { pinned_sdk: String::new(), ..v };
    assert!(pin_ok(&unpinned) && pin_problem(&unpinned).is_none());
}

#[test]
fn facts_are_laid_out() {
    let facts = InfoFacts {
        wally: "1.0".to_string(),
        commons: some("2.0"),
        platform: "linux".to_string(),
        home: "/h".to_string(),
        models_dir: "/m".to_string(),
        state_dir: "/s".to_string(),
        backends: 2,
        memory: None,
    };
    let lines = info_lines(&facts);
    assert_eq!(lines.lines[0].text, "wally     1.0");
    assert_eq!(lines.lines[5].text, "backends  2");
    assert!(info_json(&facts).ops.iter().any(|op| op.text == "/s"));
    let about = AboutFacts {
        wally: "1.0".to_string(),
        commons: None,
        idl_version: "3".to_string(),
        idl_schema_sha256: "s".to_string(),
        platform: "linux".to_string(),
        baked_console: String::new(),
        console_url: "https://internal".to_string(),
        device: DeviceSnapshot::default(),
        memory: None,
        engines: Vec::new(),
        home: "/h".to_string(),
        models_dir: "/m".to_string(),
        state_dir: "/s".to_string(),
        account: None,
    };
    assert_eq!(channel(&about), "production");
    assert!(matches!(info_report(&facts, false), Report::Lines(_)));
    let palette = Palette { bold: String::new(), bold_cyan: String::new(), reset: String::new() };
    let lines = about_lines(&about, &palette);
    assert!(lines.lines.iter().all(|l| !l.text.contains("https://internal")));
    assert!(lines.lines.iter().any(|l| l.text.contains("none registered")));
    assert!(about_json(&about).ops.iter().any(|op| op.text == "https://internal"));
    assert!(matches!(about_report(&about, &palette, true), Report::Document(_)));
}

#[test]
fn engines_are_hinted_by_name() {
    assert_eq!(engine_choices(KIT), "mlx, llamacpp, onnx, sherpa");
    let hint = resolve_engine_hint("llamacpp", KIT).unwrap();
    assert_eq!(hint.framework, InferenceFramework::LlamaCpp);
    assert!(hint.resolve_options.has_framework);
    assert!(!resolve_engine_hint("", KIT).unwrap().resolve_options.has_framework);
    assert_eq!(resolve_engine_hint("NPU", KIT).unwrap().framework, InferenceFramework::Qhexrt);
    assert!(resolve_engine_hint("vllm", KIT).unwrap_err().starts_with("unsupported engine 'vllm'"));
    assert!(resolve_engine_hint("ane", KIT).unwrap_err().contains("is not in this build"));
    assert_eq!(category(ModelCategory::Language), "llm");
}
