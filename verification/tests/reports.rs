use wally::commands::EngineRow;
use wally::commands::cmd_diarize::{diarize_audio_problem, DiarizationResult, SpeakerSegment};
use wally::commands::cmd_embed::{load_embeddings_model, loaded_status, EmbeddingsResult};
use wally::commands::cmd_image::{register_local_bundle, DiffusionImage};
use wally::commands::cmd_list::refresh_warning;
use wally::commands::cmd_lora::{LoadedAdapter, LoraCatalog, LoraState};
use wally::commands::cmd_models::{LoadedModel, UnloadResult};
use wally::commands::cmd_rag::{RagChunk, RagResult, RagSearchResponse};
use wally::commands::cmd_rerank::{RerankResult, RerankScoredItem};
use wally::commands::cmd_run::ModelLoadResult;
use wally::commands::cmd_segment::{overlay_warning, segment_path_problem, ClassSummary, Overlay, SegmentationResult};
use wally::commands::cmd_tool::ToolCallingResult;
use wally::commands::cmd_version::Versions;
use wally::commands::cmd_voice::{turn_status, VoiceAgentResult};
use wally::commands::model_labels::{format_i32, short_backend_i32};
use wally::commands::reports::{
    answer_report, applied_report, backends_report, catalog_report, diarize_report, embed_report, image_report,
    loaded_report, lora_report, present_report, pulled_report, registered_report, removed_report, rerank_report,
    search_report, segment_report, show_report, tool_report, tts_report, unloaded_report, vad_report, version_report,
    voice_report, whoami_report,
};
use wally::engine::ModelInfo;
use wally::output::Report;

/// The lines of a report; a document or a table has none.
fn said(report: &Report) -> Vec<&str> {
    match report {
        Report::Lines(p) => p.lines.iter().map(|l| l.text.as_str()).collect(),
        other => panic!("{other:?}"),
    }
}

/// The rows of a table, and the lines below it.
fn rows(report: &Report) -> (Vec<Vec<String>>, Vec<&str>) {
    match report {
        Report::Table(_, table, below) => {
            (table.rows.clone(), below.lines.iter().map(|l| l.text.as_str()).collect())
        }
        other => panic!("{other:?}"),
    }
}

fn is_document(report: &Report) -> bool {
    matches!(report, Report::Document(_))
}

fn model() -> ModelInfo {
    ModelInfo {
        id: "m".to_string(),
        name: "M".to_string(),
        category: None,
        framework: None,
        format: None,
        registry_status: None,
        download_url: String::new(),
        local_path: "/p".to_string(),
        download_size_bytes: 0,
        context_length: 0,
        supports_thinking: false,
        files: None,
    }
}

#[test]
fn json_asks_for_a_document() {
    assert!(is_document(&whoami_report("e@x", "https://c", true)));
    assert!(is_document(&catalog_report(&LoraCatalog::default(), true)));
    assert!(is_document(&lora_report(&LoraState::default(), true)));
    assert!(is_document(&backends_report(&vec![], true)));
    assert!(is_document(&pulled_report("m", &Some(model()), 9, true)));
    assert!(is_document(&vad_report("m", &vec![], vec![], true)));
    assert!(is_document(&tts_report("v", "o.wav", 22050, 1, 2, false, true)));
    assert!(is_document(&search_report(&RagSearchResponse::default(), false, true)));
}

#[test]
fn a_reader_gets_lines() {
    assert_eq!(said(&whoami_report("e@x", "https://c", false)), vec!["email          e@x", "session        active"]);
    assert_eq!(said(&catalog_report(&LoraCatalog::default(), false)), vec!["no LoRA adapters registered"]);
    assert_eq!(said(&applied_report(1, "m", false)), vec!["applied 1 adapter(s) to m"]);
    assert_eq!(said(&present_report(&model(), false)), vec!["m is already downloaded \u{2192} /p"]);
    assert_eq!(said(&pulled_report("m", &Some(model()), 9, false)), vec!["pulled m \u{2192} /p"]);
    assert_eq!(said(&pulled_report("m", &None, 9, true)), vec!["pulled m"], "there is no entry to write down");
    assert_eq!(said(&removed_report("m", 5, "5 B", false)), vec!["deleted m (freed 5 B)"]);
    assert_eq!(said(&removed_report("m", 0, "0 B", false)), vec!["deleted m"]);
    let none = UnloadResult { unloaded_model_ids: vec![], error: None };
    assert_eq!(said(&unloaded_report(&none, false)), vec!["nothing was loaded"]);
    let answer = RagResult { answer: "42".to_string(), ..RagResult::default() };
    assert_eq!(said(&answer_report(&answer, false, false)), vec!["42"]);
    let chunk = RagChunk { text: "c".to_string(), score: 0, source_document: None };
    let found = RagSearchResponse { chunks: vec![chunk], ..RagSearchResponse::default() };
    assert_eq!(said(&search_report(&found, true, false)), vec!["c", "chunks=1 retrieval=0ms"]);
    let v = Versions {
        wally: "1.0".to_string(),
        commons: Some("2.0".to_string()),
        pinned_sdk: "2.0".to_string(),
        idl_version: "3".to_string(),
        idl_schema_sha256: "ab".to_string(),
        idl_protoc: "4".to_string(),
    };
    assert_eq!(said(&version_report(&v, false)), vec!["wally 1.0 (commons 2.0)", "idl 3 sha256 ab"]);
}

#[test]
fn an_empty_table_is_a_line() {
    assert_eq!(said(&backends_report(&vec![], false)), vec!["no backends registered"]);
    assert_eq!(said(&lora_report(&LoraState::default(), false)), vec!["no adapters applied"]);
    assert_eq!(said(&vad_report("m", &vec![], vec![], false)), vec!["no speech detected"]);
    let silent = DiarizationResult {
        model_id: None,
        speaker_count: 0,
        segment_count: 0,
        audio_duration_ms: 9,
        processing_time_ms: 2,
        segments: vec![],
    };
    assert_eq!(
        said(&diarize_report("r", &silent, true, false)),
        vec!["(no speech segments detected)", "(0 speakers, 2 ms)"]
    );
    let blank = SegmentationResult { model_id: None, width: 4, height: 3, processing_time_ms: 7, classes: vec![] };
    assert_eq!(said(&segment_report("r", &blank, false, false)), vec!["size\t4x3", "(no classes)"]);
}

#[test]
fn rows_become_a_table() {
    let engine = EngineRow { priority: 3, primitives: vec!["llm".to_string()], ..EngineRow::default() };
    let shown = backends_report(&vec![("b".to_string(), engine)], false);
    assert_eq!(rows(&shown).0, vec![vec!["b", "3", "llm"]]);
    let adapter =
        LoadedAdapter { adapter_path: "/a".to_string(), scale_text: "1.000000".to_string(), ..LoadedAdapter::default() };
    let state = LoraState { loaded_adapters: vec![adapter], ..LoraState::default() };
    assert_eq!(rows(&lora_report(&state, false)).0, vec![vec!["/a", "1.000000", "no"]]);
    let item = RerankScoredItem { index: 0, relevance_score: 0, score_text: "0.5000".to_string() };
    let result = RerankResult { model_id: String::new(), processing_time_ms: 1, items: vec![item] };
    let shown = rerank_report("m", &result, &vec!["doc".to_string()], false);
    assert_eq!(rows(&shown).0, vec![vec!["1", "0", "0.5000", "doc"]]);
    let speaker = SpeakerSegment { speaker_id: None, speaker_index: 2, start_ms: 100, end_ms: 350 };
    let heard = DiarizationResult {
        model_id: None,
        speaker_count: 1,
        segment_count: 1,
        audio_duration_ms: 400,
        processing_time_ms: 3,
        segments: vec![speaker],
    };
    let shown = diarize_report("r", &heard, true, false);
    assert_eq!(rows(&shown).0, vec![vec!["2", "100 ms", "350 ms", "250 ms"]]);
    assert_eq!(rows(&shown).1, vec!["(1 speakers, 3 ms)"]);
    let class = ClassSummary {
        class_id: 1,
        label: "sky".to_string(),
        pixel_count: 6,
        fraction: 0,
        coverage: "50.0%".to_string(),
    };
    let seen = SegmentationResult { model_id: None, width: 4, height: 3, processing_time_ms: 7, classes: vec![class] };
    let shown = segment_report("r", &seen, true, false);
    assert_eq!(rows(&shown).0, vec![vec!["1", "sky", "6", "50.0%"]]);
    assert_eq!(rows(&shown).1, vec!["(7 ms)"]);
    let cells = vec![vec!["0.00s".to_string(), "1.00s".to_string(), "1.00s".to_string()]];
    assert_eq!(rows(&vad_report("m", &vec![(0, 1)], cells.clone(), false)).0, cells);
}

#[test]
fn the_engine_s_work_is_shown() {
    let image =
        DiffusionImage { data: vec![1], media_type: "image/png".to_string(), width: 2, height: 3, seed_used: 4 };
    assert_eq!(said(&image_report("m", "o.png", &image, 5, true, false)), vec!["o.png", "(2x3, seed 4, 5 ms)"]);
    assert_eq!(said(&registered_report(&model(), false)), vec!["registered m"]);
    let loaded = LoadedModel {
        model_id: "m".to_string(),
        category: None,
        framework: None,
        resolved_path: "/p".to_string(),
        already_loaded: false,
        error: None,
    };
    assert_eq!(said(&loaded_report(&loaded, false)), vec!["loaded m \u{2192} /p"]);
    assert!(said(&show_report(&model(), "", false)).contains(&"path        /p"));
    let called = ToolCallingResult {
        text: "t".to_string(),
        is_complete: true,
        iterations_used: 1,
        tool_calls: vec![],
        error_code: 0,
        error_message: None,
    };
    assert_eq!(said(&tool_report(&called, false)), vec!["iterations: 1, tool calls: 0", "t"]);
    let turn = VoiceAgentResult {
        transcription: "hi".to_string(),
        assistant_response: "hello".to_string(),
        synthesized_audio: vec![],
    };
    assert_eq!(said(&voice_report(&turn, "o.wav", false)), vec!["you   hi", "agent hello", "audio o.wav"]);
    let embedded = EmbeddingsResult {
        model_id: None,
        dimension: 3,
        tokens_used: 0,
        processing_time_ms: 4,
        vectors: vec![],
    };
    assert_eq!(
        said(&embed_report("m", &vec![], &embedded, true, false)),
        vec!["model\tm", "dimension\t3", "count\t0", "(4 ms)"]
    );
}

#[test]
fn what_goes_wrong_is_named() {
    assert_eq!(diarize_audio_problem(0, "/a").unwrap(), "no audio samples in /a");
    assert_eq!(diarize_audio_problem(1, "/a"), None);
    assert_eq!(segment_path_problem("/a\0").unwrap(), ("model path contains a NUL byte".to_string(), 1));
    assert_eq!(segment_path_problem("/a"), None);
    assert_eq!(overlay_warning(Overlay::Missing).unwrap(), "warning: engine returned no diagnostic image");
    assert_eq!(refresh_warning("torn"), "warning: registry refresh failed: torn");
    assert_eq!(register_local_bundle(true, ""), Ok("local-diffusion-coreml".to_string()));
    assert_eq!(register_local_bundle(false, "full"), Err("failed to register local model: full".to_string()));
    let loaded = ModelLoadResult { resolved_path: "/m".to_string(), error: None };
    assert_eq!(load_embeddings_model(true, "", Ok(loaded)), Ok("/m".to_string()));
    assert_eq!(
        load_embeddings_model(true, "", Err("torn".to_string())),
        Err("embedding model load failed: torn".to_string())
    );
    assert_eq!(loaded_status("/m", true).lines[0].text, "loaded /m");
    assert!(loaded_status("/m", false).lines.is_empty());
    assert_eq!(turn_status("s", "l", "t"), "processing voice turn (stt=s, llm=l, tts=t)");
    assert_eq!((short_backend_i32(None), format_i32(None)), ("?", "?"));
}
