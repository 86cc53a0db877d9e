use wally::commands::cmd_default_models::{cleared_json, cleared_line, saved_json, saved_line};
use wally::commands::cmd_diarize::{diarize_status, speaker_header, speaker_row, DiarizationResult, SpeakerSegment};
use wally::commands::cmd_editors::{claude_seed_home, gateway_name};
use wally::commands::cmd_image::{
    image_json, image_problem, load_diffusion_model, run_image_generate_body, DiffusionImage, DiffusionResult,
};
use wally::commands::cmd_lora::{
    applied_json, catalog_lines, load_llm_for_lora, require_lora_registry, run_lora_catalog, run_lora_list,
    run_lora_remove, LoraCatalog, LoraCatalogEntry, LoraState,
};
use wally::commands::cmd_rag::{
    ingest_reply, ingested_status, question_problem, rag_answer_json, rag_search_lines, run_rag_search, RagChunk,
    RagResult, RagSearchResponse,
};
use wally::commands::cmd_rm::{removed_json, unregister_warning};
use wally::commands::cmd_tts::{tts_json, tts_lines};
use wally::commands::cmd_version::{version_json, Versions};
use wally::commands::cmd_voice::{voice_json, VoiceAgentResult};
use wally::output::{Channel, JsonWrite, JsonWriter, Printed};

/// The fields of a flat document, each as text.
fn fields(json: &JsonWriter) -> Vec<(String, String)> {
    json.ops
        .iter()
        .filter_map(|op| match op.write {
            JsonWrite::Text => Some((op.key.clone(), op.text.clone())),
            JsonWrite::Integer => Some((op.key.clone(), op.number.to_string())),
            JsonWrite::Boolean => Some((op.key.clone(), (op.number != 0).to_string())),
            _ => None,
        })
        .collect()
}

fn pairs(items: &[(&str, &str)]) -> Vec<(String, String)> {
    items.iter().map(|(k, v)| (k.to_string(), v.to_string())).collect()
}

fn lines(printed: &Printed) -> Vec<(Channel, &str)> {
    printed.lines.iter().map(|l| (l.channel, l.text.as_str())).collect()
}

#[test]
fn a_default_model_is_reported() {
    assert_eq!(fields(&cleared_json()), pairs(&[("cleared", "true")]));
    assert_eq!(cleared_line(), "default model cleared");
    assert_eq!(fields(&saved_json("m")), pairs(&[("model", "m"), ("source", "file")]));
    assert_eq!(saved_line("m"), "default model set to m");
}

#[test]
fn adapters_are_reported() {
    assert_eq!(require_lora_registry(false).unwrap(), "LoRA registry unavailable (SDK not initialized)");
    assert_eq!(require_lora_registry(true), None);
    let entry = LoraCatalogEntry { id: "a".to_string(), name: "A".to_string(), local_path: None };
    let list = LoraCatalog { entries: vec![entry], error: None };
    assert_eq!(lines(&catalog_lines(&list)), vec![(Channel::Result, "a  A")]);
    let none = LoraCatalog { entries: Vec::new(), error: None };
    assert_eq!(lines(&catalog_lines(&none)), vec![(Channel::Result, "no LoRA adapters registered")]);
    assert_eq!(run_lora_catalog(true, Err("torn".to_string())).unwrap_err(), "list failed: torn");
    assert_eq!(run_lora_list(false, Ok(LoraState::default())).unwrap_err(), "cannot read LoRA state: ");
    assert_eq!(run_lora_remove(true, Err("torn".to_string())).unwrap_err(), "remove failed: torn");
    assert_eq!(load_llm_for_lora(false, Err("torn".to_string())).unwrap(), "LLM load failed: torn");
    assert_eq!(fields(&applied_json(2)), pairs(&[("success", "true"), ("adapters", "2")]));
}

#[test]
fn an_image_is_reported() {
    let image =
        DiffusionImage { data: vec![1], media_type: "image/png".to_string(), width: 2, height: 3, seed_used: 4 };
    let expected = pairs(&[
        ("model", "m"),
        ("output", "o.png"),
        ("width", "2"),
        ("height", "3"),
        ("seed", "4"),
        ("total_ms", "5"),
    ]);
    assert_eq!(fields(&image_json("m", "o.png", &image, 5)), expected);
    assert_eq!(image_problem("full"), "failed to write image: full");
    assert_eq!(load_diffusion_model(true, Err("torn".to_string())).unwrap_err(), "diffusion model load failed: torn");
    let empty = DiffusionResult { images: Vec::new(), total_time_ms: 0 };
    let missing = run_image_generate_body(true, Ok(empty)).map(|_| ()).unwrap_err();
    assert_eq!(missing, "image generation failed: engine returned no image");
    let one = DiffusionResult { images: vec![image], total_time_ms: 9 };
    assert_eq!(run_image_generate_body(true, Ok(one)).map(|r| r.total_time_ms), Ok(9));
}

#[test]
fn speech_is_reported() {
    let expected =
        pairs(&[("voice", "v"), ("path", "o.wav"), ("sample_rate", "22050"), ("duration_ms", "7"), ("total_ms", "8")]);
    assert_eq!(fields(&tts_json("v", "o.wav", 22050, 7, 8)), expected);
    let spoken = tts_lines("o.wav", 22050, 8, true);
    assert_eq!(lines(&spoken), vec![(Channel::Result, "o.wav"), (Channel::Status, "(8 ms, 22050 Hz)")]);
    let turn = VoiceAgentResult {
        transcription: "hi".to_string(),
        assistant_response: "hello".to_string(),
        synthesized_audio: Vec::new(),
    };
    let expected = pairs(&[("transcription", "hi"), ("response", "hello"), ("reply_audio", "")]);
    assert_eq!(fields(&voice_json(&turn, "")), expected);
}

#[test]
fn speakers_are_reported() {
    let segment = SpeakerSegment { speaker_id: None, speaker_index: 3, start_ms: 10, end_ms: 25 };
    assert_eq!(speaker_header(), vec!["speaker", "start", "end", "duration"]);
    assert_eq!(speaker_row(&segment), vec!["3", "10 ms", "25 ms", "15 ms"]);
    let result = DiarizationResult {
        model_id: None,
        speaker_count: 1,
        segment_count: 1,
        audio_duration_ms: 30,
        processing_time_ms: 2,
        segments: vec![segment],
    };
    assert!(diarize_status(&result, false).lines.is_empty());
}

#[test]
fn retrieval_is_reported() {
    assert_eq!(question_problem("").unwrap(), ("a question is required (positional argument)".to_string(), 2));
    assert_eq!(question_problem("why?"), None);
    assert_eq!(ingest_reply(false, "busy", Ok(())).unwrap(), "RAG ingest failed: busy");
    assert_eq!(ingest_reply(true, "", Ok(())), None);
    assert_eq!(lines(&ingested_status(2, 9, true)), vec![(Channel::Status, "ingested doc-2 (9 bytes)")]);
    let chunk = RagChunk { text: "c".to_string(), score: 0, source_document: None };
    let found = RagSearchResponse {
        request_id: String::new(),
        retrieval_time_ms: 4,
        chunks: vec![chunk],
        error: None,
    };
    let shown = rag_search_lines(&found, true);
    assert_eq!(lines(&shown), vec![(Channel::Result, "c"), (Channel::Status, "chunks=1 retrieval=4ms")]);
    assert_eq!(run_rag_search(true, Err("torn".to_string())).map(|_| ()).unwrap_err(), "RAG search failed: torn");
    let answer = RagResult { answer: "42".to_string(), ..RagResult::default() };
    assert!(fields(&rag_answer_json(&answer)).contains(&("answer".to_string(), "42".to_string())));
}

#[test]
fn a_removal_is_reported() {
    assert_eq!(fields(&removed_json("m", 7)), pairs(&[("id", "m"), ("freed_bytes", "7")]));
    assert_eq!(unregister_warning(false, "busy", Ok(())).unwrap(), "warning: registry unregister failed: busy");
    assert_eq!(unregister_warning(true, "", Ok(())), None);
}

#[test]
fn versions_are_reported() {
    let v = Versions {
        wally: "1".to_string(),
        commons: Some("2".to_string()),
        pinned_sdk: "2".to_string(),
        idl_version: "3".to_string(),
        idl_schema_sha256: "s".to_string(),
        idl_protoc: "p".to_string(),
    };
    let expected = pairs(&[
        ("wally", "1"),
        ("commons", "2"),
        ("pinned_sdk", "2"),
        ("idl_version", "3"),
        ("idl_schema_sha256", "s"),
        ("idl_protoc", "p"),
        ("pin_ok", "true"),
    ]);
    assert_eq!(fields(&version_json(&v)), expected);
}

#[test]
fn an_editor_is_seeded_from_home() {
    let some = |s: &str| Some(s.to_string());
    assert_eq!(claude_seed_home(&some("/h"), &some("/p"), true), some("/h"));
    assert_eq!(claude_seed_home(&some(""), &some("/p"), true), some("/p"));
    assert_eq!(claude_seed_home(&some(""), &some("/p"), false), None);
    assert_eq!(gateway_name("m"), "RunAnywhere \u{b7} m");
}
