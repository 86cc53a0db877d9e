use wally::commands::cmd_diarize::{
    default_diarization_options, diarization_options, diarize_json, diarize_model_problem, diarize_opening,
    diarize_problem_exec, run_diarize, speaker_row, DiarizationResult, DiarizeStage, SpeakerSegment,
};
use wally::commands::cmd_segment::{
    overlay, run_segment, segment_model_problem, segment_opening, segment_request, stride_bytes, Overlay, SegmentStage,
};
use wally::commands::cmd_stt::{
    default_stt_options, run_stt, stt_json, stt_lines, stt_opening, stt_options, stt_plan, AudioFormat, SttResult,
    SttStage,
};
use wally::commands::cmd_tts::{
    default_tts_options, run_tts, sample_count, select_model_ref, spoken_text, synthesized, tts_opening, tts_options,
    tts_plan, TtsStage,
};
use wally::commands::cmd_vad::{
    frame_count, run_vad, sets_threshold, vad_json, vad_opening, vad_plan, vad_problem_exec, vad_segments, VadStage,
};
use wally::commands::cmd_voice::{
    reply_warning, run_voice, turn_audio_problem, voice_lines, voice_opening, voice_plan, voice_turn, writes_reply,
    VoiceAgentResult, VoiceArgs, VoiceStage,
};

use wally::commands::cmd_rag::rag_opening;
use wally::commands::opening::{open_run, Opening, OpeningPlan};
use wally::commands::reports::stt_report;
use wally::commands::requests::{hand_over, registry_id, voice_config};
use wally::engine::ResolvedModelPaths;
use wally::output::Report;

const DEFAULT_VOICE: &str = "vits-piper-en_US-lessac-medium";

/// How an opening ends when one stage fails, with 7 as the code of a model.
fn opened(plan: OpeningPlan, fails: Opening) -> Opening {
    let mut stage = Opening::Start;
    while !matches!(stage, Opening::Ready | Opening::Refused(_)) {
        stage = open_run(plan, stage, stage != fails, 7);
    }
    stage
}

#[test]
fn a_run_without_its_input_is_a_usage_error() {
    for plan in [
        stt_opening(),
        vad_opening(),
        voice_opening(),
        tts_opening(),
        diarize_opening(),
        segment_opening(),
        rag_opening(),
    ] {
        assert_eq!(opened(plan, Opening::Refused(0)), Opening::Ready);
        assert_eq!(opened(plan, Opening::Usage), Opening::Refused(2));
        assert_eq!(opened(plan, Opening::Start), Opening::Refused(1));
    }
    assert_eq!(opened(voice_opening(), Opening::Resolve(2)), Opening::Refused(7));
    assert_eq!(opened(stt_opening(), Opening::Read), Opening::Refused(1));
    assert_eq!(opened(tts_opening(), Opening::Read), Opening::Ready, "nothing is read to speak");
    assert_eq!(stt_plan("", "", "").unwrap_err().1, 2);
    assert_eq!(segment_model_problem("").unwrap().1, 2);
    assert_eq!(diarize_model_problem("").unwrap().1, 2);
    assert_eq!(diarize_model_problem("m"), None);
}

#[test]
fn what_is_handed_over_holds_no_nul() {
    let model = |path: &str| ResolvedModelPaths {
        model_id: "id".to_string(),
        display_name: "a\0b".to_string(),
        primary_path: path.to_string(),
    };
    let handed = hand_over(&model("/p"));
    assert_eq!((handed.path.as_str(), handed.id.as_str(), handed.name.as_str()), ("/p", "id", ""));
    let config = voice_config(&model("/s"), &model("/l"), &model("/t\0"));
    assert_eq!((config.stt.path.as_str(), config.llm.path.as_str(), config.tts.path.as_str()), ("/s", "/l", ""));
    assert_eq!(config.vad_sample_rate, 16000);
    assert_eq!(f32::from_bits(config.vad_frame_length), 0.1);
    assert_eq!(f32::from_bits(config.vad_energy_threshold), 0.005);
    assert_eq!((registry_id("m"), registry_id("m\0")), ("m".to_string(), String::new()));
    assert_eq!((spoken_text("hi"), spoken_text("h\0i")), ("hi".to_string(), String::new()));
    assert_eq!(tts_options("v\0", "e\0", 0, 0, 0).voice.unwrap(), "");
    assert_eq!(tts_options("", "e\0", 0, 0, 0).language, "");
    assert_eq!(tts_options("", "", 0, 0, 0).language, "en-US");
    let with = segment_request(5, 2, "o.png");
    assert_eq!((with.stride_bytes, with.include_diagnostic_rgba), (15, true));
    assert!(!segment_request(5, 2, "").include_diagnostic_rgba);
}

#[test]
fn default_diarization_options_matches_header_default() {
    let options = default_diarization_options();
    assert_eq!(options.sample_rate_hz, 16000);
    assert_eq!(options.channel_count, 1);
    assert_eq!(f32::from_bits(options.threshold), 0.5);
    assert_eq!(options.minimum_duration_ms, 0);
    assert_eq!(options.merge_gap_ms, 0);
}

#[test]
fn default_stt_options_matches_header_default() {
    let options = default_stt_options();
    assert_eq!(options.language.as_deref(), Some("en"));
    assert!(!options.detect_language);
    assert!(options.enable_punctuation);
    assert!(!options.enable_diarization);
    assert_eq!(options.max_speakers, 0);
    assert!(options.enable_timestamps);
    assert_eq!(options.audio_format, AudioFormat::Pcm);
    assert_eq!(options.sample_rate, 16000);
}

#[test]
fn default_tts_options_matches_header_default() {
    let options = default_tts_options();
    assert!(options.voice.is_none());
    assert_eq!(options.language, "en-US");
    assert_eq!(f32::from_bits(options.rate), 1.0);
    assert_eq!(f32::from_bits(options.pitch), 1.0);
    assert_eq!(f32::from_bits(options.volume), 1.0);
    assert_eq!(options.audio_format, AudioFormat::Pcm);
    assert_eq!(options.sample_rate, 0);
    assert!(!options.use_ssml);
}

#[test]
fn select_model_ref_ignores_voice_when_model_is_absent() {
    assert_eq!(select_model_ref("", "af_bella"), DEFAULT_VOICE);
    assert_eq!(select_model_ref("my-model", "af_bella"), "my-model");
    assert_eq!(select_model_ref("", ""), DEFAULT_VOICE);
}

#[test]
fn speakers_are_labelled() {
    let o = diarization_options(Some(0.25f32.to_bits()), None, Some(40));
    assert_eq!((f32::from_bits(o.threshold), o.minimum_duration_ms, o.merge_gap_ms), (0.25, 0, 40));
    let s = SpeakerSegment { speaker_id: None, speaker_index: 2, start_ms: 100, end_ms: 350 };
    assert_eq!(speaker_row(&s), vec!["2", "100 ms", "350 ms", "250 ms"]);
    let result = DiarizationResult {
        model_id: None,
        speaker_count: 1,
        segment_count: 1,
        audio_duration_ms: 400,
        processing_time_ms: 3,
        segments: vec![s],
    };
    assert!(diarize_json("ref", &result).ops.iter().any(|op| op.key == "model" && op.text == "ref"));
    assert!(diarize_problem_exec(DiarizeStage::Create, "x").is_some());
}

#[test]
fn what_was_created_is_destroyed() {
    let mut d = DiarizeStage::Create;
    let mut destroyed = 0;
    while !matches!(d, DiarizeStage::Done(_)) {
        d = run_diarize(d, true);
        if matches!(d, DiarizeStage::Destroy(_)) {
            destroyed += 1;
        }
    }
    assert_eq!((d, destroyed), (DiarizeStage::Done(0), 1));
    let mut s = SegmentStage::Create;
    while !matches!(s, SegmentStage::Done(_)) {
        s = run_segment(s, !matches!(s, SegmentStage::Segment), true);
    }
    assert_eq!(s, SegmentStage::Done(1));
    let mut t = SttStage::Create;
    while !matches!(t, SttStage::Done(_)) {
        t = run_stt(t, true);
    }
    assert_eq!(t, SttStage::Done(0));
    let mut t = TtsStage::Create;
    while !matches!(t, TtsStage::Done(_)) {
        t = run_tts(t, !matches!(t, TtsStage::Write));
    }
    assert_eq!(t, TtsStage::Done(1));
    let mut v = VoiceStage::Create;
    while !matches!(v, VoiceStage::Done(_)) {
        v = run_voice(v, true);
    }
    assert_eq!(v, VoiceStage::Done(0));
    assert!(matches!(run_voice(VoiceStage::Initialize, false), VoiceStage::Destroy(1)));
}

#[test]
fn speech_is_found_in_frames() {
    assert_eq!(frame_count(1024), 2);
    assert_eq!(frame_count(1025), 2);
    assert_eq!(frame_count(511), 0);
    let segments = vad_segments(&vec![false, true, true, false, true], 5 * 512 + 100);
    assert_eq!(segments, vec![(512, 2048), (2048, 2660)]);
    assert_eq!(vad_segments(&vec![], 0), vec![]);
    assert!(sets_threshold(0.3f32.to_bits()) && !sets_threshold(0));
    let (input, model) = vad_plan("a.wav", "", "").unwrap();
    assert_eq!((input.as_str(), model.as_str()), ("a.wav", "silero-vad"));
    assert_eq!(vad_plan("", "", "").unwrap_err().1, 2);
    let mut stage = VadStage::Create;
    let mut frames = 0;
    while !matches!(stage, VadStage::Done(_)) {
        if matches!(stage, VadStage::Frame(_)) {
            frames += 1;
        }
        stage = run_vad(stage, true, true, 3);
    }
    assert_eq!((stage, frames), (VadStage::Done(0), 3));
    assert!(vad_problem_exec(VadStage::Start, "x").is_some());
    assert!(vad_json("m", &vec![(1, 2)]).ops.iter().any(|op| op.number == 2));
}

#[test]
fn transcription_takes_its_options() {
    let o = stt_options("", true, false, true, 3);
    assert_eq!((o.language, o.detect_language), (None, true));
    assert!(!o.enable_timestamps && o.enable_diarization);
    assert_eq!(o.max_speakers, 3);
    let o = stt_options("de", false, true, false, 0);
    assert_eq!((o.language.as_deref(), o.detect_language), (Some("de"), false));
    assert_eq!(stt_plan("", "b.wav", "").unwrap(), ("b.wav".to_string(), "sherpa-onnx-whisper-tiny.en".to_string()));
    let r = SttResult {
        text: "hi".to_string(),
        detected_language: "en".to_string(),
        confidence: 0,
        processing_time_ms: 4,
        words: Vec::new(),
    };
    assert_eq!(stt_lines(&r, false).lines[0].text, "hi");
    assert!(stt_json("m", &r).ops.iter().any(|op| op.text == "hi"));
    assert!(matches!(stt_report("m", &r, false, true), Report::Document(_)));
    assert!(matches!(stt_report("m", &r, false, false), Report::Lines(_)));
}

#[test]
fn a_voice_takes_its_options() {
    let o = tts_options("bella", "", 1.5f32.to_bits(), 1.0f32.to_bits(), 22050);
    assert_eq!(o.voice.as_deref(), Some("bella"));
    assert_eq!(o.language, "en-US");
    assert_eq!((f32::from_bits(o.rate), o.sample_rate), (1.5, 22050));
    assert_eq!(tts_plan("", "", "o.wav").unwrap_err().1, 2);
    assert_eq!(tts_plan("hello", "", "").unwrap_err().1, 2);
    assert_eq!(tts_plan("", "hello", "o.wav"), Ok("hello".to_string()));
    assert!(synthesized(0, Some(8)) && !synthesized(0, None) && !synthesized(1, Some(8)));
    assert_eq!(sample_count(9), 2);
}

#[test]
fn a_turn_is_planned_and_told() {
    let args = VoiceArgs {
        audio: String::new(),
        input: "q.wav".to_string(),
        stt: String::new(),
        llm: "big".to_string(),
        tts: String::new(),
        output: "a.wav".to_string(),
    };
    let plan = voice_plan(&args).unwrap();
    assert_eq!((plan.input_path.as_str(), plan.llm_ref.as_str()), ("q.wav", "big"));
    assert_eq!(plan.stt_ref, "sherpa-onnx-whisper-tiny.en");
    assert_eq!(plan.tts_ref, DEFAULT_VOICE);
    let missing = VoiceArgs { input: String::new(), ..args };
    assert_eq!(voice_plan(&missing).unwrap_err().1, 2);
    let result = VoiceAgentResult {
        transcription: "what".to_string(),
        assistant_response: "that".to_string(),
        synthesized_audio: vec![1],
    };
    assert!(writes_reply("a.wav", &result) && !writes_reply("", &result));
    assert!(!voice_lines(&result, "a.wav").lines.is_empty());
    assert!(voice_turn(false, "down", Ok(result)).is_err());
    assert!(turn_audio_problem(0).is_some() && turn_audio_problem(1).is_none());
    assert!(reply_warning("a.wav").contains("a.wav"));
}

#[test]
fn an_overlay_is_written_where_one_came() {
    assert_eq!(overlay("", Some(3)), Overlay::Unwanted);
    assert_eq!(overlay("o.png", None), Overlay::Missing);
    assert_eq!(overlay("o.png", Some(3)), Overlay::Write);
    assert_eq!(stride_bytes(4), 12);
}
