use wally::commands::bench_metrics::{fill_llm, fill_vlm, measured_prefill_ms, LlmRun, Reading, VlmRun};
use wally::commands::cmd_bench::{
    aggregate, available_ram_bytes, bench_exit_code, bench_header, bench_jobs, bench_json, bench_plan, bench_row_line,
    call_proto, collect_models, downloaded_models, failed_row, job_line, job_row, judged, ljust_bytes, load_result,
    measured_request, measured_row, medians_of, modality_label, modality_of, model_not_downloaded_error,
    nothing_to_bench, preload_unloads, run_bench, scenarios_for, skipped_row, trial_line, trial_load, trial_next,
    vlm_image_missing_error, vlm_preload_unload_targets, warmup_request, BenchModel, BenchRow, BenchStage, Metrics,
    Modality, TrialAction, TrialReading, TrialRequest, TrialStage, TrialsNext,
};
use wally::commands::engine_options::Kit;
use wally::engine::{InferenceFramework, ModelCategory, ModelInfo, ModelRegistryStatus, SdkError};
use wally::median::{median, Median};
use wally::output::JsonWrite;

#[test]
fn pads_short_ascii_strings_with_spaces_to_byte_width() {
    assert_eq!(ljust_bytes("abc", 5), b"abc  ".to_vec());
}

#[test]
fn truncates_ascii_strings_longer_than_width() {
    assert_eq!(ljust_bytes("abcdefgh", 5), b"abcde".to_vec());
}

#[test]
fn pads_by_byte_count_not_char_count_for_multibyte_utf8() {
    // "café" is 4 chars but 5 bytes: padding goes by bytes.
    let padded = ljust_bytes("café", 10);
    assert_eq!(padded.len(), 10);
    assert_eq!(&padded[..5], "café".as_bytes());
    assert_eq!(&padded[5..], b"     ");
}

#[test]
fn truncation_can_cut_a_multibyte_character_in_half() {
    let truncated = ljust_bytes("café", 4);
    assert_eq!(truncated, vec![b'c', b'a', b'f', 0xC3]);
    assert!(std::str::from_utf8(&truncated).is_err());
}

#[test]
fn unloads_vision_when_trial_category_is_vision() {
    let targets = vlm_preload_unload_targets(ModelCategory::Vision);
    assert!(targets.contains(&ModelCategory::Vision));
}

#[test]
fn still_unloads_multimodal_when_trial_category_is_multimodal() {
    let targets = vlm_preload_unload_targets(ModelCategory::Multimodal);
    assert!(targets.contains(&ModelCategory::Multimodal));
}

#[test]
fn always_unloads_language_too() {
    for category in [ModelCategory::Vision, ModelCategory::Multimodal] {
        assert!(vlm_preload_unload_targets(category).contains(&ModelCategory::Language));
    }
}

#[test]
fn names_wally_models_pull_with_the_ref_the_caller_typed() {
    let message = model_not_downloaded_error("resolved-id", "hf.co/org/repo");
    assert!(message.contains("wally models pull hf.co/org/repo"));
    assert!(message.contains("resolved-id"));
}

#[test]
fn does_not_claim_an_in_tree_default_resolves() {
    for path in ["", "docs/gifs/npu-model-tag-screenshot.png", "/no/such/file.png"] {
        let message = vlm_image_missing_error(path);
        assert!(
            !message.contains("resolves from inside the wally source tree"),
            "message still implies an in-tree default: {message}"
        );
    }
}

#[test]
fn says_no_built_in_sample_ships_when_flag_is_absent() {
    assert!(vlm_image_missing_error("").contains("ships no built-in"));
}

fn row(success: bool) -> BenchRow {
    BenchRow {
        model_id: "m".to_string(),
        modality: Modality::Llm,
        scenario: "s".to_string(),
        success,
        error: String::new(),
        trials: 1,
        med: Metrics::default(),
    }
}

#[test]
fn nonzero_when_any_row_failed() {
    let rows = vec![row(true), row(false)];
    assert_eq!(bench_exit_code(&rows), 1);
}

#[test]
fn zero_when_every_row_succeeded() {
    let rows = vec![row(true), row(true)];
    assert_eq!(bench_exit_code(&rows), 0);
}

fn bits(values: &[f64]) -> Vec<u64> {
    values.iter().map(|v| v.to_bits()).collect()
}

/// The median as floating point has it.
fn expected_median(values: &[f64]) -> f64 {
    let mut v: Vec<f64> = values.iter().copied().filter(|x| x.is_finite()).collect();
    if v.is_empty() {
        return 0.0;
    }
    v.sort_by(|a, b| a.partial_cmp(b).unwrap());
    let mid = v.len() / 2;
    if v.len() % 2 == 1 {
        v[mid]
    } else {
        (v[mid - 1] + v[mid]) / 2.0
    }
}

fn taken(m: Median) -> f64 {
    match m {
        Median::Nothing => 0.0,
        Median::One(v) => f64::from_bits(v),
        Median::Between(a, b) => (f64::from_bits(a) + f64::from_bits(b)) / 2.0,
    }
}

#[test]
fn the_median_is_the_middle_of_the_finite_values() {
    let cases: Vec<Vec<f64>> = vec![
        vec![],
        vec![f64::NAN, f64::INFINITY, f64::NEG_INFINITY],
        vec![3.0],
        vec![3.0, 1.0, 2.0],
        vec![4.0, 1.0, 3.0, 2.0],
        vec![-1.5, -2.5, 0.0, -0.0, 7.25],
        vec![f64::MAX, f64::MIN, 1e-308, -1e-308],
        vec![5.0, f64::NAN, 1.0, f64::INFINITY, 9.0, 5.0],
    ];
    for values in cases {
        assert_eq!(taken(median(&bits(&values))), expected_median(&values), "{values:?}");
    }
    assert_eq!(median(&bits(&[2.0, 1.0])), Median::Between(1f64.to_bits(), 2f64.to_bits()));
}

fn reading(load: f64, tokens: i32) -> TrialReading {
    TrialReading {
        load_ms: load.to_bits(),
        warmup_ms: 0,
        end_to_end_ms: (load * 2.0).to_bits(),
        tokens_per_second: 0,
        prompt_eval_ms: 0,
        decode_ms: 0,
        memory_delta_bytes: 0,
        real_time_factor: 0,
        chars_per_second: 0,
        audio_duration_ms: 0,
        output_tokens: tokens,
    }
}

#[test]
fn trials_are_reported_by_their_medians() {
    let runs = vec![reading(30.0, 7), reading(10.0, 5), reading(20.0, 9)];
    let m = medians_of(&runs);
    assert_eq!(taken(m.load_ms), 20.0);
    assert_eq!(taken(m.end_to_end_ms), 40.0);
    assert_eq!(m.output_tokens, 5, "the trial in the middle of the run, not the median");
    assert_eq!(medians_of(&vec![]).output_tokens, 0);
    assert_eq!(trial_line(0, 3), "  trial 1/3 ok");
}

#[test]
fn trials_run_until_one_fails() {
    let model = BenchModel { id: "l".to_string(), category: ModelCategory::Language, modality: Modality::Llm };
    let scenario = &scenarios_for(Modality::Llm)[0];
    let mut runs = Vec::new();
    let (said, next) = aggregate(&model, scenario, 2, &mut runs, None, true);
    assert!(said.lines.is_empty() && matches!(next, TrialsNext::Run));
    let (said, next) = aggregate(&model, scenario, 2, &mut runs, Some(Ok(reading(10.0, 5))), true);
    assert_eq!(said.lines[0].text, "  trial 1/2 ok");
    assert!(matches!(next, TrialsNext::Run));
    let mut failed = runs.clone();
    match aggregate(&model, scenario, 2, &mut failed, Some(Err("load failed".to_string())), true).1 {
        TrialsNext::Failed(row) => {
            assert_eq!((row.success, row.error.as_str(), row.trials), (false, "load failed", 2));
            assert_eq!((row.med.load_ms, row.med.end_to_end_ms, row.med.output_tokens), (0, 0, 0));
        }
        _ => panic!("a failed trial ends the job"),
    }
    let (said, next) = aggregate(&model, scenario, 2, &mut runs, Some(Ok(reading(30.0, 7))), false);
    assert!(said.lines.is_empty());
    match next {
        TrialsNext::Measured(m) => assert_eq!(taken(m.load_ms), 20.0),
        _ => panic!("both trials ran"),
    }
}

#[test]
fn a_trial_asks_the_engine_for_its_scenario() {
    let model = BenchModel { id: "l".to_string(), category: ModelCategory::Language, modality: Modality::Llm };
    let load = trial_load(&model, InferenceFramework::Mlx);
    assert_eq!((load.model_id.as_str(), load.validate_availability), ("l", true));
    assert_eq!(load.category, Some(ModelCategory::Language));
    assert_eq!(load.framework, Some(InferenceFramework::Mlx));
    assert_eq!(trial_load(&model, InferenceFramework::Unspecified).framework, None);
    let scenario = &scenarios_for(Modality::Llm)[0];
    match measured_request(Modality::Llm, scenario, "") {
        TrialRequest::Generate { max_output_tokens, temperature, .. } => {
            assert_eq!((max_output_tokens, f32::from_bits(temperature)), (scenario.max_tokens, 0.0));
        }
        other => panic!("{other:?}"),
    }
    match measured_request(Modality::Vlm, &scenarios_for(Modality::Vlm)[0], "/i.png") {
        TrialRequest::Describe { image, prompt, .. } => {
            assert_eq!((image.as_str(), prompt.as_str()), ("/i.png", "Describe this image in detail."));
        }
        other => panic!("{other:?}"),
    }
    assert!(matches!(warmup_request(Modality::Tts, ""), TrialRequest::Synthesize { sample_rate: 22050, .. }));
    assert!(matches!(
        warmup_request(Modality::Stt, ""),
        TrialRequest::Transcribe { sample_rate: 16000, channels: 1, .. }
    ));
    assert_eq!(
        preload_unloads(Modality::Stt, ModelCategory::SpeechRecognition),
        vec![ModelCategory::SpeechRecognition]
    );
    assert_eq!(
        preload_unloads(Modality::Vlm, ModelCategory::Vision),
        vec![ModelCategory::Vision, ModelCategory::Language]
    );
    assert_eq!(judged(None).unwrap_err(), "no output tokens");
}

#[test]
fn a_benchmark_does_all_its_jobs() {
    let mut stage = BenchStage::Start;
    let mut done = Vec::new();
    while !matches!(stage, BenchStage::Finished(_)) {
        if let BenchStage::Job(i) = stage {
            done.push(i);
        }
        stage = run_bench(stage, true, 3, 1);
    }
    assert_eq!(done, vec![0, 1, 2]);
    assert_eq!(stage, BenchStage::Finished(1));
    assert_eq!(run_bench(BenchStage::Hint, false, 3, 0), BenchStage::Finished(2));
    assert_eq!(run_bench(BenchStage::List, false, 3, 0), BenchStage::Finished(1));
    let kit = Kit { neurt: false, qhexrt: false };
    assert_eq!(bench_plan("steam", kit).unwrap_err().1, 2);
    assert_eq!(bench_plan("mlx", kit).unwrap().framework, InferenceFramework::Mlx);
    assert!(downloaded_models(0, Ok(vec![])).unwrap().is_empty());
    assert!(downloaded_models(1, Ok(vec![])).is_err());
    assert!(bench_header().lines[1].text.starts_with("MODEL "));
}

#[test]
fn a_trial_unloads_what_it_loaded() {
    let m = Modality::Llm;
    assert_eq!(trial_next(m, TrialStage::Load, false), (TrialStage::Ended, TrialAction::Fail { unload: false }));
    assert_eq!(trial_next(m, TrialStage::Warmup, false), (TrialStage::Ended, TrialAction::Fail { unload: true }));
    assert_eq!(trial_next(Modality::Stt, TrialStage::Warmup, false), (TrialStage::Measure, TrialAction::RunMeasured));
    assert_eq!(trial_next(m, TrialStage::Measure, true), (TrialStage::Ended, TrialAction::Finish { unload: true }));
}

#[test]
fn metrics_are_taken_and_never_made_up() {
    let run = LlmRun {
        output_tokens: 0,
        decode_tokens_per_second: 5.0f64.to_bits(),
        prefill_ms: 3,
        generation_time_ms: 0,
        decode_time_ms: 4,
        prompt_eval_time_ms: 0,
    };
    assert!(fill_llm(run, 100).is_none());
    let filled = fill_llm(LlmRun { output_tokens: 8, ..run }, 123.0f64.to_bits()).unwrap();
    assert_eq!(filled.output_tokens, 8);
    assert_eq!(filled.prompt_eval_ms, Reading::Whole(3));
    assert_eq!(filled.end_to_end_ms, Reading::Double(123.0f64.to_bits()));
    assert_eq!(measured_prefill_ms(9, 3), 9);
    assert_eq!(measured_prefill_ms(0, -1), 0);
    let vision = VlmRun { output_tokens: 2, decode_tokens_per_second: 0, prefill_ms: 0, total_time_ms: 50 };
    assert_eq!(fill_vlm(vision, 1).unwrap().end_to_end_ms, Reading::Whole(50));
}

fn model(id: &str, category: ModelCategory, downloaded: bool) -> ModelInfo {
    ModelInfo {
        id: id.to_string(),
        category: Some(category),
        registry_status: Some(if downloaded {
            ModelRegistryStatus::Downloaded
        } else {
            ModelRegistryStatus::Registered
        }),
        ..ModelInfo::default()
    }
}

#[test]
fn only_models_with_a_modality_are_benchmarked() {
    let models = vec![
        model("a", ModelCategory::Language, true),
        model("b", ModelCategory::Unspecified, true),
        model("c", ModelCategory::Embedding, true),
        model("d", ModelCategory::Vision, true),
    ];
    let ids = |v: Vec<BenchModel>| v.into_iter().map(|m| m.id).collect::<Vec<_>>();
    assert_eq!(ids(collect_models(&models, "")), vec!["a".to_string(), "d".to_string()]);
    assert_eq!(ids(collect_models(&models, "d")), vec!["d".to_string()]);
    assert_eq!(modality_of(ModelCategory::Vision), Some(Modality::Vlm));
    assert_eq!(modality_of(ModelCategory::Embedding), None);
    assert_eq!(modality_label(Modality::Stt), "stt");
    assert!(nothing_to_bench("", "").contains("no downloaded models to benchmark"));
}

#[test]
fn vision_jobs_are_skipped_without_an_image() {
    let models = vec![
        BenchModel { id: "v".to_string(), category: ModelCategory::Vision, modality: Modality::Vlm },
        BenchModel { id: "l".to_string(), category: ModelCategory::Language, modality: Modality::Llm },
    ];
    let jobs = bench_jobs(&models, false);
    assert_eq!(jobs.len(), scenarios_for(Modality::Vlm).len() + scenarios_for(Modality::Llm).len());
    assert!(jobs.iter().all(|j| j.skip == (j.model == 0)));
    assert!(bench_jobs(&models, true).iter().all(|j| !j.skip));
    assert_eq!(job_row(&models, &jobs[0], 3, "/no/such.png").unwrap().error, vlm_image_missing_error("/no/such.png"));
    assert!(job_row(&models, &jobs[jobs.len() - 1], 3, "").is_none());
    let skipped = skipped_row(&models[0], &jobs[0].scenario, 3, "/no/such.png");
    assert!(!skipped.success);
    assert_eq!(skipped.error, vlm_image_missing_error("/no/such.png"));
    assert!(job_line(&models[0], &jobs[0].scenario, true, 3, "").starts_with("skipping "));
    assert!(job_line(&models[1], &jobs[0].scenario, false, 3, "").ends_with("(3 trials)"));
    let failed = failed_row(&models[1], &jobs[0].scenario, 2, "no output tokens".to_string());
    assert_eq!((failed.error.as_str(), failed.trials), ("no output tokens", 2));
    assert!(measured_row(&models[1], &jobs[0].scenario, 2, Metrics::default()).success);
}

#[test]
fn engine_answers_to_a_benchmark() {
    assert_eq!(call_proto(0, "d".to_string(), Ok(3)), Ok(3));
    assert_eq!(load_result(0, Ok(None)), Ok(()));
    assert_eq!(load_result(1, Ok(None)), Err("load failed".to_string()));
    assert_eq!(load_result(0, Err(String::new())), Err("load failed".to_string()));
    let error = SdkError { message: "out of memory".to_string(), c_abi_code: None };
    assert_eq!(load_result(0, Ok(Some(error))), Err("out of memory".to_string()));
}

#[test]
fn rows_are_laid_out_by_bytes() {
    let mut r = row(true);
    r.model_id = "café".to_string();
    let line = bench_row_line(&r, "9.0 tok/s", "     5ms  -");
    assert_eq!(&line[..5], "café".as_bytes());
    assert_eq!(line[30], b' ');
    r.success = false;
    r.error = "boom".to_string();
    let text = String::from_utf8(bench_row_line(&r, "", "")).unwrap();
    assert!(text.ends_with(" FAILED: boom"));
    let json = bench_json(&vec![r]);
    assert!(json.ops.iter().any(|op| op.write == JsonWrite::Text && op.key == "error" && op.text == "boom"));
}

#[test]
fn free_memory_is_read_from_meminfo() {
    let text = "MemTotal:       16384 kB\nMemFree: 1 kB\nMemAvailable:    2048 kB\n";
    assert_eq!(available_ram_bytes(text), 2048 * 1024);
    assert_eq!(available_ram_bytes("nothing of the sort"), 0);
}
