//! `wally bench [model]`: measures the downloaded models, one scenario after
//! another.
//!
//! The engine loads and runs; clocks and medians are the program's. What is
//! decided here: which models and scenarios are measured, the course of a
//! trial, what a failure is called, and the report.

use crate::cli;
use crate::cli::{Action, App, Command, CommandView, Opt, Validator, ValidatorView, ValueType};
use crate::commands::bench_metrics::LlmVlmMetrics;
use crate::commands::engine_options;
use crate::commands::engine_options::{EngineHintResolution, Kit};
use crate::commands::requests;
use crate::commands::requests::ModelLoadRequest;
use crate::engine;
use crate::engine::{InferenceFramework, ModelCategory, ModelInfo, SdkError};
use crate::median;
use crate::median::Median;
use crate::output;
use crate::output::{JsonWriter, Printed};
use crate::text;
use vstd::prelude::*;

verus! {

/// What a benchmark exercises.
#[derive(Clone, Copy, Debug, PartialEq, Eq, Structural)]
pub enum Modality {
    Llm,
    Stt,
    Tts,
    Vlm,
}

pub open spec fn label_of(m: Modality) -> Seq<char> {
    match m {
        Modality::Llm => "llm"@,
        Modality::Stt => "stt"@,
        Modality::Tts => "tts"@,
        Modality::Vlm => "vlm"@,
    }
}

pub fn modality_label(m: Modality) -> (r: &'static str)
    ensures
        r@ == label_of(m),
{
    match m {
        Modality::Llm => "llm",
        Modality::Stt => "stt",
        Modality::Tts => "tts",
        Modality::Vlm => "vlm",
    }
}

/// The modality of a category; the others are not measured.
pub open spec fn measured_as(category: ModelCategory) -> Option<Modality> {
    match category {
        ModelCategory::Language => Some(Modality::Llm),
        ModelCategory::SpeechRecognition => Some(Modality::Stt),
        ModelCategory::SpeechSynthesis => Some(Modality::Tts),
        ModelCategory::Multimodal => Some(Modality::Vlm),
        ModelCategory::Vision => Some(Modality::Vlm),
        _ => None,
    }
}

/// See [`measured_as`].
pub fn modality_of(category: ModelCategory) -> (r: Option<Modality>)
    ensures
        r == measured_as(category),
{
    match category {
        ModelCategory::Language => Some(Modality::Llm),
        ModelCategory::SpeechRecognition => Some(Modality::Stt),
        ModelCategory::SpeechSynthesis => Some(Modality::Tts),
        ModelCategory::Multimodal => Some(Modality::Vlm),
        ModelCategory::Vision => Some(Modality::Vlm),
        _ => None,
    }
}

/// One scenario: a token budget for text, samples of audio (at 16 kHz, silent
/// or a tone) for speech, or a text to speak.
#[derive(Clone, Copy, Debug)]
pub struct Scenario {
    pub label: &'static str,
    pub max_tokens: i32,
    pub samples: u32,
    pub sine: bool,
    pub text: Option<&'static str>,
}

/// A scenario as a value: label, token budget, samples, tone, text.
pub type ScenarioView = (Seq<char>, int, int, bool, Option<Seq<char>>);

impl View for Scenario {
    type V = ScenarioView;

    open spec fn view(&self) -> ScenarioView {
        (
            self.label@,
            self.max_tokens as int,
            self.samples as int,
            self.sine,
            match self.text {
                Some(t) => Some(t@),
                None => None,
            },
        )
    }
}

pub open spec fn scenario_table(m: Modality) -> Seq<ScenarioView> {
    match m {
        Modality::Llm => seq![
            ("Short (50)"@, 50, 0, false, None),
            ("Medium (256)"@, 256, 0, false, None),
            ("Long (512)"@, 512, 0, false, None),
        ],
        Modality::Stt => seq![
            ("Silent 2s"@, 0, 32_000, false, None),
            ("Sine Tone 3s"@, 0, 48_000, true, None),
        ],
        Modality::Tts => seq![
            ("Short Text"@, 0, 0, false, Some("Hello, this is a test."@)),
            (
                "Medium Text"@,
                0,
                0,
                false,
                Some(
                    "The quick brown fox jumps over the lazy dog. Machine learning models can generate speech from text with remarkable quality and natural intonation."@,
                ),
            ),
        ],
        Modality::Vlm => seq![("Image Description"@, 128, 0, false, None)],
    }
}

pub open spec fn scenarios_view(s: Seq<Scenario>) -> Seq<ScenarioView> {
    Seq::new(s.len(), |i: int| s[i]@)
}

fn budget(label: &'static str, max_tokens: i32) -> (r: Scenario)
    ensures
        r@ == (label@, max_tokens as int, 0int, false, None::<Seq<char>>),
{
    Scenario { label, max_tokens, samples: 0, sine: false, text: None }
}

fn audio(label: &'static str, samples: u32, sine: bool) -> (r: Scenario)
    ensures
        r@ == (label@, 0int, samples as int, sine, None::<Seq<char>>),
{
    Scenario { label, max_tokens: 0, samples, sine, text: None }
}

fn spoken(label: &'static str, text: &'static str) -> (r: Scenario)
    ensures
        r@ == (label@, 0int, 0int, false, Some(text@)),
{
    Scenario { label, max_tokens: 0, samples: 0, sine: false, text: Some(text) }
}

/// The scenarios of a modality, in the order they run.
pub fn scenarios_for(m: Modality) -> (r: Vec<Scenario>)
    ensures
        scenarios_view(r@) == scenario_table(m),
{
    let r = match m {
        Modality::Llm => vec![budget("Short (50)", 50), budget("Medium (256)", 256), budget("Long (512)", 512)],
        Modality::Stt => vec![audio("Silent 2s", 32_000, false), audio("Sine Tone 3s", 48_000, true)],
        Modality::Tts => vec![
            spoken("Short Text", "Hello, this is a test."),
            spoken(
                "Medium Text",
                "The quick brown fox jumps over the lazy dog. Machine learning models can generate speech from text with remarkable quality and natural intonation.",
            ),
        ],
        Modality::Vlm => vec![budget("Image Description", 128)],
    };
    assert(scenarios_view(r@) =~= scenario_table(m));
    r
}

/// The categories to clear before loading a vision trial's model: its own and
/// the language slot, which a multimodal model may also occupy.
pub fn vlm_preload_unload_targets(category: ModelCategory) -> (r: [ModelCategory; 2])
    ensures
        r@ == seq![category, ModelCategory::Language],
{
    [category, ModelCategory::Language]
}

/// A result document, or why there is none: the engine's words for a failing
/// code, the reader's for a document that could not be read.
pub fn call_proto<T>(rc: i32, described: String, parsed: Result<T, String>) -> (r: Result<T, String>)
    ensures
        match parsed {
            Ok(_) => if rc == engine::SUCCESS {
                r == parsed
            } else {
                r == Err::<T, String>(described)
            },
            Err(_) => r == parsed,
        },
{
    match parsed {
        Ok(value) => if rc == engine::SUCCESS {
            Ok(value)
        } else {
            Err(described)
        },
        Err(message) => Err(message),
    }
}

/// A message, or "load failed" where there is none.
pub open spec fn or_load_failed(message: Seq<char>) -> Seq<char> {
    if message.len() == 0 {
        "load failed"@
    } else {
        message
    }
}

fn or_load_failed_exec(message: &str) -> (r: String)
    ensures
        r@ == or_load_failed(message@),
{
    if message.is_empty() {
        text::owned("load failed")
    } else {
        text::owned(message)
    }
}

/// What a timed load amounts to: `parsed` holds the error report of a readable
/// answer.
pub fn load_result(rc: i32, parsed: Result<Option<SdkError>, String>) -> (r: Result<(), String>)
    ensures
        match parsed {
            Err(message) => r is Err && r->Err_0@ == or_load_failed(message@),
            Ok(report) => if rc != engine::SUCCESS {
                r is Err && r->Err_0@ == "load failed"@
            } else {
                match report {
                    None => r is Ok,
                    Some(e) => r is Err && r->Err_0@ == or_load_failed(e.message@),
                }
            },
        },
{
    match parsed {
        Err(message) => Err(or_load_failed_exec(message.as_str())),
        Ok(report) => {
            if rc != engine::SUCCESS {
                return Err(text::owned("load failed"));
            }
            match report {
                None => Ok(()),
                Some(e) => Err(or_load_failed_exec(e.message.as_str())),
            }
        },
    }
}

/// What the engine is asked to load for a trial.
pub fn trial_load(model: &BenchModel, framework: InferenceFramework) -> (r: ModelLoadRequest)
    ensures
        r.model_id@ == model.id@,
        r.category == Some(model.category),
        r.framework == if framework == InferenceFramework::Unspecified {
            None
        } else {
            Some(framework)
        },
        r.validate_availability,
{
    requests::load_request(model.id.as_str(), Some(model.category), framework, true)
}

/// What a language model is asked in a trial, by the user.
pub open spec fn llm_prompt() -> Seq<char> {
    "Write a very long and detailed explanation of how neural networks work, covering perceptrons, activation functions, backpropagation, gradient descent, loss functions, convolutional layers, recurrent layers, transformers, attention mechanisms, and training procedures. Be as thorough as possible."@
}

/// What a language model is told to be like in a measured pass.
pub open spec fn llm_system_prompt() -> Seq<char> {
    "You are a helpful assistant. Always give extremely detailed, thorough responses. Never stop early. Use the full response length available to you. Elaborate on every point with examples and explanations."@
}

/// A piece of work that a trial asks of the engine. A temperature is a
/// single-precision number, carried by its bits.
#[derive(Clone, Debug)]
pub enum TrialRequest {
    Generate { prompt: String, max_output_tokens: i32, temperature: u32, system_prompt: Option<String> },
    /// So many samples of two bytes, of a tone or of silence.
    Transcribe { samples: u32, sine: bool, sample_rate: i32, channels: i32, language: String },
    Synthesize { text: String, sample_rate: i32 },
    Describe { image: String, prompt: String, max_output_tokens: i32, temperature: u32 },
}

/// A request as a value.
pub enum TrialRequestView {
    Generate(Seq<char>, int, u32, Option<Seq<char>>),
    Transcribe(int, bool, int, int, Seq<char>),
    Synthesize(Seq<char>, int),
    Describe(Seq<char>, Seq<char>, int, u32),
}

impl View for TrialRequest {
    type V = TrialRequestView;

    open spec fn view(&self) -> TrialRequestView {
        match *self {
            TrialRequest::Generate { prompt, max_output_tokens, temperature, system_prompt } => TrialRequestView::Generate(
                prompt@,
                max_output_tokens as int,
                temperature,
                match system_prompt {
                    Some(s) => Some(s@),
                    None => None,
                },
            ),
            TrialRequest::Transcribe { samples, sine, sample_rate, channels, language } => TrialRequestView::Transcribe(
                samples as int,
                sine,
                sample_rate as int,
                channels as int,
                language@,
            ),
            TrialRequest::Synthesize { text, sample_rate } => TrialRequestView::Synthesize(text@, sample_rate as int),
            TrialRequest::Describe { image, prompt, max_output_tokens, temperature } => TrialRequestView::Describe(
                image@,
                prompt@,
                max_output_tokens as int,
                temperature,
            ),
        }
    }
}

/// The warmup of a trial, which is short: five tokens without a system prompt,
/// half a second of silence, two letters, one token. The temperature is always
/// zero.
pub open spec fn warmup_asked(m: Modality, image: Seq<char>) -> TrialRequestView {
    match m {
        Modality::Llm => TrialRequestView::Generate(llm_prompt(), 5, 0, None),
        Modality::Stt => TrialRequestView::Transcribe(8000, false, 16000, 1, "en"@),
        Modality::Tts => TrialRequestView::Synthesize("Hi."@, 22050),
        Modality::Vlm => TrialRequestView::Describe(image, "Describe this image in detail."@, 1, 0),
    }
}

/// The measured pass of a trial, as its scenario has it.
pub open spec fn pass_asked(m: Modality, scenario: ScenarioView, image: Seq<char>) -> TrialRequestView {
    match m {
        Modality::Llm => TrialRequestView::Generate(llm_prompt(), scenario.1, 0, Some(llm_system_prompt())),
        Modality::Stt => TrialRequestView::Transcribe(scenario.2, scenario.3, 16000, 1, "en"@),
        Modality::Tts => TrialRequestView::Synthesize(
            match scenario.4 {
                Some(t) => t,
                None => Seq::empty(),
            },
            22050,
        ),
        Modality::Vlm => TrialRequestView::Describe(image, "Describe this image in detail."@, scenario.1, 0),
    }
}

fn llm_request(max_output_tokens: i32, with_system_prompt: bool) -> (r: TrialRequest)
    ensures
        r@ == TrialRequestView::Generate(
            llm_prompt(),
            max_output_tokens as int,
            0,
            if with_system_prompt {
                Some(llm_system_prompt())
            } else {
                None
            },
        ),
{
    TrialRequest::Generate {
        prompt: text::owned(
            "Write a very long and detailed explanation of how neural networks work, covering perceptrons, activation functions, backpropagation, gradient descent, loss functions, convolutional layers, recurrent layers, transformers, attention mechanisms, and training procedures. Be as thorough as possible.",
        ),
        max_output_tokens,
        temperature: 0,
        system_prompt: if with_system_prompt {
            Some(
                text::owned(
                    "You are a helpful assistant. Always give extremely detailed, thorough responses. Never stop early. Use the full response length available to you. Elaborate on every point with examples and explanations.",
                ),
            )
        } else {
            None
        },
    }
}

fn vlm_request(image: &str, max_output_tokens: i32) -> (r: TrialRequest)
    ensures
        r@ == TrialRequestView::Describe(image@, "Describe this image in detail."@, max_output_tokens as int, 0),
{
    TrialRequest::Describe {
        image: text::owned(image),
        prompt: text::owned("Describe this image in detail."),
        max_output_tokens,
        temperature: 0,
    }
}

fn stt_request(samples: u32, sine: bool) -> (r: TrialRequest)
    ensures
        r@ == TrialRequestView::Transcribe(samples as int, sine, 16000, 1, "en"@),
{
    TrialRequest::Transcribe { samples, sine, sample_rate: 16000, channels: 1, language: text::owned("en") }
}

fn tts_request(words: &str) -> (r: TrialRequest)
    ensures
        r@ == TrialRequestView::Synthesize(words@, 22050),
{
    TrialRequest::Synthesize { text: text::owned(words), sample_rate: 22050 }
}

/// See [`warmup_asked`].
pub fn warmup_request(m: Modality, image: &str) -> (r: TrialRequest)
    ensures
        r@ == warmup_asked(m, image@),
{
    match m {
        Modality::Llm => llm_request(5, false),
        Modality::Stt => stt_request(8000, false),
        Modality::Tts => tts_request("Hi."),
        Modality::Vlm => vlm_request(image, 1),
    }
}

/// See [`pass_asked`].
pub fn measured_request(m: Modality, scenario: &Scenario, image: &str) -> (r: TrialRequest)
    ensures
        r@ == pass_asked(m, scenario@, image@),
{
    match m {
        Modality::Llm => llm_request(scenario.max_tokens, true),
        Modality::Stt => stt_request(scenario.samples, scenario.sine),
        Modality::Tts => match scenario.text {
            Some(t) => tts_request(t),
            None => {
                proof {
                    reveal_strlit("");
                    assert(""@ =~= Seq::empty());
                }
                tts_request("")
            },
        },
        Modality::Vlm => vlm_request(image, scenario.max_tokens),
    }
}

/// What a measured pass of a language or vision model comes to: its metrics; one
/// without output tokens fails the trial.
pub fn judged(filled: Option<LlmVlmMetrics>) -> (r: Result<LlmVlmMetrics, String>)
    ensures
        match filled {
            Some(m) => r == Ok::<LlmVlmMetrics, String>(m),
            None => r is Err && r->Err_0@ == "no output tokens"@,
        },
{
    match filled {
        Some(m) => Ok(m),
        None => Err(text::owned("no output tokens")),
    }
}

/// What is freed before a trial loads its model.
pub fn preload_unloads(m: Modality, category: ModelCategory) -> (r: Vec<ModelCategory>)
    ensures
        r@ == if m == Modality::Vlm {
            seq![category, ModelCategory::Language]
        } else {
            seq![category]
        },
{
    let mut r: Vec<ModelCategory> = Vec::new();
    if m == Modality::Vlm {
        let targets = vlm_preload_unload_targets(category);
        r.push(targets[0]);
        r.push(targets[1]);
    } else {
        r.push(category);
    }
    assert(r@ =~= if m == Modality::Vlm {
        seq![category, ModelCategory::Language]
    } else {
        seq![category]
    });
    r
}

/// How far a trial is.
#[derive(Clone, Copy, Debug, PartialEq, Eq, Structural)]
pub enum TrialStage {
    Load,
    Warmup,
    Measure,
    Ended,
}

/// What a trial does next; `unload` frees the model's slot on the way out.
#[derive(Clone, Copy, Debug, PartialEq, Eq, Structural)]
pub enum TrialAction {
    RunWarmup,
    RunMeasured,
    Fail { unload: bool },
    Finish { unload: bool },
    Ignore,
}

/// One step of a trial: load, one warmup that is thrown away, one measured
/// pass. Only a language trial minds a failing warmup.
pub open spec fn trial_step(m: Modality, stage: TrialStage, ok: bool) -> (TrialStage, TrialAction) {
    match stage {
        TrialStage::Load => if ok {
            (TrialStage::Warmup, TrialAction::RunWarmup)
        } else {
            (TrialStage::Ended, TrialAction::Fail { unload: false })
        },
        TrialStage::Warmup => if ok || m != Modality::Llm {
            (TrialStage::Measure, TrialAction::RunMeasured)
        } else {
            (TrialStage::Ended, TrialAction::Fail { unload: true })
        },
        TrialStage::Measure => if ok {
            (TrialStage::Ended, TrialAction::Finish { unload: true })
        } else {
            (TrialStage::Ended, TrialAction::Fail { unload: true })
        },
        TrialStage::Ended => (TrialStage::Ended, TrialAction::Ignore),
    }
}

/// Advances a trial; see [`trial_step`].
pub fn trial_next(m: Modality, stage: TrialStage, ok: bool) -> (r: (TrialStage, TrialAction))
    ensures
        r == trial_step(m, stage, ok),
{
    match stage {
        TrialStage::Load => if ok {
            (TrialStage::Warmup, TrialAction::RunWarmup)
        } else {
            (TrialStage::Ended, TrialAction::Fail { unload: false })
        },
        TrialStage::Warmup => if ok || m != Modality::Llm {
            (TrialStage::Measure, TrialAction::RunMeasured)
        } else {
            (TrialStage::Ended, TrialAction::Fail { unload: true })
        },
        TrialStage::Measure => if ok {
            (TrialStage::Ended, TrialAction::Finish { unload: true })
        } else {
            (TrialStage::Ended, TrialAction::Fail { unload: true })
        },
        TrialStage::Ended => (TrialStage::Ended, TrialAction::Ignore),
    }
}

/// A trial leaves no model loaded: once its load worked, whichever way it ends
/// unloads it.
pub proof fn a_loaded_trial_always_unloads(m: Modality, stage: TrialStage, ok: bool)
    requires
        stage == TrialStage::Warmup || stage == TrialStage::Measure,
    ensures
        ({
            let (next, action) = trial_step(m, stage, ok);
            next == TrialStage::Ended ==> (action == (TrialAction::Fail { unload: true }) || action == (
            TrialAction::Finish { unload: true }))
        }),
{
}

/// The first `width` bytes of `s`, or all of them with blanks behind up to
/// `width`.
pub open spec fn left_justified(s: Seq<char>, width: int) -> Seq<u8> {
    let bytes = vstd::utf8::encode_utf8(s);
    Seq::new(
        width as nat,
        |i: int|
            if i < bytes.len() {
                bytes[i]
            } else {
                0x20
            },
    )
}

/// A column of exactly `width` bytes. Bytes are counted, not characters, so a
/// character at the edge may be cut in half.
pub fn ljust_bytes(s: &str, width: usize) -> (r: Vec<u8>)
    ensures
        r@ == left_justified(s@, width as int),
        r@.len() == width,
{
    let bytes = s.as_bytes();
    let mut r: Vec<u8> = Vec::new();
    let mut i: usize = 0;
    while i < width
        invariant
            i <= width,
            bytes@ == vstd::utf8::encode_utf8(s@),
            r@ == left_justified(s@, width as int).take(i as int),
        decreases width - i,
    {
        let b: u8 = if i < bytes.len() { bytes[i] } else { 0x20 };
        r.push(b);
        i = i + 1;
        assert(r@ =~= left_justified(s@, width as int).take(i as int));
    }
    assert(r@ =~= left_justified(s@, width as int));
    r
}

/// A model to measure.
#[derive(Clone, Debug)]
pub struct BenchModel {
    pub id: String,
    pub category: ModelCategory,
    pub modality: Modality,
}

/// A model to measure, as a value.
pub type BenchModelView = (Seq<char>, ModelCategory, Modality);

impl View for BenchModel {
    type V = BenchModelView;

    open spec fn view(&self) -> BenchModelView {
        (self.id@, self.category, self.modality)
    }
}

pub open spec fn bench_models_view(models: Seq<BenchModel>) -> Seq<BenchModelView> {
    Seq::new(models.len(), |i: int| models[i]@)
}

/// Whether a downloaded model is measured: the one named, if one was, not a
/// built-in, and of a category that has scenarios.
pub open spec fn is_measured(m: ModelInfo, only_model: Seq<char>) -> bool {
    &&& only_model.len() == 0 || m.id@ == only_model
    &&& engine::framework_of(m) != InferenceFramework::FoundationModels
    &&& engine::framework_of(m) != InferenceFramework::SystemTts
    &&& m.category is Some
    &&& measured_as(m.category->0) is Some
}

/// The models among the first `n` that are measured, in their order.
pub open spec fn measured_models(models: Seq<ModelInfo>, only_model: Seq<char>, n: int) -> Seq<BenchModelView>
    decreases n,
{
    if n <= 0 {
        Seq::empty()
    } else {
        let before = measured_models(models, only_model, n - 1);
        let m = models[n - 1];
        if is_measured(m, only_model) {
            before.push((m.id@, m.category->0, measured_as(m.category->0)->0))
        } else {
            before
        }
    }
}

/// The downloaded models to measure; see [`is_measured`].
pub fn collect_models(models: &Vec<ModelInfo>, only_model: &str) -> (r: Vec<BenchModel>)
    ensures
        bench_models_view(r@) == measured_models(models@, only_model@, models@.len() as int),
{
    let mut r: Vec<BenchModel> = Vec::new();
    let mut i: usize = 0;
    assert(bench_models_view(r@) =~= measured_models(models@, only_model@, 0));
    while i < models.len()
        invariant
            i <= models@.len(),
            bench_models_view(r@) == measured_models(models@, only_model@, i as int),
        decreases models@.len() - i,
    {
        let m = &models[i];
        let ghost before = r@;
        let named = only_model.is_empty() || text::str_eq(m.id.as_str(), only_model);
        let framework = engine::framework_or_unspecified(m);
        if named && framework != InferenceFramework::FoundationModels && framework != InferenceFramework::SystemTts {
            if let Some(category) = m.category {
                if let Some(modality) = modality_of(category) {
                    let entry = BenchModel { id: text::owned(m.id.as_str()), category, modality };
                    r.push(entry);
                    assert(bench_models_view(r@) =~= bench_models_view(before).push(entry@));
                }
            }
        }
        i = i + 1;
    }
    r
}

/// What is said of a model that is not downloaded: the fix is named with the
/// reference the caller typed.
pub fn model_not_downloaded_error(only_model: &str, model_ref_arg: &str) -> (r: String)
    ensures
        r@ == "model '"@ + only_model@ + "' is not downloaded; pull it first with `wally models pull "@ + model_ref_arg@
            + "`"@,
{
    text::cat5(
        "model '",
        only_model,
        "' is not downloaded; pull it first with `wally models pull ",
        model_ref_arg,
        "`",
    )
}

/// What is said when there is nothing to measure.
pub fn nothing_to_bench(only_model: &str, model_ref_arg: &str) -> (r: String)
    ensures
        r@ == if only_model@.len() == 0 {
            "no downloaded models to benchmark (pull one with `wally models pull`)"@
        } else {
            "model '"@ + only_model@ + "' is not downloaded; pull it first with `wally models pull "@ + model_ref_arg@
                + "`"@
        },
{
    if only_model.is_empty() {
        text::owned("no downloaded models to benchmark (pull one with `wally models pull`)")
    } else {
        model_not_downloaded_error(only_model, model_ref_arg)
    }
}

pub open spec fn missing_image(path: Seq<char>) -> Seq<char> {
    if path.len() == 0 {
        "wally ships no built-in VLM sample image; pass --vlm-image <path>"@
    } else {
        "VLM sample image not found: '"@ + path + "' (pass --vlm-image <path> pointing at a real file)"@
    }
}

/// What is said of a vision scenario without a usable image.
pub fn vlm_image_missing_error(path: &str) -> (r: String)
    ensures
        r@ == missing_image(path@),
{
    if path.is_empty() {
        text::owned("wally ships no built-in VLM sample image; pass --vlm-image <path>")
    } else {
        text::cat3("VLM sample image not found: '", path, "' (pass --vlm-image <path> pointing at a real file)")
    }
}

/// How the models of a benchmark are resolved and loaded; or what is wrong with
/// the engine that was named, with the exit code.
pub fn bench_plan(engine: &str, kit: Kit) -> (r: Result<EngineHintResolution, (String, i32)>)
    ensures
        match engine_options::engine_hint(engine@, kit) {
            Err(message) => r is Err && (r->Err_0).0@ == message && (r->Err_0).1 == 2,
            Ok(f) => r == Ok::<EngineHintResolution, (String, i32)>(engine_options::resolution(f)),
        },
{
    match engine_options::resolve_engine_hint(engine, kit) {
        Ok(hint) => Ok(hint),
        Err(message) => Err((message, 2)),
    }
}

/// The downloaded models, or why they cannot be listed: a bad code has one
/// message, a list that cannot be read the reader's.
pub fn downloaded_models(rc: i32, parsed: Result<Vec<ModelInfo>, String>) -> (r: Result<Vec<ModelInfo>, String>)
    ensures
        rc != engine::SUCCESS ==> r is Err && r->Err_0@ == "failed to list downloaded models"@,
        rc == engine::SUCCESS ==> r == parsed,
{
    if rc != engine::SUCCESS {
        Err(text::owned("failed to list downloaded models"))
    } else {
        parsed
    }
}

/// What a benchmark does next.
#[derive(Clone, Copy, Debug, PartialEq, Eq, Structural)]
pub enum BenchStage {
    /// Start the engine.
    Start,
    /// Read the engine that was named.
    Hint,
    /// Resolve the model reference, where there is one.
    Resolve,
    /// List the downloaded models.
    List,
    /// See that there is one to measure.
    Select,
    /// Do the job of that place.
    Job(usize),
    /// Show the rows.
    Report,
    /// It is over, with this exit code.
    Finished(i32),
}

/// The stage at which the job of a place is up, of so many.
pub open spec fn job_at(i: int, jobs: int) -> BenchStage {
    if i < jobs {
        BenchStage::Job(i as usize)
    } else {
        BenchStage::Report
    }
}

/// The stage after one that worked or not; `code` is the exit code of the rows.
/// An engine that is not known exits with 2, everything else that fails before
/// the jobs with 1. A job that fails does not stop the others.
pub open spec fn bench_after(stage: BenchStage, ok: bool, jobs: usize, code: i32) -> BenchStage {
    match stage {
        BenchStage::Start => if ok {
            BenchStage::Hint
        } else {
            BenchStage::Finished(1)
        },
        BenchStage::Hint => if ok {
            BenchStage::Resolve
        } else {
            BenchStage::Finished(2)
        },
        BenchStage::Resolve => if ok {
            BenchStage::List
        } else {
            BenchStage::Finished(1)
        },
        BenchStage::List => if ok {
            BenchStage::Select
        } else {
            BenchStage::Finished(1)
        },
        BenchStage::Select => if ok {
            job_at(0, jobs as int)
        } else {
            BenchStage::Finished(1)
        },
        BenchStage::Job(i) => job_at(i + 1, jobs as int),
        BenchStage::Report => BenchStage::Finished(code),
        BenchStage::Finished(c) => BenchStage::Finished(c),
    }
}

/// See [`bench_after`].
pub fn run_bench(stage: BenchStage, ok: bool, jobs: usize, code: i32) -> (r: BenchStage)
    ensures
        r == bench_after(stage, ok, jobs, code),
{
    match stage {
        BenchStage::Start => if ok {
            BenchStage::Hint
        } else {
            BenchStage::Finished(1)
        },
        BenchStage::Hint => if ok {
            BenchStage::Resolve
        } else {
            BenchStage::Finished(2)
        },
        BenchStage::Resolve => if ok {
            BenchStage::List
        } else {
            BenchStage::Finished(1)
        },
        BenchStage::List => if ok {
            BenchStage::Select
        } else {
            BenchStage::Finished(1)
        },
        BenchStage::Select => if !ok {
            BenchStage::Finished(1)
        } else if 0 < jobs {
            BenchStage::Job(0)
        } else {
            BenchStage::Report
        },
        BenchStage::Job(i) => if i < jobs && i + 1 < jobs {
            BenchStage::Job(i + 1)
        } else {
            BenchStage::Report
        },
        BenchStage::Report => BenchStage::Finished(code),
        BenchStage::Finished(c) => BenchStage::Finished(c),
    }
}

/// How much of a benchmark is left.
pub open spec fn bench_left(stage: BenchStage, jobs: usize) -> int {
    match stage {
        BenchStage::Start => jobs + 6,
        BenchStage::Hint => jobs + 5,
        BenchStage::Resolve => jobs + 4,
        BenchStage::List => jobs + 3,
        BenchStage::Select => jobs + 2,
        BenchStage::Job(i) => if i < jobs {
            jobs - i + 1
        } else {
            2
        },
        BenchStage::Report => 1,
        BenchStage::Finished(_) => 0,
    }
}

/// A benchmark ends, does each of its jobs once and in order, whether or not one
/// failed, and once it has begun them its exit code is that of its rows.
pub proof fn a_benchmark_does_every_job(stage: BenchStage, ok: bool, jobs: usize, code: i32)
    ensures
        !(stage is Finished) ==> 0 <= bench_left(bench_after(stage, ok, jobs, code), jobs) < bench_left(stage, jobs),
        stage matches BenchStage::Job(i) ==> (i + 1 < jobs ==> bench_after(stage, ok, jobs, code) == BenchStage::Job(
            (i + 1) as usize,
        )),
        stage is Job ==> bench_after(stage, ok, jobs, code) is Job || bench_after(stage, ok, jobs, code) is Report,
        stage is Report ==> bench_after(stage, ok, jobs, code) == BenchStage::Finished(code),
        bench_after(stage, ok, jobs, code) == BenchStage::Finished(2) ==> stage is Hint && !ok || stage is Report
            && code == 2 || stage == BenchStage::Finished(2),
{
}

/// One job of a benchmark: a model and a scenario, to run or to skip.
#[derive(Clone, Debug)]
pub struct BenchJob {
    pub model: usize,
    pub scenario: Scenario,
    pub skip: bool,
}

/// A job as a value.
pub type BenchJobView = (int, ScenarioView, bool);

impl View for BenchJob {
    type V = BenchJobView;

    open spec fn view(&self) -> BenchJobView {
        (self.model as int, self.scenario@, self.skip)
    }
}

pub open spec fn jobs_view(jobs: Seq<BenchJob>) -> Seq<BenchJobView> {
    Seq::new(jobs.len(), |i: int| jobs[i]@)
}

/// The jobs of the model at `at`: every scenario of its modality; a vision job
/// without an image is skipped.
pub open spec fn model_jobs(m: BenchModelView, at: int, image: bool) -> Seq<BenchJobView> {
    let table = scenario_table(m.2);
    Seq::new(table.len(), |i: int| (at, table[i], m.2 == Modality::Vlm && !image))
}

/// The jobs of the first `n` models.
pub open spec fn all_jobs(models: Seq<BenchModelView>, image: bool, n: int) -> Seq<BenchJobView>
    decreases n,
{
    if n <= 0 {
        Seq::empty()
    } else {
        all_jobs(models, image, n - 1) + model_jobs(models[n - 1], n - 1, image)
    }
}

/// The jobs of a benchmark: every scenario of every model, in order.
pub fn bench_jobs(models: &Vec<BenchModel>, vlm_image_exists: bool) -> (r: Vec<BenchJob>)
    ensures
        jobs_view(r@) == all_jobs(bench_models_view(models@), vlm_image_exists, models@.len() as int),
{
    let mut r: Vec<BenchJob> = Vec::new();
    let ghost all = bench_models_view(models@);
    let mut i: usize = 0;
    assert(jobs_view(r@) =~= all_jobs(all, vlm_image_exists, 0));
    while i < models.len()
        invariant
            i <= models@.len(),
            all == bench_models_view(models@),
            jobs_view(r@) == all_jobs(all, vlm_image_exists, i as int),
        decreases models@.len() - i,
    {
        let modality = models[i].modality;
        let skip = modality == Modality::Vlm && !vlm_image_exists;
        let scenarios = scenarios_for(modality);
        let ghost start = jobs_view(r@);
        let ghost wanted = model_jobs(all[i as int], i as int, vlm_image_exists);
        let mut k: usize = 0;
        assert(start + wanted.take(0) =~= start);
        while k < scenarios.len()
            invariant
                k <= scenarios@.len(),
                i < models@.len(),
                all == bench_models_view(models@),
                modality == all[i as int].2,
                skip == (modality == Modality::Vlm && !vlm_image_exists),
                scenarios_view(scenarios@) == scenario_table(modality),
                wanted == model_jobs(all[i as int], i as int, vlm_image_exists),
                jobs_view(r@) == start + wanted.take(k as int),
            decreases scenarios@.len() - k,
        {
            let ghost before = r@;
            let job = BenchJob { model: i, scenario: scenarios[k], skip };
            assert(scenarios_view(scenarios@)[k as int] == scenarios@[k as int]@);
            r.push(job);
            assert(jobs_view(r@) =~= jobs_view(before).push(job@));
            k = k + 1;
            assert(jobs_view(r@) =~= start + wanted.take(k as int));
        }
        assert(wanted.take(scenarios@.len() as int) =~= wanted);
        i = i + 1;
    }
    r
}

/// Medians of a row; rates and times are the bits of doubles.
#[derive(Clone, Copy, Debug, Default)]
pub struct Metrics {
    pub load_ms: i64,
    pub warmup_ms: i64,
    pub end_to_end_ms: i64,
    pub tokens_per_second: i64,
    pub prompt_eval_ms: i64,
    pub decode_ms: i64,
    pub output_tokens: i32,
    pub real_time_factor: i64,
    pub chars_per_second: i64,
    pub audio_duration_ms: i64,
    pub memory_delta_bytes: i64,
}

/// One row of the report.
#[derive(Clone, Debug)]
pub struct BenchRow {
    pub model_id: String,
    pub modality: Modality,
    pub scenario: String,
    pub success: bool,
    pub error: String,
    pub trials: i32,
    pub med: Metrics,
}

/// Metrics of nothing.
pub open spec fn no_metrics() -> Metrics {
    Metrics {
        load_ms: 0,
        warmup_ms: 0,
        end_to_end_ms: 0,
        tokens_per_second: 0,
        prompt_eval_ms: 0,
        decode_ms: 0,
        output_tokens: 0,
        real_time_factor: 0,
        chars_per_second: 0,
        audio_duration_ms: 0,
        memory_delta_bytes: 0,
    }
}

/// Whether a row is that of a job, but for what was measured.
pub open spec fn is_row_of(r: BenchRow, model: BenchModel, scenario: Scenario, trials: i32) -> bool {
    r.model_id@ == model.id@ && r.modality == model.modality && r.scenario@ == scenario.label@ && r.trials == trials
}

/// Whether a row is that of a job that failed for that reason: it has no metrics.
pub open spec fn is_failed_row(r: BenchRow, model: BenchModel, scenario: Scenario, trials: i32, error: Seq<char>) -> bool {
    is_row_of(r, model, scenario, trials) && !r.success && r.error@ == error && r.med == no_metrics()
}

/// The row of a job that is skipped; a job that is run has none yet.
pub fn job_row(models: &Vec<BenchModel>, job: &BenchJob, trials: i32, vlm_image: &str) -> (r: Option<BenchRow>)
    requires
        job.model < models@.len(),
    ensures
        r is Some <==> job.skip,
        r is Some ==> is_failed_row(
            r->0,
            models@[job.model as int],
            job.scenario,
            trials,
            missing_image(vlm_image@),
        ),
{
    if job.skip {
        Some(skipped_row(&models[job.model], &job.scenario, trials, vlm_image))
    } else {
        None
    }
}

/// The row of a job that failed.
pub fn failed_row(model: &BenchModel, scenario: &Scenario, trials: i32, error: String) -> (r: BenchRow)
    ensures
        is_failed_row(r, *model, *scenario, trials, error@),
{
    BenchRow {
        model_id: text::owned(model.id.as_str()),
        modality: model.modality,
        scenario: text::owned(scenario.label),
        success: false,
        error,
        trials,
        med: Metrics {
            load_ms: 0,
            warmup_ms: 0,
            end_to_end_ms: 0,
            tokens_per_second: 0,
            prompt_eval_ms: 0,
            decode_ms: 0,
            output_tokens: 0,
            real_time_factor: 0,
            chars_per_second: 0,
            audio_duration_ms: 0,
            memory_delta_bytes: 0,
        },
    }
}

/// The row of a skipped vision job.
pub fn skipped_row(model: &BenchModel, scenario: &Scenario, trials: i32, vlm_image: &str) -> (r: BenchRow)
    ensures
        is_failed_row(r, *model, *scenario, trials, missing_image(vlm_image@)),
{
    failed_row(model, scenario, trials, vlm_image_missing_error(vlm_image))
}

/// The row of a job whose trials all ran.
pub fn measured_row(model: &BenchModel, scenario: &Scenario, trials: i32, med: Metrics) -> (r: BenchRow)
    ensures
        is_row_of(r, *model, *scenario, trials),
        r.success,
        r.error@.len() == 0,
        r.med == med,
{
    BenchRow {
        model_id: text::owned(model.id.as_str()),
        modality: model.modality,
        scenario: text::owned(scenario.label),
        success: true,
        error: String::new(),
        trials,
        med,
    }
}

/// What is said of a trial that worked; `done` counts the trials before it.
pub open spec fn trial_said(done: int, trials: i32) -> Seq<char> {
    "  trial "@ + text::dec(done + 1) + "/"@ + text::dec(trials as int) + " ok"@
}

/// The status line after a trial in a verbose run; see [`trial_said`].
pub fn trial_line(done: i32, trials: i32) -> (r: String)
    requires
        0 <= done < trials,
    ensures
        r@ == trial_said(done as int, trials),
{
    text::cat5(
        "  trial ",
        text::dec_i64(done as i64 + 1).as_str(),
        "/",
        text::dec_i64(trials as i64).as_str(),
        " ok",
    )
}

/// What one trial measured, each a double by its bits but for the tokens.
#[derive(Clone, Copy, Debug, PartialEq, Eq, Structural)]
pub struct TrialReading {
    pub load_ms: u64,
    pub warmup_ms: u64,
    pub end_to_end_ms: u64,
    pub tokens_per_second: u64,
    pub prompt_eval_ms: u64,
    pub decode_ms: u64,
    pub memory_delta_bytes: u64,
    pub real_time_factor: u64,
    pub chars_per_second: u64,
    pub audio_duration_ms: u64,
    pub output_tokens: i32,
}

/// A measure of which the median is reported.
#[derive(Clone, Copy, Debug, PartialEq, Eq, Structural)]
pub enum Measure {
    LoadMs,
    WarmupMs,
    EndToEndMs,
    TokensPerSecond,
    PromptEvalMs,
    DecodeMs,
    MemoryDeltaBytes,
    RealTimeFactor,
    CharsPerSecond,
    AudioDurationMs,
}

/// One measure of a trial.
pub open spec fn measured(t: TrialReading, m: Measure) -> u64 {
    match m {
        Measure::LoadMs => t.load_ms,
        Measure::WarmupMs => t.warmup_ms,
        Measure::EndToEndMs => t.end_to_end_ms,
        Measure::TokensPerSecond => t.tokens_per_second,
        Measure::PromptEvalMs => t.prompt_eval_ms,
        Measure::DecodeMs => t.decode_ms,
        Measure::MemoryDeltaBytes => t.memory_delta_bytes,
        Measure::RealTimeFactor => t.real_time_factor,
        Measure::CharsPerSecond => t.chars_per_second,
        Measure::AudioDurationMs => t.audio_duration_ms,
    }
}

/// One measure of all the trials.
pub open spec fn column(runs: Seq<TrialReading>, m: Measure) -> Seq<u64> {
    Seq::new(runs.len(), |i: int| measured(runs[i], m))
}

fn column_median(runs: &Vec<TrialReading>, m: Measure) -> (r: Median)
    ensures
        median::is_median(column(runs@, m), r),
{
    let mut values: Vec<u64> = Vec::new();
    let mut i: usize = 0;
    while i < runs.len()
        invariant
            i <= runs@.len(),
            values@ == column(runs@, m).take(i as int),
        decreases runs@.len() - i,
    {
        let t = runs[i];
        values.push(
            match m {
                Measure::LoadMs => t.load_ms,
                Measure::WarmupMs => t.warmup_ms,
                Measure::EndToEndMs => t.end_to_end_ms,
                Measure::TokensPerSecond => t.tokens_per_second,
                Measure::PromptEvalMs => t.prompt_eval_ms,
                Measure::DecodeMs => t.decode_ms,
                Measure::MemoryDeltaBytes => t.memory_delta_bytes,
                Measure::RealTimeFactor => t.real_time_factor,
                Measure::CharsPerSecond => t.chars_per_second,
                Measure::AudioDurationMs => t.audio_duration_ms,
            },
        );
        i = i + 1;
        assert(values@ =~= column(runs@, m).take(i as int));
    }
    assert(values@ =~= column(runs@, m));
    median::median(&values)
}

/// The medians of the trials of a job.
#[derive(Debug)]
pub struct Medians {
    pub load_ms: Median,
    pub warmup_ms: Median,
    pub end_to_end_ms: Median,
    pub tokens_per_second: Median,
    pub prompt_eval_ms: Median,
    pub decode_ms: Median,
    pub memory_delta_bytes: Median,
    pub real_time_factor: Median,
    pub chars_per_second: Median,
    pub audio_duration_ms: Median,
    pub output_tokens: i32,
}

/// Whether those are the medians of the trials of a job, but for the tokens: these
/// are the ones of the trial in the middle of the run.
pub open spec fn are_medians(runs: Seq<TrialReading>, r: Medians) -> bool {
    &&& median::is_median(column(runs, Measure::LoadMs), r.load_ms)
    &&& median::is_median(column(runs, Measure::WarmupMs), r.warmup_ms)
    &&& median::is_median(column(runs, Measure::EndToEndMs), r.end_to_end_ms)
    &&& median::is_median(column(runs, Measure::TokensPerSecond), r.tokens_per_second)
    &&& median::is_median(column(runs, Measure::PromptEvalMs), r.prompt_eval_ms)
    &&& median::is_median(column(runs, Measure::DecodeMs), r.decode_ms)
    &&& median::is_median(column(runs, Measure::MemoryDeltaBytes), r.memory_delta_bytes)
    &&& median::is_median(column(runs, Measure::RealTimeFactor), r.real_time_factor)
    &&& median::is_median(column(runs, Measure::CharsPerSecond), r.chars_per_second)
    &&& median::is_median(column(runs, Measure::AudioDurationMs), r.audio_duration_ms)
    &&& r.output_tokens == if runs.len() == 0 {
        0
    } else {
        runs[runs.len() as int / 2].output_tokens
    }
}

/// See [`are_medians`].
pub fn medians_of(runs: &Vec<TrialReading>) -> (r: Medians)
    ensures
        are_medians(runs@, r),
{
    Medians {
        load_ms: column_median(runs, Measure::LoadMs),
        warmup_ms: column_median(runs, Measure::WarmupMs),
        end_to_end_ms: column_median(runs, Measure::EndToEndMs),
        tokens_per_second: column_median(runs, Measure::TokensPerSecond),
        prompt_eval_ms: column_median(runs, Measure::PromptEvalMs),
        decode_ms: column_median(runs, Measure::DecodeMs),
        memory_delta_bytes: column_median(runs, Measure::MemoryDeltaBytes),
        real_time_factor: column_median(runs, Measure::RealTimeFactor),
        chars_per_second: column_median(runs, Measure::CharsPerSecond),
        audio_duration_ms: column_median(runs, Measure::AudioDurationMs),
        output_tokens: if runs.len() == 0 { 0 } else { runs[runs.len() / 2].output_tokens },
    }
}

/// The median of each measure is that of its own readings, one from each trial in
/// their order; the tokens are those of the trial in the middle.
pub proof fn each_median_is_of_its_own_readings(runs: Seq<TrialReading>, r: Medians)
    requires
        are_medians(runs, r),
    ensures
        median::is_median(runs.map_values(|t: TrialReading| t.load_ms), r.load_ms),
        median::is_median(runs.map_values(|t: TrialReading| t.warmup_ms), r.warmup_ms),
        median::is_median(runs.map_values(|t: TrialReading| t.end_to_end_ms), r.end_to_end_ms),
        median::is_median(runs.map_values(|t: TrialReading| t.tokens_per_second), r.tokens_per_second),
        median::is_median(runs.map_values(|t: TrialReading| t.prompt_eval_ms), r.prompt_eval_ms),
        median::is_median(runs.map_values(|t: TrialReading| t.decode_ms), r.decode_ms),
        median::is_median(runs.map_values(|t: TrialReading| t.memory_delta_bytes), r.memory_delta_bytes),
        median::is_median(runs.map_values(|t: TrialReading| t.real_time_factor), r.real_time_factor),
        median::is_median(runs.map_values(|t: TrialReading| t.chars_per_second), r.chars_per_second),
        median::is_median(runs.map_values(|t: TrialReading| t.audio_duration_ms), r.audio_duration_ms),
        forall|i: int|
            0 <= i < runs.len() && (2 * i == runs.len() || 2 * i + 1 == runs.len()) ==> r.output_tokens
                == (#[trigger] runs[i]).output_tokens,
        runs.len() == 0 ==> r.output_tokens == 0,
{
    assert(column(runs, Measure::LoadMs) =~= runs.map_values(|t: TrialReading| t.load_ms));
    assert(column(runs, Measure::WarmupMs) =~= runs.map_values(|t: TrialReading| t.warmup_ms));
    assert(column(runs, Measure::EndToEndMs) =~= runs.map_values(|t: TrialReading| t.end_to_end_ms));
    assert(column(runs, Measure::TokensPerSecond) =~= runs.map_values(|t: TrialReading| t.tokens_per_second));
    assert(column(runs, Measure::PromptEvalMs) =~= runs.map_values(|t: TrialReading| t.prompt_eval_ms));
    assert(column(runs, Measure::DecodeMs) =~= runs.map_values(|t: TrialReading| t.decode_ms));
    assert(column(runs, Measure::MemoryDeltaBytes) =~= runs.map_values(|t: TrialReading| t.memory_delta_bytes));
    assert(column(runs, Measure::RealTimeFactor) =~= runs.map_values(|t: TrialReading| t.real_time_factor));
    assert(column(runs, Measure::CharsPerSecond) =~= runs.map_values(|t: TrialReading| t.chars_per_second));
    assert(column(runs, Measure::AudioDurationMs) =~= runs.map_values(|t: TrialReading| t.audio_duration_ms));
}

/// How the trials of a job go on.
#[derive(Debug)]
pub enum TrialsNext {
    /// Run another trial.
    Run,
    /// A trial failed: the row of the job.
    Failed(BenchRow),
    /// All the trials ran: their medians.
    Measured(Medians),
}

/// How the trials of a job go on, as a value; a failure is the reason for it.
pub enum TrialsKind {
    Run,
    Failed(Seq<char>),
    Measured,
}

/// How it goes on when so many trials ran.
pub open spec fn when_ran(runs: int, trials: i32) -> TrialsKind {
    if runs < trials {
        TrialsKind::Run
    } else {
        TrialsKind::Measured
    }
}

/// The readings so far and how it goes on, after one more trial: the first that
/// fails ends the job.
pub open spec fn trials_step(runs: Seq<TrialReading>, trials: i32, last: Result<TrialReading, String>) -> (
    Seq<TrialReading>,
    TrialsKind,
) {
    match last {
        Ok(reading) => (runs.push(reading), when_ran(runs.len() as int + 1, trials)),
        Err(message) => (runs, TrialsKind::Failed(message@)),
    }
}

/// Which way it goes on. The row and the medians are not part of that.
pub open spec fn next_kind(next: TrialsNext) -> TrialsKind {
    match next {
        TrialsNext::Run => TrialsKind::Run,
        TrialsNext::Failed(row) => TrialsKind::Failed(row.error@),
        TrialsNext::Measured(_) => TrialsKind::Measured,
    }
}

/// How the trials of a job go on; see [`trials_step`]. `last` is the trial that
/// just ran, none before the first. A failed job has a row without metrics,
/// whatever was measured before; one whose trials all ran has their medians. A
/// verbose run says so of every trial that worked.
pub fn aggregate(
    model: &BenchModel,
    scenario: &Scenario,
    trials: i32,
    runs: &mut Vec<TrialReading>,
    last: Option<Result<TrialReading, String>>,
    verbose: bool,
) -> (r: (Printed, TrialsNext))
    requires
        last is Some ==> old(runs)@.len() < trials,
    ensures
        match last {
            None => final(runs)@ == old(runs)@ && next_kind(r.1) == when_ran(old(runs)@.len() as int, trials),
            Some(result) => (final(runs)@, next_kind(r.1)) == trials_step(old(runs)@, trials, result),
        },
        r.0@ == if verbose && last is Some && last->0 is Ok {
            seq![output::status(trial_said(old(runs)@.len() as int, trials))]
        } else {
            Seq::empty()
        },
        r.1 matches TrialsNext::Failed(row) ==> is_failed_row(row, *model, *scenario, trials, row.error@),
        r.1 matches TrialsNext::Measured(medians) ==> are_medians(final(runs)@, medians),
{
    let mut printed = Printed::new();
    if let Some(result) = last {
        match result {
            Err(message) => return (printed, TrialsNext::Failed(failed_row(model, scenario, trials, message))),
            Ok(reading) => {
                if verbose {
                    printed.status(trial_line(runs.len() as i32, trials));
                }
                runs.push(reading);
            },
        }
    }
    if trials > 0 && runs.len() < trials as usize {
        (printed, TrialsNext::Run)
    } else {
        (printed, TrialsNext::Measured(medians_of(runs)))
    }
}

/// The readings so far and how it goes on, after the first `n` of some trials.
pub open spec fn after_trials(results: Seq<Result<TrialReading, String>>, trials: i32, n: int) -> (
    Seq<TrialReading>,
    TrialsKind,
)
    decreases n,
{
    if n <= 0 {
        (Seq::empty(), when_ran(0, trials))
    } else {
        trials_step(after_trials(results, trials, n - 1).0, trials, results[n - 1])
    }
}

/// The first trial that fails is the last that is run: the ones before it each
/// call for another, it fails the job with its own reason, and `n` trials that
/// all work give their `n` readings, in order, and the medians after the last one
/// that was asked for.
pub proof fn trials_stop_at_the_first_failure(results: Seq<Result<TrialReading, String>>, trials: i32, n: int)
    requires
        0 <= n <= results.len(),
        n <= trials,
        forall|i: int| 0 <= i < n ==> (#[trigger] results[i]) is Ok,
    ensures
        after_trials(results, trials, n).0 == Seq::new(n as nat, |i: int| results[i]->Ok_0),
        after_trials(results, trials, n).1 == when_ran(n, trials),
        n < trials && n < results.len() && results[n] is Err ==> after_trials(results, trials, n + 1).1
            == TrialsKind::Failed(results[n]->Err_0@),
    decreases n,
{
    if n > 0 {
        trials_stop_at_the_first_failure(results, trials, n - 1);
        assert(results[n - 1] is Ok);
        assert(after_trials(results, trials, n).0 =~= Seq::new(n as nat, |i: int| results[i]->Ok_0));
    }
    assert(after_trials(results, trials, n).0 =~= Seq::new(n as nat, |i: int| results[i]->Ok_0));
}

/// The status line before a job.
pub fn job_line(model: &BenchModel, scenario: &Scenario, skip: bool, trials: i32, vlm_image: &str) -> (r: String)
    ensures
        r@ == if skip {
            "skipping "@ + label_of(model.modality) + " "@ + model.id@ + " — "@ + scenario.label@ + ": "@
                + missing_image(vlm_image@)
        } else {
            "benchmarking "@ + label_of(model.modality) + " "@ + model.id@ + " — "@ + scenario.label@ + " ("@
                + text::dec(trials as int) + " trials)"@
        },
{
    if skip {
        let mut r = text::cat5(
            "skipping ",
            modality_label(model.modality),
            " ",
            model.id.as_str(),
            " — ",
        );
        r.append(scenario.label);
        r.append(": ");
        r.append(vlm_image_missing_error(vlm_image).as_str());
        r
    } else {
        let mut r = text::cat5(
            "benchmarking ",
            modality_label(model.modality),
            " ",
            model.id.as_str(),
            " — ",
        );
        r.append(scenario.label);
        r.append(" (");
        r.append(text::dec_i64(trials as i64).as_str());
        r.append(" trials)");
        r
    }
}

/// The exit code of a benchmark: a run with a failed row is not green.
pub fn bench_exit_code(rows: &Vec<BenchRow>) -> (r: i32)
    ensures
        r == if exists|i: int| 0 <= i < rows@.len() && !(#[trigger] rows@[i]).success {
            1i32
        } else {
            0i32
        },
{
    let mut i: usize = 0;
    while i < rows.len()
        invariant
            i <= rows@.len(),
            forall|k: int| 0 <= k < i ==> (#[trigger] rows@[k]).success,
        decreases rows@.len() - i,
    {
        if !rows[i].success {
            return 1;
        }
        i = i + 1;
    }
    0
}

/// The writes for one row.
pub open spec fn bench_row_json(r: BenchRow) -> Seq<output::JsonOpView> {
    seq![
        output::begin_array_object(),
        output::field_str("model"@, r.model_id@),
        output::field_str("modality"@, label_of(r.modality)),
        output::field_str("scenario"@, r.scenario@),
        output::field_bool("success"@, r.success),
        output::field_i64("trials"@, r.trials as int),
    ] + (if r.success {
        seq![
            output::field_f64("tokens_per_second"@, r.med.tokens_per_second as int),
            output::field_f64("prompt_eval_ms"@, r.med.prompt_eval_ms as int),
            output::field_f64("decode_ms"@, r.med.decode_ms as int),
            output::field_f64("end_to_end_ms"@, r.med.end_to_end_ms as int),
            output::field_f64("real_time_factor"@, r.med.real_time_factor as int),
            output::field_f64("chars_per_second"@, r.med.chars_per_second as int),
            output::field_i64("output_tokens"@, r.med.output_tokens as int),
            output::field_f64("load_ms"@, r.med.load_ms as int),
            output::field_i64("memory_delta_bytes"@, r.med.memory_delta_bytes as int),
        ]
    } else {
        seq![output::field_str("error"@, r.error@)]
    }) + seq![output::end_object()]
}

pub open spec fn bench_rows_json(rows: Seq<BenchRow>, n: int) -> Seq<output::JsonOpView>
    decreases n,
{
    if n <= 0 {
        Seq::empty()
    } else {
        bench_rows_json(rows, n - 1) + bench_row_json(rows[n - 1])
    }
}

fn put_row(json: &mut JsonWriter, r: &BenchRow)
    ensures
        final(json)@ == old(json)@ + bench_row_json(*r),
{
    json.begin_array_object();
    json.field_str("model", r.model_id.as_str());
    json.field_str("modality", modality_label(r.modality));
    json.field_str("scenario", r.scenario.as_str());
    json.field_bool("success", r.success);
    json.field_i64("trials", r.trials as i64);
    if r.success {
        json.field_f64("tokens_per_second", r.med.tokens_per_second);
        json.field_f64("prompt_eval_ms", r.med.prompt_eval_ms);
        json.field_f64("decode_ms", r.med.decode_ms);
        json.field_f64("end_to_end_ms", r.med.end_to_end_ms);
        json.field_f64("real_time_factor", r.med.real_time_factor);
        json.field_f64("chars_per_second", r.med.chars_per_second);
        json.field_i64("output_tokens", r.med.output_tokens as i64);
        json.field_f64("load_ms", r.med.load_ms);
        json.field_i64("memory_delta_bytes", r.med.memory_delta_bytes);
    } else {
        json.field_str("error", r.error.as_str());
    }
    json.end_object();
    assert(json@ =~= old(json)@ + bench_row_json(*r));
}

/// The report as one JSON document.
pub fn bench_json(rows: &Vec<BenchRow>) -> (json: JsonWriter)
    ensures
        json@ == seq![output::begin_object(), output::begin_array("results"@)] + bench_rows_json(
            rows@,
            rows@.len() as int,
        ) + seq![output::end_array(), output::end_object()],
{
    let mut json = JsonWriter::new();
    json.begin_object();
    json.begin_array("results");
    let ghost head = json@;
    assert(head =~= seq![output::begin_object(), output::begin_array("results"@)]);
    assert(head + bench_rows_json(rows@, 0) =~= head);
    let mut i: usize = 0;
    while i < rows.len()
        invariant
            i <= rows@.len(),
            json@ == head + bench_rows_json(rows@, i as int),
        decreases rows@.len() - i,
    {
        put_row(&mut json, &rows[i]);
        i = i + 1;
        assert(json@ =~= head + bench_rows_json(rows@, i as int));
    }
    json.end_array();
    json.end_object();
    assert(json@ =~= head + bench_rows_json(rows@, rows@.len() as int) + seq![
        output::end_array(),
        output::end_object(),
    ]);
    json
}

/// The columns of a row that every row has.
pub open spec fn row_columns(r: BenchRow) -> Seq<u8> {
    left_justified(r.model_id@, 30) + seq![0x20u8] + left_justified(label_of(r.modality), 4) + seq![0x20u8]
        + left_justified(r.scenario@, 15)
}

/// The bytes of one row of the report: `primary` is the main figure and `tail`
/// the load time and memory, as text.
pub open spec fn row_bytes(r: BenchRow, primary: Seq<char>, tail: Seq<char>) -> Seq<u8> {
    row_columns(r) + (if r.success {
        seq![0x20u8] + left_justified(primary, 22) + vstd::utf8::encode_utf8(tail)
    } else {
        vstd::utf8::encode_utf8(" FAILED: "@ + r.error@)
    })
}

fn append_bytes(line: &mut Vec<u8>, bytes: &[u8])
    ensures
        final(line)@ == old(line)@ + bytes@,
{
    let mut i: usize = 0;
    assert(old(line)@ + bytes@.take(0) =~= old(line)@);
    while i < bytes.len()
        invariant
            i <= bytes@.len(),
            line@ == old(line)@ + bytes@.take(i as int),
        decreases bytes@.len() - i,
    {
        line.push(bytes[i]);
        i = i + 1;
        assert(line@ =~= old(line)@ + bytes@.take(i as int));
    }
    assert(bytes@.take(bytes@.len() as int) =~= bytes@);
}

/// One row of the report; see [`row_bytes`].
pub fn bench_row_line(r: &BenchRow, primary: &str, tail: &str) -> (line: Vec<u8>)
    ensures
        line@ == row_bytes(*r, primary@, tail@),
{
    let mut line = ljust_bytes(r.model_id.as_str(), 30);
    line.push(0x20);
    append_bytes(&mut line, ljust_bytes(modality_label(r.modality), 4).as_slice());
    line.push(0x20);
    append_bytes(&mut line, ljust_bytes(r.scenario.as_str(), 15).as_slice());
    assert(line@ =~= row_columns(*r));
    if r.success {
        line.push(0x20);
        append_bytes(&mut line, ljust_bytes(primary, 22).as_slice());
        append_bytes(&mut line, tail.as_bytes());
    } else {
        let failed = text::cat2(" FAILED: ", r.error.as_str());
        append_bytes(&mut line, failed.as_str().as_bytes());
    }
    assert(line@ =~= row_bytes(*r, primary@, tail@));
    line
}

/// The lines above the rows of the report: an empty one, and the header.
pub fn bench_header() -> (r: Printed)
    ensures
        r@ == seq![
            output::result(""@),
            output::result(
                "MODEL                          MOD  SCENARIO         PRIMARY                 LOAD     MEMΔ"@,
            ),
        ],
{
    let mut printed = Printed::new();
    printed.result(text::owned(""));
    printed.result(
        text::owned("MODEL                          MOD  SCENARIO         PRIMARY                 LOAD     MEMΔ"),
    );
    printed
}

/// What follows the label of the first line at or behind `at` that starts with
/// it.
pub open spec fn labelled_line(s: Seq<char>, label: Seq<char>, at: int) -> Option<Seq<char>>
    decreases s.len() - at,
{
    if at < 0 || at >= s.len() {
        None
    } else {
        let end = text::line_end(s, at);
        let line = s.subrange(at, end);
        if text::starts_with(line, label) {
            Some(line.skip(label.len() as int))
        } else if at <= end < s.len() {
            labelled_line(s, label, end + 1)
        } else {
            None
        }
    }
}

/// The free memory that the kernel reports in `/proc/meminfo`, in bytes; 0 where
/// it is not known.
pub open spec fn free_memory(meminfo: Seq<char>) -> int {
    match labelled_line(meminfo, "MemAvailable:"@, 0) {
        None => 0,
        Some(rest) => match text::integer_of(text::first_word(rest)) {
            Some(kb) => if i64::MIN <= kb * 1024 <= i64::MAX {
                kb * 1024
            } else {
                0
            },
            None => 0,
        },
    }
}

/// See [`free_memory`].
pub fn available_ram_bytes(meminfo: &str) -> (r: i64)
    ensures
        r == free_memory(meminfo@),
{
    let v = text::chars_of(meminfo);
    let mut at: usize = 0;
    while at < v.len()
        invariant
            v@ == meminfo@,
            at <= v@.len() + 1,
            labelled_line(meminfo@, "MemAvailable:"@, 0) == labelled_line(meminfo@, "MemAvailable:"@, at as int),
        decreases v@.len() + 1 - at,
    {
        let end: usize = text::line_end_exec(&v, at);
        let line = text::string_of_range(&v, at, end);
        if let Some(rest) = text::strip_prefix(line.as_str(), "MemAvailable:") {
            let word = text::first_word_exec(rest.as_str());
            return match text::parse_i64(word.as_str()) {
                Some(kb) => match kb.checked_mul(1024) {
                    Some(bytes) => bytes,
                    None => 0,
                },
                None => 0,
            };
        }
        if end == v.len() {
            return 0;
        }
        at = end + 1;
    }
    0
}

/// The models that are measured are those of the registry that can be, in its
/// order: a model that was asked for, or any where none was; not one that the
/// system brings; and one that generates text, hears, speaks or sees.
pub proof fn every_measurable_model_is_measured(models: Seq<ModelInfo>, only_model: Seq<char>, n: int)
    requires
        0 <= n <= models.len(),
    ensures
        ({
            let found = measured_models(models, only_model, n);
            &&& forall|i: int|
                0 <= i < n && (only_model.len() == 0 || (#[trigger] models[i]).id@ == only_model) && models[i].framework
                    != Some(InferenceFramework::FoundationModels) && models[i].framework != Some(
                    InferenceFramework::SystemTts,
                ) ==> {
                    &&& models[i].category == Some(ModelCategory::Language) ==> found.contains(
                        (models[i].id@, ModelCategory::Language, Modality::Llm),
                    )
                    &&& models[i].category == Some(ModelCategory::SpeechRecognition) ==> found.contains(
                        (models[i].id@, ModelCategory::SpeechRecognition, Modality::Stt),
                    )
                    &&& models[i].category == Some(ModelCategory::SpeechSynthesis) ==> found.contains(
                        (models[i].id@, ModelCategory::SpeechSynthesis, Modality::Tts),
                    )
                    &&& models[i].category == Some(ModelCategory::Multimodal) ==> found.contains(
                        (models[i].id@, ModelCategory::Multimodal, Modality::Vlm),
                    )
                    &&& models[i].category == Some(ModelCategory::Vision) ==> found.contains(
                        (models[i].id@, ModelCategory::Vision, Modality::Vlm),
                    )
                }
            &&& forall|x: BenchModelView| #[trigger]
                found.contains(x) ==> exists|i: int|
                    0 <= i < n && (#[trigger] models[i]).id@ == x.0 && models[i].category == Some(x.1) && (only_model.len()
                        == 0 || x.0 == only_model) && models[i].framework != Some(
                        InferenceFramework::FoundationModels,
                    ) && models[i].framework != Some(InferenceFramework::SystemTts)
        }),
    decreases n,
{
    if n > 0 {
        every_measurable_model_is_measured(models, only_model, n - 1);
        let before = measured_models(models, only_model, n - 1);
        let found = measured_models(models, only_model, n);
        assert forall|x: BenchModelView| #[trigger] before.contains(x) implies found.contains(x) by {
            let k = choose|k: int| 0 <= k < before.len() && before[k] == x;
            assert(found[k] == x);
        }
        if is_measured(models[n - 1], only_model) {
            assert(found.last() == (
                models[n - 1].id@,
                models[n - 1].category->0,
                measured_as(models[n - 1].category->0)->0,
            ));
        }
        assert forall|x: BenchModelView| #[trigger] found.contains(x) implies exists|i: int|
            0 <= i < n && (#[trigger] models[i]).id@ == x.0 && models[i].category == Some(x.1) && (only_model.len() == 0
                || x.0 == only_model) && models[i].framework != Some(InferenceFramework::FoundationModels)
                && models[i].framework != Some(InferenceFramework::SystemTts) by {
            let k = choose|k: int| 0 <= k < found.len() && found[k] == x;
            if k < before.len() {
                assert(before[k] == x);
                assert(before.contains(x));
            } else {
                assert(models[n - 1].id@ == x.0);
            }
        }
    }
}

/// Every model is measured in every scenario of its modality, the models in their
/// order, and a job is skipped only for the want of an image to look at.
pub proof fn every_model_has_its_jobs(models: Seq<BenchModelView>, image: bool, n: int, m: int, k: int)
    requires
        0 <= m < n <= models.len(),
        0 <= k < scenario_table(models[m].2).len(),
    ensures
        ({
            let jobs = all_jobs(models, image, n);
            let at = all_jobs(models, image, m).len() + k;
            &&& at < jobs.len()
            &&& jobs[at].0 == m
            &&& jobs[at].1 == scenario_table(models[m].2)[k]
            &&& jobs[at].2 == (models[m].2 == Modality::Vlm && !image)
            &&& n == m + 1 ==> jobs.len() == all_jobs(models, image, m).len() + scenario_table(models[m].2).len()
        }),
    decreases n,
{
    if m < n - 1 {
        every_model_has_its_jobs(models, image, n - 1, m, k);
    }
}

/// Audio is sampled at the rate that its request names, so that a scenario lasts
/// as long as it says; generations are asked for as many tokens as they say, and
/// speech for some text. A warmup is of the same kind as what it warms up for, and
/// shorter.
pub proof fn a_pass_asks_for_what_its_scenario_says(m: Modality, k: int, image: Seq<char>)
    requires
        0 <= k < scenario_table(m).len(),
    ensures
        ({
            let scenario = scenario_table(m)[k];
            match (warmup_asked(m, image), pass_asked(m, scenario, image)) {
                (
                    TrialRequestView::Generate(p, few, t, _),
                    TrialRequestView::Generate(q, many, u, _),
                ) => m == Modality::Llm && p == q && t == u && 0 < few < many && many == scenario.1,
                (
                    TrialRequestView::Transcribe(short, _, r, c, l),
                    TrialRequestView::Transcribe(long, sine, s, d, n),
                ) => m == Modality::Stt && r == s && c == d && l == n && 0 < short < long && long == scenario.2
                    && long % s == 0 && sine == scenario.3,
                (
                    TrialRequestView::Synthesize(_, r),
                    TrialRequestView::Synthesize(text, s),
                ) => m == Modality::Tts && r == s && scenario.4 == Some(text),
                (
                    TrialRequestView::Describe(i, p, few, t),
                    TrialRequestView::Describe(j, q, many, u),
                ) => m == Modality::Vlm && i == image && j == image && p == q && t == u && 0 < few < many && many
                    == scenario.1,
                _ => false,
            }
        }),
{
}

/// A column is as wide as it should be: it starts with the text, cut off where it
/// is too long, and ends in blanks where it is too short.
pub proof fn a_column_is_cut_or_filled(s: Seq<char>, width: int)
    requires
        0 <= width,
    ensures
        ({
            let bytes = vstd::utf8::encode_utf8(s);
            let column = left_justified(s, width);
            &&& column.len() == width
            &&& bytes.len() >= width ==> column == bytes.take(width)
            &&& bytes.len() < width ==> column.take(bytes.len() as int) == bytes && forall|i: int|
                bytes.len() <= i < width ==> #[trigger] column[i] == 0x20
        }),
{
    let bytes = vstd::utf8::encode_utf8(s);
    let column = left_justified(s, width);
    if bytes.len() >= width {
        assert(column =~= bytes.take(width));
    } else {
        assert(column.take(bytes.len() as int) =~= bytes);
    }
}

/// A result is written under its own names: what was measured where it worked, and
/// the reason where it did not.
pub proof fn a_result_is_written_under_its_names(r: BenchRow)
    ensures
        ({
            let ops = bench_row_json(r);
            &&& ops.contains(output::field_str("model"@, r.model_id@))
            &&& ops.contains(output::field_str("scenario"@, r.scenario@))
            &&& ops.contains(output::field_bool("success"@, r.success))
            &&& ops.contains(output::field_i64("trials"@, r.trials as int))
            &&& r.success ==> {
                &&& ops.contains(output::field_f64("tokens_per_second"@, r.med.tokens_per_second as int))
                &&& ops.contains(output::field_f64("prompt_eval_ms"@, r.med.prompt_eval_ms as int))
                &&& ops.contains(output::field_f64("decode_ms"@, r.med.decode_ms as int))
                &&& ops.contains(output::field_f64("end_to_end_ms"@, r.med.end_to_end_ms as int))
                &&& ops.contains(output::field_f64("real_time_factor"@, r.med.real_time_factor as int))
                &&& ops.contains(output::field_f64("chars_per_second"@, r.med.chars_per_second as int))
                &&& ops.contains(output::field_i64("output_tokens"@, r.med.output_tokens as int))
                &&& ops.contains(output::field_f64("load_ms"@, r.med.load_ms as int))
                &&& ops.contains(output::field_i64("memory_delta_bytes"@, r.med.memory_delta_bytes as int))
            }
            &&& !r.success ==> ops.contains(output::field_str("error"@, r.error@)) && ops.len() == 8
            &&& r.modality == Modality::Llm ==> ops.contains(output::field_str("modality"@, "llm"@))
            &&& r.modality == Modality::Stt ==> ops.contains(output::field_str("modality"@, "stt"@))
            &&& r.modality == Modality::Tts ==> ops.contains(output::field_str("modality"@, "tts"@))
            &&& r.modality == Modality::Vlm ==> ops.contains(output::field_str("modality"@, "vlm"@))
        }),
{
    let ops = bench_row_json(r);
    assert(ops[1] == output::field_str("model"@, r.model_id@));
    assert(ops[2] == output::field_str("modality"@, label_of(r.modality)));
    assert(ops[3] == output::field_str("scenario"@, r.scenario@));
    assert(ops[4] == output::field_bool("success"@, r.success));
    assert(ops[5] == output::field_i64("trials"@, r.trials as int));
    if r.success {
        assert(ops[6] == output::field_f64("tokens_per_second"@, r.med.tokens_per_second as int));
        assert(ops[7] == output::field_f64("prompt_eval_ms"@, r.med.prompt_eval_ms as int));
        assert(ops[8] == output::field_f64("decode_ms"@, r.med.decode_ms as int));
        assert(ops[9] == output::field_f64("end_to_end_ms"@, r.med.end_to_end_ms as int));
        assert(ops[10] == output::field_f64("real_time_factor"@, r.med.real_time_factor as int));
        assert(ops[11] == output::field_f64("chars_per_second"@, r.med.chars_per_second as int));
        assert(ops[12] == output::field_i64("output_tokens"@, r.med.output_tokens as int));
        assert(ops[13] == output::field_f64("load_ms"@, r.med.load_ms as int));
        assert(ops[14] == output::field_i64("memory_delta_bytes"@, r.med.memory_delta_bytes as int));
    } else {
        assert(ops[6] == output::field_str("error"@, r.error@));
    }
}

/// The rows of a document are those of the results, one behind the other.
pub proof fn results_are_written_in_order(rows: Seq<BenchRow>, n: int, i: int)
    requires
        0 <= i < n <= rows.len(),
    ensures
        ({
            let at = bench_rows_json(rows, i).len() as int;
            let row = bench_row_json(rows[i]);
            &&& at + row.len() <= bench_rows_json(rows, n).len()
            &&& bench_rows_json(rows, n).subrange(at, at + row.len()) == row
        }),
    decreases n,
{
    let at = bench_rows_json(rows, i).len() as int;
    let row = bench_row_json(rows[i]);
    let all = bench_rows_json(rows, n);
    if i < n - 1 {
        results_are_written_in_order(rows, n - 1, i);
        let before = bench_rows_json(rows, n - 1);
        assert(all.subrange(at, at + row.len()) =~= before.subrange(at, at + row.len()));
    } else {
        assert(all.subrange(at, at + row.len()) =~= row);
    }
}

/// Whether a line of a text starts at `p`.
pub open spec fn starts_a_line(s: Seq<char>, p: int) -> bool {
    0 <= p < s.len() && (p == 0 || s[p - 1] == '\n')
}

/// What is found behind a label is the rest of the first line that starts with it,
/// and nothing is found only where no line does.
pub proof fn a_label_is_found_on_its_line(s: Seq<char>, label: Seq<char>, at: int)
    requires
        0 <= at <= s.len(),
        at == s.len() || starts_a_line(s, at),
        forall|i: int| 0 <= i < label.len() ==> #[trigger] label[i] != '\n',
    ensures
        match labelled_line(s, label, at) {
            Some(rest) => exists|p: int| #[trigger]
                starts_a_line(s, p) && at <= p && p + label.len() + rest.len() <= s.len() && s.subrange(
                    p,
                    p + label.len(),
                ) == label && s.subrange(p + label.len(), p + label.len() + rest.len()) == rest && (forall|i: int|
                    0 <= i < rest.len() ==> #[trigger] rest[i] != '\n') && (p + label.len() + rest.len() == s.len()
                    || s[p + label.len() + rest.len()] == '\n'),
            None => forall|p: int| #[trigger]
                starts_a_line(s, p) && at <= p && p + label.len() <= s.len() ==> s.subrange(p, p + label.len()) != label,
        },
    decreases s.len() - at,
{
    if at < s.len() {
        let end = text::line_end(s, at);
        text::a_line_ends_at_its_break(s, at);
        let line = s.subrange(at, end);
        if text::starts_with(line, label) {
            let rest = line.skip(label.len() as int);
            assert(line.take(label.len() as int) =~= s.subrange(at, at + label.len()));
            assert(s.subrange(at + label.len(), at + label.len() + rest.len()) =~= rest);
            assert(starts_a_line(s, at));
        } else {
            if end < s.len() {
                a_label_is_found_on_its_line(s, label, end + 1);
            }
            if labelled_line(s, label, at) is None {
                assert forall|p: int| #[trigger]
                    starts_a_line(s, p) && at <= p && p + label.len() <= s.len() implies s.subrange(p, p + label.len())
                    != label by {
                    if at < p <= end {
                        assert(s[p - 1] != '\n');
                    } else if p == at && s.subrange(p, p + label.len()) == label {
                        if at + label.len() <= end {
                            assert(line.take(label.len() as int) =~= label);
                        } else {
                            assert(s.subrange(p, p + label.len())[end - at] == s[end]);
                            assert(label[end - at] == '\n');
                        }
                    }
                }
            }
        }
    }
}

/// Free memory is told in kibibytes and counted in bytes; what cannot be read or
/// counted is none.
pub proof fn free_memory_is_counted_in_bytes(meminfo: Seq<char>)
    ensures
        match labelled_line(meminfo, "MemAvailable:"@, 0) {
            None => free_memory(meminfo) == 0,
            Some(rest) => match text::integer_of(text::first_word(rest)) {
                None => free_memory(meminfo) == 0,
                Some(kb) => 0 <= kb <= 9_007_199_254_740_991 ==> free_memory(meminfo) == 1024 * kb,
            },
        },
{
}

/// A row is of its own model and scenario, and has either what was measured or why
/// nothing was, never both.
pub proof fn a_row_is_of_its_own_job(
    model: BenchModel,
    scenario: Scenario,
    trials: i32,
    error: String,
    med: Metrics,
    failed: BenchRow,
    measured: BenchRow,
)
    requires
        call_ensures(failed_row, (&model, &scenario, trials, error), failed),
        call_ensures(measured_row, (&model, &scenario, trials, med), measured),
    ensures
        failed.model_id@ == model.id@ && measured.model_id@ == model.id@,
        failed.modality == model.modality && measured.modality == model.modality,
        failed.scenario@ == scenario.label@ && measured.scenario@ == scenario.label@,
        failed.trials == trials && measured.trials == trials,
        !failed.success && failed.error@ == error@ && failed.med.tokens_per_second == 0 && failed.med.output_tokens == 0,
        measured.success && measured.error@.len() == 0 && measured.med == med,
{
}

/// A benchmark fails exactly where one of its rows did.
pub proof fn one_failure_fails_the_benchmark(rows: Vec<BenchRow>, code: i32, i: int)
    requires
        call_ensures(bench_exit_code, (&rows,), code),
    ensures
        code == 0 || code == 1,
        0 <= i < rows@.len() && !rows@[i].success ==> code == 1,
        (forall|j: int| 0 <= j < rows@.len() ==> (#[trigger] rows@[j]).success) ==> code == 0,
{
}

/// A line of the table says which model, of which modality, in which scenario, in
/// columns of their own; then what was measured, or that it failed and why.
pub proof fn a_line_says_what_was_measured(r: BenchRow, primary: Seq<char>, tail: Seq<char>)
    ensures
        ({
            let line = row_bytes(r, primary, tail);
            &&& line.len() >= 51
            &&& line.take(30) == left_justified(r.model_id@, 30)
            &&& line[30] == 0x20 && line[35] == 0x20
            &&& line.skip(31).take(4) == left_justified(label_of(r.modality), 4)
            &&& line.skip(36).take(15) == left_justified(r.scenario@, 15)
            &&& r.success ==> line.skip(52).take(22) == left_justified(primary, 22) && line.skip(74)
                == vstd::utf8::encode_utf8(tail)
            &&& !r.success ==> line.skip(51) == vstd::utf8::encode_utf8(" FAILED: "@ + r.error@)
        }),
{
    let line = row_bytes(r, primary, tail);
    assert(line.take(30) =~= left_justified(r.model_id@, 30));
    assert(line.skip(31).take(4) =~= left_justified(label_of(r.modality), 4));
    assert(line.skip(36).take(15) =~= left_justified(r.scenario@, 15));
    if r.success {
        assert(line.skip(52).take(22) =~= left_justified(primary, 22));
        assert(line.skip(74) =~= vstd::utf8::encode_utf8(tail));
    } else {
        assert(line.skip(51) =~= vstd::utf8::encode_utf8(" FAILED: "@ + r.error@));
    }
}

/// A trial that worked is told by its number, from one, of all there are; what is
/// missing is told by the path that was given, where one was.
pub proof fn a_trial_is_told_by_its_number(done: int, trials: i32, path: Seq<char>, message: Seq<char>)
    ensures
        trial_said(done, trials) == "  trial "@ + text::dec(done + 1) + "/"@ + text::dec(trials as int) + " ok"@,
        path.len() > 0 ==> missing_image(path) == "VLM sample image not found: '"@ + path
            + "' (pass --vlm-image <path> pointing at a real file)"@,
        path.len() == 0 ==> missing_image(path)
            == "wally ships no built-in VLM sample image; pass --vlm-image <path>"@,
        message.len() > 0 ==> or_load_failed(message) == message,
        message.len() == 0 ==> or_load_failed(message) == "load failed"@,
{
}

/// Texts of three lengths are generated, silence is heard before a tone, for two and
/// three seconds, and a short text is spoken before a longer one.
pub proof fn scenarios_grow()
    ensures
        ({
            let llm = scenario_table(Modality::Llm);
            &&& llm.len() == 3
            &&& llm[0].1 == 50 && llm[1].1 == 256 && llm[2].1 == 512
            &&& llm[0].0 == "Short (50)"@ && llm[1].0 == "Medium (256)"@ && llm[2].0 == "Long (512)"@
        }),
        ({
            let stt = scenario_table(Modality::Stt);
            &&& stt.len() == 2
            &&& stt[0].0 == "Silent 2s"@ && stt[0].2 == 2 * 16_000 && !stt[0].3
            &&& stt[1].0 == "Sine Tone 3s"@ && stt[1].2 == 3 * 16_000 && stt[1].3
        }),
        ({
            let tts = scenario_table(Modality::Tts);
            &&& tts.len() == 2
            &&& tts[0].0 == "Short Text"@ && tts[1].0 == "Medium Text"@
            &&& tts[0].4 is Some && tts[1].4 is Some && 0 < (tts[0].4->0).len() < (tts[1].4->0).len()
        }),
        scenario_table(Modality::Vlm).len() == 1 && scenario_table(Modality::Vlm)[0].1 == 128,
{
    reveal_strlit("Hello, this is a test.");
    reveal_strlit(
        "The quick brown fox jumps over the lazy dog. Machine learning models can generate speech from text with remarkable quality and natural intonation.",
    );
}

/// The `bench` command.
pub open spec fn bench_command(kit: Kit) -> CommandView {
    cli::top("bench"@, "Measure throughput and load time of downloaded models"@)
        .option(
            cli::opt(
                "model"@,
                ValueType::Text,
                "Model id, local bundle path, hf.co/... or URL; must already be downloaded (`wally models pull <ref>` first) -- default: all downloaded"@,
            ),
        )
        .option(
            cli::opt("--engine"@, ValueType::Text, "Engine hint ("@ + engine_options::choices_text(kit) + ")"@),
        )
        .option(
            cli::opt(
                "--trials,-n"@,
                ValueType::Int,
                "Measured trials per scenario (median reported)"@,
            ).default_val("3"@).check(ValidatorView::Range(1, 2_147_483_647)),
        )
        .option(
            cli::opt(
                "--vlm-image"@,
                ValueType::Text,
                "Image file for VLM benchmarking (required to benchmark VLM models)"@,
            ),
        )
        .action(Action::Bench)
}

/// Registers `bench`.
pub fn register_bench(app: &mut App, kit: Kit)
    ensures
        final(app)@ == old(app)@.push(bench_command(kit)),
{
    let mut cmd = Command::top("bench", "Measure throughput and load time of downloaded models");
    cmd.add_option(
        Opt::value(
            "model",
            ValueType::Text,
            "Model id, local bundle path, hf.co/... or URL; must already be downloaded (`wally models pull <ref>` first) -- default: all downloaded",
        ),
    );
    cmd.add_option(
        Opt::value(
            "--engine",
            ValueType::Text,
            text::cat3("Engine hint (", engine_options::engine_choices(kit), ")").as_str(),
        ),
    );
    cmd.add_option(
        Opt::value(
            "--trials,-n",
            ValueType::Int,
            "Measured trials per scenario (median reported)",
        ).default_val("3").check(Validator::Range(1, 2_147_483_647)),
    );
    cmd.add_option(
        Opt::value(
            "--vlm-image",
            ValueType::Text,
            "Image file for VLM benchmarking (required to benchmark VLM models)",
        ),
    );
    cmd.callback(Action::Bench);
    app.add(cmd);
}

} // verus!
