//! `wally stt transcribe <audio.wav>`: turns recorded speech into text.

use crate::cli;
use crate::cli::{Action, App, Command, CommandView, Opt, Validator, ValidatorView, ValueType};
use crate::commands::opening::OpeningPlan;
use crate::commands;
use crate::output;
use crate::output::Channel;
use crate::output::JsonWriter;
use crate::output::Printed;
use crate::text;
use vstd::prelude::*;

verus! {

/// The rate at which speech is transcribed.
pub const STT_SAMPLE_RATE: i32 = 16000;

/// The recording and the model of a transcription, or what is missing, with the
/// exit code. The positional argument comes before `--input`.
pub fn stt_plan(audio: &str, input: &str, model: &str) -> (r: Result<(String, String), (String, i32)>)
    ensures
        match r {
            Ok(plan) => (audio@.len() > 0 || input@.len() > 0) && plan.0@ == text::first_given(audio@, input@) && plan.1@
                == text::first_given(model@, "sherpa-onnx-whisper-tiny.en"@),
            Err(e) => audio@.len() == 0 && input@.len() == 0 && e.0@
                == "an audio file is required (positional or --input)"@ && e.1 == 2,
        },
{
    let path = text::first_given_exec(audio, input);
    if path.as_str().is_empty() {
        return Err((text::owned("an audio file is required (positional or --input)"), 2));
    }
    Ok((path, text::first_given_exec(model, "sherpa-onnx-whisper-tiny.en")))
}

/// How a transcription opens: it makes one model ready, and reads its input.
pub fn stt_opening() -> (r: OpeningPlan)
    ensures
        r == (OpeningPlan { models: 1, reads: true }),
{
    OpeningPlan { models: 1, reads: true }
}

/// The encoding of audio that is handed to the engine.
#[derive(Clone, Copy, Debug, PartialEq, Eq, Structural)]
pub enum AudioFormat {
    Pcm,
}

/// The engine's transcription options.
#[derive(Clone, Debug)]
pub struct SttOptions {
    /// The language of the speech; none lets the engine detect it.
    pub language: Option<String>,
    pub detect_language: bool,
    pub enable_punctuation: bool,
    pub enable_diarization: bool,
    pub max_speakers: i32,
    pub enable_timestamps: bool,
    pub audio_format: AudioFormat,
    pub sample_rate: i32,
}

/// The engine's own defaults.
pub fn default_stt_options() -> (r: SttOptions)
    ensures
        r.language is Some && r.language->0@ == "en"@,
        !r.detect_language,
        r.enable_punctuation,
        !r.enable_diarization,
        r.max_speakers == 0,
        r.enable_timestamps,
        r.audio_format == AudioFormat::Pcm,
        r.sample_rate == 16000,
{
    SttOptions {
        language: Some(text::owned("en")),
        detect_language: false,
        enable_punctuation: true,
        enable_diarization: false,
        max_speakers: 0,
        enable_timestamps: true,
        audio_format: AudioFormat::Pcm,
        sample_rate: 16000,
    }
}

/// The options of a transcription: a language that is not given is detected, and
/// one that is goes over in its C form.
/// The audio format keeps its default.
pub fn stt_options(
    language: &str,
    punctuation: bool,
    word_timestamps: bool,
    diarization: bool,
    max_speakers: i32,
) -> (r: SttOptions)
    ensures
        match r.language {
            Some(l) => language@.len() > 0 && l@ == text::c_form(language@),
            None => language@.len() == 0,
        },
        r.detect_language == (language@.len() == 0),
        r.enable_punctuation == punctuation,
        r.enable_timestamps == word_timestamps,
        r.enable_diarization == diarization,
        r.max_speakers == max_speakers,
        r.audio_format == AudioFormat::Pcm,
        r.sample_rate == STT_SAMPLE_RATE,
{
    let mut options = default_stt_options();
    options.language = if language.is_empty() {
        None
    } else {
        Some(text::c_text(language))
    };
    options.detect_language = language.is_empty();
    options.enable_punctuation = punctuation;
    options.enable_timestamps = word_timestamps;
    options.enable_diarization = diarization;
    options.max_speakers = max_speakers;
    options.sample_rate = STT_SAMPLE_RATE;
    options
}

/// The engine call that a transcription makes next.
#[derive(Clone, Copy, Debug, PartialEq, Eq, Structural)]
pub enum SttStage {
    /// Create the component.
    Create,
    /// Load the model into it.
    Load,
    /// Transcribe, and print what came back.
    Transcribe,
    /// Free the engine's result.
    FreeResult,
    /// Destroy the component, then exit with the code.
    Destroy(i32),
    /// Exit with the code.
    Done(i32),
}

/// The stage after a call, which worked or not.
pub open spec fn stt_after(stage: SttStage, ok: bool) -> SttStage {
    match stage {
        SttStage::Create => if ok {
            SttStage::Load
        } else {
            SttStage::Done(1)
        },
        SttStage::Load => if ok {
            SttStage::Transcribe
        } else {
            SttStage::Destroy(1)
        },
        SttStage::Transcribe => if ok {
            SttStage::FreeResult
        } else {
            SttStage::Destroy(1)
        },
        SttStage::FreeResult => SttStage::Destroy(0),
        SttStage::Destroy(code) => SttStage::Done(code),
        SttStage::Done(code) => SttStage::Done(code),
    }
}

/// `wally stt` on the engine, one call at a time; see [`stt_after`].
pub fn run_stt(stage: SttStage, ok: bool) -> (r: SttStage)
    ensures
        r == stt_after(stage, ok),
{
    match stage {
        SttStage::Create => if ok {
            SttStage::Load
        } else {
            SttStage::Done(1)
        },
        SttStage::Load => if ok {
            SttStage::Transcribe
        } else {
            SttStage::Destroy(1)
        },
        SttStage::Transcribe => if ok {
            SttStage::FreeResult
        } else {
            SttStage::Destroy(1)
        },
        SttStage::FreeResult => SttStage::Destroy(0),
        SttStage::Destroy(code) => SttStage::Done(code),
        SttStage::Done(code) => SttStage::Done(code),
    }
}

/// What is said of a call that failed; `described` says what its code means.
pub open spec fn stt_problem(stage: SttStage, described: Seq<char>) -> Option<Seq<char>> {
    match stage {
        SttStage::Create => Some("failed to create STT component"@),
        SttStage::Load => Some("failed to load STT model: "@ + described),
        SttStage::Transcribe => Some("transcription failed: "@ + described),
        _ => None,
    }
}

/// See [`stt_problem`].
pub fn stt_problem_exec(stage: SttStage, described: &str) -> (r: Option<String>)
    ensures
        match r {
            Some(line) => stt_problem(stage, described@) == Some(line@),
            None => stt_problem(stage, described@) is None,
        },
{
    match stage {
        SttStage::Create => Some(text::owned("failed to create STT component")),
        SttStage::Load => Some(text::cat2("failed to load STT model: ", described)),
        SttStage::Transcribe => Some(text::cat2("transcription failed: ", described)),
        _ => None,
    }
}

/// One word of a transcript; the confidence is a double, carried by its bits.
#[derive(Clone, Debug, Default)]
pub struct SttWord {
    pub text: String,
    pub start_ms: i64,
    pub end_ms: i64,
    pub confidence: i64,
}

/// A transcript.
#[derive(Clone, Debug, Default)]
pub struct SttResult {
    pub text: String,
    pub detected_language: String,
    pub confidence: i64,
    pub processing_time_ms: i64,
    pub words: Vec<SttWord>,
}

/// The writes for one word.
pub open spec fn word_json(w: SttWord) -> Seq<output::JsonOpView> {
    seq![
        output::begin_array_object(),
        output::field_str("text"@, w.text@),
        output::field_i64("start_ms"@, w.start_ms as int),
        output::field_i64("end_ms"@, w.end_ms as int),
        output::field_f64("confidence"@, w.confidence as int),
        output::end_object(),
    ]
}

/// The writes for the first `n` words.
pub open spec fn words_json(words: Seq<SttWord>, n: int) -> Seq<output::JsonOpView>
    decreases n,
{
    if n <= 0 {
        Seq::empty()
    } else {
        words_json(words, n - 1) + word_json(words[n - 1])
    }
}

fn put_word(json: &mut JsonWriter, w: &SttWord)
    ensures
        final(json)@ == old(json)@ + word_json(*w),
{
    json.begin_array_object();
    json.field_str("text", w.text.as_str());
    json.field_i64("start_ms", w.start_ms);
    json.field_i64("end_ms", w.end_ms);
    json.field_f64("confidence", w.confidence);
    json.end_object();
    assert(json@ =~= old(json)@ + word_json(*w));
}

/// The writes for a transcript.
pub open spec fn stt_document(model_id: Seq<char>, result: SttResult) -> Seq<output::JsonOpView> {
    seq![
        output::begin_object(),
        output::field_str("model"@, model_id),
        output::field_str("text"@, result.text@),
        output::field_str("language"@, result.detected_language@),
        output::field_f64("confidence"@, result.confidence as int),
        output::field_i64("total_ms"@, result.processing_time_ms as int),
        output::begin_array("words"@),
    ] + words_json(result.words@, result.words@.len() as int) + seq![output::end_array(), output::end_object()]
}

/// The document of a transcript.
pub fn stt_json(model_id: &str, result: &SttResult) -> (json: JsonWriter)
    ensures
        json@ == stt_document(model_id@, *result),
{
    let mut json = JsonWriter::new();
    json.begin_object();
    json.field_str("model", model_id);
    json.field_str("text", result.text.as_str());
    json.field_str("language", result.detected_language.as_str());
    json.field_f64("confidence", result.confidence);
    json.field_i64("total_ms", result.processing_time_ms);
    json.begin_array("words");
    let ghost head = json@;
    let ghost words = result.words@;
    assert(head + words_json(words, 0) =~= head);
    let mut i: usize = 0;
    while i < result.words.len()
        invariant
            i <= result.words@.len(),
            words == result.words@,
            json@ == head + words_json(words, i as int),
        decreases result.words@.len() - i,
    {
        put_word(&mut json, &result.words[i]);
        i = i + 1;
        assert(json@ =~= head + words_json(words, i as int));
    }
    json.end_array();
    json.end_object();
    assert(json@ =~= head + words_json(words, words.len() as int) + seq![output::end_array(), output::end_object()]);
    json
}

/// The lines of a transcript.
pub open spec fn stt_text(result: SttResult, verbose: bool) -> Seq<(Channel, Seq<char>)> {
    seq![output::result(result.text@)] + (if verbose {
        seq![output::status("("@ + text::dec(result.processing_time_ms as int) + " ms)"@)]
    } else {
        Seq::empty()
    })
}

/// The lines of a transcript.
pub fn stt_lines(result: &SttResult, verbose: bool) -> (r: Printed)
    ensures
        r@ == stt_text(*result, verbose),
{
    let mut printed = Printed::new();
    printed.result(text::owned(result.text.as_str()));
    if verbose {
        printed.status(text::cat3("(", text::dec_i64(result.processing_time_ms).as_str(), " ms)"));
    }
    printed
}

/// Whether the component is alive at a stage.
pub open spec fn stt_is_live(stage: SttStage) -> bool {
    stage is Load || stage is Transcribe || stage is FreeResult || stage is Destroy
}

/// How many calls a transcription can still make.
pub open spec fn stt_calls_left(stage: SttStage) -> nat {
    match stage {
        SttStage::Create => 5,
        SttStage::Load => 4,
        SttStage::Transcribe => 3,
        SttStage::FreeResult => 2,
        SttStage::Destroy(_) => 1,
        SttStage::Done(_) => 0,
    }
}

/// A component that was created is destroyed on every path, every run ends, a
/// result is freed exactly when there is one, and the exit code is 0 only after
/// a transcription that worked.
pub proof fn a_transcriber_is_always_destroyed(stage: SttStage, ok: bool)
    ensures
        stt_is_live(stage) && !(stage is Destroy) ==> stt_is_live(stt_after(stage, ok)),
        stage is Create ==> stt_is_live(stt_after(stage, ok)) == ok,
        !(stage is Done) ==> stt_calls_left(stt_after(stage, ok)) < stt_calls_left(stage),
        stt_after(stage, ok) is FreeResult <==> stage is Transcribe && ok,
        stt_after(stage, ok) == SttStage::Destroy(0) <==> stage is FreeResult,
        !(stage is Done) && !(stage is Destroy) ==> stt_after(stage, ok) != SttStage::Done(0),
{
}

/// Words are written in the order they were spoken in, each with its own times.
pub proof fn words_are_written_in_order(items: Seq<SttWord>, n: int, i: int)
    requires
        0 <= i < n <= items.len(),
    ensures
        words_json(items, n).len() == 6 * n,
        words_json(items, n)[6 * i + 1] == output::field_str("text"@, items[i].text@),
        words_json(items, n)[6 * i + 2] == output::field_i64("start_ms"@, items[i].start_ms as int),
        words_json(items, n)[6 * i + 3] == output::field_i64("end_ms"@, items[i].end_ms as int),
        words_json(items, n)[6 * i + 4] == output::field_f64("confidence"@, items[i].confidence as int),
    decreases n,
{
    if n > 1 {
        words_are_written_in_order(
            items,
            n - 1,
            if i < n - 1 {
                i
            } else {
                n - 2
            },
        );
        let (before, all) = (words_json(items, n - 1), words_json(items, n));
        if i < n - 1 {
            assert(all[6 * i + 1] == before[6 * i + 1]);
            assert(all[6 * i + 2] == before[6 * i + 2]);
            assert(all[6 * i + 3] == before[6 * i + 3]);
            assert(all[6 * i + 4] == before[6 * i + 4]);
        }
    } else {
        assert(words_json(items, 0) =~= Seq::empty());
    }
}

/// A transcript is told as it was heard, and printed as the one result.
pub proof fn a_transcript_is_told_as_it_is(model_id: Seq<char>, result: SttResult, verbose: bool)
    ensures
        ({
            let ops = stt_document(model_id, result);
            &&& ops[1] == output::field_str("model"@, model_id)
            &&& ops[2] == output::field_str("text"@, result.text@)
            &&& ops[3] == output::field_str("language"@, result.detected_language@)
            &&& ops[4] == output::field_f64("confidence"@, result.confidence as int)
            &&& ops[5] == output::field_i64("total_ms"@, result.processing_time_ms as int)
        }),
        stt_text(result, verbose)[0] == (Channel::Result, result.text@),
        verbose ==> stt_text(result, verbose)[1] == (
            Channel::Status,
            "("@ + text::dec(result.processing_time_ms as int) + " ms)"@,
        ),
        !verbose ==> stt_text(result, verbose).len() == 1,
{
}

/// Speech is transcribed once the model is loaded, and a run ends well exactly
/// where it was.
pub proof fn a_transcription_takes_its_steps(ok: bool, code: i32)
    ensures
        stt_after(SttStage::Create, true) == SttStage::Load,
        stt_after(SttStage::Load, true) == SttStage::Transcribe,
        stt_after(SttStage::Transcribe, true) == SttStage::FreeResult,
        stt_after(SttStage::FreeResult, ok) == SttStage::Destroy(0),
        stt_after(SttStage::Create, false) == SttStage::Done(1),
        stt_after(SttStage::Load, false) == SttStage::Destroy(1),
        stt_after(SttStage::Transcribe, false) == SttStage::Destroy(1),
        stt_after(SttStage::Destroy(code), ok) == SttStage::Done(code),
{
}

/// Speech is taken for the language that was named, and its language is found out
/// where none was; every other setting is as it was given.
pub proof fn a_language_is_named_or_found_out(
    language: &str,
    punctuation: bool,
    word_timestamps: bool,
    diarization: bool,
    max_speakers: i32,
    r: SttOptions,
)
    requires
        call_ensures(stt_options, (language, punctuation, word_timestamps, diarization, max_speakers), r),
    ensures
        r.detect_language <==> r.language is None,
        r.language is None <==> language@.len() == 0,
        language@.len() > 0 && text::has_no_nul(language@) ==> r.language->0@ == language@,
        r.enable_punctuation == punctuation,
        r.enable_timestamps == word_timestamps,
        r.enable_diarization == diarization,
        r.max_speakers == max_speakers,
        r.sample_rate == 16000,
{
}

/// A failure is told by the step that failed, with what the engine says of it.
pub proof fn a_failed_transcription_says_where(described: Seq<char>)
    ensures
        stt_problem(SttStage::Create, described) == Some("failed to create STT component"@),
        stt_problem(SttStage::Load, described) == Some("failed to load STT model: "@ + described),
        stt_problem(SttStage::Transcribe, described) == Some("transcription failed: "@ + described),
        stt_problem(SttStage::FreeResult, described) is None,
{
}

/// The `stt` command.
pub open spec fn stt_command() -> CommandView {
    cli::top("stt"@, "Turn recorded speech into text"@)
        .require_subcommand(0, 1)
        .option(cli::opt("audio"@, ValueType::Text, "16-bit PCM WAV file"@).check(ValidatorView::ExistingFile))
        .option(
            cli::opt("--input,-i"@, ValueType::Text, "16-bit PCM WAV file"@).check(ValidatorView::ExistingFile),
        )
        .option(
            cli::opt("--model,-m"@, ValueType::Text, "STT model to use (default: sherpa-onnx-whisper-tiny.en)"@),
        )
        .option(
            cli::opt("--language"@, ValueType::Text, "BCP-47 language of the speech (omit to auto-detect)"@),
        )
        .option(
            cli::flag(
                "--punctuation,!--no-punctuation"@,
                "Punctuate the transcript (default on)"@,
            ).default_val("true"@),
        )
        .option(
            cli::flag(
                "--word-timestamps,!--no-word-timestamps"@,
                "Report per-word timings (default on)"@,
            ).default_val("true"@),
        )
        .option(cli::flag("--diarization"@, "Attribute words to speakers"@))
        .option(cli::opt("--max-speakers"@, ValueType::Int, "Cap the speakers diarization may find"@))
        .action(Action::Stt)
}

/// Registers `stt`; its verb is an alias of it.
pub fn register_stt(app: &mut App)
    ensures
        final(app)@ == old(app)@.push(stt_command()).push(commands::verb_alias("stt"@, "transcribe"@, "Transcribe an audio file"@)),
{
    let mut cmd = Command::top("stt", "Turn recorded speech into text");
    cmd.require_subcommand(0, 1);
    cmd.add_option(Opt::value("audio", ValueType::Text, "16-bit PCM WAV file").check(Validator::ExistingFile));
    cmd.add_option(
        Opt::value("--input,-i", ValueType::Text, "16-bit PCM WAV file").check(Validator::ExistingFile),
    );
    cmd.add_option(
        Opt::value("--model,-m", ValueType::Text, "STT model to use (default: sherpa-onnx-whisper-tiny.en)"),
    );
    cmd.add_option(
        Opt::value("--language", ValueType::Text, "BCP-47 language of the speech (omit to auto-detect)"),
    );
    cmd.add_option(
        Opt::flag(
            "--punctuation,!--no-punctuation",
            "Punctuate the transcript (default on)",
        ).default_val("true"),
    );
    cmd.add_option(
        Opt::flag(
            "--word-timestamps,!--no-word-timestamps",
            "Report per-word timings (default on)",
        ).default_val("true"),
    );
    cmd.add_option(Opt::flag("--diarization", "Attribute words to speakers"));
    cmd.add_option(Opt::value("--max-speakers", ValueType::Int, "Cap the speakers diarization may find"));
    cmd.callback(Action::Stt);
    app.add(cmd);
    commands::add_verb_alias(app, "stt", "transcribe", "Transcribe an audio file");
}

} // verus!
