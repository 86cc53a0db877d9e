//! `wally tts synthesize`: speaks text with an on-device voice.

use crate::cli;
use crate::cli::{Action, App, Command, CommandView, Opt, ValueType};
use crate::commands::opening::OpeningPlan;
use crate::commands;
use crate::commands::cmd_stt::AudioFormat;
use crate::engine;
use crate::output;
use crate::output::Channel;
use crate::output::JsonWriter;
use crate::output::Printed;
use crate::text;
use vstd::prelude::*;

verus! {

/// The engine's synthesis options. Rate, pitch and volume are single-precision
/// numbers, carried by their bits.
#[derive(Clone, Debug)]
pub struct TtsOptions {
    /// The voice inside the model; none is the model's own.
    pub voice: Option<String>,
    pub language: String,
    pub rate: u32,
    pub pitch: u32,
    pub volume: u32,
    pub audio_format: AudioFormat,
    /// Zero is the voice's own rate.
    pub sample_rate: i32,
    pub use_ssml: bool,
}

/// The engine's own defaults.
pub fn default_tts_options() -> (r: TtsOptions)
    ensures
        r.voice is None,
        r.language@ == "en-US"@,
        r.rate == engine::ONE,
        r.pitch == engine::ONE,
        r.volume == engine::ONE,
        r.audio_format == AudioFormat::Pcm,
        r.sample_rate == 0,
        !r.use_ssml,
{
    TtsOptions {
        voice: None,
        language: text::owned("en-US"),
        rate: engine::ONE,
        pitch: engine::ONE,
        volume: engine::ONE,
        audio_format: AudioFormat::Pcm,
        sample_rate: 0,
        use_ssml: false,
    }
}

/// The options of a synthesis: a language or a rate that is not given keeps the
/// default, and so do volume, format and markup. A text goes over in its C form.
pub fn tts_options(voice: &str, language: &str, speed: u32, pitch: u32, sample_rate: i32) -> (r: TtsOptions)
    ensures
        match r.voice {
            Some(v) => voice@.len() > 0 && v@ == text::c_form(voice@),
            None => voice@.len() == 0,
        },
        r.language@ == if language@.len() > 0 {
            text::c_form(language@)
        } else {
            "en-US"@
        },
        r.rate == speed,
        r.pitch == pitch,
        r.volume == engine::ONE,
        r.audio_format == AudioFormat::Pcm,
        r.sample_rate == if sample_rate > 0 {
            sample_rate
        } else {
            0
        },
        !r.use_ssml,
{
    let mut options = default_tts_options();
    options.voice = if voice.is_empty() {
        None
    } else {
        Some(text::c_text(voice))
    };
    if !language.is_empty() {
        options.language = text::c_text(language);
    }
    options.rate = speed;
    options.pitch = pitch;
    if sample_rate > 0 {
        options.sample_rate = sample_rate;
    }
    options
}

/// The model to load: `--voice` names a voice inside the model and never selects
/// the model itself.
pub fn select_model_ref(model: &str, voice: &str) -> (r: String)
    ensures
        r@ == text::first_given(model@, "vits-piper-en_US-lessac-medium"@),
{
    text::first_given_exec(model, "vits-piper-en_US-lessac-medium")
}

/// The text to speak, or what is missing, with the exit code. The positional
/// text comes before `--text`, and a file to write is required.
pub fn tts_plan(positional: &str, flag: &str, output: &str) -> (r: Result<String, (String, i32)>)
    ensures
        match r {
            Ok(t) => t@ == text::first_given(positional@, flag@) && t@.len() > 0 && output@.len() > 0,
            Err(e) => e.1 == 2 && if positional@.len() == 0 && flag@.len() == 0 {
                e.0@ == "text to speak is required (positional or --text)"@
            } else {
                output@.len() == 0 && e.0@ == "--output is required"@
            },
        },
{
    let t = text::first_given_exec(positional, flag);
    if t.as_str().is_empty() {
        return Err((text::owned("text to speak is required (positional or --text)"), 2));
    }
    if output.is_empty() {
        return Err((text::owned("--output is required"), 2));
    }
    Ok(t)
}

/// The text that is handed over to be spoken.
pub fn spoken_text(words: &str) -> (r: String)
    ensures
        r@ == text::c_form(words@),
{
    text::c_text(words)
}

/// How a synthesis opens: it makes one model ready.
pub fn tts_opening() -> (r: OpeningPlan)
    ensures
        r == (OpeningPlan { models: 1, reads: false }),
{
    OpeningPlan { models: 1, reads: false }
}

/// The engine call, or the write, that a synthesis makes next.
#[derive(Clone, Copy, Debug, PartialEq, Eq, Structural)]
pub enum TtsStage {
    /// Create the component.
    Create,
    /// Load the voice into it.
    Load,
    /// Synthesize the text.
    Synthesize,
    /// Write the audio file, and print where it went.
    Write,
    /// Free the engine's result; the code to exit with.
    FreeResult(i32),
    /// Destroy the component; the code to exit with.
    Destroy(i32),
    /// Exit with the code.
    Done(i32),
}

/// The stage after a call, which worked or not.
pub open spec fn tts_after(stage: TtsStage, ok: bool) -> TtsStage {
    match stage {
        TtsStage::Create => if ok {
            TtsStage::Load
        } else {
            TtsStage::Done(1)
        },
        TtsStage::Load => if ok {
            TtsStage::Synthesize
        } else {
            TtsStage::Destroy(1)
        },
        TtsStage::Synthesize => if ok {
            TtsStage::Write
        } else {
            TtsStage::Destroy(1)
        },
        TtsStage::Write => TtsStage::FreeResult(
            if ok {
                0
            } else {
                1
            },
        ),
        TtsStage::FreeResult(code) => TtsStage::Destroy(code),
        TtsStage::Destroy(code) => TtsStage::Done(code),
        TtsStage::Done(code) => TtsStage::Done(code),
    }
}

/// `wally tts` on the engine, one call at a time; see [`tts_after`].
pub fn run_tts(stage: TtsStage, ok: bool) -> (r: TtsStage)
    ensures
        r == tts_after(stage, ok),
{
    match stage {
        TtsStage::Create => if ok {
            TtsStage::Load
        } else {
            TtsStage::Done(1)
        },
        TtsStage::Load => if ok {
            TtsStage::Synthesize
        } else {
            TtsStage::Destroy(1)
        },
        TtsStage::Synthesize => if ok {
            TtsStage::Write
        } else {
            TtsStage::Destroy(1)
        },
        TtsStage::Write => TtsStage::FreeResult(
            if ok {
                0
            } else {
                1
            },
        ),
        TtsStage::FreeResult(code) => TtsStage::Destroy(code),
        TtsStage::Destroy(code) => TtsStage::Done(code),
        TtsStage::Done(code) => TtsStage::Done(code),
    }
}

/// Whether a synthesis gave audio: the code is fine and there are bytes.
pub fn synthesized(rc: i32, audio_size: Option<usize>) -> (r: bool)
    ensures
        r == (rc == engine::SUCCESS && audio_size is Some && audio_size->0 != 0),
{
    match audio_size {
        Some(size) => rc == engine::SUCCESS && size != 0,
        None => false,
    }
}

/// How many samples of four bytes the audio has.
pub fn sample_count(audio_size: usize) -> (r: usize)
    ensures
        r == audio_size as int / 4,
{
    audio_size / 4
}

/// What is said of a call that failed; `message` says what its code means, or
/// why the file could not be written.
pub open spec fn tts_problem(stage: TtsStage, message: Seq<char>) -> Option<Seq<char>> {
    match stage {
        TtsStage::Create => Some("failed to create TTS component"@),
        TtsStage::Load => Some("failed to load voice: "@ + message),
        TtsStage::Synthesize => Some("synthesis failed: "@ + message),
        TtsStage::Write => Some(message),
        _ => None,
    }
}

/// See [`tts_problem`].
pub fn tts_problem_exec(stage: TtsStage, message: &str) -> (r: Option<String>)
    ensures
        match r {
            Some(line) => tts_problem(stage, message@) == Some(line@),
            None => tts_problem(stage, message@) is None,
        },
{
    match stage {
        TtsStage::Create => Some(text::owned("failed to create TTS component")),
        TtsStage::Load => Some(text::cat2("failed to load voice: ", message)),
        TtsStage::Synthesize => Some(text::cat2("synthesis failed: ", message)),
        TtsStage::Write => Some(text::owned(message)),
        _ => None,
    }
}

/// The writes for a recording.
pub open spec fn tts_document(voice: Seq<char>, path: Seq<char>, sample_rate: i32, duration_ms: i64, elapsed_ms: i64) -> Seq<output::JsonOpView> {
    seq![
        output::begin_object(),
        output::field_str("voice"@, voice),
        output::field_str("path"@, path),
        output::field_i64("sample_rate"@, sample_rate as int),
        output::field_i64("duration_ms"@, duration_ms as int),
        output::field_i64("total_ms"@, elapsed_ms as int),
        output::end_object(),
    ]
}

/// The document of a synthesis.
pub fn tts_json(voice: &str, path: &str, sample_rate: i32, duration_ms: i64, elapsed_ms: i64) -> (json: JsonWriter)
    ensures
        json@ == tts_document(voice@, path@, sample_rate, duration_ms, elapsed_ms),
{
    let mut json = JsonWriter::new();
    json.begin_object();
    json.field_str("voice", voice);
    json.field_str("path", path);
    json.field_i64("sample_rate", sample_rate as i64);
    json.field_i64("duration_ms", duration_ms);
    json.field_i64("total_ms", elapsed_ms);
    json.end_object();
    json
}

/// The lines of a recording.
pub open spec fn tts_text(path: Seq<char>, sample_rate: i32, elapsed_ms: i64, verbose: bool) -> Seq<(Channel, Seq<char>)> {
    seq![output::result(path)] + (if verbose {
        seq![
            output::status(
                "("@ + text::dec(elapsed_ms as int) + " ms, "@ + text::dec(sample_rate as int) + " Hz)"@,
            ),
        ]
    } else {
        Seq::empty()
    })
}

/// The lines of a synthesis.
pub fn tts_lines(path: &str, sample_rate: i32, elapsed_ms: i64, verbose: bool) -> (r: Printed)
    ensures
        r@ == tts_text(path@, sample_rate, elapsed_ms, verbose),
{
    let mut printed = Printed::new();
    printed.result(text::owned(path));
    if verbose {
        printed.status(
            text::cat5(
                "(",
                text::dec_i64(elapsed_ms).as_str(),
                " ms, ",
                text::dec_i64(sample_rate as i64).as_str(),
                " Hz)",
            ),
        );
    }
    printed
}

/// Whether the component is alive at a stage.
pub open spec fn tts_is_live(stage: TtsStage) -> bool {
    !(stage is Create) && !(stage is Done)
}

/// How many calls a synthesis can still make.
pub open spec fn tts_calls_left(stage: TtsStage) -> nat {
    match stage {
        TtsStage::Create => 6,
        TtsStage::Load => 5,
        TtsStage::Synthesize => 4,
        TtsStage::Write => 3,
        TtsStage::FreeResult(_) => 2,
        TtsStage::Destroy(_) => 1,
        TtsStage::Done(_) => 0,
    }
}

/// A component that was created is destroyed on every path, audio that was made
/// is freed whether or not it could be written, every run ends, and the exit
/// code is 0 only after the file was written.
pub proof fn a_synthesizer_is_always_destroyed(stage: TtsStage, ok: bool)
    ensures
        tts_is_live(stage) && !(stage is Destroy) ==> tts_is_live(tts_after(stage, ok)),
        stage is Create ==> tts_is_live(tts_after(stage, ok)) == ok,
        stage is Write ==> tts_after(stage, ok) is FreeResult,
        !(stage is Done) ==> tts_calls_left(tts_after(stage, ok)) < tts_calls_left(stage),
        tts_after(stage, ok) == TtsStage::FreeResult(0) <==> stage is Write && ok,
        tts_after(stage, ok) == TtsStage::Destroy(0) ==> stage == TtsStage::FreeResult(0),
        tts_after(stage, ok) == TtsStage::Done(0) ==> stage == TtsStage::Destroy(0) || stage == TtsStage::Done(0),
{
}

/// What was spoken is told by where it was written, with its own voice, rate and
/// times.
pub proof fn spoken_audio_is_told_as_it_is(
    voice: Seq<char>,
    path: Seq<char>,
    sample_rate: i32,
    duration_ms: i64,
    elapsed_ms: i64,
    verbose: bool,
)
    ensures
        ({
            let ops = tts_document(voice, path, sample_rate, duration_ms, elapsed_ms);
            &&& ops[1] == output::field_str("voice"@, voice)
            &&& ops[2] == output::field_str("path"@, path)
            &&& ops[3] == output::field_i64("sample_rate"@, sample_rate as int)
            &&& ops[4] == output::field_i64("duration_ms"@, duration_ms as int)
            &&& ops[5] == output::field_i64("total_ms"@, elapsed_ms as int)
        }),
        tts_text(path, sample_rate, elapsed_ms, verbose)[0] == (Channel::Result, path),
        verbose ==> tts_text(path, sample_rate, elapsed_ms, verbose)[1] == (
            Channel::Status,
            "("@ + text::dec(elapsed_ms as int) + " ms, "@ + text::dec(sample_rate as int) + " Hz)"@,
        ),
        !verbose ==> tts_text(path, sample_rate, elapsed_ms, verbose).len() == 1,
{
}

/// Text is spoken once the voice is loaded, and written once it is spoken; only
/// what was written ends a run well.
pub proof fn speaking_takes_its_steps(ok: bool, code: i32)
    ensures
        tts_after(TtsStage::Create, true) == TtsStage::Load,
        tts_after(TtsStage::Load, true) == TtsStage::Synthesize,
        tts_after(TtsStage::Synthesize, true) == TtsStage::Write,
        tts_after(TtsStage::Write, true) == TtsStage::FreeResult(0),
        tts_after(TtsStage::Write, false) == TtsStage::FreeResult(1),
        tts_after(TtsStage::Create, false) == TtsStage::Done(1),
        tts_after(TtsStage::Load, false) == TtsStage::Destroy(1),
        tts_after(TtsStage::Synthesize, false) == TtsStage::Destroy(1),
        tts_after(TtsStage::FreeResult(code), ok) == TtsStage::Destroy(code),
        tts_after(TtsStage::Destroy(code), ok) == TtsStage::Done(code),
{
}

/// A text is spoken by the voice, in the language, and at the speed and pitch that
/// were given; the rate is the voice's own where none is.
pub proof fn a_voice_speaks_as_it_was_told(
    voice: &str,
    language: &str,
    speed: u32,
    pitch: u32,
    sample_rate: i32,
    r: TtsOptions,
)
    requires
        call_ensures(tts_options, (voice, language, speed, pitch, sample_rate), r),
    ensures
        voice@.len() == 0 ==> r.voice is None,
        voice@.len() > 0 && text::has_no_nul(voice@) ==> r.voice is Some && r.voice->0@ == voice@,
        language@.len() > 0 && text::has_no_nul(language@) ==> r.language@ == language@,
        language@.len() == 0 ==> r.language@ == "en-US"@,
        r.rate == speed,
        r.pitch == pitch,
        sample_rate > 0 ==> r.sample_rate == sample_rate,
        sample_rate <= 0 ==> r.sample_rate == 0,
{
}

/// A failure is told by the step that failed, with what is known of it.
pub proof fn a_failed_synthesis_says_where(message: Seq<char>)
    ensures
        tts_problem(TtsStage::Create, message) == Some("failed to create TTS component"@),
        tts_problem(TtsStage::Load, message) == Some("failed to load voice: "@ + message),
        tts_problem(TtsStage::Synthesize, message) == Some("synthesis failed: "@ + message),
        tts_problem(TtsStage::Write, message) == Some(message),
{
}

/// The `tts` command.
pub open spec fn tts_command() -> CommandView {
    cli::top("tts"@, "Speak text with an on-device voice"@)
        .require_subcommand(0, 1)
        .option(cli::opt("TEXT"@, ValueType::Text, "Text to speak"@))
        .option(cli::opt("--text,-t"@, ValueType::Text, "Text to speak"@))
        .option(cli::opt("--output,-o"@, ValueType::Text, "WAV file to write"@))
        .option(
            cli::opt(
                "--model,-m"@,
                ValueType::Text,
                "Voice model to load (default: vits-piper-en_US-lessac-medium)"@,
            ),
        )
        .option(cli::opt("--voice"@, ValueType::Text, "Voice inside the model to speak with"@))
        .option(cli::opt("--language"@, ValueType::Text, "BCP-47 language to speak (default en-US)"@))
        .option(cli::opt("--speed"@, ValueType::Float, "Speak faster or slower than 1.0"@).default_val("1.0"@))
        .option(
            cli::opt("--pitch"@, ValueType::Float, "Raise or lower the pitch from 1.0"@).default_val("1.0"@),
        )
        .option(cli::opt("--sample-rate"@, ValueType::Int, "Output sample rate in Hz (0 = the voice's own)"@))
        .action(Action::Tts)
}

/// Registers `tts`; its verb is an alias of it.
pub fn register_tts(app: &mut App)
    ensures
        final(app)@ == old(app)@.push(tts_command()).push(commands::verb_alias("tts"@, "synthesize"@, "Write spoken audio to a WAV file"@)),
{
    let mut cmd = Command::top("tts", "Speak text with an on-device voice");
    cmd.require_subcommand(0, 1);
    cmd.add_option(Opt::value("TEXT", ValueType::Text, "Text to speak"));
    cmd.add_option(Opt::value("--text,-t", ValueType::Text, "Text to speak"));
    cmd.add_option(Opt::value("--output,-o", ValueType::Text, "WAV file to write"));
    cmd.add_option(
        Opt::value(
            "--model,-m",
            ValueType::Text,
            "Voice model to load (default: vits-piper-en_US-lessac-medium)",
        ),
    );
    cmd.add_option(Opt::value("--voice", ValueType::Text, "Voice inside the model to speak with"));
    cmd.add_option(Opt::value("--language", ValueType::Text, "BCP-47 language to speak (default en-US)"));
    cmd.add_option(
        Opt::value("--speed", ValueType::Float, "Speak faster or slower than 1.0").default_val("1.0"),
    );
    cmd.add_option(
        Opt::value("--pitch", ValueType::Float, "Raise or lower the pitch from 1.0").default_val("1.0"),
    );
    cmd.add_option(
        Opt::value("--sample-rate", ValueType::Int, "Output sample rate in Hz (0 = the voice's own)"),
    );
    cmd.callback(Action::Tts);
    app.add(cmd);
    commands::add_verb_alias(app, "tts", "synthesize", "Write spoken audio to a WAV file");
}

} // verus!
