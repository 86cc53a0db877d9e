//! `wally voice --input a.wav`: one spoken turn, from listening through
//! answering to speaking.

use crate::cli;
use crate::cli::{Action, App, Command, CommandView, Opt, Validator, ValidatorView, ValueType};
use crate::commands::opening::OpeningPlan;
use crate::engine;
use crate::output;
use crate::output::Channel;
use crate::output::JsonWriter;
use crate::output::Printed;
use crate::text;
use vstd::prelude::*;

verus! {

/// The rate at which a turn is heard.
pub const TURN_SAMPLE_RATE: i32 = 16000;

/// What the command line gives; empty where an option is not given.
#[derive(Clone, Debug, Default)]
pub struct VoiceArgs {
    pub audio: String,
    pub input: String,
    pub stt: String,
    pub llm: String,
    pub tts: String,
    pub output: String,
}

/// What a turn needs: the recording and the three models.
#[derive(Clone, Debug)]
pub struct VoicePlan {
    pub input_path: String,
    pub stt_ref: String,
    pub llm_ref: String,
    pub tts_ref: String,
}

/// The recording and the models of a turn, or what is missing, with the exit
/// code. The positional argument comes before `--input`, and each model has a
/// default.
pub fn voice_plan(args: &VoiceArgs) -> (r: Result<VoicePlan, (String, i32)>)
    ensures
        match r {
            Ok(plan) => (args.audio@.len() > 0 || args.input@.len() > 0) && plan.input_path@ == text::first_given(
                args.audio@,
                args.input@,
            ) && plan.stt_ref@ == text::first_given(args.stt@, "sherpa-onnx-whisper-tiny.en"@) && plan.llm_ref@
                == text::first_given(args.llm@, "qwen3-0.6b"@) && plan.tts_ref@ == text::first_given(
                args.tts@,
                "vits-piper-en_US-lessac-medium"@,
            ),
            Err(e) => args.audio@.len() == 0 && args.input@.len() == 0 && e.0@
                == "an audio file is required (positional or --input)"@ && e.1 == 2,
        },
{
    let input_path = text::first_given_exec(args.audio.as_str(), args.input.as_str());
    if input_path.as_str().is_empty() {
        return Err((text::owned("an audio file is required (positional or --input)"), 2));
    }
    Ok(
        VoicePlan {
            input_path,
            stt_ref: text::first_given_exec(args.stt.as_str(), "sherpa-onnx-whisper-tiny.en"),
            llm_ref: text::first_given_exec(args.llm.as_str(), "qwen3-0.6b"),
            tts_ref: text::first_given_exec(args.tts.as_str(), "vits-piper-en_US-lessac-medium"),
        },
    )
}

/// How a turn opens: it makes three models ready, and reads its input.
pub fn voice_opening() -> (r: OpeningPlan)
    ensures
        r == (OpeningPlan { models: 3, reads: true }),
{
    OpeningPlan { models: 3, reads: true }
}

/// A recording that is empty after resampling cannot be heard.
pub fn turn_audio_problem(samples: usize) -> (r: Option<String>)
    ensures
        r is Some <==> samples == 0,
        r is Some ==> r->0@ == "resampled audio is empty"@,
{
    if samples == 0 {
        Some(text::owned("resampled audio is empty"))
    } else {
        None
    }
}

/// The engine call that a turn makes next.
#[derive(Clone, Copy, Debug, PartialEq, Eq, Structural)]
pub enum VoiceStage {
    /// Create the agent.
    Create,
    /// Hand it the three models.
    Initialize,
    /// Process the turn.
    Turn,
    /// Destroy the agent, then exit with the code.
    Destroy(i32),
    /// Exit with the code.
    Done(i32),
}

/// The stage after a call, which worked or not.
pub open spec fn voice_after(stage: VoiceStage, ok: bool) -> VoiceStage {
    match stage {
        VoiceStage::Create => if ok {
            VoiceStage::Initialize
        } else {
            VoiceStage::Done(1)
        },
        VoiceStage::Initialize => if ok {
            VoiceStage::Turn
        } else {
            VoiceStage::Destroy(1)
        },
        VoiceStage::Turn => VoiceStage::Destroy(
            if ok {
                0
            } else {
                1
            },
        ),
        VoiceStage::Destroy(code) => VoiceStage::Done(code),
        VoiceStage::Done(code) => VoiceStage::Done(code),
    }
}

/// `wally voice` on the engine, one call at a time; see [`voice_after`].
pub fn run_voice(stage: VoiceStage, ok: bool) -> (r: VoiceStage)
    ensures
        r == voice_after(stage, ok),
{
    match stage {
        VoiceStage::Create => if ok {
            VoiceStage::Initialize
        } else {
            VoiceStage::Done(1)
        },
        VoiceStage::Initialize => if ok {
            VoiceStage::Turn
        } else {
            VoiceStage::Destroy(1)
        },
        VoiceStage::Turn => VoiceStage::Destroy(
            if ok {
                0
            } else {
                1
            },
        ),
        VoiceStage::Destroy(code) => VoiceStage::Done(code),
        VoiceStage::Done(code) => VoiceStage::Done(code),
    }
}

/// What is said of a call that failed.
pub open spec fn voice_problem(stage: VoiceStage, message: Seq<char>) -> Option<Seq<char>> {
    match stage {
        VoiceStage::Create => Some("failed to create voice agent: "@ + message),
        VoiceStage::Initialize => Some("voice agent init failed: "@ + message),
        VoiceStage::Turn => Some("voice turn failed: "@ + message),
        _ => None,
    }
}

/// See [`voice_problem`].
pub fn voice_problem_exec(stage: VoiceStage, message: &str) -> (r: Option<String>)
    ensures
        match r {
            Some(line) => voice_problem(stage, message@) == Some(line@),
            None => voice_problem(stage, message@) is None,
        },
{
    match stage {
        VoiceStage::Create => Some(text::cat2("failed to create voice agent: ", message)),
        VoiceStage::Initialize => Some(text::cat2("voice agent init failed: ", message)),
        VoiceStage::Turn => Some(text::cat2("voice turn failed: ", message)),
        _ => None,
    }
}

/// What a turn came to.
#[derive(Debug, Default)]
pub struct VoiceAgentResult {
    pub transcription: String,
    pub assistant_response: String,
    /// A whole WAV file, ready to be written.
    pub synthesized_audio: Vec<u8>,
}

/// The reply of a turn: the code of the call speaks before its document.
pub fn voice_turn(ok: bool, described: &str, parsed: Result<VoiceAgentResult, String>) -> (r: Result<
    VoiceAgentResult,
    String,
>)
    ensures
        engine::result_view(r) == engine::answer_outcome(ok, described@, parsed, true),
{
    engine::answer(ok, described, parsed, true)
}

/// The status line of a turn that begins.
pub fn turn_status(stt: &str, llm: &str, tts: &str) -> (r: String)
    ensures
        r@ == "processing voice turn (stt="@ + stt@ + ", llm="@ + llm@ + ", tts="@ + tts@ + ")"@,
{
    let head = text::cat4("processing voice turn (stt=", stt, ", llm=", llm);
    text::cat4(head.as_str(), ", tts=", tts, ")")
}

/// Whether the spoken reply is written to a file.
pub fn writes_reply(output: &str, result: &VoiceAgentResult) -> (r: bool)
    ensures
        r == (output@.len() > 0 && result.synthesized_audio@.len() > 0),
{
    !output.is_empty() && result.synthesized_audio.len() > 0
}

/// What is said of a reply that could not be written; the turn itself worked.
pub fn reply_warning(output: &str) -> (r: String)
    ensures
        r@ == "warning: cannot write "@ + output@,
{
    text::cat2("warning: cannot write ", output)
}

/// The writes for a turn.
pub open spec fn voice_document(result: VoiceAgentResult, reply_path: Seq<char>) -> Seq<output::JsonOpView> {
    seq![
        output::begin_object(),
        output::field_str("transcription"@, result.transcription@),
        output::field_str("response"@, result.assistant_response@),
        output::field_str("reply_audio"@, reply_path),
        output::end_object(),
    ]
}

/// The document of a turn; `reply_path` is empty where no audio was written.
pub fn voice_json(result: &VoiceAgentResult, reply_path: &str) -> (json: JsonWriter)
    ensures
        json@ == voice_document(*result, reply_path@),
{
    let mut json = JsonWriter::new();
    json.begin_object();
    json.field_str("transcription", result.transcription.as_str());
    json.field_str("response", result.assistant_response.as_str());
    json.field_str("reply_audio", reply_path);
    json.end_object();
    json
}

/// The lines of a turn.
pub open spec fn voice_text(result: VoiceAgentResult, reply_path: Seq<char>) -> Seq<(Channel, Seq<char>)> {
    seq![
        output::result("you   "@ + result.transcription@),
        output::result("agent "@ + result.assistant_response@),
    ] + (if reply_path.len() > 0 {
        seq![output::result("audio "@ + reply_path)]
    } else {
        Seq::empty()
    })
}

/// The lines of a turn.
pub fn voice_lines(result: &VoiceAgentResult, reply_path: &str) -> (r: Printed)
    ensures
        r@ == voice_text(*result, reply_path@),
{
    let mut printed = Printed::new();
    printed.result(text::cat2("you   ", result.transcription.as_str()));
    printed.result(text::cat2("agent ", result.assistant_response.as_str()));
    if !reply_path.is_empty() {
        printed.result(text::cat2("audio ", reply_path));
    }
    printed
}

/// Whether the agent is alive at a stage.
pub open spec fn agent_is_live(stage: VoiceStage) -> bool {
    stage is Initialize || stage is Turn || stage is Destroy
}

/// How many calls a turn can still make.
pub open spec fn voice_calls_left(stage: VoiceStage) -> nat {
    match stage {
        VoiceStage::Create => 4,
        VoiceStage::Initialize => 3,
        VoiceStage::Turn => 2,
        VoiceStage::Destroy(_) => 1,
        VoiceStage::Done(_) => 0,
    }
}

/// An agent that was created is destroyed on every path: only destroying it
/// ends its life, every run ends, and it exits with 0 only after a turn that
/// worked.
pub proof fn an_agent_is_always_destroyed(stage: VoiceStage, ok: bool)
    ensures
        agent_is_live(stage) && !(stage is Destroy) ==> agent_is_live(voice_after(stage, ok)),
        stage is Create ==> agent_is_live(voice_after(stage, ok)) == ok,
        !(stage is Done) ==> voice_calls_left(voice_after(stage, ok)) < voice_calls_left(stage),
        !(stage is Done) && !(stage is Destroy) && voice_after(stage, ok) == VoiceStage::Destroy(0) ==> stage is Turn && ok,
        !(stage is Done) && !(stage is Destroy) ==> voice_after(stage, ok) != VoiceStage::Done(0),
{
}

/// A turn is told with what was heard before what was answered, and where the
/// answer was written where it was.
pub proof fn a_turn_is_told_as_it_went(result: VoiceAgentResult, reply_path: Seq<char>)
    ensures
        ({
            let ops = voice_document(result, reply_path);
            &&& ops[1] == output::field_str("transcription"@, result.transcription@)
            &&& ops[2] == output::field_str("response"@, result.assistant_response@)
            &&& ops[3] == output::field_str("reply_audio"@, reply_path)
        }),
        ({
            let lines = voice_text(result, reply_path);
            &&& lines[0] == (Channel::Result, "you   "@ + result.transcription@)
            &&& lines[1] == (Channel::Result, "agent "@ + result.assistant_response@)
            &&& reply_path.len() > 0 ==> lines.len() == 3 && lines[2] == (Channel::Result, "audio "@ + reply_path)
            &&& reply_path.len() == 0 ==> lines.len() == 2
        }),
{
}

/// A turn is taken once the agent is set up, and a run ends well exactly where it
/// went well.
pub proof fn a_turn_takes_its_steps(ok: bool, code: i32)
    ensures
        voice_after(VoiceStage::Create, true) == VoiceStage::Initialize,
        voice_after(VoiceStage::Initialize, true) == VoiceStage::Turn,
        voice_after(VoiceStage::Turn, true) == VoiceStage::Destroy(0),
        voice_after(VoiceStage::Turn, false) == VoiceStage::Destroy(1),
        voice_after(VoiceStage::Create, false) == VoiceStage::Done(1),
        voice_after(VoiceStage::Initialize, false) == VoiceStage::Destroy(1),
        voice_after(VoiceStage::Destroy(code), ok) == VoiceStage::Done(code),
{
}

/// A failure is told by the step that failed, with what is known of it.
pub proof fn a_failed_turn_says_where(message: Seq<char>)
    ensures
        voice_problem(VoiceStage::Create, message) == Some("failed to create voice agent: "@ + message),
        voice_problem(VoiceStage::Initialize, message) == Some("voice agent init failed: "@ + message),
        voice_problem(VoiceStage::Turn, message) == Some("voice turn failed: "@ + message),
{
}

/// The `voice` command.
pub open spec fn voice_command() -> CommandView {
    cli::top("voice"@, "Hold one spoken turn: listen, answer, speak"@)
        .option(
            cli::opt(
                "audio"@,
                ValueType::Text,
                "16-bit PCM WAV file with the user's speech"@,
            ).check(ValidatorView::ExistingFile),
        )
        .option(
            cli::opt(
                "--input,-i"@,
                ValueType::Text,
                "16-bit PCM WAV file with the user's speech"@,
            ).check(ValidatorView::ExistingFile),
        )
        .option(
            cli::opt("--stt"@, ValueType::Text, "Transcription model (default: sherpa-onnx-whisper-tiny.en)"@),
        )
        .option(cli::opt("--llm"@, ValueType::Text, "Answering model (default: qwen3-0.6b)"@))
        .option(
            cli::opt(
                "--tts"@,
                ValueType::Text,
                "Voice that speaks the reply (default: vits-piper-en_US-lessac-medium)"@,
            ),
        )
        .option(cli::opt("--output,-o"@, ValueType::Text, "WAV file for the spoken reply"@))
        .action(Action::Voice)
}

/// Registers `voice`.
pub fn register_voice(app: &mut App)
    ensures
        final(app)@ == old(app)@.push(voice_command()),
{
    let mut cmd = Command::top("voice", "Hold one spoken turn: listen, answer, speak");
    cmd.add_option(
        Opt::value(
            "audio",
            ValueType::Text,
            "16-bit PCM WAV file with the user's speech",
        ).check(Validator::ExistingFile),
    );
    cmd.add_option(
        Opt::value(
            "--input,-i",
            ValueType::Text,
            "16-bit PCM WAV file with the user's speech",
        ).check(Validator::ExistingFile),
    );
    cmd.add_option(
        Opt::value("--stt", ValueType::Text, "Transcription model (default: sherpa-onnx-whisper-tiny.en)"),
    );
    cmd.add_option(Opt::value("--llm", ValueType::Text, "Answering model (default: qwen3-0.6b)"));
    cmd.add_option(
        Opt::value(
            "--tts",
            ValueType::Text,
            "Voice that speaks the reply (default: vits-piper-en_US-lessac-medium)",
        ),
    );
    cmd.add_option(Opt::value("--output,-o", ValueType::Text, "WAV file for the spoken reply"));
    cmd.callback(Action::Voice);
    app.add(cmd);
}

} // verus!
