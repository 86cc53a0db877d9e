//! `wally diarize <audio>`: labels who spoke when in an audio file.

use crate::cli;
use crate::cli::{Action, App, Command, CommandView, Opt, Validator, ValidatorView, ValueType};
use crate::commands::opening::OpeningPlan;
use crate::output;
use crate::output::Channel;
use crate::output::JsonWriter;
use crate::output::Printed;
use crate::text;
use vstd::prelude::*;

verus! {

/// The rate at which speakers are told apart.
pub const DIARIZATION_SAMPLE_RATE: i32 = 16000;

/// The bits of the single-precision number one half.
pub const HALF: u32 = 0x3F00_0000;

/// The engine's diarization options. The threshold is a single-precision
/// number, carried by its bits.
#[derive(Clone, Copy, Debug, PartialEq, Eq, Structural)]
pub struct DiarizationOptions {
    pub sample_rate_hz: i32,
    pub channel_count: i32,
    pub threshold: u32,
    pub minimum_duration_ms: i64,
    pub merge_gap_ms: i64,
}

/// The engine's own defaults.
pub fn default_diarization_options() -> (r: DiarizationOptions)
    ensures
        r.sample_rate_hz == 16000,
        r.channel_count == 1,
        r.threshold == HALF,
        r.minimum_duration_ms == 0,
        r.merge_gap_ms == 0,
{
    DiarizationOptions {
        sample_rate_hz: 16000,
        channel_count: 1,
        threshold: HALF,
        minimum_duration_ms: 0,
        merge_gap_ms: 0,
    }
}

/// The options of a run: what is not given keeps its default.
pub fn diarization_options(
    threshold: Option<u32>,
    minimum_duration_ms: Option<i64>,
    merge_gap_ms: Option<i64>,
) -> (r: DiarizationOptions)
    ensures
        r.sample_rate_hz == 16000,
        r.channel_count == 1,
        r.threshold == match threshold {
            Some(v) => v,
            None => HALF,
        },
        r.minimum_duration_ms == match minimum_duration_ms {
            Some(v) => v,
            None => 0,
        },
        r.merge_gap_ms == match merge_gap_ms {
            Some(v) => v,
            None => 0,
        },
{
    let mut options = default_diarization_options();
    if let Some(v) = threshold {
        options.threshold = v;
    }
    if let Some(v) = minimum_duration_ms {
        options.minimum_duration_ms = v;
    }
    if let Some(v) = merge_gap_ms {
        options.merge_gap_ms = v;
    }
    options
}

/// Why a run without a model is refused, with the exit code.
pub fn diarize_model_problem(model: &str) -> (r: Option<(String, i32)>)
    ensures
        r is Some <==> model@.len() == 0,
        r is Some ==> (r->0).0@ == "--model is required (a diarization model id or on-disk path)"@ && (r->0).1 == 2,
{
    if model.is_empty() {
        Some((text::owned("--model is required (a diarization model id or on-disk path)"), 2))
    } else {
        None
    }
}

/// How a diarization opens: it makes one model ready, and reads its input.
pub fn diarize_opening() -> (r: OpeningPlan)
    ensures
        r == (OpeningPlan { models: 1, reads: true }),
{
    OpeningPlan { models: 1, reads: true }
}

/// A recording without samples cannot be labelled.
pub fn diarize_audio_problem(samples: usize, path: &str) -> (r: Option<String>)
    ensures
        r is Some <==> samples == 0,
        r is Some ==> r->0@ == "no audio samples in "@ + path@,
{
    if samples == 0 {
        Some(text::cat2("no audio samples in ", path))
    } else {
        None
    }
}

/// The engine call that a diarization makes next.
#[derive(Clone, Copy, Debug, PartialEq, Eq, Structural)]
pub enum DiarizeStage {
    /// Create the service.
    Create,
    /// Load the model into it.
    Initialize,
    /// Label the recording, and print what came back.
    Diarize,
    /// Free the engine's result; the code to exit with.
    FreeResult(i32),
    /// Clean the service up; the code to exit with.
    Cleanup(i32),
    /// Destroy the service; the code to exit with.
    Destroy(i32),
    /// Exit with the code.
    Done(i32),
}

/// The stage after a call, which worked or not. A result is freed whether or not
/// the labelling worked: it may hold a part.
pub open spec fn diarize_after(stage: DiarizeStage, ok: bool) -> DiarizeStage {
    match stage {
        DiarizeStage::Create => if ok {
            DiarizeStage::Initialize
        } else {
            DiarizeStage::Done(1)
        },
        DiarizeStage::Initialize => if ok {
            DiarizeStage::Diarize
        } else {
            DiarizeStage::Destroy(1)
        },
        DiarizeStage::Diarize => DiarizeStage::FreeResult(
            if ok {
                0
            } else {
                1
            },
        ),
        DiarizeStage::FreeResult(code) => DiarizeStage::Cleanup(code),
        DiarizeStage::Cleanup(code) => DiarizeStage::Destroy(code),
        DiarizeStage::Destroy(code) => DiarizeStage::Done(code),
        DiarizeStage::Done(code) => DiarizeStage::Done(code),
    }
}

/// `wally diarize` on the engine, one call at a time; see [`diarize_after`].
pub fn run_diarize(stage: DiarizeStage, ok: bool) -> (r: DiarizeStage)
    ensures
        r == diarize_after(stage, ok),
{
    match stage {
        DiarizeStage::Create => if ok {
            DiarizeStage::Initialize
        } else {
            DiarizeStage::Done(1)
        },
        DiarizeStage::Initialize => if ok {
            DiarizeStage::Diarize
        } else {
            DiarizeStage::Destroy(1)
        },
        DiarizeStage::Diarize => DiarizeStage::FreeResult(
            if ok {
                0
            } else {
                1
            },
        ),
        DiarizeStage::FreeResult(code) => DiarizeStage::Cleanup(code),
        DiarizeStage::Cleanup(code) => DiarizeStage::Destroy(code),
        DiarizeStage::Destroy(code) => DiarizeStage::Done(code),
        DiarizeStage::Done(code) => DiarizeStage::Done(code),
    }
}

/// What is said of a call that failed; `described` says what its code means.
pub open spec fn diarize_problem(stage: DiarizeStage, described: Seq<char>) -> Option<Seq<char>> {
    match stage {
        DiarizeStage::Create => Some("failed to create diarization service: "@ + described),
        DiarizeStage::Initialize => Some("failed to load diarization model: "@ + described),
        DiarizeStage::Diarize => Some("diarization failed: "@ + described),
        _ => None,
    }
}

/// See [`diarize_problem`].
pub fn diarize_problem_exec(stage: DiarizeStage, described: &str) -> (r: Option<String>)
    ensures
        match r {
            Some(line) => diarize_problem(stage, described@) == Some(line@),
            None => diarize_problem(stage, described@) is None,
        },
{
    match stage {
        DiarizeStage::Create => Some(text::cat2("failed to create diarization service: ", described)),
        DiarizeStage::Initialize => Some(text::cat2("failed to load diarization model: ", described)),
        DiarizeStage::Diarize => Some(text::cat2("diarization failed: ", described)),
        _ => None,
    }
}

/// A stretch of one speaker; a speaker without a name goes by a number.
#[derive(Clone, Debug, Default)]
pub struct SpeakerSegment {
    pub speaker_id: Option<String>,
    pub speaker_index: i32,
    pub start_ms: i64,
    pub end_ms: i64,
}

/// What a diarization came to.
#[derive(Clone, Debug, Default)]
pub struct DiarizationResult {
    pub model_id: Option<String>,
    pub speaker_count: i32,
    pub segment_count: usize,
    pub audio_duration_ms: i64,
    pub processing_time_ms: i64,
    pub segments: Vec<SpeakerSegment>,
}

/// A text that the engine may leave out.
pub open spec fn or_else(t: Option<String>, other: Seq<char>) -> Seq<char> {
    match t {
        Some(s) => s@,
        None => other,
    }
}

fn or_else_exec(t: &Option<String>, other: &str) -> (r: String)
    ensures
        r@ == or_else(*t, other@),
{
    match t {
        Some(s) => text::owned(s.as_str()),
        None => text::owned(other),
    }
}

/// The writes for one stretch.
pub open spec fn speaker_json(s: SpeakerSegment) -> Seq<output::JsonOpView> {
    seq![
        output::begin_array_object(),
        output::field_str("speaker"@, or_else(s.speaker_id, Seq::empty())),
        output::field_i64("speaker_index"@, s.speaker_index as int),
        output::field_i64("start_ms"@, s.start_ms as int),
        output::field_i64("end_ms"@, s.end_ms as int),
        output::end_object(),
    ]
}

/// The writes for the first `n` stretches.
pub open spec fn speakers_json(segments: Seq<SpeakerSegment>, n: int) -> Seq<output::JsonOpView>
    decreases n,
{
    if n <= 0 {
        Seq::empty()
    } else {
        speakers_json(segments, n - 1) + speaker_json(segments[n - 1])
    }
}

fn put_speaker(json: &mut JsonWriter, s: &SpeakerSegment)
    ensures
        final(json)@ == old(json)@ + speaker_json(*s),
{
    let none = String::new();
    json.begin_array_object();
    json.field_str("speaker", or_else_exec(&s.speaker_id, none.as_str()).as_str());
    json.field_i64("speaker_index", s.speaker_index as i64);
    json.field_i64("start_ms", s.start_ms);
    json.field_i64("end_ms", s.end_ms);
    json.end_object();
    assert(json@ =~= old(json)@ + speaker_json(*s));
}

/// The writes for the speakers.
pub open spec fn diarize_document(model_ref: Seq<char>, result: DiarizationResult) -> Seq<output::JsonOpView> {
    seq![
        output::begin_object(),
        output::field_str("model"@, or_else(result.model_id, model_ref)),
        output::field_i64("speaker_count"@, result.speaker_count as int),
        output::field_i64("segment_count"@, (result.segment_count as i64) as int),
        output::field_i64("audio_duration_ms"@, result.audio_duration_ms as int),
        output::field_i64("processing_time_ms"@, result.processing_time_ms as int),
        output::begin_array("segments"@),
    ] + speakers_json(result.segments@, result.segments@.len() as int) + seq![
        output::end_array(),
        output::end_object(),
    ]
}

/// The document of a diarization; a result that names no model goes by the one
/// that was asked for.
pub fn diarize_json(model_ref: &str, result: &DiarizationResult) -> (json: JsonWriter)
    ensures
        json@ == diarize_document(model_ref@, *result),
{
    let mut json = JsonWriter::new();
    json.begin_object();
    json.field_str("model", or_else_exec(&result.model_id, model_ref).as_str());
    json.field_i64("speaker_count", result.speaker_count as i64);
    json.field_i64("segment_count", result.segment_count as i64);
    json.field_i64("audio_duration_ms", result.audio_duration_ms);
    json.field_i64("processing_time_ms", result.processing_time_ms);
    json.begin_array("segments");
    let ghost head = json@;
    let ghost all = result.segments@;
    assert(head + speakers_json(all, 0) =~= head);
    let mut i: usize = 0;
    while i < result.segments.len()
        invariant
            i <= result.segments@.len(),
            all == result.segments@,
            json@ == head + speakers_json(all, i as int),
        decreases result.segments@.len() - i,
    {
        put_speaker(&mut json, &result.segments[i]);
        i = i + 1;
        assert(json@ =~= head + speakers_json(all, i as int));
    }
    json.end_array();
    json.end_object();
    assert(json@ =~= head + speakers_json(all, all.len() as int) + seq![output::end_array(), output::end_object()]);
    json
}

/// The cells of one stretch.
pub open spec fn speaker_cells(s: SpeakerSegment) -> Seq<Seq<char>> {
    seq![
        or_else(s.speaker_id, text::dec(s.speaker_index as int)),
        text::dec(s.start_ms as int) + " ms"@,
        text::dec(s.end_ms as int) + " ms"@,
        text::dec(s.end_ms - s.start_ms) + " ms"@,
    ]
}

/// See [`speaker_cells`]. The length of the stretch has to be a number.
pub fn speaker_row(s: &SpeakerSegment) -> (r: Vec<String>)
    requires
        i64::MIN <= s.end_ms - s.start_ms <= i64::MAX,
    ensures
        output::strings_view(r@) == speaker_cells(*s),
{
    let mut row: Vec<String> = Vec::new();
    row.push(or_else_exec(&s.speaker_id, text::dec_i64(s.speaker_index as i64).as_str()));
    row.push(text::cat2(text::dec_i64(s.start_ms).as_str(), " ms"));
    row.push(text::cat2(text::dec_i64(s.end_ms).as_str(), " ms"));
    row.push(text::cat2(text::dec_i64(s.end_ms - s.start_ms).as_str(), " ms"));
    assert(output::strings_view(row@) =~= speaker_cells(*s));
    row
}

/// The columns of the table of stretches.
pub fn speaker_header() -> (r: Vec<String>)
    ensures
        output::strings_view(r@) == seq!["speaker"@, "start"@, "end"@, "duration"@],
{
    let mut header: Vec<String> = Vec::new();
    header.push(text::owned("speaker"));
    header.push(text::owned("start"));
    header.push(text::owned("end"));
    header.push(text::owned("duration"));
    assert(output::strings_view(header@) =~= seq!["speaker"@, "start"@, "end"@, "duration"@]);
    header
}

/// What follows the table in a verbose run.
pub open spec fn count_text(result: DiarizationResult, verbose: bool) -> Seq<(Channel, Seq<char>)> {
    if verbose {
        seq![
            output::status(
                "("@ + text::dec(result.speaker_count as int) + " speakers, "@ + text::dec(
                    result.processing_time_ms as int,
                ) + " ms)"@,
            ),
        ]
    } else {
        Seq::empty()
    }
}

/// What follows the table in a verbose run.
pub fn diarize_status(result: &DiarizationResult, verbose: bool) -> (r: Printed)
    ensures
        r@ == count_text(*result, verbose),
{
    let mut printed = Printed::new();
    if verbose {
        printed.status(
            text::cat5(
                "(",
                text::dec_i64(result.speaker_count as i64).as_str(),
                " speakers, ",
                text::dec_i64(result.processing_time_ms).as_str(),
                " ms)",
            ),
        );
    }
    printed
}

/// Whether the service is alive at a stage.
pub open spec fn diarize_is_live(stage: DiarizeStage) -> bool {
    !(stage is Create) && !(stage is Done)
}

/// How many calls a diarization can still make.
pub open spec fn diarize_calls_left(stage: DiarizeStage) -> nat {
    match stage {
        DiarizeStage::Create => 6,
        DiarizeStage::Initialize => 5,
        DiarizeStage::Diarize => 4,
        DiarizeStage::FreeResult(_) => 3,
        DiarizeStage::Cleanup(_) => 2,
        DiarizeStage::Destroy(_) => 1,
        DiarizeStage::Done(_) => 0,
    }
}

/// A service that was created is destroyed on every path, one that was loaded is
/// cleaned up first and its result freed, every run ends, and the exit code is 0
/// only after a labelling that worked.
pub proof fn a_diarizer_is_always_destroyed(stage: DiarizeStage, ok: bool)
    ensures
        diarize_is_live(stage) && !(stage is Destroy) ==> diarize_is_live(diarize_after(stage, ok)),
        stage is Create ==> diarize_is_live(diarize_after(stage, ok)) == ok,
        stage is Diarize ==> diarize_after(stage, ok) is FreeResult,
        !(stage is Done) ==> diarize_calls_left(diarize_after(stage, ok)) < diarize_calls_left(stage),
        diarize_after(stage, ok) == DiarizeStage::FreeResult(0) <==> stage is Diarize && ok,
        diarize_after(stage, ok) == DiarizeStage::Destroy(0) ==> stage == DiarizeStage::Cleanup(0),
        diarize_after(stage, ok) == DiarizeStage::Done(0) ==> stage == DiarizeStage::Destroy(0) || stage
            == DiarizeStage::Done(0),
{
}

/// Who spoke is written in the order of the recording, each with their own times.
pub proof fn speakers_are_written_in_order(items: Seq<SpeakerSegment>, n: int, i: int)
    requires
        0 <= i < n <= items.len(),
    ensures
        speakers_json(items, n).len() == 6 * n,
        speakers_json(items, n)[6 * i + 2] == output::field_i64("speaker_index"@, items[i].speaker_index as int),
        speakers_json(items, n)[6 * i + 3] == output::field_i64("start_ms"@, items[i].start_ms as int),
        speakers_json(items, n)[6 * i + 4] == output::field_i64("end_ms"@, items[i].end_ms as int),
    decreases n,
{
    if n > 1 {
        speakers_are_written_in_order(
            items,
            n - 1,
            if i < n - 1 {
                i
            } else {
                n - 2
            },
        );
        let (before, all) = (speakers_json(items, n - 1), speakers_json(items, n));
        if i < n - 1 {
            assert(all[6 * i + 2] == before[6 * i + 2]);
            assert(all[6 * i + 3] == before[6 * i + 3]);
            assert(all[6 * i + 4] == before[6 * i + 4]);
        }
    } else {
        assert(speakers_json(items, 0) =~= Seq::empty());
    }
}

/// Who spoke is told by name, or by number where there is none, with the start, the
/// end and how long it took; a recording with its own counts and times.
pub proof fn a_speaker_is_told_as_it_is(model_ref: Seq<char>, result: DiarizationResult, s: SpeakerSegment)
    ensures
        ({
            let cells = speaker_cells(s);
            &&& cells.len() == 4
            &&& s.speaker_id is Some ==> cells[0] == s.speaker_id->0@ && speaker_json(s)[1] == output::field_str(
                "speaker"@,
                s.speaker_id->0@,
            )
            &&& s.speaker_id is None ==> cells[0] == text::dec(s.speaker_index as int)
            &&& cells[1] == text::dec(s.start_ms as int) + " ms"@
            &&& cells[2] == text::dec(s.end_ms as int) + " ms"@
            &&& cells[3] == text::dec(s.end_ms - s.start_ms) + " ms"@
        }),
        ({
            let ops = diarize_document(model_ref, result);
            &&& result.model_id is Some ==> ops[1] == output::field_str("model"@, result.model_id->0@)
            &&& result.model_id is None ==> ops[1] == output::field_str("model"@, model_ref)
            &&& ops[2] == output::field_i64("speaker_count"@, result.speaker_count as int)
            &&& result.segment_count <= i64::MAX ==> ops[3] == output::field_i64(
                "segment_count"@,
                result.segment_count as int,
            )
            &&& ops[4] == output::field_i64("audio_duration_ms"@, result.audio_duration_ms as int)
            &&& ops[5] == output::field_i64("processing_time_ms"@, result.processing_time_ms as int)
        }),
{
}

/// A recording is gone through once the model is loaded, and a run ends well exactly
/// where that went well.
pub proof fn a_diarization_takes_its_steps(ok: bool, code: i32)
    ensures
        diarize_after(DiarizeStage::Create, true) == DiarizeStage::Initialize,
        diarize_after(DiarizeStage::Initialize, true) == DiarizeStage::Diarize,
        diarize_after(DiarizeStage::Diarize, true) == DiarizeStage::FreeResult(0),
        diarize_after(DiarizeStage::Diarize, false) == DiarizeStage::FreeResult(1),
        diarize_after(DiarizeStage::Create, false) == DiarizeStage::Done(1),
        diarize_after(DiarizeStage::Initialize, false) == DiarizeStage::Destroy(1),
        diarize_after(DiarizeStage::FreeResult(code), ok) == DiarizeStage::Cleanup(code),
        diarize_after(DiarizeStage::Cleanup(code), ok) == DiarizeStage::Destroy(code),
        diarize_after(DiarizeStage::Destroy(code), ok) == DiarizeStage::Done(code),
{
}

/// Each setting is the one that was given under its name.
pub proof fn settings_are_as_given(threshold: Option<u32>, minimum: Option<i64>, gap: Option<i64>, r: DiarizationOptions)
    requires
        call_ensures(diarization_options, (threshold, minimum, gap), r),
    ensures
        threshold is Some ==> r.threshold == threshold->0,
        minimum is Some ==> r.minimum_duration_ms == minimum->0,
        minimum is None ==> r.minimum_duration_ms == 0,
        gap is Some ==> r.merge_gap_ms == gap->0,
        gap is None ==> r.merge_gap_ms == 0,
        r.sample_rate_hz == 16000,
        r.channel_count == 1,
{
}

/// A failure is told by the step that failed, with what the engine says of it; a
/// verbose run counts the speakers.
pub proof fn a_failed_diarization_says_where(described: Seq<char>, result: DiarizationResult)
    ensures
        diarize_problem(DiarizeStage::Create, described) == Some(
            "failed to create diarization service: "@ + described,
        ),
        diarize_problem(DiarizeStage::Initialize, described) == Some(
            "failed to load diarization model: "@ + described,
        ),
        diarize_problem(DiarizeStage::Diarize, described) == Some("diarization failed: "@ + described),
        count_text(result, true) == seq![
            (
                Channel::Status,
                "("@ + text::dec(result.speaker_count as int) + " speakers, "@ + text::dec(
                    result.processing_time_ms as int,
                ) + " ms)"@,
            ),
        ],
        count_text(result, false).len() == 0,
{
}

/// The `diarize` command.
pub open spec fn diarize_command() -> CommandView {
    cli::top("diarize"@, "Label who spoke when in an audio file"@)
        .option(
            cli::opt(
                "audio"@,
                ValueType::Text,
                "16-bit PCM WAV file"@,
            ).required().check(ValidatorView::ExistingFile),
        )
        .option(cli::opt("--model,-m"@, ValueType::Text, "Diarization model id or on-disk path"@).required())
        .option(
            cli::opt(
                "--threshold"@,
                ValueType::Float,
                "Speaker activity needed to open a segment, in [0,1] (default 0.5)"@,
            ),
        )
        .option(
            cli::opt(
                "--minimum-duration-ms,--min-duration"@,
                ValueType::Int64,
                "Drop segments shorter than this many ms (default 0)"@,
            ),
        )
        .option(
            cli::opt(
                "--merge-gap-ms,--merge-gap"@,
                ValueType::Int64,
                "Merge same-speaker segments closer than this many ms (default 0)"@,
            ),
        )
        .action(Action::Diarize)
}

/// Registers `diarize`.
pub fn register_diarize(app: &mut App)
    ensures
        final(app)@ == old(app)@.push(diarize_command()),
{
    let mut cmd = Command::top("diarize", "Label who spoke when in an audio file");
    cmd.add_option(
        Opt::value("audio", ValueType::Text, "16-bit PCM WAV file").required().check(Validator::ExistingFile),
    );
    cmd.add_option(
        Opt::value("--model,-m", ValueType::Text, "Diarization model id or on-disk path").required(),
    );
    cmd.add_option(
        Opt::value(
            "--threshold",
            ValueType::Float,
            "Speaker activity needed to open a segment, in [0,1] (default 0.5)",
        ),
    );
    cmd.add_option(
        Opt::value(
            "--minimum-duration-ms,--min-duration",
            ValueType::Int64,
            "Drop segments shorter than this many ms (default 0)",
        ),
    );
    cmd.add_option(
        Opt::value(
            "--merge-gap-ms,--merge-gap",
            ValueType::Int64,
            "Merge same-speaker segments closer than this many ms (default 0)",
        ),
    );
    cmd.callback(Action::Diarize);
    app.add(cmd);
}

} // verus!
