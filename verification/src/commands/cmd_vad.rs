//! `wally vad detect <a.wav>`: finds the speech in an audio file.
//!
//! The recording goes through the detector frame by frame; segments come from
//! the changes between speech and silence.

use crate::cli;
use crate::cli::{Action, App, Command, CommandView, Opt, Validator, ValidatorView, ValueType};
use crate::commands::opening::OpeningPlan;
use crate::commands;
use crate::engine;
use crate::output;
use crate::output::JsonWriter;
use crate::text;
use vstd::prelude::*;

verus! {

/// The rate at which speech is detected.
pub const VAD_SAMPLE_RATE: i32 = 16000;

/// The samples of one frame.
pub const VAD_FRAME_SAMPLES: usize = 512;

/// The recording and the model of a detection, or what is missing, with the
/// exit code. The positional argument comes before `--input`.
pub fn vad_plan(audio: &str, input: &str, model: &str) -> (r: Result<(String, String), (String, i32)>)
    ensures
        match r {
            Ok(plan) => (audio@.len() > 0 || input@.len() > 0) && plan.0@ == text::first_given(audio@, input@) && plan.1@
                == text::first_given(model@, "silero-vad"@),
            Err(e) => audio@.len() == 0 && input@.len() == 0 && e.0@
                == "an audio file is required (positional or --input)"@ && e.1 == 2,
        },
{
    let path = text::first_given_exec(audio, input);
    if path.as_str().is_empty() {
        return Err((text::owned("an audio file is required (positional or --input)"), 2));
    }
    Ok((path, text::first_given_exec(model, "silero-vad")))
}

/// How a detection opens: it makes one model ready, and reads its input.
pub fn vad_opening() -> (r: OpeningPlan)
    ensures
        r == (OpeningPlan { models: 1, reads: true }),
{
    OpeningPlan { models: 1, reads: true }
}

/// Whether an activation threshold is set: one of zero keeps the model's own.
/// The number is a single-precision one, carried by its bits.
pub fn sets_threshold(bits: u32) -> (r: bool)
    ensures
        r == engine::is_positive(bits),
{
    0 < bits && bits <= 0x7F80_0000
}

/// How many whole frames a recording has.
pub fn frame_count(samples: usize) -> (r: usize)
    ensures
        r == samples as int / 512,
        r * 512 <= samples < (r + 1) * 512,
{
    samples / 512
}

/// The engine call that a detection makes next.
#[derive(Clone, Copy, Debug, PartialEq, Eq, Structural)]
pub enum VadStage {
    /// Create the component.
    Create,
    /// Load the model into it.
    Load,
    /// Set the activation threshold.
    SetThreshold,
    /// Initialize the component.
    Initialize,
    /// Start it.
    Start,
    /// Process the frame of that number.
    Frame(usize),
    /// Stop it; the code to exit with.
    Stop(i32),
    /// Destroy it; the code to exit with.
    Destroy(i32),
    /// Exit with the code.
    Done(i32),
}

/// The stage after a call, which worked or not, in a detection that sets a
/// threshold or not and has so many frames.
pub open spec fn vad_after(stage: VadStage, ok: bool, threshold: bool, frames: int) -> VadStage {
    match stage {
        VadStage::Create => if ok {
            VadStage::Load
        } else {
            VadStage::Done(1)
        },
        VadStage::Load => if !ok {
            VadStage::Destroy(1)
        } else if threshold {
            VadStage::SetThreshold
        } else {
            VadStage::Initialize
        },
        VadStage::SetThreshold => if ok {
            VadStage::Initialize
        } else {
            VadStage::Destroy(2)
        },
        VadStage::Initialize => if ok {
            VadStage::Start
        } else {
            VadStage::Destroy(1)
        },
        VadStage::Start => if !ok {
            VadStage::Destroy(1)
        } else if frames > 0 {
            VadStage::Frame(0)
        } else {
            VadStage::Stop(0)
        },
        VadStage::Frame(n) => if !ok {
            VadStage::Stop(1)
        } else if n + 1 < frames {
            VadStage::Frame((n + 1) as usize)
        } else {
            VadStage::Stop(0)
        },
        VadStage::Stop(code) => VadStage::Destroy(code),
        VadStage::Destroy(code) => VadStage::Done(code),
        VadStage::Done(code) => VadStage::Done(code),
    }
}

/// `wally vad` on the engine, one call at a time; see [`vad_after`].
pub fn run_vad(stage: VadStage, ok: bool, threshold: bool, frames: usize) -> (r: VadStage)
    ensures
        r == vad_after(stage, ok, threshold, frames as int),
{
    match stage {
        VadStage::Create => if ok {
            VadStage::Load
        } else {
            VadStage::Done(1)
        },
        VadStage::Load => if !ok {
            VadStage::Destroy(1)
        } else if threshold {
            VadStage::SetThreshold
        } else {
            VadStage::Initialize
        },
        VadStage::SetThreshold => if ok {
            VadStage::Initialize
        } else {
            VadStage::Destroy(2)
        },
        VadStage::Initialize => if ok {
            VadStage::Start
        } else {
            VadStage::Destroy(1)
        },
        VadStage::Start => if !ok {
            VadStage::Destroy(1)
        } else if frames > 0 {
            VadStage::Frame(0)
        } else {
            VadStage::Stop(0)
        },
        VadStage::Frame(n) => if !ok {
            VadStage::Stop(1)
        } else if n < frames && n + 1 < frames {
            VadStage::Frame(n + 1)
        } else {
            VadStage::Stop(0)
        },
        VadStage::Stop(code) => VadStage::Destroy(code),
        VadStage::Destroy(code) => VadStage::Done(code),
        VadStage::Done(code) => VadStage::Done(code),
    }
}

/// What is said of a call that failed; `described` says what its code means.
pub open spec fn vad_problem(stage: VadStage, described: Seq<char>) -> Option<Seq<char>> {
    match stage {
        VadStage::Create => Some("failed to create VAD component"@),
        VadStage::Load => Some("failed to load VAD model: "@ + described),
        VadStage::SetThreshold => Some("invalid --activation-threshold (expected 0.0-1.0)"@),
        VadStage::Initialize | VadStage::Start => Some("failed to start VAD"@),
        VadStage::Frame(_) => Some("VAD process failed"@),
        _ => None,
    }
}

/// See [`vad_problem`].
pub fn vad_problem_exec(stage: VadStage, described: &str) -> (r: Option<String>)
    ensures
        match r {
            Some(line) => vad_problem(stage, described@) == Some(line@),
            None => vad_problem(stage, described@) is None,
        },
{
    match stage {
        VadStage::Create => Some(text::owned("failed to create VAD component")),
        VadStage::Load => Some(text::cat2("failed to load VAD model: ", described)),
        VadStage::SetThreshold => Some(text::owned("invalid --activation-threshold (expected 0.0-1.0)")),
        VadStage::Initialize | VadStage::Start => Some(text::owned("failed to start VAD")),
        VadStage::Frame(_) => Some(text::owned("VAD process failed")),
        _ => None,
    }
}

/// What is known after some frames: whether the last one was speech, the sample
/// at which the open segment started, and the segments closed so far. A segment
/// is closed by the end of the first silent frame.
pub open spec fn heard(active: Seq<bool>) -> (bool, int, Seq<(int, int)>)
    decreases active.len(),
{
    if active.len() == 0 {
        (false, 0, Seq::empty())
    } else {
        let before = heard(active.drop_last());
        let offset = (active.len() - 1) * 512;
        if active.last() && !before.0 {
            (true, offset, before.2)
        } else if !active.last() && before.0 {
            (false, before.1, before.2.push((before.1, offset + 512)))
        } else {
            before
        }
    }
}

/// The segments of a recording of `total` samples, from the sample of the first
/// frame of speech on; speech that goes on to the end lasts to the last sample.
pub open spec fn speech_segments(active: Seq<bool>, total: int) -> Seq<(int, int)> {
    let h = heard(active);
    if h.0 {
        h.2.push((h.1, total))
    } else {
        h.2
    }
}

/// Segments as numbers.
pub open spec fn segments_view(segments: Seq<(usize, usize)>) -> Seq<(int, int)> {
    segments.map_values(|s: (usize, usize)| (s.0 as int, s.1 as int))
}

/// See [`speech_segments`]: first and end sample of each segment.
pub fn vad_segments(active: &Vec<bool>, total: usize) -> (r: Vec<(usize, usize)>)
    requires
        active@.len() * 512 <= total,
    ensures
        segments_view(r@) == speech_segments(active@, total as int),
{
    let mut segments: Vec<(usize, usize)> = Vec::new();
    let mut in_speech = false;
    let mut start: usize = 0;
    let mut i: usize = 0;
    assert(active@.take(0) =~= Seq::empty());
    assert(segments_view(segments@) =~= Seq::empty());
    while i < active.len()
        invariant
            i <= active@.len(),
            active@.len() * 512 <= total,
            heard(active@.take(i as int)) == (in_speech, start as int, segments_view(segments@)),
        decreases active@.len() - i,
    {
        assert(active@.take(i + 1).drop_last() =~= active@.take(i as int));
        let ghost before = segments_view(segments@);
        let offset: usize = i * 512;
        if active[i] && !in_speech {
            in_speech = true;
            start = offset;
        } else if !active[i] && in_speech {
            in_speech = false;
            segments.push((start, offset + 512));
            assert(segments_view(segments@) =~= before.push((start as int, offset + 512)));
        }
        i = i + 1;
    }
    assert(active@.take(i as int) =~= active@);
    if in_speech {
        let ghost before = segments_view(segments@);
        segments.push((start, total));
        assert(segments_view(segments@) =~= before.push((start as int, total as int)));
    }
    segments
}

/// The writes for one segment; its times are doubles, carried by their bits.
pub open spec fn segment_json(s: (i64, i64)) -> Seq<output::JsonOpView> {
    seq![
        output::begin_array_object(),
        output::field_f64("start_s"@, s.0 as int),
        output::field_f64("end_s"@, s.1 as int),
        output::end_object(),
    ]
}

/// The writes for the first `n` segments.
pub open spec fn segments_json(segments: Seq<(i64, i64)>, n: int) -> Seq<output::JsonOpView>
    decreases n,
{
    if n <= 0 {
        Seq::empty()
    } else {
        segments_json(segments, n - 1) + segment_json(segments[n - 1])
    }
}

/// The writes for the segments.
pub open spec fn vad_document(model_id: Seq<char>, segments: Seq<(i64, i64)>) -> Seq<output::JsonOpView> {
    seq![
        output::begin_object(),
        output::field_str("model"@, model_id),
        output::begin_array("segments"@),
    ] + segments_json(segments, segments.len() as int) + seq![output::end_array(), output::end_object()]
}

/// The document of a detection, with the times of each segment in seconds.
pub fn vad_json(model_id: &str, segments: &Vec<(i64, i64)>) -> (json: JsonWriter)
    ensures
        json@ == vad_document(model_id@, segments@),
{
    let mut json = JsonWriter::new();
    json.begin_object();
    json.field_str("model", model_id);
    json.begin_array("segments");
    let ghost head = json@;
    assert(head + segments_json(segments@, 0) =~= head);
    let mut i: usize = 0;
    while i < segments.len()
        invariant
            i <= segments@.len(),
            json@ == head + segments_json(segments@, i as int),
        decreases segments@.len() - i,
    {
        let ghost before = json@;
        json.begin_array_object();
        json.field_f64("start_s", segments[i].0);
        json.field_f64("end_s", segments[i].1);
        json.end_object();
        assert(json@ =~= before + segment_json(segments@[i as int]));
        i = i + 1;
        assert(json@ =~= head + segments_json(segments@, i as int));
    }
    json.end_array();
    json.end_object();
    assert(json@ =~= head + segments_json(segments@, segments@.len() as int) + seq![
        output::end_array(),
        output::end_object(),
    ]);
    json
}

/// The columns of the table of segments.
pub fn segment_header() -> (r: Vec<String>)
    ensures
        output::strings_view(r@) == seq!["START"@, "END"@, "DURATION"@],
{
    let mut header: Vec<String> = Vec::new();
    header.push(text::owned("START"));
    header.push(text::owned("END"));
    header.push(text::owned("DURATION"));
    assert(output::strings_view(header@) =~= seq!["START"@, "END"@, "DURATION"@]);
    header
}

/// Whether the component is alive at a stage.
pub open spec fn vad_is_live(stage: VadStage) -> bool {
    !(stage is Create) && !(stage is Done)
}

/// Whether the detector is running at a stage.
pub open spec fn vad_is_running(stage: VadStage) -> bool {
    stage is Frame || stage is Stop
}

/// How many calls a detection can still make.
pub open spec fn vad_calls_left(stage: VadStage, frames: int) -> int {
    let all = if frames > 0 {
        frames
    } else {
        0
    };
    match stage {
        VadStage::Create => all + 8,
        VadStage::Load => all + 7,
        VadStage::SetThreshold => all + 6,
        VadStage::Initialize => all + 5,
        VadStage::Start => all + 4,
        VadStage::Frame(n) => if n < all {
            all - n + 2
        } else {
            3
        },
        VadStage::Stop(_) => 2,
        VadStage::Destroy(_) => 1,
        VadStage::Done(_) => 0,
    }
}

/// A detector that was created is destroyed and one that was started is stopped
/// on every path, every run ends, and the exit code is 0 only when every frame
/// was processed.
pub proof fn a_detector_is_always_released(stage: VadStage, ok: bool, threshold: bool, frames: int)
    requires
        frames <= usize::MAX,
    ensures
        vad_is_live(stage) && !(stage is Destroy) ==> vad_is_live(vad_after(stage, ok, threshold, frames)),
        vad_is_running(stage) && !(stage is Stop) ==> vad_is_running(vad_after(stage, ok, threshold, frames)),
        stage is Create ==> vad_is_live(vad_after(stage, ok, threshold, frames)) == ok,
        stage is Start ==> vad_is_running(vad_after(stage, ok, threshold, frames)) == ok,
        !(stage is Done) ==> 0 <= vad_calls_left(vad_after(stage, ok, threshold, frames), frames) < vad_calls_left(
            stage,
            frames,
        ),
        vad_after(stage, ok, threshold, frames) == VadStage::Stop(0) ==> ok && (stage == VadStage::Start && frames <= 0 || (
        stage matches VadStage::Frame(n) && n + 1 >= frames)),
{
}

proof fn heard_holds(active: Seq<bool>)
    ensures
        ({
            let h = heard(active);
            let n = active.len() as int;
            &&& active.len() > 0 ==> h.0 == active.last()
            &&& active.len() == 0 ==> !h.0
            &&& h.0 ==> 0 <= h.1 < n * 512 && h.1 % 512 == 0
            &&& forall|k: int| 0 <= k < h.2.len() ==> 0 <= (#[trigger] h.2[k]).0 < h.2[k].1 <= n * 512
            &&& forall|j: int, k: int| 0 <= j < k < h.2.len() ==> (#[trigger] h.2[j]).1 <= (#[trigger] h.2[k]).0
            &&& h.0 ==> forall|k: int| 0 <= k < h.2.len() ==> (#[trigger] h.2[k]).1 <= h.1
            &&& forall|f: int|
                0 <= f < n && #[trigger] active[f] ==> (h.0 && h.1 <= f * 512) || exists|k: int|
                    0 <= k < h.2.len() && (#[trigger] h.2[k]).0 <= f * 512 && f * 512 + 512 <= h.2[k].1
        }),
    decreases active.len(),
{
    if active.len() > 0 {
        let prev = active.drop_last();
        heard_holds(prev);
        let b = heard(prev);
        let h = heard(active);
        let n = active.len() as int;
        let offset = (n - 1) * 512;
        if !active.last() && b.0 {
            assert(h.2 == b.2.push((b.1, offset + 512)));
            assert(h.2[b.2.len() as int] == (b.1, offset + 512));
        }
        assert forall|f: int| 0 <= f < n && #[trigger] active[f] implies (h.0 && h.1 <= f * 512) || exists|k: int|
            0 <= k < h.2.len() && (#[trigger] h.2[k]).0 <= f * 512 && f * 512 + 512 <= h.2[k].1 by {
            if f < n - 1 {
                assert(prev[f]);
                if b.0 && b.1 <= f * 512 {
                    if !active.last() {
                        assert(h.2[b.2.len() as int].0 <= f * 512);
                    }
                } else {
                    let k = choose|k: int|
                        0 <= k < b.2.len() && (#[trigger] b.2[k]).0 <= f * 512 && f * 512 + 512 <= b.2[k].1;
                    assert(h.2[k] == b.2[k]);
                }
            }
        }
    }
}

/// The segments of a recording lie inside it, follow one another without
/// overlapping, and hold every frame of speech.
pub proof fn segments_hold_the_speech(active: Seq<bool>, total: int)
    requires
        active.len() * 512 <= total,
    ensures
        forall|k: int|
            0 <= k < speech_segments(active, total).len() ==> 0 <= (#[trigger] speech_segments(active, total)[k]).0
                < speech_segments(active, total)[k].1 <= total,
        forall|j: int, k: int|
            0 <= j < k < speech_segments(active, total).len() ==> (#[trigger] speech_segments(active, total)[j]).1 <= (
            #[trigger] speech_segments(active, total)[k]).0,
        forall|f: int|
            0 <= f < active.len() && #[trigger] active[f] ==> exists|k: int|
                0 <= k < speech_segments(active, total).len() && (#[trigger] speech_segments(active, total)[k]).0 <= f * 512
                    && f * 512 + 512 <= speech_segments(active, total)[k].1,
{
    heard_holds(active);
    let h = heard(active);
    let s = speech_segments(active, total);
    assert forall|f: int| 0 <= f < active.len() && #[trigger] active[f] implies exists|k: int|
        0 <= k < s.len() && (#[trigger] s[k]).0 <= f * 512 && f * 512 + 512 <= s[k].1 by {
        if h.0 && h.1 <= f * 512 {
            assert(s[h.2.len() as int] == (h.1, total));
        } else {
            let k = choose|k: int| 0 <= k < h.2.len() && (#[trigger] h.2[k]).0 <= f * 512 && f * 512 + 512 <= h.2[k].1;
            assert(s[k] == h.2[k]);
        }
    }
}

/// Whether a segment is one stretch of speech: it starts with a frame of speech
/// that no other comes right before, and goes on over frames of speech to the end
/// of the first that is none, or of the recording.
pub open spec fn is_one_stretch(active: Seq<bool>, total: int, s: (int, int), f: int, g: int) -> bool {
    &&& 0 <= f < g <= active.len()
    &&& s.0 == 512 * f
    &&& f == 0 || !active[f - 1]
    &&& forall|i: int| f <= i < g ==> #[trigger] active[i]
    &&& if g < active.len() {
        !active[g] && s.1 == 512 * g + 512
    } else {
        s.1 == total
    }
}

proof fn heard_is_in_stretches(active: Seq<bool>, total: int)
    ensures
        ({
            let h = heard(active);
            let n = active.len() as int;
            &&& h.0 ==> exists|f: int|
                0 <= f < n && h.1 == 512 * f && (f == 0 || !active[f - 1]) && #[trigger] all_speech(active, f, n)
            &&& !h.0 ==> n == 0 || !active[n - 1]
            &&& forall|k: int|
                0 <= k < h.2.len() ==> ends_in_silence(active, #[trigger] h.2[k])
        }),
    decreases active.len(),
{
    if active.len() > 0 {
        let rest = active.drop_last();
        let n = active.len() as int;
        heard_is_in_stretches(rest, total);
        let (h, b) = (heard(active), heard(rest));
        if b.0 {
            let f = choose|f: int|
                0 <= f < n - 1 && b.1 == 512 * f && (f == 0 || !rest[f - 1]) && #[trigger] all_speech(rest, f, n - 1);
            if active.last() {
                assert(all_speech(active, f, n)) by {
                    assert forall|i: int| f <= i < n implies #[trigger] active[i] by {
                        if i < n - 1 {
                            assert(rest[i]);
                        }
                    }
                }
                if f > 0 {
                    assert(active[f - 1] == rest[f - 1]);
                }
            } else {
                assert(is_closed_stretch(active, h.2.last(), f, n - 1)) by {
                    assert forall|i: int| f <= i < n - 1 implies #[trigger] active[i] by {
                        assert(rest[i]);
                    }
                    if f > 0 {
                        assert(active[f - 1] == rest[f - 1]);
                    }
                }
            }
        } else if active.last() {
            if n > 1 {
                assert(active[n - 2] == rest[n - 2]);
            }
            assert(all_speech(active, n - 1, n));
        }
        assert forall|k: int| 0 <= k < h.2.len() implies ends_in_silence(active, #[trigger] h.2[k]) by {
            if k < b.2.len() {
                assert(h.2[k] == b.2[k]);
                assert(ends_in_silence(rest, b.2[k]));
                let (f, g) = choose|f: int, g: int| #[trigger] is_closed_stretch(rest, b.2[k], f, g);
                assert(is_closed_stretch(active, h.2[k], f, g)) by {
                    assert forall|i: int| f <= i < g implies #[trigger] active[i] by {
                        assert(rest[i]);
                    }
                }
            }
        }
    }
}

spec fn all_speech(active: Seq<bool>, f: int, n: int) -> bool {
    forall|i: int| f <= i < n ==> #[trigger] active[i]
}

spec fn is_closed_stretch(active: Seq<bool>, s: (int, int), f: int, g: int) -> bool {
    &&& 0 <= f < g < active.len()
    &&& s.0 == 512 * f
    &&& f == 0 || !active[f - 1]
    &&& forall|i: int| f <= i < g ==> #[trigger] active[i]
    &&& !active[g]
    &&& s.1 == 512 * g + 512
}

spec fn ends_in_silence(active: Seq<bool>, s: (int, int)) -> bool {
    exists|f: int, g: int| #[trigger] is_closed_stretch(active, s, f, g)
}

/// Every segment is one stretch of speech, from its first frame on; silence makes
/// none.
pub proof fn each_segment_is_one_stretch(active: Seq<bool>, total: int, k: int)
    requires
        0 <= k < speech_segments(active, total).len(),
    ensures
        exists|f: int, g: int| #[trigger] is_one_stretch(active, total, speech_segments(active, total)[k], f, g),
{
    heard_is_in_stretches(active, total);
    let h = heard(active);
    let s = speech_segments(active, total);
    let n = active.len() as int;
    if k < h.2.len() {
        assert(s[k] == h.2[k]);
        assert(ends_in_silence(active, h.2[k]));
        let (f, g) = choose|f: int, g: int| #[trigger] is_closed_stretch(active, h.2[k], f, g);
        assert(is_one_stretch(active, total, s[k], f, g));
    } else {
        let f = choose|f: int|
            0 <= f < n && h.1 == 512 * f && (f == 0 || !active[f - 1]) && #[trigger] all_speech(active, f, n);
        assert(is_one_stretch(active, total, s[k], f, n));
    }
}

/// Every frame of a recording is looked at, in order, once the detector runs; it is
/// then stopped and destroyed, and the run ends well where no call failed.
pub proof fn a_detector_looks_at_every_frame(threshold: bool, frames: int, n: int, code: i32)
    requires
        0 <= n < frames <= usize::MAX,
    ensures
        vad_after(VadStage::Create, true, threshold, frames) == VadStage::Load,
        vad_after(VadStage::Load, true, true, frames) == VadStage::SetThreshold,
        vad_after(VadStage::Load, true, false, frames) == VadStage::Initialize,
        vad_after(VadStage::SetThreshold, true, threshold, frames) == VadStage::Initialize,
        vad_after(VadStage::SetThreshold, false, threshold, frames) == VadStage::Destroy(2),
        vad_after(VadStage::Initialize, true, threshold, frames) == VadStage::Start,
        vad_after(VadStage::Start, true, threshold, frames) == VadStage::Frame(0),
        vad_after(VadStage::Start, true, threshold, 0) == VadStage::Stop(0),
        n + 1 < frames ==> vad_after(VadStage::Frame(n as usize), true, threshold, frames) == VadStage::Frame(
            (n + 1) as usize,
        ),
        n + 1 == frames ==> vad_after(VadStage::Frame(n as usize), true, threshold, frames) == VadStage::Stop(0),
        vad_after(VadStage::Frame(n as usize), false, threshold, frames) == VadStage::Stop(1),
        vad_after(vad_after(VadStage::Stop(code), true, threshold, frames), true, threshold, frames) == VadStage::Done(
            code,
        ),
{
}

/// A segment is written with its start before its end, in the order of the
/// recording.
pub proof fn segments_are_written_in_order(model_id: Seq<char>, segments: Seq<(i64, i64)>, n: int, i: int)
    requires
        0 <= i < n <= segments.len(),
    ensures
        segments_json(segments, n).len() == 4 * n,
        segments_json(segments, n)[4 * i + 1] == output::field_f64("start_s"@, segments[i].0 as int),
        segments_json(segments, n)[4 * i + 2] == output::field_f64("end_s"@, segments[i].1 as int),
        vad_document(model_id, segments)[1] == output::field_str("model"@, model_id),
    decreases n,
{
    if n > 1 {
        segments_are_written_in_order(
            model_id,
            segments,
            n - 1,
            if i < n - 1 {
                i
            } else {
                n - 2
            },
        );
        let before = segments_json(segments, n - 1);
        if i < n - 1 {
            assert(segments_json(segments, n)[4 * i + 1] == before[4 * i + 1]);
            assert(segments_json(segments, n)[4 * i + 2] == before[4 * i + 2]);
        }
    } else {
        assert(segments_json(segments, 0) =~= Seq::empty());
    }
}

/// A failure is told by the step that failed, with what the engine says of it.
pub proof fn a_failed_detection_says_where(described: Seq<char>, n: usize)
    ensures
        vad_problem(VadStage::Create, described) == Some("failed to create VAD component"@),
        vad_problem(VadStage::Load, described) == Some("failed to load VAD model: "@ + described),
        vad_problem(VadStage::SetThreshold, described) == Some(
            "invalid --activation-threshold (expected 0.0-1.0)"@,
        ),
        vad_problem(VadStage::Initialize, described) == Some("failed to start VAD"@),
        vad_problem(VadStage::Start, described) == Some("failed to start VAD"@),
        vad_problem(VadStage::Frame(n), described) == Some("VAD process failed"@),
{
}

/// The `vad` command.
pub open spec fn vad_command() -> CommandView {
    cli::top("vad"@, "Find the speech in an audio file"@)
        .require_subcommand(0, 1)
        .option(cli::opt("audio"@, ValueType::Text, "16-bit PCM WAV file"@).check(ValidatorView::ExistingFile))
        .option(
            cli::opt("--input,-i"@, ValueType::Text, "16-bit PCM WAV file"@).check(ValidatorView::ExistingFile),
        )
        .option(cli::opt("--model,-m"@, ValueType::Text, "VAD model to use (default: silero-vad)"@))
        .option(
            cli::opt(
                "--activation-threshold"@,
                ValueType::Float,
                "Speech probability needed to open a segment (0 = model default)"@,
            ),
        )
        .action(Action::Vad)
}

/// Registers `vad`; its verb is an alias of it.
pub fn register_vad(app: &mut App)
    ensures
        final(app)@ == old(app)@.push(vad_command()).push(commands::verb_alias("vad"@, "detect"@, "Report speech segments with timestamps"@)),
{
    let mut cmd = Command::top("vad", "Find the speech in an audio file");
    cmd.require_subcommand(0, 1);
    cmd.add_option(Opt::value("audio", ValueType::Text, "16-bit PCM WAV file").check(Validator::ExistingFile));
    cmd.add_option(
        Opt::value("--input,-i", ValueType::Text, "16-bit PCM WAV file").check(Validator::ExistingFile),
    );
    cmd.add_option(Opt::value("--model,-m", ValueType::Text, "VAD model to use (default: silero-vad)"));
    cmd.add_option(
        Opt::value(
            "--activation-threshold",
            ValueType::Float,
            "Speech probability needed to open a segment (0 = model default)",
        ),
    );
    cmd.callback(Action::Vad);
    app.add(cmd);
    commands::add_verb_alias(app, "vad", "detect", "Report speech segments with timestamps");
}

} // verus!
