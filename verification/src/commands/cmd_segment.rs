//! `wally segment <image>`: labels every pixel of an image by class.

use crate::cli;
use crate::cli::{Action, App, Command, CommandView, Opt, Validator, ValidatorView, ValueType};
use crate::commands::opening::OpeningPlan;
use crate::output;
use crate::output::Channel;
use crate::output::JsonWriter;
use crate::output::Printed;
use crate::text;
use vstd::prelude::*;

verus! {

/// Why a run without a model is refused, with the exit code.
pub fn segment_model_problem(model: &str) -> (r: Option<(String, i32)>)
    ensures
        r is Some <==> model@.len() == 0,
        r is Some ==> (r->0).0@ == "--model is required (a segmentation model id or on-disk path)"@ && (r->0).1 == 2,
{
    if model.is_empty() {
        Some((text::owned("--model is required (a segmentation model id or on-disk path)"), 2))
    } else {
        None
    }
}

/// How a segmentation opens: it makes one model ready, and reads its input.
pub fn segment_opening() -> (r: OpeningPlan)
    ensures
        r == (OpeningPlan { models: 1, reads: true }),
{
    OpeningPlan { models: 1, reads: true }
}

/// A path that cannot be handed over to the engine, with the exit code.
pub fn segment_path_problem(model_path: &str) -> (r: Option<(String, i32)>)
    ensures
        r is Some <==> !text::has_no_nul(model_path@),
        r is Some ==> (r->0).0@ == "model path contains a NUL byte"@ && (r->0).1 == 1,
{
    if text::has_no_nul_exec(model_path) {
        None
    } else {
        Some((text::owned("model path contains a NUL byte"), 1))
    }
}

/// The bytes of one row of an image with three bytes to a pixel.
pub fn stride_bytes(width: u32) -> (r: u64)
    ensures
        r == width * 3,
{
    width as u64 * 3
}

/// What the engine is asked to label: an image of three bytes to a pixel, row by
/// row.
#[derive(Clone, Copy, Debug, PartialEq, Eq, Structural)]
pub struct SegmentRequest {
    pub width: u32,
    pub height: u32,
    pub stride_bytes: u64,
    /// Whether the overlay of the mask is wanted too.
    pub include_diagnostic_rgba: bool,
}

/// The request for an image of that size. The overlay is asked for if and only if
/// there is a file to write it to.
pub fn segment_request(width: u32, height: u32, diagnostic_path: &str) -> (r: SegmentRequest)
    ensures
        r == (SegmentRequest {
            width,
            height,
            stride_bytes: (width * 3) as u64,
            include_diagnostic_rgba: diagnostic_path@.len() > 0,
        }),
{
    SegmentRequest {
        width,
        height,
        stride_bytes: stride_bytes(width),
        include_diagnostic_rgba: !diagnostic_path.is_empty(),
    }
}

/// What a run does with the overlay of the mask.
#[derive(Clone, Copy, Debug, PartialEq, Eq, Structural)]
pub enum Overlay {
    /// None is asked for.
    Unwanted,
    /// One is asked for, and the engine gave none.
    Missing,
    /// Write it.
    Write,
}

/// What becomes of the overlay: `size` is that of the image which the engine
/// gave, if it gave one.
pub fn overlay(diagnostic_path: &str, size: Option<usize>) -> (r: Overlay)
    ensures
        r == if diagnostic_path@.len() == 0 {
            Overlay::Unwanted
        } else if size is None || size->0 == 0 {
            Overlay::Missing
        } else {
            Overlay::Write
        },
{
    if diagnostic_path.is_empty() {
        return Overlay::Unwanted;
    }
    match size {
        Some(n) => if n == 0 {
            Overlay::Missing
        } else {
            Overlay::Write
        },
        None => Overlay::Missing,
    }
}

/// The status line for an overlay that is missing.
pub fn overlay_warning(o: Overlay) -> (r: Option<String>)
    ensures
        r is Some <==> o == Overlay::Missing,
        r is Some ==> r->0@ == "warning: engine returned no diagnostic image"@,
{
    match o {
        Overlay::Missing => Some(text::owned("warning: engine returned no diagnostic image")),
        _ => None,
    }
}

/// The engine call, or the write, that a segmentation makes next.
#[derive(Clone, Copy, Debug, PartialEq, Eq, Structural)]
pub enum SegmentStage {
    /// Create the service.
    Create,
    /// Load the model into it.
    Initialize,
    /// Label the image, and print what came back.
    Segment,
    /// Write the overlay.
    Write,
    /// Free the engine's result; the code to exit with.
    FreeResult(i32),
    /// Clean the service up; the code to exit with.
    Cleanup(i32),
    /// Destroy the service; the code to exit with.
    Destroy(i32),
    /// Exit with the code.
    Done(i32),
}

/// The stage after a call, which worked or not; `writes` tells whether there is
/// an overlay to write.
pub open spec fn segment_after(stage: SegmentStage, ok: bool, writes: bool) -> SegmentStage {
    match stage {
        SegmentStage::Create => if ok {
            SegmentStage::Initialize
        } else {
            SegmentStage::Done(1)
        },
        SegmentStage::Initialize => if ok {
            SegmentStage::Segment
        } else {
            SegmentStage::Destroy(1)
        },
        SegmentStage::Segment => if !ok {
            SegmentStage::FreeResult(1)
        } else if writes {
            SegmentStage::Write
        } else {
            SegmentStage::FreeResult(0)
        },
        SegmentStage::Write => SegmentStage::FreeResult(
            if ok {
                0
            } else {
                1
            },
        ),
        SegmentStage::FreeResult(code) => SegmentStage::Cleanup(code),
        SegmentStage::Cleanup(code) => SegmentStage::Destroy(code),
        SegmentStage::Destroy(code) => SegmentStage::Done(code),
        SegmentStage::Done(code) => SegmentStage::Done(code),
    }
}

/// `wally segment` on the engine, one call at a time; see [`segment_after`].
pub fn run_segment(stage: SegmentStage, ok: bool, writes: bool) -> (r: SegmentStage)
    ensures
        r == segment_after(stage, ok, writes),
{
    match stage {
        SegmentStage::Create => if ok {
            SegmentStage::Initialize
        } else {
            SegmentStage::Done(1)
        },
        SegmentStage::Initialize => if ok {
            SegmentStage::Segment
        } else {
            SegmentStage::Destroy(1)
        },
        SegmentStage::Segment => if !ok {
            SegmentStage::FreeResult(1)
        } else if writes {
            SegmentStage::Write
        } else {
            SegmentStage::FreeResult(0)
        },
        SegmentStage::Write => SegmentStage::FreeResult(
            if ok {
                0
            } else {
                1
            },
        ),
        SegmentStage::FreeResult(code) => SegmentStage::Cleanup(code),
        SegmentStage::Cleanup(code) => SegmentStage::Destroy(code),
        SegmentStage::Destroy(code) => SegmentStage::Done(code),
        SegmentStage::Done(code) => SegmentStage::Done(code),
    }
}

/// What is said of a call that failed; `message` says what its code means, or
/// why the overlay could not be written to its path.
pub open spec fn segment_problem(stage: SegmentStage, message: Seq<char>, path: Seq<char>) -> Option<Seq<char>> {
    match stage {
        SegmentStage::Create => Some("failed to create segmentation service: "@ + message),
        SegmentStage::Initialize => Some("failed to load segmentation model: "@ + message),
        SegmentStage::Segment => Some("segmentation failed: "@ + message),
        SegmentStage::Write => Some("failed to write "@ + path + ": "@ + message),
        _ => None,
    }
}

/// See [`segment_problem`].
pub fn segment_problem_exec(stage: SegmentStage, message: &str, path: &str) -> (r: Option<String>)
    ensures
        match r {
            Some(line) => segment_problem(stage, message@, path@) == Some(line@),
            None => segment_problem(stage, message@, path@) is None,
        },
{
    match stage {
        SegmentStage::Create => Some(text::cat2("failed to create segmentation service: ", message)),
        SegmentStage::Initialize => Some(text::cat2("failed to load segmentation model: ", message)),
        SegmentStage::Segment => Some(text::cat2("segmentation failed: ", message)),
        SegmentStage::Write => Some(text::cat4("failed to write ", path, ": ", message)),
        _ => None,
    }
}

/// How much of an image belongs to a class. The fraction is a double, carried by
/// its bits; `coverage` is its percentage as text.
#[derive(Clone, Debug, Default)]
pub struct ClassSummary {
    pub class_id: u32,
    pub label: String,
    pub pixel_count: u64,
    pub fraction: i64,
    pub coverage: String,
}

/// What a segmentation came to. A result that names no model goes by the one
/// that was asked for.
#[derive(Clone, Debug, Default)]
pub struct SegmentationResult {
    pub model_id: Option<String>,
    pub width: u32,
    pub height: u32,
    pub processing_time_ms: i64,
    pub classes: Vec<ClassSummary>,
}

/// The writes for one class.
pub open spec fn class_json(c: ClassSummary) -> Seq<output::JsonOpView> {
    seq![
        output::begin_array_object(),
        output::field_i64("class_id"@, c.class_id as int),
        output::field_str("label"@, c.label@),
        output::field_i64("pixel_count"@, (c.pixel_count as i64) as int),
        output::field_f64("fraction"@, c.fraction as int),
        output::end_object(),
    ]
}

/// The writes for the first `n` classes.
pub open spec fn classes_json(classes: Seq<ClassSummary>, n: int) -> Seq<output::JsonOpView>
    decreases n,
{
    if n <= 0 {
        Seq::empty()
    } else {
        classes_json(classes, n - 1) + class_json(classes[n - 1])
    }
}

fn put_class(json: &mut JsonWriter, c: &ClassSummary)
    ensures
        final(json)@ == old(json)@ + class_json(*c),
{
    json.begin_array_object();
    json.field_i64("class_id", c.class_id as i64);
    json.field_str("label", c.label.as_str());
    json.field_i64("pixel_count", c.pixel_count as i64);
    json.field_f64("fraction", c.fraction);
    json.end_object();
    assert(json@ =~= old(json)@ + class_json(*c));
}

/// The writes for the classes.
pub open spec fn segment_document(model_ref: Seq<char>, result: SegmentationResult) -> Seq<output::JsonOpView> {
    seq![
        output::begin_object(),
        output::field_str(
            "model"@,
            match result.model_id {
                Some(id) => id@,
                None => model_ref,
            },
        ),
        output::field_i64("width"@, result.width as int),
        output::field_i64("height"@, result.height as int),
        output::field_i64("class_count"@, (result.classes.len() as i64) as int),
        output::field_i64("processing_time_ms"@, result.processing_time_ms as int),
        output::begin_array("classes"@),
    ] + classes_json(result.classes@, result.classes@.len() as int) + seq![
        output::end_array(),
        output::end_object(),
    ]
}

/// The document of a segmentation.
pub fn segment_json(model_ref: &str, result: &SegmentationResult) -> (json: JsonWriter)
    ensures
        json@ == segment_document(model_ref@, *result),
{
    let mut json = JsonWriter::new();
    json.begin_object();
    match &result.model_id {
        Some(id) => json.field_str("model", id.as_str()),
        None => json.field_str("model", model_ref),
    }
    json.field_i64("width", result.width as i64);
    json.field_i64("height", result.height as i64);
    json.field_i64("class_count", result.classes.len() as i64);
    json.field_i64("processing_time_ms", result.processing_time_ms);
    json.begin_array("classes");
    let ghost head = json@;
    let ghost all = result.classes@;
    assert(head + classes_json(all, 0) =~= head);
    let mut i: usize = 0;
    while i < result.classes.len()
        invariant
            i <= result.classes@.len(),
            all == result.classes@,
            json@ == head + classes_json(all, i as int),
        decreases result.classes@.len() - i,
    {
        put_class(&mut json, &result.classes[i]);
        i = i + 1;
        assert(json@ =~= head + classes_json(all, i as int));
    }
    json.end_array();
    json.end_object();
    assert(json@ =~= head + classes_json(all, all.len() as int) + seq![output::end_array(), output::end_object()]);
    json
}

/// The lines above the classes.
pub open spec fn size_text(result: SegmentationResult) -> Seq<(Channel, Seq<char>)> {
    seq![
        output::result("size\t"@ + text::dec(result.width as int) + "x"@ + text::dec(result.height as int)),
    ] + (if result.classes@.len() == 0 {
        seq![output::result("(no classes)"@)]
    } else {
        Seq::empty()
    })
}

/// The lines before the table: the size of the image, and what stands in place
/// of a table without classes.
pub fn segment_lines(result: &SegmentationResult) -> (r: Printed)
    ensures
        r@ == size_text(*result),
{
    let mut printed = Printed::new();
    printed.result(
        text::cat4(
            "size\t",
            text::dec_i64(result.width as i64).as_str(),
            "x",
            text::dec_i64(result.height as i64).as_str(),
        ),
    );
    if result.classes.len() == 0 {
        printed.result(text::owned("(no classes)"));
    }
    printed
}

/// The columns of the table of classes.
pub fn class_header() -> (r: Vec<String>)
    ensures
        output::strings_view(r@) == seq!["class_id"@, "label"@, "pixels"@, "coverage"@],
{
    let mut header: Vec<String> = Vec::new();
    header.push(text::owned("class_id"));
    header.push(text::owned("label"));
    header.push(text::owned("pixels"));
    header.push(text::owned("coverage"));
    assert(output::strings_view(header@) =~= seq!["class_id"@, "label"@, "pixels"@, "coverage"@]);
    header
}

/// The cells of one class.
pub open spec fn class_cells(c: ClassSummary) -> Seq<Seq<char>> {
    seq![text::dec(c.class_id as int), c.label@, text::dec(c.pixel_count as int), c.coverage@]
}

/// See [`class_cells`].
pub fn class_row(c: &ClassSummary) -> (r: Vec<String>)
    ensures
        output::strings_view(r@) == class_cells(*c),
{
    let mut row: Vec<String> = Vec::new();
    row.push(text::dec_i64(c.class_id as i64));
    row.push(text::owned(c.label.as_str()));
    row.push(text::dec_u128(c.pixel_count as u128));
    row.push(text::owned(c.coverage.as_str()));
    assert(output::strings_view(row@) =~= seq![
        text::dec(c.class_id as int),
        c.label@,
        text::dec(c.pixel_count as int),
        c.coverage@,
    ]);
    row
}

/// What follows the classes in a verbose run.
pub open spec fn time_text(result: SegmentationResult, verbose: bool) -> Seq<(Channel, Seq<char>)> {
    if verbose {
        seq![output::status("("@ + text::dec(result.processing_time_ms as int) + " ms)"@)]
    } else {
        Seq::empty()
    }
}

/// What follows the table in a verbose run.
pub fn segment_status(result: &SegmentationResult, verbose: bool) -> (r: Printed)
    ensures
        r@ == time_text(*result, verbose),
{
    let mut printed = Printed::new();
    if verbose {
        printed.status(text::cat3("(", text::dec_i64(result.processing_time_ms).as_str(), " ms)"));
    }
    printed
}

/// Whether the service is alive at a stage.
pub open spec fn segment_is_live(stage: SegmentStage) -> bool {
    !(stage is Create) && !(stage is Done)
}

/// How many calls a segmentation can still make.
pub open spec fn segment_calls_left(stage: SegmentStage) -> nat {
    match stage {
        SegmentStage::Create => 7,
        SegmentStage::Initialize => 6,
        SegmentStage::Segment => 5,
        SegmentStage::Write => 4,
        SegmentStage::FreeResult(_) => 3,
        SegmentStage::Cleanup(_) => 2,
        SegmentStage::Destroy(_) => 1,
        SegmentStage::Done(_) => 0,
    }
}

/// A service that was created is destroyed on every path, one that ran is freed
/// of its result and cleaned up first, every run ends, and the exit code is 0
/// only when the image was labelled and the overlay, where there is one, was
/// written.
pub proof fn a_segmenter_is_always_destroyed(stage: SegmentStage, ok: bool, writes: bool)
    ensures
        segment_is_live(stage) && !(stage is Destroy) ==> segment_is_live(segment_after(stage, ok, writes)),
        stage is Create ==> segment_is_live(segment_after(stage, ok, writes)) == ok,
        !(stage is Done) ==> segment_calls_left(segment_after(stage, ok, writes)) < segment_calls_left(stage),
        segment_after(stage, ok, writes) == SegmentStage::FreeResult(0) <==> ok && (stage is Write || stage is Segment
            && !writes),
        segment_after(stage, ok, writes) == SegmentStage::Destroy(0) ==> stage == SegmentStage::Cleanup(0),
        segment_after(stage, ok, writes) == SegmentStage::Done(0) ==> stage == SegmentStage::Destroy(0) || stage
            == SegmentStage::Done(0),
{
}

/// Classes are written in their order, each with its own id, label and share.
pub proof fn classes_are_written_in_order(items: Seq<ClassSummary>, n: int, i: int)
    requires
        0 <= i < n <= items.len(),
    ensures
        classes_json(items, n).len() == 6 * n,
        classes_json(items, n)[6 * i + 1] == output::field_i64("class_id"@, items[i].class_id as int),
        classes_json(items, n)[6 * i + 2] == output::field_str("label"@, items[i].label@),
        classes_json(items, n)[6 * i + 3] == output::field_i64("pixel_count"@, (items[i].pixel_count as i64) as int),
        classes_json(items, n)[6 * i + 4] == output::field_f64("fraction"@, items[i].fraction as int),
    decreases n,
{
    if n > 1 {
        classes_are_written_in_order(
            items,
            n - 1,
            if i < n - 1 {
                i
            } else {
                n - 2
            },
        );
        let (before, all) = (classes_json(items, n - 1), classes_json(items, n));
        if i < n - 1 {
            assert(all[6 * i + 1] == before[6 * i + 1]);
            assert(all[6 * i + 2] == before[6 * i + 2]);
            assert(all[6 * i + 3] == before[6 * i + 3]);
            assert(all[6 * i + 4] == before[6 * i + 4]);
        }
    } else {
        assert(classes_json(items, 0) =~= Seq::empty());
    }
}

/// A segmented image is told with its own size and model, and each class under the
/// headings of the table.
pub proof fn a_segmentation_is_told_as_it_is(model_ref: Seq<char>, result: SegmentationResult, c: ClassSummary)
    ensures
        ({
            let ops = segment_document(model_ref, result);
            &&& result.model_id is Some ==> ops[1] == output::field_str("model"@, result.model_id->0@)
            &&& result.model_id is None ==> ops[1] == output::field_str("model"@, model_ref)
            &&& ops[2] == output::field_i64("width"@, result.width as int)
            &&& ops[3] == output::field_i64("height"@, result.height as int)
            &&& result.classes@.len() <= i64::MAX ==> ops[4] == output::field_i64(
                "class_count"@,
                result.classes@.len() as int,
            )
            &&& ops[5] == output::field_i64("processing_time_ms"@, result.processing_time_ms as int)
        }),
        size_text(result)[0] == (
            Channel::Result,
            "size\t"@ + text::dec(result.width as int) + "x"@ + text::dec(result.height as int),
        ),
        class_cells(c).len() == 4,
        class_cells(c)[0] == text::dec(c.class_id as int),
        class_cells(c)[1] == c.label@,
        class_cells(c)[2] == text::dec(c.pixel_count as int),
        class_cells(c)[3] == c.coverage@,
{
}

/// An image is segmented once the model is loaded; its overlay is written where it
/// is wanted, and a run ends well exactly where nothing failed.
pub proof fn a_segmentation_takes_its_steps(ok: bool, writes: bool, code: i32)
    ensures
        segment_after(SegmentStage::Create, true, writes) == SegmentStage::Initialize,
        segment_after(SegmentStage::Initialize, true, writes) == SegmentStage::Segment,
        segment_after(SegmentStage::Segment, true, true) == SegmentStage::Write,
        segment_after(SegmentStage::Segment, true, false) == SegmentStage::FreeResult(0),
        segment_after(SegmentStage::Segment, false, writes) == SegmentStage::FreeResult(1),
        segment_after(SegmentStage::Write, true, writes) == SegmentStage::FreeResult(0),
        segment_after(SegmentStage::Write, false, writes) == SegmentStage::FreeResult(1),
        segment_after(SegmentStage::Create, false, writes) == SegmentStage::Done(1),
        segment_after(SegmentStage::Initialize, false, writes) == SegmentStage::Destroy(1),
        segment_after(SegmentStage::FreeResult(code), ok, writes) == SegmentStage::Cleanup(code),
        segment_after(SegmentStage::Cleanup(code), ok, writes) == SegmentStage::Destroy(code),
        segment_after(SegmentStage::Destroy(code), ok, writes) == SegmentStage::Done(code),
{
}

/// A failure is told by the step that failed, with what is known of it; one to
/// write also by where.
pub proof fn a_failed_segmentation_says_where(message: Seq<char>, path: Seq<char>, result: SegmentationResult)
    ensures
        segment_problem(SegmentStage::Create, message, path) == Some(
            "failed to create segmentation service: "@ + message,
        ),
        segment_problem(SegmentStage::Initialize, message, path) == Some(
            "failed to load segmentation model: "@ + message,
        ),
        segment_problem(SegmentStage::Segment, message, path) == Some("segmentation failed: "@ + message),
        segment_problem(SegmentStage::Write, message, path) == Some("failed to write "@ + path + ": "@ + message),
        time_text(result, true) == seq![
            (Channel::Status, "("@ + text::dec(result.processing_time_ms as int) + " ms)"@),
        ],
        time_text(result, false).len() == 0,
{
}

/// The `segment` command.
pub open spec fn segment_command() -> CommandView {
    cli::top("segment"@, "Label every pixel of an image by class"@)
        .option(
            cli::opt(
                "image"@,
                ValueType::Text,
                "Input image (binary PPM / P6)"@,
            ).required().check(ValidatorView::ExistingFile),
        )
        .option(cli::opt("--model,-m"@, ValueType::Text, "Segmentation model id or on-disk path"@).required())
        .option(
            cli::opt("--diagnostic-image"@, ValueType::Text, "Also write the colored mask overlay to this PNG"@),
        )
        .action(Action::Segment)
}

/// Registers `segment`.
pub fn register_segment(app: &mut App)
    ensures
        final(app)@ == old(app)@.push(segment_command()),
{
    let mut cmd = Command::top("segment", "Label every pixel of an image by class");
    cmd.add_option(
        Opt::value(
            "image",
            ValueType::Text,
            "Input image (binary PPM / P6)",
        ).required().check(Validator::ExistingFile),
    );
    cmd.add_option(
        Opt::value("--model,-m", ValueType::Text, "Segmentation model id or on-disk path").required(),
    );
    cmd.add_option(
        Opt::value("--diagnostic-image", ValueType::Text, "Also write the colored mask overlay to this PNG"),
    );
    cmd.callback(Action::Segment);
    app.add(cmd);
}

} // verus!
