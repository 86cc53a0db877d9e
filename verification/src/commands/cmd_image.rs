//! `wally image generate`: makes images from text, on Apple's Neural Engine.

use crate::cli;
use crate::cli::{Action, App, Command, CommandView, Opt, ValueType};
use crate::commands::cmd_run::ModelLoadResult;
use crate::commands::engine_options::ResolveOptions;
use crate::engine;
use crate::engine::{InferenceFramework, ModelCategory, ModelFormat, ModelInfo};
use crate::output;
use crate::output::Channel;
use crate::output::JsonWriter;
use crate::output::Printed;
use crate::text;
use vstd::prelude::*;

verus! {

/// Why an image cannot be made, with the exit code: a build without the engine
/// cannot make any, and a prompt and an output file are required.
pub fn run_image_generate(neurt: bool, prompt: &str, out_path: &str) -> (r: Option<(String, i32)>)
    ensures
        match r {
            None => neurt && prompt@.len() > 0 && out_path@.len() > 0,
            Some(e) => if !neurt {
                e.0@ == "image generation (diffusion) requires NeuRT (Apple Neural Engine)"@ && e.1 == 1
            } else if prompt@.len() == 0 {
                e.0@ == "--prompt is required"@ && e.1 == 2
            } else {
                out_path@.len() == 0 && e.0@ == "--out is required"@ && e.1 == 2
            },
        },
{
    if !neurt {
        return Some((text::owned("image generation (diffusion) requires NeuRT (Apple Neural Engine)"), 1));
    }
    if prompt.is_empty() {
        return Some((text::owned("--prompt is required"), 2));
    }
    if out_path.is_empty() {
        return Some((text::owned("--out is required"), 2));
    }
    None
}

/// What the making of an image does next.
#[derive(Clone, Copy, Debug, PartialEq, Eq, Structural)]
pub enum ImageStage {
    /// Start the engine.
    Start,
    /// See that an image can be made; see [`run_image_generate`].
    Usage,
    /// Register the local bundle, or resolve the model reference.
    Source,
    /// Load the model.
    Load,
    /// Draw.
    Generate,
    /// Write the file, and show where it went.
    Write,
    /// It is over, with this exit code.
    Finished(i32),
}

/// The stage after one that worked or not; `code` is the exit code that
/// [`run_image_generate`] refuses a command line with. Everything else that fails
/// exits with 1.
pub open spec fn image_after(stage: ImageStage, ok: bool, code: i32) -> ImageStage {
    match stage {
        ImageStage::Start => if ok {
            ImageStage::Usage
        } else {
            ImageStage::Finished(1)
        },
        ImageStage::Usage => if ok {
            ImageStage::Source
        } else {
            ImageStage::Finished(code)
        },
        ImageStage::Source => if ok {
            ImageStage::Load
        } else {
            ImageStage::Finished(1)
        },
        ImageStage::Load => if ok {
            ImageStage::Generate
        } else {
            ImageStage::Finished(1)
        },
        ImageStage::Generate => if ok {
            ImageStage::Write
        } else {
            ImageStage::Finished(1)
        },
        ImageStage::Write => if ok {
            ImageStage::Finished(0)
        } else {
            ImageStage::Finished(1)
        },
        ImageStage::Finished(c) => ImageStage::Finished(c),
    }
}

/// See [`image_after`].
pub fn run_image(stage: ImageStage, ok: bool, code: i32) -> (r: ImageStage)
    ensures
        r == image_after(stage, ok, code),
{
    match stage {
        ImageStage::Start => if ok {
            ImageStage::Usage
        } else {
            ImageStage::Finished(1)
        },
        ImageStage::Usage => if ok {
            ImageStage::Source
        } else {
            ImageStage::Finished(code)
        },
        ImageStage::Source => if ok {
            ImageStage::Load
        } else {
            ImageStage::Finished(1)
        },
        ImageStage::Load => if ok {
            ImageStage::Generate
        } else {
            ImageStage::Finished(1)
        },
        ImageStage::Generate => if ok {
            ImageStage::Write
        } else {
            ImageStage::Finished(1)
        },
        ImageStage::Write => if ok {
            ImageStage::Finished(0)
        } else {
            ImageStage::Finished(1)
        },
        ImageStage::Finished(c) => ImageStage::Finished(c),
    }
}

/// Where the model of an image comes from.
#[derive(Clone, Copy, Debug, PartialEq, Eq, Structural)]
pub enum DiffusionSource {
    /// A bundle on disk, which is registered as it is.
    LocalBundle,
    /// The catalog, the registry or a URL, narrowed by the options.
    Resolve(ResolveOptions),
}

/// A model that names something on disk is a local bundle; anything else is
/// resolved, as a Core ML model for images.
pub fn diffusion_source(path_exists: bool) -> (r: DiffusionSource)
    ensures
        r == if path_exists {
            DiffusionSource::LocalBundle
        } else {
            DiffusionSource::Resolve(
                ResolveOptions {
                    has_framework: true,
                    framework: InferenceFramework::Coreml,
                    has_category: true,
                    category: ModelCategory::ImageGeneration,
                },
            )
        },
{
    if path_exists {
        DiffusionSource::LocalBundle
    } else {
        DiffusionSource::Resolve(
            ResolveOptions {
                has_framework: true,
                framework: InferenceFramework::Coreml,
                has_category: true,
                category: ModelCategory::ImageGeneration,
            },
        )
    }
}

/// Whether a load first makes sure that the model is there: a bundle on disk is.
pub fn validates_availability(source: DiffusionSource) -> (r: bool)
    ensures
        r == (source != DiffusionSource::LocalBundle),
{
    match source {
        DiffusionSource::LocalBundle => false,
        DiffusionSource::Resolve(_) => true,
    }
}

/// Where a model comes from.
#[derive(Clone, Copy, Debug, PartialEq, Eq, Structural)]
pub enum ModelSource {
    Local,
}

/// The entry that a local bundle is registered under: what is not named here is
/// empty.
pub fn local_bundle(path: &str) -> (r: (ModelInfo, ModelSource))
    ensures
        r.0.id@ == "local-diffusion-coreml"@,
        r.0.name@ == "Local CoreML Diffusion"@,
        r.0.category == Some(ModelCategory::ImageGeneration),
        r.0.framework == Some(InferenceFramework::Coreml),
        r.0.format == Some(ModelFormat::Mlpackage),
        r.0.local_path@ == path@,
        r.0.registry_status is None,
        r.0.download_url@.len() == 0,
        r.0.download_size_bytes == 0,
        r.0.context_length == 0,
        !r.0.supports_thinking,
        r.0.files is None,
        r.1 == ModelSource::Local,
{
    (
        ModelInfo {
            id: text::owned("local-diffusion-coreml"),
            name: text::owned("Local CoreML Diffusion"),
            category: Some(ModelCategory::ImageGeneration),
            framework: Some(InferenceFramework::Coreml),
            format: Some(ModelFormat::Mlpackage),
            registry_status: None,
            download_url: String::new(),
            local_path: text::owned(path),
            download_size_bytes: 0,
            context_length: 0,
            supports_thinking: false,
            files: None,
        },
        ModelSource::Local,
    )
}

/// What registering a local bundle, as [`local_bundle`] has it, came to: its id,
/// or the error line.
pub fn register_local_bundle(ok: bool, described: &str) -> (r: Result<String, String>)
    ensures
        ok ==> r is Ok && r->Ok_0@ == "local-diffusion-coreml"@,
        !ok ==> r is Err && r->Err_0@ == "failed to register local model: "@ + described@,
{
    if ok {
        Ok(text::owned("local-diffusion-coreml"))
    } else {
        Err(text::cat2("failed to register local model: ", described))
    }
}

/// What loading the model came to: the path that was loaded, or the error line.
/// A bad code with a readable document leaves no detail to show.
pub fn load_diffusion_model(ok: bool, parsed: Result<ModelLoadResult, String>) -> (r: Result<String, String>)
    ensures
        match engine::answer_outcome(ok, Seq::empty(), parsed, false) {
            Ok(loaded) => match engine::report_outcome(loaded.error) {
                Ok(_) => r is Ok && r->Ok_0@ == loaded.resolved_path@,
                Err(message) => r is Err && r->Err_0@ == "diffusion model load failed: "@ + message,
            },
            Err(message) => r is Err && r->Err_0@ == "diffusion model load failed: "@ + message,
        },
{
    let none = String::new();
    match engine::answer(ok, none.as_str(), parsed, false) {
        Ok(loaded) => match engine::outcome_of(&loaded.error) {
            Ok(_) => Ok(loaded.resolved_path),
            Err(message) => Err(text::cat2("diffusion model load failed: ", message.as_str())),
        },
        Err(message) => Err(text::cat2("diffusion model load failed: ", message.as_str())),
    }
}

/// What the engine is asked to draw; what is not set is the model's own. The
/// guidance is a single-precision number, carried by its bits.
#[derive(Clone, Debug)]
pub struct DiffusionOptions {
    pub prompt: String,
    pub negative_prompt: Option<String>,
    pub steps: Option<i32>,
    pub guidance_scale: Option<u32>,
    pub seed: i64,
}

/// The options that the command line asks for. `guidance_is_set` tells whether
/// the guidance, before it is made single, is above zero.
pub fn diffusion_options(
    prompt: &str,
    negative_prompt: &str,
    steps: i32,
    guidance: u32,
    guidance_is_set: bool,
    seed: i64,
) -> (r: DiffusionOptions)
    ensures
        r.prompt@ == prompt@,
        match r.negative_prompt {
            Some(n) => negative_prompt@.len() > 0 && n@ == negative_prompt@,
            None => negative_prompt@.len() == 0,
        },
        r.steps == if steps > 0 {
            Some(steps)
        } else {
            None
        },
        r.guidance_scale == if guidance_is_set {
            Some(guidance)
        } else {
            None
        },
        r.seed == seed,
{
    DiffusionOptions {
        prompt: text::owned(prompt),
        negative_prompt: if negative_prompt.is_empty() {
            None
        } else {
            Some(text::owned(negative_prompt))
        },
        steps: if steps > 0 {
            Some(steps)
        } else {
            None
        },
        guidance_scale: if guidance_is_set {
            Some(guidance)
        } else {
            None
        },
        seed,
    }
}

/// An image to draw.
#[derive(Clone, Debug)]
pub struct DiffusionRequest {
    pub model_id: String,
    pub options: DiffusionOptions,
}

/// The drawing that is asked of a loaded model.
pub fn diffusion_request(model_id: &str, options: DiffusionOptions) -> (r: DiffusionRequest)
    ensures
        r.model_id@ == model_id@,
        r.options == options,
{
    DiffusionRequest { model_id: text::owned(model_id), options }
}

/// One image that was made.
#[derive(Clone, Debug, Default)]
pub struct DiffusionImage {
    pub data: Vec<u8>,
    pub media_type: String,
    pub width: i32,
    pub height: i32,
    pub seed_used: i64,
}

/// The images that were made, and how long they took.
#[derive(Clone, Debug, Default)]
pub struct DiffusionResult {
    pub images: Vec<DiffusionImage>,
    pub total_time_ms: i64,
}

/// The reply of a generation: images, of which there is at least one, or the
/// error line.
pub fn run_image_generate_body(ok: bool, parsed: Result<DiffusionResult, String>) -> (r: Result<DiffusionResult, String>)
    ensures
        match engine::answer_outcome(ok, Seq::empty(), parsed, false) {
            Ok(result) => if result.images@.len() > 0 {
                r == Ok::<DiffusionResult, String>(result)
            } else {
                r is Err && r->Err_0@ == "image generation failed: engine returned no image"@
            },
            Err(message) => r is Err && r->Err_0@ == "image generation failed: "@ + message,
        },
{
    let none = String::new();
    match engine::answer(ok, none.as_str(), parsed, false) {
        Ok(result) => if result.images.len() > 0 {
            Ok(result)
        } else {
            Err(text::owned("image generation failed: engine returned no image"))
        },
        Err(message) => Err(text::cat2("image generation failed: ", message.as_str())),
    }
}

/// How an image goes to its file.
#[derive(Clone, Copy, Debug, PartialEq, Eq, Structural)]
pub enum ImageEncoding {
    /// Raw pixels of four bytes, which are encoded.
    Png,
    /// An encoded image, which is written as it is.
    Verbatim,
}

/// Whether an image is raw pixels: its type says so, or its length is that of
/// its pixels.
pub open spec fn is_raw_rgba(image: DiffusionImage) -> bool {
    image.media_type@ == "image/raw-rgba"@ || (image.width > 0 && image.height > 0 && image.data@.len() == image.width
        * image.height * 4)
}

/// Whether an image has as many bytes as its width and height say, four to a
/// pixel; a negative size says nothing.
pub open spec fn fits_its_size(image: DiffusionImage) -> bool {
    image.width >= 0 && image.height >= 0 && image.data@.len() == image.width * image.height * 4
}

/// How an image is written, or what is wrong with it. Raw pixels have to be as
/// many as width and height say.
pub fn write_image(image: &DiffusionImage) -> (r: Result<ImageEncoding, String>)
    ensures
        match r {
            Ok(encoding) => image.data@.len() > 0 && encoding == (if is_raw_rgba(*image) {
                ImageEncoding::Png
            } else {
                ImageEncoding::Verbatim
            }) && (encoding == ImageEncoding::Png ==> fits_its_size(*image)),
            Err(message) => if image.data@.len() == 0 {
                message@ == "engine returned no image data"@
            } else {
                is_raw_rgba(*image) && !fits_its_size(*image) && message@ == "raw RGBA buffer length does not match width*height*4"@
            },
        },
{
    if image.data.len() == 0 {
        return Err(text::owned("engine returned no image data"));
    }
    let named_raw = text::str_eq(image.media_type.as_str(), "image/raw-rgba");
    if image.width < 0 || image.height < 0 {
        return if named_raw {
            Err(text::owned("raw RGBA buffer length does not match width*height*4"))
        } else {
            Ok(ImageEncoding::Verbatim)
        };
    }
    if named_raw || (image.width > 0 && image.height > 0) {
        let w: u64 = image.width as u64;
        let h: u64 = image.height as u64;
        assert(w * h * 4 <= 0x7FFF_FFFF * 0x7FFF_FFFF * 4) by (nonlinear_arith)
            requires
                w <= 0x7FFF_FFFF,
                h <= 0x7FFF_FFFF,
        ;
        assert(w * h <= 0x7FFF_FFFF * 0x7FFF_FFFF) by (nonlinear_arith)
            requires
                w <= 0x7FFF_FFFF,
                h <= 0x7FFF_FFFF,
        ;
        let matches_size = image.data.len() as u64 == w * h * 4;
        if matches_size {
            return Ok(ImageEncoding::Png);
        }
        if named_raw {
            return Err(text::owned("raw RGBA buffer length does not match width*height*4"));
        }
    }
    Ok(ImageEncoding::Verbatim)
}

/// What is said of an image that could not be written.
pub fn image_problem(message: &str) -> (r: String)
    ensures
        r@ == "failed to write image: "@ + message@,
{
    text::cat2("failed to write image: ", message)
}

/// The writes for an image.
pub open spec fn image_document(model_id: Seq<char>, out_path: Seq<char>, image: DiffusionImage, total_ms: i64) -> Seq<output::JsonOpView> {
    seq![
        output::begin_object(),
        output::field_str("model"@, model_id),
        output::field_str("output"@, out_path),
        output::field_i64("width"@, image.width as int),
        output::field_i64("height"@, image.height as int),
        output::field_i64("seed"@, image.seed_used as int),
        output::field_i64("total_ms"@, total_ms as int),
        output::end_object(),
    ]
}

/// The document of an image.
pub fn image_json(model_id: &str, out_path: &str, image: &DiffusionImage, total_ms: i64) -> (json: JsonWriter)
    ensures
        json@ == image_document(model_id@, out_path@, *image, total_ms),
{
    let mut json = JsonWriter::new();
    json.begin_object();
    json.field_str("model", model_id);
    json.field_str("output", out_path);
    json.field_i64("width", image.width as i64);
    json.field_i64("height", image.height as i64);
    json.field_i64("seed", image.seed_used);
    json.field_i64("total_ms", total_ms);
    json.end_object();
    json
}

/// The lines of an image.
pub open spec fn image_text(out_path: Seq<char>, image: DiffusionImage, total_ms: i64, verbose: bool) -> Seq<(Channel, Seq<char>)> {
    seq![output::result(out_path)] + (if verbose {
        seq![
            output::status(
                "("@ + text::dec(image.width as int) + "x"@ + text::dec(image.height as int) + ", seed "@ + text::dec(
                    image.seed_used as int,
                ) + ", "@ + text::dec(total_ms as int) + " ms)"@,
            ),
        ]
    } else {
        Seq::empty()
    })
}

/// The lines of an image.
pub fn image_lines(out_path: &str, image: &DiffusionImage, total_ms: i64, verbose: bool) -> (r: Printed)
    ensures
        r@ == image_text(out_path@, *image, total_ms, verbose),
{
    let mut printed = Printed::new();
    printed.result(text::owned(out_path));
    if verbose {
        let size = text::cat4(
            "(",
            text::dec_i64(image.width as i64).as_str(),
            "x",
            text::dec_i64(image.height as i64).as_str(),
        );
        let seed = text::cat3(size.as_str(), ", seed ", text::dec_i64(image.seed_used).as_str());
        printed.status(text::cat4(seed.as_str(), ", ", text::dec_i64(total_ms).as_str(), " ms)"));
    }
    printed
}

/// Pixels are told by their type or by their number, four bytes to a pixel; only
/// those that fit the size of the image can be one.
pub proof fn pixels_are_told_by_their_number(image: DiffusionImage)
    ensures
        image.media_type@ == "image/raw-rgba"@ ==> is_raw_rgba(image),
        image.width > 0 && image.height > 0 && image.data@.len() == 4 * (image.width * image.height) ==> is_raw_rgba(
            image,
        ) && fits_its_size(image),
        image.media_type@ != "image/raw-rgba"@ && is_raw_rgba(image) ==> fits_its_size(image),
        fits_its_size(image) ==> image.data@.len() == 4 * (image.width * image.height),
{
    assert(image.width * image.height * 4 == 4 * (image.width * image.height));
}

/// An image is told by where it was written, with its own size and seed.
pub proof fn an_image_is_told_as_it_is(
    model_id: Seq<char>,
    out_path: Seq<char>,
    image: DiffusionImage,
    total_ms: i64,
    verbose: bool,
)
    ensures
        ({
            let ops = image_document(model_id, out_path, image, total_ms);
            &&& ops[1] == output::field_str("model"@, model_id)
            &&& ops[2] == output::field_str("output"@, out_path)
            &&& ops[3] == output::field_i64("width"@, image.width as int)
            &&& ops[4] == output::field_i64("height"@, image.height as int)
            &&& ops[5] == output::field_i64("seed"@, image.seed_used as int)
            &&& ops[6] == output::field_i64("total_ms"@, total_ms as int)
        }),
        image_text(out_path, image, total_ms, verbose)[0] == (Channel::Result, out_path),
        verbose ==> image_text(out_path, image, total_ms, verbose)[1] == (
            Channel::Status,
            "("@ + text::dec(image.width as int) + "x"@ + text::dec(image.height as int) + ", seed "@ + text::dec(
                image.seed_used as int,
            ) + ", "@ + text::dec(total_ms as int) + " ms)"@,
        ),
        !verbose ==> image_text(out_path, image, total_ms, verbose).len() == 1,
{
}

/// An image is written after it was generated, which takes a loaded model, and only
/// one that was written ends the command well.
pub proof fn making_an_image_takes_its_steps(code: i32)
    ensures
        image_after(ImageStage::Start, true, code) == ImageStage::Usage,
        image_after(ImageStage::Usage, true, code) == ImageStage::Source,
        image_after(ImageStage::Usage, false, code) == ImageStage::Finished(code),
        image_after(ImageStage::Source, true, code) == ImageStage::Load,
        image_after(ImageStage::Load, true, code) == ImageStage::Generate,
        image_after(ImageStage::Generate, true, code) == ImageStage::Write,
        image_after(ImageStage::Write, true, code) == ImageStage::Finished(0),
        image_after(ImageStage::Start, false, code) == ImageStage::Finished(1),
        image_after(ImageStage::Source, false, code) == ImageStage::Finished(1),
        image_after(ImageStage::Load, false, code) == ImageStage::Finished(1),
        image_after(ImageStage::Generate, false, code) == ImageStage::Finished(1),
        image_after(ImageStage::Write, false, code) == ImageStage::Finished(1),
{
}

/// Raw pixels become a picture only where they fill it exactly, anything else is
/// written as it came, and nothing is written of nothing.
pub proof fn an_image_is_written_as_what_it_is(image: DiffusionImage, r: Result<ImageEncoding, String>)
    requires
        call_ensures(write_image, (&image,), r),
    ensures
        image.data@.len() == 0 ==> r is Err,
        image.data@.len() > 0 && image.media_type@ == "image/raw-rgba"@ && image.width >= 0 && image.height >= 0
            && image.data@.len() == image.width * image.height * 4 ==> r == Ok::<ImageEncoding, String>(
            ImageEncoding::Png,
        ),
        image.media_type@ == "image/raw-rgba"@ && image.data@.len() != image.width * image.height * 4 ==> r is Err,
        image.data@.len() > 0 && image.media_type@ != "image/raw-rgba"@ && image.data@.len() != image.width
            * image.height * 4 ==> r == Ok::<ImageEncoding, String>(ImageEncoding::Verbatim),
{
}

/// What an image is made of is what was asked for, each setting under its own name.
pub proof fn an_image_is_asked_for_as_given(
    prompt: &str,
    negative_prompt: &str,
    steps: i32,
    guidance: u32,
    guidance_is_set: bool,
    seed: i64,
    r: DiffusionOptions,
)
    requires
        call_ensures(
            diffusion_options,
            (prompt, negative_prompt, steps, guidance, guidance_is_set, seed),
            r,
        ),
    ensures
        r.prompt@ == prompt@,
        negative_prompt@.len() > 0 ==> r.negative_prompt is Some && r.negative_prompt->0@ == negative_prompt@,
        negative_prompt@.len() == 0 ==> r.negative_prompt is None,
        steps > 0 ==> r.steps == Some(steps),
        steps <= 0 ==> r.steps is None,
        guidance_is_set ==> r.guidance_scale == Some(guidance),
        !guidance_is_set ==> r.guidance_scale is None,
        r.seed == seed,
{
}

/// The `image` namespace.
pub open spec fn image_command() -> CommandView {
    cli::top("image"@, "Make images from text (CoreML diffusion, Apple only)"@)
        .require_subcommand(1, 1)
}

/// The `image generate` command.
pub open spec fn image_generate_command() -> CommandView {
    cli::command("image"@, "generate"@, "Render an image from a prompt"@)
        .option(
            cli::opt(
                "--model,-m"@,
                ValueType::Text,
                "Diffusion model id, a registered id, or a local CoreML bundle path (default: stable-diffusion-v1-5-coreml)"@,
            ).default_val("stable-diffusion-v1-5-coreml"@),
        )
        .option(cli::opt("--prompt,-p"@, ValueType::Text, "What to draw"@).required())
        .option(cli::opt("--negative-prompt,--negative"@, ValueType::Text, "What to keep out of the image"@))
        .option(cli::opt("--steps"@, ValueType::Int, "Denoising steps to run (0 = model default)"@))
        .option(
            cli::opt(
                "--guidance-scale,--guidance"@,
                ValueType::Float,
                "How closely to follow the prompt (0 = model default)"@,
            ),
        )
        .option(cli::opt("--seed"@, ValueType::Int64, "Fix the RNG for a repeatable image (-1 = random)"@))
        .option(cli::opt("--output,-o,--out"@, ValueType::Text, "PNG file to write"@).required())
        .action(Action::ImageGenerate)
}

/// Registers `image` and its verb.
pub fn register_image(app: &mut App)
    ensures
        final(app)@ == old(app)@.push(image_command()).push(image_generate_command()),
{
    let mut cmd = Command::top("image", "Make images from text (CoreML diffusion, Apple only)");
    cmd.require_subcommand(1, 1);
    app.add(cmd);
    let mut generate = Command::new("image", "generate", "Render an image from a prompt");
    generate.add_option(
        Opt::value(
            "--model,-m",
            ValueType::Text,
            "Diffusion model id, a registered id, or a local CoreML bundle path (default: stable-diffusion-v1-5-coreml)",
        ).default_val("stable-diffusion-v1-5-coreml"),
    );
    generate.add_option(Opt::value("--prompt,-p", ValueType::Text, "What to draw").required());
    generate.add_option(
        Opt::value("--negative-prompt,--negative", ValueType::Text, "What to keep out of the image"),
    );
    generate.add_option(Opt::value("--steps", ValueType::Int, "Denoising steps to run (0 = model default)"));
    generate.add_option(
        Opt::value(
            "--guidance-scale,--guidance",
            ValueType::Float,
            "How closely to follow the prompt (0 = model default)",
        ),
    );
    generate.add_option(
        Opt::value("--seed", ValueType::Int64, "Fix the RNG for a repeatable image (-1 = random)"),
    );
    generate.add_option(Opt::value("--output,-o,--out", ValueType::Text, "PNG file to write").required());
    generate.callback(Action::ImageGenerate);
    app.add(generate);
}

} // verus!
