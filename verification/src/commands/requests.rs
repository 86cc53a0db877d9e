//! What the engine is asked for.

use crate::commands::cmd_embed::EmbeddingsOptions;
use crate::commands::cmd_image;
use crate::commands::cmd_image::DiffusionSource;
use crate::commands::cmd_rerank;
use crate::commands::cmd_run;
use crate::commands::cmd_run::{LlmGenerationOptions, RunParams};
use crate::commands::cmd_tool;
use crate::engine::{InferenceFramework, ModelCategory, ResolvedModelPaths};
use crate::output;
use crate::text;
use vstd::prelude::*;

verus! {

/// A model to load; what is not set is the model's own.
#[derive(Clone, Debug)]
pub struct ModelLoadRequest {
    pub model_id: String,
    pub category: Option<ModelCategory>,
    pub framework: Option<InferenceFramework>,
    /// Whether the files are looked for first, and fetched where they are missing.
    pub validate_availability: bool,
}

/// The load of a model: an engine that was named counts, whatever the model says
/// of itself.
pub fn load_request(
    model_id: &str,
    category: Option<ModelCategory>,
    framework: InferenceFramework,
    validate_availability: bool,
) -> (r: ModelLoadRequest)
    ensures
        r.model_id@ == model_id@,
        r.category == category,
        r.framework == if framework == InferenceFramework::Unspecified {
            None
        } else {
            Some(framework)
        },
        r.validate_availability == validate_availability,
{
    ModelLoadRequest {
        model_id: text::owned(model_id),
        category,
        framework: if framework == InferenceFramework::Unspecified { None } else { Some(framework) },
        validate_availability,
    }
}

/// The load of a run; a run on an image asks for a model that sees.
pub fn run_load_request(model_id: &str, framework: InferenceFramework, is_vlm: bool) -> (r: ModelLoadRequest)
    ensures
        r.model_id@ == model_id@,
        r.category == if is_vlm {
            Some(ModelCategory::Multimodal)
        } else {
            None
        },
        r.framework == if framework == InferenceFramework::Unspecified {
            None
        } else {
            Some(framework)
        },
        r.validate_availability,
{
    load_request(model_id, if is_vlm { Some(ModelCategory::Multimodal) } else { None }, framework, true)
}

/// The load of a tool loop: a catalog entry keeps its own engine.
pub fn tool_load_request(model_id: &str, from_catalog: bool, framework: InferenceFramework) -> (r: ModelLoadRequest)
    ensures
        r.model_id@ == model_id@,
        r.category is None,
        r.framework == if from_catalog || framework == InferenceFramework::Unspecified {
            None
        } else {
            Some(framework)
        },
        r.validate_availability,
{
    ModelLoadRequest {
        model_id: text::owned(model_id),
        category: None,
        framework: cmd_tool::load_framework(from_catalog, framework),
        validate_availability: true,
    }
}

/// The load of a model for embeddings.
pub fn embed_load_request(model_id: &str, framework: InferenceFramework) -> (r: ModelLoadRequest)
    ensures
        r.model_id@ == model_id@,
        r.category == Some(ModelCategory::Embedding),
        r.framework == if framework == InferenceFramework::Unspecified {
            None
        } else {
            Some(framework)
        },
        r.validate_availability,
{
    load_request(model_id, Some(ModelCategory::Embedding), framework, true)
}

/// The load of the language model that an adapter is applied to.
pub fn lora_load_request(model_id: &str) -> (r: ModelLoadRequest)
    ensures
        r.model_id@ == model_id@,
        r.category == Some(ModelCategory::Language),
        r.framework is None,
        r.validate_availability,
{
    load_request(model_id, Some(ModelCategory::Language), InferenceFramework::Unspecified, true)
}

/// The load of a model that draws; one that stands on this disk is not looked
/// for.
pub fn diffusion_load_request(model_id: &str, source: DiffusionSource) -> (r: ModelLoadRequest)
    ensures
        r.model_id@ == model_id@,
        r.category == Some(ModelCategory::ImageGeneration),
        r.framework is None,
        r.validate_availability == !(source is LocalBundle),
{
    load_request(
        model_id,
        Some(ModelCategory::ImageGeneration),
        InferenceFramework::Unspecified,
        cmd_image::validates_availability(source),
    )
}

/// Models to unload.
#[derive(Clone, Copy, Debug, PartialEq, Eq, Structural)]
pub struct ModelUnloadRequest {
    pub category: Option<ModelCategory>,
    pub unload_all: bool,
}

/// The unload of a category; without one everything goes.
pub fn unload_request(category: Option<ModelCategory>) -> (r: ModelUnloadRequest)
    ensures
        r.category == category,
        r.unload_all == (category is None),
{
    ModelUnloadRequest { category, unload_all: category.is_none() }
}

/// What a component is told of the model that it loads.
#[derive(Clone, Debug)]
pub struct HandedModel {
    pub path: String,
    pub id: String,
    pub name: String,
}

/// Whether that is what is handed over of a model: its path, id and name, each in
/// its C form.
pub open spec fn is_handed(model: ResolvedModelPaths, r: HandedModel) -> bool {
    &&& r.path@ == text::c_form(model.primary_path@)
    &&& r.id@ == text::c_form(model.model_id@)
    &&& r.name@ == text::c_form(model.display_name@)
}

/// See [`is_handed`]. Transcription, speech, voice detection and the voice agent
/// load their models so; a diarization is created by the id and initialized by
/// the path.
pub fn hand_over(model: &ResolvedModelPaths) -> (r: HandedModel)
    ensures
        is_handed(*model, r),
{
    HandedModel {
        path: text::c_text(model.primary_path.as_str()),
        id: text::c_text(model.model_id.as_str()),
        name: text::c_text(model.display_name.as_str()),
    }
}

/// How the voice agent is set up. The frame length and the threshold of the voice
/// detection are single-precision numbers, carried by their bits.
#[derive(Clone, Debug)]
pub struct VoiceAgentConfig {
    pub vad_sample_rate: i32,
    pub vad_frame_length: u32,
    pub vad_energy_threshold: u32,
    pub stt: HandedModel,
    pub llm: HandedModel,
    pub tts: HandedModel,
}

/// One tenth in single precision.
pub const TENTH: u32 = 0x3DCC_CCCD;

/// Five thousandths in single precision.
pub const FIVE_THOUSANDTHS: u32 = 0x3BA3_D70A;

/// The voice agent over three models, with the engine's own voice detection: 16
/// kHz, frames of a tenth of a second and a threshold of five thousandths.
pub fn voice_config(stt: &ResolvedModelPaths, llm: &ResolvedModelPaths, tts: &ResolvedModelPaths) -> (r:
    VoiceAgentConfig)
    ensures
        r.vad_sample_rate == 16000,
        r.vad_frame_length == TENTH,
        r.vad_energy_threshold == FIVE_THOUSANDTHS,
        is_handed(*stt, r.stt),
        is_handed(*llm, r.llm),
        is_handed(*tts, r.tts),
{
    VoiceAgentConfig {
        vad_sample_rate: 16000,
        vad_frame_length: TENTH,
        vad_energy_threshold: FIVE_THOUSANDTHS,
        stt: hand_over(stt),
        llm: hand_over(llm),
        tts: hand_over(tts),
    }
}

/// The id that the registry is asked for, or asked to take out.
pub fn registry_id(model_id: &str) -> (r: String)
    ensures
        r@ == text::c_form(model_id@),
{
    text::c_text(model_id)
}

/// A text to generate: one message of the user.
#[derive(Clone, Debug)]
pub struct LlmGenerateRequest {
    pub prompt: String,
    pub options: LlmGenerationOptions,
}

/// The generation that a command line asks for.
pub fn generate_request(params: &RunParams, prompt: &str) -> (r: LlmGenerateRequest)
    ensures
        r.prompt@ == prompt@,
        cmd_run::are_generation_options(*params, r.options),
{
    LlmGenerateRequest { prompt: text::owned(prompt), options: cmd_run::apply_options(params) }
}

/// A text about an image.
#[derive(Clone, Debug)]
pub struct VlmGenerationRequest {
    pub model_id: String,
    pub image_path: String,
    pub prompt: String,
    pub options: LlmGenerationOptions,
}

/// The description that a command line asks for; every option of a generation
/// counts here too.
pub fn vlm_request(params: &RunParams, model_id: &str, image_path: &str, prompt: &str) -> (r: VlmGenerationRequest)
    ensures
        r.model_id@ == model_id@,
        r.image_path@ == image_path@,
        r.prompt@ == if prompt@.len() == 0 {
            "Describe this image."@
        } else {
            prompt@
        },
        cmd_run::are_generation_options(*params, r.options),
{
    VlmGenerationRequest {
        model_id: text::owned(model_id),
        image_path: text::owned(image_path),
        prompt: cmd_run::vlm_prompt(prompt),
        options: cmd_run::apply_options(params),
    }
}

/// An adapter to apply. The scale is a single-precision number, carried by its
/// bits.
#[derive(Clone, Debug)]
pub struct LoraApplyRequest {
    pub adapter_path: String,
    pub scale: u32,
    /// Whether the adapters that are applied stay.
    pub keep_existing: bool,
}

/// The one adapter of a command line, in place of those that are applied.
pub fn apply_request(adapter_path: &str, scale: u32) -> (r: LoraApplyRequest)
    ensures
        r.adapter_path@ == adapter_path@,
        r.scale == scale,
        !r.keep_existing,
{
    LoraApplyRequest { adapter_path: text::owned(adapter_path), scale, keep_existing: false }
}

/// Documents to score.
#[derive(Clone, Debug)]
pub struct RerankRequest {
    pub query: String,
    pub documents: Vec<String>,
    pub top_n: Option<u32>,
}

/// The scoring that a command line asks for; a count that is not above zero asks
/// for all the documents.
pub fn rerank_request(query: &str, documents: &Vec<String>, top_n: i64) -> (r: RerankRequest)
    requires
        top_n <= u32::MAX,
    ensures
        r.query@ == query@,
        output::strings_view(r.documents@) == output::strings_view(documents@),
        r.top_n == if top_n > 0 {
            Some(top_n as u32)
        } else {
            None
        },
{
    RerankRequest {
        query: text::owned(query),
        documents: cmd_run::copy_strings(documents),
        top_n: cmd_rerank::asked_top_n(top_n),
    }
}

/// Texts to embed.
#[derive(Clone, Debug)]
pub struct EmbeddingsRequest {
    pub model_id: String,
    pub texts: Vec<String>,
    pub options: Option<EmbeddingsOptions>,
}

/// The embedding that a command line asks for.
pub fn embed_request(model_id: &str, texts: &Vec<String>, options: Option<EmbeddingsOptions>) -> (r: EmbeddingsRequest)
    ensures
        r.model_id@ == model_id@,
        output::strings_view(r.texts@) == output::strings_view(texts@),
        r.options == options,
{
    EmbeddingsRequest { model_id: text::owned(model_id), texts: cmd_run::copy_strings(texts), options }
}

/// A turn listens, thinks and speaks with the models that were found for that, each
/// in its own place.
pub proof fn each_part_has_its_own_model(
    stt: ResolvedModelPaths,
    llm: ResolvedModelPaths,
    tts: ResolvedModelPaths,
    r: VoiceAgentConfig,
)
    requires
        call_ensures(voice_config, (&stt, &llm, &tts), r),
        text::has_no_nul(stt.primary_path@) && text::has_no_nul(stt.model_id@) && text::has_no_nul(stt.display_name@),
        text::has_no_nul(llm.primary_path@) && text::has_no_nul(llm.model_id@) && text::has_no_nul(llm.display_name@),
        text::has_no_nul(tts.primary_path@) && text::has_no_nul(tts.model_id@) && text::has_no_nul(tts.display_name@),
    ensures
        r.stt.path@ == stt.primary_path@ && r.stt.id@ == stt.model_id@ && r.stt.name@ == stt.display_name@,
        r.llm.path@ == llm.primary_path@ && r.llm.id@ == llm.model_id@ && r.llm.name@ == llm.display_name@,
        r.tts.path@ == tts.primary_path@ && r.tts.id@ == tts.model_id@ && r.tts.name@ == tts.display_name@,
{
}

/// A model is loaded by its own id and, where one was pinned, with that engine.
pub proof fn a_model_is_loaded_as_it_is(
    model_id: &str,
    category: Option<ModelCategory>,
    framework: InferenceFramework,
    checked: bool,
    r: ModelLoadRequest,
    u: ModelUnloadRequest,
)
    requires
        call_ensures(load_request, (model_id, category, framework, checked), r),
        call_ensures(unload_request, (category,), u),
    ensures
        r.model_id@ == model_id@,
        r.category == category,
        framework != InferenceFramework::Unspecified ==> r.framework == Some(framework),
        framework == InferenceFramework::Unspecified ==> r.framework is None,
        r.validate_availability == checked,
        u.category == category,
        u.unload_all <==> category is None,
{
}

/// What is handed over is the model's own path, id and name.
pub proof fn a_model_is_handed_over_whole(model: ResolvedModelPaths, r: HandedModel)
    requires
        is_handed(model, r),
    ensures
        text::has_no_nul(model.primary_path@) ==> r.path@ == model.primary_path@,
        text::has_no_nul(model.model_id@) ==> r.id@ == model.model_id@,
        text::has_no_nul(model.display_name@) ==> r.name@ == model.display_name@,
        !text::has_no_nul(model.primary_path@) ==> r.path@.len() == 0,
{
}

} // verus!
