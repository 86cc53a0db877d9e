//! The engine's vocabulary: result codes, categories, frameworks and the models
//! of its registry.

use crate::text;
use vstd::prelude::*;

verus! {

/// The result code of an engine call that worked.
pub const SUCCESS: i32 = 0;

/// The options every command takes.
#[derive(Clone, Debug, Default)]
pub struct GlobalOptions {
    pub json: bool,
    pub quiet: bool,
    pub verbose: bool,
    pub no_progress: bool,
    pub no_color: bool,
    pub home_override: String,
}

/// What a model is for.
#[derive(Clone, Copy, Debug, PartialEq, Eq, Structural)]
pub enum ModelCategory {
    Unspecified,
    Language,
    SpeechRecognition,
    SpeechSynthesis,
    Vision,
    ImageGeneration,
    Multimodal,
    Audio,
    Embedding,
    VoiceActivityDetection,
    SpeakerDiarization,
    SemanticSegmentation,
}

/// What runs a model.
#[derive(Clone, Copy, Debug, PartialEq, Eq, Structural)]
pub enum InferenceFramework {
    Unspecified,
    Onnx,
    LlamaCpp,
    FoundationModels,
    SystemTts,
    FluidAudio,
    Coreml,
    Mlx,
    Tflite,
    Executorch,
    Mediapipe,
    Mlc,
    PicoLlm,
    PiperTts,
    SwiftTransformers,
    BuiltIn,
    NoFramework,
    Unknown,
    Sherpa,
    Qhexrt,
}

/// How the files of a model are packed.
#[derive(Clone, Copy, Debug, PartialEq, Eq, Structural)]
pub enum ModelFormat {
    Unspecified,
    Gguf,
    Ggml,
    Onnx,
    Ort,
    Bin,
    Coreml,
    Mlmodel,
    Mlpackage,
    Tflite,
    Safetensors,
    QnnContext,
    Zip,
    Folder,
    Proprietary,
    Unknown,
}

/// Where a model stands in the registry.
#[derive(Clone, Copy, Debug, PartialEq, Eq, Structural)]
pub enum ModelRegistryStatus {
    Unspecified,
    Registered,
    Downloading,
    Downloaded,
}

/// One file of a model that comes in several.
#[derive(Clone, Debug, Default)]
pub struct ModelFile {
    pub filename: String,
    pub url: String,
}

/// A model of the registry. A category, framework or format that this build
/// does not know is absent.
#[derive(Clone, Debug)]
pub struct ModelInfo {
    pub id: String,
    pub name: String,
    pub category: Option<ModelCategory>,
    pub framework: Option<InferenceFramework>,
    pub format: Option<ModelFormat>,
    pub registry_status: Option<ModelRegistryStatus>,
    pub download_url: String,
    pub local_path: String,
    pub download_size_bytes: i64,
    pub context_length: i32,
    pub supports_thinking: bool,
    /// Present for a model whose artifact is a set of files.
    pub files: Option<Vec<ModelFile>>,
}

impl Default for ModelInfo {
    fn default() -> (r: ModelInfo)
        ensures
            r.id@.len() == 0 && r.name@.len() == 0 && r.download_url@.len() == 0 && r.local_path@.len() == 0,
            r.category == Some(ModelCategory::Unspecified),
            r.framework == Some(InferenceFramework::Unspecified),
            r.format == Some(ModelFormat::Unspecified),
            r.registry_status is None,
            r.download_size_bytes == 0 && r.context_length == 0 && !r.supports_thinking,
            r.files is None,
    {
        ModelInfo {
            id: String::new(),
            name: String::new(),
            category: Some(ModelCategory::Unspecified),
            framework: Some(InferenceFramework::Unspecified),
            format: Some(ModelFormat::Unspecified),
            registry_status: None,
            download_url: String::new(),
            local_path: String::new(),
            download_size_bytes: 0,
            context_length: 0,
            supports_thinking: false,
            files: None,
        }
    }
}

/// The framework of a model, taken as unspecified where it is not known.
pub open spec fn framework_of(model: ModelInfo) -> InferenceFramework {
    match model.framework {
        Some(f) => f,
        None => InferenceFramework::Unspecified,
    }
}

/// Executable [`framework_of`].
pub fn framework_or_unspecified(model: &ModelInfo) -> (r: InferenceFramework)
    ensures
        r == framework_of(*model),
{
    match model.framework {
        Some(f) => f,
        None => InferenceFramework::Unspecified,
    }
}

/// The category of a model, taken as unspecified where it is not known.
pub open spec fn category_of(model: ModelInfo) -> ModelCategory {
    match model.category {
        Some(c) => c,
        None => ModelCategory::Unspecified,
    }
}

/// Executable [`category_of`].
pub fn category_or_unspecified(model: &ModelInfo) -> (r: ModelCategory)
    ensures
        r == category_of(*model),
{
    match model.category {
        Some(c) => c,
        None => ModelCategory::Unspecified,
    }
}

/// The format of a model, taken as unspecified where it is not known.
pub open spec fn format_of(model: ModelInfo) -> ModelFormat {
    match model.format {
        Some(f) => f,
        None => ModelFormat::Unspecified,
    }
}

/// Executable [`format_of`].
pub fn format_or_unspecified(model: &ModelInfo) -> (r: ModelFormat)
    ensures
        r == format_of(*model),
{
    match model.format {
        Some(f) => f,
        None => ModelFormat::Unspecified,
    }
}

/// A model reference resolved to an artifact on disk.
#[derive(Clone, Debug, Default)]
pub struct ResolvedModelPaths {
    pub model_id: String,
    pub display_name: String,
    /// The resolved artifact: a file or an inner directory.
    pub primary_path: String,
}

/// An error report of the engine; its message may be empty.
#[derive(Clone, Debug, Default)]
pub struct SdkError {
    pub message: String,
    pub c_abi_code: Option<i32>,
}

/// What an answer of the engine amounts to: an error report means failure, even
/// one without a message.
pub open spec fn report_outcome(error: Option<SdkError>) -> Result<(), Seq<char>> {
    match error {
        None => Ok(()),
        Some(e) => Err(
            if e.message@.len() == 0 {
                "unknown error"@
            } else {
                e.message@
            },
        ),
    }
}

/// A result that carries nothing or a message, as a value.
pub open spec fn unit_view(r: Result<(), String>) -> Result<(), Seq<char>> {
    match r {
        Ok(_) => Ok(()),
        Err(e) => Err(e@),
    }
}

/// Executable [`report_outcome`].
pub fn outcome_of(error: &Option<SdkError>) -> (r: Result<(), String>)
    ensures
        unit_view(r) == report_outcome(*error),
{
    match error {
        None => Ok(()),
        Some(e) => if e.message.as_str().is_empty() {
            Err(text::owned("unknown error"))
        } else {
            Err(text::owned(e.message.as_str()))
        },
    }
}

/// What an answer of the engine amounts to where a report without a message goes
/// by its code.
pub open spec fn coded_outcome(error: Option<SdkError>) -> Result<(), Seq<char>> {
    match error {
        None => Ok(()),
        Some(e) => Err(
            if e.message@.len() > 0 {
                e.message@
            } else {
                text::dec(
                    match e.c_abi_code {
                        Some(code) => code as int,
                        None => 0,
                    },
                )
            },
        ),
    }
}

/// Executable [`coded_outcome`].
pub fn coded_outcome_of(error: &Option<SdkError>) -> (r: Result<(), String>)
    ensures
        unit_view(r) == coded_outcome(*error),
{
    match error {
        None => Ok(()),
        Some(e) => if e.message.as_str().is_empty() {
            let code: i32 = match e.c_abi_code {
                Some(code) => code,
                None => 0,
            };
            Err(text::dec_i64(code as i64))
        } else {
            Err(text::owned(e.message.as_str()))
        },
    }
}

/// An engine call that returns a document: it worked when the code is fine and
/// the document could be read. A failing code with a readable document leaves
/// no detail to show.
pub fn call_outcome<T>(what: &str, rc: i32, parsed: Result<T, String>) -> (r: Result<T, String>)
    ensures
        match parsed {
            Ok(_) => if rc == SUCCESS {
                r == parsed
            } else {
                r is Err && r->Err_0@ == what@ + " failed: "@
            },
            Err(message) => r is Err && r->Err_0@ == what@ + " failed: "@ + message@,
        },
{
    match parsed {
        Ok(value) => if rc == SUCCESS {
            Ok(value)
        } else {
            Err(text::cat2(what, " failed: "))
        },
        Err(message) => Err(text::cat3(what, " failed: ", message.as_str())),
    }
}

/// What an engine call that returns a document amounts to. `described` says what
/// its code means; `code_first` tells which message a call shows when the code
/// is bad and the document unreadable.
pub open spec fn answer_outcome<T>(ok: bool, described: Seq<char>, parsed: Result<T, String>, code_first: bool) -> Result<
    T,
    Seq<char>,
> {
    match parsed {
        Ok(value) => if ok {
            Ok(value)
        } else {
            Err(described)
        },
        Err(message) => if !ok && code_first {
            Err(described)
        } else {
            Err(message@)
        },
    }
}

/// A result whose message is taken as a value.
pub open spec fn result_view<T>(r: Result<T, String>) -> Result<T, Seq<char>> {
    match r {
        Ok(value) => Ok(value),
        Err(message) => Err(message@),
    }
}

/// See [`answer_outcome`].
pub fn answer<T>(ok: bool, described: &str, parsed: Result<T, String>, code_first: bool) -> (r: Result<T, String>)
    ensures
        result_view(r) == answer_outcome(ok, described@, parsed, code_first),
{
    match parsed {
        Ok(value) => if ok {
            Ok(value)
        } else {
            Err(text::owned(described))
        },
        Err(message) => if !ok && code_first {
            Err(text::owned(described))
        } else {
            Err(message)
        },
    }
}

/// Whether a single-precision number, given by its bits, is above zero.
pub open spec fn is_positive(bits: u32) -> bool {
    0 < bits <= 0x7F80_0000
}

/// Whether a single-precision number, given by its bits, is zero or above.
pub open spec fn is_nonnegative(bits: u32) -> bool {
    bits <= 0x7F80_0000 || bits == 0x8000_0000
}

/// Whether a double-precision number, given by its bits, is zero or above.
pub open spec fn is_nonnegative_double(bits: u64) -> bool {
    bits <= 0x7FF0_0000_0000_0000 || bits == 0x8000_0000_0000_0000
}

/// Whether a single-precision number, given by its bits, is other than zero.
pub open spec fn is_nonzero(bits: u32) -> bool {
    bits != 0 && bits != 0x8000_0000
}

/// The bits of the single-precision number one.
pub const ONE: u32 = 0x3F80_0000;

/// An answer is good only where the call was and the answer can be read; a report
/// of an error is one even without a message.
pub proof fn an_answer_is_good_only_whole<T>(ok: bool, described: Seq<char>, value: T, message: String, code_first: bool, e: SdkError)
    ensures
        answer_outcome(true, described, Ok::<T, String>(value), code_first) == Ok::<T, Seq<char>>(value),
        answer_outcome(false, described, Ok::<T, String>(value), code_first) == Err::<T, Seq<char>>(described),
        answer_outcome(true, described, Err::<T, String>(message), code_first) == Err::<T, Seq<char>>(message@),
        answer_outcome(false, described, Err::<T, String>(message), true) == Err::<T, Seq<char>>(described),
        answer_outcome(false, described, Err::<T, String>(message), false) == Err::<T, Seq<char>>(message@),
        report_outcome(None) is Ok,
        coded_outcome(None) is Ok,
        report_outcome(Some(e)) is Err,
        coded_outcome(Some(e)) is Err,
        e.message@.len() > 0 ==> report_outcome(Some(e))->Err_0 == e.message@ && coded_outcome(Some(e))->Err_0
            == e.message@,
        e.message@.len() == 0 && e.c_abi_code is Some ==> coded_outcome(Some(e))->Err_0 == text::dec(
            e.c_abi_code->0 as int,
        ),
        e.message@.len() == 0 ==> report_outcome(Some(e))->Err_0 == "unknown error"@,
{
}

/// Numbers are told apart by their bits: a positive one is no negative one, zero
/// is neither positive nor different from zero, with or without its sign.
pub proof fn numbers_are_told_by_their_bits(bits: u32)
    ensures
        is_positive(bits) ==> is_nonnegative(bits) && is_nonzero(bits),
        is_nonnegative(bits) && is_nonzero(bits) ==> is_positive(bits),
        !is_positive(0) && !is_nonzero(0) && is_nonnegative(0),
        !is_positive(0x8000_0000) && !is_nonzero(0x8000_0000) && is_nonnegative(0x8000_0000),
        bits > 0x8000_0000 ==> !is_nonnegative(bits) && is_nonzero(bits),
        is_positive(ONE),
{
}

} // verus!
