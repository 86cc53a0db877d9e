//! Display labels for model categories, backends and formats.

use crate::engine::{InferenceFramework, ModelCategory, ModelFormat};
use vstd::prelude::*;

verus! {

/// The label of a category.
pub open spec fn category_label(category: ModelCategory) -> Seq<char> {
    match category {
        ModelCategory::Language => "llm"@,
        ModelCategory::Multimodal => "vlm"@,
        ModelCategory::Vision => "vlm"@,
        ModelCategory::SpeechRecognition => "stt"@,
        ModelCategory::SpeechSynthesis => "tts"@,
        ModelCategory::VoiceActivityDetection => "vad"@,
        ModelCategory::Embedding => "embedding"@,
        ModelCategory::SpeakerDiarization => "diarize"@,
        ModelCategory::SemanticSegmentation => "segment"@,
        ModelCategory::ImageGeneration => "diffusion"@,
        ModelCategory::Audio => "audio"@,
        ModelCategory::Unspecified => "?"@,
    }
}

pub fn category(of: ModelCategory) -> (r: &'static str)
    ensures
        r@ == category_label(of),
{
    match of {
        ModelCategory::Language => "llm",
        ModelCategory::Multimodal => "vlm",
        ModelCategory::Vision => "vlm",
        ModelCategory::SpeechRecognition => "stt",
        ModelCategory::SpeechSynthesis => "tts",
        ModelCategory::VoiceActivityDetection => "vad",
        ModelCategory::Embedding => "embedding",
        ModelCategory::SpeakerDiarization => "diarize",
        ModelCategory::SemanticSegmentation => "segment",
        ModelCategory::ImageGeneration => "diffusion",
        ModelCategory::Audio => "audio",
        ModelCategory::Unspecified => "?",
    }
}

/// The full name of a backend.
pub open spec fn backend_label(framework: InferenceFramework) -> Seq<char> {
    match framework {
        InferenceFramework::Onnx => "ONNX Runtime"@,
        InferenceFramework::LlamaCpp => "llama.cpp"@,
        InferenceFramework::FoundationModels => "Apple Foundation"@,
        InferenceFramework::SystemTts => "System TTS"@,
        InferenceFramework::FluidAudio => "Fluid Audio"@,
        InferenceFramework::Coreml => "Core ML"@,
        InferenceFramework::Mlx => "MLX"@,
        InferenceFramework::Tflite => "TensorFlow Lite"@,
        InferenceFramework::Executorch => "ExecuTorch"@,
        InferenceFramework::Mediapipe => "MediaPipe"@,
        InferenceFramework::Mlc => "MLC"@,
        InferenceFramework::PicoLlm => "Pico LLM"@,
        InferenceFramework::PiperTts => "Piper TTS"@,
        InferenceFramework::SwiftTransformers => "Swift Transformers"@,
        InferenceFramework::BuiltIn => "Built-in"@,
        InferenceFramework::NoFramework => "None"@,
        InferenceFramework::Unknown => "Unknown"@,
        InferenceFramework::Sherpa => "Sherpa-ONNX"@,
        InferenceFramework::Qhexrt => "QHexRT"@,
        InferenceFramework::Unspecified => "Unspecified"@,
    }
}

pub fn backend(framework: InferenceFramework) -> (r: &'static str)
    ensures
        r@ == backend_label(framework),
{
    match framework {
        InferenceFramework::Onnx => "ONNX Runtime",
        InferenceFramework::LlamaCpp => "llama.cpp",
        InferenceFramework::FoundationModels => "Apple Foundation",
        InferenceFramework::SystemTts => "System TTS",
        InferenceFramework::FluidAudio => "Fluid Audio",
        InferenceFramework::Coreml => "Core ML",
        InferenceFramework::Mlx => "MLX",
        InferenceFramework::Tflite => "TensorFlow Lite",
        InferenceFramework::Executorch => "ExecuTorch",
        InferenceFramework::Mediapipe => "MediaPipe",
        InferenceFramework::Mlc => "MLC",
        InferenceFramework::PicoLlm => "Pico LLM",
        InferenceFramework::PiperTts => "Piper TTS",
        InferenceFramework::SwiftTransformers => "Swift Transformers",
        InferenceFramework::BuiltIn => "Built-in",
        InferenceFramework::NoFramework => "None",
        InferenceFramework::Unknown => "Unknown",
        InferenceFramework::Sherpa => "Sherpa-ONNX",
        InferenceFramework::Qhexrt => "QHexRT",
        InferenceFramework::Unspecified => "Unspecified",
    }
}

/// The short tag of a backend, or its full name where it has none.
pub open spec fn short_backend_label(framework: InferenceFramework) -> Seq<char> {
    match framework {
        InferenceFramework::Mlx => "mlx"@,
        InferenceFramework::LlamaCpp => "llama.cpp"@,
        InferenceFramework::Coreml => "ane"@,
        InferenceFramework::Qhexrt => "npu"@,
        InferenceFramework::Onnx => "onnx"@,
        _ => backend_label(framework),
    }
}

pub fn short_backend(framework: InferenceFramework) -> (r: &'static str)
    ensures
        r@ == short_backend_label(framework),
{
    match framework {
        InferenceFramework::Mlx => "mlx",
        InferenceFramework::LlamaCpp => "llama.cpp",
        InferenceFramework::Coreml => "ane",
        InferenceFramework::Qhexrt => "npu",
        InferenceFramework::Onnx => "onnx",
        _ => backend(framework),
    }
}

/// The label of a format.
pub open spec fn format_label(format: ModelFormat) -> Seq<char> {
    match format {
        ModelFormat::Gguf => "GGUF"@,
        ModelFormat::Ggml => "GGML"@,
        ModelFormat::Onnx => "ONNX"@,
        ModelFormat::Ort => "ORT"@,
        ModelFormat::Bin => "BIN"@,
        ModelFormat::Coreml => "Core ML"@,
        ModelFormat::Mlmodel => "MLModel"@,
        ModelFormat::Mlpackage => "MLPackage"@,
        ModelFormat::Tflite => "TFLite"@,
        ModelFormat::Safetensors => "SafeTensors"@,
        ModelFormat::QnnContext => "QNN Context"@,
        ModelFormat::Zip => "ZIP"@,
        ModelFormat::Folder => "Folder"@,
        ModelFormat::Proprietary => "Proprietary"@,
        ModelFormat::Unknown => "Unknown"@,
        ModelFormat::Unspecified => "?"@,
    }
}

pub fn format(of: ModelFormat) -> (r: &'static str)
    ensures
        r@ == format_label(of),
{
    match of {
        ModelFormat::Gguf => "GGUF",
        ModelFormat::Ggml => "GGML",
        ModelFormat::Onnx => "ONNX",
        ModelFormat::Ort => "ORT",
        ModelFormat::Bin => "BIN",
        ModelFormat::Coreml => "Core ML",
        ModelFormat::Mlmodel => "MLModel",
        ModelFormat::Mlpackage => "MLPackage",
        ModelFormat::Tflite => "TFLite",
        ModelFormat::Safetensors => "SafeTensors",
        ModelFormat::QnnContext => "QNN Context",
        ModelFormat::Zip => "ZIP",
        ModelFormat::Folder => "Folder",
        ModelFormat::Proprietary => "Proprietary",
        ModelFormat::Unknown => "Unknown",
        ModelFormat::Unspecified => "?",
    }
}

/// The label of a decoded category; a number without a category is "?".
pub fn category_i32(value: Option<ModelCategory>) -> (r: &'static str)
    ensures
        r@ == match value {
            Some(v) => category_label(v),
            None => "?"@,
        },
{
    match value {
        Some(v) => category(v),
        None => "?",
    }
}

/// The label of a decoded framework; a number without a framework is "?".
pub fn backend_i32(value: Option<InferenceFramework>) -> (r: &'static str)
    ensures
        r@ == match value {
            Some(v) => backend_label(v),
            None => "?"@,
        },
{
    match value {
        Some(v) => backend(v),
        None => "?",
    }
}

/// The short tag of a decoded framework; a number without a framework is "?".
pub fn short_backend_i32(value: Option<InferenceFramework>) -> (r: &'static str)
    ensures
        r@ == match value {
            Some(v) => short_backend_label(v),
            None => "?"@,
        },
{
    match value {
        Some(v) => short_backend(v),
        None => "?",
    }
}

/// The label of a decoded format; a number without a format is "?".
pub fn format_i32(value: Option<ModelFormat>) -> (r: &'static str)
    ensures
        r@ == match value {
            Some(v) => format_label(v),
            None => "?"@,
        },
{
    match value {
        Some(v) => format(v),
        None => "?",
    }
}

/// A category is called by its own short name: what generates text, what sees, what
/// hears, what speaks and so on.
pub proof fn a_category_has_its_own_name(category: ModelCategory)
    ensures
        category_label(ModelCategory::Language) == "llm"@,
        category_label(ModelCategory::Multimodal) == "vlm"@,
        category_label(ModelCategory::Vision) == "vlm"@,
        category_label(ModelCategory::SpeechRecognition) == "stt"@,
        category_label(ModelCategory::SpeechSynthesis) == "tts"@,
        category_label(ModelCategory::VoiceActivityDetection) == "vad"@,
        category_label(ModelCategory::Embedding) == "embedding"@,
        category_label(ModelCategory::SpeakerDiarization) == "diarize"@,
        category_label(ModelCategory::SemanticSegmentation) == "segment"@,
        category_label(ModelCategory::ImageGeneration) == "diffusion"@,
        category_label(category) == category_label(ModelCategory::Language) ==> category == ModelCategory::Language,
        category_label(category) == category_label(ModelCategory::SpeechRecognition) ==> category
            == ModelCategory::SpeechRecognition,
        category_label(category) == category_label(ModelCategory::SpeechSynthesis) ==> category
            == ModelCategory::SpeechSynthesis,
{
    reveal_strlit("llm");
    reveal_strlit("vlm");
    reveal_strlit("stt");
    reveal_strlit("tts");
    reveal_strlit("vad");
    reveal_strlit("embedding");
    reveal_strlit("diarize");
    reveal_strlit("segment");
    reveal_strlit("diffusion");
    reveal_strlit("audio");
    reveal_strlit("?");
    assert("llm"@[0] == 'l' && "vlm"@[0] == 'v' && "stt"@[0] == 's' && "tts"@[0] == 't' && "vad"@[0] == 'v');
    assert("embedding"@.len() == 9 && "diarize"@.len() == 7 && "segment"@.len() == 7 && "diffusion"@.len() == 9
        && "audio"@.len() == 5 && "?"@.len() == 1);
}

/// A backend is tagged by a name of its own, and called by its full one where it has
/// no tag.
pub proof fn a_backend_has_its_own_tag(framework: InferenceFramework)
    ensures
        short_backend_label(InferenceFramework::Mlx) == "mlx"@ && backend_label(InferenceFramework::Mlx) == "MLX"@,
        short_backend_label(InferenceFramework::LlamaCpp) == "llama.cpp"@ && backend_label(InferenceFramework::LlamaCpp)
            == "llama.cpp"@,
        short_backend_label(InferenceFramework::Coreml) == "ane"@ && backend_label(InferenceFramework::Coreml)
            == "Core ML"@,
        short_backend_label(InferenceFramework::Qhexrt) == "npu"@ && backend_label(InferenceFramework::Qhexrt)
            == "QHexRT"@,
        short_backend_label(InferenceFramework::Onnx) == "onnx"@ && backend_label(InferenceFramework::Onnx)
            == "ONNX Runtime"@,
        backend_label(InferenceFramework::Sherpa) == "Sherpa-ONNX"@,
        framework != InferenceFramework::Mlx && framework != InferenceFramework::Coreml && framework
            != InferenceFramework::Qhexrt && framework != InferenceFramework::Onnx ==> short_backend_label(framework)
            == backend_label(framework),
{
}

} // verus!
