//! The commands, one module each.

pub mod bench_metrics;
pub mod cmd_about;
pub mod cmd_account;
pub mod cmd_auth;
pub mod cmd_backends;
pub mod cmd_bench;
pub mod cmd_default_models;
pub mod cmd_diarize;
pub mod cmd_editors;
pub mod cmd_embed;
pub mod cmd_harness;
pub mod cmd_image;
pub mod cmd_info;
pub mod cmd_list;
pub mod cmd_lora;
pub mod cmd_maintenance;
pub mod cmd_models;
pub mod cmd_pull;
pub mod cmd_rag;
pub mod cmd_rerank;
pub mod cmd_rm;
pub mod cmd_run;
pub mod cmd_segment;
pub mod cmd_serve;
pub mod cmd_show;
pub mod cmd_stt;
pub mod cmd_telemetry;
pub mod cmd_tool;
pub mod cmd_tts;
pub mod cmd_update;
pub mod cmd_usage;
pub mod cmd_vad;
pub mod cmd_version;
pub mod cmd_voice;
pub mod editor_env;
pub mod engine_options;
pub mod model_labels;
pub mod opening;
pub mod reports;
pub mod requests;

use crate::cli;
use crate::cli::{App, Command, CommandView};
use vstd::prelude::*;

verus! {

/// One registered engine, folded across every primitive it serves; the
/// primitives are in order, none twice.
#[derive(Clone, Debug, Default, PartialEq, Eq)]
pub struct EngineRow {
    pub display_name: String,
    pub version: String,
    pub priority: i32,
    pub primitives: Vec<String>,
}

/// Which llm/vlm entry point a configured command drives.
///   Generate: one result, rendered once it completes.
///   Stream: tokens printed as they arrive.
///   Chat: Stream, falling back to the interactive prompt when none is given.
#[derive(Clone, Copy, Debug, PartialEq, Eq, Structural)]
pub enum LlmVerb {
    Generate,
    Stream,
    Chat,
}

/// Where the model comes from: a `--model` option or the first positional.
#[derive(Clone, Copy, Debug, PartialEq, Eq, Structural)]
pub enum ModelArg {
    Option,
    Positional,
}

/// A verb that stands for its namespace: it hands everything to the namespace,
/// which holds the options and does the work.
pub open spec fn verb_alias(ns: Seq<char>, verb: Seq<char>, description: Seq<char>) -> CommandView {
    cli::command(ns, verb, description).falls_through()
}

/// Adds a verb to a namespace whose options live on the namespace itself; see
/// [`verb_alias`].
pub fn add_verb_alias(app: &mut App, ns: &str, verb: &str, description: &str)
    ensures
        final(app)@ == old(app)@.push(verb_alias(ns@, verb@, description@)),
{
    let mut cmd = Command::new(ns, verb, description);
    cmd.falls_through();
    app.add(cmd);
}

/// Such a verb holds nothing of its own.
pub proof fn a_verb_alias_owns_nothing(ns: Seq<char>, verb: Seq<char>, description: Seq<char>)
    ensures
        verb_alias(ns, verb, description).fallthrough,
        verb_alias(ns, verb, description).options.len() == 0,
        verb_alias(ns, verb, description).action is None,
{
}

/// Every command of the line runs what it is named for.
pub proof fn each_command_runs_its_own_action(kit: engine_options::Kit)
    ensures
        cmd_about::about_command().name == "about"@ && cmd_about::about_command().action == Some(cli::Action::About),
        cmd_account::account_login_command().name == "login"@ && cmd_account::account_login_command().action == Some(
            cli::Action::AccountLogin,
        ),
        cmd_account::account_logout_command().name == "logout"@ && cmd_account::account_logout_command().action == Some(
            cli::Action::AccountLogout,
        ),
        cmd_account::account_whoami_command().name == "whoami"@ && cmd_account::account_whoami_command().action == Some(
            cli::Action::AccountWhoami,
        ),
        cmd_usage::usage_command().name == "usage"@ && cmd_usage::usage_command().action == Some(cli::Action::AccountUsage),
        cmd_auth::auth_login_command().name == "login"@ && cmd_auth::auth_login_command().parent == "auth"@
            && cmd_auth::auth_login_command().action == Some(cli::Action::AuthLogin),
        cmd_backends::backends_command().name == "backends"@ && cmd_backends::backends_command().action == Some(
            cli::Action::Backends,
        ),
        cmd_bench::bench_command(kit).name == "bench"@ && cmd_bench::bench_command(kit).action == Some(cli::Action::Bench),
        cmd_default_models::default_model_command().name == "default"@
            && cmd_default_models::default_model_command().action == Some(cli::Action::DefaultModel),
        cmd_diarize::diarize_command().name == "diarize"@ && cmd_diarize::diarize_command().action == Some(
            cli::Action::Diarize,
        ),
        cmd_embed::embed_command(kit).name == "embed"@ && cmd_embed::embed_command(kit).action == Some(cli::Action::Embed),
        cmd_image::image_generate_command().parent == "image"@ && cmd_image::image_generate_command().action == Some(
            cli::Action::ImageGenerate,
        ),
        cmd_info::info_command().name == "info"@ && cmd_info::info_command().action == Some(cli::Action::Info),
        cmd_lora::lora_apply_command().name == "apply"@ && cmd_lora::lora_apply_command().action == Some(
            cli::Action::LoraApply,
        ),
        cmd_lora::lora_catalog_command().name == "catalog"@ && cmd_lora::lora_catalog_command().action == Some(
            cli::Action::LoraCatalog,
        ),
        cmd_lora::lora_list_command().name == "list"@ && cmd_lora::lora_list_command().action == Some(cli::Action::LoraList),
        cmd_lora::lora_remove_command().name == "remove"@ && cmd_lora::lora_remove_command().action == Some(
            cli::Action::LoraRemove,
        ),
        cmd_maintenance::help_command().name == "help"@ && cmd_maintenance::help_command().action == Some(cli::Action::Help),
        cmd_maintenance::uninstall_command().name == "uninstall"@ && cmd_maintenance::uninstall_command().action
            == Some(cli::Action::Uninstall),
        cmd_models::models_list_command().name == "list"@ && cmd_models::models_list_command().action == Some(
            cli::Action::ModelsList,
        ),
        cmd_models::models_show_command().name == "show"@ && cmd_models::models_show_command().action == Some(
            cli::Action::ModelsGet,
        ),
        cmd_models::models_pull_command(kit).name == "pull"@ && cmd_models::models_pull_command(kit).action == Some(
            cli::Action::ModelsDownload,
        ),
        cmd_models::models_rm_command().name == "rm"@ && cmd_models::models_rm_command().action == Some(
            cli::Action::ModelsDelete,
        ),
        cmd_models::models_register_command().name == "register"@ && cmd_models::models_register_command().action
            == Some(cli::Action::ModelsRegister),
        cmd_models::models_load_command().name == "load"@ && cmd_models::models_load_command().action == Some(
            cli::Action::ModelsLoad,
        ),
        cmd_models::models_unload_command().name == "unload"@ && cmd_models::models_unload_command().action == Some(
            cli::Action::ModelsUnload,
        ),
        cmd_models::models_state_command().name == "state"@ && cmd_models::models_state_command().action == Some(
            cli::Action::ModelsState,
        ),
        cmd_rag::rag_query_command().name == "query"@ && cmd_rag::rag_query_command().action == Some(cli::Action::RagQuery),
        cmd_rag::rag_search_command().name == "search"@ && cmd_rag::rag_search_command().action == Some(
            cli::Action::RagSearch,
        ),
        cmd_rerank::rerank_command().name == "rerank"@ && cmd_rerank::rerank_command().action == Some(cli::Action::Rerank),
        cmd_segment::segment_command().name == "segment"@ && cmd_segment::segment_command().action == Some(
            cli::Action::Segment,
        ),
        cmd_serve::serve_command(true).name == "serve"@ && cmd_serve::serve_command(true).action == Some(cli::Action::Serve),
        cmd_serve::serve_command(false).action == Some(cli::Action::ServeUnavailable),
        cmd_stt::stt_command().name == "stt"@ && cmd_stt::stt_command().action == Some(cli::Action::Stt),
        cmd_tts::tts_command().name == "tts"@ && cmd_tts::tts_command().action == Some(cli::Action::Tts),
        cmd_vad::vad_command().name == "vad"@ && cmd_vad::vad_command().action == Some(cli::Action::Vad),
        cmd_voice::voice_command().name == "voice"@ && cmd_voice::voice_command().action == Some(cli::Action::Voice),
        cmd_telemetry::telemetry_blast_command().name == "blast"@ && cmd_telemetry::telemetry_blast_command().action
            == Some(cli::Action::TelemetryBlast),
        cmd_telemetry::telemetry_emit_command().name == "emit"@ && cmd_telemetry::telemetry_emit_command().action
            == Some(cli::Action::TelemetryEmit),
        cmd_tool::tool_command().name == "tool-call"@ && cmd_tool::tool_command().action == Some(cli::Action::ToolCall),
        cmd_update::update_command().name == "update"@ && cmd_update::update_command().action == Some(cli::Action::Update),
        cmd_version::version_command().name == "version"@ && cmd_version::version_command().action == Some(
            cli::Action::Version,
        ),
        cmd_run::llm_generate_command(kit).name == "generate"@ && cmd_run::llm_generate_command(kit).action == Some(
            cli::Action::Llm(LlmVerb::Generate, ModelArg::Option),
        ),
        cmd_run::llm_stream_command(kit).name == "stream"@ && cmd_run::llm_stream_command(kit).action == Some(
            cli::Action::Llm(LlmVerb::Stream, ModelArg::Option),
        ),
        cmd_run::run_command(kit).name == "run"@ && cmd_run::run_command(kit).action == Some(
            cli::Action::Llm(LlmVerb::Chat, ModelArg::Positional),
        ),
        cmd_run::vlm_generate_command(kit).parent == "vlm"@ && cmd_run::vlm_generate_command(kit).action == Some(
            cli::Action::VlmGenerate,
        ),
        cmd_harness::opencode_command().name == "opencode"@ && cmd_harness::opencode_command().action == Some(
            cli::Action::Opencode,
        ),
{
}

} // verus!
