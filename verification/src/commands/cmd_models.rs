//! `wally models ...`: the life of a model on this machine.

use crate::cli;
use crate::cli::{Action, App, Command, CommandView, Opt, ValueType};
use crate::commands::engine_options;
use crate::commands::engine_options::{EngineHintResolution, Kit};
use crate::commands::model_labels;
use crate::commands::{cmd_list, cmd_pull, cmd_rm, cmd_show};
use crate::engine;
use crate::engine::{InferenceFramework, ModelCategory, ModelInfo, ModelRegistryStatus, SdkError};
use crate::output;
use crate::output::Channel;
use crate::output::{JsonWriter, Printed, Report, ReportView, Table};
use crate::text;
use vstd::prelude::*;

verus! {

/// The categories that the state of the machine is told by, in order.
pub open spec fn categories() -> Seq<ModelCategory> {
    seq![
        ModelCategory::Language,
        ModelCategory::Multimodal,
        ModelCategory::SpeechRecognition,
        ModelCategory::SpeechSynthesis,
        ModelCategory::VoiceActivityDetection,
        ModelCategory::Embedding,
        ModelCategory::ImageGeneration,
    ]
}

/// See [`categories`].
pub fn state_categories() -> (r: Vec<ModelCategory>)
    ensures
        r@ == categories(),
{
    let mut all: Vec<ModelCategory> = Vec::new();
    all.push(ModelCategory::Language);
    all.push(ModelCategory::Multimodal);
    all.push(ModelCategory::SpeechRecognition);
    all.push(ModelCategory::SpeechSynthesis);
    all.push(ModelCategory::VoiceActivityDetection);
    all.push(ModelCategory::Embedding);
    all.push(ModelCategory::ImageGeneration);
    assert(all@ =~= categories());
    all
}

/// The first of the categories, from `from` on, that goes by a name.
pub open spec fn category_named(name: Seq<char>, from: int) -> Option<ModelCategory>
    decreases categories().len() - from,
{
    if 0 <= from < categories().len() {
        if name == model_labels::category_label(categories()[from]) {
            Some(categories()[from])
        } else {
            category_named(name, from + 1)
        }
    } else {
        None
    }
}

/// The category that a name means.
pub fn parse_category(name: &str) -> (r: Option<ModelCategory>)
    ensures
        r == category_named(name@, 0),
{
    let all = state_categories();
    let mut i: usize = 0;
    while i < all.len()
        invariant
            all@ == categories(),
            i <= all@.len(),
            category_named(name@, 0) == category_named(name@, i as int),
        decreases all@.len() - i,
    {
        if text::str_eq(name, model_labels::category(all[i])) {
            return Some(all[i]);
        }
        i = i + 1;
    }
    None
}

/// The names of the first `n` categories, with commas between them.
pub open spec fn names_of(n: int) -> Seq<char>
    decreases n,
{
    if n <= 0 {
        Seq::empty()
    } else if names_of(n - 1).len() == 0 {
        model_labels::category_label(categories()[n - 1])
    } else {
        names_of(n - 1) + ", "@ + model_labels::category_label(categories()[n - 1])
    }
}

/// The names of all categories, as help and errors list them.
pub fn category_choices() -> (r: String)
    ensures
        r@ == names_of(7),
{
    let all = state_categories();
    let mut r = String::new();
    let mut i: usize = 0;
    while i < all.len()
        invariant
            all@ == categories(),
            i <= all@.len(),
            r@ == names_of(i as int),
        decreases all@.len() - i,
    {
        if r.as_str().is_empty() {
            r = text::owned(model_labels::category(all[i]));
        } else {
            r = text::cat3(r.as_str(), ", ", model_labels::category(all[i]));
        }
        i = i + 1;
    }
    r
}

/// What is said of a name that no category has.
pub open spec fn unknown_category(name: Seq<char>) -> Seq<char> {
    "unknown category '"@ + name + "' ("@ + names_of(7) + ")"@
}

fn unknown_category_exec(name: &str) -> (r: String)
    ensures
        r@ == unknown_category(name@),
{
    text::cat5("unknown category '", name, "' (", category_choices().as_str(), ")")
}

/// What `register`, `load`, `unload`, `list`, `show` or `state` does next.
#[derive(Clone, Copy, Debug, PartialEq, Eq, Structural)]
pub enum ModelsStage {
    /// Start the engine.
    Start,
    /// See that the names on the command line are known.
    Usage,
    /// Resolve the model reference.
    Resolve,
    /// Ask the engine, and show what it answers.
    Call,
    /// It is over, with this exit code.
    Finished(i32),
}

/// The stage after one that worked or not; `resolves` tells whether a model is
/// named. `list`, `show` and `state` have no names to see to. A name that is not
/// known exits with 2, everything else that fails with 1.
pub open spec fn models_after(resolves: bool, stage: ModelsStage, ok: bool) -> ModelsStage {
    match stage {
        ModelsStage::Start => if ok {
            ModelsStage::Usage
        } else {
            ModelsStage::Finished(1)
        },
        ModelsStage::Usage => if !ok {
            ModelsStage::Finished(2)
        } else if resolves {
            ModelsStage::Resolve
        } else {
            ModelsStage::Call
        },
        ModelsStage::Resolve => if ok {
            ModelsStage::Call
        } else {
            ModelsStage::Finished(1)
        },
        ModelsStage::Call => if ok {
            ModelsStage::Finished(0)
        } else {
            ModelsStage::Finished(1)
        },
        ModelsStage::Finished(code) => ModelsStage::Finished(code),
    }
}

/// See [`models_after`].
pub fn run_models(resolves: bool, stage: ModelsStage, ok: bool) -> (r: ModelsStage)
    ensures
        r == models_after(resolves, stage, ok),
{
    match stage {
        ModelsStage::Start => if ok {
            ModelsStage::Usage
        } else {
            ModelsStage::Finished(1)
        },
        ModelsStage::Usage => if !ok {
            ModelsStage::Finished(2)
        } else if resolves {
            ModelsStage::Resolve
        } else {
            ModelsStage::Call
        },
        ModelsStage::Resolve => if ok {
            ModelsStage::Call
        } else {
            ModelsStage::Finished(1)
        },
        ModelsStage::Call => if ok {
            ModelsStage::Finished(0)
        } else {
            ModelsStage::Finished(1)
        },
        ModelsStage::Finished(code) => ModelsStage::Finished(code),
    }
}

/// How a registration begins: how the model is resolved; or what is wrong with
/// the engine that is named, with the exit code.
pub fn run_register(engine: &str, kit: Kit) -> (r: Result<EngineHintResolution, (String, i32)>)
    ensures
        match engine_options::engine_hint(engine@, kit) {
            Err(message) => r is Err && (r->Err_0).0@ == message && (r->Err_0).1 == 2,
            Ok(f) => r == Ok::<EngineHintResolution, (String, i32)>(engine_options::resolution(f)),
        },
{
    match engine_options::resolve_engine_hint(engine, kit) {
        Ok(hint) => Ok(hint),
        Err(message) => Err((message, 2)),
    }
}

/// The reply of a registration: the model, or the error line. A bad code with a
/// readable document leaves no detail to show.
pub fn register_reply(ok: bool, parsed: Result<ModelInfo, String>) -> (r: Result<ModelInfo, String>)
    ensures
        match engine::answer_outcome(ok, Seq::empty(), parsed, false) {
            Ok(model) => r == Ok::<ModelInfo, String>(model),
            Err(message) => r is Err && r->Err_0@ == "registration failed: "@ + message,
        },
{
    let none = String::new();
    match engine::answer(ok, none.as_str(), parsed, false) {
        Ok(model) => Ok(model),
        Err(message) => Err(text::cat2("registration failed: ", message.as_str())),
    }
}

/// The writes for a model that was registered.
pub open spec fn registered_document(model: ModelInfo) -> Seq<output::JsonOpView> {
    seq![
        output::begin_object(),
        output::field_str("id"@, model.id@),
        output::field_str("name"@, model.name@),
        output::field_str("modality"@, model_labels::category_label(engine::category_of(model))),
        output::field_str("backend"@, model_labels::backend_label(engine::framework_of(model))),
        output::field_str("download_url"@, model.download_url@),
        output::field_bool("downloaded"@, model.registry_status == Some(ModelRegistryStatus::Downloaded)),
        output::end_object(),
    ]
}

/// The document of a registration.
pub fn registered_json(model: &ModelInfo) -> (json: JsonWriter)
    ensures
        json@ == registered_document(*model),
{
    let mut json = JsonWriter::new();
    json.begin_object();
    json.field_str("id", model.id.as_str());
    json.field_str("name", model.name.as_str());
    json.field_str("modality", model_labels::category(engine::category_or_unspecified(model)));
    json.field_str("backend", model_labels::backend(engine::framework_or_unspecified(model)));
    json.field_str("download_url", model.download_url.as_str());
    let downloaded = match model.registry_status {
        Some(ModelRegistryStatus::Downloaded) => true,
        _ => false,
    };
    json.field_bool("downloaded", downloaded);
    json.end_object();
    json
}

/// The line of a registration.
pub fn registered_line(model: &ModelInfo) -> (r: String)
    ensures
        r@ == "registered "@ + model.id@,
{
    text::cat2("registered ", model.id.as_str())
}

/// The framework that an explicit engine asks for; none leaves the model its
/// own. An explicit engine always wins, even for a model of the catalog.
pub fn framework_override(engine: InferenceFramework) -> (r: Option<InferenceFramework>)
    ensures
        r == if engine == InferenceFramework::Unspecified {
            None
        } else {
            Some(engine)
        },
{
    if engine == InferenceFramework::Unspecified {
        None
    } else {
        Some(engine)
    }
}

/// How a load begins: how the model is resolved, and the category it is loaded
/// as, where one is named; or what is wrong with the names, with the exit code.
pub fn run_load(engine: &str, category_name: &str, kit: Kit) -> (r: Result<
    (EngineHintResolution, Option<ModelCategory>),
    (String, i32),
>)
    ensures
        match engine_options::engine_hint(engine@, kit) {
            Err(message) => r is Err && (r->Err_0).0@ == message && (r->Err_0).1 == 2,
            Ok(f) => if category_name@.len() == 0 {
                r == Ok::<(EngineHintResolution, Option<ModelCategory>), (String, i32)>((engine_options::resolution(f), None))
            } else {
                match category_named(category_name@, 0) {
                    Some(c) => r == Ok::<(EngineHintResolution, Option<ModelCategory>), (String, i32)>(
                        (engine_options::of_category(engine_options::resolution(f), c), Some(c)),
                    ),
                    None => r is Err && (r->Err_0).0@ == unknown_category(category_name@) && (r->Err_0).1 == 2,
                }
            },
        },
{
    let hint = match engine_options::resolve_engine_hint(engine, kit) {
        Ok(hint) => hint,
        Err(message) => return Err((message, 2)),
    };
    if category_name.is_empty() {
        return Ok((hint, None));
    }
    match parse_category(category_name) {
        Some(category) => Ok((hint.for_category(category), Some(category))),
        None => Err((unknown_category_exec(category_name), 2)),
    }
}

/// What a load came to.
#[derive(Clone, Debug, Default)]
pub struct LoadedModel {
    pub model_id: String,
    pub category: Option<ModelCategory>,
    pub framework: Option<InferenceFramework>,
    pub resolved_path: String,
    pub already_loaded: bool,
    pub error: Option<SdkError>,
}

/// The reply of a load: the model, or the error line.
pub fn load_reply(ok: bool, parsed: Result<LoadedModel, String>) -> (r: Result<LoadedModel, String>)
    ensures
        match engine::answer_outcome(ok, Seq::empty(), parsed, false) {
            Ok(loaded) => match engine::report_outcome(loaded.error) {
                Ok(_) => r == Ok::<LoadedModel, String>(loaded),
                Err(message) => r is Err && r->Err_0@ == "model load failed: "@ + message,
            },
            Err(message) => r is Err && r->Err_0@ == "model load failed: "@ + message,
        },
{
    let none = String::new();
    match engine::answer(ok, none.as_str(), parsed, false) {
        Ok(loaded) => match engine::outcome_of(&loaded.error) {
            Ok(_) => Ok(loaded),
            Err(message) => Err(text::cat2("model load failed: ", message.as_str())),
        },
        Err(message) => Err(text::cat2("model load failed: ", message.as_str())),
    }
}

/// The writes for a model that was loaded.
pub open spec fn loaded_document(loaded: LoadedModel) -> Seq<output::JsonOpView> {
    seq![
        output::begin_object(),
        output::field_str("id"@, loaded.model_id@),
        output::field_str(
            "modality"@,
            match loaded.category {
                Some(c) => model_labels::category_label(c),
                None => "?"@,
            },
        ),
        output::field_str(
            "backend"@,
            match loaded.framework {
                Some(f) => model_labels::backend_label(f),
                None => "?"@,
            },
        ),
        output::field_str("path"@, loaded.resolved_path@),
        output::field_bool("already_loaded"@, loaded.already_loaded),
        output::end_object(),
    ]
}

/// The document of a load.
pub fn loaded_json(loaded: &LoadedModel) -> (json: JsonWriter)
    ensures
        json@ == loaded_document(*loaded),
{
    let mut json = JsonWriter::new();
    json.begin_object();
    json.field_str("id", loaded.model_id.as_str());
    json.field_str("modality", model_labels::category_i32(loaded.category));
    json.field_str("backend", model_labels::backend_i32(loaded.framework));
    json.field_str("path", loaded.resolved_path.as_str());
    json.field_bool("already_loaded", loaded.already_loaded);
    json.end_object();
    json
}

/// The line of a model that was loaded.
pub open spec fn loaded_text(loaded: LoadedModel) -> Seq<char> {
    "loaded "@ + loaded.model_id@ + " \u{2192} "@ + loaded.resolved_path@
}

/// The line of a load.
pub fn loaded_line(loaded: &LoadedModel) -> (r: String)
    ensures
        r@ == loaded_text(*loaded),
{
    text::cat4("loaded ", loaded.model_id.as_str(), " \u{2192} ", loaded.resolved_path.as_str())
}

/// What to free: one category, or everything where none is named; or what is
/// wrong with the name, with the exit code.
pub fn run_unload(category_name: &str) -> (r: Result<Option<ModelCategory>, (String, i32)>)
    ensures
        if category_name@.len() == 0 {
            r == Ok::<Option<ModelCategory>, (String, i32)>(None)
        } else {
            match category_named(category_name@, 0) {
                Some(c) => r == Ok::<Option<ModelCategory>, (String, i32)>(Some(c)),
                None => r is Err && (r->Err_0).0@ == unknown_category(category_name@) && (r->Err_0).1 == 2,
            }
        },
{
    if category_name.is_empty() {
        return Ok(None);
    }
    match parse_category(category_name) {
        Some(category) => Ok(Some(category)),
        None => Err((unknown_category_exec(category_name), 2)),
    }
}

/// What an unload came to.
#[derive(Clone, Debug, Default)]
pub struct UnloadResult {
    pub unloaded_model_ids: Vec<String>,
    pub error: Option<SdkError>,
}

/// The reply of an unload: the models that were freed, or the error line. To
/// free everything when nothing is loaded is no failure, though the engine
/// reports one.
pub fn unload_reply(ok: bool, unload_all: bool, parsed: Result<UnloadResult, String>) -> (r: Result<
    UnloadResult,
    String,
>)
    ensures
        match engine::answer_outcome(ok, Seq::empty(), parsed, false) {
            Ok(result) => match engine::report_outcome(result.error) {
                Err(message) => if unload_all && result.unloaded_model_ids@.len() == 0 {
                    r == Ok::<UnloadResult, String>(result)
                } else {
                    r is Err && r->Err_0@ == "unload failed: "@ + message
                },
                Ok(_) => r == Ok::<UnloadResult, String>(result),
            },
            Err(message) => r is Err && r->Err_0@ == "unload failed: "@ + message,
        },
{
    let none = String::new();
    match engine::answer(ok, none.as_str(), parsed, false) {
        Ok(result) => match engine::outcome_of(&result.error) {
            Ok(_) => Ok(result),
            Err(message) => if unload_all && result.unloaded_model_ids.len() == 0 {
                Ok(result)
            } else {
                Err(text::cat2("unload failed: ", message.as_str()))
            },
        },
        Err(message) => Err(text::cat2("unload failed: ", message.as_str())),
    }
}

/// The writes for the first `n` models that were freed.
pub open spec fn unloaded_ops(ids: Seq<String>, n: int) -> Seq<output::JsonOpView>
    decreases n,
{
    if n <= 0 {
        Seq::empty()
    } else {
        unloaded_ops(ids, n - 1) + seq![
            output::begin_array_object(),
            output::field_str("id"@, ids[n - 1]@),
            output::end_object(),
        ]
    }
}

/// The writes for the models that were unloaded.
pub open spec fn unloaded_document(result: UnloadResult) -> Seq<output::JsonOpView> {
    seq![output::begin_object(), output::begin_array("unloaded"@)] + unloaded_ops(
        result.unloaded_model_ids@,
        result.unloaded_model_ids@.len() as int,
    ) + seq![output::end_array(), output::end_object()]
}

/// The document of an unload.
pub fn unloaded_json(result: &UnloadResult) -> (json: JsonWriter)
    ensures
        json@ == unloaded_document(*result),
{
    let mut json = JsonWriter::new();
    json.begin_object();
    json.begin_array("unloaded");
    let ghost head = json@;
    let ghost ids = result.unloaded_model_ids@;
    assert(head + unloaded_ops(ids, 0) =~= head);
    let mut i: usize = 0;
    while i < result.unloaded_model_ids.len()
        invariant
            i <= result.unloaded_model_ids@.len(),
            ids == result.unloaded_model_ids@,
            json@ == head + unloaded_ops(ids, i as int),
        decreases result.unloaded_model_ids@.len() - i,
    {
        json.begin_array_object();
        json.field_str("id", result.unloaded_model_ids[i].as_str());
        json.end_object();
        i = i + 1;
        assert(json@ =~= head + unloaded_ops(ids, i as int));
    }
    json.end_array();
    json.end_object();
    assert(json@ =~= head + unloaded_ops(ids, ids.len() as int) + seq![output::end_array(), output::end_object()]);
    json
}

/// The lines of the models that were unloaded.
pub open spec fn unloaded_text(result: UnloadResult) -> Seq<(Channel, Seq<char>)> {
    if result.unloaded_model_ids@.len() == 0 {
        seq![output::result("nothing was loaded"@)]
    } else {
        result.unloaded_model_ids@.map_values(|id: String| output::result("unloaded "@ + id@))
    }
}

/// The lines of an unload.
pub fn unloaded_lines(result: &UnloadResult) -> (r: Printed)
    ensures
        r@ == unloaded_text(*result),
{
    let mut printed = Printed::new();
    if result.unloaded_model_ids.len() == 0 {
        printed.result(text::owned("nothing was loaded"));
        return printed;
    }
    let ghost lines = result.unloaded_model_ids@.map_values(|id: String| output::result("unloaded "@ + id@));
    assert(printed@ =~= lines.take(0));
    let mut i: usize = 0;
    while i < result.unloaded_model_ids.len()
        invariant
            i <= result.unloaded_model_ids@.len(),
            lines == result.unloaded_model_ids@.map_values(|id: String| output::result("unloaded "@ + id@)),
            printed@ == lines.take(i as int),
        decreases result.unloaded_model_ids@.len() - i,
    {
        printed.result(text::cat2("unloaded ", result.unloaded_model_ids[i].as_str()));
        i = i + 1;
        assert(printed@ =~= lines.take(i as int));
    }
    assert(printed@ =~= lines);
    printed
}

/// The model that is loaded for a category; empty when none is, or when the
/// engine does not say.
pub fn loaded_model_id(ok: bool, parsed: Result<(bool, String), String>) -> (r: String)
    ensures
        r@ == match parsed {
            Ok(current) => if ok && current.0 {
                current.1@
            } else {
                Seq::empty()
            },
            Err(_) => Seq::empty(),
        },
{
    match parsed {
        Ok(current) => if ok && current.0 {
            current.1
        } else {
            String::new()
        },
        Err(_) => String::new(),
    }
}

/// The loaded models of the first `n` categories, with the names of their
/// categories; one that is empty is left out.
pub open spec fn resident(ids: Seq<String>, n: int) -> Seq<(Seq<char>, Seq<char>)>
    decreases n,
{
    if n <= 0 {
        Seq::empty()
    } else if ids[n - 1]@.len() > 0 {
        resident(ids, n - 1).push((model_labels::category_label(categories()[n - 1]), ids[n - 1]@))
    } else {
        resident(ids, n - 1)
    }
}

/// Pairs of texts, as values.
pub open spec fn rows_view(rows: Seq<(&'static str, String)>) -> Seq<(Seq<char>, Seq<char>)> {
    rows.map_values(|r: (&'static str, String)| (r.0@, r.1@))
}

/// The loaded models; `ids` holds one for each of the categories, in their
/// order.
pub fn resident_models(ids: &Vec<String>) -> (r: Vec<(&'static str, String)>)
    requires
        ids@.len() == categories().len(),
    ensures
        rows_view(r@) == resident(ids@, ids@.len() as int),
{
    let all = state_categories();
    let mut rows: Vec<(&'static str, String)> = Vec::new();
    assert(rows_view(rows@) =~= Seq::empty());
    let mut i: usize = 0;
    while i < ids.len()
        invariant
            i <= ids@.len() == all@.len(),
            all@ == categories(),
            rows_view(rows@) == resident(ids@, i as int),
        decreases ids@.len() - i,
    {
        if !ids[i].as_str().is_empty() {
            let ghost before = rows_view(rows@);
            rows.push((model_labels::category(all[i]), text::owned(ids[i].as_str())));
            assert(rows_view(rows@) =~= before.push(
                (model_labels::category_label(categories()[i as int]), ids@[i as int]@),
            ));
        }
        i = i + 1;
    }
    rows
}

/// The writes for the first `n` loaded models.
pub open spec fn resident_ops(rows: Seq<(Seq<char>, Seq<char>)>, n: int) -> Seq<output::JsonOpView>
    decreases n,
{
    if n <= 0 {
        Seq::empty()
    } else {
        resident_ops(rows, n - 1) + seq![
            output::begin_array_object(),
            output::field_str("modality"@, rows[n - 1].0),
            output::field_str("id"@, rows[n - 1].1),
            output::end_object(),
        ]
    }
}

/// The writes for the state: what is loaded, and the storage.
pub open spec fn state_document(rows: Seq<(Seq<char>, Seq<char>)>, used_bytes: u64, free_bytes: u64) -> Seq<
    output::JsonOpView,
> {
    seq![output::begin_object(), output::begin_array("loaded"@)] + resident_ops(rows, rows.len() as int) + seq![
        output::end_array(),
        output::field_i64("storage_used_bytes"@, (used_bytes as i64) as int),
        output::field_i64("storage_free_bytes"@, (free_bytes as i64) as int),
        output::end_object(),
    ]
}

/// The document of the state.
pub fn state_json(rows: &Vec<(&'static str, String)>, used_bytes: u64, free_bytes: u64) -> (json: JsonWriter)
    ensures
        json@ == state_document(rows_view(rows@), used_bytes, free_bytes),
{
    let mut json = JsonWriter::new();
    json.begin_object();
    json.begin_array("loaded");
    let ghost head = json@;
    let ghost views = rows_view(rows@);
    assert(head + resident_ops(views, 0) =~= head);
    let mut i: usize = 0;
    while i < rows.len()
        invariant
            i <= rows@.len(),
            views == rows_view(rows@),
            json@ == head + resident_ops(views, i as int),
        decreases rows@.len() - i,
    {
        json.begin_array_object();
        json.field_str("modality", rows[i].0);
        json.field_str("id", rows[i].1.as_str());
        json.end_object();
        i = i + 1;
        assert(json@ =~= head + resident_ops(views, i as int));
    }
    json.end_array();
    json.field_i64("storage_used_bytes", used_bytes as i64);
    json.field_i64("storage_free_bytes", free_bytes as i64);
    json.end_object();
    assert(json@ =~= head + resident_ops(views, views.len() as int) + seq![
        output::end_array(),
        output::field_i64("storage_used_bytes"@, (used_bytes as i64) as int),
        output::field_i64("storage_free_bytes"@, (free_bytes as i64) as int),
        output::end_object(),
    ]);
    json
}

/// The line of the storage; the sizes come as they are shown.
pub open spec fn storage_said(used: Seq<char>, free: Seq<char>) -> Seq<char> {
    "storage    "@ + used + " used, "@ + free + " free"@
}

fn storage_line(used: &str, free: &str) -> (r: String)
    ensures
        r@ == storage_said(used@, free@),
{
    text::cat5("storage    ", used, " used, ", free, " free")
}

/// The table of loaded models.
fn state_table(rows: &Vec<(&'static str, String)>) -> (r: Table)
    ensures
        output::strings_view(r.header@) == seq!["MODALITY"@, "LOADED"@],
        output::rows_view(r.rows@) == Seq::new(rows@.len(), |i: int| seq![rows@[i].0@, rows@[i].1@]),
{
    let header = cli::words2("MODALITY", "LOADED");
    let mut cells: Vec<Vec<String>> = Vec::new();
    let ghost wanted = Seq::new(rows@.len(), |i: int| seq![rows@[i].0@, rows@[i].1@]);
    let mut i: usize = 0;
    assert(output::rows_view(cells@) =~= wanted.take(0));
    while i < rows.len()
        invariant
            i <= rows@.len(),
            wanted == Seq::new(rows@.len(), |i: int| seq![rows@[i].0@, rows@[i].1@]),
            output::rows_view(cells@) == wanted.take(i as int),
        decreases rows@.len() - i,
    {
        let ghost before = output::rows_view(cells@);
        let row = cli::words2(rows[i].0, rows[i].1.as_str());
        cells.push(row);
        i = i + 1;
        assert(output::rows_view(cells@) =~= before.push(output::strings_view(row@)));
        assert(output::rows_view(cells@) =~= wanted.take(i as int));
    }
    assert(wanted.take(rows@.len() as int) =~= wanted);
    Table { header, rows: cells }
}

/// What the state shows; `used` and `free` are the sizes as they are shown.
pub fn run_state(
    rows: &Vec<(&'static str, String)>,
    used_bytes: u64,
    free_bytes: u64,
    used: &str,
    free: &str,
    json: bool,
) -> (r: Report)
    ensures
        r@ == if json {
            ReportView::Document(state_document(rows_view(rows@), used_bytes, free_bytes))
        } else if rows@.len() == 0 {
            ReportView::Lines(
                seq![output::result("no models loaded"@), output::result(storage_said(used@, free@))],
            )
        } else {
            ReportView::Table(
                Seq::empty(),
                seq!["MODALITY"@, "LOADED"@],
                Seq::new(rows@.len(), |i: int| seq![rows@[i].0@, rows@[i].1@]),
                seq![output::result(storage_said(used@, free@))],
            )
        },
{
    if json {
        return Report::Document(state_json(rows, used_bytes, free_bytes));
    }
    let mut printed = Printed::new();
    if rows.len() == 0 {
        printed.result(text::owned("no models loaded"));
        printed.result(storage_line(used, free));
        assert(printed@ =~= seq![output::result("no models loaded"@), output::result(storage_said(used@, free@))]);
        return Report::Lines(printed);
    }
    printed.result(storage_line(used, free));
    assert(printed@ =~= seq![output::result(storage_said(used@, free@))]);
    Report::Table(Printed::new(), state_table(rows), printed)
}

/// The first of the free spaces that could be told, from the models directory
/// up; none where nothing could.
pub open spec fn nearest_free(available: Seq<Option<u64>>) -> u64
    decreases available.len(),
{
    if available.len() == 0 {
        0
    } else {
        match available[0] {
            Some(bytes) => bytes,
            None => nearest_free(available.skip(1)),
        }
    }
}

/// What models take and what is left for more: the models directory may not
/// exist yet, so the free space is that of the nearest directory above it that
/// does. `available` holds the free space at the models directory and at each
/// of those above it.
pub fn models_storage(used_bytes: u64, available: &Vec<Option<u64>>) -> (r: (u64, u64))
    ensures
        r == (used_bytes, nearest_free(available@)),
{
    let mut i: usize = 0;
    assert(available@.skip(0) =~= available@);
    while i < available.len()
        invariant
            i <= available@.len(),
            nearest_free(available@) == nearest_free(available@.skip(i as int)),
        decreases available@.len() - i,
    {
        if let Some(bytes) = available[i] {
            return (used_bytes, bytes);
        }
        assert(available@.skip(i as int).skip(1) =~= available@.skip(i + 1));
        i = i + 1;
    }
    (used_bytes, 0)
}

proof fn labels_differ()
    ensures
        "llm"@ != "vlm"@ && "llm"@ != "stt"@ && "llm"@ != "tts"@ && "llm"@ != "vad"@,
        "vlm"@ != "stt"@ && "vlm"@ != "tts"@ && "vlm"@ != "vad"@,
        "stt"@ != "tts"@ && "stt"@ != "vad"@ && "tts"@ != "vad"@,
        "embedding"@ != "diffusion"@,
        "embedding"@.len() == 9 && "diffusion"@.len() == 9,
        "llm"@.len() == 3 && "vlm"@.len() == 3 && "stt"@.len() == 3 && "tts"@.len() == 3 && "vad"@.len() == 3,
{
    reveal_strlit("llm");
    reveal_strlit("vlm");
    reveal_strlit("stt");
    reveal_strlit("tts");
    reveal_strlit("vad");
    reveal_strlit("embedding");
    reveal_strlit("diffusion");
    assert("llm"@[0] == 'l' && "vlm"@[0] == 'v' && "stt"@[0] == 's' && "tts"@[0] == 't' && "vad"@[0] == 'v');
    assert("vlm"@[1] == 'l' && "vad"@[1] == 'a');
    assert("embedding"@[0] == 'e' && "diffusion"@[0] == 'd');
}

/// Every category that help and errors list is known by the name they list.
pub proof fn a_listed_category_is_known(i: int)
    requires
        0 <= i < categories().len(),
    ensures
        category_named(model_labels::category_label(categories()[i]), 0) == Some(categories()[i]),
{
    labels_differ();
    reveal_with_fuel(category_named, 8);
}

/// Each model that is resident is told under the modality it is resident for, and
/// none other is: what is asked of the `i`-th modality is told as of that one.
pub proof fn a_resident_model_is_told_under_its_modality(ids: Seq<String>, n: int)
    requires
        0 <= n <= ids.len(),
        n <= categories().len(),
    ensures
        ({
            let rows = resident(ids, n);
            &&& forall|i: int|
                0 <= i < n && (#[trigger] ids[i])@.len() > 0 ==> rows.contains(
                    (model_labels::category_label(categories()[i]), ids[i]@),
                )
            &&& forall|x: (Seq<char>, Seq<char>)| #[trigger]
                rows.contains(x) ==> exists|i: int|
                    0 <= i < n && (#[trigger] ids[i])@.len() > 0 && x == (
                        model_labels::category_label(categories()[i]),
                        ids[i]@,
                    )
        }),
    decreases n,
{
    if n > 0 {
        a_resident_model_is_told_under_its_modality(ids, n - 1);
        let before = resident(ids, n - 1);
        let rows = resident(ids, n);
        assert forall|x: (Seq<char>, Seq<char>)| #[trigger] before.contains(x) implies rows.contains(x) by {
            let k = choose|k: int| 0 <= k < before.len() && before[k] == x;
            assert(rows[k] == x);
        }
        if ids[n - 1]@.len() > 0 {
            assert(rows.last() == (model_labels::category_label(categories()[n - 1]), ids[n - 1]@));
        }
        assert forall|x: (Seq<char>, Seq<char>)| #[trigger] rows.contains(x) implies exists|i: int|
            0 <= i < n && (#[trigger] ids[i])@.len() > 0 && x == (
                model_labels::category_label(categories()[i]),
                ids[i]@,
            ) by {
            let k = choose|k: int| 0 <= k < rows.len() && rows[k] == x;
            if k < before.len() {
                assert(before[k] == x);
                assert(before.contains(x));
            } else {
                assert(ids[n - 1]@.len() > 0);
            }
        }
    }
}

/// Free space is that of the nearest place where it is known.
pub proof fn free_space_is_the_nearest_known(available: Seq<Option<u64>>, i: int)
    requires
        0 <= i < available.len(),
        available[i] is Some,
        forall|j: int| 0 <= j < i ==> (#[trigger] available[j]) is None,
    ensures
        nearest_free(available) == available[i]->0,
    decreases available.len(),
{
    if i > 0 {
        assert(available[0] is None);
        let rest = available.skip(1);
        assert(rest[i - 1] == available[i]);
        assert forall|j: int| 0 <= j < i - 1 implies (#[trigger] rest[j]) is None by {
            assert(rest[j] == available[j + 1]);
        }
        free_space_is_the_nearest_known(rest, i - 1);
    }
}

/// What is told of a model that was registered or loaded is its own.
pub proof fn a_model_is_told_as_it_is(model: ModelInfo, loaded: LoadedModel)
    ensures
        ({
            let ops = registered_document(model);
            &&& ops.contains(output::field_str("id"@, model.id@))
            &&& ops.contains(output::field_str("name"@, model.name@))
            &&& model.category is Some ==> ops.contains(
                output::field_str("modality"@, model_labels::category_label(model.category->0)),
            )
            &&& model.framework is Some ==> ops.contains(
                output::field_str("backend"@, model_labels::backend_label(model.framework->0)),
            )
            &&& ops.contains(output::field_str("download_url"@, model.download_url@))
            &&& model.registry_status == Some(ModelRegistryStatus::Downloaded) ==> ops.contains(
                output::field_bool("downloaded"@, true),
            )
            &&& model.registry_status != Some(ModelRegistryStatus::Downloaded) ==> ops.contains(
                output::field_bool("downloaded"@, false),
            )
        }),
        ({
            let ops = loaded_document(loaded);
            &&& ops.contains(output::field_str("id"@, loaded.model_id@))
            &&& loaded.category is Some ==> ops.contains(
                output::field_str("modality"@, model_labels::category_label(loaded.category->0)),
            )
            &&& loaded.framework is Some ==> ops.contains(
                output::field_str("backend"@, model_labels::backend_label(loaded.framework->0)),
            )
            &&& ops.contains(output::field_str("path"@, loaded.resolved_path@))
            &&& ops.contains(output::field_bool("already_loaded"@, loaded.already_loaded))
        }),
{
    let ops = registered_document(model);
    assert(ops[1] == output::field_str("id"@, model.id@));
    assert(ops[2] == output::field_str("name"@, model.name@));
    assert(ops[3] == output::field_str("modality"@, model_labels::category_label(engine::category_of(model))));
    assert(ops[4] == output::field_str("backend"@, model_labels::backend_label(engine::framework_of(model))));
    assert(ops[5] == output::field_str("download_url"@, model.download_url@));
    assert(ops[6] == output::field_bool(
        "downloaded"@,
        model.registry_status == Some(ModelRegistryStatus::Downloaded),
    ));
    let lops = loaded_document(loaded);
    assert(lops[1] == output::field_str("id"@, loaded.model_id@));
    assert(lops[2].1 == "modality"@);
    assert(lops[3].1 == "backend"@);
    assert(lops[4] == output::field_str("path"@, loaded.resolved_path@));
    assert(lops[5] == output::field_bool("already_loaded"@, loaded.already_loaded));
}

/// Every model that was unloaded is told, in order; where none was, that is said.
pub proof fn every_unloaded_model_is_told(result: UnloadResult, i: int)
    requires
        0 <= i < result.unloaded_model_ids@.len(),
    ensures
        unloaded_text(result).len() == result.unloaded_model_ids@.len(),
        unloaded_text(result)[i] == (Channel::Result, "unloaded "@ + result.unloaded_model_ids@[i]@),
        unloaded_document(result).len() == 3 * result.unloaded_model_ids@.len() + 4,
        unloaded_document(result)[3 * i + 3] == output::field_str("id"@, result.unloaded_model_ids@[i]@),
{
    let ids = result.unloaded_model_ids@;
    each_unloaded_id_is_written(ids, ids.len() as int, i);
    let ops = unloaded_ops(ids, ids.len() as int);
    assert(unloaded_document(result)[3 * i + 3] == ops[3 * i + 1]);
}

proof fn each_unloaded_id_is_written(ids: Seq<String>, n: int, i: int)
    requires
        0 <= i < n <= ids.len(),
    ensures
        unloaded_ops(ids, n).len() == 3 * n,
        unloaded_ops(ids, n)[3 * i + 1] == output::field_str("id"@, ids[i]@),
    decreases n,
{
    if n > 1 {
        each_unloaded_id_is_written(
            ids,
            n - 1,
            if i < n - 1 {
                i
            } else {
                n - 2
            },
        );
        if i < n - 1 {
            assert(unloaded_ops(ids, n)[3 * i + 1] == unloaded_ops(ids, n - 1)[3 * i + 1]);
        }
    } else {
        assert(unloaded_ops(ids, 0) =~= Seq::empty());
    }
}

/// The state of the models names each resident one under its modality, and used
/// space apart from free.
pub proof fn the_state_is_told_in_order(rows: Seq<(Seq<char>, Seq<char>)>, used_bytes: u64, free_bytes: u64, i: int)
    requires
        0 <= i < rows.len(),
    ensures
        ({
            let ops = state_document(rows, used_bytes, free_bytes);
            let n = rows.len() as int;
            &&& ops.len() == 4 * n + 6
            &&& ops[4 * i + 3] == output::field_str("modality"@, rows[i].0)
            &&& ops[4 * i + 4] == output::field_str("id"@, rows[i].1)
            &&& used_bytes <= i64::MAX ==> ops[4 * n + 3] == output::field_i64(
                "storage_used_bytes"@,
                used_bytes as int,
            )
            &&& free_bytes <= i64::MAX ==> ops[4 * n + 4] == output::field_i64(
                "storage_free_bytes"@,
                free_bytes as int,
            )
        }),
{
    each_resident_is_written(rows, rows.len() as int, i);
    let ops = resident_ops(rows, rows.len() as int);
    let doc = state_document(rows, used_bytes, free_bytes);
    assert(doc[4 * i + 3] == ops[4 * i + 1]);
    assert(doc[4 * i + 4] == ops[4 * i + 2]);
}

proof fn each_resident_is_written(rows: Seq<(Seq<char>, Seq<char>)>, n: int, i: int)
    requires
        0 <= i < n <= rows.len(),
    ensures
        resident_ops(rows, n).len() == 4 * n,
        resident_ops(rows, n)[4 * i + 1] == output::field_str("modality"@, rows[i].0),
        resident_ops(rows, n)[4 * i + 2] == output::field_str("id"@, rows[i].1),
    decreases n,
{
    if n > 1 {
        each_resident_is_written(
            rows,
            n - 1,
            if i < n - 1 {
                i
            } else {
                n - 2
            },
        );
        if i < n - 1 {
            assert(resident_ops(rows, n)[4 * i + 1] == resident_ops(rows, n - 1)[4 * i + 1]);
            assert(resident_ops(rows, n)[4 * i + 2] == resident_ops(rows, n - 1)[4 * i + 2]);
        }
    } else {
        assert(resident_ops(rows, 0) =~= Seq::empty());
    }
}

/// A call is made only once everything it needs is there, and its outcome is that
/// of the command: a wrong use ends it with two, any other failure with one.
pub proof fn a_call_is_the_last_step(resolves: bool, ok: bool)
    ensures
        models_after(resolves, ModelsStage::Start, true) == ModelsStage::Usage,
        models_after(true, ModelsStage::Usage, true) == ModelsStage::Resolve,
        models_after(false, ModelsStage::Usage, true) == ModelsStage::Call,
        models_after(resolves, ModelsStage::Resolve, true) == ModelsStage::Call,
        models_after(resolves, ModelsStage::Usage, false) == ModelsStage::Finished(2),
        models_after(resolves, ModelsStage::Start, false) == ModelsStage::Finished(1),
        models_after(resolves, ModelsStage::Resolve, false) == ModelsStage::Finished(1),
        models_after(resolves, ModelsStage::Call, ok) == ModelsStage::Finished(
            if ok {
                0
            } else {
                1
            },
        ),
{
}

/// What is said of a model that was loaded names it and where it is; what is said
/// of space names what is used before what is free.
pub proof fn space_is_told_used_before_free(loaded: LoadedModel, used: Seq<char>, free: Seq<char>, name: Seq<char>, n: int)
    requires
        0 < n <= 7,
    ensures
        loaded_text(loaded) == "loaded "@ + loaded.model_id@ + " \u{2192} "@ + loaded.resolved_path@,
        storage_said(used, free) == "storage    "@ + used + " used, "@ + free + " free"@,
        unknown_category(name) == "unknown category '"@ + name + "' ("@ + names_of(7) + ")"@,
        names_of(n - 1).len() > 0 ==> names_of(n) == names_of(n - 1) + ", "@ + model_labels::category_label(
            categories()[n - 1],
        ),
        names_of(0).len() == 0,
        names_of(1) == model_labels::category_label(ModelCategory::Language),
{
    reveal_with_fuel(names_of, 2);
}

/// The `models` namespace.
pub open spec fn models_command() -> CommandView {
    cli::top("models"@, "Manage local models"@).require_subcommand(1, 1)
}

/// The `models list` command.
pub open spec fn models_list_command() -> CommandView {
    cmd_list::with_models_list(
        cli::command("models"@, "list"@, "List downloaded models (--all for the catalog)"@)
            .alias("ls"@)
            .example("wally models list --all"@, "Browse the whole catalog"@),
    )
}

/// The `models show` command.
pub open spec fn models_show_command() -> CommandView {
    cmd_show::with_models_get(
        cli::command("models"@, "show"@, "Show a model's details"@)
            .alias("get"@)
            .example("wally models show granite-4.2-8b"@, ""@),
    )
}

/// The `models pull` command.
pub open spec fn models_pull_command(kit: Kit) -> CommandView {
    cmd_pull::with_models_download(
        cli::command("models"@, "pull"@, "Download a model"@)
            .alias("download"@)
            .example("wally models pull qwen3-4b-instruct-2507"@, "Certified for coding harnesses"@)
            .example("wally models pull hf.co/<org>/<repo>/<file>"@, "From Hugging Face"@),
        kit,
    )
}

/// The `models rm` command.
pub open spec fn models_rm_command() -> CommandView {
    cmd_rm::with_models_delete(
        cli::command("models"@, "rm"@, "Delete a downloaded model"@)
            .example("wally models rm qwen3-4b-instruct-2507"@, ""@)
            .alias("remove"@)
            .alias("delete"@),
    )
}

/// The `models register` command, which help does not list.
pub open spec fn models_register_command() -> CommandView {
    cli::command("models"@, "register"@, "Add a model from a URL or hf.co ref to the registry"@)
        .group(""@)
        .option(cli::opt("model"@, ValueType::Text, "hf.co/org/repo/file, hf:// or http(s) URL"@).required())
        .option(
            cli::opt("--engine"@, ValueType::Text, "Pin the inference engine (mlx, llamacpp, onnx, sherpa)"@),
        )
        .action(Action::ModelsRegister)
}

/// The `models load` command, which help does not list.
pub open spec fn models_load_command() -> CommandView {
    cli::command("models"@, "load"@, "Load a model now instead of on first use"@)
        .group(""@)
        .option(cli::opt("model"@, ValueType::Text, "Model id, alias, hf.co/... ref or URL"@).required())
        .option(
            cli::opt(
                "--engine,--framework"@,
                ValueType::Text,
                "Pin the inference engine (mlx, llamacpp, onnx, sherpa)"@,
            ),
        )
        .option(cli::opt("--category"@, ValueType::Text, "Load it as this modality ("@ + names_of(7) + ")"@))
        .action(Action::ModelsLoad)
}

/// The `models unload` command, which help does not list.
pub open spec fn models_unload_command() -> CommandView {
    cli::command("models"@, "unload"@, "Free loaded models, all of them by default"@)
        .group(""@)
        .option(cli::opt("category"@, ValueType::Text, "Only free this modality ("@ + names_of(7) + ")"@))
        .action(Action::ModelsUnload)
}

/// The `models state` command, which help does not list.
pub open spec fn models_state_command() -> CommandView {
    cli::command("models"@, "state"@, "Report resident models and disk usage"@)
        .group(""@)
        .action(Action::ModelsState)
}

/// The verbs of `models` that help lists.
pub open spec fn models_verbs(kit: Kit) -> Seq<CommandView> {
    seq![models_list_command(), models_show_command(), models_pull_command(kit), models_rm_command()]
}

fn register_models_verbs(app: &mut App, kit: Kit)
    ensures
        final(app)@ == old(app)@.extend(models_verbs(kit)),
{
    let ghost before = app@;
    let mut list = Command::new("models", "list", "List downloaded models (--all for the catalog)");
    list.alias("ls");
    list.example("wally models list --all", "Browse the whole catalog");
    cmd_list::configure_models_list(&mut list);
    app.add(list);
    let mut show = Command::new("models", "show", "Show a model's details");
    show.alias("get");
    show.example("wally models show granite-4.2-8b", "");
    cmd_show::configure_models_get(&mut show);
    app.add(show);
    let mut pull = Command::new("models", "pull", "Download a model");
    pull.alias("download");
    pull.example("wally models pull qwen3-4b-instruct-2507", "Certified for coding harnesses");
    pull.example("wally models pull hf.co/<org>/<repo>/<file>", "From Hugging Face");
    cmd_pull::configure_models_download(&mut pull, kit);
    app.add(pull);
    let mut rm = Command::new("models", "rm", "Delete a downloaded model");
    rm.example("wally models rm qwen3-4b-instruct-2507", "");
    rm.alias("remove");
    rm.alias("delete");
    cmd_rm::configure_models_delete(&mut rm);
    app.add(rm);
    assert(app@ =~= before.extend(models_verbs(kit)));
}

/// The verbs of `models` that stay callable but out of its help.
pub open spec fn models_hidden_verbs() -> Seq<CommandView> {
    seq![models_register_command(), models_load_command(), models_unload_command(), models_state_command()]
}

fn register_models_hidden_verbs(app: &mut App)
    ensures
        final(app)@ == old(app)@.extend(models_hidden_verbs()),
{
    let ghost before = app@;
    let mut register = Command::new("models", "register", "Add a model from a URL or hf.co ref to the registry");
    register.group("");
    register.add_option(
        Opt::value("model", ValueType::Text, "hf.co/org/repo/file, hf:// or http(s) URL").required(),
    );
    register.add_option(
        Opt::value("--engine", ValueType::Text, "Pin the inference engine (mlx, llamacpp, onnx, sherpa)"),
    );
    register.callback(Action::ModelsRegister);
    app.add(register);
    let mut load = Command::new("models", "load", "Load a model now instead of on first use");
    load.group("");
    load.add_option(Opt::value("model", ValueType::Text, "Model id, alias, hf.co/... ref or URL").required());
    load.add_option(
        Opt::value(
            "--engine,--framework",
            ValueType::Text,
            "Pin the inference engine (mlx, llamacpp, onnx, sherpa)",
        ),
    );
    load.add_option(
        Opt::value(
            "--category",
            ValueType::Text,
            text::cat3("Load it as this modality (", category_choices().as_str(), ")").as_str(),
        ),
    );
    load.callback(Action::ModelsLoad);
    app.add(load);
    let mut unload = Command::new("models", "unload", "Free loaded models, all of them by default");
    unload.group("");
    unload.add_option(
        Opt::value(
            "category",
            ValueType::Text,
            text::cat3("Only free this modality (", category_choices().as_str(), ")").as_str(),
        ),
    );
    unload.callback(Action::ModelsUnload);
    app.add(unload);
    let mut state = Command::new("models", "state", "Report resident models and disk usage");
    state.group("");
    state.callback(Action::ModelsState);
    app.add(state);
    assert(app@ =~= before.extend(models_hidden_verbs()));
}

/// Registers `models` and its verbs.
pub fn register_models(app: &mut App, kit: Kit)
    ensures
        final(app)@ == old(app)@.push(models_command()).extend(models_verbs(kit)).extend(models_hidden_verbs()),
{
    let mut ns = Command::top("models", "Manage local models");
    ns.require_subcommand(1, 1);
    app.add(ns);
    register_models_verbs(app, kit);
    register_models_hidden_verbs(app);
}

/// The `ls` command.
pub open spec fn ls_command() -> CommandView {
    cmd_list::with_models_list(
        cli::top("ls"@, "List models (alias of `models list`)"@)
            .alias("list"@),
    )
}

/// The `show` command.
pub open spec fn show_command() -> CommandView {
    cmd_show::with_models_get(
        cli::top("show"@, "Show model details (alias of `models get`)"@),
    )
}

/// The `pull` command.
pub open spec fn pull_command(kit: Kit) -> CommandView {
    cmd_pull::with_models_download(
        cli::top("pull"@, "Download a model (alias of `models download`)"@),
        kit,
    )
}

/// The `rm` command.
pub open spec fn rm_command() -> CommandView {
    cmd_rm::with_models_delete(
        cli::top("rm"@, "Delete a model (alias of `models delete`)"@)
            .alias("remove"@),
    )
}

/// Registers the short forms of the verbs of `models`.
pub fn register_models_aliases(app: &mut App, kit: Kit)
    ensures
        final(app)@ == old(app)@.push(ls_command()).push(show_command()).push(pull_command(kit)).push(rm_command()),
{
    let mut ls = Command::top("ls", "List models (alias of `models list`)");
    ls.alias("list");
    cmd_list::configure_models_list(&mut ls);
    app.add(ls);
    let mut show = Command::top("show", "Show model details (alias of `models get`)");
    cmd_show::configure_models_get(&mut show);
    app.add(show);
    let mut pull = Command::top("pull", "Download a model (alias of `models download`)");
    cmd_pull::configure_models_download(&mut pull, kit);
    app.add(pull);
    let mut rm = Command::top("rm", "Delete a model (alias of `models delete`)");
    rm.alias("remove");
    cmd_rm::configure_models_delete(&mut rm);
    app.add(rm);
}

/// A short form takes what the verb of `models` takes and does what it does.
pub proof fn a_short_form_is_the_verb(kit: Kit)
    ensures
        ls_command().options == models_list_command().options,
        ls_command().action == models_list_command().action,
        show_command().options == models_show_command().options,
        show_command().action == models_show_command().action,
        pull_command(kit).options == models_pull_command(kit).options,
        pull_command(kit).action == models_pull_command(kit).action,
        rm_command().options == models_rm_command().options,
        rm_command().action == models_rm_command().action,
{
}

} // verus!
