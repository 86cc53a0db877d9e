//! `wally models show <model>`: the details of a model.

use crate::cli;
use crate::cli::{Action, Command, CommandView, Opt, ValueType};
use crate::commands::model_labels;
use crate::engine;
use crate::engine::ModelFile;
use crate::engine::ModelInfo;
use crate::engine::ModelRegistryStatus;
use crate::output;
use crate::output::JsonWriter;
use crate::output::Printed;
use crate::text;
use vstd::prelude::*;

verus! {

/// The model to show, or the error line.
pub fn shown_model(ok: bool, parsed: Result<ModelInfo, String>, model_id: &str) -> (r: Result<ModelInfo, String>)
    ensures
        match parsed {
            Ok(model) => if ok {
                r == Ok::<ModelInfo, String>(model)
            } else {
                r is Err && r->Err_0@ == "model not found: "@ + model_id@
            },
            Err(error) => r is Err && r->Err_0@ == "model not found: "@ + model_id@ + " ("@ + error@ + ")"@,
        },
{
    match parsed {
        Ok(model) => if ok {
            Ok(model)
        } else {
            Err(text::cat2("model not found: ", model_id))
        },
        Err(error) => Err(text::cat5("model not found: ", model_id, " (", error.as_str(), ")")),
    }
}

/// Whether a model is on disk: the registry says so, or knows where.
pub open spec fn is_downloaded(model: ModelInfo) -> bool {
    model.registry_status == Some(ModelRegistryStatus::Downloaded) || model.local_path@.len() > 0
}

/// See [`is_downloaded`].
pub fn downloaded(model: &ModelInfo) -> (r: bool)
    ensures
        r == is_downloaded(*model),
{
    let listed = match model.registry_status {
        Some(ModelRegistryStatus::Downloaded) => true,
        _ => false,
    };
    listed || !model.local_path.as_str().is_empty()
}

/// The writes for the first `n` files.
pub open spec fn files_ops(files: Seq<ModelFile>, n: int) -> Seq<output::JsonOpView>
    decreases n,
{
    if n <= 0 {
        Seq::empty()
    } else {
        files_ops(files, n - 1) + seq![
            output::begin_array_object(),
            output::field_str("filename"@, files[n - 1].filename@),
            output::field_str("url"@, files[n - 1].url@),
            output::end_object(),
        ]
    }
}

/// The writes for the files of a model that has several.
pub open spec fn files_json(files: Option<Vec<ModelFile>>) -> Seq<output::JsonOpView> {
    match files {
        Some(f) => seq![output::begin_array("files"@)] + files_ops(f@, f@.len() as int) + seq![output::end_array()],
        None => Seq::empty(),
    }
}

fn put_files(json: &mut JsonWriter, files: &Option<Vec<ModelFile>>)
    ensures
        final(json)@ == old(json)@ + files_json(*files),
{
    let ghost before = json@;
    if let Some(f) = files {
        json.begin_array("files");
        let ghost head = json@;
        assert(head =~= before + seq![output::begin_array("files"@)]);
        assert(head + files_ops(f@, 0) =~= head);
        let mut i: usize = 0;
        while i < f.len()
            invariant
                i <= f@.len(),
                json@ == head + files_ops(f@, i as int),
            decreases f@.len() - i,
        {
            json.begin_array_object();
            json.field_str("filename", f[i].filename.as_str());
            json.field_str("url", f[i].url.as_str());
            json.end_object();
            i = i + 1;
            assert(json@ =~= head + files_ops(f@, i as int));
        }
        json.end_array();
    }
    assert(json@ =~= before + files_json(*files));
}

/// The writes for a model.
pub open spec fn show_document(model: ModelInfo) -> Seq<output::JsonOpView> {
    seq![
        output::begin_object(),
        output::field_str("id"@, model.id@),
        output::field_str("name"@, model.name@),
        output::field_str("category"@, model_labels::category_label(engine::category_of(model))),
        output::field_str("framework"@, model_labels::backend_label(engine::framework_of(model))),
        output::field_str("backend"@, model_labels::backend_label(engine::framework_of(model))),
        output::field_str("format"@, model_labels::format_label(engine::format_of(model))),
        output::field_str("download_url"@, model.download_url@),
        output::field_str("local_path"@, model.local_path@),
        output::field_i64("size_bytes"@, model.download_size_bytes as int),
        output::field_i64("context_length"@, model.context_length as int),
        output::field_bool("supports_thinking"@, model.supports_thinking),
        output::field_bool("downloaded"@, is_downloaded(model)),
    ] + files_json(model.files) + seq![output::end_object()]
}

/// The document of a model.
pub fn show_json(model: &ModelInfo) -> (json: JsonWriter)
    ensures
        json@ == show_document(*model),
{
    let mut json = JsonWriter::new();
    let backend = model_labels::backend(engine::framework_or_unspecified(model));
    json.begin_object();
    json.field_str("id", model.id.as_str());
    json.field_str("name", model.name.as_str());
    json.field_str("category", model_labels::category(engine::category_or_unspecified(model)));
    json.field_str("framework", backend);
    json.field_str("backend", backend);
    json.field_str("format", model_labels::format(engine::format_or_unspecified(model)));
    json.field_str("download_url", model.download_url.as_str());
    json.field_str("local_path", model.local_path.as_str());
    json.field_i64("size_bytes", model.download_size_bytes);
    json.field_i64("context_length", model.context_length as i64);
    json.field_bool("supports_thinking", model.supports_thinking);
    json.field_bool("downloaded", downloaded(model));
    let ghost head = json@;
    put_files(&mut json, &model.files);
    json.end_object();
    assert(json@ =~= head + files_json(model.files) + seq![output::end_object()]);
    json
}

/// The lines of the files of a model that has several: their names only.
pub open spec fn file_lines(files: Option<Vec<ModelFile>>) -> Seq<(output::Channel, Seq<char>)> {
    match files {
        Some(f) => f@.map_values(|file: ModelFile| output::result("file        "@ + file.filename@)),
        None => Seq::empty(),
    }
}

fn put_file_lines(printed: &mut Printed, files: &Option<Vec<ModelFile>>)
    ensures
        final(printed)@ == old(printed)@ + file_lines(*files),
{
    let ghost head = printed@;
    let ghost lines = file_lines(*files);
    assert(head + lines.take(0) =~= head);
    if let Some(f) = files {
        let mut i: usize = 0;
        while i < f.len()
            invariant
                i <= f@.len(),
                lines == f@.map_values(|file: ModelFile| output::result("file        "@ + file.filename@)),
                printed@ == head + lines.take(i as int),
            decreases f@.len() - i,
        {
            printed.result(text::cat2("file        ", f[i].filename.as_str()));
            i = i + 1;
            assert(printed@ =~= head + lines.take(i as int));
        }
        assert(lines.take(i as int) =~= lines);
    }
    assert(printed@ =~= head + lines);
}

/// The lines of a model; `size` is its size as it is shown. What is not known is
/// left out.
pub open spec fn show_text(model: ModelInfo, size: Seq<char>) -> Seq<(output::Channel, Seq<char>)> {
    seq![
        output::result("id          "@ + model.id@),
        output::result("name        "@ + model.name@),
        output::result("backend     "@ + model_labels::backend_label(engine::framework_of(model))),
    ] + (if model.download_size_bytes > 0 {
        seq![output::result("size        "@ + size)]
    } else {
        Seq::empty()
    }) + (if model.context_length > 0 {
        seq![output::result("context     "@ + text::dec(model.context_length as int))]
    } else {
        Seq::empty()
    }) + file_lines(model.files) + seq![
        output::result(
            "downloaded  "@ + if is_downloaded(model) {
                "yes"@
            } else {
                "no"@
            },
        ),
    ] + (if model.local_path@.len() > 0 {
        seq![output::result("path        "@ + model.local_path@)]
    } else {
        Seq::empty()
    }) + (if model.supports_thinking {
        seq![output::result("thinking    yes"@)]
    } else {
        Seq::empty()
    })
}

/// See [`show_text`].
pub fn run_show(model: &ModelInfo, size: &str) -> (r: Printed)
    ensures
        r@ == show_text(*model, size@),
{
    let mut printed = Printed::new();
    printed.result(text::cat2("id          ", model.id.as_str()));
    printed.result(text::cat2("name        ", model.name.as_str()));
    printed.result(
        text::cat2("backend     ", model_labels::backend(engine::framework_or_unspecified(model))),
    );
    if model.download_size_bytes > 0 {
        printed.result(text::cat2("size        ", size));
    }
    if model.context_length > 0 {
        printed.result(text::cat2("context     ", text::dec_i64(model.context_length as i64).as_str()));
    }
    let ghost head = printed@;
    put_file_lines(&mut printed, &model.files);
    printed.result(
        text::cat2(
            "downloaded  ",
            if downloaded(model) {
                "yes"
            } else {
                "no"
            },
        ),
    );
    if !model.local_path.as_str().is_empty() {
        printed.result(text::cat2("path        ", model.local_path.as_str()));
    }
    if model.supports_thinking {
        printed.result(text::owned("thinking    yes"));
    }
    assert(printed@ =~= show_text(*model, size@));
    printed
}

/// A model is told under its own names: what it is, where it comes from and where
/// it is. It counts as downloaded where the registry says so or it has a path.
pub proof fn a_model_is_shown_as_it_is(model: ModelInfo, size: Seq<char>)
    ensures
        ({
            let ops = show_document(model);
            let there = model.registry_status == Some(ModelRegistryStatus::Downloaded) || model.local_path@.len() > 0;
            &&& ops[1] == output::field_str("id"@, model.id@)
            &&& ops[2] == output::field_str("name"@, model.name@)
            &&& model.category is Some ==> ops[3] == output::field_str(
                "category"@,
                model_labels::category_label(model.category->0),
            )
            &&& model.framework is Some ==> ops[4] == output::field_str(
                "framework"@,
                model_labels::backend_label(model.framework->0),
            )
            &&& ops[5] == output::field_str("backend"@, ops[4].2)
            &&& ops[6].1 == "format"@
            &&& ops[7] == output::field_str("download_url"@, model.download_url@)
            &&& ops[8] == output::field_str("local_path"@, model.local_path@)
            &&& ops[9] == output::field_i64("size_bytes"@, model.download_size_bytes as int)
            &&& ops[10] == output::field_i64("context_length"@, model.context_length as int)
            &&& ops[11] == output::field_bool("supports_thinking"@, model.supports_thinking)
            &&& ops[12] == output::field_bool("downloaded"@, there)
        }),
        ({
            let lines = show_text(model, size);
            let there = model.registry_status == Some(ModelRegistryStatus::Downloaded) || model.local_path@.len() > 0;
            &&& lines[0] == (output::Channel::Result, "id          "@ + model.id@)
            &&& lines[1] == (output::Channel::Result, "name        "@ + model.name@)
            &&& model.framework is Some ==> lines[2] == (
                output::Channel::Result,
                "backend     "@ + model_labels::backend_label(model.framework->0),
            )
            &&& model.download_size_bytes > 0 ==> lines[3] == (output::Channel::Result, "size        "@ + size)
            &&& model.download_size_bytes <= 0 && model.context_length > 0 ==> lines[3] == (
                output::Channel::Result,
                "context     "@ + text::dec(model.context_length as int),
            )
            &&& there ==> lines.contains((output::Channel::Result, "downloaded  "@ + "yes"@))
            &&& !there ==> lines.contains((output::Channel::Result, "downloaded  "@ + "no"@))
            &&& model.supports_thinking ==> lines.last() == (output::Channel::Result, "thinking    yes"@)
            &&& model.local_path@.len() > 0 ==> lines.contains(
                (output::Channel::Result, "path        "@ + model.local_path@),
            )
        }),
{
    let lines = show_text(model, size);
    let at = 3 + (if model.download_size_bytes > 0 {
        1int
    } else {
        0
    }) + (if model.context_length > 0 {
        1int
    } else {
        0
    }) + file_lines(model.files).len();
    assert(lines[at].1 == "downloaded  "@ + if is_downloaded(model) {
        "yes"@
    } else {
        "no"@
    });
    if model.local_path@.len() > 0 {
        assert(lines[at + 1] == output::result("path        "@ + model.local_path@));
    }
}

/// Every file of a model is told, in order.
pub proof fn every_file_is_shown(files: Seq<ModelFile>, n: int, i: int)
    requires
        0 <= i < n <= files.len(),
    ensures
        files_ops(files, n).len() == 4 * n,
        files_ops(files, n)[4 * i + 1] == output::field_str("filename"@, files[i].filename@),
        files_ops(files, n)[4 * i + 2] == output::field_str("url"@, files[i].url@),
    decreases n,
{
    if n > 1 {
        every_file_is_shown(
            files,
            n - 1,
            if i < n - 1 {
                i
            } else {
                n - 2
            },
        );
        if i < n - 1 {
            assert(files_ops(files, n)[4 * i + 1] == files_ops(files, n - 1)[4 * i + 1]);
            assert(files_ops(files, n)[4 * i + 2] == files_ops(files, n - 1)[4 * i + 2]);
        }
    } else {
        assert(files_ops(files, 0) =~= Seq::empty());
    }
}

/// A command that shows a model.
pub open spec fn with_models_get(cmd: CommandView) -> CommandView {
    cmd
        .option(cli::opt("model"@, ValueType::Text, "Model id, alias or URL"@).required())
        .action(Action::ModelsGet)
}

/// Configures a command that shows a model.
pub fn configure_models_get(cmd: &mut Command)
    ensures
        final(cmd)@ == with_models_get(old(cmd)@),
{
    cmd.add_option(Opt::value("model", ValueType::Text, "Model id, alias or URL").required());
    cmd.callback(Action::ModelsGet);
}

} // verus!
