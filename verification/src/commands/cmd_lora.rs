//! `wally lora apply|remove|list|catalog`: LoRA adapters on the loaded model.

use crate::cli;
use crate::cli::{Action, App, Command, CommandView, Opt, ValueType};
use crate::commands::cmd_run::ModelLoadResult;
use crate::engine;
use crate::engine::SdkError;
use crate::output;
use crate::output::Channel;
use crate::output::JsonWriter;
use crate::output::Printed;
use crate::text;
use vstd::prelude::*;

verus! {

/// A verb of `lora`.
#[derive(Clone, Copy, Debug, PartialEq, Eq, Structural)]
pub enum LoraVerb {
    Catalog,
    List,
    Remove,
    Apply,
}

/// What a verb of `lora` does next.
#[derive(Clone, Copy, Debug, PartialEq, Eq, Structural)]
pub enum LoraStage {
    /// Start the engine.
    Start,
    /// Find the registry of adapters.
    Registry,
    /// See that the adapter is a file.
    Adapter,
    /// Load the model.
    Load,
    /// Ask the engine, and show what it answers.
    Call,
    /// It is over, with this exit code.
    Finished(i32),
}

/// The stage after one that worked or not; everything that fails exits with 1.
pub open spec fn lora_after(verb: LoraVerb, stage: LoraStage, ok: bool) -> LoraStage {
    match stage {
        LoraStage::Start => if !ok {
            LoraStage::Finished(1)
        } else {
            match verb {
                LoraVerb::Catalog => LoraStage::Registry,
                LoraVerb::Apply => LoraStage::Adapter,
                _ => LoraStage::Call,
            }
        },
        LoraStage::Registry => if ok {
            LoraStage::Call
        } else {
            LoraStage::Finished(1)
        },
        LoraStage::Adapter => if ok {
            LoraStage::Load
        } else {
            LoraStage::Finished(1)
        },
        LoraStage::Load => if ok {
            LoraStage::Call
        } else {
            LoraStage::Finished(1)
        },
        LoraStage::Call => if ok {
            LoraStage::Finished(0)
        } else {
            LoraStage::Finished(1)
        },
        LoraStage::Finished(code) => LoraStage::Finished(code),
    }
}

/// See [`lora_after`].
pub fn run_lora(verb: LoraVerb, stage: LoraStage, ok: bool) -> (r: LoraStage)
    ensures
        r == lora_after(verb, stage, ok),
{
    match stage {
        LoraStage::Start => if !ok {
            LoraStage::Finished(1)
        } else {
            match verb {
                LoraVerb::Catalog => LoraStage::Registry,
                LoraVerb::Apply => LoraStage::Adapter,
                _ => LoraStage::Call,
            }
        },
        LoraStage::Registry => if ok {
            LoraStage::Call
        } else {
            LoraStage::Finished(1)
        },
        LoraStage::Adapter => if ok {
            LoraStage::Load
        } else {
            LoraStage::Finished(1)
        },
        LoraStage::Load => if ok {
            LoraStage::Call
        } else {
            LoraStage::Finished(1)
        },
        LoraStage::Call => if ok {
            LoraStage::Finished(0)
        } else {
            LoraStage::Finished(1)
        },
        LoraStage::Finished(code) => LoraStage::Finished(code),
    }
}

/// Without a registry there is nothing to list.
pub fn require_lora_registry(available: bool) -> (r: Option<String>)
    ensures
        r is Some <==> !available,
        r is Some ==> r->0@ == "LoRA registry unavailable (SDK not initialized)"@,
{
    if available {
        None
    } else {
        Some(text::owned("LoRA registry unavailable (SDK not initialized)"))
    }
}

/// An adapter that is registered; one with a path is downloaded.
#[derive(Clone, Debug, Default)]
pub struct LoraCatalogEntry {
    pub id: String,
    pub name: String,
    pub local_path: Option<String>,
}

/// The adapters that are registered.
#[derive(Clone, Debug, Default)]
pub struct LoraCatalog {
    pub entries: Vec<LoraCatalogEntry>,
    pub error: Option<SdkError>,
}

/// The reply of a listing: the adapters, or the error line. A bad code without
/// an error report leaves no detail to show.
pub fn run_lora_catalog(ok: bool, parsed: Result<LoraCatalog, String>) -> (r: Result<LoraCatalog, String>)
    ensures
        match parsed {
            Ok(list) => if ok && list.error is None {
                r == parsed
            } else {
                r is Err && r->Err_0@ == "list failed: "@ + match list.error {
                    Some(e) => e.message@,
                    None => Seq::empty(),
                }
            },
            Err(message) => r is Err && r->Err_0@ == "list failed: "@ + message@,
        },
{
    match parsed {
        Ok(list) => if ok && list.error.is_none() {
            Ok(list)
        } else {
            match &list.error {
                Some(e) => Err(text::cat2("list failed: ", e.message.as_str())),
                None => {
                    assert("list failed: "@ + Seq::empty() =~= "list failed: "@);
                    Err(text::owned("list failed: "))
                },
            }
        },
        Err(message) => Err(text::cat2("list failed: ", message.as_str())),
    }
}

/// The path of an adapter; empty where it has none.
pub open spec fn path_of(entry: LoraCatalogEntry) -> Seq<char> {
    match entry.local_path {
        Some(p) => p@,
        None => Seq::empty(),
    }
}

fn path_of_exec(entry: &LoraCatalogEntry) -> (r: String)
    ensures
        r@ == path_of(*entry),
{
    match &entry.local_path {
        Some(p) => text::owned(p.as_str()),
        None => String::new(),
    }
}

/// The writes for one adapter.
pub open spec fn entry_json(e: LoraCatalogEntry) -> Seq<output::JsonOpView> {
    seq![
        output::begin_array_object(),
        output::field_str("id"@, e.id@),
        output::field_str("name"@, e.name@),
        output::field_bool("downloaded"@, path_of(e).len() > 0),
        output::field_str("local_path"@, path_of(e)),
        output::end_object(),
    ]
}

/// The writes for the first `n` adapters.
pub open spec fn entries_json(entries: Seq<LoraCatalogEntry>, n: int) -> Seq<output::JsonOpView>
    decreases n,
{
    if n <= 0 {
        Seq::empty()
    } else {
        entries_json(entries, n - 1) + entry_json(entries[n - 1])
    }
}

fn put_entry(json: &mut JsonWriter, e: &LoraCatalogEntry)
    ensures
        final(json)@ == old(json)@ + entry_json(*e),
{
    let path = path_of_exec(e);
    json.begin_array_object();
    json.field_str("id", e.id.as_str());
    json.field_str("name", e.name.as_str());
    json.field_bool("downloaded", !path.as_str().is_empty());
    json.field_str("local_path", path.as_str());
    json.end_object();
    assert(json@ =~= old(json)@ + entry_json(*e));
}

/// The writes for a listing.
pub open spec fn catalog_document(list: LoraCatalog) -> Seq<output::JsonOpView> {
    seq![
        output::begin_object(),
        output::field_i64("count"@, (list.entries.len() as i64) as int),
        output::begin_array("entries"@),
    ] + entries_json(list.entries@, list.entries@.len() as int) + seq![output::end_array(), output::end_object()]
}

/// The document of a listing.
pub fn catalog_json(list: &LoraCatalog) -> (json: JsonWriter)
    ensures
        json@ == catalog_document(*list),
{
    let mut json = JsonWriter::new();
    json.begin_object();
    json.field_i64("count", list.entries.len() as i64);
    json.begin_array("entries");
    let ghost head = json@;
    let ghost all = list.entries@;
    assert(head + entries_json(all, 0) =~= head);
    let mut i: usize = 0;
    while i < list.entries.len()
        invariant
            i <= list.entries@.len(),
            all == list.entries@,
            json@ == head + entries_json(all, i as int),
        decreases list.entries@.len() - i,
    {
        put_entry(&mut json, &list.entries[i]);
        i = i + 1;
        assert(json@ =~= head + entries_json(all, i as int));
    }
    json.end_array();
    json.end_object();
    assert(json@ =~= head + entries_json(all, all.len() as int) + seq![output::end_array(), output::end_object()]);
    json
}

/// The line of one adapter.
pub open spec fn entry_line(e: LoraCatalogEntry) -> Seq<char> {
    e.id@ + "  "@ + e.name@ + if path_of(e).len() > 0 {
        "  [downloaded]"@
    } else {
        ""@
    }
}

/// The lines of a listing.
pub open spec fn catalog_text(list: LoraCatalog) -> Seq<(Channel, Seq<char>)> {
    if list.entries@.len() == 0 {
        seq![output::result("no LoRA adapters registered"@)]
    } else {
        list.entries@.map_values(|e: LoraCatalogEntry| output::result(entry_line(e)))
    }
}

/// The lines of a listing.
pub fn catalog_lines(list: &LoraCatalog) -> (r: Printed)
    ensures
        r@ == catalog_text(*list),
{
    let mut printed = Printed::new();
    if list.entries.len() == 0 {
        printed.result(text::owned("no LoRA adapters registered"));
        return printed;
    }
    let ghost lines = list.entries@.map_values(|e: LoraCatalogEntry| output::result(entry_line(e)));
    assert(printed@ =~= lines.take(0));
    let mut i: usize = 0;
    while i < list.entries.len()
        invariant
            i <= list.entries@.len(),
            lines == list.entries@.map_values(|e: LoraCatalogEntry| output::result(entry_line(e))),
            printed@ == lines.take(i as int),
        decreases list.entries@.len() - i,
    {
        let e = &list.entries[i];
        let mark = if path_of_exec(e).as_str().is_empty() {
            ""
        } else {
            "  [downloaded]"
        };
        printed.result(text::cat4(e.id.as_str(), "  ", e.name.as_str(), mark));
        i = i + 1;
        assert(printed@ =~= lines.take(i as int));
    }
    assert(printed@ =~= lines);
    printed
}

/// An adapter on the loaded model. The scale is a double, carried by its bits;
/// `scale_text` is the scale with six decimals.
#[derive(Clone, Debug, Default)]
pub struct LoadedAdapter {
    pub adapter_id: String,
    pub adapter_path: String,
    pub scale: i64,
    pub scale_text: String,
    pub applied: bool,
}

/// The adapters on the loaded model.
#[derive(Clone, Debug, Default)]
pub struct LoraState {
    pub base_model_id: Option<String>,
    pub loaded_adapters: Vec<LoadedAdapter>,
    pub error: Option<SdkError>,
}

/// The writes for one adapter on the model.
pub open spec fn adapter_json(a: LoadedAdapter) -> Seq<output::JsonOpView> {
    seq![
        output::begin_array_object(),
        output::field_str("id"@, a.adapter_id@),
        output::field_str("path"@, a.adapter_path@),
        output::field_f64("scale"@, a.scale as int),
        output::field_bool("applied"@, a.applied),
        output::end_object(),
    ]
}

/// The writes for the first `n` adapters on the model.
pub open spec fn adapters_json(adapters: Seq<LoadedAdapter>, n: int) -> Seq<output::JsonOpView>
    decreases n,
{
    if n <= 0 {
        Seq::empty()
    } else {
        adapters_json(adapters, n - 1) + adapter_json(adapters[n - 1])
    }
}

fn put_adapter(json: &mut JsonWriter, a: &LoadedAdapter)
    ensures
        final(json)@ == old(json)@ + adapter_json(*a),
{
    json.begin_array_object();
    json.field_str("id", a.adapter_id.as_str());
    json.field_str("path", a.adapter_path.as_str());
    json.field_f64("scale", a.scale);
    json.field_bool("applied", a.applied);
    json.end_object();
    assert(json@ =~= old(json)@ + adapter_json(*a));
}

/// The writes for the adapters on the model.
pub open spec fn lora_document(state: LoraState) -> Seq<output::JsonOpView> {
    seq![
        output::begin_object(),
        output::field_str(
            "base_model_id"@,
            match state.base_model_id {
                Some(id) => id@,
                None => Seq::empty(),
            },
        ),
        output::begin_array("applied"@),
    ] + adapters_json(state.loaded_adapters@, state.loaded_adapters@.len() as int) + seq![
        output::end_array(),
        output::end_object(),
    ]
}

/// The document of the adapters on the model.
pub fn lora_json(state: &LoraState) -> (json: JsonWriter)
    ensures
        json@ == lora_document(*state),
{
    let none = String::new();
    let mut json = JsonWriter::new();
    json.begin_object();
    match &state.base_model_id {
        Some(id) => json.field_str("base_model_id", id.as_str()),
        None => json.field_str("base_model_id", none.as_str()),
    }
    json.begin_array("applied");
    let ghost head = json@;
    let ghost all = state.loaded_adapters@;
    assert(head + adapters_json(all, 0) =~= head);
    let mut i: usize = 0;
    while i < state.loaded_adapters.len()
        invariant
            i <= state.loaded_adapters@.len(),
            all == state.loaded_adapters@,
            json@ == head + adapters_json(all, i as int),
        decreases state.loaded_adapters@.len() - i,
    {
        put_adapter(&mut json, &state.loaded_adapters[i]);
        i = i + 1;
        assert(json@ =~= head + adapters_json(all, i as int));
    }
    json.end_array();
    json.end_object();
    assert(json@ =~= head + adapters_json(all, all.len() as int) + seq![output::end_array(), output::end_object()]);
    json
}

/// The columns of the table of adapters.
pub fn adapter_header() -> (r: Vec<String>)
    ensures
        output::strings_view(r@) == seq!["ADAPTER"@, "SCALE"@, "APPLIED"@],
{
    let mut header: Vec<String> = Vec::new();
    header.push(text::owned("ADAPTER"));
    header.push(text::owned("SCALE"));
    header.push(text::owned("APPLIED"));
    assert(output::strings_view(header@) =~= seq!["ADAPTER"@, "SCALE"@, "APPLIED"@]);
    header
}

/// The cells of one adapter: one without an id goes by its path.
pub open spec fn adapter_cells(a: LoadedAdapter) -> Seq<Seq<char>> {
    seq![
        text::first_given(a.adapter_id@, a.adapter_path@),
        a.scale_text@,
        if a.applied {
            "yes"@
        } else {
            "no"@
        },
    ]
}

/// See [`adapter_cells`].
pub fn adapter_row(a: &LoadedAdapter) -> (r: Vec<String>)
    ensures
        output::strings_view(r@) == adapter_cells(*a),
{
    let mut row: Vec<String> = Vec::new();
    row.push(text::first_given_exec(a.adapter_id.as_str(), a.adapter_path.as_str()));
    row.push(text::owned(a.scale_text.as_str()));
    row.push(
        text::owned(
            if a.applied {
                "yes"
            } else {
                "no"
            },
        ),
    );
    assert(output::strings_view(row@) =~= seq![
        text::first_given(a.adapter_id@, a.adapter_path@),
        a.scale_text@,
        if a.applied {
            "yes"@
        } else {
            "no"@
        },
    ]);
    row
}

/// The reply of a look at the adapters: they, or the error line. A bad code with
/// a readable document leaves no detail to show.
pub fn run_lora_list(ok: bool, parsed: Result<LoraState, String>) -> (r: Result<LoraState, String>)
    ensures
        match engine::answer_outcome(ok, Seq::empty(), parsed, false) {
            Ok(state) => r == Ok::<LoraState, String>(state),
            Err(message) => r is Err && r->Err_0@ == "cannot read LoRA state: "@ + message,
        },
{
    let none = String::new();
    match engine::answer(ok, none.as_str(), parsed, false) {
        Ok(state) => Ok(state),
        Err(message) => Err(text::cat2("cannot read LoRA state: ", message.as_str())),
    }
}

/// What to detach: one adapter by its id, or every one where none is named.
pub struct LoraRemoveRequest {
    pub clear_all: bool,
    pub adapter_ids: Vec<String>,
}

/// See [`LoraRemoveRequest`].
pub fn remove_request(adapter: &str) -> (r: LoraRemoveRequest)
    ensures
        r.clear_all == (adapter@.len() == 0),
        output::strings_view(r.adapter_ids@) == if adapter@.len() == 0 {
            Seq::empty()
        } else {
            seq![adapter@]
        },
{
    let mut ids: Vec<String> = Vec::new();
    if adapter.is_empty() {
        assert(output::strings_view(ids@) =~= Seq::empty());
        return LoraRemoveRequest { clear_all: true, adapter_ids: ids };
    }
    ids.push(text::owned(adapter));
    assert(output::strings_view(ids@) =~= seq![adapter@]);
    LoraRemoveRequest { clear_all: false, adapter_ids: ids }
}

/// The reply of a removal: the adapters that are left, or the error line.
pub fn run_lora_remove(ok: bool, parsed: Result<LoraState, String>) -> (r: Result<LoraState, String>)
    ensures
        match engine::answer_outcome(ok, Seq::empty(), parsed, false) {
            Ok(state) => match state.error {
                None => r == Ok::<LoraState, String>(state),
                Some(e) => r is Err && r->Err_0@ == "remove failed: "@ + e.message@,
            },
            Err(message) => r is Err && r->Err_0@ == "remove failed: "@ + message,
        },
{
    let none = String::new();
    match engine::answer(ok, none.as_str(), parsed, false) {
        Ok(state) => match &state.error {
            None => Ok(state),
            Some(e) => Err(text::cat2("remove failed: ", e.message.as_str())),
        },
        Err(message) => Err(text::cat2("remove failed: ", message.as_str())),
    }
}

/// What loading the model came to: nothing, or the error line.
pub fn load_llm_for_lora(ok: bool, parsed: Result<ModelLoadResult, String>) -> (r: Option<String>)
    ensures
        match engine::answer_outcome(ok, Seq::empty(), parsed, false) {
            Ok(loaded) => match engine::report_outcome(loaded.error) {
                Ok(_) => r is None,
                Err(message) => r is Some && r->0@ == "LLM load failed: "@ + message,
            },
            Err(message) => r is Some && r->0@ == "LLM load failed: "@ + message,
        },
{
    let none = String::new();
    match engine::answer(ok, none.as_str(), parsed, false) {
        Ok(loaded) => match engine::outcome_of(&loaded.error) {
            Ok(_) => None,
            Err(message) => Some(text::cat2("LLM load failed: ", message.as_str())),
        },
        Err(message) => Some(text::cat2("LLM load failed: ", message.as_str())),
    }
}

/// An adapter that is no file is refused before the model is loaded: that has
/// nothing to do with the model.
pub fn adapter_problem(is_regular_file: bool, adapter_path: &str) -> (r: Option<String>)
    ensures
        r is Some <==> !is_regular_file,
        r is Some ==> r->0@ == "adapter file not found: "@ + adapter_path@,
{
    if is_regular_file {
        None
    } else {
        Some(text::cat2("adapter file not found: ", adapter_path))
    }
}

/// What attaching came to: how many adapters are attached.
#[derive(Clone, Debug, Default)]
pub struct LoraAttachResult {
    pub adapters: usize,
    pub error: Option<SdkError>,
}

/// The reply of attaching: the number of adapters, or the error line.
pub fn run_lora_apply(ok: bool, parsed: Result<LoraAttachResult, String>) -> (r: Result<usize, String>)
    ensures
        match engine::answer_outcome(ok, Seq::empty(), parsed, false) {
            Ok(result) => match engine::coded_outcome(result.error) {
                Ok(_) => r == Ok::<usize, String>(result.adapters),
                Err(message) => r is Err && r->Err_0@ == "apply failed: "@ + message,
            },
            Err(message) => r is Err && r->Err_0@ == "apply failed: "@ + message,
        },
{
    let none = String::new();
    match engine::answer(ok, none.as_str(), parsed, false) {
        Ok(result) => match engine::coded_outcome_of(&result.error) {
            Ok(_) => Ok(result.adapters),
            Err(message) => Err(text::cat2("apply failed: ", message.as_str())),
        },
        Err(message) => Err(text::cat2("apply failed: ", message.as_str())),
    }
}

/// The writes for an adapter that was attached.
pub open spec fn applied_document(adapters: usize) -> Seq<output::JsonOpView> {
    seq![
        output::begin_object(),
        output::field_bool("success"@, true),
        output::field_i64("adapters"@, (adapters as i64) as int),
        output::end_object(),
    ]
}

/// The document of an adapter that was attached.
pub fn applied_json(adapters: usize) -> (json: JsonWriter)
    ensures
        json@ == applied_document(adapters),
{
    let mut json = JsonWriter::new();
    json.begin_object();
    json.field_bool("success", true);
    json.field_i64("adapters", adapters as i64);
    json.end_object();
    json
}

/// The line of an adapter that was attached.
pub open spec fn applied_text(adapters: usize, model_id: Seq<char>) -> Seq<char> {
    "applied "@ + text::dec(adapters as int) + " adapter(s) to "@ + model_id
}

/// The line of an adapter that was attached.
pub fn applied_line(adapters: usize, model_id: &str) -> (r: String)
    ensures
        r@ == applied_text(adapters, model_id@),
{
    text::cat4("applied ", text::dec_usize(adapters).as_str(), " adapter(s) to ", model_id)
}

/// An adapter of the catalog counts as downloaded where it has a path, and is told
/// as what it is, in the document and in the line.
pub proof fn an_adapter_is_told_as_it_is(e: LoraCatalogEntry, a: LoadedAdapter)
    ensures
        ({
            let ops = entry_json(e);
            let there = e.local_path is Some && e.local_path->0@.len() > 0;
            &&& ops[1] == output::field_str("id"@, e.id@)
            &&& ops[2] == output::field_str("name"@, e.name@)
            &&& ops[3] == output::field_bool("downloaded"@, there)
            &&& e.local_path is Some ==> ops[4] == output::field_str("local_path"@, e.local_path->0@)
            &&& there ==> entry_line(e) == e.id@ + "  "@ + e.name@ + "  [downloaded]"@
            &&& !there ==> entry_line(e) == e.id@ + "  "@ + e.name@
        }),
        ({
            let ops = adapter_json(a);
            let cells = adapter_cells(a);
            &&& ops[1] == output::field_str("id"@, a.adapter_id@)
            &&& ops[2] == output::field_str("path"@, a.adapter_path@)
            &&& ops[3] == output::field_f64("scale"@, a.scale as int)
            &&& ops[4] == output::field_bool("applied"@, a.applied)
            &&& a.adapter_id@.len() > 0 ==> cells[0] == a.adapter_id@
            &&& a.adapter_id@.len() == 0 ==> cells[0] == a.adapter_path@
            &&& cells[1] == a.scale_text@
            &&& a.applied ==> cells[2] == "yes"@
            &&& !a.applied ==> cells[2] == "no"@
        }),
{
    reveal_strlit("");
    assert(e.id@ + "  "@ + e.name@ + ""@ =~= e.id@ + "  "@ + e.name@);
}

/// The catalog and the adapters in use are written in their order.
pub proof fn adapters_are_written_in_order(
    entries: Seq<LoraCatalogEntry>,
    adapters: Seq<LoadedAdapter>,
    n: int,
    i: int,
)
    requires
        0 <= i < n,
    ensures
        n <= entries.len() ==> entries_json(entries, n).len() == 6 * n && entries_json(entries, n).subrange(
            6 * i,
            6 * i + 6,
        ) == entry_json(entries[i]),
        n <= adapters.len() ==> adapters_json(adapters, n).len() == 6 * n && adapters_json(adapters, n).subrange(
            6 * i,
            6 * i + 6,
        ) == adapter_json(adapters[i]),
    decreases n,
{
    let (a, b) = (entries_json(entries, n), adapters_json(adapters, n));
    if n > 1 {
        adapters_are_written_in_order(
            entries,
            adapters,
            n - 1,
            if i < n - 1 {
                i
            } else {
                n - 2
            },
        );
    } else {
        assert(entries_json(entries, 0) =~= Seq::empty());
        assert(adapters_json(adapters, 0) =~= Seq::empty());
    }
    let (a0, b0) = (entries_json(entries, n - 1), adapters_json(adapters, n - 1));
    if i < n - 1 {
        if n <= entries.len() {
            assert(a.subrange(6 * i, 6 * i + 6) =~= a0.subrange(6 * i, 6 * i + 6));
        }
        if n <= adapters.len() {
            assert(b.subrange(6 * i, 6 * i + 6) =~= b0.subrange(6 * i, 6 * i + 6));
        }
    } else {
        if n <= entries.len() {
            assert(a.subrange(6 * i, 6 * i + 6) =~= entry_json(entries[i]));
        }
        if n <= adapters.len() {
            assert(b.subrange(6 * i, 6 * i + 6) =~= adapter_json(adapters[i]));
        }
    }
}

/// An adapter is attached once its file and its model are there; the catalog is
/// read from the registry. Only the call itself ends a command well.
pub proof fn an_adapter_command_takes_its_steps(verb: LoraVerb, ok: bool)
    ensures
        lora_after(LoraVerb::Apply, LoraStage::Start, true) == LoraStage::Adapter,
        lora_after(LoraVerb::Catalog, LoraStage::Start, true) == LoraStage::Registry,
        lora_after(LoraVerb::List, LoraStage::Start, true) == LoraStage::Call,
        lora_after(LoraVerb::Remove, LoraStage::Start, true) == LoraStage::Call,
        lora_after(verb, LoraStage::Start, false) == LoraStage::Finished(1),
        lora_after(verb, LoraStage::Registry, true) == LoraStage::Call,
        lora_after(verb, LoraStage::Adapter, true) == LoraStage::Load,
        lora_after(verb, LoraStage::Load, true) == LoraStage::Call,
        lora_after(verb, LoraStage::Registry, false) == LoraStage::Finished(1),
        lora_after(verb, LoraStage::Adapter, false) == LoraStage::Finished(1),
        lora_after(verb, LoraStage::Load, false) == LoraStage::Finished(1),
        lora_after(verb, LoraStage::Call, true) == LoraStage::Finished(0),
        lora_after(verb, LoraStage::Call, false) == LoraStage::Finished(1),
{
}

/// What was applied is told with how many adapters there are now, and to which
/// model.
pub proof fn an_applied_adapter_is_counted(adapters: usize, model_id: Seq<char>)
    ensures
        applied_text(adapters, model_id) == "applied "@ + text::dec(adapters as int) + " adapter(s) to "@ + model_id,
        adapters <= i64::MAX ==> applied_document(adapters)[2] == output::field_i64("adapters"@, adapters as int),
{
}

/// A catalog without adapters says so, and else tells each in order; the adapters in
/// use are told of the model they are on.
pub proof fn a_catalog_is_told_in_order(list: LoraCatalog, state: LoraState, i: int)
    ensures
        list.entries@.len() == 0 ==> catalog_text(list) == seq![
            (Channel::Result, "no LoRA adapters registered"@),
        ],
        0 <= i < list.entries@.len() ==> catalog_text(list).len() == list.entries@.len() && catalog_text(list)[i] == (
            Channel::Result,
            entry_line(list.entries@[i]),
        ),
        list.entries@.len() <= i64::MAX ==> catalog_document(list)[1] == output::field_i64(
            "count"@,
            list.entries@.len() as int,
        ),
        state.base_model_id is Some ==> lora_document(state)[1] == output::field_str(
            "base_model_id"@,
            state.base_model_id->0@,
        ),
        lora_document(state).len() == adapters_json(state.loaded_adapters@, state.loaded_adapters@.len() as int).len() + 5,
{
}

/// The `lora` namespace.
pub open spec fn lora_command() -> CommandView {
    cli::top("lora"@, "Attach LoRA adapters to a language model"@)
        .require_subcommand(1, 1)
}

/// The `lora apply` command.
pub open spec fn lora_apply_command() -> CommandView {
    cli::command("lora"@, "apply"@, "Attach an adapter to a model, loading both"@)
        .option(cli::opt("adapter"@, ValueType::Text, "Path to the adapter file (.gguf)"@).required())
        .option(cli::opt("--model,-m"@, ValueType::Text, "LLM to attach the adapter to"@).required())
        .option(
            cli::opt(
                "--scale"@,
                ValueType::Float,
                "How strongly the adapter applies (default 1.0)"@,
            ).default_val("1.0"@),
        )
        .action(Action::LoraApply)
}

/// The `lora remove` command.
pub open spec fn lora_remove_command() -> CommandView {
    cli::command("lora"@, "remove"@, "Detach one adapter, or every adapter"@)
        .option(cli::opt("adapter"@, ValueType::Text, "Adapter id or path (omit to detach all)"@))
        .action(Action::LoraRemove)
}

/// The `lora list` command.
pub open spec fn lora_list_command() -> CommandView {
    cli::command("lora"@, "list"@, "Show the adapters currently attached"@)
        .action(Action::LoraList)
}

/// The `lora catalog` command.
pub open spec fn lora_catalog_command() -> CommandView {
    cli::command("lora"@, "catalog"@, "List adapters registered with the SDK"@)
        .action(Action::LoraCatalog)
}

/// Registers `lora` and its verbs.
pub fn register_lora(app: &mut App)
    ensures
        final(app)@ == old(app)@.push(lora_command()).push(lora_apply_command()).push(lora_remove_command()).push(lora_list_command()).push(lora_catalog_command()),
{
    let mut cmd = Command::top("lora", "Attach LoRA adapters to a language model");
    cmd.require_subcommand(1, 1);
    app.add(cmd);
    let mut apply_cmd = Command::new("lora", "apply", "Attach an adapter to a model, loading both");
    apply_cmd.add_option(Opt::value("adapter", ValueType::Text, "Path to the adapter file (.gguf)").required());
    apply_cmd.add_option(Opt::value("--model,-m", ValueType::Text, "LLM to attach the adapter to").required());
    apply_cmd.add_option(
        Opt::value(
            "--scale",
            ValueType::Float,
            "How strongly the adapter applies (default 1.0)",
        ).default_val("1.0"),
    );
    apply_cmd.callback(Action::LoraApply);
    app.add(apply_cmd);
    let mut remove_cmd = Command::new("lora", "remove", "Detach one adapter, or every adapter");
    remove_cmd.add_option(Opt::value("adapter", ValueType::Text, "Adapter id or path (omit to detach all)"));
    remove_cmd.callback(Action::LoraRemove);
    app.add(remove_cmd);
    let mut list_cmd = Command::new("lora", "list", "Show the adapters currently attached");
    list_cmd.callback(Action::LoraList);
    app.add(list_cmd);
    let mut catalog_cmd = Command::new("lora", "catalog", "List adapters registered with the SDK");
    catalog_cmd.callback(Action::LoraCatalog);
    app.add(catalog_cmd);
}

} // verus!
