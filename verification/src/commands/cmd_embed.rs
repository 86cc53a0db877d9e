//! `wally embed [input]`: turns text into embedding vectors.

use crate::cli;
use crate::cli::{Action, App, Command, CommandView, Opt, Validator, ValidatorView, ValueType};
use crate::commands::cmd_run::ModelLoadResult;
use crate::commands::cmd_run::copy_strings;
use crate::commands::engine_options;
use crate::commands::engine_options::EngineHintResolution;
use crate::commands::engine_options::Kit;
use crate::engine;
use crate::engine::ModelCategory;
use crate::output;
use crate::output::Channel;
use crate::output::JsonWriter;
use crate::output::Printed;
use crate::text;
use vstd::prelude::*;

verus! {

/// What the vectors of a text are scaled to: nothing said, unit length, or left
/// raw. Only `l2` and `none` are known.
pub fn parse_normalize(mode: &str) -> (r: Result<Option<bool>, ()>)
    ensures
        r == if mode@.len() == 0 {
            Ok(None)
        } else if mode@ == "l2"@ {
            Ok(Some(true))
        } else if mode@ == "none"@ {
            Ok(Some(false))
        } else {
            Err(())
        },
{
    if mode.is_empty() {
        return Ok(None);
    }
    if text::str_eq(mode, "l2") {
        Ok(Some(true))
    } else if text::str_eq(mode, "none") {
        Ok(Some(false))
    } else {
        Err(())
    }
}

/// Which side of a retrieval pair a text is.
#[derive(Clone, Copy, Debug, PartialEq, Eq, Structural)]
pub enum EmbeddingsInputType {
    Unspecified,
    Query,
    Document,
}

/// How token vectors are collapsed into one.
#[derive(Clone, Copy, Debug, PartialEq, Eq, Structural)]
pub enum EmbeddingsPoolingStrategy {
    Unspecified,
    Mean,
    Cls,
    Last,
}

/// The side of a retrieval pair that `--input-type` names. Asymmetric embedders
/// treat a query and a document differently, so an unknown one is refused.
pub fn parse_input_type(mode: &str) -> (r: Result<EmbeddingsInputType, ()>)
    ensures
        r == if mode@.len() == 0 {
            Ok(EmbeddingsInputType::Unspecified)
        } else if mode@ == "query"@ {
            Ok(EmbeddingsInputType::Query)
        } else if mode@ == "document"@ || mode@ == "doc"@ {
            Ok(EmbeddingsInputType::Document)
        } else {
            Err(())
        },
{
    if mode.is_empty() {
        return Ok(EmbeddingsInputType::Unspecified);
    }
    if text::str_eq(mode, "query") {
        Ok(EmbeddingsInputType::Query)
    } else if text::str_eq(mode, "document") || text::str_eq(mode, "doc") {
        Ok(EmbeddingsInputType::Document)
    } else {
        Err(())
    }
}

/// The strategy that `--pooling` names.
pub fn parse_pooling(mode: &str) -> (r: Result<EmbeddingsPoolingStrategy, ()>)
    ensures
        r == if mode@.len() == 0 {
            Ok(EmbeddingsPoolingStrategy::Unspecified)
        } else if mode@ == "mean"@ {
            Ok(EmbeddingsPoolingStrategy::Mean)
        } else if mode@ == "cls"@ {
            Ok(EmbeddingsPoolingStrategy::Cls)
        } else if mode@ == "last"@ {
            Ok(EmbeddingsPoolingStrategy::Last)
        } else {
            Err(())
        },
{
    if mode.is_empty() {
        return Ok(EmbeddingsPoolingStrategy::Unspecified);
    }
    if text::str_eq(mode, "mean") {
        Ok(EmbeddingsPoolingStrategy::Mean)
    } else if text::str_eq(mode, "cls") {
        Ok(EmbeddingsPoolingStrategy::Cls)
    } else if text::str_eq(mode, "last") {
        Ok(EmbeddingsPoolingStrategy::Last)
    } else {
        Err(())
    }
}

/// The options of a request; none are sent when every one is left open.
#[derive(Clone, Copy, Debug, PartialEq, Eq, Structural)]
pub struct EmbeddingsOptions {
    pub normalize: Option<bool>,
    pub pooling: EmbeddingsPoolingStrategy,
    pub input_type: EmbeddingsInputType,
}

/// The options that three arguments ask for, or what is wrong with them,
/// with the exit code.
pub fn embed_options(normalize: &str, pooling: &str, input_type: &str) -> (r: Result<
    Option<EmbeddingsOptions>,
    (String, i32),
>)
    ensures
        ({
            let n_known = normalize@.len() == 0 || normalize@ == "l2"@ || normalize@ == "none"@;
            let p_known = pooling@.len() == 0 || pooling@ == "mean"@ || pooling@ == "cls"@ || pooling@ == "last"@;
            let i_known = input_type@.len() == 0 || input_type@ == "query"@ || input_type@ == "document"@ || input_type@
                == "doc"@;
            &&& r is Ok <==> n_known && p_known && i_known
            &&& r is Err ==> (r->Err_0).0@
                == "--normalize expects l2|none, --pooling expects mean|cls|last, --input-type expects query|document"@
                && (r->Err_0).1 == 2
            &&& r is Ok ==> match r->Ok_0 {
                None => normalize@.len() == 0 && pooling@.len() == 0 && input_type@.len() == 0,
                Some(o) => {
                    &&& normalize@.len() > 0 || pooling@.len() > 0 || input_type@.len() > 0
                    &&& o.normalize == if normalize@.len() == 0 {
                        None
                    } else {
                        Some(normalize@ == "l2"@)
                    }
                    &&& o.pooling == if pooling@.len() == 0 {
                        EmbeddingsPoolingStrategy::Unspecified
                    } else if pooling@ == "mean"@ {
                        EmbeddingsPoolingStrategy::Mean
                    } else if pooling@ == "cls"@ {
                        EmbeddingsPoolingStrategy::Cls
                    } else {
                        EmbeddingsPoolingStrategy::Last
                    }
                    &&& o.input_type == if input_type@.len() == 0 {
                        EmbeddingsInputType::Unspecified
                    } else if input_type@ == "query"@ {
                        EmbeddingsInputType::Query
                    } else {
                        EmbeddingsInputType::Document
                    }
                },
            }
        }),
{
    proof {
        reveal_strlit("l2");
        reveal_strlit("none");
        assert("l2"@.len() != "none"@.len());
    }
    match (parse_normalize(normalize), parse_pooling(pooling), parse_input_type(input_type)) {
        (Ok(n), Ok(p), Ok(i)) => if n.is_none() && p == EmbeddingsPoolingStrategy::Unspecified && i
            == EmbeddingsInputType::Unspecified {
            Ok(None)
        } else {
            Ok(Some(EmbeddingsOptions { normalize: n, pooling: p, input_type: i }))
        },
        _ => Err(
            (
                text::owned(
                    "--normalize expects l2|none, --pooling expects mean|cls|last, --input-type expects query|document",
                ),
                2,
            ),
        ),
    }
}

/// The texts to embed: the positional one first, where there is one.
pub fn gather_texts(positional: &Option<String>, texts: &Vec<String>) -> (r: Vec<String>)
    ensures
        output::strings_view(r@) == (match *positional {
            Some(p) => if p@.len() > 0 {
                seq![p@]
            } else {
                Seq::empty()
            },
            None => Seq::empty(),
        }) + output::strings_view(texts@),
{
    let mut r: Vec<String> = Vec::new();
    if let Some(p) = positional {
        if !p.as_str().is_empty() {
            r.push(text::owned(p.as_str()));
        }
    }
    let ghost head = output::strings_view(r@);
    let mut rest = copy_strings(texts);
    let ghost tail = output::strings_view(rest@);
    r.append(&mut rest);
    assert(output::strings_view(r@) =~= head + tail);
    assert(head =~= (match *positional {
        Some(p) => if p@.len() > 0 {
            seq![p@]
        } else {
            Seq::empty()
        },
        None => Seq::empty(),
    }));
    r
}

/// What a run begins with: the engine that was named and the model to resolve,
/// as one for embeddings; or what is wrong, with the exit code.
pub fn embed_plan(texts: usize, engine: &str, kit: Kit, reference: &str) -> (r: Result<
    (EngineHintResolution, String),
    (String, i32),
>)
    ensures
        texts == 0 ==> r is Err && (r->Err_0).0@ == "at least one text input is required"@ && (r->Err_0).1 == 2,
        texts > 0 ==> match engine_options::engine_hint(engine@, kit) {
            Ok(f) => r is Ok && (r->Ok_0).0 == engine_options::of_category(
                engine_options::resolution(f),
                ModelCategory::Embedding,
            ) && (r->Ok_0).1@ == text::first_given(reference@, "minilm"@),
            Err(message) => r is Err && (r->Err_0).0@ == message && (r->Err_0).1 == 2,
        },
{
    if texts == 0 {
        return Err((text::owned("at least one text input is required"), 2));
    }
    match engine_options::resolve_engine_hint(engine, kit) {
        Ok(hint) => Ok((hint.for_category(ModelCategory::Embedding), text::first_given_exec(reference, "minilm"))),
        Err(message) => Err((message, 2)),
    }
}

/// What loading the model came to: the path that was loaded, or the error line.
pub fn load_embeddings_model(ok: bool, described: &str, parsed: Result<ModelLoadResult, String>) -> (r: Result<String, String>)
    ensures
        match engine::answer_outcome(ok, described@, parsed, false) {
            Ok(loaded) => match engine::report_outcome(loaded.error) {
                Ok(_) => r is Ok && r->Ok_0@ == loaded.resolved_path@,
                Err(message) => r is Err && r->Err_0@ == "embedding model load failed: "@ + message,
            },
            Err(message) => r is Err && r->Err_0@ == "embedding model load failed: "@ + message,
        },
{
    match engine::answer(ok, described, parsed, false) {
        Ok(loaded) => match engine::outcome_of(&loaded.error) {
            Ok(_) => Ok(loaded.resolved_path),
            Err(message) => Err(text::cat2("embedding model load failed: ", message.as_str())),
        },
        Err(message) => Err(text::cat2("embedding model load failed: ", message.as_str())),
    }
}

/// The status line after a load in a verbose run.
pub fn loaded_status(path: &str, verbose: bool) -> (r: Printed)
    ensures
        r@ == if verbose {
            seq![output::status("loaded "@ + path@)]
        } else {
            Seq::empty()
        },
{
    let mut printed = Printed::new();
    if verbose {
        printed.status(text::cat2("loaded ", path));
    }
    printed
}

/// One vector: the input it answers, its values as doubles carried by their
/// bits, and the first few of them as text.
#[derive(Clone, Debug, Default)]
pub struct EmbeddingVector {
    pub input_index: u32,
    pub values: Vec<i64>,
    pub value_texts: Vec<String>,
}

/// The vectors of a batch.
#[derive(Clone, Debug, Default)]
pub struct EmbeddingsResult {
    pub model_id: Option<String>,
    pub dimension: i32,
    pub tokens_used: i32,
    pub processing_time_ms: i64,
    pub vectors: Vec<EmbeddingVector>,
}

/// The reply of an embedding: the vectors, or the error line.
pub fn embed_reply(ok: bool, described: &str, parsed: Result<EmbeddingsResult, String>) -> (r: Result<
    EmbeddingsResult,
    String,
>)
    ensures
        match engine::answer_outcome(ok, described@, parsed, false) {
            Ok(result) => r == Ok::<EmbeddingsResult, String>(result),
            Err(message) => r is Err && r->Err_0@ == "embedding failed: "@ + message,
        },
{
    match engine::answer(ok, described, parsed, false) {
        Ok(result) => Ok(result),
        Err(message) => Err(text::cat2("embedding failed: ", message.as_str())),
    }
}

/// The first eight texts, with commas between them.
pub open spec fn preview_text(values: Seq<String>, n: int) -> Seq<char>
    decreases n,
{
    if n <= 0 {
        Seq::empty()
    } else if n == 1 {
        values[0]@
    } else {
        preview_text(values, n - 1) + ","@ + values[n - 1]@
    }
}

/// How many values of a vector are shown.
pub open spec fn shown(values: Seq<String>) -> int {
    if values.len() < 8 {
        values.len() as int
    } else {
        8
    }
}

/// The first values of a vector; see [`preview_text`].
pub fn preview_values(vector: &EmbeddingVector) -> (r: String)
    ensures
        r@ == preview_text(vector.value_texts@, shown(vector.value_texts@)),
{
    let count: usize = if vector.value_texts.len() < 8 {
        vector.value_texts.len()
    } else {
        8
    };
    let mut r = String::new();
    let mut i: usize = 0;
    while i < count
        invariant
            i <= count <= vector.value_texts@.len(),
            r@ == preview_text(vector.value_texts@, i as int),
        decreases count - i,
    {
        if i > 0 {
            r.append(",");
        }
        r.append(vector.value_texts[i].as_str());
        i = i + 1;
        assert(r@ =~= preview_text(vector.value_texts@, i as int));
    }
    r
}

/// The writes for the first `n` values.
pub open spec fn values_json(values: Seq<i64>, n: int) -> Seq<output::JsonOpView> {
    Seq::new(n as nat, |i: int| output::value_f64(values[i] as int))
}

/// The writes for one vector: its text is the input it answers.
pub open spec fn vector_json(v: EmbeddingVector, dimension: i32, texts: Seq<String>) -> Seq<output::JsonOpView> {
    seq![
        output::begin_array_object(),
        output::field_str(
            "text"@,
            if v.input_index < texts.len() {
                texts[v.input_index as int]@
            } else {
                Seq::empty()
            },
        ),
        output::field_i64("dimension"@, dimension as int),
        output::begin_array("values"@),
    ] + values_json(v.values@, v.values@.len() as int) + seq![output::end_array(), output::end_object()]
}

/// The writes for the first `n` vectors.
pub open spec fn vectors_json(vectors: Seq<EmbeddingVector>, n: int, dimension: i32, texts: Seq<String>) -> Seq<
    output::JsonOpView,
>
    decreases n,
{
    if n <= 0 {
        Seq::empty()
    } else {
        vectors_json(vectors, n - 1, dimension, texts) + vector_json(vectors[n - 1], dimension, texts)
    }
}

fn put_vector(json: &mut JsonWriter, v: &EmbeddingVector, dimension: i32, texts: &Vec<String>)
    ensures
        final(json)@ == old(json)@ + vector_json(*v, dimension, texts@),
{
    let none = String::new();
    json.begin_array_object();
    if (v.input_index as usize) < texts.len() {
        json.field_str("text", texts[v.input_index as usize].as_str());
    } else {
        json.field_str("text", none.as_str());
    }
    json.field_i64("dimension", dimension as i64);
    json.begin_array("values");
    let ghost head = json@;
    assert(head + values_json(v.values@, 0) =~= head);
    let mut i: usize = 0;
    while i < v.values.len()
        invariant
            i <= v.values@.len(),
            json@ == head + values_json(v.values@, i as int),
        decreases v.values@.len() - i,
    {
        json.value_f64(v.values[i]);
        i = i + 1;
        assert(json@ =~= head + values_json(v.values@, i as int));
    }
    json.end_array();
    json.end_object();
    assert(json@ =~= old(json)@ + vector_json(*v, dimension, texts@));
}

/// The model that a result belongs to.
pub open spec fn answering_model(result: EmbeddingsResult, model_id: Seq<char>) -> Seq<char> {
    match result.model_id {
        Some(id) => text::first_given(id@, model_id),
        None => model_id,
    }
}

/// The writes for the vectors.
pub open spec fn embed_document(model_id: Seq<char>, texts: Seq<String>, result: EmbeddingsResult) -> Seq<output::JsonOpView> {
    seq![
        output::begin_object(),
        output::field_str("model"@, answering_model(result, model_id)),
        output::field_i64("dimension"@, result.dimension as int),
        output::field_i64("count"@, (result.vectors.len() as i64) as int),
        output::field_i64("tokens_used"@, result.tokens_used as int),
        output::field_i64("total_ms"@, result.processing_time_ms as int),
        output::begin_array("vectors"@),
    ] + vectors_json(result.vectors@, result.vectors@.len() as int, result.dimension, texts) + seq![
        output::end_array(),
        output::end_object(),
    ]
}

/// The document of an embedding.
pub fn print_json_result(model_id: &str, texts: &Vec<String>, result: &EmbeddingsResult) -> (json: JsonWriter)
    ensures
        json@ == embed_document(model_id@, texts@, *result),
{
    let mut json = JsonWriter::new();
    json.begin_object();
    match &result.model_id {
        Some(id) => json.field_str("model", text::first_given_exec(id.as_str(), model_id).as_str()),
        None => json.field_str("model", model_id),
    }
    json.field_i64("dimension", result.dimension as i64);
    json.field_i64("count", result.vectors.len() as i64);
    json.field_i64("tokens_used", result.tokens_used as i64);
    json.field_i64("total_ms", result.processing_time_ms);
    json.begin_array("vectors");
    let ghost head = json@;
    let ghost all = result.vectors@;
    assert(head + vectors_json(all, 0, result.dimension, texts@) =~= head);
    let mut i: usize = 0;
    while i < result.vectors.len()
        invariant
            i <= result.vectors@.len(),
            all == result.vectors@,
            json@ == head + vectors_json(all, i as int, result.dimension, texts@),
        decreases result.vectors@.len() - i,
    {
        put_vector(&mut json, &result.vectors[i], result.dimension, texts);
        i = i + 1;
        assert(json@ =~= head + vectors_json(all, i as int, result.dimension, texts@));
    }
    json.end_array();
    json.end_object();
    assert(json@ =~= head + vectors_json(all, all.len() as int, result.dimension, texts@) + seq![
        output::end_array(),
        output::end_object(),
    ]);
    json
}

/// The line of the vector at place `i`.
pub open spec fn vector_line(v: EmbeddingVector, i: int) -> Seq<char> {
    "vector["@ + text::dec(i) + "]\t"@ + preview_text(v.value_texts@, shown(v.value_texts@))
}

/// The lines of the vectors.
pub open spec fn embed_text(model_id: Seq<char>, result: EmbeddingsResult, verbose: bool) -> Seq<(Channel, Seq<char>)> {
    seq![
        output::result("model\t"@ + model_id),
        output::result("dimension\t"@ + text::dec(result.dimension as int)),
        output::result("count\t"@ + text::dec(result.vectors@.len() as int)),
    ] + Seq::new(
        result.vectors@.len(),
        |i: int| output::result(vector_line(result.vectors@[i], i)),
    ) + (if verbose {
        seq![output::status("("@ + text::dec(result.processing_time_ms as int) + " ms)"@)]
    } else {
        Seq::empty()
    })
}

/// The lines of an embedding.
pub fn print_text_result(model_id: &str, result: &EmbeddingsResult, verbose: bool) -> (r: Printed)
    ensures
        r@ == embed_text(model_id@, *result, verbose),
{
    let mut printed = Printed::new();
    printed.result(text::cat2("model\t", model_id));
    printed.result(text::cat2("dimension\t", text::dec_i64(result.dimension as i64).as_str()));
    printed.result(text::cat2("count\t", text::dec_usize(result.vectors.len()).as_str()));
    let ghost head = printed@;
    let ghost all = result.vectors@;
    let ghost lines = Seq::new(all.len(), |i: int| output::result(vector_line(all[i], i)));
    assert(head + lines.take(0) =~= head);
    let mut i: usize = 0;
    while i < result.vectors.len()
        invariant
            i <= result.vectors@.len(),
            all == result.vectors@,
            lines == Seq::new(all.len(), |i: int| output::result(vector_line(all[i], i))),
            printed@ == head + lines.take(i as int),
        decreases result.vectors@.len() - i,
    {
        printed.result(
            text::cat4(
                "vector[",
                text::dec_usize(i).as_str(),
                "]\t",
                preview_values(&result.vectors[i]).as_str(),
            ),
        );
        assert(lines[i as int] == output::result(vector_line(all[i as int], i as int)));
        i = i + 1;
        assert(printed@ =~= head + lines.take(i as int));
    }
    assert(lines.take(i as int) =~= lines);
    if verbose {
        printed.status(text::cat3("(", text::dec_i64(result.processing_time_ms).as_str(), " ms)"));
    }
    assert(head =~= seq![
        output::result("model\t"@ + model_id@),
        output::result("dimension\t"@ + text::dec(result.dimension as int)),
        output::result("count\t"@ + text::dec(result.vectors@.len() as int)),
    ]);
    printed
}

/// Where an embedding stands, that is, what is done next.
#[derive(Clone, Copy, Debug, PartialEq, Eq, Structural)]
pub enum EmbedStage {
    /// The engine is started.
    Start,
    /// There are texts, and the engine that was named is known.
    Usage,
    /// The model reference is resolved.
    Resolve,
    /// The model is loaded.
    Load,
    /// The words of the options are read.
    Options,
    /// The texts are embedded.
    Embed,
    /// It is over, with this exit code.
    Finished(i32),
}

/// What comes after a step: what the command line got wrong ends it with code
/// two, what failed with one.
pub open spec fn embed_after(stage: EmbedStage, ok: bool) -> EmbedStage {
    match stage {
        EmbedStage::Start => if ok {
            EmbedStage::Usage
        } else {
            EmbedStage::Finished(1)
        },
        EmbedStage::Usage => if ok {
            EmbedStage::Resolve
        } else {
            EmbedStage::Finished(2)
        },
        EmbedStage::Resolve => if ok {
            EmbedStage::Load
        } else {
            EmbedStage::Finished(1)
        },
        EmbedStage::Load => if ok {
            EmbedStage::Options
        } else {
            EmbedStage::Finished(1)
        },
        EmbedStage::Options => if ok {
            EmbedStage::Embed
        } else {
            EmbedStage::Finished(2)
        },
        EmbedStage::Embed => EmbedStage::Finished(
            if ok {
                0
            } else {
                1
            },
        ),
        EmbedStage::Finished(code) => EmbedStage::Finished(code),
    }
}

/// See [`embed_after`].
pub fn run_embed(stage: EmbedStage, ok: bool) -> (r: EmbedStage)
    ensures
        r == embed_after(stage, ok),
{
    match stage {
        EmbedStage::Start => if ok {
            EmbedStage::Usage
        } else {
            EmbedStage::Finished(1)
        },
        EmbedStage::Usage => if ok {
            EmbedStage::Resolve
        } else {
            EmbedStage::Finished(2)
        },
        EmbedStage::Resolve => if ok {
            EmbedStage::Load
        } else {
            EmbedStage::Finished(1)
        },
        EmbedStage::Load => if ok {
            EmbedStage::Options
        } else {
            EmbedStage::Finished(1)
        },
        EmbedStage::Options => if ok {
            EmbedStage::Embed
        } else {
            EmbedStage::Finished(2)
        },
        EmbedStage::Embed => EmbedStage::Finished(if ok { 0 } else { 1 }),
        EmbedStage::Finished(code) => EmbedStage::Finished(code),
    }
}

/// Only an embedding that was made ends with zero.
pub proof fn zero_means_embedded(stage: EmbedStage, ok: bool)
    ensures
        embed_after(stage, ok) == EmbedStage::Finished(0) ==> (stage is Embed && ok) || stage == EmbedStage::Finished(0),
{
}

/// Each vector is written with the text it was made of and all its values in
/// order; the document says which model answered, where that is known.
pub proof fn a_vector_is_written_with_its_text(model_id: Seq<char>, texts: Seq<String>, result: EmbeddingsResult, v: EmbeddingVector)
    ensures
        ({
            let ops = vector_json(v, result.dimension, texts);
            &&& v.input_index < texts.len() ==> ops[1] == output::field_str("text"@, texts[v.input_index as int]@)
            &&& ops[2] == output::field_i64("dimension"@, result.dimension as int)
            &&& ops.len() == v.values@.len() + 6
            &&& forall|i: int|
                0 <= i < v.values@.len() ==> #[trigger] ops[i + 4] == output::value_f64(v.values@[i] as int)
        }),
        ({
            let ops = embed_document(model_id, texts, result);
            &&& result.model_id is Some && result.model_id->0@.len() > 0 ==> ops[1] == output::field_str(
                "model"@,
                result.model_id->0@,
            )
            &&& result.model_id is None || result.model_id->0@.len() == 0 ==> ops[1] == output::field_str(
                "model"@,
                model_id,
            )
            &&& ops[2] == output::field_i64("dimension"@, result.dimension as int)
            &&& ops[4] == output::field_i64("tokens_used"@, result.tokens_used as int)
            &&& ops[5] == output::field_i64("total_ms"@, result.processing_time_ms as int)
        }),
{
    let ops = vector_json(v, result.dimension, texts);
    assert forall|i: int| 0 <= i < v.values@.len() implies #[trigger] ops[i + 4] == output::value_f64(
        v.values@[i] as int,
    ) by {
        assert(values_json(v.values@, v.values@.len() as int)[i] == output::value_f64(v.values@[i] as int));
    }
}

/// Vectors are written one behind the other.
pub proof fn vectors_are_written_in_order(
    vectors: Seq<EmbeddingVector>,
    n: int,
    i: int,
    dimension: i32,
    texts: Seq<String>,
)
    requires
        0 <= i < n <= vectors.len(),
    ensures
        ({
            let at = vectors_json(vectors, i, dimension, texts).len() as int;
            let one = vector_json(vectors[i], dimension, texts);
            &&& at + one.len() <= vectors_json(vectors, n, dimension, texts).len()
            &&& vectors_json(vectors, n, dimension, texts).subrange(at, at + one.len()) == one
        }),
    decreases n,
{
    let at = vectors_json(vectors, i, dimension, texts).len() as int;
    let one = vector_json(vectors[i], dimension, texts);
    let all = vectors_json(vectors, n, dimension, texts);
    if i < n - 1 {
        vectors_are_written_in_order(vectors, n - 1, i, dimension, texts);
        let before = vectors_json(vectors, n - 1, dimension, texts);
        assert(all.subrange(at, at + one.len()) =~= before.subrange(at, at + one.len()));
    } else {
        assert(all.subrange(at, at + one.len()) =~= one);
    }
}

/// A preview shows the first values of a vector, eight at most, a comma between
/// any two.
pub proof fn a_preview_shows_the_first_values(values: Seq<String>, n: int)
    requires
        0 < n <= values.len(),
    ensures
        shown(values) <= 8 && shown(values) <= values.len(),
        values.len() >= 8 ==> shown(values) == 8,
        values.len() < 8 ==> shown(values) == values.len(),
        n == 1 ==> preview_text(values, n) == values[0]@,
        n > 1 ==> preview_text(values, n) == preview_text(values, n - 1) + seq![','] + values[n - 1]@,
{
    reveal_strlit(",");
    assert(","@ =~= seq![',']);
}

/// What is printed names the model, the dimension and how many vectors there are,
/// and then shows each of them by its place.
pub proof fn every_vector_is_printed(model_id: Seq<char>, result: EmbeddingsResult, verbose: bool, i: int)
    requires
        0 <= i < result.vectors@.len(),
    ensures
        ({
            let lines = embed_text(model_id, result, verbose);
            &&& lines[0] == (Channel::Result, "model\t"@ + model_id)
            &&& lines[1] == (Channel::Result, "dimension\t"@ + text::dec(result.dimension as int))
            &&& lines[2] == (Channel::Result, "count\t"@ + text::dec(result.vectors@.len() as int))
            &&& lines[i + 3] == (
                Channel::Result,
                "vector["@ + text::dec(i) + "]\t"@ + preview_text(
                    result.vectors@[i].value_texts@,
                    shown(result.vectors@[i].value_texts@),
                ),
            )
        }),
{
}

/// Texts are embedded once the model is loaded and the options are known to be
/// good; a wrong use ends the command with two, any other failure with one.
pub proof fn embedding_takes_its_steps()
    ensures
        embed_after(EmbedStage::Start, true) == EmbedStage::Usage,
        embed_after(EmbedStage::Usage, true) == EmbedStage::Resolve,
        embed_after(EmbedStage::Resolve, true) == EmbedStage::Load,
        embed_after(EmbedStage::Load, true) == EmbedStage::Options,
        embed_after(EmbedStage::Options, true) == EmbedStage::Embed,
        embed_after(EmbedStage::Embed, true) == EmbedStage::Finished(0),
        embed_after(EmbedStage::Start, false) == EmbedStage::Finished(1),
        embed_after(EmbedStage::Usage, false) == EmbedStage::Finished(2),
        embed_after(EmbedStage::Resolve, false) == EmbedStage::Finished(1),
        embed_after(EmbedStage::Load, false) == EmbedStage::Finished(1),
        embed_after(EmbedStage::Options, false) == EmbedStage::Finished(2),
        embed_after(EmbedStage::Embed, false) == EmbedStage::Finished(1),
{
}

/// Texts are embedded in the order they were given, the one in front first.
pub proof fn texts_keep_their_order(positional: Option<String>, texts: Vec<String>, r: Vec<String>, i: int)
    requires
        call_ensures(gather_texts, (&positional, &texts), r),
        0 <= i < texts@.len(),
    ensures
        positional is Some && positional->0@.len() > 0 ==> r@.len() == texts@.len() + 1 && r@[0]@ == positional->0@
            && r@[i + 1]@ == texts@[i]@,
        positional is None || positional->0@.len() == 0 ==> r@.len() == texts@.len() && r@[i]@ == texts@[i]@,
{
    let views = output::strings_view(r@);
    assert(views.len() == r@.len());
    if positional is Some && positional->0@.len() > 0 {
        assert(views[0] == r@[0]@);
        assert(views[i + 1] == output::strings_view(texts@)[i]);
        assert(views[i + 1] == r@[i + 1]@);
    } else {
        assert(views[i] == output::strings_view(texts@)[i]);
        assert(views[i] == r@[i]@);
    }
}

/// The `embed` command.
pub open spec fn embed_command(kit: Kit) -> CommandView {
    cli::top("embed"@, "Turn text into embedding vectors"@)
        .option(cli::opt("input"@, ValueType::Text, "Text to embed"@))
        .option(
            cli::opt(
                "--model,-m"@,
                ValueType::Text,
                "Embedding model to use (default: minilm)"@,
            ).default_val("minilm"@),
        )
        .option(
            cli::opt(
                "--engine"@,
                ValueType::Text,
                "Engine hint ("@ + engine_options::choices_text(kit) + "). Honoured for catalog models too, not just URL/HF refs. Omit to let catalog framework / plugin priority pick."@,
            ),
        )
        .option(
            cli::opt("--text,-t"@, ValueType::Text, "Embed this text too; repeat to batch several"@).multi(),
        )
        .option(
            cli::opt(
                "--normalize"@,
                ValueType::Text,
                "Scale vectors to unit length or leave them raw"@,
            ).check(ValidatorView::IsMember(seq!["l2"@, "none"@])),
        )
        .option(
            cli::opt(
                "--pooling"@,
                ValueType::Text,
                "Collapse token vectors with this strategy"@,
            ).check(ValidatorView::IsMember(seq!["mean"@, "cls"@, "last"@])),
        )
        .option(
            cli::opt(
                "--input-type"@,
                ValueType::Text,
                "Which side of a retrieval pair this text is. Asymmetric models (Nemotron-3-Embed, bge, e5, gte) embed a query and a document differently; symmetric models ignore it."@,
            ).check(ValidatorView::IsMember(seq!["query"@, "document"@, "doc"@])),
        )
        .action(Action::Embed)
}

/// Registers `embed`.
pub fn register_embed(app: &mut App, kit: Kit)
    ensures
        final(app)@ == old(app)@.push(embed_command(kit)),
{
    let mut cmd = Command::top("embed", "Turn text into embedding vectors");
    cmd.add_option(Opt::value("input", ValueType::Text, "Text to embed"));
    cmd.add_option(
        Opt::value(
            "--model,-m",
            ValueType::Text,
            "Embedding model to use (default: minilm)",
        ).default_val("minilm"),
    );
    cmd.add_option(
        Opt::value(
            "--engine",
            ValueType::Text,
            text::cat3("Engine hint (", engine_options::engine_choices(kit), "). Honoured for catalog models too, not just URL/HF refs. Omit to let catalog framework / plugin priority pick.").as_str(),
        ),
    );
    cmd.add_option(
        Opt::value("--text,-t", ValueType::Text, "Embed this text too; repeat to batch several").multi(),
    );
    cmd.add_option(
        Opt::value(
            "--normalize",
            ValueType::Text,
            "Scale vectors to unit length or leave them raw",
        ).check(Validator::IsMember(cli::words2("l2", "none"))),
    );
    cmd.add_option(
        Opt::value(
            "--pooling",
            ValueType::Text,
            "Collapse token vectors with this strategy",
        ).check(Validator::IsMember(cli::words3("mean", "cls", "last"))),
    );
    cmd.add_option(
        Opt::value(
            "--input-type",
            ValueType::Text,
            "Which side of a retrieval pair this text is. Asymmetric models (Nemotron-3-Embed, bge, e5, gte) embed a query and a document differently; symmetric models ignore it.",
        ).check(Validator::IsMember(cli::words3("query", "document", "doc"))),
    );
    cmd.callback(Action::Embed);
    app.add(cmd);
}

} // verus!
