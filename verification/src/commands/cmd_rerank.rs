//! `wally rerank <query>`: scores documents against a query, best first.

use crate::cli;
use crate::cli::{Action, App, Command, CommandView, Opt, Validator, ValidatorView, ValueType};
use crate::commands::cmd_run::copy_strings;
use crate::commands::opening::OpeningPlan;
use crate::engine;
use crate::output;
use crate::output::JsonWriter;
use crate::text;
use vstd::prelude::*;

verus! {

/// Why a run without a model is refused, with the exit code.
pub fn rerank_model_problem(model: &str) -> (r: Option<(String, i32)>)
    ensures
        r is Some <==> model@.len() == 0,
        r is Some ==> (r->0).0@ == "--model is required (a reranker model id or on-disk path)"@ && (r->0).1 == 2,
{
    if model.is_empty() {
        Some((text::owned("--model is required (a reranker model id or on-disk path)"), 2))
    } else {
        None
    }
}

/// How a reranking opens: it makes one model ready.
pub fn rerank_opening() -> (r: OpeningPlan)
    ensures
        r == (OpeningPlan { models: 1, reads: false }),
{
    OpeningPlan { models: 1, reads: false }
}

/// The first file that could not be read.
pub open spec fn first_unreadable(files: Seq<(String, Option<String>)>, from: int) -> Option<int>
    decreases files.len() - from,
{
    if 0 <= from < files.len() {
        if files[from].1 is None {
            Some(from)
        } else {
            first_unreadable(files, from + 1)
        }
    } else {
        None
    }
}

/// The texts of the first `n` files.
pub open spec fn file_texts(files: Seq<(String, Option<String>)>, n: int) -> Seq<Seq<char>>
    decreases n,
{
    if n <= 0 {
        Seq::empty()
    } else {
        file_texts(files, n - 1).push(
            match files[n - 1].1 {
                Some(t) => t@,
                None => Seq::empty(),
            },
        )
    }
}

/// The documents to score, or what is wrong, with the exit code: those of `--doc`
/// first, then the texts of the files, in order; there has to be one. `files`
/// holds each path with its text, or nothing where it could not be read.
pub fn gather_documents(docs: &Vec<String>, files: &Vec<(String, Option<String>)>) -> (r: Result<
    Vec<String>,
    (String, i32),
>)
    ensures
        match first_unreadable(files@, 0) {
            Some(bad) => r is Err && (r->Err_0).0@ == "cannot open file: "@ + files@[bad].0@ && (r->Err_0).1 == 2,
            None => if docs@.len() == 0 && files@.len() == 0 {
                r is Err && (r->Err_0).0@ == "at least one document is required (--doc or --file)"@ && (r->Err_0).1 == 2
            } else {
                r is Ok && output::strings_view(r->Ok_0@) == output::strings_view(docs@) + file_texts(
                    files@,
                    files@.len() as int,
                )
            },
        },
{
    let mut documents: Vec<String> = copy_strings(docs);
    let ghost head = output::strings_view(docs@);
    let mut k: usize = 0;
    assert(output::strings_view(documents@) =~= head + file_texts(files@, 0));
    while k < files.len()
        invariant
            k <= files@.len(),
            first_unreadable(files@, 0) == first_unreadable(files@, k as int),
            output::strings_view(documents@) == head + file_texts(files@, k as int),
        decreases files@.len() - k,
    {
        let ghost before = output::strings_view(documents@);
        match &files[k].1 {
            Some(t) => {
                documents.push(text::owned(t.as_str()));
                assert(output::strings_view(documents@) =~= before.push(t@));
                assert(output::strings_view(documents@) =~= head + file_texts(files@, k + 1));
            },
            None => return Err((text::cat2("cannot open file: ", files[k].0.as_str()), 2)),
        }
        k = k + 1;
    }
    assert(output::strings_view(documents@).len() == documents@.len());
    assert(docs@.len() == head.len());
    proof {
        file_texts_len(files@, files@.len() as int);
    }
    if documents.len() == 0 {
        return Err((text::owned("at least one document is required (--doc or --file)"), 2));
    }
    Ok(documents)
}

proof fn file_texts_len(files: Seq<(String, Option<String>)>, n: int)
    requires
        0 <= n,
    ensures
        file_texts(files, n).len() == n,
    decreases n,
{
    if n > 0 {
        file_texts_len(files, n - 1);
    }
}

/// How many of the best matches are asked for; nothing asks for all.
pub fn asked_top_n(top_n: i64) -> (r: Option<u32>)
    requires
        top_n <= u32::MAX,
    ensures
        r == if top_n > 0 {
            Some(top_n as u32)
        } else {
            None
        },
{
    if top_n > 0 {
        Some(top_n as u32)
    } else {
        None
    }
}

/// The engine call that a reranking makes next.
#[derive(Clone, Copy, Debug, PartialEq, Eq, Structural)]
pub enum RerankStage {
    /// Create the component.
    Create,
    /// Hand the model's path, id and name over as C strings.
    Hand,
    /// Load the model into the component.
    Load,
    /// Score the documents.
    Rerank,
    /// Destroy the component; the code to exit with.
    Destroy(i32),
    /// Exit with the code; with 0, the scores are printed.
    Done(i32),
}

/// The stage after a call, which worked or not.
pub open spec fn rerank_after(stage: RerankStage, ok: bool) -> RerankStage {
    match stage {
        RerankStage::Create => if ok {
            RerankStage::Hand
        } else {
            RerankStage::Done(1)
        },
        RerankStage::Hand => if ok {
            RerankStage::Load
        } else {
            RerankStage::Destroy(1)
        },
        RerankStage::Load => if ok {
            RerankStage::Rerank
        } else {
            RerankStage::Destroy(1)
        },
        RerankStage::Rerank => RerankStage::Destroy(
            if ok {
                0
            } else {
                1
            },
        ),
        RerankStage::Destroy(code) => RerankStage::Done(code),
        RerankStage::Done(code) => RerankStage::Done(code),
    }
}

/// `wally rerank` on the engine, one call at a time; see [`rerank_after`].
pub fn run_rerank(stage: RerankStage, ok: bool) -> (r: RerankStage)
    ensures
        r == rerank_after(stage, ok),
{
    match stage {
        RerankStage::Create => if ok {
            RerankStage::Hand
        } else {
            RerankStage::Done(1)
        },
        RerankStage::Hand => if ok {
            RerankStage::Load
        } else {
            RerankStage::Destroy(1)
        },
        RerankStage::Load => if ok {
            RerankStage::Rerank
        } else {
            RerankStage::Destroy(1)
        },
        RerankStage::Rerank => RerankStage::Destroy(
            if ok {
                0
            } else {
                1
            },
        ),
        RerankStage::Destroy(code) => RerankStage::Done(code),
        RerankStage::Done(code) => RerankStage::Done(code),
    }
}

/// Whether the model's path, id and name can be handed over.
pub fn can_hand_over(path: &str, id: &str, name: &str) -> (r: bool)
    ensures
        r == (text::has_no_nul(path@) && text::has_no_nul(id@) && text::has_no_nul(name@)),
{
    text::has_no_nul_exec(path) && text::has_no_nul_exec(id) && text::has_no_nul_exec(name)
}

/// What is said of a call that failed.
pub open spec fn rerank_problem(stage: RerankStage, message: Seq<char>) -> Option<Seq<char>> {
    match stage {
        RerankStage::Create => Some("failed to create rerank component"@),
        RerankStage::Hand => Some("model path, id or name contains a NUL byte"@),
        RerankStage::Load => Some("failed to load reranker: "@ + message),
        RerankStage::Rerank => Some("rerank failed: "@ + message),
        _ => None,
    }
}

/// See [`rerank_problem`].
pub fn rerank_problem_exec(stage: RerankStage, message: &str) -> (r: Option<String>)
    ensures
        match r {
            Some(line) => rerank_problem(stage, message@) == Some(line@),
            None => rerank_problem(stage, message@) is None,
        },
{
    match stage {
        RerankStage::Create => Some(text::owned("failed to create rerank component")),
        RerankStage::Hand => Some(text::owned("model path, id or name contains a NUL byte")),
        RerankStage::Load => Some(text::cat2("failed to load reranker: ", message)),
        RerankStage::Rerank => Some(text::cat2("rerank failed: ", message)),
        _ => None,
    }
}

/// A scored document, by its place among those that were sent. The score is a
/// double, carried by its bits; `score_text` is the score with four decimals.
#[derive(Clone, Debug, Default)]
pub struct RerankScoredItem {
    pub index: u32,
    pub relevance_score: i64,
    pub score_text: String,
}

/// The scores, best first.
#[derive(Clone, Debug, Default)]
pub struct RerankResult {
    pub model_id: String,
    pub processing_time_ms: i64,
    pub items: Vec<RerankScoredItem>,
}

/// The reply of a scoring.
pub fn rerank_reply(ok: bool, described: &str, parsed: Result<RerankResult, String>) -> (r: Result<RerankResult, String>)
    ensures
        engine::result_view(r) == engine::answer_outcome(ok, described@, parsed, false),
{
    engine::answer(ok, described, parsed, false)
}

/// The writes for the item at place `i`: its rank is its place, counted from 1.
pub open spec fn scored_json(item: RerankScoredItem, i: int) -> Seq<output::JsonOpView> {
    seq![
        output::begin_array_object(),
        output::field_i64("index"@, item.index as int),
        output::field_i64("rank"@, i + 1),
        output::field_f64("relevance_score"@, item.relevance_score as int),
        output::end_object(),
    ]
}

/// The writes for the first `n` items.
pub open spec fn scores_json(items: Seq<RerankScoredItem>, n: int) -> Seq<output::JsonOpView>
    decreases n,
{
    if n <= 0 {
        Seq::empty()
    } else {
        scores_json(items, n - 1) + scored_json(items[n - 1], n - 1)
    }
}

fn put_scored(json: &mut JsonWriter, item: &RerankScoredItem, i: usize)
    requires
        i < i64::MAX,
    ensures
        final(json)@ == old(json)@ + scored_json(*item, i as int),
{
    json.begin_array_object();
    json.field_i64("index", item.index as i64);
    json.field_i64("rank", i as i64 + 1);
    json.field_f64("relevance_score", item.relevance_score);
    json.end_object();
    assert(json@ =~= old(json)@ + scored_json(*item, i as int));
}

/// The writes for the scores.
pub open spec fn rerank_document(model_id: Seq<char>, result: RerankResult) -> Seq<output::JsonOpView> {
    seq![
        output::begin_object(),
        output::field_str("model"@, text::first_given(result.model_id@, model_id)),
        output::field_i64("processing_time_ms"@, result.processing_time_ms as int),
        output::begin_array("results"@),
    ] + scores_json(result.items@, result.items@.len() as int) + seq![output::end_array(), output::end_object()]
}

/// The document of a reranking; a result that names no model goes by the one
/// that was loaded.
pub fn rerank_json(model_id: &str, result: &RerankResult) -> (json: JsonWriter)
    requires
        result.items@.len() <= i64::MAX,
    ensures
        json@ == rerank_document(model_id@, *result),
{
    let mut json = JsonWriter::new();
    json.begin_object();
    json.field_str("model", text::first_given_exec(result.model_id.as_str(), model_id).as_str());
    json.field_i64("processing_time_ms", result.processing_time_ms);
    json.begin_array("results");
    let ghost head = json@;
    let ghost all = result.items@;
    assert(head + scores_json(all, 0) =~= head);
    let mut i: usize = 0;
    while i < result.items.len()
        invariant
            i <= result.items@.len() <= i64::MAX,
            all == result.items@,
            json@ == head + scores_json(all, i as int),
        decreases result.items@.len() - i,
    {
        put_scored(&mut json, &result.items[i], i);
        i = i + 1;
        assert(json@ =~= head + scores_json(all, i as int));
    }
    json.end_array();
    json.end_object();
    assert(json@ =~= head + scores_json(all, all.len() as int) + seq![output::end_array(), output::end_object()]);
    json
}

/// A document as it is shown: one of more than sixty bytes is cut after
/// fifty-seven, in the middle of a character if need be.
pub open spec fn preview(doc: Seq<char>) -> Seq<char> {
    let bytes = vstd::utf8::encode_utf8(doc);
    if bytes.len() > 60 {
        text::lossy_text(bytes.subrange(0, 57)) + "..."@
    } else {
        doc
    }
}

/// See [`preview`].
pub fn preview_exec(doc: &str) -> (r: String)
    ensures
        r@ == preview(doc@),
{
    let bytes = doc.as_bytes();
    if bytes.len() > 60 {
        let cut = text::from_utf8_lossy(vstd::slice::slice_subrange(bytes, 0, 57));
        text::cat2(cut.as_str(), "...")
    } else {
        text::owned(doc)
    }
}

/// The cells of the item at place `i`; an index that no document has shows none.
pub open spec fn scored_cells(item: RerankScoredItem, i: int, documents: Seq<String>) -> Seq<Seq<char>> {
    seq![
        text::dec(i + 1),
        text::dec(item.index as int),
        item.score_text@,
        if item.index < documents.len() {
            preview(documents[item.index as int]@)
        } else {
            Seq::empty()
        },
    ]
}

/// See [`scored_cells`].
pub fn scored_row(item: &RerankScoredItem, i: usize, documents: &Vec<String>) -> (r: Vec<String>)
    requires
        i < usize::MAX,
    ensures
        output::strings_view(r@) == scored_cells(*item, i as int, documents@),
{
    let mut row: Vec<String> = Vec::new();
    row.push(text::dec_usize(i + 1));
    row.push(text::dec_i64(item.index as i64));
    row.push(text::owned(item.score_text.as_str()));
    let shown = if (item.index as usize) < documents.len() {
        preview_exec(documents[item.index as usize].as_str())
    } else {
        String::new()
    };
    row.push(shown);
    assert(output::strings_view(row@) =~= scored_cells(*item, i as int, documents@));
    row
}

/// The columns of the table of scores.
pub fn score_header() -> (r: Vec<String>)
    ensures
        output::strings_view(r@) == seq!["RANK"@, "INDEX"@, "SCORE"@, "DOCUMENT"@],
{
    let mut header: Vec<String> = Vec::new();
    header.push(text::owned("RANK"));
    header.push(text::owned("INDEX"));
    header.push(text::owned("SCORE"));
    header.push(text::owned("DOCUMENT"));
    assert(output::strings_view(header@) =~= seq!["RANK"@, "INDEX"@, "SCORE"@, "DOCUMENT"@]);
    header
}

/// Whether the component is alive at a stage.
pub open spec fn rerank_is_live(stage: RerankStage) -> bool {
    !(stage is Create) && !(stage is Done)
}

/// How many calls a reranking can still make.
pub open spec fn rerank_calls_left(stage: RerankStage) -> nat {
    match stage {
        RerankStage::Create => 5,
        RerankStage::Hand => 4,
        RerankStage::Load => 3,
        RerankStage::Rerank => 2,
        RerankStage::Destroy(_) => 1,
        RerankStage::Done(_) => 0,
    }
}

/// A component that was created is destroyed on every path, every run ends, and
/// the exit code is 0 only after a scoring that worked.
pub proof fn a_reranker_is_always_destroyed(stage: RerankStage, ok: bool)
    ensures
        rerank_is_live(stage) && !(stage is Destroy) ==> rerank_is_live(rerank_after(stage, ok)),
        stage is Create ==> rerank_is_live(rerank_after(stage, ok)) == ok,
        !(stage is Done) ==> rerank_calls_left(rerank_after(stage, ok)) < rerank_calls_left(stage),
        rerank_after(stage, ok) == RerankStage::Destroy(0) <==> stage is Rerank && ok,
        rerank_after(stage, ok) == RerankStage::Done(0) ==> stage == RerankStage::Destroy(0) || stage
            == RerankStage::Done(0),
{
}

/// The first file that cannot be read is the one that is named.
pub proof fn the_first_unreadable_file_is_named(files: Seq<(String, Option<String>)>, from: int)
    requires
        0 <= from,
    ensures
        match first_unreadable(files, from) {
            Some(bad) => from <= bad < files.len() && files[bad].1 is None && forall|j: int|
                from <= j < bad ==> (#[trigger] files[j]).1 is Some,
            None => forall|j: int| from <= j < files.len() ==> (#[trigger] files[j]).1 is Some,
        },
    decreases files.len() - from,
{
    if from < files.len() && files[from].1 is Some {
        the_first_unreadable_file_is_named(files, from + 1);
    }
}

/// The texts are those of the files, in their order.
pub proof fn each_file_gives_its_text(files: Seq<(String, Option<String>)>, n: int, i: int)
    requires
        0 <= i < n <= files.len(),
    ensures
        file_texts(files, n).len() == n,
        files[i].1 is Some ==> file_texts(files, n)[i] == files[i].1->0@,
    decreases n,
{
    if n > 1 {
        each_file_gives_its_text(
            files,
            n - 1,
            if i < n - 1 {
                i
            } else {
                n - 2
            },
        );
    } else {
        assert(file_texts(files, 0) =~= Seq::empty());
    }
}

/// A result is told in the order it was ranked in, from one, with the place its
/// document had and that document's own text.
pub proof fn results_are_told_by_rank(model_id: Seq<char>, result: RerankResult, documents: Seq<String>, i: int)
    requires
        0 <= i < result.items@.len(),
    ensures
        ({
            let ops = rerank_document(model_id, result);
            let item = result.items@[i];
            let cells = scored_cells(item, i, documents);
            &&& result.model_id@.len() > 0 ==> ops[1] == output::field_str("model"@, result.model_id@)
            &&& result.model_id@.len() == 0 ==> ops[1] == output::field_str("model"@, model_id)
            &&& ops[2] == output::field_i64("processing_time_ms"@, result.processing_time_ms as int)
            &&& ops[5 * i + 5] == output::field_i64("index"@, item.index as int)
            &&& ops[5 * i + 6] == output::field_i64("rank"@, i + 1)
            &&& ops[5 * i + 7] == output::field_f64("relevance_score"@, item.relevance_score as int)
            &&& cells.len() == 4
            &&& cells[0] == text::dec(i + 1)
            &&& cells[1] == text::dec(item.index as int)
            &&& cells[2] == item.score_text@
            &&& item.index < documents.len() && vstd::utf8::encode_utf8(documents[item.index as int]@).len() <= 60
                ==> cells[3] == documents[item.index as int]@
            &&& item.index >= documents.len() ==> cells[3].len() == 0
        }),
{
    let n = result.items@.len() as int;
    scores_are_written_in_order(result.items@, n, i);
    let scores = scores_json(result.items@, n);
    let ops = rerank_document(model_id, result);
    assert(ops[5 * i + 5] == scores[5 * i + 1]);
    assert(ops[5 * i + 6] == scores[5 * i + 2]);
    assert(ops[5 * i + 7] == scores[5 * i + 3]);
}

proof fn scores_are_written_in_order(items: Seq<RerankScoredItem>, n: int, i: int)
    requires
        0 <= i < n <= items.len(),
    ensures
        scores_json(items, n).len() == 5 * n,
        scores_json(items, n)[5 * i + 1] == output::field_i64("index"@, items[i].index as int),
        scores_json(items, n)[5 * i + 2] == output::field_i64("rank"@, i + 1),
        scores_json(items, n)[5 * i + 3] == output::field_f64("relevance_score"@, items[i].relevance_score as int),
    decreases n,
{
    if n > 1 {
        scores_are_written_in_order(
            items,
            n - 1,
            if i < n - 1 {
                i
            } else {
                n - 2
            },
        );
        let (before, all) = (scores_json(items, n - 1), scores_json(items, n));
        if i < n - 1 {
            assert(all[5 * i + 1] == before[5 * i + 1]);
            assert(all[5 * i + 2] == before[5 * i + 2]);
            assert(all[5 * i + 3] == before[5 * i + 3]);
        }
    } else {
        assert(scores_json(items, 0) =~= Seq::empty());
    }
}

/// Documents are ranked once the model is loaded, and a run ends well exactly where
/// every call did.
pub proof fn a_ranking_takes_its_steps(ok: bool, code: i32)
    ensures
        rerank_after(RerankStage::Create, true) == RerankStage::Hand,
        rerank_after(RerankStage::Hand, true) == RerankStage::Load,
        rerank_after(RerankStage::Load, true) == RerankStage::Rerank,
        rerank_after(RerankStage::Rerank, true) == RerankStage::Destroy(0),
        rerank_after(RerankStage::Create, false) == RerankStage::Done(1),
        rerank_after(RerankStage::Hand, false) == RerankStage::Destroy(1),
        rerank_after(RerankStage::Load, false) == RerankStage::Destroy(1),
        rerank_after(RerankStage::Rerank, false) == RerankStage::Destroy(1),
        rerank_after(RerankStage::Destroy(code), ok) == RerankStage::Done(code),
{
}

/// A failure is told by the step that failed, with what is known of it.
pub proof fn a_failed_ranking_says_where(message: Seq<char>)
    ensures
        rerank_problem(RerankStage::Create, message) == Some("failed to create rerank component"@),
        rerank_problem(RerankStage::Hand, message) == Some("model path, id or name contains a NUL byte"@),
        rerank_problem(RerankStage::Load, message) == Some("failed to load reranker: "@ + message),
        rerank_problem(RerankStage::Rerank, message) == Some("rerank failed: "@ + message),
{
}

/// The `rerank` command.
pub open spec fn rerank_command() -> CommandView {
    cli::top("rerank"@, "Score documents against a query, best first"@)
        .option(cli::opt("query"@, ValueType::Text, "Query the documents are scored against"@).required())
        .option(cli::opt("--model,-m"@, ValueType::Text, "Reranker model id or on-disk path"@).required())
        .option(cli::opt("--doc,-d"@, ValueType::Text, "Document text to score; repeat for several"@).multi())
        .option(cli::opt("--file,-f"@, ValueType::Text, "Text file to score; repeat for several"@).multi())
        .option(
            cli::opt(
                "--top-n"@,
                ValueType::Int,
                "Return only this many best matches"@,
            ).check(ValidatorView::Range(1, 2_147_483_647)),
        )
        .action(Action::Rerank)
}

/// Registers `rerank`.
pub fn register_rerank(app: &mut App)
    ensures
        final(app)@ == old(app)@.push(rerank_command()),
{
    let mut cmd = Command::top("rerank", "Score documents against a query, best first");
    cmd.add_option(Opt::value("query", ValueType::Text, "Query the documents are scored against").required());
    cmd.add_option(Opt::value("--model,-m", ValueType::Text, "Reranker model id or on-disk path").required());
    cmd.add_option(
        Opt::value("--doc,-d", ValueType::Text, "Document text to score; repeat for several").multi(),
    );
    cmd.add_option(Opt::value("--file,-f", ValueType::Text, "Text file to score; repeat for several").multi());
    cmd.add_option(
        Opt::value(
            "--top-n",
            ValueType::Int,
            "Return only this many best matches",
        ).check(Validator::Range(1, 2_147_483_647)),
    );
    cmd.callback(Action::Rerank);
    app.add(cmd);
}

} // verus!
