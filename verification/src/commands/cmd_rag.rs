//! `wally rag query` and `wally rag search`: answers over one's own documents.
//!
//! One session covers the whole invocation, for the indexes live in memory: it
//! is opened, every document is ingested, and then it is asked or searched.

use crate::cli;
use crate::cli::{Action, App, Command, CommandView, Opt, ValueType};
use crate::commands::cmd_rerank;
use crate::commands::opening::OpeningPlan;
use crate::engine;
use crate::engine::SdkError;
use crate::output;
use crate::output::Channel;
use crate::output::JsonWriter;
use crate::output::Printed;
use crate::text;
use vstd::prelude::*;

verus! {

/// What the command line asks for. The temperature and the threshold are
/// single-precision numbers, carried by their bits; one below zero is not set.
#[derive(Clone, Debug)]
pub struct RagParams {
    pub llm_model: String,
    pub embed_model: String,
    pub docs: Vec<String>,
    pub files: Vec<String>,
    pub system_prompt: String,
    pub top_k: i32,
    pub chunk_size: i32,
    pub chunk_overlap: i32,
    pub max_output_tokens: i32,
    pub temperature: u32,
    pub similarity_threshold: u32,
    pub require_llm: bool,
}

/// The models of a query: the answering one and the one that indexes, each with
/// its default.
pub fn query_models(model: &Option<String>, embed: &Option<String>) -> (r: (String, String))
    ensures
        r.0@ == match *model {
            Some(m) => m@,
            None => "smollm2-135m"@,
        },
        r.1@ == match *embed {
            Some(m) => m@,
            None => "all-minilm-l6-v2"@,
        },
{
    (
        match model {
            Some(m) => text::owned(m.as_str()),
            None => text::owned("smollm2-135m"),
        },
        match embed {
            Some(m) => text::owned(m.as_str()),
            None => text::owned("all-minilm-l6-v2"),
        },
    )
}

/// The text of a file, which may hold any bytes: what is no UTF-8 is replaced.
/// Only a file that cannot be opened is an error.
pub fn read_text_file(path: &str, contents: Option<&[u8]>) -> (r: Result<String, String>)
    ensures
        match contents {
            Some(bytes) => r is Ok && r->Ok_0@ == text::lossy_text(bytes@) && (vstd::utf8::valid_utf8(bytes@) ==> r->Ok_0@
                == vstd::utf8::decode_utf8(bytes@)),
            None => r is Err && r->Err_0@ == "cannot open file: "@ + path@,
        },
{
    match contents {
        Some(bytes) => Ok(text::from_utf8_lossy(bytes)),
        None => Err(text::cat2("cannot open file: ", path)),
    }
}

/// The documents of a session, or what is wrong, with the exit code; see
/// [`cmd_rerank::gather_documents`].
pub fn collect_documents(params: &RagParams, files: &Vec<(String, Option<String>)>) -> (r: Result<
    Vec<String>,
    (String, i32),
>)
    ensures
        match cmd_rerank::first_unreadable(files@, 0) {
            Some(bad) => r is Err && (r->Err_0).0@ == "cannot open file: "@ + files@[bad].0@ && (r->Err_0).1 == 2,
            None => if params.docs@.len() == 0 && files@.len() == 0 {
                r is Err && (r->Err_0).0@ == "at least one document is required (--doc or --file)"@ && (r->Err_0).1 == 2
            } else {
                r is Ok && output::strings_view(r->Ok_0@) == output::strings_view(params.docs@)
                    + cmd_rerank::file_texts(files@, files@.len() as int)
            },
        },
{
    cmd_rerank::gather_documents(&params.docs, files)
}

/// Why a run without a question is refused, with the exit code.
pub fn question_problem(question: &str) -> (r: Option<(String, i32)>)
    ensures
        r is Some <==> question@.len() == 0,
        r is Some ==> (r->0).0@ == "a question is required (positional argument)"@ && (r->0).1 == 2,
{
    if question.is_empty() {
        Some((text::owned("a question is required (positional argument)"), 2))
    } else {
        None
    }
}

/// How a query or a search opens: it makes no model ready.
pub fn rag_opening() -> (r: OpeningPlan)
    ensures
        r == (OpeningPlan { models: 0, reads: false }),
{
    OpeningPlan { models: 0, reads: false }
}

/// Whether a session has an answering model.
pub open spec fn has_llm(params: RagParams) -> bool {
    params.require_llm || params.llm_model@.len() > 0
}

/// The configuration of a session; what is not set is the engine's own.
pub struct RagConfiguration {
    pub embedding_model_id: String,
    pub llm_model_id: String,
    pub top_k: Option<i32>,
    pub chunk_size: Option<i32>,
    pub chunk_overlap: Option<i32>,
    pub score_threshold: Option<u32>,
}

/// A count that is set.
pub open spec fn set_count(n: i32) -> Option<i32> {
    if n > 0 {
        Some(n)
    } else {
        None
    }
}

fn set_count_exec(n: i32) -> (r: Option<i32>)
    ensures
        r == set_count(n),
{
    if n > 0 {
        Some(n)
    } else {
        None
    }
}

/// A number that is set.
pub open spec fn set_number(bits: u32) -> Option<u32> {
    if engine::is_nonnegative(bits) {
        Some(bits)
    } else {
        None
    }
}

fn set_number_exec(bits: u32) -> (r: Option<u32>)
    ensures
        r == set_number(bits),
{
    if bits <= 0x7F80_0000 || bits == 0x8000_0000 {
        Some(bits)
    } else {
        None
    }
}

/// The configuration that the command line asks for.
pub fn rag_configuration(params: &RagParams) -> (r: RagConfiguration)
    ensures
        r.embedding_model_id@ == params.embed_model@,
        r.llm_model_id@ == if has_llm(*params) {
            params.llm_model@
        } else {
            Seq::empty()
        },
        r.top_k == set_count(params.top_k),
        r.chunk_size == set_count(params.chunk_size),
        r.chunk_overlap == set_count(params.chunk_overlap),
        r.score_threshold == set_number(params.similarity_threshold),
{
    RagConfiguration {
        embedding_model_id: text::owned(params.embed_model.as_str()),
        llm_model_id: if params.require_llm || !params.llm_model.as_str().is_empty() {
            text::owned(params.llm_model.as_str())
        } else {
            String::new()
        },
        top_k: set_count_exec(params.top_k),
        chunk_size: set_count_exec(params.chunk_size),
        chunk_overlap: set_count_exec(params.chunk_overlap),
        score_threshold: set_number_exec(params.similarity_threshold),
    }
}

/// What is said of a session that could not be opened.
pub fn session_problem(params: &RagParams) -> (r: String)
    ensures
        r@ == if has_llm(*params) {
            "RAG session create failed (check that '"@ + params.embed_model@ + "' and '"@ + params.llm_model@
                + "' are downloaded)"@
        } else {
            "RAG session create failed (check that '"@ + params.embed_model@ + "' is downloaded)"@
        },
{
    if params.require_llm || !params.llm_model.as_str().is_empty() {
        text::cat5(
            "RAG session create failed (check that '",
            params.embed_model.as_str(),
            "' and '",
            params.llm_model.as_str(),
            "' are downloaded)",
        )
    } else {
        text::cat3(
            "RAG session create failed (check that '",
            params.embed_model.as_str(),
            "' is downloaded)",
        )
    }
}

/// The id of the document at place `i`.
pub fn document_id(i: usize) -> (r: String)
    ensures
        r@ == "doc-"@ + text::dec(i as int),
{
    text::cat2("doc-", text::dec_usize(i).as_str())
}

/// The reply of an ingestion: nothing, or the error line.
pub fn ingest_reply(ok: bool, described: &str, parsed: Result<(), String>) -> (r: Option<String>)
    ensures
        match engine::answer_outcome(ok, described@, parsed, false) {
            Ok(_) => r is None,
            Err(message) => r is Some && r->0@ == "RAG ingest failed: "@ + message,
        },
{
    match engine::answer(ok, described, parsed, false) {
        Ok(_) => None,
        Err(message) => Some(text::cat2("RAG ingest failed: ", message.as_str())),
    }
}

/// The status line of a document that was ingested, in a verbose run.
pub fn ingested_status(i: usize, text_bytes: usize, verbose: bool) -> (r: Printed)
    ensures
        r@ == if verbose {
            seq![
                output::status(
                    "ingested doc-"@ + text::dec(i as int) + " ("@ + text::dec(text_bytes as int) + " bytes)"@,
                ),
            ]
        } else {
            Seq::empty()
        },
{
    let mut printed = Printed::new();
    if verbose {
        printed.status(
            text::cat5(
                "ingested doc-",
                text::dec_usize(i).as_str(),
                " (",
                text::dec_usize(text_bytes).as_str(),
                " bytes)",
            ),
        );
    }
    printed
}

/// The engine call that a session makes next.
#[derive(Clone, Copy, Debug, PartialEq, Eq, Structural)]
pub enum RagStage {
    /// Open the session.
    Create,
    /// Ingest the document of that place.
    Ingest(usize),
    /// Ask or search, and print what came back.
    Ask,
    /// Close the session; the code to exit with.
    Destroy(i32),
    /// Exit with the code.
    Done(i32),
}

/// The stage after a call, which worked or not, in a session of so many
/// documents.
pub open spec fn rag_after(stage: RagStage, ok: bool, documents: int) -> RagStage {
    match stage {
        RagStage::Create => if !ok {
            RagStage::Done(1)
        } else if documents > 0 {
            RagStage::Ingest(0)
        } else {
            RagStage::Ask
        },
        RagStage::Ingest(i) => if !ok {
            RagStage::Destroy(1)
        } else if i + 1 < documents {
            RagStage::Ingest((i + 1) as usize)
        } else {
            RagStage::Ask
        },
        RagStage::Ask => RagStage::Destroy(
            if ok {
                0
            } else {
                1
            },
        ),
        RagStage::Destroy(code) => RagStage::Done(code),
        RagStage::Done(code) => RagStage::Done(code),
    }
}

/// A session on the engine, one call at a time; see [`rag_after`]. Querying and
/// searching differ only in what is asked.
pub fn open_and_ingest(stage: RagStage, ok: bool, documents: usize) -> (r: RagStage)
    ensures
        r == rag_after(stage, ok, documents as int),
{
    match stage {
        RagStage::Create => if !ok {
            RagStage::Done(1)
        } else if documents > 0 {
            RagStage::Ingest(0)
        } else {
            RagStage::Ask
        },
        RagStage::Ingest(i) => if !ok {
            RagStage::Destroy(1)
        } else if i < documents && i + 1 < documents {
            RagStage::Ingest(i + 1)
        } else {
            RagStage::Ask
        },
        RagStage::Ask => RagStage::Destroy(
            if ok {
                0
            } else {
                1
            },
        ),
        RagStage::Destroy(code) => RagStage::Done(code),
        RagStage::Done(code) => RagStage::Done(code),
    }
}

/// How an answer is generated; what is not set is the engine's own.
#[derive(Clone, Debug)]
pub struct RagGeneration {
    pub max_output_tokens: Option<i32>,
    pub temperature: Option<u32>,
    pub system_prompt: Option<String>,
}

/// How chunks are retrieved; what is not set is the session's own.
#[derive(Clone, Copy, Debug, PartialEq, Eq, Structural)]
pub struct RagRetrieval {
    pub top_k: Option<i32>,
    pub score_threshold: Option<u32>,
}

/// Whether those are the generation options of a query; none are sent when none
/// is set.
pub open spec fn is_generation(params: RagParams, r: Option<RagGeneration>) -> bool {
    &&& r is None <==> params.max_output_tokens <= 0 && !engine::is_nonnegative(params.temperature)
        && params.system_prompt@.len() == 0
    &&& r is Some ==> (r->0).max_output_tokens == set_count(params.max_output_tokens) && (r->0).temperature == set_number(
        params.temperature,
    ) && match (r->0).system_prompt {
        Some(p) => params.system_prompt@.len() > 0 && p@ == params.system_prompt@,
        None => params.system_prompt@.len() == 0,
    }
}

/// See [`is_generation`].
pub fn query_generation(params: &RagParams) -> (r: Option<RagGeneration>)
    ensures
        is_generation(*params, r),
{
    let max_output_tokens = set_count_exec(params.max_output_tokens);
    let temperature = set_number_exec(params.temperature);
    let system_prompt = if params.system_prompt.as_str().is_empty() {
        None
    } else {
        Some(text::owned(params.system_prompt.as_str()))
    };
    if max_output_tokens.is_none() && temperature.is_none() && system_prompt.is_none() {
        None
    } else {
        Some(RagGeneration { max_output_tokens, temperature, system_prompt })
    }
}

/// The retrieval options of a query or a search; none are sent when none is set.
pub open spec fn retrieved_by(params: RagParams) -> Option<RagRetrieval> {
    if params.top_k <= 0 && !engine::is_nonnegative(params.similarity_threshold) {
        None
    } else {
        Some(
            RagRetrieval {
                top_k: set_count(params.top_k),
                score_threshold: set_number(params.similarity_threshold),
            },
        )
    }
}

/// See [`retrieved_by`].
pub fn retrieval(params: &RagParams) -> (r: Option<RagRetrieval>)
    ensures
        r == retrieved_by(*params),
{
    let top_k = set_count_exec(params.top_k);
    let score_threshold = set_number_exec(params.similarity_threshold);
    if top_k.is_none() && score_threshold.is_none() {
        None
    } else {
        Some(RagRetrieval { top_k, score_threshold })
    }
}

/// A question of a session.
#[derive(Clone, Debug)]
pub struct RagQueryOptions {
    pub query: String,
    pub generation: Option<RagGeneration>,
    pub retrieval: Option<RagRetrieval>,
}

/// The question that a command line asks.
pub fn query_request(params: &RagParams, question: &str) -> (r: RagQueryOptions)
    ensures
        r.query@ == question@,
        is_generation(*params, r.generation),
        r.retrieval == retrieved_by(*params),
{
    RagQueryOptions { query: text::owned(question), generation: query_generation(params), retrieval: retrieval(params) }
}

/// A search of a session.
#[derive(Clone, Debug)]
pub struct RagSearchRequest {
    pub query: String,
    pub retrieval: Option<RagRetrieval>,
}

/// The search that a command line asks for; nothing is generated.
pub fn search_request(params: &RagParams, question: &str) -> (r: RagSearchRequest)
    ensures
        r.query@ == question@,
        r.retrieval == retrieved_by(*params),
{
    RagSearchRequest { query: text::owned(question), retrieval: retrieval(params) }
}

/// A chunk that was retrieved. The score is a double, carried by its bits.
#[derive(Clone, Debug, Default)]
pub struct RagChunk {
    pub text: String,
    pub score: i64,
    pub source_document: Option<String>,
}

/// The answer to a question.
#[derive(Clone, Debug, Default)]
pub struct RagResult {
    pub answer: String,
    pub retrieval_time_ms: i64,
    pub generation_time_ms: i64,
    pub input_tokens: i32,
    pub output_tokens: i32,
    pub retrieved_chunks: Vec<RagChunk>,
    pub error: Option<SdkError>,
}

/// The chunks that match a question.
#[derive(Clone, Debug, Default)]
pub struct RagSearchResponse {
    pub request_id: String,
    pub retrieval_time_ms: i64,
    pub chunks: Vec<RagChunk>,
    pub error: Option<SdkError>,
}

/// The reply of a query: the answer, or the error line. A bad code with a
/// readable document leaves no detail to show.
pub fn run_rag_query(ok: bool, parsed: Result<RagResult, String>) -> (r: Result<RagResult, String>)
    ensures
        match engine::answer_outcome(ok, Seq::empty(), parsed, false) {
            Ok(result) => match engine::coded_outcome(result.error) {
                Ok(_) => r == Ok::<RagResult, String>(result),
                Err(message) => r is Err && r->Err_0@ == "RAG query failed: "@ + message,
            },
            Err(message) => r is Err && r->Err_0@ == "RAG query failed: "@ + message,
        },
{
    let none = String::new();
    match engine::answer(ok, none.as_str(), parsed, false) {
        Ok(result) => match engine::coded_outcome_of(&result.error) {
            Ok(_) => Ok(result),
            Err(message) => Err(text::cat2("RAG query failed: ", message.as_str())),
        },
        Err(message) => Err(text::cat2("RAG query failed: ", message.as_str())),
    }
}

/// The reply of a search: the chunks, or the error line. A bad code with a
/// readable document leaves no detail to show.
pub fn run_rag_search(ok: bool, parsed: Result<RagSearchResponse, String>) -> (r: Result<RagSearchResponse, String>)
    ensures
        match engine::answer_outcome(ok, Seq::empty(), parsed, false) {
            Ok(response) => match engine::coded_outcome(response.error) {
                Ok(_) => r == Ok::<RagSearchResponse, String>(response),
                Err(message) => r is Err && r->Err_0@ == "RAG search failed: "@ + message,
            },
            Err(message) => r is Err && r->Err_0@ == "RAG search failed: "@ + message,
        },
{
    let none = String::new();
    match engine::answer(ok, none.as_str(), parsed, false) {
        Ok(response) => match engine::coded_outcome_of(&response.error) {
            Ok(_) => Ok(response),
            Err(message) => Err(text::cat2("RAG search failed: ", message.as_str())),
        },
        Err(message) => Err(text::cat2("RAG search failed: ", message.as_str())),
    }
}

/// The writes for one chunk.
pub open spec fn chunk_json(c: RagChunk) -> Seq<output::JsonOpView> {
    seq![
        output::begin_array_object(),
        output::field_str("text"@, c.text@),
        output::field_f64("score"@, c.score as int),
        output::field_str(
            "source"@,
            match c.source_document {
                Some(s) => s@,
                None => Seq::empty(),
            },
        ),
        output::end_object(),
    ]
}

/// The writes for the first `n` chunks.
pub open spec fn chunks_json(chunks: Seq<RagChunk>, n: int) -> Seq<output::JsonOpView>
    decreases n,
{
    if n <= 0 {
        Seq::empty()
    } else {
        chunks_json(chunks, n - 1) + chunk_json(chunks[n - 1])
    }
}

fn put_chunk(json: &mut JsonWriter, c: &RagChunk)
    ensures
        final(json)@ == old(json)@ + chunk_json(*c),
{
    let none = String::new();
    json.begin_array_object();
    json.field_str("text", c.text.as_str());
    json.field_f64("score", c.score);
    match &c.source_document {
        Some(s) => json.field_str("source", s.as_str()),
        None => json.field_str("source", none.as_str()),
    }
    json.end_object();
    assert(json@ =~= old(json)@ + chunk_json(*c));
}

/// Writes the matches, and ends the document.
fn put_matches(json: &mut JsonWriter, chunks: &Vec<RagChunk>)
    ensures
        final(json)@ == old(json)@ + seq![output::begin_array("matches"@)] + chunks_json(
            chunks@,
            chunks@.len() as int,
        ) + seq![output::end_array(), output::end_object()],
{
    let ghost before = json@;
    json.begin_array("matches");
    let ghost head = json@;
    assert(head =~= before + seq![output::begin_array("matches"@)]);
    assert(head + chunks_json(chunks@, 0) =~= head);
    let mut i: usize = 0;
    while i < chunks.len()
        invariant
            i <= chunks@.len(),
            json@ == head + chunks_json(chunks@, i as int),
        decreases chunks@.len() - i,
    {
        put_chunk(json, &chunks[i]);
        i = i + 1;
        assert(json@ =~= head + chunks_json(chunks@, i as int));
    }
    json.end_array();
    json.end_object();
    assert(json@ =~= head + chunks_json(chunks@, chunks@.len() as int) + seq![
        output::end_array(),
        output::end_object(),
    ]);
}

/// The writes for an answer.
pub open spec fn answer_document(result: RagResult) -> Seq<output::JsonOpView> {
    seq![
        output::begin_object(),
        output::field_str("answer"@, result.answer@),
        output::field_i64("retrieval_time_ms"@, result.retrieval_time_ms as int),
        output::field_i64("generation_time_ms"@, result.generation_time_ms as int),
        output::field_i64("total_time_ms"@, result.retrieval_time_ms + result.generation_time_ms),
        output::field_i64("prompt_tokens"@, result.input_tokens as int),
        output::field_i64("completion_tokens"@, result.output_tokens as int),
    ] + seq![output::begin_array("matches"@)] + chunks_json(
        result.retrieved_chunks@,
        result.retrieved_chunks@.len() as int,
    ) + seq![output::end_array(), output::end_object()]
}

/// The document of an answer; the whole time is that of retrieval and that of
/// generation.
pub fn rag_answer_json(result: &RagResult) -> (json: JsonWriter)
    requires
        i64::MIN <= result.retrieval_time_ms + result.generation_time_ms <= i64::MAX,
    ensures
        json@ == answer_document(*result),
{
    let mut json = JsonWriter::new();
    json.begin_object();
    json.field_str("answer", result.answer.as_str());
    json.field_i64("retrieval_time_ms", result.retrieval_time_ms);
    json.field_i64("generation_time_ms", result.generation_time_ms);
    json.field_i64("total_time_ms", result.retrieval_time_ms + result.generation_time_ms);
    json.field_i64("prompt_tokens", result.input_tokens as i64);
    json.field_i64("completion_tokens", result.output_tokens as i64);
    put_matches(&mut json, &result.retrieved_chunks);
    json
}

/// The lines of an answer.
pub open spec fn answer_text(result: RagResult, verbose: bool) -> Seq<(Channel, Seq<char>)> {
    seq![output::result(result.answer@)] + (if verbose {
        seq![
            output::status(
                "chunks="@ + text::dec(result.retrieved_chunks@.len() as int) + " retrieval="@ + text::dec(
                    result.retrieval_time_ms as int,
                ) + "ms generation="@ + text::dec(result.generation_time_ms as int) + "ms"@,
            ),
        ]
    } else {
        Seq::empty()
    })
}

/// The lines of an answer.
pub fn rag_answer_lines(result: &RagResult, verbose: bool) -> (r: Printed)
    ensures
        r@ == answer_text(*result, verbose),
{
    let mut printed = Printed::new();
    printed.result(text::owned(result.answer.as_str()));
    if verbose {
        let head = text::cat4(
            "chunks=",
            text::dec_usize(result.retrieved_chunks.len()).as_str(),
            " retrieval=",
            text::dec_i64(result.retrieval_time_ms).as_str(),
        );
        printed.status(
            text::cat4(
                head.as_str(),
                "ms generation=",
                text::dec_i64(result.generation_time_ms).as_str(),
                "ms",
            ),
        );
    }
    printed
}

/// The writes for a search.
pub open spec fn search_document(response: RagSearchResponse) -> Seq<output::JsonOpView> {
    seq![
        output::begin_object(),
        output::field_i64("retrieval_time_ms"@, response.retrieval_time_ms as int),
        output::field_str("request_id"@, response.request_id@),
    ] + seq![output::begin_array("matches"@)] + chunks_json(response.chunks@, response.chunks@.len() as int) + seq![
        output::end_array(),
        output::end_object(),
    ]
}

/// The document of a search.
pub fn rag_search_json(response: &RagSearchResponse) -> (json: JsonWriter)
    ensures
        json@ == search_document(*response),
{
    let mut json = JsonWriter::new();
    json.begin_object();
    json.field_i64("retrieval_time_ms", response.retrieval_time_ms);
    json.field_str("request_id", response.request_id.as_str());
    put_matches(&mut json, &response.chunks);
    json
}

/// The lines of a search.
pub open spec fn search_text(response: RagSearchResponse, verbose: bool) -> Seq<(Channel, Seq<char>)> {
    response.chunks@.map_values(|c: RagChunk| output::result(c.text@)) + (if verbose {
        seq![
            output::status(
                "chunks="@ + text::dec(response.chunks@.len() as int) + " retrieval="@ + text::dec(
                    response.retrieval_time_ms as int,
                ) + "ms"@,
            ),
        ]
    } else {
        Seq::empty()
    })
}

/// The lines of a search: the text of each chunk.
pub fn rag_search_lines(response: &RagSearchResponse, verbose: bool) -> (r: Printed)
    ensures
        r@ == search_text(*response, verbose),
{
    let mut printed = Printed::new();
    let ghost lines = response.chunks@.map_values(|c: RagChunk| output::result(c.text@));
    assert(printed@ =~= lines.take(0));
    let mut i: usize = 0;
    while i < response.chunks.len()
        invariant
            i <= response.chunks@.len(),
            lines == response.chunks@.map_values(|c: RagChunk| output::result(c.text@)),
            printed@ == lines.take(i as int),
        decreases response.chunks@.len() - i,
    {
        printed.result(text::owned(response.chunks[i].text.as_str()));
        i = i + 1;
        assert(printed@ =~= lines.take(i as int));
    }
    assert(printed@ =~= lines);
    if verbose {
        printed.status(
            text::cat5(
                "chunks=",
                text::dec_usize(response.chunks.len()).as_str(),
                " retrieval=",
                text::dec_i64(response.retrieval_time_ms).as_str(),
                "ms",
            ),
        );
    }
    printed
}

/// Whether the session is open at a stage.
pub open spec fn session_is_open(stage: RagStage) -> bool {
    !(stage is Create) && !(stage is Done)
}

/// How many calls a session can still make.
pub open spec fn rag_calls_left(stage: RagStage, documents: int) -> int {
    let all = if documents > 0 {
        documents
    } else {
        0
    };
    match stage {
        RagStage::Create => all + 4,
        RagStage::Ingest(i) => if i < all {
            all - i + 2
        } else {
            3
        },
        RagStage::Ask => 2,
        RagStage::Destroy(_) => 1,
        RagStage::Done(_) => 0,
    }
}

/// A session that was opened is closed on every path, it is asked only after
/// every document was ingested, every run ends, and the exit code is 0 only
/// after an answer.
pub proof fn a_session_is_always_closed(stage: RagStage, ok: bool, documents: int)
    requires
        documents <= usize::MAX,
    ensures
        session_is_open(stage) && !(stage is Destroy) ==> session_is_open(rag_after(stage, ok, documents)),
        stage is Create ==> session_is_open(rag_after(stage, ok, documents)) == ok,
        !(stage is Done) ==> 0 <= rag_calls_left(rag_after(stage, ok, documents), documents) < rag_calls_left(
            stage,
            documents,
        ),
        rag_after(stage, ok, documents) is Ask ==> ok && (stage is Create && documents <= 0 || (
        stage matches RagStage::Ingest(i) && i + 1 >= documents)),
        rag_after(stage, ok, documents) == RagStage::Destroy(0) <==> stage is Ask && ok,
        rag_after(stage, ok, documents) == RagStage::Done(0) ==> stage == RagStage::Destroy(0) || stage
            == RagStage::Done(0),
{
}

/// A session indexes every document, in order, before it is asked, and is closed
/// afterwards; it ends well exactly where every call did.
pub proof fn every_document_is_indexed_before_the_question(documents: int, i: int, ok: bool, code: i32)
    requires
        0 <= i < documents <= usize::MAX,
    ensures
        rag_after(RagStage::Create, true, documents) == RagStage::Ingest(0),
        rag_after(RagStage::Create, true, 0) == RagStage::Ask,
        rag_after(RagStage::Create, false, documents) == RagStage::Done(1),
        i + 1 < documents ==> rag_after(RagStage::Ingest(i as usize), true, documents) == RagStage::Ingest(
            (i + 1) as usize,
        ),
        i + 1 == documents ==> rag_after(RagStage::Ingest(i as usize), true, documents) == RagStage::Ask,
        rag_after(RagStage::Ingest(i as usize), false, documents) == RagStage::Destroy(1),
        rag_after(RagStage::Ask, true, documents) == RagStage::Destroy(0),
        rag_after(RagStage::Ask, false, documents) == RagStage::Destroy(1),
        rag_after(RagStage::Destroy(code), ok, documents) == RagStage::Done(code),
{
}

/// A setting that was given is sent under its own name, and one that was not is
/// left to the engine.
pub proof fn settings_are_sent_as_given(params: RagParams, r: Option<RagGeneration>)
    requires
        is_generation(params, r),
    ensures
        params.max_output_tokens > 0 ==> r is Some && (r->0).max_output_tokens == Some(params.max_output_tokens),
        params.max_output_tokens <= 0 && r is Some ==> (r->0).max_output_tokens is None,
        params.temperature <= 0x7F80_0000 ==> r is Some && (r->0).temperature == Some(params.temperature),
        params.temperature > 0x8000_0000 && r is Some ==> (r->0).temperature is None,
        params.system_prompt@.len() > 0 ==> r is Some && (r->0).system_prompt is Some && (r->0).system_prompt->0@
            == params.system_prompt@,
        params.system_prompt@.len() == 0 && r is Some ==> (r->0).system_prompt is None,
        params.max_output_tokens <= 0 && params.temperature > 0x8000_0000 && params.system_prompt@.len() == 0
            ==> r is None,
        params.top_k > 0 ==> retrieved_by(params) is Some && (retrieved_by(params)->0).top_k == Some(params.top_k),
        params.similarity_threshold <= 0x7F80_0000 ==> retrieved_by(params) is Some && (
        retrieved_by(params)->0).score_threshold == Some(params.similarity_threshold),
        params.top_k <= 0 && retrieved_by(params) is Some ==> (retrieved_by(params)->0).top_k is None,
        params.top_k <= 0 && params.similarity_threshold > 0x8000_0000 ==> retrieved_by(params) is None,
{
}

/// The matches of an answer are written in the order they were found, each with
/// its own text, score and source.
pub proof fn matches_are_written_in_order(chunks: Seq<RagChunk>, n: int, i: int)
    requires
        0 <= i < n <= chunks.len(),
    ensures
        chunks_json(chunks, n).len() == 5 * n,
        chunks_json(chunks, n)[5 * i + 1] == output::field_str("text"@, chunks[i].text@),
        chunks_json(chunks, n)[5 * i + 2] == output::field_f64("score"@, chunks[i].score as int),
        chunks[i].source_document is Some ==> chunks_json(chunks, n)[5 * i + 3] == output::field_str(
            "source"@,
            chunks[i].source_document->0@,
        ),
    decreases n,
{
    if n > 1 {
        matches_are_written_in_order(
            chunks,
            n - 1,
            if i < n - 1 {
                i
            } else {
                n - 2
            },
        );
        let (before, all) = (chunks_json(chunks, n - 1), chunks_json(chunks, n));
        if i < n - 1 {
            assert(all[5 * i + 1] == before[5 * i + 1]);
            assert(all[5 * i + 2] == before[5 * i + 2]);
            assert(all[5 * i + 3] == before[5 * i + 3]);
        }
    } else {
        assert(chunks_json(chunks, 0) =~= Seq::empty());
    }
}

/// An answer is written with its two times apart and together, and its tokens in
/// before those out; what is printed of it is the answer.
pub proof fn an_answer_is_written_under_its_names(result: RagResult, response: RagSearchResponse, verbose: bool)
    ensures
        ({
            let ops = answer_document(result);
            &&& ops[1] == output::field_str("answer"@, result.answer@)
            &&& ops[2] == output::field_i64("retrieval_time_ms"@, result.retrieval_time_ms as int)
            &&& ops[3] == output::field_i64("generation_time_ms"@, result.generation_time_ms as int)
            &&& ops[4].1 == "total_time_ms"@ && ops[4].3 == ops[2].3 + ops[3].3
            &&& ops[5] == output::field_i64("prompt_tokens"@, result.input_tokens as int)
            &&& ops[6] == output::field_i64("completion_tokens"@, result.output_tokens as int)
        }),
        ({
            let ops = search_document(response);
            &&& ops[1] == output::field_i64("retrieval_time_ms"@, response.retrieval_time_ms as int)
            &&& ops[2] == output::field_str("request_id"@, response.request_id@)
        }),
        answer_text(result, verbose)[0] == (Channel::Result, result.answer@),
        answer_text(result, verbose).len() == if verbose {
            2int
        } else {
            1
        },
        forall|i: int|
            0 <= i < response.chunks@.len() ==> #[trigger] search_text(response, verbose)[i] == (
                Channel::Result,
                response.chunks@[i].text@,
            ),
        search_text(response, verbose).len() == response.chunks@.len() + (if verbose {
            1int
        } else {
            0
        }),
{
}

/// A session is set up with the models and limits that were given, each in its own
/// place; without a model to answer it has none.
pub proof fn a_session_is_set_up_as_asked(params: RagParams, r: RagConfiguration)
    requires
        call_ensures(rag_configuration, (&params,), r),
    ensures
        r.embedding_model_id@ == params.embed_model@,
        params.llm_model@.len() > 0 ==> r.llm_model_id@ == params.llm_model@,
        params.llm_model@.len() == 0 ==> r.llm_model_id@.len() == 0,
        params.top_k > 0 ==> r.top_k == Some(params.top_k),
        params.top_k <= 0 ==> r.top_k is None,
        params.chunk_size > 0 ==> r.chunk_size == Some(params.chunk_size),
        params.chunk_overlap > 0 ==> r.chunk_overlap == Some(params.chunk_overlap),
        params.similarity_threshold <= 0x7F80_0000 ==> r.score_threshold == Some(params.similarity_threshold),
{
}

/// A command with the options that say what is searched.
pub open spec fn with_corpus_options(cmd: CommandView) -> CommandView {
    cmd
        .option(cli::opt("--doc,-d"@, ValueType::Text, "Document text to index; repeat for several"@).multi())
        .option(cli::opt("--file,-f"@, ValueType::Text, "Text file to index; repeat for several"@).multi())
        .option(
            cli::opt(
                "--embedding-model,--embed"@,
                ValueType::Text,
                "Embedding model to index with (default: all-minilm-l6-v2)"@,
            ),
        )
        .option(cli::opt("--top-k"@, ValueType::Int, "Retrieve this many chunks per question"@))
        .option(cli::opt("--chunk-size"@, ValueType::Int, "Tokens per chunk when splitting documents"@))
        .option(cli::opt("--chunk-overlap"@, ValueType::Int, "Tokens shared between neighbouring chunks"@))
        .option(cli::opt("--similarity-threshold"@, ValueType::Float, "Discard chunks scoring below this"@))
}

/// See [`with_corpus_options`].
fn add_corpus_options(cmd: &mut Command)
    ensures
        final(cmd)@ == with_corpus_options(old(cmd)@),
{
    cmd.add_option(
        Opt::value("--doc,-d", ValueType::Text, "Document text to index; repeat for several").multi(),
    );
    cmd.add_option(Opt::value("--file,-f", ValueType::Text, "Text file to index; repeat for several").multi());
    cmd.add_option(
        Opt::value(
            "--embedding-model,--embed",
            ValueType::Text,
            "Embedding model to index with (default: all-minilm-l6-v2)",
        ),
    );
    cmd.add_option(Opt::value("--top-k", ValueType::Int, "Retrieve this many chunks per question"));
    cmd.add_option(Opt::value("--chunk-size", ValueType::Int, "Tokens per chunk when splitting documents"));
    cmd.add_option(Opt::value("--chunk-overlap", ValueType::Int, "Tokens shared between neighbouring chunks"));
    cmd.add_option(Opt::value("--similarity-threshold", ValueType::Float, "Discard chunks scoring below this"));
}

/// The `rag` namespace.
pub open spec fn rag_command() -> CommandView {
    cli::top("rag"@, "Answer questions over your own documents"@).require_subcommand(1, 1)
}

/// The `rag query` command.
pub open spec fn rag_query_command() -> CommandView {
    with_corpus_options(
        cli::command("rag"@, "query"@, "Answer a question from the documents"@).option(cli::opt("question"@, ValueType::Text, "Question to answer over the documents"@).required()),
    )
        .option(
            cli::opt("--model,--llm"@, ValueType::Text, "LLM that writes the answer (default: smollm2-135m)"@),
        )
        .option(cli::opt("--system-prompt"@, ValueType::Text, "Steer the answer with a system instruction"@))
        .option(
            cli::opt("--max-output-tokens,--max-tokens"@, ValueType::Int, "Cap the answer length in tokens"@),
        )
        .option(cli::opt("--temperature"@, ValueType::Float, "Raise for more random sampling"@))
        .action(Action::RagQuery)
}

/// The `rag search` command.
pub open spec fn rag_search_command() -> CommandView {
    with_corpus_options(
        cli::command("rag"@, "search"@, "Retrieve matching chunks without generating an answer"@).option(cli::opt("question"@, ValueType::Text, "Query to retrieve chunks for"@).required()),
    )
        .option(
            cli::opt(
                "--model,--llm"@,
                ValueType::Text,
                "Optional LLM (needed only for multi-query / session rerank)"@,
            ),
        )
        .action(Action::RagSearch)
}

/// Registers `rag` and its verbs; a build without retrieval has none of them.
pub fn register_rag(app: &mut App, has_rag: bool)
    ensures
        has_rag ==> final(app)@ == old(app)@.push(rag_command()).push(rag_query_command()).push(rag_search_command()),
        !has_rag ==> *final(app) == *old(app),
{
    if !has_rag {
        return;
    }
    let mut ns = Command::top("rag", "Answer questions over your own documents");
    ns.require_subcommand(1, 1);
    app.add(ns);
    let mut query = Command::new("rag", "query", "Answer a question from the documents");
    query.add_option(
        Opt::value("question", ValueType::Text, "Question to answer over the documents").required(),
    );
    add_corpus_options(&mut query);
    query.add_option(
        Opt::value("--model,--llm", ValueType::Text, "LLM that writes the answer (default: smollm2-135m)"),
    );
    query.add_option(
        Opt::value("--system-prompt", ValueType::Text, "Steer the answer with a system instruction"),
    );
    query.add_option(
        Opt::value("--max-output-tokens,--max-tokens", ValueType::Int, "Cap the answer length in tokens"),
    );
    query.add_option(Opt::value("--temperature", ValueType::Float, "Raise for more random sampling"));
    query.callback(Action::RagQuery);
    app.add(query);
    let mut search = Command::new("rag", "search", "Retrieve matching chunks without generating an answer");
    search.add_option(Opt::value("question", ValueType::Text, "Query to retrieve chunks for").required());
    add_corpus_options(&mut search);
    search.add_option(
        Opt::value(
            "--model,--llm",
            ValueType::Text,
            "Optional LLM (needed only for multi-query / session rerank)",
        ),
    );
    search.callback(Action::RagSearch);
    app.add(search);
}

} // verus!
