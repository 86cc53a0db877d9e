//! What the commands show: one document where JSON was asked for, else lines or
//! a table.

use crate::commands::cmd_about;
use crate::commands::cmd_about::{AboutFacts, Palette};
use crate::commands::cmd_account;
use crate::commands::cmd_auth;
use crate::commands::cmd_auth::LoginSummary;
use crate::commands::cmd_backends;
use crate::commands::cmd_diarize;
use crate::commands::cmd_diarize::DiarizationResult;
use crate::commands::cmd_embed;
use crate::commands::cmd_embed::EmbeddingsResult;
use crate::commands::cmd_image;
use crate::commands::cmd_image::DiffusionImage;
use crate::commands::cmd_info;
use crate::commands::cmd_info::InfoFacts;
use crate::commands::cmd_lora;
use crate::commands::cmd_lora::{LoraCatalog, LoraState};
use crate::commands::cmd_models;
use crate::commands::cmd_models::{LoadedModel, UnloadResult};
use crate::commands::cmd_pull;
use crate::commands::cmd_rag;
use crate::commands::cmd_rag::{RagResult, RagSearchResponse};
use crate::commands::cmd_rerank;
use crate::commands::cmd_rerank::RerankResult;
use crate::commands::cmd_rm;
use crate::commands::cmd_segment;
use crate::commands::cmd_segment::SegmentationResult;
use crate::commands::cmd_show;
use crate::commands::cmd_stt;
use crate::commands::cmd_stt::SttResult;
use crate::commands::cmd_tool;
use crate::commands::cmd_tool::ToolCallingResult;
use crate::commands::cmd_tts;
use crate::commands::cmd_vad;
use crate::commands::cmd_version;
use crate::commands::cmd_version::Versions;
use crate::commands::cmd_voice;
use crate::commands::cmd_voice::VoiceAgentResult;
use crate::commands::EngineRow;
use crate::engine::ModelInfo;
use crate::output;
use crate::output::{Printed, Report, ReportView, Table};
use crate::text;
use vstd::prelude::*;

verus! {

/// One line of output as a report.
fn one_line(line: String) -> (r: Printed)
    ensures
        r@ == seq![output::result(line@)],
{
    let mut printed = Printed::new();
    printed.result(line);
    assert(printed@ =~= seq![output::result(line@)]);
    printed
}

/// Some lines after others.
fn joined(first: Printed, second: Printed) -> (r: Printed)
    ensures
        r@ == first@ + second@,
{
    let mut printed = first;
    printed.extend(second);
    printed
}

/// What `about` shows.
pub fn about_report(f: &AboutFacts, palette: &Palette, json: bool) -> (r: Report)
    ensures
        r@ == if json {
            ReportView::Document(cmd_about::about_document(*f))
        } else {
            ReportView::Lines(cmd_about::about_text(*f, *palette))
        },
{
    if json {
        Report::Document(cmd_about::about_json(f))
    } else {
        Report::Lines(cmd_about::about_lines(f, palette))
    }
}

/// What `account whoami` shows: who it is, and nothing of what was spent.
pub fn whoami_report(email: &str, console_url: &str, json: bool) -> (r: Report)
    ensures
        r@ == if json {
            ReportView::Document(cmd_account::whoami_document(email@, console_url@))
        } else {
            ReportView::Lines(cmd_account::whoami_text(email@))
        },
{
    if json {
        Report::Document(cmd_account::whoami_json(email, console_url))
    } else {
        Report::Lines(cmd_account::whoami_lines(email))
    }
}

/// What `auth login` shows.
pub fn auth_report(summary: &LoginSummary, json: bool) -> (r: Report)
    ensures
        r@ == if json {
            ReportView::Document(cmd_auth::auth_document(*summary))
        } else {
            ReportView::Lines(cmd_auth::auth_text(*summary))
        },
{
    if json {
        Report::Document(cmd_auth::auth_json(summary))
    } else {
        Report::Lines(cmd_auth::auth_lines(summary))
    }
}

/// What `embed` shows.
pub fn embed_report(
    model_id: &str,
    texts: &Vec<String>,
    result: &EmbeddingsResult,
    verbose: bool,
    json: bool,
) -> (r: Report)
    ensures
        r@ == if json {
            ReportView::Document(cmd_embed::embed_document(model_id@, texts@, *result))
        } else {
            ReportView::Lines(cmd_embed::embed_text(model_id@, *result, verbose))
        },
{
    if json {
        Report::Document(cmd_embed::print_json_result(model_id, texts, result))
    } else {
        Report::Lines(cmd_embed::print_text_result(model_id, result, verbose))
    }
}

/// What `image generate` shows.
pub fn image_report(
    model_id: &str,
    out_path: &str,
    image: &DiffusionImage,
    total_ms: i64,
    verbose: bool,
    json: bool,
) -> (r: Report)
    ensures
        r@ == if json {
            ReportView::Document(cmd_image::image_document(model_id@, out_path@, *image, total_ms))
        } else {
            ReportView::Lines(cmd_image::image_text(out_path@, *image, total_ms, verbose))
        },
{
    if json {
        Report::Document(cmd_image::image_json(model_id, out_path, image, total_ms))
    } else {
        Report::Lines(cmd_image::image_lines(out_path, image, total_ms, verbose))
    }
}

/// What `info` shows.
pub fn info_report(f: &InfoFacts, json: bool) -> (r: Report)
    ensures
        r@ == if json {
            ReportView::Document(cmd_info::info_document(*f))
        } else {
            ReportView::Lines(cmd_info::info_text(*f))
        },
{
    if json {
        Report::Document(cmd_info::info_json(f))
    } else {
        Report::Lines(cmd_info::info_lines(f))
    }
}

/// What `lora catalog` shows.
pub fn catalog_report(list: &LoraCatalog, json: bool) -> (r: Report)
    ensures
        r@ == if json {
            ReportView::Document(cmd_lora::catalog_document(*list))
        } else {
            ReportView::Lines(cmd_lora::catalog_text(*list))
        },
{
    if json {
        Report::Document(cmd_lora::catalog_json(list))
    } else {
        Report::Lines(cmd_lora::catalog_lines(list))
    }
}

/// What `lora apply` shows.
pub fn applied_report(adapters: usize, model_id: &str, json: bool) -> (r: Report)
    ensures
        r@ == if json {
            ReportView::Document(cmd_lora::applied_document(adapters))
        } else {
            ReportView::Lines(seq![output::result(cmd_lora::applied_text(adapters, model_id@))])
        },
{
    if json {
        Report::Document(cmd_lora::applied_json(adapters))
    } else {
        Report::Lines(one_line(cmd_lora::applied_line(adapters, model_id)))
    }
}

/// What `models register` shows.
pub fn registered_report(model: &ModelInfo, json: bool) -> (r: Report)
    ensures
        r@ == if json {
            ReportView::Document(cmd_models::registered_document(*model))
        } else {
            ReportView::Lines(seq![output::result("registered "@ + model.id@)])
        },
{
    if json {
        Report::Document(cmd_models::registered_json(model))
    } else {
        Report::Lines(one_line(cmd_models::registered_line(model)))
    }
}

/// What `models load` shows.
pub fn loaded_report(loaded: &LoadedModel, json: bool) -> (r: Report)
    ensures
        r@ == if json {
            ReportView::Document(cmd_models::loaded_document(*loaded))
        } else {
            ReportView::Lines(seq![output::result(cmd_models::loaded_text(*loaded))])
        },
{
    if json {
        Report::Document(cmd_models::loaded_json(loaded))
    } else {
        Report::Lines(one_line(cmd_models::loaded_line(loaded)))
    }
}

/// What `models unload` shows.
pub fn unloaded_report(result: &UnloadResult, json: bool) -> (r: Report)
    ensures
        r@ == if json {
            ReportView::Document(cmd_models::unloaded_document(*result))
        } else {
            ReportView::Lines(cmd_models::unloaded_text(*result))
        },
{
    if json {
        Report::Document(cmd_models::unloaded_json(result))
    } else {
        Report::Lines(cmd_models::unloaded_lines(result))
    }
}

/// What a pull shows of a model that is there already.
pub fn present_report(model: &ModelInfo, json: bool) -> (r: Report)
    ensures
        r@ == if json {
            ReportView::Document(cmd_pull::present_document(*model))
        } else {
            ReportView::Lines(seq![output::result(cmd_pull::present_text(*model))])
        },
{
    if json {
        Report::Document(cmd_pull::present_json(model))
    } else {
        Report::Lines(one_line(cmd_pull::present_line(model)))
    }
}

/// What `rag query` shows.
pub fn answer_report(result: &RagResult, verbose: bool, json: bool) -> (r: Report)
    requires
        i64::MIN <= result.retrieval_time_ms + result.generation_time_ms <= i64::MAX,
    ensures
        r@ == if json {
            ReportView::Document(cmd_rag::answer_document(*result))
        } else {
            ReportView::Lines(cmd_rag::answer_text(*result, verbose))
        },
{
    if json {
        Report::Document(cmd_rag::rag_answer_json(result))
    } else {
        Report::Lines(cmd_rag::rag_answer_lines(result, verbose))
    }
}

/// What `rag search` shows.
pub fn search_report(response: &RagSearchResponse, verbose: bool, json: bool) -> (r: Report)
    ensures
        r@ == if json {
            ReportView::Document(cmd_rag::search_document(*response))
        } else {
            ReportView::Lines(cmd_rag::search_text(*response, verbose))
        },
{
    if json {
        Report::Document(cmd_rag::rag_search_json(response))
    } else {
        Report::Lines(cmd_rag::rag_search_lines(response, verbose))
    }
}

/// What `models delete` shows.
pub fn removed_report(model_id: &str, freed_bytes: u64, freed: &str, json: bool) -> (r: Report)
    ensures
        r@ == if json {
            ReportView::Document(cmd_rm::removed_document(model_id@, freed_bytes))
        } else {
            ReportView::Lines(seq![output::result(cmd_rm::removed_text(model_id@, freed_bytes, freed@))])
        },
{
    if json {
        Report::Document(cmd_rm::removed_json(model_id, freed_bytes))
    } else {
        Report::Lines(one_line(cmd_rm::removed_line(model_id, freed_bytes, freed)))
    }
}

/// What `models get` shows.
pub fn show_report(model: &ModelInfo, size: &str, json: bool) -> (r: Report)
    ensures
        r@ == if json {
            ReportView::Document(cmd_show::show_document(*model))
        } else {
            ReportView::Lines(cmd_show::show_text(*model, size@))
        },
{
    if json {
        Report::Document(cmd_show::show_json(model))
    } else {
        Report::Lines(cmd_show::run_show(model, size))
    }
}

/// What `stt` shows.
pub fn stt_report(model_id: &str, result: &SttResult, verbose: bool, json: bool) -> (r: Report)
    ensures
        r@ == if json {
            ReportView::Document(cmd_stt::stt_document(model_id@, *result))
        } else {
            ReportView::Lines(cmd_stt::stt_text(*result, verbose))
        },
{
    if json {
        Report::Document(cmd_stt::stt_json(model_id, result))
    } else {
        Report::Lines(cmd_stt::stt_lines(result, verbose))
    }
}

/// What `tool call` shows.
pub fn tool_report(result: &ToolCallingResult, json: bool) -> (r: Report)
    ensures
        r@ == if json {
            ReportView::Document(cmd_tool::tool_document(*result))
        } else {
            ReportView::Lines(cmd_tool::tool_text(*result))
        },
{
    if json {
        Report::Document(cmd_tool::tool_json(result))
    } else {
        Report::Lines(cmd_tool::tool_lines(result))
    }
}

/// What `tts` shows.
pub fn tts_report(
    voice: &str,
    path: &str,
    sample_rate: i32,
    duration_ms: i64,
    elapsed_ms: i64,
    verbose: bool,
    json: bool,
) -> (r: Report)
    ensures
        r@ == if json {
            ReportView::Document(cmd_tts::tts_document(voice@, path@, sample_rate, duration_ms, elapsed_ms))
        } else {
            ReportView::Lines(cmd_tts::tts_text(path@, sample_rate, elapsed_ms, verbose))
        },
{
    if json {
        Report::Document(cmd_tts::tts_json(voice, path, sample_rate, duration_ms, elapsed_ms))
    } else {
        Report::Lines(cmd_tts::tts_lines(path, sample_rate, elapsed_ms, verbose))
    }
}

/// What `version` shows.
pub fn version_report(v: &Versions, json: bool) -> (r: Report)
    ensures
        r@ == if json {
            ReportView::Document(cmd_version::version_document(*v))
        } else {
            ReportView::Lines(cmd_version::version_text(*v))
        },
{
    if json {
        Report::Document(cmd_version::version_json(v))
    } else {
        Report::Lines(cmd_version::version_lines(v))
    }
}

/// What `voice` shows.
pub fn voice_report(result: &VoiceAgentResult, reply_path: &str, json: bool) -> (r: Report)
    ensures
        r@ == if json {
            ReportView::Document(cmd_voice::voice_document(*result, reply_path@))
        } else {
            ReportView::Lines(cmd_voice::voice_text(*result, reply_path@))
        },
{
    if json {
        Report::Document(cmd_voice::voice_json(result, reply_path))
    } else {
        Report::Lines(cmd_voice::voice_lines(result, reply_path))
    }
}

/// What a pull shows when it is done. An entry that cannot be read again leaves
/// one line, whatever was asked for.
pub fn pulled_report(model_id: &str, saved: &Option<ModelInfo>, bytes: i64, json: bool) -> (r: Report)
    ensures
        r@ == match *saved {
            Some(model) => if json {
                ReportView::Document(cmd_pull::pulled_document(model, bytes))
            } else {
                ReportView::Lines(
                    seq![output::result("pulled "@ + model.id@ + cmd_pull::path_suffix(model.local_path@))],
                )
            },
            None => ReportView::Lines(seq![output::result("pulled "@ + model_id@)]),
        },
{
    if json {
        if let Some(model) = saved {
            return Report::Document(cmd_pull::pulled_json(model, bytes));
        }
    }
    Report::Lines(one_line(cmd_pull::pulled_line(model_id, saved)))
}

/// What `backends` shows.
pub fn backends_report(rows_of: &Vec<(String, EngineRow)>, json: bool) -> (r: Report)
    ensures
        r@ == if json {
            ReportView::Document(cmd_backends::backends_document(rows_of@))
        } else if rows_of@.len() == 0 {
            ReportView::Lines(seq![output::result("no backends registered"@)])
        } else {
            ReportView::Table(
                Seq::empty(),
                seq!["NAME"@, "PRIORITY"@, "PRIMITIVES"@],
                Seq::new(rows_of@.len(), |i: int| cmd_backends::backend_cells(rows_of@[i])),
                Seq::empty(),
            )
        },
{
    if json {
        return Report::Document(cmd_backends::backends_json(rows_of));
    }
    if rows_of.len() == 0 {
        return Report::Lines(one_line(text::owned("no backends registered")));
    }
    let ghost wanted = Seq::new(rows_of@.len(), |i: int| cmd_backends::backend_cells(rows_of@[i]));
    let mut rows: Vec<Vec<String>> = Vec::new();
    assert(output::rows_view(rows@) =~= wanted.take(0));
    let mut i: usize = 0;
    while i < rows_of.len()
        invariant
            i <= rows_of@.len(),
            wanted == Seq::new(rows_of@.len(), |i: int| cmd_backends::backend_cells(rows_of@[i])),
            output::rows_view(rows@) == wanted.take(i as int),
        decreases rows_of@.len() - i,
    {
        let ghost before = output::rows_view(rows@);
        let row = cmd_backends::backend_row(&rows_of[i]);
        rows.push(row);
        i = i + 1;
        assert(output::rows_view(rows@) =~= before.push(output::strings_view(row@)));
        assert(output::rows_view(rows@) =~= wanted.take(i as int));
    }
    assert(wanted.take(rows_of@.len() as int) =~= wanted);
    Report::Table(Printed::new(), Table { header: cmd_backends::backend_header(), rows }, Printed::new())
}

/// What `lora list` and `lora remove` show.
pub fn lora_report(state: &LoraState, json: bool) -> (r: Report)
    ensures
        r@ == if json {
            ReportView::Document(cmd_lora::lora_document(*state))
        } else if state.loaded_adapters@.len() == 0 {
            ReportView::Lines(seq![output::result("no adapters applied"@)])
        } else {
            ReportView::Table(
                Seq::empty(),
                seq!["ADAPTER"@, "SCALE"@, "APPLIED"@],
                Seq::new(state.loaded_adapters@.len(), |i: int| cmd_lora::adapter_cells(state.loaded_adapters@[i])),
                Seq::empty(),
            )
        },
{
    if json {
        return Report::Document(cmd_lora::lora_json(state));
    }
    if state.loaded_adapters.len() == 0 {
        return Report::Lines(one_line(text::owned("no adapters applied")));
    }
    let ghost wanted = Seq::new(state.loaded_adapters@.len(), |i: int| cmd_lora::adapter_cells(state.loaded_adapters@[i]));
    let mut rows: Vec<Vec<String>> = Vec::new();
    assert(output::rows_view(rows@) =~= wanted.take(0));
    let mut i: usize = 0;
    while i < state.loaded_adapters.len()
        invariant
            i <= state.loaded_adapters@.len(),
            wanted == Seq::new(state.loaded_adapters@.len(), |i: int| cmd_lora::adapter_cells(state.loaded_adapters@[i])),
            output::rows_view(rows@) == wanted.take(i as int),
        decreases state.loaded_adapters@.len() - i,
    {
        let ghost before = output::rows_view(rows@);
        let row = cmd_lora::adapter_row(&state.loaded_adapters[i]);
        rows.push(row);
        i = i + 1;
        assert(output::rows_view(rows@) =~= before.push(output::strings_view(row@)));
        assert(output::rows_view(rows@) =~= wanted.take(i as int));
    }
    assert(wanted.take(state.loaded_adapters@.len() as int) =~= wanted);
    Report::Table(Printed::new(), Table { header: cmd_lora::adapter_header(), rows }, Printed::new())
}

/// What `rerank` shows.
pub fn rerank_report(model_id: &str, result: &RerankResult, documents: &Vec<String>, json: bool) -> (r: Report)
    requires
        result.items@.len() <= i64::MAX,
    ensures
        r@ == if json {
            ReportView::Document(cmd_rerank::rerank_document(model_id@, *result))
        } else {
            ReportView::Table(
                Seq::empty(),
                seq!["RANK"@, "INDEX"@, "SCORE"@, "DOCUMENT"@],
                Seq::new(result.items@.len(), |i: int| cmd_rerank::scored_cells(result.items@[i], i, documents@)),
                Seq::empty(),
            )
        },
{
    if json {
        return Report::Document(cmd_rerank::rerank_json(model_id, result));
    }
    let ghost wanted = Seq::new(result.items@.len(), |i: int| cmd_rerank::scored_cells(result.items@[i], i, documents@));
    let mut rows: Vec<Vec<String>> = Vec::new();
    assert(output::rows_view(rows@) =~= wanted.take(0));
    let mut i: usize = 0;
    while i < result.items.len()
        invariant
            i <= result.items@.len(),
            wanted == Seq::new(result.items@.len(), |i: int| cmd_rerank::scored_cells(result.items@[i], i, documents@)),
            output::rows_view(rows@) == wanted.take(i as int),
        decreases result.items@.len() - i,
    {
        let ghost before = output::rows_view(rows@);
        let row = cmd_rerank::scored_row(&result.items[i], i, documents);
        rows.push(row);
        i = i + 1;
        assert(output::rows_view(rows@) =~= before.push(output::strings_view(row@)));
        assert(output::rows_view(rows@) =~= wanted.take(i as int));
    }
    assert(wanted.take(result.items@.len() as int) =~= wanted);
    Report::Table(Printed::new(), Table { header: cmd_rerank::score_header(), rows }, Printed::new())
}

/// What `segment` shows.
pub fn segment_report(model_ref: &str, result: &SegmentationResult, verbose: bool, json: bool) -> (r: Report)
    ensures
        r@ == if json {
            ReportView::Document(cmd_segment::segment_document(model_ref@, *result))
        } else if result.classes@.len() == 0 {
            ReportView::Lines(cmd_segment::size_text(*result) + cmd_segment::time_text(*result, verbose))
        } else {
            ReportView::Table(
                cmd_segment::size_text(*result),
                seq!["class_id"@, "label"@, "pixels"@, "coverage"@],
                Seq::new(result.classes@.len(), |i: int| cmd_segment::class_cells(result.classes@[i])),
                cmd_segment::time_text(*result, verbose),
            )
        },
{
    if json {
        return Report::Document(cmd_segment::segment_json(model_ref, result));
    }
    if result.classes.len() == 0 {
        return Report::Lines(joined(cmd_segment::segment_lines(result), cmd_segment::segment_status(result, verbose)));
    }
    let ghost wanted = Seq::new(result.classes@.len(), |i: int| cmd_segment::class_cells(result.classes@[i]));
    let mut rows: Vec<Vec<String>> = Vec::new();
    assert(output::rows_view(rows@) =~= wanted.take(0));
    let mut i: usize = 0;
    while i < result.classes.len()
        invariant
            i <= result.classes@.len(),
            wanted == Seq::new(result.classes@.len(), |i: int| cmd_segment::class_cells(result.classes@[i])),
            output::rows_view(rows@) == wanted.take(i as int),
        decreases result.classes@.len() - i,
    {
        let ghost before = output::rows_view(rows@);
        let row = cmd_segment::class_row(&result.classes[i]);
        rows.push(row);
        i = i + 1;
        assert(output::rows_view(rows@) =~= before.push(output::strings_view(row@)));
        assert(output::rows_view(rows@) =~= wanted.take(i as int));
    }
    assert(wanted.take(result.classes@.len() as int) =~= wanted);
    Report::Table(cmd_segment::segment_lines(result), Table { header: cmd_segment::class_header(), rows }, cmd_segment::segment_status(result, verbose))
}

/// What `diarize` shows. The length of every stretch has to be a number.
pub fn diarize_report(model_ref: &str, result: &DiarizationResult, verbose: bool, json: bool) -> (r: Report)
    requires
        forall|i: int| #![trigger result.segments@[i]] 0 <= i < result.segments@.len() ==> i64::MIN <= result.segments@[i].end_ms
            - result.segments@[i].start_ms <= i64::MAX,
    ensures
        r@ == if json {
            ReportView::Document(cmd_diarize::diarize_document(model_ref@, *result))
        } else if result.segments@.len() == 0 {
            ReportView::Lines(seq![output::result("(no speech segments detected)"@)] + cmd_diarize::count_text(*result, verbose))
        } else {
            ReportView::Table(
                Seq::empty(),
                seq!["speaker"@, "start"@, "end"@, "duration"@],
                Seq::new(result.segments@.len(), |i: int| cmd_diarize::speaker_cells(result.segments@[i])),
                cmd_diarize::count_text(*result, verbose),
            )
        },
{
    if json {
        return Report::Document(cmd_diarize::diarize_json(model_ref, result));
    }
    if result.segments.len() == 0 {
        return Report::Lines(joined(one_line(text::owned("(no speech segments detected)")), cmd_diarize::diarize_status(result, verbose)));
    }
    let ghost wanted = Seq::new(result.segments@.len(), |i: int| cmd_diarize::speaker_cells(result.segments@[i]));
    let mut rows: Vec<Vec<String>> = Vec::new();
    assert(output::rows_view(rows@) =~= wanted.take(0));
    let mut i: usize = 0;
    while i < result.segments.len()
        invariant
            i <= result.segments@.len(),
            forall|i: int| #![trigger result.segments@[i]] 0 <= i < result.segments@.len() ==> i64::MIN <= result.segments@[i].end_ms
                - result.segments@[i].start_ms <= i64::MAX,
            wanted == Seq::new(result.segments@.len(), |i: int| cmd_diarize::speaker_cells(result.segments@[i])),
            output::rows_view(rows@) == wanted.take(i as int),
        decreases result.segments@.len() - i,
    {
        let ghost before = output::rows_view(rows@);
        let row = cmd_diarize::speaker_row(&result.segments[i]);
        rows.push(row);
        i = i + 1;
        assert(output::rows_view(rows@) =~= before.push(output::strings_view(row@)));
        assert(output::rows_view(rows@) =~= wanted.take(i as int));
    }
    assert(wanted.take(result.segments@.len() as int) =~= wanted);
    Report::Table(Printed::new(), Table { header: cmd_diarize::speaker_header(), rows }, cmd_diarize::diarize_status(result, verbose))
}

/// What `vad` shows. `cells` holds the beginning, the end and the length of each
/// segment, in seconds with two decimals.
pub fn vad_report(model_id: &str, segments: &Vec<(i64, i64)>, cells: Vec<Vec<String>>, json: bool) -> (r: Report)
    ensures
        r@ == if json {
            ReportView::Document(cmd_vad::vad_document(model_id@, segments@))
        } else if segments@.len() == 0 {
            ReportView::Lines(seq![output::result("no speech detected"@)])
        } else {
            ReportView::Table(
                Seq::empty(),
                seq!["START"@, "END"@, "DURATION"@],
                output::rows_view(cells@),
                Seq::empty(),
            )
        },
{
    if json {
        return Report::Document(cmd_vad::vad_json(model_id, segments));
    }
    if segments.len() == 0 {
        return Report::Lines(one_line(text::owned("no speech detected")));
    }
    Report::Table(Printed::new(), Table { header: cmd_vad::segment_header(), rows: cells }, Printed::new())
}

} // verus!
