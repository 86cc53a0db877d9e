//! Metrics of one benchmark run, taken from what the engine measured. Missing
//! values stay zero; nothing is reconstructed.

use vstd::prelude::*;

verus! {

/// A time or a rate: a whole number, or a double by its bits.
#[derive(Clone, Copy, Debug, PartialEq, Eq, Structural)]
pub enum Reading {
    Whole(i64),
    Double(u64),
}

/// Whether a double, given by its bits, is above zero.
pub open spec fn is_positive_double(bits: u64) -> bool {
    0 < bits <= 0x7FF0_0000_0000_0000
}

/// The metrics of a language or vision run.
#[derive(Clone, Copy, Debug, PartialEq, Eq, Structural)]
pub struct LlmVlmMetrics {
    pub end_to_end_ms: Reading,
    pub tokens_per_second: Reading,
    pub prompt_eval_ms: Reading,
    pub decode_ms: Reading,
    pub output_tokens: i32,
}

/// What the engine reports of a language run.
#[derive(Clone, Copy, Debug, PartialEq, Eq, Structural)]
pub struct LlmRun {
    pub output_tokens: i32,
    pub decode_tokens_per_second: u64,
    pub prefill_ms: i64,
    pub generation_time_ms: u64,
    pub decode_time_ms: i64,
    pub prompt_eval_time_ms: i64,
}

/// What the engine reports of a vision run.
#[derive(Clone, Copy, Debug, PartialEq, Eq, Structural)]
pub struct VlmRun {
    pub output_tokens: i32,
    pub decode_tokens_per_second: u64,
    pub prefill_ms: i64,
    pub total_time_ms: i64,
}

/// The first of the two times that was measured.
pub open spec fn prefill(prompt_eval_time_ms: i64, usage_prefill_ms: i64) -> i64 {
    if prompt_eval_time_ms > 0 {
        prompt_eval_time_ms
    } else if usage_prefill_ms > 0 {
        usage_prefill_ms
    } else {
        0
    }
}

/// The time of the prompt's evaluation: as measured for the prompt, else as
/// accounted in the usage, else zero.
pub fn measured_prefill_ms(prompt_eval_time_ms: i64, usage_prefill_ms: i64) -> (r: i64)
    ensures
        r == prefill(prompt_eval_time_ms, usage_prefill_ms),
{
    if prompt_eval_time_ms > 0 {
        return prompt_eval_time_ms;
    }
    if usage_prefill_ms > 0 {
        return usage_prefill_ms;
    }
    0
}

/// The metrics of a language run; a run without output tokens has none. The
/// harness's own clock only stands in where the engine measured no time.
pub fn fill_llm(run: LlmRun, measured_e2e_ms: u64) -> (r: Option<LlmVlmMetrics>)
    ensures
        r == if run.output_tokens <= 0 {
            None
        } else {
            Some(
                LlmVlmMetrics {
                    output_tokens: run.output_tokens,
                    end_to_end_ms: Reading::Double(
                        if is_positive_double(run.generation_time_ms) {
                            run.generation_time_ms
                        } else {
                            measured_e2e_ms
                        },
                    ),
                    tokens_per_second: Reading::Double(run.decode_tokens_per_second),
                    decode_ms: Reading::Whole(
                        if run.decode_time_ms > 0 {
                            run.decode_time_ms
                        } else {
                            0
                        },
                    ),
                    prompt_eval_ms: Reading::Whole(prefill(run.prompt_eval_time_ms, run.prefill_ms)),
                },
            )
        },
{
    if run.output_tokens <= 0 {
        return None;
    }
    let measured = 0 < run.generation_time_ms && run.generation_time_ms <= 0x7FF0_0000_0000_0000;
    Some(
        LlmVlmMetrics {
            output_tokens: run.output_tokens,
            end_to_end_ms: Reading::Double(if measured { run.generation_time_ms } else { measured_e2e_ms }),
            tokens_per_second: Reading::Double(run.decode_tokens_per_second),
            decode_ms: Reading::Whole(if run.decode_time_ms > 0 { run.decode_time_ms } else { 0 }),
            prompt_eval_ms: Reading::Whole(measured_prefill_ms(run.prompt_eval_time_ms, run.prefill_ms)),
        },
    )
}

/// The metrics of a vision run; a run without output tokens has none.
pub fn fill_vlm(run: VlmRun, measured_e2e_ms: u64) -> (r: Option<LlmVlmMetrics>)
    ensures
        r == if run.output_tokens <= 0 {
            None
        } else {
            Some(
                LlmVlmMetrics {
                    output_tokens: run.output_tokens,
                    end_to_end_ms: if run.total_time_ms > 0 {
                        Reading::Whole(run.total_time_ms)
                    } else {
                        Reading::Double(measured_e2e_ms)
                    },
                    tokens_per_second: Reading::Double(run.decode_tokens_per_second),
                    prompt_eval_ms: Reading::Whole(prefill(0, run.prefill_ms)),
                    decode_ms: Reading::Whole(0),
                },
            )
        },
{
    if run.output_tokens <= 0 {
        return None;
    }
    Some(
        LlmVlmMetrics {
            output_tokens: run.output_tokens,
            end_to_end_ms: if run.total_time_ms > 0 {
                Reading::Whole(run.total_time_ms)
            } else {
                Reading::Double(measured_e2e_ms)
            },
            tokens_per_second: Reading::Double(run.decode_tokens_per_second),
            prompt_eval_ms: Reading::Whole(measured_prefill_ms(0, run.prefill_ms)),
            decode_ms: Reading::Whole(0),
        },
    )
}

/// What a run measured is reported as it was: its tokens, their rate and the times
/// it gave, and the time that was taken from outside only where it gave none. A run
/// without tokens measured nothing.
pub proof fn a_run_is_reported_as_measured(run: LlmRun, seen: VlmRun, outside: u64, r: Option<LlmVlmMetrics>, s: Option<
    LlmVlmMetrics,
>)
    requires
        call_ensures(fill_llm, (run, outside), r),
        call_ensures(fill_vlm, (seen, outside), s),
    ensures
        r is Some <==> run.output_tokens > 0,
        s is Some <==> seen.output_tokens > 0,
        r is Some ==> {
            &&& (r->0).output_tokens == run.output_tokens
            &&& (r->0).tokens_per_second == Reading::Double(run.decode_tokens_per_second)
            &&& 0 < run.generation_time_ms < 0x7FF0_0000_0000_0000 ==> (r->0).end_to_end_ms == Reading::Double(
                run.generation_time_ms,
            )
            &&& run.generation_time_ms == 0 ==> (r->0).end_to_end_ms == Reading::Double(outside)
            &&& run.decode_time_ms > 0 ==> (r->0).decode_ms == Reading::Whole(run.decode_time_ms)
            &&& run.decode_time_ms <= 0 ==> (r->0).decode_ms == Reading::Whole(0)
            &&& run.prompt_eval_time_ms > 0 ==> (r->0).prompt_eval_ms == Reading::Whole(run.prompt_eval_time_ms)
            &&& run.prompt_eval_time_ms <= 0 && run.prefill_ms > 0 ==> (r->0).prompt_eval_ms == Reading::Whole(
                run.prefill_ms,
            )
        },
        s is Some ==> {
            &&& (s->0).output_tokens == seen.output_tokens
            &&& (s->0).tokens_per_second == Reading::Double(seen.decode_tokens_per_second)
            &&& seen.total_time_ms > 0 ==> (s->0).end_to_end_ms == Reading::Whole(seen.total_time_ms)
            &&& seen.total_time_ms <= 0 ==> (s->0).end_to_end_ms == Reading::Double(outside)
            &&& seen.prefill_ms > 0 ==> (s->0).prompt_eval_ms == Reading::Whole(seen.prefill_ms)
        },
{
}

} // verus!
