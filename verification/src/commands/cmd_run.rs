//! `wally llm generate|stream`, `wally vlm generate`, and `wally run`.
//!
//! The engine loads the model and generates. What is decided here: the options
//! of a generation, what each streamed event prints, how a generation ended and
//! with which exit code, and what a line typed at the prompt means. Floating
//! point values are carried by their bits.

use crate::cli;
use crate::cli::{Action, App, Command, CommandView, Opt, Validator, ValidatorView, ValueType};
use crate::commands::engine_options;
use crate::commands::engine_options::{EngineHintResolution, Kit};
use crate::commands::{LlmVerb, ModelArg};
use crate::engine;
use crate::engine::{GlobalOptions, ModelCategory, SdkError};
use crate::output;
use crate::output::{JsonWriter, Printed, Report, ReportView};
use crate::text;
use vstd::prelude::*;

verus! {

/// Generation parameters shared by one-shot, streaming and interactive turns.
#[derive(Clone, Debug)]
pub struct RunParams {
    pub model: String,
    pub image: String,
    pub system_prompt: String,
    pub engine: String,
    /// An adapter to attach before generating.
    pub lora: String,
    /// How strongly the adapter applies.
    pub lora_scale: u32,
    /// `on` or `off`.
    pub reasoning: String,
    pub show_thinking: bool,
    /// Zero leaves a sampling knob to the engine.
    pub temperature: u32,
    pub top_p: u32,
    pub min_p: u32,
    pub repetition_penalty: u32,
    pub frequency_penalty: u32,
    pub presence_penalty: u32,
    pub top_k: i32,
    pub max_output_tokens: i32,
    /// Negative for unset.
    pub seed: i64,
    pub stop_sequences: Vec<String>,
}

/// The options of a run as they were given on the command line.
#[derive(Clone, Debug)]
pub struct GivenRun {
    pub model_option: Option<String>,
    pub model_positional: Option<String>,
    pub image: Option<String>,
    pub system_prompt: Option<String>,
    pub engine: Option<String>,
    pub lora: Option<String>,
    pub lora_scale: Option<u32>,
    pub reasoning: Option<String>,
    pub show_thinking: bool,
    pub no_think: bool,
    pub temperature: Option<u32>,
    pub top_p: Option<u32>,
    pub min_p: Option<u32>,
    pub repetition_penalty: Option<u32>,
    pub frequency_penalty: Option<u32>,
    pub presence_penalty: Option<u32>,
    pub top_k: Option<i32>,
    pub max_output_tokens: Option<i32>,
    pub seed: Option<i64>,
    pub stop_sequences: Vec<String>,
}

/// A given text, or nothing.
pub open spec fn given_text(t: Option<String>) -> Seq<char> {
    match t {
        Some(s) => s@,
        None => Seq::empty(),
    }
}

fn text_or_empty(t: Option<String>) -> (r: String)
    ensures
        r@ == given_text(t),
{
    match t {
        Some(s) => s,
        None => String::new(),
    }
}

pub open spec fn bits_or(b: Option<u32>, otherwise: u32) -> u32 {
    match b {
        Some(v) => v,
        None => otherwise,
    }
}

fn bits_or_exec(b: Option<u32>, otherwise: u32) -> (r: u32)
    ensures
        r == bits_or(b, otherwise),
{
    match b {
        Some(v) => v,
        None => otherwise,
    }
}

impl Default for RunParams {
    fn default() -> (r: RunParams)
        ensures
            r.model@.len() == 0 && r.image@.len() == 0 && r.system_prompt@.len() == 0 && r.engine@.len() == 0
                && r.lora@.len() == 0,
            r.lora_scale == engine::ONE,
            r.reasoning@ == "on"@,
            r.show_thinking,
            r.temperature == 0 && r.top_p == 0 && r.min_p == 0 && r.repetition_penalty == 0 && r.frequency_penalty == 0
                && r.presence_penalty == 0,
            r.top_k == 0,
            r.max_output_tokens == 1024,
            r.seed == -1,
            r.stop_sequences@.len() == 0,
    {
        RunParams {
            model: String::new(),
            image: String::new(),
            system_prompt: String::new(),
            engine: String::new(),
            lora: String::new(),
            lora_scale: engine::ONE,
            reasoning: text::owned("on"),
            show_thinking: true,
            temperature: 0,
            top_p: 0,
            min_p: 0,
            repetition_penalty: 0,
            frequency_penalty: 0,
            presence_penalty: 0,
            top_k: 0,
            max_output_tokens: 1024,
            seed: -1,
            stop_sequences: Vec::new(),
        }
    }
}

impl RunParams {
    /// The parameters of a run: what was given, and the defaults for the rest.
    /// `--no-think` wins over `--reasoning`.
    pub fn from_parsed(given: GivenRun, model_arg: ModelArg) -> (r: RunParams)
        ensures
            r.model@ == match model_arg {
                ModelArg::Option => given_text(given.model_option),
                ModelArg::Positional => given_text(given.model_positional),
            },
            r.image@ == given_text(given.image),
            r.system_prompt@ == given_text(given.system_prompt),
            r.engine@ == given_text(given.engine),
            r.lora@ == given_text(given.lora),
            r.lora_scale == bits_or(given.lora_scale, engine::ONE),
            r.reasoning@ == if given.no_think {
                "off"@
            } else if given.reasoning is Some {
                given.reasoning->0@
            } else {
                "on"@
            },
            r.show_thinking == given.show_thinking,
            r.temperature == bits_or(given.temperature, 0),
            r.top_p == bits_or(given.top_p, 0),
            r.min_p == bits_or(given.min_p, 0),
            r.repetition_penalty == bits_or(given.repetition_penalty, 0),
            r.frequency_penalty == bits_or(given.frequency_penalty, 0),
            r.presence_penalty == bits_or(given.presence_penalty, 0),
            r.top_k == (if given.top_k is Some {
                given.top_k->0
            } else {
                0
            }),
            r.max_output_tokens == (if given.max_output_tokens is Some {
                given.max_output_tokens->0
            } else {
                1024
            }),
            r.seed == (if given.seed is Some {
                given.seed->0 as int
            } else {
                -1
            }),
            r.stop_sequences == given.stop_sequences,
    {
        let model = match model_arg {
            ModelArg::Option => text_or_empty(given.model_option),
            ModelArg::Positional => text_or_empty(given.model_positional),
        };
        let reasoning = if given.no_think {
            text::owned("off")
        } else {
            match given.reasoning {
                Some(s) => s,
                None => text::owned("on"),
            }
        };
        RunParams {
            model,
            image: text_or_empty(given.image),
            system_prompt: text_or_empty(given.system_prompt),
            engine: text_or_empty(given.engine),
            lora: text_or_empty(given.lora),
            lora_scale: bits_or_exec(given.lora_scale, engine::ONE),
            reasoning,
            show_thinking: given.show_thinking,
            temperature: bits_or_exec(given.temperature, 0),
            top_p: bits_or_exec(given.top_p, 0),
            min_p: bits_or_exec(given.min_p, 0),
            repetition_penalty: bits_or_exec(given.repetition_penalty, 0),
            frequency_penalty: bits_or_exec(given.frequency_penalty, 0),
            presence_penalty: bits_or_exec(given.presence_penalty, 0),
            top_k: match given.top_k {
                Some(k) => k,
                None => 0,
            },
            max_output_tokens: match given.max_output_tokens {
                Some(n) => n,
                None => 1024,
            },
            seed: match given.seed {
                Some(n) => n,
                None => -1,
            },
            stop_sequences: given.stop_sequences,
        }
    }
}

/// Whether the thinking phase is switched off.
pub fn reasoning_off(params: &RunParams) -> (r: bool)
    ensures
        r == (params.reasoning@ == "off"@),
{
    text::str_eq(params.reasoning.as_str(), "off")
}

/// The thinking phase of a generation.
#[derive(Clone, Copy, Debug, PartialEq, Eq, Structural)]
pub struct Reasoning {
    pub off: bool,
    pub include_in_output: bool,
}

/// The options of a generation as the engine takes them; what is absent is left
/// to the engine.
#[derive(Clone, Debug)]
pub struct LlmGenerationOptions {
    pub max_output_tokens: Option<i32>,
    pub temperature: Option<u32>,
    pub top_p: Option<u32>,
    pub top_k: Option<i32>,
    pub min_p: Option<u32>,
    pub repeat_penalty: Option<u32>,
    pub frequency_penalty: Option<u32>,
    pub presence_penalty: Option<u32>,
    pub seed: Option<i64>,
    pub stop_sequences: Vec<String>,
    pub system_prompt: Option<String>,
    pub reasoning: Reasoning,
}

pub open spec fn if_positive(bits: u32) -> Option<u32> {
    if engine::is_positive(bits) {
        Some(bits)
    } else {
        None
    }
}

pub open spec fn if_nonzero(bits: u32) -> Option<u32> {
    if engine::is_nonzero(bits) {
        Some(bits)
    } else {
        None
    }
}

fn if_positive_exec(bits: u32) -> (r: Option<u32>)
    ensures
        r == if_positive(bits),
{
    if 0 < bits && bits <= 0x7F80_0000 {
        Some(bits)
    } else {
        None
    }
}

fn if_nonzero_exec(bits: u32) -> (r: Option<u32>)
    ensures
        r == if_nonzero(bits),
{
    if bits != 0 && bits != 0x8000_0000 {
        Some(bits)
    } else {
        None
    }
}

/// The strings of a list, each on its own.
pub fn copy_strings(items: &Vec<String>) -> (r: Vec<String>)
    ensures
        output::strings_view(r@) == output::strings_view(items@),
{
    let mut r: Vec<String> = Vec::new();
    let mut i: usize = 0;
    while i < items.len()
        invariant
            i <= items@.len(),
            r@.len() == i,
            forall|k: int| 0 <= k < i ==> (#[trigger] r@[k])@ == items@[k]@,
        decreases items@.len() - i,
    {
        r.push(text::owned(items[i].as_str()));
        i = i + 1;
    }
    assert(output::strings_view(r@) =~= output::strings_view(items@));
    r
}

/// Whether those are the engine's options for the given parameters. A sampling
/// knob at zero is left to the engine; the two penalties may be negative.
pub open spec fn are_generation_options(params: RunParams, r: LlmGenerationOptions) -> bool {
    &&& r.max_output_tokens == Some(params.max_output_tokens)
    &&& r.temperature == if_positive(params.temperature)
    &&& r.top_p == if_positive(params.top_p)
    &&& r.top_k == if params.top_k > 0 {
        Some(params.top_k)
    } else {
        None
    }
    &&& r.min_p == if_positive(params.min_p)
    &&& r.repeat_penalty == if_positive(params.repetition_penalty)
    &&& r.frequency_penalty == if_nonzero(params.frequency_penalty)
    &&& r.presence_penalty == if_nonzero(params.presence_penalty)
    &&& r.seed == if params.seed >= 0 {
        Some(params.seed)
    } else {
        None
    }
    &&& output::strings_view(r.stop_sequences@) == output::strings_view(params.stop_sequences@)
    &&& r.system_prompt is Some <==> params.system_prompt@.len() > 0
    &&& r.system_prompt is Some ==> r.system_prompt->0@ == params.system_prompt@
    &&& r.reasoning.off == (params.reasoning@ == "off"@)
    &&& r.reasoning.include_in_output == (params.reasoning@ != "off"@ && params.show_thinking)
}

/// See [`are_generation_options`].
pub fn apply_options(params: &RunParams) -> (r: LlmGenerationOptions)
    ensures
        are_generation_options(*params, r),
{
    let off = reasoning_off(params);
    LlmGenerationOptions {
        max_output_tokens: Some(params.max_output_tokens),
        temperature: if_positive_exec(params.temperature),
        top_p: if_positive_exec(params.top_p),
        top_k: if params.top_k > 0 { Some(params.top_k) } else { None },
        min_p: if_positive_exec(params.min_p),
        repeat_penalty: if_positive_exec(params.repetition_penalty),
        frequency_penalty: if_nonzero_exec(params.frequency_penalty),
        presence_penalty: if_nonzero_exec(params.presence_penalty),
        seed: if params.seed >= 0 { Some(params.seed) } else { None },
        stop_sequences: copy_strings(&params.stop_sequences),
        system_prompt: if params.system_prompt.as_str().is_empty() {
            None
        } else {
            Some(text::owned(params.system_prompt.as_str()))
        },
        reasoning: Reasoning { off, include_in_output: !off && params.show_thinking },
    }
}

/// Whether thinking tokens are printed: only to a person who wants them.
pub fn show_thoughts(params: &RunParams, options: &GlobalOptions) -> (r: bool)
    ensures
        r == (params.show_thinking && params.reasoning@ != "off"@ && !options.quiet && !options.json),
{
    params.show_thinking && !reasoning_off(params) && !options.quiet && !options.json
}

/// What a streamed event carries.
#[derive(Clone, Copy, Debug, PartialEq, Eq, Structural)]
pub enum StreamKind {
    Answer,
    Thinking,
    Completed,
    Error,
}

/// One event of a generation.
#[derive(Clone, Debug)]
pub struct LlmStreamEvent {
    pub kind: StreamKind,
    pub token: String,
    /// The name of the reason, empty when it has none.
    pub finish_reason: String,
    pub error: Option<SdkError>,
}

/// A generation as far as it has streamed.
#[derive(Clone, Debug)]
pub struct GenStateData {
    pub done: bool,
    pub cancelled: bool,
    pub answer: String,
    pub finish_reason: String,
    pub error: String,
    pub show_thoughts: bool,
    pub in_thought_block: bool,
    /// Off when the answer is only collected.
    pub stream_to_stdout: bool,
}

/// A generation as a value.
#[verifier::ext_equal]
pub struct GenView {
    pub done: bool,
    pub cancelled: bool,
    pub answer: Seq<char>,
    pub finish_reason: Seq<char>,
    pub error: Seq<char>,
    pub show_thoughts: bool,
    pub in_thought_block: bool,
    pub stream_to_stdout: bool,
}

impl View for GenStateData {
    type V = GenView;

    open spec fn view(&self) -> GenView {
        GenView {
            done: self.done,
            cancelled: self.cancelled,
            answer: self.answer@,
            finish_reason: self.finish_reason@,
            error: self.error@,
            show_thoughts: self.show_thoughts,
            in_thought_block: self.in_thought_block,
            stream_to_stdout: self.stream_to_stdout,
        }
    }
}

/// What an event makes the terminal show, and whether it cancels.
#[derive(Clone, Debug)]
pub struct StreamEffect {
    pub cancel: bool,
    pub stdout: String,
    pub stderr: String,
}

/// An effect as a value: cancel, standard output, standard error.
pub type EffectView = (bool, Seq<char>, Seq<char>);

impl View for StreamEffect {
    type V = EffectView;

    open spec fn view(&self) -> EffectView {
        (self.cancel, self.stdout@, self.stderr@)
    }
}

/// The blanks left over before an answer.
pub open spec fn is_lead_blank(c: char) -> bool {
    c == ' ' || c == '\t' || c == '\r' || c == '\n'
}

/// `s` without the blanks it starts with.
pub open spec fn without_lead(s: Seq<char>) -> Seq<char>
    decreases s.len(),
{
    if s.len() > 0 && is_lead_blank(s[0]) {
        without_lead(s.skip(1))
    } else {
        s
    }
}

pub open spec fn dim(color: bool) -> Seq<char> {
    if color {
        "\x1b[2m"@
    } else {
        Seq::empty()
    }
}

/// The end of a block of thoughts: a color reset and a line break.
pub open spec fn thought_end(color: bool) -> Seq<char> {
    (if color {
        "\x1b[0m"@
    } else {
        Seq::empty()
    }) + "\n"@
}

/// A generation and its output after an interrupt was seen.
pub open spec fn after_interrupt(g: GenView, interrupted: bool) -> (GenView, bool) {
    if interrupted && !g.cancelled {
        (GenView { cancelled: true, ..g }, true)
    } else {
        (g, false)
    }
}

/// A generation after a token: thoughts go to standard error in a block of
/// their own, the answer to standard output; the blanks before the first
/// character of an answer are dropped.
pub open spec fn after_token(g: GenView, kind: StreamKind, token: Seq<char>, color: bool) -> (GenView, Seq<char>, Seq<char>) {
    if token.len() == 0 {
        (g, Seq::empty(), Seq::empty())
    } else if kind == StreamKind::Thinking {
        if g.show_thoughts {
            (
                GenView { in_thought_block: true, ..g },
                Seq::empty(),
                (if g.in_thought_block {
                    Seq::empty()
                } else {
                    dim(color)
                }) + token,
            )
        } else {
            (g, Seq::empty(), Seq::empty())
        }
    } else {
        let shown = if g.answer.len() == 0 {
            without_lead(token)
        } else {
            token
        };
        (
            GenView { in_thought_block: false, answer: g.answer + shown, ..g },
            if g.stream_to_stdout {
                shown
            } else {
                Seq::empty()
            },
            if g.in_thought_block {
                thought_end(color)
            } else {
                Seq::empty()
            },
        )
    }
}

/// A generation after its last event.
pub open spec fn after_end(g: GenView, event: LlmStreamEvent, color: bool) -> (GenView, Seq<char>) {
    if event.kind == StreamKind::Completed || event.kind == StreamKind::Error {
        (
            GenView {
                in_thought_block: false,
                finish_reason: event.finish_reason@,
                error: match event.error {
                    Some(e) => if e.message@.len() > 0 {
                        e.message@
                    } else {
                        g.error
                    },
                    None => g.error,
                },
                done: true,
                ..g
            },
            if g.in_thought_block {
                thought_end(color)
            } else {
                Seq::empty()
            },
        )
    } else {
        (g, Seq::empty())
    }
}

/// What one event does to a generation and to the terminal.
pub open spec fn stream_step(g: GenView, event: LlmStreamEvent, interrupted: bool, color: bool) -> (GenView, EffectView) {
    let (g1, cancel) = after_interrupt(g, interrupted);
    let (g2, stdout, thought) = after_token(g1, event.kind, event.token@, color);
    let (g3, end) = after_end(g2, event, color);
    (g3, (cancel, stdout, thought + end))
}

fn without_lead_exec(s: &str) -> (r: String)
    ensures
        r@ == without_lead(s@),
{
    let v = text::chars_of(s);
    let mut i: usize = 0;
    assert(v@.skip(0) =~= v@);
    while i < v.len() && (v[i] == ' ' || v[i] == '\t' || v[i] == '\r' || v[i] == '\n')
        invariant
            i <= v@.len(),
            without_lead(v@) == without_lead(v@.skip(i as int)),
        decreases v@.len() - i,
    {
        assert(v@.skip(i as int)[0] == v@[i as int]);
        assert(v@.skip(i as int).skip(1) =~= v@.skip(i + 1));
        i = i + 1;
    }
    proof {
        if i < v@.len() {
            assert(v@.skip(i as int)[0] == v@[i as int]);
        }
    }
    let r = text::string_of_range(&v, i, v.len());
    assert(r@ =~= v@.skip(i as int));
    r
}

fn thought_end_exec(color: bool) -> (r: String)
    ensures
        r@ == thought_end(color),
{
    let mut r = String::new();
    if color {
        r.append("\x1b[0m");
    }
    r.append("\n");
    assert(r@ =~= thought_end(color));
    r
}

/// Takes in one event of a generation; see [`stream_step`].
pub fn handle_llm_stream_event(data: &mut GenStateData, event: &LlmStreamEvent, interrupted: bool, color: bool) -> (r:
    StreamEffect)
    ensures
        final(data)@ == stream_step(old(data)@, *event, interrupted, color).0,
        r@ == stream_step(old(data)@, *event, interrupted, color).1,
{
    let mut cancel = false;
    if interrupted && !data.cancelled {
        data.cancelled = true;
        cancel = true;
    }
    let ghost g1 = data@;
    let mut stdout = String::new();
    let mut stderr = String::new();
    if !event.token.as_str().is_empty() {
        if event.kind == StreamKind::Thinking {
            if data.show_thoughts {
                if !data.in_thought_block {
                    if color {
                        stderr.append("\x1b[2m");
                    }
                    data.in_thought_block = true;
                }
                stderr.append(event.token.as_str());
            }
        } else {
            if data.in_thought_block {
                stderr.append(thought_end_exec(color).as_str());
                data.in_thought_block = false;
            }
            let token = if data.answer.as_str().is_empty() {
                without_lead_exec(event.token.as_str())
            } else {
                text::owned(event.token.as_str())
            };
            if data.stream_to_stdout {
                stdout.append(token.as_str());
            }
            data.answer.append(token.as_str());
        }
    }
    proof {
        let want = after_token(g1, event.kind, event.token@, color);
        assert(data@ =~= want.0);
        assert(stdout@ =~= want.1);
        assert(stderr@ =~= want.2);
    }
    let ghost g2 = data@;
    let ghost thought = stderr@;
    if event.kind == StreamKind::Completed || event.kind == StreamKind::Error {
        if data.in_thought_block {
            stderr.append(thought_end_exec(color).as_str());
            data.in_thought_block = false;
        }
        data.finish_reason = text::owned(event.finish_reason.as_str());
        if let Some(e) = &event.error {
            if !e.message.as_str().is_empty() {
                data.error = text::owned(e.message.as_str());
            }
        }
        data.done = true;
    }
    proof {
        let want = after_end(g2, *event, color);
        assert(data@ =~= want.0);
        assert(stderr@ =~= thought + want.1);
    }
    StreamEffect { cancel, stdout, stderr }
}

proof fn without_lead_starts_full(s: Seq<char>)
    ensures
        without_lead(s).len() == 0 || !is_lead_blank(without_lead(s)[0]),
    decreases s.len(),
{
    if s.len() > 0 && is_lead_blank(s[0]) {
        without_lead_starts_full(s.skip(1));
    }
}

/// An answer that is empty or starts with a visible character keeps that
/// through every event: the blanks a stripped thinking block leaves behind
/// never reach the reader.
pub proof fn an_answer_never_starts_blank(g: GenView, event: LlmStreamEvent, interrupted: bool, color: bool)
    requires
        g.answer.len() == 0 || !is_lead_blank(g.answer[0]),
    ensures
        ({
            let after = stream_step(g, event, interrupted, color).0;
            after.answer.len() == 0 || !is_lead_blank(after.answer[0])
        }),
{
    without_lead_starts_full(event.token@);
    assert(Seq::<char>::empty() + without_lead(event.token@) =~= without_lead(event.token@));
    if g.answer.len() == 0 {
        assert(g.answer =~= Seq::<char>::empty());
    }
}

/// A generation is cancelled at most once, however often it is interrupted, and
/// a thought never reaches standard output.
pub proof fn one_cancel_and_no_thought_in_the_answer(g: GenView, event: LlmStreamEvent, interrupted: bool, color: bool)
    ensures
        ({
            let (after, effect) = stream_step(g, event, interrupted, color);
            &&& effect.0 ==> !g.cancelled
            &&& effect.0 || g.cancelled ==> after.cancelled
            &&& event.kind == StreamKind::Thinking ==> effect.1.len() == 0 && after.answer == g.answer
        }),
{
}

/// The blanks at the start of a text are what is left out of it, all of them and
/// nothing else.
proof fn without_lead_is_the_rest(s: Seq<char>) -> (k: int)
    ensures
        0 <= k <= s.len(),
        without_lead(s) == s.skip(k),
        forall|j: int| 0 <= j < k ==> #[trigger] s[j] == ' ' || s[j] == '\t' || s[j] == '\r' || s[j] == '\n',
        k < s.len() ==> s[k] != ' ' && s[k] != '\t' && s[k] != '\r' && s[k] != '\n',
    decreases s.len(),
{
    if s.len() > 0 && is_lead_blank(s[0]) {
        let t = s.skip(1);
        let m = without_lead_is_the_rest(t);
        assert forall|j: int| 0 <= j < m + 1 implies #[trigger] s[j] == ' ' || s[j] == '\t' || s[j] == '\r' || s[j]
            == '\n' by {
            if j > 0 {
                assert(t[j - 1] == s[j]);
            }
        }
        assert(t.skip(m) =~= s.skip(m + 1));
        m + 1
    } else {
        assert(s.skip(0) =~= s);
        0
    }
}

/// An answer only ever grows, and by what the events say: once it has begun, a
/// token that is no thought is put behind it as it came. Of the tokens before that
/// it takes what is left behind their blanks. What is put behind the answer is
/// what standard output shows, where it is shown at all.
pub proof fn an_answer_grows_by_its_tokens(g: GenView, event: LlmStreamEvent, interrupted: bool, color: bool)
    ensures
        ({
            let (after, effect) = stream_step(g, event, interrupted, color);
            let token = event.token@;
            &&& event.kind == StreamKind::Thinking ==> after.answer == g.answer
            &&& event.kind != StreamKind::Thinking && g.answer.len() > 0 ==> after.answer == g.answer + token
            &&& event.kind != StreamKind::Thinking && g.answer.len() == 0 ==> exists|k: int|
                0 <= k <= token.len() && after.answer == #[trigger] token.skip(k) && (forall|j: int|
                    0 <= j < k ==> #[trigger] token[j] == ' ' || token[j] == '\t' || token[j] == '\r' || token[j]
                        == '\n') && (k < token.len() ==> token[k] != ' ' && token[k] != '\t' && token[k] != '\r'
                    && token[k] != '\n')
            &&& g.stream_to_stdout ==> g.answer + effect.1 == after.answer
            &&& !g.stream_to_stdout ==> effect.1.len() == 0
            &&& after.stream_to_stdout == g.stream_to_stdout
            &&& after.show_thoughts == g.show_thoughts
        }),
{
    let token = event.token@;
    let (after, effect) = stream_step(g, event, interrupted, color);
    assert(g.answer + Seq::<char>::empty() =~= g.answer);
    if token.len() == 0 {
        assert(g.answer + token =~= g.answer);
    }
    if event.kind != StreamKind::Thinking && g.answer.len() == 0 {
        assert(g.answer =~= Seq::<char>::empty());
        let k = without_lead_is_the_rest(token);
        assert(g.answer + without_lead(token) =~= without_lead(token));
        assert(after.answer =~= token.skip(k));
    }
}

/// Thoughts go to standard error as they came, and only where they are asked for;
/// a block of them is closed by a line break before anything else happens, and
/// nothing else is ever written there.
pub proof fn thoughts_are_shown_apart(g: GenView, event: LlmStreamEvent, interrupted: bool)
    ensures
        ({
            let (after, effect) = stream_step(g, event, interrupted, false);
            let thought = event.kind == StreamKind::Thinking && event.token@.len() > 0;
            let closing = event.kind == StreamKind::Completed || event.kind == StreamKind::Error;
            &&& thought && g.show_thoughts ==> effect.2 == event.token@ && after.in_thought_block
            &&& thought && !g.show_thoughts ==> effect.2.len() == 0 && after.in_thought_block == g.in_thought_block
            &&& !thought && (closing || event.token@.len() > 0) ==> !after.in_thought_block && effect.2 == (
            if g.in_thought_block {
                seq!['\n']
            } else {
                Seq::empty()
            })
            &&& !thought && !closing && event.token@.len() == 0 ==> effect.2.len() == 0 && after.in_thought_block
                == g.in_thought_block
        }),
{
    reveal_strlit("\n");
    assert("\n"@ =~= seq!['\n']);
    let (after, effect) = stream_step(g, event, interrupted, false);
    assert(thought_end(false) =~= seq!['\n']);
    assert(effect.2 =~= (if event.kind == StreamKind::Thinking && event.token@.len() > 0 && g.show_thoughts {
        event.token@
    } else if (event.kind != StreamKind::Thinking && event.token@.len() > 0 || event.kind == StreamKind::Completed
        || event.kind == StreamKind::Error) && g.in_thought_block {
        seq!['\n']
    } else {
        Seq::empty()
    }));
}

/// Only a last event ends a generation. It gives the reason to finish and, where
/// it has one, the error; no other event touches either. An interrupt cancels, and
/// nothing takes that back.
pub proof fn the_last_event_ends_a_generation(g: GenView, event: LlmStreamEvent, interrupted: bool, color: bool)
    ensures
        ({
            let (after, effect) = stream_step(g, event, interrupted, color);
            let ends = event.kind == StreamKind::Completed || event.kind == StreamKind::Error;
            &&& after.done == (g.done || ends)
            &&& ends ==> after.finish_reason == event.finish_reason@
            &&& !ends ==> after.finish_reason == g.finish_reason && after.error == g.error
            &&& ends && event.error is Some && event.error->0.message@.len() > 0 ==> after.error
                == event.error->0.message@
            &&& event.error is None || event.error->0.message@.len() == 0 ==> after.error == g.error
            &&& after.cancelled == (g.cancelled || interrupted)
            &&& effect.0 == (after.cancelled && !g.cancelled)
        }),
{
}

/// The tokens of the first `n` events that are no thoughts, one behind the other.
pub open spec fn spoken(events: Seq<LlmStreamEvent>, n: int) -> Seq<char>
    decreases n,
{
    if n <= 0 {
        Seq::empty()
    } else if events[n - 1].kind == StreamKind::Thinking {
        spoken(events, n - 1)
    } else {
        spoken(events, n - 1) + events[n - 1].token@
    }
}

/// The generation after the first `n` events, what they wrote to standard output
/// and how often they cancelled; each event finds an interrupt or does not.
pub open spec fn after_events(
    g: GenView,
    events: Seq<LlmStreamEvent>,
    interrupts: Seq<bool>,
    color: bool,
    n: int,
) -> (GenView, Seq<char>, nat)
    decreases n,
{
    if n <= 0 {
        (g, Seq::empty(), 0)
    } else {
        let (before, shown, cancels) = after_events(g, events, interrupts, color, n - 1);
        let (after, effect) = stream_step(before, events[n - 1], interrupts[n - 1], color);
        (
            after,
            shown + effect.1,
            if effect.0 {
                cancels + 1
            } else {
                cancels
            },
        )
    }
}

/// Whether only blanks stand before place `k` of a text, and none at it.
pub open spec fn begins_at(s: Seq<char>, k: int) -> bool {
    &&& 0 <= k <= s.len()
    &&& forall|j: int| 0 <= j < k ==> #[trigger] s[j] == ' ' || s[j] == '\t' || s[j] == '\r' || s[j] == '\n'
    &&& k < s.len() ==> s[k] != ' ' && s[k] != '\t' && s[k] != '\r' && s[k] != '\n'
}

/// Where a text begins when another is put behind it.
proof fn begins_behind(s: Seq<char>, k: int, t: Seq<char>, m: int) -> (p: int)
    requires
        begins_at(s, k),
        begins_at(t, m),
    ensures
        begins_at(s + t, p),
        (s + t).skip(p) == if k < s.len() {
            s.skip(k) + t
        } else {
            t.skip(m)
        },
{
    let p = if k < s.len() {
        k
    } else {
        k + m
    };
    let all = s + t;
    assert forall|j: int| 0 <= j < p implies #[trigger] all[j] == ' ' || all[j] == '\t' || all[j] == '\r' || all[j]
        == '\n' by {
        if j < s.len() {
            assert(all[j] == s[j]);
        } else {
            assert(all[j] == t[j - s.len()]);
        }
    }
    if k < s.len() {
        assert(all[p] == s[k]);
        assert(all.skip(p) =~= s.skip(k) + t);
    } else {
        if m < t.len() {
            assert(all[p] == t[m]);
        }
        assert(all.skip(p) =~= t.skip(m));
    }
    p
}

/// The answer of a whole stream is all the tokens that are no thoughts, one behind
/// the other, without the blanks at their start; where it is streamed it is what
/// standard output shows.
pub proof fn an_answer_is_what_was_said(
    g: GenView,
    events: Seq<LlmStreamEvent>,
    interrupts: Seq<bool>,
    color: bool,
    n: int,
)
    requires
        0 <= n <= events.len(),
        g.answer.len() == 0,
    ensures
        ({
            let (after, shown, _) = after_events(g, events, interrupts, color, n);
            let said = spoken(events, n);
            &&& exists|k: int| #[trigger] begins_at(said, k) && after.answer == said.skip(k)
            &&& shown == (if g.stream_to_stdout {
                after.answer
            } else {
                Seq::empty()
            })
            &&& after.stream_to_stdout == g.stream_to_stdout
        }),
    decreases n,
{
    let (after, shown, _) = after_events(g, events, interrupts, color, n);
    let said = spoken(events, n);
    if n == 0 {
        assert(begins_at(said, 0));
        assert(g.answer =~= said.skip(0));
        assert(g.answer =~= Seq::empty());
    } else {
        an_answer_is_what_was_said(g, events, interrupts, color, n - 1);
        let event = events[n - 1];
        let token = event.token@;
        let (before, shown0, _) = after_events(g, events, interrupts, color, n - 1);
        let said0 = spoken(events, n - 1);
        let effect = stream_step(before, event, interrupts[n - 1], color).1;
        an_answer_grows_by_its_tokens(before, event, interrupts[n - 1], color);
        assert(shown =~= (if g.stream_to_stdout {
            after.answer
        } else {
            Seq::empty()
        }));
        let k0 = choose|k: int| #[trigger] begins_at(said0, k) && before.answer == said0.skip(k);
        if event.kind != StreamKind::Thinking {
            let k1 = without_lead_is_the_rest(token);
            assert(begins_at(token, k1));
            let k = begins_behind(said0, k0, token, k1);
            assert(begins_at(said, k));
            assert(before.answer.len() == 0 ==> after.answer =~= token.skip(k1)) by {
                if before.answer.len() == 0 {
                    assert(before.answer + without_lead(token) =~= without_lead(token));
                }
            }
            assert(after.answer == said.skip(k));
        }
    }
}

/// A stream that is interrupted, however often, is cancelled once; one that is
/// not, never.
pub proof fn a_stream_is_cancelled_once(
    g: GenView,
    events: Seq<LlmStreamEvent>,
    interrupts: Seq<bool>,
    color: bool,
    n: int,
)
    requires
        0 <= n <= interrupts.len(),
        !g.cancelled,
    ensures
        ({
            let (after, _, cancels) = after_events(g, events, interrupts, color, n);
            &&& after.cancelled == interrupts.take(n).contains(true)
            &&& cancels == (if after.cancelled {
                1nat
            } else {
                0
            })
        }),
    decreases n,
{
    if n > 0 {
        a_stream_is_cancelled_once(g, events, interrupts, color, n - 1);
        let before = after_events(g, events, interrupts, color, n - 1).0;
        the_last_event_ends_a_generation(before, events[n - 1], interrupts[n - 1], color);
        let (now, past) = (interrupts.take(n), interrupts.take(n - 1));
        if past.contains(true) {
            let i = choose|i: int| 0 <= i < past.len() && past[i];
            assert(now[i]);
        }
        if interrupts[n - 1] {
            assert(now[n - 1]);
        }
        if now.contains(true) {
            let i = choose|i: int| 0 <= i < now.len() && now[i];
            if i < n - 1 {
                assert(past[i]);
            }
        }
    }
}

/// What to do while a generation streams.
#[derive(Clone, Copy, Debug, PartialEq, Eq, Structural)]
pub enum StreamWait {
    /// Wait a little longer.
    Again,
    /// The last event came in.
    Finish,
    /// Cancel, give the engine two seconds to wind down, then finish.
    CancelAndFinish,
}

/// After a short wait: a finished generation ends it, an interrupt cancels.
pub fn stream_wait(done: bool, interrupted: bool) -> (r: StreamWait)
    ensures
        r == if done {
            StreamWait::Finish
        } else if interrupted {
            StreamWait::CancelAndFinish
        } else {
            StreamWait::Again
        },
{
    if done {
        StreamWait::Finish
    } else if interrupted {
        StreamWait::CancelAndFinish
    } else {
        StreamWait::Again
    }
}

/// A generation whose cancel was not acknowledged in time counts as cancelled.
pub fn wind_down(data: &mut GenStateData, timed_out: bool)
    ensures
        final(data)@ == (if timed_out && !old(data).done {
            (GenView { done: true, cancelled: true, ..old(data)@ })
        } else {
            old(data)@
        }),
{
    if timed_out && !data.done {
        data.done = true;
        data.cancelled = true;
    }
    assert(data@ =~= (if timed_out && !old(data).done {
        (GenView { done: true, cancelled: true, ..old(data)@ })
    } else {
        old(data)@
    }));
}

/// How a streamed generation ended.
#[derive(Debug)]
pub enum StreamEnd {
    Failed(String),
    Cancelled,
    Document(JsonWriter),
    Timed(String),
    Quiet,
}

/// The exit code of a streamed generation.
pub fn stream_exit_code(end: &StreamEnd) -> (code: i32)
    ensures
        code == match end {
            StreamEnd::Failed(_) => 1i32,
            StreamEnd::Cancelled => 130,
            _ => 0,
        },
{
    match end {
        StreamEnd::Failed(_) => 1,
        StreamEnd::Cancelled => 130,
        _ => 0,
    }
}

/// Whether a line break is owed after the streamed answer.
pub open spec fn owes_newline(g: GenView, json: bool) -> bool {
    g.answer.len() > 0 && g.answer.last() != '\n' && !json
}

/// How a streamed generation ended: an error wins over a cancel, and only a
/// finished one is reported. The first of the pair says whether a line break is
/// owed on standard output.
pub fn stream_outcome(options: &GlobalOptions, model_id: &str, data: &GenStateData, elapsed_ms: i64) -> (r: (bool, StreamEnd))
    ensures
        r.0 == owes_newline(data@, options.json),
        match r.1 {
            StreamEnd::Failed(message) => data.error@.len() > 0 && message@ == "generation failed: "@ + data.error@,
            StreamEnd::Cancelled => data.error@.len() == 0 && data.cancelled,
            StreamEnd::Document(json) => data.error@.len() == 0 && !data.cancelled && options.json && json@ == seq![
                output::begin_object(),
                output::field_str("model"@, model_id@),
                output::field_str("response"@, data.answer@),
                output::field_str("finish_reason"@, data.finish_reason@),
                output::field_i64("total_ms"@, elapsed_ms as int),
                output::end_object(),
            ],
            StreamEnd::Timed(line) => data.error@.len() == 0 && !data.cancelled && !options.json && options.verbose
                && line@ == "("@ + text::dec(elapsed_ms as int) + " ms)"@,
            StreamEnd::Quiet => data.error@.len() == 0 && !data.cancelled && !options.json && !options.verbose,
        },
{
    let v = text::chars_of(data.answer.as_str());
    let owes = v.len() > 0 && v[v.len() - 1] != '\n' && !options.json;
    if !data.error.as_str().is_empty() {
        return (owes, StreamEnd::Failed(text::cat2("generation failed: ", data.error.as_str())));
    }
    if data.cancelled {
        return (owes, StreamEnd::Cancelled);
    }
    if options.json {
        let mut json = JsonWriter::new();
        json.begin_object();
        json.field_str("model", model_id);
        json.field_str("response", data.answer.as_str());
        json.field_str("finish_reason", data.finish_reason.as_str());
        json.field_i64("total_ms", elapsed_ms);
        json.end_object();
        return (owes, StreamEnd::Document(json));
    }
    if options.verbose {
        return (owes, StreamEnd::Timed(text::cat3("(", text::dec_i64(elapsed_ms).as_str(), " ms)")));
    }
    (owes, StreamEnd::Quiet)
}

/// What is shown of the end of a streamed generation.
pub open spec fn end_shown(end: StreamEnd) -> ReportView {
    match end {
        StreamEnd::Failed(message) => ReportView::Lines(seq![output::error(message@)]),
        StreamEnd::Cancelled => ReportView::Lines(seq![output::status("(cancelled)"@)]),
        StreamEnd::Document(json) => ReportView::Document(json@),
        StreamEnd::Timed(line) => ReportView::Lines(seq![output::status(line@)]),
        StreamEnd::Quiet => ReportView::Lines(Seq::empty()),
    }
}

/// See [`end_shown`]; the second of the pair is the exit code.
pub fn stream_report(end: StreamEnd) -> (r: (Report, i32))
    ensures
        r.0@ == end_shown(end),
        r.1 == match end {
            StreamEnd::Failed(_) => 1i32,
            StreamEnd::Cancelled => 130,
            _ => 0,
        },
{
    let code = stream_exit_code(&end);
    let mut printed = Printed::new();
    match end {
        StreamEnd::Document(json) => return (Report::Document(json), code),
        StreamEnd::Failed(message) => printed.error(message),
        StreamEnd::Cancelled => printed.status(text::owned("(cancelled)")),
        StreamEnd::Timed(line) => printed.status(line),
        StreamEnd::Quiet => {},
    }
    (Report::Lines(printed), code)
}

/// Where a streamed generation stands, that is, what is done next.
#[derive(Clone, Copy, Debug, PartialEq, Eq, Structural)]
pub enum StreamStage {
    /// The engine is asked to generate; it is lent the state of the generation.
    Begin,
    /// Wait a little for the last event.
    Wait,
    /// Ask the engine to stop.
    Cancel,
    /// Give it two seconds to wind down.
    WindDown,
    /// Tell how it ended.
    Conclude,
    /// Wait until no event is being delivered any more.
    Quiesce,
    /// Take the state back.
    Release,
    Ended,
}

/// What comes after a step. What could not begin has nothing to wait for, but
/// events may be on their way all the same.
pub open spec fn stream_after(stage: StreamStage, ok: bool, done: bool, interrupted: bool) -> StreamStage {
    match stage {
        StreamStage::Begin => if ok {
            StreamStage::Wait
        } else {
            StreamStage::Quiesce
        },
        StreamStage::Wait => if done {
            StreamStage::Conclude
        } else if interrupted {
            StreamStage::Cancel
        } else {
            StreamStage::Wait
        },
        StreamStage::Cancel => StreamStage::WindDown,
        StreamStage::WindDown => StreamStage::Conclude,
        StreamStage::Conclude => StreamStage::Quiesce,
        StreamStage::Quiesce => StreamStage::Release,
        StreamStage::Release => StreamStage::Ended,
        StreamStage::Ended => StreamStage::Ended,
    }
}

/// See [`stream_after`].
pub fn stream_once(stage: StreamStage, ok: bool, done: bool, interrupted: bool) -> (r: StreamStage)
    ensures
        r == stream_after(stage, ok, done, interrupted),
{
    match stage {
        StreamStage::Begin => if ok {
            StreamStage::Wait
        } else {
            StreamStage::Quiesce
        },
        StreamStage::Wait => match stream_wait(done, interrupted) {
            StreamWait::Finish => StreamStage::Conclude,
            StreamWait::CancelAndFinish => StreamStage::Cancel,
            StreamWait::Again => StreamStage::Wait,
        },
        StreamStage::Cancel => StreamStage::WindDown,
        StreamStage::WindDown => StreamStage::Conclude,
        StreamStage::Conclude => StreamStage::Quiesce,
        StreamStage::Quiesce => StreamStage::Release,
        StreamStage::Release => StreamStage::Ended,
        StreamStage::Ended => StreamStage::Ended,
    }
}

/// What is said when a generation cannot begin, which ends it with code one.
pub fn stream_problem(described: &str) -> (r: String)
    ensures
        r@ == "generation failed: "@ + described@,
{
    text::cat2("generation failed: ", described)
}

/// How far a generation is from its end; waiting does not bring it nearer.
pub open spec fn stream_steps_left(stage: StreamStage) -> nat {
    match stage {
        StreamStage::Begin => 7,
        StreamStage::Wait => 6,
        StreamStage::Cancel => 5,
        StreamStage::WindDown => 4,
        StreamStage::Conclude => 3,
        StreamStage::Quiesce => 2,
        StreamStage::Release => 1,
        StreamStage::Ended => 0,
    }
}

/// The state that the engine was lent is taken back exactly once, at the end,
/// and only when no event can reach it any more. An interrupt ends the waiting,
/// and there is one cancel at most.
pub proof fn a_lent_state_is_taken_back(stage: StreamStage, ok: bool, done: bool, interrupted: bool)
    ensures
        ({
            let next = stream_after(stage, ok, done, interrupted);
            &&& next is Release ==> stage is Quiesce
            &&& next is Ended ==> stage is Release || stage is Ended
            &&& next is Cancel ==> stage is Wait && interrupted
            &&& !(stage is Wait) && !(stage is Ended) ==> stream_steps_left(next) < stream_steps_left(stage)
            &&& stage is Wait && (done || interrupted) ==> stream_steps_left(next) < stream_steps_left(stage)
            &&& stage is Wait && !done && !interrupted ==> next is Wait
        }),
{
}

/// Counts and speed of a generation; the speed is the bits of a double.
#[derive(Clone, Copy, Debug, Default)]
pub struct TokenUsage {
    pub input_tokens: i32,
    pub output_tokens: i32,
    pub tokens_per_second: i64,
}

/// A generation that came back whole.
#[derive(Clone, Debug, Default)]
pub struct LlmGenerationResult {
    pub text: String,
    pub thinking_content: Option<String>,
    pub model_used: String,
    /// The name of the reason, empty when it has none.
    pub finish_reason: String,
    pub usage: TokenUsage,
    /// Whole milliseconds.
    pub generation_time_ms: i64,
    pub error: Option<SdkError>,
}

/// What a one-shot generation amounts to: an error report fails it even without
/// a message, rather than rendering empty text as a result.
pub fn generation_outcome(result: &LlmGenerationResult) -> (r: Result<(), String>)
    ensures
        engine::unit_view(r) == engine::report_outcome(result.error),
{
    engine::outcome_of(&result.error)
}

/// The writes for a one-shot generation.
pub open spec fn generation_document(model_id: Seq<char>, result: LlmGenerationResult) -> Seq<output::JsonOpView> {
    seq![
        output::begin_object(),
        output::field_str(
            "model"@,
            if result.model_used@.len() == 0 {
                model_id
            } else {
                result.model_used@
            },
        ),
        output::field_str("response"@, result.text@),
        output::field_str("thinking"@, given_text(result.thinking_content)),
        output::field_str("finish_reason"@, result.finish_reason@),
        output::field_i64("input_tokens"@, result.usage.input_tokens as int),
        output::field_i64("output_tokens"@, result.usage.output_tokens as int),
        output::field_f64("tokens_per_second"@, result.usage.tokens_per_second as int),
        output::field_i64("total_ms"@, result.generation_time_ms as int),
        output::end_object(),
    ]
}

/// The document of a one-shot generation.
pub fn generation_json(model_id: &str, result: &LlmGenerationResult) -> (json: JsonWriter)
    ensures
        json@ == generation_document(model_id@, *result),
{
    let model = if result.model_used.as_str().is_empty() { model_id } else { result.model_used.as_str() };
    let thinking = match &result.thinking_content {
        Some(t) => text::owned(t.as_str()),
        None => String::new(),
    };
    let mut json = JsonWriter::new();
    json.begin_object();
    json.field_str("model", model);
    json.field_str("response", result.text.as_str());
    json.field_str("thinking", thinking.as_str());
    json.field_str("finish_reason", result.finish_reason.as_str());
    json.field_i64("input_tokens", result.usage.input_tokens as i64);
    json.field_i64("output_tokens", result.usage.output_tokens as i64);
    json.field_f64("tokens_per_second", result.usage.tokens_per_second);
    json.field_i64("total_ms", result.generation_time_ms);
    json.end_object();
    assert(thinking@ =~= given_text(result.thinking_content));
    json
}

/// A time and a speed: `speed` is the tokens per second as text.
pub open spec fn speed_line(ms: int, speed: Seq<char>) -> Seq<char> {
    "("@ + text::dec(ms) + " ms, "@ + speed + " tok/s)"@
}

fn speed_line_exec(ms: i64, speed: &str) -> (r: String)
    ensures
        r@ == speed_line(ms as int, speed@),
{
    text::cat5("(", text::dec_i64(ms).as_str(), " ms, ", speed, " tok/s)")
}

/// The lines of a one-shot generation: the thinking (dimmed, where it is
/// wanted), the text, and its speed when asked.
pub open spec fn generation_shown(
    options: GlobalOptions,
    params: RunParams,
    result: LlmGenerationResult,
    color: bool,
    speed: Seq<char>,
) -> Seq<(output::Channel, Seq<char>)> {
    let thinking = given_text(result.thinking_content);
    (if params.show_thinking && params.reasoning@ != "off"@ && !options.quiet && thinking.len() > 0 {
        seq![
            output::status(
                dim(color) + thinking + (if color {
                    "\x1b[0m"@
                } else {
                    Seq::empty()
                }),
            ),
        ]
    } else {
        Seq::empty()
    }) + seq![output::result(result.text@)] + (if options.verbose {
        seq![output::status(speed_line(result.generation_time_ms as int, speed))]
    } else {
        Seq::empty()
    })
}

/// See [`generation_shown`].
pub fn generation_lines(
    options: &GlobalOptions,
    params: &RunParams,
    result: &LlmGenerationResult,
    color: bool,
    speed: &str,
) -> (out: Printed)
    ensures
        out@ == generation_shown(*options, *params, *result, color, speed@),
{
    let mut out = Printed::new();
    let ghost thinking = given_text(result.thinking_content);
    if params.show_thinking && !reasoning_off(params) && !options.quiet {
        if let Some(t) = &result.thinking_content {
            if !t.as_str().is_empty() {
                let mut line = String::new();
                if color {
                    line.append("\x1b[2m");
                }
                line.append(t.as_str());
                if color {
                    line.append("\x1b[0m");
                }
                assert(line@ =~= dim(color) + thinking + (if color {
                    "\x1b[0m"@
                } else {
                    Seq::empty()
                }));
                out.status(line);
            }
        }
    }
    let ghost head = out@;
    out.result(text::owned(result.text.as_str()));
    if options.verbose {
        out.status(speed_line_exec(result.generation_time_ms, speed));
    }
    assert(out@ =~= head + seq![output::result(result.text@)] + (if options.verbose {
        seq![output::status(speed_line(result.generation_time_ms as int, speed@))]
    } else {
        Seq::empty()
    }));
    out
}

/// What a one-shot generation shows, and its exit code: `ok` and `parsed` are
/// the engine's answer. A bad code with a readable answer leaves no detail to
/// show.
pub fn generate_once(
    options: &GlobalOptions,
    params: &RunParams,
    model_id: &str,
    ok: bool,
    parsed: Result<LlmGenerationResult, String>,
    color: bool,
    speed: &str,
) -> (r: (Report, i32))
    ensures
        match engine::answer_outcome(ok, Seq::empty(), parsed, false) {
            Err(message) => r.0@ == ReportView::Lines(seq![output::error("generation failed: "@ + message)]) && r.1 == 1,
            Ok(result) => match engine::report_outcome(result.error) {
                Err(message) => r.0@ == ReportView::Lines(seq![output::error("generation failed: "@ + message)]) && r.1
                    == 1,
                Ok(_) => r.1 == 0 && r.0@ == (if options.json {
                    ReportView::Document(generation_document(model_id@, result))
                } else {
                    ReportView::Lines(generation_shown(*options, *params, result, color, speed@))
                }),
            },
        },
{
    let empty = String::new();
    assert(empty@ =~= Seq::<char>::empty());
    let result = match engine::answer(ok, empty.as_str(), parsed, false) {
        Ok(result) => result,
        Err(message) => {
            return (
                Report::Lines(output::only_error(text::cat2("generation failed: ", message.as_str()))),
                1,
            );
        },
    };
    if let Err(message) = generation_outcome(&result) {
        return (Report::Lines(output::only_error(text::cat2("generation failed: ", message.as_str()))), 1);
    }
    if options.json {
        return (Report::Document(generation_json(model_id, &result)), 0);
    }
    (Report::Lines(generation_lines(options, params, &result, color, speed)), 0)
}

/// The engine's answer to a load.
#[derive(Clone, Debug, Default)]
pub struct ModelLoadResult {
    pub resolved_path: String,
    pub error: Option<SdkError>,
}

/// What a load amounts to: the path that was loaded, or why it failed.
pub open spec fn load_outcome(rc: i32, parsed: Result<ModelLoadResult, String>) -> Result<Seq<char>, Seq<char>> {
    match parsed {
        Err(message) => Err("model load failed: "@ + message@),
        Ok(result) => if rc != engine::SUCCESS {
            Err("model load failed: "@)
        } else {
            match engine::report_outcome(result.error) {
                Ok(_) => Ok(result.resolved_path@),
                Err(message) => Err("model load failed: "@ + message),
            }
        },
    }
}

/// A path or a message, as a value.
pub open spec fn text_view(r: Result<String, String>) -> Result<Seq<char>, Seq<char>> {
    match r {
        Ok(s) => Ok(s@),
        Err(e) => Err(e@),
    }
}

/// See [`load_outcome`].
pub fn load_model(rc: i32, parsed: Result<ModelLoadResult, String>) -> (r: Result<String, String>)
    ensures
        text_view(r) == load_outcome(rc, parsed),
{
    match engine::call_outcome("model load", rc, parsed) {
        Err(e) => {
            proof {
                reveal_strlit("model load");
                reveal_strlit(" failed: ");
                reveal_strlit("model load failed: ");
                assert("model load"@ + " failed: "@ =~= "model load failed: "@);
            }
            Err(e)
        },
        Ok(result) => match engine::outcome_of(&result.error) {
            Err(message) => Err(text::cat2("model load failed: ", message.as_str())),
            Ok(_) => Ok(result.resolved_path),
        },
    }
}

/// A vision answer that came back whole.
#[derive(Clone, Debug, Default)]
pub struct VlmResult {
    pub text: String,
    pub usage: TokenUsage,
    pub total_time_ms: i64,
    pub error: Option<SdkError>,
}

/// What a vision answer amounts to; an error report fails it even without a
/// message.
pub fn vlm_generation_outcome(result: &VlmResult) -> (r: Result<(), String>)
    ensures
        engine::unit_view(r) == engine::report_outcome(result.error),
{
    engine::outcome_of(&result.error)
}

/// The question asked about an image.
pub fn vlm_prompt(prompt: &str) -> (r: String)
    ensures
        r@ == if prompt@.len() == 0 {
            "Describe this image."@
        } else {
            prompt@
        },
{
    if prompt.is_empty() {
        text::owned("Describe this image.")
    } else {
        text::owned(prompt)
    }
}

/// The writes for a vision answer.
pub open spec fn vlm_document(model_id: Seq<char>, result: VlmResult) -> Seq<output::JsonOpView> {
    seq![
        output::begin_object(),
        output::field_str("model"@, model_id),
        output::field_str("response"@, result.text@),
        output::field_i64("total_ms"@, result.total_time_ms as int),
        output::field_f64("tokens_per_second"@, result.usage.tokens_per_second as int),
        output::end_object(),
    ]
}

/// The document of a vision answer.
pub fn vlm_json(model_id: &str, result: &VlmResult) -> (json: JsonWriter)
    ensures
        json@ == vlm_document(model_id@, *result),
{
    let mut json = JsonWriter::new();
    json.begin_object();
    json.field_str("model", model_id);
    json.field_str("response", result.text.as_str());
    json.field_i64("total_ms", result.total_time_ms);
    json.field_f64("tokens_per_second", result.usage.tokens_per_second);
    json.end_object();
    json
}

/// The lines of a vision answer.
pub open spec fn vlm_shown(options: GlobalOptions, result: VlmResult, speed: Seq<char>) -> Seq<
    (output::Channel, Seq<char>),
> {
    seq![output::result(result.text@)] + (if options.verbose {
        seq![output::status(speed_line(result.total_time_ms as int, speed))]
    } else {
        Seq::empty()
    })
}

/// See [`vlm_shown`].
pub fn vlm_lines(options: &GlobalOptions, result: &VlmResult, speed: &str) -> (out: Printed)
    ensures
        out@ == vlm_shown(*options, *result, speed@),
{
    let mut out = Printed::new();
    out.result(text::owned(result.text.as_str()));
    if options.verbose {
        out.status(speed_line_exec(result.total_time_ms, speed));
    }
    assert(out@ =~= vlm_shown(*options, *result, speed@));
    out
}

/// What a question about an image shows, and its exit code: `ok` and `parsed`
/// are the engine's answer. A bad code with a readable answer leaves no detail
/// to show.
pub fn run_vlm(
    options: &GlobalOptions,
    model_id: &str,
    ok: bool,
    parsed: Result<VlmResult, String>,
    speed: &str,
) -> (r: (Report, i32))
    ensures
        match engine::answer_outcome(ok, Seq::empty(), parsed, false) {
            Err(message) => r.0@ == ReportView::Lines(seq![output::error("vlm generation failed: "@ + message)]) && r.1
                == 1,
            Ok(result) => match engine::report_outcome(result.error) {
                Err(message) => r.0@ == ReportView::Lines(seq![output::error("vlm generation failed: "@ + message)])
                    && r.1 == 1,
                Ok(_) => r.1 == 0 && r.0@ == (if options.json {
                    ReportView::Document(vlm_document(model_id@, result))
                } else {
                    ReportView::Lines(vlm_shown(*options, result, speed@))
                }),
            },
        },
{
    let empty = String::new();
    assert(empty@ =~= Seq::<char>::empty());
    let result = match engine::answer(ok, empty.as_str(), parsed, false) {
        Ok(result) => result,
        Err(message) => {
            return (
                Report::Lines(output::only_error(text::cat2("vlm generation failed: ", message.as_str()))),
                1,
            );
        },
    };
    if let Err(message) = vlm_generation_outcome(&result) {
        return (Report::Lines(output::only_error(text::cat2("vlm generation failed: ", message.as_str()))), 1);
    }
    if options.json {
        return (Report::Document(vlm_json(model_id, &result)), 0);
    }
    (Report::Lines(vlm_lines(options, &result, speed)), 0)
}

/// The engine's answer to attaching an adapter.
#[derive(Clone, Debug, Default)]
pub struct LoraApplyResult {
    pub error: Option<SdkError>,
}

/// What attaching an adapter amounts to. An error report fails it even without
/// a message; then the result code is shown.
pub open spec fn lora_outcome(error: Option<SdkError>, rc: i32) -> Result<(), Seq<char>> {
    if rc == engine::SUCCESS && error is None {
        Ok(())
    } else if error is Some && error->0.message@.len() > 0 {
        Err(error->0.message@)
    } else {
        Err(text::dec(rc as int))
    }
}

/// See [`lora_outcome`].
pub fn lora_apply_outcome(result: &LoraApplyResult, rc: i32) -> (r: Result<(), String>)
    ensures
        engine::unit_view(r) == lora_outcome(result.error, rc),
{
    match &result.error {
        None => if rc == engine::SUCCESS {
            Ok(())
        } else {
            Err(text::dec_i64(rc as i64))
        },
        Some(e) => if e.message.as_str().is_empty() {
            Err(text::dec_i64(rc as i64))
        } else {
            Err(text::owned(e.message.as_str()))
        },
    }
}

/// Why an adapter was not attached, if it was not.
pub fn lora_problem(parsed: &Result<LoraApplyResult, String>, rc: i32) -> (r: Option<String>)
    ensures
        match parsed {
            Ok(result) => match lora_outcome(result.error, rc) {
                Ok(_) => r is None,
                Err(message) => r is Some && r->0@ == "lora apply failed: "@ + message,
            },
            Err(message) => r is Some && r->0@ == "lora apply failed: "@ + (if message@.len() == 0 {
                text::dec(rc as int)
            } else {
                message@
            }),
        },
{
    match parsed {
        Ok(result) => match lora_apply_outcome(result, rc) {
            Ok(_) => None,
            Err(message) => Some(text::cat2("lora apply failed: ", message.as_str())),
        },
        Err(message) => if message.as_str().is_empty() {
            Some(text::cat2("lora apply failed: ", text::dec_i64(rc as i64).as_str()))
        } else {
            Some(text::cat2("lora apply failed: ", message.as_str()))
        },
    }
}

pub open spec fn is_digit(c: char) -> bool {
    '0' <= c && c <= '9'
}

/// How many digits stand at `i`.
pub open spec fn digits_at(s: Seq<char>, i: int) -> int
    decreases s.len() - i,
{
    if 0 <= i < s.len() && is_digit(s[i]) {
        1 + digits_at(s, i + 1)
    } else {
        0
    }
}

/// The number written by the `n` digits at `i`.
pub open spec fn digits_number(s: Seq<char>, i: int, n: int) -> int
    decreases n,
{
    if n <= 0 {
        0
    } else {
        10 * digits_number(s, i, n - 1) + (s[i + n - 1] as int - '0' as int)
    }
}

/// The low 32 bits of an integer, as a signed number.
pub open spec fn low_i32(v: int) -> int {
    let m = v % 0x1_0000_0000;
    if m >= 0x8000_0000 {
        m - 0x1_0000_0000
    } else {
        m
    }
}

pub open spec fn has_sign(s: Seq<char>) -> bool {
    s.len() > 0 && (s[0] == '+' || s[0] == '-')
}

/// The integer that a text starts with, after white space and an optional sign,
/// cut to 32 bits; 0 where there is none, or none that 64 bits hold.
pub open spec fn leading_integer(text: Seq<char>) -> int {
    let s = text::trim_start(text);
    let at = if has_sign(s) {
        1int
    } else {
        0int
    };
    let n = digits_at(s, at);
    let magnitude = digits_number(s, at, n);
    let value = if s.len() > 0 && s[0] == '-' {
        -magnitude
    } else {
        magnitude
    };
    if n == 0 || !(i64::MIN <= value <= i64::MAX) {
        0
    } else {
        low_i32(value)
    }
}

proof fn digits_at_bound(s: Seq<char>, i: int)
    requires
        0 <= i <= s.len(),
    ensures
        0 <= digits_at(s, i) <= s.len() - i,
    decreases s.len() - i,
{
    if i < s.len() && is_digit(s[i]) {
        digits_at_bound(s, i + 1);
    }
}

fn digits_at_exec(v: &Vec<char>, i: usize) -> (r: usize)
    requires
        i <= v@.len(),
    ensures
        r == digits_at(v@, i as int),
        r <= v@.len() - i,
{
    let total: usize = v.len();
    let mut n: usize = 0;
    while i + n < total && '0' <= v[i + n] && v[i + n] <= '9'
        invariant
            total == v@.len(),
            i + n <= total,
            digits_at(v@, i as int) == n + digits_at(v@, i + n),
        decreases v@.len() - i - n,
    {
        n = n + 1;
    }
    n
}

proof fn digits_number_grows(s: Seq<char>, i: int, n: int, k: int)
    requires
        0 <= n <= k <= digits_at(s, i),
        0 <= i <= s.len(),
    ensures
        0 <= digits_number(s, i, n) <= digits_number(s, i, k),
    decreases k,
{
    digits_at_bound(s, i);
    if n < k {
        digits_number_grows(s, i, n, k - 1);
        digit_in_run(s, i, k - 1);
    } else if k > 0 {
        digits_number_grows(s, i, k - 1, k - 1);
        digit_in_run(s, i, k - 1);
    }
}

proof fn digit_in_run(s: Seq<char>, i: int, j: int)
    requires
        0 <= i <= s.len(),
        0 <= j < digits_at(s, i),
    ensures
        is_digit(s[i + j]),
    decreases j,
{
    if j > 0 {
        digit_in_run(s, i + 1, j - 1);
    }
}

/// The value of the `n` digits at `i`, or the first bound past any `i64`.
fn digits_number_exec(v: &Vec<char>, i: usize, n: usize) -> (r: i128)
    requires
        i <= v@.len(),
        n == digits_at(v@, i as int),
    ensures
        r == digits_number(v@, i as int, n as int) || (r == 0x8000_0000_0000_0001 && digits_number(
            v@,
            i as int,
            n as int,
        ) > 0x8000_0000_0000_0000),
        0 <= r <= 0x8000_0000_0000_0001,
{
    let total: usize = v.len();
    let mut value: i128 = 0;
    let mut k: usize = 0;
    proof {
        digits_at_bound(v@, i as int);
    }
    while k < n
        invariant
            total == v@.len(),
            i <= v@.len(),
            k <= n,
            n == digits_at(v@, i as int),
            n <= v@.len() - i,
            0 <= value <= 0x8000_0000_0000_0000,
            value == digits_number(v@, i as int, k as int),
        decreases n - k,
    {
        proof {
            digit_in_run(v@, i as int, k as int);
        }
        let c = v[i + k];
        let digit: i128 = c as u32 as i128 - 48;
        value = value * 10 + digit;
        k = k + 1;
        if value > 0x8000_0000_0000_0000 {
            proof {
                digits_number_grows(v@, i as int, k as int, n as int);
            }
            return 0x8000_0000_0000_0001;
        }
    }
    value
}

fn low_i32_exec(v: i64) -> (r: i32)
    ensures
        r == low_i32(v as int),
{
    let m: i64 = match v.checked_rem_euclid(0x1_0000_0000) {
        Some(m) => m,
        None => 0,
    };
    if m >= 0x8000_0000 {
        (m - 0x1_0000_0000) as i32
    } else {
        m as i32
    }
}

/// The integer a text starts with; see [`leading_integer`].
pub fn strtol_prefix(s: &str) -> (r: i32)
    ensures
        r == leading_integer(s@),
{
    let whole = text::chars_of(s);
    let lead: usize = text::leading_space_exec(&whole);
    let trimmed = text::string_of_range(&whole, lead, whole.len());
    let v = text::chars_of(trimmed.as_str());
    assert(v@ =~= text::trim_start(s@));
    let signed = v.len() > 0 && (v[0] == '+' || v[0] == '-');
    let negative = v.len() > 0 && v[0] == '-';
    let at: usize = if signed { 1 } else { 0 };
    let n: usize = digits_at_exec(&v, at);
    if n == 0 {
        return 0;
    }
    let magnitude: i128 = digits_number_exec(&v, at, n);
    let value: i128 = if negative { -magnitude } else { magnitude };
    if value < -0x8000_0000_0000_0000 || value > 0x7FFF_FFFF_FFFF_FFFF {
        return 0;
    }
    low_i32_exec(value as i64)
}

/// The end of the mantissa at the start of `s` and whether it holds a digit:
/// an optional sign, digits, and an optional point with digits.
pub open spec fn mantissa(s: Seq<char>) -> (int, bool) {
    let at = if has_sign(s) {
        1int
    } else {
        0int
    };
    let whole = digits_at(s, at);
    let point = at + whole;
    if point < s.len() && s[point] == '.' {
        let part = digits_at(s, point + 1);
        (point + 1 + part, whole + part > 0)
    } else {
        (point, whole > 0)
    }
}

/// The end of an exponent that stands at `i`, or `i` where none stands.
pub open spec fn exponent_end(s: Seq<char>, i: int) -> int {
    if 0 <= i < s.len() && (s[i] == 'e' || s[i] == 'E') {
        let signed = i + 1 < s.len() && (s[i + 1] == '+' || s[i + 1] == '-');
        let at = if signed {
            i + 2
        } else {
            i + 1
        };
        let n = digits_at(s, at);
        if n > 0 {
            at + n
        } else {
            i
        }
    } else {
        i
    }
}

/// The decimal number that a text starts with, after white space: what C's
/// `strtof` would read, without the names for infinity and not-a-number.
pub open spec fn leading_decimal(text: Seq<char>) -> Option<Seq<char>> {
    let s = text::trim_start(text);
    let (end, digits) = mantissa(s);
    if digits {
        Some(s.take(exponent_end(s, end)))
    } else {
        None
    }
}

/// The decimal number a text starts with; see [`leading_decimal`].
pub fn strtof_prefix(s: &str) -> (r: Option<String>)
    ensures
        match leading_decimal(s@) {
            Some(number) => r is Some && r->0@ == number,
            None => r is None,
        },
{
    let whole = text::chars_of(s);
    let lead: usize = text::leading_space_exec(&whole);
    let trimmed = text::string_of_range(&whole, lead, whole.len());
    let v = text::chars_of(trimmed.as_str());
    assert(v@ =~= text::trim_start(s@));
    let signed = v.len() > 0 && (v[0] == '+' || v[0] == '-');
    let at: usize = if signed { 1 } else { 0 };
    let ones: usize = digits_at_exec(&v, at);
    let mut end: usize = at + ones;
    let mut digits = ones > 0;
    if end < v.len() && v[end] == '.' {
        let part: usize = digits_at_exec(&v, end + 1);
        digits = digits || part > 0;
        end = end + 1 + part;
    }
    if !digits {
        return None;
    }
    let mut stop: usize = end;
    if end < v.len() && (v[end] == 'e' || v[end] == 'E') {
        let exp_signed = end + 1 < v.len() && (v[end + 1] == '+' || v[end + 1] == '-');
        let exp_at: usize = if exp_signed { end + 2 } else { end + 1 };
        let n: usize = digits_at_exec(&v, exp_at);
        if n > 0 {
            stop = exp_at + n;
        }
    }
    let r = text::string_of_range(&v, 0, stop);
    assert(r@ =~= v@.take(stop as int));
    Some(r)
}

/// `s` without the line breaks it ends with.
pub open spec fn without_line_end(s: Seq<char>) -> Seq<char>
    decreases s.len(),
{
    if s.len() > 0 && (s.last() == '\n' || s.last() == '\r') {
        without_line_end(s.drop_last())
    } else {
        s
    }
}

/// A piped text as a prompt: without the line breaks at its end.
pub fn trim_prompt(piped: &str) -> (r: String)
    ensures
        r@ == without_line_end(piped@),
{
    let v = text::chars_of(piped);
    let mut n: usize = v.len();
    assert(v@.take(n as int) =~= v@);
    while n > 0 && (v[n - 1] == '\n' || v[n - 1] == '\r')
        invariant
            n <= v@.len(),
            without_line_end(v@) == without_line_end(v@.take(n as int)),
        decreases n,
    {
        assert(v@.take(n as int).last() == v@[n - 1]);
        assert(v@.take(n as int).drop_last() =~= v@.take(n - 1));
        n = n - 1;
    }
    proof {
        if n > 0 {
            assert(v@.take(n as int).last() == v@[n - 1]);
        }
    }
    let r = text::string_of_range(&v, 0, n);
    assert(r@ =~= v@.take(n as int));
    r
}

/// Piped bytes as a prompt: what is no UTF-8 is replaced, never dropped with
/// the rest, and the line breaks at the end go.
pub fn decode_piped_prompt(bytes: &[u8]) -> (r: String)
    ensures
        r@ == without_line_end(text::lossy_text(bytes@)),
        vstd::utf8::valid_utf8(bytes@) ==> r@ == without_line_end(vstd::utf8::decode_utf8(bytes@)),
{
    let piped = text::from_utf8_lossy(bytes);
    trim_prompt(piped.as_str())
}

/// What a line typed at the prompt asks for.
#[derive(Debug)]
pub enum ReplCommand {
    Nothing,
    Leave,
    Help,
    Show,
    SetSystem(String),
    /// The temperature as it was typed.
    SetTemperature(String),
    SetMaxOutputTokens(i32),
    UnknownSetting,
    Unknown,
    Prompt,
}

/// What `/set <rest>` asks for.
pub open spec fn is_setting(rest: Seq<char>, c: ReplCommand) -> bool {
    if text::starts_with(rest, "system "@) {
        c matches ReplCommand::SetSystem(value) && value@ == rest.skip("system "@.len() as int)
    } else if text::starts_with(rest, "temperature "@) {
        c matches ReplCommand::SetTemperature(value) && value@ == rest.skip("temperature "@.len() as int)
    } else if text::starts_with(rest, "temp "@) {
        c matches ReplCommand::SetTemperature(value) && value@ == rest.skip("temp "@.len() as int)
    } else if text::starts_with(rest, "max-output-tokens "@) {
        c == ReplCommand::SetMaxOutputTokens(leading_integer(rest.skip("max-output-tokens "@.len() as int)) as i32)
    } else if text::starts_with(rest, "max-tokens "@) {
        c == ReplCommand::SetMaxOutputTokens(leading_integer(rest.skip("max-tokens "@.len() as int)) as i32)
    } else {
        c is UnknownSetting
    }
}

/// What a line asks for.
pub open spec fn is_command(line: Seq<char>, c: ReplCommand) -> bool {
    if line.len() == 0 {
        c is Nothing
    } else if line == "/bye"@ || line == "/exit"@ || line == "/quit"@ {
        c is Leave
    } else if line == "/?"@ || line == "/help"@ {
        c is Help
    } else if line == "/show"@ {
        c is Show
    } else if text::starts_with(line, "/set "@) {
        is_setting(line.skip("/set "@.len() as int), c)
    } else if line[0] == '/' {
        c is Unknown
    } else {
        c is Prompt
    }
}

fn setting(rest: &str) -> (c: ReplCommand)
    ensures
        is_setting(rest@, c),
{
    if let Some(value) = text::strip_prefix(rest, "system ") {
        return ReplCommand::SetSystem(value);
    }
    if let Some(value) = text::strip_prefix(rest, "temperature ") {
        return ReplCommand::SetTemperature(value);
    }
    if let Some(value) = text::strip_prefix(rest, "temp ") {
        return ReplCommand::SetTemperature(value);
    }
    if let Some(value) = text::strip_prefix(rest, "max-output-tokens ") {
        return ReplCommand::SetMaxOutputTokens(strtol_prefix(value.as_str()));
    }
    if let Some(value) = text::strip_prefix(rest, "max-tokens ") {
        return ReplCommand::SetMaxOutputTokens(strtol_prefix(value.as_str()));
    }
    ReplCommand::UnknownSetting
}

/// Reads a line typed at the prompt.
pub fn repl_command(line: &str) -> (c: ReplCommand)
    ensures
        is_command(line@, c),
{
    if line.is_empty() {
        return ReplCommand::Nothing;
    }
    if text::str_eq(line, "/bye") || text::str_eq(line, "/exit") || text::str_eq(line, "/quit") {
        return ReplCommand::Leave;
    }
    if text::str_eq(line, "/?") || text::str_eq(line, "/help") {
        return ReplCommand::Help;
    }
    if text::str_eq(line, "/show") {
        return ReplCommand::Show;
    }
    if let Some(rest) = text::strip_prefix(line, "/set ") {
        return setting(rest.as_str());
    }
    if line.get_char(0) == '/' {
        return ReplCommand::Unknown;
    }
    ReplCommand::Prompt
}

/// The line said after a command, if one is.
pub fn repl_reply(c: &ReplCommand) -> (r: Option<String>)
    ensures
        match c {
            ReplCommand::SetSystem(_) => r is Some && r->0@ == "system prompt set"@,
            ReplCommand::SetTemperature(_) => r is Some && r->0@ == "temperature set"@,
            ReplCommand::SetMaxOutputTokens(_) => r is Some && r->0@ == "max-output-tokens set"@,
            ReplCommand::UnknownSetting => r is Some && r->0@
                == "unknown /set option (system | temperature | max-output-tokens)"@,
            ReplCommand::Unknown => r is Some && r->0@ == "unknown command — /? for help"@,
            _ => r is None,
        },
{
    match c {
        ReplCommand::SetSystem(_) => Some(text::owned("system prompt set")),
        ReplCommand::SetTemperature(_) => Some(text::owned("temperature set")),
        ReplCommand::SetMaxOutputTokens(_) => Some(text::owned("max-output-tokens set")),
        ReplCommand::UnknownSetting => Some(
            text::owned("unknown /set option (system | temperature | max-output-tokens)"),
        ),
        ReplCommand::Unknown => Some(text::owned("unknown command — /? for help")),
        _ => None,
    }
}

/// The help of the prompt.
pub fn print_repl_help() -> (out: Printed)
    ensures
        out@ == seq![
            output::status("commands:"@),
            output::status("  /set system <text>          set the system prompt"@),
            output::status("  /set temperature <float>    set sampling temperature"@),
            output::status("  /set max-output-tokens <n>  set the generation budget"@),
            output::status("  /show                       show current settings"@),
            output::status("  /bye                        exit (also Ctrl-D)"@),
            output::status("note: turns are independent — no conversation memory yet"@),
        ],
{
    let mut out = Printed::new();
    out.status(text::owned("commands:"));
    out.status(text::owned("  /set system <text>          set the system prompt"));
    out.status(text::owned("  /set temperature <float>    set sampling temperature"));
    out.status(text::owned("  /set max-output-tokens <n>  set the generation budget"));
    out.status(text::owned("  /show                       show current settings"));
    out.status(text::owned("  /bye                        exit (also Ctrl-D)"));
    out.status(text::owned("note: turns are independent — no conversation memory yet"));
    out
}

/// The settings of the prompt; `temperature` is the temperature as text.
pub fn repl_settings(model_id: &str, params: &RunParams, temperature: &str) -> (out: Printed)
    ensures
        out@ == seq![
            output::status("model              "@ + model_id@),
            output::status(
                "system-prompt      "@ + (if params.system_prompt@.len() == 0 {
                    "(none)"@
                } else {
                    params.system_prompt@
                }),
            ),
            output::status(
                "temperature        "@ + (if engine::is_positive(params.temperature) {
                    temperature@
                } else {
                    "(engine default)"@
                }),
            ),
            output::status("max-output-tokens  "@ + text::dec(params.max_output_tokens as int)),
            output::status("reasoning          "@ + params.reasoning@),
        ],
{
    let mut out = Printed::new();
    out.status(text::cat2("model              ", model_id));
    out.status(
        text::cat2(
            "system-prompt      ",
            if params.system_prompt.as_str().is_empty() { "(none)" } else { params.system_prompt.as_str() },
        ),
    );
    out.status(
        text::cat2(
            "temperature        ",
            if 0 < params.temperature && params.temperature <= 0x7F80_0000 { temperature } else { "(engine default)" },
        ),
    );
    out.status(text::cat2("max-output-tokens  ", text::dec_i64(params.max_output_tokens as i64).as_str()));
    out.status(text::cat2("reasoning          ", params.reasoning.as_str()));
    out
}

/// The line above the interactive prompt.
pub fn repl_greeting(model_id: &str) -> (r: String)
    ensures
        r@ == "loaded "@ + model_id@ + " — type a prompt, /? for help, /bye to exit"@,
{
    text::cat3("loaded ", model_id, " — type a prompt, /? for help, /bye to exit")
}

/// Where the lines that were typed are kept; empty where they are not.
pub fn history_path(kept: bool, state_dir: &str) -> (r: String)
    ensures
        r@ == if kept {
            state_dir@ + "/history"@
        } else {
            Seq::empty()
        },
{
    if kept {
        text::cat2(state_dir, "/history")
    } else {
        String::new()
    }
}

/// What is done after a line was read.
#[derive(Debug)]
pub enum ReplStep {
    /// Show the help.
    Help,
    /// Show the settings.
    Settings,
    /// Say something.
    Say(String),
    /// Answer the line as a prompt.
    Answer,
    /// Nothing.
    Again,
    Leave,
}

/// The settings after a command, where a temperature that was typed is read as
/// `temperature`.
pub open spec fn settings_after(params: RunParams, c: ReplCommand, temperature: u32, r: RunParams) -> bool {
    &&& r == (RunParams {
        system_prompt: r.system_prompt,
        temperature: if c is SetTemperature {
            temperature
        } else {
            params.temperature
        },
        max_output_tokens: match c {
            ReplCommand::SetMaxOutputTokens(n) => n,
            _ => params.max_output_tokens,
        },
        ..params
    })
    &&& r.system_prompt@ == match c {
        ReplCommand::SetSystem(value) => value@,
        _ => params.system_prompt@,
    }
}

/// Whether that is what is done after a command.
pub open spec fn is_step(c: ReplCommand, step: ReplStep) -> bool {
    match c {
        ReplCommand::Nothing => step is Again,
        ReplCommand::Leave => step is Leave,
        ReplCommand::Help => step is Help,
        ReplCommand::Show => step is Settings,
        ReplCommand::SetSystem(_) => step matches ReplStep::Say(s) && s@ == "system prompt set"@,
        ReplCommand::SetTemperature(_) => step matches ReplStep::Say(s) && s@ == "temperature set"@,
        ReplCommand::SetMaxOutputTokens(_) => step matches ReplStep::Say(s) && s@ == "max-output-tokens set"@,
        ReplCommand::UnknownSetting => step matches ReplStep::Say(s) && s@
            == "unknown /set option (system | temperature | max-output-tokens)"@,
        ReplCommand::Unknown => step matches ReplStep::Say(s) && s@ == "unknown command — /? for help"@,
        ReplCommand::Prompt => step is Answer,
    }
}

/// One line typed at the prompt: the settings after it and what is done.
/// `temperature` is the number that a temperature in it is read as.
pub fn run_repl(params: RunParams, line: &str, temperature: u32) -> (r: (RunParams, ReplStep))
    ensures
        exists|c: ReplCommand|
            #![trigger is_command(line@, c)]
            is_command(line@, c) && settings_after(params, c, temperature, r.0) && is_step(c, r.1),
{
    let c = repl_command(line);
    let said = repl_reply(&c);
    let mut params = params;
    let ghost before = params;
    let step = match said {
        Some(s) => ReplStep::Say(s),
        None => match &c {
            ReplCommand::Leave => ReplStep::Leave,
            ReplCommand::Help => ReplStep::Help,
            ReplCommand::Show => ReplStep::Settings,
            ReplCommand::Prompt => ReplStep::Answer,
            _ => ReplStep::Again,
        },
    };
    match &c {
        ReplCommand::SetSystem(value) => {
            params.system_prompt = text::owned(value.as_str());
        },
        ReplCommand::SetTemperature(_) => {
            params.temperature = temperature;
        },
        ReplCommand::SetMaxOutputTokens(n) => {
            params.max_output_tokens = *n;
        },
        _ => {},
    }
    assert(settings_after(before, c, temperature, params));
    (params, step)
}

/// Whether the prompt goes on after an answer that ended with `code`: an error
/// ends it, a cancel does not.
pub fn repl_goes_on(code: i32) -> (r: bool)
    ensures
        r == (code != 1),
{
    code != 1
}

/// What a loaded model is put to.
#[derive(Clone, Copy, Debug, PartialEq, Eq, Structural)]
pub enum LlmRoute {
    Vision,
    Generate,
    Stream,
    Interactive,
    NoPrompt,
}

/// How a prompt is answered: an image goes to the vision model; a prompt is
/// generated or streamed; without one only a chat opens the interactive prompt,
/// and never where one JSON document is promised.
pub fn llm_route(verb: LlmVerb, is_vlm: bool, has_prompt: bool, json: bool) -> (r: LlmRoute)
    ensures
        r == if is_vlm {
            LlmRoute::Vision
        } else if has_prompt {
            if verb == LlmVerb::Generate {
                LlmRoute::Generate
            } else {
                LlmRoute::Stream
            }
        } else if verb == LlmVerb::Chat && !json {
            LlmRoute::Interactive
        } else {
            LlmRoute::NoPrompt
        },
{
    if is_vlm {
        return LlmRoute::Vision;
    }
    if has_prompt {
        return if verb == LlmVerb::Generate { LlmRoute::Generate } else { LlmRoute::Stream };
    }
    if verb == LlmVerb::Chat && !json {
        return LlmRoute::Interactive;
    }
    LlmRoute::NoPrompt
}

/// Why a run cannot start, if it cannot: without a model there is nothing to
/// run.
pub fn missing_model(params: &RunParams) -> (r: Option<String>)
    ensures
        r is Some <==> params.model@.len() == 0,
        r is Some ==> r->0@ == "--model is required (a catalog id, alias, hf.co/... ref or URL)"@,
{
    if params.model.as_str().is_empty() {
        Some(text::owned("--model is required (a catalog id, alias, hf.co/... ref or URL)"))
    } else {
        None
    }
}

/// How the model reference of a run is resolved: an image asks for a model that
/// sees. What is wrong with the engine that was named is a usage error.
pub fn run_hint(params: &RunParams, kit: Kit) -> (r: Result<EngineHintResolution, String>)
    ensures
        match engine_options::engine_hint(params.engine@, kit) {
            Ok(f) => r == Ok::<EngineHintResolution, String>(
                if params.image@.len() > 0 {
                    engine_options::of_category(engine_options::resolution(f), ModelCategory::Multimodal)
                } else {
                    engine_options::resolution(f)
                },
            ),
            Err(message) => r is Err && r->Err_0@ == message,
        },
{
    match engine_options::resolve_engine_hint(params.engine.as_str(), kit) {
        Ok(hint) => if params.image.as_str().is_empty() {
            Ok(hint)
        } else {
            Ok(hint.for_category(ModelCategory::Multimodal))
        },
        Err(message) => Err(message),
    }
}

/// Whether the prompt is read from standard input: where none was given and
/// something is piped in.
pub fn reads_prompt(prompt: &str, stdin_is_tty: bool) -> (r: bool)
    ensures
        r == (prompt@.len() == 0 && !stdin_is_tty),
{
    prompt.is_empty() && !stdin_is_tty
}

/// Where a run stands, that is, what is done next.
#[derive(Clone, Copy, Debug, PartialEq, Eq, Structural)]
pub enum LlmStage {
    /// The engine is started.
    Start,
    /// A model and an engine are asked for in a way that can be understood.
    Usage,
    /// The model reference is resolved.
    Resolve,
    /// The model is loaded.
    Load,
    /// The adapter is attached.
    Attach,
    /// The prompt is read where it is piped in.
    Prompt,
    /// The model is put to work.
    Answer(LlmRoute),
    /// It is over, with this exit code.
    Finished(i32),
}

/// What a run is about.
#[derive(Clone, Copy, Debug, PartialEq, Eq, Structural)]
pub struct LlmRun {
    pub verb: LlmVerb,
    pub has_image: bool,
    pub has_adapter: bool,
    pub has_prompt: bool,
    pub json: bool,
}

/// How a prompt is answered; see [`llm_route`].
pub open spec fn route_of(run: LlmRun) -> LlmRoute {
    if run.has_image {
        LlmRoute::Vision
    } else if run.has_prompt {
        if run.verb == LlmVerb::Generate {
            LlmRoute::Generate
        } else {
            LlmRoute::Stream
        }
    } else if run.verb == LlmVerb::Chat && !run.json {
        LlmRoute::Interactive
    } else {
        LlmRoute::NoPrompt
    }
}

/// What comes after a step: what the command line got wrong ends it with code
/// two, what failed with one, and an answer with its own `code`.
pub open spec fn llm_after(run: LlmRun, stage: LlmStage, ok: bool, code: i32) -> LlmStage {
    match stage {
        LlmStage::Start => if ok {
            LlmStage::Usage
        } else {
            LlmStage::Finished(1)
        },
        LlmStage::Usage => if ok {
            LlmStage::Resolve
        } else {
            LlmStage::Finished(2)
        },
        LlmStage::Resolve => if ok {
            LlmStage::Load
        } else {
            LlmStage::Finished(1)
        },
        LlmStage::Load => if !ok {
            LlmStage::Finished(1)
        } else if run.has_adapter {
            LlmStage::Attach
        } else {
            LlmStage::Prompt
        },
        LlmStage::Attach => if ok {
            LlmStage::Prompt
        } else {
            LlmStage::Finished(1)
        },
        LlmStage::Prompt => if route_of(run) == LlmRoute::NoPrompt {
            LlmStage::Finished(2)
        } else {
            LlmStage::Answer(route_of(run))
        },
        LlmStage::Answer(_) => LlmStage::Finished(code),
        LlmStage::Finished(c) => LlmStage::Finished(c),
    }
}

/// See [`llm_after`].
pub fn run_llm(run: LlmRun, stage: LlmStage, ok: bool, code: i32) -> (r: LlmStage)
    ensures
        r == llm_after(run, stage, ok, code),
{
    match stage {
        LlmStage::Start => if ok {
            LlmStage::Usage
        } else {
            LlmStage::Finished(1)
        },
        LlmStage::Usage => if ok {
            LlmStage::Resolve
        } else {
            LlmStage::Finished(2)
        },
        LlmStage::Resolve => if ok {
            LlmStage::Load
        } else {
            LlmStage::Finished(1)
        },
        LlmStage::Load => if !ok {
            LlmStage::Finished(1)
        } else if run.has_adapter {
            LlmStage::Attach
        } else {
            LlmStage::Prompt
        },
        LlmStage::Attach => if ok {
            LlmStage::Prompt
        } else {
            LlmStage::Finished(1)
        },
        LlmStage::Prompt => match llm_route(run.verb, run.has_image, run.has_prompt, run.json) {
            LlmRoute::NoPrompt => LlmStage::Finished(2),
            route => LlmStage::Answer(route),
        },
        LlmStage::Answer(_) => LlmStage::Finished(code),
        LlmStage::Finished(c) => LlmStage::Finished(c),
    }
}

/// What is said when there is nothing to answer.
pub fn no_prompt_given() -> (r: String)
    ensures
        r@ == "no prompt given"@,
{
    text::owned("no prompt given")
}

/// A run in which every call succeeds ends with the code of the answer, or with
/// two where there was nothing to answer; `--json` never opens the interactive
/// prompt.
pub proof fn a_run_answers_or_says_why(run: LlmRun, code: i32)
    ensures
        ({
            let loaded = llm_after(
                run,
                llm_after(run, llm_after(run, LlmStage::Start, true, 0), true, 0),
                true,
                0,
            );
            let attached = llm_after(run, loaded, true, 0);
            let ready = if run.has_adapter {
                llm_after(run, attached, true, 0)
            } else {
                attached
            };
            let answering = llm_after(run, ready, true, 0);
            &&& loaded is Load
            &&& ready is Prompt
            &&& route_of(run) == LlmRoute::NoPrompt ==> answering == LlmStage::Finished(2)
            &&& route_of(run) != LlmRoute::NoPrompt ==> llm_after(run, answering, true, code) == LlmStage::Finished(code)
            &&& run.json ==> route_of(run) != LlmRoute::Interactive
        }),
{
}

/// What was asked for is what the engine is told, each setting under its own name:
/// one that was left alone is left to the engine, a switched-off reasoning is
/// never shown.
pub proof fn options_are_sent_as_given(params: RunParams, r: LlmGenerationOptions)
    requires
        are_generation_options(params, r),
    ensures
        r.max_output_tokens == Some(params.max_output_tokens),
        0 < params.temperature <= 0x7F80_0000 ==> r.temperature == Some(params.temperature),
        params.temperature == 0 ==> r.temperature is None,
        0 < params.top_p <= 0x7F80_0000 ==> r.top_p == Some(params.top_p),
        params.top_p == 0 ==> r.top_p is None,
        0 < params.min_p <= 0x7F80_0000 ==> r.min_p == Some(params.min_p),
        params.min_p == 0 ==> r.min_p is None,
        0 < params.repetition_penalty <= 0x7F80_0000 ==> r.repeat_penalty == Some(params.repetition_penalty),
        params.repetition_penalty == 0 ==> r.repeat_penalty is None,
        params.frequency_penalty != 0 && params.frequency_penalty != 0x8000_0000 ==> r.frequency_penalty == Some(
            params.frequency_penalty,
        ),
        params.frequency_penalty == 0 ==> r.frequency_penalty is None,
        params.presence_penalty != 0 && params.presence_penalty != 0x8000_0000 ==> r.presence_penalty == Some(
            params.presence_penalty,
        ),
        params.presence_penalty == 0 ==> r.presence_penalty is None,
        params.top_k > 0 ==> r.top_k == Some(params.top_k),
        params.top_k <= 0 ==> r.top_k is None,
        params.seed >= 0 ==> r.seed == Some(params.seed),
        params.seed < 0 ==> r.seed is None,
        r.stop_sequences@.len() == params.stop_sequences@.len(),
        forall|i: int|
            0 <= i < params.stop_sequences@.len() ==> (#[trigger] r.stop_sequences@[i])@ == params.stop_sequences@[i]@,
        params.system_prompt@.len() > 0 ==> r.system_prompt is Some && r.system_prompt->0@ == params.system_prompt@,
        params.system_prompt@.len() == 0 ==> r.system_prompt is None,
        r.reasoning.off <==> params.reasoning@ == "off"@,
        r.reasoning.include_in_output ==> params.show_thinking && !r.reasoning.off,
        params.show_thinking && !r.reasoning.off ==> r.reasoning.include_in_output,
{
    assert(output::strings_view(r.stop_sequences@).len() == output::strings_view(params.stop_sequences@).len());
    assert forall|i: int| 0 <= i < params.stop_sequences@.len() implies (#[trigger] r.stop_sequences@[i])@
        == params.stop_sequences@[i]@ by {
        assert(output::strings_view(r.stop_sequences@)[i] == output::strings_view(params.stop_sequences@)[i]);
    }
}

/// A piped prompt loses the line breaks at its end, all of them and nothing else.
pub proof fn a_piped_prompt_loses_only_its_end(s: Seq<char>)
    ensures
        ({
            let r = without_line_end(s);
            &&& r.len() <= s.len()
            &&& r == s.take(r.len() as int)
            &&& forall|i: int| r.len() <= i < s.len() ==> #[trigger] s[i] == '\n' || s[i] == '\r'
            &&& r.len() > 0 ==> r.last() != '\n' && r.last() != '\r'
        }),
    decreases s.len(),
{
    let r = without_line_end(s);
    if s.len() > 0 && (s.last() == '\n' || s.last() == '\r') {
        let rest = s.drop_last();
        a_piped_prompt_loses_only_its_end(rest);
        assert(r =~= s.take(r.len() as int));
        assert forall|i: int| r.len() <= i < s.len() implies #[trigger] s[i] == '\n' || s[i] == '\r' by {
            if i < s.len() - 1 {
                assert(rest[i] == s[i]);
            }
        }
    } else {
        assert(r =~= s.take(r.len() as int));
    }
}

/// The digits of a number are all there is to count in front of something else.
proof fn digits_are_counted(s: Seq<char>, i: int, n: int)
    requires
        0 <= i,
        0 <= n,
        i + n <= s.len(),
        forall|j: int| i <= j < i + n ==> '0' <= #[trigger] s[j] && s[j] <= '9',
        i + n < s.len() ==> !('0' <= s[i + n] && s[i + n] <= '9'),
    ensures
        digits_at(s, i) == n,
    decreases n,
{
    if n > 0 {
        assert('0' <= s[i] && s[i] <= '9');
        digits_are_counted(s, i + 1, n - 1);
    }
}

proof fn digits_are_read(s: Seq<char>, i: int, digits: Seq<char>, n: int)
    requires
        0 <= i,
        0 <= n <= digits.len(),
        i + digits.len() <= s.len(),
        forall|j: int| 0 <= j < digits.len() ==> s[i + j] == #[trigger] digits[j],
    ensures
        digits_number(s, i, n) == text::digits_value(digits.take(n)),
    decreases n,
{
    reveal_with_fuel(text::digits_value, 2);
    if n > 0 {
        digits_are_read(s, i, digits, n - 1);
        assert(digits.take(n).drop_last() =~= digits.take(n - 1));
        assert(digits.take(n).last() == digits[n - 1]);
    } else {
        assert(digits.take(0) =~= Seq::empty());
    }
}

/// A number that is written out is read back, behind any white space and before
/// anything that is no digit.
pub proof fn a_leading_number_is_read(blank: Seq<char>, n: int, rest: Seq<char>)
    requires
        i32::MIN <= n <= i32::MAX,
        forall|i: int| 0 <= i < blank.len() ==> text::is_space(#[trigger] blank[i]),
        rest.len() > 0 ==> !('0' <= rest[0] && rest[0] <= '9'),
    ensures
        leading_integer(blank + text::dec(n) + rest) == n,
{
    let whole = blank + text::dec(n) + rest;
    let s = text::dec(n) + rest;
    a_number_is_read_at_the_start(n, rest);
    assert(whole =~= blank + s);
    white_space_is_counted(whole, blank, s);
    assert(text::trim_start(whole) =~= s);
}

/// A text that starts with a sign or a digit has no white space in front.
proof fn nothing_is_trimmed(s: Seq<char>)
    requires
        s.len() > 0,
        s[0] == '-' || ('0' <= s[0] && s[0] <= '9'),
    ensures
        !text::is_space(s[0]),
        text::trim_start(s) == s,
{
    assert(text::leading_space(s) == 0);
    assert(text::trim_start(s) =~= s);
}

/// See [`a_leading_number_is_read`]; here nothing stands before it.
#[verifier::rlimit(40)]
proof fn a_number_is_read_at_the_start(n: int, rest: Seq<char>)
    requires
        i32::MIN <= n <= i32::MAX,
        rest.len() > 0 ==> !('0' <= rest[0] && rest[0] <= '9'),
    ensures
        !text::is_space((text::dec(n) + rest)[0]),
        (text::dec(n) + rest).len() > 0,
        text::trim_start(text::dec(n) + rest) == text::dec(n) + rest,
        leading_integer(text::dec(n) + rest) == n,
{
    let size = if n < 0 {
        -n
    } else {
        n
    };
    let digits = text::dec_nat(size as nat);
    text::digits_write_their_value(size as nat);
    let s = text::dec(n) + rest;
    let at: int = if n < 0 {
        1
    } else {
        0
    };
    let count = digits.len() as int;
    assert('0' <= digits[0] && digits[0] <= '9');
    assert forall|j: int| 0 <= j < count implies s[at + j] == #[trigger] digits[j] by {}
    assert(s[at] == digits[0]);
    assert(n < 0 ==> s[0] == '-');
    nothing_is_trimmed(s);
    assert(has_sign(s) <==> n < 0);
    assert(digits_at(s, at) == count) by {
        assert forall|j: int| at <= j < at + count implies '0' <= #[trigger] s[j] && s[j] <= '9' by {
            assert(s[j] == digits[j - at]);
        }
        if at + count < s.len() {
            assert(s[at + count] == rest[0]);
        }
        digits_are_counted(s, at, count);
    }
    assert(digits_number(s, at, count) == size) by {
        digits_are_read(s, at, digits, count);
        assert(digits.take(count) =~= digits);
    }
}

proof fn white_space_is_counted(whole: Seq<char>, blank: Seq<char>, s: Seq<char>)
    requires
        whole =~= blank + s,
        s.len() > 0,
        !text::is_space(s[0]),
        forall|i: int| 0 <= i < blank.len() ==> text::is_space(#[trigger] blank[i]),
    ensures
        text::leading_space(whole) == blank.len(),
    decreases blank.len(),
{
    if blank.len() > 0 {
        assert(whole[0] == blank[0]);
        let fewer = blank.skip(1);
        assert forall|i: int| 0 <= i < fewer.len() implies text::is_space(#[trigger] fewer[i]) by {
            assert(fewer[i] == blank[i + 1]);
        }
        white_space_is_counted(whole.skip(1), fewer, s);
    } else {
        assert(whole[0] == s[0]);
    }
}

/// What is taken for a number is the start of the text behind its white space, and
/// has a digit in it; nothing that starts with a digit is passed over.
pub proof fn a_leading_decimal_is_a_start(text: Seq<char>)
    ensures
        ({
            let s = text::trim_start(text);
            match leading_decimal(text) {
                Some(number) => number.len() <= s.len() && number == s.take(number.len() as int) && exists|i: int|
                    0 <= i < number.len() && '0' <= #[trigger] number[i] && number[i] <= '9',
                None => s.len() == 0 || !('0' <= s[0] && s[0] <= '9'),
            }
        }),
{
    let s = text::trim_start(text);
    let at = if has_sign(s) {
        1int
    } else {
        0int
    };
    digits_end_in_the_text(s, at);
    let whole = digits_at(s, at);
    let point = at + whole;
    digits_end_in_the_text(s, point + 1);
    let (end, has) = mantissa(s);
    digits_end_in_the_text(s, end + 1);
    digits_end_in_the_text(s, end + 2);
    assert(exponent_end(s, end) >= end);
    if has {
        let number = leading_decimal(text)->0;
        assert(number =~= s.take(number.len() as int));
        if whole > 0 {
            assert(number[at] == s[at]);
        } else {
            assert(number[point + 1] == s[point + 1]);
        }
    }
}

proof fn digits_end_in_the_text(s: Seq<char>, i: int)
    ensures
        digits_at(s, i) >= 0,
        0 <= i <= s.len() ==> i + digits_at(s, i) <= s.len(),
        digits_at(s, i) > 0 ==> 0 <= i < s.len() && '0' <= s[i] && s[i] <= '9',
    decreases s.len() - i,
{
    if 0 <= i < s.len() && is_digit(s[i]) {
        digits_end_in_the_text(s, i + 1);
    }
}

/// In a chat each setting is changed under its own name, by the text behind it,
/// and only by it: a line that starts with no slash is a prompt, whatever it says.
pub proof fn a_chat_sets_what_it_names(value: Seq<char>, c: ReplCommand)
    ensures
        is_command("/set system "@ + value, c) ==> c is SetSystem && c->SetSystem_0@ == value,
        is_command("/set temperature "@ + value, c) ==> c is SetTemperature && c->SetTemperature_0@ == value,
        is_command("/set temp "@ + value, c) ==> c is SetTemperature && c->SetTemperature_0@ == value,
        is_command("/set max-output-tokens "@ + value, c) ==> c is SetMaxOutputTokens && c->SetMaxOutputTokens_0
            == leading_integer(value) as i32,
        is_command("/set max-tokens "@ + value, c) ==> c is SetMaxOutputTokens && c->SetMaxOutputTokens_0
            == leading_integer(value) as i32,
        value.len() > 0 && value[0] != '/' && is_command(value, c) ==> c is Prompt,
{
    reveal_strlit("/bye");
    reveal_strlit("/exit");
    reveal_strlit("/quit");
    reveal_strlit("/?");
    reveal_strlit("/help");
    reveal_strlit("/show");
    reveal_strlit("/set ");
    reveal_strlit("system ");
    reveal_strlit("temperature ");
    reveal_strlit("temp ");
    reveal_strlit("max-output-tokens ");
    reveal_strlit("max-tokens ");
    reveal_strlit("/set system ");
    reveal_strlit("/set temperature ");
    reveal_strlit("/set temp ");
    reveal_strlit("/set max-output-tokens ");
    reveal_strlit("/set max-tokens ");
    a_set_line_is_taken_apart("system "@, "/set system "@, value);
    a_set_line_is_taken_apart("temperature "@, "/set temperature "@, value);
    a_set_line_is_taken_apart("temp "@, "/set temp "@, value);
    a_set_line_is_taken_apart("max-output-tokens "@, "/set max-output-tokens "@, value);
    a_set_line_is_taken_apart("max-tokens "@, "/set max-tokens "@, value);
    let t = "temperature "@ + value;
    assert(!text::starts_with(t, "system "@)) by {
        if text::starts_with(t, "system "@) {
            assert(t.take(7)[0] == "system "@[0]);
        }
    }
    let p = "temp "@ + value;
    assert(!text::starts_with(p, "system "@)) by {
        if text::starts_with(p, "system "@) {
            assert(p.take(7)[0] == "system "@[0]);
        }
    }
    assert(!text::starts_with(p, "temperature "@)) by {
        if text::starts_with(p, "temperature "@) {
            assert(p.take(12)[4] == "temperature "@[4]);
        }
    }
    let m = "max-output-tokens "@ + value;
    let x = "max-tokens "@ + value;
    assert forall|line: Seq<char>, word: Seq<char>|
        line.len() > 0 && line[0] == 'm' && word.len() > 0 && word[0] != 'm' implies !#[trigger] text::starts_with(
        line,
        word,
    ) by {
        if text::starts_with(line, word) {
            assert(line.take(word.len() as int)[0] == word[0]);
        }
    }
    assert(!text::starts_with(x, "max-output-tokens "@)) by {
        if text::starts_with(x, "max-output-tokens "@) {
            assert(x.take(18)[4] == "max-output-tokens "@[4]);
        }
    }
    assert(m[0] == 'm' && x[0] == 'm');
    assert("system "@[0] == 's' && "temperature "@[0] == 't' && "temp "@[0] == 't');
    if value.len() > 0 && value[0] != '/' {
        assert(!text::starts_with(value, "/set "@)) by {
            if text::starts_with(value, "/set "@) {
                assert(value.take(5)[0] == "/set "@[0]);
            }
        }
    }
}

/// A line that sets something is the words for it and what is set.
proof fn a_set_line_is_taken_apart(word: Seq<char>, words: Seq<char>, value: Seq<char>)
    requires
        words =~= "/set "@ + word,
        word.len() >= 5,
    ensures
        text::starts_with(words + value, "/set "@),
        (words + value).skip("/set "@.len() as int) == word + value,
        text::starts_with(word + value, word),
        (word + value).skip(word.len() as int) == value,
        words + value != "/bye"@ && words + value != "/exit"@ && words + value != "/quit"@ && words + value != "/?"@
            && words + value != "/help"@ && words + value != "/show"@,
        (words + value).len() > 0,
{
    reveal_strlit("/bye");
    reveal_strlit("/exit");
    reveal_strlit("/quit");
    reveal_strlit("/?");
    reveal_strlit("/help");
    reveal_strlit("/show");
    reveal_strlit("/set ");
    let line = words + value;
    assert(line.take("/set "@.len() as int) =~= "/set "@);
    assert(line.skip("/set "@.len() as int) =~= word + value);
    assert((word + value).take(word.len() as int) =~= word);
    assert((word + value).skip(word.len() as int) =~= value);
}

/// A generation is written under its own names: under `model` the one that
/// answered, where that is known.
pub proof fn a_generation_is_written_under_its_names(model_id: Seq<char>, result: LlmGenerationResult, seen: VlmResult)
    ensures
        ({
            let ops = generation_document(model_id, result);
            &&& result.model_used@.len() > 0 ==> ops.contains(output::field_str("model"@, result.model_used@))
            &&& result.model_used@.len() == 0 ==> ops.contains(output::field_str("model"@, model_id))
            &&& ops.contains(output::field_str("response"@, result.text@))
            &&& result.thinking_content is Some ==> ops.contains(
                output::field_str("thinking"@, result.thinking_content->0@),
            )
            &&& ops.contains(output::field_str("finish_reason"@, result.finish_reason@))
            &&& ops.contains(output::field_i64("input_tokens"@, result.usage.input_tokens as int))
            &&& ops.contains(output::field_i64("output_tokens"@, result.usage.output_tokens as int))
            &&& ops.contains(output::field_f64("tokens_per_second"@, result.usage.tokens_per_second as int))
            &&& ops.contains(output::field_i64("total_ms"@, result.generation_time_ms as int))
        }),
        ({
            let ops = vlm_document(model_id, seen);
            &&& ops.contains(output::field_str("model"@, model_id))
            &&& ops.contains(output::field_str("response"@, seen.text@))
            &&& ops.contains(output::field_i64("total_ms"@, seen.total_time_ms as int))
            &&& ops.contains(output::field_f64("tokens_per_second"@, seen.usage.tokens_per_second as int))
        }),
{
    let ops = generation_document(model_id, result);
    assert(ops[1].1 == "model"@);
    assert(ops[2] == output::field_str("response"@, result.text@));
    assert(ops[3] == output::field_str("thinking"@, given_text(result.thinking_content)));
    assert(ops[4] == output::field_str("finish_reason"@, result.finish_reason@));
    assert(ops[5] == output::field_i64("input_tokens"@, result.usage.input_tokens as int));
    assert(ops[6] == output::field_i64("output_tokens"@, result.usage.output_tokens as int));
    assert(ops[7] == output::field_f64("tokens_per_second"@, result.usage.tokens_per_second as int));
    assert(ops[8] == output::field_i64("total_ms"@, result.generation_time_ms as int));
    let vops = vlm_document(model_id, seen);
    assert(vops[1] == output::field_str("model"@, model_id));
    assert(vops[2] == output::field_str("response"@, seen.text@));
    assert(vops[3] == output::field_i64("total_ms"@, seen.total_time_ms as int));
    assert(vops[4] == output::field_f64("tokens_per_second"@, seen.usage.tokens_per_second as int));
}

/// The text of a generation is the one result that is printed, as it came. What
/// else is printed is status: the thoughts before it, where they are asked for and
/// there are any, and its speed behind it where a run is verbose.
pub proof fn a_generation_prints_its_text(
    options: GlobalOptions,
    params: RunParams,
    result: LlmGenerationResult,
    speed: Seq<char>,
)
    ensures
        ({
            let lines = generation_shown(options, params, result, false, speed);
            let thought = params.show_thinking && params.reasoning@ != "off"@ && !options.quiet
                && result.thinking_content is Some && result.thinking_content->0@.len() > 0;
            let at: int = if thought {
                1
            } else {
                0
            };
            &&& lines.len() == at + 1 + (if options.verbose {
                1int
            } else {
                0
            })
            &&& lines[at] == (output::Channel::Result, result.text@)
            &&& thought ==> lines[0] == (output::Channel::Status, result.thinking_content->0@)
            &&& options.verbose ==> lines[at + 1] == (
                output::Channel::Status,
                "("@ + text::dec(result.generation_time_ms as int) + " ms, "@ + speed + " tok/s)"@,
            )
        }),
{
    let thinking = given_text(result.thinking_content);
    assert(dim(false) + thinking + Seq::<char>::empty() =~= thinking);
}

/// A stream that ends owes a line break exactly where something was printed and
/// its last character is none.
pub proof fn a_line_break_is_owed_once(g: GenView, json: bool)
    ensures
        json ==> !owes_newline(g, json),
        g.answer.len() == 0 ==> !owes_newline(g, json),
        g.answer.len() > 0 && !json ==> owes_newline(g, json) == (g.answer[g.answer.len() - 1] != '\n'),
{
}

/// A model counts as loaded only where the engine says so and reports no error,
/// and then from the path it names.
pub proof fn a_load_is_believed_only_whole(rc: i32, result: ModelLoadResult, message: String)
    ensures
        load_outcome(rc, Ok::<ModelLoadResult, String>(result)) is Ok <==> rc == 0 && (result.error is None),
        load_outcome(rc, Ok::<ModelLoadResult, String>(result)) is Ok ==> load_outcome(
            rc,
            Ok::<ModelLoadResult, String>(result),
        )->Ok_0 == result.resolved_path@,
        load_outcome(rc, Err::<ModelLoadResult, String>(message)) == Err::<Seq<char>, Seq<char>>(
            "model load failed: "@ + message@,
        ),
{
}

/// What the command line said is what a run goes by, each setting under its own
/// name; `--no-think` switches reasoning off whatever else was said, and nothing
/// that was left out is set but for a budget of tokens and the strength of an
/// adapter.
pub proof fn a_run_goes_by_what_was_said(given: GivenRun, model_arg: ModelArg, r: RunParams)
    requires
        call_ensures(RunParams::from_parsed, (given, model_arg), r),
    ensures
        given.model_option is Some && model_arg == ModelArg::Option ==> r.model@ == given.model_option->0@,
        given.model_positional is Some && model_arg == ModelArg::Positional ==> r.model@ == given.model_positional->0@,
        given.image is Some ==> r.image@ == given.image->0@,
        given.system_prompt is Some ==> r.system_prompt@ == given.system_prompt->0@,
        given.engine is Some ==> r.engine@ == given.engine->0@,
        given.lora is Some ==> r.lora@ == given.lora->0@,
        given.lora_scale is Some ==> r.lora_scale == given.lora_scale->0,
        given.lora_scale is None ==> r.lora_scale == 0x3F80_0000,
        given.temperature is Some ==> r.temperature == given.temperature->0,
        given.temperature is None ==> r.temperature == 0,
        given.top_p is Some ==> r.top_p == given.top_p->0,
        given.min_p is Some ==> r.min_p == given.min_p->0,
        given.repetition_penalty is Some ==> r.repetition_penalty == given.repetition_penalty->0,
        given.frequency_penalty is Some ==> r.frequency_penalty == given.frequency_penalty->0,
        given.presence_penalty is Some ==> r.presence_penalty == given.presence_penalty->0,
        given.top_k is Some ==> r.top_k == given.top_k->0,
        given.max_output_tokens is Some ==> r.max_output_tokens == given.max_output_tokens->0,
        given.max_output_tokens is None ==> r.max_output_tokens == 1024,
        given.seed is Some ==> r.seed == given.seed->0,
        given.seed is None ==> r.seed < 0,
        given.no_think ==> r.reasoning@ == "off"@,
        !given.no_think && given.reasoning is Some ==> r.reasoning@ == given.reasoning->0@,
        !given.no_think && given.reasoning is None ==> r.reasoning@ == "on"@,
        r.show_thinking == given.show_thinking,
        r.stop_sequences == given.stop_sequences,
{
}

/// A stream that failed says why, one that was cancelled says so, and one that
/// finished gives its whole answer in a document or is done; only the first two
/// end the command with something else than zero.
pub proof fn a_stream_ends_as_it_went(
    options: GlobalOptions,
    model_id: &str,
    data: GenStateData,
    elapsed_ms: i64,
    r: (bool, StreamEnd),
    code: i32,
)
    requires
        call_ensures(stream_outcome, (&options, model_id, &data, elapsed_ms), r),
        call_ensures(stream_exit_code, (&r.1,), code),
    ensures
        data.error@.len() > 0 ==> code == 1 && r.1 is Failed,
        data.error@.len() == 0 && data.cancelled ==> code == 130 && r.1 is Cancelled,
        data.error@.len() == 0 && !data.cancelled ==> code == 0,
        data.error@.len() == 0 && !data.cancelled && options.json ==> r.1 is Document && (
        r.1->Document_0)@.contains(output::field_str("response"@, data.answer@)) && (r.1->Document_0)@.contains(
            output::field_str("finish_reason"@, data.finish_reason@),
        ) && (r.1->Document_0)@.contains(output::field_i64("total_ms"@, elapsed_ms as int)),
        r.0 ==> !options.json && data.answer@.len() > 0 && data.answer@.last() != '\n',
        !options.json && data.answer@.len() > 0 && data.answer@.last() != '\n' ==> r.0,
{
    if r.1 is Document {
        let ops = (r.1->Document_0)@;
        assert(ops[2] == output::field_str("response"@, data.answer@));
        assert(ops[3] == output::field_str("finish_reason"@, data.finish_reason@));
        assert(ops[4] == output::field_i64("total_ms"@, elapsed_ms as int));
    }
}

/// A line of a chat changes at most one setting, and only the one it names; a prompt
/// is answered, and leaving leaves.
pub proof fn a_line_changes_at_most_one_setting(
    params: RunParams,
    c: ReplCommand,
    temperature: u32,
    r: RunParams,
    step: ReplStep,
)
    requires
        settings_after(params, c, temperature, r),
        is_step(c, step),
    ensures
        c is SetSystem ==> r.system_prompt@ == c->SetSystem_0@,
        !(c is SetSystem) ==> r.system_prompt@ == params.system_prompt@,
        c is SetTemperature ==> r.temperature == temperature,
        !(c is SetTemperature) ==> r.temperature == params.temperature,
        c is SetMaxOutputTokens ==> r.max_output_tokens == c->SetMaxOutputTokens_0,
        !(c is SetMaxOutputTokens) ==> r.max_output_tokens == params.max_output_tokens,
        r.model == params.model && r.reasoning == params.reasoning && r.seed == params.seed && r.top_p == params.top_p
            && r.top_k == params.top_k && r.min_p == params.min_p && r.show_thinking == params.show_thinking,
        step is Answer <==> c is Prompt,
        step is Leave <==> c is Leave,
        step is Help <==> c is Help,
        step is Settings <==> c is Show,
        step is Again <==> c is Nothing,
        c is SetSystem ==> step is Say && step->Say_0@ == "system prompt set"@,
        c is SetTemperature ==> step is Say && step->Say_0@ == "temperature set"@,
        c is SetMaxOutputTokens ==> step is Say && step->Say_0@ == "max-output-tokens set"@,
{
}

/// A chat is left by its three words, helped by its two, and shown by its one.
pub proof fn a_chat_knows_its_words(c: ReplCommand, line: Seq<char>)
    ensures
        is_command("/bye"@, c) || is_command("/exit"@, c) || is_command("/quit"@, c) ==> c is Leave,
        is_command("/?"@, c) || is_command("/help"@, c) ==> c is Help,
        is_command("/show"@, c) ==> c is Show,
        line.len() == 0 && is_command(line, c) ==> c is Nothing,
        line.len() > 0 && line[0] == '/' && is_command(line, c) ==> !(c is Prompt) && !(c is Nothing),
{
    reveal_strlit("/bye");
    reveal_strlit("/exit");
    reveal_strlit("/quit");
    reveal_strlit("/?");
    reveal_strlit("/help");
    reveal_strlit("/show");
    assert("/help"@[1] == 'h' && "/show"@[1] == 's' && "/exit"@[1] == 'e' && "/quit"@[1] == 'q');
    assert("/?"@.len() == 2 && "/bye"@.len() == 4);
}

/// An adapter is applied only where the call worked and reports no error; else the
/// reason is the report's, or the code of the call.
pub proof fn an_adapter_is_applied_only_whole(error: Option<SdkError>, rc: i32)
    ensures
        lora_outcome(error, rc) is Ok <==> rc == 0 && error is None,
        error is Some && error->0.message@.len() > 0 ==> lora_outcome(error, rc) == Err::<(), Seq<char>>(
            error->0.message@,
        ),
        rc != 0 && error is None ==> lora_outcome(error, rc) == Err::<(), Seq<char>>(text::dec(rc as int)),
{
}

/// What is seen in an image is printed as it came, with its speed behind it where a
/// run is verbose; the end of a stream is told on the channel it belongs on.
pub proof fn an_end_is_told_on_its_channel(
    options: GlobalOptions,
    result: VlmResult,
    speed: Seq<char>,
    message: String,
    end: StreamEnd,
)
    ensures
        vlm_shown(options, result, speed)[0] == (output::Channel::Result, result.text@),
        vlm_shown(options, result, speed).len() == if options.verbose {
            2int
        } else {
            1
        },
        options.verbose ==> vlm_shown(options, result, speed)[1] == (
            output::Channel::Status,
            "("@ + text::dec(result.total_time_ms as int) + " ms, "@ + speed + " tok/s)"@,
        ),
        end_shown(StreamEnd::Failed(message)) == ReportView::Lines(seq![(output::Channel::Error, message@)]),
        end_shown(StreamEnd::Timed(message)) == ReportView::Lines(seq![(output::Channel::Status, message@)]),
        end is Cancelled ==> end_shown(end) == ReportView::Lines(seq![(output::Channel::Status, "(cancelled)"@)]),
        end is Document ==> end_shown(end) == ReportView::Document((end->Document_0)@),
        end is Quiet ==> end_shown(end) == ReportView::Lines(Seq::empty()),
{
}

/// A decimal that is written out is read whole: its digits, those behind its point
/// and those of its exponent, up to what is no digit any more.
pub proof fn a_written_decimal_is_read_whole(a: Seq<char>, b: Seq<char>, e: char, c: Seq<char>, rest: Seq<char>)
    requires
        a.len() > 0 && c.len() > 0,
        text::all_digits(a) && text::all_digits(b) && text::all_digits(c),
        e == 'e' || e == 'E',
        rest.len() > 0 ==> !('0' <= rest[0] && rest[0] <= '9'),
    ensures
        leading_decimal(a + seq!['.'] + b + seq![e] + c + rest) == Some(a + seq!['.'] + b + seq![e] + c),
{
    let number = a + seq!['.'] + b + seq![e] + c;
    let s = number + rest;
    let point = a.len() as int;
    let end = point + 1 + b.len();
    assert('0' <= a[0] && a[0] <= '9');
    assert(s[0] == a[0]);
    nothing_is_trimmed(s);
    assert(!has_sign(s));
    assert(digits_at(s, 0) == point) by {
        assert forall|j: int| 0 <= j < point implies '0' <= #[trigger] s[j] && s[j] <= '9' by {
            assert(s[j] == a[j]);
        }
        assert(s[point] == '.');
        digits_are_counted(s, 0, point);
    }
    assert(s[point] == '.');
    assert(digits_at(s, point + 1) == b.len()) by {
        assert forall|j: int| point + 1 <= j < end implies '0' <= #[trigger] s[j] && s[j] <= '9' by {
            assert(s[j] == b[j - point - 1]);
        }
        assert(s[end] == e);
        digits_are_counted(s, point + 1, b.len() as int);
    }
    assert(s[end] == e);
    assert(s[end + 1] == c[0]);
    assert('0' <= c[0] && c[0] <= '9');
    assert(digits_at(s, end + 1) == c.len()) by {
        assert forall|j: int| end + 1 <= j < end + 1 + c.len() implies '0' <= #[trigger] s[j] && s[j] <= '9' by {
            assert(s[j] == c[j - end - 1]);
        }
        if end + 1 + c.len() < s.len() {
            assert(s[end + 1 + c.len()] == rest[0]);
        }
        digits_are_counted(s, end + 1, c.len() as int);
    }
    assert(mantissa(s) == (end, true));
    assert(exponent_end(s, end) == number.len());
    assert(s.take(number.len() as int) =~= number);
}

/// A whole number is read up to what is no part of a number.
pub proof fn a_whole_number_is_read_alone(a: Seq<char>, rest: Seq<char>)
    requires
        a.len() > 0,
        text::all_digits(a),
        rest.len() > 0 ==> !('0' <= rest[0] && rest[0] <= '9') && rest[0] != '.' && rest[0] != 'e' && rest[0] != 'E',
    ensures
        leading_decimal(a + rest) == Some(a),
{
    let s = a + rest;
    let point = a.len() as int;
    assert('0' <= a[0] && a[0] <= '9');
    assert(s[0] == a[0]);
    nothing_is_trimmed(s);
    assert(digits_at(s, 0) == point) by {
        assert forall|j: int| 0 <= j < point implies '0' <= #[trigger] s[j] && s[j] <= '9' by {
            assert(s[j] == a[j]);
        }
        if point < s.len() {
            assert(s[point] == rest[0]);
        }
        digits_are_counted(s, 0, point);
    }
    if point < s.len() {
        assert(s[point] == rest[0]);
    }
    assert(mantissa(s) == (point, true));
    assert(s.take(point) =~= a);
}

/// A command with the options that say what generates.
pub open spec fn with_model_options(cmd: CommandView, kit: Kit) -> CommandView {
    cmd
        .option(cli::opt("--system-prompt,--system"@, ValueType::Text, "System prompt"@))
        .option(cli::opt("--lora"@, ValueType::Text, "LoRA adapter (.gguf) to attach"@))
        .option(cli::opt("--lora-scale"@, ValueType::Float, "LoRA strength (default 1.0)"@).default_val("1.0"@))
        .option(
            cli::opt(
                "--engine"@,
                ValueType::Text,
                "Engine to run on ("@ + engine_options::choices_text(kit) + ")"@,
            ),
        )
}

/// See [`with_model_options`].
fn add_model_options(cmd: &mut Command, kit: Kit)
    ensures
        final(cmd)@ == with_model_options(old(cmd)@, kit),
{
    cmd.add_option(Opt::value("--system-prompt,--system", ValueType::Text, "System prompt"));
    cmd.add_option(Opt::value("--lora", ValueType::Text, "LoRA adapter (.gguf) to attach"));
    cmd.add_option(
        Opt::value("--lora-scale", ValueType::Float, "LoRA strength (default 1.0)").default_val("1.0"),
    );
    cmd.add_option(
        Opt::value(
            "--engine",
            ValueType::Text,
            text::cat3("Engine to run on (", engine_options::engine_choices(kit), ")").as_str(),
        ),
    );
}

/// A command with the sampling options.
pub open spec fn with_sampling(cmd: CommandView) -> CommandView {
    cmd
        .option(
            cli::opt(
                "--temperature,--temp"@,
                ValueType::Float,
                "Sampling temperature (0 = engine default)"@,
            ).group("Sampling"@),
        )
        .option(
            cli::opt(
                "--top-p"@,
                ValueType::Float,
                "Keep the smallest token set above this probability"@,
            ).group("Sampling"@),
        )
        .option(
            cli::opt(
                "--top-k"@,
                ValueType::Int,
                "Sample from this many highest-probability tokens"@,
            ).group("Sampling"@),
        )
        .option(
            cli::opt(
                "--min-p"@,
                ValueType::Float,
                "Drop tokens below this share of the top token"@,
            ).group("Sampling"@),
        )
        .option(
            cli::opt(
                "--repetition-penalty"@,
                ValueType::Float,
                "Penalize tokens already in the context"@,
            ).group("Sampling"@),
        )
        .option(
            cli::opt("--seed"@, ValueType::Int64, "Fix the RNG for a repeatable answer"@).group("Sampling"@),
        )
        .option(
            cli::opt(
                "--frequency-penalty"@,
                ValueType::Float,
                "Penalize tokens by how often they appeared"@,
            ).group("Sampling"@),
        )
        .option(
            cli::opt(
                "--presence-penalty"@,
                ValueType::Float,
                "Penalize tokens that appeared at all"@,
            ).group("Sampling"@),
        )
        .option(
            cli::opt(
                "--stop"@,
                ValueType::Text,
                "Stop at this text (repeat for several)"@,
            ).multi().group("Sampling"@),
        )
        .option(
            cli::opt(
                "--max-output-tokens,--max-tokens"@,
                ValueType::Int,
                "Cap on generated tokens (default 1024)"@,
            ).check(ValidatorView::Range(1, 2_147_483_647)).default_val("1024"@).group("Sampling"@),
        )
}

/// See [`with_sampling`].
fn add_sampling_options(cmd: &mut Command)
    ensures
        final(cmd)@ == with_sampling(old(cmd)@),
{
    cmd.add_option(
        Opt::value(
            "--temperature,--temp",
            ValueType::Float,
            "Sampling temperature (0 = engine default)",
        ).group("Sampling"),
    );
    cmd.add_option(
        Opt::value(
            "--top-p",
            ValueType::Float,
            "Keep the smallest token set above this probability",
        ).group("Sampling"),
    );
    cmd.add_option(
        Opt::value(
            "--top-k",
            ValueType::Int,
            "Sample from this many highest-probability tokens",
        ).group("Sampling"),
    );
    cmd.add_option(
        Opt::value(
            "--min-p",
            ValueType::Float,
            "Drop tokens below this share of the top token",
        ).group("Sampling"),
    );
    cmd.add_option(
        Opt::value(
            "--repetition-penalty",
            ValueType::Float,
            "Penalize tokens already in the context",
        ).group("Sampling"),
    );
    cmd.add_option(
        Opt::value("--seed", ValueType::Int64, "Fix the RNG for a repeatable answer").group("Sampling"),
    );
    cmd.add_option(
        Opt::value(
            "--frequency-penalty",
            ValueType::Float,
            "Penalize tokens by how often they appeared",
        ).group("Sampling"),
    );
    cmd.add_option(
        Opt::value(
            "--presence-penalty",
            ValueType::Float,
            "Penalize tokens that appeared at all",
        ).group("Sampling"),
    );
    cmd.add_option(
        Opt::value(
            "--stop",
            ValueType::Text,
            "Stop at this text (repeat for several)",
        ).multi().group("Sampling"),
    );
    cmd.add_option(
        Opt::value(
            "--max-output-tokens,--max-tokens",
            ValueType::Int,
            "Cap on generated tokens (default 1024)",
        ).check(Validator::Range(1, 2_147_483_647)).default_val("1024").group("Sampling"),
    );
}

/// A command with the options of the thinking phase.
pub open spec fn with_reasoning(cmd: CommandView) -> CommandView {
    cmd
        .option(
            cli::opt(
                "--reasoning"@,
                ValueType::Text,
                "Model thinking phase (default on)"@,
            ).check(ValidatorView::IsMember(seq!["on"@, "off"@])).default_val("on"@).group("Reasoning"@),
        )
        .option(
            cli::flag(
                "--show-thinking,--hide-thinking{false}"@,
                "Print thinking tokens on stderr (default on)"@,
            ).default_val("true"@).group("Reasoning"@),
        )
        .option(cli::flag("--no-think"@, "Same as --reasoning off"@).group("Reasoning"@))
}

/// See [`with_reasoning`].
fn add_reasoning_options(cmd: &mut Command)
    ensures
        final(cmd)@ == with_reasoning(old(cmd)@),
{
    cmd.add_option(
        Opt::value(
            "--reasoning",
            ValueType::Text,
            "Model thinking phase (default on)",
        ).check(Validator::IsMember(cli::words2("on", "off"))).default_val("on").group("Reasoning"),
    );
    cmd.add_option(
        Opt::flag(
            "--show-thinking,--hide-thinking{false}",
            "Print thinking tokens on stderr (default on)",
        ).default_val("true").group("Reasoning"),
    );
    cmd.add_option(Opt::flag("--no-think", "Same as --reasoning off").group("Reasoning"));
}

/// A command with the options that every llm and vlm command shares.
pub open spec fn with_generation_options(cmd: CommandView, model_arg: ModelArg, kit: Kit) -> CommandView {
    let named = match model_arg {
        ModelArg::Option => cmd.option(cli::opt("--model,-m"@, ValueType::Text, "Model to use (downloaded if missing)"@)),
        ModelArg::Positional => cmd.option(cli::opt("model"@, ValueType::Text, "Model id, alias, hf.co/... ref or URL"@).required()),
    };
    with_reasoning(with_sampling(with_model_options(named, kit)))
}

/// See [`with_generation_options`].
fn add_generation_options(cmd: &mut Command, model_arg: ModelArg, kit: Kit)
    ensures
        final(cmd)@ == with_generation_options(old(cmd)@, model_arg, kit),
{
    match model_arg {
        ModelArg::Option => cmd.add_option(Opt::value("--model,-m", ValueType::Text, "Model to use (downloaded if missing)")),
        ModelArg::Positional => cmd.add_option(Opt::value("model", ValueType::Text, "Model id, alias, hf.co/... ref or URL").required()),
    }
    add_model_options(cmd, kit);
    add_sampling_options(cmd);
    add_reasoning_options(cmd);
}

/// A command that completes a prompt, or chats when it has none.
pub open spec fn with_llm(cmd: CommandView, verb: LlmVerb, model_arg: ModelArg, kit: Kit) -> CommandView {
    let prompted = with_generation_options(cmd, model_arg, kit).option(
        cli::opt(
            "prompt"@,
            ValueType::Text,
            if verb == LlmVerb::Chat {
                "Prompt to answer (omit for an interactive chat)"@
            } else {
                "Prompt to complete (omit to read stdin)"@
            },
        ),
    );
    (if verb == LlmVerb::Chat {
        prompted.option(
            cli::opt(
                "--image"@,
                ValueType::Text,
                "Ask about this image instead (vision models)"@,
            ).check(ValidatorView::ExistingFile),
        )
    } else {
        prompted
    }).action(Action::Llm(verb, model_arg))
}

/// Configures a command that completes a prompt; see [`with_llm`].
pub fn configure_llm(cmd: &mut Command, verb: LlmVerb, model_arg: ModelArg, kit: Kit)
    ensures
        final(cmd)@ == with_llm(old(cmd)@, verb, model_arg, kit),
{
    add_generation_options(cmd, model_arg, kit);
    cmd.add_option(
        Opt::value(
            "prompt",
            ValueType::Text,
            if verb == LlmVerb::Chat {
                "Prompt to answer (omit for an interactive chat)"
            } else {
                "Prompt to complete (omit to read stdin)"
            },
        ),
    );
    if verb == LlmVerb::Chat {
        cmd.add_option(
            Opt::value(
                "--image",
                ValueType::Text,
                "Ask about this image instead (vision models)",
            ).check(Validator::ExistingFile),
        );
    }
    cmd.callback(Action::Llm(verb, model_arg));
}

/// A command that asks about an image.
pub open spec fn with_vlm_generate(cmd: CommandView, kit: Kit) -> CommandView {
    with_generation_options(cmd, ModelArg::Option, kit)
        .option(cli::opt("prompt"@, ValueType::Text, "Question about the image (default: describe it)"@))
        .option(
            cli::opt(
                "--image,-i"@,
                ValueType::Text,
                "Image to look at"@,
            ).required().check(ValidatorView::ExistingFile),
        )
        .action(Action::VlmGenerate)
}

/// Configures a command that asks about an image.
pub fn configure_vlm_generate(cmd: &mut Command, kit: Kit)
    ensures
        final(cmd)@ == with_vlm_generate(old(cmd)@, kit),
{
    add_generation_options(cmd, ModelArg::Option, kit);
    cmd.add_option(Opt::value("prompt", ValueType::Text, "Question about the image (default: describe it)"));
    cmd.add_option(
        Opt::value("--image,-i", ValueType::Text, "Image to look at").required().check(Validator::ExistingFile),
    );
    cmd.callback(Action::VlmGenerate);
}

/// The `llm generate` command.
pub open spec fn llm_generate_command(kit: Kit) -> CommandView {
    with_llm(
        cli::command("llm"@, "generate"@, "Complete a prompt, printed when done"@)
            .example("wally llm generate -m qwen3-4b-instruct-2507 \"explain tunnelling\""@, ""@)
            .example("echo \"summarise this\" | wally llm generate -m qwen3-4b-instruct-2507"@, ""@), LlmVerb::Generate, ModelArg::Option, kit,
    )
}

/// The `llm stream` command.
pub open spec fn llm_stream_command(kit: Kit) -> CommandView {
    with_llm(
        cli::command("llm"@, "stream"@, "Complete a prompt, printed as it arrives"@)
            .example("wally llm stream -m qwen3-4b-instruct-2507 \"tell me a short story\""@, ""@), LlmVerb::Stream, ModelArg::Option, kit,
    )
}

/// The `run` command.
pub open spec fn run_command(kit: Kit) -> CommandView {
    with_llm(
        cli::top("run"@, "Run a model"@)
            .example("wally run qwen3-4b-instruct-2507"@, "Chat interactively"@)
            .example("wally run qwen3-4b-instruct-2507 \"write a haiku\""@, "Answer one prompt"@), LlmVerb::Chat, ModelArg::Positional, kit,
    )
}

/// The `vlm generate` command.
pub open spec fn vlm_generate_command(kit: Kit) -> CommandView {
    with_vlm_generate(
        cli::command("vlm"@, "generate"@, "Answer a prompt about an image"@), kit,
    )
}

/// The `llm` namespace.
pub open spec fn llm_command() -> CommandView {
    cli::top("llm"@, "Generate text with a language model"@).require_subcommand(1, 1)
}

/// The `vlm` namespace.
pub open spec fn vlm_command() -> CommandView {
    cli::top("vlm"@, "Ask a vision-language model about an image"@).require_subcommand(1, 1)
}

/// Registers `llm` and its verbs.
pub fn register_llm(app: &mut App, kit: Kit)
    ensures
        final(app)@ == old(app)@.push(llm_command()).push(llm_generate_command(kit)).push(llm_stream_command(kit)),
{
    let mut ns = Command::top("llm", "Generate text with a language model");
    ns.require_subcommand(1, 1);
    app.add(ns);
    let mut generate = Command::new("llm", "generate", "Complete a prompt, printed when done");
    generate.example("wally llm generate -m qwen3-4b-instruct-2507 \"explain tunnelling\"", "");
    generate.example("echo \"summarise this\" | wally llm generate -m qwen3-4b-instruct-2507", "");
    configure_llm(&mut generate, LlmVerb::Generate, ModelArg::Option, kit);
    app.add(generate);
    let mut stream = Command::new("llm", "stream", "Complete a prompt, printed as it arrives");
    stream.example("wally llm stream -m qwen3-4b-instruct-2507 \"tell me a short story\"", "");
    configure_llm(&mut stream, LlmVerb::Stream, ModelArg::Option, kit);
    app.add(stream);
}

/// Registers `vlm` and its verb.
pub fn register_vlm(app: &mut App, kit: Kit)
    ensures
        final(app)@ == old(app)@.push(vlm_command()).push(vlm_generate_command(kit)),
{
    let mut ns = Command::top("vlm", "Ask a vision-language model about an image");
    ns.require_subcommand(1, 1);
    app.add(ns);
    let mut generate = Command::new("vlm", "generate", "Answer a prompt about an image");
    configure_vlm_generate(&mut generate, kit);
    app.add(generate);
}

/// Registers `run`, the interactive runner.
pub fn register_llm_aliases(app: &mut App, kit: Kit)
    ensures
        final(app)@ == old(app)@.push(run_command(kit)),
{
    let mut cmd = Command::top("run", "Run a model");
    cmd.example("wally run qwen3-4b-instruct-2507", "Chat interactively");
    cmd.example("wally run qwen3-4b-instruct-2507 \"write a haiku\"", "Answer one prompt");
    configure_llm(&mut cmd, LlmVerb::Chat, ModelArg::Positional, kit);
    app.add(cmd);
}

/// The options of a generation have their own names, kinds and usual values; the
/// budget of tokens is positive.
pub proof fn generation_options_are_named(cmd: CommandView)
    requires
        cmd.options.len() == 0,
    ensures
        ({
            let options = with_sampling(cmd).options;
            &&& options.len() == 10
            &&& options[0].names == "--temperature,--temp"@ && options[0].kind == cli::OptKind::Value(ValueType::Float)
            &&& options[1].names == "--top-p"@ && options[1].kind == cli::OptKind::Value(ValueType::Float)
            &&& options[2].names == "--top-k"@ && options[2].kind == cli::OptKind::Value(ValueType::Int)
            &&& options[3].names == "--min-p"@ && options[3].kind == cli::OptKind::Value(ValueType::Float)
            &&& options[4].names == "--repetition-penalty"@
            &&& options[5].names == "--seed"@ && options[5].kind == cli::OptKind::Value(ValueType::Int64)
            &&& options[6].names == "--frequency-penalty"@ && options[7].names == "--presence-penalty"@
            &&& options[8].names == "--stop"@ && options[8].multi
            &&& options[9].names == "--max-output-tokens,--max-tokens"@ && options[9].default_val == Some("1024"@)
                && options[9].check == Some(ValidatorView::Range(1, 2_147_483_647))
        }),
        ({
            let options = with_reasoning(cmd).options;
            &&& options.len() == 3
            &&& options[0].names == "--reasoning"@ && options[0].default_val == Some("on"@) && options[0].check == Some(
                ValidatorView::IsMember(seq!["on"@, "off"@]),
            )
            &&& options[1].names == "--show-thinking,--hide-thinking{false}"@ && options[1].default_val == Some(
                "true"@,
            )
            &&& options[2].names == "--no-think"@
        }),
{
}

} // verus!
