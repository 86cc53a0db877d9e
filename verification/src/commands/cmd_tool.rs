//! `wally llm tool-call`: tries the tool-calling loop end to end.
//!
//! The engine drives the loop; the command hands it a prompt and two demo tools
//! and answers every tool call with a canned result, so that the loop completes
//! offline.

use crate::cli;
use crate::cli::{Action, App, Command, CommandView, Opt, ValueType};
use crate::commands::engine_options;
use crate::commands::engine_options::EngineHintResolution;
use crate::commands::engine_options::Kit;
use crate::engine::InferenceFramework;
use crate::engine::ModelCategory;
use crate::output;
use crate::output::Channel;
use crate::output::JsonWriter;
use crate::output::Printed;
use crate::text;
use vstd::prelude::*;

verus! {

/// What the command line asks for.
#[derive(Clone, Debug, Default)]
pub struct ToolCallParams {
    pub prompt: String,
    pub model: String,
    pub engine: String,
    /// auto, required, none or specific; empty is auto.
    pub tool_choice: String,
    /// The one tool to force; empty forces none.
    pub force_tool: String,
    pub max_tool_calls: i32,
}

/// When the model may call tools.
#[derive(Clone, Copy, Debug, PartialEq, Eq, Structural)]
pub enum ToolChoiceMode {
    Auto,
    Required,
    NoTools,
    Specific,
}

/// The mode that a name means; an empty one means auto.
pub open spec fn choice_named(mode: Seq<char>) -> Option<ToolChoiceMode> {
    if mode.len() == 0 || mode == "auto"@ {
        Some(ToolChoiceMode::Auto)
    } else if mode == "required"@ {
        Some(ToolChoiceMode::Required)
    } else if mode == "none"@ {
        Some(ToolChoiceMode::NoTools)
    } else if mode == "specific"@ {
        Some(ToolChoiceMode::Specific)
    } else {
        None
    }
}

/// See [`choice_named`].
pub fn parse_tool_choice(mode: &str) -> (r: Option<ToolChoiceMode>)
    ensures
        r == choice_named(mode@),
{
    if mode.is_empty() || text::str_eq(mode, "auto") {
        Some(ToolChoiceMode::Auto)
    } else if text::str_eq(mode, "required") {
        Some(ToolChoiceMode::Required)
    } else if text::str_eq(mode, "none") {
        Some(ToolChoiceMode::NoTools)
    } else if text::str_eq(mode, "specific") {
        Some(ToolChoiceMode::Specific)
    } else {
        None
    }
}

/// The JSON schema of a tool with one string argument.
pub open spec fn string_schema(name: Seq<char>, description: Seq<char>) -> Seq<char> {
    "{\"type\":\"object\",\"properties\":{\""@ + name + "\":{\"type\":\"string\",\"description\":\""@ + description
        + "\"}},\"required\":[\""@ + name + "\"]}"@
}

/// See [`string_schema`].
pub fn single_string_param_schema(name: &str, description: &str) -> (r: String)
    ensures
        r@ == string_schema(name@, description@),
{
    let head = text::cat4(
        "{\"type\":\"object\",\"properties\":{\"",
        name,
        "\":{\"type\":\"string\",\"description\":\"",
        description,
    );
    text::cat4(head.as_str(), "\"}},\"required\":[\"", name, "\"]}")
}

/// A tool that the model may call.
#[derive(Clone, Debug)]
pub struct ToolDefinition {
    pub name: String,
    pub description: String,
    pub parameters: String,
}

/// A tool as values.
pub open spec fn tool_view(t: ToolDefinition) -> (Seq<char>, Seq<char>, Seq<char>) {
    (t.name@, t.description@, t.parameters@)
}

/// The demo tools.
pub open spec fn tools() -> Seq<(Seq<char>, Seq<char>, Seq<char>)> {
    seq![
        (
            "get_weather"@,
            "Get the current weather for a city"@,
            string_schema("location"@, "City name, e.g. Tokyo"@),
        ),
        (
            "calculate"@,
            "Evaluate an arithmetic expression"@,
            string_schema("expression"@, "Expression such as 45 * 12"@),
        ),
    ]
}

/// See [`tools`].
pub fn demo_tools() -> (r: Vec<ToolDefinition>)
    ensures
        r@.map_values(|t: ToolDefinition| tool_view(t)) == tools(),
{
    let mut r: Vec<ToolDefinition> = Vec::new();
    r.push(
        ToolDefinition {
            name: text::owned("get_weather"),
            description: text::owned("Get the current weather for a city"),
            parameters: single_string_param_schema("location", "City name, e.g. Tokyo"),
        },
    );
    r.push(
        ToolDefinition {
            name: text::owned("calculate"),
            description: text::owned("Evaluate an arithmetic expression"),
            parameters: single_string_param_schema("expression", "Expression such as 45 * 12"),
        },
    );
    assert(r@.map_values(|t: ToolDefinition| tool_view(t)) =~= tools());
    r
}

/// The canned result of a tool.
pub open spec fn canned_result(tool: Seq<char>) -> Seq<char> {
    if tool == "get_weather"@ {
        "{\"temperature_c\":18,\"condition\":\"cloudy\"}"@
    } else if tool == "calculate"@ {
        "{\"note\":\"demo executor does not evaluate expressions\"}"@
    } else {
        "{\"ok\":true}"@
    }
}

/// A call that the model made.
#[derive(Clone, Debug, Default)]
pub struct ToolCall {
    pub id: String,
    pub name: String,
    pub arguments_json: String,
}

/// The result handed back for a call.
#[derive(Clone, Debug, Default)]
pub struct ToolResult {
    pub tool_call_id: String,
    pub name: String,
    pub result_json: String,
    pub is_error: bool,
}

/// Executes a call: says so, and answers it with the canned result of its tool.
pub fn demo_executor(call: &ToolCall) -> (r: (Printed, ToolResult))
    ensures
        r.0@ == seq![
            output::status("  executing "@ + call.name@ + "("@ + call.arguments_json@ + ")"@),
        ],
        r.1.tool_call_id@ == call.id@,
        r.1.name@ == call.name@,
        r.1.result_json@ == canned_result(call.name@),
        !r.1.is_error,
{
    let mut printed = Printed::new();
    printed.status(text::cat5("  executing ", call.name.as_str(), "(", call.arguments_json.as_str(), ")"));
    let result = if text::str_eq(call.name.as_str(), "get_weather") {
        text::owned("{\"temperature_c\":18,\"condition\":\"cloudy\"}")
    } else if text::str_eq(call.name.as_str(), "calculate") {
        text::owned("{\"note\":\"demo executor does not evaluate expressions\"}")
    } else {
        text::owned("{\"ok\":true}")
    };
    (
        printed,
        ToolResult {
            tool_call_id: text::owned(call.id.as_str()),
            name: text::owned(call.name.as_str()),
            result_json: result,
            is_error: false,
        },
    )
}

/// How the model reference is resolved, as one for language; or what is wrong
/// with the engine that was named, with the exit code.
pub fn tool_hint(engine: &str, kit: Kit) -> (r: Result<EngineHintResolution, (String, i32)>)
    ensures
        match engine_options::engine_hint(engine@, kit) {
            Ok(f) => r == Ok::<EngineHintResolution, (String, i32)>(
                engine_options::of_category(engine_options::resolution(f), ModelCategory::Language),
            ),
            Err(message) => r is Err && (r->Err_0).0@ == message && (r->Err_0).1 == 2,
        },
{
    match engine_options::resolve_engine_hint(engine, kit) {
        Ok(hint) => Ok(hint.for_category(ModelCategory::Language)),
        Err(message) => Err((message, 2)),
    }
}

/// The framework that the model is loaded with: a catalog entry keeps its own.
pub fn load_framework(from_catalog: bool, framework: InferenceFramework) -> (r: Option<InferenceFramework>)
    ensures
        r == if from_catalog || framework == InferenceFramework::Unspecified {
            None
        } else {
            Some(framework)
        },
{
    if from_catalog || framework == InferenceFramework::Unspecified {
        None
    } else {
        Some(framework)
    }
}

/// The options of the loop. A mode that is not set is the engine's own, auto.
#[derive(Clone, Debug)]
pub struct ToolCallingOptions {
    pub auto_execute: bool,
    pub max_tool_calls: Option<i32>,
    pub tools: Vec<ToolDefinition>,
    pub tool_choice: Option<ToolChoiceMode>,
    pub forced_tool_name: Option<String>,
}

/// What the engine is asked: the prompt, and how to go about it.
#[derive(Clone, Debug)]
pub struct ToolCallingRequest {
    pub prompt: String,
    pub options: ToolCallingOptions,
}

/// The request that the command line makes.
pub fn tool_request(params: &ToolCallParams) -> (r: Result<ToolCallingRequest, (String, i32)>)
    ensures
        match choice_named(params.tool_choice@) {
            None => r is Err && (r->Err_0).0@ == "--tool-choice expects auto|required|none|specific"@ && (r->Err_0).1
                == 2,
            Some(choice) => r is Ok && r->Ok_0.prompt@ == params.prompt@ && are_options(
                *params,
                choice,
                r->Ok_0.options,
            ),
        },
{
    match tool_options(params) {
        Ok(options) => Ok(ToolCallingRequest { prompt: text::owned(params.prompt.as_str()), options }),
        Err(e) => Err(e),
    }
}

/// Whether the options are those that the command line asks for in a mode. A
/// forced tool implies the specific one.
pub open spec fn are_options(params: ToolCallParams, choice: ToolChoiceMode, o: ToolCallingOptions) -> bool {
    o.auto_execute && o.tools@.map_values(|t: ToolDefinition| tool_view(t)) == tools() && o.max_tool_calls == (
    if params.max_tool_calls > 0 {
        Some(params.max_tool_calls)
    } else {
        None
    }) && if params.force_tool@.len() > 0 {
        o.tool_choice == Some(ToolChoiceMode::Specific) && o.forced_tool_name is Some && o.forced_tool_name->0@
            == params.force_tool@
    } else {
        o.forced_tool_name is None && o.tool_choice == if choice == ToolChoiceMode::Auto {
            None
        } else {
            Some(choice)
        }
    }
}

/// The options that the command line asks for, or what is wrong with them, with
/// the exit code. A forced tool does not excuse an unknown mode.
fn tool_options(params: &ToolCallParams) -> (r: Result<ToolCallingOptions, (String, i32)>)
    ensures
        match choice_named(params.tool_choice@) {
            None => r is Err && (r->Err_0).0@ == "--tool-choice expects auto|required|none|specific"@ && (r->Err_0).1
                == 2,
            Some(choice) => r is Ok && are_options(*params, choice, r->Ok_0),
        },
{
    let choice = match parse_tool_choice(params.tool_choice.as_str()) {
        Some(choice) => choice,
        None => return Err((text::owned("--tool-choice expects auto|required|none|specific"), 2)),
    };
    let mut options = ToolCallingOptions {
        auto_execute: true,
        max_tool_calls: None,
        tools: demo_tools(),
        tool_choice: None,
        forced_tool_name: None,
    };
    if params.max_tool_calls > 0 {
        options.max_tool_calls = Some(params.max_tool_calls);
    }
    if !params.force_tool.as_str().is_empty() {
        options.tool_choice = Some(ToolChoiceMode::Specific);
        options.forced_tool_name = Some(text::owned(params.force_tool.as_str()));
    } else if choice != ToolChoiceMode::Auto {
        options.tool_choice = Some(choice);
    }
    Ok(options)
}

/// What the loop came to. It is reported whatever the code of the call was.
#[derive(Clone, Debug, Default)]
pub struct ToolCallingResult {
    pub text: String,
    pub is_complete: bool,
    pub iterations_used: i32,
    pub tool_calls: Vec<ToolCall>,
    pub error_code: i32,
    pub error_message: Option<String>,
}

/// What is said when no result could be read: the reader's message, or the code
/// of the call where there is none.
pub fn tool_problem(message: &str, rc: i32) -> (r: String)
    ensures
        r@ == "tool-calling failed: "@ + if message@.len() == 0 {
            text::dec(rc as int)
        } else {
            message@
        },
{
    if message.is_empty() {
        text::cat2("tool-calling failed: ", text::dec_i64(rc as i64).as_str())
    } else {
        text::cat2("tool-calling failed: ", message)
    }
}

/// What a tool call does next.
#[derive(Clone, Copy, Debug, PartialEq, Eq, Structural)]
pub enum ToolStage {
    /// Start the engine.
    Start,
    /// Read the engine that was named.
    Hint,
    /// Resolve the model reference.
    Resolve,
    /// Load the model.
    Load,
    /// Make the request.
    Request,
    /// Run the loop, and read what came back.
    Call,
    /// Show it.
    Show,
    /// It is over, with this exit code.
    Finished(i32),
}

/// The stage after one that worked or not; `complete` tells whether the loop
/// completed. An engine or a mode that is not known exits with 2, everything else
/// that fails with 1, and so does a loop that did not complete.
pub open spec fn tool_after(stage: ToolStage, ok: bool, complete: bool) -> ToolStage {
    match stage {
        ToolStage::Start => if ok {
            ToolStage::Hint
        } else {
            ToolStage::Finished(1)
        },
        ToolStage::Hint => if ok {
            ToolStage::Resolve
        } else {
            ToolStage::Finished(2)
        },
        ToolStage::Resolve => if ok {
            ToolStage::Load
        } else {
            ToolStage::Finished(1)
        },
        ToolStage::Load => if ok {
            ToolStage::Request
        } else {
            ToolStage::Finished(1)
        },
        ToolStage::Request => if ok {
            ToolStage::Call
        } else {
            ToolStage::Finished(2)
        },
        ToolStage::Call => if ok {
            ToolStage::Show
        } else {
            ToolStage::Finished(1)
        },
        ToolStage::Show => ToolStage::Finished(
            if complete {
                0
            } else {
                1
            },
        ),
        ToolStage::Finished(code) => ToolStage::Finished(code),
    }
}

/// See [`tool_after`].
pub fn run_tool_call(stage: ToolStage, ok: bool, complete: bool) -> (r: ToolStage)
    ensures
        r == tool_after(stage, ok, complete),
{
    match stage {
        ToolStage::Start => if ok {
            ToolStage::Hint
        } else {
            ToolStage::Finished(1)
        },
        ToolStage::Hint => if ok {
            ToolStage::Resolve
        } else {
            ToolStage::Finished(2)
        },
        ToolStage::Resolve => if ok {
            ToolStage::Load
        } else {
            ToolStage::Finished(1)
        },
        ToolStage::Load => if ok {
            ToolStage::Request
        } else {
            ToolStage::Finished(1)
        },
        ToolStage::Request => if ok {
            ToolStage::Call
        } else {
            ToolStage::Finished(2)
        },
        ToolStage::Call => if ok {
            ToolStage::Show
        } else {
            ToolStage::Finished(1)
        },
        ToolStage::Show => ToolStage::Finished(if complete { 0 } else { 1 }),
        ToolStage::Finished(code) => ToolStage::Finished(code),
    }
}

/// A tool call returns 0 only after its loop completed and was shown.
pub proof fn zero_means_completed(stage: ToolStage, ok: bool, complete: bool)
    ensures
        tool_after(stage, ok, complete) == ToolStage::Finished(0) ==> stage is Show && complete || stage
            == ToolStage::Finished(0),
        tool_after(stage, ok, complete) == ToolStage::Finished(2) ==> !ok && (stage is Hint || stage is Request)
            || stage == ToolStage::Finished(2),
{
}

/// A loop that did not complete fails.
pub fn tool_exit_code(result: &ToolCallingResult) -> (r: i32)
    ensures
        r == if result.is_complete {
            0i32
        } else {
            1i32
        },
{
    if result.is_complete {
        0
    } else {
        1
    }
}

/// The writes for a tool loop.
pub open spec fn tool_document(result: ToolCallingResult) -> Seq<output::JsonOpView> {
    seq![
        output::begin_object(),
        output::field_str("text"@, result.text@),
        output::field_bool("is_complete"@, result.is_complete),
        output::field_i64("iterations"@, result.iterations_used as int),
        output::field_i64("tool_calls"@, (result.tool_calls.len() as i64) as int),
        output::end_object(),
    ]
}

/// The document of a loop.
pub fn tool_json(result: &ToolCallingResult) -> (json: JsonWriter)
    ensures
        json@ == tool_document(*result),
{
    let mut json = JsonWriter::new();
    json.begin_object();
    json.field_str("text", result.text.as_str());
    json.field_bool("is_complete", result.is_complete);
    json.field_i64("iterations", result.iterations_used as i64);
    json.field_i64("tool_calls", result.tool_calls.len() as i64);
    json.end_object();
    json
}

/// The line of the call at place `i`.
pub open spec fn call_line(call: ToolCall, i: int) -> Seq<char> {
    "tool call "@ + text::dec(i + 1) + ": "@ + call.name@ + "("@ + call.arguments_json@ + ")"@
}

fn call_line_exec(call: &ToolCall, i: usize) -> (r: String)
    requires
        i < usize::MAX,
    ensures
        r@ == call_line(*call, i as int),
{
    let head = text::cat4("tool call ", text::dec_usize(i + 1).as_str(), ": ", call.name.as_str());
    text::cat4(head.as_str(), "(", call.arguments_json.as_str(), ")")
}

/// The lines of a tool loop.
pub open spec fn tool_text(result: ToolCallingResult) -> Seq<(Channel, Seq<char>)> {
    Seq::new(
        result.tool_calls@.len(),
        |i: int| output::status(call_line(result.tool_calls@[i], i)),
    ) + (if result.error_code != 0 {
        seq![
            output::error(
                "tool-calling error: "@ + match result.error_message {
                    Some(m) => m@,
                    None => Seq::empty(),
                },
            ),
        ]
    } else {
        Seq::empty()
    }) + seq![
        output::status(
            "iterations: "@ + text::dec(result.iterations_used as int) + ", tool calls: "@ + text::dec(
                result.tool_calls@.len() as int,
            ),
        ),
        output::result(result.text@),
    ]
}

/// The lines of a loop: its calls, the engine's error where there is one, a
/// summary, and the answer.
pub fn tool_lines(result: &ToolCallingResult) -> (r: Printed)
    ensures
        r@ == tool_text(*result),
{
    let mut printed = Printed::new();
    let ghost all = result.tool_calls@;
    let ghost lines = Seq::new(all.len(), |i: int| output::status(call_line(all[i], i)));
    assert(printed@ =~= lines.take(0));
    let total: usize = result.tool_calls.len();
    let mut i: usize = 0;
    while i < total
        invariant
            i <= total == result.tool_calls@.len(),
            all == result.tool_calls@,
            lines == Seq::new(all.len(), |i: int| output::status(call_line(all[i], i))),
            printed@ == lines.take(i as int),
        decreases total - i,
    {
        printed.status(call_line_exec(&result.tool_calls[i], i));
        assert(lines[i as int] == output::status(call_line(all[i as int], i as int)));
        i = i + 1;
        assert(printed@ =~= lines.take(i as int));
    }
    assert(printed@ =~= lines);
    if result.error_code != 0 {
        match &result.error_message {
            Some(m) => printed.error(text::cat2("tool-calling error: ", m.as_str())),
            None => {
                assert("tool-calling error: "@ + Seq::empty() =~= "tool-calling error: "@);
                printed.error(text::owned("tool-calling error: "));
            },
        }
    }
    printed.status(
        text::cat4(
            "iterations: ",
            text::dec_i64(result.iterations_used as i64).as_str(),
            ", tool calls: ",
            text::dec_usize(total).as_str(),
        ),
    );
    printed.result(text::owned(result.text.as_str()));
    printed
}

/// A tool that is forced is the one that must be called, whatever else was chosen;
/// without one the choice is sent, but for the usual one, which is left out. Every
/// demo tool is offered.
pub proof fn a_forced_tool_wins(params: ToolCallParams, choice: ToolChoiceMode, o: ToolCallingOptions)
    requires
        are_options(params, choice, o),
    ensures
        params.force_tool@.len() > 0 ==> o.tool_choice == Some(ToolChoiceMode::Specific) && o.forced_tool_name is Some
            && o.forced_tool_name->0@ == params.force_tool@,
        params.force_tool@.len() == 0 ==> o.forced_tool_name is None,
        params.force_tool@.len() == 0 && choice != ToolChoiceMode::Auto ==> o.tool_choice == Some(choice),
        params.force_tool@.len() == 0 && choice == ToolChoiceMode::Auto ==> o.tool_choice is None,
        params.max_tool_calls > 0 ==> o.max_tool_calls == Some(params.max_tool_calls),
        params.max_tool_calls <= 0 ==> o.max_tool_calls is None,
        o.auto_execute,
        o.tools@.len() == 2,
        o.tools@[0].name@ == "get_weather"@ && o.tools@[1].name@ == "calculate"@,
{
    let views = o.tools@.map_values(|t: ToolDefinition| tool_view(t));
    assert(views.len() == 2);
    assert(views[0] == tool_view(o.tools@[0]));
    assert(views[1] == tool_view(o.tools@[1]));
}

/// A choice is known by its name, and nothing else is one.
pub proof fn a_choice_is_known_by_its_name(mode: Seq<char>)
    ensures
        mode.len() == 0 ==> choice_named(mode) == Some(ToolChoiceMode::Auto),
        choice_named("auto"@) == Some(ToolChoiceMode::Auto),
        choice_named("required"@) == Some(ToolChoiceMode::Required),
        choice_named("none"@) == Some(ToolChoiceMode::NoTools),
        choice_named("specific"@) == Some(ToolChoiceMode::Specific),
        mode.len() > 0 && mode != "auto"@ && mode != "required"@ && mode != "none"@ && mode != "specific"@
            ==> choice_named(mode) is None,
{
    reveal_strlit("auto");
    reveal_strlit("required");
    reveal_strlit("none");
    reveal_strlit("specific");
    assert("auto"@[0] == 'a' && "none"@[0] == 'n' && "required"@[0] == 'r' && "specific"@[0] == 's');
}

/// Every call of a tool is told, in order, with its name and arguments; an error
/// is told as one; the answer is the last line, and the one result.
pub proof fn every_tool_call_is_told(result: ToolCallingResult, i: int)
    ensures
        ({
            let lines = tool_text(result);
            let n = result.tool_calls@.len() as int;
            &&& 0 <= i < n ==> lines[i] == (
                Channel::Status,
                "tool call "@ + text::dec(i + 1) + ": "@ + result.tool_calls@[i].name@ + "("@
                    + result.tool_calls@[i].arguments_json@ + ")"@,
            )
            &&& lines.len() == n + (if result.error_code != 0 {
                3int
            } else {
                2
            })
            &&& result.error_code != 0 ==> lines[n].0 == Channel::Error
            &&& lines[lines.len() - 2] == (
                Channel::Status,
                "iterations: "@ + text::dec(result.iterations_used as int) + ", tool calls: "@ + text::dec(n),
            )
            &&& lines.last() == (Channel::Result, result.text@)
        }),
        tool_document(result)[1] == output::field_str("text"@, result.text@),
        tool_document(result)[2] == output::field_bool("is_complete"@, result.is_complete),
        tool_document(result)[3] == output::field_i64("iterations"@, result.iterations_used as int),
        result.tool_calls@.len() <= i64::MAX ==> tool_document(result)[4] == output::field_i64(
            "tool_calls"@,
            result.tool_calls@.len() as int,
        ),
{
}

/// Tools are called once the model is loaded and the request is good, and the
/// command ends well only where the answer is complete.
pub proof fn tool_calling_takes_its_steps(ok: bool, complete: bool)
    ensures
        tool_after(ToolStage::Start, true, complete) == ToolStage::Hint,
        tool_after(ToolStage::Hint, true, complete) == ToolStage::Resolve,
        tool_after(ToolStage::Resolve, true, complete) == ToolStage::Load,
        tool_after(ToolStage::Load, true, complete) == ToolStage::Request,
        tool_after(ToolStage::Request, true, complete) == ToolStage::Call,
        tool_after(ToolStage::Call, true, complete) == ToolStage::Show,
        tool_after(ToolStage::Show, ok, true) == ToolStage::Finished(0),
        tool_after(ToolStage::Show, ok, false) == ToolStage::Finished(1),
        tool_after(ToolStage::Hint, false, complete) == ToolStage::Finished(2),
        tool_after(ToolStage::Request, false, complete) == ToolStage::Finished(2),
        tool_after(ToolStage::Start, false, complete) == ToolStage::Finished(1),
        tool_after(ToolStage::Resolve, false, complete) == ToolStage::Finished(1),
        tool_after(ToolStage::Load, false, complete) == ToolStage::Finished(1),
        tool_after(ToolStage::Call, false, complete) == ToolStage::Finished(1),
{
}

/// A demo tool answers what its name stands for, and any other only that it ran; the
/// schema of a tool names its one parameter where it is described and where it is
/// required.
pub proof fn a_demo_tool_answers_for_its_name(name: Seq<char>, description: Seq<char>)
    ensures
        canned_result("get_weather"@) == "{\"temperature_c\":18,\"condition\":\"cloudy\"}"@,
        canned_result("calculate"@) == "{\"note\":\"demo executor does not evaluate expressions\"}"@,
        name != "get_weather"@ && name != "calculate"@ ==> canned_result(name) == "{\"ok\":true}"@,
        string_schema(name, description) == "{\"type\":\"object\",\"properties\":{\""@ + name
            + "\":{\"type\":\"string\",\"description\":\""@ + description + "\"}},\"required\":[\""@ + name + "\"]}"@,
{
    reveal_strlit("get_weather");
    reveal_strlit("calculate");
    assert("get_weather"@.len() == 11 && "calculate"@.len() == 9);
}

/// A command that tries tool calling.
pub open spec fn with_tool_call(cmd: CommandView) -> CommandView {
    cmd
        .option(cli::opt("prompt"@, ValueType::Text, "What to ask the model"@).required())
        .option(
            cli::opt(
                "--model,-m"@,
                ValueType::Text,
                "Model to use (default qwen3-0.6b)"@,
            ).default_val("qwen3-0.6b"@),
        )
        .option(cli::opt("--engine"@, ValueType::Text, "Engine to run on"@))
        .option(
            cli::opt(
                "--tool-choice"@,
                ValueType::Text,
                "When the model may call tools: auto, required, none, specific"@,
            ),
        )
        .option(
            cli::opt(
                "--force-tool"@,
                ValueType::Text,
                "Force one tool by name (implies --tool-choice specific)"@,
            ),
        )
        .option(
            cli::opt(
                "--max-tool-calls"@,
                ValueType::Int,
                "Cap on tool calls per turn (default 3)"@,
            ).default_val("3"@),
        )
        .action(Action::ToolCall)
}

/// Configures a command that tries tool calling.
pub fn configure_tool_call(cmd: &mut Command)
    ensures
        final(cmd)@ == with_tool_call(old(cmd)@),
{
    cmd.add_option(Opt::value("prompt", ValueType::Text, "What to ask the model").required());
    cmd.add_option(
        Opt::value("--model,-m", ValueType::Text, "Model to use (default qwen3-0.6b)").default_val("qwen3-0.6b"),
    );
    cmd.add_option(Opt::value("--engine", ValueType::Text, "Engine to run on"));
    cmd.add_option(
        Opt::value(
            "--tool-choice",
            ValueType::Text,
            "When the model may call tools: auto, required, none, specific",
        ),
    );
    cmd.add_option(
        Opt::value("--force-tool", ValueType::Text, "Force one tool by name (implies --tool-choice specific)"),
    );
    cmd.add_option(
        Opt::value(
            "--max-tool-calls",
            ValueType::Int,
            "Cap on tool calls per turn (default 3)",
        ).default_val("3"),
    );
    cmd.callback(Action::ToolCall);
}

/// The `llm tool-call` command.
pub open spec fn tool_command() -> CommandView {
    with_tool_call(
        cli::command("llm"@, "tool-call"@, "Try tool calling with two demo tools"@)
            .example("wally llm tool-call \"weather in Paris?\""@, "Calls get_weather"@)
            .example("wally llm tool-call \"what is 19 * 23?\""@, "Calls calculate"@),
    )
}

/// Registers `tool-call` below `llm`, which has to be there.
pub fn register_tool(app: &mut App)
    requires
        cli::has_command(old(app)@.commands, Seq::empty(), "llm"@),
    ensures
        final(app)@ == old(app)@.push(tool_command()),
{
    let mut cmd = Command::new("llm", "tool-call", "Try tool calling with two demo tools");
    cmd.example("wally llm tool-call \"weather in Paris?\"", "Calls get_weather");
    cmd.example("wally llm tool-call \"what is 19 * 23?\"", "Calls calculate");
    configure_tool_call(&mut cmd);
    app.add(cmd);
}

} // verus!
