//! `wally models default`: the model that a launch uses when none is named.

use crate::cli;
use crate::cli::{Action, App, Command, CommandView, Opt, ValueType};
use crate::config::preferences;
use crate::config::preferences::{DefaultModel, DefaultModelSource};
use crate::output;
use crate::output::{JsonWriter, Printed, Report, ReportView};
use crate::text;
use vstd::prelude::*;

verus! {

/// The model of a launch: the one that is named, else the default in effect. A
/// default that fills in is announced, so that no launch picks one silently;
/// `blue` and `reset` color the status line.
pub fn resolve_default_model(
    explicit_model: &str,
    env: &str,
    file: Option<String>,
    built_in: &str,
    blue: &str,
    reset: &str,
) -> (r: (String, Option<String>))
    ensures
        r.0@ == preferences::model_to_use(explicit_model@, env@, file, built_in@),
        r.1 is Some <==> explicit_model@.len() == 0 && r.0@.len() > 0,
        r.1 is Some ==> r.1->0@ == blue@ + "model not provided, using default model "@ + r.0@ + reset@,
{
    let effective = preferences::resolve_model(explicit_model, env, file, built_in);
    if explicit_model.is_empty() && !effective.as_str().is_empty() {
        let notice = text::cat4(blue, "model not provided, using default model ", effective.as_str(), reset);
        (effective, Some(notice))
    } else {
        (effective, None)
    }
}

/// What the command does.
#[derive(Clone, Copy, Debug, PartialEq, Eq, Structural)]
pub enum DefaultAction {
    /// Forget the saved model.
    Clear,
    /// Save the named one.
    Save,
    /// Show what is in effect.
    Show,
}

/// What the command does: `--clear` goes before a model that is named.
pub fn default_action(clear: bool, model: &str) -> (r: DefaultAction)
    ensures
        r == if clear {
            DefaultAction::Clear
        } else if model@.len() > 0 {
            DefaultAction::Save
        } else {
            DefaultAction::Show
        },
{
    if clear {
        DefaultAction::Clear
    } else if model.is_empty() {
        DefaultAction::Show
    } else {
        DefaultAction::Save
    }
}

/// The writes of a model that was forgotten.
pub open spec fn cleared_document() -> Seq<output::JsonOpView> {
    seq![output::begin_object(), output::field_bool("cleared"@, true), output::end_object()]
}

/// The document of a model that was forgotten.
pub fn cleared_json() -> (json: JsonWriter)
    ensures
        json@ == cleared_document(),
{
    let mut json = JsonWriter::new();
    json.begin_object();
    json.field_bool("cleared", true);
    json.end_object();
    json
}

/// The status line of a model that was forgotten.
pub fn cleared_line() -> (r: String)
    ensures
        r@ == "default model cleared"@,
{
    text::owned("default model cleared")
}

/// The writes of a model that was saved.
pub open spec fn saved_document(model: Seq<char>) -> Seq<output::JsonOpView> {
    seq![
        output::begin_object(),
        output::field_str("model"@, model),
        output::field_str("source"@, "file"@),
        output::end_object(),
    ]
}

/// The document of a model that was saved.
pub fn saved_json(model: &str) -> (json: JsonWriter)
    ensures
        json@ == saved_document(model@),
{
    let mut json = JsonWriter::new();
    json.begin_object();
    json.field_str("model", model);
    json.field_str("source", "file");
    json.end_object();
    json
}

/// The status line of a model that was saved.
pub fn saved_line(model: &str) -> (r: String)
    ensures
        r@ == "default model set to "@ + model@,
{
    text::cat2("default model set to ", model)
}

/// Where a default comes from, as it is written.
pub open spec fn source_text(source: DefaultModelSource) -> Seq<char> {
    match source {
        DefaultModelSource::Environment => "environment"@,
        DefaultModelSource::File => "file"@,
        DefaultModelSource::BuiltIn => "built-in"@,
        DefaultModelSource::Nowhere => ""@,
    }
}

/// The writes of what is in effect.
pub open spec fn current_document(current: DefaultModel) -> Seq<output::JsonOpView> {
    if current.source == DefaultModelSource::Nowhere {
        seq![output::begin_object(), output::field_null("model"@), output::end_object()]
    } else {
        seq![
            output::begin_object(),
            output::field_str("model"@, current.id@),
            output::field_str("source"@, source_text(current.source)),
            output::end_object(),
        ]
    }
}

/// The document of what is in effect.
pub fn current_json(current: &DefaultModel) -> (json: JsonWriter)
    ensures
        json@ == current_document(*current),
{
    let mut json = JsonWriter::new();
    json.begin_object();
    match current.source {
        DefaultModelSource::Nowhere => json.field_null("model"),
        DefaultModelSource::Environment => {
            json.field_str("model", current.id.as_str());
            json.field_str("source", "environment");
        },
        DefaultModelSource::File => {
            json.field_str("model", current.id.as_str());
            json.field_str("source", "file");
        },
        DefaultModelSource::BuiltIn => {
            json.field_str("model", current.id.as_str());
            json.field_str("source", "built-in");
        },
    }
    json.end_object();
    json
}

/// What is said of what is in effect.
pub open spec fn current_said(current: DefaultModel) -> (output::Channel, Seq<char>) {
    match current.source {
        DefaultModelSource::Environment => output::result(current.id@ + " (from WALLY_DEFAULT_MODEL)"@),
        DefaultModelSource::File => output::result(current.id@),
        DefaultModelSource::BuiltIn => output::result(current.id@ + " (built-in default)"@),
        DefaultModelSource::Nowhere => output::status("no default model set; pass one to save it"@),
    }
}

/// The line of what is in effect.
pub fn current_line(current: &DefaultModel) -> (r: Printed)
    ensures
        r@ == seq![current_said(*current)],
{
    let mut printed = Printed::new();
    match current.source {
        DefaultModelSource::Environment => printed.result(
            text::cat2(current.id.as_str(), " (from WALLY_DEFAULT_MODEL)"),
        ),
        DefaultModelSource::File => printed.result(text::owned(current.id.as_str())),
        DefaultModelSource::BuiltIn => printed.result(text::cat2(current.id.as_str(), " (built-in default)")),
        DefaultModelSource::Nowhere => printed.status(text::owned("no default model set; pass one to save it")),
    }
    printed
}

/// What the command shows, once the model was forgotten or saved, or could not
/// be: `done` says which. Showing what is in effect cannot fail.
pub open spec fn default_shown(
    action: DefaultAction,
    model: Seq<char>,
    done: Result<(), String>,
    current: DefaultModel,
    json: bool,
) -> ReportView {
    match (action, done) {
        (DefaultAction::Show, _) => if json {
            ReportView::Document(current_document(current))
        } else {
            ReportView::Lines(seq![current_said(current)])
        },
        (_, Err(message)) => ReportView::Lines(seq![output::error(message@)]),
        (DefaultAction::Clear, Ok(_)) => if json {
            ReportView::Document(cleared_document())
        } else {
            ReportView::Lines(seq![output::status("default model cleared"@)])
        },
        (DefaultAction::Save, Ok(_)) => if json {
            ReportView::Document(saved_document(model))
        } else {
            ReportView::Lines(seq![output::status("default model set to "@ + model)])
        },
    }
}

/// What the command shows, and its exit code: 1 if and only if the model could
/// not be forgotten or saved.
pub fn run_default_model(
    action: DefaultAction,
    model: &str,
    done: Result<(), String>,
    current: &DefaultModel,
    json: bool,
) -> (r: (Report, i32))
    ensures
        r.0@ == default_shown(action, model@, done, *current, json),
        r.1 == if action != DefaultAction::Show && done is Err {
            1i32
        } else {
            0
        },
{
    if action == DefaultAction::Show {
        return if json {
            (Report::Document(current_json(current)), 0)
        } else {
            (Report::Lines(current_line(current)), 0)
        };
    }
    let mut printed = Printed::new();
    if let Err(message) = done {
        printed.error(message);
        return (Report::Lines(printed), 1);
    }
    match action {
        DefaultAction::Clear => {
            if json {
                return (Report::Document(cleared_json()), 0);
            }
            printed.status(cleared_line());
        },
        _ => {
            if json {
                return (Report::Document(saved_json(model)), 0);
            }
            printed.status(saved_line(model));
        },
    }
    (Report::Lines(printed), 0)
}

/// The default that is shown is the one in effect, with where it comes from; what
/// was saved is told by its name, and a failure as an error.
pub proof fn a_default_is_told_as_it_is(
    model: Seq<char>,
    message: String,
    current: DefaultModel,
    done: Result<(), String>,
    json: bool,
)
    ensures
        current.source != DefaultModelSource::Nowhere ==> current_document(current)[1] == output::field_str(
            "model"@,
            current.id@,
        ),
        current.source == DefaultModelSource::Nowhere ==> current_document(current)[1] == output::field_null("model"@),
        current.source == DefaultModelSource::Environment ==> current_document(current)[2] == output::field_str(
            "source"@,
            "environment"@,
        ) && current_said(current) == (output::Channel::Result, current.id@ + " (from WALLY_DEFAULT_MODEL)"@),
        current.source == DefaultModelSource::File ==> current_document(current)[2] == output::field_str(
            "source"@,
            "file"@,
        ) && current_said(current) == (output::Channel::Result, current.id@),
        current.source == DefaultModelSource::BuiltIn ==> current_document(current)[2] == output::field_str(
            "source"@,
            "built-in"@,
        ) && current_said(current) == (output::Channel::Result, current.id@ + " (built-in default)"@),
        current.source == DefaultModelSource::Nowhere ==> current_said(current).0 == output::Channel::Status,
        default_shown(DefaultAction::Show, model, done, current, true) == ReportView::Document(current_document(current)),
        default_shown(DefaultAction::Show, model, done, current, false) == ReportView::Lines(
            seq![current_said(current)],
        ),
        default_shown(DefaultAction::Save, model, Err(message), current, json) == ReportView::Lines(
            seq![(output::Channel::Error, message@)],
        ),
        default_shown(DefaultAction::Clear, model, Err(message), current, json) == ReportView::Lines(
            seq![(output::Channel::Error, message@)],
        ),
        default_shown(DefaultAction::Save, model, Ok(()), current, false) == ReportView::Lines(
            seq![(output::Channel::Status, "default model set to "@ + model)],
        ),
        default_shown(DefaultAction::Save, model, Ok(()), current, true) == ReportView::Document(saved_document(model)),
        saved_document(model)[1] == output::field_str("model"@, model),
        default_shown(DefaultAction::Clear, model, Ok(()), current, true) == ReportView::Document(cleared_document()),
        cleared_document()[1] == output::field_bool("cleared"@, true),
{
}

/// The `models default` command.
pub open spec fn default_model_command() -> CommandView {
    cli::command("models"@, "default"@, "Show or set the default model for coding tools"@)
        .option(cli::opt("model"@, ValueType::Text, "Model id to save as the default (omit to show it)"@))
        .option(cli::flag("--clear"@, "Forget the saved default"@))
        .example("wally models default glm-5.3-flash"@, ""@)
        .example("wally models default --clear"@, ""@)
        .action(Action::DefaultModel)
}

/// Registers `default` below `models`; without that namespace it is left out.
pub fn register_default_models(app: &mut App)
    ensures
        cli::has_command(old(app)@.commands, Seq::empty(), "models"@) ==> final(app)@ == old(app)@.push(default_model_command()),
        !cli::has_command(old(app)@.commands, Seq::empty(), "models"@) ==> *final(app) == *old(app),
{
    if !app.has_subcommand("models") {
        return;
    }
    let mut cmd = Command::new("models", "default", "Show or set the default model for coding tools");
    cmd.add_option(Opt::value("model", ValueType::Text, "Model id to save as the default (omit to show it)"));
    cmd.add_option(Opt::flag("--clear", "Forget the saved default"));
    cmd.example("wally models default glm-5.3-flash", "");
    cmd.example("wally models default --clear", "");
    cmd.callback(Action::DefaultModel);
    app.add(cmd);
}

} // verus!
