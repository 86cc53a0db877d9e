//! `wally auth login`: signs this device in to the control plane.

use crate::calendar;
use crate::cli;
use crate::cli::{Action, App, Command, CommandView};
use crate::output;
use crate::output::JsonWriter;
use crate::output::Printed;
use crate::text;
use vstd::prelude::*;

verus! {

/// What a handshake with the control plane came to.
#[derive(Clone, Debug, Default)]
pub struct LoginSummary {
    pub organization_id: String,
    pub user_id: String,
    pub backend_device_id: String,
    pub persistent_device_id: String,
    pub token_expires_at: i64,
    pub has_completed_http_setup: bool,
    pub assignment_count: i32,
    pub warning: String,
}

/// The writes for a login.
pub open spec fn auth_document(summary: LoginSummary) -> Seq<output::JsonOpView> {
    seq![
        output::begin_object(),
        output::field_bool("success"@, summary.has_completed_http_setup),
        output::field_str("organization_id"@, summary.organization_id@),
        output::field_str("user_id"@, summary.user_id@),
        output::field_str("device_id"@, summary.backend_device_id@),
        output::field_str("device_uuid"@, summary.persistent_device_id@),
        output::field_str("token_expires_at"@, calendar::instant_text(summary.token_expires_at as int)),
        output::field_bool("has_completed_http_setup"@, summary.has_completed_http_setup),
        output::field_i64("assignments"@, summary.assignment_count as int),
    ] + (if summary.warning@.len() > 0 {
        seq![output::field_str("warning"@, summary.warning@)]
    } else {
        Seq::empty()
    }) + seq![output::end_object()]
}

/// The document of a handshake.
pub fn auth_json(summary: &LoginSummary) -> (json: JsonWriter)
    ensures
        json@ == auth_document(*summary),
{
    let mut json = JsonWriter::new();
    json.begin_object();
    json.field_bool("success", summary.has_completed_http_setup);
    json.field_str("organization_id", summary.organization_id.as_str());
    json.field_str("user_id", summary.user_id.as_str());
    json.field_str("device_id", summary.backend_device_id.as_str());
    json.field_str("device_uuid", summary.persistent_device_id.as_str());
    json.field_str("token_expires_at", calendar::format_epoch_seconds(summary.token_expires_at).as_str());
    json.field_bool("has_completed_http_setup", summary.has_completed_http_setup);
    json.field_i64("assignments", summary.assignment_count as i64);
    if !summary.warning.as_str().is_empty() {
        json.field_str("warning", summary.warning.as_str());
    }
    json.end_object();
    json
}

/// The lines of a handshake.
pub open spec fn auth_text(summary: LoginSummary) -> Seq<(output::Channel, Seq<char>)> {
    seq![
        output::result("organization   "@ + summary.organization_id@),
        output::result("user           "@ + text::first_given(summary.user_id@, "-"@)),
        output::result("device         "@ + summary.backend_device_id@),
        output::result("device-uuid    "@ + summary.persistent_device_id@),
        output::result("token expires  "@ + calendar::instant_text(summary.token_expires_at as int)),
        output::result(
            "http setup     "@ + if summary.has_completed_http_setup {
                "completed"@
            } else {
                "NOT completed"@
            },
        ),
        output::result("assignments    "@ + text::dec(summary.assignment_count as int) + " model(s)"@),
    ] + (if summary.warning@.len() > 0 {
        seq![output::status("warning: "@ + summary.warning@)]
    } else {
        Seq::empty()
    })
}

/// See [`auth_text`].
pub fn auth_lines(summary: &LoginSummary) -> (r: Printed)
    ensures
        r@ == auth_text(*summary),
{
    let mut printed = Printed::new();
    printed.result(text::cat2("organization   ", summary.organization_id.as_str()));
    let user = text::first_given_exec(summary.user_id.as_str(), "-");
    printed.result(text::cat2("user           ", user.as_str()));
    printed.result(text::cat2("device         ", summary.backend_device_id.as_str()));
    printed.result(text::cat2("device-uuid    ", summary.persistent_device_id.as_str()));
    let expires = calendar::format_epoch_seconds(summary.token_expires_at);
    printed.result(text::cat2("token expires  ", expires.as_str()));
    printed.result(
        text::cat2(
            "http setup     ",
            if summary.has_completed_http_setup {
                "completed"
            } else {
                "NOT completed"
            },
        ),
    );
    printed.result(
        text::cat3("assignments    ", text::dec_i64(summary.assignment_count as i64).as_str(), " model(s)"),
    );
    if !summary.warning.as_str().is_empty() {
        printed.status(text::cat2("warning: ", summary.warning.as_str()));
    }
    assert(printed@ =~= auth_text(*summary));
    printed
}

/// How a handshake ends, with its exit code: one that never completed its setup
/// is a failure, whatever else it gave.
pub fn run_auth_login(summary: &LoginSummary) -> (r: (Option<String>, i32))
    ensures
        summary.has_completed_http_setup ==> r.0 is None && r.1 == 0,
        !summary.has_completed_http_setup ==> r.1 == 1 && r.0 is Some && (r.0)->0@ == "HTTP/auth setup did not complete"@
            + if summary.warning@.len() > 0 {
            ": "@ + summary.warning@
        } else {
            Seq::empty()
        },
{
    if summary.has_completed_http_setup {
        return (None, 0);
    }
    if summary.warning.as_str().is_empty() {
        assert("HTTP/auth setup did not complete"@ + Seq::empty() =~= "HTTP/auth setup did not complete"@);
        (Some(text::owned("HTTP/auth setup did not complete")), 1)
    } else {
        let line = text::cat3("HTTP/auth setup did not complete", ": ", summary.warning.as_str());
        assert(line@ =~= "HTTP/auth setup did not complete"@ + (": "@ + summary.warning@));
        (Some(line), 1)
    }
}

/// The exit code of a login: 0 if and only if the engine started, the console let
/// us in, and the setup was completed. `summary` is what the console said.
pub fn auth_code(started: bool, summary: &Option<LoginSummary>) -> (r: i32)
    ensures
        r == if started && *summary is Some && summary->0.has_completed_http_setup {
            0i32
        } else {
            1
        },
{
    match summary {
        Some(s) if started => run_auth_login(s).1,
        _ => 1,
    }
}

/// What is told of a login is told under its own names; it succeeded where its setup
/// completed.
pub proof fn a_login_is_told_as_it_is(summary: LoginSummary)
    ensures
        ({
            let ops = auth_document(summary);
            &&& ops[1] == output::field_bool("success"@, summary.has_completed_http_setup)
            &&& ops[2] == output::field_str("organization_id"@, summary.organization_id@)
            &&& ops[3] == output::field_str("user_id"@, summary.user_id@)
            &&& ops[4] == output::field_str("device_id"@, summary.backend_device_id@)
            &&& ops[5] == output::field_str("device_uuid"@, summary.persistent_device_id@)
            &&& ops[6] == output::field_str(
                "token_expires_at"@,
                calendar::instant_text(summary.token_expires_at as int),
            )
            &&& ops[7] == output::field_bool("has_completed_http_setup"@, summary.has_completed_http_setup)
            &&& ops[8] == output::field_i64("assignments"@, summary.assignment_count as int)
            &&& summary.warning@.len() > 0 ==> ops[9] == output::field_str("warning"@, summary.warning@)
            &&& summary.warning@.len() == 0 ==> ops.len() == 10
        }),
        ({
            let lines = auth_text(summary);
            &&& lines[0] == (output::Channel::Result, "organization   "@ + summary.organization_id@)
            &&& summary.user_id@.len() > 0 ==> lines[1] == (
                output::Channel::Result,
                "user           "@ + summary.user_id@,
            )
            &&& summary.user_id@.len() == 0 ==> lines[1] == (output::Channel::Result, "user           "@ + "-"@)
            &&& lines[2] == (output::Channel::Result, "device         "@ + summary.backend_device_id@)
            &&& lines[3] == (output::Channel::Result, "device-uuid    "@ + summary.persistent_device_id@)
            &&& summary.has_completed_http_setup ==> lines[5] == (
                output::Channel::Result,
                "http setup     "@ + "completed"@,
            )
            &&& !summary.has_completed_http_setup ==> lines[5] == (
                output::Channel::Result,
                "http setup     "@ + "NOT completed"@,
            )
            &&& summary.warning@.len() > 0 ==> lines.last() == (
                output::Channel::Status,
                "warning: "@ + summary.warning@,
            )
            &&& summary.warning@.len() == 0 ==> lines.len() == 7
        }),
{
}

/// The `auth` namespace.
pub open spec fn auth_command() -> CommandView {
    cli::top("auth"@, "Sign this device in to the control plane"@)
        .require_subcommand(1, 1)
}

/// The `auth login` command.
pub open spec fn auth_login_command() -> CommandView {
    cli::command("auth"@, "login"@, "Exchange the API key for a JWT, register this device and fetch model assignments. Requires --environment production with --base-url and --api-key (or RUNANYWHERE_* env vars). Keyless development has no login path."@)
        .action(Action::AuthLogin)
}

/// Registers `auth` and its verb.
pub fn register_auth(app: &mut App)
    ensures
        final(app)@ == old(app)@.push(auth_command()).push(auth_login_command()),
{
    let mut cmd = Command::top("auth", "Sign this device in to the control plane");
    cmd.require_subcommand(1, 1);
    app.add(cmd);
    let mut login_cmd = Command::new("auth", "login", "Exchange the API key for a JWT, register this device and fetch model assignments. Requires --environment production with --base-url and --api-key (or RUNANYWHERE_* env vars). Keyless development has no login path.");
    login_cmd.callback(Action::AuthLogin);
    app.add(login_cmd);
}

} // verus!
