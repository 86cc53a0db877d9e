//! `wally version`: the versions of the program and of the engine kit.

use crate::cli;
use crate::cli::{Action, App, Command, CommandView};
use crate::output;
use crate::output::Channel;
use crate::output::JsonWriter;
use crate::output::Printed;
use crate::text;
use vstd::prelude::*;

verus! {

/// What a build is made of. A kit that does not say its version is unknown, and
/// an empty pin pins nothing.
#[derive(Clone, Debug, Default)]
pub struct Versions {
    pub wally: String,
    pub commons: Option<String>,
    pub pinned_sdk: String,
    pub idl_version: String,
    pub idl_schema_sha256: String,
    pub idl_protoc: String,
}

/// The kit's version.
pub open spec fn commons_of(commons: Option<String>) -> Seq<char> {
    match commons {
        Some(v) => v@,
        None => "unknown"@,
    }
}

/// See [`commons_of`].
pub fn commons_version(commons: &Option<String>) -> (r: String)
    ensures
        r@ == commons_of(*commons),
{
    match commons {
        Some(v) => text::owned(v.as_str()),
        None => text::owned("unknown"),
    }
}

/// Whether the kit is the one that the build was pinned to.
pub open spec fn matches_pin(v: Versions) -> bool {
    v.pinned_sdk@.len() == 0 || commons_of(v.commons) == v.pinned_sdk@
}

/// See [`matches_pin`].
pub fn pin_ok(v: &Versions) -> (r: bool)
    ensures
        r == matches_pin(*v),
{
    v.pinned_sdk.as_str().is_empty() || text::str_eq(commons_version(&v.commons).as_str(), v.pinned_sdk.as_str())
}

/// The writes for the versions.
pub open spec fn version_document(v: Versions) -> Seq<output::JsonOpView> {
    seq![
        output::begin_object(),
        output::field_str("wally"@, v.wally@),
        output::field_str("commons"@, commons_of(v.commons)),
        output::field_str("pinned_sdk"@, v.pinned_sdk@),
        output::field_str("idl_version"@, v.idl_version@),
        output::field_str("idl_schema_sha256"@, v.idl_schema_sha256@),
        output::field_str("idl_protoc"@, v.idl_protoc@),
        output::field_bool("pin_ok"@, matches_pin(v)),
        output::end_object(),
    ]
}

/// The document of the versions.
pub fn version_json(v: &Versions) -> (json: JsonWriter)
    ensures
        json@ == version_document(*v),
{
    let mut json = JsonWriter::new();
    json.begin_object();
    json.field_str("wally", v.wally.as_str());
    json.field_str("commons", commons_version(&v.commons).as_str());
    json.field_str("pinned_sdk", v.pinned_sdk.as_str());
    json.field_str("idl_version", v.idl_version.as_str());
    json.field_str("idl_schema_sha256", v.idl_schema_sha256.as_str());
    json.field_str("idl_protoc", v.idl_protoc.as_str());
    json.field_bool("pin_ok", pin_ok(v));
    json.end_object();
    json
}

/// The lines of the versions.
pub open spec fn version_text(v: Versions) -> Seq<(Channel, Seq<char>)> {
    seq![
        output::result("wally "@ + v.wally@ + " (commons "@ + commons_of(v.commons) + ")"@),
        output::result("idl "@ + v.idl_version@ + " sha256 "@ + v.idl_schema_sha256@),
    ]
}

/// The lines of the versions.
pub fn version_lines(v: &Versions) -> (r: Printed)
    ensures
        r@ == version_text(*v),
{
    let mut printed = Printed::new();
    printed.result(
        text::cat5("wally ", v.wally.as_str(), " (commons ", commons_version(&v.commons).as_str(), ")"),
    );
    printed.result(text::cat4("idl ", v.idl_version.as_str(), " sha256 ", v.idl_schema_sha256.as_str()));
    printed
}

/// What is wrong with the kit, if it is not the pinned one, with the exit code;
/// else the exit code is 0.
pub fn pin_problem(v: &Versions) -> (r: Option<(String, i32)>)
    ensures
        r is Some <==> !matches_pin(*v),
        r is Some ==> (r->0).0@ == "commons "@ + commons_of(v.commons) + " does not match pin "@ + v.pinned_sdk@
            && (r->0).1 == 1,
{
    if pin_ok(v) {
        None
    } else {
        let message = text::cat4(
            "commons ",
            commons_version(&v.commons).as_str(),
            " does not match pin ",
            v.pinned_sdk.as_str(),
        );
        Some((message, 1))
    }
}

/// A build is good where it pins nothing, or the library it runs with is the one it
/// was pinned to; what is told of it is told under its own names.
pub proof fn a_version_is_told_as_it_is(v: Versions)
    ensures
        v.pinned_sdk@.len() == 0 ==> matches_pin(v),
        v.pinned_sdk@.len() > 0 && v.commons is Some ==> matches_pin(v) == (v.commons->0@ == v.pinned_sdk@),
        ({
            let ops = version_document(v);
            &&& ops[1] == output::field_str("wally"@, v.wally@)
            &&& v.commons is Some ==> ops[2] == output::field_str("commons"@, v.commons->0@)
            &&& v.commons is None ==> ops[2] == output::field_str("commons"@, "unknown"@)
            &&& ops[3] == output::field_str("pinned_sdk"@, v.pinned_sdk@)
            &&& ops[4] == output::field_str("idl_version"@, v.idl_version@)
            &&& ops[5] == output::field_str("idl_schema_sha256"@, v.idl_schema_sha256@)
            &&& ops[6] == output::field_str("idl_protoc"@, v.idl_protoc@)
            &&& ops[7] == output::field_bool("pin_ok"@, matches_pin(v))
        }),
        v.commons is Some ==> version_text(v)[0] == (
            Channel::Result,
            "wally "@ + v.wally@ + " (commons "@ + v.commons->0@ + ")"@,
        ),
        version_text(v)[1] == (Channel::Result, "idl "@ + v.idl_version@ + " sha256 "@ + v.idl_schema_sha256@),
{
}

/// The `version` command.
pub open spec fn version_command() -> CommandView {
    cli::top("version"@, "Show wally and SDK versions"@)
        .action(Action::Version)
}

/// Registers `version`.
pub fn register_version(app: &mut App)
    ensures
        final(app)@ == old(app)@.push(version_command()),
{
    let mut cmd = Command::top("version", "Show wally and SDK versions");
    cmd.callback(Action::Version);
    app.add(cmd);
}

} // verus!
