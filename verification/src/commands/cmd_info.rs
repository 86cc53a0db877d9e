//! `wally info`: versions, paths, memory and backends, in short.

use crate::cli;
use crate::cli::{Action, App, Command, CommandView};
use crate::commands::cmd_version;
use crate::output;
use crate::output::Channel;
use crate::output::JsonWriter;
use crate::output::Printed;
use crate::text;
use vstd::prelude::*;

verus! {

/// The memory of the machine, in bytes and as it is shown.
#[derive(Clone, Debug, Default)]
pub struct Memory {
    pub total_bytes: u64,
    pub available_bytes: u64,
    pub total_text: String,
    pub available_text: String,
}

/// What `wally info` shows.
#[derive(Clone, Debug, Default)]
pub struct InfoFacts {
    pub wally: String,
    pub commons: Option<String>,
    pub platform: String,
    pub home: String,
    pub models_dir: String,
    pub state_dir: String,
    pub backends: i64,
    /// None where the machine does not say.
    pub memory: Option<Memory>,
}

/// The writes for the memory, where it is known.
pub open spec fn memory_json(memory: Option<Memory>) -> Seq<output::JsonOpView> {
    match memory {
        Some(m) => seq![
            output::field_i64("memory_total_bytes"@, (m.total_bytes as i64) as int),
            output::field_i64("memory_available_bytes"@, (m.available_bytes as i64) as int),
        ],
        None => Seq::empty(),
    }
}

/// Writes the memory; see [`memory_json`].
pub fn put_memory(json: &mut JsonWriter, memory: &Option<Memory>)
    ensures
        final(json)@ == old(json)@ + memory_json(*memory),
{
    if let Some(m) = memory {
        json.field_i64("memory_total_bytes", m.total_bytes as i64);
        json.field_i64("memory_available_bytes", m.available_bytes as i64);
    }
    assert(json@ =~= old(json)@ + memory_json(*memory));
}

/// How memory is shown.
pub open spec fn memory_text(m: Memory) -> Seq<char> {
    m.available_text@ + " available of "@ + m.total_text@
}

/// See [`memory_text`].
pub fn memory_text_exec(m: &Memory) -> (r: String)
    ensures
        r@ == memory_text(*m),
{
    text::cat3(m.available_text.as_str(), " available of ", m.total_text.as_str())
}

/// The writes for the facts.
pub open spec fn info_document(f: InfoFacts) -> Seq<output::JsonOpView> {
    seq![
        output::begin_object(),
        output::field_str("wally"@, f.wally@),
        output::field_str("commons"@, cmd_version::commons_of(f.commons)),
        output::field_str("platform"@, f.platform@),
        output::field_str("home"@, f.home@),
        output::field_str("models_dir"@, f.models_dir@),
        output::field_str("state_dir"@, f.state_dir@),
        output::field_i64("backends"@, f.backends as int),
    ] + memory_json(f.memory) + seq![output::end_object()]
}

/// The document of the facts.
pub fn info_json(f: &InfoFacts) -> (json: JsonWriter)
    ensures
        json@ == info_document(*f),
{
    let mut json = JsonWriter::new();
    json.begin_object();
    json.field_str("wally", f.wally.as_str());
    json.field_str("commons", cmd_version::commons_version(&f.commons).as_str());
    json.field_str("platform", f.platform.as_str());
    json.field_str("home", f.home.as_str());
    json.field_str("models_dir", f.models_dir.as_str());
    json.field_str("state_dir", f.state_dir.as_str());
    json.field_i64("backends", f.backends);
    put_memory(&mut json, &f.memory);
    json.end_object();
    json
}

/// A label and its value; the values all start in one column.
pub open spec fn info_row(label: Seq<char>, value: Seq<char>) -> (output::Channel, Seq<char>) {
    output::result(text::pad_end(label, 10) + value)
}

fn put_row(printed: &mut Printed, label: &str, value: &str)
    ensures
        final(printed)@ == old(printed)@.push(info_row(label@, value@)),
{
    printed.result(text::cat2(text::pad_end_exec(label, 10).as_str(), value));
}

/// The lines of the facts.
pub open spec fn info_text(f: InfoFacts) -> Seq<(Channel, Seq<char>)> {
    seq![
        info_row("wally"@, f.wally@),
        info_row("commons"@, cmd_version::commons_of(f.commons)),
        info_row("platform"@, f.platform@),
        info_row("home"@, f.home@),
        info_row("models"@, f.models_dir@),
        info_row("backends"@, text::dec(f.backends as int)),
    ] + (match f.memory {
        Some(m) => seq![info_row("memory"@, memory_text(m))],
        None => Seq::empty(),
    })
}

/// The lines of the facts.
pub fn info_lines(f: &InfoFacts) -> (r: Printed)
    ensures
        r@ == info_text(*f),
{
    let mut printed = Printed::new();
    put_row(&mut printed, "wally", f.wally.as_str());
    put_row(&mut printed, "commons", cmd_version::commons_version(&f.commons).as_str());
    put_row(&mut printed, "platform", f.platform.as_str());
    put_row(&mut printed, "home", f.home.as_str());
    put_row(&mut printed, "models", f.models_dir.as_str());
    put_row(&mut printed, "backends", text::dec_i64(f.backends).as_str());
    if let Some(m) = &f.memory {
        put_row(&mut printed, "memory", memory_text_exec(m).as_str());
    }
    printed
}

/// What is told of an install is told under its own names; memory only where it is
/// known, what is free before what there is.
pub proof fn an_install_is_told_as_it_is(f: InfoFacts)
    ensures
        ({
            let ops = info_document(f);
            &&& ops[1] == output::field_str("wally"@, f.wally@)
            &&& f.commons is Some ==> ops[2] == output::field_str("commons"@, f.commons->0@)
            &&& ops[3] == output::field_str("platform"@, f.platform@)
            &&& ops[4] == output::field_str("home"@, f.home@)
            &&& ops[5] == output::field_str("models_dir"@, f.models_dir@)
            &&& ops[6] == output::field_str("state_dir"@, f.state_dir@)
            &&& ops[7] == output::field_i64("backends"@, f.backends as int)
            &&& f.memory is Some && f.memory->0.total_bytes <= i64::MAX ==> ops[8] == output::field_i64(
                "memory_total_bytes"@,
                f.memory->0.total_bytes as int,
            )
            &&& f.memory is Some && f.memory->0.available_bytes <= i64::MAX ==> ops[9] == output::field_i64(
                "memory_available_bytes"@,
                f.memory->0.available_bytes as int,
            )
            &&& f.memory is None ==> ops.len() == 9
        }),
        ({
            let lines = info_text(f);
            &&& lines[0] == (Channel::Result, text::pad_end("wally"@, 10) + f.wally@)
            &&& f.commons is Some ==> lines[1] == (Channel::Result, text::pad_end("commons"@, 10) + f.commons->0@)
            &&& lines[2] == (Channel::Result, text::pad_end("platform"@, 10) + f.platform@)
            &&& lines[3] == (Channel::Result, text::pad_end("home"@, 10) + f.home@)
            &&& lines[4] == (Channel::Result, text::pad_end("models"@, 10) + f.models_dir@)
            &&& lines[5] == (Channel::Result, text::pad_end("backends"@, 10) + text::dec(f.backends as int))
            &&& f.memory is Some ==> lines[6] == (
                Channel::Result,
                text::pad_end("memory"@, 10) + (f.memory->0.available_text@ + " available of "@
                    + f.memory->0.total_text@),
            )
            &&& f.memory is None ==> lines.len() == 6
        }),
{
}

/// The `info` command.
pub open spec fn info_command() -> CommandView {
    cli::top("info"@, "Show versions, paths, memory and backends"@)
        .action(Action::Info)
}

/// Registers `info`.
pub fn register_info(app: &mut App)
    ensures
        final(app)@ == old(app)@.push(info_command()),
{
    let mut cmd = Command::top("info", "Show versions, paths, memory and backends");
    cmd.callback(Action::Info);
    app.add(cmd);
}

} // verus!
