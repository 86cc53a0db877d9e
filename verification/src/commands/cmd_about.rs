//! `wally about`: a panel of the product, the system, the runtime, the paths and
//! the signed-in account.

use crate::cli;
use crate::cli::{Action, App, Command, CommandView};
use crate::commands::EngineRow;
use crate::commands::cmd_backends;
use crate::commands::cmd_info;
use crate::commands::cmd_info::Memory;
use crate::commands::cmd_version;
use crate::device_info::DeviceSnapshot;
use crate::output;
use crate::output::Channel;
use crate::output::JsonWriter;
use crate::output::Printed;
use crate::text;
use vstd::prelude::*;

verus! {

/// What the panel shows.
pub struct AboutFacts {
    pub wally: String,
    pub commons: Option<String>,
    pub idl_version: String,
    pub idl_schema_sha256: String,
    pub platform: String,
    /// The console that is compiled in: empty in a production build.
    pub baked_console: String,
    pub console_url: String,
    pub device: DeviceSnapshot,
    /// None where the machine does not say.
    pub memory: Option<Memory>,
    pub engines: Vec<(String, EngineRow)>,
    pub home: String,
    pub models_dir: String,
    pub state_dir: String,
    /// The address and the console of the signed-in account.
    pub account: Option<(String, String)>,
}

/// The escape sequences that color the panel; empty ones leave it plain.
#[derive(Clone, Debug, Default)]
pub struct Palette {
    pub bold: String,
    pub bold_cyan: String,
    pub reset: String,
}

/// Which build this is: one with a console compiled in is for development.
pub open spec fn channel_of(f: AboutFacts) -> Seq<char> {
    if f.baked_console@.len() > 0 {
        "development"@
    } else {
        "production"@
    }
}

/// See [`channel_of`].
pub fn channel(f: &AboutFacts) -> (r: &'static str)
    ensures
        r@ == channel_of(*f),
{
    if f.baked_console.as_str().is_empty() {
        "production"
    } else {
        "development"
    }
}

/// The bare names of what an engine serves.
pub open spec fn primitive_values(items: Seq<String>) -> Seq<output::JsonOpView> {
    items.map_values(|s: String| output::value_str(s@))
}

/// The writes for one engine.
pub open spec fn engine_json(row: (String, EngineRow)) -> Seq<output::JsonOpView> {
    seq![
        output::begin_array_object(),
        output::field_str("name"@, row.0@),
        output::field_str("display_name"@, row.1.display_name@),
        output::field_str("version"@, row.1.version@),
        output::field_i64("priority"@, row.1.priority as int),
        output::begin_array("primitives"@),
    ] + primitive_values(row.1.primitives@) + seq![output::end_array(), output::end_object()]
}

/// The writes for the first `n` engines.
pub open spec fn engines_json(rows: Seq<(String, EngineRow)>, n: int) -> Seq<output::JsonOpView>
    decreases n,
{
    if n <= 0 {
        Seq::empty()
    } else {
        engines_json(rows, n - 1) + engine_json(rows[n - 1])
    }
}

fn put_engine(json: &mut JsonWriter, row: &(String, EngineRow))
    ensures
        final(json)@ == old(json)@ + engine_json(*row),
{
    json.begin_array_object();
    json.field_str("name", row.0.as_str());
    json.field_str("display_name", row.1.display_name.as_str());
    json.field_str("version", row.1.version.as_str());
    json.field_i64("priority", row.1.priority as i64);
    json.begin_array("primitives");
    let ghost head = json@;
    let ghost values = primitive_values(row.1.primitives@);
    assert(head + values.take(0) =~= head);
    let mut i: usize = 0;
    while i < row.1.primitives.len()
        invariant
            i <= row.1.primitives@.len(),
            values == primitive_values(row.1.primitives@),
            json@ == head + values.take(i as int),
        decreases row.1.primitives@.len() - i,
    {
        json.value_str(row.1.primitives[i].as_str());
        i = i + 1;
        assert(json@ =~= head + values.take(i as int));
    }
    assert(values.take(i as int) =~= values);
    json.end_array();
    json.end_object();
    assert(json@ =~= old(json)@ + engine_json(*row));
}

fn put_engines(json: &mut JsonWriter, rows: &Vec<(String, EngineRow)>)
    ensures
        final(json)@ == old(json)@ + seq![output::begin_array("backends"@)] + engines_json(rows@, rows@.len() as int)
            + seq![output::end_array()],
{
    let ghost before = json@;
    json.begin_array("backends");
    let ghost head = json@;
    assert(head =~= before + seq![output::begin_array("backends"@)]);
    assert(head + engines_json(rows@, 0) =~= head);
    let mut i: usize = 0;
    while i < rows.len()
        invariant
            i <= rows@.len(),
            json@ == head + engines_json(rows@, i as int),
        decreases rows@.len() - i,
    {
        put_engine(json, &rows[i]);
        i = i + 1;
        assert(json@ =~= head + engines_json(rows@, i as int));
    }
    json.end_array();
    assert(json@ =~= head + engines_json(rows@, rows@.len() as int) + seq![output::end_array()]);
}

/// The writes for the product and the machine.
pub open spec fn product_json(f: AboutFacts) -> Seq<output::JsonOpView> {
    seq![
        output::begin_object(),
        output::field_str("wally"@, f.wally@),
        output::field_str("commons"@, cmd_version::commons_of(f.commons)),
        output::field_str("idl_version"@, f.idl_version@),
        output::field_str("idl_schema_sha256"@, f.idl_schema_sha256@),
        output::field_str("platform"@, f.platform@),
        output::field_str("channel"@, channel_of(f)),
        output::field_str("console"@, f.console_url@),
        output::field_str("os"@, f.device.os_version@),
        output::field_str("cpu"@, f.device.chip@),
        output::field_i64("core_count"@, f.device.core_count as int),
        output::field_i64("performance_cores"@, f.device.performance_cores as int),
        output::field_i64("efficiency_cores"@, f.device.efficiency_cores as int),
        output::field_str("architecture"@, f.device.architecture@),
    ]
}

/// The writes for the paths and the account.
pub open spec fn place_json(f: AboutFacts) -> Seq<output::JsonOpView> {
    seq![
        output::field_str("home"@, f.home@),
        output::field_str("models_dir"@, f.models_dir@),
        output::field_str("state_dir"@, f.state_dir@),
        output::field_bool("account_signed_in"@, f.account is Some),
    ] + (match f.account {
        Some(account) => seq![
            output::field_str("account_email"@, account.0@),
            output::field_str("account_console"@, account.1@),
        ],
        None => Seq::empty(),
    }) + seq![output::end_object()]
}

fn put_product(json: &mut JsonWriter, f: &AboutFacts)
    ensures
        final(json)@ == old(json)@ + product_json(*f),
{
    json.begin_object();
    json.field_str("wally", f.wally.as_str());
    json.field_str("commons", cmd_version::commons_version(&f.commons).as_str());
    json.field_str("idl_version", f.idl_version.as_str());
    json.field_str("idl_schema_sha256", f.idl_schema_sha256.as_str());
    json.field_str("platform", f.platform.as_str());
    json.field_str("channel", channel(f));
    json.field_str("console", f.console_url.as_str());
    json.field_str("os", f.device.os_version.as_str());
    json.field_str("cpu", f.device.chip.as_str());
    json.field_i64("core_count", f.device.core_count as i64);
    json.field_i64("performance_cores", f.device.performance_cores as i64);
    json.field_i64("efficiency_cores", f.device.efficiency_cores as i64);
    json.field_str("architecture", f.device.architecture.as_str());
    assert(json@ =~= old(json)@ + product_json(*f));
}

fn put_places(json: &mut JsonWriter, f: &AboutFacts)
    ensures
        final(json)@ == old(json)@ + place_json(*f),
{
    json.field_str("home", f.home.as_str());
    json.field_str("models_dir", f.models_dir.as_str());
    json.field_str("state_dir", f.state_dir.as_str());
    json.field_bool("account_signed_in", f.account.is_some());
    if let Some(account) = &f.account {
        json.field_str("account_email", account.0.as_str());
        json.field_str("account_console", account.1.as_str());
    }
    json.end_object();
    assert(json@ =~= old(json)@ + place_json(*f));
}

/// The writes for the document.
pub open spec fn about_document(f: AboutFacts) -> Seq<output::JsonOpView> {
    product_json(f) + cmd_info::memory_json(f.memory) + (seq![output::begin_array("backends"@)]
        + engines_json(f.engines@, f.engines@.len() as int) + seq![output::end_array()]) + place_json(f)
}

/// The document of the panel.
pub fn about_json(f: &AboutFacts) -> (json: JsonWriter)
    ensures
        json@ == about_document(*f),
{
    let mut json = JsonWriter::new();
    put_product(&mut json, f);
    cmd_info::put_memory(&mut json, &f.memory);
    let ghost known = json@;
    put_engines(&mut json, &f.engines);
    put_places(&mut json, f);
    assert(json@ =~= product_json(*f) + cmd_info::memory_json(f.memory) + (seq![output::begin_array("backends"@)]
        + engines_json(f.engines@, f.engines@.len() as int) + seq![output::end_array()]) + place_json(*f));
    json
}

/// How wide the column of the labels is.
pub const LABEL_WIDTH: usize = 10;

/// The bytes of a text.
pub open spec fn bytes_of(s: Seq<char>) -> int {
    vstd::utf8::encode_utf8(s).len() as int
}

/// The space after a label: up to the column, and at least one.
pub open spec fn label_gap(label: Seq<char>) -> Seq<char> {
    text::repeated(
        ' ',
        if bytes_of(label) < LABEL_WIDTH {
            LABEL_WIDTH - bytes_of(label)
        } else {
            1
        },
    )
}

fn label_gap_exec(label: &str) -> (r: String)
    ensures
        r@ == label_gap(label@),
{
    let n: usize = label.as_bytes().len();
    text::repeat_char(
        ' ',
        if n < LABEL_WIDTH {
            LABEL_WIDTH - n
        } else {
            1
        },
    )
}

/// A label and its value; a long value is never cut.
pub open spec fn about_row(label: Seq<char>, value: Seq<char>) -> (output::Channel, Seq<char>) {
    output::result("  "@ + label + label_gap(label) + value)
}

fn row(printed: &mut Printed, label: &str, value: &str)
    ensures
        final(printed)@ == old(printed)@.push(about_row(label@, value@)),
{
    printed.result(text::cat4("  ", label, label_gap_exec(label).as_str(), value));
}

/// An empty line and the title of a section.
pub open spec fn heading_lines(palette: Palette, title: Seq<char>) -> Seq<(output::Channel, Seq<char>)> {
    seq![output::result(Seq::empty()), output::result(palette.bold@ + title + palette.reset@ + ":"@)]
}

fn heading(printed: &mut Printed, palette: &Palette, title: &str)
    ensures
        final(printed)@ == old(printed)@ + heading_lines(*palette, title@),
{
    printed.result(String::new());
    printed.result(text::cat4(palette.bold.as_str(), title, palette.reset.as_str(), ":"));
    assert(printed@ =~= old(printed)@ + heading_lines(*palette, title@));
}

/// The line of one engine.
pub open spec fn engine_line(palette: Palette, row: (String, EngineRow)) -> (output::Channel, Seq<char>) {
    output::result(
        "  "@ + palette.bold_cyan@ + row.0@ + palette.reset@ + label_gap(row.0@) + "priority "@ + text::dec(
            row.1.priority as int,
        ) + "  "@ + cmd_backends::joined(row.1.primitives@, row.1.primitives@.len() as int),
    )
}

fn put_engine_line(printed: &mut Printed, palette: &Palette, row: &(String, EngineRow))
    ensures
        final(printed)@ == old(printed)@.push(engine_line(*palette, *row)),
{
    let name = text::cat5(
        "  ",
        palette.bold_cyan.as_str(),
        row.0.as_str(),
        palette.reset.as_str(),
        label_gap_exec(row.0.as_str()).as_str(),
    );
    printed.result(
        text::cat5(
            name.as_str(),
            "priority ",
            text::dec_i64(row.1.priority as i64).as_str(),
            "  ",
            cmd_backends::join_primitives(&row.1.primitives).as_str(),
        ),
    );
}

/// The product section.
pub open spec fn product_lines(f: AboutFacts, palette: Palette) -> Seq<(output::Channel, Seq<char>)> {
    heading_lines(palette, "Product"@) + seq![
        about_row("wally"@, f.wally@),
        about_row("commons"@, cmd_version::commons_of(f.commons)),
        about_row("idl"@, f.idl_version@ + " sha256 "@ + f.idl_schema_sha256@),
        about_row("platform"@, f.platform@),
        about_row("channel"@, channel_of(f)),
    ]
}

fn put_product_lines(printed: &mut Printed, f: &AboutFacts, palette: &Palette)
    ensures
        final(printed)@ == old(printed)@ + product_lines(*f, *palette),
{
    heading(printed, palette, "Product");
    row(printed, "wally", f.wally.as_str());
    row(printed, "commons", cmd_version::commons_version(&f.commons).as_str());
    row(
        printed,
        "idl",
        text::cat3(f.idl_version.as_str(), " sha256 ", f.idl_schema_sha256.as_str()).as_str(),
    );
    row(printed, "platform", f.platform.as_str());
    row(printed, "channel", channel(f));
    assert(printed@ =~= old(printed)@ + product_lines(*f, *palette));
}

/// The system section; what the machine does not say is unknown.
pub open spec fn system_lines(f: AboutFacts, palette: Palette) -> Seq<(output::Channel, Seq<char>)> {
    heading_lines(palette, "System"@) + seq![
        about_row("os"@, text::first_given(f.device.os_version@, "unknown"@)),
        about_row(
            "cpu"@,
            text::first_given(f.device.chip@, "unknown"@) + " ("@ + text::dec(f.device.core_count as int) + " cores)"@,
        ),
        about_row("arch"@, text::first_given(f.device.architecture@, "unknown"@)),
    ] + (match f.memory {
        Some(m) => seq![about_row("memory"@, cmd_info::memory_text(m))],
        None => Seq::empty(),
    })
}

fn put_system_lines(printed: &mut Printed, f: &AboutFacts, palette: &Palette)
    ensures
        final(printed)@ == old(printed)@ + system_lines(*f, *palette),
{
    heading(printed, palette, "System");
    row(printed, "os", text::first_given_exec(f.device.os_version.as_str(), "unknown").as_str());
    let chip = text::first_given_exec(f.device.chip.as_str(), "unknown");
    row(
        printed,
        "cpu",
        text::cat4(chip.as_str(), " (", text::dec_i64(f.device.core_count as i64).as_str(), " cores)").as_str(),
    );
    row(printed, "arch", text::first_given_exec(f.device.architecture.as_str(), "unknown").as_str());
    if let Some(m) = &f.memory {
        row(printed, "memory", cmd_info::memory_text_exec(m).as_str());
    }
    assert(printed@ =~= old(printed)@ + system_lines(*f, *palette));
}

/// The runtime section.
pub open spec fn runtime_lines(f: AboutFacts, palette: Palette) -> Seq<(output::Channel, Seq<char>)> {
    heading_lines(palette, "Runtime"@) + (if f.engines@.len() == 0 {
        seq![about_row("backends"@, "none registered"@)]
    } else {
        f.engines@.map_values(|e: (String, EngineRow)| engine_line(palette, e))
    })
}

fn put_runtime_lines(printed: &mut Printed, f: &AboutFacts, palette: &Palette)
    ensures
        final(printed)@ == old(printed)@ + runtime_lines(*f, *palette),
{
    heading(printed, palette, "Runtime");
    let ghost head = printed@;
    let ghost lines = f.engines@.map_values(|e: (String, EngineRow)| engine_line(*palette, e));
    if f.engines.len() == 0 {
        row(printed, "backends", "none registered");
    } else {
        let mut i: usize = 0;
        assert(head + lines.take(0) =~= head);
        while i < f.engines.len()
            invariant
                i <= f.engines@.len(),
                lines == f.engines@.map_values(|e: (String, EngineRow)| engine_line(*palette, e)),
                printed@ == head + lines.take(i as int),
            decreases f.engines@.len() - i,
        {
            put_engine_line(printed, palette, &f.engines[i]);
            assert(lines[i as int] == engine_line(*palette, f.engines@[i as int]));
            i = i + 1;
            assert(printed@ =~= head + lines.take(i as int));
        }
        assert(lines.take(i as int) =~= lines);
    }
    assert(printed@ =~= old(printed)@ + runtime_lines(*f, *palette));
}

/// The sections of the paths and the account, and the empty line at the end. The
/// console is an internal address and not shown.
pub open spec fn place_lines(f: AboutFacts, palette: Palette) -> Seq<(output::Channel, Seq<char>)> {
    heading_lines(palette, "Paths"@) + seq![
        about_row("home"@, f.home@),
        about_row("models"@, f.models_dir@),
        about_row("state"@, f.state_dir@),
    ] + (match f.account {
        Some(account) => heading_lines(palette, "Account"@) + seq![about_row("email"@, account.0@)],
        None => Seq::empty(),
    }) + seq![output::result(Seq::empty())]
}

fn put_place_lines(printed: &mut Printed, f: &AboutFacts, palette: &Palette)
    ensures
        final(printed)@ == old(printed)@ + place_lines(*f, *palette),
{
    heading(printed, palette, "Paths");
    row(printed, "home", f.home.as_str());
    row(printed, "models", f.models_dir.as_str());
    row(printed, "state", f.state_dir.as_str());
    if let Some(account) = &f.account {
        heading(printed, palette, "Account");
        row(printed, "email", account.0.as_str());
    }
    printed.result(String::new());
    assert(printed@ =~= old(printed)@ + place_lines(*f, *palette));
}

/// The lines for a reader.
pub open spec fn about_text(f: AboutFacts, palette: Palette) -> Seq<(Channel, Seq<char>)> {
    product_lines(f, palette) + system_lines(f, palette) + runtime_lines(f, palette) + place_lines(
        f,
        palette,
    )
}

/// The lines of the panel.
pub fn about_lines(f: &AboutFacts, palette: &Palette) -> (r: Printed)
    ensures
        r@ == about_text(*f, *palette),
{
    let mut printed = Printed::new();
    put_product_lines(&mut printed, f, palette);
    put_system_lines(&mut printed, f, palette);
    put_runtime_lines(&mut printed, f, palette);
    put_place_lines(&mut printed, f, palette);
    assert(printed@ =~= product_lines(*f, *palette) + system_lines(*f, *palette) + runtime_lines(*f, *palette)
        + place_lines(*f, *palette));
    printed
}

/// What is told of an install, its machine and its account is told under its own
/// names; an account only where somebody is signed in.
pub proof fn everything_about_it_is_told_as_it_is(f: AboutFacts)
    ensures
        ({
            let ops = product_json(f);
            &&& ops[1] == output::field_str("wally"@, f.wally@)
            &&& f.commons is Some ==> ops[2] == output::field_str("commons"@, f.commons->0@)
            &&& ops[3] == output::field_str("idl_version"@, f.idl_version@)
            &&& ops[4] == output::field_str("idl_schema_sha256"@, f.idl_schema_sha256@)
            &&& ops[5] == output::field_str("platform"@, f.platform@)
            &&& f.baked_console@.len() > 0 ==> ops[6] == output::field_str("channel"@, "development"@)
            &&& f.baked_console@.len() == 0 ==> ops[6] == output::field_str("channel"@, "production"@)
            &&& ops[7] == output::field_str("console"@, f.console_url@)
            &&& ops[8] == output::field_str("os"@, f.device.os_version@)
            &&& ops[9] == output::field_str("cpu"@, f.device.chip@)
            &&& ops[10] == output::field_i64("core_count"@, f.device.core_count as int)
            &&& ops[11] == output::field_i64("performance_cores"@, f.device.performance_cores as int)
            &&& ops[12] == output::field_i64("efficiency_cores"@, f.device.efficiency_cores as int)
            &&& ops[13] == output::field_str("architecture"@, f.device.architecture@)
        }),
        ({
            let ops = place_json(f);
            &&& ops[0] == output::field_str("home"@, f.home@)
            &&& ops[1] == output::field_str("models_dir"@, f.models_dir@)
            &&& ops[2] == output::field_str("state_dir"@, f.state_dir@)
            &&& ops[3] == output::field_bool("account_signed_in"@, f.account is Some)
            &&& f.account is Some ==> ops[4] == output::field_str("account_email"@, (f.account->0).0@)
            &&& f.account is Some ==> ops[5] == output::field_str("account_console"@, (f.account->0).1@)
            &&& f.account is None ==> ops.len() == 5
        }),
{
}

/// A row about something puts its value behind its label, and all short labels give
/// their values the same column.
pub proof fn values_stand_in_one_column(label: Seq<char>, other: Seq<char>, value: Seq<char>)
    requires
        bytes_of(label) == label.len(),
        bytes_of(other) == other.len(),
        label.len() < LABEL_WIDTH,
        other.len() < LABEL_WIDTH,
    ensures
        about_row(label, value).1.len() == about_row(other, value).1.len(),
        about_row(label, value).1.len() == 2 + LABEL_WIDTH + value.len(),
        about_row(label, value).1.skip(2 + LABEL_WIDTH) == value,
        about_row(label, value).1.skip(2).take(label.len() as int) == label,
        about_row(label, value).0 == Channel::Result,
{
    reveal_strlit("  ");
    assert(about_row(label, value).1.skip(2 + LABEL_WIDTH) =~= value);
    assert(about_row(label, value).1.skip(2).take(label.len() as int) =~= label);
}

/// What is said about an install comes in its parts: the product, the system, what
/// it runs on and where it is kept, each fact in its own row.
pub proof fn every_fact_has_its_row(f: AboutFacts, palette: Palette)
    ensures
        about_text(f, palette) == product_lines(f, palette) + system_lines(f, palette) + runtime_lines(f, palette)
            + place_lines(f, palette),
        ({
            let lines = product_lines(f, palette);
            &&& lines.len() == 7
            &&& lines[2] == about_row("wally"@, f.wally@)
            &&& f.commons is Some ==> lines[3] == about_row("commons"@, f.commons->0@)
            &&& lines[4] == about_row("idl"@, f.idl_version@ + " sha256 "@ + f.idl_schema_sha256@)
            &&& lines[5] == about_row("platform"@, f.platform@)
            &&& lines[6] == about_row("channel"@, if f.baked_console@.len() > 0 {
                "development"@
            } else {
                "production"@
            })
        }),
        ({
            let lines = system_lines(f, palette);
            &&& f.device.os_version@.len() > 0 ==> lines[2] == about_row("os"@, f.device.os_version@)
            &&& f.device.chip@.len() > 0 ==> lines[3] == about_row(
                "cpu"@,
                f.device.chip@ + " ("@ + text::dec(f.device.core_count as int) + " cores)"@,
            )
            &&& f.device.architecture@.len() > 0 ==> lines[4] == about_row("arch"@, f.device.architecture@)
            &&& f.memory is Some ==> lines.len() == 6
            &&& f.memory is None ==> lines.len() == 5
        }),
        f.engines@.len() == 0 ==> runtime_lines(f, palette)[2] == about_row("backends"@, "none registered"@),
        forall|i: int|
            0 <= i < f.engines@.len() ==> #[trigger] runtime_lines(f, palette)[i + 2] == engine_line(
                palette,
                f.engines@[i],
            ),
        ({
            let lines = place_lines(f, palette);
            &&& lines[2] == about_row("home"@, f.home@)
            &&& lines[3] == about_row("models"@, f.models_dir@)
            &&& lines[4] == about_row("state"@, f.state_dir@)
            &&& f.account is Some ==> lines.len() == 9 && lines[7] == about_row("email"@, (f.account->0).0@)
            &&& f.account is None ==> lines.len() == 6
        }),
{
}

/// An engine is told under its own names.
pub proof fn an_engine_is_told_under_its_names(row: (String, EngineRow))
    ensures
        ({
            let ops = engine_json(row);
            &&& ops[1] == output::field_str("name"@, row.0@)
            &&& ops[2] == output::field_str("display_name"@, row.1.display_name@)
            &&& ops[3] == output::field_str("version"@, row.1.version@)
            &&& ops[4] == output::field_i64("priority"@, row.1.priority as int)
            &&& ops.len() == 8 + row.1.primitives@.len()
            &&& forall|i: int|
                0 <= i < row.1.primitives@.len() ==> #[trigger] ops[i + 6] == output::value_str(row.1.primitives@[i]@)
        }),
{
}

/// The `about` command.
pub open spec fn about_command() -> CommandView {
    cli::top("about"@, "Versions, backends, paths and account"@)
        .action(Action::About)
}

/// Registers `about`.
pub fn register_about(app: &mut App)
    ensures
        final(app)@ == old(app)@.push(about_command()),
{
    let mut cmd = Command::top("about", "Versions, backends, paths and account");
    cmd.callback(Action::About);
    app.add(cmd);
}

} // verus!
