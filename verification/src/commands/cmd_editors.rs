//! The commands that open an editor: a tool that speaks the Anthropic API,
//! against a model of the reader's choosing.
//!
//! Resolving the model, serving it and translating the wire format are shared;
//! an editor is a row of the table here plus how it is told where the model
//! lives.

use crate::account::IdentityResult;
use crate::cli;
use crate::cli::{Action, App, Command, CommandView, Opt, ValueType};
use crate::config::cli_paths;
use crate::desktop::brand::{Brand, BrandView};
use crate::document;
use crate::output;
use crate::output::Printed;
use crate::pathname;
use crate::text;
use vstd::prelude::*;

verus! {

/// How a tool is told where the model lives.
#[derive(Clone, Copy, Debug, PartialEq, Eq, Structural)]
pub enum Wiring {
    /// Variables in the launched process.
    Environment,
    /// The third-party gateway profile of the desktop app, for it ignores the
    /// environment.
    ClaudeProfile,
}

/// One editor or agent that can be pointed at a model.
#[derive(Clone, Copy, Debug, PartialEq, Eq, Structural)]
pub enum Editor {
    ClaudeCode,
    ClaudeDesktop,
}

/// What the reader types after `wally`.
pub open spec fn id_of(brand: BrandView, editor: Editor) -> Seq<char> {
    match editor {
        Editor::ClaudeCode => brand.word + "-code"@,
        Editor::ClaudeDesktop => brand.word + "-desktop"@,
    }
}

/// An executable on the search path; none for a desktop app.
pub open spec fn command_of(brand: BrandView, editor: Editor) -> Option<Seq<char>> {
    match editor {
        Editor::ClaudeCode => Some(brand.word),
        Editor::ClaudeDesktop => None,
    }
}

/// A macOS application bundle; none for an executable.
pub open spec fn bundle_of(brand: BrandView, editor: Editor) -> Option<Seq<char>> {
    match editor {
        Editor::ClaudeCode => None,
        Editor::ClaudeDesktop => Some(brand.name + ".app"@),
    }
}

/// How the editor is wired.
pub open spec fn wiring_of(editor: Editor) -> Wiring {
    match editor {
        Editor::ClaudeCode => Wiring::Environment,
        Editor::ClaudeDesktop => Wiring::ClaudeProfile,
    }
}

impl Editor {
    /// See [`id_of`].
    pub fn id(self, brand: &Brand) -> (r: String)
        ensures
            r@ == id_of(brand@, self),
    {
        match self {
            Editor::ClaudeCode => text::cat2(brand.word.as_str(), "-code"),
            Editor::ClaudeDesktop => text::cat2(brand.word.as_str(), "-desktop"),
        }
    }

    /// See [`command_of`].
    pub fn command(self, brand: &Brand) -> (r: Option<String>)
        ensures
            cli_paths::given(r) == command_of(brand@, self),
    {
        match self {
            Editor::ClaudeCode => Some(text::owned(brand.word.as_str())),
            Editor::ClaudeDesktop => None,
        }
    }

    /// See [`bundle_of`].
    pub fn bundle(self, brand: &Brand) -> (r: Option<String>)
        ensures
            cli_paths::given(r) == bundle_of(brand@, self),
    {
        match self {
            Editor::ClaudeCode => None,
            Editor::ClaudeDesktop => Some(text::cat2(brand.name.as_str(), ".app")),
        }
    }

    /// See [`wiring_of`].
    pub fn wiring(self) -> (r: Wiring)
        ensures
            r == wiring_of(self),
    {
        match self {
            Editor::ClaudeCode => Wiring::Environment,
            Editor::ClaudeDesktop => Wiring::ClaudeProfile,
        }
    }
}

/// The places where an application bundle may be, in order: the system's
/// applications, then the reader's own.
pub open spec fn bundle_places(bundle: Seq<char>, home: Option<Seq<char>>) -> Seq<Seq<char>> {
    match home {
        Some(h) => seq!["/Applications/"@ + bundle, h + "/Applications/"@ + bundle],
        None => seq!["/Applications/"@ + bundle],
    }
}

/// See [`bundle_places`]. A bundle is there when it has an information file.
pub fn bundle_path(bundle: &str, home: &Option<String>) -> (r: Vec<String>)
    ensures
        output::strings_view(r@) == bundle_places(
            bundle@,
            match *home {
                Some(h) => Some(h@),
                None => None,
            },
        ),
{
    let mut places: Vec<String> = Vec::new();
    places.push(text::cat2("/Applications/", bundle));
    if let Some(h) = home {
        places.push(text::cat3(h.as_str(), "/Applications/", bundle));
    }
    assert(output::strings_view(places@) =~= bundle_places(
        bundle@,
        match *home {
            Some(h) => Some(h@),
            None => None,
        },
    ));
    places
}

/// What a command line does.
pub enum EditorRoute {
    /// Put the app back on Anthropic.
    Restore,
    /// Nothing more; the exit code.
    Refuse(i32),
    /// Print the endpoint and keep it open.
    Serve,
    /// Launch the tool.
    Run,
}

/// What a command line does. A missing tool is reported before anything else
/// happens, but for `--restore`, and for `--serve`, which launches none.
/// `bundle_found` and `installed` tell whether the app, or the executable, is
/// there.
pub fn editor_route(
    brand: &Brand,
    editor: Editor,
    restore: bool,
    serve: bool,
    macos: bool,
    bundle_found: bool,
    installed: bool,
) -> (r: (Printed, EditorRoute))
    ensures
        ({
            let no_bundle = !restore && !serve && bundle_of(brand@, editor) is Some && macos && !bundle_found;
            let not_mac = !restore && !serve && bundle_of(brand@, editor) is Some && !macos;
            let no_command = !restore && !serve && bundle_of(brand@, editor) is None && !installed;
            &&& r.1 == (if restore {
                EditorRoute::Restore
            } else if serve {
                EditorRoute::Serve
            } else if no_bundle || not_mac {
                EditorRoute::Refuse(1)
            } else if no_command {
                EditorRoute::Refuse(127)
            } else {
                EditorRoute::Run
            })
            &&& r.0@ == (if no_bundle {
                seq![
                    output::error(id_of(brand@, editor) + " is not installed on this machine"@),
                    output::status("download it from https://"@ + brand@.word + ".ai/download, then run this again"@),
                ]
            } else if not_mac {
                seq![output::error(id_of(brand@, editor) + " is a macOS application"@)]
            } else {
                Seq::empty()
            })
        }),
{
    let mut printed = Printed::new();
    if restore {
        return (printed, EditorRoute::Restore);
    }
    if serve {
        return (printed, EditorRoute::Serve);
    }
    if editor.bundle(brand).is_some() {
        if !macos {
            printed.error(text::cat2(editor.id(brand).as_str(), " is a macOS application"));
            return (printed, EditorRoute::Refuse(1));
        }
        if !bundle_found {
            printed.error(text::cat2(editor.id(brand).as_str(), " is not installed on this machine"));
            printed.status(
                text::cat3("download it from https://", brand.word.as_str(), ".ai/download, then run this again"),
            );
            return (printed, EditorRoute::Refuse(1));
        }
    } else if !installed {
        return (printed, EditorRoute::Refuse(127));
    }
    (printed, EditorRoute::Run)
}

/// What is said after the app was put back, with the exit code.
pub fn restore(brand: &Brand, editor: Editor, failure: &Option<String>) -> (r: (Printed, i32))
    ensures
        match *failure {
            Some(f) => r.0@ == seq![output::error(f@)] && r.1 == 1,
            None => r.0@ == seq![
                output::status(id_of(brand@, editor) + " is back on Anthropic; restart it to pick that up"@),
            ] && r.1 == 0,
        },
{
    let mut printed = Printed::new();
    match failure {
        Some(f) => {
            printed.error(text::owned(f.as_str()));
            (printed, 1)
        },
        None => {
            printed.status(text::cat2(editor.id(brand).as_str(), " is back on Anthropic; restart it to pick that up"));
            (printed, 0)
        },
    }
}

/// What is printed when an endpoint is kept open: the variables to point a tool
/// at it.
pub fn serve_lines(base_url: &str, auth_token: &str, model: &str) -> (r: Printed)
    ensures
        r@ == seq![
            output::result("ANTHROPIC_BASE_URL="@ + base_url@),
            output::result("ANTHROPIC_AUTH_TOKEN="@ + auth_token@),
            output::status("serving "@ + model@ + "; press Ctrl-C to stop"@),
        ],
{
    let mut printed = Printed::new();
    printed.result(text::cat2("ANTHROPIC_BASE_URL=", base_url));
    printed.result(text::cat2("ANTHROPIC_AUTH_TOKEN=", auth_token));
    printed.status(text::cat3("serving ", model, "; press Ctrl-C to stop"));
    printed
}

/// What `--serve` does next.
#[derive(Clone, Copy, Debug, PartialEq, Eq, Structural)]
pub enum ServeStage {
    /// Find or start what serves the model.
    Resolve,
    /// Start the translator in front of it.
    StartShim,
    /// Say where it is, and keep it open until the process is ended.
    Hold,
    /// Let go of what serves the model; the code to exit with.
    Release(i32),
    /// Exit with the code.
    Done(i32),
}

/// The stage after a piece of work, which worked or not. Nothing but a signal
/// ends an endpoint that is open.
pub open spec fn serve_after(stage: ServeStage, ok: bool) -> ServeStage {
    match stage {
        ServeStage::Resolve => if ok {
            ServeStage::StartShim
        } else {
            ServeStage::Done(1)
        },
        ServeStage::StartShim => if ok {
            ServeStage::Hold
        } else {
            ServeStage::Release(1)
        },
        ServeStage::Hold => ServeStage::Hold,
        ServeStage::Release(code) => ServeStage::Done(code),
        ServeStage::Done(code) => ServeStage::Done(code),
    }
}

/// See [`serve_after`].
pub fn serve(stage: ServeStage, ok: bool) -> (r: ServeStage)
    ensures
        r == serve_after(stage, ok),
{
    match stage {
        ServeStage::Resolve => if ok {
            ServeStage::StartShim
        } else {
            ServeStage::Done(1)
        },
        ServeStage::StartShim => if ok {
            ServeStage::Hold
        } else {
            ServeStage::Release(1)
        },
        ServeStage::Hold => ServeStage::Hold,
        ServeStage::Release(code) => ServeStage::Done(code),
        ServeStage::Done(code) => ServeStage::Done(code),
    }
}

/// An endpoint that cannot be opened exits with 1, and what serves the model is
/// let go of first where it was found.
pub proof fn an_endpoint_that_fails_is_let_go(stage: ServeStage, ok: bool)
    ensures
        serve_after(stage, ok) matches ServeStage::Done(code) ==> (stage is Resolve && !ok && code == 1) || stage
            == ServeStage::Release(code) || stage == ServeStage::Done(code),
        serve_after(stage, ok) matches ServeStage::Release(code) ==> stage is StartShim && !ok && code == 1,
        stage is StartShim ==> !(serve_after(stage, ok) is Done),
{
}

/// What the translator is started with.
#[derive(Clone, Debug)]
pub struct ShimRequest {
    pub model: String,
    pub verbose: bool,
    /// The name that the gateway answers under; empty is the model's own.
    pub advertised: String,
    /// Further names, each with the model that it stands for.
    pub aliases: Vec<(String, String)>,
}

/// The translator of an endpoint that is kept open: it answers under the name of
/// the model alone.
pub fn serve_request(model: &str, verbose: bool) -> (r: ShimRequest)
    ensures
        r.model@ == model@,
        r.verbose == verbose,
        r.advertised@.len() == 0,
        r.aliases@.len() == 0,
{
    ShimRequest { model: text::owned(model), verbose, advertised: String::new(), aliases: Vec::new() }
}

/// Why a launch cannot begin: an app that is no longer there.
pub fn bundle_problem(brand: &Brand, editor: Editor, macos: bool, bundle_found: bool) -> (r: Option<String>)
    ensures
        r is Some <==> bundle_of(brand@, editor) is Some && (!macos || !bundle_found),
        r is Some ==> r->0@ == if macos {
            bundle_of(brand@, editor)->0 + " is not installed"@
        } else {
            id_of(brand@, editor) + " is a macOS application"@
        },
{
    match editor.bundle(brand) {
        None => None,
        Some(bundle) => if !macos {
            Some(text::cat2(editor.id(brand).as_str(), " is a macOS application"))
        } else if !bundle_found {
            Some(text::cat2(bundle.as_str(), " is not installed"))
        } else {
            None
        },
    }
}

/// The work that a launch does next.
#[derive(Clone, Copy, Debug, PartialEq, Eq, Structural)]
pub enum LaunchStage {
    /// Launch the tool as the reader has it, with no wiring.
    LaunchPlain,
    /// Find or start what serves the model.
    Resolve,
    /// Start the translator in front of it.
    StartShim,
    /// Write the gateway profile.
    Apply,
    /// Launch the tool, wired.
    Launch,
    /// Take the gateway profile back; the code to exit with.
    Restore(i32),
    /// Stop the translator; the code to exit with.
    Stop(i32),
    /// Let go of what serves the model; the code to exit with.
    Release(i32),
    /// Exit with the code.
    Done(i32),
}

/// The stage that a launch begins with: without a model there is no wiring to
/// do.
pub open spec fn launch_start(has_model: bool) -> LaunchStage {
    if has_model {
        LaunchStage::Resolve
    } else {
        LaunchStage::LaunchPlain
    }
}

/// The stage after a piece of work, which worked or not; `status` is the exit
/// code of the tool after a launch. A profile that cannot be taken back does
/// not change the exit code.
pub open spec fn launch_after(wiring: Wiring, stage: LaunchStage, ok: bool, status: i32) -> LaunchStage {
    match stage {
        LaunchStage::LaunchPlain => LaunchStage::Done(status),
        LaunchStage::Resolve => if ok {
            LaunchStage::StartShim
        } else {
            LaunchStage::Done(1)
        },
        LaunchStage::StartShim => if !ok {
            LaunchStage::Release(1)
        } else if wiring == Wiring::ClaudeProfile {
            LaunchStage::Apply
        } else {
            LaunchStage::Launch
        },
        LaunchStage::Apply => if ok {
            LaunchStage::Launch
        } else {
            LaunchStage::Stop(1)
        },
        LaunchStage::Launch => if wiring == Wiring::ClaudeProfile {
            LaunchStage::Restore(status)
        } else {
            LaunchStage::Stop(status)
        },
        LaunchStage::Restore(code) => LaunchStage::Stop(code),
        LaunchStage::Stop(code) => LaunchStage::Release(code),
        LaunchStage::Release(code) => LaunchStage::Done(code),
        LaunchStage::Done(code) => LaunchStage::Done(code),
    }
}

/// Launching an editor, one piece of work at a time; see [`launch_after`].
pub fn run(wiring: Wiring, stage: LaunchStage, ok: bool, status: i32) -> (r: LaunchStage)
    ensures
        r == launch_after(wiring, stage, ok, status),
{
    match stage {
        LaunchStage::LaunchPlain => LaunchStage::Done(status),
        LaunchStage::Resolve => if ok {
            LaunchStage::StartShim
        } else {
            LaunchStage::Done(1)
        },
        LaunchStage::StartShim => if !ok {
            LaunchStage::Release(1)
        } else if wiring == Wiring::ClaudeProfile {
            LaunchStage::Apply
        } else {
            LaunchStage::Launch
        },
        LaunchStage::Apply => if ok {
            LaunchStage::Launch
        } else {
            LaunchStage::Stop(1)
        },
        LaunchStage::Launch => if wiring == Wiring::ClaudeProfile {
            LaunchStage::Restore(status)
        } else {
            LaunchStage::Stop(status)
        },
        LaunchStage::Restore(code) => LaunchStage::Stop(code),
        LaunchStage::Stop(code) => LaunchStage::Release(code),
        LaunchStage::Release(code) => LaunchStage::Done(code),
        LaunchStage::Done(code) => LaunchStage::Done(code),
    }
}

/// See [`launch_start`].
pub fn begin_launch(model: &str) -> (r: LaunchStage)
    ensures
        r == launch_start(model@.len() > 0),
{
    if model.is_empty() {
        LaunchStage::LaunchPlain
    } else {
        LaunchStage::Resolve
    }
}

/// The name that the gateway answers under: the desktop app lists only models of
/// an Anthropic family, the others take the real id.
pub open spec fn advertised_as(brand: BrandView, wiring: Wiring, model: Seq<char>) -> Seq<char> {
    if wiring == Wiring::ClaudeProfile {
        brand.word + "-sonnet-4-5"@
    } else {
        model
    }
}

/// See [`advertised_as`].
pub fn advertised(brand: &Brand, wiring: Wiring, model: &str) -> (r: String)
    ensures
        r@ == advertised_as(brand@, wiring, model@),
{
    match wiring {
        Wiring::ClaudeProfile => text::cat2(brand.word.as_str(), "-sonnet-4-5"),
        Wiring::Environment => text::owned(model),
    }
}

/// The Anthropic family that the `i`-th model of the catalog is offered under.
pub open spec fn family(brand: BrandView, i: int) -> Seq<char> {
    if i == 0 {
        brand.word + "-sonnet-4-5"@
    } else if i == 1 {
        brand.word + "-opus-5"@
    } else {
        brand.word + "-haiku-4-5-20251001"@
    }
}

/// The variable that binds the `i`-th model of the catalog to a family.
pub open spec fn family_slot(i: int) -> Seq<char> {
    if i == 0 {
        "ANTHROPIC_DEFAULT_HAIKU_MODEL"@
    } else if i == 1 {
        "ANTHROPIC_DEFAULT_SONNET_MODEL"@
    } else {
        "ANTHROPIC_DEFAULT_OPUS_MODEL"@
    }
}

/// How many models of a catalog have a family.
pub open spec fn bound(n: int) -> int {
    if n < 3 {
        n
    } else {
        3
    }
}

/// Pairs of texts, as values.
pub open spec fn pairs_view(pairs: Seq<(String, String)>) -> Seq<(Seq<char>, Seq<char>)> {
    pairs.map_values(|p: (String, String)| (p.0@, p.1@))
}

/// The picker of the desktop app: each of the first three models of the catalog
/// under a family name, the launched one first; none for another wiring.
pub open spec fn aliases(brand: BrandView, wiring: Wiring, catalog: Seq<Seq<char>>) -> Seq<(Seq<char>, Seq<char>)> {
    if wiring == Wiring::ClaudeProfile {
        Seq::new(bound(catalog.len() as int) as nat, |i: int| (family(brand, i), catalog[i]))
    } else {
        Seq::empty()
    }
}

/// See [`aliases`].
pub fn desktop_aliases(brand: &Brand, wiring: Wiring, catalog: &Vec<String>) -> (r: Vec<(String, String)>)
    ensures
        pairs_view(r@) == aliases(brand@, wiring, output::strings_view(catalog@)),
{
    let ghost ids = output::strings_view(catalog@);
    let mut pairs: Vec<(String, String)> = Vec::new();
    if wiring == Wiring::ClaudeProfile {
        if catalog.len() > 0 {
            pairs.push((text::cat2(brand.word.as_str(), "-sonnet-4-5"), text::owned(catalog[0].as_str())));
        }
        if catalog.len() > 1 {
            pairs.push((text::cat2(brand.word.as_str(), "-opus-5"), text::owned(catalog[1].as_str())));
        }
        if catalog.len() > 2 {
            pairs.push((text::cat2(brand.word.as_str(), "-haiku-4-5-20251001"), text::owned(catalog[2].as_str())));
        }
    }
    assert(pairs_view(pairs@) =~= aliases(brand@, wiring, ids));
    pairs
}

/// The translator of a launch.
pub fn launch_request(brand: &Brand, wiring: Wiring, model: &str, verbose: bool, catalog: &Vec<String>) -> (r:
    ShimRequest)
    ensures
        r.model@ == model@,
        r.verbose == verbose,
        r.advertised@ == advertised_as(brand@, wiring, model@),
        pairs_view(r.aliases@) == aliases(brand@, wiring, output::strings_view(catalog@)),
{
    ShimRequest {
        model: text::owned(model),
        verbose,
        advertised: advertised(brand, wiring, model),
        aliases: desktop_aliases(brand, wiring, catalog),
    }
}

/// What is said once the translator runs.
pub fn launch_status(brand: &Brand, editor: Editor, model: &str, base_url: &str) -> (r: Printed)
    ensures
        r@ == seq![
            output::status(id_of(brand@, editor) + " will talk to "@ + model@ + " through "@ + base_url@),
        ] + (if advertised_as(brand@, wiring_of(editor), model@) != model@ {
            seq![
                output::status(
                    "advertised to the app as "@ + advertised_as(brand@, wiring_of(editor), model@) + "; the picker shows "@
                        + model@,
                ),
            ]
        } else {
            Seq::empty()
        }),
{
    let mut printed = Printed::new();
    printed.status(text::cat5(editor.id(brand).as_str(), " will talk to ", model, " through ", base_url));
    let shown = advertised(brand, editor.wiring(), model);
    if !text::str_eq(shown.as_str(), model) {
        printed.status(text::cat4("advertised to the app as ", shown.as_str(), "; the picker shows ", model));
    }
    printed
}

/// The name that the gateway is shown under in the app.
pub fn gateway_name(model: &str) -> (r: String)
    ensures
        r@ == "RunAnywhere \u{b7} "@ + model@,
{
    text::cat2("RunAnywhere \u{b7} ", model)
}

/// A variable of the launched process: what it is set to, or nothing where it is
/// removed.
pub struct EnvChange {
    pub name: String,
    pub value: Option<String>,
}

/// A change as values.
pub open spec fn change_view(c: EnvChange) -> (Seq<char>, Option<Seq<char>>) {
    (
        c.name@,
        match c.value {
            Some(v) => Some(v@),
            None => None,
        },
    )
}

/// Changes as values.
pub open spec fn changes_view(changes: Seq<EnvChange>) -> Seq<(Seq<char>, Option<Seq<char>>)> {
    changes.map_values(|c: EnvChange| change_view(c))
}

/// The environment of a tool that is launched in the terminal: the endpoint and
/// its bearer token, no API key, which the tool would only ask about, its own
/// config directory where there is one, the model's context window where
/// it is known, the model's name, and the first three models of the catalog
/// bound to the families of the picker.
pub open spec fn terminal_env(
    base_url: Seq<char>,
    auth_token: Seq<char>,
    config_dir: Option<Seq<char>>,
    context: int,
    model: Seq<char>,
    catalog: Seq<Seq<char>>,
) -> Seq<(Seq<char>, Option<Seq<char>>)> {
    seq![
        ("ANTHROPIC_BASE_URL"@, Some(base_url)),
        ("ANTHROPIC_AUTH_TOKEN"@, Some(auth_token)),
        ("ANTHROPIC_API_KEY"@, None),
    ] + (if config_dir is Some {
        seq![("CLAUDE_CONFIG_DIR"@, config_dir)]
    } else {
        Seq::empty()
    }) + (if context > 0 {
        seq![("CLAUDE_CODE_MAX_CONTEXT_TOKENS"@, Some(text::dec(context)))]
    } else {
        Seq::empty()
    }) + seq![("ANTHROPIC_MODEL"@, Some(model))] + Seq::new(
        bound(catalog.len() as int) as nat,
        |i: int| (family_slot(i), Some(catalog[i])),
    )
}

fn set(changes: &mut Vec<EnvChange>, name: &str, value: &str)
    ensures
        changes_view(final(changes)@) == changes_view(old(changes)@).push((name@, Some(value@))),
{
    changes.push(EnvChange { name: text::owned(name), value: Some(text::owned(value)) });
    assert(changes_view(changes@) =~= changes_view(old(changes)@).push((name@, Some(value@))));
}

/// See [`terminal_env`].
pub fn launch_environment(
    base_url: &str,
    auth_token: &str,
    config_dir: &Option<String>,
    context: i64,
    model: &str,
    catalog: &Vec<String>,
) -> (r: Vec<EnvChange>)
    ensures
        changes_view(r@) == terminal_env(
            base_url@,
            auth_token@,
            match *config_dir {
                Some(d) => Some(d@),
                None => None,
            },
            context as int,
            model@,
            output::strings_view(catalog@),
        ),
{
    let ghost ids = output::strings_view(catalog@);
    let mut changes: Vec<EnvChange> = Vec::new();
    set(&mut changes, "ANTHROPIC_BASE_URL", base_url);
    set(&mut changes, "ANTHROPIC_AUTH_TOKEN", auth_token);
    let ghost wired = changes_view(changes@);
    changes.push(EnvChange { name: text::owned("ANTHROPIC_API_KEY"), value: None });
    assert(changes_view(changes@) =~= wired.push(("ANTHROPIC_API_KEY"@, None)));
    if let Some(dir) = config_dir {
        set(&mut changes, "CLAUDE_CONFIG_DIR", dir.as_str());
    }
    if context > 0 {
        set(&mut changes, "CLAUDE_CODE_MAX_CONTEXT_TOKENS", text::dec_i64(context).as_str());
    }
    set(&mut changes, "ANTHROPIC_MODEL", model);
    let ghost named = changes_view(changes@);
    if catalog.len() > 0 {
        set(&mut changes, "ANTHROPIC_DEFAULT_HAIKU_MODEL", catalog[0].as_str());
    }
    if catalog.len() > 1 {
        set(&mut changes, "ANTHROPIC_DEFAULT_SONNET_MODEL", catalog[1].as_str());
    }
    if catalog.len() > 2 {
        set(&mut changes, "ANTHROPIC_DEFAULT_OPUS_MODEL", catalog[2].as_str());
    }
    assert(changes_view(changes@) =~= named + Seq::new(
        bound(ids.len() as int) as nat,
        |i: int| (family_slot(i), Some(ids[i])),
    ));
    assert(changes_view(changes@) =~= terminal_env(
        base_url@,
        auth_token@,
        match *config_dir {
            Some(d) => Some(d@),
            None => None,
        },
        context as int,
        model@,
        ids,
    ));
    changes
}

/// Whether among some changes one, and no other, is of that variable, and gives it
/// that value or takes it away.
pub open spec fn changes_to(
    changes: Seq<(Seq<char>, Option<Seq<char>>)>,
    name: Seq<char>,
    value: Option<Seq<char>>,
) -> bool {
    &&& exists|i: int| 0 <= i < changes.len() && #[trigger] changes[i] == (name, value)
    &&& forall|i: int, j: int|
        0 <= i < changes.len() && 0 <= j < changes.len() && (#[trigger] changes[i]).0 == name && (
        #[trigger] changes[j]).0 == name ==> i == j
}

/// Whether none of the changes is of that variable.
pub open spec fn leaves_alone(changes: Seq<(Seq<char>, Option<Seq<char>>)>, name: Seq<char>) -> bool {
    forall|i: int| 0 <= i < changes.len() ==> (#[trigger] changes[i]).0 != name
}

proof fn variables_differ()
    ensures
        ({
            let names = seq![
                "ANTHROPIC_BASE_URL"@,
                "ANTHROPIC_AUTH_TOKEN"@,
                "ANTHROPIC_API_KEY"@,
                "CLAUDE_CONFIG_DIR"@,
                "CLAUDE_CODE_MAX_CONTEXT_TOKENS"@,
                "ANTHROPIC_MODEL"@,
                "ANTHROPIC_DEFAULT_HAIKU_MODEL"@,
                "ANTHROPIC_DEFAULT_SONNET_MODEL"@,
                "ANTHROPIC_DEFAULT_OPUS_MODEL"@,
            ];
            forall|i: int, j: int| 0 <= i < j < 9 ==> #[trigger] names[i] != #[trigger] names[j]
        }),
{
    reveal_strlit("ANTHROPIC_BASE_URL");
    reveal_strlit("ANTHROPIC_AUTH_TOKEN");
    reveal_strlit("ANTHROPIC_API_KEY");
    reveal_strlit("CLAUDE_CONFIG_DIR");
    reveal_strlit("CLAUDE_CODE_MAX_CONTEXT_TOKENS");
    reveal_strlit("ANTHROPIC_MODEL");
    reveal_strlit("ANTHROPIC_DEFAULT_HAIKU_MODEL");
    reveal_strlit("ANTHROPIC_DEFAULT_SONNET_MODEL");
    reveal_strlit("ANTHROPIC_DEFAULT_OPUS_MODEL");
    let names = seq![
        "ANTHROPIC_BASE_URL"@,
        "ANTHROPIC_AUTH_TOKEN"@,
        "ANTHROPIC_API_KEY"@,
        "CLAUDE_CONFIG_DIR"@,
        "CLAUDE_CODE_MAX_CONTEXT_TOKENS"@,
        "ANTHROPIC_MODEL"@,
        "ANTHROPIC_DEFAULT_HAIKU_MODEL"@,
        "ANTHROPIC_DEFAULT_SONNET_MODEL"@,
        "ANTHROPIC_DEFAULT_OPUS_MODEL"@,
    ];
    assert(names[0].len() == 18 && names[1].len() == 20 && names[5].len() == 15 && names[6].len() == 29
        && names[8].len() == 28);
    assert(names[2].len() == 17 && names[3].len() == 17 && names[2][0] == 'A' && names[3][0] == 'C');
    assert(names[4].len() == 30 && names[7].len() == 30 && names[4][0] == 'C' && names[7][0] == 'A');
    assert forall|i: int, j: int| 0 <= i < j < 9 implies #[trigger] names[i] != #[trigger] names[j] by {
        assert(i == 0 || i == 1 || i == 2 || i == 3 || i == 4 || i == 5 || i == 6 || i == 7);
        assert(j == 1 || j == 2 || j == 3 || j == 4 || j == 5 || j == 6 || j == 7 || j == 8);
    }
}

/// A launched tool is told the model that was asked for, whatever the catalog
/// holds, and the endpoint it was given, under that token and no key of its own.
/// The first models of the catalog, in their order, are those of its small,
/// middle and large family. A config directory and a context window are set where
/// there are any and left alone where not.
pub proof fn a_launched_tool_is_told_its_model(
    base_url: Seq<char>,
    auth_token: Seq<char>,
    config_dir: Option<Seq<char>>,
    context: int,
    model: Seq<char>,
    catalog: Seq<Seq<char>>,
)
    ensures
        ({
            let changes = terminal_env(base_url, auth_token, config_dir, context, model, catalog);
            &&& changes_to(changes, "ANTHROPIC_MODEL"@, Some(model))
            &&& changes_to(changes, "ANTHROPIC_BASE_URL"@, Some(base_url))
            &&& changes_to(changes, "ANTHROPIC_AUTH_TOKEN"@, Some(auth_token))
            &&& changes_to(changes, "ANTHROPIC_API_KEY"@, None)
            &&& config_dir is Some ==> changes_to(changes, "CLAUDE_CONFIG_DIR"@, config_dir)
            &&& config_dir is None ==> leaves_alone(changes, "CLAUDE_CONFIG_DIR"@)
            &&& context > 0 ==> changes_to(
                changes,
                "CLAUDE_CODE_MAX_CONTEXT_TOKENS"@,
                Some(text::dec(context)),
            )
            &&& context <= 0 ==> leaves_alone(changes, "CLAUDE_CODE_MAX_CONTEXT_TOKENS"@)
            &&& catalog.len() > 0 ==> changes_to(changes, "ANTHROPIC_DEFAULT_HAIKU_MODEL"@, Some(catalog[0]))
            &&& catalog.len() <= 0 ==> leaves_alone(changes, "ANTHROPIC_DEFAULT_HAIKU_MODEL"@)
            &&& catalog.len() > 1 ==> changes_to(changes, "ANTHROPIC_DEFAULT_SONNET_MODEL"@, Some(catalog[1]))
            &&& catalog.len() <= 1 ==> leaves_alone(changes, "ANTHROPIC_DEFAULT_SONNET_MODEL"@)
            &&& catalog.len() > 2 ==> changes_to(changes, "ANTHROPIC_DEFAULT_OPUS_MODEL"@, Some(catalog[2]))
            &&& catalog.len() <= 2 ==> leaves_alone(changes, "ANTHROPIC_DEFAULT_OPUS_MODEL"@)
        }),
{
    let changes = terminal_env(base_url, auth_token, config_dir, context, model, catalog);
    variables_differ();
    let names = seq![
        "ANTHROPIC_BASE_URL"@,
        "ANTHROPIC_AUTH_TOKEN"@,
        "ANTHROPIC_API_KEY"@,
        "CLAUDE_CONFIG_DIR"@,
        "CLAUDE_CODE_MAX_CONTEXT_TOKENS"@,
        "ANTHROPIC_MODEL"@,
        "ANTHROPIC_DEFAULT_HAIKU_MODEL"@,
        "ANTHROPIC_DEFAULT_SONNET_MODEL"@,
        "ANTHROPIC_DEFAULT_OPUS_MODEL"@,
    ];
    let told: int = 3 + (if config_dir is Some {
        1int
    } else {
        0
    });
    let named: int = told + (if context > 0 {
        1int
    } else {
        0
    });
    assert(changes.len() == named + 1 + bound(catalog.len() as int));
    assert(changes[0] == (names[0], Some(base_url)));
    assert(changes[1] == (names[1], Some(auth_token)));
    assert(changes[2] == (names[2], None::<Seq<char>>));
    if config_dir is Some {
        assert(changes[3] == (names[3], config_dir));
    }
    if context > 0 {
        assert(changes[told] == (names[4], Some(text::dec(context))));
    }
    assert(changes[named] == (names[5], Some(model)));
    if catalog.len() > 0 {
        assert(changes[named + 1] == (names[6], Some(catalog[0])));
    }
    if catalog.len() > 1 {
        assert(changes[named + 2] == (names[7], Some(catalog[1])));
    }
    if catalog.len() > 2 {
        assert(changes[named + 3] == (names[8], Some(catalog[2])));
    }
    assert forall|i: int| 0 <= i < changes.len() implies (#[trigger] changes[i]).0 == names[variable_at(
        i,
        config_dir is Some,
        context > 0,
    )] by {}
}

/// Which of the nine variables the change at `i` is of.
spec fn variable_at(i: int, dir: bool, context: bool) -> int {
    let skipped: int = (if dir {
        0int
    } else {
        1
    }) + (if context {
        0int
    } else {
        1
    });
    if i < 3 {
        i
    } else if dir && i == 3 {
        3
    } else if context && i == (if dir {
        4int
    } else {
        3
    }) {
        4
    } else {
        i + skipped
    }
}

/// The status line of a context window that is known.
pub fn context_status(context: i64) -> (r: Option<String>)
    ensures
        r is Some <==> context > 0,
        r is Some ==> r->0@ == "context window: "@ + text::dec(context as int) + " tokens"@,
{
    if context > 0 {
        Some(text::cat3("context window: ", text::dec_i64(context).as_str(), " tokens"))
    } else {
        None
    }
}

/// A hosted model and its context window.
#[derive(Clone, Debug, Default)]
pub struct HostedModel {
    pub id: String,
    pub context_window: i64,
}

/// The window of the first model of that id; 0 where there is none.
pub open spec fn window_of(models: Seq<HostedModel>, model: Seq<char>, from: int) -> int
    decreases models.len() - from,
{
    if 0 <= from < models.len() {
        if models[from].id@ == model {
            models[from].context_window as int
        } else {
            window_of(models, model, from + 1)
        }
    } else {
        0
    }
}

/// The context window that the hosted catalog gives a model, or 0 when it cannot
/// be learned: nobody is signed in, or the model is unknown. A catalog that
/// cannot be read is mentioned and never blocks a launch.
pub open spec fn hosted_window(
    signed_in: bool,
    result: IdentityResult,
    models: Seq<HostedModel>,
    error: Seq<char>,
    model: Seq<char>,
) -> (Seq<(output::Channel, Seq<char>)>, int) {
    if !signed_in {
        (Seq::empty(), 0)
    } else if result == IdentityResult::Accepted {
        (Seq::empty(), window_of(models, model, 0))
    } else {
        (
            seq![
                output::status(
                    "could not read the model catalog ("@ + error + "); launching without a context-window hint"@,
                ),
            ],
            0,
        )
    }
}

/// The context window that a tool is told, with what is said of it: the one of
/// the server on this machine where it serves the model, else the hosted one.
pub fn launch_context(
    serving: bool,
    endpoint_window: i64,
    signed_in: bool,
    result: IdentityResult,
    models: &Vec<HostedModel>,
    error: &str,
    model: &str,
) -> (r: (Printed, i64))
    ensures
        serving ==> r.0@ == Seq::<(output::Channel, Seq<char>)>::empty() && r.1 == endpoint_window,
        !serving ==> r.0@ == hosted_window(signed_in, result, models@, error@, model@).0 && r.1 == hosted_window(
            signed_in,
            result,
            models@,
            error@,
            model@,
        ).1,
{
    if serving {
        (Printed::new(), endpoint_window)
    } else {
        cloud_context_window(signed_in, result, models, error, model)
    }
}

/// See [`hosted_window`].
pub fn cloud_context_window(
    signed_in: bool,
    result: IdentityResult,
    models: &Vec<HostedModel>,
    error: &str,
    model: &str,
) -> (r: (Printed, i64))
    ensures
        r.0@ == hosted_window(signed_in, result, models@, error@, model@).0,
        r.1 == hosted_window(signed_in, result, models@, error@, model@).1,
{
    let mut printed = Printed::new();
    if !signed_in {
        return (printed, 0);
    }
    if result != IdentityResult::Accepted {
        printed.status(
            text::cat3(
                "could not read the model catalog (",
                error,
                "); launching without a context-window hint",
            ),
        );
        return (printed, 0);
    }
    let mut i: usize = 0;
    while i < models.len()
        invariant
            i <= models@.len(),
            window_of(models@, model@, 0) == window_of(models@, model@, i as int),
            printed@ == Seq::<(output::Channel, Seq<char>)>::empty(),
            result == IdentityResult::Accepted,
            signed_in,
        decreases models@.len() - i,
    {
        if text::str_eq(models[i].id.as_str(), model) {
            return (printed, models[i].context_window);
        }
        i = i + 1;
    }
    (printed, 0)
}

/// The config directory of the tool that is launched; without a state directory
/// there is none, and the tool falls back to its own.
pub fn claude_config_dir(brand: &Brand, state_dir: &str) -> (r: Option<String>)
    ensures
        r is None <==> state_dir@.len() == 0,
        r is Some ==> r->0@ == state_dir@ + "/"@ + brand@.word,
{
    if state_dir.is_empty() {
        None
    } else {
        Some(text::cat3(state_dir, "/", brand.word.as_str()))
    }
}

/// The reader's home, from which the config directory is seeded: on Windows the
/// profile stands in for a home that is not set. An empty one is none.
pub open spec fn seed_home(home: Option<Seq<char>>, profile: Option<Seq<char>>, windows: bool) -> Option<Seq<char>> {
    let chosen = if windows && (home is None || home->0.len() == 0) {
        profile
    } else {
        home
    };
    if chosen is Some && chosen->0.len() > 0 {
        chosen
    } else {
        None
    }
}

/// See [`seed_home`].
pub fn claude_seed_home(home: &Option<String>, profile: &Option<String>, windows: bool) -> (r: Option<String>)
    ensures
        (match r {
            Some(h) => Some(h@),
            None => None,
        }) == seed_home(
            match *home {
                Some(h) => Some(h@),
                None => None,
            },
            match *profile {
                Some(p) => Some(p@),
                None => None,
            },
            windows,
        ),
{
    if let Some(h) = home {
        if !h.as_str().is_empty() {
            return Some(text::owned(h.as_str()));
        }
    }
    if !windows {
        return None;
    }
    match profile {
        Some(p) => if p.as_str().is_empty() {
            None
        } else {
            Some(text::owned(p.as_str()))
        },
        None => None,
    }
}

/// What is never seeded from the reader's own config directory: the login, and
/// the runtime and cache trees.
pub open spec fn is_runtime(name: Seq<char>) -> bool {
    name == ".credentials.json"@ || name == "projects"@ || name == "sessions"@ || name == "shell-snapshots"@ || name
        == "statsig"@ || name == "cache"@ || name == "caches"@ || name == "telemetry"@ || name == "downloads"@ || name
        == "uploads"@ || name == "paste-cache"@ || name == "file-history"@ || name == "backups"@ || name
        == "history.jsonl"@ || name == ".last-cleanup"@ || name == "chrome"@ || name == "ide"@ || name
        == "session-env"@ || name == "mcp-needs-auth-cache.json"@ || name == "stats-cache.json"@ || name
        == ".last-update-result.json"@
}

/// See [`is_runtime`].
pub fn is_runtime_entry(name: &str) -> (r: bool)
    ensures
        r == is_runtime(name@),
{
    text::str_eq(name, ".credentials.json") || text::str_eq(name, "projects") || text::str_eq(name, "sessions")
        || text::str_eq(name, "shell-snapshots") || text::str_eq(name, "statsig") || text::str_eq(name, "cache")
        || text::str_eq(name, "caches") || text::str_eq(name, "telemetry") || text::str_eq(name, "downloads")
        || text::str_eq(name, "uploads") || text::str_eq(name, "paste-cache") || text::str_eq(name, "file-history")
        || text::str_eq(name, "backups") || text::str_eq(name, "history.jsonl") || text::str_eq(name, ".last-cleanup")
        || text::str_eq(name, "chrome") || text::str_eq(name, "ide") || text::str_eq(name, "session-env")
        || text::str_eq(name, "mcp-needs-auth-cache.json") || text::str_eq(name, "stats-cache.json")
        || text::str_eq(name, ".last-update-result.json")
}

/// The settings with onboarding marked done, so that a first launch skips the
/// setup wizard. Everything else in a readable file stays; a missing file, or
/// one that is no object, starts from nothing.
pub fn onboarded_settings(contents: Option<&str>) -> (r: serde_json::Value)
    ensures
        document::is_object(r),
        ({
            let kept = match contents {
                Some(t) => match document::read_text(t@) {
                    Ok(read) => if read.0 {
                        (read.1, read.2)
                    } else {
                        (document::no_members(), document::no_lists())
                    },
                    Err(_) => (document::no_members(), document::no_lists()),
                },
                None => (document::no_members(), document::no_lists()),
            };
            document::contents(r) == document::with_value(
                kept,
                "hasCompletedOnboarding"@,
                document::bool_json(true),
            )
        }),
{
    let mut doc = match contents {
        Some(t) => match document::parse_text(t) {
            Ok(parsed) => if document::object(&parsed) {
                parsed
            } else {
                document::empty_object()
            },
            Err(_) => document::empty_object(),
        },
        None => document::empty_object(),
    };
    document::put_bool(&mut doc, "hasCompletedOnboarding", true);
    doc
}

/// What is done to the config directory of the tool.
#[derive(Clone, Copy, Debug, PartialEq, Eq, Structural)]
pub enum SeedKind {
    /// Make the directory.
    Make,
    /// Copy a file, or a directory with all that is in it.
    CopyTree,
    /// Copy a file that exists.
    Refresh,
    /// Write the settings back with onboarding marked done.
    MarkOnboarded,
}

/// One step: what is done, from where, and where to.
#[derive(Debug)]
pub struct SeedStep {
    pub kind: SeedKind,
    pub from: String,
    pub to: String,
}

/// Steps as values.
pub open spec fn seeds_view(steps: Seq<SeedStep>) -> Seq<(SeedKind, Seq<char>, Seq<char>)> {
    steps.map_values(|s: SeedStep| (s.kind, s.from@, s.to@))
}

/// The reader's own config directory.
pub open spec fn own_config(brand: BrandView, home: Seq<char>) -> Seq<char> {
    pathname::join(home, "."@ + brand.word)
}

/// The file that holds whether onboarding is done.
pub open spec fn settings_file(brand: BrandView) -> Seq<char> {
    "."@ + brand.word + ".json"@
}

/// What the first run copies of the first `n` entries of the reader's own config
/// directory.
pub open spec fn copies(
    brand: BrandView,
    home: Seq<char>,
    ours: Seq<char>,
    entries: Seq<Seq<char>>,
    n: int,
) -> Seq<(SeedKind, Seq<char>, Seq<char>)>
    decreases n,
{
    if n <= 0 {
        Seq::empty()
    } else if is_runtime(entries[n - 1]) {
        copies(brand, home, ours, entries, n - 1)
    } else {
        copies(brand, home, ours, entries, n - 1).push(
            (
                SeedKind::CopyTree,
                pathname::join(own_config(brand, home), entries[n - 1]),
                pathname::join(ours, entries[n - 1]),
            ),
        )
    }
}

/// What is copied on every run, so that edits to the reader's own settings and
/// memory flow through.
pub open spec fn refreshes(brand: BrandView, home: Seq<char>, ours: Seq<char>) -> Seq<
    (SeedKind, Seq<char>, Seq<char>),
> {
    seq![
        (
            SeedKind::Refresh,
            pathname::join(own_config(brand, home), "settings.json"@),
            pathname::join(ours, "settings.json"@),
        ),
        (
            SeedKind::Refresh,
            pathname::join(own_config(brand, home), brand.caps + ".md"@),
            pathname::join(ours, brand.caps + ".md"@),
        ),
        (SeedKind::Refresh, pathname::join(home, settings_file(brand)), pathname::join(ours, settings_file(brand))),
    ]
}

/// How the config directory of the tool is prepared: the first run copies what
/// the reader has, every run the settings and the memory, and onboarding is
/// marked done.
pub open spec fn seeding(
    brand: BrandView,
    ours: Seq<char>,
    home: Option<Seq<char>>,
    first_run: bool,
    entries: Seq<Seq<char>>,
) -> Seq<(SeedKind, Seq<char>, Seq<char>)> {
    seq![(SeedKind::Make, Seq::empty(), ours)] + (match home {
        Some(h) => (if first_run {
            copies(brand, h, ours, entries, entries.len() as int)
        } else {
            Seq::empty()
        }) + refreshes(brand, h, ours),
        None => Seq::empty(),
    }) + seq![(SeedKind::MarkOnboarded, Seq::empty(), pathname::join(ours, settings_file(brand)))]
}

fn seed(steps: &mut Vec<SeedStep>, kind: SeedKind, from: String, to: String)
    ensures
        seeds_view(final(steps)@) == seeds_view(old(steps)@).push((kind, from@, to@)),
{
    let ghost before = seeds_view(steps@);
    steps.push(SeedStep { kind, from, to });
    assert(seeds_view(steps@) =~= before.push((kind, from@, to@)));
}

/// How the config directory of the tool is prepared, from the reader's home and
/// the names in their own config directory; see [`seeding`]. Without a state
/// directory there is nothing to prepare.
pub fn prepare_claude_config_dir(
    brand: &Brand,
    state_dir: &str,
    home: &Option<String>,
    first_run: bool,
    entries: &Vec<String>,
) -> (r: Option<(String, Vec<SeedStep>)>)
    ensures
        r is None <==> state_dir@.len() == 0,
        r is Some ==> {
            &&& (r->0).0@ == state_dir@ + "/"@ + brand@.word
            &&& seeds_view((r->0).1@) == seeding(
                brand@,
                state_dir@ + "/"@ + brand@.word,
                cli_paths::given(*home),
                first_run,
                output::strings_view(entries@),
            )
        },
{
    let ours = match claude_config_dir(brand, state_dir) {
        Some(dir) => dir,
        None => {
            return None;
        },
    };
    let memory = text::cat2(brand.caps.as_str(), ".md");
    let settings = text::cat3(".", brand.word.as_str(), ".json");
    let ghost names = output::strings_view(entries@);
    let mut steps: Vec<SeedStep> = Vec::new();
    assert(seeds_view(steps@) =~= Seq::empty());
    let nowhere = String::new();
    assert(nowhere@ =~= Seq::<char>::empty());
    seed(&mut steps, SeedKind::Make, nowhere, text::owned(ours.as_str()));
    let ghost made = seeds_view(steps@);
    assert(made =~= seq![(SeedKind::Make, Seq::<char>::empty(), ours@)]);
    if let Some(h) = home {
        let own = pathname::join_exec(h.as_str(), text::cat2(".", brand.word.as_str()).as_str());
        if first_run {
            let mut i: usize = 0;
            assert(made + copies(brand@, h@, ours@, names, 0) =~= made);
            while i < entries.len()
                invariant
                    i <= entries@.len(),
                    own@ == own_config(brand@, h@),
                    names == output::strings_view(entries@),
                    seeds_view(steps@) == made + copies(brand@, h@, ours@, names, i as int),
                decreases entries@.len() - i,
            {
                assert(names[i as int] == entries@[i as int]@);
                if !is_runtime_entry(entries[i].as_str()) {
                    seed(
                        &mut steps,
                        SeedKind::CopyTree,
                        pathname::join_exec(own.as_str(), entries[i].as_str()),
                        pathname::join_exec(ours.as_str(), entries[i].as_str()),
                    );
                }
                i = i + 1;
                assert(seeds_view(steps@) =~= made + copies(brand@, h@, ours@, names, i as int));
            }
        }
        let ghost copied = seeds_view(steps@);
        seed(
            &mut steps,
            SeedKind::Refresh,
            pathname::join_exec(own.as_str(), "settings.json"),
            pathname::join_exec(ours.as_str(), "settings.json"),
        );
        seed(
            &mut steps,
            SeedKind::Refresh,
            pathname::join_exec(own.as_str(), memory.as_str()),
            pathname::join_exec(ours.as_str(), memory.as_str()),
        );
        seed(
            &mut steps,
            SeedKind::Refresh,
            pathname::join_exec(h.as_str(), settings.as_str()),
            pathname::join_exec(ours.as_str(), settings.as_str()),
        );
        assert(seeds_view(steps@) =~= copied + refreshes(brand@, h@, ours@));
    }
    let unread = String::new();
    assert(unread@ =~= Seq::<char>::empty());
    seed(&mut steps, SeedKind::MarkOnboarded, unread, pathname::join_exec(ours.as_str(), settings.as_str()));
    assert(seeds_view(steps@) =~= seeding(brand@, ours@, cli_paths::given(*home), first_run, names));
    Some((ours, steps))
}

/// The login and the runtime trees of the reader are never copied.
pub proof fn no_login_is_copied(
    brand: BrandView,
    home: Seq<char>,
    ours: Seq<char>,
    entries: Seq<Seq<char>>,
    n: int,
    i: int,
)
    requires
        0 <= n <= entries.len(),
        0 <= i < copies(brand, home, ours, entries, n).len(),
    ensures
        exists|k: int|
            0 <= k < n && !is_runtime(#[trigger] entries[k]) && copies(brand, home, ours, entries, n)[i] == (
                SeedKind::CopyTree,
                pathname::join(own_config(brand, home), entries[k]),
                pathname::join(ours, entries[k]),
            ),
    decreases n,
{
    if n > 0 {
        if is_runtime(entries[n - 1]) || i < copies(brand, home, ours, entries, n - 1).len() {
            no_login_is_copied(brand, home, ours, entries, n - 1, i);
        } else {
            assert(!is_runtime(entries[n - 1]));
        }
    }
}

/// Whether what serves the model is held at a stage.
pub open spec fn endpoint_is_held(stage: LaunchStage) -> bool {
    stage is StartShim || stage is Apply || stage is Launch || stage is Restore || stage is Stop || stage is Release
}

/// Whether the translator runs at a stage.
pub open spec fn shim_runs(stage: LaunchStage) -> bool {
    stage is Apply || stage is Launch || stage is Restore || stage is Stop
}

/// How much work a launch can still have.
pub open spec fn launch_work_left(stage: LaunchStage) -> nat {
    match stage {
        LaunchStage::Resolve => 7,
        LaunchStage::StartShim => 6,
        LaunchStage::Apply => 5,
        LaunchStage::Launch => 4,
        LaunchStage::Restore(_) => 3,
        LaunchStage::Stop(_) => 2,
        LaunchStage::Release(_) => 1,
        LaunchStage::LaunchPlain => 1,
        LaunchStage::Done(_) => 0,
    }
}

/// What serves the model is let go and the translator stopped on every path, a
/// gateway profile that was written is taken back after the launch, and every
/// launch ends.
pub proof fn a_launch_leaves_nothing_behind(wiring: Wiring, stage: LaunchStage, ok: bool, status: i32)
    ensures
        endpoint_is_held(stage) && !(stage is Release) ==> endpoint_is_held(launch_after(wiring, stage, ok, status)),
        shim_runs(stage) && !(stage is Stop) ==> shim_runs(launch_after(wiring, stage, ok, status)),
        stage is Resolve ==> endpoint_is_held(launch_after(wiring, stage, ok, status)) == ok,
        stage is StartShim ==> shim_runs(launch_after(wiring, stage, ok, status)) == ok,
        stage is Launch && wiring == Wiring::ClaudeProfile ==> launch_after(wiring, stage, ok, status)
            == LaunchStage::Restore(status),
        launch_after(wiring, stage, ok, status) is Apply ==> wiring == Wiring::ClaudeProfile,
        !(stage is Done) ==> launch_work_left(launch_after(wiring, stage, ok, status)) < launch_work_left(stage),
        stage is Launch ==> launch_after(wiring, stage, ok, status) == LaunchStage::Restore(status) || launch_after(
            wiring,
            stage,
            ok,
            status,
        ) == LaunchStage::Stop(status),
{
}

/// The picker of the desktop app lists the first models of the catalog, in its
/// order, each under a name of its own; the first is under the name that the app
/// is told to ask for. A tool in the terminal is told the model's own name, and
/// needs no picker.
pub proof fn the_picker_lists_the_catalog(brand: BrandView, model: Seq<char>, catalog: Seq<Seq<char>>)
    ensures
        advertised_as(brand, Wiring::Environment, model) == model,
        aliases(brand, Wiring::Environment, catalog).len() == 0,
        ({
            let listed = aliases(brand, Wiring::ClaudeProfile, catalog);
            &&& listed.len() <= 3 && listed.len() <= catalog.len()
            &&& listed.len() == 3 || listed.len() == catalog.len()
            &&& forall|i: int| 0 <= i < listed.len() ==> (#[trigger] listed[i]).1 == catalog[i]
            &&& forall|i: int, j: int| 0 <= i < j < listed.len() ==> (#[trigger] listed[i]).0 != (#[trigger] listed[j]).0
            &&& listed.len() > 0 ==> listed[0].0 == advertised_as(brand, Wiring::ClaudeProfile, model)
        }),
{
    reveal_strlit("-sonnet-4-5");
    reveal_strlit("-opus-5");
    reveal_strlit("-haiku-4-5-20251001");
    assert(family(brand, 0).len() == brand.word.len() + 11);
    assert(family(brand, 1).len() == brand.word.len() + 7);
    assert(family(brand, 2).len() == brand.word.len() + 19);
}

/// The window of a hosted model is the one its catalog gives under its id, where
/// that was read and has it, and unknown otherwise; the reason is told only where
/// somebody is signed in.
pub proof fn a_hosted_window_is_its_own(
    signed_in: bool,
    result: IdentityResult,
    models: Seq<HostedModel>,
    error: Seq<char>,
    model: Seq<char>,
)
    ensures
        ({
            let (said, window) = hosted_window(signed_in, result, models, error, model);
            let read = signed_in && result == IdentityResult::Accepted;
            &&& forall|i: int|
                read && 0 <= i < models.len() && (#[trigger] models[i]).id@ == model && (forall|j: int|
                    0 <= j < i ==> (#[trigger] models[j]).id@ != model) ==> window == models[i].context_window
            &&& (forall|i: int| 0 <= i < models.len() ==> (#[trigger] models[i]).id@ != model) ==> window == 0
            &&& !read ==> window == 0
            &&& said.len() == if signed_in && !read {
                1int
            } else {
                0
            }
        }),
{
    the_first_of_its_id(models, model, 0);
}

proof fn the_first_of_its_id(models: Seq<HostedModel>, model: Seq<char>, from: int)
    requires
        0 <= from,
    ensures
        forall|i: int|
            from <= i < models.len() && (#[trigger] models[i]).id@ == model && (forall|j: int|
                from <= j < i ==> (#[trigger] models[j]).id@ != model) ==> window_of(models, model, from)
                == models[i].context_window,
        (forall|i: int| from <= i < models.len() ==> (#[trigger] models[i]).id@ != model) ==> window_of(
            models,
            model,
            from,
        ) == 0,
    decreases models.len() - from,
{
    if from < models.len() {
        the_first_of_its_id(models, model, from + 1);
    }
}

/// Where a login is looked for is a home that is named: the one of the user, or on
/// Windows, where that is missing, the profile.
pub proof fn a_seed_comes_from_home(home: Option<Seq<char>>, profile: Option<Seq<char>>, windows: bool)
    ensures
        home is Some && home->0.len() > 0 ==> seed_home(home, profile, windows) == home,
        (home is None || home->0.len() == 0) && !windows ==> seed_home(home, profile, windows) is None,
        (home is None || home->0.len() == 0) && windows && profile is Some && profile->0.len() > 0 ==> seed_home(
            home,
            profile,
            windows,
        ) == profile,
        seed_home(home, profile, windows) is Some ==> seed_home(home, profile, windows)->0.len() > 0,
{
}

/// The config directory is made before anything is put into it, everything that is
/// put there comes from under the home and goes to a place of the same name under
/// it, and the last step is to mark it as set up. The user's own settings are
/// copied once, on the first run; what must stay current is brought over each time.
pub proof fn seeding_fills_only_its_own_directory(
    brand: BrandView,
    ours: Seq<char>,
    home: Option<Seq<char>>,
    first_run: bool,
    entries: Seq<Seq<char>>,
)
    ensures
        ({
            let steps = seeding(brand, ours, home, first_run, entries);
            let n = steps.len() as int;
            &&& n >= 2
            &&& steps[0] == (SeedKind::Make, Seq::<char>::empty(), ours)
            &&& steps[n - 1] == (
                SeedKind::MarkOnboarded,
                Seq::<char>::empty(),
                pathname::join(ours, "."@ + brand.word + ".json"@),
            )
            &&& home is None ==> n == 2
            &&& home is Some ==> n >= 5 && steps.subrange(n - 4, n - 1) == refreshes(brand, home->0, ours)
            &&& home is Some && !first_run ==> n == 5
            &&& home is Some && first_run ==> steps.subrange(1, n - 4) == copies(
                brand,
                home->0,
                ours,
                entries,
                entries.len() as int,
            )
        }),
{
    let steps = seeding(brand, ours, home, first_run, entries);
    let n = steps.len() as int;
    if let Some(h) = home {
        let fresh = refreshes(brand, h, ours);
        assert(steps.subrange(n - 4, n - 1) =~= fresh);
        if first_run {
            let first = copies(brand, h, ours, entries, entries.len() as int);
            assert(steps.subrange(1, n - 4) =~= first);
        }
    }
}

/// On a first run every entry of the user's own config is copied under its own
/// name, but for what the tool keeps while it runs, and nothing else is.
pub proof fn every_setting_is_copied(
    brand: BrandView,
    home: Seq<char>,
    ours: Seq<char>,
    entries: Seq<Seq<char>>,
    n: int,
)
    requires
        0 <= n <= entries.len(),
    ensures
        ({
            let steps = copies(brand, home, ours, entries, n);
            let own = pathname::join(home, "."@ + brand.word);
            &&& forall|i: int|
                0 <= i < n && !is_runtime(#[trigger] entries[i]) ==> steps.contains(
                    (SeedKind::CopyTree, pathname::join(own, entries[i]), pathname::join(ours, entries[i])),
                )
            &&& forall|x: (SeedKind, Seq<char>, Seq<char>)| #[trigger]
                steps.contains(x) ==> exists|i: int|
                    0 <= i < n && !is_runtime(#[trigger] entries[i]) && x == (
                        SeedKind::CopyTree,
                        pathname::join(own, entries[i]),
                        pathname::join(ours, entries[i]),
                    )
        }),
    decreases n,
{
    if n > 0 {
        every_setting_is_copied(brand, home, ours, entries, n - 1);
        let before = copies(brand, home, ours, entries, n - 1);
        let after = copies(brand, home, ours, entries, n);
        assert forall|x: (SeedKind, Seq<char>, Seq<char>)| #[trigger] before.contains(x) implies after.contains(x) by {
            let k = choose|k: int| 0 <= k < before.len() && before[k] == x;
            assert(after[k] == x);
        }
        if !is_runtime(entries[n - 1]) {
            assert(after.last() == (
                SeedKind::CopyTree,
                pathname::join(own_config(brand, home), entries[n - 1]),
                pathname::join(ours, entries[n - 1]),
            ));
        }
        assert forall|x: (SeedKind, Seq<char>, Seq<char>)| #[trigger] after.contains(x) implies exists|i: int|
            0 <= i < n && !is_runtime(#[trigger] entries[i]) && x == (
                SeedKind::CopyTree,
                pathname::join(own_config(brand, home), entries[i]),
                pathname::join(ours, entries[i]),
            ) by {
            let k = choose|k: int| 0 <= k < after.len() && after[k] == x;
            if k < before.len() {
                assert(before[k] == x);
                assert(before.contains(x));
            } else {
                assert(!is_runtime(entries[n - 1]));
            }
        }
    }
}

/// A launch that goes well ends with the status of what was launched, whichever
/// way that is wired; the app that was switched over is switched back first. One
/// whose endpoint, shim or profile fails ends with a failure and launches nothing.
pub proof fn a_launch_ends_with_the_status_of_the_tool(wiring: Wiring, status: i32, other: i32)
    ensures
        launch_after(wiring, launch_start(false), true, status) == LaunchStage::Done(status),
        launch_start(true) == LaunchStage::Resolve,
        launch_after(wiring, LaunchStage::Resolve, false, other) == LaunchStage::Done(1),
        ({
            let started = launch_after(wiring, launch_after(wiring, LaunchStage::Resolve, true, other), true, other);
            let ready = if wiring == Wiring::ClaudeProfile {
                launch_after(wiring, started, true, other)
            } else {
                started
            };
            let back = launch_after(wiring, ready, true, status);
            let stopping = if wiring == Wiring::ClaudeProfile {
                launch_after(wiring, back, true, other)
            } else {
                back
            };
            let released = launch_after(wiring, launch_after(wiring, stopping, true, other), true, other);
            &&& ready == LaunchStage::Launch
            &&& wiring == Wiring::ClaudeProfile ==> started == LaunchStage::Apply && back is Restore
            &&& stopping is Stop
            &&& released == LaunchStage::Done(status)
            &&& wiring == Wiring::ClaudeProfile ==> launch_after(wiring, started, false, other) == LaunchStage::Stop(1)
        }),
        launch_after(wiring, launch_after(wiring, LaunchStage::Resolve, true, other), false, other)
            == LaunchStage::Release(1),
{
}

/// What the help says of an editor.
pub open spec fn summary_of(brand: BrandView, editor: Editor) -> Seq<char> {
    match editor {
        Editor::ClaudeCode => "Open "@ + brand.name + " Code with a model"@,
        Editor::ClaudeDesktop => "Open "@ + brand.name + " Desktop with a model"@,
    }
}

/// A tool that is not there is not run: one that is an app needs macOS and its
/// bundle, any other its command. Restoring and serving need neither.
pub proof fn a_missing_tool_is_not_run(
    brand: Brand,
    editor: Editor,
    restore: bool,
    serve: bool,
    macos: bool,
    bundle_found: bool,
    installed: bool,
    r: (Printed, EditorRoute),
)
    requires
        call_ensures(editor_route, (&brand, editor, restore, serve, macos, bundle_found, installed), r),
    ensures
        restore ==> r.1 == EditorRoute::Restore,
        !restore && serve ==> r.1 == EditorRoute::Serve,
        !restore && !serve && editor == Editor::ClaudeDesktop ==> (r.1 == EditorRoute::Run <==> macos && bundle_found),
        !restore && !serve && editor == Editor::ClaudeCode ==> (r.1 == EditorRoute::Run <==> installed),
        !restore && !serve && editor == Editor::ClaudeCode && !installed ==> r.1 == EditorRoute::Refuse(127),
        !restore && !serve && editor == Editor::ClaudeDesktop && !(macos && bundle_found) ==> r.1
            == EditorRoute::Refuse(1) && r.0@.len() > 0 && r.0@[0].0 == output::Channel::Error,
        r.1 == EditorRoute::Run ==> r.0@.len() == 0,
{
}

/// What a translator is started for is the model that was asked for, and the app or
/// tool is told of it by its wiring.
pub proof fn a_translator_serves_the_model_asked_for(
    brand: Brand,
    wiring: Wiring,
    model: &str,
    verbose: bool,
    catalog: Vec<String>,
    r: ShimRequest,
    served: ShimRequest,
)
    requires
        call_ensures(launch_request, (&brand, wiring, model, verbose, &catalog), r),
        call_ensures(serve_request, (model, verbose), served),
    ensures
        r.model@ == model@ && served.model@ == model@,
        r.verbose == verbose && served.verbose == verbose,
        served.advertised@.len() == 0 && served.aliases@.len() == 0,
        wiring == Wiring::Environment ==> r.advertised@ == model@ && r.aliases@.len() == 0,
        wiring == Wiring::ClaudeProfile && catalog@.len() > 0 ==> r.aliases@.len() > 0 && r.aliases@[0].0@ == r.advertised@
            && r.aliases@[0].1@ == catalog@[0]@,
{
    let ids = output::strings_view(catalog@);
    the_picker_lists_the_catalog(brand@, model@, ids);
    let listed = aliases(brand@, wiring, ids);
    assert(pairs_view(r.aliases@).len() == r.aliases@.len());
    if wiring == Wiring::ClaudeProfile && catalog@.len() > 0 {
        assert(listed.len() > 0);
        assert(pairs_view(r.aliases@)[0] == (r.aliases@[0].0@, r.aliases@[0].1@));
    }
}

/// The tool in the terminal is wired by its environment and run by its command; the
/// app is wired by its profile and opened by its bundle, which is looked for among
/// the applications of the machine before those of the user.
pub proof fn a_tool_is_wired_by_its_kind(brand: BrandView, bundle: Seq<char>, home: Seq<char>)
    ensures
        wiring_of(Editor::ClaudeCode) == Wiring::Environment,
        wiring_of(Editor::ClaudeDesktop) == Wiring::ClaudeProfile,
        command_of(brand, Editor::ClaudeCode) == Some(brand.word) && command_of(brand, Editor::ClaudeDesktop) is None,
        bundle_of(brand, Editor::ClaudeDesktop) == Some(brand.name + ".app"@) && bundle_of(brand, Editor::ClaudeCode) is None,
        id_of(brand, Editor::ClaudeCode) == brand.word + "-code"@,
        id_of(brand, Editor::ClaudeDesktop) == brand.word + "-desktop"@,
        bundle_places(bundle, Some(home)) == seq![
            "/Applications/"@ + bundle,
            home + "/Applications/"@ + bundle,
        ],
        bundle_places(bundle, None) == seq!["/Applications/"@ + bundle],
{
}

/// The command of an editor. Only one that is wired by its profile can be put
/// back.
pub open spec fn editor_command(brand: BrandView, editor: Editor) -> CommandView {
    let launching = cli::top(id_of(brand, editor), summary_of(brand, editor))
        .example("wally "@ + id_of(brand, editor) + " -m qwen3-4b-instruct-2507"@, "The certified local coding model"@)
        .example("wally "@ + id_of(brand, editor) + " -m glm-5.3-flash"@, "A hosted model (needs `wally account login`)"@)
        .option(
            cli::opt(
                "-m,--model"@,
                ValueType::Text,
                "A model on this machine, or a hosted one from your account"@,
            ),
        )
        .option(cli::flag("--serve"@, "Print the endpoint and keep it open instead of launching"@));
    let restorable = if wiring_of(editor) == Wiring::ClaudeProfile {
        launching.option(cli::flag("--restore"@, "Put "@ + brand.name + " Desktop back on Anthropic and exit"@))
    } else {
        launching
    };
    restorable
        .option(cli::opt("args"@, ValueType::Text, "Passed through to the tool"@).multi())
        .prefix_command()
        .action(Action::Editor(editor))
}

fn register_editor(app: &mut App, brand: &Brand, editor: Editor)
    ensures
        final(app)@ == old(app)@.push(editor_command(brand@, editor)),
{
    let summary = match editor {
        Editor::ClaudeCode => text::cat3("Open ", brand.name.as_str(), " Code with a model"),
        Editor::ClaudeDesktop => text::cat3("Open ", brand.name.as_str(), " Desktop with a model"),
    };
    let id = editor.id(brand);
    let mut cmd = Command::top(id.as_str(), summary.as_str());
    cmd.example(text::cat3("wally ", id.as_str(), " -m qwen3-4b-instruct-2507").as_str(), "The certified local coding model");
    cmd.example(text::cat3("wally ", id.as_str(), " -m glm-5.3-flash").as_str(), "A hosted model (needs `wally account login`)");
    cmd.add_option(
        Opt::value("-m,--model", ValueType::Text, "A model on this machine, or a hosted one from your account"),
    );
    cmd.add_option(Opt::flag("--serve", "Print the endpoint and keep it open instead of launching"));
    if editor.wiring() == Wiring::ClaudeProfile {
        let help = text::cat3("Put ", brand.name.as_str(), " Desktop back on Anthropic and exit");
        cmd.add_option(Opt::flag("--restore", help.as_str()));
    }
    cmd.add_option(Opt::value("args", ValueType::Text, "Passed through to the tool").multi());
    cmd.prefix_command();
    cmd.callback(Action::Editor(editor));
    app.add(cmd);
}

/// Registers a command for each editor of the brand.
pub fn register_editors(app: &mut App, brand: &Brand)
    ensures
        final(app)@ == old(app)@.push(editor_command(brand@, Editor::ClaudeCode)).push(editor_command(brand@, Editor::ClaudeDesktop)),
{
    register_editor(app, brand, Editor::ClaudeCode);
    register_editor(app, brand, Editor::ClaudeDesktop);
}

} // verus!
