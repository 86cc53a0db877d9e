//! `wally help` and `wally uninstall`: remove wally, its on-device models and
//! its config, never the coding tools that a person installed themselves.

use crate::cli;
use crate::cli::{Action, App, Command, CommandView, Opt, ValueType};
use crate::config::cli_paths;
use crate::desktop::brand::{Brand, BrandView};
use crate::output;
use crate::output::Printed;
use crate::pathname;
use crate::text;
use vstd::prelude::*;

verus! {

/// The documented default base for a platform; empty without a home.
pub open spec fn default_base(home: Option<Seq<char>>, xdg_data_home: Option<Seq<char>>, macos: bool) -> Seq<char> {
    if home is None {
        Seq::empty()
    } else if macos {
        home->0 + "/Library/Application Support/RunAnywhere"@
    } else if xdg_data_home is Some {
        xdg_data_home->0 + "/RunAnywhere"@
    } else {
        home->0 + "/.local/share/RunAnywhere"@
    }
}

/// See [`default_base`].
pub fn platform_base(home: &Option<String>, xdg_data_home: &Option<String>, macos: bool) -> (r: String)
    ensures
        r@ == default_base(cli_paths::given(*home), cli_paths::given(*xdg_data_home), macos),
{
    let base = match home {
        Some(h) => h,
        None => return String::new(),
    };
    if macos {
        return text::cat2(base.as_str(), "/Library/Application Support/RunAnywhere");
    }
    match xdg_data_home {
        Some(xdg) => text::cat2(xdg.as_str(), "/RunAnywhere"),
        None => text::cat2(base.as_str(), "/.local/share/RunAnywhere"),
    }
}

/// The bases that can be derived, in the order in which they are tried: the
/// `--home` override, the environment's, the engine's answer and the platform
/// default.
pub open spec fn model_bases(
    home_override: Seq<char>,
    env: Option<Seq<char>>,
    engine_default: Option<Seq<char>>,
    platform: Seq<char>,
    windows: bool,
) -> Seq<Seq<char>> {
    (if home_override.len() > 0 {
        seq![cli_paths::normalized(home_override, windows)]
    } else {
        Seq::empty()
    }) + (if env is Some {
        seq![env->0]
    } else {
        Seq::empty()
    }) + (if engine_default is Some && cli_paths::normalized(engine_default->0, windows).len() > 0 {
        seq![cli_paths::normalized(engine_default->0, windows)]
    } else {
        Seq::empty()
    }) + (if platform.len() > 0 {
        seq![platform]
    } else {
        Seq::empty()
    })
}

/// See [`model_bases`]; `env` is `RUNANYWHERE_HOME`.
pub fn model_bases_exec(
    home_override: &str,
    env: &Option<String>,
    engine_default: &Option<String>,
    platform: &str,
    windows: bool,
) -> (r: Vec<String>)
    ensures
        output::strings_view(r@) == model_bases(
            home_override@,
            cli_paths::given(*env),
            cli_paths::given(*engine_default),
            platform@,
            windows,
        ),
{
    let mut bases: Vec<String> = Vec::new();
    if !home_override.is_empty() {
        bases.push(cli_paths::normalize_dir(home_override, windows));
    }
    if let Some(dir) = env {
        bases.push(text::owned(dir.as_str()));
    }
    if let Some(dir) = engine_default {
        let normalized = cli_paths::normalize_dir(dir.as_str(), windows);
        if !normalized.as_str().is_empty() {
            bases.push(normalized);
        }
    }
    if !platform.is_empty() {
        bases.push(text::owned(platform));
    }
    assert(output::strings_view(bases@) =~= model_bases(
        home_override@,
        cli_paths::given(*env),
        cli_paths::given(*engine_default),
        platform@,
        windows,
    ));
    bases
}

/// A place below a base where models may be kept.
#[derive(Clone, Copy, Debug, PartialEq, Eq, Structural)]
pub enum ModelStore {
    /// `RunAnywhere/Models`.
    Nested,
    /// `Models`.
    Direct,
}

/// The path of a store below its base.
pub fn store_path(store: ModelStore) -> (r: &'static str)
    ensures
        r@ == place_of(store),
{
    match store {
        ModelStore::Nested => "RunAnywhere/Models",
        ModelStore::Direct => "Models",
    }
}

/// The model store: the first that exists, base by base and the nested one
/// first; where none exists, `Models` below the first base; nothing without a
/// base. `exists` holds, for each base, whether the nested store and whether the
/// direct one is a directory.
pub open spec fn chosen_store(exists: Seq<(bool, bool)>) -> Option<(int, ModelStore)> {
    first_store(exists, 0)
}

/// The first existing store from the `i`-th base on.
pub open spec fn first_store(exists: Seq<(bool, bool)>, i: int) -> Option<(int, ModelStore)>
    decreases exists.len() - i,
{
    if 0 <= i < exists.len() {
        if exists[i].0 {
            Some((i, ModelStore::Nested))
        } else if exists[i].1 {
            Some((i, ModelStore::Direct))
        } else {
            first_store(exists, i + 1)
        }
    } else if exists.len() > 0 {
        Some((0, ModelStore::Direct))
    } else {
        None
    }
}

/// See [`chosen_store`]; the index of the base, and the store below it.
pub fn models_directory(exists: &Vec<(bool, bool)>) -> (r: Option<(usize, ModelStore)>)
    ensures
        match r {
            Some(store) => chosen_store(exists@) == Some((store.0 as int, store.1)) && store.0 < exists@.len(),
            None => chosen_store(exists@) is None,
        },
{
    let mut i: usize = 0;
    while i < exists.len()
        invariant
            i <= exists@.len(),
            chosen_store(exists@) == first_store(exists@, i as int),
        decreases exists@.len() - i,
    {
        if exists[i].0 {
            return Some((i, ModelStore::Nested));
        }
        if exists[i].1 {
            return Some((i, ModelStore::Direct));
        }
        i = i + 1;
    }
    if exists.len() > 0 {
        Some((0, ModelStore::Direct))
    } else {
        None
    }
}

/// The path of a store below its base.
pub open spec fn place_of(store: ModelStore) -> Seq<char> {
    match store {
        ModelStore::Nested => "RunAnywhere/Models"@,
        ModelStore::Direct => "Models"@,
    }
}

proof fn a_base_has_a_store(exists: Seq<(bool, bool)>, i: int)
    requires
        0 <= i <= exists.len(),
    ensures
        first_store(exists, i) is None <==> exists.len() == 0,
    decreases exists.len() - i,
{
    if i < exists.len() {
        a_base_has_a_store(exists, i + 1);
    }
}

/// The path of the model store: see [`chosen_store`]. `exists` tells of each of
/// the bases; without a base the path is empty.
pub fn models_path(bases: &Vec<String>, exists: &Vec<(bool, bool)>) -> (r: String)
    requires
        bases@.len() == exists@.len(),
    ensures
        r@ == match chosen_store(exists@) {
            Some(store) => pathname::join(bases@[store.0]@, place_of(store.1)),
            None => Seq::empty(),
        },
        bases@.len() == 0 <==> chosen_store(exists@) is None,
{
    proof {
        a_base_has_a_store(exists@, 0);
    }
    match models_directory(exists) {
        Some(store) => pathname::join_exec(bases[store.0].as_str(), store_path(store.1)),
        None => String::new(),
    }
}

/// Whether a message ends in " (os error N)", from `open` on.
pub open spec fn os_suffix_at(full: Seq<char>, open: int) -> bool {
    0 <= open && open + 13 <= full.len() && full.last() == ')' && full.subrange(open, open + 11) == " (os error "@
        && text::all_digits(full.subrange(open + 11, full.len() - 1))
}

proof fn marker_chars()
    ensures
        " (os error "@.len() == 11,
        " (os error "@[10] == ' ',
{
    reveal_strlit(" (os error ");
}

proof fn os_suffix_is_unique(full: Seq<char>, a: int, b: int)
    requires
        os_suffix_at(full, a),
        os_suffix_at(full, b),
    ensures
        a == b,
{
    marker_chars();
    assert(full.subrange(a, a + 11)[10] == full[a + 10]);
    assert(full.subrange(b, b + 11)[10] == full[b + 10]);
    if a < b {
        assert(full.subrange(a + 11, full.len() - 1)[b - a - 1] == full[b + 10]);
    } else if b < a {
        assert(full.subrange(b + 11, full.len() - 1)[a - b - 1] == full[a + 10]);
    }
}

/// The message of the operating system alone: a trailing " (os error N)" is
/// taken off, and any other text is left as it is.
pub fn os_error_message(full: &str) -> (r: String)
    ensures
        forall|open: int| #[trigger] os_suffix_at(full@, open) ==> r@ == full@.take(open),
        (forall|open: int| !#[trigger] os_suffix_at(full@, open)) ==> r@ == full@,
{
    let v = text::chars_of(full);
    let n: usize = v.len();
    let whole = text::owned(full);
    if n < 13 || v[n - 1] != ')' {
        return whole;
    }
    let mut at: usize = n - 1;
    while at > 0 && v[at - 1] >= '0' && v[at - 1] <= '9'
        invariant
            at <= n - 1,
            n == v@.len(),
            forall|j: int| at <= j < n - 1 ==> '0' <= #[trigger] v@[j] <= '9',
        decreases at,
    {
        at = at - 1;
    }
    proof {
        marker_chars();
        assert forall|open: int| #[trigger] os_suffix_at(full@, open) implies open + 11 == at by {
            let digits = full@.subrange(open + 11, n - 1);
            assert(full@.subrange(open, open + 11)[10] == full@[open + 10]);
            if at > open + 11 {
                assert(digits[at - 1 - (open + 11)] == v@[at - 1]);
            } else if at < open + 11 {
                assert(v@[open + 10] == ' ');
            }
        }
    }
    if at == n - 1 || at < 11 {
        return whole;
    }
    let marker = text::string_of_range(&v, at - 11, at);
    if text::str_eq(marker.as_str(), " (os error ") {
        let head = text::string_of_range(&v, 0, at - 11);
        proof {
            let open = at - 11;
            let digits = full@.subrange(open + 11, n - 1);
            assert forall|j: int| 0 <= j < digits.len() implies '0' <= #[trigger] digits[j] <= '9' by {
                assert(digits[j] == v@[at + j]);
            }
            assert(full@.subrange(open, open + 11) =~= marker@);
            assert(os_suffix_at(full@, open));
            assert forall|other: int| #[trigger] os_suffix_at(full@, other) implies other == open by {
                os_suffix_is_unique(full@, open, other);
            }
            assert(head@ =~= full@.take(open));
        }
        return head;
    }
    proof {
        assert forall|open: int| !#[trigger] os_suffix_at(full@, open) by {
            if os_suffix_at(full@, open) {
                assert(full@.subrange(open, open + 11) =~= marker@);
            }
        }
    }
    whole
}

/// Whether an answer to the question means yes.
pub open spec fn is_yes(answer: Seq<char>) -> bool {
    answer.len() > 0 && (answer[0] == 'y' || answer[0] == 'Y')
}

/// See [`is_yes`]; a line that could not be read is no answer.
pub fn confirm(answer: Option<&str>) -> (r: bool)
    ensures
        r == (answer is Some && is_yes(answer->0@)),
{
    match answer {
        Some(line) => line.unicode_len() > 0 && (line.get_char(0) == 'y' || line.get_char(0) == 'Y'),
        None => false,
    }
}

/// The question that is asked before anything is deleted.
pub fn confirm_prompt(question: &str) -> (r: String)
    ensures
        r@ == question@ + " [y/N] "@,
{
    text::cat2(question, " [y/N] ")
}

/// What a target of the uninstall is.
#[derive(Clone, Copy, Debug, PartialEq, Eq, Structural)]
pub enum TargetLabel {
    Models,
    Config,
    Launcher,
    Install,
}

/// The label as it is printed.
pub open spec fn label_text(label: TargetLabel) -> Seq<char> {
    match label {
        TargetLabel::Models => "models"@,
        TargetLabel::Config => "config"@,
        TargetLabel::Launcher => "launcher"@,
        TargetLabel::Install => "install"@,
    }
}

fn label_text_exec(label: TargetLabel) -> (r: &'static str)
    ensures
        r@ == label_text(label),
{
    match label {
        TargetLabel::Models => "models",
        TargetLabel::Config => "config",
        TargetLabel::Launcher => "launcher",
        TargetLabel::Install => "install",
    }
}

/// Something to delete, and its size where it is known.
#[derive(Debug)]
pub struct Target {
    pub label: TargetLabel,
    pub path: String,
    pub size: String,
}

/// A target as plain values.
pub open spec fn target_view(t: Target) -> (TargetLabel, Seq<char>, Seq<char>) {
    (t.label, t.path@, t.size@)
}

/// Targets as plain values.
pub open spec fn targets_view(targets: Seq<Target>) -> Seq<(TargetLabel, Seq<char>, Seq<char>)> {
    targets.map_values(|t: Target| target_view(t))
}

fn target(label: TargetLabel, path: &str) -> (r: Target)
    ensures
        target_view(r) == (label, path@, Seq::<char>::empty()),
{
    Target { label, path: text::owned(path), size: String::new() }
}

/// The tree that the install script puts down, before symlinks are resolved.
pub fn install_tree(home: &str) -> (r: String)
    ensures
        r@ == pathname::join(home@, ".local/lib/wally"@),
{
    pathname::join_exec(home, ".local/lib/wally")
}

/// The install tree and the launcher beside it, when the running binary lies
/// inside that tree: nothing for a Homebrew install, a source build or anything
/// else. `tree` is the install tree with its symlinks resolved.
pub open spec fn install_layout(exe: Seq<char>, home: Option<Seq<char>>, tree: Seq<char>) -> Option<
    (Seq<char>, Seq<char>),
> {
    if exe.len() > 0 && home is Some && home->0.len() > 0 && pathname::starts_with(exe, tree) {
        Some((tree, pathname::join(home->0, ".local/bin/wally"@)))
    } else {
        None
    }
}

/// See [`install_layout`]. `resolved` is the canonical form of [`install_tree`],
/// which stands for itself when it cannot be resolved.
pub fn install_sh_layout(exe: &str, home: &Option<String>, resolved: &Option<String>) -> (r: Option<(String, String)>)
    ensures
        ({
            let tree = match (cli_paths::given(*resolved), cli_paths::given(*home)) {
                (Some(t), _) => t,
                (None, Some(h)) => pathname::join(h, ".local/lib/wally"@),
                (None, None) => Seq::empty(),
            };
            match r {
                Some(layout) => install_layout(exe@, cli_paths::given(*home), tree) == Some((layout.0@, layout.1@)),
                None => install_layout(exe@, cli_paths::given(*home), tree) is None,
            }
        }),
{
    if exe.is_empty() {
        return None;
    }
    let base = match home {
        Some(h) => h,
        None => return None,
    };
    if base.as_str().is_empty() {
        return None;
    }
    let tree = match resolved {
        Some(t) => text::owned(t.as_str()),
        None => install_tree(base.as_str()),
    };
    if pathname::starts_with_exec(exe, tree.as_str()) {
        Some((tree, pathname::join_exec(base.as_str(), ".local/bin/wally")))
    } else {
        None
    }
}

/// Whether the launcher is really the install script's own symlink into the
/// tree: never a plain file, a link elsewhere, or one that leads nowhere.
pub fn launcher_target(is_symlink: bool, resolved: &Option<String>, tree: &str) -> (r: bool)
    ensures
        r == (is_symlink && resolved is Some && pathname::starts_with(resolved->0@, tree@)),
{
    if !is_symlink {
        return false;
    }
    match resolved {
        Some(path) => pathname::starts_with_exec(path.as_str(), tree),
        None => false,
    }
}

/// The program's own targets: only the install script's tree, and its launcher
/// where that was verified.
pub open spec fn exe_targets(layout: Option<(Seq<char>, Seq<char>)>, launcher_verified: bool) -> Seq<
    (TargetLabel, Seq<char>, Seq<char>),
> {
    if layout is None {
        Seq::empty()
    } else if launcher_verified {
        seq![
            (TargetLabel::Launcher, (layout->0).1, Seq::empty()),
            (TargetLabel::Install, (layout->0).0, Seq::empty()),
        ]
    } else {
        seq![(TargetLabel::Install, (layout->0).0, Seq::empty())]
    }
}

/// See [`exe_targets`].
pub fn unix_exe_targets(layout: &Option<(String, String)>, launcher_verified: bool) -> (r: Vec<Target>)
    ensures
        targets_view(r@) == exe_targets(
            match *layout {
                Some(l) => Some((l.0@, l.1@)),
                None => None,
            },
            launcher_verified,
        ),
{
    let mut targets: Vec<Target> = Vec::new();
    if let Some(l) = layout {
        if launcher_verified {
            targets.push(target(TargetLabel::Launcher, l.1.as_str()));
        }
        targets.push(target(TargetLabel::Install, l.0.as_str()));
    }
    assert(targets_view(targets@) =~= exe_targets(
        match *layout {
            Some(l) => Some((l.0@, l.1@)),
            None => None,
        },
        launcher_verified,
    ));
    targets
}

/// The model store and the config, where there is one.
pub fn data_targets(models: &str, config: &str) -> (r: Vec<Target>)
    ensures
        targets_view(r@) == (if models@.len() > 0 {
            seq![(TargetLabel::Models, models@, Seq::<char>::empty())]
        } else {
            Seq::empty()
        }) + (if config@.len() > 0 {
            seq![(TargetLabel::Config, config@, Seq::<char>::empty())]
        } else {
            Seq::empty()
        }),
{
    let mut targets: Vec<Target> = Vec::new();
    if !models.is_empty() {
        targets.push(target(TargetLabel::Models, models));
    }
    if !config.is_empty() {
        targets.push(target(TargetLabel::Config, config));
    }
    assert(targets_view(targets@) =~= (if models@.len() > 0 {
        seq![(TargetLabel::Models, models@, Seq::<char>::empty())]
    } else {
        Seq::empty()
    }) + (if config@.len() > 0 {
        seq![(TargetLabel::Config, config@, Seq::<char>::empty())]
    } else {
        Seq::empty()
    }));
    targets
}

/// The first `n` targets, but for those that are not there; `found` holds the size
/// of each one that is.
pub open spec fn present(
    targets: Seq<(TargetLabel, Seq<char>, Seq<char>)>,
    found: Seq<Option<String>>,
    n: int,
) -> Seq<(TargetLabel, Seq<char>, Seq<char>)>
    decreases n,
{
    if n <= 0 {
        Seq::empty()
    } else {
        match found[n - 1] {
            Some(size) => present(targets, found, n - 1).push((targets[n - 1].0, targets[n - 1].1, size@)),
            None => present(targets, found, n - 1),
        }
    }
}

/// The targets that are there, in their order, each with its size; see
/// [`present`].
pub fn present_targets(targets: &Vec<Target>, found: &Vec<Option<String>>) -> (r: Vec<Target>)
    requires
        targets@.len() == found@.len(),
    ensures
        targets_view(r@) == present(targets_view(targets@), found@, targets@.len() as int),
{
    let ghost all = targets_view(targets@);
    let mut r: Vec<Target> = Vec::new();
    assert(targets_view(r@) =~= present(all, found@, 0));
    let mut i: usize = 0;
    while i < targets.len()
        invariant
            i <= targets@.len() == found@.len(),
            all == targets_view(targets@),
            targets_view(r@) == present(all, found@, i as int),
        decreases targets@.len() - i,
    {
        let ghost before = targets_view(r@);
        if let Some(size) = &found[i] {
            let t = Target {
                label: targets[i].label,
                path: text::owned(targets[i].path.as_str()),
                size: text::owned(size.as_str()),
            };
            r.push(t);
            assert(targets_view(r@) =~= before.push(target_view(t)));
        }
        i = i + 1;
    }
    r
}

/// What is said of a program that is not the install script's own: it is never
/// deleted.
pub fn exe_note(exe: &str, verified: bool, homebrew: bool) -> (r: Option<String>)
    ensures
        r is Some <==> exe@.len() > 0 && !verified,
        r is Some ==> r->0@ == if homebrew {
            "wally was installed with Homebrew; run `brew uninstall wally` to remove the binary."@
        } else {
            exe@ + " could not be verified as wally's own install; leaving it in place."@
        },
{
    if exe.is_empty() || verified {
        return None;
    }
    if homebrew {
        Some(text::owned("wally was installed with Homebrew; run `brew uninstall wally` to remove the binary."))
    } else {
        Some(text::cat2(exe, " could not be verified as wally's own install; leaving it in place."))
    }
}

/// The line of a target in the preview.
pub open spec fn target_line(t: (TargetLabel, Seq<char>, Seq<char>)) -> Seq<char> {
    "  "@ + label_text(t.0) + "  "@ + t.1 + if t.2.len() == 0 {
        Seq::empty()
    } else {
        "  ("@ + t.2 + ")"@
    }
}

fn target_line_exec(t: &Target) -> (r: String)
    ensures
        r@ == target_line(target_view(*t)),
{
    let mut r = text::cat4("  ", label_text_exec(t.label), "  ", t.path.as_str());
    if !t.size.as_str().is_empty() {
        r.append(text::cat3("  (", t.size.as_str(), ")").as_str());
    }
    assert(r@ =~= target_line(target_view(*t)));
    r
}

/// The preview of an uninstall.
pub open spec fn preview(
    brand: BrandView,
    targets: Seq<(TargetLabel, Seq<char>, Seq<char>)>,
    manual: Option<Seq<char>>,
) -> Seq<(output::Channel, Seq<char>)> {
    (if targets.len() > 0 {
        seq![output::status("wally uninstall will delete:"@)] + targets.map_values(
            |t: (TargetLabel, Seq<char>, Seq<char>)| output::status(target_line(t)),
        )
    } else {
        Seq::empty()
    }) + (if manual is Some {
        seq![
            output::status(
                "wally cannot delete its own running program on Windows; close this window, then delete "@ + manual->0
                    + " yourself to finish uninstalling."@,
            ),
        ]
    } else {
        Seq::empty()
    }) + seq![
        output::status("your coding tools ("@ + brand.word + "-code, opencode, ...) are left untouched."@),
    ]
}

fn preview_exec(brand: &Brand, targets: &Vec<Target>, manual: &Option<String>) -> (r: Printed)
    ensures
        r@ == preview(brand@, targets_view(targets@), cli_paths::given(*manual)),
{
    let mut printed = Printed::new();
    let ghost views = targets_view(targets@);
    let ghost lines = views.map_values(
        |t: (TargetLabel, Seq<char>, Seq<char>)| output::status(target_line(t)),
    );
    let ghost head = seq![output::status("wally uninstall will delete:"@)];
    if targets.len() > 0 {
        printed.status(text::owned("wally uninstall will delete:"));
        let mut i: usize = 0;
        assert(printed@ =~= head + lines.take(0));
        while i < targets.len()
            invariant
                i <= targets@.len(),
                views == targets_view(targets@),
                lines == views.map_values(
                    |t: (TargetLabel, Seq<char>, Seq<char>)| output::status(target_line(t)),
                ),
                printed@ == head + lines.take(i as int),
            decreases targets@.len() - i,
        {
            printed.status(target_line_exec(&targets[i]));
            assert(lines[i as int] == output::status(target_line(target_view(targets@[i as int]))));
            assert(lines.take(i + 1) =~= lines.take(i as int).push(lines[i as int]));
            i = i + 1;
            assert(printed@ =~= head + lines.take(i as int));
        }
        assert(lines.take(i as int) =~= lines);
    }
    if let Some(dir) = manual {
        printed.status(
            text::cat3(
                "wally cannot delete its own running program on Windows; close this window, then delete ",
                dir.as_str(),
                " yourself to finish uninstalling.",
            ),
        );
    }
    printed.status(
        text::cat3("your coding tools (", brand.word.as_str(), "-code, opencode, ...) are left untouched."),
    );
    assert(printed@ =~= preview(brand@, views, cli_paths::given(*manual)));
    printed
}

/// What an uninstall does next.
#[derive(Clone, Copy, Debug, PartialEq, Eq, Structural)]
pub enum Uninstall {
    /// It is over; the exit code.
    Finished(i32),
    /// Ask for confirmation.
    Ask,
    /// Delete the targets, in the order of [`deletion_order`].
    Delete,
}

/// What follows the preview. Nothing is deleted without a confirmation or
/// `--yes`, and a shell that cannot answer is refused.
pub open spec fn after_preview(nothing: bool, no_targets: bool, yes: bool, tty: bool) -> Uninstall {
    if nothing {
        Uninstall::Finished(0)
    } else if no_targets || yes {
        Uninstall::Delete
    } else if tty {
        Uninstall::Ask
    } else {
        Uninstall::Finished(1)
    }
}

/// `wally uninstall`, up to the confirmation: `note` is what [`exe_note`] says,
/// `targets` are those that exist, and `manual` is a directory that only the
/// person can remove.
pub fn run_uninstall(
    brand: &Brand,
    yes: bool,
    note: &Option<String>,
    targets: &Vec<Target>,
    manual: &Option<String>,
    stdin_is_tty: bool,
) -> (r: (Printed, Uninstall))
    ensures
        r.1 == after_preview(targets@.len() == 0 && manual is None, targets@.len() == 0, yes, stdin_is_tty),
        r.0@ == (if *note is Some {
            seq![output::status(note->0@)]
        } else {
            Seq::empty()
        }) + (if targets@.len() == 0 && manual is None {
            seq![output::status("nothing to uninstall; wally is already gone."@)]
        } else {
            preview(brand@, targets_view(targets@), cli_paths::given(*manual)) + (if r.1 == Uninstall::Finished(1) {
                seq![
                    output::error(
                        "uninstall needs a terminal to confirm; re-run with --yes to delete non-interactively."@,
                    ),
                ]
            } else {
                Seq::empty()
            })
        }),
{
    let mut printed = Printed::new();
    if let Some(n) = note {
        printed.status(text::owned(n.as_str()));
    }
    let ghost noted = printed@;
    assert(noted =~= (if *note is Some {
        seq![output::status(note->0@)]
    } else {
        Seq::empty()
    }));
    if targets.len() == 0 && manual.is_none() {
        printed.status(text::owned("nothing to uninstall; wally is already gone."));
        assert(printed@ =~= noted + seq![output::status("nothing to uninstall; wally is already gone."@)]);
        return (printed, Uninstall::Finished(0));
    }
    printed.extend(preview_exec(brand, targets, manual));
    if targets.len() > 0 && !yes {
        if !stdin_is_tty {
            printed.error(
                text::owned(
                    "uninstall needs a terminal to confirm; re-run with --yes to delete non-interactively.",
                ),
            );
            return (printed, Uninstall::Finished(1));
        }
        return (printed, Uninstall::Ask);
    }
    (printed, Uninstall::Delete)
}

/// What follows the answer.
pub fn after_answer(confirmed: bool) -> (r: (Printed, Uninstall))
    ensures
        confirmed ==> r.0@ == Seq::<(output::Channel, Seq<char>)>::empty() && r.1 == Uninstall::Delete,
        !confirmed ==> r.0@ == seq![output::status("aborted; nothing was deleted."@)] && r.1 == Uninstall::Finished(
            1,
        ),
{
    let mut printed = Printed::new();
    if confirmed {
        return (printed, Uninstall::Delete);
    }
    printed.status(text::owned("aborted; nothing was deleted."));
    (printed, Uninstall::Finished(1))
}

/// The indices of the targets below `n` that are not the install tree.
pub open spec fn first_deletions(targets: Seq<(TargetLabel, Seq<char>, Seq<char>)>, n: int) -> Seq<int>
    decreases n,
{
    if n <= 0 {
        Seq::empty()
    } else if targets[n - 1].0 == TargetLabel::Install {
        first_deletions(targets, n - 1)
    } else {
        first_deletions(targets, n - 1).push(n - 1)
    }
}

/// The last target below `n` that is the install tree.
pub open spec fn deferred(targets: Seq<(TargetLabel, Seq<char>, Seq<char>)>, n: int) -> Option<int>
    decreases n,
{
    if n <= 0 {
        None
    } else if targets[n - 1].0 == TargetLabel::Install {
        Some(n - 1)
    } else {
        deferred(targets, n - 1)
    }
}

/// The order in which targets are deleted: the tree that holds the running
/// program comes last.
pub open spec fn deletions(targets: Seq<(TargetLabel, Seq<char>, Seq<char>)>) -> Seq<int> {
    let n = targets.len() as int;
    match deferred(targets, n) {
        Some(last) => first_deletions(targets, n).push(last),
        None => first_deletions(targets, n),
    }
}

/// See [`deletions`]: the indices of the targets, in order.
pub fn deletion_order(targets: &Vec<Target>) -> (r: Vec<usize>)
    ensures
        r@.map_values(|i: usize| i as int) == deletions(targets_view(targets@)),
        forall|k: int| 0 <= k < r@.len() ==> #[trigger] r@[k] < targets@.len(),
{
    let ghost views = targets_view(targets@);
    let mut order: Vec<usize> = Vec::new();
    let mut last: Option<usize> = None;
    let mut i: usize = 0;
    while i < targets.len()
        invariant
            i <= targets@.len(),
            views == targets_view(targets@),
            order@.map_values(|i: usize| i as int) =~= first_deletions(views, i as int),
            match last {
                Some(l) => deferred(views, i as int) == Some(l as int) && l < i,
                None => deferred(views, i as int) is None,
            },
            forall|k: int| 0 <= k < order@.len() ==> #[trigger] order@[k] < i,
        decreases targets@.len() - i,
    {
        assert(views[i as int].0 == targets@[i as int].label);
        if targets[i].label == TargetLabel::Install {
            last = Some(i);
        } else {
            order.push(i);
        }
        i = i + 1;
    }
    if let Some(l) = last {
        order.push(l);
    }
    assert(order@.map_values(|i: usize| i as int) =~= deletions(views));
    order
}

/// What is said of a target that could not be deleted; `error` is the whole
/// message of the failed call.
pub fn delete_failure(path: &str, error: &str) -> (r: String)
    ensures
        forall|open: int| #[trigger]
            os_suffix_at(error@, open) ==> r@ == "could not delete "@ + path@ + ": "@ + error@.take(open),
        (forall|open: int| !#[trigger] os_suffix_at(error@, open)) ==> r@ == "could not delete "@ + path@ + ": "@ + error@,
{
    text::cat4("could not delete ", path, ": ", os_error_message(error).as_str())
}

/// How the uninstall ends after the deletions: what is left for the person to
/// remove counts as a failure, so that a script sees an incomplete uninstall.
pub fn uninstall_outcome(failures: usize, manual: bool) -> (r: (Option<String>, i32))
    ensures
        r.1 == if failures == 0 && !manual {
            0i32
        } else {
            1i32
        },
        r.1 == 0 <==> r.0 is Some,
        r.0 is Some ==> (r.0)->0@ == "wally is uninstalled. thanks for trying it."@,
{
    if failures != 0 || manual {
        return (None, 1);
    }
    (Some(text::owned("wally is uninstalled. thanks for trying it.")), 0)
}

proof fn first_deletions_hold(targets: Seq<(TargetLabel, Seq<char>, Seq<char>)>, n: int)
    requires
        0 <= n <= targets.len(),
    ensures
        forall|k: int|
            0 <= k < first_deletions(targets, n).len() ==> 0 <= #[trigger] first_deletions(targets, n)[k] < n
                && targets[first_deletions(targets, n)[k]].0 != TargetLabel::Install,
        forall|i: int|
            0 <= i < n && (#[trigger] targets[i]).0 != TargetLabel::Install ==> first_deletions(targets, n).contains(i),
        first_deletions(targets, n).no_duplicates(),
    decreases n,
{
    if n > 0 {
        first_deletions_hold(targets, n - 1);
        let before = first_deletions(targets, n - 1);
        if targets[n - 1].0 != TargetLabel::Install {
            let now = before.push(n - 1);
            assert forall|i: int| 0 <= i < n && (#[trigger] targets[i]).0 != TargetLabel::Install implies now.contains(
                i,
            ) by {
                if i == n - 1 {
                    assert(now[before.len() as int] == i);
                } else {
                    let k = choose|k: int| 0 <= k < before.len() && before[k] == i;
                    assert(now[k] == i);
                }
            }
        }
    }
}

proof fn deferred_holds(targets: Seq<(TargetLabel, Seq<char>, Seq<char>)>, n: int)
    requires
        0 <= n <= targets.len(),
    ensures
        match deferred(targets, n) {
            Some(l) => 0 <= l < n && targets[l].0 == TargetLabel::Install,
            None => forall|i: int| 0 <= i < n ==> (#[trigger] targets[i]).0 != TargetLabel::Install,
        },
    decreases n,
{
    if n > 0 {
        deferred_holds(targets, n - 1);
    }
}

/// Every target but the install tree is deleted once, and when the install tree
/// is among the targets it goes last, after everything else.
pub proof fn the_install_tree_goes_last(targets: Seq<(TargetLabel, Seq<char>, Seq<char>)>)
    ensures
        deletions(targets).no_duplicates(),
        forall|i: int|
            0 <= i < targets.len() && (#[trigger] targets[i]).0 != TargetLabel::Install ==> deletions(targets).contains(
                i,
            ),
        forall|k: int|
            0 <= k < deletions(targets).len() - 1 ==> targets[#[trigger] deletions(targets)[k]].0
                != TargetLabel::Install,
        (exists|i: int| 0 <= i < targets.len() && (#[trigger] targets[i]).0 == TargetLabel::Install) ==> deletions(
            targets,
        ).len() > 0 && targets[deletions(targets).last()].0 == TargetLabel::Install,
{
    let n = targets.len() as int;
    first_deletions_hold(targets, n);
    deferred_holds(targets, n);
    let head = first_deletions(targets, n);
    assert forall|i: int| 0 <= i < targets.len() && (#[trigger] targets[i]).0 != TargetLabel::Install implies deletions(
        targets,
    ).contains(i) by {
        let k = choose|k: int| 0 <= k < head.len() && head[k] == i;
        assert(deletions(targets)[k] == i);
    }
    if deferred(targets, n) is None {
        assert(deletions(targets) == head);
    }
}

/// Nothing is deleted unless the person asked for it with `--yes` or answered
/// yes on a terminal.
pub proof fn deleting_takes_consent(nothing: bool, no_targets: bool, yes: bool, tty: bool)
    requires
        !no_targets,
    ensures
        after_preview(nothing, no_targets, yes, tty) == Uninstall::Delete ==> yes,
        after_preview(nothing, no_targets, yes, tty) == Uninstall::Ask ==> tty,
{
}

/// A program outside the install tree is never among the targets.
pub proof fn an_unverified_program_is_left_alone(exe: Seq<char>, home: Option<Seq<char>>, tree: Seq<char>, launcher: bool)
    requires
        !pathname::starts_with(exe, tree),
    ensures
        exe_targets(install_layout(exe, home, tree), launcher).len() == 0,
{
}

/// A drive letter.
pub open spec fn is_letter(c: char) -> bool {
    'a' <= c <= 'z' || 'A' <= c <= 'Z'
}

/// A relative path below another, as Windows writes it. A bare drive takes no
/// separator.
pub open spec fn windows_join(base: Seq<char>, sub: Seq<char>) -> Seq<char> {
    if base.len() == 0 || base.last() == '\\' || base.last() == '/' || (base.len() == 2 && is_letter(base[0])
        && base[1] == ':') {
        base + sub
    } else {
        base + seq!['\\'] + sub
    }
}

fn is_letter_exec(c: char) -> (r: bool)
    ensures
        r == is_letter(c),
{
    ('a' <= c && c <= 'z') || ('A' <= c && c <= 'Z')
}

fn windows_join_exec(base: &str, sub: &str) -> (r: String)
    ensures
        r@ == windows_join(base@, sub@),
{
    let n = base.unicode_len();
    if n == 0 {
        assert(base@ + sub@ =~= sub@);
        return text::owned(sub);
    }
    let last = base.get_char(n - 1);
    if last == '\\' || last == '/' || (n == 2 && last == ':' && is_letter_exec(base.get_char(0))) {
        text::cat2(base, sub)
    } else {
        proof {
            reveal_strlit("\\");
            assert("\\"@ =~= seq!['\\']);
        }
        text::cat3(base, "\\", sub)
    }
}

/// The tree that the Windows installer puts down, below the local application
/// data.
pub open spec fn windows_tree(local_app_data: Seq<char>) -> Seq<char> {
    windows_join(windows_join(local_app_data, "Programs"@), "wally"@)
}

/// The tree that the Windows installer put down, when the running program lives
/// inside it; `is_inside` tests that with both paths resolved. None for a
/// program placed anywhere else.
pub fn windows_install_directory(exe: &str, local_app_data: &Option<String>, is_inside: bool) -> (r: Option<String>)
    ensures
        cli_paths::given(r) == (if exe@.len() > 0 && *local_app_data is Some && local_app_data->0@.len() > 0
            && is_inside {
            Some(windows_tree(local_app_data->0@))
        } else {
            None
        }),
{
    match local_app_data {
        Some(dir) if !exe.is_empty() && !dir.as_str().is_empty() && is_inside => Some(
            windows_install_tree(dir.as_str()),
        ),
        _ => None,
    }
}

/// See [`windows_tree`].
pub fn windows_install_tree(local_app_data: &str) -> (r: String)
    ensures
        r@ == windows_tree(local_app_data@),
{
    windows_join_exec(windows_join_exec(local_app_data, "Programs").as_str(), "wally")
}

/// The command whose help is shown: the topic where it names one at the top,
/// else `help` itself.
pub open spec fn help_path(commands: Seq<CommandView>, topic: Seq<char>) -> Seq<Seq<char>> {
    if topic.len() > 0 && cli::has_command(commands, Seq::empty(), topic) {
        seq![topic]
    } else {
        seq!["help"@]
    }
}

/// See [`help_path`].
pub fn help_render_path(root: &App, topic: &str) -> (r: Vec<String>)
    ensures
        output::strings_view(r@) == help_path(root@.commands, topic@),
{
    let shown = if !topic.is_empty() && root.has_subcommand(topic) {
        topic
    } else {
        "help"
    };
    let mut r: Vec<String> = Vec::new();
    r.push(text::owned(shown));
    assert(output::strings_view(r@) =~= seq![shown@]);
    r
}

/// The `help` command.
pub open spec fn help_command() -> CommandView {
    cli::top("help"@, "Show help for a command"@)
        .option(cli::opt("command"@, ValueType::Text, "Command to describe"@))
        .action(Action::Help)
}

/// Registers `help`.
pub fn register_help(app: &mut App)
    ensures
        final(app)@ == old(app)@.push(help_command()),
{
    let mut cmd = Command::top("help", "Show help for a command");
    cmd.add_option(Opt::value("command", ValueType::Text, "Command to describe"));
    cmd.callback(Action::Help);
    app.add(cmd);
}

/// Data is kept under the home directory: on macOS with that of applications,
/// elsewhere where the user says or in the usual place. Without a home there is
/// no place.
pub proof fn data_is_kept_where_the_system_does(home: Seq<char>, xdg: Option<Seq<char>>, macos: bool)
    ensures
        default_base(None, xdg, macos).len() == 0,
        default_base(Some(home), xdg, true) == home + "/Library/Application Support/RunAnywhere"@,
        xdg is Some ==> default_base(Some(home), xdg, false) == xdg->0 + "/RunAnywhere"@,
        xdg is None ==> default_base(Some(home), xdg, false) == home + "/.local/share/RunAnywhere"@,
{
}

/// Models are looked for first where the command line says, then where the
/// environment does, then where the engine does, and last where the system keeps
/// data.
pub proof fn models_are_looked_for_in_order(
    home_override: Seq<char>,
    env: Seq<char>,
    engine_default: Seq<char>,
    platform: Seq<char>,
    windows: bool,
)
    requires
        home_override.len() > 0,
        cli_paths::normalized(engine_default, windows).len() > 0,
        platform.len() > 0,
    ensures
        model_bases(home_override, Some(env), Some(engine_default), platform, windows) == seq![
            cli_paths::normalized(home_override, windows),
            env,
            cli_paths::normalized(engine_default, windows),
            platform,
        ],
        model_bases(Seq::empty(), Some(env), Some(engine_default), platform, windows) == seq![
            env,
            cli_paths::normalized(engine_default, windows),
            platform,
        ],
        model_bases(Seq::empty(), None, Some(engine_default), platform, windows) == seq![
            cli_paths::normalized(engine_default, windows),
            platform,
        ],
        model_bases(Seq::empty(), None, None, platform, windows) == seq![platform],
        model_bases(Seq::empty(), None, None, Seq::empty(), windows).len() == 0,
        model_bases(home_override, None, None, Seq::empty(), windows) == seq![
            cli_paths::normalized(home_override, windows),
        ],
{
    assert(model_bases(home_override, Some(env), Some(engine_default), platform, windows) =~= seq![
        cli_paths::normalized(home_override, windows),
        env,
        cli_paths::normalized(engine_default, windows),
        platform,
    ]);
    assert(model_bases(Seq::empty(), Some(env), Some(engine_default), platform, windows) =~= seq![
        env,
        cli_paths::normalized(engine_default, windows),
        platform,
    ]);
    assert(model_bases(Seq::empty(), None, Some(engine_default), platform, windows) =~= seq![
        cli_paths::normalized(engine_default, windows),
        platform,
    ]);
    assert(model_bases(Seq::empty(), None, None, platform, windows) =~= seq![platform]);
    assert(model_bases(home_override, None, None, Seq::empty(), windows) =~= seq![
        cli_paths::normalized(home_override, windows),
    ]);
}

/// The store is the first that exists, a nested one before a direct one under the
/// same base; where none does, it is the direct one under the first base.
pub proof fn the_first_store_that_exists_is_used(exists: Seq<(bool, bool)>, i: int)
    requires
        0 <= i < exists.len(),
        forall|j: int| 0 <= j < i ==> !(#[trigger] exists[j]).0 && !exists[j].1,
    ensures
        exists[i].0 ==> chosen_store(exists) == Some((i, ModelStore::Nested)),
        !exists[i].0 && exists[i].1 ==> chosen_store(exists) == Some((i, ModelStore::Direct)),
        (forall|j: int| 0 <= j < exists.len() ==> !(#[trigger] exists[j]).0 && !exists[j].1) ==> chosen_store(exists)
            == Some((0int, ModelStore::Direct)),
        place_of(ModelStore::Nested) == "RunAnywhere/Models"@,
        place_of(ModelStore::Direct) == "Models"@,
{
    passing_over_what_is_missing(exists, 0, i);
    if forall|j: int| 0 <= j < exists.len() ==> !(#[trigger] exists[j]).0 && !exists[j].1 {
        passing_over_what_is_missing(exists, 0, exists.len() as int);
    }
}

proof fn passing_over_what_is_missing(exists: Seq<(bool, bool)>, from: int, to: int)
    requires
        0 <= from <= to <= exists.len(),
        forall|j: int| from <= j < to ==> !(#[trigger] exists[j]).0 && !exists[j].1,
    ensures
        first_store(exists, from) == first_store(exists, to),
    decreases to - from,
{
    if from < to {
        assert(!exists[from].0);
        passing_over_what_is_missing(exists, from + 1, to);
    }
}

/// What is left of the targets is what was found, each with its own path and the
/// size that was found for it.
pub proof fn what_is_found_is_a_target(
    targets: Seq<(TargetLabel, Seq<char>, Seq<char>)>,
    found: Seq<Option<String>>,
    n: int,
)
    requires
        0 <= n <= targets.len(),
        n <= found.len(),
    ensures
        ({
            let left = present(targets, found, n);
            &&& forall|i: int|
                0 <= i < n && (#[trigger] found[i]) is Some ==> left.contains(
                    (targets[i].0, targets[i].1, found[i]->0@),
                )
            &&& forall|x: (TargetLabel, Seq<char>, Seq<char>)| #[trigger]
                left.contains(x) ==> exists|i: int|
                    0 <= i < n && (#[trigger] found[i]) is Some && x == (targets[i].0, targets[i].1, found[i]->0@)
        }),
    decreases n,
{
    if n > 0 {
        what_is_found_is_a_target(targets, found, n - 1);
        let before = present(targets, found, n - 1);
        let left = present(targets, found, n);
        assert forall|x: (TargetLabel, Seq<char>, Seq<char>)| #[trigger] before.contains(x) implies left.contains(x) by {
            let k = choose|k: int| 0 <= k < before.len() && before[k] == x;
            assert(left[k] == x);
        }
        if found[n - 1] is Some {
            assert(left.last() == (targets[n - 1].0, targets[n - 1].1, found[n - 1]->0@));
        }
        assert forall|x: (TargetLabel, Seq<char>, Seq<char>)| #[trigger] left.contains(x) implies exists|i: int|
            0 <= i < n && (#[trigger] found[i]) is Some && x == (targets[i].0, targets[i].1, found[i]->0@) by {
            let k = choose|k: int| 0 <= k < left.len() && left[k] == x;
            if k < before.len() {
                assert(before[k] == x);
                assert(before.contains(x));
            } else {
                assert(found[n - 1] is Some);
            }
        }
    }
}

/// Everything that will be deleted is named before it is, by its path and, where
/// it is known, its size.
pub proof fn every_target_is_named_first(
    brand: BrandView,
    targets: Seq<(TargetLabel, Seq<char>, Seq<char>)>,
    manual: Option<Seq<char>>,
    i: int,
)
    requires
        0 <= i < targets.len(),
    ensures
        ({
            let lines = preview(brand, targets, manual);
            &&& lines.len() > targets.len() + 1
            &&& lines[i + 1].0 == output::Channel::Status
            &&& targets[i].2.len() == 0 ==> lines[i + 1].1 == "  "@ + label_text(targets[i].0) + "  "@ + targets[i].1
            &&& targets[i].2.len() > 0 ==> lines[i + 1].1 == "  "@ + label_text(targets[i].0) + "  "@ + targets[i].1
                + "  ("@ + targets[i].2 + ")"@
        }),
{
    let t = targets[i];
    let plain = "  "@ + label_text(t.0) + "  "@ + t.1;
    assert(plain + Seq::<char>::empty() =~= plain);
    assert(plain + ("  ("@ + t.2 + ")"@) =~= plain + "  ("@ + t.2 + ")"@);
    let lines = preview(brand, targets, manual);
    assert(lines[i + 1] == output::status(target_line(t)));
}

/// An uninstall goes on where it was asked to with `--yes`, asks on a terminal, and
/// stops where it could do neither; with nothing there it is done.
pub proof fn an_uninstall_goes_on_where_it_may(no_targets: bool, yes: bool, tty: bool)
    ensures
        after_preview(true, no_targets, yes, tty) == Uninstall::Finished(0),
        after_preview(false, false, true, tty) == Uninstall::Delete,
        after_preview(false, false, false, true) == Uninstall::Ask,
        after_preview(false, false, false, false) == Uninstall::Finished(1),
        after_preview(false, true, yes, tty) == Uninstall::Delete,
{
}

/// The install of a program that lies in the install tree is that tree, and the
/// launcher beside it; only a launcher that was verified goes with it.
pub proof fn a_verified_install_is_removed_whole(exe: Seq<char>, home: Seq<char>, tree: Seq<char>)
    requires
        exe.len() > 0,
        home.len() > 0,
        pathname::starts_with(exe, tree),
    ensures
        ({
            let layout = install_layout(exe, Some(home), tree);
            let bin = pathname::join(home, ".local/bin/wally"@);
            &&& layout == Some((tree, bin))
            &&& exe_targets(layout, true) == seq![
                (TargetLabel::Launcher, bin, Seq::<char>::empty()),
                (TargetLabel::Install, tree, Seq::<char>::empty()),
            ]
            &&& exe_targets(layout, false) == seq![(TargetLabel::Install, tree, Seq::<char>::empty())]
        }),
{
}

/// On Windows the install is in the user's own programs, below the local data of
/// applications.
pub proof fn a_windows_install_is_among_the_programs(local: Seq<char>)
    requires
        local.len() > 2,
        local.last() != '\\' && local.last() != '/',
    ensures
        windows_tree(local) == local + seq!['\\'] + "Programs"@ + seq!['\\'] + "wally"@,
        windows_tree(local.push('\\')) == local + seq!['\\'] + "Programs"@ + seq!['\\'] + "wally"@,
{
    reveal_strlit("Programs");
    let one = windows_join(local, "Programs"@);
    assert(one.last() == 's');
    assert(one.len() > 2);
    let two = windows_join(local.push('\\'), "Programs"@);
    assert(two =~= one);
    assert(windows_tree(local) =~= local + seq!['\\'] + "Programs"@ + seq!['\\'] + "wally"@);
}

/// Help on a command that there is shows that command, and otherwise itself.
pub proof fn help_is_on_what_was_asked(commands: Seq<CommandView>, topic: Seq<char>)
    ensures
        topic.len() > 0 && cli::has_command(commands, Seq::empty(), topic) ==> help_path(commands, topic) == seq![topic],
        !(topic.len() > 0 && cli::has_command(commands, Seq::empty(), topic)) ==> help_path(commands, topic) == seq![
            "help"@,
        ],
{
}

/// An uninstall ends well only where everything is gone, and only then says so.
pub proof fn an_uninstall_is_done_when_all_is_gone(failures: usize, manual: bool, r: (Option<String>, i32))
    requires
        call_ensures(uninstall_outcome, (failures, manual), r),
    ensures
        r.1 == 0 <==> failures == 0 && !manual,
        r.0 is Some <==> r.1 == 0,
        r.1 == 0 || r.1 == 1,
{
}

/// Only an answer that starts with the letter is a yes; silence is none.
pub proof fn only_a_yes_is_a_yes(answer: Seq<char>, rest: Seq<char>)
    ensures
        is_yes(seq!['y'] + rest) && is_yes(seq!['Y'] + rest),
        !is_yes(Seq::empty()),
        answer.len() > 0 && answer[0] != 'y' && answer[0] != 'Y' ==> !is_yes(answer),
{
}

/// The number of an error is told apart from its message where it stands in brackets
/// at the end.
pub proof fn an_error_number_stands_at_the_end(message: Seq<char>, digits: Seq<char>)
    requires
        digits.len() > 0,
        text::all_digits(digits),
    ensures
        os_suffix_at(message + " (os error "@ + digits + ")"@, message.len() as int),
        forall|full: Seq<char>, open: int| #[trigger]
            os_suffix_at(full, open) ==> 0 <= open && open + 13 <= full.len() && full == full.take(open)
                + " (os error "@ + full.subrange(open + 11, full.len() - 1) + ")"@ && text::all_digits(
                full.subrange(open + 11, full.len() - 1),
            ),
{
    reveal_strlit(" (os error ");
    reveal_strlit(")");
    let full = message + " (os error "@ + digits + ")"@;
    let open = message.len() as int;
    assert(full.subrange(open, open + 11) =~= " (os error "@);
    assert(full.subrange(open + 11, full.len() - 1) =~= digits);
    assert forall|full: Seq<char>, open: int| #[trigger] os_suffix_at(full, open) implies 0 <= open && open + 13
        <= full.len() && full == full.take(open) + " (os error "@ + full.subrange(open + 11, full.len() - 1) + ")"@
        && text::all_digits(full.subrange(open + 11, full.len() - 1)) by {
        let rest = full.subrange(open, open + 11);
        assert(rest == " (os error "@);
        assert(full =~= full.take(open) + rest + full.subrange(open + 11, full.len() - 1) + ")"@);
    }
}

/// A path below another takes one separator, and none behind a bare drive or where
/// one stands already.
pub proof fn a_bare_drive_takes_no_separator(drive: char, base: Seq<char>, sub: Seq<char>)
    requires
        'A' <= drive && drive <= 'Z' || 'a' <= drive && drive <= 'z',
    ensures
        windows_join(seq![drive, ':'], sub) == seq![drive, ':'] + sub,
        windows_join(base.push('\\'), sub) == base.push('\\') + sub,
        windows_join(base.push('/'), sub) == base.push('/') + sub,
        windows_join(Seq::empty(), sub) == Seq::<char>::empty() + sub,
        base.len() > 2 && base.last() != '\\' && base.last() != '/' ==> windows_join(base, sub) == base + seq!['\\']
            + sub,
        base.len() == 2 && base[1] != ':' && base[1] != '\\' && base[1] != '/' ==> windows_join(base, sub) == base
            + seq!['\\'] + sub,
{
}

/// The `uninstall` command.
pub open spec fn uninstall_command() -> CommandView {
    cli::top("uninstall"@, "Remove wally, its models and its config"@)
        .option(cli::flag("-y,--yes"@, "Skip the confirmation prompt"@))
        .action(Action::Uninstall)
}

/// Registers `uninstall`.
pub fn register_uninstall(app: &mut App)
    ensures
        final(app)@ == old(app)@.push(uninstall_command()),
{
    let mut cmd = Command::top("uninstall", "Remove wally, its models and its config");
    cmd.add_option(Opt::flag("-y,--yes", "Skip the confirmation prompt"));
    cmd.callback(Action::Uninstall);
    app.add(cmd);
}

} // verus!
