//! `wally update`: re-run the installer, telling it our version.
//!
//! The installer fetches the latest release; what it cannot know is what the
//! caller is running, so it is handed this build's version and decides.

use crate::cli;
use crate::cli::{Action, App, Command, CommandView, Opt};
use crate::output;
use crate::output::Printed;
use crate::pathname;
use crate::text;
use vstd::prelude::*;

verus! {

/// Whether a binary, symlinks resolved, came from `brew install`: it lies below
/// one of Homebrew's own prefixes or below the one that the environment names.
/// Whole path components count, so /opt/homebrew-old is not /opt/homebrew.
pub open spec fn homebrew_managed(exe: Seq<char>, prefix: Option<Seq<char>>) -> bool {
    exe.len() > 0 && ((prefix is Some && prefix->0.len() > 0 && pathname::starts_with(exe, prefix->0))
        || pathname::starts_with(exe, "/opt/homebrew"@) || pathname::starts_with(exe, "/usr/local/Cellar"@)
        || pathname::starts_with(exe, "/home/linuxbrew/.linuxbrew"@))
}

/// See [`homebrew_managed`]; `prefix` is `$HOMEBREW_PREFIX`.
pub fn is_homebrew_managed(exe: &str, prefix: Option<&str>) -> (r: bool)
    ensures
        r == homebrew_managed(
            exe@,
            match prefix {
                Some(p) => Some(p@),
                None => None,
            },
        ),
{
    if exe.is_empty() {
        return false;
    }
    if let Some(p) = prefix {
        if !p.is_empty() && pathname::starts_with_exec(exe, p) {
            return true;
        }
    }
    pathname::starts_with_exec(exe, "/opt/homebrew") || pathname::starts_with_exec(exe, "/usr/local/Cellar")
        || pathname::starts_with_exec(exe, "/home/linuxbrew/.linuxbrew")
}

/// What an update comes to.
#[derive(Debug)]
pub enum Update {
    /// Nothing to run; the exit code.
    Settled(i32),
    /// The command line to hand to a shell.
    Run(String),
}

/// The installer's command line.
pub open spec fn installer_command(nightly: bool, version: Seq<char>) -> Seq<char> {
    "curl -fsSL https://raw.githubusercontent.com/RunanywhereAI/wally/main/install.sh | sh -s --"@ + if nightly {
        " --nightly"@
    } else {
        ""@
    } + " --version="@ + version
}

/// `wally update`: on Windows it is not available, a binary of Homebrew's is
/// left to Homebrew, and else the installer runs.
pub fn run_update(nightly: bool, windows: bool, homebrew: bool, version: &str) -> (r: (Printed, Update))
    ensures
        windows ==> r.0@ == seq![
            output::error("wally update is not available on Windows; reinstall from the release page"@),
        ] && r.1 == Update::Settled(1),
        !windows && homebrew ==> r.0@ == seq![
            output::status("wally was installed with Homebrew; run `brew upgrade wally` to update."@),
        ] && r.1 == Update::Settled(0),
        !windows && !homebrew ==> r.0@ == seq![output::status("checking for a newer wally..."@)] && (r.1 matches Update::Run(
            command,
        ) && command@ == installer_command(nightly, version@)),
{
    let mut printed = Printed::new();
    if windows {
        printed.error(text::owned("wally update is not available on Windows; reinstall from the release page"));
        return (printed, Update::Settled(1));
    }
    if homebrew {
        printed.status(text::owned("wally was installed with Homebrew; run `brew upgrade wally` to update."));
        return (printed, Update::Settled(0));
    }
    let command = text::cat4(
        "curl -fsSL https://raw.githubusercontent.com/RunanywhereAI/wally/main/install.sh | sh -s --",
        if nightly {
            " --nightly"
        } else {
            ""
        },
        " --version=",
        version,
    );
    printed.status(text::owned("checking for a newer wally..."));
    (printed, Update::Run(command))
}

/// The exit code after the installer ran; a shell that did not start counts as
/// a failure.
pub fn update_exit_code(succeeded: Option<bool>) -> (r: i32)
    ensures
        r == if succeeded == Some(true) {
            0i32
        } else {
            1i32
        },
{
    match succeeded {
        Some(true) => 0,
        _ => 1,
    }
}

/// A program belongs to Homebrew where it lies in its directory, the one it names or
/// one of the usual ones, and nowhere else.
pub proof fn homebrew_owns_what_lies_in_it(exe: Seq<char>, prefix: Seq<char>)
    requires
        exe.len() > 0,
    ensures
        prefix.len() > 0 && pathname::starts_with(exe, prefix) ==> homebrew_managed(exe, Some(prefix)),
        pathname::starts_with(exe, "/opt/homebrew"@) ==> homebrew_managed(exe, None),
        pathname::starts_with(exe, "/usr/local/Cellar"@) ==> homebrew_managed(exe, None),
        pathname::starts_with(exe, "/home/linuxbrew/.linuxbrew"@) ==> homebrew_managed(exe, None),
        !pathname::starts_with(exe, prefix) && !pathname::starts_with(exe, "/opt/homebrew"@) && !pathname::starts_with(
            exe,
            "/usr/local/Cellar"@,
        ) && !pathname::starts_with(exe, "/home/linuxbrew/.linuxbrew"@) ==> !homebrew_managed(exe, Some(prefix)),
{
}

/// An update installs the version it was given, which the installer is told last;
/// the nightly one only where that was asked for.
pub proof fn an_update_installs_its_version(version: Seq<char>)
    ensures
        installer_command(false, version)
            == "curl -fsSL https://raw.githubusercontent.com/RunanywhereAI/wally/main/install.sh | sh -s --"@
            + " --version="@ + version,
        installer_command(true, version)
            == "curl -fsSL https://raw.githubusercontent.com/RunanywhereAI/wally/main/install.sh | sh -s --"@
            + " --nightly"@ + " --version="@ + version,
{
    reveal_strlit("");
    let curl = "curl -fsSL https://raw.githubusercontent.com/RunanywhereAI/wally/main/install.sh | sh -s --"@;
    assert(curl + ""@ =~= curl);
}

/// The `update` command.
pub open spec fn update_command() -> CommandView {
    cli::top("update"@, "Update wally to the latest release"@)
        .option(cli::flag("--nightly"@, "Track the development channel"@))
        .action(Action::Update)
}

/// Registers `update`.
pub fn register_update(app: &mut App)
    ensures
        final(app)@ == old(app)@.push(update_command()),
{
    let mut cmd = Command::top("update", "Update wally to the latest release");
    cmd.add_option(Opt::flag("--nightly", "Track the development channel"));
    cmd.callback(Action::Update);
    app.add(cmd);
}

} // verus!
