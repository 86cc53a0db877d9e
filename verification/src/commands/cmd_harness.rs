//! `wally opencode` and the other agents: hands the terminal to a coding tool
//! that speaks the OpenAI API, with a model of the reader's choosing.

use crate::cli;
use crate::cli::{Action, App, Command, CommandView, Opt, ValueType};
use crate::text;
use vstd::prelude::*;

verus! {

/// What launching opencode comes to.
pub enum OpencodeRoute {
    /// The tool is missing; the exit code.
    Missing(i32),
    /// A hosted model is asked for and none is named: the error line, and the
    /// exit code.
    Refuse(String, i32),
    /// Launch it against the account's hosted endpoint.
    LaunchHosted,
    /// Launch it.
    Launch,
}

/// What launching opencode comes to: a missing tool is all that is reported, and
/// `--cloud` needs a model, named or by default.
pub fn opencode_route(installed: bool, cloud: bool, effective_model: &str) -> (r: OpencodeRoute)
    ensures
        match r {
            OpencodeRoute::Missing(code) => !installed && code == 127,
            OpencodeRoute::Refuse(line, code) => installed && cloud && effective_model@.len() == 0 && code == 2 && line@
                == "--cloud requires --model <console-model-id>, and no default is set (wally models default <id>)"@,
            OpencodeRoute::LaunchHosted => installed && cloud && effective_model@.len() > 0,
            OpencodeRoute::Launch => installed && !cloud,
        },
{
    if !installed {
        return OpencodeRoute::Missing(127);
    }
    if cloud {
        if effective_model.is_empty() {
            return OpencodeRoute::Refuse(
                text::owned(
                    "--cloud requires --model <console-model-id>, and no default is set (wally models default <id>)",
                ),
                2,
            );
        }
        return OpencodeRoute::LaunchHosted;
    }
    OpencodeRoute::Launch
}

/// The exit code of an agent that is missing; one that is there is launched.
pub fn agent_missing(installed: bool) -> (r: Option<i32>)
    ensures
        r == if installed {
            None
        } else {
            Some(127i32)
        },
{
    if installed {
        None
    } else {
        Some(127)
    }
}

/// The `opencode` command.
pub open spec fn opencode_command() -> CommandView {
    cli::top("opencode"@, "Open opencode with a model"@)
        .example("wally opencode -m qwen3-0.6b"@, "A model on this machine"@)
        .example("wally opencode --cloud -m glm-5.3-flash"@, "A hosted model (needs `wally account login`)"@)
        .option(
            cli::opt(
                "-m,--model"@,
                ValueType::Text,
                "A model on this machine, or a hosted one from your account"@,
            ),
        )
        .option(cli::flag("--cloud"@, "Use your account's hosted endpoint (never a local model)"@))
        .option(cli::opt("args"@, ValueType::Text, "Passed through to opencode"@).multi())
        .prefix_command()
        .action(Action::Opencode)
}

/// The command of the agent at place `i` of the table.
pub open spec fn agent_command(i: int, id: Seq<char>, summary: Seq<char>) -> CommandView {
    cli::top(id, summary)
        .example("wally "@ + id + " -m qwen3-0.6b"@, "A model on this machine"@)
        .example("wally "@ + id + " -m glm-5.3-flash"@, "A hosted model (needs `wally account login`)"@)
        .option(
            cli::opt(
                "-m,--model"@,
                ValueType::Text,
                "A model on this machine, or a hosted one from your account"@,
            ),
        )
        .option(cli::opt("args"@, ValueType::Text, "Passed through to the tool"@).multi())
        .prefix_command()
        .action(Action::Agent(i as usize))
}

fn register_agent(app: &mut App, i: usize, id: &str, summary: &str)
    ensures
        final(app)@ == old(app)@.push(agent_command(i as int, id@, summary@)),
{
    let mut cmd = Command::top(id, summary);
    cmd.example(text::cat3("wally ", id, " -m qwen3-0.6b").as_str(), "A model on this machine");
    cmd.example(text::cat3("wally ", id, " -m glm-5.3-flash").as_str(), "A hosted model (needs `wally account login`)");
    cmd.add_option(
        Opt::value("-m,--model", ValueType::Text, "A model on this machine, or a hosted one from your account"),
    );
    cmd.add_option(Opt::value("args", ValueType::Text, "Passed through to the tool").multi());
    cmd.prefix_command();
    cmd.callback(Action::Agent(i));
    app.add(cmd);
}

/// The commands of the first `n` agents, each with what the reader types and
/// what its help says.
pub open spec fn agent_commands(agents: Seq<(&'static str, &'static str)>, n: int) -> Seq<CommandView> {
    Seq::new(n as nat, |i: int| agent_command(i, agents[i].0@, agents[i].1@))
}

/// Registers `opencode`, and a command for each agent of the table.
pub fn register_harness(app: &mut App, agents: &Vec<(&'static str, &'static str)>)
    ensures
        final(app)@ == old(app)@.push(opencode_command()).extend(agent_commands(agents@, agents@.len() as int)),
{
    let ghost before = app@;
    let mut cmd = Command::top("opencode", "Open opencode with a model");
    cmd.example("wally opencode -m qwen3-0.6b", "A model on this machine");
    cmd.example("wally opencode --cloud -m glm-5.3-flash", "A hosted model (needs `wally account login`)");
    cmd.add_option(
        Opt::value("-m,--model", ValueType::Text, "A model on this machine, or a hosted one from your account"),
    );
    cmd.add_option(Opt::flag("--cloud", "Use your account's hosted endpoint (never a local model)"));
    cmd.add_option(Opt::value("args", ValueType::Text, "Passed through to opencode").multi());
    cmd.prefix_command();
    cmd.callback(Action::Opencode);
    app.add(cmd);
    let mut i: usize = 0;
    assert(app@ =~= before.push(opencode_command()).extend(agent_commands(agents@, 0)));
    while i < agents.len()
        invariant
            i <= agents@.len(),
            app@ == before.push(opencode_command()).extend(agent_commands(agents@, i as int)),
        decreases agents@.len() - i,
    {
        let (id, summary) = agents[i];
        register_agent(app, i, id, summary);
        i = i + 1;
        assert(app@ =~= before.push(opencode_command()).extend(agent_commands(agents@, i as int)));
    }
}

/// A tool that is not there is not launched, and a hosted model is only used by
/// name.
pub proof fn a_hosted_model_is_named(installed: bool, cloud: bool, model: &str, r: OpencodeRoute)
    requires
        call_ensures(opencode_route, (installed, cloud, model), r),
    ensures
        !installed ==> r == OpencodeRoute::Missing(127),
        installed && !cloud ==> r is Launch,
        installed && cloud && model@.len() > 0 ==> r is LaunchHosted,
        installed && cloud && model@.len() == 0 ==> r is Refuse && r->Refuse_1 == 2,
{
}

} // verus!
