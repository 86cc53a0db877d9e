//! `wally serve [model]`: serves a model over an OpenAI-compatible API.

use crate::cli;
use crate::cli::{Action, App, Command, CommandView, Opt, ValueType};
use crate::output;
use crate::output::Printed;
use crate::text;
use vstd::prelude::*;

verus! {

/// The model that is served; see the default in the help.
pub fn served_model(reference: &str) -> (r: String)
    ensures
        r@ == text::first_given(reference@, "qwen3-0.6b"@),
{
    text::first_given_exec(reference, "qwen3-0.6b")
}

/// How the server is set up. What is not set is the server's own.
#[derive(Clone, Debug)]
pub struct ServerConfig {
    pub host: Option<String>,
    pub port: u16,
    pub model_path: Option<String>,
    pub model_id: Option<String>,
    pub context_size: i32,
    pub threads: i32,
    pub gpu_layers: i32,
    pub enable_cors: bool,
    pub cors_origins: Option<String>,
    pub request_timeout_seconds: i32,
    pub max_concurrent_requests: i32,
    pub verbose: bool,
}

/// The server's own defaults.
pub fn default_server_config() -> (r: ServerConfig)
    ensures
        r.host is None && r.model_path is None && r.model_id is None && r.cors_origins is None,
        r.port == 8080,
        r.context_size == 8192,
        r.threads == 4,
        r.gpu_layers == i32::MIN,
        r.enable_cors,
        r.request_timeout_seconds == 300,
        r.max_concurrent_requests == 4,
        !r.verbose,
{
    ServerConfig {
        host: None,
        port: 8080,
        model_path: None,
        model_id: None,
        context_size: 8192,
        threads: 4,
        gpu_layers: i32::MIN,
        enable_cors: true,
        cors_origins: None,
        request_timeout_seconds: 300,
        max_concurrent_requests: 4,
        verbose: false,
    }
}

/// What the command line asks for.
#[derive(Clone, Debug, Default)]
pub struct ServeArgs {
    pub host: String,
    pub port: u16,
    pub context_size: i32,
    pub threads: i32,
    pub gpu_layers: i32,
    pub cors: bool,
    pub verbose: bool,
}

/// The setup of the server, or what cannot be handed over to it, with the exit
/// code: a bad host is a usage error.
pub fn server_config(args: &ServeArgs, model_path: &str, model_id: &str) -> (r: Result<ServerConfig, (String, i32)>)
    ensures
        match r {
            Ok(c) => text::has_no_nul(args.host@) && text::has_no_nul(model_path@) && text::has_no_nul(model_id@)
                && c.host is Some && c.host->0@ == args.host@ && c.port == args.port && c.model_path is Some
                && c.model_path->0@ == model_path@ && c.model_id is Some && c.model_id->0@ == model_id@ && c.context_size
                == args.context_size && c.threads == args.threads && c.gpu_layers == args.gpu_layers && c.enable_cors
                == args.cors && c.cors_origins is None && c.request_timeout_seconds == 300 && c.max_concurrent_requests
                == 4 && c.verbose == args.verbose,
            Err(e) => if !text::has_no_nul(args.host@) {
                e.0@ == "--host contains an embedded NUL byte"@ && e.1 == 2
            } else if !text::has_no_nul(model_path@) {
                e.0@ == "resolved model path contains an embedded NUL byte"@ && e.1 == 1
            } else {
                !text::has_no_nul(model_id@) && e.0@ == "model id contains an embedded NUL byte"@ && e.1 == 1
            },
        },
{
    if !text::has_no_nul_exec(args.host.as_str()) {
        return Err((text::owned("--host contains an embedded NUL byte"), 2));
    }
    if !text::has_no_nul_exec(model_path) {
        return Err((text::owned("resolved model path contains an embedded NUL byte"), 1));
    }
    if !text::has_no_nul_exec(model_id) {
        return Err((text::owned("model id contains an embedded NUL byte"), 1));
    }
    let mut config = default_server_config();
    config.host = Some(text::owned(args.host.as_str()));
    config.port = args.port;
    config.model_path = Some(text::owned(model_path));
    config.model_id = Some(text::owned(model_id));
    config.context_size = args.context_size;
    config.threads = args.threads;
    config.gpu_layers = args.gpu_layers;
    config.enable_cors = args.cors;
    config.verbose = args.verbose;
    Ok(config)
}

/// What `serve` does next.
#[derive(Clone, Copy, Debug, PartialEq, Eq, Structural)]
pub enum ServeStage {
    /// Start the engine.
    Start,
    /// Make the model ready; see [`served_model`].
    Resolve,
    /// Set the server up; see [`server_config`].
    Setup,
    /// Start the server.
    Launch,
    /// Say that it runs, and wait; see [`keeps_serving`].
    Serve,
    /// Stop the server.
    Stop,
    /// Wait until it is gone.
    Wait,
    /// Ask for its status, and show it; the code to exit with.
    Status(i32),
    /// It is over, with this exit code.
    Finished(i32),
}

/// The stage after one that worked or not. `code` is the exit code of a model
/// that cannot be made ready, of a setup that is refused, and of the server's
/// own end; a server that does not start exits with 1.
pub open spec fn serve_after(stage: ServeStage, ok: bool, code: i32) -> ServeStage {
    match stage {
        ServeStage::Start => if ok {
            ServeStage::Resolve
        } else {
            ServeStage::Finished(1)
        },
        ServeStage::Resolve => if ok {
            ServeStage::Setup
        } else {
            ServeStage::Finished(code)
        },
        ServeStage::Setup => if ok {
            ServeStage::Launch
        } else {
            ServeStage::Finished(code)
        },
        ServeStage::Launch => if ok {
            ServeStage::Serve
        } else {
            ServeStage::Finished(1)
        },
        ServeStage::Serve => ServeStage::Stop,
        ServeStage::Stop => ServeStage::Wait,
        ServeStage::Wait => ServeStage::Status(code),
        ServeStage::Status(c) => ServeStage::Finished(c),
        ServeStage::Finished(c) => ServeStage::Finished(c),
    }
}

/// See [`serve_after`].
pub fn run_serve(stage: ServeStage, ok: bool, code: i32) -> (r: ServeStage)
    ensures
        r == serve_after(stage, ok, code),
{
    match stage {
        ServeStage::Start => if ok {
            ServeStage::Resolve
        } else {
            ServeStage::Finished(1)
        },
        ServeStage::Resolve => if ok {
            ServeStage::Setup
        } else {
            ServeStage::Finished(code)
        },
        ServeStage::Setup => if ok {
            ServeStage::Launch
        } else {
            ServeStage::Finished(code)
        },
        ServeStage::Launch => if ok {
            ServeStage::Serve
        } else {
            ServeStage::Finished(1)
        },
        ServeStage::Serve => ServeStage::Stop,
        ServeStage::Stop => ServeStage::Wait,
        ServeStage::Wait => ServeStage::Status(code),
        ServeStage::Status(c) => ServeStage::Finished(c),
        ServeStage::Finished(c) => ServeStage::Finished(c),
    }
}

/// Whether the server runs at a stage.
pub open spec fn server_is_up(stage: ServeStage) -> bool {
    stage is Serve || stage is Stop
}

/// A server that was started is stopped before the command ends, and then waited
/// for; the command returns the code of that wait.
pub proof fn a_started_server_is_stopped(stage: ServeStage, ok: bool, code: i32)
    ensures
        server_is_up(serve_after(stage, ok, code)) ==> server_is_up(stage) || stage is Launch && ok,
        server_is_up(stage) ==> !(serve_after(stage, ok, code) is Finished),
        stage is Stop ==> serve_after(stage, ok, code) is Wait,
        stage is Wait ==> serve_after(serve_after(stage, ok, code), ok, code) == ServeStage::Finished(code),
        stage is Launch && !ok ==> serve_after(stage, ok, code) == ServeStage::Finished(1),
{
}

/// What is said of a server that did not start: any code below zero is a
/// failure.
pub fn start_problem(rc: i32, described: &str) -> (r: Option<String>)
    ensures
        r is Some <==> rc < 0,
        r is Some ==> r->0@ == "server start failed: "@ + described@,
{
    if rc < 0 {
        Some(text::cat2("server start failed: ", described))
    } else {
        None
    }
}

/// What is said of a server that runs.
pub fn serving_lines(model_id: &str, host: &str, port: u16) -> (r: Printed)
    ensures
        r@ == seq![
            output::status("serving "@ + model_id@ + " (LLM-only, single model)"@),
            output::status("OpenAI API: http://"@ + host@ + ":"@ + text::dec(port as int) + "/v1/chat/completions"@),
            output::status("health:     http://"@ + host@ + ":"@ + text::dec(port as int) + "/health"@),
            output::status("Ctrl-C to stop"@),
        ],
{
    let mut printed = Printed::new();
    let number = text::dec_i64(port as i64);
    printed.status(text::cat3("serving ", model_id, " (LLM-only, single model)"));
    printed.status(text::cat5("OpenAI API: http://", host, ":", number.as_str(), "/v1/chat/completions"));
    printed.status(text::cat5("health:     http://", host, ":", number.as_str(), "/health"));
    printed.status(text::owned("Ctrl-C to stop"));
    printed
}

/// Whether the server is waited for: until it is told to stop, or stops.
pub fn keeps_serving(stop_asked: bool, running: bool) -> (r: bool)
    ensures
        r == (!stop_asked && running),
{
    !stop_asked && running
}

/// What a server has done.
#[derive(Clone, Copy, Debug, PartialEq, Eq, Structural)]
pub struct ServerStatus {
    pub total_requests: u64,
    pub total_tokens_generated: u64,
    pub uptime_seconds: u64,
}

/// What is said at the end of a verbose run, where the server told its status.
pub fn served_lines(status: &Option<ServerStatus>, verbose: bool) -> (r: Printed)
    ensures
        r@ == match *status {
            Some(s) => if verbose {
                seq![
                    output::status(
                        "requests: "@ + text::dec(s.total_requests as int) + ", tokens: "@ + text::dec(
                            s.total_tokens_generated as int,
                        ) + ", uptime: "@ + text::dec(s.uptime_seconds as int) + "s"@,
                    ),
                ]
            } else {
                Seq::empty()
            },
            None => Seq::empty(),
        },
{
    let mut printed = Printed::new();
    if let Some(s) = status {
        if verbose {
            let head = text::cat4(
                "requests: ",
                text::dec_u128(s.total_requests as u128).as_str(),
                ", tokens: ",
                text::dec_u128(s.total_tokens_generated as u128).as_str(),
            );
            printed.status(
                text::cat4(head.as_str(), ", uptime: ", text::dec_u128(s.uptime_seconds as u128).as_str(), "s"),
            );
        }
    }
    printed
}

/// What [`Action::ServeUnavailable`] comes to, the action of `serve` in a build
/// without the server: the error line, and the exit code.
pub fn no_server() -> (r: (String, i32))
    ensures
        r.0@ == "this wally build does not include the server (RAC_BUILD_SERVER=OFF)"@,
        r.1 == 1,
{
    (text::owned("this wally build does not include the server (RAC_BUILD_SERVER=OFF)"), 1)
}

/// A server is launched once the model is there and its settings are good, serves
/// until it is stopped, and ends with the code that waiting for it gave.
pub proof fn a_server_takes_its_steps(ok: bool, code: i32)
    ensures
        serve_after(ServeStage::Start, true, code) == ServeStage::Resolve,
        serve_after(ServeStage::Resolve, true, code) == ServeStage::Setup,
        serve_after(ServeStage::Setup, true, code) == ServeStage::Launch,
        serve_after(ServeStage::Launch, true, code) == ServeStage::Serve,
        serve_after(ServeStage::Serve, ok, code) == ServeStage::Stop,
        serve_after(ServeStage::Stop, ok, code) == ServeStage::Wait,
        serve_after(serve_after(ServeStage::Wait, ok, code), ok, 0) == ServeStage::Finished(code),
        serve_after(ServeStage::Start, false, code) == ServeStage::Finished(1),
        serve_after(ServeStage::Resolve, false, code) == ServeStage::Finished(code),
        serve_after(ServeStage::Setup, false, code) == ServeStage::Finished(code),
        serve_after(ServeStage::Launch, false, code) == ServeStage::Finished(1),
{
}

/// A server is set up as it was asked to be: at that address, with that model.
pub proof fn a_server_is_set_up_as_asked(
    args: ServeArgs,
    model_path: &str,
    model_id: &str,
    r: Result<ServerConfig, (String, i32)>,
)
    requires
        call_ensures(server_config, (&args, model_path, model_id), r),
    ensures
        r is Ok <==> text::has_no_nul(args.host@) && text::has_no_nul(model_path@) && text::has_no_nul(model_id@),
        r is Ok ==> {
            let c = r->Ok_0;
            &&& c.host is Some && c.host->0@ == args.host@
            &&& c.port == args.port
            &&& c.model_path is Some && c.model_path->0@ == model_path@
            &&& c.model_id is Some && c.model_id->0@ == model_id@
            &&& c.context_size == args.context_size
            &&& c.threads == args.threads
            &&& c.gpu_layers == args.gpu_layers
            &&& c.enable_cors == args.cors
            &&& c.verbose == args.verbose
        },
{
}

/// The `serve` command: without a server built in it only says so.
pub open spec fn serve_command(has_server: bool) -> CommandView {
    let bare = cli::top("serve"@, "Serve a model over an OpenAI-compatible API"@);
    if has_server {
        bare
            .example("wally serve qwen3-0.6b"@, ""@)
            .example("wally serve granite-4.2-8b --port 8000"@, ""@)
            .option(cli::opt("model"@, ValueType::Text, "Model to serve (default qwen3-0.6b)"@))
            .option(
                cli::opt(
                    "--host,-H"@,
                    ValueType::Text,
                    "Address to bind (default 127.0.0.1)"@,
                ).default_val("127.0.0.1"@),
            )
            .option(
                cli::opt(
                    "--port,-p"@,
                    ValueType::UInt,
                    "Port to listen on (default 8080)"@,
                ).int_bounds(0, 65535).default_val("8080"@),
            )
            .option(
                cli::opt(
                    "--context-length,--context,-c"@,
                    ValueType::Int,
                    "Context window in tokens (default 8192)"@,
                ).default_val("8192"@),
            )
            .option(
                cli::opt("--threads,-t"@, ValueType::Int, "Inference threads (default 4)"@).default_val("4"@),
            )
            .option(
                cli::opt(
                    "--gpu-layers,--ngl"@,
                    ValueType::Int,
                    "Layers to offload to the GPU"@,
                ).default_val("0"@),
            )
            .option(cli::flag("--cors"@, "Allow cross-origin browser requests (off by default)"@))
            .action(Action::Serve)
    } else {
        bare.action(Action::ServeUnavailable)
    }
}

/// Registers `serve`.
pub fn register_serve(app: &mut App, has_server: bool)
    ensures
        final(app)@ == old(app)@.push(serve_command(has_server)),
{
    let mut cmd = Command::top("serve", "Serve a model over an OpenAI-compatible API");
    if has_server {
        cmd.example("wally serve qwen3-0.6b", "");
        cmd.example("wally serve granite-4.2-8b --port 8000", "");
        cmd.add_option(Opt::value("model", ValueType::Text, "Model to serve (default qwen3-0.6b)"));
        cmd.add_option(
            Opt::value(
                "--host,-H",
                ValueType::Text,
                "Address to bind (default 127.0.0.1)",
            ).default_val("127.0.0.1"),
        );
        cmd.add_option(
            Opt::value(
                "--port,-p",
                ValueType::UInt,
                "Port to listen on (default 8080)",
            ).int_bounds(0, 65535).default_val("8080"),
        );
        cmd.add_option(
            Opt::value(
                "--context-length,--context,-c",
                ValueType::Int,
                "Context window in tokens (default 8192)",
            ).default_val("8192"),
        );
        cmd.add_option(
            Opt::value("--threads,-t", ValueType::Int, "Inference threads (default 4)").default_val("4"),
        );
        cmd.add_option(
            Opt::value("--gpu-layers,--ngl", ValueType::Int, "Layers to offload to the GPU").default_val("0"),
        );
        cmd.add_option(Opt::flag("--cors", "Allow cross-origin browser requests (off by default)"));
        cmd.callback(Action::Serve);
    } else {
        cmd.callback(Action::ServeUnavailable);
    }
    app.add(cmd);
}

} // verus!
