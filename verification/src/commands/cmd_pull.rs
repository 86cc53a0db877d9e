//! `wally models pull`: plan, start, follow the progress, report.
//!
//! The engine does the downloading. What is decided here: when there is nothing
//! to fetch, what each answer of the engine means, when a wait ends and when a
//! cancel is sent, and what is printed and returned. Exit codes: 0 done, 1
//! failure, 130 cancelled.

use crate::cli;
use crate::cli::{Action, Command, CommandView, Opt, ValueType};
use crate::commands::engine_options;
use crate::commands::engine_options::Kit;
use crate::engine;
use crate::engine::{ModelInfo, ModelRegistryStatus};
use crate::output;
use crate::output::JsonWriter;
use crate::text;
use vstd::prelude::*;

verus! {

/// How far a download is; every state that is not final is in progress.
#[derive(Clone, Copy, Debug, PartialEq, Eq, Structural)]
pub enum DownloadState {
    InProgress,
    Completed,
    Failed,
    Cancelled,
}

/// Whether nothing more will be heard of a download.
pub open spec fn is_final(state: DownloadState) -> bool {
    state != DownloadState::InProgress
}

/// One progress report of the engine.
#[derive(Clone, Debug)]
pub struct DownloadProgress {
    pub model_id: String,
    pub state: DownloadState,
    pub bytes_downloaded: i64,
    pub error: Option<String>,
}

/// What has been heard of the one download in flight.
#[derive(Debug)]
pub struct PullInner {
    pub last: DownloadProgress,
    pub terminal: bool,
    pub got_progress: bool,
    /// Only reports on this model count; empty counts them all.
    pub model_id: String,
}

impl PullInner {
    /// Whether a report is about the download being followed.
    pub open spec fn concerns(self, progress: DownloadProgress) -> bool {
        self.model_id@.len() == 0 || progress.model_id@ == self.model_id@
    }

    /// Takes in a report: the last one about this model stands, and a final
    /// state is never forgotten. Returns whether the report counted.
    pub fn on_progress(&mut self, progress: DownloadProgress) -> (counted: bool)
        ensures
            counted == old(self).concerns(progress),
            !counted ==> *final(self) == *old(self),
            counted ==> final(self).last == progress && final(self).got_progress && final(self).terminal == (old(
                self,
            ).terminal || is_final(progress.state)) && final(self).model_id == old(self).model_id,
    {
        if !self.model_id.as_str().is_empty() && !text::str_eq(progress.model_id.as_str(), self.model_id.as_str()) {
            return false;
        }
        if progress.state != DownloadState::InProgress {
            self.terminal = true;
        }
        self.last = progress;
        self.got_progress = true;
        true
    }
}

/// The start of a download: a failing result code always wins with its generic
/// description; the envelope's own error only shows when the code is fine.
pub fn download_start_result<T>(rc: i32, described: String, parsed: Result<T, String>) -> (r: Result<T, String>)
    ensures
        rc != engine::SUCCESS ==> r == Err::<T, String>(described),
        rc == engine::SUCCESS ==> r == parsed,
{
    if rc != engine::SUCCESS {
        Err(described)
    } else {
        parsed
    }
}

/// The "already downloaded" shortcut is only safe right after a rescan that
/// worked: a failed one cannot rule out files deleted since the registry was
/// last written.
pub fn should_report_already_downloaded(refresh_ok: bool, status: Option<ModelRegistryStatus>) -> (r: bool)
    ensures
        r == (refresh_ok && status == Some(ModelRegistryStatus::Downloaded)),
{
    match status {
        Some(s) => refresh_ok && s == ModelRegistryStatus::Downloaded,
        None => false,
    }
}

/// Where a pull stands.
#[derive(Clone, Copy, Debug, PartialEq, Eq, Structural)]
pub enum PullStage {
    Rescan,
    Lookup,
    /// The model is there already.
    Present,
    Plan,
    Start,
    Wait,
    Settle,
    Report,
    Ended,
}

/// A pull between two events: `wired` while the progress callback is
/// registered, `cancel_sent` once a cancel went out.
#[derive(Clone, Copy, Debug, PartialEq, Eq, Structural)]
pub struct Pull {
    pub stage: PullStage,
    pub refresh_ok: bool,
    pub wired: bool,
    pub cancel_sent: bool,
}

/// What came back from the engine.
#[derive(Clone, Copy, Debug, PartialEq, Eq, Structural)]
pub enum PullEvent {
    Rescanned { ok: bool },
    LookedUp { found: bool, status: Option<ModelRegistryStatus> },
    Planned { ok: bool, can_start: bool },
    Started { ok: bool, accepted: bool },
    /// The wait timed out or a report came in.
    Woke { terminal: bool, got_progress: bool, interrupted: bool },
    /// The state of the last report.
    Settled { state: DownloadState },
    Reported,
}

/// What to do next.
#[derive(Clone, Copy, Debug, PartialEq, Eq, Structural)]
pub enum PullAction {
    LookUp,
    /// Say that the model is there already.
    ReportPresent,
    MakePlan,
    /// Register the progress callback, then start.
    WireAndStart,
    /// Draw the progress, send a cancel, and wait on or, when `done`, draw the
    /// last report, unregister the callback and judge it.
    Tick { draw: bool, cancel: bool, done: bool, draw_last: bool },
    LookUpSaved,
    /// Unregister the callback if asked, say why, and return the code.
    Exit { code: i32, unwire: bool },
    /// The event does not belong to the stage.
    Ignore,
}

/// The start of a pull.
pub open spec fn fresh_pull() -> Pull {
    Pull { stage: PullStage::Rescan, refresh_ok: false, wired: false, cancel_sent: false }
}

pub open spec fn at(p: Pull, stage: PullStage) -> Pull {
    Pull { stage, ..p }
}

/// The exit code of a settled download.
pub open spec fn settled_code(state: DownloadState) -> i32 {
    match state {
        DownloadState::Completed => 0,
        DownloadState::Cancelled => 130,
        _ => 1,
    }
}

/// One step of a pull.
pub open spec fn pull_step(p: Pull, event: PullEvent) -> (Pull, PullAction) {
    match (p.stage, event) {
        (PullStage::Rescan, PullEvent::Rescanned { ok }) => (
            Pull { stage: PullStage::Lookup, refresh_ok: ok, ..p },
            PullAction::LookUp,
        ),
        (PullStage::Lookup, PullEvent::LookedUp { found, status }) => if !found {
            (at(p, PullStage::Ended), PullAction::Exit { code: 1, unwire: false })
        } else if p.refresh_ok && status == Some(ModelRegistryStatus::Downloaded) {
            (at(p, PullStage::Present), PullAction::ReportPresent)
        } else {
            (at(p, PullStage::Plan), PullAction::MakePlan)
        },
        (PullStage::Plan, PullEvent::Planned { ok, can_start }) => if ok && can_start {
            (Pull { stage: PullStage::Start, wired: true, ..p }, PullAction::WireAndStart)
        } else {
            (at(p, PullStage::Ended), PullAction::Exit { code: 1, unwire: false })
        },
        (PullStage::Start, PullEvent::Started { ok, accepted }) => if ok && accepted {
            (
                at(p, PullStage::Wait),
                PullAction::Tick { draw: false, cancel: false, done: false, draw_last: false },
            )
        } else {
            (
                Pull { stage: PullStage::Ended, wired: false, ..p },
                PullAction::Exit { code: 1, unwire: p.wired },
            )
        },
        (PullStage::Wait, PullEvent::Woke { terminal, got_progress, interrupted }) => {
            let cancel = interrupted && !p.cancel_sent;
            let cancelled = p.cancel_sent || cancel;
            (
                Pull {
                    stage: if terminal {
                        PullStage::Settle
                    } else {
                        PullStage::Wait
                    },
                    wired: p.wired && !terminal,
                    cancel_sent: cancelled,
                    ..p
                },
                PullAction::Tick {
                    draw: got_progress && !terminal,
                    cancel,
                    done: terminal,
                    draw_last: terminal && !cancelled,
                },
            )
        },
        (PullStage::Settle, PullEvent::Settled { state }) => if state == DownloadState::Completed {
            (at(p, PullStage::Report), PullAction::LookUpSaved)
        } else {
            (
                at(p, PullStage::Ended),
                PullAction::Exit { code: settled_code(state), unwire: false },
            )
        },
        (PullStage::Present, PullEvent::Reported) | (PullStage::Report, PullEvent::Reported) => (
            at(p, PullStage::Ended),
            PullAction::Exit { code: 0, unwire: false },
        ),
        _ => (p, PullAction::Ignore),
    }
}

/// Starts a pull.
pub fn begin_pull() -> (p: Pull)
    ensures
        p == fresh_pull(),
{
    Pull { stage: PullStage::Rescan, refresh_ok: false, wired: false, cancel_sent: false }
}

/// The shared pull flow for a registered model, one event at a time.
pub fn pull_model_flow(p: Pull, event: PullEvent) -> (r: (Pull, PullAction))
    ensures
        r == pull_step(p, event),
{
    let mut next = p;
    match (p.stage, event) {
        (PullStage::Rescan, PullEvent::Rescanned { ok }) => {
            next.stage = PullStage::Lookup;
            next.refresh_ok = ok;
            (next, PullAction::LookUp)
        },
        (PullStage::Lookup, PullEvent::LookedUp { found, status }) => {
            if !found {
                next.stage = PullStage::Ended;
                (next, PullAction::Exit { code: 1, unwire: false })
            } else if should_report_already_downloaded(p.refresh_ok, status) {
                next.stage = PullStage::Present;
                (next, PullAction::ReportPresent)
            } else {
                next.stage = PullStage::Plan;
                (next, PullAction::MakePlan)
            }
        },
        (PullStage::Plan, PullEvent::Planned { ok, can_start }) => {
            if ok && can_start {
                next.stage = PullStage::Start;
                next.wired = true;
                (next, PullAction::WireAndStart)
            } else {
                next.stage = PullStage::Ended;
                (next, PullAction::Exit { code: 1, unwire: false })
            }
        },
        (PullStage::Start, PullEvent::Started { ok, accepted }) => {
            if ok && accepted {
                next.stage = PullStage::Wait;
                (next, PullAction::Tick { draw: false, cancel: false, done: false, draw_last: false })
            } else {
                next.stage = PullStage::Ended;
                next.wired = false;
                (next, PullAction::Exit { code: 1, unwire: p.wired })
            }
        },
        (PullStage::Wait, PullEvent::Woke { terminal, got_progress, interrupted }) => {
            let cancel = interrupted && !p.cancel_sent;
            if cancel {
                next.cancel_sent = true;
            }
            if terminal {
                next.stage = PullStage::Settle;
                next.wired = false;
            }
            (
                next,
                PullAction::Tick {
                    draw: got_progress && !terminal,
                    cancel,
                    done: terminal,
                    draw_last: terminal && !next.cancel_sent,
                },
            )
        },
        (PullStage::Settle, PullEvent::Settled { state }) => {
            if state == DownloadState::Completed {
                next.stage = PullStage::Report;
                (next, PullAction::LookUpSaved)
            } else {
                next.stage = PullStage::Ended;
                let code: i32 = if state == DownloadState::Cancelled { 130 } else { 1 };
                (next, PullAction::Exit { code, unwire: false })
            }
        },
        (PullStage::Present, PullEvent::Reported) | (PullStage::Report, PullEvent::Reported) => {
            next.stage = PullStage::Ended;
            (next, PullAction::Exit { code: 0, unwire: false })
        },
        _ => (next, PullAction::Ignore),
    }
}

/// The stages reached by a pull that started fresh keep this: the progress
/// callback is registered exactly from the start of the download to its end.
pub open spec fn pull_ok(p: Pull) -> bool {
    p.wired == (p.stage == PullStage::Start || p.stage == PullStage::Wait)
}

/// A run of a pull: the state after `events`, from a fresh start.
pub open spec fn after_events(events: Seq<PullEvent>) -> Pull
    decreases events.len(),
{
    if events.len() == 0 {
        fresh_pull()
    } else {
        pull_step(after_events(events.drop_last()), events.last()).0
    }
}

/// No pull ends with the progress callback still registered, whatever the
/// engine answered.
pub proof fn an_ended_pull_is_unwired(events: Seq<PullEvent>)
    ensures
        pull_ok(after_events(events)),
        after_events(events).stage == PullStage::Ended ==> !after_events(events).wired,
    decreases events.len(),
{
    if events.len() > 0 {
        an_ended_pull_is_unwired(events.drop_last());
    }
}

/// A failed rescan never reports a model as already downloaded: the files a
/// broken rescan could not see may be gone.
pub proof fn a_failed_rescan_always_plans(p: Pull, status: Option<ModelRegistryStatus>)
    requires
        p.stage == PullStage::Lookup,
        !p.refresh_ok,
    ensures
        pull_step(p, PullEvent::LookedUp { found: true, status }).1 == PullAction::MakePlan,
{
}

/// How many of the steps of a run sent a cancel.
pub open spec fn cancels(events: Seq<PullEvent>) -> int
    decreases events.len(),
{
    if events.len() == 0 {
        0
    } else {
        let step = pull_step(after_events(events.drop_last()), events.last());
        cancels(events.drop_last()) + (match step.1 {
            PullAction::Tick { cancel, .. } => if cancel {
                1int
            } else {
                0int
            },
            _ => 0int,
        })
    }
}

/// However often it is interrupted, a pull cancels at most once.
pub proof fn a_pull_cancels_at_most_once(events: Seq<PullEvent>)
    ensures
        cancels(events) == if after_events(events).cancel_sent {
            1int
        } else {
            0int
        },
    decreases events.len(),
{
    if events.len() > 0 {
        a_pull_cancels_at_most_once(events.drop_last());
    }
}

/// The exit codes that the steps of a run returned, in order.
pub open spec fn exits(events: Seq<PullEvent>) -> Seq<i32>
    decreases events.len(),
{
    if events.len() == 0 {
        Seq::empty()
    } else {
        match pull_step(after_events(events.drop_last()), events.last()).1 {
            PullAction::Exit { code, .. } => exits(events.drop_last()).push(code),
            _ => exits(events.drop_last()),
        }
    }
}

/// What the engine answered in the course of a pull.
pub struct PullStory {
    /// The rescan worked.
    pub rescanned: bool,
    /// The registry has an entry of the model.
    pub found: bool,
    /// The entry says that the model is downloaded.
    pub downloaded: bool,
    /// A plan was asked for.
    pub planned: bool,
    /// A download was asked for.
    pub started: bool,
    /// The last state of the download, once it is over.
    pub settled: Option<DownloadState>,
}

/// A story with one more answer.
pub open spec fn told(s: PullStory, event: PullEvent) -> PullStory {
    match event {
        PullEvent::Rescanned { ok } => PullStory { rescanned: ok, ..s },
        PullEvent::LookedUp { found, status } => PullStory {
            found,
            downloaded: status == Some(ModelRegistryStatus::Downloaded),
            ..s
        },
        PullEvent::Planned { .. } => PullStory { planned: true, ..s },
        PullEvent::Started { .. } => PullStory { started: true, ..s },
        PullEvent::Settled { state } => PullStory { settled: Some(state), ..s },
        _ => s,
    }
}

/// What the engine answered in a run; an answer that nobody waited for does not
/// count.
pub open spec fn story(events: Seq<PullEvent>) -> PullStory
    decreases events.len(),
{
    if events.len() == 0 {
        PullStory {
            rescanned: false,
            found: false,
            downloaded: false,
            planned: false,
            started: false,
            settled: None,
        }
    } else {
        let before = story(events.drop_last());
        if pull_step(after_events(events.drop_last()), events.last()).1 == PullAction::Ignore {
            before
        } else {
            told(before, events.last())
        }
    }
}

/// Whether a pull succeeded: the model was there already and nothing was planned
/// or started, or its download completed.
pub open spec fn succeeded(s: PullStory) -> bool {
    s.found && (s.rescanned && s.downloaded && !s.planned && !s.started || s.settled == Some(
        DownloadState::Completed,
    ))
}

/// The exit code of a pull of that story.
pub open spec fn pull_code(s: PullStory) -> i32 {
    if succeeded(s) {
        0
    } else if s.settled == Some(DownloadState::Cancelled) {
        130
    } else {
        1
    }
}

/// What the story of a run is at each stage.
spec fn story_fits(p: Pull, s: PullStory) -> bool {
    let underway = p.stage == PullStage::Start || p.stage == PullStage::Wait || p.stage == PullStage::Settle;
    &&& p.stage != PullStage::Rescan ==> s.rescanned == p.refresh_ok
    &&& p.stage == PullStage::Rescan || p.stage == PullStage::Lookup ==> !s.found && !s.planned && !s.started
        && s.settled is None
    &&& p.stage == PullStage::Present ==> succeeded(s) && s.settled is None
    &&& p.stage == PullStage::Plan ==> s.found && !(s.rescanned && s.downloaded) && !s.planned && !s.started
        && s.settled is None
    &&& underway ==> s.found && s.planned && s.settled is None
    &&& p.stage == PullStage::Report ==> s.found && s.settled == Some(DownloadState::Completed)
    &&& s.settled is Some ==> s.planned
}

/// A run that has ended has returned one exit code and no other run has returned
/// any. The code is 0 if and only if the registry has the model and either the
/// rescan worked and the entry says that it is downloaded, with nothing planned
/// or started, or the download completed. It is 130 if and only if the download
/// was cancelled, and 1 in every other case.
pub proof fn exit_codes_tell_how_it_ended(events: Seq<PullEvent>)
    ensures
        exits(events) == if after_events(events).stage == PullStage::Ended {
            seq![pull_code(story(events))]
        } else {
            Seq::empty()
        },
        after_events(events).stage == PullStage::Ended ==> {
            let code = exits(events)[0];
            &&& code == 0 <==> succeeded(story(events))
            &&& code == 130 <==> story(events).settled == Some(DownloadState::Cancelled)
            &&& code == 0 || code == 1 || code == 130
        },
{
    the_story_fits(events);
}

proof fn the_story_fits(events: Seq<PullEvent>)
    ensures
        story_fits(after_events(events), story(events)),
        exits(events) == if after_events(events).stage == PullStage::Ended {
            seq![pull_code(story(events))]
        } else {
            Seq::empty()
        },
    decreases events.len(),
{
    if events.len() > 0 {
        the_story_fits(events.drop_last());
        let p = after_events(events.drop_last());
        assert(p.stage == PullStage::Ended ==> pull_step(p, events.last()) == (p, PullAction::Ignore));
    }
}

/// What the engine is asked to cancel; the bytes that are there are kept, so
/// that another pull resumes.
pub struct DownloadCancelRequest {
    pub task_id: String,
    pub model_id: String,
    pub delete_partial_bytes: bool,
}

/// The cancel of a download that was started.
pub fn cancel_request(start: &DownloadStart, model_id: &str) -> (r: DownloadCancelRequest)
    ensures
        r.task_id@ == start.task_id@,
        r.model_id@ == model_id@,
        !r.delete_partial_bytes,
{
    DownloadCancelRequest {
        task_id: text::owned(start.task_id.as_str()),
        model_id: text::owned(model_id),
        delete_partial_bytes: false,
    }
}

/// What is said when a cancel goes out.
pub fn cancelling_line() -> (r: String)
    ensures
        r@ == "cancelling (partial bytes kept — re-pull resumes)..."@,
{
    text::owned("cancelling (partial bytes kept — re-pull resumes)...")
}

/// The note after a rescan that failed.
pub fn rescan_note(error: &str) -> (r: String)
    ensures
        r@ == "could not rescan local models ("@ + error@ + "); continuing from the registry as it stands"@,
{
    text::cat3("could not rescan local models (", error, "); continuing from the registry as it stands")
}

/// The saved entry of a model, or why there is none.
pub fn registry_entry(model_id: &str, rc: i32, parsed: Result<ModelInfo, String>) -> (r: Result<ModelInfo, String>)
    ensures
        match parsed {
            Ok(model) => if rc == engine::SUCCESS {
                r == parsed
            } else {
                r is Err && r->Err_0@ == "model not found in registry: "@ + model_id@
            },
            Err(error) => r is Err && r->Err_0@ == "model not found in registry: "@ + model_id@ + " ("@ + error@ + ")"@,
        },
{
    match parsed {
        Ok(model) => if rc == engine::SUCCESS {
            Ok(model)
        } else {
            Err(text::cat2("model not found in registry: ", model_id))
        },
        Err(error) => Err(
            text::cat5("model not found in registry: ", model_id, " (", error.as_str(), ")"),
        ),
    }
}

/// An arrow and the path, or nothing for a model without one.
pub open spec fn path_suffix(path: Seq<char>) -> Seq<char> {
    if path.len() == 0 {
        Seq::empty()
    } else {
        " → "@ + path
    }
}

fn path_suffix_exec(path: &str) -> (r: String)
    ensures
        r@ == path_suffix(path@),
{
    if path.is_empty() {
        String::new()
    } else {
        text::cat2(" → ", path)
    }
}

/// The writes for a model that is there already.
pub open spec fn present_document(model: ModelInfo) -> Seq<output::JsonOpView> {
    seq![
        output::begin_object(),
        output::field_str("id"@, model.id@),
        output::field_str("name"@, model.name@),
        output::field_str("local_path"@, model.local_path@),
        output::field_bool("already_downloaded"@, true),
        output::end_object(),
    ]
}

/// The document for a model with nothing to fetch.
pub fn present_json(model: &ModelInfo) -> (json: JsonWriter)
    ensures
        json@ == present_document(*model),
{
    let mut json = JsonWriter::new();
    json.begin_object();
    json.field_str("id", model.id.as_str());
    json.field_str("name", model.name.as_str());
    json.field_str("local_path", model.local_path.as_str());
    json.field_bool("already_downloaded", true);
    json.end_object();
    json
}

/// The line of a model that is there already.
pub open spec fn present_text(model: ModelInfo) -> Seq<char> {
    model.id@ + " is already downloaded"@ + path_suffix(model.local_path@)
}

/// The line for a model with nothing to fetch.
pub fn present_line(model: &ModelInfo) -> (r: String)
    ensures
        r@ == present_text(*model),
{
    let suffix = path_suffix_exec(model.local_path.as_str());
    text::cat3(model.id.as_str(), " is already downloaded", suffix.as_str())
}

/// The engine's plan for a download.
#[derive(Clone, Debug)]
pub struct DownloadPlan {
    pub can_start: bool,
    pub can_resume: bool,
    pub total_bytes: i64,
    pub error: Option<String>,
}

/// The message of an error report, or `otherwise` where there is none to show.
pub open spec fn message_or(error: Option<String>, otherwise: Seq<char>) -> Seq<char> {
    match error {
        Some(message) => if message@.len() > 0 {
            message@
        } else {
            otherwise
        },
        None => otherwise,
    }
}

/// Executable [`message_or`].
pub fn message_or_exec(error: &Option<String>, otherwise: &str) -> (r: String)
    ensures
        r@ == message_or(*error, otherwise@),
{
    match error {
        Some(message) => if message.as_str().is_empty() {
            text::owned(otherwise)
        } else {
            text::owned(message.as_str())
        },
        None => text::owned(otherwise),
    }
}

/// Why a plan does not lead to a download, if it does not.
pub open spec fn plan_refusal(model_id: Seq<char>, rc: i32, described: Seq<char>, parsed: Result<DownloadPlan, String>) -> Option<
    Seq<char>,
> {
    if rc != engine::SUCCESS {
        Some("download plan failed: "@ + described)
    } else {
        match parsed {
            Err(error) => Some("download plan failed: "@ + error@),
            Ok(plan) => if plan.can_start {
                None
            } else {
                Some("cannot pull "@ + model_id + ": "@ + message_or(plan.error, "plan rejected"@))
            },
        }
    }
}

/// See [`plan_refusal`].
pub fn plan_problem(model_id: &str, rc: i32, described: &str, parsed: &Result<DownloadPlan, String>) -> (r: Option<
    String,
>)
    ensures
        match plan_refusal(model_id@, rc, described@, *parsed) {
            Some(text) => r is Some && r->0@ == text,
            None => r is None,
        },
{
    if rc != engine::SUCCESS {
        return Some(text::cat2("download plan failed: ", described));
    }
    match parsed {
        Err(error) => Some(text::cat2("download plan failed: ", error.as_str())),
        Ok(plan) => if plan.can_start {
            None
        } else {
            let reason = message_or_exec(&plan.error, "plan rejected");
            Some(text::cat4("cannot pull ", model_id, ": ", reason.as_str()))
        },
    }
}

/// The note before a download that goes on where an earlier one stopped.
pub fn resume_note(plan: &DownloadPlan) -> (r: Option<String>)
    ensures
        match r {
            Some(note) => plan.total_bytes == 0 && plan.can_resume && note@ == "resuming partial download"@,
            None => !(plan.total_bytes == 0 && plan.can_resume),
        },
{
    if plan.total_bytes == 0 && plan.can_resume {
        Some(text::owned("resuming partial download"))
    } else {
        None
    }
}

/// A download to plan.
#[derive(Clone, Debug)]
pub struct DownloadPlanRequest {
    pub model_id: String,
    pub model: ModelInfo,
}

/// The plan that is asked for: of the resolved model, by its entry.
pub fn plan_request(model_id: &str, model: ModelInfo) -> (r: DownloadPlanRequest)
    ensures
        r.model_id@ == model_id@,
        r.model == model,
{
    DownloadPlanRequest { model_id: text::owned(model_id), model }
}

/// A download to start.
#[derive(Clone, Debug)]
pub struct DownloadStartRequest {
    pub model_id: String,
    pub plan: DownloadPlan,
    /// Whether the registry is left alone once the files are there.
    pub skip_registry_update: bool,
}

/// The start that is asked for: by the plan, with the registry brought up to
/// date at the end.
pub fn start_request(model_id: &str, plan: DownloadPlan) -> (r: DownloadStartRequest)
    ensures
        r.model_id@ == model_id@,
        r.plan == plan,
        !r.skip_registry_update,
{
    DownloadStartRequest { model_id: text::owned(model_id), plan, skip_registry_update: false }
}

/// The engine's answer to a start.
#[derive(Clone, Debug)]
pub struct DownloadStart {
    pub accepted: bool,
    pub task_id: String,
    pub error: Option<String>,
}

/// Why a download did not start, if it did not.
pub fn start_problem(started: &Result<DownloadStart, String>) -> (r: Option<String>)
    ensures
        match started {
            Err(message) => r is Some && r->0@ == "download start failed: "@ + message@,
            Ok(start) => if start.accepted {
                r is None
            } else {
                r is Some && r->0@ == "download rejected: "@ + message_or(start.error, Seq::empty())
            },
        },
{
    match started {
        Err(message) => Some(text::cat2("download start failed: ", message.as_str())),
        Ok(start) => if start.accepted {
            None
        } else {
            let none = String::new();
            let message = message_or_exec(&start.error, none.as_str());
            Some(text::cat2("download rejected: ", message.as_str()))
        },
    }
}

/// What is said of a download that did not complete.
pub fn settled_problem(last: &DownloadProgress) -> (r: Option<String>)
    ensures
        match last.state {
            DownloadState::Completed => r is None,
            DownloadState::Cancelled => r is Some && r->0@ == "pull cancelled"@,
            _ => r is Some && r->0@ == "pull failed: "@ + message_or(last.error, "download error"@),
        },
{
    match last.state {
        DownloadState::Completed => None,
        DownloadState::Cancelled => Some(text::owned("pull cancelled")),
        _ => {
            let message = message_or_exec(&last.error, "download error");
            Some(text::cat2("pull failed: ", message.as_str()))
        },
    }
}

/// The writes for a model that was pulled.
pub open spec fn pulled_document(model: ModelInfo, bytes: i64) -> Seq<output::JsonOpView> {
    seq![
        output::begin_object(),
        output::field_str("id"@, model.id@),
        output::field_str("name"@, model.name@),
        output::field_str("local_path"@, model.local_path@),
        output::field_i64("bytes"@, bytes as int),
        output::end_object(),
    ]
}

/// The document for a finished pull.
pub fn pulled_json(model: &ModelInfo, bytes: i64) -> (json: JsonWriter)
    ensures
        json@ == pulled_document(*model, bytes),
{
    let mut json = JsonWriter::new();
    json.begin_object();
    json.field_str("id", model.id.as_str());
    json.field_str("name", model.name.as_str());
    json.field_str("local_path", model.local_path.as_str());
    json.field_i64("bytes", bytes);
    json.end_object();
    json
}

/// The line for a finished pull; without a saved entry only the id is known.
pub fn pulled_line(model_id: &str, saved: &Option<ModelInfo>) -> (r: String)
    ensures
        r@ == match saved {
            Some(model) => "pulled "@ + model.id@ + path_suffix(model.local_path@),
            None => "pulled "@ + model_id@,
        },
{
    match saved {
        Some(model) => {
            let suffix = path_suffix_exec(model.local_path.as_str());
            text::cat3("pulled ", model.id.as_str(), suffix.as_str())
        },
        None => text::cat2("pulled ", model_id),
    }
}

/// A pull of a model that is not there yet goes its way: it is planned, started,
/// waited for and looked up again, and ends well. One that is there is only
/// reported, and only where the registry was read afresh.
pub proof fn a_pull_goes_its_way(p: Pull, got_progress: bool, interrupted: bool)
    ensures
        p.stage == PullStage::Lookup && p.refresh_ok ==> pull_step(
            p,
            PullEvent::LookedUp { found: true, status: Some(ModelRegistryStatus::Downloaded) },
        ).1 == PullAction::ReportPresent,
        p.stage == PullStage::Lookup && !p.refresh_ok ==> pull_step(
            p,
            PullEvent::LookedUp { found: true, status: Some(ModelRegistryStatus::Downloaded) },
        ).1 == PullAction::MakePlan,
        p.stage == PullStage::Lookup ==> pull_step(p, PullEvent::LookedUp { found: true, status: None }).1
            == PullAction::MakePlan,
        p.stage == PullStage::Plan ==> pull_step(p, PullEvent::Planned { ok: true, can_start: true }).1
            == PullAction::WireAndStart,
        p.stage == PullStage::Start ==> pull_step(p, PullEvent::Started { ok: true, accepted: true }).0.stage
            == PullStage::Wait,
        p.stage == PullStage::Wait ==> {
            let (next, action) = pull_step(p, PullEvent::Woke { terminal: false, got_progress, interrupted });
            &&& next.stage == PullStage::Wait
            &&& next.cancel_sent == (p.cancel_sent || interrupted)
            &&& action == (PullAction::Tick {
                draw: got_progress,
                cancel: interrupted && !p.cancel_sent,
                done: false,
                draw_last: false,
            })
        },
        p.stage == PullStage::Wait ==> pull_step(p, PullEvent::Woke { terminal: true, got_progress, interrupted }).0.stage
            == PullStage::Settle,
        p.stage == PullStage::Settle ==> pull_step(p, PullEvent::Settled { state: DownloadState::Completed }).1
            == PullAction::LookUpSaved,
        p.stage == PullStage::Settle ==> pull_step(p, PullEvent::Settled { state: DownloadState::Cancelled }).1 == (
            PullAction::Exit { code: 130, unwire: false }),
        p.stage == PullStage::Settle ==> pull_step(p, PullEvent::Settled { state: DownloadState::Failed }).1 == (
            PullAction::Exit { code: 1, unwire: false }),
        p.stage == PullStage::Report || p.stage == PullStage::Present ==> pull_step(p, PullEvent::Reported).1 == (
            PullAction::Exit { code: 0, unwire: false }),
{
}

/// A plan is refused where it could not be made, with what the engine says of that,
/// or where it says that it cannot start; and not otherwise.
pub proof fn a_plan_that_can_start_is_not_refused(
    model_id: Seq<char>,
    rc: i32,
    described: Seq<char>,
    plan: DownloadPlan,
    error: String,
)
    ensures
        plan_refusal(model_id, 0, described, Ok::<DownloadPlan, String>(plan)) is None <==> plan.can_start,
        rc != 0 ==> plan_refusal(model_id, rc, described, Ok::<DownloadPlan, String>(plan)) == Some(
            "download plan failed: "@ + described,
        ),
        plan_refusal(model_id, 0, described, Err::<DownloadPlan, String>(error)) == Some(
            "download plan failed: "@ + error@,
        ),
        !plan.can_start && plan.error is Some && plan.error->0@.len() > 0 ==> plan_refusal(
            model_id,
            0,
            described,
            Ok::<DownloadPlan, String>(plan),
        ) == Some("cannot pull "@ + model_id + ": "@ + plan.error->0@),
{
}

/// What is told of a model that is on disk is its own id, name and path.
pub proof fn a_pulled_model_is_told_as_it_is(model: ModelInfo, bytes: i64)
    ensures
        present_document(model).contains(output::field_str("id"@, model.id@)),
        present_document(model).contains(output::field_str("name"@, model.name@)),
        present_document(model).contains(output::field_str("local_path"@, model.local_path@)),
        present_document(model).contains(output::field_bool("already_downloaded"@, true)),
        pulled_document(model, bytes).contains(output::field_str("id"@, model.id@)),
        pulled_document(model, bytes).contains(output::field_str("name"@, model.name@)),
        pulled_document(model, bytes).contains(output::field_str("local_path"@, model.local_path@)),
        pulled_document(model, bytes).contains(output::field_i64("bytes"@, bytes as int)),
        model.local_path@.len() > 0 ==> present_text(model) == model.id@ + " is already downloaded"@ + " → "@
            + model.local_path@,
        model.local_path@.len() == 0 ==> present_text(model) == model.id@ + " is already downloaded"@,
{
    let (a, b) = (present_document(model), pulled_document(model, bytes));
    assert(a[1] == output::field_str("id"@, model.id@) && b[1] == a[1]);
    assert(a[2] == output::field_str("name"@, model.name@) && b[2] == a[2]);
    assert(a[3] == output::field_str("local_path"@, model.local_path@) && b[3] == a[3]);
    assert(a[4] == output::field_bool("already_downloaded"@, true));
    assert(b[4] == output::field_i64("bytes"@, bytes as int));
    assert(model.id@ + " is already downloaded"@ + (" → "@ + model.local_path@) =~= model.id@
        + " is already downloaded"@ + " → "@ + model.local_path@);
    assert(model.id@ + " is already downloaded"@ + Seq::<char>::empty() =~= model.id@ + " is already downloaded"@);
}

/// Progress counts where it is of the model that is pulled, or none was named; a
/// download is over once it is not in progress any more.
pub proof fn progress_counts_for_its_own_model(inner: PullInner, progress: DownloadProgress, state: DownloadState)
    ensures
        inner.model_id@.len() == 0 ==> inner.concerns(progress),
        progress.model_id@ == inner.model_id@ ==> inner.concerns(progress),
        inner.model_id@.len() > 0 && progress.model_id@ != inner.model_id@ ==> !inner.concerns(progress),
        !is_final(DownloadState::InProgress),
        state != DownloadState::InProgress ==> is_final(state),
{
}

/// A command that downloads a model.
pub open spec fn with_models_download(cmd: CommandView, kit: Kit) -> CommandView {
    cmd
        .option(cli::opt("model"@, ValueType::Text, "Model id, alias, hf.co/org/repo/file or URL"@).required())
        .option(
            cli::opt(
                "--engine"@,
                ValueType::Text,
                "Engine to fetch for ("@ + engine_options::choices_text(kit) + ")"@,
            ),
        )
        .action(Action::ModelsDownload)
}

/// Configures a command that downloads a model.
pub fn configure_models_download(cmd: &mut Command, kit: Kit)
    ensures
        final(cmd)@ == with_models_download(old(cmd)@, kit),
{
    cmd.add_option(
        Opt::value("model", ValueType::Text, "Model id, alias, hf.co/org/repo/file or URL").required(),
    );
    cmd.add_option(
        Opt::value(
            "--engine",
            ValueType::Text,
            text::cat3("Engine to fetch for (", engine_options::engine_choices(kit), ")").as_str(),
        ),
    );
    cmd.callback(Action::ModelsDownload);
}

} // verus!
