//! `wally account login|logout|whoami`: the cloud account.

use crate::account::Credentials;
use crate::account::Grant;
use crate::cli;
use crate::cli::{Action, App, Command, CommandView, Opt};
use crate::output;
use crate::output::Channel;
use crate::output::JsonWriter;
use crate::output::Printed;
use crate::text;
use vstd::prelude::*;

verus! {

/// The console that approval links are sent to, where one is configured: from
/// the environment, by either name, or compiled in beside the API, which counts
/// only when that API is the one being contacted.
pub open spec fn web_origin(
    wally: Option<Seq<char>>,
    rcli: Option<Seq<char>>,
    baked_api: Seq<char>,
    baked_web: Seq<char>,
    console_url: Seq<char>,
) -> Option<Seq<char>> {
    if wally is Some {
        wally
    } else if rcli is Some {
        rcli
    } else if baked_api.len() > 0 && console_url == baked_api && baked_web.len() > 0 {
        Some(baked_web)
    } else {
        None
    }
}

/// A text that may be absent, as a value.
pub open spec fn given(t: Option<String>) -> Option<Seq<char>> {
    match t {
        Some(s) => Some(s@),
        None => None,
    }
}

/// See [`web_origin`]; `wally` is `WALLY_CONSOLE_WEB_URL` and `rcli` is
/// `RCLI_CONSOLE_WEB_URL`. What comes out is still to be normalized.
pub fn console_web_origin(
    wally: &Option<String>,
    rcli: &Option<String>,
    baked_api: &str,
    baked_web: &str,
    console_url: &str,
) -> (r: Option<String>)
    ensures
        given(r) == web_origin(given(*wally), given(*rcli), baked_api@, baked_web@, console_url@),
{
    if let Some(url) = wally {
        return Some(text::owned(url.as_str()));
    }
    if let Some(url) = rcli {
        return Some(text::owned(url.as_str()));
    }
    if !baked_api.is_empty() && text::str_eq(console_url, baked_api) && !baked_web.is_empty() {
        return Some(text::owned(baked_web));
    }
    None
}

/// Where "://" first stands in a text.
pub open spec fn scheme_end(url: Seq<char>, from: int) -> Option<int>
    decreases url.len() - from,
{
    if 0 <= from && from + 3 <= url.len() {
        if url[from] == ':' && url[from + 1] == '/' && url[from + 2] == '/' {
            Some(from)
        } else {
            scheme_end(url, from + 1)
        }
    } else {
        None
    }
}

/// Where the path, the query or the fragment begins, from `from` on; the end of
/// the text where there is none.
pub open spec fn tail_start(url: Seq<char>, from: int) -> int
    decreases url.len() - from,
{
    if 0 <= from < url.len() {
        if url[from] == '/' || url[from] == '?' || url[from] == '#' {
            from
        } else {
            tail_start(url, from + 1)
        }
    } else {
        from
    }
}

/// A URL sent to another origin: what follows its own origin stays as it is. No
/// origin, or a URL without a scheme, changes nothing.
pub open spec fn rebased(url: Seq<char>, origin: Seq<char>) -> Seq<char> {
    match scheme_end(url, 0) {
        Some(at) => if origin.len() == 0 {
            url
        } else {
            origin + url.skip(tail_start(url, at + 3))
        },
        None => url,
    }
}

proof fn tail_start_bounds(url: Seq<char>, from: int)
    requires
        0 <= from <= url.len(),
    ensures
        from <= tail_start(url, from) <= url.len(),
    decreases url.len() - from,
{
    if from < url.len() {
        tail_start_bounds(url, from + 1);
    }
}

/// See [`rebased`].
pub fn rebase_approval_url(url: &str, origin: &str) -> (r: String)
    ensures
        r@ == rebased(url@, origin@),
{
    let v = text::chars_of(url);
    let total: usize = v.len();
    let mut at: usize = 0;
    let mut found = false;
    while !found && at < total && total - at >= 3
        invariant
            total == v@.len(),
            v@ == url@,
            at <= total,
            !found ==> scheme_end(url@, 0) == scheme_end(url@, at as int),
            found ==> scheme_end(url@, 0) == Some(at as int) && at + 3 <= total,
        decreases total - at + (if found { 0int } else { 1int }),
    {
        if v[at] == ':' && v[at + 1] == '/' && v[at + 2] == '/' {
            found = true;
        } else {
            at = at + 1;
        }
    }
    if !found || origin.is_empty() {
        return text::owned(url);
    }
    let mut tail: usize = at + 3;
    while tail < total && v[tail] != '/' && v[tail] != '?' && v[tail] != '#'
        invariant
            total == v@.len(),
            v@ == url@,
            tail <= total,
            tail_start(url@, at + 3) == tail_start(url@, tail as int),
        decreases total - tail,
    {
        tail = tail + 1;
    }
    let rest = text::string_of_range(&v, tail, total);
    assert(rest@ =~= url@.skip(tail as int));
    text::cat2(origin, rest.as_str())
}

/// The session after a grant: its access token, its refresh token and address
/// where it has them, and the end of its life counted from `now`.
pub open spec fn takes_over(before: Credentials, grant: Grant, now: int, after: Credentials) -> bool {
    &&& after.access_token@ == grant.access_token@
    &&& after.refresh_token@ == text::first_given(grant.refresh_token@, before.refresh_token@)
    &&& after.email@ == text::first_given(grant.email@, before.email@)
    &&& after.expires_at == now + grant_lifetime(grant)
    &&& after.console_url@ == before.console_url@
}

/// How long a grant lasts; one that does not say lasts an hour.
pub open spec fn grant_lifetime(grant: Grant) -> int {
    if grant.expires_in > 0 {
        grant.expires_in as int
    } else {
        3600
    }
}

/// See [`takes_over`].
pub fn apply_grant(grant: &Grant, credentials: &mut Credentials, now: i64)
    requires
        i64::MIN <= now + grant_lifetime(*grant) <= i64::MAX,
    ensures
        takes_over(*old(credentials), *grant, now as int, *final(credentials)),
{
    credentials.access_token = text::owned(grant.access_token.as_str());
    if !grant.refresh_token.as_str().is_empty() {
        credentials.refresh_token = text::owned(grant.refresh_token.as_str());
    }
    if !grant.email.as_str().is_empty() {
        credentials.email = text::owned(grant.email.as_str());
    }
    let lifetime: i64 = if grant.expires_in > 0 {
        grant.expires_in
    } else {
        3600
    };
    credentials.expires_at = now + lifetime;
}

/// What is said of an approval link that leads elsewhere: it is not opened.
pub fn approval_problem(trusted: bool) -> (r: Option<String>)
    ensures
        r is Some <==> !trusted,
        r is Some ==> r->0@ == "console returned an approval URL outside its origin"@,
{
    if trusted {
        None
    } else {
        Some(text::owned("console returned an approval URL outside its origin"))
    }
}

/// What a sign-in prints before the browser opens.
pub fn approval_lines(request_code: &str, approval_url: &str) -> (r: Printed)
    ensures
        r@ == seq![
            output::status("approve this sign-in in your browser"@),
            output::result("code  "@ + request_code@),
            output::result("url   "@ + approval_url@),
        ],
{
    let mut printed = Printed::new();
    printed.status(text::owned("approve this sign-in in your browser"));
    printed.result(text::cat2("code  ", request_code));
    printed.result(text::cat2("url   ", approval_url));
    printed
}

/// What is said once the browser was opened, or left alone.
pub fn waiting_line() -> (r: String)
    ensures
        r@ == "waiting for approval"@,
{
    text::owned("waiting for approval")
}

/// How the console answered a poll.
#[derive(Clone, Copy, Debug, PartialEq, Eq, Structural)]
pub enum PollResult {
    Pending,
    Denied,
    Expired,
    Failed,
    Approved,
}

/// One answer of the console. `retry_after` is how many seconds it asks to be
/// left alone.
pub struct PollOutcome {
    pub result: PollResult,
    pub error: String,
    pub retry_after: i64,
    pub has_grant: bool,
}

/// What a sign-in does next.
#[derive(Clone, Copy, Debug, PartialEq, Eq, Structural)]
pub enum LoginNext {
    /// Wait that many nanoseconds, then poll again.
    Wait(u128),
    /// Give up; the exit code is 1.
    Fail,
    /// Take over the grant.
    Accept,
}

/// A second in nanoseconds.
pub const SECOND: u128 = 1_000_000_000;

/// The nanoseconds of a delay; one below zero is none.
pub open spec fn delay_nanos(delay: i64) -> int {
    if delay > 0 {
        delay * 1_000_000_000
    } else {
        0
    }
}

/// What an answer means. `delay` is how long the next poll has to wait, in
/// seconds, `interval` is the cadence that the request asked for, and
/// `remaining` how long the request still lives; nothing once it is over. A
/// wait that the console asks for and that outlives the request ends the
/// sign-in; one of our own only lets the request run out.
pub open spec fn after_poll(outcome: PollOutcome, interval: i64, delay: i64, remaining: Option<u128>) -> (
    Seq<(output::Channel, Seq<char>)>,
    LoginNext,
) {
    match outcome.result {
        PollResult::Pending => {
            let busy = if outcome.error@.len() > 0 && outcome.retry_after <= interval {
                seq![output::status("server busy, retrying"@)]
            } else {
                Seq::empty()
            };
            match remaining {
                None => (busy + seq![output::error("timed out waiting for approval"@)], LoginNext::Fail),
                Some(left) => if delay_nanos(delay) > left {
                    if outcome.retry_after > 0 {
                        (
                            busy + seq![
                                output::error("Wally Cloud is busy - try again in "@ + text::dec(delay as int) + "s"@),
                            ],
                            LoginNext::Fail,
                        )
                    } else {
                        (busy, LoginNext::Wait(left))
                    }
                } else if delay > interval {
                    (
                        busy + seq![
                            output::status("console busy, waiting "@ + text::dec(delay as int) + "s as asked"@),
                        ],
                        LoginNext::Wait(delay_nanos(delay) as u128),
                    )
                } else {
                    (busy, LoginNext::Wait(delay_nanos(delay) as u128))
                },
            }
        },
        PollResult::Denied => (seq![output::error("the request was denied in the browser"@)], LoginNext::Fail),
        PollResult::Expired => (seq![output::error("the request expired before it was approved"@)], LoginNext::Fail),
        PollResult::Failed => (seq![output::error(outcome.error@)], LoginNext::Fail),
        PollResult::Approved => if outcome.has_grant {
            (Seq::empty(), LoginNext::Accept)
        } else {
            (seq![output::error(outcome.error@)], LoginNext::Fail)
        },
    }
}

/// One turn of a sign-in; see [`after_poll`].
pub fn poll_turn(outcome: &PollOutcome, interval: i64, delay: i64, remaining: Option<u128>) -> (r: (Printed, LoginNext))
    ensures
        r.0@ == after_poll(*outcome, interval, delay, remaining).0,
        r.1 == after_poll(*outcome, interval, delay, remaining).1,
{
    let mut printed = Printed::new();
    match outcome.result {
        PollResult::Denied => {
            printed.error(text::owned("the request was denied in the browser"));
            return (printed, LoginNext::Fail);
        },
        PollResult::Expired => {
            printed.error(text::owned("the request expired before it was approved"));
            return (printed, LoginNext::Fail);
        },
        PollResult::Failed => {
            printed.error(text::owned(outcome.error.as_str()));
            return (printed, LoginNext::Fail);
        },
        PollResult::Approved => {
            if outcome.has_grant {
                return (printed, LoginNext::Accept);
            }
            printed.error(text::owned(outcome.error.as_str()));
            return (printed, LoginNext::Fail);
        },
        PollResult::Pending => {},
    }
    if !outcome.error.as_str().is_empty() && outcome.retry_after <= interval {
        printed.status(text::owned("server busy, retrying"));
    }
    let ghost busy = printed@;
    let left: u128 = match remaining {
        None => {
            printed.error(text::owned("timed out waiting for approval"));
            assert(printed@ =~= busy + seq![output::error("timed out waiting for approval"@)]);
            return (printed, LoginNext::Fail);
        },
        Some(left) => left,
    };
    let wait: u128 = if delay > 0 {
        delay as u128 * 1_000_000_000
    } else {
        0
    };
    if wait > left {
        if outcome.retry_after > 0 {
            printed.error(text::cat3("Wally Cloud is busy - try again in ", text::dec_i64(delay).as_str(), "s"));
            assert(printed@ =~= busy + seq![
                output::error("Wally Cloud is busy - try again in "@ + text::dec(delay as int) + "s"@),
            ]);
            return (printed, LoginNext::Fail);
        }
        return (printed, LoginNext::Wait(left));
    }
    if delay > interval {
        printed.status(text::cat3("console busy, waiting ", text::dec_i64(delay).as_str(), "s as asked"));
        assert(printed@ =~= busy + seq![
            output::status("console busy, waiting "@ + text::dec(delay as int) + "s as asked"@),
        ]);
    }
    (printed, LoginNext::Wait(wait))
}

/// A sign-in never waits longer than its request lives, and waits only while
/// the request is pending.
pub proof fn a_sign_in_never_outlives_its_request(
    outcome: PollOutcome,
    interval: i64,
    delay: i64,
    remaining: Option<u128>,
)
    ensures
        after_poll(outcome, interval, delay, remaining).1 matches LoginNext::Wait(n) ==> outcome.result
            == PollResult::Pending && remaining is Some && n <= remaining->0,
        after_poll(outcome, interval, delay, remaining).1 == LoginNext::Accept ==> outcome.result
            == PollResult::Approved && outcome.has_grant,
{
}

/// The console that is signed in to: the one that was named, or the default.
pub fn requested_console(requested: &str, default_url: &str) -> (r: String)
    ensures
        r@ == text::first_given(requested@, default_url@),
{
    text::first_given_exec(requested, default_url)
}

/// How many seconds a request lives.
pub fn request_lifetime(expires_in: i64) -> (r: u64)
    ensures
        r == if expires_in > 0 {
            expires_in as int
        } else {
            0
        },
{
    if expires_in > 0 {
        expires_in as u64
    } else {
        0
    }
}

/// What is said of a request that ran out.
pub fn timed_out() -> (r: String)
    ensures
        r@ == "timed out waiting for approval"@,
{
    text::owned("timed out waiting for approval")
}

/// What a sign-in does next.
#[derive(Clone, Copy, Debug, PartialEq, Eq, Structural)]
pub enum LoginStage {
    /// Read the URL of the console; see [`requested_console`].
    Console,
    /// Ask the console for a request to approve.
    Authorize,
    /// See that its link leads to the console; see [`approval_problem`].
    Check,
    /// Say how to approve it, open the browser where that is wanted, and wait.
    Announce,
    /// See whether the request still lives; see [`request_lifetime`].
    Clock,
    /// Ask whether it was approved, and judge the answer; see [`poll_turn`].
    Poll,
    /// Wait that many nanoseconds.
    Sleep(u128),
    /// Take over the grant, and store the session.
    Save,
    /// Fetch the list of hosted models while the token is fresh.
    Cache,
    /// Say who is signed in.
    Welcome,
    /// It is over, with this exit code.
    Finished(i32),
}

/// The stage after one that worked or not; `turn` is what the answer to a poll
/// means. Every failure, and a request that ran out, exits with 1. A list of
/// models that cannot be fetched fails nothing.
pub open spec fn login_after(stage: LoginStage, ok: bool, turn: LoginNext) -> LoginStage {
    match stage {
        LoginStage::Console => if ok {
            LoginStage::Authorize
        } else {
            LoginStage::Finished(1)
        },
        LoginStage::Authorize => if ok {
            LoginStage::Check
        } else {
            LoginStage::Finished(1)
        },
        LoginStage::Check => if ok {
            LoginStage::Announce
        } else {
            LoginStage::Finished(1)
        },
        LoginStage::Announce => LoginStage::Clock,
        LoginStage::Clock => if ok {
            LoginStage::Poll
        } else {
            LoginStage::Finished(1)
        },
        LoginStage::Poll => match turn {
            LoginNext::Wait(nanoseconds) => LoginStage::Sleep(nanoseconds),
            LoginNext::Fail => LoginStage::Finished(1),
            LoginNext::Accept => LoginStage::Save,
        },
        LoginStage::Sleep(_) => LoginStage::Clock,
        LoginStage::Save => if ok {
            LoginStage::Cache
        } else {
            LoginStage::Finished(1)
        },
        LoginStage::Cache => LoginStage::Welcome,
        LoginStage::Welcome => LoginStage::Finished(0),
        LoginStage::Finished(code) => LoginStage::Finished(code),
    }
}

/// See [`login_after`].
pub fn login(stage: LoginStage, ok: bool, turn: LoginNext) -> (r: LoginStage)
    ensures
        r == login_after(stage, ok, turn),
{
    match stage {
        LoginStage::Console => if ok {
            LoginStage::Authorize
        } else {
            LoginStage::Finished(1)
        },
        LoginStage::Authorize => if ok {
            LoginStage::Check
        } else {
            LoginStage::Finished(1)
        },
        LoginStage::Check => if ok {
            LoginStage::Announce
        } else {
            LoginStage::Finished(1)
        },
        LoginStage::Announce => LoginStage::Clock,
        LoginStage::Clock => if ok {
            LoginStage::Poll
        } else {
            LoginStage::Finished(1)
        },
        LoginStage::Poll => match turn {
            LoginNext::Wait(nanoseconds) => LoginStage::Sleep(nanoseconds),
            LoginNext::Fail => LoginStage::Finished(1),
            LoginNext::Accept => LoginStage::Save,
        },
        LoginStage::Sleep(_) => LoginStage::Clock,
        LoginStage::Save => if ok {
            LoginStage::Cache
        } else {
            LoginStage::Finished(1)
        },
        LoginStage::Cache => LoginStage::Welcome,
        LoginStage::Welcome => LoginStage::Finished(0),
        LoginStage::Finished(code) => LoginStage::Finished(code),
    }
}

/// The console is polled only right after the clock showed that the request
/// still lives, a session is stored only after an approval, and a sign-in
/// returns 0 only when the session was stored.
pub proof fn a_sign_in_succeeds_only_when_it_is_stored(stage: LoginStage, ok: bool, turn: LoginNext)
    ensures
        login_after(stage, ok, turn) is Poll <==> stage is Clock && ok,
        stage is Clock && !ok ==> login_after(stage, ok, turn) == LoginStage::Finished(1),
        login_after(stage, ok, turn) is Save <==> stage is Poll && turn is Accept,
        login_after(stage, ok, turn) is Cache <==> stage is Save && ok,
        login_after(stage, ok, turn) is Welcome <==> stage is Cache,
        login_after(stage, ok, turn) matches LoginStage::Finished(code) ==> {
            ||| stage == LoginStage::Finished(code)
            ||| code == 0 && stage is Welcome
            ||| code == 1 && (!ok || stage is Poll && turn is Fail)
        },
{
}

/// What a sign-in prints when it is done.
pub fn signed_in_lines(email: &str, profile_directory: &str) -> (r: Printed)
    ensures
        r@ == seq![
            output::status("signed in as "@ + text::first_given(email@, "your account"@)),
            output::status("cloud session stored in "@ + profile_directory@),
        ],
{
    let mut printed = Printed::new();
    let identity = text::first_given_exec(email, "your account");
    printed.status(text::cat2("signed in as ", identity.as_str()));
    printed.status(text::cat2("cloud session stored in ", profile_directory));
    printed
}

/// Whether there is a session to sign out of.
pub open spec fn has_session(signed_in: bool, credentials: Credentials) -> bool {
    signed_in || credentials.refresh_token@.len() > 0
}

/// What is said when there is nobody to sign out; the exit code is 0.
pub fn nothing_to_sign_out(signed_in: bool, credentials: &Credentials) -> (r: Option<String>)
    ensures
        r is Some <==> !has_session(signed_in, *credentials),
        r is Some ==> r->0@ == "not signed in"@,
{
    if signed_in || !credentials.refresh_token.as_str().is_empty() {
        None
    } else {
        Some(text::owned("not signed in"))
    }
}

/// How a sign-out ends, with its exit code: a local session that cannot be
/// removed fails it, and so does one that the console did not revoke, though it
/// is gone from this machine.
pub fn logout(clear_failure: &Option<String>, revoke_failure: &Option<String>) -> (r: (Printed, i32))
    ensures
        match *clear_failure {
            Some(failure) => r.0@ == seq![output::error(failure@)] && r.1 == 1,
            None => match *revoke_failure {
                Some(failure) => r.0@ == seq![
                    output::status("signed out on this machine"@),
                    output::error(failure@ + "; the local session was removed"@),
                ] && r.1 == 1,
                None => r.0@ == seq![
                    output::status("signed out on this machine"@),
                    output::status("cloud session revoked"@),
                ] && r.1 == 0,
            },
        },
{
    let mut printed = Printed::new();
    if let Some(failure) = clear_failure {
        printed.error(text::owned(failure.as_str()));
        return (printed, 1);
    }
    printed.status(text::owned("signed out on this machine"));
    match revoke_failure {
        Some(failure) => {
            printed.error(text::cat2(failure.as_str(), "; the local session was removed"));
            (printed, 1)
        },
        None => {
            printed.status(text::owned("cloud session revoked"));
            (printed, 0)
        },
    }
}

/// What a look at the account does next.
#[derive(Clone, Copy, Debug, PartialEq, Eq, Structural)]
pub enum WhoStage {
    /// Nobody is signed in.
    NotSignedIn,
    /// The session has run out: refresh it.
    Refresh,
    /// Ask the console who this is.
    Ask,
    /// The console turned the session away: refresh it.
    RefreshAgain,
    /// Ask the console once more.
    AskAgain,
    /// Show the account.
    Show,
    /// Show what went wrong; the exit code is 1.
    Fail,
}

/// How a piece of work went.
#[derive(Clone, Copy, Debug, PartialEq, Eq, Structural)]
pub enum WhoReply {
    Worked,
    TurnedAway,
    Failed,
}

/// The first stage: a session that has run out is refreshed before it is used.
pub open spec fn who_start(signed_in: bool, expired: bool) -> WhoStage {
    if !signed_in {
        WhoStage::NotSignedIn
    } else if expired {
        WhoStage::Refresh
    } else {
        WhoStage::Ask
    }
}

/// The stage after a piece of work: a session that is turned away is refreshed
/// once and asked about once more.
pub open spec fn who_after(stage: WhoStage, reply: WhoReply) -> WhoStage {
    match stage {
        WhoStage::Refresh => if reply == WhoReply::Worked {
            WhoStage::Ask
        } else {
            WhoStage::Fail
        },
        WhoStage::Ask => match reply {
            WhoReply::Worked => WhoStage::Show,
            WhoReply::TurnedAway => WhoStage::RefreshAgain,
            WhoReply::Failed => WhoStage::Fail,
        },
        WhoStage::RefreshAgain => if reply == WhoReply::Worked {
            WhoStage::AskAgain
        } else {
            WhoStage::Fail
        },
        WhoStage::AskAgain => if reply == WhoReply::Worked {
            WhoStage::Show
        } else {
            WhoStage::Fail
        },
        WhoStage::NotSignedIn => WhoStage::NotSignedIn,
        WhoStage::Show => WhoStage::Show,
        WhoStage::Fail => WhoStage::Fail,
    }
}

/// See [`who_start`].
pub fn begin_who_am_i(signed_in: bool, expired: bool) -> (r: WhoStage)
    ensures
        r == who_start(signed_in, expired),
{
    if !signed_in {
        WhoStage::NotSignedIn
    } else if expired {
        WhoStage::Refresh
    } else {
        WhoStage::Ask
    }
}

/// `wally account whoami`, one piece of work at a time; see [`who_after`].
pub fn who_am_i(stage: WhoStage, reply: WhoReply) -> (r: WhoStage)
    ensures
        r == who_after(stage, reply),
{
    match stage {
        WhoStage::Refresh => if reply == WhoReply::Worked {
            WhoStage::Ask
        } else {
            WhoStage::Fail
        },
        WhoStage::Ask => match reply {
            WhoReply::Worked => WhoStage::Show,
            WhoReply::TurnedAway => WhoStage::RefreshAgain,
            WhoReply::Failed => WhoStage::Fail,
        },
        WhoStage::RefreshAgain => if reply == WhoReply::Worked {
            WhoStage::AskAgain
        } else {
            WhoStage::Fail
        },
        WhoStage::AskAgain => if reply == WhoReply::Worked {
            WhoStage::Show
        } else {
            WhoStage::Fail
        },
        WhoStage::NotSignedIn => WhoStage::NotSignedIn,
        WhoStage::Show => WhoStage::Show,
        WhoStage::Fail => WhoStage::Fail,
    }
}

/// What is said when nobody is signed in.
pub fn not_signed_in() -> (r: String)
    ensures
        r@ == "not signed in \u{2014} run `wally account login`"@,
{
    text::owned("not signed in \u{2014} run `wally account login`")
}

/// Whether an account is shown after a row of replies.
pub open spec fn who_run(stage: WhoStage, replies: Seq<WhoReply>) -> WhoStage
    decreases replies.len(),
{
    if replies.len() == 0 {
        stage
    } else {
        who_after(who_run(stage, replies.drop_last()), replies.last())
    }
}

/// Whatever the replies, a look at the account is over after four pieces of
/// work, and it shows the account only when the last question worked.
pub proof fn whoami_ends(signed_in: bool, expired: bool, replies: Seq<WhoReply>)
    requires
        replies.len() >= 4,
    ensures
        ({
            let end = who_run(who_start(signed_in, expired), replies);
            end == WhoStage::Show || end == WhoStage::Fail || end == WhoStage::NotSignedIn
        }),
        signed_in == (who_run(who_start(signed_in, expired), replies) != WhoStage::NotSignedIn),
    decreases replies.len(),
{
    let start = who_start(signed_in, expired);
    if replies.len() > 4 {
        whoami_ends(signed_in, expired, replies.drop_last());
    } else {
        let r3 = replies.drop_last();
        let r2 = r3.drop_last();
        let r1 = r2.drop_last();
        let r0 = r1.drop_last();
        assert(who_run(start, r0) == start);
        assert(who_run(start, r1) == who_after(start, r1.last()));
        assert(who_run(start, r2) == who_after(who_run(start, r1), r2.last()));
        assert(who_run(start, r3) == who_after(who_run(start, r2), r3.last()));
    }
}

/// The writes for an identity.
pub open spec fn whoami_document(email: Seq<char>, console_url: Seq<char>) -> Seq<output::JsonOpView> {
    seq![
        output::begin_object(),
        output::field_str("email"@, email),
        output::field_str("session"@, "active"@),
        output::field_str("console"@, console_url),
        output::end_object(),
    ]
}

/// The document of an account: who it is, and nothing of plans or usage.
pub fn whoami_json(email: &str, console_url: &str) -> (json: JsonWriter)
    ensures
        json@ == whoami_document(email@, console_url@),
{
    let mut json = JsonWriter::new();
    json.begin_object();
    json.field_str("email", email);
    json.field_str("session", "active");
    json.field_str("console", console_url);
    json.end_object();
    json
}

/// The lines of an identity.
pub open spec fn whoami_text(email: Seq<char>) -> Seq<(Channel, Seq<char>)> {
    seq![
        output::result(text::pad_end("email"@, 14) + " "@ + email),
        output::result(text::pad_end("session"@, 14) + " "@ + "active"@),
    ]
}

/// The lines of an account.
pub fn whoami_lines(email: &str) -> (r: Printed)
    ensures
        r@ == whoami_text(email@),
{
    let mut printed = Printed::new();
    printed.result(text::cat3(text::pad_end_exec("email", 14).as_str(), " ", email));
    printed.result(text::cat3(text::pad_end_exec("session", 14).as_str(), " ", "active"));
    printed
}

/// Where the name in a buffer ends: at its first NUL; without one there is no
/// name.
pub open spec fn name_end(buffer: Seq<u8>, from: int) -> int
    decreases buffer.len() - from,
{
    if from >= buffer.len() {
        0
    } else if buffer[from] == 0 {
        from
    } else {
        name_end(buffer, from + 1)
    }
}

/// The name of this machine: `ok` says that `buffer` was filled with it.
pub fn hostname(ok: bool, buffer: &[u8]) -> (r: String)
    ensures
        r@ == if ok && name_end(buffer@, 0) > 0 {
            text::lossy_text(buffer@.subrange(0, name_end(buffer@, 0)))
        } else {
            "unknown"@
        },
{
    if !ok {
        return text::owned("unknown");
    }
    let mut end: usize = 0;
    while end < buffer.len() && buffer[end] != 0
        invariant
            end <= buffer@.len(),
            name_end(buffer@, 0) == name_end(buffer@, end as int),
        decreases buffer@.len() - end,
    {
        end = end + 1;
    }
    if end == 0 || end == buffer.len() {
        return text::owned("unknown");
    }
    text::from_utf8_lossy(vstd::slice::slice_subrange(buffer, 0, end))
}

/// The program that opens a URL, and its arguments; none for a URL that cannot
/// be handed over.
pub open spec fn opener(url: Seq<char>, windows: bool, macos: bool) -> Option<Seq<Seq<char>>> {
    if windows {
        Some(seq!["rundll32"@, "url.dll,FileProtocolHandler"@, url])
    } else if !text::has_no_nul(url) {
        None
    } else if macos {
        Some(seq!["open"@, url])
    } else {
        Some(seq!["xdg-open"@, url])
    }
}

/// See [`opener`].
pub fn open_browser(url: &str, windows: bool, macos: bool) -> (r: Option<Vec<String>>)
    ensures
        (match r {
            Some(words) => Some(output::strings_view(words@)),
            None => None,
        }) == opener(url@, windows, macos),
{
    if windows {
        return Some(cli::words3("rundll32", "url.dll,FileProtocolHandler", url));
    }
    if !text::has_no_nul_exec(url) {
        return None;
    }
    if macos {
        Some(cli::words2("open", url))
    } else {
        Some(cli::words2("xdg-open", url))
    }
}

/// What is said when no browser could be started.
pub fn browser_failure() -> (r: String)
    ensures
        r@ == "could not open a browser; use the URL printed above"@,
{
    text::owned("could not open a browser; use the URL printed above")
}

/// An approval page is opened at another origin by its path alone: scheme and host
/// are replaced, and everything from the first slash, question mark or hash behind
/// them on is kept. A text without a scheme, or no origin to go to, changes
/// nothing.
pub proof fn rebasing_keeps_the_path(url: Seq<char>, origin: Seq<char>)
    ensures
        origin.len() == 0 ==> rebased(url, origin) == url,
        (forall|i: int|
            0 <= i && i + 3 <= url.len() ==> !(#[trigger] url[i] == ':' && url[i + 1] == '/' && url[i + 2] == '/'))
            ==> rebased(url, origin) == url,
        forall|at: int, p: int|
            0 <= at && at + 3 <= p <= url.len() && #[trigger] is_host(url, at, p) && (forall|i: int|
                0 <= i < at ==> !(#[trigger] url[i] == ':' && url[i + 1] == '/' && url[i + 2] == '/')) && origin.len()
                > 0 ==> rebased(url, origin) == origin + url.skip(p),
{
    a_scheme_is_found(url, 0);
    assert forall|at: int, p: int|
        0 <= at && at + 3 <= p <= url.len() && #[trigger] is_host(url, at, p) && (forall|i: int|
            0 <= i < at ==> !(#[trigger] url[i] == ':' && url[i + 1] == '/' && url[i + 2] == '/')) && origin.len()
            > 0 implies rebased(url, origin) == origin + url.skip(p) by {
        assert(url[at] == ':');
        assert(scheme_end(url, 0) == Some(at));
        a_tail_is_found(url, at + 3, p);
    }
}

/// Whether a scheme ends at `at`, and the host behind it reaches up to `p`.
pub open spec fn is_host(url: Seq<char>, at: int, p: int) -> bool {
    &&& url[at] == ':' && url[at + 1] == '/' && url[at + 2] == '/'
    &&& forall|i: int| at + 3 <= i < p ==> #[trigger] url[i] != '/' && url[i] != '?' && url[i] != '#'
    &&& p == url.len() || url[p] == '/' || url[p] == '?' || url[p] == '#'
}

proof fn a_scheme_is_found(url: Seq<char>, from: int)
    requires
        0 <= from,
    ensures
        match scheme_end(url, from) {
            Some(at) => from <= at && at + 3 <= url.len() && url[at] == ':' && url[at + 1] == '/' && url[at + 2] == '/'
                && (forall|i: int|
                from <= i < at ==> !(#[trigger] url[i] == ':' && url[i + 1] == '/' && url[i + 2] == '/')),
            None => forall|i: int|
                from <= i && i + 3 <= url.len() ==> !(#[trigger] url[i] == ':' && url[i + 1] == '/' && url[i + 2]
                    == '/'),
        },
    decreases url.len() - from,
{
    if from + 3 <= url.len() {
        a_scheme_is_found(url, from + 1);
    }
}

proof fn a_tail_is_found(url: Seq<char>, from: int, p: int)
    requires
        0 <= from <= p <= url.len(),
        forall|i: int| from <= i < p ==> #[trigger] url[i] != '/' && url[i] != '?' && url[i] != '#',
        p == url.len() || url[p] == '/' || url[p] == '?' || url[p] == '#',
    ensures
        tail_start(url, from) == p,
    decreases p - from,
{
    if from < p {
        assert(url[from] != '/');
        a_tail_is_found(url, from + 1, p);
    }
}

/// The page that approves a sign-in is where the user says, first by the one name,
/// then by the other; else where this build keeps it, and only for the console it
/// was built for.
pub proof fn an_origin_that_is_named_wins(
    wally: Option<Seq<char>>,
    rcli: Option<Seq<char>>,
    baked_api: Seq<char>,
    baked_web: Seq<char>,
    console_url: Seq<char>,
)
    ensures
        wally is Some ==> web_origin(wally, rcli, baked_api, baked_web, console_url) == wally,
        wally is None && rcli is Some ==> web_origin(wally, rcli, baked_api, baked_web, console_url) == rcli,
        wally is None && rcli is None && console_url != baked_api ==> web_origin(
            wally,
            rcli,
            baked_api,
            baked_web,
            console_url,
        ) is None,
        wally is None && rcli is None && console_url.len() > 0 && baked_web.len() > 0 ==> web_origin(
            wally,
            rcli,
            console_url,
            baked_web,
            console_url,
        ) == Some(baked_web),
        wally is None && rcli is None && baked_web.len() == 0 ==> web_origin(
            wally,
            rcli,
            baked_api,
            baked_web,
            console_url,
        ) is None,
{
}

/// A grant replaces the access token, and what else it brings; what it leaves out
/// stays as it was. The session is good from now for as long as the grant says, or
/// an hour, at the same console.
pub proof fn a_grant_replaces_what_it_brings(before: Credentials, grant: Grant, now: int, after: Credentials)
    requires
        takes_over(before, grant, now, after),
    ensures
        after.access_token@ == grant.access_token@,
        after.console_url@ == before.console_url@,
        grant.refresh_token@.len() > 0 ==> after.refresh_token@ == grant.refresh_token@,
        grant.refresh_token@.len() == 0 ==> after.refresh_token@ == before.refresh_token@,
        grant.email@.len() > 0 ==> after.email@ == grant.email@,
        grant.email@.len() == 0 ==> after.email@ == before.email@,
        grant.expires_in > 0 ==> after.expires_at - now == grant.expires_in,
        grant.expires_in <= 0 ==> after.expires_at - now == 3600,
{
}

/// A sign-in is accepted only when it was approved and came with a grant. While it
/// is pending it is waited for as long as the console asks, but never past the end
/// of the request, and it is given up only then or where the console asks for a
/// longer wait than is left. Giving up always says why, in one error.
pub proof fn a_sign_in_waits_within_its_time(outcome: PollOutcome, interval: i64, delay: i64, remaining: Option<u128>)
    ensures
        ({
            let (said, next) = after_poll(outcome, interval, delay, remaining);
            &&& next == LoginNext::Accept <==> outcome.result == PollResult::Approved && outcome.has_grant
            &&& next == LoginNext::Accept ==> said.len() == 0
            &&& next is Wait ==> outcome.result == PollResult::Pending && remaining is Some && next->0 <= remaining->0
            &&& next is Wait && 0 <= delay && delay * 1_000_000_000 <= remaining->0 ==> next->0 == delay * 1_000_000_000
            &&& next is Wait && delay * 1_000_000_000 > remaining->0 ==> next->0 == remaining->0 && outcome.retry_after
                <= 0
            &&& outcome.result == PollResult::Pending && next == LoginNext::Fail ==> remaining is None || (
            outcome.retry_after > 0 && delay * 1_000_000_000 > remaining->0)
            &&& next == LoginNext::Fail ==> said.len() > 0 && said.last().0 == Channel::Error
            &&& next is Wait ==> forall|i: int| 0 <= i < said.len() ==> (#[trigger] said[i]).0 == Channel::Status
            &&& outcome.result == PollResult::Failed ==> said == seq![(Channel::Error, outcome.error@)]
            &&& outcome.result == PollResult::Pending && remaining is Some && outcome.error@.len() > 0
                && outcome.retry_after <= interval ==> said.len() > 0 && said[0] == (
                Channel::Status,
                "server busy, retrying"@,
            )
        }),
{
}

/// A sign-in that is approved is stored before anybody is greeted, and a pending
/// one is slept on for as long as it was told and then polled again.
pub proof fn a_sign_in_takes_its_steps(ok: bool, turn: LoginNext, nanoseconds: u128)
    ensures
        login_after(LoginStage::Console, true, turn) == LoginStage::Authorize,
        login_after(LoginStage::Authorize, true, turn) == LoginStage::Check,
        login_after(LoginStage::Check, true, turn) == LoginStage::Announce,
        login_after(LoginStage::Announce, ok, turn) == LoginStage::Clock,
        login_after(LoginStage::Clock, true, turn) == LoginStage::Poll,
        login_after(LoginStage::Poll, ok, LoginNext::Wait(nanoseconds)) == LoginStage::Sleep(nanoseconds),
        login_after(LoginStage::Sleep(nanoseconds), ok, turn) == LoginStage::Clock,
        login_after(LoginStage::Poll, ok, LoginNext::Accept) == LoginStage::Save,
        login_after(login_after(login_after(LoginStage::Save, true, turn), ok, turn), ok, turn)
            == LoginStage::Finished(0),
        login_after(LoginStage::Save, false, turn) == LoginStage::Finished(1),
{
}

/// Who is signed in is asked with a session that is still good, refreshed first
/// where it has run out, and once more where the console turns it away; what comes
/// back is shown only where the console answered.
pub proof fn whoami_asks_again_once(expired: bool)
    ensures
        who_start(false, expired) == WhoStage::NotSignedIn,
        who_run(who_start(true, false), seq![WhoReply::Worked]) == WhoStage::Show,
        who_run(who_start(true, true), seq![WhoReply::Worked, WhoReply::Worked]) == WhoStage::Show,
        who_run(who_start(true, true), seq![WhoReply::Failed]) == WhoStage::Fail,
        who_run(who_start(true, false), seq![WhoReply::Failed]) == WhoStage::Fail,
        who_run(who_start(true, false), seq![WhoReply::TurnedAway, WhoReply::Worked, WhoReply::Worked])
            == WhoStage::Show,
        who_run(who_start(true, false), seq![WhoReply::TurnedAway, WhoReply::Failed]) == WhoStage::Fail,
        who_run(who_start(true, false), seq![WhoReply::TurnedAway, WhoReply::Worked, WhoReply::TurnedAway])
            == WhoStage::Fail,
{
    reveal_with_fuel(who_run, 4);
    let w = WhoReply::Worked;
    let t = WhoReply::TurnedAway;
    assert(seq![w].drop_last() =~= Seq::empty());
    assert(seq![w, w].drop_last() =~= seq![w]);
    assert(seq![WhoReply::Failed].drop_last() =~= Seq::empty());
    assert(seq![t].drop_last() =~= Seq::empty());
    assert(seq![t, w].drop_last() =~= seq![t]);
    assert(seq![t, w, w].drop_last() =~= seq![t, w]);
    assert(seq![t, WhoReply::Failed].drop_last() =~= seq![t]);
    assert(seq![t, w, t].drop_last() =~= seq![t, w]);
}

/// The name of a machine ends at its first zero byte; a buffer without one has no
/// name.
pub proof fn a_name_ends_at_its_zero(buffer: Seq<u8>, from: int)
    requires
        0 <= from,
    ensures
        ({
            let end = name_end(buffer, from);
            &&& end > 0 ==> from <= end < buffer.len() && buffer[end] == 0 && forall|i: int|
                from <= i < end ==> #[trigger] buffer[i] != 0
            &&& end == 0 ==> (from == 0 && buffer.len() > 0 && buffer[0] == 0) || forall|i: int|
                from <= i < buffer.len() ==> #[trigger] buffer[i] != 0
        }),
    decreases buffer.len() - from,
{
    if from < buffer.len() && buffer[from] != 0 {
        a_name_ends_at_its_zero(buffer, from + 1);
    }
}

/// A page is opened by the system's own opener, with its address as the last word.
pub proof fn a_page_is_opened_at_its_address(url: Seq<char>, windows: bool, macos: bool)
    ensures
        opener(url, windows, macos) is Some ==> opener(url, windows, macos)->0.last() == url,
        windows ==> opener(url, windows, macos) is Some && opener(url, windows, macos)->0[0] == "rundll32"@,
        !windows && opener(url, windows, macos) is Some ==> opener(url, windows, macos)->0[0] == if macos {
            "open"@
        } else {
            "xdg-open"@
        },
        !windows ==> (opener(url, windows, macos) is Some <==> forall|i: int|
            0 <= i < url.len() ==> #[trigger] url[i] != '\0'),
{
}

/// What is shown of an account is its own: the address and the console it is at.
pub proof fn an_account_is_shown_as_it_is(email: Seq<char>, console_url: Seq<char>)
    ensures
        whoami_document(email, console_url).contains(output::field_str("email"@, email)),
        whoami_document(email, console_url).contains(output::field_str("console"@, console_url)),
        whoami_document(email, console_url).contains(output::field_str("session"@, "active"@)),
        whoami_text(email)[0].1 == text::pad_end("email"@, 14) + " "@ + email,
{
    let ops = whoami_document(email, console_url);
    assert(ops[1] == output::field_str("email"@, email));
    assert(ops[2] == output::field_str("session"@, "active"@));
    assert(ops[3] == output::field_str("console"@, console_url));
}

/// Signing out always takes the session off this machine first, and says so; it
/// ends well only where the console took it back too.
pub proof fn signing_out_is_local_first(clear_failure: Option<String>, revoke_failure: Option<String>, r: (Printed, i32))
    requires
        call_ensures(logout, (&clear_failure, &revoke_failure), r),
    ensures
        r.1 == 0 <==> clear_failure is None && revoke_failure is None,
        clear_failure is Some ==> r.1 == 1 && r.0@ == seq![(Channel::Error, clear_failure->0@)],
        clear_failure is None ==> r.0@.len() == 2 && r.0@[0] == (Channel::Status, "signed out on this machine"@),
        clear_failure is None && revoke_failure is Some ==> r.0@[1].0 == Channel::Error,
{
}

/// The `account` namespace.
pub open spec fn account_command() -> CommandView {
    cli::top("account"@, "Manage your RunAnywhere cloud account"@)
        .require_subcommand(1, 1)
}

/// The `account login` command.
pub open spec fn account_login_command() -> CommandView {
    cli::command("account"@, "login"@, "Sign in through the browser"@)
        .option(cli::flag("--no-browser"@, "Print the sign-in URL instead of opening it"@))
        .example("wally account login"@, ""@)
        .example("wally account login --no-browser"@, ""@)
        .action(Action::AccountLogin)
}

/// The `account logout` command.
pub open spec fn account_logout_command() -> CommandView {
    cli::command("account"@, "logout"@, "Sign out and revoke the session"@)
        .example("wally account logout"@, ""@)
        .action(Action::AccountLogout)
}

/// The `account whoami` command.
pub open spec fn account_whoami_command() -> CommandView {
    cli::command("account"@, "whoami"@, "Show the signed-in account"@)
        .option(cli::flag("--json"@, "Print as JSON"@))
        .example("wally account whoami"@, ""@)
        .example("wally --json account whoami"@, ""@)
        .action(Action::AccountWhoami)
}

/// Registers `account` and its verbs.
pub fn register_account(app: &mut App)
    ensures
        final(app)@ == old(app)@.push(account_command()).push(account_login_command()).push(account_logout_command()).push(account_whoami_command()),
{
    let mut cmd = Command::top("account", "Manage your RunAnywhere cloud account");
    cmd.require_subcommand(1, 1);
    app.add(cmd);
    let mut login_cmd = Command::new("account", "login", "Sign in through the browser");
    login_cmd.add_option(Opt::flag("--no-browser", "Print the sign-in URL instead of opening it"));
    login_cmd.example("wally account login", "");
    login_cmd.example("wally account login --no-browser", "");
    login_cmd.callback(Action::AccountLogin);
    app.add(login_cmd);
    let mut logout_cmd = Command::new("account", "logout", "Sign out and revoke the session");
    logout_cmd.example("wally account logout", "");
    logout_cmd.callback(Action::AccountLogout);
    app.add(logout_cmd);
    let mut whoami_cmd = Command::new("account", "whoami", "Show the signed-in account");
    whoami_cmd.add_option(Opt::flag("--json", "Print as JSON"));
    whoami_cmd.example("wally account whoami", "");
    whoami_cmd.example("wally --json account whoami", "");
    whoami_cmd.callback(Action::AccountWhoami);
    app.add(whoami_cmd);
}

} // verus!
