//! The account as the console reports it: credentials, usage totals and the
//! ledger of settled requests.

use vstd::prelude::*;

verus! {

/// A signed-in session, as it is saved between runs.
#[derive(Clone, Debug, Default)]
pub struct Credentials {
    pub console_url: String,
    pub access_token: String,
    pub refresh_token: String,
    pub expires_at: i64,
    pub email: String,
}

/// Fresh tokens from the console.
#[derive(Clone, Debug, Default)]
pub struct Grant {
    pub access_token: String,
    pub refresh_token: String,
    pub email: String,
    pub expires_in: i64,
}

/// How the console answered a request made for a session.
#[derive(Clone, Copy, Debug, PartialEq, Eq, Structural)]
pub enum IdentityResult {
    Accepted,
    Unauthorized,
    Failed,
}

#[derive(Clone, Copy, Debug, Default)]
pub struct UsageTotals {
    pub prompt_tokens: i64,
    pub completion_tokens: i64,
    pub cached_tokens: i64,
    pub cost_micros: i64,
}

#[derive(Clone, Debug, Default)]
pub struct UsageWindow {
    pub window: String,
    pub totals: UsageTotals,
}

#[derive(Clone, Copy, Debug, Default)]
pub struct Credit {
    pub balance_micros: i64,
    pub granted_micros: i64,
    pub spent_micros: i64,
}

#[derive(Clone, Debug, Default)]
pub struct Usage {
    pub credit: Credit,
    pub windows: Vec<UsageWindow>,
}

/// What the totals are asked for with.
#[derive(Clone, Copy, Debug, PartialEq, Eq, Structural)]
pub struct UsageQuery {
    pub days: i32,
    pub limit: i32,
}

/// One settled request of the ledger.
#[derive(Clone, Debug, Default)]
pub struct UsageRequestRow {
    pub request_id: String,
    pub response_request_id: String,
    pub model: String,
    pub status_code: i64,
    pub error_code: String,
    pub finish_reason: String,
    pub stream: bool,
    pub ts_start: String,
    pub prompt_tokens: i64,
    pub cached_tokens: i64,
    pub completion_tokens: i64,
    pub reasoning_tokens: i64,
    pub cost_micros: i64,
    pub ttft_ms: Option<i64>,
    pub pricing_version: String,
}

/// One page of the ledger; the totals cover the whole window.
#[derive(Clone, Debug, Default)]
pub struct UsageRequestsPage {
    pub as_of: String,
    pub requests: Vec<UsageRequestRow>,
    pub total_requests: i64,
    pub prompt_tokens: i64,
    pub cached_tokens: i64,
    pub noncached_prompt_tokens: i64,
    pub completion_tokens: i64,
    pub reasoning_tokens: i64,
    pub cost_micros: i64,
    pub next_cursor: String,
}

/// What a page of the ledger is asked for with.
#[derive(Clone, Debug, Default)]
pub struct UsageRequestsQuery {
    pub since: String,
    pub until: String,
    pub model: String,
    pub status_code: i32,
    pub response_request_id: String,
    pub limit: i32,
    pub cursor: String,
}

/// Whether two queries name the same window and filters; only the cursor may
/// differ.
pub open spec fn same_window_and_filters(a: UsageRequestsQuery, b: UsageRequestsQuery) -> bool {
    &&& a.since@ == b.since@
    &&& a.until@ == b.until@
    &&& a.model@ == b.model@
    &&& a.status_code == b.status_code
    &&& a.response_request_id@ == b.response_request_id@
    &&& a.limit == b.limit
}

} // verus!
