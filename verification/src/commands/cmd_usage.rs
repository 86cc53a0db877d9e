//! `wally account usage`: remaining credit and recent spend, or the settled
//! requests one by one.

use crate::account;
use crate::account::{
    Credentials, Grant, IdentityResult, Usage, UsageQuery, UsageRequestRow, UsageRequestsPage, UsageRequestsQuery,
    UsageWindow,
};
use crate::calendar;
use crate::cli;
use crate::cli::{Action, App, Command, CommandView, Opt, Validator, ValidatorView, ValueType};
use crate::money;
use crate::output;
use crate::output::{JsonWriter, Printed};
use crate::text;
use vstd::prelude::*;

verus! {

/// The first of `windows` that carries the label `id`.
pub open spec fn first_window(windows: Seq<UsageWindow>, id: Seq<char>) -> Option<UsageWindow>
    decreases windows.len(),
{
    if windows.len() == 0 {
        None
    } else if windows[0].window@ == id {
        Some(windows[0])
    } else {
        first_window(windows.skip(1), id)
    }
}

/// The window the console labelled `id`, or None when it sent none.
///
/// Nothing substitutes for a missing one: the overall totals cover days, so
/// showing them under an hour's heading would be a month's spend wearing an
/// hour's label.
pub fn window<'a>(usage: &'a Usage, id: &str) -> (r: Option<&'a UsageWindow>)
    ensures
        match r {
            Some(w) => first_window(usage.windows@, id@) == Some(*w),
            None => first_window(usage.windows@, id@) is None,
        },
{
    let mut i: usize = 0;
    assert(usage.windows@.skip(0) =~= usage.windows@);
    while i < usage.windows.len()
        invariant
            i <= usage.windows@.len(),
            first_window(usage.windows@, id@) == first_window(usage.windows@.skip(i as int), id@),
        decreases usage.windows@.len() - i,
    {
        assert(usage.windows@.skip(i as int)[0] == usage.windows@[i as int]);
        if text::str_eq(usage.windows[i].window.as_str(), id) {
            return Some(&usage.windows[i]);
        }
        assert(usage.windows@.skip(i as int).skip(1) =~= usage.windows@.skip(i + 1));
        i = i + 1;
    }
    None
}

/// The writes for one of the two windows of the JSON report.
pub open spec fn window_json(usage: Usage, id: Seq<char>) -> Seq<output::JsonOpView> {
    let found = first_window(usage.windows@, id);
    seq![
        output::begin_array_object(),
        output::field_str("window"@, id),
        output::field_bool("available"@, found is Some),
    ] + (match found {
        Some(w) => seq![
            output::field_i64("input_tokens"@, w.totals.prompt_tokens as int),
            output::field_i64("output_tokens"@, w.totals.completion_tokens as int),
            output::field_i64("cached_tokens"@, w.totals.cached_tokens as int),
            output::field_i64("cost_micros"@, w.totals.cost_micros as int),
        ],
        None => Seq::empty(),
    }) + seq![output::end_object()]
}

/// The JSON report: credit, then the hour and the day.
pub open spec fn usage_json(usage: Usage) -> Seq<output::JsonOpView> {
    seq![
        output::begin_object(),
        output::field_i64("balance_micros"@, usage.credit.balance_micros as int),
        output::field_i64("granted_micros"@, usage.credit.granted_micros as int),
        output::field_i64("spent_micros"@, usage.credit.spent_micros as int),
        output::begin_array("windows"@),
    ] + window_json(usage, "1h"@) + window_json(usage, "24h"@) + seq![
        output::end_array(),
        output::end_object(),
    ]
}

fn put_window_json(json: &mut JsonWriter, usage: &Usage, id: &str)
    ensures
        final(json)@ == old(json)@ + window_json(*usage, id@),
{
    let found = window(usage, id);
    json.begin_array_object();
    json.field_str("window", id);
    json.field_bool("available", found.is_some());
    if let Some(w) = found {
        json.field_i64("input_tokens", w.totals.prompt_tokens);
        json.field_i64("output_tokens", w.totals.completion_tokens);
        json.field_i64("cached_tokens", w.totals.cached_tokens);
        json.field_i64("cost_micros", w.totals.cost_micros);
    }
    json.end_object();
    assert(json@ =~= old(json)@ + window_json(*usage, id@));
}

/// The usage report as one JSON document.
pub fn print_json(usage: &Usage) -> (json: JsonWriter)
    ensures
        json@ == usage_json(*usage),
{
    let mut json = JsonWriter::new();
    json.begin_object();
    json.field_i64("balance_micros", usage.credit.balance_micros);
    json.field_i64("granted_micros", usage.credit.granted_micros);
    json.field_i64("spent_micros", usage.credit.spent_micros);
    json.begin_array("windows");
    put_window_json(&mut json, usage, "1h");
    put_window_json(&mut json, usage, "24h");
    json.end_array();
    json.end_object();
    assert(json@ =~= usage_json(*usage));
    json
}

/// One row of the summary table: a label and four right-aligned columns.
pub open spec fn summary_row(
    label: Seq<char>,
    a: Seq<char>,
    b: Seq<char>,
    c: Seq<char>,
    d: Seq<char>,
) -> Seq<char> {
    text::pad_end(label, 10) + " "@ + text::pad_start(a, ' ', 11) + " "@ + text::pad_start(b, ' ', 11)
        + " "@ + text::pad_start(c, ' ', 11) + " "@ + text::pad_start(d, ' ', 11)
}

fn summary_row_exec(label: &str, a: &str, b: &str, c: &str, d: &str) -> (r: String)
    ensures
        r@ == summary_row(label@, a@, b@, c@, d@),
{
    let mut r = text::pad_end_exec(label, 10);
    r.append(" ");
    r.append(text::pad_start_exec(a, ' ', 11).as_str());
    r.append(" ");
    r.append(text::pad_start_exec(b, ' ', 11).as_str());
    r.append(" ");
    r.append(text::pad_start_exec(c, ' ', 11).as_str());
    r.append(" ");
    r.append(text::pad_start_exec(d, ' ', 11).as_str());
    r
}

/// Whether the token counts of the window labelled `id` have a magnitude.
pub open spec fn window_counts_ok(usage: Usage, id: Seq<char>) -> bool {
    match first_window(usage.windows@, id) {
        Some(w) => w.totals.prompt_tokens != i64::MIN && w.totals.completion_tokens != i64::MIN
            && w.totals.cached_tokens != i64::MIN,
        None => true,
    }
}

/// The row of one window; dashes stand for totals the console did not send.
pub open spec fn window_row(usage: Usage, id: Seq<char>, label: Seq<char>) -> Seq<char> {
    match first_window(usage.windows@, id) {
        Some(w) => summary_row(
            label,
            money::grouped_text(w.totals.prompt_tokens as int),
            money::grouped_text(w.totals.completion_tokens as int),
            money::grouped_text(w.totals.cached_tokens as int),
            money::money_text(w.totals.cost_micros as int),
        ),
        None => summary_row(label, "-"@, "-"@, "-"@, "-"@),
    }
}

fn window_row_exec(usage: &Usage, id: &str, label: &str) -> (r: String)
    requires
        window_counts_ok(*usage, id@),
    ensures
        r@ == window_row(*usage, id@, label@),
{
    match window(usage, id) {
        None => summary_row_exec(label, "-", "-", "-", "-"),
        Some(w) => summary_row_exec(
            label,
            money::grouped(w.totals.prompt_tokens).as_str(),
            money::grouped(w.totals.completion_tokens).as_str(),
            money::grouped(w.totals.cached_tokens).as_str(),
            money::money(w.totals.cost_micros).as_str(),
        ),
    }
}

/// The summary: credit, the table of the hour and the day, and a note when the
/// console left one out.
pub open spec fn usage_report(usage: Usage) -> Seq<(output::Channel, Seq<char>)> {
    seq![
        output::result(
            "credit     "@ + money::money_text(usage.credit.balance_micros as int) + " left of "@
                + money::money_text(usage.credit.granted_micros as int) + " granted"@,
        ),
        output::result(Seq::empty()),
        output::result(summary_row("window"@, "input"@, "output"@, "cache"@, "spend"@)),
        output::result(window_row(usage, "1h"@, "past 1h"@)),
        output::result(window_row(usage, "24h"@, "past 24h"@)),
    ] + (if first_window(usage.windows@, "1h"@) is None || first_window(usage.windows@, "24h"@) is None {
        seq![
            output::result(Seq::empty()),
            output::status(
                "this console does not total by window yet; a dash is a number it did not send, not a zero"@,
            ),
        ]
    } else {
        Seq::empty()
    })
}

/// The usage report as lines.
pub fn print_report(usage: &Usage) -> (out: Printed)
    requires
        window_counts_ok(*usage, "1h"@),
        window_counts_ok(*usage, "24h"@),
    ensures
        out@ == usage_report(*usage),
{
    let mut out = Printed::new();
    out.result(
        text::cat5(
            "credit     ",
            money::money(usage.credit.balance_micros).as_str(),
            " left of ",
            money::money(usage.credit.granted_micros).as_str(),
            " granted",
        ),
    );
    out.result(String::new());
    out.result(summary_row_exec("window", "input", "output", "cache", "spend"));
    out.result(window_row_exec(usage, "1h", "past 1h"));
    out.result(window_row_exec(usage, "24h", "past 24h"));
    if window(usage, "1h").is_none() || window(usage, "24h").is_none() {
        out.result(String::new());
        out.status(
            text::owned(
                "this console does not total by window yet; a dash is a number it did not send, not a zero",
            ),
        );
    }
    assert(out@ =~= usage_report(*usage));
    out
}

proof fn first_window_is_the_first(windows: Seq<UsageWindow>, id: Seq<char>)
    ensures
        match first_window(windows, id) {
            Some(found) => exists|w: int|
                0 <= w < windows.len() && #[trigger] windows[w] == found && found.window@ == id && (forall|v: int|
                    0 <= v < w ==> (#[trigger] windows[v]).window@ != id),
            None => forall|v: int| 0 <= v < windows.len() ==> (#[trigger] windows[v]).window@ != id,
        },
    decreases windows.len(),
{
    if windows.len() > 0 {
        if windows[0].window@ == id {
            assert(windows[0] == first_window(windows, id)->0);
        } else {
            let rest = windows.skip(1);
            first_window_is_the_first(rest, id);
            match first_window(rest, id) {
                Some(found) => {
                    let w = choose|w: int|
                        0 <= w < rest.len() && #[trigger] rest[w] == found && found.window@ == id && (forall|v: int|
                            0 <= v < w ==> (#[trigger] rest[v]).window@ != id);
                    assert(windows[w + 1] == found);
                    assert forall|v: int| 0 <= v < w + 1 implies (#[trigger] windows[v]).window@ != id by {
                        if v > 0 {
                            assert(rest[v - 1] == windows[v]);
                        }
                    }
                },
                None => {
                    assert forall|v: int| 0 <= v < windows.len() implies (#[trigger] windows[v]).window@ != id by {
                        if v > 0 {
                            assert(rest[v - 1] == windows[v]);
                        }
                    }
                },
            }
        }
    }
}

/// Whether the window at `w` is the first that the console labelled `id`.
pub open spec fn is_the_window(usage: Usage, id: Seq<char>, w: int) -> bool {
    &&& 0 <= w < usage.windows@.len()
    &&& usage.windows@[w].window@ == id
    &&& forall|v: int| 0 <= v < w ==> (#[trigger] usage.windows@[v]).window@ != id
}

/// Whether the console sent no window labelled `id`.
pub open spec fn has_no_window(usage: Usage, id: Seq<char>) -> bool {
    forall|v: int| 0 <= v < usage.windows@.len() ==> (#[trigger] usage.windows@[v]).window@ != id
}

/// A label over ten columns, then each cell over a blank and eleven more.
pub open spec fn in_columns(label: Seq<char>, cells: Seq<Seq<char>>) -> Seq<char>
    decreases cells.len(),
{
    if cells.len() == 0 {
        text::pad_end(label, 10)
    } else {
        in_columns(label, cells.drop_last()) + seq![' '] + text::pad_start(cells.last(), ' ', 11)
    }
}

proof fn a_row_is_in_columns(label: Seq<char>, a: Seq<char>, b: Seq<char>, c: Seq<char>, d: Seq<char>)
    ensures
        summary_row(label, a, b, c, d) == in_columns(label, seq![a, b, c, d]),
{
    reveal_strlit(" ");
    reveal_with_fuel(in_columns, 5);
    assert(" "@ =~= seq![' ']);
    let cells = seq![a, b, c, d];
    assert(cells.drop_last() =~= seq![a, b, c]);
    assert(seq![a, b, c].drop_last() =~= seq![a, b]);
    assert(seq![a, b].drop_last() =~= seq![a]);
    assert(seq![a].drop_last() =~= Seq::empty());
    assert(in_columns(label, seq![a]) == text::pad_end(label, 10) + seq![' '] + text::pad_start(a, ' ', 11));
}

/// The totals of the past hour stand in the row of the past hour, and those of the
/// past day in the row of the past day: what the console sent under the label `1h`
/// is what the line of `past 1h` shows, column by column, and likewise for a day.
/// A row is dashes exactly where the console sent no such window, and only then is
/// a note put below.
pub proof fn each_window_is_shown_in_its_own_row(usage: Usage)
    ensures
        ({
            let lines = usage_report(usage);
            &&& lines.len() == if has_no_window(usage, "1h"@) || has_no_window(usage, "24h"@) {
                7int
            } else {
                5
            }
            &&& forall|i: int| 0 <= i < 5 ==> (#[trigger] lines[i]).0 == output::Channel::Result
            &&& lines[2].1 == in_columns("window"@, seq!["input"@, "output"@, "cache"@, "spend"@])
            &&& forall|w: int| #[trigger]
                is_the_window(usage, "1h"@, w) ==> lines[3].1 == in_columns(
                    "past 1h"@,
                    seq![
                        money::grouped_text(usage.windows@[w].totals.prompt_tokens as int),
                        money::grouped_text(usage.windows@[w].totals.completion_tokens as int),
                        money::grouped_text(usage.windows@[w].totals.cached_tokens as int),
                        money::money_text(usage.windows@[w].totals.cost_micros as int),
                    ],
                )
            &&& has_no_window(usage, "1h"@) ==> lines[3].1 == in_columns("past 1h"@, seq!["-"@, "-"@, "-"@, "-"@])
            &&& forall|w: int| #[trigger]
                is_the_window(usage, "24h"@, w) ==> lines[4].1 == in_columns(
                    "past 24h"@,
                    seq![
                        money::grouped_text(usage.windows@[w].totals.prompt_tokens as int),
                        money::grouped_text(usage.windows@[w].totals.completion_tokens as int),
                        money::grouped_text(usage.windows@[w].totals.cached_tokens as int),
                        money::money_text(usage.windows@[w].totals.cost_micros as int),
                    ],
                )
            &&& has_no_window(usage, "24h"@) ==> lines[4].1 == in_columns("past 24h"@, seq!["-"@, "-"@, "-"@, "-"@])
        }),
{
    let lines = usage_report(usage);
    let windows = usage.windows@;
    first_window_is_the_first(windows, "1h"@);
    first_window_is_the_first(windows, "24h"@);
    a_row_is_in_columns("window"@, "input"@, "output"@, "cache"@, "spend"@);
    a_row_is_in_columns("past 1h"@, "-"@, "-"@, "-"@, "-"@);
    a_row_is_in_columns("past 24h"@, "-"@, "-"@, "-"@, "-"@);
    assert forall|id: Seq<char>, w: int, label: Seq<char>| #[trigger]
        is_the_window(usage, id, w) implies #[trigger] window_row(usage, id, label) == in_columns(
        label,
        seq![
            money::grouped_text(usage.windows@[w].totals.prompt_tokens as int),
            money::grouped_text(usage.windows@[w].totals.completion_tokens as int),
            money::grouped_text(usage.windows@[w].totals.cached_tokens as int),
            money::money_text(usage.windows@[w].totals.cost_micros as int),
        ],
    ) by {
        first_window_is_the_first(windows, id);
        let t = windows[w].totals;
        a_row_is_in_columns(
            label,
            money::grouped_text(t.prompt_tokens as int),
            money::grouped_text(t.completion_tokens as int),
            money::grouped_text(t.cached_tokens as int),
            money::money_text(t.cost_micros as int),
        );
    }
    assert(lines[3].1 == window_row(usage, "1h"@, "past 1h"@));
    assert(lines[4].1 == window_row(usage, "24h"@, "past 24h"@));
}

/// The credit line names what is left before what was granted.
pub proof fn the_balance_comes_before_the_grant(usage: Usage)
    ensures
        ({
            let line = usage_report(usage)[0].1;
            let left = money::money_text(usage.credit.balance_micros as int);
            let granted = money::money_text(usage.credit.granted_micros as int);
            &&& line.skip(11).take(left.len() as int) == left
            &&& line.take(line.len() - 8).skip(line.len() - 8 - granted.len()) == granted
        }),
{
    reveal_strlit("credit     ");
    reveal_strlit(" left of ");
    reveal_strlit(" granted");
    let line = usage_report(usage)[0].1;
    let left = money::money_text(usage.credit.balance_micros as int);
    let granted = money::money_text(usage.credit.granted_micros as int);
    assert(line == "credit     "@ + left + " left of "@ + granted + " granted"@);
    assert(line.skip(11).take(left.len() as int) =~= left);
    assert(line.take(line.len() - 8).skip(line.len() - 8 - granted.len()) =~= granted);
}

/// The JSON report says under the label of a window what the console sent under
/// it, the hour before the day, and which of the two it did not send.
pub proof fn the_json_report_pairs_windows_and_labels(usage: Usage)
    ensures
        ({
            let ops = usage_json(usage);
            let day: int = if has_no_window(usage, "1h"@) {
                9
            } else {
                13
            };
            &&& ops[1] == output::field_i64("balance_micros"@, usage.credit.balance_micros as int)
            &&& ops[2] == output::field_i64("granted_micros"@, usage.credit.granted_micros as int)
            &&& ops[3] == output::field_i64("spent_micros"@, usage.credit.spent_micros as int)
            &&& ops[6] == output::field_str("window"@, "1h"@)
            &&& ops[7] == output::field_bool("available"@, !has_no_window(usage, "1h"@))
            &&& forall|w: int| #[trigger]
                is_the_window(usage, "1h"@, w) ==> {
                    let totals = usage.windows@[w].totals;
                    &&& ops[8] == output::field_i64("input_tokens"@, totals.prompt_tokens as int)
                    &&& ops[9] == output::field_i64("output_tokens"@, totals.completion_tokens as int)
                    &&& ops[10] == output::field_i64("cached_tokens"@, totals.cached_tokens as int)
                    &&& ops[11] == output::field_i64("cost_micros"@, totals.cost_micros as int)
                }
            &&& ops[day + 1] == output::field_str("window"@, "24h"@)
            &&& ops[day + 2] == output::field_bool("available"@, !has_no_window(usage, "24h"@))
            &&& forall|w: int| #[trigger]
                is_the_window(usage, "24h"@, w) ==> {
                    let totals = usage.windows@[w].totals;
                    &&& ops[day + 3] == output::field_i64("input_tokens"@, totals.prompt_tokens as int)
                    &&& ops[day + 4] == output::field_i64("output_tokens"@, totals.completion_tokens as int)
                    &&& ops[day + 5] == output::field_i64("cached_tokens"@, totals.cached_tokens as int)
                    &&& ops[day + 6] == output::field_i64("cost_micros"@, totals.cost_micros as int)
                }
        }),
{
    let ops = usage_json(usage);
    first_window_is_the_first(usage.windows@, "1h"@);
    first_window_is_the_first(usage.windows@, "24h"@);
    let hour = window_json(usage, "1h"@);
    let day = window_json(usage, "24h"@);
    assert(hour.len() == if has_no_window(usage, "1h"@) {
        4int
    } else {
        8
    });
    assert forall|i: int| 0 <= i < hour.len() implies ops[5 + i] == #[trigger] hour[i] by {}
    assert forall|i: int| 0 <= i < day.len() implies ops[5 + hour.len() + i] == #[trigger] day[i] by {}
    assert(hour[1] == output::field_str("window"@, "1h"@) && hour[2] == output::field_bool(
        "available"@,
        !has_no_window(usage, "1h"@),
    ));
    assert(day[1] == output::field_str("window"@, "24h"@) && day[2] == output::field_bool(
        "available"@,
        !has_no_window(usage, "24h"@),
    ));
    assert forall|w: int| #[trigger] is_the_window(usage, "1h"@, w) implies {
        let totals = usage.windows@[w].totals;
        &&& hour[3] == output::field_i64("input_tokens"@, totals.prompt_tokens as int)
        &&& hour[4] == output::field_i64("output_tokens"@, totals.completion_tokens as int)
        &&& hour[5] == output::field_i64("cached_tokens"@, totals.cached_tokens as int)
        &&& hour[6] == output::field_i64("cost_micros"@, totals.cost_micros as int)
    } by {}
    assert forall|w: int| #[trigger] is_the_window(usage, "24h"@, w) implies {
        let totals = usage.windows@[w].totals;
        &&& day[3] == output::field_i64("input_tokens"@, totals.prompt_tokens as int)
        &&& day[4] == output::field_i64("output_tokens"@, totals.completion_tokens as int)
        &&& day[5] == output::field_i64("cached_tokens"@, totals.cached_tokens as int)
        &&& day[6] == output::field_i64("cost_micros"@, totals.cost_micros as int)
    } by {}
}

/// The export refuses a window past this many days, so the flags stop there
/// instead of sending a request the console will answer with a refusal.
pub const MAX_REQUESTS_WINDOW_DAYS: i64 = 31;

/// A window is followed at most this many pages far, so a wrong filter cannot
/// turn one command into an unbounded crawl of the ledger.
pub const MAX_FOLLOWED_PAGES: usize = 100;

/// What `wally account usage --requests` was asked for.
#[derive(Clone, Debug)]
pub struct RequestsArgs {
    pub as_json: bool,
    /// Set only when `--days` was given: whether a window came from `--days` or
    /// from `--since`/`--until` decides which combinations are refused.
    pub days: Option<i64>,
    pub since: Option<String>,
    pub until: Option<String>,
    pub model: String,
    pub status_code: i32,
    pub response_request_id: String,
    pub cursor: String,
    pub limit: i32,
    pub follow: bool,
}

/// The `[since, until)` window of a request, or why none can be asked for.
pub open spec fn window_of(args: RequestsArgs, now: int) -> Result<(Seq<char>, Seq<char>), Seq<char>> {
    if args.until is Some && args.since is None {
        Err("--until needs --since; without it the window has no start"@)
    } else if args.cursor@.len() > 0 && (args.since is None || args.until is None) {
        Err("--cursor needs --since and --until: it only continues the window that issued it"@)
    } else if args.since is None {
        let days = if args.days is Some {
            args.days->0 as int
        } else {
            1
        };
        if 1 <= days <= MAX_REQUESTS_WINDOW_DAYS {
            Ok((calendar::instant_text(now - days * 86_400), calendar::instant_text(now)))
        } else {
            Err("--days must be between 1 and 31 (the export refuses a longer window)"@)
        }
    } else if args.days is Some {
        Err("--days cannot be combined with --since; name one or the other"@)
    } else {
        let since = args.since->0@;
        let until = if args.until is Some {
            args.until->0@
        } else {
            calendar::instant_text(now)
        };
        match (calendar::parse_instant(since), calendar::parse_instant(until)) {
            (None, _) => Err(calendar::not_an_instant(since)),
            (_, None) => Err(calendar::not_an_instant(until)),
            (Some(start), Some(end)) => if end <= start {
                Err("--until must be later than --since"@)
            } else if end - start > MAX_REQUESTS_WINDOW_DAYS * 86_400 {
                Err("the window is longer than 31 days, which the export refuses; narrow it"@)
            } else {
                Ok((since, until))
            },
        }
    }
}

/// A pair of strings or a message, as values.
pub open spec fn window_view(r: Result<(String, String), String>) -> Result<(Seq<char>, Seq<char>), Seq<char>> {
    match r {
        Ok(pair) => Ok((pair.0@, pair.1@)),
        Err(message) => Err(message@),
    }
}

/// The `[since, until)` window the request will ask for.
///
/// `--days` counts back from now. `--since`/`--until` name the window exactly,
/// which is what makes a page reproducible: the console only honours a cursor
/// for the same window and filters, so a window recomputed from "now" on every
/// run could never be continued.
pub fn resolve_window(args: &RequestsArgs, now: i64) -> (r: Result<(String, String), String>)
    requires
        i64::MIN + 31 * 86_400 <= now,
    ensures
        window_view(r) == window_of(*args, now as int),
{
    if args.until.is_some() && args.since.is_none() {
        return Err(text::owned("--until needs --since; without it the window has no start"));
    }
    if !args.cursor.as_str().is_empty() && (args.since.is_none() || args.until.is_none()) {
        return Err(
            text::owned(
                "--cursor needs --since and --until: it only continues the window that issued it",
            ),
        );
    }
    let since = match &args.since {
        None => {
            let days: i64 = match args.days {
                Some(d) => d,
                None => 1,
            };
            if days < 1 || days > MAX_REQUESTS_WINDOW_DAYS {
                return Err(
                    text::owned("--days must be between 1 and 31 (the export refuses a longer window)"),
                );
            }
            return Ok(
                (
                    calendar::format_epoch_seconds(now - days * calendar::SECONDS_PER_DAY),
                    calendar::format_epoch_seconds(now),
                ),
            );
        },
        Some(since) => since,
    };
    if args.days.is_some() {
        return Err(text::owned("--days cannot be combined with --since; name one or the other"));
    }
    let until = match &args.until {
        Some(until) => text::owned(until.as_str()),
        None => calendar::format_epoch_seconds(now),
    };
    let start: i64 = match calendar::parse_iso_instant(since.as_str()) {
        Ok(t) => t,
        Err(e) => return Err(e),
    };
    let end: i64 = match calendar::parse_iso_instant(until.as_str()) {
        Ok(t) => t,
        Err(e) => return Err(e),
    };
    if end <= start {
        return Err(text::owned("--until must be later than --since"));
    }
    if end - start > MAX_REQUESTS_WINDOW_DAYS * calendar::SECONDS_PER_DAY {
        return Err(
            text::owned("the window is longer than 31 days, which the export refuses; narrow it"),
        );
    }
    Ok((text::owned(since.as_str()), until))
}

/// A window pinned by `--since` and `--until` is sent as it was written: the
/// bounds of an accepted request are those texts, character for character.
pub proof fn pinned_window_is_sent_as_written(args: RequestsArgs, now: int)
    requires
        args.since is Some,
        args.until is Some,
        window_of(args, now) is Ok,
    ensures
        window_of(args, now) == Ok::<(Seq<char>, Seq<char>), Seq<char>>((args.since->0@, args.until->0@)),
{
}

/// No window longer than 31 days, none that is empty or backwards, and none
/// whose bounds lack a timezone is ever asked for, as long as the clock stands
/// between February 1970 and the year 10000.
pub proof fn asked_window_is_readable_and_bounded(args: RequestsArgs, now: int)
    requires
        31 * 86_400 < now < 253_402_300_800,
        window_of(args, now) is Ok,
    ensures
        ({
            let asked = window_of(args, now)->Ok_0;
            match (calendar::parse_instant(asked.0), calendar::parse_instant(asked.1)) {
                (Some(start), Some(end)) => start < end <= start + 31 * 86_400,
                _ => false,
            }
        }),
{
    calendar::parsing_inverts_the_formatter(now);
    if args.since is None {
        let days = if args.days is Some {
            args.days->0 as int
        } else {
            1
        };
        calendar::parsing_inverts_the_formatter(now - days * 86_400);
    }
}

/// A continued page names its window exactly: a cursor is only ever sent with
/// both bounds given.
pub proof fn a_cursor_comes_with_its_window(args: RequestsArgs, now: int)
    requires
        args.cursor@.len() > 0,
        window_of(args, now) is Ok,
    ensures
        args.since is Some,
        args.until is Some,
{
}

/// Flags that only mean something next to `--requests`, in the order the help
/// lists them. Given without it they would be silently ignored, and a filter
/// that does nothing reads as a report that was filtered.
pub const REQUESTS_ONLY_FLAGS: [&'static str; 9] = [
    "--days",
    "--since",
    "--until",
    "--model",
    "--status",
    "--response-request-id",
    "--cursor",
    "--limit",
    "--follow",
];

/// The flags among the first `n` of the list that were given.
pub open spec fn given_flags(given: Seq<bool>, n: int) -> Seq<Seq<char>>
    decreases n,
{
    if n <= 0 {
        Seq::empty()
    } else if given[n - 1] {
        given_flags(given, n - 1).push(REQUESTS_ONLY_FLAGS@[n - 1]@)
    } else {
        given_flags(given, n - 1)
    }
}

/// The flags a caller gave that only apply with `--requests`, in the order the
/// help lists them.
pub fn misplaced_flags<F: Fn(&str) -> bool>(given: F) -> (r: Vec<&'static str>)
    requires
        forall|flag: &str| call_requires(given, (flag,)),
    ensures
        exists|answers: Seq<bool>|
            #![trigger given_flags(answers, 9)]
            answers.len() == 9 && (forall|i: int|
                0 <= i < 9 ==> call_ensures(given, (REQUESTS_ONLY_FLAGS@[i],), #[trigger] answers[i]))
                && strs_view(r@) == given_flags(answers, 9),
{
    let mut r: Vec<&'static str> = Vec::new();
    let ghost mut answers: Seq<bool> = Seq::empty();
    let mut i: usize = 0;
    let flags = REQUESTS_ONLY_FLAGS;
    assert(strs_view(r@) =~= given_flags(answers, 0));
    while i < 9
        invariant
            i <= 9,
            flags == REQUESTS_ONLY_FLAGS,
            answers.len() == i,
            forall|flag: &str| call_requires(given, (flag,)),
            forall|k: int| 0 <= k < i ==> call_ensures(given, (REQUESTS_ONLY_FLAGS@[k],), #[trigger] answers[k]),
            strs_view(r@) == given_flags(answers, i as int),
        decreases 9 - i,
    {
        let flag = flags[i];
        let is_given = given(flag);
        let ghost before = answers;
        proof {
            answers = answers.push(is_given);
            given_flags_prefix(before, answers, i as int);
        }
        if is_given {
            let ghost old_r = r@;
            r.push(flag);
            assert(strs_view(r@) =~= strs_view(old_r).push(flag@));
        }
        i = i + 1;
    }
    r
}

/// String slices as values.
pub open spec fn strs_view(items: Seq<&'static str>) -> Seq<Seq<char>> {
    Seq::new(items.len(), |i: int| items[i]@)
}

proof fn given_flags_prefix(a: Seq<bool>, b: Seq<bool>, n: int)
    requires
        n <= a.len() <= b.len(),
        forall|k: int| 0 <= k < n ==> a[k] == b[k],
    ensures
        given_flags(a, n) == given_flags(b, n),
    decreases n,
{
    if n > 0 {
        given_flags_prefix(a, b, n - 1);
    }
}

/// The label under an errored row: the console's own error code, else `5xx`
/// for a server failure it did not name, else nothing worth a second line.
pub open spec fn error_label(row: UsageRequestRow) -> Option<Seq<char>> {
    if row.error_code@.len() > 0 {
        Some(row.error_code@)
    } else if row.status_code >= 500 {
        Some("5xx"@)
    } else {
        None
    }
}

/// See [`error_label`].
pub fn request_error(row: &UsageRequestRow) -> (r: Option<&str>)
    ensures
        match error_label(*row) {
            Some(label) => r is Some && r->0@ == label,
            None => r is None,
        },
{
    if !row.error_code.as_str().is_empty() {
        Some(row.error_code.as_str())
    } else if row.status_code >= 500 {
        Some("5xx")
    } else {
        None
    }
}

/// Whether every token count of the row has a magnitude.
pub open spec fn row_counts_ok(row: UsageRequestRow) -> bool {
    row.prompt_tokens != i64::MIN && row.completion_tokens != i64::MIN
}

pub open spec fn page_counts_ok(page: UsageRequestsPage) -> bool {
    page.total_requests != i64::MIN && page.prompt_tokens != i64::MIN && page.cached_tokens != i64::MIN
        && page.noncached_prompt_tokens != i64::MIN && page.completion_tokens != i64::MIN
        && page.reasoning_tokens != i64::MIN
}

/// The window totals over a table of `shown` rows.
pub open spec fn summary_of(page: UsageRequestsPage, since: Seq<char>, until: Seq<char>, shown: int) -> Seq<
    Seq<char>,
> {
    seq![
        "window     "@ + since + " to "@ + until,
        "requests   "@ + money::grouped_text(shown) + " of "@ + money::grouped_text(page.total_requests as int)
            + " settled (as of "@ + page.as_of@ + ")"@,
        "spend      "@ + money::money_text(page.cost_micros as int) + " over the window"@,
        "tokens     in "@ + money::grouped_text(page.prompt_tokens as int) + " (cache "@
            + money::grouped_text(page.cached_tokens as int) + ", fresh "@
            + money::grouped_text(page.noncached_prompt_tokens as int) + "), out "@
            + money::grouped_text(page.completion_tokens as int) + " (reasoning "@
            + money::grouped_text(page.reasoning_tokens as int) + ")"@,
    ]
}

/// The window totals. `shown` is how many rows this report carries, which is
/// the first page's rows or, under `--follow`, every page's.
pub fn requests_summary_lines(page: &UsageRequestsPage, since: &str, until: &str, shown: usize) -> (r: Vec<String>)
    requires
        page_counts_ok(*page),
        shown <= i64::MAX,
    ensures
        output::strings_view(r@) == summary_of(*page, since@, until@, shown as int),
{
    let window_line = text::cat4("window     ", since, " to ", until);
    let mut requests = text::cat4(
        "requests   ",
        money::grouped(shown as i64).as_str(),
        " of ",
        money::grouped(page.total_requests).as_str(),
    );
    requests.append(" settled (as of ");
    requests.append(page.as_of.as_str());
    requests.append(")");
    let spend = text::cat3("spend      ", money::money(page.cost_micros).as_str(), " over the window");
    let mut tokens = text::cat4(
        "tokens     in ",
        money::grouped(page.prompt_tokens).as_str(),
        " (cache ",
        money::grouped(page.cached_tokens).as_str(),
    );
    tokens.append(", fresh ");
    tokens.append(money::grouped(page.noncached_prompt_tokens).as_str());
    tokens.append("), out ");
    tokens.append(money::grouped(page.completion_tokens).as_str());
    tokens.append(" (reasoning ");
    tokens.append(money::grouped(page.reasoning_tokens).as_str());
    tokens.append(")");
    let r = vec![window_line, requests, spend, tokens];
    assert(output::strings_view(r@) =~= summary_of(*page, since@, until@, shown as int));
    r
}

/// One row of the request table.
pub open spec fn table_row(
    started: Seq<char>,
    model: Seq<char>,
    code: Seq<char>,
    input: Seq<char>,
    output: Seq<char>,
    ttft: Seq<char>,
    spend: Seq<char>,
    id: Seq<char>,
) -> Seq<char> {
    text::pad_end(started, 12) + " "@ + text::pad_end(model, 20) + " "@ + text::pad_start(code, ' ', 4) + " "@
        + text::pad_start(input, ' ', 11) + " "@ + text::pad_start(output, ' ', 11) + " "@ + text::pad_start(
        ttft,
        ' ',
        8,
    ) + " "@ + text::pad_start(spend, ' ', 8) + "  "@ + id
}

fn table_row_exec(
    started: &str,
    model: &str,
    code: &str,
    input: &str,
    output: &str,
    ttft: &str,
    spend: &str,
    id: &str,
) -> (r: String)
    ensures
        r@ == table_row(started@, model@, code@, input@, output@, ttft@, spend@, id@),
{
    let mut r = text::pad_end_exec(started, 12);
    r.append(" ");
    r.append(text::pad_end_exec(model, 20).as_str());
    r.append(" ");
    r.append(text::pad_start_exec(code, ' ', 4).as_str());
    r.append(" ");
    r.append(text::pad_start_exec(input, ' ', 11).as_str());
    r.append(" ");
    r.append(text::pad_start_exec(output, ' ', 11).as_str());
    r.append(" ");
    r.append(text::pad_start_exec(ttft, ' ', 8).as_str());
    r.append(" ");
    r.append(text::pad_start_exec(spend, ' ', 8).as_str());
    r.append("  ");
    r.append(id);
    r
}

/// The time of day of a ledger timestamp, or the whole of one too short to
/// hold it.
pub open spec fn started_text(ts_start: Seq<char>) -> Seq<char> {
    match text::byte_slice(ts_start, 11, 19) {
        Some(time) => time,
        None => ts_start,
    }
}

/// The line of one request. The id a client logged is preferred; the ledger's
/// own id stands in when there is none.
pub open spec fn request_line(row: UsageRequestRow) -> Seq<char> {
    table_row(
        started_text(row.ts_start@),
        row.model@,
        text::dec(row.status_code as int),
        money::grouped_text(row.prompt_tokens as int),
        money::grouped_text(row.completion_tokens as int),
        match row.ttft_ms {
            Some(ms) => text::dec(ms as int) + "ms"@,
            None => "-"@,
        },
        money::money_text(row.cost_micros as int),
        if row.response_request_id@.len() == 0 {
            row.request_id@
        } else {
            row.response_request_id@
        },
    )
}

/// The second line of an errored request.
pub open spec fn request_error_line(row: UsageRequestRow, label: Seq<char>) -> Seq<char> {
    text::pad_end(""@, 12) + " error: "@ + label + (if row.finish_reason@.len() == 0 {
        Seq::empty()
    } else {
        " ("@ + row.finish_reason@ + ")"@
    })
}

/// The lines of the first `n` requests.
pub open spec fn request_lines(rows: Seq<UsageRequestRow>, n: int) -> Seq<Seq<char>>
    decreases n,
{
    if n <= 0 {
        Seq::empty()
    } else {
        let row = rows[n - 1];
        let before = request_lines(rows, n - 1).push(request_line(row));
        match error_label(row) {
            Some(label) => before.push(request_error_line(row, label)),
            None => before,
        }
    }
}

/// The table: one header, then a row per request, plus a second line under any
/// row that errored.
pub open spec fn request_table(rows: Seq<UsageRequestRow>) -> Seq<Seq<char>> {
    if rows.len() == 0 {
        seq!["no settled requests in this window"@]
    } else {
        seq![
            table_row("started"@, "model"@, "code"@, "in"@, "out"@, "ttft"@, "spend"@, "request"@),
        ] + request_lines(rows, rows.len() as int)
    }
}

fn request_line_exec(row: &UsageRequestRow) -> (r: String)
    requires
        row_counts_ok(*row),
    ensures
        r@ == request_line(*row),
{
    let started = match text::byte_slice_exec(row.ts_start.as_str(), 11, 19) {
        Some(time) => time,
        None => text::owned(row.ts_start.as_str()),
    };
    let ttft = match row.ttft_ms {
        Some(ms) => text::cat2(text::dec_i64(ms).as_str(), "ms"),
        None => text::owned("-"),
    };
    let id = if row.response_request_id.as_str().is_empty() {
        row.request_id.as_str()
    } else {
        row.response_request_id.as_str()
    };
    table_row_exec(
        started.as_str(),
        row.model.as_str(),
        text::dec_i64(row.status_code).as_str(),
        money::grouped(row.prompt_tokens).as_str(),
        money::grouped(row.completion_tokens).as_str(),
        ttft.as_str(),
        money::money(row.cost_micros).as_str(),
        id,
    )
}

fn request_error_line_exec(row: &UsageRequestRow, label: &str) -> (r: String)
    ensures
        r@ == request_error_line(*row, label@),
{
    let mut r = text::pad_end_exec("", 12);
    r.append(" error: ");
    r.append(label);
    if !row.finish_reason.as_str().is_empty() {
        r.append(text::cat3(" (", row.finish_reason.as_str(), ")").as_str());
    }
    assert(r@ =~= request_error_line(*row, label@));
    r
}

/// See [`request_table`].
pub fn request_table_lines(rows: &[UsageRequestRow]) -> (r: Vec<String>)
    requires
        forall|i: int| 0 <= i < rows@.len() ==> row_counts_ok(#[trigger] rows@[i]),
    ensures
        output::strings_view(r@) == request_table(rows@),
{
    if rows.len() == 0 {
        let r = vec![text::owned("no settled requests in this window")];
        assert(output::strings_view(r@) =~= request_table(rows@));
        return r;
    }
    let header = table_row_exec("started", "model", "code", "in", "out", "ttft", "spend", "request");
    let mut r: Vec<String> = Vec::new();
    r.push(header);
    assert(output::strings_view(r@) =~= seq![header@] + request_lines(rows@, 0));
    let mut i: usize = 0;
    while i < rows.len()
        invariant
            i <= rows@.len(),
            forall|k: int| 0 <= k < rows@.len() ==> row_counts_ok(#[trigger] rows@[k]),
            output::strings_view(r@) == seq![header@] + request_lines(rows@, i as int),
        decreases rows@.len() - i,
    {
        let row = &rows[i];
        let line = request_line_exec(row);
        let ghost before = r@;
        r.push(line);
        assert(output::strings_view(r@) =~= output::strings_view(before).push(line@));
        if let Some(label) = request_error(row) {
            let second = request_error_line_exec(row, label);
            let ghost with_line = r@;
            r.push(second);
            assert(output::strings_view(r@) =~= output::strings_view(with_line).push(second@));
        }
        i = i + 1;
        assert(output::strings_view(r@) =~= seq![header@] + request_lines(rows@, i as int));
    }
    r
}

/// The writes for one row of the ledger.
pub open spec fn row_json(row: UsageRequestRow) -> Seq<output::JsonOpView> {
    seq![
        output::begin_array_object(),
        output::field_str("request_id"@, row.request_id@),
        output::field_str("response_request_id"@, row.response_request_id@),
        output::field_str("model"@, row.model@),
        output::field_i64("status_code"@, row.status_code as int),
        output::field_str("error_code"@, row.error_code@),
        output::field_str("finish_reason"@, row.finish_reason@),
        output::field_bool("stream"@, row.stream),
        output::field_str("ts_start"@, row.ts_start@),
        output::field_i64("prompt_tokens"@, row.prompt_tokens as int),
        output::field_i64("cached_tokens"@, row.cached_tokens as int),
        output::field_i64("completion_tokens"@, row.completion_tokens as int),
        output::field_i64("reasoning_tokens"@, row.reasoning_tokens as int),
        output::field_i64("cost_micros"@, row.cost_micros as int),
        // An absent latency is -1: never 0, which would claim the engine
        // answered instantly.
        output::field_i64(
            "ttft_ms"@,
            match row.ttft_ms {
                Some(ms) => ms as int,
                None => -1,
            },
        ),
        output::field_str("pricing_version"@, row.pricing_version@),
        output::end_object(),
    ]
}

/// The writes for the first `n` rows.
pub open spec fn rows_json(rows: Seq<UsageRequestRow>, n: int) -> Seq<output::JsonOpView>
    decreases n,
{
    if n <= 0 {
        Seq::empty()
    } else {
        rows_json(rows, n - 1) + row_json(rows[n - 1])
    }
}

/// One page as a document. The window comes back with it: a cursor is only
/// good for this exact window and filter set.
pub open spec fn requests_json(page: UsageRequestsPage, since: Seq<char>, until: Seq<char>) -> Seq<
    output::JsonOpView,
> {
    seq![
        output::begin_object(),
        output::field_str("since"@, since),
        output::field_str("until"@, until),
        output::field_str("as_of"@, page.as_of@),
        output::field_i64("requests"@, page.requests@.len() as int),
        output::field_i64("total_requests"@, page.total_requests as int),
        output::field_i64("prompt_tokens"@, page.prompt_tokens as int),
        output::field_i64("cached_tokens"@, page.cached_tokens as int),
        output::field_i64("noncached_prompt_tokens"@, page.noncached_prompt_tokens as int),
        output::field_i64("completion_tokens"@, page.completion_tokens as int),
        output::field_i64("reasoning_tokens"@, page.reasoning_tokens as int),
        output::field_i64("cost_micros"@, page.cost_micros as int),
        output::begin_array("rows"@),
    ] + rows_json(page.requests@, page.requests@.len() as int) + seq![output::end_array()] + (if page.next_cursor@.len()
        > 0 {
        seq![output::field_str("next_cursor"@, page.next_cursor@)]
    } else {
        Seq::empty()
    }) + seq![output::end_object()]
}

fn put_row_json(json: &mut JsonWriter, row: &UsageRequestRow)
    ensures
        final(json)@ == old(json)@ + row_json(*row),
{
    json.begin_array_object();
    json.field_str("request_id", row.request_id.as_str());
    json.field_str("response_request_id", row.response_request_id.as_str());
    json.field_str("model", row.model.as_str());
    json.field_i64("status_code", row.status_code);
    json.field_str("error_code", row.error_code.as_str());
    json.field_str("finish_reason", row.finish_reason.as_str());
    json.field_bool("stream", row.stream);
    json.field_str("ts_start", row.ts_start.as_str());
    json.field_i64("prompt_tokens", row.prompt_tokens);
    json.field_i64("cached_tokens", row.cached_tokens);
    json.field_i64("completion_tokens", row.completion_tokens);
    json.field_i64("reasoning_tokens", row.reasoning_tokens);
    json.field_i64("cost_micros", row.cost_micros);
    json.field_i64(
        "ttft_ms",
        match row.ttft_ms {
            Some(ms) => ms,
            None => -1,
        },
    );
    json.field_str("pricing_version", row.pricing_version.as_str());
    json.end_object();
    assert(json@ =~= old(json)@ + row_json(*row));
}

/// One page of settled requests as one JSON document.
pub fn print_requests_json(page: &UsageRequestsPage, since: &str, until: &str) -> (json: JsonWriter)
    requires
        page.requests@.len() <= i64::MAX,
    ensures
        json@ == requests_json(*page, since@, until@),
{
    let mut json = JsonWriter::new();
    json.begin_object();
    json.field_str("since", since);
    json.field_str("until", until);
    json.field_str("as_of", page.as_of.as_str());
    json.field_i64("requests", page.requests.len() as i64);
    json.field_i64("total_requests", page.total_requests);
    json.field_i64("prompt_tokens", page.prompt_tokens);
    json.field_i64("cached_tokens", page.cached_tokens);
    json.field_i64("noncached_prompt_tokens", page.noncached_prompt_tokens);
    json.field_i64("completion_tokens", page.completion_tokens);
    json.field_i64("reasoning_tokens", page.reasoning_tokens);
    json.field_i64("cost_micros", page.cost_micros);
    json.begin_array("rows");
    let ghost head = json@;
    assert(head + rows_json(page.requests@, 0) =~= head);
    let mut i: usize = 0;
    while i < page.requests.len()
        invariant
            i <= page.requests@.len(),
            json@ == head + rows_json(page.requests@, i as int),
        decreases page.requests@.len() - i,
    {
        put_row_json(&mut json, &page.requests[i]);
        i = i + 1;
        assert(json@ =~= head + rows_json(page.requests@, i as int));
    }
    json.end_array();
    if !page.next_cursor.as_str().is_empty() {
        json.field_str("next_cursor", page.next_cursor.as_str());
    }
    json.end_object();
    assert(json@ =~= requests_json(*page, since@, until@));
    json
}

/// How long fresh tokens are good for; an hour when the console does not say.
pub open spec fn grant_lifetime(grant: Grant) -> int {
    if grant.expires_in > 0 {
        grant.expires_in as int
    } else {
        3600
    }
}

/// The session after a grant: the new access token, the new refresh token if
/// one came, and the end of its life counted from `now` (or the end of time,
/// where that cannot be written).
pub open spec fn is_granted(before: Credentials, grant: Grant, now: int, after: Credentials) -> bool {
    &&& after.access_token@ == grant.access_token@
    &&& after.refresh_token@ == if grant.refresh_token@.len() > 0 {
        grant.refresh_token@
    } else {
        before.refresh_token@
    }
    &&& after.expires_at == if now + grant_lifetime(grant) <= i64::MAX {
        now + grant_lifetime(grant)
    } else {
        i64::MAX as int
    }
    &&& after.console_url@ == before.console_url@
    &&& after.email@ == before.email@
}

/// Takes over the tokens of a grant.
pub fn apply_grant(credentials: &mut Credentials, grant: Grant, now: i64)
    requires
        0 <= now,
    ensures
        is_granted(*old(credentials), grant, now as int, *final(credentials)),
{
    let lifetime: i64 = if grant.expires_in > 0 { grant.expires_in } else { 3600 };
    credentials.access_token = grant.access_token;
    if !grant.refresh_token.as_str().is_empty() {
        credentials.refresh_token = grant.refresh_token;
    }
    credentials.expires_at = match now.checked_add(lifetime) {
        Some(t) => t,
        None => i64::MAX,
    };
}

/// Refreshes a session: `ask` trades the refresh token for a grant and `save`
/// keeps the result. A session without a refresh token asks nothing.
pub fn refresh_session<A, S>(credentials: &mut Credentials, now: i64, ask: A, save: S) -> (r: Result<(), String>)
    where
        A: Fn(&str, &str) -> Result<Grant, String>,
        S: Fn(&Credentials) -> Result<(), String>,

    requires
        0 <= now,
        forall|url: &str, token: &str| call_requires(ask, (url, token)),
        forall|c: &Credentials| call_requires(save, (c,)),
    ensures
        old(credentials).refresh_token@.len() == 0 ==> r is Err && r->Err_0@ == no_refresh()
            && *final(credentials) == *old(credentials),
        old(credentials).refresh_token@.len() > 0 ==> exists|url: &str, token: &str, answer: Result<Grant, String>|
            #![trigger call_ensures(ask, (url, token), answer)]
            call_ensures(ask, (url, token), answer) && url@ == old(credentials).console_url@ && token@ == old(
                credentials,
            ).refresh_token@ && match answer {
                Ok(grant) => is_granted(*old(credentials), grant, now as int, *final(credentials)) && call_ensures(
                    save,
                    (&*final(credentials),),
                    r,
                ),
                Err(message) => r == Err::<(), String>(message) && *final(credentials) == *old(credentials),
            },
{
    if credentials.refresh_token.as_str().is_empty() {
        return Err(
            text::owned("the cloud session cannot be refreshed; run `wally account login`"),
        );
    }
    let answer = ask(credentials.console_url.as_str(), credentials.refresh_token.as_str());
    match answer {
        Err(message) => Err(message),
        Ok(grant) => {
            apply_grant(credentials, grant, now);
            save(credentials)
        },
    }
}

pub open spec fn no_refresh() -> Seq<char> {
    "the cloud session cannot be refreshed; run `wally account login`"@
}

/// What came back for one request to the console: how it answered, the document
/// when it accepted, and the reason when it did not.
pub type Reply<T> = (IdentityResult, T, String);

pub open spec fn session_rejected(reason: Seq<char>) -> Seq<char> {
    "the console rejected this session ("@ + reason + "); run `wally account login`"@
}

/// What a reply amounts to when no more can be done about it.
pub open spec fn is_reply_outcome<T>(reply: Reply<T>, r: Result<T, String>) -> bool {
    if reply.0 == IdentityResult::Accepted {
        r == Ok::<T, String>(reply.1)
    } else {
        r == Err::<T, String>(reply.2)
    }
}

/// What asking the console amounts to: one request; after a rejected session
/// one refresh and, when that worked, one more request. A refresh gives back the
/// session as it then stands, which holds the new tokens even where only saving
/// them failed.
pub open spec fn is_asked<Q, T, F, R>(
    fetch: F,
    refresh: R,
    before: Credentials,
    query: Q,
    after: Credentials,
    r: Result<T, String>,
) -> bool where
    F: Fn(&Credentials, &Q) -> Reply<T>,
    R: Fn(&Credentials) -> (Credentials, Result<(), String>),
 {
    exists|first: Reply<T>| #[trigger]
        call_ensures(fetch, (&before, &query), first) && if first.0 != IdentityResult::Unauthorized {
            after == before && is_reply_outcome(first, r)
        } else {
            exists|answer: (Credentials, Result<(), String>)| #[trigger]
                call_ensures(refresh, (&before,), answer) && after == answer.0 && match answer.1 {
                    Err(reason) => r is Err && r->Err_0@ == session_rejected(reason@),
                    Ok(_) => exists|second: Reply<T>| #[trigger]
                        call_ensures(fetch, (&after, &query), second) && is_reply_outcome(second, r),
                }
        }
}

/// One document from the console, with a single retry: a rejected session is
/// answered by refreshing it once and asking again.
///
/// A rejection does not say "expired": the console answers unknown, revoked,
/// expired and malformed alike, so the message names the refusal only.
pub fn fetch_with_refresh<Q, T, F, R>(fetch: F, refresh: R, credentials: &mut Credentials, query: &Q) -> (r: Result<
    T,
    String,
>) where F: Fn(&Credentials, &Q) -> Reply<T>, R: Fn(&Credentials) -> (Credentials, Result<(), String>)
    requires
        forall|c: &Credentials, q: &Q| call_requires(fetch, (c, q)),
        forall|c: &Credentials| call_requires(refresh, (c,)),
    ensures
        is_asked(fetch, refresh, *old(credentials), *query, *final(credentials), r),
{
    let first = fetch(credentials, query);
    if first.0 == IdentityResult::Unauthorized {
        let answer = refresh(credentials);
        *credentials = answer.0;
        match answer.1 {
            Err(reason) => {
                return Err(
                    text::cat3(
                        "the console rejected this session (",
                        reason.as_str(),
                        "); run `wally account login`",
                    ),
                );
            },
            Ok(_) => {
                let second = fetch(credentials, query);
                return reply_outcome(second);
            },
        }
    }
    reply_outcome(first)
}

fn reply_outcome<T>(reply: Reply<T>) -> (r: Result<T, String>)
    ensures
        is_reply_outcome(reply, r),
{
    if reply.0 == IdentityResult::Accepted {
        Ok(reply.1)
    } else {
        Err(reply.2)
    }
}

/// One page of settled requests; see [`fetch_with_refresh`].
pub fn fetch_requests_page<F, R>(
    fetch: F,
    refresh: R,
    credentials: &mut Credentials,
    query: &UsageRequestsQuery,
) -> (r: Result<UsageRequestsPage, String>) where
    F: Fn(&Credentials, &UsageRequestsQuery) -> Reply<UsageRequestsPage>,
    R: Fn(&Credentials) -> (Credentials, Result<(), String>),

    requires
        forall|c: &Credentials, q: &UsageRequestsQuery| call_requires(fetch, (c, q)),
        forall|c: &Credentials| call_requires(refresh, (c,)),
    ensures
        is_asked(fetch, refresh, *old(credentials), *query, *final(credentials), r),
{
    fetch_with_refresh(fetch, refresh, credentials, query)
}

/// The summary's query: one day back, and the shortest page of recent requests
/// the route accepts, since nothing renders those.
pub fn summary_query() -> (q: UsageQuery)
    ensures
        q.days == 1,
        q.limit == 1,
{
    UsageQuery { days: 1, limit: 1 }
}

/// The usage totals of an account; see [`fetch_with_refresh`].
pub fn fetch_usage<F, R>(fetch: F, refresh: R, credentials: &mut Credentials) -> (r: Result<Usage, String>) where
    F: Fn(&Credentials, &UsageQuery) -> Reply<Usage>,
    R: Fn(&Credentials) -> (Credentials, Result<(), String>),

    requires
        forall|c: &Credentials, q: &UsageQuery| call_requires(fetch, (c, q)),
        forall|c: &Credentials| call_requires(refresh, (c,)),
    ensures
        is_asked(
            fetch,
            refresh,
            *old(credentials),
            (UsageQuery { days: 1, limit: 1 }),
            *final(credentials),
            r,
        ),
{
    let query = summary_query();
    fetch_with_refresh(fetch, refresh, credentials, &query)
}

/// The pages read after the first, each with the query it was read by.
pub type Trail = Seq<(UsageRequestsQuery, UsageRequestsPage)>;

/// The cursor in hand after the pages of `trail`.
pub open spec fn trail_cursor(first_cursor: Seq<char>, trail: Trail) -> Seq<char> {
    if trail.len() == 0 {
        first_cursor
    } else {
        trail.last().1.next_cursor@
    }
}

/// The rows in hand after the pages of `trail`.
pub open spec fn trail_rows(first_rows: Seq<UsageRequestRow>, trail: Trail) -> Seq<UsageRequestRow>
    decreases trail.len(),
{
    if trail.len() == 0 {
        first_rows
    } else {
        trail_rows(first_rows, trail.drop_last()) + trail.last().1.requests@
    }
}

/// Whether the page at `i` of a trail was read as it must be: asked for with the
/// window and filters of `query` and with the cursor that the page before it
/// handed out, which is not empty and not the one just used.
pub open spec fn is_followed_page<F>(
    fetch: F,
    query: UsageRequestsQuery,
    first_cursor: Seq<char>,
    trail: Trail,
    i: int,
) -> bool where F: Fn(&UsageRequestsQuery) -> Result<UsageRequestsPage, String> {
    &&& account::same_window_and_filters(trail[i].0, query)
    &&& trail[i].0.cursor@ == trail_cursor(first_cursor, trail.take(i))
    &&& trail[i].0.cursor@.len() > 0
    &&& trail[i].0.cursor@ != if i == 0 {
        query.cursor@
    } else {
        trail[i - 1].0.cursor@
    }
    &&& call_ensures(
        fetch,
        (&trail[i].0,),
        Ok::<UsageRequestsPage, String>(trail[i].1),
    )
}

pub open spec fn is_trail<F>(
    fetch: F,
    query: UsageRequestsQuery,
    first_cursor: Seq<char>,
    trail: Trail,
) -> bool where F: Fn(&UsageRequestsQuery) -> Result<UsageRequestsPage, String> {
    forall|i: int| 0 <= i < trail.len() ==> #[trigger] is_followed_page(fetch, query, first_cursor, trail, i)
}

pub open spec fn too_many_pages() -> Seq<char> {
    "the window has more than 100 pages; narrow it with --since/--until or a filter"@
}

pub open spec fn cursor_repeated() -> Seq<char> {
    "the console returned the same page cursor twice; stopping"@
}

/// Whether following stops with `message` after `trail`: at the cap, at a
/// cursor handed out twice in a row, or at a page that could not be read.
pub open spec fn is_follow_failure<F>(
    fetch: F,
    query: UsageRequestsQuery,
    first_cursor: Seq<char>,
    trail: Trail,
    message: String,
) -> bool where F: Fn(&UsageRequestsQuery) -> Result<UsageRequestsPage, String> {
    let cursor = trail_cursor(first_cursor, trail);
    let used = if trail.len() == 0 {
        query.cursor@
    } else {
        trail.last().0.cursor@
    };
    &&& cursor.len() > 0
    &&& if trail.len() + 1 >= MAX_FOLLOWED_PAGES {
        message@ == too_many_pages()
    } else if cursor == used {
        message@ == cursor_repeated()
    } else {
        exists|q: UsageRequestsQuery|
            account::same_window_and_filters(q, query) && q.cursor@ == cursor && #[trigger] call_ensures(
                fetch,
                (&q,),
                Err::<UsageRequestsPage, String>(message),
            )
    }
}

/// Reads pages after the first until the console stops handing out a cursor.
/// Every page repeats the first page's window and filters, which is what the
/// console requires of a cursor. A failure part-way is an error and never a
/// report that looks complete.
pub fn follow_pages<F>(
    fetch: F,
    query: &mut UsageRequestsQuery,
    first_rows: Vec<UsageRequestRow>,
    first_cursor: String,
) -> (r: Result<(Vec<UsageRequestRow>, String), String>) where
    F: Fn(&UsageRequestsQuery) -> Result<UsageRequestsPage, String>,

    requires
        forall|q: &UsageRequestsQuery| call_requires(fetch, (q,)),
    ensures
        account::same_window_and_filters(*final(query), *old(query)),
        exists|trail: Trail|
            #[trigger] is_trail(fetch, *old(query), first_cursor@, trail) && trail.len() < MAX_FOLLOWED_PAGES && match r {
                Ok(read) => trail_cursor(first_cursor@, trail).len() == 0 && read.1@.len() == 0 && read.0@ == trail_rows(
                    first_rows@,
                    trail,
                ),
                Err(message) => is_follow_failure(fetch, *old(query), first_cursor@, trail, message),
            },
{
    let ghost start = *query;
    let ghost mut trail: Trail = Seq::empty();
    let ghost opening = first_cursor@;
    let ghost opening_rows = first_rows@;
    let mut rows = first_rows;
    let mut cursor = first_cursor;
    let mut pages: usize = 1;
    while !cursor.as_str().is_empty()
        invariant
            forall|q: &UsageRequestsQuery| call_requires(fetch, (q,)),
            start == *old(query),
            opening == first_cursor@,
            opening_rows == first_rows@,
            is_trail(fetch, start, opening, trail),
            trail.len() + 1 == pages,
            pages <= MAX_FOLLOWED_PAGES,
            rows@ == trail_rows(opening_rows, trail),
            cursor@ == trail_cursor(opening, trail),
            account::same_window_and_filters(*query, start),
            query.cursor@ == if trail.len() == 0 {
                start.cursor@
            } else {
                trail.last().0.cursor@
            },
        decreases MAX_FOLLOWED_PAGES - pages,
    {
        if pages >= MAX_FOLLOWED_PAGES {
            return Err(
                text::owned(
                    "the window has more than 100 pages; narrow it with --since/--until or a filter",
                ),
            );
        }
        if text::str_eq(cursor.as_str(), query.cursor.as_str()) {
            return Err(text::owned("the console returned the same page cursor twice; stopping"));
        }
        query.cursor = cursor;
        let ghost asked = *query;
        let answer = fetch(query);
        match answer {
            Err(message) => {
                return Err(message);
            },
            Ok(page) => {
                let ghost read = page;
                let ghost before = trail;
                let mut fresh = page.requests;
                rows.append(&mut fresh);
                cursor = page.next_cursor;
                pages = pages + 1;
                proof {
                    trail = before.push((asked, read));
                    assert(trail.drop_last() =~= before);
                    assert forall|i: int| 0 <= i < trail.len() implies #[trigger] is_followed_page(
                        fetch,
                        start,
                        opening,
                        trail,
                        i,
                    ) by {
                        if i < before.len() {
                            assert(is_followed_page(fetch, start, opening, before, i));
                            assert(trail.take(i) =~= before.take(i));
                        } else {
                            assert(trail.take(i) =~= before);
                        }
                    }
                }
            },
        }
    }
    Ok((rows, cursor))
}

/// What the usage command does with the flags it was given.
#[derive(Debug)]
pub enum UsagePlan {
    Refuse(String),
    Summary,
    Requests,
}

/// The flags joined by commas.
pub open spec fn comma_joined(items: Seq<Seq<char>>, n: int) -> Seq<char>
    decreases n,
{
    if n <= 0 {
        Seq::empty()
    } else if n == 1 {
        items[0]
    } else {
        comma_joined(items, n - 1) + ", "@ + items[n - 1]
    }
}

/// The items of a list joined by commas.
pub fn join_comma(items: &Vec<&'static str>) -> (r: String)
    ensures
        r@ == comma_joined(strs_view(items@), items@.len() as int),
{
    let mut r = String::new();
    let mut i: usize = 0;
    while i < items.len()
        invariant
            i <= items@.len(),
            r@ == comma_joined(strs_view(items@), i as int),
        decreases items@.len() - i,
    {
        if i > 0 {
            r.append(", ");
        }
        r.append(items[i]);
        i = i + 1;
        assert(r@ =~= comma_joined(strs_view(items@), i as int));
    }
    r
}

/// Decides what `wally account usage` does: `misplaced` are the flags given
/// that only apply with `--requests`.
pub fn plan_usage(requests: bool, follow: bool, as_json: bool, misplaced: &Vec<&'static str>) -> (r: UsagePlan)
    ensures
        match r {
            UsagePlan::Refuse(message) => if requests {
                follow && as_json && message@
                    == "--follow cannot be combined with --json: JSON is one page, and next_cursor is how you read the next"@
            } else {
                misplaced@.len() > 0 && message@ == comma_joined(strs_view(misplaced@), misplaced@.len() as int)
                    + " only applies with --requests"@
            },
            UsagePlan::Summary => !requests && misplaced@.len() == 0,
            UsagePlan::Requests => requests && !(follow && as_json),
        },
{
    if !requests {
        if misplaced.len() > 0 {
            return UsagePlan::Refuse(
                text::cat2(join_comma(misplaced).as_str(), " only applies with --requests"),
            );
        }
        return UsagePlan::Summary;
    }
    if follow && as_json {
        return UsagePlan::Refuse(
            text::owned(
                "--follow cannot be combined with --json: JSON is one page, and next_cursor is how you read the next",
            ),
        );
    }
    UsagePlan::Requests
}

/// Why a loaded session cannot be used, if it cannot.
pub fn session_problem(loaded: &Result<Credentials, String>, signed_in: bool) -> (r: Option<String>)
    ensures
        match loaded {
            Err(failure) => r is Some && r->0@ == failure@,
            Ok(_) => if signed_in {
                r is None
            } else {
                r is Some && r->0@ == "not signed in — run `wally account login`"@
            },
        },
{
    match loaded {
        Err(failure) => Some(text::owned(failure.as_str())),
        Ok(_) => if signed_in {
            None
        } else {
            Some(text::owned("not signed in — run `wally account login`"))
        },
    }
}

/// The first page's query: the resolved window and the filters as given.
pub fn requests_query(args: &RequestsArgs, since: String, until: String) -> (q: UsageRequestsQuery)
    ensures
        q.since@ == since@,
        q.until@ == until@,
        q.model@ == args.model@,
        q.status_code == args.status_code,
        q.response_request_id@ == args.response_request_id@,
        q.limit == args.limit,
        q.cursor@ == args.cursor@,
{
    UsageRequestsQuery {
        since,
        until,
        model: text::owned(args.model.as_str()),
        status_code: args.status_code,
        response_request_id: text::owned(args.response_request_id.as_str()),
        limit: args.limit,
        cursor: text::owned(args.cursor.as_str()),
    }
}

/// Text lines put on the result channel.
pub open spec fn result_lines(lines: Seq<Seq<char>>) -> Seq<(output::Channel, Seq<char>)> {
    Seq::new(lines.len(), |i: int| output::result(lines[i]))
}

/// The report on settled requests: the summary, the table, and a hint while
/// rows are left unread.
pub open spec fn requests_report(
    page: UsageRequestsPage,
    since: Seq<char>,
    until: Seq<char>,
    rows: Seq<UsageRequestRow>,
    unread_cursor: Seq<char>,
) -> Seq<(output::Channel, Seq<char>)> {
    result_lines(summary_of(page, since, until, rows.len() as int)) + seq![output::result(Seq::empty())]
        + result_lines(request_table(rows)) + seq![output::result(Seq::empty())] + (if unread_cursor.len() > 0 {
        seq![output::status("more rows exist; pass --follow to read every page"@)]
    } else {
        Seq::empty()
    })
}

fn put_lines(out: &mut Printed, lines: &Vec<String>)
    ensures
        final(out)@ == old(out)@ + result_lines(output::strings_view(lines@)),
{
    let mut i: usize = 0;
    let ghost all = result_lines(output::strings_view(lines@));
    assert(all.take(0) =~= Seq::empty());
    assert(old(out)@ + all.take(0) =~= old(out)@);
    while i < lines.len()
        invariant
            i <= lines@.len(),
            all == result_lines(output::strings_view(lines@)),
            out@ == old(out)@ + all.take(i as int),
        decreases lines@.len() - i,
    {
        out.result(text::owned(lines[i].as_str()));
        i = i + 1;
        assert(out@ =~= old(out)@ + all.take(i as int));
    }
    assert(all.take(lines@.len() as int) =~= all);
}

/// The report on the rows that were read, under the totals of the first page.
pub fn print_requests_report(
    page: &UsageRequestsPage,
    since: &str,
    until: &str,
    rows: &Vec<UsageRequestRow>,
    unread_cursor: &str,
) -> (out: Printed)
    requires
        page_counts_ok(*page),
        rows@.len() <= i64::MAX,
        forall|i: int| 0 <= i < rows@.len() ==> row_counts_ok(#[trigger] rows@[i]),
    ensures
        out@ == requests_report(*page, since@, until@, rows@, unread_cursor@),
{
    let mut out = Printed::new();
    put_lines(&mut out, &requests_summary_lines(page, since, until, rows.len()));
    out.result(String::new());
    put_lines(&mut out, &request_table_lines(rows.as_slice()));
    out.result(String::new());
    if !unread_cursor.is_empty() {
        out.status(text::owned("more rows exist; pass --follow to read every page"));
    }
    assert(out@ =~= requests_report(*page, since@, until@, rows@, unread_cursor@));
    out
}

/// Where the command stands, that is, what is done next.
#[derive(Clone, Copy, Debug, PartialEq, Eq, Structural)]
pub enum UsageStage {
    /// The window that was asked for is worked out.
    Window,
    /// The session is loaded, and somebody is signed in.
    Session,
    /// The session is refreshed.
    Refresh,
    /// The totals, or the first page, are read.
    Fetch,
    /// The pages after the first are read.
    Follow,
    /// What was read is shown.
    Show,
    /// It is over, with this exit code.
    Finished(i32),
}

/// What a run is about: `expired` says that the session ends within a minute.
#[derive(Clone, Copy, Debug, PartialEq, Eq, Structural)]
pub struct UsageRun {
    pub expired: bool,
    pub follow: bool,
    pub json: bool,
}

/// What comes after a step. A document is one page, whatever else was asked.
pub open spec fn usage_after(run: UsageRun, stage: UsageStage, ok: bool) -> UsageStage {
    match stage {
        UsageStage::Finished(code) => UsageStage::Finished(code),
        UsageStage::Show => UsageStage::Finished(0),
        _ => if !ok {
            UsageStage::Finished(1)
        } else if stage is Window {
            UsageStage::Session
        } else if stage is Session && run.expired {
            UsageStage::Refresh
        } else if stage is Session || stage is Refresh {
            UsageStage::Fetch
        } else if stage is Fetch && run.follow && !run.json {
            UsageStage::Follow
        } else {
            UsageStage::Show
        },
    }
}

/// See [`usage_after`].
pub fn usage_next(run: UsageRun, stage: UsageStage, ok: bool) -> (r: UsageStage)
    ensures
        r == usage_after(run, stage, ok),
{
    match stage {
        UsageStage::Finished(code) => UsageStage::Finished(code),
        UsageStage::Show => UsageStage::Finished(0),
        UsageStage::Window => if ok {
            UsageStage::Session
        } else {
            UsageStage::Finished(1)
        },
        UsageStage::Session => if !ok {
            UsageStage::Finished(1)
        } else if run.expired {
            UsageStage::Refresh
        } else {
            UsageStage::Fetch
        },
        UsageStage::Refresh => if ok {
            UsageStage::Fetch
        } else {
            UsageStage::Finished(1)
        },
        UsageStage::Fetch => if !ok {
            UsageStage::Finished(1)
        } else if run.follow && !run.json {
            UsageStage::Follow
        } else {
            UsageStage::Show
        },
        UsageStage::Follow => if ok {
            UsageStage::Show
        } else {
            UsageStage::Finished(1)
        },
    }
}

/// Where the summary begins: it has no window to work out.
pub fn usage() -> (r: UsageStage)
    ensures
        r == UsageStage::Session,
{
    UsageStage::Session
}

/// Where the list of settled requests begins.
pub fn usage_requests() -> (r: UsageStage)
    ensures
        r == UsageStage::Window,
{
    UsageStage::Window
}

/// How many steps are left at most.
pub open spec fn usage_steps_left(stage: UsageStage) -> nat {
    match stage {
        UsageStage::Window => 6,
        UsageStage::Session => 5,
        UsageStage::Refresh => 4,
        UsageStage::Fetch => 3,
        UsageStage::Follow => 2,
        UsageStage::Show => 1,
        UsageStage::Finished(_) => 0,
    }
}

/// A run comes to an end. It ends with zero exactly when something was shown,
/// and nothing is shown after a failure.
pub proof fn a_failed_read_is_never_shown(run: UsageRun, stage: UsageStage, ok: bool)
    ensures
        ({
            let next = usage_after(run, stage, ok);
            &&& !(stage is Finished) ==> usage_steps_left(next) < usage_steps_left(stage)
            &&& next is Show ==> ok && (stage is Fetch || stage is Follow)
            &&& next == UsageStage::Finished(0) ==> stage is Show || stage == UsageStage::Finished(0)
            &&& next is Follow ==> !run.json
        }),
{
}

/// Which windows are asked for, and which of the two ways they were named: by a
/// number of days back from now, one where none is given, or by two instants, the
/// second now where it is left out. Anything else is refused.
pub proof fn a_window_is_days_or_two_instants(args: RequestsArgs, now: int)
    ensures
        window_of(args, now) is Ok <==> {
            ||| args.since is None && args.until is None && args.cursor@.len() == 0 && (args.days is None || 1
                <= args.days->0 <= 31)
            ||| {
                let until = if args.until is Some {
                    args.until->0@
                } else {
                    calendar::instant_text(now)
                };
                let (start, end) = (calendar::parse_instant(args.since->0@), calendar::parse_instant(until));
                &&& args.since is Some && args.days is None && (args.cursor@.len() == 0 || args.until is Some)
                &&& start is Some && end is Some && start->0 < end->0 <= start->0 + 31 * 86_400
            }
        },
        window_of(args, now) is Ok && args.since is None ==> window_of(args, now)->Ok_0 == (
            calendar::instant_text(now - (if args.days is None {
                1int
            } else {
                args.days->0 as int
            }) * 86_400),
            calendar::instant_text(now),
        ),
        window_of(args, now) is Ok && args.since is Some ==> window_of(args, now)->Ok_0.0 == args.since->0@,
        window_of(args, now) is Ok && args.since is Some && args.until is None ==> window_of(args, now)->Ok_0.1
            == calendar::instant_text(now),
{
}

/// A refreshed session is still the same account's, has the tokens that were
/// granted, and can be refreshed again; it lasts as long as the grant says from
/// now, or an hour.
pub proof fn a_refreshed_session_lasts(before: Credentials, grant: Grant, now: int, after: Credentials)
    requires
        is_granted(before, grant, now, after),
        0 <= now,
    ensures
        after.console_url@ == before.console_url@ && after.email@ == before.email@,
        after.access_token@ == grant.access_token@,
        grant.refresh_token@.len() > 0 ==> after.refresh_token@ == grant.refresh_token@,
        grant.refresh_token@.len() == 0 ==> after.refresh_token@ == before.refresh_token@,
        before.refresh_token@.len() > 0 ==> after.refresh_token@.len() > 0,
        grant.expires_in > 0 && now + grant.expires_in <= i64::MAX ==> after.expires_at - now == grant.expires_in,
        grant.expires_in <= 0 && now + 3600 <= i64::MAX ==> after.expires_at - now == 3600,
        now < i64::MAX ==> after.expires_at > now,
{
}

/// A console that accepts the session gives back its document, and the session is
/// not touched.
pub proof fn an_accepted_session_is_kept<Q, T, F, R>(
    fetch: F,
    refresh: R,
    before: Credentials,
    query: Q,
    after: Credentials,
    r: Result<T, String>,
    document: T,
) where F: Fn(&Credentials, &Q) -> Reply<T>, R: Fn(&Credentials) -> (Credentials, Result<(), String>)
    requires
        is_asked(fetch, refresh, before, query, after, r),
        forall|reply: Reply<T>| #[trigger]
            call_ensures(fetch, (&before, &query), reply) ==> reply.0 == IdentityResult::Accepted && reply.1 == document,
    ensures
        r == Ok::<T, String>(document),
        after == before,
{
}

/// A console that cannot answer is not asked again: its reason is the failure,
/// and the session is not touched.
pub proof fn a_failed_console_is_asked_once<Q, T, F, R>(
    fetch: F,
    refresh: R,
    before: Credentials,
    query: Q,
    after: Credentials,
    r: Result<T, String>,
    reason: String,
) where F: Fn(&Credentials, &Q) -> Reply<T>, R: Fn(&Credentials) -> (Credentials, Result<(), String>)
    requires
        is_asked(fetch, refresh, before, query, after, r),
        forall|reply: Reply<T>| #[trigger]
            call_ensures(fetch, (&before, &query), reply) ==> reply.0 == IdentityResult::Failed && reply.2 == reason,
    ensures
        r == Err::<T, String>(reason),
        after == before,
{
}

/// A rejected session is refreshed, and asked with again as it then stands: its
/// document is what comes back where the console accepts it now, and a second
/// rejection is final.
pub proof fn a_rejected_session_is_refreshed<Q, T, F, R>(
    fetch: F,
    refresh: R,
    before: Credentials,
    fresh: Credentials,
    query: Q,
    after: Credentials,
    r: Result<T, String>,
    second: Reply<T>,
) where F: Fn(&Credentials, &Q) -> Reply<T>, R: Fn(&Credentials) -> (Credentials, Result<(), String>)
    requires
        is_asked(fetch, refresh, before, query, after, r),
        forall|reply: Reply<T>| #[trigger]
            call_ensures(fetch, (&before, &query), reply) ==> reply.0 == IdentityResult::Unauthorized,
        forall|answer: (Credentials, Result<(), String>)| #[trigger]
            call_ensures(refresh, (&before,), answer) ==> answer.0 == fresh && answer.1 is Ok,
        forall|reply: Reply<T>| #[trigger] call_ensures(fetch, (&fresh, &query), reply) ==> reply == second,
    ensures
        after == fresh,
        second.0 == IdentityResult::Accepted ==> r == Ok::<T, String>(second.1),
        second.0 != IdentityResult::Accepted ==> r == Err::<T, String>(second.2),
{
}

/// Every page after the first is asked for over the same window and filters, with
/// the cursor that the page before handed out.
pub proof fn each_page_continues_the_one_before<F>(fetch: F, query: UsageRequestsQuery, first_cursor: Seq<char>, trail: Trail) where
    F: Fn(&UsageRequestsQuery) -> Result<UsageRequestsPage, String>,

    requires
        is_trail(fetch, query, first_cursor, trail),
    ensures
        trail.len() > 0 ==> trail[0].0.cursor@ == first_cursor,
        forall|i: int, j: int|
            0 <= i && j == i + 1 && j < trail.len() ==> (#[trigger] trail[j]).0.cursor@ == (
            #[trigger] trail[i]).1.next_cursor@ && trail[j].0.cursor@ != trail[i].0.cursor@,
        forall|i: int|
            0 <= i < trail.len() ==> {
                let q = (#[trigger] trail[i]).0;
                &&& q.since@ == query.since@
                &&& q.until@ == query.until@
                &&& q.model@ == query.model@
                &&& q.status_code == query.status_code
                &&& q.response_request_id@ == query.response_request_id@
                &&& q.limit == query.limit
                &&& q.cursor@.len() > 0
            },
{
    if trail.len() > 0 {
        assert(is_followed_page(fetch, query, first_cursor, trail, 0));
    }
    assert forall|i: int, j: int| 0 <= i && j == i + 1 && j < trail.len() implies (#[trigger] trail[j]).0.cursor@ == (
    #[trigger] trail[i]).1.next_cursor@ && trail[j].0.cursor@ != trail[i].0.cursor@ by {
        assert(is_followed_page(fetch, query, first_cursor, trail, j));
        assert(trail.take(j).last() == trail[i]);
    }
    assert forall|i: int| 0 <= i < trail.len() implies {
        let q = (#[trigger] trail[i]).0;
        &&& q.since@ == query.since@
        &&& q.until@ == query.until@
        &&& q.model@ == query.model@
        &&& q.status_code == query.status_code
        &&& q.response_request_id@ == query.response_request_id@
        &&& q.limit == query.limit
        &&& q.cursor@.len() > 0
    } by {
        assert(is_followed_page(fetch, query, first_cursor, trail, i));
    }
}

/// Following pages loses no row and moves none: those in hand come first, then
/// those of each page, in the order in which the pages were read.
pub proof fn following_keeps_every_row(first_rows: Seq<UsageRequestRow>, trail: Trail, page: (UsageRequestsQuery, UsageRequestsPage))
    ensures
        trail_rows(first_rows, Seq::empty()) == first_rows,
        trail_rows(first_rows, trail.push(page)) == trail_rows(first_rows, trail) + page.1.requests@,
        trail_rows(first_rows, seq![page] + trail) == trail_rows(first_rows + page.1.requests@, trail),
    decreases trail.len(),
{
    assert(trail.push(page).drop_last() =~= trail);
    let whole = seq![page] + trail;
    if trail.len() == 0 {
        assert(whole.drop_last() =~= Seq::empty());
        assert(whole.last() == page);
        assert(trail_rows(first_rows, whole.drop_last()) == first_rows);
    } else {
        following_keeps_every_row(first_rows, trail.drop_last(), page);
        assert(whole.drop_last() =~= seq![page] + trail.drop_last());
        assert(whole.last() == trail.last());
    }
}

/// The table has a header and one line for each request, in order, and below each
/// that failed one more: a request failed where the console gave it an error code,
/// or a server status.
pub proof fn a_table_has_a_line_for_each_request(rows: Seq<UsageRequestRow>, n: int)
    requires
        0 < n <= rows.len(),
    ensures
        ({
            let (row, before, after) = (rows[n - 1], request_lines(rows, n - 1), request_lines(rows, n));
            let failed = row.error_code@.len() > 0 || row.status_code >= 500;
            &&& after.len() == before.len() + (if failed {
                2int
            } else {
                1
            })
            &&& after.take(before.len() as int) == before
            &&& after[before.len() as int] == request_line(row)
            &&& failed && row.error_code@.len() > 0 && row.finish_reason@.len() == 0 ==> after.last() == text::repeated(
                ' ',
                12,
            ) + " error: "@ + row.error_code@
            &&& failed && row.error_code@.len() > 0 && row.finish_reason@.len() > 0 ==> after.last() == text::repeated(
                ' ',
                12,
            ) + " error: "@ + row.error_code@ + " ("@ + row.finish_reason@ + ")"@
            &&& failed && row.error_code@.len() == 0 && row.finish_reason@.len() == 0 ==> after.last()
                == text::repeated(' ', 12) + " error: "@ + "5xx"@
        }),
{
    reveal_strlit("");
    let (row, before, after) = (rows[n - 1], request_lines(rows, n - 1), request_lines(rows, n));
    assert(after.take(before.len() as int) =~= before);
    assert(text::pad_end(""@, 12) =~= text::repeated(' ', 12));
    if row.error_code@.len() > 0 {
        let label = row.error_code@;
        assert(text::pad_end(""@, 12) + " error: "@ + label + Seq::<char>::empty() =~= text::repeated(' ', 12)
            + " error: "@ + label);
        assert(text::pad_end(""@, 12) + " error: "@ + label + (" ("@ + row.finish_reason@ + ")"@) =~= text::repeated(
            ' ',
            12,
        ) + " error: "@ + label + " ("@ + row.finish_reason@ + ")"@);
    } else {
        assert(text::pad_end(""@, 12) + " error: "@ + "5xx"@ + Seq::<char>::empty() =~= text::repeated(' ', 12)
            + " error: "@ + "5xx"@);
    }
}

/// A line of the table puts each value under its own heading: the time of day, the
/// model, the status, the tokens in, those out, the wait for the first token, the
/// price, and the id a client knows the request by, or else the ledger's.
pub proof fn a_request_is_shown_under_the_headings(rows: Seq<UsageRequestRow>, row: UsageRequestRow)
    requires
        rows.len() > 0,
        forall|i: int| 0 <= i < row.ts_start@.len() ==> (#[trigger] row.ts_start@[i] as int) < 0x80,
        row.ts_start@.len() >= 19,
    ensures
        request_table(rows)[0] == in_eight(
            seq!["started"@, "model"@, "code"@, "in"@, "out"@, "ttft"@, "spend"@, "request"@],
        ),
        request_line(row) == in_eight(
            seq![
                row.ts_start@.subrange(11, 19),
                row.model@,
                text::dec(row.status_code as int),
                money::grouped_text(row.prompt_tokens as int),
                money::grouped_text(row.completion_tokens as int),
                if row.ttft_ms is Some {
                    text::dec(row.ttft_ms->0 as int) + "ms"@
                } else {
                    "-"@
                },
                money::money_text(row.cost_micros as int),
                if row.response_request_id@.len() > 0 {
                    row.response_request_id@
                } else {
                    row.request_id@
                },
            ],
        ),
{
    text::a_byte_slice_is_a_part(row.ts_start@, 11, 19);
}

/// The eight cells of a line of the table: two to the left, five to the right, and
/// one as it is.
pub open spec fn in_eight(cells: Seq<Seq<char>>) -> Seq<char> {
    text::pad_end(cells[0], 12) + " "@ + text::pad_end(cells[1], 20) + " "@ + text::pad_start(cells[2], ' ', 4) + " "@
        + text::pad_start(cells[3], ' ', 11) + " "@ + text::pad_start(cells[4], ' ', 11) + " "@ + text::pad_start(
        cells[5],
        ' ',
        8,
    ) + " "@ + text::pad_start(cells[6], ' ', 8) + "  "@ + cells[7]
}

/// A row of the ledger is written whole, each value under its own name; a wait
/// that was not measured is less than none.
pub proof fn a_ledger_row_is_written_whole(row: UsageRequestRow)
    ensures
        ({
            let ops = row_json(row);
            &&& ops.contains(output::field_str("request_id"@, row.request_id@))
            &&& ops.contains(output::field_str("response_request_id"@, row.response_request_id@))
            &&& ops.contains(output::field_str("model"@, row.model@))
            &&& ops.contains(output::field_i64("status_code"@, row.status_code as int))
            &&& ops.contains(output::field_str("error_code"@, row.error_code@))
            &&& ops.contains(output::field_str("finish_reason"@, row.finish_reason@))
            &&& ops.contains(output::field_bool("stream"@, row.stream))
            &&& ops.contains(output::field_str("ts_start"@, row.ts_start@))
            &&& ops.contains(output::field_i64("prompt_tokens"@, row.prompt_tokens as int))
            &&& ops.contains(output::field_i64("cached_tokens"@, row.cached_tokens as int))
            &&& ops.contains(output::field_i64("completion_tokens"@, row.completion_tokens as int))
            &&& ops.contains(output::field_i64("reasoning_tokens"@, row.reasoning_tokens as int))
            &&& ops.contains(output::field_i64("cost_micros"@, row.cost_micros as int))
            &&& row.ttft_ms is Some ==> ops.contains(output::field_i64("ttft_ms"@, row.ttft_ms->0 as int))
            &&& row.ttft_ms is None ==> ops.contains(output::field_i64("ttft_ms"@, -1))
            &&& ops.contains(output::field_str("pricing_version"@, row.pricing_version@))
        }),
{
    let ops = row_json(row);
    assert(ops[1] == output::field_str("request_id"@, row.request_id@));
    assert(ops[2] == output::field_str("response_request_id"@, row.response_request_id@));
    assert(ops[3] == output::field_str("model"@, row.model@));
    assert(ops[4] == output::field_i64("status_code"@, row.status_code as int));
    assert(ops[5] == output::field_str("error_code"@, row.error_code@));
    assert(ops[6] == output::field_str("finish_reason"@, row.finish_reason@));
    assert(ops[7] == output::field_bool("stream"@, row.stream));
    assert(ops[8] == output::field_str("ts_start"@, row.ts_start@));
    assert(ops[9] == output::field_i64("prompt_tokens"@, row.prompt_tokens as int));
    assert(ops[10] == output::field_i64("cached_tokens"@, row.cached_tokens as int));
    assert(ops[11] == output::field_i64("completion_tokens"@, row.completion_tokens as int));
    assert(ops[12] == output::field_i64("reasoning_tokens"@, row.reasoning_tokens as int));
    assert(ops[13] == output::field_i64("cost_micros"@, row.cost_micros as int));
    assert(ops[14].1 == "ttft_ms"@);
    assert(ops[15] == output::field_str("pricing_version"@, row.pricing_version@));
}

/// A page is written with its window, its totals, each under its own name, all its
/// rows in order, and the cursor of the next page where there is one.
pub proof fn a_page_is_written_whole(page: UsageRequestsPage, since: Seq<char>, until: Seq<char>)
    ensures
        ({
            let ops = requests_json(page, since, until);
            let rows = rows_json(page.requests@, page.requests@.len() as int);
            &&& ops[1] == output::field_str("since"@, since)
            &&& ops[2] == output::field_str("until"@, until)
            &&& ops[3] == output::field_str("as_of"@, page.as_of@)
            &&& ops[4] == output::field_i64("requests"@, page.requests@.len() as int)
            &&& ops[5] == output::field_i64("total_requests"@, page.total_requests as int)
            &&& ops[6] == output::field_i64("prompt_tokens"@, page.prompt_tokens as int)
            &&& ops[7] == output::field_i64("cached_tokens"@, page.cached_tokens as int)
            &&& ops[8] == output::field_i64("noncached_prompt_tokens"@, page.noncached_prompt_tokens as int)
            &&& ops[9] == output::field_i64("completion_tokens"@, page.completion_tokens as int)
            &&& ops[10] == output::field_i64("reasoning_tokens"@, page.reasoning_tokens as int)
            &&& ops[11] == output::field_i64("cost_micros"@, page.cost_micros as int)
            &&& ops[12] == output::begin_array("rows"@)
            &&& ops.skip(13).take(rows.len() as int) == rows
            &&& rows.len() == 17 * page.requests@.len()
            &&& forall|i: int|
                0 <= i < page.requests@.len() ==> #[trigger] rows.subrange(17 * i, 17 * i + 17) == row_json(
                    page.requests@[i],
                )
            &&& page.next_cursor@.len() > 0 ==> ops[ops.len() - 2] == output::field_str(
                "next_cursor"@,
                page.next_cursor@,
            )
            &&& page.next_cursor@.len() == 0 ==> ops.len() == rows.len() + 15
        }),
{
    let ops = requests_json(page, since, until);
    let n = page.requests@.len() as int;
    let rows = rows_json(page.requests@, n);
    rows_are_written_in_order(page.requests@, n);
    assert(ops.skip(13).take(rows.len() as int) =~= rows);
}

proof fn rows_are_written_in_order(rows: Seq<UsageRequestRow>, n: int)
    requires
        0 <= n <= rows.len(),
    ensures
        rows_json(rows, n).len() == 17 * n,
        forall|i: int| 0 <= i < n ==> #[trigger] rows_json(rows, n).subrange(17 * i, 17 * i + 17) == row_json(rows[i]),
    decreases n,
{
    if n > 0 {
        rows_are_written_in_order(rows, n - 1);
        let (before, after) = (rows_json(rows, n - 1), rows_json(rows, n));
        assert forall|i: int| 0 <= i < n implies #[trigger] after.subrange(17 * i, 17 * i + 17) == row_json(rows[i]) by {
            if i < n - 1 {
                assert(after.subrange(17 * i, 17 * i + 17) =~= before.subrange(17 * i, 17 * i + 17));
            } else {
                assert(after.subrange(17 * i, 17 * i + 17) =~= row_json(rows[i]));
            }
        }
    }
}

/// The summary names the window, the rows shown before all that were settled, the
/// price, and the tokens in before those out.
pub proof fn a_summary_names_its_totals(page: UsageRequestsPage, since: Seq<char>, until: Seq<char>, shown: int)
    ensures
        ({
            let lines = summary_of(page, since, until, shown);
            &&& lines.len() == 4
            &&& lines[0] == "window     "@ + since + " to "@ + until
            &&& lines[1] == "requests   "@ + money::grouped_text(shown) + " of "@ + money::grouped_text(
                page.total_requests as int,
            ) + " settled (as of "@ + page.as_of@ + ")"@
            &&& lines[2] == "spend      "@ + money::money_text(page.cost_micros as int) + " over the window"@
            &&& lines[3] == "tokens     in "@ + money::grouped_text(page.prompt_tokens as int) + " (cache "@
                + money::grouped_text(page.cached_tokens as int) + ", fresh "@ + money::grouped_text(
                page.noncached_prompt_tokens as int,
            ) + "), out "@ + money::grouped_text(page.completion_tokens as int) + " (reasoning "@
                + money::grouped_text(page.reasoning_tokens as int) + ")"@
        }),
{
}

/// Whether a flag is the one at `i` of the list, and was given.
pub open spec fn is_given_flag(given: Seq<bool>, flag: Seq<char>, i: int) -> bool {
    given[i] && flag == REQUESTS_ONLY_FLAGS@[i]@
}

/// The flags that were given and do not apply are named, all of them and no
/// other, in the order of the help.
pub proof fn misplaced_flags_are_those_given(given: Seq<bool>, n: int)
    requires
        0 <= n <= 9,
        n <= given.len(),
    ensures
        forall|i: int|
            0 <= i < n && #[trigger] given[i] ==> given_flags(given, n).contains(REQUESTS_ONLY_FLAGS@[i]@),
        forall|flag: Seq<char>| #[trigger]
            given_flags(given, n).contains(flag) ==> exists|i: int| 0 <= i < n && #[trigger] is_given_flag(given, flag, i),
        n > 0 && given[n - 1] ==> given_flags(given, n) == given_flags(given, n - 1).push(
            REQUESTS_ONLY_FLAGS@[n - 1]@,
        ),
        n > 0 && !given[n - 1] ==> given_flags(given, n) == given_flags(given, n - 1),
    decreases n,
{
    if n > 0 {
        misplaced_flags_are_those_given(given, n - 1);
        let before = given_flags(given, n - 1);
        let after = given_flags(given, n);
        assert forall|i: int| 0 <= i < n && #[trigger] given[i] implies after.contains(REQUESTS_ONLY_FLAGS@[i]@) by {
            if i < n - 1 {
                let k = choose|k: int| 0 <= k < before.len() && before[k] == REQUESTS_ONLY_FLAGS@[i]@;
                assert(after[k] == before[k]);
            } else {
                assert(after.last() == REQUESTS_ONLY_FLAGS@[i]@);
            }
        }
        assert forall|flag: Seq<char>| #[trigger] after.contains(flag) implies exists|i: int|
            0 <= i < n && #[trigger] is_given_flag(given, flag, i) by {
            let k = choose|k: int| 0 <= k < after.len() && after[k] == flag;
            if k < before.len() {
                assert(before[k] == flag);
                assert(before.contains(flag));
                let i = choose|i: int| 0 <= i < n - 1 && #[trigger] is_given_flag(given, flag, i);
                assert(is_given_flag(given, flag, i));
            } else {
                assert(is_given_flag(given, flag, n - 1));
            }
        }
    }
}

/// A page is asked for by what was given: the window, the filters, the length of a
/// page and the cursor, each under its own name.
pub proof fn a_page_is_asked_for_as_given(args: RequestsArgs, since: String, until: String, q: UsageRequestsQuery)
    requires
        call_ensures(requests_query, (&args, since, until), q),
    ensures
        q.since@ == since@ && q.until@ == until@,
        q.model@ == args.model@,
        q.status_code == args.status_code,
        q.response_request_id@ == args.response_request_id@,
        q.limit == args.limit,
        q.cursor@ == args.cursor@,
{
}

/// A flag that does nothing is refused rather than passed over, and a document is
/// never more than a page.
pub proof fn a_flag_without_effect_is_refused(
    requests: bool,
    follow: bool,
    as_json: bool,
    misplaced: Vec<&'static str>,
    r: UsagePlan,
)
    requires
        call_ensures(plan_usage, (requests, follow, as_json, &misplaced), r),
    ensures
        !requests && misplaced@.len() > 0 ==> r is Refuse,
        !requests && misplaced@.len() == 0 ==> r is Summary,
        requests && follow && as_json ==> r is Refuse,
        requests && !(follow && as_json) ==> r is Requests,
{
}

/// Following pages fails only while there is more to read, and then for one of three
/// reasons: there are too many, the console handed out the same cursor twice, or a
/// page could not be read, with the console's own reason.
pub proof fn following_fails_for_a_reason<F>(
    fetch: F,
    query: UsageRequestsQuery,
    first_cursor: Seq<char>,
    trail: Trail,
    message: String,
) where F: Fn(&UsageRequestsQuery) -> Result<UsageRequestsPage, String>
    requires
        is_follow_failure(fetch, query, first_cursor, trail, message),
    ensures
        trail.len() == 0 ==> first_cursor.len() > 0,
        trail.len() > 0 ==> trail.last().1.next_cursor@.len() > 0,
        trail.len() >= 99 ==> message@
            == "the window has more than 100 pages; narrow it with --since/--until or a filter"@,
        trail.len() == 0 && first_cursor == query.cursor@ ==> message@
            == "the console returned the same page cursor twice; stopping"@,
        0 < trail.len() < 99 && trail.last().1.next_cursor@ == trail.last().0.cursor@ ==> message@
            == "the console returned the same page cursor twice; stopping"@,
        0 < trail.len() < 99 && trail.last().1.next_cursor@ != trail.last().0.cursor@ ==> exists|q: UsageRequestsQuery|
            q.cursor@ == trail.last().1.next_cursor@ && q.since@ == query.since@ && q.until@ == query.until@
                && #[trigger] call_ensures(fetch, (&q,), Err::<UsageRequestsPage, String>(message)),
{
}

/// The report on requests is the summary, the table and, while rows are left
/// unread, a hint; everything but the hint is a result.
pub proof fn a_report_is_summary_and_table(
    page: UsageRequestsPage,
    since: Seq<char>,
    until: Seq<char>,
    rows: Seq<UsageRequestRow>,
    unread: Seq<char>,
)
    ensures
        ({
            let lines = requests_report(page, since, until, rows, unread);
            let n = request_table(rows).len() as int;
            &&& lines.len() == n + 6 + (if unread.len() > 0 {
                1int
            } else {
                0
            })
            &&& forall|i: int|
                0 <= i < 4 ==> #[trigger] lines[i] == (
                    output::Channel::Result,
                    summary_of(page, since, until, rows.len() as int)[i],
                )
            &&& lines[4] == (output::Channel::Result, Seq::<char>::empty())
            &&& forall|i: int| 0 <= i < n ==> lines[i + 5] == (output::Channel::Result, #[trigger] request_table(rows)[i])
            &&& unread.len() > 0 ==> lines.last() == (
                output::Channel::Status,
                "more rows exist; pass --follow to read every page"@,
            )
        }),
{
    let lines = requests_report(page, since, until, rows, unread);
    let n = request_table(rows).len() as int;
    assert forall|i: int| 0 <= i < n implies lines[i + 5] == (
        output::Channel::Result,
        #[trigger] request_table(rows)[i],
    ) by {
        assert(result_lines(request_table(rows))[i] == output::result(request_table(rows)[i]));
    }
}

/// Joined items stand one behind the other, a comma and a blank between any two.
pub proof fn joined_items_keep_their_order(items: Seq<Seq<char>>, n: int)
    requires
        0 < n <= items.len(),
    ensures
        n == 1 ==> comma_joined(items, n) == items[0],
        n > 1 ==> comma_joined(items, n) == comma_joined(items, n - 1) + seq![',', ' '] + items[n - 1],
{
    reveal_strlit(", ");
    assert(", "@ =~= seq![',', ' ']);
}

/// The `account usage` command.
pub open spec fn usage_command() -> CommandView {
    cli::command("account"@, "usage"@, "Show remaining credit and the last day's spend"@)
        .option(cli::flag("--json"@, "Print as JSON"@))
        .option(
            cli::flag(
                "--requests"@,
                "List settled requests instead of the summary (one page; --follow reads them all)"@,
            ),
        )
        .option(
            cli::opt(
                "--days"@,
                ValueType::Int,
                "Window length in days (1-31)"@,
            ).check(ValidatorView::Range(1, MAX_REQUESTS_WINDOW_DAYS)),
        )
        .option(
            cli::opt("--since"@, ValueType::Text, "Window start, with a timezone (e.g. 2026-09-25T00:00:00Z)"@),
        )
        .option(
            cli::opt("--until"@, ValueType::Text, "Window end, with a timezone (default: now; needs --since)"@),
        )
        .option(cli::opt("--model"@, ValueType::Text, "Only this model id"@))
        .option(
            cli::opt(
                "--status"@,
                ValueType::Int,
                "Only this HTTP status (100-599)"@,
            ).check(ValidatorView::Range(100, 599)),
        )
        .option(
            cli::opt(
                "--response-request-id"@,
                ValueType::Text,
                "Only the rows for this x-request-id (what a response logged)"@,
            ),
        )
        .option(
            cli::opt(
                "--cursor"@,
                ValueType::Text,
                "Continue from a previous page's next_cursor (needs --since and --until)"@,
            ),
        )
        .option(
            cli::opt(
                "--limit"@,
                ValueType::Int,
                "Rows per page (1-200)"@,
            ).default_val("100"@).check(ValidatorView::Range(1, 200)),
        )
        .option(cli::flag("--follow"@, "Read every page until the window is done"@))
        .example("wally account usage"@, ""@)
        .example("wally --json account usage"@, ""@)
        .example("wally account usage --requests"@, "every settled request of the last day, first page"@)
        .example("wally account usage --requests --days 7 --follow"@, "a full week, every page"@)
        .example("wally account usage --requests --status 500"@, "the requests our side failed"@)
        .example("wally account usage --requests --response-request-id <id>"@, "the rows behind one x-request-id"@)
        .example("wally --json account usage --requests --since 2026-09-24T00:00:00Z --until 2026-09-25T00:00:00Z"@, "one page as JSON, over a pinned window"@)
        .action(Action::AccountUsage)
}

/// Registers `usage` below `account`, which has to be there.
pub fn register_usage(app: &mut App) -> (r: Result<(), String>)
    ensures
        cli::has_command(old(app)@.commands, Seq::empty(), "account"@) ==> r is Ok && final(app)@ == old(app)@.push(usage_command()),
        !cli::has_command(old(app)@.commands, Seq::empty(), "account"@) ==> *final(app) == *old(app) && r is Err && r->Err_0@
            == "internal error: register_usage() ran before register_account() registered the `account` command"@,
{
    if !app.has_subcommand("account") {
        return Err(
            text::owned(
                "internal error: register_usage() ran before register_account() registered the `account` command",
            ),
        );
    }
    let mut cmd = Command::new("account", "usage", "Show remaining credit and the last day's spend");
    cmd.add_option(Opt::flag("--json", "Print as JSON"));
    cmd.add_option(
        Opt::flag(
            "--requests",
            "List settled requests instead of the summary (one page; --follow reads them all)",
        ),
    );
    cmd.add_option(
        Opt::value(
            "--days",
            ValueType::Int,
            "Window length in days (1-31)",
        ).check(Validator::Range(1, MAX_REQUESTS_WINDOW_DAYS)),
    );
    cmd.add_option(
        Opt::value("--since", ValueType::Text, "Window start, with a timezone (e.g. 2026-09-25T00:00:00Z)"),
    );
    cmd.add_option(
        Opt::value("--until", ValueType::Text, "Window end, with a timezone (default: now; needs --since)"),
    );
    cmd.add_option(Opt::value("--model", ValueType::Text, "Only this model id"));
    cmd.add_option(
        Opt::value(
            "--status",
            ValueType::Int,
            "Only this HTTP status (100-599)",
        ).check(Validator::Range(100, 599)),
    );
    cmd.add_option(
        Opt::value(
            "--response-request-id",
            ValueType::Text,
            "Only the rows for this x-request-id (what a response logged)",
        ),
    );
    cmd.add_option(
        Opt::value(
            "--cursor",
            ValueType::Text,
            "Continue from a previous page's next_cursor (needs --since and --until)",
        ),
    );
    cmd.add_option(
        Opt::value(
            "--limit",
            ValueType::Int,
            "Rows per page (1-200)",
        ).default_val("100").check(Validator::Range(1, 200)),
    );
    cmd.add_option(Opt::flag("--follow", "Read every page until the window is done"));
    cmd.example("wally account usage", "");
    cmd.example("wally --json account usage", "");
    cmd.example("wally account usage --requests", "every settled request of the last day, first page");
    cmd.example("wally account usage --requests --days 7 --follow", "a full week, every page");
    cmd.example("wally account usage --requests --status 500", "the requests our side failed");
    cmd.example("wally account usage --requests --response-request-id <id>", "the rows behind one x-request-id");
    cmd.example("wally --json account usage --requests --since 2026-09-24T00:00:00Z --until 2026-09-25T00:00:00Z", "one page as JSON, over a pinned window");
    cmd.callback(Action::AccountUsage);
    app.add(cmd);
    Ok(())
}

/// The numbers that can be asked for are bounded, and what is left out has its usual
/// value.
pub proof fn usage_options_are_bounded()
    ensures
        ({
            let options = usage_command().options;
            &&& options.len() == 11
            &&& options[0].names == "--json"@ && options[0].kind == cli::OptKind::Flag
            &&& options[1].names == "--requests"@ && options[1].kind == cli::OptKind::Flag
            &&& options[2].names == "--days"@ && options[2].check == Some(ValidatorView::Range(1, 31))
            &&& options[3].names == "--since"@ && options[4].names == "--until"@ && options[5].names == "--model"@
            &&& options[6].names == "--status"@ && options[6].check == Some(ValidatorView::Range(100, 599))
            &&& options[7].names == "--response-request-id"@ && options[8].names == "--cursor"@
            &&& options[9].names == "--limit"@ && options[9].check == Some(ValidatorView::Range(1, 200))
                && options[9].default_val == Some("100"@)
            &&& options[10].names == "--follow"@ && options[10].kind == cli::OptKind::Flag
        }),
{
}

} // verus!
