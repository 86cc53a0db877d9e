//! `wally backends`: the registered engines, and what each of them serves.

use crate::cli;
use crate::cli::{Action, App, Command, CommandView};
use crate::commands::EngineRow;
use crate::output;
use crate::output::JsonWriter;
use crate::text;
use vstd::prelude::*;

verus! {

/// One engine as the registry lists it; what is absent is unknown.
pub struct Plugin {
    pub name: Option<String>,
    pub display_name: Option<String>,
    pub version: Option<String>,
    pub priority: i32,
}

/// What the registry lists for one primitive.
pub struct Listing {
    /// The number of the primitive.
    pub raw: i64,
    /// Whether the registry answered.
    pub ok: bool,
    /// The name of the primitive.
    pub primitive: String,
    pub plugins: Vec<Plugin>,
}

/// The number of a primitive that is retired.
pub const RETIRED_PRIMITIVE: i64 = 6;

/// An engine as a value: its names, its priority and what it serves.
pub type RowView = (Seq<char>, Seq<char>, int, Set<Seq<char>>);

/// An engine of which nothing is known.
pub open spec fn blank_row() -> RowView {
    (Seq::empty(), Seq::empty(), 0, Set::empty())
}

/// A row as a value.
pub open spec fn row_view(row: EngineRow) -> RowView {
    (row.display_name@, row.version@, row.priority as int, output::strings_view(row.primitives@).to_set())
}

/// A text that may be absent, or another.
pub open spec fn or_text(t: Option<String>, other: Seq<char>) -> Seq<char> {
    match t {
        Some(s) => s@,
        None => other,
    }
}

/// What is known of the engines after one more of them was listed for a
/// primitive: later names and priorities replace earlier ones, and primitives
/// add up. An engine without a name goes by "?".
pub open spec fn with_plugin(engines: Map<Seq<char>, RowView>, primitive: Seq<char>, p: Plugin) -> Map<
    Seq<char>,
    RowView,
> {
    let name = or_text(p.name, "?"@);
    let row = if engines.contains_key(name) {
        engines[name]
    } else {
        blank_row()
    };
    engines.insert(
        name,
        (or_text(p.display_name, row.0), or_text(p.version, row.1), p.priority as int, row.3.insert(primitive)),
    )
}

/// What is known after the first `n` engines of a listing.
pub open spec fn with_plugins(engines: Map<Seq<char>, RowView>, primitive: Seq<char>, plugins: Seq<Plugin>, n: int) -> Map<
    Seq<char>,
    RowView,
>
    decreases n,
{
    if n <= 0 {
        engines
    } else {
        with_plugin(with_plugins(engines, primitive, plugins, n - 1), primitive, plugins[n - 1])
    }
}

/// What is known after the first `n` listings; one that the registry did not
/// give, or of the retired primitive, adds nothing.
pub open spec fn with_listings(listings: Seq<Listing>, n: int) -> Map<Seq<char>, RowView>
    decreases n,
{
    if n <= 0 {
        Map::empty()
    } else {
        let before = with_listings(listings, n - 1);
        let l = listings[n - 1];
        if l.ok && l.raw != RETIRED_PRIMITIVE {
            with_plugins(before, l.primitive@, l.plugins@, l.plugins@.len() as int)
        } else {
            before
        }
    }
}

/// Texts in order, none twice.
pub open spec fn in_order(items: Seq<String>) -> bool {
    forall|i: int, j: int| 0 <= i < j < items.len() ==> text::text_less(#[trigger] items[i]@, #[trigger] items[j]@)
}

/// Rows in the order of their names, none twice, and what each serves in order.
pub open spec fn rows_in_order(rows: Seq<(String, EngineRow)>) -> bool {
    &&& forall|i: int, j: int|
        0 <= i < j < rows.len() ==> text::text_less((#[trigger] rows[i]).0@, (#[trigger] rows[j]).0@)
    &&& forall|i: int| 0 <= i < rows.len() ==> in_order((#[trigger] rows[i]).1.primitives@)
}

/// Whether rows hold exactly what is known of the engines.
pub open spec fn rows_hold(rows: Seq<(String, EngineRow)>, engines: Map<Seq<char>, RowView>) -> bool {
    &&& forall|i: int|
        0 <= i < rows.len() ==> engines.contains_key((#[trigger] rows[i]).0@) && engines[rows[i].0@] == row_view(rows[i].1)
    &&& forall|name: Seq<char>| #[trigger]
        engines.contains_key(name) ==> exists|i: int| 0 <= i < rows.len() && (#[trigger] rows[i]).0@ == name
}

/// Puts a text among others in order, unless it is there.
fn insert_in_order(items: &mut Vec<String>, s: &str)
    requires
        in_order(old(items)@),
    ensures
        in_order(final(items)@),
        output::strings_view(final(items)@).to_set() == output::strings_view(old(items)@).to_set().insert(s@),
{
    let ghost before = items@;
    let ghost views = output::strings_view(items@);
    let mut i: usize = 0;
    while i < items.len() && text::text_less_exec(items[i].as_str(), s)
        invariant
            items@ == before,
            i <= items@.len(),
            forall|k: int| 0 <= k < i ==> text::text_less(#[trigger] before[k]@, s@),
        decreases items@.len() - i,
    {
        i = i + 1;
    }
    if i < items.len() && text::str_eq(items[i].as_str(), s) {
        proof {
            assert(views[i as int] == s@);
            assert(views.to_set().insert(s@) =~= views.to_set());
        }
        return;
    }
    items.insert(i, text::owned(s));
    proof {
        let now = output::strings_view(items@);
        assert(now =~= views.insert(i as int, s@));
        assert(now.to_set() =~= views.to_set().insert(s@)) by {
            assert forall|t: Seq<char>| now.to_set().contains(t) implies views.to_set().insert(s@).contains(t) by {
                let k = choose|k: int| 0 <= k < now.len() && now[k] == t;
                if k < i {
                    assert(views[k] == t);
                } else if k > i {
                    assert(views[k - 1] == t);
                }
            }
            assert forall|t: Seq<char>| views.to_set().insert(s@).contains(t) implies now.to_set().contains(t) by {
                if t == s@ {
                    assert(now[i as int] == t);
                } else {
                    let k = choose|k: int| 0 <= k < views.len() && views[k] == t;
                    if k < i {
                        assert(now[k] == t);
                    } else {
                        assert(now[k + 1] == t);
                    }
                }
            }
        }
        if i < before.len() {
            text::text_less_total(before[i as int]@, s@);
        }
        assert forall|a: int, b: int| 0 <= a < b < items@.len() implies text::text_less(
            #[trigger] items@[a]@,
            #[trigger] items@[b]@,
        ) by {
            if a < i && b > i {
                assert(text::text_less(before[a]@, s@));
                assert(items@[b]@ == before[b - 1]@);
                if b - 1 > i {
                    text::text_less_transitive(s@, before[i as int]@, before[b - 1]@);
                }
                text::text_less_transitive(before[a]@, s@, before[b - 1]@);
            } else if a == i {
                assert(items@[b]@ == before[b - 1]@);
                if b - 1 > i {
                    text::text_less_transitive(s@, before[i as int]@, before[b - 1]@);
                }
            } else if a > i {
                assert(items@[a]@ == before[a - 1]@ && items@[b]@ == before[b - 1]@);
            }
        }
    }
}

fn or_text_exec(t: &Option<String>, other: &str) -> (r: String)
    ensures
        r@ == or_text(*t, other@),
{
    match t {
        Some(s) => text::owned(s.as_str()),
        None => text::owned(other),
    }
}

/// Where a name stands among the rows, or where it would.
fn row_position(rows: &Vec<(String, EngineRow)>, name: &str) -> (r: usize)
    requires
        rows_in_order(rows@),
    ensures
        r <= rows@.len(),
        forall|k: int| 0 <= k < r ==> text::text_less((#[trigger] rows@[k]).0@, name@),
        r < rows@.len() ==> !text::text_less(rows@[r as int].0@, name@),
{
    let mut i: usize = 0;
    while i < rows.len() && text::text_less_exec(rows[i].0.as_str(), name)
        invariant
            i <= rows@.len(),
            forall|k: int| 0 <= k < i ==> text::text_less((#[trigger] rows@[k]).0@, name@),
        decreases rows@.len() - i,
    {
        i = i + 1;
    }
    i
}

/// What changes in an engine that is listed for a primitive.
fn take_plugin(row: EngineRow, primitive: &str, p: &Plugin) -> (r: EngineRow)
    requires
        in_order(row.primitives@),
    ensures
        in_order(r.primitives@),
        row_view(r) == (
            or_text(p.display_name, row.display_name@),
            or_text(p.version, row.version@),
            p.priority as int,
            output::strings_view(row.primitives@).to_set().insert(primitive@),
        ),
{
    let mut primitives = row.primitives;
    insert_in_order(&mut primitives, primitive);
    EngineRow {
        display_name: or_text_exec(&p.display_name, row.display_name.as_str()),
        version: or_text_exec(&p.version, row.version.as_str()),
        priority: p.priority,
        primitives,
    }
}

fn add_plugin(rows: &mut Vec<(String, EngineRow)>, primitive: &str, p: &Plugin, Ghost(engines): Ghost<
    Map<Seq<char>, RowView>,
>)
    requires
        rows_in_order(old(rows)@),
        rows_hold(old(rows)@, engines),
    ensures
        rows_in_order(final(rows)@),
        rows_hold(final(rows)@, with_plugin(engines, primitive@, *p)),
{
    let ghost before = rows@;
    let name = or_text_exec(&p.name, "?");
    let at = row_position(rows, name.as_str());
    let known = at < rows.len() && text::str_eq(rows[at].0.as_str(), name.as_str());
    if known {
        let (kept_name, row) = rows.remove(at);
        let updated = take_plugin(row, primitive, p);
        rows.insert(at, (kept_name, updated));
        proof {
            let now = rows@;
            let after = with_plugin(engines, primitive@, *p);
            assert(now =~= before.update(at as int, (kept_name, updated)));
            assert(engines.contains_key(before[at as int].0@));
            assert forall|i: int| 0 <= i < now.len() implies after.contains_key((#[trigger] now[i]).0@)
                && after[now[i].0@] == row_view(now[i].1) by {
                if i != at {
                    assert(now[i] == before[i]);
                    if i < at {
                        assert(text::text_less(before[i].0@, before[at as int].0@));
                    } else {
                        assert(text::text_less(before[at as int].0@, before[i].0@));
                    }
                    text::text_less_total(before[i].0@, before[at as int].0@);
                }
            }
            assert forall|n: Seq<char>| #[trigger] after.contains_key(n) implies exists|i: int|
                0 <= i < now.len() && (#[trigger] now[i]).0@ == n by {
                if n == name@ {
                    assert(now[at as int].0@ == n);
                } else {
                    let i = choose|i: int| 0 <= i < before.len() && (#[trigger] before[i]).0@ == n;
                    assert(now[i].0@ == n);
                }
            }
        }
    } else {
        let blank = EngineRow {
            display_name: String::new(),
            version: String::new(),
            priority: 0,
            primitives: Vec::new(),
        };
        assert(output::strings_view(blank.primitives@).to_set() =~= Set::empty());
        let fresh = take_plugin(blank, primitive, p);
        proof {
            if at < before.len() {
                text::text_less_total(before[at as int].0@, name@);
            }
            if engines.contains_key(name@) {
                let i = choose|i: int| 0 <= i < before.len() && (#[trigger] before[i]).0@ == name@;
                if i < at {
                    text::text_less_total(before[i].0@, name@);
                } else if i > at {
                    assert(text::text_less(before[at as int].0@, before[i].0@));
                    text::text_less_total(before[at as int].0@, name@);
                }
            }
        }
        let ghost name_text = name@;
        rows.insert(at, (name, fresh));
        proof {
            let now = rows@;
            let after = with_plugin(engines, primitive@, *p);
            assert(now =~= before.insert(at as int, (name, fresh)));
            assert forall|i: int| 0 <= i < now.len() implies after.contains_key((#[trigger] now[i]).0@)
                && after[now[i].0@] == row_view(now[i].1) by {
                if i < at {
                    assert(now[i] == before[i]);
                    text::text_less_total(before[i].0@, name_text);
                } else if i > at {
                    assert(now[i] == before[i - 1]);
                }
            }
            assert forall|n: Seq<char>| #[trigger] after.contains_key(n) implies exists|i: int|
                0 <= i < now.len() && (#[trigger] now[i]).0@ == n by {
                if n == name_text {
                    assert(now[at as int].0@ == n);
                } else {
                    let i = choose|i: int| 0 <= i < before.len() && (#[trigger] before[i]).0@ == n;
                    if i < at {
                        assert(now[i].0@ == n);
                    } else {
                        assert(now[i + 1].0@ == n);
                    }
                }
            }
            assert forall|a: int, b: int| 0 <= a < b < now.len() implies text::text_less(
                (#[trigger] now[a]).0@,
                (#[trigger] now[b]).0@,
            ) by {
                if b > at {
                    assert(now[b] == before[b - 1]);
                    if b - 1 > at {
                        text::text_less_transitive(name_text, before[at as int].0@, before[b - 1].0@);
                    }
                    if a < at {
                        text::text_less_transitive(before[a].0@, name_text, before[b - 1].0@);
                    } else if a > at {
                        assert(now[a] == before[a - 1]);
                    }
                }
            }
        }
    }
}

fn add_listing(rows: &mut Vec<(String, EngineRow)>, listing: &Listing, Ghost(engines): Ghost<Map<Seq<char>, RowView>>)
    requires
        rows_in_order(old(rows)@),
        rows_hold(old(rows)@, engines),
    ensures
        rows_in_order(final(rows)@),
        rows_hold(
            final(rows)@,
            with_plugins(engines, listing.primitive@, listing.plugins@, listing.plugins@.len() as int),
        ),
{
    let mut i: usize = 0;
    while i < listing.plugins.len()
        invariant
            i <= listing.plugins@.len(),
            rows_in_order(rows@),
            rows_hold(rows@, with_plugins(engines, listing.primitive@, listing.plugins@, i as int)),
        decreases listing.plugins@.len() - i,
    {
        let ghost known = with_plugins(engines, listing.primitive@, listing.plugins@, i as int);
        add_plugin(rows, listing.primitive.as_str(), &listing.plugins[i], Ghost(known));
        i = i + 1;
    }
}

/// Every registered engine, in the order of its name, with every primitive that
/// it serves.
pub fn collect_backend_rows(listings: &Vec<Listing>) -> (r: Vec<(String, EngineRow)>)
    ensures
        rows_in_order(r@),
        rows_hold(r@, with_listings(listings@, listings@.len() as int)),
{
    let mut rows: Vec<(String, EngineRow)> = Vec::new();
    let mut i: usize = 0;
    while i < listings.len()
        invariant
            i <= listings@.len(),
            rows_in_order(rows@),
            rows_hold(rows@, with_listings(listings@, i as int)),
        decreases listings@.len() - i,
    {
        if listings[i].ok && listings[i].raw != RETIRED_PRIMITIVE {
            let ghost known = with_listings(listings@, i as int);
            add_listing(&mut rows, &listings[i], Ghost(known));
        }
        i = i + 1;
    }
    rows
}

/// The first `n` rows that serve a primitive.
pub open spec fn serving(rows: Seq<(String, EngineRow)>, primitive: Seq<char>, n: int) -> Seq<(String, EngineRow)>
    decreases n,
{
    if n <= 0 {
        Seq::empty()
    } else if text::contains_text(rows[n - 1].1.primitives@, primitive) {
        serving(rows, primitive, n - 1).push(rows[n - 1])
    } else {
        serving(rows, primitive, n - 1)
    }
}

/// The engines that serve a primitive, in the same order; `llm` is the one that
/// generates text.
pub fn collect_llm_backend_rows(rows: Vec<(String, EngineRow)>, llm: &str) -> (r: Vec<(String, EngineRow)>)
    ensures
        r@ == serving(rows@, llm@, rows@.len() as int),
{
    let ghost all = rows@;
    let mut rest = rows;
    let mut kept: Vec<(String, EngineRow)> = Vec::new();
    let total: usize = rest.len();
    let mut i: usize = 0;
    while i < total
        invariant
            i <= total == all.len(),
            rest@ == all.skip(i as int),
            kept@ == serving(all, llm@, i as int),
        decreases total - i,
    {
        let row = rest.remove(0);
        assert(row == all[i as int]);
        assert(rest@ =~= all.skip(i + 1));
        if text::contains_text_exec(&row.1.primitives, llm) {
            kept.push(row);
        }
        i = i + 1;
    }
    kept
}

/// The primitives of an engine, with commas between them.
pub open spec fn joined(items: Seq<String>, n: int) -> Seq<char>
    decreases n,
{
    if n <= 0 {
        Seq::empty()
    } else if joined(items, n - 1).len() == 0 {
        items[n - 1]@
    } else {
        joined(items, n - 1) + ", "@ + items[n - 1]@
    }
}

/// See [`joined`].
pub fn join_primitives(items: &Vec<String>) -> (r: String)
    ensures
        r@ == joined(items@, items@.len() as int),
{
    let mut r = String::new();
    let mut i: usize = 0;
    while i < items.len()
        invariant
            i <= items@.len(),
            r@ == joined(items@, i as int),
        decreases items@.len() - i,
    {
        if r.as_str().is_empty() {
            r = text::owned(items[i].as_str());
        } else {
            r = text::cat3(r.as_str(), ", ", items[i].as_str());
        }
        i = i + 1;
    }
    r
}

/// The writes for one engine's primitives, each an object with its name.
pub open spec fn primitives_json(items: Seq<String>, n: int) -> Seq<output::JsonOpView>
    decreases n,
{
    if n <= 0 {
        Seq::empty()
    } else {
        primitives_json(items, n - 1) + seq![
            output::begin_array_object(),
            output::field_str("name"@, items[n - 1]@),
            output::end_object(),
        ]
    }
}

/// The writes for one engine.
pub open spec fn backend_json(row: (String, EngineRow)) -> Seq<output::JsonOpView> {
    seq![
        output::begin_array_object(),
        output::field_str("name"@, row.0@),
        output::field_str("display_name"@, row.1.display_name@),
        output::field_str("version"@, row.1.version@),
        output::field_i64("priority"@, row.1.priority as int),
        output::begin_array("primitives"@),
    ] + primitives_json(row.1.primitives@, row.1.primitives@.len() as int) + seq![
        output::end_array(),
        output::end_object(),
    ]
}

/// The writes for the first `n` engines.
pub open spec fn backends_ops(rows: Seq<(String, EngineRow)>, n: int) -> Seq<output::JsonOpView>
    decreases n,
{
    if n <= 0 {
        Seq::empty()
    } else {
        backends_ops(rows, n - 1) + backend_json(rows[n - 1])
    }
}

fn put_primitives(json: &mut JsonWriter, items: &Vec<String>)
    ensures
        final(json)@ == old(json)@ + primitives_json(items@, items@.len() as int),
{
    let ghost head = json@;
    assert(head + primitives_json(items@, 0) =~= head);
    let mut i: usize = 0;
    while i < items.len()
        invariant
            i <= items@.len(),
            json@ == head + primitives_json(items@, i as int),
        decreases items@.len() - i,
    {
        json.begin_array_object();
        json.field_str("name", items[i].as_str());
        json.end_object();
        i = i + 1;
        assert(json@ =~= head + primitives_json(items@, i as int));
    }
}

fn put_backend(json: &mut JsonWriter, row: &(String, EngineRow))
    ensures
        final(json)@ == old(json)@ + backend_json(*row),
{
    json.begin_array_object();
    json.field_str("name", row.0.as_str());
    json.field_str("display_name", row.1.display_name.as_str());
    json.field_str("version", row.1.version.as_str());
    json.field_i64("priority", row.1.priority as i64);
    json.begin_array("primitives");
    put_primitives(json, &row.1.primitives);
    json.end_array();
    json.end_object();
    assert(json@ =~= old(json)@ + backend_json(*row));
}

/// The writes for the engines.
pub open spec fn backends_document(rows: Seq<(String, EngineRow)>) -> Seq<output::JsonOpView> {
    seq![output::begin_object(), output::begin_array("backends"@)] + backends_ops(
        rows,
        rows.len() as int,
    ) + seq![output::end_array(), output::end_object()]
}

/// The document of the engines.
pub fn backends_json(rows: &Vec<(String, EngineRow)>) -> (json: JsonWriter)
    ensures
        json@ == backends_document(rows@),
{
    let mut json = JsonWriter::new();
    json.begin_object();
    json.begin_array("backends");
    let ghost head = json@;
    assert(head + backends_ops(rows@, 0) =~= head);
    let mut i: usize = 0;
    while i < rows.len()
        invariant
            i <= rows@.len(),
            json@ == head + backends_ops(rows@, i as int),
        decreases rows@.len() - i,
    {
        put_backend(&mut json, &rows[i]);
        i = i + 1;
        assert(json@ =~= head + backends_ops(rows@, i as int));
    }
    json.end_array();
    json.end_object();
    assert(json@ =~= head + backends_ops(rows@, rows@.len() as int) + seq![output::end_array(), output::end_object()]);
    json
}

/// The columns of the table of engines.
pub fn backend_header() -> (r: Vec<String>)
    ensures
        output::strings_view(r@) == seq!["NAME"@, "PRIORITY"@, "PRIMITIVES"@],
{
    let mut header: Vec<String> = Vec::new();
    header.push(text::owned("NAME"));
    header.push(text::owned("PRIORITY"));
    header.push(text::owned("PRIMITIVES"));
    assert(output::strings_view(header@) =~= seq!["NAME"@, "PRIORITY"@, "PRIMITIVES"@]);
    header
}

/// The cells of one engine.
pub open spec fn backend_cells(row: (String, EngineRow)) -> Seq<Seq<char>> {
    seq![
        row.0@,
        text::dec(row.1.priority as int),
        joined(row.1.primitives@, row.1.primitives@.len() as int),
    ]
}

/// See [`backend_cells`].
pub fn backend_row(row: &(String, EngineRow)) -> (r: Vec<String>)
    ensures
        output::strings_view(r@) == backend_cells(*row),
{
    let mut cells: Vec<String> = Vec::new();
    cells.push(text::owned(row.0.as_str()));
    cells.push(text::dec_i64(row.1.priority as i64));
    cells.push(join_primitives(&row.1.primitives));
    assert(output::strings_view(cells@) =~= seq![
        row.0@,
        text::dec(row.1.priority as int),
        joined(row.1.primitives@, row.1.primitives@.len() as int),
    ]);
    cells
}

proof fn plugins_keep_names(
    engines: Map<Seq<char>, RowView>,
    primitive: Seq<char>,
    plugins: Seq<Plugin>,
    n: int,
    name: Seq<char>,
)
    requires
        0 <= n <= plugins.len(),
    ensures
        engines.contains_key(name) ==> with_plugins(engines, primitive, plugins, n).contains_key(name)
            && engines[name].3.subset_of(with_plugins(engines, primitive, plugins, n)[name].3),
        forall|i: int|
            0 <= i < n && or_text((#[trigger] plugins[i]).name, "?"@) == name ==> with_plugins(
                engines,
                primitive,
                plugins,
                n,
            ).contains_key(name) && with_plugins(engines, primitive, plugins, n)[name].3.contains(primitive),
    decreases n,
{
    if n > 0 {
        plugins_keep_names(engines, primitive, plugins, n - 1, name);
    }
}

/// An engine that is listed for any live primitive is among the rows, with that
/// primitive: none is left out because of what else it serves.
pub proof fn a_listed_engine_is_shown(listings: Seq<Listing>, n: int, l: int, p: int)
    requires
        0 <= l < n <= listings.len(),
        listings[l].ok,
        listings[l].raw != RETIRED_PRIMITIVE,
        0 <= p < listings[l].plugins@.len(),
    ensures
        with_listings(listings, n).contains_key(or_text(listings[l].plugins@[p].name, "?"@)),
        with_listings(listings, n)[or_text(listings[l].plugins@[p].name, "?"@)].3.contains(listings[l].primitive@),
    decreases n,
{
    let name = or_text(listings[l].plugins@[p].name, "?"@);
    let last = listings[n - 1];
    if l == n - 1 {
        plugins_keep_names(
            with_listings(listings, n - 1),
            last.primitive@,
            last.plugins@,
            last.plugins@.len() as int,
            name,
        );
    } else {
        a_listed_engine_is_shown(listings, n - 1, l, p);
        plugins_keep_names(
            with_listings(listings, n - 1),
            last.primitive@,
            last.plugins@,
            last.plugins@.len() as int,
            name,
        );
    }
}

/// A plugin that is listed adds what it serves to the row of its name, and says what
/// it is called, which version it is and how early it comes; a name or version it
/// leaves out stays as it was, and no other row is touched.
pub proof fn a_plugin_adds_what_it_serves(engines: Map<Seq<char>, RowView>, primitive: Seq<char>, p: Plugin)
    ensures
        ({
            let name = if p.name is Some {
                p.name->0@
            } else {
                "?"@
            };
            let after = with_plugin(engines, primitive, p);
            &&& after.contains_key(name)
            &&& after[name].2 == p.priority
            &&& after[name].3.contains(primitive)
            &&& p.display_name is Some ==> after[name].0 == p.display_name->0@
            &&& p.version is Some ==> after[name].1 == p.version->0@
            &&& engines.contains_key(name) && p.display_name is None ==> after[name].0 == engines[name].0
            &&& engines.contains_key(name) && p.version is None ==> after[name].1 == engines[name].1
            &&& engines.contains_key(name) ==> after[name].3 == engines[name].3.insert(primitive)
            &&& !engines.contains_key(name) ==> forall|x: Seq<char>| #[trigger]
                after[name].3.contains(x) <==> x == primitive
            &&& forall|other: Seq<char>|
                other != name ==> (#[trigger] after.contains_key(other) <==> engines.contains_key(other))
            &&& forall|other: Seq<char>|
                other != name && engines.contains_key(other) ==> #[trigger] after[other] == engines[other]
        }),
{
}

/// A listing that failed, or is of what is no longer served, adds nothing.
pub proof fn a_failed_listing_adds_nothing(listings: Seq<Listing>, n: int)
    requires
        0 < n <= listings.len(),
    ensures
        !listings[n - 1].ok || listings[n - 1].raw == RETIRED_PRIMITIVE ==> with_listings(listings, n) == with_listings(
            listings,
            n - 1,
        ),
        listings[n - 1].ok && listings[n - 1].raw != RETIRED_PRIMITIVE && listings[n - 1].plugins@.len() == 1
            ==> with_listings(listings, n) == with_plugin(
            with_listings(listings, n - 1),
            listings[n - 1].primitive@,
            listings[n - 1].plugins@[0],
        ),
{
    reveal_with_fuel(with_plugins, 2);
}

/// The engines that serve something are those whose row says so, in their order.
pub proof fn serving_engines_say_so(rows: Seq<(String, EngineRow)>, primitive: Seq<char>, n: int)
    requires
        0 <= n <= rows.len(),
    ensures
        ({
            let found = serving(rows, primitive, n);
            &&& forall|i: int|
                0 <= i < n && text::contains_text((#[trigger] rows[i]).1.primitives@, primitive) ==> found.contains(
                    rows[i],
                )
            &&& forall|x: (String, EngineRow)| #[trigger]
                found.contains(x) ==> text::contains_text(x.1.primitives@, primitive) && exists|i: int|
                    0 <= i < n && #[trigger] rows[i] == x
        }),
    decreases n,
{
    if n > 0 {
        serving_engines_say_so(rows, primitive, n - 1);
        let before = serving(rows, primitive, n - 1);
        let found = serving(rows, primitive, n);
        assert forall|x: (String, EngineRow)| #[trigger] before.contains(x) implies found.contains(x) by {
            let k = choose|k: int| 0 <= k < before.len() && before[k] == x;
            assert(found[k] == x);
        }
        if text::contains_text(rows[n - 1].1.primitives@, primitive) {
            assert(found.last() == rows[n - 1]);
        }
        assert forall|x: (String, EngineRow)| #[trigger] found.contains(x) implies text::contains_text(
            x.1.primitives@,
            primitive,
        ) && exists|i: int| 0 <= i < n && #[trigger] rows[i] == x by {
            let k = choose|k: int| 0 <= k < found.len() && found[k] == x;
            if k < before.len() {
                assert(before[k] == x);
                assert(before.contains(x));
            } else {
                assert(rows[n - 1] == x);
            }
        }
    }
}

/// An engine is told under its own names, in the document and in the table.
pub proof fn an_engine_is_told_as_it_is(row: (String, EngineRow))
    ensures
        ({
            let ops = backend_json(row);
            let cells = backend_cells(row);
            &&& ops[1] == output::field_str("name"@, row.0@)
            &&& ops[2] == output::field_str("display_name"@, row.1.display_name@)
            &&& ops[3] == output::field_str("version"@, row.1.version@)
            &&& ops[4] == output::field_i64("priority"@, row.1.priority as int)
            &&& cells.len() == 3
            &&& cells[0] == row.0@
            &&& cells[1] == text::dec(row.1.priority as int)
            &&& cells[2] == joined(row.1.primitives@, row.1.primitives@.len() as int)
        }),
{
}

/// Engines are written one behind the other, each with everything it serves.
pub proof fn engines_are_written_in_order(rows: Seq<(String, EngineRow)>, n: int, i: int)
    requires
        0 <= i < n <= rows.len(),
    ensures
        ({
            let at = backends_ops(rows, i).len() as int;
            let one = backend_json(rows[i]);
            &&& at + one.len() <= backends_ops(rows, n).len()
            &&& backends_ops(rows, n).subrange(at, at + one.len()) == one
        }),
        backends_document(rows).skip(2).take(backends_ops(rows, rows.len() as int).len() as int) == backends_ops(
            rows,
            rows.len() as int,
        ),
    decreases n,
{
    let at = backends_ops(rows, i).len() as int;
    let one = backend_json(rows[i]);
    let all = backends_ops(rows, n);
    let whole = backends_ops(rows, rows.len() as int);
    assert(backends_document(rows).skip(2).take(whole.len() as int) =~= whole);
    if i < n - 1 {
        engines_are_written_in_order(rows, n - 1, i);
        let before = backends_ops(rows, n - 1);
        assert(all.subrange(at, at + one.len()) =~= before.subrange(at, at + one.len()));
    } else {
        assert(all.subrange(at, at + one.len()) =~= one);
    }
}

/// Each thing an engine serves is written by its name, in order.
pub proof fn everything_served_is_written(items: Seq<String>, n: int, i: int)
    requires
        0 <= i < n <= items.len(),
    ensures
        primitives_json(items, n).len() == 3 * n,
        primitives_json(items, n)[3 * i + 1] == output::field_str("name"@, items[i]@),
    decreases n,
{
    if n > 1 {
        everything_served_is_written(
            items,
            n - 1,
            if i < n - 1 {
                i
            } else {
                n - 2
            },
        );
        if i < n - 1 {
            assert(primitives_json(items, n)[3 * i + 1] == primitives_json(items, n - 1)[3 * i + 1]);
        }
    } else {
        assert(primitives_json(items, 0) =~= Seq::empty());
    }
}

/// Every engine has one row, and every row is an engine's: its name, version,
/// priority and what it serves are those that were listed.
pub proof fn every_engine_has_its_row(rows: Seq<(String, EngineRow)>, engines: Map<Seq<char>, RowView>, i: int, name: Seq<char>)
    requires
        rows_hold(rows, engines),
        rows_in_order(rows),
    ensures
        0 <= i < rows.len() ==> {
            &&& engines.contains_key(rows[i].0@)
            &&& engines[rows[i].0@].0 == rows[i].1.display_name@
            &&& engines[rows[i].0@].1 == rows[i].1.version@
            &&& engines[rows[i].0@].2 == rows[i].1.priority
            &&& forall|p: Seq<char>| #[trigger]
                engines[rows[i].0@].3.contains(p) <==> output::strings_view(rows[i].1.primitives@).contains(p)
        },
        engines.contains_key(name) ==> exists|k: int| 0 <= k < rows.len() && (#[trigger] rows[k]).0@ == name,
        0 <= i < rows.len() - 1 ==> text::text_less(rows[i].0@, rows[i + 1].0@),
{
    if 0 <= i < rows.len() {
        assert(engines.contains_key(rows[i].0@));
        let served = output::strings_view(rows[i].1.primitives@);
        assert(engines[rows[i].0@].3 == served.to_set());
        assert forall|p: Seq<char>| #[trigger] engines[rows[i].0@].3.contains(p) <==> served.contains(p) by {
            assert(served.to_set().contains(p) <==> served.contains(p));
        }
    }
    if 0 <= i < rows.len() - 1 {
        assert(text::text_less(rows[i].0@, rows[i + 1].0@));
    }
}

/// The `backends` command.
pub open spec fn backends_command() -> CommandView {
    cli::top("backends"@, "List registered inference backends"@)
        .action(Action::Backends)
}

/// Registers `backends`.
pub fn register_backends(app: &mut App)
    ensures
        final(app)@ == old(app)@.push(backends_command()),
{
    let mut cmd = Command::top("backends", "List registered inference backends");
    cmd.callback(Action::Backends);
    app.add(cmd);
}

} // verus!
