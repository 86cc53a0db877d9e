//! `wally models list`: downloaded models by default, the whole catalog with
//! `--all`.
//!
//! The same model is registered once per backend it runs on. The list collapses
//! those into one row keyed by the catalog's merge key, joining the backends
//! into "mlx/llama.cpp"-style tags.

use crate::cli;
use crate::cli::{Action, Command, CommandView, Opt};
use crate::commands::model_labels;
use crate::engine;
use crate::engine::{InferenceFramework, ModelCategory, ModelInfo, ModelRegistryStatus};
use crate::output;
use crate::output::{JsonWriter, Printed, Report, ReportView, Table};
use crate::text;
use vstd::prelude::*;

verus! {

/// Lower is listed first in the joined tag and preferred for the row's name and
/// size.
pub open spec fn rank_of(framework: InferenceFramework) -> i32 {
    match framework {
        InferenceFramework::Mlx => 0,
        InferenceFramework::LlamaCpp => 1,
        InferenceFramework::Coreml => 2,
        InferenceFramework::Qhexrt => 3,
        _ => 4,
    }
}

/// Executable [`rank_of`].
pub fn backend_rank(framework: InferenceFramework) -> (r: i32)
    ensures
        r == rank_of(framework),
{
    match framework {
        InferenceFramework::Mlx => 0,
        InferenceFramework::LlamaCpp => 1,
        InferenceFramework::Coreml => 2,
        InferenceFramework::Qhexrt => 3,
        _ => 4,
    }
}

/// A model of the registry with what the catalog says about it: the key its
/// variants share, and whether a coding harness can drive it.
#[derive(Clone, Debug)]
pub struct ListedModel {
    pub model: ModelInfo,
    pub merge_key: String,
    pub harness_compatible: bool,
}

/// One backend of a row: its rank and its tag.
#[derive(Clone, Copy, Debug)]
pub struct BackendTag {
    pub rank: i32,
    pub label: &'static str,
}

impl View for BackendTag {
    type V = (int, Seq<char>);

    open spec fn view(&self) -> (int, Seq<char>) {
        (self.rank as int, self.label@)
    }
}

pub open spec fn tags_view(tags: Seq<BackendTag>) -> Seq<(int, Seq<char>)> {
    Seq::new(tags.len(), |i: int| tags[i]@)
}

/// Tags are ordered by rank, then by label.
pub open spec fn tag_less(a: (int, Seq<char>), b: (int, Seq<char>)) -> bool {
    a.0 < b.0 || (a.0 == b.0 && text::text_less(a.1, b.1))
}

/// `tags` with `t` put in its place, once.
pub open spec fn tag_insert(tags: Seq<(int, Seq<char>)>, t: (int, Seq<char>)) -> Seq<(int, Seq<char>)>
    decreases tags.len(),
{
    if tags.len() == 0 {
        seq![t]
    } else if tags[0] == t {
        tags
    } else if tag_less(t, tags[0]) {
        seq![t] + tags
    } else {
        seq![tags[0]] + tag_insert(tags.skip(1), t)
    }
}

/// One line of the list: a model with all its variants.
#[derive(Clone, Debug)]
pub struct GroupedRow {
    pub key: String,
    /// The merge key, or the id of the variant on disk.
    pub id: String,
    /// The id of the variant that set `size_bytes`.
    pub size_id: String,
    /// The path of the variant behind `id`, if it is downloaded.
    pub local_path: String,
    pub name: String,
    pub category: ModelCategory,
    pub size_bytes: i64,
    /// The rank of the variant that set the name and category.
    pub name_rank: i32,
    /// The rank of the variant that set a positive size.
    pub size_rank: i32,
    /// The rank of the downloaded variant behind `id`.
    pub path_rank: i32,
    pub downloaded: bool,
    pub harness_compatible: bool,
    /// Distinct backends by rank and label.
    pub backends: Vec<BackendTag>,
}

/// A row as a value.
#[verifier::ext_equal]
pub struct RowView {
    pub key: Seq<char>,
    pub id: Seq<char>,
    pub size_id: Seq<char>,
    pub local_path: Seq<char>,
    pub name: Seq<char>,
    pub category: ModelCategory,
    pub size_bytes: i64,
    pub name_rank: i32,
    pub size_rank: i32,
    pub path_rank: i32,
    pub downloaded: bool,
    pub harness_compatible: bool,
    pub backends: Seq<(int, Seq<char>)>,
}

impl View for GroupedRow {
    type V = RowView;

    open spec fn view(&self) -> RowView {
        RowView {
            key: self.key@,
            id: self.id@,
            size_id: self.size_id@,
            local_path: self.local_path@,
            name: self.name@,
            category: self.category,
            size_bytes: self.size_bytes,
            name_rank: self.name_rank,
            size_rank: self.size_rank,
            path_rank: self.path_rank,
            downloaded: self.downloaded,
            harness_compatible: self.harness_compatible,
            backends: tags_view(self.backends@),
        }
    }
}

pub open spec fn rows_view(rows: Seq<GroupedRow>) -> Seq<RowView> {
    Seq::new(rows.len(), |i: int| rows[i]@)
}

/// Whether the files of a model are on disk.
pub open spec fn is_downloaded(m: ListedModel, downloaded_ids: Seq<String>) -> bool {
    text::contains_text(downloaded_ids, m.model.id@) || m.model.registry_status == Some(
        ModelRegistryStatus::Downloaded,
    )
}

/// Whether a model is listed at all: downloaded or asked for, and a language
/// model.
pub open spec fn is_listed(m: ListedModel, downloaded_ids: Seq<String>, show_all: bool) -> bool {
    (show_all || is_downloaded(m, downloaded_ids)) && m.model.category == Some(ModelCategory::Language)
}

/// A row before its first variant.
pub open spec fn empty_row(key: Seq<char>) -> RowView {
    RowView {
        key,
        id: key,
        size_id: Seq::empty(),
        local_path: Seq::empty(),
        name: Seq::empty(),
        category: ModelCategory::Unspecified,
        size_bytes: 0,
        name_rank: i32::MAX,
        size_rank: i32::MAX,
        path_rank: i32::MAX,
        downloaded: false,
        harness_compatible: false,
        backends: Seq::empty(),
    }
}

/// A row with one more variant. The best-ranked downloaded variant supplies the
/// id and path, the best-ranked variant the name, and the best-ranked one with
/// a size the size.
pub open spec fn with_variant(row: RowView, m: ListedModel, downloaded: bool) -> RowView {
    let framework = engine::framework_of(m.model);
    let rank = rank_of(framework);
    let on_disk = downloaded && rank < row.path_rank;
    let named = rank < row.name_rank;
    let sized = m.model.download_size_bytes > 0 && rank < row.size_rank;
    RowView {
        key: row.key,
        id: if on_disk {
            m.model.id@
        } else {
            row.id
        },
        local_path: if on_disk {
            m.model.local_path@
        } else {
            row.local_path
        },
        path_rank: if on_disk {
            rank
        } else {
            row.path_rank
        },
        name: if named {
            m.model.name@
        } else {
            row.name
        },
        category: if named {
            engine::category_of(m.model)
        } else {
            row.category
        },
        name_rank: if named {
            rank
        } else {
            row.name_rank
        },
        size_id: if sized {
            m.model.id@
        } else {
            row.size_id
        },
        size_bytes: if sized {
            m.model.download_size_bytes
        } else {
            row.size_bytes
        },
        size_rank: if sized {
            rank
        } else {
            row.size_rank
        },
        downloaded: row.downloaded || downloaded,
        harness_compatible: row.harness_compatible || m.harness_compatible,
        backends: tag_insert(row.backends, (rank as int, model_labels::short_backend_label(framework))),
    }
}

/// The row of a key, if there is one yet.
pub open spec fn row_index(rows: Seq<RowView>, key: Seq<char>) -> Option<int>
    decreases rows.len(),
{
    if rows.len() == 0 {
        None
    } else if rows.last().key == key {
        Some(rows.len() - 1)
    } else {
        row_index(rows.drop_last(), key)
    }
}

/// The rows after one more model of the registry.
pub open spec fn with_model(rows: Seq<RowView>, m: ListedModel, downloaded_ids: Seq<String>, show_all: bool) -> Seq<
    RowView,
> {
    if !is_listed(m, downloaded_ids, show_all) {
        rows
    } else {
        let downloaded = is_downloaded(m, downloaded_ids);
        match row_index(rows, m.merge_key@) {
            Some(i) => rows.update(i, with_variant(rows[i], m, downloaded)),
            None => rows.push(with_variant(empty_row(m.merge_key@), m, downloaded)),
        }
    }
}

/// The rows of the first `n` models.
pub open spec fn grouped(models: Seq<ListedModel>, downloaded_ids: Seq<String>, show_all: bool, n: int) -> Seq<RowView>
    decreases n,
{
    if n <= 0 {
        Seq::empty()
    } else {
        with_model(grouped(models, downloaded_ids, show_all, n - 1), models[n - 1], downloaded_ids, show_all)
    }
}

fn tag_insert_exec(tags: &mut Vec<BackendTag>, from: usize, t: BackendTag)
    requires
        from <= old(tags)@.len(),
    ensures
        tags_view(final(tags)@) == tags_view(old(tags)@).take(from as int) + tag_insert(
            tags_view(old(tags)@).skip(from as int),
            t@,
        ),
    decreases old(tags)@.len() - from,
{
    let ghost before = tags_view(tags@);
    let ghost rest = before.skip(from as int);
    if from == tags.len() {
        tags.push(t);
        assert(tags_view(tags@) =~= before.take(from as int) + tag_insert(rest, t@));
        return;
    }
    let here = tags[from];
    assert(rest[0] == here@);
    if here.rank == t.rank && text::str_eq(here.label, t.label) {
        assert(tags_view(tags@) =~= before.take(from as int) + tag_insert(rest, t@));
        return;
    }
    if t.rank < here.rank || (t.rank == here.rank && text::text_less_exec(t.label, here.label)) {
        tags.insert(from, t);
        assert(tags_view(tags@) =~= before.take(from as int) + tag_insert(rest, t@));
        return;
    }
    assert(rest.skip(1) =~= before.skip(from + 1));
    tag_insert_exec(tags, from + 1, t);
    assert(before.take(from + 1) + tag_insert(rest.skip(1), t@) =~= before.take(from as int) + tag_insert(rest, t@));
}

impl GroupedRow {
    /// A row before its first variant.
    pub fn keyed(key: &str) -> (r: GroupedRow)
        ensures
            r@ == empty_row(key@),
    {
        let r = GroupedRow {
            key: text::owned(key),
            id: text::owned(key),
            size_id: String::new(),
            local_path: String::new(),
            name: String::new(),
            category: ModelCategory::Unspecified,
            size_bytes: 0,
            name_rank: i32::MAX,
            size_rank: i32::MAX,
            path_rank: i32::MAX,
            downloaded: false,
            harness_compatible: false,
            backends: Vec::new(),
        };
        assert(r@ =~= empty_row(key@));
        r
    }

    fn take_variant(&mut self, m: &ListedModel, downloaded: bool)
        ensures
            final(self)@ == with_variant(old(self)@, *m, downloaded),
    {
        let framework = engine::framework_or_unspecified(&m.model);
        let rank: i32 = backend_rank(framework);
        let ghost before = self.backends@;
        tag_insert_exec(&mut self.backends, 0, BackendTag { rank, label: model_labels::short_backend(framework) });
        assert(tags_view(before).skip(0) =~= tags_view(before));
        assert(tags_view(before).take(0) =~= Seq::empty());
        assert(tags_view(self.backends@) =~= tag_insert(
            tags_view(before),
            (rank as int, model_labels::short_backend_label(framework)),
        ));
        self.downloaded = self.downloaded || downloaded;
        self.harness_compatible = self.harness_compatible || m.harness_compatible;
        if downloaded && rank < self.path_rank {
            self.path_rank = rank;
            self.local_path = text::owned(m.model.local_path.as_str());
            self.id = text::owned(m.model.id.as_str());
        }
        if rank < self.name_rank {
            self.name_rank = rank;
            self.name = text::owned(m.model.name.as_str());
            self.category = engine::category_or_unspecified(&m.model);
        }
        let size: i64 = m.model.download_size_bytes;
        if size > 0 && rank < self.size_rank {
            self.size_rank = rank;
            self.size_bytes = size;
            self.size_id = text::owned(m.model.id.as_str());
        }
        assert(self@ =~= with_variant(old(self)@, *m, downloaded));
    }
}

fn row_index_exec(rows: &Vec<GroupedRow>, key: &str) -> (r: Option<usize>)
    ensures
        match row_index(rows_view(rows@), key@) {
            Some(i) => r is Some && r->0 == i && 0 <= i < rows@.len(),
            None => r is None,
        },
{
    let mut n: usize = rows.len();
    let ghost all = rows_view(rows@);
    assert(all.take(n as int) =~= all);
    while n > 0
        invariant
            n <= rows@.len(),
            all == rows_view(rows@),
            row_index(all, key@) == row_index(all.take(n as int), key@),
        decreases n,
    {
        assert(all.take(n as int).last() == rows@[n - 1]@);
        if text::str_eq(rows[n - 1].key.as_str(), key) {
            return Some(n - 1);
        }
        assert(all.take(n as int).drop_last() =~= all.take(n - 1));
        n = n - 1;
    }
    None
}

/// Collapses the variants of each model into one row, in the order in which the
/// registry first names them.
pub fn group_models(models: &Vec<ListedModel>, downloaded_ids: &Vec<String>, show_all: bool) -> (rows: Vec<GroupedRow>)
    ensures
        rows_view(rows@) == grouped(models@, downloaded_ids@, show_all, models@.len() as int),
{
    let mut rows: Vec<GroupedRow> = Vec::new();
    let mut i: usize = 0;
    assert(rows_view(rows@) =~= grouped(models@, downloaded_ids@, show_all, 0));
    while i < models.len()
        invariant
            i <= models@.len(),
            rows_view(rows@) == grouped(models@, downloaded_ids@, show_all, i as int),
        decreases models@.len() - i,
    {
        let m = &models[i];
        let ghost before = rows_view(rows@);
        let marked = match m.model.registry_status {
            Some(s) => s == ModelRegistryStatus::Downloaded,
            None => false,
        };
        let downloaded = text::contains_text_exec(downloaded_ids, m.model.id.as_str()) || marked;
        let language = match m.model.category {
            Some(c) => c == ModelCategory::Language,
            None => false,
        };
        if (show_all || downloaded) && language {
            match row_index_exec(&rows, m.merge_key.as_str()) {
                Some(at) => {
                    let mut row = rows.remove(at);
                    row.take_variant(m, downloaded);
                    rows.insert(at, row);
                    assert(rows_view(rows@) =~= before.update(at as int, with_variant(before[at as int], *m, downloaded)));
                },
                None => {
                    let mut row = GroupedRow::keyed(m.merge_key.as_str());
                    row.take_variant(m, downloaded);
                    rows.push(row);
                    assert(rows_view(rows@) =~= before.push(with_variant(empty_row(m.merge_key@), *m, downloaded)));
                },
            }
        }
        i = i + 1;
    }
    rows
}

proof fn row_index_facts(rows: Seq<RowView>, key: Seq<char>)
    ensures
        match row_index(rows, key) {
            Some(i) => 0 <= i < rows.len() && rows[i].key == key,
            None => forall|k: int| 0 <= k < rows.len() ==> (#[trigger] rows[k]).key != key,
        },
    decreases rows.len(),
{
    if rows.len() > 0 && rows.last().key != key {
        row_index_facts(rows.drop_last(), key);
        assert forall|k: int| row_index(rows, key) is None && 0 <= k < rows.len() implies (#[trigger] rows[k]).key != key by {
            if k < rows.len() - 1 {
                assert(rows.drop_last()[k] == rows[k]);
            }
        }
    }
}

/// No two rows share a key.
pub open spec fn keys_distinct(rows: Seq<RowView>) -> bool {
    forall|a: int, b: int| 0 <= a < b < rows.len() ==> (#[trigger] rows[a]).key != (#[trigger] rows[b]).key
}

/// Whether the model at `i` is a variant that is listed in the row of `key`.
pub open spec fn is_variant(
    models: Seq<ListedModel>,
    downloaded_ids: Seq<String>,
    show_all: bool,
    key: Seq<char>,
    i: int,
) -> bool {
    is_listed(models[i], downloaded_ids, show_all) && models[i].merge_key@ == key
}

/// What a row says of the variants on disk: with none downloaded it is named by
/// its key; with some, by the id and path of a downloaded one that no other
/// downloaded one outranks.
pub open spec fn row_names_what_is_on_disk(
    row: RowView,
    models: Seq<ListedModel>,
    downloaded_ids: Seq<String>,
    show_all: bool,
    n: int,
) -> bool {
    if row.downloaded {
        &&& exists|i: int|
            0 <= i < n && #[trigger] is_variant(models, downloaded_ids, show_all, row.key, i) && is_downloaded(
                models[i],
                downloaded_ids,
            ) && row.id == models[i].model.id@ && row.local_path == models[i].model.local_path@ && row.path_rank
                == rank_of(engine::framework_of(models[i].model))
        &&& forall|j: int|
            0 <= j < n && #[trigger] is_variant(models, downloaded_ids, show_all, row.key, j) && is_downloaded(
                models[j],
                downloaded_ids,
            ) ==> row.path_rank <= rank_of(engine::framework_of(models[j].model))
    } else {
        &&& row.id == row.key
        &&& row.path_rank == i32::MAX
        &&& forall|j: int|
            0 <= j < n && #[trigger] is_variant(models, downloaded_ids, show_all, row.key, j) ==> !is_downloaded(
                models[j],
                downloaded_ids,
            )
    }
}

/// A variant on disk wins over the merge key: a row's id is what `pull` and
/// `show` need to reach the backend that is downloaded, and the key only where
/// none is. No model has two rows.
pub proof fn downloaded_variant_wins(models: Seq<ListedModel>, downloaded_ids: Seq<String>, show_all: bool, n: int)
    requires
        0 <= n <= models.len(),
    ensures
        keys_distinct(grouped(models, downloaded_ids, show_all, n)),
        forall|k: int|
            0 <= k < grouped(models, downloaded_ids, show_all, n).len() ==> row_names_what_is_on_disk(
                #[trigger] grouped(models, downloaded_ids, show_all, n)[k],
                models,
                downloaded_ids,
                show_all,
                n,
            ),
        // Every listed model is in a row.
        forall|i: int|
            0 <= i < n && is_listed(models[i], downloaded_ids, show_all) ==> row_index(
                grouped(models, downloaded_ids, show_all, n),
                (#[trigger] models[i]).merge_key@,
            ) is Some,
    decreases n,
{
    if n > 0 {
        downloaded_variant_wins(models, downloaded_ids, show_all, n - 1);
        let before = grouped(models, downloaded_ids, show_all, n - 1);
        let after = grouped(models, downloaded_ids, show_all, n);
        let m = models[n - 1];
        let key = m.merge_key@;
        row_index_facts(before, key);
        row_index_facts(after, key);
        assert forall|k: int| 0 <= k < after.len() implies row_names_what_is_on_disk(
            #[trigger] after[k],
            models,
            downloaded_ids,
            show_all,
            n,
        ) by {
            let row = after[k];
            if is_listed(m, downloaded_ids, show_all) && row.key == key {
                assert(is_variant(models, downloaded_ids, show_all, key, n - 1));
                match row_index(before, key) {
                    Some(i) => {
                        assert(k == i);
                        assert(row_names_what_is_on_disk(before[i], models, downloaded_ids, show_all, n - 1));
                    },
                    None => {
                        assert forall|j: int| 0 <= j < n - 1 implies !#[trigger] is_variant(
                            models,
                            downloaded_ids,
                            show_all,
                            key,
                            j,
                        ) by {
                            if is_variant(models, downloaded_ids, show_all, key, j) {
                                assert(models[j].merge_key@ == key);
                            }
                        }
                    },
                }
            } else {
                assert(row == before[k]);
                assert(row_names_what_is_on_disk(before[k], models, downloaded_ids, show_all, n - 1));
                assert(!is_variant(models, downloaded_ids, show_all, row.key, n - 1));
            }
        }
        assert forall|i: int| 0 <= i < n && is_listed(models[i], downloaded_ids, show_all) implies row_index(
            after,
            (#[trigger] models[i]).merge_key@,
        ) is Some by {
            let wanted = models[i].merge_key@;
            row_index_facts(after, wanted);
            row_index_facts(before, wanted);
            if i < n - 1 {
                let at = row_index(before, wanted)->0;
                assert(after[at].key == wanted);
            } else {
                match row_index(before, key) {
                    Some(at) => {
                        assert(after[at].key == key);
                    },
                    None => {
                        assert(after.last().key == key);
                    },
                }
            }
        }
    }
}

/// Whether a model runs on a better backend than another: MLX before llama.cpp,
/// that before the Neural Engine, that before the NPU, and those before the rest.
pub open spec fn outranks(a: ListedModel, b: ListedModel) -> bool {
    let (f, g) = (a.model.framework, b.model.framework);
    let mlx = Some(InferenceFramework::Mlx);
    let llama = Some(InferenceFramework::LlamaCpp);
    let ane = Some(InferenceFramework::Coreml);
    let npu = Some(InferenceFramework::Qhexrt);
    ||| f == mlx && g != mlx
    ||| f == llama && g != mlx && g != llama
    ||| f == ane && g != mlx && g != llama && g != ane
    ||| f == npu && g != mlx && g != llama && g != ane && g != npu
}

/// Whether the files of the model at `i` are on disk: the registry marks it, or
/// its id is among those of the downloaded ones.
pub open spec fn on_disk(models: Seq<ListedModel>, downloaded_ids: Seq<String>, i: int) -> bool {
    ||| models[i].model.registry_status == Some(ModelRegistryStatus::Downloaded)
    ||| exists|d: int| 0 <= d < downloaded_ids.len() && (#[trigger] downloaded_ids[d])@ == models[i].model.id@
}

/// Whether the model at `i` is shown in the row of `key`: a language model of that
/// key, on disk or asked for.
pub open spec fn is_of_row(
    models: Seq<ListedModel>,
    downloaded_ids: Seq<String>,
    show_all: bool,
    key: Seq<char>,
    i: int,
) -> bool {
    &&& models[i].merge_key@ == key
    &&& models[i].model.category == Some(ModelCategory::Language)
    &&& show_all || on_disk(models, downloaded_ids, i)
}

/// What the size of a row is: that of a variant that has one, the first of those
/// that no other such variant outranks, or 0 where none has one.
pub open spec fn shows_the_best_size(
    row: RowView,
    models: Seq<ListedModel>,
    downloaded_ids: Seq<String>,
    show_all: bool,
    n: int,
) -> bool {
    ||| {
        &&& row.size_bytes == 0
        &&& row.size_id.len() == 0
        &&& row.size_rank == i32::MAX
        &&& forall|j: int|
            0 <= j < n && #[trigger] is_of_row(models, downloaded_ids, show_all, row.key, j)
                ==> models[j].model.download_size_bytes <= 0
    }
    ||| exists|i: int|
        0 <= i < n && #[trigger] is_of_row(models, downloaded_ids, show_all, row.key, i)
            && models[i].model.download_size_bytes > 0 && row.size_bytes == models[i].model.download_size_bytes
            && row.size_id == models[i].model.id@ && row.size_rank == rank_of(engine::framework_of(models[i].model)) && (
        forall|j: int|
            0 <= j < n && #[trigger] is_of_row(models, downloaded_ids, show_all, row.key, j)
                && models[j].model.download_size_bytes > 0 ==> !outranks(models[j], models[i]) && (j < i ==> outranks(
                models[i],
                models[j],
            )))
}

/// What the name of a row is: that of the first variant that no other outranks.
pub open spec fn shows_the_best_name(
    row: RowView,
    models: Seq<ListedModel>,
    downloaded_ids: Seq<String>,
    show_all: bool,
    n: int,
) -> bool {
    exists|i: int|
        0 <= i < n && #[trigger] is_of_row(models, downloaded_ids, show_all, row.key, i) && row.name
            == models[i].model.name@ && row.category == ModelCategory::Language && row.name_rank == rank_of(
            engine::framework_of(models[i].model),
        ) && (forall|j: int|
            0 <= j < n && #[trigger] is_of_row(models, downloaded_ids, show_all, row.key, j) ==> !outranks(
                models[j],
                models[i],
            ) && (j < i ==> outranks(models[i], models[j])))
}

/// What the id and the path of a row are: those of the first variant on disk that
/// no other on disk outranks, or its key and no path where none is on disk.
pub open spec fn shows_the_best_on_disk(
    row: RowView,
    models: Seq<ListedModel>,
    downloaded_ids: Seq<String>,
    show_all: bool,
    n: int,
) -> bool {
    ||| {
        &&& !row.downloaded
        &&& row.id == row.key
        &&& row.local_path.len() == 0
        &&& row.path_rank == i32::MAX
        &&& forall|j: int|
            0 <= j < n && #[trigger] is_of_row(models, downloaded_ids, show_all, row.key, j) ==> !on_disk(
                models,
                downloaded_ids,
                j,
            )
    }
    ||| row.downloaded && exists|i: int|
        0 <= i < n && #[trigger] is_of_row(models, downloaded_ids, show_all, row.key, i) && on_disk(
            models,
            downloaded_ids,
            i,
        ) && row.id == models[i].model.id@ && row.local_path == models[i].model.local_path@ && row.path_rank == rank_of(
            engine::framework_of(models[i].model),
        ) && (forall|j: int|
            0 <= j < n && #[trigger] is_of_row(models, downloaded_ids, show_all, row.key, j) && on_disk(
                models,
                downloaded_ids,
                j,
            ) ==> !outranks(models[j], models[i]) && (j < i ==> outranks(models[i], models[j])))
}

/// Whether one of the variants of a row can be driven by a coding harness.
pub open spec fn some_variant_is_compatible(
    models: Seq<ListedModel>,
    downloaded_ids: Seq<String>,
    show_all: bool,
    key: Seq<char>,
    n: int,
) -> bool {
    exists|i: int|
        0 <= i < n && #[trigger] is_of_row(models, downloaded_ids, show_all, key, i) && models[i].harness_compatible
}

/// All that a row says of its variants.
spec fn row_sums_up(
    row: RowView,
    models: Seq<ListedModel>,
    downloaded_ids: Seq<String>,
    show_all: bool,
    n: int,
) -> bool {
    &&& shows_the_best_size(row, models, downloaded_ids, show_all, n)
    &&& shows_the_best_name(row, models, downloaded_ids, show_all, n)
    &&& shows_the_best_on_disk(row, models, downloaded_ids, show_all, n)
    &&& row.harness_compatible == some_variant_is_compatible(models, downloaded_ids, show_all, row.key, n)
}

proof fn outranks_is_a_lower_rank(a: ListedModel, b: ListedModel)
    ensures
        outranks(a, b) == (rank_of(engine::framework_of(a.model)) < rank_of(engine::framework_of(b.model))),
        rank_of(engine::framework_of(a.model)) < i32::MAX,
{
}

/// What holds of a row for the variants before the last holds of it when the last
/// is none of its own.
proof fn another_row_is_untouched(
    row: RowView,
    models: Seq<ListedModel>,
    downloaded_ids: Seq<String>,
    show_all: bool,
    n: int,
)
    requires
        0 < n <= models.len(),
        !is_of_row(models, downloaded_ids, show_all, row.key, n - 1),
        row_sums_up(row, models, downloaded_ids, show_all, n - 1),
    ensures
        row_sums_up(row, models, downloaded_ids, show_all, n),
{
    let has = some_variant_is_compatible(models, downloaded_ids, show_all, row.key, n);
    if has {
        let i = choose|i: int|
            0 <= i < n && #[trigger] is_of_row(models, downloaded_ids, show_all, row.key, i)
                && models[i].harness_compatible;
        assert(i < n - 1);
    }
}

/// A row with its own next variant sums that up too; the row before its first
/// variant has no name.
proof fn its_own_row_takes_it_in(
    row: RowView,
    models: Seq<ListedModel>,
    downloaded_ids: Seq<String>,
    show_all: bool,
    n: int,
)
    requires
        0 < n <= models.len(),
        is_of_row(models, downloaded_ids, show_all, row.key, n - 1),
        row_sums_up(row, models, downloaded_ids, show_all, n - 1) || (row == empty_row(row.key) && forall|j: int|
            0 <= j < n - 1 ==> !#[trigger] is_of_row(models, downloaded_ids, show_all, row.key, j)),
    ensures
        row_sums_up(
            with_variant(row, models[n - 1], on_disk(models, downloaded_ids, n - 1)),
            models,
            downloaded_ids,
            show_all,
            n,
        ),
{
    let m = models[n - 1];
    let after = with_variant(row, m, on_disk(models, downloaded_ids, n - 1));
    assert forall|a: int, b: int| #[trigger] outranks(models[a], models[b]) == (rank_of(
        engine::framework_of(models[a].model),
    ) < rank_of(engine::framework_of(models[b].model))) by {
        outranks_is_a_lower_rank(models[a], models[b]);
    }
    assert forall|a: int| rank_of(#[trigger] engine::framework_of(models[a].model)) < i32::MAX by {
        outranks_is_a_lower_rank(models[a], models[a]);
    }
    assert(shows_the_best_size(row, models, downloaded_ids, show_all, n - 1));
    assert(shows_the_best_on_disk(row, models, downloaded_ids, show_all, n - 1));
    assert(row.harness_compatible == some_variant_is_compatible(models, downloaded_ids, show_all, row.key, n - 1));
    assert(shows_the_best_size(after, models, downloaded_ids, show_all, n)) by {
        let sized = m.model.download_size_bytes > 0 && rank_of(engine::framework_of(m.model)) < row.size_rank;
        assert forall|j: int|
            sized && 0 <= j < n && #[trigger] is_of_row(models, downloaded_ids, show_all, row.key, j)
                && models[j].model.download_size_bytes > 0 implies !outranks(models[j], m) && (j < n - 1 ==> outranks(
            m,
            models[j],
        )) by {
            outranks_is_a_lower_rank(models[j], m);
            outranks_is_a_lower_rank(m, models[j]);
            if row.size_rank < i32::MAX && j < n - 1 {
                let i = choose|i: int|
                    0 <= i < n - 1 && #[trigger] is_of_row(models, downloaded_ids, show_all, row.key, i) && row.size_rank
                        == rank_of(engine::framework_of(models[i].model)) && !outranks(models[j], models[i]);
                outranks_is_a_lower_rank(models[j], models[i]);
            }
        }
        if !sized && row.size_rank < i32::MAX {
            let i = choose|i: int|
                0 <= i < n - 1 && #[trigger] is_of_row(models, downloaded_ids, show_all, row.key, i)
                    && models[i].model.download_size_bytes > 0 && row.size_bytes == models[i].model.download_size_bytes
                    && row.size_id == models[i].model.id@ && row.size_rank == rank_of(
                    engine::framework_of(models[i].model),
                ) && (forall|j: int|
                    0 <= j < n - 1 && #[trigger] is_of_row(models, downloaded_ids, show_all, row.key, j)
                        && models[j].model.download_size_bytes > 0 ==> !outranks(models[j], models[i]) && (j < i
                        ==> outranks(models[i], models[j])));
            outranks_is_a_lower_rank(m, models[i]);
            assert(is_of_row(models, downloaded_ids, show_all, after.key, i));
        }
        if sized {
            assert(is_of_row(models, downloaded_ids, show_all, after.key, n - 1));
        } else if row.size_rank == i32::MAX {
            outranks_is_a_lower_rank(m, m);
            assert(m.model.download_size_bytes <= 0);
            assert forall|j: int|
                0 <= j < n && #[trigger] is_of_row(models, downloaded_ids, show_all, after.key, j) implies models[j].model.download_size_bytes
                <= 0 by {
                assert(j < n - 1 ==> is_of_row(models, downloaded_ids, show_all, row.key, j));
            }
        }
    }
    assert(shows_the_best_name(after, models, downloaded_ids, show_all, n)) by {
        let named = rank_of(engine::framework_of(m.model)) < row.name_rank;
        if named {
            assert forall|j: int|
                0 <= j < n && #[trigger] is_of_row(models, downloaded_ids, show_all, row.key, j) implies !outranks(
                models[j],
                m,
            ) && (j < n - 1 ==> outranks(m, models[j])) by {
                outranks_is_a_lower_rank(models[j], m);
                outranks_is_a_lower_rank(m, models[j]);
                if j < n - 1 {
                    let i = choose|i: int|
                        0 <= i < n - 1 && #[trigger] is_of_row(models, downloaded_ids, show_all, row.key, i)
                            && row.name_rank == rank_of(engine::framework_of(models[i].model)) && !outranks(
                            models[j],
                            models[i],
                        );
                    outranks_is_a_lower_rank(models[j], models[i]);
                }
            }
            assert(is_of_row(models, downloaded_ids, show_all, after.key, n - 1));
        } else {
            let i = choose|i: int|
                0 <= i < n - 1 && #[trigger] is_of_row(models, downloaded_ids, show_all, row.key, i) && row.name
                    == models[i].model.name@ && row.category == ModelCategory::Language && row.name_rank == rank_of(
                    engine::framework_of(models[i].model),
                ) && (forall|j: int|
                    0 <= j < n - 1 && #[trigger] is_of_row(models, downloaded_ids, show_all, row.key, j) ==> !outranks(
                        models[j],
                        models[i],
                    ) && (j < i ==> outranks(models[i], models[j])));
            outranks_is_a_lower_rank(m, models[i]);
            assert(is_of_row(models, downloaded_ids, show_all, after.key, i));
        }
    }
    assert(shows_the_best_on_disk(after, models, downloaded_ids, show_all, n));
    if some_variant_is_compatible(models, downloaded_ids, show_all, row.key, n) && !m.harness_compatible {
        let i = choose|i: int|
            0 <= i < n && #[trigger] is_of_row(models, downloaded_ids, show_all, row.key, i)
                && models[i].harness_compatible;
        assert(i < n - 1);
    }
}

/// Each row sums up the variants that share its key: it has the size of the
/// best-ranked one that has a size, the name of the best-ranked one, the id and
/// path of the best-ranked one on disk, and can be driven by a coding harness
/// where one of them can.
pub proof fn a_row_sums_up_its_variants(
    models: Seq<ListedModel>,
    downloaded_ids: Seq<String>,
    show_all: bool,
    n: int,
    k: int,
)
    requires
        0 <= n <= models.len(),
        0 <= k < grouped(models, downloaded_ids, show_all, n).len(),
    ensures
        ({
            let row = grouped(models, downloaded_ids, show_all, n)[k];
            &&& shows_the_best_size(row, models, downloaded_ids, show_all, n)
            &&& shows_the_best_name(row, models, downloaded_ids, show_all, n)
            &&& shows_the_best_on_disk(row, models, downloaded_ids, show_all, n)
            &&& row.harness_compatible == some_variant_is_compatible(models, downloaded_ids, show_all, row.key, n)
        }),
    decreases n,
{
    if n > 0 {
        let before = grouped(models, downloaded_ids, show_all, n - 1);
        let after = grouped(models, downloaded_ids, show_all, n);
        let m = models[n - 1];
        let key = m.merge_key@;
        let listed = is_listed(m, downloaded_ids, show_all);
        assert(is_downloaded(m, downloaded_ids) == on_disk(models, downloaded_ids, n - 1));
        assert(listed == is_of_row(models, downloaded_ids, show_all, key, n - 1));
        row_index_facts(before, key);
        downloaded_variant_wins(models, downloaded_ids, show_all, n - 1);
        downloaded_variant_wins(models, downloaded_ids, show_all, n);
        if listed && after[k].key == key {
            match row_index(before, key) {
                Some(i) => {
                    assert(after[i].key == key);
                    assert(k == i);
                    a_row_sums_up_its_variants(models, downloaded_ids, show_all, n - 1, i);
                    its_own_row_takes_it_in(before[i], models, downloaded_ids, show_all, n);
                },
                None => {
                    assert(k == before.len()) by {
                        if k < before.len() {
                            assert(before[k].key != key);
                            assert(after[k] == before[k]);
                        }
                    }
                    assert forall|j: int| 0 <= j < n - 1 implies !#[trigger] is_of_row(
                        models,
                        downloaded_ids,
                        show_all,
                        key,
                        j,
                    ) by {
                        if is_of_row(models, downloaded_ids, show_all, key, j) {
                            assert(is_downloaded(models[j], downloaded_ids) == on_disk(models, downloaded_ids, j));
                            assert(is_listed(models[j], downloaded_ids, show_all));
                            assert(models[j].merge_key@ == key);
                        }
                    }
                    its_own_row_takes_it_in(empty_row(key), models, downloaded_ids, show_all, n);
                },
            }
        } else {
            assert(k < before.len());
            assert(after[k] == before[k]);
            a_row_sums_up_its_variants(models, downloaded_ids, show_all, n - 1, k);
            another_row_is_untouched(before[k], models, downloaded_ids, show_all, n);
        }
    }
}

/// Every model that is shown has a row, no two rows are for the same key, and a
/// row stands where the registry first names one of its variants.
pub proof fn rows_keep_the_order_of_the_registry(
    models: Seq<ListedModel>,
    downloaded_ids: Seq<String>,
    show_all: bool,
    n: int,
)
    requires
        0 <= n <= models.len(),
    ensures
        ({
            let rows = grouped(models, downloaded_ids, show_all, n);
            &&& forall|i: int|
                0 <= i < n && is_of_row(models, downloaded_ids, show_all, (#[trigger] models[i]).merge_key@, i)
                    ==> exists|k: int| 0 <= k < rows.len() && (#[trigger] rows[k]).key == models[i].merge_key@
            &&& forall|a: int, b: int, j: int|
                0 <= a < b < rows.len() && 0 <= j < n && #[trigger] is_of_row(
                    models,
                    downloaded_ids,
                    show_all,
                    rows[b].key,
                    j,
                ) ==> (#[trigger] rows[a]).key != rows[b].key && exists|i: int|
                    0 <= i < j && #[trigger] is_of_row(models, downloaded_ids, show_all, rows[a].key, i)
        }),
    decreases n,
{
    let rows = grouped(models, downloaded_ids, show_all, n);
    downloaded_variant_wins(models, downloaded_ids, show_all, n);
    assert forall|i: int|
        0 <= i < n && is_of_row(
            models,
            downloaded_ids,
            show_all,
            (#[trigger] models[i]).merge_key@,
            i,
        ) implies exists|k: int| 0 <= k < rows.len() && (#[trigger] rows[k]).key == models[i].merge_key@ by {
        assert(is_downloaded(models[i], downloaded_ids) == on_disk(models, downloaded_ids, i));
        row_index_facts(rows, models[i].merge_key@);
        let k = row_index(rows, models[i].merge_key@)->0;
        assert(rows[k].key == models[i].merge_key@);
    }
    if n > 0 {
        rows_keep_the_order_of_the_registry(models, downloaded_ids, show_all, n - 1);
        let before = grouped(models, downloaded_ids, show_all, n - 1);
        let m = models[n - 1];
        row_index_facts(before, m.merge_key@);
        assert forall|a: int, b: int, j: int|
            0 <= a < b < rows.len() && 0 <= j < n && #[trigger] is_of_row(
                models,
                downloaded_ids,
                show_all,
                rows[b].key,
                j,
            ) implies (#[trigger] rows[a]).key != rows[b].key && exists|i: int|
            0 <= i < j && #[trigger] is_of_row(models, downloaded_ids, show_all, rows[a].key, i) by {
            assert(rows[a].key == before[a].key);
            if j == n - 1 {
                a_row_sums_up_its_variants(models, downloaded_ids, show_all, n - 1, a);
                let i = choose|i: int|
                    0 <= i < n - 1 && #[trigger] is_of_row(models, downloaded_ids, show_all, before[a].key, i);
                assert(is_of_row(models, downloaded_ids, show_all, rows[a].key, i));
            } else if b < before.len() {
                assert(rows[b].key == before[b].key);
                assert(is_of_row(models, downloaded_ids, show_all, before[b].key, j));
                assert(before[a].key != before[b].key);
            } else {
                let key = rows[b].key;
                assert(key == m.merge_key@);
                assert(models[j].merge_key@ == key);
                assert(is_of_row(models, downloaded_ids, show_all, models[j].merge_key@, j));
                assert(exists|k: int| 0 <= k < before.len() && (#[trigger] before[k]).key == key);
                assert(false);
            }
        }
    }
}

/// Whether the tags stand in strict order.
pub open spec fn tags_ascend(tags: Seq<(int, Seq<char>)>) -> bool {
    forall|a: int, b: int| 0 <= a < b < tags.len() ==> tag_less(#[trigger] tags[a], #[trigger] tags[b])
}

proof fn tag_less_transitive(a: (int, Seq<char>), b: (int, Seq<char>), c: (int, Seq<char>))
    requires
        tag_less(a, b),
        tag_less(b, c),
    ensures
        tag_less(a, c),
{
    if a.0 == b.0 && b.0 == c.0 {
        text::text_less_transitive(a.1, b.1, c.1);
    }
}

/// A tag put in its place leaves the others in theirs.
proof fn a_tag_is_put_in_its_place(tags: Seq<(int, Seq<char>)>, t: (int, Seq<char>))
    requires
        tags_ascend(tags),
    ensures
        tags_ascend(tag_insert(tags, t)),
        forall|x: (int, Seq<char>)| #[trigger] tag_insert(tags, t).contains(x) == (x == t || tags.contains(x)),
    decreases tags.len(),
{
    let after = tag_insert(tags, t);
    if tags.len() == 0 {
        assert(after[0] == t);
    } else if tags[0] == t {
    } else if tag_less(t, tags[0]) {
        assert(after =~= seq![t] + tags);
        assert forall|a: int, b: int| 0 <= a < b < after.len() implies tag_less(
            #[trigger] after[a],
            #[trigger] after[b],
        ) by {
            if a == 0 && b > 1 {
                assert(tag_less(tags[0], tags[b - 1]));
                tag_less_transitive(t, tags[0], tags[b - 1]);
            } else if a > 0 {
                assert(tag_less(tags[a - 1], tags[b - 1]));
            }
        }
        assert forall|x: (int, Seq<char>)| #[trigger] after.contains(x) == (x == t || tags.contains(x)) by {
            if tags.contains(x) {
                let i = choose|i: int| 0 <= i < tags.len() && tags[i] == x;
                assert(after[i + 1] == x);
            }
            if x == t {
                assert(after[0] == x);
            }
            if after.contains(x) {
                let i = choose|i: int| 0 <= i < after.len() && after[i] == x;
                if i > 0 {
                    assert(tags[i - 1] == x);
                }
            }
        }
    } else {
        let rest = tags.skip(1);
        assert forall|a: int, b: int| 0 <= a < b < rest.len() implies tag_less(#[trigger] rest[a], #[trigger] rest[b]) by {
            assert(tag_less(tags[a + 1], tags[b + 1]));
        }
        a_tag_is_put_in_its_place(rest, t);
        let put = tag_insert(rest, t);
        assert(after =~= seq![tags[0]] + put);
        text::text_less_total(t.1, tags[0].1);
        assert(tag_less(tags[0], t));
        assert forall|a: int, b: int| 0 <= a < b < after.len() implies tag_less(
            #[trigger] after[a],
            #[trigger] after[b],
        ) by {
            if a == 0 {
                let x = put[b - 1];
                assert(put.contains(x));
                if x != t {
                    let i = choose|i: int| 0 <= i < rest.len() && rest[i] == x;
                    assert(tags[i + 1] == x);
                }
            } else {
                assert(tag_less(put[a - 1], put[b - 1]));
            }
        }
        assert forall|x: (int, Seq<char>)| #[trigger] after.contains(x) == (x == t || tags.contains(x)) by {
            assert(put.contains(x) == (x == t || rest.contains(x)));
            if tags.contains(x) {
                let i = choose|i: int| 0 <= i < tags.len() && tags[i] == x;
                if i > 0 {
                    assert(rest[i - 1] == x);
                } else {
                    assert(after[0] == x);
                }
            }
            if put.contains(x) {
                let i = choose|i: int| 0 <= i < put.len() && put[i] == x;
                assert(after[i + 1] == x);
            }
            if after.contains(x) {
                let i = choose|i: int| 0 <= i < after.len() && after[i] == x;
                if i > 0 {
                    assert(put[i - 1] == x);
                } else {
                    assert(tags[0] == x);
                }
            }
            if rest.contains(x) {
                let i = choose|i: int| 0 <= i < rest.len() && rest[i] == x;
                assert(tags[i + 1] == x);
            }
        }
    }
}

/// The tag of a variant: how early its backend is listed, and what it is called.
pub open spec fn tag_of(m: ListedModel) -> (int, Seq<char>) {
    (rank_of(engine::framework_of(m.model)) as int, model_labels::short_backend_label(engine::framework_of(m.model)))
}

/// The backends of a row are those of its variants, each once, and that of a
/// variant stands before those it outranks.
pub proof fn a_row_names_its_backends(
    models: Seq<ListedModel>,
    downloaded_ids: Seq<String>,
    show_all: bool,
    n: int,
    k: int,
)
    requires
        0 <= n <= models.len(),
        0 <= k < grouped(models, downloaded_ids, show_all, n).len(),
    ensures
        ({
            let row = grouped(models, downloaded_ids, show_all, n)[k];
            let tags = row.backends;
            &&& tags_ascend(tags)
            &&& forall|i: int|
                0 <= i < n && #[trigger] is_of_row(models, downloaded_ids, show_all, row.key, i) ==> tags.contains(
                    tag_of(models[i]),
                )
            &&& forall|x: (int, Seq<char>)| #[trigger] tags.contains(x) ==> exists|i: int|
                0 <= i < n && #[trigger] is_of_row(models, downloaded_ids, show_all, row.key, i) && x == tag_of(models[i])
            &&& forall|p: int, q: int, i: int, j: int|
                0 <= p < tags.len() && 0 <= q < tags.len() && #[trigger] tags[p] == tag_of(models[i])
                    && #[trigger] tags[q] == tag_of(models[j]) && #[trigger] outranks(models[i], models[j]) ==> p < q
        }),
    decreases n,
{
    let after = grouped(models, downloaded_ids, show_all, n);
    let row = after[k];
    let tags = row.backends;
    if n > 0 {
        let before = grouped(models, downloaded_ids, show_all, n - 1);
        let m = models[n - 1];
        let key = m.merge_key@;
        let listed = is_listed(m, downloaded_ids, show_all);
        assert(is_downloaded(m, downloaded_ids) == on_disk(models, downloaded_ids, n - 1));
        assert(listed == is_of_row(models, downloaded_ids, show_all, key, n - 1));
        row_index_facts(before, key);
        downloaded_variant_wins(models, downloaded_ids, show_all, n - 1);
        downloaded_variant_wins(models, downloaded_ids, show_all, n);
        if listed && row.key == key {
            let old_row = match row_index(before, key) {
                Some(i) => before[i],
                None => empty_row(key),
            };
            match row_index(before, key) {
                Some(i) => {
                    assert(after[i].key == key);
                    assert(k == i);
                    a_row_names_its_backends(models, downloaded_ids, show_all, n - 1, i);
                },
                None => {
                    assert(k == before.len()) by {
                        if k < before.len() {
                            assert(before[k].key != key);
                            assert(after[k] == before[k]);
                        }
                    }
                    assert forall|j: int| 0 <= j < n - 1 implies !#[trigger] is_of_row(
                        models,
                        downloaded_ids,
                        show_all,
                        key,
                        j,
                    ) by {
                        if is_of_row(models, downloaded_ids, show_all, key, j) {
                            assert(is_downloaded(models[j], downloaded_ids) == on_disk(models, downloaded_ids, j));
                            assert(is_listed(models[j], downloaded_ids, show_all));
                            assert(models[j].merge_key@ == key);
                        }
                    }
                },
            }
            a_tag_is_put_in_its_place(old_row.backends, tag_of(m));
            assert(tags == tag_insert(old_row.backends, tag_of(m)));
            assert forall|i: int|
                0 <= i < n && #[trigger] is_of_row(models, downloaded_ids, show_all, row.key, i) implies tags.contains(
                tag_of(models[i]),
            ) by {
                if i < n - 1 {
                    assert(old_row.backends.contains(tag_of(models[i])));
                }
            }
            assert forall|x: (int, Seq<char>)| #[trigger] tags.contains(x) implies exists|i: int|
                0 <= i < n && #[trigger] is_of_row(models, downloaded_ids, show_all, row.key, i) && x == tag_of(
                    models[i],
                ) by {
                if x == tag_of(m) {
                    assert(is_of_row(models, downloaded_ids, show_all, row.key, n - 1));
                } else {
                    assert(old_row.backends.contains(x));
                }
            }
        } else {
            assert(after[k] == before[k]);
            a_row_names_its_backends(models, downloaded_ids, show_all, n - 1, k);
        }
    }
    assert forall|p: int, q: int, i: int, j: int|
        0 <= p < tags.len() && 0 <= q < tags.len() && #[trigger] tags[p] == tag_of(models[i]) && #[trigger] tags[q]
            == tag_of(models[j]) && #[trigger] outranks(models[i], models[j]) implies p < q by {
        outranks_is_a_lower_rank(models[i], models[j]);
        if q < p {
            assert(tag_less(tags[q], tags[p]));
        }
    }
}

/// The backends of a row joined by slashes.
pub open spec fn joined_backends(tags: Seq<(int, Seq<char>)>, n: int) -> Seq<char>
    decreases n,
{
    if n <= 0 {
        Seq::empty()
    } else if n == 1 {
        tags[0].1
    } else {
        joined_backends(tags, n - 1) + "/"@ + tags[n - 1].1
    }
}

/// The backends of a row joined by slashes, best-ranked first.
pub fn join_backends(row: &GroupedRow) -> (r: String)
    ensures
        r@ == joined_backends(row@.backends, row@.backends.len() as int),
{
    let mut r = String::new();
    let mut i: usize = 0;
    while i < row.backends.len()
        invariant
            i <= row.backends@.len(),
            r@ == joined_backends(row@.backends, i as int),
        decreases row.backends@.len() - i,
    {
        if i > 0 {
            r.append("/");
        }
        r.append(row.backends[i].label);
        i = i + 1;
        assert(r@ =~= joined_backends(row@.backends, i as int));
    }
    r
}

/// The writes for one row.
pub open spec fn row_json(row: RowView) -> Seq<output::JsonOpView> {
    seq![
        output::begin_array_object(),
        output::field_str("id"@, row.id),
        output::field_str("name"@, row.name),
        output::field_str("modality"@, model_labels::category_label(row.category)),
        output::field_str("backend"@, joined_backends(row.backends, row.backends.len() as int)),
        output::field_i64("size_bytes"@, row.size_bytes as int),
        output::field_bool("downloaded"@, row.downloaded),
        output::field_bool("harness_compatible"@, row.harness_compatible),
        output::field_str("local_path"@, row.local_path),
        output::end_object(),
    ]
}

pub open spec fn rows_json(rows: Seq<RowView>, n: int) -> Seq<output::JsonOpView>
    decreases n,
{
    if n <= 0 {
        Seq::empty()
    } else {
        rows_json(rows, n - 1) + row_json(rows[n - 1])
    }
}

fn put_row(json: &mut JsonWriter, row: &GroupedRow)
    ensures
        final(json)@ == old(json)@ + row_json(row@),
{
    json.begin_array_object();
    json.field_str("id", row.id.as_str());
    json.field_str("name", row.name.as_str());
    json.field_str("modality", model_labels::category(row.category));
    json.field_str("backend", join_backends(row).as_str());
    json.field_i64("size_bytes", row.size_bytes);
    json.field_bool("downloaded", row.downloaded);
    json.field_bool("harness_compatible", row.harness_compatible);
    json.field_str("local_path", row.local_path.as_str());
    json.end_object();
    assert(json@ =~= old(json)@ + row_json(row@));
}

/// The writes for the list.
pub open spec fn list_document(rows: Seq<RowView>) -> Seq<output::JsonOpView> {
    seq![output::begin_object(), output::begin_array("models"@)] + rows_json(rows, rows.len() as int) + seq![
        output::end_array(),
        output::end_object(),
    ]
}

/// The list as one JSON document.
pub fn list_json(rows: &Vec<GroupedRow>) -> (json: JsonWriter)
    ensures
        json@ == list_document(rows_view(rows@)),
{
    let mut json = JsonWriter::new();
    json.begin_object();
    json.begin_array("models");
    let ghost head = json@;
    let ghost all = rows_view(rows@);
    assert(head =~= seq![output::begin_object(), output::begin_array("models"@)]);
    assert(head + rows_json(all, 0) =~= head);
    let mut i: usize = 0;
    while i < rows.len()
        invariant
            i <= rows@.len(),
            all == rows_view(rows@),
            json@ == head + rows_json(all, i as int),
        decreases rows@.len() - i,
    {
        put_row(&mut json, &rows[i]);
        i = i + 1;
        assert(json@ =~= head + rows_json(all, i as int));
    }
    json.end_array();
    json.end_object();
    assert(json@ =~= head + rows_json(all, rows@.len() as int) + seq![output::end_array(), output::end_object()]);
    json
}

/// The header of the list: one example per backend that the build can run.
pub open spec fn pull_examples(llamacpp: bool, apple: bool) -> Seq<(output::Channel, Seq<char>)> {
    seq![output::result("Download a model with `wally models pull <id>`:"@)] + (if llamacpp {
        seq![output::result("  wally models pull qwen3-4b-instruct-2507  # llama.cpp"@)]
    } else {
        Seq::empty()
    }) + (if apple {
        seq![output::result("  wally models pull mlx-qwen3-4b-instruct-2507  # MLX (Apple GPU)"@)]
    } else {
        Seq::empty()
    }) + seq![output::result(Seq::empty())]
}

/// See [`pull_examples`].
pub fn print_pull_examples(llamacpp: bool, apple: bool) -> (out: Printed)
    ensures
        out@ == pull_examples(llamacpp, apple),
{
    let mut out = Printed::new();
    out.result(text::owned("Download a model with `wally models pull <id>`:"));
    if llamacpp {
        out.result(text::owned("  wally models pull qwen3-4b-instruct-2507  # llama.cpp"));
    }
    if apple {
        out.result(text::owned("  wally models pull mlx-qwen3-4b-instruct-2507  # MLX (Apple GPU)"));
    }
    out.result(String::new());
    assert(out@ =~= pull_examples(llamacpp, apple));
    out
}

/// The cells of one row: `size` is the size in readable units.
pub open spec fn list_cells(row: RowView, size: Seq<char>) -> Seq<Seq<char>> {
    seq![
        row.id,
        model_labels::category_label(row.category),
        joined_backends(row.backends, row.backends.len() as int),
        if row.size_bytes > 0 {
            size
        } else {
            "-"@
        },
        if row.downloaded {
            "yes"@
        } else {
            "no"@
        },
        if row.harness_compatible {
            "[harness-compatible]"@
        } else {
            ""@
        },
    ]
}

/// See [`list_cells`].
pub fn row_cells(row: &GroupedRow, size: &str) -> (cells: Vec<String>)
    ensures
        output::strings_view(cells@) == list_cells(row@, size@),
{
    let cells = vec![
        text::owned(row.id.as_str()),
        text::owned(model_labels::category(row.category)),
        join_backends(row),
        text::owned(if row.size_bytes > 0 { size } else { "-" }),
        text::owned(if row.downloaded { "yes" } else { "no" }),
        text::owned(if row.harness_compatible { "[harness-compatible]" } else { "" }),
    ];
    assert(output::strings_view(cells@) =~= list_cells(row@, size@));
    cells
}

/// What is said in place of an empty list.
pub open spec fn empty_list(show_all: bool) -> Seq<char> {
    if show_all {
        "no models registered"@
    } else {
        "no models downloaded — try `wally models list --all` then `wally models pull <id>`"@
    }
}

/// See [`empty_list`].
pub fn empty_list_line(show_all: bool) -> (r: String)
    ensures
        r@ == empty_list(show_all),
{
    if show_all {
        text::owned("no models registered")
    } else {
        text::owned("no models downloaded — try `wally models list --all` then `wally models pull <id>`")
    }
}

/// The columns of the list.
pub open spec fn list_header() -> Seq<Seq<char>> {
    seq!["ID"@, "MODALITY"@, "BACKEND"@, "SIZE"@, "DOWNLOADED"@, "TAGS"@]
}

/// The table of the list.
fn list_table(rows: &Vec<GroupedRow>, sizes: &Vec<String>) -> (r: Table)
    requires
        rows@.len() == sizes@.len(),
    ensures
        output::strings_view(r.header@) == list_header(),
        output::rows_view(r.rows@) == Seq::new(rows@.len(), |i: int| list_cells(rows@[i]@, sizes@[i]@)),
{
    let header = vec![
        text::owned("ID"),
        text::owned("MODALITY"),
        text::owned("BACKEND"),
        text::owned("SIZE"),
        text::owned("DOWNLOADED"),
        text::owned("TAGS"),
    ];
    assert(output::strings_view(header@) =~= list_header());
    let mut cells: Vec<Vec<String>> = Vec::new();
    let ghost wanted = Seq::new(rows@.len(), |i: int| list_cells(rows@[i]@, sizes@[i]@));
    let mut i: usize = 0;
    assert(output::rows_view(cells@) =~= wanted.take(0));
    while i < rows.len()
        invariant
            i <= rows@.len() == sizes@.len(),
            wanted == Seq::new(rows@.len(), |i: int| list_cells(rows@[i]@, sizes@[i]@)),
            output::rows_view(cells@) == wanted.take(i as int),
        decreases rows@.len() - i,
    {
        let ghost before = output::rows_view(cells@);
        let row = row_cells(&rows[i], sizes[i].as_str());
        cells.push(row);
        i = i + 1;
        assert(output::rows_view(cells@) =~= before.push(output::strings_view(row@)));
        assert(output::rows_view(cells@) =~= wanted.take(i as int));
    }
    assert(wanted.take(rows@.len() as int) =~= wanted);
    Table { header, rows: cells }
}

/// What the list shows. `sizes` holds the size of each row in readable units.
pub fn run_list(
    rows: &Vec<GroupedRow>,
    sizes: &Vec<String>,
    show_all: bool,
    json: bool,
    llamacpp: bool,
    apple: bool,
) -> (r: Report)
    requires
        rows@.len() == sizes@.len(),
    ensures
        r@ == if json {
            ReportView::Document(list_document(rows_view(rows@)))
        } else if rows@.len() == 0 {
            ReportView::Lines(pull_examples(llamacpp, apple).push(output::result(empty_list(show_all))))
        } else {
            ReportView::Table(
                pull_examples(llamacpp, apple),
                list_header(),
                Seq::new(rows@.len(), |i: int| list_cells(rows@[i]@, sizes@[i]@)),
                Seq::empty(),
            )
        },
{
    if json {
        return Report::Document(list_json(rows));
    }
    let mut above = print_pull_examples(llamacpp, apple);
    if rows.len() == 0 {
        above.result(empty_list_line(show_all));
        return Report::Lines(above);
    }
    Report::Table(above, list_table(rows, sizes), Printed::new())
}

/// A row is written under its own names.
pub proof fn a_row_is_written_under_its_names(row: RowView)
    ensures
        ({
            let ops = row_json(row);
            let backends = joined_backends(row.backends, row.backends.len() as int);
            &&& ops.contains(output::field_str("id"@, row.id))
            &&& ops.contains(output::field_str("name"@, row.name))
            &&& ops.contains(output::field_str("modality"@, model_labels::category_label(row.category)))
            &&& ops.contains(output::field_str("backend"@, backends))
            &&& ops.contains(output::field_i64("size_bytes"@, row.size_bytes as int))
            &&& ops.contains(output::field_bool("downloaded"@, row.downloaded))
            &&& ops.contains(output::field_bool("harness_compatible"@, row.harness_compatible))
            &&& ops.contains(output::field_str("local_path"@, row.local_path))
        }),
{
    let ops = row_json(row);
    let backends = joined_backends(row.backends, row.backends.len() as int);
    assert(ops[1] == output::field_str("id"@, row.id));
    assert(ops[2] == output::field_str("name"@, row.name));
    assert(ops[3] == output::field_str("modality"@, model_labels::category_label(row.category)));
    assert(ops[4] == output::field_str("backend"@, backends));
    assert(ops[5] == output::field_i64("size_bytes"@, row.size_bytes as int));
    assert(ops[6] == output::field_bool("downloaded"@, row.downloaded));
    assert(ops[7] == output::field_bool("harness_compatible"@, row.harness_compatible));
    assert(ops[8] == output::field_str("local_path"@, row.local_path));
}

/// Every row is in the document, in the order of the list.
pub proof fn rows_are_written_in_order(rows: Seq<RowView>, n: int, i: int)
    requires
        0 <= i < n <= rows.len(),
    ensures
        rows_json(rows, n).len() == 10 * n,
        rows_json(rows, n).subrange(10 * i, 10 * i + 10) == row_json(rows[i]),
        list_document(rows).skip(2).take(rows_json(rows, rows.len() as int).len() as int) == rows_json(
            rows,
            rows.len() as int,
        ),
    decreases n,
{
    let all = rows_json(rows, n);
    let whole = rows_json(rows, rows.len() as int);
    assert(list_document(rows).skip(2).take(whole.len() as int) =~= whole);
    if n > 1 {
        let k = if i < n - 1 {
            i
        } else {
            n - 2
        };
        rows_are_written_in_order(rows, n - 1, k);
        let before = rows_json(rows, n - 1);
        if i < n - 1 {
            assert(all.subrange(10 * i, 10 * i + 10) =~= before.subrange(10 * i, 10 * i + 10));
        } else {
            assert(all.subrange(10 * i, 10 * i + 10) =~= row_json(rows[i]));
        }
    } else {
        assert(rows_json(rows, 0) =~= Seq::empty());
        assert(all.subrange(10 * i, 10 * i + 10) =~= row_json(rows[i]));
    }
}

/// A row of the table has a cell under each heading: its id under `ID`, its backends
/// under `BACKEND`, its size, where it has one, under `SIZE`, and whether it is on
/// disk under `DOWNLOADED`.
pub proof fn a_cell_stands_under_its_heading(row: RowView, size: Seq<char>)
    ensures
        ({
            let (head, cells) = (list_header(), list_cells(row, size));
            &&& head.len() == 6 && cells.len() == 6
            &&& head[0] == "ID"@ && cells[0] == row.id
            &&& head[1] == "MODALITY"@ && cells[1] == model_labels::category_label(row.category)
            &&& head[2] == "BACKEND"@ && cells[2] == joined_backends(row.backends, row.backends.len() as int)
            &&& head[3] == "SIZE"@ && (row.size_bytes > 0 ==> cells[3] == size) && (row.size_bytes <= 0 ==> cells[3]
                == "-"@)
            &&& head[4] == "DOWNLOADED"@ && (row.downloaded ==> cells[4] == "yes"@) && (!row.downloaded ==> cells[4]
                == "no"@)
            &&& head[5] == "TAGS"@ && (row.harness_compatible ==> cells[5] == "[harness-compatible]"@) && (
            !row.harness_compatible ==> cells[5] == ""@)
        }),
{
}

/// The joined backends are the labels of the tags in their order, a slash between
/// any two: cut behind any of them, the front is what those before it make.
pub proof fn joined_backends_are_the_labels(tags: Seq<(int, Seq<char>)>, n: int)
    requires
        0 < n <= tags.len(),
    ensures
        ({
            let (front, all) = (joined_backends(tags, n - 1), joined_backends(tags, n));
            let label = tags[n - 1].1;
            &&& all.take(front.len() as int) == front
            &&& all.skip(all.len() - label.len()) == label
            &&& n == 1 ==> all == label
            &&& n > 1 ==> all.len() == front.len() + 1 + label.len() && all[front.len() as int] == '/'
        }),
{
    reveal_strlit("/");
    let (front, all) = (joined_backends(tags, n - 1), joined_backends(tags, n));
    let label = tags[n - 1].1;
    assert(all.take(front.len() as int) =~= front);
    assert(all.skip(all.len() - label.len()) =~= label);
}

/// An example of a download is given for each backend that the build has, between a
/// heading and a blank line; an empty list says what it is a list of.
pub proof fn examples_are_of_what_the_build_has(llamacpp: bool, apple: bool)
    ensures
        ({
            let lines = pull_examples(llamacpp, apple);
            &&& lines.len() == 2 + (if llamacpp {
                1int
            } else {
                0
            }) + (if apple {
                1int
            } else {
                0
            })
            &&& llamacpp ==> lines[1].1 == "  wally models pull qwen3-4b-instruct-2507  # llama.cpp"@
            &&& apple ==> lines[lines.len() - 2].1
                == "  wally models pull mlx-qwen3-4b-instruct-2507  # MLX (Apple GPU)"@
            &&& lines.last().1.len() == 0
            &&& forall|i: int| 0 <= i < lines.len() ==> (#[trigger] lines[i]).0 == output::Channel::Result
        }),
        empty_list(true) == "no models registered"@,
        empty_list(false)
            == "no models downloaded — try `wally models list --all` then `wally models pull <id>`"@,
{
}

/// What is said when the registry could not be brought up to date.
pub fn refresh_warning(error: &str) -> (r: String)
    ensures
        r@ == "warning: registry refresh failed: "@ + error@,
{
    text::cat2("warning: registry refresh failed: ", error)
}

/// The models of the registry, or why they cannot be listed.
pub fn listed_models(rc: i32, parsed: Result<Vec<ListedModel>, String>) -> (r: Result<Vec<ListedModel>, String>)
    ensures
        match parsed {
            Ok(models) => if rc == engine::SUCCESS {
                r == parsed
            } else {
                r is Err && r->Err_0@ == "failed to list models: "@
            },
            Err(error) => r is Err && r->Err_0@ == "failed to list models: "@ + error@,
        },
{
    match parsed {
        Ok(models) => if rc == engine::SUCCESS {
            Ok(models)
        } else {
            Err(text::owned("failed to list models: "))
        },
        Err(error) => Err(text::cat2("failed to list models: ", error.as_str())),
    }
}

/// A command that lists models.
pub open spec fn with_models_list(cmd: CommandView) -> CommandView {
    cmd
        .option(cli::flag("--all,-a"@, "Include catalog models not yet downloaded"@))
        .action(Action::ModelsList)
}

/// Configures a command that lists models.
pub fn configure_models_list(cmd: &mut Command)
    ensures
        final(cmd)@ == with_models_list(old(cmd)@),
{
    cmd.add_option(Opt::flag("--all,-a", "Include catalog models not yet downloaded"));
    cmd.callback(Action::ModelsList);
}

} // verus!
