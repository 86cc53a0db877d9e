//! `wally models rm <model>`: deletes the files of a model and takes it out of
//! the registry.
//!
//! What is deleted comes from the registry and is confined to the models
//! directory before anything is removed.

use crate::cli;
use crate::cli::{Action, Command, CommandView, Opt, ValueType};
use crate::config::cli_paths;
use crate::engine;
use crate::engine::ModelInfo;
use crate::output;
use crate::output::JsonWriter;
use crate::pathname;
use crate::text;
use vstd::prelude::*;

verus! {

/// What to delete for a model: the path in the registry, but for a single file
/// in a directory named after the model, which goes with its directory.
pub open spec fn target_of(local_path: Seq<char>, is_dir: bool, model_id: Seq<char>) -> Seq<char> {
    match pathname::parent(local_path) {
        Some(parent) => if !is_dir && pathname::file_name(parent) == Some(model_id) {
            parent
        } else {
            local_path
        },
        None => local_path,
    }
}

/// See [`target_of`]; `is_dir` tells whether the path in the registry is a
/// directory.
pub fn deletion_target(local_path: &str, is_dir: bool, model_id: &str) -> (r: String)
    ensures
        r@ == target_of(local_path@, is_dir, model_id@),
{
    if !is_dir {
        if let Some(parent) = pathname::parent_exec(local_path) {
            if let Some((_, name)) = pathname::split_last(parent.as_str()) {
                if text::str_eq(name.as_str(), model_id) {
                    return parent;
                }
            }
        }
    }
    text::owned(local_path)
}

/// A path that is being resolved though the end of it need not exist: what is
/// tried next, and the names that were taken off its end, the last one first.
#[derive(Debug)]
pub struct WeakPath {
    pub existing: String,
    pub remainder: Vec<String>,
}

/// How resolving goes on.
#[derive(Debug)]
pub enum WeakStep {
    /// It is resolved.
    Found(String),
    /// Resolve what is tried next.
    Try(WeakPath),
    /// It cannot be resolved.
    Unresolved,
}

/// The names put back behind a resolved path, the last one first.
pub open spec fn put_back(resolved: Seq<char>, remainder: Seq<Seq<char>>) -> Seq<char>
    decreases remainder.len(),
{
    if remainder.len() == 0 {
        resolved
    } else {
        put_back(pathname::join(resolved, remainder.last()), remainder.drop_last())
    }
}

/// Resolves a path whose end need not exist: names are taken off its end until
/// what is left can be resolved, and are put back behind that. `resolved` is
/// what became of what was tried.
pub fn weakly_canonical(path: WeakPath, resolved: Option<String>) -> (r: WeakStep)
    ensures
        match resolved {
            Some(found) => r matches WeakStep::Found(p) && p@ == put_back(
                found@,
                output::strings_view(path.remainder@),
            ),
            None => match pathname::file_name(path.existing@) {
                Some(name) => r matches WeakStep::Try(next) && pathname::components(next.existing@)
                    == pathname::components(path.existing@).drop_last() && output::strings_view(next.remainder@)
                    == output::strings_view(path.remainder@).push(name),
                None => r is Unresolved,
            },
        },
{
    let mut remainder = path.remainder;
    match resolved {
        Some(found) => {
            let mut r = found;
            let mut n: usize = remainder.len();
            let ghost names = output::strings_view(remainder@);
            assert(names.take(n as int) =~= names);
            while n > 0
                invariant
                    n <= remainder@.len(),
                    names == output::strings_view(remainder@),
                    put_back(r@, names.take(n as int)) == put_back(found@, names),
                decreases n,
            {
                let ghost left = names.take(n as int);
                assert(left.last() == remainder@[n - 1]@);
                assert(left.drop_last() =~= names.take(n - 1));
                r = pathname::join_exec(r.as_str(), remainder[n - 1].as_str());
                n = n - 1;
            }
            WeakStep::Found(r)
        },
        None => match pathname::split_last(path.existing.as_str()) {
            None => WeakStep::Unresolved,
            Some((existing, name)) => {
                let ghost before = output::strings_view(remainder@);
                remainder.push(name);
                assert(output::strings_view(remainder@) =~= before.push(name@));
                WeakStep::Try(WeakPath { existing, remainder })
            },
        },
    }
}

/// Taking names off a path comes to an end, and loses none of them: what is
/// tried next, with the names put back behind it, has the components that there
/// were.
pub proof fn a_path_is_taken_apart_whole(existing: Seq<char>, remainder: Seq<Seq<char>>, next: Seq<char>)
    requires
        pathname::file_name(existing) is Some,
        pathname::components(next) == pathname::components(existing).drop_last(),
    ensures
        pathname::components(next).len() < pathname::components(existing).len(),
        pathname::components(next) + remainder.push(pathname::file_name(existing)->0).reverse()
            == pathname::components(existing) + remainder.reverse(),
{
    let all = pathname::components(existing);
    let name = pathname::file_name(existing)->0;
    assert(all.last() == name);
    assert(remainder.push(name).reverse() =~= seq![name] + remainder.reverse());
    assert(pathname::components(next) + remainder.push(name).reverse() =~= all + remainder.reverse());
}

/// Whether a path lies strictly inside a directory.
pub open spec fn lies_inside(target: Seq<char>, root: Seq<char>) -> bool {
    target.len() > root.len() + 1 && text::starts_with(target, root + "/"@)
}

/// Whether what is to be deleted lies strictly inside the models directory. Both
/// paths have their symlinks resolved; one that cannot be resolved lies nowhere.
pub fn confined_to(target: &Option<String>, models_root: &Option<String>) -> (r: bool)
    ensures
        r == is_confined(cli_paths::given(*target), cli_paths::given(*models_root)),
{
    match (target, models_root) {
        (Some(t), Some(root)) => {
            let base = text::cat2(root.as_str(), "/");
            let inside = text::strip_prefix(t.as_str(), base.as_str());
            proof {
                reveal_strlit("/");
            }
            match inside {
                Some(rest) => {
                    assert(t@.len() == base@.len() + rest@.len());
                    !rest.as_str().is_empty()
                },
                None => false,
            }
        },
        _ => false,
    }
}

/// What is said of a target outside the models directory: it is never deleted.
pub fn confinement_problem(target: &str, models_dir: &str) -> (r: String)
    ensures
        r@ == "refusing to delete "@ + target@ + " (outside models directory "@ + models_dir@ + ")"@,
{
    text::cat5("refusing to delete ", target, " (outside models directory ", models_dir, ")")
}

/// The model to delete, or the error line: whatever went wrong, it was not
/// found.
pub fn found_model(ok: bool, parsed: Result<ModelInfo, String>, model_id: &str) -> (r: Result<ModelInfo, String>)
    ensures
        match parsed {
            Ok(model) => if ok {
                r == Ok::<ModelInfo, String>(model)
            } else {
                r is Err && r->Err_0@ == "model not found: "@ + model_id@
            },
            Err(_) => r is Err && r->Err_0@ == "model not found: "@ + model_id@,
        },
{
    match parsed {
        Ok(model) => if ok {
            Ok(model)
        } else {
            Err(text::cat2("model not found: ", model_id))
        },
        Err(_) => Err(text::cat2("model not found: ", model_id)),
    }
}

/// What is done with the files of a model.
#[derive(Clone, Copy, Debug, PartialEq, Eq, Structural)]
pub enum Removal {
    /// There are none.
    NoFiles,
    /// They lie outside the models directory: refuse.
    Refuse,
    /// They are gone already.
    Gone,
    /// Ask, and delete them if the answer is yes.
    Ask,
    /// Delete them.
    Delete,
}

/// What is done with the files of a model: without a terminal nobody is asked,
/// and nothing outside the models directory is touched, `--force` or not.
pub open spec fn removal_of(has_path: bool, confined: bool, exists: bool, force: bool, tty: bool) -> Removal {
    if !has_path {
        Removal::NoFiles
    } else if !confined {
        Removal::Refuse
    } else if !exists {
        Removal::Gone
    } else if !force && tty {
        Removal::Ask
    } else {
        Removal::Delete
    }
}

/// Whether a resolved path lies strictly inside a resolved directory; one that
/// could not be resolved lies nowhere.
pub open spec fn is_confined(target: Option<Seq<char>>, models_root: Option<Seq<char>>) -> bool {
    target is Some && models_root is Some && lies_inside(target->0, models_root->0)
}

/// See [`removal_of`]. `target` is what is to be deleted, and `models_root` the
/// models directory, each with its symlinks resolved; `exists` tells whether the
/// target is there.
pub fn run_rm(
    model: &ModelInfo,
    target: &Option<String>,
    models_root: &Option<String>,
    exists: bool,
    force: bool,
    stdin_is_tty: bool,
) -> (r: Removal)
    ensures
        r == removal_of(
            model.local_path@.len() > 0,
            is_confined(cli_paths::given(*target), cli_paths::given(*models_root)),
            exists,
            force,
            stdin_is_tty,
        ),
{
    if model.local_path.as_str().is_empty() {
        Removal::NoFiles
    } else if !confined_to(target, models_root) {
        Removal::Refuse
    } else if !exists {
        Removal::Gone
    } else if !force && stdin_is_tty {
        Removal::Ask
    } else {
        Removal::Delete
    }
}

/// Nothing that is not strictly inside the models directory is ever deleted, nor
/// asked about, `--force` or not.
pub proof fn deletion_is_confined(
    has_path: bool,
    target: Option<Seq<char>>,
    models_root: Option<Seq<char>>,
    exists: bool,
    force: bool,
    tty: bool,
)
    ensures
        ({
            let removal = removal_of(has_path, is_confined(target, models_root), exists, force, tty);
            &&& removal == Removal::Delete || removal == Removal::Ask ==> target is Some && models_root is Some
                && lies_inside(target->0, models_root->0) && exists
            &&& removal == Removal::Delete ==> force || !tty
        }),
{
}

/// What goes with a model is its path or the directory around it, and the latter
/// only where it bears the name of the model.
pub proof fn only_its_own_directory_goes_with_a_file(local_path: Seq<char>, is_dir: bool, model_id: Seq<char>)
    ensures
        target_of(local_path, is_dir, model_id) == local_path || !is_dir && pathname::parent(local_path) == Some(
            target_of(local_path, is_dir, model_id),
        ) && pathname::file_name(target_of(local_path, is_dir, model_id)) == Some(model_id),
{
}

/// Sharing a name is not enough to lie inside: the directory itself, and one
/// whose name only starts with its name, are not inside.
pub proof fn siblings_are_not_inside(root: Seq<char>, tail: Seq<char>)
    requires
        tail.len() > 0 ==> tail[0] != '/',
    ensures
        !lies_inside(root + tail, root),
{
    reveal_strlit("/");
    if text::starts_with(root + tail, root + "/"@) {
        assert((root + "/"@)[root.len() as int] == '/');
        if tail.len() > 0 {
            assert((root + tail)[root.len() as int] == tail[0]);
        }
    }
}

/// What the removal of a model does next.
#[derive(Clone, Copy, Debug, PartialEq, Eq, Structural)]
pub enum RmStage {
    /// Start the engine.
    Start,
    /// Resolve the model reference.
    Resolve,
    /// Find the model, and decide about its files; see [`run_rm`].
    Lookup,
    /// Ask whether to delete them.
    Confirm,
    /// Delete them.
    Delete,
    /// Take the model out of the registry, and show that it is gone.
    Unregister,
    /// It is over, with this exit code.
    Finished(i32),
}

/// The stage after one that worked or not; `removal` is what is done with the
/// files of the model that was found. An entry that cannot be taken out of the
/// registry is only warned of; everything else that fails exits with 1.
pub open spec fn rm_after(stage: RmStage, removal: Removal, ok: bool) -> RmStage {
    match stage {
        RmStage::Start => if ok {
            RmStage::Resolve
        } else {
            RmStage::Finished(1)
        },
        RmStage::Resolve => if ok {
            RmStage::Lookup
        } else {
            RmStage::Finished(1)
        },
        RmStage::Lookup => if !ok {
            RmStage::Finished(1)
        } else {
            match removal {
                Removal::Refuse => RmStage::Finished(1),
                Removal::Ask => RmStage::Confirm,
                Removal::Delete => RmStage::Delete,
                Removal::NoFiles => RmStage::Unregister,
                Removal::Gone => RmStage::Unregister,
            }
        },
        RmStage::Confirm => if ok {
            RmStage::Delete
        } else {
            RmStage::Finished(1)
        },
        RmStage::Delete => if ok {
            RmStage::Unregister
        } else {
            RmStage::Finished(1)
        },
        RmStage::Unregister => RmStage::Finished(0),
        RmStage::Finished(code) => RmStage::Finished(code),
    }
}

/// See [`rm_after`].
pub fn remove_model(stage: RmStage, removal: Removal, ok: bool) -> (r: RmStage)
    ensures
        r == rm_after(stage, removal, ok),
{
    match stage {
        RmStage::Start => if ok {
            RmStage::Resolve
        } else {
            RmStage::Finished(1)
        },
        RmStage::Resolve => if ok {
            RmStage::Lookup
        } else {
            RmStage::Finished(1)
        },
        RmStage::Lookup => if !ok {
            RmStage::Finished(1)
        } else {
            match removal {
                Removal::Refuse => RmStage::Finished(1),
                Removal::Ask => RmStage::Confirm,
                Removal::Delete => RmStage::Delete,
                Removal::NoFiles => RmStage::Unregister,
                Removal::Gone => RmStage::Unregister,
            }
        },
        RmStage::Confirm => if ok {
            RmStage::Delete
        } else {
            RmStage::Finished(1)
        },
        RmStage::Delete => if ok {
            RmStage::Unregister
        } else {
            RmStage::Finished(1)
        },
        RmStage::Unregister => RmStage::Finished(0),
        RmStage::Finished(code) => RmStage::Finished(code),
    }
}

/// Files are deleted only where [`run_rm`] says so outright or the reader agrees,
/// and a removal that is refused leaves the registry as it is.
pub proof fn nothing_goes_unasked(stage: RmStage, removal: Removal, ok: bool)
    ensures
        rm_after(stage, removal, ok) is Delete ==> ok && (stage is Confirm || stage is Lookup && removal
            == Removal::Delete),
        rm_after(stage, removal, ok) is Unregister ==> ok && (stage is Delete || stage is Lookup && (removal
            == Removal::NoFiles || removal == Removal::Gone)),
        rm_after(stage, removal, ok) == RmStage::Finished(0) ==> stage is Unregister || stage == RmStage::Finished(0),
{
}

/// What is said when the reader does not agree.
pub fn aborted_line() -> (r: String)
    ensures
        r@ == "aborted"@,
{
    text::owned("aborted")
}

/// What is asked before the files go.
pub fn delete_question(target: &str) -> (r: String)
    ensures
        r@ == "delete "@ + target@ + "?"@,
{
    text::cat3("delete ", target, "?")
}

/// What is said of files that could not be deleted.
pub fn delete_problem(target: &str, error: &str) -> (r: String)
    ensures
        r@ == "failed to delete "@ + target@ + ": "@ + error@,
{
    text::cat4("failed to delete ", target, ": ", error)
}

/// What is said of a model without files.
pub fn no_files(model_id: &str) -> (r: String)
    ensures
        r@ == model_id@ + " has no downloaded files"@,
{
    text::cat2(model_id, " has no downloaded files")
}

/// The warning of a model that the registry did not let go; its files are gone.
pub fn unregister_warning(ok: bool, described: &str, parsed: Result<(), String>) -> (r: Option<String>)
    ensures
        match engine::answer_outcome(ok, described@, parsed, false) {
            Ok(_) => r is None,
            Err(message) => r is Some && r->0@ == "warning: registry unregister failed: "@ + message,
        },
{
    match engine::answer(ok, described, parsed, false) {
        Ok(_) => None,
        Err(message) => Some(text::cat2("warning: registry unregister failed: ", message.as_str())),
    }
}

/// The writes for a model that was removed.
pub open spec fn removed_document(model_id: Seq<char>, freed_bytes: u64) -> Seq<output::JsonOpView> {
    seq![
        output::begin_object(),
        output::field_str("id"@, model_id),
        output::field_i64("freed_bytes"@, (freed_bytes as i64) as int),
        output::end_object(),
    ]
}

/// The document of a deletion.
pub fn removed_json(model_id: &str, freed_bytes: u64) -> (json: JsonWriter)
    ensures
        json@ == removed_document(model_id@, freed_bytes),
{
    let mut json = JsonWriter::new();
    json.begin_object();
    json.field_str("id", model_id);
    json.field_i64("freed_bytes", freed_bytes as i64);
    json.end_object();
    json
}

/// The line of a model that was removed.
pub open spec fn removed_text(model_id: Seq<char>, freed_bytes: u64, freed: Seq<char>) -> Seq<char> {
    if freed_bytes > 0 {
        "deleted "@ + model_id + " (freed "@ + freed + ")"@
    } else {
        "deleted "@ + model_id
    }
}

/// The line of a deletion; `freed` is the size as it is shown.
pub fn removed_line(model_id: &str, freed_bytes: u64, freed: &str) -> (r: String)
    ensures
        r@ == removed_text(model_id@, freed_bytes, freed@),
{
    if freed_bytes > 0 {
        text::cat5("deleted ", model_id, " (freed ", freed, ")")
    } else {
        text::cat2("deleted ", model_id)
    }
}

/// What is done about a model: one without files is only taken off the list, as is
/// one whose files are gone; files outside the models directory are left alone;
/// the rest is deleted, after asking where somebody can answer and did not say
/// that they are sure.
pub proof fn a_removal_goes_by_what_is_there(exists: bool, confined: bool, force: bool, tty: bool)
    ensures
        removal_of(false, confined, exists, force, tty) == Removal::NoFiles,
        removal_of(true, false, exists, force, tty) == Removal::Refuse,
        removal_of(true, true, false, force, tty) == Removal::Gone,
        removal_of(true, true, true, true, tty) == Removal::Delete,
        removal_of(true, true, true, false, true) == Removal::Ask,
        removal_of(true, true, true, false, false) == Removal::Delete,
{
}

/// A model is taken off the list only after its files are gone, where it has any;
/// a refusal, an answer of no and a failed deletion end the command before that.
pub proof fn files_go_before_the_entry(removal: Removal, ok: bool)
    ensures
        rm_after(RmStage::Start, removal, true) == RmStage::Resolve,
        rm_after(RmStage::Resolve, removal, true) == RmStage::Lookup,
        rm_after(RmStage::Lookup, Removal::Ask, true) == RmStage::Confirm,
        rm_after(RmStage::Lookup, Removal::Delete, true) == RmStage::Delete,
        rm_after(RmStage::Lookup, Removal::NoFiles, true) == RmStage::Unregister,
        rm_after(RmStage::Lookup, Removal::Gone, true) == RmStage::Unregister,
        rm_after(RmStage::Lookup, Removal::Refuse, true) == RmStage::Finished(1),
        rm_after(RmStage::Lookup, removal, false) == RmStage::Finished(1),
        rm_after(RmStage::Confirm, removal, true) == RmStage::Delete,
        rm_after(RmStage::Confirm, removal, false) == RmStage::Finished(1),
        rm_after(RmStage::Delete, removal, true) == RmStage::Unregister,
        rm_after(RmStage::Delete, removal, false) == RmStage::Finished(1),
        rm_after(RmStage::Unregister, removal, ok) == RmStage::Finished(0),
{
}

/// What was removed is told by its id, and with what it freed where that is
/// something.
pub proof fn a_removal_is_told_with_what_it_freed(model_id: Seq<char>, freed_bytes: u64, freed: Seq<char>)
    ensures
        removed_document(model_id, freed_bytes)[1] == output::field_str("id"@, model_id),
        freed_bytes <= i64::MAX ==> removed_document(model_id, freed_bytes)[2] == output::field_i64(
            "freed_bytes"@,
            freed_bytes as int,
        ),
        freed_bytes > 0 ==> removed_text(model_id, freed_bytes, freed) == "deleted "@ + model_id + " (freed "@ + freed
            + ")"@,
        freed_bytes == 0 ==> removed_text(model_id, freed_bytes, freed) == "deleted "@ + model_id,
{
}

/// The names that were taken off a path go back on in the order they stood in: the
/// last one taken off is the first one back.
pub proof fn what_was_taken_off_goes_back_on(resolved: Seq<char>, first: Seq<char>, second: Seq<char>, remainder: Seq<
    Seq<char>,
>)
    ensures
        put_back(resolved, Seq::empty()) == resolved,
        put_back(resolved, remainder.push(first)) == put_back(pathname::join(resolved, first), remainder),
        put_back(resolved, seq![second, first]) == pathname::join(pathname::join(resolved, first), second),
{
    reveal_with_fuel(put_back, 3);
    assert(remainder.push(first).drop_last() =~= remainder);
    assert(seq![second, first].drop_last() =~= seq![second]);
    assert(seq![second].drop_last() =~= Seq::<Seq<char>>::empty());
}

/// A file that lies in a directory named for its model goes with that directory;
/// any other file, and any directory, goes alone.
pub proof fn a_model_goes_with_its_own_directory(local_path: Seq<char>, is_dir: bool, model_id: Seq<char>)
    ensures
        is_dir ==> target_of(local_path, is_dir, model_id) == local_path,
        !is_dir && pathname::parent(local_path) is Some && pathname::file_name(pathname::parent(local_path)->0) == Some(
            model_id,
        ) ==> target_of(local_path, is_dir, model_id) == pathname::parent(local_path)->0,
        pathname::parent(local_path) is None || pathname::file_name(pathname::parent(local_path)->0) != Some(model_id)
            ==> target_of(local_path, is_dir, model_id) == local_path,
{
}

/// Inside a directory is what is written below it, and only that.
pub proof fn inside_is_below(root: Seq<char>, rest: Seq<char>, target: Seq<char>)
    ensures
        rest.len() > 0 ==> lies_inside(root + seq!['/'] + rest, root),
        !lies_inside(root, root),
        !lies_inside(root + seq!['/'], root),
        lies_inside(target, root) ==> target.take(root.len() as int) == root && target[root.len() as int] == '/',
{
    reveal_strlit("/");
    assert("/"@ =~= seq!['/']);
    let all = root + seq!['/'] + rest;
    assert(all.take((root + "/"@).len() as int) =~= root + "/"@);
    if lies_inside(target, root) {
        let front = target.take((root + "/"@).len() as int);
        assert(target.take(root.len() as int) =~= front.take(root.len() as int));
        assert(front.take(root.len() as int) =~= root);
        assert(front[root.len() as int] == '/');
    }
}

/// A command that deletes a model.
pub open spec fn with_models_delete(cmd: CommandView) -> CommandView {
    cmd
        .option(cli::opt("model"@, ValueType::Text, "Model id or alias"@).required())
        .option(cli::flag("-f,--force"@, "Skip the confirmation prompt"@))
        .action(Action::ModelsDelete)
}

/// Configures a command that deletes a model.
pub fn configure_models_delete(cmd: &mut Command)
    ensures
        final(cmd)@ == with_models_delete(old(cmd)@),
{
    cmd.add_option(Opt::value("model", ValueType::Text, "Model id or alias").required());
    cmd.add_option(Opt::flag("-f,--force", "Skip the confirmation prompt"));
    cmd.callback(Action::ModelsDelete);
}

} // verus!
