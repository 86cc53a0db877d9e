//! Preferences of a profile that are no secret. The only one today is the
//! default model. Highest first:
//!   1. an explicit model the reader passed
//!   2. the `WALLY_DEFAULT_MODEL` environment variable
//!   3. `default_model` in the preferences file
//!   4. the id compiled into the program

use crate::document;
use crate::pathname;
use crate::text;
use vstd::prelude::*;

verus! {

/// The preferences file of a profile directory, or nothing without one.
pub fn preferences_path(directory: &str) -> (r: String)
    ensures
        r@ == if directory@.len() == 0 {
            Seq::empty()
        } else if directory@.last() == '/' {
            directory@ + "preferences.json"@
        } else {
            directory@ + "/preferences.json"@
        },
{
    if directory.is_empty() {
        return String::new();
    }
    let last: usize = directory.unicode_len() - 1;
    if directory.get_char(last) == '/' {
        text::cat2(directory, "preferences.json")
    } else {
        text::cat2(directory, "/preferences.json")
    }
}

/// Where a default model comes from.
#[derive(Clone, Copy, Debug, PartialEq, Eq, Structural)]
pub enum DefaultModelSource {
    /// No default anywhere.
    Nowhere,
    /// `WALLY_DEFAULT_MODEL` is set.
    Environment,
    /// `default_model` in the preferences file.
    File,
    /// The id compiled into the program.
    BuiltIn,
}

/// A default model and where it comes from.
#[derive(Clone, Debug)]
pub struct DefaultModel {
    pub id: String,
    pub source: DefaultModelSource,
}

impl Default for DefaultModelSource {
    /// No default anywhere.
    fn default() -> (r: DefaultModelSource)
        ensures
            r == DefaultModelSource::Nowhere,
    {
        DefaultModelSource::Nowhere
    }
}

impl Default for DefaultModel {
    /// No default model.
    fn default() -> (r: DefaultModel)
        ensures
            r.id@.len() == 0,
            r.source == DefaultModelSource::Nowhere,
    {
        DefaultModel { id: String::new(), source: DefaultModelSource::Nowhere }
    }
}

impl DefaultModel {
    /// Whether there is a default at all.
    pub fn set(&self) -> (r: bool)
        ensures
            r == (self.source != DefaultModelSource::Nowhere),
    {
        self.source != DefaultModelSource::Nowhere
    }
}

/// The model that a document records: a string that is not empty.
pub open spec fn recorded_model(doc: serde_json::Value, id: Seq<char>) -> bool {
    id.len() > 0 && document::members(doc).contains_key("default_model"@) && document::members(doc)["default_model"@]
        == document::string_json(id)
}

/// The preferences of a file: a missing file has none, and a file that is no
/// JSON object is taken for one without any, with a warning, so that it never
/// breaks a launch.
pub fn read_file(contents: Option<&[u8]>, path: &str) -> (r: (serde_json::Value, Option<String>))
    ensures
        document::is_object(r.0),
        match contents {
            None => document::members(r.0) == document::no_members() && r.1 is None,
            Some(bytes) => match document::read_json(bytes@) {
                Some(read) => if read.0 {
                    document::members(r.0) == read.1 && r.1 is None
                } else {
                    document::members(r.0) == document::no_members() && r.1 is Some && r.1->0@
                        == "ignoring unreadable preferences file at "@ + path@
                },
                None => document::members(r.0) == document::no_members() && r.1 is Some && r.1->0@
                    == "ignoring unreadable preferences file at "@ + path@,
            },
        },
{
    match contents {
        None => (document::empty_object(), None),
        Some(bytes) => {
            if let Ok(parsed) = document::parse(bytes) {
                if document::object(&parsed) {
                    return (parsed, None);
                }
            }
            (document::empty_object(), Some(text::cat2("ignoring unreadable preferences file at ", path)))
        },
    }
}

/// Whether that is what a document records: the one model that it does, or
/// nothing where it records none.
pub open spec fn reads_back(doc: serde_json::Value, r: Option<String>) -> bool {
    match r {
        Some(id) => recorded_model(doc, id@) && forall|other: Seq<char>| #[trigger]
            recorded_model(doc, other) ==> other == id@,
        None => forall|id: Seq<char>| !#[trigger] recorded_model(doc, id),
    }
}

/// The default model recorded in the file, ignoring the environment.
pub fn file_default_model(document: &serde_json::Value) -> (r: Option<String>)
    ensures
        reads_back(*document, r),
{
    match document::text_member(document, "default_model") {
        Some(id) => if id.as_str().is_empty() {
            assert forall|other: Seq<char>| !#[trigger] recorded_model(*document, other) by {
                if recorded_model(*document, other) {
                    assert(document::string_json(other) == document::members(*document)["default_model"@]);
                }
            }
            None
        } else {
            assert forall|other: Seq<char>| #[trigger] recorded_model(*document, other) implies other == id@ by {
                assert(document::string_json(other) == document::members(*document)["default_model"@]);
            }
            Some(id)
        },
        None => None,
    }
}

/// Whether `m` is the default in effect: the environment before the file before
/// the id compiled in.
pub open spec fn is_effective(m: DefaultModel, env: Seq<char>, file: Option<String>, built_in: Seq<char>) -> bool {
    if env.len() > 0 {
        m.source == DefaultModelSource::Environment && m.id@ == env
    } else if file is Some {
        m.source == DefaultModelSource::File && m.id@ == file->0@
    } else if built_in.len() > 0 {
        m.source == DefaultModelSource::BuiltIn && m.id@ == built_in
    } else {
        m.source == DefaultModelSource::Nowhere && m.id@.len() == 0
    }
}

/// The default model in effect; see [`is_effective`].
pub fn effective_default_model(env: &str, file: Option<String>, built_in: &str) -> (r: DefaultModel)
    ensures
        is_effective(r, env@, file, built_in@),
{
    if !env.is_empty() {
        return DefaultModel { id: text::owned(env), source: DefaultModelSource::Environment };
    }
    if let Some(id) = file {
        return DefaultModel { id, source: DefaultModelSource::File };
    }
    if !built_in.is_empty() {
        return DefaultModel { id: text::owned(built_in), source: DefaultModelSource::BuiltIn };
    }
    DefaultModel { id: String::new(), source: DefaultModelSource::Nowhere }
}

/// The model to use: the one named, else the default in effect, else none.
pub open spec fn model_to_use(explicit_model: Seq<char>, env: Seq<char>, file: Option<String>, built_in: Seq<char>) -> Seq<
    char,
> {
    if explicit_model.len() > 0 {
        explicit_model
    } else if env.len() > 0 {
        env
    } else if file is Some {
        file->0@
    } else {
        built_in
    }
}

/// See [`model_to_use`].
pub fn resolve_model(explicit_model: &str, env: &str, file: Option<String>, built_in: &str) -> (r: String)
    ensures
        r@ == model_to_use(explicit_model@, env@, file, built_in@),
{
    if !explicit_model.is_empty() {
        return text::owned(explicit_model);
    }
    let m = effective_default_model(env, file, built_in);
    assert(built_in@.len() == 0 ==> built_in@ =~= Seq::empty());
    assert(m.id@.len() == 0 ==> m.id@ =~= Seq::empty());
    m.id
}

/// Records a default model; `safe` says whether the id may be used at all.
/// Everything else in the document stays.
pub fn set_default_model(document: serde_json::Value, id: &str, safe: bool) -> (r: Result<serde_json::Value, String>)
    requires
        document::is_object(document),
    ensures
        !safe ==> r is Err && r->Err_0@ == "not a usable model id: "@ + id@,
        safe ==> r is Ok && document::is_object(r->Ok_0) && document::members(r->Ok_0) == document::members(
            document,
        ).insert("default_model"@, document::string_json(id@)),
{
    if !safe {
        return Err(text::cat2("not a usable model id: ", id));
    }
    let mut doc = document;
    document::put_text(&mut doc, "default_model", id);
    Ok(doc)
}

/// Forgets the default model: the document without it, or nothing to write when
/// none was recorded.
pub fn clear_default_model(document: serde_json::Value) -> (r: Option<serde_json::Value>)
    requires
        document::is_object(document),
    ensures
        match r {
            Some(doc) => document::members(document).contains_key("default_model"@) && document::is_object(doc)
                && document::members(doc) == document::members(document).remove("default_model"@),
            None => !document::members(document).contains_key("default_model"@),
        },
{
    if !document::has_member(&document, "default_model") {
        return None;
    }
    let mut doc = document;
    document::remove_member(&mut doc, "default_model");
    Some(doc)
}

/// A model that was set is the one recorded afterwards, and nothing else in the
/// file changed.
pub proof fn a_set_default_is_recorded(before: serde_json::Value, after: serde_json::Value, id: Seq<char>)
    requires
        id.len() > 0,
        document::members(after) == document::members(before).insert("default_model"@, document::string_json(id)),
    ensures
        recorded_model(after, id),
        document::members(after).remove("default_model"@) == document::members(before).remove("default_model"@),
{
    assert(document::members(after).remove("default_model"@) =~= document::members(before).remove("default_model"@));
}

/// Reading the file after a model was set gives that model back, and after a
/// clear nothing.
pub proof fn a_default_reads_back(before: serde_json::Value, after: serde_json::Value, id: Seq<char>, r: Option<String>)
    requires
        reads_back(after, r),
    ensures
        id.len() > 0 && document::members(after) == document::members(before).insert(
            "default_model"@,
            document::string_json(id),
        ) ==> r is Some && r->0@ == id,
        document::members(after) == document::members(before).remove("default_model"@) ==> r is None,
{
    if id.len() > 0 && document::members(after) == document::members(before).insert(
        "default_model"@,
        document::string_json(id),
    ) {
        assert(recorded_model(after, id));
    }
}

/// After a clear no model is recorded, and nothing else in the file changed.
pub proof fn a_cleared_default_is_gone(before: serde_json::Value, after: serde_json::Value, id: Seq<char>)
    requires
        document::members(after) == document::members(before).remove("default_model"@),
    ensures
        !recorded_model(after, id),
        document::members(after).remove("default_model"@) == document::members(before).remove("default_model"@),
{
    assert(document::members(after).remove("default_model"@) =~= document::members(before).remove("default_model"@));
}

/// Where preferences are written before they take the place of the file, in the
/// directory of the file.
pub fn temporary_path(directory: &str) -> (r: String)
    ensures
        r@ == pathname::join(directory@, "preferences.json.tmp"@),
{
    pathname::join_exec(directory, "preferences.json.tmp")
}

/// A step of writing the preferences.
#[derive(Clone, Copy, Debug, PartialEq, Eq, Structural)]
pub enum WriteStage {
    /// There is a path to write to.
    Locate,
    /// The directory is made.
    MakeDirectory,
    /// The temporary file is opened.
    Open,
    /// The temporary file is written.
    Fill,
    /// The temporary file takes the place of the preferences.
    Replace,
    /// The temporary file is taken away.
    Clean,
    /// It is over, and whether the preferences were written.
    Ended(bool),
}

/// What comes after a step. The old preferences stay whole until the new ones
/// are.
pub open spec fn write_after(stage: WriteStage, ok: bool) -> WriteStage {
    match stage {
        WriteStage::Locate => if ok {
            WriteStage::MakeDirectory
        } else {
            WriteStage::Ended(false)
        },
        WriteStage::MakeDirectory => if ok {
            WriteStage::Open
        } else {
            WriteStage::Ended(false)
        },
        WriteStage::Open => if ok {
            WriteStage::Fill
        } else {
            WriteStage::Ended(false)
        },
        WriteStage::Fill => if ok {
            WriteStage::Replace
        } else {
            WriteStage::Ended(false)
        },
        WriteStage::Replace => if ok {
            WriteStage::Ended(true)
        } else {
            WriteStage::Clean
        },
        WriteStage::Clean => WriteStage::Ended(false),
        WriteStage::Ended(written) => WriteStage::Ended(written),
    }
}

/// See [`write_after`].
pub fn write_file(stage: WriteStage, ok: bool) -> (r: WriteStage)
    ensures
        r == write_after(stage, ok),
{
    match stage {
        WriteStage::Locate => if ok {
            WriteStage::MakeDirectory
        } else {
            WriteStage::Ended(false)
        },
        WriteStage::MakeDirectory => if ok {
            WriteStage::Open
        } else {
            WriteStage::Ended(false)
        },
        WriteStage::Open => if ok {
            WriteStage::Fill
        } else {
            WriteStage::Ended(false)
        },
        WriteStage::Fill => if ok {
            WriteStage::Replace
        } else {
            WriteStage::Ended(false)
        },
        WriteStage::Replace => if ok {
            WriteStage::Ended(true)
        } else {
            WriteStage::Clean
        },
        WriteStage::Clean => WriteStage::Ended(false),
        WriteStage::Ended(written) => WriteStage::Ended(written),
    }
}

/// What is said when a step fails: `path` is the directory, the temporary file
/// or the preferences, whichever the step is about, and `reason` is why.
pub fn write_problem(stage: WriteStage, path: &str, reason: &str) -> (r: Option<String>)
    ensures
        match stage {
            WriteStage::Locate => r is Some && r->0@ == "cannot resolve a home directory for preferences"@,
            WriteStage::MakeDirectory => r is Some && r->0@ == "cannot create "@ + path@ + ": "@ + reason@,
            WriteStage::Open => r is Some && r->0@ == "cannot write "@ + path@,
            WriteStage::Fill => r is Some && r->0@ == "failed writing "@ + path@,
            WriteStage::Replace => r is Some && r->0@ == "cannot replace "@ + path@ + ": "@ + reason@,
            _ => r is None,
        },
{
    match stage {
        WriteStage::Locate => Some(text::owned("cannot resolve a home directory for preferences")),
        WriteStage::MakeDirectory => Some(text::cat4("cannot create ", path, ": ", reason)),
        WriteStage::Open => Some(text::cat2("cannot write ", path)),
        WriteStage::Fill => Some(text::cat2("failed writing ", path)),
        WriteStage::Replace => Some(text::cat4("cannot replace ", path, ": ", reason)),
        _ => None,
    }
}

/// The preferences are only replaced by a file that was written whole, and a
/// file that could not take their place does not stay behind.
pub proof fn preferences_are_replaced_whole(stage: WriteStage, ok: bool)
    ensures
        write_after(stage, ok) == WriteStage::Ended(true) ==> (stage is Replace && ok) || stage == WriteStage::Ended(true),
        write_after(stage, ok) is Replace ==> stage is Fill && ok,
        stage is Replace && !ok ==> write_after(stage, ok) is Clean,
{
}

/// The model to use is the one that was named, and else the default that is shown:
/// the one of the environment, else the one of the file, else the built-in one.
pub proof fn a_named_model_wins(explicit_model: Seq<char>, m: DefaultModel, env: Seq<char>, file: Option<String>, built_in: Seq<
    char,
>)
    requires
        is_effective(m, env, file, built_in),
    ensures
        explicit_model.len() > 0 ==> model_to_use(explicit_model, env, file, built_in) == explicit_model,
        explicit_model.len() == 0 ==> model_to_use(explicit_model, env, file, built_in) == m.id@,
        env.len() > 0 ==> m.id@ == env && m.source == DefaultModelSource::Environment,
        env.len() == 0 && file is Some ==> m.id@ == file->0@ && m.source == DefaultModelSource::File,
        env.len() == 0 && file is None ==> m.id@ == built_in && (m.source == DefaultModelSource::BuiltIn
            <==> built_in.len() > 0),
        m.source == DefaultModelSource::Nowhere ==> env.len() == 0 && file is None && built_in.len() == 0,
{
    assert(built_in.len() == 0 ==> built_in =~= Seq::empty());
    assert(m.id@.len() == 0 ==> m.id@ =~= Seq::empty());
}

/// Preferences are written to a file of their own, and only one that was filled
/// takes the place of the file; a failure to do so cleans up.
pub proof fn preferences_are_written_step_by_step(ok: bool)
    ensures
        write_after(WriteStage::Locate, true) == WriteStage::MakeDirectory,
        write_after(WriteStage::MakeDirectory, true) == WriteStage::Open,
        write_after(WriteStage::Open, true) == WriteStage::Fill,
        write_after(WriteStage::Fill, true) == WriteStage::Replace,
        write_after(WriteStage::Replace, true) == WriteStage::Ended(true),
        write_after(WriteStage::Replace, false) == WriteStage::Clean,
        write_after(WriteStage::Clean, ok) == WriteStage::Ended(false),
{
}

} // verus!
