//! Points the desktop app of a brand at a wally endpoint and puts it back.
//!
//! The app ships two deployment modes: "1p", which talks to Anthropic, and
//! "3p", which talks to a gateway that is named in a profile. The 3p side keeps
//! its own tree beside the normal one. Applying a gateway is a list of edits to
//! four settings files, and putting the app back is another; each edit reads
//! one file, changes it and writes it back, and the first failure ends the run.

use crate::desktop::brand::{Brand, BrandView};
use crate::document;
use crate::text;
use vstd::prelude::*;

verus! {

/// The identity of our profile inside the app's library. Fixed, so that a
/// second run replaces the first.
pub open spec fn profile_id() -> Seq<char> {
    "00000000-0000-4000-8000-52756e416e79"@
}

fn profile_id_exec() -> (r: &'static str)
    ensures
        r@ == profile_id(),
{
    "00000000-0000-4000-8000-52756e416e79"
}

/// The directory of one of the two trees, or nothing without a home.
pub open spec fn support_root(brand: BrandView, home: Seq<char>, third_party: bool) -> Seq<char> {
    if home.len() == 0 {
        Seq::empty()
    } else {
        home + "/Library/Application Support/"@ + if third_party {
            brand.name + "-3p"@
        } else {
            brand.name
        }
    }
}

fn support_root_exec(brand: &Brand, home: &str, third_party: bool) -> (r: String)
    ensures
        r@ == support_root(brand@, home@, third_party),
{
    if home.is_empty() {
        return String::new();
    }
    let tree = if third_party {
        text::cat2(brand.name.as_str(), "-3p")
    } else {
        text::owned(brand.name.as_str())
    };
    text::cat3(home, "/Library/Application Support/", tree.as_str())
}

/// Where the app keeps its third-party profiles, for a message worth printing.
pub fn profile_directory(brand: &Brand, home: &str) -> (r: String)
    ensures
        r@ == support_root(brand@, home@, true),
{
    support_root_exec(brand, home, true)
}

/// One edit of a settings file.
#[derive(Clone, Copy, Debug, PartialEq, Eq, Structural)]
pub enum Edit {
    /// Writes the gateway into our profile.
    WriteProfile,
    /// Lists our profile and marks it applied.
    ListProfile,
    /// Switches a tree to third-party mode.
    ThirdParty,
    /// Switches a tree back to Anthropic.
    FirstParty,
    /// Takes our profile out of the list.
    UnlistProfile,
    /// Strips what was written into our profile.
    StripProfile,
}

/// The file of an edit; the mode of a tree is in the tree itself.
pub open spec fn edited_path(brand: BrandView, home: Seq<char>, edit: Edit, third_party: bool) -> Seq<char> {
    match edit {
        Edit::WriteProfile | Edit::StripProfile => support_root(brand, home, true) + "/configLibrary/"@ + profile_id()
            + ".json"@,
        Edit::ListProfile | Edit::UnlistProfile => support_root(brand, home, true) + "/configLibrary/_meta.json"@,
        Edit::ThirdParty | Edit::FirstParty => support_root(brand, home, third_party) + "/claude_desktop_config.json"@,
    }
}

fn edited_path_exec(brand: &Brand, home: &str, edit: Edit, third_party: bool) -> (r: String)
    ensures
        r@ == edited_path(brand@, home@, edit, third_party),
{
    match edit {
        Edit::WriteProfile | Edit::StripProfile => text::cat4(
            support_root_exec(brand, home, true).as_str(),
            "/configLibrary/",
            profile_id_exec(),
            ".json",
        ),
        Edit::ListProfile | Edit::UnlistProfile => text::cat2(
            support_root_exec(brand, home, true).as_str(),
            "/configLibrary/_meta.json",
        ),
        Edit::ThirdParty | Edit::FirstParty => text::cat2(
            support_root_exec(brand, home, third_party).as_str(),
            "/claude_desktop_config.json",
        ),
    }
}

/// The edits with their paths, as texts.
pub open spec fn edits_view(edits: Seq<(Edit, String)>) -> Seq<(Edit, Seq<char>)> {
    edits.map_values(|e: (Edit, String)| (e.0, e.1@))
}

/// The edits that apply a gateway: the profile, the list, then the mode of both
/// trees, for the app reads the normal one to decide which mode it is in.
pub open spec fn apply_edits(brand: BrandView, home: Seq<char>) -> Seq<(Edit, Seq<char>)> {
    seq![
        (Edit::WriteProfile, edited_path(brand, home, Edit::WriteProfile, true)),
        (Edit::ListProfile, edited_path(brand, home, Edit::ListProfile, true)),
        (Edit::ThirdParty, edited_path(brand, home, Edit::ThirdParty, true)),
        (Edit::ThirdParty, edited_path(brand, home, Edit::ThirdParty, false)),
    ]
}

/// The edits that put the app back: the mode of both trees first.
pub open spec fn restore_edits(brand: BrandView, home: Seq<char>) -> Seq<(Edit, Seq<char>)> {
    seq![
        (Edit::FirstParty, edited_path(brand, home, Edit::FirstParty, false)),
        (Edit::FirstParty, edited_path(brand, home, Edit::FirstParty, true)),
        (Edit::UnlistProfile, edited_path(brand, home, Edit::UnlistProfile, true)),
        (Edit::StripProfile, edited_path(brand, home, Edit::StripProfile, true)),
    ]
}

/// The edits that point the app at a gateway, in order; without a home there is
/// nowhere to write them. They take effect on the app's next launch.
pub fn apply_gateway(brand: &Brand, home: &str) -> (r: Result<Vec<(Edit, String)>, String>)
    ensures
        match r {
            Ok(edits) => home@.len() > 0 && edits_view(edits@) == apply_edits(brand@, home@),
            Err(message) => home@.len() == 0 && message@ == "no home directory to write the profile into"@,
        },
{
    if home.is_empty() {
        return Err(text::owned("no home directory to write the profile into"));
    }
    let mut edits: Vec<(Edit, String)> = Vec::new();
    edits.push((Edit::WriteProfile, edited_path_exec(brand, home, Edit::WriteProfile, true)));
    edits.push((Edit::ListProfile, edited_path_exec(brand, home, Edit::ListProfile, true)));
    edits.push((Edit::ThirdParty, edited_path_exec(brand, home, Edit::ThirdParty, true)));
    edits.push((Edit::ThirdParty, edited_path_exec(brand, home, Edit::ThirdParty, false)));
    assert(edits_view(edits@) =~= apply_edits(brand@, home@));
    Ok(edits)
}

/// The edits that put the app back on Anthropic, in order; none without a home.
pub fn restore_gateway(brand: &Brand, home: &str) -> (r: Vec<(Edit, String)>)
    ensures
        edits_view(r@) == if home@.len() == 0 {
            Seq::empty()
        } else {
            restore_edits(brand@, home@)
        },
{
    let mut edits: Vec<(Edit, String)> = Vec::new();
    if home.is_empty() {
        assert(edits_view(edits@) =~= Seq::empty());
        return edits;
    }
    edits.push((Edit::FirstParty, edited_path_exec(brand, home, Edit::FirstParty, false)));
    edits.push((Edit::FirstParty, edited_path_exec(brand, home, Edit::FirstParty, true)));
    edits.push((Edit::UnlistProfile, edited_path_exec(brand, home, Edit::UnlistProfile, true)));
    edits.push((Edit::StripProfile, edited_path_exec(brand, home, Edit::StripProfile, true)));
    assert(edits_view(edits@) =~= restore_edits(brand@, home@));
    edits
}

/// Whether a text is blank.
pub open spec fn is_blank(s: Seq<char>) -> bool {
    forall|i: int| 0 <= i < s.len() ==> text::is_space(s[i])
}

fn is_blank_exec(s: &str) -> (r: bool)
    ensures
        r == is_blank(s@),
{
    let v = text::chars_of(s);
    let mut i: usize = 0;
    while i < v.len()
        invariant
            i <= v@.len(),
            v@ == s@,
            forall|j: int| 0 <= j < i ==> text::is_space(s@[j]),
        decreases v@.len() - i,
    {
        if !text::is_space_exec(v[i]) {
            assert(!text::is_space(s@[i as int]));
            return false;
        }
        i = i + 1;
    }
    true
}

/// What a settings file holds: nothing where it is missing, blank or no object.
pub open spec fn file_contents(contents: Option<Seq<char>>) -> (
    Map<Seq<char>, Seq<char>>,
    Map<Seq<char>, Seq<(Option<Seq<char>>, Seq<char>)>>,
) {
    if contents is None || is_blank(contents->0) {
        (document::no_members(), document::no_lists())
    } else {
        match document::read_text(contents->0) {
            Ok(read) => if read.0 {
                (read.1, read.2)
            } else {
                (document::no_members(), document::no_lists())
            },
            Err(_) => (document::no_members(), document::no_lists()),
        }
    }
}

/// What is wrong with a settings file that holds something else than JSON.
pub open spec fn file_problem(contents: Option<Seq<char>>, path: Seq<char>) -> Option<Seq<char>> {
    if contents is None || is_blank(contents->0) {
        None
    } else {
        match document::read_text(contents->0) {
            Ok(_) => None,
            Err(message) => Some("could not read "@ + path + ": "@ + message),
        }
    }
}

/// The text of a file that could be read.
pub open spec fn given_text(contents: Option<&str>) -> Option<Seq<char>> {
    match contents {
        Some(t) => Some(t@),
        None => None,
    }
}

/// The object in a settings file. A malformed file is reported, never
/// overwritten: it is the reader's own configuration.
fn read_object(contents: Option<&str>, path: &str) -> (r: Result<serde_json::Value, String>)
    ensures
        match r {
            Ok(doc) => file_problem(given_text(contents), path@) is None && document::is_object(doc)
                && document::contents(doc) == file_contents(given_text(contents)),
            Err(message) => file_problem(given_text(contents), path@) == Some(message@),
        },
{
    let t = match contents {
        Some(t) => t,
        None => return Ok(document::empty_object()),
    };
    if is_blank_exec(t) {
        return Ok(document::empty_object());
    }
    match document::parse_text(t) {
        Ok(parsed) => if document::object(&parsed) {
            Ok(parsed)
        } else {
            Ok(document::empty_object())
        },
        Err(failure) => Err(text::cat4("could not read ", path, ": ", failure.as_str())),
    }
}

/// A gateway: its endpoint, its models as pairs of the Anthropic family name
/// and the real id, the first the default, and the name it is shown under.
pub struct Gateway {
    pub base_url: String,
    pub api_key: String,
    pub models: Vec<(String, String)>,
    pub display_name: String,
}

/// One picker entry: `name` is what the app maps to a family, `labelOverride`
/// what it shows.
pub open spec fn picker_item(model: (String, String)) -> (Option<Seq<char>>, Seq<char>) {
    (
        document::pair_id(("name"@, model.0@, "labelOverride"@, model.1@)),
        document::pair_json(("name"@, model.0@, "labelOverride"@, model.1@)),
    )
}

/// The picker entries of a gateway.
pub open spec fn picker_items(models: Seq<(String, String)>) -> Seq<(Option<Seq<char>>, Seq<char>)> {
    models.map_values(|m: (String, String)| picker_item(m))
}

/// A profile with the gateway written into it.
pub open spec fn with_gateway(
    doc: (Map<Seq<char>, Seq<char>>, Map<Seq<char>, Seq<(Option<Seq<char>>, Seq<char>)>>),
    gateway: Gateway,
) -> (Map<Seq<char>, Seq<char>>, Map<Seq<char>, Seq<(Option<Seq<char>>, Seq<char>)>>) {
    let d1 = document::with_value(doc, "inferenceProvider"@, document::string_json("gateway"@));
    let d2 = document::with_value(d1, "inferenceGatewayBaseUrl"@, document::string_json(gateway.base_url@));
    let d3 = document::with_value(d2, "inferenceGatewayApiKey"@, document::string_json(gateway.api_key@));
    let d4 = document::with_value(d3, "inferenceGatewayAuthScheme"@, document::string_json("bearer"@));
    let d5 = document::with_value(d4, "deploymentDisplayName"@, document::string_json(gateway.display_name@));
    let d6 = document::with_value(d5, "disableDeploymentModeChooser"@, document::bool_json(true));
    let d7 = document::with_value(d6, "chatTabEnabled"@, document::bool_json(true));
    let d8 = document::with_list(d7, "coworkEgressAllowedHosts"@, seq![(None, document::string_json("*"@))]);
    let d9 = document::with_value(d8, "autoModeEnabled"@, document::bool_json(false));
    let d10 = document::with_value(d9, "coworkTabEnabled"@, document::bool_json(true));
    let d11 = document::with_list(d10, "inferenceModels"@, picker_items(gateway.models@));
    document::with_value(d11, "modelDiscoveryEnabled"@, document::bool_json(true))
}

/// A profile without anything that [`with_gateway`] writes.
pub open spec fn without_gateway(
    doc: (Map<Seq<char>, Seq<char>>, Map<Seq<char>, Seq<(Option<Seq<char>>, Seq<char>)>>),
) -> (Map<Seq<char>, Seq<char>>, Map<Seq<char>, Seq<(Option<Seq<char>>, Seq<char>)>>) {
    let d1 = document::without(doc, "inferenceProvider"@);
    let d2 = document::without(d1, "inferenceGatewayBaseUrl"@);
    let d3 = document::without(d2, "inferenceGatewayApiKey"@);
    let d4 = document::without(d3, "inferenceGatewayAuthScheme"@);
    let d5 = document::without(d4, "deploymentDisplayName"@);
    let d6 = document::without(d5, "disableDeploymentModeChooser"@);
    let d7 = document::without(d6, "chatTabEnabled"@);
    let d8 = document::without(d7, "inferenceModels"@);
    let d9 = document::without(d8, "coworkEgressAllowedHosts"@);
    let d10 = document::without(d9, "autoModeEnabled"@);
    let d11 = document::without(d10, "coworkTabEnabled"@);
    document::without(d11, "modelDiscoveryEnabled"@)
}

/// The entries of a list that are not ours, in order.
pub open spec fn others(items: Seq<(Option<Seq<char>>, Seq<char>)>) -> Seq<(Option<Seq<char>>, Seq<char>)>
    decreases items.len(),
{
    if items.len() == 0 {
        Seq::empty()
    } else if items.last().0 == Some(profile_id()) {
        others(items.drop_last())
    } else {
        others(items.drop_last()).push(items.last())
    }
}

/// The entries that a list file has; none where they are no array.
pub open spec fn listed(
    doc: (Map<Seq<char>, Seq<char>>, Map<Seq<char>, Seq<(Option<Seq<char>>, Seq<char>)>>),
) -> Seq<(Option<Seq<char>>, Seq<char>)> {
    if doc.1.contains_key("entries"@) {
        doc.1["entries"@]
    } else {
        Seq::empty()
    }
}

/// Our own entry.
pub open spec fn our_item(display_name: Seq<char>) -> (Option<Seq<char>>, Seq<char>) {
    (
        document::pair_id(("id"@, profile_id(), "name"@, display_name)),
        document::pair_json(("id"@, profile_id(), "name"@, display_name)),
    )
}

/// A list with our profile as its last entry and marked applied: a previous
/// entry of ours is dropped, everybody else's stay.
pub open spec fn with_profile(
    doc: (Map<Seq<char>, Seq<char>>, Map<Seq<char>, Seq<(Option<Seq<char>>, Seq<char>)>>),
    display_name: Seq<char>,
) -> (Map<Seq<char>, Seq<char>>, Map<Seq<char>, Seq<(Option<Seq<char>>, Seq<char>)>>) {
    document::with_list(
        document::with_value(doc, "appliedId"@, document::string_json(profile_id())),
        "entries"@,
        others(listed(doc)).push(our_item(display_name)),
    )
}

/// Whether our profile is the applied one.
pub open spec fn is_applied(
    doc: (Map<Seq<char>, Seq<char>>, Map<Seq<char>, Seq<(Option<Seq<char>>, Seq<char>)>>),
) -> bool {
    doc.0.contains_key("appliedId"@) && doc.0["appliedId"@] == document::string_json(profile_id())
}

/// A list without our profile; what somebody else applied stays applied.
pub open spec fn without_profile(
    doc: (Map<Seq<char>, Seq<char>>, Map<Seq<char>, Seq<(Option<Seq<char>>, Seq<char>)>>),
) -> (Map<Seq<char>, Seq<char>>, Map<Seq<char>, Seq<(Option<Seq<char>>, Seq<char>)>>) {
    let unapplied = if is_applied(doc) {
        document::without(doc, "appliedId"@)
    } else {
        doc
    };
    if doc.1.contains_key("entries"@) {
        document::with_list(unapplied, "entries"@, others(doc.1["entries"@]))
    } else {
        unapplied
    }
}

/// What an edit writes over what a file holds; nothing where there is nothing
/// of ours to take back.
pub open spec fn edited(
    doc: (Map<Seq<char>, Seq<char>>, Map<Seq<char>, Seq<(Option<Seq<char>>, Seq<char>)>>),
    edit: Edit,
    gateway: Gateway,
) -> Option<(Map<Seq<char>, Seq<char>>, Map<Seq<char>, Seq<(Option<Seq<char>>, Seq<char>)>>)> {
    match edit {
        Edit::WriteProfile => Some(with_gateway(doc, gateway)),
        Edit::ListProfile => Some(with_profile(doc, gateway.display_name@)),
        Edit::ThirdParty => Some(document::with_value(doc, "deploymentMode"@, document::string_json("3p"@))),
        Edit::FirstParty => Some(document::with_value(doc, "deploymentMode"@, document::string_json("1p"@))),
        Edit::UnlistProfile => if doc.0 == document::no_members() {
            None
        } else {
            Some(without_profile(doc))
        },
        Edit::StripProfile => if doc.0 == document::no_members() {
            None
        } else {
            Some(without_gateway(doc))
        },
    }
}

/// Performs an edit on what a file holds: the document to write back, nothing to
/// write, or what is wrong with the file.
pub fn edit_document(edit: Edit, gateway: &Gateway, contents: Option<&str>, path: &str) -> (r: Result<
    Option<serde_json::Value>,
    String,
>)
    ensures
        match r {
            Ok(Some(doc)) => file_problem(given_text(contents), path@) is None && document::is_object(doc) && edited(
                file_contents(given_text(contents)),
                edit,
                *gateway,
            ) == Some(document::contents(doc)),
            Ok(None) => file_problem(given_text(contents), path@) is None && edited(
                file_contents(given_text(contents)),
                edit,
                *gateway,
            ) is None,
            Err(message) => file_problem(given_text(contents), path@) == Some(message@),
        },
{
    let mut doc = match read_object(contents, path) {
        Ok(doc) => doc,
        Err(message) => return Err(message),
    };
    match edit {
        Edit::WriteProfile => write_gateway(&mut doc, gateway),
        Edit::ListProfile => list_profile(&mut doc, gateway.display_name.as_str()),
        Edit::ThirdParty => document::put_text(&mut doc, "deploymentMode", "3p"),
        Edit::FirstParty => document::put_text(&mut doc, "deploymentMode", "1p"),
        Edit::UnlistProfile => {
            if document::has_no_members(&doc) {
                return Ok(None);
            }
            unlist_profile(&mut doc);
        },
        Edit::StripProfile => {
            if document::has_no_members(&doc) {
                return Ok(None);
            }
            strip_gateway(&mut doc);
        },
    }
    Ok(Some(doc))
}

fn write_gateway(doc: &mut serde_json::Value, gateway: &Gateway)
    requires
        document::is_object(*old(doc)),
    ensures
        document::is_object(*final(doc)),
        document::contents(*final(doc)) == with_gateway(document::contents(*old(doc)), *gateway),
{
    document::put_text(doc, "inferenceProvider", "gateway");
    document::put_text(doc, "inferenceGatewayBaseUrl", gateway.base_url.as_str());
    document::put_text(doc, "inferenceGatewayApiKey", gateway.api_key.as_str());
    document::put_text(doc, "inferenceGatewayAuthScheme", "bearer");
    document::put_text(doc, "deploymentDisplayName", gateway.display_name.as_str());
    document::put_bool(doc, "disableDeploymentModeChooser", true);
    document::put_bool(doc, "chatTabEnabled", true);
    put_hosts(doc);
    document::put_bool(doc, "autoModeEnabled", false);
    document::put_bool(doc, "coworkTabEnabled", true);
    put_models(doc, &gateway.models);
    document::put_bool(doc, "modelDiscoveryEnabled", true);
}

fn put_hosts(doc: &mut serde_json::Value)
    requires
        document::is_object(*old(doc)),
    ensures
        document::is_object(*final(doc)),
        document::contents(*final(doc)) == document::with_list(
            document::contents(*old(doc)),
            "coworkEgressAllowedHosts"@,
            seq![(None, document::string_json("*"@))],
        ),
{
    document::put_empty_list(doc, "coworkEgressAllowedHosts");
    document::push_text(doc, "coworkEgressAllowedHosts", "*");
    let ghost items: Seq<(Option<Seq<char>>, Seq<char>)> = seq![(None, document::string_json("*"@))];
    assert(items =~= Seq::empty().push((None, document::string_json("*"@))));
    assert(document::contents(*doc).0 =~= document::with_list(
        document::contents(*old(doc)),
        "coworkEgressAllowedHosts"@,
        items,
    ).0);
    assert(document::contents(*doc).1 =~= document::with_list(
        document::contents(*old(doc)),
        "coworkEgressAllowedHosts"@,
        items,
    ).1);
}

fn put_models(doc: &mut serde_json::Value, models: &Vec<(String, String)>)
    requires
        document::is_object(*old(doc)),
    ensures
        document::is_object(*final(doc)),
        document::contents(*final(doc)) == document::with_list(
            document::contents(*old(doc)),
            "inferenceModels"@,
            picker_items(models@),
        ),
{
    document::put_empty_list(doc, "inferenceModels");
    let ghost start = document::contents(*old(doc));
    let mut i: usize = 0;
    assert(picker_items(models@.take(0)) =~= Seq::empty());
    while i < models.len()
        invariant
            i <= models@.len(),
            document::is_object(*doc),
            document::contents(*doc) == document::with_list(
                start,
                "inferenceModels"@,
                picker_items(models@.take(i as int)),
            ),
        decreases models@.len() - i,
    {
        document::push_pair(doc, "inferenceModels", "name", models[i].0.as_str(), "labelOverride", models[i].1.as_str());
        i = i + 1;
        assert(picker_items(models@.take(i as int)) =~= picker_items(models@.take(i - 1)).push(
            picker_item(models@[i - 1]),
        ));
        let ghost now = document::with_list(start, "inferenceModels"@, picker_items(models@.take(i as int)));
        assert(document::contents(*doc).0 =~= now.0);
        assert(document::contents(*doc).1 =~= now.1);
    }
    assert(models@.take(i as int) =~= models@);
}

fn strip_gateway(doc: &mut serde_json::Value)
    requires
        document::is_object(*old(doc)),
    ensures
        document::is_object(*final(doc)),
        document::contents(*final(doc)) == without_gateway(document::contents(*old(doc))),
{
    document::remove_member(doc, "inferenceProvider");
    document::remove_member(doc, "inferenceGatewayBaseUrl");
    document::remove_member(doc, "inferenceGatewayApiKey");
    document::remove_member(doc, "inferenceGatewayAuthScheme");
    document::remove_member(doc, "deploymentDisplayName");
    document::remove_member(doc, "disableDeploymentModeChooser");
    document::remove_member(doc, "chatTabEnabled");
    document::remove_member(doc, "inferenceModels");
    document::remove_member(doc, "coworkEgressAllowedHosts");
    document::remove_member(doc, "autoModeEnabled");
    document::remove_member(doc, "coworkTabEnabled");
    document::remove_member(doc, "modelDiscoveryEnabled");
}

/// Keeps the entries of a list that are not ours.
fn drop_ours(doc: &mut serde_json::Value, n: usize)
    requires
        document::is_object(*old(doc)),
        document::lists(*old(doc)).contains_key("entries"@),
        document::lists(*old(doc))["entries"@].len() == n,
        document::members(*old(doc)).contains_key("entries"@),
        document::members(*old(doc))["entries"@] == document::list_json(document::lists(*old(doc))["entries"@]),
    ensures
        document::is_object(*final(doc)),
        document::contents(*final(doc)) == document::with_list(
            document::contents(*old(doc)),
            "entries"@,
            others(document::lists(*old(doc))["entries"@]),
        ),
{
    let ghost start = document::contents(*old(doc));
    let ghost items = document::lists(*old(doc))["entries"@];
    let mut seen: usize = 0;
    let mut i: usize = 0;
    assert(others(items.take(0)) + items.skip(0) =~= items);
    assert(document::contents(*doc).0 =~= document::with_list(start, "entries"@, items).0);
    assert(document::contents(*doc).1 =~= document::with_list(start, "entries"@, items).1);
    while seen < n
        invariant
            seen <= n == items.len(),
            i == others(items.take(seen as int)).len(),
            i <= seen,
            document::is_object(*doc),
            document::contents(*doc) == document::with_list(
                start,
                "entries"@,
                others(items.take(seen as int)) + items.skip(seen as int),
            ),
        decreases n - seen,
    {
        let ghost kept = others(items.take(seen as int));
        let ghost rest = items.skip(seen as int);
        assert((kept + rest)[i as int] == items[seen as int]);
        assert(items.take(seen + 1).drop_last() =~= items.take(seen as int));
        let ours = match document::item_id(doc, "entries", i) {
            Some(id) => text::str_eq(id.as_str(), profile_id_exec()),
            None => false,
        };
        seen = seen + 1;
        let ghost now = others(items.take(seen as int)) + items.skip(seen as int);
        if ours {
            document::remove_item(doc, "entries", i);
            assert((kept + rest).remove(i as int) =~= now);
            assert(document::contents(*doc).0 =~= document::with_list(start, "entries"@, now).0);
            assert(document::contents(*doc).1 =~= document::with_list(start, "entries"@, now).1);
        } else {
            i = i + 1;
            assert(kept + rest =~= now);
        }
    }
    assert(items.take(seen as int) =~= items);
    assert(others(items) + items.skip(seen as int) =~= others(items));
}

proof fn list_keys_differ()
    ensures
        "entries"@ != "appliedId"@,
        "id"@ != "name"@,
{
    reveal_strlit("entries");
    reveal_strlit("appliedId");
    reveal_strlit("id");
    reveal_strlit("name");
    assert("entries"@.len() != "appliedId"@.len());
    assert("id"@.len() != "name"@.len());
}

fn list_profile(doc: &mut serde_json::Value, display_name: &str)
    requires
        document::is_object(*old(doc)),
    ensures
        document::is_object(*final(doc)),
        document::contents(*final(doc)) == with_profile(document::contents(*old(doc)), display_name@),
{
    let ghost start = document::contents(*old(doc));
    match document::list_len(doc, "entries") {
        Some(n) => drop_ours(doc, n),
        None => document::put_empty_list(doc, "entries"),
    }
    document::push_pair(doc, "entries", "id", profile_id_exec(), "name", display_name);
    document::put_text(doc, "appliedId", profile_id_exec());
    proof {
        list_keys_differ();
        let done = with_profile(start, display_name@);
        assert(document::contents(*doc).0 =~= done.0);
        assert(document::contents(*doc).1 =~= done.1);
    }
}

/// Whether our profile is the one that a list marks applied.
fn applied(doc: &serde_json::Value) -> (r: bool)
    ensures
        r == is_applied(document::contents(*doc)),
{
    match document::text_member(doc, "appliedId") {
        Some(id) => {
            proof {
                if is_applied(document::contents(*doc)) {
                    assert(document::string_json(profile_id()) == document::members(*doc)["appliedId"@]);
                }
            }
            text::str_eq(id.as_str(), profile_id_exec())
        },
        None => false,
    }
}

fn unlist_profile(doc: &mut serde_json::Value)
    requires
        document::is_object(*old(doc)),
    ensures
        document::is_object(*final(doc)),
        document::contents(*final(doc)) == without_profile(document::contents(*old(doc))),
{
    let ghost start = document::contents(*old(doc));
    let was_applied = applied(doc);
    if let Some(n) = document::list_len(doc, "entries") {
        drop_ours(doc, n);
    }
    if was_applied {
        document::remove_member(doc, "appliedId");
    }
    proof {
        list_keys_differ();
        let done = without_profile(start);
        assert(document::contents(*doc).0 =~= done.0);
        assert(document::contents(*doc).1 =~= done.1);
    }
}

/// True when our profile is the one that the app has applied; a list that
/// cannot be read applies nothing.
pub fn gateway_applied(contents: Option<&str>) -> (r: bool)
    ensures
        r == (file_problem(given_text(contents), Seq::empty()) is None && is_applied(
            file_contents(given_text(contents)),
        )),
{
    match read_object(contents, "") {
        Ok(doc) => applied(&doc),
        Err(_) => {
            proof {
                reveal_strlit("");
                assert(""@ =~= Seq::empty());
            }
            false
        },
    }
}

/// What is said of a file that could not be written.
pub fn write_failure(path: &str) -> (r: String)
    ensures
        r@ == "could not write "@ + path@,
{
    text::cat2("could not write ", path)
}

/// The members that belong to us.
pub open spec fn is_our_key(key: Seq<char>) -> bool {
    key == "inferenceProvider"@ || key == "inferenceGatewayBaseUrl"@ || key == "inferenceGatewayApiKey"@ || key
        == "inferenceGatewayAuthScheme"@ || key == "deploymentDisplayName"@ || key == "disableDeploymentModeChooser"@
        || key == "chatTabEnabled"@ || key == "coworkEgressAllowedHosts"@ || key == "autoModeEnabled"@ || key
        == "coworkTabEnabled"@ || key == "inferenceModels"@ || key == "modelDiscoveryEnabled"@
}

/// Stripping a profile takes back what writing the gateway put there, and
/// neither touches anything else in it.
pub proof fn stripping_takes_back_the_gateway(
    doc: (Map<Seq<char>, Seq<char>>, Map<Seq<char>, Seq<(Option<Seq<char>>, Seq<char>)>>),
    gateway: Gateway,
)
    ensures
        without_gateway(with_gateway(doc, gateway)) == without_gateway(doc),
        forall|key: Seq<char>| #[trigger]
            without_gateway(doc).0.contains_key(key) <==> doc.0.contains_key(key) && !is_our_key(key),
        forall|key: Seq<char>|
            doc.0.contains_key(key) && !is_our_key(key) ==> #[trigger] without_gateway(doc).0[key] == doc.0[key],
{
    assert(without_gateway(with_gateway(doc, gateway)).0 =~= without_gateway(doc).0);
    assert(without_gateway(with_gateway(doc, gateway)).1 =~= without_gateway(doc).1);
}

proof fn others_has_none_of_ours(items: Seq<(Option<Seq<char>>, Seq<char>)>)
    ensures
        forall|i: int| 0 <= i < others(items).len() ==> (#[trigger] others(items)[i]).0 != Some(profile_id()),
        others(others(items)) == others(items),
    decreases items.len(),
{
    if items.len() > 0 {
        others_has_none_of_ours(items.drop_last());
        let kept = others(items.drop_last());
        if items.last().0 != Some(profile_id()) {
            assert(kept.push(items.last()).drop_last() =~= kept);
        }
    }
}

/// After our profile is listed it is the applied one, it is the last entry and
/// the only one of ours, and the entries of others are where they were.
pub proof fn a_listed_profile_is_applied_once(
    doc: (Map<Seq<char>, Seq<char>>, Map<Seq<char>, Seq<(Option<Seq<char>>, Seq<char>)>>),
    display_name: Seq<char>,
)
    ensures
        is_applied(with_profile(doc, display_name)),
        listed(with_profile(doc, display_name)).last() == our_item(display_name),
        our_item(display_name).0 == Some(profile_id()),
        others(listed(with_profile(doc, display_name))) == others(listed(doc)),
        listed(with_profile(doc, display_name)).len() == others(listed(doc)).len() + 1,
{
    list_keys_differ();
    others_has_none_of_ours(listed(doc));
    let kept = others(listed(doc));
    assert(kept.push(our_item(display_name)).drop_last() =~= kept);
}

/// Applying twice lists our profile once: the second run replaces the first.
pub proof fn a_second_run_replaces_the_first(
    doc: (Map<Seq<char>, Seq<char>>, Map<Seq<char>, Seq<(Option<Seq<char>>, Seq<char>)>>),
    first_name: Seq<char>,
    display_name: Seq<char>,
)
    ensures
        with_profile(with_profile(doc, first_name), display_name) == with_profile(doc, display_name),
{
    list_keys_differ();
    a_listed_profile_is_applied_once(doc, first_name);
    let twice = with_profile(with_profile(doc, first_name), display_name);
    let once = with_profile(doc, display_name);
    assert(twice.0 =~= once.0);
    assert(twice.1 =~= once.1);
}

/// After our profile is unlisted it is not applied, no entry is ours, and every
/// entry and member of others is as it was; a profile that somebody else applied
/// stays applied.
pub proof fn unlisting_leaves_the_others(
    doc: (Map<Seq<char>, Seq<char>>, Map<Seq<char>, Seq<(Option<Seq<char>>, Seq<char>)>>),
)
    ensures
        !is_applied(without_profile(doc)),
        listed(without_profile(doc)) == others(listed(doc)),
        forall|key: Seq<char>|
            key != "entries"@ && key != "appliedId"@ ==> (#[trigger] without_profile(doc).0.contains_key(key)
                <==> doc.0.contains_key(key)),
        forall|key: Seq<char>|
            key != "entries"@ && key != "appliedId"@ && doc.0.contains_key(key) ==> #[trigger] without_profile(doc).0[key]
                == doc.0[key],
        !is_applied(doc) && doc.0.contains_key("appliedId"@) ==> without_profile(doc).0.contains_key("appliedId"@)
            && without_profile(doc).0["appliedId"@] == doc.0["appliedId"@],
{
    list_keys_differ();
}

proof fn our_keys_differ()
    ensures
        ({
            let keys = seq![
                "inferenceProvider"@,
                "inferenceGatewayBaseUrl"@,
                "inferenceGatewayApiKey"@,
                "inferenceGatewayAuthScheme"@,
                "deploymentDisplayName"@,
                "disableDeploymentModeChooser"@,
                "chatTabEnabled"@,
                "coworkEgressAllowedHosts"@,
                "autoModeEnabled"@,
                "coworkTabEnabled"@,
                "inferenceModels"@,
                "modelDiscoveryEnabled"@,
            ];
            forall|i: int, j: int| 0 <= i < j < 12 ==> #[trigger] keys[i] != #[trigger] keys[j]
        }),
{
    reveal_strlit("inferenceProvider");
    reveal_strlit("inferenceGatewayBaseUrl");
    reveal_strlit("inferenceGatewayApiKey");
    reveal_strlit("inferenceGatewayAuthScheme");
    reveal_strlit("deploymentDisplayName");
    reveal_strlit("disableDeploymentModeChooser");
    reveal_strlit("chatTabEnabled");
    reveal_strlit("coworkEgressAllowedHosts");
    reveal_strlit("autoModeEnabled");
    reveal_strlit("coworkTabEnabled");
    reveal_strlit("inferenceModels");
    reveal_strlit("modelDiscoveryEnabled");
    let keys = seq![
        "inferenceProvider"@,
        "inferenceGatewayBaseUrl"@,
        "inferenceGatewayApiKey"@,
        "inferenceGatewayAuthScheme"@,
        "deploymentDisplayName"@,
        "disableDeploymentModeChooser"@,
        "chatTabEnabled"@,
        "coworkEgressAllowedHosts"@,
        "autoModeEnabled"@,
        "coworkTabEnabled"@,
        "inferenceModels"@,
        "modelDiscoveryEnabled"@,
    ];
    assert(keys[0].len() == 17 && keys[1].len() == 23 && keys[2].len() == 22 && keys[3].len() == 26);
    assert(keys[4].len() == 21 && keys[5].len() == 28 && keys[6].len() == 14 && keys[7].len() == 24);
    assert(keys[8].len() == 15 && keys[9].len() == 16 && keys[10].len() == 15 && keys[11].len() == 21);
    assert(keys[4][0] == 'd' && keys[11][0] == 'm' && keys[8][0] == 'a' && keys[10][0] == 'i');
    assert forall|i: int, j: int| 0 <= i < j < 12 implies #[trigger] keys[i] != #[trigger] keys[j] by {
        assert(i == 0 || i == 1 || i == 2 || i == 3 || i == 4 || i == 5 || i == 6 || i == 7 || i == 8 || i == 9 || i
            == 10);
        assert(j == 1 || j == 2 || j == 3 || j == 4 || j == 5 || j == 6 || j == 7 || j == 8 || j == 9 || j == 10 || j
            == 11);
    }
}

/// A written profile sends the app to the gateway it was given, under the key it was
/// given, as a bearer, with its models in the picker in their order; whatever else
/// stands in the profile stays.
pub proof fn a_profile_points_at_its_gateway(
    doc: (Map<Seq<char>, Seq<char>>, Map<Seq<char>, Seq<(Option<Seq<char>>, Seq<char>)>>),
    gateway: Gateway,
)
    ensures
        ({
            let written = with_gateway(doc, gateway);
            &&& written.0["inferenceProvider"@] == document::string_json("gateway"@)
            &&& written.0["inferenceGatewayBaseUrl"@] == document::string_json(gateway.base_url@)
            &&& written.0["inferenceGatewayApiKey"@] == document::string_json(gateway.api_key@)
            &&& written.0["inferenceGatewayAuthScheme"@] == document::string_json("bearer"@)
            &&& written.0["deploymentDisplayName"@] == document::string_json(gateway.display_name@)
            &&& written.0["disableDeploymentModeChooser"@] == "true"@
            &&& written.0["chatTabEnabled"@] == "true"@
            &&& written.0["coworkTabEnabled"@] == "true"@
            &&& written.0["modelDiscoveryEnabled"@] == "true"@
            &&& written.0["autoModeEnabled"@] == "false"@
            &&& written.1["inferenceModels"@].len() == gateway.models@.len()
            &&& forall|i: int|
                0 <= i < gateway.models@.len() ==> (#[trigger] written.1["inferenceModels"@][i]).1 == document::pair_json(
                    ("name"@, gateway.models@[i].0@, "labelOverride"@, gateway.models@[i].1@),
                )
            &&& forall|key: Seq<char>|
                !is_our_key(key) ==> (#[trigger] written.0.contains_key(key) <==> doc.0.contains_key(key))
            &&& forall|key: Seq<char>|
                !is_our_key(key) && doc.0.contains_key(key) ==> #[trigger] written.0[key] == doc.0[key]
        }),
{
    our_keys_differ();
    let keys = seq![
        "inferenceProvider"@,
        "inferenceGatewayBaseUrl"@,
        "inferenceGatewayApiKey"@,
        "inferenceGatewayAuthScheme"@,
        "deploymentDisplayName"@,
        "disableDeploymentModeChooser"@,
        "chatTabEnabled"@,
        "coworkEgressAllowedHosts"@,
        "autoModeEnabled"@,
        "coworkTabEnabled"@,
        "inferenceModels"@,
        "modelDiscoveryEnabled"@,
    ];
    assert(keys[0] == "inferenceProvider"@ && keys[1] == "inferenceGatewayBaseUrl"@ && keys[2]
        == "inferenceGatewayApiKey"@ && keys[3] == "inferenceGatewayAuthScheme"@ && keys[4]
        == "deploymentDisplayName"@ && keys[5] == "disableDeploymentModeChooser"@);
    assert(keys[6] == "chatTabEnabled"@ && keys[7] == "coworkEgressAllowedHosts"@ && keys[8] == "autoModeEnabled"@
        && keys[9] == "coworkTabEnabled"@ && keys[10] == "inferenceModels"@ && keys[11] == "modelDiscoveryEnabled"@);
    assert(with_gateway(doc, gateway).1["inferenceModels"@] == picker_items(gateway.models@));
}

/// Restoring goes over the very files that applying went over, and sets back the
/// mode of both apps that applying set.
pub proof fn restoring_undoes_every_edit(
    brand: BrandView,
    home: Seq<char>,
    doc: (Map<Seq<char>, Seq<char>>, Map<Seq<char>, Seq<(Option<Seq<char>>, Seq<char>)>>),
    gateway: Gateway,
)
    ensures
        ({
            let (done, undone) = (apply_edits(brand, home), restore_edits(brand, home));
            &&& done.len() == 4 && undone.len() == 4
            &&& done[0].0 == Edit::WriteProfile && undone[3] == (Edit::StripProfile, done[0].1)
            &&& done[1].0 == Edit::ListProfile && undone[2] == (Edit::UnlistProfile, done[1].1)
            &&& done[2].0 == Edit::ThirdParty && undone[1] == (Edit::FirstParty, done[2].1)
            &&& done[3].0 == Edit::ThirdParty && undone[0] == (Edit::FirstParty, done[3].1)
        }),
        ({
            let there = edited(doc, Edit::ThirdParty, gateway);
            let back = edited(doc, Edit::FirstParty, gateway);
            &&& there is Some && (there->0).0["deploymentMode"@] == document::string_json("3p"@)
            &&& back is Some && (back->0).0["deploymentMode"@] == document::string_json("1p"@)
        }),
{
}

/// A file that is missing, blank or no object counts as empty; only one that
/// cannot be read is a problem, and that names the file.
pub proof fn an_unreadable_file_is_a_problem(contents: Option<Seq<char>>, path: Seq<char>)
    ensures
        contents is None ==> file_problem(contents, path) is None && file_contents(contents) == (
            Map::<Seq<char>, Seq<char>>::empty(),
            Map::<Seq<char>, Seq<(Option<Seq<char>>, Seq<char>)>>::empty(),
        ),
        contents is Some && (forall|i: int| 0 <= i < contents->0.len() ==> text::is_space(#[trigger] contents->0[i]))
            ==> file_problem(contents, path) is None && file_contents(contents).0 == Map::<Seq<char>, Seq<char>>::empty(),
        contents is Some && (exists|i: int| 0 <= i < contents->0.len() && !text::is_space(#[trigger] contents->0[i]))
            ==> match document::read_text(contents->0) {
            Ok(read) => file_problem(contents, path) is None && (read.0 ==> file_contents(contents) == (
                read.1,
                read.2,
            )),
            Err(message) => file_problem(contents, path) == Some("could not read "@ + path + ": "@ + message),
        },
{
}

} // verus!
