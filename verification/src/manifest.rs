//! Manifest documents: what a manifest file declares, read from and written
//! to a document that keeps the file's formatting.

use crate::strings::{present, present_texts, text_of, texts};
use crate::toml::{
    array_push, array_texts, array_values, entries_with, entry_of, item_as_array,
    item_as_array_mut, item_as_str, item_get, item_get_mut, item_is_table_like, parse_document,
    parsed_manifest, render_document, rendered, root_entries, root_get, root_get_mut, rooted,
    Toml,
};
use vstd::prelude::*;

verus! {

/// The name of the manifest file of a directory.
pub const MANIFEST_FILE: &'static str = "Cargo.toml";

/// The strings among `values`, in order.
pub open spec fn texts_among(values: Seq<Toml>) -> Seq<Seq<char>>
    decreases values.len(),
{
    if values.len() == 0 {
        Seq::empty()
    } else {
        let before = texts_among(values.drop_last());
        match values.last() {
            Toml::Text(text) => before.push(text),
            _ => before,
        }
    }
}

/// Whether a manifest with these root entries declares a workspace: it has a
/// table under `workspace`.
pub open spec fn declares_workspace(root: Map<Seq<char>, Toml>) -> bool {
    entry_of(root, "workspace"@) is Entries
}

/// The name of the package that a manifest with these root entries declares:
/// the string under `package.name`.
pub open spec fn declared_package(root: Map<Seq<char>, Toml>) -> Option<Seq<char>> {
    entry_of(root, "package"@).entry("name"@).text()
}

/// What a manifest declares, as far as the search for a workspace reads it.
#[derive(Debug)]
pub struct Declared {
    /// Whether it declares a workspace.
    pub workspace: bool,
    /// The name of the package that it declares, if it declares one.
    pub package: Option<String>,
}

/// The mathematical value of a [`Declared`].
pub struct DeclaredView {
    pub workspace: bool,
    pub package: Option<Seq<char>>,
}

impl View for Declared {
    type V = DeclaredView;

    open spec fn view(&self) -> DeclaredView {
        DeclaredView { workspace: self.workspace, package: text_of(self.package) }
    }
}

impl Declared {
    /// Whether the package that is declared is named `name`.
    pub fn names(&self, name: &str) -> (named: bool)
        ensures
            named == (self@.package == Some(name@)),
    {
        match &self.package {
            Some(package) => {
                let name = name.to_string();
                *package == name
            },
            None => false,
        }
    }
}

/// What a manifest with these root entries declares.
pub open spec fn declared_by(root: Map<Seq<char>, Toml>) -> DeclaredView {
    DeclaredView { workspace: declares_workspace(root), package: declared_package(root) }
}

/// The array under `workspace.members` of a manifest with these root entries.
pub open spec fn member_array(root: Map<Seq<char>, Toml>) -> Option<Seq<Toml>> {
    match entry_of(root, "workspace"@).entry("members"@) {
        Toml::List(values) => Some(values),
        _ => None,
    }
}

/// The member list of a manifest with these root entries: the strings of the
/// array under `workspace.members`, in order; empty where there is no such
/// array.
pub open spec fn declared_members(root: Map<Seq<char>, Toml>) -> Seq<Seq<char>> {
    match member_array(root) {
        Some(values) => texts_among(values),
        None => Seq::empty(),
    }
}

/// The root entries `root` after `member` was appended to the array under
/// `workspace.members`. Nothing else differs; without such an array nothing
/// differs at all.
pub open spec fn with_member(root: Map<Seq<char>, Toml>, member: Seq<char>) -> Map<Seq<char>, Toml> {
    match member_array(root) {
        Some(values) => root.insert(
            "workspace"@,
            entry_of(root, "workspace"@).with_entry("members"@, Toml::List(values.push(Toml::Text(member)))),
        ),
        None => root,
    }
}

/// The strings among a list of values and one more string are the strings
/// among the list, and then that string.
pub proof fn lemma_texts_among_push(values: Seq<Toml>, text: Seq<char>)
    ensures
        texts_among(values.push(Toml::Text(text))) == texts_among(values).push(text),
{
    assert(values.push(Toml::Text(text)).drop_last() =~= values);
}

/// Where a list of values holds a string exactly where a list of items
/// holds one, and the same one, the strings of both are the same.
pub proof fn lemma_present_among(items: Seq<Option<String>>, values: Seq<Toml>)
    requires
        items.len() == values.len(),
        forall|i: int| 0 <= i < items.len() ==> text_of(#[trigger] items[i]) == values[i].text(),
    ensures
        present_texts(items) == texts_among(values),
    decreases items.len(),
{
    if items.len() > 0 {
        lemma_present_among(items.drop_last(), values.drop_last());
        assert(text_of(items[items.len() - 1]) == values[items.len() - 1].text());
    }
}

/// Appending a member to a manifest that has a member list makes the list
/// one longer: the new member stands at its end, behind the members that
/// were there, which keep their order. Every other entry of the workspace
/// table and every other entry of the manifest is what it was.
pub proof fn lemma_member_appended(root: Map<Seq<char>, Toml>, member: Seq<char>)
    requires
        member_array(root) is Some,
    ensures
        member_array(with_member(root, member)) == Some(
            member_array(root)->0.push(Toml::Text(member)),
        ),
        declared_members(with_member(root, member)) == declared_members(root).push(member),
        declared_members(with_member(root, member)).len() == declared_members(root).len() + 1,
        forall|i: int|
            0 <= i < declared_members(root).len() ==> declared_members(with_member(root, member))[i]
                == declared_members(root)[i],
        forall|key: Seq<char>|
            key != "workspace"@ ==> entry_of(with_member(root, member), key) == entry_of(root, key),
        forall|key: Seq<char>|
            key != "members"@ ==> entry_of(with_member(root, member), "workspace"@).entry(key)
                == entry_of(root, "workspace"@).entry(key),
        declares_workspace(with_member(root, member)) == declares_workspace(root),
        declared_package(with_member(root, member)) == declared_package(root),
{
    reveal_strlit("workspace");
    reveal_strlit("members");
    reveal_strlit("package");
    assert("workspace"@ != "package"@) by {
        assert("workspace"@.len() != "package"@.len());
    }
    lemma_texts_among_push(member_array(root)->0, member);
}

/// Without a member list in the manifest, appending a member changes
/// nothing.
pub proof fn lemma_member_not_appended(root: Map<Seq<char>, Toml>, member: Seq<char>)
    requires
        member_array(root) is None,
    ensures
        with_member(root, member) == root,
{
}

/// The parsed structure of one manifest file.
///
/// A document is made by parsing the file's text and changed only by
/// [`ManifestDocument::push_member`], which leaves every other entry as it
/// was.
#[derive(Debug)]
pub struct ManifestDocument {
    doc: toml_edit::Document,
}

impl ManifestDocument {
    /// Whether the document is rooted in a table, as every parsed document is.
    pub closed spec fn well_formed(self) -> bool {
        rooted(self.doc)
    }

    /// The root entries of the manifest.
    pub closed spec fn entries(self) -> Map<Seq<char>, Toml> {
        root_entries(self.doc)
    }

    /// The text that the manifest is written back as.
    pub closed spec fn text(self) -> Seq<char> {
        rendered(self.doc)
    }

    /// Parses the text of a manifest file.
    pub fn parse(text: &str) -> (parsed: Result<ManifestDocument, toml_edit::TomlError>)
        ensures
            parsed matches Ok(manifest) ==> manifest.well_formed() && parsed_manifest(text@) == Some(
                manifest.entries(),
            ),
            parsed is Err ==> parsed_manifest(text@) is None,
    {
        match parse_document(text) {
            Ok(doc) => Ok(ManifestDocument { doc }),
            Err(error) => Err(error),
        }
    }

    /// Whether the manifest declares a workspace.
    pub fn is_workspace(&self) -> (declares: bool)
        requires
            self.well_formed(),
        ensures
            declares == declares_workspace(self.entries()),
    {
        match root_get(&self.doc, "workspace") {
            Some(item) => item_is_table_like(item),
            None => false,
        }
    }

    /// The name of the package that the manifest declares.
    pub fn package_name(&self) -> (name: Option<String>)
        requires
            self.well_formed(),
        ensures
            text_of(name) == declared_package(self.entries()),
    {
        let package = match root_get(&self.doc, "package") {
            Some(item) => item,
            None => { return None; },
        };
        let name = match item_get(package, "name") {
            Some(item) => item,
            None => { return None; },
        };
        match item_as_str(name) {
            Some(text) => Some(text.to_string()),
            None => None,
        }
    }

    /// What the manifest declares.
    pub fn declared(&self) -> (declared: Declared)
        requires
            self.well_formed(),
        ensures
            declared@ == declared_by(self.entries()),
    {
        Declared { workspace: self.is_workspace(), package: self.package_name() }
    }

    /// The member list that the manifest declares.
    pub fn members(&self) -> (members: Vec<String>)
        requires
            self.well_formed(),
        ensures
            texts(members@) == declared_members(self.entries()),
    {
        let workspace = match root_get(&self.doc, "workspace") {
            Some(item) => item,
            None => { return Vec::new(); },
        };
        let listed = match item_get(workspace, "members") {
            Some(item) => item,
            None => { return Vec::new(); },
        };
        let array = match item_as_array(listed) {
            Some(array) => array,
            None => { return Vec::new(); },
        };
        let items = array_texts(array);
        proof {
            lemma_present_among(items@, array_values(*array));
        }
        present(items)
    }

    /// Appends `member` to the member list and says whether there was a list
    /// to append to.
    pub fn push_member(&mut self, member: &str) -> (pushed: bool)
        requires
            old(self).well_formed(),
        ensures
            final(self).well_formed(),
            pushed == (member_array(old(self).entries()) is Some),
            final(self).entries() == with_member(old(self).entries(), member@),
    {
        let ghost before = self.entries();
        let mut pushed = false;
        if let Some(workspace) = root_get_mut(&mut self.doc, "workspace") {
            if let Some(listed) = item_get_mut(workspace, "members") {
                if let Some(array) = item_as_array_mut(listed) {
                    array_push(array, member);
                    pushed = true;
                }
            }
        }
        proof {
            let workspace = entry_of(before, "workspace"@);
            if before.contains_key("workspace"@) {
                if let Toml::Entries(inner) = workspace {
                    let listed = entry_of(inner, "members"@);
                    if !(listed is List) {
                        assert(entries_with(inner, "members"@, listed) =~= inner);
                    }
                }
                assert(before.insert("workspace"@, workspace) =~= before);
            }
        }
        pushed
    }

    /// The manifest as text, to be written back to its file.
    pub fn to_text(&self) -> (text: String)
        requires
            self.well_formed(),
        ensures
            text@ == self.text(),
    {
        render_document(&self.doc)
    }
}

} // verus!
