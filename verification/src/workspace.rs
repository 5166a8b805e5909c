//! A located workspace: the manifest that declares it, the package that is to
//! receive the new dependency, and what can be asked of and added to it.

use crate::locate::{declares_target, Probe, Search};
use crate::manifest::{declared_members, with_member, ManifestDocument};
use crate::path::{DirPath, DirPathView};
use crate::strings::texts;
use crate::toml::Toml;
use vstd::prelude::*;

verus! {

/// A workspace and the target package in it.
#[derive(Debug)]
pub struct Workspace {
    target_package_name: String,
    target_is_root_package: bool,
    cargo_toml_dir: DirPath,
    cargo_toml_doc: ManifestDocument,
}

/// The mathematical value of a [`Workspace`].
pub struct WorkspaceView {
    /// The name of the package that receives the new dependency.
    pub target_package_name: Seq<char>,
    /// Whether that package is the one the workspace manifest itself declares.
    pub target_is_root_package: bool,
    /// The directory of the workspace manifest.
    pub dir: DirPathView,
    /// The root entries of the workspace manifest.
    pub manifest: Map<Seq<char>, Toml>,
}

impl View for Workspace {
    type V = WorkspaceView;

    closed spec fn view(&self) -> WorkspaceView {
        WorkspaceView {
            target_package_name: self.target_package_name@,
            target_is_root_package: self.target_is_root_package,
            dir: self.cargo_toml_dir@,
            manifest: self.cargo_toml_doc.entries(),
        }
    }
}

impl Workspace {
    /// Whether the manifest document is one that was parsed.
    pub closed spec fn well_formed(self) -> bool {
        self.cargo_toml_doc.well_formed()
    }

    /// The text that the workspace manifest is written back as.
    pub closed spec fn manifest_text(self) -> Seq<char> {
        self.cargo_toml_doc.text()
    }

    pub(crate) fn assemble(
        target_package_name: String,
        target_is_root_package: bool,
        cargo_toml_dir: DirPath,
        cargo_toml_doc: ManifestDocument,
    ) -> (workspace: Workspace)
        requires
            cargo_toml_doc.well_formed(),
        ensures
            workspace.well_formed(),
            workspace@ == (WorkspaceView {
                target_package_name: target_package_name@,
                target_is_root_package,
                dir: cargo_toml_dir@,
                manifest: cargo_toml_doc.entries(),
            }),
    {
        Workspace { target_package_name, target_is_root_package, cargo_toml_dir, cargo_toml_doc }
    }

    /// Starts the search for the workspace that encloses `dir`.
    ///
    /// The search walks upwards from `dir`. `target_package_name` is the
    /// package to modify where the caller named one; otherwise the first
    /// package met on the way up is taken. Nothing is read here: the search
    /// that is returned says which manifest it needs next, see
    /// [`Search::lookup`] and [`Search::step`].
    pub fn find_starting_in_dir(dir: DirPath, target_package_name: Option<String>) -> (search:
        Search)
        ensures
            search.well_formed(),
            search@ == crate::locate::start_of(dir@, crate::strings::text_of(target_package_name)),
    {
        Search::walking(dir, target_package_name)
    }

    /// The name of the package that receives the new dependency.
    pub fn target_package_name(&self) -> (name: &str)
        ensures
            name@ == self@.target_package_name,
    {
        self.target_package_name.as_str()
    }

    /// Whether the target package is the one the workspace manifest declares.
    pub fn target_is_root_package(&self) -> (is_root: bool)
        ensures
            is_root == self@.target_is_root_package,
    {
        self.target_is_root_package
    }

    /// The directory of the workspace manifest.
    pub fn manifest_dir(&self) -> (dir: &DirPath)
        ensures
            dir@ == self@.dir,
    {
        &self.cargo_toml_dir
    }

    /// The member list of the workspace, in declared order.
    pub fn members(&self) -> (members: Vec<String>)
        requires
            self.well_formed(),
        ensures
            texts(members@) == declared_members(self@.manifest),
    {
        self.cargo_toml_doc.members()
    }

    /// Whether what was found where a member's manifest should be is a
    /// manifest of the target package.
    pub fn member_declares_target(&self, probe: &Probe) -> (declares: bool)
        ensures
            declares == declares_target(probe@, self@.target_package_name),
    {
        match probe {
            Probe::Content(text) => match ManifestDocument::parse(text.as_str()) {
                Ok(manifest) => manifest.declared().names(self.target_package_name.as_str()),
                Err(_) => false,
            },
            _ => false,
        }
    }

    /// Whether the target package belongs to the workspace, given what was
    /// found where each member's manifest should be, in the order of the
    /// member list.
    ///
    /// The workspace's own package belongs to it whatever the members hold.
    /// Otherwise the target belongs to it when one of the members' manifests
    /// declares a package of the target's name; a manifest that is missing,
    /// unreadable or malformed counts as no match.
    pub fn target_package_is_in_workspace(&self, member_manifests: &Vec<Probe>) -> (is_member: bool)
        ensures
            is_member == (self@.target_is_root_package || exists|i: int|
                0 <= i < member_manifests.len() && declares_target(
                    #[trigger] member_manifests[i]@,
                    self@.target_package_name,
                )),
    {
        if self.target_is_root_package {
            return true;
        }
        let mut i: usize = 0;
        while i < member_manifests.len()
            invariant
                i <= member_manifests.len(),
                forall|j: int|
                    0 <= j < i ==> !declares_target(
                        #[trigger] member_manifests[j]@,
                        self@.target_package_name,
                    ),
            decreases member_manifests.len() - i,
        {
            if self.member_declares_target(&member_manifests[i]) {
                return true;
            }
            i += 1;
        }
        false
    }

    /// The path from the workspace's directory down to `dir`.
    ///
    /// `dir` is walked upwards until the workspace's directory is met; the
    /// components passed on the way, top first, are the result. It is empty
    /// where `dir` is the workspace's directory, and `None` where `dir` does
    /// not lie in the workspace.
    pub fn relative_path_to_workspace_from(&self, dir: &DirPath) -> (relative: Option<Vec<String>>)
        ensures
            dir@.is_within(self@.dir) ==> relative is Some && texts(relative->0@)
                == dir@.segments.skip(self@.dir.segments.len() as int),
            !dir@.is_within(self@.dir) ==> relative is None,
    {
        crate::path::relative_to(&self.cargo_toml_dir, dir)
    }

    /// Appends `member` to the workspace's member list and returns the text
    /// to write back to the manifest file.
    ///
    /// Every other entry of the manifest stays as it was. Where the manifest
    /// has no member list, nothing changes.
    pub fn add_member(&mut self, member: &str) -> (text: String)
        requires
            old(self).well_formed(),
        ensures
            final(self).well_formed(),
            final(self)@ == (WorkspaceView {
                manifest: with_member(old(self)@.manifest, member@),
                ..old(self)@
            }),
            text@ == final(self).manifest_text(),
    {
        self.cargo_toml_doc.push_member(member);
        self.cargo_toml_doc.to_text()
    }
}

} // verus!
