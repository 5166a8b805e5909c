//! The search for the workspace that encloses a directory.
//!
//! The search reads nothing itself. It says which manifest it needs next, is
//! told what was found there, and decides how to go on: upwards from the
//! starting directory until a manifest declares a workspace, then through
//! that workspace's members until one declares the target package.

use crate::manifest::{
    declared_by, declared_members, declared_package, Declared, DeclaredView, ManifestDocument,
};
use crate::path::{DirPath, DirPathView};
use crate::strings::{text_of, texts};
use crate::toml::{describe_toml_error, error_text, parsed_manifest};
use crate::workspace::{Workspace, WorkspaceView};
use vstd::prelude::*;
use vstd::string::StringExecFns;

verus! {

/// What was found where a manifest file was looked for.
#[derive(Debug)]
pub enum Probe {
    /// There is no such file.
    Missing,
    /// There is such a file, and it could not be read.
    Unreadable,
    /// The text of the file.
    Content(String),
}

/// The mathematical value of a [`Probe`].
pub enum ProbeView {
    Missing,
    Unreadable,
    Content(Seq<char>),
}

impl View for Probe {
    type V = ProbeView;

    open spec fn view(&self) -> ProbeView {
        match self {
            Probe::Missing => ProbeView::Missing,
            Probe::Unreadable => ProbeView::Unreadable,
            Probe::Content(text) => ProbeView::Content(text@),
        }
    }
}

/// A manifest file that the search needs to see. The file's name is
/// [`crate::manifest::MANIFEST_FILE`].
#[derive(Debug)]
pub enum Lookup {
    /// The manifest in directory `dir`.
    Manifest { dir: DirPath },
    /// The manifest in the directory that the member entry `member` names,
    /// taken relative to the workspace directory `dir`.
    MemberManifest { dir: DirPath, member: String },
}

/// The mathematical value of a [`Lookup`].
pub enum LookupView {
    Manifest { dir: DirPathView },
    MemberManifest { dir: DirPathView, member: Seq<char> },
}

impl View for Lookup {
    type V = LookupView;

    open spec fn view(&self) -> LookupView {
        match self {
            Lookup::Manifest { dir } => LookupView::Manifest { dir: dir@ },
            Lookup::MemberManifest { dir, member } => LookupView::MemberManifest {
                dir: dir@,
                member: member@,
            },
        }
    }
}

/// Why a search ended without an answer.
#[derive(Debug)]
pub enum LocateError {
    /// A workspace was found, and no package to modify: none was named and
    /// none was met on the way up.
    AmbiguousTarget,
    /// A manifest on the way up could not be read.
    Unreadable,
    /// A manifest on the way up is not valid TOML.
    Malformed(toml_edit::TomlError),
}

/// The mathematical value of a [`LocateError`].
pub enum Failure {
    AmbiguousTarget,
    Unreadable,
    Malformed,
}

impl View for LocateError {
    type V = Failure;

    open spec fn view(&self) -> Failure {
        match self {
            LocateError::AmbiguousTarget => Failure::AmbiguousTarget,
            LocateError::Unreadable => Failure::Unreadable,
            LocateError::Malformed(_) => Failure::Malformed,
        }
    }
}

impl LocateError {
    /// What to tell the user.
    pub open spec fn message_text(self) -> Seq<char> {
        match self {
            LocateError::AmbiguousTarget =>
                "Found workspace but no target package. Please specify a package with --package."@,
            LocateError::Unreadable => "Found a manifest that cannot be read."@,
            LocateError::Malformed(error) => error_text(error),
        }
    }

    /// What to tell the user.
    pub fn message(&self) -> (text: String)
        ensures
            text@ == self.message_text(),
    {
        match self {
            LocateError::AmbiguousTarget => String::from_str(
                "Found workspace but no target package. Please specify a package with --package.",
            ),
            LocateError::Unreadable => String::from_str("Found a manifest that cannot be read."),
            LocateError::Malformed(error) => describe_toml_error(error),
        }
    }
}

/// How a search ends.
pub enum Outcome {
    /// The workspace that encloses the starting directory and holds the
    /// target package.
    Found(WorkspaceView),
    /// No workspace encloses the starting directory, or the nearest one does
    /// not hold the target package.
    NotFound,
    /// The search could not be completed.
    Failed(Failure),
}

/// Whether what was found where a member's manifest should be is a manifest
/// that declares a package named `target`.
pub open spec fn declares_target(probe: ProbeView, target: Seq<char>) -> bool {
    probe matches ProbeView::Content(text) && parsed_manifest(text) matches Some(root)
        && declared_package(root) == Some(target)
}

/// What a manifest on the way up means for the walk.
#[derive(Debug)]
pub enum Turn {
    /// It declares no workspace: the walk goes on upwards, with `target` as
    /// the package to modify, as far as it is known.
    Pass { target: Option<String> },
    /// It declares a workspace, and no package to modify is known.
    Ambiguous,
    /// It declares a workspace, and `target` is the package to modify.
    /// `is_root` says whether that is the workspace's own package.
    Workspace { target: String, is_root: bool },
}

/// The mathematical value of a [`Turn`].
pub enum TurnView {
    Pass { target: Option<Seq<char>> },
    Ambiguous,
    Workspace { target: Seq<char>, is_root: bool },
}

impl View for Turn {
    type V = TurnView;

    open spec fn view(&self) -> TurnView {
        match self {
            Turn::Pass { target } => TurnView::Pass { target: text_of(*target) },
            Turn::Ambiguous => TurnView::Ambiguous,
            Turn::Workspace { target, is_root } => TurnView::Workspace {
                target: target@,
                is_root: *is_root,
            },
        }
    }
}

/// What a manifest that declares `declared` means for a walk that has
/// `target` as the package to modify so far.
///
/// Where no target is known yet, the package that the manifest declares
/// becomes the target. A manifest that declares a workspace ends the walk:
/// without a target there is no telling which package to modify; with one,
/// the target is the workspace's own package exactly when it was taken from
/// this manifest.
pub open spec fn turn_of(target: Option<Seq<char>>, declared: DeclaredView) -> TurnView {
    let known = if target is None {
        declared.package
    } else {
        target
    };
    if !declared.workspace {
        TurnView::Pass { target: known }
    } else {
        match known {
            None => TurnView::Ambiguous,
            Some(name) => TurnView::Workspace { target: name, is_root: target is None },
        }
    }
}

/// Decides what a manifest on the way up means for the walk; see [`turn_of`].
pub fn turn(target: Option<String>, declared: Declared) -> (turn: Turn)
    ensures
        turn@ == turn_of(text_of(target), declared@),
{
    let is_root = target.is_none();
    let known = match target {
        Some(name) => Some(name),
        None => declared.package,
    };
    if !declared.workspace {
        Turn::Pass { target: known }
    } else {
        match known {
            None => Turn::Ambiguous,
            Some(name) => Turn::Workspace { target: name, is_root },
        }
    }
}

enum Stage {
    Walking { dir: DirPath, target: Option<String> },
    Scanning { candidate: Workspace, members: Vec<String>, next: usize },
}

/// A search under way.
pub struct Search {
    stage: Stage,
}

/// The mathematical value of a [`Search`].
pub enum SearchView {
    /// On the way up: the manifest of `dir` is needed next. `target` is the
    /// package to modify, as far as it is known.
    Walking { dir: DirPathView, target: Option<Seq<char>> },
    /// A workspace was found and its own package is not the target: the
    /// manifest of member `next` of `members` is needed next.
    Scanning { candidate: WorkspaceView, members: Seq<Seq<char>>, next: nat },
}

impl SearchView {
    /// Whether a scan is over the member list of its workspace, and not past
    /// its end.
    pub open spec fn well_formed(self) -> bool {
        match self {
            SearchView::Walking { .. } => true,
            SearchView::Scanning { candidate, members, next } => {
                &&& !candidate.target_is_root_package
                &&& members == declared_members(candidate.manifest)
                &&& next < members.len()
            },
        }
    }

    /// The manifest that the search needs next.
    pub open spec fn lookup(self) -> LookupView {
        match self {
            SearchView::Walking { dir, .. } => LookupView::Manifest { dir },
            SearchView::Scanning { candidate, members, next } => LookupView::MemberManifest {
                dir: candidate.dir,
                member: members[next as int],
            },
        }
    }
}

/// What a search does once it is told what was found.
pub enum Progress {
    /// The search goes on and needs another manifest.
    Ask(Search),
    /// The search ended: this is the workspace, and the target package
    /// belongs to it.
    Found(Workspace),
    /// The search ended: there is no workspace for the target package.
    NotFound,
    /// The search ended without an answer.
    Failed(LocateError),
}

/// The mathematical value of a [`Progress`].
pub enum ProgressView {
    Ask(SearchView),
    Done(Outcome),
}

/// The search at its start: on the way up from `dir`.
pub open spec fn start_of(dir: DirPathView, target: Option<Seq<char>>) -> SearchView {
    SearchView::Walking { dir, target }
}

/// The step upwards from `dir`: on to the parent, or the end of the walk
/// where there is none.
pub open spec fn climb_of(dir: DirPathView, target: Option<Seq<char>>) -> ProgressView {
    if dir.segments.len() == 0 {
        ProgressView::Done(Outcome::NotFound)
    } else {
        ProgressView::Ask(SearchView::Walking { dir: dir.ancestor(1), target })
    }
}

/// What follows once the workspace `candidate` was found: the answer where
/// its own package is the target or it has no members, and the scan of its
/// members otherwise.
pub open spec fn scan_of(candidate: WorkspaceView) -> ProgressView {
    let members = declared_members(candidate.manifest);
    if candidate.target_is_root_package {
        ProgressView::Done(Outcome::Found(candidate))
    } else if members.len() == 0 {
        ProgressView::Done(Outcome::NotFound)
    } else {
        ProgressView::Ask(SearchView::Scanning { candidate, members, next: 0 })
    }
}

/// What a search in state `search` does once it is told that `probe` was
/// found where it looked.
///
/// On the way up, a missing manifest sends the search to the parent; one
/// that cannot be read or parsed ends it. A manifest that declares a package
/// settles the target where none is known yet. A manifest that declares a
/// workspace ends the walk: without a target that is a failure; otherwise
/// the workspace is the answer if its own package became the target just
/// now, and its members are scanned if not.
///
/// In a scan, a member whose manifest declares the target makes the
/// workspace the answer. Any other finding passes on to the next member,
/// and after the last member there is no workspace for the target.
pub open spec fn step_of(search: SearchView, probe: ProbeView) -> ProgressView {
    match search {
        SearchView::Walking { dir, target } => match probe {
            ProbeView::Missing => climb_of(dir, target),
            ProbeView::Unreadable => ProgressView::Done(Outcome::Failed(Failure::Unreadable)),
            ProbeView::Content(text) => match parsed_manifest(text) {
                None => ProgressView::Done(Outcome::Failed(Failure::Malformed)),
                Some(root) => match turn_of(target, declared_by(root)) {
                    TurnView::Pass { target } => climb_of(dir, target),
                    TurnView::Ambiguous => ProgressView::Done(
                        Outcome::Failed(Failure::AmbiguousTarget),
                    ),
                    TurnView::Workspace { target, is_root } => scan_of(
                        WorkspaceView {
                            target_package_name: target,
                            target_is_root_package: is_root,
                            dir,
                            manifest: root,
                        },
                    ),
                },
            },
        },
        SearchView::Scanning { candidate, members, next } => {
            if declares_target(probe, candidate.target_package_name) {
                ProgressView::Done(Outcome::Found(candidate))
            } else if next + 1 < members.len() {
                ProgressView::Ask(
                    SearchView::Scanning { candidate, members, next: (next + 1) as nat },
                )
            } else {
                ProgressView::Done(Outcome::NotFound)
            }
        },
    }
}

impl View for Search {
    type V = SearchView;

    closed spec fn view(&self) -> SearchView {
        match self.stage {
            Stage::Walking { dir, target } => SearchView::Walking { dir: dir@, target: text_of(target) },
            Stage::Scanning { candidate, members, next } => SearchView::Scanning {
                candidate: candidate@,
                members: texts(members@),
                next: next as nat,
            },
        }
    }
}

impl View for Progress {
    type V = ProgressView;

    open spec fn view(&self) -> ProgressView {
        match self {
            Progress::Ask(search) => ProgressView::Ask(search@),
            Progress::Found(workspace) => ProgressView::Done(Outcome::Found(workspace@)),
            Progress::NotFound => ProgressView::Done(Outcome::NotFound),
            Progress::Failed(error) => ProgressView::Done(Outcome::Failed(error@)),
        }
    }
}

impl Progress {
    /// Whether the search or workspace that this holds is well formed.
    pub open spec fn well_formed(self) -> bool {
        match self {
            Progress::Ask(search) => search.well_formed(),
            Progress::Found(workspace) => workspace.well_formed(),
            _ => true,
        }
    }
}

impl Search {
    /// Whether the search is in a state that a search can reach.
    pub closed spec fn well_formed(self) -> bool {
        &&& self@.well_formed()
        &&& self.stage matches Stage::Scanning { candidate, members, next } ==> candidate.well_formed()
            && members@.len() == texts(members@).len()
    }

    pub(crate) fn walking(dir: DirPath, target: Option<String>) -> (search: Search)
        ensures
            search.well_formed(),
            search@ == start_of(dir@, text_of(target)),
    {
        Search { stage: Stage::Walking { dir, target } }
    }

    /// The manifest that the search needs next.
    pub fn lookup(&self) -> (lookup: Lookup)
        requires
            self.well_formed(),
        ensures
            lookup@ == self@.lookup(),
    {
        match &self.stage {
            Stage::Walking { dir, .. } => Lookup::Manifest { dir: dir.duplicate() },
            Stage::Scanning { candidate, members, next } => Lookup::MemberManifest {
                dir: candidate.manifest_dir().duplicate(),
                member: members[*next].clone(),
            },
        }
    }

    /// Takes what was found where [`Search::lookup`] pointed, and decides how
    /// the search goes on.
    pub fn step(self, probe: Probe) -> (progress: Progress)
        requires
            self.well_formed(),
        ensures
            progress.well_formed(),
            progress@ == step_of(self@, probe@),
    {
        match self.stage {
            Stage::Walking { dir, target } => match probe {
                Probe::Missing => climb(dir, target),
                Probe::Unreadable => Progress::Failed(LocateError::Unreadable),
                Probe::Content(text) => match ManifestDocument::parse(text.as_str()) {
                    Err(error) => Progress::Failed(LocateError::Malformed(error)),
                    Ok(manifest) => match turn(target, manifest.declared()) {
                        Turn::Pass { target } => climb(dir, target),
                        Turn::Ambiguous => Progress::Failed(LocateError::AmbiguousTarget),
                        Turn::Workspace { target, is_root } => scan(
                            Workspace::assemble(target, is_root, dir, manifest),
                        ),
                    },
                },
            },
            Stage::Scanning { candidate, members, next } => {
                assert(next < members.len());
                if candidate.member_declares_target(&probe) {
                    Progress::Found(candidate)
                } else if next + 1 < members.len() {
                    Progress::Ask(Search { stage: Stage::Scanning { candidate, members, next: next + 1 } })
                } else {
                    Progress::NotFound
                }
            },
        }
    }
}

fn climb(dir: DirPath, target: Option<String>) -> (progress: Progress)
    ensures
        progress.well_formed(),
        progress@ == climb_of(dir@, text_of(target)),
{
    match dir.parent() {
        Some(up) => Progress::Ask(Search::walking(up, target)),
        None => Progress::NotFound,
    }
}

fn scan(candidate: Workspace) -> (progress: Progress)
    requires
        candidate.well_formed(),
    ensures
        progress.well_formed(),
        progress@ == scan_of(candidate@),
{
    if candidate.target_is_root_package() {
        return Progress::Found(candidate);
    }
    let members = candidate.members();
    if members.len() == 0 {
        assert(texts(members@).len() == 0);
        Progress::NotFound
    } else {
        assert(texts(members@).len() == members@.len());
        Progress::Ask(Search { stage: Stage::Scanning { candidate, members, next: 0 } })
    }
}

} // verus!
