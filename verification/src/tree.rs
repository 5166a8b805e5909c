//! Directory trees, and what a search finds in them.
//!
//! A tree says for each manifest file that a search may look for what is
//! found there. The search is stated twice: as the sequence of steps that
//! [`crate::locate::Search`] takes when its questions are answered from the
//! tree, and directly, by recursion over the directories from the start
//! upwards. The two agree.

use crate::locate::{
    declares_target, start_of, step_of, Failure, LookupView, Outcome, ProbeView, ProgressView,
    SearchView,
};
use crate::manifest::{declared_members, declared_package, declares_workspace};
use crate::path::DirPathView;
use crate::toml::parsed_manifest;
use crate::workspace::WorkspaceView;
use vstd::prelude::*;

verus! {

/// Whether the target package of `workspace` belongs to it in `tree`: it is
/// the workspace's own package, or the manifest of one of the members
/// declares a package of its name.
pub open spec fn is_member(workspace: WorkspaceView, tree: spec_fn(LookupView) -> ProbeView) -> bool {
    workspace.target_is_root_package || exists|i: int|
        0 <= i < declared_members(workspace.manifest).len() && declares_target(
            #[trigger] tree(member_lookup(workspace, i)),
            workspace.target_package_name,
        )
}

/// The lookup of the manifest of member `i` of `workspace`.
pub open spec fn member_lookup(workspace: WorkspaceView, i: int) -> LookupView {
    LookupView::MemberManifest {
        dir: workspace.dir,
        member: declared_members(workspace.manifest)[i],
    }
}

/// The root entries of the manifest of `dir` in `tree`, where it has one
/// that can be read and parsed.
pub open spec fn manifest_at(dir: DirPathView, tree: spec_fn(LookupView) -> ProbeView) -> Option<
    Map<Seq<char>, crate::toml::Toml>,
> {
    match tree(LookupView::Manifest { dir }) {
        ProbeView::Content(text) => parsed_manifest(text),
        _ => None,
    }
}

/// Whether the manifest of `dir` in `tree` can be read and parsed and
/// declares a workspace.
pub open spec fn workspace_at(dir: DirPathView, tree: spec_fn(LookupView) -> ProbeView) -> bool {
    manifest_at(dir, tree) matches Some(root) && declares_workspace(root)
}

/// Whether `dir` has no manifest in `tree`, or one that can be read and
/// parsed and declares no workspace.
pub open spec fn passed_at(dir: DirPathView, tree: spec_fn(LookupView) -> ProbeView) -> bool {
    match tree(LookupView::Manifest { dir }) {
        ProbeView::Missing => true,
        ProbeView::Unreadable => false,
        ProbeView::Content(text) => parsed_manifest(text) matches Some(root) && !declares_workspace(
            root,
        ),
    }
}

/// The outcome of the search that starts in `dir` of `tree`, with `target`
/// as the package to modify where one is known.
pub open spec fn locate(
    dir: DirPathView,
    target: Option<Seq<char>>,
    tree: spec_fn(LookupView) -> ProbeView,
) -> Outcome
    decreases dir.segments.len(),
{
    match tree(LookupView::Manifest { dir }) {
        ProbeView::Missing => if dir.segments.len() == 0 {
            Outcome::NotFound
        } else {
            locate(dir.ancestor(1), target, tree)
        },
        ProbeView::Unreadable => Outcome::Failed(Failure::Unreadable),
        ProbeView::Content(text) => match parsed_manifest(text) {
            None => Outcome::Failed(Failure::Malformed),
            Some(root) => {
                let known = if target is None {
                    declared_package(root)
                } else {
                    target
                };
                if declares_workspace(root) {
                    match known {
                        None => Outcome::Failed(Failure::AmbiguousTarget),
                        Some(name) => {
                            let workspace = WorkspaceView {
                                target_package_name: name,
                                target_is_root_package: target is None,
                                dir,
                                manifest: root,
                            };
                            if is_member(workspace, tree) {
                                Outcome::Found(workspace)
                            } else {
                                Outcome::NotFound
                            }
                        },
                    }
                } else if dir.segments.len() == 0 {
                    Outcome::NotFound
                } else {
                    locate(dir.ancestor(1), known, tree)
                }
            },
        },
    }
}

/// How far a search is from its end at most: a walk has the scan before it,
/// and is as long as the directory is deep; a scan is as long as members
/// are left.
pub open spec fn stage_rank(search: SearchView) -> nat {
    match search {
        SearchView::Walking { .. } => 1,
        SearchView::Scanning { .. } => 0,
    }
}

/// See [`stage_rank`].
pub open spec fn stage_left(search: SearchView) -> nat {
    match search {
        SearchView::Walking { dir, .. } => dir.segments.len(),
        SearchView::Scanning { members, next, .. } => if next < members.len() {
            (members.len() - next) as nat
        } else {
            0
        },
    }
}

/// The outcome of a search in state `search` whose lookups are answered from
/// `tree`.
pub open spec fn run(search: SearchView, tree: spec_fn(LookupView) -> ProbeView) -> Outcome
    decreases stage_rank(search), stage_left(search),
{
    match step_of(search, tree(search.lookup())) {
        ProgressView::Done(outcome) => outcome,
        ProgressView::Ask(next) => run(next, tree),
    }
}

/// Whether a search in state `search` whose lookups are answered from `tree`
/// makes the lookup `lookup`, now or later.
pub open spec fn asks(
    search: SearchView,
    tree: spec_fn(LookupView) -> ProbeView,
    lookup: LookupView,
) -> bool
    decreases stage_rank(search), stage_left(search),
{
    search.lookup() == lookup || match step_of(search, tree(search.lookup())) {
        ProgressView::Done(_) => false,
        ProgressView::Ask(next) => asks(next, tree, lookup),
    }
}

/// A directory is its own ancestor at no distance, and the ancestors of its
/// parent are its own, one step further up.
pub proof fn lemma_ancestors(dir: DirPathView, levels: int)
    requires
        0 <= levels < dir.segments.len(),
    ensures
        dir.ancestor(0) == dir,
        dir.ancestor(1).ancestor(levels) == dir.ancestor(levels + 1),
        dir.ancestor(1).segments.len() == dir.segments.len() - 1,
{
    assert(dir.ancestor(0).segments =~= dir.segments);
    assert(dir.ancestor(1).ancestor(levels).segments =~= dir.ancestor(levels + 1).segments);
}

/// A scan that starts at member `next` finds the workspace exactly when the
/// manifest of that member or of a later one declares the target package.
pub proof fn lemma_scan(
    candidate: WorkspaceView,
    next: nat,
    tree: spec_fn(LookupView) -> ProbeView,
)
    requires
        !candidate.target_is_root_package,
        next < declared_members(candidate.manifest).len(),
    ensures
        run(
            SearchView::Scanning { candidate, members: declared_members(candidate.manifest), next },
            tree,
        ) == if exists|i: int|
            next <= i < declared_members(candidate.manifest).len() && declares_target(
                #[trigger] tree(member_lookup(candidate, i)),
                candidate.target_package_name,
            ) {
            Outcome::Found(candidate)
        } else {
            Outcome::NotFound
        },
    decreases declared_members(candidate.manifest).len() - next,
{
    let members = declared_members(candidate.manifest);
    let search = SearchView::Scanning { candidate, members, next };
    let target = candidate.target_package_name;
    assert(search.lookup() == member_lookup(candidate, next as int));
    if declares_target(tree(member_lookup(candidate, next as int)), target) {
    } else if next + 1 < members.len() {
        lemma_scan(candidate, (next + 1) as nat, tree);
        assert forall|i: int|
            next <= i < members.len() && declares_target(
                #[trigger] tree(member_lookup(candidate, i)),
                target,
            ) implies next + 1 <= i by {}
    } else {
        assert forall|i: int| next <= i < members.len() implies !declares_target(
            #[trigger] tree(member_lookup(candidate, i)),
            target,
        ) by {
            assert(i == next);
        }
    }
}

/// Once a workspace is found, the search ends as membership decides: with
/// the workspace where the target package belongs to it, and with nothing
/// where it does not.
pub proof fn lemma_membership_decides(
    candidate: WorkspaceView,
    tree: spec_fn(LookupView) -> ProbeView,
)
    ensures
        match crate::locate::scan_of(candidate) {
            ProgressView::Done(outcome) => outcome,
            ProgressView::Ask(next) => run(next, tree),
        } == if is_member(candidate, tree) {
            Outcome::Found(candidate)
        } else {
            Outcome::NotFound
        },
{
    let members = declared_members(candidate.manifest);
    if !candidate.target_is_root_package && members.len() > 0 {
        lemma_scan(candidate, 0, tree);
    }
}

/// The steps of a search, answered from a tree, end as [`locate`] says.
pub proof fn lemma_run_is_locate(
    dir: DirPathView,
    target: Option<Seq<char>>,
    tree: spec_fn(LookupView) -> ProbeView,
)
    ensures
        run(start_of(dir, target), tree) == locate(dir, target, tree),
    decreases dir.segments.len(),
{
    let search = start_of(dir, target);
    assert(search.lookup() == LookupView::Manifest { dir });
    match tree(LookupView::Manifest { dir }) {
        ProbeView::Missing => {
            if dir.segments.len() > 0 {
                lemma_run_is_locate(dir.ancestor(1), target, tree);
            }
        },
        ProbeView::Unreadable => {},
        ProbeView::Content(text) => match parsed_manifest(text) {
            None => {},
            Some(root) => {
                let known = if target is None {
                    declared_package(root)
                } else {
                    target
                };
                if declares_workspace(root) {
                    if let Some(name) = known {
                        lemma_membership_decides(
                            WorkspaceView {
                                target_package_name: name,
                                target_is_root_package: target is None,
                                dir,
                                manifest: root,
                            },
                            tree,
                        );
                    }
                } else if dir.segments.len() > 0 {
                    lemma_run_is_locate(dir.ancestor(1), known, tree);
                }
            },
        },
    }
}

/// Where no directory from the start up to the top has a manifest that
/// declares a workspace, the search finds no workspace.
///
/// This holds of trees in which every manifest on that way can be read and
/// parsed; a manifest that cannot makes the search fail instead.
pub proof fn lemma_no_workspace_on_the_way(
    dir: DirPathView,
    target: Option<Seq<char>>,
    tree: spec_fn(LookupView) -> ProbeView,
)
    requires
        forall|levels: int|
            0 <= levels <= dir.segments.len() ==> passed_at(#[trigger] dir.ancestor(levels), tree),
    ensures
        locate(dir, target, tree) == Outcome::NotFound,
        run(start_of(dir, target), tree) == Outcome::NotFound,
    decreases dir.segments.len(),
{
    lemma_run_is_locate(dir, target, tree);
    assert(dir.ancestor(0).segments =~= dir.segments);
    assert(passed_at(dir.ancestor(0), tree));
    if dir.segments.len() > 0 {
        let up = dir.ancestor(1);
        assert forall|levels: int| 0 <= levels <= up.segments.len() implies passed_at(
            #[trigger] up.ancestor(levels),
            tree,
        ) by {
            lemma_ancestors(dir, levels);
            assert(passed_at(dir.ancestor(levels + 1), tree));
        }
        match tree(LookupView::Manifest { dir }) {
            ProbeView::Content(text) => {
                let known = if target is None {
                    declared_package(parsed_manifest(text)->0)
                } else {
                    target
                };
                lemma_no_workspace_on_the_way(up, known, tree);
            },
            _ => {
                lemma_no_workspace_on_the_way(up, target, tree);
            },
        }
    }
}

/// A scan looks for members' manifests only.
pub proof fn lemma_scan_asks_for_members(
    search: SearchView,
    tree: spec_fn(LookupView) -> ProbeView,
    lookup: LookupView,
)
    requires
        search is Scanning,
        lookup is Manifest,
    ensures
        !asks(search, tree, lookup),
    decreases stage_left(search),
{
    if let ProgressView::Ask(next) = step_of(search, tree(search.lookup())) {
        lemma_scan_asks_for_members(next, tree, lookup);
    }
}

/// Where a directory on the way up has a manifest that declares a workspace,
/// the search looks for no manifest further up: the nearest workspace ends
/// the walk.
///
/// `level` counts the steps from `dir` up to that directory, `above` those
/// to any directory beyond it.
pub proof fn lemma_nothing_read_above_workspace(
    dir: DirPathView,
    target: Option<Seq<char>>,
    tree: spec_fn(LookupView) -> ProbeView,
    level: int,
    above: int,
)
    requires
        0 <= level < above <= dir.segments.len(),
        workspace_at(dir.ancestor(level), tree),
    ensures
        !asks(start_of(dir, target), tree, LookupView::Manifest { dir: dir.ancestor(above) }),
    decreases level,
{
    let search = start_of(dir, target);
    let lookup = LookupView::Manifest { dir: dir.ancestor(above) };
    assert(dir.ancestor(above).segments.len() < dir.segments.len());
    assert(search.lookup() != lookup);
    lemma_ancestors(dir, 0);
    match step_of(search, tree(search.lookup())) {
        ProgressView::Done(_) => {},
        ProgressView::Ask(next) => {
            match next {
                SearchView::Scanning { .. } => {
                    lemma_scan_asks_for_members(next, tree, lookup);
                },
                SearchView::Walking { dir: up, target: known } => {
                    assert(level > 0);
                    assert(up == dir.ancestor(1));
                    lemma_ancestors(dir, level - 1);
                    lemma_ancestors(dir, above - 1);
                    lemma_nothing_read_above_workspace(up, known, tree, level - 1, above - 1);
                },
            }
        },
    }
}

/// The workspace's own package belongs to the workspace whatever its member
/// list and the members' manifests hold, and no member's manifest is looked
/// for to find that out.
pub proof fn lemma_own_package_is_member(
    workspace: WorkspaceView,
    tree: spec_fn(LookupView) -> ProbeView,
)
    requires
        workspace.target_is_root_package,
    ensures
        is_member(workspace, tree),
        crate::locate::scan_of(workspace) == ProgressView::Done(Outcome::Found(workspace)),
{
}

/// Where no package to modify was named and the nearest manifest upwards
/// declares both a package and a workspace, that workspace is found, with
/// its own package as the target, whatever its member list and the members'
/// manifests hold.
pub proof fn lemma_own_package_found(
    dir: DirPathView,
    tree: spec_fn(LookupView) -> ProbeView,
    root: Map<Seq<char>, crate::toml::Toml>,
    name: Seq<char>,
)
    requires
        manifest_at(dir, tree) == Some(root),
        declares_workspace(root),
        declared_package(root) == Some(name),
    ensures
        locate(dir, None, tree) == Outcome::Found(
            (WorkspaceView {
                target_package_name: name,
                target_is_root_package: true,
                dir,
                manifest: root,
            }),
        ),
        forall|lookup: LookupView|
            asks(start_of(dir, None), tree, lookup) ==> lookup == (LookupView::Manifest { dir }),
{
}

/// A package that is not the workspace's own belongs to the workspace
/// exactly when the manifest of one of the listed members declares a package
/// of its name. Where every member's manifest is missing, unreadable,
/// malformed or declares another name, it does not.
pub proof fn lemma_member_by_entry(workspace: WorkspaceView, tree: spec_fn(LookupView) -> ProbeView)
    requires
        !workspace.target_is_root_package,
    ensures
        is_member(workspace, tree) <==> exists|i: int|
            0 <= i < declared_members(workspace.manifest).len() && declares_target(
                #[trigger] tree(member_lookup(workspace, i)),
                workspace.target_package_name,
            ),
        (forall|i: int|
            0 <= i < declared_members(workspace.manifest).len() ==> !declares_target(
                #[trigger] tree(member_lookup(workspace, i)),
                workspace.target_package_name,
            )) ==> !is_member(workspace, tree),
        match crate::locate::scan_of(workspace) {
            ProgressView::Done(outcome) => outcome,
            ProgressView::Ask(next) => run(next, tree),
        } == if is_member(workspace, tree) {
            Outcome::Found(workspace)
        } else {
            Outcome::NotFound
        },
{
    lemma_membership_decides(workspace, tree);
}

} // verus!
