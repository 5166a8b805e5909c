//! Directory paths as sequences of components.

use crate::strings::{clone_strings, texts};
use vstd::prelude::*;

verus! {

/// A directory, written as the place it is anchored at and the components
/// that lead down from there.
///
/// The anchor is the root or drive prefix of an absolute path and empty for a
/// relative one. Two paths are the same directory when anchor and components
/// agree.
#[derive(Debug)]
pub struct DirPath {
    pub anchor: String,
    pub segments: Vec<String>,
}

/// The mathematical value of a [`DirPath`].
pub struct DirPathView {
    pub anchor: Seq<char>,
    pub segments: Seq<Seq<char>>,
}

impl DirPathView {
    /// The directory `levels` steps up from this one.
    pub open spec fn ancestor(self, levels: int) -> DirPathView
        recommends
            0 <= levels <= self.segments.len(),
    {
        DirPathView { anchor: self.anchor, segments: self.segments.take(self.segments.len() - levels) }
    }

    /// Whether this directory is `other` or lies below it.
    pub open spec fn is_within(self, other: DirPathView) -> bool {
        &&& self.anchor == other.anchor
        &&& other.segments.len() <= self.segments.len()
        &&& self.segments.take(other.segments.len() as int) == other.segments
    }
}

impl View for DirPath {
    type V = DirPathView;

    open spec fn view(&self) -> DirPathView {
        DirPathView { anchor: self.anchor@, segments: texts(self.segments@) }
    }
}

impl DirPath {
    /// A copy of this path.
    pub fn duplicate(&self) -> (copy: DirPath)
        ensures
            copy@ == self@,
    {
        DirPath { anchor: self.anchor.clone(), segments: clone_strings(&self.segments) }
    }

    /// Whether both paths name the same directory.
    pub fn same_as(&self, other: &DirPath) -> (same: bool)
        ensures
            same == (self@ == other@),
    {
        if self.anchor != other.anchor || self.segments.len() != other.segments.len() {
            assert(self@.segments.len() == self.segments.len());
            assert(other@.segments.len() == other.segments.len());
            return false;
        }
        let mut i: usize = 0;
        while i < self.segments.len()
            invariant
                i <= self.segments.len(),
                self.segments.len() == other.segments.len(),
                forall|j: int| 0 <= j < i ==> self.segments@[j]@ == other.segments@[j]@,
            decreases self.segments.len() - i,
        {
            if self.segments[i] != other.segments[i] {
                assert(self@.segments[i as int] == self.segments@[i as int]@);
                assert(other@.segments[i as int] == other.segments@[i as int]@);
                return false;
            }
            i += 1;
        }
        assert(self@.segments =~= other@.segments);
        true
    }

    /// The directory one step up, if there is one.
    pub fn parent(&self) -> (up: Option<DirPath>)
        ensures
            self@.segments.len() == 0 ==> up is None,
            self@.segments.len() > 0 ==> up is Some && up->0@ == self@.ancestor(1),
    {
        if self.segments.len() == 0 {
            assert(self@.segments.len() == self.segments.len());
            return None;
        }
        let mut segments: Vec<String> = Vec::new();
        let mut i: usize = 0;
        while i + 1 < self.segments.len()
            invariant
                i + 1 <= self.segments.len(),
                segments.len() == i,
                forall|j: int| 0 <= j < i ==> segments@[j]@ == self.segments@[j]@,
            decreases self.segments.len() - i,
        {
            segments.push(self.segments[i].clone());
            i += 1;
        }
        let up = DirPath { anchor: self.anchor.clone(), segments };
        assert(up@.segments =~= self@.ancestor(1).segments);
        Some(up)
    }
}

/// A directory lies within itself, and nothing leads from it down to
/// itself: its path relative to itself is empty.
pub proof fn lemma_relative_to_itself(root: DirPathView)
    ensures
        root.is_within(root),
        root.segments.skip(root.segments.len() as int) == Seq::<Seq<char>>::empty(),
{
    assert(root.segments.take(root.segments.len() as int) =~= root.segments);
    assert(root.segments.skip(root.segments.len() as int) =~= Seq::<Seq<char>>::empty());
}

/// What leads from `root` down to a directory within it, put behind `root`,
/// is that directory.
pub proof fn lemma_relative_joins(root: DirPathView, dir: DirPathView)
    requires
        dir.is_within(root),
    ensures
        root.segments + dir.segments.skip(root.segments.len() as int) == dir.segments,
{
    assert(root.segments + dir.segments.skip(root.segments.len() as int) =~= dir.segments);
}

/// The components that lead from `root` down to `dir`.
///
/// `dir` is walked upwards until `root` is met, and each component passed on
/// the way is put in front of those passed before. The result is empty where
/// `dir` is `root`, and `None` where the walk ends above `dir` without having
/// met `root`.
pub fn relative_to(root: &DirPath, dir: &DirPath) -> (relative: Option<Vec<String>>)
    ensures
        dir@.is_within(root@) ==> relative is Some && texts(relative->0@) == dir@.segments.skip(
            root@.segments.len() as int,
        ),
        !dir@.is_within(root@) ==> relative is None,
{
    let mut current = dir.duplicate();
    let mut relative: Vec<String> = Vec::new();
    assert(dir@.segments.take(dir@.segments.len() as int) =~= dir@.segments);
    assert(texts(relative@) =~= dir@.segments.skip(dir@.segments.len() as int));
    loop
        invariant
            current@.segments.len() == current.segments.len(),
            current@.anchor == dir@.anchor,
            current@.segments.len() <= dir@.segments.len(),
            current@.segments == dir@.segments.take(current@.segments.len() as int),
            texts(relative@) == dir@.segments.skip(current@.segments.len() as int),
            forall|k: int|
                current@.segments.len() < k <= dir@.segments.len() ==> #[trigger] dir@.segments.take(k)
                    != root@.segments || dir@.anchor != root@.anchor,
        decreases current@.segments.len(),
    {
        if current.same_as(root) {
            return Some(relative);
        }
        let ghost depth = current@.segments.len() as int;
        match current.parent() {
            Some(up) => {
                let ghost before = relative@;
                relative.insert(0, current.segments[current.segments.len() - 1].clone());
                proof {
                    assert(up@.segments =~= dir@.segments.take(depth - 1));
                    assert(texts(relative@) =~= dir@.segments.skip(depth - 1)) by {
                        assert(current@.segments[depth - 1] == dir@.segments[depth - 1]);
                        assert(texts(relative@) =~= seq![dir@.segments[depth - 1]] + texts(before));
                    }
                }
                current = up;
            },
            None => {
                proof {
                    if dir@.is_within(root@) {
                        let k = root@.segments.len() as int;
                        if k == 0 {
                            assert(current@.segments =~= root@.segments);
                        } else {
                            assert(dir@.segments.take(k) == root@.segments);
                        }
                    }
                }
                return None;
            },
        }
    }
}

} // verus!
