//! Relative paths between two locations of the file system.
//!
//! A path is held as text. What the text means is left to `std::path` of the
//! platform that the crate is built for: which paths are absolute, into which
//! components a path splits, and how components are put together again. The
//! walk over two component lists that yields the relative path is verified
//! here.
use crate::strings::text_of;
use vstd::prelude::*;

verus! {

/// One component of a path, in the shape the platform's parser gives it.
#[derive(Clone, Debug, PartialEq, Eq)]
pub enum PathComponent {
    /// A drive or share prefix, with its text.
    Prefix(String),
    /// The root directory.
    RootDir,
    /// The current directory, `.`.
    CurDir,
    /// The parent directory, `..`.
    ParentDir,
    /// An ordinary name, with its text.
    Normal(String),
}

/// The mathematical value of a [`PathComponent`].
pub enum Step {
    Prefix(Seq<char>),
    RootDir,
    CurDir,
    ParentDir,
    Normal(Seq<char>),
}

impl View for PathComponent {
    type V = Step;

    open spec fn view(&self) -> Step {
        match self {
            PathComponent::Prefix(text) => Step::Prefix(text@),
            PathComponent::RootDir => Step::RootDir,
            PathComponent::CurDir => Step::CurDir,
            PathComponent::ParentDir => Step::ParentDir,
            PathComponent::Normal(text) => Step::Normal(text@),
        }
    }
}

/// The steps that a list of components stands for.
pub open spec fn steps_of(components: Seq<PathComponent>) -> Seq<Step> {
    components.map_values(|c: PathComponent| c@)
}

/// What a step of the base becomes on the way back from it: a `.` stays
/// where it is, any other step is one step up.
pub open spec fn turned(step: Step) -> Step {
    if step == Step::CurDir {
        Step::CurDir
    } else {
        Step::ParentDir
    }
}

/// The way from `base` to `path` for two lists that differ at their front,
/// or of which one has ended.
///
/// Every step of `base` is turned, in order, and the steps of `path` follow.
/// A `..` in `base` cannot be undone: there is no way then.
pub open spec fn steps_from_difference(path: Seq<Step>, base: Seq<Step>) -> Option<Seq<Step>> {
    if base.contains(Step::ParentDir) {
        None
    } else {
        Some(base.map_values(|step: Step| turned(step)) + path)
    }
}

/// The steps that lead from `base` to `path`, or `None` where none are known.
///
/// The steps that both lists share at their front are passed over. What is
/// left of the two gives the way as [`steps_from_difference`] says.
pub open spec fn relative_steps(path: Seq<Step>, base: Seq<Step>) -> Option<Seq<Step>>
    decreases path.len(),
{
    if path.len() > 0 && base.len() > 0 && path[0] == base[0] {
        relative_steps(path.drop_first(), base.drop_first())
    } else {
        steps_from_difference(path, base)
    }
}

impl PathComponent {
    /// Whether two components are the same step.
    pub fn same(&self, other: &PathComponent) -> (equal: bool)
        ensures
            equal == (self@ == other@),
    {
        match (self, other) {
            (PathComponent::Prefix(a), PathComponent::Prefix(b)) => *a == *b,
            (PathComponent::RootDir, PathComponent::RootDir) => true,
            (PathComponent::CurDir, PathComponent::CurDir) => true,
            (PathComponent::ParentDir, PathComponent::ParentDir) => true,
            (PathComponent::Normal(a), PathComponent::Normal(b)) => *a == *b,
            _ => false,
        }
    }

    /// A second component for the same step.
    pub fn duplicate(&self) -> (copy: PathComponent)
        ensures
            copy@ == self@,
    {
        match self {
            PathComponent::Prefix(text) => PathComponent::Prefix(text.clone()),
            PathComponent::RootDir => PathComponent::RootDir,
            PathComponent::CurDir => PathComponent::CurDir,
            PathComponent::ParentDir => PathComponent::ParentDir,
            PathComponent::Normal(text) => PathComponent::Normal(text.clone()),
        }
    }
}

/// Whether two lists of components stand for the same steps.
pub fn same_components(left: &Vec<PathComponent>, right: &Vec<PathComponent>) -> (equal: bool)
    ensures
        equal == (steps_of(left@) == steps_of(right@)),
{
    if left.len() != right.len() {
        assert(steps_of(left@).len() != steps_of(right@).len());
        return false;
    }
    let mut at: usize = 0;
    while at < left.len()
        invariant
            at <= left.len(),
            left.len() == right.len(),
            forall|i: int| 0 <= i < at ==> steps_of(left@)[i] == steps_of(right@)[i],
        decreases left.len() - at,
    {
        if !left[at].same(&right[at]) {
            assert(steps_of(left@)[at as int] != steps_of(right@)[at as int]);
            return false;
        }
        at = at + 1;
    }
    assert(steps_of(left@) =~= steps_of(right@));
    true
}

/// One more component at the end is one more step at the end.
proof fn lemma_steps_push(components: Seq<PathComponent>, last: PathComponent)
    ensures
        steps_of(components.push(last)) == steps_of(components).push(last@),
{
    assert(steps_of(components.push(last)) =~= steps_of(components).push(last@));
}

/// Appends the components of `path` from index `from` on to `out`.
fn push_rest(out: &mut Vec<PathComponent>, path: &Vec<PathComponent>, from: usize)
    requires
        from <= path.len(),
    ensures
        steps_of(final(out)@) == steps_of(old(out)@) + steps_of(path@).skip(from as int),
{
    let mut next: usize = from;
    while next < path.len()
        invariant
            from <= next <= path.len(),
            steps_of(out@) == steps_of(old(out)@) + steps_of(path@).subrange(
                from as int,
                next as int,
            ),
        decreases path.len() - next,
    {
        let copy = path[next].duplicate();
        proof {
            lemma_steps_push(out@, copy);
        }
        out.push(copy);
        next = next + 1;
        assert(steps_of(out@) =~= steps_of(old(out)@) + steps_of(path@).subrange(
            from as int,
            next as int,
        ));
    }
    assert(steps_of(path@).subrange(from as int, next as int) =~= steps_of(path@).skip(
        from as int,
    ));
}

/// The components that lead from `base` to `path`.
///
/// There are none exactly where `base` holds a `..` behind the steps that it
/// shares with `path`.
pub fn relative_components(path: &Vec<PathComponent>, base: &Vec<PathComponent>) -> (relative:
    Option<Vec<PathComponent>>)
    ensures
        match relative {
            Some(components) => relative_steps(steps_of(path@), steps_of(base@)) == Some(
                steps_of(components@),
            ),
            None => relative_steps(steps_of(path@), steps_of(base@)) is None,
        },
{
    let ghost path_steps = steps_of(path@);
    let ghost base_steps = steps_of(base@);
    let mut shared: usize = 0;
    assert(path_steps.skip(0) =~= path_steps);
    assert(base_steps.skip(0) =~= base_steps);
    while shared < path.len() && shared < base.len()
        invariant
            shared <= path.len(),
            shared <= base.len(),
            path_steps == steps_of(path@),
            base_steps == steps_of(base@),
            relative_steps(path_steps, base_steps) == relative_steps(
                path_steps.skip(shared as int),
                base_steps.skip(shared as int),
            ),
        ensures
            relative_steps(path_steps, base_steps) == steps_from_difference(
                path_steps.skip(shared as int),
                base_steps.skip(shared as int),
            ),
        decreases path.len() - shared,
    {
        proof {
            assert(path_steps.skip(shared as int)[0] == path[shared as int]@);
            assert(base_steps.skip(shared as int)[0] == base[shared as int]@);
            assert(path_steps.skip(shared as int).drop_first() =~= path_steps.skip(shared + 1));
            assert(base_steps.skip(shared as int).drop_first() =~= base_steps.skip(shared + 1));
        }
        if !path[shared].same(&base[shared]) {
            break;
        }
        shared = shared + 1;
    }
    let ghost rest = base_steps.skip(shared as int);
    let mut out: Vec<PathComponent> = Vec::new();
    let mut at: usize = shared;
    assert(steps_of(out@) =~= rest.take(0).map_values(|step: Step| turned(step)));
    while at < base.len()
        invariant
            shared <= at <= base.len(),
            path_steps == steps_of(path@),
            base_steps == steps_of(base@),
            rest == base_steps.skip(shared as int),
            relative_steps(path_steps, base_steps) == steps_from_difference(
                path_steps.skip(shared as int),
                rest,
            ),
            !rest.take(at - shared).contains(Step::ParentDir),
            steps_of(out@) == rest.take(at - shared).map_values(|step: Step| turned(step)),
        decreases base.len() - at,
    {
        let ghost seen = rest.take(at - shared);
        let ghost next = rest.take(at - shared + 1);
        assert(rest[at - shared] == base[at as int]@);
        assert(next =~= seen.push(rest[at - shared]));
        let back = match &base[at] {
            PathComponent::ParentDir => {
                assert(rest.contains(Step::ParentDir));
                return None;
            },
            PathComponent::CurDir => PathComponent::CurDir,
            _ => PathComponent::ParentDir,
        };
        assert(back@ == turned(rest[at - shared]));
        proof {
            lemma_steps_push(out@, back);
            assert forall|i: int| 0 <= i < next.len() implies next[i] != Step::ParentDir by {
                if i < seen.len() {
                    assert(seen.contains(seen[i]));
                }
            }
        }
        out.push(back);
        at = at + 1;
        assert(steps_of(out@) =~= next.map_values(|step: Step| turned(step)));
    }
    assert(rest.take(at - shared) =~= rest);
    push_rest(&mut out, path, shared);
    Some(out)
}

/// Whether the platform takes the path `path` as absolute: the result of
/// `std::path::Path::is_absolute`.
pub uninterp spec fn path_is_absolute(path: Seq<char>) -> bool;

/// The components into which the platform splits the path `path`: what
/// `std::path::Path::components` yields, in order.
pub uninterp spec fn path_components(path: Seq<char>) -> Seq<Step>;

/// The text of the path that the platform builds from `steps`: the `PathBuf`
/// collected from them, one after the other.
pub uninterp spec fn path_from_steps(steps: Seq<Step>) -> Seq<char>;

/// The text of the path that the platform gets when it adjoins `piece` to
/// the path `base`: the result of `std::path::Path::join`.
pub uninterp spec fn path_joined(base: Seq<char>, piece: Seq<char>) -> Seq<char>;

/// Calls `std::path::Path::join` on the path with the text `base` and hands
/// out the text of the result. The contract gives that text the name
/// [`path_joined`]; it says nothing of how two paths are adjoined.
#[verifier::external_body]
pub(crate) fn join_paths(base: &str, piece: &str) -> (joined: String)
    ensures
        joined@ == path_joined(base@, piece@),
{
    std::path::Path::new(base).join(piece).to_string_lossy().into_owned()
}

/// The text of the path without its last component, as the platform sees
/// it: the result of `std::path::Path::parent`, `None` where the path has
/// no parent.
pub uninterp spec fn path_parent(path: Seq<char>) -> Option<Seq<char>>;

/// Calls `std::path::Path::parent` on the path with the text `path` and
/// hands out the text of the result. The contract gives it the name
/// [`path_parent`]; it says nothing of which paths have a parent.
#[verifier::external_body]
pub(crate) fn parent_of(path: &str) -> (parent: Option<String>)
    ensures
        text_of(parent) == path_parent(path@),
{
    std::path::Path::new(path).parent().map(|p| p.to_string_lossy().into_owned())
}

/// Calls `std::path::Path::is_absolute` on the path with the text `path`.
/// The contract gives the answer the name [`path_is_absolute`]; it says
/// nothing of which paths are absolute.
#[verifier::external_body]
pub(crate) fn is_absolute(path: &str) -> (absolute: bool)
    ensures
        absolute == path_is_absolute(path@),
{
    std::path::Path::new(path).is_absolute()
}

/// Calls `std::path::Path::components` on the path with the text `path` and
/// hands out each component as a [`PathComponent`], variant for variant. The
/// contract gives the list the name [`path_components`]; it says nothing of
/// how a path is split.
#[verifier::external_body]
pub(crate) fn split_components(path: &str) -> (components: Vec<PathComponent>)
    ensures
        steps_of(components@) == path_components(path@),
{
    std::path::Path::new(path).components().map(|c| match c {
        std::path::Component::Prefix(p) => PathComponent::Prefix(
            p.as_os_str().to_string_lossy().into_owned(),
        ),
        std::path::Component::RootDir => PathComponent::RootDir,
        std::path::Component::CurDir => PathComponent::CurDir,
        std::path::Component::ParentDir => PathComponent::ParentDir,
        std::path::Component::Normal(name) => PathComponent::Normal(
            name.to_string_lossy().into_owned(),
        ),
    }).collect()
}

/// Collects `components` into a `std::path::PathBuf`, as its `FromIterator`
/// does, and hands out the text of that path. The contract gives that text
/// the name [`path_from_steps`]; it says nothing of how components are
/// joined.
#[verifier::external_body]
pub(crate) fn join_components(components: &Vec<PathComponent>) -> (joined: String)
    ensures
        joined@ == path_from_steps(steps_of(components@)),
{
    let buf: std::path::PathBuf = components.iter().map(|c| match c {
        PathComponent::Prefix(text) => std::path::Path::new(text),
        PathComponent::RootDir => std::path::Component::RootDir.as_ref(),
        PathComponent::CurDir => std::path::Component::CurDir.as_ref(),
        PathComponent::ParentDir => std::path::Component::ParentDir.as_ref(),
        PathComponent::Normal(text) => std::path::Path::new(text),
    }).collect();
    buf.to_string_lossy().into_owned()
}

/// The path that leads from `base` to `path`, over the texts of both.
///
/// Where exactly one of the two is absolute there is nothing to walk: an
/// absolute `path` stands for itself, a relative one has no answer. Otherwise
/// the answer is the walk of [`relative_steps`] over the components of both,
/// built back into a path.
pub open spec fn relative_path(path: Seq<char>, base: Seq<char>) -> Option<Seq<char>> {
    if path_is_absolute(path) != path_is_absolute(base) {
        if path_is_absolute(path) {
            Some(path)
        } else {
            None
        }
    } else {
        match relative_steps(path_components(path), path_components(base)) {
            Some(steps) => Some(path_from_steps(steps)),
            None => None,
        }
    }
}

/// Where exactly one of two paths is absolute, their components do not
/// matter: an absolute path stands for itself, a relative one has no
/// relative path from an absolute base.
pub proof fn lemma_mixed_paths(path: Seq<char>, base: Seq<char>)
    requires
        path_is_absolute(path) != path_is_absolute(base),
    ensures
        path_is_absolute(path) ==> relative_path(path, base) == Some(path),
        !path_is_absolute(path) ==> relative_path(path, base) is None,
{
}

/// Two paths of the same kind with the same components have the empty walk
/// between them.
pub proof fn lemma_same_components_empty_walk(steps: Seq<Step>)
    ensures
        relative_steps(steps, steps) == Some(Seq::<Step>::empty()),
    decreases steps.len(),
{
    if steps.len() > 0 {
        lemma_same_components_empty_walk(steps.drop_first());
    } else {
        assert(steps.map_values(|step: Step| turned(step)) + steps =~= Seq::<Step>::empty());
    }
}

/// A `.` in the base behind the shared steps is kept in the result, at
/// its place, and the way never leads up through it: the result has one
/// step for each step left of the base, followed by what is left of the
/// path.
pub proof fn lemma_way_keeps_current_directory(path: Seq<Step>, base: Seq<Step>)
    requires
        steps_from_difference(path, base) is Some,
    ensures
        steps_from_difference(path, base)->0.len() == base.len() + path.len(),
        forall|i: int|
            0 <= i < base.len() ==> steps_from_difference(path, base)->0[i] == (if base[i]
                == Step::CurDir {
                Step::CurDir
            } else {
                Step::ParentDir
            }),
        forall|i: int|
            0 <= i < path.len() ==> steps_from_difference(path, base)->0[base.len() + i]
                == path[i],
{
}

/// The relative path from `base` to `path`, if there is one.
pub fn path_relative_from(path: &str, base: &str) -> (relative: Option<String>)
    ensures
        text_of(relative) == relative_path(path@, base@),
{
    let path_absolute = is_absolute(path);
    if path_absolute != is_absolute(base) {
        if path_absolute {
            Some(path.to_owned())
        } else {
            None
        }
    } else {
        let path_parts = split_components(path);
        let base_parts = split_components(base);
        match relative_components(&path_parts, &base_parts) {
            Some(parts) => Some(join_components(&parts)),
            None => None,
        }
    }
}

} // verus!
