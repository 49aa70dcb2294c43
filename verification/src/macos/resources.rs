//! Where the program finds its files.
//!
//! A program that runs from an application bundle reads nothing from outside the bundle's
//! `Contents/Resources`: it holds the right to watch the keyboard, and a file next to it is not
//! covered by the bundle's signature.

use vstd::prelude::*;
use vstd::string::*;

use crate::text;

verus! {

// ---- Paths as segments ----

/// The component a segment stands for: empty segments and inner dots stand for none.
pub open spec fn is_component(segment: Seq<char>, first: bool) -> bool {
    segment.len() > 0 && (segment != "."@ || first)
}

/// The components of the first `n` segments.
pub open spec fn components(segments: Seq<Seq<char>>, n: int) -> Seq<Seq<char>>
    decreases n,
{
    if n <= 0 {
        Seq::empty()
    } else if is_component(segments[n - 1], n == 1) {
        components(segments, n - 1).push(segments[n - 1])
    } else {
        components(segments, n - 1)
    }
}

/// The components of a path, without the root.
pub open spec fn path_components(path: Seq<char>) -> Seq<Seq<char>> {
    components(text::split_on(path, '/'), text::split_on(path, '/').len() as int)
}

pub open spec fn is_absolute_path(path: Seq<char>) -> bool {
    path.len() > 0 && path[0] == '/'
}

pub open spec fn string_seq(v: Seq<String>) -> Seq<Seq<char>> {
    v.map_values(|s: String| s@)
}

fn components_of(path: &str) -> (r: Vec<String>)
    ensures
        string_seq(r@) == path_components(path@),
{
    let segments = text::split(path, '/');
    let ghost views = text::split_on(path@, '/');
    let mut out: Vec<String> = Vec::new();
    let mut i: usize = 0;
    assert(string_seq(out@) =~= components(views, 0));
    while i < segments.len()
        invariant
            i <= segments@.len(),
            views == segments@.map_values(|p: String| p@),
            string_seq(out@) == components(views, i as int),
        decreases segments@.len() - i,
    {
        assert(views[i as int] == segments@[i as int]@);
        let s = segments[i].as_str();
        if !s.is_empty() && (!text::same(s, ".") || i == 0) {
            let ghost before = string_seq(out@);
            out.push(s.to_owned());
            assert(string_seq(out@) =~= before.push(s@));
        }
        i += 1;
    }
    out
}

fn starts_with_slash(path: &str) -> (r: bool)
    ensures
        r == is_absolute_path(path@),
{
    let x = text::chars_of(path);
    x.len() > 0 && x[0] == '/'
}

// ---- The bundle ----

/// The file name has an extension, and it is `app` in whatever case: the part after the last dot
/// of a name that does not begin with that dot.
pub open spec fn has_app_extension(name: Seq<char>) -> bool {
    &&& name.len() > 4
    &&& text::same_ignoring_ascii_case(name.subrange(name.len() - 4, name.len() as int), ".app"@)
}

fn is_app_name(name: &str) -> (r: bool)
    ensures
        r == has_app_extension(name@),
{
    let n = name.unicode_len();
    proof {
        reveal_strlit(".app");
    }
    if n <= 4 {
        return false;
    }
    text::eq_ignore_ascii_case(name.substring_char(n - 4, n), ".app")
}

/// The path up to and with the component at `last`.
pub open spec fn rebuilt(absolute: bool, parts: Seq<Seq<char>>) -> Seq<char>
    decreases parts.len(),
{
    if parts.len() == 0 {
        if absolute {
            "/"@
        } else {
            Seq::empty()
        }
    } else if parts.len() == 1 && !absolute {
        parts[0]
    } else if parts.len() == 1 {
        "/"@ + parts[0]
    } else {
        rebuilt(absolute, parts.drop_last()) + "/"@ + parts.last()
    }
}

/// The executable lies in `<name>.app/Contents/MacOS`, compared without regard to case.
pub open spec fn in_bundle(parts: Seq<Seq<char>>) -> bool {
    &&& parts.len() >= 4
    &&& has_app_extension(parts[parts.len() - 4])
    &&& text::same_ignoring_ascii_case(parts[parts.len() - 3], "Contents"@)
    &&& text::same_ignoring_ascii_case(parts[parts.len() - 2], "MacOS"@)
}

/// The `Contents/Resources` directory of the bundle that the executable lies in.
pub open spec fn resources_dir(exe: Seq<char>) -> Option<Seq<char>> {
    let parts = path_components(exe);
    if in_bundle(parts) {
        Some(
            rebuilt(is_absolute_path(exe), parts.subrange(0, parts.len() - 2)) + "/Resources"@,
        )
    } else {
        None
    }
}

fn rebuild(absolute: bool, parts: &Vec<String>, n: usize) -> (r: String)
    requires
        n <= parts@.len(),
    ensures
        r@ == rebuilt(absolute, string_seq(parts@).subrange(0, n as int)),
{
    let mut out = String::new();
    if n == 0 {
        if absolute {
            out.append("/");
        }
        assert(out@ =~= rebuilt(absolute, string_seq(parts@).subrange(0, 0)));
        return out;
    }
    if absolute {
        out.append("/");
    }
    out.append(parts[0].as_str());
    assert(string_seq(parts@).subrange(0, 1)[0] == parts@[0]@);
    assert(out@ =~= rebuilt(absolute, string_seq(parts@).subrange(0, 1)));
    let mut i: usize = 1;
    while i < n
        invariant
            1 <= i <= n <= parts@.len(),
            out@ == rebuilt(absolute, string_seq(parts@).subrange(0, i as int)),
        decreases n - i,
    {
        let ghost so_far = string_seq(parts@).subrange(0, i as int);
        let ghost next = string_seq(parts@).subrange(0, i + 1);
        assert(next.drop_last() =~= so_far);
        assert(next.last() == parts@[i as int]@);
        out.append("/");
        out.append(parts[i].as_str());
        assert(out@ =~= rebuilt(absolute, next));
        i += 1;
    }
    out
}

/// The `Contents/Resources` directory of the bundle that the executable `exe` lies in, if it
/// lies in one. The structure of the path decides, not a part of its text.
#[must_use]
pub fn bundle_resources_dir(exe: &str) -> (r: Option<String>)
    ensures
        match r {
            Some(dir) => resources_dir(exe@) == Some(dir@),
            None => resources_dir(exe@) is None,
        },
{
    let parts = components_of(exe);
    let n = parts.len();
    assert(string_seq(parts@).len() == n);
    if n < 4 {
        return None;
    }
    assert(string_seq(parts@)[n - 4] == parts@[n - 4]@);
    assert(string_seq(parts@)[n - 3] == parts@[n - 3]@);
    assert(string_seq(parts@)[n - 2] == parts@[n - 2]@);
    if is_app_name(parts[n - 4].as_str()) && text::eq_ignore_ascii_case(
        parts[n - 3].as_str(),
        "Contents",
    ) && text::eq_ignore_ascii_case(parts[n - 2].as_str(), "MacOS") {
        let mut dir = rebuild(starts_with_slash(exe), &parts, n - 2);
        dir.append("/Resources");
        Some(dir)
    } else {
        None
    }
}

// ---- Files of the bundle ----

/// A relative path without a step up.
pub open spec fn stays_inside(path: Seq<char>) -> bool {
    &&& !is_absolute_path(path)
    &&& !path_components(path).contains(".."@)
}

#[must_use]
pub fn is_lexically_inside(path: &str) -> (r: bool)
    ensures
        r == stays_inside(path@),
{
    if starts_with_slash(path) {
        return false;
    }
    let parts = components_of(path);
    let mut i: usize = 0;
    while i < parts.len()
        invariant
            i <= parts@.len(),
            string_seq(parts@) == path_components(path@),
            forall|j: int| 0 <= j < i ==> string_seq(parts@)[j] != ".."@,
        decreases parts@.len() - i,
    {
        assert(string_seq(parts@)[i as int] == parts@[i as int]@);
        if text::same(parts[i].as_str(), "..") {
            return false;
        }
        i += 1;
    }
    true
}

/// What the file system says of the directory of the resources.
#[derive(Debug)]
pub enum RootState {
    /// Its metadata or its real path could not be read.
    Unreadable,
    /// It is a link, or no directory.
    NotRealDirectory,
    /// Its real path, by components.
    Directory(Vec<String>),
}

/// What the file system says of the file that is asked for.
#[derive(Debug)]
pub enum CandidateState {
    /// Its real path, by components.
    Real(Vec<String>),
    /// It does not exist. `link` where a link of that name does; `parent` is the real path of
    /// its directory, where that could be read.
    Missing { link: bool, parent: Option<Vec<String>> },
    /// Its real path could not be read for another reason.
    Unreadable,
}

/// Why a resource is refused.
#[derive(Debug, Clone, Copy, PartialEq, Eq, Structural)]
pub enum ResourceError {
    NotRelative,
    RootUnreadable,
    RootNotReal,
    Escapes,
    DanglingLink,
    ParentUnreadable,
    ParentEscapes,
    Unreadable,
}

/// Which path to use.
#[derive(Debug, Clone, Copy, PartialEq, Eq, Structural)]
pub enum ResourcePath {
    /// The real path.
    Real,
    /// The path as it was asked for: the file does not exist, and the caller falls back to its
    /// defaults.
    AsAsked,
}

/// `path` begins with all components of `root`.
pub open spec fn under(path: Seq<String>, root: Seq<String>) -> bool {
    &&& root.len() <= path.len()
    &&& forall|i: int| 0 <= i < root.len() ==> (#[trigger] path[i])@ == root[i]@
}

fn is_under(path: &Vec<String>, root: &Vec<String>) -> (r: bool)
    ensures
        r == under(path@, root@),
{
    if root.len() > path.len() {
        return false;
    }
    let mut i: usize = 0;
    while i < root.len()
        invariant
            i <= root@.len() <= path@.len(),
            forall|j: int| 0 <= j < i ==> (#[trigger] path@[j])@ == root@[j]@,
        decreases root@.len() - i,
    {
        if !text::same(path[i].as_str(), root[i].as_str()) {
            return false;
        }
        i += 1;
    }
    true
}

/// A file of the bundle is used only if it, or for a missing file its directory, really lies
/// under the resources. A link without a target is refused: somebody could supply the target
/// later.
pub open spec fn bundled(path: Seq<char>, root: RootState, candidate: CandidateState) -> Result<
    ResourcePath,
    ResourceError,
> {
    if !stays_inside(path) {
        Err(ResourceError::NotRelative)
    } else {
        match root {
            RootState::Unreadable => Err(ResourceError::RootUnreadable),
            RootState::NotRealDirectory => Err(ResourceError::RootNotReal),
            RootState::Directory(dir) => match candidate {
                CandidateState::Real(found) => if under(found@, dir@) {
                    Ok(ResourcePath::Real)
                } else {
                    Err(ResourceError::Escapes)
                },
                CandidateState::Missing { link, parent } => if link {
                    Err(ResourceError::DanglingLink)
                } else {
                    match parent {
                        None => Err(ResourceError::ParentUnreadable),
                        Some(p) => if under(p@, dir@) {
                            Ok(ResourcePath::AsAsked)
                        } else {
                            Err(ResourceError::ParentEscapes)
                        },
                    }
                },
                CandidateState::Unreadable => Err(ResourceError::Unreadable),
            },
        }
    }
}

/// Decides on a file of the bundle, given what the file system says.
pub fn resolve_bundled_resource(path: &str, root: &RootState, candidate: &CandidateState) -> (r:
    Result<ResourcePath, ResourceError>)
    ensures
        r == bundled(path@, *root, *candidate),
{
    if !is_lexically_inside(path) {
        return Err(ResourceError::NotRelative);
    }
    match root {
        RootState::Unreadable => Err(ResourceError::RootUnreadable),
        RootState::NotRealDirectory => Err(ResourceError::RootNotReal),
        RootState::Directory(dir) => match candidate {
            CandidateState::Real(found) => {
                if is_under(found, dir) {
                    Ok(ResourcePath::Real)
                } else {
                    Err(ResourceError::Escapes)
                }
            },
            CandidateState::Missing { link, parent } => {
                if *link {
                    return Err(ResourceError::DanglingLink);
                }
                match parent {
                    None => Err(ResourceError::ParentUnreadable),
                    Some(p) => {
                        if is_under(p, dir) {
                            Ok(ResourcePath::AsAsked)
                        } else {
                            Err(ResourceError::ParentEscapes)
                        }
                    },
                }
            },
            CandidateState::Unreadable => Err(ResourceError::Unreadable),
        },
    }
}

/// Nothing outside the bundle's resources is ever used.
pub proof fn law_bundle_is_not_left(path: Seq<char>, root: RootState, candidate: CandidateState)
    requires
        bundled(path, root, candidate) is Ok,
    ensures
        !is_absolute_path(path),
        !path_components(path).contains(".."@),
        root matches RootState::Directory(dir) && match candidate {
            CandidateState::Real(found) => under(found@, dir@),
            CandidateState::Missing { link, parent } => !link && parent is Some && under(
                parent->0@,
                dir@,
            ),
            CandidateState::Unreadable => false,
        },
{
}

/// Where a resource is looked for.
#[derive(Debug, Clone, Copy, PartialEq, Eq, Structural)]
pub enum ResourcePlace {
    /// In the resources of the bundle.
    Bundle,
    /// At its own absolute path.
    Absolute,
    /// Beside the executable.
    BesideExecutable,
    /// Nowhere: the executable's directory is not known, and the working directory is not
    /// trusted.
    Nowhere,
}

/// Where to look for `path`, given the executable's path as far as it is known.
#[must_use]
pub fn resource_place(path: &str, exe: Option<&str>) -> (r: ResourcePlace)
    ensures
        r == (match exe {
            Some(e) => if resources_dir(e@) is Some {
                ResourcePlace::Bundle
            } else if is_absolute_path(path@) {
                ResourcePlace::Absolute
            } else {
                ResourcePlace::BesideExecutable
            },
            None => if is_absolute_path(path@) {
                ResourcePlace::Absolute
            } else {
                ResourcePlace::Nowhere
            },
        }),
{
    if let Some(e) = exe {
        if bundle_resources_dir(e).is_some() {
            return ResourcePlace::Bundle;
        }
    }
    if starts_with_slash(path) {
        return ResourcePlace::Absolute;
    }
    if exe.is_some() {
        ResourcePlace::BesideExecutable
    } else {
        ResourcePlace::Nowhere
    }
}

} // verus!
