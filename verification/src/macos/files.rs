//! Paths, bundles and configured lists: laws.

use vstd::prelude::*;
use vstd::string::*;

use crate::macos::resources;
use crate::macos::resources::{CandidateState, ResourceError, ResourcePath, RootState};
use crate::macos::setup;
use crate::macos::vk;
use crate::text;

verus! {

// ---- Paths ----

/// A name that can be a component of a path.
pub open spec fn is_name(s: Seq<char>) -> bool {
    s.len() > 0 && !s.contains('/') && s != "."@
}

proof fn lemma_components_prefix(a: Seq<Seq<char>>, b: Seq<Seq<char>>, n: int)
    requires
        n <= a.len(),
        n <= b.len(),
        forall|i: int| 0 <= i < n ==> a[i] == b[i],
    ensures
        resources::components(a, n) == resources::components(b, n),
    decreases n,
{
    if n > 0 {
        lemma_components_prefix(a, b, n - 1);
    }
}

/// A name behind a slash is the last component of a path.
pub proof fn law_name_is_the_last_component(path: Seq<char>, name: Seq<char>)
    requires
        is_name(name),
    ensures
        resources::path_components(path + seq!['/'] + name) == resources::path_components(
            path,
        ).push(name),
        path.len() > 0 ==> resources::is_absolute_path(path + seq!['/'] + name)
            == resources::is_absolute_path(path),
{
    text::law_split_is_of_the_two_sides(path, name, '/');
    text::law_split_is_of_the_two_sides(name, path, '/');
    let before = text::split_on(path, '/');
    let all = text::split_on(path + seq!['/'] + name, '/');
    lemma_split_is_some(path);
    assert(all.len() == before.len() + 1);
    assert(all[before.len() as int] == name);
    lemma_components_prefix(all, before, before.len() as int);
    if path.len() > 0 {
        assert((path + seq!['/'] + name)[0] == path[0]);
    }
}

proof fn lemma_split_is_some(s: Seq<char>)
    ensures
        text::split_on(s, '/').len() >= 1,
    decreases s.len(),
{
    if s.len() > 0 {
        lemma_split_is_some(s.drop_last());
    }
}

/// Doubled slashes and a dot inside a path are no components.
pub proof fn law_empty_segments_do_not_count(path: Seq<char>)
    ensures
        resources::path_components(path + seq!['/'] + Seq::empty()) == resources::path_components(
            path,
        ),
        resources::path_components(path + seq!['/'] + "."@) == resources::path_components(path),
{
    reveal_strlit(".");
    lemma_segment_without_component(path, Seq::empty());
    lemma_segment_without_component(path, "."@);
}

proof fn lemma_segment_without_component(path: Seq<char>, segment: Seq<char>)
    requires
        segment.len() == 0 || segment == "."@,
    ensures
        resources::path_components(path + seq!['/'] + segment) == resources::path_components(path),
{
    reveal_strlit(".");
    assert(!segment.contains('/'));
    text::law_split_is_of_the_two_sides(path, segment, '/');
    text::law_split_is_of_the_two_sides(segment, path, '/');
    let before = text::split_on(path, '/');
    let all = text::split_on(path + seq!['/'] + segment, '/');
    lemma_split_is_some(path);
    assert(all.len() == before.len() + 1);
    assert(all[before.len() as int] == segment);
    lemma_components_prefix(all, before, before.len() as int);
}

/// A path stays inside where it is relative and takes no step up: a further name keeps it there, a step
/// up never does, and a path from the root never was.
pub proof fn law_steps_up_lead_outside(path: Seq<char>, name: Seq<char>)
    requires
        is_name(name),
        path.len() > 0,
    ensures
        name != ".."@ ==> resources::stays_inside(path + seq!['/'] + name)
            == resources::stays_inside(path),
        !resources::stays_inside(path + seq!['/'] + ".."@),
        !resources::stays_inside(seq!['/'] + path),
{
    reveal_strlit("..");
    reveal_strlit(".");
    law_name_is_the_last_component(path, name);
    let parts = resources::path_components(path);
    let longer = parts.push(name);
    if parts.contains(".."@) {
        let i = choose|i: int| 0 <= i < parts.len() && parts[i] == ".."@;
        assert(longer[i] == ".."@);
    }
    if longer.contains(".."@) && name != ".."@ {
        let i = choose|i: int| 0 <= i < longer.len() && longer[i] == ".."@;
        assert(parts[i] == ".."@);
    }
    assert(".."@.len() == 2 && "."@.len() == 1);
    assert(is_name(".."@));
    law_name_is_the_last_component(path, ".."@);
    let up = parts.push(".."@);
    assert(up[up.len() - 1] == ".."@);
    assert((seq!['/'] + path)[0] == '/');
}

// ---- The bundle ----

/// A name with `.app` at its end, in whatever case, is that of a bundle, unless it is nothing else.
pub proof fn law_bundles_end_in_app(stem: Seq<char>, ending: Seq<char>)
    requires
        text::same_ignoring_ascii_case(ending, ".app"@),
    ensures
        resources::has_app_extension(stem + ending) == (stem.len() > 0),
{
    reveal_strlit(".app");
    assert(text::ascii_lower_seq(ending).len() == ending.len());
    assert(text::ascii_lower_seq(".app"@).len() == 4);
    let name = stem + ending;
    assert(name.subrange(name.len() - 4, name.len() as int) =~= ending);
}

/// The path is written the way it is put together again.
pub open spec fn is_plain(path: Seq<char>) -> bool {
    &&& resources::path_components(path).len() > 0
    &&& resources::rebuilt(resources::is_absolute_path(path), resources::path_components(path))
        == path
}

proof fn lemma_plain_name(path: Seq<char>, name: Seq<char>)
    requires
        is_plain(path),
        is_name(name),
        path.len() > 0,
    ensures
        is_plain(path + seq!['/'] + name),
        resources::path_components(path + seq!['/'] + name) == resources::path_components(
            path,
        ).push(name),
        resources::is_absolute_path(path + seq!['/'] + name) == resources::is_absolute_path(path),
{
    reveal_strlit("/");
    law_name_is_the_last_component(path, name);
    let parts = resources::path_components(path);
    assert(parts.push(name).drop_last() =~= parts);
    assert("/"@ =~= seq!['/']);
}

/// The resources of a bundle are beside the directory of its executable: for an executable in
/// `<dir>/<name>.app/Contents/MacOS` they are `<dir>/<name>.app/Contents/Resources`.
pub proof fn law_resources_are_beside_the_executable(
    dir: Seq<char>,
    name: Seq<char>,
    exe: Seq<char>,
)
    requires
        is_plain(dir),
        dir.len() > 0,
        is_name(name),
        resources::has_app_extension(name),
        is_name(exe),
    ensures
        resources::resources_dir(
            dir + seq!['/'] + name + seq!['/'] + "Contents"@ + seq!['/'] + "MacOS"@ + seq!['/']
                + exe,
        ) == Some(dir + seq!['/'] + name + seq!['/'] + "Contents"@ + "/Resources"@),
{
    reveal_strlit("Contents");
    reveal_strlit("MacOS");
    reveal_strlit(".");
    assert("Contents"@.len() == 8 && "MacOS"@.len() == 5 && "."@.len() == 1);
    let bundle = dir + seq!['/'] + name;
    let contents = bundle + seq!['/'] + "Contents"@;
    let macos = contents + seq!['/'] + "MacOS"@;
    lemma_plain_name(dir, name);
    lemma_plain_name(bundle, "Contents"@);
    lemma_plain_name(contents, "MacOS"@);
    lemma_plain_name(macos, exe);
    let parts = resources::path_components(macos + seq!['/'] + exe);
    let n = parts.len() as int;
    assert(parts[n - 4] == name);
    assert(parts[n - 3] == "Contents"@);
    assert(parts[n - 2] == "MacOS"@);
    assert(parts.subrange(0, n - 2) =~= resources::path_components(contents));
}

/// An executable elsewhere lies in no bundle.
pub proof fn law_other_executables_lie_in_no_bundle(exe: Seq<char>)
    ensures
        ({
            let parts = resources::path_components(exe);
            let n = parts.len() as int;
            &&& n < 4 ==> resources::resources_dir(exe) is None
            &&& n >= 4 && !text::same_ignoring_ascii_case(parts[n - 2], "MacOS"@)
                ==> resources::resources_dir(exe) is None
            &&& n >= 4 && !text::same_ignoring_ascii_case(parts[n - 3], "Contents"@)
                ==> resources::resources_dir(exe) is None
            &&& n >= 4 && !resources::has_app_extension(parts[n - 4]) ==> resources::resources_dir(
                exe,
            ) is None
        }),
{
}

/// A file that really lies under the resources is used by its real path, and a missing one whose
/// directory does is left to the caller's defaults. Everything else is refused, for the first reason
/// that there is.
pub proof fn law_each_refusal_has_its_reason(
    path: Seq<char>,
    dir: Vec<String>,
    found: Vec<String>,
    root: RootState,
    candidate: CandidateState,
)
    ensures
        !resources::stays_inside(path) ==> resources::bundled(path, root, candidate) == Err::<
            ResourcePath,
            ResourceError,
        >(ResourceError::NotRelative),
        resources::stays_inside(path) && root is Unreadable ==> resources::bundled(
            path,
            root,
            candidate,
        ) == Err::<ResourcePath, ResourceError>(ResourceError::RootUnreadable),
        resources::stays_inside(path) && root is NotRealDirectory ==> resources::bundled(
            path,
            root,
            candidate,
        ) == Err::<ResourcePath, ResourceError>(ResourceError::RootNotReal),
        resources::stays_inside(path) ==> ({
            let root = RootState::Directory(dir);
            let missing = |link: bool, parent: Option<Vec<String>>|
                resources::bundled(path, root, CandidateState::Missing { link, parent });
            &&& resources::bundled(path, root, CandidateState::Real(found)) == (
            if resources::under(found@, dir@) {
                Ok::<ResourcePath, ResourceError>(ResourcePath::Real)
            } else {
                Err(ResourceError::Escapes)
            })
            &&& resources::bundled(path, root, CandidateState::Unreadable) == Err::<
                ResourcePath,
                ResourceError,
            >(ResourceError::Unreadable)
            &&& missing(true, Some(found)) == Err::<ResourcePath, ResourceError>(
                ResourceError::DanglingLink,
            )
            &&& missing(true, None) == Err::<ResourcePath, ResourceError>(
                ResourceError::DanglingLink,
            )
            &&& missing(false, None) == Err::<ResourcePath, ResourceError>(
                ResourceError::ParentUnreadable,
            )
            &&& missing(false, Some(found)) == (if resources::under(found@, dir@) {
                Ok::<ResourcePath, ResourceError>(ResourcePath::AsAsked)
            } else {
                Err(ResourceError::ParentEscapes)
            })
        }),
{
}

/// Lying under a directory is passed on from one to the next, and two that lie under each other are the
/// same.
pub proof fn law_under_is_an_order(a: Seq<String>, b: Seq<String>, c: Seq<String>)
    ensures
        resources::under(a, a),
        resources::under(a, b) && resources::under(b, c) ==> resources::under(a, c),
        resources::under(a, b) && resources::under(b, a) ==> resources::string_seq(a)
            == resources::string_seq(b),
        resources::under(a, b) ==> resources::string_seq(a).subrange(0, b.len() as int)
            == resources::string_seq(b),
{
    if resources::under(a, b) {
        assert(resources::string_seq(a).subrange(0, b.len() as int) =~= resources::string_seq(b)) by {
            assert forall|i: int| 0 <= i < b.len() implies (#[trigger] a[i])@ == b[i]@ by {}
        }
        if resources::under(b, a) {
            assert(resources::string_seq(a).subrange(0, b.len() as int) =~= resources::string_seq(
                a,
            ));
        }
        if resources::under(b, c) {
            assert forall|i: int| 0 <= i < c.len() implies (#[trigger] a[i])@ == c[i]@ by {
                assert(b[i]@ == c[i]@);
            }
        }
    }
}

// ---- Configured combinations ----

/// The combinations of a setting are those that can be parsed, one by one and in order.
pub proof fn law_combinations_are_parsed_in_order(
    a: Seq<Seq<char>>,
    b: Seq<Seq<char>>,
    key: Seq<char>,
)
    ensures
        setup::combos_of(a + b) == setup::combos_of(a) + setup::combos_of(b),
        setup::combos_of(seq![key]) == (match vk::combo_of(key) {
            Some(combo) => seq![combo],
            None => Seq::empty(),
        }),
    decreases b.len(),
{
    assert(seq![key].drop_last() =~= Seq::empty());
    assert(seq![key].last() == key);
    assert(setup::combos_of(Seq::empty()) =~= Seq::empty());
    assert(setup::combos_of(seq![key]) =~= (match vk::combo_of(key) {
        Some(combo) => seq![combo],
        None => Seq::empty(),
    }));
    if b.len() == 0 {
        assert(a + b =~= a);
        assert(setup::combos_of(a) + setup::combos_of(b) =~= setup::combos_of(a));
    } else {
        law_combinations_are_parsed_in_order(a, b.drop_last(), key);
        assert((a + b).drop_last() =~= a + b.drop_last());
        assert(setup::combos_of(a + b) =~= setup::combos_of(a) + setup::combos_of(b));
    }
}

} // verus!
