use awase::macos::resources::{
    bundle_resources_dir, is_lexically_inside, resolve_bundled_resource, resource_place,
    CandidateState, ResourceError, ResourcePath, ResourcePlace, RootState,
};

fn parts(path: &str) -> Vec<String> {
    path.split('/').filter(|s| !s.is_empty()).map(str::to_string).collect()
}

fn root() -> RootState {
    RootState::Directory(parts("/Applications/Awase.app/Contents/Resources"))
}

fn found(path: &str) -> CandidateState {
    CandidateState::Real(parts(path))
}

#[test]
fn bundle_detection_is_structural_and_case_insensitive() {
    let dir = |p: &str| bundle_resources_dir(p);
    assert_eq!(
        dir("/Applications/Awase.app/Contents/MacOS/awase"),
        Some("/Applications/Awase.app/Contents/Resources".to_string()),
    );
    assert_eq!(
        dir("/tmp/Awase.APP/CONTENTS/MACOS/awase"),
        Some("/tmp/Awase.APP/CONTENTS/Resources".to_string()),
    );
    assert_eq!(dir("/usr/local/bin/awase"), None);
    assert_eq!(dir("/tmp/Awase.app/MacOS/awase"), None);
    assert_eq!(dir("/tmp/NotBundle/Contents/MacOS/awase"), None);
}

#[test]
fn bundled_resource_accepts_existing_file_inside_resources() {
    assert_eq!(
        resolve_bundled_resource(
            "layout/nicola.yab",
            &root(),
            &found("/Applications/Awase.app/Contents/Resources/layout/nicola.yab"),
        ),
        Ok(ResourcePath::Real)
    );
}

#[test]
fn bundled_resource_rejects_dangling_symlink_as_the_final_component() {
    let candidate = CandidateState::Missing {
        link: true,
        parent: Some(parts("/Applications/Awase.app/Contents/Resources/layout")),
    };
    assert_eq!(
        resolve_bundled_resource("layout/default.yab", &root(), &candidate),
        Err(ResourceError::DanglingLink)
    );
}

#[test]
fn bundled_resource_rejects_absolute_path_and_parent_traversal() {
    let inside = found("/Applications/Awase.app/Contents/Resources/evil.yab");
    assert_eq!(
        resolve_bundled_resource("/tmp/evil.yab", &root(), &inside),
        Err(ResourceError::NotRelative)
    );
    assert_eq!(
        resolve_bundled_resource("layout/../../evil.yab", &root(), &inside),
        Err(ResourceError::NotRelative)
    );
}

#[test]
fn bundled_resource_rejects_outward_symlink() {
    assert_eq!(
        resolve_bundled_resource("layout/evil.yab", &root(), &found("/tmp/outside/evil.yab")),
        Err(ResourceError::Escapes)
    );
    let missing = CandidateState::Missing {
        link: false,
        parent: Some(parts("/tmp/outside")),
    };
    assert_eq!(
        resolve_bundled_resource("layout/not-created.yab", &root(), &missing),
        Err(ResourceError::ParentEscapes)
    );
}

#[test]
fn a_missing_file_inside_resources_is_handed_on() {
    let missing = CandidateState::Missing {
        link: false,
        parent: Some(parts("/Applications/Awase.app/Contents/Resources")),
    };
    assert_eq!(
        resolve_bundled_resource("config.toml", &root(), &missing),
        Ok(ResourcePath::AsAsked)
    );
}

#[test]
fn unreadable_places_are_refused() {
    let inside = found("/Applications/Awase.app/Contents/Resources/a");
    assert_eq!(
        resolve_bundled_resource("a", &RootState::Unreadable, &inside),
        Err(ResourceError::RootUnreadable)
    );
    assert_eq!(
        resolve_bundled_resource("a", &RootState::NotRealDirectory, &inside),
        Err(ResourceError::RootNotReal)
    );
    assert_eq!(
        resolve_bundled_resource("a", &root(), &CandidateState::Unreadable),
        Err(ResourceError::Unreadable)
    );
    let orphan = CandidateState::Missing {
        link: false,
        parent: None,
    };
    assert_eq!(
        resolve_bundled_resource("a", &root(), &orphan),
        Err(ResourceError::ParentUnreadable)
    );
}

#[test]
fn a_sibling_of_the_resources_is_outside() {
    assert_eq!(
        resolve_bundled_resource(
            "a",
            &root(),
            &found("/Applications/Awase.app/Contents/ResourcesEvil/a"),
        ),
        Err(ResourceError::Escapes)
    );
}

#[test]
fn dots_and_empty_segments_stay_inside() {
    assert!(is_lexically_inside("layout/./nicola.yab"));
    assert!(is_lexically_inside("layout//nicola.yab"));
    assert!(is_lexically_inside(""));
    assert!(is_lexically_inside("layout/..nicola.yab"));
    assert!(!is_lexically_inside(".."));
    assert!(!is_lexically_inside("a/.."));
    assert!(!is_lexically_inside("/"));
}

#[test]
fn the_working_directory_is_never_used() {
    let bundled = Some("/Applications/Awase.app/Contents/MacOS/awase");
    assert_eq!(resource_place("config.toml", bundled), ResourcePlace::Bundle);
    assert_eq!(resource_place("/etc/config.toml", bundled), ResourcePlace::Bundle);
    let plain = Some("/usr/local/bin/awase");
    assert_eq!(resource_place("config.toml", plain), ResourcePlace::BesideExecutable);
    assert_eq!(resource_place("/etc/config.toml", plain), ResourcePlace::Absolute);
    assert_eq!(resource_place("/etc/config.toml", None), ResourcePlace::Absolute);
    assert_eq!(resource_place("config.toml", None), ResourcePlace::Nowhere);
}
