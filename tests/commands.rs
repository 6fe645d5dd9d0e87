use dots::{add, find, AddError, AddStep, Dot, DotPackageMeta, Fixture};

fn named(name: &str, path: &str) -> Dot {
    Dot {
        package: DotPackageMeta { name: name.to_string(), authors: vec![] },
        links: vec![],
        path: path.to_string(),
    }
}

#[test]
fn adding_over_an_installed_package_needs_overwrite() {
    assert_eq!(add(false, false), Ok(AddStep::Install));
    assert_eq!(add(true, true), Ok(AddStep::Replace));
    assert_eq!(add(true, false), Err(AddError::AlreadyInstalled));
}

#[test]
fn find_returns_the_first_package_of_that_name() {
    let dots = vec![named("a", "/1"), named("b", "/2"), named("b", "/3")];
    assert_eq!(find("b", dots).map(|d| d.path), Some("/2".to_string()));
    assert!(find("missing_dot", vec![named("a", "/1")]).is_none());
}

#[test]
fn fixture_names_name_their_packages() {
    assert_eq!(Fixture::ExampleDot.name(), "example_dot");
    assert_eq!(Fixture::ExampleDotWithLinkAdded.name(), "example_dot");
    assert_eq!(Fixture::ExampleDotWithDirectory.name(), "example_dot_with_directory");
    assert_eq!(Fixture::ConflictingDot.name(), "conflicting_dot");
}
