use dots::{
    resolve, DestState, Dot, DotPackageMeta, FileKind, Link, Plan, PlanError, ResolveIssueKind,
    ResolvedLink,
};

fn link(src: &str, dest: &str, canonical: &str, state: DestState) -> ResolvedLink {
    resolve(Link::new(src, dest), "/home/u", Ok(canonical.to_string()), state)
}

fn dot(name: &str, links: Vec<ResolvedLink>) -> Dot {
    Dot {
        package: DotPackageMeta { name: name.to_string(), authors: vec![] },
        links,
        path: format!("/dots/{name}"),
    }
}

fn conflicts(l: &ResolvedLink) -> usize {
    l.dest.issues.iter().filter(|i| matches!(i.kind, ResolveIssueKind::Conflict)).count()
}

#[test]
fn duplicate_destinations_mark_both_links_and_fail_even_with_force() {
    let a = dot("a", vec![link("shell/bashrc", "~/.bashrc", "/dots/a/shell/bashrc", DestState::Absent)]);
    let b = dot("b", vec![link("bashrc", "~/.bashrc", "/dots/b/bashrc", DestState::Absent)]);
    let mut plan = Plan::new(true);
    assert_eq!(plan.validate(vec![a, b]), Err(PlanError::HasErrors));
    assert_eq!(plan.links().len(), 2);
    assert_eq!(conflicts(&plan.links()[0]), 1);
    assert_eq!(conflicts(&plan.links()[1]), 1);
    assert_eq!(
        plan.links()[0].dest.issues[0].message(),
        "Multiple dots link to the following destination: ~/.bashrc"
    );
}

#[test]
fn three_colliding_links_each_carry_one_conflict() {
    let a = dot(
        "a",
        vec![
            link("x", "~/.x", "/dots/a/x", DestState::Absent),
            link("y", "~/.x", "/dots/a/y", DestState::Absent),
            link("z", "~/.z", "/dots/a/z", DestState::Absent),
        ],
    );
    let b = dot("b", vec![link("x", ".x", "/dots/b/x", DestState::Absent)]);
    let mut plan = Plan::new(false);
    assert!(plan.validate(vec![a, b]).is_err());
    let counts: Vec<usize> = plan.links().iter().map(conflicts).collect();
    assert_eq!(counts, vec![1, 1, 0, 1]);
    assert_eq!(plan.names(), &vec!["a".to_string(), "b".to_string()]);
    assert_eq!(plan.counts(), &vec![3, 1]);
}

#[test]
fn an_existing_file_fails_without_force() {
    let a = dot("a", vec![link("shell/bashrc", "~/.bashrc", "/dots/a/shell/bashrc", DestState::Occupied(FileKind::File))]);
    let mut plan = Plan::new(false);
    assert_eq!(plan.validate(vec![a]), Err(PlanError::UnresolvedWarnings));
    assert!(plan.suggests_force());
    assert_eq!(PlanError::UnresolvedWarnings.message(), "Plan Error: Plan has unresolved warnings.");
}

#[test]
fn an_existing_file_passes_with_force() {
    let a = dot("a", vec![link("shell/bashrc", "~/.bashrc", "/dots/a/shell/bashrc", DestState::Occupied(FileKind::File))]);
    let mut plan = Plan::new(true);
    assert_eq!(plan.validate(vec![a]), Ok(()));
    assert!(!plan.suggests_force());
    assert_eq!(plan.links_to_install().len(), 1);
}

#[test]
fn an_error_fails_the_plan_before_warnings() {
    let a = dot(
        "a",
        vec![
            link("a", "~/.a", "/dots/a/a", DestState::Occupied(FileKind::File)),
            link("b", "/abs", "/dots/a/b", DestState::Absent),
        ],
    );
    let mut plan = Plan::new(false);
    assert_eq!(plan.validate(vec![a]), Err(PlanError::HasErrors));
    assert!(plan.has_errors() && plan.has_warnings());
    assert_eq!(PlanError::HasErrors.message(), "Plan Error: Planning failed.");
    assert_eq!(plan.links_to_install().len(), 1);
}

#[test]
fn an_empty_plan_passes() {
    let mut plan = Plan::new(false);
    assert_eq!(plan.validate(vec![]), Ok(()));
    assert!(plan.links_to_install().is_empty());
}
