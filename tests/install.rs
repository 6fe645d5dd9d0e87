use dots::{
    install_step, resolve, valid_links, DestState, Dot, DotPackageMeta, ExecutionError, FileKind,
    Footprint, InstallStep, Link, LiveLink, Plan, ResolvedLink,
};

const HOME: &str = "/home/u";

fn declared(dests: &[(&str, &str)], states: Vec<DestState>) -> Dot {
    let links: Vec<ResolvedLink> = dests
        .iter()
        .zip(states)
        .map(|((src, dest), state)| {
            let canonical = format!("/home/u/.dots/A/{src}");
            resolve(Link::new(src, dest), HOME, Ok(canonical), state)
        })
        .collect();
    Dot {
        package: DotPackageMeta { name: "A".to_string(), authors: vec![] },
        links,
        path: "/home/u/.dots/A".to_string(),
    }
}

const A: [(&str, &str); 2] = [("shell/bashrc", "~/.bashrc"), ("shell/zshrc", "~/.zshrc")];

#[test]
fn install_records_exactly_the_declared_links() {
    let mut plan = Plan::new(false);
    assert_eq!(plan.validate(vec![declared(&A, vec![DestState::Absent, DestState::Absent])]), Ok(()));
    let mut fp = Footprint::new();
    for link in plan.links_to_install() {
        assert_eq!(install_step(&link, DestState::Absent, false).unwrap(), InstallStep::Create);
        fp.insert(&link.src.path, &link.dest.path);
    }
    assert_eq!(fp.links().len(), 2);
    assert!(fp.contains("/home/u/.dots/A/shell/bashrc", "/home/u/.bashrc"));
    assert!(fp.contains("/home/u/.dots/A/shell/zshrc", "/home/u/.zshrc"));
}

#[test]
fn a_second_install_changes_nothing() {
    let mut fp = Footprint::new();
    fp.insert("/home/u/.dots/A/shell/bashrc", "/home/u/.bashrc");
    fp.insert("/home/u/.dots/A/shell/zshrc", "/home/u/.zshrc");
    let states = vec![
        DestState::Symlink { target: Some("/home/u/.dots/A/shell/bashrc".to_string()), dangling: false },
        DestState::Symlink { target: Some("/home/u/.dots/A/shell/zshrc".to_string()), dangling: false },
    ];
    let dots = vec![declared(&A, states)];
    let valid = valid_links(&dots);
    let lives = vec![
        LiveLink::Symlink(Some("/home/u/.dots/A/shell/bashrc".to_string())),
        LiveLink::Symlink(Some("/home/u/.dots/A/shell/zshrc".to_string())),
    ];
    let (mut next, gone) = fp.reconcile(&lives, "/home/u/.dots", &valid);
    assert!(gone.is_empty());
    assert_eq!(next.links().len(), 2);
    let mut plan = Plan::new(false);
    assert_eq!(plan.validate(dots), Ok(()));
    for link in plan.links_to_install() {
        let here = DestState::Symlink { target: Some(link.src.path.clone()), dangling: false };
        assert_eq!(install_step(&link, here, false).unwrap(), InstallStep::Keep);
        next.insert(&link.src.path, &link.dest.path);
    }
    assert_eq!(next.links().len(), 2);
    assert_eq!(next.links()[0].dest, "/home/u/.bashrc");
}

#[test]
fn a_plain_file_is_only_replaced_with_force() {
    let link = Link::new("/home/u/.dots/A/shell/bashrc", "/home/u/.bashrc");
    let file = || DestState::Occupied(FileKind::File);
    assert!(matches!(install_step(&link, file(), false), Err(ExecutionError::DestinationExists)));
    assert_eq!(install_step(&link, file(), true).unwrap(), InstallStep::ReplaceFile);
    let dir = || DestState::Occupied(FileKind::Directory);
    assert!(install_step(&link, dir(), false).is_err());
    assert_eq!(install_step(&link, dir(), true).unwrap(), InstallStep::ReplaceDirectory);
}

#[test]
fn a_foreign_symlink_is_replaced_and_a_failed_probe_stops() {
    let link = Link::new("/s", "/d");
    let other = DestState::Symlink { target: Some("/x".to_string()), dangling: false };
    assert_eq!(install_step(&link, other, false).unwrap(), InstallStep::ReplaceSymlink);
    let bad = DestState::Unreadable("denied".to_string());
    assert!(matches!(install_step(&link, bad, true), Err(ExecutionError::CannotInspect(_))));
    assert!(install_step(&link, DestState::Occupied(FileKind::Other), true).is_err());
}

#[test]
fn valid_links_skip_unresolved_ones() {
    let mut d = declared(&A, vec![DestState::Absent, DestState::Absent]);
    d.links.push(resolve(Link::new("x", "/abs"), HOME, Ok("/home/u/.dots/A/x".to_string()), DestState::Absent));
    let v = valid_links(&vec![d]);
    assert_eq!(v.len(), 2);
    assert_eq!(v[1].dest.path, "/home/u/.zshrc");
}
