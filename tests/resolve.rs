use dots::{
    resolve, DestState, FileKind, FsError, FsErrorKind, Link, ResolveIssueKind, ResolveIssueLevel,
};

fn canonical(p: &str) -> Result<String, FsError> {
    Ok(p.to_string())
}

#[test]
fn a_clean_link_resolves_without_issues() {
    let r = resolve(
        Link::new("shell/bashrc", "~/.bashrc"),
        "/home/u",
        canonical("/dots/a/shell/bashrc"),
        DestState::Absent,
    );
    assert_eq!(r.src.path.as_deref(), Some("/dots/a/shell/bashrc"));
    assert_eq!(r.dest.path.as_deref(), Some("/home/u/.bashrc"));
    assert!(r.issues().is_empty());
    assert!(!r.has_errors() && !r.has_warnings());
    let l = r.as_link().unwrap();
    assert_eq!(l.src.path, "/dots/a/shell/bashrc");
    assert_eq!(l.dest.path, "/home/u/.bashrc");
}

#[test]
fn an_absolute_source_is_an_invalid_path() {
    let r = resolve(Link::new("/etc/bashrc", "~/.bashrc"), "/home/u", canonical("/x"), DestState::Absent);
    assert_eq!(r.src.path, None);
    assert_eq!(r.src.issues.len(), 1);
    assert!(matches!(r.src.issues[0].kind, ResolveIssueKind::InvalidPath(_)));
    assert_eq!(r.src.max_issue_level(), Some(ResolveIssueLevel::Error));
    assert!(r.as_link().is_none());
}

#[test]
fn an_absolute_destination_is_an_invalid_path() {
    let r = resolve(Link::new("a", "/etc/a"), "/home/u", canonical("/dots/a"), DestState::Absent);
    assert_eq!(r.dest.path, None);
    assert!(matches!(r.dest.issues[0].kind, ResolveIssueKind::InvalidPath(_)));
    assert!(r.has_errors());
}

#[test]
fn a_missing_source_is_not_found_and_the_destination_is_still_resolved() {
    let err = FsError { kind: FsErrorKind::NotFound, message: "gone".to_string() };
    let r = resolve(Link::new("shell/bashrc", "~/.bashrc"), "/home/u", Err(err), DestState::Absent);
    assert!(matches!(r.src.issues[0].kind, ResolveIssueKind::NotFound));
    assert_eq!(r.src.issues[0].message(), "Can't find Source: shell/bashrc");
    assert_eq!(r.dest.path.as_deref(), Some("/home/u/.bashrc"));
}

#[test]
fn permission_and_other_failures_are_told_apart() {
    let denied = FsError { kind: FsErrorKind::PermissionDenied, message: String::new() };
    let r = resolve(Link::new("a", "b"), "/h", Err(denied), DestState::Absent);
    assert_eq!(r.src.issues[0].message(), "Permission denied to Source: a");
    let other = FsError { kind: FsErrorKind::Other, message: "boom".to_string() };
    let r = resolve(Link::new("a", "b"), "/h", Err(other), DestState::Absent);
    assert_eq!(r.src.issues[0].message(), "Error resolving Source a: boom");
}

#[test]
fn an_existing_file_is_a_warning() {
    let r = resolve(
        Link::new("shell/bashrc", "~/.bashrc"),
        "/home/u",
        canonical("/dots/a/shell/bashrc"),
        DestState::Occupied(FileKind::File),
    );
    assert_eq!(r.dest.issues.len(), 1);
    assert_eq!(r.dest.issues[0].level(), ResolveIssueLevel::Warning);
    assert_eq!(r.dest.issues[0].message(), "Destination already exists as a file: ~/.bashrc");
    assert!(r.has_warnings() && !r.has_errors());
}

#[test]
fn an_existing_directory_is_a_warning() {
    let r = resolve(Link::new("bin", "bin"), "/h", canonical("/d/bin"), DestState::Occupied(FileKind::Directory));
    assert_eq!(r.dest.issues[0].message(), "Destination already exists as a directory: bin");
}

#[test]
fn a_symlink_to_the_same_source_is_no_issue() {
    let r = resolve(
        Link::new("shell/bashrc", "~/.bashrc"),
        "/home/u",
        canonical("/dots/a/shell/bashrc"),
        DestState::Symlink { target: Some("/dots/a/shell/bashrc".to_string()), dangling: false },
    );
    assert!(r.dest.issues.is_empty());
}

#[test]
fn a_symlink_to_another_file_is_a_warning() {
    let r = resolve(
        Link::new("shell/bashrc", "~/.bashrc"),
        "/home/u",
        canonical("/dots/a/shell/bashrc"),
        DestState::Symlink { target: Some("/elsewhere/bashrc".to_string()), dangling: false },
    );
    assert_eq!(
        r.dest.issues[0].message(),
        "Destination already exists as a symbolic link to another file: ~/.bashrc"
    );
}

#[test]
fn a_dangling_symlink_is_no_issue() {
    let r = resolve(
        Link::new("shell/bashrc", "~/.bashrc"),
        "/home/u",
        canonical("/dots/a/shell/bashrc"),
        DestState::Symlink { target: Some("/gone".to_string()), dangling: true },
    );
    assert!(r.dest.issues.is_empty());
}

#[test]
fn an_unreadable_destination_is_an_error() {
    let r = resolve(Link::new("a", "b"), "/h", canonical("/d/a"), DestState::Unreadable("denied".to_string()));
    assert!(matches!(r.dest.issues[0].kind, ResolveIssueKind::IO(_)));
    assert_eq!(r.dest.issues[0].message(), "Error resolving Destination b: denied");
    assert!(r.has_errors());
}

#[test]
fn the_report_line_marks_the_worst_severity() {
    let r = resolve(Link::new("bin", "~/bin"), "/h", canonical("/d/bin"), DestState::Occupied(FileKind::File));
    let line = r.report_line(true);
    assert!(line.ok);
    assert_eq!(line.src, "bin/");
    assert_eq!(line.src_level, None);
    assert_eq!(line.dest, "~/bin");
    assert_eq!(line.dest_level, Some(ResolveIssueLevel::Warning));
}
