use dots::{classify, CleanAction, Footprint, FootprintLink, Link, LiveLink};

fn entry(src: &str, dest: &str) -> FootprintLink {
    FootprintLink::new(src, dest)
}

fn live_to(target: &str) -> LiveLink {
    LiveLink::Symlink(Some(target.to_string()))
}

#[test]
fn inserting_a_pair_twice_keeps_one() {
    let mut fp = Footprint::new();
    fp.insert("/dots/a/x", "/h/.x");
    fp.insert("/dots/a/x", "/h/.x");
    assert_eq!(fp.links().len(), 1);
    assert!(fp.contains("/dots/a/x", "/h/.x"));
    assert!(!fp.contains("/dots/a/x", "/h/.y"));
}

#[test]
fn loading_drops_repeated_pairs() {
    let fp = Footprint::from_links(vec![entry("a", "b"), entry("c", "d"), entry("a", "b")]);
    assert_eq!(fp.links().len(), 2);
    assert_eq!(fp.links()[0].src, "a");
    assert_eq!(fp.links()[1].dest, "d");
}

#[test]
fn an_orphan_entry_is_forgotten_without_deleting() {
    let fp = Footprint::from_links(vec![entry("/dots/a/x", "/h/.x")]);
    let valid = vec![Link::new("/dots/a/x", "/h/.x")];
    let (next, gone) = fp.reconcile(&vec![LiveLink::NotSymlink], "/dots", &valid);
    assert!(next.links().is_empty());
    assert!(gone.is_empty());
}

#[test]
fn a_symlink_pointing_elsewhere_is_forgotten() {
    let e = entry("/dots/a/x", "/h/.x");
    let valid = vec![Link::new("/dots/a/x", "/h/.x")];
    assert_eq!(classify(&e, &live_to("/other"), "/dots", &valid), CleanAction::Forget);
    assert_eq!(classify(&e, &LiveLink::Symlink(None), "/dots", &valid), CleanAction::Forget);
}

#[test]
fn a_source_outside_the_root_is_forgotten_but_not_unlinked() {
    let e = entry("/elsewhere/x", "/h/.x");
    assert_eq!(classify(&e, &live_to("/elsewhere/x"), "/dots", &vec![]), CleanAction::Forget);
    // a path that only shares a prefix of characters is outside
    let e = entry("/dotsy/x", "/h/.x");
    assert_eq!(classify(&e, &live_to("/dotsy/x"), "/dots", &vec![]), CleanAction::Forget);
}

#[test]
fn an_undeclared_live_link_is_unlinked() {
    let fp = Footprint::from_links(vec![entry("/dots/a/x", "/h/.x"), entry("/dots/a/y", "/h/.y")]);
    let valid = vec![Link::new("/dots/a/y", "/h/.y")];
    let lives = vec![live_to("/dots/a/x"), live_to("/dots/a/y")];
    let (next, gone) = fp.reconcile(&lives, "/dots", &valid);
    assert_eq!(gone, vec!["/h/.x".to_string()]);
    assert_eq!(next.links().len(), 1);
    assert_eq!(next.links()[0].dest, "/h/.y");
}

#[test]
fn reconciliation_judges_every_entry() {
    let fp = Footprint::from_links(vec![
        entry("/dots/a/x", "/h/.x"),
        entry("/dots/a/y", "/h/.y"),
        entry("/dots/a/z", "/h/.z"),
        entry("/dots/a/w", "/h/.w"),
    ]);
    let valid = vec![Link::new("/dots/a/w", "/h/.w")];
    let lives = vec![live_to("/dots/a/x"), LiveLink::NotSymlink, live_to("/dots/a/z"), live_to("/dots/a/w")];
    let (next, gone) = fp.reconcile(&lives, "/dots", &valid);
    assert_eq!(gone, vec!["/h/.x".to_string(), "/h/.z".to_string()]);
    assert_eq!(next.links().len(), 1);
    assert!(next.contains("/dots/a/w", "/h/.w"));
}

#[test]
fn reloading_the_entries_gives_the_same_footprint() {
    let mut fp = Footprint::new();
    fp.insert("/dots/a/x", "/h/.x");
    fp.insert("/dots/a/y", "/h/.y");
    let rows: Vec<FootprintLink> = fp.links().iter().map(|e| FootprintLink::new(&e.src, &e.dest)).collect();
    let again = Footprint::from_links(rows);
    assert_eq!(again.links().len(), 2);
    assert_eq!(again.links()[0].src, "/dots/a/x");
    assert_eq!(again.links()[1].dest, "/h/.y");
}
