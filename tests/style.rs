use dots::{path_style, Attribute, Color, ResolveIssueLevel, Style};

#[test]
fn style_macro_should_accept_an_attribute() {
    let style = Style::new().attr(Attribute::Bold).attr(Attribute::Underlined);
    assert_eq!(style.bold, true);
    assert_eq!(style.underlined, true);
}

#[test]
fn style_color_and_background_are_kept_apart() {
    let style = Style::new().color(Color::White).background(Color::Black);
    assert_eq!(style.color, Some(Color::White));
    assert_eq!(style.background, Some(Color::Black));
    assert!(!style.bold);
}

#[test]
fn style_merge_prefers_the_overlay_colour_and_keeps_attributes() {
    let base = Style::new().red().bold();
    let over = Style::new().blue().italic();
    let merged = base.merge(&over);
    assert_eq!(merged.color, Some(Color::Blue));
    assert!(merged.bold && merged.italic);
    let kept = over.merge(&Style::new());
    assert_eq!(kept.color, Some(Color::Blue));
}

#[test]
fn path_style_follows_the_worst_severity() {
    let err = path_style(Some(ResolveIssueLevel::Error));
    assert_eq!(err.color, Some(Color::Red));
    assert!(err.italic && !err.underlined);
    let warn = path_style(Some(ResolveIssueLevel::Warning));
    assert_eq!(warn.color, Some(Color::Yellow));
    assert!(warn.underlined && !warn.italic);
    assert_eq!(path_style(None), Style::new());
}
