use dots::{destination_path, source_path, Environment};

#[test]
fn destination_with_home_marker_lies_under_home() {
    assert_eq!(destination_path("/home/u", "~/.bashrc"), Some("/home/u/.bashrc".to_string()));
}

#[test]
fn bare_relative_destination_lies_under_home() {
    assert_eq!(destination_path("/home/u", ".config/x"), Some("/home/u/.config/x".to_string()));
}

#[test]
fn absolute_destination_is_rejected() {
    assert_eq!(destination_path("/home/u", "/etc/passwd"), None);
}

#[test]
fn source_is_joined_to_the_package_root() {
    assert_eq!(source_path("/dots/a", "shell/bashrc"), Some("/dots/a/shell/bashrc".to_string()));
    assert_eq!(source_path("/dots/a", "/shell/bashrc"), None);
}

#[test]
fn environment_paths_lie_under_the_root() {
    let env = Environment::new("/home/u/.dots".to_string());
    assert_eq!(env.root(), "/home/u/.dots");
    assert_eq!(env.path("a"), "/home/u/.dots/a");
    assert_eq!(env.footprint_path(), "/home/u/.dots/dot-footprint.toml");
}
