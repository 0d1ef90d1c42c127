use git2_commit::clonepath::{clone_destination, strip_last_extension};

fn s(v: &str) -> String {
    v.to_string()
}

#[test]
fn stripping_removes_the_last_extension_only() {
    assert_eq!(strip_last_extension(&s("repo.git")), "repo");
    assert_eq!(strip_last_extension(&s("a.b.c")), "a.b");
    assert_eq!(strip_last_extension(&s("plain")), "plain");
    assert_eq!(strip_last_extension(&s("x.")), "x");
}

#[test]
fn stripping_keeps_dotfiles_and_dot_names() {
    assert_eq!(strip_last_extension(&s(".git")), ".git");
    assert_eq!(strip_last_extension(&s("..")), "..");
    assert_eq!(strip_last_extension(&s("")), "");
    assert_eq!(strip_last_extension(&s(".a.b")), ".a");
}

#[test]
fn explicit_directory_wins() {
    let r = clone_destination("https://example.com/owner/project.git", &Some(s("here")));
    assert_eq!(r.unwrap(), "here");
}

#[test]
fn directory_is_derived_from_the_last_url_segment() {
    let r = clone_destination("https://example.com/owner/project.git", &None);
    assert_eq!(r.unwrap(), "project");

    let plain = clone_destination("https://example.com/tool", &None);
    assert_eq!(plain.unwrap(), "tool");
}

#[test]
fn trailing_slash_leaves_an_empty_segment() {
    let r = clone_destination("https://example.com/owner/", &None);
    assert_eq!(r.unwrap(), "");
}

#[test]
fn a_url_without_a_path_is_refused() {
    let r = clone_destination("mailto:someone@example.com", &None);
    assert_eq!(
        r.unwrap_err(),
        "URL has no path. Can't extract target directory"
    );
}

#[test]
fn an_unparseable_url_is_refused() {
    let r = clone_destination("http://[broken", &None);
    assert!(r.is_err());
}
