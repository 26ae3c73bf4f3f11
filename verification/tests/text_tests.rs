use ghfolder::text::join_segments;
use ghfolder::text::slashes_to_underscores;

#[test]
fn join_from_middle() {
    let segs: Vec<String> = vec!["a".to_string(), "b".to_string(), "c".to_string()];
    assert_eq!(join_segments(&segs, 1), "b/c");
    assert_eq!(join_segments(&segs, 0), "a/b/c");
    assert_eq!(join_segments(&segs, 2), "c");
}

#[test]
fn join_of_nothing_is_empty() {
    let segs: Vec<String> = vec!["a".to_string()];
    assert_eq!(join_segments(&segs, 1), "");
}

#[test]
fn slashes_become_underscores() {
    assert_eq!(slashes_to_underscores("docs/guides"), "docs_guides");
    assert_eq!(slashes_to_underscores("plain"), "plain");
    assert_eq!(slashes_to_underscores(""), "");
    assert_eq!(slashes_to_underscores("//"), "__");
}
