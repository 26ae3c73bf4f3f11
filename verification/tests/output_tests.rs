use ghfolder::output::file_record;
use ghfolder::output::flatten_folder;
use ghfolder::output::output_file_name;

#[test]
fn two_files_give_two_records() {
    let files: Vec<(String, String)> = vec![
        ("a.txt".to_string(), "hello".to_string()),
        ("b.txt".to_string(), "world".to_string()),
    ];
    let out = flatten_folder("docs/guides", &files);
    assert_eq!(
        out,
        "File: docs/guides/a.txt\nhello\n\nFile: docs/guides/b.txt\nworld\n\n"
    );
}

#[test]
fn empty_folder_gives_empty_output() {
    let files: Vec<(String, String)> = vec![];
    assert_eq!(flatten_folder("docs", &files), "");
}

#[test]
fn one_record_has_header_content_and_separator() {
    assert_eq!(file_record("docs", "a.txt", "hello"), "File: docs/a.txt\nhello\n\n");
}

#[test]
fn flatten_twice_gives_the_same_output() {
    let files: Vec<(String, String)> = vec![
        ("a.txt".to_string(), "hello".to_string()),
        ("b.txt".to_string(), "world".to_string()),
    ];
    let first = flatten_folder("docs/guides", &files);
    let second = flatten_folder("docs/guides", &files);
    assert_eq!(first, second);
}

#[test]
fn output_name_replaces_slashes() {
    assert_eq!(output_file_name("widgets", "docs/guides"), "widgets_docs_guides.txt");
}

#[test]
fn output_name_without_slash() {
    assert_eq!(output_file_name("repo", "docs"), "repo_docs.txt");
}
