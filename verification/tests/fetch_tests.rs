use ghfolder::fetch::clone_command_args;
use ghfolder::fetch::clone_failure_message;
use ghfolder::fetch::folder_not_found_message;
use ghfolder::text::u32_dec_string;

#[test]
fn clone_command_is_bounded_shallow_single_branch() {
    let argv = clone_command_args(5, "https://github.com/acme/widgets.git", "/tmp/work");
    let expected: Vec<String> = vec![
        "timeout".to_string(),
        "5".to_string(),
        "git".to_string(),
        "clone".to_string(),
        "--depth".to_string(),
        "1".to_string(),
        "--single-branch".to_string(),
        "--branch".to_string(),
        "main".to_string(),
        "https://github.com/acme/widgets.git".to_string(),
        "/tmp/work".to_string(),
    ];
    assert_eq!(argv, expected);
}

#[test]
fn clone_failure_message_names_the_timeout() {
    assert_eq!(
        clone_failure_message(5),
        "Error: Git clone timed out after 5 seconds or failed."
    );
    assert_eq!(
        clone_failure_message(30),
        "Error: Git clone timed out after 30 seconds or failed."
    );
}

#[test]
fn folder_not_found_message_names_the_folder() {
    assert_eq!(
        folder_not_found_message("docs/guides"),
        "Error: Folder docs/guides not found in the repository."
    );
}

#[test]
fn decimal_rendering() {
    assert_eq!(u32_dec_string(0), "0");
    assert_eq!(u32_dec_string(7), "7");
    assert_eq!(u32_dec_string(100), "100");
    assert_eq!(u32_dec_string(4294967295), "4294967295");
}
