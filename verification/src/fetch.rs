//! The clone step's verified surface: the exact command line of the
//! bounded, shallow, single-branch clone, and the messages of the errors
//! that the clone and the folder check can raise. Spawning the process,
//! the ephemeral workspace and the folder check itself are filesystem
//! work and live in the surrounding binary.
use vstd::prelude::*;

use crate::text::dec_string;
use crate::text::u32_dec_string;

verus! {

/// The full command line of one clone attempt: the `timeout` tool bounds
/// the run to `timeout` seconds, and `git clone` fetches a shallow,
/// single-branch checkout of the `main` branch of `repo_url` into `dest`.
pub open spec fn clone_argv_spec(timeout: nat, repo_url: Seq<char>, dest: Seq<char>) -> Seq<
    Seq<char>,
> {
    seq![
        "timeout"@,
        dec_string(timeout),
        "git"@,
        "clone"@,
        "--depth"@,
        "1"@,
        "--single-branch"@,
        "--branch"@,
        "main"@,
        repo_url,
        dest,
    ]
}

/// The command line of one clone attempt, program first.
pub fn clone_command_args(timeout: u32, repo_url: &str, dest: &str) -> (r: Vec<String>)
    ensures
        r.deep_view() == clone_argv_spec(timeout as nat, repo_url@, dest@),
{
    let mut r: Vec<String> = Vec::new();
    r.push(String::from_str("timeout"));
    r.push(u32_dec_string(timeout));
    r.push(String::from_str("git"));
    r.push(String::from_str("clone"));
    r.push(String::from_str("--depth"));
    r.push(String::from_str("1"));
    r.push(String::from_str("--single-branch"));
    r.push(String::from_str("--branch"));
    r.push(String::from_str("main"));
    r.push(String::from_str(repo_url));
    r.push(String::from_str(dest));
    proof {
        assert(r.deep_view() =~~= clone_argv_spec(timeout as nat, repo_url@, dest@));
    }
    r
}

/// The message of a clone that ran out of time or failed; it carries the
/// configured timeout in seconds.
pub open spec fn clone_failure_message_spec(timeout: nat) -> Seq<char> {
    "Error: Git clone timed out after "@ + dec_string(timeout) + " seconds or failed."@
}

/// The message of a clone that ran out of time or failed.
pub fn clone_failure_message(timeout: u32) -> (r: String)
    ensures
        r@ == clone_failure_message_spec(timeout as nat),
{
    let mut r = String::from_str("Error: Git clone timed out after ");
    let secs = u32_dec_string(timeout);
    r.append(secs.as_str());
    r.append(" seconds or failed.");
    r
}

/// The clone-failure message mentions the configured timeout value: the
/// timeout's decimal digits stand in the message as a contiguous run.
pub proof fn lemma_clone_message_mentions_timeout(timeout: nat)
    ensures
        exists|i: int|
            0 <= i && i + dec_string(timeout).len() <= clone_failure_message_spec(timeout).len()
                && #[trigger] clone_failure_message_spec(timeout).subrange(
                i,
                i + dec_string(timeout).len(),
            ) == dec_string(timeout),
{
    let msg = clone_failure_message_spec(timeout);
    let head = "Error: Git clone timed out after "@;
    let digits = dec_string(timeout);
    let i = head.len() as int;
    assert(msg.subrange(i, i + digits.len()) =~= digits);
}

/// The message of a folder that the cloned repository does not contain.
pub open spec fn folder_not_found_message_spec(folder: Seq<char>) -> Seq<char> {
    "Error: Folder "@ + folder + " not found in the repository."@
}

/// The message of a folder that the cloned repository does not contain.
pub fn folder_not_found_message(folder: &str) -> (r: String)
    ensures
        r@ == folder_not_found_message_spec(folder@),
{
    let mut r = String::from_str("Error: Folder ");
    r.append(folder);
    r.append(" not found in the repository.");
    r
}

} // verus!
